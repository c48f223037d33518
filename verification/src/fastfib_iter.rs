//! The fast Fibonacci workload with the squaring written as a loop: an
//! accumulator collects the factors that the exponent's binary digits call
//! for, while the base is squared once per digit.

use vstd::prelude::*;
use crate::fastfib::{entries, fastfib_word, fib_matrix, lemma_fastfib_is_fib, matmul, Matrix2x2};
use crate::fib::fib_word;
use crate::matrix::{
    lemma_power_commutes, lemma_power_of_square, lemma_product_associative,
    lemma_product_identity, lemma_reduce_power, lemma_reduce_product, power, product, reduce,
    Matrix,
};

verus! {

/// One round of the loop keeps `base^e · acc` unchanged modulo 2^64: the
/// base is squared, the exponent halved, and where the exponent was odd the
/// accumulator takes one factor of the base.
proof fn lemma_round(base: Matrix, acc: Matrix, e: nat)
    requires
        e > 0,
    ensures
        e % 2 == 1 ==> reduce(
            product(
                power(reduce(product(base, base)), e / 2),
                reduce(product(base, acc)),
            ),
        ) == reduce(product(power(base, e), acc)),
        e % 2 == 0 ==> reduce(product(power(reduce(product(base, base)), e / 2), acc)) == reduce(
            product(power(base, e), acc),
        ),
{
    let k = e / 2;
    let square = product(base, base);
    let raised = power(reduce(square), k);
    lemma_reduce_power(square, k);
    lemma_power_of_square(base, k);
    // reduce(raised) == reduce(base^(2k))
    if e % 2 == 1 {
        let taken = product(base, acc);
        lemma_reduce_product(raised, taken);
        lemma_reduce_product(power(base, 2 * k), taken);
        // base^(2k) · (base · acc) == base^(2k + 1) · acc
        lemma_product_associative(power(base, 2 * k), base, acc);
        lemma_power_commutes(base, 2 * k);
    } else {
        lemma_reduce_product(raised, acc);
        lemma_reduce_product(power(base, 2 * k), acc);
    }
}

/// Raises a matrix of words to the power `e` by repeated squaring in a loop.
pub fn fast_matexp(b: Matrix2x2, e: u64) -> (r: Matrix2x2)
    ensures
        entries(r) == reduce(power(entries(b), e as nat)),
{
    let ghost start = entries(b);
    let ghost exponent = e as nat;
    let mut b = b;
    let mut e = e;
    let mut acc: Matrix2x2 = [1, 0, 0, 1];
    proof {
        lemma_product_identity(power(start, exponent));
    }
    while e > 0
        invariant
            reduce(product(power(entries(b), e as nat), entries(acc))) == reduce(
                power(start, exponent),
            ),
        decreases e,
    {
        proof {
            lemma_round(entries(b), entries(acc), e as nat);
        }
        if e % 2 == 1 {
            acc = matmul(b, acc);
            e = (e - 1) / 2;
        } else {
            e = e / 2;
        }
        b = matmul(b, b);
    }
    proof {
        lemma_product_identity(entries(acc));
    }
    acc
}

/// Computes the n-th Fibonacci number modulo 2^64 as the top left entry of
/// the `(n + 1)`-th power of the Fibonacci matrix.
pub fn fib(n: u64) -> (r: u64)
    ensures
        r as int == fastfib_word(n as nat),
        r as int == fib_word(n as nat),
{
    proof {
        lemma_fastfib_is_fib(n as nat);
    }
    let base: Matrix2x2 = [0, 1, 1, 1];
    if n == u64::MAX {
        let below = fast_matexp(base, n);
        proof {
            lemma_reduce_product(fib_matrix(), power(fib_matrix(), n as nat));
        }
        matmul(base, below)[0]
    } else {
        fast_matexp(base, n + 1)[0]
    }
}

} // verus!

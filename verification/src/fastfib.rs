//! The fast Fibonacci workload: powers of the Fibonacci matrix by repeated
//! squaring, over 64-bit words with wrapping arithmetic.

use vstd::prelude::*;
use vstd::arithmetic::div_mod::lemma_add_mod_noop;
use crate::fib::{fib_nat, fib_word, lemma_wrapping_add_is_mod, word_modulus};
use crate::matrix::{
    identity, lemma_power_add, lemma_power_of_square, lemma_power_one, lemma_reduce_power,
    lemma_reduce_product, power, product, reduce, Matrix,
};

verus! {

/// A two-by-two matrix of words, stored row by row: the entries at 0 and 1
/// are the first row, those at 2 and 3 the second.
pub type Matrix2x2 = [u64; 4];

/// The integer matrix that a matrix of words stands for.
pub open spec fn entries(m: Matrix2x2) -> Matrix {
    Matrix { a: m[0] as int, b: m[1] as int, c: m[2] as int, d: m[3] as int }
}

/// The Fibonacci matrix, whose powers hold consecutive Fibonacci numbers.
pub open spec fn fib_matrix() -> Matrix {
    Matrix { a: 0, b: 1, c: 1, d: 1 }
}

/// The symmetric matrix that holds three consecutive Fibonacci numbers.
pub open spec fn around(before: int, at: int, after: int) -> Matrix {
    Matrix { a: before, b: at, c: at, d: after }
}

/// What `fastfib` computes: the top left entry of the `(n + 1)`-th power of
/// the Fibonacci matrix, reduced modulo 2^64.
pub open spec fn fastfib_word(n: nat) -> int {
    power(fib_matrix(), n + 1).a % word_modulus()
}

/// The `k`-th power of the Fibonacci matrix holds the Fibonacci numbers
/// around `k`.
pub proof fn lemma_fib_matrix_power(k: nat)
    requires
        k >= 1,
    ensures
        power(fib_matrix(), k) == around(
            fib_nat((k - 1) as nat) as int,
            fib_nat(k) as int,
            fib_nat(k + 1) as int,
        ),
    decreases k,
{
    if k == 1 {
        assert(power(fib_matrix(), 0) == identity());
    } else {
        lemma_fib_matrix_power((k - 1) as nat);
    }
}

/// The fast and the linear Fibonacci workloads are one function: for every
/// `n` they agree as integers, and so they agree on every word, before the
/// results outgrow 64 bits and after.
pub proof fn lemma_fastfib_is_fib(n: nat)
    ensures
        power(fib_matrix(), n + 1).a == fib_nat(n),
        fastfib_word(n) == fib_word(n),
{
    lemma_fib_matrix_power(n + 1);
}

/// Fibonacci numbers do not shrink.
pub proof fn lemma_fib_monotone(i: nat, j: nat)
    requires
        i <= j,
    ensures
        fib_nat(i) <= fib_nat(j),
    decreases j,
{
    if i < j {
        lemma_fib_monotone(i, (j - 1) as nat);
    }
}

/// Products of the Fibonacci matrix's powers, worked out on their entries.
proof fn lemma_fib_matrix_products()
    ensures
        product(around(0, 1, 1), around(0, 1, 1)) == around(1, 1, 2),
        product(around(1, 1, 2), around(1, 1, 2)) == around(2, 3, 5),
        product(around(2, 3, 5), around(2, 3, 5)) == around(13, 21, 34),
        product(around(13, 21, 34), around(13, 21, 34)) == around(610, 987, 1597),
        product(
            around(610, 987, 1597),
            around(610, 987, 1597),
        ) == around(1346269, 2178309, 3524578),
        product(
            around(1346269, 2178309, 3524578),
            around(1346269, 2178309, 3524578),
        ) == around(6557470319842, 10610209857723, 17167680177565),
        product(around(2, 3, 5), around(1, 1, 2)) == around(5, 8, 13),
        product(around(13, 21, 34), around(5, 8, 13)) == around(233, 377, 610),
        product(around(610, 987, 1597), around(233, 377, 610)) == around(514229, 832040, 1346269),
        product(
            around(6557470319842, 10610209857723, 17167680177565),
            around(514229, 832040, 1346269),
        ) == around(12200160415121876738, 19740274219868223167, 31940434634990099905),
{
}

/// Where the results outgrow a word: the Fibonacci numbers up to the 93rd
/// fit in 64 bits, so that up to there both workloads return them as they
/// are, and the 94th is the first that does not fit.
pub proof fn lemma_fib_overflow_boundary()
    ensures
        fib_nat(93) == 12200160415121876738,
        fib_nat(94) == 19740274219868223167,
        forall|n: nat| n <= 93 ==> #[trigger] fib_word(n) == fib_nat(n),
        forall|n: nat| n <= 93 ==> #[trigger] fastfib_word(n) == fib_nat(n),
        fib_word(94) == 1293530146158671551,
{
    let f = fib_matrix();
    lemma_fib_matrix_products();
    lemma_power_one(f);
    lemma_power_add(f, 1, 1);
    lemma_power_add(f, 2, 2);
    lemma_power_add(f, 4, 4);
    lemma_power_add(f, 8, 8);
    lemma_power_add(f, 16, 16);
    lemma_power_add(f, 32, 32);
    lemma_power_add(f, 4, 2);
    lemma_power_add(f, 8, 6);
    lemma_power_add(f, 16, 14);
    lemma_power_add(f, 64, 30);
    lemma_fib_matrix_power(94);
    assert forall|n: nat| n <= 93 implies #[trigger] fib_word(n) == fib_nat(n) by {
        lemma_fib_monotone(n, 93);
    }
    assert forall|n: nat| n <= 93 implies #[trigger] fastfib_word(n) == fib_nat(n) by {
        lemma_fib_monotone(n, 93);
        lemma_fastfib_is_fib(n);
    }
}

/// A wrapping sum of two wrapping products is the sum of the products
/// modulo 2^64.
proof fn lemma_wrapping_dot(x0: u64, y0: u64, x1: u64, y1: u64)
    ensures
        x0.wrapping_mul(y0).wrapping_add(x1.wrapping_mul(y1)) as int == (x0 as int * y0 as int
            + x1 as int * y1 as int) % word_modulus(),
{
    let p = x0.wrapping_mul(y0);
    let q = x1.wrapping_mul(y1);
    assert(p as int == (x0 as int * y0 as int) % word_modulus()) by {
        assert(x0 as nat * y0 as nat == x0 as int * y0 as int) by (nonlinear_arith);
    }
    assert(q as int == (x1 as int * y1 as int) % word_modulus()) by {
        assert(x1 as nat * y1 as nat == x1 as int * y1 as int) by (nonlinear_arith);
    }
    lemma_wrapping_add_is_mod(p, q);
    lemma_add_mod_noop(x0 as int * y0 as int, x1 as int * y1 as int, word_modulus());
}

/// Multiplies two matrices of words, every product and sum wrapping.
pub fn matmul(a: Matrix2x2, b: Matrix2x2) -> (r: Matrix2x2)
    ensures
        entries(r) == reduce(product(entries(a), entries(b))),
{
    proof {
        lemma_wrapping_dot(a[0], b[0], a[1], b[2]);
        lemma_wrapping_dot(a[0], b[1], a[1], b[3]);
        lemma_wrapping_dot(a[2], b[0], a[3], b[2]);
        lemma_wrapping_dot(a[2], b[1], a[3], b[3]);
    }
    [
        a[0].wrapping_mul(b[0]).wrapping_add(a[1].wrapping_mul(b[2])),
        a[0].wrapping_mul(b[1]).wrapping_add(a[1].wrapping_mul(b[3])),
        a[2].wrapping_mul(b[0]).wrapping_add(a[3].wrapping_mul(b[2])),
        a[2].wrapping_mul(b[1]).wrapping_add(a[3].wrapping_mul(b[3])),
    ]
}

/// Raises a matrix of words to the power `e` by repeated squaring: the empty
/// power is the identity, an odd power is the matrix times a power of its
/// square, an even power is a power of its square.
pub fn fast_matexp(b: Matrix2x2, e: u64) -> (r: Matrix2x2)
    ensures
        entries(r) == reduce(power(entries(b), e as nat)),
    decreases e,
{
    if e == 0 {
        [1, 0, 0, 1]
    } else if e % 2 == 1 {
        let square = matmul(b, b);
        let rest = fast_matexp(square, (e - 1) / 2);
        proof {
            let k = ((e - 1) / 2) as nat;
            lemma_reduce_power(product(entries(b), entries(b)), k);
            lemma_power_of_square(entries(b), k);
            lemma_reduce_product(entries(b), power(entries(b), 2 * k));
        }
        matmul(b, rest)
    } else {
        let square = matmul(b, b);
        proof {
            let k = (e / 2) as nat;
            lemma_reduce_power(product(entries(b), entries(b)), k);
            lemma_power_of_square(entries(b), k);
        }
        fast_matexp(square, e / 2)
    }
}

/// Computes the n-th Fibonacci number modulo 2^64 as the top left entry of
/// the `(n + 1)`-th power of the Fibonacci matrix.
pub fn fastfib(n: u64) -> (r: u64)
    ensures
        r as int == fastfib_word(n as nat),
        r as int == fib_word(n as nat),
{
    proof {
        lemma_fastfib_is_fib(n as nat);
    }
    let base: Matrix2x2 = [0, 1, 1, 1];
    if n == u64::MAX {
        let below = fast_matexp(base, n);
        proof {
            lemma_reduce_product(fib_matrix(), power(fib_matrix(), n as nat));
        }
        matmul(base, below)[0]
    } else {
        fast_matexp(base, n + 1)[0]
    }
}

} // verus!

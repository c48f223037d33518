//! The summation workload: the total of a sequence of 64-bit words, wrapping.

use vstd::prelude::*;
use vstd::arithmetic::div_mod::lemma_add_mod_noop;
use crate::fib::{lemma_wrapping_add_is_mod, word_modulus};

verus! {

/// The total of a sequence of words over the naturals.
pub open spec fn total(xs: Seq<u64>) -> nat
    decreases xs.len(),
{
    if xs.len() == 0 {
        0
    } else {
        total(xs.drop_last()) + xs.last() as nat
    }
}

/// The total of a sequence of words reduced modulo 2^64.
pub open spec fn sum_word(xs: Seq<u64>) -> int {
    total(xs) as int % word_modulus()
}

/// The numbers `0, 1, ..., n - 1` in rising order: the input of the
/// summation workload with parameter `n`.
pub open spec fn below(n: nat) -> Seq<u64> {
    Seq::new(n, |i: int| i as u64)
}

/// The total of the numbers below `n` is `n (n - 1) / 2`.
pub proof fn lemma_total_below(n: nat)
    requires
        n <= word_modulus(),
    ensures
        2 * total(below(n)) == n * (n - 1),
        total(below(n)) == n * (n - 1) / 2,
        sum_word(below(n)) == (n * (n - 1) / 2) % word_modulus(),
    decreases n,
{
    if n == 0 {
        assert(n * (n - 1) == 0) by (nonlinear_arith)
            requires
                n == 0,
        ;
    } else {
        let m = (n - 1) as nat;
        lemma_total_below(m);
        assert(below(n).drop_last() =~= below(m));
        assert(2 * (total(below(m)) + m) == n * (n - 1)) by (nonlinear_arith)
            requires
                2 * total(below(m)) == m * (m - 1),
                m == n - 1,
        ;
    }
}

/// Adds up the words of `input` from first to last with wrapping addition.
pub fn sum(input: Vec<u64>) -> (r: u64)
    ensures
        r as int == sum_word(input@),
{
    let mut acc: u64 = 0;
    let mut i: usize = 0;
    while i < input.len()
        invariant
            i <= input.len(),
            acc as int == sum_word(input@.take(i as int)),
        decreases input.len() - i,
    {
        proof {
            let seen = input@.take(i as int);
            let next = input@.take(i + 1);
            assert(next.drop_last() =~= seen);
            lemma_wrapping_add_is_mod(acc, input[i as int]);
            lemma_add_mod_noop(total(seen) as int, input[i as int] as int, word_modulus());
        }
        acc = acc.wrapping_add(input[i]);
        i = i + 1;
    }
    assert(input@.take(input.len() as int) =~= input@);
    acc
}

/// Adds up the numbers below `n` with wrapping addition, without storing
/// them.
pub fn sum_below(n: u64) -> (r: u64)
    ensures
        r as int == sum_word(below(n as nat)),
        r as int == (n * (n - 1) / 2) % word_modulus(),
{
    let mut acc: u64 = 0;
    let mut i: u64 = 0;
    while i < n
        invariant
            i <= n,
            acc as int == sum_word(below(i as nat)),
        decreases n - i,
    {
        proof {
            let seen = below(i as nat);
            let next = below((i + 1) as nat);
            assert(next.drop_last() =~= seen);
            lemma_wrapping_add_is_mod(acc, i);
            lemma_add_mod_noop(total(seen) as int, i as int, word_modulus());
        }
        acc = acc.wrapping_add(i);
        i = i + 1;
    }
    proof {
        lemma_total_below(n as nat);
    }
    acc
}

/// Builds the input of the summation workload with parameter `n`.
pub fn naturals_below(n: u64) -> (numbers: Vec<u64>)
    requires
        n <= usize::MAX,
    ensures
        numbers@ == below(n as nat),
{
    let mut numbers: Vec<u64> = Vec::new();
    let mut i: u64 = 0;
    while i < n
        invariant
            i <= n,
            numbers@ == below(i as nat),
        decreases n - i,
    {
        numbers.push(i);
        i = i + 1;
    }
    numbers
}

} // verus!

//! The linear-recurrence Fibonacci workload over 64-bit words.

use vstd::prelude::*;
use vstd::arithmetic::div_mod::lemma_add_mod_noop;

verus! {

/// Two to the power 64: the modulus of all word arithmetic in the kernels.
pub open spec fn word_modulus() -> int {
    0x1_0000_0000_0000_0000
}

/// The Fibonacci numbers over the naturals: 0, 1, 1, 2, 3, 5, ...
pub open spec fn fib_nat(n: nat) -> nat
    decreases n,
{
    if n == 0 {
        0
    } else if n == 1 {
        1
    } else {
        fib_nat((n - 1) as nat) + fib_nat((n - 2) as nat)
    }
}

/// The n-th Fibonacci number reduced modulo 2^64.
pub open spec fn fib_word(n: nat) -> int {
    fib_nat(n) as int % word_modulus()
}

/// Wrapping addition of two words is addition modulo 2^64.
pub proof fn lemma_wrapping_add_is_mod(x: u64, y: u64)
    ensures
        x.wrapping_add(y) as int == (x as int + y as int) % word_modulus(),
{
}

/// Iterates the recurrence `n` times with wrapping addition and returns the
/// last two numbers reached: the n-th Fibonacci number and its successor,
/// both reduced modulo 2^64.
pub fn fib_pair(n: u64) -> (r: (u64, u64))
    ensures
        r.0 as int == fib_word(n as nat),
        r.1 as int == fib_word(n as nat + 1),
{
    let mut a: u64 = 0;
    let mut b: u64 = 1;
    let mut i: u64 = 0;
    while i < n
        invariant
            i <= n,
            a as int == fib_word(i as nat),
            b as int == fib_word(i as nat + 1),
        decreases n - i,
    {
        let c: u64 = a.wrapping_add(b);
        proof {
            lemma_wrapping_add_is_mod(a, b);
            lemma_add_mod_noop(
                fib_nat(i as nat) as int,
                fib_nat(i as nat + 1) as int,
                word_modulus(),
            );
        }
        a = b;
        b = c;
        i = i + 1;
    }
    (a, b)
}

/// Computes the n-th Fibonacci number by iterating the recurrence `n` times
/// with wrapping addition, so that overflow reduces the result modulo 2^64.
pub fn fib(n: u64) -> (r: u64)
    ensures
        r as int == fib_word(n as nat),
{
    fib_pair(n).0
}

} // verus!

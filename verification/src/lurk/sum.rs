//! The Lurk program for the summation workload.

use vstd::prelude::*;
use vstd::string::StringExecFns;
use crate::decimal::{decimal, to_decimal};
use crate::text::push_char;

verus! {

/// The program text before the list of numbers.
pub const HEAD: &'static str = "
(letrec ((sum (lambda (l) (if l (+ (car l) (sum (cdr l))) 0))))
  (sum '(";

/// The program text after the list of numbers.
pub const TAIL: &'static str = ")))";

/// The numbers below `n` in decimal, in rising order, with one space between
/// neighbours.
pub open spec fn spaced_below(n: nat) -> Seq<char>
    decreases n,
{
    if n == 0 {
        Seq::empty()
    } else if n == 1 {
        decimal(0)
    } else {
        spaced_below((n - 1) as nat).push(' ') + decimal((n - 1) as nat)
    }
}

/// Writes the numbers below `n` in decimal, separated by single spaces.
pub fn u64s_below(n: u64) -> (list: String)
    ensures
        list@ == spaced_below(n as nat),
{
    let mut list = String::new();
    let mut i: u64 = 0;
    while i < n
        invariant
            i <= n,
            list@ == spaced_below(i as nat),
        decreases n - i,
    {
        if i > 0 {
            push_char(&mut list, ' ');
        }
        list.append(to_decimal(i).as_str());
        i = i + 1;
    }
    list
}

/// Writes the program that defines `sum` over a list and applies it to the
/// list of the numbers below `n`.
pub fn build_lurk_expr(n: u64) -> (code: String)
    ensures
        code@ == HEAD@ + spaced_below(n as nat) + TAIL@,
{
    let input = u64s_below(n);
    let mut code = String::from_str(HEAD);
    code.append(input.as_str());
    code.append(TAIL);
    code
}

} // verus!

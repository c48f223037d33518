//! The Lurk program for the linear-recurrence Fibonacci workload.

use vstd::prelude::*;
use vstd::string::StringExecFns;
use crate::decimal::{decimal, to_decimal};

verus! {

/// The program text before the argument.
pub const HEAD: &'static str = "(letrec ((fib
          (lambda (n)
            (if (<= n 1) n
              (+ (fib (- n 1)) (fib (- (- n 1) 1)))))))
  (fib ";

/// The program text after the argument.
pub const TAIL: &'static str = "))";

/// Writes the program that defines `fib` by its recurrence and applies it to
/// `arg`, written in decimal.
pub fn build_lurk_expr(arg: u64) -> (code: String)
    ensures
        code@ == HEAD@ + decimal(arg as nat) + TAIL@,
{
    let mut code = String::from_str(HEAD);
    code.append(to_decimal(arg).as_str());
    code.append(TAIL);
    code
}

} // verus!

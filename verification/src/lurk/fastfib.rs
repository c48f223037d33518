//! The Lurk program for the fast Fibonacci workload.

use vstd::prelude::*;
use vstd::string::StringExecFns;
use crate::decimal::{decimal, to_decimal};

verus! {

/// The program text before the argument.
pub const HEAD: &'static str = "
(letrec ((matmul (lambda (a b) ;; 2x2 matrix multiplication
                               (cons (cons (+ (* (car (car a)) (car (car b)))
                                              (* (cdr (car a)) (car (cdr b))))
                                           (+ (* (car (car a)) (cdr (car b)))
                                              (* (cdr (car a)) (cdr (cdr b)))))
                                     (cons (+ (* (car (cdr a)) (car (car b)))
                                              (* (cdr (cdr a)) (car (cdr b))))
                                           (+ (* (car (cdr a)) (cdr (car b)))
                                              (* (cdr (cdr a)) (cdr (cdr b))))))))
         (fast-matexp (lambda (b e)
                        (if (= e 0)
                            '((1 . 0) . (0 . 1)) ;; identity matrix
                            (if (= (% e 2) 1) ;; (odd? e)
                                (matmul b (fast-matexp (matmul b b) (/ (- e 1) 2)))
                                (fast-matexp (matmul b b) (/ e 2))))))
         (fib (lambda (n)
                (car (car (fast-matexp '((0 . 1) . (1 . 1)) (+ n 1)))))))
  (fib ";

/// The program text after the argument.
pub const TAIL: &'static str = "))";

/// Writes the program that defines `fib` by powers of the Fibonacci matrix
/// and applies it to `arg`, written in decimal.
pub fn build_lurk_expr(arg: u64) -> (code: String)
    ensures
        code@ == HEAD@ + decimal(arg as nat) + TAIL@,
{
    let mut code = String::from_str(HEAD);
    code.append(to_decimal(arg).as_str());
    code.append(TAIL);
    code
}

} // verus!

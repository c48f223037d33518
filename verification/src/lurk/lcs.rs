//! The Lurk program for the longest common subsequence workload.

use vstd::prelude::*;
use vstd::string::StringExecFns;

verus! {

/// The program text before the first argument.
pub const HEAD: &'static str = r#"
(letrec ((lte (lambda (a b)
                (if (eq a "") t
                    (if (eq b "") nil
                        (lte (cdr a) (cdr b))))))
         (lcs (lambda (a b)
                (if (eq a "") ""
                    (if (eq b "") ""
                        (if (eq (car a) (car b)) (strcons (car a) (lcs (cdr a) (cdr b)))
                            (if (lte (lcs a (cdr b)) (lcs (cdr a) b)) (lcs (cdr a) b)
                                (lcs a (cdr b)))))))))
  (lcs ""#;

/// The program text between the two arguments.
pub const BETWEEN: &'static str = r#"" ""#;

/// The program text after the second argument.
pub const TAIL: &'static str = r#""))"#;

/// Writes the program that defines `lcs` and applies it to the two strings.
/// Each string stands between double quotes as it is: nothing in it is
/// escaped.
pub fn build_lurk_expr(a: &str, b: &str) -> (code: String)
    ensures
        code@ == HEAD@ + a@ + BETWEEN@ + b@ + TAIL@,
{
    let mut code = String::from_str(HEAD);
    code.append(a);
    code.append(BETWEEN);
    code.append(b);
    code.append(TAIL);
    code
}

} // verus!

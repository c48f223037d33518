//! Two-by-two integer matrices: product, powers, and reduction modulo 2^64.

use vstd::prelude::*;
use vstd::arithmetic::div_mod::{lemma_add_mod_noop, lemma_mul_mod_noop_general};
use crate::fib::word_modulus;

verus! {

/// A two-by-two matrix of integers, written row by row:
///
/// ```text
/// | a b |
/// | c d |
/// ```
pub ghost struct Matrix {
    pub a: int,
    pub b: int,
    pub c: int,
    pub d: int,
}

/// The identity matrix.
pub open spec fn identity() -> Matrix {
    Matrix { a: 1, b: 0, c: 0, d: 1 }
}

/// The matrix product `x · y`.
pub open spec fn product(x: Matrix, y: Matrix) -> Matrix {
    Matrix {
        a: x.a * y.a + x.b * y.c,
        b: x.a * y.b + x.b * y.d,
        c: x.c * y.a + x.d * y.c,
        d: x.c * y.b + x.d * y.d,
    }
}

/// The `e`-th power of `x`.
pub open spec fn power(x: Matrix, e: nat) -> Matrix
    decreases e,
{
    if e == 0 {
        identity()
    } else {
        product(x, power(x, (e - 1) as nat))
    }
}

/// The matrix with every entry reduced modulo 2^64.
pub open spec fn reduce(x: Matrix) -> Matrix {
    Matrix {
        a: x.a % word_modulus(),
        b: x.b % word_modulus(),
        c: x.c % word_modulus(),
        d: x.d % word_modulus(),
    }
}

/// The matrix product is associative.
pub proof fn lemma_product_associative(x: Matrix, y: Matrix, z: Matrix)
    ensures
        product(product(x, y), z) == product(x, product(y, z)),
{
    lemma_row_associative(x.a, x.b, y, z);
    lemma_row_associative(x.c, x.d, y, z);
}

/// Associativity for one row `(p q)` of the left factor.
proof fn lemma_row_associative(p: int, q: int, y: Matrix, z: Matrix)
    ensures
        (p * y.a + q * y.c) * z.a + (p * y.b + q * y.d) * z.c == p * (y.a * z.a + y.b * z.c) + q
            * (y.c * z.a + y.d * z.c),
        (p * y.a + q * y.c) * z.b + (p * y.b + q * y.d) * z.d == p * (y.a * z.b + y.b * z.d) + q
            * (y.c * z.b + y.d * z.d),
{
    lemma_regroup(p, q, y.a, y.c, y.b, y.d, z.a, z.c);
    lemma_regroup(p, q, y.a, y.c, y.b, y.d, z.b, z.d);
}

/// `(pa + qc)u + (pb + qd)v = p(au + bv) + q(cu + dv)`.
proof fn lemma_regroup(p: int, q: int, a: int, c: int, b: int, d: int, u: int, v: int)
    ensures
        (p * a + q * c) * u + (p * b + q * d) * v == p * (a * u + b * v) + q * (c * u + d * v),
{
    assert((p * a + q * c) * u == (p * a) * u + (q * c) * u) by (nonlinear_arith);
    assert((p * b + q * d) * v == (p * b) * v + (q * d) * v) by (nonlinear_arith);
    assert(p * (a * u + b * v) == p * (a * u) + p * (b * v)) by (nonlinear_arith);
    assert(q * (c * u + d * v) == q * (c * u) + q * (d * v)) by (nonlinear_arith);
    assert((p * a) * u == p * (a * u)) by (nonlinear_arith);
    assert((q * c) * u == q * (c * u)) by (nonlinear_arith);
    assert((p * b) * v == p * (b * v)) by (nonlinear_arith);
    assert((q * d) * v == q * (d * v)) by (nonlinear_arith);
}

/// The identity matrix is neutral on both sides.
pub proof fn lemma_product_identity(x: Matrix)
    ensures
        product(identity(), x) == x,
        product(x, identity()) == x,
{
}

/// The first power of a matrix is the matrix itself.
pub proof fn lemma_power_one(x: Matrix)
    ensures
        power(x, 1) == x,
{
    assert(power(x, 0) == identity());
    lemma_product_identity(x);
}

/// Powers add up: `x^(e + f) = x^e · x^f`.
pub proof fn lemma_power_add(x: Matrix, e: nat, f: nat)
    ensures
        power(x, e + f) == product(power(x, e), power(x, f)),
    decreases e,
{
    if e == 0 {
        lemma_product_identity(power(x, f));
    } else {
        lemma_power_add(x, (e - 1) as nat, f);
        lemma_product_associative(x, power(x, (e - 1) as nat), power(x, f));
    }
}

/// A matrix commutes with its own powers.
pub proof fn lemma_power_commutes(x: Matrix, e: nat)
    ensures
        product(x, power(x, e)) == product(power(x, e), x),
{
    lemma_power_add(x, e, 1);
    lemma_power_add(x, 1, e);
    lemma_power_one(x);
}

/// The power of a square: `(x · x)^e = x^(2e)`.
pub proof fn lemma_power_of_square(x: Matrix, e: nat)
    ensures
        power(product(x, x), e) == power(x, 2 * e),
    decreases e,
{
    if e != 0 {
        lemma_power_of_square(x, (e - 1) as nat);
        lemma_power_add(x, 2, (2 * (e - 1)) as nat);
        lemma_power_one(x);
    }
}

/// Reducing the factors first does not change the reduced product.
pub proof fn lemma_reduce_product(x: Matrix, y: Matrix)
    ensures
        reduce(product(reduce(x), reduce(y))) == reduce(product(x, y)),
        reduce(product(x, reduce(y))) == reduce(product(x, y)),
        reduce(product(reduce(x), y)) == reduce(product(x, y)),
{
    lemma_dot_mod(x.a, y.a, x.b, y.c);
    lemma_dot_mod(x.a, y.b, x.b, y.d);
    lemma_dot_mod(x.c, y.a, x.d, y.c);
    lemma_dot_mod(x.c, y.b, x.d, y.d);
}

/// Reducing the base first does not change the reduced power.
pub proof fn lemma_reduce_power(x: Matrix, e: nat)
    ensures
        reduce(power(reduce(x), e)) == reduce(power(x, e)),
    decreases e,
{
    if e != 0 {
        lemma_reduce_power(x, (e - 1) as nat);
        let p = power(x, (e - 1) as nat);
        let q = power(reduce(x), (e - 1) as nat);
        lemma_reduce_product(reduce(x), q);
        lemma_reduce_product(reduce(x), p);
        lemma_reduce_product(x, p);
    }
}

/// A sum of two products modulo 2^64 depends only on the factors modulo 2^64.
pub proof fn lemma_dot_mod(x0: int, y0: int, x1: int, y1: int)
    ensures
        ((x0 % word_modulus()) * (y0 % word_modulus()) + (x1 % word_modulus()) * (y1
            % word_modulus())) % word_modulus() == (x0 * y0 + x1 * y1) % word_modulus(),
        (x0 * (y0 % word_modulus()) + x1 * (y1 % word_modulus())) % word_modulus() == (x0 * y0 + x1
            * y1) % word_modulus(),
        ((x0 % word_modulus()) * y0 + (x1 % word_modulus()) * y1) % word_modulus() == (x0 * y0 + x1
            * y1) % word_modulus(),
{
    let m = word_modulus();
    lemma_mul_mod_noop_general(x0, y0, m);
    lemma_mul_mod_noop_general(x1, y1, m);
    lemma_add_mod_noop(x0 * y0, x1 * y1, m);
    lemma_add_mod_noop((x0 % m) * (y0 % m), (x1 % m) * (y1 % m), m);
    lemma_add_mod_noop(x0 * (y0 % m), x1 * (y1 % m), m);
    lemma_add_mod_noop((x0 % m) * y0, (x1 % m) * y1, m);
}

} // verus!

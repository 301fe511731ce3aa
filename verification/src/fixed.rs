//! Fixed-point integer helpers: floor division on `i64`, proved against the
//! Euclidean division of the specification language.

use vstd::prelude::*;
use vstd::arithmetic::div_mod::{
    lemma_div_nonincreasing, lemma_div_pos_is_pos, lemma_fundamental_div_mod,
    lemma_fundamental_div_mod_converse, lemma_mod_bound,
};

verus! {

/// Relates Rust's truncating division and remainder on a negative dividend to
/// Euclidean division and modulo.
pub proof fn lemma_truncating_vs_euclidean(a: int, b: int)
    requires
        a < 0,
        b > 0,
    ensures
        (-a) % b == 0 ==> a / b == -((-a) / b) && a % b == 0,
        (-a) % b != 0 ==> a / b == -((-a) / b) - 1 && a % b == b - ((-a) % b),
{
    let m = -a;
    let q = m / b;
    let r = m % b;
    lemma_fundamental_div_mod(m, b);
    lemma_mod_bound(m, b);
    if r == 0 {
        assert(a == (-q) * b + 0) by (nonlinear_arith)
            requires
                a == -m,
                m == b * q + r,
                r == 0,
        ;
        lemma_fundamental_div_mod_converse(a, b, -q, 0);
    } else {
        assert(a == (-q - 1) * b + (b - r)) by (nonlinear_arith)
            requires
                a == -m,
                m == b * q + r,
        ;
        lemma_fundamental_div_mod_converse(a, b, -q - 1, b - r);
    }
}

/// Floor division of `a` by a positive `b`: rounds toward negative infinity,
/// matching Euclidean division, unlike Rust's truncating `/`.
pub fn floor_div_i64(a: i64, b: i64) -> (q: i64)
    requires
        b > 0,
        a > i64::MIN,
    ensures
        q == a as int / b as int,
{
    let t: i64 = a / b;
    proof {
        if a < 0 {
            lemma_truncating_vs_euclidean(a as int, b as int);
            lemma_div_pos_is_pos(-(a as int), b as int);
            lemma_div_nonincreasing(-(a as int), b as int);
        }
    }
    if a % b != 0 && a < 0 {
        t - 1
    } else {
        t
    }
}

} // verus!

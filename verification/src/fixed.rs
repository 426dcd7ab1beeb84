//! Fixed-point arithmetic helpers shared by the whole library.
//!
//! A quantity of one map cell (or one radian) is `SCALE` units; all
//! positions, distances and angles in the library are `i64` values in
//! these units. The helpers here give the flooring division and the
//! Euclidean remainder that the rest of the library states its
//! contracts with.

use vstd::arithmetic::div_mod::lemma_div_is_ordered;
use vstd::arithmetic::div_mod::lemma_div_is_ordered_by_denominator;
use vstd::arithmetic::div_mod::lemma_div_multiples_vanish;
use vstd::arithmetic::div_mod::lemma_div_pos_is_pos;
use vstd::prelude::*;

verus! {

/// Units per map cell (and per radian, for angles).
pub const SCALE: i64 = 1024;

/// A full turn, 2*pi radians, in angle units (rounded to the nearest unit).
pub const TWO_PI_UNITS: i64 = 6434;

/// Division by a positive divisor rounds toward zero or away from it
/// depending on sign in ordinary Rust; spec-level `/` is Euclidean.
/// This lemma bounds the Euclidean quotient on both sides of zero.
pub proof fn lemma_div_sign_bounds(a: int, b: int)
    requires
        b >= 1,
    ensures
        a >= 0 ==> 0 <= a / b <= a,
        a < 0 ==> a <= a / b <= 0,
{
    if a >= 0 {
        lemma_div_pos_is_pos(a, b);
        lemma_div_is_ordered_by_denominator(a, 1, b);
        assert(a / 1 == a);
    } else {
        lemma_div_is_ordered(a, 0, b);
        assert(0int / b == 0);
        assert(b * a <= a) by (nonlinear_arith)
            requires
                a < 0,
                b >= 1,
        ;
        lemma_div_multiples_vanish(a, b);
        lemma_div_is_ordered(b * a, a, b);
    }
}

/// Flooring division of a fixed-point value by a positive divisor;
/// the result is exactly the spec-level (Euclidean) quotient.
pub fn floor_div(a: i64, b: i64) -> (r: i64)
    requires
        b >= 1,
    ensures
        r == a as int / b as int,
{
    proof {
        lemma_div_sign_bounds(a as int, b as int);
    }
    a.checked_div_euclid(b).unwrap()
}

/// Euclidean remainder of a fixed-point value by a positive modulus;
/// the result is exactly the spec-level `%`, always in `[0, m)`.
pub fn wrap_mod(a: i64, m: i64) -> (r: i64)
    requires
        m >= 1,
    ensures
        r == a as int % m as int,
        0 <= r < m,
{
    a.checked_rem_euclid(m).unwrap()
}

/// Bounds the product of two values bounded in absolute value.
pub proof fn lemma_mul_abs_bound(a: int, b: int, ma: int, mb: int)
    by (nonlinear_arith)
    requires
        -ma <= a <= ma,
        -mb <= b <= mb,
        0 <= ma,
        0 <= mb,
    ensures
        -(ma * mb) <= a * b <= ma * mb,
{
}

} // verus!

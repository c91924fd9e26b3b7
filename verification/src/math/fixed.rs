//! Fixed-point scalar arithmetic for the spatial model.
//!
//! All spatial quantities (coordinates, scales, rotation cosines/sines) are
//! carried as `i64` values in thousandths: the integer `1000` stands for the
//! real number `1.0`. Multiplication of two such quantities therefore divides
//! the raw product by the scale once, truncating toward zero.

use vstd::prelude::*;

verus! {

/// Fixed-point scale: the integer 1000 stands for the real number 1.0.
pub const FIX_ONE: i64 = 1000;

/// Largest magnitude admitted for a position coordinate or translation entry.
pub const COORD_LIMIT: i64 = 1_000_000_000_000;

/// Largest magnitude admitted for a scale factor.
pub const SCALE_LIMIT: i64 = 1_000_000;

/// Largest magnitude admitted for a component velocity coordinate.
pub const VEL_LIMIT: i64 = 1_000_000_000;

/// Largest admitted per-tick time delta.
pub const DELTA_LIMIT: i64 = 1_000_000;

/// Product of two fixed-point quantities, truncated toward zero.
pub open spec fn fix_mul_spec(a: int, b: int) -> int {
    if a * b >= 0 {
        (a * b) / (FIX_ONE as int)
    } else {
        -((-(a * b)) / (FIX_ONE as int))
    }
}

/// A product of bounded factors is bounded by the product of the bounds.
pub proof fn lemma_mul_le(a: int, b: int, ca: int, cb: int)
    by (nonlinear_arith)
    requires
        -ca <= a <= ca,
        -cb <= b <= cb,
        0 <= ca,
        0 <= cb,
    ensures
        -(ca * cb) <= a * b <= ca * cb,
{
}

/// The truncated product never exceeds the raw product bound divided by the
/// scale: from |a| <= ca and |b| <= cb follows |a * b / FIX_ONE| <= ca * cb / FIX_ONE.
pub proof fn lemma_fix_mul_bound(a: int, b: int, ca: int, cb: int)
    by (nonlinear_arith)
    requires
        -ca <= a <= ca,
        -cb <= b <= cb,
        0 <= ca,
        0 <= cb,
    ensures
        -(ca * cb / (FIX_ONE as int)) <= fix_mul_spec(a, b) <= ca * cb / (FIX_ONE as int),
{
}

/// A coordinate confined to the world volume: values beyond the coordinate
/// limit saturate at the limit.
pub open spec fn clamp_coord_spec(x: int) -> int {
    if x > COORD_LIMIT as int {
        COORD_LIMIT as int
    } else if x < -(COORD_LIMIT as int) {
        -(COORD_LIMIT as int)
    } else {
        x
    }
}

/// Confines a coordinate to the world volume by saturating at the limit.
pub fn clamp_coord(x: i64) -> (r: i64)
    ensures
        r == clamp_coord_spec(x as int),
        -COORD_LIMIT <= r <= COORD_LIMIT,
{
    if x > COORD_LIMIT {
        COORD_LIMIT
    } else if x < -COORD_LIMIT {
        -COORD_LIMIT
    } else {
        x
    }
}

/// Fixed-point multiplication: `a` and `b` in thousandths give `a * b / 1000`,
/// truncated toward zero.
pub fn fix_mul(a: i64, b: i64) -> (r: i64)
    requires
        -0x7fff_ffff_ffff_ffff <= a * b <= 0x7fff_ffff_ffff_ffff,
    ensures
        r == fix_mul_spec(a as int, b as int),
{
    let p: i64 = a * b;
    if p >= 0 {
        p / FIX_ONE
    } else {
        -(-p / FIX_ONE)
    }
}

} // verus!

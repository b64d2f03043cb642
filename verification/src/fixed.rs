//! Saturating fixed-point arithmetic over `i64` micro-units.
//!
//! One simulation unit equals `SCALE` micro-units. Products are rescaled by
//! `SCALE` (rounding toward zero) and every result is clamped into
//! `[-FIX_MAX, FIX_MAX]`, so each operation is total: no input can make it
//! overflow or panic. Divergence of a chaotic trajectory shows up as
//! saturation at the range bounds instead of a floating-point infinity.

use vstd::prelude::*;

verus! {

/// Micro-units per simulation unit.
pub const SCALE: i64 = 1_000_000;

/// Saturation bound of every fixed-point operation, in micro-units.
pub const FIX_MAX: i64 = 1_000_000_000_000_000_000;

/// Clamp an unbounded integer into the representable fixed-point range.
pub open spec fn sat(v: int) -> int {
    if v > FIX_MAX as int {
        FIX_MAX as int
    } else if v < -(FIX_MAX as int) {
        -(FIX_MAX as int)
    } else {
        v
    }
}

/// Division by `SCALE`, rounding toward zero.
pub open spec fn div_scale(v: int) -> int {
    if v >= 0 {
        v / (SCALE as int)
    } else {
        -((-v) / (SCALE as int))
    }
}

/// Fixed-point product: rescale by `SCALE`, then saturate.
pub open spec fn fix_mul(a: int, b: int) -> int {
    sat(div_scale(a * b))
}

/// Saturating sum.
pub open spec fn fix_add(a: int, b: int) -> int {
    sat(a + b)
}

/// Saturating difference.
pub open spec fn fix_sub(a: int, b: int) -> int {
    sat(a - b)
}

/// Saturating negation.
pub open spec fn fix_neg(a: int) -> int {
    sat(-a)
}

/// Division by 3, rounding toward zero.
pub open spec fn fix_div3(v: int) -> int {
    if v >= 0 {
        v / 3
    } else {
        -((-v) / 3)
    }
}

/// Clamp a wide intermediate into the fixed-point range.
fn clamp_wide(v: i128) -> (r: i64)
    ensures
        r as int == sat(v as int),
{
    if v > FIX_MAX as i128 {
        FIX_MAX
    } else if v < -(FIX_MAX as i128) {
        -FIX_MAX
    } else {
        v as i64
    }
}

/// Saturating fixed-point addition.
pub fn add_fix(a: i64, b: i64) -> (r: i64)
    ensures
        r as int == fix_add(a as int, b as int),
{
    clamp_wide(a as i128 + b as i128)
}

/// Saturating fixed-point subtraction.
pub fn sub_fix(a: i64, b: i64) -> (r: i64)
    ensures
        r as int == fix_sub(a as int, b as int),
{
    clamp_wide(a as i128 - b as i128)
}

/// Saturating fixed-point negation.
pub fn neg_fix(a: i64) -> (r: i64)
    ensures
        r as int == fix_neg(a as int),
{
    clamp_wide(-(a as i128))
}

/// Saturating fixed-point multiplication with rescaling by `SCALE`.
pub fn mul_fix(a: i64, b: i64) -> (r: i64)
    ensures
        r as int == fix_mul(a as int, b as int),
{
    proof {
        assert((a as int) * (b as int) <= 0x8000_0000_0000_0000 * 0x8000_0000_0000_0000
            && -(0x8000_0000_0000_0000 * 0x8000_0000_0000_0000) <= (a as int) * (b as int))
            by (nonlinear_arith)
            requires
                -0x8000_0000_0000_0000 <= a as int <= 0x7FFF_FFFF_FFFF_FFFF,
                -0x8000_0000_0000_0000 <= b as int <= 0x7FFF_FFFF_FFFF_FFFF,
        ;
    }
    let p: i128 = (a as i128) * (b as i128);
    let mag: u128 = if p >= 0 {
        p as u128
    } else {
        (-p) as u128
    };
    let q: u128 = mag / (SCALE as u128);
    let small: i64 = if q > FIX_MAX as u128 {
        FIX_MAX
    } else {
        q as i64
    };
    if p >= 0 {
        small
    } else {
        -small
    }
}

/// Fixed-point division by 3, rounding toward zero.
pub fn div3_fix(v: i64) -> (r: i64)
    ensures
        r as int == fix_div3(v as int),
{
    let w: i128 = v as i128;
    let mag: u128 = if w >= 0 {
        w as u128
    } else {
        (-w) as u128
    };
    let q: u128 = mag / 3;
    let small: i64 = q as i64;
    if w >= 0 {
        small
    } else {
        -small
    }
}

} // verus!

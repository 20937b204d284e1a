//! Exact fixed-point arithmetic in units of 1/65536 pixel.
//!
//! Glyph advances arrive from the font loader in 16.16 fixed point and
//! kerning in 26.6 fixed point; the engine keeps every pen position and
//! transform entry in the 16.16 scale and rounds toward zero, so layout is
//! exact and reproducible.

use vstd::prelude::*;

verus! {

/// Number of fixed-point units in one pixel.
pub const FP_ONE: i64 = 65536;

/// One 1/64-pixel kerning unit expressed in 1/65536-pixel units.
pub const KERN_UNIT: i64 = 1024;

/// Quotient of `x` by 65536 rounded toward zero: the engine's fixed-point
/// division.
pub open spec fn fp_div_trunc(x: int) -> int {
    if x >= 0 {
        x / (FP_ONE as int)
    } else {
        -((-x) / (FP_ONE as int))
    }
}

/// The fixed-point product of `a` and `b`: `a * b / 65536`, rounded toward
/// zero.
pub open spec fn fp_mul_spec(a: int, b: int) -> int {
    fp_div_trunc(a * b)
}

/// Number of whole pixels needed to cover the fixed-point length `x`: the
/// ceiling of `x / 65536`.
pub open spec fn ceil_px_spec(x: int) -> int {
    if x >= 0 {
        (x + (FP_ONE - 1) as int) / (FP_ONE as int)
    } else {
        -((-x) / (FP_ONE as int))
    }
}

/// The larger of two mathematical integers.
pub open spec fn max_int(a: int, b: int) -> int {
    if a > b {
        a
    } else {
        b
    }
}

proof fn lemma_abs_mul_bound(a: int, b: int, ba: int, bb: int)
    requires
        -ba <= a <= ba,
        -bb <= b <= bb,
        0 <= ba,
        0 <= bb,
    ensures
        -(ba * bb) <= a * b <= ba * bb,
{
    assert(-(ba * bb) <= a * b <= ba * bb) by (nonlinear_arith)
        requires
            -ba <= a <= ba,
            -bb <= b <= bb,
            0 <= ba,
            0 <= bb,
    ;
}

proof fn lemma_div_bound(x: int, bound: int)
    requires
        0 <= x <= bound,
    ensures
        0 <= x / (FP_ONE as int) <= bound / (FP_ONE as int),
{
    vstd::arithmetic::div_mod::lemma_div_is_ordered(x, bound, FP_ONE as int);
    vstd::arithmetic::div_mod::lemma_div_pos_is_pos(x, FP_ONE as int);
}

/// Sandwiches the pixel ceiling between the fixed-point value and one
/// pixel above it: the bound every layout step needs.
pub proof fn lemma_ceil_px_mul_bound(x: int)
    ensures
        x <= ceil_px_spec(x) * (FP_ONE as int),
        ceil_px_spec(x) * (FP_ONE as int) <= x + (FP_ONE - 1) as int,
{
    let d = FP_ONE as int;
    if x >= 0 {
        vstd::arithmetic::div_mod::lemma_fundamental_div_mod(x + d - 1, d);
        vstd::arithmetic::div_mod::lemma_mod_bound(x + d - 1, d);
    } else {
        vstd::arithmetic::div_mod::lemma_fundamental_div_mod(-x, d);
        vstd::arithmetic::div_mod::lemma_mod_bound(-x, d);
    }
}

/// A longer fixed-point length never needs fewer whole pixels.
pub proof fn lemma_ceil_px_monotonic(x: int, y: int)
    requires
        x <= y,
    ensures
        ceil_px_spec(x) <= ceil_px_spec(y),
{
    lemma_ceil_px_mul_bound(x);
    lemma_ceil_px_mul_bound(y);
}

/// Fixed-point multiplication.  The first factor is a transform entry,
/// the second any engine coordinate.
pub fn fp_mul(a: i64, b: i64) -> (r: i64)
    requires
        -0x1_0000_0000 <= a <= 0x1_0000_0000,
        -0x4000_0000_0000 <= b <= 0x4000_0000_0000,
    ensures
        r == fp_mul_spec(a as int, b as int),
        -0x4000_0000_0000_0000 <= r <= 0x4000_0000_0000_0000,
{
    proof {
        lemma_abs_mul_bound(a as int, b as int, 0x1_0000_0000, 0x4000_0000_0000);
    }
    let p: i128 = (a as i128) * (b as i128);
    if p >= 0 {
        proof {
            lemma_div_bound(p as int, 0x1_0000_0000int * 0x4000_0000_0000int);
        }
        ((p as u128) / 65536) as i64
    } else {
        proof {
            lemma_div_bound(-p as int, 0x1_0000_0000int * 0x4000_0000_0000int);
        }
        -((((-p) as u128) / 65536) as i64)
    }
}

/// Quotient of `x` by `d` rounded toward zero, for a nonzero divisor of
/// either sign.
pub open spec fn div_to_zero_spec(x: int, d: int) -> int {
    if x >= 0 && d > 0 {
        x / d
    } else if x < 0 && d < 0 {
        (-x) / (-d)
    } else if x < 0 {
        -((-x) / d)
    } else {
        -(x / (-d))
    }
}

/// Truncating division of engine quantities, as the projection builder
/// uses it.
pub fn div_to_zero(x: i64, d: i64) -> (r: i64)
    requires
        d != 0,
        -0x4000_0000_0000_0000 <= x <= 0x4000_0000_0000_0000,
        -0x4000_0000_0000_0000 <= d <= 0x4000_0000_0000_0000,
    ensures
        r == div_to_zero_spec(x as int, d as int),
        -0x4000_0000_0000_0000 <= r <= 0x4000_0000_0000_0000,
{
    let xm: u64 = if x >= 0 {
        x as u64
    } else {
        (-x) as u64
    };
    let dm: u64 = if d >= 0 {
        d as u64
    } else {
        (-d) as u64
    };
    let q: u64 = xm / dm;
    proof {
        vstd::arithmetic::div_mod::lemma_div_basics(xm as int);
        vstd::arithmetic::div_mod::lemma_div_is_ordered_by_denominator(xm as int, 1, dm as int);
        vstd::arithmetic::div_mod::lemma_div_pos_is_pos(xm as int, dm as int);
    }
    if (x >= 0) == (d >= 0) {
        q as i64
    } else {
        -(q as i64)
    }
}

/// Whole pixels needed to cover the fixed-point length `x`, rounding up.
pub fn ceil_px(x: i64) -> (r: i64)
    requires
        -0x1000_0000_0000_0000 <= x <= 0x1000_0000_0000_0000,
    ensures
        r == ceil_px_spec(x as int),
        -0x1000_0000_0000 <= r <= 0x1000_0000_0000,
{
    if x >= 0 {
        proof {
            lemma_div_bound(x + (FP_ONE - 1) as int, 0x1000_0000_0000_FFFF);
        }
        (((x + 65535) as u64) / 65536) as i64
    } else {
        proof {
            lemma_div_bound(-x as int, 0x1000_0000_0000_0000);
        }
        -((((-x) as u64) / 65536) as i64)
    }
}

/// The larger of two machine integers, as the layout loop computes it.
pub fn max_i64(a: i64, b: i64) -> (r: i64)
    ensures
        r == max_int(a as int, b as int),
{
    if a > b {
        a
    } else {
        b
    }
}

} // verus!

//! Planar affine transforms in 1/65536 fixed point.
//!
//! The engine's transforms are all planar: translations, non-uniform
//! scales, rotations about the screen normal, and orthographic
//! projections.  A transform maps a column point `(x, y)` to
//! `(a*x + b*y + tx, c*x + d*y + ty)` with every product rounded toward
//! zero at the 1/65536 scale.  The widget model transform is composed as
//! translate(position) * scale * rotate * translate(anchor), in exactly
//! that order; reordering any step changes what appears on screen.
//!
//! The engine never evaluates trigonometry: a rotation is carried as the
//! fixed-point cosine and sine supplied by the driver, and the identity
//! rotation is `(65536, 0)`.

use vstd::prelude::*;
use crate::fixed::{FP_ONE, div_to_zero, div_to_zero_spec, fp_mul, fp_mul_spec};

verus! {

/// A planar affine transform: linear part `a b / c d` and translation
/// `(tx, ty)`, all in 1/65536 units.
#[derive(Clone, Copy, PartialEq, Eq, Structural, Debug)]
pub struct Affine2 {
    pub a: i64,
    pub b: i64,
    pub c: i64,
    pub d: i64,
    pub tx: i64,
    pub ty: i64,
}

/// Bounds under which the transform pipeline stays within the
/// fixed-point range: the linear part of a model transform never exceeds
/// 8192 in pixel terms and its translation stays under 2^45.
pub open spec fn model_bounded(m: Affine2) -> bool {
    &&& -0x2000_0000 <= m.a <= 0x2000_0000
    &&& -0x2000_0000 <= m.b <= 0x2000_0000
    &&& -0x2000_0000 <= m.c <= 0x2000_0000
    &&& -0x2000_0000 <= m.d <= 0x2000_0000
    &&& -0x4000_0000_0000 <= m.tx <= 0x4000_0000_0000
    &&& -0x4000_0000_0000 <= m.ty <= 0x4000_0000_0000
}

/// Bounds every orthographic projection satisfies: its linear entries
/// stay within two pixels' worth of scale per unit and its translation
/// within the projected range.
pub open spec fn projection_bounded(m: Affine2) -> bool {
    &&& -0x20000 <= m.a <= 0x20000
    &&& -0x20000 <= m.b <= 0x20000
    &&& -0x20000 <= m.c <= 0x20000
    &&& -0x20000 <= m.d <= 0x20000
    &&& -0x10_0000_0000 <= m.tx <= 0x10_0000_0000
    &&& -0x10_0000_0000 <= m.ty <= 0x10_0000_0000
}

/// What applying a transform to a point means: each coordinate is the
/// fixed-point linear combination plus the translation.
pub open spec fn apply_spec(m: Affine2, x: int, y: int) -> (int, int) {
    (
        fp_mul_spec(m.a as int, x) + fp_mul_spec(m.b as int, y) + m.tx,
        fp_mul_spec(m.c as int, x) + fp_mul_spec(m.d as int, y) + m.ty,
    )
}

/// The product `m1 * m2`: apply `m2` first, then `m1`.
pub open spec fn mult_spec(m1: Affine2, m2: Affine2) -> Affine2 {
    Affine2 {
        a: (fp_mul_spec(m1.a as int, m2.a as int) + fp_mul_spec(m1.b as int, m2.c as int)) as i64,
        b: (fp_mul_spec(m1.a as int, m2.b as int) + fp_mul_spec(m1.b as int, m2.d as int)) as i64,
        c: (fp_mul_spec(m1.c as int, m2.a as int) + fp_mul_spec(m1.d as int, m2.c as int)) as i64,
        d: (fp_mul_spec(m1.c as int, m2.b as int) + fp_mul_spec(m1.d as int, m2.d as int)) as i64,
        tx: (fp_mul_spec(m1.a as int, m2.tx as int) + fp_mul_spec(m1.b as int, m2.ty as int)
            + m1.tx) as i64,
        ty: (fp_mul_spec(m1.c as int, m2.tx as int) + fp_mul_spec(m1.d as int, m2.ty as int)
            + m1.ty) as i64,
    }
}

/// The widget model transform
/// translate(position) * scale * rotate * translate(anchor), written
/// out entry by entry: the linear part is scale times rotation, and the
/// translation is the position plus that linear part applied to the
/// anchor.
pub open spec fn model_spec(
    pos_x: int,
    pos_y: int,
    scale_x: int,
    scale_y: int,
    rot_cos: int,
    rot_sin: int,
    anchor_x: int,
    anchor_y: int,
) -> Affine2 {
    let la = fp_mul_spec(scale_x, rot_cos);
    let lb = -fp_mul_spec(scale_x, rot_sin);
    let lc = fp_mul_spec(scale_y, rot_sin);
    let ld = fp_mul_spec(scale_y, rot_cos);
    Affine2 {
        a: la as i64,
        b: lb as i64,
        c: lc as i64,
        d: ld as i64,
        tx: (pos_x * (FP_ONE as int) + fp_mul_spec(la, anchor_x) + fp_mul_spec(lb,
            anchor_y)) as i64,
        ty: (pos_y * (FP_ONE as int) + fp_mul_spec(lc, anchor_x) + fp_mul_spec(ld,
            anchor_y)) as i64,
    }
}

/// The orthographic projection mapping the origin-anchored pixel box
/// `[0, right] x [bottom, top]` onto the unit square of normalized
/// device coordinates, with `bottom` mapping to the lower edge.
pub open spec fn ortho_spec(right: int, bottom: int, top: int) -> Affine2 {
    Affine2 {
        a: div_to_zero_spec(2 * (FP_ONE as int), right) as i64,
        b: 0,
        c: 0,
        d: div_to_zero_spec(2 * (FP_ONE as int), top - bottom) as i64,
        tx: (-(FP_ONE as int)) as i64,
        ty: (-(FP_ONE as int) - div_to_zero_spec(
            2 * (FP_ONE as int) * bottom,
            top - bottom,
        )) as i64,
    }
}

impl Affine2 {
    /// The identity transform.
    pub fn identity() -> (r: Affine2)
        ensures
            r == (Affine2 { a: FP_ONE, b: 0, c: 0, d: FP_ONE, tx: 0, ty: 0 }),
    {
        Affine2 { a: FP_ONE, b: 0, c: 0, d: FP_ONE, tx: 0, ty: 0 }
    }

    /// A pure translation by `(x, y)` fixed-point pixels.
    pub fn translation(x: i64, y: i64) -> (r: Affine2)
        ensures
            r == (Affine2 { a: FP_ONE, b: 0, c: 0, d: FP_ONE, tx: x, ty: y }),
    {
        Affine2 { a: FP_ONE, b: 0, c: 0, d: FP_ONE, tx: x, ty: y }
    }

    /// The orthographic projection for an origin-anchored pixel box:
    /// `right` at the right edge, `bottom` and `top` at the horizontal
    /// edges, all in whole pixels.  The caller picks screen orientation
    /// (`bottom` = height, `top` = 0) or texture orientation
    /// (`bottom` = 0, `top` = height).
    pub fn ortho(right: i64, bottom: i64, top: i64) -> (r: Affine2)
        requires
            1 <= right <= 0x10000,
            bottom != top,
            0 <= bottom <= 0x10000,
            0 <= top <= 0x10000,
        ensures
            r == ortho_spec(right as int, bottom as int, top as int),
            projection_bounded(r),
    {
        let a = div_to_zero(2 * FP_ONE, right);
        let d = div_to_zero(2 * FP_ONE, top - bottom);
        let ty_shift = div_to_zero(2 * FP_ONE * bottom, top - bottom);
        proof {
            vstd::arithmetic::div_mod::lemma_div_basics(2 * (FP_ONE as int));
            vstd::arithmetic::div_mod::lemma_div_basics(2 * (FP_ONE as int) * (bottom as int));
            vstd::arithmetic::div_mod::lemma_div_is_ordered_by_denominator(2 * (FP_ONE as int), 1, right as int);
            if top > bottom {
                vstd::arithmetic::div_mod::lemma_div_is_ordered_by_denominator(2 * (FP_ONE as int), 1, (top - bottom) as int);
                vstd::arithmetic::div_mod::lemma_div_is_ordered_by_denominator(2 * (FP_ONE as int) * bottom, 1, (top - bottom) as int);
            } else {
                vstd::arithmetic::div_mod::lemma_div_is_ordered_by_denominator(2 * (FP_ONE as int), 1, (bottom - top) as int);
                vstd::arithmetic::div_mod::lemma_div_is_ordered_by_denominator(2 * (FP_ONE as int) * bottom, 1, (bottom - top) as int);
            }
        }
        Affine2 { a, b: 0, c: 0, d, tx: -FP_ONE, ty: -FP_ONE - ty_shift }
    }

    /// The widget model transform, composed as
    /// translate(position) * scale * rotate * translate(anchor).
    /// Positions are whole pixels; scale, rotation and anchor are fixed
    /// point.
    pub fn model(
        pos_x: i32,
        pos_y: i32,
        scale_x: i64,
        scale_y: i64,
        rot_cos: i64,
        rot_sin: i64,
        anchor_x: i64,
        anchor_y: i64,
    ) -> (r: Affine2)
        requires
            -0x10_0000 <= pos_x <= 0x10_0000,
            -0x10_0000 <= pos_y <= 0x10_0000,
            -0x800_0000 <= scale_x <= 0x800_0000,
            -0x800_0000 <= scale_y <= 0x800_0000,
            -0x1_0000 <= rot_cos <= 0x1_0000,
            -0x1_0000 <= rot_sin <= 0x1_0000,
            -0x8000_0000 <= anchor_x <= 0x8000_0000,
            -0x8000_0000 <= anchor_y <= 0x8000_0000,
        ensures
            r == model_spec(
                pos_x as int,
                pos_y as int,
                scale_x as int,
                scale_y as int,
                rot_cos as int,
                rot_sin as int,
                anchor_x as int,
                anchor_y as int,
            ),
            model_bounded(r),
    {
        let la = fp_mul(scale_x, rot_cos);
        let lb = -fp_mul(scale_x, rot_sin);
        let lc = fp_mul(scale_y, rot_sin);
        let ld = fp_mul(scale_y, rot_cos);
        proof {
            lemma_fp_mul_tight(scale_x as int, rot_cos as int, 0x800_0000, 0x1_0000);
            lemma_fp_mul_tight(scale_x as int, rot_sin as int, 0x800_0000, 0x1_0000);
            lemma_fp_mul_tight(scale_y as int, rot_sin as int, 0x800_0000, 0x1_0000);
            lemma_fp_mul_tight(scale_y as int, rot_cos as int, 0x800_0000, 0x1_0000);
            lemma_fp_mul_tight(la as int, anchor_x as int, 0x1000_0000, 0x8000_0000);
            lemma_fp_mul_tight(lb as int, anchor_y as int, 0x1000_0000, 0x8000_0000);
            lemma_fp_mul_tight(lc as int, anchor_x as int, 0x1000_0000, 0x8000_0000);
            lemma_fp_mul_tight(ld as int, anchor_y as int, 0x1000_0000, 0x8000_0000);
        }
        let tx = (pos_x as i64) * FP_ONE + fp_mul(la, anchor_x) + fp_mul(lb, anchor_y);
        let ty = (pos_y as i64) * FP_ONE + fp_mul(lc, anchor_x) + fp_mul(ld, anchor_y);
        Affine2 { a: la, b: lb, c: lc, d: ld, tx, ty }
    }

    /// The product `self * other`: `other` is applied first.  The left
    /// factor is a projection; the right factor a model transform.
    pub fn mult(&self, other: &Affine2) -> (r: Affine2)
        requires
            projection_bounded(*self),
            model_bounded(*other),
        ensures
            r == mult_spec(*self, *other),
    {
        proof {
            lemma_fp_mul_tight(self.a as int, other.a as int, 0x20000, 0x2000_0000);
            lemma_fp_mul_tight(self.a as int, other.b as int, 0x20000, 0x2000_0000);
            lemma_fp_mul_tight(self.b as int, other.c as int, 0x20000, 0x2000_0000);
            lemma_fp_mul_tight(self.b as int, other.d as int, 0x20000, 0x2000_0000);
            lemma_fp_mul_tight(self.c as int, other.a as int, 0x20000, 0x2000_0000);
            lemma_fp_mul_tight(self.c as int, other.b as int, 0x20000, 0x2000_0000);
            lemma_fp_mul_tight(self.d as int, other.c as int, 0x20000, 0x2000_0000);
            lemma_fp_mul_tight(self.d as int, other.d as int, 0x20000, 0x2000_0000);
            lemma_fp_mul_tight(self.a as int, other.tx as int, 0x20000, 0x4000_0000_0000);
            lemma_fp_mul_tight(self.b as int, other.ty as int, 0x20000, 0x4000_0000_0000);
            lemma_fp_mul_tight(self.c as int, other.tx as int, 0x20000, 0x4000_0000_0000);
            lemma_fp_mul_tight(self.d as int, other.ty as int, 0x20000, 0x4000_0000_0000);
        }
        Affine2 {
            a: fp_mul(self.a, other.a) + fp_mul(self.b, other.c),
            b: fp_mul(self.a, other.b) + fp_mul(self.b, other.d),
            c: fp_mul(self.c, other.a) + fp_mul(self.d, other.c),
            d: fp_mul(self.c, other.b) + fp_mul(self.d, other.d),
            tx: fp_mul(self.a, other.tx) + fp_mul(self.b, other.ty) + self.tx,
            ty: fp_mul(self.c, other.tx) + fp_mul(self.d, other.ty) + self.ty,
        }
    }

    /// Applies the transform to a fixed-point point.
    pub fn apply(&self, x: i64, y: i64) -> (r: (i64, i64))
        requires
            -0x1_0000_0000 <= self.a <= 0x1_0000_0000,
            -0x1_0000_0000 <= self.b <= 0x1_0000_0000,
            -0x1_0000_0000 <= self.c <= 0x1_0000_0000,
            -0x1_0000_0000 <= self.d <= 0x1_0000_0000,
            -0x1_0000_0000_0000 <= self.tx <= 0x1_0000_0000_0000,
            -0x1_0000_0000_0000 <= self.ty <= 0x1_0000_0000_0000,
            -0x10_0000_0000 <= x <= 0x10_0000_0000,
            -0x10_0000_0000 <= y <= 0x10_0000_0000,
        ensures
            (r.0 as int, r.1 as int) == apply_spec(*self, x as int, y as int),
    {
        proof {
            lemma_fp_mul_tight(self.a as int, x as int, 0x1_0000_0000, 0x10_0000_0000);
            lemma_fp_mul_tight(self.b as int, y as int, 0x1_0000_0000, 0x10_0000_0000);
            lemma_fp_mul_tight(self.c as int, x as int, 0x1_0000_0000, 0x10_0000_0000);
            lemma_fp_mul_tight(self.d as int, y as int, 0x1_0000_0000, 0x10_0000_0000);
        }
        (fp_mul(self.a, x) + fp_mul(self.b, y) + self.tx, fp_mul(self.c, x) + fp_mul(self.d, y)
            + self.ty)
    }
}

/// The fixed-point product of values within `ba` and `bb` stays within
/// `ba * bb / 65536`.
pub proof fn lemma_fp_mul_tight(a: int, b: int, ba: int, bb: int)
    requires
        -ba <= a <= ba,
        -bb <= b <= bb,
        0 <= ba,
        0 <= bb,
    ensures
        -(ba * bb) / (FP_ONE as int) - 1 <= fp_mul_spec(a, b) <= ba * bb / (FP_ONE as int) + 1,
{
    assert(-(ba * bb) <= a * b <= ba * bb) by (nonlinear_arith)
        requires
            -ba <= a <= ba,
            -bb <= b <= bb,
            0 <= ba,
            0 <= bb,
    ;
    if a * b >= 0 {
        vstd::arithmetic::div_mod::lemma_div_is_ordered(a * b, ba * bb, FP_ONE as int);
        vstd::arithmetic::div_mod::lemma_div_pos_is_pos(a * b, FP_ONE as int);
        if ba * bb > 0 {
            vstd::arithmetic::div_mod::lemma_div_pos_is_pos(ba * bb, FP_ONE as int);
        }
    } else {
        vstd::arithmetic::div_mod::lemma_div_is_ordered(-(a * b), ba * bb, FP_ONE as int);
        vstd::arithmetic::div_mod::lemma_div_pos_is_pos(-(a * b), FP_ONE as int);
        if ba * bb > 0 {
            vstd::arithmetic::div_mod::lemma_div_pos_is_pos(ba * bb, FP_ONE as int);
        }
    }
}

proof fn lemma_fp_mul_whole(k: int, v: int)
    ensures
        fp_mul_spec(k * (FP_ONE as int), v) == k * v,
{
    let d = FP_ONE as int;
    assert((k * d) * v == d * (k * v)) by (nonlinear_arith);
    if k * v >= 0 {
        vstd::arithmetic::div_mod::lemma_div_multiples_vanish(k * v, d);
    } else {
        assert(-(d * (k * v)) == d * (-(k * v))) by (nonlinear_arith);
        vstd::arithmetic::div_mod::lemma_div_multiples_vanish(-(k * v), d);
    }
}

/// The transform-order law: with the identity rotation and whole-number
/// scale factors, the model transform moves a point by exactly
/// position + scale * (point + anchor) -- the anchor translation is
/// applied first (so it is scaled), the position translation last (so
/// it is not).  In particular the origin lands on
/// position + scale * anchor.
pub proof fn lemma_transform_order(
    pos_x: int,
    pos_y: int,
    kx: int,
    ky: int,
    anchor_x: int,
    anchor_y: int,
    x: int,
    y: int,
)
    requires
        -0x800 <= kx <= 0x800,
        -0x800 <= ky <= 0x800,
        -0x10_0000 <= pos_x <= 0x10_0000,
        -0x10_0000 <= pos_y <= 0x10_0000,
        -0x8000_0000 <= anchor_x <= 0x8000_0000,
        -0x8000_0000 <= anchor_y <= 0x8000_0000,
        -0x10_0000_0000 <= x <= 0x10_0000_0000,
        -0x10_0000_0000 <= y <= 0x10_0000_0000,
    ensures
        apply_spec(
            model_spec(
                pos_x,
                pos_y,
                kx * (FP_ONE as int),
                ky * (FP_ONE as int),
                FP_ONE as int,
                0,
                anchor_x,
                anchor_y,
            ),
            x,
            y,
        ) == (
            pos_x * (FP_ONE as int) + kx * (x + anchor_x),
            pos_y * (FP_ONE as int) + ky * (y + anchor_y),
        ),
{
    let d = FP_ONE as int;
    lemma_fp_mul_whole(kx, d);
    lemma_fp_mul_whole(ky, d);
    lemma_fp_mul_whole(kx, 0);
    lemma_fp_mul_whole(ky, 0);
    lemma_fp_mul_whole(kx, anchor_x);
    lemma_fp_mul_whole(ky, anchor_y);
    lemma_fp_mul_whole(0, anchor_y);
    lemma_fp_mul_whole(0, anchor_x);
    lemma_fp_mul_whole(kx, x);
    lemma_fp_mul_whole(ky, y);
    lemma_fp_mul_whole(0, y);
    lemma_fp_mul_whole(0, x);
    assert(-0x4_0000_0000_0000 <= kx * anchor_x <= 0x4_0000_0000_0000) by (nonlinear_arith)
        requires
            -0x800 <= kx <= 0x800,
            -0x8000_0000 <= anchor_x <= 0x8000_0000,
    ;
    assert(-0x4_0000_0000_0000 <= ky * anchor_y <= 0x4_0000_0000_0000) by (nonlinear_arith)
        requires
            -0x800 <= ky <= 0x800,
            -0x8000_0000 <= anchor_y <= 0x8000_0000,
    ;
    let m = model_spec(pos_x, pos_y, kx * d, ky * d, d, 0, anchor_x, anchor_y);
    assert(m.a == kx * d && m.d == ky * d && m.b == 0 && m.c == 0);
    assert(m.tx == pos_x * d + kx * anchor_x);
    assert(m.ty == pos_y * d + ky * anchor_y);
    assert(kx * (x + anchor_x) == kx * x + kx * anchor_x) by (nonlinear_arith);
    assert(ky * (y + anchor_y) == ky * y + ky * anchor_y) by (nonlinear_arith);
}

} // verus!

//! The two-pass text layout algorithm.
//!
//! Pass one walks the glyph sequence with a pen starting at the origin,
//! applies the kerning adjustment once before the first glyph, tracks the
//! largest extents above and below the baseline and the right edge of the
//! last glyph, and yields the bounding box.  Pass two places each glyph at
//! `(pen_x + left, above - top)` inside that box.  Both passes are exact
//! functions of the glyph metrics and the kerning value, so laying the
//! same text out twice gives bit-identical results.

use vstd::prelude::*;
use crate::fixed::{
    FP_ONE,
    KERN_UNIT,
    ceil_px,
    ceil_px_spec,
    max_i64,
    max_int,
};
use crate::glyph::GlyphMetrics;

verus! {

/// The measuring pen: position, the extents seen so far (all in
/// 1/65536-pixel units) and the right edge of the last glyph in whole
/// pixels.
pub ghost struct PenState {
    pub pen_x: int,
    pub pen_y: int,
    pub above: int,
    pub below: int,
    pub width_px: int,
}

/// The pen before the first glyph: at the origin, shifted right by the
/// kerning between the no-previous-glyph sentinel and the first glyph
/// (`kern_x` is in 1/64-pixel units), with empty extents.
pub open spec fn pen_start(kern_x: int) -> PenState {
    PenState {
        pen_x: kern_x * (KERN_UNIT as int),
        pen_y: 0,
        above: 0,
        below: 0,
        width_px: 0,
    }
}

/// One measuring step: the extent above the baseline is `pen_y + top`,
/// the extent below is the bitmap height minus that; each running extent
/// is the maximum seen so far, the right edge is the pixel ceiling of
/// `pen_x + left + width`, and the pen advances by the glyph's advance.
pub open spec fn pen_step(s: PenState, g: GlyphMetrics) -> PenState {
    let this_above = s.pen_y + g.top * (FP_ONE as int);
    let this_below = g.rows * (FP_ONE as int) - this_above;
    PenState {
        pen_x: s.pen_x + g.advance_x,
        pen_y: s.pen_y + g.advance_y,
        above: max_int(s.above, this_above),
        below: max_int(s.below, this_below),
        width_px: ceil_px_spec(s.pen_x + (g.left + g.width) * (FP_ONE as int)),
    }
}

/// The pen after measuring all of `gs` starting from `s`.
pub open spec fn pen_after(s: PenState, gs: Seq<GlyphMetrics>) -> PenState
    decreases gs.len(),
{
    if gs.len() == 0 {
        s
    } else {
        pen_after(pen_step(s, gs[0]), gs.skip(1))
    }
}

/// The pen after measuring a whole glyph sequence with first-pair
/// kerning `kern_x`; an empty sequence never fetches kerning and leaves
/// the pen at the origin.
pub open spec fn measure_spec(gs: Seq<GlyphMetrics>, kern_x: int) -> PenState {
    if gs.len() == 0 {
        pen_start(0)
    } else {
        pen_after(pen_start(kern_x), gs)
    }
}

/// The bounding width in whole pixels: the right edge of the last glyph,
/// clamped to zero.
pub open spec fn bounding_width_spec(gs: Seq<GlyphMetrics>, kern_x: int) -> int {
    max_int(measure_spec(gs, kern_x).width_px, 0)
}

/// The bounding height in whole pixels: the pixel ceiling of the largest
/// extent above the baseline plus the largest extent below it.
pub open spec fn bounding_height_spec(gs: Seq<GlyphMetrics>, kern_x: int) -> int {
    let s = measure_spec(gs, kern_x);
    ceil_px_spec(s.above + s.below)
}

/// Every glyph of the sequence is within the engine's metric range.
pub open spec fn all_wf(gs: Seq<GlyphMetrics>) -> bool {
    forall|i: int| 0 <= i < gs.len() ==> (#[trigger] gs[i]).wf()
}

/// A kerning value within the engine's range: at most one pixel of
/// adjustment per 1/64 unit up to 1024 pixels either way.
pub open spec fn kern_in_range(kern_x: int) -> bool {
    -0x10000 <= kern_x <= 0x10000
}

/// Glyph sequences the engine lays out: a bounded length, so that every
/// pen position stays within the fixed-point range.
pub open spec fn layout_len_ok(gs: Seq<GlyphMetrics>) -> bool {
    gs.len() <= 0x1000
}

/// Bounds every intermediate pen state satisfies: each component grows
/// by at most one advance (or one bitmap extent) per glyph.
pub open spec fn pen_bounded(s: PenState, steps: int) -> bool {
    &&& -0x4_0000_0000 - steps * 0x1_0000_0000 <= s.pen_x <= 0x4_0000_0000 + steps
        * 0x1_0000_0000
    &&& -steps * 0x1_0000_0000 <= s.pen_y <= steps * 0x1_0000_0000
    &&& 0 <= s.above <= steps * 0x2_0000_0000
    &&& 0 <= s.below <= steps * 0x2_0000_0000
    &&& -0x1000_0000_0000 <= s.width_px <= 0x1000_0000_0000
}

proof fn lemma_pen_after_snoc(s: PenState, gs: Seq<GlyphMetrics>, g: GlyphMetrics)
    ensures
        pen_after(s, gs.push(g)) == pen_step(pen_after(s, gs), g),
    decreases gs.len(),
{
    if gs.len() == 0 {
        assert(gs.push(g).skip(1) =~= Seq::<GlyphMetrics>::empty());
        assert(gs.push(g)[0] == g);
        assert(pen_after(s, gs.push(g)) == pen_after(pen_step(s, g), gs.push(g).skip(1)));
        assert(pen_after(pen_step(s, g), Seq::<GlyphMetrics>::empty()) == pen_step(s, g));
        assert(pen_after(s, gs) == s);
    } else {
        assert(gs.push(g)[0] == gs[0]);
        assert(gs.push(g).skip(1) =~= gs.skip(1).push(g));
        assert(pen_after(s, gs.push(g)) == pen_after(pen_step(s, gs[0]), gs.skip(1).push(g)));
        lemma_pen_after_snoc(pen_step(s, gs[0]), gs.skip(1), g);
        assert(pen_after(s, gs) == pen_after(pen_step(s, gs[0]), gs.skip(1)));
    }
}

proof fn lemma_pen_step_bounded(s: PenState, g: GlyphMetrics, steps: int)
    requires
        pen_bounded(s, steps),
        g.wf(),
        0 <= steps < 0x4000,
    ensures
        pen_bounded(pen_step(s, g), steps + 1),
{
    let t = pen_step(s, g);
    assert(-0x1_0000_0000 <= g.top * (FP_ONE as int) <= 0x1_0000_0000) by (nonlinear_arith)
        requires -0x10000 <= g.top <= 0x10000;
    assert(0 <= g.rows * (FP_ONE as int) <= 0x1_0000_0000) by (nonlinear_arith)
        requires 0 <= g.rows <= 0x10000;
    assert(-0x2_0000_0000 <= (g.left + g.width) * (FP_ONE as int) <= 0x2_0000_0000)
        by (nonlinear_arith)
        requires -0x10000 <= g.left <= 0x10000, 0 <= g.width <= 0x10000;
    crate::fixed::lemma_ceil_px_mul_bound(s.pen_x + (g.left + g.width) * (FP_ONE as int));
    assert(t.width_px == ceil_px_spec(s.pen_x + (g.left + g.width) * (FP_ONE as int)));
}

proof fn lemma_pen_after_bounded(s: PenState, gs: Seq<GlyphMetrics>, steps: int)
    requires
        pen_bounded(s, steps),
        all_wf(gs),
        0 <= steps,
        steps + gs.len() <= 0x4000,
    ensures
        pen_bounded(pen_after(s, gs), steps + gs.len()),
    decreases gs.len(),
{
    if gs.len() > 0 {
        lemma_pen_step_bounded(s, gs[0], steps);
        assert(all_wf(gs.skip(1))) by {
            assert(forall|j: int|
                0 <= j < gs.skip(1).len() ==> gs.skip(1)[j] == gs[j + 1] && (#[trigger] gs.skip(
                    1,
                )[j]).wf());
        }
        lemma_pen_after_bounded(pen_step(s, gs[0]), gs.skip(1), steps + 1);
    }
}

/// The measured layout of a glyph run, in exact fixed point: the largest
/// extents above and below the baseline and the bounding box in whole
/// pixels.
pub struct LayoutMetrics {
    /// Largest extent above the baseline, 1/65536 pixel.
    pub above: i64,
    /// Largest extent below the baseline, 1/65536 pixel.
    pub below: i64,
    /// Bounding width in whole pixels, clamped to zero.
    pub width_px: i64,
    /// Bounding height in whole pixels.
    pub height_px: i64,
}

/// Pass one: measure a glyph run.  The result is exactly the
/// mathematical pen walk, so it is a function of the metrics and the
/// kerning value alone.
pub fn measure_text(glyphs: &Vec<GlyphMetrics>, kern_x: i64) -> (r: LayoutMetrics)
    requires
        all_wf(glyphs@),
        layout_len_ok(glyphs@),
        kern_in_range(kern_x as int),
    ensures
        r.above == measure_spec(glyphs@, kern_x as int).above,
        r.below == measure_spec(glyphs@, kern_x as int).below,
        r.width_px == bounding_width_spec(glyphs@, kern_x as int),
        r.height_px == bounding_height_spec(glyphs@, kern_x as int),
        0 <= r.width_px <= 0x1000_0000_0000,
        0 <= r.height_px <= 0x1000_0000_0000,
{
    let n = glyphs.len();
    if n == 0 {
        return LayoutMetrics { above: 0, below: 0, width_px: 0, height_px: 0 };
    }
    let mut pen_x: i64 = kern_x * KERN_UNIT;
    let mut pen_y: i64 = 0;
    let mut above: i64 = 0;
    let mut below: i64 = 0;
    let mut width_px: i64 = 0;
    let mut i: usize = 0;
    proof {
        assert(glyphs@.take(0) =~= Seq::<GlyphMetrics>::empty());
    }
    while i < n
        invariant
            all_wf(glyphs@),
            n == glyphs@.len(),
            n <= 0x1000,
            0 <= i <= n,
            pen_bounded(pen_after(pen_start(kern_x as int), glyphs@.take(i as int)), i as int),
            pen_x == pen_after(pen_start(kern_x as int), glyphs@.take(i as int)).pen_x,
            pen_y == pen_after(pen_start(kern_x as int), glyphs@.take(i as int)).pen_y,
            above == pen_after(pen_start(kern_x as int), glyphs@.take(i as int)).above,
            below == pen_after(pen_start(kern_x as int), glyphs@.take(i as int)).below,
            width_px == pen_after(pen_start(kern_x as int), glyphs@.take(i as int)).width_px,
            kern_in_range(kern_x as int),
        decreases n - i,
    {
        let ghost pre = pen_after(pen_start(kern_x as int), glyphs@.take(i as int));
        let g = glyphs[i];
        proof {
            assert(glyphs@.take(i as int + 1) =~= glyphs@.take(i as int).push(glyphs@[i as int]));
            lemma_pen_after_snoc(pen_start(kern_x as int), glyphs@.take(i as int), glyphs@[i as int]);
            lemma_pen_step_bounded(pre, glyphs@[i as int], i as int);
            assert(i as int + 1 <= 0x1000);
        }
        let this_above: i64 = pen_y + (g.top as i64) * FP_ONE;
        let this_below: i64 = (g.rows as i64) * FP_ONE - this_above;
        let right: i64 = ceil_px(pen_x + ((g.left as i64) + (g.width as i64)) * FP_ONE);
        above = max_i64(above, this_above);
        below = max_i64(below, this_below);
        width_px = right;
        pen_x = pen_x + g.advance_x;
        pen_y = pen_y + g.advance_y;
        i = i + 1;
    }
    proof {
        assert(glyphs@.take(n as int) =~= glyphs@);
    }
    let height_px: i64 = ceil_px(above + below);
    let clamped_width: i64 = if width_px > 0 {
        width_px
    } else {
        0
    };
    LayoutMetrics { above, below, width_px: clamped_width, height_px }
}

proof fn lemma_pen_x_independent(s1: PenState, s2: PenState, gs: Seq<GlyphMetrics>)
    ensures
        pen_after(s1, gs).pen_x - s1.pen_x == pen_after(s2, gs).pen_x - s2.pen_x,
    decreases gs.len(),
{
    if gs.len() > 0 {
        lemma_pen_x_independent(pen_step(s1, gs[0]), pen_step(s2, gs[0]), gs.skip(1));
    }
}

/// The kerning adjustment is applied exactly once per layout pass,
/// before the first glyph, never between later glyph pairs: every pen
/// position of the pass is the unkerned position shifted by exactly the
/// one kerning adjustment, whatever prefix of the run has been laid out.
pub proof fn lemma_kerning_applied_once(gs: Seq<GlyphMetrics>, kern_x: int, i: int)
    requires
        0 <= i <= gs.len(),
    ensures
        pen_after(pen_start(kern_x), gs.take(i)).pen_x == pen_after(pen_start(0), gs.take(i)).pen_x
            + kern_x * (KERN_UNIT as int),
{
    lemma_pen_x_independent(pen_start(kern_x), pen_start(0), gs.take(i));
}

/// Appending a glyph to a non-empty run never decreases the bounding
/// width, provided the run's last glyph has an advance that covers its
/// own ink (`advance_x` at least `left + width` pixels) and the appended
/// glyph's ink does not end left of its pen position.  Without those two
/// conditions the width can shrink: a last glyph with zero advance
/// followed by a narrower one moves the right edge leftward.
pub proof fn lemma_bounding_width_monotonic(gs: Seq<GlyphMetrics>, g: GlyphMetrics, kern_x: int)
    requires
        gs.len() > 0,
        gs[gs.len() - 1].advance_x >= (gs[gs.len() - 1].left + gs[gs.len() - 1].width) * (
        FP_ONE as int),
        g.left + g.width >= 0,
    ensures
        bounding_width_spec(gs.push(g), kern_x) >= bounding_width_spec(gs, kern_x),
{
    let s0 = pen_start(kern_x);
    let last = gs[gs.len() - 1];
    let prefix = gs.take(gs.len() - 1);
    assert(prefix.push(last) =~= gs);
    lemma_pen_after_snoc(s0, prefix, last);
    lemma_pen_after_snoc(s0, gs, g);
    let before_last = pen_after(s0, prefix);
    let at_end = pen_after(s0, gs);
    assert(at_end == pen_step(before_last, last));
    assert(at_end.width_px == ceil_px_spec(
        before_last.pen_x + (last.left + last.width) * (FP_ONE as int),
    ));
    assert(pen_after(s0, gs.push(g)).width_px == ceil_px_spec(
        at_end.pen_x + (g.left + g.width) * (FP_ONE as int),
    ));
    crate::fixed::lemma_ceil_px_monotonic(
        before_last.pen_x + (last.left + last.width) * (FP_ONE as int),
        at_end.pen_x + (g.left + g.width) * (FP_ONE as int),
    );
}

/// Where pass two places one glyph inside the bounding box: the pen
/// position plus the bitmap's left offset, and the shared baseline
/// offset minus the bitmap's top offset, both in 1/65536 pixel.
#[derive(Clone, Copy, PartialEq, Eq, Structural, Debug)]
pub struct Placement {
    pub left: i64,
    pub top: i64,
}

/// The placement of glyph `i`: computed from the pen state just before
/// that glyph and the run's largest extent above the baseline.
pub open spec fn placement_spec(gs: Seq<GlyphMetrics>, kern_x: int, i: int) -> Placement {
    let pen = pen_after(pen_start(kern_x), gs.take(i));
    let above = measure_spec(gs, kern_x).above;
    Placement {
        left: (pen.pen_x + gs[i].left * (FP_ONE as int)) as i64,
        top: (above - gs[i].top * (FP_ONE as int)) as i64,
    }
}

/// Pass two's pen walk: the placements of every glyph of the run.
pub fn place_text(glyphs: &Vec<GlyphMetrics>, kern_x: i64, above: i64) -> (r: Vec<Placement>)
    requires
        all_wf(glyphs@),
        layout_len_ok(glyphs@),
        kern_in_range(kern_x as int),
        above == measure_spec(glyphs@, kern_x as int).above,
    ensures
        r@.len() == glyphs@.len(),
        forall|i: int|
            0 <= i < glyphs@.len() ==> r@[i] == placement_spec(glyphs@, kern_x as int, i)
                && -0x4000_0000_0000 <= (#[trigger] r@[i]).left <= 0x4000_0000_0000
                && -0x4000_0000_0000 <= r@[i].top <= 0x4000_0000_0000,
{
    let n = glyphs.len();
    let mut out: Vec<Placement> = Vec::new();
    if n == 0 {
        return out;
    }
    let mut pen_x: i64 = kern_x * KERN_UNIT;
    let mut pen_y: i64 = 0;
    let mut i: usize = 0;
    proof {
        assert(glyphs@.take(0) =~= Seq::<GlyphMetrics>::empty());
        assert(pen_bounded(pen_after(pen_start(kern_x as int), glyphs@.take(0)), 0));
        lemma_pen_after_bounded(pen_start(kern_x as int), glyphs@, 0);
    }
    while i < n
        invariant
            all_wf(glyphs@),
            n == glyphs@.len(),
            n <= 0x1000,
            0 <= i <= n,
            out@.len() == i,
            pen_bounded(pen_after(pen_start(kern_x as int), glyphs@.take(i as int)), i as int),
            pen_x == pen_after(pen_start(kern_x as int), glyphs@.take(i as int)).pen_x,
            pen_y == pen_after(pen_start(kern_x as int), glyphs@.take(i as int)).pen_y,
            forall|j: int|
                0 <= j < i ==> out@[j] == placement_spec(glyphs@, kern_x as int, j)
                    && -0x4000_0000_0000 <= (#[trigger] out@[j]).left <= 0x4000_0000_0000
                    && -0x4000_0000_0000 <= out@[j].top <= 0x4000_0000_0000,
            kern_in_range(kern_x as int),
            above == measure_spec(glyphs@, kern_x as int).above,
            0 <= above <= 0x2000_0000_0000,
        decreases n - i,
    {
        let ghost pre = pen_after(pen_start(kern_x as int), glyphs@.take(i as int));
        let g = glyphs[i];
        proof {
            assert(glyphs@.take(i as int + 1) =~= glyphs@.take(i as int).push(glyphs@[i as int]));
            lemma_pen_after_snoc(pen_start(kern_x as int), glyphs@.take(i as int), glyphs@[i as int]);
            lemma_pen_step_bounded(pre, glyphs@[i as int], i as int);
            assert(-0x1_0000_0000 <= glyphs@[i as int].left * (FP_ONE as int) <= 0x1_0000_0000)
                by (nonlinear_arith)
                requires -0x10000 <= glyphs@[i as int].left <= 0x10000;
            assert(-0x1_0000_0000 <= glyphs@[i as int].top * (FP_ONE as int) <= 0x1_0000_0000)
                by (nonlinear_arith)
                requires -0x10000 <= glyphs@[i as int].top <= 0x10000;
        }
        let left: i64 = pen_x + (g.left as i64) * FP_ONE;
        let top: i64 = above - (g.top as i64) * FP_ONE;
        out.push(Placement { left, top });
        pen_x = pen_x + g.advance_x;
        pen_y = pen_y + g.advance_y;
        i = i + 1;
    }
    out
}

} // verus!

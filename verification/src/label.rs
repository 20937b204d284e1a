//! Labels: drawable text items.
//!
//! A label owns its text, color, size and rendered destination texture.
//! `set_text` and `set_color` are pure state mutations; `update` re-runs
//! the two-pass layout, sizes a fresh destination texture to the
//! computed bounding box and records the glyph composition draw calls;
//! `draw` binds the rendered texture through the tinted shader path with
//! source-alpha blending.

use vstd::prelude::*;
use crate::fixed::FP_ONE;
use crate::glyph::{CacheKey, GlyphCache, GlyphMetrics};
use crate::layout::{
    Placement,
    all_wf,
    bounding_height_spec,
    bounding_width_spec,
    kern_in_range,
    measure_text,
    place_text,
    placement_spec,
};
use crate::render::{BlendMode, ColorFp, DrawCmd, Frame, ProgramKind, TexRef, TextureInfo};
use crate::renderer::TextRenderer;
use crate::transform::{Affine2, mult_spec, ortho_spec};
use crate::widget::Drawable;

verus! {

/// Opaque black: the forced source color of the grayscale composition
/// path.
pub open spec fn black_spec() -> ColorFp {
    ColorFp { red: 0, green: 0, blue: 0, alpha: 0x1_0000 }
}

/// A drawable text item.
pub struct Label {
    /// Index of the face in the renderer's registry.
    pub face_index: usize,
    /// Character size in whole points.
    pub size: i64,
    /// The text, one code point per glyph; no shaping.
    pub text: Vec<char>,
    /// Tint color used when drawing on screen.
    pub color: ColorFp,
    /// The destination texture of the last `update`.
    pub texture: TextureInfo,
    /// Quad geometry of the destination texture, in pixels.
    pub quad: (u32, u32),
    /// The recorded glyph composition: the draw calls that render the
    /// text into the destination texture.
    pub composition: Vec<DrawCmd>,
}

/// The cache key of character `i` of the label's text.
pub open spec fn key_at(l: Label, i: int) -> CacheKey {
    CacheKey { face_index: l.face_index, size: l.size, ch: l.text@[i] }
}

/// Every character of the label's text is cached.
pub open spec fn glyphs_cached(l: Label, c: GlyphCache) -> bool {
    forall|i: int| 0 <= i < l.text@.len() ==> c.contains(#[trigger] key_at(l, i))
}

/// The metrics of the label's glyphs, in text order.
pub open spec fn glyph_seq(l: Label, c: GlyphCache) -> Seq<GlyphMetrics> {
    Seq::new(l.text@.len(), |i: int| c.entry_for(key_at(l, i)).metrics)
}

/// The texture handles of the label's glyphs, in text order.
pub open spec fn glyph_textures(l: Label, c: GlyphCache) -> Seq<u64> {
    Seq::new(l.text@.len(), |i: int| c.entry_for(key_at(l, i)).texture)
}

/// The draw call that composites glyph `i` into the destination
/// texture: the glyph's texture, placed by a pure translation under the
/// texture-space projection, through the grayscale path with straight
/// replacement.
pub open spec fn glyph_cmd_spec(
    gs: Seq<GlyphMetrics>,
    texs: Seq<u64>,
    kern_x: int,
    w: int,
    h: int,
    i: int,
) -> DrawCmd {
    let p = placement_spec(gs, kern_x, i);
    DrawCmd {
        program: ProgramKind::Gray,
        texture: TexRef::Glyph(texs[i]),
        matrix: mult_spec(
            ortho_spec(w, 0, h),
            Affine2 { a: FP_ONE, b: 0, c: 0, d: FP_ONE, tx: p.left, ty: p.top },
        ),
        color: black_spec(),
        blend: BlendMode::Replace,
        quad_width: gs[i].width,
        quad_height: gs[i].rows,
    }
}

/// The whole composition pass: one draw call per glyph, or none at all
/// into a degenerate (zero-sized) destination texture.
pub open spec fn composition_spec(
    gs: Seq<GlyphMetrics>,
    texs: Seq<u64>,
    kern_x: int,
    w: int,
    h: int,
) -> Seq<DrawCmd> {
    if w <= 0 || h <= 0 {
        Seq::empty()
    } else {
        Seq::new(gs.len(), |i: int| glyph_cmd_spec(gs, texs, kern_x, w, h, i))
    }
}

impl Label {
    /// Replaces the text.  Pure state mutation: nothing is re-rendered
    /// until `update` is called.
    pub fn set_text(&mut self, text: Vec<char>)
        ensures
            final(self).text == text,
            final(self).face_index == old(self).face_index,
            final(self).size == old(self).size,
            final(self).color == old(self).color,
            final(self).texture == old(self).texture,
            final(self).quad == old(self).quad,
            final(self).composition == old(self).composition,
    {
        self.text = text;
    }

    /// Replaces the tint color.  Pure state mutation.
    pub fn set_color(&mut self, red: u32, green: u32, blue: u32, alpha: u32)
        requires
            red <= 0x1_0000,
            green <= 0x1_0000,
            blue <= 0x1_0000,
            alpha <= 0x1_0000,
        ensures
            final(self).color == (ColorFp { red, green, blue, alpha }),
            final(self).text == old(self).text,
            final(self).face_index == old(self).face_index,
            final(self).size == old(self).size,
            final(self).texture == old(self).texture,
            final(self).quad == old(self).quad,
            final(self).composition == old(self).composition,
    {
        self.color = ColorFp { red, green, blue, alpha };
    }

    /// Re-runs the two-pass layout over the cached glyphs of the text:
    /// measures the bounding box, allocates a fresh destination texture
    /// of exactly those dimensions with matching quad geometry, and
    /// records the per-glyph composition draw calls.  The glyph cache
    /// itself is read, never changed.  `kern_x` is the kerning between
    /// the no-previous-glyph sentinel and the first glyph, in 1/64
    /// pixel, as the font loader reports it.
    pub fn update(&mut self, renderer: &mut TextRenderer, kern_x: i64)
        requires
            old(renderer).wf(),
            old(self).text@.len() <= 0x1000,
            kern_in_range(kern_x as int),
            glyphs_cached(*old(self), old(renderer).cache),
            bounding_width_spec(glyph_seq(*old(self), old(renderer).cache), kern_x as int)
                <= 0x10000,
            bounding_height_spec(glyph_seq(*old(self), old(renderer).cache), kern_x as int)
                <= 0x10000,
            old(renderer).targets() < 0xFFFF_FFFF_FFFF_FFFF,
        ensures
            final(renderer).wf(),
            final(renderer).cache == old(renderer).cache,
            final(renderer).faces() == old(renderer).faces(),
            final(renderer).targets() == old(renderer).targets() + 1,
            final(self).text == old(self).text,
            final(self).face_index == old(self).face_index,
            final(self).size == old(self).size,
            final(self).color == old(self).color,
            final(self).texture.id == old(renderer).targets() as u64,
            final(self).texture.width as int == bounding_width_spec(
                glyph_seq(*old(self), old(renderer).cache),
                kern_x as int,
            ),
            final(self).texture.height as int == bounding_height_spec(
                glyph_seq(*old(self), old(renderer).cache),
                kern_x as int,
            ),
            final(self).quad == (final(self).texture.width, final(self).texture.height),
            final(self).composition@ == composition_spec(
                glyph_seq(*old(self), old(renderer).cache),
                glyph_textures(*old(self), old(renderer).cache),
                kern_x as int,
                final(self).texture.width as int,
                final(self).texture.height as int,
            ),
    {
        let ghost gs = glyph_seq(*old(self), old(renderer).cache);
        let ghost texs = glyph_textures(*old(self), old(renderer).cache);
        let n = self.text.len();

        // Gather the cached metrics and texture handles, in text order.
        let mut metrics: Vec<GlyphMetrics> = Vec::new();
        let mut textures: Vec<u64> = Vec::new();
        let mut i: usize = 0;
        while i < n
            invariant
                renderer.wf(),
                *renderer == *old(renderer),
                *self == *old(self),
                n == self.text@.len(),
                n <= 0x1000,
                0 <= i <= n,
                glyphs_cached(*self, renderer.cache),
                gs == glyph_seq(*old(self), old(renderer).cache),
                texs == glyph_textures(*old(self), old(renderer).cache),
                metrics@.len() == i,
                textures@.len() == i,
                forall|j: int| 0 <= j < i ==> metrics@[j] == gs[j] && metrics@[j].wf(),
                forall|j: int| 0 <= j < i ==> textures@[j] == texs[j],
            decreases n - i,
        {
            let ch = self.text[i];
            let key = CacheKey { face_index: self.face_index, size: self.size, ch };
            proof {
                assert(key == key_at(*self, i as int));
                assert(renderer.cache.contains(key_at(*self, i as int)));
            }
            match renderer.cache.lookup(key) {
                Some(idx) => {
                    let entry = renderer.cache.entry_at(idx);
                    let m = entry.metrics;
                    let t = entry.texture;
                    proof {
                        let k = renderer.cache.index_of(key);
                        assert(renderer.cache.entries_view()[k].1.metrics.wf());
                        assert(m == gs[i as int]);
                        assert(t == texs[i as int]);
                    }
                    metrics.push(m);
                    textures.push(t);
                },
                None => {
                    proof {
                        assert(false);
                    }
                    metrics.push(
                        GlyphMetrics {
                            left: 0,
                            top: 0,
                            width: 0,
                            rows: 0,
                            advance_x: 0,
                            advance_y: 0,
                        },
                    );
                    textures.push(0);
                },
            }
            i = i + 1;
        }
        proof {
            assert(metrics@ =~= gs);
            assert(textures@ =~= texs);
        }

        // Pass one: measure.
        let lm = measure_text(&metrics, kern_x);
        let width: u32 = lm.width_px as u32;
        let height: u32 = lm.height_px as u32;

        // The destination texture and its quad geometry.
        let target = renderer.alloc_target();
        self.texture = TextureInfo { id: target, width, height };
        self.quad = (width, height);

        // Pass two: place every glyph and record its composition draw
        // call into the fresh texture.
        let mut cmds: Vec<DrawCmd> = Vec::new();
        if width > 0 && height > 0 {
            let placements = place_text(&metrics, kern_x, lm.above);
            let projection = Affine2::ortho(width as i64, 0, height as i64);
            let mut j: usize = 0;
            while j < n
                invariant
                    n == metrics@.len(),
                    n == placements@.len(),
                    n == textures@.len(),
                    n <= 0x1000,
                    0 <= j <= n,
                    metrics@ == gs,
                    textures@ == texs,
                    all_wf(gs),
                    kern_in_range(kern_x as int),
                    1 <= width <= 0x10000,
                    1 <= height <= 0x10000,
                    projection == ortho_spec(width as int, 0, height as int),
                    crate::transform::projection_bounded(projection),
                    forall|k: int|
                        0 <= k < n ==> placements@[k] == placement_spec(gs, kern_x as int, k)
                            && -0x4000_0000_0000 <= (#[trigger] placements@[k]).left
                            <= 0x4000_0000_0000 && -0x4000_0000_0000 <= placements@[k].top
                            <= 0x4000_0000_0000,
                    cmds@.len() == j,
                    forall|k: int|
                        0 <= k < j ==> cmds@[k] == glyph_cmd_spec(
                            gs,
                            texs,
                            kern_x as int,
                            width as int,
                            height as int,
                            k,
                        ),
                decreases n - j,
            {
                let p = placements[j];
                let model = Affine2::translation(p.left, p.top);
                let mvp = projection.mult(&model);
                cmds.push(
                    DrawCmd {
                        program: ProgramKind::Gray,
                        texture: TexRef::Glyph(textures[j]),
                        matrix: mvp,
                        color: ColorFp { red: 0, green: 0, blue: 0, alpha: 0x1_0000 },
                        blend: BlendMode::Replace,
                        quad_width: metrics[j].width,
                        quad_height: metrics[j].rows,
                    },
                );
                j = j + 1;
            }
        }
        proof {
            assert(cmds@ =~= composition_spec(gs, texs, kern_x as int, width as int, height as int));
        }
        self.composition = cmds;
    }
}

impl Drawable for Label {
    /// One tinted, alpha-blended draw call binding the label's rendered
    /// texture and quad.
    open spec fn cmds_spec(&self, matrix: Affine2) -> Seq<DrawCmd> {
        seq![
            DrawCmd {
                program: ProgramKind::Tinted,
                texture: TexRef::Target(self.texture.id),
                matrix,
                color: self.color,
                blend: BlendMode::Alpha,
                quad_width: self.quad.0,
                quad_height: self.quad.1,
            },
        ]
    }

    /// Labels are anchored at their top-left corner.
    open spec fn anchor_spec(&self) -> (i64, i64) {
        (0, 0)
    }

    fn anchor_pos(&self) -> (r: (i64, i64)) {
        (0, 0)
    }

    fn draw(&self, frame: &mut Frame, matrix: &Affine2) {
        let cmd = DrawCmd {
            program: ProgramKind::Tinted,
            texture: TexRef::Target(self.texture.id),
            matrix: *matrix,
            color: self.color,
            blend: BlendMode::Alpha,
            quad_width: self.quad.0,
            quad_height: self.quad.1,
        };
        frame.cmds.push(cmd);
        proof {
            assert(frame.cmds@ =~= old(frame).cmds@ + self.cmds_spec(*matrix));
        }
    }
}

/// Layout is deterministic: two labels with the same text, face and
/// size, laid out against the same cache with the same kerning, get
/// bit-identical bounding dimensions and glyph placements.
pub proof fn lemma_layout_deterministic(l1: Label, l2: Label, c: GlyphCache, kern_x: int)
    requires
        l1.text@ == l2.text@,
        l1.face_index == l2.face_index,
        l1.size == l2.size,
    ensures
        glyph_seq(l1, c) == glyph_seq(l2, c),
        bounding_width_spec(glyph_seq(l1, c), kern_x) == bounding_width_spec(
            glyph_seq(l2, c),
            kern_x,
        ),
        bounding_height_spec(glyph_seq(l1, c), kern_x) == bounding_height_spec(
            glyph_seq(l2, c),
            kern_x,
        ),
        forall|i: int|
            0 <= i < l1.text@.len() ==> placement_spec(glyph_seq(l1, c), kern_x, i)
                == placement_spec(glyph_seq(l2, c), kern_x, i),
{
    assert(glyph_seq(l1, c) =~= glyph_seq(l2, c));
}

} // verus!

//! The rendering protocol: what the engine asks the GPU to do.
//!
//! The engine never touches the GPU itself; it produces draw commands
//! over plain values -- a shader path, a texture handle, a transform, a
//! color and a blend mode -- and the unverified driver replays them
//! against the real backend.  Colors are fixed point with 65536 as full
//! intensity.

use vstd::prelude::*;
use crate::transform::Affine2;

verus! {

/// A color with fixed-point channels: 65536 is full intensity.
#[derive(Clone, Copy, PartialEq, Eq, Structural, Debug)]
pub struct ColorFp {
    pub red: u32,
    pub green: u32,
    pub blue: u32,
    pub alpha: u32,
}

impl ColorFp {
    /// All channels within the unit range.
    pub open spec fn wf(self) -> bool {
        &&& self.red <= 0x1_0000
        &&& self.green <= 0x1_0000
        &&& self.blue <= 0x1_0000
        &&& self.alpha <= 0x1_0000
    }
}

/// The two shader paths: `Gray` forces opaque black and takes alpha
/// from the glyph texture (used when compositing glyphs into a label's
/// texture); `Tinted` multiplies the label color's alpha with the
/// texture's (used for on-screen drawing).
#[derive(Clone, Copy, PartialEq, Eq, Structural, Debug)]
pub enum ProgramKind {
    Gray,
    Tinted,
}

/// Blend state of a draw call: source-alpha blending on screen,
/// straight replacement when rendering glyphs into a label texture.
#[derive(Clone, Copy, PartialEq, Eq, Structural, Debug)]
pub enum BlendMode {
    Alpha,
    Replace,
}

/// A texture handle: glyph textures live in the glyph cache's handle
/// space, label target textures in the renderer's.
#[derive(Clone, Copy, PartialEq, Eq, Structural, Debug)]
pub enum TexRef {
    Glyph(u64),
    Target(u64),
}

/// One draw call: a quad of the given pixel size, transformed by
/// `matrix`, sampling `texture` through the `program` path with `color`
/// and `blend`.
#[derive(Clone, Copy, PartialEq, Eq, Structural, Debug)]
pub struct DrawCmd {
    pub program: ProgramKind,
    pub texture: TexRef,
    pub matrix: Affine2,
    pub color: ColorFp,
    pub blend: BlendMode,
    pub quad_width: u32,
    pub quad_height: u32,
}

/// A label's destination texture: its handle and pixel dimensions.
#[derive(Clone, Copy, PartialEq, Eq, Structural, Debug)]
pub struct TextureInfo {
    pub id: u64,
    pub width: u32,
    pub height: u32,
}

/// One frame: the clear color and the draw calls, in order.
pub struct Frame {
    pub clear_color: ColorFp,
    pub cmds: Vec<DrawCmd>,
}

/// What the tinted fragment path computes for one fragment: the label
/// color's channels, with alpha scaled by the texture's coverage byte
/// (255 is full coverage).
pub open spec fn tinted_fragment_spec(color: ColorFp, coverage: u8) -> ColorFp {
    ColorFp {
        red: color.red,
        green: color.green,
        blue: color.blue,
        alpha: ((color.alpha * coverage) / 255) as u32,
    }
}

/// The tinted shader path, fragment by fragment: the output color is
/// exactly the label color wherever coverage is full, keeps the label's
/// red, green and blue everywhere, and is fully transparent where the
/// glyph texture is.
pub fn tinted_fragment(color: &ColorFp, coverage: u8) -> (r: ColorFp)
    requires
        color.wf(),
    ensures
        r == tinted_fragment_spec(*color, coverage),
        r.red == color.red && r.green == color.green && r.blue == color.blue,
        coverage == 255 ==> r.alpha == color.alpha,
        coverage == 0 ==> r.alpha == 0,
        r.wf(),
{
    proof {
        assert(color.alpha * coverage <= 0x1_0000 * 255) by (nonlinear_arith)
            requires
                color.alpha <= 0x1_0000,
                coverage <= 255,
        ;
    }
    let scaled: u64 = (color.alpha as u64) * (coverage as u64);
    let alpha: u32 = (scaled / 255) as u32;
    proof {
        vstd::arithmetic::div_mod::lemma_div_is_ordered(
            scaled as int,
            0x1_0000int * 255,
            255,
        );
        vstd::arithmetic::div_mod::lemma_div_pos_is_pos(scaled as int, 255);
        if coverage == 255 {
            vstd::arithmetic::div_mod::lemma_div_multiples_vanish(color.alpha as int, 255);
        }
    }
    ColorFp { red: color.red, green: color.green, blue: color.blue, alpha }
}

} // verus!

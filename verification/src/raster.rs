//! Rasterized glyph bitmaps and their conversion to texture pixel data.
//!
//! The font loader hands back a grayscale bitmap whose rows may be stored
//! top-down (positive pitch) or bottom-up (negative pitch) and whose row
//! pitch may exceed the pixel width.  Only the positive, width-equal-pitch,
//! grayscale case is supported; every other combination is a distinct,
//! typed failure rather than silently wrong pixels.

use vstd::prelude::*;

verus! {

/// Pixel layout of a rasterized bitmap, as the font loader reports it.
#[derive(Clone, Copy, PartialEq, Eq, Structural, Debug)]
pub enum PixelMode {
    /// One byte of coverage per pixel.
    Gray,
    /// Four bytes per pixel, blue-green-red-alpha.
    Bgra,
    /// Any other layout (monochrome, two- or four-bit gray, subpixel).
    Other,
}

/// Why a rasterized bitmap could not be converted to texture data.
#[derive(Clone, Copy, PartialEq, Eq, Structural, Debug)]
pub enum RasterFormatError {
    /// Rows are stored bottom-up (negative pitch).
    UpwardFlow,
    /// Rows are padded: the pitch differs from the pixel width.
    PitchMismatch,
    /// Blue-green-red-alpha pixels.
    BgraPixelMode,
    /// Some other unexpected pixel layout.
    UnexpectedPixelMode,
}

/// A rasterized bitmap: dimensions in pixels, signed row pitch in bytes,
/// pixel layout, and the raw row bytes.
pub struct Bitmap {
    pub width: u32,
    pub rows: u32,
    pub pitch: i32,
    pub pixel_mode: PixelMode,
    pub buffer: Vec<u8>,
}

impl Bitmap {
    /// The buffer holds exactly `rows` rows of `|pitch|` bytes, and the
    /// dimensions stay within the engine's pixel range.
    pub open spec fn wf(self) -> bool {
        &&& self.width <= 0x10000
        &&& self.rows <= 0x10000
        &&& -0x40000 <= self.pitch <= 0x40000
        &&& self.buffer@.len() == self.rows * (if self.pitch >= 0 {
            self.pitch as int
        } else {
            -(self.pitch as int)
        })
    }
}

/// Whether a bitmap is in the one supported raster form: top-down
/// grayscale rows with no padding.
pub open spec fn supported_raster(b: Bitmap) -> bool {
    &&& b.pixel_mode == PixelMode::Gray
    &&& b.pitch >= 0
    &&& b.pitch as int == b.width as int
}

/// The typed failure a bitmap outside the supported form converts to:
/// the pixel layout is checked first, then the row direction, then the
/// padding.
pub open spec fn raster_error_of(b: Bitmap) -> RasterFormatError {
    if b.pixel_mode == PixelMode::Bgra {
        RasterFormatError::BgraPixelMode
    } else if b.pixel_mode == PixelMode::Other {
        RasterFormatError::UnexpectedPixelMode
    } else if b.pitch < 0 {
        RasterFormatError::UpwardFlow
    } else {
        RasterFormatError::PitchMismatch
    }
}

/// Single-channel texel format: the one client format glyph textures use.
#[derive(Clone, Copy, PartialEq, Eq, Structural, Debug)]
pub enum TexelFormat {
    U8,
}

/// A bitmap on its way to becoming a single-channel texture.
pub struct TexturableBitmap {
    pub bitmap: Bitmap,
}

impl TexturableBitmap {
    /// Wraps a rasterized bitmap for texture upload.
    pub fn new(bitmap: Bitmap) -> (r: Self)
        ensures
            r.bitmap == bitmap,
    {
        TexturableBitmap { bitmap }
    }

    /// Glyph textures always upload as one byte of coverage per texel.
    pub fn get_format() -> (r: TexelFormat)
        ensures
            r == TexelFormat::U8,
    {
        TexelFormat::U8
    }

    /// Width and height of the texture to create.
    pub fn get_dimensions(&self) -> (r: (u32, u32))
        ensures
            r.0 == self.bitmap.width,
            r.1 == self.bitmap.rows,
    {
        (self.bitmap.width, self.bitmap.rows)
    }

    /// The texture's pixel bytes: the bitmap's rows exactly as rasterized,
    /// accepted only in the supported top-down, unpadded, grayscale form;
    /// any other form is a typed failure that names what was wrong.
    pub fn into_vec(self) -> (r: Result<Vec<u8>, RasterFormatError>)
        ensures
            supported_raster(self.bitmap) ==> r == Ok::<Vec<u8>, RasterFormatError>(
                self.bitmap.buffer,
            ),
            !supported_raster(self.bitmap) ==> r == Err::<Vec<u8>, RasterFormatError>(
                raster_error_of(self.bitmap),
            ),
    {
        let flow_down = self.bitmap.pitch >= 0;
        match self.bitmap.pixel_mode {
            PixelMode::Gray => {
                if flow_down {
                    if self.bitmap.pitch as i64 == self.bitmap.width as i64 {
                        Ok(self.bitmap.buffer)
                    } else {
                        Err(RasterFormatError::PitchMismatch)
                    }
                } else {
                    Err(RasterFormatError::UpwardFlow)
                }
            },
            PixelMode::Bgra => Err(RasterFormatError::BgraPixelMode),
            PixelMode::Other => Err(RasterFormatError::UnexpectedPixelMode),
        }
    }
}

} // verus!

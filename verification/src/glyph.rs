//! The glyph cache: pure memoization of rasterized glyphs.
//!
//! Each (face index, size, character) key maps to one rasterized glyph,
//! its single-channel texture, its metrics and its font-internal glyph
//! index.  A hit returns the existing entry and changes nothing, so the
//! same key never produces two texture uploads; entries are never evicted.

use vstd::prelude::*;
use crate::raster::{Bitmap, RasterFormatError, TexturableBitmap, supported_raster, raster_error_of};

verus! {

/// Pixel metrics of one rasterized glyph.  Offsets and dimensions are in
/// whole pixels; advances are in 1/65536-pixel units.
#[derive(Clone, Copy, PartialEq, Eq, Structural, Debug)]
pub struct GlyphMetrics {
    /// Horizontal offset from the pen to the bitmap's left edge.
    pub left: i32,
    /// Vertical offset from the baseline up to the bitmap's top edge.
    pub top: i32,
    /// Bitmap width in pixels.
    pub width: u32,
    /// Bitmap height in pixels.
    pub rows: u32,
    /// Horizontal pen advance, 1/65536 pixel.
    pub advance_x: i64,
    /// Vertical pen advance, 1/65536 pixel.
    pub advance_y: i64,
}

impl GlyphMetrics {
    /// Metrics stay within the engine's fixed-point pixel range.
    pub open spec fn wf(self) -> bool {
        &&& -0x10000 <= self.left <= 0x10000
        &&& -0x10000 <= self.top <= 0x10000
        &&& self.width <= 0x10000
        &&& self.rows <= 0x10000
        &&& -0x1_0000_0000 <= self.advance_x <= 0x1_0000_0000
        &&& -0x1_0000_0000 <= self.advance_y <= 0x1_0000_0000
    }
}

/// Exact-match cache key: one rasterization per face, size and character.
/// Equality is structural and total over all three fields.
#[derive(Clone, Copy, PartialEq, Eq, Structural, Hash, Debug)]
pub struct CacheKey {
    pub face_index: usize,
    pub size: i64,
    pub ch: char,
}

/// What the font loader reports for one rasterized glyph: the
/// font-internal glyph index (needed for kerning), the metrics, and the
/// rasterized bitmap.
pub struct GlyphRaster {
    pub glyph_index: u32,
    pub metrics: GlyphMetrics,
    pub bitmap: Bitmap,
}

impl GlyphRaster {
    /// The metrics are in range, the bitmap is consistent, and the
    /// bitmap's dimensions are the metric dimensions.
    pub open spec fn wf(self) -> bool {
        &&& self.metrics.wf()
        &&& self.bitmap.wf()
        &&& self.bitmap.width == self.metrics.width
        &&& self.bitmap.rows == self.metrics.rows
    }
}

/// One cached glyph: its uploaded texture (by handle), its metrics, its
/// glyph index, and the texture's pixel bytes.
pub struct CacheEntry {
    /// Handle of the single-channel texture the glyph was uploaded as.
    pub texture: u64,
    /// Font-internal glyph index, used for kerning lookups.
    pub glyph_index: u32,
    /// Pixel metrics of the rasterized glyph.
    pub metrics: GlyphMetrics,
    /// The uploaded texture's coverage bytes, row-major, one per texel.
    pub pixels: Vec<u8>,
}

/// The entry a cache miss constructs from a raster, uploading it as
/// texture `tex`.
pub open spec fn entry_from_raster(raster: GlyphRaster, tex: u64) -> CacheEntry {
    CacheEntry {
        texture: tex,
        glyph_index: raster.glyph_index,
        metrics: raster.metrics,
        pixels: raster.bitmap.buffer,
    }
}

/// Keyed store of rasterized glyphs.  Entries are appended, never
/// replaced or evicted; each insertion uploads exactly one texture.
pub struct GlyphCache {
    entries: Vec<(CacheKey, CacheEntry)>,
    next_texture: u64,
}

impl GlyphCache {
    /// The cached entries, in insertion order.
    pub closed spec fn entries_view(self) -> Seq<(CacheKey, CacheEntry)> {
        self.entries@
    }

    /// Number of textures this cache has uploaded so far.
    pub closed spec fn uploads(self) -> int {
        self.next_texture as int
    }

    /// Keys are pairwise distinct, every entry is well formed, and
    /// exactly one texture was uploaded per entry.
    pub open spec fn wf(self) -> bool {
        &&& forall|i: int, j: int|
            0 <= i < j < self.entries_view().len() ==> self.entries_view()[i].0
                != self.entries_view()[j].0
        &&& forall|i: int|
            0 <= i < self.entries_view().len() ==> (#[trigger] self.entries_view()[i]).1.metrics.wf()
        &&& self.uploads() == self.entries_view().len()
    }

    /// Whether some entry is cached under `key`.
    pub open spec fn contains(self, key: CacheKey) -> bool {
        exists|i: int| 0 <= i < self.entries_view().len() && self.entries_view()[i].0 == key
    }

    /// Index of the entry cached under `key`.
    pub open spec fn index_of(self, key: CacheKey) -> int {
        choose|i: int| 0 <= i < self.entries_view().len() && self.entries_view()[i].0 == key
    }

    /// The entry cached under `key`.
    pub open spec fn entry_for(self, key: CacheKey) -> CacheEntry {
        self.entries_view()[self.index_of(key)].1
    }

    /// A fresh, empty cache that has uploaded nothing.
    pub fn new() -> (r: Self)
        ensures
            r.wf(),
            r.entries_view().len() == 0,
            r.uploads() == 0,
    {
        GlyphCache { entries: Vec::new(), next_texture: 0 }
    }

    /// Number of cached entries.
    pub fn len(&self) -> (r: usize)
        ensures
            r == self.entries_view().len(),
    {
        self.entries.len()
    }

    /// Read access to the entry at a cache index.
    pub fn entry_at(&self, i: usize) -> (r: &CacheEntry)
        requires
            i < self.entries_view().len(),
        ensures
            *r == self.entries_view()[i as int].1,
    {
        &self.entries[i].1
    }

    /// Linear probe for `key`: the index of its entry, if cached.
    pub fn lookup(&self, key: CacheKey) -> (r: Option<usize>)
        requires
            self.wf(),
        ensures
            match r {
                Some(i) => self.contains(key) && i == self.index_of(key) && 0 <= i
                    < self.entries_view().len() && self.entries_view()[i as int].0 == key,
                None => !self.contains(key),
            },
    {
        let n = self.entries.len();
        let mut i: usize = 0;
        while i < n
            invariant
                self.wf(),
                n == self.entries_view().len(),
                0 <= i <= n,
                forall|j: int| 0 <= j < i ==> self.entries_view()[j].0 != key,
            decreases n - i,
        {
            if self.entries[i].0.face_index == key.face_index && self.entries[i].0.size == key.size
                && self.entries[i].0.ch == key.ch {
                proof {
                    assert(self.entries_view()[i as int].0 == key);
                    let j = self.index_of(key);
                    if j != i as int {
                        assert(self.entries_view()[j].0 == key);
                        assert(false);
                    }
                }
                return Some(i);
            }
            i = i + 1;
        }
        None
    }

    /// The cache-or-rasterize contract: a hit returns the existing entry
    /// and leaves the cache untouched (no second upload for the same
    /// key); a miss converts the supplied raster to texture data, uploads
    /// it as the next texture handle, appends the entry and returns it,
    /// or reports the raster's typed format failure and changes nothing.
    pub fn get_cache_entry(&mut self, key: CacheKey, raster: GlyphRaster) -> (r: Result<
        usize,
        RasterFormatError,
    >)
        requires
            old(self).wf(),
            raster.wf(),
        ensures
            final(self).wf(),
            old(self).contains(key) ==> {
                &&& r == Ok::<usize, RasterFormatError>(old(self).index_of(key) as usize)
                &&& *final(self) == *old(self)
            },
            !old(self).contains(key) && supported_raster(raster.bitmap) ==> {
                &&& r == Ok::<usize, RasterFormatError>(old(self).entries_view().len() as usize)
                &&& final(self).entries_view() == old(self).entries_view().push(
                    (key, entry_from_raster(raster, old(self).uploads() as u64)),
                )
                &&& final(self).uploads() == old(self).uploads() + 1
            },
            !old(self).contains(key) && !supported_raster(raster.bitmap) ==> {
                &&& r == Err::<usize, RasterFormatError>(raster_error_of(raster.bitmap))
                &&& *final(self) == *old(self)
            },
            final(self).contains(key) <==> old(self).contains(key) || (r matches Ok(_)),
    {
        match self.lookup(key) {
            Some(i) => Ok(i),
            None => {
                let GlyphRaster { glyph_index, metrics, bitmap } = raster;
                let texturable = TexturableBitmap::new(bitmap);
                let ghost old_view = self.entries_view();
                match texturable.into_vec() {
                    Ok(pixels) => {
                        let entry = CacheEntry {
                            texture: self.next_texture,
                            glyph_index,
                            metrics,
                            pixels,
                        };
                        let i = self.entries.len();
                        self.entries.push((key, entry));
                        let n = self.entries.len();
                        proof {
                            assert(self.next_texture == n - 1);
                        }
                        self.next_texture = self.next_texture + 1;
                        proof {
                            assert(self.entries_view() =~= old_view.push(
                                (key, entry_from_raster(raster, old(self).uploads() as u64)),
                            ));
                            assert(self.entries_view()[i as int].0 == key);
                        }
                        Ok(i)
                    },
                    Err(e) => Err(e),
                }
            },
        }
    }
}

} // verus!

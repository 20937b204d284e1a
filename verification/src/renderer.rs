//! The shared text renderer: face registry, glyph cache and target
//! texture allocation.
//!
//! One renderer is created at startup and shared by every label.  It
//! owns the glyph cache, counts the faces the driver has loaded into
//! the external font library, and hands out fresh handles for the
//! destination textures labels render into.

use vstd::prelude::*;
use crate::glyph::{CacheKey, GlyphCache, GlyphRaster};
use crate::raster::RasterFormatError;

verus! {

/// Why a font face could not be loaded: the path or the file was not
/// usable.  Recoverable; surfaced to the caller, never fatal.
#[derive(Clone, Copy, PartialEq, Eq, Structural, Debug)]
pub enum FontError {
    LoadFailure,
}

/// The renderer: the glyph cache, the number of registered faces and
/// the next free target texture handle.
pub struct TextRenderer {
    /// The shared glyph cache.
    pub cache: GlyphCache,
    /// Number of faces the driver has registered.
    pub face_count: usize,
    /// Next free destination texture handle.
    pub next_target: u64,
}

impl TextRenderer {
    /// Number of faces registered so far; face indices below this are
    /// valid.
    pub open spec fn faces(self) -> int {
        self.face_count as int
    }

    /// Number of target textures handed out so far.
    pub open spec fn targets(self) -> int {
        self.next_target as int
    }

    /// The cache is well formed.
    pub open spec fn wf(self) -> bool {
        self.cache.wf()
    }

    /// A fresh renderer: empty cache, no faces, no targets.
    pub fn new() -> (r: Self)
        ensures
            r.wf(),
            r.cache.entries_view().len() == 0,
            r.cache.uploads() == 0,
            r.faces() == 0,
            r.targets() == 0,
    {
        TextRenderer { cache: GlyphCache::new(), face_count: 0, next_target: 0 }
    }

    /// Registers the outcome of loading one face through the external
    /// font library: on success the face joins the registry and its
    /// index is returned; on failure the error is passed through and
    /// nothing changes.
    pub fn load_face(&mut self, loaded: Result<(), FontError>) -> (r: Result<usize, FontError>)
        requires
            old(self).faces() < 0x8000_0000,
        ensures
            final(self).cache == old(self).cache,
            final(self).targets() == old(self).targets(),
            match loaded {
                Ok(()) => r == Ok::<usize, FontError>(old(self).faces() as usize)
                    && final(self).faces() == old(self).faces() + 1,
                Err(e) => r == Err::<usize, FontError>(e)
                    && final(self).faces() == old(self).faces(),
            },
    {
        match loaded {
            Ok(()) => {
                let index = self.face_count;
                self.face_count = self.face_count + 1;
                Ok(index)
            },
            Err(e) => Err(e),
        }
    }

    /// The cache-or-rasterize step, guarded by the face registry: a key
    /// outside the registry is a programming error, excluded by
    /// precondition.
    pub fn get_cache_entry(&mut self, key: CacheKey, raster: GlyphRaster) -> (r: Result<
        usize,
        RasterFormatError,
    >)
        requires
            old(self).wf(),
            raster.wf(),
            key.face_index < old(self).faces(),
        ensures
            final(self).wf(),
            final(self).faces() == old(self).faces(),
            final(self).targets() == old(self).targets(),
            old(self).cache.contains(key) ==> r == Ok::<usize, RasterFormatError>(
                old(self).cache.index_of(key) as usize,
            ) && final(self).cache == old(self).cache,
            r matches Ok(_) || final(self).cache == old(self).cache,
            final(self).cache.contains(key) <==> old(self).cache.contains(key) || (
            r matches Ok(_)),
            !old(self).cache.contains(key) && crate::raster::supported_raster(raster.bitmap)
                ==> {
                &&& r == Ok::<usize, RasterFormatError>(
                    old(self).cache.entries_view().len() as usize,
                )
                &&& final(self).cache.entries_view() == old(self).cache.entries_view().push(
                    (key, crate::glyph::entry_from_raster(raster, old(self).cache.uploads() as u64)),
                )
                &&& final(self).cache.uploads() == old(self).cache.uploads() + 1
            },
            !old(self).cache.contains(key) && !crate::raster::supported_raster(raster.bitmap)
                ==> r == Err::<usize, RasterFormatError>(
                crate::raster::raster_error_of(raster.bitmap),
            ) && final(self).cache == old(self).cache,
    {
        self.cache.get_cache_entry(key, raster)
    }

    /// Hands out a fresh destination texture handle.
    pub fn alloc_target(&mut self) -> (r: u64)
        requires
            old(self).targets() < 0xFFFF_FFFF_FFFF_FFFF,
        ensures
            r == old(self).targets() as u64,
            final(self).targets() == old(self).targets() + 1,
            final(self).cache == old(self).cache,
            final(self).faces() == old(self).faces(),
    {
        let id = self.next_target;
        self.next_target = self.next_target + 1;
        id
    }
}

} // verus!

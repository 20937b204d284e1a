//! A text rendering and widget composition engine.
//!
//! The engine rasterizes glyphs on demand through an external font loader,
//! caches them per (face, size, character), lays strings out into bitmaps
//! with baseline alignment and kerning, and composes on-screen widgets
//! through a shared projection / model transform pipeline.
//!
//! All coordinates, pen positions and transform entries are exact
//! fixed-point integers in units of 1/65536 pixel, the 16.16 convention the
//! font loader uses for glyph advances.  The GPU, the windowing system, the
//! font loader and the audio decoder are external collaborators: the library
//! computes layouts, cache updates and draw command lists over plain values,
//! and an unverified driver performs the file loads, uploads and draw calls.

pub mod fixed;
pub mod glyph;
pub mod gui;
pub mod layout;
pub mod raster;
pub mod label;
pub mod render;
pub mod renderer;
pub mod widget;
pub mod transform;
pub mod usage;
pub mod waveform;

use genesis::glyph::{CacheKey, GlyphMetrics, GlyphRaster};
use genesis::layout::{measure_text, place_text};
use genesis::raster::{Bitmap, PixelMode, RasterFormatError, TexelFormat, TexturableBitmap};
use genesis::render::{BlendMode, ProgramKind, TexRef, tinted_fragment};
use genesis::render::ColorFp;
use genesis::renderer::TextRenderer;
use genesis::label::Label;
use genesis::render::TextureInfo;
use genesis::usage::print_usage;
use genesis::waveform::{Waveform, WaveformEvent, WaveformLoadState};

const FP: i64 = 65536;

fn gray_bitmap(width: u32, rows: u32) -> Bitmap {
    Bitmap {
        width,
        rows,
        pitch: width as i32,
        pixel_mode: PixelMode::Gray,
        buffer: vec![0xFF; (width * rows) as usize],
    }
}

fn raster(glyph_index: u32, left: i32, top: i32, width: u32, rows: u32, advance_px: i64) -> GlyphRaster {
    GlyphRaster {
        glyph_index,
        metrics: GlyphMetrics {
            left,
            top,
            width,
            rows,
            advance_x: advance_px * FP,
            advance_y: 0,
        },
        bitmap: gray_bitmap(width, rows),
    }
}

fn metrics_ab() -> Vec<GlyphMetrics> {
    vec![
        GlyphMetrics { left: 1, top: 10, width: 8, rows: 12, advance_x: 9 * FP, advance_y: 0 },
        GlyphMetrics { left: 0, top: 8, width: 6, rows: 8, advance_x: 7 * FP, advance_y: 0 },
    ]
}

#[test]
fn cache_idempotent() {
    let mut renderer = TextRenderer::new();
    let face = renderer.load_face(Ok(())).unwrap();
    assert_eq!(face, 0);
    let key = CacheKey { face_index: face, size: 16, ch: 'A' };
    let first = renderer.get_cache_entry(key, raster(7, 1, 10, 8, 12, 9)).unwrap();
    let second = renderer.get_cache_entry(key, raster(7, 1, 10, 8, 12, 9)).unwrap();
    assert_eq!(first, second);
    assert_eq!(renderer.cache.len(), 1);
    let entry = renderer.cache.entry_at(first);
    assert_eq!(entry.texture, 0);
    assert_eq!(entry.glyph_index, 7);
}

#[test]
fn cache_lookup_missing() {
    let renderer = TextRenderer::new();
    let key = CacheKey { face_index: 0, size: 16, ch: 'Z' };
    assert!(renderer.cache.lookup(key).is_none());
}

#[test]
fn load_face_failure_passes_through() {
    let mut renderer = TextRenderer::new();
    let r = renderer.load_face(Err(genesis::renderer::FontError::LoadFailure));
    assert!(matches!(r, Err(genesis::renderer::FontError::LoadFailure)));
    let face = renderer.load_face(Ok(())).unwrap();
    assert_eq!(face, 0);
}

#[test]
fn raster_negative_pitch_rejected() {
    let mut b = gray_bitmap(4, 4);
    b.pitch = -4;
    let r = TexturableBitmap::new(b).into_vec();
    assert_eq!(r, Err(RasterFormatError::UpwardFlow));
}

#[test]
fn raster_bgra_rejected() {
    let mut b = gray_bitmap(4, 4);
    b.pixel_mode = PixelMode::Bgra;
    let r = TexturableBitmap::new(b).into_vec();
    assert_eq!(r, Err(RasterFormatError::BgraPixelMode));
}

#[test]
fn raster_unexpected_mode_rejected() {
    let mut b = gray_bitmap(4, 4);
    b.pixel_mode = PixelMode::Other;
    let r = TexturableBitmap::new(b).into_vec();
    assert_eq!(r, Err(RasterFormatError::UnexpectedPixelMode));
}

#[test]
fn raster_padded_pitch_rejected() {
    let mut b = gray_bitmap(4, 4);
    b.pitch = 5;
    b.buffer = vec![0xFF; 20];
    let r = TexturableBitmap::new(b).into_vec();
    assert_eq!(r, Err(RasterFormatError::PitchMismatch));
}

#[test]
fn raster_gray_accepted_unchanged() {
    let mut b = gray_bitmap(3, 2);
    b.buffer = vec![1, 2, 3, 4, 5, 6];
    let t = TexturableBitmap::new(b);
    assert_eq!(t.get_dimensions(), (3, 2));
    assert!(matches!(TexturableBitmap::get_format(), TexelFormat::U8));
    assert_eq!(t.into_vec(), Ok(vec![1, 2, 3, 4, 5, 6]));
}

#[test]
fn measure_two_glyphs_exact() {
    let m = metrics_ab();
    let lm = measure_text(&m, 0);
    assert_eq!(lm.width_px, 15);
    assert_eq!(lm.height_px, 12);
    assert_eq!(lm.above, 10 * FP);
    assert_eq!(lm.below, 2 * FP);
}

#[test]
fn measure_empty_is_zero() {
    let lm = measure_text(&Vec::new(), 64);
    assert_eq!(lm.width_px, 0);
    assert_eq!(lm.height_px, 0);
}

#[test]
fn width_monotonic_on_append() {
    let m = metrics_ab();
    let first_only = vec![m[0]];
    let narrow = measure_text(&first_only, 0);
    let wide = measure_text(&m, 0);
    assert!(wide.width_px >= narrow.width_px);
    assert_eq!(narrow.width_px, 9);
    assert_eq!(wide.width_px, 15);
}

#[test]
fn kerning_shifts_whole_run_once() {
    let m = metrics_ab();
    let unkerned = measure_text(&m, 0);
    let kerned = measure_text(&m, 64);
    assert_eq!(unkerned.width_px, 15);
    assert_eq!(kerned.width_px, 16);
    let p0 = place_text(&m, 0, unkerned.above);
    let p1 = place_text(&m, 64, kerned.above);
    for i in 0..m.len() {
        assert_eq!(p1[i].left, p0[i].left + FP);
        assert_eq!(p1[i].top, p0[i].top);
    }
}

#[test]
fn placements_exact() {
    let m = metrics_ab();
    let lm = measure_text(&m, 0);
    let p = place_text(&m, 0, lm.above);
    assert_eq!(p.len(), 2);
    assert_eq!(p[0].left, 1 * FP);
    assert_eq!(p[0].top, 0);
    assert_eq!(p[1].left, 9 * FP);
    assert_eq!(p[1].top, 2 * FP);
}

#[test]
fn label_update_end_to_end() {
    let mut renderer = TextRenderer::new();
    let face = renderer.load_face(Ok(())).unwrap();
    let key_a = CacheKey { face_index: face, size: 16, ch: 'A' };
    let key_b = CacheKey { face_index: face, size: 16, ch: 'b' };
    renderer.get_cache_entry(key_a, raster(7, 1, 10, 8, 12, 9)).unwrap();
    renderer.get_cache_entry(key_b, raster(8, 0, 8, 6, 8, 7)).unwrap();
    let mut label = Label {
        face_index: face,
        size: 16,
        text: vec!['A', 'b'],
        color: ColorFp { red: 0x1_0000, green: 0, blue: 0, alpha: 0x1_0000 },
        texture: TextureInfo { id: 0, width: 16, height: 16 },
        quad: (16, 16),
        composition: Vec::new(),
    };
    label.update(&mut renderer, 0);
    assert!(label.texture.width > 0);
    assert!(label.texture.height > 0);
    assert_eq!(label.texture.width, 15);
    assert_eq!(label.texture.height, 12);
    assert_eq!(label.quad, (15, 12));
    assert_eq!(label.composition.len(), 2);
    let c0 = &label.composition[0];
    assert!(matches!(c0.program, ProgramKind::Gray));
    assert!(matches!(c0.blend, BlendMode::Replace));
    assert!(matches!(c0.texture, TexRef::Glyph(0)));
    assert_eq!(c0.color.red, 0);
    assert_eq!(c0.color.alpha, 0x1_0000);
    // Drawing with a known red tint keeps the red channel wherever the
    // glyph has any coverage.
    for coverage in [1u8, 128, 255] {
        let frag = tinted_fragment(&label.color, coverage);
        assert_eq!(frag.red, 0x1_0000);
        assert_eq!(frag.green, 0);
        assert_eq!(frag.blue, 0);
        assert!(frag.alpha > 0);
    }
    assert_eq!(tinted_fragment(&label.color, 0).alpha, 0);
    assert_eq!(tinted_fragment(&label.color, 255).alpha, 0x1_0000);
}

#[test]
fn update_twice_is_identical() {
    let mut renderer = TextRenderer::new();
    let face = renderer.load_face(Ok(())).unwrap();
    let key_a = CacheKey { face_index: face, size: 16, ch: 'A' };
    renderer.get_cache_entry(key_a, raster(7, 1, 10, 8, 12, 9)).unwrap();
    let mut label = Label {
        face_index: face,
        size: 16,
        text: vec!['A'],
        color: ColorFp { red: 0, green: 0, blue: 0, alpha: 0x1_0000 },
        texture: TextureInfo { id: 0, width: 16, height: 16 },
        quad: (16, 16),
        composition: Vec::new(),
    };
    label.update(&mut renderer, 0);
    let dims1 = (label.texture.width, label.texture.height);
    let comp1: Vec<_> = label.composition.clone();
    label.update(&mut renderer, 0);
    let dims2 = (label.texture.width, label.texture.height);
    assert_eq!(dims1, dims2);
    assert_eq!(comp1.len(), label.composition.len());
    for i in 0..comp1.len() {
        assert_eq!(comp1[i], label.composition[i]);
    }
    assert_eq!(renderer.cache.len(), 1);
}

#[test]
fn set_text_and_color_mutate_only_state() {
    let mut label = Label {
        face_index: 0,
        size: 16,
        text: vec!['x'],
        color: ColorFp { red: 0, green: 0, blue: 0, alpha: 0 },
        texture: TextureInfo { id: 3, width: 16, height: 16 },
        quad: (16, 16),
        composition: Vec::new(),
    };
    label.set_text(vec!['h', 'i']);
    label.set_color(0x1_0000, 0, 0, 0x1_0000);
    assert_eq!(label.text, vec!['h', 'i']);
    assert_eq!(label.color.red, 0x1_0000);
    assert_eq!(label.texture.id, 3);
}

#[test]
fn waveform_happy_path() {
    let mut w = Waveform::new();
    assert!(matches!(w.load_state, WaveformLoadState::Spawning));
    w.on_event(WaveformEvent::Spawned);
    assert!(matches!(w.load_state, WaveformLoadState::Opening));
    w.on_event(WaveformEvent::AttachOk);
    assert!(matches!(w.load_state, WaveformLoadState::Reading));
    w.on_event(WaveformEvent::BufferDecoded(441));
    w.on_event(WaveformEvent::BufferDecoded(1024));
    assert!(matches!(w.load_state, WaveformLoadState::Reading));
    assert_eq!(w.buffers, vec![441, 1024]);
    w.on_event(WaveformEvent::EndOfStream);
    assert!(matches!(w.load_state, WaveformLoadState::Complete));
    w.draw();
}

#[test]
fn waveform_error_paths() {
    let mut w = Waveform::new();
    w.on_event(WaveformEvent::Spawned);
    w.on_event(WaveformEvent::OpenFailed);
    assert!(matches!(w.load_state, WaveformLoadState::Error));
    assert!(w.buffers.is_empty());

    let mut w2 = Waveform::new();
    w2.on_event(WaveformEvent::Spawned);
    w2.on_event(WaveformEvent::AttachFailed);
    assert!(matches!(w2.load_state, WaveformLoadState::Error));

    let mut w3 = Waveform::new();
    w3.on_event(WaveformEvent::BufferDecoded(1));
    assert!(matches!(w3.load_state, WaveformLoadState::Error));
    assert!(w3.buffers.is_empty());
}

#[test]
fn usage_line_bytes() {
    let exe: Vec<u8> = b"genesis".to_vec();
    let line = print_usage(&exe);
    assert_eq!(line, b"Usage: genesis <file>\n".to_vec());
}

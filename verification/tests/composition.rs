use genesis::glyph::{CacheKey, GlyphMetrics, GlyphRaster};
use genesis::gui::Gui;
use genesis::raster::{Bitmap, PixelMode};
use genesis::render::{Frame, ProgramKind, ColorFp};
use genesis::transform::Affine2;
use genesis::widget::Widget;
use genesis::label::Label;
use genesis::render::TextureInfo;

const FP: i64 = 65536;

fn plain_label() -> Label {
    Label {
        face_index: 0,
        size: 16,
        text: vec!['x'],
        color: ColorFp { red: 0x1_0000, green: 0x1_0000, blue: 0x1_0000, alpha: 0x1_0000 },
        texture: TextureInfo { id: 0, width: 16, height: 16 },
        quad: (16, 16),
        composition: Vec::new(),
    }
}

fn simple_raster() -> GlyphRaster {
    GlyphRaster {
        glyph_index: 1,
        metrics: GlyphMetrics { left: 0, top: 8, width: 8, rows: 8, advance_x: 8 * FP, advance_y: 0 },
        bitmap: Bitmap {
            width: 8,
            rows: 8,
            pitch: 8,
            pixel_mode: PixelMode::Gray,
            buffer: vec![0xFF; 64],
        },
    }
}

#[test]
fn transform_order_scenario() {
    // pos (10, 20), scale (2, 1), no rotation, anchor at the origin:
    // the model matrix is exactly translate(10,20) * scale(2,1).
    let model = Affine2::model(10, 20, 2 * FP, FP, FP, 0, 0, 0);
    let by_hand = Affine2 { a: 2 * FP, b: 0, c: 0, d: FP, tx: 10 * FP, ty: 20 * FP };
    assert_eq!(model, by_hand);
    assert_eq!(model.apply(0, 0), (10 * FP, 20 * FP));

    // An anchor of (5, 5) is translated first, so the scale applies to
    // it: the origin now lands on (20, 25).
    let anchored = Affine2::model(10, 20, 2 * FP, FP, FP, 0, 5 * FP, 5 * FP);
    assert_eq!(anchored.apply(0, 0), (20 * FP, 25 * FP));
}

#[test]
fn ortho_projection_entries() {
    // Screen orientation: x right, y down, 800 by 600.
    let p = Affine2::ortho(800, 600, 0);
    assert_eq!(p.a, 131072 / 800);
    assert_eq!(p.b, 0);
    assert_eq!(p.c, 0);
    assert_eq!(p.d, -(131072 / 600));
    assert_eq!(p.tx, -FP);
    assert_eq!(p.ty, FP);
    // Texture orientation: origin bottom-left.
    let t = Affine2::ortho(16, 0, 16);
    assert_eq!(t.d, 131072 / 16);
    assert_eq!(t.ty, -FP);
}

#[test]
fn invisible_widget_draws_nothing() {
    let mut w = Widget::new(plain_label(), 1);
    w.visible = false;
    let projection = Affine2::ortho(800, 600, 0);
    let mut frame = Frame {
        clear_color: ColorFp { red: 0, green: 0, blue: 0, alpha: 0 },
        cmds: Vec::new(),
    };
    w.draw(&mut frame, &projection);
    assert!(frame.cmds.is_empty());
}

#[test]
fn widget_draw_emits_one_tinted_cmd() {
    let mut w = Widget::new(plain_label(), 1);
    w.set_pos(100, 100);
    w.set_scale(FP, FP);
    assert_eq!(w.pos(), (100, 100));
    assert_eq!(w.scale(), (FP, FP));
    assert_eq!(w.item().size, 16);
    let projection = Affine2::ortho(800, 600, 0);
    let mut frame = Frame {
        clear_color: ColorFp { red: 0, green: 0, blue: 0, alpha: 0 },
        cmds: Vec::new(),
    };
    w.draw(&mut frame, &projection);
    assert_eq!(frame.cmds.len(), 1);
    assert!(matches!(frame.cmds[0].program, ProgramKind::Tinted));
}

#[test]
fn gui_creates_labels_with_fresh_ids() {
    let mut gui = Gui::new(800, 600);
    let face = gui.load_face(Ok(())).unwrap();
    let first = gui.create_label(face);
    let second = gui.create_label(face);
    assert_eq!(first, 0);
    assert_eq!(second, 1);
    assert_eq!(gui.widget_set.slots.len(), 2);
    let slot = &gui.widget_set.slots[0];
    let w = slot.widget.as_ref().unwrap();
    assert_eq!(w.item().text, vec!['l', 'a', 'b', 'e', 'l']);
    assert_eq!(w.item().size, 16);
    assert!(w.visible);
}

#[test]
fn dropped_widget_is_omitted_from_frame() {
    let mut gui = Gui::new(800, 600);
    let face = gui.load_face(Ok(())).unwrap();
    let first = gui.create_label(face);
    let second = gui.create_label(face);
    let full = gui.draw_frame();
    assert_eq!(full.cmds.len(), 2);
    assert!(gui.drop_widget(first));
    let partial = gui.draw_frame();
    assert_eq!(partial.cmds.len(), 1);
    assert!(gui.drop_widget(second));
    let empty = gui.draw_frame();
    assert!(empty.cmds.is_empty());
    // Dropping again finds nothing and still never faults.
    assert!(!gui.drop_widget(first));
    let again = gui.draw_frame();
    assert!(again.cmds.is_empty());
}

#[test]
fn frame_clear_color_is_dark_gray() {
    let gui = Gui::new(640, 480);
    let frame = gui.draw_frame();
    assert_eq!(frame.clear_color.red, 19661);
    assert_eq!(frame.clear_color.green, 19661);
    assert_eq!(frame.clear_color.blue, 19661);
    assert_eq!(frame.clear_color.alpha, 0x1_0000);
}

#[test]
fn gui_resize_recomputes_projection() {
    let mut gui = Gui::new(800, 600);
    gui.resize(1024, 768);
    assert_eq!(gui.width, 1024);
    assert_eq!(gui.height, 768);
    assert_eq!(gui.projection.a, 131072 / 1024);
    assert_eq!(gui.projection.d, -(131072 / 768));
}

#[test]
fn gui_update_label_through_registry() {
    let mut gui = Gui::new(800, 600);
    let face = gui.load_face(Ok(())).unwrap();
    let id = gui.create_label(face);
    let key = CacheKey { face_index: face, size: 16, ch: 'x' };
    gui.text_renderer.get_cache_entry(key, simple_raster()).unwrap();
    // Take the widget out, relayout its label, put it back: the
    // driver's ownership dance.
    let mut slot = gui.widget_set.slots.remove(0);
    let mut widget = slot.widget.take().unwrap();
    widget.item.set_text(vec!['x']);
    widget.item.update(&mut gui.text_renderer, 0);
    slot.widget = Some(widget);
    gui.widget_set.slots.insert(0, slot);
    assert_eq!(slot_dims(&gui, 0), (8, 8));
    let frame = gui.draw_frame();
    assert_eq!(frame.cmds.len(), 1);
    assert_eq!(id, 0);
}

fn slot_dims(gui: &Gui, i: usize) -> (u32, u32) {
    let w = gui.widget_set.slots[i].widget.as_ref().unwrap();
    (w.item().texture.width, w.item().texture.height)
}

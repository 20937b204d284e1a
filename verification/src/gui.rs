//! The Gui: widget registry, projection and the per-frame draw pass.
//!
//! The Gui owns the shared text renderer, the window dimensions and
//! orthographic projection, and the widget set.  The set holds one slot
//! per created widget; a slot whose widget has been dropped is a dead
//! entry that the draw pass skips without fault -- the model of a weak
//! reference that no longer resolves.

use vstd::prelude::*;
use crate::label::Label;
use crate::render::{ColorFp, DrawCmd, Frame, TextureInfo};
use crate::renderer::{FontError, TextRenderer};
use crate::transform::{Affine2, ortho_spec, projection_bounded};
use crate::widget::{Widget, widget_cmds_spec};

verus! {

/// The frame clear color: the engine's fixed dark gray backdrop, three
/// tenths of full intensity per channel in fixed point.
pub open spec fn clear_color_spec() -> ColorFp {
    ColorFp { red: 19661, green: 19661, blue: 19661, alpha: 0x1_0000 }
}

/// One registry slot: the widget's id, and the widget itself while any
/// owner keeps it alive.  `None` is a dead entry: the widget was
/// dropped and only its id remains.
pub struct WidgetSlot {
    pub id: u64,
    pub widget: Option<Widget<Label>>,
}

/// The widget registry: observes widgets, never keeps a dead one
/// alive.
pub struct WidgetSet {
    pub slots: Vec<WidgetSlot>,
}

/// What one slot contributes to a frame: nothing if the widget is gone
/// or invisible.
pub open spec fn slot_cmds_spec(s: WidgetSlot, projection: Affine2) -> Seq<DrawCmd> {
    match s.widget {
        Some(w) => widget_cmds_spec(w, projection),
        None => Seq::empty(),
    }
}

/// The draw calls of a whole frame: each live, visible widget's
/// commands, in registry order; dead entries are simply omitted.
pub open spec fn frame_cmds_spec(slots: Seq<WidgetSlot>, projection: Affine2) -> Seq<DrawCmd>
    decreases slots.len(),
{
    if slots.len() == 0 {
        Seq::empty()
    } else {
        slot_cmds_spec(slots[0], projection) + frame_cmds_spec(slots.skip(1), projection)
    }
}

proof fn lemma_frame_cmds_snoc(slots: Seq<WidgetSlot>, s: WidgetSlot, projection: Affine2)
    ensures
        frame_cmds_spec(slots.push(s), projection) == frame_cmds_spec(slots, projection)
            + slot_cmds_spec(s, projection),
    decreases slots.len(),
{
    if slots.len() == 0 {
        assert(slots.push(s).skip(1) =~= Seq::<WidgetSlot>::empty());
        assert(slots.push(s)[0] == s);
        assert(frame_cmds_spec(slots.push(s), projection) == slot_cmds_spec(s, projection)
            + frame_cmds_spec(slots.push(s).skip(1), projection));
        assert(frame_cmds_spec(Seq::<WidgetSlot>::empty(), projection) == Seq::<
            DrawCmd,
        >::empty());
        assert(frame_cmds_spec(slots, projection) == Seq::<DrawCmd>::empty());
        assert(frame_cmds_spec(slots.push(s), projection) =~= frame_cmds_spec(slots, projection)
            + slot_cmds_spec(s, projection));
    } else {
        assert(slots.push(s)[0] == slots[0]);
        assert(slots.push(s).skip(1) =~= slots.skip(1).push(s));
        lemma_frame_cmds_snoc(slots.skip(1), s, projection);
        assert(frame_cmds_spec(slots.push(s), projection) =~= frame_cmds_spec(slots, projection)
            + slot_cmds_spec(s, projection));
    }
}

/// A dead entry changes nothing: the frame of a registry with a dead
/// slot is the frame of the registry without that slot.  Dropping every
/// strong handle to a widget therefore only omits it, and can never
/// fault the draw pass.
pub proof fn lemma_dead_slot_omitted(slots: Seq<WidgetSlot>, i: int, projection: Affine2)
    requires
        0 <= i < slots.len(),
        slots[i].widget is None,
    ensures
        frame_cmds_spec(slots, projection) == frame_cmds_spec(slots.remove(i), projection),
    decreases slots.len(),
{
    if i == 0 {
        assert(slots.remove(0) =~= slots.skip(1));
        assert(slot_cmds_spec(slots[0], projection) =~= Seq::<DrawCmd>::empty());
        assert(frame_cmds_spec(slots, projection) =~= frame_cmds_spec(slots.skip(1), projection));
    } else {
        assert(slots.remove(i)[0] == slots[0]);
        assert(slots.remove(i).skip(1) =~= slots.skip(1).remove(i - 1));
        assert(slots.skip(1)[i - 1] == slots[i]);
        lemma_dead_slot_omitted(slots.skip(1), i - 1, projection);
    }
}

/// The Gui: renderer, window dimensions, projection, widget registry
/// and the id counter.
pub struct Gui {
    /// The shared text renderer.
    pub text_renderer: TextRenderer,
    /// Framebuffer width in pixels.
    pub width: u32,
    /// Framebuffer height in pixels.
    pub height: u32,
    /// The screen-space orthographic projection.
    pub projection: Affine2,
    /// The widget registry.
    pub widget_set: WidgetSet,
    /// Next widget id to hand out.
    pub next_id: u64,
}

impl Gui {
    /// Everything the draw pass relies on: a valid projection for the
    /// current dimensions, a well-formed renderer, and every live
    /// widget within the transform pipeline's range.
    pub open spec fn wf(self) -> bool {
        &&& self.text_renderer.wf()
        &&& 1 <= self.width <= 0x10000
        &&& 1 <= self.height <= 0x10000
        &&& self.projection == ortho_spec(self.width as int, self.height as int, 0)
        &&& projection_bounded(self.projection)
        &&& forall|i: int|
            0 <= i < self.widget_set.slots@.len() ==> match (
            #[trigger] self.widget_set.slots@[i]).widget {
                Some(w) => w.transform_wf(),
                None => true,
            }
    }

    /// A fresh Gui over a framebuffer of the given pixel dimensions:
    /// empty registry, projection already computed, as if resized once
    /// at construction.
    pub fn new(width: u32, height: u32) -> (r: Gui)
        requires
            1 <= width <= 0x10000,
            1 <= height <= 0x10000,
        ensures
            r.wf(),
            r.width == width,
            r.height == height,
            r.widget_set.slots@.len() == 0,
            r.next_id == 0,
            r.text_renderer.faces() == 0,
            r.text_renderer.cache.entries_view().len() == 0,
    {
        let projection = Affine2::ortho(width as i64, height as i64, 0);
        Gui {
            text_renderer: TextRenderer::new(),
            width,
            height,
            projection,
            widget_set: WidgetSet { slots: Vec::new() },
            next_id: 0,
        }
    }

    /// Recomputes the dimensions and the orthographic projection; the
    /// event-loop collaborator calls this on every framebuffer resize.
    pub fn resize(&mut self, width: u32, height: u32)
        requires
            old(self).wf(),
            1 <= width <= 0x10000,
            1 <= height <= 0x10000,
        ensures
            final(self).wf(),
            final(self).width == width,
            final(self).height == height,
            final(self).projection == ortho_spec(width as int, height as int, 0),
            final(self).widget_set == old(self).widget_set,
            final(self).text_renderer == old(self).text_renderer,
            final(self).next_id == old(self).next_id,
    {
        let projection = Affine2::ortho(width as i64, height as i64, 0);
        self.width = width;
        self.height = height;
        self.projection = projection;
    }

    /// Registers the outcome of loading a face through the external
    /// font library.
    pub fn load_face(&mut self, loaded: Result<(), FontError>) -> (r: Result<usize, FontError>)
        requires
            old(self).wf(),
            old(self).text_renderer.faces() < 0x8000_0000,
        ensures
            final(self).wf(),
            final(self).widget_set == old(self).widget_set,
            final(self).text_renderer.cache == old(self).text_renderer.cache,
            match loaded {
                Ok(()) => r == Ok::<usize, FontError>(old(self).text_renderer.faces() as usize)
                    && final(self).text_renderer.faces() == old(self).text_renderer.faces() + 1,
                Err(e) => r == Err::<usize, FontError>(e) && final(self).text_renderer.faces()
                    == old(self).text_renderer.faces(),
            },
    {
        self.text_renderer.load_face(loaded)
    }

    fn make_id(&mut self) -> (r: u64)
        requires
            old(self).next_id < 0xFFFF_FFFF_FFFF_FFFF,
        ensures
            r == old(self).next_id,
            final(self).next_id == old(self).next_id + 1,
            final(self).text_renderer == old(self).text_renderer,
            final(self).widget_set == old(self).widget_set,
            final(self).width == old(self).width,
            final(self).height == old(self).height,
            final(self).projection == old(self).projection,
    {
        let id = self.next_id;
        self.next_id = self.next_id + 1;
        id
    }

    /// Creates a label widget: a default 16 by 16 placeholder texture
    /// and quad, placeholder text, white tint, wrapped in a fresh
    /// widget under a fresh id and registered live in the set.  The id
    /// is the handle the caller keeps.
    pub fn create_label(&mut self, face_index: usize) -> (r: u64)
        requires
            old(self).wf(),
            face_index < old(self).text_renderer.faces(),
            old(self).next_id < 0xFFFF_FFFF_FFFF_FFFF,
            old(self).text_renderer.targets() < 0xFFFF_FFFF_FFFF_FFFF,
        ensures
            final(self).wf(),
            r == old(self).next_id,
            final(self).next_id == old(self).next_id + 1,
            final(self).text_renderer.cache == old(self).text_renderer.cache,
            final(self).text_renderer.faces() == old(self).text_renderer.faces(),
            final(self).widget_set.slots@.len() == old(self).widget_set.slots@.len() + 1,
            final(self).widget_set.slots@.last().id == r,
            final(self).widget_set.slots@.last().widget matches Some(w) && w.id == r
                && w.item.face_index == face_index && w.item.size == 16 && w.visible,
            forall|i: int|
                0 <= i < old(self).widget_set.slots@.len() ==> final(self).widget_set.slots@[i]
                    == old(self).widget_set.slots@[i],
    {
        let target = self.text_renderer.alloc_target();
        let mut text: Vec<char> = Vec::new();
        text.push('l');
        text.push('a');
        text.push('b');
        text.push('e');
        text.push('l');
        let label = Label {
            face_index,
            size: 16,
            text,
            color: ColorFp { red: 0x1_0000, green: 0x1_0000, blue: 0x1_0000, alpha: 0x1_0000 },
            texture: TextureInfo { id: target, width: 16, height: 16 },
            quad: (16, 16),
            composition: Vec::new(),
        };
        let id = self.make_id();
        let widget = Widget::new(label, id);
        self.widget_set.slots.push(WidgetSlot { id, widget: Some(widget) });
        id
    }

    /// Drops the widget under `id`: the model of every strong handle
    /// going away.  The slot stays as a dead entry; the draw pass will
    /// skip it.  Returns whether a live widget was found.
    pub fn drop_widget(&mut self, id: u64) -> (r: bool)
        requires
            old(self).wf(),
        ensures
            final(self).wf(),
            final(self).widget_set.slots@.len() == old(self).widget_set.slots@.len(),
            forall|i: int|
                0 <= i < old(self).widget_set.slots@.len() ==> {
                    let before = old(self).widget_set.slots@[i];
                    let after = #[trigger] final(self).widget_set.slots@[i];
                    after.id == before.id && (before.id != id ==> after == before) && (before.id
                        == id ==> after.widget is None)
                },
            final(self).text_renderer == old(self).text_renderer,
            final(self).projection == old(self).projection,
            final(self).next_id == old(self).next_id,
            r <==> exists|i: int|
                0 <= i < old(self).widget_set.slots@.len() && (#[trigger] old(
                    self,
                ).widget_set.slots@[i]).id == id && old(self).widget_set.slots@[i].widget is Some,
    {
        let n = self.widget_set.slots.len();
        let mut found = false;
        let mut i: usize = 0;
        while i < n
            invariant
                n == self.widget_set.slots@.len(),
                0 <= i <= n,
                self.wf(),
                self.text_renderer == old(self).text_renderer,
                self.projection == old(self).projection,
                self.next_id == old(self).next_id,
                self.width == old(self).width,
                self.height == old(self).height,
                n == old(self).widget_set.slots@.len(),
                forall|j: int|
                    0 <= j < n ==> (#[trigger] self.widget_set.slots@[j]).id == old(
                        self,
                    ).widget_set.slots@[j].id,
                forall|j: int|
                    i <= j < n ==> self.widget_set.slots@[j] == old(self).widget_set.slots@[j],
                forall|j: int|
                    0 <= j < i ==> (old(self).widget_set.slots@[j].id != id ==> (
                    #[trigger] self.widget_set.slots@[j]) == old(self).widget_set.slots@[j]) && (
                    old(self).widget_set.slots@[j].id == id
                        ==> self.widget_set.slots@[j].widget is None),
                found <==> exists|j: int|
                    0 <= j < i && (#[trigger] old(self).widget_set.slots@[j]).id == id && old(
                        self,
                    ).widget_set.slots@[j].widget is Some,
            decreases n - i,
        {
            if self.widget_set.slots[i].id == id {
                let mut slot = self.widget_set.slots.remove(i);
                if slot.widget.is_some() {
                    found = true;
                }
                slot.widget = None;
                self.widget_set.slots.insert(i, slot);
            }
            i = i + 1;
        }
        found
    }

    /// Draws one frame: clears to the fixed background color, then
    /// walks the registry in order, drawing each live, visible widget
    /// under the current projection and skipping dead entries.  The
    /// driver replays the returned commands against the GPU and
    /// presents.
    pub fn draw_frame(&self) -> (frame: Frame)
        requires
            self.wf(),
        ensures
            frame.clear_color == clear_color_spec(),
            frame.cmds@ == frame_cmds_spec(self.widget_set.slots@, self.projection),
    {
        let mut frame = Frame {
            clear_color: ColorFp { red: 19661, green: 19661, blue: 19661, alpha: 0x1_0000 },
            cmds: Vec::new(),
        };
        let n = self.widget_set.slots.len();
        let mut i: usize = 0;
        proof {
            assert(self.widget_set.slots@.take(0) =~= Seq::<WidgetSlot>::empty());
        }
        while i < n
            invariant
                self.wf(),
                n == self.widget_set.slots@.len(),
                0 <= i <= n,
                frame.clear_color == clear_color_spec(),
                frame.cmds@ == frame_cmds_spec(self.widget_set.slots@.take(i as int), self.projection),
            decreases n - i,
        {
            proof {
                assert(self.widget_set.slots@.take(i as int + 1) =~= self.widget_set.slots@.take(
                    i as int,
                ).push(self.widget_set.slots@[i as int]));
                lemma_frame_cmds_snoc(
                    self.widget_set.slots@.take(i as int),
                    self.widget_set.slots@[i as int],
                    self.projection,
                );
            }
            match &self.widget_set.slots[i].widget {
                Some(w) => {
                    w.draw(&mut frame, &self.projection);
                },
                None => {
                    proof {
                        assert(frame.cmds@ + slot_cmds_spec(
                            self.widget_set.slots@[i as int],
                            self.projection,
                        ) =~= frame.cmds@);
                    }
                },
            }
            i = i + 1;
        }
        proof {
            assert(self.widget_set.slots@.take(n as int) =~= self.widget_set.slots@);
        }
        frame
    }
}

} // verus!

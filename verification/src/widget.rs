//! Widgets: positionable, scalable, rotatable containers around any
//! drawable item.
//!
//! A widget owns exactly one drawable payload plus its transform state.
//! Drawing composes the model transform
//! translate(position) * scale * rotate * translate(anchor) -- the anchor
//! translation last, so rotation and scale pivot around the item's own
//! origin -- multiplies it under the caller's projection and delegates to
//! the item.  An invisible widget draws nothing.

use vstd::prelude::*;
use crate::fixed::FP_ONE;
use crate::render::{DrawCmd, Frame};
use crate::transform::{Affine2, model_spec, mult_spec, projection_bounded};

verus! {

/// Anything a widget can carry: it reports an anchor within 32768
/// pixels of its origin and appends its draw commands for a transform.
pub trait Drawable {
    /// The draw commands the item emits under a transform.
    spec fn cmds_spec(&self, matrix: Affine2) -> Seq<DrawCmd>;

    /// The item's local anchor point, fixed point.
    spec fn anchor_spec(&self) -> (i64, i64);

    /// The local-space pivot the widget transform translates by last.
    fn anchor_pos(&self) -> (r: (i64, i64))
        ensures
            r == self.anchor_spec(),
            -0x8000_0000 <= r.0 <= 0x8000_0000,
            -0x8000_0000 <= r.1 <= 0x8000_0000,
    ;

    /// Appends the item's draw commands for `matrix` to the frame,
    /// leaving everything already recorded in place.
    fn draw(&self, frame: &mut Frame, matrix: &Affine2)
        ensures
            final(frame).clear_color == old(frame).clear_color,
            final(frame).cmds@ == old(frame).cmds@ + self.cmds_spec(*matrix),
    ;
}

/// A drawable item with transform state: whole-pixel position,
/// fixed-point non-uniform scale, a rotation carried as its fixed-point
/// cosine and sine, and a visibility flag.
pub struct Widget<T> {
    /// Process-unique widget identifier.
    pub id: u64,
    /// The drawable payload.
    pub item: T,
    /// Position in whole pixels.
    pub pos: (i32, i32),
    /// Non-uniform scale, 1/65536 units.
    pub scale: (i64, i64),
    /// Rotation about the screen normal as (cosine, sine), 1/65536
    /// units; (65536, 0) is no rotation.
    pub rotation: (i64, i64),
    /// Whether the draw pass renders this widget at all.
    pub visible: bool,
}

impl<T> Widget<T> {
    /// Transform state within the fixed-point pipeline's range:
    /// positions within a million pixels, scale factors within 2048,
    /// rotation entries within the unit circle's fixed-point box.
    pub open spec fn transform_wf(self) -> bool {
        &&& -0x10_0000 <= self.pos.0 <= 0x10_0000
        &&& -0x10_0000 <= self.pos.1 <= 0x10_0000
        &&& -0x800_0000 <= self.scale.0 <= 0x800_0000
        &&& -0x800_0000 <= self.scale.1 <= 0x800_0000
        &&& -0x1_0000 <= self.rotation.0 <= 0x1_0000
        &&& -0x1_0000 <= self.rotation.1 <= 0x1_0000
    }

    /// A fresh widget around `item`: at the origin, unscaled,
    /// unrotated, visible.
    pub fn new(item: T, id: u64) -> (r: Widget<T>)
        ensures
            r.id == id,
            r.item == item,
            r.pos == (0i32, 0i32),
            r.scale == (FP_ONE as i64, FP_ONE as i64),
            r.rotation == (FP_ONE as i64, 0i64),
            r.visible == true,
            r.transform_wf(),
    {
        Widget {
            id,
            item,
            pos: (0, 0),
            scale: (FP_ONE, FP_ONE),
            rotation: (FP_ONE, 0),
            visible: true,
        }
    }

    /// Moves the widget to `(x, y)` whole pixels.
    pub fn set_pos(&mut self, x: i32, y: i32)
        requires
            -0x10_0000 <= x <= 0x10_0000,
            -0x10_0000 <= y <= 0x10_0000,
        ensures
            *final(self) == (Widget { pos: (x, y), ..*old(self) }),
    {
        self.pos = (x, y);
    }

    /// Sets the fixed-point scale factors.
    pub fn set_scale(&mut self, x: i64, y: i64)
        requires
            -0x800_0000 <= x <= 0x800_0000,
            -0x800_0000 <= y <= 0x800_0000,
        ensures
            *final(self) == (Widget { scale: (x, y), ..*old(self) }),
    {
        self.scale = (x, y);
    }

    /// The widget's position in whole pixels.
    pub fn pos(&self) -> (r: (i32, i32))
        ensures
            r == self.pos,
    {
        self.pos
    }

    /// The widget's fixed-point scale factors.
    pub fn scale(&self) -> (r: (i64, i64))
        ensures
            r == self.scale,
    {
        self.scale
    }

    /// Read access to the wrapped item.
    pub fn item(&self) -> (r: &T)
        ensures
            *r == self.item,
    {
        &self.item
    }
}

/// What one widget contributes to a frame: nothing if invisible,
/// otherwise its item's commands under projection times model
/// transform.
pub open spec fn widget_cmds_spec<T: Drawable>(w: Widget<T>, projection: Affine2) -> Seq<
    DrawCmd,
> {
    if !w.visible {
        Seq::empty()
    } else {
        w.item.cmds_spec(
            mult_spec(
                projection,
                model_spec(
                    w.pos.0 as int,
                    w.pos.1 as int,
                    w.scale.0 as int,
                    w.scale.1 as int,
                    w.rotation.0 as int,
                    w.rotation.1 as int,
                    w.item.anchor_spec().0 as int,
                    w.item.anchor_spec().1 as int,
                ),
            ),
        )
    }
}

impl<T: Drawable> Widget<T> {
    /// Draws the widget: skipped entirely when invisible; otherwise the
    /// model transform is composed as
    /// translate(position) * scale * rotate * translate(anchor),
    /// multiplied under the projection, and handed to the item.
    pub fn draw(&self, frame: &mut Frame, projection: &Affine2)
        requires
            self.transform_wf(),
            projection_bounded(*projection),
        ensures
            final(frame).clear_color == old(frame).clear_color,
            final(frame).cmds@ == old(frame).cmds@ + widget_cmds_spec(*self, *projection),
    {
        if !self.visible {
            proof {
                assert(old(frame).cmds@ + widget_cmds_spec(*self, *projection) =~= old(
                    frame,
                ).cmds@);
            }
            return ;
        }
        let (anchor_x, anchor_y) = self.item.anchor_pos();
        let model = Affine2::model(
            self.pos.0,
            self.pos.1,
            self.scale.0,
            self.scale.1,
            self.rotation.0,
            self.rotation.1,
            anchor_x,
            anchor_y,
        );
        let mvp = projection.mult(&model);
        self.item.draw(frame, &mvp);
    }
}

} // verus!

use vstd::prelude::*;

use crate::geometry::{Point, Rect, Size};
use crate::text::{Color, FontDescriptor};

verus! {

/// Style values that widgets look up by key at layout and paint time.
#[derive(Clone, Copy, Debug, PartialEq, Eq, Structural)]
pub struct Env {
    pub text_color: Color,
    pub disabled_text_color: Color,
    pub ui_font: FontDescriptor,
    pub text_size: u32,
}

/// A pointer event, with its position in the widget's coordinate space.
#[derive(Clone, Copy, Debug, PartialEq, Eq, Structural)]
pub struct MouseEvent {
    pub pos: Point,
}

/// An input event delivered to a widget.
#[derive(Clone, Copy, Debug, PartialEq, Eq, Structural)]
pub enum Event {
    MouseDown(MouseEvent),
    MouseUp(MouseEvent),
    MouseMove(MouseEvent),
}

/// A notification of a change in the widget tree or in the widget's state.
#[derive(Clone, Copy, Debug, PartialEq, Eq, Structural)]
pub enum LifeCycle {
    WidgetAdded,
    DisabledChanged(bool),
}

/// A change in how the widget relates to the pointer and the focus.
#[derive(Clone, Copy, Debug, PartialEq, Eq, Structural)]
pub enum StatusChange {
    HotChanged(bool),
    FocusChanged(bool),
}

/// The cursor that a widget asks for.
#[derive(Clone, Copy, Debug, PartialEq, Eq, Structural)]
pub enum CursorIcon {
    Arrow,
    Pointer,
}

/// What an event pass lets a widget ask of the framework.
#[derive(Clone, Copy, Debug, PartialEq, Eq, Structural)]
pub struct EventCtx {
    /// The cursor the widget asked for; `None` once it cleared its request.
    pub cursor: Option<CursorIcon>,
    pub layout_requested: bool,
}

impl EventCtx {
    pub fn new() -> (r: EventCtx)
        ensures
            r.cursor == None::<CursorIcon>,
            !r.layout_requested,
    {
        EventCtx { cursor: None, layout_requested: false }
    }

    pub fn set_cursor(&mut self, cursor: CursorIcon)
        ensures
            *final(self) == (EventCtx { cursor: Some(cursor), ..*old(self) }),
    {
        self.cursor = Some(cursor);
    }

    pub fn clear_cursor(&mut self)
        ensures
            *final(self) == (EventCtx { cursor: None, ..*old(self) }),
    {
        self.cursor = None;
    }
}

/// What a lifecycle pass lets a widget ask of the framework.
#[derive(Clone, Copy, Debug, PartialEq, Eq, Structural)]
pub struct LifeCycleCtx {
    pub layout_requested: bool,
}

impl LifeCycleCtx {
    pub fn new() -> (r: LifeCycleCtx)
        ensures
            !r.layout_requested,
    {
        LifeCycleCtx { layout_requested: false }
    }

    pub fn request_layout(&mut self)
        ensures
            final(self).layout_requested,
    {
        self.layout_requested = true;
    }
}

/// What a layout pass records for the widget being laid out.
#[derive(Clone, Copy, Debug, PartialEq, Eq, Structural)]
pub struct LayoutCtx {
    /// The distance from the bottom of the widget up to its first baseline.
    pub baseline_offset: i64,
}

impl LayoutCtx {
    pub fn new() -> (r: LayoutCtx)
        ensures
            r.baseline_offset == 0,
    {
        LayoutCtx { baseline_offset: 0 }
    }

    pub fn set_baseline_offset(&mut self, offset: i64)
        ensures
            final(self).baseline_offset == offset,
    {
        self.baseline_offset = offset;
    }
}

/// A drawing operation, in the order it was issued.
#[derive(Clone, Debug)]
pub enum PaintOp {
    /// Restricts all later drawing to the rectangle.
    Clip(Rect),
    /// Draws laid-out text with its top left corner at the origin.
    DrawText { text: String, origin: Point },
    /// Saves the clip and transform, for the matching `Restore`.
    Save,
    /// Moves the origin of all later drawing by the offset.
    Translate(Point),
    /// Brings back the clip and transform of the matching `Save`.
    Restore,
}

/// A non-fatal problem noticed during a pass.
#[derive(Clone, Copy, Debug, PartialEq, Eq, Structural)]
pub enum Diagnostic {
    /// A label's text was changed and no update followed before paint, so
    /// the text on screen is stale.
    StaleLabelText,
}

/// The paint pass of one widget: its size, and the operations and
/// diagnostics it issued so far.
pub struct PaintCtx {
    pub size: Size,
    pub ops: Vec<PaintOp>,
    pub diagnostics: Vec<Diagnostic>,
}

/// Whether `op` draws the text `text` at `origin`.
pub open spec fn draws_text(op: PaintOp, text: Seq<char>, origin: Point) -> bool {
    match op {
        PaintOp::DrawText { text: t, origin: o } => t@ == text && o == origin,
        _ => false,
    }
}

impl PaintCtx {
    /// A paint pass for a widget of `size`, with nothing issued yet.
    pub fn new(size: Size) -> (r: PaintCtx)
        ensures
            r.size == size,
            r.ops@.len() == 0,
            r.diagnostics@.len() == 0,
    {
        PaintCtx { size, ops: Vec::new(), diagnostics: Vec::new() }
    }

    /// The size of the widget being painted.
    pub fn size(&self) -> (r: Size)
        ensures
            r == self.size,
    {
        self.size
    }

    /// Restricts later drawing to `rect`.
    pub fn clip(&mut self, rect: Rect)
        ensures
            final(self).size == old(self).size,
            final(self).diagnostics@ == old(self).diagnostics@,
            final(self).ops@ == old(self).ops@.push(PaintOp::Clip(rect)),
    {
        self.ops.push(PaintOp::Clip(rect));
    }

    /// Draws `text` with its top left corner at `origin`.
    pub fn draw_text(&mut self, text: String, origin: Point)
        ensures
            final(self).size == old(self).size,
            final(self).diagnostics@ == old(self).diagnostics@,
            final(self).ops@.len() == old(self).ops@.len() + 1,
            final(self).ops@.take(old(self).ops@.len() as int) == old(self).ops@,
            draws_text(final(self).ops@.last(), text@, origin),
    {
        self.ops.push(PaintOp::DrawText { text, origin });
        assert(self.ops@.take(old(self).ops@.len() as int) =~= old(self).ops@);
    }

    /// Reports a non-fatal problem.
    pub fn report(&mut self, diagnostic: Diagnostic)
        ensures
            final(self).size == old(self).size,
            final(self).ops@ == old(self).ops@,
            final(self).diagnostics@ == old(self).diagnostics@.push(diagnostic),
    {
        self.diagnostics.push(diagnostic);
    }
}

} // verus!

//! The wrapper through which a container reaches each child: it caches the
//! child's layout, places it, and passes events, notifications and paint on
//! only where they concern the child.

use vstd::prelude::*;

use crate::contexts::{
    Diagnostic, Env, Event, EventCtx, LayoutCtx, LifeCycle, LifeCycleCtx, MouseEvent, PaintCtx, PaintOp,
};
use crate::geometry::{BoxConstraints, Point, Rect, Size};
use crate::text::TextEngine;
use crate::widget::{Widget, WidgetId, WidgetState};

verus! {

/// The pointer position of `event`.
pub open spec fn pointer_pos(event: Event) -> Point {
    match event {
        Event::MouseDown(e) => e.pos,
        Event::MouseUp(e) => e.pos,
        Event::MouseMove(e) => e.pos,
    }
}

/// A child widget together with the state its container caches for it.
pub struct WidgetPod<W> {
    state: WidgetState,
    size: Size,
    baseline_offset: i64,
    /// The constraints of the last layout of the child, if any.
    last_constraints: Option<BoxConstraints>,
    inner: W,
}

impl<W: Widget> WidgetPod<W> {
    /// The child's rectangle is no larger than a `Size` can say, and the
    /// cached size lies within the constraints it was laid out in.
    pub open spec fn wf(&self) -> bool {
        &&& 0 <= self.state_spec().layout_rect.x1 - self.state_spec().layout_rect.x0 <= u32::MAX
        &&& 0 <= self.state_spec().layout_rect.y1 - self.state_spec().layout_rect.y0 <= u32::MAX
        &&& match self.last_constraints_spec() {
            Some(b) => b.wf() ==> b.fits(self.size_spec()),
            None => true,
        }
    }

    pub closed spec fn state_spec(&self) -> WidgetState {
        self.state
    }

    /// The size from the child's last layout.
    pub closed spec fn size_spec(&self) -> Size {
        self.size
    }

    /// The baseline offset from the child's last layout.
    pub closed spec fn baseline_offset_spec(&self) -> i64 {
        self.baseline_offset
    }

    pub closed spec fn last_constraints_spec(&self) -> Option<BoxConstraints> {
        self.last_constraints
    }

    pub closed spec fn widget_spec(&self) -> W {
        self.inner
    }

    /// The origin of the child in its container's space.
    pub open spec fn origin_spec(&self) -> Point {
        Point { x: self.state_spec().layout_rect.x0, y: self.state_spec().layout_rect.y0 }
    }

    /// Wraps `inner`, which has not been laid out yet, under `id`.
    pub fn new(inner: W, id: WidgetId) -> (r: WidgetPod<W>)
        ensures
            r.state_spec() == (WidgetState {
                id,
                layout_rect: Rect { x0: 0, y0: 0, x1: 0, y1: 0 },
                needs_layout: true,
                needs_paint: true,
            }),
            r.size_spec() == (Size { width: 0, height: 0 }),
            r.baseline_offset_spec() == 0,
            r.last_constraints_spec() is None,
            r.widget_spec() == inner,
            r.wf(),
    {
        WidgetPod {
            state: WidgetState::new(id),
            size: Size::new(0, 0),
            baseline_offset: 0,
            last_constraints: None,
            inner,
        }
    }

    pub fn id(&self) -> (r: WidgetId)
        ensures
            r == self.state_spec().id,
    {
        self.state.id
    }

    /// The state that the container caches for the child.
    pub fn state(&self) -> (r: WidgetState)
        ensures
            r == self.state_spec(),
    {
        self.state
    }

    /// The rectangle of the child in its container's space.
    pub fn layout_rect(&self) -> (r: Rect)
        ensures
            r == self.state_spec().layout_rect,
    {
        self.state.layout_rect
    }

    /// The offset of the child's first baseline from its bottom.
    pub fn baseline_offset(&self) -> (r: i64)
        ensures
            r == self.baseline_offset_spec(),
    {
        self.baseline_offset
    }

    /// The child widget.
    pub fn widget(&self) -> (r: &W)
        ensures
            *r == self.widget_spec(),
    {
        &self.inner
    }

    /// Lays the child out within `bc`, unless it was laid out within `bc`
    /// already and nothing asked for a new layout since: then the cached
    /// size is returned and the child is not called.
    pub fn layout<E: TextEngine>(&mut self, engine: &mut E, bc: &BoxConstraints, env: &Env) -> (r: Size)
        requires
            old(self).wf(),
        ensures
            final(self).wf(),
            !old(self).state_spec().needs_layout && old(self).last_constraints_spec() == Some(*bc)
                ==> *final(self) == *old(self),
            final(self).state_spec().id == old(self).state_spec().id,
            final(self).state_spec().layout_rect == old(self).state_spec().layout_rect,
            final(self).last_constraints_spec() == Some(*bc),
            !final(self).state_spec().needs_layout,
            old(self).state_spec().needs_paint ==> final(self).state_spec().needs_paint,
            old(self).state_spec().needs_layout || old(self).last_constraints_spec() != Some(*bc)
                ==> final(self).state_spec().needs_paint,
            r == final(self).size_spec(),
            bc.wf() ==> bc.fits(r),
            old(self).state_spec().needs_layout || old(self).last_constraints_spec() != Some(*bc)
                ==> W::layout_post(
                old(self).widget_spec(),
                final(self).widget_spec(),
                LayoutCtx { baseline_offset: 0 },
                LayoutCtx { baseline_offset: final(self).baseline_offset_spec() },
                *bc,
                r,
            ),
    {
        let cached = match self.last_constraints {
            Some(last) => !self.state.needs_layout && last == *bc,
            None => false,
        };
        if cached {
            return self.size;
        }
        let mut child_ctx = LayoutCtx::new();
        let size = self.inner.layout(&mut child_ctx, engine, bc, env);
        self.record_layout(*bc, size, child_ctx);
        size
    }

    /// Places the child with its top left corner at `origin`, in the
    /// container's space, keeping the size of its last layout.
    pub fn set_origin(&mut self, origin: Point)
        requires
            old(self).wf(),
            origin.x + old(self).size_spec().width <= i64::MAX,
            origin.y + old(self).size_spec().height <= i64::MAX,
        ensures
            final(self).wf(),
            final(self).state_spec() == (WidgetState {
                layout_rect: Rect {
                    x0: origin.x,
                    y0: origin.y,
                    x1: (origin.x + old(self).size_spec().width) as i64,
                    y1: (origin.y + old(self).size_spec().height) as i64,
                },
                ..old(self).state_spec()
            }),
            final(self).size_spec() == old(self).size_spec(),
            final(self).baseline_offset_spec() == old(self).baseline_offset_spec(),
            final(self).last_constraints_spec() == old(self).last_constraints_spec(),
            final(self).widget_spec() == old(self).widget_spec(),
    {
        self.state.layout_rect = Rect {
            x0: origin.x,
            y0: origin.y,
            x1: origin.x + self.size.width as i64,
            y1: origin.y + self.size.height as i64,
        };
    }

    /// Records a fresh layout of the child: its size within `bc` and the
    /// baseline offset it set on `child`.
    fn record_layout(&mut self, bc: BoxConstraints, size: Size, child: LayoutCtx)
        requires
            old(self).wf(),
            bc.wf() ==> bc.fits(size),
        ensures
            final(self).wf(),
            final(self).state_spec() == (WidgetState {
                needs_layout: false,
                needs_paint: true,
                ..old(self).state_spec()
            }),
            final(self).size_spec() == size,
            final(self).baseline_offset_spec() == child.baseline_offset,
            final(self).last_constraints_spec() == Some(bc),
            final(self).widget_spec() == old(self).widget_spec(),
    {
        self.size = size;
        self.baseline_offset = child.baseline_offset;
        self.last_constraints = Some(bc);
        self.state.needs_layout = false;
        self.state.needs_paint = true;
    }

    /// Takes back what the child did with its event context: its cursor
    /// reaches `ctx`, and a layout it asked for marks the child and reaches
    /// `ctx`.
    pub fn merge_event_ctx(&mut self, ctx: &mut EventCtx, child: EventCtx)
        requires
            old(self).wf(),
        ensures
            final(self).wf(),
            final(ctx).cursor == child.cursor,
            final(ctx).layout_requested == (old(ctx).layout_requested || child.layout_requested),
            final(self).state_spec() == (WidgetState {
                needs_layout: old(self).state_spec().needs_layout || child.layout_requested,
                ..old(self).state_spec()
            }),
            final(self).size_spec() == old(self).size_spec(),
            final(self).baseline_offset_spec() == old(self).baseline_offset_spec(),
            final(self).last_constraints_spec() == old(self).last_constraints_spec(),
            final(self).widget_spec() == old(self).widget_spec(),
    {
        ctx.cursor = child.cursor;
        if child.layout_requested {
            self.state.needs_layout = true;
            ctx.layout_requested = true;
        }
    }

    /// Takes back whether the child asked for a layout during a lifecycle
    /// notification: if so, it is marked and the request reaches `ctx`.
    pub fn merge_layout_request(&mut self, ctx: &mut LifeCycleCtx, requested: bool)
        requires
            old(self).wf(),
        ensures
            final(self).wf(),
            final(ctx).layout_requested == (old(ctx).layout_requested || requested),
            final(self).state_spec() == (WidgetState {
                needs_layout: old(self).state_spec().needs_layout || requested,
                ..old(self).state_spec()
            }),
            final(self).size_spec() == old(self).size_spec(),
            final(self).baseline_offset_spec() == old(self).baseline_offset_spec(),
            final(self).last_constraints_spec() == old(self).last_constraints_spec(),
            final(self).widget_spec() == old(self).widget_spec(),
    {
        if requested {
            self.state.needs_layout = true;
            ctx.request_layout();
        }
    }

    /// Passes a pointer event on to the child only where the pointer is
    /// inside the child's rectangle, moved into the child's space by
    /// `child_event`, with a context that starts from the cursor of `ctx`.
    /// What the child did comes back through `merge_event_ctx`.
    pub fn on_event(&mut self, ctx: &mut EventCtx, event: &Event, env: &Env)
        requires
            old(self).wf(),
        ensures
            final(self).wf(),
            !old(self).state_spec().layout_rect.contains_spec(pointer_pos(*event)) ==> {
                &&& *final(self) == *old(self)
                &&& *final(ctx) == *old(ctx)
            },
            old(self).state_spec().layout_rect.contains_spec(pointer_pos(*event)) ==> exists|
                c: EventCtx,
            |
                {
                    &&& #[trigger] W::event_post(
                        old(self).widget_spec(),
                        final(self).widget_spec(),
                        EventCtx { cursor: old(ctx).cursor, layout_requested: false },
                        c,
                        child_event_spec(*event, old(self).state_spec().layout_rect),
                    )
                    &&& final(ctx).cursor == c.cursor
                    &&& final(ctx).layout_requested == merged(old(ctx).layout_requested, c.layout_requested)
                    &&& final(self).state_spec().needs_layout == merged(
                        old(self).state_spec().needs_layout,
                        c.layout_requested,
                    )
                },
            final(self).state_spec().id == old(self).state_spec().id,
            final(self).state_spec().layout_rect == old(self).state_spec().layout_rect,
            final(self).state_spec().needs_paint == old(self).state_spec().needs_paint,
            final(self).size_spec() == old(self).size_spec(),
            final(self).baseline_offset_spec() == old(self).baseline_offset_spec(),
            final(self).last_constraints_spec() == old(self).last_constraints_spec(),
    {
        let pos = match event {
            Event::MouseDown(e) => e.pos,
            Event::MouseUp(e) => e.pos,
            Event::MouseMove(e) => e.pos,
        };
        if !self.state.layout_rect.contains(pos) {
            return;
        }
        let child_event = child_event(event, self.state.layout_rect);
        let mut child_ctx = EventCtx { cursor: ctx.cursor, layout_requested: false };
        let ghost ctx_in = child_ctx;
        self.inner.on_event(&mut child_ctx, &child_event, env);
        self.merge_event_ctx(ctx, child_ctx);
        assert(W::event_post(
            old(self).widget_spec(),
            self.widget_spec(),
            ctx_in,
            child_ctx,
            child_event_spec(*event, old(self).state_spec().layout_rect),
        ));
    }

    /// Passes a lifecycle notification on to the child with a fresh context;
    /// whether it asked for a layout comes back through
    /// `merge_layout_request`.
    pub fn lifecycle(&mut self, ctx: &mut LifeCycleCtx, event: &LifeCycle, env: &Env)
        requires
            old(self).wf(),
        ensures
            final(self).wf(),
            exists|c: LifeCycleCtx|
                {
                    &&& #[trigger] W::lifecycle_post(
                        old(self).widget_spec(),
                        final(self).widget_spec(),
                        LifeCycleCtx { layout_requested: false },
                        c,
                        *event,
                    )
                    &&& final(ctx).layout_requested == merged(old(ctx).layout_requested, c.layout_requested)
                    &&& final(self).state_spec().needs_layout == merged(
                        old(self).state_spec().needs_layout,
                        c.layout_requested,
                    )
                },
            final(self).state_spec().id == old(self).state_spec().id,
            final(self).state_spec().layout_rect == old(self).state_spec().layout_rect,
            final(self).state_spec().needs_paint == old(self).state_spec().needs_paint,
            final(self).size_spec() == old(self).size_spec(),
            final(self).baseline_offset_spec() == old(self).baseline_offset_spec(),
            final(self).last_constraints_spec() == old(self).last_constraints_spec(),
    {
        let mut child_ctx = LifeCycleCtx::new();
        let ghost ctx_in = child_ctx;
        assert(ctx_in == LifeCycleCtx { layout_requested: false });
        self.inner.lifecycle(&mut child_ctx, event, env);
        self.merge_layout_request(ctx, child_ctx.layout_requested);
        assert(W::lifecycle_post(old(self).widget_spec(), self.widget_spec(), ctx_in, child_ctx, *event));
    }

    /// Paints the child at its origin: a fresh context of the child's size
    /// goes to the child, and what it issued is spliced into `ctx` by
    /// `splice_child_paint`.
    pub fn paint(&mut self, ctx: &mut PaintCtx, env: &Env)
        requires
            old(self).wf(),
        ensures
            final(self).wf(),
            final(ctx).size == old(ctx).size,
            exists|before: PaintCtx, after: PaintCtx|
                {
                    &&& #[trigger] W::paint_post(old(self).widget_spec(), final(self).widget_spec(), before, after)
                    &&& before.size == old(self).size_spec()
                    &&& before.ops@.len() == 0
                    &&& before.diagnostics@.len() == 0
                    &&& final(ctx).ops@ == spliced_ops(old(ctx).ops@, old(self).origin_spec(), after.ops@)
                    &&& final(ctx).diagnostics@ == old(ctx).diagnostics@ + after.diagnostics@
                },
            final(self).state_spec() == (WidgetState { needs_paint: false, ..old(self).state_spec() }),
            final(self).size_spec() == old(self).size_spec(),
            final(self).baseline_offset_spec() == old(self).baseline_offset_spec(),
            final(self).last_constraints_spec() == old(self).last_constraints_spec(),
    {
        let mut child = PaintCtx::new(self.size);
        let ghost before = child;
        self.inner.paint(&mut child, env);
        let ghost after = child;
        let origin = Point::new(self.state.layout_rect.x0, self.state.layout_rect.y0);
        splice_child_paint(ctx, origin, child);
        self.state.needs_paint = false;
        assert(W::paint_post(old(self).widget_spec(), self.widget_spec(), before, after));
    }
}

/// `ops` followed by a child's operations `child_ops`, between a save of
/// the transform, a move to `origin`, and a restore.
pub open spec fn spliced_ops(ops: Seq<PaintOp>, origin: Point, child_ops: Seq<PaintOp>) -> Seq<PaintOp> {
    ops + seq![PaintOp::Save, PaintOp::Translate(origin)] + child_ops + seq![PaintOp::Restore]
}

/// Whether a flag is set after a request `requested` was merged into it.
pub open spec fn merged(flag: bool, requested: bool) -> bool {
    flag || requested
}

/// `event` with its pointer position replaced by `pos`.
pub open spec fn with_pos(event: Event, pos: Point) -> Event {
    match event {
        Event::MouseDown(_) => Event::MouseDown(MouseEvent { pos }),
        Event::MouseUp(_) => Event::MouseUp(MouseEvent { pos }),
        Event::MouseMove(_) => Event::MouseMove(MouseEvent { pos }),
    }
}

/// The event a child whose rectangle is `rect` receives: `event` with its
/// pointer moved into the child's space.
pub open spec fn child_event_spec(event: Event, rect: Rect) -> Event {
    with_pos(
        event,
        Point { x: (pointer_pos(event).x - rect.x0) as i64, y: (pointer_pos(event).y - rect.y0) as i64 },
    )
}

/// The event a child receives: `event` with its pointer moved into the
/// space of the child whose rectangle is `rect`.
pub fn child_event(event: &Event, rect: Rect) -> (r: Event)
    requires
        rect.contains_spec(pointer_pos(*event)),
        rect.x1 - rect.x0 <= u32::MAX,
        rect.y1 - rect.y0 <= u32::MAX,
    ensures
        r == child_event_spec(*event, rect),
{
    match event {
        Event::MouseDown(e) => Event::MouseDown(MouseEvent { pos: Point::new(e.pos.x - rect.x0, e.pos.y - rect.y0) }),
        Event::MouseUp(e) => Event::MouseUp(MouseEvent { pos: Point::new(e.pos.x - rect.x0, e.pos.y - rect.y0) }),
        Event::MouseMove(e) => Event::MouseMove(MouseEvent { pos: Point::new(e.pos.x - rect.x0, e.pos.y - rect.y0) }),
    }
}

/// Appends what a child painted to `ctx`: its operations between a save of
/// the transform, a move to `origin`, and a restore; its diagnostics after
/// those of `ctx`.
pub fn splice_child_paint(ctx: &mut PaintCtx, origin: Point, child: PaintCtx)
    ensures
        final(ctx).size == old(ctx).size,
        final(ctx).ops@ == spliced_ops(old(ctx).ops@, origin, child.ops@),
        final(ctx).diagnostics@ == old(ctx).diagnostics@ + child.diagnostics@,
{
    let ghost child_ops = child.ops@;
    let mut child = child;
    ctx.ops.push(PaintOp::Save);
    ctx.ops.push(PaintOp::Translate(origin));
    ctx.ops.append(&mut child.ops);
    ctx.ops.push(PaintOp::Restore);
    ctx.diagnostics.append(&mut child.diagnostics);
    assert(ctx.ops@ =~= spliced_ops(old(ctx).ops@, origin, child_ops));
}

} // verus!

use vstd::prelude::*;

use crate::contexts::{Env, Event, EventCtx, LayoutCtx, LifeCycle, LifeCycleCtx, PaintCtx, StatusChange};
use crate::geometry::{first_containing, lemma_first_containing, BoxConstraints, Point, Rect, Size};
use crate::text::TextEngine;
use smallvec::SmallVec;

verus! {

/// The first raw value of the range that `WidgetId::reserved` maps into:
/// `u64::MAX - u16::MAX`.
pub const FIRST_RESERVED: u64 = 0xffff_ffff_ffff_0000;

/// The raw value behind `WidgetId::reserved(raw)`.
pub open spec fn reserved_raw(raw: u16) -> u64 {
    (u64::MAX - raw) as u64
}

/// A unique identifier for a single widget.
///
/// The raw value is never zero, so that zero can stand for "no widget".
/// Automatically issued ids count upwards from one; reserved ids count
/// downwards from `u64::MAX`.
#[derive(Clone, Copy, Debug, PartialEq, Eq, Hash)]
pub struct WidgetId {
    raw: u64,
}

impl WidgetId {
    #[verifier::type_invariant]
    spec fn nonzero(self) -> bool {
        self.raw != 0
    }

    /// The raw value of the id.
    pub closed spec fn raw_spec(self) -> u64 {
        self.raw
    }

    /// How one call of `next` relates the counter before it, the counter
    /// after it and the id issued.
    pub open spec fn next_post(before: WidgetIdCounter, after: WidgetIdCounter, id: WidgetId) -> bool {
        &&& id.raw_spec() == before.next_raw_spec()
        &&& after.next_raw_spec() == before.next_raw_spec() + 1
        &&& id.raw_spec() != 0
        &&& id.raw_spec() < FIRST_RESERVED
        &&& !before.issued().contains(id.raw_spec())
        &&& after.issued() == before.issued().insert(id.raw_spec())
    }

    /// Issues a fresh id from `counter`: one that the counter has not issued
    /// before, and that is nonzero and below the reserved range.
    pub fn next(counter: &mut WidgetIdCounter) -> (r: WidgetId)
        requires
            old(counter).has_room_spec(),
        ensures
            WidgetId::next_post(*old(counter), *final(counter), r),
    {
        proof {
            use_type_invariant(&*counter);
        }
        let raw = counter.next_raw;
        counter.next_raw = raw + 1;
        let r = WidgetId { raw };
        assert(counter.issued() =~= old(counter).issued().insert(raw));
        r
    }

    /// An explicitly chosen id, suitable for reuse: its raw value is
    /// `u64::MAX - raw`. The caller makes sure that only one widget holds it
    /// at a time.
    pub fn reserved(raw: u16) -> (r: WidgetId)
        ensures
            r.raw_spec() == reserved_raw(raw),
    {
        WidgetId { raw: u64::MAX - raw as u64 }
    }

    /// The raw value of the id.
    pub fn to_raw(self) -> (r: u64)
        ensures
            r == self.raw_spec(),
            r != 0,
    {
        proof {
            use_type_invariant(self);
        }
        self.raw
    }
}

/// The source of automatically issued widget ids. It counts upwards from one
/// and stops below the reserved range.
pub struct WidgetIdCounter {
    next_raw: u64,
}

impl WidgetIdCounter {
    #[verifier::type_invariant]
    spec fn in_range(self) -> bool {
        1 <= self.next_raw <= FIRST_RESERVED
    }

    /// The raw value that the counter issues next.
    pub closed spec fn next_raw_spec(self) -> u64 {
        self.next_raw
    }

    /// The raw values that the counter has issued.
    pub open spec fn issued(self) -> Set<u64> {
        Set::new(|r: u64| 1 <= r < self.next_raw_spec() && r < FIRST_RESERVED)
    }

    pub open spec fn has_room_spec(self) -> bool {
        self.next_raw_spec() < FIRST_RESERVED
    }

    /// A counter that has issued nothing.
    pub fn new() -> (r: WidgetIdCounter)
        ensures
            r.issued() == Set::<u64>::empty(),
            r.next_raw_spec() == 1,
    {
        let r = WidgetIdCounter { next_raw: 1 };
        assert(r.issued() =~= Set::<u64>::empty());
        r
    }

    /// Whether the counter can issue another id.
    pub fn has_room(&self) -> (r: bool)
        ensures
            r == self.has_room_spec(),
    {
        self.next_raw < FIRST_RESERVED
    }
}

/// The ids that successive calls of `next` issue from one counter are
/// nonzero and pairwise distinct, and each is in the counter's issued set
/// from then on.
pub proof fn lemma_next_ids_distinct(counters: Seq<WidgetIdCounter>, ids: Seq<WidgetId>)
    requires
        counters.len() == ids.len() + 1,
        forall|i: int|
            0 <= i < ids.len() ==> WidgetId::next_post(#[trigger] counters[i], counters[i + 1], ids[i]),
    ensures
        forall|i: int| 0 <= i < ids.len() ==> (#[trigger] ids[i]).raw_spec() != 0,
        forall|i: int, j: int|
            0 <= i < j < ids.len() ==> (#[trigger] ids[i]).raw_spec() != (#[trigger] ids[j]).raw_spec(),
        forall|i: int| 0 <= i < ids.len() ==> counters.last().issued().contains(#[trigger] ids[i].raw_spec()),
    decreases ids.len(),
{
    if ids.len() > 0 {
        let n = ids.len() - 1;
        let cs = counters.take(n + 1);
        let is = ids.take(n);
        assert forall|i: int| 0 <= i < is.len() implies WidgetId::next_post(
            #[trigger] cs[i],
            cs[i + 1],
            is[i],
        ) by {
            assert(WidgetId::next_post(counters[i], counters[i + 1], ids[i]));
        }
        lemma_next_ids_distinct(cs, is);
        assert(WidgetId::next_post(counters[n], counters[n + 1], ids[n]));
        assert(cs.last() == counters[n]);
        assert forall|i: int| 0 <= i < ids.len() implies (#[trigger] ids[i]).raw_spec() != 0 by {
            if i < n {
                assert(is[i] == ids[i]);
            }
        }
        assert forall|i: int, j: int| 0 <= i < j < ids.len() implies (#[trigger] ids[i]).raw_spec()
            != (#[trigger] ids[j]).raw_spec() by {
            assert(is[i] == ids[i]);
            if j < n {
                assert(is[j] == ids[j]);
            } else {
                assert(cs.last().issued().contains(is[i].raw_spec()));
            }
        }
        assert forall|i: int| 0 <= i < ids.len() implies counters.last().issued().contains(
            #[trigger] ids[i].raw_spec(),
        ) by {
            if i < n {
                assert(is[i] == ids[i]);
                assert(cs.last().issued().contains(is[i].raw_spec()));
            }
        }
    }
}

/// Reserved ids are injective in their argument, and none of them is ever
/// issued by a counter.
pub proof fn lemma_reserved_ids_distinct(a: u16, b: u16, counter: WidgetIdCounter)
    ensures
        reserved_raw(a) == reserved_raw(b) ==> a == b,
        reserved_raw(a) != 0,
        !counter.issued().contains(reserved_raw(a)),
{
}

/// The state that a container caches for one child: its id, and the
/// rectangle that the last layout pass gave it, in the container's
/// coordinate space.
#[derive(Clone, Copy, Debug, PartialEq, Eq)]
pub struct WidgetState {
    pub id: WidgetId,
    pub layout_rect: Rect,
    pub needs_layout: bool,
    pub needs_paint: bool,
}

impl WidgetState {
    /// The state of a child that has not been laid out yet.
    pub fn new(id: WidgetId) -> (r: WidgetState)
        ensures
            r.id == id,
            r.layout_rect == (Rect { x0: 0, y0: 0, x1: 0, y1: 0 }),
            r.needs_layout,
            r.needs_paint,
    {
        WidgetState { id, layout_rect: Rect { x0: 0, y0: 0, x1: 0, y1: 0 }, needs_layout: true, needs_paint: true }
    }

    /// The rectangle that the last layout pass gave the child.
    pub fn layout_rect(&self) -> (r: Rect)
        ensures
            r == self.layout_rect,
    {
        self.layout_rect
    }
}

/// The direct children of a widget, in traversal order, kept in a
/// `SmallVec` that holds up to sixteen inline.
#[verifier::external_body]
pub struct ChildList {
    items: SmallVec<[WidgetState; 16]>,
}

/// The items of a list of children, in order.
pub uninterp spec fn child_list(v: ChildList) -> Seq<WidgetState>;

impl ChildList {
    /// A list holding the items of `items`, in order.
    ///
    /// Relies on `SmallVec::from_vec`, which keeps the vector's items in
    /// order, either moved inline or by taking over its buffer.
    #[verifier::external_body]
    fn wrap_vec(items: Vec<WidgetState>) -> (r: ChildList)
        ensures
            child_list(r) == items@,
    {
        ChildList { items: SmallVec::from_vec(items) }
    }

    /// The items, as a slice.
    ///
    /// Relies on `SmallVec::as_slice`, which returns all of the vector's
    /// items in order.
    #[verifier::external_body]
    pub(crate) fn as_slice(&self) -> (r: &[WidgetState])
        ensures
            r@ == child_list(*self),
    {
        self.items.as_slice()
    }

    /// A list with no children, for widgets that have none.
    pub fn empty() -> (r: ChildList)
        ensures
            child_list(r) == Seq::<WidgetState>::empty(),
    {
        ChildList::wrap_vec(Vec::new())
    }

    /// The list of `children`, in traversal order.
    pub fn from_vec(children: Vec<WidgetState>) -> (r: ChildList)
        ensures
            child_list(r) == children@,
    {
        ChildList::wrap_vec(children)
    }

    /// The number of children.
    pub fn len(&self) -> (r: usize)
        ensures
            r == child_list(*self).len(),
    {
        self.as_slice().len()
    }

    /// The first child, in traversal order, whose last layout rectangle
    /// contains `pos`.
    pub fn child_at_pos(&self, pos: Point) -> (r: Option<WidgetState>)
        ensures
            r == hit(child_list(*self), pos),
    {
        child_at_pos(self.as_slice(), pos)
    }

    /// The child at `index` in traversal order, if there is one.
    pub fn get(&self, index: usize) -> (r: Option<WidgetState>)
        ensures
            r == if index < child_list(*self).len() {
                Some(child_list(*self)[index as int])
            } else {
                None
            },
    {
        let items = self.as_slice();
        if index < items.len() {
            Some(items[index])
        } else {
            None
        }
    }
}

/// Where the last piece starts when `s[..end]` is split at `::` from the
/// left, the scan being at `i` and the last piece so far starting at
/// `start`.
pub open spec fn last_piece_start(s: Seq<u8>, end: int, i: int, start: int) -> int
    decreases end - i,
{
    if i < 0 || i + 1 >= end {
        start
    } else if s[i] == 58 && s[i + 1] == 58 {
        last_piece_start(s, end, i + 2, i + 2)
    } else {
        last_piece_start(s, end, i + 1, start)
    }
}

/// The byte range of the abridged form of a type name: the part before
/// the first `<`, and of that the last piece between `::` separators, as
/// splitting from the left finds them. Both ends fall on ASCII bytes or on
/// the ends of `name`, so they are character boundaries.
///
/// The end is the first `<`, or the end of the name; the start follows a
/// `::`, or is the start of the name; no `::` lies within the range; and
/// where separators overlap (`:::`), the left-to-right split decides.
pub fn short_type_name_range(name: &[u8]) -> (r: (usize, usize))
    ensures
        r.0 <= r.1 <= name@.len(),
        forall|k: int| 0 <= k < r.1 ==> #[trigger] name@[k] != 60,
        r.1 < name@.len() ==> name@[r.1 as int] == 60,
        r.0 == 0 || (r.0 >= 2 && name@[r.0 - 2] == 58 && name@[r.0 - 1] == 58),
        forall|k: int| r.0 <= k && k + 1 < r.1 ==> !(#[trigger] name@[k] == 58 && name@[k + 1] == 58),
        r.0 == last_piece_start(name@, r.1 as int, 0, 0),
{
    let mut end: usize = 0;
    while end < name.len() && name[end] != 60
        invariant
            end <= name@.len(),
            forall|k: int| 0 <= k < end ==> #[trigger] name@[k] != 60,
        decreases name.len() - end,
    {
        end += 1;
    }
    let mut i: usize = 0;
    let mut start: usize = 0;
    while end - i > 1
        invariant
            end <= name@.len(),
            i <= end,
            start <= i,
            start == 0 || (start >= 2 && name@[start - 2] == 58 && name@[start - 1] == 58),
            forall|k: int| start <= k < i && k + 1 < end ==> !(#[trigger] name@[k] == 58 && name@[k + 1] == 58),
            last_piece_start(name@, end as int, i as int, start as int) == last_piece_start(
                name@,
                end as int,
                0,
                0,
            ),
        decreases end - i,
    {
        if name[i] == 58 && name[i + 1] == 58 {
            start = i + 2;
            i = i + 2;
        } else {
            i = i + 1;
        }
    }
    (start, end)
}

/// The first of `children` whose layout rectangle contains `pos`.
pub open spec fn hit(children: Seq<WidgetState>, pos: Point) -> Option<WidgetState> {
    match first_containing(layout_rects(children), pos) {
        Some(i) => Some(children[i]),
        None => None,
    }
}

/// The layout rectangles of `children`, in order.
pub open spec fn layout_rects(children: Seq<WidgetState>) -> Seq<Rect> {
    children.map_values(|c: WidgetState| c.layout_rect)
}

/// The direct child at `pos`: the first of `children`, in traversal order,
/// whose last layout rectangle contains `pos`.
pub fn child_at_pos(children: &[WidgetState], pos: Point) -> (r: Option<WidgetState>)
    ensures
        r == hit(children@, pos),
{
    let mut i: usize = 0;
    while i < children.len()
        invariant
            i <= children.len(),
            forall|j: int| 0 <= j < i ==> !#[trigger] children@[j].layout_rect.contains_spec(pos),
        decreases children.len() - i,
    {
        if children[i].layout_rect.contains(pos) {
            proof {
                lemma_first_containing(layout_rects(children@), pos);
                lemma_first_is_least(layout_rects(children@), pos, i as int);
            }
            return Some(children[i]);
        }
        i += 1;
    }
    proof {
        lemma_first_containing(layout_rects(children@), pos);
        if first_containing(layout_rects(children@), pos) is Some {
            let k = first_containing(layout_rects(children@), pos)->Some_0;
            assert(layout_rects(children@)[k] == children@[k].layout_rect);
        }
    }
    None
}

/// A node of the widget tree.
///
/// Each pass reaches a widget through these methods: events, lifecycle
/// notifications, layout and paint. A container passes each call on to its
/// children itself; a widget never recurses into another's children.
///
/// Each method's outcome is stated by a relation that the implementing
/// type defines, over the widget and the context before and after the call;
/// containers state what they do with a child through these relations.
pub trait Widget: Sized {
    /// The direct children, in traversal order.
    spec fn children_spec(&self) -> Seq<WidgetState>;

    /// How `on_event` relates the widget and its context before and after.
    spec fn event_post(self, after: Self, ctx_in: EventCtx, ctx_out: EventCtx, event: Event) -> bool;

    /// How `on_status_change` relates the widget and its context before and
    /// after.
    spec fn status_post(
        self,
        after: Self,
        ctx_in: LifeCycleCtx,
        ctx_out: LifeCycleCtx,
        event: StatusChange,
    ) -> bool;

    /// How `lifecycle` relates the widget and its context before and after.
    spec fn lifecycle_post(
        self,
        after: Self,
        ctx_in: LifeCycleCtx,
        ctx_out: LifeCycleCtx,
        event: LifeCycle,
    ) -> bool;

    /// How `layout` relates the widget and its context before and after to
    /// the constraints and the size returned.
    spec fn layout_post(
        self,
        after: Self,
        ctx_in: LayoutCtx,
        ctx_out: LayoutCtx,
        bc: BoxConstraints,
        size: Size,
    ) -> bool;

    /// How `paint` relates the widget and its context before and after.
    spec fn paint_post(self, after: Self, ctx_in: PaintCtx, ctx_out: PaintCtx) -> bool;

    /// Handles one input event.
    fn on_event(&mut self, ctx: &mut EventCtx, event: &Event, env: &Env)
        ensures
            Self::event_post(*old(self), *final(self), *old(ctx), *final(ctx), *event),
    ;

    /// Handles a change of hot or focus state.
    fn on_status_change(&mut self, ctx: &mut LifeCycleCtx, event: &StatusChange, env: &Env)
        ensures
            Self::status_post(*old(self), *final(self), *old(ctx), *final(ctx), *event),
    ;

    /// Handles a lifecycle notification, updating the widget's own state only.
    fn lifecycle(&mut self, ctx: &mut LifeCycleCtx, event: &LifeCycle, env: &Env)
        ensures
            Self::lifecycle_post(*old(self), *final(self), *old(ctx), *final(ctx), *event),
    ;

    /// Computes the widget's size within `bc`, laying out text with `engine`.
    fn layout<E: TextEngine>(
        &mut self,
        ctx: &mut LayoutCtx,
        engine: &mut E,
        bc: &BoxConstraints,
        env: &Env,
    ) -> (r: Size)
        ensures
            Self::layout_post(*old(self), *final(self), *old(ctx), *final(ctx), *bc, r),
            bc.wf() ==> bc.fits(r),
    ;

    /// Issues the widget's drawing operations.
    fn paint(&mut self, ctx: &mut PaintCtx, env: &Env)
        ensures
            Self::paint_post(*old(self), *final(self), *old(ctx), *final(ctx)),
    ;

    /// The direct children, in traversal order.
    fn children(&self) -> (r: ChildList)
        ensures
            child_list(r) == self.children_spec(),
    ;

    /// The direct child at `pos`, by the rectangles of the last layout pass:
    /// the first of the list that `children` returns whose rectangle holds
    /// `pos`, as `ChildList::child_at_pos` finds it.
    fn get_child_at_pos(&self, pos: Point) -> (r: Option<WidgetState>)
        ensures
            r == hit(self.children_spec(), pos),
    {
        let children = self.children();
        children.child_at_pos(pos)
    }
}

/// Where no rectangle before `i` holds `p` and the one at `i` does,
/// `first_containing` is `i`.
proof fn lemma_first_is_least(rects: Seq<Rect>, p: Point, i: int)
    requires
        0 <= i < rects.len(),
        rects[i].contains_spec(p),
        forall|j: int| 0 <= j < i ==> !#[trigger] rects[j].contains_spec(p),
    ensures
        first_containing(rects, p) == Some(i),
{
    lemma_first_containing(rects, p);
}

} // verus!

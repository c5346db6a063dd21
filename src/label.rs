//! A label widget: static text, laid out by a text engine and drawn with
//! horizontal padding.

use vstd::prelude::*;

use crate::contexts::{
    draws_text, CursorIcon, Diagnostic, Env, Event, EventCtx, LayoutCtx, LifeCycle, LifeCycleCtx,
    PaintCtx, PaintOp, StatusChange,
};
use crate::geometry::{lemma_first_containing, BoxConstraints, Point, Rect, Size};
use crate::text::{
    Color, ColorKey, FontDescriptor, FontKey, KeyOrValue, SizeKey, TextAlignment, TextEngine,
    TextLayout,
};
use crate::widget::{child_list, ChildList, Widget, WidgetState};

verus! {

/// The space between each side of a label and its text.
pub const LABEL_X_PADDING: u32 = 2;

/// Options for handling lines that are too wide for the label.
#[derive(Clone, Copy, Debug, PartialEq, Eq, Structural)]
pub enum LineBreaking {
    /// Lines are broken at word boundaries.
    WordWrap,
    /// Lines are cut at the edge of the label.
    Clip,
    /// Lines overflow the label.
    Overflow,
}

/// The width at which a label in `mode` wraps its text within `bc`: the
/// maximum width less the padding on both sides (no less than zero) for
/// word wrapping, and no wrapping otherwise.
pub open spec fn wrap_width_for(mode: LineBreaking, bc: BoxConstraints) -> Option<u32> {
    match mode {
        LineBreaking::WordWrap => Some(
            if bc.max.width >= 2 * LABEL_X_PADDING {
                (bc.max.width - 2 * LABEL_X_PADDING) as u32
            } else {
                0
            },
        ),
        _ => None,
    }
}

/// Whether a link area of `links` holds the point `(x, y)`.
pub open spec fn link_at(links: Seq<Rect>, x: int, y: int) -> bool {
    exists|i: int|
        0 <= i < links.len() && #[trigger] links[i].x0 <= x < links[i].x1 && links[i].y0 <= y < links[i].y1
}

/// Under word wrapping, a label whose maximum width leaves room for the
/// padding wraps its text at that width less the padding on both sides.
pub proof fn lemma_word_wrap_width(bc: BoxConstraints)
    requires
        bc.max.width >= 2 * LABEL_X_PADDING,
    ensures
        wrap_width_for(LineBreaking::WordWrap, bc) == Some((bc.max.width - 2 * LABEL_X_PADDING) as u32),
{
}

/// A widget that displays text.
pub struct RawLabel {
    layout: TextLayout,
    line_break_mode: LineBreaking,
    disabled: bool,
    default_text_color: KeyOrValue<Color, ColorKey>,
}

impl RawLabel {
    /// The text and its style.
    pub closed spec fn text_layout(&self) -> TextLayout {
        self.layout
    }

    pub closed spec fn line_break_mode_spec(&self) -> LineBreaking {
        self.line_break_mode
    }

    pub closed spec fn disabled_spec(&self) -> bool {
        self.disabled
    }

    /// The text color used while the label is enabled.
    pub closed spec fn default_text_color_spec(&self) -> KeyOrValue<Color, ColorKey> {
        self.default_text_color
    }

    /// Whether `a` and `b` agree on everything but the text layout.
    pub open spec fn same_settings(a: RawLabel, b: RawLabel) -> bool {
        &&& a.line_break_mode_spec() == b.line_break_mode_spec()
        &&& a.disabled_spec() == b.disabled_spec()
        &&& a.default_text_color_spec() == b.default_text_color_spec()
    }

    /// Whether `self` has the settings of a new label: the environment's
    /// font and text color, no layout yet, overflowing, enabled.
    pub open spec fn has_defaults(self) -> bool {
        &&& self.text_layout().font == KeyOrValue::<FontDescriptor, FontKey>::Key(FontKey::Ui)
        &&& self.text_layout().text_size == None::<KeyOrValue<u32, SizeKey>>
        &&& self.text_layout().text_color == KeyOrValue::<Color, ColorKey>::Key(ColorKey::Text)
        &&& self.text_layout().alignment == TextAlignment::Start
        &&& self.text_layout().wrap_width == None::<u32>
        &&& self.text_layout().built is None
        &&& self.line_break_mode_spec() == LineBreaking::Overflow
        &&& !self.disabled_spec()
        &&& self.default_text_color_spec() == KeyOrValue::<Color, ColorKey>::Key(ColorKey::Text)
    }

    /// The label's size for `bc`, from the measured text plus the padding.
    pub open spec fn size_for(self, bc: BoxConstraints) -> Size {
        bc.constrain_spec(
            self.text_layout().metrics_spec().size.width + 2 * LABEL_X_PADDING,
            self.text_layout().metrics_spec().size.height as int,
        )
    }

    /// The distance from the bottom of the text block up to its first
    /// baseline.
    pub open spec fn baseline_offset_spec(self) -> int {
        self.text_layout().metrics_spec().size.height - self.text_layout().metrics_spec().first_baseline
    }

    /// Create a new `RawLabel`.
    pub fn new() -> (r: RawLabel)
        ensures
            r.has_defaults(),
            r.text_layout().text@.len() == 0,
    {
        RawLabel {
            layout: TextLayout::new(),
            line_break_mode: LineBreaking::Overflow,
            disabled: false,
            default_text_color: KeyOrValue::Key(ColorKey::Text),
        }
    }

    /// Builder-style method for setting the text color.
    pub fn with_text_color(self, color: KeyOrValue<Color, ColorKey>) -> (r: RawLabel)
        ensures
            r.text_layout() == if self.disabled_spec() {
                self.text_layout()
            } else {
                TextLayout { text_color: color, built: None, ..self.text_layout() }
            },
            r.default_text_color_spec() == color,
            r.line_break_mode_spec() == self.line_break_mode_spec(),
            r.disabled_spec() == self.disabled_spec(),
    {
        let mut label = self;
        label.set_text_color(color);
        label
    }

    /// Builder-style method for setting the text size.
    pub fn with_text_size(self, size: KeyOrValue<u32, SizeKey>) -> (r: RawLabel)
        ensures
            r.text_layout() == (TextLayout { text_size: Some(size), built: None, ..self.text_layout() }),
            RawLabel::same_settings(r, self),
    {
        let mut label = self;
        label.set_text_size(size);
        label
    }

    /// Builder-style method for setting the font.
    pub fn with_font(self, font: KeyOrValue<FontDescriptor, FontKey>) -> (r: RawLabel)
        ensures
            r.text_layout() == (TextLayout { font, built: None, ..self.text_layout() }),
            RawLabel::same_settings(r, self),
    {
        let mut label = self;
        label.set_font(font);
        label
    }

    /// Builder-style method for setting the line breaking behaviour.
    pub fn with_line_break_mode(self, mode: LineBreaking) -> (r: RawLabel)
        ensures
            r.text_layout() == self.text_layout(),
            r.line_break_mode_spec() == mode,
            r.disabled_spec() == self.disabled_spec(),
            r.default_text_color_spec() == self.default_text_color_spec(),
    {
        let mut label = self;
        label.set_line_break_mode(mode);
        label
    }

    /// Builder-style method for setting the text alignment.
    pub fn with_text_alignment(self, alignment: TextAlignment) -> (r: RawLabel)
        ensures
            r.text_layout() == (TextLayout { alignment, built: None, ..self.text_layout() }),
            RawLabel::same_settings(r, self),
    {
        let mut label = self;
        label.set_text_alignment(alignment);
        label
    }

    /// Set the text.
    pub fn set_text(&mut self, new_text: String)
        ensures
            final(self).text_layout() == (TextLayout { text: new_text, built: None, ..old(self).text_layout() }),
            RawLabel::same_settings(*final(self), *old(self)),
    {
        self.layout.set_text(new_text);
    }

    /// Set the text color. While the label is disabled the new color is
    /// kept for later and the disabled color stays on screen.
    ///
    /// A caller that changes this after construction requests a new layout.
    pub fn set_text_color(&mut self, color: KeyOrValue<Color, ColorKey>)
        ensures
            final(self).text_layout() == if old(self).disabled_spec() {
                old(self).text_layout()
            } else {
                TextLayout { text_color: color, built: None, ..old(self).text_layout() }
            },
            final(self).default_text_color_spec() == color,
            final(self).line_break_mode_spec() == old(self).line_break_mode_spec(),
            final(self).disabled_spec() == old(self).disabled_spec(),
    {
        if !self.disabled {
            self.layout.set_text_color(color);
        }
        self.default_text_color = color;
    }

    /// Set the text size, overriding the font's.
    ///
    /// A caller that changes this after construction requests a new layout.
    pub fn set_text_size(&mut self, size: KeyOrValue<u32, SizeKey>)
        ensures
            final(self).text_layout() == (TextLayout { text_size: Some(size), built: None, ..old(self).text_layout() }),
            RawLabel::same_settings(*final(self), *old(self)),
    {
        self.layout.set_text_size(size);
    }

    /// Set the font.
    ///
    /// A caller that changes this after construction requests a new layout.
    pub fn set_font(&mut self, font: KeyOrValue<FontDescriptor, FontKey>)
        ensures
            final(self).text_layout() == (TextLayout { font, built: None, ..old(self).text_layout() }),
            RawLabel::same_settings(*final(self), *old(self)),
    {
        self.layout.set_font(font);
    }

    /// Set the line breaking behaviour.
    ///
    /// A caller that changes this after construction requests a new layout.
    pub fn set_line_break_mode(&mut self, mode: LineBreaking)
        ensures
            final(self).text_layout() == old(self).text_layout(),
            final(self).line_break_mode_spec() == mode,
            final(self).disabled_spec() == old(self).disabled_spec(),
            final(self).default_text_color_spec() == old(self).default_text_color_spec(),
    {
        self.line_break_mode = mode;
    }

    /// Set the text alignment.
    pub fn set_text_alignment(&mut self, alignment: TextAlignment)
        ensures
            final(self).text_layout() == (TextLayout { alignment, built: None, ..old(self).text_layout() }),
            RawLabel::same_settings(*final(self), *old(self)),
    {
        self.layout.set_text_alignment(alignment);
    }

    /// Draw this label's text at `origin`, without internal padding.
    pub fn draw_at(&self, ctx: &mut PaintCtx, origin: Point)
        ensures
            final(ctx).size == old(ctx).size,
            final(ctx).diagnostics@ == old(ctx).diagnostics@,
            final(ctx).ops@.len() == old(ctx).ops@.len() + 1,
            final(ctx).ops@.take(old(ctx).ops@.len() as int) == old(ctx).ops@,
            draws_text(final(ctx).ops@.last(), self.text_layout().text@, origin),
    {
        self.layout.draw(ctx, origin)
    }

    /// The offset of the first baseline from the bottom of the text, by the
    /// last layout.
    pub fn baseline_offset(&self) -> (r: i64)
        ensures
            r == self.baseline_offset_spec(),
    {
        let m = self.layout.layout_metrics();
        m.size.height as i64 - m.first_baseline as i64
    }
}

impl Default for RawLabel {
    fn default() -> (r: RawLabel)
        ensures
            r.has_defaults(),
            r.text_layout().text@.len() == 0,
    {
        RawLabel::new()
    }
}

impl Widget for RawLabel {
    open spec fn children_spec(&self) -> Seq<WidgetState> {
        Seq::empty()
    }

    open spec fn event_post(self, after: Self, ctx_in: EventCtx, ctx_out: EventCtx, event: Event) -> bool {
        &&& after == self
        &&& ctx_out == match event {
            Event::MouseMove(e) => EventCtx {
                cursor: if link_at(
                    self.text_layout().links_spec(),
                    e.pos.x - LABEL_X_PADDING,
                    e.pos.y as int,
                ) {
                    Some(CursorIcon::Pointer)
                } else {
                    None
                },
                ..ctx_in
            },
            _ => ctx_in,
        }
    }

    open spec fn status_post(self, after: Self, ctx_in: LifeCycleCtx, ctx_out: LifeCycleCtx, event: StatusChange) -> bool {
        &&& after == self
        &&& ctx_out == ctx_in
    }

    open spec fn lifecycle_post(self, after: Self, ctx_in: LifeCycleCtx, ctx_out: LifeCycleCtx, event: LifeCycle) -> bool {
        &&& match event {
            LifeCycle::DisabledChanged(d) => {
                &&& after.text_layout() == (TextLayout {
                    text_color: if d {
                        KeyOrValue::Key(ColorKey::DisabledText)
                    } else {
                        self.default_text_color_spec()
                    },
                    built: None,
                    ..self.text_layout()
                })
                &&& after.disabled_spec() == d
                &&& after.line_break_mode_spec() == self.line_break_mode_spec()
                &&& after.default_text_color_spec() == self.default_text_color_spec()
                &&& ctx_out.layout_requested
            },
            _ => after == self && ctx_out == ctx_in,
        }
    }

    open spec fn layout_post(self, after: Self, ctx_in: LayoutCtx, ctx_out: LayoutCtx, bc: BoxConstraints, size: Size) -> bool {
        &&& RawLabel::same_settings(after, self)
        &&& after.text_layout() == (TextLayout {
            wrap_width: wrap_width_for(self.line_break_mode_spec(), bc),
            built: after.text_layout().built,
            ..self.text_layout()
        })
        &&& after.text_layout().built is Some
        &&& self.text_layout().built is Some && self.text_layout().wrap_width
            == wrap_width_for(self.line_break_mode_spec(), bc) ==> after.text_layout().built
            == self.text_layout().built
        &&& ctx_out.baseline_offset == after.baseline_offset_spec()
        &&& size == after.size_for(bc)
        &&& bc.wf() ==> bc.min.width <= size.width <= bc.max.width && bc.min.height <= size.height
            <= bc.max.height
    }

    open spec fn paint_post(self, after: Self, ctx_in: PaintCtx, ctx_out: PaintCtx) -> bool {
        &&& after == self
        &&& ctx_out.size == ctx_in.size
        &&& ctx_out.diagnostics@ == ctx_in.diagnostics@
        &&& ctx_out.ops@.take(ctx_in.ops@.len() as int) == ctx_in.ops@
        &&& self.line_break_mode_spec() == LineBreaking::Clip ==> ctx_out.ops@.len()
            == ctx_in.ops@.len() + 2 && ctx_out.ops@[ctx_in.ops@.len() as int]
            == PaintOp::Clip(Rect::from_size_spec(ctx_in.size))
        &&& self.line_break_mode_spec() != LineBreaking::Clip ==> ctx_out.ops@.len()
            == ctx_in.ops@.len() + 1
        &&& draws_text(
            ctx_out.ops@.last(),
            self.text_layout().text@,
            Point { x: LABEL_X_PADDING as i64, y: 0 },
        )
    }

    /// Moving the pointer over a link asks for the pointer cursor, and
    /// anywhere else clears the cursor request. Positions are taken less the
    /// padding, in the text's coordinate space.
    fn on_event(&mut self, ctx: &mut EventCtx, event: &Event, env: &Env)
    {
        match event {
            Event::MouseMove(e) => {
                let over_link = if e.pos.x >= i64::MIN + LABEL_X_PADDING as i64 {
                    let pos = Point::new(e.pos.x - LABEL_X_PADDING as i64, e.pos.y);
                    let found = self.layout.link_for_pos(pos);
                    proof {
                        let links = self.layout.links_spec();
                        lemma_first_containing(links, pos);
                        if found is None {
                            assert forall|i: int| 0 <= i < links.len() implies !(#[trigger] links[i].x0 <= pos.x
                                < links[i].x1 && links[i].y0 <= pos.y < links[i].y1) by {
                                assert(!links[i].contains_spec(pos));
                            }
                        } else {
                            let i = found->Some_0 as int;
                            assert(links[i].contains_spec(pos));
                        }
                    }
                    found.is_some()
                } else {
                    false
                };
                if over_link {
                    ctx.set_cursor(CursorIcon::Pointer);
                } else {
                    ctx.clear_cursor();
                }
            },
            // Releasing the pointer over a link does not activate it: links
            // carry no command to submit yet.
            Event::MouseUp(_) => {},
            Event::MouseDown(_) => {},
        }
    }

    fn on_status_change(&mut self, ctx: &mut LifeCycleCtx, event: &StatusChange, env: &Env)
    {
    }

    /// Being disabled shows the text in the environment's disabled color;
    /// being enabled again restores the default text color. Either asks for
    /// a new layout.
    fn lifecycle(&mut self, ctx: &mut LifeCycleCtx, event: &LifeCycle, env: &Env)
    {
        match event {
            LifeCycle::DisabledChanged(disabled) => {
                let color = if *disabled {
                    KeyOrValue::Key(ColorKey::DisabledText)
                } else {
                    self.default_text_color
                };
                self.layout.set_text_color(color);
                self.disabled = *disabled;
                ctx.request_layout();
            },
            _ => {},
        }
    }

    /// Under word wrapping the text wraps at the maximum width less the
    /// padding; otherwise it is not wrapped. The size is the text's plus the
    /// padding, brought within `bc`.
    fn layout<E: TextEngine>(
        &mut self,
        ctx: &mut LayoutCtx,
        engine: &mut E,
        bc: &BoxConstraints,
        env: &Env,
    ) -> (r: Size)
    {
        let width = match self.line_break_mode {
            LineBreaking::WordWrap => Some(
                if bc.max.width >= 2 * LABEL_X_PADDING {
                    bc.max.width - 2 * LABEL_X_PADDING
                } else {
                    0
                },
            ),
            _ => None,
        };
        self.layout.set_wrap_width(width);
        self.layout.rebuild_if_needed(engine, env);
        let m = self.layout.layout_metrics();
        ctx.set_baseline_offset(m.size.height as i64 - m.first_baseline as i64);
        bc.constrain_wide(m.size.width as u64 + 2 * LABEL_X_PADDING as u64, m.size.height as u64)
    }

    /// Draws the text at the padded origin; in clip mode, first clips to
    /// the label's size.
    fn paint(&mut self, ctx: &mut PaintCtx, env: &Env)
    {
        let origin = Point::new(LABEL_X_PADDING as i64, 0);
        let label_size = ctx.size();
        if self.line_break_mode == LineBreaking::Clip {
            ctx.clip(label_size.to_rect());
        }
        let ghost mid = ctx.ops@;
        self.draw_at(ctx, origin);
        proof {
            let n = old(ctx).ops@.len() as int;
            assert(mid.take(n) =~= old(ctx).ops@);
            if mid.len() > n {
                assert(ctx.ops@[n] == ctx.ops@.take(mid.len() as int)[n]);
            }
            assert(ctx.ops@.take(old(ctx).ops@.len() as int) =~= old(ctx).ops@);
        }
    }

    fn children(&self) -> (r: ChildList)
        ensures
            child_list(r) == Seq::<WidgetState>::empty(),
    {
        ChildList::empty()
    }
}

/// Static text.
#[derive(Clone, Debug)]
pub struct Static {
    /// The text.
    string: String,
    /// Whether `resolve` has been called yet. The first call reports a
    /// change, so that callers know to fetch the text.
    resolved: bool,
}

impl Static {
    pub closed spec fn string_spec(&self) -> Seq<char> {
        self.string@
    }

    pub closed spec fn resolved_spec(&self) -> bool {
        self.resolved
    }

    /// The static text `s`, not resolved yet.
    pub closed spec fn new_spec(s: String) -> Static {
        Static { string: s, resolved: false }
    }

    pub fn new(s: String) -> (r: Static)
        ensures
            r == Static::new_spec(s),
            r.string_spec() == s@,
            !r.resolved_spec(),
    {
        Static { string: s, resolved: false }
    }

    /// Reports a change on the first call only.
    pub fn resolve(&mut self) -> (r: bool)
        ensures
            r == !old(self).resolved_spec(),
            final(self).resolved_spec(),
            final(self).string_spec() == old(self).string_spec(),
    {
        let is_first_call = !self.resolved;
        self.resolved = true;
        is_first_call
    }
}

/// The text of a `Label`.
#[derive(Clone, Debug)]
pub enum LabelText {
    /// Static text.
    Static(Static),
}

impl LabelText {
    /// The text to display.
    pub open spec fn text_spec(self) -> Seq<char> {
        match self {
            LabelText::Static(s) => s.string_spec(),
        }
    }

    /// Whether the text has been resolved at least once.
    pub open spec fn is_resolved(self) -> bool {
        match self {
            LabelText::Static(s) => s.resolved_spec(),
        }
    }

    /// How one call of `resolve` relates the source before it, the source
    /// after it and the result.
    pub open spec fn resolve_post(before: LabelText, after: LabelText, changed: bool) -> bool {
        &&& changed == !before.is_resolved()
        &&& after.is_resolved()
        &&& after.text_spec() == before.text_spec()
    }

    /// Static text, not resolved yet.
    pub fn new(text: &str) -> (r: LabelText)
        ensures
            r.text_spec() == text@,
            !r.is_resolved(),
    {
        LabelText::Static(Static::new(text.to_owned()))
    }

    /// Static text, not resolved yet.
    pub fn from_string(text: String) -> (r: LabelText)
        ensures
            r.text_spec() == text@,
            !r.is_resolved(),
    {
        LabelText::Static(Static::new(text))
    }

    /// Call `cb` with the text that should be displayed.
    pub fn with_display_text<V>(&self, cb: impl FnOnce(&str) -> V) -> (r: V)
        requires
            forall|t: &str| t@ == self.text_spec() ==> call_requires(cb, (t,)),
        ensures
            exists|t: &str| t@ == self.text_spec() && call_ensures(cb, (t,), r),
    {
        match self {
            LabelText::Static(s) => cb(s.string.as_str()),
        }
    }

    /// The text to display.
    pub fn display_text(&self) -> (r: String)
        ensures
            r@ == self.text_spec(),
    {
        match self {
            LabelText::Static(s) => s.string.clone(),
        }
    }

    /// Brings the text up to date with `env`. Returns whether it changed:
    /// static text reports a change on the first call only.
    pub fn resolve(&mut self, env: &Env) -> (r: bool)
        ensures
            LabelText::resolve_post(*old(self), *final(self), r),
    {
        match self {
            LabelText::Static(s) => s.resolve(),
        }
    }
}

impl From<String> for LabelText {
    fn from(src: String) -> (r: LabelText)
        ensures
            r.text_spec() == src@,
            !r.is_resolved(),
    {
        LabelText::Static(Static::new(src))
    }
}

impl vstd::std_specs::convert::FromSpecImpl<String> for LabelText {
    open spec fn obeys_from_spec() -> bool {
        true
    }

    open spec fn from_spec(v: String) -> LabelText {
        LabelText::Static(Static::new_spec(v))
    }
}

impl From<&str> for LabelText {
    fn from(src: &str) -> (r: LabelText)
        ensures
            r.text_spec() == src@,
            !r.is_resolved(),
    {
        LabelText::new(src)
    }
}

/// A `&str` is copied into a `String` of the same characters, which is all
/// that is known of that copy: no single value can be named, so the
/// conversion is stated by the `ensures` of `from` above.
impl vstd::std_specs::convert::FromSpecImpl<&str> for LabelText {
    open spec fn obeys_from_spec() -> bool {
        false
    }

    open spec fn from_spec(v: &str) -> LabelText {
        choose|t: LabelText| t.text_spec() == v@ && !t.is_resolved()
    }
}

/// Resolving a text source repeatedly reports a change exactly once when
/// it starts unresolved: the first call returns true, every later one false,
/// and the text stays the same throughout.
pub proof fn lemma_resolve_changes_once(sources: Seq<LabelText>, results: Seq<bool>)
    requires
        sources.len() == results.len() + 1,
        !sources[0].is_resolved(),
        forall|i: int|
            0 <= i < results.len() ==> LabelText::resolve_post(
                #[trigger] sources[i],
                sources[i + 1],
                results[i],
            ),
    ensures
        results.len() > 0 ==> results[0],
        forall|i: int| 0 < i < results.len() ==> !#[trigger] results[i],
        forall|i: int| 0 <= i < sources.len() ==> #[trigger] sources[i].text_spec() == sources[0].text_spec(),
    decreases sources.len(),
{
    if results.len() > 0 {
        let n = results.len() - 1;
        lemma_resolve_changes_once(sources.take(n + 1), results.take(n));
        assert forall|i: int| 0 <= i < n implies LabelText::resolve_post(
            #[trigger] sources.take(n + 1)[i],
            sources.take(n + 1)[i + 1],
            results.take(n)[i],
        ) by {
            assert(LabelText::resolve_post(sources[i], sources[i + 1], results[i]));
        }
        assert forall|i: int| 0 < i < results.len() implies !#[trigger] results[i] by {
            if i < n {
                assert(!results.take(n)[i]);
            } else {
                assert(LabelText::resolve_post(sources[i - 1], sources[i], results[i - 1]));
                assert(LabelText::resolve_post(sources[i], sources[i + 1], results[i]));
            }
        }
        assert forall|i: int| 0 <= i < sources.len() implies #[trigger] sources[i].text_spec()
            == sources[0].text_spec() by {
            if i <= n {
                assert(sources.take(n + 1)[i].text_spec() == sources.take(n + 1)[0].text_spec());
            } else {
                assert(sources.take(n + 1)[n].text_spec() == sources.take(n + 1)[0].text_spec());
                assert(LabelText::resolve_post(sources[n], sources[n + 1], results[n]));
            }
        }
        if n == 0 {
            assert(LabelText::resolve_post(sources[0], sources[1], results[0]));
        } else {
            assert(results.take(n)[0]);
        }
    }
}

/// A label that displays static or dynamic text.
///
/// It keeps a `RawLabel` and hands it the text of its `LabelText` whenever
/// a lifecycle notification finds that text changed. Text set with
/// `set_text` reaches the screen only after such a notification; a paint
/// before it reports stale text and draws the previous text.
pub struct Label {
    label: RawLabel,
    current_text: String,
    text: LabelText,
    /// Set by `set_text` until a lifecycle notification hands the new text
    /// to the raw label.
    text_should_be_updated: bool,
}

impl Label {
    /// The raw label that displays the text.
    pub closed spec fn raw_label(&self) -> RawLabel {
        self.label
    }

    /// The text that was last handed to the raw label.
    pub closed spec fn current_text_spec(&self) -> Seq<char> {
        self.current_text@
    }

    /// The source of the text.
    pub closed spec fn label_text(&self) -> LabelText {
        self.text
    }

    /// Whether the text was set since it was last handed to the raw label.
    pub closed spec fn is_stale(&self) -> bool {
        self.text_should_be_updated
    }

    /// Whether `a` and `b` hold the same text, source and staleness.
    pub open spec fn same_text(a: Label, b: Label) -> bool {
        &&& a.current_text_spec() == b.current_text_spec()
        &&& a.label_text() == b.label_text()
        &&& a.is_stale() == b.is_stale()
    }

    /// Create a new `RawLabel`.
    pub fn raw() -> (r: RawLabel)
        ensures
            r.has_defaults(),
            r.text_layout().text@.len() == 0,
    {
        RawLabel::new()
    }

    /// Construct a new `Label` widget showing `text`.
    pub fn new(text: LabelText) -> (r: Label)
        ensures
            r.label_text() == text,
            r.current_text_spec() == text.text_spec(),
            r.raw_label().text_layout().text@ == text.text_spec(),
            r.raw_label().has_defaults(),
            !r.is_stale(),
    {
        let current_text = text.display_text();
        let mut label = RawLabel::new();
        label.set_text(current_text.clone());
        Label { label, current_text, text, text_should_be_updated: false }
    }

    /// The raw label that displays the text.
    pub fn as_raw(&self) -> (r: &RawLabel)
        ensures
            *r == self.raw_label(),
    {
        &self.label
    }

    /// The raw label that displays the text, for changing its style. A
    /// caller that does so after construction requests a new layout.
    pub fn as_raw_mut(&mut self) -> (r: &mut RawLabel)
        ensures
            *r == old(self).raw_label(),
            final(self).raw_label() == *final(r),
            Label::same_text(*final(self), *old(self)),
    {
        &mut self.label
    }

    /// The current value of the label's text.
    pub fn text(&self) -> (r: String)
        ensures
            r@ == self.label_text().text_spec(),
    {
        self.text.display_text()
    }

    /// Set the label's text. It is displayed after the next lifecycle
    /// notification.
    pub fn set_text(&mut self, text: LabelText)
        ensures
            final(self).label_text() == text,
            final(self).is_stale(),
            final(self).current_text_spec() == old(self).current_text_spec(),
            final(self).raw_label() == old(self).raw_label(),
    {
        self.text = text;
        self.text_should_be_updated = true;
    }

    /// Builder-style method for setting the text color.
    pub fn with_text_color(self, color: KeyOrValue<Color, ColorKey>) -> (r: Label)
        ensures
            Label::same_text(r, self),
            r.raw_label().text_layout() == if self.raw_label().disabled_spec() {
                self.raw_label().text_layout()
            } else {
                TextLayout { text_color: color, built: None, ..self.raw_label().text_layout() }
            },
            r.raw_label().default_text_color_spec() == color,
            r.raw_label().line_break_mode_spec() == self.raw_label().line_break_mode_spec(),
            r.raw_label().disabled_spec() == self.raw_label().disabled_spec(),
    {
        let mut label = self;
        label.label.set_text_color(color);
        label
    }

    /// Builder-style method for setting the text size.
    pub fn with_text_size(self, size: KeyOrValue<u32, SizeKey>) -> (r: Label)
        ensures
            Label::same_text(r, self),
            r.raw_label().text_layout() == (TextLayout {
                text_size: Some(size),
                built: None,
                ..self.raw_label().text_layout()
            }),
            RawLabel::same_settings(r.raw_label(), self.raw_label()),
    {
        let mut label = self;
        label.label.set_text_size(size);
        label
    }

    /// Builder-style method for setting the font.
    pub fn with_font(self, font: KeyOrValue<FontDescriptor, FontKey>) -> (r: Label)
        ensures
            Label::same_text(r, self),
            r.raw_label().text_layout() == (TextLayout { font, built: None, ..self.raw_label().text_layout() }),
            RawLabel::same_settings(r.raw_label(), self.raw_label()),
    {
        let mut label = self;
        label.label.set_font(font);
        label
    }

    /// Builder-style method for setting the line breaking behaviour.
    pub fn with_line_break_mode(self, mode: LineBreaking) -> (r: Label)
        ensures
            Label::same_text(r, self),
            r.raw_label().text_layout() == self.raw_label().text_layout(),
            r.raw_label().line_break_mode_spec() == mode,
            r.raw_label().disabled_spec() == self.raw_label().disabled_spec(),
            r.raw_label().default_text_color_spec() == self.raw_label().default_text_color_spec(),
    {
        let mut label = self;
        label.label.set_line_break_mode(mode);
        label
    }

    /// Builder-style method for setting the text alignment.
    pub fn with_text_alignment(self, alignment: TextAlignment) -> (r: Label)
        ensures
            Label::same_text(r, self),
            r.raw_label().text_layout() == (TextLayout {
                alignment,
                built: None,
                ..self.raw_label().text_layout()
            }),
            RawLabel::same_settings(r.raw_label(), self.raw_label()),
    {
        let mut label = self;
        label.label.set_text_alignment(alignment);
        label
    }

    /// Draw this label's text at `origin`, without internal padding.
    pub fn draw_at(&self, ctx: &mut PaintCtx, origin: Point)
        ensures
            final(ctx).size == old(ctx).size,
            final(ctx).diagnostics@ == old(ctx).diagnostics@,
            final(ctx).ops@.len() == old(ctx).ops@.len() + 1,
            final(ctx).ops@.take(old(ctx).ops@.len() as int) == old(ctx).ops@,
            draws_text(final(ctx).ops@.last(), self.raw_label().text_layout().text@, origin),
    {
        self.label.draw_at(ctx, origin)
    }

    /// The offset of the first baseline from the bottom of the text, by the
    /// last layout.
    pub fn baseline_offset(&self) -> (r: i64)
        ensures
            r == self.raw_label().baseline_offset_spec(),
    {
        self.label.baseline_offset()
    }
}

impl Widget for Label {
    open spec fn children_spec(&self) -> Seq<WidgetState> {
        Seq::empty()
    }

    open spec fn event_post(self, after: Self, ctx_in: EventCtx, ctx_out: EventCtx, event: Event) -> bool {
        &&& after == self
        &&& ctx_out == ctx_in
    }

    open spec fn status_post(self, after: Self, ctx_in: LifeCycleCtx, ctx_out: LifeCycleCtx, event: StatusChange) -> bool {
        &&& after == self
        &&& ctx_out == ctx_in
    }

    open spec fn lifecycle_post(self, after: Self, ctx_in: LifeCycleCtx, ctx_out: LifeCycleCtx, event: LifeCycle) -> bool {
        &&& after.label_text().text_spec() == self.label_text().text_spec()
        &&& after.label_text().is_resolved()
        &&& !after.is_stale()
        &&& !self.label_text().is_resolved() || self.is_stale() ==> {
            &&& after.current_text_spec() == self.label_text().text_spec()
            &&& after.raw_label().text_layout().text@ == self.label_text().text_spec()
            &&& ctx_out.layout_requested
        }
        &&& self.label_text().is_resolved() && !self.is_stale() ==> {
            &&& after.current_text_spec() == self.current_text_spec()
            &&& after.raw_label().text_layout().text@ == self.raw_label().text_layout().text@
        }
        &&& ctx_in.layout_requested ==> ctx_out.layout_requested
        &&& after.raw_label().line_break_mode_spec() == self.raw_label().line_break_mode_spec()
        &&& after.raw_label().default_text_color_spec() == self.raw_label().default_text_color_spec()
        &&& after.raw_label().disabled_spec() == match event {
            LifeCycle::DisabledChanged(d) => d,
            _ => self.raw_label().disabled_spec(),
        }
        &&& after.raw_label().text_layout().text_color == match event {
            LifeCycle::DisabledChanged(d) => if d {
                KeyOrValue::Key(ColorKey::DisabledText)
            } else {
                self.raw_label().default_text_color_spec()
            },
            _ => self.raw_label().text_layout().text_color,
        }
    }

    open spec fn layout_post(self, after: Self, ctx_in: LayoutCtx, ctx_out: LayoutCtx, bc: BoxConstraints, size: Size) -> bool {
        &&& Label::same_text(after, self)
        &&& RawLabel::same_settings(after.raw_label(), self.raw_label())
        &&& after.raw_label().text_layout() == (TextLayout {
            wrap_width: wrap_width_for(self.raw_label().line_break_mode_spec(), bc),
            built: after.raw_label().text_layout().built,
            ..self.raw_label().text_layout()
        })
        &&& after.raw_label().text_layout().built is Some
        &&& ctx_out.baseline_offset == after.raw_label().baseline_offset_spec()
        &&& size == after.raw_label().size_for(bc)
        &&& bc.wf() ==> bc.min.width <= size.width <= bc.max.width && bc.min.height <= size.height
            <= bc.max.height
    }

    open spec fn paint_post(self, after: Self, ctx_in: PaintCtx, ctx_out: PaintCtx) -> bool {
        &&& after == self
        &&& ctx_out.size == ctx_in.size
        &&& ctx_out.diagnostics@ == if self.is_stale() {
            ctx_in.diagnostics@.push(Diagnostic::StaleLabelText)
        } else {
            ctx_in.diagnostics@
        }
        &&& ctx_out.ops@.take(ctx_in.ops@.len() as int) == ctx_in.ops@
        &&& self.raw_label().line_break_mode_spec() == LineBreaking::Clip ==> ctx_out.ops@.len()
            == ctx_in.ops@.len() + 2 && ctx_out.ops@[ctx_in.ops@.len() as int]
            == PaintOp::Clip(Rect::from_size_spec(ctx_in.size))
        &&& self.raw_label().line_break_mode_spec() != LineBreaking::Clip ==> ctx_out.ops@.len()
            == ctx_in.ops@.len() + 1
        &&& draws_text(
            ctx_out.ops@.last(),
            self.raw_label().text_layout().text@,
            Point { x: LABEL_X_PADDING as i64, y: 0 },
        )
    }

    fn on_event(&mut self, ctx: &mut EventCtx, event: &Event, env: &Env)
    {
    }

    fn on_status_change(&mut self, ctx: &mut LifeCycleCtx, event: &StatusChange, env: &Env)
    {
    }

    /// Resolves the text; where it changed or was set since, hands it to the
    /// raw label and asks for a new layout. Then passes the notification on
    /// to the raw label.
    fn lifecycle(&mut self, ctx: &mut LifeCycleCtx, event: &LifeCycle, env: &Env)
    {
        let changed = self.text.resolve(env);
        if changed || self.text_should_be_updated {
            let text = self.text.display_text();
            self.label.set_text(text.clone());
            self.current_text = text;
            ctx.request_layout();
            self.text_should_be_updated = false;
        }
        self.label.lifecycle(ctx, event, env);
    }

    fn layout<E: TextEngine>(
        &mut self,
        ctx: &mut LayoutCtx,
        engine: &mut E,
        bc: &BoxConstraints,
        env: &Env,
    ) -> (r: Size)
    {
        self.label.layout(ctx, engine, bc, env)
    }

    /// Reports stale text where the text was set and no lifecycle
    /// notification followed, then paints the raw label, which still holds
    /// the previous text.
    fn paint(&mut self, ctx: &mut PaintCtx, env: &Env)
    {
        if self.text_should_be_updated {
            ctx.report(Diagnostic::StaleLabelText);
        }
        self.label.paint(ctx, env)
    }

    fn children(&self) -> (r: ChildList)
        ensures
            child_list(r) == Seq::<WidgetState>::empty(),
    {
        ChildList::empty()
    }
}

} // verus!

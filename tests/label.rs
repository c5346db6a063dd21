use widget_cruncher::contexts::{
    CursorIcon, Diagnostic, Env, Event, EventCtx, LayoutCtx, LifeCycle, LifeCycleCtx, MouseEvent,
    PaintCtx, PaintOp, StatusChange,
};
use widget_cruncher::geometry::{BoxConstraints, Point, Rect, Size};
use widget_cruncher::label::{Label, LabelText, LineBreaking, RawLabel, Static, LABEL_X_PADDING};
use widget_cruncher::text::{
    resolve_color, BuiltText, Color, ColorKey, FontDescriptor, FontFamily, FontKey, KeyOrValue,
    SizeKey, TextAlignment, TextEngine, TextMetrics, TextRequest,
};
use widget_cruncher::widget::Widget;

/// A text engine that returns fixed measurements and records every request.
struct StubEngine {
    metrics: TextMetrics,
    links: Vec<Rect>,
    requests: Vec<TextRequest>,
}

impl StubEngine {
    fn new(width: u32, height: u32, first_baseline: u32) -> StubEngine {
        StubEngine {
            metrics: TextMetrics { size: Size::new(width, height), first_baseline },
            links: Vec::new(),
            requests: Vec::new(),
        }
    }
}

impl TextEngine for StubEngine {
    fn build(&mut self, request: &TextRequest) -> BuiltText {
        self.requests.push(request.clone());
        BuiltText { metrics: self.metrics, links: self.links.clone() }
    }
}

fn env() -> Env {
    Env {
        text_color: Color::rgb8(10, 10, 10),
        disabled_text_color: Color::rgb8(128, 128, 128),
        ui_font: FontDescriptor { family: FontFamily::SystemUi, size: 15, weight: 400 },
        text_size: 15,
    }
}

fn drawn_text(op: &PaintOp) -> Option<(String, Point)> {
    match op {
        PaintOp::DrawText { text, origin } => Some((text.clone(), *origin)),
        _ => None,
    }
}

#[test]
fn static_text_resolves_once() {
    let mut text = LabelText::new("hello");
    let env = env();
    assert!(text.resolve(&env));
    assert!(!text.resolve(&env));
    assert!(!text.resolve(&env));
    assert_eq!(text.display_text(), "hello");
}

#[test]
fn static_resolve_reports_first_call() {
    let mut s = Static::new("x".to_string());
    assert!(s.resolve());
    assert!(!s.resolve());
}

#[test]
fn display_text_is_passed_to_callback() {
    let text = LabelText::from_string("abc".to_string());
    let n = text.with_display_text(|s: &str| s.len());
    assert_eq!(n, 3);
}

#[test]
fn word_wrap_asks_for_width_less_padding() {
    let mut label = RawLabel::new().with_line_break_mode(LineBreaking::WordWrap);
    label.set_text("some long text".to_string());
    let mut engine = StubEngine::new(500, 20, 15);
    let mut ctx = LayoutCtx::new();
    let bc = BoxConstraints::new(Size::new(0, 0), Size::new(120, 100));
    let size = label.layout(&mut ctx, &mut engine, &bc, &env());
    assert_eq!(engine.requests.len(), 1);
    assert_eq!(engine.requests[0].wrap_width, Some(120 - 2 * LABEL_X_PADDING));
    assert_eq!(engine.requests[0].text, "some long text");
    assert!(size.width <= 120);
    assert_eq!(size, Size::new(120, 20));
}

#[test]
fn word_wrap_in_a_narrow_box_wraps_at_zero() {
    let mut label = RawLabel::new().with_line_break_mode(LineBreaking::WordWrap);
    let mut engine = StubEngine::new(10, 20, 15);
    let bc = BoxConstraints::loose(Size::new(3, 100));
    let size = label.layout(&mut LayoutCtx::new(), &mut engine, &bc, &env());
    assert_eq!(engine.requests[0].wrap_width, Some(0));
    assert_eq!(size, Size::new(3, 20));
}

#[test]
fn overflow_and_clip_do_not_wrap() {
    for mode in [LineBreaking::Overflow, LineBreaking::Clip] {
        let mut label = RawLabel::new().with_line_break_mode(mode);
        let mut engine = StubEngine::new(300, 20, 15);
        let bc = BoxConstraints::loose(Size::new(200, 100));
        let size = label.layout(&mut LayoutCtx::new(), &mut engine, &bc, &env());
        assert_eq!(engine.requests[0].wrap_width, None);
        assert_eq!(size, Size::new(200, 20));
    }
}

#[test]
fn layout_adds_padding_and_sets_baseline() {
    let mut label = RawLabel::new();
    let mut engine = StubEngine::new(40, 18, 14);
    let mut ctx = LayoutCtx::new();
    let bc = BoxConstraints::loose(Size::new(200, 100));
    let size = label.layout(&mut ctx, &mut engine, &bc, &env());
    assert_eq!(size, Size::new(44, 18));
    assert_eq!(ctx.baseline_offset, 4);
    assert_eq!(label.baseline_offset(), 4);
}

#[test]
fn layout_reuses_the_built_text() {
    let mut label = RawLabel::new();
    let mut engine = StubEngine::new(40, 18, 14);
    let bc = BoxConstraints::loose(Size::new(200, 100));
    label.layout(&mut LayoutCtx::new(), &mut engine, &bc, &env());
    label.layout(&mut LayoutCtx::new(), &mut engine, &bc, &env());
    assert_eq!(engine.requests.len(), 1);
    label.set_text("changed".to_string());
    label.layout(&mut LayoutCtx::new(), &mut engine, &bc, &env());
    assert_eq!(engine.requests.len(), 2);
}

#[test]
fn clip_mode_clips_before_drawing() {
    let mut label = Label::new(LabelText::new("a rather wide text")).with_line_break_mode(LineBreaking::Clip);
    let mut engine = StubEngine::new(500, 20, 15);
    let bc = BoxConstraints::loose(Size::new(100, 40));
    let size = label.layout(&mut LayoutCtx::new(), &mut engine, &bc, &env());
    assert_eq!(size, Size::new(100, 20));
    let mut ctx = PaintCtx::new(size);
    label.paint(&mut ctx, &env());
    assert_eq!(ctx.ops.len(), 2);
    match &ctx.ops[0] {
        PaintOp::Clip(r) => assert_eq!(*r, Rect::new(0, 0, 100, 20)),
        _ => panic!("the first operation is not a clip"),
    }
    assert_eq!(
        drawn_text(&ctx.ops[1]),
        Some(("a rather wide text".to_string(), Point::new(2, 0)))
    );
}

#[test]
fn other_modes_draw_without_clip() {
    let mut label = Label::new(LabelText::new("t")).with_line_break_mode(LineBreaking::WordWrap);
    let mut ctx = PaintCtx::new(Size::new(10, 10));
    label.paint(&mut ctx, &env());
    assert_eq!(ctx.ops.len(), 1);
    assert_eq!(drawn_text(&ctx.ops[0]), Some(("t".to_string(), Point::new(2, 0))));
}

#[test]
fn hello_world_end_to_end() {
    let mut label = Label::new(LabelText::new("Hello world")).with_line_break_mode(LineBreaking::WordWrap);
    let env = env();
    let mut lc = LifeCycleCtx::new();
    label.lifecycle(&mut lc, &LifeCycle::WidgetAdded, &env);
    let mut engine = StubEngine::new(77, 19, 15);
    let mut ctx = LayoutCtx::new();
    let bc = BoxConstraints::new(Size::new(0, 0), Size::new(200, 100));
    let size = label.layout(&mut ctx, &mut engine, &bc, &env);
    assert!(size.width <= 200);
    assert_eq!(size, Size::new(81, 19));
    assert_eq!(ctx.baseline_offset, 19 - 15);
    assert_eq!(engine.requests[0].wrap_width, Some(196));
    assert_eq!(engine.requests[0].text, "Hello world");
}

#[test]
fn set_text_without_update_paints_previous_text_and_warns() {
    let mut label = Label::new(LabelText::new("old"));
    let env = env();
    label.lifecycle(&mut LifeCycleCtx::new(), &LifeCycle::WidgetAdded, &env);
    label.set_text(LabelText::new("new"));
    assert_eq!(label.text(), "new");
    let mut ctx = PaintCtx::new(Size::new(50, 20));
    label.paint(&mut ctx, &env);
    assert_eq!(ctx.diagnostics, vec![Diagnostic::StaleLabelText]);
    assert_eq!(drawn_text(&ctx.ops[0]), Some(("old".to_string(), Point::new(2, 0))));
}

#[test]
fn lifecycle_after_set_text_shows_new_text() {
    let mut label = Label::new(LabelText::new("old"));
    let env = env();
    label.lifecycle(&mut LifeCycleCtx::new(), &LifeCycle::WidgetAdded, &env);
    label.set_text(LabelText::new("new"));
    let mut lc = LifeCycleCtx::new();
    label.lifecycle(&mut lc, &LifeCycle::WidgetAdded, &env);
    assert!(lc.layout_requested);
    let mut ctx = PaintCtx::new(Size::new(50, 20));
    label.paint(&mut ctx, &env);
    assert!(ctx.diagnostics.is_empty());
    assert_eq!(drawn_text(&ctx.ops[0]), Some(("new".to_string(), Point::new(2, 0))));
}

#[test]
fn settled_label_asks_for_no_layout() {
    let mut label = Label::new(LabelText::new("x"));
    let env = env();
    let mut first = LifeCycleCtx::new();
    label.lifecycle(&mut first, &LifeCycle::WidgetAdded, &env);
    assert!(first.layout_requested);
    let mut second = LifeCycleCtx::new();
    label.lifecycle(&mut second, &LifeCycle::WidgetAdded, &env);
    assert!(!second.layout_requested);
}

#[test]
fn disabling_uses_disabled_color() {
    let mut label = RawLabel::new().with_text_color(KeyOrValue::Concrete(Color::rgb8(1, 2, 3)));
    let env = env();
    let mut engine = StubEngine::new(10, 10, 8);
    let bc = BoxConstraints::loose(Size::new(100, 100));
    let mut lc = LifeCycleCtx::new();
    label.lifecycle(&mut lc, &LifeCycle::DisabledChanged(true), &env);
    assert!(lc.layout_requested);
    label.layout(&mut LayoutCtx::new(), &mut engine, &bc, &env);
    assert_eq!(engine.requests[0].color, Color::rgb8(128, 128, 128));
    // A color set while disabled waits until the label is enabled.
    label.set_text_color(KeyOrValue::Concrete(Color::rgb8(9, 9, 9)));
    label.layout(&mut LayoutCtx::new(), &mut engine, &bc, &env);
    assert_eq!(engine.requests.len(), 1);
    label.lifecycle(&mut LifeCycleCtx::new(), &LifeCycle::DisabledChanged(false), &env);
    label.layout(&mut LayoutCtx::new(), &mut engine, &bc, &env);
    assert_eq!(engine.requests[1].color, Color::rgb8(9, 9, 9));
}

#[test]
fn style_setters_reach_the_engine() {
    let font = FontDescriptor { family: FontFamily::Monospace, size: 12, weight: 700 };
    let mut label = Label::new(LabelText::new("styled"))
        .with_font(KeyOrValue::Concrete(font))
        .with_text_size(KeyOrValue::Concrete(30))
        .with_text_alignment(TextAlignment::Center)
        .with_text_color(KeyOrValue::Key(ColorKey::DisabledText));
    let mut engine = StubEngine::new(10, 10, 8);
    label.layout(&mut LayoutCtx::new(), &mut engine, &BoxConstraints::loose(Size::new(100, 100)), &env());
    let req = &engine.requests[0];
    assert_eq!(req.font, FontDescriptor { family: FontFamily::Monospace, size: 30, weight: 700 });
    assert_eq!(req.alignment, TextAlignment::Center);
    assert_eq!(req.color, Color::rgb8(128, 128, 128));
}

#[test]
fn environment_keys_resolve() {
    let env = env();
    assert_eq!(resolve_color(KeyOrValue::Key(ColorKey::Text), &env), Color::rgb8(10, 10, 10));
    let mut label = RawLabel::new().with_font(KeyOrValue::Key(FontKey::Ui));
    label.set_text_size(KeyOrValue::Key(SizeKey::Text));
    let mut engine = StubEngine::new(1, 1, 1);
    label.layout(&mut LayoutCtx::new(), &mut engine, &BoxConstraints::loose(Size::new(9, 9)), &env);
    assert_eq!(engine.requests[0].font.size, 15);
}

#[test]
fn pointer_over_link_sets_pointer_cursor() {
    let mut label = RawLabel::new();
    let mut engine = StubEngine::new(50, 20, 15);
    engine.links.push(Rect::new(10, 0, 20, 10));
    label.layout(&mut LayoutCtx::new(), &mut engine, &BoxConstraints::loose(Size::new(100, 100)), &env());
    let mut ctx = EventCtx::new();
    // 13 less the padding is 11, inside the link.
    label.on_event(&mut ctx, &Event::MouseMove(MouseEvent { pos: Point::new(13, 5) }), &env());
    assert_eq!(ctx.cursor, Some(CursorIcon::Pointer));
    // 11 less the padding is 9, outside it.
    label.on_event(&mut ctx, &Event::MouseMove(MouseEvent { pos: Point::new(11, 5) }), &env());
    assert_eq!(ctx.cursor, None);
    label.on_event(&mut ctx, &Event::MouseMove(MouseEvent { pos: Point::new(i64::MIN, 5) }), &env());
    assert_eq!(ctx.cursor, None);
}

#[test]
fn releasing_over_link_changes_nothing() {
    let mut label = RawLabel::new();
    let mut engine = StubEngine::new(50, 20, 15);
    engine.links.push(Rect::new(0, 0, 50, 20));
    label.layout(&mut LayoutCtx::new(), &mut engine, &BoxConstraints::loose(Size::new(100, 100)), &env());
    let mut ctx = EventCtx::new();
    ctx.set_cursor(CursorIcon::Arrow);
    label.on_event(&mut ctx, &Event::MouseUp(MouseEvent { pos: Point::new(5, 5) }), &env());
    assert_eq!(ctx.cursor, Some(CursorIcon::Arrow));
    let mut lc = LifeCycleCtx::new();
    label.on_status_change(&mut lc, &StatusChange::HotChanged(true), &env());
    assert!(!lc.layout_requested);
}

#[test]
fn labels_have_no_children() {
    let label = Label::new(LabelText::new("x"));
    assert_eq!(label.children().len(), 0);
    assert_eq!(label.children().get(0), None);
    assert_eq!(label.get_child_at_pos(Point::new(0, 0)), None);
    let raw = Label::raw();
    assert_eq!(raw.children().len(), 0);
}

#[test]
fn draw_at_uses_the_given_origin() {
    let label = Label::new(LabelText::new("here"));
    let mut ctx = PaintCtx::new(Size::new(10, 10));
    label.draw_at(&mut ctx, Point::new(7, 8));
    assert_eq!(drawn_text(&ctx.ops[0]), Some(("here".to_string(), Point::new(7, 8))));
}

#[test]
fn raw_label_is_reachable_through_the_label() {
    let mut label = Label::new(LabelText::new("wide text"));
    label.as_raw_mut().set_line_break_mode(LineBreaking::Clip);
    let mut engine = StubEngine::new(90, 10, 7);
    let size = label.layout(&mut LayoutCtx::new(), &mut engine, &BoxConstraints::loose(Size::new(50, 50)), &env());
    assert_eq!(size, Size::new(50, 10));
    assert_eq!(label.baseline_offset(), 3);
    assert_eq!(label.as_raw().baseline_offset(), 3);
    let mut ctx = PaintCtx::new(size);
    label.paint(&mut ctx, &env());
    assert!(matches!(ctx.ops[0], PaintOp::Clip(_)));
}

#[test]
fn default_raw_label_is_empty_and_overflows() {
    let mut label = RawLabel::default();
    let mut engine = StubEngine::new(0, 0, 0);
    let size = label.layout(&mut LayoutCtx::new(), &mut engine, &BoxConstraints::loose(Size::new(10, 10)), &env());
    assert_eq!(engine.requests[0].text, "");
    assert_eq!(engine.requests[0].wrap_width, None);
    assert_eq!(engine.requests[0].alignment, TextAlignment::Start);
    assert_eq!(size, Size::new(4, 0));
}

#[test]
fn label_text_converts_from_strings() {
    let mut a = LabelText::from("from str");
    assert_eq!(a.display_text(), "from str");
    assert!(a.resolve(&env()));
    let b = LabelText::from("owned".to_string());
    assert_eq!(b.display_text(), "owned");
    let label = Label::new("direct".into());
    assert_eq!(label.text(), "direct");
}

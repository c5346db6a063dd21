use widget_cruncher::contexts::{
    CursorIcon, Env, Event, EventCtx, LifeCycle, LifeCycleCtx, MouseEvent, PaintCtx, PaintOp,
};
use widget_cruncher::geometry::{BoxConstraints, Point, Rect, Size};
use widget_cruncher::label::{Label, LabelText, RawLabel};
use widget_cruncher::pod::WidgetPod;
use widget_cruncher::text::{BuiltText, Color, FontDescriptor, FontFamily, TextEngine, TextMetrics, TextRequest};
use widget_cruncher::widget::{WidgetId, WidgetIdCounter};

struct CountingEngine {
    builds: usize,
    links: Vec<Rect>,
}

impl TextEngine for CountingEngine {
    fn build(&mut self, _request: &TextRequest) -> BuiltText {
        self.builds += 1;
        BuiltText {
            metrics: TextMetrics { size: Size::new(30, 12), first_baseline: 10 },
            links: self.links.clone(),
        }
    }
}

fn env() -> Env {
    Env {
        text_color: Color::rgb8(0, 0, 0),
        disabled_text_color: Color::rgb8(100, 100, 100),
        ui_font: FontDescriptor { family: FontFamily::SansSerif, size: 13, weight: 400 },
        text_size: 13,
    }
}

#[test]
fn pod_layout_is_cached_per_constraints() {
    let mut counter = WidgetIdCounter::new();
    let id = WidgetId::next(&mut counter);
    let mut pod = WidgetPod::new(Label::new(LabelText::new("abc")), id);
    assert_eq!(pod.id(), id);
    assert!(pod.state().needs_layout);
    let mut engine = CountingEngine { builds: 0, links: Vec::new() };
    let bc = BoxConstraints::loose(Size::new(100, 100));
    let size = pod.layout(&mut engine, &bc, &env());
    assert_eq!(size, Size::new(34, 12));
    assert_eq!(pod.baseline_offset(), 2);
    assert!(!pod.state().needs_layout);
    assert!(pod.state().needs_paint);
    // The same constraints again: the child is not laid out twice.
    assert_eq!(pod.layout(&mut engine, &bc, &env()), size);
    assert_eq!(engine.builds, 1);
    // Tighter constraints lay it out again.
    let narrow = BoxConstraints::loose(Size::new(20, 100));
    assert_eq!(pod.layout(&mut engine, &narrow, &env()), Size::new(20, 12));
}

#[test]
fn pod_origin_places_rect() {
    let mut counter = WidgetIdCounter::new();
    let mut pod = WidgetPod::new(Label::raw(), WidgetId::next(&mut counter));
    let mut engine = CountingEngine { builds: 0, links: Vec::new() };
    pod.layout(&mut engine, &BoxConstraints::loose(Size::new(100, 100)), &env());
    pod.set_origin(Point::new(5, 7));
    assert_eq!(pod.layout_rect(), Rect::new(5, 7, 39, 19));
    assert_eq!(pod.state().layout_rect, Rect::new(5, 7, 39, 19));
}

#[test]
fn pod_routes_pointer_events_inside_only() {
    let mut counter = WidgetIdCounter::new();
    let mut pod = WidgetPod::new(RawLabel::new(), WidgetId::next(&mut counter));
    let mut engine = CountingEngine { builds: 0, links: vec![Rect::new(0, 0, 10, 12)] };
    pod.layout(&mut engine, &BoxConstraints::loose(Size::new(100, 100)), &env());
    pod.set_origin(Point::new(100, 0));
    let mut ctx = EventCtx::new();
    // Outside the child: nothing reaches it.
    pod.on_event(&mut ctx, &Event::MouseMove(MouseEvent { pos: Point::new(5, 5) }), &env());
    assert_eq!(ctx.cursor, None);
    // 105 in the container is 5 in the child, 3 in the text: over the link.
    pod.on_event(&mut ctx, &Event::MouseMove(MouseEvent { pos: Point::new(105, 5) }), &env());
    assert_eq!(ctx.cursor, Some(CursorIcon::Pointer));
    // 125 is 25 in the child, 23 in the text: past the link.
    pod.on_event(&mut ctx, &Event::MouseMove(MouseEvent { pos: Point::new(125, 5) }), &env());
    assert_eq!(ctx.cursor, None);
}

#[test]
fn pod_lifecycle_passes_layout_requests_up() {
    let mut counter = WidgetIdCounter::new();
    let mut pod = WidgetPod::new(RawLabel::new(), WidgetId::next(&mut counter));
    let mut engine = CountingEngine { builds: 0, links: Vec::new() };
    pod.layout(&mut engine, &BoxConstraints::loose(Size::new(100, 100)), &env());
    assert!(!pod.state().needs_layout);
    let mut ctx = LifeCycleCtx::new();
    pod.lifecycle(&mut ctx, &LifeCycle::WidgetAdded, &env());
    assert!(!ctx.layout_requested);
    pod.lifecycle(&mut ctx, &LifeCycle::DisabledChanged(true), &env());
    assert!(ctx.layout_requested);
    assert!(pod.state().needs_layout);
}

#[test]
fn pod_paints_child_at_its_origin() {
    let mut counter = WidgetIdCounter::new();
    let mut pod = WidgetPod::new(Label::new(LabelText::new("hi")), WidgetId::next(&mut counter));
    let mut engine = CountingEngine { builds: 0, links: Vec::new() };
    pod.layout(&mut engine, &BoxConstraints::loose(Size::new(100, 100)), &env());
    pod.set_origin(Point::new(3, 4));
    let mut ctx = PaintCtx::new(Size::new(200, 200));
    pod.paint(&mut ctx, &env());
    assert_eq!(ctx.ops.len(), 4);
    assert!(matches!(ctx.ops[0], PaintOp::Save));
    match &ctx.ops[1] {
        PaintOp::Translate(p) => assert_eq!(*p, Point::new(3, 4)),
        _ => panic!("expected a translation"),
    }
    match &ctx.ops[2] {
        PaintOp::DrawText { text, origin } => {
            assert_eq!(text, "hi");
            assert_eq!(*origin, Point::new(2, 0));
        }
        _ => panic!("expected the text"),
    }
    assert!(matches!(ctx.ops[3], PaintOp::Restore));
    assert!(!pod.state().needs_paint);
    assert_eq!(pod.widget().text(), "hi");
}

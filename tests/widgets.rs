use rg3d_ui::border::{Border, BorderBuilder};
use rg3d_ui::brush::{Brush, Color, GradientPoint};
use rg3d_ui::decorator::{DecoratorBuilder, WidgetMessage};
use rg3d_ui::math::{Constraint, Extent, Rect, Vec2};
use rg3d_ui::progress_bar::{ProgressBarBuilder, PROGRESS_FULL};
use rg3d_ui::widget::{Thickness, WidgetBuilder};

fn solid(b: &Brush) -> Color {
    match b {
        Brush::Solid(c) => *c,
        _ => panic!("expected a solid brush"),
    }
}

fn gradient_stops(b: &Brush) -> Vec<GradientPoint> {
    match b {
        Brush::LinearGradient { stops, .. } => stops.clone(),
        _ => panic!("expected a gradient"),
    }
}

#[test]
fn border_defaults() {
    let b = BorderBuilder::new(WidgetBuilder::new()).build_node();
    assert_eq!(b.stroke_thickness(), Thickness::uniform(1));
    assert_eq!(solid(&b.widget().foreground()), Color::opaque(100, 100, 100));
    let b = Border::new(WidgetBuilder::new().build());
    assert_eq!(b.stroke_thickness(), Thickness::uniform(1));
}

#[test]
fn border_keeps_given_foreground_and_stroke() {
    let b = BorderBuilder::new(WidgetBuilder::new().with_foreground(Brush::Solid(Color::opaque(1, 2, 3))))
        .with_stroke_thickness(Thickness::uniform(4))
        .build_node();
    assert_eq!(b.stroke_thickness(), Thickness::uniform(4));
    assert_eq!(solid(&b.widget().foreground()), Color::opaque(1, 2, 3));
}

#[test]
fn new_stroke_invalidates_layout() {
    let mut b = Border::new(WidgetBuilder::new().build());
    b.set_stroke_thickness(Thickness::uniform(1));
    assert!(!b.widget().is_layout_valid());
    let t = Thickness { left: 1, top: 2, right: 3, bottom: 4 };
    b.set_stroke_thickness(t);
    assert_eq!(b.stroke_thickness(), t);
    assert!(!b.widget().is_layout_valid());
}

#[test]
fn border_measure_adds_stroke_to_largest_child() {
    let b = BorderBuilder::new(WidgetBuilder::new())
        .with_stroke_thickness(Thickness { left: 1, top: 2, right: 3, bottom: 4 })
        .build_node();
    let sizes = [Vec2::new(10, 50), Vec2::new(30, 5), Vec2::new(-7, 0)];
    assert_eq!(b.measure_override(&sizes), Vec2::new(34, 56));
    assert_eq!(b.measure_override(&[]), Vec2::new(4, 6));
    let room = b.child_constraint(Constraint::new(Extent::Finite(100), Extent::Infinite));
    assert_eq!(room, Constraint::new(Extent::Finite(96), Extent::Infinite));
}

#[test]
fn border_arranges_children_inside_stroke() {
    let b = BorderBuilder::new(WidgetBuilder::new())
        .with_stroke_thickness(Thickness { left: 1, top: 2, right: 3, bottom: 4 })
        .build_node();
    assert_eq!(b.child_rect(Vec2::new(100, 50)), Rect { x: 1, y: 2, w: 96, h: 44 });
}

#[test]
fn decorator_defaults_are_bevels() {
    let d = DecoratorBuilder::new(BorderBuilder::new(WidgetBuilder::new())).build();
    let bg = d.border().widget().background();
    let stops = gradient_stops(&bg);
    let positions: Vec<u8> = stops.iter().map(|s| s.stop).collect();
    assert_eq!(positions, vec![0, 46, 50, 54, 100]);
    assert_eq!(stops[0].color, Color::opaque(85, 85, 85));
    assert_eq!(stops[2].color, Color::opaque(65, 65, 65));
    assert_eq!(stops[4].color, Color::opaque(75, 75, 75));
}

#[test]
fn decorator_follows_pointer() {
    let normal = Brush::Solid(Color::opaque(1, 1, 1));
    let hover = Brush::Solid(Color::opaque(2, 2, 2));
    let pressed = Brush::Solid(Color::opaque(3, 3, 3));
    let mut d = DecoratorBuilder::new(BorderBuilder::new(WidgetBuilder::new()))
        .with_normal_brush(normal)
        .with_hover_brush(hover)
        .with_pressed_brush(pressed)
        .build();
    let bg = |d: &rg3d_ui::decorator::Decorator| solid(&d.border().widget().background());
    assert_eq!(bg(&d), Color::opaque(1, 1, 1));
    d.handle_message(WidgetMessage::MouseEnter, true);
    assert_eq!(bg(&d), Color::opaque(2, 2, 2));
    d.handle_message(WidgetMessage::MouseDown, true);
    assert_eq!(bg(&d), Color::opaque(3, 3, 3));
    d.handle_message(WidgetMessage::Other, true);
    assert_eq!(bg(&d), Color::opaque(3, 3, 3));
    d.handle_message(WidgetMessage::MouseUp, false);
    assert_eq!(bg(&d), Color::opaque(3, 3, 3));
    d.handle_message(WidgetMessage::MouseUp, true);
    assert_eq!(bg(&d), Color::opaque(1, 1, 1));
    d.handle_message(WidgetMessage::MouseEnter, true);
    d.handle_message(WidgetMessage::MouseLeave, true);
    assert_eq!(bg(&d), Color::opaque(1, 1, 1));
}

#[test]
fn widget_builder_defaults() {
    let w = WidgetBuilder::new().with_child(3).with_child(5).build();
    assert_eq!(w.children(), &[3usize, 5][..]);
    assert_eq!(solid(&w.background()), Color { r: 0, g: 0, b: 0, a: 0 });
    assert_eq!(solid(&w.foreground()), Color::white());
}

#[test]
fn progress_is_clamped() {
    let b = ProgressBarBuilder::new(WidgetBuilder::new()).with_progress(1500);
    let mut bar = b.with_body(7).with_indicator(8).build(1, 2);
    assert_eq!(bar.progress(), PROGRESS_FULL);
    bar.set_progress(-3);
    assert_eq!(bar.progress(), 0);
    bar.set_progress(250);
    assert_eq!(bar.progress(), 250);
    assert!(!bar.widget().is_layout_valid());
}

#[test]
fn indicator_takes_share_of_width() {
    let mut bar = ProgressBarBuilder::new(WidgetBuilder::new()).build(1, 2);
    bar.set_progress(250);
    assert_eq!(bar.indicator_size(Vec2::new(200, 30)), Vec2::new(50, 30));
    bar.set_progress(333);
    assert_eq!(bar.indicator_size(Vec2::new(10, 4)), Vec2::new(3, 4));
}

#[test]
fn progress_bar_nodes() {
    let bar = ProgressBarBuilder::new(WidgetBuilder::new().with_child(9)).build(1, 2);
    assert_eq!((bar.body(), bar.indicator()), (1, 2));
    assert_eq!(bar.widget().children(), &[9usize, 1][..]);
    let bar = ProgressBarBuilder::new(WidgetBuilder::new()).with_body(5).with_indicator(6).build(1, 2);
    assert_eq!((bar.body(), bar.indicator()), (5, 6));
    let ind = ProgressBarBuilder::default_indicator().build_node();
    assert_eq!(solid(&ind.widget().background()), Color::opaque(180, 180, 180));
    assert!(ProgressBarBuilder::default_body().stroke_thickness.is_none());
}

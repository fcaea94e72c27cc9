//! A border whose background follows the pointer: one paint at rest, one
//! under the pointer, one while pressed.
use vstd::prelude::*;
use crate::border::{built_border, Border, BorderBuilder, BorderView};
use crate::brush::{Brush, BrushView, Color, GradientPoint};
use crate::math::Vec2;
use crate::widget::WidgetView;

verus! {

/// Pointer messages a decorator reacts to; `Other` stands for the rest.
#[derive(Clone, Copy, Debug, PartialEq, Eq, Structural)]
pub enum WidgetMessage {
    MouseEnter,
    MouseLeave,
    MouseDown,
    MouseUp,
    Other,
}

/// What a decorator holds.
pub struct DecoratorView {
    pub border: BorderView,
    pub normal_brush: BrushView,
    pub hover_brush: BrushView,
    pub pressed_brush: BrushView,
}

/// A border that repaints its background on pointer messages.
pub struct Decorator {
    border: Border,
    normal_brush: Brush,
    hover_brush: Brush,
    pressed_brush: Brush,
}

impl View for Decorator {
    type V = DecoratorView;

    closed spec fn view(&self) -> DecoratorView {
        DecoratorView {
            border: self.border@,
            normal_brush: self.normal_brush@,
            hover_brush: self.hover_brush@,
            pressed_brush: self.pressed_brush@,
        }
    }
}

/// The background a decorator takes on `msg`, if it takes one.
pub open spec fn background_for(v: DecoratorView, msg: WidgetMessage) -> Option<BrushView> {
    match msg {
        WidgetMessage::MouseLeave => Some(v.normal_brush),
        WidgetMessage::MouseEnter => Some(v.hover_brush),
        WidgetMessage::MouseDown => Some(v.pressed_brush),
        WidgetMessage::MouseUp => Some(v.normal_brush),
        WidgetMessage::Other => None,
    }
}

impl Decorator {
    pub fn border(&self) -> (r: &Border)
        ensures
            r@ == self@.border,
    {
        &self.border
    }

    /// Reacts to `msg`. `concerns_self` tells whether the message comes from
    /// the decorator itself or from one of its descendants; others are ignored.
    pub fn handle_message(&mut self, msg: WidgetMessage, concerns_self: bool)
        ensures
            final(self)@ == (if concerns_self && background_for(old(self)@, msg) is Some {
                DecoratorView {
                    border: BorderView {
                        widget: WidgetView {
                            background: background_for(old(self)@, msg)->Some_0,
                            ..old(self)@.border.widget
                        },
                        ..old(self)@.border
                    },
                    ..old(self)@
                }
            } else {
                old(self)@
            }),
    {
        if concerns_self {
            match msg {
                WidgetMessage::MouseLeave => self.border.set_background(self.normal_brush.clone()),
                WidgetMessage::MouseEnter => self.border.set_background(self.hover_brush.clone()),
                WidgetMessage::MouseDown => self.border.set_background(self.pressed_brush.clone()),
                WidgetMessage::MouseUp => self.border.set_background(self.normal_brush.clone()),
                WidgetMessage::Other => {},
            }
        }
    }
}

/// A vertical gradient with a bevel: `a` down to near the middle, `b` at the
/// middle, then `c` to the bottom.
pub open spec fn bevel(a: Color, b: Color, c: Color) -> BrushView {
    BrushView::LinearGradient {
        from: Vec2 { x: 50, y: 0 },
        to: Vec2 { x: 50, y: 100 },
        stops: seq![
            GradientPoint { stop: 0, color: a },
            GradientPoint { stop: 46, color: a },
            GradientPoint { stop: 50, color: b },
            GradientPoint { stop: 54, color: c },
            GradientPoint { stop: 100, color: c },
        ],
    }
}

pub open spec fn grey(r: u8, g: u8, b: u8) -> Color {
    Color { r, g, b, a: 255 }
}

/// Background at rest when none is given.
pub open spec fn default_normal_brush() -> BrushView {
    bevel(grey(85, 85, 85), grey(65, 65, 65), grey(75, 75, 75))
}

/// Background under the pointer when none is given.
pub open spec fn default_hover_brush() -> BrushView {
    bevel(grey(105, 95, 85), grey(85, 75, 65), grey(95, 85, 75))
}

/// Background while pressed when none is given.
pub open spec fn default_pressed_brush() -> BrushView {
    bevel(grey(65, 65, 65), grey(45, 45, 45), grey(55, 55, 55))
}

fn make_bevel(a: Color, b: Color, c: Color) -> (r: Brush)
    ensures
        r@ == bevel(a, b, c),
{
    let stops = vec![
        GradientPoint { stop: 0, color: a },
        GradientPoint { stop: 46, color: a },
        GradientPoint { stop: 50, color: b },
        GradientPoint { stop: 54, color: c },
        GradientPoint { stop: 100, color: c },
    ];
    let r = Brush::LinearGradient { from: Vec2 { x: 50, y: 0 }, to: Vec2 { x: 50, y: 100 }, stops };
    assert(r@ == bevel(a, b, c)) by {
        assert(stops@ =~= bevel(a, b, c)->stops);
    }
    r
}

/// Collects the configuration of a decorator.
pub struct DecoratorBuilder {
    border_builder: BorderBuilder,
    normal_brush: Option<Brush>,
    hover_brush: Option<Brush>,
    pressed_brush: Option<Brush>,
}

/// The paint given, or `default` when none was.
pub open spec fn given_or(b: Option<Brush>, default: BrushView) -> BrushView {
    match b {
        Some(x) => x@,
        None => default,
    }
}

impl DecoratorBuilder {
    pub fn new(border_builder: BorderBuilder) -> (r: DecoratorBuilder)
        ensures
            r.border() == border_builder,
            r.normal() is None,
            r.hover() is None,
            r.pressed() is None,
    {
        DecoratorBuilder { border_builder, normal_brush: None, hover_brush: None, pressed_brush: None }
    }

    pub closed spec fn border(&self) -> BorderBuilder {
        self.border_builder
    }

    pub closed spec fn normal(&self) -> Option<Brush> {
        self.normal_brush
    }

    pub closed spec fn hover(&self) -> Option<Brush> {
        self.hover_brush
    }

    pub closed spec fn pressed(&self) -> Option<Brush> {
        self.pressed_brush
    }

    pub fn with_normal_brush(self, brush: Brush) -> (r: DecoratorBuilder)
        ensures
            r.border() == self.border(),
            r.normal() == Some(brush),
            r.hover() == self.hover(),
            r.pressed() == self.pressed(),
    {
        DecoratorBuilder { normal_brush: Some(brush), ..self }
    }

    pub fn with_hover_brush(self, brush: Brush) -> (r: DecoratorBuilder)
        ensures
            r.border() == self.border(),
            r.normal() == self.normal(),
            r.hover() == Some(brush),
            r.pressed() == self.pressed(),
    {
        DecoratorBuilder { hover_brush: Some(brush), ..self }
    }

    pub fn with_pressed_brush(self, brush: Brush) -> (r: DecoratorBuilder)
        ensures
            r.border() == self.border(),
            r.normal() == self.normal(),
            r.hover() == self.hover(),
            r.pressed() == Some(brush),
    {
        DecoratorBuilder { pressed_brush: Some(brush), ..self }
    }

    /// The decorator: its border, painted with the resting background, and
    /// the three backgrounds, each given or the default bevel.
    pub fn build(self) -> (r: Decorator)
        ensures
            ({
                let normal = given_or(self.normal(), default_normal_brush());
                let b = built_border(
                    self.border().widget_builder@,
                    self.border().stroke_thickness,
                );
                r@ == (DecoratorView {
                    border: BorderView { widget: WidgetView { background: normal, ..b.widget }, ..b },
                    normal_brush: normal,
                    hover_brush: given_or(self.hover(), default_hover_brush()),
                    pressed_brush: given_or(self.pressed(), default_pressed_brush()),
                })
            }),
    {
        let normal_brush = match self.normal_brush {
            Some(b) => b,
            None => make_bevel(Color::opaque(85, 85, 85), Color::opaque(65, 65, 65), Color::opaque(75, 75, 75)),
        };
        let mut border = self.border_builder.build_node();
        border.set_background(normal_brush.clone());
        let hover_brush = match self.hover_brush {
            Some(b) => b,
            None => make_bevel(Color::opaque(105, 95, 85), Color::opaque(85, 75, 65), Color::opaque(95, 85, 75)),
        };
        let pressed_brush = match self.pressed_brush {
            Some(b) => b,
            None => make_bevel(Color::opaque(65, 65, 65), Color::opaque(45, 45, 45), Color::opaque(55, 55, 55)),
        };
        Decorator { border, normal_brush, hover_brush, pressed_brush }
    }
}

} // verus!

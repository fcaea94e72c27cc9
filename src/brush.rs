//! Paint descriptions handed to the renderer.
use vstd::prelude::*;
use crate::math::Vec2;

verus! {

/// An RGBA color, eight bits per channel.
#[derive(Clone, Copy, Debug, PartialEq, Eq, Structural)]
pub struct Color {
    pub r: u8,
    pub g: u8,
    pub b: u8,
    pub a: u8,
}

impl Color {
    pub fn opaque(r: u8, g: u8, b: u8) -> (c: Color)
        ensures
            c == (Color { r, g, b, a: 255 }),
    {
        Color { r, g, b, a: 255 }
    }

    pub fn white() -> (c: Color)
        ensures
            c == (Color { r: 255, g: 255, b: 255, a: 255 }),
    {
        Color { r: 255, g: 255, b: 255, a: 255 }
    }
}

/// One stop of a gradient; `stop` is the position along it in hundredths.
#[derive(Clone, Copy, Debug, PartialEq, Eq, Structural)]
pub struct GradientPoint {
    pub stop: u8,
    pub color: Color,
}

/// How a shape is filled. Gradient end points are given in hundredths of the
/// painted rectangle's size.
#[derive(Debug)]
pub enum Brush {
    Solid(Color),
    LinearGradient { from: Vec2, to: Vec2, stops: Vec<GradientPoint> },
}

/// What a brush paints with: a color, or a gradient's ends and stops.
pub enum BrushView {
    Solid(Color),
    LinearGradient { from: Vec2, to: Vec2, stops: Seq<GradientPoint> },
}

impl View for Brush {
    type V = BrushView;

    open spec fn view(&self) -> BrushView {
        match self {
            Brush::Solid(c) => BrushView::Solid(*c),
            Brush::LinearGradient { from, to, stops } => BrushView::LinearGradient {
                from: *from,
                to: *to,
                stops: stops@,
            },
        }
    }
}

impl Clone for Brush {
    fn clone(&self) -> (r: Self)
        ensures
            r@ == self@,
    {
        match self {
            Brush::Solid(c) => Brush::Solid(*c),
            Brush::LinearGradient { from, to, stops } => {
                let stops = stops.clone();
                assert(stops@ =~= self->stops@);
                Brush::LinearGradient { from: *from, to: *to, stops }
            },
        }
    }
}

} // verus!

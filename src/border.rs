//! A control that draws a frame of a given thickness around its children.
use vstd::prelude::*;
use crate::brush::{Brush, BrushView, Color};
use crate::math::{Constraint, Extent, Rect, Vec2};
use crate::widget::{built_widget, Thickness, Widget, WidgetBuilder, WidgetBuilderView, WidgetView};

verus! {

/// What a border holds.
pub struct BorderView {
    pub widget: WidgetView,
    pub stroke_thickness: Thickness,
}

/// A framed container.
pub struct Border {
    widget: Widget,
    stroke_thickness: Thickness,
}

impl View for Border {
    type V = BorderView;

    closed spec fn view(&self) -> BorderView {
        BorderView { widget: self.widget@, stroke_thickness: self.stroke_thickness }
    }
}

/// Room left along one axis once `margin` is taken off.
pub open spec fn shrink(e: Extent, margin: int) -> Extent {
    match e {
        Extent::Finite(c) => Extent::Finite((c - margin) as i32),
        Extent::Infinite => Extent::Infinite,
    }
}

/// Whether taking `margin` off `e` stays within the range of a finite extent.
pub open spec fn shrink_fits(e: Extent, margin: int) -> bool {
    match e {
        Extent::Finite(c) => i32::MIN <= c - margin <= i32::MAX,
        Extent::Infinite => true,
    }
}

/// Largest width among the first `n` sizes, and never below zero.
pub open spec fn max_x(sizes: Seq<Vec2>, n: nat) -> int
    decreases n,
{
    if n == 0 {
        0
    } else {
        let m = max_x(sizes, (n - 1) as nat);
        if sizes[n - 1].x > m {
            sizes[n - 1].x as int
        } else {
            m
        }
    }
}

/// Largest height among the first `n` sizes, and never below zero.
pub open spec fn max_y(sizes: Seq<Vec2>, n: nat) -> int
    decreases n,
{
    if n == 0 {
        0
    } else {
        let m = max_y(sizes, (n - 1) as nat);
        if sizes[n - 1].y > m {
            sizes[n - 1].y as int
        } else {
            m
        }
    }
}

proof fn lemma_max_bounds(sizes: Seq<Vec2>, n: nat, hi: int)
    requires
        n <= sizes.len(),
        hi >= 0,
        forall|i: int| 0 <= i < sizes.len() ==> #[trigger] sizes[i].x <= hi && sizes[i].y <= hi,
    ensures
        0 <= max_x(sizes, n) <= hi,
        0 <= max_y(sizes, n) <= hi,
    decreases n,
{
    if n > 0 {
        lemma_max_bounds(sizes, (n - 1) as nat, hi);
    }
}

/// Horizontal and vertical room the stroke takes.
pub open spec fn margins(t: Thickness) -> (int, int) {
    (t.left + t.right, t.top + t.bottom)
}

impl Border {
    /// A border around `widget`, one unit thick.
    pub fn new(widget: Widget) -> (r: Border)
        ensures
            r@ == (BorderView { widget: widget@, stroke_thickness: Thickness { left: 1, top: 1, right: 1, bottom: 1 } }),
    {
        Border { widget, stroke_thickness: Thickness::uniform(1) }
    }

    pub fn widget(&self) -> (r: &Widget)
        ensures
            r@ == self@.widget,
    {
        &self.widget
    }

    pub fn stroke_thickness(&self) -> (r: Thickness)
        ensures
            r == self@.stroke_thickness,
    {
        self.stroke_thickness
    }

    pub fn set_background(&mut self, brush: Brush)
        ensures
            final(self)@ == (BorderView {
                widget: WidgetView { background: brush@, ..old(self)@.widget },
                ..old(self)@
            }),
    {
        self.widget.set_background(brush);
    }

    /// Changes the stroke; a new thickness calls for a new layout pass.
    pub fn set_stroke_thickness(&mut self, thickness: Thickness) -> (r: &mut Self)
        ensures
            r@ == (if old(self)@.stroke_thickness != thickness {
                BorderView {
                    widget: WidgetView { layout_valid: false, ..old(self)@.widget },
                    stroke_thickness: thickness,
                }
            } else {
                old(self)@
            }),
            *final(self) == *final(r),
    {
        if self.stroke_thickness != thickness {
            self.stroke_thickness = thickness;
            self.widget.invalidate_layout();
        }
        self
    }

    /// The room each child is measured in: what is available, less the stroke.
    pub fn child_constraint(&self, available: Constraint) -> (r: Constraint)
        requires
            shrink_fits(available.x, margins(self@.stroke_thickness).0),
            shrink_fits(available.y, margins(self@.stroke_thickness).1),
        ensures
            r.x == shrink(available.x, margins(self@.stroke_thickness).0),
            r.y == shrink(available.y, margins(self@.stroke_thickness).1),
    {
        let t = self.stroke_thickness;
        let mx: i64 = t.left as i64 + t.right as i64;
        let my: i64 = t.top as i64 + t.bottom as i64;
        let x = match available.x {
            Extent::Finite(c) => Extent::Finite((c as i64 - mx) as i32),
            Extent::Infinite => Extent::Infinite,
        };
        let y = match available.y {
            Extent::Finite(c) => Extent::Finite((c as i64 - my) as i32),
            Extent::Infinite => Extent::Infinite,
        };
        Constraint { x, y }
    }

    /// The border's desired size: the largest child size on each axis
    /// (never below zero), plus the stroke.
    pub fn measure_override(&self, child_sizes: &[Vec2]) -> (r: Vec2)
        requires
            forall|i: int|
                0 <= i < child_sizes@.len() ==> #[trigger] child_sizes@[i].x <= i64::MAX - 0x1_0000_0000
                    && child_sizes@[i].y <= i64::MAX - 0x1_0000_0000,
        ensures
            r.x == max_x(child_sizes@, child_sizes@.len()) + margins(self@.stroke_thickness).0,
            r.y == max_y(child_sizes@, child_sizes@.len()) + margins(self@.stroke_thickness).1,
    {
        let mut desired = Vec2 { x: 0, y: 0 };
        let mut i: usize = 0;
        while i < child_sizes.len()
            invariant
                i <= child_sizes@.len(),
                desired.x == max_x(child_sizes@, i as nat),
                desired.y == max_y(child_sizes@, i as nat),
            decreases child_sizes@.len() - i,
        {
            let s = child_sizes[i];
            if s.x > desired.x {
                desired.x = s.x;
            }
            if s.y > desired.y {
                desired.y = s.y;
            }
            i = i + 1;
        }
        proof {
            lemma_max_bounds(child_sizes@, child_sizes@.len(), i64::MAX - 0x1_0000_0000);
        }
        let t = self.stroke_thickness;
        desired.x = desired.x + (t.left as i64 + t.right as i64);
        desired.y = desired.y + (t.top as i64 + t.bottom as i64);
        desired
    }

    /// The rectangle the children are arranged in: the final size less the
    /// stroke, offset by the left and top stroke.
    pub fn child_rect(&self, final_size: Vec2) -> (r: Rect)
        requires
            i64::MIN + 0x1_0000_0000 <= final_size.x <= i64::MAX - 0x1_0000_0000,
            i64::MIN + 0x1_0000_0000 <= final_size.y <= i64::MAX - 0x1_0000_0000,
        ensures
            r == (Rect {
                x: self@.stroke_thickness.left as i64,
                y: self@.stroke_thickness.top as i64,
                w: (final_size.x - margins(self@.stroke_thickness).0) as i64,
                h: (final_size.y - margins(self@.stroke_thickness).1) as i64,
            }),
    {
        let t = self.stroke_thickness;
        Rect {
            x: t.left as i64,
            y: t.top as i64,
            w: final_size.x - (t.right as i64 + t.left as i64),
            h: final_size.y - (t.bottom as i64 + t.top as i64),
        }
    }
}

/// The foreground a border's widget gets when it was given none.
pub open spec fn default_border_foreground() -> BrushView {
    BrushView::Solid(Color { r: 100, g: 100, b: 100, a: 255 })
}

/// Collects the configuration of a border.
pub struct BorderBuilder {
    pub widget_builder: WidgetBuilder,
    pub stroke_thickness: Option<Thickness>,
}

/// The border a builder makes from `wb` and `stroke`: the widget with a grey
/// foreground unless one was given, and a one-unit stroke unless one was given.
pub open spec fn built_border(wb: WidgetBuilderView, stroke: Option<Thickness>) -> BorderView {
    let wb2 = match wb.foreground {
        Some(_) => wb,
        None => WidgetBuilderView { foreground: Some(default_border_foreground()), ..wb },
    };
    BorderView {
        widget: built_widget(wb2),
        stroke_thickness: match stroke {
            Some(t) => t,
            None => Thickness { left: 1, top: 1, right: 1, bottom: 1 },
        },
    }
}

impl BorderBuilder {
    pub fn new(widget_builder: WidgetBuilder) -> (r: BorderBuilder)
        ensures
            r.widget_builder@ == widget_builder@,
            r.stroke_thickness is None,
    {
        BorderBuilder { widget_builder, stroke_thickness: None }
    }

    pub fn with_stroke_thickness(self, stroke_thickness: Thickness) -> (r: BorderBuilder)
        ensures
            r.widget_builder@ == self.widget_builder@,
            r.stroke_thickness == Some(stroke_thickness),
    {
        BorderBuilder { stroke_thickness: Some(stroke_thickness), ..self }
    }

    pub fn build_node(self) -> (r: Border)
        ensures
            r@ == built_border(self.widget_builder@, self.stroke_thickness),
    {
        let mut widget_builder = self.widget_builder;
        if widget_builder.foreground.is_none() {
            widget_builder.foreground = Some(Brush::Solid(Color::opaque(100, 100, 100)));
        }
        let stroke_thickness = match self.stroke_thickness {
            Some(t) => t,
            None => Thickness::uniform(1),
        };
        Border { widget: widget_builder.build(), stroke_thickness }
    }
}

} // verus!

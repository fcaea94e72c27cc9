//! The state a control keeps as a node of the widget tree: its paints, its
//! children and whether its layout is up to date.
use vstd::prelude::*;
use crate::brush::{Brush, BrushView, Color};

verus! {

/// Space around a control's content, per side.
#[derive(Clone, Copy, Debug, PartialEq, Eq, Structural)]
pub struct Thickness {
    pub left: i32,
    pub top: i32,
    pub right: i32,
    pub bottom: i32,
}

impl Thickness {
    pub fn uniform(v: i32) -> (r: Thickness)
        ensures
            r == (Thickness { left: v, top: v, right: v, bottom: v }),
    {
        Thickness { left: v, top: v, right: v, bottom: v }
    }
}

/// What a widget holds.
pub struct WidgetView {
    pub background: BrushView,
    pub foreground: BrushView,
    /// Handles of the child nodes, in order.
    pub children: Seq<usize>,
    pub layout_valid: bool,
}

/// A node's own state in the widget tree.
pub struct Widget {
    background: Brush,
    foreground: Brush,
    children: Vec<usize>,
    layout_valid: bool,
}

impl View for Widget {
    type V = WidgetView;

    closed spec fn view(&self) -> WidgetView {
        WidgetView {
            background: self.background@,
            foreground: self.foreground@,
            children: self.children@,
            layout_valid: self.layout_valid,
        }
    }
}

impl Widget {
    pub fn background(&self) -> (r: Brush)
        ensures
            r@ == self@.background,
    {
        self.background.clone()
    }

    pub fn foreground(&self) -> (r: Brush)
        ensures
            r@ == self@.foreground,
    {
        self.foreground.clone()
    }

    pub fn children(&self) -> (r: &[usize])
        ensures
            r@ == self@.children,
    {
        self.children.as_slice()
    }

    pub fn is_layout_valid(&self) -> (r: bool)
        ensures
            r == self@.layout_valid,
    {
        self.layout_valid
    }

    pub fn set_background(&mut self, brush: Brush)
        ensures
            final(self)@ == (WidgetView { background: brush@, ..old(self)@ }),
    {
        self.background = brush;
    }

    /// Marks the layout as needing a new measure and arrange pass.
    pub fn invalidate_layout(&mut self)
        ensures
            final(self)@ == (WidgetView { layout_valid: false, ..old(self)@ }),
    {
        self.layout_valid = false;
    }
}

/// What a widget builder holds.
pub struct WidgetBuilderView {
    pub background: Option<BrushView>,
    pub foreground: Option<BrushView>,
    pub children: Seq<usize>,
}

/// Collects the configuration of a widget.
pub struct WidgetBuilder {
    pub background: Option<Brush>,
    pub foreground: Option<Brush>,
    pub children: Vec<usize>,
}

impl View for WidgetBuilder {
    type V = WidgetBuilderView;

    open spec fn view(&self) -> WidgetBuilderView {
        WidgetBuilderView {
            background: match self.background {
                Some(b) => Some(b@),
                None => None,
            },
            foreground: match self.foreground {
                Some(b) => Some(b@),
                None => None,
            },
            children: self.children@,
        }
    }
}

/// The background of a widget that was given none: transparent.
pub open spec fn default_background() -> BrushView {
    BrushView::Solid(Color { r: 0, g: 0, b: 0, a: 0 })
}

/// The foreground of a widget that was given none: white.
pub open spec fn default_foreground() -> BrushView {
    BrushView::Solid(Color { r: 255, g: 255, b: 255, a: 255 })
}

/// The widget a builder makes: its paints or the defaults, its children, and
/// a layout still to be computed.
pub open spec fn built_widget(b: WidgetBuilderView) -> WidgetView {
    WidgetView {
        background: match b.background {
            Some(x) => x,
            None => default_background(),
        },
        foreground: match b.foreground {
            Some(x) => x,
            None => default_foreground(),
        },
        children: b.children,
        layout_valid: false,
    }
}

impl WidgetBuilder {
    pub fn new() -> (r: WidgetBuilder)
        ensures
            r@ == (WidgetBuilderView { background: None, foreground: None, children: Seq::empty() }),
    {
        WidgetBuilder { background: None, foreground: None, children: Vec::new() }
    }

    pub fn with_background(self, brush: Brush) -> (r: WidgetBuilder)
        ensures
            r@ == (WidgetBuilderView { background: Some(brush@), ..self@ }),
    {
        WidgetBuilder { background: Some(brush), ..self }
    }

    pub fn with_foreground(self, brush: Brush) -> (r: WidgetBuilder)
        ensures
            r@ == (WidgetBuilderView { foreground: Some(brush@), ..self@ }),
    {
        WidgetBuilder { foreground: Some(brush), ..self }
    }

    pub fn with_child(self, child: usize) -> (r: WidgetBuilder)
        ensures
            r@ == (WidgetBuilderView { children: self@.children.push(child), ..self@ }),
    {
        let mut children = self.children;
        children.push(child);
        WidgetBuilder { children, ..self }
    }

    pub fn build(self) -> (r: Widget)
        ensures
            r@ == built_widget(self@),
    {
        let background = match self.background {
            Some(b) => b,
            None => Brush::Solid(Color { r: 0, g: 0, b: 0, a: 0 }),
        };
        let foreground = match self.foreground {
            Some(b) => b,
            None => Brush::Solid(Color::white()),
        };
        Widget { background, foreground, children: self.children, layout_valid: false }
    }
}

} // verus!

//! A bar whose indicator fills the given fraction of its width.
use vstd::prelude::*;
use crate::border::BorderBuilder;
use crate::brush::{Brush, BrushView, Color};
use crate::math::Vec2;
use crate::widget::{built_widget, Widget, WidgetBuilder, WidgetBuilderView, WidgetView};

verus! {

/// Progress is counted in thousandths: this value means complete.
pub const PROGRESS_FULL: u16 = 1000;

/// `p` brought into `[0, PROGRESS_FULL]`.
pub open spec fn clamp_progress(p: int) -> u16 {
    if p < 0 {
        0
    } else if p > PROGRESS_FULL {
        PROGRESS_FULL
    } else {
        p as u16
    }
}

fn clamp(p: i32) -> (r: u16)
    ensures
        r == clamp_progress(p as int),
{
    if p < 0 {
        0
    } else if p > PROGRESS_FULL as i32 {
        PROGRESS_FULL
    } else {
        p as u16
    }
}

/// What a progress bar holds.
pub struct ProgressBarView {
    pub widget: WidgetView,
    pub progress: u16,
    pub indicator: usize,
    pub body: usize,
}

/// A progress bar: its widget, its progress, and the handles of the
/// indicator node and of the body node that frames it.
pub struct ProgressBar {
    widget: Widget,
    progress: u16,
    indicator: usize,
    body: usize,
}

impl View for ProgressBar {
    type V = ProgressBarView;

    closed spec fn view(&self) -> ProgressBarView {
        ProgressBarView {
            widget: self.widget@,
            progress: self.progress,
            indicator: self.indicator,
            body: self.body,
        }
    }
}

impl ProgressBar {
    /// Sets the progress, in thousandths, clamped to `[0, PROGRESS_FULL]`;
    /// the layout must be computed again.
    pub fn set_progress(&mut self, progress: i32)
        ensures
            final(self)@ == (ProgressBarView {
                progress: clamp_progress(progress as int),
                widget: WidgetView { layout_valid: false, ..old(self)@.widget },
                ..old(self)@
            }),
    {
        self.progress = clamp(progress);
        self.widget.invalidate_layout();
    }

    pub fn progress(&self) -> (r: u16)
        ensures
            r == self@.progress,
    {
        self.progress
    }

    pub fn indicator(&self) -> (r: usize)
        ensures
            r == self@.indicator,
    {
        self.indicator
    }

    pub fn body(&self) -> (r: usize)
        ensures
            r == self@.body,
    {
        self.body
    }

    pub fn widget(&self) -> (r: &Widget)
        ensures
            r@ == self@.widget,
    {
        &self.widget
    }

    /// The size the indicator is given when the bar is arranged in `size`:
    /// the progress's share of the width (rounded down), and the full height.
    pub fn indicator_size(&self, size: Vec2) -> (r: Vec2)
        requires
            0 <= size.x <= 0x20_0000_0000_0000,
            self@.progress <= PROGRESS_FULL,
        ensures
            r.x == size.x * self@.progress / (PROGRESS_FULL as int),
            r.y == size.y,
    {
        proof {
            assert(size.x * self.progress <= 0x20_0000_0000_0000 * 1000) by (nonlinear_arith)
                requires
                    0 <= size.x <= 0x20_0000_0000_0000,
                    self.progress <= 1000,
            ;
            assert(size.x * self.progress >= 0) by (nonlinear_arith)
                requires
                    0 <= size.x,
            ;
        }
        Vec2 { x: size.x * self.progress as i64 / PROGRESS_FULL as i64, y: size.y }
    }
}

/// What a progress bar builder holds.
pub struct ProgressBarBuilderView {
    pub widget_builder: WidgetBuilderView,
    pub body: Option<usize>,
    pub indicator: Option<usize>,
    pub progress: u16,
}

/// Collects the configuration of a progress bar.
pub struct ProgressBarBuilder {
    widget_builder: WidgetBuilder,
    body: Option<usize>,
    indicator: Option<usize>,
    progress: u16,
}

impl View for ProgressBarBuilder {
    type V = ProgressBarBuilderView;

    closed spec fn view(&self) -> ProgressBarBuilderView {
        ProgressBarBuilderView {
            widget_builder: self.widget_builder@,
            body: self.body,
            indicator: self.indicator,
            progress: self.progress,
        }
    }
}

/// The background of the indicator a bar gets when it is given none.
pub open spec fn default_indicator_background() -> BrushView {
    BrushView::Solid(Color { r: 180, g: 180, b: 180, a: 255 })
}

impl ProgressBarBuilder {
    pub fn new(widget_builder: WidgetBuilder) -> (r: ProgressBarBuilder)
        ensures
            r@ == (ProgressBarBuilderView {
                widget_builder: widget_builder@,
                body: None,
                indicator: None,
                progress: 0,
            }),
    {
        ProgressBarBuilder { widget_builder, body: None, indicator: None, progress: 0 }
    }

    pub fn with_body(self, body: usize) -> (r: ProgressBarBuilder)
        ensures
            r@ == (ProgressBarBuilderView { body: Some(body), ..self@ }),
    {
        ProgressBarBuilder { body: Some(body), ..self }
    }

    pub fn with_indicator(self, indicator: usize) -> (r: ProgressBarBuilder)
        ensures
            r@ == (ProgressBarBuilderView { indicator: Some(indicator), ..self@ }),
    {
        ProgressBarBuilder { indicator: Some(indicator), ..self }
    }

    /// Sets the starting progress, in thousandths, clamped to
    /// `[0, PROGRESS_FULL]`.
    pub fn with_progress(self, progress: i32) -> (r: ProgressBarBuilder)
        ensures
            r@ == (ProgressBarBuilderView { progress: clamp_progress(progress as int), ..self@ }),
    {
        ProgressBarBuilder { progress: clamp(progress), ..self }
    }

    pub fn body(&self) -> (r: Option<usize>)
        ensures
            r == self@.body,
    {
        self.body
    }

    pub fn indicator(&self) -> (r: Option<usize>)
        ensures
            r == self@.indicator,
    {
        self.indicator
    }

    /// How the body node is built when the bar was given none: a plain border.
    pub fn default_body() -> (r: BorderBuilder)
        ensures
            r.widget_builder@ == (WidgetBuilderView {
                background: None,
                foreground: None,
                children: Seq::empty(),
            }),
            r.stroke_thickness is None,
    {
        BorderBuilder::new(WidgetBuilder::new())
    }

    /// How the indicator node is built when the bar was given none: a border
    /// with a light grey background.
    pub fn default_indicator() -> (r: BorderBuilder)
        ensures
            r.widget_builder@ == (WidgetBuilderView {
                background: Some(default_indicator_background()),
                foreground: None,
                children: Seq::empty(),
            }),
            r.stroke_thickness is None,
    {
        BorderBuilder::new(
            WidgetBuilder::new().with_background(Brush::Solid(Color::opaque(180, 180, 180))),
        )
    }

    /// The bar. `default_body` and `default_indicator` are the nodes the
    /// caller made from `default_body()` and `default_indicator()`; each is
    /// used only where the builder was given no node of its own. The body
    /// becomes the bar's child.
    pub fn build(self, default_body: usize, default_indicator: usize) -> (r: ProgressBar)
        ensures
            ({
                let body = match self@.body {
                    Some(b) => b,
                    None => default_body,
                };
                let indicator = match self@.indicator {
                    Some(i) => i,
                    None => default_indicator,
                };
                r@ == (ProgressBarView {
                    widget: built_widget(
                        WidgetBuilderView {
                            children: self@.widget_builder.children.push(body),
                            ..self@.widget_builder
                        },
                    ),
                    progress: self@.progress,
                    indicator,
                    body,
                })
            }),
    {
        let body = match self.body {
            Some(b) => b,
            None => default_body,
        };
        let indicator = match self.indicator {
            Some(i) => i,
            None => default_indicator,
        };
        ProgressBar {
            widget: self.widget_builder.with_child(body).build(),
            progress: self.progress,
            indicator,
            body,
        }
    }
}

} // verus!

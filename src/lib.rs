//! A retained-mode UI toolkit fragment: a text layout engine with verified
//! line breaking, alignment and glyph placement, and the small widget
//! controls that host it.
use vstd::prelude::*;

pub mod math;
pub mod font;
pub mod brush;
pub mod formatted_text;
pub mod text_laws;
pub mod widget;
pub mod border;
pub mod decorator;
pub mod progress_bar;


verus! {

/// Horizontal placement of content inside the space a layout offers.
#[derive(Clone, Copy, Debug, PartialEq, Eq, Structural)]
pub enum HorizontalAlignment {
    Stretch,
    Left,
    Center,
    Right,
}

/// Vertical placement of content inside the space a layout offers.
#[derive(Clone, Copy, Debug, PartialEq, Eq, Structural)]
pub enum VerticalAlignment {
    Stretch,
    Top,
    Center,
    Bottom,
}

} // verus!

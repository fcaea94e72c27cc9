//! Integer geometry used by layout: points, rectangles and constraints.
use vstd::prelude::*;

verus! {

/// A point or a size, in whole layout units.
#[derive(Clone, Copy, Debug, PartialEq, Eq, Structural)]
pub struct Vec2 {
    pub x: i64,
    pub y: i64,
}

impl Vec2 {
    pub fn new(x: i64, y: i64) -> (r: Vec2)
        ensures
            r.x == x,
            r.y == y,
    {
        Vec2 { x, y }
    }

    pub fn zero() -> (r: Vec2)
        ensures
            r.x == 0,
            r.y == 0,
    {
        Vec2 { x: 0, y: 0 }
    }
}

/// An axis-aligned rectangle: origin `(x, y)` and size `(w, h)`.
#[derive(Clone, Copy, Debug, PartialEq, Eq, Structural)]
pub struct Rect {
    pub x: i64,
    pub y: i64,
    pub w: i64,
    pub h: i64,
}

/// The room available along one axis: a finite length, or no limit at all.
#[derive(Clone, Copy, Debug, PartialEq, Eq, Structural)]
pub enum Extent {
    Finite(i32),
    Infinite,
}

/// The room available to a layout, along each axis independently.
#[derive(Clone, Copy, Debug, PartialEq, Eq, Structural)]
pub struct Constraint {
    pub x: Extent,
    pub y: Extent,
}

impl Constraint {
    pub fn new(x: Extent, y: Extent) -> (r: Constraint)
        ensures
            r.x == x,
            r.y == y,
    {
        Constraint { x, y }
    }

    /// No limit along either axis.
    pub fn unbounded() -> (r: Constraint)
        ensures
            r.x == Extent::Infinite,
            r.y == Extent::Infinite,
    {
        Constraint { x: Extent::Infinite, y: Extent::Infinite }
    }
}

} // verus!

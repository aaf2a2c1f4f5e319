//! Geometry in the normalized coordinate space that capture interfaces use.
//!
//! Native interfaces express points and rectangles of interest in a
//! normalized space where both axes run from 0 to 1. The model keeps those
//! coordinates in thousandths, so the full space is 0 to [`UNIT`] on each
//! axis and no floating point is involved.

pub mod image;

use vstd::prelude::*;

verus! {

/// One full axis of the normalized coordinate space, in thousandths.
pub const UNIT: i32 = 1000;

/// A point in normalized space, both coordinates in thousandths.
#[derive(Clone, Copy, Debug, PartialEq, Eq, Structural)]
pub struct Point {
    pub x: i32,
    pub y: i32,
}

impl Point {
    pub fn new(x: i32, y: i32) -> (p: Point)
        ensures
            p.x == x,
            p.y == y,
    {
        Point { x, y }
    }

    /// Whether the point lies inside the normalized space.
    pub open spec fn is_normalized_spec(&self) -> bool {
        &&& 0 <= self.x <= UNIT
        &&& 0 <= self.y <= UNIT
    }

    #[verifier::when_used_as_spec(is_normalized_spec)]
    pub fn is_normalized(&self) -> (r: bool)
        ensures
            r == self.is_normalized_spec(),
    {
        0 <= self.x && self.x <= UNIT && 0 <= self.y && self.y <= UNIT
    }

    /// The center of the normalized space, the customary default point of
    /// interest.
    pub fn center() -> (p: Point)
        ensures
            p.x == UNIT / 2,
            p.y == UNIT / 2,
    {
        Point { x: UNIT / 2, y: UNIT / 2 }
    }
}

/// A rectangle in normalized space: origin at top left, extent in
/// thousandths.
#[derive(Clone, Copy, Debug, PartialEq, Eq, Structural)]
pub struct Rect {
    pub x: i32,
    pub y: i32,
    pub width: i32,
    pub height: i32,
}

impl Rect {
    pub fn new(x: i32, y: i32, width: i32, height: i32) -> (r: Rect)
        ensures
            r.x == x,
            r.y == y,
            r.width == width,
            r.height == height,
    {
        Rect { x, y, width, height }
    }

    /// Whether the rectangle lies entirely inside the normalized space.
    pub open spec fn is_normalized_spec(&self) -> bool {
        &&& 0 <= self.x
        &&& 0 <= self.y
        &&& 0 <= self.width
        &&& 0 <= self.height
        &&& self.x + self.width <= UNIT
        &&& self.y + self.height <= UNIT
    }

    #[verifier::when_used_as_spec(is_normalized_spec)]
    pub fn is_normalized(&self) -> (r: bool)
        ensures
            r == self.is_normalized_spec(),
    {
        0 <= self.x && 0 <= self.y && 0 <= self.width && 0 <= self.height && self.x <= UNIT
            - self.width && self.y <= UNIT - self.height
    }

    /// The whole normalized space, the customary default rectangle of
    /// interest.
    pub fn full() -> (r: Rect)
        ensures
            r == (Rect { x: 0, y: 0, width: UNIT, height: UNIT }),
            r.is_normalized_spec(),
    {
        Rect { x: 0, y: 0, width: UNIT, height: UNIT }
    }
}

} // verus!

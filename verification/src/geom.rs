//! Integer geometry shared by the input and display sides.

use vstd::prelude::*;

verus! {

/// A direction along the reading order.
#[derive(Debug, Copy, Clone, PartialEq, Eq, Structural)]
pub enum LinearDir {
    Backward,
    Forward,
}

impl LinearDir {
    pub open spec fn spec_opposite(self) -> LinearDir {
        match self {
            LinearDir::Backward => LinearDir::Forward,
            LinearDir::Forward => LinearDir::Backward,
        }
    }

    /// The other direction.
    pub fn opposite(self) -> (dir: LinearDir)
        ensures
            dir == self.spec_opposite(),
    {
        match self {
            LinearDir::Backward => LinearDir::Forward,
            LinearDir::Forward => LinearDir::Backward,
        }
    }
}

/// Half of a length, rounded towards zero.
pub open spec fn small_half(n: i32) -> int {
    if n >= 0 {
        n / 2
    } else {
        -((-n) / 2)
    }
}

/// The two parts of a length cut in the middle; of an odd length the second
/// part is the longer.
pub fn halves(n: i32) -> (parts: (i32, i32))
    ensures
        parts.0 == small_half(n),
        parts.0 + parts.1 == n,
{
    let small = n / 2;
    let big = n - small;
    (small, big)
}

/// A position in display pixels.
#[derive(Debug, Copy, Clone, PartialEq, Eq, Structural)]
pub struct Point {
    pub x: i32,
    pub y: i32,
}

/// An axis-aligned rectangle; `min` is inside, `max` is just outside.
#[derive(Debug, Copy, Clone, PartialEq, Eq, Structural)]
pub struct Rectangle {
    pub min: Point,
    pub max: Point,
}

impl Rectangle {
    /// Neither extent is negative and both fit in an `i32`.
    pub open spec fn ordered(self) -> bool {
        &&& self.min.x <= self.max.x
        &&& self.min.y <= self.max.y
        &&& self.max.x - self.min.x <= i32::MAX
        &&& self.max.y - self.min.y <= i32::MAX
    }

    pub open spec fn spec_width(self) -> int {
        self.max.x - self.min.x
    }

    pub open spec fn spec_height(self) -> int {
        self.max.y - self.min.y
    }

    /// Whether the corners are in order.
    pub fn is_ordered(&self) -> (ordered: bool)
        ensures
            ordered == self.ordered(),
    {
        self.min.x <= self.max.x && self.min.y <= self.max.y && self.max.x as i64
            - self.min.x as i64 <= i32::MAX as i64 && self.max.y as i64 - self.min.y as i64
            <= i32::MAX as i64
    }

    /// The rectangle between two corners.
    pub fn new(min: Point, max: Point) -> (rect: Rectangle)
        ensures
            rect.min == min,
            rect.max == max,
    {
        Rectangle { min, max }
    }

    /// Horizontal extent.
    pub fn width(&self) -> (w: u32)
        requires
            self.ordered(),
        ensures
            w == self.spec_width(),
    {
        (self.max.x - self.min.x) as u32
    }

    /// Vertical extent.
    pub fn height(&self) -> (h: u32)
        requires
            self.ordered(),
        ensures
            h == self.spec_height(),
    {
        (self.max.y - self.min.y) as u32
    }

    pub open spec fn spec_includes(self, pt: Point) -> bool {
        self.min.x <= pt.x < self.max.x && self.min.y <= pt.y < self.max.y
    }

    /// Whether `pt` lies inside the rectangle.
    pub fn includes(&self, pt: Point) -> (inside: bool)
        ensures
            inside == self.spec_includes(pt),
    {
        self.min.x <= pt.x && pt.x < self.max.x && self.min.y <= pt.y && pt.y < self.max.y
    }
}

} // verus!

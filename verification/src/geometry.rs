//! Points and rectangles in 16.16 fixed-point pixels.
//!
//! What a host hands in ([`Position`], [`Rectangle`], [`Offset`]) is 32 bits
//! wide; what the library computes from it ([`Bounds`]) is 64 bits wide, so
//! that sums of a few inputs always fit.

use vstd::prelude::*;

verus! {

/// The largest magnitude of a coordinate or length that the placement
/// helpers accept: every sum of a few 32-bit inputs lies within it.
pub const COORD_LIMIT: i64 = 1099511627776;

/// Whether `v` lies within `limit` of zero.
pub open spec fn within(v: int, limit: int) -> bool {
    -limit <= v <= limit
}

/// A position on screen.
#[derive(Clone, Copy, Debug, PartialEq, Eq, Structural)]
pub struct Position {
    /// Distance from the left edge.
    pub x: i32,
    /// Distance from the top edge.
    pub y: i32,
}

/// The layout bounds of a control, as the host measured them.
#[derive(Clone, Copy, Debug, PartialEq, Eq, Structural)]
pub struct Rectangle {
    /// Left edge.
    pub x: i32,
    /// Top edge.
    pub y: i32,
    /// Extent to the right of `x`.
    pub width: i32,
    /// Extent below `y`.
    pub height: i32,
}

/// A displacement applied to bounds before marks are placed in them.
#[derive(Clone, Copy, Debug, PartialEq, Eq, Structural)]
pub struct Offset {
    /// Displacement to the right.
    pub x: i32,
    /// Displacement downward.
    pub y: i32,
}

/// A rectangle that the library computed: the bounds of a primitive, or
/// layout bounds after an offset.
#[derive(Clone, Copy, Debug, PartialEq, Eq, Structural)]
pub struct Bounds {
    /// Left edge.
    pub x: i64,
    /// Top edge.
    pub y: i64,
    /// Extent to the right of `x`.
    pub width: i64,
    /// Extent below `y`.
    pub height: i64,
}

impl Rectangle {
    /// Whether `point` lies inside the rectangle, edges included.
    pub open spec fn contains_spec(self, point: Position) -> bool {
        &&& self.x <= point.x <= self.x + self.width
        &&& self.y <= point.y <= self.y + self.height
    }

    /// Whether the rectangle covers no area.
    pub open spec fn is_degenerate_spec(self) -> bool {
        self.width <= 0 || self.height <= 0
    }

    /// Whether `point` lies inside the rectangle, edges included.
    pub fn contains(&self, point: Position) -> (inside: bool)
        ensures
            inside == self.contains_spec(point),
    {
        let right: i64 = self.x as i64 + self.width as i64;
        let bottom: i64 = self.y as i64 + self.height as i64;
        self.x <= point.x && point.x as i64 <= right && self.y <= point.y && point.y as i64
            <= bottom
    }

    /// Whether the rectangle covers no area: nothing is placed in such bounds.
    pub fn is_degenerate(&self) -> (degenerate: bool)
        ensures
            degenerate == self.is_degenerate_spec(),
    {
        self.width <= 0 || self.height <= 0
    }
}

impl Offset {
    /// The rectangle `bounds` moved by this offset, its size unchanged.
    pub open spec fn offset_rect_spec(self, bounds: Rectangle) -> Bounds {
        Bounds {
            x: (bounds.x + self.x) as i64,
            y: (bounds.y + self.y) as i64,
            width: bounds.width as i64,
            height: bounds.height as i64,
        }
    }

    /// The rectangle `bounds` moved by this offset, its size unchanged.
    pub fn offset_rect(&self, bounds: &Rectangle) -> (moved: Bounds)
        ensures
            moved == self.offset_rect_spec(*bounds),
            moved.fits(),
    {
        Bounds {
            x: bounds.x as i64 + self.x as i64,
            y: bounds.y as i64 + self.y as i64,
            width: bounds.width as i64,
            height: bounds.height as i64,
        }
    }
}

impl Bounds {
    /// Whether every field is small enough for the placement arithmetic.
    pub open spec fn fits(self) -> bool {
        &&& within(self.x as int, 0x1_0000_0000)
        &&& within(self.y as int, 0x1_0000_0000)
        &&& within(self.width as int, 0x1_0000_0000)
        &&& within(self.height as int, 0x1_0000_0000)
    }

    /// The horizontal middle of the bounds.
    pub open spec fn center_x_spec(self) -> int {
        self.x + self.width / 2
    }

    /// The vertical middle of the bounds.
    pub open spec fn center_y_spec(self) -> int {
        self.y + self.height / 2
    }

    /// The horizontal middle of the bounds.
    pub fn center_x(&self) -> (c: i64)
        requires
            self.fits(),
        ensures
            c == self.center_x_spec(),
    {
        self.x + halved(self.width)
    }

    /// The vertical middle of the bounds.
    pub fn center_y(&self) -> (c: i64)
        requires
            self.fits(),
        ensures
            c == self.center_y_spec(),
    {
        self.y + halved(self.height)
    }
}

/// Half of `v`, rounded downward.
pub fn halved(v: i64) -> (h: i64)
    ensures
        h == v / 2,
{
    if v >= 0 {
        v / 2
    } else if v % 2 == 0 {
        -((-(v + 2)) / 2) - 1
    } else {
        -((-(v + 1)) / 2) - 1
    }
}

} // verus!

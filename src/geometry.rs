use vstd::prelude::*;

verus! {

/// Units of fixed-point position, size and velocity in one pixel.
pub const SUBPIXELS: i64 = 1000;

/// Largest magnitude of a coordinate that the physics accepts.
pub const COORD_LIMIT: i64 = 100_000_000_000_000;

/// A position, size or velocity in fixed-point units.
#[derive(Clone, Copy, Debug, PartialEq, Eq, Structural)]
pub struct Vector2 {
    pub x: i64,
    pub y: i64,
}

/// An axis-aligned rectangle: its top-left corner and its extent.
#[derive(Clone, Copy, Debug, PartialEq, Eq, Structural)]
pub struct Rectangle {
    pub x: i64,
    pub y: i64,
    pub width: i64,
    pub height: i64,
}

pub open spec fn bounded(v: int, limit: int) -> bool {
    -limit <= v <= limit
}

impl Vector2 {
    pub fn new(x: i64, y: i64) -> (r: Vector2)
        ensures
            r.x == x,
            r.y == y,
    {
        Vector2 { x, y }
    }

    pub fn zero() -> (r: Vector2)
        ensures
            r.x == 0,
            r.y == 0,
    {
        Vector2 { x: 0, y: 0 }
    }

    /// Both components lie within `limit` of zero.
    pub open spec fn within(self, limit: int) -> bool {
        bounded(self.x as int, limit) && bounded(self.y as int, limit)
    }
}

impl Rectangle {
    pub fn new(x: i64, y: i64, width: i64, height: i64) -> (r: Rectangle)
        ensures
            r == (Rectangle { x, y, width, height }),
    {
        Rectangle { x, y, width, height }
    }

    /// The two rectangles overlap in an area of positive size: touching
    /// edges do not count.
    pub open spec fn overlaps(self, other: Rectangle) -> bool {
        &&& self.x < other.x + other.width
        &&& other.x < self.x + self.width
        &&& self.y < other.y + other.height
        &&& other.y < self.y + self.height
    }

    pub open spec fn within(self, limit: int) -> bool {
        &&& bounded(self.x as int, limit)
        &&& bounded(self.y as int, limit)
        &&& bounded(self.width as int, limit)
        &&& bounded(self.height as int, limit)
    }

    pub fn intersects(&self, other: &Rectangle) -> (r: bool)
        requires
            self.within(4 * COORD_LIMIT),
            other.within(4 * COORD_LIMIT),
        ensures
            r == self.overlaps(*other),
    {
        self.x < other.x + other.width && other.x < self.x + self.width && self.y < other.y
            + other.height && other.y < self.y + self.height
    }
}

} // verus!

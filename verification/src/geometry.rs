//! Integer geometry: grid vectors and axis-aligned rectangles.
//!
//! Every coordinate is a whole number of canvas units or of image pixels.
//! A rectangle is given by the corner with the smallest coordinates and by
//! its extent, so that its far corner is `origin + size`.

use vstd::prelude::*;

verus! {

/// A position or an extent on the integer grid.
#[derive(Clone, Copy, Debug, PartialEq, Eq, Structural)]
pub struct Vector {
    pub x: i32,
    pub y: i32,
}

/// An axis-aligned rectangle: its near corner and its extent.
#[derive(Clone, Copy, Debug, PartialEq, Eq, Structural)]
pub struct Rect {
    pub origin: Vector,
    pub size: Vector,
}

impl Vector {
    /// The vector with the two given coordinates.
    pub fn new(x: i32, y: i32) -> (v: Vector)
        ensures
            v.x == x,
            v.y == y,
    {
        Vector { x, y }
    }
}

impl Rect {
    /// The rectangle that starts at `origin` and extends by `size`.
    pub fn new(origin: Vector, size: Vector) -> (r: Rect)
        ensures
            r.origin == origin,
            r.size == size,
    {
        Rect { origin, size }
    }

    /// The rectangle that starts at the grid's origin and extends by `size`.
    pub fn from_size(size: Vector) -> (r: Rect)
        ensures
            r.origin == (Vector { x: 0, y: 0 }),
            r.size == size,
    {
        Rect { origin: Vector { x: 0, y: 0 }, size }
    }

    /// The horizontal coordinate of the far corner.
    pub open spec fn max_x(self) -> int {
        self.origin.x + self.size.x
    }

    /// The vertical coordinate of the far corner.
    pub open spec fn max_y(self) -> int {
        self.origin.y + self.size.y
    }

    /// Whether the rectangle has a non-negative extent and lies inside the
    /// area from `(0, 0)` to `(width, height)`.
    pub open spec fn lies_within(self, width: int, height: int) -> bool {
        &&& 0 <= self.origin.x
        &&& 0 <= self.origin.y
        &&& 0 <= self.size.x
        &&& 0 <= self.size.y
        &&& self.max_x() <= width
        &&& self.max_y() <= height
    }

    /// Decides `lies_within` for an area of `width` by `height`.
    pub fn is_within(&self, width: u32, height: u32) -> (inside: bool)
        ensures
            inside == self.lies_within(width as int, height as int),
    {
        if self.origin.x < 0 || self.origin.y < 0 || self.size.x < 0 || self.size.y < 0 {
            return false;
        }
        let far_x: i64 = self.origin.x as i64 + self.size.x as i64;
        let far_y: i64 = self.origin.y as i64 + self.size.y as i64;
        far_x <= width as i64 && far_y <= height as i64
    }
}

} // verus!

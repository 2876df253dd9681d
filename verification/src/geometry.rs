//! Axis-aligned rectangles on the pixel grid.

use vstd::prelude::*;

verus! {

/// A rectangle given by its top-left corner and its extent.
#[derive(Clone, Copy, Debug, PartialEq, Eq, Structural)]
pub struct Rect {
    pub x: i32,
    pub y: i32,
    pub width: i32,
    pub height: i32,
}

impl Rect {
    /// A rectangle is well formed when it has a positive extent in both
    /// directions.
    pub open spec fn wf(&self) -> bool {
        self.width > 0 && self.height > 0
    }

    /// Whether the point `(px, py)` lies in the rectangle, the four edges
    /// included.
    pub open spec fn contains(&self, px: int, py: int) -> bool {
        &&& self.x <= px <= self.x + self.width
        &&& self.y <= py <= self.y + self.height
    }

    /// The rectangle with corner `(x, y)` and the given extent.
    pub fn new(x: i32, y: i32, width: i32, height: i32) -> (rect: Rect)
        requires
            width > 0,
            height > 0,
        ensures
            rect == (Rect { x, y, width, height }),
            rect.wf(),
    {
        Rect { x, y, width, height }
    }

    /// Tests whether the point `(px, py)` lies in the rectangle. A point on
    /// an edge counts as inside.
    pub fn contains_point(&self, px: i32, py: i32) -> (inside: bool)
        ensures
            inside == self.contains(px as int, py as int),
    {
        let right: i64 = self.x as i64 + self.width as i64;
        let bottom: i64 = self.y as i64 + self.height as i64;
        self.x <= px && px as i64 <= right && self.y <= py && py as i64 <= bottom
    }
}

} // verus!

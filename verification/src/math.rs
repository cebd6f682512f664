//! Axis-aligned rectangles in the host's integer coordinate encoding.

use vstd::prelude::*;

verus! {

/// An axis-aligned box, the source of truth for primitive shape geometry and
/// for the pivot of the path-space transform. Coordinates are plain integers
/// in the host's fixed-point encoding.
#[derive(Debug, Clone, Copy, PartialEq, Eq, Structural)]
pub struct Rect {
    pub left: i32,
    pub top: i32,
    pub right: i32,
    pub bottom: i32,
}

impl Rect {
    /// The empty box at the origin.
    pub fn new_empty() -> (r: Rect)
        ensures
            r == (Rect { left: 0, top: 0, right: 0, bottom: 0 }),
    {
        Rect { left: 0, top: 0, right: 0, bottom: 0 }
    }

    /// Rewrites all four edges.
    pub fn set_ltrb(&mut self, left: i32, top: i32, right: i32, bottom: i32)
        ensures
            *final(self) == (Rect { left, top, right, bottom }),
    {
        self.left = left;
        self.top = top;
        self.right = right;
        self.bottom = bottom;
    }

    /// Twice the x coordinate of the box's center. Doubling keeps the center
    /// exact in integer arithmetic.
    pub open spec fn center_x2(self) -> int {
        self.left + self.right
    }

    /// Twice the y coordinate of the box's center.
    pub open spec fn center_y2(self) -> int {
        self.top + self.bottom
    }
}

} // verus!

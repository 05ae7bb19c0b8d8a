//! An axis-aligned rectangle given by its center and size.

use vstd::prelude::*;
use crate::vector2::Vector2;

verus! {

/// An axis-aligned rectangle in world coordinates (quarters of a unit).
#[derive(Clone, Copy, Debug, PartialEq, Eq, Structural)]
pub struct Rect {
    /// The center of the rectangle.
    pub center: Vector2,
    /// The size of the rectangle; both components are nonnegative.
    pub size: Vector2,
}

impl Rect {
    /// True of every rectangle the engine works with: nonnegative size and
    /// coordinates small enough that edge arithmetic stays exact.
    pub open spec fn wf(self) -> bool {
        &&& 0 <= self.size.x <= 0x100000
        &&& 0 <= self.size.y <= 0x100000
        &&& -0x100000 <= self.center.x <= 0x100000
        &&& -0x100000 <= self.center.y <= 0x100000
    }

    /// The x coordinate of the left edge.
    pub fn left(&self) -> (r: i32)
        requires
            self.wf(),
        ensures
            r == self.center.x - self.size.x / 2,
    {
        self.center.x - self.size.x / 2
    }

    /// The x coordinate of the right edge.
    pub fn right(&self) -> (r: i32)
        requires
            self.wf(),
        ensures
            r == self.center.x + self.size.x / 2,
    {
        self.center.x + self.size.x / 2
    }

    /// The y coordinate of the bottom edge.
    pub fn bottom(&self) -> (r: i32)
        requires
            self.wf(),
        ensures
            r == self.center.y - self.size.y / 2,
    {
        self.center.y - self.size.y / 2
    }

    /// The y coordinate of the top edge.
    pub fn top(&self) -> (r: i32)
        requires
            self.wf(),
        ensures
            r == self.center.y + self.size.y / 2,
    {
        self.center.y + self.size.y / 2
    }

    /// Whether this rectangle lies completely inside `other`.
    pub fn complete_in(self, other: Rect) -> (r: bool)
        requires
            self.wf(),
            other.wf(),
        ensures
            r == (other.center.x - other.size.x / 2 <= self.center.x - self.size.x / 2
                && self.center.x + self.size.x / 2 <= other.center.x + other.size.x / 2
                && other.center.y - other.size.y / 2 <= self.center.y - self.size.y / 2
                && self.center.y + self.size.y / 2 <= other.center.y + other.size.y / 2),
    {
        other.left() <= self.left() && self.right() <= other.right()
            && other.bottom() <= self.bottom() && self.top() <= other.top()
    }

    /// Whether the point `p` lies strictly inside this rectangle.
    pub fn contains(&self, p: Vector2) -> (r: bool)
        requires
            self.wf(),
        ensures
            r == (self.center.x - self.size.x / 2 < p.x && p.x < self.center.x + self.size.x / 2
                && self.center.y - self.size.y / 2 < p.y && p.y < self.center.y + self.size.y / 2),
    {
        self.left() < p.x && p.x < self.right() && self.bottom() < p.y && p.y < self.top()
    }
}

} // verus!

//! A 2D vector over exact integer coordinates.
//!
//! World positions and sizes are measured in quarters of a world unit, so
//! every coordinate the engine produces (cell regions, button rectangles,
//! text anchors) is an exact integer and arithmetic on it can be verified.

use vstd::prelude::*;

verus! {

/// A 2D vector with integer components, in quarters of a world unit.
#[derive(Clone, Copy, Debug, PartialEq, Eq, Structural)]
pub struct Vector2 {
    /// The x component of the vector.
    pub x: i32,
    /// The y component of the vector.
    pub y: i32,
}

impl Vector2 {
    /// Builds a vector from its two components.
    pub fn new(x: i32, y: i32) -> (v: Vector2)
        ensures
            v.x == x,
            v.y == y,
    {
        Vector2 { x, y }
    }

    /// Componentwise sum.
    pub fn plus(self, other: Vector2) -> (v: Vector2)
        requires
            i32::MIN <= self.x + other.x <= i32::MAX,
            i32::MIN <= self.y + other.y <= i32::MAX,
        ensures
            v.x == self.x + other.x,
            v.y == self.y + other.y,
    {
        Vector2 { x: self.x + other.x, y: self.y + other.y }
    }

    /// Componentwise difference.
    pub fn minus(self, other: Vector2) -> (v: Vector2)
        requires
            i32::MIN <= self.x - other.x <= i32::MAX,
            i32::MIN <= self.y - other.y <= i32::MAX,
        ensures
            v.x == self.x - other.x,
            v.y == self.y - other.y,
    {
        Vector2 { x: self.x - other.x, y: self.y - other.y }
    }

    /// Componentwise negation.
    pub fn negated(self) -> (v: Vector2)
        requires
            self.x > i32::MIN,
            self.y > i32::MIN,
        ensures
            v.x == -self.x,
            v.y == -self.y,
    {
        Vector2 { x: -self.x, y: -self.y }
    }

    /// Multiplication by an integer scalar.
    pub fn times(self, scalar: i32) -> (v: Vector2)
        requires
            i32::MIN <= self.x * scalar <= i32::MAX,
            i32::MIN <= self.y * scalar <= i32::MAX,
        ensures
            v.x == self.x * scalar,
            v.y == self.y * scalar,
    {
        Vector2 { x: self.x * scalar, y: self.y * scalar }
    }
}

/// Conversion into a [`Vector2`], for the value shapes a caller may hold.
pub trait ToVec2 {
    /// Converts to a [`Vector2`].
    fn to_vec2(&self) -> Vector2;
}

impl ToVec2 for Vector2 {
    fn to_vec2(&self) -> (v: Vector2) {
        Vector2 { x: self.x, y: self.y }
    }
}

impl ToVec2 for (i32, i32) {
    fn to_vec2(&self) -> (v: Vector2) {
        Vector2 { x: self.0, y: self.1 }
    }
}

impl ToVec2 for [i32; 2] {
    fn to_vec2(&self) -> (v: Vector2) {
        Vector2 { x: self[0], y: self[1] }
    }
}

} // verus!

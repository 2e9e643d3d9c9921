//! Points, poses and directions on the field.

use vstd::prelude::*;
use crate::fixed::{fx_mul, mul_spec, norm, norm_spec, sat_add, sat_sub, saturate};

verus! {

/// A point or a displacement on the field.
#[derive(Clone, Copy, Debug, PartialEq, Eq, Structural)]
pub struct Vector2 {
    pub x: i64,
    pub y: i64,
}

/// Position and heading of the robot.
#[derive(Clone, Copy, Debug, PartialEq, Eq, Structural)]
pub struct Pose {
    pub x: i64,
    pub y: i64,
    pub heading: i64,
}

/// Cosine and sine of one angle.
#[derive(Clone, Copy, Debug, PartialEq, Eq, Structural)]
pub struct Direction {
    pub cos: i64,
    pub sin: i64,
}

/// Part of the vector `(x, y)` along the direction.
pub open spec fn along(facing: Direction, x: int, y: int) -> int {
    saturate(mul_spec(facing.cos as int, x) + mul_spec(facing.sin as int, y))
}

/// Part of the vector `(x, y)` to the left of the direction.
pub open spec fn across(facing: Direction, x: int, y: int) -> int {
    saturate(mul_spec(facing.cos as int, y) - mul_spec(facing.sin as int, x))
}

impl Vector2 {
    pub fn new(x: i64, y: i64) -> (r: Self)
        ensures
            r == (Vector2 { x, y }),
    {
        Vector2 { x, y }
    }

    /// Length of the vector.
    pub fn norm(&self) -> (r: i64)
        ensures
            r == norm_spec(self.x as int, self.y as int),
    {
        norm(self.x, self.y)
    }
}

impl Pose {
    pub fn new(x: i64, y: i64, heading: i64) -> (r: Self)
        ensures
            r == (Pose { x, y, heading }),
    {
        Pose { x, y, heading }
    }

    /// The position without the heading.
    pub fn position(&self) -> (r: Vector2)
        ensures
            r == (Vector2 { x: self.x, y: self.y }),
    {
        Vector2 { x: self.x, y: self.y }
    }

    /// Distance between the positions of two poses.
    pub open spec fn distance_spec(&self, other: &Pose) -> int {
        norm_spec(saturate(self.x - other.x), saturate(self.y - other.y))
    }

    /// Distance between the positions of two poses.
    pub fn distance_to(&self, other: &Pose) -> (r: i64)
        ensures
            r == self.distance_spec(other),
    {
        norm(sat_sub(self.x, other.x), sat_sub(self.y, other.y))
    }
}

impl Direction {
    pub fn new(cos: i64, sin: i64) -> (r: Self)
        ensures
            r == (Direction { cos, sin }),
    {
        Direction { cos, sin }
    }

    /// The vector as seen from a frame that faces this direction.
    pub fn to_local(&self, v: Vector2) -> (r: Vector2)
        ensures
            r.x == along(*self, v.x as int, v.y as int),
            r.y == across(*self, v.x as int, v.y as int),
    {
        Vector2 {
            x: sat_add(fx_mul(self.cos, v.x), fx_mul(self.sin, v.y)),
            y: sat_sub(fx_mul(self.cos, v.y), fx_mul(self.sin, v.x)),
        }
    }

    /// The point at `distance` from the origin in this direction.
    pub fn ahead(&self, distance: i64) -> (r: Vector2)
        ensures
            r.x == mul_spec(self.cos as int, distance as int),
            r.y == mul_spec(self.sin as int, distance as int),
    {
        Vector2 { x: fx_mul(self.cos, distance), y: fx_mul(self.sin, distance) }
    }
}

} // verus!

//! Plane vectors with saturating fixed-point components.

use crate::fixed::{clamp, div, div_trunc, product, saturate, UNIT};
use vstd::prelude::*;

verus! {

/// A point or a displacement in the plane, in raw steps.
#[derive(Clone, Copy, Debug, PartialEq, Eq, Structural)]
pub struct Vec2 {
    pub x: i32,
    pub y: i32,
}

impl Vec2 {
    /// The vector with both components zero.
    pub open spec fn zero() -> Vec2 {
        Vec2 { x: 0, y: 0 }
    }

    /// The vector whose components are those given, saturated.
    pub open spec fn of(x: int, y: int) -> Vec2 {
        Vec2 { x: clamp(x) as i32, y: clamp(y) as i32 }
    }

    /// The squared length.
    pub open spec fn norm_sq(self) -> int {
        self.x * self.x + self.y * self.y
    }

    /// The componentwise sum, saturated.
    pub open spec fn plus(self, other: Vec2) -> Vec2 {
        Vec2::of(self.x + other.x, self.y + other.y)
    }

    /// The componentwise difference, saturated.
    pub open spec fn minus(self, other: Vec2) -> Vec2 {
        Vec2::of(self.x - other.x, self.y - other.y)
    }

    /// The vector multiplied by the fixed-point factor `k`, rounded toward zero and saturated.
    pub open spec fn scaled(self, k: int) -> Vec2 {
        Vec2::of(div_trunc(self.x * k, UNIT as int), div_trunc(self.y * k, UNIT as int))
    }

    /// The vector turned clockwise by a quarter turn, saturated.
    pub open spec fn turned_right(self) -> Vec2 {
        Vec2::of(self.y as int, -self.x)
    }

    pub fn new(x: i32, y: i32) -> (r: Vec2)
        ensures
            r == (Vec2 { x, y }),
    {
        Vec2 { x, y }
    }

    pub fn origin() -> (r: Vec2)
        ensures
            r == Vec2::zero(),
    {
        Vec2 { x: 0, y: 0 }
    }

    pub fn add(self, other: Vec2) -> (r: Vec2)
        ensures
            r == self.plus(other),
    {
        Vec2 {
            x: saturate(self.x as i128 + other.x as i128),
            y: saturate(self.y as i128 + other.y as i128),
        }
    }

    pub fn sub(self, other: Vec2) -> (r: Vec2)
        ensures
            r == self.minus(other),
    {
        Vec2 {
            x: saturate(self.x as i128 - other.x as i128),
            y: saturate(self.y as i128 - other.y as i128),
        }
    }

    pub fn scale(self, k: i32) -> (r: Vec2)
        ensures
            r == self.scaled(k as int),
    {
        let px: i128 = product(self.x as i64, k as i64);
        let py: i128 = product(self.y as i64, k as i64);
        Vec2 { x: saturate(div(px, UNIT as i128)), y: saturate(div(py, UNIT as i128)) }
    }

    pub fn turn_right(self) -> (r: Vec2)
        ensures
            r == self.turned_right(),
    {
        Vec2 { x: self.y, y: saturate(-(self.x as i128)) }
    }
}

} // verus!

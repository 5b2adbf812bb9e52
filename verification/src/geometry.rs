//! Points and extents on the integer grid.

use vstd::prelude::*;
use crate::ratio::{interpolated, Ratio};

verus! {

/// A position, in the host's length unit.
#[derive(Clone, Copy, Debug, PartialEq, Eq, Structural)]
pub struct Point {
    pub x: i32,
    pub y: i32,
}

/// An extent along each axis, in the host's length unit.
#[derive(Clone, Copy, Debug, PartialEq, Eq, Structural)]
pub struct Vector {
    pub x: i32,
    pub y: i32,
}

impl Point {
    /// The point that lies `ratio` of the way from `self` to `target`, axis by axis.
    pub open spec fn toward(self, target: Point, ratio: Ratio) -> Point {
        Point {
            x: interpolated(self.x as int, target.x as int, ratio.parts as int) as i32,
            y: interpolated(self.y as int, target.y as int, ratio.parts as int) as i32,
        }
    }

    pub fn new(x: i32, y: i32) -> (p: Point)
        ensures
            p == (Point { x, y }),
    {
        Point { x, y }
    }

    /// Interpolates between two points: `self + (target - self) * ratio`.
    pub fn lerp(self, target: Point, ratio: Ratio) -> (p: Point)
        ensures
            p == self.toward(target, ratio),
    {
        Point { x: ratio.lerp(self.x, target.x), y: ratio.lerp(self.y, target.y) }
    }
}

impl Vector {
    pub fn new(x: i32, y: i32) -> (v: Vector)
        ensures
            v == (Vector { x, y }),
    {
        Vector { x, y }
    }

    /// The extent that is `value` along both axes.
    pub fn splat(value: i32) -> (v: Vector)
        ensures
            v == (Vector { x: value, y: value }),
    {
        Vector { x: value, y: value }
    }
}

} // verus!

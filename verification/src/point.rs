//! Locations in camera space.
use vstd::prelude::*;
use crate::number::Binary64;

verus! {

/// A location, by its three coordinates.
#[derive(Clone, Copy, Debug)]
pub struct Point {
    pub x: Binary64,
    pub y: Binary64,
    pub z: Binary64,
}

impl Point {
    pub open spec fn zero_spec() -> Point {
        Point { x: Binary64::zero_spec(), y: Binary64::zero_spec(), z: Binary64::zero_spec() }
    }

    /// The origin, where the camera sits.
    pub fn zero() -> (p: Point)
        ensures
            p == Point::zero_spec(),
    {
        Point::from_one(Binary64::zero())
    }

    /// The point whose three coordinates are all `v`.
    pub fn from_one(v: Binary64) -> (p: Point)
        ensures
            p.x == v,
            p.y == v,
            p.z == v,
    {
        Point { x: v, y: v, z: v }
    }
}

} // verus!

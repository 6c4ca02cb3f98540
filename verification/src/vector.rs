//! Directions and displacements.
use vstd::prelude::*;
use crate::number::Binary64;

verus! {

/// A direction or displacement, by its three components.
#[derive(Clone, Copy, Debug)]
pub struct Vector3 {
    pub x: Binary64,
    pub y: Binary64,
    pub z: Binary64,
}

impl Vector3 {
    /// The vector that points the opposite way.
    pub open spec fn neg_spec(self) -> Vector3 {
        Vector3 { x: self.x.neg_spec(), y: self.y.neg_spec(), z: self.z.neg_spec() }
    }

    pub fn zero() -> (v: Vector3)
        ensures
            v.x == Binary64::zero_spec(),
            v.y == Binary64::zero_spec(),
            v.z == Binary64::zero_spec(),
    {
        Vector3::from_one(Binary64::zero())
    }

    /// The vector whose three components are all `v`.
    pub fn from_one(v: Binary64) -> (r: Vector3)
        ensures
            r.x == v,
            r.y == v,
            r.z == v,
    {
        Vector3 { x: v, y: v, z: v }
    }

    /// Reverses the vector. Exact: only the signs change.
    pub fn neg(self) -> (r: Vector3)
        ensures
            r == self.neg_spec(),
    {
        Vector3 { x: self.x.neg(), y: self.y.neg(), z: self.z.neg() }
    }
}

} // verus!

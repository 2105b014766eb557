//! Vectors of three scalars.

use vstd::prelude::*;

verus! {

/// The pattern of the scalar zero.
pub const ZERO: u32 = 0;

/// Three scalars, each held as the 32-bit pattern of a single-precision
/// number. A vector is never changed once made.
#[derive(Debug, PartialEq, Eq)]
pub struct Vec3 {
    pub x: u32,
    pub y: u32,
    pub z: u32,
}

impl Vec3 {
    /// The vector whose three components are zero.
    pub open spec fn origin() -> Vec3 {
        Vec3 { x: ZERO, y: ZERO, z: ZERO }
    }

    /// The vector of the three components given.
    pub fn new(x: u32, y: u32, z: u32) -> (v: Vec3)
        ensures
            v == (Vec3 { x, y, z }),
    {
        Vec3 { x, y, z }
    }

    /// The vector whose three components are zero.
    pub fn zero() -> (v: Vec3)
        ensures
            v == Vec3::origin(),
    {
        Vec3 { x: ZERO, y: ZERO, z: ZERO }
    }

    /// A vector of the same three components.
    pub fn clone(&self) -> (v: Vec3)
        ensures
            v == *self,
    {
        Vec3 { x: self.x, y: self.y, z: self.z }
    }
}

} // verus!

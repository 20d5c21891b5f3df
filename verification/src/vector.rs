//! Points and directions in three dimensions.

use vstd::prelude::*;

verus! {

/// A vector of three binary32 components, each held as its encoding.
///
/// Two vectors are equal when their encodings are: `+0.0` and `-0.0` differ,
/// and a NaN equals itself.
#[derive(Debug, PartialEq, Eq, Structural)]
pub struct Vector3D {
    /// The component along the x axis.
    pub x: u32,
    /// The component along the y axis.
    pub y: u32,
    /// The component along the z axis.
    pub z: u32,
}

impl Copy for Vector3D {

}

impl Clone for Vector3D {
    /// A clone is the same vector, component by component.
    fn clone(&self) -> (r: Self)
        ensures
            r == *self,
    {
        Vector3D { x: self.x, y: self.y, z: self.z }
    }
}

impl Default for Vector3D {
    /// The zero vector: every component is `+0.0`.
    fn default() -> (r: Self)
        ensures
            r == Vector3D::zero(),
    {
        Vector3D { x: 0, y: 0, z: 0 }
    }
}

impl Vector3D {
    /// The vector whose three components are `+0.0`.
    pub open spec fn zero() -> Vector3D {
        Vector3D { x: 0, y: 0, z: 0 }
    }

    /// The vector with the given components.
    pub fn new(x: u32, y: u32, z: u32) -> (r: Self)
        ensures
            r == (Vector3D { x, y, z }),
    {
        Self { x, y, z }
    }
}

} // verus!

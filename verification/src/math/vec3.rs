//! Three-component vector, generic over its scalar.

use vstd::prelude::*;

verus! {

/// A three-component vector. The spatial model instantiates it at `i64` with
/// fixed-point thousandths (see `math::fixed`).
#[derive(Clone, Copy, PartialEq, Eq, Structural, Debug)]
pub struct Vec3<T> {
    pub x: T,
    pub y: T,
    pub z: T,
}

impl Vec3<i64> {
    /// The origin.
    pub fn zero() -> (v: Vec3<i64>)
        ensures
            v.x == 0 && v.y == 0 && v.z == 0,
    {
        Vec3 { x: 0, y: 0, z: 0 }
    }
}

/// Every coordinate of `v` lies within `limit` in magnitude.
pub open spec fn vec3_in_range(v: Vec3<i64>, limit: int) -> bool {
    &&& -limit <= v.x <= limit
    &&& -limit <= v.y <= limit
    &&& -limit <= v.z <= limit
}

} // verus!

//! Plane point used by geometry data loaded at the boundary. The hosting
//! layer decodes resource data into these plain values.

use vstd::prelude::*;

verus! {

/// A point of the plane, in integer units.
#[derive(Clone, Copy, PartialEq, Eq, Structural, Debug)]
pub struct Point {
    pub x: i16,
    pub y: i16,
}

impl Default for Point {
    /// The origin.
    fn default() -> (p: Point)
        ensures
            p.x == 0 && p.y == 0,
    {
        Point { x: 0, y: 0 }
    }
}

} // verus!

//! 4x4 affine transform matrices over fixed-point scalars, and the
//! scale-rotate-translate composition used for actor world transforms.

use vstd::prelude::*;

use crate::math::fixed::{
    fix_mul, fix_mul_spec, lemma_fix_mul_bound, COORD_LIMIT, FIX_ONE, SCALE_LIMIT,
};
use crate::math::vec3::{vec3_in_range, Vec3};

verus! {

/// A 4x4 matrix in column-major field order; entry `mIJ` is row `I`,
/// column `J`. The spatial model instantiates it at `i64` with fixed-point
/// thousandths, linear entries being fixed-point factors and the fourth
/// column a fixed-point translation.
#[derive(Clone, Copy, PartialEq, Eq, Structural, Debug)]
pub struct Mat4<T> {
    pub m11: T,
    pub m21: T,
    pub m31: T,
    pub m41: T,
    pub m12: T,
    pub m22: T,
    pub m32: T,
    pub m42: T,
    pub m13: T,
    pub m23: T,
    pub m33: T,
    pub m43: T,
    pub m14: T,
    pub m24: T,
    pub m34: T,
    pub m44: T,
}

/// A single-axis orientation, held as the fixed-point cosine and sine of the
/// rotation angle about the z axis.
#[derive(Clone, Copy, PartialEq, Eq, Structural, Debug)]
pub struct Rotation {
    pub cos: i64,
    pub sin: i64,
}

impl Rotation {
    /// The zero rotation (angle 0: cosine one, sine zero).
    pub fn identity() -> (r: Rotation)
        ensures
            r.cos == FIX_ONE && r.sin == 0,
    {
        Rotation { cos: FIX_ONE, sin: 0 }
    }
}

/// Both trigonometric entries of `r` lie within one in magnitude.
pub open spec fn rotation_in_range(r: Rotation) -> bool {
    &&& -FIX_ONE <= r.cos <= FIX_ONE
    &&& -FIX_ONE <= r.sin <= FIX_ONE
}

/// `m` is exactly the affine matrix T * R * S: uniform scale `scale`, then
/// rotation `rot` about the z axis, then translation by `position`
/// (scale first, then rotate, then translate, applied to local points).
pub open spec fn is_world_transform(
    m: Mat4<i64>,
    position: Vec3<i64>,
    rot: Rotation,
    scale: i64,
) -> bool {
    &&& m.m11 == fix_mul_spec(rot.cos as int, scale as int)
    &&& m.m21 == fix_mul_spec(rot.sin as int, scale as int)
    &&& m.m31 == 0
    &&& m.m41 == 0
    &&& m.m12 == fix_mul_spec(-(rot.sin as int), scale as int)
    &&& m.m22 == fix_mul_spec(rot.cos as int, scale as int)
    &&& m.m32 == 0
    &&& m.m42 == 0
    &&& m.m13 == 0
    &&& m.m23 == 0
    &&& m.m33 == scale
    &&& m.m43 == 0
    &&& m.m14 == position.x
    &&& m.m24 == position.y
    &&& m.m34 == position.z
    &&& m.m44 == FIX_ONE
}

/// The linear entries of `m` fit the scale bound, its translation entries
/// fit the coordinate bound, and its bottom row is the affine (0 0 0 1).
pub open spec fn affine_in_range(m: Mat4<i64>) -> bool {
    &&& -SCALE_LIMIT <= m.m11 <= SCALE_LIMIT
    &&& -SCALE_LIMIT <= m.m12 <= SCALE_LIMIT
    &&& -SCALE_LIMIT <= m.m13 <= SCALE_LIMIT
    &&& -SCALE_LIMIT <= m.m21 <= SCALE_LIMIT
    &&& -SCALE_LIMIT <= m.m22 <= SCALE_LIMIT
    &&& -SCALE_LIMIT <= m.m23 <= SCALE_LIMIT
    &&& -SCALE_LIMIT <= m.m31 <= SCALE_LIMIT
    &&& -SCALE_LIMIT <= m.m32 <= SCALE_LIMIT
    &&& -SCALE_LIMIT <= m.m33 <= SCALE_LIMIT
    &&& -COORD_LIMIT <= m.m14 <= COORD_LIMIT
    &&& -COORD_LIMIT <= m.m24 <= COORD_LIMIT
    &&& -COORD_LIMIT <= m.m34 <= COORD_LIMIT
    &&& m.m41 == 0
    &&& m.m42 == 0
    &&& m.m43 == 0
    &&& m.m44 == FIX_ONE
}

/// One row of an affine point transform: the fixed-point dot product of a
/// linear row with the point, plus the row's translation entry.
pub open spec fn transform_row_spec(a: int, b: int, c: int, t: int, p: Vec3<i64>) -> int {
    fix_mul_spec(a, p.x as int) + fix_mul_spec(b, p.y as int) + fix_mul_spec(c, p.z as int) + t
}

impl Mat4<i64> {
    /// The identity transform: no scale change, no rotation, no translation.
    pub fn identity() -> (m: Mat4<i64>)
        ensures
            is_world_transform(
                m,
                Vec3 { x: 0, y: 0, z: 0 },
                Rotation { cos: FIX_ONE, sin: 0 },
                FIX_ONE,
            ),
            affine_in_range(m),
    {
        Mat4 {
            m11: FIX_ONE,
            m21: 0,
            m31: 0,
            m41: 0,
            m12: 0,
            m22: FIX_ONE,
            m32: 0,
            m42: 0,
            m13: 0,
            m23: 0,
            m33: FIX_ONE,
            m43: 0,
            m14: 0,
            m24: 0,
            m34: 0,
            m44: FIX_ONE,
        }
    }

    /// The world transform T * R * S for the given position, orientation and
    /// uniform scale: local points are scaled, then rotated about z, then
    /// translated.
    pub fn world_transform(position: Vec3<i64>, rot: Rotation, scale: i64) -> (m: Mat4<i64>)
        requires
            vec3_in_range(position, COORD_LIMIT as int),
            rotation_in_range(rot),
            -SCALE_LIMIT <= scale <= SCALE_LIMIT,
        ensures
            is_world_transform(m, position, rot, scale),
            affine_in_range(m),
    {
        proof {
            lemma_fix_mul_bound(rot.cos as int, scale as int, FIX_ONE as int, SCALE_LIMIT as int);
            lemma_fix_mul_bound(rot.sin as int, scale as int, FIX_ONE as int, SCALE_LIMIT as int);
            lemma_fix_mul_bound(
                -(rot.sin as int),
                scale as int,
                FIX_ONE as int,
                SCALE_LIMIT as int,
            );
        }
        let ck = fix_mul(rot.cos, scale);
        let sk = fix_mul(rot.sin, scale);
        let nsk = fix_mul(-rot.sin, scale);
        Mat4 {
            m11: ck,
            m21: sk,
            m31: 0,
            m41: 0,
            m12: nsk,
            m22: ck,
            m32: 0,
            m42: 0,
            m13: 0,
            m23: 0,
            m33: scale,
            m43: 0,
            m14: position.x,
            m24: position.y,
            m34: position.z,
            m44: FIX_ONE,
        }
    }

    /// Applies the affine transform to a local point, returning the mapped
    /// point: each coordinate is the fixed-point dot product of a matrix row
    /// with the point, plus that row's translation entry.
    pub fn transform_point(&self, p: Vec3<i64>) -> (r: Vec3<i64>)
        requires
            affine_in_range(*self),
            vec3_in_range(p, COORD_LIMIT as int),
        ensures
            r.x == transform_row_spec(
                self.m11 as int,
                self.m12 as int,
                self.m13 as int,
                self.m14 as int,
                p,
            ),
            r.y == transform_row_spec(
                self.m21 as int,
                self.m22 as int,
                self.m23 as int,
                self.m24 as int,
                p,
            ),
            r.z == transform_row_spec(
                self.m31 as int,
                self.m32 as int,
                self.m33 as int,
                self.m34 as int,
                p,
            ),
    {
        proof {
            lemma_fix_mul_bound(self.m11 as int, p.x as int, SCALE_LIMIT as int, COORD_LIMIT as int);
            lemma_fix_mul_bound(self.m12 as int, p.y as int, SCALE_LIMIT as int, COORD_LIMIT as int);
            lemma_fix_mul_bound(self.m13 as int, p.z as int, SCALE_LIMIT as int, COORD_LIMIT as int);
            lemma_fix_mul_bound(self.m21 as int, p.x as int, SCALE_LIMIT as int, COORD_LIMIT as int);
            lemma_fix_mul_bound(self.m22 as int, p.y as int, SCALE_LIMIT as int, COORD_LIMIT as int);
            lemma_fix_mul_bound(self.m23 as int, p.z as int, SCALE_LIMIT as int, COORD_LIMIT as int);
            lemma_fix_mul_bound(self.m31 as int, p.x as int, SCALE_LIMIT as int, COORD_LIMIT as int);
            lemma_fix_mul_bound(self.m32 as int, p.y as int, SCALE_LIMIT as int, COORD_LIMIT as int);
            lemma_fix_mul_bound(self.m33 as int, p.z as int, SCALE_LIMIT as int, COORD_LIMIT as int);
        }
        let x = fix_mul(self.m11, p.x) + fix_mul(self.m12, p.y) + fix_mul(self.m13, p.z) + self.m14;
        let y = fix_mul(self.m21, p.x) + fix_mul(self.m22, p.y) + fix_mul(self.m23, p.z) + self.m24;
        let z = fix_mul(self.m31, p.x) + fix_mul(self.m32, p.y) + fix_mul(self.m33, p.z) + self.m34;
        Vec3 { x, y, z }
    }
}

} // verus!

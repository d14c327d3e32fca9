//! Affine transform constructors and a fluent composer.
//!
//! Rotations are built from a precomputed sine and cosine pair: the scalar
//! type is fixed-point, so evaluating the trigonometric functions themselves
//! is left to the caller.

use vstd::prelude::*;

use crate::matrix4x4::{m4_identity, mat4_mul, Matrix4x4};
use crate::scalar::{fp_neg, Scalar};
use crate::tuple::{tup_cross, tup_neg, tup_normalize, tup_sub, Tuple};

verus! {

pub open spec fn m4_translation(x: int, y: int, z: int) -> Matrix4x4 {
    Matrix4x4 {
        m03: Scalar { raw: x as i64 },
        m13: Scalar { raw: y as i64 },
        m23: Scalar { raw: z as i64 },
        ..m4_identity()
    }
}

pub open spec fn m4_scaling(x: int, y: int, z: int) -> Matrix4x4 {
    Matrix4x4 {
        m00: Scalar { raw: x as i64 },
        m11: Scalar { raw: y as i64 },
        m22: Scalar { raw: z as i64 },
        ..m4_identity()
    }
}

pub open spec fn m4_rotation_x(sin_t: int, cos_t: int) -> Matrix4x4 {
    Matrix4x4 {
        m11: Scalar { raw: cos_t as i64 },
        m12: Scalar { raw: fp_neg(sin_t) as i64 },
        m21: Scalar { raw: sin_t as i64 },
        m22: Scalar { raw: cos_t as i64 },
        ..m4_identity()
    }
}

pub open spec fn m4_rotation_y(sin_t: int, cos_t: int) -> Matrix4x4 {
    Matrix4x4 {
        m00: Scalar { raw: cos_t as i64 },
        m02: Scalar { raw: sin_t as i64 },
        m20: Scalar { raw: fp_neg(sin_t) as i64 },
        m22: Scalar { raw: cos_t as i64 },
        ..m4_identity()
    }
}

pub open spec fn m4_rotation_z(sin_t: int, cos_t: int) -> Matrix4x4 {
    Matrix4x4 {
        m00: Scalar { raw: cos_t as i64 },
        m01: Scalar { raw: fp_neg(sin_t) as i64 },
        m10: Scalar { raw: sin_t as i64 },
        m11: Scalar { raw: cos_t as i64 },
        ..m4_identity()
    }
}

pub open spec fn m4_shearing(xy: int, xz: int, yx: int, yz: int, zx: int, zy: int) -> Matrix4x4 {
    Matrix4x4 {
        m01: Scalar { raw: xy as i64 },
        m02: Scalar { raw: xz as i64 },
        m10: Scalar { raw: yx as i64 },
        m12: Scalar { raw: yz as i64 },
        m20: Scalar { raw: zx as i64 },
        m21: Scalar { raw: zy as i64 },
        ..m4_identity()
    }
}

/// The world-to-camera matrix looking from `from` toward `to`.
pub open spec fn m4_view(from: Tuple, to: Tuple, up: Tuple) -> Matrix4x4 {
    let forward = tup_normalize(tup_sub(to, from));
    let left = tup_cross(forward, tup_normalize(up));
    let true_up = tup_cross(left, forward);
    let back = tup_neg(forward);
    let orientation = Matrix4x4 {
        m00: left.x,
        m01: left.y,
        m02: left.z,
        m03: Scalar { raw: 0 },
        m10: true_up.x,
        m11: true_up.y,
        m12: true_up.z,
        m13: Scalar { raw: 0 },
        m20: back.x,
        m21: back.y,
        m22: back.z,
        m23: Scalar { raw: 0 },
        m30: Scalar { raw: 0 },
        m31: Scalar { raw: 0 },
        m32: Scalar { raw: 0 },
        m33: Scalar { raw: crate::scalar::SCALE as int as i64 },
    };
    mat4_mul(orientation, m4_translation(fp_neg(from.x@), fp_neg(from.y@), fp_neg(from.z@)))
}

impl Matrix4x4 {
    /// The world-to-camera matrix looking from `from` toward `to`.
    pub fn view(from: Tuple, to: Tuple, up: Tuple) -> (r: Matrix4x4)
        ensures
            r == m4_view(from, to, up),
    {
        let forward = to.sub(from).normalize();
        let left = forward.cross(&up.normalize());
        let true_up = left.cross(&forward);
        let back = forward.neg();

        let orientation = Matrix4x4 {
            m00: left.x,
            m01: left.y,
            m02: left.z,
            m03: Scalar { raw: 0 },
            m10: true_up.x,
            m11: true_up.y,
            m12: true_up.z,
            m13: Scalar { raw: 0 },
            m20: back.x,
            m21: back.y,
            m22: back.z,
            m23: Scalar { raw: 0 },
            m30: Scalar { raw: 0 },
            m31: Scalar { raw: 0 },
            m32: Scalar { raw: 0 },
            m33: Scalar { raw: crate::scalar::SCALE },
        };

        orientation.mul(&Matrix4x4::translation(from.x.neg(), from.y.neg(), from.z.neg()))
    }

    pub fn translation(x: Scalar, y: Scalar, z: Scalar) -> (r: Matrix4x4)
        ensures
            r == m4_translation(x@, y@, z@),
    {
        let mut m = Matrix4x4::identity();
        m.set(0, 3, x);
        m.set(1, 3, y);
        m.set(2, 3, z);
        m
    }

    pub fn scaling(x: Scalar, y: Scalar, z: Scalar) -> (r: Matrix4x4)
        ensures
            r == m4_scaling(x@, y@, z@),
    {
        let mut m = Matrix4x4::identity();
        m.set(0, 0, x);
        m.set(1, 1, y);
        m.set(2, 2, z);
        m
    }

    /// Rotation about the x axis, from the angle's sine and cosine.
    pub fn rotation_x(sin_t: Scalar, cos_t: Scalar) -> (r: Matrix4x4)
        ensures
            r == m4_rotation_x(sin_t@, cos_t@),
    {
        let mut m = Matrix4x4::identity();
        m.set(1, 1, cos_t);
        m.set(1, 2, sin_t.neg());
        m.set(2, 1, sin_t);
        m.set(2, 2, cos_t);
        m
    }

    /// Rotation about the y axis, from the angle's sine and cosine.
    pub fn rotation_y(sin_t: Scalar, cos_t: Scalar) -> (r: Matrix4x4)
        ensures
            r == m4_rotation_y(sin_t@, cos_t@),
    {
        let mut m = Matrix4x4::identity();
        m.set(0, 0, cos_t);
        m.set(0, 2, sin_t);
        m.set(2, 0, sin_t.neg());
        m.set(2, 2, cos_t);
        m
    }

    /// Rotation about the z axis, from the angle's sine and cosine.
    pub fn rotation_z(sin_t: Scalar, cos_t: Scalar) -> (r: Matrix4x4)
        ensures
            r == m4_rotation_z(sin_t@, cos_t@),
    {
        let mut m = Matrix4x4::identity();
        m.set(0, 0, cos_t);
        m.set(0, 1, sin_t.neg());
        m.set(1, 0, sin_t);
        m.set(1, 1, cos_t);
        m
    }

    pub fn shearing(xy: Scalar, xz: Scalar, yx: Scalar, yz: Scalar, zx: Scalar, zy: Scalar) -> (r:
        Matrix4x4)
        ensures
            r == m4_shearing(xy@, xz@, yx@, yz@, zx@, zy@),
    {
        let mut m = Matrix4x4::identity();
        m.set(0, 1, xy);
        m.set(0, 2, xz);
        m.set(1, 0, yx);
        m.set(1, 2, yz);
        m.set(2, 0, zx);
        m.set(2, 1, zy);
        m
    }
}

/// What `build` yields: the matrices multiplied from the last pushed
/// to the first, starting from the identity.
pub open spec fn build_spec(acc: Matrix4x4, mats: Seq<Matrix4x4>) -> Matrix4x4
    decreases mats.len(),
{
    if mats.len() == 0 {
        acc
    } else {
        build_spec(mat4_mul(acc, mats.last()), mats.drop_last())
    }
}

/// Collects transforms and multiplies them in reverse order of insertion,
/// so the first transform pushed is the first applied to a point.
pub struct TransformationBuilder {
    mats: Vec<Matrix4x4>,
}

impl TransformationBuilder {
    pub closed spec fn steps(&self) -> Seq<Matrix4x4> {
        self.mats@
    }

    pub fn new() -> (r: TransformationBuilder)
        ensures
            r.steps() == Seq::<Matrix4x4>::empty(),
    {
        TransformationBuilder { mats: Vec::new() }
    }

    pub fn translation(x: Scalar, y: Scalar, z: Scalar) -> (r: TransformationBuilder)
        ensures
            r.steps() == seq![m4_translation(x@, y@, z@)],
    {
        let mut m = TransformationBuilder::new();
        m.mats.push(Matrix4x4::translation(x, y, z));
        proof {
            assert(m.mats@ =~= seq![m4_translation(x@, y@, z@)]);
        }
        m
    }

    pub fn scaling(x: Scalar, y: Scalar, z: Scalar) -> (r: TransformationBuilder)
        ensures
            r.steps() == seq![m4_scaling(x@, y@, z@)],
    {
        let mut m = TransformationBuilder::new();
        m.mats.push(Matrix4x4::scaling(x, y, z));
        proof {
            assert(m.mats@ =~= seq![m4_scaling(x@, y@, z@)]);
        }
        m
    }

    pub fn rotation_x(sin_t: Scalar, cos_t: Scalar) -> (r: TransformationBuilder)
        ensures
            r.steps() == seq![m4_rotation_x(sin_t@, cos_t@)],
    {
        let mut m = TransformationBuilder::new();
        m.mats.push(Matrix4x4::rotation_x(sin_t, cos_t));
        proof {
            assert(m.mats@ =~= seq![m4_rotation_x(sin_t@, cos_t@)]);
        }
        m
    }

    pub fn rotation_y(sin_t: Scalar, cos_t: Scalar) -> (r: TransformationBuilder)
        ensures
            r.steps() == seq![m4_rotation_y(sin_t@, cos_t@)],
    {
        let mut m = TransformationBuilder::new();
        m.mats.push(Matrix4x4::rotation_y(sin_t, cos_t));
        proof {
            assert(m.mats@ =~= seq![m4_rotation_y(sin_t@, cos_t@)]);
        }
        m
    }

    pub fn rotation_z(sin_t: Scalar, cos_t: Scalar) -> (r: TransformationBuilder)
        ensures
            r.steps() == seq![m4_rotation_z(sin_t@, cos_t@)],
    {
        let mut m = TransformationBuilder::new();
        m.mats.push(Matrix4x4::rotation_z(sin_t, cos_t));
        proof {
            assert(m.mats@ =~= seq![m4_rotation_z(sin_t@, cos_t@)]);
        }
        m
    }

    pub fn shearing(xy: Scalar, xz: Scalar, yx: Scalar, yz: Scalar, zx: Scalar, zy: Scalar) -> (r:
        TransformationBuilder)
        ensures
            r.steps() == seq![m4_shearing(xy@, xz@, yx@, yz@, zx@, zy@)],
    {
        let mut m = TransformationBuilder::new();
        m.mats.push(Matrix4x4::shearing(xy, xz, yx, yz, zx, zy));
        proof {
            assert(m.mats@ =~= seq![m4_shearing(xy@, xz@, yx@, yz@, zx@, zy@)]);
        }
        m
    }

    pub fn translate(self, x: Scalar, y: Scalar, z: Scalar) -> (r: TransformationBuilder)
        ensures
            r.steps() == self.steps().push(m4_translation(x@, y@, z@)),
    {
        let mut s = self;
        s.mats.push(Matrix4x4::translation(x, y, z));
        s
    }

    pub fn scale(self, x: Scalar, y: Scalar, z: Scalar) -> (r: TransformationBuilder)
        ensures
            r.steps() == self.steps().push(m4_scaling(x@, y@, z@)),
    {
        let mut s = self;
        s.mats.push(Matrix4x4::scaling(x, y, z));
        s
    }

    pub fn rotate_x(self, sin_t: Scalar, cos_t: Scalar) -> (r: TransformationBuilder)
        ensures
            r.steps() == self.steps().push(m4_rotation_x(sin_t@, cos_t@)),
    {
        let mut s = self;
        s.mats.push(Matrix4x4::rotation_x(sin_t, cos_t));
        s
    }

    pub fn rotate_y(self, sin_t: Scalar, cos_t: Scalar) -> (r: TransformationBuilder)
        ensures
            r.steps() == self.steps().push(m4_rotation_y(sin_t@, cos_t@)),
    {
        let mut s = self;
        s.mats.push(Matrix4x4::rotation_y(sin_t, cos_t));
        s
    }

    pub fn rotate_z(self, sin_t: Scalar, cos_t: Scalar) -> (r: TransformationBuilder)
        ensures
            r.steps() == self.steps().push(m4_rotation_z(sin_t@, cos_t@)),
    {
        let mut s = self;
        s.mats.push(Matrix4x4::rotation_z(sin_t, cos_t));
        s
    }

    pub fn shear(self, xy: Scalar, xz: Scalar, yx: Scalar, yz: Scalar, zx: Scalar, zy: Scalar) -> (
        r: TransformationBuilder)
        ensures
            r.steps() == self.steps().push(m4_shearing(xy@, xz@, yx@, yz@, zx@, zy@)),
    {
        let mut s = self;
        s.mats.push(Matrix4x4::shearing(xy, xz, yx, yz, zx, zy));
        s
    }

    /// Multiplies the collected transforms from the last to the first.
    pub fn build(self) -> (r: Matrix4x4)
        ensures
            r == build_spec(m4_identity(), self.steps()),
    {
        let mut mats = self.mats;
        let mut m = Matrix4x4::identity();
        let ghost all = mats@;
        while mats.len() > 0
            invariant
                build_spec(m4_identity(), all) == build_spec(m, mats@),
            decreases mats.len(),
        {
            let new = match mats.pop() {
                Some(mat) => mat,
                None => Matrix4x4::identity(),
            };
            m = m.mul(&new);
        }
        m
    }
}

} // verus!

//! Rays: an origin point and a direction vector, parameterized by t.

use vstd::prelude::*;

use crate::matrix4x4::{mat4_mul_tuple, Matrix4x4};
use crate::scalar::Scalar;
use crate::tuple::{tup_add, tup_scale, Tuple};

verus! {

#[derive(Clone, Copy, PartialEq, Eq, Structural, Debug)]
pub struct Ray {
    pub origin: Tuple,
    pub direction: Tuple,
}

/// The point at parameter `t`: `origin + direction * t`.
pub open spec fn ray_position(r: Ray, t: int) -> Tuple {
    tup_add(r.origin, tup_scale(r.direction, t))
}

/// The ray carried through an affine transform.
pub open spec fn ray_transform(r: Ray, m: Matrix4x4) -> Ray {
    Ray { origin: mat4_mul_tuple(m, r.origin), direction: mat4_mul_tuple(m, r.direction) }
}

impl Ray {
    pub fn new(origin: Tuple, direction: Tuple) -> (r: Ray)
        ensures
            r == (Ray { origin, direction }),
    {
        Ray { origin, direction }
    }

    pub fn origin(&self) -> (r: Tuple)
        ensures
            r == self.origin,
    {
        self.origin
    }

    pub fn direction(&self) -> (r: Tuple)
        ensures
            r == self.direction,
    {
        self.direction
    }

    /// The point at parameter `t`.
    pub fn position(&self, t: Scalar) -> (r: Tuple)
        ensures
            r == ray_position(*self, t@),
    {
        self.origin.add(self.direction.scale(t))
    }

    /// Both origin and direction carried through `m`.
    pub fn transform(&self, m: Matrix4x4) -> (r: Ray)
        ensures
            r == ray_transform(*self, m),
    {
        Ray { origin: m.mul_tuple(&self.origin), direction: m.mul_tuple(&self.direction) }
    }
}

} // verus!

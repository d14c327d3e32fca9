//! Homogeneous four-component tuples: points carry `w == 1`, vectors `w == 0`.

use vstd::prelude::*;

use crate::scalar::{
    fp_abs, fp_add, fp_div, fp_mul, fp_neg, fp_sqrt, fp_sub, Scalar, EPSILON, SCALE,
};

verus! {

#[derive(Clone, Copy, PartialEq, Eq, Structural, Debug)]
pub struct Tuple {
    pub x: Scalar,
    pub y: Scalar,
    pub z: Scalar,
    pub w: Scalar,
}

pub open spec fn tup(x: int, y: int, z: int, w: int) -> Tuple {
    Tuple { x: Scalar { raw: x as i64 }, y: Scalar { raw: y as i64 }, z: Scalar { raw: z as i64 }, w: Scalar { raw: w as i64 } }
}

pub open spec fn tup_add(a: Tuple, b: Tuple) -> Tuple {
    tup(fp_add(a.x@, b.x@), fp_add(a.y@, b.y@), fp_add(a.z@, b.z@), fp_add(a.w@, b.w@))
}

pub open spec fn tup_sub(a: Tuple, b: Tuple) -> Tuple {
    tup(fp_sub(a.x@, b.x@), fp_sub(a.y@, b.y@), fp_sub(a.z@, b.z@), fp_sub(a.w@, b.w@))
}

pub open spec fn tup_neg(a: Tuple) -> Tuple {
    tup(fp_neg(a.x@), fp_neg(a.y@), fp_neg(a.z@), fp_neg(a.w@))
}

pub open spec fn tup_scale(a: Tuple, s: int) -> Tuple {
    tup(fp_mul(a.x@, s), fp_mul(a.y@, s), fp_mul(a.z@, s), fp_mul(a.w@, s))
}

pub open spec fn tup_div(a: Tuple, s: int) -> Tuple {
    tup(fp_div(a.x@, s), fp_div(a.y@, s), fp_div(a.z@, s), fp_div(a.w@, s))
}

pub open spec fn tup_dot(a: Tuple, b: Tuple) -> int {
    fp_add(
        fp_add(fp_add(fp_mul(a.x@, b.x@), fp_mul(a.y@, b.y@)), fp_mul(a.z@, b.z@)),
        fp_mul(a.w@, b.w@),
    )
}

pub open spec fn tup_cross(a: Tuple, b: Tuple) -> Tuple {
    tup(
        fp_sub(fp_mul(a.y@, b.z@), fp_mul(a.z@, b.y@)),
        fp_sub(fp_mul(a.z@, b.x@), fp_mul(a.x@, b.z@)),
        fp_sub(fp_mul(a.x@, b.y@), fp_mul(a.y@, b.x@)),
        0,
    )
}

/// Squared length folded exactly as the executable sum of squares.
pub open spec fn tup_mag_sq(a: Tuple) -> int {
    fp_add(
        fp_add(fp_add(fp_mul(a.x@, a.x@), fp_mul(a.y@, a.y@)), fp_mul(a.z@, a.z@)),
        fp_mul(a.w@, a.w@),
    )
}

pub open spec fn tup_magnitude(a: Tuple) -> int {
    fp_sqrt(tup_mag_sq(a))
}

/// Normalization is total: a tuple of length zero maps to all-zero components.
pub open spec fn tup_normalize(a: Tuple) -> Tuple {
    tup_div(a, tup_magnitude(a))
}

/// Reflection of `v` about `n`: `v - n * 2 * dot(v, n)`.
pub open spec fn tup_reflect(v: Tuple, n: Tuple) -> Tuple {
    tup_sub(v, tup_scale(tup_scale(n, 2 * SCALE), tup_dot(v, n)))
}

impl Tuple {
    pub fn new(x: Scalar, y: Scalar, z: Scalar, w: Scalar) -> (r: Tuple)
        ensures
            r == (Tuple { x, y, z, w }),
    {
        Tuple { x, y, z, w }
    }

    /// A point: `w == 1`.
    pub fn point(x: Scalar, y: Scalar, z: Scalar) -> (r: Tuple)
        ensures
            r == (Tuple { x, y, z, w: Scalar { raw: SCALE } }),
    {
        Tuple { x, y, z, w: Scalar { raw: SCALE } }
    }

    /// A direction: `w == 0`.
    pub fn vector(x: Scalar, y: Scalar, z: Scalar) -> (r: Tuple)
        ensures
            r == (Tuple { x, y, z, w: Scalar { raw: 0 } }),
    {
        Tuple { x, y, z, w: Scalar { raw: 0 } }
    }

    pub fn get_x(&self) -> (r: Scalar)
        ensures
            r == self.x,
    {
        self.x
    }

    pub fn get_y(&self) -> (r: Scalar)
        ensures
            r == self.y,
    {
        self.y
    }

    pub fn get_z(&self) -> (r: Scalar)
        ensures
            r == self.z,
    {
        self.z
    }

    pub fn get_w(&self) -> (r: Scalar)
        ensures
            r == self.w,
    {
        self.w
    }

    pub fn set_x(&mut self, v: Scalar)
        ensures
            *final(self) == (Tuple { x: v, ..*old(self) }),
    {
        self.x = v;
    }

    pub fn set_y(&mut self, v: Scalar)
        ensures
            *final(self) == (Tuple { y: v, ..*old(self) }),
    {
        self.y = v;
    }

    pub fn set_z(&mut self, v: Scalar)
        ensures
            *final(self) == (Tuple { z: v, ..*old(self) }),
    {
        self.z = v;
    }

    pub fn set_w(&mut self, v: Scalar)
        ensures
            *final(self) == (Tuple { w: v, ..*old(self) }),
    {
        self.w = v;
    }

    /// True when `w` is within the tolerance of one.
    pub fn is_point(&self) -> (r: bool)
        ensures
            r == (fp_abs(fp_sub(self.w@, SCALE as int)) < EPSILON),
    {
        self.w.approx_eq(Scalar { raw: SCALE })
    }

    /// True when `w` is within the tolerance of zero.
    pub fn is_vector(&self) -> (r: bool)
        ensures
            r == (fp_abs(self.w@) < EPSILON),
    {
        self.w.near_zero()
    }

    pub fn add(self, rhs: Tuple) -> (r: Tuple)
        ensures
            r == tup_add(self, rhs),
    {
        Tuple {
            x: self.x.add(rhs.x),
            y: self.y.add(rhs.y),
            z: self.z.add(rhs.z),
            w: self.w.add(rhs.w),
        }
    }

    pub fn sub(self, rhs: Tuple) -> (r: Tuple)
        ensures
            r == tup_sub(self, rhs),
    {
        Tuple {
            x: self.x.sub(rhs.x),
            y: self.y.sub(rhs.y),
            z: self.z.sub(rhs.z),
            w: self.w.sub(rhs.w),
        }
    }

    pub fn neg(self) -> (r: Tuple)
        ensures
            r == tup_neg(self),
    {
        Tuple { x: self.x.neg(), y: self.y.neg(), z: self.z.neg(), w: self.w.neg() }
    }

    /// Componentwise product with a scalar.
    pub fn scale(self, s: Scalar) -> (r: Tuple)
        ensures
            r == tup_scale(self, s@),
    {
        Tuple { x: self.x.mul(s), y: self.y.mul(s), z: self.z.mul(s), w: self.w.mul(s) }
    }

    /// Componentwise quotient by a scalar; division by zero yields zero.
    pub fn div_scalar(self, s: Scalar) -> (r: Tuple)
        ensures
            r == tup_div(self, s@),
    {
        Tuple { x: self.x.div(s), y: self.y.div(s), z: self.z.div(s), w: self.w.div(s) }
    }

    pub fn magnitude(&self) -> (r: Scalar)
        ensures
            r@ == tup_magnitude(*self),
    {
        let sq = self.x.mul(self.x).add(self.y.mul(self.y)).add(self.z.mul(self.z)).add(
            self.w.mul(self.w),
        );
        sq.sqrt()
    }

    /// Scales the tuple to unit length; the zero tuple stays zero.
    pub fn normalize(&self) -> (r: Tuple)
        ensures
            r == tup_normalize(*self),
    {
        let mag = self.magnitude();
        self.div_scalar(mag)
    }

    pub fn dot(&self, b: &Tuple) -> (r: Scalar)
        ensures
            r@ == tup_dot(*self, *b),
    {
        self.x.mul(b.x).add(self.y.mul(b.y)).add(self.z.mul(b.z)).add(self.w.mul(b.w))
    }

    pub fn cross(&self, b: &Tuple) -> (r: Tuple)
        ensures
            r == tup_cross(*self, *b),
    {
        Tuple {
            x: self.y.mul(b.z).sub(self.z.mul(b.y)),
            y: self.z.mul(b.x).sub(self.x.mul(b.z)),
            z: self.x.mul(b.y).sub(self.y.mul(b.x)),
            w: Scalar { raw: 0 },
        }
    }

    /// Mirror reflection about a surface normal.
    pub fn reflect(&self, normal: Tuple) -> (r: Tuple)
        ensures
            r == tup_reflect(*self, normal),
    {
        let d = self.dot(&normal);
        let two = Scalar { raw: 2 * SCALE };
        self.sub(normal.scale(two).scale(d))
    }

    /// True when every component differs by less than the tolerance.
    pub fn approx_eq(&self, rhs: &Tuple) -> (r: bool)
        ensures
            r == (fp_abs(fp_sub(self.x@, rhs.x@)) < EPSILON && fp_abs(fp_sub(self.y@, rhs.y@))
                < EPSILON && fp_abs(fp_sub(self.z@, rhs.z@)) < EPSILON && fp_abs(
                fp_sub(self.w@, rhs.w@),
            ) < EPSILON),
    {
        self.x.approx_eq(rhs.x) && self.y.approx_eq(rhs.y) && self.z.approx_eq(rhs.z)
            && self.w.approx_eq(rhs.w)
    }
}

} // verus!

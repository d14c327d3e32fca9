//! 2x2 matrices, the base case of the cofactor expansion.

use vstd::prelude::*;

use crate::scalar::{fp_abs, fp_mul, fp_sub, Scalar, EPSILON, SCALE};

verus! {

#[derive(Clone, Copy, PartialEq, Eq, Structural, Debug)]
pub struct Matrix2x2 {
    pub m00: Scalar,
    pub m01: Scalar,
    pub m10: Scalar,
    pub m11: Scalar,
}

pub open spec fn m2_at(m: Matrix2x2, row: int, col: int) -> int {
    if row == 0 {
        if col == 0 {
            m.m00@
        } else {
            m.m01@
        }
    } else {
        if col == 0 {
            m.m10@
        } else {
            m.m11@
        }
    }
}

pub open spec fn m2_set(m: Matrix2x2, row: int, col: int, v: Scalar) -> Matrix2x2 {
    if row == 0 {
        if col == 0 {
            Matrix2x2 { m00: v, ..m }
        } else {
            Matrix2x2 { m01: v, ..m }
        }
    } else {
        if col == 0 {
            Matrix2x2 { m10: v, ..m }
        } else {
            Matrix2x2 { m11: v, ..m }
        }
    }
}

pub open spec fn det2(m: Matrix2x2) -> int {
    fp_sub(fp_mul(m.m00@, m.m11@), fp_mul(m.m01@, m.m10@))
}

impl Matrix2x2 {
    pub fn new(data: [Scalar; 4]) -> (r: Matrix2x2)
        ensures
            r.m00 == data[0],
            r.m01 == data[1],
            r.m10 == data[2],
            r.m11 == data[3],
    {
        Matrix2x2 { m00: data[0], m01: data[1], m10: data[2], m11: data[3] }
    }

    pub fn identity() -> (r: Matrix2x2)
        ensures
            r == (Matrix2x2 {
                m00: Scalar { raw: SCALE },
                m01: Scalar { raw: 0 },
                m10: Scalar { raw: 0 },
                m11: Scalar { raw: SCALE },
            }),
    {
        Matrix2x2 {
            m00: Scalar { raw: SCALE },
            m01: Scalar { raw: 0 },
            m10: Scalar { raw: 0 },
            m11: Scalar { raw: SCALE },
        }
    }

    pub fn at(&self, row: usize, col: usize) -> (r: Scalar)
        requires
            row < 2,
            col < 2,
        ensures
            r@ == m2_at(*self, row as int, col as int),
    {
        if row == 0 {
            if col == 0 {
                self.m00
            } else {
                self.m01
            }
        } else {
            if col == 0 {
                self.m10
            } else {
                self.m11
            }
        }
    }

    pub fn set(&mut self, row: usize, col: usize, val: Scalar)
        requires
            row < 2,
            col < 2,
        ensures
            *final(self) == m2_set(*old(self), row as int, col as int, val),
    {
        if row == 0 {
            if col == 0 {
                self.m00 = val;
            } else {
                self.m01 = val;
            }
        } else {
            if col == 0 {
                self.m10 = val;
            } else {
                self.m11 = val;
            }
        }
    }

    pub fn transpose(&self) -> (r: Matrix2x2)
        ensures
            r == (Matrix2x2 { m00: self.m00, m01: self.m10, m10: self.m01, m11: self.m11 }),
    {
        Matrix2x2 { m00: self.m00, m01: self.m10, m10: self.m01, m11: self.m11 }
    }

    pub fn determinant(&self) -> (r: Scalar)
        ensures
            r@ == det2(*self),
    {
        self.m00.mul(self.m11).sub(self.m01.mul(self.m10))
    }

    /// True when the determinant is not within the tolerance of zero.
    pub fn invertible(&self) -> (r: bool)
        ensures
            r == (fp_abs(det2(*self)) >= EPSILON),
    {
        !self.determinant().near_zero()
    }

    /// True when every entry differs by less than the tolerance.
    pub fn approx_eq(&self, rhs: &Matrix2x2) -> (r: bool)
        ensures
            r == (fp_abs(fp_sub(self.m00@, rhs.m00@)) < EPSILON && fp_abs(
                fp_sub(self.m01@, rhs.m01@),
            ) < EPSILON && fp_abs(fp_sub(self.m10@, rhs.m10@)) < EPSILON && fp_abs(
                fp_sub(self.m11@, rhs.m11@),
            ) < EPSILON),
    {
        self.m00.approx_eq(rhs.m00) && self.m01.approx_eq(rhs.m01) && self.m10.approx_eq(rhs.m10)
            && self.m11.approx_eq(rhs.m11)
    }
}

} // verus!

//! 3x3 matrices, used for the minors of the 4x4 cofactor expansion.

use vstd::prelude::*;

use crate::matrix2x2::{det2, Matrix2x2};
use crate::scalar::{fp_abs, fp_add, fp_mul, fp_neg, fp_sub, Scalar, EPSILON, SCALE};

verus! {

/// The row or column index that remains after deleting index `k`.
pub open spec fn skip(i: int, k: int) -> int {
    if i < k {
        i
    } else {
        i + 1
    }
}

/// Executable counterpart of `skip`.
pub fn skip_e(i: usize, k: usize) -> (r: usize)
    requires
        i <= 3,
        k <= 3,
    ensures
        r == skip(i as int, k as int),
{
    if i < k {
        i
    } else {
        i + 1
    }
}

#[derive(Clone, Copy, PartialEq, Eq, Structural, Debug)]
pub struct Matrix3x3 {
    pub m00: Scalar,
    pub m01: Scalar,
    pub m02: Scalar,
    pub m10: Scalar,
    pub m11: Scalar,
    pub m12: Scalar,
    pub m20: Scalar,
    pub m21: Scalar,
    pub m22: Scalar,
}

pub open spec fn m3_at(m: Matrix3x3, row: int, col: int) -> int {
    if row == 0 {
        if col == 0 { m.m00@ } else
        if col == 1 { m.m01@ } else
        { m.m02@ }
    } else
    if row == 1 {
        if col == 0 { m.m10@ } else
        if col == 1 { m.m11@ } else
        { m.m12@ }
    } else
    {
        if col == 0 { m.m20@ } else
        if col == 1 { m.m21@ } else
        { m.m22@ }
    }
}

pub open spec fn m3_set(m: Matrix3x3, row: int, col: int, v: Scalar) -> Matrix3x3 {
    if row == 0 {
        if col == 0 { Matrix3x3 { m00: v, ..m } } else
        if col == 1 { Matrix3x3 { m01: v, ..m } } else
        { Matrix3x3 { m02: v, ..m } }
    } else
    if row == 1 {
        if col == 0 { Matrix3x3 { m10: v, ..m } } else
        if col == 1 { Matrix3x3 { m11: v, ..m } } else
        { Matrix3x3 { m12: v, ..m } }
    } else
    {
        if col == 0 { Matrix3x3 { m20: v, ..m } } else
        if col == 1 { Matrix3x3 { m21: v, ..m } } else
        { Matrix3x3 { m22: v, ..m } }
    }
}

/// The 2x2 matrix left after deleting one row and one column.
#[verifier::opaque]
pub open spec fn sub3(m: Matrix3x3, row: int, col: int) -> Matrix2x2 {
    Matrix2x2 {
        m00: Scalar { raw: m3_at(m, skip(0, row), skip(0, col)) as i64 },
        m01: Scalar { raw: m3_at(m, skip(0, row), skip(1, col)) as i64 },
        m10: Scalar { raw: m3_at(m, skip(1, row), skip(0, col)) as i64 },
        m11: Scalar { raw: m3_at(m, skip(1, row), skip(1, col)) as i64 },
    }
}

#[verifier::opaque]
pub open spec fn minor3(m: Matrix3x3, row: int, col: int) -> int {
    det2(sub3(m, row, col))
}

pub open spec fn cof3(m: Matrix3x3, row: int, col: int) -> int {
    if (row + col) % 2 == 0 {
        minor3(m, row, col)
    } else {
        fp_neg(minor3(m, row, col))
    }
}

pub open spec fn det3(m: Matrix3x3) -> int {
    fp_add(
        fp_add(fp_mul(m.m00@, cof3(m, 0, 0)), fp_mul(m.m01@, cof3(m, 0, 1))),
        fp_mul(m.m02@, cof3(m, 0, 2)),
    )
}

impl Matrix3x3 {
    pub fn new(data: [Scalar; 9]) -> (r: Matrix3x3)
        ensures
            r.m00 == data[0],
            r.m01 == data[1],
            r.m02 == data[2],
            r.m10 == data[3],
            r.m11 == data[4],
            r.m12 == data[5],
            r.m20 == data[6],
            r.m21 == data[7],
            r.m22 == data[8],
    {
        Matrix3x3 {
            m00: data[0],
            m01: data[1],
            m02: data[2],
            m10: data[3],
            m11: data[4],
            m12: data[5],
            m20: data[6],
            m21: data[7],
            m22: data[8],
        }
    }

    pub fn identity() -> (r: Matrix3x3)
        ensures
            r == (
        Matrix3x3 {
            m00: Scalar { raw: SCALE },
            m01: Scalar { raw: 0 },
            m02: Scalar { raw: 0 },
            m10: Scalar { raw: 0 },
            m11: Scalar { raw: SCALE },
            m12: Scalar { raw: 0 },
            m20: Scalar { raw: 0 },
            m21: Scalar { raw: 0 },
            m22: Scalar { raw: SCALE },
        }),
    {
        Matrix3x3 {
            m00: Scalar { raw: SCALE },
            m01: Scalar { raw: 0 },
            m02: Scalar { raw: 0 },
            m10: Scalar { raw: 0 },
            m11: Scalar { raw: SCALE },
            m12: Scalar { raw: 0 },
            m20: Scalar { raw: 0 },
            m21: Scalar { raw: 0 },
            m22: Scalar { raw: SCALE },
        }
    }

    pub fn at(&self, row: usize, col: usize) -> (r: Scalar)
        requires
            row < 3,
            col < 3,
        ensures
            r@ == m3_at(*self, row as int, col as int),
    {
        if row == 0 {
            if col == 0 { self.m00 } else
            if col == 1 { self.m01 } else
            { self.m02 }
        } else
        if row == 1 {
            if col == 0 { self.m10 } else
            if col == 1 { self.m11 } else
            { self.m12 }
        } else
        {
            if col == 0 { self.m20 } else
            if col == 1 { self.m21 } else
            { self.m22 }
        }
    }

    pub fn set(&mut self, row: usize, col: usize, val: Scalar)
        requires
            row < 3,
            col < 3,
        ensures
            *final(self) == m3_set(*old(self), row as int, col as int, val),
    {
        if row == 0 {
            if col == 0 { self.m00 = val; } else
            if col == 1 { self.m01 = val; } else
            { self.m02 = val; }
        } else
        if row == 1 {
            if col == 0 { self.m10 = val; } else
            if col == 1 { self.m11 = val; } else
            { self.m12 = val; }
        } else
        {
            if col == 0 { self.m20 = val; } else
            if col == 1 { self.m21 = val; } else
            { self.m22 = val; }
        }
    }

    pub fn transpose(&self) -> (r: Matrix3x3)
        ensures
            r == (
        Matrix3x3 {
            m00: self.m00,
            m01: self.m10,
            m02: self.m20,
            m10: self.m01,
            m11: self.m11,
            m12: self.m21,
            m20: self.m02,
            m21: self.m12,
            m22: self.m22,
        }),
    {
        Matrix3x3 {
            m00: self.m00,
            m01: self.m10,
            m02: self.m20,
            m10: self.m01,
            m11: self.m11,
            m12: self.m21,
            m20: self.m02,
            m21: self.m12,
            m22: self.m22,
        }
    }

    /// The 2x2 matrix left after deleting `row` and `col`.
    pub fn submatrix(&self, row: usize, col: usize) -> (r: Matrix2x2)
        requires
            row < 3,
            col < 3,
        ensures
            r == sub3(*self, row as int, col as int),
    {
        proof {
            reveal(sub3);
        }
        let r0 = skip_e(0, row);
        let r1 = skip_e(1, row);
        let c0 = skip_e(0, col);
        let c1 = skip_e(1, col);
        Matrix2x2 {
            m00: self.at(r0, c0),
            m01: self.at(r0, c1),
            m10: self.at(r1, c0),
            m11: self.at(r1, c1),
        }
    }

    /// The determinant of the submatrix.
    pub fn minor(&self, row: usize, col: usize) -> (r: Scalar)
        requires
            row < 3,
            col < 3,
        ensures
            r@ == minor3(*self, row as int, col as int),
    {
        proof {
            reveal(minor3);
        }
        self.submatrix(row, col).determinant()
    }

    /// The minor with the checkerboard sign applied.
    pub fn cofactor(&self, row: usize, col: usize) -> (r: Scalar)
        requires
            row < 3,
            col < 3,
        ensures
            r@ == cof3(*self, row as int, col as int),
    {
        let mn = self.minor(row, col);
        if (row + col) % 2 == 0 {
            mn
        } else {
            mn.neg()
        }
    }

    /// Cofactor expansion along the first row.
    pub fn determinant(&self) -> (r: Scalar)
        ensures
            r@ == det3(*self),
    {
        self.m00.mul(self.cofactor(0, 0)).add(self.m01.mul(self.cofactor(0, 1))).add(
            self.m02.mul(self.cofactor(0, 2)),
        )
    }

    /// True when the determinant is not within the tolerance of zero.
    pub fn invertible(&self) -> (r: bool)
        ensures
            r == (fp_abs(det3(*self)) >= EPSILON),
    {
        !self.determinant().near_zero()
    }

    /// True when every entry differs by less than the tolerance.
    pub fn approx_eq(&self, rhs: &Matrix3x3) -> (r: bool)
        ensures
            r == (fp_abs(fp_sub(self.m00@, rhs.m00@)) < EPSILON && fp_abs(fp_sub(self.m01@, rhs.m01@)) < EPSILON && fp_abs(fp_sub(self.m02@, rhs.m02@)) < EPSILON && fp_abs(fp_sub(self.m10@, rhs.m10@)) < EPSILON && fp_abs(fp_sub(self.m11@, rhs.m11@)) < EPSILON && fp_abs(fp_sub(self.m12@, rhs.m12@)) < EPSILON && fp_abs(fp_sub(self.m20@, rhs.m20@)) < EPSILON && fp_abs(fp_sub(self.m21@, rhs.m21@)) < EPSILON && fp_abs(fp_sub(self.m22@, rhs.m22@)) < EPSILON),
    {
        self.m00.approx_eq(rhs.m00) && self.m01.approx_eq(rhs.m01) && self.m02.approx_eq(rhs.m02) && self.m10.approx_eq(rhs.m10) && self.m11.approx_eq(rhs.m11) && self.m12.approx_eq(rhs.m12) && self.m20.approx_eq(rhs.m20) && self.m21.approx_eq(rhs.m21) && self.m22.approx_eq(rhs.m22)
    }
}

} // verus!

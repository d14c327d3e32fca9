//! 4x4 matrices: the affine transforms of the scene, with cofactor
//! determinants and an exact fixed-point inverse.

use vstd::prelude::*;

use crate::error::TraceError;
use crate::matrix3x3::{det3, skip, skip_e, Matrix3x3};
use crate::scalar::{fp_abs, fp_add, fp_div, fp_mul, fp_neg, fp_sub, Scalar, EPSILON, SCALE};
use crate::tuple::Tuple;

verus! {

#[derive(Clone, Copy, PartialEq, Eq, Structural, Debug)]
pub struct Matrix4x4 {
    pub m00: Scalar,
    pub m01: Scalar,
    pub m02: Scalar,
    pub m03: Scalar,
    pub m10: Scalar,
    pub m11: Scalar,
    pub m12: Scalar,
    pub m13: Scalar,
    pub m20: Scalar,
    pub m21: Scalar,
    pub m22: Scalar,
    pub m23: Scalar,
    pub m30: Scalar,
    pub m31: Scalar,
    pub m32: Scalar,
    pub m33: Scalar,
}

pub open spec fn m4_at(m: Matrix4x4, row: int, col: int) -> int {
    if row == 0 {
        if col == 0 { m.m00@ } else
        if col == 1 { m.m01@ } else
        if col == 2 { m.m02@ } else
        { m.m03@ }
    } else
    if row == 1 {
        if col == 0 { m.m10@ } else
        if col == 1 { m.m11@ } else
        if col == 2 { m.m12@ } else
        { m.m13@ }
    } else
    if row == 2 {
        if col == 0 { m.m20@ } else
        if col == 1 { m.m21@ } else
        if col == 2 { m.m22@ } else
        { m.m23@ }
    } else
    {
        if col == 0 { m.m30@ } else
        if col == 1 { m.m31@ } else
        if col == 2 { m.m32@ } else
        { m.m33@ }
    }
}

pub open spec fn m4_set(m: Matrix4x4, row: int, col: int, v: Scalar) -> Matrix4x4 {
    if row == 0 {
        if col == 0 { Matrix4x4 { m00: v, ..m } } else
        if col == 1 { Matrix4x4 { m01: v, ..m } } else
        if col == 2 { Matrix4x4 { m02: v, ..m } } else
        { Matrix4x4 { m03: v, ..m } }
    } else
    if row == 1 {
        if col == 0 { Matrix4x4 { m10: v, ..m } } else
        if col == 1 { Matrix4x4 { m11: v, ..m } } else
        if col == 2 { Matrix4x4 { m12: v, ..m } } else
        { Matrix4x4 { m13: v, ..m } }
    } else
    if row == 2 {
        if col == 0 { Matrix4x4 { m20: v, ..m } } else
        if col == 1 { Matrix4x4 { m21: v, ..m } } else
        if col == 2 { Matrix4x4 { m22: v, ..m } } else
        { Matrix4x4 { m23: v, ..m } }
    } else
    {
        if col == 0 { Matrix4x4 { m30: v, ..m } } else
        if col == 1 { Matrix4x4 { m31: v, ..m } } else
        if col == 2 { Matrix4x4 { m32: v, ..m } } else
        { Matrix4x4 { m33: v, ..m } }
    }
}

pub open spec fn m4_identity() -> Matrix4x4 {
    Matrix4x4 {
        m00: Scalar { raw: SCALE },
        m01: Scalar { raw: 0 },
        m02: Scalar { raw: 0 },
        m03: Scalar { raw: 0 },
        m10: Scalar { raw: 0 },
        m11: Scalar { raw: SCALE },
        m12: Scalar { raw: 0 },
        m13: Scalar { raw: 0 },
        m20: Scalar { raw: 0 },
        m21: Scalar { raw: 0 },
        m22: Scalar { raw: SCALE },
        m23: Scalar { raw: 0 },
        m30: Scalar { raw: 0 },
        m31: Scalar { raw: 0 },
        m32: Scalar { raw: 0 },
        m33: Scalar { raw: SCALE },
    }
}

/// Fixed-point dot product of four pairs, folded left as the code does.
pub open spec fn dot4(a0: int, a1: int, a2: int, a3: int, b0: int, b1: int, b2: int, b3: int) -> int {
    fp_add(fp_add(fp_add(fp_mul(a0, b0), fp_mul(a1, b1)), fp_mul(a2, b2)), fp_mul(a3, b3))
}

#[verifier::opaque]
pub open spec fn mat4_mul(a: Matrix4x4, b: Matrix4x4) -> Matrix4x4 {
    Matrix4x4 {
        m00: Scalar { raw: dot4(a.m00@, a.m01@, a.m02@, a.m03@, b.m00@, b.m10@, b.m20@, b.m30@) as i64 },
        m01: Scalar { raw: dot4(a.m00@, a.m01@, a.m02@, a.m03@, b.m01@, b.m11@, b.m21@, b.m31@) as i64 },
        m02: Scalar { raw: dot4(a.m00@, a.m01@, a.m02@, a.m03@, b.m02@, b.m12@, b.m22@, b.m32@) as i64 },
        m03: Scalar { raw: dot4(a.m00@, a.m01@, a.m02@, a.m03@, b.m03@, b.m13@, b.m23@, b.m33@) as i64 },
        m10: Scalar { raw: dot4(a.m10@, a.m11@, a.m12@, a.m13@, b.m00@, b.m10@, b.m20@, b.m30@) as i64 },
        m11: Scalar { raw: dot4(a.m10@, a.m11@, a.m12@, a.m13@, b.m01@, b.m11@, b.m21@, b.m31@) as i64 },
        m12: Scalar { raw: dot4(a.m10@, a.m11@, a.m12@, a.m13@, b.m02@, b.m12@, b.m22@, b.m32@) as i64 },
        m13: Scalar { raw: dot4(a.m10@, a.m11@, a.m12@, a.m13@, b.m03@, b.m13@, b.m23@, b.m33@) as i64 },
        m20: Scalar { raw: dot4(a.m20@, a.m21@, a.m22@, a.m23@, b.m00@, b.m10@, b.m20@, b.m30@) as i64 },
        m21: Scalar { raw: dot4(a.m20@, a.m21@, a.m22@, a.m23@, b.m01@, b.m11@, b.m21@, b.m31@) as i64 },
        m22: Scalar { raw: dot4(a.m20@, a.m21@, a.m22@, a.m23@, b.m02@, b.m12@, b.m22@, b.m32@) as i64 },
        m23: Scalar { raw: dot4(a.m20@, a.m21@, a.m22@, a.m23@, b.m03@, b.m13@, b.m23@, b.m33@) as i64 },
        m30: Scalar { raw: dot4(a.m30@, a.m31@, a.m32@, a.m33@, b.m00@, b.m10@, b.m20@, b.m30@) as i64 },
        m31: Scalar { raw: dot4(a.m30@, a.m31@, a.m32@, a.m33@, b.m01@, b.m11@, b.m21@, b.m31@) as i64 },
        m32: Scalar { raw: dot4(a.m30@, a.m31@, a.m32@, a.m33@, b.m02@, b.m12@, b.m22@, b.m32@) as i64 },
        m33: Scalar { raw: dot4(a.m30@, a.m31@, a.m32@, a.m33@, b.m03@, b.m13@, b.m23@, b.m33@) as i64 },
    }
}

#[verifier::opaque]
pub open spec fn mat4_mul_tuple(m: Matrix4x4, t: Tuple) -> Tuple {
    Tuple {
        x: Scalar { raw: dot4(m.m00@, m.m01@, m.m02@, m.m03@, t.x@, t.y@, t.z@, t.w@) as i64 },
        y: Scalar { raw: dot4(m.m10@, m.m11@, m.m12@, m.m13@, t.x@, t.y@, t.z@, t.w@) as i64 },
        z: Scalar { raw: dot4(m.m20@, m.m21@, m.m22@, m.m23@, t.x@, t.y@, t.z@, t.w@) as i64 },
        w: Scalar { raw: dot4(m.m30@, m.m31@, m.m32@, m.m33@, t.x@, t.y@, t.z@, t.w@) as i64 },
    }
}

/// The transpose.
pub open spec fn m4_transpose(m: Matrix4x4) -> Matrix4x4 {
    Matrix4x4 {
        m00: m.m00,
        m01: m.m10,
        m02: m.m20,
        m03: m.m30,
        m10: m.m01,
        m11: m.m11,
        m12: m.m21,
        m13: m.m31,
        m20: m.m02,
        m21: m.m12,
        m22: m.m22,
        m23: m.m32,
        m30: m.m03,
        m31: m.m13,
        m32: m.m23,
        m33: m.m33,
    }
}

/// The 3x3 matrix left after deleting one row and one column.
#[verifier::opaque]
pub open spec fn sub4(m: Matrix4x4, row: int, col: int) -> Matrix3x3 {
    Matrix3x3 {
        m00: Scalar { raw: m4_at(m, skip(0, row), skip(0, col)) as i64 },
        m01: Scalar { raw: m4_at(m, skip(0, row), skip(1, col)) as i64 },
        m02: Scalar { raw: m4_at(m, skip(0, row), skip(2, col)) as i64 },
        m10: Scalar { raw: m4_at(m, skip(1, row), skip(0, col)) as i64 },
        m11: Scalar { raw: m4_at(m, skip(1, row), skip(1, col)) as i64 },
        m12: Scalar { raw: m4_at(m, skip(1, row), skip(2, col)) as i64 },
        m20: Scalar { raw: m4_at(m, skip(2, row), skip(0, col)) as i64 },
        m21: Scalar { raw: m4_at(m, skip(2, row), skip(1, col)) as i64 },
        m22: Scalar { raw: m4_at(m, skip(2, row), skip(2, col)) as i64 },
    }
}

#[verifier::opaque]
pub open spec fn minor4(m: Matrix4x4, row: int, col: int) -> int {
    det3(sub4(m, row, col))
}

pub open spec fn cof4(m: Matrix4x4, row: int, col: int) -> int {
    if (row + col) % 2 == 0 {
        minor4(m, row, col)
    } else {
        fp_neg(minor4(m, row, col))
    }
}

pub open spec fn det4(m: Matrix4x4) -> int {
    fp_add(
        fp_add(
            fp_add(fp_mul(m.m00@, cof4(m, 0, 0)), fp_mul(m.m01@, cof4(m, 0, 1))),
            fp_mul(m.m02@, cof4(m, 0, 2)),
        ),
        fp_mul(m.m03@, cof4(m, 0, 3)),
    )
}

/// Invertibility means the determinant is not within the tolerance of zero.
pub open spec fn m4_invertible(m: Matrix4x4) -> bool {
    fp_abs(det4(m)) >= EPSILON
}

/// The inverse by cofactors: entry (i, j) is `cofactor(j, i) / det`.
#[verifier::opaque]
pub open spec fn inv4(m: Matrix4x4) -> Matrix4x4 {
    Matrix4x4 {
        m00: Scalar { raw: fp_div(cof4(m, 0, 0), det4(m)) as i64 },
        m01: Scalar { raw: fp_div(cof4(m, 1, 0), det4(m)) as i64 },
        m02: Scalar { raw: fp_div(cof4(m, 2, 0), det4(m)) as i64 },
        m03: Scalar { raw: fp_div(cof4(m, 3, 0), det4(m)) as i64 },
        m10: Scalar { raw: fp_div(cof4(m, 0, 1), det4(m)) as i64 },
        m11: Scalar { raw: fp_div(cof4(m, 1, 1), det4(m)) as i64 },
        m12: Scalar { raw: fp_div(cof4(m, 2, 1), det4(m)) as i64 },
        m13: Scalar { raw: fp_div(cof4(m, 3, 1), det4(m)) as i64 },
        m20: Scalar { raw: fp_div(cof4(m, 0, 2), det4(m)) as i64 },
        m21: Scalar { raw: fp_div(cof4(m, 1, 2), det4(m)) as i64 },
        m22: Scalar { raw: fp_div(cof4(m, 2, 2), det4(m)) as i64 },
        m23: Scalar { raw: fp_div(cof4(m, 3, 2), det4(m)) as i64 },
        m30: Scalar { raw: fp_div(cof4(m, 0, 3), det4(m)) as i64 },
        m31: Scalar { raw: fp_div(cof4(m, 1, 3), det4(m)) as i64 },
        m32: Scalar { raw: fp_div(cof4(m, 2, 3), det4(m)) as i64 },
        m33: Scalar { raw: fp_div(cof4(m, 3, 3), det4(m)) as i64 },
    }
}

/// The identity transform maps every tuple to itself, exactly: the ones
/// on the diagonal multiply each component unchanged and the zeros add
/// nothing.
pub proof fn lemma_identity_mul_tuple(t: Tuple)
    ensures
        mat4_mul_tuple(m4_identity(), t) == t,
{
    reveal(mat4_mul_tuple);
    crate::scalar::lemma_fp_mul_one(t.x@);
    crate::scalar::lemma_fp_mul_one(t.y@);
    crate::scalar::lemma_fp_mul_one(t.z@);
    crate::scalar::lemma_fp_mul_one(t.w@);
    let sc = SCALE as int;
    vstd::arithmetic::div_mod::lemma_div_of0(sc);
}

impl Matrix4x4 {
    pub fn new(data: [Scalar; 16]) -> (r: Matrix4x4)
        ensures
            r.m00 == data[0],
            r.m01 == data[1],
            r.m02 == data[2],
            r.m03 == data[3],
            r.m10 == data[4],
            r.m11 == data[5],
            r.m12 == data[6],
            r.m13 == data[7],
            r.m20 == data[8],
            r.m21 == data[9],
            r.m22 == data[10],
            r.m23 == data[11],
            r.m30 == data[12],
            r.m31 == data[13],
            r.m32 == data[14],
            r.m33 == data[15],
    {
        Matrix4x4 {
            m00: data[0],
            m01: data[1],
            m02: data[2],
            m03: data[3],
            m10: data[4],
            m11: data[5],
            m12: data[6],
            m13: data[7],
            m20: data[8],
            m21: data[9],
            m22: data[10],
            m23: data[11],
            m30: data[12],
            m31: data[13],
            m32: data[14],
            m33: data[15],
        }
    }

    pub fn identity() -> (r: Matrix4x4)
        ensures
            r == m4_identity(),
    {
        Matrix4x4 {
            m00: Scalar { raw: SCALE },
            m01: Scalar { raw: 0 },
            m02: Scalar { raw: 0 },
            m03: Scalar { raw: 0 },
            m10: Scalar { raw: 0 },
            m11: Scalar { raw: SCALE },
            m12: Scalar { raw: 0 },
            m13: Scalar { raw: 0 },
            m20: Scalar { raw: 0 },
            m21: Scalar { raw: 0 },
            m22: Scalar { raw: SCALE },
            m23: Scalar { raw: 0 },
            m30: Scalar { raw: 0 },
            m31: Scalar { raw: 0 },
            m32: Scalar { raw: 0 },
            m33: Scalar { raw: SCALE },
        }
    }

    pub fn at(&self, row: usize, col: usize) -> (r: Scalar)
        requires
            row < 4,
            col < 4,
        ensures
            r@ == m4_at(*self, row as int, col as int),
    {
        if row == 0 {
            if col == 0 { self.m00 } else
            if col == 1 { self.m01 } else
            if col == 2 { self.m02 } else
            { self.m03 }
        } else
        if row == 1 {
            if col == 0 { self.m10 } else
            if col == 1 { self.m11 } else
            if col == 2 { self.m12 } else
            { self.m13 }
        } else
        if row == 2 {
            if col == 0 { self.m20 } else
            if col == 1 { self.m21 } else
            if col == 2 { self.m22 } else
            { self.m23 }
        } else
        {
            if col == 0 { self.m30 } else
            if col == 1 { self.m31 } else
            if col == 2 { self.m32 } else
            { self.m33 }
        }
    }

    pub fn set(&mut self, row: usize, col: usize, val: Scalar)
        requires
            row < 4,
            col < 4,
        ensures
            *final(self) == m4_set(*old(self), row as int, col as int, val),
    {
        if row == 0 {
            if col == 0 { self.m00 = val; } else
            if col == 1 { self.m01 = val; } else
            if col == 2 { self.m02 = val; } else
            { self.m03 = val; }
        } else
        if row == 1 {
            if col == 0 { self.m10 = val; } else
            if col == 1 { self.m11 = val; } else
            if col == 2 { self.m12 = val; } else
            { self.m13 = val; }
        } else
        if row == 2 {
            if col == 0 { self.m20 = val; } else
            if col == 1 { self.m21 = val; } else
            if col == 2 { self.m22 = val; } else
            { self.m23 = val; }
        } else
        {
            if col == 0 { self.m30 = val; } else
            if col == 1 { self.m31 = val; } else
            if col == 2 { self.m32 = val; } else
            { self.m33 = val; }
        }
    }

    pub fn transpose(&self) -> (r: Matrix4x4)
        ensures
            r == m4_transpose(*self),
    {
        Matrix4x4 {
            m00: self.m00,
            m01: self.m10,
            m02: self.m20,
            m03: self.m30,
            m10: self.m01,
            m11: self.m11,
            m12: self.m21,
            m13: self.m31,
            m20: self.m02,
            m21: self.m12,
            m22: self.m22,
            m23: self.m32,
            m30: self.m03,
            m31: self.m13,
            m32: self.m23,
            m33: self.m33,
        }
    }

    /// The 3x3 matrix left after deleting `row` and `col`.
    pub fn submatrix(&self, row: usize, col: usize) -> (r: Matrix3x3)
        requires
            row < 4,
            col < 4,
        ensures
            r == sub4(*self, row as int, col as int),
    {
        proof {
            reveal(sub4);
        }
        let r0 = skip_e(0, row);
        let r1 = skip_e(1, row);
        let r2 = skip_e(2, row);
        let c0 = skip_e(0, col);
        let c1 = skip_e(1, col);
        let c2 = skip_e(2, col);
        Matrix3x3 {
            m00: self.at(r0, c0),
            m01: self.at(r0, c1),
            m02: self.at(r0, c2),
            m10: self.at(r1, c0),
            m11: self.at(r1, c1),
            m12: self.at(r1, c2),
            m20: self.at(r2, c0),
            m21: self.at(r2, c1),
            m22: self.at(r2, c2),
        }
    }

    /// The determinant of the submatrix.
    pub fn minor(&self, row: usize, col: usize) -> (r: Scalar)
        requires
            row < 4,
            col < 4,
        ensures
            r@ == minor4(*self, row as int, col as int),
    {
        proof {
            reveal(minor4);
        }
        self.submatrix(row, col).determinant()
    }

    /// The minor with the checkerboard sign applied.
    pub fn cofactor(&self, row: usize, col: usize) -> (r: Scalar)
        requires
            row < 4,
            col < 4,
        ensures
            r@ == cof4(*self, row as int, col as int),
    {
        let mn = self.minor(row, col);
        if (row + col) % 2 == 0 {
            mn
        } else {
            mn.neg()
        }
    }

    /// True when the determinant is not within the tolerance of zero.
    pub fn invertible(&self) -> (r: bool)
        ensures
            r == m4_invertible(*self),
    {
        !self.determinant().near_zero()
    }

    /// Cofactor expansion along the first row.
    pub fn determinant(&self) -> (r: Scalar)
        ensures
            r@ == det4(*self),
    {
        self.m00.mul(self.cofactor(0, 0)).add(self.m01.mul(self.cofactor(0, 1))).add(
            self.m02.mul(self.cofactor(0, 2)),
        ).add(self.m03.mul(self.cofactor(0, 3)))
    }

    /// The inverse by cofactors, or the error when the determinant is
    /// within the tolerance of zero.
    pub fn inverse(&self) -> (r: Result<Matrix4x4, TraceError>)
        ensures
            m4_invertible(*self) ==> r == Ok::<Matrix4x4, TraceError>(inv4(*self)),
            !m4_invertible(*self) ==> r == Err::<Matrix4x4, TraceError>(TraceError::NotInvertible),
    {
        proof {
            reveal(inv4);
        }
        if !self.invertible() {
            Err(TraceError::NotInvertible)
        } else {
            let det = self.determinant();
            Ok(Matrix4x4 {
                m00: self.cofactor(0, 0).div(det),
                m01: self.cofactor(1, 0).div(det),
                m02: self.cofactor(2, 0).div(det),
                m03: self.cofactor(3, 0).div(det),
                m10: self.cofactor(0, 1).div(det),
                m11: self.cofactor(1, 1).div(det),
                m12: self.cofactor(2, 1).div(det),
                m13: self.cofactor(3, 1).div(det),
                m20: self.cofactor(0, 2).div(det),
                m21: self.cofactor(1, 2).div(det),
                m22: self.cofactor(2, 2).div(det),
                m23: self.cofactor(3, 2).div(det),
                m30: self.cofactor(0, 3).div(det),
                m31: self.cofactor(1, 3).div(det),
                m32: self.cofactor(2, 3).div(det),
                m33: self.cofactor(3, 3).div(det),
            })
        }
    }

    /// Matrix product.
    pub fn mul(&self, rhs: &Matrix4x4) -> (r: Matrix4x4)
        ensures
            r == mat4_mul(*self, *rhs),
    {
        proof {
            reveal(mat4_mul);
        }
        Matrix4x4 {
            m00: self.m00.mul(rhs.m00).add(self.m01.mul(rhs.m10)).add(self.m02.mul(rhs.m20)).add(self.m03.mul(rhs.m30)),
            m01: self.m00.mul(rhs.m01).add(self.m01.mul(rhs.m11)).add(self.m02.mul(rhs.m21)).add(self.m03.mul(rhs.m31)),
            m02: self.m00.mul(rhs.m02).add(self.m01.mul(rhs.m12)).add(self.m02.mul(rhs.m22)).add(self.m03.mul(rhs.m32)),
            m03: self.m00.mul(rhs.m03).add(self.m01.mul(rhs.m13)).add(self.m02.mul(rhs.m23)).add(self.m03.mul(rhs.m33)),
            m10: self.m10.mul(rhs.m00).add(self.m11.mul(rhs.m10)).add(self.m12.mul(rhs.m20)).add(self.m13.mul(rhs.m30)),
            m11: self.m10.mul(rhs.m01).add(self.m11.mul(rhs.m11)).add(self.m12.mul(rhs.m21)).add(self.m13.mul(rhs.m31)),
            m12: self.m10.mul(rhs.m02).add(self.m11.mul(rhs.m12)).add(self.m12.mul(rhs.m22)).add(self.m13.mul(rhs.m32)),
            m13: self.m10.mul(rhs.m03).add(self.m11.mul(rhs.m13)).add(self.m12.mul(rhs.m23)).add(self.m13.mul(rhs.m33)),
            m20: self.m20.mul(rhs.m00).add(self.m21.mul(rhs.m10)).add(self.m22.mul(rhs.m20)).add(self.m23.mul(rhs.m30)),
            m21: self.m20.mul(rhs.m01).add(self.m21.mul(rhs.m11)).add(self.m22.mul(rhs.m21)).add(self.m23.mul(rhs.m31)),
            m22: self.m20.mul(rhs.m02).add(self.m21.mul(rhs.m12)).add(self.m22.mul(rhs.m22)).add(self.m23.mul(rhs.m32)),
            m23: self.m20.mul(rhs.m03).add(self.m21.mul(rhs.m13)).add(self.m22.mul(rhs.m23)).add(self.m23.mul(rhs.m33)),
            m30: self.m30.mul(rhs.m00).add(self.m31.mul(rhs.m10)).add(self.m32.mul(rhs.m20)).add(self.m33.mul(rhs.m30)),
            m31: self.m30.mul(rhs.m01).add(self.m31.mul(rhs.m11)).add(self.m32.mul(rhs.m21)).add(self.m33.mul(rhs.m31)),
            m32: self.m30.mul(rhs.m02).add(self.m31.mul(rhs.m12)).add(self.m32.mul(rhs.m22)).add(self.m33.mul(rhs.m32)),
            m33: self.m30.mul(rhs.m03).add(self.m31.mul(rhs.m13)).add(self.m32.mul(rhs.m23)).add(self.m33.mul(rhs.m33)),
        }
    }

    /// Matrix applied to a tuple.
    pub fn mul_tuple(&self, t: &Tuple) -> (r: Tuple)
        ensures
            r == mat4_mul_tuple(*self, *t),
    {
        proof {
            reveal(mat4_mul_tuple);
        }
        Tuple {
            x: self.m00.mul(t.x).add(self.m01.mul(t.y)).add(self.m02.mul(t.z)).add(self.m03.mul(t.w)),
            y: self.m10.mul(t.x).add(self.m11.mul(t.y)).add(self.m12.mul(t.z)).add(self.m13.mul(t.w)),
            z: self.m20.mul(t.x).add(self.m21.mul(t.y)).add(self.m22.mul(t.z)).add(self.m23.mul(t.w)),
            w: self.m30.mul(t.x).add(self.m31.mul(t.y)).add(self.m32.mul(t.z)).add(self.m33.mul(t.w)),
        }
    }

    /// True when every entry differs by less than the tolerance.
    pub fn approx_eq(&self, rhs: &Matrix4x4) -> (r: bool)
        ensures
            r == (fp_abs(fp_sub(self.m00@, rhs.m00@)) < EPSILON && fp_abs(fp_sub(self.m01@, rhs.m01@)) < EPSILON && fp_abs(fp_sub(self.m02@, rhs.m02@)) < EPSILON && fp_abs(fp_sub(self.m03@, rhs.m03@)) < EPSILON && fp_abs(fp_sub(self.m10@, rhs.m10@)) < EPSILON && fp_abs(fp_sub(self.m11@, rhs.m11@)) < EPSILON && fp_abs(fp_sub(self.m12@, rhs.m12@)) < EPSILON && fp_abs(fp_sub(self.m13@, rhs.m13@)) < EPSILON && fp_abs(fp_sub(self.m20@, rhs.m20@)) < EPSILON && fp_abs(fp_sub(self.m21@, rhs.m21@)) < EPSILON && fp_abs(fp_sub(self.m22@, rhs.m22@)) < EPSILON && fp_abs(fp_sub(self.m23@, rhs.m23@)) < EPSILON && fp_abs(fp_sub(self.m30@, rhs.m30@)) < EPSILON && fp_abs(fp_sub(self.m31@, rhs.m31@)) < EPSILON && fp_abs(fp_sub(self.m32@, rhs.m32@)) < EPSILON && fp_abs(fp_sub(self.m33@, rhs.m33@)) < EPSILON),
    {
        self.m00.approx_eq(rhs.m00)
            && self.m01.approx_eq(rhs.m01)
            && self.m02.approx_eq(rhs.m02)
            && self.m03.approx_eq(rhs.m03)
            && self.m10.approx_eq(rhs.m10)
            && self.m11.approx_eq(rhs.m11)
            && self.m12.approx_eq(rhs.m12)
            && self.m13.approx_eq(rhs.m13)
            && self.m20.approx_eq(rhs.m20)
            && self.m21.approx_eq(rhs.m21)
            && self.m22.approx_eq(rhs.m22)
            && self.m23.approx_eq(rhs.m23)
            && self.m30.approx_eq(rhs.m30)
            && self.m31.approx_eq(rhs.m31)
            && self.m32.approx_eq(rhs.m32)
            && self.m33.approx_eq(rhs.m33)
    }
}

} // verus!

//! Row-major 4x4 matrices over exact scalars.

use vstd::prelude::*;

use crate::scalar::{Scalar, rat_dot4, rat_dot4_fits, rat_int, rat_wf, Rat, dot4};

verus! {

/// Mathematical model of a 4x4 matrix: sixteen rational entries, row-major.
pub ghost struct M4 {
    pub m00: Rat,
    pub m01: Rat,
    pub m02: Rat,
    pub m03: Rat,
    pub m10: Rat,
    pub m11: Rat,
    pub m12: Rat,
    pub m13: Rat,
    pub m20: Rat,
    pub m21: Rat,
    pub m22: Rat,
    pub m23: Rat,
    pub m30: Rat,
    pub m31: Rat,
    pub m32: Rat,
    pub m33: Rat,
}

/// Every entry has a positive denominator.
pub open spec fn m4_wf(m: M4) -> bool {
    &&& rat_wf(m.m00) && rat_wf(m.m01) && rat_wf(m.m02) && rat_wf(m.m03)
    &&& rat_wf(m.m10) && rat_wf(m.m11) && rat_wf(m.m12) && rat_wf(m.m13)
    &&& rat_wf(m.m20) && rat_wf(m.m21) && rat_wf(m.m22) && rat_wf(m.m23)
    &&& rat_wf(m.m30) && rat_wf(m.m31) && rat_wf(m.m32) && rat_wf(m.m33)
}

pub open spec fn m4_zero() -> M4 {
    M4 {
        m00: rat_int(0), m01: rat_int(0), m02: rat_int(0), m03: rat_int(0),
        m10: rat_int(0), m11: rat_int(0), m12: rat_int(0), m13: rat_int(0),
        m20: rat_int(0), m21: rat_int(0), m22: rat_int(0), m23: rat_int(0),
        m30: rat_int(0), m31: rat_int(0), m32: rat_int(0), m33: rat_int(0),
    }
}

/// The matrix product `a * b`: entry `(i, j)` is the dot product of row `i`
/// of `a` with column `j` of `b`.
pub open spec fn m4_mul(a: M4, b: M4) -> M4 {
    M4 {
        m00: rat_dot4(a.m00, a.m01, a.m02, a.m03, b.m00, b.m10, b.m20, b.m30),
        m01: rat_dot4(a.m00, a.m01, a.m02, a.m03, b.m01, b.m11, b.m21, b.m31),
        m02: rat_dot4(a.m00, a.m01, a.m02, a.m03, b.m02, b.m12, b.m22, b.m32),
        m03: rat_dot4(a.m00, a.m01, a.m02, a.m03, b.m03, b.m13, b.m23, b.m33),
        m10: rat_dot4(a.m10, a.m11, a.m12, a.m13, b.m00, b.m10, b.m20, b.m30),
        m11: rat_dot4(a.m10, a.m11, a.m12, a.m13, b.m01, b.m11, b.m21, b.m31),
        m12: rat_dot4(a.m10, a.m11, a.m12, a.m13, b.m02, b.m12, b.m22, b.m32),
        m13: rat_dot4(a.m10, a.m11, a.m12, a.m13, b.m03, b.m13, b.m23, b.m33),
        m20: rat_dot4(a.m20, a.m21, a.m22, a.m23, b.m00, b.m10, b.m20, b.m30),
        m21: rat_dot4(a.m20, a.m21, a.m22, a.m23, b.m01, b.m11, b.m21, b.m31),
        m22: rat_dot4(a.m20, a.m21, a.m22, a.m23, b.m02, b.m12, b.m22, b.m32),
        m23: rat_dot4(a.m20, a.m21, a.m22, a.m23, b.m03, b.m13, b.m23, b.m33),
        m30: rat_dot4(a.m30, a.m31, a.m32, a.m33, b.m00, b.m10, b.m20, b.m30),
        m31: rat_dot4(a.m30, a.m31, a.m32, a.m33, b.m01, b.m11, b.m21, b.m31),
        m32: rat_dot4(a.m30, a.m31, a.m32, a.m33, b.m02, b.m12, b.m22, b.m32),
        m33: rat_dot4(a.m30, a.m31, a.m32, a.m33, b.m03, b.m13, b.m23, b.m33),
    }
}

pub open spec fn m4_mul_fits(a: M4, b: M4) -> bool {
    &&& rat_dot4_fits(a.m00, a.m01, a.m02, a.m03, b.m00, b.m10, b.m20, b.m30)
    &&& rat_dot4_fits(a.m00, a.m01, a.m02, a.m03, b.m01, b.m11, b.m21, b.m31)
    &&& rat_dot4_fits(a.m00, a.m01, a.m02, a.m03, b.m02, b.m12, b.m22, b.m32)
    &&& rat_dot4_fits(a.m00, a.m01, a.m02, a.m03, b.m03, b.m13, b.m23, b.m33)
    &&& rat_dot4_fits(a.m10, a.m11, a.m12, a.m13, b.m00, b.m10, b.m20, b.m30)
    &&& rat_dot4_fits(a.m10, a.m11, a.m12, a.m13, b.m01, b.m11, b.m21, b.m31)
    &&& rat_dot4_fits(a.m10, a.m11, a.m12, a.m13, b.m02, b.m12, b.m22, b.m32)
    &&& rat_dot4_fits(a.m10, a.m11, a.m12, a.m13, b.m03, b.m13, b.m23, b.m33)
    &&& rat_dot4_fits(a.m20, a.m21, a.m22, a.m23, b.m00, b.m10, b.m20, b.m30)
    &&& rat_dot4_fits(a.m20, a.m21, a.m22, a.m23, b.m01, b.m11, b.m21, b.m31)
    &&& rat_dot4_fits(a.m20, a.m21, a.m22, a.m23, b.m02, b.m12, b.m22, b.m32)
    &&& rat_dot4_fits(a.m20, a.m21, a.m22, a.m23, b.m03, b.m13, b.m23, b.m33)
    &&& rat_dot4_fits(a.m30, a.m31, a.m32, a.m33, b.m00, b.m10, b.m20, b.m30)
    &&& rat_dot4_fits(a.m30, a.m31, a.m32, a.m33, b.m01, b.m11, b.m21, b.m31)
    &&& rat_dot4_fits(a.m30, a.m31, a.m32, a.m33, b.m02, b.m12, b.m22, b.m32)
    &&& rat_dot4_fits(a.m30, a.m31, a.m32, a.m33, b.m03, b.m13, b.m23, b.m33)
}

/// A row-major 4x4 matrix of exact scalars.
#[derive(Clone, Copy, Debug)]
pub struct Mat4 {
    e00: Scalar,
    e01: Scalar,
    e02: Scalar,
    e03: Scalar,
    e10: Scalar,
    e11: Scalar,
    e12: Scalar,
    e13: Scalar,
    e20: Scalar,
    e21: Scalar,
    e22: Scalar,
    e23: Scalar,
    e30: Scalar,
    e31: Scalar,
    e32: Scalar,
    e33: Scalar,
}

impl View for Mat4 {
    type V = M4;

    closed spec fn view(&self) -> M4 {
        M4 {
            m00: self.e00@, m01: self.e01@, m02: self.e02@, m03: self.e03@,
            m10: self.e10@, m11: self.e11@, m12: self.e12@, m13: self.e13@,
            m20: self.e20@, m21: self.e21@, m22: self.e22@, m23: self.e23@,
            m30: self.e30@, m31: self.e31@, m32: self.e32@, m33: self.e33@,
        }
    }
}

impl Mat4 {
    /// Every entry has a positive denominator.
    pub open spec fn wf(self) -> bool {
        m4_wf(self@)
    }

    /// A matrix from its sixteen entries, row-major.
    pub fn new(
        m00: Scalar, m01: Scalar, m02: Scalar, m03: Scalar,
        m10: Scalar, m11: Scalar, m12: Scalar, m13: Scalar,
        m20: Scalar, m21: Scalar, m22: Scalar, m23: Scalar,
        m30: Scalar, m31: Scalar, m32: Scalar, m33: Scalar,
    ) -> (r: Mat4)
        ensures
            r@ == (M4 {
                m00: m00@, m01: m01@, m02: m02@, m03: m03@,
                m10: m10@, m11: m11@, m12: m12@, m13: m13@,
                m20: m20@, m21: m21@, m22: m22@, m23: m23@,
                m30: m30@, m31: m31@, m32: m32@, m33: m33@,
            }),
    {
        Mat4 {
            e00: m00, e01: m01, e02: m02, e03: m03,
            e10: m10, e11: m11, e12: m12, e13: m13,
            e20: m20, e21: m21, e22: m22, e23: m23,
            e30: m30, e31: m31, e32: m32, e33: m33,
        }
    }

    /// The all-zero matrix.
    pub fn zero() -> (r: Mat4)
        ensures
            r.wf(),
            r@ == m4_zero(),
    {
        let o = Scalar::from_int(0);
        Mat4 {
            e00: o, e01: o, e02: o, e03: o,
            e10: o, e11: o, e12: o, e13: o,
            e20: o, e21: o, e22: o, e23: o,
            e30: o, e31: o, e32: o, e33: o,
        }
    }

    /// The matrix product, with `self` as the left operand. It is not
    /// commutative.
    pub fn mul(self, other: Mat4) -> (r: Mat4)
        requires
            self.wf(),
            other.wf(),
            m4_mul_fits(self@, other@),
        ensures
            r.wf(),
            r@ == m4_mul(self@, other@),
    {
        Mat4 {
            e00: dot4(self.e00, self.e01, self.e02, self.e03,
                other.e00, other.e10, other.e20, other.e30),
            e01: dot4(self.e00, self.e01, self.e02, self.e03,
                other.e01, other.e11, other.e21, other.e31),
            e02: dot4(self.e00, self.e01, self.e02, self.e03,
                other.e02, other.e12, other.e22, other.e32),
            e03: dot4(self.e00, self.e01, self.e02, self.e03,
                other.e03, other.e13, other.e23, other.e33),
            e10: dot4(self.e10, self.e11, self.e12, self.e13,
                other.e00, other.e10, other.e20, other.e30),
            e11: dot4(self.e10, self.e11, self.e12, self.e13,
                other.e01, other.e11, other.e21, other.e31),
            e12: dot4(self.e10, self.e11, self.e12, self.e13,
                other.e02, other.e12, other.e22, other.e32),
            e13: dot4(self.e10, self.e11, self.e12, self.e13,
                other.e03, other.e13, other.e23, other.e33),
            e20: dot4(self.e20, self.e21, self.e22, self.e23,
                other.e00, other.e10, other.e20, other.e30),
            e21: dot4(self.e20, self.e21, self.e22, self.e23,
                other.e01, other.e11, other.e21, other.e31),
            e22: dot4(self.e20, self.e21, self.e22, self.e23,
                other.e02, other.e12, other.e22, other.e32),
            e23: dot4(self.e20, self.e21, self.e22, self.e23,
                other.e03, other.e13, other.e23, other.e33),
            e30: dot4(self.e30, self.e31, self.e32, self.e33,
                other.e00, other.e10, other.e20, other.e30),
            e31: dot4(self.e30, self.e31, self.e32, self.e33,
                other.e01, other.e11, other.e21, other.e31),
            e32: dot4(self.e30, self.e31, self.e32, self.e33,
                other.e02, other.e12, other.e22, other.e32),
            e33: dot4(self.e30, self.e31, self.e32, self.e33,
                other.e03, other.e13, other.e23, other.e33),
        }
    }

    pub fn m00(&self) -> (r: Scalar)
        ensures
            r@ == self@.m00,
    {
        self.e00
    }

    pub fn m01(&self) -> (r: Scalar)
        ensures
            r@ == self@.m01,
    {
        self.e01
    }

    pub fn m02(&self) -> (r: Scalar)
        ensures
            r@ == self@.m02,
    {
        self.e02
    }

    pub fn m03(&self) -> (r: Scalar)
        ensures
            r@ == self@.m03,
    {
        self.e03
    }

    pub fn m10(&self) -> (r: Scalar)
        ensures
            r@ == self@.m10,
    {
        self.e10
    }

    pub fn m11(&self) -> (r: Scalar)
        ensures
            r@ == self@.m11,
    {
        self.e11
    }

    pub fn m12(&self) -> (r: Scalar)
        ensures
            r@ == self@.m12,
    {
        self.e12
    }

    pub fn m13(&self) -> (r: Scalar)
        ensures
            r@ == self@.m13,
    {
        self.e13
    }

    pub fn m20(&self) -> (r: Scalar)
        ensures
            r@ == self@.m20,
    {
        self.e20
    }

    pub fn m21(&self) -> (r: Scalar)
        ensures
            r@ == self@.m21,
    {
        self.e21
    }

    pub fn m22(&self) -> (r: Scalar)
        ensures
            r@ == self@.m22,
    {
        self.e22
    }

    pub fn m23(&self) -> (r: Scalar)
        ensures
            r@ == self@.m23,
    {
        self.e23
    }

    pub fn m30(&self) -> (r: Scalar)
        ensures
            r@ == self@.m30,
    {
        self.e30
    }

    pub fn m31(&self) -> (r: Scalar)
        ensures
            r@ == self@.m31,
    {
        self.e31
    }

    pub fn m32(&self) -> (r: Scalar)
        ensures
            r@ == self@.m32,
    {
        self.e32
    }

    pub fn m33(&self) -> (r: Scalar)
        ensures
            r@ == self@.m33,
    {
        self.e33
    }
}

} // verus!

//! Row-major 3x3 matrices over exact scalars.

use vstd::prelude::*;

use crate::scalar::{
    Rat, Scalar, rat_add, rat_dot3, rat_dot3_fits, rat_fits, rat_int, rat_mul, rat_sub, rat_wf,
    dot3,
};
use crate::quaternion::{Q4, Quat};
use crate::vector::{V3, Vec3};

verus! {

/// Mathematical model of a 3x3 matrix: nine rational entries, row-major.
pub ghost struct M3 {
    pub m00: Rat,
    pub m01: Rat,
    pub m02: Rat,
    pub m10: Rat,
    pub m11: Rat,
    pub m12: Rat,
    pub m20: Rat,
    pub m21: Rat,
    pub m22: Rat,
}

/// Every entry has a positive denominator.
pub open spec fn m3_wf(m: M3) -> bool {
    &&& rat_wf(m.m00) && rat_wf(m.m01) && rat_wf(m.m02)
    &&& rat_wf(m.m10) && rat_wf(m.m11) && rat_wf(m.m12)
    &&& rat_wf(m.m20) && rat_wf(m.m21) && rat_wf(m.m22)
}

pub open spec fn m3_zero() -> M3 {
    M3 {
        m00: rat_int(0), m01: rat_int(0), m02: rat_int(0),
        m10: rat_int(0), m11: rat_int(0), m12: rat_int(0),
        m20: rat_int(0), m21: rat_int(0), m22: rat_int(0),
    }
}

/// The matrix product `a * b`: entry `(i, j)` is the dot product of row `i`
/// of `a` with column `j` of `b`.
pub open spec fn m3_mul(a: M3, b: M3) -> M3 {
    M3 {
        m00: rat_dot3(a.m00, a.m01, a.m02, b.m00, b.m10, b.m20),
        m01: rat_dot3(a.m00, a.m01, a.m02, b.m01, b.m11, b.m21),
        m02: rat_dot3(a.m00, a.m01, a.m02, b.m02, b.m12, b.m22),
        m10: rat_dot3(a.m10, a.m11, a.m12, b.m00, b.m10, b.m20),
        m11: rat_dot3(a.m10, a.m11, a.m12, b.m01, b.m11, b.m21),
        m12: rat_dot3(a.m10, a.m11, a.m12, b.m02, b.m12, b.m22),
        m20: rat_dot3(a.m20, a.m21, a.m22, b.m00, b.m10, b.m20),
        m21: rat_dot3(a.m20, a.m21, a.m22, b.m01, b.m11, b.m21),
        m22: rat_dot3(a.m20, a.m21, a.m22, b.m02, b.m12, b.m22),
    }
}

pub open spec fn m3_mul_fits(a: M3, b: M3) -> bool {
    &&& rat_dot3_fits(a.m00, a.m01, a.m02, b.m00, b.m10, b.m20)
    &&& rat_dot3_fits(a.m00, a.m01, a.m02, b.m01, b.m11, b.m21)
    &&& rat_dot3_fits(a.m00, a.m01, a.m02, b.m02, b.m12, b.m22)
    &&& rat_dot3_fits(a.m10, a.m11, a.m12, b.m00, b.m10, b.m20)
    &&& rat_dot3_fits(a.m10, a.m11, a.m12, b.m01, b.m11, b.m21)
    &&& rat_dot3_fits(a.m10, a.m11, a.m12, b.m02, b.m12, b.m22)
    &&& rat_dot3_fits(a.m20, a.m21, a.m22, b.m00, b.m10, b.m20)
    &&& rat_dot3_fits(a.m20, a.m21, a.m22, b.m01, b.m11, b.m21)
    &&& rat_dot3_fits(a.m20, a.m21, a.m22, b.m02, b.m12, b.m22)
}

/// The rotation matrix of a quaternion, assumed unit length: the entries as
/// computed term for term.
pub open spec fn m3_from_q(q: Q4) -> M3 {
    let ww = rat_mul(q.w, q.w);
    let xx = rat_mul(q.x, q.x);
    let yy = rat_mul(q.y, q.y);
    let zz = rat_mul(q.z, q.z);
    let xy = rat_mul(q.x, q.y);
    let wz = rat_mul(q.w, q.z);
    let xz = rat_mul(q.x, q.z);
    let wy = rat_mul(q.w, q.y);
    let yz = rat_mul(q.y, q.z);
    let wx = rat_mul(q.w, q.x);
    M3 {
        m00: rat_sub(rat_sub(rat_add(ww, xx), yy), zz),
        m01: rat_mul(rat_int(2), rat_sub(xy, wz)),
        m02: rat_mul(rat_int(2), rat_add(xz, wy)),
        m10: rat_mul(rat_int(2), rat_add(xy, wz)),
        m11: rat_sub(rat_add(rat_sub(ww, xx), yy), zz),
        m12: rat_mul(rat_int(2), rat_sub(yz, wx)),
        m20: rat_mul(rat_int(2), rat_sub(xz, wy)),
        m21: rat_mul(rat_int(2), rat_add(yz, wx)),
        m22: rat_add(rat_sub(rat_sub(ww, xx), yy), zz),
    }
}

pub open spec fn m3_from_q_fits(q: Q4) -> bool {
    let ww = rat_mul(q.w, q.w);
    let xx = rat_mul(q.x, q.x);
    let yy = rat_mul(q.y, q.y);
    let zz = rat_mul(q.z, q.z);
    let xy = rat_mul(q.x, q.y);
    let wz = rat_mul(q.w, q.z);
    let xz = rat_mul(q.x, q.z);
    let wy = rat_mul(q.w, q.y);
    let yz = rat_mul(q.y, q.z);
    let wx = rat_mul(q.w, q.x);
    &&& rat_fits(ww) && rat_fits(xx) && rat_fits(yy) && rat_fits(zz)
    &&& rat_fits(xy) && rat_fits(wz) && rat_fits(xz) && rat_fits(wy)
    &&& rat_fits(yz) && rat_fits(wx)
    &&& rat_fits(rat_add(ww, xx))
    &&& rat_fits(rat_sub(rat_add(ww, xx), yy))
    &&& rat_fits(rat_sub(rat_sub(rat_add(ww, xx), yy), zz))
    &&& rat_fits(rat_sub(ww, xx))
    &&& rat_fits(rat_add(rat_sub(ww, xx), yy))
    &&& rat_fits(rat_sub(rat_add(rat_sub(ww, xx), yy), zz))
    &&& rat_fits(rat_sub(rat_sub(ww, xx), yy))
    &&& rat_fits(rat_add(rat_sub(rat_sub(ww, xx), yy), zz))
    &&& rat_fits(rat_sub(xy, wz)) && rat_fits(rat_mul(rat_int(2), rat_sub(xy, wz)))
    &&& rat_fits(rat_add(xz, wy)) && rat_fits(rat_mul(rat_int(2), rat_add(xz, wy)))
    &&& rat_fits(rat_add(xy, wz)) && rat_fits(rat_mul(rat_int(2), rat_add(xy, wz)))
    &&& rat_fits(rat_sub(yz, wx)) && rat_fits(rat_mul(rat_int(2), rat_sub(yz, wx)))
    &&& rat_fits(rat_sub(xz, wy)) && rat_fits(rat_mul(rat_int(2), rat_sub(xz, wy)))
    &&& rat_fits(rat_add(yz, wx)) && rat_fits(rat_mul(rat_int(2), rat_add(yz, wx)))
}

/// Rodrigues' rotation matrix, given the cosine and sine of the angle and
/// the axis, entry for entry as it is computed. For a proper rotation the
/// axis must be unit length and `c` and `s` must come from one angle; the
/// construction itself is total.
pub open spec fn m3_rodrigues(c: Rat, s: Rat, a: V3) -> M3 {
    let t = rat_sub(rat_int(1), c);
    let tx = rat_mul(t, a.x);
    let ty = rat_mul(t, a.y);
    M3 {
        m00: rat_add(c, rat_mul(t, rat_mul(a.x, a.x))),
        m01: rat_sub(rat_mul(tx, a.y), rat_mul(s, a.z)),
        m02: rat_add(rat_mul(tx, a.z), rat_mul(s, a.y)),
        m10: rat_add(rat_mul(tx, a.y), rat_mul(s, a.z)),
        m11: rat_add(c, rat_mul(t, rat_mul(a.y, a.y))),
        m12: rat_sub(rat_mul(ty, a.z), rat_mul(s, a.x)),
        m20: rat_sub(rat_mul(tx, a.z), rat_mul(s, a.y)),
        m21: rat_add(rat_mul(ty, a.z), rat_mul(s, a.x)),
        m22: rat_add(c, rat_mul(t, rat_mul(a.z, a.z))),
    }
}

pub open spec fn m3_rodrigues_fits(c: Rat, s: Rat, a: V3) -> bool {
    let t = rat_sub(rat_int(1), c);
    let xx = rat_mul(a.x, a.x);
    let yy = rat_mul(a.y, a.y);
    let zz = rat_mul(a.z, a.z);
    let tx = rat_mul(t, a.x);
    let ty = rat_mul(t, a.y);
    let txy = rat_mul(tx, a.y);
    let txz = rat_mul(tx, a.z);
    let tyz = rat_mul(ty, a.z);
    let sx = rat_mul(s, a.x);
    let sy = rat_mul(s, a.y);
    let sz = rat_mul(s, a.z);
    &&& rat_fits(t)
    &&& rat_fits(xx) && rat_fits(yy) && rat_fits(zz)
    &&& rat_fits(tx) && rat_fits(ty)
    &&& rat_fits(rat_mul(t, xx)) && rat_fits(rat_mul(t, yy)) && rat_fits(rat_mul(t, zz))
    &&& rat_fits(txy) && rat_fits(txz) && rat_fits(tyz)
    &&& rat_fits(sx) && rat_fits(sy) && rat_fits(sz)
    &&& rat_fits(rat_add(c, rat_mul(t, xx)))
    &&& rat_fits(rat_add(c, rat_mul(t, yy)))
    &&& rat_fits(rat_add(c, rat_mul(t, zz)))
    &&& rat_fits(rat_sub(txy, sz)) && rat_fits(rat_add(txy, sz))
    &&& rat_fits(rat_add(txz, sy)) && rat_fits(rat_sub(txz, sy))
    &&& rat_fits(rat_sub(tyz, sx)) && rat_fits(rat_add(tyz, sx))
}

/// A row-major 3x3 matrix of exact scalars.
#[derive(Clone, Copy, Debug)]
pub struct Mat3 {
    e00: Scalar,
    e01: Scalar,
    e02: Scalar,
    e10: Scalar,
    e11: Scalar,
    e12: Scalar,
    e20: Scalar,
    e21: Scalar,
    e22: Scalar,
}

impl View for Mat3 {
    type V = M3;

    closed spec fn view(&self) -> M3 {
        M3 {
            m00: self.e00@, m01: self.e01@, m02: self.e02@,
            m10: self.e10@, m11: self.e11@, m12: self.e12@,
            m20: self.e20@, m21: self.e21@, m22: self.e22@,
        }
    }
}

impl Mat3 {
    /// Every entry has a positive denominator.
    pub open spec fn wf(self) -> bool {
        m3_wf(self@)
    }

    /// A matrix from its nine entries, row-major.
    pub fn new(
        m00: Scalar, m01: Scalar, m02: Scalar,
        m10: Scalar, m11: Scalar, m12: Scalar,
        m20: Scalar, m21: Scalar, m22: Scalar,
    ) -> (r: Mat3)
        ensures
            r@ == (M3 {
                m00: m00@, m01: m01@, m02: m02@,
                m10: m10@, m11: m11@, m12: m12@,
                m20: m20@, m21: m21@, m22: m22@,
            }),
    {
        Mat3 {
            e00: m00, e01: m01, e02: m02,
            e10: m10, e11: m11, e12: m12,
            e20: m20, e21: m21, e22: m22,
        }
    }

    /// The all-zero matrix.
    pub fn zero() -> (r: Mat3)
        ensures
            r.wf(),
            r@ == m3_zero(),
    {
        let o = Scalar::from_int(0);
        Mat3 { e00: o, e01: o, e02: o, e10: o, e11: o, e12: o, e20: o, e21: o, e22: o }
    }

    /// The matrix product, with `self` as the left operand. It is not
    /// commutative.
    pub fn mul(self, other: Mat3) -> (r: Mat3)
        requires
            self.wf(),
            other.wf(),
            m3_mul_fits(self@, other@),
        ensures
            r.wf(),
            r@ == m3_mul(self@, other@),
    {
        Mat3 {
            e00: dot3(self.e00, self.e01, self.e02, other.e00, other.e10, other.e20),
            e01: dot3(self.e00, self.e01, self.e02, other.e01, other.e11, other.e21),
            e02: dot3(self.e00, self.e01, self.e02, other.e02, other.e12, other.e22),
            e10: dot3(self.e10, self.e11, self.e12, other.e00, other.e10, other.e20),
            e11: dot3(self.e10, self.e11, self.e12, other.e01, other.e11, other.e21),
            e12: dot3(self.e10, self.e11, self.e12, other.e02, other.e12, other.e22),
            e20: dot3(self.e20, self.e21, self.e22, other.e00, other.e10, other.e20),
            e21: dot3(self.e20, self.e21, self.e22, other.e01, other.e11, other.e21),
            e22: dot3(self.e20, self.e21, self.e22, other.e02, other.e12, other.e22),
        }
    }

    /// The rotation matrix of a quaternion, which is taken to be unit
    /// length; a non-unit quaternion gives a scaled matrix.
    pub fn from_quat(q: Quat) -> (r: Mat3)
        requires
            q.wf(),
            m3_from_q_fits(q@),
        ensures
            r.wf(),
            r@ == m3_from_q(q@),
    {
        let w = q.w();
        let x = q.x();
        let y = q.y();
        let z = q.z();
        let two = Scalar::from_int(2);
        let ww = w.mul(w);
        let xx = x.mul(x);
        let yy = y.mul(y);
        let zz = z.mul(z);
        Mat3 {
            e00: ww.add(xx).sub(yy).sub(zz),
            e01: two.mul(x.mul(y).sub(w.mul(z))),
            e02: two.mul(x.mul(z).add(w.mul(y))),
            e10: two.mul(x.mul(y).add(w.mul(z))),
            e11: ww.sub(xx).add(yy).sub(zz),
            e12: two.mul(y.mul(z).sub(w.mul(x))),
            e20: two.mul(x.mul(z).sub(w.mul(y))),
            e21: two.mul(y.mul(z).add(w.mul(x))),
            e22: ww.sub(xx).sub(yy).add(zz),
        }
    }

    /// Rodrigues' formula from the cosine and sine of the angle and an axis
    /// taken as already unit length.
    pub fn new_from_cos_sin_axis(c: Scalar, s: Scalar, axis: Vec3) -> (r: Mat3)
        requires
            c.wf(),
            s.wf(),
            axis.wf(),
            m3_rodrigues_fits(c@, s@, axis@),
        ensures
            r.wf(),
            r@ == m3_rodrigues(c@, s@, axis@),
    {
        let x = axis.x();
        let y = axis.y();
        let z = axis.z();
        let t = Scalar::from_int(1).sub(c);
        let tx = t.mul(x);
        let ty = t.mul(y);
        Mat3 {
            e00: c.add(t.mul(x.mul(x))),
            e01: tx.mul(y).sub(s.mul(z)),
            e02: tx.mul(z).add(s.mul(y)),
            e10: tx.mul(y).add(s.mul(z)),
            e11: c.add(t.mul(y.mul(y))),
            e12: ty.mul(z).sub(s.mul(x)),
            e20: tx.mul(z).sub(s.mul(y)),
            e21: ty.mul(z).add(s.mul(x)),
            e22: c.add(t.mul(z.mul(z))),
        }
    }

    pub fn m00(&self) -> (r: Scalar)
        ensures
            r@ == self@.m00,
    {
        self.e00
    }

    pub fn m01(&self) -> (r: Scalar)
        ensures
            r@ == self@.m01,
    {
        self.e01
    }

    pub fn m02(&self) -> (r: Scalar)
        ensures
            r@ == self@.m02,
    {
        self.e02
    }

    pub fn m10(&self) -> (r: Scalar)
        ensures
            r@ == self@.m10,
    {
        self.e10
    }

    pub fn m11(&self) -> (r: Scalar)
        ensures
            r@ == self@.m11,
    {
        self.e11
    }

    pub fn m12(&self) -> (r: Scalar)
        ensures
            r@ == self@.m12,
    {
        self.e12
    }

    pub fn m20(&self) -> (r: Scalar)
        ensures
            r@ == self@.m20,
    {
        self.e20
    }

    pub fn m21(&self) -> (r: Scalar)
        ensures
            r@ == self@.m21,
    {
        self.e21
    }

    pub fn m22(&self) -> (r: Scalar)
        ensures
            r@ == self@.m22,
    {
        self.e22
    }
}

} // verus!

//! Quaternions over exact scalars.

use vstd::prelude::*;

use crate::scalar::{
    Rat, Scalar, rat_add, rat_eq, rat_fits, rat_int, rat_mul, rat_neg, rat_sub, rat_wf,
    lemma_rat_add_comm, lemma_rat_mul_comm, lemma_rat_mul_neg_left, lemma_rat_mul_neg_neg,
    lemma_rat_mul_neg_right, lemma_rat_neg_add, lemma_rat_neg_sub, lemma_rat_sub_swap,
};
use crate::vector::{V3, Vec3, v3_from_q};

verus! {

/// Mathematical model of a quaternion: scalar part `w`, vector part
/// `(x, y, z)`, all rational.
pub ghost struct Q4 {
    pub w: Rat,
    pub x: Rat,
    pub y: Rat,
    pub z: Rat,
}

/// Every component has a positive denominator.
pub open spec fn q_wf(q: Q4) -> bool {
    rat_wf(q.w) && rat_wf(q.x) && rat_wf(q.y) && rat_wf(q.z)
}

/// Component-wise value equality.
pub open spec fn q_eq(a: Q4, b: Q4) -> bool {
    rat_eq(a.w, b.w) && rat_eq(a.x, b.x) && rat_eq(a.y, b.y) && rat_eq(a.z, b.z)
}

pub open spec fn q_add(a: Q4, b: Q4) -> Q4 {
    Q4 {
        w: rat_add(a.w, b.w),
        x: rat_add(a.x, b.x),
        y: rat_add(a.y, b.y),
        z: rat_add(a.z, b.z),
    }
}

pub open spec fn q_add_fits(a: Q4, b: Q4) -> bool {
    &&& rat_fits(rat_add(a.w, b.w))
    &&& rat_fits(rat_add(a.x, b.x))
    &&& rat_fits(rat_add(a.y, b.y))
    &&& rat_fits(rat_add(a.z, b.z))
}

/// The Hamilton product, term for term as it is computed.
pub open spec fn q_mul(a: Q4, b: Q4) -> Q4 {
    Q4 {
        w: rat_sub(
            rat_sub(rat_sub(rat_mul(a.w, b.w), rat_mul(a.x, b.x)), rat_mul(a.y, b.y)),
            rat_mul(a.z, b.z),
        ),
        x: rat_sub(
            rat_add(rat_add(rat_mul(a.w, b.x), rat_mul(a.x, b.w)), rat_mul(a.y, b.z)),
            rat_mul(a.z, b.y),
        ),
        y: rat_sub(
            rat_add(rat_add(rat_mul(a.w, b.y), rat_mul(a.y, b.w)), rat_mul(a.z, b.x)),
            rat_mul(a.x, b.z),
        ),
        z: rat_sub(
            rat_add(rat_add(rat_mul(a.w, b.z), rat_mul(a.z, b.w)), rat_mul(a.x, b.y)),
            rat_mul(a.y, b.x),
        ),
    }
}

pub open spec fn q_mul_fits(a: Q4, b: Q4) -> bool {
    let ww = rat_mul(a.w, b.w);
    let xx = rat_mul(a.x, b.x);
    let yy = rat_mul(a.y, b.y);
    let zz = rat_mul(a.z, b.z);
    let wx = rat_mul(a.w, b.x);
    let xw = rat_mul(a.x, b.w);
    let yz = rat_mul(a.y, b.z);
    let zy = rat_mul(a.z, b.y);
    let wy = rat_mul(a.w, b.y);
    let yw = rat_mul(a.y, b.w);
    let zx = rat_mul(a.z, b.x);
    let xz = rat_mul(a.x, b.z);
    let wz = rat_mul(a.w, b.z);
    let zw = rat_mul(a.z, b.w);
    let xy = rat_mul(a.x, b.y);
    let yx = rat_mul(a.y, b.x);
    &&& rat_fits(ww) && rat_fits(xx) && rat_fits(yy) && rat_fits(zz)
    &&& rat_fits(rat_sub(ww, xx))
    &&& rat_fits(rat_sub(rat_sub(ww, xx), yy))
    &&& rat_fits(rat_sub(rat_sub(rat_sub(ww, xx), yy), zz))
    &&& rat_fits(wx) && rat_fits(xw) && rat_fits(yz) && rat_fits(zy)
    &&& rat_fits(rat_add(wx, xw))
    &&& rat_fits(rat_add(rat_add(wx, xw), yz))
    &&& rat_fits(rat_sub(rat_add(rat_add(wx, xw), yz), zy))
    &&& rat_fits(wy) && rat_fits(yw) && rat_fits(zx) && rat_fits(xz)
    &&& rat_fits(rat_add(wy, yw))
    &&& rat_fits(rat_add(rat_add(wy, yw), zx))
    &&& rat_fits(rat_sub(rat_add(rat_add(wy, yw), zx), xz))
    &&& rat_fits(wz) && rat_fits(zw) && rat_fits(xy) && rat_fits(yx)
    &&& rat_fits(rat_add(wz, zw))
    &&& rat_fits(rat_add(rat_add(wz, zw), xy))
    &&& rat_fits(rat_sub(rat_add(rat_add(wz, zw), xy), yx))
}

pub open spec fn q_scale(a: Q4, s: Rat) -> Q4 {
    Q4 {
        w: rat_mul(a.w, s),
        x: rat_mul(a.x, s),
        y: rat_mul(a.y, s),
        z: rat_mul(a.z, s),
    }
}

pub open spec fn q_scale_fits(a: Q4, s: Rat) -> bool {
    &&& rat_fits(rat_mul(a.w, s))
    &&& rat_fits(rat_mul(a.x, s))
    &&& rat_fits(rat_mul(a.y, s))
    &&& rat_fits(rat_mul(a.z, s))
}

/// The conjugate: the vector part negated, the scalar part kept.
pub open spec fn q_conj(a: Q4) -> Q4 {
    Q4 { w: a.w, x: rat_neg(a.x), y: rat_neg(a.y), z: rat_neg(a.z) }
}

pub open spec fn q_conj_fits(a: Q4) -> bool {
    rat_fits(rat_neg(a.x)) && rat_fits(rat_neg(a.y)) && rat_fits(rat_neg(a.z))
}

/// A vector as a pure quaternion: zero scalar part.
pub open spec fn q_from_v3(v: V3) -> Q4 {
    Q4 { w: rat_int(0), x: v.x, y: v.y, z: v.z }
}

/// Rotation of a vector by a quaternion: the vector part of
/// `q * (0, v) * conjugate(q)`.
pub open spec fn q_rot(q: Q4, v: V3) -> V3 {
    v3_from_q(q_mul(q_mul(q, q_from_v3(v)), q_conj(q)))
}

pub open spec fn q_rot_fits(q: Q4, v: V3) -> bool {
    &&& q_conj_fits(q)
    &&& q_mul_fits(q, q_from_v3(v))
    &&& q_mul_fits(q_mul(q, q_from_v3(v)), q_conj(q))
}

/// Conjugating twice gives the quaternion back.
pub proof fn lemma_conjugate_involution(q: Q4)
    ensures
        q_conj(q_conj(q)) == q,
{
}

/// Conjugation reverses the Hamilton product: the conjugate of `a * b` is
/// `conjugate(b) * conjugate(a)`. The product itself is not commutative;
/// this is the anti-automorphism law that takes its place.
pub proof fn lemma_conjugate_reverses_mul(a: Q4, b: Q4)
    ensures
        q_conj(q_mul(a, b)) == q_mul(q_conj(b), q_conj(a)),
{
    let cb = q_conj(b);
    let ca = q_conj(a);

    // Scalar component: every product of two negated factors drops both signs.
    lemma_rat_mul_comm(b.w, a.w);
    lemma_rat_mul_neg_neg(b.x, a.x);
    lemma_rat_mul_comm(b.x, a.x);
    lemma_rat_mul_neg_neg(b.y, a.y);
    lemma_rat_mul_comm(b.y, a.y);
    lemma_rat_mul_neg_neg(b.z, a.z);
    lemma_rat_mul_comm(b.z, a.z);
    assert(q_mul(cb, ca).w == q_mul(a, b).w);

    // First vector component.
    let t1 = rat_mul(a.w, b.x);
    let t2 = rat_mul(a.x, b.w);
    let t3 = rat_mul(a.y, b.z);
    let t4 = rat_mul(a.z, b.y);
    lemma_rat_mul_neg_right(b.w, a.x);
    lemma_rat_mul_comm(b.w, a.x);
    assert(rat_mul(cb.w, ca.x) == rat_neg(t2));
    lemma_rat_mul_neg_left(b.x, a.w);
    lemma_rat_mul_comm(b.x, a.w);
    assert(rat_mul(cb.x, ca.w) == rat_neg(t1));
    lemma_rat_mul_neg_neg(b.y, a.z);
    lemma_rat_mul_comm(b.y, a.z);
    assert(rat_mul(cb.y, ca.z) == t4);
    lemma_rat_mul_neg_neg(b.z, a.y);
    lemma_rat_mul_comm(b.z, a.y);
    assert(rat_mul(cb.z, ca.y) == t3);
    lemma_rat_add_comm(rat_neg(t2), rat_neg(t1));
    lemma_rat_sub_swap(rat_add(rat_neg(t1), rat_neg(t2)), t3, t4);
    lemma_rat_neg_sub(rat_add(rat_add(t1, t2), t3), t4);
    lemma_rat_neg_add(rat_add(t1, t2), t3);
    lemma_rat_neg_add(t1, t2);
    assert(q_mul(cb, ca).x == rat_neg(q_mul(a, b).x));

    // Second vector component.
    let u1 = rat_mul(a.w, b.y);
    let u2 = rat_mul(a.y, b.w);
    let u3 = rat_mul(a.z, b.x);
    let u4 = rat_mul(a.x, b.z);
    lemma_rat_mul_neg_right(b.w, a.y);
    lemma_rat_mul_comm(b.w, a.y);
    assert(rat_mul(cb.w, ca.y) == rat_neg(u2));
    lemma_rat_mul_neg_left(b.y, a.w);
    lemma_rat_mul_comm(b.y, a.w);
    assert(rat_mul(cb.y, ca.w) == rat_neg(u1));
    lemma_rat_mul_neg_neg(b.z, a.x);
    lemma_rat_mul_comm(b.z, a.x);
    assert(rat_mul(cb.z, ca.x) == u4);
    lemma_rat_mul_neg_neg(b.x, a.z);
    lemma_rat_mul_comm(b.x, a.z);
    assert(rat_mul(cb.x, ca.z) == u3);
    lemma_rat_add_comm(rat_neg(u2), rat_neg(u1));
    lemma_rat_sub_swap(rat_add(rat_neg(u1), rat_neg(u2)), u3, u4);
    lemma_rat_neg_sub(rat_add(rat_add(u1, u2), u3), u4);
    lemma_rat_neg_add(rat_add(u1, u2), u3);
    lemma_rat_neg_add(u1, u2);
    assert(q_mul(cb, ca).y == rat_neg(q_mul(a, b).y));

    // Third vector component.
    let p1 = rat_mul(a.w, b.z);
    let p2 = rat_mul(a.z, b.w);
    let p3 = rat_mul(a.x, b.y);
    let p4 = rat_mul(a.y, b.x);
    lemma_rat_mul_neg_right(b.w, a.z);
    lemma_rat_mul_comm(b.w, a.z);
    assert(rat_mul(cb.w, ca.z) == rat_neg(p2));
    lemma_rat_mul_neg_left(b.z, a.w);
    lemma_rat_mul_comm(b.z, a.w);
    assert(rat_mul(cb.z, ca.w) == rat_neg(p1));
    lemma_rat_mul_neg_neg(b.x, a.y);
    lemma_rat_mul_comm(b.x, a.y);
    assert(rat_mul(cb.x, ca.y) == p4);
    lemma_rat_mul_neg_neg(b.y, a.x);
    lemma_rat_mul_comm(b.y, a.x);
    assert(rat_mul(cb.y, ca.x) == p3);
    lemma_rat_add_comm(rat_neg(p2), rat_neg(p1));
    lemma_rat_sub_swap(rat_add(rat_neg(p1), rat_neg(p2)), p3, p4);
    lemma_rat_neg_sub(rat_add(rat_add(p1, p2), p3), p4);
    lemma_rat_neg_add(rat_add(p1, p2), p3);
    lemma_rat_neg_add(p1, p2);
    assert(q_mul(cb, ca).z == rat_neg(q_mul(a, b).z));
}

/// A quaternion of exact scalars.
#[derive(Clone, Copy, Debug)]
pub struct Quat {
    w: Scalar,
    x: Scalar,
    y: Scalar,
    z: Scalar,
}

impl View for Quat {
    type V = Q4;

    closed spec fn view(&self) -> Q4 {
        Q4 { w: self.w@, x: self.x@, y: self.y@, z: self.z@ }
    }
}

impl PartialEq for Quat {
    fn eq(&self, other: &Quat) -> (r: bool) {
        self.w == other.w && self.x == other.x && self.y == other.y && self.z == other.z
    }
}

impl vstd::std_specs::cmp::PartialEqSpecImpl for Quat {
    open spec fn obeys_eq_spec() -> bool {
        true
    }

    open spec fn eq_spec(&self, other: &Quat) -> bool {
        q_eq(self@, other@)
    }
}

impl Quat {
    /// Every component has a positive denominator.
    pub open spec fn wf(self) -> bool {
        q_wf(self@)
    }

    pub fn new(w: Scalar, x: Scalar, y: Scalar, z: Scalar) -> (r: Quat)
        ensures
            r@ == (Q4 { w: w@, x: x@, y: y@, z: z@ }),
    {
        Quat { w, x, y, z }
    }

    pub fn zero() -> (r: Quat)
        ensures
            r.wf(),
            r@ == (Q4 { w: rat_int(0), x: rat_int(0), y: rat_int(0), z: rat_int(0) }),
    {
        Quat {
            w: Scalar::from_int(0),
            x: Scalar::from_int(0),
            y: Scalar::from_int(0),
            z: Scalar::from_int(0),
        }
    }

    /// A quaternion from a scalar part and a vector part.
    pub fn new_from_vec(w: Scalar, v: Vec3) -> (r: Quat)
        ensures
            r@ == (Q4 { w: w@, x: v@.x, y: v@.y, z: v@.z }),
    {
        Quat { w, x: v.x(), y: v.y(), z: v.z() }
    }

    /// A pure quaternion: zero scalar part, the vector as its vector part.
    pub fn from_vec3(v: Vec3) -> (r: Quat)
        ensures
            r@ == q_from_v3(v@),
    {
        Quat { w: Scalar::from_int(0), x: v.x(), y: v.y(), z: v.z() }
    }

    pub fn w(&self) -> (r: Scalar)
        ensures
            r@ == self@.w,
    {
        self.w
    }

    pub fn x(&self) -> (r: Scalar)
        ensures
            r@ == self@.x,
    {
        self.x
    }

    pub fn y(&self) -> (r: Scalar)
        ensures
            r@ == self@.y,
    {
        self.y
    }

    pub fn z(&self) -> (r: Scalar)
        ensures
            r@ == self@.z,
    {
        self.z
    }

    /// Component-wise sum.
    pub fn add(self, other: Quat) -> (r: Quat)
        requires
            self.wf(),
            other.wf(),
            q_add_fits(self@, other@),
        ensures
            r.wf(),
            r@ == q_add(self@, other@),
    {
        Quat {
            w: self.w.add(other.w),
            x: self.x.add(other.x),
            y: self.y.add(other.y),
            z: self.z.add(other.z),
        }
    }

    /// The Hamilton product. It is not commutative; conjugation reverses it
    /// (see `lemma_conjugate_reverses_mul`).
    pub fn mul(self, other: Quat) -> (r: Quat)
        requires
            self.wf(),
            other.wf(),
            q_mul_fits(self@, other@),
        ensures
            r.wf(),
            r@ == q_mul(self@, other@),
    {
        Quat {
            w: self.w.mul(other.w)
                .sub(self.x.mul(other.x))
                .sub(self.y.mul(other.y))
                .sub(self.z.mul(other.z)),
            x: self.w.mul(other.x)
                .add(self.x.mul(other.w))
                .add(self.y.mul(other.z))
                .sub(self.z.mul(other.y)),
            y: self.w.mul(other.y)
                .add(self.y.mul(other.w))
                .add(self.z.mul(other.x))
                .sub(self.x.mul(other.z)),
            z: self.w.mul(other.z)
                .add(self.z.mul(other.w))
                .add(self.x.mul(other.y))
                .sub(self.y.mul(other.x)),
        }
    }

    /// All four components scaled by `s`.
    pub fn scalar_mul(&self, s: Scalar) -> (r: Quat)
        requires
            self.wf(),
            s.wf(),
            q_scale_fits(self@, s@),
        ensures
            r.wf(),
            r@ == q_scale(self@, s@),
    {
        Quat { w: self.w.mul(s), x: self.x.mul(s), y: self.y.mul(s), z: self.z.mul(s) }
    }

    /// The conjugate: vector part negated.
    pub fn conjugate(&self) -> (r: Quat)
        requires
            self.wf(),
            q_conj_fits(self@),
        ensures
            r.wf(),
            r@ == q_conj(self@),
    {
        Quat { w: self.w, x: self.x.neg(), y: self.y.neg(), z: self.z.neg() }
    }

    /// The vector carried by this quaternion: the vector part of
    /// `self * (0, v) * conjugate(self)`. For a unit quaternion this is a
    /// rotation; a non-unit quaternion scales the result as well.
    pub fn rotate_vec3(self, v: Vec3) -> (r: Vec3)
        requires
            self.wf(),
            v.wf(),
            q_rot_fits(self@, v@),
        ensures
            r.wf(),
            r@ == q_rot(self@, v@),
    {
        Vec3::from_quat(self.mul(Quat::from_vec3(v)).mul(self.conjugate()))
    }
}

} // verus!

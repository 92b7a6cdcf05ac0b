//! Three-component vectors over exact scalars.

use vstd::prelude::*;

use crate::scalar::{
    Rat, Scalar, rat_add, rat_div, rat_dot3, rat_dot3_fits, rat_eq, rat_fits, rat_int, rat_mul,
    rat_neg, rat_sub, rat_wf, lemma_rat_mul_comm, lemma_rat_sub_antisym, dot3,
};
use crate::matrix3::{M3, Mat3};
use crate::quaternion::{Q4, Quat};

verus! {

/// Mathematical model of a vector: three rational components.
pub ghost struct V3 {
    pub x: Rat,
    pub y: Rat,
    pub z: Rat,
}

/// Every component has a positive denominator.
pub open spec fn v3_wf(v: V3) -> bool {
    rat_wf(v.x) && rat_wf(v.y) && rat_wf(v.z)
}

/// Component-wise value equality.
pub open spec fn v3_eq(a: V3, b: V3) -> bool {
    rat_eq(a.x, b.x) && rat_eq(a.y, b.y) && rat_eq(a.z, b.z)
}

pub open spec fn v3_add(a: V3, b: V3) -> V3 {
    V3 { x: rat_add(a.x, b.x), y: rat_add(a.y, b.y), z: rat_add(a.z, b.z) }
}

pub open spec fn v3_add_fits(a: V3, b: V3) -> bool {
    rat_fits(rat_add(a.x, b.x)) && rat_fits(rat_add(a.y, b.y)) && rat_fits(rat_add(a.z, b.z))
}

pub open spec fn v3_sub(a: V3, b: V3) -> V3 {
    V3 { x: rat_sub(a.x, b.x), y: rat_sub(a.y, b.y), z: rat_sub(a.z, b.z) }
}

pub open spec fn v3_sub_fits(a: V3, b: V3) -> bool {
    rat_fits(rat_sub(a.x, b.x)) && rat_fits(rat_sub(a.y, b.y)) && rat_fits(rat_sub(a.z, b.z))
}

pub open spec fn v3_neg(a: V3) -> V3 {
    V3 { x: rat_neg(a.x), y: rat_neg(a.y), z: rat_neg(a.z) }
}

/// The cross product of `a` and `b`.
pub open spec fn v3_cross(a: V3, b: V3) -> V3 {
    V3 {
        x: rat_sub(rat_mul(a.y, b.z), rat_mul(a.z, b.y)),
        y: rat_sub(rat_mul(a.z, b.x), rat_mul(a.x, b.z)),
        z: rat_sub(rat_mul(a.x, b.y), rat_mul(a.y, b.x)),
    }
}

pub open spec fn v3_cross_fits(a: V3, b: V3) -> bool {
    &&& rat_fits(rat_mul(a.y, b.z)) && rat_fits(rat_mul(a.z, b.y))
    &&& rat_fits(rat_sub(rat_mul(a.y, b.z), rat_mul(a.z, b.y)))
    &&& rat_fits(rat_mul(a.z, b.x)) && rat_fits(rat_mul(a.x, b.z))
    &&& rat_fits(rat_sub(rat_mul(a.z, b.x), rat_mul(a.x, b.z)))
    &&& rat_fits(rat_mul(a.x, b.y)) && rat_fits(rat_mul(a.y, b.x))
    &&& rat_fits(rat_sub(rat_mul(a.x, b.y), rat_mul(a.y, b.x)))
}

/// The dot product of `a` and `b`.
pub open spec fn v3_dot(a: V3, b: V3) -> Rat {
    rat_dot3(a.x, a.y, a.z, b.x, b.y, b.z)
}

pub open spec fn v3_dot_fits(a: V3, b: V3) -> bool {
    rat_dot3_fits(a.x, a.y, a.z, b.x, b.y, b.z)
}

pub open spec fn v3_scale(a: V3, s: Rat) -> V3 {
    V3 { x: rat_mul(a.x, s), y: rat_mul(a.y, s), z: rat_mul(a.z, s) }
}

pub open spec fn v3_scale_fits(a: V3, s: Rat) -> bool {
    rat_fits(rat_mul(a.x, s)) && rat_fits(rat_mul(a.y, s)) && rat_fits(rat_mul(a.z, s))
}

pub open spec fn v3_scale_div(a: V3, s: Rat) -> V3 {
    V3 { x: rat_div(a.x, s), y: rat_div(a.y, s), z: rat_div(a.z, s) }
}

pub open spec fn v3_scale_div_fits(a: V3, s: Rat) -> bool {
    rat_fits(rat_div(a.x, s)) && rat_fits(rat_div(a.y, s)) && rat_fits(rat_div(a.z, s))
}

/// The centroid of a triangle: the sum of the vertices divided by three.
pub open spec fn v3_mean3(a: V3, b: V3, c: V3) -> V3 {
    v3_scale_div(v3_add(v3_add(a, b), c), rat_int(3))
}

pub open spec fn v3_mean3_fits(a: V3, b: V3, c: V3) -> bool {
    &&& v3_add_fits(a, b)
    &&& v3_add_fits(v3_add(a, b), c)
    &&& v3_scale_div_fits(v3_add(v3_add(a, b), c), rat_int(3))
}

/// The vector part of a quaternion.
pub open spec fn v3_from_q(q: Q4) -> V3 {
    V3 { x: q.x, y: q.y, z: q.z }
}

/// The vector `v` carried through the matrix `m`: each output component is
/// the dot product of the matching matrix row with `v`.
pub open spec fn v3_apply_m3(v: V3, m: M3) -> V3 {
    V3 {
        x: rat_dot3(v.x, v.y, v.z, m.m00, m.m01, m.m02),
        y: rat_dot3(v.x, v.y, v.z, m.m10, m.m11, m.m12),
        z: rat_dot3(v.x, v.y, v.z, m.m20, m.m21, m.m22),
    }
}

pub open spec fn v3_apply_m3_fits(v: V3, m: M3) -> bool {
    &&& rat_dot3_fits(v.x, v.y, v.z, m.m00, m.m01, m.m02)
    &&& rat_dot3_fits(v.x, v.y, v.z, m.m10, m.m11, m.m12)
    &&& rat_dot3_fits(v.x, v.y, v.z, m.m20, m.m21, m.m22)
}

/// The cross product is anti-commutative: `a` cross `b` is the negation of
/// `b` cross `a`, so callers must not treat it as a commutative product.
pub proof fn lemma_cross_antisymmetric(a: V3, b: V3)
    ensures
        v3_cross(a, b) == v3_neg(v3_cross(b, a)),
{
    lemma_rat_sub_antisym(rat_mul(b.y, a.z), rat_mul(b.z, a.y));
    lemma_rat_mul_comm(b.z, a.y);
    lemma_rat_mul_comm(b.y, a.z);
    lemma_rat_sub_antisym(rat_mul(b.z, a.x), rat_mul(b.x, a.z));
    lemma_rat_mul_comm(b.x, a.z);
    lemma_rat_mul_comm(b.z, a.x);
    lemma_rat_sub_antisym(rat_mul(b.x, a.y), rat_mul(b.y, a.x));
    lemma_rat_mul_comm(b.y, a.x);
    lemma_rat_mul_comm(b.x, a.y);
}

/// A three-component vector of exact scalars.
#[derive(Clone, Copy, Debug)]
pub struct Vec3 {
    x: Scalar,
    y: Scalar,
    z: Scalar,
}

impl View for Vec3 {
    type V = V3;

    closed spec fn view(&self) -> V3 {
        V3 { x: self.x@, y: self.y@, z: self.z@ }
    }
}

impl PartialEq for Vec3 {
    fn eq(&self, other: &Vec3) -> (r: bool) {
        self.x == other.x && self.y == other.y && self.z == other.z
    }
}

impl vstd::std_specs::cmp::PartialEqSpecImpl for Vec3 {
    open spec fn obeys_eq_spec() -> bool {
        true
    }

    open spec fn eq_spec(&self, other: &Vec3) -> bool {
        v3_eq(self@, other@)
    }
}

impl Vec3 {
    /// Every component has a positive denominator.
    pub open spec fn wf(self) -> bool {
        v3_wf(self@)
    }

    pub fn new(x: Scalar, y: Scalar, z: Scalar) -> (r: Vec3)
        ensures
            r@ == (V3 { x: x@, y: y@, z: z@ }),
    {
        Vec3 { x, y, z }
    }

    pub fn zero() -> (r: Vec3)
        ensures
            r.wf(),
            r@ == (V3 { x: rat_int(0), y: rat_int(0), z: rat_int(0) }),
    {
        Vec3 { x: Scalar::from_int(0), y: Scalar::from_int(0), z: Scalar::from_int(0) }
    }

    pub fn unit_x() -> (r: Vec3)
        ensures
            r.wf(),
            r@ == (V3 { x: rat_int(1), y: rat_int(0), z: rat_int(0) }),
    {
        Vec3 { x: Scalar::from_int(1), y: Scalar::from_int(0), z: Scalar::from_int(0) }
    }

    pub fn unit_z() -> (r: Vec3)
        ensures
            r.wf(),
            r@ == (V3 { x: rat_int(0), y: rat_int(0), z: rat_int(1) }),
    {
        Vec3 { x: Scalar::from_int(0), y: Scalar::from_int(0), z: Scalar::from_int(1) }
    }

    pub fn x(&self) -> (r: Scalar)
        ensures
            r@ == self@.x,
    {
        self.x
    }

    pub fn y(&self) -> (r: Scalar)
        ensures
            r@ == self@.y,
    {
        self.y
    }

    pub fn z(&self) -> (r: Scalar)
        ensures
            r@ == self@.z,
    {
        self.z
    }

    /// Component-wise sum.
    pub fn add(self, other: Vec3) -> (r: Vec3)
        requires
            self.wf(),
            other.wf(),
            v3_add_fits(self@, other@),
        ensures
            r.wf(),
            r@ == v3_add(self@, other@),
    {
        Vec3 { x: self.x.add(other.x), y: self.y.add(other.y), z: self.z.add(other.z) }
    }

    /// Component-wise difference.
    pub fn sub(self, other: Vec3) -> (r: Vec3)
        requires
            self.wf(),
            other.wf(),
            v3_sub_fits(self@, other@),
        ensures
            r.wf(),
            r@ == v3_sub(self@, other@),
    {
        Vec3 { x: self.x.sub(other.x), y: self.y.sub(other.y), z: self.z.sub(other.z) }
    }

    /// The cross product. It is anti-commutative, not commutative:
    /// see `lemma_cross_antisymmetric`.
    pub fn cross(self, other: Vec3) -> (r: Vec3)
        requires
            self.wf(),
            other.wf(),
            v3_cross_fits(self@, other@),
        ensures
            r.wf(),
            r@ == v3_cross(self@, other@),
    {
        Vec3 {
            x: self.y.mul(other.z).sub(self.z.mul(other.y)),
            y: self.z.mul(other.x).sub(self.x.mul(other.z)),
            z: self.x.mul(other.y).sub(self.y.mul(other.x)),
        }
    }

    /// The scalar dot product.
    pub fn dot(&self, other: &Vec3) -> (r: Scalar)
        requires
            self.wf(),
            other.wf(),
            v3_dot_fits(self@, other@),
        ensures
            r.wf(),
            r@ == v3_dot(self@, other@),
    {
        dot3(self.x, self.y, self.z, other.x, other.y, other.z)
    }

    /// Each component scaled by `s`.
    pub fn scalar_mul(&self, s: Scalar) -> (r: Vec3)
        requires
            self.wf(),
            s.wf(),
            v3_scale_fits(self@, s@),
        ensures
            r.wf(),
            r@ == v3_scale(self@, s@),
    {
        Vec3 { x: self.x.mul(s), y: self.y.mul(s), z: self.z.mul(s) }
    }

    /// Each component divided by `s`, which must not be zero.
    pub fn scalar_div(&self, s: Scalar) -> (r: Vec3)
        requires
            self.wf(),
            s.wf(),
            s@.n != 0,
            v3_scale_div_fits(self@, s@),
        ensures
            r.wf(),
            r@ == v3_scale_div(self@, s@),
    {
        Vec3 { x: self.x.div(s), y: self.y.div(s), z: self.z.div(s) }
    }

    /// The centroid of the triangle with vertices `a`, `b`, `c`.
    pub fn mean_from_three_vertices(a: Vec3, b: Vec3, c: Vec3) -> (r: Vec3)
        requires
            a.wf(),
            b.wf(),
            c.wf(),
            v3_mean3_fits(a@, b@, c@),
        ensures
            r.wf(),
            r@ == v3_mean3(a@, b@, c@),
    {
        let sum = a.add(b).add(c);
        sum.scalar_div(Scalar::from_int(3))
    }

    /// The centroid of the triangle whose vertices stand in an array.
    pub fn mean_from_vertex_array(v: [Vec3; 3]) -> (r: Vec3)
        requires
            v[0].wf(),
            v[1].wf(),
            v[2].wf(),
            v3_mean3_fits(v[0]@, v[1]@, v[2]@),
        ensures
            r.wf(),
            r@ == v3_mean3(v[0]@, v[1]@, v[2]@),
    {
        Vec3::mean_from_three_vertices(v[0], v[1], v[2])
    }

    /// The vector carried through a rotation matrix: component `i` of the
    /// result is the dot product of row `i` of `m` with `self`.
    pub fn apply_rot_mat3(&self, m: Mat3) -> (r: Vec3)
        requires
            self.wf(),
            m.wf(),
            v3_apply_m3_fits(self@, m@),
        ensures
            r.wf(),
            r@ == v3_apply_m3(self@, m@),
    {
        Vec3 {
            x: dot3(self.x, self.y, self.z, m.m00(), m.m01(), m.m02()),
            y: dot3(self.x, self.y, self.z, m.m10(), m.m11(), m.m12()),
            z: dot3(self.x, self.y, self.z, m.m20(), m.m21(), m.m22()),
        }
    }

    /// The vector part of a quaternion, dropping its scalar part.
    pub fn from_quat(q: Quat) -> (r: Vec3)
        ensures
            r@ == v3_from_q(q@),
    {
        Vec3 { x: q.x(), y: q.y(), z: q.z() }
    }
}

} // verus!

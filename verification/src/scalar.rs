//! Exact rational scalars.
//!
//! A `Scalar` is a fraction of two machine integers with a positive
//! denominator. Its mathematical model is `Rat`, a pair of unbounded
//! integers; every arithmetic operation is specified exactly against that
//! model. Fractions are not reduced: equality (`==`) compares values by
//! cross multiplication, so `1/2` and `2/4` are equal scalars.

use vstd::prelude::*;

verus! {

/// Mathematical model of a scalar: the rational number `n / d`.
pub ghost struct Rat {
    pub n: int,
    pub d: int,
}

/// The rational value of the integer `n`.
pub open spec fn rat_int(n: int) -> Rat {
    Rat { n, d: 1 }
}

/// The fraction has a positive denominator.
pub open spec fn rat_wf(r: Rat) -> bool {
    1 <= r.d
}

/// Both parts of the fraction fit in the machine representation
/// (numerator a signed 64-bit value, denominator positive and bounded).
pub open spec fn rat_fits(r: Rat) -> bool {
    &&& i64::MIN as int <= r.n <= i64::MAX as int
    &&& 1 <= r.d <= i64::MAX as int
}

pub open spec fn rat_add(a: Rat, b: Rat) -> Rat {
    Rat { n: a.n * b.d + b.n * a.d, d: a.d * b.d }
}

pub open spec fn rat_sub(a: Rat, b: Rat) -> Rat {
    Rat { n: a.n * b.d - b.n * a.d, d: a.d * b.d }
}

pub open spec fn rat_neg(a: Rat) -> Rat {
    Rat { n: -a.n, d: a.d }
}

pub open spec fn rat_mul(a: Rat, b: Rat) -> Rat {
    Rat { n: a.n * b.n, d: a.d * b.d }
}

/// Division keeps the denominator positive by moving the divisor's sign
/// into the numerator.
pub open spec fn rat_div(a: Rat, b: Rat) -> Rat {
    if 0 <= b.n {
        Rat { n: a.n * b.d, d: a.d * b.n }
    } else {
        Rat { n: -(a.n * b.d), d: -(a.d * b.n) }
    }
}

/// Value equality of two fractions, by cross multiplication.
pub open spec fn rat_eq(a: Rat, b: Rat) -> bool {
    a.n * b.d == b.n * a.d
}

/// Dot product of three term pairs, summed left to right.
pub open spec fn rat_dot3(a0: Rat, a1: Rat, a2: Rat, b0: Rat, b1: Rat, b2: Rat) -> Rat {
    rat_add(rat_add(rat_mul(a0, b0), rat_mul(a1, b1)), rat_mul(a2, b2))
}

/// Every intermediate value of `rat_dot3` fits in the machine representation.
pub open spec fn rat_dot3_fits(a0: Rat, a1: Rat, a2: Rat, b0: Rat, b1: Rat, b2: Rat) -> bool {
    let t0 = rat_mul(a0, b0);
    let t1 = rat_mul(a1, b1);
    let t2 = rat_mul(a2, b2);
    let s1 = rat_add(t0, t1);
    let s2 = rat_add(s1, t2);
    rat_fits(t0) && rat_fits(t1) && rat_fits(t2) && rat_fits(s1) && rat_fits(s2)
}

/// Dot product of four term pairs, summed left to right.
pub open spec fn rat_dot4(
    a0: Rat, a1: Rat, a2: Rat, a3: Rat,
    b0: Rat, b1: Rat, b2: Rat, b3: Rat,
) -> Rat {
    rat_add(rat_add(rat_add(rat_mul(a0, b0), rat_mul(a1, b1)), rat_mul(a2, b2)), rat_mul(a3, b3))
}

/// Every intermediate value of `rat_dot4` fits in the machine representation.
pub open spec fn rat_dot4_fits(
    a0: Rat, a1: Rat, a2: Rat, a3: Rat,
    b0: Rat, b1: Rat, b2: Rat, b3: Rat,
) -> bool {
    let t0 = rat_mul(a0, b0);
    let t1 = rat_mul(a1, b1);
    let t2 = rat_mul(a2, b2);
    let t3 = rat_mul(a3, b3);
    let s1 = rat_add(t0, t1);
    let s2 = rat_add(s1, t2);
    let s3 = rat_add(s2, t3);
    rat_fits(t0) && rat_fits(t1) && rat_fits(t2) && rat_fits(t3)
        && rat_fits(s1) && rat_fits(s2) && rat_fits(s3)
}

/// Multiplication of fractions is commutative on the nose.
pub proof fn lemma_rat_mul_comm(a: Rat, b: Rat)
    ensures
        rat_mul(a, b) == rat_mul(b, a),
{
    assert(a.n * b.n == b.n * a.n) by (nonlinear_arith);
    assert(a.d * b.d == b.d * a.d) by (nonlinear_arith);
}

/// Addition of fractions is commutative on the nose.
pub proof fn lemma_rat_add_comm(a: Rat, b: Rat)
    ensures
        rat_add(a, b) == rat_add(b, a),
{
    assert(a.d * b.d == b.d * a.d) by (nonlinear_arith);
}

/// Negation moves through the left factor of a product.
pub proof fn lemma_rat_mul_neg_left(a: Rat, b: Rat)
    ensures
        rat_mul(rat_neg(a), b) == rat_neg(rat_mul(a, b)),
{
    assert((-a.n) * b.n == -(a.n * b.n)) by (nonlinear_arith);
}

/// Negation moves through the right factor of a product.
pub proof fn lemma_rat_mul_neg_right(a: Rat, b: Rat)
    ensures
        rat_mul(a, rat_neg(b)) == rat_neg(rat_mul(a, b)),
{
    assert(a.n * (-b.n) == -(a.n * b.n)) by (nonlinear_arith);
}

/// Negating both factors leaves a product unchanged.
pub proof fn lemma_rat_mul_neg_neg(a: Rat, b: Rat)
    ensures
        rat_mul(rat_neg(a), rat_neg(b)) == rat_mul(a, b),
{
    assert((-a.n) * (-b.n) == a.n * b.n) by (nonlinear_arith);
}

/// Negation distributes over a sum of fractions.
pub proof fn lemma_rat_neg_add(a: Rat, b: Rat)
    ensures
        rat_neg(rat_add(a, b)) == rat_add(rat_neg(a), rat_neg(b)),
{
    assert(-(a.n * b.d + b.n * a.d) == (-a.n) * b.d + (-b.n) * a.d) by (nonlinear_arith);
}

/// Negation distributes over a difference of fractions.
pub proof fn lemma_rat_neg_sub(a: Rat, b: Rat)
    ensures
        rat_neg(rat_sub(a, b)) == rat_sub(rat_neg(a), rat_neg(b)),
{
    assert(-(a.n * b.d - b.n * a.d) == (-a.n) * b.d - (-b.n) * a.d) by (nonlinear_arith);
}

/// Negating a difference swaps its operands.
pub proof fn lemma_rat_sub_antisym(a: Rat, b: Rat)
    ensures
        rat_neg(rat_sub(a, b)) == rat_sub(b, a),
{
    assert(-(a.n * b.d - b.n * a.d) == b.n * a.d - a.n * b.d) by (nonlinear_arith);
    assert(a.d * b.d == b.d * a.d) by (nonlinear_arith);
}

/// Adding `q` then subtracting `p` is adding `-p` then subtracting `-q`.
pub proof fn lemma_rat_sub_swap(a: Rat, p: Rat, q: Rat)
    ensures
        rat_sub(rat_add(a, q), p) == rat_sub(rat_add(a, rat_neg(p)), rat_neg(q)),
{
    assert((a.n * q.d + q.n * a.d) * p.d - p.n * (a.d * q.d)
        == (a.n * p.d + (-p.n) * a.d) * q.d - (-q.n) * (a.d * p.d)) by (nonlinear_arith);
    assert((a.d * q.d) * p.d == (a.d * p.d) * q.d) by (nonlinear_arith);
}

/// The product of two signed 64-bit values stays within one bit of 126 bits.
proof fn lemma_i64_prod_bounds(a: int, b: int)
    by (nonlinear_arith)
    requires
        -0x8000_0000_0000_0000 <= a <= 0x7fff_ffff_ffff_ffff,
        -0x8000_0000_0000_0000 <= b <= 0x7fff_ffff_ffff_ffff,
    ensures
        -0x4000_0000_0000_0000_0000_0000_0000_0000 <= a * b
            <= 0x4000_0000_0000_0000_0000_0000_0000_0000,
{
}

/// A signed 64-bit value times a positive denominator is small enough that
/// two such products can still be added inside 128 bits.
proof fn lemma_prod_by_pos_bounds(a: int, d: int)
    by (nonlinear_arith)
    requires
        -0x8000_0000_0000_0000 <= a <= 0x7fff_ffff_ffff_ffff,
        1 <= d <= 0x7fff_ffff_ffff_ffff,
    ensures
        -0x3fff_ffff_ffff_ffff_8000_0000_0000_0000 <= a * d
            <= 0x3fff_ffff_ffff_ffff_8000_0000_0000_0000,
{
}

/// Exact widening product of two signed 64-bit values.
fn wide_mul(a: i64, b: i64) -> (r: i128)
    ensures
        r == a as int * b as int,
        -0x4000_0000_0000_0000_0000_0000_0000_0000 <= r
            <= 0x4000_0000_0000_0000_0000_0000_0000_0000,
{
    proof {
        lemma_i64_prod_bounds(a as int, b as int);
    }
    (a as i128) * (b as i128)
}

/// Exact widening product by a positive denominator, with the tighter bound
/// that makes sums of two such products safe.
fn wide_mul_pos(a: i64, d: i64) -> (r: i128)
    requires
        1 <= d,
    ensures
        r == a as int * d as int,
        -0x3fff_ffff_ffff_ffff_8000_0000_0000_0000 <= r
            <= 0x3fff_ffff_ffff_ffff_8000_0000_0000_0000,
{
    proof {
        lemma_prod_by_pos_bounds(a as int, d as int);
    }
    (a as i128) * (d as i128)
}

/// An exact rational scalar: numerator over positive denominator.
#[derive(Clone, Copy, Debug)]
pub struct Scalar {
    n: i64,
    d: i64,
}

impl View for Scalar {
    type V = Rat;

    closed spec fn view(&self) -> Rat {
        Rat { n: self.n as int, d: self.d as int }
    }
}

impl PartialEq for Scalar {
    fn eq(&self, other: &Scalar) -> (r: bool) {
        let lhs = wide_mul(self.n, other.d);
        let rhs = wide_mul(other.n, self.d);
        lhs == rhs
    }
}

impl vstd::std_specs::cmp::PartialEqSpecImpl for Scalar {
    open spec fn obeys_eq_spec() -> bool {
        true
    }

    open spec fn eq_spec(&self, other: &Scalar) -> bool {
        rat_eq(self@, other@)
    }
}

impl Scalar {
    /// The denominator is positive.
    pub open spec fn wf(self) -> bool {
        1 <= self@.d
    }

    /// The fraction `n / d`.
    pub fn new(n: i64, d: i64) -> (r: Scalar)
        requires
            1 <= d,
        ensures
            r.wf(),
            r@ == (Rat { n: n as int, d: d as int }),
    {
        Scalar { n, d }
    }

    /// The integer `n` as a scalar.
    pub fn from_int(n: i64) -> (r: Scalar)
        ensures
            r.wf(),
            r@ == rat_int(n as int),
    {
        Scalar { n, d: 1 }
    }

    /// The numerator as stored.
    pub fn num(&self) -> (r: i64)
        ensures
            r as int == self@.n,
    {
        self.n
    }

    /// The denominator as stored.
    pub fn den(&self) -> (r: i64)
        ensures
            r as int == self@.d,
    {
        self.d
    }

    pub fn add(self, other: Scalar) -> (r: Scalar)
        requires
            self.wf(),
            other.wf(),
            rat_fits(rat_add(self@, other@)),
        ensures
            r.wf(),
            r@ == rat_add(self@, other@),
    {
        let p1 = wide_mul_pos(self.n, other.d);
        let p2 = wide_mul_pos(other.n, self.d);
        let dd = wide_mul_pos(self.d, other.d);
        Scalar { n: (p1 + p2) as i64, d: dd as i64 }
    }

    pub fn sub(self, other: Scalar) -> (r: Scalar)
        requires
            self.wf(),
            other.wf(),
            rat_fits(rat_sub(self@, other@)),
        ensures
            r.wf(),
            r@ == rat_sub(self@, other@),
    {
        let p1 = wide_mul_pos(self.n, other.d);
        let p2 = wide_mul_pos(other.n, self.d);
        let dd = wide_mul_pos(self.d, other.d);
        Scalar { n: (p1 - p2) as i64, d: dd as i64 }
    }

    pub fn neg(self) -> (r: Scalar)
        requires
            self.wf(),
            rat_fits(rat_neg(self@)),
        ensures
            r.wf(),
            r@ == rat_neg(self@),
    {
        Scalar { n: -self.n, d: self.d }
    }

    pub fn mul(self, other: Scalar) -> (r: Scalar)
        requires
            self.wf(),
            other.wf(),
            rat_fits(rat_mul(self@, other@)),
        ensures
            r.wf(),
            r@ == rat_mul(self@, other@),
    {
        let nn = wide_mul(self.n, other.n);
        let dd = wide_mul_pos(self.d, other.d);
        Scalar { n: nn as i64, d: dd as i64 }
    }

    /// Exact division. The divisor must not be zero: a zero divisor has no
    /// rational quotient, so the operation is only defined away from it.
    pub fn div(self, other: Scalar) -> (r: Scalar)
        requires
            self.wf(),
            other.wf(),
            other@.n != 0,
            rat_fits(rat_div(self@, other@)),
        ensures
            r.wf(),
            r@ == rat_div(self@, other@),
    {
        let nn = wide_mul_pos(self.n, other.d);
        let dd = wide_mul(self.d, other.n);
        if other.n >= 0 {
            Scalar { n: nn as i64, d: dd as i64 }
        } else {
            Scalar { n: (-nn) as i64, d: (-dd) as i64 }
        }
    }
}

/// Three-term dot product over scalars, summed left to right.
pub(crate) fn dot3(
    a0: Scalar, a1: Scalar, a2: Scalar,
    b0: Scalar, b1: Scalar, b2: Scalar,
) -> (r: Scalar)
    requires
        a0.wf() && a1.wf() && a2.wf(),
        b0.wf() && b1.wf() && b2.wf(),
        rat_dot3_fits(a0@, a1@, a2@, b0@, b1@, b2@),
    ensures
        r.wf(),
        r@ == rat_dot3(a0@, a1@, a2@, b0@, b1@, b2@),
{
    a0.mul(b0).add(a1.mul(b1)).add(a2.mul(b2))
}

/// Four-term dot product over scalars, summed left to right.
pub(crate) fn dot4(
    a0: Scalar, a1: Scalar, a2: Scalar, a3: Scalar,
    b0: Scalar, b1: Scalar, b2: Scalar, b3: Scalar,
) -> (r: Scalar)
    requires
        a0.wf() && a1.wf() && a2.wf() && a3.wf(),
        b0.wf() && b1.wf() && b2.wf() && b3.wf(),
        rat_dot4_fits(a0@, a1@, a2@, a3@, b0@, b1@, b2@, b3@),
    ensures
        r.wf(),
        r@ == rat_dot4(a0@, a1@, a2@, a3@, b0@, b1@, b2@, b3@),
{
    a0.mul(b0).add(a1.mul(b1)).add(a2.mul(b2)).add(a3.mul(b3))
}

} // verus!

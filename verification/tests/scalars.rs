use math3d::scalar::Scalar;

#[test]
fn scalar_fraction_equality() {
    // Unreduced fractions with the same value compare equal.
    assert_eq!(Scalar::new(1, 2), Scalar::new(2, 4));
    assert_eq!(Scalar::new(-3, 6), Scalar::new(-1, 2));
    assert_ne!(Scalar::new(1, 2), Scalar::new(1, 3));
    assert_eq!(Scalar::from_int(7), Scalar::new(14, 2));
}

#[test]
fn scalar_add_sub() {
    assert_eq!(Scalar::new(1, 2).add(Scalar::new(1, 3)), Scalar::new(5, 6));
    assert_eq!(Scalar::from_int(2).sub(Scalar::new(1, 2)), Scalar::new(3, 2));
    assert_eq!(Scalar::new(1, 4).sub(Scalar::new(1, 4)), Scalar::from_int(0));
}

#[test]
fn scalar_mul_div() {
    assert_eq!(Scalar::new(2, 3).mul(Scalar::new(3, 4)), Scalar::new(1, 2));
    assert_eq!(Scalar::new(1, 2).div(Scalar::from_int(3)), Scalar::new(1, 6));
    assert_eq!(Scalar::new(1, 2).div(Scalar::new(1, 4)), Scalar::from_int(2));
}

#[test]
fn scalar_div_negative_keeps_denominator_positive() {
    let r = Scalar::from_int(1).div(Scalar::from_int(-2));
    assert_eq!(r, Scalar::new(-1, 2));
    assert!(r.den() > 0);
}

#[test]
fn scalar_neg() {
    assert_eq!(Scalar::from_int(5).neg(), Scalar::from_int(-5));
    assert_eq!(Scalar::new(-1, 2).neg(), Scalar::new(1, 2));
}

#[test]
fn scalar_accessors() {
    let s = Scalar::new(-7, 3);
    assert_eq!(s.num(), -7);
    assert_eq!(s.den(), 3);
}

use math3d::matrix3::Mat3;
use math3d::quaternion::Quat;
use math3d::scalar::Scalar;
use math3d::vector::Vec3;

fn vec(x: i64, y: i64, z: i64) -> Vec3 {
    Vec3::new(Scalar::from_int(x), Scalar::from_int(y), Scalar::from_int(z))
}

#[test]
fn vector_cross() {
    let a = vec(-1, 1, 2);
    let b = vec(2, 3, -2);

    assert_eq!(a.cross(b), vec(-8, 2, -5));
}

#[test]
fn vector_cross_antisymmetric() {
    let a = vec(-1, 1, 2);
    let b = vec(2, 3, -2);

    assert_eq!(a.cross(b), b.cross(a).scalar_mul(Scalar::from_int(-1)));
}

#[test]
fn mean_from_vertices() {
    let a = vec(1, 2, 5);
    let b = vec(3, 1, 5);
    let c = vec(5, 3, 5);

    assert_eq!(Vec3::mean_from_three_vertices(a, b, c), vec(3, 2, 5));
}

#[test]
fn mean_from_array_matches() {
    let a = vec(1, 2, 5);
    let b = vec(3, 1, 5);
    let c = vec(5, 3, 5);

    assert_eq!(Vec3::mean_from_vertex_array([a, b, c]), vec(3, 2, 5));
}

#[test]
fn mean_with_fractional_result() {
    let m = Vec3::mean_from_three_vertices(vec(1, 0, 0), vec(0, 1, 0), vec(0, 0, 0));
    assert_eq!(m.x(), Scalar::new(1, 3));
    assert_eq!(m.y(), Scalar::new(1, 3));
    assert_eq!(m.z(), Scalar::from_int(0));
}

#[test]
fn vector_dot_exact() {
    let a = vec(1, 2, 3);
    let b = vec(-1, -1, 2);
    assert_eq!(a.dot(&b), Scalar::from_int(3));
}

#[test]
fn vector_add_sub() {
    assert_eq!(vec(1, 2, 3).add(vec(4, -2, 1)), vec(5, 0, 4));
    assert_eq!(vec(1, 2, 3).sub(vec(4, -2, 1)), vec(-3, 4, 2));
}

#[test]
fn vector_scalar_mul_div() {
    assert_eq!(vec(1, -2, 3).scalar_mul(Scalar::from_int(4)), vec(4, -8, 12));
    let half = vec(1, -2, 3).scalar_div(Scalar::from_int(2));
    assert_eq!(half.x(), Scalar::new(1, 2));
    assert_eq!(half.y(), Scalar::from_int(-1));
    assert_eq!(half.z(), Scalar::new(3, 2));
}

#[test]
fn vector_constructors_and_accessors() {
    assert_eq!(Vec3::zero(), vec(0, 0, 0));
    assert_eq!(Vec3::unit_x(), vec(1, 0, 0));
    assert_eq!(Vec3::unit_z(), vec(0, 0, 1));
    let v = vec(7, -3, 11);
    assert_eq!(v.x(), Scalar::from_int(7));
    assert_eq!(v.y(), Scalar::from_int(-3));
    assert_eq!(v.z(), Scalar::from_int(11));
}

#[test]
fn vector_from_quat_drops_scalar_part() {
    let q = Quat::new(
        Scalar::from_int(9),
        Scalar::from_int(1),
        Scalar::from_int(2),
        Scalar::from_int(3),
    );
    assert_eq!(Vec3::from_quat(q), vec(1, 2, 3));
}

#[test]
fn vector_apply_rot_mat3() {
    let m = Mat3::new(
        Scalar::from_int(1), Scalar::from_int(2), Scalar::from_int(3),
        Scalar::from_int(4), Scalar::from_int(5), Scalar::from_int(6),
        Scalar::from_int(7), Scalar::from_int(8), Scalar::from_int(9),
    );
    let v = vec(1, 0, 2);
    assert_eq!(v.apply_rot_mat3(m), vec(7, 16, 25));
}

#[test]
fn vector_inequality() {
    assert_ne!(vec(1, 2, 3), vec(1, 2, 4));
    assert_eq!(
        Vec3::new(Scalar::new(2, 4), Scalar::from_int(0), Scalar::from_int(0)),
        Vec3::new(Scalar::new(1, 2), Scalar::from_int(0), Scalar::from_int(0))
    );
}

#[test]
fn vector_cross_fractions() {
    let a = Vec3::new(Scalar::new(1, 2), Scalar::from_int(0), Scalar::from_int(0));
    let b = Vec3::new(Scalar::from_int(0), Scalar::new(1, 3), Scalar::from_int(0));
    let c = a.cross(b);
    assert_eq!(c.x(), Scalar::from_int(0));
    assert_eq!(c.y(), Scalar::from_int(0));
    assert_eq!(c.z(), Scalar::new(1, 6));
}

use math3d::quaternion::Quat;
use math3d::scalar::Scalar;
use math3d::vector::Vec3;

fn quat(w: i64, x: i64, y: i64, z: i64) -> Quat {
    Quat::new(
        Scalar::from_int(w),
        Scalar::from_int(x),
        Scalar::from_int(y),
        Scalar::from_int(z),
    )
}

fn vec(x: i64, y: i64, z: i64) -> Vec3 {
    Vec3::new(Scalar::from_int(x), Scalar::from_int(y), Scalar::from_int(z))
}

#[test]
fn quat_arithmic() {
    let q1 = quat(3, 2, -1, -2);
    let q2 = quat(-2, -4, 1, -3);

    assert_eq!(
        q1.scalar_mul(Scalar::from_int(5)).add(q2.scalar_mul(Scalar::from_int(2))),
        quat(11, 2, -3, -16)
    );
    assert_eq!(q1.mul(q2), quat(-3, -11, 19, -7));
    assert_eq!(q2.mul(q1), quat(-3, -21, -9, -3));
    assert_eq!(q1.mul(q2).conjugate(), q2.conjugate().mul(q1.conjugate()));
}

#[test]
fn quat_conjugate_involution() {
    let q = quat(3, 2, -1, -2);
    assert_eq!(q.conjugate().conjugate(), q);
    assert_eq!(q.conjugate(), quat(3, -2, 1, 2));
}

#[test]
fn quat_constructors_and_accessors() {
    assert_eq!(Quat::zero(), quat(0, 0, 0, 0));
    let q = Quat::new_from_vec(Scalar::from_int(4), vec(1, 2, 3));
    assert_eq!(q, quat(4, 1, 2, 3));
    assert_eq!(q.w(), Scalar::from_int(4));
    assert_eq!(q.x(), Scalar::from_int(1));
    assert_eq!(q.y(), Scalar::from_int(2));
    assert_eq!(q.z(), Scalar::from_int(3));
}

#[test]
fn quat_from_vec3_is_pure() {
    let q = Quat::from_vec3(vec(5, -6, 7));
    assert_eq!(q, quat(0, 5, -6, 7));
}

#[test]
fn quat_rotate_half_turn() {
    // The unit quaternion (0, 1, 0, 0) is a half turn about the x axis.
    let q = quat(0, 1, 0, 0);
    assert_eq!(q.rotate_vec3(vec(1, 2, 3)), vec(1, -2, -3));
}

#[test]
fn quat_rotate_with_fractions() {
    // (1/2)(1, 1, 1, 1) is a unit quaternion: a third turn about (1,1,1),
    // which cycles the coordinate axes.
    let h = Scalar::new(1, 2);
    let q = Quat::new(h, h, h, h);
    assert_eq!(q.rotate_vec3(vec(1, 2, 3)), vec(3, 1, 2));
}

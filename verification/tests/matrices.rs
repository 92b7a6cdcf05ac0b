use math3d::matrix3::Mat3;
use math3d::matrix4::Mat4;
use math3d::quaternion::Quat;
use math3d::scalar::Scalar;
use math3d::vector::Vec3;

fn s(n: i64) -> Scalar {
    Scalar::from_int(n)
}

fn mat3(v: [i64; 9]) -> Mat3 {
    Mat3::new(
        s(v[0]), s(v[1]), s(v[2]),
        s(v[3]), s(v[4]), s(v[5]),
        s(v[6]), s(v[7]), s(v[8]),
    )
}

fn mat4(v: [i64; 16]) -> Mat4 {
    Mat4::new(
        s(v[0]), s(v[1]), s(v[2]), s(v[3]),
        s(v[4]), s(v[5]), s(v[6]), s(v[7]),
        s(v[8]), s(v[9]), s(v[10]), s(v[11]),
        s(v[12]), s(v[13]), s(v[14]), s(v[15]),
    )
}

fn assert_mat4_entries(m: &Mat4, v: [i64; 16]) {
    assert_eq!(m.m00(), s(v[0]));
    assert_eq!(m.m01(), s(v[1]));
    assert_eq!(m.m02(), s(v[2]));
    assert_eq!(m.m03(), s(v[3]));
    assert_eq!(m.m10(), s(v[4]));
    assert_eq!(m.m11(), s(v[5]));
    assert_eq!(m.m12(), s(v[6]));
    assert_eq!(m.m13(), s(v[7]));
    assert_eq!(m.m20(), s(v[8]));
    assert_eq!(m.m21(), s(v[9]));
    assert_eq!(m.m22(), s(v[10]));
    assert_eq!(m.m23(), s(v[11]));
    assert_eq!(m.m30(), s(v[12]));
    assert_eq!(m.m31(), s(v[13]));
    assert_eq!(m.m32(), s(v[14]));
    assert_eq!(m.m33(), s(v[15]));
}

fn assert_mat3_entries(m: &Mat3, v: [i64; 9]) {
    assert_eq!(m.m00(), s(v[0]));
    assert_eq!(m.m01(), s(v[1]));
    assert_eq!(m.m02(), s(v[2]));
    assert_eq!(m.m10(), s(v[3]));
    assert_eq!(m.m11(), s(v[4]));
    assert_eq!(m.m12(), s(v[5]));
    assert_eq!(m.m20(), s(v[6]));
    assert_eq!(m.m21(), s(v[7]));
    assert_eq!(m.m22(), s(v[8]));
}

#[test]
fn matrix4_multiply() {
    let m = mat4([
        1, 3, -2, 7,
        2, 0, 3, -5,
        -1, 2, 3, 1,
        1, 3, -4, 7,
    ]);

    let n = mat4([
        9, -3, 5, 6,
        -2, -2, 1, 10,
        -1, 2, 1, 3,
        4, 8, -9, 5,
    ]);

    assert_mat4_entries(&m.mul(n), [
        33, 43, -57, 65,
        -5, -40, 58, -4,
        -12, 13, -9, 28,
        35, 39, -59, 59,
    ]);
}

#[test]
fn matrix4_zero_and_accessors() {
    assert_mat4_entries(&Mat4::zero(), [0; 16]);
    let m = mat4([1, 2, 3, 4, 5, 6, 7, 8, 9, 10, 11, 12, 13, 14, 15, 16]);
    assert_mat4_entries(&m, [1, 2, 3, 4, 5, 6, 7, 8, 9, 10, 11, 12, 13, 14, 15, 16]);
}

#[test]
fn matrix3_multiply() {
    let a = mat3([1, 2, 0, 0, 1, 1, 1, 0, 1]);
    let b = mat3([2, 1, 1, 1, 0, 1, 0, 1, 1]);
    assert_mat3_entries(&a.mul(b), [4, 1, 3, 1, 1, 2, 2, 2, 2]);
}

#[test]
fn matrix3_zero_and_accessors() {
    assert_mat3_entries(&Mat3::zero(), [0; 9]);
    let m = mat3([1, 2, 3, 4, 5, 6, 7, 8, 9]);
    assert_mat3_entries(&m, [1, 2, 3, 4, 5, 6, 7, 8, 9]);
}

#[test]
fn matrix3_multiply_fractions() {
    let h = Scalar::new(1, 2);
    let a = Mat3::new(h, h, h, h, h, h, h, h, h);
    let p = a.mul(a);
    assert_eq!(p.m00(), Scalar::new(3, 4));
    assert_eq!(p.m12(), Scalar::new(3, 4));
}

#[test]
fn matrix3_from_quat_half_turn() {
    // The unit quaternion (0, 1, 0, 0) is a half turn about the x axis.
    let q = Quat::new(s(0), s(1), s(0), s(0));
    assert_mat3_entries(&Mat3::from_quat(q), [1, 0, 0, 0, -1, 0, 0, 0, -1]);
}

#[test]
fn quat_and_matrix_rotation_agree() {
    // Rotating through the quaternion and through its matrix give the same
    // exact result.
    let q = Quat::new(s(0), s(1), s(0), s(0));
    let v = Vec3::new(s(1), s(2), s(3));
    let by_quat = q.rotate_vec3(v);
    let by_matrix = v.apply_rot_mat3(Mat3::from_quat(q));
    assert_eq!(by_quat, by_matrix);
    assert_eq!(by_quat, Vec3::new(s(1), s(-2), s(-3)));
}

#[test]
fn quat_and_matrix_rotation_agree_third_turn() {
    let h = Scalar::new(1, 2);
    let q = Quat::new(h, h, h, h);
    let v = Vec3::new(s(1), s(2), s(3));
    assert_eq!(q.rotate_vec3(v), v.apply_rot_mat3(Mat3::from_quat(q)));
}

#[test]
fn rodrigues_quarter_turn_about_z() {
    // cos = 0, sin = 1: a quarter turn about the z axis.
    let m = Mat3::new_from_cos_sin_axis(s(0), s(1), Vec3::unit_z());
    assert_mat3_entries(&m, [0, -1, 0, 1, 0, 0, 0, 0, 1]);
    let v = Vec3::new(s(1), s(2), s(3));
    assert_eq!(v.apply_rot_mat3(m), Vec3::new(s(-2), s(1), s(3)));
}

#[test]
fn rodrigues_half_turn_about_y() {
    // cos = -1, sin = 0: a half turn about the y axis.
    let axis = Vec3::new(s(0), s(1), s(0));
    let m = Mat3::new_from_cos_sin_axis(s(-1), s(0), axis);
    assert_mat3_entries(&m, [-1, 0, 0, 0, 1, 0, 0, 0, -1]);
    let v = Vec3::new(s(1), s(2), s(3));
    assert_eq!(v.apply_rot_mat3(m), Vec3::new(s(-1), s(2), s(-3)));
}

#[test]
fn rodrigues_matches_quaternion_half_turn() {
    // A half turn about x built by Rodrigues' formula equals the matrix of
    // the corresponding unit quaternion.
    let m = Mat3::new_from_cos_sin_axis(s(-1), s(0), Vec3::unit_x());
    let q = Quat::new(s(0), s(1), s(0), s(0));
    let n = Mat3::from_quat(q);
    assert_mat3_entries(&m, [1, 0, 0, 0, -1, 0, 0, 0, -1]);
    assert_mat3_entries(&n, [1, 0, 0, 0, -1, 0, 0, 0, -1]);
}

#[test]
fn matrix4_multiply_fractions() {
    let h = Scalar::new(1, 2);
    let m = Mat4::new(h, h, h, h, h, h, h, h, h, h, h, h, h, h, h, h);
    let p = m.mul(m);
    assert_eq!(p.m00(), Scalar::from_int(1));
    assert_eq!(p.m23(), Scalar::from_int(1));
    assert_eq!(p.m31(), Scalar::new(4, 4));
}

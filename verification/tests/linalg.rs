use webgl_thing::scalar::Scalar;
use webgl_thing::vec_lib::mat2::Mat2f;
use webgl_thing::vec_lib::mat3::Mat3f;
use webgl_thing::vec_lib::mat4::Mat4f;
use webgl_thing::vec_lib::quat::Quat;
use webgl_thing::vec_lib::vec2::Vec2f;
use webgl_thing::vec_lib::vec3::Vec3f;
use webgl_thing::vec_lib::vec4::Vec4f;

fn s(x: f32) -> Scalar {
    Scalar::from_bits(x.to_bits())
}

fn f(x: Scalar) -> f32 {
    f32::from_bits(x.to_bits())
}

fn v3(x: f32, y: f32, z: f32) -> Vec3f {
    Vec3f::new(s(x), s(y), s(z))
}

fn m4(vals: [f32; 16]) -> Mat4f {
    let mut out = [s(0.0); 16];
    let mut i = 0;
    while i < 16 {
        out[i] = s(vals[i]);
        i += 1;
    }
    Mat4f::new(out)
}

fn sample_mat4() -> Mat4f {
    m4([
        0.5, -1.25, 3.0, 4.0, 2.0, 0.75, -0.5, 1.5, -3.5, 2.25, 1.0, -0.125, 0.25, 6.0, -2.0, 1.0,
    ])
}

#[test]
fn vec3_add_matches_hardware_exactly() {
    let a = v3(1.5, 2.5, 3.5);
    let b = v3(4.25, -5.0, 6.75);
    let r = a.add(&b);
    assert_eq!(r.x.bits, (1.5f32 + 4.25f32).to_bits());
    assert_eq!(r.y.bits, (2.5f32 + -5.0f32).to_bits());
    assert_eq!(r.z.bits, (3.5f32 + 6.75f32).to_bits());
}

#[test]
fn vec3_sub_and_scale_match_hardware_exactly() {
    let a = v3(0.1, 0.2, 0.3);
    let b = v3(7.0, -0.25, 1.0e-3);
    let d = a.sub(&b);
    assert_eq!(d.x.bits, (0.1f32 - 7.0f32).to_bits());
    assert_eq!(d.y.bits, (0.2f32 - -0.25f32).to_bits());
    assert_eq!(d.z.bits, (0.3f32 - 1.0e-3f32).to_bits());
    let k = a.scale(s(3.7));
    assert_eq!(k.x.bits, (0.1f32 * 3.7f32).to_bits());
    assert_eq!(k.y.bits, (0.2f32 * 3.7f32).to_bits());
    assert_eq!(k.z.bits, (0.3f32 * 3.7f32).to_bits());
}

#[test]
fn vec3_dot_matches_hardware_exactly() {
    let a = v3(1.5, 2.5, 3.5);
    let b = v3(4.0, 5.0, 6.0);
    let expected = 1.5f32 * 4.0 + 2.5f32 * 5.0 + 3.5f32 * 6.0;
    assert_eq!(a.dot(&b).bits, expected.to_bits());
}

#[test]
fn vec3_cross_matches_hardware_exactly() {
    let a = v3(1.0, 2.0, 3.0);
    let b = v3(-4.0, 5.5, 0.25);
    let c = a.cross(&b);
    assert_eq!(c.x.bits, (2.0f32 * 0.25 - 3.0f32 * 5.5).to_bits());
    assert_eq!(c.y.bits, (3.0f32 * -4.0 - 1.0f32 * 0.25).to_bits());
    assert_eq!(c.z.bits, (1.0f32 * 5.5 - 2.0f32 * -4.0).to_bits());
}

#[test]
fn vec3_length_uses_exact_square_root() {
    let a = v3(3.0, 4.0, 0.0);
    assert_eq!(a.length().bits, 5.0f32.to_bits());
    assert_eq!(a.squared_length().bits, 25.0f32.to_bits());
}

#[test]
fn vec3_normalize_matches_hardware_exactly() {
    let a = v3(3.0, 4.0, 0.0);
    let n = a.normalize();
    let inv = 1.0f32 / 5.0f32;
    assert_eq!(n.x.bits, (3.0f32 * inv).to_bits());
    assert_eq!(n.y.bits, (4.0f32 * inv).to_bits());
    assert_eq!(n.z.bits, (0.0f32 * inv).to_bits());
}

#[test]
fn normalize_yields_unit_length() {
    // |normalize(v)| stays within 1e-5 of one for nonzero vectors.
    let cases = [
        v3(3.0, 4.0, 0.0),
        v3(0.001, -0.002, 0.0005),
        v3(100.0, -250.0, 375.0),
        v3(1.0, 1.0, 1.0),
    ];
    for v in cases.iter() {
        let n = v.normalize();
        assert!((f(n.length()) - 1.0).abs() < 1e-5);
    }
    let v2 = Vec2f::new(s(-7.5), s(2.25)).normalize();
    assert!((f(v2.length()) - 1.0).abs() < 1e-5);
    let v4 = Vec4f::new(s(1.0), s(-2.0), s(3.0), s(-4.0)).normalize();
    assert!((f(v4.length()) - 1.0).abs() < 1e-5);
}

#[test]
fn vec3_negate_flips_signs_exactly() {
    let a = v3(1.5, -0.0, 3.25);
    let n = a.negate();
    assert_eq!(n.x.bits, (-1.5f32).to_bits());
    assert_eq!(n.y.bits, 0.0f32.to_bits());
    assert_eq!(n.z.bits, (-3.25f32).to_bits());
}

#[test]
fn swizzles_pick_components() {
    let a = Vec4f::new(s(1.0), s(2.0), s(3.0), s(4.0));
    let zyx = a.zyx();
    assert_eq!(f(zyx.x), 3.0);
    assert_eq!(f(zyx.y), 2.0);
    assert_eq!(f(zyx.z), 1.0);
    let wz = a.wz();
    assert_eq!(f(wz.x), 4.0);
    assert_eq!(f(wz.y), 3.0);
    let b = v3(5.0, 6.0, 7.0);
    assert_eq!(f(b.zy().x), 7.0);
    assert_eq!(f(b.to_vec4(s(8.0)).w), 8.0);
}

#[test]
fn mat4_multiply_identity_leaves_matrix() {
    // M * I and I * M stay within 1e-5 of M, element by element.
    let m = sample_mat4();
    let id = Mat4f::identity();
    let mi = m.multiply_mat4(&id);
    let im = id.multiply_mat4(&m);
    for i in 0..16 {
        assert!((f(mi.vals[i]) - f(m.vals[i])).abs() < 1e-5);
        assert!((f(im.vals[i]) - f(m.vals[i])).abs() < 1e-5);
    }
}

#[test]
fn mat2_and_mat3_multiply_identity_leaves_matrix() {
    let m2 = Mat2f::new([s(1.5), s(-2.0), s(0.25), s(3.0)]);
    let p2 = m2.multiply_mat2(&Mat2f::identity());
    let q2 = Mat2f::identity().multiply_mat2(&m2);
    for i in 0..4 {
        assert!((f(p2.vals[i]) - f(m2.vals[i])).abs() < 1e-5);
        assert!((f(q2.vals[i]) - f(m2.vals[i])).abs() < 1e-5);
    }
    let m3 = Mat3f::new(
        [s(1.0), s(2.0), s(-3.0), s(0.5), s(4.0), s(1.25), s(-0.75), s(2.5), s(6.0)],
    );
    let p3 = m3.multiply_mat3(&Mat3f::identity());
    let q3 = Mat3f::identity().multiply_mat3(&m3);
    for i in 0..9 {
        assert!((f(p3.vals[i]) - f(m3.vals[i])).abs() < 1e-5);
        assert!((f(q3.vals[i]) - f(m3.vals[i])).abs() < 1e-5);
    }
}

#[test]
fn mat4_inverse_times_matrix_is_identity() {
    // M * inverse(M) stays close to the identity for an invertible M.
    let m = Mat4f::identity().translate(&v3(1.0, 2.0, 3.0)).rotate3d(&v3(0.0, 1.0, 0.0), s(0.7));
    let prod = m.multiply_mat4(&m.inverse());
    let id = Mat4f::identity();
    for i in 0..16 {
        assert!((f(prod.vals[i]) - f(id.vals[i])).abs() < 1e-4);
    }
}

#[test]
fn mat2_and_mat3_inverse_times_matrix_is_identity() {
    let m2 = Mat2f::new([s(2.0), s(1.0), s(-1.5), s(3.0)]);
    let p2 = m2.multiply_mat2(&m2.inverse());
    let id2 = Mat2f::identity();
    for i in 0..4 {
        assert!((f(p2.vals[i]) - f(id2.vals[i])).abs() < 1e-5);
    }
    let m3 = Mat3f::new(
        [s(2.0), s(0.5), s(-1.0), s(0.0), s(3.0), s(1.5), s(1.0), s(-0.5), s(2.5)],
    );
    let p3 = m3.multiply_mat3(&m3.inverse());
    let id3 = Mat3f::identity();
    for i in 0..9 {
        assert!((f(p3.vals[i]) - f(id3.vals[i])).abs() < 1e-5);
    }
}

#[test]
fn transpose_twice_is_identity_exactly() {
    // transpose(transpose(M)) == M, bit for bit.
    let m = sample_mat4();
    let t2 = m.transpose().transpose();
    for i in 0..16 {
        assert_eq!(t2.vals[i].bits, m.vals[i].bits);
    }
    let m2 = Mat2f::new([s(1.0), s(2.0), s(3.0), s(4.0)]);
    let m2t2 = m2.transpose().transpose();
    for i in 0..4 {
        assert_eq!(m2t2.vals[i].bits, m2.vals[i].bits);
    }
    let m3 = Mat3f::new(
        [s(1.0), s(2.0), s(3.0), s(4.0), s(5.0), s(6.0), s(7.0), s(8.0), s(9.0)],
    );
    let m3t2 = m3.transpose().transpose();
    for i in 0..9 {
        assert_eq!(m3t2.vals[i].bits, m3.vals[i].bits);
    }
}

#[test]
fn mat4_determinant_of_identity_is_one() {
    assert_eq!(f(Mat4f::identity().determinant()), 1.0);
    let m2 = Mat2f::new([s(2.0), s(1.0), s(-1.5), s(3.0)]);
    assert_eq!(f(m2.determinant()), 2.0 * 3.0 - 1.0 * -1.5);
    let id3 = Mat3f::identity();
    assert_eq!(f(id3.determinant()), 1.0);
}

#[test]
fn look_at_same_point_is_identity_exactly() {
    // look_at(p, p, up) is the identity with no NaN entries, for any p.
    let p = v3(12.5, -3.75, 0.125);
    let up = v3(0.0, 1.0, 0.0);
    let m = Mat4f::look_at(&p, &p, &up);
    let id = Mat4f::identity();
    for i in 0..16 {
        assert!(!f(m.vals[i]).is_nan());
        assert_eq!(m.vals[i].bits, id.vals[i].bits);
    }
    // The two zeros compare equal, so a position differing from the
    // target only in the sign of a zero still takes the identity branch.
    let pz = v3(0.0, -0.0, 5.0);
    let tz = v3(-0.0, 0.0, 5.0);
    let mz = Mat4f::look_at(&pz, &tz, &up);
    for i in 0..16 {
        assert_eq!(mz.vals[i].bits, id.vals[i].bits);
    }
}

#[test]
fn perspective_maps_axis_point_into_ndc() {
    // perspective(45 degrees, 4/3, 0.1, 1000) applied to (0,0,-5,1):
    // after perspective division the NDC z lies in [-1, 1] and x and y
    // are both zero.
    let proj = Mat4f::perspective(s(45.0), s(4.0 / 3.0), s(0.1), s(1000.0));
    let p = Vec4f::new(s(0.0), s(0.0), s(-5.0), s(1.0));
    let clip = proj.multiply_vec4(&p);
    let w = f(clip.w);
    assert!(w > 0.0);
    let ndc_z = f(clip.z) / w;
    assert!((-1.0..=1.0).contains(&ndc_z));
    assert_eq!(f(clip.x), 0.0);
    assert_eq!(f(clip.y), 0.0);
}

#[test]
fn quat_from_axis_angle_matches_reference_functions() {
    let axis = v3(0.0, 0.0, 1.0);
    let radians = 1.5f32;
    let q = Quat::from_axis_angle(&axis, s(radians));
    let sin = libm::sinf(radians * 0.5);
    let cos = libm::cosf(radians * 0.5);
    assert_eq!(q.get(0).bits, (0.0f32 * sin).to_bits());
    assert_eq!(q.get(1).bits, (0.0f32 * sin).to_bits());
    assert_eq!(q.get(2).bits, (1.0f32 * sin).to_bits());
    assert_eq!(q.get(3).bits, cos.to_bits());
}

#[test]
fn quat_conjugate_negates_vector_part_exactly() {
    let q = Quat::new([s(1.0), s(-2.0), s(3.0), s(4.0)]);
    let c = q.conjugate();
    assert_eq!(c.get(0).bits, (-1.0f32).to_bits());
    assert_eq!(c.get(1).bits, 2.0f32.to_bits());
    assert_eq!(c.get(2).bits, (-3.0f32).to_bits());
    assert_eq!(c.get(3).bits, 4.0f32.to_bits());
}

#[test]
fn quat_inverse_and_normalize_guard_zero() {
    let zero = Quat::new([s(0.0), s(0.0), s(0.0), s(0.0)]);
    let inv = zero.inverse();
    let nrm = zero.normalize();
    for i in 0..4 {
        assert_eq!(inv.get(i).bits, 0.0f32.to_bits());
        assert_eq!(nrm.get(i).bits, 0.0f32.to_bits());
    }
}

#[test]
fn quat_normalize_yields_unit_dot() {
    let q = Quat::new([s(1.0), s(2.0), s(3.0), s(4.0)]).normalize();
    let d = f(q.dot(&q));
    assert!((d - 1.0).abs() < 1e-5);
}

#[test]
fn mat4_translate_moves_fourth_column() {
    let m = Mat4f::identity().translate(&v3(1.0, 2.0, 3.0));
    assert_eq!(f(m.vals[3]), 1.0);
    assert_eq!(f(m.vals[7]), 2.0);
    assert_eq!(f(m.vals[11]), 3.0);
    assert_eq!(f(m.vals[15]), 1.0);
    assert_eq!(f(m.vals[0]), 1.0);
}

#[test]
fn orthographic_diagonal_is_scaled() {
    let m = Mat4f::orthographic(s(-2.0), s(2.0), s(-1.0), s(1.0), s(0.0), s(10.0));
    assert_eq!(f(m.vals[0]), 2.0f32 / 4.0);
    assert_eq!(f(m.vals[5]), 2.0f32 / 2.0);
    assert_eq!(f(m.vals[10]), -2.0f32 / 10.0);
    assert_eq!(f(m.vals[15]), 1.0);
}

#[test]
fn perspective_top_uses_reference_tangent() {
    // The first diagonal entry is 2*near / (right - left) with
    // right = near * tan(fov * pi / 360) * aspect; replaying the same
    // arithmetic against the reference tangent must agree bit for bit.
    let proj = Mat4f::perspective(s(90.0), s(1.0), s(1.0), s(10.0));
    let top = 1.0f32 * libm::tanf((90.0f32 * std::f32::consts::PI) / 360.0f32);
    let right = top * 1.0f32;
    let expected = (1.0f32 * 2.0f32) / (right - -right);
    assert_eq!(proj.vals[0].bits, expected.to_bits());
}

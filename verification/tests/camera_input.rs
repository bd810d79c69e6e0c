use webgl_thing::input::InputManager;
use webgl_thing::scalar::Scalar;
use webgl_thing::vec_lib::vec3::Vec3f;
use webgl_thing::vec_lib::vec4::Vec4f;
use webgl_thing::webgl_utils::camera::FPSCamera;

fn s(x: f32) -> Scalar {
    Scalar::from_bits(x.to_bits())
}

fn f(x: Scalar) -> f32 {
    f32::from_bits(x.to_bits())
}

fn v3(x: f32, y: f32, z: f32) -> Vec3f {
    Vec3f::new(s(x), s(y), s(z))
}

fn default_camera() -> FPSCamera {
    FPSCamera::new(
        v3(0.0, 0.0, 0.0),
        v3(0.0, 0.0, 1.0),
        v3(0.0, 1.0, 0.0),
        s(45.0),
        s(1280.0 / 960.0),
        s(0.1),
        s(1000.0),
    )
}

#[test]
fn camera_construction_builds_expected_basis() {
    let cam = default_camera();
    assert_eq!(f(cam.forward.x), 0.0);
    assert_eq!(f(cam.forward.y), 0.0);
    assert_eq!(f(cam.forward.z), 1.0);
    assert_eq!(f(cam.up.x), 0.0);
    assert_eq!(f(cam.up.y), 1.0);
    assert_eq!(f(cam.up.z), 0.0);
    assert_eq!(f(cam.target_dist), 1.0);
    let t = cam.target();
    assert_eq!(f(t.x), 0.0);
    assert_eq!(f(t.y), 0.0);
    assert_eq!(f(t.z), 1.0);
}

#[test]
fn camera_basis_stays_orthonormal_under_many_rotations() {
    // After thousands of small rotations about alternating axes the
    // basis dot products stay within 1e-3 of zero and the lengths within
    // 1e-3 of one.
    let mut cam = default_camera();
    let theta = s(0.001);
    for _ in 0..1500 {
        let up_initial = cam.up_initial();
        cam.rotate(&up_initial, theta);
        let right = cam.right();
        cam.rotate(&right, theta);
    }
    let fwd = cam.forward();
    let up = cam.up();
    let right = cam.right();
    assert!(f(fwd.dot(&up)).abs() < 1e-3);
    assert!(f(up.dot(&right)).abs() < 1e-3);
    assert!(f(right.dot(&fwd)).abs() < 1e-3);
    assert!((f(fwd.length()) - 1.0).abs() < 1e-3);
    assert!((f(up.length()) - 1.0).abs() < 1e-3);
    assert!((f(right.length()) - 1.0).abs() < 1e-3);
}

#[test]
fn camera_rotate_moves_basis_not_eye() {
    let mut cam = default_camera();
    let axis = v3(0.0, 1.0, 0.0);
    cam.rotate(&axis, s(0.5));
    assert_eq!(f(cam.position().x), 0.0);
    assert_eq!(f(cam.position().y), 0.0);
    assert_eq!(f(cam.position().z), 0.0);
    // Forward tilted away from the z axis by the yaw.
    assert!((f(cam.forward().z) - 0.5f32.cos()).abs() < 1e-4);
}

#[test]
fn view_matrix_maps_target_onto_view_axis() {
    // Camera at (0,0,-1) looking at the origin with y up: the view
    // matrix sends the target to (0, 0, d, 1) for a depth d whose
    // magnitude is the eye-target distance; under this look-at
    // convention the camera looks down the negative z axis, so d is -1.
    let cam = FPSCamera::new(
        v3(0.0, 0.0, -1.0),
        v3(0.0, 0.0, 0.0),
        v3(0.0, 1.0, 0.0),
        s(45.0),
        s(4.0 / 3.0),
        s(0.1),
        s(1000.0),
    );
    let view = cam.view_matrix();
    let origin = Vec4f::new(s(0.0), s(0.0), s(0.0), s(1.0));
    let mapped = view.multiply_vec4(&origin);
    assert_eq!(f(mapped.x), 0.0);
    assert_eq!(f(mapped.y), 0.0);
    assert_eq!(f(mapped.w), 1.0);
    assert_eq!(f(mapped.z), -1.0);
}

#[test]
fn key_down_sets_flag_and_poll_translates() {
    let mut input = InputManager::new();
    let prevent = input.key_down(&String::from("w"));
    assert!(!prevent);
    // A large stall is clamped to one time unit.
    input.poll_keys(s(5000.0));
    let expected = 0.0f32 + 1.0f32 * ((1.0f32 / 30.0f32) * 1.0f32);
    assert_eq!(input.position().z.bits, expected.to_bits());
    assert_eq!(f(input.position().x), 0.0);
    assert_eq!(f(input.position().y), 0.0);
}

#[test]
fn key_up_clears_flag() {
    let mut input = InputManager::new();
    input.key_down(&String::from("d"));
    input.key_up(&String::from("d"));
    input.poll_keys(s(0.5));
    assert_eq!(f(input.position().x), 0.0);
    assert_eq!(f(input.position().y), 0.0);
    assert_eq!(f(input.position().z), 0.0);
}

#[test]
fn space_key_requests_default_suppression() {
    let mut input = InputManager::new();
    assert!(input.key_down(&String::from(" ")));
    assert!(!input.key_down(&String::from("shift")));
    assert!(!input.key_down(&String::from("q")));
    input.poll_keys(s(0.3));
    // Space ascends along up, shift descends: both held, they cancel
    // except for rounding, and no other key moved the camera.
    assert_eq!(f(input.position().x), 0.0);
    assert!(f(input.position().y).abs() < 1e-6);
    assert_eq!(f(input.position().z), 0.0);
}

#[test]
fn unknown_key_changes_nothing() {
    let mut input = InputManager::new();
    input.key_down(&String::from("x"));
    input.poll_keys(s(0.5));
    assert_eq!(f(input.position().x), 0.0);
    assert_eq!(f(input.position().y), 0.0);
    assert_eq!(f(input.position().z), 0.0);
}

#[test]
fn mouse_move_rotates_only_while_button_held() {
    let mut input = InputManager::new();
    let before = input.view_matrix();
    input.mouse_move(s(10.0), s(-4.0), 0);
    let unchanged = input.view_matrix();
    for i in 0..16 {
        assert_eq!(unchanged.vals[i].bits, before.vals[i].bits);
    }
    input.mouse_move(s(10.0), s(-4.0), 1);
    let changed = input.view_matrix();
    let mut any_diff = false;
    for i in 0..16 {
        if changed.vals[i].bits != before.vals[i].bits {
            any_diff = true;
        }
    }
    assert!(any_diff);
}

#[test]
fn poll_with_short_interval_scales_by_elapsed() {
    let mut input = InputManager::new();
    input.key_down(&String::from("s"));
    input.poll_keys(s(0.6));
    let delta_mod = 0.6f32.min(1.0) / 30.0f32;
    let expected = 0.0f32 + 1.0f32 * (-delta_mod * 1.0f32);
    assert_eq!(input.position().z.bits, expected.to_bits());
}

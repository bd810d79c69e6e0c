use webgl_thing::scalar::Scalar;
use webgl_thing::vec_lib::mat4::Mat4f;

fn s(x: f32) -> Scalar {
    Scalar::from_bits(x.to_bits())
}

// This runs a unit test in native Rust, so it can only use Rust APIs.
#[test]
fn rust_test() {
    assert_eq!(1, 1);
}

#[test]
fn mat4_multiply() {
    let mat1 = Mat4f::perspective(s(10.0f32), s(1.0f32), s(2.0f32), s(1000f32));
    let _ = mat1;
}

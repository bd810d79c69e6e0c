//! A first-person camera: an eye position and an orthonormal
//! forward/up/right basis, with view and projection matrix derivation.
//!
//! Rotation is applied as one rigid transform to all three basis vectors
//! simultaneously, never recomputed independently, so that the basis stays
//! consistent from call to call.

use vstd::prelude::*;
use crate::scalar::Scalar;
use crate::vec_lib::mat4::Mat4f;
use crate::vec_lib::vec3::Vec3f;

verus! {

/// A first-person camera: eye position, orthonormal basis, the distance
/// to the synthesized target, and the frustum parameters.
#[derive(Clone, Copy, Debug)]
pub struct FPSCamera {
    pub eye: Vec3f,
    pub forward: Vec3f,
    pub up: Vec3f,
    pub right: Vec3f,
    pub target_dist: Scalar,
    pub fov: Scalar,
    pub aspect: Scalar,
    pub near: Scalar,
    pub far: Scalar,
    pub forward_initial: Vec3f,
    pub up_initial: Vec3f,
}

impl FPSCamera {
    /// The camera constructed from an eye/target/up triple and the
    /// frustum parameters, at the spec level: `forward` points from the
    /// eye to the target (the normalized eye-minus-target direction,
    /// negated), `right` completes the basis, `up` is the given up
    /// direction normalized, and the target distance is the length of
    /// the eye-to-target offset.
    pub open spec fn spec_new(
        pos: Vec3f,
        target: Vec3f,
        up_dir: Vec3f,
        fov: Scalar,
        aspect: Scalar,
        near: Scalar,
        far: Scalar,
    ) -> FPSCamera {
        let forward = Vec3f::spec_negate(Vec3f::spec_normalize(Vec3f::spec_sub(pos, target)));
        let right = Vec3f::spec_negate(Vec3f::spec_normalize(Vec3f::spec_cross(up_dir, forward)));
        FPSCamera {
            eye: pos,
            forward: forward,
            up: Vec3f::spec_normalize(up_dir),
            right: right,
            target_dist: Vec3f::spec_length(Vec3f::spec_sub(pos, target)),
            fov: fov,
            aspect: aspect,
            near: near,
            far: far,
            forward_initial: forward,
            up_initial: Vec3f::spec_normalize(up_dir),
        }
    }

    /// The synthesized target, at the spec level:
    /// `eye + forward * target_dist`.
    pub open spec fn spec_target(c: FPSCamera) -> Vec3f {
        Vec3f::spec_add(c.eye, Vec3f::spec_scale(c.forward, c.target_dist))
    }

    /// The rigid rotation a `rotate` call applies, at the spec level: the
    /// Rodrigues rotation about the normalized axis, embedded in a 4x4
    /// identity matrix.
    pub open spec fn spec_rotation_matrix(axis: Vec3f, radians: Scalar) -> Seq<Scalar> {
        Mat4f::spec_rotate3d(Mat4f::spec_identity(), Vec3f::spec_normalize(axis), radians)
    }

    /// The camera after a `translate` call, at the spec level: only the
    /// eye moves.
    pub open spec fn spec_translate(c: FPSCamera, vec: Vec3f) -> FPSCamera {
        FPSCamera { eye: Vec3f::spec_add(c.eye, vec), ..c }
    }

    /// The camera after a `rotate` call, at the spec level: one rigid
    /// rotation applied to forward, up and right; everything else is
    /// unchanged.
    pub open spec fn spec_rotate(c: FPSCamera, axis: Vec3f, radians: Scalar) -> FPSCamera {
        FPSCamera {
            forward: Mat4f::spec_multiply_vec3(
                Self::spec_rotation_matrix(axis, radians),
                c.forward,
            ),
            up: Mat4f::spec_multiply_vec3(Self::spec_rotation_matrix(axis, radians), c.up),
            right: Mat4f::spec_multiply_vec3(Self::spec_rotation_matrix(axis, radians), c.right),
            ..c
        }
    }

    /// Builds a camera from an eye position, a target point, an up
    /// direction, and the frustum parameters.
    pub fn new(
        pos: Vec3f,
        target: Vec3f,
        up_dir: Vec3f,
        fov: Scalar,
        aspect: Scalar,
        near: Scalar,
        far: Scalar,
    ) -> (r: Self)
        ensures
            r == Self::spec_new(pos, target, up_dir, fov, aspect, near, far),
    {
        let eye = pos;
        let forward = pos.sub(&target).normalize().negate();
        let right = up_dir.cross(&forward).normalize().negate();
        let target_dist = eye.sub(&target).length();
        FPSCamera {
            eye,
            forward,
            up: up_dir.normalize(),
            right,
            target_dist,
            fov,
            aspect,
            near,
            far,
            forward_initial: forward,
            up_initial: up_dir.normalize(),
        }
    }

    /// The synthesized target: `eye + forward * target_dist`.
    pub fn target(&self) -> (r: Vec3f)
        ensures
            r == Self::spec_target(*self),
    {
        self.eye.add(&self.forward.scale(self.target_dist))
    }

    /// Moves the eye by `vec`; the basis does not change.
    pub fn translate(&mut self, vec: &Vec3f)
        ensures
            *final(self) == Self::spec_translate(*old(self), *vec),
    {
        self.eye = self.eye.add(vec);
    }

    /// Rotates the basis about `axis` (normalized first) by `radians`:
    /// one rigid rotation matrix is built and applied to forward, up and
    /// right simultaneously; the eye does not move.
    pub fn rotate(&mut self, axis: &Vec3f, radians: Scalar)
        ensures
            *final(self) == Self::spec_rotate(*old(self), *axis, radians),
    {
        let norm_axis = axis.normalize();
        let rot_mat = Mat4f::identity().rotate3d(&norm_axis, radians);
        self.forward = rot_mat.multiply_vec3(&self.forward);
        self.up = rot_mat.multiply_vec3(&self.up);
        self.right = rot_mat.multiply_vec3(&self.right);
    }

    /// The eye position.
    pub fn position(&self) -> (r: Vec3f)
        ensures
            r == self.eye,
    {
        self.eye
    }

    /// The forward basis vector.
    pub fn forward(&self) -> (r: Vec3f)
        ensures
            r == self.forward,
    {
        self.forward
    }

    /// The right basis vector.
    pub fn right(&self) -> (r: Vec3f)
        ensures
            r == self.right,
    {
        self.right
    }

    /// The up basis vector.
    pub fn up(&self) -> (r: Vec3f)
        ensures
            r == self.up,
    {
        self.up
    }

    /// The up direction the camera was constructed with (normalized).
    pub fn up_initial(&self) -> (r: Vec3f)
        ensures
            r == self.up_initial,
    {
        self.up_initial
    }

    /// The look-at view matrix from the eye, the synthesized target and
    /// the current up vector.
    pub fn view_matrix(&self) -> (r: Mat4f)
        ensures
            r.vals@ =~= Mat4f::spec_look_at(self.eye, Self::spec_target(*self), self.up),
    {
        Mat4f::look_at(&self.eye, &self.target(), &self.up)
    }

    /// The perspective projection matrix from the stored frustum
    /// parameters.
    pub fn proj_matrix(&self) -> (r: Mat4f)
        ensures
            r.vals@ =~= Mat4f::spec_perspective(self.fov, self.aspect, self.near, self.far),
    {
        Mat4f::perspective(self.fov, self.aspect, self.near, self.far)
    }
}

} // verus!

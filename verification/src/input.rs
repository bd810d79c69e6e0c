//! The input accumulator: held-key flags and pointer-drag handling,
//! applied to the camera.
//!
//! Pointer and keyboard events and the fixed-interval poll timer are
//! delivered by the host; this module holds the decisions. A pointer move
//! rotates the camera only while the primary button is held; key events
//! toggle held flags; each poll applies one translation per held
//! directional key, scaled by the elapsed time (clamped to one unit so a
//! stalled host cannot cause a jump), so that movement speed is
//! independent of the render frame rate.

use vstd::prelude::*;
use crate::scalar::{Scalar, F32_ONE, s_mul, s_div, s_neg, s_min, mul_s, div_s, neg_s, min_s};
use crate::vec_lib::mat4::Mat4f;
use crate::vec_lib::vec3::Vec3f;
use crate::webgl_utils::camera::FPSCamera;

verus! {

broadcast use vstd::array::group_array_axioms;

/// Held-flag index of the forward key.
pub const KEY_W: usize = 0;

/// Held-flag index of the left key.
pub const KEY_A: usize = 1;

/// Held-flag index of the backward key.
pub const KEY_S: usize = 2;

/// Held-flag index of the right key.
pub const KEY_D: usize = 3;

/// Held-flag index of the ascend key (space).
pub const KEY_SPACE: usize = 4;

/// Held-flag index of the descend key (left shift).
pub const KEY_LSHIFT: usize = 5;

/// World units per clamped time unit of movement.
pub const MOVE_SPEED_BITS: u32 = F32_ONE;

/// Radians of camera rotation per pixel of pointer movement
/// (the binary32 value nearest to one hundredth).
pub const ROT_SPEED_BITS: u32 = 0x3C23_D70A;

/// The divisor that turns a clamped elapsed time into a movement step
/// (the binary32 value thirty).
pub const TIME_DIVISOR_BITS: u32 = 0x41F0_0000;

/// Default field of view, in degrees (the binary32 value forty-five).
pub const DEFAULT_FOV_BITS: u32 = 0x4234_0000;

/// Default aspect ratio (the binary32 value nearest to four thirds).
pub const DEFAULT_ASPECT_BITS: u32 = 0x3FAA_AAAB;

/// Default near plane distance (the binary32 value nearest to one tenth).
pub const DEFAULT_NEAR_BITS: u32 = 0x3DCC_CCCD;

/// Default far plane distance (the binary32 value one thousand).
pub const DEFAULT_FAR_BITS: u32 = 0x447A_0000;

/// The camera, the held-key flags, and nothing else: the wall clock that
/// feeds the poll lives with the host.
#[derive(Clone, Copy, Debug)]
pub struct InputManager {
    pub camera: FPSCamera,
    pub keys_down: [bool; 6],
}

impl InputManager {
    /// The camera every manager starts from: at the origin, looking along
    /// the positive z axis with y up, with the default frustum.
    pub open spec fn spec_initial_camera() -> FPSCamera {
        FPSCamera::spec_new(
            Vec3f { x: Scalar { bits: 0 }, y: Scalar { bits: 0 }, z: Scalar { bits: 0 } },
            Vec3f { x: Scalar { bits: 0 }, y: Scalar { bits: 0 }, z: Scalar { bits: F32_ONE } },
            Vec3f { x: Scalar { bits: 0 }, y: Scalar { bits: F32_ONE }, z: Scalar { bits: 0 } },
            Scalar { bits: DEFAULT_FOV_BITS },
            Scalar { bits: DEFAULT_ASPECT_BITS },
            Scalar { bits: DEFAULT_NEAR_BITS },
            Scalar { bits: DEFAULT_FAR_BITS },
        )
    }

    /// A pointer move, at the spec level: while the primary button is
    /// held (bit zero of the button mask), yaw about the initial up axis
    /// by `-dx` and then pitch about the basis right vector as it stands
    /// after that yaw, by `-dy`, both scaled by the rotation speed; with
    /// the button up, nothing.
    pub open spec fn spec_mouse_move(m: InputManager, dx: Scalar, dy: Scalar, buttons: u32) -> InputManager {
        if buttons & 1 == 1 {
            let c1 = FPSCamera::spec_rotate(
                m.camera,
                m.camera.up_initial,
                s_mul(s_neg(dx), Scalar { bits: ROT_SPEED_BITS }),
            );
            let c2 = FPSCamera::spec_rotate(
                c1,
                c1.right,
                s_mul(s_neg(dy), Scalar { bits: ROT_SPEED_BITS }),
            );
            InputManager { camera: c2, ..m }
        } else {
            m
        }
    }

    /// The held-flag index a key name toggles, if any: the lowercased
    /// key strings `w`, `a`, `s`, `d`, `shift` and the space character.
    pub open spec fn spec_key_index(key: Seq<char>) -> Option<usize> {
        if key == "w"@ {
            Some(KEY_W)
        } else if key == "a"@ {
            Some(KEY_A)
        } else if key == "s"@ {
            Some(KEY_S)
        } else if key == "d"@ {
            Some(KEY_D)
        } else if key == "shift"@ {
            Some(KEY_LSHIFT)
        } else if key == " "@ {
            Some(KEY_SPACE)
        } else {
            None
        }
    }

    /// One poll tick, at the spec level: the elapsed time is clamped to
    /// one and divided by the time divisor, and then, in this order, each
    /// held key applies one translation along the current basis: forward
    /// and backward along `forward`, strafing along `right`, ascending
    /// and descending along `up`.
    pub open spec fn spec_poll_keys(m: InputManager, time_delta: Scalar) -> InputManager {
        let delta_mod = s_div(
            s_min(time_delta, Scalar { bits: F32_ONE }),
            Scalar { bits: TIME_DIVISOR_BITS },
        );
        let speed = Scalar { bits: MOVE_SPEED_BITS };
        let c0 = m.camera;
        let c1 = if m.keys_down[KEY_W as int] {
            FPSCamera::spec_translate(c0, Vec3f::spec_scale(c0.forward, s_mul(delta_mod, speed)))
        } else {
            c0
        };
        let c2 = if m.keys_down[KEY_A as int] {
            FPSCamera::spec_translate(
                c1,
                Vec3f::spec_scale(c1.right, s_mul(s_neg(delta_mod), speed)),
            )
        } else {
            c1
        };
        let c3 = if m.keys_down[KEY_S as int] {
            FPSCamera::spec_translate(
                c2,
                Vec3f::spec_scale(c2.forward, s_mul(s_neg(delta_mod), speed)),
            )
        } else {
            c2
        };
        let c4 = if m.keys_down[KEY_D as int] {
            FPSCamera::spec_translate(c3, Vec3f::spec_scale(c3.right, s_mul(delta_mod, speed)))
        } else {
            c3
        };
        let c5 = if m.keys_down[KEY_LSHIFT as int] {
            FPSCamera::spec_translate(
                c4,
                Vec3f::spec_scale(c4.up, s_mul(s_neg(delta_mod), speed)),
            )
        } else {
            c4
        };
        let c6 = if m.keys_down[KEY_SPACE as int] {
            FPSCamera::spec_translate(c5, Vec3f::spec_scale(c5.up, s_mul(delta_mod, speed)))
        } else {
            c5
        };
        InputManager { camera: c6, ..m }
    }

    /// Builds a manager with the initial camera and no key held.
    pub fn new() -> (r: Self)
        ensures
            r.camera == Self::spec_initial_camera(),
            forall|i: int| 0 <= i < 6 ==> !r.keys_down[i],
    {
        let camera = FPSCamera::new(
            Vec3f::new(Scalar { bits: 0 }, Scalar { bits: 0 }, Scalar { bits: 0 }),
            Vec3f::new(Scalar { bits: 0 }, Scalar { bits: 0 }, Scalar { bits: F32_ONE }),
            Vec3f::new(Scalar { bits: 0 }, Scalar { bits: F32_ONE }, Scalar { bits: 0 }),
            Scalar { bits: DEFAULT_FOV_BITS },
            Scalar { bits: DEFAULT_ASPECT_BITS },
            Scalar { bits: DEFAULT_NEAR_BITS },
            Scalar { bits: DEFAULT_FAR_BITS },
        );
        InputManager { camera, keys_down: [false, false, false, false, false, false] }
    }

    /// The camera's projection matrix.
    pub fn proj_matrix(&self) -> (r: Mat4f)
        ensures
            r.vals@ =~= Mat4f::spec_perspective(
                self.camera.fov,
                self.camera.aspect,
                self.camera.near,
                self.camera.far,
            ),
    {
        self.camera.proj_matrix()
    }

    /// The camera's view matrix.
    pub fn view_matrix(&self) -> (r: Mat4f)
        ensures
            r.vals@ =~= Mat4f::spec_look_at(
                self.camera.eye,
                FPSCamera::spec_target(self.camera),
                self.camera.up,
            ),
    {
        self.camera.view_matrix()
    }

    /// The camera's eye position.
    pub fn position(&self) -> (r: Vec3f)
        ensures
            r == self.camera.eye,
    {
        self.camera.position()
    }

    /// Applies one pointer-move sample: `dx` and `dy` are the pointer
    /// deltas and `buttons` the held-button mask.
    pub fn mouse_move(&mut self, dx: Scalar, dy: Scalar, buttons: u32)
        ensures
            *final(self) == Self::spec_mouse_move(*old(self), dx, dy, buttons),
    {
        if buttons & 1 == 1 {
            let up_initial = self.camera.up_initial();
            self.camera.rotate(
                &up_initial,
                mul_s(neg_s(dx), Scalar { bits: ROT_SPEED_BITS }),
            );
            let right = self.camera.right();
            self.camera.rotate(&right, mul_s(neg_s(dy), Scalar { bits: ROT_SPEED_BITS }));
        }
    }

    /// Records a key press. Returns whether the host should suppress the
    /// key's default action, which it must for the space key (it would
    /// scroll the page).
    pub fn key_down(&mut self, key: &String) -> (prevent_default: bool)
        ensures
            match Self::spec_key_index(key@) {
                Some(i) => final(self).keys_down@ == old(self).keys_down@.update(i as int, true)
                    && final(self).camera == old(self).camera,
                None => *final(self) == *old(self),
            },
            prevent_default == (key@ == " "@),
    {
        proof {
            reveal_strlit("w");
            reveal_strlit("a");
            reveal_strlit("s");
            reveal_strlit("d");
            reveal_strlit("shift");
            reveal_strlit(" ");
            assert("w"@[0] == 'w');
            assert(" "@[0] == ' ');
        }
        let mut prevent_default = false;
        if key.eq(&"w".to_owned()) {
            self.keys_down[KEY_W] = true;
        } else if key.eq(&"a".to_owned()) {
            self.keys_down[KEY_A] = true;
        } else if key.eq(&"s".to_owned()) {
            self.keys_down[KEY_S] = true;
        } else if key.eq(&"d".to_owned()) {
            self.keys_down[KEY_D] = true;
        } else if key.eq(&"shift".to_owned()) {
            self.keys_down[KEY_LSHIFT] = true;
        } else if key.eq(&" ".to_owned()) {
            self.keys_down[KEY_SPACE] = true;
            prevent_default = true;
        }
        prevent_default
    }

    /// Records a key release.
    pub fn key_up(&mut self, key: &String)
        ensures
            match Self::spec_key_index(key@) {
                Some(i) => final(self).keys_down@ == old(self).keys_down@.update(i as int, false)
                    && final(self).camera == old(self).camera,
                None => *final(self) == *old(self),
            },
    {
        if key.eq(&"w".to_owned()) {
            self.keys_down[KEY_W] = false;
        } else if key.eq(&"a".to_owned()) {
            self.keys_down[KEY_A] = false;
        } else if key.eq(&"s".to_owned()) {
            self.keys_down[KEY_S] = false;
        } else if key.eq(&"d".to_owned()) {
            self.keys_down[KEY_D] = false;
        } else if key.eq(&"shift".to_owned()) {
            self.keys_down[KEY_LSHIFT] = false;
        } else if key.eq(&" ".to_owned()) {
            self.keys_down[KEY_SPACE] = false;
        }
    }

    /// Applies one poll tick: `time_delta` is the wall-clock time since
    /// the previous poll, in the host's time unit.
    pub fn poll_keys(&mut self, time_delta: Scalar)
        ensures
            *final(self) == Self::spec_poll_keys(*old(self), time_delta),
    {
        let delta_mod = div_s(
            min_s(time_delta, Scalar { bits: F32_ONE }),
            Scalar { bits: TIME_DIVISOR_BITS },
        );
        let speed = Scalar { bits: MOVE_SPEED_BITS };
        if self.keys_down[KEY_W] {
            let step = self.camera.forward().scale(mul_s(delta_mod, speed));
            self.camera.translate(&step);
        }
        if self.keys_down[KEY_A] {
            let step = self.camera.right().scale(mul_s(neg_s(delta_mod), speed));
            self.camera.translate(&step);
        }
        if self.keys_down[KEY_S] {
            let step = self.camera.forward().scale(mul_s(neg_s(delta_mod), speed));
            self.camera.translate(&step);
        }
        if self.keys_down[KEY_D] {
            let step = self.camera.right().scale(mul_s(delta_mod, speed));
            self.camera.translate(&step);
        }
        if self.keys_down[KEY_LSHIFT] {
            let step = self.camera.up().scale(mul_s(neg_s(delta_mod), speed));
            self.camera.translate(&step);
        }
        if self.keys_down[KEY_SPACE] {
            let step = self.camera.up().scale(mul_s(delta_mod, speed));
            self.camera.translate(&step);
        }
    }
}

} // verus!

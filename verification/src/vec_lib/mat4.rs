//! 4x4 matrices, stored row-major: index `r*4 + c`.

use vstd::prelude::*;
use crate::scalar::{
    Scalar, F32_ZERO, F32_ONE, F32_NEG_ONE, F32_TWO, F32_PI, F32_360, s_add, s_sub, s_mul, s_div,
    s_neg, s_tan, add_s, sub_s, mul_s, div_s, neg_s, tan_s,
};
use crate::vec_lib::mat3::Mat3f;
use crate::vec_lib::vec3::Vec3f;
use crate::vec_lib::vec4::Vec4f;

verus! {

broadcast use vstd::array::group_array_axioms;

/// A 4x4 matrix of binary32 scalars, row-major.
#[derive(Clone, Copy, Debug, PartialEq)]
pub struct Mat4f {
    pub vals: [Scalar; 16],
}

/// First minor `m0*m5 - m4*m1` of the upper half.
pub open spec fn m4_s0(a: Seq<Scalar>) -> Scalar {
    s_sub(s_mul(a[0], a[5]), s_mul(a[4], a[1]))
}

/// Minor `m0*m6 - m4*m2` of the upper half.
pub open spec fn m4_s1(a: Seq<Scalar>) -> Scalar {
    s_sub(s_mul(a[0], a[6]), s_mul(a[4], a[2]))
}

/// Minor `m0*m7 - m4*m3` of the upper half.
pub open spec fn m4_s2(a: Seq<Scalar>) -> Scalar {
    s_sub(s_mul(a[0], a[7]), s_mul(a[4], a[3]))
}

/// Minor `m1*m6 - m5*m2` of the upper half.
pub open spec fn m4_s3(a: Seq<Scalar>) -> Scalar {
    s_sub(s_mul(a[1], a[6]), s_mul(a[5], a[2]))
}

/// Minor `m1*m7 - m5*m3` of the upper half.
pub open spec fn m4_s4(a: Seq<Scalar>) -> Scalar {
    s_sub(s_mul(a[1], a[7]), s_mul(a[5], a[3]))
}

/// Minor `m2*m7 - m6*m3` of the upper half.
pub open spec fn m4_s5(a: Seq<Scalar>) -> Scalar {
    s_sub(s_mul(a[2], a[7]), s_mul(a[6], a[3]))
}

/// Minor `m8*m13 - m12*m9` of the lower half.
pub open spec fn m4_c0(a: Seq<Scalar>) -> Scalar {
    s_sub(s_mul(a[8], a[13]), s_mul(a[12], a[9]))
}

/// Minor `m8*m14 - m12*m10` of the lower half.
pub open spec fn m4_c1(a: Seq<Scalar>) -> Scalar {
    s_sub(s_mul(a[8], a[14]), s_mul(a[12], a[10]))
}

/// Minor `m8*m15 - m12*m11` of the lower half.
pub open spec fn m4_c2(a: Seq<Scalar>) -> Scalar {
    s_sub(s_mul(a[8], a[15]), s_mul(a[12], a[11]))
}

/// Minor `m9*m14 - m13*m10` of the lower half.
pub open spec fn m4_c3(a: Seq<Scalar>) -> Scalar {
    s_sub(s_mul(a[9], a[14]), s_mul(a[13], a[10]))
}

/// Minor `m9*m15 - m13*m11` of the lower half.
pub open spec fn m4_c4(a: Seq<Scalar>) -> Scalar {
    s_sub(s_mul(a[9], a[15]), s_mul(a[13], a[11]))
}

/// Minor `m10*m15 - m14*m11` of the lower half.
pub open spec fn m4_c5(a: Seq<Scalar>) -> Scalar {
    s_sub(s_mul(a[10], a[15]), s_mul(a[14], a[11]))
}

impl Mat4f {
    /// The identity matrix, at the spec level.
    pub open spec fn spec_identity() -> Seq<Scalar> {
        seq![
            Scalar { bits: F32_ONE },
            Scalar { bits: F32_ZERO },
            Scalar { bits: F32_ZERO },
            Scalar { bits: F32_ZERO },
            Scalar { bits: F32_ZERO },
            Scalar { bits: F32_ONE },
            Scalar { bits: F32_ZERO },
            Scalar { bits: F32_ZERO },
            Scalar { bits: F32_ZERO },
            Scalar { bits: F32_ZERO },
            Scalar { bits: F32_ONE },
            Scalar { bits: F32_ZERO },
            Scalar { bits: F32_ZERO },
            Scalar { bits: F32_ZERO },
            Scalar { bits: F32_ZERO },
            Scalar { bits: F32_ONE },
        ]
    }

    /// The symmetric-frustum projection entries, at the spec level,
    /// exactly as the executable code computes them.
    pub open spec fn spec_frustum(
        left: Scalar,
        right: Scalar,
        bottom: Scalar,
        top: Scalar,
        near: Scalar,
        far: Scalar,
    ) -> Seq<Scalar> {
        let diff_rl = s_sub(right, left);
        let diff_tb = s_sub(top, bottom);
        let diff_fn = s_sub(far, near);
        seq![
            s_div(s_mul(near, Scalar { bits: F32_TWO }), diff_rl),
            Scalar { bits: F32_ZERO },
            s_div(s_add(left, right), diff_rl),
            Scalar { bits: F32_ZERO },
            Scalar { bits: F32_ZERO },
            s_div(s_mul(near, Scalar { bits: F32_TWO }), diff_tb),
            s_div(s_add(top, bottom), diff_tb),
            Scalar { bits: F32_ZERO },
            Scalar { bits: F32_ZERO },
            Scalar { bits: F32_ZERO },
            s_div(s_neg(s_add(far, near)), diff_fn),
            s_div(s_neg(s_mul(s_mul(far, near), Scalar { bits: F32_TWO })), diff_fn),
            Scalar { bits: F32_ZERO },
            Scalar { bits: F32_ZERO },
            Scalar { bits: F32_NEG_ONE },
            Scalar { bits: F32_ZERO },
        ]
    }

    /// The perspective projection, at the spec level: a symmetric frustum
    /// with `top = near * tan(fov * pi / 360)` (`fov` in degrees) and
    /// `right = top * aspect`.
    pub open spec fn spec_perspective(
        fov: Scalar,
        aspect: Scalar,
        near: Scalar,
        far: Scalar,
    ) -> Seq<Scalar> {
        let top = s_mul(
            near,
            s_tan(s_div(s_mul(fov, Scalar { bits: F32_PI }), Scalar { bits: F32_360 })),
        );
        let right = s_mul(top, aspect);
        Self::spec_frustum(s_neg(right), right, s_neg(top), top, near, far)
    }

    /// The orthographic projection entries, at the spec level.
    pub open spec fn spec_orthographic(
        left: Scalar,
        right: Scalar,
        bottom: Scalar,
        top: Scalar,
        near: Scalar,
        far: Scalar,
    ) -> Seq<Scalar> {
        let diff_rl = s_sub(right, left);
        let diff_tb = s_sub(top, bottom);
        let diff_fn = s_sub(far, near);
        seq![
            s_div(Scalar { bits: F32_TWO }, diff_rl),
            Scalar { bits: F32_ZERO },
            Scalar { bits: F32_ZERO },
            s_div(s_neg(s_add(left, right)), diff_rl),
            Scalar { bits: F32_ZERO },
            s_div(Scalar { bits: F32_TWO }, diff_tb),
            Scalar { bits: F32_ZERO },
            s_div(s_neg(s_add(top, bottom)), diff_tb),
            Scalar { bits: F32_ZERO },
            Scalar { bits: F32_ZERO },
            s_div(s_neg(Scalar { bits: F32_TWO }), diff_fn),
            s_div(s_neg(s_add(far, near)), diff_fn),
            Scalar { bits: F32_ZERO },
            Scalar { bits: F32_ZERO },
            Scalar { bits: F32_ZERO },
            Scalar { bits: F32_ONE },
        ]
    }

    /// The look-at view matrix, at the spec level. When `position`
    /// compares equal to `target` under IEEE-754 equality the result is
    /// exactly the identity matrix; otherwise the basis is
    /// `z = normalize(position - target)`, `x = normalize(up x z)`,
    /// `y = normalize(z x x)`, with the negated dot products against
    /// `position` in the fourth column.
    pub open spec fn spec_look_at(position: Vec3f, target: Vec3f, up: Vec3f) -> Seq<Scalar> {
        if Vec3f::spec_eq(position, target) {
            Self::spec_identity()
        } else {
            let z = Vec3f::spec_normalize(Vec3f::spec_sub(position, target));
            let x = Vec3f::spec_normalize(Vec3f::spec_cross(up, z));
            let y = Vec3f::spec_normalize(Vec3f::spec_cross(z, x));
            seq![
                x.x,
                x.y,
                x.z,
                s_neg(Vec3f::spec_dot(x, position)),
                y.x,
                y.y,
                y.z,
                s_neg(Vec3f::spec_dot(y, position)),
                z.x,
                z.y,
                z.z,
                s_neg(Vec3f::spec_dot(z, position)),
                Scalar { bits: F32_ZERO },
                Scalar { bits: F32_ZERO },
                Scalar { bits: F32_ZERO },
                Scalar { bits: F32_ONE },
            ]
        }
    }

    /// The componentwise sum, at the spec level.
    pub open spec fn spec_add(a: Seq<Scalar>, b: Seq<Scalar>) -> Seq<Scalar> {
        Seq::new(16, |i: int| s_add(a[i], b[i]))
    }

    /// The row-major matrix product `a * b`, at the spec level: the entry
    /// at `4r + c` is the dot product of row `r` of `a` with column `c`
    /// of `b`, summed in the executable code's order.
    pub open spec fn spec_multiply(a: Seq<Scalar>, b: Seq<Scalar>) -> Seq<Scalar> {
        Seq::new(
            16,
            |i: int|
                {
                    let r = i / 4;
                    let c = i % 4;
                    s_add(
                        s_add(
                            s_add(
                                s_mul(b[c], a[4 * r]),
                                s_mul(b[4 + c], a[4 * r + 1]),
                            ),
                            s_mul(b[8 + c], a[4 * r + 2]),
                        ),
                        s_mul(b[12 + c], a[4 * r + 3]),
                    )
                },
        )
    }

    /// The matrix-vector product, at the spec level: component `r` is
    /// `m[4r+3]*w + m[4r]*x + m[4r+1]*y + m[4r+2]*z`, summed in the
    /// executable code's order.
    pub open spec fn spec_multiply_vec4(a: Seq<Scalar>, v: Vec4f) -> Vec4f {
        Vec4f {
            x: s_add(
                s_add(
                    s_add(s_mul(a[3], v.w), s_mul(a[0], v.x)),
                    s_mul(a[1], v.y),
                ),
                s_mul(a[2], v.z),
            ),
            y: s_add(
                s_add(
                    s_add(s_mul(a[7], v.w), s_mul(a[4], v.x)),
                    s_mul(a[5], v.y),
                ),
                s_mul(a[6], v.z),
            ),
            z: s_add(
                s_add(
                    s_add(s_mul(a[11], v.w), s_mul(a[8], v.x)),
                    s_mul(a[9], v.y),
                ),
                s_mul(a[10], v.z),
            ),
            w: s_add(
                s_add(
                    s_add(s_mul(a[15], v.w), s_mul(a[12], v.x)),
                    s_mul(a[13], v.y),
                ),
                s_mul(a[14], v.z),
            ),
        }
    }

    /// The action of the upper-left 3x3 block on a three-component
    /// vector, at the spec level: component `r` is
    /// `x*m[4r] + y*m[4r+1] + z*m[4r+2]`.
    pub open spec fn spec_multiply_vec3(a: Seq<Scalar>, v: Vec3f) -> Vec3f {
        Vec3f {
            x: s_add(
                s_add(s_mul(v.x, a[0]), s_mul(v.y, a[1])),
                s_mul(v.z, a[2]),
            ),
            y: s_add(
                s_add(s_mul(v.x, a[4]), s_mul(v.y, a[5])),
                s_mul(v.z, a[6]),
            ),
            z: s_add(
                s_add(s_mul(v.x, a[8]), s_mul(v.y, a[9])),
                s_mul(v.z, a[10]),
            ),
        }
    }

    /// Every entry multiplied by `val`, at the spec level.
    pub open spec fn spec_scale(a: Seq<Scalar>, val: Scalar) -> Seq<Scalar> {
        Seq::new(16, |i: int| s_mul(a[i], val))
    }

    /// The determinant from the twelve 2x2 minors, at the spec level,
    /// with the executable code's exact association:
    /// `s0*c5 - s1*c4 + s2*c3 + s3*c2 - s4*c1 + s5*c0`.
    pub open spec fn spec_determinant(a: Seq<Scalar>) -> Scalar {
        s_add(
            s_sub(
                s_add(
                    s_add(
                        s_sub(
                            s_mul(m4_s0(a), m4_c5(a)),
                            s_mul(m4_s1(a), m4_c4(a)),
                        ),
                        s_mul(m4_s2(a), m4_c3(a)),
                    ),
                    s_mul(m4_s3(a), m4_c2(a)),
                ),
                s_mul(m4_s4(a), m4_c1(a)),
            ),
            s_mul(m4_s5(a), m4_c0(a)),
        )
    }

    /// The transpose of a row-major 4x4 entry sequence, at the spec level.
    pub open spec fn spec_transpose(s: Seq<Scalar>) -> Seq<Scalar> {
        seq![
            s[0], s[4], s[8], s[12],
            s[1], s[5], s[9], s[13],
            s[2], s[6], s[10], s[14],
            s[3], s[7], s[11], s[15],
        ]
    }

    /// The cofactor inverse, at the spec level: each adjugate entry
    /// multiplied by the reciprocal of the determinant. When the
    /// determinant is zero the entries are non-finite.
    pub open spec fn spec_inverse(a: Seq<Scalar>) -> Seq<Scalar> {
        let s0 = m4_s0(a);
        let s1 = m4_s1(a);
        let s2 = m4_s2(a);
        let s3 = m4_s3(a);
        let s4 = m4_s4(a);
        let s5 = m4_s5(a);
        let c0 = m4_c0(a);
        let c1 = m4_c1(a);
        let c2 = m4_c2(a);
        let c3 = m4_c3(a);
        let c4 = m4_c4(a);
        let c5 = m4_c5(a);
        let invdet = s_div(Scalar { bits: F32_ONE }, Self::spec_determinant(a));
        seq![
            s_mul(s_add(s_sub(s_mul(a[5], c5), s_mul(a[6], c4)), s_mul(a[7], c3)), invdet),
            s_mul(s_sub(s_add(s_mul(s_neg(a[1]), c5), s_mul(a[2], c4)), s_mul(a[3], c3)), invdet),
            s_mul(s_add(s_sub(s_mul(a[13], s5), s_mul(a[14], s4)), s_mul(a[15], s3)), invdet),
            s_mul(s_sub(s_add(s_mul(s_neg(a[9]), s5), s_mul(a[10], s4)), s_mul(a[11], s3)), invdet),
            s_mul(s_sub(s_add(s_mul(s_neg(a[4]), c5), s_mul(a[6], c2)), s_mul(a[7], c1)), invdet),
            s_mul(s_add(s_sub(s_mul(a[0], c5), s_mul(a[2], c2)), s_mul(a[3], c1)), invdet),
            s_mul(s_sub(s_add(s_mul(s_neg(a[12]), s5), s_mul(a[14], s2)), s_mul(a[15], s1)), invdet),
            s_mul(s_add(s_sub(s_mul(a[8], s5), s_mul(a[10], s2)), s_mul(a[11], s1)), invdet),
            s_mul(s_add(s_sub(s_mul(a[4], c4), s_mul(a[5], c2)), s_mul(a[7], c0)), invdet),
            s_mul(s_sub(s_add(s_mul(s_neg(a[0]), c4), s_mul(a[1], c2)), s_mul(a[3], c0)), invdet),
            s_mul(s_add(s_sub(s_mul(a[12], s4), s_mul(a[13], s2)), s_mul(a[15], s0)), invdet),
            s_mul(s_sub(s_add(s_mul(s_neg(a[8]), s4), s_mul(a[9], s2)), s_mul(a[11], s0)), invdet),
            s_mul(s_sub(s_add(s_mul(s_neg(a[4]), c3), s_mul(a[5], c1)), s_mul(a[6], c0)), invdet),
            s_mul(s_add(s_sub(s_mul(a[0], c3), s_mul(a[1], c1)), s_mul(a[2], c0)), invdet),
            s_mul(s_sub(s_add(s_mul(s_neg(a[12]), s3), s_mul(a[13], s1)), s_mul(a[14], s0)), invdet),
            s_mul(s_add(s_sub(s_mul(a[8], s3), s_mul(a[9], s1)), s_mul(a[10], s0)), invdet),
        ]
    }

    /// Post-multiplication by a translation, at the spec level: only the
    /// fourth column changes, each entry becoming the dot product of its
    /// row's first three entries with the vector, plus the old entry.
    pub open spec fn spec_translate(a: Seq<Scalar>, v: Vec3f) -> Seq<Scalar> {
        seq![
            a[0],
            a[1],
            a[2],
            s_add(s_add(s_add(s_mul(a[0], v.x), s_mul(a[1], v.y)), s_mul(a[2], v.z)), a[3]),
            a[4],
            a[5],
            a[6],
            s_add(s_add(s_add(s_mul(a[4], v.x), s_mul(a[5], v.y)), s_mul(a[6], v.z)), a[7]),
            a[8],
            a[9],
            a[10],
            s_add(s_add(s_add(s_mul(a[8], v.x), s_mul(a[9], v.y)), s_mul(a[10], v.z)), a[11]),
            a[12],
            a[13],
            a[14],
            s_add(s_add(s_add(s_mul(a[12], v.x), s_mul(a[13], v.y)), s_mul(a[14], v.z)), a[15]),
        ]
    }

    /// Post-multiplication by the Rodrigues rotation about `axis` by
    /// `radians`, at the spec level: the 3x3 rotation embedded in a 4x4
    /// matrix with its bottom-right corner set to one.
    pub open spec fn spec_rotate3d(a: Seq<Scalar>, axis: Vec3f, radians: Scalar) -> Seq<Scalar> {
        let rot = Mat3f::spec_to_mat4(Mat3f::spec_rotate(axis, radians)).update(
            15,
            Scalar { bits: F32_ONE },
        );
        Self::spec_multiply(a, rot)
    }

    /// Wraps the sixteen entries as a matrix.
    pub fn new(vals: [Scalar; 16]) -> (r: Self)
        ensures
            r.vals == vals,
    {
        Mat4f { vals }
    }

    /// The identity matrix.
    pub fn identity() -> (r: Self)
        ensures
            r.vals@ =~= Self::spec_identity(),
    {
        Self::new(
            [
                Scalar { bits: F32_ONE },
                Scalar { bits: F32_ZERO },
                Scalar { bits: F32_ZERO },
                Scalar { bits: F32_ZERO },
                Scalar { bits: F32_ZERO },
                Scalar { bits: F32_ONE },
                Scalar { bits: F32_ZERO },
                Scalar { bits: F32_ZERO },
                Scalar { bits: F32_ZERO },
                Scalar { bits: F32_ZERO },
                Scalar { bits: F32_ONE },
                Scalar { bits: F32_ZERO },
                Scalar { bits: F32_ZERO },
                Scalar { bits: F32_ZERO },
                Scalar { bits: F32_ZERO },
                Scalar { bits: F32_ONE },
            ],
        )
    }

    /// The symmetric-frustum projection.
    pub fn frustum(
        left: Scalar,
        right: Scalar,
        bottom: Scalar,
        top: Scalar,
        near: Scalar,
        far: Scalar,
    ) -> (r: Self)
        ensures
            r.vals@ =~= Self::spec_frustum(left, right, bottom, top, near, far),
    {
        let diff_rl = sub_s(right, left);
        let diff_tb = sub_s(top, bottom);
        let diff_fn = sub_s(far, near);
        Self::new(
            [
                div_s(mul_s(near, Scalar { bits: F32_TWO }), diff_rl),
                Scalar { bits: F32_ZERO },
                div_s(add_s(left, right), diff_rl),
                Scalar { bits: F32_ZERO },
                Scalar { bits: F32_ZERO },
                div_s(mul_s(near, Scalar { bits: F32_TWO }), diff_tb),
                div_s(add_s(top, bottom), diff_tb),
                Scalar { bits: F32_ZERO },
                Scalar { bits: F32_ZERO },
                Scalar { bits: F32_ZERO },
                div_s(neg_s(add_s(far, near)), diff_fn),
                div_s(neg_s(mul_s(mul_s(far, near), Scalar { bits: F32_TWO })), diff_fn),
                Scalar { bits: F32_ZERO },
                Scalar { bits: F32_ZERO },
                Scalar { bits: F32_NEG_ONE },
                Scalar { bits: F32_ZERO },
            ],
        )
    }

    /// The perspective projection from a field of view in degrees, an
    /// aspect ratio (width over height), and the near and far plane
    /// distances.
    pub fn perspective(fov: Scalar, aspect: Scalar, near: Scalar, far: Scalar) -> (r: Self)
        ensures
            r.vals@ =~= Self::spec_perspective(fov, aspect, near, far),
    {
        let top = mul_s(
            near,
            tan_s(div_s(mul_s(fov, Scalar { bits: F32_PI }), Scalar { bits: F32_360 })),
        );
        let right = mul_s(top, aspect);
        Self::frustum(neg_s(right), right, neg_s(top), top, near, far)
    }

    /// The orthographic projection.
    pub fn orthographic(
        left: Scalar,
        right: Scalar,
        bottom: Scalar,
        top: Scalar,
        near: Scalar,
        far: Scalar,
    ) -> (r: Self)
        ensures
            r.vals@ =~= Self::spec_orthographic(left, right, bottom, top, near, far),
    {
        let diff_rl = sub_s(right, left);
        let diff_tb = sub_s(top, bottom);
        let diff_fn = sub_s(far, near);
        Self::new(
            [
                div_s(Scalar { bits: F32_TWO }, diff_rl),
                Scalar { bits: F32_ZERO },
                Scalar { bits: F32_ZERO },
                div_s(neg_s(add_s(left, right)), diff_rl),
                Scalar { bits: F32_ZERO },
                div_s(Scalar { bits: F32_TWO }, diff_tb),
                Scalar { bits: F32_ZERO },
                div_s(neg_s(add_s(top, bottom)), diff_tb),
                Scalar { bits: F32_ZERO },
                Scalar { bits: F32_ZERO },
                div_s(neg_s(Scalar { bits: F32_TWO }), diff_fn),
                div_s(neg_s(add_s(far, near)), diff_fn),
                Scalar { bits: F32_ZERO },
                Scalar { bits: F32_ZERO },
                Scalar { bits: F32_ZERO },
                Scalar { bits: F32_ONE },
            ],
        )
    }

    /// The look-at view matrix. When `position` compares equal to
    /// `target` (IEEE-754 equality, so NaN coordinates never compare
    /// equal) the result is exactly the identity matrix, by an explicit
    /// branch rather than a division by a zero-length direction.
    pub fn look_at(position: &Vec3f, target: &Vec3f, up: &Vec3f) -> (r: Self)
        ensures
            r.vals@ =~= Self::spec_look_at(*position, *target, *up),
    {
        if position == target {
            return Self::identity();
        }
        let z = position.sub(target).normalize();
        let x = up.cross(&z).normalize();
        let y = z.cross(&x).normalize();
        Self::new(
            [
                x.x(),
                x.y(),
                x.z(),
                neg_s(x.dot(position)),
                y.x(),
                y.y(),
                y.z(),
                neg_s(y.dot(position)),
                z.x(),
                z.y(),
                z.z(),
                neg_s(z.dot(position)),
                Scalar { bits: F32_ZERO },
                Scalar { bits: F32_ZERO },
                Scalar { bits: F32_ZERO },
                Scalar { bits: F32_ONE },
            ],
        )
    }

    /// The componentwise sum.
    pub fn add_mat4(&self, other: &Self) -> (r: Self)
        ensures
            r.vals@ =~= Self::spec_add(self.vals@, other.vals@),
    {
        Self::new(
            [
                add_s(self.vals[0], other.vals[0]),
                add_s(self.vals[1], other.vals[1]),
                add_s(self.vals[2], other.vals[2]),
                add_s(self.vals[3], other.vals[3]),
                add_s(self.vals[4], other.vals[4]),
                add_s(self.vals[5], other.vals[5]),
                add_s(self.vals[6], other.vals[6]),
                add_s(self.vals[7], other.vals[7]),
                add_s(self.vals[8], other.vals[8]),
                add_s(self.vals[9], other.vals[9]),
                add_s(self.vals[10], other.vals[10]),
                add_s(self.vals[11], other.vals[11]),
                add_s(self.vals[12], other.vals[12]),
                add_s(self.vals[13], other.vals[13]),
                add_s(self.vals[14], other.vals[14]),
                add_s(self.vals[15], other.vals[15]),
            ],
        )
    }

    /// Adds `other` into `self` componentwise.
    pub fn add_mat4_mut(&mut self, other: &Self) -> (r: &mut Self)
        ensures
            *final(self) == *final(r),
            r.vals@ =~= Self::spec_add(old(self).vals@, other.vals@),
    {
        let res = self.add_mat4(other);
        *self = res;
        self
    }

    /// The row-major matrix product `self * other`.
    pub fn multiply_mat4(&self, other: &Self) -> (r: Self)
        ensures
            r.vals@ =~= Self::spec_multiply(self.vals@, other.vals@),
    {
        Self::new(
            [
                add_s(add_s(add_s(mul_s(other.vals[0], self.vals[0]), mul_s(other.vals[4], self.vals[1])), mul_s(other.vals[8], self.vals[2])), mul_s(other.vals[12], self.vals[3])),
                add_s(add_s(add_s(mul_s(other.vals[1], self.vals[0]), mul_s(other.vals[5], self.vals[1])), mul_s(other.vals[9], self.vals[2])), mul_s(other.vals[13], self.vals[3])),
                add_s(add_s(add_s(mul_s(other.vals[2], self.vals[0]), mul_s(other.vals[6], self.vals[1])), mul_s(other.vals[10], self.vals[2])), mul_s(other.vals[14], self.vals[3])),
                add_s(add_s(add_s(mul_s(other.vals[3], self.vals[0]), mul_s(other.vals[7], self.vals[1])), mul_s(other.vals[11], self.vals[2])), mul_s(other.vals[15], self.vals[3])),
                add_s(add_s(add_s(mul_s(other.vals[0], self.vals[4]), mul_s(other.vals[4], self.vals[5])), mul_s(other.vals[8], self.vals[6])), mul_s(other.vals[12], self.vals[7])),
                add_s(add_s(add_s(mul_s(other.vals[1], self.vals[4]), mul_s(other.vals[5], self.vals[5])), mul_s(other.vals[9], self.vals[6])), mul_s(other.vals[13], self.vals[7])),
                add_s(add_s(add_s(mul_s(other.vals[2], self.vals[4]), mul_s(other.vals[6], self.vals[5])), mul_s(other.vals[10], self.vals[6])), mul_s(other.vals[14], self.vals[7])),
                add_s(add_s(add_s(mul_s(other.vals[3], self.vals[4]), mul_s(other.vals[7], self.vals[5])), mul_s(other.vals[11], self.vals[6])), mul_s(other.vals[15], self.vals[7])),
                add_s(add_s(add_s(mul_s(other.vals[0], self.vals[8]), mul_s(other.vals[4], self.vals[9])), mul_s(other.vals[8], self.vals[10])), mul_s(other.vals[12], self.vals[11])),
                add_s(add_s(add_s(mul_s(other.vals[1], self.vals[8]), mul_s(other.vals[5], self.vals[9])), mul_s(other.vals[9], self.vals[10])), mul_s(other.vals[13], self.vals[11])),
                add_s(add_s(add_s(mul_s(other.vals[2], self.vals[8]), mul_s(other.vals[6], self.vals[9])), mul_s(other.vals[10], self.vals[10])), mul_s(other.vals[14], self.vals[11])),
                add_s(add_s(add_s(mul_s(other.vals[3], self.vals[8]), mul_s(other.vals[7], self.vals[9])), mul_s(other.vals[11], self.vals[10])), mul_s(other.vals[15], self.vals[11])),
                add_s(add_s(add_s(mul_s(other.vals[0], self.vals[12]), mul_s(other.vals[4], self.vals[13])), mul_s(other.vals[8], self.vals[14])), mul_s(other.vals[12], self.vals[15])),
                add_s(add_s(add_s(mul_s(other.vals[1], self.vals[12]), mul_s(other.vals[5], self.vals[13])), mul_s(other.vals[9], self.vals[14])), mul_s(other.vals[13], self.vals[15])),
                add_s(add_s(add_s(mul_s(other.vals[2], self.vals[12]), mul_s(other.vals[6], self.vals[13])), mul_s(other.vals[10], self.vals[14])), mul_s(other.vals[14], self.vals[15])),
                add_s(add_s(add_s(mul_s(other.vals[3], self.vals[12]), mul_s(other.vals[7], self.vals[13])), mul_s(other.vals[11], self.vals[14])), mul_s(other.vals[15], self.vals[15])),
            ],
        )
    }

    /// Replaces `self` with the matrix product.
    pub fn multiply_mat4_mut(&mut self, other: &Self) -> (r: &mut Self)
        ensures
            *final(self) == *final(r),
            r.vals@ =~= Self::spec_multiply(old(self).vals@, other.vals@),
    {
        let result = self.multiply_mat4(other);
        *self = result;
        self
    }

    /// The matrix-vector product.
    pub fn multiply_vec4(&self, vec: &Vec4f) -> (r: Vec4f)
        ensures
            r == Self::spec_multiply_vec4(self.vals@, *vec),
    {
        Vec4f::new(
            add_s(add_s(add_s(mul_s(self.vals[3], vec.w()), mul_s(self.vals[0], vec.x())), mul_s(self.vals[1], vec.y())), mul_s(self.vals[2], vec.z())),
            add_s(add_s(add_s(mul_s(self.vals[7], vec.w()), mul_s(self.vals[4], vec.x())), mul_s(self.vals[5], vec.y())), mul_s(self.vals[6], vec.z())),
            add_s(add_s(add_s(mul_s(self.vals[11], vec.w()), mul_s(self.vals[8], vec.x())), mul_s(self.vals[9], vec.y())), mul_s(self.vals[10], vec.z())),
            add_s(add_s(add_s(mul_s(self.vals[15], vec.w()), mul_s(self.vals[12], vec.x())), mul_s(self.vals[13], vec.y())), mul_s(self.vals[14], vec.z())),
        )
    }

    /// Replaces `vec` with the matrix-vector product.
    pub fn multiply_vec4_mut<'a>(&'a self, vec: &'a mut Vec4f) -> (r: &mut Vec4f)
        ensures
            *final(vec) == *final(r),
            *r == Self::spec_multiply_vec4(self.vals@, *old(vec)),
    {
        let result = self.multiply_vec4(vec);
        *vec = result;
        vec
    }

    /// Applies the upper-left 3x3 block to a three-component vector; the
    /// fourth row and column do not enter the result.
    pub fn multiply_vec3(&self, vec: &Vec3f) -> (r: Vec3f)
        ensures
            r == Self::spec_multiply_vec3(self.vals@, *vec),
    {
        Vec3f::new(
            add_s(
                add_s(mul_s(vec.x(), self.vals[0]), mul_s(vec.y(), self.vals[1])),
                mul_s(vec.z(), self.vals[2]),
            ),
            add_s(
                add_s(mul_s(vec.x(), self.vals[4]), mul_s(vec.y(), self.vals[5])),
                mul_s(vec.z(), self.vals[6]),
            ),
            add_s(
                add_s(mul_s(vec.x(), self.vals[8]), mul_s(vec.y(), self.vals[9])),
                mul_s(vec.z(), self.vals[10]),
            ),
        )
    }

    /// Every entry multiplied by `val`.
    pub fn scale(&self, val: Scalar) -> (r: Self)
        ensures
            r.vals@ =~= Self::spec_scale(self.vals@, val),
    {
        Self::new(
            [
                mul_s(self.vals[0], val),
                mul_s(self.vals[1], val),
                mul_s(self.vals[2], val),
                mul_s(self.vals[3], val),
                mul_s(self.vals[4], val),
                mul_s(self.vals[5], val),
                mul_s(self.vals[6], val),
                mul_s(self.vals[7], val),
                mul_s(self.vals[8], val),
                mul_s(self.vals[9], val),
                mul_s(self.vals[10], val),
                mul_s(self.vals[11], val),
                mul_s(self.vals[12], val),
                mul_s(self.vals[13], val),
                mul_s(self.vals[14], val),
                mul_s(self.vals[15], val),
            ],
        )
    }

    /// Multiplies every entry by `val` in place.
    pub fn scale_mut(&mut self, val: Scalar) -> (r: &mut Self)
        ensures
            *final(self) == *final(r),
            r.vals@ =~= Self::spec_scale(old(self).vals@, val),
    {
        let res = self.scale(val);
        *self = res;
        self
    }

    /// The determinant from the twelve 2x2 minors.
    pub fn determinant(self) -> (r: Scalar)
        ensures
            r == Self::spec_determinant(self.vals@),
    {
        let s0 = sub_s(mul_s(self.vals[0], self.vals[5]), mul_s(self.vals[4], self.vals[1]));
        let s1 = sub_s(mul_s(self.vals[0], self.vals[6]), mul_s(self.vals[4], self.vals[2]));
        let s2 = sub_s(mul_s(self.vals[0], self.vals[7]), mul_s(self.vals[4], self.vals[3]));
        let s3 = sub_s(mul_s(self.vals[1], self.vals[6]), mul_s(self.vals[5], self.vals[2]));
        let s4 = sub_s(mul_s(self.vals[1], self.vals[7]), mul_s(self.vals[5], self.vals[3]));
        let s5 = sub_s(mul_s(self.vals[2], self.vals[7]), mul_s(self.vals[6], self.vals[3]));
        let c5 = sub_s(mul_s(self.vals[10], self.vals[15]), mul_s(self.vals[14], self.vals[11]));
        let c4 = sub_s(mul_s(self.vals[9], self.vals[15]), mul_s(self.vals[13], self.vals[11]));
        let c3 = sub_s(mul_s(self.vals[9], self.vals[14]), mul_s(self.vals[13], self.vals[10]));
        let c2 = sub_s(mul_s(self.vals[8], self.vals[15]), mul_s(self.vals[12], self.vals[11]));
        let c1 = sub_s(mul_s(self.vals[8], self.vals[14]), mul_s(self.vals[12], self.vals[10]));
        let c0 = sub_s(mul_s(self.vals[8], self.vals[13]), mul_s(self.vals[12], self.vals[9]));
        add_s(
            sub_s(
                add_s(
                    add_s(sub_s(mul_s(s0, c5), mul_s(s1, c4)), mul_s(s2, c3)),
                    mul_s(s3, c2),
                ),
                mul_s(s4, c1),
            ),
            mul_s(s5, c0),
        )
    }

    /// The transpose.
    pub fn transpose(&self) -> (r: Self)
        ensures
            r.vals@ =~= Self::spec_transpose(self.vals@),
    {
        Self::new(
            [
                self.vals[0],
                self.vals[4],
                self.vals[8],
                self.vals[12],
                self.vals[1],
                self.vals[5],
                self.vals[9],
                self.vals[13],
                self.vals[2],
                self.vals[6],
                self.vals[10],
                self.vals[14],
                self.vals[3],
                self.vals[7],
                self.vals[11],
                self.vals[15],
            ],
        )
    }

    /// Transposes in place.
    pub fn transpose_mut(&mut self) -> (r: &mut Self)
        ensures
            *final(self) == *final(r),
            r.vals@ =~= Self::spec_transpose(old(self).vals@),
    {
        let result = self.transpose();
        *self = result;
        self
    }

    /// The cofactor inverse. Callers must not invert singular matrices:
    /// when the determinant is zero the entries are non-finite.
    pub fn inverse(&self) -> (r: Self)
        ensures
            r.vals@ =~= Self::spec_inverse(self.vals@),
    {
        let s0 = sub_s(mul_s(self.vals[0], self.vals[5]), mul_s(self.vals[4], self.vals[1]));
        let s1 = sub_s(mul_s(self.vals[0], self.vals[6]), mul_s(self.vals[4], self.vals[2]));
        let s2 = sub_s(mul_s(self.vals[0], self.vals[7]), mul_s(self.vals[4], self.vals[3]));
        let s3 = sub_s(mul_s(self.vals[1], self.vals[6]), mul_s(self.vals[5], self.vals[2]));
        let s4 = sub_s(mul_s(self.vals[1], self.vals[7]), mul_s(self.vals[5], self.vals[3]));
        let s5 = sub_s(mul_s(self.vals[2], self.vals[7]), mul_s(self.vals[6], self.vals[3]));
        let c5 = sub_s(mul_s(self.vals[10], self.vals[15]), mul_s(self.vals[14], self.vals[11]));
        let c4 = sub_s(mul_s(self.vals[9], self.vals[15]), mul_s(self.vals[13], self.vals[11]));
        let c3 = sub_s(mul_s(self.vals[9], self.vals[14]), mul_s(self.vals[13], self.vals[10]));
        let c2 = sub_s(mul_s(self.vals[8], self.vals[15]), mul_s(self.vals[12], self.vals[11]));
        let c1 = sub_s(mul_s(self.vals[8], self.vals[14]), mul_s(self.vals[12], self.vals[10]));
        let c0 = sub_s(mul_s(self.vals[8], self.vals[13]), mul_s(self.vals[12], self.vals[9]));
        let det = add_s(
            sub_s(
                add_s(
                    add_s(sub_s(mul_s(s0, c5), mul_s(s1, c4)), mul_s(s2, c3)),
                    mul_s(s3, c2),
                ),
                mul_s(s4, c1),
            ),
            mul_s(s5, c0),
        );
        let invdet = div_s(Scalar { bits: F32_ONE }, det);
        Self::new(
            [
                mul_s(add_s(sub_s(mul_s(self.vals[5], c5), mul_s(self.vals[6], c4)), mul_s(self.vals[7], c3)), invdet),
                mul_s(sub_s(add_s(mul_s(neg_s(self.vals[1]), c5), mul_s(self.vals[2], c4)), mul_s(self.vals[3], c3)), invdet),
                mul_s(add_s(sub_s(mul_s(self.vals[13], s5), mul_s(self.vals[14], s4)), mul_s(self.vals[15], s3)), invdet),
                mul_s(sub_s(add_s(mul_s(neg_s(self.vals[9]), s5), mul_s(self.vals[10], s4)), mul_s(self.vals[11], s3)), invdet),
                mul_s(sub_s(add_s(mul_s(neg_s(self.vals[4]), c5), mul_s(self.vals[6], c2)), mul_s(self.vals[7], c1)), invdet),
                mul_s(add_s(sub_s(mul_s(self.vals[0], c5), mul_s(self.vals[2], c2)), mul_s(self.vals[3], c1)), invdet),
                mul_s(sub_s(add_s(mul_s(neg_s(self.vals[12]), s5), mul_s(self.vals[14], s2)), mul_s(self.vals[15], s1)), invdet),
                mul_s(add_s(sub_s(mul_s(self.vals[8], s5), mul_s(self.vals[10], s2)), mul_s(self.vals[11], s1)), invdet),
                mul_s(add_s(sub_s(mul_s(self.vals[4], c4), mul_s(self.vals[5], c2)), mul_s(self.vals[7], c0)), invdet),
                mul_s(sub_s(add_s(mul_s(neg_s(self.vals[0]), c4), mul_s(self.vals[1], c2)), mul_s(self.vals[3], c0)), invdet),
                mul_s(add_s(sub_s(mul_s(self.vals[12], s4), mul_s(self.vals[13], s2)), mul_s(self.vals[15], s0)), invdet),
                mul_s(sub_s(add_s(mul_s(neg_s(self.vals[8]), s4), mul_s(self.vals[9], s2)), mul_s(self.vals[11], s0)), invdet),
                mul_s(sub_s(add_s(mul_s(neg_s(self.vals[4]), c3), mul_s(self.vals[5], c1)), mul_s(self.vals[6], c0)), invdet),
                mul_s(add_s(sub_s(mul_s(self.vals[0], c3), mul_s(self.vals[1], c1)), mul_s(self.vals[2], c0)), invdet),
                mul_s(sub_s(add_s(mul_s(neg_s(self.vals[12]), s3), mul_s(self.vals[13], s1)), mul_s(self.vals[14], s0)), invdet),
                mul_s(add_s(sub_s(mul_s(self.vals[8], s3), mul_s(self.vals[9], s1)), mul_s(self.vals[10], s0)), invdet),
            ],
        )
    }

    /// Replaces `self` with its cofactor inverse.
    pub fn inverse_mut(&mut self) -> (r: &mut Self)
        ensures
            *final(self) == *final(r),
            r.vals@ =~= Self::spec_inverse(old(self).vals@),
    {
        let inverted = self.inverse();
        *self = inverted;
        self
    }

    /// Post-multiplies by a translation: only the fourth column changes.
    pub fn translate(&self, vec: &Vec3f) -> (r: Self)
        ensures
            r.vals@ =~= Self::spec_translate(self.vals@, *vec),
    {
        Self::new(
            [
                self.vals[0],
                self.vals[1],
                self.vals[2],
                add_s(add_s(add_s(mul_s(self.vals[0], vec.x()), mul_s(self.vals[1], vec.y())), mul_s(self.vals[2], vec.z())), self.vals[3]),
                self.vals[4],
                self.vals[5],
                self.vals[6],
                add_s(add_s(add_s(mul_s(self.vals[4], vec.x()), mul_s(self.vals[5], vec.y())), mul_s(self.vals[6], vec.z())), self.vals[7]),
                self.vals[8],
                self.vals[9],
                self.vals[10],
                add_s(add_s(add_s(mul_s(self.vals[8], vec.x()), mul_s(self.vals[9], vec.y())), mul_s(self.vals[10], vec.z())), self.vals[11]),
                self.vals[12],
                self.vals[13],
                self.vals[14],
                add_s(add_s(add_s(mul_s(self.vals[12], vec.x()), mul_s(self.vals[13], vec.y())), mul_s(self.vals[14], vec.z())), self.vals[15]),
            ],
        )
    }

    /// Post-multiplies by a translation in place.
    pub fn translate_mut(&mut self, vec: &Vec3f) -> (r: &mut Self)
        ensures
            *final(self) == *final(r),
            r.vals@ =~= Self::spec_translate(old(self).vals@, *vec),
    {
        let res = self.translate(vec);
        *self = res;
        self
    }

    /// Post-multiplies by the Rodrigues rotation about `axis` by
    /// `radians`.
    pub fn rotate3d(&self, axis: &Vec3f, radians: Scalar) -> (r: Self)
        ensures
            r.vals@ =~= Self::spec_rotate3d(self.vals@, *axis, radians),
    {
        let rot3 = Mat3f::identity().rotate(axis, radians);
        let rm = rot3.to_mat4();
        let rot_mat = Self::new(
            [
                rm.vals[0],
                rm.vals[1],
                rm.vals[2],
                rm.vals[3],
                rm.vals[4],
                rm.vals[5],
                rm.vals[6],
                rm.vals[7],
                rm.vals[8],
                rm.vals[9],
                rm.vals[10],
                rm.vals[11],
                rm.vals[12],
                rm.vals[13],
                rm.vals[14],
                Scalar { bits: F32_ONE },
            ],
        );
        self.multiply_mat4(&rot_mat)
    }

    /// Post-multiplies by the Rodrigues rotation in place.
    pub fn rotate3d_mut(&mut self, axis: &Vec3f, radians: Scalar) -> (r: &mut Self)
        ensures
            *final(self) == *final(r),
            r.vals@ =~= Self::spec_rotate3d(old(self).vals@, *axis, radians),
    {
        let rotated = self.rotate3d(axis, radians);
        *self = rotated;
        self
    }

    /// The entry at `index`.
    pub fn get(&self, index: usize) -> (r: Scalar)
        requires
            index < 16,
        ensures
            r == self.vals[index as int],
    {
        self.vals[index]
    }

    /// All sixteen entries, row-major.
    pub fn vals(&self) -> (r: [Scalar; 16])
        ensures
            r == self.vals,
    {
        self.vals
    }
}

/// The matrix whose entries are the sixteen elements of a sequence, at
/// the spec level; used to state contracts that hand a computed matrix
/// onward as a value.
pub open spec fn mat4_from_seq(s: Seq<Scalar>) -> Mat4f {
    Mat4f {
        vals: vstd::array::spec_array_update(
            vstd::array::spec_array_update(
                vstd::array::spec_array_update(
                    vstd::array::spec_array_update(
                        vstd::array::spec_array_update(
                            vstd::array::spec_array_update(
                                vstd::array::spec_array_update(
                                    vstd::array::spec_array_update(
                                        vstd::array::spec_array_update(
                                            vstd::array::spec_array_update(
                                                vstd::array::spec_array_update(
                                                    vstd::array::spec_array_update(
                                                        vstd::array::spec_array_update(
                                                            vstd::array::spec_array_update(
                                                                vstd::array::spec_array_update(
                                                                    vstd::array::spec_array_update(
                                                                        vstd::array::spec_array_fill_for_copy_type(
                                                                            Scalar { bits: F32_ZERO },
                                                                        ),
                                                                        0,
                                                                        s[0],
                                                                    ),
                                                                    1,
                                                                    s[1],
                                                                ),
                                                                2,
                                                                s[2],
                                                            ),
                                                            3,
                                                            s[3],
                                                        ),
                                                        4,
                                                        s[4],
                                                    ),
                                                    5,
                                                    s[5],
                                                ),
                                                6,
                                                s[6],
                                            ),
                                            7,
                                            s[7],
                                        ),
                                        8,
                                        s[8],
                                    ),
                                    9,
                                    s[9],
                                ),
                                10,
                                s[10],
                            ),
                            11,
                            s[11],
                        ),
                        12,
                        s[12],
                    ),
                    13,
                    s[13],
                ),
                14,
                s[14],
            ),
            15,
            s[15],
        ),
    }
}

/// The entries of [`mat4_from_seq`] are exactly the sequence it was built
/// from.
pub proof fn lemma_mat4_from_seq(s: Seq<Scalar>)
    requires
        s.len() == 16,
    ensures
        mat4_from_seq(s).vals@ == s,
{
    assert(mat4_from_seq(s).vals@ =~= s);
}

/// Transposition is an involution: transposing any 4x4 matrix twice gives
/// back exactly the same entries.
pub proof fn lemma_transpose_involutive_mat4(s: Seq<Scalar>)
    requires
        s.len() == 16,
    ensures
        Mat4f::spec_transpose(Mat4f::spec_transpose(s)) == s,
{
    assert(Mat4f::spec_transpose(Mat4f::spec_transpose(s)) =~= s);
}

/// A look-at matrix whose position and target coincide is exactly the
/// identity matrix, for every position without NaN coordinates and every
/// up vector: the coincidence branch is taken, no division occurs.
pub proof fn lemma_look_at_same_point_is_identity(p: Vec3f, up: Vec3f)
    requires
        !crate::scalar::f32_is_nan(p.x.bits),
        !crate::scalar::f32_is_nan(p.y.bits),
        !crate::scalar::f32_is_nan(p.z.bits),
    ensures
        Mat4f::spec_look_at(p, p, up) == Mat4f::spec_identity(),
{
}

} // verus!

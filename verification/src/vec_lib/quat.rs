//! Quaternions.
//!
//! Only construction (directly and from an axis-angle pair), addition,
//! the quaternion product, dot product, conjugate, inverse and
//! normalization are defined operations. Rotation of a vector by a
//! quaternion and spherical interpolation are deliberately out of scope.

use vstd::prelude::*;
use crate::scalar::{
    Scalar, F32_ZERO, F32_ONE, F32_NEG_ONE, F32_HALF, s_add, s_sub, s_mul, s_div, s_neg, s_sqrt,
    s_sin, s_cos, s_eq, add_s, sub_s, mul_s, div_s, neg_s, sqrt_s, sin_s, cos_s,
};
use crate::vec_lib::vec3::Vec3f;

verus! {

broadcast use vstd::array::group_array_axioms;

/// A quaternion, stored as `[x, y, z, w]` binary32 scalars.
#[derive(Clone, Copy, Debug)]
pub struct Quat {
    pub vals: [Scalar; 4],
}

impl Quat {
    /// Construction from an axis and an angle, at the spec level: the
    /// axis scaled by `sin(radians * 0.5)`, with `cos(radians * 0.5)` as
    /// the real part. The axis is used as given, not normalized.
    pub open spec fn spec_from_axis_angle(axis: Vec3f, radians: Scalar) -> Seq<Scalar> {
        let sin = s_sin(s_mul(radians, Scalar { bits: F32_HALF }));
        seq![
            s_mul(axis.x, sin),
            s_mul(axis.y, sin),
            s_mul(axis.z, sin),
            s_cos(s_mul(radians, Scalar { bits: F32_HALF })),
        ]
    }

    /// The componentwise sum, at the spec level.
    pub open spec fn spec_add(a: Quat, b: Quat) -> Seq<Scalar> {
        seq![
            s_add(a.vals[0], b.vals[0]),
            s_add(a.vals[1], b.vals[1]),
            s_add(a.vals[2], b.vals[2]),
            s_add(a.vals[3], b.vals[3]),
        ]
    }

    /// The product, at the spec level, exactly as the executable code
    /// computes it term by term.
    pub open spec fn spec_mult(a: Quat, b: Quat) -> Seq<Scalar> {
        seq![
            s_sub(
                s_add(s_add(s_mul(a.vals[0], b.vals[3]), s_mul(a.vals[3], b.vals[0])), s_mul(a.vals[1], a.vals[2])),
                s_mul(a.vals[2], b.vals[1]),
            ),
            s_sub(
                s_add(s_add(s_mul(a.vals[1], b.vals[3]), s_mul(a.vals[3], b.vals[1])), s_mul(a.vals[2], a.vals[0])),
                s_mul(a.vals[0], b.vals[2]),
            ),
            s_sub(
                s_add(s_add(s_mul(a.vals[2], b.vals[3]), s_mul(a.vals[3], b.vals[2])), s_mul(a.vals[0], a.vals[1])),
                s_mul(a.vals[1], b.vals[0]),
            ),
            s_sub(
                s_add(s_add(s_mul(a.vals[3], b.vals[3]), s_mul(a.vals[0], b.vals[0])), s_mul(a.vals[1], a.vals[1])),
                s_mul(a.vals[2], b.vals[2]),
            ),
        ]
    }

    /// The dot product, at the spec level.
    pub open spec fn spec_dot(a: Quat, b: Quat) -> Scalar {
        s_add(
            s_add(
                s_add(s_mul(a.vals[0], b.vals[0]), s_mul(a.vals[1], b.vals[1])),
                s_mul(a.vals[2], b.vals[2]),
            ),
            s_mul(a.vals[3], b.vals[3]),
        )
    }

    /// The inverse, at the spec level: all components scaled by
    /// `-1.0 / (q . q)`, or the all-zero quaternion when the self dot
    /// product compares equal to zero.
    pub open spec fn spec_inverse(a: Quat) -> Seq<Scalar> {
        let dot = Self::spec_dot(a, a);
        if s_eq(dot, Scalar { bits: F32_ZERO }) {
            seq![
                Scalar { bits: F32_ZERO },
                Scalar { bits: F32_ZERO },
                Scalar { bits: F32_ZERO },
                Scalar { bits: F32_ZERO },
            ]
        } else {
            let dot_inv = s_div(Scalar { bits: F32_NEG_ONE }, dot);
            seq![
                s_mul(a.vals[0], dot_inv),
                s_mul(a.vals[1], dot_inv),
                s_mul(a.vals[2], dot_inv),
                s_mul(a.vals[3], dot_inv),
            ]
        }
    }

    /// The conjugate, at the spec level: the vector part negated.
    pub open spec fn spec_conjugate(a: Quat) -> Seq<Scalar> {
        seq![s_neg(a.vals[0]), s_neg(a.vals[1]), s_neg(a.vals[2]), a.vals[3]]
    }

    /// Normalization, at the spec level: all components scaled by the
    /// reciprocal of the length, or the all-zero quaternion when the
    /// length compares equal to zero.
    pub open spec fn spec_normalize(a: Quat) -> Seq<Scalar> {
        let length = s_sqrt(Self::spec_dot(a, a));
        if s_eq(length, Scalar { bits: F32_ZERO }) {
            seq![
                Scalar { bits: F32_ZERO },
                Scalar { bits: F32_ZERO },
                Scalar { bits: F32_ZERO },
                Scalar { bits: F32_ZERO },
            ]
        } else {
            let inv_len = s_div(Scalar { bits: F32_ONE }, length);
            seq![
                s_mul(a.vals[0], inv_len),
                s_mul(a.vals[1], inv_len),
                s_mul(a.vals[2], inv_len),
                s_mul(a.vals[3], inv_len),
            ]
        }
    }

    /// Wraps the four components as a quaternion.
    pub fn new(vals: [Scalar; 4]) -> (r: Self)
        ensures
            r.vals == vals,
    {
        Quat { vals }
    }

    /// Builds the quaternion for a rotation about `axis` by `radians`;
    /// the axis is used as given, not normalized.
    pub fn from_axis_angle(axis: &Vec3f, radians: Scalar) -> (r: Self)
        ensures
            r.vals@ =~= Self::spec_from_axis_angle(*axis, radians),
    {
        let sin = sin_s(mul_s(radians, Scalar { bits: F32_HALF }));
        Self::new(
            [
                mul_s(axis.x(), sin),
                mul_s(axis.y(), sin),
                mul_s(axis.z(), sin),
                cos_s(mul_s(radians, Scalar { bits: F32_HALF })),
            ],
        )
    }

    /// The componentwise sum.
    pub fn add(&self, other: &Self) -> (r: Self)
        ensures
            r.vals@ =~= Self::spec_add(*self, *other),
    {
        Self::new(
            [
                add_s(self.vals[0], other.vals[0]),
                add_s(self.vals[1], other.vals[1]),
                add_s(self.vals[2], other.vals[2]),
                add_s(self.vals[3], other.vals[3]),
            ],
        )
    }

    /// The quaternion product, term by term as [`Self::spec_mult`] states
    /// it.
    pub fn mult(&self, other: &Self) -> (r: Self)
        ensures
            r.vals@ =~= Self::spec_mult(*self, *other),
    {
        Self::new(
            [
                sub_s(
                    add_s(
                        add_s(mul_s(self.vals[0], other.vals[3]), mul_s(self.vals[3], other.vals[0])),
                        mul_s(self.vals[1], self.vals[2]),
                    ),
                    mul_s(self.vals[2], other.vals[1]),
                ),
                sub_s(
                    add_s(
                        add_s(mul_s(self.vals[1], other.vals[3]), mul_s(self.vals[3], other.vals[1])),
                        mul_s(self.vals[2], self.vals[0]),
                    ),
                    mul_s(self.vals[0], other.vals[2]),
                ),
                sub_s(
                    add_s(
                        add_s(mul_s(self.vals[2], other.vals[3]), mul_s(self.vals[3], other.vals[2])),
                        mul_s(self.vals[0], self.vals[1]),
                    ),
                    mul_s(self.vals[1], other.vals[0]),
                ),
                sub_s(
                    add_s(
                        add_s(mul_s(self.vals[3], other.vals[3]), mul_s(self.vals[0], other.vals[0])),
                        mul_s(self.vals[1], self.vals[1]),
                    ),
                    mul_s(self.vals[2], other.vals[2]),
                ),
            ],
        )
    }

    /// The dot product.
    pub fn dot(&self, other: &Self) -> (r: Scalar)
        ensures
            r == Self::spec_dot(*self, *other),
    {
        add_s(
            add_s(
                add_s(
                    mul_s(self.vals[0], other.vals[0]),
                    mul_s(self.vals[1], other.vals[1]),
                ),
                mul_s(self.vals[2], other.vals[2]),
            ),
            mul_s(self.vals[3], other.vals[3]),
        )
    }

    /// All components scaled by `-1.0 / (q . q)`, or the all-zero
    /// quaternion when the self dot product compares equal to zero.
    pub fn inverse(&self) -> (r: Self)
        ensures
            r.vals@ =~= Self::spec_inverse(*self),
    {
        let dot = self.dot(self);
        if dot == (Scalar { bits: F32_ZERO }) {
            return Self::new(
                [
                    Scalar { bits: F32_ZERO },
                    Scalar { bits: F32_ZERO },
                    Scalar { bits: F32_ZERO },
                    Scalar { bits: F32_ZERO },
                ],
            );
        }
        let dot_inv = div_s(Scalar { bits: F32_NEG_ONE }, dot);
        Self::new(
            [
                mul_s(self.vals[0], dot_inv),
                mul_s(self.vals[1], dot_inv),
                mul_s(self.vals[2], dot_inv),
                mul_s(self.vals[3], dot_inv),
            ],
        )
    }

    /// The conjugate: the vector part negated.
    pub fn conjugate(&self) -> (r: Self)
        ensures
            r.vals@ =~= Self::spec_conjugate(*self),
    {
        Self::new(
            [neg_s(self.vals[0]), neg_s(self.vals[1]), neg_s(self.vals[2]), self.vals[3]],
        )
    }

    /// All components scaled by the reciprocal of the length, or the
    /// all-zero quaternion when the length compares equal to zero.
    pub fn normalize(&self) -> (r: Self)
        ensures
            r.vals@ =~= Self::spec_normalize(*self),
    {
        let length = sqrt_s(self.dot(self));
        if length == (Scalar { bits: F32_ZERO }) {
            return Self::new(
                [
                    Scalar { bits: F32_ZERO },
                    Scalar { bits: F32_ZERO },
                    Scalar { bits: F32_ZERO },
                    Scalar { bits: F32_ZERO },
                ],
            );
        }
        let inv_len = div_s(Scalar { bits: F32_ONE }, length);
        Self::new(
            [
                mul_s(self.vals[0], inv_len),
                mul_s(self.vals[1], inv_len),
                mul_s(self.vals[2], inv_len),
                mul_s(self.vals[3], inv_len),
            ],
        )
    }

    /// The component at `index`.
    pub fn get(&self, index: usize) -> (r: Scalar)
        requires
            index < 4,
        ensures
            r == self.vals[index as int],
    {
        self.vals[index]
    }
}

} // verus!

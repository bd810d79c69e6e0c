//! 3x3 matrices, stored row-major: index `r*3 + c`.

use vstd::prelude::*;
use crate::scalar::{
    Scalar, F32_ZERO, F32_ONE, s_add, s_sub, s_mul, s_div, s_neg, s_sin, s_cos, add_s, sub_s,
    mul_s, div_s, neg_s, sin_s, cos_s,
};
use crate::vec_lib::mat4::Mat4f;
use crate::vec_lib::vec3::Vec3f;

verus! {

broadcast use vstd::array::group_array_axioms;

/// A 3x3 matrix of binary32 scalars, row-major.
#[derive(Clone, Copy, Debug)]
pub struct Mat3f {
    pub vals: [Scalar; 9],
}

impl Mat3f {
    /// The identity matrix, at the spec level.
    pub open spec fn spec_identity() -> Seq<Scalar> {
        seq![
            Scalar { bits: F32_ONE },
            Scalar { bits: F32_ZERO },
            Scalar { bits: F32_ZERO },
            Scalar { bits: F32_ZERO },
            Scalar { bits: F32_ONE },
            Scalar { bits: F32_ZERO },
            Scalar { bits: F32_ZERO },
            Scalar { bits: F32_ZERO },
            Scalar { bits: F32_ONE },
        ]
    }

    /// Embedding into the upper-left block of a 4x4 matrix, all other
    /// entries zero (the bottom-right corner included), at the spec level.
    pub open spec fn spec_to_mat4(a: Seq<Scalar>) -> Seq<Scalar> {
        seq![
            a[0],
            a[1],
            a[2],
            Scalar { bits: F32_ZERO },
            a[3],
            a[4],
            a[5],
            Scalar { bits: F32_ZERO },
            a[6],
            a[7],
            a[8],
            Scalar { bits: F32_ZERO },
            Scalar { bits: F32_ZERO },
            Scalar { bits: F32_ZERO },
            Scalar { bits: F32_ZERO },
            Scalar { bits: F32_ZERO },
        ]
    }

    /// The componentwise sum, at the spec level.
    pub open spec fn spec_add(a: Seq<Scalar>, b: Seq<Scalar>) -> Seq<Scalar> {
        seq![
            s_add(a[0], b[0]),
            s_add(a[1], b[1]),
            s_add(a[2], b[2]),
            s_add(a[3], b[3]),
            s_add(a[4], b[4]),
            s_add(a[5], b[5]),
            s_add(a[6], b[6]),
            s_add(a[7], b[7]),
            s_add(a[8], b[8]),
        ]
    }

    /// The row-major matrix product `a * b`, at the spec level: the
    /// entry at flat index `r*3 + c` is the dot product of row `r` of
    /// `a` with column `c` of `b`, summed in the executable code's
    /// order.
    pub open spec fn spec_multiply(a: Seq<Scalar>, b: Seq<Scalar>) -> Seq<Scalar> {
        seq![
            s_add(s_add(s_mul(a[0], b[0]), s_mul(a[1], b[3])), s_mul(a[2], b[6])),
            s_add(s_add(s_mul(a[0], b[1]), s_mul(a[1], b[4])), s_mul(a[2], b[7])),
            s_add(s_add(s_mul(a[0], b[2]), s_mul(a[1], b[5])), s_mul(a[2], b[8])),
            s_add(s_add(s_mul(a[3], b[0]), s_mul(a[4], b[3])), s_mul(a[5], b[6])),
            s_add(s_add(s_mul(a[3], b[1]), s_mul(a[4], b[4])), s_mul(a[5], b[7])),
            s_add(s_add(s_mul(a[3], b[2]), s_mul(a[4], b[5])), s_mul(a[5], b[8])),
            s_add(s_add(s_mul(a[6], b[0]), s_mul(a[7], b[3])), s_mul(a[8], b[6])),
            s_add(s_add(s_mul(a[6], b[1]), s_mul(a[7], b[4])), s_mul(a[8], b[7])),
            s_add(s_add(s_mul(a[6], b[2]), s_mul(a[7], b[5])), s_mul(a[8], b[8])),
        ]
    }

    /// The matrix-vector product, at the spec level: component `r` is the
    /// dot product of row `r` with the vector.
    pub open spec fn spec_multiply_vec3(a: Seq<Scalar>, v: Vec3f) -> Vec3f {
        Vec3f {
            x: s_add(
                s_add(s_mul(v.x, a[0]), s_mul(v.y, a[1])),
                s_mul(v.z, a[2]),
            ),
            y: s_add(
                s_add(s_mul(v.x, a[3]), s_mul(v.y, a[4])),
                s_mul(v.z, a[5]),
            ),
            z: s_add(
                s_add(s_mul(v.x, a[6]), s_mul(v.y, a[7])),
                s_mul(v.z, a[8]),
            ),
        }
    }

    /// Every entry multiplied by `val`, at the spec level.
    pub open spec fn spec_scale(a: Seq<Scalar>, val: Scalar) -> Seq<Scalar> {
        seq![
            s_mul(a[0], val),
            s_mul(a[1], val),
            s_mul(a[2], val),
            s_mul(a[3], val),
            s_mul(a[4], val),
            s_mul(a[5], val),
            s_mul(a[6], val),
            s_mul(a[7], val),
            s_mul(a[8], val),
        ]
    }

    /// The determinant by cofactor expansion, at the spec level, with
    /// the executable code's exact association:
    /// `-m2*m4*m6 + m1*m5*m6 + m2*m3*m7 - m0*m5*m7 - m1*m3*m8 + m0*m4*m8`.
    pub open spec fn spec_determinant(a: Seq<Scalar>) -> Scalar {
        s_add(
            s_sub(
                s_sub(
                    s_add(
                        s_add(
                            s_mul(s_mul(s_neg(a[2]), a[4]), a[6]),
                            s_mul(s_mul(a[1], a[5]), a[6]),
                        ),
                        s_mul(s_mul(a[2], a[3]), a[7]),
                    ),
                    s_mul(s_mul(a[0], a[5]), a[7]),
                ),
                s_mul(s_mul(a[1], a[3]), a[8]),
            ),
            s_mul(s_mul(a[0], a[4]), a[8]),
        )
    }

    /// The transpose of a row-major 3x3 entry sequence, at the spec level.
    pub open spec fn spec_transpose(s: Seq<Scalar>) -> Seq<Scalar> {
        seq![s[0], s[3], s[6], s[1], s[4], s[7], s[2], s[5], s[8]]
    }

    /// The cofactor inverse, at the spec level: the adjugate entries, each
    /// divided by the determinant. When the determinant is zero the
    /// entries are non-finite.
    pub open spec fn spec_inverse(a: Seq<Scalar>) -> Seq<Scalar> {
        let det = Self::spec_determinant(a);
        seq![
            s_div(s_sub(s_mul(a[4], a[8]), s_mul(a[5], a[7])), det),
            s_div(s_sub(s_mul(a[2], a[7]), s_mul(a[1], a[8])), det),
            s_div(s_sub(s_mul(a[1], a[5]), s_mul(a[2], a[4])), det),
            s_div(s_sub(s_mul(a[5], a[6]), s_mul(a[3], a[8])), det),
            s_div(s_sub(s_mul(a[0], a[8]), s_mul(a[2], a[6])), det),
            s_div(s_sub(s_mul(a[2], a[3]), s_mul(a[0], a[5])), det),
            s_div(s_sub(s_mul(a[3], a[7]), s_mul(a[4], a[6])), det),
            s_div(s_sub(s_mul(a[1], a[6]), s_mul(a[0], a[7])), det),
            s_div(s_sub(s_mul(a[0], a[4]), s_mul(a[1], a[3])), det),
        ]
    }

    /// The cross-product generator of an axis, at the spec level:
    /// `[0, -az, ay; az, 0, -ax; -ay, ax, 0]`.
    pub open spec fn spec_cross_generator(axis: Vec3f) -> Seq<Scalar> {
        seq![
            Scalar { bits: F32_ZERO },
            s_neg(axis.z),
            axis.y,
            axis.z,
            Scalar { bits: F32_ZERO },
            s_neg(axis.x),
            s_neg(axis.y),
            axis.x,
            Scalar { bits: F32_ZERO },
        ]
    }

    /// The Rodrigues rotation matrix, at the spec level:
    /// `I + sin(radians)*K + (1 - cos(radians))*K^2`, with `K` the
    /// cross-product generator of the axis (used as given, not
    /// normalized), composed exactly as the executable code does.
    pub open spec fn spec_rotate(axis: Vec3f, radians: Scalar) -> Seq<Scalar> {
        let k = Self::spec_cross_generator(axis);
        let k2 = Self::spec_multiply(k, k);
        let sin = s_sin(radians);
        let cos = s_sub(Scalar { bits: F32_ONE }, s_cos(radians));
        let ksin = Self::spec_scale(k, sin);
        let k2cos = Self::spec_scale(k2, cos);
        let sum = Self::spec_add(ksin, k2cos);
        Self::spec_add(Self::spec_identity(), sum)
    }

    /// Wraps the nine entries as a matrix.
    pub fn new(vals: [Scalar; 9]) -> (r: Self)
        ensures
            r.vals == vals,
    {
        Mat3f { vals }
    }

    /// The identity matrix.
    pub fn identity() -> (r: Self)
        ensures
            r.vals@ =~= Self::spec_identity(),
    {
        Self::new(
            [
                Scalar { bits: F32_ONE },
                Scalar { bits: F32_ZERO },
                Scalar { bits: F32_ZERO },
                Scalar { bits: F32_ZERO },
                Scalar { bits: F32_ONE },
                Scalar { bits: F32_ZERO },
                Scalar { bits: F32_ZERO },
                Scalar { bits: F32_ZERO },
                Scalar { bits: F32_ONE },
            ],
        )
    }

    /// Embeds the matrix into the upper-left block of a 4x4 matrix; all
    /// other entries, the bottom-right corner included, are zero.
    pub fn to_mat4(&self) -> (r: Mat4f)
        ensures
            r.vals@ =~= Self::spec_to_mat4(self.vals@),
    {
        Mat4f::new(
            [
                self.vals[0],
                self.vals[1],
                self.vals[2],
                Scalar { bits: F32_ZERO },
                self.vals[3],
                self.vals[4],
                self.vals[5],
                Scalar { bits: F32_ZERO },
                self.vals[6],
                self.vals[7],
                self.vals[8],
                Scalar { bits: F32_ZERO },
                Scalar { bits: F32_ZERO },
                Scalar { bits: F32_ZERO },
                Scalar { bits: F32_ZERO },
                Scalar { bits: F32_ZERO },
            ],
        )
    }

    /// The componentwise sum.
    pub fn add_mat3(&self, other: &Self) -> (r: Self)
        ensures
            r.vals@ =~= Self::spec_add(self.vals@, other.vals@),
    {
        Self::new(
            [
                add_s(self.vals[0], other.vals[0]),
                add_s(self.vals[1], other.vals[1]),
                add_s(self.vals[2], other.vals[2]),
                add_s(self.vals[3], other.vals[3]),
                add_s(self.vals[4], other.vals[4]),
                add_s(self.vals[5], other.vals[5]),
                add_s(self.vals[6], other.vals[6]),
                add_s(self.vals[7], other.vals[7]),
                add_s(self.vals[8], other.vals[8]),
            ],
        )
    }

    /// Adds `other` into `self` componentwise.
    pub fn add_mat3_mut(&mut self, other: &Self) -> (r: &mut Self)
        ensures
            *final(self) == *final(r),
            r.vals@ =~= Self::spec_add(old(self).vals@, other.vals@),
    {
        let res = self.add_mat3(other);
        *self = res;
        self
    }

    /// The matrix product; see [`Self::spec_multiply`] for the entry
    /// layout.
    pub fn multiply_mat3(&self, other: &Self) -> (r: Self)
        ensures
            r.vals@ =~= Self::spec_multiply(self.vals@, other.vals@),
    {
        Self::new(
            [
                add_s(add_s(mul_s(self.vals[0], other.vals[0]), mul_s(self.vals[1], other.vals[3])), mul_s(self.vals[2], other.vals[6])),
                add_s(add_s(mul_s(self.vals[0], other.vals[1]), mul_s(self.vals[1], other.vals[4])), mul_s(self.vals[2], other.vals[7])),
                add_s(add_s(mul_s(self.vals[0], other.vals[2]), mul_s(self.vals[1], other.vals[5])), mul_s(self.vals[2], other.vals[8])),
                add_s(add_s(mul_s(self.vals[3], other.vals[0]), mul_s(self.vals[4], other.vals[3])), mul_s(self.vals[5], other.vals[6])),
                add_s(add_s(mul_s(self.vals[3], other.vals[1]), mul_s(self.vals[4], other.vals[4])), mul_s(self.vals[5], other.vals[7])),
                add_s(add_s(mul_s(self.vals[3], other.vals[2]), mul_s(self.vals[4], other.vals[5])), mul_s(self.vals[5], other.vals[8])),
                add_s(add_s(mul_s(self.vals[6], other.vals[0]), mul_s(self.vals[7], other.vals[3])), mul_s(self.vals[8], other.vals[6])),
                add_s(add_s(mul_s(self.vals[6], other.vals[1]), mul_s(self.vals[7], other.vals[4])), mul_s(self.vals[8], other.vals[7])),
                add_s(add_s(mul_s(self.vals[6], other.vals[2]), mul_s(self.vals[7], other.vals[5])), mul_s(self.vals[8], other.vals[8])),
            ],
        )
    }

    /// Replaces `self` with the matrix product.
    pub fn multiply_mat3_mut(&mut self, other: &Self) -> (r: &mut Self)
        ensures
            *final(self) == *final(r),
            r.vals@ =~= Self::spec_multiply(old(self).vals@, other.vals@),
    {
        let result = self.multiply_mat3(other);
        *self = result;
        self
    }

    /// The matrix-vector product.
    pub fn multiply_vec3(&self, vec: &Vec3f) -> (r: Vec3f)
        ensures
            r == Self::spec_multiply_vec3(self.vals@, *vec),
    {
        Vec3f::new(
            add_s(
                add_s(mul_s(vec.x(), self.vals[0]), mul_s(vec.y(), self.vals[1])),
                mul_s(vec.z(), self.vals[2]),
            ),
            add_s(
                add_s(mul_s(vec.x(), self.vals[3]), mul_s(vec.y(), self.vals[4])),
                mul_s(vec.z(), self.vals[5]),
            ),
            add_s(
                add_s(mul_s(vec.x(), self.vals[6]), mul_s(vec.y(), self.vals[7])),
                mul_s(vec.z(), self.vals[8]),
            ),
        )
    }

    /// Replaces `vec` with the matrix-vector product.
    pub fn multiply_vec3_mut<'a>(&'a self, vec: &'a mut Vec3f) -> (r: &mut Vec3f)
        ensures
            *final(vec) == *final(r),
            *r == Self::spec_multiply_vec3(self.vals@, *old(vec)),
    {
        let result = self.multiply_vec3(vec);
        *vec = result;
        vec
    }

    /// Every entry multiplied by `val`.
    pub fn scale(&self, val: Scalar) -> (r: Self)
        ensures
            r.vals@ =~= Self::spec_scale(self.vals@, val),
    {
        Self::new(
            [
                mul_s(self.vals[0], val),
                mul_s(self.vals[1], val),
                mul_s(self.vals[2], val),
                mul_s(self.vals[3], val),
                mul_s(self.vals[4], val),
                mul_s(self.vals[5], val),
                mul_s(self.vals[6], val),
                mul_s(self.vals[7], val),
                mul_s(self.vals[8], val),
            ],
        )
    }

    /// Multiplies every entry by `val` in place.
    pub fn scale_mut(&mut self, val: Scalar) -> (r: &mut Self)
        ensures
            *final(self) == *final(r),
            r.vals@ =~= Self::spec_scale(old(self).vals@, val),
    {
        let res = self.scale(val);
        *self = res;
        self
    }

    /// The determinant by cofactor expansion.
    pub fn determinant(self) -> (r: Scalar)
        ensures
            r == Self::spec_determinant(self.vals@),
    {
        add_s(
            sub_s(
                sub_s(
                    add_s(
                        add_s(
                            mul_s(mul_s(neg_s(self.vals[2]), self.vals[4]), self.vals[6]),
                            mul_s(mul_s(self.vals[1], self.vals[5]), self.vals[6]),
                        ),
                        mul_s(mul_s(self.vals[2], self.vals[3]), self.vals[7]),
                    ),
                    mul_s(mul_s(self.vals[0], self.vals[5]), self.vals[7]),
                ),
                mul_s(mul_s(self.vals[1], self.vals[3]), self.vals[8]),
            ),
            mul_s(mul_s(self.vals[0], self.vals[4]), self.vals[8]),
        )
    }

    /// The transpose.
    pub fn transpose(&self) -> (r: Self)
        ensures
            r.vals@ =~= Self::spec_transpose(self.vals@),
    {
        Self::new(
            [
                self.vals[0],
                self.vals[3],
                self.vals[6],
                self.vals[1],
                self.vals[4],
                self.vals[7],
                self.vals[2],
                self.vals[5],
                self.vals[8],
            ],
        )
    }

    /// Transposes in place.
    pub fn transpose_mut(&mut self) -> (r: &mut Self)
        ensures
            *final(self) == *final(r),
            r.vals@ =~= Self::spec_transpose(old(self).vals@),
    {
        let result = self.transpose();
        *self = result;
        self
    }

    /// The cofactor inverse. Callers must not invert singular matrices:
    /// when the determinant is zero the entries are non-finite.
    pub fn inverse(&self) -> (r: Self)
        ensures
            r.vals@ =~= Self::spec_inverse(self.vals@),
    {
        let det = self.determinant();
        Self::new(
            [
                div_s(sub_s(mul_s(self.vals[4], self.vals[8]), mul_s(self.vals[5], self.vals[7])), det),
                div_s(sub_s(mul_s(self.vals[2], self.vals[7]), mul_s(self.vals[1], self.vals[8])), det),
                div_s(sub_s(mul_s(self.vals[1], self.vals[5]), mul_s(self.vals[2], self.vals[4])), det),
                div_s(sub_s(mul_s(self.vals[5], self.vals[6]), mul_s(self.vals[3], self.vals[8])), det),
                div_s(sub_s(mul_s(self.vals[0], self.vals[8]), mul_s(self.vals[2], self.vals[6])), det),
                div_s(sub_s(mul_s(self.vals[2], self.vals[3]), mul_s(self.vals[0], self.vals[5])), det),
                div_s(sub_s(mul_s(self.vals[3], self.vals[7]), mul_s(self.vals[4], self.vals[6])), det),
                div_s(sub_s(mul_s(self.vals[1], self.vals[6]), mul_s(self.vals[0], self.vals[7])), det),
                div_s(sub_s(mul_s(self.vals[0], self.vals[4]), mul_s(self.vals[1], self.vals[3])), det),
            ],
        )
    }

    /// Replaces `self` with its cofactor inverse.
    pub fn inverse_mut(&mut self) -> (r: &mut Self)
        ensures
            *final(self) == *final(r),
            r.vals@ =~= Self::spec_inverse(old(self).vals@),
    {
        let inverted = self.inverse();
        *self = inverted;
        self
    }

    /// The Rodrigues rotation matrix about `axis` (used as given, not
    /// normalized) by `radians`; `self` does not enter the result.
    pub fn rotate(&self, axis: &Vec3f, radians: Scalar) -> (r: Self)
        ensures
            r.vals@ =~= Self::spec_rotate(*axis, radians),
    {
        let k = Self::new(
            [
                Scalar { bits: F32_ZERO },
                neg_s(axis.z()),
                axis.y(),
                axis.z(),
                Scalar { bits: F32_ZERO },
                neg_s(axis.x()),
                neg_s(axis.y()),
                axis.x(),
                Scalar { bits: F32_ZERO },
            ],
        );
        let k2 = k.multiply_mat3(&k);
        let sin = sin_s(radians);
        let cos = sub_s(Scalar { bits: F32_ONE }, cos_s(radians));
        let ksin = k.scale(sin);
        let k2cos = k2.scale(cos);
        let sum = ksin.add_mat3(&k2cos);
        Self::identity().add_mat3(&sum)
    }

    /// Replaces `self` with the Rodrigues rotation matrix.
    pub fn rotate_mut(&mut self, axis: &Vec3f, radians: Scalar) -> (r: &mut Self)
        ensures
            *final(self) == *final(r),
            r.vals@ =~= Self::spec_rotate(*axis, radians),
    {
        let rotated = self.rotate(axis, radians);
        *self = rotated;
        self
    }

    /// The entry at `index`.
    pub fn get(&self, index: usize) -> (r: Scalar)
        requires
            index < 9,
        ensures
            r == self.vals[index as int],
    {
        self.vals[index]
    }
}

/// Transposition is an involution: transposing any 3x3 matrix twice gives
/// back exactly the same entries.
pub proof fn lemma_transpose_involutive_mat3(s: Seq<Scalar>)
    requires
        s.len() == 9,
    ensures
        Mat3f::spec_transpose(Mat3f::spec_transpose(s)) == s,
{
    assert(Mat3f::spec_transpose(Mat3f::spec_transpose(s)) =~= s);
}

} // verus!

//! 2x2 matrices, stored row-major: index `r*2 + c`.

use vstd::prelude::*;
use crate::scalar::{
    Scalar, F32_ZERO, F32_ONE, s_add, s_sub, s_mul, s_div, s_neg, s_sin, s_cos, add_s, sub_s,
    mul_s, div_s, neg_s, sin_s, cos_s,
};
use crate::vec_lib::vec2::Vec2f;

verus! {

broadcast use vstd::array::group_array_axioms;

/// A 2x2 matrix of binary32 scalars, row-major.
#[derive(Clone, Copy, Debug)]
pub struct Mat2f {
    pub vals: [Scalar; 4],
}

impl Mat2f {
    /// The identity matrix, at the spec level.
    pub open spec fn spec_identity() -> Seq<Scalar> {
        seq![
            Scalar { bits: F32_ONE },
            Scalar { bits: F32_ZERO },
            Scalar { bits: F32_ZERO },
            Scalar { bits: F32_ONE },
        ]
    }

    /// The componentwise sum, at the spec level.
    pub open spec fn spec_add(a: Seq<Scalar>, b: Seq<Scalar>) -> Seq<Scalar> {
        seq![
            s_add(a[0], b[0]),
            s_add(a[1], b[1]),
            s_add(a[2], b[2]),
            s_add(a[3], b[3]),
        ]
    }

    /// The matrix product `a * b`, row-major, at the spec level.
    pub open spec fn spec_multiply(a: Seq<Scalar>, b: Seq<Scalar>) -> Seq<Scalar> {
        seq![
            s_add(s_mul(a[0], b[0]), s_mul(a[1], b[2])),
            s_add(s_mul(a[0], b[1]), s_mul(a[1], b[3])),
            s_add(s_mul(a[2], b[0]), s_mul(a[3], b[2])),
            s_add(s_mul(a[2], b[1]), s_mul(a[3], b[3])),
        ]
    }

    /// The matrix-vector product, at the spec level.
    pub open spec fn spec_multiply_vec2(a: Seq<Scalar>, v: Vec2f) -> Vec2f {
        Vec2f {
            x: s_add(s_mul(v.x, a[0]), s_mul(v.y, a[1])),
            y: s_add(s_mul(v.x, a[2]), s_mul(v.y, a[3])),
        }
    }

    /// Every entry multiplied by `val`, at the spec level.
    pub open spec fn spec_scale(a: Seq<Scalar>, val: Scalar) -> Seq<Scalar> {
        seq![
            s_mul(a[0], val),
            s_mul(a[1], val),
            s_mul(a[2], val),
            s_mul(a[3], val),
        ]
    }

    /// The determinant `m3*m0 - m1*m2`, at the spec level.
    pub open spec fn spec_determinant(a: Seq<Scalar>) -> Scalar {
        s_sub(s_mul(a[3], a[0]), s_mul(a[1], a[2]))
    }

    /// The transpose of a row-major 2x2 entry sequence, at the spec level.
    pub open spec fn spec_transpose(s: Seq<Scalar>) -> Seq<Scalar> {
        seq![s[0], s[2], s[1], s[3]]
    }

    /// The cofactor inverse, at the spec level: defined only up to the
    /// IEEE-754 quotients it is built from; when the determinant is zero
    /// the entries are non-finite.
    pub open spec fn spec_inverse(a: Seq<Scalar>) -> Seq<Scalar> {
        let det = Self::spec_determinant(a);
        seq![
            s_div(a[3], det),
            s_div(s_neg(a[1]), det),
            s_div(s_neg(a[2]), det),
            s_div(a[0], det),
        ]
    }

    /// Rotation of the matrix rows by an angle, at the spec level,
    /// term by term as the executable code computes it.
    pub open spec fn spec_rotate(a: Seq<Scalar>, radians: Scalar) -> Seq<Scalar> {
        let sin = s_sin(radians);
        let cos = s_cos(radians);
        seq![
            s_add(s_mul(a[0], cos), s_mul(a[1], sin)),
            s_add(s_mul(a[2], cos), s_mul(a[3], sin)),
            s_add(s_mul(a[0], s_neg(sin)), s_mul(a[2], cos)),
            s_add(s_mul(a[2], s_neg(sin)), s_mul(a[3], cos)),
        ]
    }

    /// Wraps the four entries as a matrix.
    pub fn new(vals: [Scalar; 4]) -> (r: Self)
        ensures
            r.vals == vals,
    {
        Mat2f { vals }
    }

    /// The identity matrix.
    pub fn identity() -> (r: Self)
        ensures
            r.vals@ =~= Self::spec_identity(),
    {
        Self::new(
            [
                Scalar { bits: F32_ONE },
                Scalar { bits: F32_ZERO },
                Scalar { bits: F32_ZERO },
                Scalar { bits: F32_ONE },
            ],
        )
    }

    /// The componentwise sum.
    pub fn add_mat2(&self, other: &Self) -> (r: Self)
        ensures
            r.vals@ =~= Self::spec_add(self.vals@, other.vals@),
    {
        Self::new(
            [
                add_s(self.vals[0], other.vals[0]),
                add_s(self.vals[1], other.vals[1]),
                add_s(self.vals[2], other.vals[2]),
                add_s(self.vals[3], other.vals[3]),
            ],
        )
    }

    /// Adds `other` into `self` componentwise.
    pub fn add_mat2_mut(&mut self, other: &Self) -> (r: &mut Self)
        ensures
            *final(self) == *final(r),
            r.vals@ =~= Self::spec_add(old(self).vals@, other.vals@),
    {
        let res = self.add_mat2(other);
        *self = res;
        self
    }

    /// The matrix product `self * other`.
    pub fn multiply_mat2(&self, other: &Self) -> (r: Self)
        ensures
            r.vals@ =~= Self::spec_multiply(self.vals@, other.vals@),
    {
        Self::new(
            [
                add_s(mul_s(self.vals[0], other.vals[0]), mul_s(self.vals[1], other.vals[2])),
                add_s(mul_s(self.vals[0], other.vals[1]), mul_s(self.vals[1], other.vals[3])),
                add_s(mul_s(self.vals[2], other.vals[0]), mul_s(self.vals[3], other.vals[2])),
                add_s(mul_s(self.vals[2], other.vals[1]), mul_s(self.vals[3], other.vals[3])),
            ],
        )
    }

    /// Replaces `self` with `self * other`.
    pub fn multiply_mat2_mut(&mut self, other: &Self) -> (r: &mut Self)
        ensures
            *final(self) == *final(r),
            r.vals@ =~= Self::spec_multiply(old(self).vals@, other.vals@),
    {
        let result = self.multiply_mat2(other);
        *self = result;
        self
    }

    /// The matrix-vector product.
    pub fn multiply_vec2(&self, vec: &Vec2f) -> (r: Vec2f)
        ensures
            r == Self::spec_multiply_vec2(self.vals@, *vec),
    {
        Vec2f::new(
            add_s(mul_s(vec.x(), self.vals[0]), mul_s(vec.y(), self.vals[1])),
            add_s(mul_s(vec.x(), self.vals[2]), mul_s(vec.y(), self.vals[3])),
        )
    }

    /// Replaces `vec` with the matrix-vector product.
    pub fn multiply_vec2_mut<'a>(&'a self, vec: &'a mut Vec2f) -> (r: &mut Vec2f)
        ensures
            *final(vec) == *final(r),
            *r == Self::spec_multiply_vec2(self.vals@, *old(vec)),
    {
        let result = self.multiply_vec2(vec);
        *vec = result;
        vec
    }

    /// Every entry multiplied by `val`.
    pub fn scale(&self, val: Scalar) -> (r: Self)
        ensures
            r.vals@ =~= Self::spec_scale(self.vals@, val),
    {
        Self::new(
            [
                mul_s(self.vals[0], val),
                mul_s(self.vals[1], val),
                mul_s(self.vals[2], val),
                mul_s(self.vals[3], val),
            ],
        )
    }

    /// Multiplies every entry by `val` in place.
    pub fn scale_mut(&mut self, val: Scalar) -> (r: &mut Self)
        ensures
            *final(self) == *final(r),
            r.vals@ =~= Self::spec_scale(old(self).vals@, val),
    {
        let res = self.scale(val);
        *self = res;
        self
    }

    /// The determinant.
    pub fn determinant(&self) -> (r: Scalar)
        ensures
            r == Self::spec_determinant(self.vals@),
    {
        sub_s(mul_s(self.vals[3], self.vals[0]), mul_s(self.vals[1], self.vals[2]))
    }

    /// The transpose.
    pub fn transpose(&self) -> (r: Self)
        ensures
            r.vals@ =~= Self::spec_transpose(self.vals@),
    {
        Self::new([self.vals[0], self.vals[2], self.vals[1], self.vals[3]])
    }

    /// Transposes in place.
    pub fn transpose_mut(&mut self) -> (r: &mut Self)
        ensures
            *final(self) == *final(r),
            r.vals@ =~= Self::spec_transpose(old(self).vals@),
    {
        let res = self.transpose();
        *self = res;
        self
    }

    /// The cofactor inverse. Callers must not invert singular matrices:
    /// when the determinant is zero the entries are non-finite.
    pub fn inverse(&self) -> (r: Self)
        ensures
            r.vals@ =~= Self::spec_inverse(self.vals@),
    {
        let det = self.determinant();
        Self::new(
            [
                div_s(self.vals[3], det),
                div_s(neg_s(self.vals[1]), det),
                div_s(neg_s(self.vals[2]), det),
                div_s(self.vals[0], det),
            ],
        )
    }

    /// Replaces `self` with its cofactor inverse.
    pub fn inverse_mut(&mut self) -> (r: &mut Self)
        ensures
            *final(self) == *final(r),
            r.vals@ =~= Self::spec_inverse(old(self).vals@),
    {
        let inverted = self.inverse();
        *self = inverted;
        self
    }

    /// The matrix with its rows rotated by `radians`.
    pub fn rotate(&self, radians: Scalar) -> (r: Self)
        ensures
            r.vals@ =~= Self::spec_rotate(self.vals@, radians),
    {
        let sin = sin_s(radians);
        let cos = cos_s(radians);
        Self::new(
            [
                add_s(mul_s(self.vals[0], cos), mul_s(self.vals[1], sin)),
                add_s(mul_s(self.vals[2], cos), mul_s(self.vals[3], sin)),
                add_s(mul_s(self.vals[0], neg_s(sin)), mul_s(self.vals[2], cos)),
                add_s(mul_s(self.vals[2], neg_s(sin)), mul_s(self.vals[3], cos)),
            ],
        )
    }

    /// Rotates the rows in place.
    pub fn rotate_mut(&mut self, radians: Scalar) -> (r: &mut Self)
        ensures
            *final(self) == *final(r),
            r.vals@ =~= Self::spec_rotate(old(self).vals@, radians),
    {
        let rotated = self.rotate(radians);
        *self = rotated;
        self
    }

    /// The entry at `index`.
    pub fn get(&self, index: usize) -> (r: Scalar)
        requires
            index < 4,
        ensures
            r == self.vals[index as int],
    {
        self.vals[index]
    }
}

/// Transposition is an involution: transposing any 2x2 matrix twice gives
/// back exactly the same entries.
pub proof fn lemma_transpose_involutive_mat2(s: Seq<Scalar>)
    requires
        s.len() == 4,
    ensures
        Mat2f::spec_transpose(Mat2f::spec_transpose(s)) == s,
{
    assert(Mat2f::spec_transpose(Mat2f::spec_transpose(s)) =~= s);
}

} // verus!

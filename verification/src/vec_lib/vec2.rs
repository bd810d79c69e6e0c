//! Two-component vectors.

use vstd::prelude::*;
use crate::scalar::{
    Scalar, F32_ONE, s_add, s_sub, s_mul, s_div, s_neg, s_sqrt, add_s, sub_s, mul_s, div_s, neg_s,
    sqrt_s,
};

verus! {

/// An immutable pair of binary32 scalars.
#[derive(Clone, Copy, Debug)]
pub struct Vec2f {
    pub x: Scalar,
    pub y: Scalar,
}

impl Vec2f {
    /// The componentwise sum, at the spec level.
    pub open spec fn spec_add(a: Vec2f, b: Vec2f) -> Vec2f {
        Vec2f { x: s_add(a.x, b.x), y: s_add(a.y, b.y) }
    }

    /// The componentwise difference, at the spec level.
    pub open spec fn spec_sub(a: Vec2f, b: Vec2f) -> Vec2f {
        Vec2f { x: s_sub(a.x, b.x), y: s_sub(a.y, b.y) }
    }

    /// The componentwise product with a scalar, at the spec level.
    pub open spec fn spec_scale(a: Vec2f, val: Scalar) -> Vec2f {
        Vec2f { x: s_mul(a.x, val), y: s_mul(a.y, val) }
    }

    /// The componentwise negation, at the spec level.
    pub open spec fn spec_negate(a: Vec2f) -> Vec2f {
        Vec2f { x: s_neg(a.x), y: s_neg(a.y) }
    }

    /// The dot product `a.x*b.x + a.y*b.y`, at the spec level.
    pub open spec fn spec_dot(a: Vec2f, b: Vec2f) -> Scalar {
        s_add(s_mul(a.x, b.x), s_mul(a.y, b.y))
    }

    /// The squared Euclidean length, at the spec level.
    pub open spec fn spec_squared_length(a: Vec2f) -> Scalar {
        Self::spec_dot(a, a)
    }

    /// The Euclidean length, at the spec level.
    pub open spec fn spec_length(a: Vec2f) -> Scalar {
        s_sqrt(Self::spec_squared_length(a))
    }

    /// Scaling by the reciprocal of the length, at the spec level. For a
    /// vector of zero length the reciprocal is not finite and the result
    /// holds non-finite components; this mirrors the executable code,
    /// which does not guard that case.
    pub open spec fn spec_normalize(a: Vec2f) -> Vec2f {
        Self::spec_scale(a, s_div(Scalar { bits: F32_ONE }, Self::spec_length(a)))
    }

    /// Builds a vector from its two components.
    pub fn new(x: Scalar, y: Scalar) -> (r: Self)
        ensures
            r == (Vec2f { x, y }),
    {
        Vec2f { x, y }
    }

    /// Adds `other` into `self` componentwise.
    pub fn add_mut(&mut self, other: &Self) -> (r: &mut Self)
        ensures
            *final(self) == *final(r),
            *r == Self::spec_add(*old(self), *other),
    {
        self.x = add_s(self.x, other.x);
        self.y = add_s(self.y, other.y);
        self
    }

    /// The componentwise difference.
    pub fn sub(&self, other: &Self) -> (r: Self)
        ensures
            r == Self::spec_sub(*self, *other),
    {
        Self::new(sub_s(self.x, other.x), sub_s(self.y, other.y))
    }

    /// Subtracts `other` from `self` componentwise.
    pub fn sub_mut(&mut self, other: &Self) -> (r: &mut Self)
        ensures
            *final(self) == *final(r),
            *r == Self::spec_sub(*old(self), *other),
    {
        self.x = sub_s(self.x, other.x);
        self.y = sub_s(self.y, other.y);
        self
    }

    /// The componentwise product with a scalar.
    pub fn scale(&self, val: Scalar) -> (r: Self)
        ensures
            r == Self::spec_scale(*self, val),
    {
        Self::new(mul_s(self.x, val), mul_s(self.y, val))
    }

    /// Multiplies both components by a scalar in place.
    pub fn scale_mut(&mut self, val: Scalar) -> (r: &mut Self)
        ensures
            *final(self) == *final(r),
            *r == Self::spec_scale(*old(self), val),
    {
        self.x = mul_s(self.x, val);
        self.y = mul_s(self.y, val);
        self
    }

    /// The componentwise negation.
    pub fn negate(&self) -> (r: Self)
        ensures
            r == Self::spec_negate(*self),
    {
        Self::new(neg_s(self.x), neg_s(self.y))
    }

    /// Negates both components in place.
    pub fn negate_mut(&mut self) -> (r: &mut Self)
        ensures
            *final(self) == *final(r),
            *r == Self::spec_negate(*old(self)),
    {
        self.x = neg_s(self.x);
        self.y = neg_s(self.y);
        self
    }

    /// Scales the vector by the reciprocal of its length. Defined for all
    /// inputs; only for `|v| > 0` is the result a unit vector, the zero
    /// vector yields non-finite components.
    pub fn normalize(&self) -> (r: Self)
        ensures
            r == Self::spec_normalize(*self),
    {
        let length = self.length();
        self.scale(div_s(Scalar { bits: F32_ONE }, length))
    }

    /// In-place [`Self::normalize`].
    pub fn normalize_mut(&mut self) -> (r: &mut Self)
        ensures
            *final(self) == *final(r),
            *r == Self::spec_normalize(*old(self)),
    {
        let length = self.length();
        self.scale_mut(div_s(Scalar { bits: F32_ONE }, length))
    }

    /// The Euclidean length.
    pub fn length(&self) -> (r: Scalar)
        ensures
            r == Self::spec_length(*self),
    {
        sqrt_s(self.squared_length())
    }

    /// The squared Euclidean length.
    pub fn squared_length(&self) -> (r: Scalar)
        ensures
            r == Self::spec_squared_length(*self),
    {
        self.dot(self)
    }

    /// The dot product.
    pub fn dot(&self, other: &Self) -> (r: Scalar)
        ensures
            r == Self::spec_dot(*self, *other),
    {
        add_s(mul_s(self.x, other.x), mul_s(self.y, other.y))
    }

    /// The first component.
    pub fn x(&self) -> (r: Scalar)
        ensures
            r == self.x,
    {
        self.x
    }

    /// A mutable borrow of the first component.
    pub fn x_mut(&mut self) -> (r: &mut Scalar)
        ensures
            *r == old(self).x,
            *final(self) == (Vec2f { x: *final(r), y: old(self).y }),
    {
        &mut self.x
    }

    /// The second component.
    pub fn y(&self) -> (r: Scalar)
        ensures
            r == self.y,
    {
        self.y
    }

    /// A mutable borrow of the second component.
    pub fn y_mut(&mut self) -> (r: &mut Scalar)
        ensures
            *r == old(self).y,
            *final(self) == (Vec2f { x: old(self).x, y: *final(r) }),
    {
        &mut self.y
    }
}

} // verus!

//! Three-component vectors.

use vstd::prelude::*;
use crate::scalar::{
    Scalar, F32_ONE, f32_eq, s_add, s_sub, s_mul, s_div, s_neg, s_sqrt, add_s, sub_s, mul_s, div_s,
    neg_s, sqrt_s,
};
use crate::vec_lib::vec2::Vec2f;
use crate::vec_lib::vec4::Vec4f;

verus! {

/// An immutable triple of binary32 scalars.
#[derive(Clone, Copy, Debug)]
pub struct Vec3f {
    pub x: Scalar,
    pub y: Scalar,
    pub z: Scalar,
}

impl Vec3f {
    /// The componentwise sum, at the spec level.
    pub open spec fn spec_add(a: Vec3f, b: Vec3f) -> Vec3f {
        Vec3f { x: s_add(a.x, b.x), y: s_add(a.y, b.y), z: s_add(a.z, b.z) }
    }

    /// The componentwise difference, at the spec level.
    pub open spec fn spec_sub(a: Vec3f, b: Vec3f) -> Vec3f {
        Vec3f { x: s_sub(a.x, b.x), y: s_sub(a.y, b.y), z: s_sub(a.z, b.z) }
    }

    /// The componentwise product with a scalar, at the spec level.
    pub open spec fn spec_scale(a: Vec3f, val: Scalar) -> Vec3f {
        Vec3f { x: s_mul(a.x, val), y: s_mul(a.y, val), z: s_mul(a.z, val) }
    }

    /// The componentwise negation, at the spec level.
    pub open spec fn spec_negate(a: Vec3f) -> Vec3f {
        Vec3f { x: s_neg(a.x), y: s_neg(a.y), z: s_neg(a.z) }
    }

    /// The dot product `(a.x*b.x + a.y*b.y) + a.z*b.z`, at the spec level.
    pub open spec fn spec_dot(a: Vec3f, b: Vec3f) -> Scalar {
        s_add(s_add(s_mul(a.x, b.x), s_mul(a.y, b.y)), s_mul(a.z, b.z))
    }

    /// The squared Euclidean length, at the spec level.
    pub open spec fn spec_squared_length(a: Vec3f) -> Scalar {
        Self::spec_dot(a, a)
    }

    /// The Euclidean length, at the spec level.
    pub open spec fn spec_length(a: Vec3f) -> Scalar {
        s_sqrt(Self::spec_squared_length(a))
    }

    /// Scaling by the reciprocal of the length, at the spec level. For a
    /// vector of zero length the reciprocal is not finite and the result
    /// holds non-finite components; this mirrors the executable code,
    /// which does not guard that case.
    pub open spec fn spec_normalize(a: Vec3f) -> Vec3f {
        Self::spec_scale(a, s_div(Scalar { bits: F32_ONE }, Self::spec_length(a)))
    }

    /// The cross product, at the spec level.
    pub open spec fn spec_cross(a: Vec3f, b: Vec3f) -> Vec3f {
        Vec3f {
            x: s_sub(s_mul(a.y, b.z), s_mul(a.z, b.y)),
            y: s_sub(s_mul(a.z, b.x), s_mul(a.x, b.z)),
            z: s_sub(s_mul(a.x, b.y), s_mul(a.y, b.x)),
        }
    }

    /// IEEE-754 componentwise equality, at the spec level: what the
    /// executable `==` decides.
    pub open spec fn spec_eq(a: Vec3f, b: Vec3f) -> bool {
        f32_eq(a.x.bits, b.x.bits) && f32_eq(a.y.bits, b.y.bits) && f32_eq(a.z.bits, b.z.bits)
    }

    /// Builds a vector from its three components.
    pub fn new(x: Scalar, y: Scalar, z: Scalar) -> (r: Self)
        ensures
            r == (Vec3f { x, y, z }),
    {
        Vec3f { x, y, z }
    }

    /// Extends the vector with a fourth component.
    pub fn to_vec4(&self, w: Scalar) -> (r: Vec4f)
        ensures
            r == (Vec4f { x: self.x, y: self.y, z: self.z, w }),
    {
        Vec4f::new(self.x, self.y, self.z, w)
    }

    /// The componentwise sum.
    pub fn add(&self, other: &Self) -> (r: Self)
        ensures
            r == Self::spec_add(*self, *other),
    {
        Self::new(add_s(self.x, other.x), add_s(self.y, other.y), add_s(self.z, other.z))
    }

    /// Adds `other` into `self` componentwise.
    pub fn add_mut(&mut self, other: &Self) -> (r: &mut Self)
        ensures
            *final(self) == *final(r),
            *r == Self::spec_add(*old(self), *other),
    {
        self.x = add_s(self.x, other.x);
        self.y = add_s(self.y, other.y);
        self.z = add_s(self.z, other.z);
        self
    }

    /// The componentwise difference.
    pub fn sub(&self, other: &Self) -> (r: Self)
        ensures
            r == Self::spec_sub(*self, *other),
    {
        Self::new(sub_s(self.x, other.x), sub_s(self.y, other.y), sub_s(self.z, other.z))
    }

    /// Subtracts `other` from `self` componentwise.
    pub fn sub_mut(&mut self, other: &Self) -> (r: &mut Self)
        ensures
            *final(self) == *final(r),
            *r == Self::spec_sub(*old(self), *other),
    {
        self.x = sub_s(self.x, other.x);
        self.y = sub_s(self.y, other.y);
        self.z = sub_s(self.z, other.z);
        self
    }

    /// The componentwise product with a scalar.
    pub fn scale(&self, val: Scalar) -> (r: Self)
        ensures
            r == Self::spec_scale(*self, val),
    {
        Self::new(mul_s(self.x, val), mul_s(self.y, val), mul_s(self.z, val))
    }

    /// Multiplies all components by a scalar in place.
    pub fn scale_mut(&mut self, val: Scalar) -> (r: &mut Self)
        ensures
            *final(self) == *final(r),
            *r == Self::spec_scale(*old(self), val),
    {
        self.x = mul_s(self.x, val);
        self.y = mul_s(self.y, val);
        self.z = mul_s(self.z, val);
        self
    }

    /// The componentwise negation.
    pub fn negate(&self) -> (r: Self)
        ensures
            r == Self::spec_negate(*self),
    {
        Self::new(neg_s(self.x), neg_s(self.y), neg_s(self.z))
    }

    /// Negates all components in place.
    pub fn negate_mut(&mut self) -> (r: &mut Self)
        ensures
            *final(self) == *final(r),
            *r == Self::spec_negate(*old(self)),
    {
        self.x = neg_s(self.x);
        self.y = neg_s(self.y);
        self.z = neg_s(self.z);
        self
    }

    /// Scales the vector by the reciprocal of its length. Defined for all
    /// inputs; only for `|v| > 0` is the result a unit vector, the zero
    /// vector yields non-finite components.
    pub fn normalize(&self) -> (r: Self)
        ensures
            r == Self::spec_normalize(*self),
    {
        let length = self.length();
        self.scale(div_s(Scalar { bits: F32_ONE }, length))
    }

    /// In-place [`Self::normalize`].
    pub fn normalize_mut(&mut self) -> (r: &mut Self)
        ensures
            *final(self) == *final(r),
            *r == Self::spec_normalize(*old(self)),
    {
        let length = self.length();
        self.scale_mut(div_s(Scalar { bits: F32_ONE }, length))
    }

    /// The Euclidean length.
    pub fn length(&self) -> (r: Scalar)
        ensures
            r == Self::spec_length(*self),
    {
        sqrt_s(self.squared_length())
    }

    /// The squared Euclidean length.
    pub fn squared_length(&self) -> (r: Scalar)
        ensures
            r == Self::spec_squared_length(*self),
    {
        self.dot(self)
    }

    /// The dot product.
    pub fn dot(&self, other: &Self) -> (r: Scalar)
        ensures
            r == Self::spec_dot(*self, *other),
    {
        add_s(add_s(mul_s(self.x, other.x), mul_s(self.y, other.y)), mul_s(self.z, other.z))
    }

    /// The cross product.
    pub fn cross(&self, other: &Self) -> (r: Self)
        ensures
            r == Self::spec_cross(*self, *other),
    {
        Self::new(
            sub_s(mul_s(self.y, other.z), mul_s(self.z, other.y)),
            sub_s(mul_s(self.z, other.x), mul_s(self.x, other.z)),
            sub_s(mul_s(self.x, other.y), mul_s(self.y, other.x)),
        )
    }

    /// Replaces `self` with the cross product of `self` and `other`.
    pub fn cross_mut(&mut self, other: &Self) -> (r: &mut Self)
        ensures
            *final(self) == *final(r),
            *r == Self::spec_cross(*old(self), *other),
    {
        let res = self.cross(other);
        *self = res;
        self
    }

    /// The first component.
    pub fn x(&self) -> (r: Scalar)
        ensures
            r == self.x,
    {
        self.x
    }

    /// A mutable borrow of the first component.
    pub fn x_mut(&mut self) -> (r: &mut Scalar)
        ensures
            *r == old(self).x,
            *final(self) == (Vec3f { x: *final(r), ..*old(self) }),
    {
        &mut self.x
    }

    /// The second component.
    pub fn y(&self) -> (r: Scalar)
        ensures
            r == self.y,
    {
        self.y
    }

    /// A mutable borrow of the second component.
    pub fn y_mut(&mut self) -> (r: &mut Scalar)
        ensures
            *r == old(self).y,
            *final(self) == (Vec3f { y: *final(r), ..*old(self) }),
    {
        &mut self.y
    }

    /// The third component.
    pub fn z(&self) -> (r: Scalar)
        ensures
            r == self.z,
    {
        self.z
    }

    /// A mutable borrow of the third component.
    pub fn z_mut(&mut self) -> (r: &mut Scalar)
        ensures
            *r == old(self).z,
            *final(self) == (Vec3f { z: *final(r), ..*old(self) }),
    {
        &mut self.z
    }

    /// The `(x, y)` swizzle.
    pub fn xy(&self) -> (r: Vec2f)
        ensures
            r == (Vec2f { x: self.x, y: self.y }),
    {
        Vec2f::new(self.x, self.y)
    }

    /// The `(y, x)` swizzle.
    pub fn yx(&self) -> (r: Vec2f)
        ensures
            r == (Vec2f { x: self.y, y: self.x }),
    {
        Vec2f::new(self.y, self.x)
    }

    /// The `(x, z)` swizzle.
    pub fn xz(&self) -> (r: Vec2f)
        ensures
            r == (Vec2f { x: self.x, y: self.z }),
    {
        Vec2f::new(self.x, self.z)
    }

    /// The `(z, x)` swizzle.
    pub fn zx(&self) -> (r: Vec2f)
        ensures
            r == (Vec2f { x: self.z, y: self.x }),
    {
        Vec2f::new(self.z, self.x)
    }

    /// The `(y, z)` swizzle.
    pub fn yz(&self) -> (r: Vec2f)
        ensures
            r == (Vec2f { x: self.y, y: self.z }),
    {
        Vec2f::new(self.y, self.z)
    }

    /// The `(z, y)` swizzle.
    pub fn zy(&self) -> (r: Vec2f)
        ensures
            r == (Vec2f { x: self.z, y: self.y }),
    {
        Vec2f::new(self.z, self.y)
    }
}

impl PartialEq for Vec3f {
    /// IEEE-754 componentwise equality; in particular a vector with a NaN
    /// component is unequal to itself.
    fn eq(&self, other: &Vec3f) -> (r: bool) {
        self.x == other.x && self.y == other.y && self.z == other.z
    }
}

impl vstd::std_specs::cmp::PartialEqSpecImpl for Vec3f {
    open spec fn obeys_eq_spec() -> bool {
        true
    }

    open spec fn eq_spec(&self, other: &Vec3f) -> bool {
        Vec3f::spec_eq(*self, *other)
    }
}

} // verus!

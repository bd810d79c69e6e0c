//! Four-component vectors.

use vstd::prelude::*;
use crate::scalar::{
    Scalar, F32_ONE, s_add, s_sub, s_mul, s_div, s_neg, s_sqrt, add_s, sub_s, mul_s, div_s, neg_s,
    sqrt_s,
};
use crate::vec_lib::vec2::Vec2f;
use crate::vec_lib::vec3::Vec3f;

verus! {

/// An immutable quadruple of binary32 scalars.
#[derive(Clone, Copy, Debug)]
pub struct Vec4f {
    pub x: Scalar,
    pub y: Scalar,
    pub z: Scalar,
    pub w: Scalar,
}

impl Vec4f {
    /// The componentwise sum, at the spec level.
    pub open spec fn spec_add(a: Vec4f, b: Vec4f) -> Vec4f {
        Vec4f {
            x: s_add(a.x, b.x),
            y: s_add(a.y, b.y),
            z: s_add(a.z, b.z),
            w: s_add(a.w, b.w),
        }
    }

    /// The componentwise difference, at the spec level.
    pub open spec fn spec_sub(a: Vec4f, b: Vec4f) -> Vec4f {
        Vec4f {
            x: s_sub(a.x, b.x),
            y: s_sub(a.y, b.y),
            z: s_sub(a.z, b.z),
            w: s_sub(a.w, b.w),
        }
    }

    /// The componentwise product with a scalar, at the spec level.
    pub open spec fn spec_scale(a: Vec4f, val: Scalar) -> Vec4f {
        Vec4f {
            x: s_mul(a.x, val),
            y: s_mul(a.y, val),
            z: s_mul(a.z, val),
            w: s_mul(a.w, val),
        }
    }

    /// The componentwise negation, at the spec level.
    pub open spec fn spec_negate(a: Vec4f) -> Vec4f {
        Vec4f { x: s_neg(a.x), y: s_neg(a.y), z: s_neg(a.z), w: s_neg(a.w) }
    }

    /// The dot product `((a.x*b.x + a.y*b.y) + a.z*b.z) + a.w*b.w`, at the
    /// spec level.
    pub open spec fn spec_dot(a: Vec4f, b: Vec4f) -> Scalar {
        s_add(
            s_add(s_add(s_mul(a.x, b.x), s_mul(a.y, b.y)), s_mul(a.z, b.z)),
            s_mul(a.w, b.w),
        )
    }

    /// The squared Euclidean length, at the spec level.
    pub open spec fn spec_squared_length(a: Vec4f) -> Scalar {
        Self::spec_dot(a, a)
    }

    /// The Euclidean length, at the spec level.
    pub open spec fn spec_length(a: Vec4f) -> Scalar {
        s_sqrt(Self::spec_squared_length(a))
    }

    /// Scaling by the reciprocal of the length, at the spec level. For a
    /// vector of zero length the reciprocal is not finite and the result
    /// holds non-finite components; this mirrors the executable code,
    /// which does not guard that case.
    pub open spec fn spec_normalize(a: Vec4f) -> Vec4f {
        Self::spec_scale(a, s_div(Scalar { bits: F32_ONE }, Self::spec_length(a)))
    }

    /// Builds a vector from its four components.
    pub fn new(x: Scalar, y: Scalar, z: Scalar, w: Scalar) -> (r: Self)
        ensures
            r == (Vec4f { x, y, z, w }),
    {
        Vec4f { x, y, z, w }
    }

    /// The componentwise sum.
    pub fn add(&self, other: &Self) -> (r: Self)
        ensures
            r == Self::spec_add(*self, *other),
    {
        Self::new(
            add_s(self.x, other.x),
            add_s(self.y, other.y),
            add_s(self.z, other.z),
            add_s(self.w, other.w),
        )
    }

    /// Adds `other` into `self` componentwise.
    pub fn add_mut(&mut self, other: &Self) -> (r: &mut Self)
        ensures
            *final(self) == *final(r),
            *r == Self::spec_add(*old(self), *other),
    {
        self.x = add_s(self.x, other.x);
        self.y = add_s(self.y, other.y);
        self.z = add_s(self.z, other.z);
        self.w = add_s(self.w, other.w);
        self
    }

    /// The componentwise difference.
    pub fn sub(&self, other: &Self) -> (r: Self)
        ensures
            r == Self::spec_sub(*self, *other),
    {
        Self::new(
            sub_s(self.x, other.x),
            sub_s(self.y, other.y),
            sub_s(self.z, other.z),
            sub_s(self.w, other.w),
        )
    }

    /// Subtracts `other` from `self` componentwise.
    pub fn sub_mut(&mut self, other: &Self) -> (r: &mut Self)
        ensures
            *final(self) == *final(r),
            *r == Self::spec_sub(*old(self), *other),
    {
        self.x = sub_s(self.x, other.x);
        self.y = sub_s(self.y, other.y);
        self.z = sub_s(self.z, other.z);
        self.w = sub_s(self.w, other.w);
        self
    }

    /// The componentwise product with a scalar.
    pub fn scale(&self, val: Scalar) -> (r: Self)
        ensures
            r == Self::spec_scale(*self, val),
    {
        Self::new(
            mul_s(self.x, val),
            mul_s(self.y, val),
            mul_s(self.z, val),
            mul_s(self.w, val),
        )
    }

    /// Multiplies all components by a scalar in place.
    pub fn scale_mut(&mut self, val: Scalar) -> (r: &mut Self)
        ensures
            *final(self) == *final(r),
            *r == Self::spec_scale(*old(self), val),
    {
        self.x = mul_s(self.x, val);
        self.y = mul_s(self.y, val);
        self.z = mul_s(self.z, val);
        self.w = mul_s(self.w, val);
        self
    }

    /// The componentwise negation.
    pub fn negate(&self) -> (r: Self)
        ensures
            r == Self::spec_negate(*self),
    {
        Self::new(neg_s(self.x), neg_s(self.y), neg_s(self.z), neg_s(self.w))
    }

    /// Negates all components in place.
    pub fn negate_mut(&mut self) -> (r: &mut Self)
        ensures
            *final(self) == *final(r),
            *r == Self::spec_negate(*old(self)),
    {
        self.x = neg_s(self.x);
        self.y = neg_s(self.y);
        self.z = neg_s(self.z);
        self.w = neg_s(self.w);
        self
    }

    /// Scales the vector by the reciprocal of its length. Defined for all
    /// inputs; only for `|v| > 0` is the result a unit vector, the zero
    /// vector yields non-finite components.
    pub fn normalize(&self) -> (r: Self)
        ensures
            r == Self::spec_normalize(*self),
    {
        let length = self.length();
        self.scale(div_s(Scalar { bits: F32_ONE }, length))
    }

    /// In-place [`Self::normalize`].
    pub fn normalize_mut(&mut self) -> (r: &mut Self)
        ensures
            *final(self) == *final(r),
            *r == Self::spec_normalize(*old(self)),
    {
        let length = self.length();
        self.scale_mut(div_s(Scalar { bits: F32_ONE }, length))
    }

    /// The Euclidean length.
    pub fn length(&self) -> (r: Scalar)
        ensures
            r == Self::spec_length(*self),
    {
        sqrt_s(self.squared_length())
    }

    /// The squared Euclidean length.
    pub fn squared_length(&self) -> (r: Scalar)
        ensures
            r == Self::spec_squared_length(*self),
    {
        self.dot(self)
    }

    /// The dot product.
    pub fn dot(&self, other: &Self) -> (r: Scalar)
        ensures
            r == Self::spec_dot(*self, *other),
    {
        add_s(
            add_s(add_s(mul_s(self.x, other.x), mul_s(self.y, other.y)), mul_s(self.z, other.z)),
            mul_s(self.w, other.w),
        )
    }

    /// The first component.
    pub fn x(&self) -> (r: Scalar)
        ensures
            r == self.x,
    {
        self.x
    }

    /// A mutable borrow of the first component.
    pub fn x_mut(&mut self) -> (r: &mut Scalar)
        ensures
            *r == old(self).x,
            *final(self) == (Vec4f { x: *final(r), ..*old(self) }),
    {
        &mut self.x
    }

    /// The second component.
    pub fn y(&self) -> (r: Scalar)
        ensures
            r == self.y,
    {
        self.y
    }

    /// A mutable borrow of the second component.
    pub fn y_mut(&mut self) -> (r: &mut Scalar)
        ensures
            *r == old(self).y,
            *final(self) == (Vec4f { y: *final(r), ..*old(self) }),
    {
        &mut self.y
    }

    /// The third component.
    pub fn z(&self) -> (r: Scalar)
        ensures
            r == self.z,
    {
        self.z
    }

    /// A mutable borrow of the third component.
    pub fn z_mut(&mut self) -> (r: &mut Scalar)
        ensures
            *r == old(self).z,
            *final(self) == (Vec4f { z: *final(r), ..*old(self) }),
    {
        &mut self.z
    }

    /// The fourth component.
    pub fn w(&self) -> (r: Scalar)
        ensures
            r == self.w,
    {
        self.w
    }

    /// A mutable borrow of the fourth component.
    pub fn w_mut(&mut self) -> (r: &mut Scalar)
        ensures
            *r == old(self).w,
            *final(self) == (Vec4f { w: *final(r), ..*old(self) }),
    {
        &mut self.w
    }

    /// The `(x, y)` swizzle.
    pub fn xy(&self) -> (r: Vec2f)
        ensures
            r == (Vec2f { x: self.x, y: self.y }),
    {
        Vec2f::new(self.x, self.y)
    }

    /// The `(y, x)` swizzle.
    pub fn yx(&self) -> (r: Vec2f)
        ensures
            r == (Vec2f { x: self.y, y: self.x }),
    {
        Vec2f::new(self.y, self.x)
    }

    /// The `(x, z)` swizzle.
    pub fn xz(&self) -> (r: Vec2f)
        ensures
            r == (Vec2f { x: self.x, y: self.z }),
    {
        Vec2f::new(self.x, self.z)
    }

    /// The `(z, x)` swizzle.
    pub fn zx(&self) -> (r: Vec2f)
        ensures
            r == (Vec2f { x: self.z, y: self.x }),
    {
        Vec2f::new(self.z, self.x)
    }

    /// The `(y, z)` swizzle.
    pub fn yz(&self) -> (r: Vec2f)
        ensures
            r == (Vec2f { x: self.y, y: self.z }),
    {
        Vec2f::new(self.y, self.z)
    }

    /// The `(z, y)` swizzle.
    pub fn zy(&self) -> (r: Vec2f)
        ensures
            r == (Vec2f { x: self.z, y: self.y }),
    {
        Vec2f::new(self.z, self.y)
    }

    /// The `(x, w)` swizzle.
    pub fn xw(&self) -> (r: Vec2f)
        ensures
            r == (Vec2f { x: self.x, y: self.w }),
    {
        Vec2f::new(self.x, self.w)
    }

    /// The `(y, w)` swizzle.
    pub fn yw(&self) -> (r: Vec2f)
        ensures
            r == (Vec2f { x: self.y, y: self.w }),
    {
        Vec2f::new(self.y, self.w)
    }

    /// The `(z, w)` swizzle.
    pub fn zw(&self) -> (r: Vec2f)
        ensures
            r == (Vec2f { x: self.z, y: self.w }),
    {
        Vec2f::new(self.z, self.w)
    }

    /// The `(w, x)` swizzle.
    pub fn wx(&self) -> (r: Vec2f)
        ensures
            r == (Vec2f { x: self.w, y: self.x }),
    {
        Vec2f::new(self.w, self.x)
    }

    /// The `(w, y)` swizzle.
    pub fn wy(&self) -> (r: Vec2f)
        ensures
            r == (Vec2f { x: self.w, y: self.y }),
    {
        Vec2f::new(self.w, self.y)
    }

    /// The `(w, z)` swizzle.
    pub fn wz(&self) -> (r: Vec2f)
        ensures
            r == (Vec2f { x: self.w, y: self.z }),
    {
        Vec2f::new(self.w, self.z)
    }

    /// The `(x, y, z)` swizzle.
    pub fn xyz(&self) -> (r: Vec3f)
        ensures
            r == (Vec3f { x: self.x, y: self.y, z: self.z }),
    {
        Vec3f::new(self.x, self.y, self.z)
    }

    /// The `(x, z, y)` swizzle.
    pub fn xzy(&self) -> (r: Vec3f)
        ensures
            r == (Vec3f { x: self.x, y: self.z, z: self.y }),
    {
        Vec3f::new(self.x, self.z, self.y)
    }

    /// The `(y, x, z)` swizzle.
    pub fn yxz(&self) -> (r: Vec3f)
        ensures
            r == (Vec3f { x: self.y, y: self.x, z: self.z }),
    {
        Vec3f::new(self.y, self.x, self.z)
    }

    /// The `(y, z, x)` swizzle.
    pub fn yzx(&self) -> (r: Vec3f)
        ensures
            r == (Vec3f { x: self.y, y: self.z, z: self.x }),
    {
        Vec3f::new(self.y, self.z, self.x)
    }

    /// The `(z, x, y)` swizzle.
    pub fn zxy(&self) -> (r: Vec3f)
        ensures
            r == (Vec3f { x: self.z, y: self.x, z: self.y }),
    {
        Vec3f::new(self.z, self.x, self.y)
    }

    /// The `(z, y, x)` swizzle.
    pub fn zyx(&self) -> (r: Vec3f)
        ensures
            r == (Vec3f { x: self.z, y: self.y, z: self.x }),
    {
        Vec3f::new(self.z, self.y, self.x)
    }
}

} // verus!

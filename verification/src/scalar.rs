//! IEEE-754 binary32 scalars, carried as raw bit patterns.
//!
//! A [`Scalar`] holds the 32 bits of a single-precision float. Negation,
//! equality, ordering and `min` are pure bit manipulations and are verified
//! against the IEEE-754 definitions below. The rounding operations
//! (addition, subtraction, multiplication, division) and the square root
//! and trigonometric functions go through trusted wrappers around
//! IEEE-conformant software implementations; their results are named by
//! uninterpreted functions, so every contract built on them pins the exact
//! dataflow of a computation.

use vstd::prelude::*;
use rustc_apfloat::Float;

verus! {

/// Sign bit of an IEEE-754 binary32 value.
pub const F32_SIGN_MASK: u32 = 0x8000_0000;

/// Exponent field of an IEEE-754 binary32 value.
pub const F32_EXP_MASK: u32 = 0x7F80_0000;

/// Fraction field of an IEEE-754 binary32 value.
pub const F32_FRAC_MASK: u32 = 0x007F_FFFF;

/// Everything but the sign bit.
pub const F32_ABS_MASK: u32 = 0x7FFF_FFFF;

/// The bit pattern of `0.0`.
pub const F32_ZERO: u32 = 0x0000_0000;

/// The bit pattern of `1.0`.
pub const F32_ONE: u32 = 0x3F80_0000;

/// The bit pattern of `-1.0`.
pub const F32_NEG_ONE: u32 = 0xBF80_0000;

/// The bit pattern of `2.0`.
pub const F32_TWO: u32 = 0x4000_0000;

/// The bit pattern of `0.5`.
pub const F32_HALF: u32 = 0x3F00_0000;

/// The bit pattern of the binary32 value nearest to pi.
pub const F32_PI: u32 = 0x4049_0FDB;

/// The bit pattern of `360.0`.
pub const F32_360: u32 = 0x43B4_0000;

/// An IEEE-754 single-precision value, stored as its bit pattern.
#[derive(Clone, Copy, Debug)]
pub struct Scalar {
    pub bits: u32,
}

/// A binary32 bit pattern denotes NaN when the exponent field is all ones
/// and the fraction field is non-zero.
pub open spec fn f32_is_nan(b: u32) -> bool {
    b & F32_EXP_MASK == F32_EXP_MASK && b & F32_FRAC_MASK != 0
}

/// A binary32 bit pattern denotes a zero (of either sign) when all bits
/// but the sign are clear.
pub open spec fn f32_is_zero(b: u32) -> bool {
    b & F32_ABS_MASK == 0
}

/// IEEE-754 equality on binary32 bit patterns: NaN compares unequal to
/// everything, the two zeros compare equal, and any other pair compares
/// equal exactly when the bit patterns coincide.
pub open spec fn f32_eq(a: u32, b: u32) -> bool {
    &&& !f32_is_nan(a)
    &&& !f32_is_nan(b)
    &&& (a == b || (f32_is_zero(a) && f32_is_zero(b)))
}

/// IEEE-754 `<` on binary32 bit patterns: false on any NaN operand,
/// otherwise a sign-magnitude comparison (the two zeros are not ordered).
pub open spec fn f32_lt(a: u32, b: u32) -> bool {
    if f32_is_nan(a) || f32_is_nan(b) {
        false
    } else if a & F32_SIGN_MASK != 0 && b & F32_SIGN_MASK != 0 {
        b & F32_ABS_MASK < a & F32_ABS_MASK
    } else if a & F32_SIGN_MASK != 0 {
        !(f32_is_zero(a) && f32_is_zero(b))
    } else if b & F32_SIGN_MASK != 0 {
        false
    } else {
        a & F32_ABS_MASK < b & F32_ABS_MASK
    }
}

/// IEEE-754 negation: flip the sign bit.
pub open spec fn neg_bits(b: u32) -> u32 {
    b ^ F32_SIGN_MASK
}

/// The rounded binary32 sum of two bit patterns (round to nearest even).
pub uninterp spec fn add_bits(a: u32, b: u32) -> u32;

/// The rounded binary32 difference of two bit patterns (round to nearest even).
pub uninterp spec fn sub_bits(a: u32, b: u32) -> u32;

/// The rounded binary32 product of two bit patterns (round to nearest even).
pub uninterp spec fn mul_bits(a: u32, b: u32) -> u32;

/// The rounded binary32 quotient of two bit patterns (round to nearest even).
pub uninterp spec fn div_bits(a: u32, b: u32) -> u32;

/// The correctly rounded binary32 square root of a bit pattern.
pub uninterp spec fn sqrt_bits(a: u32) -> u32;

/// The binary32 sine of a bit pattern interpreted as radians.
pub uninterp spec fn sin_bits(a: u32) -> u32;

/// The binary32 cosine of a bit pattern interpreted as radians.
pub uninterp spec fn cos_bits(a: u32) -> u32;

/// The binary32 tangent of a bit pattern interpreted as radians.
pub uninterp spec fn tan_bits(a: u32) -> u32;

/// Scalar sum, at the spec level.
pub open spec fn s_add(a: Scalar, b: Scalar) -> Scalar {
    Scalar { bits: add_bits(a.bits, b.bits) }
}

/// Scalar difference, at the spec level.
pub open spec fn s_sub(a: Scalar, b: Scalar) -> Scalar {
    Scalar { bits: sub_bits(a.bits, b.bits) }
}

/// Scalar product, at the spec level.
pub open spec fn s_mul(a: Scalar, b: Scalar) -> Scalar {
    Scalar { bits: mul_bits(a.bits, b.bits) }
}

/// Scalar quotient, at the spec level.
pub open spec fn s_div(a: Scalar, b: Scalar) -> Scalar {
    Scalar { bits: div_bits(a.bits, b.bits) }
}

/// Scalar square root, at the spec level.
pub open spec fn s_sqrt(a: Scalar) -> Scalar {
    Scalar { bits: sqrt_bits(a.bits) }
}

/// Scalar sine, at the spec level.
pub open spec fn s_sin(a: Scalar) -> Scalar {
    Scalar { bits: sin_bits(a.bits) }
}

/// Scalar cosine, at the spec level.
pub open spec fn s_cos(a: Scalar) -> Scalar {
    Scalar { bits: cos_bits(a.bits) }
}

/// Scalar tangent, at the spec level.
pub open spec fn s_tan(a: Scalar) -> Scalar {
    Scalar { bits: tan_bits(a.bits) }
}

/// Scalar negation, at the spec level.
pub open spec fn s_neg(a: Scalar) -> Scalar {
    Scalar { bits: neg_bits(a.bits) }
}

/// Scalar equality (IEEE-754 semantics), at the spec level.
pub open spec fn s_eq(a: Scalar, b: Scalar) -> bool {
    f32_eq(a.bits, b.bits)
}

/// The smaller of two scalars: a NaN operand is ignored in favour of the
/// other; among ordered values the lesser is returned, and of two equal
/// values (in particular the two zeros) the first.
pub open spec fn s_min(a: Scalar, b: Scalar) -> Scalar {
    if f32_is_nan(a.bits) {
        b
    } else if f32_is_nan(b.bits) {
        a
    } else if f32_lt(b.bits, a.bits) {
        b
    } else {
        a
    }
}

/// Relies on `rustc_apfloat::ieee::Single`'s `Add`: IEEE-754 binary32
/// addition, rounding to nearest even; the result depends on the operand
/// bits alone.
#[verifier::external_body]
pub(crate) fn add_s(a: Scalar, b: Scalar) -> (r: Scalar)
    ensures
        r.bits == add_bits(a.bits, b.bits),
{
    let x = rustc_apfloat::ieee::Single::from_bits(a.bits as u128);
    let y = rustc_apfloat::ieee::Single::from_bits(b.bits as u128);
    Scalar { bits: (x + y).value.to_bits() as u32 }
}

/// Relies on `rustc_apfloat::ieee::Single`'s `Sub`: IEEE-754 binary32
/// subtraction, rounding to nearest even; the result depends on the operand
/// bits alone.
#[verifier::external_body]
pub(crate) fn sub_s(a: Scalar, b: Scalar) -> (r: Scalar)
    ensures
        r.bits == sub_bits(a.bits, b.bits),
{
    let x = rustc_apfloat::ieee::Single::from_bits(a.bits as u128);
    let y = rustc_apfloat::ieee::Single::from_bits(b.bits as u128);
    Scalar { bits: (x - y).value.to_bits() as u32 }
}

/// Relies on `rustc_apfloat::ieee::Single`'s `Mul`: IEEE-754 binary32
/// multiplication, rounding to nearest even; the result depends on the
/// operand bits alone.
#[verifier::external_body]
pub(crate) fn mul_s(a: Scalar, b: Scalar) -> (r: Scalar)
    ensures
        r.bits == mul_bits(a.bits, b.bits),
{
    let x = rustc_apfloat::ieee::Single::from_bits(a.bits as u128);
    let y = rustc_apfloat::ieee::Single::from_bits(b.bits as u128);
    Scalar { bits: (x * y).value.to_bits() as u32 }
}

/// Relies on `rustc_apfloat::ieee::Single`'s `Div`: IEEE-754 binary32
/// division, rounding to nearest even; the result depends on the operand
/// bits alone.
#[verifier::external_body]
pub(crate) fn div_s(a: Scalar, b: Scalar) -> (r: Scalar)
    ensures
        r.bits == div_bits(a.bits, b.bits),
{
    let x = rustc_apfloat::ieee::Single::from_bits(a.bits as u128);
    let y = rustc_apfloat::ieee::Single::from_bits(b.bits as u128);
    Scalar { bits: (x / y).value.to_bits() as u32 }
}

/// Relies on `libm::sqrtf`: the correctly rounded IEEE-754 binary32 square
/// root; the result depends on the operand bits alone.
#[verifier::external_body]
pub(crate) fn sqrt_s(a: Scalar) -> (r: Scalar)
    ensures
        r.bits == sqrt_bits(a.bits),
{
    Scalar { bits: libm::sqrtf(bytemuck::cast(a.bits)).to_bits() }
}

/// Relies on `libm::sinf`: binary32 sine in radians; the result depends on
/// the operand bits alone.
#[verifier::external_body]
pub(crate) fn sin_s(a: Scalar) -> (r: Scalar)
    ensures
        r.bits == sin_bits(a.bits),
{
    Scalar { bits: libm::sinf(bytemuck::cast(a.bits)).to_bits() }
}

/// Relies on `libm::cosf`: binary32 cosine in radians; the result depends
/// on the operand bits alone.
#[verifier::external_body]
pub(crate) fn cos_s(a: Scalar) -> (r: Scalar)
    ensures
        r.bits == cos_bits(a.bits),
{
    Scalar { bits: libm::cosf(bytemuck::cast(a.bits)).to_bits() }
}

/// Relies on `libm::tanf`: binary32 tangent in radians; the result depends
/// on the operand bits alone.
#[verifier::external_body]
pub(crate) fn tan_s(a: Scalar) -> (r: Scalar)
    ensures
        r.bits == tan_bits(a.bits),
{
    Scalar { bits: libm::tanf(bytemuck::cast(a.bits)).to_bits() }
}

/// Scalar negation: flips the sign bit, as IEEE-754 negation does.
pub(crate) fn neg_s(a: Scalar) -> (r: Scalar)
    ensures
        r == s_neg(a),
{
    Scalar { bits: a.bits ^ F32_SIGN_MASK }
}

/// The smaller of two scalars; see [`s_min`] for the exact treatment of
/// NaN and of the two zeros.
pub(crate) fn min_s(a: Scalar, b: Scalar) -> (r: Scalar)
    ensures
        r == s_min(a, b),
{
    if f32_is_nan_x(a.bits) {
        b
    } else if f32_is_nan_x(b.bits) {
        a
    } else if f32_lt_x(b.bits, a.bits) {
        b
    } else {
        a
    }
}

/// Decides whether a bit pattern denotes NaN.
pub(crate) fn f32_is_nan_x(b: u32) -> (r: bool)
    ensures
        r == f32_is_nan(b),
{
    b & F32_EXP_MASK == F32_EXP_MASK && b & F32_FRAC_MASK != 0
}

/// Decides whether a bit pattern denotes a zero of either sign.
pub(crate) fn f32_is_zero_x(b: u32) -> (r: bool)
    ensures
        r == f32_is_zero(b),
{
    b & F32_ABS_MASK == 0
}

/// Decides IEEE-754 `<` on two bit patterns.
pub(crate) fn f32_lt_x(a: u32, b: u32) -> (r: bool)
    ensures
        r == f32_lt(a, b),
{
    if f32_is_nan_x(a) || f32_is_nan_x(b) {
        false
    } else if a & F32_SIGN_MASK != 0 && b & F32_SIGN_MASK != 0 {
        b & F32_ABS_MASK < a & F32_ABS_MASK
    } else if a & F32_SIGN_MASK != 0 {
        !(f32_is_zero_x(a) && f32_is_zero_x(b))
    } else if b & F32_SIGN_MASK != 0 {
        false
    } else {
        a & F32_ABS_MASK < b & F32_ABS_MASK
    }
}

impl Scalar {
    /// Wraps a raw binary32 bit pattern.
    pub fn from_bits(bits: u32) -> (r: Scalar)
        ensures
            r.bits == bits,
    {
        Scalar { bits }
    }

    /// The raw binary32 bit pattern.
    pub fn to_bits(&self) -> (r: u32)
        ensures
            r == self.bits,
    {
        self.bits
    }
}

impl PartialEq for Scalar {
    /// IEEE-754 equality: NaN is unequal to everything, the two zeros are
    /// equal, all other values compare by bit pattern.
    fn eq(&self, other: &Scalar) -> (r: bool) {
        !f32_is_nan_x(self.bits) && !f32_is_nan_x(other.bits) && (self.bits == other.bits
            || (f32_is_zero_x(self.bits) && f32_is_zero_x(other.bits)))
    }
}

impl vstd::std_specs::cmp::PartialEqSpecImpl for Scalar {
    open spec fn obeys_eq_spec() -> bool {
        true
    }

    open spec fn eq_spec(&self, other: &Scalar) -> bool {
        f32_eq(self.bits, other.bits)
    }
}

} // verus!

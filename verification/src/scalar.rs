use vstd::prelude::*;

use rustc_apfloat::ieee::{Double, Single};
use rustc_apfloat::{Float, FloatConvert, Round};
use std::cmp::Ordering;
use vstd::std_specs::cmp::{PartialEqSpecImpl, PartialOrdSpecImpl};

verus! {

/// A binary64 number (a coordinate or a length), held as its IEEE 754 encoding.
///
/// Arithmetic on it is done by `rustc_apfloat`, a software implementation of
/// IEEE 754 (see [`binary64_add`] and the other named operations); its
/// comparisons are written here on the encoding.
#[derive(Clone, Copy, Debug)]
pub struct Scalar {
    pub bits: u64,
}

/// A binary32 number (a colour component or a filter weight), held as its
/// IEEE 754 encoding.
#[derive(Clone, Copy, Debug)]
pub struct Scalar32 {
    pub bits: u32,
}

/// Encoding of 0.0.
pub const ZERO_BITS: u64 = 0x0000_0000_0000_0000u64;

/// Encoding of 0.5.
pub const HALF_BITS: u64 = 0x3FE0_0000_0000_0000u64;

/// Encoding of 1.0.
pub const ONE_BITS: u64 = 0x3FF0_0000_0000_0000u64;

/// Encoding of 2.0.
pub const TWO_BITS: u64 = 0x4000_0000_0000_0000u64;

/// Encoding of 9.0.
pub const NINE_BITS: u64 = 0x4022_0000_0000_0000u64;

/// Encoding of 100.0.
pub const HUNDRED_BITS: u64 = 0x4059_0000_0000_0000u64;

/// Encoding of the machine epsilon of binary64, 2^-52.
pub const EPSILON_BITS: u64 = 0x3CB0_0000_0000_0000u64;

/// The sign bit of an encoding.
pub const SIGN_BIT: u64 = 0x8000_0000_0000_0000u64;

/// The bits of an encoding other than the sign: exponent and significand.
pub const MAGNITUDE_BITS: u64 = 0x7FFF_FFFF_FFFF_FFFFu64;

/// Encoding of positive infinity: exponent all ones, significand zero.
pub const INFINITY_BITS: u64 = 0x7FF0_0000_0000_0000u64;

/// The correctly rounded (to nearest, ties to even) sum of two binary64
/// numbers, as computed by `rustc_apfloat`.
pub uninterp spec fn binary64_add(a: u64, b: u64) -> u64;

/// The correctly rounded difference `a - b` of two binary64 numbers, as
/// computed by `rustc_apfloat`.
pub uninterp spec fn binary64_sub(a: u64, b: u64) -> u64;

/// The correctly rounded product of two binary64 numbers, as computed by
/// `rustc_apfloat`.
pub uninterp spec fn binary64_mul(a: u64, b: u64) -> u64;

/// The correctly rounded quotient `a / b` of two binary64 numbers, as
/// computed by `rustc_apfloat`.
pub uninterp spec fn binary64_div(a: u64, b: u64) -> u64;

/// The integer that a binary64 number rounds to, toward zero (`toward_zero`)
/// or to the nearest with ties away from zero, as computed by `rustc_apfloat`.
pub uninterp spec fn binary64_round_to_integral(a: u64, toward_zero: bool) -> u64;

/// The binary64 number nearest to an unsigned integer (ties to even), as
/// computed by `rustc_apfloat`.
pub uninterp spec fn binary64_from_u64(n: u64) -> u64;

/// A binary64 number truncated toward zero to a 16-bit unsigned integer,
/// saturating at both ends and mapping NaN to zero, as computed by
/// `rustc_apfloat`.
pub uninterp spec fn binary64_to_u16(a: u64) -> u16;

/// A binary64 number rounded (to nearest, ties to even) to binary32, as
/// computed by `rustc_apfloat`.
pub uninterp spec fn binary32_from_binary64(a: u64) -> u32;

/// The correctly rounded (to nearest, ties to even) sum of two binary32
/// numbers, as computed by `rustc_apfloat`.
pub uninterp spec fn binary32_add(a: u32, b: u32) -> u32;

/// The correctly rounded quotient `a / b` of two binary32 numbers, as
/// computed by `rustc_apfloat`.
pub uninterp spec fn binary32_div(a: u32, b: u32) -> u32;

/// The encoding is a NaN: the exponent is all ones and the significand is not
/// zero.
pub open spec fn is_nan(bits: u64) -> bool {
    bits & MAGNITUDE_BITS > INFINITY_BITS
}

/// The position of a number that is not a NaN on the number line, as an
/// integer: the magnitude bits grow with the absolute value, and the sign bit
/// mirrors them; both zeros get 0.
pub open spec fn order_key(bits: u64) -> int {
    if bits & SIGN_BIT != 0 {
        -((bits & MAGNITUDE_BITS) as int)
    } else {
        (bits & MAGNITUDE_BITS) as int
    }
}

/// `a < b` on binary64 numbers; false where either is a NaN.
pub open spec fn lt(a: u64, b: u64) -> bool {
    !is_nan(a) && !is_nan(b) && order_key(a) < order_key(b)
}

/// `a <= b` on binary64 numbers; false where either is a NaN.
pub open spec fn le(a: u64, b: u64) -> bool {
    !is_nan(a) && !is_nan(b) && order_key(a) <= order_key(b)
}

/// How `a` compares with `b` on binary64 numbers: no order where either is a
/// NaN, the two zeros equal.
pub open spec fn compare_bits(a: u64, b: u64) -> Option<Ordering> {
    if is_nan(a) || is_nan(b) {
        None
    } else if order_key(a) < order_key(b) {
        Some(Ordering::Less)
    } else if order_key(a) == order_key(b) {
        Some(Ordering::Equal)
    } else {
        Some(Ordering::Greater)
    }
}

/// `a == b` on binary64 numbers: false where either is a NaN, true for the
/// two zeros.
pub open spec fn ieee_eq(a: u64, b: u64) -> bool {
    !is_nan(a) && !is_nan(b) && order_key(a) == order_key(b)
}

/// The absolute value: the sign bit cleared.
pub open spec fn abs_bits(a: u64) -> u64 {
    a & MAGNITUDE_BITS
}

fn key(bits: u64) -> (k: i128)
    ensures
        k == order_key(bits),
{
    let magnitude = bits & MAGNITUDE_BITS;
    if bits & SIGN_BIT != 0 {
        -(magnitude as i128)
    } else {
        magnitude as i128
    }
}

fn nan(bits: u64) -> (r: bool)
    ensures
        r == is_nan(bits),
{
    bits & MAGNITUDE_BITS > INFINITY_BITS
}

/// The sum by `rustc_apfloat` (`Add` on `ieee::Double`, rounding to nearest,
/// ties to even); the contract only names the encoding it gives.
#[verifier::external_body]
fn apfloat_add(a: u64, b: u64) -> (r: u64)
    ensures
        r == binary64_add(a, b),
{
    (Double::from_bits(a as u128) + Double::from_bits(b as u128)).value.to_bits() as u64
}

/// The difference by `rustc_apfloat` (`Sub` on `ieee::Double`); the contract
/// only names the encoding it gives.
#[verifier::external_body]
fn apfloat_sub(a: u64, b: u64) -> (r: u64)
    ensures
        r == binary64_sub(a, b),
{
    (Double::from_bits(a as u128) - Double::from_bits(b as u128)).value.to_bits() as u64
}

/// The product by `rustc_apfloat` (`Mul` on `ieee::Double`); the contract only
/// names the encoding it gives.
#[verifier::external_body]
fn apfloat_mul(a: u64, b: u64) -> (r: u64)
    ensures
        r == binary64_mul(a, b),
{
    (Double::from_bits(a as u128) * Double::from_bits(b as u128)).value.to_bits() as u64
}

/// The quotient by `rustc_apfloat` (`Div` on `ieee::Double`); the contract
/// only names the encoding it gives.
#[verifier::external_body]
fn apfloat_div(a: u64, b: u64) -> (r: u64)
    ensures
        r == binary64_div(a, b),
{
    (Double::from_bits(a as u128) / Double::from_bits(b as u128)).value.to_bits() as u64
}

/// `Float::round_to_integral` of `rustc_apfloat` on a `Double`, toward zero or
/// to nearest with ties away from zero; the contract only names the encoding
/// it gives.
#[verifier::external_body]
fn apfloat_round_to_integral(a: u64, toward_zero: bool) -> (r: u64)
    ensures
        r == binary64_round_to_integral(a, toward_zero),
{
    let round = match toward_zero {
        true => Round::TowardZero,
        false => Round::NearestTiesToAway,
    };
    Double::from_bits(a as u128).round_to_integral(round).value.to_bits() as u64
}

/// `Float::from_u128` of `rustc_apfloat`, a `Double` from an unsigned integer
/// (rounded to nearest, ties to even); the contract only names the encoding
/// it gives.
#[verifier::external_body]
fn apfloat_from_u64(n: u64) -> (r: u64)
    ensures
        r == binary64_from_u64(n),
{
    Double::from_u128(n as u128).value.to_bits() as u64
}

/// `Float::to_u128` of `rustc_apfloat` with a width of 16 bits: truncation
/// toward zero, 0 for a NaN or a negative overflow, 65535 for a positive one;
/// the contract only names the integer it gives.
#[verifier::external_body]
fn apfloat_to_u16(a: u64) -> (r: u16)
    ensures
        r == binary64_to_u16(a),
{
    Double::from_bits(a as u128).to_u128(16).value as u16
}

/// `FloatConvert::convert` of `rustc_apfloat` from `Double` to `Single`
/// (rounded to nearest, ties to even); the contract only names the encoding
/// it gives.
#[verifier::external_body]
fn apfloat_narrow(a: u64) -> (r: u32)
    ensures
        r == binary32_from_binary64(a),
{
    let narrowed: Single = Double::from_bits(a as u128).convert(&mut false).value;
    narrowed.to_bits() as u32
}

/// The sum by `rustc_apfloat` (`Add` on `ieee::Single`); the contract only
/// names the encoding it gives.
#[verifier::external_body]
fn apfloat_add32(a: u32, b: u32) -> (r: u32)
    ensures
        r == binary32_add(a, b),
{
    (Single::from_bits(a as u128) + Single::from_bits(b as u128)).value.to_bits() as u32
}

/// The quotient by `rustc_apfloat` (`Div` on `ieee::Single`); the contract
/// only names the encoding it gives.
#[verifier::external_body]
fn apfloat_div32(a: u32, b: u32) -> (r: u32)
    ensures
        r == binary32_div(a, b),
{
    (Single::from_bits(a as u128) / Single::from_bits(b as u128)).value.to_bits() as u32
}

impl Scalar {
    pub fn from_bits(bits: u64) -> (s: Scalar)
        ensures
            s.bits == bits,
    {
        Scalar { bits }
    }

    pub fn to_bits(&self) -> (b: u64)
        ensures
            b == self.bits,
    {
        self.bits
    }

    /// The number 0.0.
    pub fn zero() -> (s: Scalar)
        ensures
            s.bits == ZERO_BITS,
    {
        Scalar { bits: ZERO_BITS }
    }

    /// The number `n`.
    pub fn from_u32(n: u32) -> (s: Scalar)
        ensures
            s.bits == binary64_from_u64(n as u64),
    {
        Scalar { bits: apfloat_from_u64(n as u64) }
    }

    /// The binary64 number nearest to `n`.
    pub fn from_u64(n: u64) -> (s: Scalar)
        ensures
            s.bits == binary64_from_u64(n),
    {
        Scalar { bits: apfloat_from_u64(n) }
    }

    pub fn add(self, other: Scalar) -> (s: Scalar)
        ensures
            s.bits == binary64_add(self.bits, other.bits),
    {
        Scalar { bits: apfloat_add(self.bits, other.bits) }
    }

    pub fn sub(self, other: Scalar) -> (s: Scalar)
        ensures
            s.bits == binary64_sub(self.bits, other.bits),
    {
        Scalar { bits: apfloat_sub(self.bits, other.bits) }
    }

    pub fn mul(self, other: Scalar) -> (s: Scalar)
        ensures
            s.bits == binary64_mul(self.bits, other.bits),
    {
        Scalar { bits: apfloat_mul(self.bits, other.bits) }
    }

    pub fn div(self, other: Scalar) -> (s: Scalar)
        ensures
            s.bits == binary64_div(self.bits, other.bits),
    {
        Scalar { bits: apfloat_div(self.bits, other.bits) }
    }

    /// Rounded toward zero.
    pub fn trunc(self) -> (s: Scalar)
        ensures
            s.bits == binary64_round_to_integral(self.bits, true),
    {
        Scalar { bits: apfloat_round_to_integral(self.bits, true) }
    }

    /// Rounded to the nearest integer, halves away from zero.
    pub fn round(self) -> (s: Scalar)
        ensures
            s.bits == binary64_round_to_integral(self.bits, false),
    {
        Scalar { bits: apfloat_round_to_integral(self.bits, false) }
    }

    /// The part after the point: the number less its truncation.
    pub fn fract(self) -> (s: Scalar)
        ensures
            s.bits == binary64_sub(self.bits, binary64_round_to_integral(self.bits, true)),
    {
        self.sub(self.trunc())
    }

    /// The absolute value.
    pub fn abs(self) -> (s: Scalar)
        ensures
            s.bits == abs_bits(self.bits),
    {
        Scalar { bits: self.bits & MAGNITUDE_BITS }
    }

    /// Truncated toward zero to a 16-bit unsigned integer, saturating.
    pub fn to_u16(self) -> (r: u16)
        ensures
            r == binary64_to_u16(self.bits),
    {
        apfloat_to_u16(self.bits)
    }

    pub fn is_nan(self) -> (r: bool)
        ensures
            r == is_nan(self.bits),
    {
        nan(self.bits)
    }

    /// The nearest binary32 number.
    pub fn narrow(self) -> (r: Scalar32)
        ensures
            r.bits == binary32_from_binary64(self.bits),
    {
        Scalar32 { bits: apfloat_narrow(self.bits) }
    }

    pub fn lt(self, other: Scalar) -> (r: bool)
        ensures
            r == lt(self.bits, other.bits),
    {
        !nan(self.bits) && !nan(other.bits) && key(self.bits) < key(other.bits)
    }

    pub fn le(self, other: Scalar) -> (r: bool)
        ensures
            r == le(self.bits, other.bits),
    {
        !nan(self.bits) && !nan(other.bits) && key(self.bits) <= key(other.bits)
    }
}

impl Scalar32 {
    pub fn from_bits(bits: u32) -> (s: Scalar32)
        ensures
            s.bits == bits,
    {
        Scalar32 { bits }
    }

    pub fn to_bits(&self) -> (b: u32)
        ensures
            b == self.bits,
    {
        self.bits
    }

    pub fn add(self, other: Scalar32) -> (s: Scalar32)
        ensures
            s.bits == binary32_add(self.bits, other.bits),
    {
        Scalar32 { bits: apfloat_add32(self.bits, other.bits) }
    }

    pub fn div(self, other: Scalar32) -> (s: Scalar32)
        ensures
            s.bits == binary32_div(self.bits, other.bits),
    {
        Scalar32 { bits: apfloat_div32(self.bits, other.bits) }
    }
}

impl PartialEq for Scalar {
    fn eq(&self, other: &Scalar) -> (r: bool) {
        !nan(self.bits) && !nan(other.bits) && key(self.bits) == key(other.bits)
    }
}

impl PartialEqSpecImpl for Scalar {
    open spec fn obeys_eq_spec() -> bool {
        true
    }

    open spec fn eq_spec(&self, other: &Scalar) -> bool {
        ieee_eq(self.bits, other.bits)
    }
}

impl PartialOrd for Scalar {
    fn partial_cmp(&self, other: &Scalar) -> (r: Option<Ordering>) {
        if nan(self.bits) || nan(other.bits) {
            None
        } else {
            let a = key(self.bits);
            let b = key(other.bits);
            if a < b {
                Some(Ordering::Less)
            } else if a == b {
                Some(Ordering::Equal)
            } else {
                Some(Ordering::Greater)
            }
        }
    }
}

impl PartialOrdSpecImpl for Scalar {
    open spec fn obeys_partial_cmp_spec() -> bool {
        true
    }

    open spec fn partial_cmp_spec(&self, other: &Scalar) -> Option<Ordering> {
        compare_bits(self.bits, other.bits)
    }
}

} // verus!

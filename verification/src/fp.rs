//! IEEE-754 binary64 arithmetic over raw bit patterns.
//!
//! Verified code in this crate carries every real-valued quantity as the
//! `u64` bit pattern of an IEEE-754 double. The rounded operations the
//! dynamics need (add, sub, mul, ordering) are performed by
//! `rustc_apfloat`, a software implementation of IEEE-754 arithmetic
//! that works directly on bit patterns, and each such operation's result
//! is named by an uninterpreted spec function so that contracts can pin
//! down exactly which operations, in which order, produced a value.
//! Negation and finiteness need no rounding: they are pure bit
//! manipulations of the encoding, defined and verified here.

use vstd::prelude::*;
use rustc_apfloat::Float;
use rustc_apfloat::ieee::Double;

verus! {

/// Bit pattern of the binary64 sum of the values with bit patterns `a` and `b`,
/// rounded to nearest, ties to even.
pub uninterp spec fn f_add_bits(a: u64, b: u64) -> u64;

/// Bit pattern of the binary64 difference `a - b`, rounded to nearest, ties to even.
pub uninterp spec fn f_sub_bits(a: u64, b: u64) -> u64;

/// Bit pattern of the binary64 product of `a` and `b`, rounded to nearest, ties to even.
pub uninterp spec fn f_mul_bits(a: u64, b: u64) -> u64;

/// The sign bit of a binary64 encoding.
pub const SIGN_BIT: u64 = 0x8000_0000_0000_0000;

/// The exponent field of a binary64 encoding, after shifting out the
/// 52 mantissa bits.
pub const EXPONENT_MASK: u64 = 0x7FF;

/// Bit pattern of the binary64 negation of `a`: exactly the sign bit
/// flipped, for every value including NaNs and infinities.
pub open spec fn f_neg_bits(a: u64) -> u64 {
    a ^ SIGN_BIT
}

/// Whether the bit pattern `a` encodes a finite binary64 value: a NaN or
/// an infinity is exactly an all-ones exponent field.
pub open spec fn spec_is_finite(a: u64) -> bool {
    (a >> 52) & EXPONENT_MASK != EXPONENT_MASK
}

/// Whether the binary64 value with bit pattern `a` is greater than or equal
/// to the one with bit pattern `b` (false whenever either is a NaN).
pub uninterp spec fn f_ge_bits(a: u64, b: u64) -> bool;

/// Relies on `rustc_apfloat::ieee::Double`'s `Add` impl, which rounds to
/// nearest, ties to even: the result depends on the operand bits alone.
#[verifier::external_body]
pub(crate) fn fp_add(a: u64, b: u64) -> (r: u64)
    ensures
        r == f_add_bits(a, b),
{
    (Double::from_bits(a as u128) + Double::from_bits(b as u128)).value.to_bits() as u64
}

/// Relies on `rustc_apfloat::ieee::Double`'s `Sub` impl, which rounds to
/// nearest, ties to even: the result depends on the operand bits alone.
#[verifier::external_body]
pub(crate) fn fp_sub(a: u64, b: u64) -> (r: u64)
    ensures
        r == f_sub_bits(a, b),
{
    (Double::from_bits(a as u128) - Double::from_bits(b as u128)).value.to_bits() as u64
}

/// Relies on `rustc_apfloat::ieee::Double`'s `Mul` impl, which rounds to
/// nearest, ties to even: the result depends on the operand bits alone.
#[verifier::external_body]
pub(crate) fn fp_mul(a: u64, b: u64) -> (r: u64)
    ensures
        r == f_mul_bits(a, b),
{
    (Double::from_bits(a as u128) * Double::from_bits(b as u128)).value.to_bits() as u64
}

/// IEEE-754 negation: flips the sign bit and leaves every other bit,
/// NaN payloads included, unchanged.
pub(crate) fn fp_neg(a: u64) -> (r: u64)
    ensures
        r == f_neg_bits(a),
{
    a ^ SIGN_BIT
}

/// Whether the bit pattern encodes a finite value (neither a NaN nor an
/// infinity).
pub fn is_finite_bits(a: u64) -> (r: bool)
    ensures
        r == spec_is_finite(a),
{
    (a >> 52) & EXPONENT_MASK != EXPONENT_MASK
}

/// Relies on `rustc_apfloat::ieee::Double`'s `PartialOrd` impl, which
/// implements the IEEE-754 comparison predicate (NaN compares false):
/// the result depends on the operand bits alone.
#[verifier::external_body]
pub(crate) fn fp_ge(a: u64, b: u64) -> (r: bool)
    ensures
        r == f_ge_bits(a, b),
{
    Double::from_bits(a as u128) >= Double::from_bits(b as u128)
}

} // verus!

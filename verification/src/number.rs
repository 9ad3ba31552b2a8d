//! Double-precision numbers, represented by their IEEE-754 binary64 bit
//! patterns (`u64`). The arithmetic itself is carried out in software by
//! `rustc_apfloat`, behind trusted wrappers; everything built on top of the
//! wrappers is verified against the names given to their results here.

use vstd::prelude::*;
use rustc_apfloat::Float;

verus! {

/// Bit pattern of positive zero.
pub const ZERO_BITS: u64 = 0;

/// Bit pattern of one.
pub const ONE_BITS: u64 = 0x3FF0_0000_0000_0000;

/// Bit pattern of the machine epsilon for binary64 (2^-52).
pub const EPSILON_BITS: u64 = 0x3CB0_0000_0000_0000;

/// Mask that clears the sign bit of a binary64 bit pattern.
pub const MAGNITUDE_MASK: u64 = 0x7FFF_FFFF_FFFF_FFFF;

/// The bit pattern of the binary64 sum of the numbers `a` and `b` encode.
pub uninterp spec fn sum_bits(a: u64, b: u64) -> u64;

/// The bit pattern of the binary64 difference of the numbers `a` and `b` encode.
pub uninterp spec fn diff_bits(a: u64, b: u64) -> u64;

/// The bit pattern of the binary64 product of the numbers `a` and `b` encode.
pub uninterp spec fn prod_bits(a: u64, b: u64) -> u64;

/// The bit pattern of the binary64 quotient of the numbers `a` and `b` encode.
pub uninterp spec fn quot_bits(a: u64, b: u64) -> u64;

/// The bit pattern of the binary64 remainder (C `fmod`) of the numbers `a` and
/// `b` encode.
pub uninterp spec fn rem_bits(a: u64, b: u64) -> u64;

/// Whether the number `a` encodes is strictly below the one `b` encodes
/// (false whenever either is a NaN).
pub uninterp spec fn lt_bits(a: u64, b: u64) -> bool;

/// The bit pattern that standard decimal parsing gives to the text `s`, or
/// `None` where `s` is not a numeral.
pub uninterp spec fn parsed_bits(s: Seq<char>) -> Option<u64>;

/// Relies on `rustc_apfloat::ieee::Double`: `+` (via `Float::add_r`, rounding
/// to nearest) is binary64 addition of the two encoded numbers.
#[verifier::external_body]
pub(crate) fn bits_add(a: u64, b: u64) -> (r: u64)
    ensures
        r == sum_bits(a, b),
{
    let x = rustc_apfloat::ieee::Double::from_bits(a as u128);
    let y = rustc_apfloat::ieee::Double::from_bits(b as u128);
    (x + y).value.to_bits() as u64
}

/// Relies on `rustc_apfloat::ieee::Double`: `-` (via `Float::sub_r`, rounding
/// to nearest) is binary64 subtraction of the two encoded numbers.
#[verifier::external_body]
pub(crate) fn bits_sub(a: u64, b: u64) -> (r: u64)
    ensures
        r == diff_bits(a, b),
{
    let x = rustc_apfloat::ieee::Double::from_bits(a as u128);
    let y = rustc_apfloat::ieee::Double::from_bits(b as u128);
    (x - y).value.to_bits() as u64
}

/// Relies on `rustc_apfloat::ieee::Double`: `*` (via `Float::mul_r`, rounding
/// to nearest) is binary64 multiplication of the two encoded numbers.
#[verifier::external_body]
pub(crate) fn bits_mul(a: u64, b: u64) -> (r: u64)
    ensures
        r == prod_bits(a, b),
{
    let x = rustc_apfloat::ieee::Double::from_bits(a as u128);
    let y = rustc_apfloat::ieee::Double::from_bits(b as u128);
    (x * y).value.to_bits() as u64
}

/// Relies on `rustc_apfloat::ieee::Double`: `/` (via `Float::div_r`, rounding
/// to nearest) is binary64 division of the two encoded numbers.
#[verifier::external_body]
pub(crate) fn bits_div(a: u64, b: u64) -> (r: u64)
    ensures
        r == quot_bits(a, b),
{
    let x = rustc_apfloat::ieee::Double::from_bits(a as u128);
    let y = rustc_apfloat::ieee::Double::from_bits(b as u128);
    (x / y).value.to_bits() as u64
}

/// Relies on `rustc_apfloat::ieee::Double`: `%` (via `Float::c_fmod`) is the
/// binary64 remainder of the two encoded numbers, with C `fmod` semantics.
#[verifier::external_body]
pub(crate) fn bits_rem(a: u64, b: u64) -> (r: u64)
    ensures
        r == rem_bits(a, b),
{
    let x = rustc_apfloat::ieee::Double::from_bits(a as u128);
    let y = rustc_apfloat::ieee::Double::from_bits(b as u128);
    (x % y).value.to_bits() as u64
}

/// Relies on `rustc_apfloat::ieee::Double`: `<` (via `PartialOrd`) orders the
/// encoded numbers as IEEE-754 does, with every comparison against a NaN false.
#[verifier::external_body]
pub(crate) fn bits_lt(a: u64, b: u64) -> (r: bool)
    ensures
        r == lt_bits(a, b),
{
    let x = rustc_apfloat::ieee::Double::from_bits(a as u128);
    let y = rustc_apfloat::ieee::Double::from_bits(b as u128);
    x < y
}

/// Relies on `rustc_apfloat::ieee::Double`: `FromStr::from_str` parses a
/// decimal numeral to the nearest binary64 number and rejects other text.
#[verifier::external_body]
pub(crate) fn bits_parse(s: &str) -> (r: Option<u64>)
    ensures
        r == parsed_bits(s@),
{
    match <rustc_apfloat::ieee::Double as core::str::FromStr>::from_str(s) {
        Ok(d) => Some(d.to_bits() as u64),
        Err(_) => None,
    }
}

/// The magnitude of an encoded number: its bit pattern with the sign cleared.
pub open spec fn magnitude_bits(a: u64) -> u64 {
    a & MAGNITUDE_MASK
}

/// Whether the encoded number's magnitude strictly exceeds the machine epsilon.
pub open spec fn exceeds_epsilon_bits(a: u64) -> bool {
    lt_bits(EPSILON_BITS, magnitude_bits(a))
}

/// Whether the two encoded numbers are equal up to the machine epsilon:
/// the magnitude of their difference is strictly below it.
pub open spec fn within_epsilon_bits(a: u64, b: u64) -> bool {
    lt_bits(magnitude_bits(diff_bits(a, b)), EPSILON_BITS)
}

/// The bit pattern that parsing gives to `s`, with text that is no numeral
/// degrading to zero rather than to an error.
pub open spec fn parsed_or_zero_bits(s: Seq<char>) -> u64 {
    match parsed_bits(s) {
        Some(b) => b,
        None => ZERO_BITS,
    }
}

/// Taking a binary64 magnitude is clearing the sign bit.
pub(crate) fn bits_magnitude(a: u64) -> (r: u64)
    ensures
        r == magnitude_bits(a),
{
    a & MAGNITUDE_MASK
}

pub(crate) fn bits_exceeds_epsilon(a: u64) -> (r: bool)
    ensures
        r == exceeds_epsilon_bits(a),
{
    bits_lt(EPSILON_BITS, bits_magnitude(a))
}

pub(crate) fn bits_within_epsilon(a: u64, b: u64) -> (r: bool)
    ensures
        r == within_epsilon_bits(a, b),
{
    bits_lt(bits_magnitude(bits_sub(a, b)), EPSILON_BITS)
}

pub(crate) fn bits_parse_or_zero(s: &str) -> (r: u64)
    ensures
        r == parsed_or_zero_bits(s@),
{
    match bits_parse(s) {
        Some(b) => b,
        None => ZERO_BITS,
    }
}

} // verus!

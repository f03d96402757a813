//! IEEE-754 binary64 values, carried as their 64-bit patterns.
//!
//! The indicators never inspect a price value; they only combine values with
//! the four rounding arithmetic operations and the IEEE comparison. Those
//! operations are performed by `rustc_apfloat`'s software float, and each
//! result is named by an uninterpreted spec function of the operands, so that
//! every contract in this crate pins the exact bit pattern an indicator
//! returns.

use rustc_apfloat::Float;
use vstd::prelude::*;

verus! {

/// Bit pattern of `+0.0`.
pub const ZERO_BITS: u64 = 0;

/// Bit pattern of `1.0`.
pub const ONE_BITS: u64 = 0x3FF0_0000_0000_0000;

/// Bit pattern of `2.0`.
pub const TWO_BITS: u64 = 0x4000_0000_0000_0000;

/// Bit pattern of `100.0`.
pub const HUNDRED_BITS: u64 = 0x4059_0000_0000_0000;

/// The binary64 sum, rounded to nearest, ties to even.
pub uninterp spec fn add_bits(a: u64, b: u64) -> u64;

/// The binary64 difference, rounded to nearest, ties to even.
pub uninterp spec fn sub_bits(a: u64, b: u64) -> u64;

/// The binary64 product, rounded to nearest, ties to even.
pub uninterp spec fn mul_bits(a: u64, b: u64) -> u64;

/// The binary64 quotient, rounded to nearest, ties to even.
pub uninterp spec fn div_bits(a: u64, b: u64) -> u64;

/// The IEEE comparison `a <= b` (false whenever either value is a NaN).
pub uninterp spec fn le_bits(a: u64, b: u64) -> bool;

/// The binary64 value nearest to the integer `n` (ties to even).
pub uninterp spec fn of_usize_bits(n: usize) -> u64;

/// Relies on `rustc_apfloat::ieee::Double`'s `Add` impl (`add_r`, ties to
/// even): IEEE-754 binary64 addition, a function of its operands alone.
#[verifier::external_body]
pub(crate) fn fadd(a: u64, b: u64) -> (r: u64)
    ensures
        r == add_bits(a, b),
{
    let x = rustc_apfloat::ieee::Double::from_bits(a as u128);
    let y = rustc_apfloat::ieee::Double::from_bits(b as u128);
    (x + y).value.to_bits() as u64
}

/// Relies on `rustc_apfloat::ieee::Double`'s `Sub` impl (`sub_r`, ties to
/// even): IEEE-754 binary64 subtraction, a function of its operands alone.
#[verifier::external_body]
pub(crate) fn fsub(a: u64, b: u64) -> (r: u64)
    ensures
        r == sub_bits(a, b),
{
    let x = rustc_apfloat::ieee::Double::from_bits(a as u128);
    let y = rustc_apfloat::ieee::Double::from_bits(b as u128);
    (x - y).value.to_bits() as u64
}

/// Relies on `rustc_apfloat::ieee::Double`'s `Mul` impl (`mul_r`, ties to
/// even): IEEE-754 binary64 multiplication, a function of its operands alone.
#[verifier::external_body]
pub(crate) fn fmul(a: u64, b: u64) -> (r: u64)
    ensures
        r == mul_bits(a, b),
{
    let x = rustc_apfloat::ieee::Double::from_bits(a as u128);
    let y = rustc_apfloat::ieee::Double::from_bits(b as u128);
    (x * y).value.to_bits() as u64
}

/// Relies on `rustc_apfloat::ieee::Double`'s `Div` impl (`div_r`, ties to
/// even): IEEE-754 binary64 division, a function of its operands alone.
#[verifier::external_body]
pub(crate) fn fdiv(a: u64, b: u64) -> (r: u64)
    ensures
        r == div_bits(a, b),
{
    let x = rustc_apfloat::ieee::Double::from_bits(a as u128);
    let y = rustc_apfloat::ieee::Double::from_bits(b as u128);
    (x / y).value.to_bits() as u64
}

/// Relies on `rustc_apfloat::ieee::Double`'s `PartialOrd` impl: the IEEE
/// comparison, a function of its operands alone.
#[verifier::external_body]
pub(crate) fn fle(a: u64, b: u64) -> (r: bool)
    ensures
        r == le_bits(a, b),
{
    let x = rustc_apfloat::ieee::Double::from_bits(a as u128);
    let y = rustc_apfloat::ieee::Double::from_bits(b as u128);
    x <= y
}

/// Relies on `rustc_apfloat::Float::from_u128` (ties to even): the binary64
/// value nearest to an unsigned integer, a function of the integer alone.
#[verifier::external_body]
pub(crate) fn fof_usize(n: usize) -> (r: u64)
    ensures
        r == of_usize_bits(n),
{
    rustc_apfloat::ieee::Double::from_u128(n as u128).value.to_bits() as u64
}

/// The binary64 absolute value: the same pattern with the sign bit cleared.
pub open spec fn abs_bits(a: u64) -> u64 {
    a & 0x7FFF_FFFF_FFFF_FFFF
}

/// The larger operand under the IEEE comparison; the first one when the two
/// are incomparable (some operand is a NaN) or equal.
pub open spec fn max_bits(a: u64, b: u64) -> u64 {
    if le_bits(a, b) {
        b
    } else {
        a
    }
}

/// Absolute value: IEEE-754 `abs` clears the sign bit and changes nothing
/// else, so no call into the float library is needed.
pub(crate) fn fabs(a: u64) -> (r: u64)
    ensures
        r == abs_bits(a),
{
    a & 0x7FFF_FFFF_FFFF_FFFF
}

/// The larger of two values under the IEEE comparison.
pub(crate) fn fmax(a: u64, b: u64) -> (r: u64)
    ensures
        r == max_bits(a, b),
{
    if fle(a, b) {
        b
    } else {
        a
    }
}

} // verus!

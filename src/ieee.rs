//! Single-precision numbers held as their IEEE-754 bit patterns.
//!
//! The engine's scalars are 32-bit floating-point values. This crate keeps
//! them as the `u32` that holds their bits and compares them exactly as the
//! hardware does: NaN is unordered, `-0` equals `+0`, and every other value
//! is ordered by sign and then by magnitude, which for IEEE-754 is the order
//! of the remaining 31 bits read as an integer.
use vstd::prelude::*;

verus! {

/// The sign bit.
pub const SIGN_BIT: u32 = 0x8000_0000;

/// The bits of positive infinity; a larger magnitude is a NaN.
pub const INFINITY_BITS: u32 = 0x7F80_0000;

/// The bits of `0.0 - 0.0001` in single precision: the least accepted opacity.
pub const OPACITY_MIN_BITS: u32 = 0xB8D1_B717;

/// The bits of `1.0 + 0.0001` in single precision: the greatest accepted opacity.
pub const OPACITY_MAX_BITS: u32 = 0x3F80_0347;

/// The magnitude part of a bit pattern.
pub open spec fn magnitude(b: u32) -> nat {
    (b % 0x8000_0000) as nat
}

/// Whether a bit pattern is a NaN.
pub open spec fn is_nan_bits(b: u32) -> bool {
    magnitude(b) > INFINITY_BITS
}

/// A key whose integer order is the numeric order of non-NaN values.
pub open spec fn order_key(b: u32) -> int {
    if b >= SIGN_BIT {
        -(magnitude(b) as int)
    } else {
        magnitude(b) as int
    }
}

/// `a <= b` on the numbers that the bit patterns stand for.
pub open spec fn spec_le(a: u32, b: u32) -> bool {
    !is_nan_bits(a) && !is_nan_bits(b) && order_key(a) <= order_key(b)
}

/// `a == b` on the numbers that the bit patterns stand for.
pub open spec fn spec_eq(a: u32, b: u32) -> bool {
    !is_nan_bits(a) && !is_nan_bits(b) && order_key(a) == order_key(b)
}

/// Whether an opacity lies within `[0 - 0.0001, 1 + 0.0001]`.
pub open spec fn opacity_ok(o: u32) -> bool {
    spec_le(OPACITY_MIN_BITS, o) && spec_le(o, OPACITY_MAX_BITS)
}

/// Returns `true` if the bit pattern is a NaN.
pub fn is_nan(b: u32) -> (r: bool)
    ensures
        r == is_nan_bits(b),
{
    b % SIGN_BIT > INFINITY_BITS
}

fn key(b: u32) -> (r: i64)
    ensures
        r == order_key(b),
{
    if b >= SIGN_BIT {
        -((b % SIGN_BIT) as i64)
    } else {
        (b % SIGN_BIT) as i64
    }
}

/// Compares two numbers given as bit patterns: `a <= b`.
pub fn le(a: u32, b: u32) -> (r: bool)
    ensures
        r == spec_le(a, b),
{
    !is_nan(a) && !is_nan(b) && key(a) <= key(b)
}

/// Compares two numbers given as bit patterns: `a == b`.
pub fn eq(a: u32, b: u32) -> (r: bool)
    ensures
        r == spec_eq(a, b),
{
    !is_nan(a) && !is_nan(b) && key(a) == key(b)
}

/// Returns `true` if the opacity lies within `[0 - 0.0001, 1 + 0.0001]`.
pub fn check_opacity(opacity: u32) -> (r: bool)
    ensures
        r == opacity_ok(opacity),
{
    le(OPACITY_MIN_BITS, opacity) && le(opacity, OPACITY_MAX_BITS)
}

} // verus!

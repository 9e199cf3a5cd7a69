//! Reading IEEE-754 binary64 bit patterns without floating-point arithmetic.
//!
//! A pattern has a sign bit, eleven exponent bits and fifty-two mantissa
//! bits. With the sign bit clear the patterns are ordered as the numbers
//! they denote: zero, the subnormals, the normal numbers, infinity, and
//! after it the NaNs.

use vstd::prelude::*;
use vstd::arithmetic::power2::pow2;
use vstd::arithmetic::power2::lemma2_to64;
use vstd::arithmetic::power2::lemma2_to64_rest;
use vstd::arithmetic::power2::lemma_pow2_pos;
use vstd::arithmetic::power2::lemma_pow2_strictly_increases;
use vstd::arithmetic::div_mod::lemma_fundamental_div_mod;
use vstd::arithmetic::div_mod::lemma_mod_bound;
use vstd::bits::lemma_u64_shr_is_div;

verus! {

/// The sign bit; also the number of patterns with a clear sign bit.
pub const SIGN_BIT: u64 = 0x8000_0000_0000_0000;

/// The pattern of positive infinity, the largest pattern that denotes a
/// number greater than zero.
pub const POSITIVE_INFINITY_BITS: u64 = 0x7FF0_0000_0000_0000;

/// The pattern of the number one.
pub const ONE_BITS: u64 = 0x3FF0_0000_0000_0000;

/// Two to the power of fifty-two: the number of mantissa patterns, and the
/// implicit leading bit of a normal number's mantissa.
pub const MANTISSA_RANGE: u64 = 0x10_0000_0000_0000;

/// The exponent field of the numbers from one up to, but without, two.
pub const EXPONENT_BIAS: u64 = 1023;

/// Whether the sign bit is set.
pub open spec fn is_negative_bits(bits: u64) -> bool {
    bits >= SIGN_BIT
}

/// Whether the pattern denotes no number: all exponent bits set and some
/// mantissa bit too, whatever the sign.
pub open spec fn is_nan_bits(bits: u64) -> bool {
    bits % SIGN_BIT > POSITIVE_INFINITY_BITS
}

/// Whether the pattern denotes a number greater than zero.
///
/// These are the patterns with a clear sign bit that are neither zero nor a
/// NaN: the positive subnormals start at 1 and positive infinity is the last
/// pattern before the NaNs.
pub open spec fn is_positive_bits(bits: u64) -> bool {
    0 < bits <= POSITIVE_INFINITY_BITS
}

/// The exponent field of a pattern.
pub open spec fn exponent_field(bits: u64) -> int {
    ((bits % SIGN_BIT) / MANTISSA_RANGE) as int
}

/// The mantissa field of a pattern.
pub open spec fn mantissa_field(bits: u64) -> int {
    (bits % MANTISSA_RANGE) as int
}

/// Whether the pattern denotes a number that is at most one. Every negative
/// number is, and no NaN.
pub open spec fn is_at_most_one_bits(bits: u64) -> bool {
    !is_nan_bits(bits) && (is_negative_bits(bits) || bits <= ONE_BITS)
}

/// The number denoted by the pattern, rounded down to a whole number and
/// held within the range of `u32`, as a cast of the rounded number to `u32`
/// gives it: zero for a NaN and for every number below one, `u32::MAX` for
/// every number from two to the power of thirty-two on.
///
/// A normal number from one on has the value
/// `(2^52 + mantissa) * 2^(exponent - 1075)`.
pub open spec fn floor_to_u32_bits(bits: u64) -> int {
    if is_nan_bits(bits) || is_negative_bits(bits) {
        0
    } else if exponent_field(bits) < EXPONENT_BIAS {
        0
    } else if exponent_field(bits) >= EXPONENT_BIAS + 32 {
        u32::MAX as int
    } else {
        (MANTISSA_RANGE + mantissa_field(bits)) / (pow2(
            (EXPONENT_BIAS + 52 - exponent_field(bits)) as nat,
        ) as int)
    }
}

/// Tells whether a pattern denotes a number greater than zero.
pub fn is_positive(bits: u64) -> (positive: bool)
    ensures
        positive == is_positive_bits(bits),
{
    0 < bits && bits <= POSITIVE_INFINITY_BITS
}

/// Tells whether a pattern denotes a number that is at most one.
pub fn is_at_most_one(bits: u64) -> (small: bool)
    ensures
        small == is_at_most_one_bits(bits),
{
    if bits >= SIGN_BIT {
        bits - SIGN_BIT <= POSITIVE_INFINITY_BITS
    } else {
        bits <= ONE_BITS
    }
}

/// Rounds the number denoted by a pattern down to a whole number within the
/// range of `u32`.
pub fn floor_to_u32(bits: u64) -> (floor: u32)
    ensures
        floor == floor_to_u32_bits(bits),
{
    if bits >= SIGN_BIT || bits > POSITIVE_INFINITY_BITS {
        return 0;
    }
    let exponent: u64 = bits / MANTISSA_RANGE;
    if exponent < EXPONENT_BIAS {
        return 0;
    }
    if exponent >= EXPONENT_BIAS + 32 {
        return u32::MAX;
    }
    let mantissa: u64 = MANTISSA_RANGE + bits % MANTISSA_RANGE;
    let shift: u64 = EXPONENT_BIAS + 52 - exponent;
    let floor: u64 = mantissa >> shift;
    proof {
        lemma_u64_shr_is_div(mantissa, shift);
        lemma_shift_range(shift as nat);
        lemma_scaled_mantissa(mantissa as int, pow2(shift as nat) as int);
    }
    floor as u32
}

/// The powers of two by which a mantissa is scaled down.
proof fn lemma_shift_range(shift: nat)
    requires
        21 <= shift <= 52,
    ensures
        0x20_0000 <= pow2(shift) <= 0x10_0000_0000_0000,
{
    lemma2_to64();
    lemma2_to64_rest();
    if 21 < shift {
        lemma_pow2_strictly_increases(21, shift);
    }
    if shift < 52 {
        lemma_pow2_strictly_increases(shift, 52);
    }
}

/// A mantissa with its leading bit, scaled down by one of those powers, is a
/// whole number from one up to the largest `u32`.
proof fn lemma_scaled_mantissa(mantissa: int, scale: int)
    requires
        0x10_0000_0000_0000 <= mantissa < 0x20_0000_0000_0000,
        0x20_0000 <= scale <= 0x10_0000_0000_0000,
    ensures
        1 <= mantissa / scale <= 0xFFFF_FFFF,
{
    assert(mantissa / scale >= 1) by (nonlinear_arith)
        requires
            0 < scale <= mantissa,
    ;
    assert(mantissa / scale <= mantissa / 0x20_0000) by (nonlinear_arith)
        requires
            scale >= 0x20_0000,
            mantissa >= 0,
    ;
}

/// Rounding down a normal number from one up to, but without, two to the
/// power of thirty-two is a division of its mantissa, leading bit included,
/// by a power of two that the exponent picks. Given that power as a number,
/// the division can be carried out.
pub proof fn lemma_floor_by_scale(bits: u64, shift: nat, scale: int)
    requires
        !is_nan_bits(bits),
        !is_negative_bits(bits),
        21 <= shift <= 52,
        exponent_field(bits) == EXPONENT_BIAS + 52 - shift,
        scale == pow2(shift),
    ensures
        floor_to_u32_bits(bits) == (MANTISSA_RANGE + mantissa_field(bits)) / scale,
{
}

/// Rounding down brackets the number: a normal number from one up to, but
/// without, two to the power of thirty-two is `mantissa / scale` with its
/// leading bit in the mantissa, and its floor is the one whole number with
/// `floor * scale <= mantissa < (floor + 1) * scale`.
pub proof fn lemma_floor_brackets(bits: u64)
    requires
        !is_nan_bits(bits),
        !is_negative_bits(bits),
        EXPONENT_BIAS <= exponent_field(bits) < EXPONENT_BIAS + 32,
    ensures
        ({
            let scale = pow2((EXPONENT_BIAS + 52 - exponent_field(bits)) as nat) as int;
            let mantissa = MANTISSA_RANGE + mantissa_field(bits);
            let floor = floor_to_u32_bits(bits);
            floor * scale <= mantissa < (floor + 1) * scale
        }),
{
    let shift = (EXPONENT_BIAS + 52 - exponent_field(bits)) as nat;
    let scale = pow2(shift) as int;
    let mantissa = MANTISSA_RANGE + mantissa_field(bits);
    lemma_shift_range(shift);
    lemma_fundamental_div_mod(mantissa, scale);
    lemma_mod_bound(mantissa, scale);
    assert(scale * (mantissa / scale) == (mantissa / scale) * scale) by (nonlinear_arith);
    assert((mantissa / scale + 1) * scale == (mantissa / scale) * scale + scale)
        by (nonlinear_arith);
}

/// A number above one rounds down to at least one.
pub proof fn lemma_floor_above_one(bits: u64)
    requires
        !is_at_most_one_bits(bits),
        !is_nan_bits(bits),
    ensures
        1 <= floor_to_u32_bits(bits) <= u32::MAX,
{
    let e = exponent_field(bits);
    if e < EXPONENT_BIAS + 32 {
        let shift = (EXPONENT_BIAS + 52 - e) as nat;
        lemma_shift_range(shift);
        lemma_scaled_mantissa(MANTISSA_RANGE + mantissa_field(bits), pow2(shift) as int);
    }
}

} // verus!

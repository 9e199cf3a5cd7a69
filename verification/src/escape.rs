//! Escape indices, and the evaluator that needs no iteration.
//!
//! An escape index is `-1` for a point that stayed bounded for the whole
//! iteration budget, and otherwise the step at which the point escaped,
//! counted from zero.

use vstd::prelude::*;
use crate::binary64::floor_to_u32;
use crate::binary64::floor_to_u32_bits;
use crate::binary64::is_at_most_one;
use crate::binary64::is_at_most_one_bits;
use crate::binary64::is_nan_bits;
use crate::binary64::lemma_floor_above_one;

verus! {

/// The escape index of a point that stayed bounded for the whole budget.
pub const NOT_ESCAPED: i32 = -1;

/// A difference of two `u32` values as a 32-bit signed number: itself where
/// it fits, and otherwise off by two to the power of thirty-two.
pub open spec fn wrapped(difference: int) -> int {
    if difference > i32::MAX {
        difference - 0x1_0000_0000
    } else if difference < i32::MIN {
        difference + 0x1_0000_0000
    } else {
        difference
    }
}

/// The escape index that the circle evaluator gives a point whose distance
/// from the origin has the bit pattern `norm`: none within the unit circle,
/// and beyond it the budget less the distance rounded down.
pub open spec fn spec_circle(norm: u64, iterations: u32) -> int {
    if is_at_most_one_bits(norm) {
        NOT_ESCAPED as int
    } else {
        wrapped(iterations - floor_to_u32_bits(norm))
    }
}

/// The circle evaluator: a stand-in for an escape-time iteration that is
/// cheap and easy to predict.
///
/// `norm` is the bit pattern of the point's distance from the origin. A
/// point within the unit circle does not escape. Any other point gets the
/// budget less its distance rounded down, as a 32-bit signed number; a
/// distance that is not a number counts as zero.
pub fn circle(norm: u64, iterations: u32) -> (escape: i32)
    ensures
        escape == spec_circle(norm, iterations),
{
    if is_at_most_one(norm) {
        return NOT_ESCAPED;
    }
    let difference: i64 = (iterations as i64) - (floor_to_u32(norm) as i64);
    if difference > (i32::MAX as i64) {
        (difference - 0x1_0000_0000) as i32
    } else if difference < (i32::MIN as i64) {
        (difference + 0x1_0000_0000) as i32
    } else {
        difference as i32
    }
}

/// Within the unit circle no point escapes, whatever the budget.
pub proof fn lemma_circle_inside(norm: u64, iterations: u32)
    requires
        is_at_most_one_bits(norm),
    ensures
        spec_circle(norm, iterations) == NOT_ESCAPED,
{
}

/// Beyond the unit circle the escape index is the budget less the distance
/// rounded down, wherever a 32-bit signed number can hold that.
pub proof fn lemma_circle_outside(norm: u64, iterations: u32)
    requires
        !is_at_most_one_bits(norm),
        i32::MIN <= iterations - floor_to_u32_bits(norm) <= i32::MAX,
    ensures
        spec_circle(norm, iterations) == iterations - floor_to_u32_bits(norm),
{
}

/// A point beyond the unit circle but within the budget escapes at a step
/// of the budget: its index is at least zero and below the budget.
pub proof fn lemma_circle_within_budget(norm: u64, iterations: u32)
    requires
        !is_at_most_one_bits(norm),
        !is_nan_bits(norm),
        floor_to_u32_bits(norm) <= iterations <= i32::MAX,
    ensures
        0 <= spec_circle(norm, iterations) < iterations,
{
    lemma_floor_above_one(norm);
}

} // verus!

//! From an escape index to a colour.

use vstd::prelude::*;
use crate::escape::NOT_ESCAPED;

verus! {

/// Red, green, blue and alpha, eight bits each.
pub type Color = [u8; 4];

/// The brightest value of a channel, and the alpha of every pixel.
pub const CHANNEL_MAX: u8 = 255;

/// The red channel for escape index `z` under a budget of `steps`
/// iterations: `255 * z / steps` rounded down, held within `0..=255`.
///
/// An index at or below zero is dark. With a budget of zero there is no
/// ramp: every positive index is fully bright.
pub open spec fn channel_of(z: int, steps: int) -> int {
    if z <= 0 {
        0
    } else if steps <= 0 {
        255
    } else if 255 * z / steps >= 255 {
        255
    } else {
        255 * z / steps
    }
}

/// The colour for escape index `z` under a budget of `steps` iterations:
/// opaque black for a point that did not escape, otherwise a red ramp.
pub open spec fn color_of(z: i32, steps: u32) -> Seq<u8> {
    if z == NOT_ESCAPED {
        seq![0u8, 0u8, 0u8, 255u8]
    } else {
        seq![channel_of(z as int, steps as int) as u8, 0u8, 0u8, 255u8]
    }
}

/// Maps an escape index to its colour.
///
/// Only the red channel carries the ramp; green and blue are zero and the
/// pixel is always opaque.
pub fn z_to_color(z: i32, steps: u32) -> (color: Color)
    ensures
        color@ == color_of(z, steps),
{
    if z == NOT_ESCAPED {
        [0, 0, 0, CHANNEL_MAX]
    } else {
        let red: u8 = if z <= 0 {
            0
        } else if steps == 0 {
            CHANNEL_MAX
        } else {
            let scaled: u64 = 255 * (z as u64) / (steps as u64);
            if scaled >= 255 {
                CHANNEL_MAX
            } else {
                scaled as u8
            }
        };
        [red, 0, 0, CHANNEL_MAX]
    }
}

/// Every colour has four channels, a red one within range, no green, no blue
/// and full alpha.
pub proof fn lemma_color_shape(z: i32, steps: u32)
    ensures
        color_of(z, steps).len() == 4,
        0 <= channel_of(z as int, steps as int) <= 255,
        color_of(z, steps)[1] == 0,
        color_of(z, steps)[2] == 0,
        color_of(z, steps)[3] == 255,
{
}

/// A point that did not escape is drawn in the background colour, whatever
/// the budget.
pub proof fn lemma_background(steps: u32)
    ensures
        color_of(NOT_ESCAPED, steps) == seq![0u8, 0u8, 0u8, 255u8],
{
}

/// Within the budget the ramp never reaches full brightness and never
/// darkens as the index grows.
pub proof fn lemma_ramp(a: int, b: int, steps: int)
    requires
        0 <= a <= b < steps,
    ensures
        channel_of(a, steps) <= channel_of(b, steps) < 255,
        channel_of(b, steps) == 255 * b / steps,
{
    assert(255 * b / steps < 255) by (nonlinear_arith)
        requires
            0 <= b < steps,
    ;
    assert(255 * a / steps <= 255 * b / steps) by (nonlinear_arith)
        requires
            0 <= a <= b,
            0 < steps,
    ;
    assert(255 * a / steps >= 0) by (nonlinear_arith)
        requires
            0 <= a,
            0 < steps,
    ;
}

} // verus!

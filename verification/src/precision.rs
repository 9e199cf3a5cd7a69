//! Whether a zoom level can still be resolved.
//!
//! At a deep enough zoom the step from one pixel to the next is too small to
//! change the plane coordinate it is added to. The audit replays that step in
//! arbitrary-precision arithmetic and reports whether it survived.

use vstd::prelude::*;
use astro_float::BigFloat;
use astro_float::RoundingMode;

verus! {

/// `astro_float::BigFloat`: a floating-point number of any precision, or an
/// infinity, or no number at all. The proofs see nothing of its value; they
/// only follow it from one operation to the next.
#[verifier::external_type_specification]
#[verifier::external_body]
pub struct ExBigFloat(BigFloat);

/// The precision of the audit in bits: enough for 32 significant decimal
/// digits, rounded up to whole 64-bit words.
pub const PRECISION_BITS: usize = 128;

/// The relative difference may exceed one by a thousandth: it is held
/// against `1001/1000` from above and `1000/1001` from below.
pub const TOLERANCE_WIDE: u32 = 1001;

/// See [`TOLERANCE_WIDE`].
pub const TOLERANCE_NARROW: u32 = 1000;

/// The number that `BigFloat::from_u32` makes of `i` at a precision of `p`
/// bits.
pub uninterp spec fn big_from_u32(i: u32, p: usize) -> BigFloat;

/// What `BigFloat::reciprocal` returns for `x` at a precision of `p` bits,
/// without a rounding step.
pub uninterp spec fn reciprocal_of(x: BigFloat, p: usize) -> BigFloat;

/// What `BigFloat::add` returns for `a` and `b` at a precision of `p` bits,
/// without a rounding step.
pub uninterp spec fn sum_of(a: BigFloat, b: BigFloat, p: usize) -> BigFloat;

/// What `BigFloat::sub` returns for `a` and `b` at a precision of `p` bits,
/// without a rounding step.
pub uninterp spec fn difference_of(a: BigFloat, b: BigFloat, p: usize) -> BigFloat;

/// What `BigFloat::div` returns for `a` and `b` at a precision of `p` bits,
/// without a rounding step.
pub uninterp spec fn quotient_of(a: BigFloat, b: BigFloat, p: usize) -> BigFloat;

/// Whether `a <= b` holds of two `BigFloat`s; it does not when either is not
/// a number.
pub uninterp spec fn at_most(a: BigFloat, b: BigFloat) -> bool;

/// `BigFloat::from_u32`.
#[verifier::external_body]
fn from_u32(i: u32, p: usize) -> (out: BigFloat)
    ensures
        out == big_from_u32(i, p),
{
    BigFloat::from_u32(i, p)
}

/// `BigFloat::reciprocal` with `RoundingMode::None`.
#[verifier::external_body]
fn reciprocal(x: &BigFloat, p: usize) -> (out: BigFloat)
    ensures
        out == reciprocal_of(*x, p),
{
    x.reciprocal(p, RoundingMode::None)
}

/// `BigFloat::add` with `RoundingMode::None`.
#[verifier::external_body]
fn sum(a: &BigFloat, b: &BigFloat, p: usize) -> (out: BigFloat)
    ensures
        out == sum_of(*a, *b, p),
{
    a.add(b, p, RoundingMode::None)
}

/// `BigFloat::sub` with `RoundingMode::None`.
#[verifier::external_body]
fn difference(a: &BigFloat, b: &BigFloat, p: usize) -> (out: BigFloat)
    ensures
        out == difference_of(*a, *b, p),
{
    a.sub(b, p, RoundingMode::None)
}

/// `BigFloat::div` with `RoundingMode::None`.
#[verifier::external_body]
fn quotient(a: &BigFloat, b: &BigFloat, p: usize) -> (out: BigFloat)
    ensures
        out == quotient_of(*a, *b, p),
{
    a.div(b, p, RoundingMode::None)
}

/// The operator `<=` on `BigFloat`, which goes by `BigFloat::cmp`.
#[verifier::external_body]
fn le(a: &BigFloat, b: &BigFloat) -> (out: bool)
    ensures
        out == at_most(*a, *b),
{
    a <= b
}

/// The step from one pixel to the next at a zoom of `zoom`.
pub open spec fn audit_inverse_zoom(zoom: BigFloat) -> BigFloat {
    reciprocal_of(zoom, PRECISION_BITS)
}

/// What is left of the pixel step after it was added to the coordinate `x`
/// and `x` was taken away again.
pub open spec fn audit_difference(x: BigFloat, zoom: BigFloat) -> BigFloat {
    difference_of(sum_of(x, audit_inverse_zoom(zoom), PRECISION_BITS), x, PRECISION_BITS)
}

/// The pixel step relative to what is left of it.
pub open spec fn audit_relative_difference(x: BigFloat, zoom: BigFloat) -> BigFloat {
    quotient_of(audit_inverse_zoom(zoom), audit_difference(x, zoom), PRECISION_BITS)
}

/// The largest relative difference that still counts as sound.
pub open spec fn upper_bound() -> BigFloat {
    quotient_of(
        big_from_u32(TOLERANCE_WIDE, PRECISION_BITS),
        big_from_u32(TOLERANCE_NARROW, PRECISION_BITS),
        PRECISION_BITS,
    )
}

/// The smallest relative difference that still counts as sound.
pub open spec fn lower_bound() -> BigFloat {
    quotient_of(
        big_from_u32(TOLERANCE_NARROW, PRECISION_BITS),
        big_from_u32(TOLERANCE_WIDE, PRECISION_BITS),
        PRECISION_BITS,
    )
}

/// A zoom level is sound when the relative difference lies within both
/// bounds.
pub open spec fn is_sound(reaches_lower: bool, within_upper: bool) -> bool {
    reaches_lower && within_upper
}

/// Whether the zoom level `zoom` is sound at the coordinate `x`.
pub open spec fn audit_sound(x: BigFloat, zoom: BigFloat) -> bool {
    is_sound(
        at_most(lower_bound(), audit_relative_difference(x, zoom)),
        at_most(audit_relative_difference(x, zoom), upper_bound()),
    )
}

/// What the audit found.
#[derive(Debug)]
pub struct PrecisionReport {
    /// Whether neighbouring pixels still get different coordinates.
    pub sound: bool,
    /// The step from one pixel to the next.
    pub inverse_zoom: BigFloat,
    /// What is left of that step after adding it to a coordinate.
    pub difference: BigFloat,
    /// The step relative to what is left of it; one where nothing was lost.
    pub relative_difference: BigFloat,
}

/// Decides from the two comparisons whether the zoom level is sound: the
/// relative difference must reach the lower bound and stay within the upper
/// one. A relative difference that is not a number does neither.
pub fn judge(reaches_lower: bool, within_upper: bool) -> (sound: bool)
    ensures
        sound == is_sound(reaches_lower, within_upper),
{
    reaches_lower && within_upper
}

/// The word for a verdict.
pub fn label(sound: bool) -> (text: &'static str)
    ensures
        text@ == if sound {
            "GOOD"@
        } else {
            "BAD"@
        },
{
    if sound {
        "GOOD"
    } else {
        "BAD"
    }
}

/// Audits a zoom level.
///
/// `x` is the plane coordinate of the first pixel and `zoom` the zoom of the
/// view, both as arbitrary-precision numbers. The pixel step `1 / zoom` is
/// added to `x`, `x` is subtracted again, and the step is divided by what is
/// left. The zoom level is sound when that quotient lies between `1000/1001`
/// and `1001/1000`. Nothing is changed.
pub fn audit_precision(x: &BigFloat, zoom: &BigFloat) -> (report: PrecisionReport)
    ensures
        report.sound == audit_sound(*x, *zoom),
        report.inverse_zoom == audit_inverse_zoom(*zoom),
        report.difference == audit_difference(*x, *zoom),
        report.relative_difference == audit_relative_difference(*x, *zoom),
{
    let inverse_zoom = reciprocal(zoom, PRECISION_BITS);
    let stepped = sum(x, &inverse_zoom, PRECISION_BITS);
    let difference = difference(&stepped, x, PRECISION_BITS);
    let relative_difference = quotient(&inverse_zoom, &difference, PRECISION_BITS);
    let wide = from_u32(TOLERANCE_WIDE, PRECISION_BITS);
    let narrow = from_u32(TOLERANCE_NARROW, PRECISION_BITS);
    let upper = quotient(&wide, &narrow, PRECISION_BITS);
    let lower = quotient(&narrow, &wide, PRECISION_BITS);
    let reaches_lower = le(&lower, &relative_difference);
    let within_upper = le(&relative_difference, &upper);
    PrecisionReport {
        sound: judge(reaches_lower, within_upper),
        inverse_zoom,
        difference,
        relative_difference,
    }
}

} // verus!

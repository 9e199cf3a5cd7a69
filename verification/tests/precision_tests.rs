use astro_float::BigFloat;
use astro_float::RoundingMode;
use fractal_explorer::precision::audit_precision;
use fractal_explorer::precision::judge;
use fractal_explorer::precision::label;
use fractal_explorer::precision::PRECISION_BITS;

const WIDTH: u32 = 800;

fn first_pixel_coordinate(r: f64, zoom: f64) -> f64 {
    (0.0 - WIDTH as f64 / 2.0) / zoom + r
}

fn big(value: f64) -> BigFloat {
    BigFloat::from_f64(value, PRECISION_BITS)
}

fn sound_at(r: f64, zoom: f64) -> bool {
    audit_precision(&big(first_pixel_coordinate(r, zoom)), &big(zoom)).sound
}

#[test]
fn default_zoom_is_sound() {
    assert!(sound_at(-0.75, 300.0));
    assert_eq!(label(sound_at(-0.75, 300.0)), "GOOD");
}

#[test]
fn precision_is_at_least_thirty_two_digits() {
    // 32 decimal digits take 107 bits.
    assert!(PRECISION_BITS >= 107);
    assert_eq!(PRECISION_BITS % 64, 0);
}

#[test]
fn step_of_1e15_survives_at_full_precision() {
    // At 128 bits a step of 1e-15 next to a coordinate near one keeps some
    // 78 of its bits, far more than the thousandth that the audit asks for.
    assert!(sound_at(-0.75, 1e15));
}

#[test]
fn deep_zoom_is_degraded() {
    assert!(sound_at(-0.75, 1e35));
    assert!(!sound_at(-0.75, 1e38));
    assert!(!sound_at(-0.75, 1e40));
    assert!(!sound_at(-0.75, 1e300));
    assert_eq!(label(sound_at(-0.75, 1e40)), "BAD");
}

#[test]
fn step_lost_entirely_is_degraded() {
    // The step vanishes in the sum, the difference is zero and the quotient
    // is infinite.
    let report = audit_precision(&big(1.0), &big(1e60));
    assert!(!report.sound);
    assert!(report.difference.is_zero());
    assert!(report.relative_difference.is_inf_pos());
}

#[test]
fn report_carries_the_intermediate_values() {
    let x = big(-2.0);
    let zoom = big(4.0);
    let report = audit_precision(&x, &zoom);
    assert!(report.sound);
    assert_eq!(report.inverse_zoom, big(0.25));
    assert_eq!(report.difference, big(0.25));
    assert_eq!(report.relative_difference, big(1.0));
}

#[test]
fn report_matches_the_operations_it_names() {
    let p = PRECISION_BITS;
    let none = RoundingMode::None;
    let x = big(first_pixel_coordinate(-0.75, 1e20));
    let zoom = big(1e20);
    let report = audit_precision(&x, &zoom);
    let z = zoom.reciprocal(p, none);
    let d = x.add(&z, p, none).sub(&x, p, none);
    let rel = z.div(&d, p, none);
    let upper = BigFloat::from_u32(1001, p).div(&BigFloat::from_u32(1000, p), p, none);
    let lower = BigFloat::from_u32(1000, p).div(&BigFloat::from_u32(1001, p), p, none);
    assert_eq!(report.inverse_zoom, z);
    assert_eq!(report.difference, d);
    assert_eq!(report.relative_difference, rel);
    assert_eq!(report.sound, lower <= rel && rel <= upper);
}

#[test]
fn nothing_is_lost_next_to_zero() {
    let report = audit_precision(&big(0.0), &big(8.0));
    assert!(report.sound);
    assert_eq!(report.relative_difference, big(1.0));
}

#[test]
fn tolerance_is_a_thousandth() {
    // Next to 1 a 128-bit number keeps the bits down to 2^-127. A step of
    // 2^-118 * (1 + 2^-11) loses its lowest bit there, so the step is larger
    // than what is left of it by a factor of 1 + 2^-11, which is within a
    // thousandth. A step of 2^-120 * (1 + 2^-9) comes out too large by a
    // factor of 1 + 2^-9, which is not.
    let inside = 2f64.powi(118) / (1.0 + 2f64.powi(-11));
    let outside = 2f64.powi(120) / (1.0 + 2f64.powi(-9));
    assert!(audit_precision(&big(1.0), &big(inside)).sound);
    assert!(!audit_precision(&big(1.0), &big(outside)).sound);
}

#[test]
fn zoom_that_is_not_a_number_is_degraded() {
    assert!(!audit_precision(&big(-0.75), &big(f64::NAN)).sound);
    assert!(!audit_precision(&big(f64::NAN), &big(300.0)).sound);
}

#[test]
fn infinite_values_are_degraded() {
    assert!(!audit_precision(&big(-0.75), &big(f64::INFINITY)).sound);
    assert!(!audit_precision(&big(f64::INFINITY), &big(300.0)).sound);
    assert!(!audit_precision(&big(f64::NEG_INFINITY), &big(300.0)).sound);
}

#[test]
fn zero_zoom_is_degraded() {
    assert!(!audit_precision(&big(-0.75), &big(0.0)).sound);
}

#[test]
fn verdict_needs_both_bounds() {
    assert!(judge(true, true));
    assert!(!judge(true, false));
    assert!(!judge(false, true));
    assert!(!judge(false, false));
}

#[test]
fn verdict_words() {
    assert_eq!(label(true), "GOOD");
    assert_eq!(label(false), "BAD");
}

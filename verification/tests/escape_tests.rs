use fractal_explorer::escape::circle;
use fractal_explorer::escape::NOT_ESCAPED;

fn norm(r: f64, i: f64) -> u64 {
    (r * r + i * i).sqrt().to_bits()
}

fn by_floating_point(r: f64, i: f64, iterations: u32) -> i32 {
    let d = (r * r + i * i).sqrt();
    if d <= 1. {
        -1
    } else {
        iterations.wrapping_sub(d.floor() as u32) as i32
    }
}

#[test]
fn origin_does_not_escape() {
    assert_eq!(circle(norm(0.0, 0.0), 30), -1);
    assert_eq!(circle(norm(0.0, 0.0), 30), NOT_ESCAPED);
}

#[test]
fn points_within_the_unit_circle_do_not_escape() {
    for (r, i) in [(1.0, 0.0), (0.0, -1.0), (0.6, 0.8), (-0.5, 0.5), (1e-200, 0.0), (0.7, 0.7)] {
        for iterations in [0u32, 1, 30, u32::MAX] {
            assert_eq!(circle(norm(r, i), iterations), -1, "{} {}", r, i);
        }
    }
}

#[test]
fn points_beyond_get_the_budget_less_their_distance() {
    assert_eq!(circle(norm(1.5, 0.0), 30), 29);
    assert_eq!(circle(norm(2.0, 0.0), 30), 28);
    assert_eq!(circle(norm(3.0, 4.0), 30), 25);
    assert_eq!(circle(norm(0.0, -7.9), 30), 23);
    assert_eq!(circle(norm(30.0, 0.0), 30), 0);
    assert_eq!(circle(1.000_000_000_000_000_2f64.to_bits(), 30), 29);
}

#[test]
fn distance_beyond_the_budget_goes_negative() {
    assert_eq!(circle(norm(100.0, 0.0), 30), -70);
    assert_eq!(circle(norm(32.5, 0.0), 30), -2);
}

#[test]
fn distance_one_beyond_the_budget_looks_like_no_escape() {
    assert_eq!(circle(norm(31.0, 0.0), 30), -1);
}

#[test]
fn huge_values_wrap_instead_of_failing() {
    assert_eq!(circle(f64::INFINITY.to_bits(), 30), 31);
    assert_eq!(circle(1e300f64.to_bits(), 0), 1);
    assert_eq!(circle(2f64.to_bits(), u32::MAX), -3);
    assert_eq!(circle(3_000_000_000f64.to_bits(), 0), 1_294_967_296);
    assert_eq!(circle(2_147_483_649f64.to_bits(), 0), 2_147_483_647);
    assert_eq!(circle(2_147_483_648f64.to_bits(), 0), i32::MIN);
}

#[test]
fn distance_that_is_no_number_counts_as_zero() {
    assert_eq!(circle(f64::NAN.to_bits(), 30), 30);
    assert_eq!(circle(norm(f64::NAN, 0.0), 7), 7);
    assert_eq!(circle(norm(f64::INFINITY, f64::NAN), 0), 0);
}

#[test]
fn circle_agrees_with_the_floating_point_formula() {
    let coordinates = [
        0.0, 0.3, -0.75, 1.0, -1.0, 1.25, 2.0, -3.5, 7.0, 29.5, 30.0, 31.0, 1e3, -1e9, 4.3e9, 1e20,
        f64::INFINITY,
        f64::NAN,
    ];
    for r in coordinates {
        for i in coordinates {
            for iterations in [0u32, 1, 30, 1000, i32::MAX as u32, u32::MAX] {
                assert_eq!(
                    circle(norm(r, i), iterations),
                    by_floating_point(r, i, iterations),
                    "{} {} {}",
                    r,
                    i,
                    iterations
                );
            }
        }
    }
}

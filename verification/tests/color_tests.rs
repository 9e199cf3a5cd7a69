use fractal_explorer::color::z_to_color;
use fractal_explorer::color::CHANNEL_MAX;
use fractal_explorer::escape::NOT_ESCAPED;

#[test]
fn interior_point_is_opaque_black() {
    assert_eq!(z_to_color(-1, 30), [0, 0, 0, 255]);
    assert_eq!(z_to_color(NOT_ESCAPED, 1), [0, 0, 0, 255]);
    assert_eq!(z_to_color(NOT_ESCAPED, 0), [0, 0, 0, 255]);
    assert_eq!(z_to_color(NOT_ESCAPED, u32::MAX), [0, 0, 0, 255]);
}

#[test]
fn ramp_is_floor_of_255_z_over_steps() {
    assert_eq!(z_to_color(0, 30), [0, 0, 0, 255]);
    assert_eq!(z_to_color(1, 30), [8, 0, 0, 255]);
    assert_eq!(z_to_color(6, 30), [51, 0, 0, 255]);
    assert_eq!(z_to_color(15, 30), [127, 0, 0, 255]);
    assert_eq!(z_to_color(29, 30), [246, 0, 0, 255]);
    assert_eq!(z_to_color(3, 45), [17, 0, 0, 255]);
    assert_eq!(z_to_color(7, 49), [36, 0, 0, 255]);
}

#[test]
fn ramp_agrees_with_exact_division_everywhere_in_a_budget() {
    for steps in [1u32, 2, 3, 7, 30, 45, 49, 255, 256, 1000] {
        for z in 0..steps {
            let expected = (255u64 * z as u64 / steps as u64) as u8;
            assert_eq!(z_to_color(z as i32, steps), [expected, 0, 0, 255]);
        }
    }
}

#[test]
fn only_red_carries_the_ramp() {
    for z in [-5i32, 0, 1, 10, 29, 30, 1000] {
        let c = z_to_color(z, 30);
        assert_eq!(c[1], 0);
        assert_eq!(c[2], 0);
        assert_eq!(c[3], CHANNEL_MAX);
    }
}

#[test]
fn index_at_or_beyond_the_budget_is_fully_bright() {
    assert_eq!(z_to_color(30, 30), [255, 0, 0, 255]);
    assert_eq!(z_to_color(31, 30), [255, 0, 0, 255]);
    assert_eq!(z_to_color(i32::MAX, 1), [255, 0, 0, 255]);
    assert_eq!(z_to_color(i32::MAX, u32::MAX), [127, 0, 0, 255]);
}

#[test]
fn index_below_minus_one_is_dark() {
    assert_eq!(z_to_color(-2, 30), [0, 0, 0, 255]);
    assert_eq!(z_to_color(-70, 30), [0, 0, 0, 255]);
    assert_eq!(z_to_color(i32::MIN, 30), [0, 0, 0, 255]);
}

#[test]
fn budget_of_zero_has_no_ramp() {
    assert_eq!(z_to_color(0, 0), [0, 0, 0, 255]);
    assert_eq!(z_to_color(1, 0), [255, 0, 0, 255]);
    assert_eq!(z_to_color(-2, 0), [0, 0, 0, 255]);
}

#[test]
fn ramp_never_darkens() {
    let mut last = 0u8;
    for z in 0..200 {
        let red = z_to_color(z, 200)[0];
        assert!(red >= last);
        assert!(red < 255);
        last = red;
    }
}

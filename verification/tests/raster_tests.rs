use fractal_explorer::color::z_to_color;
use fractal_explorer::escape::circle;
use fractal_explorer::raster::draw_image;
use fractal_explorer::raster::grid_points;
use fractal_explorer::raster::paint;
use fractal_explorer::view::View;

fn view(sharpness: u32) -> View {
    View { r: 0f64.to_bits(), i: 0f64.to_bits(), zoom: 300f64.to_bits(), sharpness }
}

#[test]
fn grid_lists_rows_first() {
    assert_eq!(grid_points(3, 2), vec![(0, 0), (0, 1), (0, 2), (1, 0), (1, 1), (1, 2)]);
}

#[test]
fn grid_has_one_point_per_pixel() {
    assert_eq!(grid_points(800, 600).len(), 480_000);
    assert_eq!(grid_points(1, 1), vec![(0, 0)]);
}

#[test]
fn grid_puts_pixel_x_y_at_index_y_times_width_plus_x() {
    let (width, height) = (17u32, 5u32);
    let points = grid_points(width, height);
    for y in 0..height {
        for x in 0..width {
            assert_eq!(points[(y * width + x) as usize], (y, x));
        }
    }
}

#[test]
fn grid_of_an_empty_canvas_is_empty() {
    assert!(grid_points(0, 0).is_empty());
    assert!(grid_points(0, 5).is_empty());
    assert!(grid_points(5, 0).is_empty());
}

#[test]
fn paint_gives_four_bytes_per_pixel() {
    let bytes = paint(&vec![-1, 0, 15, 29], 30);
    assert_eq!(bytes, vec![0, 0, 0, 255, 0, 0, 0, 255, 127, 0, 0, 255, 246, 0, 0, 255]);
}

#[test]
fn paint_of_nothing_is_empty() {
    assert!(paint(&vec![], 30).is_empty());
}

#[test]
fn paint_colours_each_pixel_by_its_own_index() {
    let escapes: Vec<i32> = (-1..99).collect();
    let bytes = paint(&escapes, 100);
    assert_eq!(bytes.len(), 400);
    for (p, z) in escapes.iter().enumerate() {
        assert_eq!(bytes[4 * p..4 * p + 4], z_to_color(*z, 100));
    }
}

#[test]
fn interior_point_at_the_origin_is_background() {
    // Under the circle evaluator the origin lies within the unit circle and
    // does not escape.
    let origin = (0f64 * 0f64 + 0f64 * 0f64).sqrt();
    let escape = circle(origin.to_bits(), 30);
    assert_eq!(escape, -1);
    let frame = draw_image(&view(30), 1, 1, &vec![escape]).unwrap();
    assert_eq!(frame.pixel(0, 0), Some([0, 0, 0, 255]));
}

#[test]
fn circle_frame_is_dark_inside_and_ramps_outside() {
    // A canvas of 9 by 9 pixels at a zoom of one pixel per unit, centred on
    // the origin.
    let (width, height) = (9u32, 9u32);
    let escapes: Vec<i32> = grid_points(width, height)
        .iter()
        .map(|(y, x)| {
            let r = *x as f64 - 4.0;
            let i = 4.0 - *y as f64;
            circle((r * r + i * i).sqrt().to_bits(), 30)
        })
        .collect();
    let frame = draw_image(&view(30), width, height, &escapes).unwrap();
    assert_eq!(frame.pixel(4, 4), Some([0, 0, 0, 255]));
    assert_eq!(frame.pixel(5, 4), Some([0, 0, 0, 255]));
    assert_eq!(frame.pixel(4, 3), Some([0, 0, 0, 255]));
    // Distance 2 gives index 28 and red 238; distance 4 gives 26 and 221.
    assert_eq!(frame.pixel(6, 4), Some([238, 0, 0, 255]));
    assert_eq!(frame.pixel(4, 0), Some([221, 0, 0, 255]));
    // Distance sqrt(32) rounds down to 5: index 25 and red 212.
    assert_eq!(frame.pixel(0, 0), Some([212, 0, 0, 255]));
}

#[test]
fn frame_has_the_size_asked_for() {
    let frame = draw_image(&view(30), 3, 2, &vec![0; 6]).unwrap();
    assert_eq!(frame.dimensions(), (3, 2));
    assert_eq!(frame.into_raw().len(), 24);
}

#[test]
fn frame_shows_each_escape_index_at_its_pixel() {
    let (width, height) = (4u32, 3u32);
    let escapes: Vec<i32> = vec![-1, 0, 1, 2, 3, 4, 5, 6, 7, 8, 9, -1];
    let frame = draw_image(&view(10), width, height, &escapes).unwrap();
    for y in 0..height {
        for x in 0..width {
            let z = escapes[(y * width + x) as usize];
            assert_eq!(frame.pixel(x, y), Some(z_to_color(z, 10)), "pixel {} {}", x, y);
        }
    }
    assert_eq!(frame.pixel(1, 0), Some([0, 0, 0, 255]));
    assert_eq!(frame.pixel(2, 1), Some([127, 0, 0, 255]));
    assert_eq!(frame.pixel(3, 2), Some([0, 0, 0, 255]));
}

#[test]
fn frame_bytes_are_the_painted_escapes() {
    let escapes = vec![5, -1, 9, 3, 0, 7];
    let frame = draw_image(&view(10), 2, 3, &escapes).unwrap();
    assert_eq!(frame.into_raw(), paint(&escapes, 10));
}

#[test]
fn frame_uses_the_budget_of_the_view() {
    let dim = draw_image(&view(100), 1, 1, &vec![10]).unwrap();
    let bright = draw_image(&view(20), 1, 1, &vec![10]).unwrap();
    assert_eq!(dim.pixel(0, 0), Some([25, 0, 0, 255]));
    assert_eq!(bright.pixel(0, 0), Some([127, 0, 0, 255]));
}

#[test]
fn pixel_outside_the_frame_is_nothing() {
    let frame = draw_image(&view(30), 3, 2, &vec![0; 6]).unwrap();
    assert_eq!(frame.pixel(3, 0), None);
    assert_eq!(frame.pixel(0, 2), None);
    assert_eq!(frame.pixel(u32::MAX, u32::MAX), None);
}

#[test]
fn wrong_number_of_escapes_draws_nothing() {
    assert!(draw_image(&view(30), 3, 2, &vec![0; 5]).is_none());
    assert!(draw_image(&view(30), 3, 2, &vec![0; 7]).is_none());
    assert!(draw_image(&view(30), 3, 2, &vec![]).is_none());
    assert!(draw_image(&view(30), u32::MAX, u32::MAX, &vec![0; 1]).is_none());
}

#[test]
fn empty_canvas_gives_an_empty_frame() {
    let frame = draw_image(&view(30), 0, 0, &vec![]).unwrap();
    assert_eq!(frame.dimensions(), (0, 0));
    assert_eq!(frame.pixel(0, 0), None);
    let flat = draw_image(&view(30), 5, 0, &vec![]).unwrap();
    assert_eq!(flat.dimensions(), (5, 0));
}

#[test]
fn frame_follows_the_grid_order() {
    let (width, height) = (5u32, 4u32);
    let points = grid_points(width, height);
    let escapes: Vec<i32> = points.iter().map(|(y, x)| (y * 10 + x) as i32).collect();
    let frame = draw_image(&view(50), width, height, &escapes).unwrap();
    for (y, x) in points {
        assert_eq!(frame.pixel(x, y), Some(z_to_color((y * 10 + x) as i32, 50)));
    }
}

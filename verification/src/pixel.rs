//! Where a pixel lies relative to the canvas centre.

use vstd::prelude::*;

verus! {

/// Why a request about the canvas was turned down.
#[derive(Clone, Copy, Debug, PartialEq, Eq, Structural)]
pub enum CanvasError {
    /// A pixel was named that the canvas does not have.
    PixelOutOfRange,
}

/// Whether `pixel`, given as column and row, is one of the pixels of a canvas
/// of size `canvas`, given as width and height.
pub open spec fn in_canvas(canvas: (u32, u32), pixel: (u32, u32)) -> bool {
    pixel.0 < canvas.0 && pixel.1 < canvas.1
}

/// The offset of `pixel` from the canvas centre, counted in half pixels so
/// that it is exact for canvases of odd size too.
///
/// The first component grows to the right; the second grows upwards, against
/// the direction in which rows are counted.
pub open spec fn half_pixel_offset(canvas: (u32, u32), pixel: (u32, u32)) -> (int, int) {
    (2 * pixel.0 - canvas.0, canvas.1 - 2 * pixel.1)
}

/// Measures a pixel against the canvas centre.
///
/// The plane coordinate of the pixel is the view's centre plus half of this
/// offset divided by the zoom. A pixel outside the canvas is refused.
pub fn pixel_offset(canvas: (u32, u32), pixel: (u32, u32)) -> (out: Result<(i64, i64), CanvasError>)
    ensures
        out is Ok <==> in_canvas(canvas, pixel),
        out matches Ok(offset) ==> offset.0 == half_pixel_offset(canvas, pixel).0 && offset.1
            == half_pixel_offset(canvas, pixel).1,
        out matches Err(error) ==> error == CanvasError::PixelOutOfRange,
{
    let (width, height) = canvas;
    let (x, y) = pixel;
    if x >= width || y >= height {
        return Err(CanvasError::PixelOutOfRange);
    }
    let right: i64 = 2 * (x as i64) - (width as i64);
    let up: i64 = (height as i64) - 2 * (y as i64);
    Ok((right, up))
}

/// Every canvas with at least one pixel has a centre pixel, and it lies
/// within half a pixel of the centre: exactly on it when the size is even,
/// half a pixel to the left or above it when the size is odd.
pub proof fn lemma_center_pixel(canvas: (u32, u32))
    requires
        canvas.0 >= 1,
        canvas.1 >= 1,
    ensures
        in_canvas(canvas, (canvas.0 / 2, canvas.1 / 2)),
        half_pixel_offset(canvas, (canvas.0 / 2, canvas.1 / 2)) == (
            -(canvas.0 % 2) as int,
            (canvas.1 % 2) as int,
        ),
        canvas.0 % 2 == 0 && canvas.1 % 2 == 0 ==> half_pixel_offset(
            canvas,
            (canvas.0 / 2, canvas.1 / 2),
        ) == (0int, 0int),
{
}

/// A pixel of the canvas is never further from the centre than the canvas
/// reaches, and moving one column right or one row down changes the offset by
/// two half pixels.
pub proof fn lemma_offset_range(canvas: (u32, u32), pixel: (u32, u32))
    requires
        in_canvas(canvas, pixel),
    ensures
        -canvas.0 <= half_pixel_offset(canvas, pixel).0 < canvas.0,
        -canvas.1 < half_pixel_offset(canvas, pixel).1 <= canvas.1,
        pixel.0 + 1 < canvas.0 ==> half_pixel_offset(canvas, ((pixel.0 + 1) as u32, pixel.1)).0
            == half_pixel_offset(canvas, pixel).0 + 2,
        pixel.1 + 1 < canvas.1 ==> half_pixel_offset(canvas, (pixel.0, (pixel.1 + 1) as u32)).1
            == half_pixel_offset(canvas, pixel).1 - 2,
{
}

} // verus!

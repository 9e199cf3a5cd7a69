//! From the escape indices of a frame to its pixels.

use vstd::prelude::*;
use vstd::arithmetic::div_mod::lemma_fundamental_div_mod_converse;
use image::RgbaImage;
use crate::color::color_of;
use crate::color::z_to_color;
use crate::color::Color;

verus! {

/// The pixel with index `k` on a canvas `width` pixels wide, as row and
/// column: rows are counted first, so the index runs along a row before it
/// moves down to the next.
pub open spec fn grid_point(width: u32, k: int) -> (u32, u32) {
    ((k / (width as int)) as u32, (k % (width as int)) as u32)
}

/// All pixels of a `width` by `height` canvas in drawing order.
pub open spec fn grid(width: u32, height: u32) -> Seq<(u32, u32)> {
    Seq::new((width * height) as nat, |k: int| grid_point(width, k))
}

/// The bytes of a frame whose pixels have the escape indices `escapes`: four
/// bytes per pixel, in the order of the pixels.
pub open spec fn painted(escapes: Seq<i32>, steps: u32) -> Seq<u8> {
    Seq::new(4 * escapes.len(), |k: int| color_of(escapes[k / 4], steps)[k % 4])
}

/// Lists the pixels of a canvas as `(row, column)`, row by row from the top
/// and from left to right within a row.
pub fn grid_points(width: u32, height: u32) -> (points: Vec<(u32, u32)>)
    ensures
        points@ == grid(width, height),
{
    let mut points: Vec<(u32, u32)> = Vec::new();
    let mut y: u32 = 0;
    while y < height
        invariant
            y <= height,
            points@.len() == y * width,
            forall|k: int| 0 <= k < points@.len() ==> points@[k] == grid_point(width, k),
        decreases height - y,
    {
        let mut x: u32 = 0;
        while x < width
            invariant
                y < height,
                x <= width,
                points@.len() == y * width + x,
                forall|k: int| 0 <= k < points@.len() ==> points@[k] == grid_point(width, k),
            decreases width - x,
        {
            proof {
                lemma_fundamental_div_mod_converse(
                    y * width + x,
                    width as int,
                    y as int,
                    x as int,
                );
            }
            points.push((y, x));
            x += 1;
        }
        assert(y * width + width == (y + 1) * width) by (nonlinear_arith);
        y += 1;
    }
    assert(height * width == width * height) by (nonlinear_arith);
    assert(points@ =~= grid(width, height));
    points
}

/// Colours a frame: the four bytes of pixel `p` are the colour of
/// `escapes[p]` under a budget of `steps` iterations.
pub fn paint(escapes: &Vec<i32>, steps: u32) -> (bytes: Vec<u8>)
    ensures
        bytes@ == painted(escapes@, steps),
{
    let mut bytes: Vec<u8> = Vec::new();
    let mut p: usize = 0;
    while p < escapes.len()
        invariant
            p <= escapes@.len(),
            bytes@.len() == 4 * p,
            forall|k: int|
                0 <= k < bytes@.len() ==> bytes@[k] == color_of(escapes@[k / 4], steps)[k % 4],
        decreases escapes@.len() - p,
    {
        let color: Color = z_to_color(escapes[p], steps);
        bytes.push(color[0]);
        bytes.push(color[1]);
        bytes.push(color[2]);
        bytes.push(color[3]);
        p += 1;
    }
    assert(bytes@ =~= painted(escapes@, steps));
    bytes
}

/// In a painted frame the four bytes of pixel `p` are its colour.
pub proof fn lemma_painted_pixel(escapes: Seq<i32>, steps: u32, p: int)
    requires
        0 <= p < escapes.len(),
    ensures
        painted(escapes, steps).len() == 4 * escapes.len(),
        painted(escapes, steps).subrange(4 * p, 4 * p + 4) == color_of(escapes[p], steps),
{
    assert(painted(escapes, steps).subrange(4 * p, 4 * p + 4) =~= color_of(escapes[p], steps));
}

/// On a canvas `width` pixels wide the pixel in row `y` and column `x` has
/// index `y * width + x`, and every index below `width * height` is that of
/// one pixel of the canvas.
pub proof fn lemma_grid_index(width: u32, height: u32, x: u32, y: u32)
    requires
        x < width,
        y < height,
    ensures
        0 <= y * width + x < grid(width, height).len(),
        grid(width, height)[y * width + x] == (y, x),
{
    assert(y * width + x < width * height) by (nonlinear_arith)
        requires
            x < width,
            y < height,
    ;
    assert(0 <= y * width + x) by (nonlinear_arith);
    lemma_fundamental_div_mod_converse(y * width + x, width as int, y as int, x as int);
}

/// A finished frame: an RGBA image in row-major order, one byte per channel.
///
/// The image itself is an `image::RgbaImage`, which stays out of sight of the
/// proofs; what they know of it is [`frame_bytes`] and [`frame_size`].
#[verifier::external_body]
pub struct PixelGrid {
    image: RgbaImage,
}

/// The raw bytes of a frame, four per pixel, as `ImageBuffer::as_raw` shows
/// them.
pub uninterp spec fn frame_bytes(frame: PixelGrid) -> Seq<u8>;

/// The width and height of a frame, as `ImageBuffer::dimensions` gives them.
pub uninterp spec fn frame_size(frame: PixelGrid) -> (u32, u32);

/// `image::ImageBuffer::from_raw` for RGBA pixels over a `Vec<u8>`.
///
/// The buffer is taken as it is when it holds at least four bytes for each
/// of the `width * height` pixels, and refused otherwise; a product too large
/// for the machine is larger than any buffer.
#[verifier::external_body]
fn frame_from_raw(width: u32, height: u32, bytes: Vec<u8>) -> (out: Option<PixelGrid>)
    ensures
        out.is_some() <==> 4 * width * height <= bytes@.len(),
        out matches Some(frame) ==> frame_bytes(frame) == bytes@ && frame_size(frame) == (
            width,
            height,
        ),
{
    match RgbaImage::from_raw(width, height, bytes) {
        Some(image) => Some(PixelGrid { image }),
        None => None,
    }
}

/// `image::ImageBuffer::dimensions`.
///
/// Besides the size it records what every image buffer keeps true from its
/// construction on: the bytes suffice for all its pixels.
#[verifier::external_body]
fn frame_dimensions(frame: &PixelGrid) -> (size: (u32, u32))
    ensures
        size == frame_size(*frame),
        4 * size.0 * size.1 <= frame_bytes(*frame).len(),
{
    frame.image.dimensions()
}

/// `image::ImageBuffer::into_raw`: the bytes the image was made of.
#[verifier::external_body]
fn frame_into_raw(frame: PixelGrid) -> (bytes: Vec<u8>)
    ensures
        bytes@ == frame_bytes(frame),
{
    frame.image.into_raw()
}

/// `image::ImageBuffer::get_pixel`: the four channels stored for the pixel in
/// column `x` of row `y`, which start at byte `4 * (y * width + x)`. The
/// outside function panics beyond the image, so the pixel must lie within.
#[verifier::external_body]
fn frame_get_pixel(frame: &PixelGrid, x: u32, y: u32) -> (color: Color)
    requires
        x < frame_size(*frame).0,
        y < frame_size(*frame).1,
    ensures
        color@ == frame_bytes(*frame).subrange(
            4 * (y * frame_size(*frame).0 + x),
            4 * (y * frame_size(*frame).0 + x) + 4,
        ),
{
    frame.image.get_pixel(x, y).0
}

impl PixelGrid {
    /// The width and height of the frame.
    pub fn dimensions(&self) -> (size: (u32, u32))
        ensures
            size == frame_size(*self),
            4 * size.0 * size.1 <= frame_bytes(*self).len(),
    {
        frame_dimensions(self)
    }

    /// Gives up the frame for its bytes.
    pub fn into_raw(self) -> (bytes: Vec<u8>)
        ensures
            bytes@ == frame_bytes(self),
    {
        frame_into_raw(self)
    }

    /// The colour of the pixel in column `x` of row `y`, or nothing when the
    /// frame has no such pixel.
    pub fn pixel(&self, x: u32, y: u32) -> (color: Option<Color>)
        ensures
            color.is_some() <==> x < frame_size(*self).0 && y < frame_size(*self).1,
            color matches Some(c) ==> c@ == frame_bytes(*self).subrange(
                4 * (y * frame_size(*self).0 + x),
                4 * (y * frame_size(*self).0 + x) + 4,
            ),
    {
        let (width, height) = frame_dimensions(self);
        if x < width && y < height {
            Some(frame_get_pixel(self, x, y))
        } else {
            None
        }
    }
}

/// Draws a frame from the escape indices of its pixels.
///
/// `escapes` holds one index per pixel in the order of [`grid_points`]. The
/// frame is drawn when there is exactly one index for each of the
/// `width * height` pixels; the pixel in column `x` of row `y` then has the
/// colour of `escapes[y * width + x]` under the view's iteration budget.
pub fn draw_image(view: &crate::view::View, width: u32, height: u32, escapes: &Vec<i32>) -> (out:
    Option<PixelGrid>)
    ensures
        out.is_some() <==> escapes@.len() == width * height,
        out matches Some(frame) ==> {
            &&& frame_size(frame) == (width, height)
            &&& frame_bytes(frame) == painted(escapes@, view.sharpness)
        },
{
    assert(width * height <= 0xFFFF_FFFF * 0xFFFF_FFFF) by (nonlinear_arith)
        requires
            width <= 0xFFFF_FFFF,
            height <= 0xFFFF_FFFF,
    ;
    let pixels: u64 = (width as u64) * (height as u64);
    if escapes.len() as u64 != pixels {
        return None;
    }
    let bytes = paint(escapes, view.sharpness);
    assert(4 * width * height == 4 * (width * height)) by (nonlinear_arith);
    frame_from_raw(width, height, bytes)
}

/// In a drawn frame the pixel in column `x` of row `y` shows the colour of
/// the escape index that the pixel order puts at `(y, x)`.
pub proof fn lemma_drawn_pixel(escapes: Seq<i32>, steps: u32, width: u32, height: u32, x: u32, y: u32)
    requires
        escapes.len() == width * height,
        x < width,
        y < height,
    ensures
        0 <= y * width + x < escapes.len(),
        grid(width, height)[y * width + x] == (y, x),
        painted(escapes, steps).subrange(4 * (y * width + x), 4 * (y * width + x) + 4)
            == color_of(escapes[y * width + x], steps),
{
    lemma_grid_index(width, height, x, y);
    lemma_painted_pixel(escapes, steps, y * width + x);
}

} // verus!

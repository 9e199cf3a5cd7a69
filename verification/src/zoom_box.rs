//! Where a dragged rectangle leads.

use vstd::prelude::*;
use crate::pixel::in_canvas;
use crate::pixel::CanvasError;

verus! {

/// What a drag over the canvas asks for.
#[derive(Clone, Copy, Debug, PartialEq, Eq)]
pub struct ZoomBox {
    /// The pixel, as column and row, that becomes the new centre.
    pub center: (u32, u32),
    /// The factor by which the zoom grows, as numerator and denominator, or
    /// nothing when the drag selected no area and the zoom stays.
    pub zoom: Option<(u32, u32)>,
}

/// The distance between two coordinates.
pub open spec fn span(a: u32, b: u32) -> int {
    if a <= b {
        b - a
    } else {
        a - b
    }
}

/// The pixel halfway between two corners, each coordinate rounded down.
pub open spec fn midpoint(corner1: (u32, u32), corner2: (u32, u32)) -> (int, int) {
    ((corner1.0 + corner2.0) / 2, (corner1.1 + corner2.1) / 2)
}

/// The zoom factor for a selection `selected.0` pixels wide and `selected.1`
/// pixels high on a canvas of size `canvas`: the smaller of the two ratios
/// canvas to selection, so that the whole selection stays on screen. A
/// selection without area has none.
pub open spec fn zoom_ratio(canvas: (u32, u32), selected: (int, int)) -> Option<(int, int)> {
    if selected.0 == 0 || selected.1 == 0 {
        None
    } else if canvas.0 * selected.1 <= canvas.1 * selected.0 {
        Some((canvas.0 as int, selected.0))
    } else {
        Some((canvas.1 as int, selected.1))
    }
}

/// What `zoom_box` answers.
pub open spec fn spec_zoom_box(
    corner1: (u32, u32),
    corner2: (u32, u32),
    canvas: (u32, u32),
) -> Result<ZoomBox, CanvasError> {
    if !in_canvas(canvas, corner1) || !in_canvas(canvas, corner2) {
        Err(CanvasError::PixelOutOfRange)
    } else {
        let mid = midpoint(corner1, corner2);
        let selected = (span(corner1.0, corner2.0), span(corner1.1, corner2.1));
        Ok(
            ZoomBox {
                center: (mid.0 as u32, mid.1 as u32),
                zoom: match zoom_ratio(canvas, selected) {
                    Some(ratio) => Some((ratio.0 as u32, ratio.1 as u32)),
                    None => None,
                },
            },
        )
    }
}

/// Computes the distance between two coordinates.
fn distance(a: u32, b: u32) -> (d: u32)
    ensures
        d == span(a, b),
{
    if a <= b {
        b - a
    } else {
        a - b
    }
}

/// Turns the two corners of a drag into a new centre and a zoom factor.
///
/// The corners may come in any order. The new centre is the pixel halfway
/// between them. The factor is the smaller of canvas width over selected
/// width and canvas height over selected height, given exactly as a
/// fraction; a drag that selected no width or no height only recentres.
/// A corner outside the canvas is refused.
pub fn zoom_box(corner1: (u32, u32), corner2: (u32, u32), canvas: (u32, u32)) -> (out: Result<
    ZoomBox,
    CanvasError,
>)
    ensures
        out == spec_zoom_box(corner1, corner2, canvas),
{
    let (width, height) = canvas;
    let (x1, y1) = corner1;
    let (x2, y2) = corner2;
    if x1 >= width || y1 >= height || x2 >= width || y2 >= height {
        return Err(CanvasError::PixelOutOfRange);
    }
    let selected_width: u32 = distance(x1, x2);
    let selected_height: u32 = distance(y1, y2);
    let center_x: u32 = (((x1 as u64) + (x2 as u64)) / 2) as u32;
    let center_y: u32 = (((y1 as u64) + (y2 as u64)) / 2) as u32;
    let zoom: Option<(u32, u32)> = if selected_width == 0 || selected_height == 0 {
        None
    } else {
        assert(width * selected_height <= 0xFFFF_FFFF * 0xFFFF_FFFF) by (nonlinear_arith)
            requires
                width <= 0xFFFF_FFFF,
                selected_height <= 0xFFFF_FFFF,
        ;
        assert(height * selected_width <= 0xFFFF_FFFF * 0xFFFF_FFFF) by (nonlinear_arith)
            requires
                height <= 0xFFFF_FFFF,
                selected_width <= 0xFFFF_FFFF,
        ;
        if (width as u64) * (selected_height as u64) <= (height as u64) * (selected_width as u64) {
            Some((width, selected_width))
        } else {
            Some((height, selected_height))
        }
    };
    Ok(ZoomBox { center: (center_x, center_y), zoom })
}

/// The order of the corners does not matter.
pub proof fn lemma_corner_order(corner1: (u32, u32), corner2: (u32, u32), canvas: (u32, u32))
    ensures
        spec_zoom_box(corner1, corner2, canvas) == spec_zoom_box(corner2, corner1, canvas),
{
}

/// A drag is answered exactly when both corners are pixels of the canvas,
/// and the new centre is then a pixel of the canvas between the corners.
pub proof fn lemma_center_between(corner1: (u32, u32), corner2: (u32, u32), canvas: (u32, u32))
    ensures
        spec_zoom_box(corner1, corner2, canvas) is Ok <==> in_canvas(canvas, corner1) && in_canvas(
            canvas,
            corner2,
        ),
        spec_zoom_box(corner1, corner2, canvas) matches Ok(b) ==> {
            &&& in_canvas(canvas, b.center)
            &&& b.center.0 == midpoint(corner1, corner2).0
            &&& b.center.1 == midpoint(corner1, corner2).1
            &&& corner1.0 <= b.center.0 <= corner2.0 || corner2.0 <= b.center.0 <= corner1.0
            &&& corner1.1 <= b.center.1 <= corner2.1 || corner2.1 <= b.center.1 <= corner1.1
        },
{
}

/// A selection without width or without height leaves the zoom alone and
/// only recentres; a plain click recentres on the clicked pixel.
pub proof fn lemma_degenerate_selection(
    corner1: (u32, u32),
    corner2: (u32, u32),
    canvas: (u32, u32),
)
    requires
        in_canvas(canvas, corner1),
        in_canvas(canvas, corner2),
    ensures
        spec_zoom_box(corner1, corner2, canvas) matches Ok(b) && (b.zoom is None <==> corner1.0
            == corner2.0 || corner1.1 == corner2.1),
        corner1 == corner2 ==> spec_zoom_box(corner1, corner2, canvas) == Ok::<
            ZoomBox,
            CanvasError,
        >(ZoomBox { center: corner1, zoom: None }),
{
}

/// The zoom factor is one of the two ratios canvas to selection and exceeds
/// neither: scaled by it, the selection is as wide or as high as the canvas
/// and overflows it in no direction. It is never below one.
pub proof fn lemma_selection_fits(corner1: (u32, u32), corner2: (u32, u32), canvas: (u32, u32))
    requires
        in_canvas(canvas, corner1),
        in_canvas(canvas, corner2),
        corner1.0 != corner2.0,
        corner1.1 != corner2.1,
    ensures
        spec_zoom_box(corner1, corner2, canvas) matches Ok(b) && b.zoom matches Some(ratio) && {
            let width = span(corner1.0, corner2.0);
            let height = span(corner1.1, corner2.1);
            &&& ratio.1 > 0
            &&& ratio == (canvas.0, width as u32) || ratio == (canvas.1, height as u32)
            &&& ratio.0 * width <= canvas.0 * ratio.1
            &&& ratio.0 * height <= canvas.1 * ratio.1
            &&& ratio.0 > ratio.1
        },
{
    let width = span(corner1.0, corner2.0);
    let height = span(corner1.1, corner2.1);
    assert(canvas.0 * width == width * canvas.0) by (nonlinear_arith);
    assert(canvas.1 * height == height * canvas.1) by (nonlinear_arith);
    assert(canvas.0 * height == height * canvas.0) by (nonlinear_arith);
    assert(canvas.1 * width == width * canvas.1) by (nonlinear_arith);
}

/// The widest selection a canvas allows, from its first pixel to its last,
/// recentres within one pixel of the canvas centre and zooms by a factor just
/// above one: the ratio of a canvas side to that side less one pixel.
pub proof fn lemma_full_canvas_selection(canvas: (u32, u32))
    requires
        canvas.0 >= 2,
        canvas.1 >= 2,
    ensures
        spec_zoom_box((0, 0), ((canvas.0 - 1) as u32, (canvas.1 - 1) as u32), canvas) matches Ok(b)
            && b.zoom matches Some(ratio) && {
            &&& canvas.0 / 2 - 1 <= b.center.0 <= canvas.0 / 2
            &&& canvas.1 / 2 - 1 <= b.center.1 <= canvas.1 / 2
            &&& ratio.1 == ratio.0 - 1
            &&& ratio.0 == if canvas.0 >= canvas.1 {
                canvas.0
            } else {
                canvas.1
            }
        },
{
    let w = canvas.0 as int;
    let h = canvas.1 as int;
    assert(w * (h - 1) <= h * (w - 1) <==> w >= h) by (nonlinear_arith);
}

} // verus!

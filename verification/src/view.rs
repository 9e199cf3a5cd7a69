//! The visible window onto the complex plane.

use vstd::prelude::*;
use crate::binary64::is_positive;
use crate::binary64::is_positive_bits;

verus! {

/// How much one `sharpen` or `unsharpen` changes the iteration budget.
pub const SHARPNESS_STEP: u32 = 10;

/// The smallest iteration budget a view may have.
pub const MIN_SHARPNESS: u32 = 1;

/// A point of the complex plane.
///
/// Each coordinate is the IEEE-754 binary64 bit pattern of the number, as
/// `to_bits` gives it. The library copies and compares these patterns and
/// never computes with them.
#[derive(Clone, Copy, Debug, PartialEq, Eq, Structural)]
pub struct Complex {
    pub r: u64,
    pub i: u64,
}

/// The window onto the plane: the point shown at the canvas centre, the
/// scale in pixels per unit, and the iteration budget.
///
/// `r`, `i` and `zoom` are IEEE-754 binary64 bit patterns, as in [`Complex`].
#[derive(Clone, Copy, Debug, PartialEq, Eq, Structural)]
pub struct View {
    pub r: u64,
    pub i: u64,
    pub zoom: u64,
    pub sharpness: u32,
}

impl View {
    /// The invariant of a view: a zoom greater than zero and an iteration
    /// budget of at least one.
    pub open spec fn wf(&self) -> bool {
        &&& is_positive_bits(self.zoom)
        &&& self.sharpness >= MIN_SHARPNESS
    }

    /// The view with ten more iterations, stopping at the largest budget the
    /// type can hold.
    pub open spec fn spec_sharpen(&self) -> View {
        View {
            sharpness: if self.sharpness + SHARPNESS_STEP <= u32::MAX {
                (self.sharpness + SHARPNESS_STEP) as u32
            } else {
                u32::MAX
            },
            ..*self
        }
    }

    /// The view with ten fewer iterations, stopping at one.
    pub open spec fn spec_unsharpen(&self) -> View {
        View {
            sharpness: if self.sharpness - SHARPNESS_STEP >= MIN_SHARPNESS {
                (self.sharpness - SHARPNESS_STEP) as u32
            } else {
                MIN_SHARPNESS
            },
            ..*self
        }
    }

    /// The view moved so that `c` is shown at the canvas centre.
    pub open spec fn spec_center_on(&self, c: Complex) -> View {
        View { r: c.r, i: c.i, ..*self }
    }

    /// Builds a view, or nothing when the zoom is not a positive number or
    /// the iteration budget is zero.
    pub fn new(r: u64, i: u64, zoom: u64, sharpness: u32) -> (out: Option<View>)
        ensures
            out == if is_positive_bits(zoom) && sharpness >= MIN_SHARPNESS {
                Some(View { r, i, zoom, sharpness })
            } else {
                None
            },
            out matches Some(v) ==> v.wf(),
    {
        if is_positive(zoom) && sharpness >= MIN_SHARPNESS {
            Some(View { r, i, zoom, sharpness })
        } else {
            None
        }
    }

    /// Raises the iteration budget by ten; the position and the zoom stay.
    pub fn sharpen(&self) -> (out: View)
        ensures
            out == self.spec_sharpen(),
            self.wf() ==> out.wf(),
    {
        View { sharpness: self.sharpness.saturating_add(SHARPNESS_STEP), ..*self }
    }

    /// Lowers the iteration budget by ten, but never below one; the position
    /// and the zoom stay.
    pub fn unsharpen(&self) -> (out: View)
        ensures
            out == self.spec_unsharpen(),
            out.sharpness >= MIN_SHARPNESS,
            self.wf() ==> out.wf(),
    {
        let sharpness: u32 = if self.sharpness > SHARPNESS_STEP {
            self.sharpness - SHARPNESS_STEP
        } else {
            MIN_SHARPNESS
        };
        View { sharpness, ..*self }
    }

    /// Moves the view so that `c` is shown at the canvas centre; the zoom and
    /// the iteration budget stay.
    pub fn center_on(&self, c: Complex) -> (out: View)
        ensures
            out == self.spec_center_on(c),
            self.wf() ==> out.wf(),
    {
        View { r: c.r, i: c.i, ..*self }
    }
}

/// Sharpening and then unsharpening gives the view back, as long as the
/// raised budget still fits the type.
pub proof fn lemma_sharpen_then_unsharpen(v: View)
    requires
        v.wf(),
        v.sharpness + SHARPNESS_STEP <= u32::MAX,
    ensures
        v.spec_sharpen().spec_unsharpen() == v,
{
}

/// Unsharpening and then sharpening gives the view back, as long as the
/// lowered budget did not hit the floor.
pub proof fn lemma_unsharpen_then_sharpen(v: View)
    requires
        v.sharpness > SHARPNESS_STEP,
    ensures
        v.spec_unsharpen().spec_sharpen() == v,
{
}

/// Centring twice is the same as centring on the second point alone, and
/// centring a view on its own centre changes nothing.
pub proof fn lemma_center_on_overrides(v: View, a: Complex, b: Complex)
    ensures
        v.spec_center_on(a).spec_center_on(b) == v.spec_center_on(b),
        v.spec_center_on(Complex { r: v.r, i: v.i }) == v,
{
}

} // verus!

//! The range between two values, whichever of them comes first.

use vstd::prelude::*;
use vstd::std_specs::cmp::PartialOrdIs;
use vstd::std_specs::cmp::PartialOrdSpec;
use std::ops::Range;

verus! {

/// Values that span a half-open range with another of their kind.
pub trait AllBetween: Sized {
    /// Whether the order of this type is one that contracts can speak of.
    spec fn ordered() -> bool;

    /// Whether `self` is at most `other` in that order.
    spec fn precedes(&self, other: &Self) -> bool;

    /// The range from the smaller of the two values up to, but without, the
    /// larger one. The order in which they are given does not matter: the
    /// range starts at `self` exactly when `self` is at most `other`.
    fn all_between(self, other: Self) -> (range: Range<Self>)
        ensures
            range.start == self && range.end == other || range.start == other && range.end
                == self,
            Self::ordered() && self.precedes(&other) ==> range.start == self && range.end == other,
            Self::ordered() && !self.precedes(&other) ==> range.start == other && range.end
                == self,
    ;
}

impl<T: PartialOrd> AllBetween for T {
    open spec fn ordered() -> bool {
        T::obeys_partial_cmp_spec()
    }

    open spec fn precedes(&self, other: &Self) -> bool {
        self.is_le(other)
    }

    fn all_between(self, other: Self) -> (range: Range<Self>) {
        if self <= other {
            self..other
        } else {
            other..self
        }
    }
}

/// For pixel coordinates the order is that of the numbers, so the range
/// starts at the smaller coordinate and ends before the larger.
pub proof fn lemma_all_between_u32(a: u32, b: u32)
    ensures
        u32::ordered(),
        a.precedes(&b) <==> a <= b,
{
}

} // verus!

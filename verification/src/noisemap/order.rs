//! The order of sizes.
//!
//! Sizes are ordered by their area, so that the larger of two sizes is the
//! one with more cells. Sizes of one area are equivalent in this order,
//! whatever their widths.

use vstd::prelude::*;
use vstd::std_specs::cmp::PartialOrdSpecImpl;
use std::cmp::Ordering;
use super::Size;

verus! {

impl PartialOrd for Size {
    fn partial_cmp(&self, other: &Size) -> (order: Option<Ordering>) {
        let mine: i128 = self.get_area();
        let theirs: i128 = other.get_area();
        if mine < theirs {
            Some(Ordering::Less)
        } else if mine > theirs {
            Some(Ordering::Greater)
        } else {
            Some(Ordering::Equal)
        }
    }
}

impl PartialOrdSpecImpl for Size {
    open spec fn obeys_partial_cmp_spec() -> bool {
        true
    }

    open spec fn partial_cmp_spec(&self, other: &Size) -> Option<Ordering> {
        if self.area() < other.area() {
            Some(Ordering::Less)
        } else if self.area() > other.area() {
            Some(Ordering::Greater)
        } else {
            Some(Ordering::Equal)
        }
    }
}

} // verus!

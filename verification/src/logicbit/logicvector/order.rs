//! The order of vectors by the numbers they spell.

use vstd::prelude::*;
use core::cmp::Ordering;
use vstd::std_specs::cmp::PartialOrdSpecImpl;
use crate::logicbit::logicvector::LogicVector;

verus! {

impl PartialOrd for LogicVector {
    /// Compares two vectors of one width by the numbers they spell. Vectors
    /// of different widths, or that spell no number, do not compare.
    fn partial_cmp(&self, other: &LogicVector) -> (r: Option<Ordering>) {
        if self.width() != other.width() {
            return None;
        }
        match (self.as_u128(), other.as_u128()) {
            (Some(a), Some(b)) => if a < b {
                Some(Ordering::Less)
            } else if a == b {
                Some(Ordering::Equal)
            } else {
                Some(Ordering::Greater)
            },
            _ => None,
        }
    }
}

impl PartialOrdSpecImpl for LogicVector {
    open spec fn obeys_partial_cmp_spec() -> bool {
        true
    }

    open spec fn partial_cmp_spec(&self, other: &LogicVector) -> Option<Ordering> {
        if self.spec_width() != other.spec_width() {
            None
        } else {
            match (self.int_value(), other.int_value()) {
                (Some(a), Some(b)) => if a < b {
                    Some(Ordering::Less)
                } else if a == b {
                    Some(Ordering::Equal)
                } else {
                    Some(Ordering::Greater)
                },
                _ => None,
            }
        }
    }
}

} // verus!

//! The order of UEFI revisions: by their number, so by major part, then
//! minor part
use core::cmp::Ordering;

use vstd::prelude::*;

use crate::table::raw::Revision;

verus! {

/// How two revision numbers compare
pub open spec fn revision_order(a: u32, b: u32) -> Ordering {
    if a < b {
        Ordering::Less
    } else if a == b {
        Ordering::Equal
    } else {
        Ordering::Greater
    }
}

impl PartialOrd for Revision {
    fn partial_cmp(&self, other: &Self) -> (r: Option<Ordering>) {
        if self.0 < other.0 {
            Some(Ordering::Less)
        } else if self.0 == other.0 {
            Some(Ordering::Equal)
        } else {
            Some(Ordering::Greater)
        }
    }
}

impl vstd::std_specs::cmp::PartialOrdSpecImpl for Revision {
    open spec fn obeys_partial_cmp_spec() -> bool {
        true
    }

    open spec fn partial_cmp_spec(&self, other: &Revision) -> Option<Ordering> {
        Some(revision_order(self.0, other.0))
    }
}

/// Revisions made from parts compare as their parts do: by major part, then
/// by minor part
pub proof fn lemma_revision_order(a: u16, b: u16, c: u16, d: u16, x: u32, y: u32)
    requires
        x == a * 0x10000 + b,
        y == c * 0x10000 + d,
    ensures
        (revision_order(x, y) == Ordering::Less) <==> (a < c || (a == c && b < d)),
        (revision_order(x, y) == Ordering::Equal) <==> (a == c && b == d),
{
}

} // verus!

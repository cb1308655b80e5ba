//! The order of sizes: that of their counts of bytes.

use core::cmp::Ordering;
use vstd::prelude::*;
use vstd::std_specs::cmp::PartialOrdSpecImpl;

verus! {

/// How the count `a` stands to the count `b`.
pub open spec fn order_of_counts(a: u64, b: u64) -> Ordering {
    if a < b {
        Ordering::Less
    } else if a > b {
        Ordering::Greater
    } else {
        Ordering::Equal
    }
}

/// Compares two counts of bytes.
pub fn compare_counts(a: u64, b: u64) -> (order: Ordering)
    ensures
        order == order_of_counts(a, b),
{
    if a < b {
        Ordering::Less
    } else if a > b {
        Ordering::Greater
    } else {
        Ordering::Equal
    }
}

impl PartialOrd for crate::size::ByteSize {
    fn partial_cmp(&self, other: &crate::size::ByteSize) -> (order: Option<Ordering>) {
        Some(compare_counts(self.0, other.0))
    }
}

impl PartialOrdSpecImpl for crate::size::ByteSize {
    open spec fn obeys_partial_cmp_spec() -> bool {
        true
    }

    open spec fn partial_cmp_spec(&self, other: &crate::size::ByteSize) -> Option<Ordering> {
        Some(order_of_counts(self.0, other.0))
    }
}

impl PartialOrd for crate::bytelike_size::ByteSize {
    fn partial_cmp(&self, other: &crate::bytelike_size::ByteSize) -> (order: Option<Ordering>) {
        Some(compare_counts(self.0, other.0))
    }
}

impl PartialOrdSpecImpl for crate::bytelike_size::ByteSize {
    open spec fn obeys_partial_cmp_spec() -> bool {
        true
    }

    open spec fn partial_cmp_spec(&self, other: &crate::bytelike_size::ByteSize) -> Option<
        Ordering,
    > {
        Some(order_of_counts(self.0, other.0))
    }
}

} // verus!

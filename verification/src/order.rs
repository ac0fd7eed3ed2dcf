//! The order of nine-bit values, which is the order of their magnitudes.

use core::cmp::Ordering;
use vstd::prelude::*;
use vstd::std_specs::cmp::PartialOrdSpec;
use crate::value::U9;

verus! {

impl PartialOrd for U9 {
    /// Compares two values by magnitude; any two are comparable.
    fn partial_cmp(&self, other: &U9) -> (r: Option<Ordering>) {
        let left: u16 = u16::from(*self);
        let right: u16 = u16::from(*other);
        if left < right {
            Some(Ordering::Less)
        } else if left == right {
            Some(Ordering::Equal)
        } else {
            Some(Ordering::Greater)
        }
    }
}

impl vstd::std_specs::cmp::PartialOrdSpecImpl for U9 {
    open spec fn obeys_partial_cmp_spec() -> bool {
        true
    }

    open spec fn partial_cmp_spec(&self, other: &U9) -> Option<Ordering> {
        if self@ < other@ {
            Some(Ordering::Less)
        } else if self@ == other@ {
            Some(Ordering::Equal)
        } else {
            Some(Ordering::Greater)
        }
    }
}

/// The order agrees with equality: two values compare as equal exactly when
/// they are the same value.
pub proof fn lemma_equal_order_is_equality(a: U9, b: U9)
    ensures
        (a.partial_cmp_spec(&b) == Some(Ordering::Equal)) <==> (a == b),
{
    U9::lemma_view_injective(a, b);
}

} // verus!

//! The partial order of [`Integral`]: two integrals compare only when they
//! have the same width and signedness, and then by the values they denote.
use crate::integral::{lemma_integral_parts, lemma_value_determines_bits, Integral, Signedness};
use std::cmp::Ordering;
use vstd::prelude::*;
use vstd::std_specs::cmp::PartialOrdSpecImpl;

verus! {

impl PartialOrd for Integral {
    fn partial_cmp(&self, other: &Integral) -> (r: Option<Ordering>) {
        if self.width().get() != other.width().get() || self.signedness() != other.signedness() {
            return None;
        }
        let less;
        let equal;
        if self.is_signed() {
            let a = self.as_signed();
            let b = other.as_signed();
            less = a < b;
            equal = a == b;
        } else {
            let a = self.bits();
            let b = other.bits();
            less = a < b;
            equal = a == b;
        }
        if less {
            Some(Ordering::Less)
        } else if equal {
            Some(Ordering::Equal)
        } else {
            Some(Ordering::Greater)
        }
    }
}

impl PartialOrdSpecImpl for Integral {
    open spec fn obeys_partial_cmp_spec() -> bool {
        true
    }

    open spec fn partial_cmp_spec(&self, other: &Integral) -> Option<Ordering> {
        compare_integrals(*self, *other)
    }
}

/// How two integrals compare: by value when they have the same width and
/// signedness, not at all otherwise.
pub open spec fn compare_integrals(x: Integral, y: Integral) -> Option<Ordering> {
    if !x.same_kind(y) {
        None
    } else if x.value() < y.value() {
        Some(Ordering::Less)
    } else if x.value() == y.value() {
        Some(Ordering::Equal)
    } else {
        Some(Ordering::Greater)
    }
}

/// Integrals of one width and signedness are totally ordered by
/// `partial_cmp`, which agrees with `==`; integrals of different kinds do
/// not compare.
pub proof fn law_partial_cmp_total_and_agrees_with_eq(x: Integral, y: Integral)
    requires
        x.wf(),
        y.wf(),
    ensures
        x.same_kind(y) <==> compare_integrals(x, y) is Some,
        x.same_kind(y) ==> (compare_integrals(x, y) == Some(Ordering::Equal) <==> x == y),
        compare_integrals(x, y) == Some(Ordering::Less) <==> compare_integrals(y, x) == Some(
            Ordering::Greater,
        ),
{
    if x.same_kind(y) && x.value() == y.value() {
        lemma_value_determines_bits(x, y);
        lemma_integral_parts(x);
        lemma_integral_parts(y);
    }
}

} // verus!

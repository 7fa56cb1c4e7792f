//! Equality and order.
//!
//! Two values of one type compare as their canonical representatives do.
//! Since every class has exactly one canonical representative, equal values
//! are exactly the values that are congruent modulo the modulus.

use crate::modulus::{CompileTimeUnsigned, FromCompileTimeUnsinged};
use crate::unsigned::Unsigned;
use core::cmp::Ordering;
use vstd::prelude::*;
use vstd::std_specs::cmp::{PartialEqSpec, PartialOrdSpec};

verus! {

impl<V: FromCompileTimeUnsinged, M: CompileTimeUnsigned> vstd::std_specs::cmp::PartialEqSpecImpl
    for Unsigned<V, M> {
    open spec fn obeys_eq_spec() -> bool {
        true
    }

    open spec fn eq_spec(&self, other: &Self) -> bool {
        self@ == other@
    }
}

impl<V: FromCompileTimeUnsinged, M: CompileTimeUnsigned> PartialEq for Unsigned<V, M> {
    /// Whether the two canonical representatives are the same.
    fn eq(&self, other: &Self) -> (r: bool)
        ensures
            r == (self@ == other@),
    {
        self.value().same(other.value())
    }
}

impl<V: FromCompileTimeUnsinged, M: CompileTimeUnsigned> Eq for Unsigned<V, M> {

}

impl<V: FromCompileTimeUnsinged, M: CompileTimeUnsigned> vstd::std_specs::cmp::PartialOrdSpecImpl
    for Unsigned<V, M> {
    open spec fn obeys_partial_cmp_spec() -> bool {
        true
    }

    open spec fn partial_cmp_spec(&self, other: &Self) -> Option<Ordering> {
        if self@ < other@ {
            Some(Ordering::Less)
        } else if self@ > other@ {
            Some(Ordering::Greater)
        } else {
            Some(Ordering::Equal)
        }
    }
}

impl<V: FromCompileTimeUnsinged, M: CompileTimeUnsigned> PartialOrd for Unsigned<V, M> {
    /// The order of the two canonical representatives.
    fn partial_cmp(&self, other: &Self) -> (r: Option<Ordering>)
        ensures
            r == Some(Ordering::Less) <==> self@ < other@,
            r == Some(Ordering::Equal) <==> self@ == other@,
            r == Some(Ordering::Greater) <==> self@ > other@,
    {
        let a = self.value();
        let b = other.value();
        if a.below(b) {
            Some(Ordering::Less)
        } else if b.below(a) {
            Some(Ordering::Greater)
        } else {
            Some(Ordering::Equal)
        }
    }
}

impl<V: FromCompileTimeUnsinged, M: CompileTimeUnsigned> Unsigned<V, M> {
    /// Equality and order of two values are equality and order of their
    /// canonical representatives, and equal values are the same value.
    pub proof fn lemma_compare_by_representative(self, other: Self)
        ensures
            self.eq_spec(&other) <==> self@ == other@,
            self.eq_spec(&other) <==> self == other,
            self.partial_cmp_spec(&other) == Some(Ordering::Less) <==> self@ < other@,
            self.partial_cmp_spec(&other) == Some(Ordering::Equal) <==> self@ == other@,
            self.partial_cmp_spec(&other) == Some(Ordering::Greater) <==> self@ > other@,
    {
        self.lemma_view();
        other.lemma_view();
    }
}

} // verus!

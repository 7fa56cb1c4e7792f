//! The arithmetic operators.
//!
//! Each takes two values of one type and returns a new value of that type.
//! Sum and product are computed at the width of the storage type and then
//! reduced; the difference borrows one modulus where it must; quotient and
//! remainder are those of the canonical representatives.

use crate::modular::{
    add_mod, lemma_add_mod_exact, lemma_mul_mod_exact, lemma_reduce, lemma_sub_mod_cases, lost,
    mul_mod, sub_mod,
};
use crate::modulus::{CompileTimeUnsigned, FromCompileTimeUnsinged};
use crate::unsigned::Unsigned;
use core::ops::{Add, Div, Mul, Rem, Sub};
use vstd::arithmetic::div_mod::{lemma_div_is_ordered_by_denominator, lemma_mod_decreases};
use vstd::prelude::*;
use vstd::std_specs::ops::{AddSpecImpl, DivSpecImpl, MulSpecImpl, RemSpecImpl, SubSpecImpl};

verus! {

impl<V: FromCompileTimeUnsinged, M: CompileTimeUnsigned> Unsigned<V, M> {
    /// What `+` returns: the sum of the representatives, truncated to the
    /// storage width, then reduced.
    pub open spec fn sum(self, rhs: Self) -> Self {
        Self::from_raw(add_mod(self@, rhs@, V::range(), Self::modulus()))
    }

    /// What `-` returns: the difference of the representatives modulo the
    /// modulus.
    pub open spec fn difference(self, rhs: Self) -> Self {
        Self::from_raw(sub_mod(self@, rhs@, Self::modulus()))
    }

    /// What `*` returns: the product of the representatives, truncated to the
    /// storage width, then reduced.
    pub open spec fn product(self, rhs: Self) -> Self {
        Self::from_raw(mul_mod(self@, rhs@, V::range(), Self::modulus()))
    }

    /// Whether the sum of the two representatives fits the storage type, so
    /// that adding them truncates nothing.
    pub open spec fn sum_fits(self, rhs: Self) -> bool {
        self@ + rhs@ < V::range()
    }

    /// Whether the product of the two representatives fits the storage type,
    /// so that multiplying them truncates nothing.
    pub open spec fn product_fits(self, rhs: Self) -> bool {
        self@ * rhs@ < V::range()
    }

    /// What the truncation to the storage type takes from the sum of the two
    /// representatives; zero where the sum fits.
    pub open spec fn sum_loss(self, rhs: Self) -> nat {
        lost(self@ + rhs@, V::range())
    }

    /// What the truncation to the storage type takes from the product of the
    /// two representatives; zero where the product fits.
    pub open spec fn product_loss(self, rhs: Self) -> nat {
        lost(self@ * rhs@, V::range())
    }

    /// What `/` returns: the integer quotient of the representatives.
    pub open spec fn quotient(self, rhs: Self) -> Self {
        Self::from_raw(self@ / rhs@)
    }

    /// What `%` returns: the remainder of the integer division of the
    /// representatives.
    pub open spec fn remainder(self, rhs: Self) -> Self {
        Self::from_raw(self@ % rhs@)
    }
}

impl<V: FromCompileTimeUnsinged, M: CompileTimeUnsigned> AddSpecImpl for Unsigned<V, M> {
    open spec fn obeys_add_spec() -> bool {
        true
    }

    open spec fn add_req(self, rhs: Self) -> bool {
        true
    }

    open spec fn add_spec(self, rhs: Self) -> Self {
        self.sum(rhs)
    }
}

impl<V: FromCompileTimeUnsinged, M: CompileTimeUnsigned> Add for Unsigned<V, M> {
    type Output = Self;

    /// The wrapped sum of the two representatives, reduced.
    fn add(self, rhs: Self) -> (r: Self)
        ensures
            r == self.sum(rhs),
            r@ == add_mod(self@, rhs@, V::range(), Self::modulus()),
            self.sum_fits(rhs) ==> r@ == (self@ + rhs@) % Self::modulus(),
            r.is_canonical(),
    {
        let sum = self.value().wrapping_add(rhs.value());
        proof {
            lemma_reduce(sum.to_nat(), Self::modulus());
            if self.sum_fits(rhs) {
                lemma_add_mod_exact(self@, rhs@, V::range(), Self::modulus());
            }
        }
        Self::from_canonical(sum.remainder(Self::modulus_value()))
    }
}

impl<V: FromCompileTimeUnsinged, M: CompileTimeUnsigned> SubSpecImpl for Unsigned<V, M> {
    open spec fn obeys_sub_spec() -> bool {
        true
    }

    open spec fn sub_req(self, rhs: Self) -> bool {
        true
    }

    open spec fn sub_spec(self, rhs: Self) -> Self {
        self.difference(rhs)
    }
}

impl<V: FromCompileTimeUnsinged, M: CompileTimeUnsigned> Sub for Unsigned<V, M> {
    type Output = Self;

    /// The difference of the two representatives modulo the modulus.
    fn sub(self, rhs: Self) -> (r: Self)
        ensures
            r == self.difference(rhs),
            r@ == sub_mod(self@, rhs@, Self::modulus()),
            r.is_canonical(),
    {
        let a = self.value();
        let b = rhs.value();
        proof {
            lemma_sub_mod_cases(self@, rhs@, Self::modulus());
        }
        let value = if a.below(b) {
            Self::modulus_value().difference(b.difference(a))
        } else {
            a.difference(b)
        };
        Self::from_canonical(value)
    }
}

impl<V: FromCompileTimeUnsinged, M: CompileTimeUnsigned> MulSpecImpl for Unsigned<V, M> {
    open spec fn obeys_mul_spec() -> bool {
        true
    }

    open spec fn mul_req(self, rhs: Self) -> bool {
        true
    }

    open spec fn mul_spec(self, rhs: Self) -> Self {
        self.product(rhs)
    }
}

impl<V: FromCompileTimeUnsinged, M: CompileTimeUnsigned> Mul for Unsigned<V, M> {
    type Output = Self;

    /// The wrapped product of the two representatives, reduced.
    fn mul(self, rhs: Self) -> (r: Self)
        ensures
            r == self.product(rhs),
            r@ == mul_mod(self@, rhs@, V::range(), Self::modulus()),
            self.product_fits(rhs) ==> r@ == (self@ * rhs@) % Self::modulus(),
            r.is_canonical(),
    {
        let product = self.value().wrapping_mul(rhs.value());
        proof {
            lemma_reduce(product.to_nat(), Self::modulus());
            if self.product_fits(rhs) {
                lemma_mul_mod_exact(self@, rhs@, V::range(), Self::modulus());
            }
        }
        Self::from_canonical(product.remainder(Self::modulus_value()))
    }
}

impl<V: FromCompileTimeUnsinged, M: CompileTimeUnsigned> DivSpecImpl for Unsigned<V, M> {
    open spec fn obeys_div_spec() -> bool {
        true
    }

    open spec fn div_req(self, rhs: Self) -> bool {
        rhs@ != 0
    }

    open spec fn div_spec(self, rhs: Self) -> Self {
        self.quotient(rhs)
    }
}

impl<V: FromCompileTimeUnsinged, M: CompileTimeUnsigned> Div for Unsigned<V, M> {
    type Output = Self;

    /// The integer quotient of the two representatives. This is not the
    /// product with a modular inverse.
    fn div(self, rhs: Self) -> (r: Self)
        ensures
            r == self.quotient(rhs),
            r@ == self@ / rhs@,
            r.is_canonical(),
    {
        let a = self.value();
        let b = rhs.value();
        proof {
            lemma_div_is_ordered_by_denominator(self@ as int, 1, rhs@ as int);
        }
        Self::from_canonical(a.quotient(b))
    }
}

impl<V: FromCompileTimeUnsinged, M: CompileTimeUnsigned> RemSpecImpl for Unsigned<V, M> {
    open spec fn obeys_rem_spec() -> bool {
        true
    }

    open spec fn rem_req(self, rhs: Self) -> bool {
        rhs@ != 0
    }

    open spec fn rem_spec(self, rhs: Self) -> Self {
        self.remainder(rhs)
    }
}

impl<V: FromCompileTimeUnsinged, M: CompileTimeUnsigned> Rem for Unsigned<V, M> {
    type Output = Self;

    /// The remainder of the integer division of the two representatives.
    fn rem(self, rhs: Self) -> (r: Self)
        ensures
            r == self.remainder(rhs),
            r@ == self@ % rhs@,
            r.is_canonical(),
    {
        let a = self.value();
        let b = rhs.value();
        proof {
            lemma_mod_decreases(self@, rhs@);
        }
        Self::from_canonical(a.remainder(b))
    }
}

} // verus!

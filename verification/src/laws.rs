//! What holds of the operations taken together.
//!
//! The laws speak of values as mathematics sees them: `from_spec`, `sum`,
//! `difference`, `product`, `zero_spec` and `one_spec` are what construction,
//! `+`, `-`, `*`, `zero` and `one` return.
//!
//! Sum and product are computed at the width of the storage type. Where the
//! modulus is large for that width they can lose a multiple of the width's
//! range before they are reduced, and then they are not the sum and product
//! modulo the modulus. The laws of association say exactly when that matters.

use crate::modular::{
    add_mod, lemma_add_mod_associative_iff, lemma_identities, lemma_lost,
    lemma_mul_mod_associative_iff, lemma_reduce, lemma_sum_then_difference, mul_mod, reduce,
    sub_mod,
};
use crate::modulus::{CompileTimeUnsigned, FromCompileTimeUnsinged};
use crate::unsigned::Unsigned;
use vstd::arithmetic::div_mod::{
    lemma_div_is_ordered_by_denominator, lemma_mod_bound, lemma_mod_decreases, lemma_small_mod,
};
use vstd::arithmetic::mul::lemma_mul_is_commutative;
use vstd::prelude::*;

verus! {

impl<V: FromCompileTimeUnsinged, M: CompileTimeUnsigned> Unsigned<V, M> {
    /// Constructing from the canonical representative of a constructed value
    /// gives that value again, and an integer that is canonical already is
    /// stored unchanged.
    pub proof fn lemma_construct_idempotent(raw: V)
        requires
            Self::valid_modulus(),
        ensures
            Self::from_spec(Self::from_spec(raw).value()) == Self::from_spec(raw),
            Self::from_spec(raw).is_canonical(),
            raw.to_nat() < Self::modulus() ==> Self::from_spec(raw).value() == raw,
    {
        let m = Self::modulus();
        let once = Self::from_spec(raw);
        raw.lemma_to_nat();
        lemma_reduce(raw.to_nat(), m);
        Self::lemma_from_raw(reduce(raw.to_nat(), m));
        once.lemma_view();
    }

    /// Every operation returns a canonical value. The views of sum, product
    /// and difference are what `add_mod`, `mul_mod` and `sub_mod` say.
    pub proof fn lemma_results_canonical(self, rhs: Self)
        requires
            Self::valid_modulus(),
        ensures
            self.sum(rhs).is_canonical(),
            self.product(rhs).is_canonical(),
            self.difference(rhs).is_canonical(),
            self.is_canonical() && rhs@ != 0 ==> self.quotient(rhs).is_canonical(),
            self.is_canonical() && rhs@ != 0 ==> self.remainder(rhs).is_canonical(),
            self.sum(rhs)@ == add_mod(self@, rhs@, V::range(), Self::modulus()),
            self.product(rhs)@ == mul_mod(self@, rhs@, V::range(), Self::modulus()),
            self.difference(rhs)@ == sub_mod(self@, rhs@, Self::modulus()),
    {
        let range = V::range();
        let m = Self::modulus();
        lemma_reduce((self@ + rhs@) % range, m);
        lemma_reduce((self@ * rhs@) % range, m);
        lemma_mod_bound(self@ - rhs@, m as int);
        Self::lemma_from_raw(add_mod(self@, rhs@, range, m));
        Self::lemma_from_raw(mul_mod(self@, rhs@, range, m));
        Self::lemma_from_raw(sub_mod(self@, rhs@, m));
        if self.is_canonical() && rhs@ != 0 {
            lemma_div_is_ordered_by_denominator(self@ as int, 1, rhs@ as int);
            lemma_mod_decreases(self@, rhs@);
            Self::lemma_from_raw(self@ / rhs@);
            Self::lemma_from_raw(self@ % rhs@);
        }
    }

    /// Addition is commutative.
    pub proof fn lemma_add_commutative(self, rhs: Self)
        ensures
            self.sum(rhs) == rhs.sum(self),
    {
    }

    /// Multiplication is commutative.
    pub proof fn lemma_mul_commutative(self, rhs: Self)
        ensures
            self.product(rhs) == rhs.product(self),
    {
        lemma_mul_is_commutative(self@ as int, rhs@ as int);
    }

    /// Addition is associative exactly where the two sums on either side lose
    /// the same to truncation, up to a multiple of the modulus.
    pub proof fn lemma_add_associative_iff(self, b: Self, c: Self)
        requires
            Self::valid_modulus(),
        ensures
            self.sum(b).sum(c) == self.sum(b.sum(c)) <==> (self.sum_loss(b) + self.sum(b).sum_loss(
                c,
            )) % Self::modulus() == (b.sum_loss(c) + self.sum_loss(b.sum(c))) % Self::modulus(),
    {
        let range = V::range();
        let m = Self::modulus();
        self.lemma_results_canonical(b);
        b.lemma_results_canonical(c);
        self.sum(b).lemma_results_canonical(c);
        self.lemma_results_canonical(b.sum(c));
        lemma_add_mod_associative_iff(self@, b@, c@, range, m);
    }

    /// Addition is associative wherever none of the four sums is truncated
    /// by the storage type.
    pub proof fn lemma_add_associative(self, b: Self, c: Self)
        requires
            Self::valid_modulus(),
            self.sum_fits(b),
            b.sum_fits(c),
            self.sum(b).sum_fits(c),
            self.sum_fits(b.sum(c)),
        ensures
            self.sum(b).sum(c) == self.sum(b.sum(c)),
    {
        let range = V::range();
        lemma_lost(self@ + b@, range);
        lemma_lost(b@ + c@, range);
        lemma_lost(self.sum(b)@ + c@, range);
        lemma_lost(self@ + b.sum(c)@, range);
        self.lemma_add_associative_iff(b, c);
    }

    /// Multiplication is associative exactly where the two products on either
    /// side lose the same to truncation, up to a multiple of the modulus. What
    /// the inner product loses counts once for each unit of the outer factor.
    pub proof fn lemma_mul_associative_iff(self, b: Self, c: Self)
        requires
            Self::valid_modulus(),
        ensures
            self.product(b).product(c) == self.product(b.product(c)) <==> (self.product_loss(b)
                * c@ + self.product(b).product_loss(c)) % Self::modulus() == (self@
                * b.product_loss(c) + self.product_loss(b.product(c))) % Self::modulus(),
    {
        let range = V::range();
        let m = Self::modulus();
        self.lemma_results_canonical(b);
        b.lemma_results_canonical(c);
        self.product(b).lemma_results_canonical(c);
        self.lemma_results_canonical(b.product(c));
        lemma_mul_mod_associative_iff(self@, b@, c@, range, m);
    }

    /// Multiplication is associative wherever none of the four products is
    /// truncated by the storage type.
    pub proof fn lemma_mul_associative(self, b: Self, c: Self)
        requires
            Self::valid_modulus(),
            self.product_fits(b),
            b.product_fits(c),
            self.product(b).product_fits(c),
            self.product_fits(b.product(c)),
        ensures
            self.product(b).product(c) == self.product(b.product(c)),
    {
        let range = V::range();
        lemma_lost(self@ * b@, range);
        lemma_lost(b@ * c@, range);
        lemma_lost(self.product(b)@ * c@, range);
        lemma_lost(self@ * b.product(c)@, range);
        assert(0 * c@ == 0 && self@ * 0 == 0) by (nonlinear_arith);
        self.lemma_mul_associative_iff(b, c);
    }

    /// Zero is the identity of addition.
    pub proof fn lemma_add_zero(self)
        requires
            Self::valid_modulus(),
            self.is_canonical(),
        ensures
            self.sum(Self::zero_spec()) == self,
            Self::zero_spec().sum(self) == self,
    {
        self.lemma_view();
        Self::lemma_from_raw(0);
        lemma_identities(self@, V::range(), Self::modulus());
    }

    /// One is the identity of multiplication.
    pub proof fn lemma_mul_one(self)
        requires
            Self::valid_modulus(),
            self.is_canonical(),
        ensures
            self.product(Self::one_spec()) == self,
            Self::one_spec().product(self) == self,
    {
        let m = Self::modulus();
        self.lemma_view();
        lemma_reduce(1, m);
        Self::lemma_from_raw(reduce(1, m));
        lemma_identities(self@, V::range(), m);
    }

    /// Subtraction undoes addition wherever the sum is not truncated by the
    /// storage type.
    pub proof fn lemma_difference_undoes_sum(self, rhs: Self)
        requires
            Self::valid_modulus(),
            self.is_canonical(),
            rhs.is_canonical(),
            self.sum_fits(rhs),
        ensures
            self.sum(rhs).difference(rhs) == self,
    {
        self.lemma_results_canonical(rhs);
        self.lemma_view();
        lemma_sum_then_difference(self@, rhs@, V::range(), Self::modulus());
    }

    /// A value minus itself is zero.
    pub proof fn lemma_sub_self(self)
        requires
            Self::valid_modulus(),
        ensures
            self.difference(self) == Self::zero_spec(),
    {
        lemma_small_mod(0, Self::modulus());
    }
}

} // verus!

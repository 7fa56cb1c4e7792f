//! The modular integer type: construction, access and the two identities.

use crate::modular::{lemma_reduce, reduce};
use crate::modulus::{CompileTimeUnsigned, FromCompileTimeUnsinged};
use core::marker::PhantomData;
use vstd::prelude::*;

verus! {

/// An integer modulo the number that `M` denotes, stored in a `V`.
///
/// The stored integer is always the canonical representative of its class:
/// it is below the modulus. The modulus itself takes no room in the value.
/// The view of a value is its canonical representative as a natural number.
#[derive(Debug, Ord)]
pub struct Unsigned<V: FromCompileTimeUnsinged, M: CompileTimeUnsigned> {
    value: V,
    phantom: PhantomData<M>,
}

impl<V: FromCompileTimeUnsinged, M: CompileTimeUnsigned> View for Unsigned<V, M> {
    type V = nat;

    closed spec fn view(&self) -> nat {
        self.value.to_nat()
    }
}

impl<V: FromCompileTimeUnsinged, M: CompileTimeUnsigned> Clone for Unsigned<V, M> {
    fn clone(&self) -> (r: Self)
        ensures
            r == *self,
    {
        *self
    }
}

impl<V: FromCompileTimeUnsinged, M: CompileTimeUnsigned> Copy for Unsigned<V, M> {

}

impl<V: FromCompileTimeUnsinged, M: CompileTimeUnsigned> Unsigned<V, M> {
    /// The modulus of the type.
    pub open spec fn modulus() -> nat {
        M::value()
    }

    /// Whether `M` is a modulus that `V` can work with: at least one, and
    /// representable in `V`.
    pub open spec fn valid_modulus() -> bool {
        1 <= M::value() < V::range()
    }

    /// Whether the value is the canonical representative of its class.
    pub open spec fn is_canonical(self) -> bool {
        self@ < Self::modulus()
    }

    #[verifier::type_invariant]
    spec fn inv(self) -> bool {
        Self::valid_modulus() && self.is_canonical()
    }

    /// The value whose canonical representative is `n`.
    pub closed spec fn from_raw(n: nat) -> Self {
        Unsigned { value: V::from_nat(n), phantom: PhantomData }
    }

    /// The value that construction from `raw` gives.
    pub open spec fn from_spec(raw: V) -> Self {
        Self::from_raw(reduce(raw.to_nat(), Self::modulus()))
    }

    /// The stored integer, which `value` returns.
    pub closed spec fn value_spec(self) -> V {
        self.value
    }

    /// The additive identity.
    pub open spec fn zero_spec() -> Self {
        Self::from_raw(0)
    }

    /// The multiplicative identity: one, reduced.
    pub open spec fn one_spec() -> Self {
        Self::from_raw(reduce(1, Self::modulus()))
    }

    /// A value is determined by its view: the view fits the storage type,
    /// the stored integer stands for it, and `from_raw` leads back.
    pub proof fn lemma_view(self)
        ensures
            self@ < V::range(),
            self.value_spec().to_nat() == self@,
            Self::from_raw(self@) == self,
    {
        self.value.lemma_to_nat();
    }

    /// Any number that fits the storage type is the view of `from_raw` of it,
    /// and is stored as the integer that stands for it.
    pub proof fn lemma_from_raw(n: nat)
        requires
            n < V::range(),
        ensures
            Self::from_raw(n)@ == n,
            Self::from_raw(n).value() == V::from_nat(n),
    {
        V::lemma_from_nat(n);
    }

    /// Wraps an integer that is already canonical.
    pub(crate) fn from_canonical(value: V) -> (r: Self)
        requires
            Self::valid_modulus(),
            value.to_nat() < Self::modulus(),
        ensures
            r == Self::from_raw(value.to_nat()),
            r@ == value.to_nat(),
            r.value() == value,
    {
        proof {
            value.lemma_to_nat();
        }
        Unsigned { value, phantom: PhantomData }
    }

    /// The modulus, read out of the type.
    pub(crate) fn modulus_value() -> (m: V)
        requires
            Self::valid_modulus(),
        ensures
            m.to_nat() == Self::modulus(),
    {
        V::from::<M>()
    }

    /// Constructs the value that stands for `raw`: the remainder of `raw` by
    /// the modulus.
    pub fn from(raw: V) -> (r: Self)
        requires
            Self::valid_modulus(),
        ensures
            r == Self::from_spec(raw),
            r@ == reduce(raw.to_nat(), Self::modulus()),
            r.is_canonical(),
            raw.to_nat() < Self::modulus() ==> r.value() == raw,
    {
        let value = raw.remainder(Self::modulus_value());
        proof {
            lemma_reduce(raw.to_nat(), Self::modulus());
            raw.lemma_to_nat();
            value.lemma_to_nat();
        }
        Self::from_canonical(value)
    }

    /// The canonical representative. That a value exists shows that its
    /// modulus is valid.
    #[verifier::when_used_as_spec(value_spec)]
    pub fn value(self) -> (r: V)
        ensures
            r == self.value_spec(),
            r.to_nat() == self@,
            self.is_canonical(),
            Self::valid_modulus(),
    {
        proof {
            use_type_invariant(&self);
        }
        self.value
    }

    /// The additive identity: the value that stands for zero.
    pub fn zero() -> (r: Self)
        requires
            Self::valid_modulus(),
        ensures
            r == Self::zero_spec(),
            r@ == 0,
    {
        Self::from_canonical(V::zero())
    }

    /// Whether the value stands for zero.
    pub fn is_zero(&self) -> (r: bool)
        ensures
            r == (self@ == 0),
    {
        self.value.is_zero()
    }

    /// The multiplicative identity: the value that stands for one. Modulo one
    /// that is zero.
    pub fn one() -> (r: Self)
        requires
            Self::valid_modulus(),
        ensures
            r == Self::one_spec(),
            r@ == reduce(1, Self::modulus()),
            r.is_canonical(),
    {
        Self::from(V::one())
    }
}

} // verus!

//! Type-level natural numbers as moduli.
//!
//! The modulus of an integer type is a type of the `typenum` crate: a binary
//! numeral written in types, least significant bit outermost. This module
//! gives each such type the number it denotes and reads that number out at
//! run time in each width that can store a value.
//!
//! `typenum` has conversions of its own (`Unsigned::to_u8` and the like),
//! which return the same numbers. They are not called here: that takes the
//! bound `typenum::Unsigned`, and Verus takes no impl of a trait under a bound
//! on a trait it has no specification of, so `+` and the other operators
//! could not be had. The conversions below compute the number from the
//! numeral and are proved against `value`.

use crate::primitive::Primitive;
use vstd::prelude::*;

verus! {

/// `typenum::UTerm`, the end of a numeral; alone it is zero.
#[verifier::external_type_specification]
#[verifier::external_body]
pub struct ExUTerm(typenum::UTerm);

/// `typenum::UInt<U, B>`, the numeral `U` followed by the bit `B`.
#[verifier::external_type_specification]
#[verifier::external_body]
#[verifier::reject_recursive_types(U)]
#[verifier::reject_recursive_types(B)]
pub struct ExUInt<U, B>(typenum::UInt<U, B>);

/// `typenum::B0`, the bit zero.
#[verifier::external_type_specification]
#[verifier::external_body]
pub struct ExB0(typenum::B0);

/// `typenum::B1`, the bit one.
#[verifier::external_type_specification]
#[verifier::external_body]
pub struct ExB1(typenum::B1);

/// A type that denotes a natural number, with the means to read the number
/// out in each width. The unsigned integers of `typenum` implement it.
pub trait CompileTimeUnsigned {
    /// The number that the type denotes.
    spec fn value() -> nat;

    /// The number as a `u8`.
    fn to_u8() -> (r: u8)
        requires
            Self::value() <= u8::MAX,
        ensures
            r == Self::value(),
    ;

    /// The number as a `u16`.
    fn to_u16() -> (r: u16)
        requires
            Self::value() <= u16::MAX,
        ensures
            r == Self::value(),
    ;

    /// The number as a `u32`.
    fn to_u32() -> (r: u32)
        requires
            Self::value() <= u32::MAX,
        ensures
            r == Self::value(),
    ;

    /// The number as a `u64`.
    fn to_u64() -> (r: u64)
        requires
            Self::value() <= u64::MAX,
        ensures
            r == Self::value(),
    ;

    /// The number as a `usize`.
    fn to_usize() -> (r: usize)
        requires
            Self::value() <= usize::MAX,
        ensures
            r == Self::value(),
    ;
}

impl CompileTimeUnsigned for typenum::UTerm {
    open spec fn value() -> nat {
        0
    }

    fn to_u8() -> (r: u8) {
        0
    }

    fn to_u16() -> (r: u16) {
        0
    }

    fn to_u32() -> (r: u32) {
        0
    }

    fn to_u64() -> (r: u64) {
        0
    }

    fn to_usize() -> (r: usize) {
        0
    }
}

impl<U: CompileTimeUnsigned> CompileTimeUnsigned for typenum::UInt<U, typenum::B0> {
    open spec fn value() -> nat {
        2 * U::value()
    }

    fn to_u8() -> (r: u8) {
        2 * U::to_u8()
    }

    fn to_u16() -> (r: u16) {
        2 * U::to_u16()
    }

    fn to_u32() -> (r: u32) {
        2 * U::to_u32()
    }

    fn to_u64() -> (r: u64) {
        2 * U::to_u64()
    }

    fn to_usize() -> (r: usize) {
        2 * U::to_usize()
    }
}

impl<U: CompileTimeUnsigned> CompileTimeUnsigned for typenum::UInt<U, typenum::B1> {
    open spec fn value() -> nat {
        2 * U::value() + 1
    }

    fn to_u8() -> (r: u8) {
        2 * U::to_u8() + 1
    }

    fn to_u16() -> (r: u16) {
        2 * U::to_u16() + 1
    }

    fn to_u32() -> (r: u32) {
        2 * U::to_u32() + 1
    }

    fn to_u64() -> (r: u64) {
        2 * U::to_u64() + 1
    }

    fn to_usize() -> (r: usize) {
        2 * U::to_usize() + 1
    }
}

/// A storage type that can hold the value of a type-level number.
pub trait FromCompileTimeUnsinged: Primitive {
    /// The number that `T` denotes, as a value of this type. A number that
    /// the type cannot represent is refused before the program runs.
    fn from<T: CompileTimeUnsigned>() -> (r: Self)
        requires
            T::value() < Self::range(),
        ensures
            r.to_nat() == T::value(),
    ;
}

impl FromCompileTimeUnsinged for u8 {
    fn from<T: CompileTimeUnsigned>() -> (r: u8) {
        T::to_u8()
    }
}

impl FromCompileTimeUnsinged for u16 {
    fn from<T: CompileTimeUnsigned>() -> (r: u16) {
        T::to_u16()
    }
}

impl FromCompileTimeUnsinged for u32 {
    fn from<T: CompileTimeUnsigned>() -> (r: u32) {
        T::to_u32()
    }
}

impl FromCompileTimeUnsinged for u64 {
    fn from<T: CompileTimeUnsigned>() -> (r: u64) {
        T::to_u64()
    }
}

impl FromCompileTimeUnsinged for usize {
    fn from<T: CompileTimeUnsigned>() -> (r: usize) {
        T::to_usize()
    }
}

} // verus!

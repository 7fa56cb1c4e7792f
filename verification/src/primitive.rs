//! The primitive unsigned integers that can store a value.

use crate::modular::lemma_wrap_once;
use crate::parse::{
    parse_u16, parse_u32, parse_u64, parse_u8, parse_usize, parsed_u16, parsed_u32, parsed_u64,
    parsed_u8, parsed_usize,
};
use core::num::ParseIntError;
use vstd::prelude::*;

verus! {

/// A primitive unsigned integer type, seen as the natural numbers below
/// `range()`, with the arithmetic that the modular operations are built from.
pub trait Primitive: Copy + Sized {
    /// How many values the type has: two to the power of its width.
    spec fn range() -> nat;

    /// The number that a value stands for.
    spec fn to_nat(self) -> nat;

    /// The value that stands for `n`, for `n` below `range()`.
    spec fn from_nat(n: nat) -> Self;

    /// What the type's parser returns for the text `s` in the given radix.
    spec fn parsed(s: Seq<char>, radix: u32) -> Result<Self, ParseIntError>;

    /// Every value stands for a number below `range()`, and for one only.
    proof fn lemma_to_nat(self)
        ensures
            self.to_nat() < Self::range(),
            Self::from_nat(self.to_nat()) == self,
    ;

    /// Every number below `range()` has a value that stands for it.
    proof fn lemma_from_nat(n: nat)
        requires
            n < Self::range(),
        ensures
            Self::from_nat(n).to_nat() == n,
    ;

    /// The sum, truncated to the width of the type.
    fn wrapping_add(self, rhs: Self) -> (r: Self)
        ensures
            r.to_nat() == (self.to_nat() + rhs.to_nat()) % Self::range(),
    ;

    /// The product, truncated to the width of the type.
    fn wrapping_mul(self, rhs: Self) -> (r: Self)
        ensures
            r.to_nat() == (self.to_nat() * rhs.to_nat()) % Self::range(),
    ;

    /// The difference, where `rhs` is not the greater.
    fn difference(self, rhs: Self) -> (r: Self)
        requires
            self.to_nat() >= rhs.to_nat(),
        ensures
            r.to_nat() == self.to_nat() - rhs.to_nat(),
    ;

    /// The integer quotient by a divisor that is not zero.
    fn quotient(self, rhs: Self) -> (r: Self)
        requires
            rhs.to_nat() != 0,
        ensures
            r.to_nat() == self.to_nat() / rhs.to_nat(),
    ;

    /// The remainder of the division by a divisor that is not zero.
    fn remainder(self, rhs: Self) -> (r: Self)
        requires
            rhs.to_nat() != 0,
        ensures
            r.to_nat() == self.to_nat() % rhs.to_nat(),
    ;

    /// The value that stands for zero.
    fn zero() -> (r: Self)
        ensures
            r.to_nat() == 0,
    ;

    /// The value that stands for one.
    fn one() -> (r: Self)
        ensures
            r.to_nat() == 1,
    ;

    /// Whether the value stands for zero.
    fn is_zero(self) -> (r: bool)
        ensures
            r == (self.to_nat() == 0),
    ;

    /// Whether the two values stand for the same number.
    fn same(self, rhs: Self) -> (r: bool)
        ensures
            r == (self.to_nat() == rhs.to_nat()),
    ;

    /// Whether `self` stands for a smaller number than `rhs`.
    fn below(self, rhs: Self) -> (r: bool)
        ensures
            r == (self.to_nat() < rhs.to_nat()),
    ;

    /// Reads a value from its digits in a radix from 2 to 36.
    fn from_str_radix(s: &str, radix: u32) -> (r: Result<Self, ParseIntError>)
        requires
            2 <= radix <= 36,
        ensures
            r == Self::parsed(s@, radix),
    ;
}

impl Primitive for u8 {
    open spec fn range() -> nat {
        u8::MAX as nat + 1
    }

    open spec fn to_nat(self) -> nat {
        self as nat
    }

    open spec fn from_nat(n: nat) -> u8 {
        n as u8
    }

    open spec fn parsed(s: Seq<char>, radix: u32) -> Result<u8, ParseIntError> {
        parsed_u8(s, radix)
    }

    proof fn lemma_to_nat(self) {
    }

    proof fn lemma_from_nat(n: nat) {
    }

    fn wrapping_add(self, rhs: u8) -> (r: u8) {
        proof {
            lemma_wrap_once(self as nat + rhs as nat, Self::range());
        }
        u8::wrapping_add(self, rhs)
    }

    fn wrapping_mul(self, rhs: u8) -> (r: u8) {
        u8::wrapping_mul(self, rhs)
    }

    fn difference(self, rhs: u8) -> (r: u8) {
        self - rhs
    }

    fn quotient(self, rhs: u8) -> (r: u8) {
        self / rhs
    }

    fn remainder(self, rhs: u8) -> (r: u8) {
        self % rhs
    }

    fn zero() -> (r: u8) {
        0
    }

    fn one() -> (r: u8) {
        1
    }

    fn is_zero(self) -> (r: bool) {
        self == 0
    }

    fn same(self, rhs: u8) -> (r: bool) {
        self == rhs
    }

    fn below(self, rhs: u8) -> (r: bool) {
        self < rhs
    }

    fn from_str_radix(s: &str, radix: u32) -> (r: Result<u8, ParseIntError>) {
        parse_u8(s, radix)
    }
}

impl Primitive for u16 {
    open spec fn range() -> nat {
        u16::MAX as nat + 1
    }

    open spec fn to_nat(self) -> nat {
        self as nat
    }

    open spec fn from_nat(n: nat) -> u16 {
        n as u16
    }

    open spec fn parsed(s: Seq<char>, radix: u32) -> Result<u16, ParseIntError> {
        parsed_u16(s, radix)
    }

    proof fn lemma_to_nat(self) {
    }

    proof fn lemma_from_nat(n: nat) {
    }

    fn wrapping_add(self, rhs: u16) -> (r: u16) {
        proof {
            lemma_wrap_once(self as nat + rhs as nat, Self::range());
        }
        u16::wrapping_add(self, rhs)
    }

    fn wrapping_mul(self, rhs: u16) -> (r: u16) {
        u16::wrapping_mul(self, rhs)
    }

    fn difference(self, rhs: u16) -> (r: u16) {
        self - rhs
    }

    fn quotient(self, rhs: u16) -> (r: u16) {
        self / rhs
    }

    fn remainder(self, rhs: u16) -> (r: u16) {
        self % rhs
    }

    fn zero() -> (r: u16) {
        0
    }

    fn one() -> (r: u16) {
        1
    }

    fn is_zero(self) -> (r: bool) {
        self == 0
    }

    fn same(self, rhs: u16) -> (r: bool) {
        self == rhs
    }

    fn below(self, rhs: u16) -> (r: bool) {
        self < rhs
    }

    fn from_str_radix(s: &str, radix: u32) -> (r: Result<u16, ParseIntError>) {
        parse_u16(s, radix)
    }
}

impl Primitive for u32 {
    open spec fn range() -> nat {
        u32::MAX as nat + 1
    }

    open spec fn to_nat(self) -> nat {
        self as nat
    }

    open spec fn from_nat(n: nat) -> u32 {
        n as u32
    }

    open spec fn parsed(s: Seq<char>, radix: u32) -> Result<u32, ParseIntError> {
        parsed_u32(s, radix)
    }

    proof fn lemma_to_nat(self) {
    }

    proof fn lemma_from_nat(n: nat) {
    }

    fn wrapping_add(self, rhs: u32) -> (r: u32) {
        proof {
            lemma_wrap_once(self as nat + rhs as nat, Self::range());
        }
        u32::wrapping_add(self, rhs)
    }

    fn wrapping_mul(self, rhs: u32) -> (r: u32) {
        u32::wrapping_mul(self, rhs)
    }

    fn difference(self, rhs: u32) -> (r: u32) {
        self - rhs
    }

    fn quotient(self, rhs: u32) -> (r: u32) {
        self / rhs
    }

    fn remainder(self, rhs: u32) -> (r: u32) {
        self % rhs
    }

    fn zero() -> (r: u32) {
        0
    }

    fn one() -> (r: u32) {
        1
    }

    fn is_zero(self) -> (r: bool) {
        self == 0
    }

    fn same(self, rhs: u32) -> (r: bool) {
        self == rhs
    }

    fn below(self, rhs: u32) -> (r: bool) {
        self < rhs
    }

    fn from_str_radix(s: &str, radix: u32) -> (r: Result<u32, ParseIntError>) {
        parse_u32(s, radix)
    }
}

impl Primitive for u64 {
    open spec fn range() -> nat {
        u64::MAX as nat + 1
    }

    open spec fn to_nat(self) -> nat {
        self as nat
    }

    open spec fn from_nat(n: nat) -> u64 {
        n as u64
    }

    open spec fn parsed(s: Seq<char>, radix: u32) -> Result<u64, ParseIntError> {
        parsed_u64(s, radix)
    }

    proof fn lemma_to_nat(self) {
    }

    proof fn lemma_from_nat(n: nat) {
    }

    fn wrapping_add(self, rhs: u64) -> (r: u64) {
        proof {
            lemma_wrap_once(self as nat + rhs as nat, Self::range());
        }
        u64::wrapping_add(self, rhs)
    }

    fn wrapping_mul(self, rhs: u64) -> (r: u64) {
        u64::wrapping_mul(self, rhs)
    }

    fn difference(self, rhs: u64) -> (r: u64) {
        self - rhs
    }

    fn quotient(self, rhs: u64) -> (r: u64) {
        self / rhs
    }

    fn remainder(self, rhs: u64) -> (r: u64) {
        self % rhs
    }

    fn zero() -> (r: u64) {
        0
    }

    fn one() -> (r: u64) {
        1
    }

    fn is_zero(self) -> (r: bool) {
        self == 0
    }

    fn same(self, rhs: u64) -> (r: bool) {
        self == rhs
    }

    fn below(self, rhs: u64) -> (r: bool) {
        self < rhs
    }

    fn from_str_radix(s: &str, radix: u32) -> (r: Result<u64, ParseIntError>) {
        parse_u64(s, radix)
    }
}

impl Primitive for usize {
    open spec fn range() -> nat {
        usize::MAX as nat + 1
    }

    open spec fn to_nat(self) -> nat {
        self as nat
    }

    open spec fn from_nat(n: nat) -> usize {
        n as usize
    }

    open spec fn parsed(s: Seq<char>, radix: u32) -> Result<usize, ParseIntError> {
        parsed_usize(s, radix, usize::BITS)
    }

    proof fn lemma_to_nat(self) {
    }

    proof fn lemma_from_nat(n: nat) {
    }

    fn wrapping_add(self, rhs: usize) -> (r: usize) {
        proof {
            lemma_wrap_once(self as nat + rhs as nat, Self::range());
        }
        usize::wrapping_add(self, rhs)
    }

    fn wrapping_mul(self, rhs: usize) -> (r: usize) {
        usize::wrapping_mul(self, rhs)
    }

    fn difference(self, rhs: usize) -> (r: usize) {
        self - rhs
    }

    fn quotient(self, rhs: usize) -> (r: usize) {
        self / rhs
    }

    fn remainder(self, rhs: usize) -> (r: usize) {
        self % rhs
    }

    fn zero() -> (r: usize) {
        0
    }

    fn one() -> (r: usize) {
        1
    }

    fn is_zero(self) -> (r: bool) {
        self == 0
    }

    fn same(self, rhs: usize) -> (r: bool) {
        self == rhs
    }

    fn below(self, rhs: usize) -> (r: bool) {
        self < rhs
    }

    fn from_str_radix(s: &str, radix: u32) -> (r: Result<usize, ParseIntError>) {
        parse_usize(s, radix)
    }
}

} // verus!

//! Reading an integer from its digits in a given radix.

use crate::modulus::{CompileTimeUnsigned, FromCompileTimeUnsinged};
use crate::unsigned::Unsigned;
use core::num::ParseIntError;
use vstd::prelude::*;

verus! {

/// `core::num::ParseIntError`, the failure of a primitive integer's parser.
/// The library hands it on as it came.
#[verifier::external_type_specification]
#[verifier::external_body]
pub struct ExParseIntError(core::num::ParseIntError);

/// What `<u8 as num_traits::Num>::from_str_radix` returns for the text `s`
/// and a radix from 2 to 36.
pub uninterp spec fn parsed_u8(s: Seq<char>, radix: u32) -> Result<u8, ParseIntError>;

/// `<u8 as num_traits::Num>::from_str_radix`. The result depends on the text
/// and the radix alone. The radix is from 2 to 36: outside that range the
/// parser of the standard library, to which `num_traits` hands the call on,
/// panics.
#[verifier::external_body]
pub(crate) fn parse_u8(s: &str, radix: u32) -> (r: Result<u8, ParseIntError>)
    requires
        2 <= radix <= 36,
    ensures
        r == parsed_u8(s@, radix),
{
    <u8 as num_traits::Num>::from_str_radix(s, radix)
}

/// What `<u16 as num_traits::Num>::from_str_radix` returns for the text `s`
/// and a radix from 2 to 36.
pub uninterp spec fn parsed_u16(s: Seq<char>, radix: u32) -> Result<u16, ParseIntError>;

/// `<u16 as num_traits::Num>::from_str_radix`. The result depends on the text
/// and the radix alone. The radix is from 2 to 36: outside that range the
/// parser of the standard library, to which `num_traits` hands the call on,
/// panics.
#[verifier::external_body]
pub(crate) fn parse_u16(s: &str, radix: u32) -> (r: Result<u16, ParseIntError>)
    requires
        2 <= radix <= 36,
    ensures
        r == parsed_u16(s@, radix),
{
    <u16 as num_traits::Num>::from_str_radix(s, radix)
}

/// What `<u32 as num_traits::Num>::from_str_radix` returns for the text `s`
/// and a radix from 2 to 36.
pub uninterp spec fn parsed_u32(s: Seq<char>, radix: u32) -> Result<u32, ParseIntError>;

/// `<u32 as num_traits::Num>::from_str_radix`. The result depends on the text
/// and the radix alone. The radix is from 2 to 36: outside that range the
/// parser of the standard library, to which `num_traits` hands the call on,
/// panics.
#[verifier::external_body]
pub(crate) fn parse_u32(s: &str, radix: u32) -> (r: Result<u32, ParseIntError>)
    requires
        2 <= radix <= 36,
    ensures
        r == parsed_u32(s@, radix),
{
    <u32 as num_traits::Num>::from_str_radix(s, radix)
}

/// What `<u64 as num_traits::Num>::from_str_radix` returns for the text `s`
/// and a radix from 2 to 36.
pub uninterp spec fn parsed_u64(s: Seq<char>, radix: u32) -> Result<u64, ParseIntError>;

/// `<u64 as num_traits::Num>::from_str_radix`. The result depends on the text
/// and the radix alone. The radix is from 2 to 36: outside that range the
/// parser of the standard library, to which `num_traits` hands the call on,
/// panics.
#[verifier::external_body]
pub(crate) fn parse_u64(s: &str, radix: u32) -> (r: Result<u64, ParseIntError>)
    requires
        2 <= radix <= 36,
    ensures
        r == parsed_u64(s@, radix),
{
    <u64 as num_traits::Num>::from_str_radix(s, radix)
}

/// What `<usize as num_traits::Num>::from_str_radix` returns for the text `s`
/// and a radix from 2 to 36, where a `usize` has `bits` bits.
pub uninterp spec fn parsed_usize(s: Seq<char>, radix: u32, bits: u32) -> Result<
    usize,
    ParseIntError,
>;

/// `<usize as num_traits::Num>::from_str_radix`. The result depends on the
/// text, the radix and the width of a `usize` alone. The radix is from 2 to
/// 36: outside that range the parser of the standard library, to which
/// `num_traits` hands the call on, panics.
#[verifier::external_body]
pub(crate) fn parse_usize(s: &str, radix: u32) -> (r: Result<usize, ParseIntError>)
    requires
        2 <= radix <= 36,
    ensures
        r == parsed_usize(s@, radix, usize::BITS),
{
    <usize as num_traits::Num>::from_str_radix(s, radix)
}

/// Why no value could be read from a text.
#[derive(Debug, PartialEq, Eq)]
pub enum FromStrRadixErr {
    /// The radix is not one of 2 to 36.
    Radix,
    /// The parser of the storage type failed; its error is handed on
    /// unchanged.
    Parse(ParseIntError),
}

impl<V: FromCompileTimeUnsinged, M: CompileTimeUnsigned> Unsigned<V, M> {
    /// What `from_parsed` makes of a parser's result.
    pub open spec fn from_parsed_spec(parsed: Result<V, ParseIntError>) -> Result<
        Self,
        FromStrRadixErr,
    > {
        match parsed {
            Ok(raw) => Ok(Self::from_spec(raw)),
            Err(e) => Err(FromStrRadixErr::Parse(e)),
        }
    }

    /// What `from_str_radix` returns for the text `s` and the given radix.
    pub open spec fn from_str_radix_spec(s: Seq<char>, radix: u32) -> Result<
        Self,
        FromStrRadixErr,
    > {
        if 2 <= radix <= 36 {
            Self::from_parsed_spec(V::parsed(s, radix))
        } else {
            Err(FromStrRadixErr::Radix)
        }
    }

    /// Turns what the parser of the storage type returned into a value: a
    /// parsed integer is reduced, a failure is handed on unchanged.
    pub fn from_parsed(parsed: Result<V, ParseIntError>) -> (r: Result<Self, FromStrRadixErr>)
        requires
            Self::valid_modulus(),
        ensures
            r == Self::from_parsed_spec(parsed),
            r matches Ok(v) ==> v.is_canonical(),
    {
        match parsed {
            Ok(raw) => Ok(Self::from(raw)),
            Err(e) => Err(FromStrRadixErr::Parse(e)),
        }
    }

    /// Reads a value from its digits in the given radix: the parser of the
    /// storage type reads an integer, which is then reduced. A radix outside
    /// 2 to 36 is an error, and so is every failure of the parser.
    pub fn from_str_radix(s: &str, radix: u32) -> (r: Result<Self, FromStrRadixErr>)
        requires
            Self::valid_modulus(),
        ensures
            r == Self::from_str_radix_spec(s@, radix),
            r matches Ok(v) ==> v.is_canonical(),
    {
        if radix < 2 || radix > 36 {
            return Err(FromStrRadixErr::Radix);
        }
        Self::from_parsed(V::from_str_radix(s, radix))
    }
}

} // verus!

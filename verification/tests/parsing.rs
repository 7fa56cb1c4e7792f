use modint::{FromStrRadixErr, Unsigned};
use std::num::IntErrorKind;
use typenum::{U1000, U17};

type M17 = Unsigned<u8, U17>;

fn kind(result: Result<M17, FromStrRadixErr>) -> IntErrorKind {
    match result {
        Err(FromStrRadixErr::Parse(e)) => e.kind().clone(),
        other => panic!("expected a failure of the parser, got {:?}", other),
    }
}

#[test]
fn parsed_digits_are_reduced() {
    assert_eq!(M17::from_str_radix("1", 10), Ok(M17::from(1)));
    assert_eq!(M17::from_str_radix("18", 10), Ok(M17::from(1)));
    assert_eq!(M17::from_str_radix("18", 10).unwrap().value(), 1);
    assert_eq!(M17::from_str_radix("255", 10).unwrap().value(), 0);
    assert_eq!(M17::from_str_radix("0", 10).unwrap().value(), 0);
    assert_eq!(M17::from_str_radix("+16", 10).unwrap().value(), 16);
}

#[test]
fn digits_are_read_in_the_given_radix() {
    assert_eq!(M17::from_str_radix("11", 2).unwrap().value(), 3);
    assert_eq!(M17::from_str_radix("11111111", 2).unwrap().value(), 0);
    assert_eq!(M17::from_str_radix("ff", 16).unwrap().value(), 0);
    assert_eq!(M17::from_str_radix("FE", 16).unwrap().value(), 16);
    assert_eq!(M17::from_str_radix("z", 36).unwrap().value(), 1);
    assert_eq!(M17::from_str_radix("20", 8).unwrap().value(), 16);
}

#[test]
fn parser_failures_are_handed_on() {
    assert_eq!(kind(M17::from_str_radix("", 10)), IntErrorKind::Empty);
    assert_eq!(kind(M17::from_str_radix("x", 10)), IntErrorKind::InvalidDigit);
    assert_eq!(kind(M17::from_str_radix("12a", 10)), IntErrorKind::InvalidDigit);
    assert_eq!(kind(M17::from_str_radix("-1", 10)), IntErrorKind::InvalidDigit);
    assert_eq!(kind(M17::from_str_radix("2", 2)), IntErrorKind::InvalidDigit);
    assert_eq!(kind(M17::from_str_radix("256", 10)), IntErrorKind::PosOverflow);
    assert_eq!(kind(M17::from_str_radix("zz", 36)), IntErrorKind::PosOverflow);
}

#[test]
fn parser_failure_is_the_one_of_the_storage_type() {
    let expected = "256".parse::<u8>().unwrap_err();
    assert_eq!(M17::from_str_radix("256", 10), Err(FromStrRadixErr::Parse(expected)));
    let expected = "".parse::<u8>().unwrap_err();
    assert_eq!(M17::from_str_radix("", 10), Err(FromStrRadixErr::Parse(expected)));
}

#[test]
fn unsupported_radix_is_an_error() {
    assert_eq!(M17::from_str_radix("1", 0), Err(FromStrRadixErr::Radix));
    assert_eq!(M17::from_str_radix("1", 1), Err(FromStrRadixErr::Radix));
    assert_eq!(M17::from_str_radix("1", 37), Err(FromStrRadixErr::Radix));
    assert_eq!(M17::from_str_radix("", u32::MAX), Err(FromStrRadixErr::Radix));
    assert!(M17::from_str_radix("1", 2).is_ok());
    assert!(M17::from_str_radix("1", 36).is_ok());
}

#[test]
fn from_parsed_reduces_or_hands_on() {
    assert_eq!(M17::from_parsed(Ok(35)), Ok(M17::from(1)));
    assert_eq!(M17::from_parsed(Ok(16)).unwrap().value(), 16);
    let failure = "x".parse::<u8>().unwrap_err();
    assert_eq!(M17::from_parsed(Err(failure.clone())), Err(FromStrRadixErr::Parse(failure)));
}

#[test]
fn parsing_in_each_width() {
    type A = Unsigned<u16, U1000>;
    type B = Unsigned<u32, U1000>;
    type C = Unsigned<u64, U1000>;
    type D = Unsigned<usize, U1000>;
    assert_eq!(A::from_str_radix("65535", 10).unwrap().value(), 535);
    assert_eq!(A::from_str_radix("ffff", 16).unwrap().value(), 535);
    assert_eq!(B::from_str_radix("4294967295", 10).unwrap().value(), 295);
    assert_eq!(C::from_str_radix("18446744073709551615", 10).unwrap().value(), 615);
    assert_eq!(D::from_str_radix("12345", 10).unwrap().value(), 345);
    assert!(matches!(A::from_str_radix("65536", 10), Err(FromStrRadixErr::Parse(_))));
    assert!(matches!(B::from_str_radix("4294967296", 10), Err(FromStrRadixErr::Parse(_))));
    let too_large = C::from_str_radix("18446744073709551616", 10);
    assert!(matches!(too_large, Err(FromStrRadixErr::Parse(_))));
    assert!(matches!(D::from_str_radix("", 10), Err(FromStrRadixErr::Parse(_))));
    assert_eq!(D::from_str_radix("1", 99), Err(FromStrRadixErr::Radix));
}

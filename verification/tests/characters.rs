use crab_nbt::nbt::error::SnbtDeserialisationError;
use crab_nbt::nbt::snbt::de::numbers::{
    is_number_character, may_start_number, read_number_or_numboid_const, NumberValue, Radix,
};
use crab_nbt::nbt::snbt::de::utils::StrVisitor;

#[test]
fn radix_characters() {
    assert!(Radix::Binary.check_character('0'));
    assert!(Radix::Binary.check_character('1'));
    assert!(!Radix::Binary.check_character('2'));
    assert!(Radix::Decimal.check_character('9'));
    assert!(Radix::Decimal.check_character('e'));
    assert!(Radix::Decimal.check_character('E'));
    assert!(Radix::Decimal.check_character('.'));
    assert!(!Radix::Decimal.check_character('a'));
    assert!(Radix::Hexadecimal.check_character('f'));
    assert!(Radix::Hexadecimal.check_character('A'));
    assert!(!Radix::Hexadecimal.check_character('g'));
    assert_eq!(Radix::Binary.get_radix_number(), 2);
    assert_eq!(Radix::Decimal.get_radix_number(), 10);
    assert_eq!(Radix::Hexadecimal.get_radix_number(), 16);
}

#[test]
fn number_characters() {
    for c in ['0', '7', '.', '-'] {
        assert!(may_start_number(c));
        assert!(is_number_character(c));
    }
    for c in ['_', 'x', 'e', 'F'] {
        assert!(!may_start_number(c));
        assert!(is_number_character(c));
    }
    for c in ['g', ' ', '+', 'z'] {
        assert!(!may_start_number(c));
        assert!(!is_number_character(c));
    }
}

#[test]
fn numboid_constants_ignore_case() {
    let mut v = StrVisitor::new("TRuE)");
    assert_eq!(read_number_or_numboid_const(&mut v), Ok(NumberValue::Byte(1)));
    assert_eq!(v.get_position(), 4);
    let mut v = StrVisitor::new("faLSe");
    assert_eq!(read_number_or_numboid_const(&mut v), Ok(NumberValue::Byte(0)));
    assert_eq!(v.get_position(), 5);
}

#[test]
fn error_reports() {
    let mut v = StrVisitor::new("abcdefghijklmnopq");
    for _ in 0..15 {
        v.next();
    }
    let e = SnbtDeserialisationError::from_visitor(&v, "x");
    assert_eq!(e.index, 15);
    assert_eq!(e.offending_area, "defghijklmno");
    assert_eq!(e.expected, "x");
    assert_eq!(e.message(), "Expected x at position 15: defghijklmno <--[HERE]");
    let v = StrVisitor::new("ab");
    let e = SnbtDeserialisationError::from_visitor(&v, "y");
    assert_eq!(e.offending_area, "");
    assert_eq!(e.message(), "Expected y at position 0:  <--[HERE]");
}

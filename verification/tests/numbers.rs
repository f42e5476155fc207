use crab_nbt::nbt::snbt::de::numbers::{
    read_number, read_number_or_numboid_const, NumberError, NumberValue, NumberType, Radix,
    Signedness,
};
use crab_nbt::nbt::snbt::de::utils::StrVisitor;
use crab_nbt::nbt::tag::NbtTag;

/// Reads a number and the position after it.
fn read(s: &str) -> (Result<NumberValue, NumberError>, usize) {
    let mut visitor = StrVisitor::new(s);
    let r = read_number_or_numboid_const(&mut visitor);
    (r, visitor.get_position())
}

/// Reads a number that must take up the whole text, as a tag.
fn tag(s: &str) -> Option<NbtTag> {
    let (r, pos) = read(s);
    if pos != s.chars().count() {
        return None;
    }
    match r.ok()? {
        NumberValue::Byte(x) => Some(NbtTag::Byte(x)),
        NumberValue::Short(x) => Some(NbtTag::Short(x)),
        NumberValue::Int(x) => Some(NbtTag::Int(x)),
        NumberValue::Long(x) => Some(NbtTag::Long(x)),
        NumberValue::Float(t) => t.parse::<f32>().ok().map(|f| NbtTag::Float(f.to_bits())),
        NumberValue::Double(t) => t.parse::<f64>().ok().map(|f| NbtTag::Double(f.to_bits())),
    }
}

fn number_helper(s: &str) -> NbtTag {
    tag(s).unwrap()
}

#[test]
fn test_numbers() {
    assert_eq!(number_helper("1.5"), NbtTag::Double(1.5f64.to_bits()));
}

#[test]
fn decimal_integers() {
    assert_eq!(number_helper("10"), NbtTag::Int(10));
    assert_eq!(number_helper("-25"), NbtTag::Int(-25));
    assert_eq!(number_helper("01"), NbtTag::Int(1));
    assert_eq!(number_helper("2147483647"), NbtTag::Int(i32::MAX));
    assert!(tag("2147483648").is_none());
}

#[test]
fn type_suffixes() {
    assert_eq!(number_helper("5b"), NbtTag::Byte(5));
    assert_eq!(number_helper("-128b"), NbtTag::Byte(-128));
    assert_eq!(number_helper("127b"), NbtTag::Byte(127));
    assert_eq!(number_helper("7s"), NbtTag::Short(7));
    assert_eq!(number_helper("7S"), NbtTag::Short(7));
    assert_eq!(number_helper("9i"), NbtTag::Int(9));
    assert_eq!(number_helper("50l"), NbtTag::Long(50));
    assert_eq!(number_helper("50L"), NbtTag::Long(50));
    assert!(tag("128b").is_none());
}

#[test]
fn signedness_suffixes() {
    assert_eq!(number_helper("255UB"), NbtTag::Byte(-1));
    assert_eq!(number_helper("10SB"), NbtTag::Byte(10));
    assert_eq!(number_helper("65535us"), NbtTag::Short(-1));
    assert_eq!(number_helper("4294967295ui"), NbtTag::Int(-1));
    assert_eq!(number_helper("18446744073709551615ul"), NbtTag::Long(-1));
    assert_eq!(number_helper("-5sl"), NbtTag::Long(-5));
    // an unsigned number has no minus sign
    assert!(matches!(read("-5ub").0, Err(NumberError::ParseIntError(_))));
    // a `u` that no type follows is read and the number keeps its default type
    assert_eq!(read("5u"), (Ok(NumberValue::Int(5)), 2));
    assert_eq!(read("5ux"), (Ok(NumberValue::Int(5)), 2));
    // an `s` that no type follows is a short
    assert_eq!(read("5sx"), (Ok(NumberValue::Short(5)), 2));
}

#[test]
fn radix_prefixes() {
    assert_eq!(number_helper("0x1f"), NbtTag::Int(0x1f));
    assert_eq!(number_helper("0xFFb"), NbtTag::Int(0xffb));
    assert_eq!(number_helper("0b101"), NbtTag::Int(5));
    assert_eq!(number_helper("0b0b"), NbtTag::Byte(0));
    assert_eq!(number_helper("0b1b"), NbtTag::Byte(1));
    assert_eq!(number_helper("0b"), NbtTag::Byte(0));
    assert_eq!(number_helper("0bL"), NbtTag::Byte(0));
    assert_eq!(number_helper("0xffUB"), NbtTag::Byte(-1));
    assert!(matches!(read("0x").0, Err(NumberError::ParseIntError(_))));
    assert!(matches!(read("0xffffffff").0, Err(NumberError::ParseIntError(_))));
    assert_eq!(
        read("0b1f").0,
        Err(NumberError::IllegalCombination(
            Radix::Binary,
            Signedness::Unspecified,
            NumberType::Float
        ))
    );
    assert_eq!(
        read("0x1.5").0,
        Err(NumberError::IllegalCombination(
            Radix::Hexadecimal,
            Signedness::Unspecified,
            NumberType::Double
        ))
    );
}

#[test]
fn negative_radix_prefixes() {
    assert_eq!(read("-0x1f"), (Ok(NumberValue::Int(-31)), 5));
    assert_eq!(number_helper("-0x1f"), NbtTag::Int(-31));
    assert_eq!(number_helper("-0b101"), NbtTag::Int(-5));
    assert_eq!(number_helper("-0x80SB"), NbtTag::Byte(-128));
    assert_eq!(number_helper("-0x7fffffffffffffffL"), NbtTag::Long(-0x7fff_ffff_ffff_ffff));
    assert_eq!(number_helper("-0b"), NbtTag::Byte(0));
    // an unsigned number has no minus sign
    assert!(matches!(read("-0x1fub").0, Err(NumberError::ParseIntError(_))));
    assert!(matches!(read("-0x81sb").0, Err(NumberError::ParseIntError(_))));
    assert!(matches!(read("-0x").0, Err(NumberError::ParseIntError(_))));
    // a minus sign and a zero that no radix letter follows stay decimal
    assert_eq!(read("-0"), (Ok(NumberValue::Int(0)), 2));
    assert_eq!(read("-01"), (Ok(NumberValue::Int(-1)), 3));
}

#[test]
fn unsignable_suffixes() {
    for s in ["5uf", "5ud", "5uu", "5sf", "5sd", "5su", "5UF", "5Su"] {
        assert_eq!(read(s), (Err(NumberError::UnsignableSuffix), 2), "{s}");
    }
    let mut visitor = StrVisitor::new("-0x1fsD");
    assert_eq!(read_number(&mut visitor), Err(NumberError::UnsignableSuffix));
    assert_eq!(visitor.get_position(), 6);
}

#[test]
fn lone_zero_stops_the_number() {
    assert_eq!(read("0e5"), (Ok(NumberValue::Int(0)), 1));
    assert_eq!(read("0_1"), (Ok(NumberValue::Int(0)), 1));
    assert_eq!(read("0,"), (Ok(NumberValue::Int(0)), 1));
    assert_eq!(read("0"), (Ok(NumberValue::Int(0)), 1));
}

#[test]
fn floats_keep_their_text() {
    assert_eq!(read("1e7f"), (Ok(NumberValue::Float("1e7".to_string())), 4));
    assert_eq!(read("1e7"), (Ok(NumberValue::Double("1e7".to_string())), 3));
    assert_eq!(read("0.0_4E10f"), (Ok(NumberValue::Float("0.04E10".to_string())), 9));
    assert_eq!(number_helper("1e7f"), NbtTag::Float(1e7f32.to_bits()));
    assert_eq!(number_helper("0.0_4E10f"), NbtTag::Float(0.04E10f32.to_bits()));
    assert_eq!(number_helper("-0.9999999D"), NbtTag::Double((-0.9999999f64).to_bits()));
    assert_eq!(read("2.5d,"), (Ok(NumberValue::Double("2.5".to_string())), 4));
}

#[test]
fn underscores_between_digits_only() {
    assert_eq!(number_helper("1_000"), NbtTag::Int(1000));
    for s in ["._1E1", "1_E1", "1E_1", "1E1_", "_1"] {
        assert!(matches!(read(s).0, Err(NumberError::Syntax(_))), "{s}");
    }
    let (r, pos) = read("1_E1");
    assert_eq!(pos, 2);
    match r {
        Err(NumberError::Syntax(e)) => {
            assert_eq!(e.index, 2);
            assert_eq!(e.offending_area, "1_");
            assert_eq!(e.expected, "number should come after _");
        }
        _ => panic!("expected an underscore error"),
    }
}

#[test]
fn invalid_numbers() {
    // reads the `1` and leaves the `a`
    assert_eq!(read("1a"), (Ok(NumberValue::Int(1)), 1));
    assert!(tag("1a").is_none());
    assert!(tag("1E.1").is_none());
    assert!(tag("1E1.").is_none());
    assert!(matches!(read("").0, Err(NumberError::ParseIntError(_))));
    assert!(matches!(read("-").0, Err(NumberError::ParseIntError(_))));
    assert!(matches!(read("1-2").0, Err(NumberError::ParseIntError(_))));
}

#[test]
fn numboid_constants() {
    assert_eq!(read("true"), (Ok(NumberValue::Byte(1)), 4));
    assert_eq!(read("false"), (Ok(NumberValue::Byte(0)), 5));
    assert_eq!(read("trueness"), (Ok(NumberValue::Byte(1)), 4));
    // not a constant: read as a number
    assert!(matches!(read("tru").0, Err(NumberError::ParseIntError(_))));
}

#[test]
fn read_number_has_no_constants() {
    let mut visitor = StrVisitor::new("true");
    assert!(read_number(&mut visitor).is_err());
    assert_eq!(visitor.get_position(), 0);
}

#[test]
fn truthiness_of_numbers() {
    assert!(number_helper("500").is_truthy());
    assert!(!number_helper("0").is_truthy());
    assert!(!number_helper("-0.9999999F").is_truthy());
    assert!(!number_helper("-0.9999999D").is_truthy());
    assert!(number_helper("-1.0F").is_truthy());
    assert!(number_helper("1.0d").is_truthy());
    assert!(!NbtTag::Float(f32::NAN.to_bits()).is_truthy());
    assert!(NbtTag::Double(f64::INFINITY.to_bits()).is_truthy());
    assert!(NbtTag::Float(f32::NEG_INFINITY.to_bits()).is_truthy());
}

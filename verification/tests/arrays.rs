use bytes::Bytes;
use crab_nbt::nbt::snbt::de::arrays::{read_snbt_array, read_typed_array};
use crab_nbt::nbt::snbt::de::numbers::{NumberError, NumberType};
use crab_nbt::nbt::snbt::de::utils::StrVisitor;
use crab_nbt::nbt::tag::NbtTag;

/// Reads the array whose `[` is the first character of `s`; it must take up the whole text.
fn array(s: &str) -> Result<NbtTag, NumberError> {
    assert!(s.starts_with('['));
    let mut visitor = StrVisitor::new(&s[1..]);
    let r = read_typed_array(&mut visitor);
    if r.is_ok() {
        assert_eq!(visitor.get_position(), s.chars().count() - 1);
    }
    r
}

#[test]
fn typed_arrays() {
    assert_eq!(
        array("[I; 2084298949, 1790791589, -1276049868, -626425377]"),
        Ok(NbtTag::IntArray(vec![2084298949, 1790791589, -1276049868, -626425377]))
    );
    assert_eq!(array("[B;]"), Ok(NbtTag::ByteArray(Bytes::new())));
    assert_eq!(array("[I;]"), Ok(NbtTag::IntArray(Vec::new())));
    assert!(array("[I;,]").is_err());
    assert_eq!(array("[I; 0, 1B, 2S, 3I]"), Ok(NbtTag::IntArray(vec![0, 1, 2, 3])));
    assert_eq!(
        array("[L; 0, 1B, 2S, 3I, 4L,]"),
        Ok(NbtTag::LongArray(vec![0, 1, 2, 3, 4]))
    );
    assert_eq!(
        array("[B; 0, 0b1b, 2, 0x3]"),
        Ok(NbtTag::ByteArray(vec![0, 1, 2, 3].into()))
    );
    assert_eq!(array("[B; -1, 127]"), Ok(NbtTag::ByteArray(vec![255, 127].into())));
}

#[test]
fn array_elements_no_wider_than_the_array() {
    for (s, expected) in [
        ("[B; 1s]", "byte"),
        ("[B; 1i]", "short or byte"),
        ("[I; 1L]", "int, short, or byte"),
        ("[L; 1.5]", "number"),
        ("[I; 1 2]", ", or ]"),
        ("[I 1]", ";"),
        ("[X; 1]", "an array type identifier"),
    ] {
        match array(s) {
            Err(NumberError::Syntax(e)) => assert_eq!(e.expected, expected, "{s}"),
            other => panic!("{s}: {other:?}"),
        }
    }
    // a number without a type suffix takes the array's type
    assert!(matches!(array("[B; 300]"), Err(NumberError::ParseIntError(_))));
    assert_eq!(array("[L; 3000000000]"), Ok(NbtTag::LongArray(vec![3000000000])));
}

#[test]
fn array_error_positions() {
    let mut visitor = StrVisitor::new("; 1, 2s]");
    match read_snbt_array(&mut visitor, NumberType::Byte) {
        Err(NumberError::Syntax(e)) => {
            assert_eq!(e.index, 7);
            assert_eq!(e.offending_area, "; 1, 2s");
        }
        other => panic!("{other:?}"),
    }
    let mut visitor = StrVisitor::new(" ; 1 , 2 , ] tail");
    assert_eq!(read_snbt_array(&mut visitor, NumberType::Integer), Ok(vec![1, 2]));
    assert_eq!(visitor.get_position(), 12);
}

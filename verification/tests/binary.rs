use bytes::Bytes;
use std::io::Cursor;
use crab_nbt::error::Error;
use crab_nbt::nbt::compound::NbtCompound;
use crab_nbt::nbt::deserialize::get_nbt_string;
use crab_nbt::nbt::reading::{cursor_over, cursor_unread};
use crab_nbt::nbt::tag::NbtTag;

fn compound(children: Vec<(&str, NbtTag)>) -> NbtCompound {
    let mut c = NbtCompound::new();
    for (name, tag) in children {
        c.child_tags.push((name.to_string(), tag));
    }
    c
}

/// Writes the tag, reads it back, and checks that all the bytes were read.
fn read_back(tag: &NbtTag) -> NbtTag {
    let bytes = tag.serialize();
    let mut slice: &[u8] = &bytes;
    let back = NbtTag::deserialize(&mut slice).unwrap();
    assert!(slice.is_empty());
    back
}

fn sample() -> NbtTag {
    NbtTag::Compound(compound(vec![
        ("byte", NbtTag::Byte(-3)),
        ("short", NbtTag::Short(-300)),
        ("int", NbtTag::Int(70000)),
        ("long", NbtTag::Long(-5_000_000_000)),
        ("float", NbtTag::Float(1.5f32.to_bits())),
        ("double", NbtTag::Double((-2.25f64).to_bits())),
        ("bytes", NbtTag::ByteArray(Bytes::from(vec![0u8, 1, 255]))),
        ("string", NbtTag::String("snow \u{2603} and \u{107A7}".to_string())),
        ("ints", NbtTag::IntArray(vec![1, -1, i32::MAX, i32::MIN])),
        ("longs", NbtTag::LongArray(vec![i64::MIN, 0, i64::MAX])),
        ("list", NbtTag::List(vec![NbtTag::Int(1), NbtTag::Int(2)])),
        ("empty list", NbtTag::List(Vec::new())),
        ("nested", NbtTag::Compound(compound(vec![("x", NbtTag::String(String::new()))]))),
    ]))
}

#[test]
fn tags_read_back() {
    assert_eq!(read_back(&sample()), sample());
    assert_eq!(read_back(&NbtTag::End), NbtTag::End);
    assert_eq!(read_back(&NbtTag::Byte(0)), NbtTag::Byte(0));
    assert_eq!(read_back(&NbtTag::String(String::new())), NbtTag::String(String::new()));
}

#[test]
fn mixed_lists_read_back() {
    let mixed = NbtTag::List(vec![
        NbtTag::Int(1),
        NbtTag::String("two".to_string()),
        NbtTag::Compound(compound(vec![("three", NbtTag::Byte(3))])),
        NbtTag::List(vec![NbtTag::Long(4)]),
    ]);
    let bytes = mixed.serialize();
    // a list of compounds, four of them
    assert_eq!(&bytes[..6], &[9u8, 10, 0, 0, 0, 4]);
    // the int is wrapped: its id, the empty name, its payload, the end of the compound
    assert_eq!(&bytes[6..14], &[3u8, 0, 0, 0, 0, 0, 1, 0]);
    assert_eq!(read_back(&mixed), mixed);
}

#[test]
fn serialized_bytes() {
    assert_eq!(&NbtTag::Short(258).serialize()[..], &[2u8, 1, 2]);
    assert_eq!(&NbtTag::Int(-2).serialize()[..], &[3u8, 0xff, 0xff, 0xff, 0xfe]);
    assert_eq!(&NbtTag::String("ab".to_string()).serialize()[..], &[8u8, 0, 2, b'a', b'b']);
    assert_eq!(
        &NbtTag::List(vec![NbtTag::Byte(7)]).serialize()[..],
        &[9u8, 1, 0, 0, 0, 1, 7]
    );
    assert_eq!(&NbtTag::List(Vec::new()).serialize()[..], &[9u8, 0, 0, 0, 0, 0]);
    assert_eq!(
        &NbtTag::Compound(compound(vec![("a", NbtTag::Byte(1))])).serialize()[..],
        &[10u8, 1, 0, 1, b'a', 1, 0]
    );
    assert_eq!(
        &NbtTag::IntArray(vec![1, 2]).serialize_data()[..],
        &[0u8, 0, 0, 2, 0, 0, 0, 1, 0, 0, 0, 2]
    );
    // a character beyond U+FFFF takes two surrogates of three bytes each
    assert_eq!(
        &NbtTag::String("\u{10400}".to_string()).serialize_data()[..],
        &[0u8, 6, 0xed, 0xa0, 0x81, 0xed, 0xb0, 0x80]
    );
}

#[test]
fn reading_payloads() {
    let data = [0x12u8, 0x34, 0x56, 0x78, 0x9a];
    let mut s: &[u8] = &data;
    assert_eq!(NbtTag::deserialize_data(&mut s, 3), Ok(NbtTag::Int(0x12345678)));
    assert_eq!(s, &[0x9a]);
    let mut s: &[u8] = &data;
    assert_eq!(NbtTag::deserialize_data(&mut s, 2), Ok(NbtTag::Short(0x1234)));
    let mut s: &[u8] = &data;
    assert_eq!(NbtTag::deserialize_data(&mut s, 0), Ok(NbtTag::End));
    assert_eq!(s.len(), 5);
    let mut s: &[u8] = &[0u8, 0, 0, 2, 7, 8, 9];
    assert_eq!(
        NbtTag::deserialize_data(&mut s, 7),
        Ok(NbtTag::ByteArray(Bytes::from(vec![7u8, 8])))
    );
    assert_eq!(s, &[9u8]);
}

#[test]
fn reading_failures() {
    let mut s: &[u8] = &[];
    assert_eq!(NbtTag::deserialize(&mut s), Err(Error::Incomplete));
    let mut s: &[u8] = &[3u8, 0, 0];
    assert_eq!(NbtTag::deserialize(&mut s), Err(Error::Incomplete));
    assert_eq!(s.len(), 2);
    let mut s: &[u8] = &[13u8, 0];
    assert_eq!(NbtTag::deserialize(&mut s), Err(Error::UnknownTagId(13)));
    // a compound whose child has a name that is not valid CESU-8
    let mut s: &[u8] = &[10u8, 1, 0, 1, 0xff, 5, 0];
    assert_eq!(NbtTag::deserialize(&mut s), Err(Error::InvalidJavaString));
    // a compound that is not closed
    let mut s: &[u8] = &[10u8, 1, 0, 1, b'a', 5];
    assert_eq!(NbtTag::deserialize(&mut s), Err(Error::Incomplete));
    // a list whose elements run short
    let mut s: &[u8] = &[9u8, 3, 0, 0, 0, 2, 0, 0, 0, 1];
    assert_eq!(NbtTag::deserialize(&mut s), Err(Error::Incomplete));
    // a compound with a child of an unknown type
    let mut s: &[u8] = &[10u8, 20, 0, 0];
    assert_eq!(NbtTag::deserialize(&mut s), Err(Error::UnknownTagId(20)));
}

#[test]
fn wrappers_are_unwrapped() {
    // a list of two compounds, the first wrapping an int under the empty name
    let data = [
        10u8, 0, 0, 0, 2, //
        3, 0, 0, 0, 0, 0, 5, 0, //
        1, 0, 1, b'b', 6, 0,
    ];
    let mut s: &[u8] = &data;
    assert_eq!(
        NbtTag::deserialize_data(&mut s, 9),
        Ok(NbtTag::List(vec![
            NbtTag::Int(5),
            NbtTag::Compound(compound(vec![("b", NbtTag::Byte(6))])),
        ]))
    );
    assert!(s.is_empty());
    // a list of a single wrapper is unwrapped as well
    let data = [10u8, 0, 0, 0, 1, 1, 0, 0, 9, 0];
    let mut s: &[u8] = &data;
    assert_eq!(NbtTag::deserialize_data(&mut s, 9), Ok(NbtTag::List(vec![NbtTag::Byte(9)])));
}

#[test]
fn compound_contents() {
    let data = [1u8, 0, 1, b'x', 4, 8, 0, 1, b's', 0, 2, b'h', b'i', 0, 99];
    let mut s: &[u8] = &data;
    let c = NbtCompound::deserialize_content(&mut s).unwrap();
    assert_eq!(c, compound(vec![("x", NbtTag::Byte(4)), ("s", NbtTag::String("hi".to_string()))]));
    assert_eq!(s, &[99u8]);
    assert!(!c.is_wrapper());
    assert!(compound(vec![("", NbtTag::Int(1))]).is_wrapper());
    assert!(!compound(vec![("a", NbtTag::Int(1))]).is_wrapper());
}

#[test]
fn nbt_strings_binary() {
    let mut s: &[u8] = &[0u8, 3, 0xe2, 0x98, 0x83, 1];
    assert_eq!(get_nbt_string(&mut s), Ok("\u{2603}".to_string()));
    assert_eq!(s, &[1u8]);
    let mut s: &[u8] = &[0u8, 6, 0xed, 0xa0, 0x81, 0xed, 0xb0, 0x80];
    assert_eq!(get_nbt_string(&mut s), Ok("\u{10400}".to_string()));
    let mut s: &[u8] = &[0u8, 4, b'a'];
    assert_eq!(get_nbt_string(&mut s), Err(Error::Incomplete));
    let mut s: &[u8] = &[0u8];
    assert_eq!(get_nbt_string(&mut s), Err(Error::Incomplete));
    assert_eq!(s.len(), 1);
    let mut s: &[u8] = &[0u8, 1, 0x80];
    assert_eq!(get_nbt_string(&mut s), Err(Error::InvalidJavaString));
}

#[test]
fn cursors() {
    let data = [0u8, 0, 3, 0, 0, 0, 7, 1, 9];
    let mut cursor = Cursor::new(&data[..]);
    cursor.set_position(2);
    assert_eq!(NbtTag::deserialize_from_cursor(&mut cursor), Ok(NbtTag::Int(7)));
    assert_eq!(cursor.position(), 7);
    assert_eq!(NbtTag::deserialize_data_from_cursor(&mut cursor, 1), Ok(NbtTag::Byte(1)));
    assert_eq!(cursor.position(), 8);
    assert_eq!(NbtTag::deserialize_data_from_cursor(&mut cursor, 2), Err(Error::Incomplete));
    assert_eq!(cursor.position(), 8);
    cursor.set_position(20);
    assert_eq!(NbtTag::deserialize_from_cursor(&mut cursor), Err(Error::Incomplete));
    assert_eq!(cursor.position(), 20);
}

#[test]
fn cursor_views() {
    let data = [3u8, 0, 0, 0, 5, 9];
    let mut cursor = cursor_over(&data[..]);
    assert_eq!(cursor.position(), 0);
    assert_eq!(cursor_unread(&cursor), &data[..]);
    assert_eq!(NbtTag::deserialize_from_cursor(&mut cursor), Ok(NbtTag::Int(5)));
    assert_eq!(cursor_unread(&cursor), &[9u8][..]);
    cursor.set_position(10);
    assert_eq!(cursor_unread(&cursor), &[] as &[u8]);
}

#[test]
fn conversions() {
    assert_eq!(NbtTag::from(true), NbtTag::Byte(1));
    assert_eq!(NbtTag::from(false), NbtTag::Byte(0));
    assert_eq!(NbtTag::from(-7i8), NbtTag::Byte(-7));
    assert_eq!(NbtTag::from(300i16), NbtTag::Short(300));
    assert_eq!(NbtTag::from(1i32), NbtTag::Int(1));
    assert_eq!(NbtTag::from(1i64 << 40), NbtTag::Long(1 << 40));
    assert_eq!(NbtTag::from("text"), NbtTag::String("text".to_string()));
    assert_eq!(NbtTag::from("text".to_string()), NbtTag::String("text".to_string()));
    assert_eq!(NbtTag::from(&[1u8, 2][..]), NbtTag::ByteArray(Bytes::from(vec![1u8, 2])));
    assert_eq!(NbtTag::from(vec![1i32, 2]), NbtTag::IntArray(vec![1, 2]));
    assert_eq!(NbtTag::from(vec![3i64]), NbtTag::LongArray(vec![3]));
    assert_eq!(NbtTag::from(vec![NbtTag::End]), NbtTag::List(vec![NbtTag::End]));
    assert_eq!(NbtTag::from(NbtCompound::new()), NbtTag::Compound(NbtCompound::new()));
    let a: NbtTag = 5i32.into();
    assert_eq!(a, NbtTag::Int(5));
}

#[test]
fn clones_are_equal() {
    let tag = sample();
    assert_eq!(tag.clone(), tag);
    let list = NbtTag::List(vec![sample(), NbtTag::Float(0x7fc0_0000)]);
    assert_eq!(list.clone(), list);
    let c = compound(vec![("a", NbtTag::Byte(1)), ("b", sample())]);
    assert_eq!(c.clone(), c);
}

use bytes::Bytes;
use crab_nbt::nbt::compound::NbtCompound;
use crab_nbt::nbt::snbt::de::values::SnbtValue;
use crab_nbt::nbt::snbt::ser::quoted_snbt;
use crab_nbt::nbt::tag::NbtTag;

fn text(tag: NbtTag) -> String {
    tag.to_snbt().unwrap()
}

#[test]
fn writes_numbers() {
    assert_eq!(text(NbtTag::Byte(-5)), "-5b");
    assert_eq!(text(NbtTag::Byte(0)), "0b");
    assert_eq!(text(NbtTag::Short(300)), "300s");
    assert_eq!(text(NbtTag::Int(i32::MIN)), "-2147483648");
    assert_eq!(text(NbtTag::Int(0)), "0");
    assert_eq!(text(NbtTag::Long(i64::MAX)), "9223372036854775807L");
    assert_eq!(text(NbtTag::Long(i64::MIN)), "-9223372036854775808L");
}

#[test]
fn writes_arrays_lists_and_compounds() {
    assert_eq!(
        text(NbtTag::ByteArray(Bytes::from(vec![0u8, 255, 128]))),
        "[B; 0B, -1B, -128B]"
    );
    assert_eq!(text(NbtTag::IntArray(vec![])), "[I; ]");
    assert_eq!(text(NbtTag::LongArray(vec![1, -2])), "[L; 1L, -2L]");
    assert_eq!(
        text(NbtTag::List(vec![NbtTag::Int(1), NbtTag::List(vec![])])),
        "[1, []]"
    );
    assert_eq!(text(NbtTag::String("a\"b\\c".to_string())), r#""a\"b\\c""#);
    let mut compound = NbtCompound::new();
    compound.child_tags.push(("x y".to_string(), NbtTag::Byte(1)));
    compound.child_tags.push(("s".to_string(), NbtTag::String("v".to_string())));
    assert_eq!(text(NbtTag::Compound(compound)), r#"{"x y": 1b, "s": "v"}"#);
    assert_eq!(text(NbtTag::End), "");
    assert_eq!(quoted_snbt(&"q\"".to_string()), r#""q\"""#);
}

#[test]
fn floats_are_not_written() {
    assert_eq!(NbtTag::Float(1.5f32.to_bits()).to_snbt(), None);
    assert_eq!(NbtTag::Double(0.5f64.to_bits()).to_snbt(), None);
    assert_eq!(
        NbtTag::List(vec![NbtTag::Int(1), NbtTag::Double(0.0f64.to_bits())]).to_snbt(),
        None
    );
    let mut compound = NbtCompound::new();
    compound.child_tags.push(("f".to_string(), NbtTag::Float(0)));
    assert_eq!(NbtTag::Compound(compound).to_snbt(), None);
}

/// What the reader gives for a tag made of integers, arrays and lists.
fn read_value(tag: &NbtTag) -> SnbtValue {
    match tag {
        NbtTag::List(l) => SnbtValue::List(l.iter().map(read_value).collect()),
        other => SnbtValue::Tag(other.clone()),
    }
}

#[test]
fn written_snbt_reads_back() {
    let tags = vec![
        NbtTag::Byte(0),
        NbtTag::Byte(-128),
        NbtTag::Short(-32768),
        NbtTag::Int(7),
        NbtTag::Int(-10),
        NbtTag::Long(i64::MIN),
        NbtTag::ByteArray(Bytes::from(vec![0u8, 128, 255, 1])),
        NbtTag::ByteArray(Bytes::new()),
        NbtTag::IntArray(vec![i32::MIN, 0, i32::MAX]),
        NbtTag::LongArray(vec![i64::MAX, -1]),
        NbtTag::List(vec![]),
        NbtTag::List(vec![NbtTag::Byte(0), NbtTag::Short(5), NbtTag::Int(0)]),
        NbtTag::List(vec![
            NbtTag::List(vec![NbtTag::Int(1)]),
            NbtTag::IntArray(vec![2]),
            NbtTag::List(vec![]),
        ]),
    ];
    for tag in tags {
        let written = text(tag.clone());
        assert_eq!(SnbtValue::parse(&written), Ok(read_value(&tag)), "{written}");
    }
}

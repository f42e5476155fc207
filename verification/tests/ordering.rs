use bytes::Bytes;
use crab_nbt::nbt::compound::NbtCompound;
use crab_nbt::nbt::order::tag_order_of;
use crab_nbt::nbt::tag::NbtTag;
use std::cmp::Ordering;

fn float(x: f32) -> NbtTag {
    NbtTag::Float(x.to_bits())
}

fn double(x: f64) -> NbtTag {
    NbtTag::Double(x.to_bits())
}

fn compound(children: Vec<(&str, NbtTag)>) -> NbtCompound {
    let mut c = NbtCompound::new();
    for (name, tag) in children {
        c.child_tags.push((name.to_string(), tag));
    }
    c
}

#[test]
fn numbers_in_order() {
    assert!(NbtTag::Byte(1) < NbtTag::Byte(2));
    assert!(NbtTag::Short(-5) < NbtTag::Short(3));
    assert!(NbtTag::Long(i64::MAX) > NbtTag::Long(i64::MIN));
    assert_eq!(NbtTag::Int(7).partial_cmp(&NbtTag::Int(7)), Some(Ordering::Equal));
    assert_eq!(tag_order_of(&NbtTag::Int(1), &NbtTag::Int(0)), 1);
}

#[test]
fn floats_in_total_order() {
    assert!(float(-1.0) < float(-0.0));
    assert!(float(-0.0) < float(0.0));
    assert!(float(0.0) < float(1.5));
    assert!(float(f32::INFINITY) < float(f32::NAN));
    assert!(float(-f32::NAN) < float(f32::NEG_INFINITY));
    assert_eq!(float(f32::NAN).partial_cmp(&float(f32::NAN)), Some(Ordering::Equal));
    assert!(double(-2.0) < double(-1.0));
    assert!(double(1e300) > double(-1e300));
    for (a, b) in [(-3.5f32, 2.0f32), (1.0, 1.0), (0.0, -0.0), (f32::MAX, f32::MIN)] {
        assert_eq!(float(a).partial_cmp(&float(b)), Some(a.total_cmp(&b)));
    }
}

#[test]
fn types_before_values() {
    // by type id: byte, short, int, long, float, double, byte array, string, list, ...
    assert!(NbtTag::End < NbtTag::Byte(-100));
    assert!(NbtTag::Byte(100) < NbtTag::Short(-100));
    assert!(NbtTag::Long(5) < float(-1.0));
    assert!(NbtTag::String("z".to_string()) < NbtTag::List(Vec::new()));
    assert!(NbtTag::Compound(NbtCompound::new()) < NbtTag::IntArray(Vec::new()));
    assert_eq!(NbtTag::End.partial_cmp(&NbtTag::End), Some(Ordering::Equal));
}

#[test]
fn sequences_lexicographically() {
    assert!(NbtTag::String("abc".to_string()) < NbtTag::String("abd".to_string()));
    assert!(NbtTag::String("ab".to_string()) < NbtTag::String("abc".to_string()));
    assert!(NbtTag::String("\u{e9}".to_string()) > NbtTag::String("z".to_string()));
    assert!(NbtTag::ByteArray(Bytes::from(vec![1u8, 255])) < NbtTag::ByteArray(Bytes::from(vec![2u8])));
    assert!(NbtTag::IntArray(vec![1, 2]) < NbtTag::IntArray(vec![1, 2, 0]));
    assert!(NbtTag::LongArray(vec![-1]) < NbtTag::LongArray(vec![0]));
    assert!(
        NbtTag::List(vec![NbtTag::Int(1), NbtTag::Int(5)])
            < NbtTag::List(vec![NbtTag::Int(2)])
    );
    let a = compound(vec![("a", NbtTag::Int(1))]);
    let b = compound(vec![("a", NbtTag::Int(2))]);
    let c = compound(vec![("b", NbtTag::Int(0))]);
    assert!(a < b);
    assert!(b < c);
    assert!(NbtTag::Compound(a.clone()) < NbtTag::Compound(c));
    assert_eq!(a.partial_cmp(&a.clone()), Some(Ordering::Equal));
}

//! What reading gives back of what writing wrote.
use vstd::prelude::*;
use crate::nbt::buffers::{be16, be32, be64, bytes_view};
use crate::nbt::cesu8::{
    beyond_bmp, cesu8_decoding, cesu8_encoding, lemma_bmp_string_reads_back, lemma_empty_decoding,
};
use crate::nbt::deserialize::{
    decode_data, decode_elements, decode_entries, decode_string, ints_at, is_wrapper, longs_at,
    after, lemma_elements_step, lemma_entries_step, unwrap_singletons, unwrapped, Decoded,
};
use crate::nbt::reading::{be_u16_at, be_u32_at, be_u64_at};
use crate::nbt::tag::{
    all_of_type, count_bytes, data_bytes, ints_bytes, longs_bytes, elements_bytes, entries_bytes, entries_model, lemma_entries_model,
    lemma_list_model, list_element_type, list_model, string_payload, tag_model,
    wrapped_elements_bytes, NbtTag, SpecTag, COMPOUND_ID, END_ID,
};

verus! {

/// The two bytes at `p` are those of `x`, so they read back as `x`.
proof fn lemma_be16_reads_back(x: u16, b: Seq<u8>, p: int)
    requires
        0 <= p,
        p + 2 <= b.len(),
        b.subrange(p, p + 2) == be16(x),
    ensures
        be_u16_at(b, p) == x,
{
    assert(b[p] == b.subrange(p, p + 2)[0]);
    assert(b[p + 1] == b.subrange(p, p + 2)[1]);
}

/// The four bytes at `p` are those of `x`, so they read back as `x`.
proof fn lemma_be32_reads_back(x: u32, b: Seq<u8>, p: int)
    requires
        0 <= p,
        p + 4 <= b.len(),
        b.subrange(p, p + 4) == be32(x),
    ensures
        be_u32_at(b, p) == x,
{
    let hi = (x / 0x1_0000) as u16;
    let lo = (x % 0x1_0000) as u16;
    assert(b.subrange(p, p + 2) =~= b.subrange(p, p + 4).subrange(0, 2));
    assert(be32(x).subrange(0, 2) =~= be16(hi));
    assert(b.subrange(p + 2, p + 4) =~= b.subrange(p, p + 4).subrange(2, 4));
    assert(be32(x).subrange(2, 4) =~= be16(lo));
    lemma_be16_reads_back(hi, b, p);
    lemma_be16_reads_back(lo, b, p + 2);
}

/// The eight bytes at `p` are those of `x`, so they read back as `x`.
proof fn lemma_be64_reads_back(x: u64, b: Seq<u8>, p: int)
    requires
        0 <= p,
        p + 8 <= b.len(),
        b.subrange(p, p + 8) == be64(x),
    ensures
        be_u64_at(b, p) == x,
{
    let hi = (x / 0x1_0000_0000) as u32;
    let lo = (x % 0x1_0000_0000) as u32;
    assert(b.subrange(p, p + 4) =~= b.subrange(p, p + 8).subrange(0, 4));
    assert(be64(x).subrange(0, 4) =~= be32(hi));
    assert(b.subrange(p + 4, p + 8) =~= b.subrange(p, p + 8).subrange(4, 8));
    assert(be64(x).subrange(4, 8) =~= be32(lo));
    lemma_be32_reads_back(hi, b, p);
    lemma_be32_reads_back(lo, b, p + 4);
}

/// A string that its binary form gives back: its encoding fits the 16-bit length that
/// precedes it, and, where it holds a character beyond U+FFFF, decoding its encoding gives
/// it back (which `cesu8_encode` states of every string it encodes).
pub open spec fn string_writes_back(s: Seq<char>) -> bool {
    &&& cesu8_encoding(s).len() < 0x1_0000
    &&& beyond_bmp(s) ==> cesu8_decoding(cesu8_encoding(s)) == Some(s)
}

/// Decoding the encoding of `s` gives `s` back.
pub open spec fn reads_back(s: Seq<char>) -> bool {
    cesu8_decoding(cesu8_encoding(s)) == Some(s)
}

/// Every string of the tag, and every name of a child of a compound in it, reads back from
/// its encoding.
pub open spec fn strings_read_back(tag: NbtTag) -> bool
    decreases tag,
{
    match tag {
        NbtTag::String(s) => reads_back(s@),
        NbtTag::List(l) => forall|i: int|
            0 <= i < l@.len() ==> strings_read_back(#[trigger] l@[i]),
        NbtTag::Compound(c) => forall|i: int|
            0 <= i < c.child_tags@.len() ==> reads_back(#[trigger] c.child_tags@[i].0@)
                && strings_read_back(c.child_tags@[i].1),
        _ => true,
    }
}

/// A tag whose binary form is read back as it was written, given that its strings read back
/// from their encodings: as [`writes_back`], but of a string only that its encoding fits the
/// 16-bit length that precedes it.
pub open spec fn fits_binary(tag: NbtTag) -> bool
    decreases tag,
{
    match tag {
        NbtTag::ByteArray(b) => bytes_view(b).len() <= i32::MAX,
        NbtTag::String(s) => cesu8_encoding(s@).len() < 0x1_0000,
        NbtTag::List(l) => {
            &&& l@.len() <= i32::MAX
            &&& forall|i: int|
                0 <= i < l@.len() ==> fits_binary(#[trigger] l@[i]) && !is_wrapping(l@[i])
            &&& !all_of_type(l@, list_element_type(l@)) ==> forall|i: int|
                0 <= i < l@.len() ==> !(#[trigger] l@[i] is End)
        },
        NbtTag::Compound(c) => forall|i: int|
            0 <= i < c.child_tags@.len() ==> cesu8_encoding(#[trigger] c.child_tags@[i].0@).len()
                < 0x1_0000 && !(c.child_tags@[i].1 is End) && fits_binary(c.child_tags@[i].1),
        NbtTag::IntArray(v) => v@.len() <= i32::MAX,
        NbtTag::LongArray(v) => v@.len() <= i32::MAX,
        _ => true,
    }
}

/// A tag that fits the binary form and whose strings read back is one that the binary form
/// gives back.
pub proof fn lemma_fits_binary(tag: NbtTag)
    requires
        fits_binary(tag),
        strings_read_back(tag),
    ensures
        writes_back(tag),
    decreases tag,
{
    match tag {
        NbtTag::List(l) => {
            assert forall|i: int| 0 <= i < l@.len() implies writes_back(#[trigger] l@[i]) by {
                assert(decreases_to!(tag => l));
                assert(decreases_to!(l => l@));
                lemma_fits_binary(l@[i]);
            }
        },
        NbtTag::Compound(c) => {
            assert forall|i: int| 0 <= i < c.child_tags@.len() implies writes_back(
                #[trigger] c.child_tags@[i].1,
            ) by {
                assert(decreases_to!(tag => c));
                assert(decreases_to!(c => c.child_tags));
                assert(decreases_to!(c.child_tags => c.child_tags@));
                assert(decreases_to!(c.child_tags@ => c.child_tags@[i]));
                assert(cesu8_encoding(c.child_tags@[i].0@).len() < 0x1_0000);
                lemma_fits_binary(c.child_tags@[i].1);
            }
            assert forall|i: int| 0 <= i < c.child_tags@.len() implies string_writes_back(
                #[trigger] c.child_tags@[i].0@,
            ) by {
                assert(cesu8_encoding(c.child_tags@[i].0@).len() < 0x1_0000);
                assert(reads_back(c.child_tags@[i].0@));
            }
        },
        _ => {},
    }
}

/// A compound that holds a single child under the empty name, as a list of mixed types
/// writes an element that is not a compound.
pub open spec fn is_wrapping(t: NbtTag) -> bool {
    t matches NbtTag::Compound(c) && c.child_tags@.len() == 1 && c.child_tags@[0].0@.len() == 0
}

/// A tag that its binary form gives back: counts fit the 32-bit fields, strings are written
/// back, no child of a compound is `End`, and no list holds a compound that looks like a
/// wrapper, nor, where its elements differ in type, an `End`.
pub open spec fn writes_back(tag: NbtTag) -> bool
    decreases tag,
{
    match tag {
        NbtTag::ByteArray(b) => bytes_view(b).len() <= i32::MAX,
        NbtTag::String(s) => string_writes_back(s@),
        NbtTag::List(l) => {
            &&& l@.len() <= i32::MAX
            &&& forall|i: int|
                0 <= i < l@.len() ==> writes_back(#[trigger] l@[i]) && !is_wrapping(l@[i])
            &&& !all_of_type(l@, list_element_type(l@)) ==> forall|i: int|
                0 <= i < l@.len() ==> !(#[trigger] l@[i] is End)
        },
        NbtTag::Compound(c) => forall|i: int|
            0 <= i < c.child_tags@.len() ==> string_writes_back(#[trigger] c.child_tags@[i].0@)
                && !(c.child_tags@[i].1 is End) && writes_back(c.child_tags@[i].1),
        NbtTag::IntArray(v) => v@.len() <= i32::MAX,
        NbtTag::LongArray(v) => v@.len() <= i32::MAX,
        _ => true,
    }
}


/// How a list of mixed types writes one element: a compound as it is, any other tag as the
/// only child of a compound, under the empty name.
pub open spec fn wrapped_bytes(t: NbtTag) -> Seq<u8> {
    if t is Compound {
        data_bytes(t)
    } else {
        seq![t.type_id()] + be16(0) + data_bytes(t) + seq![END_ID]
    }
}

/// The payloads of a list, from the front: the first element's, then the others'.
proof fn lemma_elements_bytes_front(l: Seq<NbtTag>)
    requires
        l.len() > 0,
    ensures
        elements_bytes(l) == data_bytes(l[0]) + elements_bytes(l.skip(1)),
    decreases l.len(),
{
    if l.len() == 1 {
        assert(l.subrange(0, 0) =~= Seq::<NbtTag>::empty());
        assert(l.skip(1) =~= Seq::<NbtTag>::empty());
        assert(data_bytes(l[0]) + Seq::<u8>::empty() =~= data_bytes(l[0]));
        assert(Seq::<u8>::empty() + data_bytes(l[0]) =~= data_bytes(l[0]));
    } else {
        let init = l.subrange(0, l.len() - 1);
        lemma_elements_bytes_front(init);
        assert(l.skip(1).subrange(0, l.len() - 2) =~= init.skip(1));
        assert(l.skip(1)[l.len() - 2] == l[l.len() - 1]);
        assert(init[0] == l[0]);
        assert(elements_bytes(l) =~= data_bytes(l[0]) + elements_bytes(l.skip(1)));
    }
}

/// The wrapped elements of a list, from the front.
proof fn lemma_wrapped_bytes_front(l: Seq<NbtTag>)
    requires
        l.len() > 0,
    ensures
        wrapped_elements_bytes(l) == wrapped_bytes(l[0]) + wrapped_elements_bytes(l.skip(1)),
    decreases l.len(),
{
    if l.len() == 1 {
        assert(l.subrange(0, 0) =~= Seq::<NbtTag>::empty());
        assert(l.skip(1) =~= Seq::<NbtTag>::empty());
        assert(wrapped_bytes(l[0]) + Seq::<u8>::empty() =~= wrapped_bytes(l[0]));
        assert(Seq::<u8>::empty() + wrapped_bytes(l[0]) =~= wrapped_bytes(l[0]));
    } else {
        let init = l.subrange(0, l.len() - 1);
        lemma_wrapped_bytes_front(init);
        assert(l.skip(1).subrange(0, l.len() - 2) =~= init.skip(1));
        assert(l.skip(1)[l.len() - 2] == l[l.len() - 1]);
        assert(init[0] == l[0]);
        assert(wrapped_elements_bytes(l) =~= wrapped_bytes(l[0]) + wrapped_elements_bytes(
            l.skip(1),
        ));
    }
}

/// How a compound writes one child: its type id, its name and its payload.
pub open spec fn entry_bytes(x: (String, NbtTag)) -> Seq<u8> {
    seq![x.1.type_id()] + string_payload(x.0@) + data_bytes(x.1)
}

/// The children of a compound, from the front.
proof fn lemma_entries_bytes_front(e: Seq<(String, NbtTag)>)
    requires
        e.len() > 0,
    ensures
        entries_bytes(e) == entry_bytes(e[0]) + entries_bytes(e.skip(1)),
    decreases e.len(),
{
    if e.len() == 1 {
        assert(e.subrange(0, 0) =~= Seq::<(String, NbtTag)>::empty());
        assert(e.skip(1) =~= Seq::<(String, NbtTag)>::empty());
        assert(entries_bytes(e.subrange(0, 0)) == Seq::<u8>::empty());
        assert(entries_bytes(e) =~= entry_bytes(e[0]) + Seq::<u8>::empty());
    } else {
        let init = e.subrange(0, e.len() - 1);
        lemma_entries_bytes_front(init);
        assert(e.skip(1).subrange(0, e.len() - 2) =~= init.skip(1));
        assert(e.skip(1)[e.len() - 2] == e[e.len() - 1]);
        assert(init[0] == e[0]);
        assert(entries_bytes(e) =~= entry_bytes(e[0]) + entries_bytes(e.skip(1)));
    }
}

/// The content of a list, from the front.
proof fn lemma_list_model_front(l: Seq<NbtTag>)
    requires
        l.len() > 0,
    ensures
        list_model(l) == seq![tag_model(l[0])] + list_model(l.skip(1)),
{
    lemma_list_model(l);
    lemma_list_model(l.skip(1));
    assert(list_model(l) =~= seq![tag_model(l[0])] + list_model(l.skip(1)));
}

/// The content of a compound, from the front.
proof fn lemma_entries_model_front(e: Seq<(String, NbtTag)>)
    requires
        e.len() > 0,
    ensures
        entries_model(e) == seq![(e[0].0@, tag_model(e[0].1))] + entries_model(e.skip(1)),
{
    lemma_entries_model(e);
    lemma_entries_model(e.skip(1));
    assert(entries_model(e) =~= seq![(e[0].0@, tag_model(e[0].1))] + entries_model(e.skip(1)));
}


/// A count up to `i32::MAX` reads back from its four bytes.
proof fn lemma_count_reads_back(n: nat, b: Seq<u8>, p: int)
    requires
        n <= i32::MAX,
        0 <= p,
        p + 4 <= b.len(),
        b.subrange(p, p + 4) == count_bytes(n),
    ensures
        be_u32_at(b, p) as i32 == n,
{
    let m = n as u32;
    assert(m <= 0x7fff_ffff ==> (m as i32) as u32 == m && (m as i32) as int == m as int)
        by (bit_vector);
    lemma_be32_reads_back((n as i32) as u32, b, p);
}

/// The `i`-th four bytes of the binary form of `v` are those of `v[i]`.
proof fn lemma_ints_bytes(v: Seq<i32>)
    ensures
        ints_bytes(v).len() == 4 * v.len(),
        forall|i: int|
            0 <= i < v.len() ==> #[trigger] ints_bytes(v).subrange(4 * i, 4 * i + 4) == be32(
                v[i] as u32,
            ),
    decreases v.len(),
{
    if v.len() > 0 {
        let init = v.drop_last();
        lemma_ints_bytes(init);
        assert forall|i: int| 0 <= i < v.len() implies #[trigger] ints_bytes(v).subrange(
            4 * i,
            4 * i + 4,
        ) == be32(v[i] as u32) by {
            if i < v.len() - 1 {
                assert(ints_bytes(v).subrange(4 * i, 4 * i + 4) =~= ints_bytes(init).subrange(
                    4 * i,
                    4 * i + 4,
                ));
            } else {
                assert(ints_bytes(v).subrange(4 * i, 4 * i + 4) =~= be32(v[i] as u32));
            }
        }
    }
}

/// The `i`-th eight bytes of the binary form of `v` are those of `v[i]`.
proof fn lemma_longs_bytes(v: Seq<i64>)
    ensures
        longs_bytes(v).len() == 8 * v.len(),
        forall|i: int|
            0 <= i < v.len() ==> #[trigger] longs_bytes(v).subrange(8 * i, 8 * i + 8) == be64(
                v[i] as u64,
            ),
    decreases v.len(),
{
    if v.len() > 0 {
        let init = v.drop_last();
        lemma_longs_bytes(init);
        assert forall|i: int| 0 <= i < v.len() implies #[trigger] longs_bytes(v).subrange(
            8 * i,
            8 * i + 8,
        ) == be64(v[i] as u64) by {
            if i < v.len() - 1 {
                assert(longs_bytes(v).subrange(8 * i, 8 * i + 8) =~= longs_bytes(init).subrange(
                    8 * i,
                    8 * i + 8,
                ));
            } else {
                assert(longs_bytes(v).subrange(8 * i, 8 * i + 8) =~= be64(v[i] as u64));
            }
        }
    }
}


/// A string reads back from its binary form.
proof fn lemma_string_reads_back(s: Seq<char>, rest: Seq<u8>)
    requires
        string_writes_back(s),
    ensures
        decode_string(string_payload(s) + rest) == Decoded::Done(
            s,
            string_payload(s).len() as int,
        ),
{
    if !beyond_bmp(s) {
        lemma_bmp_string_reads_back(s);
    }
    let e = cesu8_encoding(s);
    let c = string_payload(s) + rest;
    assert(c.subrange(0, 2) =~= be16(e.len() as u16));
    lemma_be16_reads_back(e.len() as u16, c, 0);
    assert(c.subrange(2, 2 + e.len() as int) =~= e);
}

/// The content of a tag is a wrapper just where the tag looks like one.
proof fn lemma_wrapper_model(t: NbtTag)
    ensures
        is_wrapper(tag_model(t)) == is_wrapping(t),
{
    if let NbtTag::Compound(c) = t {
        lemma_entries_model(c.child_tags@);
    }
}

/// What a list of mixed types reads one element as: a compound as it is, any other tag as a
/// compound that wraps it.
pub open spec fn wrapped_model(m: SpecTag) -> SpecTag {
    if m is Compound {
        m
    } else {
        SpecTag::Compound(seq![(Seq::<char>::empty(), m)])
    }
}

/// Where no element looks like a wrapper, reading a list leaves its elements as they are.
proof fn lemma_unwrap_plain(l: Seq<NbtTag>)
    requires
        forall|i: int| 0 <= i < l.len() ==> !is_wrapping(#[trigger] l[i]),
    ensures
        unwrap_singletons(list_model(l)) == list_model(l),
{
    lemma_list_model(l);
    let m = list_model(l);
    assert forall|i: int| 0 <= i < m.len() implies !is_wrapper(#[trigger] m[i]) by {
        lemma_wrapper_model(l[i]);
    }
}

/// A list of mixed types, read back, gives each wrapped element its child again.
proof fn lemma_unwrap_mixed(l: Seq<NbtTag>)
    requires
        !all_of_type(l, list_element_type(l)),
        forall|i: int| 0 <= i < l.len() ==> !is_wrapping(#[trigger] l[i]),
    ensures
        unwrap_singletons(list_model(l).map_values(|m: SpecTag| wrapped_model(m))) == list_model(l),
{
    lemma_list_model(l);
    let m = list_model(l);
    let w = m.map_values(|m: SpecTag| wrapped_model(m));
    let j = choose|j: int| 0 <= j < l.len() && #[trigger] l[j].type_id() != list_element_type(l);
    assert(l.len() != 0);
    if l[j] is Compound {
        assert(l[0].type_id() != l[j].type_id());
        assert(!(l[0] is Compound));
        assert(is_wrapper(w[0]));
    } else {
        assert(is_wrapper(w[j]));
    }
    assert forall|i: int| 0 <= i < w.len() implies #[trigger] w[i] is Compound by {}
    assert forall|i: int| 0 <= i < w.len() implies #[trigger] unwrapped(w[i]) == m[i] by {
        lemma_wrapper_model(l[i]);
    }
    assert(w.map_values(|t: SpecTag| unwrapped(t)) =~= m);
}

/// Reading the binary form of a number gives back the number.
#[verifier::spinoff_prover]
#[verifier::rlimit(40)]
proof fn lemma_number_reads_back(tag: NbtTag, rest: Seq<u8>)
    requires
        writes_back(tag),
        tag is End || tag is Byte || tag is Short || tag is Int || tag is Long || tag is Float
            || tag is Double,
    ensures
        decode_data(data_bytes(tag) + rest, tag.type_id()) == Decoded::Done(
            tag_model(tag),
            data_bytes(tag).len() as int,
        ),
{
    let c = data_bytes(tag) + rest;
    match tag {
        NbtTag::End => {},
        NbtTag::Byte(x) => {
            assert((x as u8) as i8 == x) by (bit_vector);
        },
        NbtTag::Short(x) => {
            assert(c.subrange(0, 2) =~= be16(x as u16));
            lemma_be16_reads_back(x as u16, c, 0);
            assert((x as u16) as i16 == x) by (bit_vector);
        },
        NbtTag::Int(x) => {
            assert(c.subrange(0, 4) =~= be32(x as u32));
            lemma_be32_reads_back(x as u32, c, 0);
            assert((x as u32) as i32 == x) by (bit_vector);
        },
        NbtTag::Long(x) => {
            assert(c.subrange(0, 8) =~= be64(x as u64));
            lemma_be64_reads_back(x as u64, c, 0);
            assert((x as u64) as i64 == x) by (bit_vector);
        },
        NbtTag::Float(bits) => {
            assert(c.subrange(0, 4) =~= be32(bits));
            lemma_be32_reads_back(bits, c, 0);
        },
        NbtTag::Double(bits) => {
            assert(c.subrange(0, 8) =~= be64(bits));
            lemma_be64_reads_back(bits, c, 0);
        },
        _ => {},
    }
}

/// Reading the binary form of an array or a string gives it back.
#[verifier::spinoff_prover]
#[verifier::rlimit(40)]
proof fn lemma_array_reads_back(tag: NbtTag, rest: Seq<u8>)
    requires
        writes_back(tag),
        tag is ByteArray || tag is String || tag is IntArray || tag is LongArray,
    ensures
        decode_data(data_bytes(tag) + rest, tag.type_id()) == Decoded::Done(
            tag_model(tag),
            data_bytes(tag).len() as int,
        ),
{
    let c = data_bytes(tag) + rest;
    match tag {
        NbtTag::ByteArray(b) => {
            let n = bytes_view(b).len();
            assert(c.subrange(0, 4) =~= count_bytes(n));
            lemma_count_reads_back(n, c, 0);
            assert(c.subrange(4, 4 + n as int) =~= bytes_view(b));
        },
        NbtTag::String(s) => {
            lemma_string_reads_back(s@, rest);
        },
        NbtTag::IntArray(v) => {
            let n = v@.len();
            assert(c.subrange(0, 4) =~= count_bytes(n));
            lemma_count_reads_back(n, c, 0);
            lemma_ints_bytes(v@);
            assert forall|i: int| 0 <= i < n implies #[trigger] ints_at(c, 4, n as int)[i] == v@[i] by {
                assert(c.subrange(4 + 4 * i, 4 + 4 * i + 4) =~= ints_bytes(v@).subrange(
                    4 * i,
                    4 * i + 4,
                ));
                lemma_be32_reads_back(v@[i] as u32, c, 4 + 4 * i);
                let x = v@[i];
                assert((x as u32) as i32 == x) by (bit_vector);
            }
            assert(ints_at(c, 4, n as int) =~= v@);
        },
        NbtTag::LongArray(v) => {
            let n = v@.len();
            assert(c.subrange(0, 4) =~= count_bytes(n));
            lemma_count_reads_back(n, c, 0);
            lemma_longs_bytes(v@);
            assert forall|i: int| 0 <= i < n implies #[trigger] longs_at(c, 4, n as int)[i] == v@[i] by {
                assert(c.subrange(4 + 8 * i, 4 + 8 * i + 8) =~= longs_bytes(v@).subrange(
                    8 * i,
                    8 * i + 8,
                ));
                lemma_be64_reads_back(v@[i] as u64, c, 4 + 8 * i);
                let x = v@[i];
                assert((x as u64) as i64 == x) by (bit_vector);
            }
            assert(longs_at(c, 4, n as int) =~= v@);
        },
        _ => {},
    }
}

/// Reading the payload of a tag, as its type, gives back the tag and takes just the bytes
/// that writing it wrote, whatever follows them.
#[verifier::spinoff_prover]
pub proof fn lemma_data_reads_back(tag: NbtTag, rest: Seq<u8>)
    requires
        writes_back(tag),
    ensures
        decode_data(data_bytes(tag) + rest, tag.type_id()) == Decoded::Done(
            tag_model(tag),
            data_bytes(tag).len() as int,
        ),
    decreases tag, 1int,
{
    match tag {
        NbtTag::List(l) => {
            lemma_list_reads_back(tag, l@, rest);
        },
        NbtTag::Compound(comp) => {
            assert(decreases_to!(tag => comp));
            assert(decreases_to!(comp => comp.child_tags));
            assert(decreases_to!(comp.child_tags => comp.child_tags@));
            assert(data_bytes(tag) + rest =~= entries_bytes(comp.child_tags@) + (seq![END_ID]
                + rest));
            lemma_entries_reads_back(comp.child_tags@, rest);
        },
        NbtTag::ByteArray(_) | NbtTag::String(_) | NbtTag::IntArray(_) | NbtTag::LongArray(_) => {
            lemma_array_reads_back(tag, rest);
        },
        _ => {
            lemma_number_reads_back(tag, rest);
        },
    }
}

/// Reading the binary form of a list gives back the list.
#[verifier::spinoff_prover]
#[verifier::rlimit(40)]
proof fn lemma_list_reads_back(tag: NbtTag, l: Seq<NbtTag>, rest: Seq<u8>)
    requires
        tag matches NbtTag::List(v) && v@ == l,
        writes_back(tag),
    ensures
        decode_data(data_bytes(tag) + rest, tag.type_id()) == Decoded::Done(
            tag_model(tag),
            data_bytes(tag).len() as int,
        ),
    decreases tag, 0int,
{
    let c = data_bytes(tag) + rest;
    let v = tag->List_0;
    assert(decreases_to!(tag => v));
    assert(decreases_to!(v => v@));
    let n = l.len();
    let ty = list_element_type(l);
    if all_of_type(l, ty) {
        assert(c[0] == ty);
        assert(c.subrange(1, 5) =~= count_bytes(n));
        lemma_count_reads_back(n, c, 1);
        assert(c.skip(5) =~= elements_bytes(l) + rest);
        lemma_elements_reads_back(l, ty, rest);
        lemma_unwrap_plain(l);
    } else {
        assert(c[0] == COMPOUND_ID);
        assert(c.subrange(1, 5) =~= count_bytes(n));
        lemma_count_reads_back(n, c, 1);
        assert(c.skip(5) =~= wrapped_elements_bytes(l) + rest);
        lemma_wrapped_reads_back(l, rest);
        lemma_unwrap_mixed(l);
    }
}


/// Reading the payloads of the tags of `l`, all of type `ty`, gives back their contents.
#[verifier::spinoff_prover]
#[verifier::rlimit(40)]
proof fn lemma_elements_reads_back(l: Seq<NbtTag>, ty: u8, rest: Seq<u8>)
    requires
        forall|i: int| 0 <= i < l.len() ==> writes_back(#[trigger] l[i]) && l[i].type_id() == ty,
    ensures
        decode_elements(elements_bytes(l) + rest, ty, l.len() as int) == Decoded::Done(
            list_model(l),
            elements_bytes(l).len() as int,
        ),
    decreases l, 0int,
{
    if l.len() == 0 {
        assert(elements_bytes(l) + rest =~= rest);
    } else {
        lemma_elements_bytes_front(l);
        lemma_list_model_front(l);
        let tail = l.skip(1);
        let rest2 = elements_bytes(tail) + rest;
        let c = elements_bytes(l) + rest;
        let k = data_bytes(l[0]).len() as int;
        assert(c =~= data_bytes(l[0]) + rest2);
        assert(writes_back(l[0]));
        lemma_data_reads_back(l[0], rest2);
        assert(c.skip(k) =~= rest2);
        assert forall|i: int| 0 <= i < tail.len() implies writes_back(#[trigger] tail[i])
            && tail[i].type_id() == ty by {
            assert(tail[i] == l[i + 1]);
        }
        lemma_elements_reads_back(tail, ty, rest);
        lemma_elements_step(c, ty, l.len() as int);
        assert(seq![tag_model(l[0])] + list_model(tail) == list_model(l));
    }
}

/// Reading the wrapped elements of a list of mixed types gives back each element, a tag
/// that is no compound wrapped in one.
#[verifier::spinoff_prover]
#[verifier::rlimit(40)]
proof fn lemma_wrapped_reads_back(l: Seq<NbtTag>, rest: Seq<u8>)
    requires
        forall|i: int| 0 <= i < l.len() ==> writes_back(#[trigger] l[i]) && !(l[i] is End),
    ensures
        decode_elements(wrapped_elements_bytes(l) + rest, COMPOUND_ID, l.len() as int)
            == Decoded::Done(
            list_model(l).map_values(|m: SpecTag| wrapped_model(m)),
            wrapped_elements_bytes(l).len() as int,
        ),
    decreases l, 0int,
{
    if l.len() == 0 {
        assert(wrapped_elements_bytes(l) + rest =~= rest);
        assert(list_model(l).map_values(|m: SpecTag| wrapped_model(m)) =~= Seq::empty());
    } else {
        lemma_wrapped_bytes_front(l);
        lemma_list_model_front(l);
        let t = l[0];
        let tail = l.skip(1);
        let rest2 = wrapped_elements_bytes(tail) + rest;
        let c = wrapped_elements_bytes(l) + rest;
        assert(c =~= wrapped_bytes(t) + rest2);
        let k = wrapped_bytes(t).len() as int;
        if t is Compound {
            lemma_data_reads_back(t, rest2);
        } else {
            let d = data_bytes(t);
            let after_name = d + (seq![END_ID] + rest2);
            assert(c =~= seq![t.type_id()] + (be16(0) + after_name));
            assert(c.skip(1) =~= be16(0) + after_name);
            assert(c.skip(1).subrange(0, 2) =~= be16(0));
            lemma_be16_reads_back(0, c.skip(1), 0);
            lemma_empty_decoding();
            assert(c.skip(1).subrange(2, 2) =~= Seq::<u8>::empty());
            assert(decode_string(c.skip(1)) == Decoded::Done(Seq::<char>::empty(), 2));
            assert(c.skip(3) =~= after_name);
            lemma_data_reads_back(t, seq![END_ID] + rest2);
            assert(c.skip(1int + 2) =~= after_name);
            assert(c.skip(3 + d.len() as int) =~= seq![END_ID] + rest2);
            lemma_entries_step(c);
            assert(decode_entries(c.skip(3 + d.len() as int)) == Decoded::Done(
                Seq::<(Seq<char>, SpecTag)>::empty(),
                1,
            ));
            assert(seq![(Seq::<char>::empty(), tag_model(t))] + Seq::<(Seq<char>, SpecTag)>::empty()
                =~= seq![(Seq::<char>::empty(), tag_model(t))]);
        }
        assert(c.skip(k) =~= rest2);
        assert forall|i: int| 0 <= i < tail.len() implies writes_back(#[trigger] tail[i])
            && !(tail[i] is End) by {
            assert(tail[i] == l[i + 1]);
        }
        lemma_wrapped_reads_back(tail, rest);
        lemma_elements_step(c, COMPOUND_ID, l.len() as int);
        assert(list_model(l).map_values(|m: SpecTag| wrapped_model(m)) =~= seq![
            wrapped_model(tag_model(t)),
        ] + list_model(tail).map_values(|m: SpecTag| wrapped_model(m)));
    }
}

/// Reading the children of a compound, up to the `End` id, gives back their names and
/// contents.
#[verifier::spinoff_prover]
#[verifier::rlimit(40)]
proof fn lemma_entries_reads_back(e: Seq<(String, NbtTag)>, rest: Seq<u8>)
    requires
        forall|i: int|
            0 <= i < e.len() ==> string_writes_back(#[trigger] e[i].0@) && !(e[i].1 is End)
                && writes_back(e[i].1),
    ensures
        decode_entries(entries_bytes(e) + (seq![END_ID] + rest)) == Decoded::Done(
            entries_model(e),
            entries_bytes(e).len() + 1int,
        ),
    decreases e, 0int,
{
    let c = entries_bytes(e) + (seq![END_ID] + rest);
    if e.len() == 0 {
        assert(c =~= seq![END_ID] + rest);
    } else {
        let x = e[0];
        let tail = e.skip(1);
        let rest2 = entries_bytes(tail) + (seq![END_ID] + rest);
        let p = string_payload(x.0@);
        let d = data_bytes(x.1);
        assert(string_writes_back(e[0].0@));
        assert(c =~= seq![x.1.type_id()] + (p + (d + rest2))) by {
            lemma_entries_bytes_front(e);
        }
        assert(c.skip(1) =~= p + (d + rest2));
        lemma_string_reads_back(x.0@, d + rest2);
        assert(c.skip(1 + p.len() as int) =~= d + rest2);
        assert(decreases_to!(e => e[0]));
        lemma_data_reads_back(x.1, rest2);
        assert(c.skip(1 + p.len() as int).skip(d.len() as int) =~= rest2);
        assert(c.skip(1 + p.len() + d.len() as int) =~= rest2);
        assert forall|i: int| 0 <= i < tail.len() implies string_writes_back(#[trigger] tail[i].0@)
            && !(tail[i].1 is End) && writes_back(tail[i].1) by {
            assert(tail[i] == e[i + 1]);
        }
        lemma_entries_reads_back(tail, rest);
        lemma_entries_step(c);
        assert(entries_model(e) == seq![(x.0@, tag_model(x.1))] + entries_model(tail)) by {
            lemma_entries_model_front(e);
        }
        assert(entries_bytes(e).len() == 1 + p.len() + d.len() + entries_bytes(tail).len()) by {
            lemma_entries_bytes_front(e);
        }
    }
}

} // verus!

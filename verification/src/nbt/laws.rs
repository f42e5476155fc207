//! What the NBT format fixes, stated over all inputs: the type id of each kind of tag, the
//! big-endian layout of numbers, and the order of tags.
use vstd::prelude::*;
use crate::error::Error;
use crate::nbt::buffers::{be32, be64, bytes_view};
use crate::nbt::cesu8::{cesu8_decoding, cesu8_encoding};
use crate::nbt::reading::{be_u16_at, be_u32_at, be_u64_at};
use crate::nbt::tag::{all_of_type, elements_bytes, entries_bytes, ints_bytes, longs_bytes};
use crate::nbt::compound::NbtCompound;
use crate::nbt::snbt::de::integers::parse_integer;
use crate::nbt::uuid::{dashes, uuid_outcome, UuidOutcome};
use crate::nbt::deserialize::{decode_data, Decoded};
use crate::nbt::order::{
    bytes_ints, codes, entries_order, i32_ints, i64_ints, lemma_tag_order_equal, lex_order,
    list_order, tag_order,
};
use crate::nbt::tag::{
    data_bytes, tag_model, NbtTag, SpecTag, BYTE_ARRAY_ID, BYTE_ID, COMPOUND_ID, DOUBLE_ID,
    END_ID, FLOAT_ID, INT_ARRAY_ID, INT_ID, LIST_ID, LONG_ARRAY_ID, LONG_ID, SHORT_ID, STRING_ID,
};

verus! {

// ---------------------------------------------------------------------------------------
// Type ids
// ---------------------------------------------------------------------------------------

/// The type ids of the NBT format: `End` 0, `Byte` 1, `Short` 2, `Int` 3, `Long` 4, `Float`
/// 5, `Double` 6, byte array 7, `String` 8, `List` 9, `Compound` 10, int array 11, long
/// array 12; a tag and its content have the same one.
pub proof fn lemma_type_ids(t: NbtTag)
    ensures
        END_ID == 0 && BYTE_ID == 1 && SHORT_ID == 2 && INT_ID == 3 && LONG_ID == 4 && FLOAT_ID
            == 5 && DOUBLE_ID == 6 && BYTE_ARRAY_ID == 7 && STRING_ID == 8 && LIST_ID == 9
            && COMPOUND_ID == 10 && INT_ARRAY_ID == 11 && LONG_ARRAY_ID == 12,
        t.type_id() == tag_model(t).type_id(),
        t is End ==> t.type_id() == 0,
        t is Byte ==> t.type_id() == 1,
        t is Short ==> t.type_id() == 2,
        t is Int ==> t.type_id() == 3,
        t is Long ==> t.type_id() == 4,
        t is Float ==> t.type_id() == 5,
        t is Double ==> t.type_id() == 6,
        t is ByteArray ==> t.type_id() == 7,
        t is String ==> t.type_id() == 8,
        t is List ==> t.type_id() == 9,
        t is Compound ==> t.type_id() == 10,
        t is IntArray ==> t.type_id() == 11,
        t is LongArray ==> t.type_id() == 12,
{
}

/// Reading the payload of type `id` gives, where it succeeds, a tag of that type.
pub proof fn lemma_decoded_type(c: Seq<u8>, id: u8)
    ensures
        decode_data(c, id) matches Decoded::Done(t, _) ==> t.type_id() == id,
{
}

// ---------------------------------------------------------------------------------------
// Numbers
// ---------------------------------------------------------------------------------------

/// The two bytes of `v`, most significant first.
pub open spec fn two_bytes(v: u16) -> Seq<u8> {
    seq![(v / 0x100) as u8, (v % 0x100) as u8]
}

/// The four bytes of `v`, most significant first.
pub open spec fn four_bytes(v: u32) -> Seq<u8> {
    seq![
        (v / 0x100_0000) as u8,
        ((v / 0x1_0000) % 0x100) as u8,
        ((v / 0x100) % 0x100) as u8,
        (v % 0x100) as u8,
    ]
}

/// The eight bytes of `v`, most significant first.
pub open spec fn eight_bytes(v: u64) -> Seq<u8> {
    seq![
        (v / 0x100_0000_0000_0000) as u8,
        ((v / 0x1_0000_0000_0000) % 0x100) as u8,
        ((v / 0x100_0000_0000) % 0x100) as u8,
        ((v / 0x1_0000_0000) % 0x100) as u8,
        ((v / 0x100_0000) % 0x100) as u8,
        ((v / 0x1_0000) % 0x100) as u8,
        ((v / 0x100) % 0x100) as u8,
        (v % 0x100) as u8,
    ]
}

proof fn lemma_four_bytes(v: u32)
    ensures
        crate::nbt::buffers::be32(v) == four_bytes(v),
{
    assert((((v / 0x1_0000u32) as u16) / 0x100u16) as u8 == (v / 0x100_0000u32) as u8) by (bit_vector);
    assert((((v / 0x1_0000u32) as u16) % 0x100u16) as u8 == ((v / 0x1_0000u32) % 0x100u32) as u8)
        by (bit_vector);
    assert((((v % 0x1_0000u32) as u16) / 0x100u16) as u8 == ((v / 0x100u32) % 0x100u32) as u8)
        by (bit_vector);
    assert((((v % 0x1_0000u32) as u16) % 0x100u16) as u8 == (v % 0x100u32) as u8) by (bit_vector);
    assert(crate::nbt::buffers::be32(v) =~= four_bytes(v));
}

proof fn lemma_eight_bytes(v: u64)
    ensures
        crate::nbt::buffers::be64(v) == eight_bytes(v),
{
    let hi = (v / 0x1_0000_0000u64) as u32;
    let lo = (v % 0x1_0000_0000u64) as u32;
    lemma_four_bytes(hi);
    lemma_four_bytes(lo);
    assert((((v / 0x1_0000_0000u64) as u32) / 0x100_0000u32) as u8 == (v / 0x100_0000_0000_0000u64) as u8)
        by (bit_vector);
    assert(((((v / 0x1_0000_0000u64) as u32) / 0x1_0000u32) % 0x100u32) as u8 == ((v
        / 0x1_0000_0000_0000u64) % 0x100u64) as u8) by (bit_vector);
    assert(((((v / 0x1_0000_0000u64) as u32) / 0x100u32) % 0x100u32) as u8 == ((v
        / 0x100_0000_0000u64) % 0x100u64) as u8) by (bit_vector);
    assert((((v / 0x1_0000_0000u64) as u32) % 0x100u32) as u8 == ((v / 0x1_0000_0000u64)
        % 0x100u64) as u8) by (bit_vector);
    assert((((v % 0x1_0000_0000u64) as u32) / 0x100_0000u32) as u8 == ((v / 0x100_0000u64)
        % 0x100u64) as u8) by (bit_vector);
    assert(((((v % 0x1_0000_0000u64) as u32) / 0x1_0000u32) % 0x100u32) as u8 == ((v
        / 0x1_0000u64) % 0x100u64) as u8) by (bit_vector);
    assert(((((v % 0x1_0000_0000u64) as u32) / 0x100u32) % 0x100u32) as u8 == ((v / 0x100u64)
        % 0x100u64) as u8) by (bit_vector);
    assert((((v % 0x1_0000_0000u64) as u32) % 0x100u32) as u8 == (v % 0x100u64) as u8)
        by (bit_vector);
    assert(crate::nbt::buffers::be64(v) =~= eight_bytes(v));
}

/// A number is written as its bytes, most significant first: a byte as itself, a short in
/// two bytes, an int and a float's bits in four, a long and a double's bits in eight.
pub proof fn lemma_number_layout(t: NbtTag)
    ensures
        t matches NbtTag::Byte(x) ==> data_bytes(t) == seq![x as u8],
        t matches NbtTag::Short(x) ==> data_bytes(t) == two_bytes(x as u16),
        t matches NbtTag::Int(x) ==> data_bytes(t) == four_bytes(x as u32),
        t matches NbtTag::Long(x) ==> data_bytes(t) == eight_bytes(x as u64),
        t matches NbtTag::Float(bits) ==> data_bytes(t) == four_bytes(bits),
        t matches NbtTag::Double(bits) ==> data_bytes(t) == eight_bytes(bits),
{
    match t {
        NbtTag::Short(x) => {
            assert(data_bytes(t) =~= two_bytes(x as u16));
        },
        NbtTag::Int(x) => lemma_four_bytes(x as u32),
        NbtTag::Long(x) => lemma_eight_bytes(x as u64),
        NbtTag::Float(bits) => lemma_four_bytes(bits),
        NbtTag::Double(bits) => lemma_eight_bytes(bits),
        _ => {},
    }
}

/// The value of the first `n` bytes of `c`, most significant first.
pub open spec fn big_endian(c: Seq<u8>, n: int) -> int
    decreases n,
{
    if n <= 0 {
        0
    } else {
        big_endian(c, n - 1) * 0x100 + c[n - 1]
    }
}

/// A number is read from its bytes, most significant first: the bytes that its width takes,
/// or `Incomplete` where fewer are left.
pub proof fn lemma_number_reading(c: Seq<u8>)
    ensures
        c.len() >= 1 ==> decode_data(c, BYTE_ID) == Decoded::Done(SpecTag::Byte(c[0] as i8), 1),
        c.len() >= 2 ==> decode_data(c, SHORT_ID) == Decoded::Done(
            SpecTag::Short(big_endian(c, 2) as i16),
            2,
        ),
        c.len() >= 4 ==> decode_data(c, INT_ID) == Decoded::Done(
            SpecTag::Int(big_endian(c, 4) as i32),
            4,
        ),
        c.len() >= 8 ==> decode_data(c, LONG_ID) == Decoded::Done(
            SpecTag::Long(big_endian(c, 8) as i64),
            8,
        ),
        c.len() >= 4 ==> decode_data(c, FLOAT_ID) == Decoded::Done(
            SpecTag::Float(big_endian(c, 4) as u32),
            4,
        ),
        c.len() >= 8 ==> decode_data(c, DOUBLE_ID) == Decoded::Done(
            SpecTag::Double(big_endian(c, 8) as u64),
            8,
        ),
        c.len() < 1 ==> decode_data(c, BYTE_ID) == Decoded::<SpecTag>::Failed(Error::Incomplete, 0),
        c.len() < 2 ==> decode_data(c, SHORT_ID) == Decoded::<SpecTag>::Failed(Error::Incomplete, 0),
        c.len() < 4 ==> decode_data(c, INT_ID) == Decoded::<SpecTag>::Failed(Error::Incomplete, 0),
        c.len() < 8 ==> decode_data(c, LONG_ID) == Decoded::<SpecTag>::Failed(Error::Incomplete, 0),
        c.len() < 4 ==> decode_data(c, FLOAT_ID) == Decoded::<SpecTag>::Failed(Error::Incomplete, 0),
        c.len() < 8 ==> decode_data(c, DOUBLE_ID) == Decoded::<SpecTag>::Failed(Error::Incomplete, 0),
{
    reveal_with_fuel(big_endian, 9);
}

/// The bytes of an int array's numbers: four for each, most significant first.
proof fn lemma_ints_bytes(v: Seq<i32>)
    ensures
        ints_bytes(v).len() == 4 * v.len(),
        forall|k: int|
            0 <= k < v.len() ==> #[trigger] ints_bytes(v).subrange(4 * k, 4 * k + 4) == four_bytes(
                v[k] as u32,
            ),
    decreases v.len(),
{
    if v.len() > 0 {
        let p = v.drop_last();
        lemma_ints_bytes(p);
        lemma_four_bytes(v.last() as u32);
        assert forall|k: int| 0 <= k < v.len() implies #[trigger] ints_bytes(v).subrange(
            4 * k,
            4 * k + 4,
        ) == four_bytes(v[k] as u32) by {
            if k < p.len() {
                assert(ints_bytes(v).subrange(4 * k, 4 * k + 4) =~= ints_bytes(p).subrange(
                    4 * k,
                    4 * k + 4,
                ));
                assert(p[k] == v[k]);
            } else {
                assert(ints_bytes(v).subrange(4 * k, 4 * k + 4) =~= be32(v.last() as u32));
            }
        }
    }
}

/// The bytes of a long array's numbers: eight for each, most significant first.
proof fn lemma_longs_bytes(v: Seq<i64>)
    ensures
        longs_bytes(v).len() == 8 * v.len(),
        forall|k: int|
            0 <= k < v.len() ==> #[trigger] longs_bytes(v).subrange(8 * k, 8 * k + 8)
                == eight_bytes(v[k] as u64),
    decreases v.len(),
{
    if v.len() > 0 {
        let p = v.drop_last();
        lemma_longs_bytes(p);
        lemma_eight_bytes(v.last() as u64);
        assert forall|k: int| 0 <= k < v.len() implies #[trigger] longs_bytes(v).subrange(
            8 * k,
            8 * k + 8,
        ) == eight_bytes(v[k] as u64) by {
            if k < p.len() {
                assert(longs_bytes(v).subrange(8 * k, 8 * k + 8) =~= longs_bytes(p).subrange(
                    8 * k,
                    8 * k + 8,
                ));
                assert(p[k] == v[k]);
            } else {
                assert(longs_bytes(v).subrange(8 * k, 8 * k + 8) =~= be64(v.last() as u64));
            }
        }
    }
}

/// A count that an `i32` holds is written as its four bytes, most significant first.
proof fn lemma_count_bytes(n: nat)
    requires
        n <= i32::MAX,
    ensures
        crate::nbt::tag::count_bytes(n) == four_bytes(n as u32),
{
    assert((n as i32) as u32 == n as u32);
    lemma_four_bytes(n as u32);
}

/// A string is written as the length of its CESU-8 encoding, in two bytes, most significant
/// first, then the encoding; an array as its length, in four bytes, most significant first,
/// then its items: a byte array's bytes, an int array's numbers in four bytes each, a long
/// array's in eight, each most significant first.
pub proof fn lemma_string_and_array_layout(t: NbtTag)
    ensures
        t matches NbtTag::String(s) ==> data_bytes(t) == two_bytes(
            cesu8_encoding(s@).len() as u16,
        ) + cesu8_encoding(s@),
        t matches NbtTag::ByteArray(b) ==> (bytes_view(b).len() <= i32::MAX ==> data_bytes(t)
            == four_bytes(bytes_view(b).len() as u32) + bytes_view(b)),
        t matches NbtTag::IntArray(v) ==> (v@.len() <= i32::MAX ==> {
            &&& data_bytes(t).len() == 4 + 4 * v@.len()
            &&& data_bytes(t).take(4) == four_bytes(v@.len() as u32)
            &&& forall|k: int|
                0 <= k < v@.len() ==> #[trigger] data_bytes(t).subrange(4 + 4 * k, 8 + 4 * k)
                    == four_bytes(v@[k] as u32)
        }),
        t matches NbtTag::LongArray(v) ==> (v@.len() <= i32::MAX ==> {
            &&& data_bytes(t).len() == 4 + 8 * v@.len()
            &&& data_bytes(t).take(4) == four_bytes(v@.len() as u32)
            &&& forall|k: int|
                0 <= k < v@.len() ==> #[trigger] data_bytes(t).subrange(4 + 8 * k, 12 + 8 * k)
                    == eight_bytes(v@[k] as u64)
        }),
{
    match t {
        NbtTag::String(s) => {
            let e = cesu8_encoding(s@);
            assert(data_bytes(t) =~= two_bytes(e.len() as u16) + e);
        },
        NbtTag::ByteArray(b) => {
            if bytes_view(b).len() <= i32::MAX {
                lemma_count_bytes(bytes_view(b).len());
            }
        },
        NbtTag::IntArray(v) => {
            if v@.len() <= i32::MAX {
                lemma_count_bytes(v@.len());
                lemma_ints_bytes(v@);
                let d = data_bytes(t);
                assert(d == four_bytes(v@.len() as u32) + ints_bytes(v@));
                assert(d.take(4) =~= four_bytes(v@.len() as u32));
                assert forall|k: int| 0 <= k < v@.len() implies #[trigger] d.subrange(
                    4 + 4 * k,
                    8 + 4 * k,
                ) == four_bytes(v@[k] as u32) by {
                    assert(d.subrange(4 + 4 * k, 8 + 4 * k) =~= ints_bytes(v@).subrange(
                        4 * k,
                        4 * k + 4,
                    ));
                }
            }
        },
        NbtTag::LongArray(v) => {
            if v@.len() <= i32::MAX {
                lemma_count_bytes(v@.len());
                lemma_longs_bytes(v@);
                let d = data_bytes(t);
                assert(d == four_bytes(v@.len() as u32) + longs_bytes(v@));
                assert(d.take(4) =~= four_bytes(v@.len() as u32));
                assert forall|k: int| 0 <= k < v@.len() implies #[trigger] d.subrange(
                    4 + 8 * k,
                    12 + 8 * k,
                ) == eight_bytes(v@[k] as u64) by {
                    assert(d.subrange(4 + 8 * k, 12 + 8 * k) =~= longs_bytes(v@).subrange(
                        8 * k,
                        8 * k + 8,
                    ));
                }
            }
        },
        _ => {},
    }
}

proof fn lemma_big_endian_at(c: Seq<u8>, p: int)
    requires
        0 <= p,
        p + 8 <= c.len(),
    ensures
        be_u16_at(c, p) == big_endian(c.skip(p), 2),
        be_u32_at(c, p) == big_endian(c.skip(p), 4),
        be_u64_at(c, p) == big_endian(c.skip(p), 8),
{
    reveal_with_fuel(big_endian, 9);
}

proof fn lemma_big_endian_at4(c: Seq<u8>, p: int)
    requires
        0 <= p,
        p + 4 <= c.len(),
    ensures
        be_u16_at(c, p) == big_endian(c.skip(p), 2),
        be_u32_at(c, p) == big_endian(c.skip(p), 4),
{
    reveal_with_fuel(big_endian, 5);
}

/// A string is read as a two-byte length, most significant first, and that many bytes of
/// CESU-8; an array as a four-byte length, most significant first, and that many items: a
/// byte array's bytes, an int array's numbers of four bytes each and a long array's of
/// eight, each most significant first.
pub proof fn lemma_string_and_array_reading(c: Seq<u8>)
    ensures
        ({
            let n = big_endian(c, 2);
            c.len() >= 2 && 2 + n <= c.len() && cesu8_decoding(c.subrange(2, 2 + n)) is Some
                ==> decode_data(c, STRING_ID) == Decoded::Done(
                SpecTag::String(cesu8_decoding(c.subrange(2, 2 + n))->0),
                2 + n,
            )
        }),
        ({
            let n = big_endian(c, 4) as i32 as int;
            c.len() >= 4 && 0 <= n && 4 + n <= c.len() ==> decode_data(c, BYTE_ARRAY_ID)
                == Decoded::Done(SpecTag::ByteArray(c.subrange(4, 4 + n)), 4 + n)
        }),
        ({
            let n = big_endian(c, 4) as i32 as int;
            c.len() >= 4 && 0 <= n && 4 + 4 * n <= c.len() ==> decode_data(c, INT_ARRAY_ID)
                == Decoded::Done(
                SpecTag::IntArray(
                    Seq::new(n as nat, |i: int| big_endian(c.skip(4 + 4 * i), 4) as i32),
                ),
                4 + 4 * n,
            )
        }),
        ({
            let n = big_endian(c, 4) as i32 as int;
            c.len() >= 4 && 0 <= n && 4 + 8 * n <= c.len() ==> decode_data(c, LONG_ARRAY_ID)
                == Decoded::Done(
                SpecTag::LongArray(
                    Seq::new(n as nat, |i: int| big_endian(c.skip(4 + 8 * i), 8) as i64),
                ),
                4 + 8 * n,
            )
        }),
{
    reveal_with_fuel(big_endian, 5);
    if c.len() >= 4 {
        let n = big_endian(c, 4) as i32 as int;
        if 0 <= n && 4 + 4 * n <= c.len() {
            let a = crate::nbt::deserialize::ints_at(c, 4, n);
            assert forall|i: int| 0 <= i < n implies #[trigger] a[i] == big_endian(
                c.skip(4 + 4 * i),
                4,
            ) as i32 by {
                lemma_big_endian_at4(c, 4 + 4 * i);
            }
            assert(a =~= Seq::new(n as nat, |i: int| big_endian(c.skip(4 + 4 * i), 4) as i32));
        }
        if 0 <= n && 4 + 8 * n <= c.len() {
            let a = crate::nbt::deserialize::longs_at(c, 4, n);
            assert forall|i: int| 0 <= i < n implies #[trigger] a[i] == big_endian(
                c.skip(4 + 8 * i),
                8,
            ) as i64 by {
                lemma_big_endian_at(c, 4 + 8 * i);
            }
            assert(a =~= Seq::new(n as nat, |i: int| big_endian(c.skip(4 + 8 * i), 8) as i64));
        }
    }
}

/// The payload of a compound is its children, each as its type id, its name (a two-byte
/// length, most significant first, and the CESU-8 encoding) and its payload, then the `End`
/// id 0: an empty compound is the one byte 0, and a child added at the end comes just before
/// that byte.
pub proof fn lemma_compound_layout(c1: NbtCompound, c2: NbtCompound, name: String, t: NbtTag)
    ensures
        c1.child_tags@.len() == 0 ==> data_bytes(NbtTag::Compound(c1)) == seq![0u8],
        c2.child_tags@ == c1.child_tags@.push((name, t)) ==> data_bytes(NbtTag::Compound(c2))
            == data_bytes(NbtTag::Compound(c1)).drop_last() + seq![t.type_id()] + two_bytes(
            cesu8_encoding(name@).len() as u16,
        ) + cesu8_encoding(name@) + data_bytes(t) + seq![0u8],
{
    if c1.child_tags@.len() == 0 {
        assert(data_bytes(NbtTag::Compound(c1)) =~= seq![0u8]);
    }
    if c2.child_tags@ == c1.child_tags@.push((name, t)) {
        let e1 = c1.child_tags@;
        let e2 = c2.child_tags@;
        assert(e2.subrange(0, e2.len() - 1) =~= e1);
        assert(entries_bytes(e2) == entries_bytes(e1) + seq![t.type_id()]
            + crate::nbt::tag::string_payload(name@) + data_bytes(t));
        assert((entries_bytes(e1) + seq![0u8]).drop_last() =~= entries_bytes(e1));
        assert(data_bytes(NbtTag::Compound(c2)) =~= data_bytes(NbtTag::Compound(c1)).drop_last()
            + seq![t.type_id()] + two_bytes(cesu8_encoding(name@).len() as u16) + cesu8_encoding(
            name@,
        ) + data_bytes(t) + seq![0u8]);
    }
}

/// A list whose elements are all of one type is written as that type id (0 for an empty
/// list), its length in four bytes, most significant first, and the payloads of its
/// elements, one after another: an element added at the end adds its payload at the end.
pub proof fn lemma_list_layout(l1: Vec<NbtTag>, l2: Vec<NbtTag>, x: NbtTag)
    ensures
        l1@.len() == 0 ==> data_bytes(NbtTag::List(l1)) == seq![0u8, 0, 0, 0, 0],
        ({
            let ty = if l1@.len() == 0 {
                0u8
            } else {
                l1@[0].type_id()
            };
            all_of_type(l1@, ty) && l1@.len() <= i32::MAX ==> data_bytes(NbtTag::List(l1)).take(5)
                == seq![ty] + four_bytes(l1@.len() as u32)
        }),
        ({
            let ty = x.type_id();
            l2@ == l1@.push(x) && all_of_type(l2@, ty) ==> data_bytes(NbtTag::List(l2)).skip(5) == (
            if l1@.len() == 0 {
                Seq::empty()
            } else {
                data_bytes(NbtTag::List(l1)).skip(5)
            }) + data_bytes(x)
        }),
{
    let s1 = l1@;
    let s2 = l2@;
    let ty1 = if s1.len() == 0 {
        0u8
    } else {
        s1[0].type_id()
    };
    if s1.len() == 0 {
        assert(all_of_type(s1, 0u8));
        lemma_count_bytes(0);
        assert(four_bytes(0) =~= seq![0u8, 0, 0, 0]);
        assert(elements_bytes(s1) =~= Seq::<u8>::empty());
        assert(data_bytes(NbtTag::List(l1)) =~= seq![0u8, 0, 0, 0, 0]);
    }
    if all_of_type(s1, ty1) && s1.len() <= i32::MAX {
        lemma_count_bytes(s1.len());
        assert(data_bytes(NbtTag::List(l1)).take(5) =~= seq![ty1] + four_bytes(s1.len() as u32));
    }
    let ty = x.type_id();
    if s2 == s1.push(x) && all_of_type(s2, ty) {
        assert(s2[0].type_id() == ty);
        assert(s2.subrange(0, s2.len() - 1) =~= s1);
        assert(elements_bytes(s2) == elements_bytes(s1) + data_bytes(x));
        if s1.len() > 0 {
            assert(s1[0] == s2[0]);
            assert(all_of_type(s1, ty)) by {
                assert forall|i: int| 0 <= i < s1.len() implies #[trigger] s1[i].type_id() == ty by {
                    assert(s1[i] == s2[i]);
                }
            }
            assert(data_bytes(NbtTag::List(l1)).skip(5) =~= elements_bytes(s1));
        } else {
            assert(elements_bytes(s1) =~= Seq::<u8>::empty());
        }
        assert(data_bytes(NbtTag::List(l2)).skip(5) =~= elements_bytes(s2));
    }
}

// ---------------------------------------------------------------------------------------
// Truth
// ---------------------------------------------------------------------------------------

/// The value of an integer tag; 0 for any other.
pub open spec fn integer_value_of(t: NbtTag) -> int {
    match t {
        NbtTag::Byte(x) => x as int,
        NbtTag::Short(x) => x as int,
        NbtTag::Int(x) => x as int,
        NbtTag::Long(x) => x as int,
        _ => 0,
    }
}

/// An integer counts as true just where it is not zero; a string, array, list or compound
/// just where it is not empty; `End` never.
pub proof fn lemma_truthiness(t: NbtTag)
    ensures
        t is End ==> !t.truthy(),
        (t is Byte || t is Short || t is Int || t is Long) ==> (t.truthy() <==> integer_value_of(t)
            != 0),
        t matches NbtTag::ByteArray(b) ==> (t.truthy() <==> bytes_view(b).len() > 0),
        t matches NbtTag::String(s) ==> (t.truthy() <==> s@.len() > 0),
        t matches NbtTag::List(l) ==> (t.truthy() <==> l@.len() > 0),
        t matches NbtTag::Compound(c) ==> (t.truthy() <==> c.child_tags@.len() > 0),
        t matches NbtTag::IntArray(v) ==> (t.truthy() <==> v@.len() > 0),
        t matches NbtTag::LongArray(v) ==> (t.truthy() <==> v@.len() > 0),
{
}

/// A float counts as true just where it is at least 1 in magnitude and no NaN: its sign does
/// not matter, 1.0 and infinity are true, the float just below 1.0, zero and NaN are not,
/// and of two magnitudes up to infinity the larger is true where the smaller is.
pub proof fn lemma_float_truthiness(bits: u32, other: u32)
    ensures
        NbtTag::Float(bits).truthy() == NbtTag::Float(bits ^ 0x8000_0000).truthy(),
        NbtTag::Float(0x3f80_0000).truthy(),
        NbtTag::Float(0x7f80_0000).truthy(),
        !NbtTag::Float(0x3f7f_ffff).truthy(),
        !NbtTag::Float(0).truthy(),
        !NbtTag::Float(0x7fc0_0000).truthy(),
        (bits & 0x7fff_ffff) <= (other & 0x7fff_ffff) <= 0x7f80_0000 && NbtTag::Float(bits).truthy()
            ==> NbtTag::Float(other).truthy(),
{
    assert((bits ^ 0x8000_0000u32) & 0x7fff_ffffu32 == bits & 0x7fff_ffffu32) by (bit_vector);
    assert(0x3f80_0000u32 & 0x7fff_ffffu32 == 0x3f80_0000u32) by (bit_vector);
    assert(0x7f80_0000u32 & 0x7fff_ffffu32 == 0x7f80_0000u32) by (bit_vector);
    assert(0x3f7f_ffffu32 & 0x7fff_ffffu32 == 0x3f7f_ffffu32) by (bit_vector);
    assert(0u32 & 0x7fff_ffffu32 == 0u32) by (bit_vector);
    assert(0x7fc0_0000u32 & 0x7fff_ffffu32 == 0x7fc0_0000u32) by (bit_vector);
}

/// A double counts as true just where it is at least 1 in magnitude and no NaN, whatever its
/// sign.
pub proof fn lemma_double_truthiness(bits: u64, other: u64)
    ensures
        NbtTag::Double(bits).truthy() == NbtTag::Double(bits ^ 0x8000_0000_0000_0000).truthy(),
        NbtTag::Double(0x3ff0_0000_0000_0000).truthy(),
        NbtTag::Double(0x7ff0_0000_0000_0000).truthy(),
        !NbtTag::Double(0x3fef_ffff_ffff_ffff).truthy(),
        !NbtTag::Double(0).truthy(),
        !NbtTag::Double(0x7ff8_0000_0000_0000).truthy(),
        (bits & 0x7fff_ffff_ffff_ffff) <= (other & 0x7fff_ffff_ffff_ffff) <= 0x7ff0_0000_0000_0000
            && NbtTag::Double(bits).truthy() ==> NbtTag::Double(other).truthy(),
{
    assert((bits ^ 0x8000_0000_0000_0000u64) & 0x7fff_ffff_ffff_ffffu64 == bits
        & 0x7fff_ffff_ffff_ffffu64) by (bit_vector);
    assert(0x3ff0_0000_0000_0000u64 & 0x7fff_ffff_ffff_ffffu64 == 0x3ff0_0000_0000_0000u64)
        by (bit_vector);
    assert(0x7ff0_0000_0000_0000u64 & 0x7fff_ffff_ffff_ffffu64 == 0x7ff0_0000_0000_0000u64)
        by (bit_vector);
    assert(0x3fef_ffff_ffff_ffffu64 & 0x7fff_ffff_ffff_ffffu64 == 0x3fef_ffff_ffff_ffffu64)
        by (bit_vector);
    assert(0u64 & 0x7fff_ffff_ffff_ffffu64 == 0u64) by (bit_vector);
    assert(0x7ff8_0000_0000_0000u64 & 0x7fff_ffff_ffff_ffffu64 == 0x7ff8_0000_0000_0000u64)
        by (bit_vector);
}

// ---------------------------------------------------------------------------------------
// UUIDs
// ---------------------------------------------------------------------------------------

/// `g` holds no dash.
pub open spec fn dash_free(g: Seq<char>) -> bool {
    forall|i: int| 0 <= i < g.len() ==> #[trigger] g[i] != '-'
}

proof fn lemma_dashes_none(g: Seq<char>)
    requires
        dash_free(g),
    ensures
        dashes(g) == Seq::<int>::empty(),
    decreases g.len(),
{
    if g.len() > 0 {
        assert(dash_free(g.drop_last()));
        lemma_dashes_none(g.drop_last());
    }
}

/// The dashes of `a + b`: those of `a`, then those of `b`, shifted.
proof fn lemma_dashes_append(a: Seq<char>, b: Seq<char>)
    ensures
        dashes(a + b) == dashes(a) + dashes(b).map_values(|i: int| i + a.len()),
    decreases b.len(),
{
    if b.len() == 0 {
        assert(a + b =~= a);
        assert(dashes(a) + dashes(b).map_values(|i: int| i + a.len()) =~= dashes(a));
    } else {
        lemma_dashes_append(a, b.drop_last());
        assert((a + b).drop_last() =~= a + b.drop_last());
        assert((a + b).last() == b.last());
        if b.last() == '-' {
            assert(dashes(b) == dashes(b.drop_last()).push(b.len() - 1));
            assert(dashes(a) + dashes(b).map_values(|i: int| i + a.len()) =~= (dashes(a)
                + dashes(b.drop_last()).map_values(|i: int| i + a.len())).push(
                (a + b).len() - 1,
            ));
        } else {
            assert(dashes(b) == dashes(b.drop_last()));
        }
    }
}

/// `g` followed by a dash has one dash, at its end.
proof fn lemma_group_dash(prefix: Seq<char>, g: Seq<char>)
    requires
        dash_free(g),
    ensures
        dashes(prefix + g + seq!['-']) == dashes(prefix).push((prefix.len() + g.len()) as int),
        dashes(prefix + g) == dashes(prefix),
{
    lemma_dashes_none(g);
    lemma_dashes_append(prefix, g);
    assert(dashes(prefix) + dashes(g).map_values(|i: int| i + prefix.len()) =~= dashes(prefix));
    let p = prefix + g;
    assert((p + seq!['-']).drop_last() =~= p);
    assert(dashes(p + seq!['-']) == dashes(p).push(p.len() as int));
}

/// The text of a UUID: five groups between four dashes.
pub open spec fn uuid_text(
    g0: Seq<char>,
    g1: Seq<char>,
    g2: Seq<char>,
    g3: Seq<char>,
    g4: Seq<char>,
) -> Seq<char> {
    g0 + seq!['-'] + g1 + seq!['-'] + g2 + seq!['-'] + g3 + seq!['-'] + g4
}

#[verifier::spinoff_prover]
proof fn lemma_uuid_groups(g0: Seq<char>, g1: Seq<char>, g2: Seq<char>, g3: Seq<char>, g4: Seq<char>)
    requires
        dash_free(g0) && dash_free(g1) && dash_free(g2) && dash_free(g3) && dash_free(g4),
    ensures
        ({
            let s = uuid_text(g0, g1, g2, g3, g4);
            let d = dashes(s);
            &&& d.len() == 4
            &&& crate::nbt::uuid::group(s, d, 0) == g0
            &&& crate::nbt::uuid::group(s, d, 1) == g1
            &&& crate::nbt::uuid::group(s, d, 2) == g2
            &&& crate::nbt::uuid::group(s, d, 3) == g3
            &&& crate::nbt::uuid::group(s, d, 4) == g4
        }),
{
    let p1 = g0 + seq!['-'];
    let p2 = p1 + g1 + seq!['-'];
    let p3 = p2 + g2 + seq!['-'];
    let p4 = p3 + g3 + seq!['-'];
    let s = p4 + g4;
    assert(s =~= uuid_text(g0, g1, g2, g3, g4));
    lemma_group_dash(Seq::empty(), g0);
    assert(Seq::<char>::empty() + g0 + seq!['-'] =~= p1);
    assert(Seq::<char>::empty() + g0 =~= g0);
    lemma_dashes_none(Seq::<char>::empty());
    lemma_group_dash(p1, g1);
    lemma_group_dash(p2, g2);
    lemma_group_dash(p3, g3);
    lemma_group_dash(p4, g4);
    let d = dashes(s);
    let e0 = g0.len() as int;
    let e1 = (p1.len() + g1.len()) as int;
    let e2 = (p2.len() + g2.len()) as int;
    let e3 = (p3.len() + g3.len()) as int;
    assert(d =~= seq![e0, e1, e2, e3]);
    assert(crate::nbt::uuid::group(s, d, 0) =~= g0);
    assert(crate::nbt::uuid::group(s, d, 1) =~= g1);
    assert(crate::nbt::uuid::group(s, d, 2) =~= g2);
    assert(crate::nbt::uuid::group(s, d, 3) =~= g3);
    assert(crate::nbt::uuid::group(s, d, 4) =~= g4);
}

proof fn lemma_uuid_bits(v0: u64, v1: u64, v2: u64, v3: u64, v4: u64)
    ensures
        crate::nbt::uuid::uuid_ints(v0, v1, v2, v3, v4) matches UuidOutcome::Ints(a, b, c, d) && {
            &&& a as u32 == v0 % 0x1_0000_0000
            &&& b as u32 == (v1 % 0x1_0000) * 0x1_0000 + v2 % 0x1_0000
            &&& c as u32 == (v3 % 0x1_0000) * 0x1_0000 + (v4 / 0x1_0000_0000) % 0x1_0000
            &&& d as u32 == v4 % 0x1_0000_0000
        },
{
    let msb: u64 = (((v0 & 0xFFFF_FFFF) << 16u64 | (v1 & 0xFFFF)) << 16u64) | (v2 & 0xFFFF);
    let lsb: u64 = ((v3 & 0xFFFF) << 48u64) | (v4 & 0xFFFF_FFFF_FFFF);
    assert((((msb >> 32u64) as u32) as i32) as u32 == v0 % 0x1_0000_0000) by (bit_vector)
        requires
            msb == (((v0 & 0xFFFF_FFFF) << 16u64 | (v1 & 0xFFFF)) << 16u64) | (v2 & 0xFFFF),
    ;
    assert(((msb as u32) as i32) as u32 == (v1 % 0x1_0000) * 0x1_0000 + v2 % 0x1_0000)
        by (bit_vector)
        requires
            msb == (((v0 & 0xFFFF_FFFF) << 16u64 | (v1 & 0xFFFF)) << 16u64) | (v2 & 0xFFFF),
    ;
    assert((((lsb >> 32u64) as u32) as i32) as u32 == (v3 % 0x1_0000) * 0x1_0000 + (v4
        / 0x1_0000_0000) % 0x1_0000) by (bit_vector)
        requires
            lsb == ((v3 & 0xFFFF) << 48u64) | (v4 & 0xFFFF_FFFF_FFFF),
    ;
    assert(((lsb as u32) as i32) as u32 == v4 % 0x1_0000_0000) by (bit_vector)
        requires
            lsb == ((v3 & 0xFFFF) << 48u64) | (v4 & 0xFFFF_FFFF_FFFF),
    ;
}

/// A UUID written as five groups of hexadecimal digits between four dashes, in at most 36
/// bytes, is read as four ints: the first holds the low 32 bits of the first group; the
/// second the low 16 bits of the second group, then those of the third; the third the low 16
/// bits of the fourth group, then bits 32 to 47 of the fifth; the fourth the low 32 bits of
/// the fifth group.
pub proof fn lemma_uuid_layout(
    g0: Seq<char>,
    g1: Seq<char>,
    g2: Seq<char>,
    g3: Seq<char>,
    g4: Seq<char>,
    byte_len: nat,
    v0: u64,
    v1: u64,
    v2: u64,
    v3: u64,
    v4: u64,
)
    requires
        dash_free(g0) && dash_free(g1) && dash_free(g2) && dash_free(g3) && dash_free(g4),
        parse_integer(g0, 16, false) == Some(v0 as int),
        parse_integer(g1, 16, false) == Some(v1 as int),
        parse_integer(g2, 16, false) == Some(v2 as int),
        parse_integer(g3, 16, false) == Some(v3 as int),
        parse_integer(g4, 16, false) == Some(v4 as int),
        byte_len <= 36,
    ensures
        uuid_outcome(uuid_text(g0, g1, g2, g3, g4), byte_len) matches UuidOutcome::Ints(a, b, c, d)
            && {
            &&& a as u32 == v0 % 0x1_0000_0000
            &&& b as u32 == (v1 % 0x1_0000) * 0x1_0000 + v2 % 0x1_0000
            &&& c as u32 == (v3 % 0x1_0000) * 0x1_0000 + (v4 / 0x1_0000_0000) % 0x1_0000
            &&& d as u32 == v4 % 0x1_0000_0000
        },
{
    lemma_uuid_groups(g0, g1, g2, g3, g4);
    lemma_uuid_bits(v0, v1, v2, v3, v4);
}

// ---------------------------------------------------------------------------------------
// Order
// ---------------------------------------------------------------------------------------

/// `a` comes before `b` in lexicographic order by `less`: `a` is a proper prefix of `b`, or
/// at the first index where they differ the item of `a` is less than that of `b`.
pub open spec fn lex_before_by<T>(a: Seq<T>, b: Seq<T>, less: spec_fn(T, T) -> bool) -> bool {
    ||| (a.len() < b.len() && b.take(a.len() as int) == a)
    ||| exists|k: int|
        0 <= k < a.len() && k < b.len() && #[trigger] a.take(k) == b.take(k) && less(a[k], b[k])
}

/// `a` comes before `b` in lexicographic order of numbers.
pub open spec fn lex_before(a: Seq<int>, b: Seq<int>) -> bool {
    lex_before_by(a, b, |x: int, y: int| x < y)
}

/// -1, 0 or 1 as `before` holds, `same` holds, or neither.
pub open spec fn order_value(before: bool, same: bool) -> int {
    if before {
        -1
    } else if same {
        0
    } else {
        1
    }
}

/// The code points of a string, in order.
pub open spec fn code_points(s: Seq<char>) -> Seq<int> {
    Seq::new(s.len(), |i: int| s[i] as int)
}

/// The bytes of a byte array, as unsigned numbers, in order.
pub open spec fn unsigned_bytes(b: Seq<u8>) -> Seq<int> {
    Seq::new(b.len(), |i: int| b[i] as int)
}

/// The numbers of an int array, in order.
pub open spec fn int_values(v: Seq<i32>) -> Seq<int> {
    Seq::new(v.len(), |i: int| v[i] as int)
}

/// The numbers of a long array, in order.
pub open spec fn long_values(v: Seq<i64>) -> Seq<int> {
    Seq::new(v.len(), |i: int| v[i] as int)
}

proof fn lemma_lex_front<T>(a: Seq<T>, b: Seq<T>, less: spec_fn(T, T) -> bool)
    requires
        a.len() > 0,
        b.len() > 0,
        a[0] == b[0],
        !less(a[0], b[0]),
    ensures
        lex_before_by(a, b, less) <==> lex_before_by(a.skip(1), b.skip(1), less),
        a == b <==> a.skip(1) == b.skip(1),
{
    let a1 = a.skip(1);
    let b1 = b.skip(1);
    if lex_before_by(a, b, less) {
        if a.len() < b.len() && b.take(a.len() as int) == a {
            assert(b1.take(a1.len() as int) =~= a1) by {
                assert forall|i: int| 0 <= i < a1.len() implies #[trigger] b1.take(
                    a1.len() as int,
                )[i] == a1[i] by {
                    assert(b.take(a.len() as int)[i + 1] == a[i + 1]);
                }
            }
        } else {
            let k = choose|k: int|
                0 <= k < a.len() && k < b.len() && #[trigger] a.take(k) == b.take(k) && less(
                    a[k],
                    b[k],
                );
            assert(k != 0);
            assert(a1.take(k - 1) =~= b1.take(k - 1)) by {
                assert forall|i: int| 0 <= i < k - 1 implies #[trigger] a1.take(k - 1)[i]
                    == b1.take(k - 1)[i] by {
                    assert(a.take(k)[i + 1] == b.take(k)[i + 1]);
                }
            }
            assert(a1[k - 1] == a[k] && b1[k - 1] == b[k]);
            assert(0 <= k - 1 < a1.len() && k - 1 < b1.len() && a1.take(k - 1) == b1.take(k - 1)
                && less(a1[k - 1], b1[k - 1]));
        }
    }
    if lex_before_by(a1, b1, less) {
        if a1.len() < b1.len() && b1.take(a1.len() as int) == a1 {
            assert(b.take(a.len() as int) =~= a) by {
                assert forall|i: int| 0 <= i < a.len() implies #[trigger] b.take(a.len() as int)[i]
                    == a[i] by {
                    if i > 0 {
                        assert(b1.take(a1.len() as int)[i - 1] == a1[i - 1]);
                    }
                }
            }
        } else {
            let k = choose|k: int|
                0 <= k < a1.len() && k < b1.len() && #[trigger] a1.take(k) == b1.take(k) && less(
                    a1[k],
                    b1[k],
                );
            assert(a.take(k + 1) =~= b.take(k + 1)) by {
                assert forall|i: int| 0 <= i < k + 1 implies #[trigger] a.take(k + 1)[i] == b.take(
                    k + 1,
                )[i] by {
                    if i > 0 {
                        assert(a1.take(k)[i - 1] == b1.take(k)[i - 1]);
                    }
                }
            }
            assert(a[k + 1] == a1[k] && b[k + 1] == b1[k]);
            assert(0 <= k + 1 < a.len() && k + 1 < b.len() && a.take(k + 1) == b.take(k + 1)
                && less(a[k + 1], b[k + 1]));
        }
    }
    if a1 == b1 {
        assert(a =~= b) by {
            assert forall|i: int| 0 <= i < a.len() implies a[i] == b[i] by {
                if i > 0 {
                    assert(a1[i - 1] == b1[i - 1]);
                }
            }
        }
    }
    if a == b {
        assert(a1 =~= b1);
    }
}

/// Where the first items differ and that of `a` is not less, `a` does not come first.
proof fn lemma_lex_first_not_less<T>(a: Seq<T>, b: Seq<T>, less: spec_fn(T, T) -> bool)
    requires
        a.len() > 0,
        b.len() > 0,
        a[0] != b[0],
        !less(a[0], b[0]),
    ensures
        !lex_before_by(a, b, less),
        a != b,
{
    if a.len() < b.len() && b.take(a.len() as int) == a {
        assert(b.take(a.len() as int)[0] == a[0]);
    }
    if exists|k: int|
        0 <= k < a.len() && k < b.len() && #[trigger] a.take(k) == b.take(k) && less(a[k], b[k]) {
        let k = choose|k: int|
            0 <= k < a.len() && k < b.len() && #[trigger] a.take(k) == b.take(k) && less(
                a[k],
                b[k],
            );
        if k > 0 {
            assert(a.take(k)[0] == b.take(k)[0]);
        }
    }
}

/// A first item that is less puts `a` first.
proof fn lemma_lex_first_less<T>(a: Seq<T>, b: Seq<T>, less: spec_fn(T, T) -> bool)
    requires
        a.len() > 0,
        b.len() > 0,
        less(a[0], b[0]),
    ensures
        lex_before_by(a, b, less),
{
    assert(a.take(0) =~= b.take(0));
    assert(0 < a.len() && 0 < b.len() && a.take(0) == b.take(0) && less(a[0], b[0]));
}

/// An empty sequence comes before any other, and nothing comes before it.
proof fn lemma_lex_empty<T>(a: Seq<T>, b: Seq<T>, less: spec_fn(T, T) -> bool)
    requires
        a.len() == 0 || b.len() == 0,
    ensures
        a.len() == 0 && b.len() > 0 ==> lex_before_by(a, b, less),
        b.len() == 0 ==> !lex_before_by(a, b, less),
        a.len() == 0 && b.len() == 0 ==> a == b,
        a.len() > 0 || b.len() > 0 ==> a != b,
{
    if a.len() == 0 {
        assert(b.take(0) =~= a);
        if b.len() == 0 {
            assert(a =~= b);
        }
    }
}

/// `lex_order` is the lexicographic order.
proof fn lemma_lex_order(a: Seq<int>, b: Seq<int>)
    ensures
        lex_order(a, b) == order_value(lex_before(a, b), a == b),
    decreases a.len(),
{
    let less = |x: int, y: int| x < y;
    if a.len() == 0 || b.len() == 0 {
        lemma_lex_empty(a, b, less);
    } else if a[0] < b[0] {
        lemma_lex_first_less(a, b, less);
    } else if a[0] > b[0] {
        lemma_lex_first_not_less(a, b, less);
    } else {
        lemma_lex_front(a, b, less);
        lemma_lex_order(a.skip(1), b.skip(1));
    }
}

/// Two strings are ordered by their code points, lexicographically: a proper prefix comes
/// first, and otherwise the first character where they differ decides.
pub proof fn lemma_string_order(x: Seq<char>, y: Seq<char>)
    ensures
        tag_order(SpecTag::String(x), SpecTag::String(y)) == order_value(
            lex_before(code_points(x), code_points(y)),
            x == y,
        ),
{
    assert(codes(x) =~= code_points(x));
    assert(codes(y) =~= code_points(y));
    lemma_lex_order(code_points(x), code_points(y));
    if code_points(x) == code_points(y) {
        assert forall|i: int| 0 <= i < x.len() implies x[i] == y[i] by {
            assert(code_points(x)[i] == code_points(y)[i]);
        }
        assert(x =~= y);
    }
}

/// Two byte arrays are ordered by their bytes, as unsigned numbers, lexicographically.
pub proof fn lemma_byte_array_order(x: Seq<u8>, y: Seq<u8>)
    ensures
        tag_order(SpecTag::ByteArray(x), SpecTag::ByteArray(y)) == order_value(
            lex_before(unsigned_bytes(x), unsigned_bytes(y)),
            x == y,
        ),
{
    assert(bytes_ints(x) =~= unsigned_bytes(x));
    assert(bytes_ints(y) =~= unsigned_bytes(y));
    lemma_lex_order(unsigned_bytes(x), unsigned_bytes(y));
    if unsigned_bytes(x) == unsigned_bytes(y) {
        assert forall|i: int| 0 <= i < x.len() implies x[i] == y[i] by {
            assert(unsigned_bytes(x)[i] == unsigned_bytes(y)[i]);
        }
        assert(x =~= y);
    }
}

/// Two int arrays, and two long arrays, are ordered by their numbers, lexicographically.
pub proof fn lemma_number_array_order(x: Seq<i32>, y: Seq<i32>, u: Seq<i64>, w: Seq<i64>)
    ensures
        tag_order(SpecTag::IntArray(x), SpecTag::IntArray(y)) == order_value(
            lex_before(int_values(x), int_values(y)),
            x == y,
        ),
        tag_order(SpecTag::LongArray(u), SpecTag::LongArray(w)) == order_value(
            lex_before(long_values(u), long_values(w)),
            u == w,
        ),
{
    assert(i32_ints(x) =~= int_values(x));
    assert(i32_ints(y) =~= int_values(y));
    lemma_lex_order(int_values(x), int_values(y));
    if int_values(x) == int_values(y) {
        assert forall|i: int| 0 <= i < x.len() implies x[i] == y[i] by {
            assert(int_values(x)[i] == int_values(y)[i]);
        }
        assert(x =~= y);
    }
    assert(i64_ints(u) =~= long_values(u));
    assert(i64_ints(w) =~= long_values(w));
    lemma_lex_order(long_values(u), long_values(w));
    if long_values(u) == long_values(w) {
        assert forall|i: int| 0 <= i < u.len() implies u[i] == w[i] by {
            assert(long_values(u)[i] == long_values(w)[i]);
        }
        assert(u =~= w);
    }
}

/// The value of an integer tag; 0 for any other.
pub open spec fn integer_of(t: SpecTag) -> int {
    match t {
        SpecTag::Byte(x) => x as int,
        SpecTag::Short(x) => x as int,
        SpecTag::Int(x) => x as int,
        SpecTag::Long(x) => x as int,
        _ => 0,
    }
}

/// Two integers of the same width are ordered by their values.
pub proof fn lemma_integer_order(a: SpecTag, b: SpecTag)
    requires
        (a is Byte && b is Byte) || (a is Short && b is Short) || (a is Int && b is Int) || (
        a is Long && b is Long),
    ensures
        tag_order(a, b) == order_value(integer_of(a) < integer_of(b), integer_of(a) == integer_of(b)),
        integer_of(a) == integer_of(b) <==> a == b,
{
}

/// Tags of different types are ordered by their type ids.
pub proof fn lemma_mixed_order(a: SpecTag, b: SpecTag)
    requires
        a.type_id() != b.type_id(),
    ensures
        tag_order(a, b) == order_value(a.type_id() < b.type_id(), false),
{
}

/// The order of two tags is -1, 0 or 1.
pub proof fn lemma_tag_order_values(a: SpecTag, b: SpecTag)
    ensures
        tag_order(a, b) == -1 || tag_order(a, b) == 0 || tag_order(a, b) == 1,
    decreases a, 1int,
{
    match (a, b) {
        (SpecTag::ByteArray(x), SpecTag::ByteArray(y)) => lemma_lex_order(bytes_ints(x), bytes_ints(y)),
        (SpecTag::String(x), SpecTag::String(y)) => lemma_lex_order(codes(x), codes(y)),
        (SpecTag::IntArray(x), SpecTag::IntArray(y)) => lemma_lex_order(i32_ints(x), i32_ints(y)),
        (SpecTag::LongArray(x), SpecTag::LongArray(y)) => lemma_lex_order(i64_ints(x), i64_ints(y)),
        (SpecTag::List(x), SpecTag::List(y)) => lemma_list_order_values(x, y),
        (SpecTag::Compound(x), SpecTag::Compound(y)) => lemma_entries_order_values(x, y),
        _ => {},
    }
}

proof fn lemma_list_order_values(x: Seq<SpecTag>, y: Seq<SpecTag>)
    ensures
        list_order(x, y) == -1 || list_order(x, y) == 0 || list_order(x, y) == 1,
    decreases x, 0int,
{
    if x.len() > 0 && y.len() > 0 {
        lemma_tag_order_values(x[0], y[0]);
        lemma_list_order_values(x.skip(1), y.skip(1));
    }
}

proof fn lemma_entries_order_values(x: Seq<(Seq<char>, SpecTag)>, y: Seq<(Seq<char>, SpecTag)>)
    ensures
        entries_order(x, y) == -1 || entries_order(x, y) == 0 || entries_order(x, y) == 1,
    decreases x, 0int,
{
    if x.len() > 0 && y.len() > 0 {
        lemma_lex_order(codes(x[0].0), codes(y[0].0));
        assert(decreases_to!(x => x[0]));
        lemma_tag_order_values(x[0].1, y[0].1);
        lemma_entries_order_values(x.skip(1), y.skip(1));
    }
}

/// One tag comes before another.
pub open spec fn tag_before(p: SpecTag, q: SpecTag) -> bool {
    tag_order(p, q) < 0
}

/// Two lists are ordered lexicographically by the order of their elements: a proper prefix
/// comes first, and otherwise the first elements that differ decide.
pub proof fn lemma_list_order(x: Seq<SpecTag>, y: Seq<SpecTag>)
    ensures
        tag_order(SpecTag::List(x), SpecTag::List(y)) == order_value(
            lex_before_by(x, y, |p: SpecTag, q: SpecTag| tag_before(p, q)),
            x == y,
        ),
    decreases x.len(),
{
    lemma_list_order_of(x, y);
}

proof fn lemma_list_order_of(x: Seq<SpecTag>, y: Seq<SpecTag>)
    ensures
        list_order(x, y) == order_value(
            lex_before_by(x, y, |p: SpecTag, q: SpecTag| tag_before(p, q)),
            x == y,
        ),
    decreases x.len(),
{
    let less = |p: SpecTag, q: SpecTag| tag_before(p, q);
    if x.len() == 0 || y.len() == 0 {
        lemma_lex_empty(x, y, less);
    } else {
        lemma_tag_order_equal(x[0], y[0]);
        lemma_tag_order_values(x[0], y[0]);
        if tag_order(x[0], y[0]) < 0 {
            lemma_lex_first_less(x, y, less);
        } else if tag_order(x[0], y[0]) > 0 {
            lemma_lex_first_not_less(x, y, less);
        } else {
            lemma_lex_front(x, y, less);
            lemma_list_order_of(x.skip(1), y.skip(1));
        }
    }
}

/// One child of a compound comes before another: by its name, lexicographically by code
/// points, and under the same name by its tag.
pub open spec fn entry_before(p: (Seq<char>, SpecTag), q: (Seq<char>, SpecTag)) -> bool {
    ||| lex_before(code_points(p.0), code_points(q.0))
    ||| (p.0 == q.0 && tag_order(p.1, q.1) < 0)
}

/// Two compounds are ordered lexicographically by their children, each by its name and then
/// by its tag.
pub proof fn lemma_compound_order(x: Seq<(Seq<char>, SpecTag)>, y: Seq<(Seq<char>, SpecTag)>)
    ensures
        tag_order(SpecTag::Compound(x), SpecTag::Compound(y)) == order_value(
            lex_before_by(x, y, |p: (Seq<char>, SpecTag), q: (Seq<char>, SpecTag)| entry_before(p, q)),
            x == y,
        ),
{
    lemma_entries_order_of(x, y);
}

proof fn lemma_entries_order_of(x: Seq<(Seq<char>, SpecTag)>, y: Seq<(Seq<char>, SpecTag)>)
    ensures
        entries_order(x, y) == order_value(
            lex_before_by(x, y, |p: (Seq<char>, SpecTag), q: (Seq<char>, SpecTag)| entry_before(p, q)),
            x == y,
        ),
    decreases x.len(),
{
    let less = |p: (Seq<char>, SpecTag), q: (Seq<char>, SpecTag)| entry_before(p, q);
    if x.len() == 0 || y.len() == 0 {
        lemma_lex_empty(x, y, less);
    } else {
        let (n0, t0) = x[0];
        let (m0, u0) = y[0];
        lemma_string_order(n0, m0);
        lemma_string_order(m0, n0);
        assert(codes(n0) =~= code_points(n0));
        assert(codes(m0) =~= code_points(m0));
        lemma_lex_order(code_points(n0), code_points(m0));
        lemma_tag_order_equal(t0, u0);
        lemma_tag_order_values(t0, u0);
        if lex_order(codes(n0), codes(m0)) < 0 {
            lemma_lex_first_less(x, y, less);
        } else if lex_order(codes(n0), codes(m0)) > 0 {
            lemma_lex_order(code_points(m0), code_points(n0));
            crate::nbt::order::lemma_tag_order_antisymmetric(
                SpecTag::String(n0),
                SpecTag::String(m0),
            );
            assert(n0 != m0);
            lemma_lex_first_not_less(x, y, less);
        } else if tag_order(t0, u0) < 0 {
            assert(n0 == m0);
            lemma_lex_first_less(x, y, less);
        } else if tag_order(t0, u0) > 0 {
            assert(n0 == m0);
            lemma_lex_first_not_less(x, y, less);
        } else {
            assert(n0 == m0 && t0 == u0);
            assert(!lex_before(code_points(n0), code_points(m0)));
            lemma_lex_front(x, y, less);
            lemma_entries_order_of(x.skip(1), y.skip(1));
        }
    }
}

} // verus!

//! NBT tags.
use vstd::prelude::*;
use bytes::{Bytes, BytesMut};
use std::io::Cursor;
use crate::nbt::buffers::{
    be16, be32, be64, bytes_as_slice, bytes_copy_from_slice, bytes_mut_new, bytes_mut_view, bytes_view, freeze, put_bytes,
    put_i16, put_i32, put_i64, put_i8, put_slice, put_u16, put_u32, put_u64, put_u8,
};
use crate::nbt::cesu8::{cesu8_encode, cesu8_encoding};
use crate::error::Error;
use crate::nbt::compound::NbtCompound;
use crate::nbt::roundtrip::{
    fits_binary, lemma_data_reads_back, lemma_fits_binary, reads_back, strings_read_back,
};
use crate::nbt::deserialize::{
    after, decode_data, decode_elements, get_nbt_string, ints_at, is_wrapper,
    lemma_after_after, lemma_decode_data_bounds, lemma_elements_step, longs_at, read_ints,
    read_longs, unwrap_singletons, unwrapped, Decoded,
};
use crate::nbt::reading::{
    cursor_data, cursor_get_ref, cursor_pos, cursor_position, cursor_rest, cursor_set_position,
    be_u32_at, copy_to_bytes, try_get_i16, try_get_i32, try_get_i64, try_get_i8, try_get_u32,
    try_get_u64, try_get_u8,
};

verus! {

pub const END_ID: u8 = 0;
pub const BYTE_ID: u8 = 1;
pub const SHORT_ID: u8 = 2;
pub const INT_ID: u8 = 3;
pub const LONG_ID: u8 = 4;
pub const FLOAT_ID: u8 = 5;
pub const DOUBLE_ID: u8 = 6;
pub const BYTE_ARRAY_ID: u8 = 7;
pub const STRING_ID: u8 = 8;
pub const LIST_ID: u8 = 9;
pub const COMPOUND_ID: u8 = 10;
pub const INT_ARRAY_ID: u8 = 11;
pub const LONG_ARRAY_ID: u8 = 12;

/// The different types of NBT tags. Each variant holds one type of data.
/// A float or double is held as the bits of its IEEE 754 representation.
#[derive(Debug, PartialEq, Eq)]
pub enum NbtTag {
    End,
    Byte(i8),
    Short(i16),
    Int(i32),
    Long(i64),
    Float(u32),
    Double(u64),
    ByteArray(Bytes),
    String(String),
    List(Vec<NbtTag>),
    Compound(NbtCompound),
    IntArray(Vec<i32>),
    LongArray(Vec<i64>),
}

impl NbtTag {
    /// The numeric id of the tag's type.
    pub open spec fn type_id(self) -> u8 {
        match self {
            NbtTag::End => END_ID,
            NbtTag::Byte(_) => BYTE_ID,
            NbtTag::Short(_) => SHORT_ID,
            NbtTag::Int(_) => INT_ID,
            NbtTag::Long(_) => LONG_ID,
            NbtTag::Float(_) => FLOAT_ID,
            NbtTag::Double(_) => DOUBLE_ID,
            NbtTag::ByteArray(_) => BYTE_ARRAY_ID,
            NbtTag::String(_) => STRING_ID,
            NbtTag::List(_) => LIST_ID,
            NbtTag::Compound(_) => COMPOUND_ID,
            NbtTag::IntArray(_) => INT_ARRAY_ID,
            NbtTag::LongArray(_) => LONG_ARRAY_ID,
        }
    }

    /// Returns the numeric id associated with the data type.
    pub fn get_type_id(&self) -> (id: u8)
        ensures
            id == self.type_id(),
    {
        match self {
            NbtTag::End => END_ID,
            NbtTag::Byte(_) => BYTE_ID,
            NbtTag::Short(_) => SHORT_ID,
            NbtTag::Int(_) => INT_ID,
            NbtTag::Long(_) => LONG_ID,
            NbtTag::Float(_) => FLOAT_ID,
            NbtTag::Double(_) => DOUBLE_ID,
            NbtTag::ByteArray(_) => BYTE_ARRAY_ID,
            NbtTag::String(_) => STRING_ID,
            NbtTag::List(_) => LIST_ID,
            NbtTag::Compound(_) => COMPOUND_ID,
            NbtTag::IntArray(_) => INT_ARRAY_ID,
            NbtTag::LongArray(_) => LONG_ARRAY_ID,
        }
    }

    pub fn extract_byte(&self) -> (r: Option<i8>)
        ensures
            r == (match self {
                NbtTag::Byte(x) => Some(*x),
                _ => None,
            }),
    {
        match self {
            NbtTag::Byte(byte) => Some(*byte),
            _ => None,
        }
    }

    pub fn extract_short(&self) -> (r: Option<i16>)
        ensures
            r == (match self {
                NbtTag::Short(x) => Some(*x),
                _ => None,
            }),
    {
        match self {
            NbtTag::Short(short) => Some(*short),
            _ => None,
        }
    }

    pub fn extract_int(&self) -> (r: Option<i32>)
        ensures
            r == (match self {
                NbtTag::Int(x) => Some(*x),
                _ => None,
            }),
    {
        match self {
            NbtTag::Int(x) => Some(*x),
            _ => None,
        }
    }

    pub fn extract_long(&self) -> (r: Option<i64>)
        ensures
            r == (match self {
                NbtTag::Long(x) => Some(*x),
                _ => None,
            }),
    {
        match self {
            NbtTag::Long(long) => Some(*long),
            _ => None,
        }
    }

    /// The bits of the float that the tag holds.
    pub fn extract_float(&self) -> (r: Option<u32>)
        ensures
            r == (match self {
                NbtTag::Float(x) => Some(*x),
                _ => None,
            }),
    {
        match self {
            NbtTag::Float(float) => Some(*float),
            _ => None,
        }
    }

    /// The bits of the double that the tag holds.
    pub fn extract_double(&self) -> (r: Option<u64>)
        ensures
            r == (match self {
                NbtTag::Double(x) => Some(*x),
                _ => None,
            }),
    {
        match self {
            NbtTag::Double(double) => Some(*double),
            _ => None,
        }
    }

    /// A byte read as a boolean: whether it is not zero.
    pub fn extract_bool(&self) -> (r: Option<bool>)
        ensures
            r == (match self {
                NbtTag::Byte(x) => Some(*x != 0),
                _ => None,
            }),
    {
        match self {
            NbtTag::Byte(byte) => Some(*byte != 0),
            _ => None,
        }
    }

    pub fn extract_byte_array(&self) -> (r: Option<Bytes>)
        ensures
            match self {
                NbtTag::ByteArray(b) => r matches Some(c) && bytes_view(c) == bytes_view(*b),
                _ => r is None,
            },
    {
        match self {
            NbtTag::ByteArray(byte_array) => Some(byte_array.clone()),
            _ => None,
        }
    }

    pub fn extract_string(&self) -> (r: Option<&String>)
        ensures
            r == (match self {
                NbtTag::String(s) => Some(s),
                _ => None,
            }),
    {
        match self {
            NbtTag::String(string) => Some(string),
            _ => None,
        }
    }

    pub fn extract_list(&self) -> (r: Option<&Vec<NbtTag>>)
        ensures
            r == (match self {
                NbtTag::List(l) => Some(l),
                _ => None,
            }),
    {
        match self {
            NbtTag::List(list) => Some(list),
            _ => None,
        }
    }

    pub fn extract_compound(&self) -> (r: Option<&NbtCompound>)
        ensures
            r == (match self {
                NbtTag::Compound(c) => Some(c),
                _ => None,
            }),
    {
        match self {
            NbtTag::Compound(compound) => Some(compound),
            _ => None,
        }
    }

    pub fn extract_int_array(&self) -> (r: Option<&Vec<i32>>)
        ensures
            r == (match self {
                NbtTag::IntArray(a) => Some(a),
                _ => None,
            }),
    {
        match self {
            NbtTag::IntArray(a) => Some(a),
            _ => None,
        }
    }

    pub fn extract_long_array(&self) -> (r: Option<&Vec<i64>>)
        ensures
            r == (match self {
                NbtTag::LongArray(a) => Some(a),
                _ => None,
            }),
    {
        match self {
            NbtTag::LongArray(long_array) => Some(long_array),
            _ => None,
        }
    }
}

// ---------------------------------------------------------------------------------------
// The binary form of a tag
// ---------------------------------------------------------------------------------------

/// A string as NBT writes it: the length of its CESU-8 encoding as a `u16`, then the encoding.
pub open spec fn string_payload(s: Seq<char>) -> Seq<u8> {
    let e = cesu8_encoding(s);
    be16(e.len() as u16) + e
}

/// The count of a list or array as NBT writes it: an `i32`.
pub open spec fn count_bytes(n: nat) -> Seq<u8> {
    be32((n as i32) as u32)
}

/// All tags of `l` have the type id `ty`.
pub open spec fn all_of_type(l: Seq<NbtTag>, ty: u8) -> bool {
    forall|i: int| 0 <= i < l.len() ==> #[trigger] l[i].type_id() == ty
}

/// The type id of the elements of the list `l`: that of its first element, or `End` for an
/// empty list.
pub open spec fn list_element_type(l: Seq<NbtTag>) -> u8 {
    if l.len() == 0 {
        END_ID
    } else {
        l[0].type_id()
    }
}

/// The payload of a tag, without its type id.
pub open spec fn data_bytes(tag: NbtTag) -> Seq<u8>
    decreases tag,
{
    match tag {
        NbtTag::End => Seq::empty(),
        NbtTag::Byte(x) => seq![x as u8],
        NbtTag::Short(x) => be16(x as u16),
        NbtTag::Int(x) => be32(x as u32),
        NbtTag::Long(x) => be64(x as u64),
        NbtTag::Float(bits) => be32(bits),
        NbtTag::Double(bits) => be64(bits),
        NbtTag::ByteArray(b) => count_bytes(bytes_view(b).len()) + bytes_view(b),
        NbtTag::String(s) => string_payload(s@),
        NbtTag::List(l) => {
            let ty = list_element_type(l@);
            if all_of_type(l@, ty) {
                seq![ty] + count_bytes(l@.len()) + elements_bytes(l@)
            } else {
                seq![COMPOUND_ID] + count_bytes(l@.len()) + wrapped_elements_bytes(l@)
            }
        },
        NbtTag::Compound(c) => entries_bytes(c.child_tags@) + seq![END_ID],
        NbtTag::IntArray(v) => count_bytes(v@.len()) + ints_bytes(v@),
        NbtTag::LongArray(v) => count_bytes(v@.len()) + longs_bytes(v@),
    }
}

/// The payloads of the tags of `l`, one after another.
pub open spec fn elements_bytes(l: Seq<NbtTag>) -> Seq<u8>
    decreases l,
{
    if l.len() == 0 {
        Seq::empty()
    } else {
        elements_bytes(l.subrange(0, l.len() - 1)) + data_bytes(l[l.len() - 1])
    }
}

/// The tags of a list of mixed types, each written as a compound: a compound as it is,
/// any other tag as the only child of a compound, under the empty name.
pub open spec fn wrapped_elements_bytes(l: Seq<NbtTag>) -> Seq<u8>
    decreases l,
{
    if l.len() == 0 {
        Seq::empty()
    } else {
        let t = l[l.len() - 1];
        wrapped_elements_bytes(l.subrange(0, l.len() - 1)) + if t is Compound {
            data_bytes(t)
        } else {
            seq![t.type_id()] + be16(0) + data_bytes(t) + seq![END_ID]
        }
    }
}

/// The named children of a compound: for each, its type id, its name and its payload.
pub open spec fn entries_bytes(e: Seq<(String, NbtTag)>) -> Seq<u8>
    decreases e,
{
    if e.len() == 0 {
        Seq::empty()
    } else {
        let (name, t) = e[e.len() - 1];
        entries_bytes(e.subrange(0, e.len() - 1)) + seq![t.type_id()] + string_payload(name@)
            + data_bytes(t)
    }
}

pub open spec fn ints_bytes(v: Seq<i32>) -> Seq<u8>
    decreases v.len(),
{
    if v.len() == 0 {
        Seq::empty()
    } else {
        ints_bytes(v.drop_last()) + be32(v.last() as u32)
    }
}

pub open spec fn longs_bytes(v: Seq<i64>) -> Seq<u8>
    decreases v.len(),
{
    if v.len() == 0 {
        Seq::empty()
    } else {
        longs_bytes(v.drop_last()) + be64(v.last() as u64)
    }
}

/// Writes a string as NBT does: the length of its CESU-8 encoding, then the encoding.
pub fn put_string_payload(bytes: &mut BytesMut, s: &String)
    ensures
        bytes_mut_view(*final(bytes)) == bytes_mut_view(*old(bytes)) + string_payload(s@),
        reads_back(s@),
{
    let java_string = cesu8_encode(s.as_str());
    put_u16(bytes, #[verifier::truncate] (java_string.len() as u16));
    put_slice(bytes, java_string.as_slice());
}

impl NbtTag {
    /// The tag's type id followed by its payload; where the tag fits the binary form,
    /// reading these bytes gives the tag again.
    pub fn serialize(&self) -> (r: Bytes)
        ensures
            bytes_view(r) == seq![self.type_id()] + data_bytes(*self),
            fits_binary(*self) ==> decode_data(bytes_view(r).skip(1), bytes_view(r)[0])
                == Decoded::Done(tag_model(*self), bytes_view(r).len() - 1),
    {
        let mut bytes = bytes_mut_new();
        put_u8(&mut bytes, self.get_type_id());
        put_bytes(&mut bytes, self.serialize_data());
        let r = freeze(bytes);
        proof {
            if fits_binary(*self) {
                lemma_fits_binary(*self);
                lemma_data_reads_back(*self, Seq::empty());
                assert(bytes_view(r).skip(1) =~= data_bytes(*self) + Seq::empty());
            }
        }
        r
    }

    /// The tag's payload, without its type id; every string written reads back from its
    /// encoding.
    pub fn serialize_data(&self) -> (r: Bytes)
        ensures
            bytes_view(r) == data_bytes(*self),
            strings_read_back(*self),
        decreases self,
    {
        let mut bytes = bytes_mut_new();
        match self {
            NbtTag::End => {},
            NbtTag::Byte(byte) => put_i8(&mut bytes, *byte),
            NbtTag::Short(short) => put_i16(&mut bytes, *short),
            NbtTag::Int(x) => put_i32(&mut bytes, *x),
            NbtTag::Long(long) => put_i64(&mut bytes, *long),
            NbtTag::Float(bits) => put_u32(&mut bytes, *bits),
            NbtTag::Double(bits) => put_u64(&mut bytes, *bits),
            NbtTag::ByteArray(byte_array) => {
                let slice = bytes_as_slice(byte_array);
                put_i32(&mut bytes, #[verifier::truncate] (slice.len() as i32));
                put_slice(&mut bytes, slice);
            },
            NbtTag::String(string) => {
                put_string_payload(&mut bytes, string);
                assert(strings_read_back(*self));
            },
            NbtTag::List(list) => {
                let n = list.len();
                let ty = if n > 0 {
                    list[0].get_type_id()
                } else {
                    END_ID
                };
                let mut homogeneous = true;
                let mut i: usize = 0;
                while i < n
                    invariant
                        i <= n,
                        n == list@.len(),
                        homogeneous == all_of_type(list@.take(i as int), ty),
                    decreases n - i,
                {
                    let ghost before = list@.take(i as int);
                    let ghost after = list@.take(i + 1);
                    proof {
                        assert(after[i as int] == list@[i as int]);
                        if all_of_type(after, ty) {
                            assert forall|k: int| 0 <= k < before.len() implies #[trigger] before[k].type_id()
                                == ty by {
                                assert(after[k] == before[k]);
                            }
                            assert(after[i as int].type_id() == ty);
                        }
                        if all_of_type(before, ty) && list@[i as int].type_id() == ty {
                            assert forall|k: int| 0 <= k < after.len() implies #[trigger] after[k].type_id()
                                == ty by {
                                if k < i {
                                    assert(after[k] == before[k]);
                                }
                            }
                        }
                    }
                    if list[i].get_type_id() != ty {
                        homogeneous = false;
                    }
                    i = i + 1;
                }
                assert(list@.take(n as int) =~= list@);
                let ghost start = bytes_mut_view(bytes);
                if homogeneous {
                    put_u8(&mut bytes, ty);
                    put_i32(&mut bytes, #[verifier::truncate] (n as i32));
                    let ghost head = bytes_mut_view(bytes);
                    let mut i: usize = 0;
                    while i < n
                        invariant
                            i <= n,
                            n == list@.len(),
                            *self == NbtTag::List(*list),
                            bytes_mut_view(bytes) == head + elements_bytes(list@.take(i as int)),
                            forall|j: int| 0 <= j < i ==> strings_read_back(#[trigger] list@[j]),
                        decreases n - i,
                    {
                        proof {
                            assert(decreases_to!(*self => (*self)->List_0));
                            assert(decreases_to!(*list => list@));
                            assert(decreases_to!(list@ => list@[i as int]));
                        }
                        put_bytes(&mut bytes, list[i].serialize_data());
                        i = i + 1;
                        assert(list@.take(i as int).subrange(0, i - 1) =~= list@.take(i - 1));
                    }
                } else {
                    put_u8(&mut bytes, COMPOUND_ID);
                    put_i32(&mut bytes, #[verifier::truncate] (n as i32));
                    let ghost head = bytes_mut_view(bytes);
                    let mut i: usize = 0;
                    while i < n
                        invariant
                            i <= n,
                            n == list@.len(),
                            *self == NbtTag::List(*list),
                            bytes_mut_view(bytes) == head + wrapped_elements_bytes(
                                list@.take(i as int),
                            ),
                            forall|j: int| 0 <= j < i ==> strings_read_back(#[trigger] list@[j]),
                        decreases n - i,
                    {
                        proof {
                            assert(decreases_to!(*self => (*self)->List_0));
                            assert(decreases_to!(*list => list@));
                            assert(decreases_to!(list@ => list@[i as int]));
                        }
                        let tag = &list[i];
                        match tag {
                            NbtTag::Compound(_) => put_bytes(&mut bytes, tag.serialize_data()),
                            value => {
                                // written as a compound, without cloning the value
                                put_u8(&mut bytes, value.get_type_id());
                                put_u16(&mut bytes, 0);
                                put_bytes(&mut bytes, value.serialize_data());
                                put_u8(&mut bytes, END_ID);
                            },
                        }
                        i = i + 1;
                        assert(list@.take(i as int).subrange(0, i - 1) =~= list@.take(i - 1));
                    }
                }
                assert(list@.take(n as int) =~= list@);
                assert(strings_read_back(*self));
            },
            NbtTag::Compound(compound) => {
                put_bytes(&mut bytes, compound.serialize_content());
                assert(strings_read_back(*self));
            },
            NbtTag::IntArray(a) => {
                let n = a.len();
                put_i32(&mut bytes, #[verifier::truncate] (n as i32));
                let ghost head = bytes_mut_view(bytes);
                let mut i: usize = 0;
                while i < n
                    invariant
                        i <= n,
                        n == a@.len(),
                        bytes_mut_view(bytes) == head + ints_bytes(a@.take(i as int)),
                    decreases n - i,
                {
                    put_i32(&mut bytes, a[i]);
                    i = i + 1;
                    assert(a@.take(i as int).drop_last() =~= a@.take(i - 1));
                }
                assert(a@.take(n as int) =~= a@);
            },
            NbtTag::LongArray(a) => {
                let n = a.len();
                put_i32(&mut bytes, #[verifier::truncate] (n as i32));
                let ghost head = bytes_mut_view(bytes);
                let mut i: usize = 0;
                while i < n
                    invariant
                        i <= n,
                        n == a@.len(),
                        bytes_mut_view(bytes) == head + longs_bytes(a@.take(i as int)),
                    decreases n - i,
                {
                    put_i64(&mut bytes, a[i]);
                    i = i + 1;
                    assert(a@.take(i as int).drop_last() =~= a@.take(i - 1));
                }
                assert(a@.take(n as int) =~= a@);
            },
        }
        freeze(bytes)
    }
}

/// A float, given by its bits, is at most -1.0 or at least 1.0: its magnitude is at least
/// that of 1.0 (bits `0x3f80_0000`) and at most infinity (bits `0x7f80_0000`), so it is no NaN.
pub open spec fn float_bits_at_least_one(bits: u32) -> bool {
    let magnitude = bits & 0x7fff_ffff;
    0x3f80_0000 <= magnitude && magnitude <= 0x7f80_0000
}

/// A double, given by its bits, is at most -1.0 or at least 1.0: its magnitude is at least
/// that of 1.0 and at most infinity, so it is no NaN.
pub open spec fn double_bits_at_least_one(bits: u64) -> bool {
    let magnitude = bits & 0x7fff_ffff_ffff_ffff;
    0x3ff0_0000_0000_0000 <= magnitude && magnitude <= 0x7ff0_0000_0000_0000
}

impl NbtTag {
    /// Whether the tag counts as `true`: a number that is not zero (a float or double of
    /// magnitude at least 1), or a string, array, list or compound that is not empty.
    pub open spec fn truthy(self) -> bool {
        match self {
            NbtTag::End => false,
            NbtTag::Byte(x) => x != 0,
            NbtTag::Short(x) => x != 0,
            NbtTag::Int(x) => x != 0,
            NbtTag::Long(x) => x != 0,
            NbtTag::Float(bits) => float_bits_at_least_one(bits),
            NbtTag::Double(bits) => double_bits_at_least_one(bits),
            NbtTag::ByteArray(b) => bytes_view(b).len() != 0,
            NbtTag::IntArray(v) => v@.len() != 0,
            NbtTag::LongArray(v) => v@.len() != 0,
            NbtTag::String(s) => s@.len() != 0,
            NbtTag::List(l) => l@.len() != 0,
            NbtTag::Compound(c) => c.child_tags@.len() != 0,
        }
    }

    pub fn is_truthy(&self) -> (r: bool)
        ensures
            r == self.truthy(),
    {
        match self {
            NbtTag::End => false,
            NbtTag::Byte(x) => *x != 0,
            NbtTag::Short(x) => *x != 0,
            NbtTag::Int(x) => *x != 0,
            NbtTag::Long(x) => *x != 0,
            NbtTag::Float(bits) => {
                let magnitude = *bits & 0x7fff_ffff;
                0x3f80_0000 <= magnitude && magnitude <= 0x7f80_0000
            },
            NbtTag::Double(bits) => {
                let magnitude = *bits & 0x7fff_ffff_ffff_ffff;
                0x3ff0_0000_0000_0000 <= magnitude && magnitude <= 0x7ff0_0000_0000_0000
            },
            NbtTag::ByteArray(x) => bytes_as_slice(x).len() != 0,
            NbtTag::IntArray(x) => x.len() != 0,
            NbtTag::LongArray(x) => x.len() != 0,
            NbtTag::String(x) => !x.as_str().is_empty(),
            NbtTag::List(x) => x.len() != 0,
            NbtTag::Compound(x) => x.child_tags.len() != 0,
        }
    }
}

// ---------------------------------------------------------------------------------------
// The mathematical content of a tag
// ---------------------------------------------------------------------------------------

/// The content of an NBT tag, as mathematical values.
pub enum SpecTag {
    End,
    Byte(i8),
    Short(i16),
    Int(i32),
    Long(i64),
    Float(u32),
    Double(u64),
    ByteArray(Seq<u8>),
    String(Seq<char>),
    List(Seq<SpecTag>),
    Compound(Seq<(Seq<char>, SpecTag)>),
    IntArray(Seq<i32>),
    LongArray(Seq<i64>),
}

impl SpecTag {
    pub open spec fn type_id(self) -> u8 {
        match self {
            SpecTag::End => END_ID,
            SpecTag::Byte(_) => BYTE_ID,
            SpecTag::Short(_) => SHORT_ID,
            SpecTag::Int(_) => INT_ID,
            SpecTag::Long(_) => LONG_ID,
            SpecTag::Float(_) => FLOAT_ID,
            SpecTag::Double(_) => DOUBLE_ID,
            SpecTag::ByteArray(_) => BYTE_ARRAY_ID,
            SpecTag::String(_) => STRING_ID,
            SpecTag::List(_) => LIST_ID,
            SpecTag::Compound(_) => COMPOUND_ID,
            SpecTag::IntArray(_) => INT_ARRAY_ID,
            SpecTag::LongArray(_) => LONG_ARRAY_ID,
        }
    }
}

/// The content of a tag.
pub open spec fn tag_model(tag: NbtTag) -> SpecTag
    decreases tag,
{
    match tag {
        NbtTag::End => SpecTag::End,
        NbtTag::Byte(x) => SpecTag::Byte(x),
        NbtTag::Short(x) => SpecTag::Short(x),
        NbtTag::Int(x) => SpecTag::Int(x),
        NbtTag::Long(x) => SpecTag::Long(x),
        NbtTag::Float(x) => SpecTag::Float(x),
        NbtTag::Double(x) => SpecTag::Double(x),
        NbtTag::ByteArray(b) => SpecTag::ByteArray(bytes_view(b)),
        NbtTag::String(s) => SpecTag::String(s@),
        NbtTag::List(l) => SpecTag::List(list_model(l@)),
        NbtTag::Compound(c) => SpecTag::Compound(entries_model(c.child_tags@)),
        NbtTag::IntArray(v) => SpecTag::IntArray(v@),
        NbtTag::LongArray(v) => SpecTag::LongArray(v@),
    }
}

/// The contents of the tags of `l`.
pub open spec fn list_model(l: Seq<NbtTag>) -> Seq<SpecTag>
    decreases l,
{
    if l.len() == 0 {
        Seq::empty()
    } else {
        list_model(l.subrange(0, l.len() - 1)).push(tag_model(l[l.len() - 1]))
    }
}

/// The names and contents of the children of a compound.
pub open spec fn entries_model(e: Seq<(String, NbtTag)>) -> Seq<(Seq<char>, SpecTag)>
    decreases e,
{
    if e.len() == 0 {
        Seq::empty()
    } else {
        let (name, t) = e[e.len() - 1];
        entries_model(e.subrange(0, e.len() - 1)).push((name@, tag_model(t)))
    }
}


/// The content of a list has an element for each tag of the list, in order.
pub proof fn lemma_list_model(l: Seq<NbtTag>)
    ensures
        list_model(l).len() == l.len(),
        forall|i: int| 0 <= i < l.len() ==> #[trigger] list_model(l)[i] == tag_model(l[i]),
    decreases l.len(),
{
    if l.len() > 0 {
        lemma_list_model(l.subrange(0, l.len() - 1));
    }
}

/// Adding a tag to a list adds its content to the list's content.
pub proof fn lemma_list_model_push(l: Seq<NbtTag>, t: NbtTag)
    ensures
        list_model(l.push(t)) == list_model(l).push(tag_model(t)),
{
    assert(l.push(t).subrange(0, l.len() as int) =~= l);
}

/// The content of a compound has an entry for each child, in order.
pub proof fn lemma_entries_model(e: Seq<(String, NbtTag)>)
    ensures
        entries_model(e).len() == e.len(),
        forall|i: int|
            0 <= i < e.len() ==> #[trigger] entries_model(e)[i] == (e[i].0@, tag_model(e[i].1)),
    decreases e.len(),
{
    if e.len() > 0 {
        lemma_entries_model(e.subrange(0, e.len() - 1));
    }
}

/// Adding a child to a compound adds its name and content to the compound's content.
pub proof fn lemma_entries_model_push(e: Seq<(String, NbtTag)>, x: (String, NbtTag))
    ensures
        entries_model(e.push(x)) == entries_model(e).push((x.0@, tag_model(x.1))),
{
    assert(e.push(x).subrange(0, e.len() as int) =~= e);
}


impl NbtTag {
    /// Reads a tag: its type id, then its payload.
    pub fn deserialize(bytes: &mut &[u8]) -> (r: Result<NbtTag, Error>)
        requires
            old(bytes)@.len() >= 1 ==> !(decode_data(old(bytes)@.skip(1), old(bytes)@[0]) is Panics),
        ensures
            old(bytes)@.len() < 1 ==> r == Err::<NbtTag, Error>(Error::Incomplete) && final(bytes)@
                == old(bytes)@,
            old(bytes)@.len() >= 1 ==> match decode_data(old(bytes)@.skip(1), old(bytes)@[0]) {
                Decoded::Done(t, k) => r matches Ok(tag) && tag_model(tag) == t && final(bytes)@
                    == old(bytes)@.skip(1 + k),
                Decoded::Failed(e, k) => r == Err::<NbtTag, Error>(e) && final(bytes)@ == old(
                    bytes,
                )@.skip(1 + k),
                Decoded::Panics => false,
            },
    {
        let ghost start = old(bytes)@;
        let tag_id = match try_get_u8(bytes) {
            Ok(id) => id,
            Err(_) => return Err(Error::Incomplete),
        };
        proof {
            lemma_decode_data_bounds(start.skip(1), start[0]);
        }
        let r = Self::deserialize_data(bytes, tag_id);
        proof {
            let k = match decode_data(start.skip(1), tag_id) {
                Decoded::Done(_, k) => k,
                Decoded::Failed(_, k) => k,
                Decoded::Panics => 0,
            };
            assert(start.skip(1).skip(k) =~= start.skip(1 + k));
        }
        r
    }

    /// Reads the payload of a tag of type `tag_id`.
    pub fn deserialize_data(bytes: &mut &[u8], tag_id: u8) -> (r: Result<NbtTag, Error>)
        requires
            !(decode_data(old(bytes)@, tag_id) is Panics),
        ensures
            match decode_data(old(bytes)@, tag_id) {
                Decoded::Done(t, k) => r matches Ok(tag) && tag_model(tag) == t && final(bytes)@
                    == old(bytes)@.skip(k),
                Decoded::Failed(e, k) => r == Err::<NbtTag, Error>(e) && final(bytes)@ == old(
                    bytes,
                )@.skip(k),
                Decoded::Panics => false,
            },
        decreases old(bytes)@.len(), 2int,
    {
        let ghost start = old(bytes)@;
        if tag_id == END_ID {
            assert(start.skip(0) =~= start);
            Ok(NbtTag::End)
        } else if tag_id == BYTE_ID {
            match try_get_i8(bytes) {
                Ok(x) => Ok(NbtTag::Byte(x)),
                Err(_) => {
                    assert(start.skip(0) =~= start);
                    Err(Error::Incomplete)
                },
            }
        } else if tag_id == SHORT_ID {
            match try_get_i16(bytes) {
                Ok(x) => Ok(NbtTag::Short(x)),
                Err(_) => {
                    assert(start.skip(0) =~= start);
                    Err(Error::Incomplete)
                },
            }
        } else if tag_id == INT_ID {
            match try_get_i32(bytes) {
                Ok(x) => Ok(NbtTag::Int(x)),
                Err(_) => {
                    assert(start.skip(0) =~= start);
                    Err(Error::Incomplete)
                },
            }
        } else if tag_id == LONG_ID {
            match try_get_i64(bytes) {
                Ok(x) => Ok(NbtTag::Long(x)),
                Err(_) => {
                    assert(start.skip(0) =~= start);
                    Err(Error::Incomplete)
                },
            }
        } else if tag_id == FLOAT_ID {
            match try_get_u32(bytes) {
                Ok(x) => Ok(NbtTag::Float(x)),
                Err(_) => {
                    assert(start.skip(0) =~= start);
                    Err(Error::Incomplete)
                },
            }
        } else if tag_id == DOUBLE_ID {
            match try_get_u64(bytes) {
                Ok(x) => Ok(NbtTag::Double(x)),
                Err(_) => {
                    assert(start.skip(0) =~= start);
                    Err(Error::Incomplete)
                },
            }
        } else if tag_id == BYTE_ARRAY_ID {
            let len = match try_get_i32(bytes) {
                Ok(n) => n,
                Err(_) => {
                    assert(start.skip(0) =~= start);
                    return Err(Error::Incomplete);
                },
            };
            let byte_array = copy_to_bytes(bytes, len as usize);
            assert(start.skip(4).take(len as int) =~= start.subrange(4, 4 + len));
            assert(start.skip(4).skip(len as int) =~= start.skip(4 + len));
            Ok(NbtTag::ByteArray(byte_array))
        } else if tag_id == STRING_ID {
            match get_nbt_string(bytes) {
                Ok(s) => Ok(NbtTag::String(s)),
                Err(_) => {
                    proof {
                        assert(false);
                    }
                    Err(Error::InvalidJavaString)
                },
            }
        } else if tag_id == LIST_ID {
            match Self::deserialize_list(bytes) {
                Ok(list) => Ok(NbtTag::List(list)),
                Err(e) => Err(e),
            }
        } else if tag_id == COMPOUND_ID {
            match NbtCompound::deserialize_content(bytes) {
                Ok(c) => Ok(NbtTag::Compound(c)),
                Err(e) => Err(e),
            }
        } else if tag_id == INT_ARRAY_ID {
            let len = match try_get_i32(bytes) {
                Ok(n) => n,
                Err(_) => {
                    assert(start.skip(0) =~= start);
                    return Err(Error::Incomplete);
                },
            };
            let numbers = read_ints(bytes, len as usize);
            assert(ints_at(start.skip(4), 0, len as int) =~= ints_at(start, 4, len as int));
            assert(start.skip(4).skip(4 * len) =~= start.skip(4 + 4 * len));
            Ok(NbtTag::IntArray(numbers))
        } else if tag_id == LONG_ARRAY_ID {
            let len = match try_get_i32(bytes) {
                Ok(n) => n,
                Err(_) => {
                    assert(start.skip(0) =~= start);
                    return Err(Error::Incomplete);
                },
            };
            let numbers = read_longs(bytes, len as usize);
            assert(longs_at(start.skip(4), 0, len as int) =~= longs_at(start, 4, len as int));
            assert(start.skip(4).skip(8 * len) =~= start.skip(4 + 8 * len));
            Ok(NbtTag::LongArray(numbers))
        } else {
            assert(start.skip(0) =~= start);
            Err(Error::UnknownTagId(tag_id))
        }
    }

    /// Reads the payload of a list: the element type id, the count, then the elements.
    /// Where all elements are compounds and some of them wrap a single unnamed child, as a
    /// list of mixed types is written, each such wrapper gives way to its child.
    fn deserialize_list(bytes: &mut &[u8]) -> (r: Result<Vec<NbtTag>, Error>)
        requires
            !(decode_data(old(bytes)@, LIST_ID) is Panics),
        ensures
            match decode_data(old(bytes)@, LIST_ID) {
                Decoded::Done(t, k) => r matches Ok(l) && t == SpecTag::List(list_model(l@))
                    && final(bytes)@ == old(bytes)@.skip(k),
                Decoded::Failed(e, k) => r == Err::<Vec<NbtTag>, Error>(e) && final(bytes)@ == old(
                    bytes,
                )@.skip(k),
                Decoded::Panics => false,
            },
        decreases old(bytes)@.len(), 1int,
    {
        let ghost start = old(bytes)@;
        let tag_type_id = match try_get_u8(bytes) {
            Ok(id) => id,
            Err(_) => {
                assert(start.skip(0) =~= start);
                return Err(Error::Incomplete);
            },
        };
        let len = match try_get_i32(bytes) {
            Ok(n) => n,
            Err(_) => return Err(Error::Incomplete),
        };
        assert(start.skip(1).skip(4) =~= start.skip(5));
        let ghost body = start.skip(5);
        let mut list: Vec<NbtTag> = Vec::new();
        let mut all_compounds = len != 0;
        let mut any_singletons = false;
        let ghost mut consumed: int = 0;
        assert(body.skip(0) =~= body);
        assert(list_model(list@) =~= Seq::empty());
        assert(after(Seq::empty(), 0, decode_elements(body, tag_type_id, len as int))
            == decode_elements(body, tag_type_id, len as int)) by {
            if let Decoded::Done(rest, k) = decode_elements(body, tag_type_id, len as int) {
                assert(Seq::<SpecTag>::empty() + rest =~= rest);
            }
        }
        let mut i: i32 = 0;
        while i < len
            invariant
                0 <= i <= len,
                start == old(bytes)@,
                start.len() >= 5,
                tag_type_id == start[0],
                len == be_u32_at(start, 1) as i32,
                body == start.skip(5),
                0 <= consumed <= body.len(),
                body.len() == start.len() - 5,
                bytes@ == body.skip(consumed),
                list@.len() == i,
                decode_elements(body, tag_type_id, len as int) == after(
                    list_model(list@),
                    consumed,
                    decode_elements(bytes@, tag_type_id, len - i),
                ),
                !(decode_elements(body, tag_type_id, len as int) is Panics),
                all_compounds == (len != 0 && forall|j: int|
                    0 <= j < i ==> #[trigger] list@[j] is Compound),
                any_singletons == exists|j: int|
                    0 <= j < i && #[trigger] is_wrapper(tag_model(list@[j])),
            decreases len - i,
        {
            let ghost cur = bytes@;
            let ghost d = decode_data(cur, tag_type_id);
            proof {
                lemma_decode_data_bounds(cur, tag_type_id);
            }
            let tag = match NbtTag::deserialize_data(bytes, tag_type_id) {
                Ok(t) => t,
                Err(e) => {
                    assert(body.skip(consumed).skip(d->Failed_1) =~= body.skip(
                        consumed + d->Failed_1,
                    ));
                    return Err(e);
                },
            };
            let ghost k = d->Done_1;
            assert(body.skip(consumed).skip(k) =~= body.skip(consumed + k));
            if tag.get_type_id() != tag_type_id {
                return Err(Error::ListDifferentType);
            }
            proof {
                lemma_elements_step(cur, tag_type_id, len - i);
                lemma_after_after(
                    list_model(list@),
                    consumed,
                    seq![tag_model(tag)],
                    k,
                    decode_elements(bytes@, tag_type_id, len - i - 1),
                );
                lemma_list_model_push(list@, tag);
                assert(list_model(list@) + seq![tag_model(tag)] =~= list_model(list@).push(
                    tag_model(tag),
                ));
                consumed = consumed + k;
            }
            match &tag {
                NbtTag::Compound(compound) => {
                    if !any_singletons && compound.is_wrapper() {
                        any_singletons = true;
                    }
                },
                _ => {
                    all_compounds = false;
                },
            }
            let ghost before = list@;
            list.push(tag);
            proof {
                assert(list@[i as int] == tag);
                assert forall|j: int| 0 <= j < i implies list@[j] == before[j] by {}
                if any_singletons && !exists|j: int|
                    0 <= j < i && #[trigger] is_wrapper(tag_model(before[j])) {
                    assert(is_wrapper(tag_model(list@[i as int])));
                }
            }
            i = i + 1;
        }
        proof {
            lemma_list_model(list@);
            assert(list_model(list@) + Seq::empty() =~= list_model(list@));
            assert(body.skip(consumed) =~= start.skip(5 + consumed));
            let l = list_model(list@);
            if all_compounds {
                assert forall|j: int| 0 <= j < l.len() implies #[trigger] l[j] is Compound by {
                    assert(list@[j] is Compound);
                }
            } else if len != 0 {
                let j = choose|j: int| 0 <= j < len && !(list@[j] is Compound);
                assert(!(l[j] is Compound));
            }
            if any_singletons {
                let j = choose|j: int| 0 <= j < len && #[trigger] is_wrapper(tag_model(list@[j]));
                assert(is_wrapper(l[j]));
            } else {
                assert forall|j: int| 0 <= j < l.len() implies !#[trigger] is_wrapper(l[j]) by {
                    assert(l[j] == tag_model(list@[j]));
                }
            }
        }
        if all_compounds && any_singletons {
            list = unwrap_wrappers(list);
        }
        Ok(list)
    }
}

/// Each wrapper of the list gives way to its child.
fn unwrap_wrappers(list: Vec<NbtTag>) -> (r: Vec<NbtTag>)
    ensures
        list_model(r@) == list_model(list@).map_values(|t: SpecTag| unwrapped(t)),
{
    let ghost orig = list@;
    let mut out: Vec<NbtTag> = Vec::new();
    for tag in it: list.into_iter()
        invariant
            it.seq() == orig,
            out@.len() == it.index(),
            forall|j: int| 0 <= j < out@.len() ==> #[trigger] tag_model(out@[j]) == unwrapped(
                tag_model(orig[j]),
            ),
    {
        let ghost model = tag_model(tag);
        let t = match tag {
            NbtTag::Compound(mut compound) => {
                if compound.is_wrapper() {
                    proof {
                        lemma_entries_model(compound.child_tags@);
                    }
                    compound.child_tags.remove(0).1
                } else {
                    NbtTag::Compound(compound)
                }
            },
            other => other,
        };
        assert(tag_model(t) == unwrapped(model));
        out.push(t);
    }
    proof {
        lemma_list_model(out@);
        lemma_list_model(orig);
        assert(list_model(out@) =~= list_model(orig).map_values(|t: SpecTag| unwrapped(t)));
    }
    out
}


/// A byte.
impl From<i8> for NbtTag {
    fn from(value: i8) -> (r: Self) {
        NbtTag::Byte(value)
    }
}

impl vstd::std_specs::convert::FromSpecImpl<i8> for NbtTag {
    open spec fn obeys_from_spec() -> bool {
        true
    }

    open spec fn from_spec(value: i8) -> Self {
        NbtTag::Byte(value)
    }
}

/// A short.
impl From<i16> for NbtTag {
    fn from(value: i16) -> (r: Self) {
        NbtTag::Short(value)
    }
}

impl vstd::std_specs::convert::FromSpecImpl<i16> for NbtTag {
    open spec fn obeys_from_spec() -> bool {
        true
    }

    open spec fn from_spec(value: i16) -> Self {
        NbtTag::Short(value)
    }
}

/// An int.
impl From<i32> for NbtTag {
    fn from(value: i32) -> (r: Self) {
        NbtTag::Int(value)
    }
}

impl vstd::std_specs::convert::FromSpecImpl<i32> for NbtTag {
    open spec fn obeys_from_spec() -> bool {
        true
    }

    open spec fn from_spec(value: i32) -> Self {
        NbtTag::Int(value)
    }
}

/// A long.
impl From<i64> for NbtTag {
    fn from(value: i64) -> (r: Self) {
        NbtTag::Long(value)
    }
}

impl vstd::std_specs::convert::FromSpecImpl<i64> for NbtTag {
    open spec fn obeys_from_spec() -> bool {
        true
    }

    open spec fn from_spec(value: i64) -> Self {
        NbtTag::Long(value)
    }
}

/// An array of bytes.
impl From<Bytes> for NbtTag {
    fn from(value: Bytes) -> (r: Self) {
        NbtTag::ByteArray(value)
    }
}

impl vstd::std_specs::convert::FromSpecImpl<Bytes> for NbtTag {
    open spec fn obeys_from_spec() -> bool {
        true
    }

    open spec fn from_spec(value: Bytes) -> Self {
        NbtTag::ByteArray(value)
    }
}

/// A string.
impl From<String> for NbtTag {
    fn from(value: String) -> (r: Self) {
        NbtTag::String(value)
    }
}

impl vstd::std_specs::convert::FromSpecImpl<String> for NbtTag {
    open spec fn obeys_from_spec() -> bool {
        true
    }

    open spec fn from_spec(value: String) -> Self {
        NbtTag::String(value)
    }
}

/// A list.
impl From<Vec<NbtTag>> for NbtTag {
    fn from(value: Vec<NbtTag>) -> (r: Self) {
        NbtTag::List(value)
    }
}

impl vstd::std_specs::convert::FromSpecImpl<Vec<NbtTag>> for NbtTag {
    open spec fn obeys_from_spec() -> bool {
        true
    }

    open spec fn from_spec(value: Vec<NbtTag>) -> Self {
        NbtTag::List(value)
    }
}

/// A compound.
impl From<NbtCompound> for NbtTag {
    fn from(value: NbtCompound) -> (r: Self) {
        NbtTag::Compound(value)
    }
}

impl vstd::std_specs::convert::FromSpecImpl<NbtCompound> for NbtTag {
    open spec fn obeys_from_spec() -> bool {
        true
    }

    open spec fn from_spec(value: NbtCompound) -> Self {
        NbtTag::Compound(value)
    }
}

/// An array of ints.
impl From<Vec<i32>> for NbtTag {
    fn from(value: Vec<i32>) -> (r: Self) {
        NbtTag::IntArray(value)
    }
}

impl vstd::std_specs::convert::FromSpecImpl<Vec<i32>> for NbtTag {
    open spec fn obeys_from_spec() -> bool {
        true
    }

    open spec fn from_spec(value: Vec<i32>) -> Self {
        NbtTag::IntArray(value)
    }
}

/// An array of longs.
impl From<Vec<i64>> for NbtTag {
    fn from(value: Vec<i64>) -> (r: Self) {
        NbtTag::LongArray(value)
    }
}

impl vstd::std_specs::convert::FromSpecImpl<Vec<i64>> for NbtTag {
    open spec fn obeys_from_spec() -> bool {
        true
    }

    open spec fn from_spec(value: Vec<i64>) -> Self {
        NbtTag::LongArray(value)
    }
}

/// A boolean as a byte: 1 for `true`, 0 for `false`.
impl From<bool> for NbtTag {
    fn from(value: bool) -> (r: Self) {
        NbtTag::Byte(if value { 1 } else { 0 })
    }
}

impl vstd::std_specs::convert::FromSpecImpl<bool> for NbtTag {
    open spec fn obeys_from_spec() -> bool {
        true
    }

    open spec fn from_spec(value: bool) -> Self {
        NbtTag::Byte(if value { 1 } else { 0 })
    }
}

/// A string tag holding a copy of the text.
impl From<&str> for NbtTag {
    fn from(value: &str) -> (r: Self)
        ensures
            r matches NbtTag::String(s) && s@ == value@,
    {
        NbtTag::String(value.to_string())
    }
}

/// The string that `from` builds is made at run time, so no spec value names it; what it
/// holds is stated on `from` itself.
impl vstd::std_specs::convert::FromSpecImpl<&str> for NbtTag {
    open spec fn obeys_from_spec() -> bool {
        false
    }

    open spec fn from_spec(value: &str) -> Self {
        NbtTag::End
    }
}

/// A byte array tag holding a copy of the bytes.
impl From<&[u8]> for NbtTag {
    fn from(value: &[u8]) -> (r: Self)
        ensures
            r matches NbtTag::ByteArray(b) && bytes_view(b) == value@,
    {
        NbtTag::ByteArray(bytes_copy_from_slice(value))
    }
}

/// The bytes that `from` copies are made at run time, so no spec value names them; what
/// they hold is stated on `from` itself.
impl vstd::std_specs::convert::FromSpecImpl<&[u8]> for NbtTag {
    open spec fn obeys_from_spec() -> bool {
        false
    }

    open spec fn from_spec(value: &[u8]) -> Self {
        NbtTag::End
    }
}


impl Clone for NbtTag {
    /// A copy with the same content.
    fn clone(&self) -> (r: Self)
        ensures
            tag_model(r) == tag_model(*self),
        decreases self,
    {
        match self {
            NbtTag::End => NbtTag::End,
            NbtTag::Byte(x) => NbtTag::Byte(*x),
            NbtTag::Short(x) => NbtTag::Short(*x),
            NbtTag::Int(x) => NbtTag::Int(*x),
            NbtTag::Long(x) => NbtTag::Long(*x),
            NbtTag::Float(x) => NbtTag::Float(*x),
            NbtTag::Double(x) => NbtTag::Double(*x),
            NbtTag::ByteArray(b) => NbtTag::ByteArray(b.clone()),
            NbtTag::String(s) => NbtTag::String(s.clone()),
            NbtTag::List(list) => {
                let n = list.len();
                let mut copy: Vec<NbtTag> = Vec::new();
                let mut i: usize = 0;
                while i < n
                    invariant
                        i <= n,
                        n == list@.len(),
                        *self == NbtTag::List(*list),
                        copy@.len() == i,
                        forall|j: int| 0 <= j < i ==> #[trigger] tag_model(copy@[j]) == tag_model(
                            list@[j],
                        ),
                    decreases n - i,
                {
                    proof {
                        assert(decreases_to!(*self => (*self)->List_0));
                        assert(decreases_to!(*list => list@));
                        assert(decreases_to!(list@ => list@[i as int]));
                    }
                    copy.push(list[i].clone());
                    i = i + 1;
                }
                proof {
                    lemma_list_model(copy@);
                    lemma_list_model(list@);
                    assert(list_model(copy@) =~= list_model(list@));
                }
                NbtTag::List(copy)
            },
            NbtTag::Compound(c) => NbtTag::Compound(c.clone()),
            NbtTag::IntArray(v) => NbtTag::IntArray(v.clone()),
            NbtTag::LongArray(v) => NbtTag::LongArray(v.clone()),
        }
    }
}


/// How far a read of `d` takes: the bytes it consumed, whether it succeeded or failed.
pub open spec fn consumed<T>(d: Decoded<T>) -> int {
    match d {
        Decoded::Done(_, k) => k,
        Decoded::Failed(_, k) => k,
        Decoded::Panics => 0,
    }
}

impl NbtTag {
    /// Reads a tag, type id first, at the position of the cursor, and moves the cursor past
    /// the bytes read.
    pub fn deserialize_from_cursor(cursor: &mut Cursor<&[u8]>) -> (r: Result<NbtTag, Error>)
        requires
            cursor_rest(*old(cursor)).len() >= 1 ==> !(decode_data(
                cursor_rest(*old(cursor)).skip(1),
                cursor_rest(*old(cursor))[0],
            ) is Panics),
        ensures
            ({
                let rest = cursor_rest(*old(cursor));
                let d = decode_data(rest.skip(1), rest[0]);
                &&& cursor_data(*final(cursor)) == cursor_data(*old(cursor))
                &&& rest.len() < 1 ==> r == Err::<NbtTag, Error>(Error::Incomplete) && cursor_pos(
                    *final(cursor),
                ) == cursor_pos(*old(cursor))
                &&& rest.len() >= 1 ==> cursor_pos(*final(cursor)) == cursor_pos(*old(cursor)) + 1
                    + consumed(d)
                &&& rest.len() >= 1 ==> match d {
                    Decoded::Done(t, _) => r matches Ok(tag) && tag_model(tag) == t,
                    Decoded::Failed(e, _) => r == Err::<NbtTag, Error>(e),
                    Decoded::Panics => false,
                }
            }),
    {
        let data = cursor_get_ref(cursor);
        let pos = cursor_position(cursor);
        let start: usize = if pos >= data.len() as u64 {
            data.len()
        } else {
            pos as usize
        };
        let mut rest = vstd::slice::slice_subrange(data, start, data.len());
        assert(rest@ =~= cursor_rest(*old(cursor)));
        proof {
            if cursor_rest(*old(cursor)).len() >= 1 {
                lemma_decode_data_bounds(
                    cursor_rest(*old(cursor)).skip(1),
                    cursor_rest(*old(cursor))[0],
                );
            }
        }
        let r = Self::deserialize(&mut rest);
        let taken = (data.len() - start) - rest.len();
        cursor_set_position(cursor, pos + taken as u64);
        r
    }

    /// Reads the payload of a tag of type `tag_id` at the position of the cursor, and moves
    /// the cursor past the bytes read.
    pub fn deserialize_data_from_cursor(cursor: &mut Cursor<&[u8]>, tag_id: u8) -> (r: Result<
        NbtTag,
        Error,
    >)
        requires
            !(decode_data(cursor_rest(*old(cursor)), tag_id) is Panics),
        ensures
            ({
                let d = decode_data(cursor_rest(*old(cursor)), tag_id);
                &&& cursor_data(*final(cursor)) == cursor_data(*old(cursor))
                &&& cursor_pos(*final(cursor)) == cursor_pos(*old(cursor)) + consumed(d)
                &&& match d {
                    Decoded::Done(t, _) => r matches Ok(tag) && tag_model(tag) == t,
                    Decoded::Failed(e, _) => r == Err::<NbtTag, Error>(e),
                    Decoded::Panics => false,
                }
            }),
    {
        let data = cursor_get_ref(cursor);
        let pos = cursor_position(cursor);
        let start: usize = if pos >= data.len() as u64 {
            data.len()
        } else {
            pos as usize
        };
        let mut rest = vstd::slice::slice_subrange(data, start, data.len());
        assert(rest@ =~= cursor_rest(*old(cursor)));
        proof {
            lemma_decode_data_bounds(cursor_rest(*old(cursor)), tag_id);
        }
        let r = Self::deserialize_data(&mut rest, tag_id);
        let taken = (data.len() - start) - rest.len();
        cursor_set_position(cursor, pos + taken as u64);
        r
    }
}

} // verus!

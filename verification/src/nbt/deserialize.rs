//! Reading tags from their binary form.
use vstd::prelude::*;
use crate::error::Error;
use crate::nbt::buffers::bytes_as_slice;
use crate::nbt::cesu8::{cesu8_decode, cesu8_decoding};
use crate::nbt::reading::{be_u16_at, be_u32_at, be_u64_at, copy_to_bytes, try_get_i32, try_get_i64, try_get_u16};
use crate::nbt::tag::{
    SpecTag, BYTE_ARRAY_ID, BYTE_ID, COMPOUND_ID, DOUBLE_ID, END_ID, FLOAT_ID, INT_ARRAY_ID, INT_ID,
    LIST_ID, LONG_ARRAY_ID, LONG_ID, SHORT_ID, STRING_ID,
};

verus! {

/// What reading binary data comes to: a value and how many bytes it took, a failure and how
/// many bytes were read before it, or an input on which no outcome is defined.
pub enum Decoded<T> {
    Done(T, int),
    Failed(Error, int),
    Panics,
}

/// A string as NBT writes it, at the front of `c`: a big-endian `u16` length, then that many
/// bytes of CESU-8.
pub open spec fn decode_string(c: Seq<u8>) -> Decoded<Seq<char>> {
    if c.len() < 2 {
        Decoded::Failed(Error::Incomplete, 0)
    } else {
        let n = be_u16_at(c, 0);
        if 2 + n > c.len() {
            Decoded::Failed(Error::Incomplete, 2)
        } else {
            match cesu8_decoding(c.subrange(2, 2 + n)) {
                Some(s) => Decoded::Done(s, 2 + n),
                None => Decoded::Failed(Error::InvalidJavaString, 2 + n),
            }
        }
    }
}

/// The `n` big-endian `i32`s at index `p` of `b`.
pub open spec fn ints_at(b: Seq<u8>, p: int, n: int) -> Seq<i32> {
    Seq::new(n as nat, |i: int| be_u32_at(b, p + 4 * i) as i32)
}

/// The `n` big-endian `i64`s at index `p` of `b`.
pub open spec fn longs_at(b: Seq<u8>, p: int, n: int) -> Seq<i64> {
    Seq::new(n as nat, |i: int| be_u64_at(b, p + 8 * i) as i64)
}

/// A compound with a single child under the empty name: how a list of mixed types holds an
/// element that is not a compound.
pub open spec fn is_wrapper(t: SpecTag) -> bool {
    t matches SpecTag::Compound(e) && e.len() == 1 && e[0].0.len() == 0
}

/// The child of a wrapper; any other tag as it is.
pub open spec fn unwrapped(t: SpecTag) -> SpecTag {
    if is_wrapper(t) {
        t->Compound_0[0].1
    } else {
        t
    }
}

/// The elements of a list read from binary data: where all of them are compounds and some
/// wrap a single unnamed child, each such wrapper is replaced by its child.
pub open spec fn unwrap_singletons(l: Seq<SpecTag>) -> Seq<SpecTag> {
    let all_compounds = l.len() != 0 && forall|i: int| 0 <= i < l.len() ==> #[trigger] l[i] is Compound;
    let any_singletons = exists|i: int| 0 <= i < l.len() && #[trigger] is_wrapper(l[i]);
    if all_compounds && any_singletons {
        l.map_values(|t: SpecTag| unwrapped(t))
    } else {
        l
    }
}

/// The payload of a tag of type `id` at the front of `c`.
pub open spec fn decode_data(c: Seq<u8>, id: u8) -> Decoded<SpecTag>
    decreases c.len(), 1int, 0int,
{
    let rem = c.len();
    if id == END_ID {
        Decoded::Done(SpecTag::End, 0)
    } else if id == BYTE_ID {
        if rem >= 1 {
            Decoded::Done(SpecTag::Byte(c[0] as i8), 1)
        } else {
            Decoded::Failed(Error::Incomplete, 0)
        }
    } else if id == SHORT_ID {
        if rem >= 2 {
            Decoded::Done(SpecTag::Short(be_u16_at(c, 0) as i16), 2)
        } else {
            Decoded::Failed(Error::Incomplete, 0)
        }
    } else if id == INT_ID {
        if rem >= 4 {
            Decoded::Done(SpecTag::Int(be_u32_at(c, 0) as i32), 4)
        } else {
            Decoded::Failed(Error::Incomplete, 0)
        }
    } else if id == LONG_ID {
        if rem >= 8 {
            Decoded::Done(SpecTag::Long(be_u64_at(c, 0) as i64), 8)
        } else {
            Decoded::Failed(Error::Incomplete, 0)
        }
    } else if id == FLOAT_ID {
        if rem >= 4 {
            Decoded::Done(SpecTag::Float(be_u32_at(c, 0) as u32), 4)
        } else {
            Decoded::Failed(Error::Incomplete, 0)
        }
    } else if id == DOUBLE_ID {
        if rem >= 8 {
            Decoded::Done(SpecTag::Double(be_u64_at(c, 0) as u64), 8)
        } else {
            Decoded::Failed(Error::Incomplete, 0)
        }
    } else if id == BYTE_ARRAY_ID {
        if rem < 4 {
            Decoded::Failed(Error::Incomplete, 0)
        } else {
            let n = be_u32_at(c, 0) as i32;
            if n < 0 || n > rem - 4 {
                Decoded::Panics
            } else {
                Decoded::Done(SpecTag::ByteArray(c.subrange(4, 4 + n)), 4 + n)
            }
        }
    } else if id == STRING_ID {
        match decode_string(c) {
            Decoded::Done(s, k) => Decoded::Done(SpecTag::String(s), k),
            _ => Decoded::Panics,
        }
    } else if id == LIST_ID {
        if rem < 1 {
            Decoded::Failed(Error::Incomplete, 0)
        } else if rem < 5 {
            Decoded::Failed(Error::Incomplete, 1)
        } else {
            let ty = c[0];
            let n = be_u32_at(c, 1) as i32;
            if n < 0 {
                Decoded::Panics
            } else {
                match decode_elements(c.skip(5), ty, n as int) {
                    Decoded::Done(l, k) => Decoded::Done(SpecTag::List(unwrap_singletons(l)), 5 + k),
                    Decoded::Failed(e, k) => Decoded::Failed(e, 5 + k),
                    Decoded::Panics => Decoded::Panics,
                }
            }
        }
    } else if id == COMPOUND_ID {
        match decode_entries(c) {
            Decoded::Done(e, k) => Decoded::Done(SpecTag::Compound(e), k),
            Decoded::Failed(e, k) => Decoded::Failed(e, k),
            Decoded::Panics => Decoded::Panics,
        }
    } else if id == INT_ARRAY_ID {
        if rem < 4 {
            Decoded::Failed(Error::Incomplete, 0)
        } else {
            let n = be_u32_at(c, 0) as i32;
            if n < 0 || 4 * n > rem - 4 {
                Decoded::Panics
            } else {
                Decoded::Done(SpecTag::IntArray(ints_at(c, 4, n as int)), 4 + 4 * n)
            }
        }
    } else if id == LONG_ARRAY_ID {
        if rem < 4 {
            Decoded::Failed(Error::Incomplete, 0)
        } else {
            let n = be_u32_at(c, 0) as i32;
            if n < 0 || 8 * n > rem - 4 {
                Decoded::Panics
            } else {
                Decoded::Done(SpecTag::LongArray(longs_at(c, 4, n as int)), 4 + 8 * n)
            }
        }
    } else {
        Decoded::Failed(Error::UnknownTagId(id), 0)
    }
}

/// `n` payloads of type `ty`, one after another, at the front of `c`.
pub open spec fn decode_elements(c: Seq<u8>, ty: u8, n: int) -> Decoded<Seq<SpecTag>>
    decreases c.len(), 2int, n,
{
    if n <= 0 {
        Decoded::Done(Seq::empty(), 0)
    } else {
        match decode_data(c, ty) {
            Decoded::Done(t, k) => if t.type_id() != ty {
                Decoded::Failed(Error::ListDifferentType, k)
            } else if k < 0 || k > c.len() {
                Decoded::Panics
            } else {
                match decode_elements(c.skip(k), ty, n - 1) {
                    Decoded::Done(rest, k2) => Decoded::Done(seq![t] + rest, k + k2),
                    Decoded::Failed(e, k2) => Decoded::Failed(e, k + k2),
                    Decoded::Panics => Decoded::Panics,
                }
            },
            Decoded::Failed(e, k) => Decoded::Failed(e, k),
            Decoded::Panics => Decoded::Panics,
        }
    }
}

/// The named children of a compound at the front of `c`: each a type id, a name and a
/// payload, up to the `End` id.
pub open spec fn decode_entries(c: Seq<u8>) -> Decoded<Seq<(Seq<char>, SpecTag)>>
    decreases c.len(), 0int, 0int,
{
    if c.len() == 0 {
        Decoded::Failed(Error::Incomplete, 0)
    } else {
        let id = c[0];
        if id == END_ID {
            Decoded::Done(Seq::empty(), 1)
        } else {
            match decode_string(c.skip(1)) {
                Decoded::Done(name, k) => if k < 0 || 1 + k > c.len() {
                    Decoded::Panics
                } else {
                    match decode_data(c.skip(1 + k), id) {
                        Decoded::Done(t, k2) => if k2 < 0 || 1 + k + k2 > c.len() {
                            Decoded::Panics
                        } else {
                            match decode_entries(c.skip(1 + k + k2)) {
                                Decoded::Done(rest, k3) => Decoded::Done(
                                    seq![(name, t)] + rest,
                                    1 + k + k2 + k3,
                                ),
                                Decoded::Failed(e, k3) => Decoded::Failed(e, 1 + k + k2 + k3),
                                Decoded::Panics => Decoded::Panics,
                            }
                        },
                        Decoded::Failed(e, k2) => Decoded::Failed(e, 1 + k + k2),
                        Decoded::Panics => Decoded::Panics,
                    }
                },
                Decoded::Failed(e, k) => Decoded::Failed(e, 1 + k),
                Decoded::Panics => Decoded::Panics,
            }
        }
    }
}


/// `d` read after `consumed` bytes that gave the items `prefix`.
pub open spec fn after<T>(prefix: Seq<T>, consumed: int, d: Decoded<Seq<T>>) -> Decoded<Seq<T>> {
    match d {
        Decoded::Done(rest, k) => Decoded::Done(prefix + rest, consumed + k),
        Decoded::Failed(e, k) => Decoded::Failed(e, consumed + k),
        Decoded::Panics => Decoded::Panics,
    }
}

/// What a read comes to is never more bytes than there are.
pub proof fn lemma_decode_data_bounds(c: Seq<u8>, id: u8)
    ensures
        decode_data(c, id) matches Decoded::Done(_, k) ==> 0 <= k <= c.len(),
        decode_data(c, id) matches Decoded::Failed(_, k) ==> 0 <= k <= c.len(),
    decreases c.len(), 1int, 0int,
{
    if id == LIST_ID && c.len() >= 5 {
        let n = be_u32_at(c, 1) as i32;
        if n >= 0 {
            lemma_decode_elements_bounds(c.skip(5), c[0], n as int);
        }
    } else if id == COMPOUND_ID {
        lemma_decode_entries_bounds(c);
    }
}

pub proof fn lemma_decode_elements_bounds(c: Seq<u8>, ty: u8, n: int)
    ensures
        decode_elements(c, ty, n) matches Decoded::Done(_, k) ==> 0 <= k <= c.len(),
        decode_elements(c, ty, n) matches Decoded::Failed(_, k) ==> 0 <= k <= c.len(),
    decreases c.len(), 2int, n,
{
    if n > 0 {
        lemma_decode_data_bounds(c, ty);
        if let Decoded::Done(t, k) = decode_data(c, ty) {
            if t.type_id() == ty && 0 <= k <= c.len() {
                lemma_decode_elements_bounds(c.skip(k), ty, n - 1);
            }
        }
    }
}

pub proof fn lemma_decode_entries_bounds(c: Seq<u8>)
    ensures
        decode_entries(c) matches Decoded::Done(_, k) ==> 0 <= k <= c.len(),
        decode_entries(c) matches Decoded::Failed(_, k) ==> 0 <= k <= c.len(),
    decreases c.len(), 0int, 0int,
{
    if c.len() > 0 && c[0] != END_ID {
        let id = c[0];
        if let Decoded::Done(name, k) = decode_string(c.skip(1)) {
            if 0 <= k && 1 + k <= c.len() {
                lemma_decode_data_bounds(c.skip(1 + k), id);
                if let Decoded::Done(t, k2) = decode_data(c.skip(1 + k), id) {
                    if 0 <= k2 && 1 + k + k2 <= c.len() {
                        lemma_decode_entries_bounds(c.skip(1 + k + k2));
                    }
                }
            }
        }
    }
}

/// Reading after two stretches is reading after both at once.
pub proof fn lemma_after_after<T>(p: Seq<T>, k: int, q: Seq<T>, k2: int, d: Decoded<Seq<T>>)
    ensures
        after(p, k, after(q, k2, d)) == after(p + q, k + k2, d),
{
    if let Decoded::Done(rest, k3) = d {
        assert(p + (q + rest) =~= (p + q) + rest);
    }
}


/// Reads a string as NBT writes it: a big-endian `u16` length, then that many bytes of
/// CESU-8.
pub fn get_nbt_string(bytes: &mut &[u8]) -> (r: Result<String, Error>)
    ensures
        match decode_string(old(bytes)@) {
            Decoded::Done(s, k) => r matches Ok(x) && x@ == s && final(bytes)@ == old(bytes)@.skip(k),
            Decoded::Failed(e, k) => r == Err::<String, Error>(e) && final(bytes)@ == old(
                bytes,
            )@.skip(k),
            Decoded::Panics => false,
        },
{
    let len = match try_get_u16(bytes) {
        Ok(n) => n as usize,
        Err(_) => return Err(Error::Incomplete),
    };
    if len > bytes.len() {
        return Err(Error::Incomplete);
    }
    let ghost start = *old(bytes);
    let raw = copy_to_bytes(bytes, len);
    assert(start@.skip(2).take(len as int) =~= start@.subrange(2, 2 + len));
    assert(start@.skip(2).skip(len as int) =~= start@.skip(2 + len));
    match cesu8_decode(bytes_as_slice(&raw)) {
        Some(s) => Ok(s),
        None => Err(Error::InvalidJavaString),
    }
}


/// Reads `n` big-endian `i32`s.
pub(crate) fn read_ints(bytes: &mut &[u8], n: usize) -> (r: Vec<i32>)
    requires
        4 * n <= old(bytes)@.len(),
    ensures
        r@ == ints_at(old(bytes)@, 0, n as int),
        final(bytes)@ == old(bytes)@.skip(4 * n),
{
    let ghost start = old(bytes)@;
    let mut v: Vec<i32> = Vec::new();
    let mut i: usize = 0;
    assert(start.skip(0) =~= start);
    while i < n
        invariant
            i <= n,
            4 * n <= start.len(),
            bytes@ == start.skip(4 * i),
            v@ == ints_at(start, 0, i as int),
        decreases n - i,
    {
        let x = match try_get_i32(bytes) {
            Ok(x) => x,
            Err(_) => {
                proof {
                    assert(false);
                }
                return v;
            },
        };
        assert(be_u32_at(start.skip(4 * i), 0) == be_u32_at(start, 4 * i));
        v.push(x);
        i = i + 1;
        assert(v@ =~= ints_at(start, 0, i as int));
        assert(start.skip(4 * (i - 1)).skip(4) =~= start.skip(4 * i));
    }
    v
}

/// Reads `n` big-endian `i64`s.
pub(crate) fn read_longs(bytes: &mut &[u8], n: usize) -> (r: Vec<i64>)
    requires
        8 * n <= old(bytes)@.len(),
    ensures
        r@ == longs_at(old(bytes)@, 0, n as int),
        final(bytes)@ == old(bytes)@.skip(8 * n),
{
    let ghost start = old(bytes)@;
    let mut v: Vec<i64> = Vec::new();
    let mut i: usize = 0;
    assert(start.skip(0) =~= start);
    while i < n
        invariant
            i <= n,
            8 * n <= start.len(),
            bytes@ == start.skip(8 * i),
            v@ == longs_at(start, 0, i as int),
        decreases n - i,
    {
        let x = match try_get_i64(bytes) {
            Ok(x) => x,
            Err(_) => {
                proof {
                    assert(false);
                }
                return v;
            },
        };
        assert(be_u64_at(start.skip(8 * i), 0) == be_u64_at(start, 8 * i));
        v.push(x);
        i = i + 1;
        assert(v@ =~= longs_at(start, 0, i as int));
        assert(start.skip(8 * (i - 1)).skip(8) =~= start.skip(8 * i));
    }
    v
}


/// One element of a list, then the rest.
pub proof fn lemma_elements_step(c: Seq<u8>, ty: u8, n: int)
    requires
        n > 0,
        decode_data(c, ty) is Done,
        decode_data(c, ty)->Done_0.type_id() == ty,
    ensures
        ({
            let k = decode_data(c, ty)->Done_1;
            &&& 0 <= k <= c.len()
            &&& decode_elements(c, ty, n) == after(
                seq![decode_data(c, ty)->Done_0],
                k,
                decode_elements(c.skip(k), ty, n - 1),
            )
        }),
{
    lemma_decode_data_bounds(c, ty);
    let k = decode_data(c, ty)->Done_1;
    let t = decode_data(c, ty)->Done_0;
    lemma_decode_elements_bounds(c.skip(k), ty, n - 1);
}

/// One named child of a compound, then the rest.
pub proof fn lemma_entries_step(c: Seq<u8>)
    requires
        c.len() > 0,
        c[0] != END_ID,
        decode_string(c.skip(1)) is Done,
        decode_data(c.skip(1 + decode_string(c.skip(1))->Done_1), c[0]) is Done,
    ensures
        ({
            let k = decode_string(c.skip(1))->Done_1;
            let d = decode_data(c.skip(1 + k), c[0]);
            let k2 = d->Done_1;
            &&& 0 <= k && 1 + k <= c.len()
            &&& 0 <= k2 && 1 + k + k2 <= c.len()
            &&& decode_entries(c) == after(
                seq![(decode_string(c.skip(1))->Done_0, d->Done_0)],
                1 + k + k2,
                decode_entries(c.skip(1 + k + k2)),
            )
        }),
{
    let k = decode_string(c.skip(1))->Done_1;
    lemma_decode_data_bounds(c.skip(1 + k), c[0]);
}


/// A tag read as a type has that type, so reading the elements of a list never fails for
/// an element of another type.
pub proof fn lemma_read_type_kept(c: Seq<u8>, id: u8)
    ensures
        decode_data(c, id) matches Decoded::Done(t, _) ==> t.type_id() == id,
        !(decode_data(c, id) matches Decoded::Failed(Error::ListDifferentType, _)),
    decreases c.len(), 1int, 0int,
{
    if id == LIST_ID && c.len() >= 5 {
        let n = be_u32_at(c, 1) as i32;
        if n >= 0 {
            lemma_elements_type_kept(c.skip(5), c[0], n as int);
        }
    } else if id == COMPOUND_ID {
        lemma_entries_type_kept(c);
    }
}

proof fn lemma_elements_type_kept(c: Seq<u8>, ty: u8, n: int)
    ensures
        !(decode_elements(c, ty, n) matches Decoded::Failed(Error::ListDifferentType, _)),
    decreases c.len(), 2int, n,
{
    if n > 0 {
        lemma_read_type_kept(c, ty);
        if let Decoded::Done(t, k) = decode_data(c, ty) {
            if 0 <= k <= c.len() {
                lemma_elements_type_kept(c.skip(k), ty, n - 1);
            }
        }
    }
}

proof fn lemma_entries_type_kept(c: Seq<u8>)
    ensures
        !(decode_entries(c) matches Decoded::Failed(Error::ListDifferentType, _)),
    decreases c.len(), 0int, 0int,
{
    if c.len() > 0 && c[0] != END_ID {
        let id = c[0];
        if let Decoded::Done(name, k) = decode_string(c.skip(1)) {
            if 0 <= k && 1 + k <= c.len() {
                lemma_read_type_kept(c.skip(1 + k), id);
                if let Decoded::Done(t, k2) = decode_data(c.skip(1 + k), id) {
                    if 0 <= k2 && 1 + k + k2 <= c.len() {
                        lemma_entries_type_kept(c.skip(1 + k + k2));
                    }
                }
            }
        }
    }
}

} // verus!

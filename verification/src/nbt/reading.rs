//! Reading big-endian values from the front of a byte slice, through `bytes::Buf`.
use vstd::prelude::*;
use bytes::{Buf, Bytes, TryGetError};
use std::io::Cursor;
use crate::nbt::buffers::bytes_view;

verus! {

#[verifier::external_type_specification]
#[verifier::external_body]
pub struct ExTryGetError(TryGetError);

/// The big-endian 16-bit value at index `p` of `b`.
pub open spec fn be_u16_at(b: Seq<u8>, p: int) -> int {
    b[p] * 0x100 + b[p + 1]
}

/// The big-endian 32-bit value at index `p` of `b`.
pub open spec fn be_u32_at(b: Seq<u8>, p: int) -> int {
    be_u16_at(b, p) * 0x1_0000 + be_u16_at(b, p + 2)
}

/// The big-endian 64-bit value at index `p` of `b`.
pub open spec fn be_u64_at(b: Seq<u8>, p: int) -> int {
    be_u32_at(b, p) * 0x1_0000_0000 + be_u32_at(b, p + 4)
}

/// `Buf::try_get_u8` on a slice: the first byte, which is then skipped; `Err` and nothing
/// skipped where the slice is empty.
#[verifier::external_body]
pub(crate) fn try_get_u8(buf: &mut &[u8]) -> (r: Result<u8, TryGetError>)
    ensures
        old(buf)@.len() >= 1 ==> r == Ok::<u8, TryGetError>(old(buf)@[0]) && final(buf)@
            == old(buf)@.skip(1),
        old(buf)@.len() < 1 ==> r is Err && final(buf)@ == old(buf)@,
{
    buf.try_get_u8()
}

/// `Buf::try_get_i8` on a slice: the first byte as an `i8`, which is then skipped; `Err` and
/// nothing skipped where the slice is empty.
#[verifier::external_body]
pub(crate) fn try_get_i8(buf: &mut &[u8]) -> (r: Result<i8, TryGetError>)
    ensures
        old(buf)@.len() >= 1 ==> r == Ok::<i8, TryGetError>(old(buf)@[0] as i8) && final(buf)@
            == old(buf)@.skip(1),
        old(buf)@.len() < 1 ==> r is Err && final(buf)@ == old(buf)@,
{
    buf.try_get_i8()
}

/// `Buf::try_get_u16` on a slice: the first two bytes, big-endian, which are then skipped;
/// `Err` and nothing skipped where fewer remain.
#[verifier::external_body]
pub(crate) fn try_get_u16(buf: &mut &[u8]) -> (r: Result<u16, TryGetError>)
    ensures
        old(buf)@.len() >= 2 ==> r == Ok::<u16, TryGetError>(be_u16_at(old(buf)@, 0) as u16)
            && final(buf)@ == old(buf)@.skip(2),
        old(buf)@.len() < 2 ==> r is Err && final(buf)@ == old(buf)@,
{
    buf.try_get_u16()
}

/// `Buf::try_get_i16` on a slice: the first two bytes, big-endian, as an `i16`; `Err` and
/// nothing skipped where fewer remain.
#[verifier::external_body]
pub(crate) fn try_get_i16(buf: &mut &[u8]) -> (r: Result<i16, TryGetError>)
    ensures
        old(buf)@.len() >= 2 ==> r == Ok::<i16, TryGetError>(be_u16_at(old(buf)@, 0) as i16)
            && final(buf)@ == old(buf)@.skip(2),
        old(buf)@.len() < 2 ==> r is Err && final(buf)@ == old(buf)@,
{
    buf.try_get_i16()
}

/// `Buf::try_get_u32` on a slice: the first four bytes, big-endian; `Err` and nothing skipped
/// where fewer remain. (`try_get_f32` is `f32::from_bits` of it.)
#[verifier::external_body]
pub(crate) fn try_get_u32(buf: &mut &[u8]) -> (r: Result<u32, TryGetError>)
    ensures
        old(buf)@.len() >= 4 ==> r == Ok::<u32, TryGetError>(be_u32_at(old(buf)@, 0) as u32)
            && final(buf)@ == old(buf)@.skip(4),
        old(buf)@.len() < 4 ==> r is Err && final(buf)@ == old(buf)@,
{
    buf.try_get_u32()
}

/// `Buf::try_get_i32` on a slice: the first four bytes, big-endian, as an `i32`; `Err` and
/// nothing skipped where fewer remain.
#[verifier::external_body]
pub(crate) fn try_get_i32(buf: &mut &[u8]) -> (r: Result<i32, TryGetError>)
    ensures
        old(buf)@.len() >= 4 ==> r == Ok::<i32, TryGetError>(be_u32_at(old(buf)@, 0) as i32)
            && final(buf)@ == old(buf)@.skip(4),
        old(buf)@.len() < 4 ==> r is Err && final(buf)@ == old(buf)@,
{
    buf.try_get_i32()
}

/// `Buf::try_get_u64` on a slice: the first eight bytes, big-endian; `Err` and nothing
/// skipped where fewer remain. (`try_get_f64` is `f64::from_bits` of it.)
#[verifier::external_body]
pub(crate) fn try_get_u64(buf: &mut &[u8]) -> (r: Result<u64, TryGetError>)
    ensures
        old(buf)@.len() >= 8 ==> r == Ok::<u64, TryGetError>(be_u64_at(old(buf)@, 0) as u64)
            && final(buf)@ == old(buf)@.skip(8),
        old(buf)@.len() < 8 ==> r is Err && final(buf)@ == old(buf)@,
{
    buf.try_get_u64()
}

/// `Buf::try_get_i64` on a slice: the first eight bytes, big-endian, as an `i64`; `Err` and
/// nothing skipped where fewer remain.
#[verifier::external_body]
pub(crate) fn try_get_i64(buf: &mut &[u8]) -> (r: Result<i64, TryGetError>)
    ensures
        old(buf)@.len() >= 8 ==> r == Ok::<i64, TryGetError>(be_u64_at(old(buf)@, 0) as i64)
            && final(buf)@ == old(buf)@.skip(8),
        old(buf)@.len() < 8 ==> r is Err && final(buf)@ == old(buf)@,
{
    buf.try_get_i64()
}

/// `Buf::copy_to_bytes` on a slice: the first `len` bytes, which are then skipped. It panics
/// where fewer remain.
#[verifier::external_body]
pub(crate) fn copy_to_bytes(buf: &mut &[u8], len: usize) -> (r: Bytes)
    requires
        len <= old(buf)@.len(),
    ensures
        bytes_view(r) == old(buf)@.take(len as int),
        final(buf)@ == old(buf)@.skip(len as int),
{
    buf.copy_to_bytes(len)
}


#[verifier::external_type_specification]
#[verifier::external_body]
#[verifier::reject_recursive_types(T)]
pub struct ExCursor<T>(Cursor<T>);

/// The bytes that a cursor runs over.
pub uninterp spec fn cursor_data(c: Cursor<&[u8]>) -> Seq<u8>;

/// The position of a cursor in its bytes.
pub uninterp spec fn cursor_pos(c: Cursor<&[u8]>) -> u64;

/// The bytes that reading from a cursor through `bytes::Buf` sees: those from its position
/// on, none where the position is past the end.
pub open spec fn cursor_rest(c: Cursor<&[u8]>) -> Seq<u8> {
    if cursor_pos(c) >= cursor_data(c).len() {
        Seq::empty()
    } else {
        cursor_data(c).skip(cursor_pos(c) as int)
    }
}

/// `Cursor::get_ref`: the bytes that the cursor runs over.
#[verifier::external_body]
pub(crate) fn cursor_get_ref<'a>(c: &Cursor<&'a [u8]>) -> (r: &'a [u8])
    ensures
        r@ == cursor_data(*c),
{
    c.get_ref()
}

/// `Cursor::position`: the position of the cursor.
#[verifier::external_body]
pub(crate) fn cursor_position(c: &Cursor<&[u8]>) -> (r: u64)
    ensures
        r == cursor_pos(*c),
{
    c.position()
}

/// `Cursor::new`: a cursor over the bytes, at position 0.
#[verifier::external_body]
pub(crate) fn cursor_new<'a>(b: &'a [u8]) -> (c: Cursor<&'a [u8]>)
    ensures
        cursor_data(c) == b@,
        cursor_pos(c) == 0,
{
    Cursor::new(b)
}

/// A cursor over `bytes`, at their beginning.
pub fn cursor_over<'a>(bytes: &'a [u8]) -> (c: Cursor<&'a [u8]>)
    ensures
        cursor_data(c) == bytes@,
        cursor_pos(c) == 0,
        cursor_rest(c) == bytes@,
{
    let c = cursor_new(bytes);
    assert(bytes@.skip(0) =~= bytes@);
    c
}

/// The bytes that the readers from a cursor see: those from its position on, none where
/// the position is past the end.
pub fn cursor_unread<'a>(c: &Cursor<&'a [u8]>) -> (r: &'a [u8])
    ensures
        r@ == cursor_rest(*c),
{
    let data = cursor_get_ref(c);
    let pos = cursor_position(c);
    let start: usize = if pos >= data.len() as u64 {
        data.len()
    } else {
        pos as usize
    };
    let r = vstd::slice::slice_subrange(data, start, data.len());
    assert(r@ =~= cursor_rest(*c));
    r
}

/// `Cursor::set_position`: moves the cursor, over the same bytes.
#[verifier::external_body]
pub(crate) fn cursor_set_position(c: &mut Cursor<&[u8]>, p: u64)
    ensures
        cursor_data(*final(c)) == cursor_data(*old(c)),
        cursor_pos(*final(c)) == p,
{
    c.set_position(p)
}

} // verus!

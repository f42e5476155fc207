//! The byte buffers of the `bytes` crate, seen as sequences of bytes.
use vstd::prelude::*;
use bytes::{Buf, BufMut, Bytes, BytesMut};

verus! {

#[verifier::external_type_specification]
#[verifier::external_body]
pub struct ExBytes(Bytes);

#[verifier::external_type_specification]
#[verifier::external_body]
pub struct ExBytesMut(BytesMut);

/// The bytes that a `Bytes` holds.
pub uninterp spec fn bytes_view(b: Bytes) -> Seq<u8>;

/// The bytes written to a `BytesMut` so far.
pub uninterp spec fn bytes_mut_view(b: BytesMut) -> Seq<u8>;

/// The big-endian bytes of a 16-bit value.
pub open spec fn be16(x: u16) -> Seq<u8> {
    seq![(x / 0x100) as u8, (x % 0x100) as u8]
}

/// The big-endian bytes of a 32-bit value.
pub open spec fn be32(x: u32) -> Seq<u8> {
    be16((x / 0x1_0000) as u16) + be16((x % 0x1_0000) as u16)
}

/// The big-endian bytes of a 64-bit value.
pub open spec fn be64(x: u64) -> Seq<u8> {
    be32((x / 0x1_0000_0000) as u32) + be32((x % 0x1_0000_0000) as u32)
}

/// `Bytes::from(Vec<u8>)`: the bytes of the vector.
#[verifier::external_body]
pub(crate) fn bytes_from_vec(v: Vec<u8>) -> (b: Bytes)
    ensures
        bytes_view(b) == v@,
{
    Bytes::from(v)
}

/// `Bytes::copy_from_slice`: a copy of the bytes of the slice.
#[verifier::external_body]
pub(crate) fn bytes_copy_from_slice(s: &[u8]) -> (b: Bytes)
    ensures
        bytes_view(b) == s@,
{
    Bytes::copy_from_slice(s)
}

/// `Bytes::clone`: the same bytes.
pub assume_specification[ <Bytes as Clone>::clone ](b: &Bytes) -> (c: Bytes)
    ensures
        bytes_view(c) == bytes_view(*b),
;

/// `Bytes` as a slice (`Deref`): its bytes.
#[verifier::external_body]
pub(crate) fn bytes_as_slice(b: &Bytes) -> (s: &[u8])
    ensures
        s@ == bytes_view(*b),
{
    b
}

/// `BytesMut::new`: an empty buffer.
#[verifier::external_body]
pub(crate) fn bytes_mut_new() -> (b: BytesMut)
    ensures
        bytes_mut_view(b) == Seq::<u8>::empty(),
{
    BytesMut::new()
}

/// `BufMut::put_u8` on a `BytesMut`: appends the byte.
#[verifier::external_body]
pub(crate) fn put_u8(b: &mut BytesMut, n: u8)
    ensures
        bytes_mut_view(*final(b)) == bytes_mut_view(*old(b)).push(n),
{
    b.put_u8(n)
}

/// `BufMut::put_i8` on a `BytesMut`: appends the byte of the same bits.
#[verifier::external_body]
pub(crate) fn put_i8(b: &mut BytesMut, n: i8)
    ensures
        bytes_mut_view(*final(b)) == bytes_mut_view(*old(b)).push(n as u8),
{
    b.put_i8(n)
}

/// `BufMut::put_u16` on a `BytesMut`: appends the two big-endian bytes.
#[verifier::external_body]
pub(crate) fn put_u16(b: &mut BytesMut, n: u16)
    ensures
        bytes_mut_view(*final(b)) == bytes_mut_view(*old(b)) + be16(n),
{
    b.put_u16(n)
}

/// `BufMut::put_i16` on a `BytesMut`: appends the two big-endian bytes of its bits.
#[verifier::external_body]
pub(crate) fn put_i16(b: &mut BytesMut, n: i16)
    ensures
        bytes_mut_view(*final(b)) == bytes_mut_view(*old(b)) + be16(n as u16),
{
    b.put_i16(n)
}

/// `BufMut::put_i32` on a `BytesMut`: appends the four big-endian bytes of its bits.
#[verifier::external_body]
pub(crate) fn put_i32(b: &mut BytesMut, n: i32)
    ensures
        bytes_mut_view(*final(b)) == bytes_mut_view(*old(b)) + be32(n as u32),
{
    b.put_i32(n)
}

/// `BufMut::put_i64` on a `BytesMut`: appends the eight big-endian bytes of its bits.
#[verifier::external_body]
pub(crate) fn put_i64(b: &mut BytesMut, n: i64)
    ensures
        bytes_mut_view(*final(b)) == bytes_mut_view(*old(b)) + be64(n as u64),
{
    b.put_i64(n)
}

/// `BufMut::put_u32` on a `BytesMut`: appends the four big-endian bytes.
/// (`put_f32` is `put_u32` of the float's bits.)
#[verifier::external_body]
pub(crate) fn put_u32(b: &mut BytesMut, n: u32)
    ensures
        bytes_mut_view(*final(b)) == bytes_mut_view(*old(b)) + be32(n),
{
    b.put_u32(n)
}

/// `BufMut::put_u64` on a `BytesMut`: appends the eight big-endian bytes.
/// (`put_f64` is `put_u64` of the double's bits.)
#[verifier::external_body]
pub(crate) fn put_u64(b: &mut BytesMut, n: u64)
    ensures
        bytes_mut_view(*final(b)) == bytes_mut_view(*old(b)) + be64(n),
{
    b.put_u64(n)
}

/// `BufMut::put_slice` on a `BytesMut`: appends the bytes of the slice.
#[verifier::external_body]
pub(crate) fn put_slice(b: &mut BytesMut, s: &[u8])
    ensures
        bytes_mut_view(*final(b)) == bytes_mut_view(*old(b)) + s@,
{
    b.put_slice(s)
}

/// `BufMut::put` of a `Bytes` on a `BytesMut`: appends all its bytes.
#[verifier::external_body]
pub(crate) fn put_bytes(b: &mut BytesMut, src: Bytes)
    ensures
        bytes_mut_view(*final(b)) == bytes_mut_view(*old(b)) + bytes_view(src),
{
    b.put(src)
}

/// `BytesMut::freeze`: the bytes written.
#[verifier::external_body]
pub(crate) fn freeze(b: BytesMut) -> (r: Bytes)
    ensures
        bytes_view(r) == bytes_mut_view(b),
{
    b.freeze()
}

} // verus!

//! Strings in the encoding that NBT uses: CESU-8, through `simd_cesu8`.
//!
//! CESU-8 writes a character up to U+FFFF as UTF-8 does, and one beyond it as the two
//! surrogates of its UTF-16 form, each written as three bytes.
use vstd::prelude::*;
use vstd::utf8::{decode_utf8, encode_utf8, valid_utf8};

verus! {

/// The string holds a character beyond U+FFFF, which UTF-8 writes in four bytes.
pub open spec fn beyond_bmp(s: Seq<char>) -> bool {
    exists|i: int| 0 <= i < s.len() && (s[i] as u32) >= 0x1_0000
}

/// The three bytes that CESU-8 writes for one UTF-16 surrogate.
pub open spec fn surrogate_bytes(x: u32) -> Seq<u8> {
    seq![
        (0xE0 | ((x & 0xF000) >> 12)) as u8,
        (0x80 | ((x & 0x0FC0) >> 6)) as u8,
        (0x80 | (x & 0x3F)) as u8,
    ]
}

/// The bytes that CESU-8 writes for one character: its UTF-8 bytes up to U+FFFF; beyond
/// it, the two surrogates of its UTF-16 form, three bytes each.
pub open spec fn cesu8_char(c: char) -> Seq<u8> {
    let v = c as u32;
    if v < 0x1_0000 {
        encode_utf8(seq![c])
    } else {
        let u = (v - 0x1_0000) as u32;
        surrogate_bytes(0xD800 | (u >> 10)) + surrogate_bytes(0xDC00 | (u & 0x3FF))
    }
}

/// The bytes that CESU-8 writes for the characters of `s`, one after the other.
pub open spec fn cesu8_chars(s: Seq<char>) -> Seq<u8>
    decreases s.len(),
{
    if s.len() == 0 {
        Seq::empty()
    } else {
        cesu8_chars(s.drop_last()) + cesu8_char(s.last())
    }
}

/// The characters that bytes which are not valid UTF-8 stand for as CESU-8, or `None` where
/// they are not valid CESU-8 either.
pub uninterp spec fn cesu8_only_decoding(b: Seq<u8>) -> Option<Seq<char>>;

/// The CESU-8 encoding of `s`: its UTF-8 encoding, where it holds no character beyond U+FFFF.
pub closed spec fn cesu8_encoding(s: Seq<char>) -> Seq<u8> {
    if beyond_bmp(s) {
        cesu8_chars(s)
    } else {
        encode_utf8(s)
    }
}

/// The characters that `b` stands for: bytes that are valid UTF-8 are read as such, others
/// as CESU-8.
pub closed spec fn cesu8_decoding(b: Seq<u8>) -> Option<Seq<char>> {
    if valid_utf8(b) {
        Some(decode_utf8(b))
    } else {
        cesu8_only_decoding(b)
    }
}

/// `simd_cesu8::encode`: a string with no character beyond U+FFFF as its UTF-8 bytes, any
/// other one character by character, a character beyond U+FFFF as the two surrogates of its
/// UTF-16 form, three bytes each; the bytes are ones that `simd_cesu8::decode` reads back (the
/// round trip that the crate's own tests check).
#[verifier::external_body]
pub(crate) fn cesu8_encode(s: &str) -> (r: Vec<u8>)
    ensures
        r@ == cesu8_encoding(s@),
        !beyond_bmp(s@) ==> r@ == encode_utf8(s@),
        beyond_bmp(s@) ==> r@ == cesu8_chars(s@),
        cesu8_decoding(r@) == Some(s@),
{
    simd_cesu8::encode(s).into_owned()
}

/// `simd_cesu8::decode`: bytes that are valid UTF-8 as that string; others as CESU-8, or
/// `None` where they are not valid CESU-8 either.
#[verifier::external_body]
pub(crate) fn cesu8_decode(b: &[u8]) -> (r: Option<String>)
    ensures
        r is None <==> cesu8_decoding(b@) is None,
        r is Some ==> cesu8_decoding(b@) == Some(r.unwrap()@),
        valid_utf8(b@) ==> r is Some && r.unwrap()@ == decode_utf8(b@),
        !valid_utf8(b@) ==> (r is None <==> cesu8_only_decoding(b@) is None),
        !valid_utf8(b@) && r is Some ==> cesu8_only_decoding(b@) == Some(r.unwrap()@),
{
    match simd_cesu8::decode(b) {
        Ok(s) => Some(s.into_owned()),
        Err(_) => None,
    }
}

/// A string with no character beyond U+FFFF reads back from its encoding.
pub proof fn lemma_bmp_string_reads_back(s: Seq<char>)
    requires
        !beyond_bmp(s),
    ensures
        cesu8_decoding(cesu8_encoding(s)) == Some(s),
{
    vstd::utf8::encode_utf8_valid_utf8(s);
    vstd::utf8::encode_utf8_decode_utf8(s);
}

/// A string with no character beyond U+FFFF is written as its UTF-8 bytes.
pub proof fn lemma_bmp_encoding(s: Seq<char>)
    requires
        !beyond_bmp(s),
    ensures
        cesu8_encoding(s) == encode_utf8(s),
{
}

/// A string that holds a character beyond U+FFFF is written character by character.
pub proof fn lemma_supplementary_encoding(s: Seq<char>)
    requires
        beyond_bmp(s),
    ensures
        cesu8_encoding(s) == cesu8_chars(s),
{
}

/// No bytes stand for the empty string.
pub proof fn lemma_empty_decoding()
    ensures
        cesu8_decoding(Seq::empty()) == Some(Seq::<char>::empty()),
{
}

} // verus!

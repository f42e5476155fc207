//! Integers written as text in a given radix, read with `from_str_radix`.
use vstd::prelude::*;
use crate::nbt::snbt::de::numbers::digit_value;
use std::num::ParseIntError;

verus! {

#[verifier::external_type_specification]
#[verifier::external_body]
pub struct ExParseIntError(ParseIntError);

/// The value of the digits `d`, most significant first, in base `base`.
pub open spec fn digits_value(d: Seq<char>, base: nat) -> int
    decreases d.len(),
{
    if d.len() == 0 {
        0
    } else {
        digits_value(d.drop_last(), base) * base + digit_value(d.last())
    }
}

/// Every character of `d` is a digit of base `base`.
pub open spec fn all_digits(d: Seq<char>, base: nat) -> bool {
    forall|i: int| 0 <= i < d.len() ==> #[trigger] digit_value(d[i]) < base
}

/// The integer that `s` writes in base `base`: an optional `+` sign (or `-` sign, where
/// `signed`) followed by at least one digit, and nothing else.
pub open spec fn parse_integer(s: Seq<char>, base: nat, signed: bool) -> Option<int> {
    let negative = signed && s.len() > 0 && s[0] == '-';
    let digits = if s.len() > 0 && (s[0] == '+' || negative) {
        s.drop_first()
    } else {
        s
    };
    if digits.len() > 0 && all_digits(digits, base) {
        Some(
            if negative {
                -digits_value(digits, base)
            } else {
                digits_value(digits, base)
            },
        )
    } else {
        None
    }
}

/// `from_str_radix` succeeds exactly on a parsable text whose value lies in `lo..=hi`.
pub open spec fn parsed_in_range(s: Seq<char>, base: nat, signed: bool, lo: int, hi: int) -> bool {
    parse_integer(s, base, signed) matches Some(v) && lo <= v <= hi
}

/// `i8::from_str_radix`: the documented result, `Ok` exactly on an optionally signed
/// run of digits of `radix` whose value fits in an `i8`.
#[verifier::external_body]
pub(crate) fn i8_from_str_radix(s: &str, radix: u32) -> (r: Result<i8, ParseIntError>)
    requires
        2 <= radix <= 36,
    ensures
        r is Ok <==> parsed_in_range(s@, radix as nat, true, i8::MIN as int, i8::MAX as int),
        r matches Ok(x) ==> parse_integer(s@, radix as nat, true) == Some(x as int),
{
    i8::from_str_radix(s, radix)
}

/// `i16::from_str_radix`: `Ok` exactly on an optionally signed run of digits of `radix`
/// whose value fits in an `i16`.
#[verifier::external_body]
pub(crate) fn i16_from_str_radix(s: &str, radix: u32) -> (r: Result<i16, ParseIntError>)
    requires
        2 <= radix <= 36,
    ensures
        r is Ok <==> parsed_in_range(s@, radix as nat, true, i16::MIN as int, i16::MAX as int),
        r matches Ok(x) ==> parse_integer(s@, radix as nat, true) == Some(x as int),
{
    i16::from_str_radix(s, radix)
}

/// `i32::from_str_radix`: `Ok` exactly on an optionally signed run of digits of `radix`
/// whose value fits in an `i32`.
#[verifier::external_body]
pub(crate) fn i32_from_str_radix(s: &str, radix: u32) -> (r: Result<i32, ParseIntError>)
    requires
        2 <= radix <= 36,
    ensures
        r is Ok <==> parsed_in_range(s@, radix as nat, true, i32::MIN as int, i32::MAX as int),
        r matches Ok(x) ==> parse_integer(s@, radix as nat, true) == Some(x as int),
{
    i32::from_str_radix(s, radix)
}

/// `i64::from_str_radix`: `Ok` exactly on an optionally signed run of digits of `radix`
/// whose value fits in an `i64`.
#[verifier::external_body]
pub(crate) fn i64_from_str_radix(s: &str, radix: u32) -> (r: Result<i64, ParseIntError>)
    requires
        2 <= radix <= 36,
    ensures
        r is Ok <==> parsed_in_range(s@, radix as nat, true, i64::MIN as int, i64::MAX as int),
        r matches Ok(x) ==> parse_integer(s@, radix as nat, true) == Some(x as int),
{
    i64::from_str_radix(s, radix)
}

/// `u8::from_str_radix`: `Ok` exactly on a run of digits of `radix`, optionally after a
/// `+` sign, whose value fits in a `u8`.
#[verifier::external_body]
pub(crate) fn u8_from_str_radix(s: &str, radix: u32) -> (r: Result<u8, ParseIntError>)
    requires
        2 <= radix <= 36,
    ensures
        r is Ok <==> parsed_in_range(s@, radix as nat, false, 0, u8::MAX as int),
        r matches Ok(x) ==> parse_integer(s@, radix as nat, false) == Some(x as int),
{
    u8::from_str_radix(s, radix)
}

/// `u16::from_str_radix`: `Ok` exactly on a run of digits of `radix`, optionally after a
/// `+` sign, whose value fits in a `u16`.
#[verifier::external_body]
pub(crate) fn u16_from_str_radix(s: &str, radix: u32) -> (r: Result<u16, ParseIntError>)
    requires
        2 <= radix <= 36,
    ensures
        r is Ok <==> parsed_in_range(s@, radix as nat, false, 0, u16::MAX as int),
        r matches Ok(x) ==> parse_integer(s@, radix as nat, false) == Some(x as int),
{
    u16::from_str_radix(s, radix)
}

/// `u32::from_str_radix`: `Ok` exactly on a run of digits of `radix`, optionally after a
/// `+` sign, whose value fits in a `u32`.
#[verifier::external_body]
pub(crate) fn u32_from_str_radix(s: &str, radix: u32) -> (r: Result<u32, ParseIntError>)
    requires
        2 <= radix <= 36,
    ensures
        r is Ok <==> parsed_in_range(s@, radix as nat, false, 0, u32::MAX as int),
        r matches Ok(x) ==> parse_integer(s@, radix as nat, false) == Some(x as int),
{
    u32::from_str_radix(s, radix)
}

/// `u64::from_str_radix`: `Ok` exactly on a run of digits of `radix`, optionally after a
/// `+` sign, whose value fits in a `u64`.
#[verifier::external_body]
pub(crate) fn u64_from_str_radix(s: &str, radix: u32) -> (r: Result<u64, ParseIntError>)
    requires
        2 <= radix <= 36,
    ensures
        r is Ok <==> parsed_in_range(s@, radix as nat, false, 0, u64::MAX as int),
        r matches Ok(x) ==> parse_integer(s@, radix as nat, false) == Some(x as int),
{
    u64::from_str_radix(s, radix)
}

} // verus!

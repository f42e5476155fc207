//! Reading SNBT numbers:
//! `-?((0b(0|1)+|0x[0-9a-fA-F]+)|0(b|s|i|l|f|d|B|S|I|L|F|D)?|[1-9][0-9]*(b|s|i|l|f|d|B|S|I|L|F|D)?|[1-9][0-9]*.[0-9]*(f|d|F|D)?)`
use vstd::prelude::*;
use crate::nbt::error::SnbtDeserialisationError;
use crate::nbt::snbt::de::integers::{
    i16_from_str_radix, i32_from_str_radix, i64_from_str_radix, i8_from_str_radix, parse_integer,
    u16_from_str_radix, u32_from_str_radix, u64_from_str_radix, u8_from_str_radix,
};
use crate::nbt::snbt::de::utils::{
    expect_str_ignore_case, starts_with_ignore_case, string_from_chars, StrVisitor,
};
use std::num::ParseIntError;

verus! {

/// The width of an SNBT number.
#[derive(Clone, Copy, Debug, PartialEq, Eq, Structural)]
pub enum NumberType {
    Byte,
    Short,
    Integer,
    Long,
    Float,
    Double,
}

/// The signedness suffix of an SNBT number.
#[derive(Clone, Copy, Debug, PartialEq, Eq, Structural)]
pub enum Signedness {
    Signed,
    Unsigned,
    /// No explicit signedness was specified.
    /// This will default to [`Self::Signed`] for anything except floats and doubles,
    /// where signedness doesn't actually exist.
    Unspecified,
}

/// The base in which the digits of an SNBT number are written.
#[derive(Clone, Copy, Debug, PartialEq, Eq, Structural)]
pub enum Radix {
    Binary,
    Decimal,
    Hexadecimal,
}

pub open spec fn is_ascii_digit(c: char) -> bool {
    '0' <= c && c <= '9'
}

pub open spec fn is_ascii_hexdigit(c: char) -> bool {
    is_ascii_digit(c) || ('a' <= c && c <= 'f') || ('A' <= c && c <= 'F')
}

/// The value of a digit character in any radix up to 36.
pub open spec fn digit_value(c: char) -> int {
    if is_ascii_digit(c) {
        c as int - '0' as int
    } else if 'a' <= c && c <= 'z' {
        c as int - 'a' as int + 10
    } else if 'A' <= c && c <= 'Z' {
        c as int - 'A' as int + 10
    } else {
        36
    }
}

pub fn char_is_ascii_digit(c: char) -> (r: bool)
    ensures
        r == is_ascii_digit(c),
{
    '0' <= c && c <= '9'
}

pub fn char_is_ascii_hexdigit(c: char) -> (r: bool)
    ensures
        r == is_ascii_hexdigit(c),
{
    ('0' <= c && c <= '9') || ('a' <= c && c <= 'f') || ('A' <= c && c <= 'F')
}

impl Radix {
    /// Which characters a number written in this radix may contain.
    pub open spec fn accepts(self, c: char) -> bool {
        match self {
            Radix::Binary => c == '0' || c == '1',
            Radix::Decimal => is_ascii_digit(c) || c == '.' || c == '-' || c == 'e' || c == 'E',
            Radix::Hexadecimal => is_ascii_hexdigit(c),
        }
    }

    pub open spec fn base(self) -> u32 {
        match self {
            Radix::Binary => 2,
            Radix::Decimal => 10,
            Radix::Hexadecimal => 16,
        }
    }

    pub fn check_character(self, c: char) -> (r: bool)
        ensures
            r == self.accepts(c),
    {
        match self {
            Radix::Binary => c == '0' || c == '1',
            Radix::Decimal => char_is_ascii_digit(c) || c == '.' || c == '-' || c == 'e' || c
                == 'E',
            Radix::Hexadecimal => char_is_ascii_hexdigit(c),
        }
    }

    pub fn get_radix_number(self) -> (r: u32)
        ensures
            r == self.base(),
    {
        match self {
            Radix::Binary => 2,
            Radix::Decimal => 10,
            Radix::Hexadecimal => 16,
        }
    }
}

/// Whether this character may be contained anywhere within a number sequence,
/// including special number formats such as hexadecimal (0xff), binary (0b101),
/// or exponential (1.0E-3).
pub open spec fn spec_is_number_character(c: char) -> bool {
    is_ascii_hexdigit(c) || c == '.' || c == '-' || c == '_' || c == 'x'
}

/// Whether a number may begin with this character.
pub open spec fn spec_may_start_number(c: char) -> bool {
    is_ascii_digit(c) || c == '.' || c == '-'
}

pub fn is_number_character(c: char) -> (r: bool)
    ensures
        r == spec_is_number_character(c),
{
    char_is_ascii_hexdigit(c) || c == '.' || c == '-' || c == '_' || c == 'x'
}

pub fn may_start_number(c: char) -> (r: bool)
    ensures
        r == spec_may_start_number(c),
{
    char_is_ascii_digit(c) || c == '.' || c == '-'
}

/// Every character that may start a number, and every character that a radix accepts,
/// may occur within a number.
pub proof fn lemma_number_characters_consistent(c: char, radix: Radix)
    ensures
        spec_may_start_number(c) ==> spec_is_number_character(c),
        radix.accepts(c) ==> spec_is_number_character(c),
{
}

// ---------------------------------------------------------------------------------------
// The digits of a number
// ---------------------------------------------------------------------------------------

/// `text` begins with a `0` that a radix letter, a digit or a `.` follows: these two
/// characters belong to the number whatever comes after them.
pub open spec fn has_zero_prefix(t: Seq<char>) -> bool {
    &&& t.len() >= 2
    &&& t[0] == '0'
    &&& (t[1] == 'b' || t[1] == 'x' || is_ascii_digit(t[1]) || t[1] == '.')
}

/// `text` begins with a `0` that some other character follows: the number is that `0`.
pub open spec fn is_lone_zero(t: Seq<char>) -> bool {
    t.len() >= 2 && t[0] == '0' && !has_zero_prefix(t)
}

/// `text` begins with `-0b` or `-0x`: a negative number written in binary or hexadecimal.
pub open spec fn has_negative_radix_prefix(t: Seq<char>) -> bool {
    &&& t.len() >= 3
    &&& t[0] == '-'
    &&& t[1] == '0'
    &&& (t[2] == 'b' || t[2] == 'x')
}

/// The radix that the beginning of `t` announces: `0b` or `-0b` binary, `0x` or `-0x`
/// hexadecimal.
pub open spec fn token_radix(t: Seq<char>) -> Radix {
    if has_zero_prefix(t) && t[1] == 'b' {
        Radix::Binary
    } else if has_zero_prefix(t) && t[1] == 'x' {
        Radix::Hexadecimal
    } else if has_negative_radix_prefix(t) && t[2] == 'b' {
        Radix::Binary
    } else if has_negative_radix_prefix(t) {
        Radix::Hexadecimal
    } else {
        Radix::Decimal
    }
}

/// Where the digits after the radix prefix begin.
pub open spec fn body_start(t: Seq<char>) -> int {
    if has_zero_prefix(t) {
        2
    } else if has_negative_radix_prefix(t) {
        3
    } else {
        0
    }
}

/// A character that makes the number a floating-point one: `.`, and `e`/`E` outside of
/// hexadecimal numbers.
pub open spec fn is_float_marker(c: char, radix: Radix) -> bool {
    c == '.' || ((c == 'e' || c == 'E') && radix != Radix::Hexadecimal)
}

/// An underscore at index `i` of `t` stands between two decimal digits.
pub open spec fn underscore_between_digits(t: Seq<char>, i: int) -> bool {
    0 < i && i + 1 < t.len() && is_ascii_digit(t[i - 1]) && is_ascii_digit(t[i + 1])
}

/// How the digits of a number end: at the first character that cannot belong to it, or
/// at an underscore that does not stand between two digits.
pub enum Scan {
    End(int),
    BadUnderscore(int),
}

/// Reads the digits of `t` from index `j` on, in the given radix.
pub open spec fn scan(t: Seq<char>, j: int, radix: Radix) -> Scan
    decreases t.len() - j,
{
    if j < 0 || j >= t.len() {
        Scan::End(j)
    } else if t[j] == '_' {
        if underscore_between_digits(t, j) {
            scan(t, j + 1, radix)
        } else {
            Scan::BadUnderscore(j)
        }
    } else if is_float_marker(t[j], radix) || radix.accepts(t[j]) {
        scan(t, j + 1, radix)
    } else {
        Scan::End(j)
    }
}

/// How the number at the beginning of `t` ends.
pub open spec fn token_scan(t: Seq<char>) -> Scan {
    if is_lone_zero(t) {
        Scan::End(1)
    } else {
        scan(t, body_start(t), token_radix(t))
    }
}

/// Some character of `t` in `start..end` makes the number a floating-point one.
pub open spec fn has_float_marker(t: Seq<char>, start: int, end: int, radix: Radix) -> bool
    decreases end - start,
{
    if end <= start {
        false
    } else {
        has_float_marker(t, start, end - 1, radix) || is_float_marker(t[end - 1], radix)
    }
}

/// `s` without its underscores.
pub open spec fn without_underscores(s: Seq<char>) -> Seq<char>
    decreases s.len(),
{
    if s.len() == 0 {
        s
    } else if s.last() == '_' {
        without_underscores(s.drop_last())
    } else {
        without_underscores(s.drop_last()).push(s.last())
    }
}

/// The text of the digits read, in their radix, and whether they are a floating-point number.
pub struct Digits {
    pub radix: Radix,
    /// The length of the radix prefix: 2 for `0b` and `0x`, 3 for `-0b` and `-0x`, else 0.
    pub prefix: usize,
    pub is_float_only: bool,
    pub text: Vec<char>,
}

proof fn lemma_negative_prefix_text(t: Seq<char>)
    requires
        has_negative_radix_prefix(t),
    ensures
        without_underscores(t.take(3)) == seq!['-', '0', t[2]],
{
    assert(without_underscores(t.take(0)) == t.take(0));
    assert(t.take(1).drop_last() =~= t.take(0));
    assert(without_underscores(t.take(1)) =~= seq!['-']);
    assert(t.take(2).drop_last() =~= t.take(1));
    assert(without_underscores(t.take(2)) =~= seq!['-', '0']);
    assert(t.take(3).drop_last() =~= t.take(2));
    assert(without_underscores(t.take(3)) =~= seq!['-', '0', t[2]]);
}

proof fn lemma_zero_prefix_text(t: Seq<char>)
    requires
        t.len() >= 2,
        t[0] == '0',
    ensures
        without_underscores(t.take(1)) == seq!['0'],
        t[1] != '_' ==> without_underscores(t.take(2)) == seq!['0', t[1]],
{
    assert(without_underscores(t.take(0)) == t.take(0));
    assert(t.take(1).drop_last() =~= t.take(0));
    assert(t.take(1).last() == '0');
    assert(without_underscores(t.take(1)) =~= seq!['0']);
    assert(t.take(2).drop_last() =~= t.take(1));
    assert(t.take(2).last() == t[1]);
    if t[1] != '_' {
        assert(without_underscores(t.take(2)) =~= seq!['0', t[1]]);
    }
}

/// The digits kept from the first `k` characters are a prefix of those kept from the
/// first `j`, for `k <= j`.
proof fn lemma_without_underscores_prefix(t: Seq<char>, k: int, j: int)
    requires
        0 <= k <= j <= t.len(),
    ensures
        without_underscores(t.take(k)).len() <= without_underscores(t.take(j)).len(),
        without_underscores(t.take(j)).take(without_underscores(t.take(k)).len() as int)
            == without_underscores(t.take(k)),
    decreases j - k,
{
    if k < j {
        lemma_without_underscores_prefix(t, k, j - 1);
        assert(t.take(j).drop_last() =~= t.take(j - 1));
        let a = without_underscores(t.take(k));
        let b = without_underscores(t.take(j - 1));
        let c = without_underscores(t.take(j));
        if t[j - 1] != '_' {
            assert(c == b.push(t[j - 1]));
            assert(c.take(a.len() as int) =~= b.take(a.len() as int));
        }
    } else {
        assert(without_underscores(t.take(j)).take(without_underscores(t.take(k)).len() as int)
            =~= without_underscores(t.take(k)));
    }
}

proof fn lemma_scan_bounds(t: Seq<char>, j: int, radix: Radix)
    requires
        0 <= j <= t.len(),
    ensures
        scan(t, j, radix) matches Scan::End(e) ==> j <= e <= t.len(),
        scan(t, j, radix) matches Scan::BadUnderscore(i) ==> j <= i < t.len() && t[i] == '_',
    decreases t.len() - j,
{
    if j < t.len() {
        lemma_scan_bounds(t, j + 1, radix);
    }
}

/// The digits of a number end within the text, or at an underscore within it.
proof fn lemma_token_scan_bounds(t: Seq<char>)
    ensures
        token_scan(t) matches Scan::End(e) ==> 0 <= e <= t.len(),
        token_scan(t) matches Scan::BadUnderscore(i) ==> 0 <= i < t.len() && t[i] == '_',
{
    if !is_lone_zero(t) {
        lemma_scan_bounds(t, body_start(t), token_radix(t));
    }
}

/// The message of the error for an underscore that no digit follows.
pub const UNDERSCORE_EXPECTATION: &'static str = "number should come after _";

/// Reads the digits of a number, up to its suffix, and leaves out the underscores between
/// digits.
fn read_digits(visitor: &mut StrVisitor) -> (r: Result<Digits, SnbtDeserialisationError>)
    ensures
        final(visitor).text() == old(visitor).text(),
        ({
            let t = old(visitor).rest();
            match token_scan(t) {
                Scan::End(j) => {
                    &&& r matches Ok(d) && {
                        &&& d.radix == token_radix(t)
                        &&& d.prefix == body_start(t)
                        &&& d.is_float_only == has_float_marker(
                            t,
                            body_start(t),
                            j,
                            token_radix(t),
                        )
                        &&& d.text@ == without_underscores(t.take(j))
                    }
                    &&& final(visitor).pos() == old(visitor).pos() + j
                },
                Scan::BadUnderscore(i) => {
                    &&& final(visitor).pos() == old(visitor).pos() + i + 1
                    &&& r matches Err(e) && e.reports(*final(visitor), UNDERSCORE_EXPECTATION)
                },
            }
        }),
{
    let ghost t = visitor.rest();
    let start = visitor.get_position();
    let total = visitor.len();
    let mut text: Vec<char> = Vec::new();
    let mut radix = Radix::Decimal;
    let mut prefix: usize = 0;
    if visitor.peek() == Some('0') {
        match visitor.peek_nth(1) {
            Some(c) => {
                assert(t.len() >= 2 && t[0] == '0' && t[1] == c);
                if c == 'b' || c == 'x' || char_is_ascii_digit(c) || c == '.' {
                    if c == 'b' {
                        radix = Radix::Binary;
                    } else if c == 'x' {
                        radix = Radix::Hexadecimal;
                    }
                    prefix = 2;
                    visitor.next();
                    visitor.next();
                    text.push('0');
                    text.push(c);
                    assert(text@ =~= without_underscores(t.take(2))) by {
                        lemma_zero_prefix_text(t);
                    }
                } else {
                    assert(is_lone_zero(t));
                    visitor.next();
                    text.push('0');
                    assert(text@ =~= without_underscores(t.take(1))) by {
                        lemma_zero_prefix_text(t);
                    }
                    assert(token_scan(t) == Scan::End(1));
                    assert(visitor.pos() == old(visitor).pos() + 1);
                    assert(radix == token_radix(t));
                    assert(!has_float_marker(t, 0, 0, radix));
                    assert(!has_float_marker(t, body_start(t), 1, radix));
                    return Ok(Digits { radix, prefix, is_float_only: false, text });
                }
            },
            None => {},
        }
    } else if visitor.peek() == Some('-') && visitor.peek_nth(1) == Some('0') {
        match visitor.peek_nth(2) {
            Some(c) => {
                if c == 'b' || c == 'x' {
                    assert(has_negative_radix_prefix(t));
                    if c == 'b' {
                        radix = Radix::Binary;
                    } else {
                        radix = Radix::Hexadecimal;
                    }
                    prefix = 3;
                    visitor.next();
                    visitor.next();
                    visitor.next();
                    text.push('-');
                    text.push('0');
                    text.push(c);
                    assert(text@ =~= without_underscores(t.take(3))) by {
                        lemma_negative_prefix_text(t);
                    }
                }
            },
            None => {},
        }
    }
    assert(text@ =~= without_underscores(t.take(body_start(t))));
    let mut is_float_only = false;
    loop
        invariant_except_break
            visitor.text() == old(visitor).text(),
            t == old(visitor).rest(),
            start == old(visitor).pos(),
            total == visitor.text().len(),
            start <= visitor.pos() <= total,
            !is_lone_zero(t),
            radix == token_radix(t),
            prefix == body_start(t),
            body_start(t) <= visitor.pos() - start,
            token_scan(t) == scan(t, visitor.pos() - start, radix),
            text@ == without_underscores(t.take(visitor.pos() - start)),
            is_float_only == has_float_marker(t, body_start(t), visitor.pos() - start, radix),
        ensures
            visitor.text() == old(visitor).text(),
            token_scan(t) == Scan::End(visitor.pos() - start),
            radix == token_radix(t),
            prefix == body_start(t),
            text@ == without_underscores(t.take(visitor.pos() - start)),
            is_float_only == has_float_marker(t, body_start(t), visitor.pos() - start, radix),
        decreases total - visitor.pos(),
    {
        let ghost k = visitor.pos() - start;
        let c = match visitor.peek() {
            Some(c) => c,
            None => {
                break;
            },
        };
        assert(t[k] == c);
        if c == '_' {
            let pos = visitor.get_position();
            let prev_digit = pos > start && char_is_ascii_digit(visitor.char_at(pos - 1));
            visitor.next();
            let next_digit = match visitor.peek() {
                Some(d) => char_is_ascii_digit(d),
                None => false,
            };
            if !(prev_digit && next_digit) {
                assert(!underscore_between_digits(t, k));
                return Err(SnbtDeserialisationError::from_visitor(visitor, UNDERSCORE_EXPECTATION));
            }
            assert(underscore_between_digits(t, k));
            assert(t.take(k + 1).drop_last() =~= t.take(k));
        } else if c == '.' || ((c == 'e' || c == 'E') && radix != Radix::Hexadecimal) {
            is_float_only = true;
            visitor.next();
            text.push(c);
            assert(t.take(k + 1).drop_last() =~= t.take(k));
        } else if radix.check_character(c) {
            visitor.next();
            text.push(c);
            assert(t.take(k + 1).drop_last() =~= t.take(k));
        } else {
            break;
        }
    }
    Ok(Digits { radix, prefix, is_float_only, text })
}

// ---------------------------------------------------------------------------------------
// The suffix of a number
// ---------------------------------------------------------------------------------------

/// The integer type that a suffix letter names.
pub open spec fn integer_letter(c: char) -> Option<NumberType> {
    if c == 'b' || c == 'B' {
        Some(NumberType::Byte)
    } else if c == 's' || c == 'S' {
        Some(NumberType::Short)
    } else if c == 'i' || c == 'I' {
        Some(NumberType::Integer)
    } else if c == 'l' || c == 'L' {
        Some(NumberType::Long)
    } else {
        None
    }
}

/// A letter that cannot follow a signedness suffix: a float type or another signedness.
pub open spec fn unsignable_letter(c: char) -> bool {
    c == 'f' || c == 'F' || c == 'd' || c == 'D' || c == 'u' || c == 'U'
}

/// What the characters after the digits say of a number's type.
pub enum Suffix {
    /// A type suffix of the given length.
    Typed(Signedness, NumberType, int),
    /// No type suffix; the given number of characters is read nonetheless.
    Plain(int),
    /// A signedness suffix followed by a float type or a second signedness.
    Unsignable,
}

/// The suffix that begins at index `j` of `t`.
pub open spec fn suffix_at(t: Seq<char>, j: int) -> Suffix {
    if j < 0 || j >= t.len() {
        Suffix::Plain(0)
    } else {
        let c = t[j];
        let has_next = j + 1 < t.len();
        if c == 's' || c == 'S' {
            if has_next && integer_letter(t[j + 1]) is Some {
                Suffix::Typed(Signedness::Signed, integer_letter(t[j + 1])->0, 2)
            } else if has_next && unsignable_letter(t[j + 1]) {
                Suffix::Unsignable
            } else {
                Suffix::Typed(Signedness::Unspecified, NumberType::Short, 1)
            }
        } else if c == 'u' || c == 'U' {
            if has_next && integer_letter(t[j + 1]) is Some {
                Suffix::Typed(Signedness::Unsigned, integer_letter(t[j + 1])->0, 2)
            } else if has_next && unsignable_letter(t[j + 1]) {
                Suffix::Unsignable
            } else {
                Suffix::Plain(1)
            }
        } else if integer_letter(c) is Some {
            Suffix::Typed(Signedness::Unspecified, integer_letter(c)->0, 1)
        } else if c == 'f' || c == 'F' {
            Suffix::Typed(Signedness::Unspecified, NumberType::Float, 1)
        } else if c == 'd' || c == 'D' {
            Suffix::Typed(Signedness::Unspecified, NumberType::Double, 1)
        } else {
            Suffix::Plain(0)
        }
    }
}

fn integer_letter_of(c: char) -> (r: Option<NumberType>)
    ensures
        r == integer_letter(c),
{
    if c == 'b' || c == 'B' {
        Some(NumberType::Byte)
    } else if c == 's' || c == 'S' {
        Some(NumberType::Short)
    } else if c == 'i' || c == 'I' {
        Some(NumberType::Integer)
    } else if c == 'l' || c == 'L' {
        Some(NumberType::Long)
    } else {
        None
    }
}

/// Reads the type suffix at the current position: `Some` for a type suffix, `None` where
/// there is none, and an error, just after the signedness letter, where a float type or a
/// second signedness follows a signedness suffix.
fn read_suffix(visitor: &mut StrVisitor) -> (r: Result<Option<(Signedness, NumberType)>, NumberError>)
    ensures
        final(visitor).text() == old(visitor).text(),
        match suffix_at(old(visitor).rest(), 0) {
            Suffix::Typed(sign, ty, n) => r == Ok::<_, NumberError>(Some((sign, ty)))
                && final(visitor).pos() == old(visitor).pos() + n,
            Suffix::Plain(n) => r == Ok::<_, NumberError>(None::<(Signedness, NumberType)>)
                && final(visitor).pos() == old(visitor).pos() + n,
            Suffix::Unsignable => r == Err::<Option<(Signedness, NumberType)>, _>(
                NumberError::UnsignableSuffix,
            ) && final(visitor).pos() == old(visitor).pos() + 1,
        },
{
    let ghost t = visitor.rest();
    let c = match visitor.peek() {
        Some(c) => c,
        None => {
            return Ok(None);
        },
    };
    assert(t[0] == c);
    let next = visitor.peek_nth(1);
    assert(next matches Some(d) ==> t.len() > 1 && t[1] == d);
    if c == 's' || c == 'S' || c == 'u' || c == 'U' {
        let sign = if c == 's' || c == 'S' {
            Signedness::Signed
        } else {
            Signedness::Unsigned
        };
        visitor.next();
        match next {
            Some(d) => match integer_letter_of(d) {
                Some(ty) => {
                    visitor.next();
                    Ok(Some((sign, ty)))
                },
                None => {
                    if d == 'f' || d == 'F' || d == 'd' || d == 'D' || d == 'u' || d == 'U' {
                        Err(NumberError::UnsignableSuffix)
                    } else if c == 's' || c == 'S' {
                        Ok(Some((Signedness::Unspecified, NumberType::Short)))
                    } else {
                        Ok(None)
                    }
                },
            },
            None => {
                if c == 's' || c == 'S' {
                    Ok(Some((Signedness::Unspecified, NumberType::Short)))
                } else {
                    Ok(None)
                }
            },
        }
    } else {
        match integer_letter_of(c) {
            Some(ty) => {
                visitor.next();
                Ok(Some((Signedness::Unspecified, ty)))
            },
            None => {
                if c == 'f' || c == 'F' {
                    visitor.next();
                    Ok(Some((Signedness::Unspecified, NumberType::Float)))
                } else if c == 'd' || c == 'D' {
                    visitor.next();
                    Ok(Some((Signedness::Unspecified, NumberType::Double)))
                } else {
                    Ok(None)
                }
            },
        }
    }
}

// ---------------------------------------------------------------------------------------
// The value of a number
// ---------------------------------------------------------------------------------------

/// A number read from SNBT. Floating-point numbers keep their decimal text, without
/// underscores, for the caller to convert.
#[derive(Clone, Debug, PartialEq, Eq)]
pub enum NumberValue {
    Byte(i8),
    Short(i16),
    Int(i32),
    Long(i64),
    Float(String),
    Double(String),
}

/// The mathematical content of a [`NumberValue`].
pub enum SpecNumber {
    Byte(i8),
    Short(i16),
    Int(i32),
    Long(i64),
    Float(Seq<char>),
    Double(Seq<char>),
}

impl View for NumberValue {
    type V = SpecNumber;

    open spec fn view(&self) -> SpecNumber {
        match self {
            NumberValue::Byte(x) => SpecNumber::Byte(*x),
            NumberValue::Short(x) => SpecNumber::Short(*x),
            NumberValue::Int(x) => SpecNumber::Int(*x),
            NumberValue::Long(x) => SpecNumber::Long(*x),
            NumberValue::Float(s) => SpecNumber::Float(s@),
            NumberValue::Double(s) => SpecNumber::Double(s@),
        }
    }
}

/// Why a number could not be read.
#[derive(Debug, PartialEq, Eq)]
pub enum NumberError {
    /// An underscore that does not stand between two decimal digits.
    Syntax(SnbtDeserialisationError),
    /// A radix, signedness and type that no number can have, such as a hexadecimal float.
    IllegalCombination(Radix, Signedness, NumberType),
    /// Digits that do not form an integer of the number's type.
    ParseIntError(ParseIntError),
    /// A signedness suffix followed by a float type or a second signedness, such as `5uf`.
    UnsignableSuffix,
}

/// What reading a number comes to.
pub enum NumberOutcome {
    Number(SpecNumber),
    BadUnderscore,
    IllegalCombination(Radix, Signedness, NumberType),
    InvalidInteger,
    UnsignableSuffix,
}

impl NumberError {
    pub open spec fn outcome(self) -> NumberOutcome {
        match self {
            NumberError::Syntax(_) => NumberOutcome::BadUnderscore,
            NumberError::IllegalCombination(r, s, t) => NumberOutcome::IllegalCombination(r, s, t),
            NumberError::ParseIntError(_) => NumberOutcome::InvalidInteger,
            NumberError::UnsignableSuffix => NumberOutcome::UnsignableSuffix,
        }
    }
}

/// Half the number of values of the integer type: the bound of its signed range.
pub open spec fn half_range(ty: NumberType) -> int {
    match ty {
        NumberType::Byte => 0x80,
        NumberType::Short => 0x8000,
        NumberType::Integer => 0x8000_0000,
        _ => 0x8000_0000_0000_0000,
    }
}

/// The integer of type `ty` that `text` writes in `radix`; an unsigned text is read in the
/// unsigned type and its bits are kept as the signed type.
pub open spec fn integer_outcome(text: Seq<char>, radix: Radix, unsigned: bool, ty: NumberType) -> NumberOutcome {
    let half = half_range(ty);
    match parse_integer(text, radix.base() as nat, !unsigned) {
        Some(v) => if (unsigned && 0 <= v < 2 * half) || (!unsigned && -half <= v < half) {
            let w = if v >= half {
                v - 2 * half
            } else {
                v
            };
            NumberOutcome::Number(
                match ty {
                    NumberType::Byte => SpecNumber::Byte(w as i8),
                    NumberType::Short => SpecNumber::Short(w as i16),
                    NumberType::Integer => SpecNumber::Int(w as i32),
                    _ => SpecNumber::Long(w as i64),
                },
            )
        } else {
            NumberOutcome::InvalidInteger
        },
        None => NumberOutcome::InvalidInteger,
    }
}

/// The number of the given radix, signedness and type that `text` writes.
pub open spec fn convert(radix: Radix, sign: Signedness, ty: NumberType, text: Seq<char>) -> NumberOutcome {
    match ty {
        NumberType::Float | NumberType::Double => if radix == Radix::Decimal && sign
            == Signedness::Unspecified {
            NumberOutcome::Number(
                if ty == NumberType::Float {
                    SpecNumber::Float(text)
                } else {
                    SpecNumber::Double(text)
                },
            )
        } else {
            NumberOutcome::IllegalCombination(radix, sign, ty)
        },
        _ => integer_outcome(text, radix, sign == Signedness::Unsigned, ty),
    }
}

/// Reading a number consumes no more than the text.
pub proof fn lemma_number_length_bounds(t: Seq<char>)
    ensures
        0 <= number_length(t) <= t.len(),
{
    lemma_token_scan_bounds(t);
}

/// How many characters reading the number at the beginning of `t` consumes: the digits and
/// the suffix; where a float type or a second signedness follows a signedness suffix, the
/// digits and the signedness letter.
pub open spec fn number_length(t: Seq<char>) -> int {
    match token_scan(t) {
        Scan::BadUnderscore(i) => i + 1,
        Scan::End(j) => j + match suffix_at(t, j) {
            Suffix::Typed(_, _, n) => n,
            Suffix::Plain(n) => n,
            Suffix::Unsignable => 1,
        },
    }
}

/// The number at the beginning of `t`; a number without a type suffix is a double where it
/// has a float marker and of type `default_type` otherwise. After `-0b` or `-0x` the digits
/// are read with the minus sign, in their radix.
pub open spec fn number_outcome(t: Seq<char>, default_type: NumberType) -> NumberOutcome {
    match token_scan(t) {
        Scan::BadUnderscore(_) => NumberOutcome::BadUnderscore,
        Scan::End(j) => if suffix_at(t, j) is Unsignable {
            NumberOutcome::UnsignableSuffix
        } else {
            let radix = token_radix(t);
            let start = body_start(t);
            let digits = without_underscores(t.take(j));
            let (sign, ty) = match suffix_at(t, j) {
                Suffix::Typed(sign, ty, _) => (sign, ty),
                _ => (
                    Signedness::Unspecified,
                    if has_float_marker(t, body_start(t), j, radix) {
                        NumberType::Double
                    } else {
                        default_type
                    },
                ),
            };
            if radix == Radix::Binary && digits.len() == start {
                // a bare `0b` or `-0b` is the byte 0
                convert(Radix::Decimal, Signedness::Unspecified, NumberType::Byte, seq!['0'])
            } else if radix == Radix::Decimal {
                convert(radix, sign, ty, digits)
            } else if start == 3 {
                // the sign, then the digits after `-0b` or `-0x`
                convert(radix, sign, ty, seq!['-'] + digits.skip(3))
            } else {
                convert(radix, sign, ty, digits.skip(2))
            }
        },
    }
}

/// Converts `text` to a number of the given radix, signedness and type.
fn convert_digits(radix: Radix, sign: Signedness, ty: NumberType, text: &Vec<char>) -> (r: Result<
    NumberValue,
    NumberError,
>)
    ensures
        match r {
            Ok(v) => convert(radix, sign, ty, text@) == NumberOutcome::Number(v@),
            Err(e) => convert(radix, sign, ty, text@) == e.outcome() && !(e is Syntax),
        },
{
    let s = string_from_chars(text);
    let base = radix.get_radix_number();
    let unsigned = sign == Signedness::Unsigned;
    match ty {
        NumberType::Float | NumberType::Double => {
            if radix == Radix::Decimal && sign == Signedness::Unspecified {
                if ty == NumberType::Float {
                    Ok(NumberValue::Float(s))
                } else {
                    Ok(NumberValue::Double(s))
                }
            } else {
                Err(NumberError::IllegalCombination(radix, sign, ty))
            }
        },
        NumberType::Byte => if unsigned {
            match u8_from_str_radix(s.as_str(), base) {
                Ok(x) => {
                    proof {
                        assert(x >= 0x80 ==> (x as i8) as int == x - 0x100) by (bit_vector);
                        assert(x < 0x80 ==> (x as i8) as int == x as int) by (bit_vector);
                    }
                    Ok(NumberValue::Byte(x as i8))
                },
                Err(e) => Err(NumberError::ParseIntError(e)),
            }
        } else {
            match i8_from_str_radix(s.as_str(), base) {
                Ok(x) => Ok(NumberValue::Byte(x)),
                Err(e) => Err(NumberError::ParseIntError(e)),
            }
        },
        NumberType::Short => if unsigned {
            match u16_from_str_radix(s.as_str(), base) {
                Ok(x) => {
                    proof {
                        assert(x >= 0x8000 ==> (x as i16) as int == x - 0x10000) by (bit_vector);
                        assert(x < 0x8000 ==> (x as i16) as int == x as int) by (bit_vector);
                    }
                    Ok(NumberValue::Short(x as i16))
                },
                Err(e) => Err(NumberError::ParseIntError(e)),
            }
        } else {
            match i16_from_str_radix(s.as_str(), base) {
                Ok(x) => Ok(NumberValue::Short(x)),
                Err(e) => Err(NumberError::ParseIntError(e)),
            }
        },
        NumberType::Integer => if unsigned {
            match u32_from_str_radix(s.as_str(), base) {
                Ok(x) => {
                    proof {
                        assert(x >= 0x8000_0000 ==> (x as i32) as int == x - 0x1_0000_0000) by (bit_vector);
                        assert(x < 0x8000_0000 ==> (x as i32) as int == x as int) by (bit_vector);
                    }
                    Ok(NumberValue::Int(x as i32))
                },
                Err(e) => Err(NumberError::ParseIntError(e)),
            }
        } else {
            match i32_from_str_radix(s.as_str(), base) {
                Ok(x) => Ok(NumberValue::Int(x)),
                Err(e) => Err(NumberError::ParseIntError(e)),
            }
        },
        NumberType::Long => if unsigned {
            match u64_from_str_radix(s.as_str(), base) {
                Ok(x) => {
                    proof {
                        assert(x >= 0x8000_0000_0000_0000 ==> (x as i64) as int == x - 0x1_0000_0000_0000_0000) by (bit_vector);
                        assert(x < 0x8000_0000_0000_0000 ==> (x as i64) as int == x as int) by (bit_vector);
                    }
                    Ok(NumberValue::Long(x as i64))
                },
                Err(e) => Err(NumberError::ParseIntError(e)),
            }
        } else {
            match i64_from_str_radix(s.as_str(), base) {
                Ok(x) => Ok(NumberValue::Long(x)),
                Err(e) => Err(NumberError::ParseIntError(e)),
            }
        },
    }
}

/// Reads the number at the current position. A number without a type suffix is a double
/// where it has a float marker, and of type `default_type` otherwise.
pub fn read_number_as(visitor: &mut StrVisitor, default_type: NumberType) -> (r: Result<
    NumberValue,
    NumberError,
>)
    ensures
        final(visitor).text() == old(visitor).text(),
        final(visitor).pos() == old(visitor).pos() + number_length(old(visitor).rest()),
        match r {
            Ok(v) => number_outcome(old(visitor).rest(), default_type) == NumberOutcome::Number(v@),
            Err(e) => number_outcome(old(visitor).rest(), default_type) == e.outcome(),
        },
        r matches Err(NumberError::Syntax(e)) ==> e.reports(*final(visitor), UNDERSCORE_EXPECTATION),
{
    let ghost t = visitor.rest();
    let ghost pos0 = visitor.pos();
    let _ = visitor.get_position();
    let digits = match read_digits(visitor) {
        Ok(d) => d,
        Err(e) => {
            return Err(NumberError::Syntax(e));
        },
    };
    let ghost j = visitor.pos() - pos0;
    let _ = visitor.get_position();
    proof {
        lemma_token_scan_bounds(t);
    }
    assert(token_scan(t) == Scan::End(j));
    assert(visitor.rest() =~= t.skip(j));
    assert(suffix_at(visitor.rest(), 0) == suffix_at(t, j));
    let suffix = match read_suffix(visitor) {
        Ok(suffix) => suffix,
        Err(e) => {
            return Err(e);
        },
    };
    let (mut sign, mut ty) = match suffix {
        Some(p) => p,
        None => (
            Signedness::Unspecified,
            if digits.is_float_only {
                NumberType::Double
            } else {
                default_type
            },
        ),
    };
    let mut radix = digits.radix;
    let mut text: Vec<char> = Vec::new();
    if radix == Radix::Binary && digits.text.len() == digits.prefix {
        // a bare `0b` or `-0b` is the byte 0
        radix = Radix::Decimal;
        sign = Signedness::Unspecified;
        ty = NumberType::Byte;
        text.push('0');
        assert(text@ =~= seq!['0']);
    } else if radix == Radix::Decimal {
        text = digits.text;
    } else {
        // the digits after the radix prefix `0b` or `0x`, with the sign of `-0b` or `-0x`
        let n = digits.text.len();
        let p = digits.prefix;
        assert(p == 2 || p == 3);
        assert(n >= p) by {
            assert(!is_lone_zero(t));
            lemma_scan_bounds(t, p as int, token_radix(t));
            if p == 2 {
                lemma_zero_prefix_text(t);
            } else {
                lemma_negative_prefix_text(t);
            }
            lemma_without_underscores_prefix(t, p as int, j);
        }
        let ghost sign_text: Seq<char> = if p == 3 {
            seq!['-']
        } else {
            Seq::empty()
        };
        if p == 3 {
            text.push('-');
        }
        assert(text@ =~= sign_text + digits.text@.subrange(p as int, p as int));
        let mut i: usize = p;
        while i < n
            invariant
                p <= i <= n,
                n == digits.text@.len(),
                text@ == sign_text + digits.text@.subrange(p as int, i as int),
            decreases n - i,
        {
            text.push(digits.text[i]);
            i = i + 1;
            assert(text@ =~= sign_text + digits.text@.subrange(p as int, i as int));
        }
        assert(text@ =~= sign_text + digits.text@.skip(p as int));
    }
    convert_digits(radix, sign, ty, &text)
}

/// Reads the number at the current position; a number without a type suffix or float
/// marker is an `Int`.
pub fn read_number(visitor: &mut StrVisitor) -> (r: Result<NumberValue, NumberError>)
    ensures
        final(visitor).text() == old(visitor).text(),
        final(visitor).pos() == old(visitor).pos() + number_length(old(visitor).rest()),
        match r {
            Ok(v) => number_outcome(old(visitor).rest(), NumberType::Integer) == NumberOutcome::Number(
                v@,
            ),
            Err(e) => number_outcome(old(visitor).rest(), NumberType::Integer) == e.outcome(),
        },
        r matches Err(NumberError::Syntax(e)) ==> e.reports(*final(visitor), UNDERSCORE_EXPECTATION),
{
    read_number_as(visitor, NumberType::Integer)
}

/// Reads `true` (the byte 1), `false` (the byte 0), in any case of their letters, or a
/// number at the current position.
pub fn read_number_or_numboid_const(visitor: &mut StrVisitor) -> (r: Result<
    NumberValue,
    NumberError,
>)
    ensures
        final(visitor).text() == old(visitor).text(),
        starts_with_ignore_case(old(visitor).rest(), "true"@) ==> {
            &&& r == Ok::<NumberValue, NumberError>(NumberValue::Byte(1))
            &&& final(visitor).pos() == old(visitor).pos() + 4
        },
        !starts_with_ignore_case(old(visitor).rest(), "true"@) && starts_with_ignore_case(old(visitor).rest(), "false"@)
            ==> {
            &&& r == Ok::<NumberValue, NumberError>(NumberValue::Byte(0))
            &&& final(visitor).pos() == old(visitor).pos() + 5
        },
        !starts_with_ignore_case(old(visitor).rest(), "true"@) && !starts_with_ignore_case(old(visitor).rest(), "false"@)
            ==> {
            &&& final(visitor).pos() == old(visitor).pos() + number_length(old(visitor).rest())
            &&& match r {
                Ok(v) => number_outcome(old(visitor).rest(), NumberType::Integer)
                    == NumberOutcome::Number(v@),
                Err(e) => number_outcome(old(visitor).rest(), NumberType::Integer) == e.outcome(),
            }
            &&& r matches Err(NumberError::Syntax(e)) ==> e.reports(
                *final(visitor),
                UNDERSCORE_EXPECTATION,
            )
        },
{
    proof {
        reveal_strlit("true");
        reveal_strlit("false");
    }
    if expect_str_ignore_case(visitor, "true").is_ok() {
        Ok(NumberValue::Byte(1))
    } else if expect_str_ignore_case(visitor, "false").is_ok() {
        Ok(NumberValue::Byte(0))
    } else {
        read_number(visitor)
    }
}

} // verus!

//! The error reported when SNBT text cannot be read.
use vstd::prelude::*;
use vstd::string::*;
use crate::nbt::snbt::de::utils::{string_from_chars, StrVisitor};

verus! {

/// Where reading SNBT failed, what came just before, and what was expected there.
#[derive(Debug, PartialEq, Eq, Clone)]
pub struct SnbtDeserialisationError {
    pub index: usize,
    pub offending_area: String,
    pub expected: &'static str,
}

/// At most this many characters before the failure are kept in an error.
pub const MAX_OFFENSE_INFO_LENGTH: usize = 12;

/// The at most [`MAX_OFFENSE_INFO_LENGTH`] characters that end at position `pos` of `text`.
pub open spec fn offense_before(text: Seq<char>, pos: int) -> Seq<char> {
    let start = if pos > MAX_OFFENSE_INFO_LENGTH {
        pos - MAX_OFFENSE_INFO_LENGTH
    } else {
        0
    };
    text.subrange(start, pos)
}

/// The decimal digits of `n`, most significant first, without leading zeros.
pub open spec fn decimal(n: nat) -> Seq<char>
    decreases n,
{
    if n < 10 {
        seq![digit_char(n)]
    } else {
        decimal(n / 10).push(digit_char(n % 10))
    }
}

pub open spec fn digit_char(d: nat) -> char {
    (d + '0' as nat) as char
}

/// The decimal representation of `n`.
pub fn decimal_chars(n: usize) -> (v: Vec<char>)
    ensures
        v@ == decimal(n as nat),
    decreases n,
{
    let d = (n % 10) as u8;
    let c = (d + 48) as char;
    if n < 10 {
        let mut v = Vec::new();
        v.push(c);
        v
    } else {
        let mut v = decimal_chars(n / 10);
        v.push(c);
        v
    }
}

impl SnbtDeserialisationError {
    /// This is the error that [`Self::from_visitor`] makes at the current position of `visitor`.
    pub open spec fn reports(self, visitor: StrVisitor, expected: &'static str) -> bool {
        &&& self.index == visitor.pos()
        &&& self.offending_area@ == offense_before(visitor.text(), visitor.pos() as int)
        &&& self.expected == expected
    }

    /// The error at the current position of `visitor`, keeping the characters just before it.
    pub fn from_visitor(visitor: &StrVisitor, expected: &'static str) -> (e: Self)
        ensures
            e.reports(*visitor, expected),
    {
        let pos = visitor.get_position();
        let start = if pos > MAX_OFFENSE_INFO_LENGTH {
            pos - MAX_OFFENSE_INFO_LENGTH
        } else {
            0
        };
        let mut area: Vec<char> = Vec::new();
        let mut i = start;
        while i < pos
            invariant
                start <= i <= pos,
                pos == visitor.pos(),
                pos <= visitor.text().len(),
                area@ == visitor.text().subrange(start as int, i as int),
            decreases pos - i,
        {
            area.push(visitor.char_at(i));
            i = i + 1;
        }
        SnbtDeserialisationError { index: pos, offending_area: string_from_chars(&area), expected }
    }

    /// The text of `Expected {expected} at position {index}: {offending_area} <--[HERE]`.
    pub open spec fn spec_message(self) -> Seq<char> {
        "Expected "@ + self.expected@ + " at position "@ + decimal(self.index as nat) + ": "@
            + self.offending_area@ + " <--[HERE]"@
    }

    /// The message that describes this error.
    pub fn message(&self) -> (m: String)
        ensures
            m@ == self.spec_message(),
    {
        let index = string_from_chars(&decimal_chars(self.index));
        let mut m = String::new();
        m.append("Expected ");
        m.append(self.expected);
        m.append(" at position ");
        m.append(index.as_str());
        m.append(": ");
        m.append(self.offending_area.as_str());
        m.append(" <--[HERE]");
        m
    }
}

} // verus!

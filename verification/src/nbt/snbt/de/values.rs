//! SNBT values: numbers, strings, arrays, lists, compounds, and the words `true`, `false`,
//! `bool(..)` and `uuid(..)`.
use vstd::prelude::*;
use vstd::utf8::encode_utf8;
use crate::nbt::error::SnbtDeserialisationError;
use crate::nbt::snbt::de::arrays::{
    array_letter_type, array_outcome, error_matches, lemma_array_outcome_bounds,
    read_typed_array, ArrayOutcome, ARRAY_TYPE_MSG, LIST_SEPARATOR_MSG,
};
use crate::nbt::snbt::de::numbers::{
    lemma_number_length_bounds, number_length, number_outcome,
    read_number_or_numboid_const, spec_may_start_number, NumberError, NumberOutcome,
    NumberType, NumberValue, SpecNumber, UNDERSCORE_EXPECTATION,
};
use crate::nbt::snbt::de::strings::{
    lemma_string_bounds, quoted_at, read_quoted_string, read_string, string_at,
};
use crate::nbt::snbt::de::utils::{
    consume_whitespace, expect_char, expect_str, expect_str_ignore_case,
    lemma_skip_whitespace_bounds, skip_whitespace, starts_with, starts_with_ignore_case,
    StrVisitor,
};
use crate::nbt::tag::{tag_model, NbtTag, SpecTag};
use crate::nbt::uuid::{uuid_from_str, uuid_outcome, UuidError, UuidOutcome};

verus! {

pub const ANY_CHAR_MSG: &'static str = "any SNBT character";
pub const EOF_MSG: &'static str = "EOF";
pub const CLOSING_PAREN_MSG: &'static str = ")";
pub const COLON_MSG: &'static str = ":";
pub const COMPOUND_SEPARATOR_MSG: &'static str = ", or }";
pub const KEY_MSG: &'static str = "a non-empty key";
pub const END_MSG: &'static str = "the end of the text";

/// The content of a value read from SNBT: a tag, except that a float or a double keeps its
/// text, and `bool(..)` of one keeps the text it tests.
pub enum SnbtModel {
    Tag(SpecTag),
    Float(Seq<char>),
    Double(Seq<char>),
    FloatTruth(Seq<char>),
    DoubleTruth(Seq<char>),
    List(Seq<SnbtModel>),
    Compound(Seq<(Seq<char>, SnbtModel)>),
}

/// Why SNBT could not be read, at the index where reading stopped.
pub enum Failure {
    /// Something else was expected.
    Syntax(&'static str),
    /// A number could not be read.
    Number(NumberOutcome),
    /// A typed array could not be read.
    Array(ArrayOutcome),
    /// The text of `uuid(..)` is no UUID.
    Uuid(UuidOutcome),
}

/// The value that a number stands for.
pub open spec fn number_model(n: SpecNumber) -> SnbtModel {
    match n {
        SpecNumber::Byte(x) => SnbtModel::Tag(SpecTag::Byte(x)),
        SpecNumber::Short(x) => SnbtModel::Tag(SpecTag::Short(x)),
        SpecNumber::Int(x) => SnbtModel::Tag(SpecTag::Int(x)),
        SpecNumber::Long(x) => SnbtModel::Tag(SpecTag::Long(x)),
        SpecNumber::Float(s) => SnbtModel::Float(s),
        SpecNumber::Double(s) => SnbtModel::Double(s),
    }
}

/// `bool(..)` of a value: the byte 1 for a number that is not zero, 0 for zero; for a float
/// or a double, the text it tests.
pub open spec fn truth_model(m: SnbtModel) -> SnbtModel {
    match m {
        SnbtModel::Float(s) => SnbtModel::FloatTruth(s),
        SnbtModel::Double(s) => SnbtModel::DoubleTruth(s),
        SnbtModel::Tag(SpecTag::Byte(x)) => SnbtModel::Tag(SpecTag::Byte(if x != 0 { 1 } else { 0 })),
        SnbtModel::Tag(SpecTag::Short(x)) => SnbtModel::Tag(SpecTag::Byte(if x != 0 { 1 } else { 0 })),
        SnbtModel::Tag(SpecTag::Int(x)) => SnbtModel::Tag(SpecTag::Byte(if x != 0 { 1 } else { 0 })),
        SnbtModel::Tag(SpecTag::Long(x)) => SnbtModel::Tag(SpecTag::Byte(if x != 0 { 1 } else { 0 })),
        _ => SnbtModel::Tag(SpecTag::Byte(0)),
    }
}

/// The array that the type letter `letter` names, holding `values`.
pub open spec fn array_model(letter: char, values: Seq<int>) -> SpecTag {
    if letter == 'I' {
        SpecTag::IntArray(values.map_values(|x: int| x as i32))
    } else if letter == 'B' {
        SpecTag::ByteArray(values.map_values(|x: int| (x as i8) as u8))
    } else {
        SpecTag::LongArray(values.map_values(|x: int| x as i64))
    }
}

/// Reads `true`, `false` or a number at index `i` of `t`: the value, or why it failed, and
/// the index up to which `t` is read.
pub open spec fn numboid_at(t: Seq<char>, i: int) -> (Result<SnbtModel, Failure>, int) {
    let r = t.skip(i);
    if starts_with_ignore_case(r, "true"@) {
        (Ok(SnbtModel::Tag(SpecTag::Byte(1))), i + 4)
    } else if starts_with_ignore_case(r, "false"@) {
        (Ok(SnbtModel::Tag(SpecTag::Byte(0))), i + 5)
    } else {
        match number_outcome(r, NumberType::Integer) {
            NumberOutcome::Number(n) => (Ok(number_model(n)), i + number_length(r)),
            o => (Err(Failure::Number(o)), i + number_length(r)),
        }
    }
}

/// Reads a typed array whose type letter is at index `j` of `t`.
pub open spec fn typed_array_at(t: Seq<char>, j: int) -> (Result<SnbtModel, Failure>, int) {
    match array_letter_type(t[j]) {
        None => (Err(Failure::Array(ArrayOutcome::Expected(j + 1, ARRAY_TYPE_MSG))), j + 1),
        Some(ty) => {
            let (o, end) = array_outcome(t.skip(j + 1), ty);
            match o {
                ArrayOutcome::Values(values) => (
                    Ok(SnbtModel::Tag(array_model(t[j], values))),
                    j + 1 + end,
                ),
                other => (Err(Failure::Array(other)), j + 1 + end),
            }
        },
    }
}

/// Reads the rest of `bool(..)` from index `j0` of `t` on: whitespace, `true`, `false` or a
/// number, whitespace, `)`.
pub open spec fn bool_at(t: Seq<char>, j0: int) -> (Result<SnbtModel, Failure>, int) {
    let j = skip_whitespace(t, j0);
    if j >= t.len() {
        (Err(Failure::Syntax(EOF_MSG)), j)
    } else {
        match numboid_at(t, j) {
            (Err(f), e) => (Err(f), e),
            (Ok(m), e) => {
                let k = skip_whitespace(t, e);
                if k < t.len() && t[k] == ')' {
                    (Ok(truth_model(m)), k + 1)
                } else {
                    (Err(Failure::Syntax(CLOSING_PAREN_MSG)), k)
                }
            },
        }
    }
}

/// Reads the rest of `uuid(..)` from index `j0` of `t` on: whitespace, a quoted UUID,
/// whitespace, `)`.
pub open spec fn uuid_at(t: Seq<char>, j0: int) -> (Result<SnbtModel, Failure>, int) {
    let j = skip_whitespace(t, j0);
    match quoted_at(t, j) {
        (Err(m), e) => (Err(Failure::Syntax(m)), e),
        (Ok(s), e) => {
            // the length in bytes, as `str::len` gives it
            let n = (encode_utf8(s).len() as usize) as nat;
            let k = skip_whitespace(t, e);
            if !(k < t.len() && t[k] == ')') {
                (Err(Failure::Syntax(CLOSING_PAREN_MSG)), k)
            } else {
                match uuid_outcome(s, n) {
                    UuidOutcome::Ints(a, b, c, d) => (
                        Ok(SnbtModel::Tag(SpecTag::IntArray(seq![a, b, c, d]))),
                        k + 1,
                    ),
                    o => (Err(Failure::Uuid(o)), k + 1),
                }
            }
        },
    }
}

/// Reads a value at index `i` of `t`: the value, or why it failed, and the index up to which
/// `t` is read.
pub open spec fn value_at(t: Seq<char>, i: int) -> (Result<SnbtModel, Failure>, int)
    decreases t.len() - i, 0int,
{
    if i < 0 || i >= t.len() {
        (Err(Failure::Syntax(ANY_CHAR_MSG)), i)
    } else if t[i] == '{' {
        proof {
            lemma_skip_whitespace_bounds(t, i + 1);
        }
        let j = skip_whitespace(t, i + 1);
        if j < t.len() && t[j] == '}' {
            (Ok(SnbtModel::Compound(Seq::empty())), j + 1)
        } else {
            compound_from(t, j, Seq::empty())
        }
    } else if t[i] == '[' {
        proof {
            lemma_skip_whitespace_bounds(t, i + 1);
        }
        let j = skip_whitespace(t, i + 1);
        if j < t.len() && t[j] == ']' {
            (Ok(SnbtModel::List(Seq::empty())), j + 1)
        } else if j + 1 < t.len() && t[j + 1] == ';' {
            typed_array_at(t, j)
        } else {
            list_from(t, j, Seq::empty())
        }
    } else if spec_may_start_number(t[i]) {
        numboid_at(t, i)
    } else if starts_with_ignore_case(t.skip(i), "true"@) {
        (Ok(SnbtModel::Tag(SpecTag::Byte(1))), i + 4)
    } else if starts_with_ignore_case(t.skip(i), "false"@) {
        (Ok(SnbtModel::Tag(SpecTag::Byte(0))), i + 5)
    } else if starts_with(t.skip(i), "bool("@) {
        bool_at(t, i + 5)
    } else if starts_with(t.skip(i), "uuid("@) {
        uuid_at(t, i + 5)
    } else {
        match string_at(t, i) {
            (Ok(s), e) => (Ok(SnbtModel::Tag(SpecTag::String(s))), e),
            (Err(m), e) => (Err(Failure::Syntax(m)), e),
        }
    }
}

/// Reads the elements of a list from index `i` of `t` on, after the elements `acc`: each a
/// value, then `,` or `]`, with whitespace anywhere and a comma allowed before `]`.
pub open spec fn list_from(t: Seq<char>, i: int, acc: Seq<SnbtModel>) -> (
    Result<SnbtModel, Failure>,
    int,
)
    decreases t.len() - i, 1int,
{
    if i < 0 || i > t.len() {
        // not reached from `value_at`, by `lemma_value_bounds`
        (Err(Failure::Syntax(ANY_CHAR_MSG)), i)
    } else {
        proof {
            lemma_skip_whitespace_bounds(t, i);
        }
        let j = skip_whitespace(t, i);
        match value_at(t, j) {
            (Err(f), e) => (Err(f), e),
            (Ok(v), e) => {
                let acc1 = acc.push(v);
                let k = skip_whitespace(t, e);
                if k < t.len() && t[k] == ']' {
                    (Ok(SnbtModel::List(acc1)), k + 1)
                } else if k < t.len() && t[k] == ',' {
                    let k2 = skip_whitespace(t, k + 1);
                    if k2 < t.len() && t[k2] == ']' {
                        (Ok(SnbtModel::List(acc1)), k2 + 1)
                    } else if k2 <= i || k2 > t.len() {
                        // not reached, by `lemma_value_bounds`
                        (Err(Failure::Syntax(LIST_SEPARATOR_MSG)), k2)
                    } else {
                        list_from(t, k2, acc1)
                    }
                } else {
                    (Err(Failure::Syntax(LIST_SEPARATOR_MSG)), k)
                }
            },
        }
    }
}

/// Reads the children of a compound from index `i` of `t` on, after the children `acc`:
/// each a non-empty name, `:` and a value, then `,` or `}`, with whitespace anywhere and a
/// comma allowed before `}`.
pub open spec fn compound_from(t: Seq<char>, i: int, acc: Seq<(Seq<char>, SnbtModel)>) -> (
    Result<SnbtModel, Failure>,
    int,
)
    decreases t.len() - i, 1int,
{
    if i < 0 || i > t.len() {
        // not reached from `value_at`, by `lemma_value_bounds`
        (Err(Failure::Syntax(ANY_CHAR_MSG)), i)
    } else {
        proof {
            lemma_skip_whitespace_bounds(t, i);
        }
        let j = skip_whitespace(t, i);
        match string_at(t, j) {
            (Err(m), e) => (Err(Failure::Syntax(m)), e),
            (Ok(name), e) => {
                if name.len() == 0 {
                    (Err(Failure::Syntax(KEY_MSG)), e)
                } else {
                    let k = skip_whitespace(t, e);
                    if !(k < t.len() && t[k] == ':') {
                        (Err(Failure::Syntax(COLON_MSG)), k)
                    } else {
                        proof {
                            crate::nbt::snbt::de::strings::lemma_string_bounds(t, j);
                            lemma_skip_whitespace_bounds(t, e);
                            lemma_skip_whitespace_bounds(t, k + 1);
                        }
                        let v0 = skip_whitespace(t, k + 1);
                        match value_at(t, v0) {
                            (Err(f), e2) => (Err(f), e2),
                            (Ok(v), e2) => {
                                let acc1 = acc.push((name, v));
                                let s = skip_whitespace(t, e2);
                                if s < t.len() && t[s] == '}' {
                                    (Ok(SnbtModel::Compound(acc1)), s + 1)
                                } else if s < t.len() && t[s] == ',' {
                                    let s2 = skip_whitespace(t, s + 1);
                                    if s2 < t.len() && t[s2] == '}' {
                                        (Ok(SnbtModel::Compound(acc1)), s2 + 1)
                                    } else if s2 <= i || s2 > t.len() {
                                        // not reached, by `lemma_value_bounds`
                                        (Err(Failure::Syntax(COMPOUND_SEPARATOR_MSG)), s2)
                                    } else {
                                        compound_from(t, s2, acc1)
                                    }
                                } else {
                                    (Err(Failure::Syntax(COMPOUND_SEPARATOR_MSG)), s)
                                }
                            },
                        }
                    }
                }
            },
        }
    }
}


proof fn lemma_numboid_bounds(t: Seq<char>, i: int)
    requires
        0 <= i <= t.len(),
    ensures
        i <= numboid_at(t, i).1 <= t.len(),
{
    reveal_strlit("true");
    reveal_strlit("false");
    lemma_number_length_bounds(t.skip(i));
}

proof fn lemma_bool_uuid_bounds(t: Seq<char>, j0: int)
    requires
        0 <= j0 <= t.len(),
    ensures
        j0 <= bool_at(t, j0).1 <= t.len(),
        j0 <= uuid_at(t, j0).1 <= t.len(),
{
    lemma_skip_whitespace_bounds(t, j0);
    let j = skip_whitespace(t, j0);
    lemma_string_bounds(t, j);
    lemma_skip_whitespace_bounds(t, quoted_at(t, j).1);
    if j < t.len() {
        lemma_numboid_bounds(t, j);
        lemma_skip_whitespace_bounds(t, numboid_at(t, j).1);
    }
}

/// Reading a value at `i` ends within `t`, not before `i`.
pub proof fn lemma_value_bounds(t: Seq<char>, i: int)
    requires
        0 <= i <= t.len(),
    ensures
        i <= value_at(t, i).1 <= t.len(),
    decreases t.len() - i, 0int,
{
    reveal_strlit("true");
    reveal_strlit("false");
    reveal_strlit("bool(");
    reveal_strlit("uuid(");
    if i < t.len() {
        if t[i] == '{' || t[i] == '[' {
            lemma_skip_whitespace_bounds(t, i + 1);
            let j = skip_whitespace(t, i + 1);
            if t[i] == '{' {
                lemma_compound_bounds(t, j, Seq::empty());
            } else if j + 1 < t.len() && t[j + 1] == ';' {
                if let Some(ty) = array_letter_type(t[j]) {
                    lemma_array_outcome_bounds(t.skip(j + 1), ty);
                }
            } else {
                lemma_list_bounds(t, j, Seq::empty());
            }
        } else if spec_may_start_number(t[i]) {
            lemma_numboid_bounds(t, i);
        } else {
            if starts_with(t.skip(i), "bool("@) || starts_with(t.skip(i), "uuid("@) {
                lemma_bool_uuid_bounds(t, i + 5);
            }
            lemma_string_bounds(t, i);
        }
    }
}

pub proof fn lemma_list_bounds(t: Seq<char>, i: int, acc: Seq<SnbtModel>)
    requires
        0 <= i <= t.len(),
    ensures
        i <= list_from(t, i, acc).1 <= t.len(),
    decreases t.len() - i, 1int,
{
    lemma_skip_whitespace_bounds(t, i);
    let j = skip_whitespace(t, i);
    lemma_value_bounds(t, j);
    let (v, e) = value_at(t, j);
    lemma_skip_whitespace_bounds(t, e);
    let k = skip_whitespace(t, e);
    if k < t.len() {
        lemma_skip_whitespace_bounds(t, k + 1);
        let k2 = skip_whitespace(t, k + 1);
        if v is Ok && t[k] == ',' && !(k2 < t.len() && t[k2] == ']') && k2 > i {
            lemma_list_bounds(t, k2, acc.push(v->Ok_0));
        }
    }
}

pub proof fn lemma_compound_bounds(t: Seq<char>, i: int, acc: Seq<(Seq<char>, SnbtModel)>)
    requires
        0 <= i <= t.len(),
    ensures
        i <= compound_from(t, i, acc).1 <= t.len(),
    decreases t.len() - i, 1int,
{
    lemma_skip_whitespace_bounds(t, i);
    let j = skip_whitespace(t, i);
    lemma_string_bounds(t, j);
    let (name, e) = string_at(t, j);
    lemma_skip_whitespace_bounds(t, e);
    let k = skip_whitespace(t, e);
    if name is Ok && k < t.len() && t[k] == ':' {
        lemma_skip_whitespace_bounds(t, k + 1);
        let v0 = skip_whitespace(t, k + 1);
        lemma_value_bounds(t, v0);
        let (v, e2) = value_at(t, v0);
        lemma_skip_whitespace_bounds(t, e2);
        let s = skip_whitespace(t, e2);
        if s < t.len() {
            lemma_skip_whitespace_bounds(t, s + 1);
            let s2 = skip_whitespace(t, s + 1);
            if v is Ok && t[s] == ',' && !(s2 < t.len() && t[s2] == '}') && s2 > i {
                lemma_compound_bounds(t, s2, acc.push((name->Ok_0, v->Ok_0)));
            }
        }
    }
}


/// A value read from SNBT: a tag, except that a float or a double keeps its text (without
/// underscores), and `bool(..)` of one keeps the text it tests, for the caller to turn into
/// numbers.
#[derive(Debug, PartialEq, Eq)]
pub enum SnbtValue {
    Tag(NbtTag),
    Float(String),
    Double(String),
    /// `bool(..)` of a float: the byte 1 where the float is at most -1 or at least 1, else 0.
    FloatTruth(String),
    /// `bool(..)` of a double: the byte 1 where it is at most -1 or at least 1, else 0.
    DoubleTruth(String),
    List(Vec<SnbtValue>),
    Compound(Vec<(String, SnbtValue)>),
}

/// Why SNBT could not be read.
#[derive(Debug, PartialEq, Eq)]
pub enum SnbtError {
    Syntax(SnbtDeserialisationError),
    Number(NumberError),
    Uuid(UuidError),
}

/// The content of a value.
pub open spec fn value_model(v: SnbtValue) -> SnbtModel
    decreases v,
{
    match v {
        SnbtValue::Tag(t) => SnbtModel::Tag(tag_model(t)),
        SnbtValue::Float(s) => SnbtModel::Float(s@),
        SnbtValue::Double(s) => SnbtModel::Double(s@),
        SnbtValue::FloatTruth(s) => SnbtModel::FloatTruth(s@),
        SnbtValue::DoubleTruth(s) => SnbtModel::DoubleTruth(s@),
        SnbtValue::List(l) => SnbtModel::List(values_model(l@)),
        SnbtValue::Compound(e) => SnbtModel::Compound(named_model(e@)),
    }
}

/// The contents of the values of `l`.
pub open spec fn values_model(l: Seq<SnbtValue>) -> Seq<SnbtModel>
    decreases l,
{
    if l.len() == 0 {
        Seq::empty()
    } else {
        values_model(l.subrange(0, l.len() - 1)).push(value_model(l[l.len() - 1]))
    }
}

/// The names and contents of the children of a compound.
pub open spec fn named_model(e: Seq<(String, SnbtValue)>) -> Seq<(Seq<char>, SnbtModel)>
    decreases e,
{
    if e.len() == 0 {
        Seq::empty()
    } else {
        named_model(e.subrange(0, e.len() - 1)).push(
            (e[e.len() - 1].0@, value_model(e[e.len() - 1].1)),
        )
    }
}

proof fn lemma_values_model_push(l: Seq<SnbtValue>, v: SnbtValue)
    ensures
        values_model(l.push(v)) == values_model(l).push(value_model(v)),
{
    assert(l.push(v).subrange(0, l.len() as int) =~= l);
}

proof fn lemma_named_model_push(e: Seq<(String, SnbtValue)>, x: (String, SnbtValue))
    ensures
        named_model(e.push(x)) == named_model(e).push((x.0@, value_model(x.1))),
{
    assert(e.push(x).subrange(0, e.len() as int) =~= e);
}

/// The error `e` is the one that `f` describes, for a visitor that stopped at `v`.
pub open spec fn failure_matches(e: SnbtError, f: Failure, v: StrVisitor) -> bool {
    match f {
        Failure::Syntax(m) => e matches SnbtError::Syntax(se) && se.reports(v, m),
        Failure::Number(o) => e matches SnbtError::Number(ne) && ne.outcome() == o && (
        ne matches NumberError::Syntax(se) ==> se.reports(v, UNDERSCORE_EXPECTATION)),
        Failure::Array(o) => e matches SnbtError::Number(ne) && error_matches(ne, o, v),
        Failure::Uuid(o) => e matches SnbtError::Uuid(ue) && ue.outcome() == o,
    }
}

/// The result `r` is what `res` describes, for a visitor that stopped at `v`.
pub open spec fn outcome_matches(r: Result<SnbtValue, SnbtError>, res: Result<SnbtModel, Failure>, v: StrVisitor) -> bool {
    match res {
        Ok(m) => r matches Ok(x) && value_model(x) == m,
        Err(f) => r matches Err(e) && failure_matches(e, f, v),
    }
}

/// Reads `true`, `false` or a number.
fn read_numboid(visitor: &mut StrVisitor) -> (r: Result<SnbtValue, SnbtError>)
    ensures
        final(visitor).text() == old(visitor).text(),
        final(visitor).pos() == numboid_at(old(visitor).text(), old(visitor).pos() as int).1,
        outcome_matches(r, numboid_at(old(visitor).text(), old(visitor).pos() as int).0, *final(visitor)),
{
    proof {
        reveal_strlit("true");
        reveal_strlit("false");
    }
    match read_number_or_numboid_const(visitor) {
        Ok(NumberValue::Byte(x)) => Ok(SnbtValue::Tag(NbtTag::Byte(x))),
        Ok(NumberValue::Short(x)) => Ok(SnbtValue::Tag(NbtTag::Short(x))),
        Ok(NumberValue::Int(x)) => Ok(SnbtValue::Tag(NbtTag::Int(x))),
        Ok(NumberValue::Long(x)) => Ok(SnbtValue::Tag(NbtTag::Long(x))),
        Ok(NumberValue::Float(s)) => Ok(SnbtValue::Float(s)),
        Ok(NumberValue::Double(s)) => Ok(SnbtValue::Double(s)),
        Err(e) => Err(SnbtError::Number(e)),
    }
}

/// Reads the rest of `bool(..)`: whitespace, `true`, `false` or a number, whitespace, `)`.
fn read_bool_rest(visitor: &mut StrVisitor) -> (r: Result<SnbtValue, SnbtError>)
    ensures
        final(visitor).text() == old(visitor).text(),
        final(visitor).pos() == bool_at(old(visitor).text(), old(visitor).pos() as int).1,
        outcome_matches(r, bool_at(old(visitor).text(), old(visitor).pos() as int).0, *final(visitor)),
{
    let ghost t = visitor.text();
    consume_whitespace(visitor);
    if visitor.peek().is_none() {
        return Err(SnbtError::Syntax(SnbtDeserialisationError::from_visitor(visitor, EOF_MSG)));
    }
    let ghost j = visitor.pos() as int;
    let value = match read_numboid(visitor) {
        Ok(v) => v,
        Err(e) => {
            return Err(e);
        },
    };
    proof {
        reveal_strlit("true");
        reveal_strlit("false");
        let m = numboid_at(t, j).0->Ok_0;
        assert(value_model(value) == m);
        assert(m is Float || m is Double || (m matches SnbtModel::Tag(x) && (x is Byte || x is Short
            || x is Int || x is Long)));
    }
    let truth = match value {
        SnbtValue::Tag(tag) => SnbtValue::Tag(
            NbtTag::Byte(
                if tag.is_truthy() {
                    1
                } else {
                    0
                },
            ),
        ),
        SnbtValue::Float(s) => SnbtValue::FloatTruth(s),
        SnbtValue::Double(s) => SnbtValue::DoubleTruth(s),
        other => other,
    };
    consume_whitespace(visitor);
    assert(visitor.rest().len() > 0 ==> visitor.rest()[0] == t[visitor.pos() as int]);
    match expect_char(visitor, ')', CLOSING_PAREN_MSG) {
        Ok(_) => Ok(truth),
        Err(err) => Err(SnbtError::Syntax(err)),
    }
}

fn int_array_of(a: [i32; 4]) -> (v: Vec<i32>)
    ensures
        v@ == seq![a[0], a[1], a[2], a[3]],
{
    let mut v: Vec<i32> = Vec::new();
    v.push(a[0]);
    v.push(a[1]);
    v.push(a[2]);
    v.push(a[3]);
    v
}

/// Reads the rest of `uuid(..)`: whitespace, a quoted UUID, whitespace, `)`.
fn read_uuid_rest(visitor: &mut StrVisitor) -> (r: Result<SnbtValue, SnbtError>)
    ensures
        final(visitor).text() == old(visitor).text(),
        final(visitor).pos() == uuid_at(old(visitor).text(), old(visitor).pos() as int).1,
        outcome_matches(r, uuid_at(old(visitor).text(), old(visitor).pos() as int).0, *final(visitor)),
{
    let ghost t = visitor.text();
    consume_whitespace(visitor);
    let name = match read_quoted_string(visitor) {
        Ok(s) => s,
        Err(e) => {
            return Err(SnbtError::Syntax(e));
        },
    };
    let uuid = uuid_from_str(name.as_str());
    consume_whitespace(visitor);
    assert(visitor.rest().len() > 0 ==> visitor.rest()[0] == t[visitor.pos() as int]);
    match expect_char(visitor, ')', CLOSING_PAREN_MSG) {
        Ok(_) => {},
        Err(err) => {
            return Err(SnbtError::Syntax(err));
        },
    }
    match uuid {
        Ok(a) => Ok(SnbtValue::Tag(NbtTag::IntArray(int_array_of(a)))),
        Err(e) => Err(SnbtError::Uuid(e)),
    }
}


impl SnbtValue {
    /// Reads a value at the current position: a compound in braces, a list or typed array in
    /// brackets, a number, `true` or `false` in any case, `bool(..)` of a number, `uuid(..)`
    /// of a quoted UUID, or a string.
    pub fn from_visitor(visitor: &mut StrVisitor) -> (r: Result<SnbtValue, SnbtError>)
        ensures
            final(visitor).text() == old(visitor).text(),
            final(visitor).pos() == value_at(old(visitor).text(), old(visitor).pos() as int).1,
            outcome_matches(
                r,
                value_at(old(visitor).text(), old(visitor).pos() as int).0,
                *final(visitor),
            ),
        decreases old(visitor).text().len() - old(visitor).pos(), 0int,
    {
        let ghost t = visitor.text();
        let ghost i = visitor.pos() as int;
        proof {
            reveal_strlit("true");
            reveal_strlit("false");
            reveal_strlit("bool(");
            reveal_strlit("uuid(");
        }
        let _ = visitor.get_position();
        let c = match visitor.peek() {
            Some(c) => c,
            None => {
                return Err(
                    SnbtError::Syntax(SnbtDeserialisationError::from_visitor(visitor, ANY_CHAR_MSG)),
                );
            },
        };
        if c == '{' {
            visitor.next();
            consume_whitespace(visitor);
            if visitor.next_if_char('}').is_some() {
                return Ok(SnbtValue::Compound(Vec::new()));
            }
            return match read_compound(visitor) {
                Ok(children) => Ok(SnbtValue::Compound(children)),
                Err(e) => Err(e),
            };
        }
        if c == '[' {
            visitor.next();
            consume_whitespace(visitor);
            if visitor.next_if_char(']').is_some() {
                return Ok(SnbtValue::List(Vec::new()));
            }
            let semicolon = match visitor.peek_nth(1) {
                Some(d) => d == ';',
                None => false,
            };
            if semicolon {
                let ghost j = visitor.pos() as int;
                assert(visitor.rest().drop_first() =~= t.skip(j + 1));
                return match read_typed_array(visitor) {
                    Ok(tag) => Ok(SnbtValue::Tag(tag)),
                    Err(e) => Err(SnbtError::Number(e)),
                };
            }
            return match read_list(visitor) {
                Ok(elements) => Ok(SnbtValue::List(elements)),
                Err(e) => Err(e),
            };
        }
        if crate::nbt::snbt::de::numbers::may_start_number(c) {
            return read_numboid(visitor);
        }
        if expect_str_ignore_case(visitor, "true").is_ok() {
            return Ok(SnbtValue::Tag(NbtTag::Byte(1)));
        }
        if expect_str_ignore_case(visitor, "false").is_ok() {
            return Ok(SnbtValue::Tag(NbtTag::Byte(0)));
        }
        if expect_str(visitor, "bool(").is_ok() {
            return read_bool_rest(visitor);
        }
        if expect_str(visitor, "uuid(").is_ok() {
            return read_uuid_rest(visitor);
        }
        match read_string(visitor) {
            Ok(s) => Ok(SnbtValue::Tag(NbtTag::String(s))),
            Err(e) => Err(SnbtError::Syntax(e)),
        }
    }
}

/// Reads the elements of a list, from the first one to the closing `]`.
fn read_list(visitor: &mut StrVisitor) -> (r: Result<Vec<SnbtValue>, SnbtError>)
    ensures
        final(visitor).text() == old(visitor).text(),
        final(visitor).pos() == list_from(
            old(visitor).text(),
            old(visitor).pos() as int,
            Seq::empty(),
        ).1,
        match list_from(old(visitor).text(), old(visitor).pos() as int, Seq::empty()).0 {
            Ok(m) => r matches Ok(v) && m == SnbtModel::List(values_model(v@)),
            Err(f) => r matches Err(e) && failure_matches(e, f, *final(visitor)),
        },
    decreases old(visitor).text().len() - old(visitor).pos(), 1int,
{
    let ghost t = visitor.text();
    let ghost start = visitor.pos() as int;
    let _ = visitor.get_position();
    let mut content: Vec<SnbtValue> = Vec::new();
    assert(values_model(content@) =~= Seq::<SnbtModel>::empty());
    loop
        invariant
            visitor.text() == t,
            t == old(visitor).text(),
            start == old(visitor).pos(),
            start <= visitor.pos() <= t.len(),
            list_from(t, start, Seq::empty()) == list_from(
                t,
                visitor.pos() as int,
                values_model(content@),
            ),
        decreases t.len() - visitor.pos(),
    {
        let ghost i = visitor.pos() as int;
        consume_whitespace(visitor);
        let ghost j = visitor.pos() as int;
        proof {
            crate::nbt::snbt::de::utils::lemma_skip_whitespace_bounds(t, i);
            lemma_value_bounds(t, j);
        }
        let value = match SnbtValue::from_visitor(visitor) {
            Ok(v) => v,
            Err(e) => {
                return Err(e);
            },
        };
        proof {
            lemma_values_model_push(content@, value);
        }
        content.push(value);
        consume_whitespace(visitor);
        let _ = visitor.get_position();
        let ghost k = visitor.pos() as int;
        match visitor.peek() {
            Some(c) => {
                if c == ']' {
                    visitor.next();
                    return Ok(content);
                } else if c == ',' {
                    visitor.next();
                    consume_whitespace(visitor);
                    if visitor.next_if_char(']').is_some() {
                        return Ok(content);
                    }
                    proof {
                        crate::nbt::snbt::de::utils::lemma_skip_whitespace_bounds(t, k + 1);
                    }
                } else {
                    return Err(
                        SnbtError::Syntax(
                            SnbtDeserialisationError::from_visitor(visitor, LIST_SEPARATOR_MSG),
                        ),
                    );
                }
            },
            None => {
                return Err(
                    SnbtError::Syntax(
                        SnbtDeserialisationError::from_visitor(visitor, LIST_SEPARATOR_MSG),
                    ),
                );
            },
        }
    }
}

/// Reads the children of a compound, from the first one to the closing `}`.
fn read_compound(visitor: &mut StrVisitor) -> (r: Result<Vec<(String, SnbtValue)>, SnbtError>)
    ensures
        final(visitor).text() == old(visitor).text(),
        final(visitor).pos() == compound_from(
            old(visitor).text(),
            old(visitor).pos() as int,
            Seq::empty(),
        ).1,
        match compound_from(old(visitor).text(), old(visitor).pos() as int, Seq::empty()).0 {
            Ok(m) => r matches Ok(v) && m == SnbtModel::Compound(named_model(v@)),
            Err(f) => r matches Err(e) && failure_matches(e, f, *final(visitor)),
        },
    decreases old(visitor).text().len() - old(visitor).pos(), 1int,
{
    let ghost t = visitor.text();
    let ghost start = visitor.pos() as int;
    let _ = visitor.get_position();
    let mut children: Vec<(String, SnbtValue)> = Vec::new();
    assert(named_model(children@) =~= Seq::<(Seq<char>, SnbtModel)>::empty());
    loop
        invariant
            visitor.text() == t,
            t == old(visitor).text(),
            start == old(visitor).pos(),
            start <= visitor.pos() <= t.len(),
            compound_from(t, start, Seq::empty()) == compound_from(
                t,
                visitor.pos() as int,
                named_model(children@),
            ),
        decreases t.len() - visitor.pos(),
    {
        let ghost i = visitor.pos() as int;
        consume_whitespace(visitor);
        let ghost j = visitor.pos() as int;
        proof {
            crate::nbt::snbt::de::utils::lemma_skip_whitespace_bounds(t, i);
            lemma_string_bounds(t, j);
        }
        let name = match read_string(visitor) {
            Ok(s) => s,
            Err(e) => {
                return Err(SnbtError::Syntax(e));
            },
        };
        if name.as_str().is_empty() {
            return Err(SnbtError::Syntax(SnbtDeserialisationError::from_visitor(visitor, KEY_MSG)));
        }
        consume_whitespace(visitor);
        let _ = visitor.get_position();
        assert(visitor.rest().len() > 0 ==> visitor.rest()[0] == t[visitor.pos() as int]);
        match expect_char(visitor, ':', COLON_MSG) {
            Ok(_) => {},
            Err(e) => {
                return Err(SnbtError::Syntax(e));
            },
        }
        consume_whitespace(visitor);
        let ghost v0 = visitor.pos() as int;
        proof {
            lemma_value_bounds(t, v0);
        }
        let value = match SnbtValue::from_visitor(visitor) {
            Ok(v) => v,
            Err(e) => {
                return Err(e);
            },
        };
        proof {
            lemma_named_model_push(children@, (name, value));
        }
        children.push((name, value));
        consume_whitespace(visitor);
        let _ = visitor.get_position();
        let ghost s = visitor.pos() as int;
        match visitor.peek() {
            Some(c) => {
                if c == '}' {
                    visitor.next();
                    return Ok(children);
                } else if c == ',' {
                    visitor.next();
                    consume_whitespace(visitor);
                    if visitor.next_if_char('}').is_some() {
                        return Ok(children);
                    }
                    proof {
                        crate::nbt::snbt::de::utils::lemma_skip_whitespace_bounds(t, s + 1);
                    }
                } else {
                    return Err(
                        SnbtError::Syntax(
                            SnbtDeserialisationError::from_visitor(visitor, COMPOUND_SEPARATOR_MSG),
                        ),
                    );
                }
            },
            None => {
                return Err(
                    SnbtError::Syntax(
                        SnbtDeserialisationError::from_visitor(visitor, COMPOUND_SEPARATOR_MSG),
                    ),
                );
            },
        }
    }
}


/// Reads a whole text as one value, with nothing but whitespace after it: the value, or why
/// it failed, and the index up to which the text is read.
pub open spec fn text_value(t: Seq<char>) -> (Result<SnbtModel, Failure>, int) {
    match value_at(t, 0) {
        (Ok(m), e) => {
            let k = skip_whitespace(t, e);
            if k < t.len() {
                (Err(Failure::Syntax(END_MSG)), k)
            } else {
                (Ok(m), k)
            }
        },
        other => other,
    }
}

impl SnbtValue {
    /// Reads the text `s` as one value, with nothing but whitespace after it.
    pub fn parse(s: &str) -> (r: Result<SnbtValue, SnbtError>)
        ensures
            match text_value(s@).0 {
                Ok(m) => r matches Ok(v) && value_model(v) == m,
                Err(f) => r matches Err(e) && exists|v: StrVisitor|
                    v.text() == s@ && v.pos() == text_value(s@).1 && #[trigger] failure_matches(
                        e,
                        f,
                        v,
                    ),
            },
    {
        let mut visitor = StrVisitor::new(s);
        let value = match SnbtValue::from_visitor(&mut visitor) {
            Ok(v) => v,
            Err(e) => {
                assert(failure_matches(e, value_at(s@, 0).0->Err_0, visitor));
                return Err(e);
            },
        };
        consume_whitespace(&mut visitor);
        if visitor.peek().is_some() {
            let e = SnbtError::Syntax(SnbtDeserialisationError::from_visitor(&visitor, END_MSG));
            assert(failure_matches(e, Failure::Syntax(END_MSG), visitor));
            return Err(e);
        }
        Ok(value)
    }
}

} // verus!

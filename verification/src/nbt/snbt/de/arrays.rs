//! Typed SNBT arrays: `[B; 1, 2b]`, `[I; 1, 2]`, `[L; 1, 2L]`.
use vstd::prelude::*;
use bytes::Bytes;
use crate::nbt::buffers::{bytes_from_vec, bytes_view};
use crate::nbt::error::SnbtDeserialisationError;
use crate::nbt::tag::NbtTag;
use crate::nbt::snbt::de::numbers::{
    lemma_number_length_bounds, number_length, number_outcome,
    read_number_as, NumberError, NumberOutcome, NumberType, NumberValue, SpecNumber,
    UNDERSCORE_EXPECTATION,
};
use crate::nbt::snbt::de::utils::{
    consume_whitespace, expect_char, lemma_skip_whitespace_bounds, lemma_skip_whitespace_shift,
    skip_whitespace, StrVisitor,
};

verus! {

pub const LIST_SEPARATOR_MSG: &'static str = ", or ]";
pub const SEMICOLON_MSG: &'static str = ";";
pub const BYTE_MSG: &'static str = "byte";
pub const SHORT_OR_BYTE_MSG: &'static str = "short or byte";
pub const INT_SHORT_OR_BYTE_MSG: &'static str = "int, short, or byte";
pub const NUMBER_MSG: &'static str = "number";

/// The integer types that an array can hold.
pub open spec fn is_integer_type(ty: NumberType) -> bool {
    ty == NumberType::Byte || ty == NumberType::Short || ty == NumberType::Integer || ty
        == NumberType::Long
}

/// The width in bits of an integer type.
pub open spec fn type_bits(ty: NumberType) -> u32 {
    match ty {
        NumberType::Byte => 8,
        NumberType::Short => 16,
        NumberType::Integer => 32,
        _ => 64,
    }
}

fn bits_of(ty: NumberType) -> (r: u32)
    ensures
        r == type_bits(ty),
{
    match ty {
        NumberType::Byte => 8,
        NumberType::Short => 16,
        NumberType::Integer => 32,
        _ => 64,
    }
}

/// An element of an array of type `elem`: a number no wider than the array's type, or what
/// the array expects in its place.
pub open spec fn element_value(n: SpecNumber, elem: NumberType) -> Result<int, &'static str> {
    match n {
        SpecNumber::Byte(x) => Ok(x as int),
        SpecNumber::Short(x) => if type_bits(elem) >= 16 {
            Ok(x as int)
        } else {
            Err(BYTE_MSG)
        },
        SpecNumber::Int(x) => if type_bits(elem) >= 32 {
            Ok(x as int)
        } else {
            Err(SHORT_OR_BYTE_MSG)
        },
        SpecNumber::Long(x) => if type_bits(elem) >= 64 {
            Ok(x as int)
        } else {
            Err(INT_SHORT_OR_BYTE_MSG)
        },
        _ => Err(NUMBER_MSG),
    }
}

/// What reading an array comes to.
pub enum ArrayOutcome {
    /// The elements, in order.
    Values(Seq<int>),
    /// At this index something else was expected.
    Expected(int, &'static str),
    /// An element could not be read as a number.
    NumberFailed(NumberOutcome),
}

/// Reads one element of an array from index `i` of `t` on, after `acc`: whitespace, then a
/// number unless `]` comes; the elements so far, or the outcome of a failure, and the index
/// up to which `t` is read.
pub open spec fn element_step(t: Seq<char>, i: int, elem: NumberType, acc: Seq<int>) -> (
    Result<Seq<int>, ArrayOutcome>,
    int,
) {
    let i1 = skip_whitespace(t, i);
    let r = t.skip(i1);
    if i1 < t.len() && t[i1] == ']' {
        (Ok(acc), i1)
    } else {
        let n_end = i1 + number_length(r);
        match number_outcome(r, elem) {
            NumberOutcome::Number(n) => match element_value(n, elem) {
                Ok(v) => (Ok(acc.push(v)), n_end),
                Err(msg) => (Err(ArrayOutcome::Expected(n_end, msg)), n_end),
            },
            other => (Err(ArrayOutcome::NumberFailed(other)), n_end),
        }
    }
}

/// What follows an element.
pub enum Separator {
    /// `]`, or `,` and then `]`: the array ends before this index.
    Close(int),
    /// `,`: the next element begins at this index.
    Next(int),
    /// Neither `,` nor `]` at this index.
    Bad(int),
}

/// Reads what follows an element at index `j` of `t`.
pub open spec fn separator_step(t: Seq<char>, j: int) -> Separator {
    let i2 = skip_whitespace(t, j);
    if i2 < t.len() && t[i2] == ']' {
        Separator::Close(i2 + 1)
    } else if i2 < t.len() && t[i2] == ',' {
        let i3 = skip_whitespace(t, i2 + 1);
        if i3 < t.len() && t[i3] == ']' {
            Separator::Close(i3 + 1)
        } else {
            Separator::Next(i3)
        }
    } else {
        Separator::Bad(i2)
    }
}

pub proof fn lemma_steps_advance(t: Seq<char>, i: int, elem: NumberType, acc: Seq<int>)
    requires
        0 <= i <= t.len(),
    ensures
        i <= element_step(t, i, elem, acc).1 <= t.len(),
        separator_step(t, element_step(t, i, elem, acc).1) matches Separator::Next(k) ==> i < k
            <= t.len(),
{
    let i1 = skip_whitespace(t, i);
    lemma_skip_whitespace_bounds(t, i);
    lemma_number_length_bounds(t.skip(i1));
    let j = element_step(t, i, elem, acc).1;
    lemma_skip_whitespace_bounds(t, j);
    let i2 = skip_whitespace(t, j);
    if i2 < t.len() {
        lemma_skip_whitespace_bounds(t, i2 + 1);
    }
}

/// Reads the elements of an array from index `i` of `t` on, after `acc`: the outcome, and
/// the index up to which `t` is read.
pub open spec fn array_elements(t: Seq<char>, i: int, elem: NumberType, acc: Seq<int>) -> (
    ArrayOutcome,
    int,
)
    decreases t.len() - i,
{
    if i < 0 || i > t.len() {
        // not reached from `array_outcome`: every element begins within the text
        (ArrayOutcome::Expected(i, LIST_SEPARATOR_MSG), i)
    } else {
        match element_step(t, i, elem, acc) {
            (Err(o), j) => (o, j),
            (Ok(acc1), j) => match separator_step(t, j) {
                Separator::Close(k) => (ArrayOutcome::Values(acc1), k),
                Separator::Bad(k) => (ArrayOutcome::Expected(k, LIST_SEPARATOR_MSG), k),
                Separator::Next(k) => {
                    proof {
                        lemma_steps_advance(t, i, elem, acc);
                    }
                    array_elements(t, k, elem, acc1)
                },
            },
        }
    }
}

/// Reading elements from `i` on ends within `t`, not before `i`.
pub proof fn lemma_array_elements_bounds(t: Seq<char>, i: int, elem: NumberType, acc: Seq<int>)
    requires
        0 <= i <= t.len(),
    ensures
        i <= array_elements(t, i, elem, acc).1 <= t.len(),
    decreases t.len() - i,
{
    lemma_steps_advance(t, i, elem, acc);
    if let (Ok(acc1), j) = element_step(t, i, elem, acc) {
        lemma_skip_whitespace_bounds(t, j);
        let i2 = skip_whitespace(t, j);
        if i2 < t.len() {
            lemma_skip_whitespace_bounds(t, i2 + 1);
        }
        if let Separator::Next(k) = separator_step(t, j) {
            lemma_array_elements_bounds(t, k, elem, acc1);
        }
    }
}

/// Reading an array ends within the text.
pub proof fn lemma_array_outcome_bounds(t: Seq<char>, elem: NumberType)
    ensures
        0 <= array_outcome(t, elem).1 <= t.len(),
{
    lemma_skip_whitespace_bounds(t, 0);
    let i0 = skip_whitespace(t, 0);
    if i0 < t.len() && t[i0] == ';' {
        lemma_array_elements_bounds(t, i0 + 1, elem, Seq::empty());
    }
}

/// Reads an array of type `elem` whose type letter is just behind: `;`, then elements
/// separated by commas, then `]`, with whitespace anywhere and a comma allowed before `]`.
pub open spec fn array_outcome(t: Seq<char>, elem: NumberType) -> (ArrayOutcome, int) {
    let i0 = skip_whitespace(t, 0);
    if i0 < t.len() && t[i0] == ';' {
        array_elements(t, i0 + 1, elem, Seq::empty())
    } else {
        (ArrayOutcome::Expected(i0, SEMICOLON_MSG), i0)
    }
}

/// The error `e` is the one that `o` describes, for a visitor that stopped at `v`.
pub open spec fn error_matches(e: NumberError, o: ArrayOutcome, v: StrVisitor) -> bool {
    match o {
        ArrayOutcome::Expected(_, msg) => e matches NumberError::Syntax(se) && se.reports(v, msg),
        ArrayOutcome::NumberFailed(n) => e.outcome() == n && (e matches NumberError::Syntax(se)
            ==> se.reports(v, UNDERSCORE_EXPECTATION)),
        _ => false,
    }
}

/// Reads one element of an array: whitespace, then a number unless `]` comes.
fn read_element(
    visitor: &mut StrVisitor,
    elem: NumberType,
    bits: u32,
    content: &mut Vec<i64>,
    Ghost(t): Ghost<Seq<char>>,
    Ghost(start): Ghost<int>,
) -> (r: Result<(), NumberError>)
    requires
        is_integer_type(elem),
        bits == type_bits(elem),
        0 <= start <= old(visitor).pos() <= old(visitor).text().len(),
        t == old(visitor).text().skip(start),
    ensures
        final(visitor).text() == old(visitor).text(),
        ({
            let (step, j) = element_step(
                t,
                old(visitor).pos() - start,
                elem,
                old(content)@.map_values(|x: i64| x as int),
            );
            &&& final(visitor).pos() == start + j
            &&& match r {
                Ok(()) => step == Ok::<Seq<int>, ArrayOutcome>(
                    final(content)@.map_values(|x: i64| x as int),
                ),
                Err(e) => step matches Err(o) && error_matches(e, o, *final(visitor)),
            }
        }),
{
    let ghost i = visitor.pos() - start;
    let ghost acc = content@.map_values(|x: i64| x as int);
    assert(visitor.rest() =~= t.skip(i));
    consume_whitespace(visitor);
    let _ = visitor.get_position();
    proof {
        lemma_skip_whitespace_bounds(t, i);
        lemma_skip_whitespace_shift(t, i, 0);
        assert(visitor.rest() =~= t.skip(visitor.pos() - start));
    }
    let at_close = match visitor.peek() {
        Some(c) => c == ']',
        None => false,
    };
    if at_close {
        return Ok(());
    }
    let num = match read_number_as(visitor, elem) {
        Ok(n) => n,
        Err(e) => {
            return Err(e);
        },
    };
    // Only numbers no wider than the array's type are accepted.
    match num {
        NumberValue::Byte(x) => {
            content.push(x as i64);
        },
        NumberValue::Short(x) => {
            if bits >= 16 {
                content.push(x as i64);
            } else {
                return Err(
                    NumberError::Syntax(SnbtDeserialisationError::from_visitor(visitor, BYTE_MSG)),
                );
            }
        },
        NumberValue::Int(x) => {
            if bits >= 32 {
                content.push(x as i64);
            } else {
                return Err(
                    NumberError::Syntax(
                        SnbtDeserialisationError::from_visitor(visitor, SHORT_OR_BYTE_MSG),
                    ),
                );
            }
        },
        NumberValue::Long(x) => {
            if bits >= 64 {
                content.push(x);
            } else {
                return Err(
                    NumberError::Syntax(
                        SnbtDeserialisationError::from_visitor(visitor, INT_SHORT_OR_BYTE_MSG),
                    ),
                );
            }
        },
        _ => {
            return Err(
                NumberError::Syntax(SnbtDeserialisationError::from_visitor(visitor, NUMBER_MSG)),
            );
        },
    }
    assert(content@.map_values(|x: i64| x as int) =~= acc.push(
        content@[content@.len() - 1] as int,
    ));
    Ok(())
}

/// Reads what follows an element: `]`, or `,` and then optionally `]`. `Ok(true)` where the
/// array ends.
fn read_separator(visitor: &mut StrVisitor, Ghost(t): Ghost<Seq<char>>, Ghost(start): Ghost<int>) -> (r: Result<
    bool,
    SnbtDeserialisationError,
>)
    requires
        0 <= start <= old(visitor).pos() <= old(visitor).text().len(),
        t == old(visitor).text().skip(start),
    ensures
        final(visitor).text() == old(visitor).text(),
        match separator_step(t, old(visitor).pos() - start) {
            Separator::Close(k) => r == Ok::<bool, SnbtDeserialisationError>(true)
                && final(visitor).pos() == start + k,
            Separator::Next(k) => r == Ok::<bool, SnbtDeserialisationError>(false)
                && final(visitor).pos() == start + k,
            Separator::Bad(k) => r matches Err(e) && final(visitor).pos() == start + k
                && e.reports(*final(visitor), LIST_SEPARATOR_MSG),
        },
{
    let ghost j = visitor.pos() - start;
    assert(visitor.rest() =~= t.skip(j));
    consume_whitespace(visitor);
    let _ = visitor.get_position();
    proof {
        lemma_skip_whitespace_bounds(t, j);
        lemma_skip_whitespace_shift(t, j, 0);
        assert(visitor.rest() =~= t.skip(visitor.pos() - start));
    }
    match visitor.peek() {
        Some(c) => {
            if c == ']' {
                visitor.next();
                Ok(true)
            } else if c == ',' {
                visitor.next();
                let ghost i2 = visitor.pos() - start;
                let _ = visitor.get_position();
                assert(visitor.rest() =~= t.skip(i2));
                consume_whitespace(visitor);
                let _ = visitor.get_position();
                proof {
                    lemma_skip_whitespace_bounds(t, i2);
                    lemma_skip_whitespace_shift(t, i2, 0);
                    assert(visitor.rest() =~= t.skip(visitor.pos() - start));
                }
                Ok(visitor.next_if_char(']').is_some())
            } else {
                Err(SnbtDeserialisationError::from_visitor(visitor, LIST_SEPARATOR_MSG))
            }
        },
        None => Err(SnbtDeserialisationError::from_visitor(visitor, LIST_SEPARATOR_MSG)),
    }
}

/// Reads the elements of an array of type `elem` whose type letter is just behind; a number
/// without a type suffix is read as `elem`.
#[verifier::spinoff_prover]
#[verifier::rlimit(30)]
pub fn read_snbt_array(visitor: &mut StrVisitor, elem: NumberType) -> (r: Result<
    Vec<i64>,
    NumberError,
>)
    requires
        is_integer_type(elem),
    ensures
        final(visitor).text() == old(visitor).text(),
        final(visitor).pos() == old(visitor).pos() + array_outcome(old(visitor).rest(), elem).1,
        match r {
            Ok(v) => array_outcome(old(visitor).rest(), elem).0 == ArrayOutcome::Values(
                v@.map_values(|x: i64| x as int),
            ),
            Err(e) => error_matches(e, array_outcome(old(visitor).rest(), elem).0, *final(visitor)),
        },
{
    let ghost t = visitor.rest();
    let ghost start: int = visitor.pos() as int;
    let _ = visitor.get_position();
    consume_whitespace(visitor);
    let _ = visitor.get_position();
    proof {
        lemma_skip_whitespace_bounds(t, 0);
        assert(t.skip(0) =~= t);
        lemma_skip_whitespace_shift(t, 0, 0);
        assert(visitor.rest() =~= t.skip(visitor.pos() - start));
    }
    let ghost i0 = visitor.pos() - start;
    match expect_char(visitor, ';', SEMICOLON_MSG) {
        Ok(()) => {},
        Err(e) => {
            return Err(NumberError::Syntax(e));
        },
    }
    assert(t[i0] == ';');
    let bits = bits_of(elem);
    let mut content: Vec<i64> = Vec::new();
    assert(content@.map_values(|x: i64| x as int) =~= Seq::<int>::empty());
    loop
        invariant
            visitor.text() == old(visitor).text(),
            t == old(visitor).rest(),
            start == old(visitor).pos(),
            start <= visitor.pos() <= visitor.text().len(),
            is_integer_type(elem),
            bits == type_bits(elem),
            array_elements(t, visitor.pos() - start, elem, content@.map_values(|x: i64| x as int))
                == array_outcome(t, elem),
        decreases visitor.text().len() - visitor.pos(),
    {
        let ghost i = visitor.pos() - start;
        let ghost acc = content@.map_values(|x: i64| x as int);
        assert(visitor.rest() =~= t.skip(i));
        proof {
            lemma_steps_advance(t, i, elem, acc);
        }
        match read_element(visitor, elem, bits, &mut content, Ghost(t), Ghost(start)) {
            Ok(()) => {},
            Err(e) => {
                return Err(e);
            },
        }
        let _ = visitor.get_position();
        assert(visitor.rest() =~= t.skip(visitor.pos() - start));
        match read_separator(visitor, Ghost(t), Ghost(start)) {
            Ok(true) => {
                return Ok(content);
            },
            Ok(false) => {},
            Err(e) => {
                return Err(NumberError::Syntax(e));
            },
        }
        let _ = visitor.get_position();
    }
}

pub const ARRAY_TYPE_MSG: &'static str = "an array type identifier";

/// The element type that an array's type letter names.
pub open spec fn array_letter_type(c: char) -> Option<NumberType> {
    if c == 'I' {
        Some(NumberType::Integer)
    } else if c == 'B' {
        Some(NumberType::Byte)
    } else if c == 'L' {
        Some(NumberType::Long)
    } else {
        None
    }
}

/// The array tag of the type that `letter` names holding `values`.
pub open spec fn array_tag(letter: char, values: Seq<int>, tag: NbtTag) -> bool {
    if letter == 'I' {
        tag matches NbtTag::IntArray(v) && v@ == values.map_values(|x: int| x as i32)
    } else if letter == 'B' {
        tag matches NbtTag::ByteArray(b) && bytes_view(b) == values.map_values(
            |x: int| (x as i8) as u8,
        )
    } else {
        tag matches NbtTag::LongArray(v) && v@ == values.map_values(|x: int| x as i64)
    }
}

/// Reads a typed array from its type letter on: `I` an int array, `B` a byte array, `L` a
/// long array, each followed by `;` and its elements.
pub fn read_typed_array(visitor: &mut StrVisitor) -> (r: Result<NbtTag, NumberError>)
    ensures
        final(visitor).text() == old(visitor).text(),
        ({
            let t = old(visitor).rest();
            if t.len() > 0 && array_letter_type(t[0]) is Some {
                let (o, end) = array_outcome(t.drop_first(), array_letter_type(t[0])->0);
                &&& final(visitor).pos() == old(visitor).pos() + 1 + end
                &&& match r {
                    Ok(tag) => o matches ArrayOutcome::Values(values) && array_tag(t[0], values, tag),
                    Err(e) => error_matches(e, o, *final(visitor)),
                }
            } else {
                &&& final(visitor).pos() == old(visitor).pos() + if t.len() > 0 {
                    1int
                } else {
                    0int
                }
                &&& r matches Err(NumberError::Syntax(e)) && e.reports(*final(visitor), ARRAY_TYPE_MSG)
            }
        }),
{
    let ghost t = visitor.rest();
    let _ = visitor.get_position();
    let letter = visitor.next();
    let _ = visitor.get_position();
    let ty = match letter {
        Some('I') => NumberType::Integer,
        Some('B') => NumberType::Byte,
        Some('L') => NumberType::Long,
        _ => {
            return Err(
                NumberError::Syntax(SnbtDeserialisationError::from_visitor(visitor, ARRAY_TYPE_MSG)),
            );
        },
    };
    assert(visitor.rest() =~= t.drop_first());
    let values = match read_snbt_array(visitor, ty) {
        Ok(v) => v,
        Err(e) => {
            return Err(e);
        },
    };
    let n = values.len();
    let mut i: usize = 0;
    if ty == NumberType::Integer {
        let mut out: Vec<i32> = Vec::new();
        while i < n
            invariant
                i <= n,
                n == values@.len(),
                out@ == values@.take(i as int).map_values(|x: i64| x as i32),
            decreases n - i,
        {
            out.push(values[i] as i32);
            i = i + 1;
            assert(out@ =~= values@.take(i as int).map_values(|x: i64| x as i32));
        }
        assert(out@ =~= values@.map_values(|x: i64| x as int).map_values(|x: int| x as i32));
        Ok(NbtTag::IntArray(out))
    } else if ty == NumberType::Byte {
        let mut out: Vec<u8> = Vec::new();
        while i < n
            invariant
                i <= n,
                n == values@.len(),
                out@ == values@.take(i as int).map_values(|x: i64| (x as i8) as u8),
            decreases n - i,
        {
            out.push((values[i] as i8) as u8);
            i = i + 1;
            assert(out@ =~= values@.take(i as int).map_values(|x: i64| (x as i8) as u8));
        }
        assert(out@ =~= values@.map_values(|x: i64| x as int).map_values(
            |x: int| (x as i8) as u8,
        ));
        Ok(NbtTag::ByteArray(bytes_from_vec(out)))
    } else {
        assert(values@ =~= values@.map_values(|x: i64| x as int).map_values(|x: int| x as i64));
        Ok(NbtTag::LongArray(values))
    }
}

} // verus!

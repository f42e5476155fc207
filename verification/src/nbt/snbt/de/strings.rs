//! SNBT strings: unquoted, `abc_1.5`, or quoted, `"a \"b\""` or `'c'`.
use vstd::prelude::*;
use crate::nbt::error::SnbtDeserialisationError;
use crate::nbt::snbt::de::names::{char_named, find_char, lemma_find_char_bounds, lookup_char_name};
use crate::nbt::snbt::de::utils::{string_from_chars, StrVisitor};

verus! {

pub const STRING_MSG: &'static str = "a string";
pub const QUOTE_MSG: &'static str = "a quoted string";
pub const CLOSING_QUOTE_MSG: &'static str = "a closing quote";
pub const ESCAPE_MSG: &'static str = "a valid escape sequence";

/// The characters that an unquoted string may hold.
pub open spec fn is_unquoted_char(c: char) -> bool {
    ('0' <= c && c <= '9') || ('A' <= c && c <= 'Z') || ('a' <= c && c <= 'z') || c == '_'
        || c == '-' || c == '.' || c == '+'
}

fn char_is_unquoted(c: char) -> (r: bool)
    ensures
        r == is_unquoted_char(c),
{
    ('0' <= c && c <= '9') || ('A' <= c && c <= 'Z') || ('a' <= c && c <= 'z') || c == '_'
        || c == '-' || c == '.' || c == '+'
}

/// The characters that open and close a quoted string.
pub open spec fn is_quote(c: char) -> bool {
    c == '"' || c == '\''
}

/// The end of the run of characters that an unquoted string may hold, from index `i` of `t`.
pub open spec fn unquoted_end(t: Seq<char>, i: int) -> int
    decreases t.len() - i,
{
    if 0 <= i < t.len() && is_unquoted_char(t[i]) {
        unquoted_end(t, i + 1)
    } else {
        i
    }
}

/// The character that a backslash and `c` stand for in a quoted string.
pub open spec fn escaped(c: char) -> Option<char> {
    if c == '\\' || c == '"' || c == '\'' {
        Some(c)
    } else if c == 'n' {
        Some('\n')
    } else if c == 't' {
        Some('\t')
    } else if c == 'r' {
        Some('\r')
    } else if c == 'b' {
        Some('\u{8}')
    } else if c == 'f' {
        Some('\u{c}')
    } else if c == 's' {
        Some(' ')
    } else {
        None
    }
}

fn escape_of(c: char) -> (r: Option<char>)
    ensures
        r == escaped(c),
{
    if c == '\\' || c == '"' || c == '\'' {
        Some(c)
    } else if c == 'n' {
        Some('\n')
    } else if c == 't' {
        Some('\t')
    } else if c == 'r' {
        Some('\r')
    } else if c == 'b' {
        Some('\u{8}')
    } else if c == 'f' {
        Some('\u{c}')
    } else if c == 's' {
        Some(' ')
    } else {
        None
    }
}

/// Reads the name of a `\N{name}` escape from index `j` of `t` on, just after the `N`: `{`,
/// a name, and `}`. The character of that name and the index after the `}`, where the name is
/// the name of a character.
pub open spec fn named_escape(t: Seq<char>, j: int) -> Option<(char, int)> {
    if 0 <= j < t.len() && t[j] == '{' {
        let close = find_char(t, j + 1, '}');
        if close < t.len() {
            match char_named(t.subrange(j + 1, close)) {
                Some(c) => Some((c, close + 1)),
                None => None,
            }
        } else {
            None
        }
    } else {
        None
    }
}

pub proof fn lemma_named_escape_bounds(t: Seq<char>, j: int)
    requires
        0 <= j,
    ensures
        named_escape(t, j) matches Some((_, e)) ==> j < e <= t.len(),
{
    if 0 <= j < t.len() && t[j] == '{' {
        lemma_find_char_bounds(t, j + 1, '}');
    }
}

/// Reads the rest of a string quoted with `q` from index `i` of `t` on, after the characters
/// `acc`: the string, or what was expected, and the index up to which `t` is read.
pub open spec fn quoted_from(t: Seq<char>, i: int, q: char, acc: Seq<char>) -> (
    Result<Seq<char>, &'static str>,
    int,
)
    decreases t.len() - i,
{
    if i < 0 || i >= t.len() {
        (Err(CLOSING_QUOTE_MSG), i)
    } else if t[i] == q {
        (Ok(acc), i + 1)
    } else if t[i] == '\\' {
        if i + 1 >= t.len() {
            (Err(ESCAPE_MSG), i + 1)
        } else if t[i + 1] == 'N' {
            proof {
                lemma_named_escape_bounds(t, i + 2);
            }
            match named_escape(t, i + 2) {
                Some((c, e)) => quoted_from(t, e, q, acc.push(c)),
                None => (Err(ESCAPE_MSG), i + 1),
            }
        } else {
            match escaped(t[i + 1]) {
                Some(c) => quoted_from(t, i + 2, q, acc.push(c)),
                None => (Err(ESCAPE_MSG), i + 1),
            }
        }
    } else {
        quoted_from(t, i + 1, q, acc.push(t[i]))
    }
}

/// Reads a quoted string at index `i` of `t`.
pub open spec fn quoted_at(t: Seq<char>, i: int) -> (Result<Seq<char>, &'static str>, int) {
    if 0 <= i < t.len() && is_quote(t[i]) {
        quoted_from(t, i + 1, t[i], Seq::empty())
    } else {
        (Err(QUOTE_MSG), i)
    }
}

/// An ASCII letter, with which an unquoted string begins.
pub open spec fn is_ascii_letter(c: char) -> bool {
    ('A' <= c && c <= 'Z') || ('a' <= c && c <= 'z')
}

/// Reads a string at index `i` of `t`: a quoted one, or an unquoted one, which begins with a
/// letter and runs on over the characters that an unquoted string may hold.
pub open spec fn string_at(t: Seq<char>, i: int) -> (Result<Seq<char>, &'static str>, int) {
    if 0 <= i < t.len() && is_quote(t[i]) {
        quoted_at(t, i)
    } else if 0 <= i < t.len() && is_ascii_letter(t[i]) {
        (Ok(t.subrange(i, unquoted_end(t, i))), unquoted_end(t, i))
    } else {
        (Err(STRING_MSG), i)
    }
}

/// The error `r` is what `(res, _)` describes, for a visitor that stopped at `v`.
pub open spec fn string_result(r: Result<String, SnbtDeserialisationError>, res: Result<
    Seq<char>,
    &'static str,
>, v: StrVisitor) -> bool {
    match res {
        Ok(s) => r matches Ok(x) && x@ == s,
        Err(m) => r matches Err(e) && e.reports(v, m),
    }
}

proof fn lemma_quoted_bounds(t: Seq<char>, i: int, q: char, acc: Seq<char>)
    requires
        0 <= i <= t.len(),
    ensures
        i <= quoted_from(t, i, q, acc).1 <= t.len(),
        quoted_from(t, i, q, acc).0 is Ok ==> i < quoted_from(t, i, q, acc).1,
    decreases t.len() - i,
{
    if i < t.len() && t[i] != q {
        if t[i] == '\\' {
            lemma_named_escape_bounds(t, i + 2);
            if i + 1 < t.len() && t[i + 1] == 'N' {
                if let Some((c, e)) = named_escape(t, i + 2) {
                    lemma_quoted_bounds(t, e, q, acc.push(c));
                }
            } else if i + 1 < t.len() && escaped(t[i + 1]) is Some {
                lemma_quoted_bounds(t, i + 2, q, acc.push(escaped(t[i + 1])->0));
            }
        } else {
            lemma_quoted_bounds(t, i + 1, q, acc.push(t[i]));
        }
    }
}

proof fn lemma_unquoted_bounds(t: Seq<char>, i: int)
    requires
        0 <= i <= t.len(),
    ensures
        i <= unquoted_end(t, i) <= t.len(),
        forall|k: int| i <= k < unquoted_end(t, i) ==> is_unquoted_char(#[trigger] t[k]),
    decreases t.len() - i,
{
    if i < t.len() && is_unquoted_char(t[i]) {
        lemma_unquoted_bounds(t, i + 1);
    }
}

/// A string read at `i` ends within `t`, and, where it is read, after `i`.
pub proof fn lemma_string_bounds(t: Seq<char>, i: int)
    requires
        0 <= i <= t.len(),
    ensures
        i <= string_at(t, i).1 <= t.len(),
        i <= quoted_at(t, i).1 <= t.len(),
        string_at(t, i).0 is Ok ==> i < string_at(t, i).1,
        quoted_at(t, i).0 is Ok ==> i < quoted_at(t, i).1,
{
    lemma_unquoted_bounds(t, i);
    if i < t.len() && is_quote(t[i]) {
        lemma_quoted_bounds(t, i + 1, t[i], Seq::empty());
    }
    if i < t.len() && is_ascii_letter(t[i]) {
        lemma_unquoted_bounds(t, i + 1);
    }
}

/// Reads the name of a `\N{name}` escape, just after the `N`, where it names a character;
/// otherwise reads nothing.
fn read_named_escape(visitor: &mut StrVisitor) -> (r: Option<char>)
    ensures
        final(visitor).text() == old(visitor).text(),
        match named_escape(old(visitor).text(), old(visitor).pos() as int) {
            Some((c, e)) => r == Some(c) && final(visitor).pos() == e,
            None => r is None && final(visitor).pos() == old(visitor).pos(),
        },
{
    let ghost t = visitor.text();
    let start = visitor.get_position();
    let total = visitor.len();
    if start >= total || visitor.char_at(start) != '{' {
        return None;
    }
    let mut k = start + 1;
    let mut name: Vec<char> = Vec::new();
    proof {
        lemma_find_char_bounds(t, start + 1, '}');
    }
    while k < total && visitor.char_at(k) != '}'
        invariant
            visitor.text() == t,
            visitor.pos() == start,
            total == t.len(),
            start < k <= total,
            find_char(t, start + 1, '}') == find_char(t, k as int, '}'),
            name@ == t.subrange(start + 1, k as int),
        decreases total - k,
    {
        name.push(visitor.char_at(k));
        k = k + 1;
        assert(name@ =~= t.subrange(start + 1, k as int));
    }
    if k >= total {
        return None;
    }
    assert(find_char(t, start + 1, '}') == k);
    let c = match lookup_char_name(&name) {
        Some(c) => c,
        None => {
            return None;
        },
    };
    while visitor.get_position() <= k
        invariant
            visitor.text() == t,
            start <= visitor.pos() <= k + 1,
            k < total,
            total == t.len(),
        decreases k + 1 - visitor.pos(),
    {
        visitor.next();
    }
    Some(c)
}

/// Reads a quoted string: a quote, then characters up to the same quote, where a backslash
/// and the character after it stand for an escaped character, and `\N{name}` for the
/// character of that Unicode name (the case of ASCII letters aside).
pub fn read_quoted_string(visitor: &mut StrVisitor) -> (r: Result<String, SnbtDeserialisationError>)
    ensures
        final(visitor).text() == old(visitor).text(),
        final(visitor).pos() == quoted_at(old(visitor).text(), old(visitor).pos() as int).1,
        string_result(r, quoted_at(old(visitor).text(), old(visitor).pos() as int).0, *final(visitor)),
{
    let ghost t = visitor.text();
    let ghost start = visitor.pos() as int;
    let _ = visitor.get_position();
    let q = match visitor.peek() {
        Some(c) => {
            if c == '"' || c == '\'' {
                c
            } else {
                return Err(SnbtDeserialisationError::from_visitor(visitor, QUOTE_MSG));
            }
        },
        None => {
            return Err(SnbtDeserialisationError::from_visitor(visitor, QUOTE_MSG));
        },
    };
    visitor.next();
    let mut out: Vec<char> = Vec::new();
    loop
        invariant
            visitor.text() == t,
            t == old(visitor).text(),
            start == old(visitor).pos(),
            start < visitor.pos() <= t.len(),
            0 <= start < t.len(),
            q == t[start],
            is_quote(q),
            quoted_at(t, start) == quoted_from(t, visitor.pos() as int, q, out@),
        decreases t.len() - visitor.pos(),
    {
        let ghost i = visitor.pos() as int;
        match visitor.next() {
            None => {
                return Err(SnbtDeserialisationError::from_visitor(visitor, CLOSING_QUOTE_MSG));
            },
            Some(c) => {
                if c == q {
                    return Ok(string_from_chars(&out));
                } else if c == '\\' {
                    match visitor.next() {
                        None => {
                            return Err(
                                SnbtDeserialisationError::from_visitor(visitor, ESCAPE_MSG),
                            );
                        },
                        Some(e) => if e == 'N' {
                            proof {
                                lemma_named_escape_bounds(t, i + 2);
                            }
                            match read_named_escape(visitor) {
                                Some(x) => {
                                    out.push(x);
                                },
                                None => {
                                    visitor.previous();
                                    return Err(
                                        SnbtDeserialisationError::from_visitor(visitor, ESCAPE_MSG),
                                    );
                                },
                            }
                        } else {
                            match escape_of(e) {
                            Some(x) => {
                                out.push(x);
                            },
                            None => {
                                visitor.previous();
                                return Err(
                                    SnbtDeserialisationError::from_visitor(visitor, ESCAPE_MSG),
                                );
                            },
                        }},
                    }
                } else {
                    out.push(c);
                }
            },
        }
    }
}

/// Reads a string: a quoted one, or an unquoted one: a letter, then letters, digits, `_`,
/// `-`, `.` and `+`.
pub fn read_string(visitor: &mut StrVisitor) -> (r: Result<String, SnbtDeserialisationError>)
    ensures
        final(visitor).text() == old(visitor).text(),
        final(visitor).pos() == string_at(old(visitor).text(), old(visitor).pos() as int).1,
        string_result(r, string_at(old(visitor).text(), old(visitor).pos() as int).0, *final(visitor)),
{
    let ghost t = visitor.text();
    let ghost start = visitor.pos() as int;
    let _ = visitor.get_position();
    match visitor.peek() {
        Some(c) => {
            if c == '"' || c == '\'' {
                return read_quoted_string(visitor);
            }
            if !(('A' <= c && c <= 'Z') || ('a' <= c && c <= 'z')) {
                return Err(SnbtDeserialisationError::from_visitor(visitor, STRING_MSG));
            }
        },
        None => {
            return Err(SnbtDeserialisationError::from_visitor(visitor, STRING_MSG));
        },
    }
    let mut out: Vec<char> = Vec::new();
    loop
        invariant
            visitor.text() == t,
            t == old(visitor).text(),
            start == old(visitor).pos(),
            start <= visitor.pos() <= t.len(),
            0 <= start <= t.len(),
            start < t.len(),
            is_ascii_letter(t[start]),
            unquoted_end(t, start) == unquoted_end(t, visitor.pos() as int),
            out@ == t.subrange(start, visitor.pos() as int),
        ensures
            visitor.text() == t,
            start <= visitor.pos() <= t.len(),
            out@ == t.subrange(start, visitor.pos() as int),
            unquoted_end(t, start) == visitor.pos(),
        decreases t.len() - visitor.pos(),
    {
        let ghost i = visitor.pos() as int;
        match visitor.peek() {
            Some(c) => {
                if char_is_unquoted(c) {
                    visitor.next();
                    out.push(c);
                    assert(out@ =~= t.subrange(start, visitor.pos() as int));
                } else {
                    break;
                }
            },
            None => {
                break;
            },
        }
    }
    Ok(string_from_chars(&out))
}

} // verus!

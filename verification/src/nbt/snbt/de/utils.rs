//! A cursor over the characters of an SNBT text.
use vstd::prelude::*;
use crate::nbt::error::SnbtDeserialisationError;

verus! {

/// The characters of `s`, in order.
pub fn chars_of(s: &str) -> (v: Vec<char>)
    ensures
        v@ == s@,
{
    let mut v: Vec<char> = Vec::new();
    for c in it: s.chars()
        invariant
            v@ == it.seq().take(it.index() as int),
    {
        v.push(c);
    }
    v
}

/// `String::push`: appends the character.
#[verifier::external_body]
fn string_push(s: &mut String, c: char)
    ensures
        final(s)@ == old(s)@.push(c),
{
    s.push(c)
}

/// A `String` holding the given characters, in order.
pub fn string_from_chars(chars: &Vec<char>) -> (s: String)
    ensures
        s@ == chars@,
{
    let mut s = String::new();
    let n = chars.len();
    let mut i: usize = 0;
    while i < n
        invariant
            i <= n,
            n == chars@.len(),
            s@ == chars@.take(i as int),
        decreases n - i,
    {
        string_push(&mut s, chars[i]);
        i = i + 1;
        assert(s@ =~= chars@.take(i as int));
    }
    assert(chars@.take(n as int) =~= chars@);
    s
}

/// A position within a text, read one character at a time.
pub struct StrVisitor {
    chars: Vec<char>,
    position: usize,
}

impl StrVisitor {
    #[verifier::type_invariant]
    pub(crate) closed spec fn inv(self) -> bool {
        self.position <= self.chars@.len()
    }

    /// The whole text being read.
    pub closed spec fn text(self) -> Seq<char> {
        self.chars@
    }

    /// How many characters have been read.
    pub closed spec fn pos(self) -> nat {
        self.position as nat
    }

    /// The characters that have not been read yet.
    pub open spec fn rest(self) -> Seq<char> {
        self.text().skip(self.pos() as int)
    }

    pub fn new(s: &str) -> (v: Self)
        ensures
            v.text() == s@,
            v.pos() == 0,
    {
        StrVisitor { chars: chars_of(s), position: 0 }
    }

    pub fn get_position(&self) -> (r: usize)
        ensures
            r == self.pos(),
            r <= self.text().len(),
    {
        proof {
            use_type_invariant(self);
        }
        self.position
    }

    pub fn len(&self) -> (r: usize)
        ensures
            r == self.text().len(),
    {
        self.chars.len()
    }

    /// The character at index `i` of the whole text.
    pub fn char_at(&self, i: usize) -> (c: char)
        requires
            i < self.text().len(),
        ensures
            c == self.text()[i as int],
    {
        self.chars[i]
    }

    /// The character `n` places after the current one, if there is one.
    pub fn peek_nth(&self, n: usize) -> (r: Option<char>)
        ensures
            self.pos() <= self.text().len(),
            self.pos() + n < self.text().len() ==> r == Some(self.text()[self.pos() + n]),
            self.pos() + n >= self.text().len() ==> r is None,
    {
        proof {
            use_type_invariant(self);
        }
        if n < self.chars.len() - self.position {
            Some(self.chars[self.position + n])
        } else {
            None
        }
    }

    /// The current character, if there is one.
    pub fn peek(&self) -> (r: Option<char>)
        ensures
            self.pos() <= self.text().len(),
            self.pos() < self.text().len() ==> r == Some(self.text()[self.pos() as int]),
            self.pos() >= self.text().len() ==> r is None,
    {
        self.peek_nth(0)
    }

    /// Reads the current character; at the end of the text nothing moves.
    pub fn next(&mut self) -> (r: Option<char>)
        ensures
            old(self).pos() <= old(self).text().len(),
            final(self).pos() <= final(self).text().len(),
            final(self).text() == old(self).text(),
            old(self).pos() < old(self).text().len() ==> {
                &&& r == Some(old(self).text()[old(self).pos() as int])
                &&& final(self).pos() == old(self).pos() + 1
            },
            old(self).pos() >= old(self).text().len() ==> {
                &&& r is None
                &&& final(self).pos() == old(self).pos()
            },
    {
        proof {
            use_type_invariant(&*self);
        }
        if self.position < self.chars.len() {
            let c = self.chars[self.position];
            self.position = self.position + 1;
            Some(c)
        } else {
            None
        }
    }

    /// Reads the current character if it is `c`.
    pub fn next_if_char(&mut self, c: char) -> (r: Option<char>)
        ensures
            old(self).pos() <= old(self).text().len(),
            final(self).pos() <= final(self).text().len(),
            final(self).text() == old(self).text(),
            old(self).pos() < old(self).text().len() && old(self).text()[old(self).pos() as int]
                == c ==> {
                &&& r == Some(c)
                &&& final(self).pos() == old(self).pos() + 1
            },
            !(old(self).pos() < old(self).text().len() && old(self).text()[old(self).pos() as int]
                == c) ==> {
                &&& r is None
                &&& final(self).pos() == old(self).pos()
            },
    {
        proof {
            use_type_invariant(&*self);
        }
        if self.position < self.chars.len() && self.chars[self.position] == c {
            self.position = self.position + 1;
            Some(c)
        } else {
            None
        }
    }

    /// Steps back over the character read last.
    pub fn previous(&mut self)
        requires
            old(self).pos() > 0,
        ensures
            final(self).text() == old(self).text(),
            final(self).pos() == old(self).pos() - 1,
            final(self).pos() < final(self).text().len(),
    {
        proof {
            use_type_invariant(&*self);
        }
        self.position = self.position - 1;
    }
}

/// `rest` begins with `prefix`.
pub open spec fn starts_with(rest: Seq<char>, prefix: Seq<char>) -> bool {
    prefix.len() <= rest.len() && rest.take(prefix.len() as int) == prefix
}

/// Reads `expected` if the unread text begins with it; otherwise reads nothing and reports
/// the error at the current position.
pub fn expect_str(visitor: &mut StrVisitor, expected: &'static str) -> (r: Result<
    (),
    SnbtDeserialisationError,
>)
    ensures
        final(visitor).text() == old(visitor).text(),
        r is Ok <==> starts_with(old(visitor).rest(), expected@),
        r is Ok ==> final(visitor).pos() == old(visitor).pos() + expected@.len(),
        r matches Err(e) ==> {
            &&& final(visitor).pos() == old(visitor).pos()
            &&& e.reports(*old(visitor), expected)
        },
{
    proof {
        use_type_invariant(&*visitor);
    }
    let want = chars_of(expected);
    let start = visitor.get_position();
    let n = want.len();
    let total = visitor.len();
    if n > total - start {
        return Err(SnbtDeserialisationError::from_visitor(visitor, expected));
    }
    let mut i: usize = 0;
    while i < n
        invariant
            i <= n,
            n == want@.len(),
            want@ == expected@,
            start == visitor.pos(),
            start + n <= total,
            total == visitor.text().len(),
            forall|k: int| 0 <= k < i ==> visitor.text()[start + k] == want@[k],
        decreases n - i,
    {
        if visitor.char_at(start + i) != want[i] {
            assert(old(visitor).rest()[i as int] != expected@[i as int]);
            return Err(SnbtDeserialisationError::from_visitor(visitor, expected));
        }
        i = i + 1;
    }
    assert(old(visitor).rest().take(n as int) =~= expected@);
    while i > 0
        invariant
            i <= n,
            visitor.text() == old(visitor).text(),
            visitor.pos() == start + n - i,
            start + n <= visitor.text().len(),
        decreases i,
    {
        visitor.next();
        i = i - 1;
    }
    Ok(())
}

/// `char::is_whitespace`: the characters with the Unicode `White_Space` property.
pub open spec fn is_whitespace(c: char) -> bool {
    ('\u{9}' <= c && c <= '\u{d}') || c == ' ' || c == '\u{85}' || c == '\u{a0}' || c
        == '\u{1680}' || ('\u{2000}' <= c && c <= '\u{200a}') || c == '\u{2028}' || c
        == '\u{2029}' || c == '\u{202f}' || c == '\u{205f}' || c == '\u{3000}'
}

pub fn char_is_whitespace(c: char) -> (r: bool)
    ensures
        r == is_whitespace(c),
{
    ('\u{9}' <= c && c <= '\u{d}') || c == ' ' || c == '\u{85}' || c == '\u{a0}' || c
        == '\u{1680}' || ('\u{2000}' <= c && c <= '\u{200a}') || c == '\u{2028}' || c
        == '\u{2029}' || c == '\u{202f}' || c == '\u{205f}' || c == '\u{3000}'
}

/// The first index from `i` on that does not hold whitespace.
pub open spec fn skip_whitespace(t: Seq<char>, i: int) -> int
    decreases t.len() - i,
{
    if 0 <= i < t.len() && is_whitespace(t[i]) {
        skip_whitespace(t, i + 1)
    } else {
        i
    }
}

pub proof fn lemma_skip_whitespace_bounds(t: Seq<char>, i: int)
    requires
        0 <= i <= t.len(),
    ensures
        i <= skip_whitespace(t, i) <= t.len(),
    decreases t.len() - i,
{
    if i < t.len() && is_whitespace(t[i]) {
        lemma_skip_whitespace_bounds(t, i + 1);
    }
}

/// Skipping whitespace in a suffix of `t` is skipping it in `t`, shifted.
pub proof fn lemma_skip_whitespace_shift(t: Seq<char>, i: int, k: int)
    requires
        0 <= i,
        0 <= k,
        i + k <= t.len(),
    ensures
        skip_whitespace(t.skip(i), k) + i == skip_whitespace(t, i + k),
    decreases t.len() - i - k,
{
    if i + k < t.len() {
        assert(t.skip(i)[k] == t[i + k]);
        if is_whitespace(t[i + k]) {
            lemma_skip_whitespace_shift(t, i, k + 1);
        }
    }
}

/// Reads the whitespace at the current position.
pub fn consume_whitespace(visitor: &mut StrVisitor)
    ensures
        final(visitor).text() == old(visitor).text(),
        final(visitor).pos() == old(visitor).pos() + skip_whitespace(old(visitor).rest(), 0),
        final(visitor).pos() == skip_whitespace(old(visitor).text(), old(visitor).pos() as int),
        old(visitor).pos() <= final(visitor).pos() <= final(visitor).text().len(),
{
    let ghost t = visitor.rest();
    let ghost start = visitor.pos();
    let _ = visitor.get_position();
    proof {
        lemma_skip_whitespace_shift(visitor.text(), start as int, 0);
        assert(visitor.text().skip(start as int).skip(0) =~= visitor.text().skip(start as int));
    }
    loop
        invariant
            visitor.text() == old(visitor).text(),
            start == old(visitor).pos(),
            t == old(visitor).rest(),
            start <= visitor.pos() <= visitor.text().len(),
            skip_whitespace(t, 0) == skip_whitespace(t, visitor.pos() - start),
            skip_whitespace(old(visitor).text(), start as int) == start + skip_whitespace(t, 0),
        decreases visitor.text().len() - visitor.pos(),
    {
        match visitor.peek() {
            Some(c) => {
                assert(t[visitor.pos() - start] == c);
                if char_is_whitespace(c) {
                    visitor.next();
                } else {
                    return;
                }
            },
            None => {
                return;
            },
        }
    }
}

/// Reads the character `c`, or reports `expected` at the current position.
pub fn expect_char(visitor: &mut StrVisitor, c: char, expected: &'static str) -> (r: Result<
    (),
    SnbtDeserialisationError,
>)
    ensures
        final(visitor).text() == old(visitor).text(),
        r is Ok <==> old(visitor).rest().len() > 0 && old(visitor).rest()[0] == c,
        r is Ok ==> final(visitor).pos() == old(visitor).pos() + 1,
        r matches Err(e) ==> {
            &&& final(visitor).pos() == old(visitor).pos()
            &&& e.reports(*old(visitor), expected)
        },
{
    let _ = visitor.get_position();
    match visitor.next_if_char(c) {
        Some(_) => Ok(()),
        None => Err(SnbtDeserialisationError::from_visitor(visitor, expected)),
    }
}


/// `c` and `d` are the same but for the case of an ASCII letter.
pub open spec fn same_ignoring_case(c: char, d: char) -> bool {
    ||| c == d
    ||| 'A' <= c && c <= 'Z' && (c as u32) + 32 == d as u32
    ||| 'a' <= c && c <= 'z' && (c as u32) == (d as u32) + 32
}

/// `rest` begins with `word`, but for the case of ASCII letters.
pub open spec fn starts_with_ignore_case(rest: Seq<char>, word: Seq<char>) -> bool {
    &&& word.len() <= rest.len()
    &&& forall|k: int| 0 <= k < word.len() ==> same_ignoring_case(#[trigger] rest[k], word[k])
}

/// Reads the case of ASCII letters aside, `word` if the unread text begins with it; otherwise
/// reads nothing and reports the error at the current position.
pub fn expect_str_ignore_case(visitor: &mut StrVisitor, word: &'static str) -> (r: Result<
    (),
    SnbtDeserialisationError,
>)
    ensures
        final(visitor).text() == old(visitor).text(),
        r is Ok <==> starts_with_ignore_case(old(visitor).rest(), word@),
        r is Ok ==> final(visitor).pos() == old(visitor).pos() + word@.len(),
        r matches Err(e) ==> {
            &&& final(visitor).pos() == old(visitor).pos()
            &&& e.reports(*old(visitor), word)
        },
{
    let want = chars_of(word);
    let start = visitor.get_position();
    let n = want.len();
    let total = visitor.len();
    if n > total - start {
        return Err(SnbtDeserialisationError::from_visitor(visitor, word));
    }
    let mut i: usize = 0;
    while i < n
        invariant
            i <= n,
            n == want@.len(),
            want@ == word@,
            start == visitor.pos(),
            start + n <= total,
            total == visitor.text().len(),
            forall|k: int| 0 <= k < i ==> same_ignoring_case(visitor.text()[start + k], want@[k]),
        decreases n - i,
    {
        let c = visitor.char_at(start + i);
        let w = want[i];
        let same = c == w || ('A' <= c && c <= 'Z' && (c as u32) + 32 == w as u32) || ('a' <= c
            && c <= 'z' && (c as u32) - 32 == (w as u32));
        if !same {
            assert(old(visitor).rest()[i as int] == c);
            return Err(SnbtDeserialisationError::from_visitor(visitor, word));
        }
        i = i + 1;
    }
    assert forall|k: int| 0 <= k < word@.len() implies same_ignoring_case(
        #[trigger] old(visitor).rest()[k],
        word@[k],
    ) by {
        assert(old(visitor).rest()[k] == visitor.text()[start + k]);
    }
    while i > 0
        invariant
            i <= n,
            visitor.text() == old(visitor).text(),
            visitor.pos() == start + n - i,
            start + n <= visitor.text().len(),
        decreases i,
    {
        visitor.next();
        i = i - 1;
    }
    Ok(())
}

} // verus!

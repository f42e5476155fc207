//! Writing tags as SNBT: numbers with their type suffixes, quoted strings, lists, compounds
//! and typed arrays. Floats and doubles are not written here: their text is Rust's float
//! formatting.
use vstd::prelude::*;
use crate::nbt::buffers::{bytes_as_slice, bytes_view};
use crate::nbt::compound::NbtCompound;
use crate::nbt::snbt::de::utils::{chars_of, string_from_chars};
use crate::nbt::snbt::de::values::{text_value, Failure, SnbtModel};
use crate::nbt::snbt::reread::{lemma_snbt_reads_back, plain_snbt, read_model};
use crate::nbt::tag::{
    entries_model, lemma_entries_model, lemma_list_model, list_model, tag_model, NbtTag, SpecTag,
};

verus! {

/// The character of the decimal digit `d`.
pub open spec fn digit_char(d: int) -> char {
    (d + 48) as char
}

/// The decimal digits of `n`, most significant first, without leading zeros.
pub open spec fn nat_text(n: nat) -> Seq<char>
    decreases n,
{
    if n < 10 {
        seq![digit_char(n as int)]
    } else {
        nat_text(n / 10).push(digit_char((n % 10) as int))
    }
}

/// `x` in decimal, with a minus sign where it is negative.
pub open spec fn int_text(x: int) -> Seq<char> {
    if x < 0 {
        seq!['-'] + nat_text((-x) as nat)
    } else {
        nat_text(x as nat)
    }
}

/// The texts `items`, one after the other, with a comma and a space between two of them.
pub open spec fn joined(items: Seq<Seq<char>>) -> Seq<char>
    decreases items.len(),
{
    if items.len() == 0 {
        Seq::empty()
    } else if items.len() == 1 {
        items[0]
    } else {
        joined(items.drop_last()) + seq![',', ' '] + items.last()
    }
}

/// Each number of `v` in decimal, followed by `suffix`.
pub open spec fn number_texts(v: Seq<int>, suffix: Seq<char>) -> Seq<Seq<char>> {
    Seq::new(v.len(), |i: int| int_text(v[i]) + suffix)
}

/// A typed array: `[`, its type letter, `;`, a space, its elements, `]`.
pub open spec fn array_text(letter: char, items: Seq<Seq<char>>) -> Seq<char> {
    seq!['[', letter, ';', ' '] + joined(items) + seq![']']
}

/// The characters of `s`, with a backslash before each `"` and `\`.
pub open spec fn escaped_text(s: Seq<char>) -> Seq<char>
    decreases s.len(),
{
    if s.len() == 0 {
        Seq::empty()
    } else {
        escaped_text(s.drop_last()) + if s.last() == '"' || s.last() == '\\' {
            seq!['\\', s.last()]
        } else {
            seq![s.last()]
        }
    }
}

/// `s` in double quotes, escaped.
pub open spec fn quoted_text(s: Seq<char>) -> Seq<char> {
    seq!['"'] + escaped_text(s) + seq!['"']
}

/// The bytes of a byte array, as the signed numbers that SNBT writes.
pub open spec fn signed_bytes(b: Seq<u8>) -> Seq<int> {
    b.map_values(|x: u8| (x as i8) as int)
}

/// The SNBT text of a tag. A float or a double has no text here (its text is Rust's float
/// formatting); `End` is written as nothing.
pub open spec fn snbt_text(t: SpecTag) -> Seq<char>
    decreases t,
{
    match t {
        SpecTag::End => Seq::empty(),
        SpecTag::Byte(x) => int_text(x as int).push('b'),
        SpecTag::Short(x) => int_text(x as int).push('s'),
        SpecTag::Int(x) => int_text(x as int),
        SpecTag::Long(x) => int_text(x as int).push('L'),
        SpecTag::Float(_) => Seq::empty(),
        SpecTag::Double(_) => Seq::empty(),
        SpecTag::ByteArray(b) => array_text('B', number_texts(signed_bytes(b), seq!['B'])),
        SpecTag::String(s) => quoted_text(s),
        SpecTag::List(l) => seq!['['] + joined(list_texts(l)) + seq![']'],
        SpecTag::Compound(e) => seq!['{'] + joined(entry_texts(e)) + seq!['}'],
        SpecTag::IntArray(v) => array_text(
            'I',
            number_texts(v.map_values(|x: i32| x as int), Seq::empty()),
        ),
        SpecTag::LongArray(v) => array_text(
            'L',
            number_texts(v.map_values(|x: i64| x as int), seq!['L']),
        ),
    }
}

/// The texts of the elements of a list.
pub open spec fn list_texts(l: Seq<SpecTag>) -> Seq<Seq<char>>
    decreases l,
{
    if l.len() == 0 {
        Seq::empty()
    } else {
        list_texts(l.subrange(0, l.len() - 1)).push(snbt_text(l[l.len() - 1]))
    }
}

/// The texts of the children of a compound: the quoted name, a colon, a space, the value.
pub open spec fn entry_texts(e: Seq<(Seq<char>, SpecTag)>) -> Seq<Seq<char>>
    decreases e,
{
    if e.len() == 0 {
        Seq::empty()
    } else {
        entry_texts(e.subrange(0, e.len() - 1)).push(
            quoted_text(e[e.len() - 1].0) + seq![':', ' '] + snbt_text(e[e.len() - 1].1),
        )
    }
}

/// The tag holds no float and no double, at any depth.
pub open spec fn float_free(t: SpecTag) -> bool
    decreases t,
{
    match t {
        SpecTag::Float(_) => false,
        SpecTag::Double(_) => false,
        SpecTag::List(l) => list_float_free(l),
        SpecTag::Compound(e) => entries_float_free(e),
        _ => true,
    }
}

pub open spec fn list_float_free(l: Seq<SpecTag>) -> bool
    decreases l,
{
    if l.len() == 0 {
        true
    } else {
        list_float_free(l.subrange(0, l.len() - 1)) && float_free(l[l.len() - 1])
    }
}

pub open spec fn entries_float_free(e: Seq<(Seq<char>, SpecTag)>) -> bool
    decreases e,
{
    if e.len() == 0 {
        true
    } else {
        entries_float_free(e.subrange(0, e.len() - 1)) && float_free(e[e.len() - 1].1)
    }
}

// ---------------------------------------------------------------------------------------
// Writing
// ---------------------------------------------------------------------------------------

/// Writing one more text after others puts a comma and a space before it.
proof fn lemma_joined_push(items: Seq<Seq<char>>, x: Seq<char>)
    ensures
        joined(items.push(x)) == if items.len() == 0 {
            x
        } else {
            joined(items) + seq![',', ' '] + x
        },
{
    assert(items.push(x).drop_last() =~= items);
}

fn push_all(out: &mut Vec<char>, s: &Vec<char>)
    ensures
        final(out)@ == old(out)@ + s@,
{
    let n = s.len();
    let mut i: usize = 0;
    while i < n
        invariant
            i <= n,
            n == s@.len(),
            out@ == old(out)@ + s@.take(i as int),
        decreases n - i,
    {
        out.push(s[i]);
        i = i + 1;
        assert(out@ =~= old(out)@ + s@.take(i as int));
    }
    assert(s@.take(n as int) =~= s@);
}

/// Writes `n` in decimal.
fn write_nat(out: &mut Vec<char>, n: u64)
    ensures
        final(out)@ == old(out)@ + nat_text(n as nat),
    decreases n,
{
    if n >= 10 {
        write_nat(out, n / 10);
    }
    let d = (n % 10) as u8;
    let c = (d + 48) as char;
    assert(c == digit_char((n % 10) as int));
    out.push(c);
    assert(out@ =~= old(out)@ + nat_text(n as nat));
}

/// Writes `x` in decimal, with a minus sign where it is negative.
fn write_int(out: &mut Vec<char>, x: i64)
    ensures
        final(out)@ == old(out)@ + int_text(x as int),
{
    if x < 0 {
        out.push('-');
        let m: u64 = if x == i64::MIN {
            0x8000_0000_0000_0000u64
        } else {
            (-x) as u64
        };
        write_nat(out, m);
        assert(out@ =~= old(out)@ + int_text(x as int));
    } else {
        write_nat(out, x as u64);
    }
}

/// Writes one element of a typed array: a comma and a space where others came before, the
/// number, and the array's suffix letter.
fn write_number_item(out: &mut Vec<char>, first: bool, x: i64, suffix: Option<char>)
    ensures
        final(out)@ == old(out)@ + (if first {
            Seq::empty()
        } else {
            seq![',', ' ']
        }) + int_text(x as int) + match suffix {
            Some(c) => seq![c],
            None => Seq::empty(),
        },
{
    if !first {
        out.push(',');
        out.push(' ');
    }
    write_int(out, x);
    match suffix {
        Some(c) => {
            out.push(c);
        },
        None => {},
    }
    assert(out@ =~= old(out)@ + (if first {
        Seq::empty()
    } else {
        seq![',', ' ']
    }) + int_text(x as int) + match suffix {
        Some(c) => seq![c],
        None => Seq::<char>::empty(),
    });
}

/// Writes `s` in double quotes, with a backslash before each `"` and `\`.
fn write_quoted(out: &mut Vec<char>, s: &String)
    ensures
        final(out)@ == old(out)@ + quoted_text(s@),
{
    let chars = chars_of(s.as_str());
    out.push('"');
    let ghost start = out@;
    let n = chars.len();
    let mut i: usize = 0;
    while i < n
        invariant
            i <= n,
            n == chars@.len(),
            chars@ == s@,
            start == old(out)@.push('"'),
            out@ == start + escaped_text(chars@.take(i as int)),
        decreases n - i,
    {
        let c = chars[i];
        if c == '"' || c == '\\' {
            out.push('\\');
        }
        out.push(c);
        i = i + 1;
        assert(chars@.take(i as int).drop_last() =~= chars@.take(i - 1));
        assert(out@ =~= start + escaped_text(chars@.take(i as int)));
    }
    assert(chars@.take(n as int) =~= chars@);
    out.push('"');
    assert(out@ =~= old(out)@ + quoted_text(s@));
}

/// The texts of the numbers `v` with the suffix, after one more.
proof fn lemma_number_texts_push(v: Seq<int>, suffix: Seq<char>, i: int)
    requires
        0 <= i < v.len(),
    ensures
        number_texts(v.take(i + 1), suffix) == number_texts(v.take(i), suffix).push(
            int_text(v[i]) + suffix,
        ),
{
    assert(number_texts(v.take(i + 1), suffix) =~= number_texts(v.take(i), suffix).push(
        int_text(v[i]) + suffix,
    ));
}

/// Writes the tag as SNBT; `false`, with `out` holding some prefix of that text, where the
/// tag holds a float or a double.
fn write_tag(tag: &NbtTag, out: &mut Vec<char>) -> (ok: bool)
    ensures
        ok == float_free(tag_model(*tag)),
        ok ==> final(out)@ == old(out)@ + snbt_text(tag_model(*tag)),
    decreases tag,
{
    match tag {
        NbtTag::End => true,
        NbtTag::Byte(x) => {
            write_int(out, *x as i64);
            out.push('b');
            true
        },
        NbtTag::Short(x) => {
            write_int(out, *x as i64);
            out.push('s');
            true
        },
        NbtTag::Int(x) => {
            write_int(out, *x as i64);
            true
        },
        NbtTag::Long(x) => {
            write_int(out, *x);
            out.push('L');
            true
        },
        NbtTag::Float(_) => false,
        NbtTag::Double(_) => false,
        NbtTag::String(s) => {
            write_quoted(out, s);
            true
        },
        NbtTag::ByteArray(b) => {
            let slice = bytes_as_slice(b);
            let ghost v = signed_bytes(slice@);
            let ghost sfx = seq!['B'];
            out.push('[');
            out.push('B');
            out.push(';');
            out.push(' ');
            let ghost start = out@;
            let n = slice.len();
            let mut i: usize = 0;
            while i < n
                invariant
                    i <= n,
                    n == slice@.len(),
                    v == signed_bytes(slice@),
                    sfx == seq!['B'],
                    out@ == start + joined(number_texts(v.take(i as int), sfx)),
                decreases n - i,
            {
                write_number_item(out, i == 0, (slice[i] as i8) as i64, Some('B'));
                proof {
                    lemma_number_texts_push(v, sfx, i as int);
                    lemma_joined_push(number_texts(v.take(i as int), sfx), int_text(v[i as int]) + sfx);
                }
                i = i + 1;
                assert(out@ =~= start + joined(number_texts(v.take(i as int), sfx)));
            }
            assert(v.take(n as int) =~= v);
            out.push(']');
            assert(out@ =~= old(out)@ + snbt_text(tag_model(*tag)));
            true
        },
        NbtTag::IntArray(a) => {
            let ghost v = a@.map_values(|x: i32| x as int);
            let ghost sfx = Seq::<char>::empty();
            out.push('[');
            out.push('I');
            out.push(';');
            out.push(' ');
            let ghost start = out@;
            let n = a.len();
            let mut i: usize = 0;
            while i < n
                invariant
                    i <= n,
                    n == a@.len(),
                    v == a@.map_values(|x: i32| x as int),
                    sfx == Seq::<char>::empty(),
                    out@ == start + joined(number_texts(v.take(i as int), sfx)),
                decreases n - i,
            {
                write_number_item(out, i == 0, a[i] as i64, None);
                proof {
                    lemma_number_texts_push(v, sfx, i as int);
                    lemma_joined_push(number_texts(v.take(i as int), sfx), int_text(v[i as int]) + sfx);
                    assert(int_text(v[i as int]) + sfx =~= int_text(v[i as int]));
                }
                i = i + 1;
                assert(out@ =~= start + joined(number_texts(v.take(i as int), sfx)));
            }
            assert(v.take(n as int) =~= v);
            out.push(']');
            assert(out@ =~= old(out)@ + snbt_text(tag_model(*tag)));
            true
        },
        NbtTag::LongArray(a) => {
            let ghost v = a@.map_values(|x: i64| x as int);
            let ghost sfx = seq!['L'];
            out.push('[');
            out.push('L');
            out.push(';');
            out.push(' ');
            let ghost start = out@;
            let n = a.len();
            let mut i: usize = 0;
            while i < n
                invariant
                    i <= n,
                    n == a@.len(),
                    v == a@.map_values(|x: i64| x as int),
                    sfx == seq!['L'],
                    out@ == start + joined(number_texts(v.take(i as int), sfx)),
                decreases n - i,
            {
                write_number_item(out, i == 0, a[i], Some('L'));
                proof {
                    lemma_number_texts_push(v, sfx, i as int);
                    lemma_joined_push(number_texts(v.take(i as int), sfx), int_text(v[i as int]) + sfx);
                }
                i = i + 1;
                assert(out@ =~= start + joined(number_texts(v.take(i as int), sfx)));
            }
            assert(v.take(n as int) =~= v);
            out.push(']');
            assert(out@ =~= old(out)@ + snbt_text(tag_model(*tag)));
            true
        },
        NbtTag::List(list) => {
            out.push('[');
            let ghost start = out@;
            let n = list.len();
            let mut i: usize = 0;
            proof {
                lemma_list_model(list@);
            }
            while i < n
                invariant
                    i <= n,
                    n == list@.len(),
                    *tag == NbtTag::List(*list),
                    list_model(list@).len() == n,
                    forall|k: int| 0 <= k < n ==> #[trigger] list_model(list@)[k] == tag_model(list@[k]),
                    list_float_free(list_model(list@).take(i as int)),
                    out@ == start + joined(list_texts(list_model(list@).take(i as int))),
                decreases n - i,
            {
                proof {
                    assert(decreases_to!(*tag => (*tag)->List_0));
                    assert(decreases_to!(*list => list@));
                    assert(decreases_to!(list@ => list@[i as int]));
                }
                let ghost m = list_model(list@);
                let ghost before = list_texts(m.take(i as int));
                let first = i == 0;
                if !first {
                    out.push(',');
                    out.push(' ');
                }
                if !write_tag(&list[i], out) {
                    proof {
                        assert(m.take(i + 1).subrange(0, i as int) =~= m.take(i as int));
                        lemma_list_prefix_float(m, i + 1, n as int);
                    }
                    return false;
                }
                proof {
                    assert(m.take(i + 1).subrange(0, i as int) =~= m.take(i as int));
                    assert(list_texts(m.take(i + 1)) == before.push(snbt_text(m[i as int])));
                    lemma_joined_push(before, snbt_text(m[i as int]));
                    assert(before.len() == i) by {
                        lemma_list_texts_len(m.take(i as int));
                    }
                }
                i = i + 1;
                assert(out@ =~= start + joined(list_texts(m.take(i as int))));
            }
            assert(list_model(list@).take(n as int) =~= list_model(list@));
            out.push(']');
            assert(out@ =~= old(out)@ + snbt_text(tag_model(*tag)));
            true
        },
        NbtTag::Compound(compound) => write_compound(compound, out, Ghost(*tag)),
    }
}

/// Writes the children of a compound in braces; `false` where one holds a float or a double.
fn write_compound(compound: &NbtCompound, out: &mut Vec<char>, Ghost(tag): Ghost<NbtTag>) -> (ok: bool)
    requires
        tag == NbtTag::Compound(*compound),
    ensures
        ok == float_free(tag_model(tag)),
        ok ==> final(out)@ == old(out)@ + snbt_text(tag_model(tag)),
    decreases tag, 0int,
{
    let children = &compound.child_tags;
    out.push('{');
    let ghost start = out@;
    let n = children.len();
    let mut i: usize = 0;
    proof {
        lemma_entries_model(children@);
    }
    while i < n
        invariant
            i <= n,
            n == children@.len(),
            tag == NbtTag::Compound(*compound),
            children == &compound.child_tags,
            entries_model(children@).len() == n,
            forall|k: int|
                0 <= k < n ==> #[trigger] entries_model(children@)[k] == (
                    children@[k].0@,
                    tag_model(children@[k].1),
                ),
            entries_float_free(entries_model(children@).take(i as int)),
            out@ == start + joined(entry_texts(entries_model(children@).take(i as int))),
        decreases n - i,
    {
        proof {
            assert(decreases_to!(tag => tag->Compound_0));
            assert(decreases_to!(*compound => compound.child_tags));
            assert(decreases_to!(compound.child_tags => children@));
            assert(decreases_to!(children@ => children@[i as int]));
            assert(decreases_to!(children@[i as int] => children@[i as int].1));
        }
        let ghost m = entries_model(children@);
        let ghost before = entry_texts(m.take(i as int));
        let ghost o1 = out@;
        if i > 0 {
            out.push(',');
            out.push(' ');
        }
        let ghost o2 = out@;
        write_quoted(out, &children[i].0);
        out.push(':');
        out.push(' ');
        let ghost o3 = out@;
        if !write_tag(&children[i].1, out) {
            proof {
                assert(m.take(i + 1).subrange(0, i as int) =~= m.take(i as int));
                lemma_entries_prefix_float(m, i + 1, n as int);
            }
            return false;
        }
        proof {
            let x = quoted_text(m[i as int].0) + seq![':', ' '] + snbt_text(m[i as int].1);
            assert(m.take(i + 1).subrange(0, i as int) =~= m.take(i as int));
            assert(entry_texts(m.take(i + 1)) == before.push(x));
            lemma_joined_push(before, x);
            assert(before.len() == i) by {
                lemma_entry_texts_len(m.take(i as int));
            }
            assert(out@ =~= o2 + x);
        }
        i = i + 1;
        assert(out@ =~= start + joined(entry_texts(m.take(i as int))));
    }
    assert(entries_model(children@).take(n as int) =~= entries_model(children@));
    out.push('}');
    assert(out@ =~= old(out)@ + snbt_text(tag_model(tag)));
    true
}

proof fn lemma_list_texts_len(l: Seq<SpecTag>)
    ensures
        list_texts(l).len() == l.len(),
    decreases l.len(),
{
    if l.len() > 0 {
        lemma_list_texts_len(l.subrange(0, l.len() - 1));
    }
}

proof fn lemma_entry_texts_len(e: Seq<(Seq<char>, SpecTag)>)
    ensures
        entry_texts(e).len() == e.len(),
    decreases e.len(),
{
    if e.len() > 0 {
        lemma_entry_texts_len(e.subrange(0, e.len() - 1));
    }
}

/// A list with a float among its first `i` elements is not free of floats.
proof fn lemma_list_prefix_float(l: Seq<SpecTag>, i: int, n: int)
    requires
        0 < i <= n,
        n == l.len(),
        !list_float_free(l.take(i)),
    ensures
        !list_float_free(l),
    decreases n - i,
{
    if i < n {
        assert(l.take(i + 1).subrange(0, i) =~= l.take(i));
        lemma_list_prefix_float(l, i + 1, n);
    } else {
        assert(l.take(i) =~= l);
    }
}

proof fn lemma_entries_prefix_float(e: Seq<(Seq<char>, SpecTag)>, i: int, n: int)
    requires
        0 < i <= n,
        n == e.len(),
        !entries_float_free(e.take(i)),
    ensures
        !entries_float_free(e),
    decreases n - i,
{
    if i < n {
        assert(e.take(i + 1).subrange(0, i) =~= e.take(i));
        lemma_entries_prefix_float(e, i + 1, n);
    } else {
        assert(e.take(i) =~= e);
    }
}

impl NbtTag {
    /// The tag written as SNBT, where it holds no float and no double; `None` otherwise. The
    /// text of a tag made of integers, typed arrays and lists of them reads back as the tag.
    pub fn to_snbt(&self) -> (r: Option<String>)
        ensures
            r is Some <==> float_free(tag_model(*self)),
            r matches Some(s) ==> s@ == snbt_text(tag_model(*self)),
            r matches Some(s) ==> (plain_snbt(tag_model(*self)) ==> text_value(s@) == (
                Ok::<SnbtModel, Failure>(read_model(tag_model(*self))),
                s@.len() as int,
            )),
    {
        let mut out: Vec<char> = Vec::new();
        if write_tag(self, &mut out) {
            assert(out@ =~= snbt_text(tag_model(*self)));
            proof {
                if plain_snbt(tag_model(*self)) {
                    lemma_snbt_reads_back(tag_model(*self));
                }
            }
            Some(string_from_chars(&out))
        } else {
            None
        }
    }
}

/// Writes `s` as a quoted SNBT string: in double quotes, with a backslash before each `"`
/// and `\`.
pub fn quoted_snbt(s: &String) -> (r: String)
    ensures
        r@ == quoted_text(s@),
{
    let mut out: Vec<char> = Vec::new();
    write_quoted(&mut out, s);
    assert(out@ =~= quoted_text(s@));
    string_from_chars(&out)
}

} // verus!

//! The order of tags: by type id, then by value; floats in the total order of their bits,
//! strings, arrays and lists lexicographically.
use vstd::prelude::*;
use crate::nbt::buffers::{bytes_as_slice, bytes_view};
use crate::nbt::compound::NbtCompound;
use crate::nbt::snbt::de::utils::chars_of;
use crate::nbt::tag::{
    entries_model, lemma_entries_model, lemma_list_model, list_model, tag_model, NbtTag, SpecTag,
};

verus! {

/// -1, 0 or 1 as `x` is less than, equal to or greater than `y`.
pub open spec fn int_order(x: int, y: int) -> int {
    if x < y {
        -1
    } else if x > y {
        1
    } else {
        0
    }
}

/// The key by which `f32::total_cmp` orders floats, given by their bits: a float without
/// its sign bit keeps its bits, one with it has all other bits flipped, and the keys compare
/// as two's complement integers.
pub open spec fn float_key(bits: u32) -> int {
    if bits < 0x8000_0000 {
        bits as int
    } else {
        0x7fff_ffff - bits
    }
}

/// The key by which `f64::total_cmp` orders doubles, given by their bits.
pub open spec fn double_key(bits: u64) -> int {
    if bits < 0x8000_0000_0000_0000 {
        bits as int
    } else {
        0x7fff_ffff_ffff_ffff - bits
    }
}

/// The lexicographic order of two sequences of integers.
pub open spec fn lex_order(a: Seq<int>, b: Seq<int>) -> int
    decreases a.len(),
{
    if a.len() == 0 {
        if b.len() == 0 {
            0
        } else {
            -1
        }
    } else if b.len() == 0 {
        1
    } else if a[0] != b[0] {
        int_order(a[0], b[0])
    } else {
        lex_order(a.skip(1), b.skip(1))
    }
}

/// The code points of a string, which order it as its UTF-8 bytes do.
pub open spec fn codes(s: Seq<char>) -> Seq<int> {
    s.map_values(|c: char| c as int)
}

pub open spec fn bytes_ints(s: Seq<u8>) -> Seq<int> {
    s.map_values(|x: u8| x as int)
}

pub open spec fn i32_ints(s: Seq<i32>) -> Seq<int> {
    s.map_values(|x: i32| x as int)
}

pub open spec fn i64_ints(s: Seq<i64>) -> Seq<int> {
    s.map_values(|x: i64| x as int)
}

/// The order of two tags: tags of different types by their type ids, others by value.
pub open spec fn tag_order(a: SpecTag, b: SpecTag) -> int
    decreases a,
{
    match (a, b) {
        (SpecTag::Byte(x), SpecTag::Byte(y)) => int_order(x as int, y as int),
        (SpecTag::Short(x), SpecTag::Short(y)) => int_order(x as int, y as int),
        (SpecTag::Int(x), SpecTag::Int(y)) => int_order(x as int, y as int),
        (SpecTag::Long(x), SpecTag::Long(y)) => int_order(x as int, y as int),
        (SpecTag::Float(x), SpecTag::Float(y)) => int_order(float_key(x), float_key(y)),
        (SpecTag::Double(x), SpecTag::Double(y)) => int_order(double_key(x), double_key(y)),
        (SpecTag::ByteArray(x), SpecTag::ByteArray(y)) => lex_order(bytes_ints(x), bytes_ints(y)),
        (SpecTag::String(x), SpecTag::String(y)) => lex_order(codes(x), codes(y)),
        (SpecTag::List(x), SpecTag::List(y)) => list_order(x, y),
        (SpecTag::Compound(x), SpecTag::Compound(y)) => entries_order(x, y),
        (SpecTag::IntArray(x), SpecTag::IntArray(y)) => lex_order(i32_ints(x), i32_ints(y)),
        (SpecTag::LongArray(x), SpecTag::LongArray(y)) => lex_order(i64_ints(x), i64_ints(y)),
        _ => int_order(a.type_id() as int, b.type_id() as int),
    }
}

/// The lexicographic order of two lists of tags.
pub open spec fn list_order(a: Seq<SpecTag>, b: Seq<SpecTag>) -> int
    decreases a,
{
    if a.len() == 0 {
        if b.len() == 0 {
            0
        } else {
            -1
        }
    } else if b.len() == 0 {
        1
    } else if tag_order(a[0], b[0]) != 0 {
        tag_order(a[0], b[0])
    } else {
        list_order(a.skip(1), b.skip(1))
    }
}

/// The lexicographic order of the children of two compounds, each by its name, then by its
/// tag.
pub open spec fn entries_order(a: Seq<(Seq<char>, SpecTag)>, b: Seq<(Seq<char>, SpecTag)>) -> int
    decreases a,
{
    if a.len() == 0 {
        if b.len() == 0 {
            0
        } else {
            -1
        }
    } else if b.len() == 0 {
        1
    } else if lex_order(codes(a[0].0), codes(b[0].0)) != 0 {
        lex_order(codes(a[0].0), codes(b[0].0))
    } else if tag_order(a[0].1, b[0].1) != 0 {
        tag_order(a[0].1, b[0].1)
    } else {
        entries_order(a.skip(1), b.skip(1))
    }
}


/// The lexicographic order of two byte strings.
fn compare_bytes(a: &[u8], b: &[u8]) -> (r: i8)
    ensures
        r == lex_order(bytes_ints(a@), bytes_ints(b@)),
{
    let n = a.len();
    let m = b.len();
    let ghost sa = bytes_ints(a@);
    let ghost sb = bytes_ints(b@);
    let mut i: usize = 0;
    assert(sa.skip(0) =~= sa);
    assert(sb.skip(0) =~= sb);
    while i < n && i < m
        invariant
            i <= n,
            i <= m,
            n == a@.len(),
            m == b@.len(),
            sa == bytes_ints(a@),
            sb == bytes_ints(b@),
            lex_order(sa, sb) == lex_order(sa.skip(i as int), sb.skip(i as int)),
        decreases n - i,
    {
        assert(sa.skip(i as int)[0] == a@[i as int] as int);
        assert(sb.skip(i as int)[0] == b@[i as int] as int);
        if a[i] != b[i] {
            return if a[i] < b[i] {
                -1
            } else {
                1
            };
        }
        assert(sa.skip(i as int).skip(1) =~= sa.skip(i + 1));
        assert(sb.skip(i as int).skip(1) =~= sb.skip(i + 1));
        i = i + 1;
    }
    if i < n {
        1
    } else if i < m {
        -1
    } else {
        0
    }
}

/// The lexicographic order of two strings, given by their characters.
fn compare_chars(a: &[char], b: &[char]) -> (r: i8)
    ensures
        r == lex_order(codes(a@), codes(b@)),
{
    let n = a.len();
    let m = b.len();
    let ghost sa = codes(a@);
    let ghost sb = codes(b@);
    let mut i: usize = 0;
    assert(sa.skip(0) =~= sa);
    assert(sb.skip(0) =~= sb);
    while i < n && i < m
        invariant
            i <= n,
            i <= m,
            n == a@.len(),
            m == b@.len(),
            sa == codes(a@),
            sb == codes(b@),
            lex_order(sa, sb) == lex_order(sa.skip(i as int), sb.skip(i as int)),
        decreases n - i,
    {
        assert(sa.skip(i as int)[0] == a@[i as int] as int);
        assert(sb.skip(i as int)[0] == b@[i as int] as int);
        if a[i] != b[i] {
            return if a[i] < b[i] {
                -1
            } else {
                1
            };
        }
        assert(sa.skip(i as int).skip(1) =~= sa.skip(i + 1));
        assert(sb.skip(i as int).skip(1) =~= sb.skip(i + 1));
        i = i + 1;
    }
    if i < n {
        1
    } else if i < m {
        -1
    } else {
        0
    }
}

/// The lexicographic order of two arrays of ints.
fn compare_i32s(a: &[i32], b: &[i32]) -> (r: i8)
    ensures
        r == lex_order(i32_ints(a@), i32_ints(b@)),
{
    let n = a.len();
    let m = b.len();
    let ghost sa = i32_ints(a@);
    let ghost sb = i32_ints(b@);
    let mut i: usize = 0;
    assert(sa.skip(0) =~= sa);
    assert(sb.skip(0) =~= sb);
    while i < n && i < m
        invariant
            i <= n,
            i <= m,
            n == a@.len(),
            m == b@.len(),
            sa == i32_ints(a@),
            sb == i32_ints(b@),
            lex_order(sa, sb) == lex_order(sa.skip(i as int), sb.skip(i as int)),
        decreases n - i,
    {
        assert(sa.skip(i as int)[0] == a@[i as int] as int);
        assert(sb.skip(i as int)[0] == b@[i as int] as int);
        if a[i] != b[i] {
            return if a[i] < b[i] {
                -1
            } else {
                1
            };
        }
        assert(sa.skip(i as int).skip(1) =~= sa.skip(i + 1));
        assert(sb.skip(i as int).skip(1) =~= sb.skip(i + 1));
        i = i + 1;
    }
    if i < n {
        1
    } else if i < m {
        -1
    } else {
        0
    }
}

/// The lexicographic order of two arrays of longs.
fn compare_i64s(a: &[i64], b: &[i64]) -> (r: i8)
    ensures
        r == lex_order(i64_ints(a@), i64_ints(b@)),
{
    let n = a.len();
    let m = b.len();
    let ghost sa = i64_ints(a@);
    let ghost sb = i64_ints(b@);
    let mut i: usize = 0;
    assert(sa.skip(0) =~= sa);
    assert(sb.skip(0) =~= sb);
    while i < n && i < m
        invariant
            i <= n,
            i <= m,
            n == a@.len(),
            m == b@.len(),
            sa == i64_ints(a@),
            sb == i64_ints(b@),
            lex_order(sa, sb) == lex_order(sa.skip(i as int), sb.skip(i as int)),
        decreases n - i,
    {
        assert(sa.skip(i as int)[0] == a@[i as int] as int);
        assert(sb.skip(i as int)[0] == b@[i as int] as int);
        if a[i] != b[i] {
            return if a[i] < b[i] {
                -1
            } else {
                1
            };
        }
        assert(sa.skip(i as int).skip(1) =~= sa.skip(i + 1));
        assert(sb.skip(i as int).skip(1) =~= sb.skip(i + 1));
        i = i + 1;
    }
    if i < n {
        1
    } else if i < m {
        -1
    } else {
        0
    }
}


fn order_of(x: i128, y: i128) -> (r: i8)
    ensures
        r == int_order(x as int, y as int),
{
    if x < y {
        -1
    } else if x > y {
        1
    } else {
        0
    }
}

fn float_key_of(bits: u32) -> (k: i128)
    ensures
        k == float_key(bits),
{
    if bits < 0x8000_0000 {
        bits as i128
    } else {
        0x7fff_ffff - bits as i128
    }
}

fn double_key_of(bits: u64) -> (k: i128)
    ensures
        k == double_key(bits),
{
    if bits < 0x8000_0000_0000_0000 {
        bits as i128
    } else {
        0x7fff_ffff_ffff_ffff - bits as i128
    }
}

/// The order of two tags, as -1, 0 or 1: tags of different types by their type ids, others
/// by value.
pub fn tag_order_of(a: &NbtTag, b: &NbtTag) -> (r: i8)
    ensures
        r == tag_order(tag_model(*a), tag_model(*b)),
    decreases a,
{
    match (a, b) {
        (NbtTag::Byte(x), NbtTag::Byte(y)) => order_of(*x as i128, *y as i128),
        (NbtTag::Short(x), NbtTag::Short(y)) => order_of(*x as i128, *y as i128),
        (NbtTag::Int(x), NbtTag::Int(y)) => order_of(*x as i128, *y as i128),
        (NbtTag::Long(x), NbtTag::Long(y)) => order_of(*x as i128, *y as i128),
        (NbtTag::Float(x), NbtTag::Float(y)) => order_of(float_key_of(*x), float_key_of(*y)),
        (NbtTag::Double(x), NbtTag::Double(y)) => order_of(double_key_of(*x), double_key_of(*y)),
        (NbtTag::ByteArray(x), NbtTag::ByteArray(y)) => compare_bytes(
            bytes_as_slice(x),
            bytes_as_slice(y),
        ),
        (NbtTag::String(x), NbtTag::String(y)) => {
            let cx = chars_of(x.as_str());
            let cy = chars_of(y.as_str());
            compare_chars(cx.as_slice(), cy.as_slice())
        },
        (NbtTag::List(x), NbtTag::List(y)) => {
            proof {
                assert(decreases_to!(*a => *x));
            }
            list_order_of(x, y)
        },
        (NbtTag::Compound(x), NbtTag::Compound(y)) => {
            proof {
                assert(decreases_to!(*a => *x));
            }
            compound_order_of(x, y)
        },
        (NbtTag::IntArray(x), NbtTag::IntArray(y)) => compare_i32s(x.as_slice(), y.as_slice()),
        (NbtTag::LongArray(x), NbtTag::LongArray(y)) => compare_i64s(x.as_slice(), y.as_slice()),
        _ => order_of(a.get_type_id() as i128, b.get_type_id() as i128),
    }
}

/// The lexicographic order of two lists of tags.
fn list_order_of(a: &Vec<NbtTag>, b: &Vec<NbtTag>) -> (r: i8)
    ensures
        r == list_order(list_model(a@), list_model(b@)),
    decreases a,
{
    let n = a.len();
    let m = b.len();
    let ghost la = list_model(a@);
    let ghost lb = list_model(b@);
    proof {
        lemma_list_model(a@);
        lemma_list_model(b@);
    }
    let mut i: usize = 0;
    assert(la.skip(0) =~= la);
    assert(lb.skip(0) =~= lb);
    while i < n && i < m
        invariant
            i <= n,
            i <= m,
            n == a@.len(),
            m == b@.len(),
            la == list_model(a@),
            lb == list_model(b@),
            la.len() == n,
            lb.len() == m,
            forall|j: int| 0 <= j < n ==> #[trigger] la[j] == tag_model(a@[j]),
            forall|j: int| 0 <= j < m ==> #[trigger] lb[j] == tag_model(b@[j]),
            list_order(la, lb) == list_order(la.skip(i as int), lb.skip(i as int)),
        decreases n - i,
    {
        proof {
            assert(decreases_to!(*a => a@));
            assert(decreases_to!(a@ => a@[i as int]));
        }
        let c = tag_order_of(&a[i], &b[i]);
        assert(la.skip(i as int)[0] == la[i as int]);
        assert(lb.skip(i as int)[0] == lb[i as int]);
        if c != 0 {
            return c;
        }
        assert(la.skip(i as int).skip(1) =~= la.skip(i + 1));
        assert(lb.skip(i as int).skip(1) =~= lb.skip(i + 1));
        i = i + 1;
    }
    if i < n {
        1
    } else if i < m {
        -1
    } else {
        0
    }
}

/// The lexicographic order of the children of two compounds.
pub fn compound_order_of(a: &NbtCompound, b: &NbtCompound) -> (r: i8)
    ensures
        r == entries_order(entries_model(a.child_tags@), entries_model(b.child_tags@)),
    decreases a,
{
    let n = a.child_tags.len();
    let m = b.child_tags.len();
    let ghost ea = entries_model(a.child_tags@);
    let ghost eb = entries_model(b.child_tags@);
    proof {
        lemma_entries_model(a.child_tags@);
        lemma_entries_model(b.child_tags@);
    }
    let mut i: usize = 0;
    assert(ea.skip(0) =~= ea);
    assert(eb.skip(0) =~= eb);
    while i < n && i < m
        invariant
            i <= n,
            i <= m,
            n == a.child_tags@.len(),
            m == b.child_tags@.len(),
            ea == entries_model(a.child_tags@),
            eb == entries_model(b.child_tags@),
            ea.len() == n,
            eb.len() == m,
            forall|j: int|
                0 <= j < n ==> #[trigger] ea[j] == (a.child_tags@[j].0@, tag_model(
                    a.child_tags@[j].1,
                )),
            forall|j: int|
                0 <= j < m ==> #[trigger] eb[j] == (b.child_tags@[j].0@, tag_model(
                    b.child_tags@[j].1,
                )),
            entries_order(ea, eb) == entries_order(ea.skip(i as int), eb.skip(i as int)),
        decreases n - i,
    {
        proof {
            assert(decreases_to!(*a => a.child_tags));
            assert(decreases_to!(a.child_tags => a.child_tags@));
            assert(decreases_to!(a.child_tags@ => a.child_tags@[i as int]));
            assert(decreases_to!(a.child_tags@[i as int] => a.child_tags@[i as int].1));
        }
        let (name_a, tag_a) = &a.child_tags[i];
        let (name_b, tag_b) = &b.child_tags[i];
        assert(ea.skip(i as int)[0] == ea[i as int]);
        assert(eb.skip(i as int)[0] == eb[i as int]);
        let ca = chars_of(name_a.as_str());
        let cb = chars_of(name_b.as_str());
        let c = compare_chars(ca.as_slice(), cb.as_slice());
        if c != 0 {
            return c;
        }
        let c = tag_order_of(tag_a, tag_b);
        if c != 0 {
            return c;
        }
        assert(ea.skip(i as int).skip(1) =~= ea.skip(i + 1));
        assert(eb.skip(i as int).skip(1) =~= eb.skip(i + 1));
        i = i + 1;
    }
    if i < n {
        1
    } else if i < m {
        -1
    } else {
        0
    }
}


proof fn lemma_lex_antisymmetric(a: Seq<int>, b: Seq<int>)
    ensures
        lex_order(a, b) == -lex_order(b, a),
    decreases a.len(),
{
    if a.len() > 0 && b.len() > 0 && a[0] == b[0] {
        lemma_lex_antisymmetric(a.skip(1), b.skip(1));
    }
}

proof fn lemma_lex_equal(a: Seq<int>, b: Seq<int>)
    ensures
        lex_order(a, b) == 0 <==> a == b,
    decreases a.len(),
{
    if a.len() == 0 && b.len() == 0 {
        assert(a =~= b);
    }
    if a.len() > 0 && b.len() > 0 && a[0] == b[0] {
        lemma_lex_equal(a.skip(1), b.skip(1));
        if a.skip(1) == b.skip(1) {
            assert(a =~= seq![a[0]] + a.skip(1));
            assert(b =~= seq![b[0]] + b.skip(1));
        }
        if a == b {
            assert(a.skip(1) =~= b.skip(1));
        }
    }
}

proof fn lemma_lex_transitive(a: Seq<int>, b: Seq<int>, c: Seq<int>)
    requires
        lex_order(a, b) <= 0,
        lex_order(b, c) <= 0,
    ensures
        lex_order(a, c) <= 0,
    decreases a.len(),
{
    if a.len() > 0 && b.len() > 0 && c.len() > 0 && a[0] == b[0] && b[0] == c[0] {
        lemma_lex_transitive(a.skip(1), b.skip(1), c.skip(1));
    }
}

/// Different keys for different floats, and for different doubles.
proof fn lemma_keys_injective(x: u32, y: u32, u: u64, v: u64)
    ensures
        float_key(x) == float_key(y) ==> x == y,
        double_key(u) == double_key(v) ==> u == v,
{
}

/// Sequences of the same integers are the same sequence.
proof fn lemma_ints_injective(x: Seq<i64>, y: Seq<i64>, p: Seq<i32>, q: Seq<i32>, b: Seq<u8>, d: Seq<u8>, s: Seq<char>, t: Seq<char>)
    ensures
        i64_ints(x) == i64_ints(y) ==> x == y,
        i32_ints(p) == i32_ints(q) ==> p == q,
        bytes_ints(b) == bytes_ints(d) ==> b == d,
        codes(s) == codes(t) ==> s == t,
{
    if i64_ints(x) == i64_ints(y) {
        assert(i64_ints(x).len() == x.len() && i64_ints(y).len() == y.len());
        assert forall|i: int| 0 <= i < x.len() implies x[i] == y[i] by {
            assert(i64_ints(x)[i] == i64_ints(y)[i]);
        }
        assert(x =~= y);
    }
    if i32_ints(p) == i32_ints(q) {
        assert(i32_ints(p).len() == p.len() && i32_ints(q).len() == q.len());
        assert forall|i: int| 0 <= i < p.len() implies p[i] == q[i] by {
            assert(i32_ints(p)[i] == i32_ints(q)[i]);
        }
        assert(p =~= q);
    }
    if bytes_ints(b) == bytes_ints(d) {
        assert(bytes_ints(b).len() == b.len() && bytes_ints(d).len() == d.len());
        assert forall|i: int| 0 <= i < b.len() implies b[i] == d[i] by {
            assert(bytes_ints(b)[i] == bytes_ints(d)[i]);
        }
        assert(b =~= d);
    }
    if codes(s) == codes(t) {
        assert(codes(s).len() == s.len() && codes(t).len() == t.len());
        assert forall|i: int| 0 <= i < s.len() implies s[i] == t[i] by {
            assert(codes(s)[i] == codes(t)[i]);
        }
        assert(s =~= t);
    }
}

/// Swapping two tags turns their order around.
pub proof fn lemma_tag_order_antisymmetric(a: SpecTag, b: SpecTag)
    ensures
        tag_order(a, b) == -tag_order(b, a),
    decreases a, 1int,
{
    match (a, b) {
        (SpecTag::ByteArray(x), SpecTag::ByteArray(y)) => lemma_lex_antisymmetric(
            bytes_ints(x),
            bytes_ints(y),
        ),
        (SpecTag::String(x), SpecTag::String(y)) => lemma_lex_antisymmetric(codes(x), codes(y)),
        (SpecTag::List(x), SpecTag::List(y)) => lemma_list_order_antisymmetric(x, y),
        (SpecTag::Compound(x), SpecTag::Compound(y)) => lemma_entries_order_antisymmetric(x, y),
        (SpecTag::IntArray(x), SpecTag::IntArray(y)) => lemma_lex_antisymmetric(
            i32_ints(x),
            i32_ints(y),
        ),
        (SpecTag::LongArray(x), SpecTag::LongArray(y)) => lemma_lex_antisymmetric(
            i64_ints(x),
            i64_ints(y),
        ),
        _ => {},
    }
}

proof fn lemma_list_order_antisymmetric(a: Seq<SpecTag>, b: Seq<SpecTag>)
    ensures
        list_order(a, b) == -list_order(b, a),
    decreases a, 0int,
{
    if a.len() > 0 && b.len() > 0 {
        lemma_tag_order_antisymmetric(a[0], b[0]);
        lemma_list_order_antisymmetric(a.skip(1), b.skip(1));
    }
}

proof fn lemma_entries_order_antisymmetric(
    a: Seq<(Seq<char>, SpecTag)>,
    b: Seq<(Seq<char>, SpecTag)>,
)
    ensures
        entries_order(a, b) == -entries_order(b, a),
    decreases a, 0int,
{
    if a.len() > 0 && b.len() > 0 {
        lemma_lex_antisymmetric(codes(a[0].0), codes(b[0].0));
        assert(decreases_to!(a => a[0]));
        lemma_tag_order_antisymmetric(a[0].1, b[0].1);
        lemma_entries_order_antisymmetric(a.skip(1), b.skip(1));
    }
}

/// Two tags are in neither order just where they are the same.
pub proof fn lemma_tag_order_equal(a: SpecTag, b: SpecTag)
    ensures
        tag_order(a, b) == 0 <==> a == b,
    decreases a, 1int,
{
    match (a, b) {
        (SpecTag::Float(x), SpecTag::Float(y)) => lemma_keys_injective(x, y, 0, 0),
        (SpecTag::Double(x), SpecTag::Double(y)) => lemma_keys_injective(0, 0, x, y),
        (SpecTag::ByteArray(x), SpecTag::ByteArray(y)) => {
            lemma_lex_equal(bytes_ints(x), bytes_ints(y));
            lemma_ints_injective(seq![], seq![], seq![], seq![], x, y, seq![], seq![]);
        },
        (SpecTag::String(x), SpecTag::String(y)) => {
            lemma_lex_equal(codes(x), codes(y));
            lemma_ints_injective(seq![], seq![], seq![], seq![], seq![], seq![], x, y);
        },
        (SpecTag::List(x), SpecTag::List(y)) => lemma_list_order_equal(x, y),
        (SpecTag::Compound(x), SpecTag::Compound(y)) => lemma_entries_order_equal(x, y),
        (SpecTag::IntArray(x), SpecTag::IntArray(y)) => {
            lemma_lex_equal(i32_ints(x), i32_ints(y));
            lemma_ints_injective(seq![], seq![], x, y, seq![], seq![], seq![], seq![]);
        },
        (SpecTag::LongArray(x), SpecTag::LongArray(y)) => {
            lemma_lex_equal(i64_ints(x), i64_ints(y));
            lemma_ints_injective(x, y, seq![], seq![], seq![], seq![], seq![], seq![]);
        },
        _ => {},
    }
}

proof fn lemma_list_order_equal(a: Seq<SpecTag>, b: Seq<SpecTag>)
    ensures
        list_order(a, b) == 0 <==> a == b,
    decreases a, 0int,
{
    if a.len() == 0 && b.len() == 0 {
        assert(a =~= b);
    }
    if a.len() > 0 && b.len() > 0 {
        lemma_tag_order_equal(a[0], b[0]);
        lemma_list_order_equal(a.skip(1), b.skip(1));
        if a[0] == b[0] && a.skip(1) == b.skip(1) {
            assert(a =~= seq![a[0]] + a.skip(1));
            assert(b =~= seq![b[0]] + b.skip(1));
        }
        if a == b {
            assert(a.skip(1) =~= b.skip(1));
        }
    }
}

proof fn lemma_entries_order_equal(a: Seq<(Seq<char>, SpecTag)>, b: Seq<(Seq<char>, SpecTag)>)
    ensures
        entries_order(a, b) == 0 <==> a == b,
    decreases a, 0int,
{
    if a.len() == 0 && b.len() == 0 {
        assert(a =~= b);
    }
    if a.len() > 0 && b.len() > 0 {
        lemma_lex_equal(codes(a[0].0), codes(b[0].0));
        lemma_ints_injective(seq![], seq![], seq![], seq![], seq![], seq![], a[0].0, b[0].0);
        assert(decreases_to!(a => a[0]));
        lemma_tag_order_equal(a[0].1, b[0].1);
        lemma_entries_order_equal(a.skip(1), b.skip(1));
        if a[0] == b[0] && a.skip(1) == b.skip(1) {
            assert(a =~= seq![a[0]] + a.skip(1));
            assert(b =~= seq![b[0]] + b.skip(1));
        }
        if a == b {
            assert(a.skip(1) =~= b.skip(1));
        }
    }
}

/// A tag at most a second one, which is at most a third, is at most the third.
pub proof fn lemma_tag_order_transitive(a: SpecTag, b: SpecTag, c: SpecTag)
    requires
        tag_order(a, b) <= 0,
        tag_order(b, c) <= 0,
    ensures
        tag_order(a, c) <= 0,
    decreases a, 1int,
{
    match (a, b, c) {
        (SpecTag::ByteArray(x), SpecTag::ByteArray(y), SpecTag::ByteArray(z)) => lemma_lex_transitive(
            bytes_ints(x),
            bytes_ints(y),
            bytes_ints(z),
        ),
        (SpecTag::String(x), SpecTag::String(y), SpecTag::String(z)) => lemma_lex_transitive(
            codes(x),
            codes(y),
            codes(z),
        ),
        (SpecTag::List(x), SpecTag::List(y), SpecTag::List(z)) => lemma_list_order_transitive(
            x,
            y,
            z,
        ),
        (SpecTag::Compound(x), SpecTag::Compound(y), SpecTag::Compound(z)) => {
            lemma_entries_order_transitive(x, y, z)
        },
        (SpecTag::IntArray(x), SpecTag::IntArray(y), SpecTag::IntArray(z)) => lemma_lex_transitive(
            i32_ints(x),
            i32_ints(y),
            i32_ints(z),
        ),
        (SpecTag::LongArray(x), SpecTag::LongArray(y), SpecTag::LongArray(z)) => {
            lemma_lex_transitive(i64_ints(x), i64_ints(y), i64_ints(z))
        },
        _ => {},
    }
}

proof fn lemma_list_order_transitive(a: Seq<SpecTag>, b: Seq<SpecTag>, c: Seq<SpecTag>)
    requires
        list_order(a, b) <= 0,
        list_order(b, c) <= 0,
    ensures
        list_order(a, c) <= 0,
    decreases a, 0int,
{
    if a.len() > 0 && b.len() > 0 && c.len() > 0 {
        lemma_tag_order_equal(a[0], b[0]);
        lemma_tag_order_equal(b[0], c[0]);
        lemma_tag_order_equal(a[0], c[0]);
        lemma_tag_order_antisymmetric(a[0], c[0]);
        lemma_tag_order_antisymmetric(a[0], b[0]);
        if tag_order(a[0], b[0]) <= 0 && tag_order(b[0], c[0]) <= 0 {
            lemma_tag_order_transitive(a[0], b[0], c[0]);
        }
        if tag_order(a[0], b[0]) == 0 && tag_order(b[0], c[0]) == 0 {
            lemma_list_order_transitive(a.skip(1), b.skip(1), c.skip(1));
        }
    }
}

proof fn lemma_entries_order_transitive(
    a: Seq<(Seq<char>, SpecTag)>,
    b: Seq<(Seq<char>, SpecTag)>,
    c: Seq<(Seq<char>, SpecTag)>,
)
    requires
        entries_order(a, b) <= 0,
        entries_order(b, c) <= 0,
    ensures
        entries_order(a, c) <= 0,
    decreases a, 0int,
{
    if a.len() > 0 && b.len() > 0 && c.len() > 0 {
        let (na, nb, nc) = (codes(a[0].0), codes(b[0].0), codes(c[0].0));
        lemma_lex_equal(na, nb);
        lemma_lex_equal(nb, nc);
        lemma_lex_equal(na, nc);
        lemma_lex_antisymmetric(na, nc);
        lemma_lex_antisymmetric(na, nb);
        if lex_order(na, nb) <= 0 && lex_order(nb, nc) <= 0 {
            lemma_lex_transitive(na, nb, nc);
        }
        if na == nb && nb == nc {
            assert(decreases_to!(a => a[0]));
            lemma_tag_order_equal(a[0].1, b[0].1);
            lemma_tag_order_equal(b[0].1, c[0].1);
            lemma_tag_order_equal(a[0].1, c[0].1);
            lemma_tag_order_antisymmetric(a[0].1, c[0].1);
            lemma_tag_order_antisymmetric(a[0].1, b[0].1);
            if tag_order(a[0].1, b[0].1) <= 0 && tag_order(b[0].1, c[0].1) <= 0 {
                lemma_tag_order_transitive(a[0].1, b[0].1, c[0].1);
            }
            if tag_order(a[0].1, b[0].1) == 0 && tag_order(b[0].1, c[0].1) == 0 {
                lemma_entries_order_transitive(a.skip(1), b.skip(1), c.skip(1));
            }
        }
    }
}

} // verus!

//! Reading back what the SNBT writer wrote: for a tag made of integers, typed arrays and
//! lists of them, the reader gives the tag again.
use vstd::prelude::*;
use crate::nbt::snbt::de::integers::{all_digits, digits_value, parse_integer};
use crate::nbt::snbt::de::numbers::{
    body_start, digit_value, has_float_marker, has_negative_radix_prefix, has_zero_prefix,
    half_range, integer_letter, is_ascii_digit, is_float_marker, is_lone_zero, number_length,
    number_outcome, scan, suffix_at, token_radix, token_scan, unsignable_letter,
    without_underscores, NumberOutcome, NumberType, Radix, Scan, SpecNumber, Suffix,
    is_ascii_hexdigit,
};
use crate::nbt::snbt::de::arrays::{
    array_elements, array_letter_type, array_outcome, element_step, element_value,
    separator_step, ArrayOutcome, Separator,
};
use crate::nbt::snbt::de::utils::{
    is_whitespace, same_ignoring_case, skip_whitespace, starts_with_ignore_case,
};
use crate::nbt::snbt::de::values::{
    array_model, bool_at, compound_from, list_from, number_model, numboid_at, text_value,
    value_at, Failure, SnbtModel,
};
use crate::nbt::snbt::de::utils::starts_with;
use crate::nbt::snbt::ser::{
    array_text, digit_char, escaped_text, int_text, joined, list_texts, nat_text, number_texts,
    quoted_text, signed_bytes, snbt_text, entry_texts,
};
use crate::nbt::snbt::de::strings::{escaped, quoted_at, quoted_from, string_at};
use crate::nbt::tag::SpecTag;

verus! {

/// The suffixes that the writer puts after an integer: none, `b`, `B`, `s` or `L`.
pub open spec fn integer_suffix(sfx: Seq<char>) -> bool {
    sfx == Seq::<char>::empty() || sfx == seq!['b'] || sfx == seq!['B'] || sfx == seq!['s']
        || sfx == seq!['L']
}

/// The type that an integer suffix names; `default_type` for none.
pub open spec fn suffix_type(sfx: Seq<char>, default_type: NumberType) -> NumberType {
    if sfx == seq!['b'] || sfx == seq!['B'] {
        NumberType::Byte
    } else if sfx == seq!['s'] {
        NumberType::Short
    } else if sfx == seq!['L'] {
        NumberType::Long
    } else {
        default_type
    }
}

/// `x` lies in the range of the integer type `ty`.
pub open spec fn fits(x: int, ty: NumberType) -> bool {
    -half_range(ty) <= x < half_range(ty)
}

/// The number of integer type `ty` whose value is `x`.
pub open spec fn integer_number(x: int, ty: NumberType) -> SpecNumber {
    match ty {
        NumberType::Byte => SpecNumber::Byte(x as i8),
        NumberType::Short => SpecNumber::Short(x as i16),
        NumberType::Integer => SpecNumber::Int(x as i32),
        _ => SpecNumber::Long(x as i64),
    }
}

/// Index `k` of `t` is the end of `t`, a comma, or a closing bracket, parenthesis or brace.
pub open spec fn ends_value(t: Seq<char>, k: int) -> bool {
    k == t.len() || (0 <= k < t.len() && (t[k] == ',' || t[k] == ']' || t[k] == ')' || t[k]
        == '}'))
}

/// The decimal digits of `n`: at least one, none of them a leading zero.
pub proof fn lemma_nat_text(n: nat)
    ensures
        nat_text(n).len() >= 1,
        forall|k: int| 0 <= k < nat_text(n).len() ==> is_ascii_digit(#[trigger] nat_text(n)[k]),
        all_digits(nat_text(n), 10),
        digits_value(nat_text(n), 10) == n,
        n > 0 ==> nat_text(n)[0] != '0',
        n == 0 ==> nat_text(n) == seq!['0'],
    decreases n,
{
    let c = digit_char((n % 10) as int);
    assert(c as int == (n % 10) + 48);
    assert(digit_value(c) == n % 10);
    if n < 10 {
        assert(nat_text(n) == seq![c]);
        assert(seq![c].drop_last() =~= Seq::<char>::empty());
        assert(digits_value(seq![c], 10) == digits_value(Seq::<char>::empty(), 10) * 10
            + digit_value(c));
    } else {
        lemma_nat_text(n / 10);
        let p = nat_text(n / 10);
        assert(nat_text(n) == p.push(c));
        assert(p.push(c).drop_last() =~= p);
        assert forall|k: int| 0 <= k < nat_text(n).len() implies is_ascii_digit(
            #[trigger] nat_text(n)[k],
        ) by {
            if k < p.len() {
                assert(nat_text(n)[k] == p[k]);
            }
        }
        assert forall|k: int| 0 <= k < nat_text(n).len() implies #[trigger] digit_value(
            nat_text(n)[k],
        ) < 10 by {
            if k < p.len() {
                assert(nat_text(n)[k] == p[k]);
                assert(digit_value(p[k]) < 10);
            }
        }
        assert(nat_text(n)[0] == p[0]);
    }
}

/// `int_text(x)` is read back as `x`.
pub proof fn lemma_int_text_parses(x: int)
    ensures
        parse_integer(int_text(x), 10, true) == Some(x),
        int_text(x).len() >= 1,
        forall|k: int|
            0 <= k < int_text(x).len() ==> is_ascii_digit(#[trigger] int_text(x)[k]) || (k == 0
                && int_text(x)[k] == '-'),
        x != 0 ==> int_text(x)[0] != '0',
        x < 0 ==> int_text(x).len() >= 2 && int_text(x)[1] != '0',
        x == 0 ==> int_text(x) == seq!['0'],
        x >= 0 ==> is_ascii_digit(int_text(x)[0]),
{
    if x < 0 {
        let n = (-x) as nat;
        lemma_nat_text(n);
        let s = int_text(x);
        assert(s == seq!['-'] + nat_text(n));
        assert(s.drop_first() =~= nat_text(n));
        assert forall|k: int| 0 <= k < s.len() implies is_ascii_digit(#[trigger] s[k]) || (k == 0
            && s[k] == '-') by {
            if k > 0 {
                assert(s[k] == nat_text(n)[k - 1]);
            }
        }
        assert(s[1] == nat_text(n)[0]);
    } else {
        lemma_nat_text(x as nat);
        assert(is_ascii_digit(int_text(x)[0]));
    }
}

/// The digits and signs from `j` up to `k` are read as one decimal number that ends at `k`.
proof fn lemma_scan_decimal(t: Seq<char>, j: int, k: int)
    requires
        0 <= j <= k <= t.len(),
        forall|m: int| j <= m < k ==> is_ascii_digit(#[trigger] t[m]) || t[m] == '-',
        k == t.len() || (t[k] != '_' && !is_ascii_digit(t[k]) && t[k] != '.' && t[k] != '-'
            && t[k] != 'e' && t[k] != 'E'),
    ensures
        scan(t, j, Radix::Decimal) == Scan::End(k),
        !has_float_marker(t, j, k, Radix::Decimal),
    decreases k - j,
{
    if j < k {
        lemma_scan_decimal(t, j + 1, k);
        lemma_no_float_marker(t, j, k);
    }
}

proof fn lemma_no_float_marker(t: Seq<char>, j: int, k: int)
    requires
        0 <= j <= k <= t.len(),
        forall|m: int| j <= m < k ==> is_ascii_digit(#[trigger] t[m]) || t[m] == '-',
    ensures
        !has_float_marker(t, j, k, Radix::Decimal),
    decreases k - j,
{
    if j < k {
        lemma_no_float_marker(t, j, k - 1);
        assert(is_ascii_digit(t[k - 1]) || t[k - 1] == '-');
    }
}

/// A text without underscores keeps all of its characters.
proof fn lemma_without_no_underscores(s: Seq<char>)
    requires
        forall|m: int| 0 <= m < s.len() ==> #[trigger] s[m] != '_',
    ensures
        without_underscores(s) == s,
    decreases s.len(),
{
    if s.len() > 0 {
        lemma_without_no_underscores(s.drop_last());
        assert(s.drop_last().push(s.last()) =~= s);
    }
}

/// An integer written in decimal with one of the writer's suffixes, followed by the end of
/// the text, a comma or a closing bracket, is read as that integer of the suffix's type.
pub proof fn lemma_integer_reads(r: Seq<char>, x: int, sfx: Seq<char>, default_type: NumberType)
    requires
        integer_suffix(sfx),
        default_type == NumberType::Byte || default_type == NumberType::Short || default_type
            == NumberType::Integer || default_type == NumberType::Long,
        fits(x, suffix_type(sfx, default_type)),
        int_text(x).len() + sfx.len() <= r.len(),
        r.take((int_text(x).len() + sfx.len()) as int) == int_text(x) + sfx,
        ends_value(r, (int_text(x).len() + sfx.len()) as int),
    ensures
        number_length(r) == int_text(x).len() + sfx.len(),
        number_outcome(r, default_type) == NumberOutcome::Number(
            integer_number(x, suffix_type(sfx, default_type)),
        ),
{
    lemma_int_text_parses(x);
    let d = int_text(x);
    let m = d.len() as int;
    let n = m + sfx.len();
    let ty = suffix_type(sfx, default_type);
    assert forall|k: int| 0 <= k < m implies r[k] == d[k] by {
        assert(r.take(n)[k] == (d + sfx)[k]);
    }
    assert forall|k: int| m <= k < n implies r[k] == sfx[k - m] by {
        assert(r.take(n)[k] == (d + sfx)[k]);
    }
    assert(r[0] == d[0]);
    if x < 0 {
        assert(r[1] == d[1]);
    } else {
        assert(is_ascii_digit(d[0]));
    }
    assert(!has_negative_radix_prefix(r));
    if x == 0 && sfx == seq!['b'] {
        // written `0b`: a bare binary prefix, which is the byte 0
        assert(r[0] == '0' && r[1] == 'b');
        assert(has_zero_prefix(r));
        assert(token_radix(r) == Radix::Binary);
        assert(body_start(r) == 2);
        assert(!is_lone_zero(r));
        assert(scan(r, 2, Radix::Binary) == Scan::End(2));
        assert(token_scan(r) == Scan::End(2));
        assert(suffix_at(r, 2) == Suffix::Plain(0));
        assert(r.take(2) =~= seq!['0', 'b']);
        assert(without_underscores(r.take(2)) == seq!['0', 'b']) by {
            lemma_without_no_underscores(r.take(2));
        }
        assert(seq!['0'].drop_last() =~= Seq::<char>::empty());
        assert(digits_value(seq!['0'], 10) == 0);
        assert(all_digits(seq!['0'], 10));
        assert(parse_integer(seq!['0'], 10, true) == Some(0int));
    } else {
        assert(!has_zero_prefix(r));
        assert(body_start(r) == 0);
        assert(token_radix(r) == Radix::Decimal);
        assert forall|k: int| 0 <= k < m implies is_ascii_digit(#[trigger] r[k]) || r[k] == '-' by {
            assert(r[k] == d[k]);
        }
        if is_lone_zero(r) {
            assert(x == 0);
            assert(m == 1);
            assert(token_scan(r) == Scan::End(1));
            assert(!has_float_marker(r, 0, 1, Radix::Decimal)) by {
                lemma_no_float_marker(r, 0, 1);
            }
        } else {
            lemma_scan_decimal(r, 0, m);
            assert(token_scan(r) == Scan::End(m));
        }
        assert(forall|k: int| 0 <= k < r.take(m).len() ==> #[trigger] r.take(m)[k] != '_');
        lemma_without_no_underscores(r.take(m));
        assert(r.take(m) =~= d);
        if sfx.len() == 0 {
            assert(suffix_at(r, m) == Suffix::Plain(0));
        } else {
            assert(r[m] == sfx[0]);
            assert(m + 1 < r.len() ==> integer_letter(r[m + 1]) is None && !unsignable_letter(
                r[m + 1],
            ));
        }
    }
}

/// Several texts joined: the first, a comma and a space, and the others joined.
pub proof fn lemma_joined_front(items: Seq<Seq<char>>)
    requires
        items.len() >= 2,
    ensures
        joined(items) == items[0] + seq![',', ' '] + joined(items.drop_first()),
    decreases items.len(),
{
    let dl = items.drop_last();
    let df = items.drop_first();
    assert(joined(items) == joined(dl) + seq![',', ' '] + items.last());
    if items.len() == 2 {
        assert(dl.len() == 1 && dl[0] == items[0]);
        assert(joined(dl) == items[0]);
        assert(df.len() == 1 && df[0] == items[1]);
        assert(joined(df) == items[1]);
        assert(joined(items) =~= items[0] + seq![',', ' '] + joined(df));
    } else {
        lemma_joined_front(dl);
        assert(dl.drop_first() =~= df.drop_last());
        assert(df.last() == items.last());
        assert(dl[0] == items[0]);
        assert(joined(df) == joined(df.drop_last()) + seq![',', ' '] + df.last());
        assert(joined(items) =~= items[0] + seq![',', ' '] + joined(df));
    }
}

/// Whitespace is skipped only where there is some.
proof fn lemma_no_whitespace(t: Seq<char>, k: int)
    requires
        0 <= k <= t.len(),
        k < t.len() ==> !is_whitespace(t[k]),
    ensures
        skip_whitespace(t, k) == k,
{
}

/// The elements of a typed array, from a position from which skipping whitespace reaches the
/// first of them, are read as the numbers written, with the closing bracket.
/// One element of a typed array, from a position from which skipping whitespace reaches it,
/// is read as the number written.
#[verifier::spinoff_prover]
#[verifier::rlimit(60)]
proof fn lemma_array_element(
    u: Seq<char>,
    p: int,
    s: int,
    x: int,
    sfx: Seq<char>,
    ty: NumberType,
    acc: Seq<int>,
)
    requires
        (ty == NumberType::Byte && sfx == seq!['B']) || (ty == NumberType::Integer && sfx
            == Seq::<char>::empty()) || (ty == NumberType::Long && sfx == seq!['L']),
        fits(x, ty),
        0 <= p <= s,
        skip_whitespace(u, p) == s,
        s + int_text(x).len() + sfx.len() < u.len(),
        u.subrange(s, s + int_text(x).len() + sfx.len()) == int_text(x) + sfx,
        u[s + int_text(x).len() + sfx.len()] == ',' || u[s + int_text(x).len() + sfx.len()] == ']',
    ensures
        element_step(u, p, ty, acc) == (
            Ok::<Seq<int>, ArrayOutcome>(acc.push(x)),
            s + int_text(x).len() + sfx.len(),
        ),
{
    let item = int_text(x) + sfx;
    let n = item.len() as int;
    lemma_int_text_parses(x);
    let r = u.skip(s);
    assert(r.take(n) =~= item);
    assert(ends_value(r, n));
    assert(suffix_type(sfx, ty) == ty) by {
        if ty == NumberType::Long {
            assert(sfx[0] != seq!['b'][0] && sfx[0] != seq!['B'][0] && sfx[0] != seq!['s'][0]);
        } else if ty == NumberType::Integer {
            assert(seq!['b'].len() == 1 && seq!['B'].len() == 1 && seq!['s'].len() == 1
                && seq!['L'].len() == 1);
        }
    }
    lemma_integer_reads(r, x, sfx, ty);
    assert(u[s] == item[0]) by {
        assert(u.subrange(s, s + n)[0] == item[0]);
    }
    assert(u[s] == int_text(x)[0]);
    assert(element_value(integer_number(x, ty), ty) == Ok::<int, &'static str>(x));
}

/// After an element of a typed array that others follow come a comma, a space, and the
/// others.
#[verifier::spinoff_prover]
#[verifier::rlimit(60)]
proof fn lemma_array_rest(u: Seq<char>, s: int, vs: Seq<int>, sfx: Seq<char>)
    requires
        vs.len() >= 2,
        0 <= s,
        s + joined(number_texts(vs, sfx)).len() + 1 <= u.len(),
        u.subrange(s, s + joined(number_texts(vs, sfx)).len() + 1) == joined(
            number_texts(vs, sfx),
        ) + seq![']'],
    ensures
        ({
            let n = (int_text(vs[0]) + sfx).len() as int;
            let rest = joined(number_texts(vs.drop_first(), sfx));
            let s2 = s + n + 2;
            &&& separator_step(u, s + n) == Separator::Next(s2)
            &&& skip_whitespace(u, s2) == s2
            &&& s2 + rest.len() + 1 <= u.len()
            &&& u.subrange(s2, s2 + rest.len() + 1) == rest + seq![']']
        }),
{
    let items = number_texts(vs, sfx);
    let item = int_text(vs[0]) + sfx;
    let n = item.len() as int;
    let whole = joined(items) + seq![']'];
    let l = whole.len() as int;
    assert(items[0] == item);
    lemma_joined_front(items);
    assert(items.drop_first() =~= number_texts(vs.drop_first(), sfx));
    let rest = joined(number_texts(vs.drop_first(), sfx));
    assert(whole =~= item + seq![',', ' '] + rest + seq![']']);
    assert(u[s + n] == ',') by {
        assert(u.subrange(s, s + l)[n] == whole[n]);
    }
    lemma_no_whitespace(u, s + n);
    assert(u[s + n + 1] == ' ') by {
        assert(u.subrange(s, s + l)[n + 1] == whole[n + 1]);
    }
    let s2 = s + n + 2;
    lemma_int_text_parses(vs[1]);
    assert(number_texts(vs.drop_first(), sfx)[0] == int_text(vs[1]) + sfx);
    assert(rest.len() >= 1 && rest[0] == int_text(vs[1])[0]) by {
        if vs.len() >= 3 {
            lemma_joined_front(number_texts(vs.drop_first(), sfx));
        }
    }
    assert(u[s2] == rest[0]) by {
        assert(u.subrange(s, s + l)[n + 2] == whole[n + 2]);
    }
    lemma_no_whitespace(u, s2);
    assert(skip_whitespace(u, s + n + 1) == s2);
    assert(u.subrange(s2, s2 + rest.len() + 1) =~= rest + seq![']']) by {
        assert forall|k: int| 0 <= k < rest.len() + 1 implies u.subrange(
            s2,
            s2 + rest.len() + 1,
        )[k] == (rest + seq![']'])[k] by {
            assert(u.subrange(s, s + l)[n + 2 + k] == whole[n + 2 + k]);
        }
    }
}

#[verifier::spinoff_prover]
#[verifier::rlimit(100)]
proof fn lemma_array_items(
    u: Seq<char>,
    p: int,
    s: int,
    vs: Seq<int>,
    sfx: Seq<char>,
    ty: NumberType,
    acc: Seq<int>,
)
    requires
        (ty == NumberType::Byte && sfx == seq!['B']) || (ty == NumberType::Integer && sfx
            == Seq::<char>::empty()) || (ty == NumberType::Long && sfx == seq!['L']),
        forall|k: int| 0 <= k < vs.len() ==> fits(#[trigger] vs[k], ty),
        vs.len() >= 1,
        0 <= p <= s,
        skip_whitespace(u, p) == s,
        s + joined(number_texts(vs, sfx)).len() + 1 <= u.len(),
        u.subrange(s, s + joined(number_texts(vs, sfx)).len() + 1) == joined(
            number_texts(vs, sfx),
        ) + seq![']'],
    ensures
        array_elements(u, p, ty, acc) == (
            ArrayOutcome::Values(acc + vs),
            s + joined(number_texts(vs, sfx)).len() + 1,
        ),
    decreases vs.len(),
{
    let items = number_texts(vs, sfx);
    let x = vs[0];
    let item = int_text(x) + sfx;
    let n = item.len() as int;
    let whole = joined(items) + seq![']'];
    let l = whole.len() as int;
    assert(items[0] == item);
    lemma_int_text_parses(x);
    assert(u.subrange(s, s + l) == whole);
    if vs.len() >= 2 {
        lemma_joined_front(items);
        assert(items.drop_first() =~= number_texts(vs.drop_first(), sfx));
    }
    assert(whole.subrange(0, n) =~= item);
    assert(u.subrange(s, s + n) =~= item) by {
        assert(u.subrange(s, s + n) =~= u.subrange(s, s + l).subrange(0, n));
    }
    assert(u[s + n] == whole[n]) by {
        assert(u.subrange(s, s + l)[n] == whole[n]);
    }
    assert(u[s + n] == if vs.len() >= 2 {
        ','
    } else {
        ']'
    });
    lemma_array_element(u, p, s, x, sfx, ty, acc);
    lemma_no_whitespace(u, s + n);
    if vs.len() == 1 {
        assert(separator_step(u, s + n) == Separator::Close(s + n + 1));
        assert(acc.push(x) =~= acc + vs);
    } else {
        let rest = joined(number_texts(vs.drop_first(), sfx));
        let s2 = s + n + 2;
        lemma_array_rest(u, s, vs, sfx);
        assert forall|k: int| 0 <= k < vs.drop_first().len() implies fits(
            #[trigger] vs.drop_first()[k],
            ty,
        ) by {
            assert(vs.drop_first()[k] == vs[k + 1]);
        }
        lemma_array_items(u, s2, s2, vs.drop_first(), sfx, ty, acc.push(x));
        assert(acc.push(x) + vs.drop_first() =~= acc + vs);
    }
}

/// A typed array as the writer writes it is read as the array of the numbers written.
pub proof fn lemma_array_reads(t: Seq<char>, i: int, letter: char, vs: Seq<int>, sfx: Seq<char>)
    requires
        (letter == 'B' && sfx == seq!['B']) || (letter == 'I' && sfx == Seq::<char>::empty()) || (
        letter == 'L' && sfx == seq!['L']),
        forall|k: int| 0 <= k < vs.len() ==> fits(#[trigger] vs[k], array_letter_type(letter)->0),
        0 <= i,
        i + array_text(letter, number_texts(vs, sfx)).len() <= t.len(),
        t.subrange(i, i + array_text(letter, number_texts(vs, sfx)).len()) == array_text(
            letter,
            number_texts(vs, sfx),
        ),
    ensures
        value_at(t, i) == (
            Ok::<SnbtModel, Failure>(SnbtModel::Tag(array_model(letter, vs))),
            i + array_text(letter, number_texts(vs, sfx)).len(),
        ),
{
    let a = array_text(letter, number_texts(vs, sfx));
    let l = a.len() as int;
    let ty = array_letter_type(letter)->0;
    let body = joined(number_texts(vs, sfx));
    assert forall|k: int| 0 <= k < l implies t[i + k] == #[trigger] a[k] by {
        assert(t.subrange(i, i + l)[k] == a[k]);
    }
    assert(a[0] == '[' && a[1] == letter && a[2] == ';' && a[3] == ' ');
    assert(t[i] == '[' && t[i + 1] == letter && t[i + 2] == ';' && t[i + 3] == ' ');
    lemma_no_whitespace(t, i + 1);
    let j = i + 1;
    let u = t.skip(j + 1);
    assert(u[0] == ';' && u[1] == ' ');
    lemma_no_whitespace(u, 0);
    if vs.len() == 0 {
        assert(body == Seq::<char>::empty());
        assert(a[4] == ']');
        assert(u[2] == t[i + 4]);
        assert(u[2] == ']');
        lemma_no_whitespace(u, 2);
        assert(skip_whitespace(u, 1) == 2);
        assert(element_step(u, 1, ty, Seq::empty()).1 == 2);
        assert(separator_step(u, 2) == Separator::Close(3));
        assert(array_outcome(u, ty) == (ArrayOutcome::Values(Seq::<int>::empty()), 3int));
        assert(vs =~= Seq::<int>::empty());
    } else {
        lemma_int_text_parses(vs[0]);
        assert(number_texts(vs, sfx)[0] == int_text(vs[0]) + sfx);
        assert(body.len() >= 1 && body[0] == int_text(vs[0])[0]) by {
            if vs.len() >= 2 {
                lemma_joined_front(number_texts(vs, sfx));
            }
        }
        assert(a[4] == body[0]);
        assert(u[2] == t[i + 4]);
        assert(u[2] == body[0]);
        lemma_no_whitespace(u, 2);
        assert(skip_whitespace(u, 1) == 2);
        assert(u.subrange(2, (3 + body.len()) as int) =~= body + seq![']']) by {
            assert forall|k: int| 0 <= k < body.len() + 1 implies u.subrange(
                2,
                (3 + body.len()) as int,
            )[k] == (body + seq![']'])[k] by {
                assert(u[2 + k] == t[i + 4 + k]);
                assert(a[4 + k] == (body + seq![']'])[k]);
            }
        }
        lemma_array_items(u, 1, 2, vs, sfx, ty, Seq::empty());
        assert(Seq::<int>::empty() + vs =~= vs);
    }
}

/// The tags whose SNBT text is read back as they are: integers (of every width, but no
/// floats), typed arrays, and lists of such tags.
pub open spec fn plain_snbt(t: SpecTag) -> bool
    decreases t,
{
    match t {
        SpecTag::Byte(_) => true,
        SpecTag::Short(_) => true,
        SpecTag::Int(_) => true,
        SpecTag::Long(_) => true,
        SpecTag::ByteArray(_) => true,
        SpecTag::IntArray(_) => true,
        SpecTag::LongArray(_) => true,
        SpecTag::List(l) => plain_list(l),
        _ => false,
    }
}

/// Every tag of `l` is one whose SNBT text is read back.
pub open spec fn plain_list(l: Seq<SpecTag>) -> bool
    decreases l,
{
    if l.len() == 0 {
        true
    } else {
        plain_list(l.subrange(0, l.len() - 1)) && plain_snbt(l[l.len() - 1])
    }
}

/// What the SNBT reader gives for a tag: a list as the list of what it gives for the
/// elements, any other tag as it is.
pub open spec fn read_model(t: SpecTag) -> SnbtModel
    decreases t,
{
    match t {
        SpecTag::List(l) => SnbtModel::List(read_models(l)),
        _ => SnbtModel::Tag(t),
    }
}

/// What the SNBT reader gives for each tag of `l`.
pub open spec fn read_models(l: Seq<SpecTag>) -> Seq<SnbtModel>
    decreases l,
{
    if l.len() == 0 {
        Seq::empty()
    } else {
        read_models(l.subrange(0, l.len() - 1)).push(read_model(l[l.len() - 1]))
    }
}

proof fn lemma_list_facts(l: Seq<SpecTag>)
    ensures
        list_texts(l).len() == l.len(),
        read_models(l).len() == l.len(),
        forall|k: int| 0 <= k < l.len() ==> #[trigger] list_texts(l)[k] == snbt_text(l[k]),
        forall|k: int| 0 <= k < l.len() ==> #[trigger] read_models(l)[k] == read_model(l[k]),
        plain_list(l) <==> forall|k: int| 0 <= k < l.len() ==> #[trigger] plain_snbt(l[k]),
    decreases l.len(),
{
    if l.len() > 0 {
        let p = l.subrange(0, l.len() - 1);
        lemma_list_facts(p);
        assert forall|k: int| 0 <= k < p.len() implies #[trigger] l[k] == p[k] by {}
        if plain_list(l) {
            assert forall|k: int| 0 <= k < l.len() implies #[trigger] plain_snbt(l[k]) by {
                if k < p.len() {
                    assert(plain_snbt(p[k]));
                }
            }
        }
        if forall|k: int| 0 <= k < l.len() ==> #[trigger] plain_snbt(l[k]) {
            assert forall|k: int| 0 <= k < p.len() implies #[trigger] plain_snbt(p[k]) by {
                assert(plain_snbt(l[k]));
            }
            assert(plain_snbt(l[l.len() - 1]));
        }
    }
}

/// The text of such a tag is not empty; it begins with a bracket, a digit or a minus sign,
/// and its second character is no semicolon.
proof fn lemma_text_shape(t: SpecTag)
    requires
        plain_snbt(t),
    ensures
        snbt_text(t).len() >= 1,
        snbt_text(t)[0] == '[' || is_ascii_digit(snbt_text(t)[0]) || snbt_text(t)[0] == '-',
        snbt_text(t).len() >= 2 ==> snbt_text(t)[1] != ';',
    decreases t,
{
    match t {
        SpecTag::Byte(x) => lemma_int_text_parses(x as int),
        SpecTag::Short(x) => lemma_int_text_parses(x as int),
        SpecTag::Int(x) => lemma_int_text_parses(x as int),
        SpecTag::Long(x) => lemma_int_text_parses(x as int),
        SpecTag::List(l) => {
            lemma_list_facts(l);
            let items = list_texts(l);
            let text = snbt_text(t);
            assert(text == seq!['['] + joined(items) + seq![']']);
            if l.len() == 0 {
                assert(text[1] == ']');
            } else {
                lemma_text_shape(l[0]);
                if l.len() >= 2 {
                    lemma_joined_front(items);
                }
                assert(joined(items)[0] == items[0][0]);
                assert(text[1] == joined(items)[0]);
            }
        },
        _ => {},
    }
}

/// A number is read where an integer tag's text begins, at index `i` of `t`.
proof fn lemma_integer_value_reads(t: Seq<char>, i: int, x: int, sfx: Seq<char>)
    requires
        integer_suffix(sfx),
        fits(x, suffix_type(sfx, NumberType::Integer)),
        0 <= i,
        i + int_text(x).len() + sfx.len() <= t.len(),
        t.subrange(i, i + int_text(x).len() + sfx.len()) == int_text(x) + sfx,
        ends_value(t, i + int_text(x).len() + sfx.len()),
    ensures
        value_at(t, i) == (
            Ok::<SnbtModel, Failure>(
                number_model(integer_number(x, suffix_type(sfx, NumberType::Integer))),
            ),
            i + int_text(x).len() + sfx.len(),
        ),
{
    let n = int_text(x).len() + sfx.len();
    let r = t.skip(i);
    lemma_int_text_parses(x);
    assert(r.take(n as int) =~= int_text(x) + sfx);
    assert(t[i] == int_text(x)[0]) by {
        assert(t.subrange(i, i + n)[0] == (int_text(x) + sfx)[0]);
    }
    assert(r[0] == t[i]);
    reveal_strlit("true");
    reveal_strlit("false");
    assert(!same_ignoring_case(r[0], "true"@[0]));
    assert(!same_ignoring_case(r[0], "false"@[0]));
    assert(!starts_with_ignore_case(r, "true"@));
    assert(!starts_with_ignore_case(r, "false"@));
    lemma_integer_reads(r, x, sfx, NumberType::Integer);
    assert(numboid_at(t, i).1 == i + n);
    assert(value_at(t, i) == numboid_at(t, i));
}

/// The SNBT text of such a tag, at index `i` of `t` and followed by the end of `t`, a comma
/// or a closing bracket, is read as what the reader gives for the tag.
pub proof fn lemma_value_reads(t: Seq<char>, i: int, e: SpecTag)
    requires
        plain_snbt(e),
        0 <= i,
        i + snbt_text(e).len() <= t.len(),
        t.subrange(i, i + snbt_text(e).len()) == snbt_text(e),
        ends_value(t, i + snbt_text(e).len()),
    ensures
        value_at(t, i) == (Ok::<SnbtModel, Failure>(read_model(e)), i + snbt_text(e).len()),
    decreases e, 0int,
{
    match e {
        SpecTag::Byte(x) => {
            assert(snbt_text(e) =~= int_text(x as int) + seq!['b']);
            lemma_integer_value_reads(t, i, x as int, seq!['b']);
        },
        SpecTag::Short(x) => {
            assert(snbt_text(e) =~= int_text(x as int) + seq!['s']);
            assert(seq!['s'][0] != seq!['b'][0] && seq!['s'][0] != seq!['B'][0]);
            lemma_integer_value_reads(t, i, x as int, seq!['s']);
        },
        SpecTag::Int(x) => {
            assert(snbt_text(e) =~= int_text(x as int) + Seq::<char>::empty());
            assert(seq!['b'].len() == 1 && seq!['B'].len() == 1 && seq!['s'].len() == 1
                && seq!['L'].len() == 1);
            lemma_integer_value_reads(t, i, x as int, Seq::empty());
        },
        SpecTag::Long(x) => {
            assert(snbt_text(e) =~= int_text(x as int) + seq!['L']);
            assert(seq!['L'][0] != seq!['b'][0] && seq!['L'][0] != seq!['B'][0] && seq!['L'][0]
                != seq!['s'][0]);
            lemma_integer_value_reads(t, i, x as int, seq!['L']);
        },
        SpecTag::ByteArray(b) => {
            let vs = signed_bytes(b);
            lemma_array_reads(t, i, 'B', vs, seq!['B']);
            assert forall|k: int| 0 <= k < b.len() implies #[trigger] ((vs[k] as i8) as u8) == b[k] by {
                let y = b[k];
                assert(vs[k] == (y as i8) as int);
                assert(((y as i8) as u8) == y) by (bit_vector);
            }
            assert(vs.map_values(|x: int| (x as i8) as u8) =~= b);
        },
        SpecTag::IntArray(v) => {
            let vs = v.map_values(|x: i32| x as int);
            lemma_array_reads(t, i, 'I', vs, Seq::empty());
            assert(vs.map_values(|x: int| x as i32) =~= v);
        },
        SpecTag::LongArray(v) => {
            let vs = v.map_values(|x: i64| x as int);
            lemma_array_reads(t, i, 'L', vs, seq!['L']);
            assert(vs.map_values(|x: int| x as i64) =~= v);
        },
        SpecTag::List(l) => {
            assert(decreases_to!(e => l));
            lemma_list_value_reads(t, i, l);
        },
        _ => {},
    }
}

/// A list's SNBT text, at index `i` of `t`, is read as the list of what the reader gives for
/// its elements.
#[verifier::spinoff_prover]
#[verifier::rlimit(80)]
proof fn lemma_list_value_reads(t: Seq<char>, i: int, l: Seq<SpecTag>)
    requires
        plain_list(l),
        0 <= i,
        i + snbt_text(SpecTag::List(l)).len() <= t.len(),
        t.subrange(i, i + snbt_text(SpecTag::List(l)).len()) == snbt_text(SpecTag::List(l)),
    ensures
        value_at(t, i) == (
            Ok::<SnbtModel, Failure>(SnbtModel::List(read_models(l))),
            i + snbt_text(SpecTag::List(l)).len(),
        ),
    decreases l, 2int,
{
    lemma_list_facts(l);
    let items = list_texts(l);
    let body = joined(items);
    let text = snbt_text(SpecTag::List(l));
    let n = text.len() as int;
    assert(text == seq!['['] + body + seq![']']);
    assert forall|k: int| 0 <= k < n implies t[i + k] == #[trigger] text[k] by {
        assert(t.subrange(i, i + n)[k] == text[k]);
    }
    assert(text[0] == '[');
    assert(t[i] == '[');
    assert(text[1] == t[i + 1]);
    if l.len() == 0 {
        assert(text[1] == ']');
        lemma_no_whitespace(t, i + 1);
    } else {
        lemma_text_shape(l[0]);
        if l.len() >= 2 {
            lemma_joined_front(items);
        }
        let x = items[0];
        assert(body[0] == x[0]);
        assert(text[1] == x[0]);
        lemma_no_whitespace(t, i + 1);
        assert(text[2] == t[i + 2]);
        if x.len() >= 2 {
            assert(body[1] == x[1]);
            assert(text[2] == x[1]);
        } else if l.len() >= 2 {
            assert(body[1] == ',');
            assert(text[2] == ',');
        } else {
            assert(body == x);
            assert(text[2] == ']');
        }
        assert(t[i + 2] != ';');
        assert(t.subrange(i + 1, i + 1 + body.len() + 1) =~= body + seq![']']) by {
            assert forall|k: int| 0 <= k < body.len() + 1 implies t.subrange(
                i + 1,
                i + 1 + body.len() + 1,
            )[k] == (body + seq![']'])[k] by {
                assert(t[i + 1 + k] == text[1 + k]);
            }
        }
        lemma_list_items(t, i + 1, i + 1, l, Seq::empty());
        assert(Seq::<SnbtModel>::empty() + read_models(l) =~= read_models(l));
    }
}

/// The elements of a list, from a position from which skipping whitespace reaches the first
/// of them, are read as what the reader gives for each, with the closing bracket.
#[verifier::spinoff_prover]
#[verifier::rlimit(80)]
pub proof fn lemma_list_items(t: Seq<char>, p: int, s: int, l: Seq<SpecTag>, acc: Seq<SnbtModel>)
    requires
        l.len() >= 1,
        forall|k: int| 0 <= k < l.len() ==> #[trigger] plain_snbt(l[k]),
        0 <= p <= s,
        skip_whitespace(t, p) == s,
        s + joined(list_texts(l)).len() + 1 <= t.len(),
        t.subrange(s, s + joined(list_texts(l)).len() + 1) == joined(list_texts(l)) + seq![']'],
    ensures
        list_from(t, p, acc) == (
            Ok::<SnbtModel, Failure>(SnbtModel::List(acc + read_models(l))),
            s + joined(list_texts(l)).len() + 1,
        ),
    decreases l, 1int,
{
    lemma_list_facts(l);
    let items = list_texts(l);
    let whole = joined(items) + seq![']'];
    let w = whole.len() as int;
    let e0 = l[0];
    let x = items[0];
    let n = x.len() as int;
    assert(x == snbt_text(e0));
    if l.len() >= 2 {
        lemma_joined_front(items);
    }
    assert forall|k: int| 0 <= k < w implies t[s + k] == #[trigger] whole[k] by {
        assert(t.subrange(s, s + w)[k] == whole[k]);
    }
    assert(t.subrange(s, s + n) =~= x) by {
        assert forall|k: int| 0 <= k < n implies t.subrange(s, s + n)[k] == x[k] by {
            assert(t[s + k] == whole[k]);
        }
    }
    assert(t[s + n] == whole[n]);
    assert(whole[n] == if l.len() >= 2 {
        ','
    } else {
        ']'
    });
    lemma_value_reads(t, s, e0);
    let m0 = read_model(e0);
    lemma_no_whitespace(t, s + n);
    if l.len() == 1 {
        assert(acc.push(m0) =~= acc + read_models(l));
    } else {
        let rest_l = l.drop_first();
        lemma_list_facts(rest_l);
        assert(list_texts(rest_l) =~= items.drop_first());
        let rest = joined(items.drop_first());
        assert(whole =~= x + seq![',', ' '] + rest + seq![']']);
        assert(t[s + n + 1] == ' ') by {
            assert(t[s + n + 1] == whole[n + 1]);
        }
        let s2 = s + n + 2;
        lemma_text_shape(rest_l[0]);
        assert(rest_l[0] == l[1]);
        assert(rest.len() >= 1 && rest[0] == items[1][0]) by {
            if l.len() >= 3 {
                lemma_joined_front(items.drop_first());
            }
        }
        assert(t[s2] == rest[0]) by {
            assert(t[s2] == whole[n + 2]);
        }
        lemma_no_whitespace(t, s2);
        assert(skip_whitespace(t, s + n + 1) == s2);
        assert(t.subrange(s2, s2 + rest.len() + 1) =~= rest + seq![']']) by {
            assert forall|k: int| 0 <= k < rest.len() + 1 implies t.subrange(
                s2,
                s2 + rest.len() + 1,
            )[k] == (rest + seq![']'])[k] by {
                assert(t[s2 + k] == whole[n + 2 + k]);
            }
        }
        assert forall|k: int| 0 <= k < rest_l.len() implies #[trigger] plain_snbt(rest_l[k]) by {
            assert(rest_l[k] == l[k + 1]);
        }
        assert(decreases_to!(l => rest_l));
        lemma_list_items(t, s2, s2, rest_l, acc.push(m0));
        assert(acc.push(m0) + read_models(rest_l) =~= acc + read_models(l));
    }
}

/// Reading the SNBT text that `to_snbt` writes of a tag made of integers of any width (no
/// floats), typed arrays and lists of such tags gives the tag back and reads the whole text.
pub proof fn lemma_snbt_reads_back(t: SpecTag)
    requires
        plain_snbt(t),
    ensures
        text_value(snbt_text(t)) == (
            Ok::<SnbtModel, Failure>(read_model(t)),
            snbt_text(t).len() as int,
        ),
{
    let text = snbt_text(t);
    assert(text.subrange(0, text.len() as int) =~= text);
    lemma_value_reads(text, 0, t);
    lemma_no_whitespace(text, text.len() as int);
}

/// The value of an integer tag.
pub open spec fn integer_value(t: SpecTag) -> int {
    match t {
        SpecTag::Byte(x) => x as int,
        SpecTag::Short(x) => x as int,
        SpecTag::Int(x) => x as int,
        SpecTag::Long(x) => x as int,
        _ => 0,
    }
}

/// `bool(..)` of an integer, written as SNBT, is read as the byte 1 where the integer is not
/// zero, and the byte 0 where it is zero.
#[verifier::spinoff_prover]
#[verifier::rlimit(60)]
pub proof fn lemma_bool_of_integer(tag: SpecTag)
    requires
        tag is Byte || tag is Short || tag is Int || tag is Long,
    ensures
        ({
            let text = seq!['b', 'o', 'o', 'l', '('] + snbt_text(tag) + seq![')'];
            text_value(text) == (
                Ok::<SnbtModel, Failure>(
                    SnbtModel::Tag(
                        SpecTag::Byte(
                            if integer_value(tag) != 0 {
                                1i8
                            } else {
                                0i8
                            },
                        ),
                    ),
                ),
                text.len() as int,
            )
        }),
{
    let x = snbt_text(tag);
    let t = seq!['b', 'o', 'o', 'l', '('] + x + seq![')'];
    let n = x.len() as int;
    let v = integer_value(tag);
    let sfx: Seq<char> = match tag {
        SpecTag::Byte(_) => seq!['b'],
        SpecTag::Short(_) => seq!['s'],
        SpecTag::Long(_) => seq!['L'],
        _ => Seq::empty(),
    };
    assert(x =~= int_text(v) + sfx);
    lemma_int_text_parses(v);
    assert(seq!['s'][0] != seq!['b'][0] && seq!['s'][0] != seq!['B'][0]);
    assert(seq!['L'][0] != seq!['b'][0] && seq!['L'][0] != seq!['B'][0] && seq!['L'][0]
        != seq!['s'][0]);
    assert(seq!['b'].len() == 1 && seq!['B'].len() == 1 && seq!['s'].len() == 1 && seq!['L'].len()
        == 1);
    let ty = suffix_type(sfx, NumberType::Integer);
    assert(t.subrange(5, 5 + n) =~= x);
    assert(t[5 + n] == ')');
    lemma_integer_value_reads(t, 5, v, sfx);
    assert(t[5] == x[0]);
    reveal_strlit("true");
    reveal_strlit("false");
    reveal_strlit("bool(");
    assert(!same_ignoring_case(t[0], "true"@[0]));
    assert(!same_ignoring_case(t[0], "false"@[0]));
    assert(t.take(5) =~= "bool("@);
    assert(starts_with(t.skip(0), "bool("@)) by {
        assert(t.skip(0) =~= t);
    }
    assert(t.skip(0) =~= t);
    lemma_no_whitespace(t, 5);
    lemma_no_whitespace(t, 5 + n);
    lemma_no_whitespace(t, 6 + n);
    assert(value_at(t, 0) == bool_at(t, 5));
    assert(integer_number(v, ty) == match tag {
        SpecTag::Byte(b) => SpecNumber::Byte(b),
        SpecTag::Short(b) => SpecNumber::Short(b),
        SpecTag::Int(b) => SpecNumber::Int(b),
        _ => SpecNumber::Long(tag->Long_0),
    });
}

/// The characters that the writer puts for one character of a quoted string.
pub open spec fn escaped_char(c: char) -> Seq<char> {
    if c == '"' || c == '\\' {
        seq!['\\', c]
    } else {
        seq![c]
    }
}

proof fn lemma_escaped_front(s: Seq<char>)
    requires
        s.len() > 0,
    ensures
        escaped_text(s) == escaped_char(s[0]) + escaped_text(s.drop_first()),
    decreases s.len(),
{
    if s.len() == 1 {
        assert(s.drop_last() =~= Seq::<char>::empty());
        assert(s.drop_first() =~= Seq::<char>::empty());
        assert(escaped_text(s) =~= escaped_char(s[0]) + escaped_text(s.drop_first()));
    } else {
        lemma_escaped_front(s.drop_last());
        assert(s.drop_last().drop_first() =~= s.drop_first().drop_last());
        assert(s.drop_first().last() == s.last());
        assert(s.drop_last()[0] == s[0]);
        assert(escaped_text(s) =~= escaped_char(s[0]) + escaped_text(s.drop_first()));
    }
}

proof fn lemma_quoted_from_reads(t: Seq<char>, i: int, s: Seq<char>, acc: Seq<char>)
    requires
        0 <= i,
        i + escaped_text(s).len() + 1 <= t.len(),
        t.subrange(i, i + escaped_text(s).len() + 1) == escaped_text(s) + seq!['"'],
    ensures
        quoted_from(t, i, '"', acc) == (
            Ok::<Seq<char>, &'static str>(acc + s),
            i + escaped_text(s).len() + 1,
        ),
    decreases s.len(),
{
    let e = escaped_text(s);
    let n = e.len() as int;
    assert forall|k: int| 0 <= k < n + 1 implies t[i + k] == #[trigger] (e + seq!['"'])[k] by {
        assert(t.subrange(i, i + n + 1)[k] == (e + seq!['"'])[k]);
    }
    if s.len() == 0 {
        assert(e =~= Seq::<char>::empty());
        assert(t[i] == (e + seq!['"'])[0]);
        assert(acc + s =~= acc);
    } else {
        lemma_escaped_front(s);
        let c = s[0];
        let x = escaped_char(c);
        let rest = escaped_text(s.drop_first());
        let m = x.len() as int;
        assert(e + seq!['"'] =~= x + (rest + seq!['"']));
        assert(t[i] == x[0]) by {
            assert(t[i] == (e + seq!['"'])[0]);
        }
        if m == 2 {
            assert(t[i + 1] == x[1]) by {
                assert(t[i + 1] == (e + seq!['"'])[1]);
            }
            assert(escaped(c) == Some(c));
        }
        assert(t.subrange(i + m, i + m + rest.len() + 1) =~= rest + seq!['"']) by {
            assert forall|k: int| 0 <= k < rest.len() + 1 implies t.subrange(
                i + m,
                i + m + rest.len() + 1,
            )[k] == (rest + seq!['"'])[k] by {
                assert(t[i + m + k] == (e + seq!['"'])[m + k]);
            }
        }
        lemma_quoted_from_reads(t, i + m, s.drop_first(), acc.push(c));
        assert(acc.push(c) + s.drop_first() =~= acc + s);
    }
}

/// A string written in quotes by the writer is read back as the same string, whatever
/// characters it holds: a quote and a backslash are escaped, and every other character stands
/// for itself.
pub proof fn lemma_quoted_string_reads_back(s: Seq<char>)
    ensures
        text_value(quoted_text(s)) == (
            Ok::<SnbtModel, Failure>(SnbtModel::Tag(SpecTag::String(s))),
            quoted_text(s).len() as int,
        ),
{
    let t = quoted_text(s);
    let e = escaped_text(s);
    assert(t == seq!['"'] + e + seq!['"']);
    assert(t[0] == '"');
    assert(t.subrange(1, (2 + e.len()) as int) =~= e + seq!['"']);
    lemma_quoted_from_reads(t, 1, s, Seq::empty());
    assert(Seq::<char>::empty() + s =~= s);
    reveal_strlit("true");
    reveal_strlit("false");
    reveal_strlit("bool(");
    reveal_strlit("uuid(");
    assert(t.skip(0) =~= t);
    assert(!same_ignoring_case(t[0], "true"@[0]));
    assert(!same_ignoring_case(t[0], "false"@[0]));
    assert(!starts_with(t.skip(0), "bool("@) && !starts_with(t.skip(0), "uuid("@)) by {
        if t.len() >= 5 {
            assert(t.take(5)[0] == t[0]);
            assert(t.take(5) != "bool("@ && t.take(5) != "uuid("@);
        }
    }
    lemma_no_whitespace(t, t.len() as int);
}

/// The digits of `h`, from `j` up to `k`, are read in `radix` and end at `k`.
proof fn lemma_scan_radix(t: Seq<char>, j: int, k: int, radix: Radix)
    requires
        0 <= j <= k <= t.len(),
        radix != Radix::Decimal,
        forall|m: int| j <= m < k ==> #[trigger] radix.accepts(t[m]) && t[m] != '_',
        k == t.len() || (t[k] != '_' && !radix.accepts(t[k]) && !is_float_marker(t[k], radix)),
    ensures
        scan(t, j, radix) == Scan::End(k),
        !has_float_marker(t, j, k, radix),
    decreases k - j,
{
    if j < k {
        assert(radix.accepts(t[j]) && t[j] != '_');
        lemma_scan_radix(t, j + 1, k, radix);
        lemma_no_float_marker_radix(t, j, k, radix);
    }
}

proof fn lemma_no_float_marker_radix(t: Seq<char>, j: int, k: int, radix: Radix)
    requires
        0 <= j <= k <= t.len(),
        radix != Radix::Decimal,
        forall|m: int| j <= m < k ==> #[trigger] radix.accepts(t[m]) && t[m] != '_',
    ensures
        !has_float_marker(t, j, k, radix),
    decreases k - j,
{
    if j < k {
        lemma_no_float_marker_radix(t, j, k - 1, radix);
        assert(radix.accepts(t[k - 1]));
    }
}

/// A number written after `0x` in hexadecimal digits, or after `0b` in binary digits, with a
/// minus sign before the prefix where it is negative, and no suffix, is read as the `Int` of
/// that value.
pub proof fn lemma_radix_number_reads(r: Seq<char>, h: Seq<char>, negative: bool, letter: char)
    requires
        letter == 'x' || letter == 'b',
        h.len() > 0,
        all_digits(h, if letter == 'x' { 16 } else { 2 }),
        fits(
            if negative {
                -digits_value(h, if letter == 'x' { 16 } else { 2 })
            } else {
                digits_value(h, if letter == 'x' { 16 } else { 2 })
            },
            NumberType::Integer,
        ),
        ({
            let prefix = if negative {
                seq!['-', '0', letter]
            } else {
                seq!['0', letter]
            };
            &&& prefix.len() + h.len() <= r.len()
            &&& r.take((prefix.len() + h.len()) as int) == prefix + h
            &&& ends_value(r, (prefix.len() + h.len()) as int)
        }),
    ensures
        ({
            let base: nat = if letter == 'x' { 16 } else { 2 };
            let v = digits_value(h, base);
            let prefix_len: int = if negative { 3 } else { 2 };
            &&& number_outcome(r, NumberType::Integer) == NumberOutcome::Number(
                SpecNumber::Int(
                    (if negative {
                        -v
                    } else {
                        v
                    }) as i32,
                ),
            )
            &&& number_length(r) == prefix_len + h.len()
        }),
{
    let base: nat = if letter == 'x' { 16 } else { 2 };
    let radix = if letter == 'x' { Radix::Hexadecimal } else { Radix::Binary };
    let v = digits_value(h, base);
    let prefix = if negative {
        seq!['-', '0', letter]
    } else {
        seq!['0', letter]
    };
    let p = prefix.len() as int;
    let k = p + h.len();
    let w = prefix + h;
    assert forall|m: int| 0 <= m < k implies r[m] == #[trigger] w[m] by {
        assert(r.take(k)[m] == w[m]);
    }
    assert forall|m: int| p <= m < k implies #[trigger] radix.accepts(r[m]) && r[m] != '_' by {
        assert(w[m] == h[m - p]);
        assert(r[m] == h[m - p]);
        assert(digit_value(h[m - p]) < base);
    }
    if negative {
        assert(w[0] == '-' && w[1] == '0' && w[2] == letter);
        assert(r[0] == '-' && r[1] == '0' && r[2] == letter);
        assert(has_negative_radix_prefix(r));
    } else {
        assert(w[0] == '0' && w[1] == letter);
        assert(r[0] == '0' && r[1] == letter);
        assert(has_zero_prefix(r));
    }
    assert(token_radix(r) == radix);
    assert(body_start(r) == p);
    assert(!is_lone_zero(r));
    lemma_scan_radix(r, p, k, radix);
    assert(token_scan(r) == Scan::End(k));
    assert(suffix_at(r, k) == Suffix::Plain(0));
    assert(forall|m: int| 0 <= m < r.take(k).len() ==> #[trigger] r.take(k)[m] != '_') by {
        assert forall|m: int| 0 <= m < r.take(k).len() implies #[trigger] r.take(k)[m] != '_' by {
            assert(r.take(k)[m] == r[m]);
            if m >= p {
                assert(radix.accepts(r[m]) && r[m] != '_');
            } else {
                assert(w[m] == prefix[m]);
            }
        }
    }
    lemma_without_no_underscores(r.take(k));
    assert(r.take(k) =~= prefix + h);
    let digits = prefix + h;
    assert(digits.len() != p);
    if negative {
        assert(digits.skip(3) =~= h);
        assert((seq!['-'] + h).drop_first() =~= h);
        assert(h[0] != '-' && h[0] != '+') by {
            assert(digit_value(h[0]) < base);
        }
    } else {
        assert(digits.skip(2) =~= h);
        assert(h[0] != '-' && h[0] != '+') by {
            assert(digit_value(h[0]) < base);
        }
    }
}

/// The value that an unsigned number of type `ty` reads as: its bits taken as a signed
/// number of that width.
pub open spec fn unsigned_as_signed(v: int, ty: NumberType) -> int {
    if v >= half_range(ty) {
        v - 2 * half_range(ty)
    } else {
        v
    }
}

/// A decimal number with an unsigned suffix, `u` and a type letter, that fits the unsigned
/// range of that type, is read as the number of that type with the same bits.
pub proof fn lemma_unsigned_reads(r: Seq<char>, v: nat, letter: char)
    requires
        integer_letter(letter) is Some,
        v < 2 * half_range(integer_letter(letter)->0),
        nat_text(v).len() + 2 <= r.len(),
        r.take((nat_text(v).len() + 2) as int) == nat_text(v) + seq!['u', letter],
        ends_value(r, (nat_text(v).len() + 2) as int),
    ensures
        number_length(r) == nat_text(v).len() + 2,
        number_outcome(r, NumberType::Integer) == NumberOutcome::Number(
            integer_number(
                unsigned_as_signed(v as int, integer_letter(letter)->0),
                integer_letter(letter)->0,
            ),
        ),
{
    let ty = integer_letter(letter)->0;
    lemma_int_text_parses(v as int);
    assert(int_text(v as int) == nat_text(v));
    let d = nat_text(v);
    let m = d.len() as int;
    let n = m + 2;
    let w = d + seq!['u', letter];
    assert forall|k: int| 0 <= k < n implies r[k] == #[trigger] w[k] by {
        assert(r.take(n)[k] == w[k]);
    }
    assert(w[0] == d[0]);
    assert(r[0] == d[0]);
    assert(is_ascii_digit(d[0]));
    assert(!has_negative_radix_prefix(r));
    assert(!has_zero_prefix(r)) by {
        if v == 0 {
            assert(w[1] == 'u');
            assert(r[1] == 'u');
        }
    }
    assert forall|k: int| 0 <= k < m implies is_ascii_digit(#[trigger] r[k]) || r[k] == '-' by {
        assert(w[k] == d[k]);
        assert(r[k] == d[k]);
    }
    assert(w[m] == 'u' && w[m + 1] == letter);
    assert(r[m] == 'u' && r[m + 1] == letter);
    if is_lone_zero(r) {
        assert(m == 1);
        assert(token_scan(r) == Scan::End(1));
    } else {
        lemma_scan_decimal(r, 0, m);
    }
    assert(suffix_at(r, m) == Suffix::Typed(
        crate::nbt::snbt::de::numbers::Signedness::Unsigned,
        ty,
        2,
    ));
    assert(forall|k: int| 0 <= k < r.take(m).len() ==> #[trigger] r.take(m)[k] != '_');
    lemma_without_no_underscores(r.take(m));
    assert(r.take(m) =~= d);
    lemma_nat_text(v);
    assert(d[0] != '-' && d[0] != '+');
}

/// A quoted string that the writer wrote, at index `i` of `t`, is read as that string.
proof fn lemma_quoted_at(t: Seq<char>, i: int, s: Seq<char>)
    requires
        0 <= i,
        i + quoted_text(s).len() <= t.len(),
        t.subrange(i, i + quoted_text(s).len()) == quoted_text(s),
    ensures
        quoted_at(t, i) == (Ok::<Seq<char>, &'static str>(s), i + quoted_text(s).len()),
        string_at(t, i) == (Ok::<Seq<char>, &'static str>(s), i + quoted_text(s).len()),
        t[i] == '"',
{
    let q = quoted_text(s);
    let e = escaped_text(s);
    let n = q.len() as int;
    assert(q == seq!['"'] + e + seq!['"']);
    assert forall|k: int| 0 <= k < n implies t[i + k] == #[trigger] q[k] by {
        assert(t.subrange(i, i + n)[k] == q[k]);
    }
    assert(q[0] == '"');
    assert(t[i] == '"');
    assert(t.subrange(i + 1, i + 1 + e.len() + 1) =~= e + seq!['"']) by {
        assert forall|k: int| 0 <= k < e.len() + 1 implies t.subrange(i + 1, i + 1 + e.len() + 1)[k]
            == (e + seq!['"'])[k] by {
            assert(t[i + 1 + k] == q[1 + k]);
        }
    }
    lemma_quoted_from_reads(t, i + 1, s, Seq::empty());
    assert(Seq::<char>::empty() + s =~= s);
}

/// A quoted string that the writer wrote, at index `i` of `t`, is read as that string's tag.
proof fn lemma_string_value_reads(t: Seq<char>, i: int, s: Seq<char>)
    requires
        0 <= i,
        i + quoted_text(s).len() <= t.len(),
        t.subrange(i, i + quoted_text(s).len()) == quoted_text(s),
    ensures
        value_at(t, i) == (
            Ok::<SnbtModel, Failure>(SnbtModel::Tag(SpecTag::String(s))),
            i + quoted_text(s).len(),
        ),
{
    lemma_quoted_at(t, i, s);
    let r = t.skip(i);
    assert(r[0] == '"');
    reveal_strlit("true");
    reveal_strlit("false");
    reveal_strlit("bool(");
    reveal_strlit("uuid(");
    assert(!same_ignoring_case(r[0], "true"@[0]));
    assert(!same_ignoring_case(r[0], "false"@[0]));
    assert(!starts_with(r, "bool("@) && !starts_with(r, "uuid("@)) by {
        if r.len() >= 5 {
            assert(r.take(5)[0] == r[0]);
            assert(r.take(5) != "bool("@ && r.take(5) != "uuid("@);
        }
    }
}

/// The values that a compound's text reads back: integers, typed arrays, lists of them, and
/// strings; and names that are not empty.
pub open spec fn entry_reads_back(x: (Seq<char>, SpecTag)) -> bool {
    x.0.len() > 0 && (plain_snbt(x.1) || x.1 is String)
}

/// What the reader gives for the children of a compound: each name with what it gives for
/// the value.
pub open spec fn entry_models(e: Seq<(Seq<char>, SpecTag)>) -> Seq<(Seq<char>, SnbtModel)> {
    Seq::new(e.len(), |i: int| (e[i].0, read_model(e[i].1)))
}

proof fn lemma_entry_texts(e: Seq<(Seq<char>, SpecTag)>)
    ensures
        entry_texts(e).len() == e.len(),
        forall|k: int|
            0 <= k < e.len() ==> #[trigger] entry_texts(e)[k] == quoted_text(e[k].0) + seq![
                ':',
                ' ',
            ] + snbt_text(e[k].1),
    decreases e.len(),
{
    if e.len() > 0 {
        let p = e.subrange(0, e.len() - 1);
        lemma_entry_texts(p);
        assert forall|k: int| 0 <= k < p.len() implies #[trigger] e[k] == p[k] by {}
    }
}

/// A value of a compound, at index `i` of `t` and followed by the end, a comma or a closing
/// brace, is read as what the reader gives for it.
proof fn lemma_entry_value_reads(t: Seq<char>, i: int, v: SpecTag)
    requires
        plain_snbt(v) || v is String,
        0 <= i,
        i + snbt_text(v).len() <= t.len(),
        t.subrange(i, i + snbt_text(v).len()) == snbt_text(v),
        ends_value(t, i + snbt_text(v).len()),
    ensures
        value_at(t, i) == (Ok::<SnbtModel, Failure>(read_model(v)), i + snbt_text(v).len()),
        snbt_text(v).len() >= 1,
        snbt_text(v)[0] != '}' && !is_whitespace(snbt_text(v)[0]),
{
    if plain_snbt(v) {
        lemma_value_reads(t, i, v);
        lemma_text_shape(v);
    } else {
        let s = v->String_0;
        lemma_string_value_reads(t, i, s);
        assert(snbt_text(v) == quoted_text(s));
        assert(quoted_text(s)[0] == '"');
    }
}

/// The children of a compound, from a position from which skipping whitespace reaches the
/// first of them, are read with the closing brace.
#[verifier::spinoff_prover]
#[verifier::rlimit(80)]
proof fn lemma_entries_items(
    t: Seq<char>,
    p: int,
    s: int,
    e: Seq<(Seq<char>, SpecTag)>,
    acc: Seq<(Seq<char>, SnbtModel)>,
)
    requires
        e.len() >= 1,
        forall|k: int| 0 <= k < e.len() ==> #[trigger] entry_reads_back(e[k]),
        0 <= p <= s,
        skip_whitespace(t, p) == s,
        s + joined(entry_texts(e)).len() + 1 <= t.len(),
        t.subrange(s, s + joined(entry_texts(e)).len() + 1) == joined(entry_texts(e)) + seq!['}'],
    ensures
        compound_from(t, p, acc) == (
            Ok::<SnbtModel, Failure>(SnbtModel::Compound(acc + entry_models(e))),
            s + joined(entry_texts(e)).len() + 1,
        ),
    decreases e.len(),
{
    lemma_entry_texts(e);
    let items = entry_texts(e);
    let whole = joined(items) + seq!['}'];
    let w = whole.len() as int;
    let (name, v) = e[0];
    assert(entry_reads_back(e[0]));
    let x = items[0];
    let qn = quoted_text(name);
    let vt = snbt_text(v);
    let a = qn.len() as int;
    let n = x.len() as int;
    assert(x == qn + seq![':', ' '] + vt);
    if e.len() >= 2 {
        lemma_joined_front(items);
    }
    assert forall|k: int| 0 <= k < w implies t[s + k] == #[trigger] whole[k] by {
        assert(t.subrange(s, s + w)[k] == whole[k]);
    }
    assert forall|k: int| 0 <= k < n implies t[s + k] == #[trigger] x[k] by {
        assert(t[s + k] == whole[k]);
    }
    assert(t.subrange(s, s + a) =~= qn) by {
        assert forall|k: int| 0 <= k < a implies t.subrange(s, s + a)[k] == qn[k] by {
            assert(t[s + k] == x[k]);
        }
    }
    lemma_quoted_at(t, s, name);
    assert(t[s + a] == ':') by {
        assert(t[s + a] == x[a]);
    }
    assert(t[s + a + 1] == ' ') by {
        assert(t[s + a + 1] == x[a + 1]);
    }
    let v0 = s + a + 2;
    assert(t.subrange(v0, v0 + vt.len()) =~= vt) by {
        assert forall|k: int| 0 <= k < vt.len() implies t.subrange(v0, v0 + vt.len())[k] == vt[k] by {
            assert(t[v0 + k] == x[a + 2 + k]);
        }
    }
    assert(t[s + n] == whole[n]);
    assert(whole[n] == if e.len() >= 2 {
        ','
    } else {
        '}'
    });
    lemma_entry_value_reads(t, v0, v);
    assert(t[v0] == vt[0]) by {
        assert(t[v0] == x[a + 2]);
    }
    lemma_no_whitespace(t, s + a);
    lemma_no_whitespace(t, v0);
    assert(skip_whitespace(t, s + a + 1) == v0);
    lemma_no_whitespace(t, s + n);
    let m0 = (name, read_model(v));
    if e.len() == 1 {
        assert(acc.push(m0) =~= acc + entry_models(e));
    } else {
        let rest_e = e.drop_first();
        lemma_entry_texts(rest_e);
        assert(entry_texts(rest_e) =~= items.drop_first());
        let rest = joined(items.drop_first());
        assert(whole =~= x + seq![',', ' '] + rest + seq!['}']);
        assert(t[s + n + 1] == ' ') by {
            assert(t[s + n + 1] == whole[n + 1]);
        }
        let s2 = s + n + 2;
        assert(rest.len() >= 1 && rest[0] == items[1][0]) by {
            if e.len() >= 3 {
                lemma_joined_front(items.drop_first());
            }
        }
        assert(items[1][0] == '"') by {
            assert(quoted_text(e[1].0)[0] == '"');
        }
        assert(t[s2] == rest[0]) by {
            assert(t[s2] == whole[n + 2]);
        }
        lemma_no_whitespace(t, s2);
        assert(skip_whitespace(t, s + n + 1) == s2);
        assert(t.subrange(s2, s2 + rest.len() + 1) =~= rest + seq!['}']) by {
            assert forall|k: int| 0 <= k < rest.len() + 1 implies t.subrange(
                s2,
                s2 + rest.len() + 1,
            )[k] == (rest + seq!['}'])[k] by {
                assert(t[s2 + k] == whole[n + 2 + k]);
            }
        }
        assert forall|k: int| 0 <= k < rest_e.len() implies #[trigger] entry_reads_back(rest_e[k]) by {
            assert(rest_e[k] == e[k + 1]);
        }
        lemma_entries_items(t, s2, s2, rest_e, acc.push(m0));
        assert(entry_models(rest_e) =~= entry_models(e).drop_first());
        assert(acc.push(m0) + entry_models(rest_e) =~= acc + entry_models(e));
    }
}

/// A compound that the writer wrote, whose children have names that are not empty and values
/// that are integers, typed arrays, lists of them or strings, is read back: each child's name
/// with what the reader gives for its value, in order.
#[verifier::spinoff_prover]
#[verifier::rlimit(60)]
pub proof fn lemma_compound_reads_back(e: Seq<(Seq<char>, SpecTag)>)
    requires
        forall|k: int| 0 <= k < e.len() ==> #[trigger] entry_reads_back(e[k]),
    ensures
        text_value(snbt_text(SpecTag::Compound(e))) == (
            Ok::<SnbtModel, Failure>(SnbtModel::Compound(entry_models(e))),
            snbt_text(SpecTag::Compound(e)).len() as int,
        ),
{
    lemma_entry_texts(e);
    let t = snbt_text(SpecTag::Compound(e));
    let items = entry_texts(e);
    let body = joined(items);
    assert(t == seq!['{'] + body + seq!['}']);
    let n = t.len() as int;
    assert forall|k: int| 0 <= k < n implies #[trigger] t[k] == t[k] by {}
    assert(t[0] == '{');
    lemma_no_whitespace(t, n);
    if e.len() == 0 {
        assert(body =~= Seq::<char>::empty());
        assert(t[1] == '}');
        lemma_no_whitespace(t, 1);
        assert(entry_models(e) =~= Seq::<(Seq<char>, SnbtModel)>::empty());
    } else {
        if e.len() >= 2 {
            lemma_joined_front(items);
        }
        assert(body[0] == items[0][0]);
        assert(items[0][0] == '"') by {
            assert(quoted_text(e[0].0)[0] == '"');
        }
        assert(t[1] == body[0]);
        lemma_no_whitespace(t, 1);
        assert(t.subrange(1, (2 + body.len()) as int) =~= body + seq!['}']) by {
            assert forall|k: int| 0 <= k < body.len() + 1 implies t.subrange(1, (2 + body.len()) as int)[k]
                == (body + seq!['}'])[k] by {
                assert(t[1 + k] == (seq!['{'] + body + seq!['}'])[1 + k]);
            }
        }
        lemma_entries_items(t, 1, 1, e, Seq::empty());
        assert(Seq::<(Seq<char>, SnbtModel)>::empty() + entry_models(e) =~= entry_models(e));
    }
}

} // verus!

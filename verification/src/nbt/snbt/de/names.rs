//! The names of Unicode characters, for the `\N{name}` escape of quoted strings: those of
//! the Unicode Character Database, version 14.0, but for the names that are made of a prefix
//! and the code point (CJK unified ideographs, Hangul syllables and the like).
use vstd::prelude::*;
use crate::nbt::snbt::de::utils::{chars_of, same_ignoring_case};

verus! {

/// The first index at or after `i` where `t` holds `c`, or the length of `t` where none does.
pub open spec fn find_char(t: Seq<char>, i: int, c: char) -> int
    decreases t.len() - i,
{
    if i < 0 || i >= t.len() {
        t.len() as int
    } else if t[i] == c {
        i
    } else {
        find_char(t, i + 1, c)
    }
}

pub proof fn lemma_find_char_bounds(t: Seq<char>, i: int, c: char)
    requires
        0 <= i <= t.len(),
    ensures
        i <= find_char(t, i, c) <= t.len(),
        find_char(t, i, c) < t.len() ==> t[find_char(t, i, c)] == c,
        forall|k: int| i <= k < find_char(t, i, c) ==> t[k] != c,
    decreases t.len() - i,
{
    if i < t.len() && t[i] != c {
        lemma_find_char_bounds(t, i + 1, c);
    }
}

/// `name` is `entry` but for the case of ASCII letters.
pub open spec fn same_name(name: Seq<char>, entry: Seq<char>) -> bool {
    &&& name.len() == entry.len()
    &&& forall|k: int| 0 <= k < name.len() ==> same_ignoring_case(#[trigger] name[k], entry[k])
}

/// Looks `name` up among the entries of `table` from index `i` on. Each entry is a name, a
/// colon, the character of that name and a line break; the first entry whose name is `name`,
/// the case of ASCII letters aside, gives the character.
pub open spec fn named_from(table: Seq<char>, i: int, name: Seq<char>) -> Option<char>
    decreases table.len() - i,
{
    if i < 0 || i >= table.len() {
        None
    } else {
        let colon = find_char(table, i, ':');
        proof {
            lemma_find_char_bounds(table, i, ':');
        }
        if colon + 1 >= table.len() {
            None
        } else if same_name(name, table.subrange(i, colon)) {
            Some(table[colon + 1])
        } else if colon + 3 > table.len() {
            None
        } else {
            named_from(table, colon + 3, name)
        }
    }
}

/// The number of parts of the table of names.
pub const NAME_PARTS: usize = 85;

/// Looks `name` up in the parts of the table from part `k` on, in order.
pub open spec fn named_in_parts(k: int, name: Seq<char>) -> Option<char>
    decreases NAME_PARTS - k,
{
    if k < 0 || k >= NAME_PARTS {
        None
    } else {
        match named_from(names_part(k), 0, name) {
            Some(c) => Some(c),
            None => named_in_parts(k + 1, name),
        }
    }
}

/// The character that the Unicode name `name` names, the case of ASCII letters aside: the
/// first entry of that name in the table.
pub open spec fn char_named(name: Seq<char>) -> Option<char> {
    named_in_parts(0, name)
}

/// The first index at or after `i` where `t` holds `c`, or the length of `t`.
pub fn position_of(t: &Vec<char>, i: usize, c: char) -> (r: usize)
    requires
        i <= t@.len(),
    ensures
        r == find_char(t@, i as int, c),
{
    let n = t.len();
    let mut k = i;
    while k < n
        invariant
            i <= k <= n,
            n == t@.len(),
            find_char(t@, i as int, c) == find_char(t@, k as int, c),
        decreases n - k,
    {
        if t[k] == c {
            return k;
        }
        k = k + 1;
    }
    k
}

/// Whether `name` is `table[start..end]`, the case of ASCII letters aside.
fn name_at(name: &Vec<char>, table: &Vec<char>, start: usize, end: usize) -> (r: bool)
    requires
        start <= end <= table@.len(),
    ensures
        r == same_name(name@, table@.subrange(start as int, end as int)),
{
    if name.len() != end - start {
        return false;
    }
    let n = name.len();
    let mut k: usize = 0;
    while k < n
        invariant
            k <= n,
            n == name@.len(),
            n == end - start,
            end <= table@.len(),
            forall|m: int| 0 <= m < k ==> same_ignoring_case(name@[m], table@[start + m]),
        decreases n - k,
    {
        let c = name[k];
        let w = table[start + k];
        let same = c == w || ('A' <= c && c <= 'Z' && (c as u32) + 32 == w as u32) || ('a' <= c
            && c <= 'z' && (c as u32) - 32 == (w as u32));
        if !same {
            assert(!same_ignoring_case(name@[k as int], table@.subrange(start as int, end as int)[k as int]));
            return false;
        }
        k = k + 1;
    }
    assert forall|m: int| 0 <= m < n implies same_ignoring_case(
        #[trigger] name@[m],
        table@.subrange(start as int, end as int)[m],
    ) by {
        assert(table@.subrange(start as int, end as int)[m] == table@[start + m]);
    }
    true
}

/// Looks `name` up in `part`, one part of the table of names.
fn lookup_in_part(name: &Vec<char>, part: &str) -> (r: Option<char>)
    ensures
        r == named_from(part@, 0, name@),
{
    let table = chars_of(part);
    let n = table.len();
    let mut i: usize = 0;
    while i < n
        invariant
            n == table@.len(),
            table@ == part@,
            named_from(table@, 0, name@) == named_from(table@, i as int, name@),
        decreases n - i,
    {
        let colon = position_of(&table, i, ':');
        proof {
            lemma_find_char_bounds(table@, i as int, ':');
        }
        if colon >= n - 1 {
            return None;
        }
        if name_at(name, &table, i, colon) {
            return Some(table[colon + 1]);
        }
        if n - colon < 3 {
            return None;
        }
        i = colon + 3;
    }
    None
}

/// The character that the Unicode name `name` names, the case of ASCII letters aside.
pub fn lookup_char_name(name: &Vec<char>) -> (r: Option<char>)
    ensures
        r == char_named(name@),
{
    let mut k: usize = 0;
    while k < NAME_PARTS
        invariant
            k <= NAME_PARTS,
            char_named(name@) == named_in_parts(k as int, name@),
        decreases NAME_PARTS - k,
    {
        match lookup_in_part(name, names_part_text(k)) {
            Some(c) => {
                return Some(c);
            },
            None => {},
        }
        k = k + 1;
    }
    None
}

/// The part `k` of the table of names.
pub open spec fn names_part(k: int) -> Seq<char> {
    if k == 0 {
        NAMES_00@
    } else if k == 1 {
        NAMES_01@
    } else if k == 2 {
        NAMES_02@
    } else if k == 3 {
        NAMES_03@
    } else if k == 4 {
        NAMES_04@
    } else if k == 5 {
        NAMES_05@
    } else if k == 6 {
        NAMES_06@
    } else if k == 7 {
        NAMES_07@
    } else if k == 8 {
        NAMES_08@
    } else if k == 9 {
        NAMES_09@
    } else if k == 10 {
        NAMES_10@
    } else if k == 11 {
        NAMES_11@
    } else if k == 12 {
        NAMES_12@
    } else if k == 13 {
        NAMES_13@
    } else if k == 14 {
        NAMES_14@
    } else if k == 15 {
        NAMES_15@
    } else if k == 16 {
        NAMES_16@
    } else if k == 17 {
        NAMES_17@
    } else if k == 18 {
        NAMES_18@
    } else if k == 19 {
        NAMES_19@
    } else if k == 20 {
        NAMES_20@
    } else if k == 21 {
        NAMES_21@
    } else if k == 22 {
        NAMES_22@
    } else if k == 23 {
        NAMES_23@
    } else if k == 24 {
        NAMES_24@
    } else if k == 25 {
        NAMES_25@
    } else if k == 26 {
        NAMES_26@
    } else if k == 27 {
        NAMES_27@
    } else if k == 28 {
        NAMES_28@
    } else if k == 29 {
        NAMES_29@
    } else if k == 30 {
        NAMES_30@
    } else if k == 31 {
        NAMES_31@
    } else if k == 32 {
        NAMES_32@
    } else if k == 33 {
        NAMES_33@
    } else if k == 34 {
        NAMES_34@
    } else if k == 35 {
        NAMES_35@
    } else if k == 36 {
        NAMES_36@
    } else if k == 37 {
        NAMES_37@
    } else if k == 38 {
        NAMES_38@
    } else if k == 39 {
        NAMES_39@
    } else if k == 40 {
        NAMES_40@
    } else if k == 41 {
        NAMES_41@
    } else if k == 42 {
        NAMES_42@
    } else if k == 43 {
        NAMES_43@
    } else if k == 44 {
        NAMES_44@
    } else if k == 45 {
        NAMES_45@
    } else if k == 46 {
        NAMES_46@
    } else if k == 47 {
        NAMES_47@
    } else if k == 48 {
        NAMES_48@
    } else if k == 49 {
        NAMES_49@
    } else if k == 50 {
        NAMES_50@
    } else if k == 51 {
        NAMES_51@
    } else if k == 52 {
        NAMES_52@
    } else if k == 53 {
        NAMES_53@
    } else if k == 54 {
        NAMES_54@
    } else if k == 55 {
        NAMES_55@
    } else if k == 56 {
        NAMES_56@
    } else if k == 57 {
        NAMES_57@
    } else if k == 58 {
        NAMES_58@
    } else if k == 59 {
        NAMES_59@
    } else if k == 60 {
        NAMES_60@
    } else if k == 61 {
        NAMES_61@
    } else if k == 62 {
        NAMES_62@
    } else if k == 63 {
        NAMES_63@
    } else if k == 64 {
        NAMES_64@
    } else if k == 65 {
        NAMES_65@
    } else if k == 66 {
        NAMES_66@
    } else if k == 67 {
        NAMES_67@
    } else if k == 68 {
        NAMES_68@
    } else if k == 69 {
        NAMES_69@
    } else if k == 70 {
        NAMES_70@
    } else if k == 71 {
        NAMES_71@
    } else if k == 72 {
        NAMES_72@
    } else if k == 73 {
        NAMES_73@
    } else if k == 74 {
        NAMES_74@
    } else if k == 75 {
        NAMES_75@
    } else if k == 76 {
        NAMES_76@
    } else if k == 77 {
        NAMES_77@
    } else if k == 78 {
        NAMES_78@
    } else if k == 79 {
        NAMES_79@
    } else if k == 80 {
        NAMES_80@
    } else if k == 81 {
        NAMES_81@
    } else if k == 82 {
        NAMES_82@
    } else if k == 83 {
        NAMES_83@
    } else if k == 84 {
        NAMES_84@
    } else {
        Seq::empty()
    }
}

/// The part `k` of the table of names.
fn names_part_text(k: usize) -> (s: &'static str)
    ensures
        s@ == names_part(k as int),
{
    proof {
        reveal_strlit("");
    }
    match k {
        0 => NAMES_00,
        1 => NAMES_01,
        2 => NAMES_02,
        3 => NAMES_03,
        4 => NAMES_04,
        5 => NAMES_05,
        6 => NAMES_06,
        7 => NAMES_07,
        8 => NAMES_08,
        9 => NAMES_09,
        10 => NAMES_10,
        11 => NAMES_11,
        12 => NAMES_12,
        13 => NAMES_13,
        14 => NAMES_14,
        15 => NAMES_15,
        16 => NAMES_16,
        17 => NAMES_17,
        18 => NAMES_18,
        19 => NAMES_19,
        20 => NAMES_20,
        21 => NAMES_21,
        22 => NAMES_22,
        23 => NAMES_23,
        24 => NAMES_24,
        25 => NAMES_25,
        26 => NAMES_26,
        27 => NAMES_27,
        28 => NAMES_28,
        29 => NAMES_29,
        30 => NAMES_30,
        31 => NAMES_31,
        32 => NAMES_32,
        33 => NAMES_33,
        34 => NAMES_34,
        35 => NAMES_35,
        36 => NAMES_36,
        37 => NAMES_37,
        38 => NAMES_38,
        39 => NAMES_39,
        40 => NAMES_40,
        41 => NAMES_41,
        42 => NAMES_42,
        43 => NAMES_43,
        44 => NAMES_44,
        45 => NAMES_45,
        46 => NAMES_46,
        47 => NAMES_47,
        48 => NAMES_48,
        49 => NAMES_49,
        50 => NAMES_50,
        51 => NAMES_51,
        52 => NAMES_52,
        53 => NAMES_53,
        54 => NAMES_54,
        55 => NAMES_55,
        56 => NAMES_56,
        57 => NAMES_57,
        58 => NAMES_58,
        59 => NAMES_59,
        60 => NAMES_60,
        61 => NAMES_61,
        62 => NAMES_62,
        63 => NAMES_63,
        64 => NAMES_64,
        65 => NAMES_65,
        66 => NAMES_66,
        67 => NAMES_67,
        68 => NAMES_68,
        69 => NAMES_69,
        70 => NAMES_70,
        71 => NAMES_71,
        72 => NAMES_72,
        73 => NAMES_73,
        74 => NAMES_74,
        75 => NAMES_75,
        76 => NAMES_76,
        77 => NAMES_77,
        78 => NAMES_78,
        79 => NAMES_79,
        80 => NAMES_80,
        81 => NAMES_81,
        82 => NAMES_82,
        83 => NAMES_83,
        84 => NAMES_84,
        _ => "",
    }
}

// The table of names, in parts. Each entry is a Unicode name, a colon, the character of that
// name, and a line break.

pub const NAMES_00: &'static str = "SPACE: \n\
EXCLAMATION MARK:!\n\
QUOTATION MARK:\u{22}\n\
NUMBER SIGN:#\n\
DOLLAR SIGN:$\n\
PERCENT SIGN:%\n\
AMPERSAND:&\n\
APOSTROPHE:'\n\
LEFT PARENTHESIS:(\n\
RIGHT PARENTHESIS:)\n\
ASTERISK:*\n\
PLUS SIGN:+\n\
COMMA:,\n\
HYPHEN-MINUS:-\n\
FULL STOP:.\n\
SOLIDUS:/\n\
DIGIT ZERO:0\n\
DIGIT ONE:1\n\
DIGIT TWO:2\n\
DIGIT THREE:3\n\
DIGIT FOUR:4\n\
DIGIT FIVE:5\n\
DIGIT SIX:6\n\
DIGIT SEVEN:7\n\
DIGIT EIGHT:8\n\
DIGIT NINE:9\n\
COLON::\n\
SEMICOLON:;\n\
LESS-THAN SIGN:<\n\
EQUALS SIGN:=\n\
GREATER-THAN SIGN:>\n\
QUESTION MARK:?\n\
COMMERCIAL AT:@\n\
LATIN CAPITAL LETTER A:A\n\
LATIN CAPITAL LETTER B:B\n\
LATIN CAPITAL LETTER C:C\n\
LATIN CAPITAL LETTER D:D\n\
LATIN CAPITAL LETTER E:E\n\
LATIN CAPITAL LETTER F:F\n\
LATIN CAPITAL LETTER G:G\n\
LATIN CAPITAL LETTER H:H\n\
LATIN CAPITAL LETTER I:I\n\
LATIN CAPITAL LETTER J:J\n\
LATIN CAPITAL LETTER K:K\n\
LATIN CAPITAL LETTER L:L\n\
LATIN CAPITAL LETTER M:M\n\
LATIN CAPITAL LETTER N:N\n\
LATIN CAPITAL LETTER O:O\n\
LATIN CAPITAL LETTER P:P\n\
LATIN CAPITAL LETTER Q:Q\n\
LATIN CAPITAL LETTER R:R\n\
LATIN CAPITAL LETTER S:S\n\
LATIN CAPITAL LETTER T:T\n\
LATIN CAPITAL LETTER U:U\n\
LATIN CAPITAL LETTER V:V\n\
LATIN CAPITAL LETTER W:W\n\
LATIN CAPITAL LETTER X:X\n\
LATIN CAPITAL LETTER Y:Y\n\
LATIN CAPITAL LETTER Z:Z\n\
LEFT SQUARE BRACKET:[\n\
REVERSE SOLIDUS:\u{5C}\n\
RIGHT SQUARE BRACKET:]\n\
CIRCUMFLEX ACCENT:^\n\
LOW LINE:_\n\
GRAVE ACCENT:`\n\
LATIN SMALL LETTER A:a\n\
LATIN SMALL LETTER B:b\n\
LATIN SMALL LETTER C:c\n\
LATIN SMALL LETTER D:d\n\
LATIN SMALL LETTER E:e\n\
LATIN SMALL LETTER F:f\n\
LATIN SMALL LETTER G:g\n\
LATIN SMALL LETTER H:h\n\
LATIN SMALL LETTER I:i\n\
LATIN SMALL LETTER J:j\n\
LATIN SMALL LETTER K:k\n\
LATIN SMALL LETTER L:l\n\
LATIN SMALL LETTER M:m\n\
LATIN SMALL LETTER N:n\n\
LATIN SMALL LETTER O:o\n\
LATIN SMALL LETTER P:p\n\
LATIN SMALL LETTER Q:q\n\
LATIN SMALL LETTER R:r\n\
LATIN SMALL LETTER S:s\n\
LATIN SMALL LETTER T:t\n\
LATIN SMALL LETTER U:u\n\
LATIN SMALL LETTER V:v\n\
LATIN SMALL LETTER W:w\n\
LATIN SMALL LETTER X:x\n\
LATIN SMALL LETTER Y:y\n\
LATIN SMALL LETTER Z:z\n\
LEFT CURLY BRACKET:{\n\
VERTICAL LINE:|\n\
RIGHT CURLY BRACKET:}\n\
TILDE:~\n\
NO-BREAK SPACE:\u{A0}\n\
INVERTED EXCLAMATION MARK:\u{A1}\n\
CENT SIGN:\u{A2}\n\
POUND SIGN:\u{A3}\n\
CURRENCY SIGN:\u{A4}\n\
YEN SIGN:\u{A5}\n\
BROKEN BAR:\u{A6}\n\
SECTION SIGN:\u{A7}\n\
DIAERESIS:\u{A8}\n\
COPYRIGHT SIGN:\u{A9}\n\
FEMININE ORDINAL INDICATOR:\u{AA}\n\
LEFT-POINTING DOUBLE ANGLE QUOTATION MARK:\u{AB}\n\
NOT SIGN:\u{AC}\n\
SOFT HYPHEN:\u{AD}\n\
REGISTERED SIGN:\u{AE}\n\
MACRON:\u{AF}\n\
DEGREE SIGN:\u{B0}\n\
PLUS-MINUS SIGN:\u{B1}\n\
SUPERSCRIPT TWO:\u{B2}\n\
SUPERSCRIPT THREE:\u{B3}\n\
ACUTE ACCENT:\u{B4}\n\
MICRO SIGN:\u{B5}\n\
PILCROW SIGN:\u{B6}\n\
MIDDLE DOT:\u{B7}\n\
CEDILLA:\u{B8}\n\
SUPERSCRIPT ONE:\u{B9}\n\
MASCULINE ORDINAL INDICATOR:\u{BA}\n\
RIGHT-POINTING DOUBLE ANGLE QUOTATION MARK:\u{BB}\n\
VULGAR FRACTION ONE QUARTER:\u{BC}\n\
VULGAR FRACTION ONE HALF:\u{BD}\n\
VULGAR FRACTION THREE QUARTERS:\u{BE}\n\
INVERTED QUESTION MARK:\u{BF}\n\
LATIN CAPITAL LETTER A WITH GRAVE:\u{C0}\n\
LATIN CAPITAL LETTER A WITH ACUTE:\u{C1}\n\
LATIN CAPITAL LETTER A WITH CIRCUMFLEX:\u{C2}\n\
LATIN CAPITAL LETTER A WITH TILDE:\u{C3}\n\
LATIN CAPITAL LETTER A WITH DIAERESIS:\u{C4}\n\
LATIN CAPITAL LETTER A WITH RING ABOVE:\u{C5}\n\
LATIN CAPITAL LETTER AE:\u{C6}\n\
LATIN CAPITAL LETTER C WITH CEDILLA:\u{C7}\n\
LATIN CAPITAL LETTER E WITH GRAVE:\u{C8}\n\
LATIN CAPITAL LETTER E WITH ACUTE:\u{C9}\n\
LATIN CAPITAL LETTER E WITH CIRCUMFLEX:\u{CA}\n\
LATIN CAPITAL LETTER E WITH DIAERESIS:\u{CB}\n\
LATIN CAPITAL LETTER I WITH GRAVE:\u{CC}\n\
LATIN CAPITAL LETTER I WITH ACUTE:\u{CD}\n\
LATIN CAPITAL LETTER I WITH CIRCUMFLEX:\u{CE}\n\
LATIN CAPITAL LETTER I WITH DIAERESIS:\u{CF}\n\
LATIN CAPITAL LETTER ETH:\u{D0}\n\
LATIN CAPITAL LETTER N WITH TILDE:\u{D1}\n\
LATIN CAPITAL LETTER O WITH GRAVE:\u{D2}\n\
LATIN CAPITAL LETTER O WITH ACUTE:\u{D3}\n\
LATIN CAPITAL LETTER O WITH CIRCUMFLEX:\u{D4}\n\
LATIN CAPITAL LETTER O WITH TILDE:\u{D5}\n\
LATIN CAPITAL LETTER O WITH DIAERESIS:\u{D6}\n\
MULTIPLICATION SIGN:\u{D7}\n\
LATIN CAPITAL LETTER O WITH STROKE:\u{D8}\n\
LATIN CAPITAL LETTER U WITH GRAVE:\u{D9}\n\
LATIN CAPITAL LETTER U WITH ACUTE:\u{DA}\n\
LATIN CAPITAL LETTER U WITH CIRCUMFLEX:\u{DB}\n\
LATIN CAPITAL LETTER U WITH DIAERESIS:\u{DC}\n\
LATIN CAPITAL LETTER Y WITH ACUTE:\u{DD}\n\
LATIN CAPITAL LETTER THORN:\u{DE}\n\
LATIN SMALL LETTER SHARP S:\u{DF}\n\
LATIN SMALL LETTER A WITH GRAVE:\u{E0}\n\
LATIN SMALL LETTER A WITH ACUTE:\u{E1}\n\
LATIN SMALL LETTER A WITH CIRCUMFLEX:\u{E2}\n\
LATIN SMALL LETTER A WITH TILDE:\u{E3}\n\
LATIN SMALL LETTER A WITH DIAERESIS:\u{E4}\n\
LATIN SMALL LETTER A WITH RING ABOVE:\u{E5}\n\
LATIN SMALL LETTER AE:\u{E6}\n\
LATIN SMALL LETTER C WITH CEDILLA:\u{E7}\n\
LATIN SMALL LETTER E WITH GRAVE:\u{E8}\n\
LATIN SMALL LETTER E WITH ACUTE:\u{E9}\n\
LATIN SMALL LETTER E WITH CIRCUMFLEX:\u{EA}\n\
LATIN SMALL LETTER E WITH DIAERESIS:\u{EB}\n\
LATIN SMALL LETTER I WITH GRAVE:\u{EC}\n\
LATIN SMALL LETTER I WITH ACUTE:\u{ED}\n\
LATIN SMALL LETTER I WITH CIRCUMFLEX:\u{EE}\n\
LATIN SMALL LETTER I WITH DIAERESIS:\u{EF}\n\
LATIN SMALL LETTER ETH:\u{F0}\n\
LATIN SMALL LETTER N WITH TILDE:\u{F1}\n\
LATIN SMALL LETTER O WITH GRAVE:\u{F2}\n\
LATIN SMALL LETTER O WITH ACUTE:\u{F3}\n\
LATIN SMALL LETTER O WITH CIRCUMFLEX:\u{F4}\n\
LATIN SMALL LETTER O WITH TILDE:\u{F5}\n\
LATIN SMALL LETTER O WITH DIAERESIS:\u{F6}\n\
DIVISION SIGN:\u{F7}\n\
LATIN SMALL LETTER O WITH STROKE:\u{F8}\n\
LATIN SMALL LETTER U WITH GRAVE:\u{F9}\n\
LATIN SMALL LETTER U WITH ACUTE:\u{FA}\n\
LATIN SMALL LETTER U WITH CIRCUMFLEX:\u{FB}\n\
LATIN SMALL LETTER U WITH DIAERESIS:\u{FC}\n\
LATIN SMALL LETTER Y WITH ACUTE:\u{FD}\n\
LATIN SMALL LETTER THORN:\u{FE}\n\
LATIN SMALL LETTER Y WITH DIAERESIS:\u{FF}\n\
LATIN CAPITAL LETTER A WITH MACRON:\u{100}\n\
LATIN SMALL LETTER A WITH MACRON:\u{101}\n\
LATIN CAPITAL LETTER A WITH BREVE:\u{102}\n\
LATIN SMALL LETTER A WITH BREVE:\u{103}\n\
LATIN CAPITAL LETTER A WITH OGONEK:\u{104}\n\
LATIN SMALL LETTER A WITH OGONEK:\u{105}\n\
LATIN CAPITAL LETTER C WITH ACUTE:\u{106}\n\
LATIN SMALL LETTER C WITH ACUTE:\u{107}\n\
LATIN CAPITAL LETTER C WITH CIRCUMFLEX:\u{108}\n\
LATIN SMALL LETTER C WITH CIRCUMFLEX:\u{109}\n\
LATIN CAPITAL LETTER C WITH DOT ABOVE:\u{10A}\n\
LATIN SMALL LETTER C WITH DOT ABOVE:\u{10B}\n\
LATIN CAPITAL LETTER C WITH CARON:\u{10C}\n\
LATIN SMALL LETTER C WITH CARON:\u{10D}\n\
LATIN CAPITAL LETTER D WITH CARON:\u{10E}\n\
LATIN SMALL LETTER D WITH CARON:\u{10F}\n\
LATIN CAPITAL LETTER D WITH STROKE:\u{110}\n\
LATIN SMALL LETTER D WITH STROKE:\u{111}\n\
LATIN CAPITAL LETTER E WITH MACRON:\u{112}\n\
LATIN SMALL LETTER E WITH MACRON:\u{113}\n\
LATIN CAPITAL LETTER E WITH BREVE:\u{114}\n\
LATIN SMALL LETTER E WITH BREVE:\u{115}\n\
LATIN CAPITAL LETTER E WITH DOT ABOVE:\u{116}\n\
LATIN SMALL LETTER E WITH DOT ABOVE:\u{117}\n\
LATIN CAPITAL LETTER E WITH OGONEK:\u{118}\n\
LATIN SMALL LETTER E WITH OGONEK:\u{119}\n\
LATIN CAPITAL LETTER E WITH CARON:\u{11A}\n\
LATIN SMALL LETTER E WITH CARON:\u{11B}\n\
LATIN CAPITAL LETTER G WITH CIRCUMFLEX:\u{11C}\n\
LATIN SMALL LETTER G WITH CIRCUMFLEX:\u{11D}\n\
LATIN CAPITAL LETTER G WITH BREVE:\u{11E}\n\
LATIN SMALL LETTER G WITH BREVE:\u{11F}\n\
LATIN CAPITAL LETTER G WITH DOT ABOVE:\u{120}\n\
LATIN SMALL LETTER G WITH DOT ABOVE:\u{121}\n\
LATIN CAPITAL LETTER G WITH CEDILLA:\u{122}\n\
LATIN SMALL LETTER G WITH CEDILLA:\u{123}\n\
LATIN CAPITAL LETTER H WITH CIRCUMFLEX:\u{124}\n\
LATIN SMALL LETTER H WITH CIRCUMFLEX:\u{125}\n\
LATIN CAPITAL LETTER H WITH STROKE:\u{126}\n\
LATIN SMALL LETTER H WITH STROKE:\u{127}\n\
LATIN CAPITAL LETTER I WITH TILDE:\u{128}\n\
LATIN SMALL LETTER I WITH TILDE:\u{129}\n\
LATIN CAPITAL LETTER I WITH MACRON:\u{12A}\n\
LATIN SMALL LETTER I WITH MACRON:\u{12B}\n\
LATIN CAPITAL LETTER I WITH BREVE:\u{12C}\n\
LATIN SMALL LETTER I WITH BREVE:\u{12D}\n\
LATIN CAPITAL LETTER I WITH OGONEK:\u{12E}\n\
LATIN SMALL LETTER I WITH OGONEK:\u{12F}\n\
LATIN CAPITAL LETTER I WITH DOT ABOVE:\u{130}\n\
LATIN SMALL LETTER DOTLESS I:\u{131}\n\
LATIN CAPITAL LIGATURE IJ:\u{132}\n\
LATIN SMALL LIGATURE IJ:\u{133}\n\
LATIN CAPITAL LETTER J WITH CIRCUMFLEX:\u{134}\n\
LATIN SMALL LETTER J WITH CIRCUMFLEX:\u{135}\n\
LATIN CAPITAL LETTER K WITH CEDILLA:\u{136}\n\
LATIN SMALL LETTER K WITH CEDILLA:\u{137}\n\
LATIN SMALL LETTER KRA:\u{138}\n\
LATIN CAPITAL LETTER L WITH ACUTE:\u{139}\n\
LATIN SMALL LETTER L WITH ACUTE:\u{13A}\n\
LATIN CAPITAL LETTER L WITH CEDILLA:\u{13B}\n\
LATIN SMALL LETTER L WITH CEDILLA:\u{13C}\n\
LATIN CAPITAL LETTER L WITH CARON:\u{13D}\n\
LATIN SMALL LETTER L WITH CARON:\u{13E}\n\
LATIN CAPITAL LETTER L WITH MIDDLE DOT:\u{13F}\n\
LATIN SMALL LETTER L WITH MIDDLE DOT:\u{140}\n\
LATIN CAPITAL LETTER L WITH STROKE:\u{141}\n\
LATIN SMALL LETTER L WITH STROKE:\u{142}\n\
LATIN CAPITAL LETTER N WITH ACUTE:\u{143}\n\
LATIN SMALL LETTER N WITH ACUTE:\u{144}\n\
LATIN CAPITAL LETTER N WITH CEDILLA:\u{145}\n\
LATIN SMALL LETTER N WITH CEDILLA:\u{146}\n\
LATIN CAPITAL LETTER N WITH CARON:\u{147}\n\
LATIN SMALL LETTER N WITH CARON:\u{148}\n\
LATIN SMALL LETTER N PRECEDED BY APOSTROPHE:\u{149}\n\
LATIN CAPITAL LETTER ENG:\u{14A}\n\
LATIN SMALL LETTER ENG:\u{14B}\n\
LATIN CAPITAL LETTER O WITH MACRON:\u{14C}\n\
LATIN SMALL LETTER O WITH MACRON:\u{14D}\n\
LATIN CAPITAL LETTER O WITH BREVE:\u{14E}\n\
LATIN SMALL LETTER O WITH BREVE:\u{14F}\n\
LATIN CAPITAL LETTER O WITH DOUBLE ACUTE:\u{150}\n\
LATIN SMALL LETTER O WITH DOUBLE ACUTE:\u{151}\n\
LATIN CAPITAL LIGATURE OE:\u{152}\n\
LATIN SMALL LIGATURE OE:\u{153}\n\
LATIN CAPITAL LETTER R WITH ACUTE:\u{154}\n\
LATIN SMALL LETTER R WITH ACUTE:\u{155}\n\
LATIN CAPITAL LETTER R WITH CEDILLA:\u{156}\n\
LATIN SMALL LETTER R WITH CEDILLA:\u{157}\n\
LATIN CAPITAL LETTER R WITH CARON:\u{158}\n\
LATIN SMALL LETTER R WITH CARON:\u{159}\n\
LATIN CAPITAL LETTER S WITH ACUTE:\u{15A}\n\
LATIN SMALL LETTER S WITH ACUTE:\u{15B}\n\
LATIN CAPITAL LETTER S WITH CIRCUMFLEX:\u{15C}\n\
LATIN SMALL LETTER S WITH CIRCUMFLEX:\u{15D}\n\
LATIN CAPITAL LETTER S WITH CEDILLA:\u{15E}\n\
LATIN SMALL LETTER S WITH CEDILLA:\u{15F}\n\
LATIN CAPITAL LETTER S WITH CARON:\u{160}\n\
LATIN SMALL LETTER S WITH CARON:\u{161}\n\
LATIN CAPITAL LETTER T WITH CEDILLA:\u{162}\n\
LATIN SMALL LETTER T WITH CEDILLA:\u{163}\n\
LATIN CAPITAL LETTER T WITH CARON:\u{164}\n\
LATIN SMALL LETTER T WITH CARON:\u{165}\n\
LATIN CAPITAL LETTER T WITH STROKE:\u{166}\n\
LATIN SMALL LETTER T WITH STROKE:\u{167}\n\
LATIN CAPITAL LETTER U WITH TILDE:\u{168}\n\
LATIN SMALL LETTER U WITH TILDE:\u{169}\n\
LATIN CAPITAL LETTER U WITH MACRON:\u{16A}\n\
LATIN SMALL LETTER U WITH MACRON:\u{16B}\n\
LATIN CAPITAL LETTER U WITH BREVE:\u{16C}\n\
LATIN SMALL LETTER U WITH BREVE:\u{16D}\n\
LATIN CAPITAL LETTER U WITH RING ABOVE:\u{16E}\n\
LATIN SMALL LETTER U WITH RING ABOVE:\u{16F}\n\
LATIN CAPITAL LETTER U WITH DOUBLE ACUTE:\u{170}\n\
LATIN SMALL LETTER U WITH DOUBLE ACUTE:\u{171}\n\
LATIN CAPITAL LETTER U WITH OGONEK:\u{172}\n\
LATIN SMALL LETTER U WITH OGONEK:\u{173}\n\
LATIN CAPITAL LETTER W WITH CIRCUMFLEX:\u{174}\n\
LATIN SMALL LETTER W WITH CIRCUMFLEX:\u{175}\n\
LATIN CAPITAL LETTER Y WITH CIRCUMFLEX:\u{176}\n\
LATIN SMALL LETTER Y WITH CIRCUMFLEX:\u{177}\n\
LATIN CAPITAL LETTER Y WITH DIAERESIS:\u{178}\n\
LATIN CAPITAL LETTER Z WITH ACUTE:\u{179}\n\
LATIN SMALL LETTER Z WITH ACUTE:\u{17A}\n\
LATIN CAPITAL LETTER Z WITH DOT ABOVE:\u{17B}\n\
LATIN SMALL LETTER Z WITH DOT ABOVE:\u{17C}\n\
LATIN CAPITAL LETTER Z WITH CARON:\u{17D}\n\
LATIN SMALL LETTER Z WITH CARON:\u{17E}\n\
LATIN SMALL LETTER LONG S:\u{17F}\n\
LATIN SMALL LETTER B WITH STROKE:\u{180}\n\
LATIN CAPITAL LETTER B WITH HOOK:\u{181}\n\
LATIN CAPITAL LETTER B WITH TOPBAR:\u{182}\n\
LATIN SMALL LETTER B WITH TOPBAR:\u{183}\n\
LATIN CAPITAL LETTER TONE SIX:\u{184}\n\
LATIN SMALL LETTER TONE SIX:\u{185}\n\
LATIN CAPITAL LETTER OPEN O:\u{186}\n\
LATIN CAPITAL LETTER C WITH HOOK:\u{187}\n\
LATIN SMALL LETTER C WITH HOOK:\u{188}\n\
LATIN CAPITAL LETTER AFRICAN D:\u{189}\n\
LATIN CAPITAL LETTER D WITH HOOK:\u{18A}\n\
LATIN CAPITAL LETTER D WITH TOPBAR:\u{18B}\n\
LATIN SMALL LETTER D WITH TOPBAR:\u{18C}\n\
LATIN SMALL LETTER TURNED DELTA:\u{18D}\n\
LATIN CAPITAL LETTER REVERSED E:\u{18E}\n\
LATIN CAPITAL LETTER SCHWA:\u{18F}\n\
LATIN CAPITAL LETTER OPEN E:\u{190}\n\
LATIN CAPITAL LETTER F WITH HOOK:\u{191}\n\
LATIN SMALL LETTER F WITH HOOK:\u{192}\n\
LATIN CAPITAL LETTER G WITH HOOK:\u{193}\n\
LATIN CAPITAL LETTER GAMMA:\u{194}\n\
LATIN SMALL LETTER HV:\u{195}\n\
LATIN CAPITAL LETTER IOTA:\u{196}\n\
LATIN CAPITAL LETTER I WITH STROKE:\u{197}\n\
LATIN CAPITAL LETTER K WITH HOOK:\u{198}\n\
LATIN SMALL LETTER K WITH HOOK:\u{199}\n\
LATIN SMALL LETTER L WITH BAR:\u{19A}\n\
LATIN SMALL LETTER LAMBDA WITH STROKE:\u{19B}\n\
LATIN CAPITAL LETTER TURNED M:\u{19C}\n\
LATIN CAPITAL LETTER N WITH LEFT HOOK:\u{19D}\n\
LATIN SMALL LETTER N WITH LONG RIGHT LEG:\u{19E}\n\
LATIN CAPITAL LETTER O WITH MIDDLE TILDE:\u{19F}\n\
LATIN CAPITAL LETTER O WITH HORN:\u{1A0}\n\
LATIN SMALL LETTER O WITH HORN:\u{1A1}\n\
LATIN CAPITAL LETTER OI:\u{1A2}\n\
LATIN SMALL LETTER OI:\u{1A3}\n\
LATIN CAPITAL LETTER P WITH HOOK:\u{1A4}\n\
LATIN SMALL LETTER P WITH HOOK:\u{1A5}\n\
LATIN LETTER YR:\u{1A6}\n\
LATIN CAPITAL LETTER TONE TWO:\u{1A7}\n\
LATIN SMALL LETTER TONE TWO:\u{1A8}\n\
LATIN CAPITAL LETTER ESH:\u{1A9}\n\
LATIN LETTER REVERSED ESH LOOP:\u{1AA}\n\
LATIN SMALL LETTER T WITH PALATAL HOOK:\u{1AB}\n\
LATIN CAPITAL LETTER T WITH HOOK:\u{1AC}\n\
LATIN SMALL LETTER T WITH HOOK:\u{1AD}\n\
LATIN CAPITAL LETTER T WITH RETROFLEX HOOK:\u{1AE}\n\
LATIN CAPITAL LETTER U WITH HORN:\u{1AF}\n\
LATIN SMALL LETTER U WITH HORN:\u{1B0}\n\
LATIN CAPITAL LETTER UPSILON:\u{1B1}\n\
LATIN CAPITAL LETTER V WITH HOOK:\u{1B2}\n\
LATIN CAPITAL LETTER Y WITH HOOK:\u{1B3}\n\
LATIN SMALL LETTER Y WITH HOOK:\u{1B4}\n\
LATIN CAPITAL LETTER Z WITH STROKE:\u{1B5}\n\
LATIN SMALL LETTER Z WITH STROKE:\u{1B6}\n\
LATIN CAPITAL LETTER EZH:\u{1B7}\n\
LATIN CAPITAL LETTER EZH REVERSED:\u{1B8}\n\
LATIN SMALL LETTER EZH REVERSED:\u{1B9}\n\
LATIN SMALL LETTER EZH WITH TAIL:\u{1BA}\n\
LATIN LETTER TWO WITH STROKE:\u{1BB}\n\
LATIN CAPITAL LETTER TONE FIVE:\u{1BC}\n\
LATIN SMALL LETTER TONE FIVE:\u{1BD}\n\
LATIN LETTER INVERTED GLOTTAL STOP WITH STROKE:\u{1BE}\n\
LATIN LETTER WYNN:\u{1BF}\n\
LATIN LETTER DENTAL CLICK:\u{1C0}\n\
LATIN LETTER LATERAL CLICK:\u{1C1}\n\
LATIN LETTER ALVEOLAR CLICK:\u{1C2}\n\
LATIN LETTER RETROFLEX CLICK:\u{1C3}\n\
LATIN CAPITAL LETTER DZ WITH CARON:\u{1C4}\n\
LATIN CAPITAL LETTER D WITH SMALL LETTER Z WITH CARON:\u{1C5}\n\
LATIN SMALL LETTER DZ WITH CARON:\u{1C6}\n\
LATIN CAPITAL LETTER LJ:\u{1C7}\n\
LATIN CAPITAL LETTER L WITH SMALL LETTER J:\u{1C8}\n\
LATIN SMALL LETTER LJ:\u{1C9}\n\
LATIN CAPITAL LETTER NJ:\u{1CA}\n\
LATIN CAPITAL LETTER N WITH SMALL LETTER J:\u{1CB}\n\
LATIN SMALL LETTER NJ:\u{1CC}\n\
LATIN CAPITAL LETTER A WITH CARON:\u{1CD}\n\
LATIN SMALL LETTER A WITH CARON:\u{1CE}\n";

pub const NAMES_01: &'static str = "LATIN CAPITAL LETTER I WITH CARON:\u{1CF}\n\
LATIN SMALL LETTER I WITH CARON:\u{1D0}\n\
LATIN CAPITAL LETTER O WITH CARON:\u{1D1}\n\
LATIN SMALL LETTER O WITH CARON:\u{1D2}\n\
LATIN CAPITAL LETTER U WITH CARON:\u{1D3}\n\
LATIN SMALL LETTER U WITH CARON:\u{1D4}\n\
LATIN CAPITAL LETTER U WITH DIAERESIS AND MACRON:\u{1D5}\n\
LATIN SMALL LETTER U WITH DIAERESIS AND MACRON:\u{1D6}\n\
LATIN CAPITAL LETTER U WITH DIAERESIS AND ACUTE:\u{1D7}\n\
LATIN SMALL LETTER U WITH DIAERESIS AND ACUTE:\u{1D8}\n\
LATIN CAPITAL LETTER U WITH DIAERESIS AND CARON:\u{1D9}\n\
LATIN SMALL LETTER U WITH DIAERESIS AND CARON:\u{1DA}\n\
LATIN CAPITAL LETTER U WITH DIAERESIS AND GRAVE:\u{1DB}\n\
LATIN SMALL LETTER U WITH DIAERESIS AND GRAVE:\u{1DC}\n\
LATIN SMALL LETTER TURNED E:\u{1DD}\n\
LATIN CAPITAL LETTER A WITH DIAERESIS AND MACRON:\u{1DE}\n\
LATIN SMALL LETTER A WITH DIAERESIS AND MACRON:\u{1DF}\n\
LATIN CAPITAL LETTER A WITH DOT ABOVE AND MACRON:\u{1E0}\n\
LATIN SMALL LETTER A WITH DOT ABOVE AND MACRON:\u{1E1}\n\
LATIN CAPITAL LETTER AE WITH MACRON:\u{1E2}\n\
LATIN SMALL LETTER AE WITH MACRON:\u{1E3}\n\
LATIN CAPITAL LETTER G WITH STROKE:\u{1E4}\n\
LATIN SMALL LETTER G WITH STROKE:\u{1E5}\n\
LATIN CAPITAL LETTER G WITH CARON:\u{1E6}\n\
LATIN SMALL LETTER G WITH CARON:\u{1E7}\n\
LATIN CAPITAL LETTER K WITH CARON:\u{1E8}\n\
LATIN SMALL LETTER K WITH CARON:\u{1E9}\n\
LATIN CAPITAL LETTER O WITH OGONEK:\u{1EA}\n\
LATIN SMALL LETTER O WITH OGONEK:\u{1EB}\n\
LATIN CAPITAL LETTER O WITH OGONEK AND MACRON:\u{1EC}\n\
LATIN SMALL LETTER O WITH OGONEK AND MACRON:\u{1ED}\n\
LATIN CAPITAL LETTER EZH WITH CARON:\u{1EE}\n\
LATIN SMALL LETTER EZH WITH CARON:\u{1EF}\n\
LATIN SMALL LETTER J WITH CARON:\u{1F0}\n\
LATIN CAPITAL LETTER DZ:\u{1F1}\n\
LATIN CAPITAL LETTER D WITH SMALL LETTER Z:\u{1F2}\n\
LATIN SMALL LETTER DZ:\u{1F3}\n\
LATIN CAPITAL LETTER G WITH ACUTE:\u{1F4}\n\
LATIN SMALL LETTER G WITH ACUTE:\u{1F5}\n\
LATIN CAPITAL LETTER HWAIR:\u{1F6}\n\
LATIN CAPITAL LETTER WYNN:\u{1F7}\n\
LATIN CAPITAL LETTER N WITH GRAVE:\u{1F8}\n\
LATIN SMALL LETTER N WITH GRAVE:\u{1F9}\n\
LATIN CAPITAL LETTER A WITH RING ABOVE AND ACUTE:\u{1FA}\n\
LATIN SMALL LETTER A WITH RING ABOVE AND ACUTE:\u{1FB}\n\
LATIN CAPITAL LETTER AE WITH ACUTE:\u{1FC}\n\
LATIN SMALL LETTER AE WITH ACUTE:\u{1FD}\n\
LATIN CAPITAL LETTER O WITH STROKE AND ACUTE:\u{1FE}\n\
LATIN SMALL LETTER O WITH STROKE AND ACUTE:\u{1FF}\n\
LATIN CAPITAL LETTER A WITH DOUBLE GRAVE:\u{200}\n\
LATIN SMALL LETTER A WITH DOUBLE GRAVE:\u{201}\n\
LATIN CAPITAL LETTER A WITH INVERTED BREVE:\u{202}\n\
LATIN SMALL LETTER A WITH INVERTED BREVE:\u{203}\n\
LATIN CAPITAL LETTER E WITH DOUBLE GRAVE:\u{204}\n\
LATIN SMALL LETTER E WITH DOUBLE GRAVE:\u{205}\n\
LATIN CAPITAL LETTER E WITH INVERTED BREVE:\u{206}\n\
LATIN SMALL LETTER E WITH INVERTED BREVE:\u{207}\n\
LATIN CAPITAL LETTER I WITH DOUBLE GRAVE:\u{208}\n\
LATIN SMALL LETTER I WITH DOUBLE GRAVE:\u{209}\n\
LATIN CAPITAL LETTER I WITH INVERTED BREVE:\u{20A}\n\
LATIN SMALL LETTER I WITH INVERTED BREVE:\u{20B}\n\
LATIN CAPITAL LETTER O WITH DOUBLE GRAVE:\u{20C}\n\
LATIN SMALL LETTER O WITH DOUBLE GRAVE:\u{20D}\n\
LATIN CAPITAL LETTER O WITH INVERTED BREVE:\u{20E}\n\
LATIN SMALL LETTER O WITH INVERTED BREVE:\u{20F}\n\
LATIN CAPITAL LETTER R WITH DOUBLE GRAVE:\u{210}\n\
LATIN SMALL LETTER R WITH DOUBLE GRAVE:\u{211}\n\
LATIN CAPITAL LETTER R WITH INVERTED BREVE:\u{212}\n\
LATIN SMALL LETTER R WITH INVERTED BREVE:\u{213}\n\
LATIN CAPITAL LETTER U WITH DOUBLE GRAVE:\u{214}\n\
LATIN SMALL LETTER U WITH DOUBLE GRAVE:\u{215}\n\
LATIN CAPITAL LETTER U WITH INVERTED BREVE:\u{216}\n\
LATIN SMALL LETTER U WITH INVERTED BREVE:\u{217}\n\
LATIN CAPITAL LETTER S WITH COMMA BELOW:\u{218}\n\
LATIN SMALL LETTER S WITH COMMA BELOW:\u{219}\n\
LATIN CAPITAL LETTER T WITH COMMA BELOW:\u{21A}\n\
LATIN SMALL LETTER T WITH COMMA BELOW:\u{21B}\n\
LATIN CAPITAL LETTER YOGH:\u{21C}\n\
LATIN SMALL LETTER YOGH:\u{21D}\n\
LATIN CAPITAL LETTER H WITH CARON:\u{21E}\n\
LATIN SMALL LETTER H WITH CARON:\u{21F}\n\
LATIN CAPITAL LETTER N WITH LONG RIGHT LEG:\u{220}\n\
LATIN SMALL LETTER D WITH CURL:\u{221}\n\
LATIN CAPITAL LETTER OU:\u{222}\n\
LATIN SMALL LETTER OU:\u{223}\n\
LATIN CAPITAL LETTER Z WITH HOOK:\u{224}\n\
LATIN SMALL LETTER Z WITH HOOK:\u{225}\n\
LATIN CAPITAL LETTER A WITH DOT ABOVE:\u{226}\n\
LATIN SMALL LETTER A WITH DOT ABOVE:\u{227}\n\
LATIN CAPITAL LETTER E WITH CEDILLA:\u{228}\n\
LATIN SMALL LETTER E WITH CEDILLA:\u{229}\n\
LATIN CAPITAL LETTER O WITH DIAERESIS AND MACRON:\u{22A}\n\
LATIN SMALL LETTER O WITH DIAERESIS AND MACRON:\u{22B}\n\
LATIN CAPITAL LETTER O WITH TILDE AND MACRON:\u{22C}\n\
LATIN SMALL LETTER O WITH TILDE AND MACRON:\u{22D}\n\
LATIN CAPITAL LETTER O WITH DOT ABOVE:\u{22E}\n\
LATIN SMALL LETTER O WITH DOT ABOVE:\u{22F}\n\
LATIN CAPITAL LETTER O WITH DOT ABOVE AND MACRON:\u{230}\n\
LATIN SMALL LETTER O WITH DOT ABOVE AND MACRON:\u{231}\n\
LATIN CAPITAL LETTER Y WITH MACRON:\u{232}\n\
LATIN SMALL LETTER Y WITH MACRON:\u{233}\n\
LATIN SMALL LETTER L WITH CURL:\u{234}\n\
LATIN SMALL LETTER N WITH CURL:\u{235}\n\
LATIN SMALL LETTER T WITH CURL:\u{236}\n\
LATIN SMALL LETTER DOTLESS J:\u{237}\n\
LATIN SMALL LETTER DB DIGRAPH:\u{238}\n\
LATIN SMALL LETTER QP DIGRAPH:\u{239}\n\
LATIN CAPITAL LETTER A WITH STROKE:\u{23A}\n\
LATIN CAPITAL LETTER C WITH STROKE:\u{23B}\n\
LATIN SMALL LETTER C WITH STROKE:\u{23C}\n\
LATIN CAPITAL LETTER L WITH BAR:\u{23D}\n\
LATIN CAPITAL LETTER T WITH DIAGONAL STROKE:\u{23E}\n\
LATIN SMALL LETTER S WITH SWASH TAIL:\u{23F}\n\
LATIN SMALL LETTER Z WITH SWASH TAIL:\u{240}\n\
LATIN CAPITAL LETTER GLOTTAL STOP:\u{241}\n\
LATIN SMALL LETTER GLOTTAL STOP:\u{242}\n\
LATIN CAPITAL LETTER B WITH STROKE:\u{243}\n\
LATIN CAPITAL LETTER U BAR:\u{244}\n\
LATIN CAPITAL LETTER TURNED V:\u{245}\n\
LATIN CAPITAL LETTER E WITH STROKE:\u{246}\n\
LATIN SMALL LETTER E WITH STROKE:\u{247}\n\
LATIN CAPITAL LETTER J WITH STROKE:\u{248}\n\
LATIN SMALL LETTER J WITH STROKE:\u{249}\n\
LATIN CAPITAL LETTER SMALL Q WITH HOOK TAIL:\u{24A}\n\
LATIN SMALL LETTER Q WITH HOOK TAIL:\u{24B}\n\
LATIN CAPITAL LETTER R WITH STROKE:\u{24C}\n\
LATIN SMALL LETTER R WITH STROKE:\u{24D}\n\
LATIN CAPITAL LETTER Y WITH STROKE:\u{24E}\n\
LATIN SMALL LETTER Y WITH STROKE:\u{24F}\n\
LATIN SMALL LETTER TURNED A:\u{250}\n\
LATIN SMALL LETTER ALPHA:\u{251}\n\
LATIN SMALL LETTER TURNED ALPHA:\u{252}\n\
LATIN SMALL LETTER B WITH HOOK:\u{253}\n\
LATIN SMALL LETTER OPEN O:\u{254}\n\
LATIN SMALL LETTER C WITH CURL:\u{255}\n\
LATIN SMALL LETTER D WITH TAIL:\u{256}\n\
LATIN SMALL LETTER D WITH HOOK:\u{257}\n\
LATIN SMALL LETTER REVERSED E:\u{258}\n\
LATIN SMALL LETTER SCHWA:\u{259}\n\
LATIN SMALL LETTER SCHWA WITH HOOK:\u{25A}\n\
LATIN SMALL LETTER OPEN E:\u{25B}\n\
LATIN SMALL LETTER REVERSED OPEN E:\u{25C}\n\
LATIN SMALL LETTER REVERSED OPEN E WITH HOOK:\u{25D}\n\
LATIN SMALL LETTER CLOSED REVERSED OPEN E:\u{25E}\n\
LATIN SMALL LETTER DOTLESS J WITH STROKE:\u{25F}\n\
LATIN SMALL LETTER G WITH HOOK:\u{260}\n\
LATIN SMALL LETTER SCRIPT G:\u{261}\n\
LATIN LETTER SMALL CAPITAL G:\u{262}\n\
LATIN SMALL LETTER GAMMA:\u{263}\n\
LATIN SMALL LETTER RAMS HORN:\u{264}\n\
LATIN SMALL LETTER TURNED H:\u{265}\n\
LATIN SMALL LETTER H WITH HOOK:\u{266}\n\
LATIN SMALL LETTER HENG WITH HOOK:\u{267}\n\
LATIN SMALL LETTER I WITH STROKE:\u{268}\n\
LATIN SMALL LETTER IOTA:\u{269}\n\
LATIN LETTER SMALL CAPITAL I:\u{26A}\n\
LATIN SMALL LETTER L WITH MIDDLE TILDE:\u{26B}\n\
LATIN SMALL LETTER L WITH BELT:\u{26C}\n\
LATIN SMALL LETTER L WITH RETROFLEX HOOK:\u{26D}\n\
LATIN SMALL LETTER LEZH:\u{26E}\n\
LATIN SMALL LETTER TURNED M:\u{26F}\n\
LATIN SMALL LETTER TURNED M WITH LONG LEG:\u{270}\n\
LATIN SMALL LETTER M WITH HOOK:\u{271}\n\
LATIN SMALL LETTER N WITH LEFT HOOK:\u{272}\n\
LATIN SMALL LETTER N WITH RETROFLEX HOOK:\u{273}\n\
LATIN LETTER SMALL CAPITAL N:\u{274}\n\
LATIN SMALL LETTER BARRED O:\u{275}\n\
LATIN LETTER SMALL CAPITAL OE:\u{276}\n\
LATIN SMALL LETTER CLOSED OMEGA:\u{277}\n\
LATIN SMALL LETTER PHI:\u{278}\n\
LATIN SMALL LETTER TURNED R:\u{279}\n\
LATIN SMALL LETTER TURNED R WITH LONG LEG:\u{27A}\n\
LATIN SMALL LETTER TURNED R WITH HOOK:\u{27B}\n\
LATIN SMALL LETTER R WITH LONG LEG:\u{27C}\n\
LATIN SMALL LETTER R WITH TAIL:\u{27D}\n\
LATIN SMALL LETTER R WITH FISHHOOK:\u{27E}\n\
LATIN SMALL LETTER REVERSED R WITH FISHHOOK:\u{27F}\n\
LATIN LETTER SMALL CAPITAL R:\u{280}\n\
LATIN LETTER SMALL CAPITAL INVERTED R:\u{281}\n\
LATIN SMALL LETTER S WITH HOOK:\u{282}\n\
LATIN SMALL LETTER ESH:\u{283}\n\
LATIN SMALL LETTER DOTLESS J WITH STROKE AND HOOK:\u{284}\n\
LATIN SMALL LETTER SQUAT REVERSED ESH:\u{285}\n\
LATIN SMALL LETTER ESH WITH CURL:\u{286}\n\
LATIN SMALL LETTER TURNED T:\u{287}\n\
LATIN SMALL LETTER T WITH RETROFLEX HOOK:\u{288}\n\
LATIN SMALL LETTER U BAR:\u{289}\n\
LATIN SMALL LETTER UPSILON:\u{28A}\n\
LATIN SMALL LETTER V WITH HOOK:\u{28B}\n\
LATIN SMALL LETTER TURNED V:\u{28C}\n\
LATIN SMALL LETTER TURNED W:\u{28D}\n\
LATIN SMALL LETTER TURNED Y:\u{28E}\n\
LATIN LETTER SMALL CAPITAL Y:\u{28F}\n\
LATIN SMALL LETTER Z WITH RETROFLEX HOOK:\u{290}\n\
LATIN SMALL LETTER Z WITH CURL:\u{291}\n\
LATIN SMALL LETTER EZH:\u{292}\n\
LATIN SMALL LETTER EZH WITH CURL:\u{293}\n\
LATIN LETTER GLOTTAL STOP:\u{294}\n\
LATIN LETTER PHARYNGEAL VOICED FRICATIVE:\u{295}\n\
LATIN LETTER INVERTED GLOTTAL STOP:\u{296}\n\
LATIN LETTER STRETCHED C:\u{297}\n\
LATIN LETTER BILABIAL CLICK:\u{298}\n\
LATIN LETTER SMALL CAPITAL B:\u{299}\n\
LATIN SMALL LETTER CLOSED OPEN E:\u{29A}\n\
LATIN LETTER SMALL CAPITAL G WITH HOOK:\u{29B}\n\
LATIN LETTER SMALL CAPITAL H:\u{29C}\n\
LATIN SMALL LETTER J WITH CROSSED-TAIL:\u{29D}\n\
LATIN SMALL LETTER TURNED K:\u{29E}\n\
LATIN LETTER SMALL CAPITAL L:\u{29F}\n\
LATIN SMALL LETTER Q WITH HOOK:\u{2A0}\n\
LATIN LETTER GLOTTAL STOP WITH STROKE:\u{2A1}\n\
LATIN LETTER REVERSED GLOTTAL STOP WITH STROKE:\u{2A2}\n\
LATIN SMALL LETTER DZ DIGRAPH:\u{2A3}\n\
LATIN SMALL LETTER DEZH DIGRAPH:\u{2A4}\n\
LATIN SMALL LETTER DZ DIGRAPH WITH CURL:\u{2A5}\n\
LATIN SMALL LETTER TS DIGRAPH:\u{2A6}\n\
LATIN SMALL LETTER TESH DIGRAPH:\u{2A7}\n\
LATIN SMALL LETTER TC DIGRAPH WITH CURL:\u{2A8}\n\
LATIN SMALL LETTER FENG DIGRAPH:\u{2A9}\n\
LATIN SMALL LETTER LS DIGRAPH:\u{2AA}\n\
LATIN SMALL LETTER LZ DIGRAPH:\u{2AB}\n\
LATIN LETTER BILABIAL PERCUSSIVE:\u{2AC}\n\
LATIN LETTER BIDENTAL PERCUSSIVE:\u{2AD}\n\
LATIN SMALL LETTER TURNED H WITH FISHHOOK:\u{2AE}\n\
LATIN SMALL LETTER TURNED H WITH FISHHOOK AND TAIL:\u{2AF}\n\
MODIFIER LETTER SMALL H:\u{2B0}\n\
MODIFIER LETTER SMALL H WITH HOOK:\u{2B1}\n\
MODIFIER LETTER SMALL J:\u{2B2}\n\
MODIFIER LETTER SMALL R:\u{2B3}\n\
MODIFIER LETTER SMALL TURNED R:\u{2B4}\n\
MODIFIER LETTER SMALL TURNED R WITH HOOK:\u{2B5}\n\
MODIFIER LETTER SMALL CAPITAL INVERTED R:\u{2B6}\n\
MODIFIER LETTER SMALL W:\u{2B7}\n\
MODIFIER LETTER SMALL Y:\u{2B8}\n\
MODIFIER LETTER PRIME:\u{2B9}\n\
MODIFIER LETTER DOUBLE PRIME:\u{2BA}\n\
MODIFIER LETTER TURNED COMMA:\u{2BB}\n\
MODIFIER LETTER APOSTROPHE:\u{2BC}\n\
MODIFIER LETTER REVERSED COMMA:\u{2BD}\n\
MODIFIER LETTER RIGHT HALF RING:\u{2BE}\n\
MODIFIER LETTER LEFT HALF RING:\u{2BF}\n\
MODIFIER LETTER GLOTTAL STOP:\u{2C0}\n\
MODIFIER LETTER REVERSED GLOTTAL STOP:\u{2C1}\n\
MODIFIER LETTER LEFT ARROWHEAD:\u{2C2}\n\
MODIFIER LETTER RIGHT ARROWHEAD:\u{2C3}\n\
MODIFIER LETTER UP ARROWHEAD:\u{2C4}\n\
MODIFIER LETTER DOWN ARROWHEAD:\u{2C5}\n\
MODIFIER LETTER CIRCUMFLEX ACCENT:\u{2C6}\n\
CARON:\u{2C7}\n\
MODIFIER LETTER VERTICAL LINE:\u{2C8}\n\
MODIFIER LETTER MACRON:\u{2C9}\n\
MODIFIER LETTER ACUTE ACCENT:\u{2CA}\n\
MODIFIER LETTER GRAVE ACCENT:\u{2CB}\n\
MODIFIER LETTER LOW VERTICAL LINE:\u{2CC}\n\
MODIFIER LETTER LOW MACRON:\u{2CD}\n\
MODIFIER LETTER LOW GRAVE ACCENT:\u{2CE}\n\
MODIFIER LETTER LOW ACUTE ACCENT:\u{2CF}\n\
MODIFIER LETTER TRIANGULAR COLON:\u{2D0}\n\
MODIFIER LETTER HALF TRIANGULAR COLON:\u{2D1}\n\
MODIFIER LETTER CENTRED RIGHT HALF RING:\u{2D2}\n\
MODIFIER LETTER CENTRED LEFT HALF RING:\u{2D3}\n\
MODIFIER LETTER UP TACK:\u{2D4}\n\
MODIFIER LETTER DOWN TACK:\u{2D5}\n\
MODIFIER LETTER PLUS SIGN:\u{2D6}\n\
MODIFIER LETTER MINUS SIGN:\u{2D7}\n\
BREVE:\u{2D8}\n\
DOT ABOVE:\u{2D9}\n\
RING ABOVE:\u{2DA}\n\
OGONEK:\u{2DB}\n\
SMALL TILDE:\u{2DC}\n\
DOUBLE ACUTE ACCENT:\u{2DD}\n\
MODIFIER LETTER RHOTIC HOOK:\u{2DE}\n\
MODIFIER LETTER CROSS ACCENT:\u{2DF}\n\
MODIFIER LETTER SMALL GAMMA:\u{2E0}\n\
MODIFIER LETTER SMALL L:\u{2E1}\n\
MODIFIER LETTER SMALL S:\u{2E2}\n\
MODIFIER LETTER SMALL X:\u{2E3}\n\
MODIFIER LETTER SMALL REVERSED GLOTTAL STOP:\u{2E4}\n\
MODIFIER LETTER EXTRA-HIGH TONE BAR:\u{2E5}\n\
MODIFIER LETTER HIGH TONE BAR:\u{2E6}\n\
MODIFIER LETTER MID TONE BAR:\u{2E7}\n\
MODIFIER LETTER LOW TONE BAR:\u{2E8}\n\
MODIFIER LETTER EXTRA-LOW TONE BAR:\u{2E9}\n\
MODIFIER LETTER YIN DEPARTING TONE MARK:\u{2EA}\n\
MODIFIER LETTER YANG DEPARTING TONE MARK:\u{2EB}\n\
MODIFIER LETTER VOICING:\u{2EC}\n\
MODIFIER LETTER UNASPIRATED:\u{2ED}\n\
MODIFIER LETTER DOUBLE APOSTROPHE:\u{2EE}\n\
MODIFIER LETTER LOW DOWN ARROWHEAD:\u{2EF}\n\
MODIFIER LETTER LOW UP ARROWHEAD:\u{2F0}\n\
MODIFIER LETTER LOW LEFT ARROWHEAD:\u{2F1}\n\
MODIFIER LETTER LOW RIGHT ARROWHEAD:\u{2F2}\n\
MODIFIER LETTER LOW RING:\u{2F3}\n\
MODIFIER LETTER MIDDLE GRAVE ACCENT:\u{2F4}\n\
MODIFIER LETTER MIDDLE DOUBLE GRAVE ACCENT:\u{2F5}\n\
MODIFIER LETTER MIDDLE DOUBLE ACUTE ACCENT:\u{2F6}\n\
MODIFIER LETTER LOW TILDE:\u{2F7}\n\
MODIFIER LETTER RAISED COLON:\u{2F8}\n\
MODIFIER LETTER BEGIN HIGH TONE:\u{2F9}\n\
MODIFIER LETTER END HIGH TONE:\u{2FA}\n\
MODIFIER LETTER BEGIN LOW TONE:\u{2FB}\n\
MODIFIER LETTER END LOW TONE:\u{2FC}\n\
MODIFIER LETTER SHELF:\u{2FD}\n\
MODIFIER LETTER OPEN SHELF:\u{2FE}\n\
MODIFIER LETTER LOW LEFT ARROW:\u{2FF}\n\
COMBINING GRAVE ACCENT:\u{300}\n\
COMBINING ACUTE ACCENT:\u{301}\n\
COMBINING CIRCUMFLEX ACCENT:\u{302}\n\
COMBINING TILDE:\u{303}\n\
COMBINING MACRON:\u{304}\n\
COMBINING OVERLINE:\u{305}\n\
COMBINING BREVE:\u{306}\n\
COMBINING DOT ABOVE:\u{307}\n\
COMBINING DIAERESIS:\u{308}\n\
COMBINING HOOK ABOVE:\u{309}\n\
COMBINING RING ABOVE:\u{30A}\n\
COMBINING DOUBLE ACUTE ACCENT:\u{30B}\n\
COMBINING CARON:\u{30C}\n\
COMBINING VERTICAL LINE ABOVE:\u{30D}\n\
COMBINING DOUBLE VERTICAL LINE ABOVE:\u{30E}\n\
COMBINING DOUBLE GRAVE ACCENT:\u{30F}\n\
COMBINING CANDRABINDU:\u{310}\n\
COMBINING INVERTED BREVE:\u{311}\n\
COMBINING TURNED COMMA ABOVE:\u{312}\n\
COMBINING COMMA ABOVE:\u{313}\n\
COMBINING REVERSED COMMA ABOVE:\u{314}\n\
COMBINING COMMA ABOVE RIGHT:\u{315}\n\
COMBINING GRAVE ACCENT BELOW:\u{316}\n\
COMBINING ACUTE ACCENT BELOW:\u{317}\n\
COMBINING LEFT TACK BELOW:\u{318}\n\
COMBINING RIGHT TACK BELOW:\u{319}\n\
COMBINING LEFT ANGLE ABOVE:\u{31A}\n\
COMBINING HORN:\u{31B}\n\
COMBINING LEFT HALF RING BELOW:\u{31C}\n\
COMBINING UP TACK BELOW:\u{31D}\n\
COMBINING DOWN TACK BELOW:\u{31E}\n\
COMBINING PLUS SIGN BELOW:\u{31F}\n\
COMBINING MINUS SIGN BELOW:\u{320}\n\
COMBINING PALATALIZED HOOK BELOW:\u{321}\n\
COMBINING RETROFLEX HOOK BELOW:\u{322}\n\
COMBINING DOT BELOW:\u{323}\n\
COMBINING DIAERESIS BELOW:\u{324}\n\
COMBINING RING BELOW:\u{325}\n";

pub const NAMES_02: &'static str = "COMBINING COMMA BELOW:\u{326}\n\
COMBINING CEDILLA:\u{327}\n\
COMBINING OGONEK:\u{328}\n\
COMBINING VERTICAL LINE BELOW:\u{329}\n\
COMBINING BRIDGE BELOW:\u{32A}\n\
COMBINING INVERTED DOUBLE ARCH BELOW:\u{32B}\n\
COMBINING CARON BELOW:\u{32C}\n\
COMBINING CIRCUMFLEX ACCENT BELOW:\u{32D}\n\
COMBINING BREVE BELOW:\u{32E}\n\
COMBINING INVERTED BREVE BELOW:\u{32F}\n\
COMBINING TILDE BELOW:\u{330}\n\
COMBINING MACRON BELOW:\u{331}\n\
COMBINING LOW LINE:\u{332}\n\
COMBINING DOUBLE LOW LINE:\u{333}\n\
COMBINING TILDE OVERLAY:\u{334}\n\
COMBINING SHORT STROKE OVERLAY:\u{335}\n\
COMBINING LONG STROKE OVERLAY:\u{336}\n\
COMBINING SHORT SOLIDUS OVERLAY:\u{337}\n\
COMBINING LONG SOLIDUS OVERLAY:\u{338}\n\
COMBINING RIGHT HALF RING BELOW:\u{339}\n\
COMBINING INVERTED BRIDGE BELOW:\u{33A}\n\
COMBINING SQUARE BELOW:\u{33B}\n\
COMBINING SEAGULL BELOW:\u{33C}\n\
COMBINING X ABOVE:\u{33D}\n\
COMBINING VERTICAL TILDE:\u{33E}\n\
COMBINING DOUBLE OVERLINE:\u{33F}\n\
COMBINING GRAVE TONE MARK:\u{340}\n\
COMBINING ACUTE TONE MARK:\u{341}\n\
COMBINING GREEK PERISPOMENI:\u{342}\n\
COMBINING GREEK KORONIS:\u{343}\n\
COMBINING GREEK DIALYTIKA TONOS:\u{344}\n\
COMBINING GREEK YPOGEGRAMMENI:\u{345}\n\
COMBINING BRIDGE ABOVE:\u{346}\n\
COMBINING EQUALS SIGN BELOW:\u{347}\n\
COMBINING DOUBLE VERTICAL LINE BELOW:\u{348}\n\
COMBINING LEFT ANGLE BELOW:\u{349}\n\
COMBINING NOT TILDE ABOVE:\u{34A}\n\
COMBINING HOMOTHETIC ABOVE:\u{34B}\n\
COMBINING ALMOST EQUAL TO ABOVE:\u{34C}\n\
COMBINING LEFT RIGHT ARROW BELOW:\u{34D}\n\
COMBINING UPWARDS ARROW BELOW:\u{34E}\n\
COMBINING GRAPHEME JOINER:\u{34F}\n\
COMBINING RIGHT ARROWHEAD ABOVE:\u{350}\n\
COMBINING LEFT HALF RING ABOVE:\u{351}\n\
COMBINING FERMATA:\u{352}\n\
COMBINING X BELOW:\u{353}\n\
COMBINING LEFT ARROWHEAD BELOW:\u{354}\n\
COMBINING RIGHT ARROWHEAD BELOW:\u{355}\n\
COMBINING RIGHT ARROWHEAD AND UP ARROWHEAD BELOW:\u{356}\n\
COMBINING RIGHT HALF RING ABOVE:\u{357}\n\
COMBINING DOT ABOVE RIGHT:\u{358}\n\
COMBINING ASTERISK BELOW:\u{359}\n\
COMBINING DOUBLE RING BELOW:\u{35A}\n\
COMBINING ZIGZAG ABOVE:\u{35B}\n\
COMBINING DOUBLE BREVE BELOW:\u{35C}\n\
COMBINING DOUBLE BREVE:\u{35D}\n\
COMBINING DOUBLE MACRON:\u{35E}\n\
COMBINING DOUBLE MACRON BELOW:\u{35F}\n\
COMBINING DOUBLE TILDE:\u{360}\n\
COMBINING DOUBLE INVERTED BREVE:\u{361}\n\
COMBINING DOUBLE RIGHTWARDS ARROW BELOW:\u{362}\n\
COMBINING LATIN SMALL LETTER A:\u{363}\n\
COMBINING LATIN SMALL LETTER E:\u{364}\n\
COMBINING LATIN SMALL LETTER I:\u{365}\n\
COMBINING LATIN SMALL LETTER O:\u{366}\n\
COMBINING LATIN SMALL LETTER U:\u{367}\n\
COMBINING LATIN SMALL LETTER C:\u{368}\n\
COMBINING LATIN SMALL LETTER D:\u{369}\n\
COMBINING LATIN SMALL LETTER H:\u{36A}\n\
COMBINING LATIN SMALL LETTER M:\u{36B}\n\
COMBINING LATIN SMALL LETTER R:\u{36C}\n\
COMBINING LATIN SMALL LETTER T:\u{36D}\n\
COMBINING LATIN SMALL LETTER V:\u{36E}\n\
COMBINING LATIN SMALL LETTER X:\u{36F}\n\
GREEK CAPITAL LETTER HETA:\u{370}\n\
GREEK SMALL LETTER HETA:\u{371}\n\
GREEK CAPITAL LETTER ARCHAIC SAMPI:\u{372}\n\
GREEK SMALL LETTER ARCHAIC SAMPI:\u{373}\n\
GREEK NUMERAL SIGN:\u{374}\n\
GREEK LOWER NUMERAL SIGN:\u{375}\n\
GREEK CAPITAL LETTER PAMPHYLIAN DIGAMMA:\u{376}\n\
GREEK SMALL LETTER PAMPHYLIAN DIGAMMA:\u{377}\n\
GREEK YPOGEGRAMMENI:\u{37A}\n\
GREEK SMALL REVERSED LUNATE SIGMA SYMBOL:\u{37B}\n\
GREEK SMALL DOTTED LUNATE SIGMA SYMBOL:\u{37C}\n\
GREEK SMALL REVERSED DOTTED LUNATE SIGMA SYMBOL:\u{37D}\n\
GREEK QUESTION MARK:\u{37E}\n\
GREEK CAPITAL LETTER YOT:\u{37F}\n\
GREEK TONOS:\u{384}\n\
GREEK DIALYTIKA TONOS:\u{385}\n\
GREEK CAPITAL LETTER ALPHA WITH TONOS:\u{386}\n\
GREEK ANO TELEIA:\u{387}\n\
GREEK CAPITAL LETTER EPSILON WITH TONOS:\u{388}\n\
GREEK CAPITAL LETTER ETA WITH TONOS:\u{389}\n\
GREEK CAPITAL LETTER IOTA WITH TONOS:\u{38A}\n\
GREEK CAPITAL LETTER OMICRON WITH TONOS:\u{38C}\n\
GREEK CAPITAL LETTER UPSILON WITH TONOS:\u{38E}\n\
GREEK CAPITAL LETTER OMEGA WITH TONOS:\u{38F}\n\
GREEK SMALL LETTER IOTA WITH DIALYTIKA AND TONOS:\u{390}\n\
GREEK CAPITAL LETTER ALPHA:\u{391}\n\
GREEK CAPITAL LETTER BETA:\u{392}\n\
GREEK CAPITAL LETTER GAMMA:\u{393}\n\
GREEK CAPITAL LETTER DELTA:\u{394}\n\
GREEK CAPITAL LETTER EPSILON:\u{395}\n\
GREEK CAPITAL LETTER ZETA:\u{396}\n\
GREEK CAPITAL LETTER ETA:\u{397}\n\
GREEK CAPITAL LETTER THETA:\u{398}\n\
GREEK CAPITAL LETTER IOTA:\u{399}\n\
GREEK CAPITAL LETTER KAPPA:\u{39A}\n\
GREEK CAPITAL LETTER LAMDA:\u{39B}\n\
GREEK CAPITAL LETTER MU:\u{39C}\n\
GREEK CAPITAL LETTER NU:\u{39D}\n\
GREEK CAPITAL LETTER XI:\u{39E}\n\
GREEK CAPITAL LETTER OMICRON:\u{39F}\n\
GREEK CAPITAL LETTER PI:\u{3A0}\n\
GREEK CAPITAL LETTER RHO:\u{3A1}\n\
GREEK CAPITAL LETTER SIGMA:\u{3A3}\n\
GREEK CAPITAL LETTER TAU:\u{3A4}\n\
GREEK CAPITAL LETTER UPSILON:\u{3A5}\n\
GREEK CAPITAL LETTER PHI:\u{3A6}\n\
GREEK CAPITAL LETTER CHI:\u{3A7}\n\
GREEK CAPITAL LETTER PSI:\u{3A8}\n\
GREEK CAPITAL LETTER OMEGA:\u{3A9}\n\
GREEK CAPITAL LETTER IOTA WITH DIALYTIKA:\u{3AA}\n\
GREEK CAPITAL LETTER UPSILON WITH DIALYTIKA:\u{3AB}\n\
GREEK SMALL LETTER ALPHA WITH TONOS:\u{3AC}\n\
GREEK SMALL LETTER EPSILON WITH TONOS:\u{3AD}\n\
GREEK SMALL LETTER ETA WITH TONOS:\u{3AE}\n\
GREEK SMALL LETTER IOTA WITH TONOS:\u{3AF}\n\
GREEK SMALL LETTER UPSILON WITH DIALYTIKA AND TONOS:\u{3B0}\n\
GREEK SMALL LETTER ALPHA:\u{3B1}\n\
GREEK SMALL LETTER BETA:\u{3B2}\n\
GREEK SMALL LETTER GAMMA:\u{3B3}\n\
GREEK SMALL LETTER DELTA:\u{3B4}\n\
GREEK SMALL LETTER EPSILON:\u{3B5}\n\
GREEK SMALL LETTER ZETA:\u{3B6}\n\
GREEK SMALL LETTER ETA:\u{3B7}\n\
GREEK SMALL LETTER THETA:\u{3B8}\n\
GREEK SMALL LETTER IOTA:\u{3B9}\n\
GREEK SMALL LETTER KAPPA:\u{3BA}\n\
GREEK SMALL LETTER LAMDA:\u{3BB}\n\
GREEK SMALL LETTER MU:\u{3BC}\n\
GREEK SMALL LETTER NU:\u{3BD}\n\
GREEK SMALL LETTER XI:\u{3BE}\n\
GREEK SMALL LETTER OMICRON:\u{3BF}\n\
GREEK SMALL LETTER PI:\u{3C0}\n\
GREEK SMALL LETTER RHO:\u{3C1}\n\
GREEK SMALL LETTER FINAL SIGMA:\u{3C2}\n\
GREEK SMALL LETTER SIGMA:\u{3C3}\n\
GREEK SMALL LETTER TAU:\u{3C4}\n\
GREEK SMALL LETTER UPSILON:\u{3C5}\n\
GREEK SMALL LETTER PHI:\u{3C6}\n\
GREEK SMALL LETTER CHI:\u{3C7}\n\
GREEK SMALL LETTER PSI:\u{3C8}\n\
GREEK SMALL LETTER OMEGA:\u{3C9}\n\
GREEK SMALL LETTER IOTA WITH DIALYTIKA:\u{3CA}\n\
GREEK SMALL LETTER UPSILON WITH DIALYTIKA:\u{3CB}\n\
GREEK SMALL LETTER OMICRON WITH TONOS:\u{3CC}\n\
GREEK SMALL LETTER UPSILON WITH TONOS:\u{3CD}\n\
GREEK SMALL LETTER OMEGA WITH TONOS:\u{3CE}\n\
GREEK CAPITAL KAI SYMBOL:\u{3CF}\n\
GREEK BETA SYMBOL:\u{3D0}\n\
GREEK THETA SYMBOL:\u{3D1}\n\
GREEK UPSILON WITH HOOK SYMBOL:\u{3D2}\n\
GREEK UPSILON WITH ACUTE AND HOOK SYMBOL:\u{3D3}\n\
GREEK UPSILON WITH DIAERESIS AND HOOK SYMBOL:\u{3D4}\n\
GREEK PHI SYMBOL:\u{3D5}\n\
GREEK PI SYMBOL:\u{3D6}\n\
GREEK KAI SYMBOL:\u{3D7}\n\
GREEK LETTER ARCHAIC KOPPA:\u{3D8}\n\
GREEK SMALL LETTER ARCHAIC KOPPA:\u{3D9}\n\
GREEK LETTER STIGMA:\u{3DA}\n\
GREEK SMALL LETTER STIGMA:\u{3DB}\n\
GREEK LETTER DIGAMMA:\u{3DC}\n\
GREEK SMALL LETTER DIGAMMA:\u{3DD}\n\
GREEK LETTER KOPPA:\u{3DE}\n\
GREEK SMALL LETTER KOPPA:\u{3DF}\n\
GREEK LETTER SAMPI:\u{3E0}\n\
GREEK SMALL LETTER SAMPI:\u{3E1}\n\
COPTIC CAPITAL LETTER SHEI:\u{3E2}\n\
COPTIC SMALL LETTER SHEI:\u{3E3}\n\
COPTIC CAPITAL LETTER FEI:\u{3E4}\n\
COPTIC SMALL LETTER FEI:\u{3E5}\n\
COPTIC CAPITAL LETTER KHEI:\u{3E6}\n\
COPTIC SMALL LETTER KHEI:\u{3E7}\n\
COPTIC CAPITAL LETTER HORI:\u{3E8}\n\
COPTIC SMALL LETTER HORI:\u{3E9}\n\
COPTIC CAPITAL LETTER GANGIA:\u{3EA}\n\
COPTIC SMALL LETTER GANGIA:\u{3EB}\n\
COPTIC CAPITAL LETTER SHIMA:\u{3EC}\n\
COPTIC SMALL LETTER SHIMA:\u{3ED}\n\
COPTIC CAPITAL LETTER DEI:\u{3EE}\n\
COPTIC SMALL LETTER DEI:\u{3EF}\n\
GREEK KAPPA SYMBOL:\u{3F0}\n\
GREEK RHO SYMBOL:\u{3F1}\n\
GREEK LUNATE SIGMA SYMBOL:\u{3F2}\n\
GREEK LETTER YOT:\u{3F3}\n\
GREEK CAPITAL THETA SYMBOL:\u{3F4}\n\
GREEK LUNATE EPSILON SYMBOL:\u{3F5}\n\
GREEK REVERSED LUNATE EPSILON SYMBOL:\u{3F6}\n\
GREEK CAPITAL LETTER SHO:\u{3F7}\n\
GREEK SMALL LETTER SHO:\u{3F8}\n\
GREEK CAPITAL LUNATE SIGMA SYMBOL:\u{3F9}\n\
GREEK CAPITAL LETTER SAN:\u{3FA}\n\
GREEK SMALL LETTER SAN:\u{3FB}\n\
GREEK RHO WITH STROKE SYMBOL:\u{3FC}\n\
GREEK CAPITAL REVERSED LUNATE SIGMA SYMBOL:\u{3FD}\n\
GREEK CAPITAL DOTTED LUNATE SIGMA SYMBOL:\u{3FE}\n\
GREEK CAPITAL REVERSED DOTTED LUNATE SIGMA SYMBOL:\u{3FF}\n\
CYRILLIC CAPITAL LETTER IE WITH GRAVE:\u{400}\n\
CYRILLIC CAPITAL LETTER IO:\u{401}\n\
CYRILLIC CAPITAL LETTER DJE:\u{402}\n\
CYRILLIC CAPITAL LETTER GJE:\u{403}\n\
CYRILLIC CAPITAL LETTER UKRAINIAN IE:\u{404}\n\
CYRILLIC CAPITAL LETTER DZE:\u{405}\n\
CYRILLIC CAPITAL LETTER BYELORUSSIAN-UKRAINIAN I:\u{406}\n\
CYRILLIC CAPITAL LETTER YI:\u{407}\n\
CYRILLIC CAPITAL LETTER JE:\u{408}\n\
CYRILLIC CAPITAL LETTER LJE:\u{409}\n\
CYRILLIC CAPITAL LETTER NJE:\u{40A}\n\
CYRILLIC CAPITAL LETTER TSHE:\u{40B}\n\
CYRILLIC CAPITAL LETTER KJE:\u{40C}\n\
CYRILLIC CAPITAL LETTER I WITH GRAVE:\u{40D}\n\
CYRILLIC CAPITAL LETTER SHORT U:\u{40E}\n\
CYRILLIC CAPITAL LETTER DZHE:\u{40F}\n\
CYRILLIC CAPITAL LETTER A:\u{410}\n\
CYRILLIC CAPITAL LETTER BE:\u{411}\n\
CYRILLIC CAPITAL LETTER VE:\u{412}\n\
CYRILLIC CAPITAL LETTER GHE:\u{413}\n\
CYRILLIC CAPITAL LETTER DE:\u{414}\n\
CYRILLIC CAPITAL LETTER IE:\u{415}\n\
CYRILLIC CAPITAL LETTER ZHE:\u{416}\n\
CYRILLIC CAPITAL LETTER ZE:\u{417}\n\
CYRILLIC CAPITAL LETTER I:\u{418}\n\
CYRILLIC CAPITAL LETTER SHORT I:\u{419}\n\
CYRILLIC CAPITAL LETTER KA:\u{41A}\n\
CYRILLIC CAPITAL LETTER EL:\u{41B}\n\
CYRILLIC CAPITAL LETTER EM:\u{41C}\n\
CYRILLIC CAPITAL LETTER EN:\u{41D}\n\
CYRILLIC CAPITAL LETTER O:\u{41E}\n\
CYRILLIC CAPITAL LETTER PE:\u{41F}\n\
CYRILLIC CAPITAL LETTER ER:\u{420}\n\
CYRILLIC CAPITAL LETTER ES:\u{421}\n\
CYRILLIC CAPITAL LETTER TE:\u{422}\n\
CYRILLIC CAPITAL LETTER U:\u{423}\n\
CYRILLIC CAPITAL LETTER EF:\u{424}\n\
CYRILLIC CAPITAL LETTER HA:\u{425}\n\
CYRILLIC CAPITAL LETTER TSE:\u{426}\n\
CYRILLIC CAPITAL LETTER CHE:\u{427}\n\
CYRILLIC CAPITAL LETTER SHA:\u{428}\n\
CYRILLIC CAPITAL LETTER SHCHA:\u{429}\n\
CYRILLIC CAPITAL LETTER HARD SIGN:\u{42A}\n\
CYRILLIC CAPITAL LETTER YERU:\u{42B}\n\
CYRILLIC CAPITAL LETTER SOFT SIGN:\u{42C}\n\
CYRILLIC CAPITAL LETTER E:\u{42D}\n\
CYRILLIC CAPITAL LETTER YU:\u{42E}\n\
CYRILLIC CAPITAL LETTER YA:\u{42F}\n\
CYRILLIC SMALL LETTER A:\u{430}\n\
CYRILLIC SMALL LETTER BE:\u{431}\n\
CYRILLIC SMALL LETTER VE:\u{432}\n\
CYRILLIC SMALL LETTER GHE:\u{433}\n\
CYRILLIC SMALL LETTER DE:\u{434}\n\
CYRILLIC SMALL LETTER IE:\u{435}\n\
CYRILLIC SMALL LETTER ZHE:\u{436}\n\
CYRILLIC SMALL LETTER ZE:\u{437}\n\
CYRILLIC SMALL LETTER I:\u{438}\n\
CYRILLIC SMALL LETTER SHORT I:\u{439}\n\
CYRILLIC SMALL LETTER KA:\u{43A}\n\
CYRILLIC SMALL LETTER EL:\u{43B}\n\
CYRILLIC SMALL LETTER EM:\u{43C}\n\
CYRILLIC SMALL LETTER EN:\u{43D}\n\
CYRILLIC SMALL LETTER O:\u{43E}\n\
CYRILLIC SMALL LETTER PE:\u{43F}\n\
CYRILLIC SMALL LETTER ER:\u{440}\n\
CYRILLIC SMALL LETTER ES:\u{441}\n\
CYRILLIC SMALL LETTER TE:\u{442}\n\
CYRILLIC SMALL LETTER U:\u{443}\n\
CYRILLIC SMALL LETTER EF:\u{444}\n\
CYRILLIC SMALL LETTER HA:\u{445}\n\
CYRILLIC SMALL LETTER TSE:\u{446}\n\
CYRILLIC SMALL LETTER CHE:\u{447}\n\
CYRILLIC SMALL LETTER SHA:\u{448}\n\
CYRILLIC SMALL LETTER SHCHA:\u{449}\n\
CYRILLIC SMALL LETTER HARD SIGN:\u{44A}\n\
CYRILLIC SMALL LETTER YERU:\u{44B}\n\
CYRILLIC SMALL LETTER SOFT SIGN:\u{44C}\n\
CYRILLIC SMALL LETTER E:\u{44D}\n\
CYRILLIC SMALL LETTER YU:\u{44E}\n\
CYRILLIC SMALL LETTER YA:\u{44F}\n\
CYRILLIC SMALL LETTER IE WITH GRAVE:\u{450}\n\
CYRILLIC SMALL LETTER IO:\u{451}\n\
CYRILLIC SMALL LETTER DJE:\u{452}\n\
CYRILLIC SMALL LETTER GJE:\u{453}\n\
CYRILLIC SMALL LETTER UKRAINIAN IE:\u{454}\n\
CYRILLIC SMALL LETTER DZE:\u{455}\n\
CYRILLIC SMALL LETTER BYELORUSSIAN-UKRAINIAN I:\u{456}\n\
CYRILLIC SMALL LETTER YI:\u{457}\n\
CYRILLIC SMALL LETTER JE:\u{458}\n\
CYRILLIC SMALL LETTER LJE:\u{459}\n\
CYRILLIC SMALL LETTER NJE:\u{45A}\n\
CYRILLIC SMALL LETTER TSHE:\u{45B}\n\
CYRILLIC SMALL LETTER KJE:\u{45C}\n\
CYRILLIC SMALL LETTER I WITH GRAVE:\u{45D}\n\
CYRILLIC SMALL LETTER SHORT U:\u{45E}\n\
CYRILLIC SMALL LETTER DZHE:\u{45F}\n\
CYRILLIC CAPITAL LETTER OMEGA:\u{460}\n\
CYRILLIC SMALL LETTER OMEGA:\u{461}\n\
CYRILLIC CAPITAL LETTER YAT:\u{462}\n\
CYRILLIC SMALL LETTER YAT:\u{463}\n\
CYRILLIC CAPITAL LETTER IOTIFIED E:\u{464}\n\
CYRILLIC SMALL LETTER IOTIFIED E:\u{465}\n\
CYRILLIC CAPITAL LETTER LITTLE YUS:\u{466}\n\
CYRILLIC SMALL LETTER LITTLE YUS:\u{467}\n\
CYRILLIC CAPITAL LETTER IOTIFIED LITTLE YUS:\u{468}\n\
CYRILLIC SMALL LETTER IOTIFIED LITTLE YUS:\u{469}\n\
CYRILLIC CAPITAL LETTER BIG YUS:\u{46A}\n\
CYRILLIC SMALL LETTER BIG YUS:\u{46B}\n\
CYRILLIC CAPITAL LETTER IOTIFIED BIG YUS:\u{46C}\n\
CYRILLIC SMALL LETTER IOTIFIED BIG YUS:\u{46D}\n\
CYRILLIC CAPITAL LETTER KSI:\u{46E}\n\
CYRILLIC SMALL LETTER KSI:\u{46F}\n\
CYRILLIC CAPITAL LETTER PSI:\u{470}\n\
CYRILLIC SMALL LETTER PSI:\u{471}\n\
CYRILLIC CAPITAL LETTER FITA:\u{472}\n\
CYRILLIC SMALL LETTER FITA:\u{473}\n\
CYRILLIC CAPITAL LETTER IZHITSA:\u{474}\n\
CYRILLIC SMALL LETTER IZHITSA:\u{475}\n\
CYRILLIC CAPITAL LETTER IZHITSA WITH DOUBLE GRAVE ACCENT:\u{476}\n\
CYRILLIC SMALL LETTER IZHITSA WITH DOUBLE GRAVE ACCENT:\u{477}\n\
CYRILLIC CAPITAL LETTER UK:\u{478}\n\
CYRILLIC SMALL LETTER UK:\u{479}\n\
CYRILLIC CAPITAL LETTER ROUND OMEGA:\u{47A}\n\
CYRILLIC SMALL LETTER ROUND OMEGA:\u{47B}\n\
CYRILLIC CAPITAL LETTER OMEGA WITH TITLO:\u{47C}\n\
CYRILLIC SMALL LETTER OMEGA WITH TITLO:\u{47D}\n\
CYRILLIC CAPITAL LETTER OT:\u{47E}\n\
CYRILLIC SMALL LETTER OT:\u{47F}\n\
CYRILLIC CAPITAL LETTER KOPPA:\u{480}\n\
CYRILLIC SMALL LETTER KOPPA:\u{481}\n\
CYRILLIC THOUSANDS SIGN:\u{482}\n\
COMBINING CYRILLIC TITLO:\u{483}\n\
COMBINING CYRILLIC PALATALIZATION:\u{484}\n\
COMBINING CYRILLIC DASIA PNEUMATA:\u{485}\n\
COMBINING CYRILLIC PSILI PNEUMATA:\u{486}\n\
COMBINING CYRILLIC POKRYTIE:\u{487}\n\
COMBINING CYRILLIC HUNDRED THOUSANDS SIGN:\u{488}\n\
COMBINING CYRILLIC MILLIONS SIGN:\u{489}\n\
CYRILLIC CAPITAL LETTER SHORT I WITH TAIL:\u{48A}\n\
CYRILLIC SMALL LETTER SHORT I WITH TAIL:\u{48B}\n\
CYRILLIC CAPITAL LETTER SEMISOFT SIGN:\u{48C}\n\
CYRILLIC SMALL LETTER SEMISOFT SIGN:\u{48D}\n\
CYRILLIC CAPITAL LETTER ER WITH TICK:\u{48E}\n\
CYRILLIC SMALL LETTER ER WITH TICK:\u{48F}\n\
CYRILLIC CAPITAL LETTER GHE WITH UPTURN:\u{490}\n\
CYRILLIC SMALL LETTER GHE WITH UPTURN:\u{491}\n\
CYRILLIC CAPITAL LETTER GHE WITH STROKE:\u{492}\n\
CYRILLIC SMALL LETTER GHE WITH STROKE:\u{493}\n\
CYRILLIC CAPITAL LETTER GHE WITH MIDDLE HOOK:\u{494}\n\
CYRILLIC SMALL LETTER GHE WITH MIDDLE HOOK:\u{495}\n\
CYRILLIC CAPITAL LETTER ZHE WITH DESCENDER:\u{496}\n\
CYRILLIC SMALL LETTER ZHE WITH DESCENDER:\u{497}\n\
CYRILLIC CAPITAL LETTER ZE WITH DESCENDER:\u{498}\n\
CYRILLIC SMALL LETTER ZE WITH DESCENDER:\u{499}\n\
CYRILLIC CAPITAL LETTER KA WITH DESCENDER:\u{49A}\n\
CYRILLIC SMALL LETTER KA WITH DESCENDER:\u{49B}\n\
CYRILLIC CAPITAL LETTER KA WITH VERTICAL STROKE:\u{49C}\n\
CYRILLIC SMALL LETTER KA WITH VERTICAL STROKE:\u{49D}\n\
CYRILLIC CAPITAL LETTER KA WITH STROKE:\u{49E}\n\
CYRILLIC SMALL LETTER KA WITH STROKE:\u{49F}\n\
CYRILLIC CAPITAL LETTER BASHKIR KA:\u{4A0}\n\
CYRILLIC SMALL LETTER BASHKIR KA:\u{4A1}\n";

pub const NAMES_03: &'static str = "CYRILLIC CAPITAL LETTER EN WITH DESCENDER:\u{4A2}\n\
CYRILLIC SMALL LETTER EN WITH DESCENDER:\u{4A3}\n\
CYRILLIC CAPITAL LIGATURE EN GHE:\u{4A4}\n\
CYRILLIC SMALL LIGATURE EN GHE:\u{4A5}\n\
CYRILLIC CAPITAL LETTER PE WITH MIDDLE HOOK:\u{4A6}\n\
CYRILLIC SMALL LETTER PE WITH MIDDLE HOOK:\u{4A7}\n\
CYRILLIC CAPITAL LETTER ABKHASIAN HA:\u{4A8}\n\
CYRILLIC SMALL LETTER ABKHASIAN HA:\u{4A9}\n\
CYRILLIC CAPITAL LETTER ES WITH DESCENDER:\u{4AA}\n\
CYRILLIC SMALL LETTER ES WITH DESCENDER:\u{4AB}\n\
CYRILLIC CAPITAL LETTER TE WITH DESCENDER:\u{4AC}\n\
CYRILLIC SMALL LETTER TE WITH DESCENDER:\u{4AD}\n\
CYRILLIC CAPITAL LETTER STRAIGHT U:\u{4AE}\n\
CYRILLIC SMALL LETTER STRAIGHT U:\u{4AF}\n\
CYRILLIC CAPITAL LETTER STRAIGHT U WITH STROKE:\u{4B0}\n\
CYRILLIC SMALL LETTER STRAIGHT U WITH STROKE:\u{4B1}\n\
CYRILLIC CAPITAL LETTER HA WITH DESCENDER:\u{4B2}\n\
CYRILLIC SMALL LETTER HA WITH DESCENDER:\u{4B3}\n\
CYRILLIC CAPITAL LIGATURE TE TSE:\u{4B4}\n\
CYRILLIC SMALL LIGATURE TE TSE:\u{4B5}\n\
CYRILLIC CAPITAL LETTER CHE WITH DESCENDER:\u{4B6}\n\
CYRILLIC SMALL LETTER CHE WITH DESCENDER:\u{4B7}\n\
CYRILLIC CAPITAL LETTER CHE WITH VERTICAL STROKE:\u{4B8}\n\
CYRILLIC SMALL LETTER CHE WITH VERTICAL STROKE:\u{4B9}\n\
CYRILLIC CAPITAL LETTER SHHA:\u{4BA}\n\
CYRILLIC SMALL LETTER SHHA:\u{4BB}\n\
CYRILLIC CAPITAL LETTER ABKHASIAN CHE:\u{4BC}\n\
CYRILLIC SMALL LETTER ABKHASIAN CHE:\u{4BD}\n\
CYRILLIC CAPITAL LETTER ABKHASIAN CHE WITH DESCENDER:\u{4BE}\n\
CYRILLIC SMALL LETTER ABKHASIAN CHE WITH DESCENDER:\u{4BF}\n\
CYRILLIC LETTER PALOCHKA:\u{4C0}\n\
CYRILLIC CAPITAL LETTER ZHE WITH BREVE:\u{4C1}\n\
CYRILLIC SMALL LETTER ZHE WITH BREVE:\u{4C2}\n\
CYRILLIC CAPITAL LETTER KA WITH HOOK:\u{4C3}\n\
CYRILLIC SMALL LETTER KA WITH HOOK:\u{4C4}\n\
CYRILLIC CAPITAL LETTER EL WITH TAIL:\u{4C5}\n\
CYRILLIC SMALL LETTER EL WITH TAIL:\u{4C6}\n\
CYRILLIC CAPITAL LETTER EN WITH HOOK:\u{4C7}\n\
CYRILLIC SMALL LETTER EN WITH HOOK:\u{4C8}\n\
CYRILLIC CAPITAL LETTER EN WITH TAIL:\u{4C9}\n\
CYRILLIC SMALL LETTER EN WITH TAIL:\u{4CA}\n\
CYRILLIC CAPITAL LETTER KHAKASSIAN CHE:\u{4CB}\n\
CYRILLIC SMALL LETTER KHAKASSIAN CHE:\u{4CC}\n\
CYRILLIC CAPITAL LETTER EM WITH TAIL:\u{4CD}\n\
CYRILLIC SMALL LETTER EM WITH TAIL:\u{4CE}\n\
CYRILLIC SMALL LETTER PALOCHKA:\u{4CF}\n\
CYRILLIC CAPITAL LETTER A WITH BREVE:\u{4D0}\n\
CYRILLIC SMALL LETTER A WITH BREVE:\u{4D1}\n\
CYRILLIC CAPITAL LETTER A WITH DIAERESIS:\u{4D2}\n\
CYRILLIC SMALL LETTER A WITH DIAERESIS:\u{4D3}\n\
CYRILLIC CAPITAL LIGATURE A IE:\u{4D4}\n\
CYRILLIC SMALL LIGATURE A IE:\u{4D5}\n\
CYRILLIC CAPITAL LETTER IE WITH BREVE:\u{4D6}\n\
CYRILLIC SMALL LETTER IE WITH BREVE:\u{4D7}\n\
CYRILLIC CAPITAL LETTER SCHWA:\u{4D8}\n\
CYRILLIC SMALL LETTER SCHWA:\u{4D9}\n\
CYRILLIC CAPITAL LETTER SCHWA WITH DIAERESIS:\u{4DA}\n\
CYRILLIC SMALL LETTER SCHWA WITH DIAERESIS:\u{4DB}\n\
CYRILLIC CAPITAL LETTER ZHE WITH DIAERESIS:\u{4DC}\n\
CYRILLIC SMALL LETTER ZHE WITH DIAERESIS:\u{4DD}\n\
CYRILLIC CAPITAL LETTER ZE WITH DIAERESIS:\u{4DE}\n\
CYRILLIC SMALL LETTER ZE WITH DIAERESIS:\u{4DF}\n\
CYRILLIC CAPITAL LETTER ABKHASIAN DZE:\u{4E0}\n\
CYRILLIC SMALL LETTER ABKHASIAN DZE:\u{4E1}\n\
CYRILLIC CAPITAL LETTER I WITH MACRON:\u{4E2}\n\
CYRILLIC SMALL LETTER I WITH MACRON:\u{4E3}\n\
CYRILLIC CAPITAL LETTER I WITH DIAERESIS:\u{4E4}\n\
CYRILLIC SMALL LETTER I WITH DIAERESIS:\u{4E5}\n\
CYRILLIC CAPITAL LETTER O WITH DIAERESIS:\u{4E6}\n\
CYRILLIC SMALL LETTER O WITH DIAERESIS:\u{4E7}\n\
CYRILLIC CAPITAL LETTER BARRED O:\u{4E8}\n\
CYRILLIC SMALL LETTER BARRED O:\u{4E9}\n\
CYRILLIC CAPITAL LETTER BARRED O WITH DIAERESIS:\u{4EA}\n\
CYRILLIC SMALL LETTER BARRED O WITH DIAERESIS:\u{4EB}\n\
CYRILLIC CAPITAL LETTER E WITH DIAERESIS:\u{4EC}\n\
CYRILLIC SMALL LETTER E WITH DIAERESIS:\u{4ED}\n\
CYRILLIC CAPITAL LETTER U WITH MACRON:\u{4EE}\n\
CYRILLIC SMALL LETTER U WITH MACRON:\u{4EF}\n\
CYRILLIC CAPITAL LETTER U WITH DIAERESIS:\u{4F0}\n\
CYRILLIC SMALL LETTER U WITH DIAERESIS:\u{4F1}\n\
CYRILLIC CAPITAL LETTER U WITH DOUBLE ACUTE:\u{4F2}\n\
CYRILLIC SMALL LETTER U WITH DOUBLE ACUTE:\u{4F3}\n\
CYRILLIC CAPITAL LETTER CHE WITH DIAERESIS:\u{4F4}\n\
CYRILLIC SMALL LETTER CHE WITH DIAERESIS:\u{4F5}\n\
CYRILLIC CAPITAL LETTER GHE WITH DESCENDER:\u{4F6}\n\
CYRILLIC SMALL LETTER GHE WITH DESCENDER:\u{4F7}\n\
CYRILLIC CAPITAL LETTER YERU WITH DIAERESIS:\u{4F8}\n\
CYRILLIC SMALL LETTER YERU WITH DIAERESIS:\u{4F9}\n\
CYRILLIC CAPITAL LETTER GHE WITH STROKE AND HOOK:\u{4FA}\n\
CYRILLIC SMALL LETTER GHE WITH STROKE AND HOOK:\u{4FB}\n\
CYRILLIC CAPITAL LETTER HA WITH HOOK:\u{4FC}\n\
CYRILLIC SMALL LETTER HA WITH HOOK:\u{4FD}\n\
CYRILLIC CAPITAL LETTER HA WITH STROKE:\u{4FE}\n\
CYRILLIC SMALL LETTER HA WITH STROKE:\u{4FF}\n\
CYRILLIC CAPITAL LETTER KOMI DE:\u{500}\n\
CYRILLIC SMALL LETTER KOMI DE:\u{501}\n\
CYRILLIC CAPITAL LETTER KOMI DJE:\u{502}\n\
CYRILLIC SMALL LETTER KOMI DJE:\u{503}\n\
CYRILLIC CAPITAL LETTER KOMI ZJE:\u{504}\n\
CYRILLIC SMALL LETTER KOMI ZJE:\u{505}\n\
CYRILLIC CAPITAL LETTER KOMI DZJE:\u{506}\n\
CYRILLIC SMALL LETTER KOMI DZJE:\u{507}\n\
CYRILLIC CAPITAL LETTER KOMI LJE:\u{508}\n\
CYRILLIC SMALL LETTER KOMI LJE:\u{509}\n\
CYRILLIC CAPITAL LETTER KOMI NJE:\u{50A}\n\
CYRILLIC SMALL LETTER KOMI NJE:\u{50B}\n\
CYRILLIC CAPITAL LETTER KOMI SJE:\u{50C}\n\
CYRILLIC SMALL LETTER KOMI SJE:\u{50D}\n\
CYRILLIC CAPITAL LETTER KOMI TJE:\u{50E}\n\
CYRILLIC SMALL LETTER KOMI TJE:\u{50F}\n\
CYRILLIC CAPITAL LETTER REVERSED ZE:\u{510}\n\
CYRILLIC SMALL LETTER REVERSED ZE:\u{511}\n\
CYRILLIC CAPITAL LETTER EL WITH HOOK:\u{512}\n\
CYRILLIC SMALL LETTER EL WITH HOOK:\u{513}\n\
CYRILLIC CAPITAL LETTER LHA:\u{514}\n\
CYRILLIC SMALL LETTER LHA:\u{515}\n\
CYRILLIC CAPITAL LETTER RHA:\u{516}\n\
CYRILLIC SMALL LETTER RHA:\u{517}\n\
CYRILLIC CAPITAL LETTER YAE:\u{518}\n\
CYRILLIC SMALL LETTER YAE:\u{519}\n\
CYRILLIC CAPITAL LETTER QA:\u{51A}\n\
CYRILLIC SMALL LETTER QA:\u{51B}\n\
CYRILLIC CAPITAL LETTER WE:\u{51C}\n\
CYRILLIC SMALL LETTER WE:\u{51D}\n\
CYRILLIC CAPITAL LETTER ALEUT KA:\u{51E}\n\
CYRILLIC SMALL LETTER ALEUT KA:\u{51F}\n\
CYRILLIC CAPITAL LETTER EL WITH MIDDLE HOOK:\u{520}\n\
CYRILLIC SMALL LETTER EL WITH MIDDLE HOOK:\u{521}\n\
CYRILLIC CAPITAL LETTER EN WITH MIDDLE HOOK:\u{522}\n\
CYRILLIC SMALL LETTER EN WITH MIDDLE HOOK:\u{523}\n\
CYRILLIC CAPITAL LETTER PE WITH DESCENDER:\u{524}\n\
CYRILLIC SMALL LETTER PE WITH DESCENDER:\u{525}\n\
CYRILLIC CAPITAL LETTER SHHA WITH DESCENDER:\u{526}\n\
CYRILLIC SMALL LETTER SHHA WITH DESCENDER:\u{527}\n\
CYRILLIC CAPITAL LETTER EN WITH LEFT HOOK:\u{528}\n\
CYRILLIC SMALL LETTER EN WITH LEFT HOOK:\u{529}\n\
CYRILLIC CAPITAL LETTER DZZHE:\u{52A}\n\
CYRILLIC SMALL LETTER DZZHE:\u{52B}\n\
CYRILLIC CAPITAL LETTER DCHE:\u{52C}\n\
CYRILLIC SMALL LETTER DCHE:\u{52D}\n\
CYRILLIC CAPITAL LETTER EL WITH DESCENDER:\u{52E}\n\
CYRILLIC SMALL LETTER EL WITH DESCENDER:\u{52F}\n\
ARMENIAN CAPITAL LETTER AYB:\u{531}\n\
ARMENIAN CAPITAL LETTER BEN:\u{532}\n\
ARMENIAN CAPITAL LETTER GIM:\u{533}\n\
ARMENIAN CAPITAL LETTER DA:\u{534}\n\
ARMENIAN CAPITAL LETTER ECH:\u{535}\n\
ARMENIAN CAPITAL LETTER ZA:\u{536}\n\
ARMENIAN CAPITAL LETTER EH:\u{537}\n\
ARMENIAN CAPITAL LETTER ET:\u{538}\n\
ARMENIAN CAPITAL LETTER TO:\u{539}\n\
ARMENIAN CAPITAL LETTER ZHE:\u{53A}\n\
ARMENIAN CAPITAL LETTER INI:\u{53B}\n\
ARMENIAN CAPITAL LETTER LIWN:\u{53C}\n\
ARMENIAN CAPITAL LETTER XEH:\u{53D}\n\
ARMENIAN CAPITAL LETTER CA:\u{53E}\n\
ARMENIAN CAPITAL LETTER KEN:\u{53F}\n\
ARMENIAN CAPITAL LETTER HO:\u{540}\n\
ARMENIAN CAPITAL LETTER JA:\u{541}\n\
ARMENIAN CAPITAL LETTER GHAD:\u{542}\n\
ARMENIAN CAPITAL LETTER CHEH:\u{543}\n\
ARMENIAN CAPITAL LETTER MEN:\u{544}\n\
ARMENIAN CAPITAL LETTER YI:\u{545}\n\
ARMENIAN CAPITAL LETTER NOW:\u{546}\n\
ARMENIAN CAPITAL LETTER SHA:\u{547}\n\
ARMENIAN CAPITAL LETTER VO:\u{548}\n\
ARMENIAN CAPITAL LETTER CHA:\u{549}\n\
ARMENIAN CAPITAL LETTER PEH:\u{54A}\n\
ARMENIAN CAPITAL LETTER JHEH:\u{54B}\n\
ARMENIAN CAPITAL LETTER RA:\u{54C}\n\
ARMENIAN CAPITAL LETTER SEH:\u{54D}\n\
ARMENIAN CAPITAL LETTER VEW:\u{54E}\n\
ARMENIAN CAPITAL LETTER TIWN:\u{54F}\n\
ARMENIAN CAPITAL LETTER REH:\u{550}\n\
ARMENIAN CAPITAL LETTER CO:\u{551}\n\
ARMENIAN CAPITAL LETTER YIWN:\u{552}\n\
ARMENIAN CAPITAL LETTER PIWR:\u{553}\n\
ARMENIAN CAPITAL LETTER KEH:\u{554}\n\
ARMENIAN CAPITAL LETTER OH:\u{555}\n\
ARMENIAN CAPITAL LETTER FEH:\u{556}\n\
ARMENIAN MODIFIER LETTER LEFT HALF RING:\u{559}\n\
ARMENIAN APOSTROPHE:\u{55A}\n\
ARMENIAN EMPHASIS MARK:\u{55B}\n\
ARMENIAN EXCLAMATION MARK:\u{55C}\n\
ARMENIAN COMMA:\u{55D}\n\
ARMENIAN QUESTION MARK:\u{55E}\n\
ARMENIAN ABBREVIATION MARK:\u{55F}\n\
ARMENIAN SMALL LETTER TURNED AYB:\u{560}\n\
ARMENIAN SMALL LETTER AYB:\u{561}\n\
ARMENIAN SMALL LETTER BEN:\u{562}\n\
ARMENIAN SMALL LETTER GIM:\u{563}\n\
ARMENIAN SMALL LETTER DA:\u{564}\n\
ARMENIAN SMALL LETTER ECH:\u{565}\n\
ARMENIAN SMALL LETTER ZA:\u{566}\n\
ARMENIAN SMALL LETTER EH:\u{567}\n\
ARMENIAN SMALL LETTER ET:\u{568}\n\
ARMENIAN SMALL LETTER TO:\u{569}\n\
ARMENIAN SMALL LETTER ZHE:\u{56A}\n\
ARMENIAN SMALL LETTER INI:\u{56B}\n\
ARMENIAN SMALL LETTER LIWN:\u{56C}\n\
ARMENIAN SMALL LETTER XEH:\u{56D}\n\
ARMENIAN SMALL LETTER CA:\u{56E}\n\
ARMENIAN SMALL LETTER KEN:\u{56F}\n\
ARMENIAN SMALL LETTER HO:\u{570}\n\
ARMENIAN SMALL LETTER JA:\u{571}\n\
ARMENIAN SMALL LETTER GHAD:\u{572}\n\
ARMENIAN SMALL LETTER CHEH:\u{573}\n\
ARMENIAN SMALL LETTER MEN:\u{574}\n\
ARMENIAN SMALL LETTER YI:\u{575}\n\
ARMENIAN SMALL LETTER NOW:\u{576}\n\
ARMENIAN SMALL LETTER SHA:\u{577}\n\
ARMENIAN SMALL LETTER VO:\u{578}\n\
ARMENIAN SMALL LETTER CHA:\u{579}\n\
ARMENIAN SMALL LETTER PEH:\u{57A}\n\
ARMENIAN SMALL LETTER JHEH:\u{57B}\n\
ARMENIAN SMALL LETTER RA:\u{57C}\n\
ARMENIAN SMALL LETTER SEH:\u{57D}\n\
ARMENIAN SMALL LETTER VEW:\u{57E}\n\
ARMENIAN SMALL LETTER TIWN:\u{57F}\n\
ARMENIAN SMALL LETTER REH:\u{580}\n\
ARMENIAN SMALL LETTER CO:\u{581}\n\
ARMENIAN SMALL LETTER YIWN:\u{582}\n\
ARMENIAN SMALL LETTER PIWR:\u{583}\n\
ARMENIAN SMALL LETTER KEH:\u{584}\n\
ARMENIAN SMALL LETTER OH:\u{585}\n\
ARMENIAN SMALL LETTER FEH:\u{586}\n\
ARMENIAN SMALL LIGATURE ECH YIWN:\u{587}\n\
ARMENIAN SMALL LETTER YI WITH STROKE:\u{588}\n\
ARMENIAN FULL STOP:\u{589}\n\
ARMENIAN HYPHEN:\u{58A}\n\
RIGHT-FACING ARMENIAN ETERNITY SIGN:\u{58D}\n\
LEFT-FACING ARMENIAN ETERNITY SIGN:\u{58E}\n\
ARMENIAN DRAM SIGN:\u{58F}\n\
HEBREW ACCENT ETNAHTA:\u{591}\n\
HEBREW ACCENT SEGOL:\u{592}\n\
HEBREW ACCENT SHALSHELET:\u{593}\n\
HEBREW ACCENT ZAQEF QATAN:\u{594}\n\
HEBREW ACCENT ZAQEF GADOL:\u{595}\n\
HEBREW ACCENT TIPEHA:\u{596}\n\
HEBREW ACCENT REVIA:\u{597}\n\
HEBREW ACCENT ZARQA:\u{598}\n\
HEBREW ACCENT PASHTA:\u{599}\n\
HEBREW ACCENT YETIV:\u{59A}\n\
HEBREW ACCENT TEVIR:\u{59B}\n\
HEBREW ACCENT GERESH:\u{59C}\n\
HEBREW ACCENT GERESH MUQDAM:\u{59D}\n\
HEBREW ACCENT GERSHAYIM:\u{59E}\n\
HEBREW ACCENT QARNEY PARA:\u{59F}\n\
HEBREW ACCENT TELISHA GEDOLA:\u{5A0}\n\
HEBREW ACCENT PAZER:\u{5A1}\n\
HEBREW ACCENT ATNAH HAFUKH:\u{5A2}\n\
HEBREW ACCENT MUNAH:\u{5A3}\n\
HEBREW ACCENT MAHAPAKH:\u{5A4}\n\
HEBREW ACCENT MERKHA:\u{5A5}\n\
HEBREW ACCENT MERKHA KEFULA:\u{5A6}\n\
HEBREW ACCENT DARGA:\u{5A7}\n\
HEBREW ACCENT QADMA:\u{5A8}\n\
HEBREW ACCENT TELISHA QETANA:\u{5A9}\n\
HEBREW ACCENT YERAH BEN YOMO:\u{5AA}\n\
HEBREW ACCENT OLE:\u{5AB}\n\
HEBREW ACCENT ILUY:\u{5AC}\n\
HEBREW ACCENT DEHI:\u{5AD}\n\
HEBREW ACCENT ZINOR:\u{5AE}\n\
HEBREW MARK MASORA CIRCLE:\u{5AF}\n\
HEBREW POINT SHEVA:\u{5B0}\n\
HEBREW POINT HATAF SEGOL:\u{5B1}\n\
HEBREW POINT HATAF PATAH:\u{5B2}\n\
HEBREW POINT HATAF QAMATS:\u{5B3}\n\
HEBREW POINT HIRIQ:\u{5B4}\n\
HEBREW POINT TSERE:\u{5B5}\n\
HEBREW POINT SEGOL:\u{5B6}\n\
HEBREW POINT PATAH:\u{5B7}\n\
HEBREW POINT QAMATS:\u{5B8}\n\
HEBREW POINT HOLAM:\u{5B9}\n\
HEBREW POINT HOLAM HASER FOR VAV:\u{5BA}\n\
HEBREW POINT QUBUTS:\u{5BB}\n\
HEBREW POINT DAGESH OR MAPIQ:\u{5BC}\n\
HEBREW POINT METEG:\u{5BD}\n\
HEBREW PUNCTUATION MAQAF:\u{5BE}\n\
HEBREW POINT RAFE:\u{5BF}\n\
HEBREW PUNCTUATION PASEQ:\u{5C0}\n\
HEBREW POINT SHIN DOT:\u{5C1}\n\
HEBREW POINT SIN DOT:\u{5C2}\n\
HEBREW PUNCTUATION SOF PASUQ:\u{5C3}\n\
HEBREW MARK UPPER DOT:\u{5C4}\n\
HEBREW MARK LOWER DOT:\u{5C5}\n\
HEBREW PUNCTUATION NUN HAFUKHA:\u{5C6}\n\
HEBREW POINT QAMATS QATAN:\u{5C7}\n\
HEBREW LETTER ALEF:\u{5D0}\n\
HEBREW LETTER BET:\u{5D1}\n\
HEBREW LETTER GIMEL:\u{5D2}\n\
HEBREW LETTER DALET:\u{5D3}\n\
HEBREW LETTER HE:\u{5D4}\n\
HEBREW LETTER VAV:\u{5D5}\n\
HEBREW LETTER ZAYIN:\u{5D6}\n\
HEBREW LETTER HET:\u{5D7}\n\
HEBREW LETTER TET:\u{5D8}\n\
HEBREW LETTER YOD:\u{5D9}\n\
HEBREW LETTER FINAL KAF:\u{5DA}\n\
HEBREW LETTER KAF:\u{5DB}\n\
HEBREW LETTER LAMED:\u{5DC}\n\
HEBREW LETTER FINAL MEM:\u{5DD}\n\
HEBREW LETTER MEM:\u{5DE}\n\
HEBREW LETTER FINAL NUN:\u{5DF}\n\
HEBREW LETTER NUN:\u{5E0}\n\
HEBREW LETTER SAMEKH:\u{5E1}\n\
HEBREW LETTER AYIN:\u{5E2}\n\
HEBREW LETTER FINAL PE:\u{5E3}\n\
HEBREW LETTER PE:\u{5E4}\n\
HEBREW LETTER FINAL TSADI:\u{5E5}\n\
HEBREW LETTER TSADI:\u{5E6}\n\
HEBREW LETTER QOF:\u{5E7}\n\
HEBREW LETTER RESH:\u{5E8}\n\
HEBREW LETTER SHIN:\u{5E9}\n\
HEBREW LETTER TAV:\u{5EA}\n\
HEBREW YOD TRIANGLE:\u{5EF}\n\
HEBREW LIGATURE YIDDISH DOUBLE VAV:\u{5F0}\n\
HEBREW LIGATURE YIDDISH VAV YOD:\u{5F1}\n\
HEBREW LIGATURE YIDDISH DOUBLE YOD:\u{5F2}\n\
HEBREW PUNCTUATION GERESH:\u{5F3}\n\
HEBREW PUNCTUATION GERSHAYIM:\u{5F4}\n\
ARABIC NUMBER SIGN:\u{600}\n\
ARABIC SIGN SANAH:\u{601}\n\
ARABIC FOOTNOTE MARKER:\u{602}\n\
ARABIC SIGN SAFHA:\u{603}\n\
ARABIC SIGN SAMVAT:\u{604}\n\
ARABIC NUMBER MARK ABOVE:\u{605}\n\
ARABIC-INDIC CUBE ROOT:\u{606}\n\
ARABIC-INDIC FOURTH ROOT:\u{607}\n\
ARABIC RAY:\u{608}\n\
ARABIC-INDIC PER MILLE SIGN:\u{609}\n\
ARABIC-INDIC PER TEN THOUSAND SIGN:\u{60A}\n\
AFGHANI SIGN:\u{60B}\n\
ARABIC COMMA:\u{60C}\n\
ARABIC DATE SEPARATOR:\u{60D}\n\
ARABIC POETIC VERSE SIGN:\u{60E}\n\
ARABIC SIGN MISRA:\u{60F}\n\
ARABIC SIGN SALLALLAHOU ALAYHE WASSALLAM:\u{610}\n\
ARABIC SIGN ALAYHE ASSALLAM:\u{611}\n\
ARABIC SIGN RAHMATULLAH ALAYHE:\u{612}\n\
ARABIC SIGN RADI ALLAHOU ANHU:\u{613}\n\
ARABIC SIGN TAKHALLUS:\u{614}\n\
ARABIC SMALL HIGH TAH:\u{615}\n\
ARABIC SMALL HIGH LIGATURE ALEF WITH LAM WITH YEH:\u{616}\n\
ARABIC SMALL HIGH ZAIN:\u{617}\n\
ARABIC SMALL FATHA:\u{618}\n\
ARABIC SMALL DAMMA:\u{619}\n\
ARABIC SMALL KASRA:\u{61A}\n\
ARABIC SEMICOLON:\u{61B}\n\
ARABIC LETTER MARK:\u{61C}\n\
ARABIC END OF TEXT MARK:\u{61D}\n\
ARABIC TRIPLE DOT PUNCTUATION MARK:\u{61E}\n\
ARABIC QUESTION MARK:\u{61F}\n\
ARABIC LETTER KASHMIRI YEH:\u{620}\n\
ARABIC LETTER HAMZA:\u{621}\n\
ARABIC LETTER ALEF WITH MADDA ABOVE:\u{622}\n\
ARABIC LETTER ALEF WITH HAMZA ABOVE:\u{623}\n\
ARABIC LETTER WAW WITH HAMZA ABOVE:\u{624}\n\
ARABIC LETTER ALEF WITH HAMZA BELOW:\u{625}\n\
ARABIC LETTER YEH WITH HAMZA ABOVE:\u{626}\n\
ARABIC LETTER ALEF:\u{627}\n\
ARABIC LETTER BEH:\u{628}\n\
ARABIC LETTER TEH MARBUTA:\u{629}\n\
ARABIC LETTER TEH:\u{62A}\n\
ARABIC LETTER THEH:\u{62B}\n\
ARABIC LETTER JEEM:\u{62C}\n\
ARABIC LETTER HAH:\u{62D}\n\
ARABIC LETTER KHAH:\u{62E}\n\
ARABIC LETTER DAL:\u{62F}\n\
ARABIC LETTER THAL:\u{630}\n\
ARABIC LETTER REH:\u{631}\n\
ARABIC LETTER ZAIN:\u{632}\n\
ARABIC LETTER SEEN:\u{633}\n";

pub const NAMES_04: &'static str = "ARABIC LETTER SHEEN:\u{634}\n\
ARABIC LETTER SAD:\u{635}\n\
ARABIC LETTER DAD:\u{636}\n\
ARABIC LETTER TAH:\u{637}\n\
ARABIC LETTER ZAH:\u{638}\n\
ARABIC LETTER AIN:\u{639}\n\
ARABIC LETTER GHAIN:\u{63A}\n\
ARABIC LETTER KEHEH WITH TWO DOTS ABOVE:\u{63B}\n\
ARABIC LETTER KEHEH WITH THREE DOTS BELOW:\u{63C}\n\
ARABIC LETTER FARSI YEH WITH INVERTED V:\u{63D}\n\
ARABIC LETTER FARSI YEH WITH TWO DOTS ABOVE:\u{63E}\n\
ARABIC LETTER FARSI YEH WITH THREE DOTS ABOVE:\u{63F}\n\
ARABIC TATWEEL:\u{640}\n\
ARABIC LETTER FEH:\u{641}\n\
ARABIC LETTER QAF:\u{642}\n\
ARABIC LETTER KAF:\u{643}\n\
ARABIC LETTER LAM:\u{644}\n\
ARABIC LETTER MEEM:\u{645}\n\
ARABIC LETTER NOON:\u{646}\n\
ARABIC LETTER HEH:\u{647}\n\
ARABIC LETTER WAW:\u{648}\n\
ARABIC LETTER ALEF MAKSURA:\u{649}\n\
ARABIC LETTER YEH:\u{64A}\n\
ARABIC FATHATAN:\u{64B}\n\
ARABIC DAMMATAN:\u{64C}\n\
ARABIC KASRATAN:\u{64D}\n\
ARABIC FATHA:\u{64E}\n\
ARABIC DAMMA:\u{64F}\n\
ARABIC KASRA:\u{650}\n\
ARABIC SHADDA:\u{651}\n\
ARABIC SUKUN:\u{652}\n\
ARABIC MADDAH ABOVE:\u{653}\n\
ARABIC HAMZA ABOVE:\u{654}\n\
ARABIC HAMZA BELOW:\u{655}\n\
ARABIC SUBSCRIPT ALEF:\u{656}\n\
ARABIC INVERTED DAMMA:\u{657}\n\
ARABIC MARK NOON GHUNNA:\u{658}\n\
ARABIC ZWARAKAY:\u{659}\n\
ARABIC VOWEL SIGN SMALL V ABOVE:\u{65A}\n\
ARABIC VOWEL SIGN INVERTED SMALL V ABOVE:\u{65B}\n\
ARABIC VOWEL SIGN DOT BELOW:\u{65C}\n\
ARABIC REVERSED DAMMA:\u{65D}\n\
ARABIC FATHA WITH TWO DOTS:\u{65E}\n\
ARABIC WAVY HAMZA BELOW:\u{65F}\n\
ARABIC-INDIC DIGIT ZERO:\u{660}\n\
ARABIC-INDIC DIGIT ONE:\u{661}\n\
ARABIC-INDIC DIGIT TWO:\u{662}\n\
ARABIC-INDIC DIGIT THREE:\u{663}\n\
ARABIC-INDIC DIGIT FOUR:\u{664}\n\
ARABIC-INDIC DIGIT FIVE:\u{665}\n\
ARABIC-INDIC DIGIT SIX:\u{666}\n\
ARABIC-INDIC DIGIT SEVEN:\u{667}\n\
ARABIC-INDIC DIGIT EIGHT:\u{668}\n\
ARABIC-INDIC DIGIT NINE:\u{669}\n\
ARABIC PERCENT SIGN:\u{66A}\n\
ARABIC DECIMAL SEPARATOR:\u{66B}\n\
ARABIC THOUSANDS SEPARATOR:\u{66C}\n\
ARABIC FIVE POINTED STAR:\u{66D}\n\
ARABIC LETTER DOTLESS BEH:\u{66E}\n\
ARABIC LETTER DOTLESS QAF:\u{66F}\n\
ARABIC LETTER SUPERSCRIPT ALEF:\u{670}\n\
ARABIC LETTER ALEF WASLA:\u{671}\n\
ARABIC LETTER ALEF WITH WAVY HAMZA ABOVE:\u{672}\n\
ARABIC LETTER ALEF WITH WAVY HAMZA BELOW:\u{673}\n\
ARABIC LETTER HIGH HAMZA:\u{674}\n\
ARABIC LETTER HIGH HAMZA ALEF:\u{675}\n\
ARABIC LETTER HIGH HAMZA WAW:\u{676}\n\
ARABIC LETTER U WITH HAMZA ABOVE:\u{677}\n\
ARABIC LETTER HIGH HAMZA YEH:\u{678}\n\
ARABIC LETTER TTEH:\u{679}\n\
ARABIC LETTER TTEHEH:\u{67A}\n\
ARABIC LETTER BEEH:\u{67B}\n\
ARABIC LETTER TEH WITH RING:\u{67C}\n\
ARABIC LETTER TEH WITH THREE DOTS ABOVE DOWNWARDS:\u{67D}\n\
ARABIC LETTER PEH:\u{67E}\n\
ARABIC LETTER TEHEH:\u{67F}\n\
ARABIC LETTER BEHEH:\u{680}\n\
ARABIC LETTER HAH WITH HAMZA ABOVE:\u{681}\n\
ARABIC LETTER HAH WITH TWO DOTS VERTICAL ABOVE:\u{682}\n\
ARABIC LETTER NYEH:\u{683}\n\
ARABIC LETTER DYEH:\u{684}\n\
ARABIC LETTER HAH WITH THREE DOTS ABOVE:\u{685}\n\
ARABIC LETTER TCHEH:\u{686}\n\
ARABIC LETTER TCHEHEH:\u{687}\n\
ARABIC LETTER DDAL:\u{688}\n\
ARABIC LETTER DAL WITH RING:\u{689}\n\
ARABIC LETTER DAL WITH DOT BELOW:\u{68A}\n\
ARABIC LETTER DAL WITH DOT BELOW AND SMALL TAH:\u{68B}\n\
ARABIC LETTER DAHAL:\u{68C}\n\
ARABIC LETTER DDAHAL:\u{68D}\n\
ARABIC LETTER DUL:\u{68E}\n\
ARABIC LETTER DAL WITH THREE DOTS ABOVE DOWNWARDS:\u{68F}\n\
ARABIC LETTER DAL WITH FOUR DOTS ABOVE:\u{690}\n\
ARABIC LETTER RREH:\u{691}\n\
ARABIC LETTER REH WITH SMALL V:\u{692}\n\
ARABIC LETTER REH WITH RING:\u{693}\n\
ARABIC LETTER REH WITH DOT BELOW:\u{694}\n\
ARABIC LETTER REH WITH SMALL V BELOW:\u{695}\n\
ARABIC LETTER REH WITH DOT BELOW AND DOT ABOVE:\u{696}\n\
ARABIC LETTER REH WITH TWO DOTS ABOVE:\u{697}\n\
ARABIC LETTER JEH:\u{698}\n\
ARABIC LETTER REH WITH FOUR DOTS ABOVE:\u{699}\n\
ARABIC LETTER SEEN WITH DOT BELOW AND DOT ABOVE:\u{69A}\n\
ARABIC LETTER SEEN WITH THREE DOTS BELOW:\u{69B}\n\
ARABIC LETTER SEEN WITH THREE DOTS BELOW AND THREE DOTS ABOVE:\u{69C}\n\
ARABIC LETTER SAD WITH TWO DOTS BELOW:\u{69D}\n\
ARABIC LETTER SAD WITH THREE DOTS ABOVE:\u{69E}\n\
ARABIC LETTER TAH WITH THREE DOTS ABOVE:\u{69F}\n\
ARABIC LETTER AIN WITH THREE DOTS ABOVE:\u{6A0}\n\
ARABIC LETTER DOTLESS FEH:\u{6A1}\n\
ARABIC LETTER FEH WITH DOT MOVED BELOW:\u{6A2}\n\
ARABIC LETTER FEH WITH DOT BELOW:\u{6A3}\n\
ARABIC LETTER VEH:\u{6A4}\n\
ARABIC LETTER FEH WITH THREE DOTS BELOW:\u{6A5}\n\
ARABIC LETTER PEHEH:\u{6A6}\n\
ARABIC LETTER QAF WITH DOT ABOVE:\u{6A7}\n\
ARABIC LETTER QAF WITH THREE DOTS ABOVE:\u{6A8}\n\
ARABIC LETTER KEHEH:\u{6A9}\n\
ARABIC LETTER SWASH KAF:\u{6AA}\n\
ARABIC LETTER KAF WITH RING:\u{6AB}\n\
ARABIC LETTER KAF WITH DOT ABOVE:\u{6AC}\n\
ARABIC LETTER NG:\u{6AD}\n\
ARABIC LETTER KAF WITH THREE DOTS BELOW:\u{6AE}\n\
ARABIC LETTER GAF:\u{6AF}\n\
ARABIC LETTER GAF WITH RING:\u{6B0}\n\
ARABIC LETTER NGOEH:\u{6B1}\n\
ARABIC LETTER GAF WITH TWO DOTS BELOW:\u{6B2}\n\
ARABIC LETTER GUEH:\u{6B3}\n\
ARABIC LETTER GAF WITH THREE DOTS ABOVE:\u{6B4}\n\
ARABIC LETTER LAM WITH SMALL V:\u{6B5}\n\
ARABIC LETTER LAM WITH DOT ABOVE:\u{6B6}\n\
ARABIC LETTER LAM WITH THREE DOTS ABOVE:\u{6B7}\n\
ARABIC LETTER LAM WITH THREE DOTS BELOW:\u{6B8}\n\
ARABIC LETTER NOON WITH DOT BELOW:\u{6B9}\n\
ARABIC LETTER NOON GHUNNA:\u{6BA}\n\
ARABIC LETTER RNOON:\u{6BB}\n\
ARABIC LETTER NOON WITH RING:\u{6BC}\n\
ARABIC LETTER NOON WITH THREE DOTS ABOVE:\u{6BD}\n\
ARABIC LETTER HEH DOACHASHMEE:\u{6BE}\n\
ARABIC LETTER TCHEH WITH DOT ABOVE:\u{6BF}\n\
ARABIC LETTER HEH WITH YEH ABOVE:\u{6C0}\n\
ARABIC LETTER HEH GOAL:\u{6C1}\n\
ARABIC LETTER HEH GOAL WITH HAMZA ABOVE:\u{6C2}\n\
ARABIC LETTER TEH MARBUTA GOAL:\u{6C3}\n\
ARABIC LETTER WAW WITH RING:\u{6C4}\n\
ARABIC LETTER KIRGHIZ OE:\u{6C5}\n\
ARABIC LETTER OE:\u{6C6}\n\
ARABIC LETTER U:\u{6C7}\n\
ARABIC LETTER YU:\u{6C8}\n\
ARABIC LETTER KIRGHIZ YU:\u{6C9}\n\
ARABIC LETTER WAW WITH TWO DOTS ABOVE:\u{6CA}\n\
ARABIC LETTER VE:\u{6CB}\n\
ARABIC LETTER FARSI YEH:\u{6CC}\n\
ARABIC LETTER YEH WITH TAIL:\u{6CD}\n\
ARABIC LETTER YEH WITH SMALL V:\u{6CE}\n\
ARABIC LETTER WAW WITH DOT ABOVE:\u{6CF}\n\
ARABIC LETTER E:\u{6D0}\n\
ARABIC LETTER YEH WITH THREE DOTS BELOW:\u{6D1}\n\
ARABIC LETTER YEH BARREE:\u{6D2}\n\
ARABIC LETTER YEH BARREE WITH HAMZA ABOVE:\u{6D3}\n\
ARABIC FULL STOP:\u{6D4}\n\
ARABIC LETTER AE:\u{6D5}\n\
ARABIC SMALL HIGH LIGATURE SAD WITH LAM WITH ALEF MAKSURA:\u{6D6}\n\
ARABIC SMALL HIGH LIGATURE QAF WITH LAM WITH ALEF MAKSURA:\u{6D7}\n\
ARABIC SMALL HIGH MEEM INITIAL FORM:\u{6D8}\n\
ARABIC SMALL HIGH LAM ALEF:\u{6D9}\n\
ARABIC SMALL HIGH JEEM:\u{6DA}\n\
ARABIC SMALL HIGH THREE DOTS:\u{6DB}\n\
ARABIC SMALL HIGH SEEN:\u{6DC}\n\
ARABIC END OF AYAH:\u{6DD}\n\
ARABIC START OF RUB EL HIZB:\u{6DE}\n\
ARABIC SMALL HIGH ROUNDED ZERO:\u{6DF}\n\
ARABIC SMALL HIGH UPRIGHT RECTANGULAR ZERO:\u{6E0}\n\
ARABIC SMALL HIGH DOTLESS HEAD OF KHAH:\u{6E1}\n\
ARABIC SMALL HIGH MEEM ISOLATED FORM:\u{6E2}\n\
ARABIC SMALL LOW SEEN:\u{6E3}\n\
ARABIC SMALL HIGH MADDA:\u{6E4}\n\
ARABIC SMALL WAW:\u{6E5}\n\
ARABIC SMALL YEH:\u{6E6}\n\
ARABIC SMALL HIGH YEH:\u{6E7}\n\
ARABIC SMALL HIGH NOON:\u{6E8}\n\
ARABIC PLACE OF SAJDAH:\u{6E9}\n\
ARABIC EMPTY CENTRE LOW STOP:\u{6EA}\n\
ARABIC EMPTY CENTRE HIGH STOP:\u{6EB}\n\
ARABIC ROUNDED HIGH STOP WITH FILLED CENTRE:\u{6EC}\n\
ARABIC SMALL LOW MEEM:\u{6ED}\n\
ARABIC LETTER DAL WITH INVERTED V:\u{6EE}\n\
ARABIC LETTER REH WITH INVERTED V:\u{6EF}\n\
EXTENDED ARABIC-INDIC DIGIT ZERO:\u{6F0}\n\
EXTENDED ARABIC-INDIC DIGIT ONE:\u{6F1}\n\
EXTENDED ARABIC-INDIC DIGIT TWO:\u{6F2}\n\
EXTENDED ARABIC-INDIC DIGIT THREE:\u{6F3}\n\
EXTENDED ARABIC-INDIC DIGIT FOUR:\u{6F4}\n\
EXTENDED ARABIC-INDIC DIGIT FIVE:\u{6F5}\n\
EXTENDED ARABIC-INDIC DIGIT SIX:\u{6F6}\n\
EXTENDED ARABIC-INDIC DIGIT SEVEN:\u{6F7}\n\
EXTENDED ARABIC-INDIC DIGIT EIGHT:\u{6F8}\n\
EXTENDED ARABIC-INDIC DIGIT NINE:\u{6F9}\n\
ARABIC LETTER SHEEN WITH DOT BELOW:\u{6FA}\n\
ARABIC LETTER DAD WITH DOT BELOW:\u{6FB}\n\
ARABIC LETTER GHAIN WITH DOT BELOW:\u{6FC}\n\
ARABIC SIGN SINDHI AMPERSAND:\u{6FD}\n\
ARABIC SIGN SINDHI POSTPOSITION MEN:\u{6FE}\n\
ARABIC LETTER HEH WITH INVERTED V:\u{6FF}\n\
SYRIAC END OF PARAGRAPH:\u{700}\n\
SYRIAC SUPRALINEAR FULL STOP:\u{701}\n\
SYRIAC SUBLINEAR FULL STOP:\u{702}\n\
SYRIAC SUPRALINEAR COLON:\u{703}\n\
SYRIAC SUBLINEAR COLON:\u{704}\n\
SYRIAC HORIZONTAL COLON:\u{705}\n\
SYRIAC COLON SKEWED LEFT:\u{706}\n\
SYRIAC COLON SKEWED RIGHT:\u{707}\n\
SYRIAC SUPRALINEAR COLON SKEWED LEFT:\u{708}\n\
SYRIAC SUBLINEAR COLON SKEWED RIGHT:\u{709}\n\
SYRIAC CONTRACTION:\u{70A}\n\
SYRIAC HARKLEAN OBELUS:\u{70B}\n\
SYRIAC HARKLEAN METOBELUS:\u{70C}\n\
SYRIAC HARKLEAN ASTERISCUS:\u{70D}\n\
SYRIAC ABBREVIATION MARK:\u{70F}\n\
SYRIAC LETTER ALAPH:\u{710}\n\
SYRIAC LETTER SUPERSCRIPT ALAPH:\u{711}\n\
SYRIAC LETTER BETH:\u{712}\n\
SYRIAC LETTER GAMAL:\u{713}\n\
SYRIAC LETTER GAMAL GARSHUNI:\u{714}\n\
SYRIAC LETTER DALATH:\u{715}\n\
SYRIAC LETTER DOTLESS DALATH RISH:\u{716}\n\
SYRIAC LETTER HE:\u{717}\n\
SYRIAC LETTER WAW:\u{718}\n\
SYRIAC LETTER ZAIN:\u{719}\n\
SYRIAC LETTER HETH:\u{71A}\n\
SYRIAC LETTER TETH:\u{71B}\n\
SYRIAC LETTER TETH GARSHUNI:\u{71C}\n\
SYRIAC LETTER YUDH:\u{71D}\n\
SYRIAC LETTER YUDH HE:\u{71E}\n\
SYRIAC LETTER KAPH:\u{71F}\n\
SYRIAC LETTER LAMADH:\u{720}\n\
SYRIAC LETTER MIM:\u{721}\n\
SYRIAC LETTER NUN:\u{722}\n\
SYRIAC LETTER SEMKATH:\u{723}\n\
SYRIAC LETTER FINAL SEMKATH:\u{724}\n\
SYRIAC LETTER E:\u{725}\n\
SYRIAC LETTER PE:\u{726}\n\
SYRIAC LETTER REVERSED PE:\u{727}\n\
SYRIAC LETTER SADHE:\u{728}\n\
SYRIAC LETTER QAPH:\u{729}\n\
SYRIAC LETTER RISH:\u{72A}\n\
SYRIAC LETTER SHIN:\u{72B}\n\
SYRIAC LETTER TAW:\u{72C}\n\
SYRIAC LETTER PERSIAN BHETH:\u{72D}\n\
SYRIAC LETTER PERSIAN GHAMAL:\u{72E}\n\
SYRIAC LETTER PERSIAN DHALATH:\u{72F}\n\
SYRIAC PTHAHA ABOVE:\u{730}\n\
SYRIAC PTHAHA BELOW:\u{731}\n\
SYRIAC PTHAHA DOTTED:\u{732}\n\
SYRIAC ZQAPHA ABOVE:\u{733}\n\
SYRIAC ZQAPHA BELOW:\u{734}\n\
SYRIAC ZQAPHA DOTTED:\u{735}\n\
SYRIAC RBASA ABOVE:\u{736}\n\
SYRIAC RBASA BELOW:\u{737}\n\
SYRIAC DOTTED ZLAMA HORIZONTAL:\u{738}\n\
SYRIAC DOTTED ZLAMA ANGULAR:\u{739}\n\
SYRIAC HBASA ABOVE:\u{73A}\n\
SYRIAC HBASA BELOW:\u{73B}\n\
SYRIAC HBASA-ESASA DOTTED:\u{73C}\n\
SYRIAC ESASA ABOVE:\u{73D}\n\
SYRIAC ESASA BELOW:\u{73E}\n\
SYRIAC RWAHA:\u{73F}\n\
SYRIAC FEMININE DOT:\u{740}\n\
SYRIAC QUSHSHAYA:\u{741}\n\
SYRIAC RUKKAKHA:\u{742}\n\
SYRIAC TWO VERTICAL DOTS ABOVE:\u{743}\n\
SYRIAC TWO VERTICAL DOTS BELOW:\u{744}\n\
SYRIAC THREE DOTS ABOVE:\u{745}\n\
SYRIAC THREE DOTS BELOW:\u{746}\n\
SYRIAC OBLIQUE LINE ABOVE:\u{747}\n\
SYRIAC OBLIQUE LINE BELOW:\u{748}\n\
SYRIAC MUSIC:\u{749}\n\
SYRIAC BARREKH:\u{74A}\n\
SYRIAC LETTER SOGDIAN ZHAIN:\u{74D}\n\
SYRIAC LETTER SOGDIAN KHAPH:\u{74E}\n\
SYRIAC LETTER SOGDIAN FE:\u{74F}\n\
ARABIC LETTER BEH WITH THREE DOTS HORIZONTALLY BELOW:\u{750}\n\
ARABIC LETTER BEH WITH DOT BELOW AND THREE DOTS ABOVE:\u{751}\n\
ARABIC LETTER BEH WITH THREE DOTS POINTING UPWARDS BELOW:\u{752}\n\
ARABIC LETTER BEH WITH THREE DOTS POINTING UPWARDS BELOW AND TWO DOTS ABOVE:\u{753}\n\
ARABIC LETTER BEH WITH TWO DOTS BELOW AND DOT ABOVE:\u{754}\n\
ARABIC LETTER BEH WITH INVERTED SMALL V BELOW:\u{755}\n\
ARABIC LETTER BEH WITH SMALL V:\u{756}\n\
ARABIC LETTER HAH WITH TWO DOTS ABOVE:\u{757}\n\
ARABIC LETTER HAH WITH THREE DOTS POINTING UPWARDS BELOW:\u{758}\n\
ARABIC LETTER DAL WITH TWO DOTS VERTICALLY BELOW AND SMALL TAH:\u{759}\n\
ARABIC LETTER DAL WITH INVERTED SMALL V BELOW:\u{75A}\n\
ARABIC LETTER REH WITH STROKE:\u{75B}\n\
ARABIC LETTER SEEN WITH FOUR DOTS ABOVE:\u{75C}\n\
ARABIC LETTER AIN WITH TWO DOTS ABOVE:\u{75D}\n\
ARABIC LETTER AIN WITH THREE DOTS POINTING DOWNWARDS ABOVE:\u{75E}\n\
ARABIC LETTER AIN WITH TWO DOTS VERTICALLY ABOVE:\u{75F}\n\
ARABIC LETTER FEH WITH TWO DOTS BELOW:\u{760}\n\
ARABIC LETTER FEH WITH THREE DOTS POINTING UPWARDS BELOW:\u{761}\n\
ARABIC LETTER KEHEH WITH DOT ABOVE:\u{762}\n\
ARABIC LETTER KEHEH WITH THREE DOTS ABOVE:\u{763}\n\
ARABIC LETTER KEHEH WITH THREE DOTS POINTING UPWARDS BELOW:\u{764}\n\
ARABIC LETTER MEEM WITH DOT ABOVE:\u{765}\n\
ARABIC LETTER MEEM WITH DOT BELOW:\u{766}\n\
ARABIC LETTER NOON WITH TWO DOTS BELOW:\u{767}\n\
ARABIC LETTER NOON WITH SMALL TAH:\u{768}\n\
ARABIC LETTER NOON WITH SMALL V:\u{769}\n\
ARABIC LETTER LAM WITH BAR:\u{76A}\n\
ARABIC LETTER REH WITH TWO DOTS VERTICALLY ABOVE:\u{76B}\n\
ARABIC LETTER REH WITH HAMZA ABOVE:\u{76C}\n\
ARABIC LETTER SEEN WITH TWO DOTS VERTICALLY ABOVE:\u{76D}\n\
ARABIC LETTER HAH WITH SMALL ARABIC LETTER TAH BELOW:\u{76E}\n\
ARABIC LETTER HAH WITH SMALL ARABIC LETTER TAH AND TWO DOTS:\u{76F}\n\
ARABIC LETTER SEEN WITH SMALL ARABIC LETTER TAH AND TWO DOTS:\u{770}\n\
ARABIC LETTER REH WITH SMALL ARABIC LETTER TAH AND TWO DOTS:\u{771}\n\
ARABIC LETTER HAH WITH SMALL ARABIC LETTER TAH ABOVE:\u{772}\n\
ARABIC LETTER ALEF WITH EXTENDED ARABIC-INDIC DIGIT TWO ABOVE:\u{773}\n\
ARABIC LETTER ALEF WITH EXTENDED ARABIC-INDIC DIGIT THREE ABOVE:\u{774}\n\
ARABIC LETTER FARSI YEH WITH EXTENDED ARABIC-INDIC DIGIT TWO ABOVE:\u{775}\n\
ARABIC LETTER FARSI YEH WITH EXTENDED ARABIC-INDIC DIGIT THREE ABOVE:\u{776}\n\
ARABIC LETTER FARSI YEH WITH EXTENDED ARABIC-INDIC DIGIT FOUR BELOW:\u{777}\n\
ARABIC LETTER WAW WITH EXTENDED ARABIC-INDIC DIGIT TWO ABOVE:\u{778}\n\
ARABIC LETTER WAW WITH EXTENDED ARABIC-INDIC DIGIT THREE ABOVE:\u{779}\n\
ARABIC LETTER YEH BARREE WITH EXTENDED ARABIC-INDIC DIGIT TWO ABOVE:\u{77A}\n\
ARABIC LETTER YEH BARREE WITH EXTENDED ARABIC-INDIC DIGIT THREE ABOVE:\u{77B}\n\
ARABIC LETTER HAH WITH EXTENDED ARABIC-INDIC DIGIT FOUR BELOW:\u{77C}\n\
ARABIC LETTER SEEN WITH EXTENDED ARABIC-INDIC DIGIT FOUR ABOVE:\u{77D}\n\
ARABIC LETTER SEEN WITH INVERTED V:\u{77E}\n\
ARABIC LETTER KAF WITH TWO DOTS ABOVE:\u{77F}\n\
THAANA LETTER HAA:\u{780}\n\
THAANA LETTER SHAVIYANI:\u{781}\n\
THAANA LETTER NOONU:\u{782}\n\
THAANA LETTER RAA:\u{783}\n\
THAANA LETTER BAA:\u{784}\n\
THAANA LETTER LHAVIYANI:\u{785}\n\
THAANA LETTER KAAFU:\u{786}\n\
THAANA LETTER ALIFU:\u{787}\n\
THAANA LETTER VAAVU:\u{788}\n\
THAANA LETTER MEEMU:\u{789}\n\
THAANA LETTER FAAFU:\u{78A}\n\
THAANA LETTER DHAALU:\u{78B}\n\
THAANA LETTER THAA:\u{78C}\n\
THAANA LETTER LAAMU:\u{78D}\n\
THAANA LETTER GAAFU:\u{78E}\n\
THAANA LETTER GNAVIYANI:\u{78F}\n\
THAANA LETTER SEENU:\u{790}\n\
THAANA LETTER DAVIYANI:\u{791}\n\
THAANA LETTER ZAVIYANI:\u{792}\n\
THAANA LETTER TAVIYANI:\u{793}\n\
THAANA LETTER YAA:\u{794}\n\
THAANA LETTER PAVIYANI:\u{795}\n\
THAANA LETTER JAVIYANI:\u{796}\n\
THAANA LETTER CHAVIYANI:\u{797}\n\
THAANA LETTER TTAA:\u{798}\n\
THAANA LETTER HHAA:\u{799}\n\
THAANA LETTER KHAA:\u{79A}\n\
THAANA LETTER THAALU:\u{79B}\n\
THAANA LETTER ZAA:\u{79C}\n\
THAANA LETTER SHEENU:\u{79D}\n\
THAANA LETTER SAADHU:\u{79E}\n\
THAANA LETTER DAADHU:\u{79F}\n\
THAANA LETTER TO:\u{7A0}\n\
THAANA LETTER ZO:\u{7A1}\n\
THAANA LETTER AINU:\u{7A2}\n\
THAANA LETTER GHAINU:\u{7A3}\n\
THAANA LETTER QAAFU:\u{7A4}\n\
THAANA LETTER WAAVU:\u{7A5}\n\
THAANA ABAFILI:\u{7A6}\n\
THAANA AABAAFILI:\u{7A7}\n\
THAANA IBIFILI:\u{7A8}\n\
THAANA EEBEEFILI:\u{7A9}\n\
THAANA UBUFILI:\u{7AA}\n\
THAANA OOBOOFILI:\u{7AB}\n\
THAANA EBEFILI:\u{7AC}\n\
THAANA EYBEYFILI:\u{7AD}\n";

pub const NAMES_05: &'static str = "THAANA OBOFILI:\u{7AE}\n\
THAANA OABOAFILI:\u{7AF}\n\
THAANA SUKUN:\u{7B0}\n\
THAANA LETTER NAA:\u{7B1}\n\
NKO DIGIT ZERO:\u{7C0}\n\
NKO DIGIT ONE:\u{7C1}\n\
NKO DIGIT TWO:\u{7C2}\n\
NKO DIGIT THREE:\u{7C3}\n\
NKO DIGIT FOUR:\u{7C4}\n\
NKO DIGIT FIVE:\u{7C5}\n\
NKO DIGIT SIX:\u{7C6}\n\
NKO DIGIT SEVEN:\u{7C7}\n\
NKO DIGIT EIGHT:\u{7C8}\n\
NKO DIGIT NINE:\u{7C9}\n\
NKO LETTER A:\u{7CA}\n\
NKO LETTER EE:\u{7CB}\n\
NKO LETTER I:\u{7CC}\n\
NKO LETTER E:\u{7CD}\n\
NKO LETTER U:\u{7CE}\n\
NKO LETTER OO:\u{7CF}\n\
NKO LETTER O:\u{7D0}\n\
NKO LETTER DAGBASINNA:\u{7D1}\n\
NKO LETTER N:\u{7D2}\n\
NKO LETTER BA:\u{7D3}\n\
NKO LETTER PA:\u{7D4}\n\
NKO LETTER TA:\u{7D5}\n\
NKO LETTER JA:\u{7D6}\n\
NKO LETTER CHA:\u{7D7}\n\
NKO LETTER DA:\u{7D8}\n\
NKO LETTER RA:\u{7D9}\n\
NKO LETTER RRA:\u{7DA}\n\
NKO LETTER SA:\u{7DB}\n\
NKO LETTER GBA:\u{7DC}\n\
NKO LETTER FA:\u{7DD}\n\
NKO LETTER KA:\u{7DE}\n\
NKO LETTER LA:\u{7DF}\n\
NKO LETTER NA WOLOSO:\u{7E0}\n\
NKO LETTER MA:\u{7E1}\n\
NKO LETTER NYA:\u{7E2}\n\
NKO LETTER NA:\u{7E3}\n\
NKO LETTER HA:\u{7E4}\n\
NKO LETTER WA:\u{7E5}\n\
NKO LETTER YA:\u{7E6}\n\
NKO LETTER NYA WOLOSO:\u{7E7}\n\
NKO LETTER JONA JA:\u{7E8}\n\
NKO LETTER JONA CHA:\u{7E9}\n\
NKO LETTER JONA RA:\u{7EA}\n\
NKO COMBINING SHORT HIGH TONE:\u{7EB}\n\
NKO COMBINING SHORT LOW TONE:\u{7EC}\n\
NKO COMBINING SHORT RISING TONE:\u{7ED}\n\
NKO COMBINING LONG DESCENDING TONE:\u{7EE}\n\
NKO COMBINING LONG HIGH TONE:\u{7EF}\n\
NKO COMBINING LONG LOW TONE:\u{7F0}\n\
NKO COMBINING LONG RISING TONE:\u{7F1}\n\
NKO COMBINING NASALIZATION MARK:\u{7F2}\n\
NKO COMBINING DOUBLE DOT ABOVE:\u{7F3}\n\
NKO HIGH TONE APOSTROPHE:\u{7F4}\n\
NKO LOW TONE APOSTROPHE:\u{7F5}\n\
NKO SYMBOL OO DENNEN:\u{7F6}\n\
NKO SYMBOL GBAKURUNEN:\u{7F7}\n\
NKO COMMA:\u{7F8}\n\
NKO EXCLAMATION MARK:\u{7F9}\n\
NKO LAJANYALAN:\u{7FA}\n\
NKO DANTAYALAN:\u{7FD}\n\
NKO DOROME SIGN:\u{7FE}\n\
NKO TAMAN SIGN:\u{7FF}\n\
SAMARITAN LETTER ALAF:\u{800}\n\
SAMARITAN LETTER BIT:\u{801}\n\
SAMARITAN LETTER GAMAN:\u{802}\n\
SAMARITAN LETTER DALAT:\u{803}\n\
SAMARITAN LETTER IY:\u{804}\n\
SAMARITAN LETTER BAA:\u{805}\n\
SAMARITAN LETTER ZEN:\u{806}\n\
SAMARITAN LETTER IT:\u{807}\n\
SAMARITAN LETTER TIT:\u{808}\n\
SAMARITAN LETTER YUT:\u{809}\n\
SAMARITAN LETTER KAAF:\u{80A}\n\
SAMARITAN LETTER LABAT:\u{80B}\n\
SAMARITAN LETTER MIM:\u{80C}\n\
SAMARITAN LETTER NUN:\u{80D}\n\
SAMARITAN LETTER SINGAAT:\u{80E}\n\
SAMARITAN LETTER IN:\u{80F}\n\
SAMARITAN LETTER FI:\u{810}\n\
SAMARITAN LETTER TSAADIY:\u{811}\n\
SAMARITAN LETTER QUF:\u{812}\n\
SAMARITAN LETTER RISH:\u{813}\n\
SAMARITAN LETTER SHAN:\u{814}\n\
SAMARITAN LETTER TAAF:\u{815}\n\
SAMARITAN MARK IN:\u{816}\n\
SAMARITAN MARK IN-ALAF:\u{817}\n\
SAMARITAN MARK OCCLUSION:\u{818}\n\
SAMARITAN MARK DAGESH:\u{819}\n\
SAMARITAN MODIFIER LETTER EPENTHETIC YUT:\u{81A}\n\
SAMARITAN MARK EPENTHETIC YUT:\u{81B}\n\
SAMARITAN VOWEL SIGN LONG E:\u{81C}\n\
SAMARITAN VOWEL SIGN E:\u{81D}\n\
SAMARITAN VOWEL SIGN OVERLONG AA:\u{81E}\n\
SAMARITAN VOWEL SIGN LONG AA:\u{81F}\n\
SAMARITAN VOWEL SIGN AA:\u{820}\n\
SAMARITAN VOWEL SIGN OVERLONG A:\u{821}\n\
SAMARITAN VOWEL SIGN LONG A:\u{822}\n\
SAMARITAN VOWEL SIGN A:\u{823}\n\
SAMARITAN MODIFIER LETTER SHORT A:\u{824}\n\
SAMARITAN VOWEL SIGN SHORT A:\u{825}\n\
SAMARITAN VOWEL SIGN LONG U:\u{826}\n\
SAMARITAN VOWEL SIGN U:\u{827}\n\
SAMARITAN MODIFIER LETTER I:\u{828}\n\
SAMARITAN VOWEL SIGN LONG I:\u{829}\n\
SAMARITAN VOWEL SIGN I:\u{82A}\n\
SAMARITAN VOWEL SIGN O:\u{82B}\n\
SAMARITAN VOWEL SIGN SUKUN:\u{82C}\n\
SAMARITAN MARK NEQUDAA:\u{82D}\n\
SAMARITAN PUNCTUATION NEQUDAA:\u{830}\n\
SAMARITAN PUNCTUATION AFSAAQ:\u{831}\n\
SAMARITAN PUNCTUATION ANGED:\u{832}\n\
SAMARITAN PUNCTUATION BAU:\u{833}\n\
SAMARITAN PUNCTUATION ATMAAU:\u{834}\n\
SAMARITAN PUNCTUATION SHIYYAALAA:\u{835}\n\
SAMARITAN ABBREVIATION MARK:\u{836}\n\
SAMARITAN PUNCTUATION MELODIC QITSA:\u{837}\n\
SAMARITAN PUNCTUATION ZIQAA:\u{838}\n\
SAMARITAN PUNCTUATION QITSA:\u{839}\n\
SAMARITAN PUNCTUATION ZAEF:\u{83A}\n\
SAMARITAN PUNCTUATION TURU:\u{83B}\n\
SAMARITAN PUNCTUATION ARKAANU:\u{83C}\n\
SAMARITAN PUNCTUATION SOF MASHFAAT:\u{83D}\n\
SAMARITAN PUNCTUATION ANNAAU:\u{83E}\n\
MANDAIC LETTER HALQA:\u{840}\n\
MANDAIC LETTER AB:\u{841}\n\
MANDAIC LETTER AG:\u{842}\n\
MANDAIC LETTER AD:\u{843}\n\
MANDAIC LETTER AH:\u{844}\n\
MANDAIC LETTER USHENNA:\u{845}\n\
MANDAIC LETTER AZ:\u{846}\n\
MANDAIC LETTER IT:\u{847}\n\
MANDAIC LETTER ATT:\u{848}\n\
MANDAIC LETTER AKSA:\u{849}\n\
MANDAIC LETTER AK:\u{84A}\n\
MANDAIC LETTER AL:\u{84B}\n\
MANDAIC LETTER AM:\u{84C}\n\
MANDAIC LETTER AN:\u{84D}\n\
MANDAIC LETTER AS:\u{84E}\n\
MANDAIC LETTER IN:\u{84F}\n\
MANDAIC LETTER AP:\u{850}\n\
MANDAIC LETTER ASZ:\u{851}\n\
MANDAIC LETTER AQ:\u{852}\n\
MANDAIC LETTER AR:\u{853}\n\
MANDAIC LETTER ASH:\u{854}\n\
MANDAIC LETTER AT:\u{855}\n\
MANDAIC LETTER DUSHENNA:\u{856}\n\
MANDAIC LETTER KAD:\u{857}\n\
MANDAIC LETTER AIN:\u{858}\n\
MANDAIC AFFRICATION MARK:\u{859}\n\
MANDAIC VOCALIZATION MARK:\u{85A}\n\
MANDAIC GEMINATION MARK:\u{85B}\n\
MANDAIC PUNCTUATION:\u{85E}\n\
SYRIAC LETTER MALAYALAM NGA:\u{860}\n\
SYRIAC LETTER MALAYALAM JA:\u{861}\n\
SYRIAC LETTER MALAYALAM NYA:\u{862}\n\
SYRIAC LETTER MALAYALAM TTA:\u{863}\n\
SYRIAC LETTER MALAYALAM NNA:\u{864}\n\
SYRIAC LETTER MALAYALAM NNNA:\u{865}\n\
SYRIAC LETTER MALAYALAM BHA:\u{866}\n\
SYRIAC LETTER MALAYALAM RA:\u{867}\n\
SYRIAC LETTER MALAYALAM LLA:\u{868}\n\
SYRIAC LETTER MALAYALAM LLLA:\u{869}\n\
SYRIAC LETTER MALAYALAM SSA:\u{86A}\n\
ARABIC LETTER ALEF WITH ATTACHED FATHA:\u{870}\n\
ARABIC LETTER ALEF WITH ATTACHED TOP RIGHT FATHA:\u{871}\n\
ARABIC LETTER ALEF WITH RIGHT MIDDLE STROKE:\u{872}\n\
ARABIC LETTER ALEF WITH LEFT MIDDLE STROKE:\u{873}\n\
ARABIC LETTER ALEF WITH ATTACHED KASRA:\u{874}\n\
ARABIC LETTER ALEF WITH ATTACHED BOTTOM RIGHT KASRA:\u{875}\n\
ARABIC LETTER ALEF WITH ATTACHED ROUND DOT ABOVE:\u{876}\n\
ARABIC LETTER ALEF WITH ATTACHED RIGHT ROUND DOT:\u{877}\n\
ARABIC LETTER ALEF WITH ATTACHED LEFT ROUND DOT:\u{878}\n\
ARABIC LETTER ALEF WITH ATTACHED ROUND DOT BELOW:\u{879}\n\
ARABIC LETTER ALEF WITH DOT ABOVE:\u{87A}\n\
ARABIC LETTER ALEF WITH ATTACHED TOP RIGHT FATHA AND DOT ABOVE:\u{87B}\n\
ARABIC LETTER ALEF WITH RIGHT MIDDLE STROKE AND DOT ABOVE:\u{87C}\n\
ARABIC LETTER ALEF WITH ATTACHED BOTTOM RIGHT KASRA AND DOT ABOVE:\u{87D}\n\
ARABIC LETTER ALEF WITH ATTACHED TOP RIGHT FATHA AND LEFT RING:\u{87E}\n\
ARABIC LETTER ALEF WITH RIGHT MIDDLE STROKE AND LEFT RING:\u{87F}\n\
ARABIC LETTER ALEF WITH ATTACHED BOTTOM RIGHT KASRA AND LEFT RING:\u{880}\n\
ARABIC LETTER ALEF WITH ATTACHED RIGHT HAMZA:\u{881}\n\
ARABIC LETTER ALEF WITH ATTACHED LEFT HAMZA:\u{882}\n\
ARABIC TATWEEL WITH OVERSTRUCK HAMZA:\u{883}\n\
ARABIC TATWEEL WITH OVERSTRUCK WAW:\u{884}\n\
ARABIC TATWEEL WITH TWO DOTS BELOW:\u{885}\n\
ARABIC LETTER THIN YEH:\u{886}\n\
ARABIC BASELINE ROUND DOT:\u{887}\n\
ARABIC RAISED ROUND DOT:\u{888}\n\
ARABIC LETTER NOON WITH INVERTED SMALL V:\u{889}\n\
ARABIC LETTER HAH WITH INVERTED SMALL V BELOW:\u{88A}\n\
ARABIC LETTER TAH WITH DOT BELOW:\u{88B}\n\
ARABIC LETTER TAH WITH THREE DOTS BELOW:\u{88C}\n\
ARABIC LETTER KEHEH WITH TWO DOTS VERTICALLY BELOW:\u{88D}\n\
ARABIC VERTICAL TAIL:\u{88E}\n\
ARABIC POUND MARK ABOVE:\u{890}\n\
ARABIC PIASTRE MARK ABOVE:\u{891}\n\
ARABIC SMALL HIGH WORD AL-JUZ:\u{898}\n\
ARABIC SMALL LOW WORD ISHMAAM:\u{899}\n\
ARABIC SMALL LOW WORD IMAALA:\u{89A}\n\
ARABIC SMALL LOW WORD TASHEEL:\u{89B}\n\
ARABIC MADDA WAAJIB:\u{89C}\n\
ARABIC SUPERSCRIPT ALEF MOKHASSAS:\u{89D}\n\
ARABIC DOUBLED MADDA:\u{89E}\n\
ARABIC HALF MADDA OVER MADDA:\u{89F}\n\
ARABIC LETTER BEH WITH SMALL V BELOW:\u{8A0}\n\
ARABIC LETTER BEH WITH HAMZA ABOVE:\u{8A1}\n\
ARABIC LETTER JEEM WITH TWO DOTS ABOVE:\u{8A2}\n\
ARABIC LETTER TAH WITH TWO DOTS ABOVE:\u{8A3}\n\
ARABIC LETTER FEH WITH DOT BELOW AND THREE DOTS ABOVE:\u{8A4}\n\
ARABIC LETTER QAF WITH DOT BELOW:\u{8A5}\n\
ARABIC LETTER LAM WITH DOUBLE BAR:\u{8A6}\n\
ARABIC LETTER MEEM WITH THREE DOTS ABOVE:\u{8A7}\n\
ARABIC LETTER YEH WITH TWO DOTS BELOW AND HAMZA ABOVE:\u{8A8}\n\
ARABIC LETTER YEH WITH TWO DOTS BELOW AND DOT ABOVE:\u{8A9}\n\
ARABIC LETTER REH WITH LOOP:\u{8AA}\n\
ARABIC LETTER WAW WITH DOT WITHIN:\u{8AB}\n\
ARABIC LETTER ROHINGYA YEH:\u{8AC}\n\
ARABIC LETTER LOW ALEF:\u{8AD}\n\
ARABIC LETTER DAL WITH THREE DOTS BELOW:\u{8AE}\n\
ARABIC LETTER SAD WITH THREE DOTS BELOW:\u{8AF}\n\
ARABIC LETTER GAF WITH INVERTED STROKE:\u{8B0}\n\
ARABIC LETTER STRAIGHT WAW:\u{8B1}\n\
ARABIC LETTER ZAIN WITH INVERTED V ABOVE:\u{8B2}\n\
ARABIC LETTER AIN WITH THREE DOTS BELOW:\u{8B3}\n\
ARABIC LETTER KAF WITH DOT BELOW:\u{8B4}\n\
ARABIC LETTER QAF WITH DOT BELOW AND NO DOTS ABOVE:\u{8B5}\n\
ARABIC LETTER BEH WITH SMALL MEEM ABOVE:\u{8B6}\n\
ARABIC LETTER PEH WITH SMALL MEEM ABOVE:\u{8B7}\n\
ARABIC LETTER TEH WITH SMALL TEH ABOVE:\u{8B8}\n\
ARABIC LETTER REH WITH SMALL NOON ABOVE:\u{8B9}\n\
ARABIC LETTER YEH WITH TWO DOTS BELOW AND SMALL NOON ABOVE:\u{8BA}\n\
ARABIC LETTER AFRICAN FEH:\u{8BB}\n\
ARABIC LETTER AFRICAN QAF:\u{8BC}\n\
ARABIC LETTER AFRICAN NOON:\u{8BD}\n\
ARABIC LETTER PEH WITH SMALL V:\u{8BE}\n\
ARABIC LETTER TEH WITH SMALL V:\u{8BF}\n\
ARABIC LETTER TTEH WITH SMALL V:\u{8C0}\n\
ARABIC LETTER TCHEH WITH SMALL V:\u{8C1}\n\
ARABIC LETTER KEHEH WITH SMALL V:\u{8C2}\n\
ARABIC LETTER GHAIN WITH THREE DOTS ABOVE:\u{8C3}\n\
ARABIC LETTER AFRICAN QAF WITH THREE DOTS ABOVE:\u{8C4}\n\
ARABIC LETTER JEEM WITH THREE DOTS ABOVE:\u{8C5}\n\
ARABIC LETTER JEEM WITH THREE DOTS BELOW:\u{8C6}\n\
ARABIC LETTER LAM WITH SMALL ARABIC LETTER TAH ABOVE:\u{8C7}\n\
ARABIC LETTER GRAF:\u{8C8}\n\
ARABIC SMALL FARSI YEH:\u{8C9}\n\
ARABIC SMALL HIGH FARSI YEH:\u{8CA}\n\
ARABIC SMALL HIGH YEH BARREE WITH TWO DOTS BELOW:\u{8CB}\n\
ARABIC SMALL HIGH WORD SAH:\u{8CC}\n\
ARABIC SMALL HIGH ZAH:\u{8CD}\n\
ARABIC LARGE ROUND DOT ABOVE:\u{8CE}\n\
ARABIC LARGE ROUND DOT BELOW:\u{8CF}\n\
ARABIC SUKUN BELOW:\u{8D0}\n\
ARABIC LARGE CIRCLE BELOW:\u{8D1}\n\
ARABIC LARGE ROUND DOT INSIDE CIRCLE BELOW:\u{8D2}\n\
ARABIC SMALL LOW WAW:\u{8D3}\n\
ARABIC SMALL HIGH WORD AR-RUB:\u{8D4}\n\
ARABIC SMALL HIGH SAD:\u{8D5}\n\
ARABIC SMALL HIGH AIN:\u{8D6}\n\
ARABIC SMALL HIGH QAF:\u{8D7}\n\
ARABIC SMALL HIGH NOON WITH KASRA:\u{8D8}\n\
ARABIC SMALL LOW NOON WITH KASRA:\u{8D9}\n\
ARABIC SMALL HIGH WORD ATH-THALATHA:\u{8DA}\n\
ARABIC SMALL HIGH WORD AS-SAJDA:\u{8DB}\n\
ARABIC SMALL HIGH WORD AN-NISF:\u{8DC}\n\
ARABIC SMALL HIGH WORD SAKTA:\u{8DD}\n\
ARABIC SMALL HIGH WORD QIF:\u{8DE}\n\
ARABIC SMALL HIGH WORD WAQFA:\u{8DF}\n\
ARABIC SMALL HIGH FOOTNOTE MARKER:\u{8E0}\n\
ARABIC SMALL HIGH SIGN SAFHA:\u{8E1}\n\
ARABIC DISPUTED END OF AYAH:\u{8E2}\n\
ARABIC TURNED DAMMA BELOW:\u{8E3}\n\
ARABIC CURLY FATHA:\u{8E4}\n\
ARABIC CURLY DAMMA:\u{8E5}\n\
ARABIC CURLY KASRA:\u{8E6}\n\
ARABIC CURLY FATHATAN:\u{8E7}\n\
ARABIC CURLY DAMMATAN:\u{8E8}\n\
ARABIC CURLY KASRATAN:\u{8E9}\n\
ARABIC TONE ONE DOT ABOVE:\u{8EA}\n\
ARABIC TONE TWO DOTS ABOVE:\u{8EB}\n\
ARABIC TONE LOOP ABOVE:\u{8EC}\n\
ARABIC TONE ONE DOT BELOW:\u{8ED}\n\
ARABIC TONE TWO DOTS BELOW:\u{8EE}\n\
ARABIC TONE LOOP BELOW:\u{8EF}\n\
ARABIC OPEN FATHATAN:\u{8F0}\n\
ARABIC OPEN DAMMATAN:\u{8F1}\n\
ARABIC OPEN KASRATAN:\u{8F2}\n\
ARABIC SMALL HIGH WAW:\u{8F3}\n\
ARABIC FATHA WITH RING:\u{8F4}\n\
ARABIC FATHA WITH DOT ABOVE:\u{8F5}\n\
ARABIC KASRA WITH DOT BELOW:\u{8F6}\n\
ARABIC LEFT ARROWHEAD ABOVE:\u{8F7}\n\
ARABIC RIGHT ARROWHEAD ABOVE:\u{8F8}\n\
ARABIC LEFT ARROWHEAD BELOW:\u{8F9}\n\
ARABIC RIGHT ARROWHEAD BELOW:\u{8FA}\n\
ARABIC DOUBLE RIGHT ARROWHEAD ABOVE:\u{8FB}\n\
ARABIC DOUBLE RIGHT ARROWHEAD ABOVE WITH DOT:\u{8FC}\n\
ARABIC RIGHT ARROWHEAD ABOVE WITH DOT:\u{8FD}\n\
ARABIC DAMMA WITH DOT:\u{8FE}\n\
ARABIC MARK SIDEWAYS NOON GHUNNA:\u{8FF}\n\
DEVANAGARI SIGN INVERTED CANDRABINDU:\u{900}\n\
DEVANAGARI SIGN CANDRABINDU:\u{901}\n\
DEVANAGARI SIGN ANUSVARA:\u{902}\n\
DEVANAGARI SIGN VISARGA:\u{903}\n\
DEVANAGARI LETTER SHORT A:\u{904}\n\
DEVANAGARI LETTER A:\u{905}\n\
DEVANAGARI LETTER AA:\u{906}\n\
DEVANAGARI LETTER I:\u{907}\n\
DEVANAGARI LETTER II:\u{908}\n\
DEVANAGARI LETTER U:\u{909}\n\
DEVANAGARI LETTER UU:\u{90A}\n\
DEVANAGARI LETTER VOCALIC R:\u{90B}\n\
DEVANAGARI LETTER VOCALIC L:\u{90C}\n\
DEVANAGARI LETTER CANDRA E:\u{90D}\n\
DEVANAGARI LETTER SHORT E:\u{90E}\n\
DEVANAGARI LETTER E:\u{90F}\n\
DEVANAGARI LETTER AI:\u{910}\n\
DEVANAGARI LETTER CANDRA O:\u{911}\n\
DEVANAGARI LETTER SHORT O:\u{912}\n\
DEVANAGARI LETTER O:\u{913}\n\
DEVANAGARI LETTER AU:\u{914}\n\
DEVANAGARI LETTER KA:\u{915}\n\
DEVANAGARI LETTER KHA:\u{916}\n\
DEVANAGARI LETTER GA:\u{917}\n\
DEVANAGARI LETTER GHA:\u{918}\n\
DEVANAGARI LETTER NGA:\u{919}\n\
DEVANAGARI LETTER CA:\u{91A}\n\
DEVANAGARI LETTER CHA:\u{91B}\n\
DEVANAGARI LETTER JA:\u{91C}\n\
DEVANAGARI LETTER JHA:\u{91D}\n\
DEVANAGARI LETTER NYA:\u{91E}\n\
DEVANAGARI LETTER TTA:\u{91F}\n\
DEVANAGARI LETTER TTHA:\u{920}\n\
DEVANAGARI LETTER DDA:\u{921}\n\
DEVANAGARI LETTER DDHA:\u{922}\n\
DEVANAGARI LETTER NNA:\u{923}\n\
DEVANAGARI LETTER TA:\u{924}\n\
DEVANAGARI LETTER THA:\u{925}\n\
DEVANAGARI LETTER DA:\u{926}\n\
DEVANAGARI LETTER DHA:\u{927}\n\
DEVANAGARI LETTER NA:\u{928}\n\
DEVANAGARI LETTER NNNA:\u{929}\n\
DEVANAGARI LETTER PA:\u{92A}\n\
DEVANAGARI LETTER PHA:\u{92B}\n\
DEVANAGARI LETTER BA:\u{92C}\n\
DEVANAGARI LETTER BHA:\u{92D}\n\
DEVANAGARI LETTER MA:\u{92E}\n\
DEVANAGARI LETTER YA:\u{92F}\n\
DEVANAGARI LETTER RA:\u{930}\n\
DEVANAGARI LETTER RRA:\u{931}\n\
DEVANAGARI LETTER LA:\u{932}\n\
DEVANAGARI LETTER LLA:\u{933}\n\
DEVANAGARI LETTER LLLA:\u{934}\n\
DEVANAGARI LETTER VA:\u{935}\n\
DEVANAGARI LETTER SHA:\u{936}\n\
DEVANAGARI LETTER SSA:\u{937}\n\
DEVANAGARI LETTER SA:\u{938}\n\
DEVANAGARI LETTER HA:\u{939}\n\
DEVANAGARI VOWEL SIGN OE:\u{93A}\n\
DEVANAGARI VOWEL SIGN OOE:\u{93B}\n\
DEVANAGARI SIGN NUKTA:\u{93C}\n\
DEVANAGARI SIGN AVAGRAHA:\u{93D}\n\
DEVANAGARI VOWEL SIGN AA:\u{93E}\n\
DEVANAGARI VOWEL SIGN I:\u{93F}\n\
DEVANAGARI VOWEL SIGN II:\u{940}\n\
DEVANAGARI VOWEL SIGN U:\u{941}\n\
DEVANAGARI VOWEL SIGN UU:\u{942}\n\
DEVANAGARI VOWEL SIGN VOCALIC R:\u{943}\n\
DEVANAGARI VOWEL SIGN VOCALIC RR:\u{944}\n\
DEVANAGARI VOWEL SIGN CANDRA E:\u{945}\n\
DEVANAGARI VOWEL SIGN SHORT E:\u{946}\n\
DEVANAGARI VOWEL SIGN E:\u{947}\n\
DEVANAGARI VOWEL SIGN AI:\u{948}\n\
DEVANAGARI VOWEL SIGN CANDRA O:\u{949}\n\
DEVANAGARI VOWEL SIGN SHORT O:\u{94A}\n\
DEVANAGARI VOWEL SIGN O:\u{94B}\n\
DEVANAGARI VOWEL SIGN AU:\u{94C}\n\
DEVANAGARI SIGN VIRAMA:\u{94D}\n\
DEVANAGARI VOWEL SIGN PRISHTHAMATRA E:\u{94E}\n\
DEVANAGARI VOWEL SIGN AW:\u{94F}\n\
DEVANAGARI OM:\u{950}\n\
DEVANAGARI STRESS SIGN UDATTA:\u{951}\n\
DEVANAGARI STRESS SIGN ANUDATTA:\u{952}\n\
DEVANAGARI GRAVE ACCENT:\u{953}\n\
DEVANAGARI ACUTE ACCENT:\u{954}\n\
DEVANAGARI VOWEL SIGN CANDRA LONG E:\u{955}\n\
DEVANAGARI VOWEL SIGN UE:\u{956}\n\
DEVANAGARI VOWEL SIGN UUE:\u{957}\n\
DEVANAGARI LETTER QA:\u{958}\n\
DEVANAGARI LETTER KHHA:\u{959}\n\
DEVANAGARI LETTER GHHA:\u{95A}\n\
DEVANAGARI LETTER ZA:\u{95B}\n\
DEVANAGARI LETTER DDDHA:\u{95C}\n\
DEVANAGARI LETTER RHA:\u{95D}\n\
DEVANAGARI LETTER FA:\u{95E}\n\
DEVANAGARI LETTER YYA:\u{95F}\n";

pub const NAMES_06: &'static str = "DEVANAGARI LETTER VOCALIC RR:\u{960}\n\
DEVANAGARI LETTER VOCALIC LL:\u{961}\n\
DEVANAGARI VOWEL SIGN VOCALIC L:\u{962}\n\
DEVANAGARI VOWEL SIGN VOCALIC LL:\u{963}\n\
DEVANAGARI DANDA:\u{964}\n\
DEVANAGARI DOUBLE DANDA:\u{965}\n\
DEVANAGARI DIGIT ZERO:\u{966}\n\
DEVANAGARI DIGIT ONE:\u{967}\n\
DEVANAGARI DIGIT TWO:\u{968}\n\
DEVANAGARI DIGIT THREE:\u{969}\n\
DEVANAGARI DIGIT FOUR:\u{96A}\n\
DEVANAGARI DIGIT FIVE:\u{96B}\n\
DEVANAGARI DIGIT SIX:\u{96C}\n\
DEVANAGARI DIGIT SEVEN:\u{96D}\n\
DEVANAGARI DIGIT EIGHT:\u{96E}\n\
DEVANAGARI DIGIT NINE:\u{96F}\n\
DEVANAGARI ABBREVIATION SIGN:\u{970}\n\
DEVANAGARI SIGN HIGH SPACING DOT:\u{971}\n\
DEVANAGARI LETTER CANDRA A:\u{972}\n\
DEVANAGARI LETTER OE:\u{973}\n\
DEVANAGARI LETTER OOE:\u{974}\n\
DEVANAGARI LETTER AW:\u{975}\n\
DEVANAGARI LETTER UE:\u{976}\n\
DEVANAGARI LETTER UUE:\u{977}\n\
DEVANAGARI LETTER MARWARI DDA:\u{978}\n\
DEVANAGARI LETTER ZHA:\u{979}\n\
DEVANAGARI LETTER HEAVY YA:\u{97A}\n\
DEVANAGARI LETTER GGA:\u{97B}\n\
DEVANAGARI LETTER JJA:\u{97C}\n\
DEVANAGARI LETTER GLOTTAL STOP:\u{97D}\n\
DEVANAGARI LETTER DDDA:\u{97E}\n\
DEVANAGARI LETTER BBA:\u{97F}\n\
BENGALI ANJI:\u{980}\n\
BENGALI SIGN CANDRABINDU:\u{981}\n\
BENGALI SIGN ANUSVARA:\u{982}\n\
BENGALI SIGN VISARGA:\u{983}\n\
BENGALI LETTER A:\u{985}\n\
BENGALI LETTER AA:\u{986}\n\
BENGALI LETTER I:\u{987}\n\
BENGALI LETTER II:\u{988}\n\
BENGALI LETTER U:\u{989}\n\
BENGALI LETTER UU:\u{98A}\n\
BENGALI LETTER VOCALIC R:\u{98B}\n\
BENGALI LETTER VOCALIC L:\u{98C}\n\
BENGALI LETTER E:\u{98F}\n\
BENGALI LETTER AI:\u{990}\n\
BENGALI LETTER O:\u{993}\n\
BENGALI LETTER AU:\u{994}\n\
BENGALI LETTER KA:\u{995}\n\
BENGALI LETTER KHA:\u{996}\n\
BENGALI LETTER GA:\u{997}\n\
BENGALI LETTER GHA:\u{998}\n\
BENGALI LETTER NGA:\u{999}\n\
BENGALI LETTER CA:\u{99A}\n\
BENGALI LETTER CHA:\u{99B}\n\
BENGALI LETTER JA:\u{99C}\n\
BENGALI LETTER JHA:\u{99D}\n\
BENGALI LETTER NYA:\u{99E}\n\
BENGALI LETTER TTA:\u{99F}\n\
BENGALI LETTER TTHA:\u{9A0}\n\
BENGALI LETTER DDA:\u{9A1}\n\
BENGALI LETTER DDHA:\u{9A2}\n\
BENGALI LETTER NNA:\u{9A3}\n\
BENGALI LETTER TA:\u{9A4}\n\
BENGALI LETTER THA:\u{9A5}\n\
BENGALI LETTER DA:\u{9A6}\n\
BENGALI LETTER DHA:\u{9A7}\n\
BENGALI LETTER NA:\u{9A8}\n\
BENGALI LETTER PA:\u{9AA}\n\
BENGALI LETTER PHA:\u{9AB}\n\
BENGALI LETTER BA:\u{9AC}\n\
BENGALI LETTER BHA:\u{9AD}\n\
BENGALI LETTER MA:\u{9AE}\n\
BENGALI LETTER YA:\u{9AF}\n\
BENGALI LETTER RA:\u{9B0}\n\
BENGALI LETTER LA:\u{9B2}\n\
BENGALI LETTER SHA:\u{9B6}\n\
BENGALI LETTER SSA:\u{9B7}\n\
BENGALI LETTER SA:\u{9B8}\n\
BENGALI LETTER HA:\u{9B9}\n\
BENGALI SIGN NUKTA:\u{9BC}\n\
BENGALI SIGN AVAGRAHA:\u{9BD}\n\
BENGALI VOWEL SIGN AA:\u{9BE}\n\
BENGALI VOWEL SIGN I:\u{9BF}\n\
BENGALI VOWEL SIGN II:\u{9C0}\n\
BENGALI VOWEL SIGN U:\u{9C1}\n\
BENGALI VOWEL SIGN UU:\u{9C2}\n\
BENGALI VOWEL SIGN VOCALIC R:\u{9C3}\n\
BENGALI VOWEL SIGN VOCALIC RR:\u{9C4}\n\
BENGALI VOWEL SIGN E:\u{9C7}\n\
BENGALI VOWEL SIGN AI:\u{9C8}\n\
BENGALI VOWEL SIGN O:\u{9CB}\n\
BENGALI VOWEL SIGN AU:\u{9CC}\n\
BENGALI SIGN VIRAMA:\u{9CD}\n\
BENGALI LETTER KHANDA TA:\u{9CE}\n\
BENGALI AU LENGTH MARK:\u{9D7}\n\
BENGALI LETTER RRA:\u{9DC}\n\
BENGALI LETTER RHA:\u{9DD}\n\
BENGALI LETTER YYA:\u{9DF}\n\
BENGALI LETTER VOCALIC RR:\u{9E0}\n\
BENGALI LETTER VOCALIC LL:\u{9E1}\n\
BENGALI VOWEL SIGN VOCALIC L:\u{9E2}\n\
BENGALI VOWEL SIGN VOCALIC LL:\u{9E3}\n\
BENGALI DIGIT ZERO:\u{9E6}\n\
BENGALI DIGIT ONE:\u{9E7}\n\
BENGALI DIGIT TWO:\u{9E8}\n\
BENGALI DIGIT THREE:\u{9E9}\n\
BENGALI DIGIT FOUR:\u{9EA}\n\
BENGALI DIGIT FIVE:\u{9EB}\n\
BENGALI DIGIT SIX:\u{9EC}\n\
BENGALI DIGIT SEVEN:\u{9ED}\n\
BENGALI DIGIT EIGHT:\u{9EE}\n\
BENGALI DIGIT NINE:\u{9EF}\n\
BENGALI LETTER RA WITH MIDDLE DIAGONAL:\u{9F0}\n\
BENGALI LETTER RA WITH LOWER DIAGONAL:\u{9F1}\n\
BENGALI RUPEE MARK:\u{9F2}\n\
BENGALI RUPEE SIGN:\u{9F3}\n\
BENGALI CURRENCY NUMERATOR ONE:\u{9F4}\n\
BENGALI CURRENCY NUMERATOR TWO:\u{9F5}\n\
BENGALI CURRENCY NUMERATOR THREE:\u{9F6}\n\
BENGALI CURRENCY NUMERATOR FOUR:\u{9F7}\n\
BENGALI CURRENCY NUMERATOR ONE LESS THAN THE DENOMINATOR:\u{9F8}\n\
BENGALI CURRENCY DENOMINATOR SIXTEEN:\u{9F9}\n\
BENGALI ISSHAR:\u{9FA}\n\
BENGALI GANDA MARK:\u{9FB}\n\
BENGALI LETTER VEDIC ANUSVARA:\u{9FC}\n\
BENGALI ABBREVIATION SIGN:\u{9FD}\n\
BENGALI SANDHI MARK:\u{9FE}\n\
GURMUKHI SIGN ADAK BINDI:\u{A01}\n\
GURMUKHI SIGN BINDI:\u{A02}\n\
GURMUKHI SIGN VISARGA:\u{A03}\n\
GURMUKHI LETTER A:\u{A05}\n\
GURMUKHI LETTER AA:\u{A06}\n\
GURMUKHI LETTER I:\u{A07}\n\
GURMUKHI LETTER II:\u{A08}\n\
GURMUKHI LETTER U:\u{A09}\n\
GURMUKHI LETTER UU:\u{A0A}\n\
GURMUKHI LETTER EE:\u{A0F}\n\
GURMUKHI LETTER AI:\u{A10}\n\
GURMUKHI LETTER OO:\u{A13}\n\
GURMUKHI LETTER AU:\u{A14}\n\
GURMUKHI LETTER KA:\u{A15}\n\
GURMUKHI LETTER KHA:\u{A16}\n\
GURMUKHI LETTER GA:\u{A17}\n\
GURMUKHI LETTER GHA:\u{A18}\n\
GURMUKHI LETTER NGA:\u{A19}\n\
GURMUKHI LETTER CA:\u{A1A}\n\
GURMUKHI LETTER CHA:\u{A1B}\n\
GURMUKHI LETTER JA:\u{A1C}\n\
GURMUKHI LETTER JHA:\u{A1D}\n\
GURMUKHI LETTER NYA:\u{A1E}\n\
GURMUKHI LETTER TTA:\u{A1F}\n\
GURMUKHI LETTER TTHA:\u{A20}\n\
GURMUKHI LETTER DDA:\u{A21}\n\
GURMUKHI LETTER DDHA:\u{A22}\n\
GURMUKHI LETTER NNA:\u{A23}\n\
GURMUKHI LETTER TA:\u{A24}\n\
GURMUKHI LETTER THA:\u{A25}\n\
GURMUKHI LETTER DA:\u{A26}\n\
GURMUKHI LETTER DHA:\u{A27}\n\
GURMUKHI LETTER NA:\u{A28}\n\
GURMUKHI LETTER PA:\u{A2A}\n\
GURMUKHI LETTER PHA:\u{A2B}\n\
GURMUKHI LETTER BA:\u{A2C}\n\
GURMUKHI LETTER BHA:\u{A2D}\n\
GURMUKHI LETTER MA:\u{A2E}\n\
GURMUKHI LETTER YA:\u{A2F}\n\
GURMUKHI LETTER RA:\u{A30}\n\
GURMUKHI LETTER LA:\u{A32}\n\
GURMUKHI LETTER LLA:\u{A33}\n\
GURMUKHI LETTER VA:\u{A35}\n\
GURMUKHI LETTER SHA:\u{A36}\n\
GURMUKHI LETTER SA:\u{A38}\n\
GURMUKHI LETTER HA:\u{A39}\n\
GURMUKHI SIGN NUKTA:\u{A3C}\n\
GURMUKHI VOWEL SIGN AA:\u{A3E}\n\
GURMUKHI VOWEL SIGN I:\u{A3F}\n\
GURMUKHI VOWEL SIGN II:\u{A40}\n\
GURMUKHI VOWEL SIGN U:\u{A41}\n\
GURMUKHI VOWEL SIGN UU:\u{A42}\n\
GURMUKHI VOWEL SIGN EE:\u{A47}\n\
GURMUKHI VOWEL SIGN AI:\u{A48}\n\
GURMUKHI VOWEL SIGN OO:\u{A4B}\n\
GURMUKHI VOWEL SIGN AU:\u{A4C}\n\
GURMUKHI SIGN VIRAMA:\u{A4D}\n\
GURMUKHI SIGN UDAAT:\u{A51}\n\
GURMUKHI LETTER KHHA:\u{A59}\n\
GURMUKHI LETTER GHHA:\u{A5A}\n\
GURMUKHI LETTER ZA:\u{A5B}\n\
GURMUKHI LETTER RRA:\u{A5C}\n\
GURMUKHI LETTER FA:\u{A5E}\n\
GURMUKHI DIGIT ZERO:\u{A66}\n\
GURMUKHI DIGIT ONE:\u{A67}\n\
GURMUKHI DIGIT TWO:\u{A68}\n\
GURMUKHI DIGIT THREE:\u{A69}\n\
GURMUKHI DIGIT FOUR:\u{A6A}\n\
GURMUKHI DIGIT FIVE:\u{A6B}\n\
GURMUKHI DIGIT SIX:\u{A6C}\n\
GURMUKHI DIGIT SEVEN:\u{A6D}\n\
GURMUKHI DIGIT EIGHT:\u{A6E}\n\
GURMUKHI DIGIT NINE:\u{A6F}\n\
GURMUKHI TIPPI:\u{A70}\n\
GURMUKHI ADDAK:\u{A71}\n\
GURMUKHI IRI:\u{A72}\n\
GURMUKHI URA:\u{A73}\n\
GURMUKHI EK ONKAR:\u{A74}\n\
GURMUKHI SIGN YAKASH:\u{A75}\n\
GURMUKHI ABBREVIATION SIGN:\u{A76}\n\
GUJARATI SIGN CANDRABINDU:\u{A81}\n\
GUJARATI SIGN ANUSVARA:\u{A82}\n\
GUJARATI SIGN VISARGA:\u{A83}\n\
GUJARATI LETTER A:\u{A85}\n\
GUJARATI LETTER AA:\u{A86}\n\
GUJARATI LETTER I:\u{A87}\n\
GUJARATI LETTER II:\u{A88}\n\
GUJARATI LETTER U:\u{A89}\n\
GUJARATI LETTER UU:\u{A8A}\n\
GUJARATI LETTER VOCALIC R:\u{A8B}\n\
GUJARATI LETTER VOCALIC L:\u{A8C}\n\
GUJARATI VOWEL CANDRA E:\u{A8D}\n\
GUJARATI LETTER E:\u{A8F}\n\
GUJARATI LETTER AI:\u{A90}\n\
GUJARATI VOWEL CANDRA O:\u{A91}\n\
GUJARATI LETTER O:\u{A93}\n\
GUJARATI LETTER AU:\u{A94}\n\
GUJARATI LETTER KA:\u{A95}\n\
GUJARATI LETTER KHA:\u{A96}\n\
GUJARATI LETTER GA:\u{A97}\n\
GUJARATI LETTER GHA:\u{A98}\n\
GUJARATI LETTER NGA:\u{A99}\n\
GUJARATI LETTER CA:\u{A9A}\n\
GUJARATI LETTER CHA:\u{A9B}\n\
GUJARATI LETTER JA:\u{A9C}\n\
GUJARATI LETTER JHA:\u{A9D}\n\
GUJARATI LETTER NYA:\u{A9E}\n\
GUJARATI LETTER TTA:\u{A9F}\n\
GUJARATI LETTER TTHA:\u{AA0}\n\
GUJARATI LETTER DDA:\u{AA1}\n\
GUJARATI LETTER DDHA:\u{AA2}\n\
GUJARATI LETTER NNA:\u{AA3}\n\
GUJARATI LETTER TA:\u{AA4}\n\
GUJARATI LETTER THA:\u{AA5}\n\
GUJARATI LETTER DA:\u{AA6}\n\
GUJARATI LETTER DHA:\u{AA7}\n\
GUJARATI LETTER NA:\u{AA8}\n\
GUJARATI LETTER PA:\u{AAA}\n\
GUJARATI LETTER PHA:\u{AAB}\n\
GUJARATI LETTER BA:\u{AAC}\n\
GUJARATI LETTER BHA:\u{AAD}\n\
GUJARATI LETTER MA:\u{AAE}\n\
GUJARATI LETTER YA:\u{AAF}\n\
GUJARATI LETTER RA:\u{AB0}\n\
GUJARATI LETTER LA:\u{AB2}\n\
GUJARATI LETTER LLA:\u{AB3}\n\
GUJARATI LETTER VA:\u{AB5}\n\
GUJARATI LETTER SHA:\u{AB6}\n\
GUJARATI LETTER SSA:\u{AB7}\n\
GUJARATI LETTER SA:\u{AB8}\n\
GUJARATI LETTER HA:\u{AB9}\n\
GUJARATI SIGN NUKTA:\u{ABC}\n\
GUJARATI SIGN AVAGRAHA:\u{ABD}\n\
GUJARATI VOWEL SIGN AA:\u{ABE}\n\
GUJARATI VOWEL SIGN I:\u{ABF}\n\
GUJARATI VOWEL SIGN II:\u{AC0}\n\
GUJARATI VOWEL SIGN U:\u{AC1}\n\
GUJARATI VOWEL SIGN UU:\u{AC2}\n\
GUJARATI VOWEL SIGN VOCALIC R:\u{AC3}\n\
GUJARATI VOWEL SIGN VOCALIC RR:\u{AC4}\n\
GUJARATI VOWEL SIGN CANDRA E:\u{AC5}\n\
GUJARATI VOWEL SIGN E:\u{AC7}\n\
GUJARATI VOWEL SIGN AI:\u{AC8}\n\
GUJARATI VOWEL SIGN CANDRA O:\u{AC9}\n\
GUJARATI VOWEL SIGN O:\u{ACB}\n\
GUJARATI VOWEL SIGN AU:\u{ACC}\n\
GUJARATI SIGN VIRAMA:\u{ACD}\n\
GUJARATI OM:\u{AD0}\n\
GUJARATI LETTER VOCALIC RR:\u{AE0}\n\
GUJARATI LETTER VOCALIC LL:\u{AE1}\n\
GUJARATI VOWEL SIGN VOCALIC L:\u{AE2}\n\
GUJARATI VOWEL SIGN VOCALIC LL:\u{AE3}\n\
GUJARATI DIGIT ZERO:\u{AE6}\n\
GUJARATI DIGIT ONE:\u{AE7}\n\
GUJARATI DIGIT TWO:\u{AE8}\n\
GUJARATI DIGIT THREE:\u{AE9}\n\
GUJARATI DIGIT FOUR:\u{AEA}\n\
GUJARATI DIGIT FIVE:\u{AEB}\n\
GUJARATI DIGIT SIX:\u{AEC}\n\
GUJARATI DIGIT SEVEN:\u{AED}\n\
GUJARATI DIGIT EIGHT:\u{AEE}\n\
GUJARATI DIGIT NINE:\u{AEF}\n\
GUJARATI ABBREVIATION SIGN:\u{AF0}\n\
GUJARATI RUPEE SIGN:\u{AF1}\n\
GUJARATI LETTER ZHA:\u{AF9}\n\
GUJARATI SIGN SUKUN:\u{AFA}\n\
GUJARATI SIGN SHADDA:\u{AFB}\n\
GUJARATI SIGN MADDAH:\u{AFC}\n\
GUJARATI SIGN THREE-DOT NUKTA ABOVE:\u{AFD}\n\
GUJARATI SIGN CIRCLE NUKTA ABOVE:\u{AFE}\n\
GUJARATI SIGN TWO-CIRCLE NUKTA ABOVE:\u{AFF}\n\
ORIYA SIGN CANDRABINDU:\u{B01}\n\
ORIYA SIGN ANUSVARA:\u{B02}\n\
ORIYA SIGN VISARGA:\u{B03}\n\
ORIYA LETTER A:\u{B05}\n\
ORIYA LETTER AA:\u{B06}\n\
ORIYA LETTER I:\u{B07}\n\
ORIYA LETTER II:\u{B08}\n\
ORIYA LETTER U:\u{B09}\n\
ORIYA LETTER UU:\u{B0A}\n\
ORIYA LETTER VOCALIC R:\u{B0B}\n\
ORIYA LETTER VOCALIC L:\u{B0C}\n\
ORIYA LETTER E:\u{B0F}\n\
ORIYA LETTER AI:\u{B10}\n\
ORIYA LETTER O:\u{B13}\n\
ORIYA LETTER AU:\u{B14}\n\
ORIYA LETTER KA:\u{B15}\n\
ORIYA LETTER KHA:\u{B16}\n\
ORIYA LETTER GA:\u{B17}\n\
ORIYA LETTER GHA:\u{B18}\n\
ORIYA LETTER NGA:\u{B19}\n\
ORIYA LETTER CA:\u{B1A}\n\
ORIYA LETTER CHA:\u{B1B}\n\
ORIYA LETTER JA:\u{B1C}\n\
ORIYA LETTER JHA:\u{B1D}\n\
ORIYA LETTER NYA:\u{B1E}\n\
ORIYA LETTER TTA:\u{B1F}\n\
ORIYA LETTER TTHA:\u{B20}\n\
ORIYA LETTER DDA:\u{B21}\n\
ORIYA LETTER DDHA:\u{B22}\n\
ORIYA LETTER NNA:\u{B23}\n\
ORIYA LETTER TA:\u{B24}\n\
ORIYA LETTER THA:\u{B25}\n\
ORIYA LETTER DA:\u{B26}\n\
ORIYA LETTER DHA:\u{B27}\n\
ORIYA LETTER NA:\u{B28}\n\
ORIYA LETTER PA:\u{B2A}\n\
ORIYA LETTER PHA:\u{B2B}\n\
ORIYA LETTER BA:\u{B2C}\n\
ORIYA LETTER BHA:\u{B2D}\n\
ORIYA LETTER MA:\u{B2E}\n\
ORIYA LETTER YA:\u{B2F}\n\
ORIYA LETTER RA:\u{B30}\n\
ORIYA LETTER LA:\u{B32}\n\
ORIYA LETTER LLA:\u{B33}\n\
ORIYA LETTER VA:\u{B35}\n\
ORIYA LETTER SHA:\u{B36}\n\
ORIYA LETTER SSA:\u{B37}\n\
ORIYA LETTER SA:\u{B38}\n\
ORIYA LETTER HA:\u{B39}\n\
ORIYA SIGN NUKTA:\u{B3C}\n\
ORIYA SIGN AVAGRAHA:\u{B3D}\n\
ORIYA VOWEL SIGN AA:\u{B3E}\n\
ORIYA VOWEL SIGN I:\u{B3F}\n\
ORIYA VOWEL SIGN II:\u{B40}\n\
ORIYA VOWEL SIGN U:\u{B41}\n\
ORIYA VOWEL SIGN UU:\u{B42}\n\
ORIYA VOWEL SIGN VOCALIC R:\u{B43}\n\
ORIYA VOWEL SIGN VOCALIC RR:\u{B44}\n\
ORIYA VOWEL SIGN E:\u{B47}\n\
ORIYA VOWEL SIGN AI:\u{B48}\n\
ORIYA VOWEL SIGN O:\u{B4B}\n\
ORIYA VOWEL SIGN AU:\u{B4C}\n\
ORIYA SIGN VIRAMA:\u{B4D}\n\
ORIYA SIGN OVERLINE:\u{B55}\n\
ORIYA AI LENGTH MARK:\u{B56}\n\
ORIYA AU LENGTH MARK:\u{B57}\n\
ORIYA LETTER RRA:\u{B5C}\n\
ORIYA LETTER RHA:\u{B5D}\n\
ORIYA LETTER YYA:\u{B5F}\n\
ORIYA LETTER VOCALIC RR:\u{B60}\n\
ORIYA LETTER VOCALIC LL:\u{B61}\n\
ORIYA VOWEL SIGN VOCALIC L:\u{B62}\n\
ORIYA VOWEL SIGN VOCALIC LL:\u{B63}\n\
ORIYA DIGIT ZERO:\u{B66}\n\
ORIYA DIGIT ONE:\u{B67}\n\
ORIYA DIGIT TWO:\u{B68}\n\
ORIYA DIGIT THREE:\u{B69}\n\
ORIYA DIGIT FOUR:\u{B6A}\n\
ORIYA DIGIT FIVE:\u{B6B}\n\
ORIYA DIGIT SIX:\u{B6C}\n\
ORIYA DIGIT SEVEN:\u{B6D}\n\
ORIYA DIGIT EIGHT:\u{B6E}\n\
ORIYA DIGIT NINE:\u{B6F}\n\
ORIYA ISSHAR:\u{B70}\n\
ORIYA LETTER WA:\u{B71}\n\
ORIYA FRACTION ONE QUARTER:\u{B72}\n\
ORIYA FRACTION ONE HALF:\u{B73}\n\
ORIYA FRACTION THREE QUARTERS:\u{B74}\n\
ORIYA FRACTION ONE SIXTEENTH:\u{B75}\n\
ORIYA FRACTION ONE EIGHTH:\u{B76}\n\
ORIYA FRACTION THREE SIXTEENTHS:\u{B77}\n\
TAMIL SIGN ANUSVARA:\u{B82}\n\
TAMIL SIGN VISARGA:\u{B83}\n\
TAMIL LETTER A:\u{B85}\n\
TAMIL LETTER AA:\u{B86}\n\
TAMIL LETTER I:\u{B87}\n\
TAMIL LETTER II:\u{B88}\n\
TAMIL LETTER U:\u{B89}\n\
TAMIL LETTER UU:\u{B8A}\n\
TAMIL LETTER E:\u{B8E}\n\
TAMIL LETTER EE:\u{B8F}\n\
TAMIL LETTER AI:\u{B90}\n\
TAMIL LETTER O:\u{B92}\n\
TAMIL LETTER OO:\u{B93}\n\
TAMIL LETTER AU:\u{B94}\n\
TAMIL LETTER KA:\u{B95}\n\
TAMIL LETTER NGA:\u{B99}\n\
TAMIL LETTER CA:\u{B9A}\n\
TAMIL LETTER JA:\u{B9C}\n\
TAMIL LETTER NYA:\u{B9E}\n\
TAMIL LETTER TTA:\u{B9F}\n\
TAMIL LETTER NNA:\u{BA3}\n\
TAMIL LETTER TA:\u{BA4}\n\
TAMIL LETTER NA:\u{BA8}\n\
TAMIL LETTER NNNA:\u{BA9}\n\
TAMIL LETTER PA:\u{BAA}\n\
TAMIL LETTER MA:\u{BAE}\n\
TAMIL LETTER YA:\u{BAF}\n\
TAMIL LETTER RA:\u{BB0}\n\
TAMIL LETTER RRA:\u{BB1}\n\
TAMIL LETTER LA:\u{BB2}\n\
TAMIL LETTER LLA:\u{BB3}\n\
TAMIL LETTER LLLA:\u{BB4}\n\
TAMIL LETTER VA:\u{BB5}\n\
TAMIL LETTER SHA:\u{BB6}\n\
TAMIL LETTER SSA:\u{BB7}\n\
TAMIL LETTER SA:\u{BB8}\n\
TAMIL LETTER HA:\u{BB9}\n\
TAMIL VOWEL SIGN AA:\u{BBE}\n\
TAMIL VOWEL SIGN I:\u{BBF}\n\
TAMIL VOWEL SIGN II:\u{BC0}\n\
TAMIL VOWEL SIGN U:\u{BC1}\n\
TAMIL VOWEL SIGN UU:\u{BC2}\n\
TAMIL VOWEL SIGN E:\u{BC6}\n\
TAMIL VOWEL SIGN EE:\u{BC7}\n\
TAMIL VOWEL SIGN AI:\u{BC8}\n\
TAMIL VOWEL SIGN O:\u{BCA}\n\
TAMIL VOWEL SIGN OO:\u{BCB}\n\
TAMIL VOWEL SIGN AU:\u{BCC}\n\
TAMIL SIGN VIRAMA:\u{BCD}\n\
TAMIL OM:\u{BD0}\n\
TAMIL AU LENGTH MARK:\u{BD7}\n\
TAMIL DIGIT ZERO:\u{BE6}\n\
TAMIL DIGIT ONE:\u{BE7}\n\
TAMIL DIGIT TWO:\u{BE8}\n\
TAMIL DIGIT THREE:\u{BE9}\n\
TAMIL DIGIT FOUR:\u{BEA}\n\
TAMIL DIGIT FIVE:\u{BEB}\n\
TAMIL DIGIT SIX:\u{BEC}\n\
TAMIL DIGIT SEVEN:\u{BED}\n\
TAMIL DIGIT EIGHT:\u{BEE}\n\
TAMIL DIGIT NINE:\u{BEF}\n\
TAMIL NUMBER TEN:\u{BF0}\n\
TAMIL NUMBER ONE HUNDRED:\u{BF1}\n\
TAMIL NUMBER ONE THOUSAND:\u{BF2}\n\
TAMIL DAY SIGN:\u{BF3}\n\
TAMIL MONTH SIGN:\u{BF4}\n\
TAMIL YEAR SIGN:\u{BF5}\n\
TAMIL DEBIT SIGN:\u{BF6}\n\
TAMIL CREDIT SIGN:\u{BF7}\n\
TAMIL AS ABOVE SIGN:\u{BF8}\n\
TAMIL RUPEE SIGN:\u{BF9}\n\
TAMIL NUMBER SIGN:\u{BFA}\n\
TELUGU SIGN COMBINING CANDRABINDU ABOVE:\u{C00}\n\
TELUGU SIGN CANDRABINDU:\u{C01}\n\
TELUGU SIGN ANUSVARA:\u{C02}\n\
TELUGU SIGN VISARGA:\u{C03}\n\
TELUGU SIGN COMBINING ANUSVARA ABOVE:\u{C04}\n\
TELUGU LETTER A:\u{C05}\n\
TELUGU LETTER AA:\u{C06}\n\
TELUGU LETTER I:\u{C07}\n\
TELUGU LETTER II:\u{C08}\n\
TELUGU LETTER U:\u{C09}\n\
TELUGU LETTER UU:\u{C0A}\n\
TELUGU LETTER VOCALIC R:\u{C0B}\n\
TELUGU LETTER VOCALIC L:\u{C0C}\n\
TELUGU LETTER E:\u{C0E}\n\
TELUGU LETTER EE:\u{C0F}\n\
TELUGU LETTER AI:\u{C10}\n\
TELUGU LETTER O:\u{C12}\n\
TELUGU LETTER OO:\u{C13}\n";

pub const NAMES_07: &'static str = "TELUGU LETTER AU:\u{C14}\n\
TELUGU LETTER KA:\u{C15}\n\
TELUGU LETTER KHA:\u{C16}\n\
TELUGU LETTER GA:\u{C17}\n\
TELUGU LETTER GHA:\u{C18}\n\
TELUGU LETTER NGA:\u{C19}\n\
TELUGU LETTER CA:\u{C1A}\n\
TELUGU LETTER CHA:\u{C1B}\n\
TELUGU LETTER JA:\u{C1C}\n\
TELUGU LETTER JHA:\u{C1D}\n\
TELUGU LETTER NYA:\u{C1E}\n\
TELUGU LETTER TTA:\u{C1F}\n\
TELUGU LETTER TTHA:\u{C20}\n\
TELUGU LETTER DDA:\u{C21}\n\
TELUGU LETTER DDHA:\u{C22}\n\
TELUGU LETTER NNA:\u{C23}\n\
TELUGU LETTER TA:\u{C24}\n\
TELUGU LETTER THA:\u{C25}\n\
TELUGU LETTER DA:\u{C26}\n\
TELUGU LETTER DHA:\u{C27}\n\
TELUGU LETTER NA:\u{C28}\n\
TELUGU LETTER PA:\u{C2A}\n\
TELUGU LETTER PHA:\u{C2B}\n\
TELUGU LETTER BA:\u{C2C}\n\
TELUGU LETTER BHA:\u{C2D}\n\
TELUGU LETTER MA:\u{C2E}\n\
TELUGU LETTER YA:\u{C2F}\n\
TELUGU LETTER RA:\u{C30}\n\
TELUGU LETTER RRA:\u{C31}\n\
TELUGU LETTER LA:\u{C32}\n\
TELUGU LETTER LLA:\u{C33}\n\
TELUGU LETTER LLLA:\u{C34}\n\
TELUGU LETTER VA:\u{C35}\n\
TELUGU LETTER SHA:\u{C36}\n\
TELUGU LETTER SSA:\u{C37}\n\
TELUGU LETTER SA:\u{C38}\n\
TELUGU LETTER HA:\u{C39}\n\
TELUGU SIGN NUKTA:\u{C3C}\n\
TELUGU SIGN AVAGRAHA:\u{C3D}\n\
TELUGU VOWEL SIGN AA:\u{C3E}\n\
TELUGU VOWEL SIGN I:\u{C3F}\n\
TELUGU VOWEL SIGN II:\u{C40}\n\
TELUGU VOWEL SIGN U:\u{C41}\n\
TELUGU VOWEL SIGN UU:\u{C42}\n\
TELUGU VOWEL SIGN VOCALIC R:\u{C43}\n\
TELUGU VOWEL SIGN VOCALIC RR:\u{C44}\n\
TELUGU VOWEL SIGN E:\u{C46}\n\
TELUGU VOWEL SIGN EE:\u{C47}\n\
TELUGU VOWEL SIGN AI:\u{C48}\n\
TELUGU VOWEL SIGN O:\u{C4A}\n\
TELUGU VOWEL SIGN OO:\u{C4B}\n\
TELUGU VOWEL SIGN AU:\u{C4C}\n\
TELUGU SIGN VIRAMA:\u{C4D}\n\
TELUGU LENGTH MARK:\u{C55}\n\
TELUGU AI LENGTH MARK:\u{C56}\n\
TELUGU LETTER TSA:\u{C58}\n\
TELUGU LETTER DZA:\u{C59}\n\
TELUGU LETTER RRRA:\u{C5A}\n\
TELUGU LETTER NAKAARA POLLU:\u{C5D}\n\
TELUGU LETTER VOCALIC RR:\u{C60}\n\
TELUGU LETTER VOCALIC LL:\u{C61}\n\
TELUGU VOWEL SIGN VOCALIC L:\u{C62}\n\
TELUGU VOWEL SIGN VOCALIC LL:\u{C63}\n\
TELUGU DIGIT ZERO:\u{C66}\n\
TELUGU DIGIT ONE:\u{C67}\n\
TELUGU DIGIT TWO:\u{C68}\n\
TELUGU DIGIT THREE:\u{C69}\n\
TELUGU DIGIT FOUR:\u{C6A}\n\
TELUGU DIGIT FIVE:\u{C6B}\n\
TELUGU DIGIT SIX:\u{C6C}\n\
TELUGU DIGIT SEVEN:\u{C6D}\n\
TELUGU DIGIT EIGHT:\u{C6E}\n\
TELUGU DIGIT NINE:\u{C6F}\n\
TELUGU SIGN SIDDHAM:\u{C77}\n\
TELUGU FRACTION DIGIT ZERO FOR ODD POWERS OF FOUR:\u{C78}\n\
TELUGU FRACTION DIGIT ONE FOR ODD POWERS OF FOUR:\u{C79}\n\
TELUGU FRACTION DIGIT TWO FOR ODD POWERS OF FOUR:\u{C7A}\n\
TELUGU FRACTION DIGIT THREE FOR ODD POWERS OF FOUR:\u{C7B}\n\
TELUGU FRACTION DIGIT ONE FOR EVEN POWERS OF FOUR:\u{C7C}\n\
TELUGU FRACTION DIGIT TWO FOR EVEN POWERS OF FOUR:\u{C7D}\n\
TELUGU FRACTION DIGIT THREE FOR EVEN POWERS OF FOUR:\u{C7E}\n\
TELUGU SIGN TUUMU:\u{C7F}\n\
KANNADA SIGN SPACING CANDRABINDU:\u{C80}\n\
KANNADA SIGN CANDRABINDU:\u{C81}\n\
KANNADA SIGN ANUSVARA:\u{C82}\n\
KANNADA SIGN VISARGA:\u{C83}\n\
KANNADA SIGN SIDDHAM:\u{C84}\n\
KANNADA LETTER A:\u{C85}\n\
KANNADA LETTER AA:\u{C86}\n\
KANNADA LETTER I:\u{C87}\n\
KANNADA LETTER II:\u{C88}\n\
KANNADA LETTER U:\u{C89}\n\
KANNADA LETTER UU:\u{C8A}\n\
KANNADA LETTER VOCALIC R:\u{C8B}\n\
KANNADA LETTER VOCALIC L:\u{C8C}\n\
KANNADA LETTER E:\u{C8E}\n\
KANNADA LETTER EE:\u{C8F}\n\
KANNADA LETTER AI:\u{C90}\n\
KANNADA LETTER O:\u{C92}\n\
KANNADA LETTER OO:\u{C93}\n\
KANNADA LETTER AU:\u{C94}\n\
KANNADA LETTER KA:\u{C95}\n\
KANNADA LETTER KHA:\u{C96}\n\
KANNADA LETTER GA:\u{C97}\n\
KANNADA LETTER GHA:\u{C98}\n\
KANNADA LETTER NGA:\u{C99}\n\
KANNADA LETTER CA:\u{C9A}\n\
KANNADA LETTER CHA:\u{C9B}\n\
KANNADA LETTER JA:\u{C9C}\n\
KANNADA LETTER JHA:\u{C9D}\n\
KANNADA LETTER NYA:\u{C9E}\n\
KANNADA LETTER TTA:\u{C9F}\n\
KANNADA LETTER TTHA:\u{CA0}\n\
KANNADA LETTER DDA:\u{CA1}\n\
KANNADA LETTER DDHA:\u{CA2}\n\
KANNADA LETTER NNA:\u{CA3}\n\
KANNADA LETTER TA:\u{CA4}\n\
KANNADA LETTER THA:\u{CA5}\n\
KANNADA LETTER DA:\u{CA6}\n\
KANNADA LETTER DHA:\u{CA7}\n\
KANNADA LETTER NA:\u{CA8}\n\
KANNADA LETTER PA:\u{CAA}\n\
KANNADA LETTER PHA:\u{CAB}\n\
KANNADA LETTER BA:\u{CAC}\n\
KANNADA LETTER BHA:\u{CAD}\n\
KANNADA LETTER MA:\u{CAE}\n\
KANNADA LETTER YA:\u{CAF}\n\
KANNADA LETTER RA:\u{CB0}\n\
KANNADA LETTER RRA:\u{CB1}\n\
KANNADA LETTER LA:\u{CB2}\n\
KANNADA LETTER LLA:\u{CB3}\n\
KANNADA LETTER VA:\u{CB5}\n\
KANNADA LETTER SHA:\u{CB6}\n\
KANNADA LETTER SSA:\u{CB7}\n\
KANNADA LETTER SA:\u{CB8}\n\
KANNADA LETTER HA:\u{CB9}\n\
KANNADA SIGN NUKTA:\u{CBC}\n\
KANNADA SIGN AVAGRAHA:\u{CBD}\n\
KANNADA VOWEL SIGN AA:\u{CBE}\n\
KANNADA VOWEL SIGN I:\u{CBF}\n\
KANNADA VOWEL SIGN II:\u{CC0}\n\
KANNADA VOWEL SIGN U:\u{CC1}\n\
KANNADA VOWEL SIGN UU:\u{CC2}\n\
KANNADA VOWEL SIGN VOCALIC R:\u{CC3}\n\
KANNADA VOWEL SIGN VOCALIC RR:\u{CC4}\n\
KANNADA VOWEL SIGN E:\u{CC6}\n\
KANNADA VOWEL SIGN EE:\u{CC7}\n\
KANNADA VOWEL SIGN AI:\u{CC8}\n\
KANNADA VOWEL SIGN O:\u{CCA}\n\
KANNADA VOWEL SIGN OO:\u{CCB}\n\
KANNADA VOWEL SIGN AU:\u{CCC}\n\
KANNADA SIGN VIRAMA:\u{CCD}\n\
KANNADA LENGTH MARK:\u{CD5}\n\
KANNADA AI LENGTH MARK:\u{CD6}\n\
KANNADA LETTER NAKAARA POLLU:\u{CDD}\n\
KANNADA LETTER FA:\u{CDE}\n\
KANNADA LETTER VOCALIC RR:\u{CE0}\n\
KANNADA LETTER VOCALIC LL:\u{CE1}\n\
KANNADA VOWEL SIGN VOCALIC L:\u{CE2}\n\
KANNADA VOWEL SIGN VOCALIC LL:\u{CE3}\n\
KANNADA DIGIT ZERO:\u{CE6}\n\
KANNADA DIGIT ONE:\u{CE7}\n\
KANNADA DIGIT TWO:\u{CE8}\n\
KANNADA DIGIT THREE:\u{CE9}\n\
KANNADA DIGIT FOUR:\u{CEA}\n\
KANNADA DIGIT FIVE:\u{CEB}\n\
KANNADA DIGIT SIX:\u{CEC}\n\
KANNADA DIGIT SEVEN:\u{CED}\n\
KANNADA DIGIT EIGHT:\u{CEE}\n\
KANNADA DIGIT NINE:\u{CEF}\n\
KANNADA SIGN JIHVAMULIYA:\u{CF1}\n\
KANNADA SIGN UPADHMANIYA:\u{CF2}\n\
MALAYALAM SIGN COMBINING ANUSVARA ABOVE:\u{D00}\n\
MALAYALAM SIGN CANDRABINDU:\u{D01}\n\
MALAYALAM SIGN ANUSVARA:\u{D02}\n\
MALAYALAM SIGN VISARGA:\u{D03}\n\
MALAYALAM LETTER VEDIC ANUSVARA:\u{D04}\n\
MALAYALAM LETTER A:\u{D05}\n\
MALAYALAM LETTER AA:\u{D06}\n\
MALAYALAM LETTER I:\u{D07}\n\
MALAYALAM LETTER II:\u{D08}\n\
MALAYALAM LETTER U:\u{D09}\n\
MALAYALAM LETTER UU:\u{D0A}\n\
MALAYALAM LETTER VOCALIC R:\u{D0B}\n\
MALAYALAM LETTER VOCALIC L:\u{D0C}\n\
MALAYALAM LETTER E:\u{D0E}\n\
MALAYALAM LETTER EE:\u{D0F}\n\
MALAYALAM LETTER AI:\u{D10}\n\
MALAYALAM LETTER O:\u{D12}\n\
MALAYALAM LETTER OO:\u{D13}\n\
MALAYALAM LETTER AU:\u{D14}\n\
MALAYALAM LETTER KA:\u{D15}\n\
MALAYALAM LETTER KHA:\u{D16}\n\
MALAYALAM LETTER GA:\u{D17}\n\
MALAYALAM LETTER GHA:\u{D18}\n\
MALAYALAM LETTER NGA:\u{D19}\n\
MALAYALAM LETTER CA:\u{D1A}\n\
MALAYALAM LETTER CHA:\u{D1B}\n\
MALAYALAM LETTER JA:\u{D1C}\n\
MALAYALAM LETTER JHA:\u{D1D}\n\
MALAYALAM LETTER NYA:\u{D1E}\n\
MALAYALAM LETTER TTA:\u{D1F}\n\
MALAYALAM LETTER TTHA:\u{D20}\n\
MALAYALAM LETTER DDA:\u{D21}\n\
MALAYALAM LETTER DDHA:\u{D22}\n\
MALAYALAM LETTER NNA:\u{D23}\n\
MALAYALAM LETTER TA:\u{D24}\n\
MALAYALAM LETTER THA:\u{D25}\n\
MALAYALAM LETTER DA:\u{D26}\n\
MALAYALAM LETTER DHA:\u{D27}\n\
MALAYALAM LETTER NA:\u{D28}\n\
MALAYALAM LETTER NNNA:\u{D29}\n\
MALAYALAM LETTER PA:\u{D2A}\n\
MALAYALAM LETTER PHA:\u{D2B}\n\
MALAYALAM LETTER BA:\u{D2C}\n\
MALAYALAM LETTER BHA:\u{D2D}\n\
MALAYALAM LETTER MA:\u{D2E}\n\
MALAYALAM LETTER YA:\u{D2F}\n\
MALAYALAM LETTER RA:\u{D30}\n\
MALAYALAM LETTER RRA:\u{D31}\n\
MALAYALAM LETTER LA:\u{D32}\n\
MALAYALAM LETTER LLA:\u{D33}\n\
MALAYALAM LETTER LLLA:\u{D34}\n\
MALAYALAM LETTER VA:\u{D35}\n\
MALAYALAM LETTER SHA:\u{D36}\n\
MALAYALAM LETTER SSA:\u{D37}\n\
MALAYALAM LETTER SA:\u{D38}\n\
MALAYALAM LETTER HA:\u{D39}\n\
MALAYALAM LETTER TTTA:\u{D3A}\n\
MALAYALAM SIGN VERTICAL BAR VIRAMA:\u{D3B}\n\
MALAYALAM SIGN CIRCULAR VIRAMA:\u{D3C}\n\
MALAYALAM SIGN AVAGRAHA:\u{D3D}\n\
MALAYALAM VOWEL SIGN AA:\u{D3E}\n\
MALAYALAM VOWEL SIGN I:\u{D3F}\n\
MALAYALAM VOWEL SIGN II:\u{D40}\n\
MALAYALAM VOWEL SIGN U:\u{D41}\n\
MALAYALAM VOWEL SIGN UU:\u{D42}\n\
MALAYALAM VOWEL SIGN VOCALIC R:\u{D43}\n\
MALAYALAM VOWEL SIGN VOCALIC RR:\u{D44}\n\
MALAYALAM VOWEL SIGN E:\u{D46}\n\
MALAYALAM VOWEL SIGN EE:\u{D47}\n\
MALAYALAM VOWEL SIGN AI:\u{D48}\n\
MALAYALAM VOWEL SIGN O:\u{D4A}\n\
MALAYALAM VOWEL SIGN OO:\u{D4B}\n\
MALAYALAM VOWEL SIGN AU:\u{D4C}\n\
MALAYALAM SIGN VIRAMA:\u{D4D}\n\
MALAYALAM LETTER DOT REPH:\u{D4E}\n\
MALAYALAM SIGN PARA:\u{D4F}\n\
MALAYALAM LETTER CHILLU M:\u{D54}\n\
MALAYALAM LETTER CHILLU Y:\u{D55}\n\
MALAYALAM LETTER CHILLU LLL:\u{D56}\n\
MALAYALAM AU LENGTH MARK:\u{D57}\n\
MALAYALAM FRACTION ONE ONE-HUNDRED-AND-SIXTIETH:\u{D58}\n\
MALAYALAM FRACTION ONE FORTIETH:\u{D59}\n\
MALAYALAM FRACTION THREE EIGHTIETHS:\u{D5A}\n\
MALAYALAM FRACTION ONE TWENTIETH:\u{D5B}\n\
MALAYALAM FRACTION ONE TENTH:\u{D5C}\n\
MALAYALAM FRACTION THREE TWENTIETHS:\u{D5D}\n\
MALAYALAM FRACTION ONE FIFTH:\u{D5E}\n\
MALAYALAM LETTER ARCHAIC II:\u{D5F}\n\
MALAYALAM LETTER VOCALIC RR:\u{D60}\n\
MALAYALAM LETTER VOCALIC LL:\u{D61}\n\
MALAYALAM VOWEL SIGN VOCALIC L:\u{D62}\n\
MALAYALAM VOWEL SIGN VOCALIC LL:\u{D63}\n\
MALAYALAM DIGIT ZERO:\u{D66}\n\
MALAYALAM DIGIT ONE:\u{D67}\n\
MALAYALAM DIGIT TWO:\u{D68}\n\
MALAYALAM DIGIT THREE:\u{D69}\n\
MALAYALAM DIGIT FOUR:\u{D6A}\n\
MALAYALAM DIGIT FIVE:\u{D6B}\n\
MALAYALAM DIGIT SIX:\u{D6C}\n\
MALAYALAM DIGIT SEVEN:\u{D6D}\n\
MALAYALAM DIGIT EIGHT:\u{D6E}\n\
MALAYALAM DIGIT NINE:\u{D6F}\n\
MALAYALAM NUMBER TEN:\u{D70}\n\
MALAYALAM NUMBER ONE HUNDRED:\u{D71}\n\
MALAYALAM NUMBER ONE THOUSAND:\u{D72}\n\
MALAYALAM FRACTION ONE QUARTER:\u{D73}\n\
MALAYALAM FRACTION ONE HALF:\u{D74}\n\
MALAYALAM FRACTION THREE QUARTERS:\u{D75}\n\
MALAYALAM FRACTION ONE SIXTEENTH:\u{D76}\n\
MALAYALAM FRACTION ONE EIGHTH:\u{D77}\n\
MALAYALAM FRACTION THREE SIXTEENTHS:\u{D78}\n\
MALAYALAM DATE MARK:\u{D79}\n\
MALAYALAM LETTER CHILLU NN:\u{D7A}\n\
MALAYALAM LETTER CHILLU N:\u{D7B}\n\
MALAYALAM LETTER CHILLU RR:\u{D7C}\n\
MALAYALAM LETTER CHILLU L:\u{D7D}\n\
MALAYALAM LETTER CHILLU LL:\u{D7E}\n\
MALAYALAM LETTER CHILLU K:\u{D7F}\n\
SINHALA SIGN CANDRABINDU:\u{D81}\n\
SINHALA SIGN ANUSVARAYA:\u{D82}\n\
SINHALA SIGN VISARGAYA:\u{D83}\n\
SINHALA LETTER AYANNA:\u{D85}\n\
SINHALA LETTER AAYANNA:\u{D86}\n\
SINHALA LETTER AEYANNA:\u{D87}\n\
SINHALA LETTER AEEYANNA:\u{D88}\n\
SINHALA LETTER IYANNA:\u{D89}\n\
SINHALA LETTER IIYANNA:\u{D8A}\n\
SINHALA LETTER UYANNA:\u{D8B}\n\
SINHALA LETTER UUYANNA:\u{D8C}\n\
SINHALA LETTER IRUYANNA:\u{D8D}\n\
SINHALA LETTER IRUUYANNA:\u{D8E}\n\
SINHALA LETTER ILUYANNA:\u{D8F}\n\
SINHALA LETTER ILUUYANNA:\u{D90}\n\
SINHALA LETTER EYANNA:\u{D91}\n\
SINHALA LETTER EEYANNA:\u{D92}\n\
SINHALA LETTER AIYANNA:\u{D93}\n\
SINHALA LETTER OYANNA:\u{D94}\n\
SINHALA LETTER OOYANNA:\u{D95}\n\
SINHALA LETTER AUYANNA:\u{D96}\n\
SINHALA LETTER ALPAPRAANA KAYANNA:\u{D9A}\n\
SINHALA LETTER MAHAAPRAANA KAYANNA:\u{D9B}\n\
SINHALA LETTER ALPAPRAANA GAYANNA:\u{D9C}\n\
SINHALA LETTER MAHAAPRAANA GAYANNA:\u{D9D}\n\
SINHALA LETTER KANTAJA NAASIKYAYA:\u{D9E}\n\
SINHALA LETTER SANYAKA GAYANNA:\u{D9F}\n\
SINHALA LETTER ALPAPRAANA CAYANNA:\u{DA0}\n\
SINHALA LETTER MAHAAPRAANA CAYANNA:\u{DA1}\n\
SINHALA LETTER ALPAPRAANA JAYANNA:\u{DA2}\n\
SINHALA LETTER MAHAAPRAANA JAYANNA:\u{DA3}\n\
SINHALA LETTER TAALUJA NAASIKYAYA:\u{DA4}\n\
SINHALA LETTER TAALUJA SANYOOGA NAAKSIKYAYA:\u{DA5}\n\
SINHALA LETTER SANYAKA JAYANNA:\u{DA6}\n\
SINHALA LETTER ALPAPRAANA TTAYANNA:\u{DA7}\n\
SINHALA LETTER MAHAAPRAANA TTAYANNA:\u{DA8}\n\
SINHALA LETTER ALPAPRAANA DDAYANNA:\u{DA9}\n\
SINHALA LETTER MAHAAPRAANA DDAYANNA:\u{DAA}\n\
SINHALA LETTER MUURDHAJA NAYANNA:\u{DAB}\n\
SINHALA LETTER SANYAKA DDAYANNA:\u{DAC}\n\
SINHALA LETTER ALPAPRAANA TAYANNA:\u{DAD}\n\
SINHALA LETTER MAHAAPRAANA TAYANNA:\u{DAE}\n\
SINHALA LETTER ALPAPRAANA DAYANNA:\u{DAF}\n\
SINHALA LETTER MAHAAPRAANA DAYANNA:\u{DB0}\n\
SINHALA LETTER DANTAJA NAYANNA:\u{DB1}\n\
SINHALA LETTER SANYAKA DAYANNA:\u{DB3}\n\
SINHALA LETTER ALPAPRAANA PAYANNA:\u{DB4}\n\
SINHALA LETTER MAHAAPRAANA PAYANNA:\u{DB5}\n\
SINHALA LETTER ALPAPRAANA BAYANNA:\u{DB6}\n\
SINHALA LETTER MAHAAPRAANA BAYANNA:\u{DB7}\n\
SINHALA LETTER MAYANNA:\u{DB8}\n\
SINHALA LETTER AMBA BAYANNA:\u{DB9}\n\
SINHALA LETTER YAYANNA:\u{DBA}\n\
SINHALA LETTER RAYANNA:\u{DBB}\n\
SINHALA LETTER DANTAJA LAYANNA:\u{DBD}\n\
SINHALA LETTER VAYANNA:\u{DC0}\n\
SINHALA LETTER TAALUJA SAYANNA:\u{DC1}\n\
SINHALA LETTER MUURDHAJA SAYANNA:\u{DC2}\n\
SINHALA LETTER DANTAJA SAYANNA:\u{DC3}\n\
SINHALA LETTER HAYANNA:\u{DC4}\n\
SINHALA LETTER MUURDHAJA LAYANNA:\u{DC5}\n\
SINHALA LETTER FAYANNA:\u{DC6}\n\
SINHALA SIGN AL-LAKUNA:\u{DCA}\n\
SINHALA VOWEL SIGN AELA-PILLA:\u{DCF}\n\
SINHALA VOWEL SIGN KETTI AEDA-PILLA:\u{DD0}\n\
SINHALA VOWEL SIGN DIGA AEDA-PILLA:\u{DD1}\n\
SINHALA VOWEL SIGN KETTI IS-PILLA:\u{DD2}\n\
SINHALA VOWEL SIGN DIGA IS-PILLA:\u{DD3}\n\
SINHALA VOWEL SIGN KETTI PAA-PILLA:\u{DD4}\n\
SINHALA VOWEL SIGN DIGA PAA-PILLA:\u{DD6}\n\
SINHALA VOWEL SIGN GAETTA-PILLA:\u{DD8}\n\
SINHALA VOWEL SIGN KOMBUVA:\u{DD9}\n\
SINHALA VOWEL SIGN DIGA KOMBUVA:\u{DDA}\n\
SINHALA VOWEL SIGN KOMBU DEKA:\u{DDB}\n\
SINHALA VOWEL SIGN KOMBUVA HAA AELA-PILLA:\u{DDC}\n\
SINHALA VOWEL SIGN KOMBUVA HAA DIGA AELA-PILLA:\u{DDD}\n\
SINHALA VOWEL SIGN KOMBUVA HAA GAYANUKITTA:\u{DDE}\n\
SINHALA VOWEL SIGN GAYANUKITTA:\u{DDF}\n\
SINHALA LITH DIGIT ZERO:\u{DE6}\n\
SINHALA LITH DIGIT ONE:\u{DE7}\n\
SINHALA LITH DIGIT TWO:\u{DE8}\n\
SINHALA LITH DIGIT THREE:\u{DE9}\n\
SINHALA LITH DIGIT FOUR:\u{DEA}\n\
SINHALA LITH DIGIT FIVE:\u{DEB}\n\
SINHALA LITH DIGIT SIX:\u{DEC}\n\
SINHALA LITH DIGIT SEVEN:\u{DED}\n\
SINHALA LITH DIGIT EIGHT:\u{DEE}\n\
SINHALA LITH DIGIT NINE:\u{DEF}\n\
SINHALA VOWEL SIGN DIGA GAETTA-PILLA:\u{DF2}\n\
SINHALA VOWEL SIGN DIGA GAYANUKITTA:\u{DF3}\n\
SINHALA PUNCTUATION KUNDDALIYA:\u{DF4}\n\
THAI CHARACTER KO KAI:\u{E01}\n\
THAI CHARACTER KHO KHAI:\u{E02}\n\
THAI CHARACTER KHO KHUAT:\u{E03}\n\
THAI CHARACTER KHO KHWAI:\u{E04}\n\
THAI CHARACTER KHO KHON:\u{E05}\n\
THAI CHARACTER KHO RAKHANG:\u{E06}\n\
THAI CHARACTER NGO NGU:\u{E07}\n\
THAI CHARACTER CHO CHAN:\u{E08}\n\
THAI CHARACTER CHO CHING:\u{E09}\n\
THAI CHARACTER CHO CHANG:\u{E0A}\n\
THAI CHARACTER SO SO:\u{E0B}\n\
THAI CHARACTER CHO CHOE:\u{E0C}\n\
THAI CHARACTER YO YING:\u{E0D}\n\
THAI CHARACTER DO CHADA:\u{E0E}\n\
THAI CHARACTER TO PATAK:\u{E0F}\n\
THAI CHARACTER THO THAN:\u{E10}\n\
THAI CHARACTER THO NANGMONTHO:\u{E11}\n\
THAI CHARACTER THO PHUTHAO:\u{E12}\n\
THAI CHARACTER NO NEN:\u{E13}\n\
THAI CHARACTER DO DEK:\u{E14}\n\
THAI CHARACTER TO TAO:\u{E15}\n\
THAI CHARACTER THO THUNG:\u{E16}\n\
THAI CHARACTER THO THAHAN:\u{E17}\n\
THAI CHARACTER THO THONG:\u{E18}\n\
THAI CHARACTER NO NU:\u{E19}\n\
THAI CHARACTER BO BAIMAI:\u{E1A}\n\
THAI CHARACTER PO PLA:\u{E1B}\n\
THAI CHARACTER PHO PHUNG:\u{E1C}\n\
THAI CHARACTER FO FA:\u{E1D}\n\
THAI CHARACTER PHO PHAN:\u{E1E}\n\
THAI CHARACTER FO FAN:\u{E1F}\n\
THAI CHARACTER PHO SAMPHAO:\u{E20}\n\
THAI CHARACTER MO MA:\u{E21}\n\
THAI CHARACTER YO YAK:\u{E22}\n\
THAI CHARACTER RO RUA:\u{E23}\n\
THAI CHARACTER RU:\u{E24}\n\
THAI CHARACTER LO LING:\u{E25}\n\
THAI CHARACTER LU:\u{E26}\n\
THAI CHARACTER WO WAEN:\u{E27}\n\
THAI CHARACTER SO SALA:\u{E28}\n\
THAI CHARACTER SO RUSI:\u{E29}\n\
THAI CHARACTER SO SUA:\u{E2A}\n\
THAI CHARACTER HO HIP:\u{E2B}\n\
THAI CHARACTER LO CHULA:\u{E2C}\n\
THAI CHARACTER O ANG:\u{E2D}\n\
THAI CHARACTER HO NOKHUK:\u{E2E}\n\
THAI CHARACTER PAIYANNOI:\u{E2F}\n";

pub const NAMES_08: &'static str = "THAI CHARACTER SARA A:\u{E30}\n\
THAI CHARACTER MAI HAN-AKAT:\u{E31}\n\
THAI CHARACTER SARA AA:\u{E32}\n\
THAI CHARACTER SARA AM:\u{E33}\n\
THAI CHARACTER SARA I:\u{E34}\n\
THAI CHARACTER SARA II:\u{E35}\n\
THAI CHARACTER SARA UE:\u{E36}\n\
THAI CHARACTER SARA UEE:\u{E37}\n\
THAI CHARACTER SARA U:\u{E38}\n\
THAI CHARACTER SARA UU:\u{E39}\n\
THAI CHARACTER PHINTHU:\u{E3A}\n\
THAI CURRENCY SYMBOL BAHT:\u{E3F}\n\
THAI CHARACTER SARA E:\u{E40}\n\
THAI CHARACTER SARA AE:\u{E41}\n\
THAI CHARACTER SARA O:\u{E42}\n\
THAI CHARACTER SARA AI MAIMUAN:\u{E43}\n\
THAI CHARACTER SARA AI MAIMALAI:\u{E44}\n\
THAI CHARACTER LAKKHANGYAO:\u{E45}\n\
THAI CHARACTER MAIYAMOK:\u{E46}\n\
THAI CHARACTER MAITAIKHU:\u{E47}\n\
THAI CHARACTER MAI EK:\u{E48}\n\
THAI CHARACTER MAI THO:\u{E49}\n\
THAI CHARACTER MAI TRI:\u{E4A}\n\
THAI CHARACTER MAI CHATTAWA:\u{E4B}\n\
THAI CHARACTER THANTHAKHAT:\u{E4C}\n\
THAI CHARACTER NIKHAHIT:\u{E4D}\n\
THAI CHARACTER YAMAKKAN:\u{E4E}\n\
THAI CHARACTER FONGMAN:\u{E4F}\n\
THAI DIGIT ZERO:\u{E50}\n\
THAI DIGIT ONE:\u{E51}\n\
THAI DIGIT TWO:\u{E52}\n\
THAI DIGIT THREE:\u{E53}\n\
THAI DIGIT FOUR:\u{E54}\n\
THAI DIGIT FIVE:\u{E55}\n\
THAI DIGIT SIX:\u{E56}\n\
THAI DIGIT SEVEN:\u{E57}\n\
THAI DIGIT EIGHT:\u{E58}\n\
THAI DIGIT NINE:\u{E59}\n\
THAI CHARACTER ANGKHANKHU:\u{E5A}\n\
THAI CHARACTER KHOMUT:\u{E5B}\n\
LAO LETTER KO:\u{E81}\n\
LAO LETTER KHO SUNG:\u{E82}\n\
LAO LETTER KHO TAM:\u{E84}\n\
LAO LETTER PALI GHA:\u{E86}\n\
LAO LETTER NGO:\u{E87}\n\
LAO LETTER CO:\u{E88}\n\
LAO LETTER PALI CHA:\u{E89}\n\
LAO LETTER SO TAM:\u{E8A}\n\
LAO LETTER PALI JHA:\u{E8C}\n\
LAO LETTER NYO:\u{E8D}\n\
LAO LETTER PALI NYA:\u{E8E}\n\
LAO LETTER PALI TTA:\u{E8F}\n\
LAO LETTER PALI TTHA:\u{E90}\n\
LAO LETTER PALI DDA:\u{E91}\n\
LAO LETTER PALI DDHA:\u{E92}\n\
LAO LETTER PALI NNA:\u{E93}\n\
LAO LETTER DO:\u{E94}\n\
LAO LETTER TO:\u{E95}\n\
LAO LETTER THO SUNG:\u{E96}\n\
LAO LETTER THO TAM:\u{E97}\n\
LAO LETTER PALI DHA:\u{E98}\n\
LAO LETTER NO:\u{E99}\n\
LAO LETTER BO:\u{E9A}\n\
LAO LETTER PO:\u{E9B}\n\
LAO LETTER PHO SUNG:\u{E9C}\n\
LAO LETTER FO TAM:\u{E9D}\n\
LAO LETTER PHO TAM:\u{E9E}\n\
LAO LETTER FO SUNG:\u{E9F}\n\
LAO LETTER PALI BHA:\u{EA0}\n\
LAO LETTER MO:\u{EA1}\n\
LAO LETTER YO:\u{EA2}\n\
LAO LETTER LO LING:\u{EA3}\n\
LAO LETTER LO LOOT:\u{EA5}\n\
LAO LETTER WO:\u{EA7}\n\
LAO LETTER SANSKRIT SHA:\u{EA8}\n\
LAO LETTER SANSKRIT SSA:\u{EA9}\n\
LAO LETTER SO SUNG:\u{EAA}\n\
LAO LETTER HO SUNG:\u{EAB}\n\
LAO LETTER PALI LLA:\u{EAC}\n\
LAO LETTER O:\u{EAD}\n\
LAO LETTER HO TAM:\u{EAE}\n\
LAO ELLIPSIS:\u{EAF}\n\
LAO VOWEL SIGN A:\u{EB0}\n\
LAO VOWEL SIGN MAI KAN:\u{EB1}\n\
LAO VOWEL SIGN AA:\u{EB2}\n\
LAO VOWEL SIGN AM:\u{EB3}\n\
LAO VOWEL SIGN I:\u{EB4}\n\
LAO VOWEL SIGN II:\u{EB5}\n\
LAO VOWEL SIGN Y:\u{EB6}\n\
LAO VOWEL SIGN YY:\u{EB7}\n\
LAO VOWEL SIGN U:\u{EB8}\n\
LAO VOWEL SIGN UU:\u{EB9}\n\
LAO SIGN PALI VIRAMA:\u{EBA}\n\
LAO VOWEL SIGN MAI KON:\u{EBB}\n\
LAO SEMIVOWEL SIGN LO:\u{EBC}\n\
LAO SEMIVOWEL SIGN NYO:\u{EBD}\n\
LAO VOWEL SIGN E:\u{EC0}\n\
LAO VOWEL SIGN EI:\u{EC1}\n\
LAO VOWEL SIGN O:\u{EC2}\n\
LAO VOWEL SIGN AY:\u{EC3}\n\
LAO VOWEL SIGN AI:\u{EC4}\n\
LAO KO LA:\u{EC6}\n\
LAO TONE MAI EK:\u{EC8}\n\
LAO TONE MAI THO:\u{EC9}\n\
LAO TONE MAI TI:\u{ECA}\n\
LAO TONE MAI CATAWA:\u{ECB}\n\
LAO CANCELLATION MARK:\u{ECC}\n\
LAO NIGGAHITA:\u{ECD}\n\
LAO DIGIT ZERO:\u{ED0}\n\
LAO DIGIT ONE:\u{ED1}\n\
LAO DIGIT TWO:\u{ED2}\n\
LAO DIGIT THREE:\u{ED3}\n\
LAO DIGIT FOUR:\u{ED4}\n\
LAO DIGIT FIVE:\u{ED5}\n\
LAO DIGIT SIX:\u{ED6}\n\
LAO DIGIT SEVEN:\u{ED7}\n\
LAO DIGIT EIGHT:\u{ED8}\n\
LAO DIGIT NINE:\u{ED9}\n\
LAO HO NO:\u{EDC}\n\
LAO HO MO:\u{EDD}\n\
LAO LETTER KHMU GO:\u{EDE}\n\
LAO LETTER KHMU NYO:\u{EDF}\n\
TIBETAN SYLLABLE OM:\u{F00}\n\
TIBETAN MARK GTER YIG MGO TRUNCATED A:\u{F01}\n\
TIBETAN MARK GTER YIG MGO -UM RNAM BCAD MA:\u{F02}\n\
TIBETAN MARK GTER YIG MGO -UM GTER TSHEG MA:\u{F03}\n\
TIBETAN MARK INITIAL YIG MGO MDUN MA:\u{F04}\n\
TIBETAN MARK CLOSING YIG MGO SGAB MA:\u{F05}\n\
TIBETAN MARK CARET YIG MGO PHUR SHAD MA:\u{F06}\n\
TIBETAN MARK YIG MGO TSHEG SHAD MA:\u{F07}\n\
TIBETAN MARK SBRUL SHAD:\u{F08}\n\
TIBETAN MARK BSKUR YIG MGO:\u{F09}\n\
TIBETAN MARK BKA- SHOG YIG MGO:\u{F0A}\n\
TIBETAN MARK INTERSYLLABIC TSHEG:\u{F0B}\n\
TIBETAN MARK DELIMITER TSHEG BSTAR:\u{F0C}\n\
TIBETAN MARK SHAD:\u{F0D}\n\
TIBETAN MARK NYIS SHAD:\u{F0E}\n\
TIBETAN MARK TSHEG SHAD:\u{F0F}\n\
TIBETAN MARK NYIS TSHEG SHAD:\u{F10}\n\
TIBETAN MARK RIN CHEN SPUNGS SHAD:\u{F11}\n\
TIBETAN MARK RGYA GRAM SHAD:\u{F12}\n\
TIBETAN MARK CARET -DZUD RTAGS ME LONG CAN:\u{F13}\n\
TIBETAN MARK GTER TSHEG:\u{F14}\n\
TIBETAN LOGOTYPE SIGN CHAD RTAGS:\u{F15}\n\
TIBETAN LOGOTYPE SIGN LHAG RTAGS:\u{F16}\n\
TIBETAN ASTROLOGICAL SIGN SGRA GCAN -CHAR RTAGS:\u{F17}\n\
TIBETAN ASTROLOGICAL SIGN -KHYUD PA:\u{F18}\n\
TIBETAN ASTROLOGICAL SIGN SDONG TSHUGS:\u{F19}\n\
TIBETAN SIGN RDEL DKAR GCIG:\u{F1A}\n\
TIBETAN SIGN RDEL DKAR GNYIS:\u{F1B}\n\
TIBETAN SIGN RDEL DKAR GSUM:\u{F1C}\n\
TIBETAN SIGN RDEL NAG GCIG:\u{F1D}\n\
TIBETAN SIGN RDEL NAG GNYIS:\u{F1E}\n\
TIBETAN SIGN RDEL DKAR RDEL NAG:\u{F1F}\n\
TIBETAN DIGIT ZERO:\u{F20}\n\
TIBETAN DIGIT ONE:\u{F21}\n\
TIBETAN DIGIT TWO:\u{F22}\n\
TIBETAN DIGIT THREE:\u{F23}\n\
TIBETAN DIGIT FOUR:\u{F24}\n\
TIBETAN DIGIT FIVE:\u{F25}\n\
TIBETAN DIGIT SIX:\u{F26}\n\
TIBETAN DIGIT SEVEN:\u{F27}\n\
TIBETAN DIGIT EIGHT:\u{F28}\n\
TIBETAN DIGIT NINE:\u{F29}\n\
TIBETAN DIGIT HALF ONE:\u{F2A}\n\
TIBETAN DIGIT HALF TWO:\u{F2B}\n\
TIBETAN DIGIT HALF THREE:\u{F2C}\n\
TIBETAN DIGIT HALF FOUR:\u{F2D}\n\
TIBETAN DIGIT HALF FIVE:\u{F2E}\n\
TIBETAN DIGIT HALF SIX:\u{F2F}\n\
TIBETAN DIGIT HALF SEVEN:\u{F30}\n\
TIBETAN DIGIT HALF EIGHT:\u{F31}\n\
TIBETAN DIGIT HALF NINE:\u{F32}\n\
TIBETAN DIGIT HALF ZERO:\u{F33}\n\
TIBETAN MARK BSDUS RTAGS:\u{F34}\n\
TIBETAN MARK NGAS BZUNG NYI ZLA:\u{F35}\n\
TIBETAN MARK CARET -DZUD RTAGS BZHI MIG CAN:\u{F36}\n\
TIBETAN MARK NGAS BZUNG SGOR RTAGS:\u{F37}\n\
TIBETAN MARK CHE MGO:\u{F38}\n\
TIBETAN MARK TSA -PHRU:\u{F39}\n\
TIBETAN MARK GUG RTAGS GYON:\u{F3A}\n\
TIBETAN MARK GUG RTAGS GYAS:\u{F3B}\n\
TIBETAN MARK ANG KHANG GYON:\u{F3C}\n\
TIBETAN MARK ANG KHANG GYAS:\u{F3D}\n\
TIBETAN SIGN YAR TSHES:\u{F3E}\n\
TIBETAN SIGN MAR TSHES:\u{F3F}\n\
TIBETAN LETTER KA:\u{F40}\n\
TIBETAN LETTER KHA:\u{F41}\n\
TIBETAN LETTER GA:\u{F42}\n\
TIBETAN LETTER GHA:\u{F43}\n\
TIBETAN LETTER NGA:\u{F44}\n\
TIBETAN LETTER CA:\u{F45}\n\
TIBETAN LETTER CHA:\u{F46}\n\
TIBETAN LETTER JA:\u{F47}\n\
TIBETAN LETTER NYA:\u{F49}\n\
TIBETAN LETTER TTA:\u{F4A}\n\
TIBETAN LETTER TTHA:\u{F4B}\n\
TIBETAN LETTER DDA:\u{F4C}\n\
TIBETAN LETTER DDHA:\u{F4D}\n\
TIBETAN LETTER NNA:\u{F4E}\n\
TIBETAN LETTER TA:\u{F4F}\n\
TIBETAN LETTER THA:\u{F50}\n\
TIBETAN LETTER DA:\u{F51}\n\
TIBETAN LETTER DHA:\u{F52}\n\
TIBETAN LETTER NA:\u{F53}\n\
TIBETAN LETTER PA:\u{F54}\n\
TIBETAN LETTER PHA:\u{F55}\n\
TIBETAN LETTER BA:\u{F56}\n\
TIBETAN LETTER BHA:\u{F57}\n\
TIBETAN LETTER MA:\u{F58}\n\
TIBETAN LETTER TSA:\u{F59}\n\
TIBETAN LETTER TSHA:\u{F5A}\n\
TIBETAN LETTER DZA:\u{F5B}\n\
TIBETAN LETTER DZHA:\u{F5C}\n\
TIBETAN LETTER WA:\u{F5D}\n\
TIBETAN LETTER ZHA:\u{F5E}\n\
TIBETAN LETTER ZA:\u{F5F}\n\
TIBETAN LETTER -A:\u{F60}\n\
TIBETAN LETTER YA:\u{F61}\n\
TIBETAN LETTER RA:\u{F62}\n\
TIBETAN LETTER LA:\u{F63}\n\
TIBETAN LETTER SHA:\u{F64}\n\
TIBETAN LETTER SSA:\u{F65}\n\
TIBETAN LETTER SA:\u{F66}\n\
TIBETAN LETTER HA:\u{F67}\n\
TIBETAN LETTER A:\u{F68}\n\
TIBETAN LETTER KSSA:\u{F69}\n\
TIBETAN LETTER FIXED-FORM RA:\u{F6A}\n\
TIBETAN LETTER KKA:\u{F6B}\n\
TIBETAN LETTER RRA:\u{F6C}\n\
TIBETAN VOWEL SIGN AA:\u{F71}\n\
TIBETAN VOWEL SIGN I:\u{F72}\n\
TIBETAN VOWEL SIGN II:\u{F73}\n\
TIBETAN VOWEL SIGN U:\u{F74}\n\
TIBETAN VOWEL SIGN UU:\u{F75}\n\
TIBETAN VOWEL SIGN VOCALIC R:\u{F76}\n\
TIBETAN VOWEL SIGN VOCALIC RR:\u{F77}\n\
TIBETAN VOWEL SIGN VOCALIC L:\u{F78}\n\
TIBETAN VOWEL SIGN VOCALIC LL:\u{F79}\n\
TIBETAN VOWEL SIGN E:\u{F7A}\n\
TIBETAN VOWEL SIGN EE:\u{F7B}\n\
TIBETAN VOWEL SIGN O:\u{F7C}\n\
TIBETAN VOWEL SIGN OO:\u{F7D}\n\
TIBETAN SIGN RJES SU NGA RO:\u{F7E}\n\
TIBETAN SIGN RNAM BCAD:\u{F7F}\n\
TIBETAN VOWEL SIGN REVERSED I:\u{F80}\n\
TIBETAN VOWEL SIGN REVERSED II:\u{F81}\n\
TIBETAN SIGN NYI ZLA NAA DA:\u{F82}\n\
TIBETAN SIGN SNA LDAN:\u{F83}\n\
TIBETAN MARK HALANTA:\u{F84}\n\
TIBETAN MARK PALUTA:\u{F85}\n\
TIBETAN SIGN LCI RTAGS:\u{F86}\n\
TIBETAN SIGN YANG RTAGS:\u{F87}\n\
TIBETAN SIGN LCE TSA CAN:\u{F88}\n\
TIBETAN SIGN MCHU CAN:\u{F89}\n\
TIBETAN SIGN GRU CAN RGYINGS:\u{F8A}\n\
TIBETAN SIGN GRU MED RGYINGS:\u{F8B}\n\
TIBETAN SIGN INVERTED MCHU CAN:\u{F8C}\n\
TIBETAN SUBJOINED SIGN LCE TSA CAN:\u{F8D}\n\
TIBETAN SUBJOINED SIGN MCHU CAN:\u{F8E}\n\
TIBETAN SUBJOINED SIGN INVERTED MCHU CAN:\u{F8F}\n\
TIBETAN SUBJOINED LETTER KA:\u{F90}\n\
TIBETAN SUBJOINED LETTER KHA:\u{F91}\n\
TIBETAN SUBJOINED LETTER GA:\u{F92}\n\
TIBETAN SUBJOINED LETTER GHA:\u{F93}\n\
TIBETAN SUBJOINED LETTER NGA:\u{F94}\n\
TIBETAN SUBJOINED LETTER CA:\u{F95}\n\
TIBETAN SUBJOINED LETTER CHA:\u{F96}\n\
TIBETAN SUBJOINED LETTER JA:\u{F97}\n\
TIBETAN SUBJOINED LETTER NYA:\u{F99}\n\
TIBETAN SUBJOINED LETTER TTA:\u{F9A}\n\
TIBETAN SUBJOINED LETTER TTHA:\u{F9B}\n\
TIBETAN SUBJOINED LETTER DDA:\u{F9C}\n\
TIBETAN SUBJOINED LETTER DDHA:\u{F9D}\n\
TIBETAN SUBJOINED LETTER NNA:\u{F9E}\n\
TIBETAN SUBJOINED LETTER TA:\u{F9F}\n\
TIBETAN SUBJOINED LETTER THA:\u{FA0}\n\
TIBETAN SUBJOINED LETTER DA:\u{FA1}\n\
TIBETAN SUBJOINED LETTER DHA:\u{FA2}\n\
TIBETAN SUBJOINED LETTER NA:\u{FA3}\n\
TIBETAN SUBJOINED LETTER PA:\u{FA4}\n\
TIBETAN SUBJOINED LETTER PHA:\u{FA5}\n\
TIBETAN SUBJOINED LETTER BA:\u{FA6}\n\
TIBETAN SUBJOINED LETTER BHA:\u{FA7}\n\
TIBETAN SUBJOINED LETTER MA:\u{FA8}\n\
TIBETAN SUBJOINED LETTER TSA:\u{FA9}\n\
TIBETAN SUBJOINED LETTER TSHA:\u{FAA}\n\
TIBETAN SUBJOINED LETTER DZA:\u{FAB}\n\
TIBETAN SUBJOINED LETTER DZHA:\u{FAC}\n\
TIBETAN SUBJOINED LETTER WA:\u{FAD}\n\
TIBETAN SUBJOINED LETTER ZHA:\u{FAE}\n\
TIBETAN SUBJOINED LETTER ZA:\u{FAF}\n\
TIBETAN SUBJOINED LETTER -A:\u{FB0}\n\
TIBETAN SUBJOINED LETTER YA:\u{FB1}\n\
TIBETAN SUBJOINED LETTER RA:\u{FB2}\n\
TIBETAN SUBJOINED LETTER LA:\u{FB3}\n\
TIBETAN SUBJOINED LETTER SHA:\u{FB4}\n\
TIBETAN SUBJOINED LETTER SSA:\u{FB5}\n\
TIBETAN SUBJOINED LETTER SA:\u{FB6}\n\
TIBETAN SUBJOINED LETTER HA:\u{FB7}\n\
TIBETAN SUBJOINED LETTER A:\u{FB8}\n\
TIBETAN SUBJOINED LETTER KSSA:\u{FB9}\n\
TIBETAN SUBJOINED LETTER FIXED-FORM WA:\u{FBA}\n\
TIBETAN SUBJOINED LETTER FIXED-FORM YA:\u{FBB}\n\
TIBETAN SUBJOINED LETTER FIXED-FORM RA:\u{FBC}\n\
TIBETAN KU RU KHA:\u{FBE}\n\
TIBETAN KU RU KHA BZHI MIG CAN:\u{FBF}\n\
TIBETAN CANTILLATION SIGN HEAVY BEAT:\u{FC0}\n\
TIBETAN CANTILLATION SIGN LIGHT BEAT:\u{FC1}\n\
TIBETAN CANTILLATION SIGN CANG TE-U:\u{FC2}\n\
TIBETAN CANTILLATION SIGN SBUB -CHAL:\u{FC3}\n\
TIBETAN SYMBOL DRIL BU:\u{FC4}\n\
TIBETAN SYMBOL RDO RJE:\u{FC5}\n\
TIBETAN SYMBOL PADMA GDAN:\u{FC6}\n\
TIBETAN SYMBOL RDO RJE RGYA GRAM:\u{FC7}\n\
TIBETAN SYMBOL PHUR PA:\u{FC8}\n\
TIBETAN SYMBOL NOR BU:\u{FC9}\n\
TIBETAN SYMBOL NOR BU NYIS -KHYIL:\u{FCA}\n\
TIBETAN SYMBOL NOR BU GSUM -KHYIL:\u{FCB}\n\
TIBETAN SYMBOL NOR BU BZHI -KHYIL:\u{FCC}\n\
TIBETAN SIGN RDEL NAG RDEL DKAR:\u{FCE}\n\
TIBETAN SIGN RDEL NAG GSUM:\u{FCF}\n\
TIBETAN MARK BSKA- SHOG GI MGO RGYAN:\u{FD0}\n\
TIBETAN MARK MNYAM YIG GI MGO RGYAN:\u{FD1}\n\
TIBETAN MARK NYIS TSHEG:\u{FD2}\n\
TIBETAN MARK INITIAL BRDA RNYING YIG MGO MDUN MA:\u{FD3}\n\
TIBETAN MARK CLOSING BRDA RNYING YIG MGO SGAB MA:\u{FD4}\n\
RIGHT-FACING SVASTI SIGN:\u{FD5}\n\
LEFT-FACING SVASTI SIGN:\u{FD6}\n\
RIGHT-FACING SVASTI SIGN WITH DOTS:\u{FD7}\n\
LEFT-FACING SVASTI SIGN WITH DOTS:\u{FD8}\n\
TIBETAN MARK LEADING MCHAN RTAGS:\u{FD9}\n\
TIBETAN MARK TRAILING MCHAN RTAGS:\u{FDA}\n\
MYANMAR LETTER KA:\u{1000}\n\
MYANMAR LETTER KHA:\u{1001}\n\
MYANMAR LETTER GA:\u{1002}\n\
MYANMAR LETTER GHA:\u{1003}\n\
MYANMAR LETTER NGA:\u{1004}\n\
MYANMAR LETTER CA:\u{1005}\n\
MYANMAR LETTER CHA:\u{1006}\n\
MYANMAR LETTER JA:\u{1007}\n\
MYANMAR LETTER JHA:\u{1008}\n\
MYANMAR LETTER NYA:\u{1009}\n\
MYANMAR LETTER NNYA:\u{100A}\n\
MYANMAR LETTER TTA:\u{100B}\n\
MYANMAR LETTER TTHA:\u{100C}\n\
MYANMAR LETTER DDA:\u{100D}\n\
MYANMAR LETTER DDHA:\u{100E}\n\
MYANMAR LETTER NNA:\u{100F}\n\
MYANMAR LETTER TA:\u{1010}\n\
MYANMAR LETTER THA:\u{1011}\n\
MYANMAR LETTER DA:\u{1012}\n\
MYANMAR LETTER DHA:\u{1013}\n\
MYANMAR LETTER NA:\u{1014}\n\
MYANMAR LETTER PA:\u{1015}\n\
MYANMAR LETTER PHA:\u{1016}\n\
MYANMAR LETTER BA:\u{1017}\n\
MYANMAR LETTER BHA:\u{1018}\n\
MYANMAR LETTER MA:\u{1019}\n\
MYANMAR LETTER YA:\u{101A}\n\
MYANMAR LETTER RA:\u{101B}\n\
MYANMAR LETTER LA:\u{101C}\n\
MYANMAR LETTER WA:\u{101D}\n\
MYANMAR LETTER SA:\u{101E}\n\
MYANMAR LETTER HA:\u{101F}\n\
MYANMAR LETTER LLA:\u{1020}\n\
MYANMAR LETTER A:\u{1021}\n\
MYANMAR LETTER SHAN A:\u{1022}\n\
MYANMAR LETTER I:\u{1023}\n\
MYANMAR LETTER II:\u{1024}\n\
MYANMAR LETTER U:\u{1025}\n\
MYANMAR LETTER UU:\u{1026}\n\
MYANMAR LETTER E:\u{1027}\n\
MYANMAR LETTER MON E:\u{1028}\n\
MYANMAR LETTER O:\u{1029}\n\
MYANMAR LETTER AU:\u{102A}\n\
MYANMAR VOWEL SIGN TALL AA:\u{102B}\n\
MYANMAR VOWEL SIGN AA:\u{102C}\n\
MYANMAR VOWEL SIGN I:\u{102D}\n\
MYANMAR VOWEL SIGN II:\u{102E}\n\
MYANMAR VOWEL SIGN U:\u{102F}\n\
MYANMAR VOWEL SIGN UU:\u{1030}\n\
MYANMAR VOWEL SIGN E:\u{1031}\n\
MYANMAR VOWEL SIGN AI:\u{1032}\n\
MYANMAR VOWEL SIGN MON II:\u{1033}\n\
MYANMAR VOWEL SIGN MON O:\u{1034}\n\
MYANMAR VOWEL SIGN E ABOVE:\u{1035}\n\
MYANMAR SIGN ANUSVARA:\u{1036}\n\
MYANMAR SIGN DOT BELOW:\u{1037}\n\
MYANMAR SIGN VISARGA:\u{1038}\n\
MYANMAR SIGN VIRAMA:\u{1039}\n\
MYANMAR SIGN ASAT:\u{103A}\n\
MYANMAR CONSONANT SIGN MEDIAL YA:\u{103B}\n\
MYANMAR CONSONANT SIGN MEDIAL RA:\u{103C}\n\
MYANMAR CONSONANT SIGN MEDIAL WA:\u{103D}\n\
MYANMAR CONSONANT SIGN MEDIAL HA:\u{103E}\n\
MYANMAR LETTER GREAT SA:\u{103F}\n\
MYANMAR DIGIT ZERO:\u{1040}\n\
MYANMAR DIGIT ONE:\u{1041}\n\
MYANMAR DIGIT TWO:\u{1042}\n\
MYANMAR DIGIT THREE:\u{1043}\n\
MYANMAR DIGIT FOUR:\u{1044}\n\
MYANMAR DIGIT FIVE:\u{1045}\n\
MYANMAR DIGIT SIX:\u{1046}\n\
MYANMAR DIGIT SEVEN:\u{1047}\n\
MYANMAR DIGIT EIGHT:\u{1048}\n\
MYANMAR DIGIT NINE:\u{1049}\n\
MYANMAR SIGN LITTLE SECTION:\u{104A}\n\
MYANMAR SIGN SECTION:\u{104B}\n\
MYANMAR SYMBOL LOCATIVE:\u{104C}\n\
MYANMAR SYMBOL COMPLETED:\u{104D}\n\
MYANMAR SYMBOL AFOREMENTIONED:\u{104E}\n\
MYANMAR SYMBOL GENITIVE:\u{104F}\n\
MYANMAR LETTER SHA:\u{1050}\n\
MYANMAR LETTER SSA:\u{1051}\n\
MYANMAR LETTER VOCALIC R:\u{1052}\n\
MYANMAR LETTER VOCALIC RR:\u{1053}\n\
MYANMAR LETTER VOCALIC L:\u{1054}\n\
MYANMAR LETTER VOCALIC LL:\u{1055}\n\
MYANMAR VOWEL SIGN VOCALIC R:\u{1056}\n\
MYANMAR VOWEL SIGN VOCALIC RR:\u{1057}\n\
MYANMAR VOWEL SIGN VOCALIC L:\u{1058}\n\
MYANMAR VOWEL SIGN VOCALIC LL:\u{1059}\n\
MYANMAR LETTER MON NGA:\u{105A}\n\
MYANMAR LETTER MON JHA:\u{105B}\n\
MYANMAR LETTER MON BBA:\u{105C}\n\
MYANMAR LETTER MON BBE:\u{105D}\n\
MYANMAR CONSONANT SIGN MON MEDIAL NA:\u{105E}\n\
MYANMAR CONSONANT SIGN MON MEDIAL MA:\u{105F}\n\
MYANMAR CONSONANT SIGN MON MEDIAL LA:\u{1060}\n\
MYANMAR LETTER SGAW KAREN SHA:\u{1061}\n\
MYANMAR VOWEL SIGN SGAW KAREN EU:\u{1062}\n";

pub const NAMES_09: &'static str = "MYANMAR TONE MARK SGAW KAREN HATHI:\u{1063}\n\
MYANMAR TONE MARK SGAW KAREN KE PHO:\u{1064}\n\
MYANMAR LETTER WESTERN PWO KAREN THA:\u{1065}\n\
MYANMAR LETTER WESTERN PWO KAREN PWA:\u{1066}\n\
MYANMAR VOWEL SIGN WESTERN PWO KAREN EU:\u{1067}\n\
MYANMAR VOWEL SIGN WESTERN PWO KAREN UE:\u{1068}\n\
MYANMAR SIGN WESTERN PWO KAREN TONE-1:\u{1069}\n\
MYANMAR SIGN WESTERN PWO KAREN TONE-2:\u{106A}\n\
MYANMAR SIGN WESTERN PWO KAREN TONE-3:\u{106B}\n\
MYANMAR SIGN WESTERN PWO KAREN TONE-4:\u{106C}\n\
MYANMAR SIGN WESTERN PWO KAREN TONE-5:\u{106D}\n\
MYANMAR LETTER EASTERN PWO KAREN NNA:\u{106E}\n\
MYANMAR LETTER EASTERN PWO KAREN YWA:\u{106F}\n\
MYANMAR LETTER EASTERN PWO KAREN GHWA:\u{1070}\n\
MYANMAR VOWEL SIGN GEBA KAREN I:\u{1071}\n\
MYANMAR VOWEL SIGN KAYAH OE:\u{1072}\n\
MYANMAR VOWEL SIGN KAYAH U:\u{1073}\n\
MYANMAR VOWEL SIGN KAYAH EE:\u{1074}\n\
MYANMAR LETTER SHAN KA:\u{1075}\n\
MYANMAR LETTER SHAN KHA:\u{1076}\n\
MYANMAR LETTER SHAN GA:\u{1077}\n\
MYANMAR LETTER SHAN CA:\u{1078}\n\
MYANMAR LETTER SHAN ZA:\u{1079}\n\
MYANMAR LETTER SHAN NYA:\u{107A}\n\
MYANMAR LETTER SHAN DA:\u{107B}\n\
MYANMAR LETTER SHAN NA:\u{107C}\n\
MYANMAR LETTER SHAN PHA:\u{107D}\n\
MYANMAR LETTER SHAN FA:\u{107E}\n\
MYANMAR LETTER SHAN BA:\u{107F}\n\
MYANMAR LETTER SHAN THA:\u{1080}\n\
MYANMAR LETTER SHAN HA:\u{1081}\n\
MYANMAR CONSONANT SIGN SHAN MEDIAL WA:\u{1082}\n\
MYANMAR VOWEL SIGN SHAN AA:\u{1083}\n\
MYANMAR VOWEL SIGN SHAN E:\u{1084}\n\
MYANMAR VOWEL SIGN SHAN E ABOVE:\u{1085}\n\
MYANMAR VOWEL SIGN SHAN FINAL Y:\u{1086}\n\
MYANMAR SIGN SHAN TONE-2:\u{1087}\n\
MYANMAR SIGN SHAN TONE-3:\u{1088}\n\
MYANMAR SIGN SHAN TONE-5:\u{1089}\n\
MYANMAR SIGN SHAN TONE-6:\u{108A}\n\
MYANMAR SIGN SHAN COUNCIL TONE-2:\u{108B}\n\
MYANMAR SIGN SHAN COUNCIL TONE-3:\u{108C}\n\
MYANMAR SIGN SHAN COUNCIL EMPHATIC TONE:\u{108D}\n\
MYANMAR LETTER RUMAI PALAUNG FA:\u{108E}\n\
MYANMAR SIGN RUMAI PALAUNG TONE-5:\u{108F}\n\
MYANMAR SHAN DIGIT ZERO:\u{1090}\n\
MYANMAR SHAN DIGIT ONE:\u{1091}\n\
MYANMAR SHAN DIGIT TWO:\u{1092}\n\
MYANMAR SHAN DIGIT THREE:\u{1093}\n\
MYANMAR SHAN DIGIT FOUR:\u{1094}\n\
MYANMAR SHAN DIGIT FIVE:\u{1095}\n\
MYANMAR SHAN DIGIT SIX:\u{1096}\n\
MYANMAR SHAN DIGIT SEVEN:\u{1097}\n\
MYANMAR SHAN DIGIT EIGHT:\u{1098}\n\
MYANMAR SHAN DIGIT NINE:\u{1099}\n\
MYANMAR SIGN KHAMTI TONE-1:\u{109A}\n\
MYANMAR SIGN KHAMTI TONE-3:\u{109B}\n\
MYANMAR VOWEL SIGN AITON A:\u{109C}\n\
MYANMAR VOWEL SIGN AITON AI:\u{109D}\n\
MYANMAR SYMBOL SHAN ONE:\u{109E}\n\
MYANMAR SYMBOL SHAN EXCLAMATION:\u{109F}\n\
GEORGIAN CAPITAL LETTER AN:\u{10A0}\n\
GEORGIAN CAPITAL LETTER BAN:\u{10A1}\n\
GEORGIAN CAPITAL LETTER GAN:\u{10A2}\n\
GEORGIAN CAPITAL LETTER DON:\u{10A3}\n\
GEORGIAN CAPITAL LETTER EN:\u{10A4}\n\
GEORGIAN CAPITAL LETTER VIN:\u{10A5}\n\
GEORGIAN CAPITAL LETTER ZEN:\u{10A6}\n\
GEORGIAN CAPITAL LETTER TAN:\u{10A7}\n\
GEORGIAN CAPITAL LETTER IN:\u{10A8}\n\
GEORGIAN CAPITAL LETTER KAN:\u{10A9}\n\
GEORGIAN CAPITAL LETTER LAS:\u{10AA}\n\
GEORGIAN CAPITAL LETTER MAN:\u{10AB}\n\
GEORGIAN CAPITAL LETTER NAR:\u{10AC}\n\
GEORGIAN CAPITAL LETTER ON:\u{10AD}\n\
GEORGIAN CAPITAL LETTER PAR:\u{10AE}\n\
GEORGIAN CAPITAL LETTER ZHAR:\u{10AF}\n\
GEORGIAN CAPITAL LETTER RAE:\u{10B0}\n\
GEORGIAN CAPITAL LETTER SAN:\u{10B1}\n\
GEORGIAN CAPITAL LETTER TAR:\u{10B2}\n\
GEORGIAN CAPITAL LETTER UN:\u{10B3}\n\
GEORGIAN CAPITAL LETTER PHAR:\u{10B4}\n\
GEORGIAN CAPITAL LETTER KHAR:\u{10B5}\n\
GEORGIAN CAPITAL LETTER GHAN:\u{10B6}\n\
GEORGIAN CAPITAL LETTER QAR:\u{10B7}\n\
GEORGIAN CAPITAL LETTER SHIN:\u{10B8}\n\
GEORGIAN CAPITAL LETTER CHIN:\u{10B9}\n\
GEORGIAN CAPITAL LETTER CAN:\u{10BA}\n\
GEORGIAN CAPITAL LETTER JIL:\u{10BB}\n\
GEORGIAN CAPITAL LETTER CIL:\u{10BC}\n\
GEORGIAN CAPITAL LETTER CHAR:\u{10BD}\n\
GEORGIAN CAPITAL LETTER XAN:\u{10BE}\n\
GEORGIAN CAPITAL LETTER JHAN:\u{10BF}\n\
GEORGIAN CAPITAL LETTER HAE:\u{10C0}\n\
GEORGIAN CAPITAL LETTER HE:\u{10C1}\n\
GEORGIAN CAPITAL LETTER HIE:\u{10C2}\n\
GEORGIAN CAPITAL LETTER WE:\u{10C3}\n\
GEORGIAN CAPITAL LETTER HAR:\u{10C4}\n\
GEORGIAN CAPITAL LETTER HOE:\u{10C5}\n\
GEORGIAN CAPITAL LETTER YN:\u{10C7}\n\
GEORGIAN CAPITAL LETTER AEN:\u{10CD}\n\
GEORGIAN LETTER AN:\u{10D0}\n\
GEORGIAN LETTER BAN:\u{10D1}\n\
GEORGIAN LETTER GAN:\u{10D2}\n\
GEORGIAN LETTER DON:\u{10D3}\n\
GEORGIAN LETTER EN:\u{10D4}\n\
GEORGIAN LETTER VIN:\u{10D5}\n\
GEORGIAN LETTER ZEN:\u{10D6}\n\
GEORGIAN LETTER TAN:\u{10D7}\n\
GEORGIAN LETTER IN:\u{10D8}\n\
GEORGIAN LETTER KAN:\u{10D9}\n\
GEORGIAN LETTER LAS:\u{10DA}\n\
GEORGIAN LETTER MAN:\u{10DB}\n\
GEORGIAN LETTER NAR:\u{10DC}\n\
GEORGIAN LETTER ON:\u{10DD}\n\
GEORGIAN LETTER PAR:\u{10DE}\n\
GEORGIAN LETTER ZHAR:\u{10DF}\n\
GEORGIAN LETTER RAE:\u{10E0}\n\
GEORGIAN LETTER SAN:\u{10E1}\n\
GEORGIAN LETTER TAR:\u{10E2}\n\
GEORGIAN LETTER UN:\u{10E3}\n\
GEORGIAN LETTER PHAR:\u{10E4}\n\
GEORGIAN LETTER KHAR:\u{10E5}\n\
GEORGIAN LETTER GHAN:\u{10E6}\n\
GEORGIAN LETTER QAR:\u{10E7}\n\
GEORGIAN LETTER SHIN:\u{10E8}\n\
GEORGIAN LETTER CHIN:\u{10E9}\n\
GEORGIAN LETTER CAN:\u{10EA}\n\
GEORGIAN LETTER JIL:\u{10EB}\n\
GEORGIAN LETTER CIL:\u{10EC}\n\
GEORGIAN LETTER CHAR:\u{10ED}\n\
GEORGIAN LETTER XAN:\u{10EE}\n\
GEORGIAN LETTER JHAN:\u{10EF}\n\
GEORGIAN LETTER HAE:\u{10F0}\n\
GEORGIAN LETTER HE:\u{10F1}\n\
GEORGIAN LETTER HIE:\u{10F2}\n\
GEORGIAN LETTER WE:\u{10F3}\n\
GEORGIAN LETTER HAR:\u{10F4}\n\
GEORGIAN LETTER HOE:\u{10F5}\n\
GEORGIAN LETTER FI:\u{10F6}\n\
GEORGIAN LETTER YN:\u{10F7}\n\
GEORGIAN LETTER ELIFI:\u{10F8}\n\
GEORGIAN LETTER TURNED GAN:\u{10F9}\n\
GEORGIAN LETTER AIN:\u{10FA}\n\
GEORGIAN PARAGRAPH SEPARATOR:\u{10FB}\n\
MODIFIER LETTER GEORGIAN NAR:\u{10FC}\n\
GEORGIAN LETTER AEN:\u{10FD}\n\
GEORGIAN LETTER HARD SIGN:\u{10FE}\n\
GEORGIAN LETTER LABIAL SIGN:\u{10FF}\n\
HANGUL CHOSEONG KIYEOK:\u{1100}\n\
HANGUL CHOSEONG SSANGKIYEOK:\u{1101}\n\
HANGUL CHOSEONG NIEUN:\u{1102}\n\
HANGUL CHOSEONG TIKEUT:\u{1103}\n\
HANGUL CHOSEONG SSANGTIKEUT:\u{1104}\n\
HANGUL CHOSEONG RIEUL:\u{1105}\n\
HANGUL CHOSEONG MIEUM:\u{1106}\n\
HANGUL CHOSEONG PIEUP:\u{1107}\n\
HANGUL CHOSEONG SSANGPIEUP:\u{1108}\n\
HANGUL CHOSEONG SIOS:\u{1109}\n\
HANGUL CHOSEONG SSANGSIOS:\u{110A}\n\
HANGUL CHOSEONG IEUNG:\u{110B}\n\
HANGUL CHOSEONG CIEUC:\u{110C}\n\
HANGUL CHOSEONG SSANGCIEUC:\u{110D}\n\
HANGUL CHOSEONG CHIEUCH:\u{110E}\n\
HANGUL CHOSEONG KHIEUKH:\u{110F}\n\
HANGUL CHOSEONG THIEUTH:\u{1110}\n\
HANGUL CHOSEONG PHIEUPH:\u{1111}\n\
HANGUL CHOSEONG HIEUH:\u{1112}\n\
HANGUL CHOSEONG NIEUN-KIYEOK:\u{1113}\n\
HANGUL CHOSEONG SSANGNIEUN:\u{1114}\n\
HANGUL CHOSEONG NIEUN-TIKEUT:\u{1115}\n\
HANGUL CHOSEONG NIEUN-PIEUP:\u{1116}\n\
HANGUL CHOSEONG TIKEUT-KIYEOK:\u{1117}\n\
HANGUL CHOSEONG RIEUL-NIEUN:\u{1118}\n\
HANGUL CHOSEONG SSANGRIEUL:\u{1119}\n\
HANGUL CHOSEONG RIEUL-HIEUH:\u{111A}\n\
HANGUL CHOSEONG KAPYEOUNRIEUL:\u{111B}\n\
HANGUL CHOSEONG MIEUM-PIEUP:\u{111C}\n\
HANGUL CHOSEONG KAPYEOUNMIEUM:\u{111D}\n\
HANGUL CHOSEONG PIEUP-KIYEOK:\u{111E}\n\
HANGUL CHOSEONG PIEUP-NIEUN:\u{111F}\n\
HANGUL CHOSEONG PIEUP-TIKEUT:\u{1120}\n\
HANGUL CHOSEONG PIEUP-SIOS:\u{1121}\n\
HANGUL CHOSEONG PIEUP-SIOS-KIYEOK:\u{1122}\n\
HANGUL CHOSEONG PIEUP-SIOS-TIKEUT:\u{1123}\n\
HANGUL CHOSEONG PIEUP-SIOS-PIEUP:\u{1124}\n\
HANGUL CHOSEONG PIEUP-SSANGSIOS:\u{1125}\n\
HANGUL CHOSEONG PIEUP-SIOS-CIEUC:\u{1126}\n\
HANGUL CHOSEONG PIEUP-CIEUC:\u{1127}\n\
HANGUL CHOSEONG PIEUP-CHIEUCH:\u{1128}\n\
HANGUL CHOSEONG PIEUP-THIEUTH:\u{1129}\n\
HANGUL CHOSEONG PIEUP-PHIEUPH:\u{112A}\n\
HANGUL CHOSEONG KAPYEOUNPIEUP:\u{112B}\n\
HANGUL CHOSEONG KAPYEOUNSSANGPIEUP:\u{112C}\n\
HANGUL CHOSEONG SIOS-KIYEOK:\u{112D}\n\
HANGUL CHOSEONG SIOS-NIEUN:\u{112E}\n\
HANGUL CHOSEONG SIOS-TIKEUT:\u{112F}\n\
HANGUL CHOSEONG SIOS-RIEUL:\u{1130}\n\
HANGUL CHOSEONG SIOS-MIEUM:\u{1131}\n\
HANGUL CHOSEONG SIOS-PIEUP:\u{1132}\n\
HANGUL CHOSEONG SIOS-PIEUP-KIYEOK:\u{1133}\n\
HANGUL CHOSEONG SIOS-SSANGSIOS:\u{1134}\n\
HANGUL CHOSEONG SIOS-IEUNG:\u{1135}\n\
HANGUL CHOSEONG SIOS-CIEUC:\u{1136}\n\
HANGUL CHOSEONG SIOS-CHIEUCH:\u{1137}\n\
HANGUL CHOSEONG SIOS-KHIEUKH:\u{1138}\n\
HANGUL CHOSEONG SIOS-THIEUTH:\u{1139}\n\
HANGUL CHOSEONG SIOS-PHIEUPH:\u{113A}\n\
HANGUL CHOSEONG SIOS-HIEUH:\u{113B}\n\
HANGUL CHOSEONG CHITUEUMSIOS:\u{113C}\n\
HANGUL CHOSEONG CHITUEUMSSANGSIOS:\u{113D}\n\
HANGUL CHOSEONG CEONGCHIEUMSIOS:\u{113E}\n\
HANGUL CHOSEONG CEONGCHIEUMSSANGSIOS:\u{113F}\n\
HANGUL CHOSEONG PANSIOS:\u{1140}\n\
HANGUL CHOSEONG IEUNG-KIYEOK:\u{1141}\n\
HANGUL CHOSEONG IEUNG-TIKEUT:\u{1142}\n\
HANGUL CHOSEONG IEUNG-MIEUM:\u{1143}\n\
HANGUL CHOSEONG IEUNG-PIEUP:\u{1144}\n\
HANGUL CHOSEONG IEUNG-SIOS:\u{1145}\n\
HANGUL CHOSEONG IEUNG-PANSIOS:\u{1146}\n\
HANGUL CHOSEONG SSANGIEUNG:\u{1147}\n\
HANGUL CHOSEONG IEUNG-CIEUC:\u{1148}\n\
HANGUL CHOSEONG IEUNG-CHIEUCH:\u{1149}\n\
HANGUL CHOSEONG IEUNG-THIEUTH:\u{114A}\n\
HANGUL CHOSEONG IEUNG-PHIEUPH:\u{114B}\n\
HANGUL CHOSEONG YESIEUNG:\u{114C}\n\
HANGUL CHOSEONG CIEUC-IEUNG:\u{114D}\n\
HANGUL CHOSEONG CHITUEUMCIEUC:\u{114E}\n\
HANGUL CHOSEONG CHITUEUMSSANGCIEUC:\u{114F}\n\
HANGUL CHOSEONG CEONGCHIEUMCIEUC:\u{1150}\n\
HANGUL CHOSEONG CEONGCHIEUMSSANGCIEUC:\u{1151}\n\
HANGUL CHOSEONG CHIEUCH-KHIEUKH:\u{1152}\n\
HANGUL CHOSEONG CHIEUCH-HIEUH:\u{1153}\n\
HANGUL CHOSEONG CHITUEUMCHIEUCH:\u{1154}\n\
HANGUL CHOSEONG CEONGCHIEUMCHIEUCH:\u{1155}\n\
HANGUL CHOSEONG PHIEUPH-PIEUP:\u{1156}\n\
HANGUL CHOSEONG KAPYEOUNPHIEUPH:\u{1157}\n\
HANGUL CHOSEONG SSANGHIEUH:\u{1158}\n\
HANGUL CHOSEONG YEORINHIEUH:\u{1159}\n\
HANGUL CHOSEONG KIYEOK-TIKEUT:\u{115A}\n\
HANGUL CHOSEONG NIEUN-SIOS:\u{115B}\n\
HANGUL CHOSEONG NIEUN-CIEUC:\u{115C}\n\
HANGUL CHOSEONG NIEUN-HIEUH:\u{115D}\n\
HANGUL CHOSEONG TIKEUT-RIEUL:\u{115E}\n\
HANGUL CHOSEONG FILLER:\u{115F}\n\
HANGUL JUNGSEONG FILLER:\u{1160}\n\
HANGUL JUNGSEONG A:\u{1161}\n\
HANGUL JUNGSEONG AE:\u{1162}\n\
HANGUL JUNGSEONG YA:\u{1163}\n\
HANGUL JUNGSEONG YAE:\u{1164}\n\
HANGUL JUNGSEONG EO:\u{1165}\n\
HANGUL JUNGSEONG E:\u{1166}\n\
HANGUL JUNGSEONG YEO:\u{1167}\n\
HANGUL JUNGSEONG YE:\u{1168}\n\
HANGUL JUNGSEONG O:\u{1169}\n\
HANGUL JUNGSEONG WA:\u{116A}\n\
HANGUL JUNGSEONG WAE:\u{116B}\n\
HANGUL JUNGSEONG OE:\u{116C}\n\
HANGUL JUNGSEONG YO:\u{116D}\n\
HANGUL JUNGSEONG U:\u{116E}\n\
HANGUL JUNGSEONG WEO:\u{116F}\n\
HANGUL JUNGSEONG WE:\u{1170}\n\
HANGUL JUNGSEONG WI:\u{1171}\n\
HANGUL JUNGSEONG YU:\u{1172}\n\
HANGUL JUNGSEONG EU:\u{1173}\n\
HANGUL JUNGSEONG YI:\u{1174}\n\
HANGUL JUNGSEONG I:\u{1175}\n\
HANGUL JUNGSEONG A-O:\u{1176}\n\
HANGUL JUNGSEONG A-U:\u{1177}\n\
HANGUL JUNGSEONG YA-O:\u{1178}\n\
HANGUL JUNGSEONG YA-YO:\u{1179}\n\
HANGUL JUNGSEONG EO-O:\u{117A}\n\
HANGUL JUNGSEONG EO-U:\u{117B}\n\
HANGUL JUNGSEONG EO-EU:\u{117C}\n\
HANGUL JUNGSEONG YEO-O:\u{117D}\n\
HANGUL JUNGSEONG YEO-U:\u{117E}\n\
HANGUL JUNGSEONG O-EO:\u{117F}\n\
HANGUL JUNGSEONG O-E:\u{1180}\n\
HANGUL JUNGSEONG O-YE:\u{1181}\n\
HANGUL JUNGSEONG O-O:\u{1182}\n\
HANGUL JUNGSEONG O-U:\u{1183}\n\
HANGUL JUNGSEONG YO-YA:\u{1184}\n\
HANGUL JUNGSEONG YO-YAE:\u{1185}\n\
HANGUL JUNGSEONG YO-YEO:\u{1186}\n\
HANGUL JUNGSEONG YO-O:\u{1187}\n\
HANGUL JUNGSEONG YO-I:\u{1188}\n\
HANGUL JUNGSEONG U-A:\u{1189}\n\
HANGUL JUNGSEONG U-AE:\u{118A}\n\
HANGUL JUNGSEONG U-EO-EU:\u{118B}\n\
HANGUL JUNGSEONG U-YE:\u{118C}\n\
HANGUL JUNGSEONG U-U:\u{118D}\n\
HANGUL JUNGSEONG YU-A:\u{118E}\n\
HANGUL JUNGSEONG YU-EO:\u{118F}\n\
HANGUL JUNGSEONG YU-E:\u{1190}\n\
HANGUL JUNGSEONG YU-YEO:\u{1191}\n\
HANGUL JUNGSEONG YU-YE:\u{1192}\n\
HANGUL JUNGSEONG YU-U:\u{1193}\n\
HANGUL JUNGSEONG YU-I:\u{1194}\n\
HANGUL JUNGSEONG EU-U:\u{1195}\n\
HANGUL JUNGSEONG EU-EU:\u{1196}\n\
HANGUL JUNGSEONG YI-U:\u{1197}\n\
HANGUL JUNGSEONG I-A:\u{1198}\n\
HANGUL JUNGSEONG I-YA:\u{1199}\n\
HANGUL JUNGSEONG I-O:\u{119A}\n\
HANGUL JUNGSEONG I-U:\u{119B}\n\
HANGUL JUNGSEONG I-EU:\u{119C}\n\
HANGUL JUNGSEONG I-ARAEA:\u{119D}\n\
HANGUL JUNGSEONG ARAEA:\u{119E}\n\
HANGUL JUNGSEONG ARAEA-EO:\u{119F}\n\
HANGUL JUNGSEONG ARAEA-U:\u{11A0}\n\
HANGUL JUNGSEONG ARAEA-I:\u{11A1}\n\
HANGUL JUNGSEONG SSANGARAEA:\u{11A2}\n\
HANGUL JUNGSEONG A-EU:\u{11A3}\n\
HANGUL JUNGSEONG YA-U:\u{11A4}\n\
HANGUL JUNGSEONG YEO-YA:\u{11A5}\n\
HANGUL JUNGSEONG O-YA:\u{11A6}\n\
HANGUL JUNGSEONG O-YAE:\u{11A7}\n\
HANGUL JONGSEONG KIYEOK:\u{11A8}\n\
HANGUL JONGSEONG SSANGKIYEOK:\u{11A9}\n\
HANGUL JONGSEONG KIYEOK-SIOS:\u{11AA}\n\
HANGUL JONGSEONG NIEUN:\u{11AB}\n\
HANGUL JONGSEONG NIEUN-CIEUC:\u{11AC}\n\
HANGUL JONGSEONG NIEUN-HIEUH:\u{11AD}\n\
HANGUL JONGSEONG TIKEUT:\u{11AE}\n\
HANGUL JONGSEONG RIEUL:\u{11AF}\n\
HANGUL JONGSEONG RIEUL-KIYEOK:\u{11B0}\n\
HANGUL JONGSEONG RIEUL-MIEUM:\u{11B1}\n\
HANGUL JONGSEONG RIEUL-PIEUP:\u{11B2}\n\
HANGUL JONGSEONG RIEUL-SIOS:\u{11B3}\n\
HANGUL JONGSEONG RIEUL-THIEUTH:\u{11B4}\n\
HANGUL JONGSEONG RIEUL-PHIEUPH:\u{11B5}\n\
HANGUL JONGSEONG RIEUL-HIEUH:\u{11B6}\n\
HANGUL JONGSEONG MIEUM:\u{11B7}\n\
HANGUL JONGSEONG PIEUP:\u{11B8}\n\
HANGUL JONGSEONG PIEUP-SIOS:\u{11B9}\n\
HANGUL JONGSEONG SIOS:\u{11BA}\n\
HANGUL JONGSEONG SSANGSIOS:\u{11BB}\n\
HANGUL JONGSEONG IEUNG:\u{11BC}\n\
HANGUL JONGSEONG CIEUC:\u{11BD}\n\
HANGUL JONGSEONG CHIEUCH:\u{11BE}\n\
HANGUL JONGSEONG KHIEUKH:\u{11BF}\n\
HANGUL JONGSEONG THIEUTH:\u{11C0}\n\
HANGUL JONGSEONG PHIEUPH:\u{11C1}\n\
HANGUL JONGSEONG HIEUH:\u{11C2}\n\
HANGUL JONGSEONG KIYEOK-RIEUL:\u{11C3}\n\
HANGUL JONGSEONG KIYEOK-SIOS-KIYEOK:\u{11C4}\n\
HANGUL JONGSEONG NIEUN-KIYEOK:\u{11C5}\n\
HANGUL JONGSEONG NIEUN-TIKEUT:\u{11C6}\n\
HANGUL JONGSEONG NIEUN-SIOS:\u{11C7}\n\
HANGUL JONGSEONG NIEUN-PANSIOS:\u{11C8}\n\
HANGUL JONGSEONG NIEUN-THIEUTH:\u{11C9}\n\
HANGUL JONGSEONG TIKEUT-KIYEOK:\u{11CA}\n\
HANGUL JONGSEONG TIKEUT-RIEUL:\u{11CB}\n\
HANGUL JONGSEONG RIEUL-KIYEOK-SIOS:\u{11CC}\n\
HANGUL JONGSEONG RIEUL-NIEUN:\u{11CD}\n\
HANGUL JONGSEONG RIEUL-TIKEUT:\u{11CE}\n\
HANGUL JONGSEONG RIEUL-TIKEUT-HIEUH:\u{11CF}\n\
HANGUL JONGSEONG SSANGRIEUL:\u{11D0}\n\
HANGUL JONGSEONG RIEUL-MIEUM-KIYEOK:\u{11D1}\n\
HANGUL JONGSEONG RIEUL-MIEUM-SIOS:\u{11D2}\n\
HANGUL JONGSEONG RIEUL-PIEUP-SIOS:\u{11D3}\n\
HANGUL JONGSEONG RIEUL-PIEUP-HIEUH:\u{11D4}\n\
HANGUL JONGSEONG RIEUL-KAPYEOUNPIEUP:\u{11D5}\n\
HANGUL JONGSEONG RIEUL-SSANGSIOS:\u{11D6}\n\
HANGUL JONGSEONG RIEUL-PANSIOS:\u{11D7}\n\
HANGUL JONGSEONG RIEUL-KHIEUKH:\u{11D8}\n\
HANGUL JONGSEONG RIEUL-YEORINHIEUH:\u{11D9}\n\
HANGUL JONGSEONG MIEUM-KIYEOK:\u{11DA}\n\
HANGUL JONGSEONG MIEUM-RIEUL:\u{11DB}\n\
HANGUL JONGSEONG MIEUM-PIEUP:\u{11DC}\n\
HANGUL JONGSEONG MIEUM-SIOS:\u{11DD}\n\
HANGUL JONGSEONG MIEUM-SSANGSIOS:\u{11DE}\n\
HANGUL JONGSEONG MIEUM-PANSIOS:\u{11DF}\n\
HANGUL JONGSEONG MIEUM-CHIEUCH:\u{11E0}\n\
HANGUL JONGSEONG MIEUM-HIEUH:\u{11E1}\n\
HANGUL JONGSEONG KAPYEOUNMIEUM:\u{11E2}\n\
HANGUL JONGSEONG PIEUP-RIEUL:\u{11E3}\n\
HANGUL JONGSEONG PIEUP-PHIEUPH:\u{11E4}\n\
HANGUL JONGSEONG PIEUP-HIEUH:\u{11E5}\n\
HANGUL JONGSEONG KAPYEOUNPIEUP:\u{11E6}\n\
HANGUL JONGSEONG SIOS-KIYEOK:\u{11E7}\n\
HANGUL JONGSEONG SIOS-TIKEUT:\u{11E8}\n\
HANGUL JONGSEONG SIOS-RIEUL:\u{11E9}\n\
HANGUL JONGSEONG SIOS-PIEUP:\u{11EA}\n\
HANGUL JONGSEONG PANSIOS:\u{11EB}\n\
HANGUL JONGSEONG IEUNG-KIYEOK:\u{11EC}\n\
HANGUL JONGSEONG IEUNG-SSANGKIYEOK:\u{11ED}\n\
HANGUL JONGSEONG SSANGIEUNG:\u{11EE}\n\
HANGUL JONGSEONG IEUNG-KHIEUKH:\u{11EF}\n";

pub const NAMES_10: &'static str = "HANGUL JONGSEONG YESIEUNG:\u{11F0}\n\
HANGUL JONGSEONG YESIEUNG-SIOS:\u{11F1}\n\
HANGUL JONGSEONG YESIEUNG-PANSIOS:\u{11F2}\n\
HANGUL JONGSEONG PHIEUPH-PIEUP:\u{11F3}\n\
HANGUL JONGSEONG KAPYEOUNPHIEUPH:\u{11F4}\n\
HANGUL JONGSEONG HIEUH-NIEUN:\u{11F5}\n\
HANGUL JONGSEONG HIEUH-RIEUL:\u{11F6}\n\
HANGUL JONGSEONG HIEUH-MIEUM:\u{11F7}\n\
HANGUL JONGSEONG HIEUH-PIEUP:\u{11F8}\n\
HANGUL JONGSEONG YEORINHIEUH:\u{11F9}\n\
HANGUL JONGSEONG KIYEOK-NIEUN:\u{11FA}\n\
HANGUL JONGSEONG KIYEOK-PIEUP:\u{11FB}\n\
HANGUL JONGSEONG KIYEOK-CHIEUCH:\u{11FC}\n\
HANGUL JONGSEONG KIYEOK-KHIEUKH:\u{11FD}\n\
HANGUL JONGSEONG KIYEOK-HIEUH:\u{11FE}\n\
HANGUL JONGSEONG SSANGNIEUN:\u{11FF}\n\
ETHIOPIC SYLLABLE HA:\u{1200}\n\
ETHIOPIC SYLLABLE HU:\u{1201}\n\
ETHIOPIC SYLLABLE HI:\u{1202}\n\
ETHIOPIC SYLLABLE HAA:\u{1203}\n\
ETHIOPIC SYLLABLE HEE:\u{1204}\n\
ETHIOPIC SYLLABLE HE:\u{1205}\n\
ETHIOPIC SYLLABLE HO:\u{1206}\n\
ETHIOPIC SYLLABLE HOA:\u{1207}\n\
ETHIOPIC SYLLABLE LA:\u{1208}\n\
ETHIOPIC SYLLABLE LU:\u{1209}\n\
ETHIOPIC SYLLABLE LI:\u{120A}\n\
ETHIOPIC SYLLABLE LAA:\u{120B}\n\
ETHIOPIC SYLLABLE LEE:\u{120C}\n\
ETHIOPIC SYLLABLE LE:\u{120D}\n\
ETHIOPIC SYLLABLE LO:\u{120E}\n\
ETHIOPIC SYLLABLE LWA:\u{120F}\n\
ETHIOPIC SYLLABLE HHA:\u{1210}\n\
ETHIOPIC SYLLABLE HHU:\u{1211}\n\
ETHIOPIC SYLLABLE HHI:\u{1212}\n\
ETHIOPIC SYLLABLE HHAA:\u{1213}\n\
ETHIOPIC SYLLABLE HHEE:\u{1214}\n\
ETHIOPIC SYLLABLE HHE:\u{1215}\n\
ETHIOPIC SYLLABLE HHO:\u{1216}\n\
ETHIOPIC SYLLABLE HHWA:\u{1217}\n\
ETHIOPIC SYLLABLE MA:\u{1218}\n\
ETHIOPIC SYLLABLE MU:\u{1219}\n\
ETHIOPIC SYLLABLE MI:\u{121A}\n\
ETHIOPIC SYLLABLE MAA:\u{121B}\n\
ETHIOPIC SYLLABLE MEE:\u{121C}\n\
ETHIOPIC SYLLABLE ME:\u{121D}\n\
ETHIOPIC SYLLABLE MO:\u{121E}\n\
ETHIOPIC SYLLABLE MWA:\u{121F}\n\
ETHIOPIC SYLLABLE SZA:\u{1220}\n\
ETHIOPIC SYLLABLE SZU:\u{1221}\n\
ETHIOPIC SYLLABLE SZI:\u{1222}\n\
ETHIOPIC SYLLABLE SZAA:\u{1223}\n\
ETHIOPIC SYLLABLE SZEE:\u{1224}\n\
ETHIOPIC SYLLABLE SZE:\u{1225}\n\
ETHIOPIC SYLLABLE SZO:\u{1226}\n\
ETHIOPIC SYLLABLE SZWA:\u{1227}\n\
ETHIOPIC SYLLABLE RA:\u{1228}\n\
ETHIOPIC SYLLABLE RU:\u{1229}\n\
ETHIOPIC SYLLABLE RI:\u{122A}\n\
ETHIOPIC SYLLABLE RAA:\u{122B}\n\
ETHIOPIC SYLLABLE REE:\u{122C}\n\
ETHIOPIC SYLLABLE RE:\u{122D}\n\
ETHIOPIC SYLLABLE RO:\u{122E}\n\
ETHIOPIC SYLLABLE RWA:\u{122F}\n\
ETHIOPIC SYLLABLE SA:\u{1230}\n\
ETHIOPIC SYLLABLE SU:\u{1231}\n\
ETHIOPIC SYLLABLE SI:\u{1232}\n\
ETHIOPIC SYLLABLE SAA:\u{1233}\n\
ETHIOPIC SYLLABLE SEE:\u{1234}\n\
ETHIOPIC SYLLABLE SE:\u{1235}\n\
ETHIOPIC SYLLABLE SO:\u{1236}\n\
ETHIOPIC SYLLABLE SWA:\u{1237}\n\
ETHIOPIC SYLLABLE SHA:\u{1238}\n\
ETHIOPIC SYLLABLE SHU:\u{1239}\n\
ETHIOPIC SYLLABLE SHI:\u{123A}\n\
ETHIOPIC SYLLABLE SHAA:\u{123B}\n\
ETHIOPIC SYLLABLE SHEE:\u{123C}\n\
ETHIOPIC SYLLABLE SHE:\u{123D}\n\
ETHIOPIC SYLLABLE SHO:\u{123E}\n\
ETHIOPIC SYLLABLE SHWA:\u{123F}\n\
ETHIOPIC SYLLABLE QA:\u{1240}\n\
ETHIOPIC SYLLABLE QU:\u{1241}\n\
ETHIOPIC SYLLABLE QI:\u{1242}\n\
ETHIOPIC SYLLABLE QAA:\u{1243}\n\
ETHIOPIC SYLLABLE QEE:\u{1244}\n\
ETHIOPIC SYLLABLE QE:\u{1245}\n\
ETHIOPIC SYLLABLE QO:\u{1246}\n\
ETHIOPIC SYLLABLE QOA:\u{1247}\n\
ETHIOPIC SYLLABLE QWA:\u{1248}\n\
ETHIOPIC SYLLABLE QWI:\u{124A}\n\
ETHIOPIC SYLLABLE QWAA:\u{124B}\n\
ETHIOPIC SYLLABLE QWEE:\u{124C}\n\
ETHIOPIC SYLLABLE QWE:\u{124D}\n\
ETHIOPIC SYLLABLE QHA:\u{1250}\n\
ETHIOPIC SYLLABLE QHU:\u{1251}\n\
ETHIOPIC SYLLABLE QHI:\u{1252}\n\
ETHIOPIC SYLLABLE QHAA:\u{1253}\n\
ETHIOPIC SYLLABLE QHEE:\u{1254}\n\
ETHIOPIC SYLLABLE QHE:\u{1255}\n\
ETHIOPIC SYLLABLE QHO:\u{1256}\n\
ETHIOPIC SYLLABLE QHWA:\u{1258}\n\
ETHIOPIC SYLLABLE QHWI:\u{125A}\n\
ETHIOPIC SYLLABLE QHWAA:\u{125B}\n\
ETHIOPIC SYLLABLE QHWEE:\u{125C}\n\
ETHIOPIC SYLLABLE QHWE:\u{125D}\n\
ETHIOPIC SYLLABLE BA:\u{1260}\n\
ETHIOPIC SYLLABLE BU:\u{1261}\n\
ETHIOPIC SYLLABLE BI:\u{1262}\n\
ETHIOPIC SYLLABLE BAA:\u{1263}\n\
ETHIOPIC SYLLABLE BEE:\u{1264}\n\
ETHIOPIC SYLLABLE BE:\u{1265}\n\
ETHIOPIC SYLLABLE BO:\u{1266}\n\
ETHIOPIC SYLLABLE BWA:\u{1267}\n\
ETHIOPIC SYLLABLE VA:\u{1268}\n\
ETHIOPIC SYLLABLE VU:\u{1269}\n\
ETHIOPIC SYLLABLE VI:\u{126A}\n\
ETHIOPIC SYLLABLE VAA:\u{126B}\n\
ETHIOPIC SYLLABLE VEE:\u{126C}\n\
ETHIOPIC SYLLABLE VE:\u{126D}\n\
ETHIOPIC SYLLABLE VO:\u{126E}\n\
ETHIOPIC SYLLABLE VWA:\u{126F}\n\
ETHIOPIC SYLLABLE TA:\u{1270}\n\
ETHIOPIC SYLLABLE TU:\u{1271}\n\
ETHIOPIC SYLLABLE TI:\u{1272}\n\
ETHIOPIC SYLLABLE TAA:\u{1273}\n\
ETHIOPIC SYLLABLE TEE:\u{1274}\n\
ETHIOPIC SYLLABLE TE:\u{1275}\n\
ETHIOPIC SYLLABLE TO:\u{1276}\n\
ETHIOPIC SYLLABLE TWA:\u{1277}\n\
ETHIOPIC SYLLABLE CA:\u{1278}\n\
ETHIOPIC SYLLABLE CU:\u{1279}\n\
ETHIOPIC SYLLABLE CI:\u{127A}\n\
ETHIOPIC SYLLABLE CAA:\u{127B}\n\
ETHIOPIC SYLLABLE CEE:\u{127C}\n\
ETHIOPIC SYLLABLE CE:\u{127D}\n\
ETHIOPIC SYLLABLE CO:\u{127E}\n\
ETHIOPIC SYLLABLE CWA:\u{127F}\n\
ETHIOPIC SYLLABLE XA:\u{1280}\n\
ETHIOPIC SYLLABLE XU:\u{1281}\n\
ETHIOPIC SYLLABLE XI:\u{1282}\n\
ETHIOPIC SYLLABLE XAA:\u{1283}\n\
ETHIOPIC SYLLABLE XEE:\u{1284}\n\
ETHIOPIC SYLLABLE XE:\u{1285}\n\
ETHIOPIC SYLLABLE XO:\u{1286}\n\
ETHIOPIC SYLLABLE XOA:\u{1287}\n\
ETHIOPIC SYLLABLE XWA:\u{1288}\n\
ETHIOPIC SYLLABLE XWI:\u{128A}\n\
ETHIOPIC SYLLABLE XWAA:\u{128B}\n\
ETHIOPIC SYLLABLE XWEE:\u{128C}\n\
ETHIOPIC SYLLABLE XWE:\u{128D}\n\
ETHIOPIC SYLLABLE NA:\u{1290}\n\
ETHIOPIC SYLLABLE NU:\u{1291}\n\
ETHIOPIC SYLLABLE NI:\u{1292}\n\
ETHIOPIC SYLLABLE NAA:\u{1293}\n\
ETHIOPIC SYLLABLE NEE:\u{1294}\n\
ETHIOPIC SYLLABLE NE:\u{1295}\n\
ETHIOPIC SYLLABLE NO:\u{1296}\n\
ETHIOPIC SYLLABLE NWA:\u{1297}\n\
ETHIOPIC SYLLABLE NYA:\u{1298}\n\
ETHIOPIC SYLLABLE NYU:\u{1299}\n\
ETHIOPIC SYLLABLE NYI:\u{129A}\n\
ETHIOPIC SYLLABLE NYAA:\u{129B}\n\
ETHIOPIC SYLLABLE NYEE:\u{129C}\n\
ETHIOPIC SYLLABLE NYE:\u{129D}\n\
ETHIOPIC SYLLABLE NYO:\u{129E}\n\
ETHIOPIC SYLLABLE NYWA:\u{129F}\n\
ETHIOPIC SYLLABLE GLOTTAL A:\u{12A0}\n\
ETHIOPIC SYLLABLE GLOTTAL U:\u{12A1}\n\
ETHIOPIC SYLLABLE GLOTTAL I:\u{12A2}\n\
ETHIOPIC SYLLABLE GLOTTAL AA:\u{12A3}\n\
ETHIOPIC SYLLABLE GLOTTAL EE:\u{12A4}\n\
ETHIOPIC SYLLABLE GLOTTAL E:\u{12A5}\n\
ETHIOPIC SYLLABLE GLOTTAL O:\u{12A6}\n\
ETHIOPIC SYLLABLE GLOTTAL WA:\u{12A7}\n\
ETHIOPIC SYLLABLE KA:\u{12A8}\n\
ETHIOPIC SYLLABLE KU:\u{12A9}\n\
ETHIOPIC SYLLABLE KI:\u{12AA}\n\
ETHIOPIC SYLLABLE KAA:\u{12AB}\n\
ETHIOPIC SYLLABLE KEE:\u{12AC}\n\
ETHIOPIC SYLLABLE KE:\u{12AD}\n\
ETHIOPIC SYLLABLE KO:\u{12AE}\n\
ETHIOPIC SYLLABLE KOA:\u{12AF}\n\
ETHIOPIC SYLLABLE KWA:\u{12B0}\n\
ETHIOPIC SYLLABLE KWI:\u{12B2}\n\
ETHIOPIC SYLLABLE KWAA:\u{12B3}\n\
ETHIOPIC SYLLABLE KWEE:\u{12B4}\n\
ETHIOPIC SYLLABLE KWE:\u{12B5}\n\
ETHIOPIC SYLLABLE KXA:\u{12B8}\n\
ETHIOPIC SYLLABLE KXU:\u{12B9}\n\
ETHIOPIC SYLLABLE KXI:\u{12BA}\n\
ETHIOPIC SYLLABLE KXAA:\u{12BB}\n\
ETHIOPIC SYLLABLE KXEE:\u{12BC}\n\
ETHIOPIC SYLLABLE KXE:\u{12BD}\n\
ETHIOPIC SYLLABLE KXO:\u{12BE}\n\
ETHIOPIC SYLLABLE KXWA:\u{12C0}\n\
ETHIOPIC SYLLABLE KXWI:\u{12C2}\n\
ETHIOPIC SYLLABLE KXWAA:\u{12C3}\n\
ETHIOPIC SYLLABLE KXWEE:\u{12C4}\n\
ETHIOPIC SYLLABLE KXWE:\u{12C5}\n\
ETHIOPIC SYLLABLE WA:\u{12C8}\n\
ETHIOPIC SYLLABLE WU:\u{12C9}\n\
ETHIOPIC SYLLABLE WI:\u{12CA}\n\
ETHIOPIC SYLLABLE WAA:\u{12CB}\n\
ETHIOPIC SYLLABLE WEE:\u{12CC}\n\
ETHIOPIC SYLLABLE WE:\u{12CD}\n\
ETHIOPIC SYLLABLE WO:\u{12CE}\n\
ETHIOPIC SYLLABLE WOA:\u{12CF}\n\
ETHIOPIC SYLLABLE PHARYNGEAL A:\u{12D0}\n\
ETHIOPIC SYLLABLE PHARYNGEAL U:\u{12D1}\n\
ETHIOPIC SYLLABLE PHARYNGEAL I:\u{12D2}\n\
ETHIOPIC SYLLABLE PHARYNGEAL AA:\u{12D3}\n\
ETHIOPIC SYLLABLE PHARYNGEAL EE:\u{12D4}\n\
ETHIOPIC SYLLABLE PHARYNGEAL E:\u{12D5}\n\
ETHIOPIC SYLLABLE PHARYNGEAL O:\u{12D6}\n\
ETHIOPIC SYLLABLE ZA:\u{12D8}\n\
ETHIOPIC SYLLABLE ZU:\u{12D9}\n\
ETHIOPIC SYLLABLE ZI:\u{12DA}\n\
ETHIOPIC SYLLABLE ZAA:\u{12DB}\n\
ETHIOPIC SYLLABLE ZEE:\u{12DC}\n\
ETHIOPIC SYLLABLE ZE:\u{12DD}\n\
ETHIOPIC SYLLABLE ZO:\u{12DE}\n\
ETHIOPIC SYLLABLE ZWA:\u{12DF}\n\
ETHIOPIC SYLLABLE ZHA:\u{12E0}\n\
ETHIOPIC SYLLABLE ZHU:\u{12E1}\n\
ETHIOPIC SYLLABLE ZHI:\u{12E2}\n\
ETHIOPIC SYLLABLE ZHAA:\u{12E3}\n\
ETHIOPIC SYLLABLE ZHEE:\u{12E4}\n\
ETHIOPIC SYLLABLE ZHE:\u{12E5}\n\
ETHIOPIC SYLLABLE ZHO:\u{12E6}\n\
ETHIOPIC SYLLABLE ZHWA:\u{12E7}\n\
ETHIOPIC SYLLABLE YA:\u{12E8}\n\
ETHIOPIC SYLLABLE YU:\u{12E9}\n\
ETHIOPIC SYLLABLE YI:\u{12EA}\n\
ETHIOPIC SYLLABLE YAA:\u{12EB}\n\
ETHIOPIC SYLLABLE YEE:\u{12EC}\n\
ETHIOPIC SYLLABLE YE:\u{12ED}\n\
ETHIOPIC SYLLABLE YO:\u{12EE}\n\
ETHIOPIC SYLLABLE YOA:\u{12EF}\n\
ETHIOPIC SYLLABLE DA:\u{12F0}\n\
ETHIOPIC SYLLABLE DU:\u{12F1}\n\
ETHIOPIC SYLLABLE DI:\u{12F2}\n\
ETHIOPIC SYLLABLE DAA:\u{12F3}\n\
ETHIOPIC SYLLABLE DEE:\u{12F4}\n\
ETHIOPIC SYLLABLE DE:\u{12F5}\n\
ETHIOPIC SYLLABLE DO:\u{12F6}\n\
ETHIOPIC SYLLABLE DWA:\u{12F7}\n\
ETHIOPIC SYLLABLE DDA:\u{12F8}\n\
ETHIOPIC SYLLABLE DDU:\u{12F9}\n\
ETHIOPIC SYLLABLE DDI:\u{12FA}\n\
ETHIOPIC SYLLABLE DDAA:\u{12FB}\n\
ETHIOPIC SYLLABLE DDEE:\u{12FC}\n\
ETHIOPIC SYLLABLE DDE:\u{12FD}\n\
ETHIOPIC SYLLABLE DDO:\u{12FE}\n\
ETHIOPIC SYLLABLE DDWA:\u{12FF}\n\
ETHIOPIC SYLLABLE JA:\u{1300}\n\
ETHIOPIC SYLLABLE JU:\u{1301}\n\
ETHIOPIC SYLLABLE JI:\u{1302}\n\
ETHIOPIC SYLLABLE JAA:\u{1303}\n\
ETHIOPIC SYLLABLE JEE:\u{1304}\n\
ETHIOPIC SYLLABLE JE:\u{1305}\n\
ETHIOPIC SYLLABLE JO:\u{1306}\n\
ETHIOPIC SYLLABLE JWA:\u{1307}\n\
ETHIOPIC SYLLABLE GA:\u{1308}\n\
ETHIOPIC SYLLABLE GU:\u{1309}\n\
ETHIOPIC SYLLABLE GI:\u{130A}\n\
ETHIOPIC SYLLABLE GAA:\u{130B}\n\
ETHIOPIC SYLLABLE GEE:\u{130C}\n\
ETHIOPIC SYLLABLE GE:\u{130D}\n\
ETHIOPIC SYLLABLE GO:\u{130E}\n\
ETHIOPIC SYLLABLE GOA:\u{130F}\n\
ETHIOPIC SYLLABLE GWA:\u{1310}\n\
ETHIOPIC SYLLABLE GWI:\u{1312}\n\
ETHIOPIC SYLLABLE GWAA:\u{1313}\n\
ETHIOPIC SYLLABLE GWEE:\u{1314}\n\
ETHIOPIC SYLLABLE GWE:\u{1315}\n\
ETHIOPIC SYLLABLE GGA:\u{1318}\n\
ETHIOPIC SYLLABLE GGU:\u{1319}\n\
ETHIOPIC SYLLABLE GGI:\u{131A}\n\
ETHIOPIC SYLLABLE GGAA:\u{131B}\n\
ETHIOPIC SYLLABLE GGEE:\u{131C}\n\
ETHIOPIC SYLLABLE GGE:\u{131D}\n\
ETHIOPIC SYLLABLE GGO:\u{131E}\n\
ETHIOPIC SYLLABLE GGWAA:\u{131F}\n\
ETHIOPIC SYLLABLE THA:\u{1320}\n\
ETHIOPIC SYLLABLE THU:\u{1321}\n\
ETHIOPIC SYLLABLE THI:\u{1322}\n\
ETHIOPIC SYLLABLE THAA:\u{1323}\n\
ETHIOPIC SYLLABLE THEE:\u{1324}\n\
ETHIOPIC SYLLABLE THE:\u{1325}\n\
ETHIOPIC SYLLABLE THO:\u{1326}\n\
ETHIOPIC SYLLABLE THWA:\u{1327}\n\
ETHIOPIC SYLLABLE CHA:\u{1328}\n\
ETHIOPIC SYLLABLE CHU:\u{1329}\n\
ETHIOPIC SYLLABLE CHI:\u{132A}\n\
ETHIOPIC SYLLABLE CHAA:\u{132B}\n\
ETHIOPIC SYLLABLE CHEE:\u{132C}\n\
ETHIOPIC SYLLABLE CHE:\u{132D}\n\
ETHIOPIC SYLLABLE CHO:\u{132E}\n\
ETHIOPIC SYLLABLE CHWA:\u{132F}\n\
ETHIOPIC SYLLABLE PHA:\u{1330}\n\
ETHIOPIC SYLLABLE PHU:\u{1331}\n\
ETHIOPIC SYLLABLE PHI:\u{1332}\n\
ETHIOPIC SYLLABLE PHAA:\u{1333}\n\
ETHIOPIC SYLLABLE PHEE:\u{1334}\n\
ETHIOPIC SYLLABLE PHE:\u{1335}\n\
ETHIOPIC SYLLABLE PHO:\u{1336}\n\
ETHIOPIC SYLLABLE PHWA:\u{1337}\n\
ETHIOPIC SYLLABLE TSA:\u{1338}\n\
ETHIOPIC SYLLABLE TSU:\u{1339}\n\
ETHIOPIC SYLLABLE TSI:\u{133A}\n\
ETHIOPIC SYLLABLE TSAA:\u{133B}\n\
ETHIOPIC SYLLABLE TSEE:\u{133C}\n\
ETHIOPIC SYLLABLE TSE:\u{133D}\n\
ETHIOPIC SYLLABLE TSO:\u{133E}\n\
ETHIOPIC SYLLABLE TSWA:\u{133F}\n\
ETHIOPIC SYLLABLE TZA:\u{1340}\n\
ETHIOPIC SYLLABLE TZU:\u{1341}\n\
ETHIOPIC SYLLABLE TZI:\u{1342}\n\
ETHIOPIC SYLLABLE TZAA:\u{1343}\n\
ETHIOPIC SYLLABLE TZEE:\u{1344}\n\
ETHIOPIC SYLLABLE TZE:\u{1345}\n\
ETHIOPIC SYLLABLE TZO:\u{1346}\n\
ETHIOPIC SYLLABLE TZOA:\u{1347}\n\
ETHIOPIC SYLLABLE FA:\u{1348}\n\
ETHIOPIC SYLLABLE FU:\u{1349}\n\
ETHIOPIC SYLLABLE FI:\u{134A}\n\
ETHIOPIC SYLLABLE FAA:\u{134B}\n\
ETHIOPIC SYLLABLE FEE:\u{134C}\n\
ETHIOPIC SYLLABLE FE:\u{134D}\n\
ETHIOPIC SYLLABLE FO:\u{134E}\n\
ETHIOPIC SYLLABLE FWA:\u{134F}\n\
ETHIOPIC SYLLABLE PA:\u{1350}\n\
ETHIOPIC SYLLABLE PU:\u{1351}\n\
ETHIOPIC SYLLABLE PI:\u{1352}\n\
ETHIOPIC SYLLABLE PAA:\u{1353}\n\
ETHIOPIC SYLLABLE PEE:\u{1354}\n\
ETHIOPIC SYLLABLE PE:\u{1355}\n\
ETHIOPIC SYLLABLE PO:\u{1356}\n\
ETHIOPIC SYLLABLE PWA:\u{1357}\n\
ETHIOPIC SYLLABLE RYA:\u{1358}\n\
ETHIOPIC SYLLABLE MYA:\u{1359}\n\
ETHIOPIC SYLLABLE FYA:\u{135A}\n\
ETHIOPIC COMBINING GEMINATION AND VOWEL LENGTH MARK:\u{135D}\n\
ETHIOPIC COMBINING VOWEL LENGTH MARK:\u{135E}\n\
ETHIOPIC COMBINING GEMINATION MARK:\u{135F}\n\
ETHIOPIC SECTION MARK:\u{1360}\n\
ETHIOPIC WORDSPACE:\u{1361}\n\
ETHIOPIC FULL STOP:\u{1362}\n\
ETHIOPIC COMMA:\u{1363}\n\
ETHIOPIC SEMICOLON:\u{1364}\n\
ETHIOPIC COLON:\u{1365}\n\
ETHIOPIC PREFACE COLON:\u{1366}\n\
ETHIOPIC QUESTION MARK:\u{1367}\n\
ETHIOPIC PARAGRAPH SEPARATOR:\u{1368}\n\
ETHIOPIC DIGIT ONE:\u{1369}\n\
ETHIOPIC DIGIT TWO:\u{136A}\n\
ETHIOPIC DIGIT THREE:\u{136B}\n\
ETHIOPIC DIGIT FOUR:\u{136C}\n\
ETHIOPIC DIGIT FIVE:\u{136D}\n\
ETHIOPIC DIGIT SIX:\u{136E}\n\
ETHIOPIC DIGIT SEVEN:\u{136F}\n\
ETHIOPIC DIGIT EIGHT:\u{1370}\n\
ETHIOPIC DIGIT NINE:\u{1371}\n\
ETHIOPIC NUMBER TEN:\u{1372}\n\
ETHIOPIC NUMBER TWENTY:\u{1373}\n\
ETHIOPIC NUMBER THIRTY:\u{1374}\n\
ETHIOPIC NUMBER FORTY:\u{1375}\n\
ETHIOPIC NUMBER FIFTY:\u{1376}\n\
ETHIOPIC NUMBER SIXTY:\u{1377}\n\
ETHIOPIC NUMBER SEVENTY:\u{1378}\n\
ETHIOPIC NUMBER EIGHTY:\u{1379}\n\
ETHIOPIC NUMBER NINETY:\u{137A}\n\
ETHIOPIC NUMBER HUNDRED:\u{137B}\n\
ETHIOPIC NUMBER TEN THOUSAND:\u{137C}\n\
ETHIOPIC SYLLABLE SEBATBEIT MWA:\u{1380}\n\
ETHIOPIC SYLLABLE MWI:\u{1381}\n\
ETHIOPIC SYLLABLE MWEE:\u{1382}\n\
ETHIOPIC SYLLABLE MWE:\u{1383}\n\
ETHIOPIC SYLLABLE SEBATBEIT BWA:\u{1384}\n\
ETHIOPIC SYLLABLE BWI:\u{1385}\n\
ETHIOPIC SYLLABLE BWEE:\u{1386}\n\
ETHIOPIC SYLLABLE BWE:\u{1387}\n\
ETHIOPIC SYLLABLE SEBATBEIT FWA:\u{1388}\n\
ETHIOPIC SYLLABLE FWI:\u{1389}\n\
ETHIOPIC SYLLABLE FWEE:\u{138A}\n\
ETHIOPIC SYLLABLE FWE:\u{138B}\n\
ETHIOPIC SYLLABLE SEBATBEIT PWA:\u{138C}\n\
ETHIOPIC SYLLABLE PWI:\u{138D}\n\
ETHIOPIC SYLLABLE PWEE:\u{138E}\n\
ETHIOPIC SYLLABLE PWE:\u{138F}\n\
ETHIOPIC TONAL MARK YIZET:\u{1390}\n\
ETHIOPIC TONAL MARK DERET:\u{1391}\n\
ETHIOPIC TONAL MARK RIKRIK:\u{1392}\n\
ETHIOPIC TONAL MARK SHORT RIKRIK:\u{1393}\n\
ETHIOPIC TONAL MARK DIFAT:\u{1394}\n\
ETHIOPIC TONAL MARK KENAT:\u{1395}\n\
ETHIOPIC TONAL MARK CHIRET:\u{1396}\n\
ETHIOPIC TONAL MARK HIDET:\u{1397}\n\
ETHIOPIC TONAL MARK DERET-HIDET:\u{1398}\n\
ETHIOPIC TONAL MARK KURT:\u{1399}\n\
CHEROKEE LETTER A:\u{13A0}\n\
CHEROKEE LETTER E:\u{13A1}\n\
CHEROKEE LETTER I:\u{13A2}\n\
CHEROKEE LETTER O:\u{13A3}\n\
CHEROKEE LETTER U:\u{13A4}\n\
CHEROKEE LETTER V:\u{13A5}\n\
CHEROKEE LETTER GA:\u{13A6}\n\
CHEROKEE LETTER KA:\u{13A7}\n\
CHEROKEE LETTER GE:\u{13A8}\n\
CHEROKEE LETTER GI:\u{13A9}\n\
CHEROKEE LETTER GO:\u{13AA}\n\
CHEROKEE LETTER GU:\u{13AB}\n\
CHEROKEE LETTER GV:\u{13AC}\n\
CHEROKEE LETTER HA:\u{13AD}\n\
CHEROKEE LETTER HE:\u{13AE}\n\
CHEROKEE LETTER HI:\u{13AF}\n\
CHEROKEE LETTER HO:\u{13B0}\n\
CHEROKEE LETTER HU:\u{13B1}\n\
CHEROKEE LETTER HV:\u{13B2}\n\
CHEROKEE LETTER LA:\u{13B3}\n\
CHEROKEE LETTER LE:\u{13B4}\n\
CHEROKEE LETTER LI:\u{13B5}\n\
CHEROKEE LETTER LO:\u{13B6}\n\
CHEROKEE LETTER LU:\u{13B7}\n\
CHEROKEE LETTER LV:\u{13B8}\n\
CHEROKEE LETTER MA:\u{13B9}\n\
CHEROKEE LETTER ME:\u{13BA}\n\
CHEROKEE LETTER MI:\u{13BB}\n\
CHEROKEE LETTER MO:\u{13BC}\n\
CHEROKEE LETTER MU:\u{13BD}\n\
CHEROKEE LETTER NA:\u{13BE}\n\
CHEROKEE LETTER HNA:\u{13BF}\n\
CHEROKEE LETTER NAH:\u{13C0}\n\
CHEROKEE LETTER NE:\u{13C1}\n";

pub const NAMES_11: &'static str = "CHEROKEE LETTER NI:\u{13C2}\n\
CHEROKEE LETTER NO:\u{13C3}\n\
CHEROKEE LETTER NU:\u{13C4}\n\
CHEROKEE LETTER NV:\u{13C5}\n\
CHEROKEE LETTER QUA:\u{13C6}\n\
CHEROKEE LETTER QUE:\u{13C7}\n\
CHEROKEE LETTER QUI:\u{13C8}\n\
CHEROKEE LETTER QUO:\u{13C9}\n\
CHEROKEE LETTER QUU:\u{13CA}\n\
CHEROKEE LETTER QUV:\u{13CB}\n\
CHEROKEE LETTER SA:\u{13CC}\n\
CHEROKEE LETTER S:\u{13CD}\n\
CHEROKEE LETTER SE:\u{13CE}\n\
CHEROKEE LETTER SI:\u{13CF}\n\
CHEROKEE LETTER SO:\u{13D0}\n\
CHEROKEE LETTER SU:\u{13D1}\n\
CHEROKEE LETTER SV:\u{13D2}\n\
CHEROKEE LETTER DA:\u{13D3}\n\
CHEROKEE LETTER TA:\u{13D4}\n\
CHEROKEE LETTER DE:\u{13D5}\n\
CHEROKEE LETTER TE:\u{13D6}\n\
CHEROKEE LETTER DI:\u{13D7}\n\
CHEROKEE LETTER TI:\u{13D8}\n\
CHEROKEE LETTER DO:\u{13D9}\n\
CHEROKEE LETTER DU:\u{13DA}\n\
CHEROKEE LETTER DV:\u{13DB}\n\
CHEROKEE LETTER DLA:\u{13DC}\n\
CHEROKEE LETTER TLA:\u{13DD}\n\
CHEROKEE LETTER TLE:\u{13DE}\n\
CHEROKEE LETTER TLI:\u{13DF}\n\
CHEROKEE LETTER TLO:\u{13E0}\n\
CHEROKEE LETTER TLU:\u{13E1}\n\
CHEROKEE LETTER TLV:\u{13E2}\n\
CHEROKEE LETTER TSA:\u{13E3}\n\
CHEROKEE LETTER TSE:\u{13E4}\n\
CHEROKEE LETTER TSI:\u{13E5}\n\
CHEROKEE LETTER TSO:\u{13E6}\n\
CHEROKEE LETTER TSU:\u{13E7}\n\
CHEROKEE LETTER TSV:\u{13E8}\n\
CHEROKEE LETTER WA:\u{13E9}\n\
CHEROKEE LETTER WE:\u{13EA}\n\
CHEROKEE LETTER WI:\u{13EB}\n\
CHEROKEE LETTER WO:\u{13EC}\n\
CHEROKEE LETTER WU:\u{13ED}\n\
CHEROKEE LETTER WV:\u{13EE}\n\
CHEROKEE LETTER YA:\u{13EF}\n\
CHEROKEE LETTER YE:\u{13F0}\n\
CHEROKEE LETTER YI:\u{13F1}\n\
CHEROKEE LETTER YO:\u{13F2}\n\
CHEROKEE LETTER YU:\u{13F3}\n\
CHEROKEE LETTER YV:\u{13F4}\n\
CHEROKEE LETTER MV:\u{13F5}\n\
CHEROKEE SMALL LETTER YE:\u{13F8}\n\
CHEROKEE SMALL LETTER YI:\u{13F9}\n\
CHEROKEE SMALL LETTER YO:\u{13FA}\n\
CHEROKEE SMALL LETTER YU:\u{13FB}\n\
CHEROKEE SMALL LETTER YV:\u{13FC}\n\
CHEROKEE SMALL LETTER MV:\u{13FD}\n\
CANADIAN SYLLABICS HYPHEN:\u{1400}\n\
CANADIAN SYLLABICS E:\u{1401}\n\
CANADIAN SYLLABICS AAI:\u{1402}\n\
CANADIAN SYLLABICS I:\u{1403}\n\
CANADIAN SYLLABICS II:\u{1404}\n\
CANADIAN SYLLABICS O:\u{1405}\n\
CANADIAN SYLLABICS OO:\u{1406}\n\
CANADIAN SYLLABICS Y-CREE OO:\u{1407}\n\
CANADIAN SYLLABICS CARRIER EE:\u{1408}\n\
CANADIAN SYLLABICS CARRIER I:\u{1409}\n\
CANADIAN SYLLABICS A:\u{140A}\n\
CANADIAN SYLLABICS AA:\u{140B}\n\
CANADIAN SYLLABICS WE:\u{140C}\n\
CANADIAN SYLLABICS WEST-CREE WE:\u{140D}\n\
CANADIAN SYLLABICS WI:\u{140E}\n\
CANADIAN SYLLABICS WEST-CREE WI:\u{140F}\n\
CANADIAN SYLLABICS WII:\u{1410}\n\
CANADIAN SYLLABICS WEST-CREE WII:\u{1411}\n\
CANADIAN SYLLABICS WO:\u{1412}\n\
CANADIAN SYLLABICS WEST-CREE WO:\u{1413}\n\
CANADIAN SYLLABICS WOO:\u{1414}\n\
CANADIAN SYLLABICS WEST-CREE WOO:\u{1415}\n\
CANADIAN SYLLABICS NASKAPI WOO:\u{1416}\n\
CANADIAN SYLLABICS WA:\u{1417}\n\
CANADIAN SYLLABICS WEST-CREE WA:\u{1418}\n\
CANADIAN SYLLABICS WAA:\u{1419}\n\
CANADIAN SYLLABICS WEST-CREE WAA:\u{141A}\n\
CANADIAN SYLLABICS NASKAPI WAA:\u{141B}\n\
CANADIAN SYLLABICS AI:\u{141C}\n\
CANADIAN SYLLABICS Y-CREE W:\u{141D}\n\
CANADIAN SYLLABICS GLOTTAL STOP:\u{141E}\n\
CANADIAN SYLLABICS FINAL ACUTE:\u{141F}\n\
CANADIAN SYLLABICS FINAL GRAVE:\u{1420}\n\
CANADIAN SYLLABICS FINAL BOTTOM HALF RING:\u{1421}\n\
CANADIAN SYLLABICS FINAL TOP HALF RING:\u{1422}\n\
CANADIAN SYLLABICS FINAL RIGHT HALF RING:\u{1423}\n\
CANADIAN SYLLABICS FINAL RING:\u{1424}\n\
CANADIAN SYLLABICS FINAL DOUBLE ACUTE:\u{1425}\n\
CANADIAN SYLLABICS FINAL DOUBLE SHORT VERTICAL STROKES:\u{1426}\n\
CANADIAN SYLLABICS FINAL MIDDLE DOT:\u{1427}\n\
CANADIAN SYLLABICS FINAL SHORT HORIZONTAL STROKE:\u{1428}\n\
CANADIAN SYLLABICS FINAL PLUS:\u{1429}\n\
CANADIAN SYLLABICS FINAL DOWN TACK:\u{142A}\n\
CANADIAN SYLLABICS EN:\u{142B}\n\
CANADIAN SYLLABICS IN:\u{142C}\n\
CANADIAN SYLLABICS ON:\u{142D}\n\
CANADIAN SYLLABICS AN:\u{142E}\n\
CANADIAN SYLLABICS PE:\u{142F}\n\
CANADIAN SYLLABICS PAAI:\u{1430}\n\
CANADIAN SYLLABICS PI:\u{1431}\n\
CANADIAN SYLLABICS PII:\u{1432}\n\
CANADIAN SYLLABICS PO:\u{1433}\n\
CANADIAN SYLLABICS POO:\u{1434}\n\
CANADIAN SYLLABICS Y-CREE POO:\u{1435}\n\
CANADIAN SYLLABICS CARRIER HEE:\u{1436}\n\
CANADIAN SYLLABICS CARRIER HI:\u{1437}\n\
CANADIAN SYLLABICS PA:\u{1438}\n\
CANADIAN SYLLABICS PAA:\u{1439}\n\
CANADIAN SYLLABICS PWE:\u{143A}\n\
CANADIAN SYLLABICS WEST-CREE PWE:\u{143B}\n\
CANADIAN SYLLABICS PWI:\u{143C}\n\
CANADIAN SYLLABICS WEST-CREE PWI:\u{143D}\n\
CANADIAN SYLLABICS PWII:\u{143E}\n\
CANADIAN SYLLABICS WEST-CREE PWII:\u{143F}\n\
CANADIAN SYLLABICS PWO:\u{1440}\n\
CANADIAN SYLLABICS WEST-CREE PWO:\u{1441}\n\
CANADIAN SYLLABICS PWOO:\u{1442}\n\
CANADIAN SYLLABICS WEST-CREE PWOO:\u{1443}\n\
CANADIAN SYLLABICS PWA:\u{1444}\n\
CANADIAN SYLLABICS WEST-CREE PWA:\u{1445}\n\
CANADIAN SYLLABICS PWAA:\u{1446}\n\
CANADIAN SYLLABICS WEST-CREE PWAA:\u{1447}\n\
CANADIAN SYLLABICS Y-CREE PWAA:\u{1448}\n\
CANADIAN SYLLABICS P:\u{1449}\n\
CANADIAN SYLLABICS WEST-CREE P:\u{144A}\n\
CANADIAN SYLLABICS CARRIER H:\u{144B}\n\
CANADIAN SYLLABICS TE:\u{144C}\n\
CANADIAN SYLLABICS TAAI:\u{144D}\n\
CANADIAN SYLLABICS TI:\u{144E}\n\
CANADIAN SYLLABICS TII:\u{144F}\n\
CANADIAN SYLLABICS TO:\u{1450}\n\
CANADIAN SYLLABICS TOO:\u{1451}\n\
CANADIAN SYLLABICS Y-CREE TOO:\u{1452}\n\
CANADIAN SYLLABICS CARRIER DEE:\u{1453}\n\
CANADIAN SYLLABICS CARRIER DI:\u{1454}\n\
CANADIAN SYLLABICS TA:\u{1455}\n\
CANADIAN SYLLABICS TAA:\u{1456}\n\
CANADIAN SYLLABICS TWE:\u{1457}\n\
CANADIAN SYLLABICS WEST-CREE TWE:\u{1458}\n\
CANADIAN SYLLABICS TWI:\u{1459}\n\
CANADIAN SYLLABICS WEST-CREE TWI:\u{145A}\n\
CANADIAN SYLLABICS TWII:\u{145B}\n\
CANADIAN SYLLABICS WEST-CREE TWII:\u{145C}\n\
CANADIAN SYLLABICS TWO:\u{145D}\n\
CANADIAN SYLLABICS WEST-CREE TWO:\u{145E}\n\
CANADIAN SYLLABICS TWOO:\u{145F}\n\
CANADIAN SYLLABICS WEST-CREE TWOO:\u{1460}\n\
CANADIAN SYLLABICS TWA:\u{1461}\n\
CANADIAN SYLLABICS WEST-CREE TWA:\u{1462}\n\
CANADIAN SYLLABICS TWAA:\u{1463}\n\
CANADIAN SYLLABICS WEST-CREE TWAA:\u{1464}\n\
CANADIAN SYLLABICS NASKAPI TWAA:\u{1465}\n\
CANADIAN SYLLABICS T:\u{1466}\n\
CANADIAN SYLLABICS TTE:\u{1467}\n\
CANADIAN SYLLABICS TTI:\u{1468}\n\
CANADIAN SYLLABICS TTO:\u{1469}\n\
CANADIAN SYLLABICS TTA:\u{146A}\n\
CANADIAN SYLLABICS KE:\u{146B}\n\
CANADIAN SYLLABICS KAAI:\u{146C}\n\
CANADIAN SYLLABICS KI:\u{146D}\n\
CANADIAN SYLLABICS KII:\u{146E}\n\
CANADIAN SYLLABICS KO:\u{146F}\n\
CANADIAN SYLLABICS KOO:\u{1470}\n\
CANADIAN SYLLABICS Y-CREE KOO:\u{1471}\n\
CANADIAN SYLLABICS KA:\u{1472}\n\
CANADIAN SYLLABICS KAA:\u{1473}\n\
CANADIAN SYLLABICS KWE:\u{1474}\n\
CANADIAN SYLLABICS WEST-CREE KWE:\u{1475}\n\
CANADIAN SYLLABICS KWI:\u{1476}\n\
CANADIAN SYLLABICS WEST-CREE KWI:\u{1477}\n\
CANADIAN SYLLABICS KWII:\u{1478}\n\
CANADIAN SYLLABICS WEST-CREE KWII:\u{1479}\n\
CANADIAN SYLLABICS KWO:\u{147A}\n\
CANADIAN SYLLABICS WEST-CREE KWO:\u{147B}\n\
CANADIAN SYLLABICS KWOO:\u{147C}\n\
CANADIAN SYLLABICS WEST-CREE KWOO:\u{147D}\n\
CANADIAN SYLLABICS KWA:\u{147E}\n\
CANADIAN SYLLABICS WEST-CREE KWA:\u{147F}\n\
CANADIAN SYLLABICS KWAA:\u{1480}\n\
CANADIAN SYLLABICS WEST-CREE KWAA:\u{1481}\n\
CANADIAN SYLLABICS NASKAPI KWAA:\u{1482}\n\
CANADIAN SYLLABICS K:\u{1483}\n\
CANADIAN SYLLABICS KW:\u{1484}\n\
CANADIAN SYLLABICS SOUTH-SLAVEY KEH:\u{1485}\n\
CANADIAN SYLLABICS SOUTH-SLAVEY KIH:\u{1486}\n\
CANADIAN SYLLABICS SOUTH-SLAVEY KOH:\u{1487}\n\
CANADIAN SYLLABICS SOUTH-SLAVEY KAH:\u{1488}\n\
CANADIAN SYLLABICS CE:\u{1489}\n\
CANADIAN SYLLABICS CAAI:\u{148A}\n\
CANADIAN SYLLABICS CI:\u{148B}\n\
CANADIAN SYLLABICS CII:\u{148C}\n\
CANADIAN SYLLABICS CO:\u{148D}\n\
CANADIAN SYLLABICS COO:\u{148E}\n\
CANADIAN SYLLABICS Y-CREE COO:\u{148F}\n\
CANADIAN SYLLABICS CA:\u{1490}\n\
CANADIAN SYLLABICS CAA:\u{1491}\n\
CANADIAN SYLLABICS CWE:\u{1492}\n\
CANADIAN SYLLABICS WEST-CREE CWE:\u{1493}\n\
CANADIAN SYLLABICS CWI:\u{1494}\n\
CANADIAN SYLLABICS WEST-CREE CWI:\u{1495}\n\
CANADIAN SYLLABICS CWII:\u{1496}\n\
CANADIAN SYLLABICS WEST-CREE CWII:\u{1497}\n\
CANADIAN SYLLABICS CWO:\u{1498}\n\
CANADIAN SYLLABICS WEST-CREE CWO:\u{1499}\n\
CANADIAN SYLLABICS CWOO:\u{149A}\n\
CANADIAN SYLLABICS WEST-CREE CWOO:\u{149B}\n\
CANADIAN SYLLABICS CWA:\u{149C}\n\
CANADIAN SYLLABICS WEST-CREE CWA:\u{149D}\n\
CANADIAN SYLLABICS CWAA:\u{149E}\n\
CANADIAN SYLLABICS WEST-CREE CWAA:\u{149F}\n\
CANADIAN SYLLABICS NASKAPI CWAA:\u{14A0}\n\
CANADIAN SYLLABICS C:\u{14A1}\n\
CANADIAN SYLLABICS SAYISI TH:\u{14A2}\n\
CANADIAN SYLLABICS ME:\u{14A3}\n\
CANADIAN SYLLABICS MAAI:\u{14A4}\n\
CANADIAN SYLLABICS MI:\u{14A5}\n\
CANADIAN SYLLABICS MII:\u{14A6}\n\
CANADIAN SYLLABICS MO:\u{14A7}\n\
CANADIAN SYLLABICS MOO:\u{14A8}\n\
CANADIAN SYLLABICS Y-CREE MOO:\u{14A9}\n\
CANADIAN SYLLABICS MA:\u{14AA}\n\
CANADIAN SYLLABICS MAA:\u{14AB}\n\
CANADIAN SYLLABICS MWE:\u{14AC}\n\
CANADIAN SYLLABICS WEST-CREE MWE:\u{14AD}\n\
CANADIAN SYLLABICS MWI:\u{14AE}\n\
CANADIAN SYLLABICS WEST-CREE MWI:\u{14AF}\n\
CANADIAN SYLLABICS MWII:\u{14B0}\n\
CANADIAN SYLLABICS WEST-CREE MWII:\u{14B1}\n\
CANADIAN SYLLABICS MWO:\u{14B2}\n\
CANADIAN SYLLABICS WEST-CREE MWO:\u{14B3}\n\
CANADIAN SYLLABICS MWOO:\u{14B4}\n\
CANADIAN SYLLABICS WEST-CREE MWOO:\u{14B5}\n\
CANADIAN SYLLABICS MWA:\u{14B6}\n\
CANADIAN SYLLABICS WEST-CREE MWA:\u{14B7}\n\
CANADIAN SYLLABICS MWAA:\u{14B8}\n\
CANADIAN SYLLABICS WEST-CREE MWAA:\u{14B9}\n\
CANADIAN SYLLABICS NASKAPI MWAA:\u{14BA}\n\
CANADIAN SYLLABICS M:\u{14BB}\n\
CANADIAN SYLLABICS WEST-CREE M:\u{14BC}\n\
CANADIAN SYLLABICS MH:\u{14BD}\n\
CANADIAN SYLLABICS ATHAPASCAN M:\u{14BE}\n\
CANADIAN SYLLABICS SAYISI M:\u{14BF}\n\
CANADIAN SYLLABICS NE:\u{14C0}\n\
CANADIAN SYLLABICS NAAI:\u{14C1}\n\
CANADIAN SYLLABICS NI:\u{14C2}\n\
CANADIAN SYLLABICS NII:\u{14C3}\n\
CANADIAN SYLLABICS NO:\u{14C4}\n\
CANADIAN SYLLABICS NOO:\u{14C5}\n\
CANADIAN SYLLABICS Y-CREE NOO:\u{14C6}\n\
CANADIAN SYLLABICS NA:\u{14C7}\n\
CANADIAN SYLLABICS NAA:\u{14C8}\n\
CANADIAN SYLLABICS NWE:\u{14C9}\n\
CANADIAN SYLLABICS WEST-CREE NWE:\u{14CA}\n\
CANADIAN SYLLABICS NWA:\u{14CB}\n\
CANADIAN SYLLABICS WEST-CREE NWA:\u{14CC}\n\
CANADIAN SYLLABICS NWAA:\u{14CD}\n\
CANADIAN SYLLABICS WEST-CREE NWAA:\u{14CE}\n\
CANADIAN SYLLABICS NASKAPI NWAA:\u{14CF}\n\
CANADIAN SYLLABICS N:\u{14D0}\n\
CANADIAN SYLLABICS CARRIER NG:\u{14D1}\n\
CANADIAN SYLLABICS NH:\u{14D2}\n\
CANADIAN SYLLABICS LE:\u{14D3}\n\
CANADIAN SYLLABICS LAAI:\u{14D4}\n\
CANADIAN SYLLABICS LI:\u{14D5}\n\
CANADIAN SYLLABICS LII:\u{14D6}\n\
CANADIAN SYLLABICS LO:\u{14D7}\n\
CANADIAN SYLLABICS LOO:\u{14D8}\n\
CANADIAN SYLLABICS Y-CREE LOO:\u{14D9}\n\
CANADIAN SYLLABICS LA:\u{14DA}\n\
CANADIAN SYLLABICS LAA:\u{14DB}\n\
CANADIAN SYLLABICS LWE:\u{14DC}\n\
CANADIAN SYLLABICS WEST-CREE LWE:\u{14DD}\n\
CANADIAN SYLLABICS LWI:\u{14DE}\n\
CANADIAN SYLLABICS WEST-CREE LWI:\u{14DF}\n\
CANADIAN SYLLABICS LWII:\u{14E0}\n\
CANADIAN SYLLABICS WEST-CREE LWII:\u{14E1}\n\
CANADIAN SYLLABICS LWO:\u{14E2}\n\
CANADIAN SYLLABICS WEST-CREE LWO:\u{14E3}\n\
CANADIAN SYLLABICS LWOO:\u{14E4}\n\
CANADIAN SYLLABICS WEST-CREE LWOO:\u{14E5}\n\
CANADIAN SYLLABICS LWA:\u{14E6}\n\
CANADIAN SYLLABICS WEST-CREE LWA:\u{14E7}\n\
CANADIAN SYLLABICS LWAA:\u{14E8}\n\
CANADIAN SYLLABICS WEST-CREE LWAA:\u{14E9}\n\
CANADIAN SYLLABICS L:\u{14EA}\n\
CANADIAN SYLLABICS WEST-CREE L:\u{14EB}\n\
CANADIAN SYLLABICS MEDIAL L:\u{14EC}\n\
CANADIAN SYLLABICS SE:\u{14ED}\n\
CANADIAN SYLLABICS SAAI:\u{14EE}\n\
CANADIAN SYLLABICS SI:\u{14EF}\n\
CANADIAN SYLLABICS SII:\u{14F0}\n\
CANADIAN SYLLABICS SO:\u{14F1}\n\
CANADIAN SYLLABICS SOO:\u{14F2}\n\
CANADIAN SYLLABICS Y-CREE SOO:\u{14F3}\n\
CANADIAN SYLLABICS SA:\u{14F4}\n\
CANADIAN SYLLABICS SAA:\u{14F5}\n\
CANADIAN SYLLABICS SWE:\u{14F6}\n\
CANADIAN SYLLABICS WEST-CREE SWE:\u{14F7}\n\
CANADIAN SYLLABICS SWI:\u{14F8}\n\
CANADIAN SYLLABICS WEST-CREE SWI:\u{14F9}\n\
CANADIAN SYLLABICS SWII:\u{14FA}\n\
CANADIAN SYLLABICS WEST-CREE SWII:\u{14FB}\n\
CANADIAN SYLLABICS SWO:\u{14FC}\n\
CANADIAN SYLLABICS WEST-CREE SWO:\u{14FD}\n\
CANADIAN SYLLABICS SWOO:\u{14FE}\n\
CANADIAN SYLLABICS WEST-CREE SWOO:\u{14FF}\n\
CANADIAN SYLLABICS SWA:\u{1500}\n\
CANADIAN SYLLABICS WEST-CREE SWA:\u{1501}\n\
CANADIAN SYLLABICS SWAA:\u{1502}\n\
CANADIAN SYLLABICS WEST-CREE SWAA:\u{1503}\n\
CANADIAN SYLLABICS NASKAPI SWAA:\u{1504}\n\
CANADIAN SYLLABICS S:\u{1505}\n\
CANADIAN SYLLABICS ATHAPASCAN S:\u{1506}\n\
CANADIAN SYLLABICS SW:\u{1507}\n\
CANADIAN SYLLABICS BLACKFOOT S:\u{1508}\n\
CANADIAN SYLLABICS MOOSE-CREE SK:\u{1509}\n\
CANADIAN SYLLABICS NASKAPI SKW:\u{150A}\n\
CANADIAN SYLLABICS NASKAPI S-W:\u{150B}\n\
CANADIAN SYLLABICS NASKAPI SPWA:\u{150C}\n\
CANADIAN SYLLABICS NASKAPI STWA:\u{150D}\n\
CANADIAN SYLLABICS NASKAPI SKWA:\u{150E}\n\
CANADIAN SYLLABICS NASKAPI SCWA:\u{150F}\n\
CANADIAN SYLLABICS SHE:\u{1510}\n\
CANADIAN SYLLABICS SHI:\u{1511}\n\
CANADIAN SYLLABICS SHII:\u{1512}\n\
CANADIAN SYLLABICS SHO:\u{1513}\n\
CANADIAN SYLLABICS SHOO:\u{1514}\n\
CANADIAN SYLLABICS SHA:\u{1515}\n\
CANADIAN SYLLABICS SHAA:\u{1516}\n\
CANADIAN SYLLABICS SHWE:\u{1517}\n\
CANADIAN SYLLABICS WEST-CREE SHWE:\u{1518}\n\
CANADIAN SYLLABICS SHWI:\u{1519}\n\
CANADIAN SYLLABICS WEST-CREE SHWI:\u{151A}\n\
CANADIAN SYLLABICS SHWII:\u{151B}\n\
CANADIAN SYLLABICS WEST-CREE SHWII:\u{151C}\n\
CANADIAN SYLLABICS SHWO:\u{151D}\n\
CANADIAN SYLLABICS WEST-CREE SHWO:\u{151E}\n\
CANADIAN SYLLABICS SHWOO:\u{151F}\n\
CANADIAN SYLLABICS WEST-CREE SHWOO:\u{1520}\n\
CANADIAN SYLLABICS SHWA:\u{1521}\n\
CANADIAN SYLLABICS WEST-CREE SHWA:\u{1522}\n\
CANADIAN SYLLABICS SHWAA:\u{1523}\n\
CANADIAN SYLLABICS WEST-CREE SHWAA:\u{1524}\n\
CANADIAN SYLLABICS SH:\u{1525}\n\
CANADIAN SYLLABICS YE:\u{1526}\n\
CANADIAN SYLLABICS YAAI:\u{1527}\n\
CANADIAN SYLLABICS YI:\u{1528}\n\
CANADIAN SYLLABICS YII:\u{1529}\n\
CANADIAN SYLLABICS YO:\u{152A}\n\
CANADIAN SYLLABICS YOO:\u{152B}\n\
CANADIAN SYLLABICS Y-CREE YOO:\u{152C}\n\
CANADIAN SYLLABICS YA:\u{152D}\n\
CANADIAN SYLLABICS YAA:\u{152E}\n\
CANADIAN SYLLABICS YWE:\u{152F}\n\
CANADIAN SYLLABICS WEST-CREE YWE:\u{1530}\n\
CANADIAN SYLLABICS YWI:\u{1531}\n\
CANADIAN SYLLABICS WEST-CREE YWI:\u{1532}\n\
CANADIAN SYLLABICS YWII:\u{1533}\n\
CANADIAN SYLLABICS WEST-CREE YWII:\u{1534}\n\
CANADIAN SYLLABICS YWO:\u{1535}\n\
CANADIAN SYLLABICS WEST-CREE YWO:\u{1536}\n\
CANADIAN SYLLABICS YWOO:\u{1537}\n\
CANADIAN SYLLABICS WEST-CREE YWOO:\u{1538}\n\
CANADIAN SYLLABICS YWA:\u{1539}\n\
CANADIAN SYLLABICS WEST-CREE YWA:\u{153A}\n\
CANADIAN SYLLABICS YWAA:\u{153B}\n\
CANADIAN SYLLABICS WEST-CREE YWAA:\u{153C}\n\
CANADIAN SYLLABICS NASKAPI YWAA:\u{153D}\n\
CANADIAN SYLLABICS Y:\u{153E}\n\
CANADIAN SYLLABICS BIBLE-CREE Y:\u{153F}\n\
CANADIAN SYLLABICS WEST-CREE Y:\u{1540}\n\
CANADIAN SYLLABICS SAYISI YI:\u{1541}\n\
CANADIAN SYLLABICS RE:\u{1542}\n\
CANADIAN SYLLABICS R-CREE RE:\u{1543}\n\
CANADIAN SYLLABICS WEST-CREE LE:\u{1544}\n\
CANADIAN SYLLABICS RAAI:\u{1545}\n\
CANADIAN SYLLABICS RI:\u{1546}\n\
CANADIAN SYLLABICS RII:\u{1547}\n\
CANADIAN SYLLABICS RO:\u{1548}\n\
CANADIAN SYLLABICS ROO:\u{1549}\n\
CANADIAN SYLLABICS WEST-CREE LO:\u{154A}\n\
CANADIAN SYLLABICS RA:\u{154B}\n\
CANADIAN SYLLABICS RAA:\u{154C}\n\
CANADIAN SYLLABICS WEST-CREE LA:\u{154D}\n\
CANADIAN SYLLABICS RWAA:\u{154E}\n\
CANADIAN SYLLABICS WEST-CREE RWAA:\u{154F}\n";

pub const NAMES_12: &'static str = "CANADIAN SYLLABICS R:\u{1550}\n\
CANADIAN SYLLABICS WEST-CREE R:\u{1551}\n\
CANADIAN SYLLABICS MEDIAL R:\u{1552}\n\
CANADIAN SYLLABICS FE:\u{1553}\n\
CANADIAN SYLLABICS FAAI:\u{1554}\n\
CANADIAN SYLLABICS FI:\u{1555}\n\
CANADIAN SYLLABICS FII:\u{1556}\n\
CANADIAN SYLLABICS FO:\u{1557}\n\
CANADIAN SYLLABICS FOO:\u{1558}\n\
CANADIAN SYLLABICS FA:\u{1559}\n\
CANADIAN SYLLABICS FAA:\u{155A}\n\
CANADIAN SYLLABICS FWAA:\u{155B}\n\
CANADIAN SYLLABICS WEST-CREE FWAA:\u{155C}\n\
CANADIAN SYLLABICS F:\u{155D}\n\
CANADIAN SYLLABICS THE:\u{155E}\n\
CANADIAN SYLLABICS N-CREE THE:\u{155F}\n\
CANADIAN SYLLABICS THI:\u{1560}\n\
CANADIAN SYLLABICS N-CREE THI:\u{1561}\n\
CANADIAN SYLLABICS THII:\u{1562}\n\
CANADIAN SYLLABICS N-CREE THII:\u{1563}\n\
CANADIAN SYLLABICS THO:\u{1564}\n\
CANADIAN SYLLABICS THOO:\u{1565}\n\
CANADIAN SYLLABICS THA:\u{1566}\n\
CANADIAN SYLLABICS THAA:\u{1567}\n\
CANADIAN SYLLABICS THWAA:\u{1568}\n\
CANADIAN SYLLABICS WEST-CREE THWAA:\u{1569}\n\
CANADIAN SYLLABICS TH:\u{156A}\n\
CANADIAN SYLLABICS TTHE:\u{156B}\n\
CANADIAN SYLLABICS TTHI:\u{156C}\n\
CANADIAN SYLLABICS TTHO:\u{156D}\n\
CANADIAN SYLLABICS TTHA:\u{156E}\n\
CANADIAN SYLLABICS TTH:\u{156F}\n\
CANADIAN SYLLABICS TYE:\u{1570}\n\
CANADIAN SYLLABICS TYI:\u{1571}\n\
CANADIAN SYLLABICS TYO:\u{1572}\n\
CANADIAN SYLLABICS TYA:\u{1573}\n\
CANADIAN SYLLABICS NUNAVIK HE:\u{1574}\n\
CANADIAN SYLLABICS NUNAVIK HI:\u{1575}\n\
CANADIAN SYLLABICS NUNAVIK HII:\u{1576}\n\
CANADIAN SYLLABICS NUNAVIK HO:\u{1577}\n\
CANADIAN SYLLABICS NUNAVIK HOO:\u{1578}\n\
CANADIAN SYLLABICS NUNAVIK HA:\u{1579}\n\
CANADIAN SYLLABICS NUNAVIK HAA:\u{157A}\n\
CANADIAN SYLLABICS NUNAVIK H:\u{157B}\n\
CANADIAN SYLLABICS NUNAVUT H:\u{157C}\n\
CANADIAN SYLLABICS HK:\u{157D}\n\
CANADIAN SYLLABICS QAAI:\u{157E}\n\
CANADIAN SYLLABICS QI:\u{157F}\n\
CANADIAN SYLLABICS QII:\u{1580}\n\
CANADIAN SYLLABICS QO:\u{1581}\n\
CANADIAN SYLLABICS QOO:\u{1582}\n\
CANADIAN SYLLABICS QA:\u{1583}\n\
CANADIAN SYLLABICS QAA:\u{1584}\n\
CANADIAN SYLLABICS Q:\u{1585}\n\
CANADIAN SYLLABICS TLHE:\u{1586}\n\
CANADIAN SYLLABICS TLHI:\u{1587}\n\
CANADIAN SYLLABICS TLHO:\u{1588}\n\
CANADIAN SYLLABICS TLHA:\u{1589}\n\
CANADIAN SYLLABICS WEST-CREE RE:\u{158A}\n\
CANADIAN SYLLABICS WEST-CREE RI:\u{158B}\n\
CANADIAN SYLLABICS WEST-CREE RO:\u{158C}\n\
CANADIAN SYLLABICS WEST-CREE RA:\u{158D}\n\
CANADIAN SYLLABICS NGAAI:\u{158E}\n\
CANADIAN SYLLABICS NGI:\u{158F}\n\
CANADIAN SYLLABICS NGII:\u{1590}\n\
CANADIAN SYLLABICS NGO:\u{1591}\n\
CANADIAN SYLLABICS NGOO:\u{1592}\n\
CANADIAN SYLLABICS NGA:\u{1593}\n\
CANADIAN SYLLABICS NGAA:\u{1594}\n\
CANADIAN SYLLABICS NG:\u{1595}\n\
CANADIAN SYLLABICS NNG:\u{1596}\n\
CANADIAN SYLLABICS SAYISI SHE:\u{1597}\n\
CANADIAN SYLLABICS SAYISI SHI:\u{1598}\n\
CANADIAN SYLLABICS SAYISI SHO:\u{1599}\n\
CANADIAN SYLLABICS SAYISI SHA:\u{159A}\n\
CANADIAN SYLLABICS WOODS-CREE THE:\u{159B}\n\
CANADIAN SYLLABICS WOODS-CREE THI:\u{159C}\n\
CANADIAN SYLLABICS WOODS-CREE THO:\u{159D}\n\
CANADIAN SYLLABICS WOODS-CREE THA:\u{159E}\n\
CANADIAN SYLLABICS WOODS-CREE TH:\u{159F}\n\
CANADIAN SYLLABICS LHI:\u{15A0}\n\
CANADIAN SYLLABICS LHII:\u{15A1}\n\
CANADIAN SYLLABICS LHO:\u{15A2}\n\
CANADIAN SYLLABICS LHOO:\u{15A3}\n\
CANADIAN SYLLABICS LHA:\u{15A4}\n\
CANADIAN SYLLABICS LHAA:\u{15A5}\n\
CANADIAN SYLLABICS LH:\u{15A6}\n\
CANADIAN SYLLABICS TH-CREE THE:\u{15A7}\n\
CANADIAN SYLLABICS TH-CREE THI:\u{15A8}\n\
CANADIAN SYLLABICS TH-CREE THII:\u{15A9}\n\
CANADIAN SYLLABICS TH-CREE THO:\u{15AA}\n\
CANADIAN SYLLABICS TH-CREE THOO:\u{15AB}\n\
CANADIAN SYLLABICS TH-CREE THA:\u{15AC}\n\
CANADIAN SYLLABICS TH-CREE THAA:\u{15AD}\n\
CANADIAN SYLLABICS TH-CREE TH:\u{15AE}\n\
CANADIAN SYLLABICS AIVILIK B:\u{15AF}\n\
CANADIAN SYLLABICS BLACKFOOT E:\u{15B0}\n\
CANADIAN SYLLABICS BLACKFOOT I:\u{15B1}\n\
CANADIAN SYLLABICS BLACKFOOT O:\u{15B2}\n\
CANADIAN SYLLABICS BLACKFOOT A:\u{15B3}\n\
CANADIAN SYLLABICS BLACKFOOT WE:\u{15B4}\n\
CANADIAN SYLLABICS BLACKFOOT WI:\u{15B5}\n\
CANADIAN SYLLABICS BLACKFOOT WO:\u{15B6}\n\
CANADIAN SYLLABICS BLACKFOOT WA:\u{15B7}\n\
CANADIAN SYLLABICS BLACKFOOT NE:\u{15B8}\n\
CANADIAN SYLLABICS BLACKFOOT NI:\u{15B9}\n\
CANADIAN SYLLABICS BLACKFOOT NO:\u{15BA}\n\
CANADIAN SYLLABICS BLACKFOOT NA:\u{15BB}\n\
CANADIAN SYLLABICS BLACKFOOT KE:\u{15BC}\n\
CANADIAN SYLLABICS BLACKFOOT KI:\u{15BD}\n\
CANADIAN SYLLABICS BLACKFOOT KO:\u{15BE}\n\
CANADIAN SYLLABICS BLACKFOOT KA:\u{15BF}\n\
CANADIAN SYLLABICS SAYISI HE:\u{15C0}\n\
CANADIAN SYLLABICS SAYISI HI:\u{15C1}\n\
CANADIAN SYLLABICS SAYISI HO:\u{15C2}\n\
CANADIAN SYLLABICS SAYISI HA:\u{15C3}\n\
CANADIAN SYLLABICS CARRIER GHU:\u{15C4}\n\
CANADIAN SYLLABICS CARRIER GHO:\u{15C5}\n\
CANADIAN SYLLABICS CARRIER GHE:\u{15C6}\n\
CANADIAN SYLLABICS CARRIER GHEE:\u{15C7}\n\
CANADIAN SYLLABICS CARRIER GHI:\u{15C8}\n\
CANADIAN SYLLABICS CARRIER GHA:\u{15C9}\n\
CANADIAN SYLLABICS CARRIER RU:\u{15CA}\n\
CANADIAN SYLLABICS CARRIER RO:\u{15CB}\n\
CANADIAN SYLLABICS CARRIER RE:\u{15CC}\n\
CANADIAN SYLLABICS CARRIER REE:\u{15CD}\n\
CANADIAN SYLLABICS CARRIER RI:\u{15CE}\n\
CANADIAN SYLLABICS CARRIER RA:\u{15CF}\n\
CANADIAN SYLLABICS CARRIER WU:\u{15D0}\n\
CANADIAN SYLLABICS CARRIER WO:\u{15D1}\n\
CANADIAN SYLLABICS CARRIER WE:\u{15D2}\n\
CANADIAN SYLLABICS CARRIER WEE:\u{15D3}\n\
CANADIAN SYLLABICS CARRIER WI:\u{15D4}\n\
CANADIAN SYLLABICS CARRIER WA:\u{15D5}\n\
CANADIAN SYLLABICS CARRIER HWU:\u{15D6}\n\
CANADIAN SYLLABICS CARRIER HWO:\u{15D7}\n\
CANADIAN SYLLABICS CARRIER HWE:\u{15D8}\n\
CANADIAN SYLLABICS CARRIER HWEE:\u{15D9}\n\
CANADIAN SYLLABICS CARRIER HWI:\u{15DA}\n\
CANADIAN SYLLABICS CARRIER HWA:\u{15DB}\n\
CANADIAN SYLLABICS CARRIER THU:\u{15DC}\n\
CANADIAN SYLLABICS CARRIER THO:\u{15DD}\n\
CANADIAN SYLLABICS CARRIER THE:\u{15DE}\n\
CANADIAN SYLLABICS CARRIER THEE:\u{15DF}\n\
CANADIAN SYLLABICS CARRIER THI:\u{15E0}\n\
CANADIAN SYLLABICS CARRIER THA:\u{15E1}\n\
CANADIAN SYLLABICS CARRIER TTU:\u{15E2}\n\
CANADIAN SYLLABICS CARRIER TTO:\u{15E3}\n\
CANADIAN SYLLABICS CARRIER TTE:\u{15E4}\n\
CANADIAN SYLLABICS CARRIER TTEE:\u{15E5}\n\
CANADIAN SYLLABICS CARRIER TTI:\u{15E6}\n\
CANADIAN SYLLABICS CARRIER TTA:\u{15E7}\n\
CANADIAN SYLLABICS CARRIER PU:\u{15E8}\n\
CANADIAN SYLLABICS CARRIER PO:\u{15E9}\n\
CANADIAN SYLLABICS CARRIER PE:\u{15EA}\n\
CANADIAN SYLLABICS CARRIER PEE:\u{15EB}\n\
CANADIAN SYLLABICS CARRIER PI:\u{15EC}\n\
CANADIAN SYLLABICS CARRIER PA:\u{15ED}\n\
CANADIAN SYLLABICS CARRIER P:\u{15EE}\n\
CANADIAN SYLLABICS CARRIER GU:\u{15EF}\n\
CANADIAN SYLLABICS CARRIER GO:\u{15F0}\n\
CANADIAN SYLLABICS CARRIER GE:\u{15F1}\n\
CANADIAN SYLLABICS CARRIER GEE:\u{15F2}\n\
CANADIAN SYLLABICS CARRIER GI:\u{15F3}\n\
CANADIAN SYLLABICS CARRIER GA:\u{15F4}\n\
CANADIAN SYLLABICS CARRIER KHU:\u{15F5}\n\
CANADIAN SYLLABICS CARRIER KHO:\u{15F6}\n\
CANADIAN SYLLABICS CARRIER KHE:\u{15F7}\n\
CANADIAN SYLLABICS CARRIER KHEE:\u{15F8}\n\
CANADIAN SYLLABICS CARRIER KHI:\u{15F9}\n\
CANADIAN SYLLABICS CARRIER KHA:\u{15FA}\n\
CANADIAN SYLLABICS CARRIER KKU:\u{15FB}\n\
CANADIAN SYLLABICS CARRIER KKO:\u{15FC}\n\
CANADIAN SYLLABICS CARRIER KKE:\u{15FD}\n\
CANADIAN SYLLABICS CARRIER KKEE:\u{15FE}\n\
CANADIAN SYLLABICS CARRIER KKI:\u{15FF}\n\
CANADIAN SYLLABICS CARRIER KKA:\u{1600}\n\
CANADIAN SYLLABICS CARRIER KK:\u{1601}\n\
CANADIAN SYLLABICS CARRIER NU:\u{1602}\n\
CANADIAN SYLLABICS CARRIER NO:\u{1603}\n\
CANADIAN SYLLABICS CARRIER NE:\u{1604}\n\
CANADIAN SYLLABICS CARRIER NEE:\u{1605}\n\
CANADIAN SYLLABICS CARRIER NI:\u{1606}\n\
CANADIAN SYLLABICS CARRIER NA:\u{1607}\n\
CANADIAN SYLLABICS CARRIER MU:\u{1608}\n\
CANADIAN SYLLABICS CARRIER MO:\u{1609}\n\
CANADIAN SYLLABICS CARRIER ME:\u{160A}\n\
CANADIAN SYLLABICS CARRIER MEE:\u{160B}\n\
CANADIAN SYLLABICS CARRIER MI:\u{160C}\n\
CANADIAN SYLLABICS CARRIER MA:\u{160D}\n\
CANADIAN SYLLABICS CARRIER YU:\u{160E}\n\
CANADIAN SYLLABICS CARRIER YO:\u{160F}\n\
CANADIAN SYLLABICS CARRIER YE:\u{1610}\n\
CANADIAN SYLLABICS CARRIER YEE:\u{1611}\n\
CANADIAN SYLLABICS CARRIER YI:\u{1612}\n\
CANADIAN SYLLABICS CARRIER YA:\u{1613}\n\
CANADIAN SYLLABICS CARRIER JU:\u{1614}\n\
CANADIAN SYLLABICS SAYISI JU:\u{1615}\n\
CANADIAN SYLLABICS CARRIER JO:\u{1616}\n\
CANADIAN SYLLABICS CARRIER JE:\u{1617}\n\
CANADIAN SYLLABICS CARRIER JEE:\u{1618}\n\
CANADIAN SYLLABICS CARRIER JI:\u{1619}\n\
CANADIAN SYLLABICS SAYISI JI:\u{161A}\n\
CANADIAN SYLLABICS CARRIER JA:\u{161B}\n\
CANADIAN SYLLABICS CARRIER JJU:\u{161C}\n\
CANADIAN SYLLABICS CARRIER JJO:\u{161D}\n\
CANADIAN SYLLABICS CARRIER JJE:\u{161E}\n\
CANADIAN SYLLABICS CARRIER JJEE:\u{161F}\n\
CANADIAN SYLLABICS CARRIER JJI:\u{1620}\n\
CANADIAN SYLLABICS CARRIER JJA:\u{1621}\n\
CANADIAN SYLLABICS CARRIER LU:\u{1622}\n\
CANADIAN SYLLABICS CARRIER LO:\u{1623}\n\
CANADIAN SYLLABICS CARRIER LE:\u{1624}\n\
CANADIAN SYLLABICS CARRIER LEE:\u{1625}\n\
CANADIAN SYLLABICS CARRIER LI:\u{1626}\n\
CANADIAN SYLLABICS CARRIER LA:\u{1627}\n\
CANADIAN SYLLABICS CARRIER DLU:\u{1628}\n\
CANADIAN SYLLABICS CARRIER DLO:\u{1629}\n\
CANADIAN SYLLABICS CARRIER DLE:\u{162A}\n\
CANADIAN SYLLABICS CARRIER DLEE:\u{162B}\n\
CANADIAN SYLLABICS CARRIER DLI:\u{162C}\n\
CANADIAN SYLLABICS CARRIER DLA:\u{162D}\n\
CANADIAN SYLLABICS CARRIER LHU:\u{162E}\n\
CANADIAN SYLLABICS CARRIER LHO:\u{162F}\n\
CANADIAN SYLLABICS CARRIER LHE:\u{1630}\n\
CANADIAN SYLLABICS CARRIER LHEE:\u{1631}\n\
CANADIAN SYLLABICS CARRIER LHI:\u{1632}\n\
CANADIAN SYLLABICS CARRIER LHA:\u{1633}\n\
CANADIAN SYLLABICS CARRIER TLHU:\u{1634}\n\
CANADIAN SYLLABICS CARRIER TLHO:\u{1635}\n\
CANADIAN SYLLABICS CARRIER TLHE:\u{1636}\n\
CANADIAN SYLLABICS CARRIER TLHEE:\u{1637}\n\
CANADIAN SYLLABICS CARRIER TLHI:\u{1638}\n\
CANADIAN SYLLABICS CARRIER TLHA:\u{1639}\n\
CANADIAN SYLLABICS CARRIER TLU:\u{163A}\n\
CANADIAN SYLLABICS CARRIER TLO:\u{163B}\n\
CANADIAN SYLLABICS CARRIER TLE:\u{163C}\n\
CANADIAN SYLLABICS CARRIER TLEE:\u{163D}\n\
CANADIAN SYLLABICS CARRIER TLI:\u{163E}\n\
CANADIAN SYLLABICS CARRIER TLA:\u{163F}\n\
CANADIAN SYLLABICS CARRIER ZU:\u{1640}\n\
CANADIAN SYLLABICS CARRIER ZO:\u{1641}\n\
CANADIAN SYLLABICS CARRIER ZE:\u{1642}\n\
CANADIAN SYLLABICS CARRIER ZEE:\u{1643}\n\
CANADIAN SYLLABICS CARRIER ZI:\u{1644}\n\
CANADIAN SYLLABICS CARRIER ZA:\u{1645}\n\
CANADIAN SYLLABICS CARRIER Z:\u{1646}\n\
CANADIAN SYLLABICS CARRIER INITIAL Z:\u{1647}\n\
CANADIAN SYLLABICS CARRIER DZU:\u{1648}\n\
CANADIAN SYLLABICS CARRIER DZO:\u{1649}\n\
CANADIAN SYLLABICS CARRIER DZE:\u{164A}\n\
CANADIAN SYLLABICS CARRIER DZEE:\u{164B}\n\
CANADIAN SYLLABICS CARRIER DZI:\u{164C}\n\
CANADIAN SYLLABICS CARRIER DZA:\u{164D}\n\
CANADIAN SYLLABICS CARRIER SU:\u{164E}\n\
CANADIAN SYLLABICS CARRIER SO:\u{164F}\n\
CANADIAN SYLLABICS CARRIER SE:\u{1650}\n\
CANADIAN SYLLABICS CARRIER SEE:\u{1651}\n\
CANADIAN SYLLABICS CARRIER SI:\u{1652}\n\
CANADIAN SYLLABICS CARRIER SA:\u{1653}\n\
CANADIAN SYLLABICS CARRIER SHU:\u{1654}\n\
CANADIAN SYLLABICS CARRIER SHO:\u{1655}\n\
CANADIAN SYLLABICS CARRIER SHE:\u{1656}\n\
CANADIAN SYLLABICS CARRIER SHEE:\u{1657}\n\
CANADIAN SYLLABICS CARRIER SHI:\u{1658}\n\
CANADIAN SYLLABICS CARRIER SHA:\u{1659}\n\
CANADIAN SYLLABICS CARRIER SH:\u{165A}\n\
CANADIAN SYLLABICS CARRIER TSU:\u{165B}\n\
CANADIAN SYLLABICS CARRIER TSO:\u{165C}\n\
CANADIAN SYLLABICS CARRIER TSE:\u{165D}\n\
CANADIAN SYLLABICS CARRIER TSEE:\u{165E}\n\
CANADIAN SYLLABICS CARRIER TSI:\u{165F}\n\
CANADIAN SYLLABICS CARRIER TSA:\u{1660}\n\
CANADIAN SYLLABICS CARRIER CHU:\u{1661}\n\
CANADIAN SYLLABICS CARRIER CHO:\u{1662}\n\
CANADIAN SYLLABICS CARRIER CHE:\u{1663}\n\
CANADIAN SYLLABICS CARRIER CHEE:\u{1664}\n\
CANADIAN SYLLABICS CARRIER CHI:\u{1665}\n\
CANADIAN SYLLABICS CARRIER CHA:\u{1666}\n\
CANADIAN SYLLABICS CARRIER TTSU:\u{1667}\n\
CANADIAN SYLLABICS CARRIER TTSO:\u{1668}\n\
CANADIAN SYLLABICS CARRIER TTSE:\u{1669}\n\
CANADIAN SYLLABICS CARRIER TTSEE:\u{166A}\n\
CANADIAN SYLLABICS CARRIER TTSI:\u{166B}\n\
CANADIAN SYLLABICS CARRIER TTSA:\u{166C}\n\
CANADIAN SYLLABICS CHI SIGN:\u{166D}\n\
CANADIAN SYLLABICS FULL STOP:\u{166E}\n\
CANADIAN SYLLABICS QAI:\u{166F}\n\
CANADIAN SYLLABICS NGAI:\u{1670}\n\
CANADIAN SYLLABICS NNGI:\u{1671}\n\
CANADIAN SYLLABICS NNGII:\u{1672}\n\
CANADIAN SYLLABICS NNGO:\u{1673}\n\
CANADIAN SYLLABICS NNGOO:\u{1674}\n\
CANADIAN SYLLABICS NNGA:\u{1675}\n\
CANADIAN SYLLABICS NNGAA:\u{1676}\n\
CANADIAN SYLLABICS WOODS-CREE THWEE:\u{1677}\n\
CANADIAN SYLLABICS WOODS-CREE THWI:\u{1678}\n\
CANADIAN SYLLABICS WOODS-CREE THWII:\u{1679}\n\
CANADIAN SYLLABICS WOODS-CREE THWO:\u{167A}\n\
CANADIAN SYLLABICS WOODS-CREE THWOO:\u{167B}\n\
CANADIAN SYLLABICS WOODS-CREE THWA:\u{167C}\n\
CANADIAN SYLLABICS WOODS-CREE THWAA:\u{167D}\n\
CANADIAN SYLLABICS WOODS-CREE FINAL TH:\u{167E}\n\
CANADIAN SYLLABICS BLACKFOOT W:\u{167F}\n\
OGHAM SPACE MARK:\u{1680}\n\
OGHAM LETTER BEITH:\u{1681}\n\
OGHAM LETTER LUIS:\u{1682}\n\
OGHAM LETTER FEARN:\u{1683}\n\
OGHAM LETTER SAIL:\u{1684}\n\
OGHAM LETTER NION:\u{1685}\n\
OGHAM LETTER UATH:\u{1686}\n\
OGHAM LETTER DAIR:\u{1687}\n\
OGHAM LETTER TINNE:\u{1688}\n\
OGHAM LETTER COLL:\u{1689}\n\
OGHAM LETTER CEIRT:\u{168A}\n\
OGHAM LETTER MUIN:\u{168B}\n\
OGHAM LETTER GORT:\u{168C}\n\
OGHAM LETTER NGEADAL:\u{168D}\n\
OGHAM LETTER STRAIF:\u{168E}\n\
OGHAM LETTER RUIS:\u{168F}\n\
OGHAM LETTER AILM:\u{1690}\n\
OGHAM LETTER ONN:\u{1691}\n\
OGHAM LETTER UR:\u{1692}\n\
OGHAM LETTER EADHADH:\u{1693}\n\
OGHAM LETTER IODHADH:\u{1694}\n\
OGHAM LETTER EABHADH:\u{1695}\n\
OGHAM LETTER OR:\u{1696}\n\
OGHAM LETTER UILLEANN:\u{1697}\n\
OGHAM LETTER IFIN:\u{1698}\n\
OGHAM LETTER EAMHANCHOLL:\u{1699}\n\
OGHAM LETTER PEITH:\u{169A}\n\
OGHAM FEATHER MARK:\u{169B}\n\
OGHAM REVERSED FEATHER MARK:\u{169C}\n\
RUNIC LETTER FEHU FEOH FE F:\u{16A0}\n\
RUNIC LETTER V:\u{16A1}\n\
RUNIC LETTER URUZ UR U:\u{16A2}\n\
RUNIC LETTER YR:\u{16A3}\n\
RUNIC LETTER Y:\u{16A4}\n\
RUNIC LETTER W:\u{16A5}\n\
RUNIC LETTER THURISAZ THURS THORN:\u{16A6}\n\
RUNIC LETTER ETH:\u{16A7}\n\
RUNIC LETTER ANSUZ A:\u{16A8}\n\
RUNIC LETTER OS O:\u{16A9}\n\
RUNIC LETTER AC A:\u{16AA}\n\
RUNIC LETTER AESC:\u{16AB}\n\
RUNIC LETTER LONG-BRANCH-OSS O:\u{16AC}\n\
RUNIC LETTER SHORT-TWIG-OSS O:\u{16AD}\n\
RUNIC LETTER O:\u{16AE}\n\
RUNIC LETTER OE:\u{16AF}\n\
RUNIC LETTER ON:\u{16B0}\n\
RUNIC LETTER RAIDO RAD REID R:\u{16B1}\n\
RUNIC LETTER KAUNA:\u{16B2}\n\
RUNIC LETTER CEN:\u{16B3}\n\
RUNIC LETTER KAUN K:\u{16B4}\n\
RUNIC LETTER G:\u{16B5}\n\
RUNIC LETTER ENG:\u{16B6}\n\
RUNIC LETTER GEBO GYFU G:\u{16B7}\n\
RUNIC LETTER GAR:\u{16B8}\n\
RUNIC LETTER WUNJO WYNN W:\u{16B9}\n\
RUNIC LETTER HAGLAZ H:\u{16BA}\n\
RUNIC LETTER HAEGL H:\u{16BB}\n\
RUNIC LETTER LONG-BRANCH-HAGALL H:\u{16BC}\n\
RUNIC LETTER SHORT-TWIG-HAGALL H:\u{16BD}\n\
RUNIC LETTER NAUDIZ NYD NAUD N:\u{16BE}\n\
RUNIC LETTER SHORT-TWIG-NAUD N:\u{16BF}\n\
RUNIC LETTER DOTTED-N:\u{16C0}\n\
RUNIC LETTER ISAZ IS ISS I:\u{16C1}\n\
RUNIC LETTER E:\u{16C2}\n\
RUNIC LETTER JERAN J:\u{16C3}\n\
RUNIC LETTER GER:\u{16C4}\n\
RUNIC LETTER LONG-BRANCH-AR AE:\u{16C5}\n\
RUNIC LETTER SHORT-TWIG-AR A:\u{16C6}\n\
RUNIC LETTER IWAZ EOH:\u{16C7}\n\
RUNIC LETTER PERTHO PEORTH P:\u{16C8}\n\
RUNIC LETTER ALGIZ EOLHX:\u{16C9}\n\
RUNIC LETTER SOWILO S:\u{16CA}\n";

pub const NAMES_13: &'static str = "RUNIC LETTER SIGEL LONG-BRANCH-SOL S:\u{16CB}\n\
RUNIC LETTER SHORT-TWIG-SOL S:\u{16CC}\n\
RUNIC LETTER C:\u{16CD}\n\
RUNIC LETTER Z:\u{16CE}\n\
RUNIC LETTER TIWAZ TIR TYR T:\u{16CF}\n\
RUNIC LETTER SHORT-TWIG-TYR T:\u{16D0}\n\
RUNIC LETTER D:\u{16D1}\n\
RUNIC LETTER BERKANAN BEORC BJARKAN B:\u{16D2}\n\
RUNIC LETTER SHORT-TWIG-BJARKAN B:\u{16D3}\n\
RUNIC LETTER DOTTED-P:\u{16D4}\n\
RUNIC LETTER OPEN-P:\u{16D5}\n\
RUNIC LETTER EHWAZ EH E:\u{16D6}\n\
RUNIC LETTER MANNAZ MAN M:\u{16D7}\n\
RUNIC LETTER LONG-BRANCH-MADR M:\u{16D8}\n\
RUNIC LETTER SHORT-TWIG-MADR M:\u{16D9}\n\
RUNIC LETTER LAUKAZ LAGU LOGR L:\u{16DA}\n\
RUNIC LETTER DOTTED-L:\u{16DB}\n\
RUNIC LETTER INGWAZ:\u{16DC}\n\
RUNIC LETTER ING:\u{16DD}\n\
RUNIC LETTER DAGAZ DAEG D:\u{16DE}\n\
RUNIC LETTER OTHALAN ETHEL O:\u{16DF}\n\
RUNIC LETTER EAR:\u{16E0}\n\
RUNIC LETTER IOR:\u{16E1}\n\
RUNIC LETTER CWEORTH:\u{16E2}\n\
RUNIC LETTER CALC:\u{16E3}\n\
RUNIC LETTER CEALC:\u{16E4}\n\
RUNIC LETTER STAN:\u{16E5}\n\
RUNIC LETTER LONG-BRANCH-YR:\u{16E6}\n\
RUNIC LETTER SHORT-TWIG-YR:\u{16E7}\n\
RUNIC LETTER ICELANDIC-YR:\u{16E8}\n\
RUNIC LETTER Q:\u{16E9}\n\
RUNIC LETTER X:\u{16EA}\n\
RUNIC SINGLE PUNCTUATION:\u{16EB}\n\
RUNIC MULTIPLE PUNCTUATION:\u{16EC}\n\
RUNIC CROSS PUNCTUATION:\u{16ED}\n\
RUNIC ARLAUG SYMBOL:\u{16EE}\n\
RUNIC TVIMADUR SYMBOL:\u{16EF}\n\
RUNIC BELGTHOR SYMBOL:\u{16F0}\n\
RUNIC LETTER K:\u{16F1}\n\
RUNIC LETTER SH:\u{16F2}\n\
RUNIC LETTER OO:\u{16F3}\n\
RUNIC LETTER FRANKS CASKET OS:\u{16F4}\n\
RUNIC LETTER FRANKS CASKET IS:\u{16F5}\n\
RUNIC LETTER FRANKS CASKET EH:\u{16F6}\n\
RUNIC LETTER FRANKS CASKET AC:\u{16F7}\n\
RUNIC LETTER FRANKS CASKET AESC:\u{16F8}\n\
TAGALOG LETTER A:\u{1700}\n\
TAGALOG LETTER I:\u{1701}\n\
TAGALOG LETTER U:\u{1702}\n\
TAGALOG LETTER KA:\u{1703}\n\
TAGALOG LETTER GA:\u{1704}\n\
TAGALOG LETTER NGA:\u{1705}\n\
TAGALOG LETTER TA:\u{1706}\n\
TAGALOG LETTER DA:\u{1707}\n\
TAGALOG LETTER NA:\u{1708}\n\
TAGALOG LETTER PA:\u{1709}\n\
TAGALOG LETTER BA:\u{170A}\n\
TAGALOG LETTER MA:\u{170B}\n\
TAGALOG LETTER YA:\u{170C}\n\
TAGALOG LETTER RA:\u{170D}\n\
TAGALOG LETTER LA:\u{170E}\n\
TAGALOG LETTER WA:\u{170F}\n\
TAGALOG LETTER SA:\u{1710}\n\
TAGALOG LETTER HA:\u{1711}\n\
TAGALOG VOWEL SIGN I:\u{1712}\n\
TAGALOG VOWEL SIGN U:\u{1713}\n\
TAGALOG SIGN VIRAMA:\u{1714}\n\
TAGALOG SIGN PAMUDPOD:\u{1715}\n\
TAGALOG LETTER ARCHAIC RA:\u{171F}\n\
HANUNOO LETTER A:\u{1720}\n\
HANUNOO LETTER I:\u{1721}\n\
HANUNOO LETTER U:\u{1722}\n\
HANUNOO LETTER KA:\u{1723}\n\
HANUNOO LETTER GA:\u{1724}\n\
HANUNOO LETTER NGA:\u{1725}\n\
HANUNOO LETTER TA:\u{1726}\n\
HANUNOO LETTER DA:\u{1727}\n\
HANUNOO LETTER NA:\u{1728}\n\
HANUNOO LETTER PA:\u{1729}\n\
HANUNOO LETTER BA:\u{172A}\n\
HANUNOO LETTER MA:\u{172B}\n\
HANUNOO LETTER YA:\u{172C}\n\
HANUNOO LETTER RA:\u{172D}\n\
HANUNOO LETTER LA:\u{172E}\n\
HANUNOO LETTER WA:\u{172F}\n\
HANUNOO LETTER SA:\u{1730}\n\
HANUNOO LETTER HA:\u{1731}\n\
HANUNOO VOWEL SIGN I:\u{1732}\n\
HANUNOO VOWEL SIGN U:\u{1733}\n\
HANUNOO SIGN PAMUDPOD:\u{1734}\n\
PHILIPPINE SINGLE PUNCTUATION:\u{1735}\n\
PHILIPPINE DOUBLE PUNCTUATION:\u{1736}\n\
BUHID LETTER A:\u{1740}\n\
BUHID LETTER I:\u{1741}\n\
BUHID LETTER U:\u{1742}\n\
BUHID LETTER KA:\u{1743}\n\
BUHID LETTER GA:\u{1744}\n\
BUHID LETTER NGA:\u{1745}\n\
BUHID LETTER TA:\u{1746}\n\
BUHID LETTER DA:\u{1747}\n\
BUHID LETTER NA:\u{1748}\n\
BUHID LETTER PA:\u{1749}\n\
BUHID LETTER BA:\u{174A}\n\
BUHID LETTER MA:\u{174B}\n\
BUHID LETTER YA:\u{174C}\n\
BUHID LETTER RA:\u{174D}\n\
BUHID LETTER LA:\u{174E}\n\
BUHID LETTER WA:\u{174F}\n\
BUHID LETTER SA:\u{1750}\n\
BUHID LETTER HA:\u{1751}\n\
BUHID VOWEL SIGN I:\u{1752}\n\
BUHID VOWEL SIGN U:\u{1753}\n\
TAGBANWA LETTER A:\u{1760}\n\
TAGBANWA LETTER I:\u{1761}\n\
TAGBANWA LETTER U:\u{1762}\n\
TAGBANWA LETTER KA:\u{1763}\n\
TAGBANWA LETTER GA:\u{1764}\n\
TAGBANWA LETTER NGA:\u{1765}\n\
TAGBANWA LETTER TA:\u{1766}\n\
TAGBANWA LETTER DA:\u{1767}\n\
TAGBANWA LETTER NA:\u{1768}\n\
TAGBANWA LETTER PA:\u{1769}\n\
TAGBANWA LETTER BA:\u{176A}\n\
TAGBANWA LETTER MA:\u{176B}\n\
TAGBANWA LETTER YA:\u{176C}\n\
TAGBANWA LETTER LA:\u{176E}\n\
TAGBANWA LETTER WA:\u{176F}\n\
TAGBANWA LETTER SA:\u{1770}\n\
TAGBANWA VOWEL SIGN I:\u{1772}\n\
TAGBANWA VOWEL SIGN U:\u{1773}\n\
KHMER LETTER KA:\u{1780}\n\
KHMER LETTER KHA:\u{1781}\n\
KHMER LETTER KO:\u{1782}\n\
KHMER LETTER KHO:\u{1783}\n\
KHMER LETTER NGO:\u{1784}\n\
KHMER LETTER CA:\u{1785}\n\
KHMER LETTER CHA:\u{1786}\n\
KHMER LETTER CO:\u{1787}\n\
KHMER LETTER CHO:\u{1788}\n\
KHMER LETTER NYO:\u{1789}\n\
KHMER LETTER DA:\u{178A}\n\
KHMER LETTER TTHA:\u{178B}\n\
KHMER LETTER DO:\u{178C}\n\
KHMER LETTER TTHO:\u{178D}\n\
KHMER LETTER NNO:\u{178E}\n\
KHMER LETTER TA:\u{178F}\n\
KHMER LETTER THA:\u{1790}\n\
KHMER LETTER TO:\u{1791}\n\
KHMER LETTER THO:\u{1792}\n\
KHMER LETTER NO:\u{1793}\n\
KHMER LETTER BA:\u{1794}\n\
KHMER LETTER PHA:\u{1795}\n\
KHMER LETTER PO:\u{1796}\n\
KHMER LETTER PHO:\u{1797}\n\
KHMER LETTER MO:\u{1798}\n\
KHMER LETTER YO:\u{1799}\n\
KHMER LETTER RO:\u{179A}\n\
KHMER LETTER LO:\u{179B}\n\
KHMER LETTER VO:\u{179C}\n\
KHMER LETTER SHA:\u{179D}\n\
KHMER LETTER SSO:\u{179E}\n\
KHMER LETTER SA:\u{179F}\n\
KHMER LETTER HA:\u{17A0}\n\
KHMER LETTER LA:\u{17A1}\n\
KHMER LETTER QA:\u{17A2}\n\
KHMER INDEPENDENT VOWEL QAQ:\u{17A3}\n\
KHMER INDEPENDENT VOWEL QAA:\u{17A4}\n\
KHMER INDEPENDENT VOWEL QI:\u{17A5}\n\
KHMER INDEPENDENT VOWEL QII:\u{17A6}\n\
KHMER INDEPENDENT VOWEL QU:\u{17A7}\n\
KHMER INDEPENDENT VOWEL QUK:\u{17A8}\n\
KHMER INDEPENDENT VOWEL QUU:\u{17A9}\n\
KHMER INDEPENDENT VOWEL QUUV:\u{17AA}\n\
KHMER INDEPENDENT VOWEL RY:\u{17AB}\n\
KHMER INDEPENDENT VOWEL RYY:\u{17AC}\n\
KHMER INDEPENDENT VOWEL LY:\u{17AD}\n\
KHMER INDEPENDENT VOWEL LYY:\u{17AE}\n\
KHMER INDEPENDENT VOWEL QE:\u{17AF}\n\
KHMER INDEPENDENT VOWEL QAI:\u{17B0}\n\
KHMER INDEPENDENT VOWEL QOO TYPE ONE:\u{17B1}\n\
KHMER INDEPENDENT VOWEL QOO TYPE TWO:\u{17B2}\n\
KHMER INDEPENDENT VOWEL QAU:\u{17B3}\n\
KHMER VOWEL INHERENT AQ:\u{17B4}\n\
KHMER VOWEL INHERENT AA:\u{17B5}\n\
KHMER VOWEL SIGN AA:\u{17B6}\n\
KHMER VOWEL SIGN I:\u{17B7}\n\
KHMER VOWEL SIGN II:\u{17B8}\n\
KHMER VOWEL SIGN Y:\u{17B9}\n\
KHMER VOWEL SIGN YY:\u{17BA}\n\
KHMER VOWEL SIGN U:\u{17BB}\n\
KHMER VOWEL SIGN UU:\u{17BC}\n\
KHMER VOWEL SIGN UA:\u{17BD}\n\
KHMER VOWEL SIGN OE:\u{17BE}\n\
KHMER VOWEL SIGN YA:\u{17BF}\n\
KHMER VOWEL SIGN IE:\u{17C0}\n\
KHMER VOWEL SIGN E:\u{17C1}\n\
KHMER VOWEL SIGN AE:\u{17C2}\n\
KHMER VOWEL SIGN AI:\u{17C3}\n\
KHMER VOWEL SIGN OO:\u{17C4}\n\
KHMER VOWEL SIGN AU:\u{17C5}\n\
KHMER SIGN NIKAHIT:\u{17C6}\n\
KHMER SIGN REAHMUK:\u{17C7}\n\
KHMER SIGN YUUKALEAPINTU:\u{17C8}\n\
KHMER SIGN MUUSIKATOAN:\u{17C9}\n\
KHMER SIGN TRIISAP:\u{17CA}\n\
KHMER SIGN BANTOC:\u{17CB}\n\
KHMER SIGN ROBAT:\u{17CC}\n\
KHMER SIGN TOANDAKHIAT:\u{17CD}\n\
KHMER SIGN KAKABAT:\u{17CE}\n\
KHMER SIGN AHSDA:\u{17CF}\n\
KHMER SIGN SAMYOK SANNYA:\u{17D0}\n\
KHMER SIGN VIRIAM:\u{17D1}\n\
KHMER SIGN COENG:\u{17D2}\n\
KHMER SIGN BATHAMASAT:\u{17D3}\n\
KHMER SIGN KHAN:\u{17D4}\n\
KHMER SIGN BARIYOOSAN:\u{17D5}\n\
KHMER SIGN CAMNUC PII KUUH:\u{17D6}\n\
KHMER SIGN LEK TOO:\u{17D7}\n\
KHMER SIGN BEYYAL:\u{17D8}\n\
KHMER SIGN PHNAEK MUAN:\u{17D9}\n\
KHMER SIGN KOOMUUT:\u{17DA}\n\
KHMER CURRENCY SYMBOL RIEL:\u{17DB}\n\
KHMER SIGN AVAKRAHASANYA:\u{17DC}\n\
KHMER SIGN ATTHACAN:\u{17DD}\n\
KHMER DIGIT ZERO:\u{17E0}\n\
KHMER DIGIT ONE:\u{17E1}\n\
KHMER DIGIT TWO:\u{17E2}\n\
KHMER DIGIT THREE:\u{17E3}\n\
KHMER DIGIT FOUR:\u{17E4}\n\
KHMER DIGIT FIVE:\u{17E5}\n\
KHMER DIGIT SIX:\u{17E6}\n\
KHMER DIGIT SEVEN:\u{17E7}\n\
KHMER DIGIT EIGHT:\u{17E8}\n\
KHMER DIGIT NINE:\u{17E9}\n\
KHMER SYMBOL LEK ATTAK SON:\u{17F0}\n\
KHMER SYMBOL LEK ATTAK MUOY:\u{17F1}\n\
KHMER SYMBOL LEK ATTAK PII:\u{17F2}\n\
KHMER SYMBOL LEK ATTAK BEI:\u{17F3}\n\
KHMER SYMBOL LEK ATTAK BUON:\u{17F4}\n\
KHMER SYMBOL LEK ATTAK PRAM:\u{17F5}\n\
KHMER SYMBOL LEK ATTAK PRAM-MUOY:\u{17F6}\n\
KHMER SYMBOL LEK ATTAK PRAM-PII:\u{17F7}\n\
KHMER SYMBOL LEK ATTAK PRAM-BEI:\u{17F8}\n\
KHMER SYMBOL LEK ATTAK PRAM-BUON:\u{17F9}\n\
MONGOLIAN BIRGA:\u{1800}\n\
MONGOLIAN ELLIPSIS:\u{1801}\n\
MONGOLIAN COMMA:\u{1802}\n\
MONGOLIAN FULL STOP:\u{1803}\n\
MONGOLIAN COLON:\u{1804}\n\
MONGOLIAN FOUR DOTS:\u{1805}\n\
MONGOLIAN TODO SOFT HYPHEN:\u{1806}\n\
MONGOLIAN SIBE SYLLABLE BOUNDARY MARKER:\u{1807}\n\
MONGOLIAN MANCHU COMMA:\u{1808}\n\
MONGOLIAN MANCHU FULL STOP:\u{1809}\n\
MONGOLIAN NIRUGU:\u{180A}\n\
MONGOLIAN FREE VARIATION SELECTOR ONE:\u{180B}\n\
MONGOLIAN FREE VARIATION SELECTOR TWO:\u{180C}\n\
MONGOLIAN FREE VARIATION SELECTOR THREE:\u{180D}\n\
MONGOLIAN VOWEL SEPARATOR:\u{180E}\n\
MONGOLIAN FREE VARIATION SELECTOR FOUR:\u{180F}\n\
MONGOLIAN DIGIT ZERO:\u{1810}\n\
MONGOLIAN DIGIT ONE:\u{1811}\n\
MONGOLIAN DIGIT TWO:\u{1812}\n\
MONGOLIAN DIGIT THREE:\u{1813}\n\
MONGOLIAN DIGIT FOUR:\u{1814}\n\
MONGOLIAN DIGIT FIVE:\u{1815}\n\
MONGOLIAN DIGIT SIX:\u{1816}\n\
MONGOLIAN DIGIT SEVEN:\u{1817}\n\
MONGOLIAN DIGIT EIGHT:\u{1818}\n\
MONGOLIAN DIGIT NINE:\u{1819}\n\
MONGOLIAN LETTER A:\u{1820}\n\
MONGOLIAN LETTER E:\u{1821}\n\
MONGOLIAN LETTER I:\u{1822}\n\
MONGOLIAN LETTER O:\u{1823}\n\
MONGOLIAN LETTER U:\u{1824}\n\
MONGOLIAN LETTER OE:\u{1825}\n\
MONGOLIAN LETTER UE:\u{1826}\n\
MONGOLIAN LETTER EE:\u{1827}\n\
MONGOLIAN LETTER NA:\u{1828}\n\
MONGOLIAN LETTER ANG:\u{1829}\n\
MONGOLIAN LETTER BA:\u{182A}\n\
MONGOLIAN LETTER PA:\u{182B}\n\
MONGOLIAN LETTER QA:\u{182C}\n\
MONGOLIAN LETTER GA:\u{182D}\n\
MONGOLIAN LETTER MA:\u{182E}\n\
MONGOLIAN LETTER LA:\u{182F}\n\
MONGOLIAN LETTER SA:\u{1830}\n\
MONGOLIAN LETTER SHA:\u{1831}\n\
MONGOLIAN LETTER TA:\u{1832}\n\
MONGOLIAN LETTER DA:\u{1833}\n\
MONGOLIAN LETTER CHA:\u{1834}\n\
MONGOLIAN LETTER JA:\u{1835}\n\
MONGOLIAN LETTER YA:\u{1836}\n\
MONGOLIAN LETTER RA:\u{1837}\n\
MONGOLIAN LETTER WA:\u{1838}\n\
MONGOLIAN LETTER FA:\u{1839}\n\
MONGOLIAN LETTER KA:\u{183A}\n\
MONGOLIAN LETTER KHA:\u{183B}\n\
MONGOLIAN LETTER TSA:\u{183C}\n\
MONGOLIAN LETTER ZA:\u{183D}\n\
MONGOLIAN LETTER HAA:\u{183E}\n\
MONGOLIAN LETTER ZRA:\u{183F}\n\
MONGOLIAN LETTER LHA:\u{1840}\n\
MONGOLIAN LETTER ZHI:\u{1841}\n\
MONGOLIAN LETTER CHI:\u{1842}\n\
MONGOLIAN LETTER TODO LONG VOWEL SIGN:\u{1843}\n\
MONGOLIAN LETTER TODO E:\u{1844}\n\
MONGOLIAN LETTER TODO I:\u{1845}\n\
MONGOLIAN LETTER TODO O:\u{1846}\n\
MONGOLIAN LETTER TODO U:\u{1847}\n\
MONGOLIAN LETTER TODO OE:\u{1848}\n\
MONGOLIAN LETTER TODO UE:\u{1849}\n\
MONGOLIAN LETTER TODO ANG:\u{184A}\n\
MONGOLIAN LETTER TODO BA:\u{184B}\n\
MONGOLIAN LETTER TODO PA:\u{184C}\n\
MONGOLIAN LETTER TODO QA:\u{184D}\n\
MONGOLIAN LETTER TODO GA:\u{184E}\n\
MONGOLIAN LETTER TODO MA:\u{184F}\n\
MONGOLIAN LETTER TODO TA:\u{1850}\n\
MONGOLIAN LETTER TODO DA:\u{1851}\n\
MONGOLIAN LETTER TODO CHA:\u{1852}\n\
MONGOLIAN LETTER TODO JA:\u{1853}\n\
MONGOLIAN LETTER TODO TSA:\u{1854}\n\
MONGOLIAN LETTER TODO YA:\u{1855}\n\
MONGOLIAN LETTER TODO WA:\u{1856}\n\
MONGOLIAN LETTER TODO KA:\u{1857}\n\
MONGOLIAN LETTER TODO GAA:\u{1858}\n\
MONGOLIAN LETTER TODO HAA:\u{1859}\n\
MONGOLIAN LETTER TODO JIA:\u{185A}\n\
MONGOLIAN LETTER TODO NIA:\u{185B}\n\
MONGOLIAN LETTER TODO DZA:\u{185C}\n\
MONGOLIAN LETTER SIBE E:\u{185D}\n\
MONGOLIAN LETTER SIBE I:\u{185E}\n\
MONGOLIAN LETTER SIBE IY:\u{185F}\n\
MONGOLIAN LETTER SIBE UE:\u{1860}\n\
MONGOLIAN LETTER SIBE U:\u{1861}\n\
MONGOLIAN LETTER SIBE ANG:\u{1862}\n\
MONGOLIAN LETTER SIBE KA:\u{1863}\n\
MONGOLIAN LETTER SIBE GA:\u{1864}\n\
MONGOLIAN LETTER SIBE HA:\u{1865}\n\
MONGOLIAN LETTER SIBE PA:\u{1866}\n\
MONGOLIAN LETTER SIBE SHA:\u{1867}\n\
MONGOLIAN LETTER SIBE TA:\u{1868}\n\
MONGOLIAN LETTER SIBE DA:\u{1869}\n\
MONGOLIAN LETTER SIBE JA:\u{186A}\n\
MONGOLIAN LETTER SIBE FA:\u{186B}\n\
MONGOLIAN LETTER SIBE GAA:\u{186C}\n\
MONGOLIAN LETTER SIBE HAA:\u{186D}\n\
MONGOLIAN LETTER SIBE TSA:\u{186E}\n\
MONGOLIAN LETTER SIBE ZA:\u{186F}\n\
MONGOLIAN LETTER SIBE RAA:\u{1870}\n\
MONGOLIAN LETTER SIBE CHA:\u{1871}\n\
MONGOLIAN LETTER SIBE ZHA:\u{1872}\n\
MONGOLIAN LETTER MANCHU I:\u{1873}\n\
MONGOLIAN LETTER MANCHU KA:\u{1874}\n\
MONGOLIAN LETTER MANCHU RA:\u{1875}\n\
MONGOLIAN LETTER MANCHU FA:\u{1876}\n\
MONGOLIAN LETTER MANCHU ZHA:\u{1877}\n\
MONGOLIAN LETTER CHA WITH TWO DOTS:\u{1878}\n\
MONGOLIAN LETTER ALI GALI ANUSVARA ONE:\u{1880}\n\
MONGOLIAN LETTER ALI GALI VISARGA ONE:\u{1881}\n\
MONGOLIAN LETTER ALI GALI DAMARU:\u{1882}\n\
MONGOLIAN LETTER ALI GALI UBADAMA:\u{1883}\n\
MONGOLIAN LETTER ALI GALI INVERTED UBADAMA:\u{1884}\n\
MONGOLIAN LETTER ALI GALI BALUDA:\u{1885}\n\
MONGOLIAN LETTER ALI GALI THREE BALUDA:\u{1886}\n\
MONGOLIAN LETTER ALI GALI A:\u{1887}\n\
MONGOLIAN LETTER ALI GALI I:\u{1888}\n\
MONGOLIAN LETTER ALI GALI KA:\u{1889}\n\
MONGOLIAN LETTER ALI GALI NGA:\u{188A}\n\
MONGOLIAN LETTER ALI GALI CA:\u{188B}\n\
MONGOLIAN LETTER ALI GALI TTA:\u{188C}\n\
MONGOLIAN LETTER ALI GALI TTHA:\u{188D}\n\
MONGOLIAN LETTER ALI GALI DDA:\u{188E}\n\
MONGOLIAN LETTER ALI GALI NNA:\u{188F}\n\
MONGOLIAN LETTER ALI GALI TA:\u{1890}\n\
MONGOLIAN LETTER ALI GALI DA:\u{1891}\n\
MONGOLIAN LETTER ALI GALI PA:\u{1892}\n\
MONGOLIAN LETTER ALI GALI PHA:\u{1893}\n\
MONGOLIAN LETTER ALI GALI SSA:\u{1894}\n\
MONGOLIAN LETTER ALI GALI ZHA:\u{1895}\n\
MONGOLIAN LETTER ALI GALI ZA:\u{1896}\n\
MONGOLIAN LETTER ALI GALI AH:\u{1897}\n\
MONGOLIAN LETTER TODO ALI GALI TA:\u{1898}\n\
MONGOLIAN LETTER TODO ALI GALI ZHA:\u{1899}\n\
MONGOLIAN LETTER MANCHU ALI GALI GHA:\u{189A}\n\
MONGOLIAN LETTER MANCHU ALI GALI NGA:\u{189B}\n\
MONGOLIAN LETTER MANCHU ALI GALI CA:\u{189C}\n\
MONGOLIAN LETTER MANCHU ALI GALI JHA:\u{189D}\n\
MONGOLIAN LETTER MANCHU ALI GALI TTA:\u{189E}\n\
MONGOLIAN LETTER MANCHU ALI GALI DDHA:\u{189F}\n\
MONGOLIAN LETTER MANCHU ALI GALI TA:\u{18A0}\n\
MONGOLIAN LETTER MANCHU ALI GALI DHA:\u{18A1}\n\
MONGOLIAN LETTER MANCHU ALI GALI SSA:\u{18A2}\n\
MONGOLIAN LETTER MANCHU ALI GALI CYA:\u{18A3}\n\
MONGOLIAN LETTER MANCHU ALI GALI ZHA:\u{18A4}\n\
MONGOLIAN LETTER MANCHU ALI GALI ZA:\u{18A5}\n\
MONGOLIAN LETTER ALI GALI HALF U:\u{18A6}\n\
MONGOLIAN LETTER ALI GALI HALF YA:\u{18A7}\n\
MONGOLIAN LETTER MANCHU ALI GALI BHA:\u{18A8}\n\
MONGOLIAN LETTER ALI GALI DAGALGA:\u{18A9}\n\
MONGOLIAN LETTER MANCHU ALI GALI LHA:\u{18AA}\n\
CANADIAN SYLLABICS OY:\u{18B0}\n\
CANADIAN SYLLABICS AY:\u{18B1}\n\
CANADIAN SYLLABICS AAY:\u{18B2}\n\
CANADIAN SYLLABICS WAY:\u{18B3}\n\
CANADIAN SYLLABICS POY:\u{18B4}\n\
CANADIAN SYLLABICS PAY:\u{18B5}\n\
CANADIAN SYLLABICS PWOY:\u{18B6}\n\
CANADIAN SYLLABICS TAY:\u{18B7}\n\
CANADIAN SYLLABICS KAY:\u{18B8}\n\
CANADIAN SYLLABICS KWAY:\u{18B9}\n\
CANADIAN SYLLABICS MAY:\u{18BA}\n\
CANADIAN SYLLABICS NOY:\u{18BB}\n\
CANADIAN SYLLABICS NAY:\u{18BC}\n\
CANADIAN SYLLABICS LAY:\u{18BD}\n\
CANADIAN SYLLABICS SOY:\u{18BE}\n\
CANADIAN SYLLABICS SAY:\u{18BF}\n\
CANADIAN SYLLABICS SHOY:\u{18C0}\n\
CANADIAN SYLLABICS SHAY:\u{18C1}\n\
CANADIAN SYLLABICS SHWOY:\u{18C2}\n\
CANADIAN SYLLABICS YOY:\u{18C3}\n\
CANADIAN SYLLABICS YAY:\u{18C4}\n\
CANADIAN SYLLABICS RAY:\u{18C5}\n\
CANADIAN SYLLABICS NWI:\u{18C6}\n\
CANADIAN SYLLABICS OJIBWAY NWI:\u{18C7}\n\
CANADIAN SYLLABICS NWII:\u{18C8}\n\
CANADIAN SYLLABICS OJIBWAY NWII:\u{18C9}\n";

pub const NAMES_14: &'static str = "CANADIAN SYLLABICS NWO:\u{18CA}\n\
CANADIAN SYLLABICS OJIBWAY NWO:\u{18CB}\n\
CANADIAN SYLLABICS NWOO:\u{18CC}\n\
CANADIAN SYLLABICS OJIBWAY NWOO:\u{18CD}\n\
CANADIAN SYLLABICS RWEE:\u{18CE}\n\
CANADIAN SYLLABICS RWI:\u{18CF}\n\
CANADIAN SYLLABICS RWII:\u{18D0}\n\
CANADIAN SYLLABICS RWO:\u{18D1}\n\
CANADIAN SYLLABICS RWOO:\u{18D2}\n\
CANADIAN SYLLABICS RWA:\u{18D3}\n\
CANADIAN SYLLABICS OJIBWAY P:\u{18D4}\n\
CANADIAN SYLLABICS OJIBWAY T:\u{18D5}\n\
CANADIAN SYLLABICS OJIBWAY K:\u{18D6}\n\
CANADIAN SYLLABICS OJIBWAY C:\u{18D7}\n\
CANADIAN SYLLABICS OJIBWAY M:\u{18D8}\n\
CANADIAN SYLLABICS OJIBWAY N:\u{18D9}\n\
CANADIAN SYLLABICS OJIBWAY S:\u{18DA}\n\
CANADIAN SYLLABICS OJIBWAY SH:\u{18DB}\n\
CANADIAN SYLLABICS EASTERN W:\u{18DC}\n\
CANADIAN SYLLABICS WESTERN W:\u{18DD}\n\
CANADIAN SYLLABICS FINAL SMALL RING:\u{18DE}\n\
CANADIAN SYLLABICS FINAL RAISED DOT:\u{18DF}\n\
CANADIAN SYLLABICS R-CREE RWE:\u{18E0}\n\
CANADIAN SYLLABICS WEST-CREE LOO:\u{18E1}\n\
CANADIAN SYLLABICS WEST-CREE LAA:\u{18E2}\n\
CANADIAN SYLLABICS THWE:\u{18E3}\n\
CANADIAN SYLLABICS THWA:\u{18E4}\n\
CANADIAN SYLLABICS TTHWE:\u{18E5}\n\
CANADIAN SYLLABICS TTHOO:\u{18E6}\n\
CANADIAN SYLLABICS TTHAA:\u{18E7}\n\
CANADIAN SYLLABICS TLHWE:\u{18E8}\n\
CANADIAN SYLLABICS TLHOO:\u{18E9}\n\
CANADIAN SYLLABICS SAYISI SHWE:\u{18EA}\n\
CANADIAN SYLLABICS SAYISI SHOO:\u{18EB}\n\
CANADIAN SYLLABICS SAYISI HOO:\u{18EC}\n\
CANADIAN SYLLABICS CARRIER GWU:\u{18ED}\n\
CANADIAN SYLLABICS CARRIER DENE GEE:\u{18EE}\n\
CANADIAN SYLLABICS CARRIER GAA:\u{18EF}\n\
CANADIAN SYLLABICS CARRIER GWA:\u{18F0}\n\
CANADIAN SYLLABICS SAYISI JUU:\u{18F1}\n\
CANADIAN SYLLABICS CARRIER JWA:\u{18F2}\n\
CANADIAN SYLLABICS BEAVER DENE L:\u{18F3}\n\
CANADIAN SYLLABICS BEAVER DENE R:\u{18F4}\n\
CANADIAN SYLLABICS CARRIER DENTAL S:\u{18F5}\n\
LIMBU VOWEL-CARRIER LETTER:\u{1900}\n\
LIMBU LETTER KA:\u{1901}\n\
LIMBU LETTER KHA:\u{1902}\n\
LIMBU LETTER GA:\u{1903}\n\
LIMBU LETTER GHA:\u{1904}\n\
LIMBU LETTER NGA:\u{1905}\n\
LIMBU LETTER CA:\u{1906}\n\
LIMBU LETTER CHA:\u{1907}\n\
LIMBU LETTER JA:\u{1908}\n\
LIMBU LETTER JHA:\u{1909}\n\
LIMBU LETTER YAN:\u{190A}\n\
LIMBU LETTER TA:\u{190B}\n\
LIMBU LETTER THA:\u{190C}\n\
LIMBU LETTER DA:\u{190D}\n\
LIMBU LETTER DHA:\u{190E}\n\
LIMBU LETTER NA:\u{190F}\n\
LIMBU LETTER PA:\u{1910}\n\
LIMBU LETTER PHA:\u{1911}\n\
LIMBU LETTER BA:\u{1912}\n\
LIMBU LETTER BHA:\u{1913}\n\
LIMBU LETTER MA:\u{1914}\n\
LIMBU LETTER YA:\u{1915}\n\
LIMBU LETTER RA:\u{1916}\n\
LIMBU LETTER LA:\u{1917}\n\
LIMBU LETTER WA:\u{1918}\n\
LIMBU LETTER SHA:\u{1919}\n\
LIMBU LETTER SSA:\u{191A}\n\
LIMBU LETTER SA:\u{191B}\n\
LIMBU LETTER HA:\u{191C}\n\
LIMBU LETTER GYAN:\u{191D}\n\
LIMBU LETTER TRA:\u{191E}\n\
LIMBU VOWEL SIGN A:\u{1920}\n\
LIMBU VOWEL SIGN I:\u{1921}\n\
LIMBU VOWEL SIGN U:\u{1922}\n\
LIMBU VOWEL SIGN EE:\u{1923}\n\
LIMBU VOWEL SIGN AI:\u{1924}\n\
LIMBU VOWEL SIGN OO:\u{1925}\n\
LIMBU VOWEL SIGN AU:\u{1926}\n\
LIMBU VOWEL SIGN E:\u{1927}\n\
LIMBU VOWEL SIGN O:\u{1928}\n\
LIMBU SUBJOINED LETTER YA:\u{1929}\n\
LIMBU SUBJOINED LETTER RA:\u{192A}\n\
LIMBU SUBJOINED LETTER WA:\u{192B}\n\
LIMBU SMALL LETTER KA:\u{1930}\n\
LIMBU SMALL LETTER NGA:\u{1931}\n\
LIMBU SMALL LETTER ANUSVARA:\u{1932}\n\
LIMBU SMALL LETTER TA:\u{1933}\n\
LIMBU SMALL LETTER NA:\u{1934}\n\
LIMBU SMALL LETTER PA:\u{1935}\n\
LIMBU SMALL LETTER MA:\u{1936}\n\
LIMBU SMALL LETTER RA:\u{1937}\n\
LIMBU SMALL LETTER LA:\u{1938}\n\
LIMBU SIGN MUKPHRENG:\u{1939}\n\
LIMBU SIGN KEMPHRENG:\u{193A}\n\
LIMBU SIGN SA-I:\u{193B}\n\
LIMBU SIGN LOO:\u{1940}\n\
LIMBU EXCLAMATION MARK:\u{1944}\n\
LIMBU QUESTION MARK:\u{1945}\n\
LIMBU DIGIT ZERO:\u{1946}\n\
LIMBU DIGIT ONE:\u{1947}\n\
LIMBU DIGIT TWO:\u{1948}\n\
LIMBU DIGIT THREE:\u{1949}\n\
LIMBU DIGIT FOUR:\u{194A}\n\
LIMBU DIGIT FIVE:\u{194B}\n\
LIMBU DIGIT SIX:\u{194C}\n\
LIMBU DIGIT SEVEN:\u{194D}\n\
LIMBU DIGIT EIGHT:\u{194E}\n\
LIMBU DIGIT NINE:\u{194F}\n\
TAI LE LETTER KA:\u{1950}\n\
TAI LE LETTER XA:\u{1951}\n\
TAI LE LETTER NGA:\u{1952}\n\
TAI LE LETTER TSA:\u{1953}\n\
TAI LE LETTER SA:\u{1954}\n\
TAI LE LETTER YA:\u{1955}\n\
TAI LE LETTER TA:\u{1956}\n\
TAI LE LETTER THA:\u{1957}\n\
TAI LE LETTER LA:\u{1958}\n\
TAI LE LETTER PA:\u{1959}\n\
TAI LE LETTER PHA:\u{195A}\n\
TAI LE LETTER MA:\u{195B}\n\
TAI LE LETTER FA:\u{195C}\n\
TAI LE LETTER VA:\u{195D}\n\
TAI LE LETTER HA:\u{195E}\n\
TAI LE LETTER QA:\u{195F}\n\
TAI LE LETTER KHA:\u{1960}\n\
TAI LE LETTER TSHA:\u{1961}\n\
TAI LE LETTER NA:\u{1962}\n\
TAI LE LETTER A:\u{1963}\n\
TAI LE LETTER I:\u{1964}\n\
TAI LE LETTER EE:\u{1965}\n\
TAI LE LETTER EH:\u{1966}\n\
TAI LE LETTER U:\u{1967}\n\
TAI LE LETTER OO:\u{1968}\n\
TAI LE LETTER O:\u{1969}\n\
TAI LE LETTER UE:\u{196A}\n\
TAI LE LETTER E:\u{196B}\n\
TAI LE LETTER AUE:\u{196C}\n\
TAI LE LETTER AI:\u{196D}\n\
TAI LE LETTER TONE-2:\u{1970}\n\
TAI LE LETTER TONE-3:\u{1971}\n\
TAI LE LETTER TONE-4:\u{1972}\n\
TAI LE LETTER TONE-5:\u{1973}\n\
TAI LE LETTER TONE-6:\u{1974}\n\
NEW TAI LUE LETTER HIGH QA:\u{1980}\n\
NEW TAI LUE LETTER LOW QA:\u{1981}\n\
NEW TAI LUE LETTER HIGH KA:\u{1982}\n\
NEW TAI LUE LETTER HIGH XA:\u{1983}\n\
NEW TAI LUE LETTER HIGH NGA:\u{1984}\n\
NEW TAI LUE LETTER LOW KA:\u{1985}\n\
NEW TAI LUE LETTER LOW XA:\u{1986}\n\
NEW TAI LUE LETTER LOW NGA:\u{1987}\n\
NEW TAI LUE LETTER HIGH TSA:\u{1988}\n\
NEW TAI LUE LETTER HIGH SA:\u{1989}\n\
NEW TAI LUE LETTER HIGH YA:\u{198A}\n\
NEW TAI LUE LETTER LOW TSA:\u{198B}\n\
NEW TAI LUE LETTER LOW SA:\u{198C}\n\
NEW TAI LUE LETTER LOW YA:\u{198D}\n\
NEW TAI LUE LETTER HIGH TA:\u{198E}\n\
NEW TAI LUE LETTER HIGH THA:\u{198F}\n\
NEW TAI LUE LETTER HIGH NA:\u{1990}\n\
NEW TAI LUE LETTER LOW TA:\u{1991}\n\
NEW TAI LUE LETTER LOW THA:\u{1992}\n\
NEW TAI LUE LETTER LOW NA:\u{1993}\n\
NEW TAI LUE LETTER HIGH PA:\u{1994}\n\
NEW TAI LUE LETTER HIGH PHA:\u{1995}\n\
NEW TAI LUE LETTER HIGH MA:\u{1996}\n\
NEW TAI LUE LETTER LOW PA:\u{1997}\n\
NEW TAI LUE LETTER LOW PHA:\u{1998}\n\
NEW TAI LUE LETTER LOW MA:\u{1999}\n\
NEW TAI LUE LETTER HIGH FA:\u{199A}\n\
NEW TAI LUE LETTER HIGH VA:\u{199B}\n\
NEW TAI LUE LETTER HIGH LA:\u{199C}\n\
NEW TAI LUE LETTER LOW FA:\u{199D}\n\
NEW TAI LUE LETTER LOW VA:\u{199E}\n\
NEW TAI LUE LETTER LOW LA:\u{199F}\n\
NEW TAI LUE LETTER HIGH HA:\u{19A0}\n\
NEW TAI LUE LETTER HIGH DA:\u{19A1}\n\
NEW TAI LUE LETTER HIGH BA:\u{19A2}\n\
NEW TAI LUE LETTER LOW HA:\u{19A3}\n\
NEW TAI LUE LETTER LOW DA:\u{19A4}\n\
NEW TAI LUE LETTER LOW BA:\u{19A5}\n\
NEW TAI LUE LETTER HIGH KVA:\u{19A6}\n\
NEW TAI LUE LETTER HIGH XVA:\u{19A7}\n\
NEW TAI LUE LETTER LOW KVA:\u{19A8}\n\
NEW TAI LUE LETTER LOW XVA:\u{19A9}\n\
NEW TAI LUE LETTER HIGH SUA:\u{19AA}\n\
NEW TAI LUE LETTER LOW SUA:\u{19AB}\n\
NEW TAI LUE VOWEL SIGN VOWEL SHORTENER:\u{19B0}\n\
NEW TAI LUE VOWEL SIGN AA:\u{19B1}\n\
NEW TAI LUE VOWEL SIGN II:\u{19B2}\n\
NEW TAI LUE VOWEL SIGN U:\u{19B3}\n\
NEW TAI LUE VOWEL SIGN UU:\u{19B4}\n\
NEW TAI LUE VOWEL SIGN E:\u{19B5}\n\
NEW TAI LUE VOWEL SIGN AE:\u{19B6}\n\
NEW TAI LUE VOWEL SIGN O:\u{19B7}\n\
NEW TAI LUE VOWEL SIGN OA:\u{19B8}\n\
NEW TAI LUE VOWEL SIGN UE:\u{19B9}\n\
NEW TAI LUE VOWEL SIGN AY:\u{19BA}\n\
NEW TAI LUE VOWEL SIGN AAY:\u{19BB}\n\
NEW TAI LUE VOWEL SIGN UY:\u{19BC}\n\
NEW TAI LUE VOWEL SIGN OY:\u{19BD}\n\
NEW TAI LUE VOWEL SIGN OAY:\u{19BE}\n\
NEW TAI LUE VOWEL SIGN UEY:\u{19BF}\n\
NEW TAI LUE VOWEL SIGN IY:\u{19C0}\n\
NEW TAI LUE LETTER FINAL V:\u{19C1}\n\
NEW TAI LUE LETTER FINAL NG:\u{19C2}\n\
NEW TAI LUE LETTER FINAL N:\u{19C3}\n\
NEW TAI LUE LETTER FINAL M:\u{19C4}\n\
NEW TAI LUE LETTER FINAL K:\u{19C5}\n\
NEW TAI LUE LETTER FINAL D:\u{19C6}\n\
NEW TAI LUE LETTER FINAL B:\u{19C7}\n\
NEW TAI LUE TONE MARK-1:\u{19C8}\n\
NEW TAI LUE TONE MARK-2:\u{19C9}\n\
NEW TAI LUE DIGIT ZERO:\u{19D0}\n\
NEW TAI LUE DIGIT ONE:\u{19D1}\n\
NEW TAI LUE DIGIT TWO:\u{19D2}\n\
NEW TAI LUE DIGIT THREE:\u{19D3}\n\
NEW TAI LUE DIGIT FOUR:\u{19D4}\n\
NEW TAI LUE DIGIT FIVE:\u{19D5}\n\
NEW TAI LUE DIGIT SIX:\u{19D6}\n\
NEW TAI LUE DIGIT SEVEN:\u{19D7}\n\
NEW TAI LUE DIGIT EIGHT:\u{19D8}\n\
NEW TAI LUE DIGIT NINE:\u{19D9}\n\
NEW TAI LUE THAM DIGIT ONE:\u{19DA}\n\
NEW TAI LUE SIGN LAE:\u{19DE}\n\
NEW TAI LUE SIGN LAEV:\u{19DF}\n\
KHMER SYMBOL PATHAMASAT:\u{19E0}\n\
KHMER SYMBOL MUOY KOET:\u{19E1}\n\
KHMER SYMBOL PII KOET:\u{19E2}\n\
KHMER SYMBOL BEI KOET:\u{19E3}\n\
KHMER SYMBOL BUON KOET:\u{19E4}\n\
KHMER SYMBOL PRAM KOET:\u{19E5}\n\
KHMER SYMBOL PRAM-MUOY KOET:\u{19E6}\n\
KHMER SYMBOL PRAM-PII KOET:\u{19E7}\n\
KHMER SYMBOL PRAM-BEI KOET:\u{19E8}\n\
KHMER SYMBOL PRAM-BUON KOET:\u{19E9}\n\
KHMER SYMBOL DAP KOET:\u{19EA}\n\
KHMER SYMBOL DAP-MUOY KOET:\u{19EB}\n\
KHMER SYMBOL DAP-PII KOET:\u{19EC}\n\
KHMER SYMBOL DAP-BEI KOET:\u{19ED}\n\
KHMER SYMBOL DAP-BUON KOET:\u{19EE}\n\
KHMER SYMBOL DAP-PRAM KOET:\u{19EF}\n\
KHMER SYMBOL TUTEYASAT:\u{19F0}\n\
KHMER SYMBOL MUOY ROC:\u{19F1}\n\
KHMER SYMBOL PII ROC:\u{19F2}\n\
KHMER SYMBOL BEI ROC:\u{19F3}\n\
KHMER SYMBOL BUON ROC:\u{19F4}\n\
KHMER SYMBOL PRAM ROC:\u{19F5}\n\
KHMER SYMBOL PRAM-MUOY ROC:\u{19F6}\n\
KHMER SYMBOL PRAM-PII ROC:\u{19F7}\n\
KHMER SYMBOL PRAM-BEI ROC:\u{19F8}\n\
KHMER SYMBOL PRAM-BUON ROC:\u{19F9}\n\
KHMER SYMBOL DAP ROC:\u{19FA}\n\
KHMER SYMBOL DAP-MUOY ROC:\u{19FB}\n\
KHMER SYMBOL DAP-PII ROC:\u{19FC}\n\
KHMER SYMBOL DAP-BEI ROC:\u{19FD}\n\
KHMER SYMBOL DAP-BUON ROC:\u{19FE}\n\
KHMER SYMBOL DAP-PRAM ROC:\u{19FF}\n\
BUGINESE LETTER KA:\u{1A00}\n\
BUGINESE LETTER GA:\u{1A01}\n\
BUGINESE LETTER NGA:\u{1A02}\n\
BUGINESE LETTER NGKA:\u{1A03}\n\
BUGINESE LETTER PA:\u{1A04}\n\
BUGINESE LETTER BA:\u{1A05}\n\
BUGINESE LETTER MA:\u{1A06}\n\
BUGINESE LETTER MPA:\u{1A07}\n\
BUGINESE LETTER TA:\u{1A08}\n\
BUGINESE LETTER DA:\u{1A09}\n\
BUGINESE LETTER NA:\u{1A0A}\n\
BUGINESE LETTER NRA:\u{1A0B}\n\
BUGINESE LETTER CA:\u{1A0C}\n\
BUGINESE LETTER JA:\u{1A0D}\n\
BUGINESE LETTER NYA:\u{1A0E}\n\
BUGINESE LETTER NYCA:\u{1A0F}\n\
BUGINESE LETTER YA:\u{1A10}\n\
BUGINESE LETTER RA:\u{1A11}\n\
BUGINESE LETTER LA:\u{1A12}\n\
BUGINESE LETTER VA:\u{1A13}\n\
BUGINESE LETTER SA:\u{1A14}\n\
BUGINESE LETTER A:\u{1A15}\n\
BUGINESE LETTER HA:\u{1A16}\n\
BUGINESE VOWEL SIGN I:\u{1A17}\n\
BUGINESE VOWEL SIGN U:\u{1A18}\n\
BUGINESE VOWEL SIGN E:\u{1A19}\n\
BUGINESE VOWEL SIGN O:\u{1A1A}\n\
BUGINESE VOWEL SIGN AE:\u{1A1B}\n\
BUGINESE PALLAWA:\u{1A1E}\n\
BUGINESE END OF SECTION:\u{1A1F}\n\
TAI THAM LETTER HIGH KA:\u{1A20}\n\
TAI THAM LETTER HIGH KHA:\u{1A21}\n\
TAI THAM LETTER HIGH KXA:\u{1A22}\n\
TAI THAM LETTER LOW KA:\u{1A23}\n\
TAI THAM LETTER LOW KXA:\u{1A24}\n\
TAI THAM LETTER LOW KHA:\u{1A25}\n\
TAI THAM LETTER NGA:\u{1A26}\n\
TAI THAM LETTER HIGH CA:\u{1A27}\n\
TAI THAM LETTER HIGH CHA:\u{1A28}\n\
TAI THAM LETTER LOW CA:\u{1A29}\n\
TAI THAM LETTER LOW SA:\u{1A2A}\n\
TAI THAM LETTER LOW CHA:\u{1A2B}\n\
TAI THAM LETTER NYA:\u{1A2C}\n\
TAI THAM LETTER RATA:\u{1A2D}\n\
TAI THAM LETTER HIGH RATHA:\u{1A2E}\n\
TAI THAM LETTER DA:\u{1A2F}\n\
TAI THAM LETTER LOW RATHA:\u{1A30}\n\
TAI THAM LETTER RANA:\u{1A31}\n\
TAI THAM LETTER HIGH TA:\u{1A32}\n\
TAI THAM LETTER HIGH THA:\u{1A33}\n\
TAI THAM LETTER LOW TA:\u{1A34}\n\
TAI THAM LETTER LOW THA:\u{1A35}\n\
TAI THAM LETTER NA:\u{1A36}\n\
TAI THAM LETTER BA:\u{1A37}\n\
TAI THAM LETTER HIGH PA:\u{1A38}\n\
TAI THAM LETTER HIGH PHA:\u{1A39}\n\
TAI THAM LETTER HIGH FA:\u{1A3A}\n\
TAI THAM LETTER LOW PA:\u{1A3B}\n\
TAI THAM LETTER LOW FA:\u{1A3C}\n\
TAI THAM LETTER LOW PHA:\u{1A3D}\n\
TAI THAM LETTER MA:\u{1A3E}\n\
TAI THAM LETTER LOW YA:\u{1A3F}\n\
TAI THAM LETTER HIGH YA:\u{1A40}\n\
TAI THAM LETTER RA:\u{1A41}\n\
TAI THAM LETTER RUE:\u{1A42}\n\
TAI THAM LETTER LA:\u{1A43}\n\
TAI THAM LETTER LUE:\u{1A44}\n\
TAI THAM LETTER WA:\u{1A45}\n\
TAI THAM LETTER HIGH SHA:\u{1A46}\n\
TAI THAM LETTER HIGH SSA:\u{1A47}\n\
TAI THAM LETTER HIGH SA:\u{1A48}\n\
TAI THAM LETTER HIGH HA:\u{1A49}\n\
TAI THAM LETTER LLA:\u{1A4A}\n\
TAI THAM LETTER A:\u{1A4B}\n\
TAI THAM LETTER LOW HA:\u{1A4C}\n\
TAI THAM LETTER I:\u{1A4D}\n\
TAI THAM LETTER II:\u{1A4E}\n\
TAI THAM LETTER U:\u{1A4F}\n\
TAI THAM LETTER UU:\u{1A50}\n\
TAI THAM LETTER EE:\u{1A51}\n\
TAI THAM LETTER OO:\u{1A52}\n\
TAI THAM LETTER LAE:\u{1A53}\n\
TAI THAM LETTER GREAT SA:\u{1A54}\n\
TAI THAM CONSONANT SIGN MEDIAL RA:\u{1A55}\n\
TAI THAM CONSONANT SIGN MEDIAL LA:\u{1A56}\n\
TAI THAM CONSONANT SIGN LA TANG LAI:\u{1A57}\n\
TAI THAM SIGN MAI KANG LAI:\u{1A58}\n\
TAI THAM CONSONANT SIGN FINAL NGA:\u{1A59}\n\
TAI THAM CONSONANT SIGN LOW PA:\u{1A5A}\n\
TAI THAM CONSONANT SIGN HIGH RATHA OR LOW PA:\u{1A5B}\n\
TAI THAM CONSONANT SIGN MA:\u{1A5C}\n\
TAI THAM CONSONANT SIGN BA:\u{1A5D}\n\
TAI THAM CONSONANT SIGN SA:\u{1A5E}\n\
TAI THAM SIGN SAKOT:\u{1A60}\n\
TAI THAM VOWEL SIGN A:\u{1A61}\n\
TAI THAM VOWEL SIGN MAI SAT:\u{1A62}\n\
TAI THAM VOWEL SIGN AA:\u{1A63}\n\
TAI THAM VOWEL SIGN TALL AA:\u{1A64}\n\
TAI THAM VOWEL SIGN I:\u{1A65}\n\
TAI THAM VOWEL SIGN II:\u{1A66}\n\
TAI THAM VOWEL SIGN UE:\u{1A67}\n\
TAI THAM VOWEL SIGN UUE:\u{1A68}\n\
TAI THAM VOWEL SIGN U:\u{1A69}\n\
TAI THAM VOWEL SIGN UU:\u{1A6A}\n\
TAI THAM VOWEL SIGN O:\u{1A6B}\n\
TAI THAM VOWEL SIGN OA BELOW:\u{1A6C}\n\
TAI THAM VOWEL SIGN OY:\u{1A6D}\n\
TAI THAM VOWEL SIGN E:\u{1A6E}\n\
TAI THAM VOWEL SIGN AE:\u{1A6F}\n\
TAI THAM VOWEL SIGN OO:\u{1A70}\n\
TAI THAM VOWEL SIGN AI:\u{1A71}\n\
TAI THAM VOWEL SIGN THAM AI:\u{1A72}\n\
TAI THAM VOWEL SIGN OA ABOVE:\u{1A73}\n\
TAI THAM SIGN MAI KANG:\u{1A74}\n\
TAI THAM SIGN TONE-1:\u{1A75}\n\
TAI THAM SIGN TONE-2:\u{1A76}\n\
TAI THAM SIGN KHUEN TONE-3:\u{1A77}\n\
TAI THAM SIGN KHUEN TONE-4:\u{1A78}\n\
TAI THAM SIGN KHUEN TONE-5:\u{1A79}\n\
TAI THAM SIGN RA HAAM:\u{1A7A}\n\
TAI THAM SIGN MAI SAM:\u{1A7B}\n\
TAI THAM SIGN KHUEN-LUE KARAN:\u{1A7C}\n\
TAI THAM COMBINING CRYPTOGRAMMIC DOT:\u{1A7F}\n\
TAI THAM HORA DIGIT ZERO:\u{1A80}\n\
TAI THAM HORA DIGIT ONE:\u{1A81}\n\
TAI THAM HORA DIGIT TWO:\u{1A82}\n\
TAI THAM HORA DIGIT THREE:\u{1A83}\n\
TAI THAM HORA DIGIT FOUR:\u{1A84}\n\
TAI THAM HORA DIGIT FIVE:\u{1A85}\n\
TAI THAM HORA DIGIT SIX:\u{1A86}\n\
TAI THAM HORA DIGIT SEVEN:\u{1A87}\n\
TAI THAM HORA DIGIT EIGHT:\u{1A88}\n\
TAI THAM HORA DIGIT NINE:\u{1A89}\n\
TAI THAM THAM DIGIT ZERO:\u{1A90}\n\
TAI THAM THAM DIGIT ONE:\u{1A91}\n\
TAI THAM THAM DIGIT TWO:\u{1A92}\n\
TAI THAM THAM DIGIT THREE:\u{1A93}\n\
TAI THAM THAM DIGIT FOUR:\u{1A94}\n\
TAI THAM THAM DIGIT FIVE:\u{1A95}\n\
TAI THAM THAM DIGIT SIX:\u{1A96}\n\
TAI THAM THAM DIGIT SEVEN:\u{1A97}\n\
TAI THAM THAM DIGIT EIGHT:\u{1A98}\n\
TAI THAM THAM DIGIT NINE:\u{1A99}\n\
TAI THAM SIGN WIANG:\u{1AA0}\n\
TAI THAM SIGN WIANGWAAK:\u{1AA1}\n\
TAI THAM SIGN SAWAN:\u{1AA2}\n\
TAI THAM SIGN KEOW:\u{1AA3}\n\
TAI THAM SIGN HOY:\u{1AA4}\n\
TAI THAM SIGN DOKMAI:\u{1AA5}\n\
TAI THAM SIGN REVERSED ROTATED RANA:\u{1AA6}\n\
TAI THAM SIGN MAI YAMOK:\u{1AA7}\n\
TAI THAM SIGN KAAN:\u{1AA8}\n\
TAI THAM SIGN KAANKUU:\u{1AA9}\n\
TAI THAM SIGN SATKAAN:\u{1AAA}\n\
TAI THAM SIGN SATKAANKUU:\u{1AAB}\n\
TAI THAM SIGN HANG:\u{1AAC}\n\
TAI THAM SIGN CAANG:\u{1AAD}\n\
COMBINING DOUBLED CIRCUMFLEX ACCENT:\u{1AB0}\n\
COMBINING DIAERESIS-RING:\u{1AB1}\n\
COMBINING INFINITY:\u{1AB2}\n\
COMBINING DOWNWARDS ARROW:\u{1AB3}\n\
COMBINING TRIPLE DOT:\u{1AB4}\n\
COMBINING X-X BELOW:\u{1AB5}\n";

pub const NAMES_15: &'static str = "COMBINING WIGGLY LINE BELOW:\u{1AB6}\n\
COMBINING OPEN MARK BELOW:\u{1AB7}\n\
COMBINING DOUBLE OPEN MARK BELOW:\u{1AB8}\n\
COMBINING LIGHT CENTRALIZATION STROKE BELOW:\u{1AB9}\n\
COMBINING STRONG CENTRALIZATION STROKE BELOW:\u{1ABA}\n\
COMBINING PARENTHESES ABOVE:\u{1ABB}\n\
COMBINING DOUBLE PARENTHESES ABOVE:\u{1ABC}\n\
COMBINING PARENTHESES BELOW:\u{1ABD}\n\
COMBINING PARENTHESES OVERLAY:\u{1ABE}\n\
COMBINING LATIN SMALL LETTER W BELOW:\u{1ABF}\n\
COMBINING LATIN SMALL LETTER TURNED W BELOW:\u{1AC0}\n\
COMBINING LEFT PARENTHESIS ABOVE LEFT:\u{1AC1}\n\
COMBINING RIGHT PARENTHESIS ABOVE RIGHT:\u{1AC2}\n\
COMBINING LEFT PARENTHESIS BELOW LEFT:\u{1AC3}\n\
COMBINING RIGHT PARENTHESIS BELOW RIGHT:\u{1AC4}\n\
COMBINING SQUARE BRACKETS ABOVE:\u{1AC5}\n\
COMBINING NUMBER SIGN ABOVE:\u{1AC6}\n\
COMBINING INVERTED DOUBLE ARCH ABOVE:\u{1AC7}\n\
COMBINING PLUS SIGN ABOVE:\u{1AC8}\n\
COMBINING DOUBLE PLUS SIGN ABOVE:\u{1AC9}\n\
COMBINING DOUBLE PLUS SIGN BELOW:\u{1ACA}\n\
COMBINING TRIPLE ACUTE ACCENT:\u{1ACB}\n\
COMBINING LATIN SMALL LETTER INSULAR G:\u{1ACC}\n\
COMBINING LATIN SMALL LETTER INSULAR R:\u{1ACD}\n\
COMBINING LATIN SMALL LETTER INSULAR T:\u{1ACE}\n\
BALINESE SIGN ULU RICEM:\u{1B00}\n\
BALINESE SIGN ULU CANDRA:\u{1B01}\n\
BALINESE SIGN CECEK:\u{1B02}\n\
BALINESE SIGN SURANG:\u{1B03}\n\
BALINESE SIGN BISAH:\u{1B04}\n\
BALINESE LETTER AKARA:\u{1B05}\n\
BALINESE LETTER AKARA TEDUNG:\u{1B06}\n\
BALINESE LETTER IKARA:\u{1B07}\n\
BALINESE LETTER IKARA TEDUNG:\u{1B08}\n\
BALINESE LETTER UKARA:\u{1B09}\n\
BALINESE LETTER UKARA TEDUNG:\u{1B0A}\n\
BALINESE LETTER RA REPA:\u{1B0B}\n\
BALINESE LETTER RA REPA TEDUNG:\u{1B0C}\n\
BALINESE LETTER LA LENGA:\u{1B0D}\n\
BALINESE LETTER LA LENGA TEDUNG:\u{1B0E}\n\
BALINESE LETTER EKARA:\u{1B0F}\n\
BALINESE LETTER AIKARA:\u{1B10}\n\
BALINESE LETTER OKARA:\u{1B11}\n\
BALINESE LETTER OKARA TEDUNG:\u{1B12}\n\
BALINESE LETTER KA:\u{1B13}\n\
BALINESE LETTER KA MAHAPRANA:\u{1B14}\n\
BALINESE LETTER GA:\u{1B15}\n\
BALINESE LETTER GA GORA:\u{1B16}\n\
BALINESE LETTER NGA:\u{1B17}\n\
BALINESE LETTER CA:\u{1B18}\n\
BALINESE LETTER CA LACA:\u{1B19}\n\
BALINESE LETTER JA:\u{1B1A}\n\
BALINESE LETTER JA JERA:\u{1B1B}\n\
BALINESE LETTER NYA:\u{1B1C}\n\
BALINESE LETTER TA LATIK:\u{1B1D}\n\
BALINESE LETTER TA MURDA MAHAPRANA:\u{1B1E}\n\
BALINESE LETTER DA MURDA ALPAPRANA:\u{1B1F}\n\
BALINESE LETTER DA MURDA MAHAPRANA:\u{1B20}\n\
BALINESE LETTER NA RAMBAT:\u{1B21}\n\
BALINESE LETTER TA:\u{1B22}\n\
BALINESE LETTER TA TAWA:\u{1B23}\n\
BALINESE LETTER DA:\u{1B24}\n\
BALINESE LETTER DA MADU:\u{1B25}\n\
BALINESE LETTER NA:\u{1B26}\n\
BALINESE LETTER PA:\u{1B27}\n\
BALINESE LETTER PA KAPAL:\u{1B28}\n\
BALINESE LETTER BA:\u{1B29}\n\
BALINESE LETTER BA KEMBANG:\u{1B2A}\n\
BALINESE LETTER MA:\u{1B2B}\n\
BALINESE LETTER YA:\u{1B2C}\n\
BALINESE LETTER RA:\u{1B2D}\n\
BALINESE LETTER LA:\u{1B2E}\n\
BALINESE LETTER WA:\u{1B2F}\n\
BALINESE LETTER SA SAGA:\u{1B30}\n\
BALINESE LETTER SA SAPA:\u{1B31}\n\
BALINESE LETTER SA:\u{1B32}\n\
BALINESE LETTER HA:\u{1B33}\n\
BALINESE SIGN REREKAN:\u{1B34}\n\
BALINESE VOWEL SIGN TEDUNG:\u{1B35}\n\
BALINESE VOWEL SIGN ULU:\u{1B36}\n\
BALINESE VOWEL SIGN ULU SARI:\u{1B37}\n\
BALINESE VOWEL SIGN SUKU:\u{1B38}\n\
BALINESE VOWEL SIGN SUKU ILUT:\u{1B39}\n\
BALINESE VOWEL SIGN RA REPA:\u{1B3A}\n\
BALINESE VOWEL SIGN RA REPA TEDUNG:\u{1B3B}\n\
BALINESE VOWEL SIGN LA LENGA:\u{1B3C}\n\
BALINESE VOWEL SIGN LA LENGA TEDUNG:\u{1B3D}\n\
BALINESE VOWEL SIGN TALING:\u{1B3E}\n\
BALINESE VOWEL SIGN TALING REPA:\u{1B3F}\n\
BALINESE VOWEL SIGN TALING TEDUNG:\u{1B40}\n\
BALINESE VOWEL SIGN TALING REPA TEDUNG:\u{1B41}\n\
BALINESE VOWEL SIGN PEPET:\u{1B42}\n\
BALINESE VOWEL SIGN PEPET TEDUNG:\u{1B43}\n\
BALINESE ADEG ADEG:\u{1B44}\n\
BALINESE LETTER KAF SASAK:\u{1B45}\n\
BALINESE LETTER KHOT SASAK:\u{1B46}\n\
BALINESE LETTER TZIR SASAK:\u{1B47}\n\
BALINESE LETTER EF SASAK:\u{1B48}\n\
BALINESE LETTER VE SASAK:\u{1B49}\n\
BALINESE LETTER ZAL SASAK:\u{1B4A}\n\
BALINESE LETTER ASYURA SASAK:\u{1B4B}\n\
BALINESE LETTER ARCHAIC JNYA:\u{1B4C}\n\
BALINESE DIGIT ZERO:\u{1B50}\n\
BALINESE DIGIT ONE:\u{1B51}\n\
BALINESE DIGIT TWO:\u{1B52}\n\
BALINESE DIGIT THREE:\u{1B53}\n\
BALINESE DIGIT FOUR:\u{1B54}\n\
BALINESE DIGIT FIVE:\u{1B55}\n\
BALINESE DIGIT SIX:\u{1B56}\n\
BALINESE DIGIT SEVEN:\u{1B57}\n\
BALINESE DIGIT EIGHT:\u{1B58}\n\
BALINESE DIGIT NINE:\u{1B59}\n\
BALINESE PANTI:\u{1B5A}\n\
BALINESE PAMADA:\u{1B5B}\n\
BALINESE WINDU:\u{1B5C}\n\
BALINESE CARIK PAMUNGKAH:\u{1B5D}\n\
BALINESE CARIK SIKI:\u{1B5E}\n\
BALINESE CARIK PAREREN:\u{1B5F}\n\
BALINESE PAMENENG:\u{1B60}\n\
BALINESE MUSICAL SYMBOL DONG:\u{1B61}\n\
BALINESE MUSICAL SYMBOL DENG:\u{1B62}\n\
BALINESE MUSICAL SYMBOL DUNG:\u{1B63}\n\
BALINESE MUSICAL SYMBOL DANG:\u{1B64}\n\
BALINESE MUSICAL SYMBOL DANG SURANG:\u{1B65}\n\
BALINESE MUSICAL SYMBOL DING:\u{1B66}\n\
BALINESE MUSICAL SYMBOL DAENG:\u{1B67}\n\
BALINESE MUSICAL SYMBOL DEUNG:\u{1B68}\n\
BALINESE MUSICAL SYMBOL DAING:\u{1B69}\n\
BALINESE MUSICAL SYMBOL DANG GEDE:\u{1B6A}\n\
BALINESE MUSICAL SYMBOL COMBINING TEGEH:\u{1B6B}\n\
BALINESE MUSICAL SYMBOL COMBINING ENDEP:\u{1B6C}\n\
BALINESE MUSICAL SYMBOL COMBINING KEMPUL:\u{1B6D}\n\
BALINESE MUSICAL SYMBOL COMBINING KEMPLI:\u{1B6E}\n\
BALINESE MUSICAL SYMBOL COMBINING JEGOGAN:\u{1B6F}\n\
BALINESE MUSICAL SYMBOL COMBINING KEMPUL WITH JEGOGAN:\u{1B70}\n\
BALINESE MUSICAL SYMBOL COMBINING KEMPLI WITH JEGOGAN:\u{1B71}\n\
BALINESE MUSICAL SYMBOL COMBINING BENDE:\u{1B72}\n\
BALINESE MUSICAL SYMBOL COMBINING GONG:\u{1B73}\n\
BALINESE MUSICAL SYMBOL RIGHT-HAND OPEN DUG:\u{1B74}\n\
BALINESE MUSICAL SYMBOL RIGHT-HAND OPEN DAG:\u{1B75}\n\
BALINESE MUSICAL SYMBOL RIGHT-HAND CLOSED TUK:\u{1B76}\n\
BALINESE MUSICAL SYMBOL RIGHT-HAND CLOSED TAK:\u{1B77}\n\
BALINESE MUSICAL SYMBOL LEFT-HAND OPEN PANG:\u{1B78}\n\
BALINESE MUSICAL SYMBOL LEFT-HAND OPEN PUNG:\u{1B79}\n\
BALINESE MUSICAL SYMBOL LEFT-HAND CLOSED PLAK:\u{1B7A}\n\
BALINESE MUSICAL SYMBOL LEFT-HAND CLOSED PLUK:\u{1B7B}\n\
BALINESE MUSICAL SYMBOL LEFT-HAND OPEN PING:\u{1B7C}\n\
BALINESE PANTI LANTANG:\u{1B7D}\n\
BALINESE PAMADA LANTANG:\u{1B7E}\n\
SUNDANESE SIGN PANYECEK:\u{1B80}\n\
SUNDANESE SIGN PANGLAYAR:\u{1B81}\n\
SUNDANESE SIGN PANGWISAD:\u{1B82}\n\
SUNDANESE LETTER A:\u{1B83}\n\
SUNDANESE LETTER I:\u{1B84}\n\
SUNDANESE LETTER U:\u{1B85}\n\
SUNDANESE LETTER AE:\u{1B86}\n\
SUNDANESE LETTER O:\u{1B87}\n\
SUNDANESE LETTER E:\u{1B88}\n\
SUNDANESE LETTER EU:\u{1B89}\n\
SUNDANESE LETTER KA:\u{1B8A}\n\
SUNDANESE LETTER QA:\u{1B8B}\n\
SUNDANESE LETTER GA:\u{1B8C}\n\
SUNDANESE LETTER NGA:\u{1B8D}\n\
SUNDANESE LETTER CA:\u{1B8E}\n\
SUNDANESE LETTER JA:\u{1B8F}\n\
SUNDANESE LETTER ZA:\u{1B90}\n\
SUNDANESE LETTER NYA:\u{1B91}\n\
SUNDANESE LETTER TA:\u{1B92}\n\
SUNDANESE LETTER DA:\u{1B93}\n\
SUNDANESE LETTER NA:\u{1B94}\n\
SUNDANESE LETTER PA:\u{1B95}\n\
SUNDANESE LETTER FA:\u{1B96}\n\
SUNDANESE LETTER VA:\u{1B97}\n\
SUNDANESE LETTER BA:\u{1B98}\n\
SUNDANESE LETTER MA:\u{1B99}\n\
SUNDANESE LETTER YA:\u{1B9A}\n\
SUNDANESE LETTER RA:\u{1B9B}\n\
SUNDANESE LETTER LA:\u{1B9C}\n\
SUNDANESE LETTER WA:\u{1B9D}\n\
SUNDANESE LETTER SA:\u{1B9E}\n\
SUNDANESE LETTER XA:\u{1B9F}\n\
SUNDANESE LETTER HA:\u{1BA0}\n\
SUNDANESE CONSONANT SIGN PAMINGKAL:\u{1BA1}\n\
SUNDANESE CONSONANT SIGN PANYAKRA:\u{1BA2}\n\
SUNDANESE CONSONANT SIGN PANYIKU:\u{1BA3}\n\
SUNDANESE VOWEL SIGN PANGHULU:\u{1BA4}\n\
SUNDANESE VOWEL SIGN PANYUKU:\u{1BA5}\n\
SUNDANESE VOWEL SIGN PANAELAENG:\u{1BA6}\n\
SUNDANESE VOWEL SIGN PANOLONG:\u{1BA7}\n\
SUNDANESE VOWEL SIGN PAMEPET:\u{1BA8}\n\
SUNDANESE VOWEL SIGN PANEULEUNG:\u{1BA9}\n\
SUNDANESE SIGN PAMAAEH:\u{1BAA}\n\
SUNDANESE SIGN VIRAMA:\u{1BAB}\n\
SUNDANESE CONSONANT SIGN PASANGAN MA:\u{1BAC}\n\
SUNDANESE CONSONANT SIGN PASANGAN WA:\u{1BAD}\n\
SUNDANESE LETTER KHA:\u{1BAE}\n\
SUNDANESE LETTER SYA:\u{1BAF}\n\
SUNDANESE DIGIT ZERO:\u{1BB0}\n\
SUNDANESE DIGIT ONE:\u{1BB1}\n\
SUNDANESE DIGIT TWO:\u{1BB2}\n\
SUNDANESE DIGIT THREE:\u{1BB3}\n\
SUNDANESE DIGIT FOUR:\u{1BB4}\n\
SUNDANESE DIGIT FIVE:\u{1BB5}\n\
SUNDANESE DIGIT SIX:\u{1BB6}\n\
SUNDANESE DIGIT SEVEN:\u{1BB7}\n\
SUNDANESE DIGIT EIGHT:\u{1BB8}\n\
SUNDANESE DIGIT NINE:\u{1BB9}\n\
SUNDANESE AVAGRAHA:\u{1BBA}\n\
SUNDANESE LETTER REU:\u{1BBB}\n\
SUNDANESE LETTER LEU:\u{1BBC}\n\
SUNDANESE LETTER BHA:\u{1BBD}\n\
SUNDANESE LETTER FINAL K:\u{1BBE}\n\
SUNDANESE LETTER FINAL M:\u{1BBF}\n\
BATAK LETTER A:\u{1BC0}\n\
BATAK LETTER SIMALUNGUN A:\u{1BC1}\n\
BATAK LETTER HA:\u{1BC2}\n\
BATAK LETTER SIMALUNGUN HA:\u{1BC3}\n\
BATAK LETTER MANDAILING HA:\u{1BC4}\n\
BATAK LETTER BA:\u{1BC5}\n\
BATAK LETTER KARO BA:\u{1BC6}\n\
BATAK LETTER PA:\u{1BC7}\n\
BATAK LETTER SIMALUNGUN PA:\u{1BC8}\n\
BATAK LETTER NA:\u{1BC9}\n\
BATAK LETTER MANDAILING NA:\u{1BCA}\n\
BATAK LETTER WA:\u{1BCB}\n\
BATAK LETTER SIMALUNGUN WA:\u{1BCC}\n\
BATAK LETTER PAKPAK WA:\u{1BCD}\n\
BATAK LETTER GA:\u{1BCE}\n\
BATAK LETTER SIMALUNGUN GA:\u{1BCF}\n\
BATAK LETTER JA:\u{1BD0}\n\
BATAK LETTER DA:\u{1BD1}\n\
BATAK LETTER RA:\u{1BD2}\n\
BATAK LETTER SIMALUNGUN RA:\u{1BD3}\n\
BATAK LETTER MA:\u{1BD4}\n\
BATAK LETTER SIMALUNGUN MA:\u{1BD5}\n\
BATAK LETTER SOUTHERN TA:\u{1BD6}\n\
BATAK LETTER NORTHERN TA:\u{1BD7}\n\
BATAK LETTER SA:\u{1BD8}\n\
BATAK LETTER SIMALUNGUN SA:\u{1BD9}\n\
BATAK LETTER MANDAILING SA:\u{1BDA}\n\
BATAK LETTER YA:\u{1BDB}\n\
BATAK LETTER SIMALUNGUN YA:\u{1BDC}\n\
BATAK LETTER NGA:\u{1BDD}\n\
BATAK LETTER LA:\u{1BDE}\n\
BATAK LETTER SIMALUNGUN LA:\u{1BDF}\n\
BATAK LETTER NYA:\u{1BE0}\n\
BATAK LETTER CA:\u{1BE1}\n\
BATAK LETTER NDA:\u{1BE2}\n\
BATAK LETTER MBA:\u{1BE3}\n\
BATAK LETTER I:\u{1BE4}\n\
BATAK LETTER U:\u{1BE5}\n\
BATAK SIGN TOMPI:\u{1BE6}\n\
BATAK VOWEL SIGN E:\u{1BE7}\n\
BATAK VOWEL SIGN PAKPAK E:\u{1BE8}\n\
BATAK VOWEL SIGN EE:\u{1BE9}\n\
BATAK VOWEL SIGN I:\u{1BEA}\n\
BATAK VOWEL SIGN KARO I:\u{1BEB}\n\
BATAK VOWEL SIGN O:\u{1BEC}\n\
BATAK VOWEL SIGN KARO O:\u{1BED}\n\
BATAK VOWEL SIGN U:\u{1BEE}\n\
BATAK VOWEL SIGN U FOR SIMALUNGUN SA:\u{1BEF}\n\
BATAK CONSONANT SIGN NG:\u{1BF0}\n\
BATAK CONSONANT SIGN H:\u{1BF1}\n\
BATAK PANGOLAT:\u{1BF2}\n\
BATAK PANONGONAN:\u{1BF3}\n\
BATAK SYMBOL BINDU NA METEK:\u{1BFC}\n\
BATAK SYMBOL BINDU PINARBORAS:\u{1BFD}\n\
BATAK SYMBOL BINDU JUDUL:\u{1BFE}\n\
BATAK SYMBOL BINDU PANGOLAT:\u{1BFF}\n\
LEPCHA LETTER KA:\u{1C00}\n\
LEPCHA LETTER KLA:\u{1C01}\n\
LEPCHA LETTER KHA:\u{1C02}\n\
LEPCHA LETTER GA:\u{1C03}\n\
LEPCHA LETTER GLA:\u{1C04}\n\
LEPCHA LETTER NGA:\u{1C05}\n\
LEPCHA LETTER CA:\u{1C06}\n\
LEPCHA LETTER CHA:\u{1C07}\n\
LEPCHA LETTER JA:\u{1C08}\n\
LEPCHA LETTER NYA:\u{1C09}\n\
LEPCHA LETTER TA:\u{1C0A}\n\
LEPCHA LETTER THA:\u{1C0B}\n\
LEPCHA LETTER DA:\u{1C0C}\n\
LEPCHA LETTER NA:\u{1C0D}\n\
LEPCHA LETTER PA:\u{1C0E}\n\
LEPCHA LETTER PLA:\u{1C0F}\n\
LEPCHA LETTER PHA:\u{1C10}\n\
LEPCHA LETTER FA:\u{1C11}\n\
LEPCHA LETTER FLA:\u{1C12}\n\
LEPCHA LETTER BA:\u{1C13}\n\
LEPCHA LETTER BLA:\u{1C14}\n\
LEPCHA LETTER MA:\u{1C15}\n\
LEPCHA LETTER MLA:\u{1C16}\n\
LEPCHA LETTER TSA:\u{1C17}\n\
LEPCHA LETTER TSHA:\u{1C18}\n\
LEPCHA LETTER DZA:\u{1C19}\n\
LEPCHA LETTER YA:\u{1C1A}\n\
LEPCHA LETTER RA:\u{1C1B}\n\
LEPCHA LETTER LA:\u{1C1C}\n\
LEPCHA LETTER HA:\u{1C1D}\n\
LEPCHA LETTER HLA:\u{1C1E}\n\
LEPCHA LETTER VA:\u{1C1F}\n\
LEPCHA LETTER SA:\u{1C20}\n\
LEPCHA LETTER SHA:\u{1C21}\n\
LEPCHA LETTER WA:\u{1C22}\n\
LEPCHA LETTER A:\u{1C23}\n\
LEPCHA SUBJOINED LETTER YA:\u{1C24}\n\
LEPCHA SUBJOINED LETTER RA:\u{1C25}\n\
LEPCHA VOWEL SIGN AA:\u{1C26}\n\
LEPCHA VOWEL SIGN I:\u{1C27}\n\
LEPCHA VOWEL SIGN O:\u{1C28}\n\
LEPCHA VOWEL SIGN OO:\u{1C29}\n\
LEPCHA VOWEL SIGN U:\u{1C2A}\n\
LEPCHA VOWEL SIGN UU:\u{1C2B}\n\
LEPCHA VOWEL SIGN E:\u{1C2C}\n\
LEPCHA CONSONANT SIGN K:\u{1C2D}\n\
LEPCHA CONSONANT SIGN M:\u{1C2E}\n\
LEPCHA CONSONANT SIGN L:\u{1C2F}\n\
LEPCHA CONSONANT SIGN N:\u{1C30}\n\
LEPCHA CONSONANT SIGN P:\u{1C31}\n\
LEPCHA CONSONANT SIGN R:\u{1C32}\n\
LEPCHA CONSONANT SIGN T:\u{1C33}\n\
LEPCHA CONSONANT SIGN NYIN-DO:\u{1C34}\n\
LEPCHA CONSONANT SIGN KANG:\u{1C35}\n\
LEPCHA SIGN RAN:\u{1C36}\n\
LEPCHA SIGN NUKTA:\u{1C37}\n\
LEPCHA PUNCTUATION TA-ROL:\u{1C3B}\n\
LEPCHA PUNCTUATION NYET THYOOM TA-ROL:\u{1C3C}\n\
LEPCHA PUNCTUATION CER-WA:\u{1C3D}\n\
LEPCHA PUNCTUATION TSHOOK CER-WA:\u{1C3E}\n\
LEPCHA PUNCTUATION TSHOOK:\u{1C3F}\n\
LEPCHA DIGIT ZERO:\u{1C40}\n\
LEPCHA DIGIT ONE:\u{1C41}\n\
LEPCHA DIGIT TWO:\u{1C42}\n\
LEPCHA DIGIT THREE:\u{1C43}\n\
LEPCHA DIGIT FOUR:\u{1C44}\n\
LEPCHA DIGIT FIVE:\u{1C45}\n\
LEPCHA DIGIT SIX:\u{1C46}\n\
LEPCHA DIGIT SEVEN:\u{1C47}\n\
LEPCHA DIGIT EIGHT:\u{1C48}\n\
LEPCHA DIGIT NINE:\u{1C49}\n\
LEPCHA LETTER TTA:\u{1C4D}\n\
LEPCHA LETTER TTHA:\u{1C4E}\n\
LEPCHA LETTER DDA:\u{1C4F}\n\
OL CHIKI DIGIT ZERO:\u{1C50}\n\
OL CHIKI DIGIT ONE:\u{1C51}\n\
OL CHIKI DIGIT TWO:\u{1C52}\n\
OL CHIKI DIGIT THREE:\u{1C53}\n\
OL CHIKI DIGIT FOUR:\u{1C54}\n\
OL CHIKI DIGIT FIVE:\u{1C55}\n\
OL CHIKI DIGIT SIX:\u{1C56}\n\
OL CHIKI DIGIT SEVEN:\u{1C57}\n\
OL CHIKI DIGIT EIGHT:\u{1C58}\n\
OL CHIKI DIGIT NINE:\u{1C59}\n\
OL CHIKI LETTER LA:\u{1C5A}\n\
OL CHIKI LETTER AT:\u{1C5B}\n\
OL CHIKI LETTER AG:\u{1C5C}\n\
OL CHIKI LETTER ANG:\u{1C5D}\n\
OL CHIKI LETTER AL:\u{1C5E}\n\
OL CHIKI LETTER LAA:\u{1C5F}\n\
OL CHIKI LETTER AAK:\u{1C60}\n\
OL CHIKI LETTER AAJ:\u{1C61}\n\
OL CHIKI LETTER AAM:\u{1C62}\n\
OL CHIKI LETTER AAW:\u{1C63}\n\
OL CHIKI LETTER LI:\u{1C64}\n\
OL CHIKI LETTER IS:\u{1C65}\n\
OL CHIKI LETTER IH:\u{1C66}\n\
OL CHIKI LETTER INY:\u{1C67}\n\
OL CHIKI LETTER IR:\u{1C68}\n\
OL CHIKI LETTER LU:\u{1C69}\n\
OL CHIKI LETTER UC:\u{1C6A}\n\
OL CHIKI LETTER UD:\u{1C6B}\n\
OL CHIKI LETTER UNN:\u{1C6C}\n\
OL CHIKI LETTER UY:\u{1C6D}\n\
OL CHIKI LETTER LE:\u{1C6E}\n\
OL CHIKI LETTER EP:\u{1C6F}\n\
OL CHIKI LETTER EDD:\u{1C70}\n\
OL CHIKI LETTER EN:\u{1C71}\n\
OL CHIKI LETTER ERR:\u{1C72}\n\
OL CHIKI LETTER LO:\u{1C73}\n\
OL CHIKI LETTER OTT:\u{1C74}\n\
OL CHIKI LETTER OB:\u{1C75}\n\
OL CHIKI LETTER OV:\u{1C76}\n\
OL CHIKI LETTER OH:\u{1C77}\n\
OL CHIKI MU TTUDDAG:\u{1C78}\n\
OL CHIKI GAAHLAA TTUDDAAG:\u{1C79}\n\
OL CHIKI MU-GAAHLAA TTUDDAAG:\u{1C7A}\n\
OL CHIKI RELAA:\u{1C7B}\n\
OL CHIKI PHAARKAA:\u{1C7C}\n\
OL CHIKI AHAD:\u{1C7D}\n\
OL CHIKI PUNCTUATION MUCAAD:\u{1C7E}\n\
OL CHIKI PUNCTUATION DOUBLE MUCAAD:\u{1C7F}\n\
CYRILLIC SMALL LETTER ROUNDED VE:\u{1C80}\n\
CYRILLIC SMALL LETTER LONG-LEGGED DE:\u{1C81}\n\
CYRILLIC SMALL LETTER NARROW O:\u{1C82}\n\
CYRILLIC SMALL LETTER WIDE ES:\u{1C83}\n\
CYRILLIC SMALL LETTER TALL TE:\u{1C84}\n\
CYRILLIC SMALL LETTER THREE-LEGGED TE:\u{1C85}\n\
CYRILLIC SMALL LETTER TALL HARD SIGN:\u{1C86}\n\
CYRILLIC SMALL LETTER TALL YAT:\u{1C87}\n\
CYRILLIC SMALL LETTER UNBLENDED UK:\u{1C88}\n\
GEORGIAN MTAVRULI CAPITAL LETTER AN:\u{1C90}\n\
GEORGIAN MTAVRULI CAPITAL LETTER BAN:\u{1C91}\n\
GEORGIAN MTAVRULI CAPITAL LETTER GAN:\u{1C92}\n\
GEORGIAN MTAVRULI CAPITAL LETTER DON:\u{1C93}\n\
GEORGIAN MTAVRULI CAPITAL LETTER EN:\u{1C94}\n\
GEORGIAN MTAVRULI CAPITAL LETTER VIN:\u{1C95}\n\
GEORGIAN MTAVRULI CAPITAL LETTER ZEN:\u{1C96}\n\
GEORGIAN MTAVRULI CAPITAL LETTER TAN:\u{1C97}\n\
GEORGIAN MTAVRULI CAPITAL LETTER IN:\u{1C98}\n\
GEORGIAN MTAVRULI CAPITAL LETTER KAN:\u{1C99}\n";

pub const NAMES_16: &'static str = "GEORGIAN MTAVRULI CAPITAL LETTER LAS:\u{1C9A}\n\
GEORGIAN MTAVRULI CAPITAL LETTER MAN:\u{1C9B}\n\
GEORGIAN MTAVRULI CAPITAL LETTER NAR:\u{1C9C}\n\
GEORGIAN MTAVRULI CAPITAL LETTER ON:\u{1C9D}\n\
GEORGIAN MTAVRULI CAPITAL LETTER PAR:\u{1C9E}\n\
GEORGIAN MTAVRULI CAPITAL LETTER ZHAR:\u{1C9F}\n\
GEORGIAN MTAVRULI CAPITAL LETTER RAE:\u{1CA0}\n\
GEORGIAN MTAVRULI CAPITAL LETTER SAN:\u{1CA1}\n\
GEORGIAN MTAVRULI CAPITAL LETTER TAR:\u{1CA2}\n\
GEORGIAN MTAVRULI CAPITAL LETTER UN:\u{1CA3}\n\
GEORGIAN MTAVRULI CAPITAL LETTER PHAR:\u{1CA4}\n\
GEORGIAN MTAVRULI CAPITAL LETTER KHAR:\u{1CA5}\n\
GEORGIAN MTAVRULI CAPITAL LETTER GHAN:\u{1CA6}\n\
GEORGIAN MTAVRULI CAPITAL LETTER QAR:\u{1CA7}\n\
GEORGIAN MTAVRULI CAPITAL LETTER SHIN:\u{1CA8}\n\
GEORGIAN MTAVRULI CAPITAL LETTER CHIN:\u{1CA9}\n\
GEORGIAN MTAVRULI CAPITAL LETTER CAN:\u{1CAA}\n\
GEORGIAN MTAVRULI CAPITAL LETTER JIL:\u{1CAB}\n\
GEORGIAN MTAVRULI CAPITAL LETTER CIL:\u{1CAC}\n\
GEORGIAN MTAVRULI CAPITAL LETTER CHAR:\u{1CAD}\n\
GEORGIAN MTAVRULI CAPITAL LETTER XAN:\u{1CAE}\n\
GEORGIAN MTAVRULI CAPITAL LETTER JHAN:\u{1CAF}\n\
GEORGIAN MTAVRULI CAPITAL LETTER HAE:\u{1CB0}\n\
GEORGIAN MTAVRULI CAPITAL LETTER HE:\u{1CB1}\n\
GEORGIAN MTAVRULI CAPITAL LETTER HIE:\u{1CB2}\n\
GEORGIAN MTAVRULI CAPITAL LETTER WE:\u{1CB3}\n\
GEORGIAN MTAVRULI CAPITAL LETTER HAR:\u{1CB4}\n\
GEORGIAN MTAVRULI CAPITAL LETTER HOE:\u{1CB5}\n\
GEORGIAN MTAVRULI CAPITAL LETTER FI:\u{1CB6}\n\
GEORGIAN MTAVRULI CAPITAL LETTER YN:\u{1CB7}\n\
GEORGIAN MTAVRULI CAPITAL LETTER ELIFI:\u{1CB8}\n\
GEORGIAN MTAVRULI CAPITAL LETTER TURNED GAN:\u{1CB9}\n\
GEORGIAN MTAVRULI CAPITAL LETTER AIN:\u{1CBA}\n\
GEORGIAN MTAVRULI CAPITAL LETTER AEN:\u{1CBD}\n\
GEORGIAN MTAVRULI CAPITAL LETTER HARD SIGN:\u{1CBE}\n\
GEORGIAN MTAVRULI CAPITAL LETTER LABIAL SIGN:\u{1CBF}\n\
SUNDANESE PUNCTUATION BINDU SURYA:\u{1CC0}\n\
SUNDANESE PUNCTUATION BINDU PANGLONG:\u{1CC1}\n\
SUNDANESE PUNCTUATION BINDU PURNAMA:\u{1CC2}\n\
SUNDANESE PUNCTUATION BINDU CAKRA:\u{1CC3}\n\
SUNDANESE PUNCTUATION BINDU LEU SATANGA:\u{1CC4}\n\
SUNDANESE PUNCTUATION BINDU KA SATANGA:\u{1CC5}\n\
SUNDANESE PUNCTUATION BINDU DA SATANGA:\u{1CC6}\n\
SUNDANESE PUNCTUATION BINDU BA SATANGA:\u{1CC7}\n\
VEDIC TONE KARSHANA:\u{1CD0}\n\
VEDIC TONE SHARA:\u{1CD1}\n\
VEDIC TONE PRENKHA:\u{1CD2}\n\
VEDIC SIGN NIHSHVASA:\u{1CD3}\n\
VEDIC SIGN YAJURVEDIC MIDLINE SVARITA:\u{1CD4}\n\
VEDIC TONE YAJURVEDIC AGGRAVATED INDEPENDENT SVARITA:\u{1CD5}\n\
VEDIC TONE YAJURVEDIC INDEPENDENT SVARITA:\u{1CD6}\n\
VEDIC TONE YAJURVEDIC KATHAKA INDEPENDENT SVARITA:\u{1CD7}\n\
VEDIC TONE CANDRA BELOW:\u{1CD8}\n\
VEDIC TONE YAJURVEDIC KATHAKA INDEPENDENT SVARITA SCHROEDER:\u{1CD9}\n\
VEDIC TONE DOUBLE SVARITA:\u{1CDA}\n\
VEDIC TONE TRIPLE SVARITA:\u{1CDB}\n\
VEDIC TONE KATHAKA ANUDATTA:\u{1CDC}\n\
VEDIC TONE DOT BELOW:\u{1CDD}\n\
VEDIC TONE TWO DOTS BELOW:\u{1CDE}\n\
VEDIC TONE THREE DOTS BELOW:\u{1CDF}\n\
VEDIC TONE RIGVEDIC KASHMIRI INDEPENDENT SVARITA:\u{1CE0}\n\
VEDIC TONE ATHARVAVEDIC INDEPENDENT SVARITA:\u{1CE1}\n\
VEDIC SIGN VISARGA SVARITA:\u{1CE2}\n\
VEDIC SIGN VISARGA UDATTA:\u{1CE3}\n\
VEDIC SIGN REVERSED VISARGA UDATTA:\u{1CE4}\n\
VEDIC SIGN VISARGA ANUDATTA:\u{1CE5}\n\
VEDIC SIGN REVERSED VISARGA ANUDATTA:\u{1CE6}\n\
VEDIC SIGN VISARGA UDATTA WITH TAIL:\u{1CE7}\n\
VEDIC SIGN VISARGA ANUDATTA WITH TAIL:\u{1CE8}\n\
VEDIC SIGN ANUSVARA ANTARGOMUKHA:\u{1CE9}\n\
VEDIC SIGN ANUSVARA BAHIRGOMUKHA:\u{1CEA}\n\
VEDIC SIGN ANUSVARA VAMAGOMUKHA:\u{1CEB}\n\
VEDIC SIGN ANUSVARA VAMAGOMUKHA WITH TAIL:\u{1CEC}\n\
VEDIC SIGN TIRYAK:\u{1CED}\n\
VEDIC SIGN HEXIFORM LONG ANUSVARA:\u{1CEE}\n\
VEDIC SIGN LONG ANUSVARA:\u{1CEF}\n\
VEDIC SIGN RTHANG LONG ANUSVARA:\u{1CF0}\n\
VEDIC SIGN ANUSVARA UBHAYATO MUKHA:\u{1CF1}\n\
VEDIC SIGN ARDHAVISARGA:\u{1CF2}\n\
VEDIC SIGN ROTATED ARDHAVISARGA:\u{1CF3}\n\
VEDIC TONE CANDRA ABOVE:\u{1CF4}\n\
VEDIC SIGN JIHVAMULIYA:\u{1CF5}\n\
VEDIC SIGN UPADHMANIYA:\u{1CF6}\n\
VEDIC SIGN ATIKRAMA:\u{1CF7}\n\
VEDIC TONE RING ABOVE:\u{1CF8}\n\
VEDIC TONE DOUBLE RING ABOVE:\u{1CF9}\n\
VEDIC SIGN DOUBLE ANUSVARA ANTARGOMUKHA:\u{1CFA}\n\
LATIN LETTER SMALL CAPITAL A:\u{1D00}\n\
LATIN LETTER SMALL CAPITAL AE:\u{1D01}\n\
LATIN SMALL LETTER TURNED AE:\u{1D02}\n\
LATIN LETTER SMALL CAPITAL BARRED B:\u{1D03}\n\
LATIN LETTER SMALL CAPITAL C:\u{1D04}\n\
LATIN LETTER SMALL CAPITAL D:\u{1D05}\n\
LATIN LETTER SMALL CAPITAL ETH:\u{1D06}\n\
LATIN LETTER SMALL CAPITAL E:\u{1D07}\n\
LATIN SMALL LETTER TURNED OPEN E:\u{1D08}\n\
LATIN SMALL LETTER TURNED I:\u{1D09}\n\
LATIN LETTER SMALL CAPITAL J:\u{1D0A}\n\
LATIN LETTER SMALL CAPITAL K:\u{1D0B}\n\
LATIN LETTER SMALL CAPITAL L WITH STROKE:\u{1D0C}\n\
LATIN LETTER SMALL CAPITAL M:\u{1D0D}\n\
LATIN LETTER SMALL CAPITAL REVERSED N:\u{1D0E}\n\
LATIN LETTER SMALL CAPITAL O:\u{1D0F}\n\
LATIN LETTER SMALL CAPITAL OPEN O:\u{1D10}\n\
LATIN SMALL LETTER SIDEWAYS O:\u{1D11}\n\
LATIN SMALL LETTER SIDEWAYS OPEN O:\u{1D12}\n\
LATIN SMALL LETTER SIDEWAYS O WITH STROKE:\u{1D13}\n\
LATIN SMALL LETTER TURNED OE:\u{1D14}\n\
LATIN LETTER SMALL CAPITAL OU:\u{1D15}\n\
LATIN SMALL LETTER TOP HALF O:\u{1D16}\n\
LATIN SMALL LETTER BOTTOM HALF O:\u{1D17}\n\
LATIN LETTER SMALL CAPITAL P:\u{1D18}\n\
LATIN LETTER SMALL CAPITAL REVERSED R:\u{1D19}\n\
LATIN LETTER SMALL CAPITAL TURNED R:\u{1D1A}\n\
LATIN LETTER SMALL CAPITAL T:\u{1D1B}\n\
LATIN LETTER SMALL CAPITAL U:\u{1D1C}\n\
LATIN SMALL LETTER SIDEWAYS U:\u{1D1D}\n\
LATIN SMALL LETTER SIDEWAYS DIAERESIZED U:\u{1D1E}\n\
LATIN SMALL LETTER SIDEWAYS TURNED M:\u{1D1F}\n\
LATIN LETTER SMALL CAPITAL V:\u{1D20}\n\
LATIN LETTER SMALL CAPITAL W:\u{1D21}\n\
LATIN LETTER SMALL CAPITAL Z:\u{1D22}\n\
LATIN LETTER SMALL CAPITAL EZH:\u{1D23}\n\
LATIN LETTER VOICED LARYNGEAL SPIRANT:\u{1D24}\n\
LATIN LETTER AIN:\u{1D25}\n\
GREEK LETTER SMALL CAPITAL GAMMA:\u{1D26}\n\
GREEK LETTER SMALL CAPITAL LAMDA:\u{1D27}\n\
GREEK LETTER SMALL CAPITAL PI:\u{1D28}\n\
GREEK LETTER SMALL CAPITAL RHO:\u{1D29}\n\
GREEK LETTER SMALL CAPITAL PSI:\u{1D2A}\n\
CYRILLIC LETTER SMALL CAPITAL EL:\u{1D2B}\n\
MODIFIER LETTER CAPITAL A:\u{1D2C}\n\
MODIFIER LETTER CAPITAL AE:\u{1D2D}\n\
MODIFIER LETTER CAPITAL B:\u{1D2E}\n\
MODIFIER LETTER CAPITAL BARRED B:\u{1D2F}\n\
MODIFIER LETTER CAPITAL D:\u{1D30}\n\
MODIFIER LETTER CAPITAL E:\u{1D31}\n\
MODIFIER LETTER CAPITAL REVERSED E:\u{1D32}\n\
MODIFIER LETTER CAPITAL G:\u{1D33}\n\
MODIFIER LETTER CAPITAL H:\u{1D34}\n\
MODIFIER LETTER CAPITAL I:\u{1D35}\n\
MODIFIER LETTER CAPITAL J:\u{1D36}\n\
MODIFIER LETTER CAPITAL K:\u{1D37}\n\
MODIFIER LETTER CAPITAL L:\u{1D38}\n\
MODIFIER LETTER CAPITAL M:\u{1D39}\n\
MODIFIER LETTER CAPITAL N:\u{1D3A}\n\
MODIFIER LETTER CAPITAL REVERSED N:\u{1D3B}\n\
MODIFIER LETTER CAPITAL O:\u{1D3C}\n\
MODIFIER LETTER CAPITAL OU:\u{1D3D}\n\
MODIFIER LETTER CAPITAL P:\u{1D3E}\n\
MODIFIER LETTER CAPITAL R:\u{1D3F}\n\
MODIFIER LETTER CAPITAL T:\u{1D40}\n\
MODIFIER LETTER CAPITAL U:\u{1D41}\n\
MODIFIER LETTER CAPITAL W:\u{1D42}\n\
MODIFIER LETTER SMALL A:\u{1D43}\n\
MODIFIER LETTER SMALL TURNED A:\u{1D44}\n\
MODIFIER LETTER SMALL ALPHA:\u{1D45}\n\
MODIFIER LETTER SMALL TURNED AE:\u{1D46}\n\
MODIFIER LETTER SMALL B:\u{1D47}\n\
MODIFIER LETTER SMALL D:\u{1D48}\n\
MODIFIER LETTER SMALL E:\u{1D49}\n\
MODIFIER LETTER SMALL SCHWA:\u{1D4A}\n\
MODIFIER LETTER SMALL OPEN E:\u{1D4B}\n\
MODIFIER LETTER SMALL TURNED OPEN E:\u{1D4C}\n\
MODIFIER LETTER SMALL G:\u{1D4D}\n\
MODIFIER LETTER SMALL TURNED I:\u{1D4E}\n\
MODIFIER LETTER SMALL K:\u{1D4F}\n\
MODIFIER LETTER SMALL M:\u{1D50}\n\
MODIFIER LETTER SMALL ENG:\u{1D51}\n\
MODIFIER LETTER SMALL O:\u{1D52}\n\
MODIFIER LETTER SMALL OPEN O:\u{1D53}\n\
MODIFIER LETTER SMALL TOP HALF O:\u{1D54}\n\
MODIFIER LETTER SMALL BOTTOM HALF O:\u{1D55}\n\
MODIFIER LETTER SMALL P:\u{1D56}\n\
MODIFIER LETTER SMALL T:\u{1D57}\n\
MODIFIER LETTER SMALL U:\u{1D58}\n\
MODIFIER LETTER SMALL SIDEWAYS U:\u{1D59}\n\
MODIFIER LETTER SMALL TURNED M:\u{1D5A}\n\
MODIFIER LETTER SMALL V:\u{1D5B}\n\
MODIFIER LETTER SMALL AIN:\u{1D5C}\n\
MODIFIER LETTER SMALL BETA:\u{1D5D}\n\
MODIFIER LETTER SMALL GREEK GAMMA:\u{1D5E}\n\
MODIFIER LETTER SMALL DELTA:\u{1D5F}\n\
MODIFIER LETTER SMALL GREEK PHI:\u{1D60}\n\
MODIFIER LETTER SMALL CHI:\u{1D61}\n\
LATIN SUBSCRIPT SMALL LETTER I:\u{1D62}\n\
LATIN SUBSCRIPT SMALL LETTER R:\u{1D63}\n\
LATIN SUBSCRIPT SMALL LETTER U:\u{1D64}\n\
LATIN SUBSCRIPT SMALL LETTER V:\u{1D65}\n\
GREEK SUBSCRIPT SMALL LETTER BETA:\u{1D66}\n\
GREEK SUBSCRIPT SMALL LETTER GAMMA:\u{1D67}\n\
GREEK SUBSCRIPT SMALL LETTER RHO:\u{1D68}\n\
GREEK SUBSCRIPT SMALL LETTER PHI:\u{1D69}\n\
GREEK SUBSCRIPT SMALL LETTER CHI:\u{1D6A}\n\
LATIN SMALL LETTER UE:\u{1D6B}\n\
LATIN SMALL LETTER B WITH MIDDLE TILDE:\u{1D6C}\n\
LATIN SMALL LETTER D WITH MIDDLE TILDE:\u{1D6D}\n\
LATIN SMALL LETTER F WITH MIDDLE TILDE:\u{1D6E}\n\
LATIN SMALL LETTER M WITH MIDDLE TILDE:\u{1D6F}\n\
LATIN SMALL LETTER N WITH MIDDLE TILDE:\u{1D70}\n\
LATIN SMALL LETTER P WITH MIDDLE TILDE:\u{1D71}\n\
LATIN SMALL LETTER R WITH MIDDLE TILDE:\u{1D72}\n\
LATIN SMALL LETTER R WITH FISHHOOK AND MIDDLE TILDE:\u{1D73}\n\
LATIN SMALL LETTER S WITH MIDDLE TILDE:\u{1D74}\n\
LATIN SMALL LETTER T WITH MIDDLE TILDE:\u{1D75}\n\
LATIN SMALL LETTER Z WITH MIDDLE TILDE:\u{1D76}\n\
LATIN SMALL LETTER TURNED G:\u{1D77}\n\
MODIFIER LETTER CYRILLIC EN:\u{1D78}\n\
LATIN SMALL LETTER INSULAR G:\u{1D79}\n\
LATIN SMALL LETTER TH WITH STRIKETHROUGH:\u{1D7A}\n\
LATIN SMALL CAPITAL LETTER I WITH STROKE:\u{1D7B}\n\
LATIN SMALL LETTER IOTA WITH STROKE:\u{1D7C}\n\
LATIN SMALL LETTER P WITH STROKE:\u{1D7D}\n\
LATIN SMALL CAPITAL LETTER U WITH STROKE:\u{1D7E}\n\
LATIN SMALL LETTER UPSILON WITH STROKE:\u{1D7F}\n\
LATIN SMALL LETTER B WITH PALATAL HOOK:\u{1D80}\n\
LATIN SMALL LETTER D WITH PALATAL HOOK:\u{1D81}\n\
LATIN SMALL LETTER F WITH PALATAL HOOK:\u{1D82}\n\
LATIN SMALL LETTER G WITH PALATAL HOOK:\u{1D83}\n\
LATIN SMALL LETTER K WITH PALATAL HOOK:\u{1D84}\n\
LATIN SMALL LETTER L WITH PALATAL HOOK:\u{1D85}\n\
LATIN SMALL LETTER M WITH PALATAL HOOK:\u{1D86}\n\
LATIN SMALL LETTER N WITH PALATAL HOOK:\u{1D87}\n\
LATIN SMALL LETTER P WITH PALATAL HOOK:\u{1D88}\n\
LATIN SMALL LETTER R WITH PALATAL HOOK:\u{1D89}\n\
LATIN SMALL LETTER S WITH PALATAL HOOK:\u{1D8A}\n\
LATIN SMALL LETTER ESH WITH PALATAL HOOK:\u{1D8B}\n\
LATIN SMALL LETTER V WITH PALATAL HOOK:\u{1D8C}\n\
LATIN SMALL LETTER X WITH PALATAL HOOK:\u{1D8D}\n\
LATIN SMALL LETTER Z WITH PALATAL HOOK:\u{1D8E}\n\
LATIN SMALL LETTER A WITH RETROFLEX HOOK:\u{1D8F}\n\
LATIN SMALL LETTER ALPHA WITH RETROFLEX HOOK:\u{1D90}\n\
LATIN SMALL LETTER D WITH HOOK AND TAIL:\u{1D91}\n\
LATIN SMALL LETTER E WITH RETROFLEX HOOK:\u{1D92}\n\
LATIN SMALL LETTER OPEN E WITH RETROFLEX HOOK:\u{1D93}\n\
LATIN SMALL LETTER REVERSED OPEN E WITH RETROFLEX HOOK:\u{1D94}\n\
LATIN SMALL LETTER SCHWA WITH RETROFLEX HOOK:\u{1D95}\n\
LATIN SMALL LETTER I WITH RETROFLEX HOOK:\u{1D96}\n\
LATIN SMALL LETTER OPEN O WITH RETROFLEX HOOK:\u{1D97}\n\
LATIN SMALL LETTER ESH WITH RETROFLEX HOOK:\u{1D98}\n\
LATIN SMALL LETTER U WITH RETROFLEX HOOK:\u{1D99}\n\
LATIN SMALL LETTER EZH WITH RETROFLEX HOOK:\u{1D9A}\n\
MODIFIER LETTER SMALL TURNED ALPHA:\u{1D9B}\n\
MODIFIER LETTER SMALL C:\u{1D9C}\n\
MODIFIER LETTER SMALL C WITH CURL:\u{1D9D}\n\
MODIFIER LETTER SMALL ETH:\u{1D9E}\n\
MODIFIER LETTER SMALL REVERSED OPEN E:\u{1D9F}\n\
MODIFIER LETTER SMALL F:\u{1DA0}\n\
MODIFIER LETTER SMALL DOTLESS J WITH STROKE:\u{1DA1}\n\
MODIFIER LETTER SMALL SCRIPT G:\u{1DA2}\n\
MODIFIER LETTER SMALL TURNED H:\u{1DA3}\n\
MODIFIER LETTER SMALL I WITH STROKE:\u{1DA4}\n\
MODIFIER LETTER SMALL IOTA:\u{1DA5}\n\
MODIFIER LETTER SMALL CAPITAL I:\u{1DA6}\n\
MODIFIER LETTER SMALL CAPITAL I WITH STROKE:\u{1DA7}\n\
MODIFIER LETTER SMALL J WITH CROSSED-TAIL:\u{1DA8}\n\
MODIFIER LETTER SMALL L WITH RETROFLEX HOOK:\u{1DA9}\n\
MODIFIER LETTER SMALL L WITH PALATAL HOOK:\u{1DAA}\n\
MODIFIER LETTER SMALL CAPITAL L:\u{1DAB}\n\
MODIFIER LETTER SMALL M WITH HOOK:\u{1DAC}\n\
MODIFIER LETTER SMALL TURNED M WITH LONG LEG:\u{1DAD}\n\
MODIFIER LETTER SMALL N WITH LEFT HOOK:\u{1DAE}\n\
MODIFIER LETTER SMALL N WITH RETROFLEX HOOK:\u{1DAF}\n\
MODIFIER LETTER SMALL CAPITAL N:\u{1DB0}\n\
MODIFIER LETTER SMALL BARRED O:\u{1DB1}\n\
MODIFIER LETTER SMALL PHI:\u{1DB2}\n\
MODIFIER LETTER SMALL S WITH HOOK:\u{1DB3}\n\
MODIFIER LETTER SMALL ESH:\u{1DB4}\n\
MODIFIER LETTER SMALL T WITH PALATAL HOOK:\u{1DB5}\n\
MODIFIER LETTER SMALL U BAR:\u{1DB6}\n\
MODIFIER LETTER SMALL UPSILON:\u{1DB7}\n\
MODIFIER LETTER SMALL CAPITAL U:\u{1DB8}\n\
MODIFIER LETTER SMALL V WITH HOOK:\u{1DB9}\n\
MODIFIER LETTER SMALL TURNED V:\u{1DBA}\n\
MODIFIER LETTER SMALL Z:\u{1DBB}\n\
MODIFIER LETTER SMALL Z WITH RETROFLEX HOOK:\u{1DBC}\n\
MODIFIER LETTER SMALL Z WITH CURL:\u{1DBD}\n\
MODIFIER LETTER SMALL EZH:\u{1DBE}\n\
MODIFIER LETTER SMALL THETA:\u{1DBF}\n\
COMBINING DOTTED GRAVE ACCENT:\u{1DC0}\n\
COMBINING DOTTED ACUTE ACCENT:\u{1DC1}\n\
COMBINING SNAKE BELOW:\u{1DC2}\n\
COMBINING SUSPENSION MARK:\u{1DC3}\n\
COMBINING MACRON-ACUTE:\u{1DC4}\n\
COMBINING GRAVE-MACRON:\u{1DC5}\n\
COMBINING MACRON-GRAVE:\u{1DC6}\n\
COMBINING ACUTE-MACRON:\u{1DC7}\n\
COMBINING GRAVE-ACUTE-GRAVE:\u{1DC8}\n\
COMBINING ACUTE-GRAVE-ACUTE:\u{1DC9}\n\
COMBINING LATIN SMALL LETTER R BELOW:\u{1DCA}\n\
COMBINING BREVE-MACRON:\u{1DCB}\n\
COMBINING MACRON-BREVE:\u{1DCC}\n\
COMBINING DOUBLE CIRCUMFLEX ABOVE:\u{1DCD}\n\
COMBINING OGONEK ABOVE:\u{1DCE}\n\
COMBINING ZIGZAG BELOW:\u{1DCF}\n\
COMBINING IS BELOW:\u{1DD0}\n\
COMBINING UR ABOVE:\u{1DD1}\n\
COMBINING US ABOVE:\u{1DD2}\n\
COMBINING LATIN SMALL LETTER FLATTENED OPEN A ABOVE:\u{1DD3}\n\
COMBINING LATIN SMALL LETTER AE:\u{1DD4}\n\
COMBINING LATIN SMALL LETTER AO:\u{1DD5}\n\
COMBINING LATIN SMALL LETTER AV:\u{1DD6}\n\
COMBINING LATIN SMALL LETTER C CEDILLA:\u{1DD7}\n\
COMBINING LATIN SMALL LETTER INSULAR D:\u{1DD8}\n\
COMBINING LATIN SMALL LETTER ETH:\u{1DD9}\n\
COMBINING LATIN SMALL LETTER G:\u{1DDA}\n\
COMBINING LATIN LETTER SMALL CAPITAL G:\u{1DDB}\n\
COMBINING LATIN SMALL LETTER K:\u{1DDC}\n\
COMBINING LATIN SMALL LETTER L:\u{1DDD}\n\
COMBINING LATIN LETTER SMALL CAPITAL L:\u{1DDE}\n\
COMBINING LATIN LETTER SMALL CAPITAL M:\u{1DDF}\n\
COMBINING LATIN SMALL LETTER N:\u{1DE0}\n\
COMBINING LATIN LETTER SMALL CAPITAL N:\u{1DE1}\n\
COMBINING LATIN LETTER SMALL CAPITAL R:\u{1DE2}\n\
COMBINING LATIN SMALL LETTER R ROTUNDA:\u{1DE3}\n\
COMBINING LATIN SMALL LETTER S:\u{1DE4}\n\
COMBINING LATIN SMALL LETTER LONG S:\u{1DE5}\n\
COMBINING LATIN SMALL LETTER Z:\u{1DE6}\n\
COMBINING LATIN SMALL LETTER ALPHA:\u{1DE7}\n\
COMBINING LATIN SMALL LETTER B:\u{1DE8}\n\
COMBINING LATIN SMALL LETTER BETA:\u{1DE9}\n\
COMBINING LATIN SMALL LETTER SCHWA:\u{1DEA}\n\
COMBINING LATIN SMALL LETTER F:\u{1DEB}\n\
COMBINING LATIN SMALL LETTER L WITH DOUBLE MIDDLE TILDE:\u{1DEC}\n\
COMBINING LATIN SMALL LETTER O WITH LIGHT CENTRALIZATION STROKE:\u{1DED}\n\
COMBINING LATIN SMALL LETTER P:\u{1DEE}\n\
COMBINING LATIN SMALL LETTER ESH:\u{1DEF}\n\
COMBINING LATIN SMALL LETTER U WITH LIGHT CENTRALIZATION STROKE:\u{1DF0}\n\
COMBINING LATIN SMALL LETTER W:\u{1DF1}\n\
COMBINING LATIN SMALL LETTER A WITH DIAERESIS:\u{1DF2}\n";

pub const NAMES_17: &'static str = "COMBINING LATIN SMALL LETTER O WITH DIAERESIS:\u{1DF3}\n\
COMBINING LATIN SMALL LETTER U WITH DIAERESIS:\u{1DF4}\n\
COMBINING UP TACK ABOVE:\u{1DF5}\n\
COMBINING KAVYKA ABOVE RIGHT:\u{1DF6}\n\
COMBINING KAVYKA ABOVE LEFT:\u{1DF7}\n\
COMBINING DOT ABOVE LEFT:\u{1DF8}\n\
COMBINING WIDE INVERTED BRIDGE BELOW:\u{1DF9}\n\
COMBINING DOT BELOW LEFT:\u{1DFA}\n\
COMBINING DELETION MARK:\u{1DFB}\n\
COMBINING DOUBLE INVERTED BREVE BELOW:\u{1DFC}\n\
COMBINING ALMOST EQUAL TO BELOW:\u{1DFD}\n\
COMBINING LEFT ARROWHEAD ABOVE:\u{1DFE}\n\
COMBINING RIGHT ARROWHEAD AND DOWN ARROWHEAD BELOW:\u{1DFF}\n\
LATIN CAPITAL LETTER A WITH RING BELOW:\u{1E00}\n\
LATIN SMALL LETTER A WITH RING BELOW:\u{1E01}\n\
LATIN CAPITAL LETTER B WITH DOT ABOVE:\u{1E02}\n\
LATIN SMALL LETTER B WITH DOT ABOVE:\u{1E03}\n\
LATIN CAPITAL LETTER B WITH DOT BELOW:\u{1E04}\n\
LATIN SMALL LETTER B WITH DOT BELOW:\u{1E05}\n\
LATIN CAPITAL LETTER B WITH LINE BELOW:\u{1E06}\n\
LATIN SMALL LETTER B WITH LINE BELOW:\u{1E07}\n\
LATIN CAPITAL LETTER C WITH CEDILLA AND ACUTE:\u{1E08}\n\
LATIN SMALL LETTER C WITH CEDILLA AND ACUTE:\u{1E09}\n\
LATIN CAPITAL LETTER D WITH DOT ABOVE:\u{1E0A}\n\
LATIN SMALL LETTER D WITH DOT ABOVE:\u{1E0B}\n\
LATIN CAPITAL LETTER D WITH DOT BELOW:\u{1E0C}\n\
LATIN SMALL LETTER D WITH DOT BELOW:\u{1E0D}\n\
LATIN CAPITAL LETTER D WITH LINE BELOW:\u{1E0E}\n\
LATIN SMALL LETTER D WITH LINE BELOW:\u{1E0F}\n\
LATIN CAPITAL LETTER D WITH CEDILLA:\u{1E10}\n\
LATIN SMALL LETTER D WITH CEDILLA:\u{1E11}\n\
LATIN CAPITAL LETTER D WITH CIRCUMFLEX BELOW:\u{1E12}\n\
LATIN SMALL LETTER D WITH CIRCUMFLEX BELOW:\u{1E13}\n\
LATIN CAPITAL LETTER E WITH MACRON AND GRAVE:\u{1E14}\n\
LATIN SMALL LETTER E WITH MACRON AND GRAVE:\u{1E15}\n\
LATIN CAPITAL LETTER E WITH MACRON AND ACUTE:\u{1E16}\n\
LATIN SMALL LETTER E WITH MACRON AND ACUTE:\u{1E17}\n\
LATIN CAPITAL LETTER E WITH CIRCUMFLEX BELOW:\u{1E18}\n\
LATIN SMALL LETTER E WITH CIRCUMFLEX BELOW:\u{1E19}\n\
LATIN CAPITAL LETTER E WITH TILDE BELOW:\u{1E1A}\n\
LATIN SMALL LETTER E WITH TILDE BELOW:\u{1E1B}\n\
LATIN CAPITAL LETTER E WITH CEDILLA AND BREVE:\u{1E1C}\n\
LATIN SMALL LETTER E WITH CEDILLA AND BREVE:\u{1E1D}\n\
LATIN CAPITAL LETTER F WITH DOT ABOVE:\u{1E1E}\n\
LATIN SMALL LETTER F WITH DOT ABOVE:\u{1E1F}\n\
LATIN CAPITAL LETTER G WITH MACRON:\u{1E20}\n\
LATIN SMALL LETTER G WITH MACRON:\u{1E21}\n\
LATIN CAPITAL LETTER H WITH DOT ABOVE:\u{1E22}\n\
LATIN SMALL LETTER H WITH DOT ABOVE:\u{1E23}\n\
LATIN CAPITAL LETTER H WITH DOT BELOW:\u{1E24}\n\
LATIN SMALL LETTER H WITH DOT BELOW:\u{1E25}\n\
LATIN CAPITAL LETTER H WITH DIAERESIS:\u{1E26}\n\
LATIN SMALL LETTER H WITH DIAERESIS:\u{1E27}\n\
LATIN CAPITAL LETTER H WITH CEDILLA:\u{1E28}\n\
LATIN SMALL LETTER H WITH CEDILLA:\u{1E29}\n\
LATIN CAPITAL LETTER H WITH BREVE BELOW:\u{1E2A}\n\
LATIN SMALL LETTER H WITH BREVE BELOW:\u{1E2B}\n\
LATIN CAPITAL LETTER I WITH TILDE BELOW:\u{1E2C}\n\
LATIN SMALL LETTER I WITH TILDE BELOW:\u{1E2D}\n\
LATIN CAPITAL LETTER I WITH DIAERESIS AND ACUTE:\u{1E2E}\n\
LATIN SMALL LETTER I WITH DIAERESIS AND ACUTE:\u{1E2F}\n\
LATIN CAPITAL LETTER K WITH ACUTE:\u{1E30}\n\
LATIN SMALL LETTER K WITH ACUTE:\u{1E31}\n\
LATIN CAPITAL LETTER K WITH DOT BELOW:\u{1E32}\n\
LATIN SMALL LETTER K WITH DOT BELOW:\u{1E33}\n\
LATIN CAPITAL LETTER K WITH LINE BELOW:\u{1E34}\n\
LATIN SMALL LETTER K WITH LINE BELOW:\u{1E35}\n\
LATIN CAPITAL LETTER L WITH DOT BELOW:\u{1E36}\n\
LATIN SMALL LETTER L WITH DOT BELOW:\u{1E37}\n\
LATIN CAPITAL LETTER L WITH DOT BELOW AND MACRON:\u{1E38}\n\
LATIN SMALL LETTER L WITH DOT BELOW AND MACRON:\u{1E39}\n\
LATIN CAPITAL LETTER L WITH LINE BELOW:\u{1E3A}\n\
LATIN SMALL LETTER L WITH LINE BELOW:\u{1E3B}\n\
LATIN CAPITAL LETTER L WITH CIRCUMFLEX BELOW:\u{1E3C}\n\
LATIN SMALL LETTER L WITH CIRCUMFLEX BELOW:\u{1E3D}\n\
LATIN CAPITAL LETTER M WITH ACUTE:\u{1E3E}\n\
LATIN SMALL LETTER M WITH ACUTE:\u{1E3F}\n\
LATIN CAPITAL LETTER M WITH DOT ABOVE:\u{1E40}\n\
LATIN SMALL LETTER M WITH DOT ABOVE:\u{1E41}\n\
LATIN CAPITAL LETTER M WITH DOT BELOW:\u{1E42}\n\
LATIN SMALL LETTER M WITH DOT BELOW:\u{1E43}\n\
LATIN CAPITAL LETTER N WITH DOT ABOVE:\u{1E44}\n\
LATIN SMALL LETTER N WITH DOT ABOVE:\u{1E45}\n\
LATIN CAPITAL LETTER N WITH DOT BELOW:\u{1E46}\n\
LATIN SMALL LETTER N WITH DOT BELOW:\u{1E47}\n\
LATIN CAPITAL LETTER N WITH LINE BELOW:\u{1E48}\n\
LATIN SMALL LETTER N WITH LINE BELOW:\u{1E49}\n\
LATIN CAPITAL LETTER N WITH CIRCUMFLEX BELOW:\u{1E4A}\n\
LATIN SMALL LETTER N WITH CIRCUMFLEX BELOW:\u{1E4B}\n\
LATIN CAPITAL LETTER O WITH TILDE AND ACUTE:\u{1E4C}\n\
LATIN SMALL LETTER O WITH TILDE AND ACUTE:\u{1E4D}\n\
LATIN CAPITAL LETTER O WITH TILDE AND DIAERESIS:\u{1E4E}\n\
LATIN SMALL LETTER O WITH TILDE AND DIAERESIS:\u{1E4F}\n\
LATIN CAPITAL LETTER O WITH MACRON AND GRAVE:\u{1E50}\n\
LATIN SMALL LETTER O WITH MACRON AND GRAVE:\u{1E51}\n\
LATIN CAPITAL LETTER O WITH MACRON AND ACUTE:\u{1E52}\n\
LATIN SMALL LETTER O WITH MACRON AND ACUTE:\u{1E53}\n\
LATIN CAPITAL LETTER P WITH ACUTE:\u{1E54}\n\
LATIN SMALL LETTER P WITH ACUTE:\u{1E55}\n\
LATIN CAPITAL LETTER P WITH DOT ABOVE:\u{1E56}\n\
LATIN SMALL LETTER P WITH DOT ABOVE:\u{1E57}\n\
LATIN CAPITAL LETTER R WITH DOT ABOVE:\u{1E58}\n\
LATIN SMALL LETTER R WITH DOT ABOVE:\u{1E59}\n\
LATIN CAPITAL LETTER R WITH DOT BELOW:\u{1E5A}\n\
LATIN SMALL LETTER R WITH DOT BELOW:\u{1E5B}\n\
LATIN CAPITAL LETTER R WITH DOT BELOW AND MACRON:\u{1E5C}\n\
LATIN SMALL LETTER R WITH DOT BELOW AND MACRON:\u{1E5D}\n\
LATIN CAPITAL LETTER R WITH LINE BELOW:\u{1E5E}\n\
LATIN SMALL LETTER R WITH LINE BELOW:\u{1E5F}\n\
LATIN CAPITAL LETTER S WITH DOT ABOVE:\u{1E60}\n\
LATIN SMALL LETTER S WITH DOT ABOVE:\u{1E61}\n\
LATIN CAPITAL LETTER S WITH DOT BELOW:\u{1E62}\n\
LATIN SMALL LETTER S WITH DOT BELOW:\u{1E63}\n\
LATIN CAPITAL LETTER S WITH ACUTE AND DOT ABOVE:\u{1E64}\n\
LATIN SMALL LETTER S WITH ACUTE AND DOT ABOVE:\u{1E65}\n\
LATIN CAPITAL LETTER S WITH CARON AND DOT ABOVE:\u{1E66}\n\
LATIN SMALL LETTER S WITH CARON AND DOT ABOVE:\u{1E67}\n\
LATIN CAPITAL LETTER S WITH DOT BELOW AND DOT ABOVE:\u{1E68}\n\
LATIN SMALL LETTER S WITH DOT BELOW AND DOT ABOVE:\u{1E69}\n\
LATIN CAPITAL LETTER T WITH DOT ABOVE:\u{1E6A}\n\
LATIN SMALL LETTER T WITH DOT ABOVE:\u{1E6B}\n\
LATIN CAPITAL LETTER T WITH DOT BELOW:\u{1E6C}\n\
LATIN SMALL LETTER T WITH DOT BELOW:\u{1E6D}\n\
LATIN CAPITAL LETTER T WITH LINE BELOW:\u{1E6E}\n\
LATIN SMALL LETTER T WITH LINE BELOW:\u{1E6F}\n\
LATIN CAPITAL LETTER T WITH CIRCUMFLEX BELOW:\u{1E70}\n\
LATIN SMALL LETTER T WITH CIRCUMFLEX BELOW:\u{1E71}\n\
LATIN CAPITAL LETTER U WITH DIAERESIS BELOW:\u{1E72}\n\
LATIN SMALL LETTER U WITH DIAERESIS BELOW:\u{1E73}\n\
LATIN CAPITAL LETTER U WITH TILDE BELOW:\u{1E74}\n\
LATIN SMALL LETTER U WITH TILDE BELOW:\u{1E75}\n\
LATIN CAPITAL LETTER U WITH CIRCUMFLEX BELOW:\u{1E76}\n\
LATIN SMALL LETTER U WITH CIRCUMFLEX BELOW:\u{1E77}\n\
LATIN CAPITAL LETTER U WITH TILDE AND ACUTE:\u{1E78}\n\
LATIN SMALL LETTER U WITH TILDE AND ACUTE:\u{1E79}\n\
LATIN CAPITAL LETTER U WITH MACRON AND DIAERESIS:\u{1E7A}\n\
LATIN SMALL LETTER U WITH MACRON AND DIAERESIS:\u{1E7B}\n\
LATIN CAPITAL LETTER V WITH TILDE:\u{1E7C}\n\
LATIN SMALL LETTER V WITH TILDE:\u{1E7D}\n\
LATIN CAPITAL LETTER V WITH DOT BELOW:\u{1E7E}\n\
LATIN SMALL LETTER V WITH DOT BELOW:\u{1E7F}\n\
LATIN CAPITAL LETTER W WITH GRAVE:\u{1E80}\n\
LATIN SMALL LETTER W WITH GRAVE:\u{1E81}\n\
LATIN CAPITAL LETTER W WITH ACUTE:\u{1E82}\n\
LATIN SMALL LETTER W WITH ACUTE:\u{1E83}\n\
LATIN CAPITAL LETTER W WITH DIAERESIS:\u{1E84}\n\
LATIN SMALL LETTER W WITH DIAERESIS:\u{1E85}\n\
LATIN CAPITAL LETTER W WITH DOT ABOVE:\u{1E86}\n\
LATIN SMALL LETTER W WITH DOT ABOVE:\u{1E87}\n\
LATIN CAPITAL LETTER W WITH DOT BELOW:\u{1E88}\n\
LATIN SMALL LETTER W WITH DOT BELOW:\u{1E89}\n\
LATIN CAPITAL LETTER X WITH DOT ABOVE:\u{1E8A}\n\
LATIN SMALL LETTER X WITH DOT ABOVE:\u{1E8B}\n\
LATIN CAPITAL LETTER X WITH DIAERESIS:\u{1E8C}\n\
LATIN SMALL LETTER X WITH DIAERESIS:\u{1E8D}\n\
LATIN CAPITAL LETTER Y WITH DOT ABOVE:\u{1E8E}\n\
LATIN SMALL LETTER Y WITH DOT ABOVE:\u{1E8F}\n\
LATIN CAPITAL LETTER Z WITH CIRCUMFLEX:\u{1E90}\n\
LATIN SMALL LETTER Z WITH CIRCUMFLEX:\u{1E91}\n\
LATIN CAPITAL LETTER Z WITH DOT BELOW:\u{1E92}\n\
LATIN SMALL LETTER Z WITH DOT BELOW:\u{1E93}\n\
LATIN CAPITAL LETTER Z WITH LINE BELOW:\u{1E94}\n\
LATIN SMALL LETTER Z WITH LINE BELOW:\u{1E95}\n\
LATIN SMALL LETTER H WITH LINE BELOW:\u{1E96}\n\
LATIN SMALL LETTER T WITH DIAERESIS:\u{1E97}\n\
LATIN SMALL LETTER W WITH RING ABOVE:\u{1E98}\n\
LATIN SMALL LETTER Y WITH RING ABOVE:\u{1E99}\n\
LATIN SMALL LETTER A WITH RIGHT HALF RING:\u{1E9A}\n\
LATIN SMALL LETTER LONG S WITH DOT ABOVE:\u{1E9B}\n\
LATIN SMALL LETTER LONG S WITH DIAGONAL STROKE:\u{1E9C}\n\
LATIN SMALL LETTER LONG S WITH HIGH STROKE:\u{1E9D}\n\
LATIN CAPITAL LETTER SHARP S:\u{1E9E}\n\
LATIN SMALL LETTER DELTA:\u{1E9F}\n\
LATIN CAPITAL LETTER A WITH DOT BELOW:\u{1EA0}\n\
LATIN SMALL LETTER A WITH DOT BELOW:\u{1EA1}\n\
LATIN CAPITAL LETTER A WITH HOOK ABOVE:\u{1EA2}\n\
LATIN SMALL LETTER A WITH HOOK ABOVE:\u{1EA3}\n\
LATIN CAPITAL LETTER A WITH CIRCUMFLEX AND ACUTE:\u{1EA4}\n\
LATIN SMALL LETTER A WITH CIRCUMFLEX AND ACUTE:\u{1EA5}\n\
LATIN CAPITAL LETTER A WITH CIRCUMFLEX AND GRAVE:\u{1EA6}\n\
LATIN SMALL LETTER A WITH CIRCUMFLEX AND GRAVE:\u{1EA7}\n\
LATIN CAPITAL LETTER A WITH CIRCUMFLEX AND HOOK ABOVE:\u{1EA8}\n\
LATIN SMALL LETTER A WITH CIRCUMFLEX AND HOOK ABOVE:\u{1EA9}\n\
LATIN CAPITAL LETTER A WITH CIRCUMFLEX AND TILDE:\u{1EAA}\n\
LATIN SMALL LETTER A WITH CIRCUMFLEX AND TILDE:\u{1EAB}\n\
LATIN CAPITAL LETTER A WITH CIRCUMFLEX AND DOT BELOW:\u{1EAC}\n\
LATIN SMALL LETTER A WITH CIRCUMFLEX AND DOT BELOW:\u{1EAD}\n\
LATIN CAPITAL LETTER A WITH BREVE AND ACUTE:\u{1EAE}\n\
LATIN SMALL LETTER A WITH BREVE AND ACUTE:\u{1EAF}\n\
LATIN CAPITAL LETTER A WITH BREVE AND GRAVE:\u{1EB0}\n\
LATIN SMALL LETTER A WITH BREVE AND GRAVE:\u{1EB1}\n\
LATIN CAPITAL LETTER A WITH BREVE AND HOOK ABOVE:\u{1EB2}\n\
LATIN SMALL LETTER A WITH BREVE AND HOOK ABOVE:\u{1EB3}\n\
LATIN CAPITAL LETTER A WITH BREVE AND TILDE:\u{1EB4}\n\
LATIN SMALL LETTER A WITH BREVE AND TILDE:\u{1EB5}\n\
LATIN CAPITAL LETTER A WITH BREVE AND DOT BELOW:\u{1EB6}\n\
LATIN SMALL LETTER A WITH BREVE AND DOT BELOW:\u{1EB7}\n\
LATIN CAPITAL LETTER E WITH DOT BELOW:\u{1EB8}\n\
LATIN SMALL LETTER E WITH DOT BELOW:\u{1EB9}\n\
LATIN CAPITAL LETTER E WITH HOOK ABOVE:\u{1EBA}\n\
LATIN SMALL LETTER E WITH HOOK ABOVE:\u{1EBB}\n\
LATIN CAPITAL LETTER E WITH TILDE:\u{1EBC}\n\
LATIN SMALL LETTER E WITH TILDE:\u{1EBD}\n\
LATIN CAPITAL LETTER E WITH CIRCUMFLEX AND ACUTE:\u{1EBE}\n\
LATIN SMALL LETTER E WITH CIRCUMFLEX AND ACUTE:\u{1EBF}\n\
LATIN CAPITAL LETTER E WITH CIRCUMFLEX AND GRAVE:\u{1EC0}\n\
LATIN SMALL LETTER E WITH CIRCUMFLEX AND GRAVE:\u{1EC1}\n\
LATIN CAPITAL LETTER E WITH CIRCUMFLEX AND HOOK ABOVE:\u{1EC2}\n\
LATIN SMALL LETTER E WITH CIRCUMFLEX AND HOOK ABOVE:\u{1EC3}\n\
LATIN CAPITAL LETTER E WITH CIRCUMFLEX AND TILDE:\u{1EC4}\n\
LATIN SMALL LETTER E WITH CIRCUMFLEX AND TILDE:\u{1EC5}\n\
LATIN CAPITAL LETTER E WITH CIRCUMFLEX AND DOT BELOW:\u{1EC6}\n\
LATIN SMALL LETTER E WITH CIRCUMFLEX AND DOT BELOW:\u{1EC7}\n\
LATIN CAPITAL LETTER I WITH HOOK ABOVE:\u{1EC8}\n\
LATIN SMALL LETTER I WITH HOOK ABOVE:\u{1EC9}\n\
LATIN CAPITAL LETTER I WITH DOT BELOW:\u{1ECA}\n\
LATIN SMALL LETTER I WITH DOT BELOW:\u{1ECB}\n\
LATIN CAPITAL LETTER O WITH DOT BELOW:\u{1ECC}\n\
LATIN SMALL LETTER O WITH DOT BELOW:\u{1ECD}\n\
LATIN CAPITAL LETTER O WITH HOOK ABOVE:\u{1ECE}\n\
LATIN SMALL LETTER O WITH HOOK ABOVE:\u{1ECF}\n\
LATIN CAPITAL LETTER O WITH CIRCUMFLEX AND ACUTE:\u{1ED0}\n\
LATIN SMALL LETTER O WITH CIRCUMFLEX AND ACUTE:\u{1ED1}\n\
LATIN CAPITAL LETTER O WITH CIRCUMFLEX AND GRAVE:\u{1ED2}\n\
LATIN SMALL LETTER O WITH CIRCUMFLEX AND GRAVE:\u{1ED3}\n\
LATIN CAPITAL LETTER O WITH CIRCUMFLEX AND HOOK ABOVE:\u{1ED4}\n\
LATIN SMALL LETTER O WITH CIRCUMFLEX AND HOOK ABOVE:\u{1ED5}\n\
LATIN CAPITAL LETTER O WITH CIRCUMFLEX AND TILDE:\u{1ED6}\n\
LATIN SMALL LETTER O WITH CIRCUMFLEX AND TILDE:\u{1ED7}\n\
LATIN CAPITAL LETTER O WITH CIRCUMFLEX AND DOT BELOW:\u{1ED8}\n\
LATIN SMALL LETTER O WITH CIRCUMFLEX AND DOT BELOW:\u{1ED9}\n\
LATIN CAPITAL LETTER O WITH HORN AND ACUTE:\u{1EDA}\n\
LATIN SMALL LETTER O WITH HORN AND ACUTE:\u{1EDB}\n\
LATIN CAPITAL LETTER O WITH HORN AND GRAVE:\u{1EDC}\n\
LATIN SMALL LETTER O WITH HORN AND GRAVE:\u{1EDD}\n\
LATIN CAPITAL LETTER O WITH HORN AND HOOK ABOVE:\u{1EDE}\n\
LATIN SMALL LETTER O WITH HORN AND HOOK ABOVE:\u{1EDF}\n\
LATIN CAPITAL LETTER O WITH HORN AND TILDE:\u{1EE0}\n\
LATIN SMALL LETTER O WITH HORN AND TILDE:\u{1EE1}\n\
LATIN CAPITAL LETTER O WITH HORN AND DOT BELOW:\u{1EE2}\n\
LATIN SMALL LETTER O WITH HORN AND DOT BELOW:\u{1EE3}\n\
LATIN CAPITAL LETTER U WITH DOT BELOW:\u{1EE4}\n\
LATIN SMALL LETTER U WITH DOT BELOW:\u{1EE5}\n\
LATIN CAPITAL LETTER U WITH HOOK ABOVE:\u{1EE6}\n\
LATIN SMALL LETTER U WITH HOOK ABOVE:\u{1EE7}\n\
LATIN CAPITAL LETTER U WITH HORN AND ACUTE:\u{1EE8}\n\
LATIN SMALL LETTER U WITH HORN AND ACUTE:\u{1EE9}\n\
LATIN CAPITAL LETTER U WITH HORN AND GRAVE:\u{1EEA}\n\
LATIN SMALL LETTER U WITH HORN AND GRAVE:\u{1EEB}\n\
LATIN CAPITAL LETTER U WITH HORN AND HOOK ABOVE:\u{1EEC}\n\
LATIN SMALL LETTER U WITH HORN AND HOOK ABOVE:\u{1EED}\n\
LATIN CAPITAL LETTER U WITH HORN AND TILDE:\u{1EEE}\n\
LATIN SMALL LETTER U WITH HORN AND TILDE:\u{1EEF}\n\
LATIN CAPITAL LETTER U WITH HORN AND DOT BELOW:\u{1EF0}\n\
LATIN SMALL LETTER U WITH HORN AND DOT BELOW:\u{1EF1}\n\
LATIN CAPITAL LETTER Y WITH GRAVE:\u{1EF2}\n\
LATIN SMALL LETTER Y WITH GRAVE:\u{1EF3}\n\
LATIN CAPITAL LETTER Y WITH DOT BELOW:\u{1EF4}\n\
LATIN SMALL LETTER Y WITH DOT BELOW:\u{1EF5}\n\
LATIN CAPITAL LETTER Y WITH HOOK ABOVE:\u{1EF6}\n\
LATIN SMALL LETTER Y WITH HOOK ABOVE:\u{1EF7}\n\
LATIN CAPITAL LETTER Y WITH TILDE:\u{1EF8}\n\
LATIN SMALL LETTER Y WITH TILDE:\u{1EF9}\n\
LATIN CAPITAL LETTER MIDDLE-WELSH LL:\u{1EFA}\n\
LATIN SMALL LETTER MIDDLE-WELSH LL:\u{1EFB}\n\
LATIN CAPITAL LETTER MIDDLE-WELSH V:\u{1EFC}\n\
LATIN SMALL LETTER MIDDLE-WELSH V:\u{1EFD}\n\
LATIN CAPITAL LETTER Y WITH LOOP:\u{1EFE}\n\
LATIN SMALL LETTER Y WITH LOOP:\u{1EFF}\n\
GREEK SMALL LETTER ALPHA WITH PSILI:\u{1F00}\n\
GREEK SMALL LETTER ALPHA WITH DASIA:\u{1F01}\n\
GREEK SMALL LETTER ALPHA WITH PSILI AND VARIA:\u{1F02}\n\
GREEK SMALL LETTER ALPHA WITH DASIA AND VARIA:\u{1F03}\n\
GREEK SMALL LETTER ALPHA WITH PSILI AND OXIA:\u{1F04}\n\
GREEK SMALL LETTER ALPHA WITH DASIA AND OXIA:\u{1F05}\n\
GREEK SMALL LETTER ALPHA WITH PSILI AND PERISPOMENI:\u{1F06}\n\
GREEK SMALL LETTER ALPHA WITH DASIA AND PERISPOMENI:\u{1F07}\n\
GREEK CAPITAL LETTER ALPHA WITH PSILI:\u{1F08}\n\
GREEK CAPITAL LETTER ALPHA WITH DASIA:\u{1F09}\n\
GREEK CAPITAL LETTER ALPHA WITH PSILI AND VARIA:\u{1F0A}\n\
GREEK CAPITAL LETTER ALPHA WITH DASIA AND VARIA:\u{1F0B}\n\
GREEK CAPITAL LETTER ALPHA WITH PSILI AND OXIA:\u{1F0C}\n\
GREEK CAPITAL LETTER ALPHA WITH DASIA AND OXIA:\u{1F0D}\n\
GREEK CAPITAL LETTER ALPHA WITH PSILI AND PERISPOMENI:\u{1F0E}\n\
GREEK CAPITAL LETTER ALPHA WITH DASIA AND PERISPOMENI:\u{1F0F}\n";

pub const NAMES_18: &'static str = "GREEK SMALL LETTER EPSILON WITH PSILI:\u{1F10}\n\
GREEK SMALL LETTER EPSILON WITH DASIA:\u{1F11}\n\
GREEK SMALL LETTER EPSILON WITH PSILI AND VARIA:\u{1F12}\n\
GREEK SMALL LETTER EPSILON WITH DASIA AND VARIA:\u{1F13}\n\
GREEK SMALL LETTER EPSILON WITH PSILI AND OXIA:\u{1F14}\n\
GREEK SMALL LETTER EPSILON WITH DASIA AND OXIA:\u{1F15}\n\
GREEK CAPITAL LETTER EPSILON WITH PSILI:\u{1F18}\n\
GREEK CAPITAL LETTER EPSILON WITH DASIA:\u{1F19}\n\
GREEK CAPITAL LETTER EPSILON WITH PSILI AND VARIA:\u{1F1A}\n\
GREEK CAPITAL LETTER EPSILON WITH DASIA AND VARIA:\u{1F1B}\n\
GREEK CAPITAL LETTER EPSILON WITH PSILI AND OXIA:\u{1F1C}\n\
GREEK CAPITAL LETTER EPSILON WITH DASIA AND OXIA:\u{1F1D}\n\
GREEK SMALL LETTER ETA WITH PSILI:\u{1F20}\n\
GREEK SMALL LETTER ETA WITH DASIA:\u{1F21}\n\
GREEK SMALL LETTER ETA WITH PSILI AND VARIA:\u{1F22}\n\
GREEK SMALL LETTER ETA WITH DASIA AND VARIA:\u{1F23}\n\
GREEK SMALL LETTER ETA WITH PSILI AND OXIA:\u{1F24}\n\
GREEK SMALL LETTER ETA WITH DASIA AND OXIA:\u{1F25}\n\
GREEK SMALL LETTER ETA WITH PSILI AND PERISPOMENI:\u{1F26}\n\
GREEK SMALL LETTER ETA WITH DASIA AND PERISPOMENI:\u{1F27}\n\
GREEK CAPITAL LETTER ETA WITH PSILI:\u{1F28}\n\
GREEK CAPITAL LETTER ETA WITH DASIA:\u{1F29}\n\
GREEK CAPITAL LETTER ETA WITH PSILI AND VARIA:\u{1F2A}\n\
GREEK CAPITAL LETTER ETA WITH DASIA AND VARIA:\u{1F2B}\n\
GREEK CAPITAL LETTER ETA WITH PSILI AND OXIA:\u{1F2C}\n\
GREEK CAPITAL LETTER ETA WITH DASIA AND OXIA:\u{1F2D}\n\
GREEK CAPITAL LETTER ETA WITH PSILI AND PERISPOMENI:\u{1F2E}\n\
GREEK CAPITAL LETTER ETA WITH DASIA AND PERISPOMENI:\u{1F2F}\n\
GREEK SMALL LETTER IOTA WITH PSILI:\u{1F30}\n\
GREEK SMALL LETTER IOTA WITH DASIA:\u{1F31}\n\
GREEK SMALL LETTER IOTA WITH PSILI AND VARIA:\u{1F32}\n\
GREEK SMALL LETTER IOTA WITH DASIA AND VARIA:\u{1F33}\n\
GREEK SMALL LETTER IOTA WITH PSILI AND OXIA:\u{1F34}\n\
GREEK SMALL LETTER IOTA WITH DASIA AND OXIA:\u{1F35}\n\
GREEK SMALL LETTER IOTA WITH PSILI AND PERISPOMENI:\u{1F36}\n\
GREEK SMALL LETTER IOTA WITH DASIA AND PERISPOMENI:\u{1F37}\n\
GREEK CAPITAL LETTER IOTA WITH PSILI:\u{1F38}\n\
GREEK CAPITAL LETTER IOTA WITH DASIA:\u{1F39}\n\
GREEK CAPITAL LETTER IOTA WITH PSILI AND VARIA:\u{1F3A}\n\
GREEK CAPITAL LETTER IOTA WITH DASIA AND VARIA:\u{1F3B}\n\
GREEK CAPITAL LETTER IOTA WITH PSILI AND OXIA:\u{1F3C}\n\
GREEK CAPITAL LETTER IOTA WITH DASIA AND OXIA:\u{1F3D}\n\
GREEK CAPITAL LETTER IOTA WITH PSILI AND PERISPOMENI:\u{1F3E}\n\
GREEK CAPITAL LETTER IOTA WITH DASIA AND PERISPOMENI:\u{1F3F}\n\
GREEK SMALL LETTER OMICRON WITH PSILI:\u{1F40}\n\
GREEK SMALL LETTER OMICRON WITH DASIA:\u{1F41}\n\
GREEK SMALL LETTER OMICRON WITH PSILI AND VARIA:\u{1F42}\n\
GREEK SMALL LETTER OMICRON WITH DASIA AND VARIA:\u{1F43}\n\
GREEK SMALL LETTER OMICRON WITH PSILI AND OXIA:\u{1F44}\n\
GREEK SMALL LETTER OMICRON WITH DASIA AND OXIA:\u{1F45}\n\
GREEK CAPITAL LETTER OMICRON WITH PSILI:\u{1F48}\n\
GREEK CAPITAL LETTER OMICRON WITH DASIA:\u{1F49}\n\
GREEK CAPITAL LETTER OMICRON WITH PSILI AND VARIA:\u{1F4A}\n\
GREEK CAPITAL LETTER OMICRON WITH DASIA AND VARIA:\u{1F4B}\n\
GREEK CAPITAL LETTER OMICRON WITH PSILI AND OXIA:\u{1F4C}\n\
GREEK CAPITAL LETTER OMICRON WITH DASIA AND OXIA:\u{1F4D}\n\
GREEK SMALL LETTER UPSILON WITH PSILI:\u{1F50}\n\
GREEK SMALL LETTER UPSILON WITH DASIA:\u{1F51}\n\
GREEK SMALL LETTER UPSILON WITH PSILI AND VARIA:\u{1F52}\n\
GREEK SMALL LETTER UPSILON WITH DASIA AND VARIA:\u{1F53}\n\
GREEK SMALL LETTER UPSILON WITH PSILI AND OXIA:\u{1F54}\n\
GREEK SMALL LETTER UPSILON WITH DASIA AND OXIA:\u{1F55}\n\
GREEK SMALL LETTER UPSILON WITH PSILI AND PERISPOMENI:\u{1F56}\n\
GREEK SMALL LETTER UPSILON WITH DASIA AND PERISPOMENI:\u{1F57}\n\
GREEK CAPITAL LETTER UPSILON WITH DASIA:\u{1F59}\n\
GREEK CAPITAL LETTER UPSILON WITH DASIA AND VARIA:\u{1F5B}\n\
GREEK CAPITAL LETTER UPSILON WITH DASIA AND OXIA:\u{1F5D}\n\
GREEK CAPITAL LETTER UPSILON WITH DASIA AND PERISPOMENI:\u{1F5F}\n\
GREEK SMALL LETTER OMEGA WITH PSILI:\u{1F60}\n\
GREEK SMALL LETTER OMEGA WITH DASIA:\u{1F61}\n\
GREEK SMALL LETTER OMEGA WITH PSILI AND VARIA:\u{1F62}\n\
GREEK SMALL LETTER OMEGA WITH DASIA AND VARIA:\u{1F63}\n\
GREEK SMALL LETTER OMEGA WITH PSILI AND OXIA:\u{1F64}\n\
GREEK SMALL LETTER OMEGA WITH DASIA AND OXIA:\u{1F65}\n\
GREEK SMALL LETTER OMEGA WITH PSILI AND PERISPOMENI:\u{1F66}\n\
GREEK SMALL LETTER OMEGA WITH DASIA AND PERISPOMENI:\u{1F67}\n\
GREEK CAPITAL LETTER OMEGA WITH PSILI:\u{1F68}\n\
GREEK CAPITAL LETTER OMEGA WITH DASIA:\u{1F69}\n\
GREEK CAPITAL LETTER OMEGA WITH PSILI AND VARIA:\u{1F6A}\n\
GREEK CAPITAL LETTER OMEGA WITH DASIA AND VARIA:\u{1F6B}\n\
GREEK CAPITAL LETTER OMEGA WITH PSILI AND OXIA:\u{1F6C}\n\
GREEK CAPITAL LETTER OMEGA WITH DASIA AND OXIA:\u{1F6D}\n\
GREEK CAPITAL LETTER OMEGA WITH PSILI AND PERISPOMENI:\u{1F6E}\n\
GREEK CAPITAL LETTER OMEGA WITH DASIA AND PERISPOMENI:\u{1F6F}\n\
GREEK SMALL LETTER ALPHA WITH VARIA:\u{1F70}\n\
GREEK SMALL LETTER ALPHA WITH OXIA:\u{1F71}\n\
GREEK SMALL LETTER EPSILON WITH VARIA:\u{1F72}\n\
GREEK SMALL LETTER EPSILON WITH OXIA:\u{1F73}\n\
GREEK SMALL LETTER ETA WITH VARIA:\u{1F74}\n\
GREEK SMALL LETTER ETA WITH OXIA:\u{1F75}\n\
GREEK SMALL LETTER IOTA WITH VARIA:\u{1F76}\n\
GREEK SMALL LETTER IOTA WITH OXIA:\u{1F77}\n\
GREEK SMALL LETTER OMICRON WITH VARIA:\u{1F78}\n\
GREEK SMALL LETTER OMICRON WITH OXIA:\u{1F79}\n\
GREEK SMALL LETTER UPSILON WITH VARIA:\u{1F7A}\n\
GREEK SMALL LETTER UPSILON WITH OXIA:\u{1F7B}\n\
GREEK SMALL LETTER OMEGA WITH VARIA:\u{1F7C}\n\
GREEK SMALL LETTER OMEGA WITH OXIA:\u{1F7D}\n\
GREEK SMALL LETTER ALPHA WITH PSILI AND YPOGEGRAMMENI:\u{1F80}\n\
GREEK SMALL LETTER ALPHA WITH DASIA AND YPOGEGRAMMENI:\u{1F81}\n\
GREEK SMALL LETTER ALPHA WITH PSILI AND VARIA AND YPOGEGRAMMENI:\u{1F82}\n\
GREEK SMALL LETTER ALPHA WITH DASIA AND VARIA AND YPOGEGRAMMENI:\u{1F83}\n\
GREEK SMALL LETTER ALPHA WITH PSILI AND OXIA AND YPOGEGRAMMENI:\u{1F84}\n\
GREEK SMALL LETTER ALPHA WITH DASIA AND OXIA AND YPOGEGRAMMENI:\u{1F85}\n\
GREEK SMALL LETTER ALPHA WITH PSILI AND PERISPOMENI AND YPOGEGRAMMENI:\u{1F86}\n\
GREEK SMALL LETTER ALPHA WITH DASIA AND PERISPOMENI AND YPOGEGRAMMENI:\u{1F87}\n\
GREEK CAPITAL LETTER ALPHA WITH PSILI AND PROSGEGRAMMENI:\u{1F88}\n\
GREEK CAPITAL LETTER ALPHA WITH DASIA AND PROSGEGRAMMENI:\u{1F89}\n\
GREEK CAPITAL LETTER ALPHA WITH PSILI AND VARIA AND PROSGEGRAMMENI:\u{1F8A}\n\
GREEK CAPITAL LETTER ALPHA WITH DASIA AND VARIA AND PROSGEGRAMMENI:\u{1F8B}\n\
GREEK CAPITAL LETTER ALPHA WITH PSILI AND OXIA AND PROSGEGRAMMENI:\u{1F8C}\n\
GREEK CAPITAL LETTER ALPHA WITH DASIA AND OXIA AND PROSGEGRAMMENI:\u{1F8D}\n\
GREEK CAPITAL LETTER ALPHA WITH PSILI AND PERISPOMENI AND PROSGEGRAMMENI:\u{1F8E}\n\
GREEK CAPITAL LETTER ALPHA WITH DASIA AND PERISPOMENI AND PROSGEGRAMMENI:\u{1F8F}\n\
GREEK SMALL LETTER ETA WITH PSILI AND YPOGEGRAMMENI:\u{1F90}\n\
GREEK SMALL LETTER ETA WITH DASIA AND YPOGEGRAMMENI:\u{1F91}\n\
GREEK SMALL LETTER ETA WITH PSILI AND VARIA AND YPOGEGRAMMENI:\u{1F92}\n\
GREEK SMALL LETTER ETA WITH DASIA AND VARIA AND YPOGEGRAMMENI:\u{1F93}\n\
GREEK SMALL LETTER ETA WITH PSILI AND OXIA AND YPOGEGRAMMENI:\u{1F94}\n\
GREEK SMALL LETTER ETA WITH DASIA AND OXIA AND YPOGEGRAMMENI:\u{1F95}\n\
GREEK SMALL LETTER ETA WITH PSILI AND PERISPOMENI AND YPOGEGRAMMENI:\u{1F96}\n\
GREEK SMALL LETTER ETA WITH DASIA AND PERISPOMENI AND YPOGEGRAMMENI:\u{1F97}\n\
GREEK CAPITAL LETTER ETA WITH PSILI AND PROSGEGRAMMENI:\u{1F98}\n\
GREEK CAPITAL LETTER ETA WITH DASIA AND PROSGEGRAMMENI:\u{1F99}\n\
GREEK CAPITAL LETTER ETA WITH PSILI AND VARIA AND PROSGEGRAMMENI:\u{1F9A}\n\
GREEK CAPITAL LETTER ETA WITH DASIA AND VARIA AND PROSGEGRAMMENI:\u{1F9B}\n\
GREEK CAPITAL LETTER ETA WITH PSILI AND OXIA AND PROSGEGRAMMENI:\u{1F9C}\n\
GREEK CAPITAL LETTER ETA WITH DASIA AND OXIA AND PROSGEGRAMMENI:\u{1F9D}\n\
GREEK CAPITAL LETTER ETA WITH PSILI AND PERISPOMENI AND PROSGEGRAMMENI:\u{1F9E}\n\
GREEK CAPITAL LETTER ETA WITH DASIA AND PERISPOMENI AND PROSGEGRAMMENI:\u{1F9F}\n\
GREEK SMALL LETTER OMEGA WITH PSILI AND YPOGEGRAMMENI:\u{1FA0}\n\
GREEK SMALL LETTER OMEGA WITH DASIA AND YPOGEGRAMMENI:\u{1FA1}\n\
GREEK SMALL LETTER OMEGA WITH PSILI AND VARIA AND YPOGEGRAMMENI:\u{1FA2}\n\
GREEK SMALL LETTER OMEGA WITH DASIA AND VARIA AND YPOGEGRAMMENI:\u{1FA3}\n\
GREEK SMALL LETTER OMEGA WITH PSILI AND OXIA AND YPOGEGRAMMENI:\u{1FA4}\n\
GREEK SMALL LETTER OMEGA WITH DASIA AND OXIA AND YPOGEGRAMMENI:\u{1FA5}\n\
GREEK SMALL LETTER OMEGA WITH PSILI AND PERISPOMENI AND YPOGEGRAMMENI:\u{1FA6}\n\
GREEK SMALL LETTER OMEGA WITH DASIA AND PERISPOMENI AND YPOGEGRAMMENI:\u{1FA7}\n\
GREEK CAPITAL LETTER OMEGA WITH PSILI AND PROSGEGRAMMENI:\u{1FA8}\n\
GREEK CAPITAL LETTER OMEGA WITH DASIA AND PROSGEGRAMMENI:\u{1FA9}\n\
GREEK CAPITAL LETTER OMEGA WITH PSILI AND VARIA AND PROSGEGRAMMENI:\u{1FAA}\n\
GREEK CAPITAL LETTER OMEGA WITH DASIA AND VARIA AND PROSGEGRAMMENI:\u{1FAB}\n\
GREEK CAPITAL LETTER OMEGA WITH PSILI AND OXIA AND PROSGEGRAMMENI:\u{1FAC}\n\
GREEK CAPITAL LETTER OMEGA WITH DASIA AND OXIA AND PROSGEGRAMMENI:\u{1FAD}\n\
GREEK CAPITAL LETTER OMEGA WITH PSILI AND PERISPOMENI AND PROSGEGRAMMENI:\u{1FAE}\n\
GREEK CAPITAL LETTER OMEGA WITH DASIA AND PERISPOMENI AND PROSGEGRAMMENI:\u{1FAF}\n\
GREEK SMALL LETTER ALPHA WITH VRACHY:\u{1FB0}\n\
GREEK SMALL LETTER ALPHA WITH MACRON:\u{1FB1}\n\
GREEK SMALL LETTER ALPHA WITH VARIA AND YPOGEGRAMMENI:\u{1FB2}\n\
GREEK SMALL LETTER ALPHA WITH YPOGEGRAMMENI:\u{1FB3}\n\
GREEK SMALL LETTER ALPHA WITH OXIA AND YPOGEGRAMMENI:\u{1FB4}\n\
GREEK SMALL LETTER ALPHA WITH PERISPOMENI:\u{1FB6}\n\
GREEK SMALL LETTER ALPHA WITH PERISPOMENI AND YPOGEGRAMMENI:\u{1FB7}\n\
GREEK CAPITAL LETTER ALPHA WITH VRACHY:\u{1FB8}\n\
GREEK CAPITAL LETTER ALPHA WITH MACRON:\u{1FB9}\n\
GREEK CAPITAL LETTER ALPHA WITH VARIA:\u{1FBA}\n\
GREEK CAPITAL LETTER ALPHA WITH OXIA:\u{1FBB}\n\
GREEK CAPITAL LETTER ALPHA WITH PROSGEGRAMMENI:\u{1FBC}\n\
GREEK KORONIS:\u{1FBD}\n\
GREEK PROSGEGRAMMENI:\u{1FBE}\n\
GREEK PSILI:\u{1FBF}\n\
GREEK PERISPOMENI:\u{1FC0}\n\
GREEK DIALYTIKA AND PERISPOMENI:\u{1FC1}\n\
GREEK SMALL LETTER ETA WITH VARIA AND YPOGEGRAMMENI:\u{1FC2}\n\
GREEK SMALL LETTER ETA WITH YPOGEGRAMMENI:\u{1FC3}\n\
GREEK SMALL LETTER ETA WITH OXIA AND YPOGEGRAMMENI:\u{1FC4}\n\
GREEK SMALL LETTER ETA WITH PERISPOMENI:\u{1FC6}\n\
GREEK SMALL LETTER ETA WITH PERISPOMENI AND YPOGEGRAMMENI:\u{1FC7}\n\
GREEK CAPITAL LETTER EPSILON WITH VARIA:\u{1FC8}\n\
GREEK CAPITAL LETTER EPSILON WITH OXIA:\u{1FC9}\n\
GREEK CAPITAL LETTER ETA WITH VARIA:\u{1FCA}\n\
GREEK CAPITAL LETTER ETA WITH OXIA:\u{1FCB}\n\
GREEK CAPITAL LETTER ETA WITH PROSGEGRAMMENI:\u{1FCC}\n\
GREEK PSILI AND VARIA:\u{1FCD}\n\
GREEK PSILI AND OXIA:\u{1FCE}\n\
GREEK PSILI AND PERISPOMENI:\u{1FCF}\n\
GREEK SMALL LETTER IOTA WITH VRACHY:\u{1FD0}\n\
GREEK SMALL LETTER IOTA WITH MACRON:\u{1FD1}\n\
GREEK SMALL LETTER IOTA WITH DIALYTIKA AND VARIA:\u{1FD2}\n\
GREEK SMALL LETTER IOTA WITH DIALYTIKA AND OXIA:\u{1FD3}\n\
GREEK SMALL LETTER IOTA WITH PERISPOMENI:\u{1FD6}\n\
GREEK SMALL LETTER IOTA WITH DIALYTIKA AND PERISPOMENI:\u{1FD7}\n\
GREEK CAPITAL LETTER IOTA WITH VRACHY:\u{1FD8}\n\
GREEK CAPITAL LETTER IOTA WITH MACRON:\u{1FD9}\n\
GREEK CAPITAL LETTER IOTA WITH VARIA:\u{1FDA}\n\
GREEK CAPITAL LETTER IOTA WITH OXIA:\u{1FDB}\n\
GREEK DASIA AND VARIA:\u{1FDD}\n\
GREEK DASIA AND OXIA:\u{1FDE}\n\
GREEK DASIA AND PERISPOMENI:\u{1FDF}\n\
GREEK SMALL LETTER UPSILON WITH VRACHY:\u{1FE0}\n\
GREEK SMALL LETTER UPSILON WITH MACRON:\u{1FE1}\n\
GREEK SMALL LETTER UPSILON WITH DIALYTIKA AND VARIA:\u{1FE2}\n\
GREEK SMALL LETTER UPSILON WITH DIALYTIKA AND OXIA:\u{1FE3}\n\
GREEK SMALL LETTER RHO WITH PSILI:\u{1FE4}\n\
GREEK SMALL LETTER RHO WITH DASIA:\u{1FE5}\n\
GREEK SMALL LETTER UPSILON WITH PERISPOMENI:\u{1FE6}\n\
GREEK SMALL LETTER UPSILON WITH DIALYTIKA AND PERISPOMENI:\u{1FE7}\n\
GREEK CAPITAL LETTER UPSILON WITH VRACHY:\u{1FE8}\n\
GREEK CAPITAL LETTER UPSILON WITH MACRON:\u{1FE9}\n\
GREEK CAPITAL LETTER UPSILON WITH VARIA:\u{1FEA}\n\
GREEK CAPITAL LETTER UPSILON WITH OXIA:\u{1FEB}\n\
GREEK CAPITAL LETTER RHO WITH DASIA:\u{1FEC}\n\
GREEK DIALYTIKA AND VARIA:\u{1FED}\n\
GREEK DIALYTIKA AND OXIA:\u{1FEE}\n\
GREEK VARIA:\u{1FEF}\n\
GREEK SMALL LETTER OMEGA WITH VARIA AND YPOGEGRAMMENI:\u{1FF2}\n\
GREEK SMALL LETTER OMEGA WITH YPOGEGRAMMENI:\u{1FF3}\n\
GREEK SMALL LETTER OMEGA WITH OXIA AND YPOGEGRAMMENI:\u{1FF4}\n\
GREEK SMALL LETTER OMEGA WITH PERISPOMENI:\u{1FF6}\n\
GREEK SMALL LETTER OMEGA WITH PERISPOMENI AND YPOGEGRAMMENI:\u{1FF7}\n\
GREEK CAPITAL LETTER OMICRON WITH VARIA:\u{1FF8}\n\
GREEK CAPITAL LETTER OMICRON WITH OXIA:\u{1FF9}\n\
GREEK CAPITAL LETTER OMEGA WITH VARIA:\u{1FFA}\n\
GREEK CAPITAL LETTER OMEGA WITH OXIA:\u{1FFB}\n\
GREEK CAPITAL LETTER OMEGA WITH PROSGEGRAMMENI:\u{1FFC}\n\
GREEK OXIA:\u{1FFD}\n\
GREEK DASIA:\u{1FFE}\n\
EN QUAD:\u{2000}\n\
EM QUAD:\u{2001}\n\
EN SPACE:\u{2002}\n\
EM SPACE:\u{2003}\n\
THREE-PER-EM SPACE:\u{2004}\n\
FOUR-PER-EM SPACE:\u{2005}\n\
SIX-PER-EM SPACE:\u{2006}\n\
FIGURE SPACE:\u{2007}\n\
PUNCTUATION SPACE:\u{2008}\n\
THIN SPACE:\u{2009}\n\
HAIR SPACE:\u{200A}\n\
ZERO WIDTH SPACE:\u{200B}\n\
ZERO WIDTH NON-JOINER:\u{200C}\n\
ZERO WIDTH JOINER:\u{200D}\n\
LEFT-TO-RIGHT MARK:\u{200E}\n\
RIGHT-TO-LEFT MARK:\u{200F}\n\
HYPHEN:\u{2010}\n\
NON-BREAKING HYPHEN:\u{2011}\n\
FIGURE DASH:\u{2012}\n\
EN DASH:\u{2013}\n\
EM DASH:\u{2014}\n\
HORIZONTAL BAR:\u{2015}\n\
DOUBLE VERTICAL LINE:\u{2016}\n\
DOUBLE LOW LINE:\u{2017}\n\
LEFT SINGLE QUOTATION MARK:\u{2018}\n\
RIGHT SINGLE QUOTATION MARK:\u{2019}\n\
SINGLE LOW-9 QUOTATION MARK:\u{201A}\n\
SINGLE HIGH-REVERSED-9 QUOTATION MARK:\u{201B}\n\
LEFT DOUBLE QUOTATION MARK:\u{201C}\n\
RIGHT DOUBLE QUOTATION MARK:\u{201D}\n\
DOUBLE LOW-9 QUOTATION MARK:\u{201E}\n\
DOUBLE HIGH-REVERSED-9 QUOTATION MARK:\u{201F}\n\
DAGGER:\u{2020}\n\
DOUBLE DAGGER:\u{2021}\n\
BULLET:\u{2022}\n\
TRIANGULAR BULLET:\u{2023}\n\
ONE DOT LEADER:\u{2024}\n\
TWO DOT LEADER:\u{2025}\n\
HORIZONTAL ELLIPSIS:\u{2026}\n\
HYPHENATION POINT:\u{2027}\n\
LINE SEPARATOR:\u{2028}\n\
PARAGRAPH SEPARATOR:\u{2029}\n\
LEFT-TO-RIGHT EMBEDDING:\u{202A}\n\
RIGHT-TO-LEFT EMBEDDING:\u{202B}\n\
POP DIRECTIONAL FORMATTING:\u{202C}\n\
LEFT-TO-RIGHT OVERRIDE:\u{202D}\n\
RIGHT-TO-LEFT OVERRIDE:\u{202E}\n\
NARROW NO-BREAK SPACE:\u{202F}\n\
PER MILLE SIGN:\u{2030}\n\
PER TEN THOUSAND SIGN:\u{2031}\n\
PRIME:\u{2032}\n\
DOUBLE PRIME:\u{2033}\n\
TRIPLE PRIME:\u{2034}\n\
REVERSED PRIME:\u{2035}\n\
REVERSED DOUBLE PRIME:\u{2036}\n\
REVERSED TRIPLE PRIME:\u{2037}\n\
CARET:\u{2038}\n\
SINGLE LEFT-POINTING ANGLE QUOTATION MARK:\u{2039}\n\
SINGLE RIGHT-POINTING ANGLE QUOTATION MARK:\u{203A}\n\
REFERENCE MARK:\u{203B}\n\
DOUBLE EXCLAMATION MARK:\u{203C}\n\
INTERROBANG:\u{203D}\n\
OVERLINE:\u{203E}\n\
UNDERTIE:\u{203F}\n\
CHARACTER TIE:\u{2040}\n\
CARET INSERTION POINT:\u{2041}\n\
ASTERISM:\u{2042}\n\
HYPHEN BULLET:\u{2043}\n\
FRACTION SLASH:\u{2044}\n\
LEFT SQUARE BRACKET WITH QUILL:\u{2045}\n\
RIGHT SQUARE BRACKET WITH QUILL:\u{2046}\n\
DOUBLE QUESTION MARK:\u{2047}\n\
QUESTION EXCLAMATION MARK:\u{2048}\n\
EXCLAMATION QUESTION MARK:\u{2049}\n\
TIRONIAN SIGN ET:\u{204A}\n\
REVERSED PILCROW SIGN:\u{204B}\n";

pub const NAMES_19: &'static str = "BLACK LEFTWARDS BULLET:\u{204C}\n\
BLACK RIGHTWARDS BULLET:\u{204D}\n\
LOW ASTERISK:\u{204E}\n\
REVERSED SEMICOLON:\u{204F}\n\
CLOSE UP:\u{2050}\n\
TWO ASTERISKS ALIGNED VERTICALLY:\u{2051}\n\
COMMERCIAL MINUS SIGN:\u{2052}\n\
SWUNG DASH:\u{2053}\n\
INVERTED UNDERTIE:\u{2054}\n\
FLOWER PUNCTUATION MARK:\u{2055}\n\
THREE DOT PUNCTUATION:\u{2056}\n\
QUADRUPLE PRIME:\u{2057}\n\
FOUR DOT PUNCTUATION:\u{2058}\n\
FIVE DOT PUNCTUATION:\u{2059}\n\
TWO DOT PUNCTUATION:\u{205A}\n\
FOUR DOT MARK:\u{205B}\n\
DOTTED CROSS:\u{205C}\n\
TRICOLON:\u{205D}\n\
VERTICAL FOUR DOTS:\u{205E}\n\
MEDIUM MATHEMATICAL SPACE:\u{205F}\n\
WORD JOINER:\u{2060}\n\
FUNCTION APPLICATION:\u{2061}\n\
INVISIBLE TIMES:\u{2062}\n\
INVISIBLE SEPARATOR:\u{2063}\n\
INVISIBLE PLUS:\u{2064}\n\
LEFT-TO-RIGHT ISOLATE:\u{2066}\n\
RIGHT-TO-LEFT ISOLATE:\u{2067}\n\
FIRST STRONG ISOLATE:\u{2068}\n\
POP DIRECTIONAL ISOLATE:\u{2069}\n\
INHIBIT SYMMETRIC SWAPPING:\u{206A}\n\
ACTIVATE SYMMETRIC SWAPPING:\u{206B}\n\
INHIBIT ARABIC FORM SHAPING:\u{206C}\n\
ACTIVATE ARABIC FORM SHAPING:\u{206D}\n\
NATIONAL DIGIT SHAPES:\u{206E}\n\
NOMINAL DIGIT SHAPES:\u{206F}\n\
SUPERSCRIPT ZERO:\u{2070}\n\
SUPERSCRIPT LATIN SMALL LETTER I:\u{2071}\n\
SUPERSCRIPT FOUR:\u{2074}\n\
SUPERSCRIPT FIVE:\u{2075}\n\
SUPERSCRIPT SIX:\u{2076}\n\
SUPERSCRIPT SEVEN:\u{2077}\n\
SUPERSCRIPT EIGHT:\u{2078}\n\
SUPERSCRIPT NINE:\u{2079}\n\
SUPERSCRIPT PLUS SIGN:\u{207A}\n\
SUPERSCRIPT MINUS:\u{207B}\n\
SUPERSCRIPT EQUALS SIGN:\u{207C}\n\
SUPERSCRIPT LEFT PARENTHESIS:\u{207D}\n\
SUPERSCRIPT RIGHT PARENTHESIS:\u{207E}\n\
SUPERSCRIPT LATIN SMALL LETTER N:\u{207F}\n\
SUBSCRIPT ZERO:\u{2080}\n\
SUBSCRIPT ONE:\u{2081}\n\
SUBSCRIPT TWO:\u{2082}\n\
SUBSCRIPT THREE:\u{2083}\n\
SUBSCRIPT FOUR:\u{2084}\n\
SUBSCRIPT FIVE:\u{2085}\n\
SUBSCRIPT SIX:\u{2086}\n\
SUBSCRIPT SEVEN:\u{2087}\n\
SUBSCRIPT EIGHT:\u{2088}\n\
SUBSCRIPT NINE:\u{2089}\n\
SUBSCRIPT PLUS SIGN:\u{208A}\n\
SUBSCRIPT MINUS:\u{208B}\n\
SUBSCRIPT EQUALS SIGN:\u{208C}\n\
SUBSCRIPT LEFT PARENTHESIS:\u{208D}\n\
SUBSCRIPT RIGHT PARENTHESIS:\u{208E}\n\
LATIN SUBSCRIPT SMALL LETTER A:\u{2090}\n\
LATIN SUBSCRIPT SMALL LETTER E:\u{2091}\n\
LATIN SUBSCRIPT SMALL LETTER O:\u{2092}\n\
LATIN SUBSCRIPT SMALL LETTER X:\u{2093}\n\
LATIN SUBSCRIPT SMALL LETTER SCHWA:\u{2094}\n\
LATIN SUBSCRIPT SMALL LETTER H:\u{2095}\n\
LATIN SUBSCRIPT SMALL LETTER K:\u{2096}\n\
LATIN SUBSCRIPT SMALL LETTER L:\u{2097}\n\
LATIN SUBSCRIPT SMALL LETTER M:\u{2098}\n\
LATIN SUBSCRIPT SMALL LETTER N:\u{2099}\n\
LATIN SUBSCRIPT SMALL LETTER P:\u{209A}\n\
LATIN SUBSCRIPT SMALL LETTER S:\u{209B}\n\
LATIN SUBSCRIPT SMALL LETTER T:\u{209C}\n\
EURO-CURRENCY SIGN:\u{20A0}\n\
COLON SIGN:\u{20A1}\n\
CRUZEIRO SIGN:\u{20A2}\n\
FRENCH FRANC SIGN:\u{20A3}\n\
LIRA SIGN:\u{20A4}\n\
MILL SIGN:\u{20A5}\n\
NAIRA SIGN:\u{20A6}\n\
PESETA SIGN:\u{20A7}\n\
RUPEE SIGN:\u{20A8}\n\
WON SIGN:\u{20A9}\n\
NEW SHEQEL SIGN:\u{20AA}\n\
DONG SIGN:\u{20AB}\n\
EURO SIGN:\u{20AC}\n\
KIP SIGN:\u{20AD}\n\
TUGRIK SIGN:\u{20AE}\n\
DRACHMA SIGN:\u{20AF}\n\
GERMAN PENNY SIGN:\u{20B0}\n\
PESO SIGN:\u{20B1}\n\
GUARANI SIGN:\u{20B2}\n\
AUSTRAL SIGN:\u{20B3}\n\
HRYVNIA SIGN:\u{20B4}\n\
CEDI SIGN:\u{20B5}\n\
LIVRE TOURNOIS SIGN:\u{20B6}\n\
SPESMILO SIGN:\u{20B7}\n\
TENGE SIGN:\u{20B8}\n\
INDIAN RUPEE SIGN:\u{20B9}\n\
TURKISH LIRA SIGN:\u{20BA}\n\
NORDIC MARK SIGN:\u{20BB}\n\
MANAT SIGN:\u{20BC}\n\
RUBLE SIGN:\u{20BD}\n\
LARI SIGN:\u{20BE}\n\
BITCOIN SIGN:\u{20BF}\n\
SOM SIGN:\u{20C0}\n\
COMBINING LEFT HARPOON ABOVE:\u{20D0}\n\
COMBINING RIGHT HARPOON ABOVE:\u{20D1}\n\
COMBINING LONG VERTICAL LINE OVERLAY:\u{20D2}\n\
COMBINING SHORT VERTICAL LINE OVERLAY:\u{20D3}\n\
COMBINING ANTICLOCKWISE ARROW ABOVE:\u{20D4}\n\
COMBINING CLOCKWISE ARROW ABOVE:\u{20D5}\n\
COMBINING LEFT ARROW ABOVE:\u{20D6}\n\
COMBINING RIGHT ARROW ABOVE:\u{20D7}\n\
COMBINING RING OVERLAY:\u{20D8}\n\
COMBINING CLOCKWISE RING OVERLAY:\u{20D9}\n\
COMBINING ANTICLOCKWISE RING OVERLAY:\u{20DA}\n\
COMBINING THREE DOTS ABOVE:\u{20DB}\n\
COMBINING FOUR DOTS ABOVE:\u{20DC}\n\
COMBINING ENCLOSING CIRCLE:\u{20DD}\n\
COMBINING ENCLOSING SQUARE:\u{20DE}\n\
COMBINING ENCLOSING DIAMOND:\u{20DF}\n\
COMBINING ENCLOSING CIRCLE BACKSLASH:\u{20E0}\n\
COMBINING LEFT RIGHT ARROW ABOVE:\u{20E1}\n\
COMBINING ENCLOSING SCREEN:\u{20E2}\n\
COMBINING ENCLOSING KEYCAP:\u{20E3}\n\
COMBINING ENCLOSING UPWARD POINTING TRIANGLE:\u{20E4}\n\
COMBINING REVERSE SOLIDUS OVERLAY:\u{20E5}\n\
COMBINING DOUBLE VERTICAL STROKE OVERLAY:\u{20E6}\n\
COMBINING ANNUITY SYMBOL:\u{20E7}\n\
COMBINING TRIPLE UNDERDOT:\u{20E8}\n\
COMBINING WIDE BRIDGE ABOVE:\u{20E9}\n\
COMBINING LEFTWARDS ARROW OVERLAY:\u{20EA}\n\
COMBINING LONG DOUBLE SOLIDUS OVERLAY:\u{20EB}\n\
COMBINING RIGHTWARDS HARPOON WITH BARB DOWNWARDS:\u{20EC}\n\
COMBINING LEFTWARDS HARPOON WITH BARB DOWNWARDS:\u{20ED}\n\
COMBINING LEFT ARROW BELOW:\u{20EE}\n\
COMBINING RIGHT ARROW BELOW:\u{20EF}\n\
COMBINING ASTERISK ABOVE:\u{20F0}\n\
ACCOUNT OF:\u{2100}\n\
ADDRESSED TO THE SUBJECT:\u{2101}\n\
DOUBLE-STRUCK CAPITAL C:\u{2102}\n\
DEGREE CELSIUS:\u{2103}\n\
CENTRE LINE SYMBOL:\u{2104}\n\
CARE OF:\u{2105}\n\
CADA UNA:\u{2106}\n\
EULER CONSTANT:\u{2107}\n\
SCRUPLE:\u{2108}\n\
DEGREE FAHRENHEIT:\u{2109}\n\
SCRIPT SMALL G:\u{210A}\n\
SCRIPT CAPITAL H:\u{210B}\n\
BLACK-LETTER CAPITAL H:\u{210C}\n\
DOUBLE-STRUCK CAPITAL H:\u{210D}\n\
PLANCK CONSTANT:\u{210E}\n\
PLANCK CONSTANT OVER TWO PI:\u{210F}\n\
SCRIPT CAPITAL I:\u{2110}\n\
BLACK-LETTER CAPITAL I:\u{2111}\n\
SCRIPT CAPITAL L:\u{2112}\n\
SCRIPT SMALL L:\u{2113}\n\
L B BAR SYMBOL:\u{2114}\n\
DOUBLE-STRUCK CAPITAL N:\u{2115}\n\
NUMERO SIGN:\u{2116}\n\
SOUND RECORDING COPYRIGHT:\u{2117}\n\
SCRIPT CAPITAL P:\u{2118}\n\
DOUBLE-STRUCK CAPITAL P:\u{2119}\n\
DOUBLE-STRUCK CAPITAL Q:\u{211A}\n\
SCRIPT CAPITAL R:\u{211B}\n\
BLACK-LETTER CAPITAL R:\u{211C}\n\
DOUBLE-STRUCK CAPITAL R:\u{211D}\n\
PRESCRIPTION TAKE:\u{211E}\n\
RESPONSE:\u{211F}\n\
SERVICE MARK:\u{2120}\n\
TELEPHONE SIGN:\u{2121}\n\
TRADE MARK SIGN:\u{2122}\n\
VERSICLE:\u{2123}\n\
DOUBLE-STRUCK CAPITAL Z:\u{2124}\n\
OUNCE SIGN:\u{2125}\n\
OHM SIGN:\u{2126}\n\
INVERTED OHM SIGN:\u{2127}\n\
BLACK-LETTER CAPITAL Z:\u{2128}\n\
TURNED GREEK SMALL LETTER IOTA:\u{2129}\n\
KELVIN SIGN:\u{212A}\n\
ANGSTROM SIGN:\u{212B}\n\
SCRIPT CAPITAL B:\u{212C}\n\
BLACK-LETTER CAPITAL C:\u{212D}\n\
ESTIMATED SYMBOL:\u{212E}\n\
SCRIPT SMALL E:\u{212F}\n\
SCRIPT CAPITAL E:\u{2130}\n\
SCRIPT CAPITAL F:\u{2131}\n\
TURNED CAPITAL F:\u{2132}\n\
SCRIPT CAPITAL M:\u{2133}\n\
SCRIPT SMALL O:\u{2134}\n\
ALEF SYMBOL:\u{2135}\n\
BET SYMBOL:\u{2136}\n\
GIMEL SYMBOL:\u{2137}\n\
DALET SYMBOL:\u{2138}\n\
INFORMATION SOURCE:\u{2139}\n\
ROTATED CAPITAL Q:\u{213A}\n\
FACSIMILE SIGN:\u{213B}\n\
DOUBLE-STRUCK SMALL PI:\u{213C}\n\
DOUBLE-STRUCK SMALL GAMMA:\u{213D}\n\
DOUBLE-STRUCK CAPITAL GAMMA:\u{213E}\n\
DOUBLE-STRUCK CAPITAL PI:\u{213F}\n\
DOUBLE-STRUCK N-ARY SUMMATION:\u{2140}\n\
TURNED SANS-SERIF CAPITAL G:\u{2141}\n\
TURNED SANS-SERIF CAPITAL L:\u{2142}\n\
REVERSED SANS-SERIF CAPITAL L:\u{2143}\n\
TURNED SANS-SERIF CAPITAL Y:\u{2144}\n\
DOUBLE-STRUCK ITALIC CAPITAL D:\u{2145}\n\
DOUBLE-STRUCK ITALIC SMALL D:\u{2146}\n\
DOUBLE-STRUCK ITALIC SMALL E:\u{2147}\n\
DOUBLE-STRUCK ITALIC SMALL I:\u{2148}\n\
DOUBLE-STRUCK ITALIC SMALL J:\u{2149}\n\
PROPERTY LINE:\u{214A}\n\
TURNED AMPERSAND:\u{214B}\n\
PER SIGN:\u{214C}\n\
AKTIESELSKAB:\u{214D}\n\
TURNED SMALL F:\u{214E}\n\
SYMBOL FOR SAMARITAN SOURCE:\u{214F}\n\
VULGAR FRACTION ONE SEVENTH:\u{2150}\n\
VULGAR FRACTION ONE NINTH:\u{2151}\n\
VULGAR FRACTION ONE TENTH:\u{2152}\n\
VULGAR FRACTION ONE THIRD:\u{2153}\n\
VULGAR FRACTION TWO THIRDS:\u{2154}\n\
VULGAR FRACTION ONE FIFTH:\u{2155}\n\
VULGAR FRACTION TWO FIFTHS:\u{2156}\n\
VULGAR FRACTION THREE FIFTHS:\u{2157}\n\
VULGAR FRACTION FOUR FIFTHS:\u{2158}\n\
VULGAR FRACTION ONE SIXTH:\u{2159}\n\
VULGAR FRACTION FIVE SIXTHS:\u{215A}\n\
VULGAR FRACTION ONE EIGHTH:\u{215B}\n\
VULGAR FRACTION THREE EIGHTHS:\u{215C}\n\
VULGAR FRACTION FIVE EIGHTHS:\u{215D}\n\
VULGAR FRACTION SEVEN EIGHTHS:\u{215E}\n\
FRACTION NUMERATOR ONE:\u{215F}\n\
ROMAN NUMERAL ONE:\u{2160}\n\
ROMAN NUMERAL TWO:\u{2161}\n\
ROMAN NUMERAL THREE:\u{2162}\n\
ROMAN NUMERAL FOUR:\u{2163}\n\
ROMAN NUMERAL FIVE:\u{2164}\n\
ROMAN NUMERAL SIX:\u{2165}\n\
ROMAN NUMERAL SEVEN:\u{2166}\n\
ROMAN NUMERAL EIGHT:\u{2167}\n\
ROMAN NUMERAL NINE:\u{2168}\n\
ROMAN NUMERAL TEN:\u{2169}\n\
ROMAN NUMERAL ELEVEN:\u{216A}\n\
ROMAN NUMERAL TWELVE:\u{216B}\n\
ROMAN NUMERAL FIFTY:\u{216C}\n\
ROMAN NUMERAL ONE HUNDRED:\u{216D}\n\
ROMAN NUMERAL FIVE HUNDRED:\u{216E}\n\
ROMAN NUMERAL ONE THOUSAND:\u{216F}\n\
SMALL ROMAN NUMERAL ONE:\u{2170}\n\
SMALL ROMAN NUMERAL TWO:\u{2171}\n\
SMALL ROMAN NUMERAL THREE:\u{2172}\n\
SMALL ROMAN NUMERAL FOUR:\u{2173}\n\
SMALL ROMAN NUMERAL FIVE:\u{2174}\n\
SMALL ROMAN NUMERAL SIX:\u{2175}\n\
SMALL ROMAN NUMERAL SEVEN:\u{2176}\n\
SMALL ROMAN NUMERAL EIGHT:\u{2177}\n\
SMALL ROMAN NUMERAL NINE:\u{2178}\n\
SMALL ROMAN NUMERAL TEN:\u{2179}\n\
SMALL ROMAN NUMERAL ELEVEN:\u{217A}\n\
SMALL ROMAN NUMERAL TWELVE:\u{217B}\n\
SMALL ROMAN NUMERAL FIFTY:\u{217C}\n\
SMALL ROMAN NUMERAL ONE HUNDRED:\u{217D}\n\
SMALL ROMAN NUMERAL FIVE HUNDRED:\u{217E}\n\
SMALL ROMAN NUMERAL ONE THOUSAND:\u{217F}\n\
ROMAN NUMERAL ONE THOUSAND C D:\u{2180}\n\
ROMAN NUMERAL FIVE THOUSAND:\u{2181}\n\
ROMAN NUMERAL TEN THOUSAND:\u{2182}\n\
ROMAN NUMERAL REVERSED ONE HUNDRED:\u{2183}\n\
LATIN SMALL LETTER REVERSED C:\u{2184}\n\
ROMAN NUMERAL SIX LATE FORM:\u{2185}\n\
ROMAN NUMERAL FIFTY EARLY FORM:\u{2186}\n\
ROMAN NUMERAL FIFTY THOUSAND:\u{2187}\n\
ROMAN NUMERAL ONE HUNDRED THOUSAND:\u{2188}\n\
VULGAR FRACTION ZERO THIRDS:\u{2189}\n\
TURNED DIGIT TWO:\u{218A}\n\
TURNED DIGIT THREE:\u{218B}\n\
LEFTWARDS ARROW:\u{2190}\n\
UPWARDS ARROW:\u{2191}\n\
RIGHTWARDS ARROW:\u{2192}\n\
DOWNWARDS ARROW:\u{2193}\n\
LEFT RIGHT ARROW:\u{2194}\n\
UP DOWN ARROW:\u{2195}\n\
NORTH WEST ARROW:\u{2196}\n\
NORTH EAST ARROW:\u{2197}\n\
SOUTH EAST ARROW:\u{2198}\n\
SOUTH WEST ARROW:\u{2199}\n\
LEFTWARDS ARROW WITH STROKE:\u{219A}\n\
RIGHTWARDS ARROW WITH STROKE:\u{219B}\n\
LEFTWARDS WAVE ARROW:\u{219C}\n\
RIGHTWARDS WAVE ARROW:\u{219D}\n\
LEFTWARDS TWO HEADED ARROW:\u{219E}\n\
UPWARDS TWO HEADED ARROW:\u{219F}\n\
RIGHTWARDS TWO HEADED ARROW:\u{21A0}\n\
DOWNWARDS TWO HEADED ARROW:\u{21A1}\n\
LEFTWARDS ARROW WITH TAIL:\u{21A2}\n\
RIGHTWARDS ARROW WITH TAIL:\u{21A3}\n\
LEFTWARDS ARROW FROM BAR:\u{21A4}\n\
UPWARDS ARROW FROM BAR:\u{21A5}\n\
RIGHTWARDS ARROW FROM BAR:\u{21A6}\n\
DOWNWARDS ARROW FROM BAR:\u{21A7}\n\
UP DOWN ARROW WITH BASE:\u{21A8}\n\
LEFTWARDS ARROW WITH HOOK:\u{21A9}\n\
RIGHTWARDS ARROW WITH HOOK:\u{21AA}\n\
LEFTWARDS ARROW WITH LOOP:\u{21AB}\n\
RIGHTWARDS ARROW WITH LOOP:\u{21AC}\n\
LEFT RIGHT WAVE ARROW:\u{21AD}\n\
LEFT RIGHT ARROW WITH STROKE:\u{21AE}\n\
DOWNWARDS ZIGZAG ARROW:\u{21AF}\n\
UPWARDS ARROW WITH TIP LEFTWARDS:\u{21B0}\n\
UPWARDS ARROW WITH TIP RIGHTWARDS:\u{21B1}\n\
DOWNWARDS ARROW WITH TIP LEFTWARDS:\u{21B2}\n\
DOWNWARDS ARROW WITH TIP RIGHTWARDS:\u{21B3}\n\
RIGHTWARDS ARROW WITH CORNER DOWNWARDS:\u{21B4}\n\
DOWNWARDS ARROW WITH CORNER LEFTWARDS:\u{21B5}\n\
ANTICLOCKWISE TOP SEMICIRCLE ARROW:\u{21B6}\n\
CLOCKWISE TOP SEMICIRCLE ARROW:\u{21B7}\n\
NORTH WEST ARROW TO LONG BAR:\u{21B8}\n\
LEFTWARDS ARROW TO BAR OVER RIGHTWARDS ARROW TO BAR:\u{21B9}\n\
ANTICLOCKWISE OPEN CIRCLE ARROW:\u{21BA}\n\
CLOCKWISE OPEN CIRCLE ARROW:\u{21BB}\n\
LEFTWARDS HARPOON WITH BARB UPWARDS:\u{21BC}\n\
LEFTWARDS HARPOON WITH BARB DOWNWARDS:\u{21BD}\n\
UPWARDS HARPOON WITH BARB RIGHTWARDS:\u{21BE}\n\
UPWARDS HARPOON WITH BARB LEFTWARDS:\u{21BF}\n\
RIGHTWARDS HARPOON WITH BARB UPWARDS:\u{21C0}\n\
RIGHTWARDS HARPOON WITH BARB DOWNWARDS:\u{21C1}\n\
DOWNWARDS HARPOON WITH BARB RIGHTWARDS:\u{21C2}\n\
DOWNWARDS HARPOON WITH BARB LEFTWARDS:\u{21C3}\n\
RIGHTWARDS ARROW OVER LEFTWARDS ARROW:\u{21C4}\n\
UPWARDS ARROW LEFTWARDS OF DOWNWARDS ARROW:\u{21C5}\n\
LEFTWARDS ARROW OVER RIGHTWARDS ARROW:\u{21C6}\n\
LEFTWARDS PAIRED ARROWS:\u{21C7}\n\
UPWARDS PAIRED ARROWS:\u{21C8}\n\
RIGHTWARDS PAIRED ARROWS:\u{21C9}\n\
DOWNWARDS PAIRED ARROWS:\u{21CA}\n\
LEFTWARDS HARPOON OVER RIGHTWARDS HARPOON:\u{21CB}\n\
RIGHTWARDS HARPOON OVER LEFTWARDS HARPOON:\u{21CC}\n\
LEFTWARDS DOUBLE ARROW WITH STROKE:\u{21CD}\n\
LEFT RIGHT DOUBLE ARROW WITH STROKE:\u{21CE}\n\
RIGHTWARDS DOUBLE ARROW WITH STROKE:\u{21CF}\n\
LEFTWARDS DOUBLE ARROW:\u{21D0}\n\
UPWARDS DOUBLE ARROW:\u{21D1}\n\
RIGHTWARDS DOUBLE ARROW:\u{21D2}\n\
DOWNWARDS DOUBLE ARROW:\u{21D3}\n\
LEFT RIGHT DOUBLE ARROW:\u{21D4}\n\
UP DOWN DOUBLE ARROW:\u{21D5}\n\
NORTH WEST DOUBLE ARROW:\u{21D6}\n\
NORTH EAST DOUBLE ARROW:\u{21D7}\n\
SOUTH EAST DOUBLE ARROW:\u{21D8}\n\
SOUTH WEST DOUBLE ARROW:\u{21D9}\n\
LEFTWARDS TRIPLE ARROW:\u{21DA}\n\
RIGHTWARDS TRIPLE ARROW:\u{21DB}\n\
LEFTWARDS SQUIGGLE ARROW:\u{21DC}\n\
RIGHTWARDS SQUIGGLE ARROW:\u{21DD}\n\
UPWARDS ARROW WITH DOUBLE STROKE:\u{21DE}\n\
DOWNWARDS ARROW WITH DOUBLE STROKE:\u{21DF}\n\
LEFTWARDS DASHED ARROW:\u{21E0}\n\
UPWARDS DASHED ARROW:\u{21E1}\n\
RIGHTWARDS DASHED ARROW:\u{21E2}\n\
DOWNWARDS DASHED ARROW:\u{21E3}\n\
LEFTWARDS ARROW TO BAR:\u{21E4}\n\
RIGHTWARDS ARROW TO BAR:\u{21E5}\n\
LEFTWARDS WHITE ARROW:\u{21E6}\n\
UPWARDS WHITE ARROW:\u{21E7}\n\
RIGHTWARDS WHITE ARROW:\u{21E8}\n\
DOWNWARDS WHITE ARROW:\u{21E9}\n\
UPWARDS WHITE ARROW FROM BAR:\u{21EA}\n\
UPWARDS WHITE ARROW ON PEDESTAL:\u{21EB}\n\
UPWARDS WHITE ARROW ON PEDESTAL WITH HORIZONTAL BAR:\u{21EC}\n\
UPWARDS WHITE ARROW ON PEDESTAL WITH VERTICAL BAR:\u{21ED}\n\
UPWARDS WHITE DOUBLE ARROW:\u{21EE}\n\
UPWARDS WHITE DOUBLE ARROW ON PEDESTAL:\u{21EF}\n\
RIGHTWARDS WHITE ARROW FROM WALL:\u{21F0}\n\
NORTH WEST ARROW TO CORNER:\u{21F1}\n\
SOUTH EAST ARROW TO CORNER:\u{21F2}\n\
UP DOWN WHITE ARROW:\u{21F3}\n\
RIGHT ARROW WITH SMALL CIRCLE:\u{21F4}\n\
DOWNWARDS ARROW LEFTWARDS OF UPWARDS ARROW:\u{21F5}\n\
THREE RIGHTWARDS ARROWS:\u{21F6}\n\
LEFTWARDS ARROW WITH VERTICAL STROKE:\u{21F7}\n\
RIGHTWARDS ARROW WITH VERTICAL STROKE:\u{21F8}\n\
LEFT RIGHT ARROW WITH VERTICAL STROKE:\u{21F9}\n\
LEFTWARDS ARROW WITH DOUBLE VERTICAL STROKE:\u{21FA}\n\
RIGHTWARDS ARROW WITH DOUBLE VERTICAL STROKE:\u{21FB}\n\
LEFT RIGHT ARROW WITH DOUBLE VERTICAL STROKE:\u{21FC}\n\
LEFTWARDS OPEN-HEADED ARROW:\u{21FD}\n\
RIGHTWARDS OPEN-HEADED ARROW:\u{21FE}\n\
LEFT RIGHT OPEN-HEADED ARROW:\u{21FF}\n\
FOR ALL:\u{2200}\n\
COMPLEMENT:\u{2201}\n\
PARTIAL DIFFERENTIAL:\u{2202}\n\
THERE EXISTS:\u{2203}\n\
THERE DOES NOT EXIST:\u{2204}\n\
EMPTY SET:\u{2205}\n\
INCREMENT:\u{2206}\n\
NABLA:\u{2207}\n\
ELEMENT OF:\u{2208}\n\
NOT AN ELEMENT OF:\u{2209}\n\
SMALL ELEMENT OF:\u{220A}\n\
CONTAINS AS MEMBER:\u{220B}\n\
DOES NOT CONTAIN AS MEMBER:\u{220C}\n\
SMALL CONTAINS AS MEMBER:\u{220D}\n\
END OF PROOF:\u{220E}\n\
N-ARY PRODUCT:\u{220F}\n\
N-ARY COPRODUCT:\u{2210}\n\
N-ARY SUMMATION:\u{2211}\n\
MINUS SIGN:\u{2212}\n\
MINUS-OR-PLUS SIGN:\u{2213}\n\
DOT PLUS:\u{2214}\n\
DIVISION SLASH:\u{2215}\n\
SET MINUS:\u{2216}\n\
ASTERISK OPERATOR:\u{2217}\n\
RING OPERATOR:\u{2218}\n\
BULLET OPERATOR:\u{2219}\n\
SQUARE ROOT:\u{221A}\n\
CUBE ROOT:\u{221B}\n\
FOURTH ROOT:\u{221C}\n\
PROPORTIONAL TO:\u{221D}\n";

pub const NAMES_20: &'static str = "INFINITY:\u{221E}\n\
RIGHT ANGLE:\u{221F}\n\
ANGLE:\u{2220}\n\
MEASURED ANGLE:\u{2221}\n\
SPHERICAL ANGLE:\u{2222}\n\
DIVIDES:\u{2223}\n\
DOES NOT DIVIDE:\u{2224}\n\
PARALLEL TO:\u{2225}\n\
NOT PARALLEL TO:\u{2226}\n\
LOGICAL AND:\u{2227}\n\
LOGICAL OR:\u{2228}\n\
INTERSECTION:\u{2229}\n\
UNION:\u{222A}\n\
INTEGRAL:\u{222B}\n\
DOUBLE INTEGRAL:\u{222C}\n\
TRIPLE INTEGRAL:\u{222D}\n\
CONTOUR INTEGRAL:\u{222E}\n\
SURFACE INTEGRAL:\u{222F}\n\
VOLUME INTEGRAL:\u{2230}\n\
CLOCKWISE INTEGRAL:\u{2231}\n\
CLOCKWISE CONTOUR INTEGRAL:\u{2232}\n\
ANTICLOCKWISE CONTOUR INTEGRAL:\u{2233}\n\
THEREFORE:\u{2234}\n\
BECAUSE:\u{2235}\n\
RATIO:\u{2236}\n\
PROPORTION:\u{2237}\n\
DOT MINUS:\u{2238}\n\
EXCESS:\u{2239}\n\
GEOMETRIC PROPORTION:\u{223A}\n\
HOMOTHETIC:\u{223B}\n\
TILDE OPERATOR:\u{223C}\n\
REVERSED TILDE:\u{223D}\n\
INVERTED LAZY S:\u{223E}\n\
SINE WAVE:\u{223F}\n\
WREATH PRODUCT:\u{2240}\n\
NOT TILDE:\u{2241}\n\
MINUS TILDE:\u{2242}\n\
ASYMPTOTICALLY EQUAL TO:\u{2243}\n\
NOT ASYMPTOTICALLY EQUAL TO:\u{2244}\n\
APPROXIMATELY EQUAL TO:\u{2245}\n\
APPROXIMATELY BUT NOT ACTUALLY EQUAL TO:\u{2246}\n\
NEITHER APPROXIMATELY NOR ACTUALLY EQUAL TO:\u{2247}\n\
ALMOST EQUAL TO:\u{2248}\n\
NOT ALMOST EQUAL TO:\u{2249}\n\
ALMOST EQUAL OR EQUAL TO:\u{224A}\n\
TRIPLE TILDE:\u{224B}\n\
ALL EQUAL TO:\u{224C}\n\
EQUIVALENT TO:\u{224D}\n\
GEOMETRICALLY EQUIVALENT TO:\u{224E}\n\
DIFFERENCE BETWEEN:\u{224F}\n\
APPROACHES THE LIMIT:\u{2250}\n\
GEOMETRICALLY EQUAL TO:\u{2251}\n\
APPROXIMATELY EQUAL TO OR THE IMAGE OF:\u{2252}\n\
IMAGE OF OR APPROXIMATELY EQUAL TO:\u{2253}\n\
COLON EQUALS:\u{2254}\n\
EQUALS COLON:\u{2255}\n\
RING IN EQUAL TO:\u{2256}\n\
RING EQUAL TO:\u{2257}\n\
CORRESPONDS TO:\u{2258}\n\
ESTIMATES:\u{2259}\n\
EQUIANGULAR TO:\u{225A}\n\
STAR EQUALS:\u{225B}\n\
DELTA EQUAL TO:\u{225C}\n\
EQUAL TO BY DEFINITION:\u{225D}\n\
MEASURED BY:\u{225E}\n\
QUESTIONED EQUAL TO:\u{225F}\n\
NOT EQUAL TO:\u{2260}\n\
IDENTICAL TO:\u{2261}\n\
NOT IDENTICAL TO:\u{2262}\n\
STRICTLY EQUIVALENT TO:\u{2263}\n\
LESS-THAN OR EQUAL TO:\u{2264}\n\
GREATER-THAN OR EQUAL TO:\u{2265}\n\
LESS-THAN OVER EQUAL TO:\u{2266}\n\
GREATER-THAN OVER EQUAL TO:\u{2267}\n\
LESS-THAN BUT NOT EQUAL TO:\u{2268}\n\
GREATER-THAN BUT NOT EQUAL TO:\u{2269}\n\
MUCH LESS-THAN:\u{226A}\n\
MUCH GREATER-THAN:\u{226B}\n\
BETWEEN:\u{226C}\n\
NOT EQUIVALENT TO:\u{226D}\n\
NOT LESS-THAN:\u{226E}\n\
NOT GREATER-THAN:\u{226F}\n\
NEITHER LESS-THAN NOR EQUAL TO:\u{2270}\n\
NEITHER GREATER-THAN NOR EQUAL TO:\u{2271}\n\
LESS-THAN OR EQUIVALENT TO:\u{2272}\n\
GREATER-THAN OR EQUIVALENT TO:\u{2273}\n\
NEITHER LESS-THAN NOR EQUIVALENT TO:\u{2274}\n\
NEITHER GREATER-THAN NOR EQUIVALENT TO:\u{2275}\n\
LESS-THAN OR GREATER-THAN:\u{2276}\n\
GREATER-THAN OR LESS-THAN:\u{2277}\n\
NEITHER LESS-THAN NOR GREATER-THAN:\u{2278}\n\
NEITHER GREATER-THAN NOR LESS-THAN:\u{2279}\n\
PRECEDES:\u{227A}\n\
SUCCEEDS:\u{227B}\n\
PRECEDES OR EQUAL TO:\u{227C}\n\
SUCCEEDS OR EQUAL TO:\u{227D}\n\
PRECEDES OR EQUIVALENT TO:\u{227E}\n\
SUCCEEDS OR EQUIVALENT TO:\u{227F}\n\
DOES NOT PRECEDE:\u{2280}\n\
DOES NOT SUCCEED:\u{2281}\n\
SUBSET OF:\u{2282}\n\
SUPERSET OF:\u{2283}\n\
NOT A SUBSET OF:\u{2284}\n\
NOT A SUPERSET OF:\u{2285}\n\
SUBSET OF OR EQUAL TO:\u{2286}\n\
SUPERSET OF OR EQUAL TO:\u{2287}\n\
NEITHER A SUBSET OF NOR EQUAL TO:\u{2288}\n\
NEITHER A SUPERSET OF NOR EQUAL TO:\u{2289}\n\
SUBSET OF WITH NOT EQUAL TO:\u{228A}\n\
SUPERSET OF WITH NOT EQUAL TO:\u{228B}\n\
MULTISET:\u{228C}\n\
MULTISET MULTIPLICATION:\u{228D}\n\
MULTISET UNION:\u{228E}\n\
SQUARE IMAGE OF:\u{228F}\n\
SQUARE ORIGINAL OF:\u{2290}\n\
SQUARE IMAGE OF OR EQUAL TO:\u{2291}\n\
SQUARE ORIGINAL OF OR EQUAL TO:\u{2292}\n\
SQUARE CAP:\u{2293}\n\
SQUARE CUP:\u{2294}\n\
CIRCLED PLUS:\u{2295}\n\
CIRCLED MINUS:\u{2296}\n\
CIRCLED TIMES:\u{2297}\n\
CIRCLED DIVISION SLASH:\u{2298}\n\
CIRCLED DOT OPERATOR:\u{2299}\n\
CIRCLED RING OPERATOR:\u{229A}\n\
CIRCLED ASTERISK OPERATOR:\u{229B}\n\
CIRCLED EQUALS:\u{229C}\n\
CIRCLED DASH:\u{229D}\n\
SQUARED PLUS:\u{229E}\n\
SQUARED MINUS:\u{229F}\n\
SQUARED TIMES:\u{22A0}\n\
SQUARED DOT OPERATOR:\u{22A1}\n\
RIGHT TACK:\u{22A2}\n\
LEFT TACK:\u{22A3}\n\
DOWN TACK:\u{22A4}\n\
UP TACK:\u{22A5}\n\
ASSERTION:\u{22A6}\n\
MODELS:\u{22A7}\n\
TRUE:\u{22A8}\n\
FORCES:\u{22A9}\n\
TRIPLE VERTICAL BAR RIGHT TURNSTILE:\u{22AA}\n\
DOUBLE VERTICAL BAR DOUBLE RIGHT TURNSTILE:\u{22AB}\n\
DOES NOT PROVE:\u{22AC}\n\
NOT TRUE:\u{22AD}\n\
DOES NOT FORCE:\u{22AE}\n\
NEGATED DOUBLE VERTICAL BAR DOUBLE RIGHT TURNSTILE:\u{22AF}\n\
PRECEDES UNDER RELATION:\u{22B0}\n\
SUCCEEDS UNDER RELATION:\u{22B1}\n\
NORMAL SUBGROUP OF:\u{22B2}\n\
CONTAINS AS NORMAL SUBGROUP:\u{22B3}\n\
NORMAL SUBGROUP OF OR EQUAL TO:\u{22B4}\n\
CONTAINS AS NORMAL SUBGROUP OR EQUAL TO:\u{22B5}\n\
ORIGINAL OF:\u{22B6}\n\
IMAGE OF:\u{22B7}\n\
MULTIMAP:\u{22B8}\n\
HERMITIAN CONJUGATE MATRIX:\u{22B9}\n\
INTERCALATE:\u{22BA}\n\
XOR:\u{22BB}\n\
NAND:\u{22BC}\n\
NOR:\u{22BD}\n\
RIGHT ANGLE WITH ARC:\u{22BE}\n\
RIGHT TRIANGLE:\u{22BF}\n\
N-ARY LOGICAL AND:\u{22C0}\n\
N-ARY LOGICAL OR:\u{22C1}\n\
N-ARY INTERSECTION:\u{22C2}\n\
N-ARY UNION:\u{22C3}\n\
DIAMOND OPERATOR:\u{22C4}\n\
DOT OPERATOR:\u{22C5}\n\
STAR OPERATOR:\u{22C6}\n\
DIVISION TIMES:\u{22C7}\n\
BOWTIE:\u{22C8}\n\
LEFT NORMAL FACTOR SEMIDIRECT PRODUCT:\u{22C9}\n\
RIGHT NORMAL FACTOR SEMIDIRECT PRODUCT:\u{22CA}\n\
LEFT SEMIDIRECT PRODUCT:\u{22CB}\n\
RIGHT SEMIDIRECT PRODUCT:\u{22CC}\n\
REVERSED TILDE EQUALS:\u{22CD}\n\
CURLY LOGICAL OR:\u{22CE}\n\
CURLY LOGICAL AND:\u{22CF}\n\
DOUBLE SUBSET:\u{22D0}\n\
DOUBLE SUPERSET:\u{22D1}\n\
DOUBLE INTERSECTION:\u{22D2}\n\
DOUBLE UNION:\u{22D3}\n\
PITCHFORK:\u{22D4}\n\
EQUAL AND PARALLEL TO:\u{22D5}\n\
LESS-THAN WITH DOT:\u{22D6}\n\
GREATER-THAN WITH DOT:\u{22D7}\n\
VERY MUCH LESS-THAN:\u{22D8}\n\
VERY MUCH GREATER-THAN:\u{22D9}\n\
LESS-THAN EQUAL TO OR GREATER-THAN:\u{22DA}\n\
GREATER-THAN EQUAL TO OR LESS-THAN:\u{22DB}\n\
EQUAL TO OR LESS-THAN:\u{22DC}\n\
EQUAL TO OR GREATER-THAN:\u{22DD}\n\
EQUAL TO OR PRECEDES:\u{22DE}\n\
EQUAL TO OR SUCCEEDS:\u{22DF}\n\
DOES NOT PRECEDE OR EQUAL:\u{22E0}\n\
DOES NOT SUCCEED OR EQUAL:\u{22E1}\n\
NOT SQUARE IMAGE OF OR EQUAL TO:\u{22E2}\n\
NOT SQUARE ORIGINAL OF OR EQUAL TO:\u{22E3}\n\
SQUARE IMAGE OF OR NOT EQUAL TO:\u{22E4}\n\
SQUARE ORIGINAL OF OR NOT EQUAL TO:\u{22E5}\n\
LESS-THAN BUT NOT EQUIVALENT TO:\u{22E6}\n\
GREATER-THAN BUT NOT EQUIVALENT TO:\u{22E7}\n\
PRECEDES BUT NOT EQUIVALENT TO:\u{22E8}\n\
SUCCEEDS BUT NOT EQUIVALENT TO:\u{22E9}\n\
NOT NORMAL SUBGROUP OF:\u{22EA}\n\
DOES NOT CONTAIN AS NORMAL SUBGROUP:\u{22EB}\n\
NOT NORMAL SUBGROUP OF OR EQUAL TO:\u{22EC}\n\
DOES NOT CONTAIN AS NORMAL SUBGROUP OR EQUAL:\u{22ED}\n\
VERTICAL ELLIPSIS:\u{22EE}\n\
MIDLINE HORIZONTAL ELLIPSIS:\u{22EF}\n\
UP RIGHT DIAGONAL ELLIPSIS:\u{22F0}\n\
DOWN RIGHT DIAGONAL ELLIPSIS:\u{22F1}\n\
ELEMENT OF WITH LONG HORIZONTAL STROKE:\u{22F2}\n\
ELEMENT OF WITH VERTICAL BAR AT END OF HORIZONTAL STROKE:\u{22F3}\n\
SMALL ELEMENT OF WITH VERTICAL BAR AT END OF HORIZONTAL STROKE:\u{22F4}\n\
ELEMENT OF WITH DOT ABOVE:\u{22F5}\n\
ELEMENT OF WITH OVERBAR:\u{22F6}\n\
SMALL ELEMENT OF WITH OVERBAR:\u{22F7}\n\
ELEMENT OF WITH UNDERBAR:\u{22F8}\n\
ELEMENT OF WITH TWO HORIZONTAL STROKES:\u{22F9}\n\
CONTAINS WITH LONG HORIZONTAL STROKE:\u{22FA}\n\
CONTAINS WITH VERTICAL BAR AT END OF HORIZONTAL STROKE:\u{22FB}\n\
SMALL CONTAINS WITH VERTICAL BAR AT END OF HORIZONTAL STROKE:\u{22FC}\n\
CONTAINS WITH OVERBAR:\u{22FD}\n\
SMALL CONTAINS WITH OVERBAR:\u{22FE}\n\
Z NOTATION BAG MEMBERSHIP:\u{22FF}\n\
DIAMETER SIGN:\u{2300}\n\
ELECTRIC ARROW:\u{2301}\n\
HOUSE:\u{2302}\n\
UP ARROWHEAD:\u{2303}\n\
DOWN ARROWHEAD:\u{2304}\n\
PROJECTIVE:\u{2305}\n\
PERSPECTIVE:\u{2306}\n\
WAVY LINE:\u{2307}\n\
LEFT CEILING:\u{2308}\n\
RIGHT CEILING:\u{2309}\n\
LEFT FLOOR:\u{230A}\n\
RIGHT FLOOR:\u{230B}\n\
BOTTOM RIGHT CROP:\u{230C}\n\
BOTTOM LEFT CROP:\u{230D}\n\
TOP RIGHT CROP:\u{230E}\n\
TOP LEFT CROP:\u{230F}\n\
REVERSED NOT SIGN:\u{2310}\n\
SQUARE LOZENGE:\u{2311}\n\
ARC:\u{2312}\n\
SEGMENT:\u{2313}\n\
SECTOR:\u{2314}\n\
TELEPHONE RECORDER:\u{2315}\n\
POSITION INDICATOR:\u{2316}\n\
VIEWDATA SQUARE:\u{2317}\n\
PLACE OF INTEREST SIGN:\u{2318}\n\
TURNED NOT SIGN:\u{2319}\n\
WATCH:\u{231A}\n\
HOURGLASS:\u{231B}\n\
TOP LEFT CORNER:\u{231C}\n\
TOP RIGHT CORNER:\u{231D}\n\
BOTTOM LEFT CORNER:\u{231E}\n\
BOTTOM RIGHT CORNER:\u{231F}\n\
TOP HALF INTEGRAL:\u{2320}\n\
BOTTOM HALF INTEGRAL:\u{2321}\n\
FROWN:\u{2322}\n\
SMILE:\u{2323}\n\
UP ARROWHEAD BETWEEN TWO HORIZONTAL BARS:\u{2324}\n\
OPTION KEY:\u{2325}\n\
ERASE TO THE RIGHT:\u{2326}\n\
X IN A RECTANGLE BOX:\u{2327}\n\
KEYBOARD:\u{2328}\n\
LEFT-POINTING ANGLE BRACKET:\u{2329}\n\
RIGHT-POINTING ANGLE BRACKET:\u{232A}\n\
ERASE TO THE LEFT:\u{232B}\n\
BENZENE RING:\u{232C}\n\
CYLINDRICITY:\u{232D}\n\
ALL AROUND-PROFILE:\u{232E}\n\
SYMMETRY:\u{232F}\n\
TOTAL RUNOUT:\u{2330}\n\
DIMENSION ORIGIN:\u{2331}\n\
CONICAL TAPER:\u{2332}\n\
SLOPE:\u{2333}\n\
COUNTERBORE:\u{2334}\n\
COUNTERSINK:\u{2335}\n\
APL FUNCTIONAL SYMBOL I-BEAM:\u{2336}\n\
APL FUNCTIONAL SYMBOL SQUISH QUAD:\u{2337}\n\
APL FUNCTIONAL SYMBOL QUAD EQUAL:\u{2338}\n\
APL FUNCTIONAL SYMBOL QUAD DIVIDE:\u{2339}\n\
APL FUNCTIONAL SYMBOL QUAD DIAMOND:\u{233A}\n\
APL FUNCTIONAL SYMBOL QUAD JOT:\u{233B}\n\
APL FUNCTIONAL SYMBOL QUAD CIRCLE:\u{233C}\n\
APL FUNCTIONAL SYMBOL CIRCLE STILE:\u{233D}\n\
APL FUNCTIONAL SYMBOL CIRCLE JOT:\u{233E}\n\
APL FUNCTIONAL SYMBOL SLASH BAR:\u{233F}\n\
APL FUNCTIONAL SYMBOL BACKSLASH BAR:\u{2340}\n\
APL FUNCTIONAL SYMBOL QUAD SLASH:\u{2341}\n\
APL FUNCTIONAL SYMBOL QUAD BACKSLASH:\u{2342}\n\
APL FUNCTIONAL SYMBOL QUAD LESS-THAN:\u{2343}\n\
APL FUNCTIONAL SYMBOL QUAD GREATER-THAN:\u{2344}\n\
APL FUNCTIONAL SYMBOL LEFTWARDS VANE:\u{2345}\n\
APL FUNCTIONAL SYMBOL RIGHTWARDS VANE:\u{2346}\n\
APL FUNCTIONAL SYMBOL QUAD LEFTWARDS ARROW:\u{2347}\n\
APL FUNCTIONAL SYMBOL QUAD RIGHTWARDS ARROW:\u{2348}\n\
APL FUNCTIONAL SYMBOL CIRCLE BACKSLASH:\u{2349}\n\
APL FUNCTIONAL SYMBOL DOWN TACK UNDERBAR:\u{234A}\n\
APL FUNCTIONAL SYMBOL DELTA STILE:\u{234B}\n\
APL FUNCTIONAL SYMBOL QUAD DOWN CARET:\u{234C}\n\
APL FUNCTIONAL SYMBOL QUAD DELTA:\u{234D}\n\
APL FUNCTIONAL SYMBOL DOWN TACK JOT:\u{234E}\n\
APL FUNCTIONAL SYMBOL UPWARDS VANE:\u{234F}\n\
APL FUNCTIONAL SYMBOL QUAD UPWARDS ARROW:\u{2350}\n\
APL FUNCTIONAL SYMBOL UP TACK OVERBAR:\u{2351}\n\
APL FUNCTIONAL SYMBOL DEL STILE:\u{2352}\n\
APL FUNCTIONAL SYMBOL QUAD UP CARET:\u{2353}\n\
APL FUNCTIONAL SYMBOL QUAD DEL:\u{2354}\n\
APL FUNCTIONAL SYMBOL UP TACK JOT:\u{2355}\n\
APL FUNCTIONAL SYMBOL DOWNWARDS VANE:\u{2356}\n\
APL FUNCTIONAL SYMBOL QUAD DOWNWARDS ARROW:\u{2357}\n\
APL FUNCTIONAL SYMBOL QUOTE UNDERBAR:\u{2358}\n\
APL FUNCTIONAL SYMBOL DELTA UNDERBAR:\u{2359}\n\
APL FUNCTIONAL SYMBOL DIAMOND UNDERBAR:\u{235A}\n\
APL FUNCTIONAL SYMBOL JOT UNDERBAR:\u{235B}\n\
APL FUNCTIONAL SYMBOL CIRCLE UNDERBAR:\u{235C}\n\
APL FUNCTIONAL SYMBOL UP SHOE JOT:\u{235D}\n\
APL FUNCTIONAL SYMBOL QUOTE QUAD:\u{235E}\n\
APL FUNCTIONAL SYMBOL CIRCLE STAR:\u{235F}\n\
APL FUNCTIONAL SYMBOL QUAD COLON:\u{2360}\n\
APL FUNCTIONAL SYMBOL UP TACK DIAERESIS:\u{2361}\n\
APL FUNCTIONAL SYMBOL DEL DIAERESIS:\u{2362}\n\
APL FUNCTIONAL SYMBOL STAR DIAERESIS:\u{2363}\n\
APL FUNCTIONAL SYMBOL JOT DIAERESIS:\u{2364}\n\
APL FUNCTIONAL SYMBOL CIRCLE DIAERESIS:\u{2365}\n\
APL FUNCTIONAL SYMBOL DOWN SHOE STILE:\u{2366}\n\
APL FUNCTIONAL SYMBOL LEFT SHOE STILE:\u{2367}\n\
APL FUNCTIONAL SYMBOL TILDE DIAERESIS:\u{2368}\n\
APL FUNCTIONAL SYMBOL GREATER-THAN DIAERESIS:\u{2369}\n\
APL FUNCTIONAL SYMBOL COMMA BAR:\u{236A}\n\
APL FUNCTIONAL SYMBOL DEL TILDE:\u{236B}\n\
APL FUNCTIONAL SYMBOL ZILDE:\u{236C}\n\
APL FUNCTIONAL SYMBOL STILE TILDE:\u{236D}\n\
APL FUNCTIONAL SYMBOL SEMICOLON UNDERBAR:\u{236E}\n\
APL FUNCTIONAL SYMBOL QUAD NOT EQUAL:\u{236F}\n\
APL FUNCTIONAL SYMBOL QUAD QUESTION:\u{2370}\n\
APL FUNCTIONAL SYMBOL DOWN CARET TILDE:\u{2371}\n\
APL FUNCTIONAL SYMBOL UP CARET TILDE:\u{2372}\n\
APL FUNCTIONAL SYMBOL IOTA:\u{2373}\n\
APL FUNCTIONAL SYMBOL RHO:\u{2374}\n\
APL FUNCTIONAL SYMBOL OMEGA:\u{2375}\n\
APL FUNCTIONAL SYMBOL ALPHA UNDERBAR:\u{2376}\n\
APL FUNCTIONAL SYMBOL EPSILON UNDERBAR:\u{2377}\n\
APL FUNCTIONAL SYMBOL IOTA UNDERBAR:\u{2378}\n\
APL FUNCTIONAL SYMBOL OMEGA UNDERBAR:\u{2379}\n\
APL FUNCTIONAL SYMBOL ALPHA:\u{237A}\n\
NOT CHECK MARK:\u{237B}\n\
RIGHT ANGLE WITH DOWNWARDS ZIGZAG ARROW:\u{237C}\n\
SHOULDERED OPEN BOX:\u{237D}\n\
BELL SYMBOL:\u{237E}\n\
VERTICAL LINE WITH MIDDLE DOT:\u{237F}\n\
INSERTION SYMBOL:\u{2380}\n\
CONTINUOUS UNDERLINE SYMBOL:\u{2381}\n\
DISCONTINUOUS UNDERLINE SYMBOL:\u{2382}\n\
EMPHASIS SYMBOL:\u{2383}\n\
COMPOSITION SYMBOL:\u{2384}\n\
WHITE SQUARE WITH CENTRE VERTICAL LINE:\u{2385}\n\
ENTER SYMBOL:\u{2386}\n\
ALTERNATIVE KEY SYMBOL:\u{2387}\n\
HELM SYMBOL:\u{2388}\n\
CIRCLED HORIZONTAL BAR WITH NOTCH:\u{2389}\n\
CIRCLED TRIANGLE DOWN:\u{238A}\n\
BROKEN CIRCLE WITH NORTHWEST ARROW:\u{238B}\n\
UNDO SYMBOL:\u{238C}\n\
MONOSTABLE SYMBOL:\u{238D}\n\
HYSTERESIS SYMBOL:\u{238E}\n\
OPEN-CIRCUIT-OUTPUT H-TYPE SYMBOL:\u{238F}\n\
OPEN-CIRCUIT-OUTPUT L-TYPE SYMBOL:\u{2390}\n\
PASSIVE-PULL-DOWN-OUTPUT SYMBOL:\u{2391}\n\
PASSIVE-PULL-UP-OUTPUT SYMBOL:\u{2392}\n\
DIRECT CURRENT SYMBOL FORM TWO:\u{2393}\n\
SOFTWARE-FUNCTION SYMBOL:\u{2394}\n\
APL FUNCTIONAL SYMBOL QUAD:\u{2395}\n\
DECIMAL SEPARATOR KEY SYMBOL:\u{2396}\n\
PREVIOUS PAGE:\u{2397}\n\
NEXT PAGE:\u{2398}\n\
PRINT SCREEN SYMBOL:\u{2399}\n\
CLEAR SCREEN SYMBOL:\u{239A}\n\
LEFT PARENTHESIS UPPER HOOK:\u{239B}\n\
LEFT PARENTHESIS EXTENSION:\u{239C}\n\
LEFT PARENTHESIS LOWER HOOK:\u{239D}\n\
RIGHT PARENTHESIS UPPER HOOK:\u{239E}\n\
RIGHT PARENTHESIS EXTENSION:\u{239F}\n\
RIGHT PARENTHESIS LOWER HOOK:\u{23A0}\n\
LEFT SQUARE BRACKET UPPER CORNER:\u{23A1}\n\
LEFT SQUARE BRACKET EXTENSION:\u{23A2}\n\
LEFT SQUARE BRACKET LOWER CORNER:\u{23A3}\n\
RIGHT SQUARE BRACKET UPPER CORNER:\u{23A4}\n\
RIGHT SQUARE BRACKET EXTENSION:\u{23A5}\n\
RIGHT SQUARE BRACKET LOWER CORNER:\u{23A6}\n\
LEFT CURLY BRACKET UPPER HOOK:\u{23A7}\n\
LEFT CURLY BRACKET MIDDLE PIECE:\u{23A8}\n\
LEFT CURLY BRACKET LOWER HOOK:\u{23A9}\n\
CURLY BRACKET EXTENSION:\u{23AA}\n\
RIGHT CURLY BRACKET UPPER HOOK:\u{23AB}\n\
RIGHT CURLY BRACKET MIDDLE PIECE:\u{23AC}\n\
RIGHT CURLY BRACKET LOWER HOOK:\u{23AD}\n\
INTEGRAL EXTENSION:\u{23AE}\n\
HORIZONTAL LINE EXTENSION:\u{23AF}\n\
UPPER LEFT OR LOWER RIGHT CURLY BRACKET SECTION:\u{23B0}\n\
UPPER RIGHT OR LOWER LEFT CURLY BRACKET SECTION:\u{23B1}\n\
SUMMATION TOP:\u{23B2}\n\
SUMMATION BOTTOM:\u{23B3}\n\
TOP SQUARE BRACKET:\u{23B4}\n\
BOTTOM SQUARE BRACKET:\u{23B5}\n\
BOTTOM SQUARE BRACKET OVER TOP SQUARE BRACKET:\u{23B6}\n\
RADICAL SYMBOL BOTTOM:\u{23B7}\n\
LEFT VERTICAL BOX LINE:\u{23B8}\n\
RIGHT VERTICAL BOX LINE:\u{23B9}\n\
HORIZONTAL SCAN LINE-1:\u{23BA}\n\
HORIZONTAL SCAN LINE-3:\u{23BB}\n\
HORIZONTAL SCAN LINE-7:\u{23BC}\n\
HORIZONTAL SCAN LINE-9:\u{23BD}\n\
DENTISTRY SYMBOL LIGHT VERTICAL AND TOP RIGHT:\u{23BE}\n\
DENTISTRY SYMBOL LIGHT VERTICAL AND BOTTOM RIGHT:\u{23BF}\n\
DENTISTRY SYMBOL LIGHT VERTICAL WITH CIRCLE:\u{23C0}\n";

pub const NAMES_21: &'static str = "DENTISTRY SYMBOL LIGHT DOWN AND HORIZONTAL WITH CIRCLE:\u{23C1}\n\
DENTISTRY SYMBOL LIGHT UP AND HORIZONTAL WITH CIRCLE:\u{23C2}\n\
DENTISTRY SYMBOL LIGHT VERTICAL WITH TRIANGLE:\u{23C3}\n\
DENTISTRY SYMBOL LIGHT DOWN AND HORIZONTAL WITH TRIANGLE:\u{23C4}\n\
DENTISTRY SYMBOL LIGHT UP AND HORIZONTAL WITH TRIANGLE:\u{23C5}\n\
DENTISTRY SYMBOL LIGHT VERTICAL AND WAVE:\u{23C6}\n\
DENTISTRY SYMBOL LIGHT DOWN AND HORIZONTAL WITH WAVE:\u{23C7}\n\
DENTISTRY SYMBOL LIGHT UP AND HORIZONTAL WITH WAVE:\u{23C8}\n\
DENTISTRY SYMBOL LIGHT DOWN AND HORIZONTAL:\u{23C9}\n\
DENTISTRY SYMBOL LIGHT UP AND HORIZONTAL:\u{23CA}\n\
DENTISTRY SYMBOL LIGHT VERTICAL AND TOP LEFT:\u{23CB}\n\
DENTISTRY SYMBOL LIGHT VERTICAL AND BOTTOM LEFT:\u{23CC}\n\
SQUARE FOOT:\u{23CD}\n\
RETURN SYMBOL:\u{23CE}\n\
EJECT SYMBOL:\u{23CF}\n\
VERTICAL LINE EXTENSION:\u{23D0}\n\
METRICAL BREVE:\u{23D1}\n\
METRICAL LONG OVER SHORT:\u{23D2}\n\
METRICAL SHORT OVER LONG:\u{23D3}\n\
METRICAL LONG OVER TWO SHORTS:\u{23D4}\n\
METRICAL TWO SHORTS OVER LONG:\u{23D5}\n\
METRICAL TWO SHORTS JOINED:\u{23D6}\n\
METRICAL TRISEME:\u{23D7}\n\
METRICAL TETRASEME:\u{23D8}\n\
METRICAL PENTASEME:\u{23D9}\n\
EARTH GROUND:\u{23DA}\n\
FUSE:\u{23DB}\n\
TOP PARENTHESIS:\u{23DC}\n\
BOTTOM PARENTHESIS:\u{23DD}\n\
TOP CURLY BRACKET:\u{23DE}\n\
BOTTOM CURLY BRACKET:\u{23DF}\n\
TOP TORTOISE SHELL BRACKET:\u{23E0}\n\
BOTTOM TORTOISE SHELL BRACKET:\u{23E1}\n\
WHITE TRAPEZIUM:\u{23E2}\n\
BENZENE RING WITH CIRCLE:\u{23E3}\n\
STRAIGHTNESS:\u{23E4}\n\
FLATNESS:\u{23E5}\n\
AC CURRENT:\u{23E6}\n\
ELECTRICAL INTERSECTION:\u{23E7}\n\
DECIMAL EXPONENT SYMBOL:\u{23E8}\n\
BLACK RIGHT-POINTING DOUBLE TRIANGLE:\u{23E9}\n\
BLACK LEFT-POINTING DOUBLE TRIANGLE:\u{23EA}\n\
BLACK UP-POINTING DOUBLE TRIANGLE:\u{23EB}\n\
BLACK DOWN-POINTING DOUBLE TRIANGLE:\u{23EC}\n\
BLACK RIGHT-POINTING DOUBLE TRIANGLE WITH VERTICAL BAR:\u{23ED}\n\
BLACK LEFT-POINTING DOUBLE TRIANGLE WITH VERTICAL BAR:\u{23EE}\n\
BLACK RIGHT-POINTING TRIANGLE WITH DOUBLE VERTICAL BAR:\u{23EF}\n\
ALARM CLOCK:\u{23F0}\n\
STOPWATCH:\u{23F1}\n\
TIMER CLOCK:\u{23F2}\n\
HOURGLASS WITH FLOWING SAND:\u{23F3}\n\
BLACK MEDIUM LEFT-POINTING TRIANGLE:\u{23F4}\n\
BLACK MEDIUM RIGHT-POINTING TRIANGLE:\u{23F5}\n\
BLACK MEDIUM UP-POINTING TRIANGLE:\u{23F6}\n\
BLACK MEDIUM DOWN-POINTING TRIANGLE:\u{23F7}\n\
DOUBLE VERTICAL BAR:\u{23F8}\n\
BLACK SQUARE FOR STOP:\u{23F9}\n\
BLACK CIRCLE FOR RECORD:\u{23FA}\n\
POWER SYMBOL:\u{23FB}\n\
POWER ON-OFF SYMBOL:\u{23FC}\n\
POWER ON SYMBOL:\u{23FD}\n\
POWER SLEEP SYMBOL:\u{23FE}\n\
OBSERVER EYE SYMBOL:\u{23FF}\n\
SYMBOL FOR NULL:\u{2400}\n\
SYMBOL FOR START OF HEADING:\u{2401}\n\
SYMBOL FOR START OF TEXT:\u{2402}\n\
SYMBOL FOR END OF TEXT:\u{2403}\n\
SYMBOL FOR END OF TRANSMISSION:\u{2404}\n\
SYMBOL FOR ENQUIRY:\u{2405}\n\
SYMBOL FOR ACKNOWLEDGE:\u{2406}\n\
SYMBOL FOR BELL:\u{2407}\n\
SYMBOL FOR BACKSPACE:\u{2408}\n\
SYMBOL FOR HORIZONTAL TABULATION:\u{2409}\n\
SYMBOL FOR LINE FEED:\u{240A}\n\
SYMBOL FOR VERTICAL TABULATION:\u{240B}\n\
SYMBOL FOR FORM FEED:\u{240C}\n\
SYMBOL FOR CARRIAGE RETURN:\u{240D}\n\
SYMBOL FOR SHIFT OUT:\u{240E}\n\
SYMBOL FOR SHIFT IN:\u{240F}\n\
SYMBOL FOR DATA LINK ESCAPE:\u{2410}\n\
SYMBOL FOR DEVICE CONTROL ONE:\u{2411}\n\
SYMBOL FOR DEVICE CONTROL TWO:\u{2412}\n\
SYMBOL FOR DEVICE CONTROL THREE:\u{2413}\n\
SYMBOL FOR DEVICE CONTROL FOUR:\u{2414}\n\
SYMBOL FOR NEGATIVE ACKNOWLEDGE:\u{2415}\n\
SYMBOL FOR SYNCHRONOUS IDLE:\u{2416}\n\
SYMBOL FOR END OF TRANSMISSION BLOCK:\u{2417}\n\
SYMBOL FOR CANCEL:\u{2418}\n\
SYMBOL FOR END OF MEDIUM:\u{2419}\n\
SYMBOL FOR SUBSTITUTE:\u{241A}\n\
SYMBOL FOR ESCAPE:\u{241B}\n\
SYMBOL FOR FILE SEPARATOR:\u{241C}\n\
SYMBOL FOR GROUP SEPARATOR:\u{241D}\n\
SYMBOL FOR RECORD SEPARATOR:\u{241E}\n\
SYMBOL FOR UNIT SEPARATOR:\u{241F}\n\
SYMBOL FOR SPACE:\u{2420}\n\
SYMBOL FOR DELETE:\u{2421}\n\
BLANK SYMBOL:\u{2422}\n\
OPEN BOX:\u{2423}\n\
SYMBOL FOR NEWLINE:\u{2424}\n\
SYMBOL FOR DELETE FORM TWO:\u{2425}\n\
SYMBOL FOR SUBSTITUTE FORM TWO:\u{2426}\n\
OCR HOOK:\u{2440}\n\
OCR CHAIR:\u{2441}\n\
OCR FORK:\u{2442}\n\
OCR INVERTED FORK:\u{2443}\n\
OCR BELT BUCKLE:\u{2444}\n\
OCR BOW TIE:\u{2445}\n\
OCR BRANCH BANK IDENTIFICATION:\u{2446}\n\
OCR AMOUNT OF CHECK:\u{2447}\n\
OCR DASH:\u{2448}\n\
OCR CUSTOMER ACCOUNT NUMBER:\u{2449}\n\
OCR DOUBLE BACKSLASH:\u{244A}\n\
CIRCLED DIGIT ONE:\u{2460}\n\
CIRCLED DIGIT TWO:\u{2461}\n\
CIRCLED DIGIT THREE:\u{2462}\n\
CIRCLED DIGIT FOUR:\u{2463}\n\
CIRCLED DIGIT FIVE:\u{2464}\n\
CIRCLED DIGIT SIX:\u{2465}\n\
CIRCLED DIGIT SEVEN:\u{2466}\n\
CIRCLED DIGIT EIGHT:\u{2467}\n\
CIRCLED DIGIT NINE:\u{2468}\n\
CIRCLED NUMBER TEN:\u{2469}\n\
CIRCLED NUMBER ELEVEN:\u{246A}\n\
CIRCLED NUMBER TWELVE:\u{246B}\n\
CIRCLED NUMBER THIRTEEN:\u{246C}\n\
CIRCLED NUMBER FOURTEEN:\u{246D}\n\
CIRCLED NUMBER FIFTEEN:\u{246E}\n\
CIRCLED NUMBER SIXTEEN:\u{246F}\n\
CIRCLED NUMBER SEVENTEEN:\u{2470}\n\
CIRCLED NUMBER EIGHTEEN:\u{2471}\n\
CIRCLED NUMBER NINETEEN:\u{2472}\n\
CIRCLED NUMBER TWENTY:\u{2473}\n\
PARENTHESIZED DIGIT ONE:\u{2474}\n\
PARENTHESIZED DIGIT TWO:\u{2475}\n\
PARENTHESIZED DIGIT THREE:\u{2476}\n\
PARENTHESIZED DIGIT FOUR:\u{2477}\n\
PARENTHESIZED DIGIT FIVE:\u{2478}\n\
PARENTHESIZED DIGIT SIX:\u{2479}\n\
PARENTHESIZED DIGIT SEVEN:\u{247A}\n\
PARENTHESIZED DIGIT EIGHT:\u{247B}\n\
PARENTHESIZED DIGIT NINE:\u{247C}\n\
PARENTHESIZED NUMBER TEN:\u{247D}\n\
PARENTHESIZED NUMBER ELEVEN:\u{247E}\n\
PARENTHESIZED NUMBER TWELVE:\u{247F}\n\
PARENTHESIZED NUMBER THIRTEEN:\u{2480}\n\
PARENTHESIZED NUMBER FOURTEEN:\u{2481}\n\
PARENTHESIZED NUMBER FIFTEEN:\u{2482}\n\
PARENTHESIZED NUMBER SIXTEEN:\u{2483}\n\
PARENTHESIZED NUMBER SEVENTEEN:\u{2484}\n\
PARENTHESIZED NUMBER EIGHTEEN:\u{2485}\n\
PARENTHESIZED NUMBER NINETEEN:\u{2486}\n\
PARENTHESIZED NUMBER TWENTY:\u{2487}\n\
DIGIT ONE FULL STOP:\u{2488}\n\
DIGIT TWO FULL STOP:\u{2489}\n\
DIGIT THREE FULL STOP:\u{248A}\n\
DIGIT FOUR FULL STOP:\u{248B}\n\
DIGIT FIVE FULL STOP:\u{248C}\n\
DIGIT SIX FULL STOP:\u{248D}\n\
DIGIT SEVEN FULL STOP:\u{248E}\n\
DIGIT EIGHT FULL STOP:\u{248F}\n\
DIGIT NINE FULL STOP:\u{2490}\n\
NUMBER TEN FULL STOP:\u{2491}\n\
NUMBER ELEVEN FULL STOP:\u{2492}\n\
NUMBER TWELVE FULL STOP:\u{2493}\n\
NUMBER THIRTEEN FULL STOP:\u{2494}\n\
NUMBER FOURTEEN FULL STOP:\u{2495}\n\
NUMBER FIFTEEN FULL STOP:\u{2496}\n\
NUMBER SIXTEEN FULL STOP:\u{2497}\n\
NUMBER SEVENTEEN FULL STOP:\u{2498}\n\
NUMBER EIGHTEEN FULL STOP:\u{2499}\n\
NUMBER NINETEEN FULL STOP:\u{249A}\n\
NUMBER TWENTY FULL STOP:\u{249B}\n\
PARENTHESIZED LATIN SMALL LETTER A:\u{249C}\n\
PARENTHESIZED LATIN SMALL LETTER B:\u{249D}\n\
PARENTHESIZED LATIN SMALL LETTER C:\u{249E}\n\
PARENTHESIZED LATIN SMALL LETTER D:\u{249F}\n\
PARENTHESIZED LATIN SMALL LETTER E:\u{24A0}\n\
PARENTHESIZED LATIN SMALL LETTER F:\u{24A1}\n\
PARENTHESIZED LATIN SMALL LETTER G:\u{24A2}\n\
PARENTHESIZED LATIN SMALL LETTER H:\u{24A3}\n\
PARENTHESIZED LATIN SMALL LETTER I:\u{24A4}\n\
PARENTHESIZED LATIN SMALL LETTER J:\u{24A5}\n\
PARENTHESIZED LATIN SMALL LETTER K:\u{24A6}\n\
PARENTHESIZED LATIN SMALL LETTER L:\u{24A7}\n\
PARENTHESIZED LATIN SMALL LETTER M:\u{24A8}\n\
PARENTHESIZED LATIN SMALL LETTER N:\u{24A9}\n\
PARENTHESIZED LATIN SMALL LETTER O:\u{24AA}\n\
PARENTHESIZED LATIN SMALL LETTER P:\u{24AB}\n\
PARENTHESIZED LATIN SMALL LETTER Q:\u{24AC}\n\
PARENTHESIZED LATIN SMALL LETTER R:\u{24AD}\n\
PARENTHESIZED LATIN SMALL LETTER S:\u{24AE}\n\
PARENTHESIZED LATIN SMALL LETTER T:\u{24AF}\n\
PARENTHESIZED LATIN SMALL LETTER U:\u{24B0}\n\
PARENTHESIZED LATIN SMALL LETTER V:\u{24B1}\n\
PARENTHESIZED LATIN SMALL LETTER W:\u{24B2}\n\
PARENTHESIZED LATIN SMALL LETTER X:\u{24B3}\n\
PARENTHESIZED LATIN SMALL LETTER Y:\u{24B4}\n\
PARENTHESIZED LATIN SMALL LETTER Z:\u{24B5}\n\
CIRCLED LATIN CAPITAL LETTER A:\u{24B6}\n\
CIRCLED LATIN CAPITAL LETTER B:\u{24B7}\n\
CIRCLED LATIN CAPITAL LETTER C:\u{24B8}\n\
CIRCLED LATIN CAPITAL LETTER D:\u{24B9}\n\
CIRCLED LATIN CAPITAL LETTER E:\u{24BA}\n\
CIRCLED LATIN CAPITAL LETTER F:\u{24BB}\n\
CIRCLED LATIN CAPITAL LETTER G:\u{24BC}\n\
CIRCLED LATIN CAPITAL LETTER H:\u{24BD}\n\
CIRCLED LATIN CAPITAL LETTER I:\u{24BE}\n\
CIRCLED LATIN CAPITAL LETTER J:\u{24BF}\n\
CIRCLED LATIN CAPITAL LETTER K:\u{24C0}\n\
CIRCLED LATIN CAPITAL LETTER L:\u{24C1}\n\
CIRCLED LATIN CAPITAL LETTER M:\u{24C2}\n\
CIRCLED LATIN CAPITAL LETTER N:\u{24C3}\n\
CIRCLED LATIN CAPITAL LETTER O:\u{24C4}\n\
CIRCLED LATIN CAPITAL LETTER P:\u{24C5}\n\
CIRCLED LATIN CAPITAL LETTER Q:\u{24C6}\n\
CIRCLED LATIN CAPITAL LETTER R:\u{24C7}\n\
CIRCLED LATIN CAPITAL LETTER S:\u{24C8}\n\
CIRCLED LATIN CAPITAL LETTER T:\u{24C9}\n\
CIRCLED LATIN CAPITAL LETTER U:\u{24CA}\n\
CIRCLED LATIN CAPITAL LETTER V:\u{24CB}\n\
CIRCLED LATIN CAPITAL LETTER W:\u{24CC}\n\
CIRCLED LATIN CAPITAL LETTER X:\u{24CD}\n\
CIRCLED LATIN CAPITAL LETTER Y:\u{24CE}\n\
CIRCLED LATIN CAPITAL LETTER Z:\u{24CF}\n\
CIRCLED LATIN SMALL LETTER A:\u{24D0}\n\
CIRCLED LATIN SMALL LETTER B:\u{24D1}\n\
CIRCLED LATIN SMALL LETTER C:\u{24D2}\n\
CIRCLED LATIN SMALL LETTER D:\u{24D3}\n\
CIRCLED LATIN SMALL LETTER E:\u{24D4}\n\
CIRCLED LATIN SMALL LETTER F:\u{24D5}\n\
CIRCLED LATIN SMALL LETTER G:\u{24D6}\n\
CIRCLED LATIN SMALL LETTER H:\u{24D7}\n\
CIRCLED LATIN SMALL LETTER I:\u{24D8}\n\
CIRCLED LATIN SMALL LETTER J:\u{24D9}\n\
CIRCLED LATIN SMALL LETTER K:\u{24DA}\n\
CIRCLED LATIN SMALL LETTER L:\u{24DB}\n\
CIRCLED LATIN SMALL LETTER M:\u{24DC}\n\
CIRCLED LATIN SMALL LETTER N:\u{24DD}\n\
CIRCLED LATIN SMALL LETTER O:\u{24DE}\n\
CIRCLED LATIN SMALL LETTER P:\u{24DF}\n\
CIRCLED LATIN SMALL LETTER Q:\u{24E0}\n\
CIRCLED LATIN SMALL LETTER R:\u{24E1}\n\
CIRCLED LATIN SMALL LETTER S:\u{24E2}\n\
CIRCLED LATIN SMALL LETTER T:\u{24E3}\n\
CIRCLED LATIN SMALL LETTER U:\u{24E4}\n\
CIRCLED LATIN SMALL LETTER V:\u{24E5}\n\
CIRCLED LATIN SMALL LETTER W:\u{24E6}\n\
CIRCLED LATIN SMALL LETTER X:\u{24E7}\n\
CIRCLED LATIN SMALL LETTER Y:\u{24E8}\n\
CIRCLED LATIN SMALL LETTER Z:\u{24E9}\n\
CIRCLED DIGIT ZERO:\u{24EA}\n\
NEGATIVE CIRCLED NUMBER ELEVEN:\u{24EB}\n\
NEGATIVE CIRCLED NUMBER TWELVE:\u{24EC}\n\
NEGATIVE CIRCLED NUMBER THIRTEEN:\u{24ED}\n\
NEGATIVE CIRCLED NUMBER FOURTEEN:\u{24EE}\n\
NEGATIVE CIRCLED NUMBER FIFTEEN:\u{24EF}\n\
NEGATIVE CIRCLED NUMBER SIXTEEN:\u{24F0}\n\
NEGATIVE CIRCLED NUMBER SEVENTEEN:\u{24F1}\n\
NEGATIVE CIRCLED NUMBER EIGHTEEN:\u{24F2}\n\
NEGATIVE CIRCLED NUMBER NINETEEN:\u{24F3}\n\
NEGATIVE CIRCLED NUMBER TWENTY:\u{24F4}\n\
DOUBLE CIRCLED DIGIT ONE:\u{24F5}\n\
DOUBLE CIRCLED DIGIT TWO:\u{24F6}\n\
DOUBLE CIRCLED DIGIT THREE:\u{24F7}\n\
DOUBLE CIRCLED DIGIT FOUR:\u{24F8}\n\
DOUBLE CIRCLED DIGIT FIVE:\u{24F9}\n\
DOUBLE CIRCLED DIGIT SIX:\u{24FA}\n\
DOUBLE CIRCLED DIGIT SEVEN:\u{24FB}\n\
DOUBLE CIRCLED DIGIT EIGHT:\u{24FC}\n\
DOUBLE CIRCLED DIGIT NINE:\u{24FD}\n\
DOUBLE CIRCLED NUMBER TEN:\u{24FE}\n\
NEGATIVE CIRCLED DIGIT ZERO:\u{24FF}\n\
BOX DRAWINGS LIGHT HORIZONTAL:\u{2500}\n\
BOX DRAWINGS HEAVY HORIZONTAL:\u{2501}\n\
BOX DRAWINGS LIGHT VERTICAL:\u{2502}\n\
BOX DRAWINGS HEAVY VERTICAL:\u{2503}\n\
BOX DRAWINGS LIGHT TRIPLE DASH HORIZONTAL:\u{2504}\n\
BOX DRAWINGS HEAVY TRIPLE DASH HORIZONTAL:\u{2505}\n\
BOX DRAWINGS LIGHT TRIPLE DASH VERTICAL:\u{2506}\n\
BOX DRAWINGS HEAVY TRIPLE DASH VERTICAL:\u{2507}\n\
BOX DRAWINGS LIGHT QUADRUPLE DASH HORIZONTAL:\u{2508}\n\
BOX DRAWINGS HEAVY QUADRUPLE DASH HORIZONTAL:\u{2509}\n\
BOX DRAWINGS LIGHT QUADRUPLE DASH VERTICAL:\u{250A}\n\
BOX DRAWINGS HEAVY QUADRUPLE DASH VERTICAL:\u{250B}\n\
BOX DRAWINGS LIGHT DOWN AND RIGHT:\u{250C}\n\
BOX DRAWINGS DOWN LIGHT AND RIGHT HEAVY:\u{250D}\n\
BOX DRAWINGS DOWN HEAVY AND RIGHT LIGHT:\u{250E}\n\
BOX DRAWINGS HEAVY DOWN AND RIGHT:\u{250F}\n\
BOX DRAWINGS LIGHT DOWN AND LEFT:\u{2510}\n\
BOX DRAWINGS DOWN LIGHT AND LEFT HEAVY:\u{2511}\n\
BOX DRAWINGS DOWN HEAVY AND LEFT LIGHT:\u{2512}\n\
BOX DRAWINGS HEAVY DOWN AND LEFT:\u{2513}\n\
BOX DRAWINGS LIGHT UP AND RIGHT:\u{2514}\n\
BOX DRAWINGS UP LIGHT AND RIGHT HEAVY:\u{2515}\n\
BOX DRAWINGS UP HEAVY AND RIGHT LIGHT:\u{2516}\n\
BOX DRAWINGS HEAVY UP AND RIGHT:\u{2517}\n\
BOX DRAWINGS LIGHT UP AND LEFT:\u{2518}\n\
BOX DRAWINGS UP LIGHT AND LEFT HEAVY:\u{2519}\n\
BOX DRAWINGS UP HEAVY AND LEFT LIGHT:\u{251A}\n\
BOX DRAWINGS HEAVY UP AND LEFT:\u{251B}\n\
BOX DRAWINGS LIGHT VERTICAL AND RIGHT:\u{251C}\n\
BOX DRAWINGS VERTICAL LIGHT AND RIGHT HEAVY:\u{251D}\n\
BOX DRAWINGS UP HEAVY AND RIGHT DOWN LIGHT:\u{251E}\n\
BOX DRAWINGS DOWN HEAVY AND RIGHT UP LIGHT:\u{251F}\n\
BOX DRAWINGS VERTICAL HEAVY AND RIGHT LIGHT:\u{2520}\n\
BOX DRAWINGS DOWN LIGHT AND RIGHT UP HEAVY:\u{2521}\n\
BOX DRAWINGS UP LIGHT AND RIGHT DOWN HEAVY:\u{2522}\n\
BOX DRAWINGS HEAVY VERTICAL AND RIGHT:\u{2523}\n\
BOX DRAWINGS LIGHT VERTICAL AND LEFT:\u{2524}\n\
BOX DRAWINGS VERTICAL LIGHT AND LEFT HEAVY:\u{2525}\n\
BOX DRAWINGS UP HEAVY AND LEFT DOWN LIGHT:\u{2526}\n\
BOX DRAWINGS DOWN HEAVY AND LEFT UP LIGHT:\u{2527}\n\
BOX DRAWINGS VERTICAL HEAVY AND LEFT LIGHT:\u{2528}\n\
BOX DRAWINGS DOWN LIGHT AND LEFT UP HEAVY:\u{2529}\n\
BOX DRAWINGS UP LIGHT AND LEFT DOWN HEAVY:\u{252A}\n\
BOX DRAWINGS HEAVY VERTICAL AND LEFT:\u{252B}\n\
BOX DRAWINGS LIGHT DOWN AND HORIZONTAL:\u{252C}\n\
BOX DRAWINGS LEFT HEAVY AND RIGHT DOWN LIGHT:\u{252D}\n\
BOX DRAWINGS RIGHT HEAVY AND LEFT DOWN LIGHT:\u{252E}\n\
BOX DRAWINGS DOWN LIGHT AND HORIZONTAL HEAVY:\u{252F}\n\
BOX DRAWINGS DOWN HEAVY AND HORIZONTAL LIGHT:\u{2530}\n\
BOX DRAWINGS RIGHT LIGHT AND LEFT DOWN HEAVY:\u{2531}\n\
BOX DRAWINGS LEFT LIGHT AND RIGHT DOWN HEAVY:\u{2532}\n\
BOX DRAWINGS HEAVY DOWN AND HORIZONTAL:\u{2533}\n\
BOX DRAWINGS LIGHT UP AND HORIZONTAL:\u{2534}\n\
BOX DRAWINGS LEFT HEAVY AND RIGHT UP LIGHT:\u{2535}\n\
BOX DRAWINGS RIGHT HEAVY AND LEFT UP LIGHT:\u{2536}\n\
BOX DRAWINGS UP LIGHT AND HORIZONTAL HEAVY:\u{2537}\n\
BOX DRAWINGS UP HEAVY AND HORIZONTAL LIGHT:\u{2538}\n\
BOX DRAWINGS RIGHT LIGHT AND LEFT UP HEAVY:\u{2539}\n\
BOX DRAWINGS LEFT LIGHT AND RIGHT UP HEAVY:\u{253A}\n\
BOX DRAWINGS HEAVY UP AND HORIZONTAL:\u{253B}\n\
BOX DRAWINGS LIGHT VERTICAL AND HORIZONTAL:\u{253C}\n\
BOX DRAWINGS LEFT HEAVY AND RIGHT VERTICAL LIGHT:\u{253D}\n\
BOX DRAWINGS RIGHT HEAVY AND LEFT VERTICAL LIGHT:\u{253E}\n\
BOX DRAWINGS VERTICAL LIGHT AND HORIZONTAL HEAVY:\u{253F}\n\
BOX DRAWINGS UP HEAVY AND DOWN HORIZONTAL LIGHT:\u{2540}\n\
BOX DRAWINGS DOWN HEAVY AND UP HORIZONTAL LIGHT:\u{2541}\n\
BOX DRAWINGS VERTICAL HEAVY AND HORIZONTAL LIGHT:\u{2542}\n\
BOX DRAWINGS LEFT UP HEAVY AND RIGHT DOWN LIGHT:\u{2543}\n\
BOX DRAWINGS RIGHT UP HEAVY AND LEFT DOWN LIGHT:\u{2544}\n\
BOX DRAWINGS LEFT DOWN HEAVY AND RIGHT UP LIGHT:\u{2545}\n\
BOX DRAWINGS RIGHT DOWN HEAVY AND LEFT UP LIGHT:\u{2546}\n\
BOX DRAWINGS DOWN LIGHT AND UP HORIZONTAL HEAVY:\u{2547}\n\
BOX DRAWINGS UP LIGHT AND DOWN HORIZONTAL HEAVY:\u{2548}\n\
BOX DRAWINGS RIGHT LIGHT AND LEFT VERTICAL HEAVY:\u{2549}\n\
BOX DRAWINGS LEFT LIGHT AND RIGHT VERTICAL HEAVY:\u{254A}\n\
BOX DRAWINGS HEAVY VERTICAL AND HORIZONTAL:\u{254B}\n\
BOX DRAWINGS LIGHT DOUBLE DASH HORIZONTAL:\u{254C}\n\
BOX DRAWINGS HEAVY DOUBLE DASH HORIZONTAL:\u{254D}\n\
BOX DRAWINGS LIGHT DOUBLE DASH VERTICAL:\u{254E}\n\
BOX DRAWINGS HEAVY DOUBLE DASH VERTICAL:\u{254F}\n";

pub const NAMES_22: &'static str = "BOX DRAWINGS DOUBLE HORIZONTAL:\u{2550}\n\
BOX DRAWINGS DOUBLE VERTICAL:\u{2551}\n\
BOX DRAWINGS DOWN SINGLE AND RIGHT DOUBLE:\u{2552}\n\
BOX DRAWINGS DOWN DOUBLE AND RIGHT SINGLE:\u{2553}\n\
BOX DRAWINGS DOUBLE DOWN AND RIGHT:\u{2554}\n\
BOX DRAWINGS DOWN SINGLE AND LEFT DOUBLE:\u{2555}\n\
BOX DRAWINGS DOWN DOUBLE AND LEFT SINGLE:\u{2556}\n\
BOX DRAWINGS DOUBLE DOWN AND LEFT:\u{2557}\n\
BOX DRAWINGS UP SINGLE AND RIGHT DOUBLE:\u{2558}\n\
BOX DRAWINGS UP DOUBLE AND RIGHT SINGLE:\u{2559}\n\
BOX DRAWINGS DOUBLE UP AND RIGHT:\u{255A}\n\
BOX DRAWINGS UP SINGLE AND LEFT DOUBLE:\u{255B}\n\
BOX DRAWINGS UP DOUBLE AND LEFT SINGLE:\u{255C}\n\
BOX DRAWINGS DOUBLE UP AND LEFT:\u{255D}\n\
BOX DRAWINGS VERTICAL SINGLE AND RIGHT DOUBLE:\u{255E}\n\
BOX DRAWINGS VERTICAL DOUBLE AND RIGHT SINGLE:\u{255F}\n\
BOX DRAWINGS DOUBLE VERTICAL AND RIGHT:\u{2560}\n\
BOX DRAWINGS VERTICAL SINGLE AND LEFT DOUBLE:\u{2561}\n\
BOX DRAWINGS VERTICAL DOUBLE AND LEFT SINGLE:\u{2562}\n\
BOX DRAWINGS DOUBLE VERTICAL AND LEFT:\u{2563}\n\
BOX DRAWINGS DOWN SINGLE AND HORIZONTAL DOUBLE:\u{2564}\n\
BOX DRAWINGS DOWN DOUBLE AND HORIZONTAL SINGLE:\u{2565}\n\
BOX DRAWINGS DOUBLE DOWN AND HORIZONTAL:\u{2566}\n\
BOX DRAWINGS UP SINGLE AND HORIZONTAL DOUBLE:\u{2567}\n\
BOX DRAWINGS UP DOUBLE AND HORIZONTAL SINGLE:\u{2568}\n\
BOX DRAWINGS DOUBLE UP AND HORIZONTAL:\u{2569}\n\
BOX DRAWINGS VERTICAL SINGLE AND HORIZONTAL DOUBLE:\u{256A}\n\
BOX DRAWINGS VERTICAL DOUBLE AND HORIZONTAL SINGLE:\u{256B}\n\
BOX DRAWINGS DOUBLE VERTICAL AND HORIZONTAL:\u{256C}\n\
BOX DRAWINGS LIGHT ARC DOWN AND RIGHT:\u{256D}\n\
BOX DRAWINGS LIGHT ARC DOWN AND LEFT:\u{256E}\n\
BOX DRAWINGS LIGHT ARC UP AND LEFT:\u{256F}\n\
BOX DRAWINGS LIGHT ARC UP AND RIGHT:\u{2570}\n\
BOX DRAWINGS LIGHT DIAGONAL UPPER RIGHT TO LOWER LEFT:\u{2571}\n\
BOX DRAWINGS LIGHT DIAGONAL UPPER LEFT TO LOWER RIGHT:\u{2572}\n\
BOX DRAWINGS LIGHT DIAGONAL CROSS:\u{2573}\n\
BOX DRAWINGS LIGHT LEFT:\u{2574}\n\
BOX DRAWINGS LIGHT UP:\u{2575}\n\
BOX DRAWINGS LIGHT RIGHT:\u{2576}\n\
BOX DRAWINGS LIGHT DOWN:\u{2577}\n\
BOX DRAWINGS HEAVY LEFT:\u{2578}\n\
BOX DRAWINGS HEAVY UP:\u{2579}\n\
BOX DRAWINGS HEAVY RIGHT:\u{257A}\n\
BOX DRAWINGS HEAVY DOWN:\u{257B}\n\
BOX DRAWINGS LIGHT LEFT AND HEAVY RIGHT:\u{257C}\n\
BOX DRAWINGS LIGHT UP AND HEAVY DOWN:\u{257D}\n\
BOX DRAWINGS HEAVY LEFT AND LIGHT RIGHT:\u{257E}\n\
BOX DRAWINGS HEAVY UP AND LIGHT DOWN:\u{257F}\n\
UPPER HALF BLOCK:\u{2580}\n\
LOWER ONE EIGHTH BLOCK:\u{2581}\n\
LOWER ONE QUARTER BLOCK:\u{2582}\n\
LOWER THREE EIGHTHS BLOCK:\u{2583}\n\
LOWER HALF BLOCK:\u{2584}\n\
LOWER FIVE EIGHTHS BLOCK:\u{2585}\n\
LOWER THREE QUARTERS BLOCK:\u{2586}\n\
LOWER SEVEN EIGHTHS BLOCK:\u{2587}\n\
FULL BLOCK:\u{2588}\n\
LEFT SEVEN EIGHTHS BLOCK:\u{2589}\n\
LEFT THREE QUARTERS BLOCK:\u{258A}\n\
LEFT FIVE EIGHTHS BLOCK:\u{258B}\n\
LEFT HALF BLOCK:\u{258C}\n\
LEFT THREE EIGHTHS BLOCK:\u{258D}\n\
LEFT ONE QUARTER BLOCK:\u{258E}\n\
LEFT ONE EIGHTH BLOCK:\u{258F}\n\
RIGHT HALF BLOCK:\u{2590}\n\
LIGHT SHADE:\u{2591}\n\
MEDIUM SHADE:\u{2592}\n\
DARK SHADE:\u{2593}\n\
UPPER ONE EIGHTH BLOCK:\u{2594}\n\
RIGHT ONE EIGHTH BLOCK:\u{2595}\n\
QUADRANT LOWER LEFT:\u{2596}\n\
QUADRANT LOWER RIGHT:\u{2597}\n\
QUADRANT UPPER LEFT:\u{2598}\n\
QUADRANT UPPER LEFT AND LOWER LEFT AND LOWER RIGHT:\u{2599}\n\
QUADRANT UPPER LEFT AND LOWER RIGHT:\u{259A}\n\
QUADRANT UPPER LEFT AND UPPER RIGHT AND LOWER LEFT:\u{259B}\n\
QUADRANT UPPER LEFT AND UPPER RIGHT AND LOWER RIGHT:\u{259C}\n\
QUADRANT UPPER RIGHT:\u{259D}\n\
QUADRANT UPPER RIGHT AND LOWER LEFT:\u{259E}\n\
QUADRANT UPPER RIGHT AND LOWER LEFT AND LOWER RIGHT:\u{259F}\n\
BLACK SQUARE:\u{25A0}\n\
WHITE SQUARE:\u{25A1}\n\
WHITE SQUARE WITH ROUNDED CORNERS:\u{25A2}\n\
WHITE SQUARE CONTAINING BLACK SMALL SQUARE:\u{25A3}\n\
SQUARE WITH HORIZONTAL FILL:\u{25A4}\n\
SQUARE WITH VERTICAL FILL:\u{25A5}\n\
SQUARE WITH ORTHOGONAL CROSSHATCH FILL:\u{25A6}\n\
SQUARE WITH UPPER LEFT TO LOWER RIGHT FILL:\u{25A7}\n\
SQUARE WITH UPPER RIGHT TO LOWER LEFT FILL:\u{25A8}\n\
SQUARE WITH DIAGONAL CROSSHATCH FILL:\u{25A9}\n\
BLACK SMALL SQUARE:\u{25AA}\n\
WHITE SMALL SQUARE:\u{25AB}\n\
BLACK RECTANGLE:\u{25AC}\n\
WHITE RECTANGLE:\u{25AD}\n\
BLACK VERTICAL RECTANGLE:\u{25AE}\n\
WHITE VERTICAL RECTANGLE:\u{25AF}\n\
BLACK PARALLELOGRAM:\u{25B0}\n\
WHITE PARALLELOGRAM:\u{25B1}\n\
BLACK UP-POINTING TRIANGLE:\u{25B2}\n\
WHITE UP-POINTING TRIANGLE:\u{25B3}\n\
BLACK UP-POINTING SMALL TRIANGLE:\u{25B4}\n\
WHITE UP-POINTING SMALL TRIANGLE:\u{25B5}\n\
BLACK RIGHT-POINTING TRIANGLE:\u{25B6}\n\
WHITE RIGHT-POINTING TRIANGLE:\u{25B7}\n\
BLACK RIGHT-POINTING SMALL TRIANGLE:\u{25B8}\n\
WHITE RIGHT-POINTING SMALL TRIANGLE:\u{25B9}\n\
BLACK RIGHT-POINTING POINTER:\u{25BA}\n\
WHITE RIGHT-POINTING POINTER:\u{25BB}\n\
BLACK DOWN-POINTING TRIANGLE:\u{25BC}\n\
WHITE DOWN-POINTING TRIANGLE:\u{25BD}\n\
BLACK DOWN-POINTING SMALL TRIANGLE:\u{25BE}\n\
WHITE DOWN-POINTING SMALL TRIANGLE:\u{25BF}\n\
BLACK LEFT-POINTING TRIANGLE:\u{25C0}\n\
WHITE LEFT-POINTING TRIANGLE:\u{25C1}\n\
BLACK LEFT-POINTING SMALL TRIANGLE:\u{25C2}\n\
WHITE LEFT-POINTING SMALL TRIANGLE:\u{25C3}\n\
BLACK LEFT-POINTING POINTER:\u{25C4}\n\
WHITE LEFT-POINTING POINTER:\u{25C5}\n\
BLACK DIAMOND:\u{25C6}\n\
WHITE DIAMOND:\u{25C7}\n\
WHITE DIAMOND CONTAINING BLACK SMALL DIAMOND:\u{25C8}\n\
FISHEYE:\u{25C9}\n\
LOZENGE:\u{25CA}\n\
WHITE CIRCLE:\u{25CB}\n\
DOTTED CIRCLE:\u{25CC}\n\
CIRCLE WITH VERTICAL FILL:\u{25CD}\n\
BULLSEYE:\u{25CE}\n\
BLACK CIRCLE:\u{25CF}\n\
CIRCLE WITH LEFT HALF BLACK:\u{25D0}\n\
CIRCLE WITH RIGHT HALF BLACK:\u{25D1}\n\
CIRCLE WITH LOWER HALF BLACK:\u{25D2}\n\
CIRCLE WITH UPPER HALF BLACK:\u{25D3}\n\
CIRCLE WITH UPPER RIGHT QUADRANT BLACK:\u{25D4}\n\
CIRCLE WITH ALL BUT UPPER LEFT QUADRANT BLACK:\u{25D5}\n\
LEFT HALF BLACK CIRCLE:\u{25D6}\n\
RIGHT HALF BLACK CIRCLE:\u{25D7}\n\
INVERSE BULLET:\u{25D8}\n\
INVERSE WHITE CIRCLE:\u{25D9}\n\
UPPER HALF INVERSE WHITE CIRCLE:\u{25DA}\n\
LOWER HALF INVERSE WHITE CIRCLE:\u{25DB}\n\
UPPER LEFT QUADRANT CIRCULAR ARC:\u{25DC}\n\
UPPER RIGHT QUADRANT CIRCULAR ARC:\u{25DD}\n\
LOWER RIGHT QUADRANT CIRCULAR ARC:\u{25DE}\n\
LOWER LEFT QUADRANT CIRCULAR ARC:\u{25DF}\n\
UPPER HALF CIRCLE:\u{25E0}\n\
LOWER HALF CIRCLE:\u{25E1}\n\
BLACK LOWER RIGHT TRIANGLE:\u{25E2}\n\
BLACK LOWER LEFT TRIANGLE:\u{25E3}\n\
BLACK UPPER LEFT TRIANGLE:\u{25E4}\n\
BLACK UPPER RIGHT TRIANGLE:\u{25E5}\n\
WHITE BULLET:\u{25E6}\n\
SQUARE WITH LEFT HALF BLACK:\u{25E7}\n\
SQUARE WITH RIGHT HALF BLACK:\u{25E8}\n\
SQUARE WITH UPPER LEFT DIAGONAL HALF BLACK:\u{25E9}\n\
SQUARE WITH LOWER RIGHT DIAGONAL HALF BLACK:\u{25EA}\n\
WHITE SQUARE WITH VERTICAL BISECTING LINE:\u{25EB}\n\
WHITE UP-POINTING TRIANGLE WITH DOT:\u{25EC}\n\
UP-POINTING TRIANGLE WITH LEFT HALF BLACK:\u{25ED}\n\
UP-POINTING TRIANGLE WITH RIGHT HALF BLACK:\u{25EE}\n\
LARGE CIRCLE:\u{25EF}\n\
WHITE SQUARE WITH UPPER LEFT QUADRANT:\u{25F0}\n\
WHITE SQUARE WITH LOWER LEFT QUADRANT:\u{25F1}\n\
WHITE SQUARE WITH LOWER RIGHT QUADRANT:\u{25F2}\n\
WHITE SQUARE WITH UPPER RIGHT QUADRANT:\u{25F3}\n\
WHITE CIRCLE WITH UPPER LEFT QUADRANT:\u{25F4}\n\
WHITE CIRCLE WITH LOWER LEFT QUADRANT:\u{25F5}\n\
WHITE CIRCLE WITH LOWER RIGHT QUADRANT:\u{25F6}\n\
WHITE CIRCLE WITH UPPER RIGHT QUADRANT:\u{25F7}\n\
UPPER LEFT TRIANGLE:\u{25F8}\n\
UPPER RIGHT TRIANGLE:\u{25F9}\n\
LOWER LEFT TRIANGLE:\u{25FA}\n\
WHITE MEDIUM SQUARE:\u{25FB}\n\
BLACK MEDIUM SQUARE:\u{25FC}\n\
WHITE MEDIUM SMALL SQUARE:\u{25FD}\n\
BLACK MEDIUM SMALL SQUARE:\u{25FE}\n\
LOWER RIGHT TRIANGLE:\u{25FF}\n\
BLACK SUN WITH RAYS:\u{2600}\n\
CLOUD:\u{2601}\n\
UMBRELLA:\u{2602}\n\
SNOWMAN:\u{2603}\n\
COMET:\u{2604}\n\
BLACK STAR:\u{2605}\n\
WHITE STAR:\u{2606}\n\
LIGHTNING:\u{2607}\n\
THUNDERSTORM:\u{2608}\n\
SUN:\u{2609}\n\
ASCENDING NODE:\u{260A}\n\
DESCENDING NODE:\u{260B}\n\
CONJUNCTION:\u{260C}\n\
OPPOSITION:\u{260D}\n\
BLACK TELEPHONE:\u{260E}\n\
WHITE TELEPHONE:\u{260F}\n\
BALLOT BOX:\u{2610}\n\
BALLOT BOX WITH CHECK:\u{2611}\n\
BALLOT BOX WITH X:\u{2612}\n\
SALTIRE:\u{2613}\n\
UMBRELLA WITH RAIN DROPS:\u{2614}\n\
HOT BEVERAGE:\u{2615}\n\
WHITE SHOGI PIECE:\u{2616}\n\
BLACK SHOGI PIECE:\u{2617}\n\
SHAMROCK:\u{2618}\n\
REVERSED ROTATED FLORAL HEART BULLET:\u{2619}\n\
BLACK LEFT POINTING INDEX:\u{261A}\n\
BLACK RIGHT POINTING INDEX:\u{261B}\n\
WHITE LEFT POINTING INDEX:\u{261C}\n\
WHITE UP POINTING INDEX:\u{261D}\n\
WHITE RIGHT POINTING INDEX:\u{261E}\n\
WHITE DOWN POINTING INDEX:\u{261F}\n\
SKULL AND CROSSBONES:\u{2620}\n\
CAUTION SIGN:\u{2621}\n\
RADIOACTIVE SIGN:\u{2622}\n\
BIOHAZARD SIGN:\u{2623}\n\
CADUCEUS:\u{2624}\n\
ANKH:\u{2625}\n\
ORTHODOX CROSS:\u{2626}\n\
CHI RHO:\u{2627}\n\
CROSS OF LORRAINE:\u{2628}\n\
CROSS OF JERUSALEM:\u{2629}\n\
STAR AND CRESCENT:\u{262A}\n\
FARSI SYMBOL:\u{262B}\n\
ADI SHAKTI:\u{262C}\n\
HAMMER AND SICKLE:\u{262D}\n\
PEACE SYMBOL:\u{262E}\n\
YIN YANG:\u{262F}\n\
TRIGRAM FOR HEAVEN:\u{2630}\n\
TRIGRAM FOR LAKE:\u{2631}\n\
TRIGRAM FOR FIRE:\u{2632}\n\
TRIGRAM FOR THUNDER:\u{2633}\n\
TRIGRAM FOR WIND:\u{2634}\n\
TRIGRAM FOR WATER:\u{2635}\n\
TRIGRAM FOR MOUNTAIN:\u{2636}\n\
TRIGRAM FOR EARTH:\u{2637}\n\
WHEEL OF DHARMA:\u{2638}\n\
WHITE FROWNING FACE:\u{2639}\n\
WHITE SMILING FACE:\u{263A}\n\
BLACK SMILING FACE:\u{263B}\n\
WHITE SUN WITH RAYS:\u{263C}\n\
FIRST QUARTER MOON:\u{263D}\n\
LAST QUARTER MOON:\u{263E}\n\
MERCURY:\u{263F}\n\
FEMALE SIGN:\u{2640}\n\
EARTH:\u{2641}\n\
MALE SIGN:\u{2642}\n\
JUPITER:\u{2643}\n\
SATURN:\u{2644}\n\
URANUS:\u{2645}\n\
NEPTUNE:\u{2646}\n\
PLUTO:\u{2647}\n\
ARIES:\u{2648}\n\
TAURUS:\u{2649}\n\
GEMINI:\u{264A}\n\
CANCER:\u{264B}\n\
LEO:\u{264C}\n\
VIRGO:\u{264D}\n\
LIBRA:\u{264E}\n\
SCORPIUS:\u{264F}\n\
SAGITTARIUS:\u{2650}\n\
CAPRICORN:\u{2651}\n\
AQUARIUS:\u{2652}\n\
PISCES:\u{2653}\n\
WHITE CHESS KING:\u{2654}\n\
WHITE CHESS QUEEN:\u{2655}\n\
WHITE CHESS ROOK:\u{2656}\n\
WHITE CHESS BISHOP:\u{2657}\n\
WHITE CHESS KNIGHT:\u{2658}\n\
WHITE CHESS PAWN:\u{2659}\n\
BLACK CHESS KING:\u{265A}\n\
BLACK CHESS QUEEN:\u{265B}\n\
BLACK CHESS ROOK:\u{265C}\n\
BLACK CHESS BISHOP:\u{265D}\n\
BLACK CHESS KNIGHT:\u{265E}\n\
BLACK CHESS PAWN:\u{265F}\n\
BLACK SPADE SUIT:\u{2660}\n\
WHITE HEART SUIT:\u{2661}\n\
WHITE DIAMOND SUIT:\u{2662}\n\
BLACK CLUB SUIT:\u{2663}\n\
WHITE SPADE SUIT:\u{2664}\n\
BLACK HEART SUIT:\u{2665}\n\
BLACK DIAMOND SUIT:\u{2666}\n\
WHITE CLUB SUIT:\u{2667}\n\
HOT SPRINGS:\u{2668}\n\
QUARTER NOTE:\u{2669}\n\
EIGHTH NOTE:\u{266A}\n\
BEAMED EIGHTH NOTES:\u{266B}\n\
BEAMED SIXTEENTH NOTES:\u{266C}\n\
MUSIC FLAT SIGN:\u{266D}\n\
MUSIC NATURAL SIGN:\u{266E}\n\
MUSIC SHARP SIGN:\u{266F}\n\
WEST SYRIAC CROSS:\u{2670}\n\
EAST SYRIAC CROSS:\u{2671}\n\
UNIVERSAL RECYCLING SYMBOL:\u{2672}\n\
RECYCLING SYMBOL FOR TYPE-1 PLASTICS:\u{2673}\n\
RECYCLING SYMBOL FOR TYPE-2 PLASTICS:\u{2674}\n\
RECYCLING SYMBOL FOR TYPE-3 PLASTICS:\u{2675}\n\
RECYCLING SYMBOL FOR TYPE-4 PLASTICS:\u{2676}\n\
RECYCLING SYMBOL FOR TYPE-5 PLASTICS:\u{2677}\n\
RECYCLING SYMBOL FOR TYPE-6 PLASTICS:\u{2678}\n\
RECYCLING SYMBOL FOR TYPE-7 PLASTICS:\u{2679}\n\
RECYCLING SYMBOL FOR GENERIC MATERIALS:\u{267A}\n\
BLACK UNIVERSAL RECYCLING SYMBOL:\u{267B}\n\
RECYCLED PAPER SYMBOL:\u{267C}\n\
PARTIALLY-RECYCLED PAPER SYMBOL:\u{267D}\n\
PERMANENT PAPER SIGN:\u{267E}\n\
WHEELCHAIR SYMBOL:\u{267F}\n\
DIE FACE-1:\u{2680}\n\
DIE FACE-2:\u{2681}\n\
DIE FACE-3:\u{2682}\n\
DIE FACE-4:\u{2683}\n\
DIE FACE-5:\u{2684}\n\
DIE FACE-6:\u{2685}\n\
WHITE CIRCLE WITH DOT RIGHT:\u{2686}\n\
WHITE CIRCLE WITH TWO DOTS:\u{2687}\n\
BLACK CIRCLE WITH WHITE DOT RIGHT:\u{2688}\n\
BLACK CIRCLE WITH TWO WHITE DOTS:\u{2689}\n\
MONOGRAM FOR YANG:\u{268A}\n\
MONOGRAM FOR YIN:\u{268B}\n\
DIGRAM FOR GREATER YANG:\u{268C}\n\
DIGRAM FOR LESSER YIN:\u{268D}\n\
DIGRAM FOR LESSER YANG:\u{268E}\n\
DIGRAM FOR GREATER YIN:\u{268F}\n\
WHITE FLAG:\u{2690}\n\
BLACK FLAG:\u{2691}\n\
HAMMER AND PICK:\u{2692}\n\
ANCHOR:\u{2693}\n\
CROSSED SWORDS:\u{2694}\n\
STAFF OF AESCULAPIUS:\u{2695}\n\
SCALES:\u{2696}\n\
ALEMBIC:\u{2697}\n\
FLOWER:\u{2698}\n\
GEAR:\u{2699}\n\
STAFF OF HERMES:\u{269A}\n\
ATOM SYMBOL:\u{269B}\n\
FLEUR-DE-LIS:\u{269C}\n\
OUTLINED WHITE STAR:\u{269D}\n\
THREE LINES CONVERGING RIGHT:\u{269E}\n\
THREE LINES CONVERGING LEFT:\u{269F}\n\
WARNING SIGN:\u{26A0}\n\
HIGH VOLTAGE SIGN:\u{26A1}\n\
DOUBLED FEMALE SIGN:\u{26A2}\n\
DOUBLED MALE SIGN:\u{26A3}\n\
INTERLOCKED FEMALE AND MALE SIGN:\u{26A4}\n\
MALE AND FEMALE SIGN:\u{26A5}\n\
MALE WITH STROKE SIGN:\u{26A6}\n\
MALE WITH STROKE AND MALE AND FEMALE SIGN:\u{26A7}\n\
VERTICAL MALE WITH STROKE SIGN:\u{26A8}\n\
HORIZONTAL MALE WITH STROKE SIGN:\u{26A9}\n\
MEDIUM WHITE CIRCLE:\u{26AA}\n\
MEDIUM BLACK CIRCLE:\u{26AB}\n\
MEDIUM SMALL WHITE CIRCLE:\u{26AC}\n\
MARRIAGE SYMBOL:\u{26AD}\n\
DIVORCE SYMBOL:\u{26AE}\n\
UNMARRIED PARTNERSHIP SYMBOL:\u{26AF}\n\
COFFIN:\u{26B0}\n\
FUNERAL URN:\u{26B1}\n\
NEUTER:\u{26B2}\n\
CERES:\u{26B3}\n\
PALLAS:\u{26B4}\n\
JUNO:\u{26B5}\n\
VESTA:\u{26B6}\n\
CHIRON:\u{26B7}\n\
BLACK MOON LILITH:\u{26B8}\n\
SEXTILE:\u{26B9}\n\
SEMISEXTILE:\u{26BA}\n\
QUINCUNX:\u{26BB}\n\
SESQUIQUADRATE:\u{26BC}\n\
SOCCER BALL:\u{26BD}\n\
BASEBALL:\u{26BE}\n\
SQUARED KEY:\u{26BF}\n\
WHITE DRAUGHTS MAN:\u{26C0}\n\
WHITE DRAUGHTS KING:\u{26C1}\n\
BLACK DRAUGHTS MAN:\u{26C2}\n\
BLACK DRAUGHTS KING:\u{26C3}\n\
SNOWMAN WITHOUT SNOW:\u{26C4}\n\
SUN BEHIND CLOUD:\u{26C5}\n\
RAIN:\u{26C6}\n\
BLACK SNOWMAN:\u{26C7}\n\
THUNDER CLOUD AND RAIN:\u{26C8}\n\
TURNED WHITE SHOGI PIECE:\u{26C9}\n\
TURNED BLACK SHOGI PIECE:\u{26CA}\n\
WHITE DIAMOND IN SQUARE:\u{26CB}\n\
CROSSING LANES:\u{26CC}\n\
DISABLED CAR:\u{26CD}\n\
OPHIUCHUS:\u{26CE}\n\
PICK:\u{26CF}\n\
CAR SLIDING:\u{26D0}\n\
HELMET WITH WHITE CROSS:\u{26D1}\n\
CIRCLED CROSSING LANES:\u{26D2}\n\
CHAINS:\u{26D3}\n\
NO ENTRY:\u{26D4}\n\
ALTERNATE ONE-WAY LEFT WAY TRAFFIC:\u{26D5}\n\
BLACK TWO-WAY LEFT WAY TRAFFIC:\u{26D6}\n\
WHITE TWO-WAY LEFT WAY TRAFFIC:\u{26D7}\n\
BLACK LEFT LANE MERGE:\u{26D8}\n\
WHITE LEFT LANE MERGE:\u{26D9}\n\
DRIVE SLOW SIGN:\u{26DA}\n\
HEAVY WHITE DOWN-POINTING TRIANGLE:\u{26DB}\n\
LEFT CLOSED ENTRY:\u{26DC}\n\
SQUARED SALTIRE:\u{26DD}\n\
FALLING DIAGONAL IN WHITE CIRCLE IN BLACK SQUARE:\u{26DE}\n\
BLACK TRUCK:\u{26DF}\n\
RESTRICTED LEFT ENTRY-1:\u{26E0}\n\
RESTRICTED LEFT ENTRY-2:\u{26E1}\n\
ASTRONOMICAL SYMBOL FOR URANUS:\u{26E2}\n\
HEAVY CIRCLE WITH STROKE AND TWO DOTS ABOVE:\u{26E3}\n\
PENTAGRAM:\u{26E4}\n\
RIGHT-HANDED INTERLACED PENTAGRAM:\u{26E5}\n\
LEFT-HANDED INTERLACED PENTAGRAM:\u{26E6}\n\
INVERTED PENTAGRAM:\u{26E7}\n\
BLACK CROSS ON SHIELD:\u{26E8}\n\
SHINTO SHRINE:\u{26E9}\n\
CHURCH:\u{26EA}\n\
CASTLE:\u{26EB}\n\
HISTORIC SITE:\u{26EC}\n\
GEAR WITHOUT HUB:\u{26ED}\n\
GEAR WITH HANDLES:\u{26EE}\n\
MAP SYMBOL FOR LIGHTHOUSE:\u{26EF}\n\
MOUNTAIN:\u{26F0}\n\
UMBRELLA ON GROUND:\u{26F1}\n\
FOUNTAIN:\u{26F2}\n\
FLAG IN HOLE:\u{26F3}\n\
FERRY:\u{26F4}\n\
SAILBOAT:\u{26F5}\n\
SQUARE FOUR CORNERS:\u{26F6}\n\
SKIER:\u{26F7}\n\
ICE SKATE:\u{26F8}\n\
PERSON WITH BALL:\u{26F9}\n\
TENT:\u{26FA}\n\
JAPANESE BANK SYMBOL:\u{26FB}\n\
HEADSTONE GRAVEYARD SYMBOL:\u{26FC}\n\
FUEL PUMP:\u{26FD}\n\
CUP ON BLACK SQUARE:\u{26FE}\n\
WHITE FLAG WITH HORIZONTAL MIDDLE BLACK STRIPE:\u{26FF}\n";

pub const NAMES_23: &'static str = "BLACK SAFETY SCISSORS:\u{2700}\n\
UPPER BLADE SCISSORS:\u{2701}\n\
BLACK SCISSORS:\u{2702}\n\
LOWER BLADE SCISSORS:\u{2703}\n\
WHITE SCISSORS:\u{2704}\n\
WHITE HEAVY CHECK MARK:\u{2705}\n\
TELEPHONE LOCATION SIGN:\u{2706}\n\
TAPE DRIVE:\u{2707}\n\
AIRPLANE:\u{2708}\n\
ENVELOPE:\u{2709}\n\
RAISED FIST:\u{270A}\n\
RAISED HAND:\u{270B}\n\
VICTORY HAND:\u{270C}\n\
WRITING HAND:\u{270D}\n\
LOWER RIGHT PENCIL:\u{270E}\n\
PENCIL:\u{270F}\n\
UPPER RIGHT PENCIL:\u{2710}\n\
WHITE NIB:\u{2711}\n\
BLACK NIB:\u{2712}\n\
CHECK MARK:\u{2713}\n\
HEAVY CHECK MARK:\u{2714}\n\
MULTIPLICATION X:\u{2715}\n\
HEAVY MULTIPLICATION X:\u{2716}\n\
BALLOT X:\u{2717}\n\
HEAVY BALLOT X:\u{2718}\n\
OUTLINED GREEK CROSS:\u{2719}\n\
HEAVY GREEK CROSS:\u{271A}\n\
OPEN CENTRE CROSS:\u{271B}\n\
HEAVY OPEN CENTRE CROSS:\u{271C}\n\
LATIN CROSS:\u{271D}\n\
SHADOWED WHITE LATIN CROSS:\u{271E}\n\
OUTLINED LATIN CROSS:\u{271F}\n\
MALTESE CROSS:\u{2720}\n\
STAR OF DAVID:\u{2721}\n\
FOUR TEARDROP-SPOKED ASTERISK:\u{2722}\n\
FOUR BALLOON-SPOKED ASTERISK:\u{2723}\n\
HEAVY FOUR BALLOON-SPOKED ASTERISK:\u{2724}\n\
FOUR CLUB-SPOKED ASTERISK:\u{2725}\n\
BLACK FOUR POINTED STAR:\u{2726}\n\
WHITE FOUR POINTED STAR:\u{2727}\n\
SPARKLES:\u{2728}\n\
STRESS OUTLINED WHITE STAR:\u{2729}\n\
CIRCLED WHITE STAR:\u{272A}\n\
OPEN CENTRE BLACK STAR:\u{272B}\n\
BLACK CENTRE WHITE STAR:\u{272C}\n\
OUTLINED BLACK STAR:\u{272D}\n\
HEAVY OUTLINED BLACK STAR:\u{272E}\n\
PINWHEEL STAR:\u{272F}\n\
SHADOWED WHITE STAR:\u{2730}\n\
HEAVY ASTERISK:\u{2731}\n\
OPEN CENTRE ASTERISK:\u{2732}\n\
EIGHT SPOKED ASTERISK:\u{2733}\n\
EIGHT POINTED BLACK STAR:\u{2734}\n\
EIGHT POINTED PINWHEEL STAR:\u{2735}\n\
SIX POINTED BLACK STAR:\u{2736}\n\
EIGHT POINTED RECTILINEAR BLACK STAR:\u{2737}\n\
HEAVY EIGHT POINTED RECTILINEAR BLACK STAR:\u{2738}\n\
TWELVE POINTED BLACK STAR:\u{2739}\n\
SIXTEEN POINTED ASTERISK:\u{273A}\n\
TEARDROP-SPOKED ASTERISK:\u{273B}\n\
OPEN CENTRE TEARDROP-SPOKED ASTERISK:\u{273C}\n\
HEAVY TEARDROP-SPOKED ASTERISK:\u{273D}\n\
SIX PETALLED BLACK AND WHITE FLORETTE:\u{273E}\n\
BLACK FLORETTE:\u{273F}\n\
WHITE FLORETTE:\u{2740}\n\
EIGHT PETALLED OUTLINED BLACK FLORETTE:\u{2741}\n\
CIRCLED OPEN CENTRE EIGHT POINTED STAR:\u{2742}\n\
HEAVY TEARDROP-SPOKED PINWHEEL ASTERISK:\u{2743}\n\
SNOWFLAKE:\u{2744}\n\
TIGHT TRIFOLIATE SNOWFLAKE:\u{2745}\n\
HEAVY CHEVRON SNOWFLAKE:\u{2746}\n\
SPARKLE:\u{2747}\n\
HEAVY SPARKLE:\u{2748}\n\
BALLOON-SPOKED ASTERISK:\u{2749}\n\
EIGHT TEARDROP-SPOKED PROPELLER ASTERISK:\u{274A}\n\
HEAVY EIGHT TEARDROP-SPOKED PROPELLER ASTERISK:\u{274B}\n\
CROSS MARK:\u{274C}\n\
SHADOWED WHITE CIRCLE:\u{274D}\n\
NEGATIVE SQUARED CROSS MARK:\u{274E}\n\
LOWER RIGHT DROP-SHADOWED WHITE SQUARE:\u{274F}\n\
UPPER RIGHT DROP-SHADOWED WHITE SQUARE:\u{2750}\n\
LOWER RIGHT SHADOWED WHITE SQUARE:\u{2751}\n\
UPPER RIGHT SHADOWED WHITE SQUARE:\u{2752}\n\
BLACK QUESTION MARK ORNAMENT:\u{2753}\n\
WHITE QUESTION MARK ORNAMENT:\u{2754}\n\
WHITE EXCLAMATION MARK ORNAMENT:\u{2755}\n\
BLACK DIAMOND MINUS WHITE X:\u{2756}\n\
HEAVY EXCLAMATION MARK SYMBOL:\u{2757}\n\
LIGHT VERTICAL BAR:\u{2758}\n\
MEDIUM VERTICAL BAR:\u{2759}\n\
HEAVY VERTICAL BAR:\u{275A}\n\
HEAVY SINGLE TURNED COMMA QUOTATION MARK ORNAMENT:\u{275B}\n\
HEAVY SINGLE COMMA QUOTATION MARK ORNAMENT:\u{275C}\n\
HEAVY DOUBLE TURNED COMMA QUOTATION MARK ORNAMENT:\u{275D}\n\
HEAVY DOUBLE COMMA QUOTATION MARK ORNAMENT:\u{275E}\n\
HEAVY LOW SINGLE COMMA QUOTATION MARK ORNAMENT:\u{275F}\n\
HEAVY LOW DOUBLE COMMA QUOTATION MARK ORNAMENT:\u{2760}\n\
CURVED STEM PARAGRAPH SIGN ORNAMENT:\u{2761}\n\
HEAVY EXCLAMATION MARK ORNAMENT:\u{2762}\n\
HEAVY HEART EXCLAMATION MARK ORNAMENT:\u{2763}\n\
HEAVY BLACK HEART:\u{2764}\n\
ROTATED HEAVY BLACK HEART BULLET:\u{2765}\n\
FLORAL HEART:\u{2766}\n\
ROTATED FLORAL HEART BULLET:\u{2767}\n\
MEDIUM LEFT PARENTHESIS ORNAMENT:\u{2768}\n\
MEDIUM RIGHT PARENTHESIS ORNAMENT:\u{2769}\n\
MEDIUM FLATTENED LEFT PARENTHESIS ORNAMENT:\u{276A}\n\
MEDIUM FLATTENED RIGHT PARENTHESIS ORNAMENT:\u{276B}\n\
MEDIUM LEFT-POINTING ANGLE BRACKET ORNAMENT:\u{276C}\n\
MEDIUM RIGHT-POINTING ANGLE BRACKET ORNAMENT:\u{276D}\n\
HEAVY LEFT-POINTING ANGLE QUOTATION MARK ORNAMENT:\u{276E}\n\
HEAVY RIGHT-POINTING ANGLE QUOTATION MARK ORNAMENT:\u{276F}\n\
HEAVY LEFT-POINTING ANGLE BRACKET ORNAMENT:\u{2770}\n\
HEAVY RIGHT-POINTING ANGLE BRACKET ORNAMENT:\u{2771}\n\
LIGHT LEFT TORTOISE SHELL BRACKET ORNAMENT:\u{2772}\n\
LIGHT RIGHT TORTOISE SHELL BRACKET ORNAMENT:\u{2773}\n\
MEDIUM LEFT CURLY BRACKET ORNAMENT:\u{2774}\n\
MEDIUM RIGHT CURLY BRACKET ORNAMENT:\u{2775}\n\
DINGBAT NEGATIVE CIRCLED DIGIT ONE:\u{2776}\n\
DINGBAT NEGATIVE CIRCLED DIGIT TWO:\u{2777}\n\
DINGBAT NEGATIVE CIRCLED DIGIT THREE:\u{2778}\n\
DINGBAT NEGATIVE CIRCLED DIGIT FOUR:\u{2779}\n\
DINGBAT NEGATIVE CIRCLED DIGIT FIVE:\u{277A}\n\
DINGBAT NEGATIVE CIRCLED DIGIT SIX:\u{277B}\n\
DINGBAT NEGATIVE CIRCLED DIGIT SEVEN:\u{277C}\n\
DINGBAT NEGATIVE CIRCLED DIGIT EIGHT:\u{277D}\n\
DINGBAT NEGATIVE CIRCLED DIGIT NINE:\u{277E}\n\
DINGBAT NEGATIVE CIRCLED NUMBER TEN:\u{277F}\n\
DINGBAT CIRCLED SANS-SERIF DIGIT ONE:\u{2780}\n\
DINGBAT CIRCLED SANS-SERIF DIGIT TWO:\u{2781}\n\
DINGBAT CIRCLED SANS-SERIF DIGIT THREE:\u{2782}\n\
DINGBAT CIRCLED SANS-SERIF DIGIT FOUR:\u{2783}\n\
DINGBAT CIRCLED SANS-SERIF DIGIT FIVE:\u{2784}\n\
DINGBAT CIRCLED SANS-SERIF DIGIT SIX:\u{2785}\n\
DINGBAT CIRCLED SANS-SERIF DIGIT SEVEN:\u{2786}\n\
DINGBAT CIRCLED SANS-SERIF DIGIT EIGHT:\u{2787}\n\
DINGBAT CIRCLED SANS-SERIF DIGIT NINE:\u{2788}\n\
DINGBAT CIRCLED SANS-SERIF NUMBER TEN:\u{2789}\n\
DINGBAT NEGATIVE CIRCLED SANS-SERIF DIGIT ONE:\u{278A}\n\
DINGBAT NEGATIVE CIRCLED SANS-SERIF DIGIT TWO:\u{278B}\n\
DINGBAT NEGATIVE CIRCLED SANS-SERIF DIGIT THREE:\u{278C}\n\
DINGBAT NEGATIVE CIRCLED SANS-SERIF DIGIT FOUR:\u{278D}\n\
DINGBAT NEGATIVE CIRCLED SANS-SERIF DIGIT FIVE:\u{278E}\n\
DINGBAT NEGATIVE CIRCLED SANS-SERIF DIGIT SIX:\u{278F}\n\
DINGBAT NEGATIVE CIRCLED SANS-SERIF DIGIT SEVEN:\u{2790}\n\
DINGBAT NEGATIVE CIRCLED SANS-SERIF DIGIT EIGHT:\u{2791}\n\
DINGBAT NEGATIVE CIRCLED SANS-SERIF DIGIT NINE:\u{2792}\n\
DINGBAT NEGATIVE CIRCLED SANS-SERIF NUMBER TEN:\u{2793}\n\
HEAVY WIDE-HEADED RIGHTWARDS ARROW:\u{2794}\n\
HEAVY PLUS SIGN:\u{2795}\n\
HEAVY MINUS SIGN:\u{2796}\n\
HEAVY DIVISION SIGN:\u{2797}\n\
HEAVY SOUTH EAST ARROW:\u{2798}\n\
HEAVY RIGHTWARDS ARROW:\u{2799}\n\
HEAVY NORTH EAST ARROW:\u{279A}\n\
DRAFTING POINT RIGHTWARDS ARROW:\u{279B}\n\
HEAVY ROUND-TIPPED RIGHTWARDS ARROW:\u{279C}\n\
TRIANGLE-HEADED RIGHTWARDS ARROW:\u{279D}\n\
HEAVY TRIANGLE-HEADED RIGHTWARDS ARROW:\u{279E}\n\
DASHED TRIANGLE-HEADED RIGHTWARDS ARROW:\u{279F}\n\
HEAVY DASHED TRIANGLE-HEADED RIGHTWARDS ARROW:\u{27A0}\n\
BLACK RIGHTWARDS ARROW:\u{27A1}\n\
THREE-D TOP-LIGHTED RIGHTWARDS ARROWHEAD:\u{27A2}\n\
THREE-D BOTTOM-LIGHTED RIGHTWARDS ARROWHEAD:\u{27A3}\n\
BLACK RIGHTWARDS ARROWHEAD:\u{27A4}\n\
HEAVY BLACK CURVED DOWNWARDS AND RIGHTWARDS ARROW:\u{27A5}\n\
HEAVY BLACK CURVED UPWARDS AND RIGHTWARDS ARROW:\u{27A6}\n\
SQUAT BLACK RIGHTWARDS ARROW:\u{27A7}\n\
HEAVY CONCAVE-POINTED BLACK RIGHTWARDS ARROW:\u{27A8}\n\
RIGHT-SHADED WHITE RIGHTWARDS ARROW:\u{27A9}\n\
LEFT-SHADED WHITE RIGHTWARDS ARROW:\u{27AA}\n\
BACK-TILTED SHADOWED WHITE RIGHTWARDS ARROW:\u{27AB}\n\
FRONT-TILTED SHADOWED WHITE RIGHTWARDS ARROW:\u{27AC}\n\
HEAVY LOWER RIGHT-SHADOWED WHITE RIGHTWARDS ARROW:\u{27AD}\n\
HEAVY UPPER RIGHT-SHADOWED WHITE RIGHTWARDS ARROW:\u{27AE}\n\
NOTCHED LOWER RIGHT-SHADOWED WHITE RIGHTWARDS ARROW:\u{27AF}\n\
CURLY LOOP:\u{27B0}\n\
NOTCHED UPPER RIGHT-SHADOWED WHITE RIGHTWARDS ARROW:\u{27B1}\n\
CIRCLED HEAVY WHITE RIGHTWARDS ARROW:\u{27B2}\n\
WHITE-FEATHERED RIGHTWARDS ARROW:\u{27B3}\n\
BLACK-FEATHERED SOUTH EAST ARROW:\u{27B4}\n\
BLACK-FEATHERED RIGHTWARDS ARROW:\u{27B5}\n\
BLACK-FEATHERED NORTH EAST ARROW:\u{27B6}\n\
HEAVY BLACK-FEATHERED SOUTH EAST ARROW:\u{27B7}\n\
HEAVY BLACK-FEATHERED RIGHTWARDS ARROW:\u{27B8}\n\
HEAVY BLACK-FEATHERED NORTH EAST ARROW:\u{27B9}\n\
TEARDROP-BARBED RIGHTWARDS ARROW:\u{27BA}\n\
HEAVY TEARDROP-SHANKED RIGHTWARDS ARROW:\u{27BB}\n\
WEDGE-TAILED RIGHTWARDS ARROW:\u{27BC}\n\
HEAVY WEDGE-TAILED RIGHTWARDS ARROW:\u{27BD}\n\
OPEN-OUTLINED RIGHTWARDS ARROW:\u{27BE}\n\
DOUBLE CURLY LOOP:\u{27BF}\n\
THREE DIMENSIONAL ANGLE:\u{27C0}\n\
WHITE TRIANGLE CONTAINING SMALL WHITE TRIANGLE:\u{27C1}\n\
PERPENDICULAR:\u{27C2}\n\
OPEN SUBSET:\u{27C3}\n\
OPEN SUPERSET:\u{27C4}\n\
LEFT S-SHAPED BAG DELIMITER:\u{27C5}\n\
RIGHT S-SHAPED BAG DELIMITER:\u{27C6}\n\
OR WITH DOT INSIDE:\u{27C7}\n\
REVERSE SOLIDUS PRECEDING SUBSET:\u{27C8}\n\
SUPERSET PRECEDING SOLIDUS:\u{27C9}\n\
VERTICAL BAR WITH HORIZONTAL STROKE:\u{27CA}\n\
MATHEMATICAL RISING DIAGONAL:\u{27CB}\n\
LONG DIVISION:\u{27CC}\n\
MATHEMATICAL FALLING DIAGONAL:\u{27CD}\n\
SQUARED LOGICAL AND:\u{27CE}\n\
SQUARED LOGICAL OR:\u{27CF}\n\
WHITE DIAMOND WITH CENTRED DOT:\u{27D0}\n\
AND WITH DOT:\u{27D1}\n\
ELEMENT OF OPENING UPWARDS:\u{27D2}\n\
LOWER RIGHT CORNER WITH DOT:\u{27D3}\n\
UPPER LEFT CORNER WITH DOT:\u{27D4}\n\
LEFT OUTER JOIN:\u{27D5}\n\
RIGHT OUTER JOIN:\u{27D6}\n\
FULL OUTER JOIN:\u{27D7}\n\
LARGE UP TACK:\u{27D8}\n\
LARGE DOWN TACK:\u{27D9}\n\
LEFT AND RIGHT DOUBLE TURNSTILE:\u{27DA}\n\
LEFT AND RIGHT TACK:\u{27DB}\n\
LEFT MULTIMAP:\u{27DC}\n\
LONG RIGHT TACK:\u{27DD}\n\
LONG LEFT TACK:\u{27DE}\n\
UP TACK WITH CIRCLE ABOVE:\u{27DF}\n\
LOZENGE DIVIDED BY HORIZONTAL RULE:\u{27E0}\n\
WHITE CONCAVE-SIDED DIAMOND:\u{27E1}\n\
WHITE CONCAVE-SIDED DIAMOND WITH LEFTWARDS TICK:\u{27E2}\n\
WHITE CONCAVE-SIDED DIAMOND WITH RIGHTWARDS TICK:\u{27E3}\n\
WHITE SQUARE WITH LEFTWARDS TICK:\u{27E4}\n\
WHITE SQUARE WITH RIGHTWARDS TICK:\u{27E5}\n\
MATHEMATICAL LEFT WHITE SQUARE BRACKET:\u{27E6}\n\
MATHEMATICAL RIGHT WHITE SQUARE BRACKET:\u{27E7}\n\
MATHEMATICAL LEFT ANGLE BRACKET:\u{27E8}\n\
MATHEMATICAL RIGHT ANGLE BRACKET:\u{27E9}\n\
MATHEMATICAL LEFT DOUBLE ANGLE BRACKET:\u{27EA}\n\
MATHEMATICAL RIGHT DOUBLE ANGLE BRACKET:\u{27EB}\n\
MATHEMATICAL LEFT WHITE TORTOISE SHELL BRACKET:\u{27EC}\n\
MATHEMATICAL RIGHT WHITE TORTOISE SHELL BRACKET:\u{27ED}\n\
MATHEMATICAL LEFT FLATTENED PARENTHESIS:\u{27EE}\n\
MATHEMATICAL RIGHT FLATTENED PARENTHESIS:\u{27EF}\n\
UPWARDS QUADRUPLE ARROW:\u{27F0}\n\
DOWNWARDS QUADRUPLE ARROW:\u{27F1}\n\
ANTICLOCKWISE GAPPED CIRCLE ARROW:\u{27F2}\n\
CLOCKWISE GAPPED CIRCLE ARROW:\u{27F3}\n\
RIGHT ARROW WITH CIRCLED PLUS:\u{27F4}\n\
LONG LEFTWARDS ARROW:\u{27F5}\n\
LONG RIGHTWARDS ARROW:\u{27F6}\n\
LONG LEFT RIGHT ARROW:\u{27F7}\n\
LONG LEFTWARDS DOUBLE ARROW:\u{27F8}\n\
LONG RIGHTWARDS DOUBLE ARROW:\u{27F9}\n\
LONG LEFT RIGHT DOUBLE ARROW:\u{27FA}\n\
LONG LEFTWARDS ARROW FROM BAR:\u{27FB}\n\
LONG RIGHTWARDS ARROW FROM BAR:\u{27FC}\n\
LONG LEFTWARDS DOUBLE ARROW FROM BAR:\u{27FD}\n\
LONG RIGHTWARDS DOUBLE ARROW FROM BAR:\u{27FE}\n\
LONG RIGHTWARDS SQUIGGLE ARROW:\u{27FF}\n\
BRAILLE PATTERN BLANK:\u{2800}\n\
BRAILLE PATTERN DOTS-1:\u{2801}\n\
BRAILLE PATTERN DOTS-2:\u{2802}\n\
BRAILLE PATTERN DOTS-12:\u{2803}\n\
BRAILLE PATTERN DOTS-3:\u{2804}\n\
BRAILLE PATTERN DOTS-13:\u{2805}\n\
BRAILLE PATTERN DOTS-23:\u{2806}\n\
BRAILLE PATTERN DOTS-123:\u{2807}\n\
BRAILLE PATTERN DOTS-4:\u{2808}\n\
BRAILLE PATTERN DOTS-14:\u{2809}\n\
BRAILLE PATTERN DOTS-24:\u{280A}\n\
BRAILLE PATTERN DOTS-124:\u{280B}\n\
BRAILLE PATTERN DOTS-34:\u{280C}\n\
BRAILLE PATTERN DOTS-134:\u{280D}\n\
BRAILLE PATTERN DOTS-234:\u{280E}\n\
BRAILLE PATTERN DOTS-1234:\u{280F}\n\
BRAILLE PATTERN DOTS-5:\u{2810}\n\
BRAILLE PATTERN DOTS-15:\u{2811}\n\
BRAILLE PATTERN DOTS-25:\u{2812}\n\
BRAILLE PATTERN DOTS-125:\u{2813}\n\
BRAILLE PATTERN DOTS-35:\u{2814}\n\
BRAILLE PATTERN DOTS-135:\u{2815}\n\
BRAILLE PATTERN DOTS-235:\u{2816}\n\
BRAILLE PATTERN DOTS-1235:\u{2817}\n\
BRAILLE PATTERN DOTS-45:\u{2818}\n\
BRAILLE PATTERN DOTS-145:\u{2819}\n\
BRAILLE PATTERN DOTS-245:\u{281A}\n\
BRAILLE PATTERN DOTS-1245:\u{281B}\n\
BRAILLE PATTERN DOTS-345:\u{281C}\n\
BRAILLE PATTERN DOTS-1345:\u{281D}\n\
BRAILLE PATTERN DOTS-2345:\u{281E}\n\
BRAILLE PATTERN DOTS-12345:\u{281F}\n\
BRAILLE PATTERN DOTS-6:\u{2820}\n\
BRAILLE PATTERN DOTS-16:\u{2821}\n\
BRAILLE PATTERN DOTS-26:\u{2822}\n\
BRAILLE PATTERN DOTS-126:\u{2823}\n\
BRAILLE PATTERN DOTS-36:\u{2824}\n\
BRAILLE PATTERN DOTS-136:\u{2825}\n\
BRAILLE PATTERN DOTS-236:\u{2826}\n\
BRAILLE PATTERN DOTS-1236:\u{2827}\n\
BRAILLE PATTERN DOTS-46:\u{2828}\n\
BRAILLE PATTERN DOTS-146:\u{2829}\n\
BRAILLE PATTERN DOTS-246:\u{282A}\n\
BRAILLE PATTERN DOTS-1246:\u{282B}\n\
BRAILLE PATTERN DOTS-346:\u{282C}\n\
BRAILLE PATTERN DOTS-1346:\u{282D}\n\
BRAILLE PATTERN DOTS-2346:\u{282E}\n\
BRAILLE PATTERN DOTS-12346:\u{282F}\n\
BRAILLE PATTERN DOTS-56:\u{2830}\n\
BRAILLE PATTERN DOTS-156:\u{2831}\n\
BRAILLE PATTERN DOTS-256:\u{2832}\n\
BRAILLE PATTERN DOTS-1256:\u{2833}\n\
BRAILLE PATTERN DOTS-356:\u{2834}\n\
BRAILLE PATTERN DOTS-1356:\u{2835}\n\
BRAILLE PATTERN DOTS-2356:\u{2836}\n\
BRAILLE PATTERN DOTS-12356:\u{2837}\n\
BRAILLE PATTERN DOTS-456:\u{2838}\n\
BRAILLE PATTERN DOTS-1456:\u{2839}\n\
BRAILLE PATTERN DOTS-2456:\u{283A}\n\
BRAILLE PATTERN DOTS-12456:\u{283B}\n\
BRAILLE PATTERN DOTS-3456:\u{283C}\n\
BRAILLE PATTERN DOTS-13456:\u{283D}\n\
BRAILLE PATTERN DOTS-23456:\u{283E}\n\
BRAILLE PATTERN DOTS-123456:\u{283F}\n\
BRAILLE PATTERN DOTS-7:\u{2840}\n\
BRAILLE PATTERN DOTS-17:\u{2841}\n\
BRAILLE PATTERN DOTS-27:\u{2842}\n\
BRAILLE PATTERN DOTS-127:\u{2843}\n\
BRAILLE PATTERN DOTS-37:\u{2844}\n\
BRAILLE PATTERN DOTS-137:\u{2845}\n\
BRAILLE PATTERN DOTS-237:\u{2846}\n\
BRAILLE PATTERN DOTS-1237:\u{2847}\n\
BRAILLE PATTERN DOTS-47:\u{2848}\n\
BRAILLE PATTERN DOTS-147:\u{2849}\n\
BRAILLE PATTERN DOTS-247:\u{284A}\n\
BRAILLE PATTERN DOTS-1247:\u{284B}\n\
BRAILLE PATTERN DOTS-347:\u{284C}\n\
BRAILLE PATTERN DOTS-1347:\u{284D}\n\
BRAILLE PATTERN DOTS-2347:\u{284E}\n\
BRAILLE PATTERN DOTS-12347:\u{284F}\n\
BRAILLE PATTERN DOTS-57:\u{2850}\n\
BRAILLE PATTERN DOTS-157:\u{2851}\n\
BRAILLE PATTERN DOTS-257:\u{2852}\n\
BRAILLE PATTERN DOTS-1257:\u{2853}\n\
BRAILLE PATTERN DOTS-357:\u{2854}\n\
BRAILLE PATTERN DOTS-1357:\u{2855}\n\
BRAILLE PATTERN DOTS-2357:\u{2856}\n\
BRAILLE PATTERN DOTS-12357:\u{2857}\n\
BRAILLE PATTERN DOTS-457:\u{2858}\n\
BRAILLE PATTERN DOTS-1457:\u{2859}\n\
BRAILLE PATTERN DOTS-2457:\u{285A}\n\
BRAILLE PATTERN DOTS-12457:\u{285B}\n\
BRAILLE PATTERN DOTS-3457:\u{285C}\n\
BRAILLE PATTERN DOTS-13457:\u{285D}\n\
BRAILLE PATTERN DOTS-23457:\u{285E}\n\
BRAILLE PATTERN DOTS-123457:\u{285F}\n\
BRAILLE PATTERN DOTS-67:\u{2860}\n\
BRAILLE PATTERN DOTS-167:\u{2861}\n\
BRAILLE PATTERN DOTS-267:\u{2862}\n\
BRAILLE PATTERN DOTS-1267:\u{2863}\n\
BRAILLE PATTERN DOTS-367:\u{2864}\n\
BRAILLE PATTERN DOTS-1367:\u{2865}\n\
BRAILLE PATTERN DOTS-2367:\u{2866}\n\
BRAILLE PATTERN DOTS-12367:\u{2867}\n\
BRAILLE PATTERN DOTS-467:\u{2868}\n\
BRAILLE PATTERN DOTS-1467:\u{2869}\n\
BRAILLE PATTERN DOTS-2467:\u{286A}\n\
BRAILLE PATTERN DOTS-12467:\u{286B}\n\
BRAILLE PATTERN DOTS-3467:\u{286C}\n\
BRAILLE PATTERN DOTS-13467:\u{286D}\n\
BRAILLE PATTERN DOTS-23467:\u{286E}\n\
BRAILLE PATTERN DOTS-123467:\u{286F}\n\
BRAILLE PATTERN DOTS-567:\u{2870}\n\
BRAILLE PATTERN DOTS-1567:\u{2871}\n";

pub const NAMES_24: &'static str = "BRAILLE PATTERN DOTS-2567:\u{2872}\n\
BRAILLE PATTERN DOTS-12567:\u{2873}\n\
BRAILLE PATTERN DOTS-3567:\u{2874}\n\
BRAILLE PATTERN DOTS-13567:\u{2875}\n\
BRAILLE PATTERN DOTS-23567:\u{2876}\n\
BRAILLE PATTERN DOTS-123567:\u{2877}\n\
BRAILLE PATTERN DOTS-4567:\u{2878}\n\
BRAILLE PATTERN DOTS-14567:\u{2879}\n\
BRAILLE PATTERN DOTS-24567:\u{287A}\n\
BRAILLE PATTERN DOTS-124567:\u{287B}\n\
BRAILLE PATTERN DOTS-34567:\u{287C}\n\
BRAILLE PATTERN DOTS-134567:\u{287D}\n\
BRAILLE PATTERN DOTS-234567:\u{287E}\n\
BRAILLE PATTERN DOTS-1234567:\u{287F}\n\
BRAILLE PATTERN DOTS-8:\u{2880}\n\
BRAILLE PATTERN DOTS-18:\u{2881}\n\
BRAILLE PATTERN DOTS-28:\u{2882}\n\
BRAILLE PATTERN DOTS-128:\u{2883}\n\
BRAILLE PATTERN DOTS-38:\u{2884}\n\
BRAILLE PATTERN DOTS-138:\u{2885}\n\
BRAILLE PATTERN DOTS-238:\u{2886}\n\
BRAILLE PATTERN DOTS-1238:\u{2887}\n\
BRAILLE PATTERN DOTS-48:\u{2888}\n\
BRAILLE PATTERN DOTS-148:\u{2889}\n\
BRAILLE PATTERN DOTS-248:\u{288A}\n\
BRAILLE PATTERN DOTS-1248:\u{288B}\n\
BRAILLE PATTERN DOTS-348:\u{288C}\n\
BRAILLE PATTERN DOTS-1348:\u{288D}\n\
BRAILLE PATTERN DOTS-2348:\u{288E}\n\
BRAILLE PATTERN DOTS-12348:\u{288F}\n\
BRAILLE PATTERN DOTS-58:\u{2890}\n\
BRAILLE PATTERN DOTS-158:\u{2891}\n\
BRAILLE PATTERN DOTS-258:\u{2892}\n\
BRAILLE PATTERN DOTS-1258:\u{2893}\n\
BRAILLE PATTERN DOTS-358:\u{2894}\n\
BRAILLE PATTERN DOTS-1358:\u{2895}\n\
BRAILLE PATTERN DOTS-2358:\u{2896}\n\
BRAILLE PATTERN DOTS-12358:\u{2897}\n\
BRAILLE PATTERN DOTS-458:\u{2898}\n\
BRAILLE PATTERN DOTS-1458:\u{2899}\n\
BRAILLE PATTERN DOTS-2458:\u{289A}\n\
BRAILLE PATTERN DOTS-12458:\u{289B}\n\
BRAILLE PATTERN DOTS-3458:\u{289C}\n\
BRAILLE PATTERN DOTS-13458:\u{289D}\n\
BRAILLE PATTERN DOTS-23458:\u{289E}\n\
BRAILLE PATTERN DOTS-123458:\u{289F}\n\
BRAILLE PATTERN DOTS-68:\u{28A0}\n\
BRAILLE PATTERN DOTS-168:\u{28A1}\n\
BRAILLE PATTERN DOTS-268:\u{28A2}\n\
BRAILLE PATTERN DOTS-1268:\u{28A3}\n\
BRAILLE PATTERN DOTS-368:\u{28A4}\n\
BRAILLE PATTERN DOTS-1368:\u{28A5}\n\
BRAILLE PATTERN DOTS-2368:\u{28A6}\n\
BRAILLE PATTERN DOTS-12368:\u{28A7}\n\
BRAILLE PATTERN DOTS-468:\u{28A8}\n\
BRAILLE PATTERN DOTS-1468:\u{28A9}\n\
BRAILLE PATTERN DOTS-2468:\u{28AA}\n\
BRAILLE PATTERN DOTS-12468:\u{28AB}\n\
BRAILLE PATTERN DOTS-3468:\u{28AC}\n\
BRAILLE PATTERN DOTS-13468:\u{28AD}\n\
BRAILLE PATTERN DOTS-23468:\u{28AE}\n\
BRAILLE PATTERN DOTS-123468:\u{28AF}\n\
BRAILLE PATTERN DOTS-568:\u{28B0}\n\
BRAILLE PATTERN DOTS-1568:\u{28B1}\n\
BRAILLE PATTERN DOTS-2568:\u{28B2}\n\
BRAILLE PATTERN DOTS-12568:\u{28B3}\n\
BRAILLE PATTERN DOTS-3568:\u{28B4}\n\
BRAILLE PATTERN DOTS-13568:\u{28B5}\n\
BRAILLE PATTERN DOTS-23568:\u{28B6}\n\
BRAILLE PATTERN DOTS-123568:\u{28B7}\n\
BRAILLE PATTERN DOTS-4568:\u{28B8}\n\
BRAILLE PATTERN DOTS-14568:\u{28B9}\n\
BRAILLE PATTERN DOTS-24568:\u{28BA}\n\
BRAILLE PATTERN DOTS-124568:\u{28BB}\n\
BRAILLE PATTERN DOTS-34568:\u{28BC}\n\
BRAILLE PATTERN DOTS-134568:\u{28BD}\n\
BRAILLE PATTERN DOTS-234568:\u{28BE}\n\
BRAILLE PATTERN DOTS-1234568:\u{28BF}\n\
BRAILLE PATTERN DOTS-78:\u{28C0}\n\
BRAILLE PATTERN DOTS-178:\u{28C1}\n\
BRAILLE PATTERN DOTS-278:\u{28C2}\n\
BRAILLE PATTERN DOTS-1278:\u{28C3}\n\
BRAILLE PATTERN DOTS-378:\u{28C4}\n\
BRAILLE PATTERN DOTS-1378:\u{28C5}\n\
BRAILLE PATTERN DOTS-2378:\u{28C6}\n\
BRAILLE PATTERN DOTS-12378:\u{28C7}\n\
BRAILLE PATTERN DOTS-478:\u{28C8}\n\
BRAILLE PATTERN DOTS-1478:\u{28C9}\n\
BRAILLE PATTERN DOTS-2478:\u{28CA}\n\
BRAILLE PATTERN DOTS-12478:\u{28CB}\n\
BRAILLE PATTERN DOTS-3478:\u{28CC}\n\
BRAILLE PATTERN DOTS-13478:\u{28CD}\n\
BRAILLE PATTERN DOTS-23478:\u{28CE}\n\
BRAILLE PATTERN DOTS-123478:\u{28CF}\n\
BRAILLE PATTERN DOTS-578:\u{28D0}\n\
BRAILLE PATTERN DOTS-1578:\u{28D1}\n\
BRAILLE PATTERN DOTS-2578:\u{28D2}\n\
BRAILLE PATTERN DOTS-12578:\u{28D3}\n\
BRAILLE PATTERN DOTS-3578:\u{28D4}\n\
BRAILLE PATTERN DOTS-13578:\u{28D5}\n\
BRAILLE PATTERN DOTS-23578:\u{28D6}\n\
BRAILLE PATTERN DOTS-123578:\u{28D7}\n\
BRAILLE PATTERN DOTS-4578:\u{28D8}\n\
BRAILLE PATTERN DOTS-14578:\u{28D9}\n\
BRAILLE PATTERN DOTS-24578:\u{28DA}\n\
BRAILLE PATTERN DOTS-124578:\u{28DB}\n\
BRAILLE PATTERN DOTS-34578:\u{28DC}\n\
BRAILLE PATTERN DOTS-134578:\u{28DD}\n\
BRAILLE PATTERN DOTS-234578:\u{28DE}\n\
BRAILLE PATTERN DOTS-1234578:\u{28DF}\n\
BRAILLE PATTERN DOTS-678:\u{28E0}\n\
BRAILLE PATTERN DOTS-1678:\u{28E1}\n\
BRAILLE PATTERN DOTS-2678:\u{28E2}\n\
BRAILLE PATTERN DOTS-12678:\u{28E3}\n\
BRAILLE PATTERN DOTS-3678:\u{28E4}\n\
BRAILLE PATTERN DOTS-13678:\u{28E5}\n\
BRAILLE PATTERN DOTS-23678:\u{28E6}\n\
BRAILLE PATTERN DOTS-123678:\u{28E7}\n\
BRAILLE PATTERN DOTS-4678:\u{28E8}\n\
BRAILLE PATTERN DOTS-14678:\u{28E9}\n\
BRAILLE PATTERN DOTS-24678:\u{28EA}\n\
BRAILLE PATTERN DOTS-124678:\u{28EB}\n\
BRAILLE PATTERN DOTS-34678:\u{28EC}\n\
BRAILLE PATTERN DOTS-134678:\u{28ED}\n\
BRAILLE PATTERN DOTS-234678:\u{28EE}\n\
BRAILLE PATTERN DOTS-1234678:\u{28EF}\n\
BRAILLE PATTERN DOTS-5678:\u{28F0}\n\
BRAILLE PATTERN DOTS-15678:\u{28F1}\n\
BRAILLE PATTERN DOTS-25678:\u{28F2}\n\
BRAILLE PATTERN DOTS-125678:\u{28F3}\n\
BRAILLE PATTERN DOTS-35678:\u{28F4}\n\
BRAILLE PATTERN DOTS-135678:\u{28F5}\n\
BRAILLE PATTERN DOTS-235678:\u{28F6}\n\
BRAILLE PATTERN DOTS-1235678:\u{28F7}\n\
BRAILLE PATTERN DOTS-45678:\u{28F8}\n\
BRAILLE PATTERN DOTS-145678:\u{28F9}\n\
BRAILLE PATTERN DOTS-245678:\u{28FA}\n\
BRAILLE PATTERN DOTS-1245678:\u{28FB}\n\
BRAILLE PATTERN DOTS-345678:\u{28FC}\n\
BRAILLE PATTERN DOTS-1345678:\u{28FD}\n\
BRAILLE PATTERN DOTS-2345678:\u{28FE}\n\
BRAILLE PATTERN DOTS-12345678:\u{28FF}\n\
RIGHTWARDS TWO-HEADED ARROW WITH VERTICAL STROKE:\u{2900}\n\
RIGHTWARDS TWO-HEADED ARROW WITH DOUBLE VERTICAL STROKE:\u{2901}\n\
LEFTWARDS DOUBLE ARROW WITH VERTICAL STROKE:\u{2902}\n\
RIGHTWARDS DOUBLE ARROW WITH VERTICAL STROKE:\u{2903}\n\
LEFT RIGHT DOUBLE ARROW WITH VERTICAL STROKE:\u{2904}\n\
RIGHTWARDS TWO-HEADED ARROW FROM BAR:\u{2905}\n\
LEFTWARDS DOUBLE ARROW FROM BAR:\u{2906}\n\
RIGHTWARDS DOUBLE ARROW FROM BAR:\u{2907}\n\
DOWNWARDS ARROW WITH HORIZONTAL STROKE:\u{2908}\n\
UPWARDS ARROW WITH HORIZONTAL STROKE:\u{2909}\n\
UPWARDS TRIPLE ARROW:\u{290A}\n\
DOWNWARDS TRIPLE ARROW:\u{290B}\n\
LEFTWARDS DOUBLE DASH ARROW:\u{290C}\n\
RIGHTWARDS DOUBLE DASH ARROW:\u{290D}\n\
LEFTWARDS TRIPLE DASH ARROW:\u{290E}\n\
RIGHTWARDS TRIPLE DASH ARROW:\u{290F}\n\
RIGHTWARDS TWO-HEADED TRIPLE DASH ARROW:\u{2910}\n\
RIGHTWARDS ARROW WITH DOTTED STEM:\u{2911}\n\
UPWARDS ARROW TO BAR:\u{2912}\n\
DOWNWARDS ARROW TO BAR:\u{2913}\n\
RIGHTWARDS ARROW WITH TAIL WITH VERTICAL STROKE:\u{2914}\n\
RIGHTWARDS ARROW WITH TAIL WITH DOUBLE VERTICAL STROKE:\u{2915}\n\
RIGHTWARDS TWO-HEADED ARROW WITH TAIL:\u{2916}\n\
RIGHTWARDS TWO-HEADED ARROW WITH TAIL WITH VERTICAL STROKE:\u{2917}\n\
RIGHTWARDS TWO-HEADED ARROW WITH TAIL WITH DOUBLE VERTICAL STROKE:\u{2918}\n\
LEFTWARDS ARROW-TAIL:\u{2919}\n\
RIGHTWARDS ARROW-TAIL:\u{291A}\n\
LEFTWARDS DOUBLE ARROW-TAIL:\u{291B}\n\
RIGHTWARDS DOUBLE ARROW-TAIL:\u{291C}\n\
LEFTWARDS ARROW TO BLACK DIAMOND:\u{291D}\n\
RIGHTWARDS ARROW TO BLACK DIAMOND:\u{291E}\n\
LEFTWARDS ARROW FROM BAR TO BLACK DIAMOND:\u{291F}\n\
RIGHTWARDS ARROW FROM BAR TO BLACK DIAMOND:\u{2920}\n\
NORTH WEST AND SOUTH EAST ARROW:\u{2921}\n\
NORTH EAST AND SOUTH WEST ARROW:\u{2922}\n\
NORTH WEST ARROW WITH HOOK:\u{2923}\n\
NORTH EAST ARROW WITH HOOK:\u{2924}\n\
SOUTH EAST ARROW WITH HOOK:\u{2925}\n\
SOUTH WEST ARROW WITH HOOK:\u{2926}\n\
NORTH WEST ARROW AND NORTH EAST ARROW:\u{2927}\n\
NORTH EAST ARROW AND SOUTH EAST ARROW:\u{2928}\n\
SOUTH EAST ARROW AND SOUTH WEST ARROW:\u{2929}\n\
SOUTH WEST ARROW AND NORTH WEST ARROW:\u{292A}\n\
RISING DIAGONAL CROSSING FALLING DIAGONAL:\u{292B}\n\
FALLING DIAGONAL CROSSING RISING DIAGONAL:\u{292C}\n\
SOUTH EAST ARROW CROSSING NORTH EAST ARROW:\u{292D}\n\
NORTH EAST ARROW CROSSING SOUTH EAST ARROW:\u{292E}\n\
FALLING DIAGONAL CROSSING NORTH EAST ARROW:\u{292F}\n\
RISING DIAGONAL CROSSING SOUTH EAST ARROW:\u{2930}\n\
NORTH EAST ARROW CROSSING NORTH WEST ARROW:\u{2931}\n\
NORTH WEST ARROW CROSSING NORTH EAST ARROW:\u{2932}\n\
WAVE ARROW POINTING DIRECTLY RIGHT:\u{2933}\n\
ARROW POINTING RIGHTWARDS THEN CURVING UPWARDS:\u{2934}\n\
ARROW POINTING RIGHTWARDS THEN CURVING DOWNWARDS:\u{2935}\n\
ARROW POINTING DOWNWARDS THEN CURVING LEFTWARDS:\u{2936}\n\
ARROW POINTING DOWNWARDS THEN CURVING RIGHTWARDS:\u{2937}\n\
RIGHT-SIDE ARC CLOCKWISE ARROW:\u{2938}\n\
LEFT-SIDE ARC ANTICLOCKWISE ARROW:\u{2939}\n\
TOP ARC ANTICLOCKWISE ARROW:\u{293A}\n\
BOTTOM ARC ANTICLOCKWISE ARROW:\u{293B}\n\
TOP ARC CLOCKWISE ARROW WITH MINUS:\u{293C}\n\
TOP ARC ANTICLOCKWISE ARROW WITH PLUS:\u{293D}\n\
LOWER RIGHT SEMICIRCULAR CLOCKWISE ARROW:\u{293E}\n\
LOWER LEFT SEMICIRCULAR ANTICLOCKWISE ARROW:\u{293F}\n\
ANTICLOCKWISE CLOSED CIRCLE ARROW:\u{2940}\n\
CLOCKWISE CLOSED CIRCLE ARROW:\u{2941}\n\
RIGHTWARDS ARROW ABOVE SHORT LEFTWARDS ARROW:\u{2942}\n\
LEFTWARDS ARROW ABOVE SHORT RIGHTWARDS ARROW:\u{2943}\n\
SHORT RIGHTWARDS ARROW ABOVE LEFTWARDS ARROW:\u{2944}\n\
RIGHTWARDS ARROW WITH PLUS BELOW:\u{2945}\n\
LEFTWARDS ARROW WITH PLUS BELOW:\u{2946}\n\
RIGHTWARDS ARROW THROUGH X:\u{2947}\n\
LEFT RIGHT ARROW THROUGH SMALL CIRCLE:\u{2948}\n\
UPWARDS TWO-HEADED ARROW FROM SMALL CIRCLE:\u{2949}\n\
LEFT BARB UP RIGHT BARB DOWN HARPOON:\u{294A}\n\
LEFT BARB DOWN RIGHT BARB UP HARPOON:\u{294B}\n\
UP BARB RIGHT DOWN BARB LEFT HARPOON:\u{294C}\n\
UP BARB LEFT DOWN BARB RIGHT HARPOON:\u{294D}\n\
LEFT BARB UP RIGHT BARB UP HARPOON:\u{294E}\n\
UP BARB RIGHT DOWN BARB RIGHT HARPOON:\u{294F}\n\
LEFT BARB DOWN RIGHT BARB DOWN HARPOON:\u{2950}\n\
UP BARB LEFT DOWN BARB LEFT HARPOON:\u{2951}\n\
LEFTWARDS HARPOON WITH BARB UP TO BAR:\u{2952}\n\
RIGHTWARDS HARPOON WITH BARB UP TO BAR:\u{2953}\n\
UPWARDS HARPOON WITH BARB RIGHT TO BAR:\u{2954}\n\
DOWNWARDS HARPOON WITH BARB RIGHT TO BAR:\u{2955}\n\
LEFTWARDS HARPOON WITH BARB DOWN TO BAR:\u{2956}\n\
RIGHTWARDS HARPOON WITH BARB DOWN TO BAR:\u{2957}\n\
UPWARDS HARPOON WITH BARB LEFT TO BAR:\u{2958}\n\
DOWNWARDS HARPOON WITH BARB LEFT TO BAR:\u{2959}\n\
LEFTWARDS HARPOON WITH BARB UP FROM BAR:\u{295A}\n\
RIGHTWARDS HARPOON WITH BARB UP FROM BAR:\u{295B}\n\
UPWARDS HARPOON WITH BARB RIGHT FROM BAR:\u{295C}\n\
DOWNWARDS HARPOON WITH BARB RIGHT FROM BAR:\u{295D}\n\
LEFTWARDS HARPOON WITH BARB DOWN FROM BAR:\u{295E}\n\
RIGHTWARDS HARPOON WITH BARB DOWN FROM BAR:\u{295F}\n\
UPWARDS HARPOON WITH BARB LEFT FROM BAR:\u{2960}\n\
DOWNWARDS HARPOON WITH BARB LEFT FROM BAR:\u{2961}\n\
LEFTWARDS HARPOON WITH BARB UP ABOVE LEFTWARDS HARPOON WITH BARB DOWN:\u{2962}\n\
UPWARDS HARPOON WITH BARB LEFT BESIDE UPWARDS HARPOON WITH BARB RIGHT:\u{2963}\n\
RIGHTWARDS HARPOON WITH BARB UP ABOVE RIGHTWARDS HARPOON WITH BARB DOWN:\u{2964}\n\
DOWNWARDS HARPOON WITH BARB LEFT BESIDE DOWNWARDS HARPOON WITH BARB RIGHT:\u{2965}\n\
LEFTWARDS HARPOON WITH BARB UP ABOVE RIGHTWARDS HARPOON WITH BARB UP:\u{2966}\n\
LEFTWARDS HARPOON WITH BARB DOWN ABOVE RIGHTWARDS HARPOON WITH BARB DOWN:\u{2967}\n\
RIGHTWARDS HARPOON WITH BARB UP ABOVE LEFTWARDS HARPOON WITH BARB UP:\u{2968}\n\
RIGHTWARDS HARPOON WITH BARB DOWN ABOVE LEFTWARDS HARPOON WITH BARB DOWN:\u{2969}\n\
LEFTWARDS HARPOON WITH BARB UP ABOVE LONG DASH:\u{296A}\n\
LEFTWARDS HARPOON WITH BARB DOWN BELOW LONG DASH:\u{296B}\n\
RIGHTWARDS HARPOON WITH BARB UP ABOVE LONG DASH:\u{296C}\n\
RIGHTWARDS HARPOON WITH BARB DOWN BELOW LONG DASH:\u{296D}\n\
UPWARDS HARPOON WITH BARB LEFT BESIDE DOWNWARDS HARPOON WITH BARB RIGHT:\u{296E}\n\
DOWNWARDS HARPOON WITH BARB LEFT BESIDE UPWARDS HARPOON WITH BARB RIGHT:\u{296F}\n\
RIGHT DOUBLE ARROW WITH ROUNDED HEAD:\u{2970}\n\
EQUALS SIGN ABOVE RIGHTWARDS ARROW:\u{2971}\n\
TILDE OPERATOR ABOVE RIGHTWARDS ARROW:\u{2972}\n\
LEFTWARDS ARROW ABOVE TILDE OPERATOR:\u{2973}\n\
RIGHTWARDS ARROW ABOVE TILDE OPERATOR:\u{2974}\n\
RIGHTWARDS ARROW ABOVE ALMOST EQUAL TO:\u{2975}\n\
LESS-THAN ABOVE LEFTWARDS ARROW:\u{2976}\n\
LEFTWARDS ARROW THROUGH LESS-THAN:\u{2977}\n\
GREATER-THAN ABOVE RIGHTWARDS ARROW:\u{2978}\n\
SUBSET ABOVE RIGHTWARDS ARROW:\u{2979}\n\
LEFTWARDS ARROW THROUGH SUBSET:\u{297A}\n\
SUPERSET ABOVE LEFTWARDS ARROW:\u{297B}\n\
LEFT FISH TAIL:\u{297C}\n\
RIGHT FISH TAIL:\u{297D}\n\
UP FISH TAIL:\u{297E}\n\
DOWN FISH TAIL:\u{297F}\n\
TRIPLE VERTICAL BAR DELIMITER:\u{2980}\n\
Z NOTATION SPOT:\u{2981}\n\
Z NOTATION TYPE COLON:\u{2982}\n\
LEFT WHITE CURLY BRACKET:\u{2983}\n\
RIGHT WHITE CURLY BRACKET:\u{2984}\n\
LEFT WHITE PARENTHESIS:\u{2985}\n\
RIGHT WHITE PARENTHESIS:\u{2986}\n\
Z NOTATION LEFT IMAGE BRACKET:\u{2987}\n\
Z NOTATION RIGHT IMAGE BRACKET:\u{2988}\n\
Z NOTATION LEFT BINDING BRACKET:\u{2989}\n\
Z NOTATION RIGHT BINDING BRACKET:\u{298A}\n\
LEFT SQUARE BRACKET WITH UNDERBAR:\u{298B}\n\
RIGHT SQUARE BRACKET WITH UNDERBAR:\u{298C}\n\
LEFT SQUARE BRACKET WITH TICK IN TOP CORNER:\u{298D}\n\
RIGHT SQUARE BRACKET WITH TICK IN BOTTOM CORNER:\u{298E}\n\
LEFT SQUARE BRACKET WITH TICK IN BOTTOM CORNER:\u{298F}\n\
RIGHT SQUARE BRACKET WITH TICK IN TOP CORNER:\u{2990}\n\
LEFT ANGLE BRACKET WITH DOT:\u{2991}\n\
RIGHT ANGLE BRACKET WITH DOT:\u{2992}\n\
LEFT ARC LESS-THAN BRACKET:\u{2993}\n\
RIGHT ARC GREATER-THAN BRACKET:\u{2994}\n\
DOUBLE LEFT ARC GREATER-THAN BRACKET:\u{2995}\n\
DOUBLE RIGHT ARC LESS-THAN BRACKET:\u{2996}\n\
LEFT BLACK TORTOISE SHELL BRACKET:\u{2997}\n\
RIGHT BLACK TORTOISE SHELL BRACKET:\u{2998}\n\
DOTTED FENCE:\u{2999}\n\
VERTICAL ZIGZAG LINE:\u{299A}\n\
MEASURED ANGLE OPENING LEFT:\u{299B}\n\
RIGHT ANGLE VARIANT WITH SQUARE:\u{299C}\n\
MEASURED RIGHT ANGLE WITH DOT:\u{299D}\n\
ANGLE WITH S INSIDE:\u{299E}\n\
ACUTE ANGLE:\u{299F}\n\
SPHERICAL ANGLE OPENING LEFT:\u{29A0}\n\
SPHERICAL ANGLE OPENING UP:\u{29A1}\n\
TURNED ANGLE:\u{29A2}\n\
REVERSED ANGLE:\u{29A3}\n\
ANGLE WITH UNDERBAR:\u{29A4}\n\
REVERSED ANGLE WITH UNDERBAR:\u{29A5}\n\
OBLIQUE ANGLE OPENING UP:\u{29A6}\n\
OBLIQUE ANGLE OPENING DOWN:\u{29A7}\n\
MEASURED ANGLE WITH OPEN ARM ENDING IN ARROW POINTING UP AND RIGHT:\u{29A8}\n\
MEASURED ANGLE WITH OPEN ARM ENDING IN ARROW POINTING UP AND LEFT:\u{29A9}\n\
MEASURED ANGLE WITH OPEN ARM ENDING IN ARROW POINTING DOWN AND RIGHT:\u{29AA}\n\
MEASURED ANGLE WITH OPEN ARM ENDING IN ARROW POINTING DOWN AND LEFT:\u{29AB}\n\
MEASURED ANGLE WITH OPEN ARM ENDING IN ARROW POINTING RIGHT AND UP:\u{29AC}\n\
MEASURED ANGLE WITH OPEN ARM ENDING IN ARROW POINTING LEFT AND UP:\u{29AD}\n\
MEASURED ANGLE WITH OPEN ARM ENDING IN ARROW POINTING RIGHT AND DOWN:\u{29AE}\n\
MEASURED ANGLE WITH OPEN ARM ENDING IN ARROW POINTING LEFT AND DOWN:\u{29AF}\n\
REVERSED EMPTY SET:\u{29B0}\n\
EMPTY SET WITH OVERBAR:\u{29B1}\n\
EMPTY SET WITH SMALL CIRCLE ABOVE:\u{29B2}\n\
EMPTY SET WITH RIGHT ARROW ABOVE:\u{29B3}\n\
EMPTY SET WITH LEFT ARROW ABOVE:\u{29B4}\n\
CIRCLE WITH HORIZONTAL BAR:\u{29B5}\n\
CIRCLED VERTICAL BAR:\u{29B6}\n\
CIRCLED PARALLEL:\u{29B7}\n\
CIRCLED REVERSE SOLIDUS:\u{29B8}\n\
CIRCLED PERPENDICULAR:\u{29B9}\n\
CIRCLE DIVIDED BY HORIZONTAL BAR AND TOP HALF DIVIDED BY VERTICAL BAR:\u{29BA}\n\
CIRCLE WITH SUPERIMPOSED X:\u{29BB}\n\
CIRCLED ANTICLOCKWISE-ROTATED DIVISION SIGN:\u{29BC}\n\
UP ARROW THROUGH CIRCLE:\u{29BD}\n\
CIRCLED WHITE BULLET:\u{29BE}\n";

pub const NAMES_25: &'static str = "CIRCLED BULLET:\u{29BF}\n\
CIRCLED LESS-THAN:\u{29C0}\n\
CIRCLED GREATER-THAN:\u{29C1}\n\
CIRCLE WITH SMALL CIRCLE TO THE RIGHT:\u{29C2}\n\
CIRCLE WITH TWO HORIZONTAL STROKES TO THE RIGHT:\u{29C3}\n\
SQUARED RISING DIAGONAL SLASH:\u{29C4}\n\
SQUARED FALLING DIAGONAL SLASH:\u{29C5}\n\
SQUARED ASTERISK:\u{29C6}\n\
SQUARED SMALL CIRCLE:\u{29C7}\n\
SQUARED SQUARE:\u{29C8}\n\
TWO JOINED SQUARES:\u{29C9}\n\
TRIANGLE WITH DOT ABOVE:\u{29CA}\n\
TRIANGLE WITH UNDERBAR:\u{29CB}\n\
S IN TRIANGLE:\u{29CC}\n\
TRIANGLE WITH SERIFS AT BOTTOM:\u{29CD}\n\
RIGHT TRIANGLE ABOVE LEFT TRIANGLE:\u{29CE}\n\
LEFT TRIANGLE BESIDE VERTICAL BAR:\u{29CF}\n\
VERTICAL BAR BESIDE RIGHT TRIANGLE:\u{29D0}\n\
BOWTIE WITH LEFT HALF BLACK:\u{29D1}\n\
BOWTIE WITH RIGHT HALF BLACK:\u{29D2}\n\
BLACK BOWTIE:\u{29D3}\n\
TIMES WITH LEFT HALF BLACK:\u{29D4}\n\
TIMES WITH RIGHT HALF BLACK:\u{29D5}\n\
WHITE HOURGLASS:\u{29D6}\n\
BLACK HOURGLASS:\u{29D7}\n\
LEFT WIGGLY FENCE:\u{29D8}\n\
RIGHT WIGGLY FENCE:\u{29D9}\n\
LEFT DOUBLE WIGGLY FENCE:\u{29DA}\n\
RIGHT DOUBLE WIGGLY FENCE:\u{29DB}\n\
INCOMPLETE INFINITY:\u{29DC}\n\
TIE OVER INFINITY:\u{29DD}\n\
INFINITY NEGATED WITH VERTICAL BAR:\u{29DE}\n\
DOUBLE-ENDED MULTIMAP:\u{29DF}\n\
SQUARE WITH CONTOURED OUTLINE:\u{29E0}\n\
INCREASES AS:\u{29E1}\n\
SHUFFLE PRODUCT:\u{29E2}\n\
EQUALS SIGN AND SLANTED PARALLEL:\u{29E3}\n\
EQUALS SIGN AND SLANTED PARALLEL WITH TILDE ABOVE:\u{29E4}\n\
IDENTICAL TO AND SLANTED PARALLEL:\u{29E5}\n\
GLEICH STARK:\u{29E6}\n\
THERMODYNAMIC:\u{29E7}\n\
DOWN-POINTING TRIANGLE WITH LEFT HALF BLACK:\u{29E8}\n\
DOWN-POINTING TRIANGLE WITH RIGHT HALF BLACK:\u{29E9}\n\
BLACK DIAMOND WITH DOWN ARROW:\u{29EA}\n\
BLACK LOZENGE:\u{29EB}\n\
WHITE CIRCLE WITH DOWN ARROW:\u{29EC}\n\
BLACK CIRCLE WITH DOWN ARROW:\u{29ED}\n\
ERROR-BARRED WHITE SQUARE:\u{29EE}\n\
ERROR-BARRED BLACK SQUARE:\u{29EF}\n\
ERROR-BARRED WHITE DIAMOND:\u{29F0}\n\
ERROR-BARRED BLACK DIAMOND:\u{29F1}\n\
ERROR-BARRED WHITE CIRCLE:\u{29F2}\n\
ERROR-BARRED BLACK CIRCLE:\u{29F3}\n\
RULE-DELAYED:\u{29F4}\n\
REVERSE SOLIDUS OPERATOR:\u{29F5}\n\
SOLIDUS WITH OVERBAR:\u{29F6}\n\
REVERSE SOLIDUS WITH HORIZONTAL STROKE:\u{29F7}\n\
BIG SOLIDUS:\u{29F8}\n\
BIG REVERSE SOLIDUS:\u{29F9}\n\
DOUBLE PLUS:\u{29FA}\n\
TRIPLE PLUS:\u{29FB}\n\
LEFT-POINTING CURVED ANGLE BRACKET:\u{29FC}\n\
RIGHT-POINTING CURVED ANGLE BRACKET:\u{29FD}\n\
TINY:\u{29FE}\n\
MINY:\u{29FF}\n\
N-ARY CIRCLED DOT OPERATOR:\u{2A00}\n\
N-ARY CIRCLED PLUS OPERATOR:\u{2A01}\n\
N-ARY CIRCLED TIMES OPERATOR:\u{2A02}\n\
N-ARY UNION OPERATOR WITH DOT:\u{2A03}\n\
N-ARY UNION OPERATOR WITH PLUS:\u{2A04}\n\
N-ARY SQUARE INTERSECTION OPERATOR:\u{2A05}\n\
N-ARY SQUARE UNION OPERATOR:\u{2A06}\n\
TWO LOGICAL AND OPERATOR:\u{2A07}\n\
TWO LOGICAL OR OPERATOR:\u{2A08}\n\
N-ARY TIMES OPERATOR:\u{2A09}\n\
MODULO TWO SUM:\u{2A0A}\n\
SUMMATION WITH INTEGRAL:\u{2A0B}\n\
QUADRUPLE INTEGRAL OPERATOR:\u{2A0C}\n\
FINITE PART INTEGRAL:\u{2A0D}\n\
INTEGRAL WITH DOUBLE STROKE:\u{2A0E}\n\
INTEGRAL AVERAGE WITH SLASH:\u{2A0F}\n\
CIRCULATION FUNCTION:\u{2A10}\n\
ANTICLOCKWISE INTEGRATION:\u{2A11}\n\
LINE INTEGRATION WITH RECTANGULAR PATH AROUND POLE:\u{2A12}\n\
LINE INTEGRATION WITH SEMICIRCULAR PATH AROUND POLE:\u{2A13}\n\
LINE INTEGRATION NOT INCLUDING THE POLE:\u{2A14}\n\
INTEGRAL AROUND A POINT OPERATOR:\u{2A15}\n\
QUATERNION INTEGRAL OPERATOR:\u{2A16}\n\
INTEGRAL WITH LEFTWARDS ARROW WITH HOOK:\u{2A17}\n\
INTEGRAL WITH TIMES SIGN:\u{2A18}\n\
INTEGRAL WITH INTERSECTION:\u{2A19}\n\
INTEGRAL WITH UNION:\u{2A1A}\n\
INTEGRAL WITH OVERBAR:\u{2A1B}\n\
INTEGRAL WITH UNDERBAR:\u{2A1C}\n\
JOIN:\u{2A1D}\n\
LARGE LEFT TRIANGLE OPERATOR:\u{2A1E}\n\
Z NOTATION SCHEMA COMPOSITION:\u{2A1F}\n\
Z NOTATION SCHEMA PIPING:\u{2A20}\n\
Z NOTATION SCHEMA PROJECTION:\u{2A21}\n\
PLUS SIGN WITH SMALL CIRCLE ABOVE:\u{2A22}\n\
PLUS SIGN WITH CIRCUMFLEX ACCENT ABOVE:\u{2A23}\n\
PLUS SIGN WITH TILDE ABOVE:\u{2A24}\n\
PLUS SIGN WITH DOT BELOW:\u{2A25}\n\
PLUS SIGN WITH TILDE BELOW:\u{2A26}\n\
PLUS SIGN WITH SUBSCRIPT TWO:\u{2A27}\n\
PLUS SIGN WITH BLACK TRIANGLE:\u{2A28}\n\
MINUS SIGN WITH COMMA ABOVE:\u{2A29}\n\
MINUS SIGN WITH DOT BELOW:\u{2A2A}\n\
MINUS SIGN WITH FALLING DOTS:\u{2A2B}\n\
MINUS SIGN WITH RISING DOTS:\u{2A2C}\n\
PLUS SIGN IN LEFT HALF CIRCLE:\u{2A2D}\n\
PLUS SIGN IN RIGHT HALF CIRCLE:\u{2A2E}\n\
VECTOR OR CROSS PRODUCT:\u{2A2F}\n\
MULTIPLICATION SIGN WITH DOT ABOVE:\u{2A30}\n\
MULTIPLICATION SIGN WITH UNDERBAR:\u{2A31}\n\
SEMIDIRECT PRODUCT WITH BOTTOM CLOSED:\u{2A32}\n\
SMASH PRODUCT:\u{2A33}\n\
MULTIPLICATION SIGN IN LEFT HALF CIRCLE:\u{2A34}\n\
MULTIPLICATION SIGN IN RIGHT HALF CIRCLE:\u{2A35}\n\
CIRCLED MULTIPLICATION SIGN WITH CIRCUMFLEX ACCENT:\u{2A36}\n\
MULTIPLICATION SIGN IN DOUBLE CIRCLE:\u{2A37}\n\
CIRCLED DIVISION SIGN:\u{2A38}\n\
PLUS SIGN IN TRIANGLE:\u{2A39}\n\
MINUS SIGN IN TRIANGLE:\u{2A3A}\n\
MULTIPLICATION SIGN IN TRIANGLE:\u{2A3B}\n\
INTERIOR PRODUCT:\u{2A3C}\n\
RIGHTHAND INTERIOR PRODUCT:\u{2A3D}\n\
Z NOTATION RELATIONAL COMPOSITION:\u{2A3E}\n\
AMALGAMATION OR COPRODUCT:\u{2A3F}\n\
INTERSECTION WITH DOT:\u{2A40}\n\
UNION WITH MINUS SIGN:\u{2A41}\n\
UNION WITH OVERBAR:\u{2A42}\n\
INTERSECTION WITH OVERBAR:\u{2A43}\n\
INTERSECTION WITH LOGICAL AND:\u{2A44}\n\
UNION WITH LOGICAL OR:\u{2A45}\n\
UNION ABOVE INTERSECTION:\u{2A46}\n\
INTERSECTION ABOVE UNION:\u{2A47}\n\
UNION ABOVE BAR ABOVE INTERSECTION:\u{2A48}\n\
INTERSECTION ABOVE BAR ABOVE UNION:\u{2A49}\n\
UNION BESIDE AND JOINED WITH UNION:\u{2A4A}\n\
INTERSECTION BESIDE AND JOINED WITH INTERSECTION:\u{2A4B}\n\
CLOSED UNION WITH SERIFS:\u{2A4C}\n\
CLOSED INTERSECTION WITH SERIFS:\u{2A4D}\n\
DOUBLE SQUARE INTERSECTION:\u{2A4E}\n\
DOUBLE SQUARE UNION:\u{2A4F}\n\
CLOSED UNION WITH SERIFS AND SMASH PRODUCT:\u{2A50}\n\
LOGICAL AND WITH DOT ABOVE:\u{2A51}\n\
LOGICAL OR WITH DOT ABOVE:\u{2A52}\n\
DOUBLE LOGICAL AND:\u{2A53}\n\
DOUBLE LOGICAL OR:\u{2A54}\n\
TWO INTERSECTING LOGICAL AND:\u{2A55}\n\
TWO INTERSECTING LOGICAL OR:\u{2A56}\n\
SLOPING LARGE OR:\u{2A57}\n\
SLOPING LARGE AND:\u{2A58}\n\
LOGICAL OR OVERLAPPING LOGICAL AND:\u{2A59}\n\
LOGICAL AND WITH MIDDLE STEM:\u{2A5A}\n\
LOGICAL OR WITH MIDDLE STEM:\u{2A5B}\n\
LOGICAL AND WITH HORIZONTAL DASH:\u{2A5C}\n\
LOGICAL OR WITH HORIZONTAL DASH:\u{2A5D}\n\
LOGICAL AND WITH DOUBLE OVERBAR:\u{2A5E}\n\
LOGICAL AND WITH UNDERBAR:\u{2A5F}\n\
LOGICAL AND WITH DOUBLE UNDERBAR:\u{2A60}\n\
SMALL VEE WITH UNDERBAR:\u{2A61}\n\
LOGICAL OR WITH DOUBLE OVERBAR:\u{2A62}\n\
LOGICAL OR WITH DOUBLE UNDERBAR:\u{2A63}\n\
Z NOTATION DOMAIN ANTIRESTRICTION:\u{2A64}\n\
Z NOTATION RANGE ANTIRESTRICTION:\u{2A65}\n\
EQUALS SIGN WITH DOT BELOW:\u{2A66}\n\
IDENTICAL WITH DOT ABOVE:\u{2A67}\n\
TRIPLE HORIZONTAL BAR WITH DOUBLE VERTICAL STROKE:\u{2A68}\n\
TRIPLE HORIZONTAL BAR WITH TRIPLE VERTICAL STROKE:\u{2A69}\n\
TILDE OPERATOR WITH DOT ABOVE:\u{2A6A}\n\
TILDE OPERATOR WITH RISING DOTS:\u{2A6B}\n\
SIMILAR MINUS SIMILAR:\u{2A6C}\n\
CONGRUENT WITH DOT ABOVE:\u{2A6D}\n\
EQUALS WITH ASTERISK:\u{2A6E}\n\
ALMOST EQUAL TO WITH CIRCUMFLEX ACCENT:\u{2A6F}\n\
APPROXIMATELY EQUAL OR EQUAL TO:\u{2A70}\n\
EQUALS SIGN ABOVE PLUS SIGN:\u{2A71}\n\
PLUS SIGN ABOVE EQUALS SIGN:\u{2A72}\n\
EQUALS SIGN ABOVE TILDE OPERATOR:\u{2A73}\n\
DOUBLE COLON EQUAL:\u{2A74}\n\
TWO CONSECUTIVE EQUALS SIGNS:\u{2A75}\n\
THREE CONSECUTIVE EQUALS SIGNS:\u{2A76}\n\
EQUALS SIGN WITH TWO DOTS ABOVE AND TWO DOTS BELOW:\u{2A77}\n\
EQUIVALENT WITH FOUR DOTS ABOVE:\u{2A78}\n\
LESS-THAN WITH CIRCLE INSIDE:\u{2A79}\n\
GREATER-THAN WITH CIRCLE INSIDE:\u{2A7A}\n\
LESS-THAN WITH QUESTION MARK ABOVE:\u{2A7B}\n\
GREATER-THAN WITH QUESTION MARK ABOVE:\u{2A7C}\n\
LESS-THAN OR SLANTED EQUAL TO:\u{2A7D}\n\
GREATER-THAN OR SLANTED EQUAL TO:\u{2A7E}\n\
LESS-THAN OR SLANTED EQUAL TO WITH DOT INSIDE:\u{2A7F}\n\
GREATER-THAN OR SLANTED EQUAL TO WITH DOT INSIDE:\u{2A80}\n\
LESS-THAN OR SLANTED EQUAL TO WITH DOT ABOVE:\u{2A81}\n\
GREATER-THAN OR SLANTED EQUAL TO WITH DOT ABOVE:\u{2A82}\n\
LESS-THAN OR SLANTED EQUAL TO WITH DOT ABOVE RIGHT:\u{2A83}\n\
GREATER-THAN OR SLANTED EQUAL TO WITH DOT ABOVE LEFT:\u{2A84}\n\
LESS-THAN OR APPROXIMATE:\u{2A85}\n\
GREATER-THAN OR APPROXIMATE:\u{2A86}\n\
LESS-THAN AND SINGLE-LINE NOT EQUAL TO:\u{2A87}\n\
GREATER-THAN AND SINGLE-LINE NOT EQUAL TO:\u{2A88}\n\
LESS-THAN AND NOT APPROXIMATE:\u{2A89}\n\
GREATER-THAN AND NOT APPROXIMATE:\u{2A8A}\n\
LESS-THAN ABOVE DOUBLE-LINE EQUAL ABOVE GREATER-THAN:\u{2A8B}\n\
GREATER-THAN ABOVE DOUBLE-LINE EQUAL ABOVE LESS-THAN:\u{2A8C}\n\
LESS-THAN ABOVE SIMILAR OR EQUAL:\u{2A8D}\n\
GREATER-THAN ABOVE SIMILAR OR EQUAL:\u{2A8E}\n\
LESS-THAN ABOVE SIMILAR ABOVE GREATER-THAN:\u{2A8F}\n\
GREATER-THAN ABOVE SIMILAR ABOVE LESS-THAN:\u{2A90}\n\
LESS-THAN ABOVE GREATER-THAN ABOVE DOUBLE-LINE EQUAL:\u{2A91}\n\
GREATER-THAN ABOVE LESS-THAN ABOVE DOUBLE-LINE EQUAL:\u{2A92}\n\
LESS-THAN ABOVE SLANTED EQUAL ABOVE GREATER-THAN ABOVE SLANTED EQUAL:\u{2A93}\n\
GREATER-THAN ABOVE SLANTED EQUAL ABOVE LESS-THAN ABOVE SLANTED EQUAL:\u{2A94}\n\
SLANTED EQUAL TO OR LESS-THAN:\u{2A95}\n\
SLANTED EQUAL TO OR GREATER-THAN:\u{2A96}\n\
SLANTED EQUAL TO OR LESS-THAN WITH DOT INSIDE:\u{2A97}\n\
SLANTED EQUAL TO OR GREATER-THAN WITH DOT INSIDE:\u{2A98}\n\
DOUBLE-LINE EQUAL TO OR LESS-THAN:\u{2A99}\n\
DOUBLE-LINE EQUAL TO OR GREATER-THAN:\u{2A9A}\n\
DOUBLE-LINE SLANTED EQUAL TO OR LESS-THAN:\u{2A9B}\n\
DOUBLE-LINE SLANTED EQUAL TO OR GREATER-THAN:\u{2A9C}\n\
SIMILAR OR LESS-THAN:\u{2A9D}\n\
SIMILAR OR GREATER-THAN:\u{2A9E}\n\
SIMILAR ABOVE LESS-THAN ABOVE EQUALS SIGN:\u{2A9F}\n\
SIMILAR ABOVE GREATER-THAN ABOVE EQUALS SIGN:\u{2AA0}\n\
DOUBLE NESTED LESS-THAN:\u{2AA1}\n\
DOUBLE NESTED GREATER-THAN:\u{2AA2}\n\
DOUBLE NESTED LESS-THAN WITH UNDERBAR:\u{2AA3}\n\
GREATER-THAN OVERLAPPING LESS-THAN:\u{2AA4}\n\
GREATER-THAN BESIDE LESS-THAN:\u{2AA5}\n\
LESS-THAN CLOSED BY CURVE:\u{2AA6}\n\
GREATER-THAN CLOSED BY CURVE:\u{2AA7}\n\
LESS-THAN CLOSED BY CURVE ABOVE SLANTED EQUAL:\u{2AA8}\n\
GREATER-THAN CLOSED BY CURVE ABOVE SLANTED EQUAL:\u{2AA9}\n\
SMALLER THAN:\u{2AAA}\n\
LARGER THAN:\u{2AAB}\n\
SMALLER THAN OR EQUAL TO:\u{2AAC}\n\
LARGER THAN OR EQUAL TO:\u{2AAD}\n\
EQUALS SIGN WITH BUMPY ABOVE:\u{2AAE}\n\
PRECEDES ABOVE SINGLE-LINE EQUALS SIGN:\u{2AAF}\n\
SUCCEEDS ABOVE SINGLE-LINE EQUALS SIGN:\u{2AB0}\n\
PRECEDES ABOVE SINGLE-LINE NOT EQUAL TO:\u{2AB1}\n\
SUCCEEDS ABOVE SINGLE-LINE NOT EQUAL TO:\u{2AB2}\n\
PRECEDES ABOVE EQUALS SIGN:\u{2AB3}\n\
SUCCEEDS ABOVE EQUALS SIGN:\u{2AB4}\n\
PRECEDES ABOVE NOT EQUAL TO:\u{2AB5}\n\
SUCCEEDS ABOVE NOT EQUAL TO:\u{2AB6}\n\
PRECEDES ABOVE ALMOST EQUAL TO:\u{2AB7}\n\
SUCCEEDS ABOVE ALMOST EQUAL TO:\u{2AB8}\n\
PRECEDES ABOVE NOT ALMOST EQUAL TO:\u{2AB9}\n\
SUCCEEDS ABOVE NOT ALMOST EQUAL TO:\u{2ABA}\n\
DOUBLE PRECEDES:\u{2ABB}\n\
DOUBLE SUCCEEDS:\u{2ABC}\n\
SUBSET WITH DOT:\u{2ABD}\n\
SUPERSET WITH DOT:\u{2ABE}\n\
SUBSET WITH PLUS SIGN BELOW:\u{2ABF}\n\
SUPERSET WITH PLUS SIGN BELOW:\u{2AC0}\n\
SUBSET WITH MULTIPLICATION SIGN BELOW:\u{2AC1}\n\
SUPERSET WITH MULTIPLICATION SIGN BELOW:\u{2AC2}\n\
SUBSET OF OR EQUAL TO WITH DOT ABOVE:\u{2AC3}\n\
SUPERSET OF OR EQUAL TO WITH DOT ABOVE:\u{2AC4}\n\
SUBSET OF ABOVE EQUALS SIGN:\u{2AC5}\n\
SUPERSET OF ABOVE EQUALS SIGN:\u{2AC6}\n\
SUBSET OF ABOVE TILDE OPERATOR:\u{2AC7}\n\
SUPERSET OF ABOVE TILDE OPERATOR:\u{2AC8}\n\
SUBSET OF ABOVE ALMOST EQUAL TO:\u{2AC9}\n\
SUPERSET OF ABOVE ALMOST EQUAL TO:\u{2ACA}\n\
SUBSET OF ABOVE NOT EQUAL TO:\u{2ACB}\n\
SUPERSET OF ABOVE NOT EQUAL TO:\u{2ACC}\n\
SQUARE LEFT OPEN BOX OPERATOR:\u{2ACD}\n\
SQUARE RIGHT OPEN BOX OPERATOR:\u{2ACE}\n\
CLOSED SUBSET:\u{2ACF}\n\
CLOSED SUPERSET:\u{2AD0}\n\
CLOSED SUBSET OR EQUAL TO:\u{2AD1}\n\
CLOSED SUPERSET OR EQUAL TO:\u{2AD2}\n\
SUBSET ABOVE SUPERSET:\u{2AD3}\n\
SUPERSET ABOVE SUBSET:\u{2AD4}\n\
SUBSET ABOVE SUBSET:\u{2AD5}\n\
SUPERSET ABOVE SUPERSET:\u{2AD6}\n\
SUPERSET BESIDE SUBSET:\u{2AD7}\n\
SUPERSET BESIDE AND JOINED BY DASH WITH SUBSET:\u{2AD8}\n\
ELEMENT OF OPENING DOWNWARDS:\u{2AD9}\n\
PITCHFORK WITH TEE TOP:\u{2ADA}\n\
TRANSVERSAL INTERSECTION:\u{2ADB}\n\
FORKING:\u{2ADC}\n\
NONFORKING:\u{2ADD}\n\
SHORT LEFT TACK:\u{2ADE}\n\
SHORT DOWN TACK:\u{2ADF}\n\
SHORT UP TACK:\u{2AE0}\n\
PERPENDICULAR WITH S:\u{2AE1}\n\
VERTICAL BAR TRIPLE RIGHT TURNSTILE:\u{2AE2}\n\
DOUBLE VERTICAL BAR LEFT TURNSTILE:\u{2AE3}\n\
VERTICAL BAR DOUBLE LEFT TURNSTILE:\u{2AE4}\n\
DOUBLE VERTICAL BAR DOUBLE LEFT TURNSTILE:\u{2AE5}\n\
LONG DASH FROM LEFT MEMBER OF DOUBLE VERTICAL:\u{2AE6}\n\
SHORT DOWN TACK WITH OVERBAR:\u{2AE7}\n\
SHORT UP TACK WITH UNDERBAR:\u{2AE8}\n\
SHORT UP TACK ABOVE SHORT DOWN TACK:\u{2AE9}\n\
DOUBLE DOWN TACK:\u{2AEA}\n\
DOUBLE UP TACK:\u{2AEB}\n\
DOUBLE STROKE NOT SIGN:\u{2AEC}\n\
REVERSED DOUBLE STROKE NOT SIGN:\u{2AED}\n\
DOES NOT DIVIDE WITH REVERSED NEGATION SLASH:\u{2AEE}\n\
VERTICAL LINE WITH CIRCLE ABOVE:\u{2AEF}\n\
VERTICAL LINE WITH CIRCLE BELOW:\u{2AF0}\n\
DOWN TACK WITH CIRCLE BELOW:\u{2AF1}\n\
PARALLEL WITH HORIZONTAL STROKE:\u{2AF2}\n\
PARALLEL WITH TILDE OPERATOR:\u{2AF3}\n\
TRIPLE VERTICAL BAR BINARY RELATION:\u{2AF4}\n\
TRIPLE VERTICAL BAR WITH HORIZONTAL STROKE:\u{2AF5}\n\
TRIPLE COLON OPERATOR:\u{2AF6}\n\
TRIPLE NESTED LESS-THAN:\u{2AF7}\n\
TRIPLE NESTED GREATER-THAN:\u{2AF8}\n\
DOUBLE-LINE SLANTED LESS-THAN OR EQUAL TO:\u{2AF9}\n\
DOUBLE-LINE SLANTED GREATER-THAN OR EQUAL TO:\u{2AFA}\n\
TRIPLE SOLIDUS BINARY RELATION:\u{2AFB}\n\
LARGE TRIPLE VERTICAL BAR OPERATOR:\u{2AFC}\n\
DOUBLE SOLIDUS OPERATOR:\u{2AFD}\n\
WHITE VERTICAL BAR:\u{2AFE}\n\
N-ARY WHITE VERTICAL BAR:\u{2AFF}\n\
NORTH EAST WHITE ARROW:\u{2B00}\n\
NORTH WEST WHITE ARROW:\u{2B01}\n\
SOUTH EAST WHITE ARROW:\u{2B02}\n\
SOUTH WEST WHITE ARROW:\u{2B03}\n\
LEFT RIGHT WHITE ARROW:\u{2B04}\n\
LEFTWARDS BLACK ARROW:\u{2B05}\n\
UPWARDS BLACK ARROW:\u{2B06}\n\
DOWNWARDS BLACK ARROW:\u{2B07}\n\
NORTH EAST BLACK ARROW:\u{2B08}\n\
NORTH WEST BLACK ARROW:\u{2B09}\n\
SOUTH EAST BLACK ARROW:\u{2B0A}\n\
SOUTH WEST BLACK ARROW:\u{2B0B}\n\
LEFT RIGHT BLACK ARROW:\u{2B0C}\n\
UP DOWN BLACK ARROW:\u{2B0D}\n\
RIGHTWARDS ARROW WITH TIP DOWNWARDS:\u{2B0E}\n\
RIGHTWARDS ARROW WITH TIP UPWARDS:\u{2B0F}\n\
LEFTWARDS ARROW WITH TIP DOWNWARDS:\u{2B10}\n\
LEFTWARDS ARROW WITH TIP UPWARDS:\u{2B11}\n\
SQUARE WITH TOP HALF BLACK:\u{2B12}\n\
SQUARE WITH BOTTOM HALF BLACK:\u{2B13}\n\
SQUARE WITH UPPER RIGHT DIAGONAL HALF BLACK:\u{2B14}\n\
SQUARE WITH LOWER LEFT DIAGONAL HALF BLACK:\u{2B15}\n\
DIAMOND WITH LEFT HALF BLACK:\u{2B16}\n\
DIAMOND WITH RIGHT HALF BLACK:\u{2B17}\n\
DIAMOND WITH TOP HALF BLACK:\u{2B18}\n\
DIAMOND WITH BOTTOM HALF BLACK:\u{2B19}\n\
DOTTED SQUARE:\u{2B1A}\n\
BLACK LARGE SQUARE:\u{2B1B}\n\
WHITE LARGE SQUARE:\u{2B1C}\n\
BLACK VERY SMALL SQUARE:\u{2B1D}\n\
WHITE VERY SMALL SQUARE:\u{2B1E}\n\
BLACK PENTAGON:\u{2B1F}\n\
WHITE PENTAGON:\u{2B20}\n\
WHITE HEXAGON:\u{2B21}\n\
BLACK HEXAGON:\u{2B22}\n\
HORIZONTAL BLACK HEXAGON:\u{2B23}\n\
BLACK LARGE CIRCLE:\u{2B24}\n\
BLACK MEDIUM DIAMOND:\u{2B25}\n\
WHITE MEDIUM DIAMOND:\u{2B26}\n\
BLACK MEDIUM LOZENGE:\u{2B27}\n\
WHITE MEDIUM LOZENGE:\u{2B28}\n\
BLACK SMALL DIAMOND:\u{2B29}\n\
BLACK SMALL LOZENGE:\u{2B2A}\n\
WHITE SMALL LOZENGE:\u{2B2B}\n\
BLACK HORIZONTAL ELLIPSE:\u{2B2C}\n";

pub const NAMES_26: &'static str = "WHITE HORIZONTAL ELLIPSE:\u{2B2D}\n\
BLACK VERTICAL ELLIPSE:\u{2B2E}\n\
WHITE VERTICAL ELLIPSE:\u{2B2F}\n\
LEFT ARROW WITH SMALL CIRCLE:\u{2B30}\n\
THREE LEFTWARDS ARROWS:\u{2B31}\n\
LEFT ARROW WITH CIRCLED PLUS:\u{2B32}\n\
LONG LEFTWARDS SQUIGGLE ARROW:\u{2B33}\n\
LEFTWARDS TWO-HEADED ARROW WITH VERTICAL STROKE:\u{2B34}\n\
LEFTWARDS TWO-HEADED ARROW WITH DOUBLE VERTICAL STROKE:\u{2B35}\n\
LEFTWARDS TWO-HEADED ARROW FROM BAR:\u{2B36}\n\
LEFTWARDS TWO-HEADED TRIPLE DASH ARROW:\u{2B37}\n\
LEFTWARDS ARROW WITH DOTTED STEM:\u{2B38}\n\
LEFTWARDS ARROW WITH TAIL WITH VERTICAL STROKE:\u{2B39}\n\
LEFTWARDS ARROW WITH TAIL WITH DOUBLE VERTICAL STROKE:\u{2B3A}\n\
LEFTWARDS TWO-HEADED ARROW WITH TAIL:\u{2B3B}\n\
LEFTWARDS TWO-HEADED ARROW WITH TAIL WITH VERTICAL STROKE:\u{2B3C}\n\
LEFTWARDS TWO-HEADED ARROW WITH TAIL WITH DOUBLE VERTICAL STROKE:\u{2B3D}\n\
LEFTWARDS ARROW THROUGH X:\u{2B3E}\n\
WAVE ARROW POINTING DIRECTLY LEFT:\u{2B3F}\n\
EQUALS SIGN ABOVE LEFTWARDS ARROW:\u{2B40}\n\
REVERSE TILDE OPERATOR ABOVE LEFTWARDS ARROW:\u{2B41}\n\
LEFTWARDS ARROW ABOVE REVERSE ALMOST EQUAL TO:\u{2B42}\n\
RIGHTWARDS ARROW THROUGH GREATER-THAN:\u{2B43}\n\
RIGHTWARDS ARROW THROUGH SUPERSET:\u{2B44}\n\
LEFTWARDS QUADRUPLE ARROW:\u{2B45}\n\
RIGHTWARDS QUADRUPLE ARROW:\u{2B46}\n\
REVERSE TILDE OPERATOR ABOVE RIGHTWARDS ARROW:\u{2B47}\n\
RIGHTWARDS ARROW ABOVE REVERSE ALMOST EQUAL TO:\u{2B48}\n\
TILDE OPERATOR ABOVE LEFTWARDS ARROW:\u{2B49}\n\
LEFTWARDS ARROW ABOVE ALMOST EQUAL TO:\u{2B4A}\n\
LEFTWARDS ARROW ABOVE REVERSE TILDE OPERATOR:\u{2B4B}\n\
RIGHTWARDS ARROW ABOVE REVERSE TILDE OPERATOR:\u{2B4C}\n\
DOWNWARDS TRIANGLE-HEADED ZIGZAG ARROW:\u{2B4D}\n\
SHORT SLANTED NORTH ARROW:\u{2B4E}\n\
SHORT BACKSLANTED SOUTH ARROW:\u{2B4F}\n\
WHITE MEDIUM STAR:\u{2B50}\n\
BLACK SMALL STAR:\u{2B51}\n\
WHITE SMALL STAR:\u{2B52}\n\
BLACK RIGHT-POINTING PENTAGON:\u{2B53}\n\
WHITE RIGHT-POINTING PENTAGON:\u{2B54}\n\
HEAVY LARGE CIRCLE:\u{2B55}\n\
HEAVY OVAL WITH OVAL INSIDE:\u{2B56}\n\
HEAVY CIRCLE WITH CIRCLE INSIDE:\u{2B57}\n\
HEAVY CIRCLE:\u{2B58}\n\
HEAVY CIRCLED SALTIRE:\u{2B59}\n\
SLANTED NORTH ARROW WITH HOOKED HEAD:\u{2B5A}\n\
BACKSLANTED SOUTH ARROW WITH HOOKED TAIL:\u{2B5B}\n\
SLANTED NORTH ARROW WITH HORIZONTAL TAIL:\u{2B5C}\n\
BACKSLANTED SOUTH ARROW WITH HORIZONTAL TAIL:\u{2B5D}\n\
BENT ARROW POINTING DOWNWARDS THEN NORTH EAST:\u{2B5E}\n\
SHORT BENT ARROW POINTING DOWNWARDS THEN NORTH EAST:\u{2B5F}\n\
LEFTWARDS TRIANGLE-HEADED ARROW:\u{2B60}\n\
UPWARDS TRIANGLE-HEADED ARROW:\u{2B61}\n\
RIGHTWARDS TRIANGLE-HEADED ARROW:\u{2B62}\n\
DOWNWARDS TRIANGLE-HEADED ARROW:\u{2B63}\n\
LEFT RIGHT TRIANGLE-HEADED ARROW:\u{2B64}\n\
UP DOWN TRIANGLE-HEADED ARROW:\u{2B65}\n\
NORTH WEST TRIANGLE-HEADED ARROW:\u{2B66}\n\
NORTH EAST TRIANGLE-HEADED ARROW:\u{2B67}\n\
SOUTH EAST TRIANGLE-HEADED ARROW:\u{2B68}\n\
SOUTH WEST TRIANGLE-HEADED ARROW:\u{2B69}\n\
LEFTWARDS TRIANGLE-HEADED DASHED ARROW:\u{2B6A}\n\
UPWARDS TRIANGLE-HEADED DASHED ARROW:\u{2B6B}\n\
RIGHTWARDS TRIANGLE-HEADED DASHED ARROW:\u{2B6C}\n\
DOWNWARDS TRIANGLE-HEADED DASHED ARROW:\u{2B6D}\n\
CLOCKWISE TRIANGLE-HEADED OPEN CIRCLE ARROW:\u{2B6E}\n\
ANTICLOCKWISE TRIANGLE-HEADED OPEN CIRCLE ARROW:\u{2B6F}\n\
LEFTWARDS TRIANGLE-HEADED ARROW TO BAR:\u{2B70}\n\
UPWARDS TRIANGLE-HEADED ARROW TO BAR:\u{2B71}\n\
RIGHTWARDS TRIANGLE-HEADED ARROW TO BAR:\u{2B72}\n\
DOWNWARDS TRIANGLE-HEADED ARROW TO BAR:\u{2B73}\n\
NORTH WEST TRIANGLE-HEADED ARROW TO BAR:\u{2B76}\n\
NORTH EAST TRIANGLE-HEADED ARROW TO BAR:\u{2B77}\n\
SOUTH EAST TRIANGLE-HEADED ARROW TO BAR:\u{2B78}\n\
SOUTH WEST TRIANGLE-HEADED ARROW TO BAR:\u{2B79}\n\
LEFTWARDS TRIANGLE-HEADED ARROW WITH DOUBLE HORIZONTAL STROKE:\u{2B7A}\n\
UPWARDS TRIANGLE-HEADED ARROW WITH DOUBLE HORIZONTAL STROKE:\u{2B7B}\n\
RIGHTWARDS TRIANGLE-HEADED ARROW WITH DOUBLE HORIZONTAL STROKE:\u{2B7C}\n\
DOWNWARDS TRIANGLE-HEADED ARROW WITH DOUBLE HORIZONTAL STROKE:\u{2B7D}\n\
HORIZONTAL TAB KEY:\u{2B7E}\n\
VERTICAL TAB KEY:\u{2B7F}\n\
LEFTWARDS TRIANGLE-HEADED ARROW OVER RIGHTWARDS TRIANGLE-HEADED ARROW:\u{2B80}\n\
UPWARDS TRIANGLE-HEADED ARROW LEFTWARDS OF DOWNWARDS TRIANGLE-HEADED ARROW:\u{2B81}\n\
RIGHTWARDS TRIANGLE-HEADED ARROW OVER LEFTWARDS TRIANGLE-HEADED ARROW:\u{2B82}\n\
DOWNWARDS TRIANGLE-HEADED ARROW LEFTWARDS OF UPWARDS TRIANGLE-HEADED ARROW:\u{2B83}\n\
LEFTWARDS TRIANGLE-HEADED PAIRED ARROWS:\u{2B84}\n\
UPWARDS TRIANGLE-HEADED PAIRED ARROWS:\u{2B85}\n\
RIGHTWARDS TRIANGLE-HEADED PAIRED ARROWS:\u{2B86}\n\
DOWNWARDS TRIANGLE-HEADED PAIRED ARROWS:\u{2B87}\n\
LEFTWARDS BLACK CIRCLED WHITE ARROW:\u{2B88}\n\
UPWARDS BLACK CIRCLED WHITE ARROW:\u{2B89}\n\
RIGHTWARDS BLACK CIRCLED WHITE ARROW:\u{2B8A}\n\
DOWNWARDS BLACK CIRCLED WHITE ARROW:\u{2B8B}\n\
ANTICLOCKWISE TRIANGLE-HEADED RIGHT U-SHAPED ARROW:\u{2B8C}\n\
ANTICLOCKWISE TRIANGLE-HEADED BOTTOM U-SHAPED ARROW:\u{2B8D}\n\
ANTICLOCKWISE TRIANGLE-HEADED LEFT U-SHAPED ARROW:\u{2B8E}\n\
ANTICLOCKWISE TRIANGLE-HEADED TOP U-SHAPED ARROW:\u{2B8F}\n\
RETURN LEFT:\u{2B90}\n\
RETURN RIGHT:\u{2B91}\n\
NEWLINE LEFT:\u{2B92}\n\
NEWLINE RIGHT:\u{2B93}\n\
FOUR CORNER ARROWS CIRCLING ANTICLOCKWISE:\u{2B94}\n\
RIGHTWARDS BLACK ARROW:\u{2B95}\n\
SYMBOL FOR TYPE A ELECTRONICS:\u{2B97}\n\
THREE-D TOP-LIGHTED LEFTWARDS EQUILATERAL ARROWHEAD:\u{2B98}\n\
THREE-D RIGHT-LIGHTED UPWARDS EQUILATERAL ARROWHEAD:\u{2B99}\n\
THREE-D TOP-LIGHTED RIGHTWARDS EQUILATERAL ARROWHEAD:\u{2B9A}\n\
THREE-D LEFT-LIGHTED DOWNWARDS EQUILATERAL ARROWHEAD:\u{2B9B}\n\
BLACK LEFTWARDS EQUILATERAL ARROWHEAD:\u{2B9C}\n\
BLACK UPWARDS EQUILATERAL ARROWHEAD:\u{2B9D}\n\
BLACK RIGHTWARDS EQUILATERAL ARROWHEAD:\u{2B9E}\n\
BLACK DOWNWARDS EQUILATERAL ARROWHEAD:\u{2B9F}\n\
DOWNWARDS TRIANGLE-HEADED ARROW WITH LONG TIP LEFTWARDS:\u{2BA0}\n\
DOWNWARDS TRIANGLE-HEADED ARROW WITH LONG TIP RIGHTWARDS:\u{2BA1}\n\
UPWARDS TRIANGLE-HEADED ARROW WITH LONG TIP LEFTWARDS:\u{2BA2}\n\
UPWARDS TRIANGLE-HEADED ARROW WITH LONG TIP RIGHTWARDS:\u{2BA3}\n\
LEFTWARDS TRIANGLE-HEADED ARROW WITH LONG TIP UPWARDS:\u{2BA4}\n\
RIGHTWARDS TRIANGLE-HEADED ARROW WITH LONG TIP UPWARDS:\u{2BA5}\n\
LEFTWARDS TRIANGLE-HEADED ARROW WITH LONG TIP DOWNWARDS:\u{2BA6}\n\
RIGHTWARDS TRIANGLE-HEADED ARROW WITH LONG TIP DOWNWARDS:\u{2BA7}\n\
BLACK CURVED DOWNWARDS AND LEFTWARDS ARROW:\u{2BA8}\n\
BLACK CURVED DOWNWARDS AND RIGHTWARDS ARROW:\u{2BA9}\n\
BLACK CURVED UPWARDS AND LEFTWARDS ARROW:\u{2BAA}\n\
BLACK CURVED UPWARDS AND RIGHTWARDS ARROW:\u{2BAB}\n\
BLACK CURVED LEFTWARDS AND UPWARDS ARROW:\u{2BAC}\n\
BLACK CURVED RIGHTWARDS AND UPWARDS ARROW:\u{2BAD}\n\
BLACK CURVED LEFTWARDS AND DOWNWARDS ARROW:\u{2BAE}\n\
BLACK CURVED RIGHTWARDS AND DOWNWARDS ARROW:\u{2BAF}\n\
RIBBON ARROW DOWN LEFT:\u{2BB0}\n\
RIBBON ARROW DOWN RIGHT:\u{2BB1}\n\
RIBBON ARROW UP LEFT:\u{2BB2}\n\
RIBBON ARROW UP RIGHT:\u{2BB3}\n\
RIBBON ARROW LEFT UP:\u{2BB4}\n\
RIBBON ARROW RIGHT UP:\u{2BB5}\n\
RIBBON ARROW LEFT DOWN:\u{2BB6}\n\
RIBBON ARROW RIGHT DOWN:\u{2BB7}\n\
UPWARDS WHITE ARROW FROM BAR WITH HORIZONTAL BAR:\u{2BB8}\n\
UP ARROWHEAD IN A RECTANGLE BOX:\u{2BB9}\n\
OVERLAPPING WHITE SQUARES:\u{2BBA}\n\
OVERLAPPING WHITE AND BLACK SQUARES:\u{2BBB}\n\
OVERLAPPING BLACK SQUARES:\u{2BBC}\n\
BALLOT BOX WITH LIGHT X:\u{2BBD}\n\
CIRCLED X:\u{2BBE}\n\
CIRCLED BOLD X:\u{2BBF}\n\
BLACK SQUARE CENTRED:\u{2BC0}\n\
BLACK DIAMOND CENTRED:\u{2BC1}\n\
TURNED BLACK PENTAGON:\u{2BC2}\n\
HORIZONTAL BLACK OCTAGON:\u{2BC3}\n\
BLACK OCTAGON:\u{2BC4}\n\
BLACK MEDIUM UP-POINTING TRIANGLE CENTRED:\u{2BC5}\n\
BLACK MEDIUM DOWN-POINTING TRIANGLE CENTRED:\u{2BC6}\n\
BLACK MEDIUM LEFT-POINTING TRIANGLE CENTRED:\u{2BC7}\n\
BLACK MEDIUM RIGHT-POINTING TRIANGLE CENTRED:\u{2BC8}\n\
NEPTUNE FORM TWO:\u{2BC9}\n\
TOP HALF BLACK CIRCLE:\u{2BCA}\n\
BOTTOM HALF BLACK CIRCLE:\u{2BCB}\n\
LIGHT FOUR POINTED BLACK CUSP:\u{2BCC}\n\
ROTATED LIGHT FOUR POINTED BLACK CUSP:\u{2BCD}\n\
WHITE FOUR POINTED CUSP:\u{2BCE}\n\
ROTATED WHITE FOUR POINTED CUSP:\u{2BCF}\n\
SQUARE POSITION INDICATOR:\u{2BD0}\n\
UNCERTAINTY SIGN:\u{2BD1}\n\
GROUP MARK:\u{2BD2}\n\
PLUTO FORM TWO:\u{2BD3}\n\
PLUTO FORM THREE:\u{2BD4}\n\
PLUTO FORM FOUR:\u{2BD5}\n\
PLUTO FORM FIVE:\u{2BD6}\n\
TRANSPLUTO:\u{2BD7}\n\
PROSERPINA:\u{2BD8}\n\
ASTRAEA:\u{2BD9}\n\
HYGIEA:\u{2BDA}\n\
PHOLUS:\u{2BDB}\n\
NESSUS:\u{2BDC}\n\
WHITE MOON SELENA:\u{2BDD}\n\
BLACK DIAMOND ON CROSS:\u{2BDE}\n\
TRUE LIGHT MOON ARTA:\u{2BDF}\n\
CUPIDO:\u{2BE0}\n\
HADES:\u{2BE1}\n\
ZEUS:\u{2BE2}\n\
KRONOS:\u{2BE3}\n\
APOLLON:\u{2BE4}\n\
ADMETOS:\u{2BE5}\n\
VULCANUS:\u{2BE6}\n\
POSEIDON:\u{2BE7}\n\
LEFT HALF BLACK STAR:\u{2BE8}\n\
RIGHT HALF BLACK STAR:\u{2BE9}\n\
STAR WITH LEFT HALF BLACK:\u{2BEA}\n\
STAR WITH RIGHT HALF BLACK:\u{2BEB}\n\
LEFTWARDS TWO-HEADED ARROW WITH TRIANGLE ARROWHEADS:\u{2BEC}\n\
UPWARDS TWO-HEADED ARROW WITH TRIANGLE ARROWHEADS:\u{2BED}\n\
RIGHTWARDS TWO-HEADED ARROW WITH TRIANGLE ARROWHEADS:\u{2BEE}\n\
DOWNWARDS TWO-HEADED ARROW WITH TRIANGLE ARROWHEADS:\u{2BEF}\n\
ERIS FORM ONE:\u{2BF0}\n\
ERIS FORM TWO:\u{2BF1}\n\
SEDNA:\u{2BF2}\n\
RUSSIAN ASTROLOGICAL SYMBOL VIGINTILE:\u{2BF3}\n\
RUSSIAN ASTROLOGICAL SYMBOL NOVILE:\u{2BF4}\n\
RUSSIAN ASTROLOGICAL SYMBOL QUINTILE:\u{2BF5}\n\
RUSSIAN ASTROLOGICAL SYMBOL BINOVILE:\u{2BF6}\n\
RUSSIAN ASTROLOGICAL SYMBOL SENTAGON:\u{2BF7}\n\
RUSSIAN ASTROLOGICAL SYMBOL TREDECILE:\u{2BF8}\n\
EQUALS SIGN WITH INFINITY BELOW:\u{2BF9}\n\
UNITED SYMBOL:\u{2BFA}\n\
SEPARATED SYMBOL:\u{2BFB}\n\
DOUBLED SYMBOL:\u{2BFC}\n\
PASSED SYMBOL:\u{2BFD}\n\
REVERSED RIGHT ANGLE:\u{2BFE}\n\
HELLSCHREIBER PAUSE SYMBOL:\u{2BFF}\n\
GLAGOLITIC CAPITAL LETTER AZU:\u{2C00}\n\
GLAGOLITIC CAPITAL LETTER BUKY:\u{2C01}\n\
GLAGOLITIC CAPITAL LETTER VEDE:\u{2C02}\n\
GLAGOLITIC CAPITAL LETTER GLAGOLI:\u{2C03}\n\
GLAGOLITIC CAPITAL LETTER DOBRO:\u{2C04}\n\
GLAGOLITIC CAPITAL LETTER YESTU:\u{2C05}\n\
GLAGOLITIC CAPITAL LETTER ZHIVETE:\u{2C06}\n\
GLAGOLITIC CAPITAL LETTER DZELO:\u{2C07}\n\
GLAGOLITIC CAPITAL LETTER ZEMLJA:\u{2C08}\n\
GLAGOLITIC CAPITAL LETTER IZHE:\u{2C09}\n\
GLAGOLITIC CAPITAL LETTER INITIAL IZHE:\u{2C0A}\n\
GLAGOLITIC CAPITAL LETTER I:\u{2C0B}\n\
GLAGOLITIC CAPITAL LETTER DJERVI:\u{2C0C}\n\
GLAGOLITIC CAPITAL LETTER KAKO:\u{2C0D}\n\
GLAGOLITIC CAPITAL LETTER LJUDIJE:\u{2C0E}\n\
GLAGOLITIC CAPITAL LETTER MYSLITE:\u{2C0F}\n\
GLAGOLITIC CAPITAL LETTER NASHI:\u{2C10}\n\
GLAGOLITIC CAPITAL LETTER ONU:\u{2C11}\n\
GLAGOLITIC CAPITAL LETTER POKOJI:\u{2C12}\n\
GLAGOLITIC CAPITAL LETTER RITSI:\u{2C13}\n\
GLAGOLITIC CAPITAL LETTER SLOVO:\u{2C14}\n\
GLAGOLITIC CAPITAL LETTER TVRIDO:\u{2C15}\n\
GLAGOLITIC CAPITAL LETTER UKU:\u{2C16}\n\
GLAGOLITIC CAPITAL LETTER FRITU:\u{2C17}\n\
GLAGOLITIC CAPITAL LETTER HERU:\u{2C18}\n\
GLAGOLITIC CAPITAL LETTER OTU:\u{2C19}\n\
GLAGOLITIC CAPITAL LETTER PE:\u{2C1A}\n\
GLAGOLITIC CAPITAL LETTER SHTA:\u{2C1B}\n\
GLAGOLITIC CAPITAL LETTER TSI:\u{2C1C}\n\
GLAGOLITIC CAPITAL LETTER CHRIVI:\u{2C1D}\n\
GLAGOLITIC CAPITAL LETTER SHA:\u{2C1E}\n\
GLAGOLITIC CAPITAL LETTER YERU:\u{2C1F}\n\
GLAGOLITIC CAPITAL LETTER YERI:\u{2C20}\n\
GLAGOLITIC CAPITAL LETTER YATI:\u{2C21}\n\
GLAGOLITIC CAPITAL LETTER SPIDERY HA:\u{2C22}\n\
GLAGOLITIC CAPITAL LETTER YU:\u{2C23}\n\
GLAGOLITIC CAPITAL LETTER SMALL YUS:\u{2C24}\n\
GLAGOLITIC CAPITAL LETTER SMALL YUS WITH TAIL:\u{2C25}\n\
GLAGOLITIC CAPITAL LETTER YO:\u{2C26}\n\
GLAGOLITIC CAPITAL LETTER IOTATED SMALL YUS:\u{2C27}\n\
GLAGOLITIC CAPITAL LETTER BIG YUS:\u{2C28}\n\
GLAGOLITIC CAPITAL LETTER IOTATED BIG YUS:\u{2C29}\n\
GLAGOLITIC CAPITAL LETTER FITA:\u{2C2A}\n\
GLAGOLITIC CAPITAL LETTER IZHITSA:\u{2C2B}\n\
GLAGOLITIC CAPITAL LETTER SHTAPIC:\u{2C2C}\n\
GLAGOLITIC CAPITAL LETTER TROKUTASTI A:\u{2C2D}\n\
GLAGOLITIC CAPITAL LETTER LATINATE MYSLITE:\u{2C2E}\n\
GLAGOLITIC CAPITAL LETTER CAUDATE CHRIVI:\u{2C2F}\n\
GLAGOLITIC SMALL LETTER AZU:\u{2C30}\n\
GLAGOLITIC SMALL LETTER BUKY:\u{2C31}\n\
GLAGOLITIC SMALL LETTER VEDE:\u{2C32}\n\
GLAGOLITIC SMALL LETTER GLAGOLI:\u{2C33}\n\
GLAGOLITIC SMALL LETTER DOBRO:\u{2C34}\n\
GLAGOLITIC SMALL LETTER YESTU:\u{2C35}\n\
GLAGOLITIC SMALL LETTER ZHIVETE:\u{2C36}\n\
GLAGOLITIC SMALL LETTER DZELO:\u{2C37}\n\
GLAGOLITIC SMALL LETTER ZEMLJA:\u{2C38}\n\
GLAGOLITIC SMALL LETTER IZHE:\u{2C39}\n\
GLAGOLITIC SMALL LETTER INITIAL IZHE:\u{2C3A}\n\
GLAGOLITIC SMALL LETTER I:\u{2C3B}\n\
GLAGOLITIC SMALL LETTER DJERVI:\u{2C3C}\n\
GLAGOLITIC SMALL LETTER KAKO:\u{2C3D}\n\
GLAGOLITIC SMALL LETTER LJUDIJE:\u{2C3E}\n\
GLAGOLITIC SMALL LETTER MYSLITE:\u{2C3F}\n\
GLAGOLITIC SMALL LETTER NASHI:\u{2C40}\n\
GLAGOLITIC SMALL LETTER ONU:\u{2C41}\n\
GLAGOLITIC SMALL LETTER POKOJI:\u{2C42}\n\
GLAGOLITIC SMALL LETTER RITSI:\u{2C43}\n\
GLAGOLITIC SMALL LETTER SLOVO:\u{2C44}\n\
GLAGOLITIC SMALL LETTER TVRIDO:\u{2C45}\n\
GLAGOLITIC SMALL LETTER UKU:\u{2C46}\n\
GLAGOLITIC SMALL LETTER FRITU:\u{2C47}\n\
GLAGOLITIC SMALL LETTER HERU:\u{2C48}\n\
GLAGOLITIC SMALL LETTER OTU:\u{2C49}\n\
GLAGOLITIC SMALL LETTER PE:\u{2C4A}\n\
GLAGOLITIC SMALL LETTER SHTA:\u{2C4B}\n\
GLAGOLITIC SMALL LETTER TSI:\u{2C4C}\n\
GLAGOLITIC SMALL LETTER CHRIVI:\u{2C4D}\n\
GLAGOLITIC SMALL LETTER SHA:\u{2C4E}\n\
GLAGOLITIC SMALL LETTER YERU:\u{2C4F}\n\
GLAGOLITIC SMALL LETTER YERI:\u{2C50}\n\
GLAGOLITIC SMALL LETTER YATI:\u{2C51}\n\
GLAGOLITIC SMALL LETTER SPIDERY HA:\u{2C52}\n\
GLAGOLITIC SMALL LETTER YU:\u{2C53}\n\
GLAGOLITIC SMALL LETTER SMALL YUS:\u{2C54}\n\
GLAGOLITIC SMALL LETTER SMALL YUS WITH TAIL:\u{2C55}\n\
GLAGOLITIC SMALL LETTER YO:\u{2C56}\n\
GLAGOLITIC SMALL LETTER IOTATED SMALL YUS:\u{2C57}\n\
GLAGOLITIC SMALL LETTER BIG YUS:\u{2C58}\n\
GLAGOLITIC SMALL LETTER IOTATED BIG YUS:\u{2C59}\n\
GLAGOLITIC SMALL LETTER FITA:\u{2C5A}\n\
GLAGOLITIC SMALL LETTER IZHITSA:\u{2C5B}\n\
GLAGOLITIC SMALL LETTER SHTAPIC:\u{2C5C}\n\
GLAGOLITIC SMALL LETTER TROKUTASTI A:\u{2C5D}\n\
GLAGOLITIC SMALL LETTER LATINATE MYSLITE:\u{2C5E}\n\
GLAGOLITIC SMALL LETTER CAUDATE CHRIVI:\u{2C5F}\n\
LATIN CAPITAL LETTER L WITH DOUBLE BAR:\u{2C60}\n\
LATIN SMALL LETTER L WITH DOUBLE BAR:\u{2C61}\n\
LATIN CAPITAL LETTER L WITH MIDDLE TILDE:\u{2C62}\n\
LATIN CAPITAL LETTER P WITH STROKE:\u{2C63}\n\
LATIN CAPITAL LETTER R WITH TAIL:\u{2C64}\n\
LATIN SMALL LETTER A WITH STROKE:\u{2C65}\n\
LATIN SMALL LETTER T WITH DIAGONAL STROKE:\u{2C66}\n\
LATIN CAPITAL LETTER H WITH DESCENDER:\u{2C67}\n\
LATIN SMALL LETTER H WITH DESCENDER:\u{2C68}\n\
LATIN CAPITAL LETTER K WITH DESCENDER:\u{2C69}\n\
LATIN SMALL LETTER K WITH DESCENDER:\u{2C6A}\n\
LATIN CAPITAL LETTER Z WITH DESCENDER:\u{2C6B}\n\
LATIN SMALL LETTER Z WITH DESCENDER:\u{2C6C}\n\
LATIN CAPITAL LETTER ALPHA:\u{2C6D}\n\
LATIN CAPITAL LETTER M WITH HOOK:\u{2C6E}\n\
LATIN CAPITAL LETTER TURNED A:\u{2C6F}\n\
LATIN CAPITAL LETTER TURNED ALPHA:\u{2C70}\n\
LATIN SMALL LETTER V WITH RIGHT HOOK:\u{2C71}\n\
LATIN CAPITAL LETTER W WITH HOOK:\u{2C72}\n\
LATIN SMALL LETTER W WITH HOOK:\u{2C73}\n\
LATIN SMALL LETTER V WITH CURL:\u{2C74}\n\
LATIN CAPITAL LETTER HALF H:\u{2C75}\n\
LATIN SMALL LETTER HALF H:\u{2C76}\n\
LATIN SMALL LETTER TAILLESS PHI:\u{2C77}\n\
LATIN SMALL LETTER E WITH NOTCH:\u{2C78}\n\
LATIN SMALL LETTER TURNED R WITH TAIL:\u{2C79}\n\
LATIN SMALL LETTER O WITH LOW RING INSIDE:\u{2C7A}\n\
LATIN LETTER SMALL CAPITAL TURNED E:\u{2C7B}\n";

pub const NAMES_27: &'static str = "LATIN SUBSCRIPT SMALL LETTER J:\u{2C7C}\n\
MODIFIER LETTER CAPITAL V:\u{2C7D}\n\
LATIN CAPITAL LETTER S WITH SWASH TAIL:\u{2C7E}\n\
LATIN CAPITAL LETTER Z WITH SWASH TAIL:\u{2C7F}\n\
COPTIC CAPITAL LETTER ALFA:\u{2C80}\n\
COPTIC SMALL LETTER ALFA:\u{2C81}\n\
COPTIC CAPITAL LETTER VIDA:\u{2C82}\n\
COPTIC SMALL LETTER VIDA:\u{2C83}\n\
COPTIC CAPITAL LETTER GAMMA:\u{2C84}\n\
COPTIC SMALL LETTER GAMMA:\u{2C85}\n\
COPTIC CAPITAL LETTER DALDA:\u{2C86}\n\
COPTIC SMALL LETTER DALDA:\u{2C87}\n\
COPTIC CAPITAL LETTER EIE:\u{2C88}\n\
COPTIC SMALL LETTER EIE:\u{2C89}\n\
COPTIC CAPITAL LETTER SOU:\u{2C8A}\n\
COPTIC SMALL LETTER SOU:\u{2C8B}\n\
COPTIC CAPITAL LETTER ZATA:\u{2C8C}\n\
COPTIC SMALL LETTER ZATA:\u{2C8D}\n\
COPTIC CAPITAL LETTER HATE:\u{2C8E}\n\
COPTIC SMALL LETTER HATE:\u{2C8F}\n\
COPTIC CAPITAL LETTER THETHE:\u{2C90}\n\
COPTIC SMALL LETTER THETHE:\u{2C91}\n\
COPTIC CAPITAL LETTER IAUDA:\u{2C92}\n\
COPTIC SMALL LETTER IAUDA:\u{2C93}\n\
COPTIC CAPITAL LETTER KAPA:\u{2C94}\n\
COPTIC SMALL LETTER KAPA:\u{2C95}\n\
COPTIC CAPITAL LETTER LAULA:\u{2C96}\n\
COPTIC SMALL LETTER LAULA:\u{2C97}\n\
COPTIC CAPITAL LETTER MI:\u{2C98}\n\
COPTIC SMALL LETTER MI:\u{2C99}\n\
COPTIC CAPITAL LETTER NI:\u{2C9A}\n\
COPTIC SMALL LETTER NI:\u{2C9B}\n\
COPTIC CAPITAL LETTER KSI:\u{2C9C}\n\
COPTIC SMALL LETTER KSI:\u{2C9D}\n\
COPTIC CAPITAL LETTER O:\u{2C9E}\n\
COPTIC SMALL LETTER O:\u{2C9F}\n\
COPTIC CAPITAL LETTER PI:\u{2CA0}\n\
COPTIC SMALL LETTER PI:\u{2CA1}\n\
COPTIC CAPITAL LETTER RO:\u{2CA2}\n\
COPTIC SMALL LETTER RO:\u{2CA3}\n\
COPTIC CAPITAL LETTER SIMA:\u{2CA4}\n\
COPTIC SMALL LETTER SIMA:\u{2CA5}\n\
COPTIC CAPITAL LETTER TAU:\u{2CA6}\n\
COPTIC SMALL LETTER TAU:\u{2CA7}\n\
COPTIC CAPITAL LETTER UA:\u{2CA8}\n\
COPTIC SMALL LETTER UA:\u{2CA9}\n\
COPTIC CAPITAL LETTER FI:\u{2CAA}\n\
COPTIC SMALL LETTER FI:\u{2CAB}\n\
COPTIC CAPITAL LETTER KHI:\u{2CAC}\n\
COPTIC SMALL LETTER KHI:\u{2CAD}\n\
COPTIC CAPITAL LETTER PSI:\u{2CAE}\n\
COPTIC SMALL LETTER PSI:\u{2CAF}\n\
COPTIC CAPITAL LETTER OOU:\u{2CB0}\n\
COPTIC SMALL LETTER OOU:\u{2CB1}\n\
COPTIC CAPITAL LETTER DIALECT-P ALEF:\u{2CB2}\n\
COPTIC SMALL LETTER DIALECT-P ALEF:\u{2CB3}\n\
COPTIC CAPITAL LETTER OLD COPTIC AIN:\u{2CB4}\n\
COPTIC SMALL LETTER OLD COPTIC AIN:\u{2CB5}\n\
COPTIC CAPITAL LETTER CRYPTOGRAMMIC EIE:\u{2CB6}\n\
COPTIC SMALL LETTER CRYPTOGRAMMIC EIE:\u{2CB7}\n\
COPTIC CAPITAL LETTER DIALECT-P KAPA:\u{2CB8}\n\
COPTIC SMALL LETTER DIALECT-P KAPA:\u{2CB9}\n\
COPTIC CAPITAL LETTER DIALECT-P NI:\u{2CBA}\n\
COPTIC SMALL LETTER DIALECT-P NI:\u{2CBB}\n\
COPTIC CAPITAL LETTER CRYPTOGRAMMIC NI:\u{2CBC}\n\
COPTIC SMALL LETTER CRYPTOGRAMMIC NI:\u{2CBD}\n\
COPTIC CAPITAL LETTER OLD COPTIC OOU:\u{2CBE}\n\
COPTIC SMALL LETTER OLD COPTIC OOU:\u{2CBF}\n\
COPTIC CAPITAL LETTER SAMPI:\u{2CC0}\n\
COPTIC SMALL LETTER SAMPI:\u{2CC1}\n\
COPTIC CAPITAL LETTER CROSSED SHEI:\u{2CC2}\n\
COPTIC SMALL LETTER CROSSED SHEI:\u{2CC3}\n\
COPTIC CAPITAL LETTER OLD COPTIC SHEI:\u{2CC4}\n\
COPTIC SMALL LETTER OLD COPTIC SHEI:\u{2CC5}\n\
COPTIC CAPITAL LETTER OLD COPTIC ESH:\u{2CC6}\n\
COPTIC SMALL LETTER OLD COPTIC ESH:\u{2CC7}\n\
COPTIC CAPITAL LETTER AKHMIMIC KHEI:\u{2CC8}\n\
COPTIC SMALL LETTER AKHMIMIC KHEI:\u{2CC9}\n\
COPTIC CAPITAL LETTER DIALECT-P HORI:\u{2CCA}\n\
COPTIC SMALL LETTER DIALECT-P HORI:\u{2CCB}\n\
COPTIC CAPITAL LETTER OLD COPTIC HORI:\u{2CCC}\n\
COPTIC SMALL LETTER OLD COPTIC HORI:\u{2CCD}\n\
COPTIC CAPITAL LETTER OLD COPTIC HA:\u{2CCE}\n\
COPTIC SMALL LETTER OLD COPTIC HA:\u{2CCF}\n\
COPTIC CAPITAL LETTER L-SHAPED HA:\u{2CD0}\n\
COPTIC SMALL LETTER L-SHAPED HA:\u{2CD1}\n\
COPTIC CAPITAL LETTER OLD COPTIC HEI:\u{2CD2}\n\
COPTIC SMALL LETTER OLD COPTIC HEI:\u{2CD3}\n\
COPTIC CAPITAL LETTER OLD COPTIC HAT:\u{2CD4}\n\
COPTIC SMALL LETTER OLD COPTIC HAT:\u{2CD5}\n\
COPTIC CAPITAL LETTER OLD COPTIC GANGIA:\u{2CD6}\n\
COPTIC SMALL LETTER OLD COPTIC GANGIA:\u{2CD7}\n\
COPTIC CAPITAL LETTER OLD COPTIC DJA:\u{2CD8}\n\
COPTIC SMALL LETTER OLD COPTIC DJA:\u{2CD9}\n\
COPTIC CAPITAL LETTER OLD COPTIC SHIMA:\u{2CDA}\n\
COPTIC SMALL LETTER OLD COPTIC SHIMA:\u{2CDB}\n\
COPTIC CAPITAL LETTER OLD NUBIAN SHIMA:\u{2CDC}\n\
COPTIC SMALL LETTER OLD NUBIAN SHIMA:\u{2CDD}\n\
COPTIC CAPITAL LETTER OLD NUBIAN NGI:\u{2CDE}\n\
COPTIC SMALL LETTER OLD NUBIAN NGI:\u{2CDF}\n\
COPTIC CAPITAL LETTER OLD NUBIAN NYI:\u{2CE0}\n\
COPTIC SMALL LETTER OLD NUBIAN NYI:\u{2CE1}\n\
COPTIC CAPITAL LETTER OLD NUBIAN WAU:\u{2CE2}\n\
COPTIC SMALL LETTER OLD NUBIAN WAU:\u{2CE3}\n\
COPTIC SYMBOL KAI:\u{2CE4}\n\
COPTIC SYMBOL MI RO:\u{2CE5}\n\
COPTIC SYMBOL PI RO:\u{2CE6}\n\
COPTIC SYMBOL STAUROS:\u{2CE7}\n\
COPTIC SYMBOL TAU RO:\u{2CE8}\n\
COPTIC SYMBOL KHI RO:\u{2CE9}\n\
COPTIC SYMBOL SHIMA SIMA:\u{2CEA}\n\
COPTIC CAPITAL LETTER CRYPTOGRAMMIC SHEI:\u{2CEB}\n\
COPTIC SMALL LETTER CRYPTOGRAMMIC SHEI:\u{2CEC}\n\
COPTIC CAPITAL LETTER CRYPTOGRAMMIC GANGIA:\u{2CED}\n\
COPTIC SMALL LETTER CRYPTOGRAMMIC GANGIA:\u{2CEE}\n\
COPTIC COMBINING NI ABOVE:\u{2CEF}\n\
COPTIC COMBINING SPIRITUS ASPER:\u{2CF0}\n\
COPTIC COMBINING SPIRITUS LENIS:\u{2CF1}\n\
COPTIC CAPITAL LETTER BOHAIRIC KHEI:\u{2CF2}\n\
COPTIC SMALL LETTER BOHAIRIC KHEI:\u{2CF3}\n\
COPTIC OLD NUBIAN FULL STOP:\u{2CF9}\n\
COPTIC OLD NUBIAN DIRECT QUESTION MARK:\u{2CFA}\n\
COPTIC OLD NUBIAN INDIRECT QUESTION MARK:\u{2CFB}\n\
COPTIC OLD NUBIAN VERSE DIVIDER:\u{2CFC}\n\
COPTIC FRACTION ONE HALF:\u{2CFD}\n\
COPTIC FULL STOP:\u{2CFE}\n\
COPTIC MORPHOLOGICAL DIVIDER:\u{2CFF}\n\
GEORGIAN SMALL LETTER AN:\u{2D00}\n\
GEORGIAN SMALL LETTER BAN:\u{2D01}\n\
GEORGIAN SMALL LETTER GAN:\u{2D02}\n\
GEORGIAN SMALL LETTER DON:\u{2D03}\n\
GEORGIAN SMALL LETTER EN:\u{2D04}\n\
GEORGIAN SMALL LETTER VIN:\u{2D05}\n\
GEORGIAN SMALL LETTER ZEN:\u{2D06}\n\
GEORGIAN SMALL LETTER TAN:\u{2D07}\n\
GEORGIAN SMALL LETTER IN:\u{2D08}\n\
GEORGIAN SMALL LETTER KAN:\u{2D09}\n\
GEORGIAN SMALL LETTER LAS:\u{2D0A}\n\
GEORGIAN SMALL LETTER MAN:\u{2D0B}\n\
GEORGIAN SMALL LETTER NAR:\u{2D0C}\n\
GEORGIAN SMALL LETTER ON:\u{2D0D}\n\
GEORGIAN SMALL LETTER PAR:\u{2D0E}\n\
GEORGIAN SMALL LETTER ZHAR:\u{2D0F}\n\
GEORGIAN SMALL LETTER RAE:\u{2D10}\n\
GEORGIAN SMALL LETTER SAN:\u{2D11}\n\
GEORGIAN SMALL LETTER TAR:\u{2D12}\n\
GEORGIAN SMALL LETTER UN:\u{2D13}\n\
GEORGIAN SMALL LETTER PHAR:\u{2D14}\n\
GEORGIAN SMALL LETTER KHAR:\u{2D15}\n\
GEORGIAN SMALL LETTER GHAN:\u{2D16}\n\
GEORGIAN SMALL LETTER QAR:\u{2D17}\n\
GEORGIAN SMALL LETTER SHIN:\u{2D18}\n\
GEORGIAN SMALL LETTER CHIN:\u{2D19}\n\
GEORGIAN SMALL LETTER CAN:\u{2D1A}\n\
GEORGIAN SMALL LETTER JIL:\u{2D1B}\n\
GEORGIAN SMALL LETTER CIL:\u{2D1C}\n\
GEORGIAN SMALL LETTER CHAR:\u{2D1D}\n\
GEORGIAN SMALL LETTER XAN:\u{2D1E}\n\
GEORGIAN SMALL LETTER JHAN:\u{2D1F}\n\
GEORGIAN SMALL LETTER HAE:\u{2D20}\n\
GEORGIAN SMALL LETTER HE:\u{2D21}\n\
GEORGIAN SMALL LETTER HIE:\u{2D22}\n\
GEORGIAN SMALL LETTER WE:\u{2D23}\n\
GEORGIAN SMALL LETTER HAR:\u{2D24}\n\
GEORGIAN SMALL LETTER HOE:\u{2D25}\n\
GEORGIAN SMALL LETTER YN:\u{2D27}\n\
GEORGIAN SMALL LETTER AEN:\u{2D2D}\n\
TIFINAGH LETTER YA:\u{2D30}\n\
TIFINAGH LETTER YAB:\u{2D31}\n\
TIFINAGH LETTER YABH:\u{2D32}\n\
TIFINAGH LETTER YAG:\u{2D33}\n\
TIFINAGH LETTER YAGHH:\u{2D34}\n\
TIFINAGH LETTER BERBER ACADEMY YAJ:\u{2D35}\n\
TIFINAGH LETTER YAJ:\u{2D36}\n\
TIFINAGH LETTER YAD:\u{2D37}\n\
TIFINAGH LETTER YADH:\u{2D38}\n\
TIFINAGH LETTER YADD:\u{2D39}\n\
TIFINAGH LETTER YADDH:\u{2D3A}\n\
TIFINAGH LETTER YEY:\u{2D3B}\n\
TIFINAGH LETTER YAF:\u{2D3C}\n\
TIFINAGH LETTER YAK:\u{2D3D}\n\
TIFINAGH LETTER TUAREG YAK:\u{2D3E}\n\
TIFINAGH LETTER YAKHH:\u{2D3F}\n\
TIFINAGH LETTER YAH:\u{2D40}\n\
TIFINAGH LETTER BERBER ACADEMY YAH:\u{2D41}\n\
TIFINAGH LETTER TUAREG YAH:\u{2D42}\n\
TIFINAGH LETTER YAHH:\u{2D43}\n\
TIFINAGH LETTER YAA:\u{2D44}\n\
TIFINAGH LETTER YAKH:\u{2D45}\n\
TIFINAGH LETTER TUAREG YAKH:\u{2D46}\n\
TIFINAGH LETTER YAQ:\u{2D47}\n\
TIFINAGH LETTER TUAREG YAQ:\u{2D48}\n\
TIFINAGH LETTER YI:\u{2D49}\n\
TIFINAGH LETTER YAZH:\u{2D4A}\n\
TIFINAGH LETTER AHAGGAR YAZH:\u{2D4B}\n\
TIFINAGH LETTER TUAREG YAZH:\u{2D4C}\n\
TIFINAGH LETTER YAL:\u{2D4D}\n\
TIFINAGH LETTER YAM:\u{2D4E}\n\
TIFINAGH LETTER YAN:\u{2D4F}\n\
TIFINAGH LETTER TUAREG YAGN:\u{2D50}\n\
TIFINAGH LETTER TUAREG YANG:\u{2D51}\n\
TIFINAGH LETTER YAP:\u{2D52}\n\
TIFINAGH LETTER YU:\u{2D53}\n\
TIFINAGH LETTER YAR:\u{2D54}\n\
TIFINAGH LETTER YARR:\u{2D55}\n\
TIFINAGH LETTER YAGH:\u{2D56}\n\
TIFINAGH LETTER TUAREG YAGH:\u{2D57}\n\
TIFINAGH LETTER AYER YAGH:\u{2D58}\n\
TIFINAGH LETTER YAS:\u{2D59}\n\
TIFINAGH LETTER YASS:\u{2D5A}\n\
TIFINAGH LETTER YASH:\u{2D5B}\n\
TIFINAGH LETTER YAT:\u{2D5C}\n\
TIFINAGH LETTER YATH:\u{2D5D}\n\
TIFINAGH LETTER YACH:\u{2D5E}\n\
TIFINAGH LETTER YATT:\u{2D5F}\n\
TIFINAGH LETTER YAV:\u{2D60}\n\
TIFINAGH LETTER YAW:\u{2D61}\n\
TIFINAGH LETTER YAY:\u{2D62}\n\
TIFINAGH LETTER YAZ:\u{2D63}\n\
TIFINAGH LETTER TAWELLEMET YAZ:\u{2D64}\n\
TIFINAGH LETTER YAZZ:\u{2D65}\n\
TIFINAGH LETTER YE:\u{2D66}\n\
TIFINAGH LETTER YO:\u{2D67}\n\
TIFINAGH MODIFIER LETTER LABIALIZATION MARK:\u{2D6F}\n\
TIFINAGH SEPARATOR MARK:\u{2D70}\n\
TIFINAGH CONSONANT JOINER:\u{2D7F}\n\
ETHIOPIC SYLLABLE LOA:\u{2D80}\n\
ETHIOPIC SYLLABLE MOA:\u{2D81}\n\
ETHIOPIC SYLLABLE ROA:\u{2D82}\n\
ETHIOPIC SYLLABLE SOA:\u{2D83}\n\
ETHIOPIC SYLLABLE SHOA:\u{2D84}\n\
ETHIOPIC SYLLABLE BOA:\u{2D85}\n\
ETHIOPIC SYLLABLE TOA:\u{2D86}\n\
ETHIOPIC SYLLABLE COA:\u{2D87}\n\
ETHIOPIC SYLLABLE NOA:\u{2D88}\n\
ETHIOPIC SYLLABLE NYOA:\u{2D89}\n\
ETHIOPIC SYLLABLE GLOTTAL OA:\u{2D8A}\n\
ETHIOPIC SYLLABLE ZOA:\u{2D8B}\n\
ETHIOPIC SYLLABLE DOA:\u{2D8C}\n\
ETHIOPIC SYLLABLE DDOA:\u{2D8D}\n\
ETHIOPIC SYLLABLE JOA:\u{2D8E}\n\
ETHIOPIC SYLLABLE THOA:\u{2D8F}\n\
ETHIOPIC SYLLABLE CHOA:\u{2D90}\n\
ETHIOPIC SYLLABLE PHOA:\u{2D91}\n\
ETHIOPIC SYLLABLE POA:\u{2D92}\n\
ETHIOPIC SYLLABLE GGWA:\u{2D93}\n\
ETHIOPIC SYLLABLE GGWI:\u{2D94}\n\
ETHIOPIC SYLLABLE GGWEE:\u{2D95}\n\
ETHIOPIC SYLLABLE GGWE:\u{2D96}\n\
ETHIOPIC SYLLABLE SSA:\u{2DA0}\n\
ETHIOPIC SYLLABLE SSU:\u{2DA1}\n\
ETHIOPIC SYLLABLE SSI:\u{2DA2}\n\
ETHIOPIC SYLLABLE SSAA:\u{2DA3}\n\
ETHIOPIC SYLLABLE SSEE:\u{2DA4}\n\
ETHIOPIC SYLLABLE SSE:\u{2DA5}\n\
ETHIOPIC SYLLABLE SSO:\u{2DA6}\n\
ETHIOPIC SYLLABLE CCA:\u{2DA8}\n\
ETHIOPIC SYLLABLE CCU:\u{2DA9}\n\
ETHIOPIC SYLLABLE CCI:\u{2DAA}\n\
ETHIOPIC SYLLABLE CCAA:\u{2DAB}\n\
ETHIOPIC SYLLABLE CCEE:\u{2DAC}\n\
ETHIOPIC SYLLABLE CCE:\u{2DAD}\n\
ETHIOPIC SYLLABLE CCO:\u{2DAE}\n\
ETHIOPIC SYLLABLE ZZA:\u{2DB0}\n\
ETHIOPIC SYLLABLE ZZU:\u{2DB1}\n\
ETHIOPIC SYLLABLE ZZI:\u{2DB2}\n\
ETHIOPIC SYLLABLE ZZAA:\u{2DB3}\n\
ETHIOPIC SYLLABLE ZZEE:\u{2DB4}\n\
ETHIOPIC SYLLABLE ZZE:\u{2DB5}\n\
ETHIOPIC SYLLABLE ZZO:\u{2DB6}\n\
ETHIOPIC SYLLABLE CCHA:\u{2DB8}\n\
ETHIOPIC SYLLABLE CCHU:\u{2DB9}\n\
ETHIOPIC SYLLABLE CCHI:\u{2DBA}\n\
ETHIOPIC SYLLABLE CCHAA:\u{2DBB}\n\
ETHIOPIC SYLLABLE CCHEE:\u{2DBC}\n\
ETHIOPIC SYLLABLE CCHE:\u{2DBD}\n\
ETHIOPIC SYLLABLE CCHO:\u{2DBE}\n\
ETHIOPIC SYLLABLE QYA:\u{2DC0}\n\
ETHIOPIC SYLLABLE QYU:\u{2DC1}\n\
ETHIOPIC SYLLABLE QYI:\u{2DC2}\n\
ETHIOPIC SYLLABLE QYAA:\u{2DC3}\n\
ETHIOPIC SYLLABLE QYEE:\u{2DC4}\n\
ETHIOPIC SYLLABLE QYE:\u{2DC5}\n\
ETHIOPIC SYLLABLE QYO:\u{2DC6}\n\
ETHIOPIC SYLLABLE KYA:\u{2DC8}\n\
ETHIOPIC SYLLABLE KYU:\u{2DC9}\n\
ETHIOPIC SYLLABLE KYI:\u{2DCA}\n\
ETHIOPIC SYLLABLE KYAA:\u{2DCB}\n\
ETHIOPIC SYLLABLE KYEE:\u{2DCC}\n\
ETHIOPIC SYLLABLE KYE:\u{2DCD}\n\
ETHIOPIC SYLLABLE KYO:\u{2DCE}\n\
ETHIOPIC SYLLABLE XYA:\u{2DD0}\n\
ETHIOPIC SYLLABLE XYU:\u{2DD1}\n\
ETHIOPIC SYLLABLE XYI:\u{2DD2}\n\
ETHIOPIC SYLLABLE XYAA:\u{2DD3}\n\
ETHIOPIC SYLLABLE XYEE:\u{2DD4}\n\
ETHIOPIC SYLLABLE XYE:\u{2DD5}\n\
ETHIOPIC SYLLABLE XYO:\u{2DD6}\n\
ETHIOPIC SYLLABLE GYA:\u{2DD8}\n\
ETHIOPIC SYLLABLE GYU:\u{2DD9}\n\
ETHIOPIC SYLLABLE GYI:\u{2DDA}\n\
ETHIOPIC SYLLABLE GYAA:\u{2DDB}\n\
ETHIOPIC SYLLABLE GYEE:\u{2DDC}\n\
ETHIOPIC SYLLABLE GYE:\u{2DDD}\n\
ETHIOPIC SYLLABLE GYO:\u{2DDE}\n\
COMBINING CYRILLIC LETTER BE:\u{2DE0}\n\
COMBINING CYRILLIC LETTER VE:\u{2DE1}\n\
COMBINING CYRILLIC LETTER GHE:\u{2DE2}\n\
COMBINING CYRILLIC LETTER DE:\u{2DE3}\n\
COMBINING CYRILLIC LETTER ZHE:\u{2DE4}\n\
COMBINING CYRILLIC LETTER ZE:\u{2DE5}\n\
COMBINING CYRILLIC LETTER KA:\u{2DE6}\n\
COMBINING CYRILLIC LETTER EL:\u{2DE7}\n\
COMBINING CYRILLIC LETTER EM:\u{2DE8}\n\
COMBINING CYRILLIC LETTER EN:\u{2DE9}\n\
COMBINING CYRILLIC LETTER O:\u{2DEA}\n\
COMBINING CYRILLIC LETTER PE:\u{2DEB}\n\
COMBINING CYRILLIC LETTER ER:\u{2DEC}\n\
COMBINING CYRILLIC LETTER ES:\u{2DED}\n\
COMBINING CYRILLIC LETTER TE:\u{2DEE}\n\
COMBINING CYRILLIC LETTER HA:\u{2DEF}\n\
COMBINING CYRILLIC LETTER TSE:\u{2DF0}\n\
COMBINING CYRILLIC LETTER CHE:\u{2DF1}\n\
COMBINING CYRILLIC LETTER SHA:\u{2DF2}\n\
COMBINING CYRILLIC LETTER SHCHA:\u{2DF3}\n\
COMBINING CYRILLIC LETTER FITA:\u{2DF4}\n\
COMBINING CYRILLIC LETTER ES-TE:\u{2DF5}\n\
COMBINING CYRILLIC LETTER A:\u{2DF6}\n\
COMBINING CYRILLIC LETTER IE:\u{2DF7}\n\
COMBINING CYRILLIC LETTER DJERV:\u{2DF8}\n\
COMBINING CYRILLIC LETTER MONOGRAPH UK:\u{2DF9}\n\
COMBINING CYRILLIC LETTER YAT:\u{2DFA}\n\
COMBINING CYRILLIC LETTER YU:\u{2DFB}\n\
COMBINING CYRILLIC LETTER IOTIFIED A:\u{2DFC}\n\
COMBINING CYRILLIC LETTER LITTLE YUS:\u{2DFD}\n\
COMBINING CYRILLIC LETTER BIG YUS:\u{2DFE}\n\
COMBINING CYRILLIC LETTER IOTIFIED BIG YUS:\u{2DFF}\n\
RIGHT ANGLE SUBSTITUTION MARKER:\u{2E00}\n\
RIGHT ANGLE DOTTED SUBSTITUTION MARKER:\u{2E01}\n\
LEFT SUBSTITUTION BRACKET:\u{2E02}\n\
RIGHT SUBSTITUTION BRACKET:\u{2E03}\n\
LEFT DOTTED SUBSTITUTION BRACKET:\u{2E04}\n\
RIGHT DOTTED SUBSTITUTION BRACKET:\u{2E05}\n\
RAISED INTERPOLATION MARKER:\u{2E06}\n\
RAISED DOTTED INTERPOLATION MARKER:\u{2E07}\n\
DOTTED TRANSPOSITION MARKER:\u{2E08}\n\
LEFT TRANSPOSITION BRACKET:\u{2E09}\n\
RIGHT TRANSPOSITION BRACKET:\u{2E0A}\n\
RAISED SQUARE:\u{2E0B}\n\
LEFT RAISED OMISSION BRACKET:\u{2E0C}\n\
RIGHT RAISED OMISSION BRACKET:\u{2E0D}\n\
EDITORIAL CORONIS:\u{2E0E}\n\
PARAGRAPHOS:\u{2E0F}\n\
FORKED PARAGRAPHOS:\u{2E10}\n\
REVERSED FORKED PARAGRAPHOS:\u{2E11}\n\
HYPODIASTOLE:\u{2E12}\n\
DOTTED OBELOS:\u{2E13}\n\
DOWNWARDS ANCORA:\u{2E14}\n\
UPWARDS ANCORA:\u{2E15}\n\
DOTTED RIGHT-POINTING ANGLE:\u{2E16}\n\
DOUBLE OBLIQUE HYPHEN:\u{2E17}\n\
INVERTED INTERROBANG:\u{2E18}\n\
PALM BRANCH:\u{2E19}\n\
HYPHEN WITH DIAERESIS:\u{2E1A}\n\
TILDE WITH RING ABOVE:\u{2E1B}\n\
LEFT LOW PARAPHRASE BRACKET:\u{2E1C}\n\
RIGHT LOW PARAPHRASE BRACKET:\u{2E1D}\n\
TILDE WITH DOT ABOVE:\u{2E1E}\n\
TILDE WITH DOT BELOW:\u{2E1F}\n\
LEFT VERTICAL BAR WITH QUILL:\u{2E20}\n\
RIGHT VERTICAL BAR WITH QUILL:\u{2E21}\n\
TOP LEFT HALF BRACKET:\u{2E22}\n\
TOP RIGHT HALF BRACKET:\u{2E23}\n\
BOTTOM LEFT HALF BRACKET:\u{2E24}\n\
BOTTOM RIGHT HALF BRACKET:\u{2E25}\n\
LEFT SIDEWAYS U BRACKET:\u{2E26}\n\
RIGHT SIDEWAYS U BRACKET:\u{2E27}\n\
LEFT DOUBLE PARENTHESIS:\u{2E28}\n\
RIGHT DOUBLE PARENTHESIS:\u{2E29}\n\
TWO DOTS OVER ONE DOT PUNCTUATION:\u{2E2A}\n\
ONE DOT OVER TWO DOTS PUNCTUATION:\u{2E2B}\n\
SQUARED FOUR DOT PUNCTUATION:\u{2E2C}\n\
FIVE DOT MARK:\u{2E2D}\n\
REVERSED QUESTION MARK:\u{2E2E}\n\
VERTICAL TILDE:\u{2E2F}\n\
RING POINT:\u{2E30}\n\
WORD SEPARATOR MIDDLE DOT:\u{2E31}\n\
TURNED COMMA:\u{2E32}\n\
RAISED DOT:\u{2E33}\n\
RAISED COMMA:\u{2E34}\n\
TURNED SEMICOLON:\u{2E35}\n";

pub const NAMES_28: &'static str = "DAGGER WITH LEFT GUARD:\u{2E36}\n\
DAGGER WITH RIGHT GUARD:\u{2E37}\n\
TURNED DAGGER:\u{2E38}\n\
TOP HALF SECTION SIGN:\u{2E39}\n\
TWO-EM DASH:\u{2E3A}\n\
THREE-EM DASH:\u{2E3B}\n\
STENOGRAPHIC FULL STOP:\u{2E3C}\n\
VERTICAL SIX DOTS:\u{2E3D}\n\
WIGGLY VERTICAL LINE:\u{2E3E}\n\
CAPITULUM:\u{2E3F}\n\
DOUBLE HYPHEN:\u{2E40}\n\
REVERSED COMMA:\u{2E41}\n\
DOUBLE LOW-REVERSED-9 QUOTATION MARK:\u{2E42}\n\
DASH WITH LEFT UPTURN:\u{2E43}\n\
DOUBLE SUSPENSION MARK:\u{2E44}\n\
INVERTED LOW KAVYKA:\u{2E45}\n\
INVERTED LOW KAVYKA WITH KAVYKA ABOVE:\u{2E46}\n\
LOW KAVYKA:\u{2E47}\n\
LOW KAVYKA WITH DOT:\u{2E48}\n\
DOUBLE STACKED COMMA:\u{2E49}\n\
DOTTED SOLIDUS:\u{2E4A}\n\
TRIPLE DAGGER:\u{2E4B}\n\
MEDIEVAL COMMA:\u{2E4C}\n\
PARAGRAPHUS MARK:\u{2E4D}\n\
PUNCTUS ELEVATUS MARK:\u{2E4E}\n\
CORNISH VERSE DIVIDER:\u{2E4F}\n\
CROSS PATTY WITH RIGHT CROSSBAR:\u{2E50}\n\
CROSS PATTY WITH LEFT CROSSBAR:\u{2E51}\n\
TIRONIAN SIGN CAPITAL ET:\u{2E52}\n\
MEDIEVAL EXCLAMATION MARK:\u{2E53}\n\
MEDIEVAL QUESTION MARK:\u{2E54}\n\
LEFT SQUARE BRACKET WITH STROKE:\u{2E55}\n\
RIGHT SQUARE BRACKET WITH STROKE:\u{2E56}\n\
LEFT SQUARE BRACKET WITH DOUBLE STROKE:\u{2E57}\n\
RIGHT SQUARE BRACKET WITH DOUBLE STROKE:\u{2E58}\n\
TOP HALF LEFT PARENTHESIS:\u{2E59}\n\
TOP HALF RIGHT PARENTHESIS:\u{2E5A}\n\
BOTTOM HALF LEFT PARENTHESIS:\u{2E5B}\n\
BOTTOM HALF RIGHT PARENTHESIS:\u{2E5C}\n\
OBLIQUE HYPHEN:\u{2E5D}\n\
CJK RADICAL REPEAT:\u{2E80}\n\
CJK RADICAL CLIFF:\u{2E81}\n\
CJK RADICAL SECOND ONE:\u{2E82}\n\
CJK RADICAL SECOND TWO:\u{2E83}\n\
CJK RADICAL SECOND THREE:\u{2E84}\n\
CJK RADICAL PERSON:\u{2E85}\n\
CJK RADICAL BOX:\u{2E86}\n\
CJK RADICAL TABLE:\u{2E87}\n\
CJK RADICAL KNIFE ONE:\u{2E88}\n\
CJK RADICAL KNIFE TWO:\u{2E89}\n\
CJK RADICAL DIVINATION:\u{2E8A}\n\
CJK RADICAL SEAL:\u{2E8B}\n\
CJK RADICAL SMALL ONE:\u{2E8C}\n\
CJK RADICAL SMALL TWO:\u{2E8D}\n\
CJK RADICAL LAME ONE:\u{2E8E}\n\
CJK RADICAL LAME TWO:\u{2E8F}\n\
CJK RADICAL LAME THREE:\u{2E90}\n\
CJK RADICAL LAME FOUR:\u{2E91}\n\
CJK RADICAL SNAKE:\u{2E92}\n\
CJK RADICAL THREAD:\u{2E93}\n\
CJK RADICAL SNOUT ONE:\u{2E94}\n\
CJK RADICAL SNOUT TWO:\u{2E95}\n\
CJK RADICAL HEART ONE:\u{2E96}\n\
CJK RADICAL HEART TWO:\u{2E97}\n\
CJK RADICAL HAND:\u{2E98}\n\
CJK RADICAL RAP:\u{2E99}\n\
CJK RADICAL CHOKE:\u{2E9B}\n\
CJK RADICAL SUN:\u{2E9C}\n\
CJK RADICAL MOON:\u{2E9D}\n\
CJK RADICAL DEATH:\u{2E9E}\n\
CJK RADICAL MOTHER:\u{2E9F}\n\
CJK RADICAL CIVILIAN:\u{2EA0}\n\
CJK RADICAL WATER ONE:\u{2EA1}\n\
CJK RADICAL WATER TWO:\u{2EA2}\n\
CJK RADICAL FIRE:\u{2EA3}\n\
CJK RADICAL PAW ONE:\u{2EA4}\n\
CJK RADICAL PAW TWO:\u{2EA5}\n\
CJK RADICAL SIMPLIFIED HALF TREE TRUNK:\u{2EA6}\n\
CJK RADICAL COW:\u{2EA7}\n\
CJK RADICAL DOG:\u{2EA8}\n\
CJK RADICAL JADE:\u{2EA9}\n\
CJK RADICAL BOLT OF CLOTH:\u{2EAA}\n\
CJK RADICAL EYE:\u{2EAB}\n\
CJK RADICAL SPIRIT ONE:\u{2EAC}\n\
CJK RADICAL SPIRIT TWO:\u{2EAD}\n\
CJK RADICAL BAMBOO:\u{2EAE}\n\
CJK RADICAL SILK:\u{2EAF}\n\
CJK RADICAL C-SIMPLIFIED SILK:\u{2EB0}\n\
CJK RADICAL NET ONE:\u{2EB1}\n\
CJK RADICAL NET TWO:\u{2EB2}\n\
CJK RADICAL NET THREE:\u{2EB3}\n\
CJK RADICAL NET FOUR:\u{2EB4}\n\
CJK RADICAL MESH:\u{2EB5}\n\
CJK RADICAL SHEEP:\u{2EB6}\n\
CJK RADICAL RAM:\u{2EB7}\n\
CJK RADICAL EWE:\u{2EB8}\n\
CJK RADICAL OLD:\u{2EB9}\n\
CJK RADICAL BRUSH ONE:\u{2EBA}\n\
CJK RADICAL BRUSH TWO:\u{2EBB}\n\
CJK RADICAL MEAT:\u{2EBC}\n\
CJK RADICAL MORTAR:\u{2EBD}\n\
CJK RADICAL GRASS ONE:\u{2EBE}\n\
CJK RADICAL GRASS TWO:\u{2EBF}\n\
CJK RADICAL GRASS THREE:\u{2EC0}\n\
CJK RADICAL TIGER:\u{2EC1}\n\
CJK RADICAL CLOTHES:\u{2EC2}\n\
CJK RADICAL WEST ONE:\u{2EC3}\n\
CJK RADICAL WEST TWO:\u{2EC4}\n\
CJK RADICAL C-SIMPLIFIED SEE:\u{2EC5}\n\
CJK RADICAL SIMPLIFIED HORN:\u{2EC6}\n\
CJK RADICAL HORN:\u{2EC7}\n\
CJK RADICAL C-SIMPLIFIED SPEECH:\u{2EC8}\n\
CJK RADICAL C-SIMPLIFIED SHELL:\u{2EC9}\n\
CJK RADICAL FOOT:\u{2ECA}\n\
CJK RADICAL C-SIMPLIFIED CART:\u{2ECB}\n\
CJK RADICAL SIMPLIFIED WALK:\u{2ECC}\n\
CJK RADICAL WALK ONE:\u{2ECD}\n\
CJK RADICAL WALK TWO:\u{2ECE}\n\
CJK RADICAL CITY:\u{2ECF}\n\
CJK RADICAL C-SIMPLIFIED GOLD:\u{2ED0}\n\
CJK RADICAL LONG ONE:\u{2ED1}\n\
CJK RADICAL LONG TWO:\u{2ED2}\n\
CJK RADICAL C-SIMPLIFIED LONG:\u{2ED3}\n\
CJK RADICAL C-SIMPLIFIED GATE:\u{2ED4}\n\
CJK RADICAL MOUND ONE:\u{2ED5}\n\
CJK RADICAL MOUND TWO:\u{2ED6}\n\
CJK RADICAL RAIN:\u{2ED7}\n\
CJK RADICAL BLUE:\u{2ED8}\n\
CJK RADICAL C-SIMPLIFIED TANNED LEATHER:\u{2ED9}\n\
CJK RADICAL C-SIMPLIFIED LEAF:\u{2EDA}\n\
CJK RADICAL C-SIMPLIFIED WIND:\u{2EDB}\n\
CJK RADICAL C-SIMPLIFIED FLY:\u{2EDC}\n\
CJK RADICAL EAT ONE:\u{2EDD}\n\
CJK RADICAL EAT TWO:\u{2EDE}\n\
CJK RADICAL EAT THREE:\u{2EDF}\n\
CJK RADICAL C-SIMPLIFIED EAT:\u{2EE0}\n\
CJK RADICAL HEAD:\u{2EE1}\n\
CJK RADICAL C-SIMPLIFIED HORSE:\u{2EE2}\n\
CJK RADICAL BONE:\u{2EE3}\n\
CJK RADICAL GHOST:\u{2EE4}\n\
CJK RADICAL C-SIMPLIFIED FISH:\u{2EE5}\n\
CJK RADICAL C-SIMPLIFIED BIRD:\u{2EE6}\n\
CJK RADICAL C-SIMPLIFIED SALT:\u{2EE7}\n\
CJK RADICAL SIMPLIFIED WHEAT:\u{2EE8}\n\
CJK RADICAL SIMPLIFIED YELLOW:\u{2EE9}\n\
CJK RADICAL C-SIMPLIFIED FROG:\u{2EEA}\n\
CJK RADICAL J-SIMPLIFIED EVEN:\u{2EEB}\n\
CJK RADICAL C-SIMPLIFIED EVEN:\u{2EEC}\n\
CJK RADICAL J-SIMPLIFIED TOOTH:\u{2EED}\n\
CJK RADICAL C-SIMPLIFIED TOOTH:\u{2EEE}\n\
CJK RADICAL J-SIMPLIFIED DRAGON:\u{2EEF}\n\
CJK RADICAL C-SIMPLIFIED DRAGON:\u{2EF0}\n\
CJK RADICAL TURTLE:\u{2EF1}\n\
CJK RADICAL J-SIMPLIFIED TURTLE:\u{2EF2}\n\
CJK RADICAL C-SIMPLIFIED TURTLE:\u{2EF3}\n\
KANGXI RADICAL ONE:\u{2F00}\n\
KANGXI RADICAL LINE:\u{2F01}\n\
KANGXI RADICAL DOT:\u{2F02}\n\
KANGXI RADICAL SLASH:\u{2F03}\n\
KANGXI RADICAL SECOND:\u{2F04}\n\
KANGXI RADICAL HOOK:\u{2F05}\n\
KANGXI RADICAL TWO:\u{2F06}\n\
KANGXI RADICAL LID:\u{2F07}\n\
KANGXI RADICAL MAN:\u{2F08}\n\
KANGXI RADICAL LEGS:\u{2F09}\n\
KANGXI RADICAL ENTER:\u{2F0A}\n\
KANGXI RADICAL EIGHT:\u{2F0B}\n\
KANGXI RADICAL DOWN BOX:\u{2F0C}\n\
KANGXI RADICAL COVER:\u{2F0D}\n\
KANGXI RADICAL ICE:\u{2F0E}\n\
KANGXI RADICAL TABLE:\u{2F0F}\n\
KANGXI RADICAL OPEN BOX:\u{2F10}\n\
KANGXI RADICAL KNIFE:\u{2F11}\n\
KANGXI RADICAL POWER:\u{2F12}\n\
KANGXI RADICAL WRAP:\u{2F13}\n\
KANGXI RADICAL SPOON:\u{2F14}\n\
KANGXI RADICAL RIGHT OPEN BOX:\u{2F15}\n\
KANGXI RADICAL HIDING ENCLOSURE:\u{2F16}\n\
KANGXI RADICAL TEN:\u{2F17}\n\
KANGXI RADICAL DIVINATION:\u{2F18}\n\
KANGXI RADICAL SEAL:\u{2F19}\n\
KANGXI RADICAL CLIFF:\u{2F1A}\n\
KANGXI RADICAL PRIVATE:\u{2F1B}\n\
KANGXI RADICAL AGAIN:\u{2F1C}\n\
KANGXI RADICAL MOUTH:\u{2F1D}\n\
KANGXI RADICAL ENCLOSURE:\u{2F1E}\n\
KANGXI RADICAL EARTH:\u{2F1F}\n\
KANGXI RADICAL SCHOLAR:\u{2F20}\n\
KANGXI RADICAL GO:\u{2F21}\n\
KANGXI RADICAL GO SLOWLY:\u{2F22}\n\
KANGXI RADICAL EVENING:\u{2F23}\n\
KANGXI RADICAL BIG:\u{2F24}\n\
KANGXI RADICAL WOMAN:\u{2F25}\n\
KANGXI RADICAL CHILD:\u{2F26}\n\
KANGXI RADICAL ROOF:\u{2F27}\n\
KANGXI RADICAL INCH:\u{2F28}\n\
KANGXI RADICAL SMALL:\u{2F29}\n\
KANGXI RADICAL LAME:\u{2F2A}\n\
KANGXI RADICAL CORPSE:\u{2F2B}\n\
KANGXI RADICAL SPROUT:\u{2F2C}\n\
KANGXI RADICAL MOUNTAIN:\u{2F2D}\n\
KANGXI RADICAL RIVER:\u{2F2E}\n\
KANGXI RADICAL WORK:\u{2F2F}\n\
KANGXI RADICAL ONESELF:\u{2F30}\n\
KANGXI RADICAL TURBAN:\u{2F31}\n\
KANGXI RADICAL DRY:\u{2F32}\n\
KANGXI RADICAL SHORT THREAD:\u{2F33}\n\
KANGXI RADICAL DOTTED CLIFF:\u{2F34}\n\
KANGXI RADICAL LONG STRIDE:\u{2F35}\n\
KANGXI RADICAL TWO HANDS:\u{2F36}\n\
KANGXI RADICAL SHOOT:\u{2F37}\n\
KANGXI RADICAL BOW:\u{2F38}\n\
KANGXI RADICAL SNOUT:\u{2F39}\n\
KANGXI RADICAL BRISTLE:\u{2F3A}\n\
KANGXI RADICAL STEP:\u{2F3B}\n\
KANGXI RADICAL HEART:\u{2F3C}\n\
KANGXI RADICAL HALBERD:\u{2F3D}\n\
KANGXI RADICAL DOOR:\u{2F3E}\n\
KANGXI RADICAL HAND:\u{2F3F}\n\
KANGXI RADICAL BRANCH:\u{2F40}\n\
KANGXI RADICAL RAP:\u{2F41}\n\
KANGXI RADICAL SCRIPT:\u{2F42}\n\
KANGXI RADICAL DIPPER:\u{2F43}\n\
KANGXI RADICAL AXE:\u{2F44}\n\
KANGXI RADICAL SQUARE:\u{2F45}\n\
KANGXI RADICAL NOT:\u{2F46}\n\
KANGXI RADICAL SUN:\u{2F47}\n\
KANGXI RADICAL SAY:\u{2F48}\n\
KANGXI RADICAL MOON:\u{2F49}\n\
KANGXI RADICAL TREE:\u{2F4A}\n\
KANGXI RADICAL LACK:\u{2F4B}\n\
KANGXI RADICAL STOP:\u{2F4C}\n\
KANGXI RADICAL DEATH:\u{2F4D}\n\
KANGXI RADICAL WEAPON:\u{2F4E}\n\
KANGXI RADICAL DO NOT:\u{2F4F}\n\
KANGXI RADICAL COMPARE:\u{2F50}\n\
KANGXI RADICAL FUR:\u{2F51}\n\
KANGXI RADICAL CLAN:\u{2F52}\n\
KANGXI RADICAL STEAM:\u{2F53}\n\
KANGXI RADICAL WATER:\u{2F54}\n\
KANGXI RADICAL FIRE:\u{2F55}\n\
KANGXI RADICAL CLAW:\u{2F56}\n\
KANGXI RADICAL FATHER:\u{2F57}\n\
KANGXI RADICAL DOUBLE X:\u{2F58}\n\
KANGXI RADICAL HALF TREE TRUNK:\u{2F59}\n\
KANGXI RADICAL SLICE:\u{2F5A}\n\
KANGXI RADICAL FANG:\u{2F5B}\n\
KANGXI RADICAL COW:\u{2F5C}\n\
KANGXI RADICAL DOG:\u{2F5D}\n\
KANGXI RADICAL PROFOUND:\u{2F5E}\n\
KANGXI RADICAL JADE:\u{2F5F}\n\
KANGXI RADICAL MELON:\u{2F60}\n\
KANGXI RADICAL TILE:\u{2F61}\n\
KANGXI RADICAL SWEET:\u{2F62}\n\
KANGXI RADICAL LIFE:\u{2F63}\n\
KANGXI RADICAL USE:\u{2F64}\n\
KANGXI RADICAL FIELD:\u{2F65}\n\
KANGXI RADICAL BOLT OF CLOTH:\u{2F66}\n\
KANGXI RADICAL SICKNESS:\u{2F67}\n\
KANGXI RADICAL DOTTED TENT:\u{2F68}\n\
KANGXI RADICAL WHITE:\u{2F69}\n\
KANGXI RADICAL SKIN:\u{2F6A}\n\
KANGXI RADICAL DISH:\u{2F6B}\n\
KANGXI RADICAL EYE:\u{2F6C}\n\
KANGXI RADICAL SPEAR:\u{2F6D}\n\
KANGXI RADICAL ARROW:\u{2F6E}\n\
KANGXI RADICAL STONE:\u{2F6F}\n\
KANGXI RADICAL SPIRIT:\u{2F70}\n\
KANGXI RADICAL TRACK:\u{2F71}\n\
KANGXI RADICAL GRAIN:\u{2F72}\n\
KANGXI RADICAL CAVE:\u{2F73}\n\
KANGXI RADICAL STAND:\u{2F74}\n\
KANGXI RADICAL BAMBOO:\u{2F75}\n\
KANGXI RADICAL RICE:\u{2F76}\n\
KANGXI RADICAL SILK:\u{2F77}\n\
KANGXI RADICAL JAR:\u{2F78}\n\
KANGXI RADICAL NET:\u{2F79}\n\
KANGXI RADICAL SHEEP:\u{2F7A}\n\
KANGXI RADICAL FEATHER:\u{2F7B}\n\
KANGXI RADICAL OLD:\u{2F7C}\n\
KANGXI RADICAL AND:\u{2F7D}\n\
KANGXI RADICAL PLOW:\u{2F7E}\n\
KANGXI RADICAL EAR:\u{2F7F}\n\
KANGXI RADICAL BRUSH:\u{2F80}\n\
KANGXI RADICAL MEAT:\u{2F81}\n\
KANGXI RADICAL MINISTER:\u{2F82}\n\
KANGXI RADICAL SELF:\u{2F83}\n\
KANGXI RADICAL ARRIVE:\u{2F84}\n\
KANGXI RADICAL MORTAR:\u{2F85}\n\
KANGXI RADICAL TONGUE:\u{2F86}\n\
KANGXI RADICAL OPPOSE:\u{2F87}\n\
KANGXI RADICAL BOAT:\u{2F88}\n\
KANGXI RADICAL STOPPING:\u{2F89}\n\
KANGXI RADICAL COLOR:\u{2F8A}\n\
KANGXI RADICAL GRASS:\u{2F8B}\n\
KANGXI RADICAL TIGER:\u{2F8C}\n\
KANGXI RADICAL INSECT:\u{2F8D}\n\
KANGXI RADICAL BLOOD:\u{2F8E}\n\
KANGXI RADICAL WALK ENCLOSURE:\u{2F8F}\n\
KANGXI RADICAL CLOTHES:\u{2F90}\n\
KANGXI RADICAL WEST:\u{2F91}\n\
KANGXI RADICAL SEE:\u{2F92}\n\
KANGXI RADICAL HORN:\u{2F93}\n\
KANGXI RADICAL SPEECH:\u{2F94}\n\
KANGXI RADICAL VALLEY:\u{2F95}\n\
KANGXI RADICAL BEAN:\u{2F96}\n\
KANGXI RADICAL PIG:\u{2F97}\n\
KANGXI RADICAL BADGER:\u{2F98}\n\
KANGXI RADICAL SHELL:\u{2F99}\n\
KANGXI RADICAL RED:\u{2F9A}\n\
KANGXI RADICAL RUN:\u{2F9B}\n\
KANGXI RADICAL FOOT:\u{2F9C}\n\
KANGXI RADICAL BODY:\u{2F9D}\n\
KANGXI RADICAL CART:\u{2F9E}\n\
KANGXI RADICAL BITTER:\u{2F9F}\n\
KANGXI RADICAL MORNING:\u{2FA0}\n\
KANGXI RADICAL WALK:\u{2FA1}\n\
KANGXI RADICAL CITY:\u{2FA2}\n\
KANGXI RADICAL WINE:\u{2FA3}\n\
KANGXI RADICAL DISTINGUISH:\u{2FA4}\n\
KANGXI RADICAL VILLAGE:\u{2FA5}\n\
KANGXI RADICAL GOLD:\u{2FA6}\n\
KANGXI RADICAL LONG:\u{2FA7}\n\
KANGXI RADICAL GATE:\u{2FA8}\n\
KANGXI RADICAL MOUND:\u{2FA9}\n\
KANGXI RADICAL SLAVE:\u{2FAA}\n\
KANGXI RADICAL SHORT TAILED BIRD:\u{2FAB}\n\
KANGXI RADICAL RAIN:\u{2FAC}\n\
KANGXI RADICAL BLUE:\u{2FAD}\n\
KANGXI RADICAL WRONG:\u{2FAE}\n\
KANGXI RADICAL FACE:\u{2FAF}\n\
KANGXI RADICAL LEATHER:\u{2FB0}\n\
KANGXI RADICAL TANNED LEATHER:\u{2FB1}\n\
KANGXI RADICAL LEEK:\u{2FB2}\n\
KANGXI RADICAL SOUND:\u{2FB3}\n\
KANGXI RADICAL LEAF:\u{2FB4}\n\
KANGXI RADICAL WIND:\u{2FB5}\n\
KANGXI RADICAL FLY:\u{2FB6}\n\
KANGXI RADICAL EAT:\u{2FB7}\n\
KANGXI RADICAL HEAD:\u{2FB8}\n\
KANGXI RADICAL FRAGRANT:\u{2FB9}\n\
KANGXI RADICAL HORSE:\u{2FBA}\n\
KANGXI RADICAL BONE:\u{2FBB}\n\
KANGXI RADICAL TALL:\u{2FBC}\n\
KANGXI RADICAL HAIR:\u{2FBD}\n\
KANGXI RADICAL FIGHT:\u{2FBE}\n\
KANGXI RADICAL SACRIFICIAL WINE:\u{2FBF}\n\
KANGXI RADICAL CAULDRON:\u{2FC0}\n\
KANGXI RADICAL GHOST:\u{2FC1}\n\
KANGXI RADICAL FISH:\u{2FC2}\n\
KANGXI RADICAL BIRD:\u{2FC3}\n\
KANGXI RADICAL SALT:\u{2FC4}\n\
KANGXI RADICAL DEER:\u{2FC5}\n\
KANGXI RADICAL WHEAT:\u{2FC6}\n\
KANGXI RADICAL HEMP:\u{2FC7}\n\
KANGXI RADICAL YELLOW:\u{2FC8}\n\
KANGXI RADICAL MILLET:\u{2FC9}\n\
KANGXI RADICAL BLACK:\u{2FCA}\n\
KANGXI RADICAL EMBROIDERY:\u{2FCB}\n\
KANGXI RADICAL FROG:\u{2FCC}\n\
KANGXI RADICAL TRIPOD:\u{2FCD}\n\
KANGXI RADICAL DRUM:\u{2FCE}\n\
KANGXI RADICAL RAT:\u{2FCF}\n\
KANGXI RADICAL NOSE:\u{2FD0}\n\
KANGXI RADICAL EVEN:\u{2FD1}\n\
KANGXI RADICAL TOOTH:\u{2FD2}\n\
KANGXI RADICAL DRAGON:\u{2FD3}\n\
KANGXI RADICAL TURTLE:\u{2FD4}\n\
KANGXI RADICAL FLUTE:\u{2FD5}\n\
IDEOGRAPHIC DESCRIPTION CHARACTER LEFT TO RIGHT:\u{2FF0}\n\
IDEOGRAPHIC DESCRIPTION CHARACTER ABOVE TO BELOW:\u{2FF1}\n\
IDEOGRAPHIC DESCRIPTION CHARACTER LEFT TO MIDDLE AND RIGHT:\u{2FF2}\n\
IDEOGRAPHIC DESCRIPTION CHARACTER ABOVE TO MIDDLE AND BELOW:\u{2FF3}\n\
IDEOGRAPHIC DESCRIPTION CHARACTER FULL SURROUND:\u{2FF4}\n\
IDEOGRAPHIC DESCRIPTION CHARACTER SURROUND FROM ABOVE:\u{2FF5}\n\
IDEOGRAPHIC DESCRIPTION CHARACTER SURROUND FROM BELOW:\u{2FF6}\n\
IDEOGRAPHIC DESCRIPTION CHARACTER SURROUND FROM LEFT:\u{2FF7}\n\
IDEOGRAPHIC DESCRIPTION CHARACTER SURROUND FROM UPPER LEFT:\u{2FF8}\n\
IDEOGRAPHIC DESCRIPTION CHARACTER SURROUND FROM UPPER RIGHT:\u{2FF9}\n\
IDEOGRAPHIC DESCRIPTION CHARACTER SURROUND FROM LOWER LEFT:\u{2FFA}\n\
IDEOGRAPHIC DESCRIPTION CHARACTER OVERLAID:\u{2FFB}\n\
IDEOGRAPHIC SPACE:\u{3000}\n\
IDEOGRAPHIC COMMA:\u{3001}\n\
IDEOGRAPHIC FULL STOP:\u{3002}\n\
DITTO MARK:\u{3003}\n\
JAPANESE INDUSTRIAL STANDARD SYMBOL:\u{3004}\n\
IDEOGRAPHIC ITERATION MARK:\u{3005}\n\
IDEOGRAPHIC CLOSING MARK:\u{3006}\n\
IDEOGRAPHIC NUMBER ZERO:\u{3007}\n\
LEFT ANGLE BRACKET:\u{3008}\n\
RIGHT ANGLE BRACKET:\u{3009}\n\
LEFT DOUBLE ANGLE BRACKET:\u{300A}\n\
RIGHT DOUBLE ANGLE BRACKET:\u{300B}\n\
LEFT CORNER BRACKET:\u{300C}\n\
RIGHT CORNER BRACKET:\u{300D}\n\
LEFT WHITE CORNER BRACKET:\u{300E}\n\
RIGHT WHITE CORNER BRACKET:\u{300F}\n\
LEFT BLACK LENTICULAR BRACKET:\u{3010}\n\
RIGHT BLACK LENTICULAR BRACKET:\u{3011}\n\
POSTAL MARK:\u{3012}\n\
GETA MARK:\u{3013}\n\
LEFT TORTOISE SHELL BRACKET:\u{3014}\n\
RIGHT TORTOISE SHELL BRACKET:\u{3015}\n\
LEFT WHITE LENTICULAR BRACKET:\u{3016}\n\
RIGHT WHITE LENTICULAR BRACKET:\u{3017}\n\
LEFT WHITE TORTOISE SHELL BRACKET:\u{3018}\n\
RIGHT WHITE TORTOISE SHELL BRACKET:\u{3019}\n\
LEFT WHITE SQUARE BRACKET:\u{301A}\n\
RIGHT WHITE SQUARE BRACKET:\u{301B}\n\
WAVE DASH:\u{301C}\n\
REVERSED DOUBLE PRIME QUOTATION MARK:\u{301D}\n\
DOUBLE PRIME QUOTATION MARK:\u{301E}\n\
LOW DOUBLE PRIME QUOTATION MARK:\u{301F}\n\
POSTAL MARK FACE:\u{3020}\n\
HANGZHOU NUMERAL ONE:\u{3021}\n\
HANGZHOU NUMERAL TWO:\u{3022}\n\
HANGZHOU NUMERAL THREE:\u{3023}\n\
HANGZHOU NUMERAL FOUR:\u{3024}\n\
HANGZHOU NUMERAL FIVE:\u{3025}\n\
HANGZHOU NUMERAL SIX:\u{3026}\n\
HANGZHOU NUMERAL SEVEN:\u{3027}\n\
HANGZHOU NUMERAL EIGHT:\u{3028}\n\
HANGZHOU NUMERAL NINE:\u{3029}\n\
IDEOGRAPHIC LEVEL TONE MARK:\u{302A}\n\
IDEOGRAPHIC RISING TONE MARK:\u{302B}\n\
IDEOGRAPHIC DEPARTING TONE MARK:\u{302C}\n";

pub const NAMES_29: &'static str = "IDEOGRAPHIC ENTERING TONE MARK:\u{302D}\n\
HANGUL SINGLE DOT TONE MARK:\u{302E}\n\
HANGUL DOUBLE DOT TONE MARK:\u{302F}\n\
WAVY DASH:\u{3030}\n\
VERTICAL KANA REPEAT MARK:\u{3031}\n\
VERTICAL KANA REPEAT WITH VOICED SOUND MARK:\u{3032}\n\
VERTICAL KANA REPEAT MARK UPPER HALF:\u{3033}\n\
VERTICAL KANA REPEAT WITH VOICED SOUND MARK UPPER HALF:\u{3034}\n\
VERTICAL KANA REPEAT MARK LOWER HALF:\u{3035}\n\
CIRCLED POSTAL MARK:\u{3036}\n\
IDEOGRAPHIC TELEGRAPH LINE FEED SEPARATOR SYMBOL:\u{3037}\n\
HANGZHOU NUMERAL TEN:\u{3038}\n\
HANGZHOU NUMERAL TWENTY:\u{3039}\n\
HANGZHOU NUMERAL THIRTY:\u{303A}\n\
VERTICAL IDEOGRAPHIC ITERATION MARK:\u{303B}\n\
MASU MARK:\u{303C}\n\
PART ALTERNATION MARK:\u{303D}\n\
IDEOGRAPHIC VARIATION INDICATOR:\u{303E}\n\
IDEOGRAPHIC HALF FILL SPACE:\u{303F}\n\
HIRAGANA LETTER SMALL A:\u{3041}\n\
HIRAGANA LETTER A:\u{3042}\n\
HIRAGANA LETTER SMALL I:\u{3043}\n\
HIRAGANA LETTER I:\u{3044}\n\
HIRAGANA LETTER SMALL U:\u{3045}\n\
HIRAGANA LETTER U:\u{3046}\n\
HIRAGANA LETTER SMALL E:\u{3047}\n\
HIRAGANA LETTER E:\u{3048}\n\
HIRAGANA LETTER SMALL O:\u{3049}\n\
HIRAGANA LETTER O:\u{304A}\n\
HIRAGANA LETTER KA:\u{304B}\n\
HIRAGANA LETTER GA:\u{304C}\n\
HIRAGANA LETTER KI:\u{304D}\n\
HIRAGANA LETTER GI:\u{304E}\n\
HIRAGANA LETTER KU:\u{304F}\n\
HIRAGANA LETTER GU:\u{3050}\n\
HIRAGANA LETTER KE:\u{3051}\n\
HIRAGANA LETTER GE:\u{3052}\n\
HIRAGANA LETTER KO:\u{3053}\n\
HIRAGANA LETTER GO:\u{3054}\n\
HIRAGANA LETTER SA:\u{3055}\n\
HIRAGANA LETTER ZA:\u{3056}\n\
HIRAGANA LETTER SI:\u{3057}\n\
HIRAGANA LETTER ZI:\u{3058}\n\
HIRAGANA LETTER SU:\u{3059}\n\
HIRAGANA LETTER ZU:\u{305A}\n\
HIRAGANA LETTER SE:\u{305B}\n\
HIRAGANA LETTER ZE:\u{305C}\n\
HIRAGANA LETTER SO:\u{305D}\n\
HIRAGANA LETTER ZO:\u{305E}\n\
HIRAGANA LETTER TA:\u{305F}\n\
HIRAGANA LETTER DA:\u{3060}\n\
HIRAGANA LETTER TI:\u{3061}\n\
HIRAGANA LETTER DI:\u{3062}\n\
HIRAGANA LETTER SMALL TU:\u{3063}\n\
HIRAGANA LETTER TU:\u{3064}\n\
HIRAGANA LETTER DU:\u{3065}\n\
HIRAGANA LETTER TE:\u{3066}\n\
HIRAGANA LETTER DE:\u{3067}\n\
HIRAGANA LETTER TO:\u{3068}\n\
HIRAGANA LETTER DO:\u{3069}\n\
HIRAGANA LETTER NA:\u{306A}\n\
HIRAGANA LETTER NI:\u{306B}\n\
HIRAGANA LETTER NU:\u{306C}\n\
HIRAGANA LETTER NE:\u{306D}\n\
HIRAGANA LETTER NO:\u{306E}\n\
HIRAGANA LETTER HA:\u{306F}\n\
HIRAGANA LETTER BA:\u{3070}\n\
HIRAGANA LETTER PA:\u{3071}\n\
HIRAGANA LETTER HI:\u{3072}\n\
HIRAGANA LETTER BI:\u{3073}\n\
HIRAGANA LETTER PI:\u{3074}\n\
HIRAGANA LETTER HU:\u{3075}\n\
HIRAGANA LETTER BU:\u{3076}\n\
HIRAGANA LETTER PU:\u{3077}\n\
HIRAGANA LETTER HE:\u{3078}\n\
HIRAGANA LETTER BE:\u{3079}\n\
HIRAGANA LETTER PE:\u{307A}\n\
HIRAGANA LETTER HO:\u{307B}\n\
HIRAGANA LETTER BO:\u{307C}\n\
HIRAGANA LETTER PO:\u{307D}\n\
HIRAGANA LETTER MA:\u{307E}\n\
HIRAGANA LETTER MI:\u{307F}\n\
HIRAGANA LETTER MU:\u{3080}\n\
HIRAGANA LETTER ME:\u{3081}\n\
HIRAGANA LETTER MO:\u{3082}\n\
HIRAGANA LETTER SMALL YA:\u{3083}\n\
HIRAGANA LETTER YA:\u{3084}\n\
HIRAGANA LETTER SMALL YU:\u{3085}\n\
HIRAGANA LETTER YU:\u{3086}\n\
HIRAGANA LETTER SMALL YO:\u{3087}\n\
HIRAGANA LETTER YO:\u{3088}\n\
HIRAGANA LETTER RA:\u{3089}\n\
HIRAGANA LETTER RI:\u{308A}\n\
HIRAGANA LETTER RU:\u{308B}\n\
HIRAGANA LETTER RE:\u{308C}\n\
HIRAGANA LETTER RO:\u{308D}\n\
HIRAGANA LETTER SMALL WA:\u{308E}\n\
HIRAGANA LETTER WA:\u{308F}\n\
HIRAGANA LETTER WI:\u{3090}\n\
HIRAGANA LETTER WE:\u{3091}\n\
HIRAGANA LETTER WO:\u{3092}\n\
HIRAGANA LETTER N:\u{3093}\n\
HIRAGANA LETTER VU:\u{3094}\n\
HIRAGANA LETTER SMALL KA:\u{3095}\n\
HIRAGANA LETTER SMALL KE:\u{3096}\n\
COMBINING KATAKANA-HIRAGANA VOICED SOUND MARK:\u{3099}\n\
COMBINING KATAKANA-HIRAGANA SEMI-VOICED SOUND MARK:\u{309A}\n\
KATAKANA-HIRAGANA VOICED SOUND MARK:\u{309B}\n\
KATAKANA-HIRAGANA SEMI-VOICED SOUND MARK:\u{309C}\n\
HIRAGANA ITERATION MARK:\u{309D}\n\
HIRAGANA VOICED ITERATION MARK:\u{309E}\n\
HIRAGANA DIGRAPH YORI:\u{309F}\n\
KATAKANA-HIRAGANA DOUBLE HYPHEN:\u{30A0}\n\
KATAKANA LETTER SMALL A:\u{30A1}\n\
KATAKANA LETTER A:\u{30A2}\n\
KATAKANA LETTER SMALL I:\u{30A3}\n\
KATAKANA LETTER I:\u{30A4}\n\
KATAKANA LETTER SMALL U:\u{30A5}\n\
KATAKANA LETTER U:\u{30A6}\n\
KATAKANA LETTER SMALL E:\u{30A7}\n\
KATAKANA LETTER E:\u{30A8}\n\
KATAKANA LETTER SMALL O:\u{30A9}\n\
KATAKANA LETTER O:\u{30AA}\n\
KATAKANA LETTER KA:\u{30AB}\n\
KATAKANA LETTER GA:\u{30AC}\n\
KATAKANA LETTER KI:\u{30AD}\n\
KATAKANA LETTER GI:\u{30AE}\n\
KATAKANA LETTER KU:\u{30AF}\n\
KATAKANA LETTER GU:\u{30B0}\n\
KATAKANA LETTER KE:\u{30B1}\n\
KATAKANA LETTER GE:\u{30B2}\n\
KATAKANA LETTER KO:\u{30B3}\n\
KATAKANA LETTER GO:\u{30B4}\n\
KATAKANA LETTER SA:\u{30B5}\n\
KATAKANA LETTER ZA:\u{30B6}\n\
KATAKANA LETTER SI:\u{30B7}\n\
KATAKANA LETTER ZI:\u{30B8}\n\
KATAKANA LETTER SU:\u{30B9}\n\
KATAKANA LETTER ZU:\u{30BA}\n\
KATAKANA LETTER SE:\u{30BB}\n\
KATAKANA LETTER ZE:\u{30BC}\n\
KATAKANA LETTER SO:\u{30BD}\n\
KATAKANA LETTER ZO:\u{30BE}\n\
KATAKANA LETTER TA:\u{30BF}\n\
KATAKANA LETTER DA:\u{30C0}\n\
KATAKANA LETTER TI:\u{30C1}\n\
KATAKANA LETTER DI:\u{30C2}\n\
KATAKANA LETTER SMALL TU:\u{30C3}\n\
KATAKANA LETTER TU:\u{30C4}\n\
KATAKANA LETTER DU:\u{30C5}\n\
KATAKANA LETTER TE:\u{30C6}\n\
KATAKANA LETTER DE:\u{30C7}\n\
KATAKANA LETTER TO:\u{30C8}\n\
KATAKANA LETTER DO:\u{30C9}\n\
KATAKANA LETTER NA:\u{30CA}\n\
KATAKANA LETTER NI:\u{30CB}\n\
KATAKANA LETTER NU:\u{30CC}\n\
KATAKANA LETTER NE:\u{30CD}\n\
KATAKANA LETTER NO:\u{30CE}\n\
KATAKANA LETTER HA:\u{30CF}\n\
KATAKANA LETTER BA:\u{30D0}\n\
KATAKANA LETTER PA:\u{30D1}\n\
KATAKANA LETTER HI:\u{30D2}\n\
KATAKANA LETTER BI:\u{30D3}\n\
KATAKANA LETTER PI:\u{30D4}\n\
KATAKANA LETTER HU:\u{30D5}\n\
KATAKANA LETTER BU:\u{30D6}\n\
KATAKANA LETTER PU:\u{30D7}\n\
KATAKANA LETTER HE:\u{30D8}\n\
KATAKANA LETTER BE:\u{30D9}\n\
KATAKANA LETTER PE:\u{30DA}\n\
KATAKANA LETTER HO:\u{30DB}\n\
KATAKANA LETTER BO:\u{30DC}\n\
KATAKANA LETTER PO:\u{30DD}\n\
KATAKANA LETTER MA:\u{30DE}\n\
KATAKANA LETTER MI:\u{30DF}\n\
KATAKANA LETTER MU:\u{30E0}\n\
KATAKANA LETTER ME:\u{30E1}\n\
KATAKANA LETTER MO:\u{30E2}\n\
KATAKANA LETTER SMALL YA:\u{30E3}\n\
KATAKANA LETTER YA:\u{30E4}\n\
KATAKANA LETTER SMALL YU:\u{30E5}\n\
KATAKANA LETTER YU:\u{30E6}\n\
KATAKANA LETTER SMALL YO:\u{30E7}\n\
KATAKANA LETTER YO:\u{30E8}\n\
KATAKANA LETTER RA:\u{30E9}\n\
KATAKANA LETTER RI:\u{30EA}\n\
KATAKANA LETTER RU:\u{30EB}\n\
KATAKANA LETTER RE:\u{30EC}\n\
KATAKANA LETTER RO:\u{30ED}\n\
KATAKANA LETTER SMALL WA:\u{30EE}\n\
KATAKANA LETTER WA:\u{30EF}\n\
KATAKANA LETTER WI:\u{30F0}\n\
KATAKANA LETTER WE:\u{30F1}\n\
KATAKANA LETTER WO:\u{30F2}\n\
KATAKANA LETTER N:\u{30F3}\n\
KATAKANA LETTER VU:\u{30F4}\n\
KATAKANA LETTER SMALL KA:\u{30F5}\n\
KATAKANA LETTER SMALL KE:\u{30F6}\n\
KATAKANA LETTER VA:\u{30F7}\n\
KATAKANA LETTER VI:\u{30F8}\n\
KATAKANA LETTER VE:\u{30F9}\n\
KATAKANA LETTER VO:\u{30FA}\n\
KATAKANA MIDDLE DOT:\u{30FB}\n\
KATAKANA-HIRAGANA PROLONGED SOUND MARK:\u{30FC}\n\
KATAKANA ITERATION MARK:\u{30FD}\n\
KATAKANA VOICED ITERATION MARK:\u{30FE}\n\
KATAKANA DIGRAPH KOTO:\u{30FF}\n\
BOPOMOFO LETTER B:\u{3105}\n\
BOPOMOFO LETTER P:\u{3106}\n\
BOPOMOFO LETTER M:\u{3107}\n\
BOPOMOFO LETTER F:\u{3108}\n\
BOPOMOFO LETTER D:\u{3109}\n\
BOPOMOFO LETTER T:\u{310A}\n\
BOPOMOFO LETTER N:\u{310B}\n\
BOPOMOFO LETTER L:\u{310C}\n\
BOPOMOFO LETTER G:\u{310D}\n\
BOPOMOFO LETTER K:\u{310E}\n\
BOPOMOFO LETTER H:\u{310F}\n\
BOPOMOFO LETTER J:\u{3110}\n\
BOPOMOFO LETTER Q:\u{3111}\n\
BOPOMOFO LETTER X:\u{3112}\n\
BOPOMOFO LETTER ZH:\u{3113}\n\
BOPOMOFO LETTER CH:\u{3114}\n\
BOPOMOFO LETTER SH:\u{3115}\n\
BOPOMOFO LETTER R:\u{3116}\n\
BOPOMOFO LETTER Z:\u{3117}\n\
BOPOMOFO LETTER C:\u{3118}\n\
BOPOMOFO LETTER S:\u{3119}\n\
BOPOMOFO LETTER A:\u{311A}\n\
BOPOMOFO LETTER O:\u{311B}\n\
BOPOMOFO LETTER E:\u{311C}\n\
BOPOMOFO LETTER EH:\u{311D}\n\
BOPOMOFO LETTER AI:\u{311E}\n\
BOPOMOFO LETTER EI:\u{311F}\n\
BOPOMOFO LETTER AU:\u{3120}\n\
BOPOMOFO LETTER OU:\u{3121}\n\
BOPOMOFO LETTER AN:\u{3122}\n\
BOPOMOFO LETTER EN:\u{3123}\n\
BOPOMOFO LETTER ANG:\u{3124}\n\
BOPOMOFO LETTER ENG:\u{3125}\n\
BOPOMOFO LETTER ER:\u{3126}\n\
BOPOMOFO LETTER I:\u{3127}\n\
BOPOMOFO LETTER U:\u{3128}\n\
BOPOMOFO LETTER IU:\u{3129}\n\
BOPOMOFO LETTER V:\u{312A}\n\
BOPOMOFO LETTER NG:\u{312B}\n\
BOPOMOFO LETTER GN:\u{312C}\n\
BOPOMOFO LETTER IH:\u{312D}\n\
BOPOMOFO LETTER O WITH DOT ABOVE:\u{312E}\n\
BOPOMOFO LETTER NN:\u{312F}\n\
HANGUL LETTER KIYEOK:\u{3131}\n\
HANGUL LETTER SSANGKIYEOK:\u{3132}\n\
HANGUL LETTER KIYEOK-SIOS:\u{3133}\n\
HANGUL LETTER NIEUN:\u{3134}\n\
HANGUL LETTER NIEUN-CIEUC:\u{3135}\n\
HANGUL LETTER NIEUN-HIEUH:\u{3136}\n\
HANGUL LETTER TIKEUT:\u{3137}\n\
HANGUL LETTER SSANGTIKEUT:\u{3138}\n\
HANGUL LETTER RIEUL:\u{3139}\n\
HANGUL LETTER RIEUL-KIYEOK:\u{313A}\n\
HANGUL LETTER RIEUL-MIEUM:\u{313B}\n\
HANGUL LETTER RIEUL-PIEUP:\u{313C}\n\
HANGUL LETTER RIEUL-SIOS:\u{313D}\n\
HANGUL LETTER RIEUL-THIEUTH:\u{313E}\n\
HANGUL LETTER RIEUL-PHIEUPH:\u{313F}\n\
HANGUL LETTER RIEUL-HIEUH:\u{3140}\n\
HANGUL LETTER MIEUM:\u{3141}\n\
HANGUL LETTER PIEUP:\u{3142}\n\
HANGUL LETTER SSANGPIEUP:\u{3143}\n\
HANGUL LETTER PIEUP-SIOS:\u{3144}\n\
HANGUL LETTER SIOS:\u{3145}\n\
HANGUL LETTER SSANGSIOS:\u{3146}\n\
HANGUL LETTER IEUNG:\u{3147}\n\
HANGUL LETTER CIEUC:\u{3148}\n\
HANGUL LETTER SSANGCIEUC:\u{3149}\n\
HANGUL LETTER CHIEUCH:\u{314A}\n\
HANGUL LETTER KHIEUKH:\u{314B}\n\
HANGUL LETTER THIEUTH:\u{314C}\n\
HANGUL LETTER PHIEUPH:\u{314D}\n\
HANGUL LETTER HIEUH:\u{314E}\n\
HANGUL LETTER A:\u{314F}\n\
HANGUL LETTER AE:\u{3150}\n\
HANGUL LETTER YA:\u{3151}\n\
HANGUL LETTER YAE:\u{3152}\n\
HANGUL LETTER EO:\u{3153}\n\
HANGUL LETTER E:\u{3154}\n\
HANGUL LETTER YEO:\u{3155}\n\
HANGUL LETTER YE:\u{3156}\n\
HANGUL LETTER O:\u{3157}\n\
HANGUL LETTER WA:\u{3158}\n\
HANGUL LETTER WAE:\u{3159}\n\
HANGUL LETTER OE:\u{315A}\n\
HANGUL LETTER YO:\u{315B}\n\
HANGUL LETTER U:\u{315C}\n\
HANGUL LETTER WEO:\u{315D}\n\
HANGUL LETTER WE:\u{315E}\n\
HANGUL LETTER WI:\u{315F}\n\
HANGUL LETTER YU:\u{3160}\n\
HANGUL LETTER EU:\u{3161}\n\
HANGUL LETTER YI:\u{3162}\n\
HANGUL LETTER I:\u{3163}\n\
HANGUL FILLER:\u{3164}\n\
HANGUL LETTER SSANGNIEUN:\u{3165}\n\
HANGUL LETTER NIEUN-TIKEUT:\u{3166}\n\
HANGUL LETTER NIEUN-SIOS:\u{3167}\n\
HANGUL LETTER NIEUN-PANSIOS:\u{3168}\n\
HANGUL LETTER RIEUL-KIYEOK-SIOS:\u{3169}\n\
HANGUL LETTER RIEUL-TIKEUT:\u{316A}\n\
HANGUL LETTER RIEUL-PIEUP-SIOS:\u{316B}\n\
HANGUL LETTER RIEUL-PANSIOS:\u{316C}\n\
HANGUL LETTER RIEUL-YEORINHIEUH:\u{316D}\n\
HANGUL LETTER MIEUM-PIEUP:\u{316E}\n\
HANGUL LETTER MIEUM-SIOS:\u{316F}\n\
HANGUL LETTER MIEUM-PANSIOS:\u{3170}\n\
HANGUL LETTER KAPYEOUNMIEUM:\u{3171}\n\
HANGUL LETTER PIEUP-KIYEOK:\u{3172}\n\
HANGUL LETTER PIEUP-TIKEUT:\u{3173}\n\
HANGUL LETTER PIEUP-SIOS-KIYEOK:\u{3174}\n\
HANGUL LETTER PIEUP-SIOS-TIKEUT:\u{3175}\n\
HANGUL LETTER PIEUP-CIEUC:\u{3176}\n\
HANGUL LETTER PIEUP-THIEUTH:\u{3177}\n\
HANGUL LETTER KAPYEOUNPIEUP:\u{3178}\n\
HANGUL LETTER KAPYEOUNSSANGPIEUP:\u{3179}\n\
HANGUL LETTER SIOS-KIYEOK:\u{317A}\n\
HANGUL LETTER SIOS-NIEUN:\u{317B}\n\
HANGUL LETTER SIOS-TIKEUT:\u{317C}\n\
HANGUL LETTER SIOS-PIEUP:\u{317D}\n\
HANGUL LETTER SIOS-CIEUC:\u{317E}\n\
HANGUL LETTER PANSIOS:\u{317F}\n\
HANGUL LETTER SSANGIEUNG:\u{3180}\n\
HANGUL LETTER YESIEUNG:\u{3181}\n\
HANGUL LETTER YESIEUNG-SIOS:\u{3182}\n\
HANGUL LETTER YESIEUNG-PANSIOS:\u{3183}\n\
HANGUL LETTER KAPYEOUNPHIEUPH:\u{3184}\n\
HANGUL LETTER SSANGHIEUH:\u{3185}\n\
HANGUL LETTER YEORINHIEUH:\u{3186}\n\
HANGUL LETTER YO-YA:\u{3187}\n\
HANGUL LETTER YO-YAE:\u{3188}\n\
HANGUL LETTER YO-I:\u{3189}\n\
HANGUL LETTER YU-YEO:\u{318A}\n\
HANGUL LETTER YU-YE:\u{318B}\n\
HANGUL LETTER YU-I:\u{318C}\n\
HANGUL LETTER ARAEA:\u{318D}\n\
HANGUL LETTER ARAEAE:\u{318E}\n\
IDEOGRAPHIC ANNOTATION LINKING MARK:\u{3190}\n\
IDEOGRAPHIC ANNOTATION REVERSE MARK:\u{3191}\n\
IDEOGRAPHIC ANNOTATION ONE MARK:\u{3192}\n\
IDEOGRAPHIC ANNOTATION TWO MARK:\u{3193}\n\
IDEOGRAPHIC ANNOTATION THREE MARK:\u{3194}\n\
IDEOGRAPHIC ANNOTATION FOUR MARK:\u{3195}\n\
IDEOGRAPHIC ANNOTATION TOP MARK:\u{3196}\n\
IDEOGRAPHIC ANNOTATION MIDDLE MARK:\u{3197}\n\
IDEOGRAPHIC ANNOTATION BOTTOM MARK:\u{3198}\n\
IDEOGRAPHIC ANNOTATION FIRST MARK:\u{3199}\n\
IDEOGRAPHIC ANNOTATION SECOND MARK:\u{319A}\n\
IDEOGRAPHIC ANNOTATION THIRD MARK:\u{319B}\n\
IDEOGRAPHIC ANNOTATION FOURTH MARK:\u{319C}\n\
IDEOGRAPHIC ANNOTATION HEAVEN MARK:\u{319D}\n\
IDEOGRAPHIC ANNOTATION EARTH MARK:\u{319E}\n\
IDEOGRAPHIC ANNOTATION MAN MARK:\u{319F}\n\
BOPOMOFO LETTER BU:\u{31A0}\n\
BOPOMOFO LETTER ZI:\u{31A1}\n\
BOPOMOFO LETTER JI:\u{31A2}\n\
BOPOMOFO LETTER GU:\u{31A3}\n\
BOPOMOFO LETTER EE:\u{31A4}\n\
BOPOMOFO LETTER ENN:\u{31A5}\n\
BOPOMOFO LETTER OO:\u{31A6}\n\
BOPOMOFO LETTER ONN:\u{31A7}\n\
BOPOMOFO LETTER IR:\u{31A8}\n\
BOPOMOFO LETTER ANN:\u{31A9}\n\
BOPOMOFO LETTER INN:\u{31AA}\n\
BOPOMOFO LETTER UNN:\u{31AB}\n\
BOPOMOFO LETTER IM:\u{31AC}\n\
BOPOMOFO LETTER NGG:\u{31AD}\n\
BOPOMOFO LETTER AINN:\u{31AE}\n\
BOPOMOFO LETTER AUNN:\u{31AF}\n\
BOPOMOFO LETTER AM:\u{31B0}\n\
BOPOMOFO LETTER OM:\u{31B1}\n\
BOPOMOFO LETTER ONG:\u{31B2}\n\
BOPOMOFO LETTER INNN:\u{31B3}\n\
BOPOMOFO FINAL LETTER P:\u{31B4}\n\
BOPOMOFO FINAL LETTER T:\u{31B5}\n\
BOPOMOFO FINAL LETTER K:\u{31B6}\n\
BOPOMOFO FINAL LETTER H:\u{31B7}\n\
BOPOMOFO LETTER GH:\u{31B8}\n\
BOPOMOFO LETTER LH:\u{31B9}\n\
BOPOMOFO LETTER ZY:\u{31BA}\n\
BOPOMOFO FINAL LETTER G:\u{31BB}\n\
BOPOMOFO LETTER GW:\u{31BC}\n\
BOPOMOFO LETTER KW:\u{31BD}\n\
BOPOMOFO LETTER OE:\u{31BE}\n\
BOPOMOFO LETTER AH:\u{31BF}\n\
CJK STROKE T:\u{31C0}\n\
CJK STROKE WG:\u{31C1}\n\
CJK STROKE XG:\u{31C2}\n\
CJK STROKE BXG:\u{31C3}\n\
CJK STROKE SW:\u{31C4}\n\
CJK STROKE HZZ:\u{31C5}\n\
CJK STROKE HZG:\u{31C6}\n\
CJK STROKE HP:\u{31C7}\n\
CJK STROKE HZWG:\u{31C8}\n\
CJK STROKE SZWG:\u{31C9}\n\
CJK STROKE HZT:\u{31CA}\n\
CJK STROKE HZZP:\u{31CB}\n\
CJK STROKE HPWG:\u{31CC}\n\
CJK STROKE HZW:\u{31CD}\n\
CJK STROKE HZZZ:\u{31CE}\n\
CJK STROKE N:\u{31CF}\n\
CJK STROKE H:\u{31D0}\n\
CJK STROKE S:\u{31D1}\n\
CJK STROKE P:\u{31D2}\n\
CJK STROKE SP:\u{31D3}\n\
CJK STROKE D:\u{31D4}\n\
CJK STROKE HZ:\u{31D5}\n\
CJK STROKE HG:\u{31D6}\n\
CJK STROKE SZ:\u{31D7}\n\
CJK STROKE SWZ:\u{31D8}\n\
CJK STROKE ST:\u{31D9}\n\
CJK STROKE SG:\u{31DA}\n\
CJK STROKE PD:\u{31DB}\n\
CJK STROKE PZ:\u{31DC}\n\
CJK STROKE TN:\u{31DD}\n\
CJK STROKE SZZ:\u{31DE}\n\
CJK STROKE SWG:\u{31DF}\n\
CJK STROKE HXWG:\u{31E0}\n\
CJK STROKE HZZZG:\u{31E1}\n\
CJK STROKE PG:\u{31E2}\n\
CJK STROKE Q:\u{31E3}\n\
KATAKANA LETTER SMALL KU:\u{31F0}\n\
KATAKANA LETTER SMALL SI:\u{31F1}\n\
KATAKANA LETTER SMALL SU:\u{31F2}\n\
KATAKANA LETTER SMALL TO:\u{31F3}\n\
KATAKANA LETTER SMALL NU:\u{31F4}\n\
KATAKANA LETTER SMALL HA:\u{31F5}\n\
KATAKANA LETTER SMALL HI:\u{31F6}\n\
KATAKANA LETTER SMALL HU:\u{31F7}\n\
KATAKANA LETTER SMALL HE:\u{31F8}\n\
KATAKANA LETTER SMALL HO:\u{31F9}\n\
KATAKANA LETTER SMALL MU:\u{31FA}\n\
KATAKANA LETTER SMALL RA:\u{31FB}\n\
KATAKANA LETTER SMALL RI:\u{31FC}\n\
KATAKANA LETTER SMALL RU:\u{31FD}\n\
KATAKANA LETTER SMALL RE:\u{31FE}\n\
KATAKANA LETTER SMALL RO:\u{31FF}\n\
PARENTHESIZED HANGUL KIYEOK:\u{3200}\n\
PARENTHESIZED HANGUL NIEUN:\u{3201}\n\
PARENTHESIZED HANGUL TIKEUT:\u{3202}\n";

pub const NAMES_30: &'static str = "PARENTHESIZED HANGUL RIEUL:\u{3203}\n\
PARENTHESIZED HANGUL MIEUM:\u{3204}\n\
PARENTHESIZED HANGUL PIEUP:\u{3205}\n\
PARENTHESIZED HANGUL SIOS:\u{3206}\n\
PARENTHESIZED HANGUL IEUNG:\u{3207}\n\
PARENTHESIZED HANGUL CIEUC:\u{3208}\n\
PARENTHESIZED HANGUL CHIEUCH:\u{3209}\n\
PARENTHESIZED HANGUL KHIEUKH:\u{320A}\n\
PARENTHESIZED HANGUL THIEUTH:\u{320B}\n\
PARENTHESIZED HANGUL PHIEUPH:\u{320C}\n\
PARENTHESIZED HANGUL HIEUH:\u{320D}\n\
PARENTHESIZED HANGUL KIYEOK A:\u{320E}\n\
PARENTHESIZED HANGUL NIEUN A:\u{320F}\n\
PARENTHESIZED HANGUL TIKEUT A:\u{3210}\n\
PARENTHESIZED HANGUL RIEUL A:\u{3211}\n\
PARENTHESIZED HANGUL MIEUM A:\u{3212}\n\
PARENTHESIZED HANGUL PIEUP A:\u{3213}\n\
PARENTHESIZED HANGUL SIOS A:\u{3214}\n\
PARENTHESIZED HANGUL IEUNG A:\u{3215}\n\
PARENTHESIZED HANGUL CIEUC A:\u{3216}\n\
PARENTHESIZED HANGUL CHIEUCH A:\u{3217}\n\
PARENTHESIZED HANGUL KHIEUKH A:\u{3218}\n\
PARENTHESIZED HANGUL THIEUTH A:\u{3219}\n\
PARENTHESIZED HANGUL PHIEUPH A:\u{321A}\n\
PARENTHESIZED HANGUL HIEUH A:\u{321B}\n\
PARENTHESIZED HANGUL CIEUC U:\u{321C}\n\
PARENTHESIZED KOREAN CHARACTER OJEON:\u{321D}\n\
PARENTHESIZED KOREAN CHARACTER O HU:\u{321E}\n\
PARENTHESIZED IDEOGRAPH ONE:\u{3220}\n\
PARENTHESIZED IDEOGRAPH TWO:\u{3221}\n\
PARENTHESIZED IDEOGRAPH THREE:\u{3222}\n\
PARENTHESIZED IDEOGRAPH FOUR:\u{3223}\n\
PARENTHESIZED IDEOGRAPH FIVE:\u{3224}\n\
PARENTHESIZED IDEOGRAPH SIX:\u{3225}\n\
PARENTHESIZED IDEOGRAPH SEVEN:\u{3226}\n\
PARENTHESIZED IDEOGRAPH EIGHT:\u{3227}\n\
PARENTHESIZED IDEOGRAPH NINE:\u{3228}\n\
PARENTHESIZED IDEOGRAPH TEN:\u{3229}\n\
PARENTHESIZED IDEOGRAPH MOON:\u{322A}\n\
PARENTHESIZED IDEOGRAPH FIRE:\u{322B}\n\
PARENTHESIZED IDEOGRAPH WATER:\u{322C}\n\
PARENTHESIZED IDEOGRAPH WOOD:\u{322D}\n\
PARENTHESIZED IDEOGRAPH METAL:\u{322E}\n\
PARENTHESIZED IDEOGRAPH EARTH:\u{322F}\n\
PARENTHESIZED IDEOGRAPH SUN:\u{3230}\n\
PARENTHESIZED IDEOGRAPH STOCK:\u{3231}\n\
PARENTHESIZED IDEOGRAPH HAVE:\u{3232}\n\
PARENTHESIZED IDEOGRAPH SOCIETY:\u{3233}\n\
PARENTHESIZED IDEOGRAPH NAME:\u{3234}\n\
PARENTHESIZED IDEOGRAPH SPECIAL:\u{3235}\n\
PARENTHESIZED IDEOGRAPH FINANCIAL:\u{3236}\n\
PARENTHESIZED IDEOGRAPH CONGRATULATION:\u{3237}\n\
PARENTHESIZED IDEOGRAPH LABOR:\u{3238}\n\
PARENTHESIZED IDEOGRAPH REPRESENT:\u{3239}\n\
PARENTHESIZED IDEOGRAPH CALL:\u{323A}\n\
PARENTHESIZED IDEOGRAPH STUDY:\u{323B}\n\
PARENTHESIZED IDEOGRAPH SUPERVISE:\u{323C}\n\
PARENTHESIZED IDEOGRAPH ENTERPRISE:\u{323D}\n\
PARENTHESIZED IDEOGRAPH RESOURCE:\u{323E}\n\
PARENTHESIZED IDEOGRAPH ALLIANCE:\u{323F}\n\
PARENTHESIZED IDEOGRAPH FESTIVAL:\u{3240}\n\
PARENTHESIZED IDEOGRAPH REST:\u{3241}\n\
PARENTHESIZED IDEOGRAPH SELF:\u{3242}\n\
PARENTHESIZED IDEOGRAPH REACH:\u{3243}\n\
CIRCLED IDEOGRAPH QUESTION:\u{3244}\n\
CIRCLED IDEOGRAPH KINDERGARTEN:\u{3245}\n\
CIRCLED IDEOGRAPH SCHOOL:\u{3246}\n\
CIRCLED IDEOGRAPH KOTO:\u{3247}\n\
CIRCLED NUMBER TEN ON BLACK SQUARE:\u{3248}\n\
CIRCLED NUMBER TWENTY ON BLACK SQUARE:\u{3249}\n\
CIRCLED NUMBER THIRTY ON BLACK SQUARE:\u{324A}\n\
CIRCLED NUMBER FORTY ON BLACK SQUARE:\u{324B}\n\
CIRCLED NUMBER FIFTY ON BLACK SQUARE:\u{324C}\n\
CIRCLED NUMBER SIXTY ON BLACK SQUARE:\u{324D}\n\
CIRCLED NUMBER SEVENTY ON BLACK SQUARE:\u{324E}\n\
CIRCLED NUMBER EIGHTY ON BLACK SQUARE:\u{324F}\n\
PARTNERSHIP SIGN:\u{3250}\n\
CIRCLED NUMBER TWENTY ONE:\u{3251}\n\
CIRCLED NUMBER TWENTY TWO:\u{3252}\n\
CIRCLED NUMBER TWENTY THREE:\u{3253}\n\
CIRCLED NUMBER TWENTY FOUR:\u{3254}\n\
CIRCLED NUMBER TWENTY FIVE:\u{3255}\n\
CIRCLED NUMBER TWENTY SIX:\u{3256}\n\
CIRCLED NUMBER TWENTY SEVEN:\u{3257}\n\
CIRCLED NUMBER TWENTY EIGHT:\u{3258}\n\
CIRCLED NUMBER TWENTY NINE:\u{3259}\n\
CIRCLED NUMBER THIRTY:\u{325A}\n\
CIRCLED NUMBER THIRTY ONE:\u{325B}\n\
CIRCLED NUMBER THIRTY TWO:\u{325C}\n\
CIRCLED NUMBER THIRTY THREE:\u{325D}\n\
CIRCLED NUMBER THIRTY FOUR:\u{325E}\n\
CIRCLED NUMBER THIRTY FIVE:\u{325F}\n\
CIRCLED HANGUL KIYEOK:\u{3260}\n\
CIRCLED HANGUL NIEUN:\u{3261}\n\
CIRCLED HANGUL TIKEUT:\u{3262}\n\
CIRCLED HANGUL RIEUL:\u{3263}\n\
CIRCLED HANGUL MIEUM:\u{3264}\n\
CIRCLED HANGUL PIEUP:\u{3265}\n\
CIRCLED HANGUL SIOS:\u{3266}\n\
CIRCLED HANGUL IEUNG:\u{3267}\n\
CIRCLED HANGUL CIEUC:\u{3268}\n\
CIRCLED HANGUL CHIEUCH:\u{3269}\n\
CIRCLED HANGUL KHIEUKH:\u{326A}\n\
CIRCLED HANGUL THIEUTH:\u{326B}\n\
CIRCLED HANGUL PHIEUPH:\u{326C}\n\
CIRCLED HANGUL HIEUH:\u{326D}\n\
CIRCLED HANGUL KIYEOK A:\u{326E}\n\
CIRCLED HANGUL NIEUN A:\u{326F}\n\
CIRCLED HANGUL TIKEUT A:\u{3270}\n\
CIRCLED HANGUL RIEUL A:\u{3271}\n\
CIRCLED HANGUL MIEUM A:\u{3272}\n\
CIRCLED HANGUL PIEUP A:\u{3273}\n\
CIRCLED HANGUL SIOS A:\u{3274}\n\
CIRCLED HANGUL IEUNG A:\u{3275}\n\
CIRCLED HANGUL CIEUC A:\u{3276}\n\
CIRCLED HANGUL CHIEUCH A:\u{3277}\n\
CIRCLED HANGUL KHIEUKH A:\u{3278}\n\
CIRCLED HANGUL THIEUTH A:\u{3279}\n\
CIRCLED HANGUL PHIEUPH A:\u{327A}\n\
CIRCLED HANGUL HIEUH A:\u{327B}\n\
CIRCLED KOREAN CHARACTER CHAMKO:\u{327C}\n\
CIRCLED KOREAN CHARACTER JUEUI:\u{327D}\n\
CIRCLED HANGUL IEUNG U:\u{327E}\n\
KOREAN STANDARD SYMBOL:\u{327F}\n\
CIRCLED IDEOGRAPH ONE:\u{3280}\n\
CIRCLED IDEOGRAPH TWO:\u{3281}\n\
CIRCLED IDEOGRAPH THREE:\u{3282}\n\
CIRCLED IDEOGRAPH FOUR:\u{3283}\n\
CIRCLED IDEOGRAPH FIVE:\u{3284}\n\
CIRCLED IDEOGRAPH SIX:\u{3285}\n\
CIRCLED IDEOGRAPH SEVEN:\u{3286}\n\
CIRCLED IDEOGRAPH EIGHT:\u{3287}\n\
CIRCLED IDEOGRAPH NINE:\u{3288}\n\
CIRCLED IDEOGRAPH TEN:\u{3289}\n\
CIRCLED IDEOGRAPH MOON:\u{328A}\n\
CIRCLED IDEOGRAPH FIRE:\u{328B}\n\
CIRCLED IDEOGRAPH WATER:\u{328C}\n\
CIRCLED IDEOGRAPH WOOD:\u{328D}\n\
CIRCLED IDEOGRAPH METAL:\u{328E}\n\
CIRCLED IDEOGRAPH EARTH:\u{328F}\n\
CIRCLED IDEOGRAPH SUN:\u{3290}\n\
CIRCLED IDEOGRAPH STOCK:\u{3291}\n\
CIRCLED IDEOGRAPH HAVE:\u{3292}\n\
CIRCLED IDEOGRAPH SOCIETY:\u{3293}\n\
CIRCLED IDEOGRAPH NAME:\u{3294}\n\
CIRCLED IDEOGRAPH SPECIAL:\u{3295}\n\
CIRCLED IDEOGRAPH FINANCIAL:\u{3296}\n\
CIRCLED IDEOGRAPH CONGRATULATION:\u{3297}\n\
CIRCLED IDEOGRAPH LABOR:\u{3298}\n\
CIRCLED IDEOGRAPH SECRET:\u{3299}\n\
CIRCLED IDEOGRAPH MALE:\u{329A}\n\
CIRCLED IDEOGRAPH FEMALE:\u{329B}\n\
CIRCLED IDEOGRAPH SUITABLE:\u{329C}\n\
CIRCLED IDEOGRAPH EXCELLENT:\u{329D}\n\
CIRCLED IDEOGRAPH PRINT:\u{329E}\n\
CIRCLED IDEOGRAPH ATTENTION:\u{329F}\n\
CIRCLED IDEOGRAPH ITEM:\u{32A0}\n\
CIRCLED IDEOGRAPH REST:\u{32A1}\n\
CIRCLED IDEOGRAPH COPY:\u{32A2}\n\
CIRCLED IDEOGRAPH CORRECT:\u{32A3}\n\
CIRCLED IDEOGRAPH HIGH:\u{32A4}\n\
CIRCLED IDEOGRAPH CENTRE:\u{32A5}\n\
CIRCLED IDEOGRAPH LOW:\u{32A6}\n\
CIRCLED IDEOGRAPH LEFT:\u{32A7}\n\
CIRCLED IDEOGRAPH RIGHT:\u{32A8}\n\
CIRCLED IDEOGRAPH MEDICINE:\u{32A9}\n\
CIRCLED IDEOGRAPH RELIGION:\u{32AA}\n\
CIRCLED IDEOGRAPH STUDY:\u{32AB}\n\
CIRCLED IDEOGRAPH SUPERVISE:\u{32AC}\n\
CIRCLED IDEOGRAPH ENTERPRISE:\u{32AD}\n\
CIRCLED IDEOGRAPH RESOURCE:\u{32AE}\n\
CIRCLED IDEOGRAPH ALLIANCE:\u{32AF}\n\
CIRCLED IDEOGRAPH NIGHT:\u{32B0}\n\
CIRCLED NUMBER THIRTY SIX:\u{32B1}\n\
CIRCLED NUMBER THIRTY SEVEN:\u{32B2}\n\
CIRCLED NUMBER THIRTY EIGHT:\u{32B3}\n\
CIRCLED NUMBER THIRTY NINE:\u{32B4}\n\
CIRCLED NUMBER FORTY:\u{32B5}\n\
CIRCLED NUMBER FORTY ONE:\u{32B6}\n\
CIRCLED NUMBER FORTY TWO:\u{32B7}\n\
CIRCLED NUMBER FORTY THREE:\u{32B8}\n\
CIRCLED NUMBER FORTY FOUR:\u{32B9}\n\
CIRCLED NUMBER FORTY FIVE:\u{32BA}\n\
CIRCLED NUMBER FORTY SIX:\u{32BB}\n\
CIRCLED NUMBER FORTY SEVEN:\u{32BC}\n\
CIRCLED NUMBER FORTY EIGHT:\u{32BD}\n\
CIRCLED NUMBER FORTY NINE:\u{32BE}\n\
CIRCLED NUMBER FIFTY:\u{32BF}\n\
IDEOGRAPHIC TELEGRAPH SYMBOL FOR JANUARY:\u{32C0}\n\
IDEOGRAPHIC TELEGRAPH SYMBOL FOR FEBRUARY:\u{32C1}\n\
IDEOGRAPHIC TELEGRAPH SYMBOL FOR MARCH:\u{32C2}\n\
IDEOGRAPHIC TELEGRAPH SYMBOL FOR APRIL:\u{32C3}\n\
IDEOGRAPHIC TELEGRAPH SYMBOL FOR MAY:\u{32C4}\n\
IDEOGRAPHIC TELEGRAPH SYMBOL FOR JUNE:\u{32C5}\n\
IDEOGRAPHIC TELEGRAPH SYMBOL FOR JULY:\u{32C6}\n\
IDEOGRAPHIC TELEGRAPH SYMBOL FOR AUGUST:\u{32C7}\n\
IDEOGRAPHIC TELEGRAPH SYMBOL FOR SEPTEMBER:\u{32C8}\n\
IDEOGRAPHIC TELEGRAPH SYMBOL FOR OCTOBER:\u{32C9}\n\
IDEOGRAPHIC TELEGRAPH SYMBOL FOR NOVEMBER:\u{32CA}\n\
IDEOGRAPHIC TELEGRAPH SYMBOL FOR DECEMBER:\u{32CB}\n\
SQUARE HG:\u{32CC}\n\
SQUARE ERG:\u{32CD}\n\
SQUARE EV:\u{32CE}\n\
LIMITED LIABILITY SIGN:\u{32CF}\n\
CIRCLED KATAKANA A:\u{32D0}\n\
CIRCLED KATAKANA I:\u{32D1}\n\
CIRCLED KATAKANA U:\u{32D2}\n\
CIRCLED KATAKANA E:\u{32D3}\n\
CIRCLED KATAKANA O:\u{32D4}\n\
CIRCLED KATAKANA KA:\u{32D5}\n\
CIRCLED KATAKANA KI:\u{32D6}\n\
CIRCLED KATAKANA KU:\u{32D7}\n\
CIRCLED KATAKANA KE:\u{32D8}\n\
CIRCLED KATAKANA KO:\u{32D9}\n\
CIRCLED KATAKANA SA:\u{32DA}\n\
CIRCLED KATAKANA SI:\u{32DB}\n\
CIRCLED KATAKANA SU:\u{32DC}\n\
CIRCLED KATAKANA SE:\u{32DD}\n\
CIRCLED KATAKANA SO:\u{32DE}\n\
CIRCLED KATAKANA TA:\u{32DF}\n\
CIRCLED KATAKANA TI:\u{32E0}\n\
CIRCLED KATAKANA TU:\u{32E1}\n\
CIRCLED KATAKANA TE:\u{32E2}\n\
CIRCLED KATAKANA TO:\u{32E3}\n\
CIRCLED KATAKANA NA:\u{32E4}\n\
CIRCLED KATAKANA NI:\u{32E5}\n\
CIRCLED KATAKANA NU:\u{32E6}\n\
CIRCLED KATAKANA NE:\u{32E7}\n\
CIRCLED KATAKANA NO:\u{32E8}\n\
CIRCLED KATAKANA HA:\u{32E9}\n\
CIRCLED KATAKANA HI:\u{32EA}\n\
CIRCLED KATAKANA HU:\u{32EB}\n\
CIRCLED KATAKANA HE:\u{32EC}\n\
CIRCLED KATAKANA HO:\u{32ED}\n\
CIRCLED KATAKANA MA:\u{32EE}\n\
CIRCLED KATAKANA MI:\u{32EF}\n\
CIRCLED KATAKANA MU:\u{32F0}\n\
CIRCLED KATAKANA ME:\u{32F1}\n\
CIRCLED KATAKANA MO:\u{32F2}\n\
CIRCLED KATAKANA YA:\u{32F3}\n\
CIRCLED KATAKANA YU:\u{32F4}\n\
CIRCLED KATAKANA YO:\u{32F5}\n\
CIRCLED KATAKANA RA:\u{32F6}\n\
CIRCLED KATAKANA RI:\u{32F7}\n\
CIRCLED KATAKANA RU:\u{32F8}\n\
CIRCLED KATAKANA RE:\u{32F9}\n\
CIRCLED KATAKANA RO:\u{32FA}\n\
CIRCLED KATAKANA WA:\u{32FB}\n\
CIRCLED KATAKANA WI:\u{32FC}\n\
CIRCLED KATAKANA WE:\u{32FD}\n\
CIRCLED KATAKANA WO:\u{32FE}\n\
SQUARE ERA NAME REIWA:\u{32FF}\n\
SQUARE APAATO:\u{3300}\n\
SQUARE ARUHUA:\u{3301}\n\
SQUARE ANPEA:\u{3302}\n\
SQUARE AARU:\u{3303}\n\
SQUARE ININGU:\u{3304}\n\
SQUARE INTI:\u{3305}\n\
SQUARE UON:\u{3306}\n\
SQUARE ESUKUUDO:\u{3307}\n\
SQUARE EEKAA:\u{3308}\n\
SQUARE ONSU:\u{3309}\n\
SQUARE OOMU:\u{330A}\n\
SQUARE KAIRI:\u{330B}\n\
SQUARE KARATTO:\u{330C}\n\
SQUARE KARORII:\u{330D}\n\
SQUARE GARON:\u{330E}\n\
SQUARE GANMA:\u{330F}\n\
SQUARE GIGA:\u{3310}\n\
SQUARE GINII:\u{3311}\n\
SQUARE KYURII:\u{3312}\n\
SQUARE GIRUDAA:\u{3313}\n\
SQUARE KIRO:\u{3314}\n\
SQUARE KIROGURAMU:\u{3315}\n\
SQUARE KIROMEETORU:\u{3316}\n\
SQUARE KIROWATTO:\u{3317}\n\
SQUARE GURAMU:\u{3318}\n\
SQUARE GURAMUTON:\u{3319}\n\
SQUARE KURUZEIRO:\u{331A}\n\
SQUARE KUROONE:\u{331B}\n\
SQUARE KEESU:\u{331C}\n\
SQUARE KORUNA:\u{331D}\n\
SQUARE KOOPO:\u{331E}\n\
SQUARE SAIKURU:\u{331F}\n\
SQUARE SANTIIMU:\u{3320}\n\
SQUARE SIRINGU:\u{3321}\n\
SQUARE SENTI:\u{3322}\n\
SQUARE SENTO:\u{3323}\n\
SQUARE DAASU:\u{3324}\n\
SQUARE DESI:\u{3325}\n\
SQUARE DORU:\u{3326}\n\
SQUARE TON:\u{3327}\n\
SQUARE NANO:\u{3328}\n\
SQUARE NOTTO:\u{3329}\n\
SQUARE HAITU:\u{332A}\n\
SQUARE PAASENTO:\u{332B}\n\
SQUARE PAATU:\u{332C}\n\
SQUARE BAARERU:\u{332D}\n\
SQUARE PIASUTORU:\u{332E}\n\
SQUARE PIKURU:\u{332F}\n\
SQUARE PIKO:\u{3330}\n\
SQUARE BIRU:\u{3331}\n\
SQUARE HUARADDO:\u{3332}\n\
SQUARE HUIITO:\u{3333}\n\
SQUARE BUSSYERU:\u{3334}\n\
SQUARE HURAN:\u{3335}\n\
SQUARE HEKUTAARU:\u{3336}\n\
SQUARE PESO:\u{3337}\n\
SQUARE PENIHI:\u{3338}\n\
SQUARE HERUTU:\u{3339}\n\
SQUARE PENSU:\u{333A}\n\
SQUARE PEEZI:\u{333B}\n\
SQUARE BEETA:\u{333C}\n\
SQUARE POINTO:\u{333D}\n\
SQUARE BORUTO:\u{333E}\n\
SQUARE HON:\u{333F}\n\
SQUARE PONDO:\u{3340}\n\
SQUARE HOORU:\u{3341}\n\
SQUARE HOON:\u{3342}\n\
SQUARE MAIKURO:\u{3343}\n\
SQUARE MAIRU:\u{3344}\n\
SQUARE MAHHA:\u{3345}\n\
SQUARE MARUKU:\u{3346}\n\
SQUARE MANSYON:\u{3347}\n\
SQUARE MIKURON:\u{3348}\n\
SQUARE MIRI:\u{3349}\n\
SQUARE MIRIBAARU:\u{334A}\n\
SQUARE MEGA:\u{334B}\n\
SQUARE MEGATON:\u{334C}\n\
SQUARE MEETORU:\u{334D}\n\
SQUARE YAADO:\u{334E}\n\
SQUARE YAARU:\u{334F}\n\
SQUARE YUAN:\u{3350}\n\
SQUARE RITTORU:\u{3351}\n\
SQUARE RIRA:\u{3352}\n\
SQUARE RUPII:\u{3353}\n\
SQUARE RUUBURU:\u{3354}\n\
SQUARE REMU:\u{3355}\n\
SQUARE RENTOGEN:\u{3356}\n\
SQUARE WATTO:\u{3357}\n\
IDEOGRAPHIC TELEGRAPH SYMBOL FOR HOUR ZERO:\u{3358}\n\
IDEOGRAPHIC TELEGRAPH SYMBOL FOR HOUR ONE:\u{3359}\n\
IDEOGRAPHIC TELEGRAPH SYMBOL FOR HOUR TWO:\u{335A}\n\
IDEOGRAPHIC TELEGRAPH SYMBOL FOR HOUR THREE:\u{335B}\n\
IDEOGRAPHIC TELEGRAPH SYMBOL FOR HOUR FOUR:\u{335C}\n\
IDEOGRAPHIC TELEGRAPH SYMBOL FOR HOUR FIVE:\u{335D}\n\
IDEOGRAPHIC TELEGRAPH SYMBOL FOR HOUR SIX:\u{335E}\n\
IDEOGRAPHIC TELEGRAPH SYMBOL FOR HOUR SEVEN:\u{335F}\n\
IDEOGRAPHIC TELEGRAPH SYMBOL FOR HOUR EIGHT:\u{3360}\n\
IDEOGRAPHIC TELEGRAPH SYMBOL FOR HOUR NINE:\u{3361}\n\
IDEOGRAPHIC TELEGRAPH SYMBOL FOR HOUR TEN:\u{3362}\n\
IDEOGRAPHIC TELEGRAPH SYMBOL FOR HOUR ELEVEN:\u{3363}\n\
IDEOGRAPHIC TELEGRAPH SYMBOL FOR HOUR TWELVE:\u{3364}\n\
IDEOGRAPHIC TELEGRAPH SYMBOL FOR HOUR THIRTEEN:\u{3365}\n\
IDEOGRAPHIC TELEGRAPH SYMBOL FOR HOUR FOURTEEN:\u{3366}\n\
IDEOGRAPHIC TELEGRAPH SYMBOL FOR HOUR FIFTEEN:\u{3367}\n\
IDEOGRAPHIC TELEGRAPH SYMBOL FOR HOUR SIXTEEN:\u{3368}\n\
IDEOGRAPHIC TELEGRAPH SYMBOL FOR HOUR SEVENTEEN:\u{3369}\n\
IDEOGRAPHIC TELEGRAPH SYMBOL FOR HOUR EIGHTEEN:\u{336A}\n\
IDEOGRAPHIC TELEGRAPH SYMBOL FOR HOUR NINETEEN:\u{336B}\n\
IDEOGRAPHIC TELEGRAPH SYMBOL FOR HOUR TWENTY:\u{336C}\n\
IDEOGRAPHIC TELEGRAPH SYMBOL FOR HOUR TWENTY-ONE:\u{336D}\n\
IDEOGRAPHIC TELEGRAPH SYMBOL FOR HOUR TWENTY-TWO:\u{336E}\n\
IDEOGRAPHIC TELEGRAPH SYMBOL FOR HOUR TWENTY-THREE:\u{336F}\n\
IDEOGRAPHIC TELEGRAPH SYMBOL FOR HOUR TWENTY-FOUR:\u{3370}\n\
SQUARE HPA:\u{3371}\n\
SQUARE DA:\u{3372}\n\
SQUARE AU:\u{3373}\n\
SQUARE BAR:\u{3374}\n\
SQUARE OV:\u{3375}\n\
SQUARE PC:\u{3376}\n\
SQUARE DM:\u{3377}\n\
SQUARE DM SQUARED:\u{3378}\n\
SQUARE DM CUBED:\u{3379}\n\
SQUARE IU:\u{337A}\n\
SQUARE ERA NAME HEISEI:\u{337B}\n\
SQUARE ERA NAME SYOUWA:\u{337C}\n\
SQUARE ERA NAME TAISYOU:\u{337D}\n\
SQUARE ERA NAME MEIZI:\u{337E}\n\
SQUARE CORPORATION:\u{337F}\n\
SQUARE PA AMPS:\u{3380}\n\
SQUARE NA:\u{3381}\n\
SQUARE MU A:\u{3382}\n\
SQUARE MA:\u{3383}\n\
SQUARE KA:\u{3384}\n\
SQUARE KB:\u{3385}\n\
SQUARE MB:\u{3386}\n\
SQUARE GB:\u{3387}\n\
SQUARE CAL:\u{3388}\n\
SQUARE KCAL:\u{3389}\n\
SQUARE PF:\u{338A}\n\
SQUARE NF:\u{338B}\n\
SQUARE MU F:\u{338C}\n\
SQUARE MU G:\u{338D}\n\
SQUARE MG:\u{338E}\n\
SQUARE KG:\u{338F}\n\
SQUARE HZ:\u{3390}\n\
SQUARE KHZ:\u{3391}\n\
SQUARE MHZ:\u{3392}\n\
SQUARE GHZ:\u{3393}\n\
SQUARE THZ:\u{3394}\n\
SQUARE MU L:\u{3395}\n\
SQUARE ML:\u{3396}\n\
SQUARE DL:\u{3397}\n\
SQUARE KL:\u{3398}\n\
SQUARE FM:\u{3399}\n\
SQUARE NM:\u{339A}\n\
SQUARE MU M:\u{339B}\n\
SQUARE MM:\u{339C}\n\
SQUARE CM:\u{339D}\n\
SQUARE KM:\u{339E}\n\
SQUARE MM SQUARED:\u{339F}\n\
SQUARE CM SQUARED:\u{33A0}\n\
SQUARE M SQUARED:\u{33A1}\n\
SQUARE KM SQUARED:\u{33A2}\n\
SQUARE MM CUBED:\u{33A3}\n\
SQUARE CM CUBED:\u{33A4}\n\
SQUARE M CUBED:\u{33A5}\n\
SQUARE KM CUBED:\u{33A6}\n\
SQUARE M OVER S:\u{33A7}\n\
SQUARE M OVER S SQUARED:\u{33A8}\n\
SQUARE PA:\u{33A9}\n\
SQUARE KPA:\u{33AA}\n\
SQUARE MPA:\u{33AB}\n\
SQUARE GPA:\u{33AC}\n\
SQUARE RAD:\u{33AD}\n\
SQUARE RAD OVER S:\u{33AE}\n\
SQUARE RAD OVER S SQUARED:\u{33AF}\n\
SQUARE PS:\u{33B0}\n\
SQUARE NS:\u{33B1}\n\
SQUARE MU S:\u{33B2}\n\
SQUARE MS:\u{33B3}\n\
SQUARE PV:\u{33B4}\n";

pub const NAMES_31: &'static str = "SQUARE NV:\u{33B5}\n\
SQUARE MU V:\u{33B6}\n\
SQUARE MV:\u{33B7}\n\
SQUARE KV:\u{33B8}\n\
SQUARE MV MEGA:\u{33B9}\n\
SQUARE PW:\u{33BA}\n\
SQUARE NW:\u{33BB}\n\
SQUARE MU W:\u{33BC}\n\
SQUARE MW:\u{33BD}\n\
SQUARE KW:\u{33BE}\n\
SQUARE MW MEGA:\u{33BF}\n\
SQUARE K OHM:\u{33C0}\n\
SQUARE M OHM:\u{33C1}\n\
SQUARE AM:\u{33C2}\n\
SQUARE BQ:\u{33C3}\n\
SQUARE CC:\u{33C4}\n\
SQUARE CD:\u{33C5}\n\
SQUARE C OVER KG:\u{33C6}\n\
SQUARE CO:\u{33C7}\n\
SQUARE DB:\u{33C8}\n\
SQUARE GY:\u{33C9}\n\
SQUARE HA:\u{33CA}\n\
SQUARE HP:\u{33CB}\n\
SQUARE IN:\u{33CC}\n\
SQUARE KK:\u{33CD}\n\
SQUARE KM CAPITAL:\u{33CE}\n\
SQUARE KT:\u{33CF}\n\
SQUARE LM:\u{33D0}\n\
SQUARE LN:\u{33D1}\n\
SQUARE LOG:\u{33D2}\n\
SQUARE LX:\u{33D3}\n\
SQUARE MB SMALL:\u{33D4}\n\
SQUARE MIL:\u{33D5}\n\
SQUARE MOL:\u{33D6}\n\
SQUARE PH:\u{33D7}\n\
SQUARE PM:\u{33D8}\n\
SQUARE PPM:\u{33D9}\n\
SQUARE PR:\u{33DA}\n\
SQUARE SR:\u{33DB}\n\
SQUARE SV:\u{33DC}\n\
SQUARE WB:\u{33DD}\n\
SQUARE V OVER M:\u{33DE}\n\
SQUARE A OVER M:\u{33DF}\n\
IDEOGRAPHIC TELEGRAPH SYMBOL FOR DAY ONE:\u{33E0}\n\
IDEOGRAPHIC TELEGRAPH SYMBOL FOR DAY TWO:\u{33E1}\n\
IDEOGRAPHIC TELEGRAPH SYMBOL FOR DAY THREE:\u{33E2}\n\
IDEOGRAPHIC TELEGRAPH SYMBOL FOR DAY FOUR:\u{33E3}\n\
IDEOGRAPHIC TELEGRAPH SYMBOL FOR DAY FIVE:\u{33E4}\n\
IDEOGRAPHIC TELEGRAPH SYMBOL FOR DAY SIX:\u{33E5}\n\
IDEOGRAPHIC TELEGRAPH SYMBOL FOR DAY SEVEN:\u{33E6}\n\
IDEOGRAPHIC TELEGRAPH SYMBOL FOR DAY EIGHT:\u{33E7}\n\
IDEOGRAPHIC TELEGRAPH SYMBOL FOR DAY NINE:\u{33E8}\n\
IDEOGRAPHIC TELEGRAPH SYMBOL FOR DAY TEN:\u{33E9}\n\
IDEOGRAPHIC TELEGRAPH SYMBOL FOR DAY ELEVEN:\u{33EA}\n\
IDEOGRAPHIC TELEGRAPH SYMBOL FOR DAY TWELVE:\u{33EB}\n\
IDEOGRAPHIC TELEGRAPH SYMBOL FOR DAY THIRTEEN:\u{33EC}\n\
IDEOGRAPHIC TELEGRAPH SYMBOL FOR DAY FOURTEEN:\u{33ED}\n\
IDEOGRAPHIC TELEGRAPH SYMBOL FOR DAY FIFTEEN:\u{33EE}\n\
IDEOGRAPHIC TELEGRAPH SYMBOL FOR DAY SIXTEEN:\u{33EF}\n\
IDEOGRAPHIC TELEGRAPH SYMBOL FOR DAY SEVENTEEN:\u{33F0}\n\
IDEOGRAPHIC TELEGRAPH SYMBOL FOR DAY EIGHTEEN:\u{33F1}\n\
IDEOGRAPHIC TELEGRAPH SYMBOL FOR DAY NINETEEN:\u{33F2}\n\
IDEOGRAPHIC TELEGRAPH SYMBOL FOR DAY TWENTY:\u{33F3}\n\
IDEOGRAPHIC TELEGRAPH SYMBOL FOR DAY TWENTY-ONE:\u{33F4}\n\
IDEOGRAPHIC TELEGRAPH SYMBOL FOR DAY TWENTY-TWO:\u{33F5}\n\
IDEOGRAPHIC TELEGRAPH SYMBOL FOR DAY TWENTY-THREE:\u{33F6}\n\
IDEOGRAPHIC TELEGRAPH SYMBOL FOR DAY TWENTY-FOUR:\u{33F7}\n\
IDEOGRAPHIC TELEGRAPH SYMBOL FOR DAY TWENTY-FIVE:\u{33F8}\n\
IDEOGRAPHIC TELEGRAPH SYMBOL FOR DAY TWENTY-SIX:\u{33F9}\n\
IDEOGRAPHIC TELEGRAPH SYMBOL FOR DAY TWENTY-SEVEN:\u{33FA}\n\
IDEOGRAPHIC TELEGRAPH SYMBOL FOR DAY TWENTY-EIGHT:\u{33FB}\n\
IDEOGRAPHIC TELEGRAPH SYMBOL FOR DAY TWENTY-NINE:\u{33FC}\n\
IDEOGRAPHIC TELEGRAPH SYMBOL FOR DAY THIRTY:\u{33FD}\n\
IDEOGRAPHIC TELEGRAPH SYMBOL FOR DAY THIRTY-ONE:\u{33FE}\n\
SQUARE GAL:\u{33FF}\n\
HEXAGRAM FOR THE CREATIVE HEAVEN:\u{4DC0}\n\
HEXAGRAM FOR THE RECEPTIVE EARTH:\u{4DC1}\n\
HEXAGRAM FOR DIFFICULTY AT THE BEGINNING:\u{4DC2}\n\
HEXAGRAM FOR YOUTHFUL FOLLY:\u{4DC3}\n\
HEXAGRAM FOR WAITING:\u{4DC4}\n\
HEXAGRAM FOR CONFLICT:\u{4DC5}\n\
HEXAGRAM FOR THE ARMY:\u{4DC6}\n\
HEXAGRAM FOR HOLDING TOGETHER:\u{4DC7}\n\
HEXAGRAM FOR SMALL TAMING:\u{4DC8}\n\
HEXAGRAM FOR TREADING:\u{4DC9}\n\
HEXAGRAM FOR PEACE:\u{4DCA}\n\
HEXAGRAM FOR STANDSTILL:\u{4DCB}\n\
HEXAGRAM FOR FELLOWSHIP:\u{4DCC}\n\
HEXAGRAM FOR GREAT POSSESSION:\u{4DCD}\n\
HEXAGRAM FOR MODESTY:\u{4DCE}\n\
HEXAGRAM FOR ENTHUSIASM:\u{4DCF}\n\
HEXAGRAM FOR FOLLOWING:\u{4DD0}\n\
HEXAGRAM FOR WORK ON THE DECAYED:\u{4DD1}\n\
HEXAGRAM FOR APPROACH:\u{4DD2}\n\
HEXAGRAM FOR CONTEMPLATION:\u{4DD3}\n\
HEXAGRAM FOR BITING THROUGH:\u{4DD4}\n\
HEXAGRAM FOR GRACE:\u{4DD5}\n\
HEXAGRAM FOR SPLITTING APART:\u{4DD6}\n\
HEXAGRAM FOR RETURN:\u{4DD7}\n\
HEXAGRAM FOR INNOCENCE:\u{4DD8}\n\
HEXAGRAM FOR GREAT TAMING:\u{4DD9}\n\
HEXAGRAM FOR MOUTH CORNERS:\u{4DDA}\n\
HEXAGRAM FOR GREAT PREPONDERANCE:\u{4DDB}\n\
HEXAGRAM FOR THE ABYSMAL WATER:\u{4DDC}\n\
HEXAGRAM FOR THE CLINGING FIRE:\u{4DDD}\n\
HEXAGRAM FOR INFLUENCE:\u{4DDE}\n\
HEXAGRAM FOR DURATION:\u{4DDF}\n\
HEXAGRAM FOR RETREAT:\u{4DE0}\n\
HEXAGRAM FOR GREAT POWER:\u{4DE1}\n\
HEXAGRAM FOR PROGRESS:\u{4DE2}\n\
HEXAGRAM FOR DARKENING OF THE LIGHT:\u{4DE3}\n\
HEXAGRAM FOR THE FAMILY:\u{4DE4}\n\
HEXAGRAM FOR OPPOSITION:\u{4DE5}\n\
HEXAGRAM FOR OBSTRUCTION:\u{4DE6}\n\
HEXAGRAM FOR DELIVERANCE:\u{4DE7}\n\
HEXAGRAM FOR DECREASE:\u{4DE8}\n\
HEXAGRAM FOR INCREASE:\u{4DE9}\n\
HEXAGRAM FOR BREAKTHROUGH:\u{4DEA}\n\
HEXAGRAM FOR COMING TO MEET:\u{4DEB}\n\
HEXAGRAM FOR GATHERING TOGETHER:\u{4DEC}\n\
HEXAGRAM FOR PUSHING UPWARD:\u{4DED}\n\
HEXAGRAM FOR OPPRESSION:\u{4DEE}\n\
HEXAGRAM FOR THE WELL:\u{4DEF}\n\
HEXAGRAM FOR REVOLUTION:\u{4DF0}\n\
HEXAGRAM FOR THE CAULDRON:\u{4DF1}\n\
HEXAGRAM FOR THE AROUSING THUNDER:\u{4DF2}\n\
HEXAGRAM FOR THE KEEPING STILL MOUNTAIN:\u{4DF3}\n\
HEXAGRAM FOR DEVELOPMENT:\u{4DF4}\n\
HEXAGRAM FOR THE MARRYING MAIDEN:\u{4DF5}\n\
HEXAGRAM FOR ABUNDANCE:\u{4DF6}\n\
HEXAGRAM FOR THE WANDERER:\u{4DF7}\n\
HEXAGRAM FOR THE GENTLE WIND:\u{4DF8}\n\
HEXAGRAM FOR THE JOYOUS LAKE:\u{4DF9}\n\
HEXAGRAM FOR DISPERSION:\u{4DFA}\n\
HEXAGRAM FOR LIMITATION:\u{4DFB}\n\
HEXAGRAM FOR INNER TRUTH:\u{4DFC}\n\
HEXAGRAM FOR SMALL PREPONDERANCE:\u{4DFD}\n\
HEXAGRAM FOR AFTER COMPLETION:\u{4DFE}\n\
HEXAGRAM FOR BEFORE COMPLETION:\u{4DFF}\n\
YI SYLLABLE IT:\u{A000}\n\
YI SYLLABLE IX:\u{A001}\n\
YI SYLLABLE I:\u{A002}\n\
YI SYLLABLE IP:\u{A003}\n\
YI SYLLABLE IET:\u{A004}\n\
YI SYLLABLE IEX:\u{A005}\n\
YI SYLLABLE IE:\u{A006}\n\
YI SYLLABLE IEP:\u{A007}\n\
YI SYLLABLE AT:\u{A008}\n\
YI SYLLABLE AX:\u{A009}\n\
YI SYLLABLE A:\u{A00A}\n\
YI SYLLABLE AP:\u{A00B}\n\
YI SYLLABLE UOX:\u{A00C}\n\
YI SYLLABLE UO:\u{A00D}\n\
YI SYLLABLE UOP:\u{A00E}\n\
YI SYLLABLE OT:\u{A00F}\n\
YI SYLLABLE OX:\u{A010}\n\
YI SYLLABLE O:\u{A011}\n\
YI SYLLABLE OP:\u{A012}\n\
YI SYLLABLE EX:\u{A013}\n\
YI SYLLABLE E:\u{A014}\n\
YI SYLLABLE WU:\u{A015}\n\
YI SYLLABLE BIT:\u{A016}\n\
YI SYLLABLE BIX:\u{A017}\n\
YI SYLLABLE BI:\u{A018}\n\
YI SYLLABLE BIP:\u{A019}\n\
YI SYLLABLE BIET:\u{A01A}\n\
YI SYLLABLE BIEX:\u{A01B}\n\
YI SYLLABLE BIE:\u{A01C}\n\
YI SYLLABLE BIEP:\u{A01D}\n\
YI SYLLABLE BAT:\u{A01E}\n\
YI SYLLABLE BAX:\u{A01F}\n\
YI SYLLABLE BA:\u{A020}\n\
YI SYLLABLE BAP:\u{A021}\n\
YI SYLLABLE BUOX:\u{A022}\n\
YI SYLLABLE BUO:\u{A023}\n\
YI SYLLABLE BUOP:\u{A024}\n\
YI SYLLABLE BOT:\u{A025}\n\
YI SYLLABLE BOX:\u{A026}\n\
YI SYLLABLE BO:\u{A027}\n\
YI SYLLABLE BOP:\u{A028}\n\
YI SYLLABLE BEX:\u{A029}\n\
YI SYLLABLE BE:\u{A02A}\n\
YI SYLLABLE BEP:\u{A02B}\n\
YI SYLLABLE BUT:\u{A02C}\n\
YI SYLLABLE BUX:\u{A02D}\n\
YI SYLLABLE BU:\u{A02E}\n\
YI SYLLABLE BUP:\u{A02F}\n\
YI SYLLABLE BURX:\u{A030}\n\
YI SYLLABLE BUR:\u{A031}\n\
YI SYLLABLE BYT:\u{A032}\n\
YI SYLLABLE BYX:\u{A033}\n\
YI SYLLABLE BY:\u{A034}\n\
YI SYLLABLE BYP:\u{A035}\n\
YI SYLLABLE BYRX:\u{A036}\n\
YI SYLLABLE BYR:\u{A037}\n\
YI SYLLABLE PIT:\u{A038}\n\
YI SYLLABLE PIX:\u{A039}\n\
YI SYLLABLE PI:\u{A03A}\n\
YI SYLLABLE PIP:\u{A03B}\n\
YI SYLLABLE PIEX:\u{A03C}\n\
YI SYLLABLE PIE:\u{A03D}\n\
YI SYLLABLE PIEP:\u{A03E}\n\
YI SYLLABLE PAT:\u{A03F}\n\
YI SYLLABLE PAX:\u{A040}\n\
YI SYLLABLE PA:\u{A041}\n\
YI SYLLABLE PAP:\u{A042}\n\
YI SYLLABLE PUOX:\u{A043}\n\
YI SYLLABLE PUO:\u{A044}\n\
YI SYLLABLE PUOP:\u{A045}\n\
YI SYLLABLE POT:\u{A046}\n\
YI SYLLABLE POX:\u{A047}\n\
YI SYLLABLE PO:\u{A048}\n\
YI SYLLABLE POP:\u{A049}\n\
YI SYLLABLE PUT:\u{A04A}\n\
YI SYLLABLE PUX:\u{A04B}\n\
YI SYLLABLE PU:\u{A04C}\n\
YI SYLLABLE PUP:\u{A04D}\n\
YI SYLLABLE PURX:\u{A04E}\n\
YI SYLLABLE PUR:\u{A04F}\n\
YI SYLLABLE PYT:\u{A050}\n\
YI SYLLABLE PYX:\u{A051}\n\
YI SYLLABLE PY:\u{A052}\n\
YI SYLLABLE PYP:\u{A053}\n\
YI SYLLABLE PYRX:\u{A054}\n\
YI SYLLABLE PYR:\u{A055}\n\
YI SYLLABLE BBIT:\u{A056}\n\
YI SYLLABLE BBIX:\u{A057}\n\
YI SYLLABLE BBI:\u{A058}\n\
YI SYLLABLE BBIP:\u{A059}\n\
YI SYLLABLE BBIET:\u{A05A}\n\
YI SYLLABLE BBIEX:\u{A05B}\n\
YI SYLLABLE BBIE:\u{A05C}\n\
YI SYLLABLE BBIEP:\u{A05D}\n\
YI SYLLABLE BBAT:\u{A05E}\n\
YI SYLLABLE BBAX:\u{A05F}\n\
YI SYLLABLE BBA:\u{A060}\n\
YI SYLLABLE BBAP:\u{A061}\n\
YI SYLLABLE BBUOX:\u{A062}\n\
YI SYLLABLE BBUO:\u{A063}\n\
YI SYLLABLE BBUOP:\u{A064}\n\
YI SYLLABLE BBOT:\u{A065}\n\
YI SYLLABLE BBOX:\u{A066}\n\
YI SYLLABLE BBO:\u{A067}\n\
YI SYLLABLE BBOP:\u{A068}\n\
YI SYLLABLE BBEX:\u{A069}\n\
YI SYLLABLE BBE:\u{A06A}\n\
YI SYLLABLE BBEP:\u{A06B}\n\
YI SYLLABLE BBUT:\u{A06C}\n\
YI SYLLABLE BBUX:\u{A06D}\n\
YI SYLLABLE BBU:\u{A06E}\n\
YI SYLLABLE BBUP:\u{A06F}\n\
YI SYLLABLE BBURX:\u{A070}\n\
YI SYLLABLE BBUR:\u{A071}\n\
YI SYLLABLE BBYT:\u{A072}\n\
YI SYLLABLE BBYX:\u{A073}\n\
YI SYLLABLE BBY:\u{A074}\n\
YI SYLLABLE BBYP:\u{A075}\n\
YI SYLLABLE NBIT:\u{A076}\n\
YI SYLLABLE NBIX:\u{A077}\n\
YI SYLLABLE NBI:\u{A078}\n\
YI SYLLABLE NBIP:\u{A079}\n\
YI SYLLABLE NBIEX:\u{A07A}\n\
YI SYLLABLE NBIE:\u{A07B}\n\
YI SYLLABLE NBIEP:\u{A07C}\n\
YI SYLLABLE NBAT:\u{A07D}\n\
YI SYLLABLE NBAX:\u{A07E}\n\
YI SYLLABLE NBA:\u{A07F}\n\
YI SYLLABLE NBAP:\u{A080}\n\
YI SYLLABLE NBOT:\u{A081}\n\
YI SYLLABLE NBOX:\u{A082}\n\
YI SYLLABLE NBO:\u{A083}\n\
YI SYLLABLE NBOP:\u{A084}\n\
YI SYLLABLE NBUT:\u{A085}\n\
YI SYLLABLE NBUX:\u{A086}\n\
YI SYLLABLE NBU:\u{A087}\n\
YI SYLLABLE NBUP:\u{A088}\n\
YI SYLLABLE NBURX:\u{A089}\n\
YI SYLLABLE NBUR:\u{A08A}\n\
YI SYLLABLE NBYT:\u{A08B}\n\
YI SYLLABLE NBYX:\u{A08C}\n\
YI SYLLABLE NBY:\u{A08D}\n\
YI SYLLABLE NBYP:\u{A08E}\n\
YI SYLLABLE NBYRX:\u{A08F}\n\
YI SYLLABLE NBYR:\u{A090}\n\
YI SYLLABLE HMIT:\u{A091}\n\
YI SYLLABLE HMIX:\u{A092}\n\
YI SYLLABLE HMI:\u{A093}\n\
YI SYLLABLE HMIP:\u{A094}\n\
YI SYLLABLE HMIEX:\u{A095}\n\
YI SYLLABLE HMIE:\u{A096}\n\
YI SYLLABLE HMIEP:\u{A097}\n\
YI SYLLABLE HMAT:\u{A098}\n\
YI SYLLABLE HMAX:\u{A099}\n\
YI SYLLABLE HMA:\u{A09A}\n\
YI SYLLABLE HMAP:\u{A09B}\n\
YI SYLLABLE HMUOX:\u{A09C}\n\
YI SYLLABLE HMUO:\u{A09D}\n\
YI SYLLABLE HMUOP:\u{A09E}\n\
YI SYLLABLE HMOT:\u{A09F}\n\
YI SYLLABLE HMOX:\u{A0A0}\n\
YI SYLLABLE HMO:\u{A0A1}\n\
YI SYLLABLE HMOP:\u{A0A2}\n\
YI SYLLABLE HMUT:\u{A0A3}\n\
YI SYLLABLE HMUX:\u{A0A4}\n\
YI SYLLABLE HMU:\u{A0A5}\n\
YI SYLLABLE HMUP:\u{A0A6}\n\
YI SYLLABLE HMURX:\u{A0A7}\n\
YI SYLLABLE HMUR:\u{A0A8}\n\
YI SYLLABLE HMYX:\u{A0A9}\n\
YI SYLLABLE HMY:\u{A0AA}\n\
YI SYLLABLE HMYP:\u{A0AB}\n\
YI SYLLABLE HMYRX:\u{A0AC}\n\
YI SYLLABLE HMYR:\u{A0AD}\n\
YI SYLLABLE MIT:\u{A0AE}\n\
YI SYLLABLE MIX:\u{A0AF}\n\
YI SYLLABLE MI:\u{A0B0}\n\
YI SYLLABLE MIP:\u{A0B1}\n\
YI SYLLABLE MIEX:\u{A0B2}\n\
YI SYLLABLE MIE:\u{A0B3}\n\
YI SYLLABLE MIEP:\u{A0B4}\n\
YI SYLLABLE MAT:\u{A0B5}\n\
YI SYLLABLE MAX:\u{A0B6}\n\
YI SYLLABLE MA:\u{A0B7}\n\
YI SYLLABLE MAP:\u{A0B8}\n\
YI SYLLABLE MUOT:\u{A0B9}\n\
YI SYLLABLE MUOX:\u{A0BA}\n\
YI SYLLABLE MUO:\u{A0BB}\n\
YI SYLLABLE MUOP:\u{A0BC}\n\
YI SYLLABLE MOT:\u{A0BD}\n\
YI SYLLABLE MOX:\u{A0BE}\n\
YI SYLLABLE MO:\u{A0BF}\n\
YI SYLLABLE MOP:\u{A0C0}\n\
YI SYLLABLE MEX:\u{A0C1}\n\
YI SYLLABLE ME:\u{A0C2}\n\
YI SYLLABLE MUT:\u{A0C3}\n\
YI SYLLABLE MUX:\u{A0C4}\n\
YI SYLLABLE MU:\u{A0C5}\n\
YI SYLLABLE MUP:\u{A0C6}\n\
YI SYLLABLE MURX:\u{A0C7}\n\
YI SYLLABLE MUR:\u{A0C8}\n\
YI SYLLABLE MYT:\u{A0C9}\n\
YI SYLLABLE MYX:\u{A0CA}\n\
YI SYLLABLE MY:\u{A0CB}\n\
YI SYLLABLE MYP:\u{A0CC}\n\
YI SYLLABLE FIT:\u{A0CD}\n\
YI SYLLABLE FIX:\u{A0CE}\n\
YI SYLLABLE FI:\u{A0CF}\n\
YI SYLLABLE FIP:\u{A0D0}\n\
YI SYLLABLE FAT:\u{A0D1}\n\
YI SYLLABLE FAX:\u{A0D2}\n\
YI SYLLABLE FA:\u{A0D3}\n\
YI SYLLABLE FAP:\u{A0D4}\n\
YI SYLLABLE FOX:\u{A0D5}\n\
YI SYLLABLE FO:\u{A0D6}\n\
YI SYLLABLE FOP:\u{A0D7}\n\
YI SYLLABLE FUT:\u{A0D8}\n\
YI SYLLABLE FUX:\u{A0D9}\n\
YI SYLLABLE FU:\u{A0DA}\n\
YI SYLLABLE FUP:\u{A0DB}\n\
YI SYLLABLE FURX:\u{A0DC}\n\
YI SYLLABLE FUR:\u{A0DD}\n\
YI SYLLABLE FYT:\u{A0DE}\n\
YI SYLLABLE FYX:\u{A0DF}\n\
YI SYLLABLE FY:\u{A0E0}\n\
YI SYLLABLE FYP:\u{A0E1}\n\
YI SYLLABLE VIT:\u{A0E2}\n\
YI SYLLABLE VIX:\u{A0E3}\n\
YI SYLLABLE VI:\u{A0E4}\n\
YI SYLLABLE VIP:\u{A0E5}\n\
YI SYLLABLE VIET:\u{A0E6}\n\
YI SYLLABLE VIEX:\u{A0E7}\n\
YI SYLLABLE VIE:\u{A0E8}\n\
YI SYLLABLE VIEP:\u{A0E9}\n\
YI SYLLABLE VAT:\u{A0EA}\n\
YI SYLLABLE VAX:\u{A0EB}\n\
YI SYLLABLE VA:\u{A0EC}\n\
YI SYLLABLE VAP:\u{A0ED}\n\
YI SYLLABLE VOT:\u{A0EE}\n\
YI SYLLABLE VOX:\u{A0EF}\n\
YI SYLLABLE VO:\u{A0F0}\n\
YI SYLLABLE VOP:\u{A0F1}\n\
YI SYLLABLE VEX:\u{A0F2}\n\
YI SYLLABLE VEP:\u{A0F3}\n\
YI SYLLABLE VUT:\u{A0F4}\n\
YI SYLLABLE VUX:\u{A0F5}\n\
YI SYLLABLE VU:\u{A0F6}\n\
YI SYLLABLE VUP:\u{A0F7}\n\
YI SYLLABLE VURX:\u{A0F8}\n\
YI SYLLABLE VUR:\u{A0F9}\n\
YI SYLLABLE VYT:\u{A0FA}\n\
YI SYLLABLE VYX:\u{A0FB}\n\
YI SYLLABLE VY:\u{A0FC}\n\
YI SYLLABLE VYP:\u{A0FD}\n\
YI SYLLABLE VYRX:\u{A0FE}\n\
YI SYLLABLE VYR:\u{A0FF}\n\
YI SYLLABLE DIT:\u{A100}\n\
YI SYLLABLE DIX:\u{A101}\n\
YI SYLLABLE DI:\u{A102}\n\
YI SYLLABLE DIP:\u{A103}\n\
YI SYLLABLE DIEX:\u{A104}\n\
YI SYLLABLE DIE:\u{A105}\n\
YI SYLLABLE DIEP:\u{A106}\n\
YI SYLLABLE DAT:\u{A107}\n\
YI SYLLABLE DAX:\u{A108}\n\
YI SYLLABLE DA:\u{A109}\n\
YI SYLLABLE DAP:\u{A10A}\n\
YI SYLLABLE DUOX:\u{A10B}\n\
YI SYLLABLE DUO:\u{A10C}\n\
YI SYLLABLE DOT:\u{A10D}\n\
YI SYLLABLE DOX:\u{A10E}\n\
YI SYLLABLE DO:\u{A10F}\n\
YI SYLLABLE DOP:\u{A110}\n\
YI SYLLABLE DEX:\u{A111}\n\
YI SYLLABLE DE:\u{A112}\n\
YI SYLLABLE DEP:\u{A113}\n\
YI SYLLABLE DUT:\u{A114}\n\
YI SYLLABLE DUX:\u{A115}\n\
YI SYLLABLE DU:\u{A116}\n\
YI SYLLABLE DUP:\u{A117}\n\
YI SYLLABLE DURX:\u{A118}\n\
YI SYLLABLE DUR:\u{A119}\n\
YI SYLLABLE TIT:\u{A11A}\n\
YI SYLLABLE TIX:\u{A11B}\n\
YI SYLLABLE TI:\u{A11C}\n\
YI SYLLABLE TIP:\u{A11D}\n\
YI SYLLABLE TIEX:\u{A11E}\n\
YI SYLLABLE TIE:\u{A11F}\n\
YI SYLLABLE TIEP:\u{A120}\n\
YI SYLLABLE TAT:\u{A121}\n\
YI SYLLABLE TAX:\u{A122}\n\
YI SYLLABLE TA:\u{A123}\n\
YI SYLLABLE TAP:\u{A124}\n\
YI SYLLABLE TUOT:\u{A125}\n\
YI SYLLABLE TUOX:\u{A126}\n\
YI SYLLABLE TUO:\u{A127}\n\
YI SYLLABLE TUOP:\u{A128}\n\
YI SYLLABLE TOT:\u{A129}\n\
YI SYLLABLE TOX:\u{A12A}\n\
YI SYLLABLE TO:\u{A12B}\n\
YI SYLLABLE TOP:\u{A12C}\n\
YI SYLLABLE TEX:\u{A12D}\n\
YI SYLLABLE TE:\u{A12E}\n\
YI SYLLABLE TEP:\u{A12F}\n\
YI SYLLABLE TUT:\u{A130}\n\
YI SYLLABLE TUX:\u{A131}\n\
YI SYLLABLE TU:\u{A132}\n\
YI SYLLABLE TUP:\u{A133}\n\
YI SYLLABLE TURX:\u{A134}\n\
YI SYLLABLE TUR:\u{A135}\n\
YI SYLLABLE DDIT:\u{A136}\n\
YI SYLLABLE DDIX:\u{A137}\n\
YI SYLLABLE DDI:\u{A138}\n\
YI SYLLABLE DDIP:\u{A139}\n\
YI SYLLABLE DDIEX:\u{A13A}\n\
YI SYLLABLE DDIE:\u{A13B}\n\
YI SYLLABLE DDIEP:\u{A13C}\n\
YI SYLLABLE DDAT:\u{A13D}\n\
YI SYLLABLE DDAX:\u{A13E}\n\
YI SYLLABLE DDA:\u{A13F}\n\
YI SYLLABLE DDAP:\u{A140}\n\
YI SYLLABLE DDUOX:\u{A141}\n\
YI SYLLABLE DDUO:\u{A142}\n\
YI SYLLABLE DDUOP:\u{A143}\n\
YI SYLLABLE DDOT:\u{A144}\n\
YI SYLLABLE DDOX:\u{A145}\n\
YI SYLLABLE DDO:\u{A146}\n\
YI SYLLABLE DDOP:\u{A147}\n\
YI SYLLABLE DDEX:\u{A148}\n\
YI SYLLABLE DDE:\u{A149}\n\
YI SYLLABLE DDEP:\u{A14A}\n\
YI SYLLABLE DDUT:\u{A14B}\n\
YI SYLLABLE DDUX:\u{A14C}\n\
YI SYLLABLE DDU:\u{A14D}\n\
YI SYLLABLE DDUP:\u{A14E}\n\
YI SYLLABLE DDURX:\u{A14F}\n\
YI SYLLABLE DDUR:\u{A150}\n\
YI SYLLABLE NDIT:\u{A151}\n\
YI SYLLABLE NDIX:\u{A152}\n\
YI SYLLABLE NDI:\u{A153}\n\
YI SYLLABLE NDIP:\u{A154}\n\
YI SYLLABLE NDIEX:\u{A155}\n\
YI SYLLABLE NDIE:\u{A156}\n";

pub const NAMES_32: &'static str = "YI SYLLABLE NDAT:\u{A157}\n\
YI SYLLABLE NDAX:\u{A158}\n\
YI SYLLABLE NDA:\u{A159}\n\
YI SYLLABLE NDAP:\u{A15A}\n\
YI SYLLABLE NDOT:\u{A15B}\n\
YI SYLLABLE NDOX:\u{A15C}\n\
YI SYLLABLE NDO:\u{A15D}\n\
YI SYLLABLE NDOP:\u{A15E}\n\
YI SYLLABLE NDEX:\u{A15F}\n\
YI SYLLABLE NDE:\u{A160}\n\
YI SYLLABLE NDEP:\u{A161}\n\
YI SYLLABLE NDUT:\u{A162}\n\
YI SYLLABLE NDUX:\u{A163}\n\
YI SYLLABLE NDU:\u{A164}\n\
YI SYLLABLE NDUP:\u{A165}\n\
YI SYLLABLE NDURX:\u{A166}\n\
YI SYLLABLE NDUR:\u{A167}\n\
YI SYLLABLE HNIT:\u{A168}\n\
YI SYLLABLE HNIX:\u{A169}\n\
YI SYLLABLE HNI:\u{A16A}\n\
YI SYLLABLE HNIP:\u{A16B}\n\
YI SYLLABLE HNIET:\u{A16C}\n\
YI SYLLABLE HNIEX:\u{A16D}\n\
YI SYLLABLE HNIE:\u{A16E}\n\
YI SYLLABLE HNIEP:\u{A16F}\n\
YI SYLLABLE HNAT:\u{A170}\n\
YI SYLLABLE HNAX:\u{A171}\n\
YI SYLLABLE HNA:\u{A172}\n\
YI SYLLABLE HNAP:\u{A173}\n\
YI SYLLABLE HNUOX:\u{A174}\n\
YI SYLLABLE HNUO:\u{A175}\n\
YI SYLLABLE HNOT:\u{A176}\n\
YI SYLLABLE HNOX:\u{A177}\n\
YI SYLLABLE HNOP:\u{A178}\n\
YI SYLLABLE HNEX:\u{A179}\n\
YI SYLLABLE HNE:\u{A17A}\n\
YI SYLLABLE HNEP:\u{A17B}\n\
YI SYLLABLE HNUT:\u{A17C}\n\
YI SYLLABLE NIT:\u{A17D}\n\
YI SYLLABLE NIX:\u{A17E}\n\
YI SYLLABLE NI:\u{A17F}\n\
YI SYLLABLE NIP:\u{A180}\n\
YI SYLLABLE NIEX:\u{A181}\n\
YI SYLLABLE NIE:\u{A182}\n\
YI SYLLABLE NIEP:\u{A183}\n\
YI SYLLABLE NAX:\u{A184}\n\
YI SYLLABLE NA:\u{A185}\n\
YI SYLLABLE NAP:\u{A186}\n\
YI SYLLABLE NUOX:\u{A187}\n\
YI SYLLABLE NUO:\u{A188}\n\
YI SYLLABLE NUOP:\u{A189}\n\
YI SYLLABLE NOT:\u{A18A}\n\
YI SYLLABLE NOX:\u{A18B}\n\
YI SYLLABLE NO:\u{A18C}\n\
YI SYLLABLE NOP:\u{A18D}\n\
YI SYLLABLE NEX:\u{A18E}\n\
YI SYLLABLE NE:\u{A18F}\n\
YI SYLLABLE NEP:\u{A190}\n\
YI SYLLABLE NUT:\u{A191}\n\
YI SYLLABLE NUX:\u{A192}\n\
YI SYLLABLE NU:\u{A193}\n\
YI SYLLABLE NUP:\u{A194}\n\
YI SYLLABLE NURX:\u{A195}\n\
YI SYLLABLE NUR:\u{A196}\n\
YI SYLLABLE HLIT:\u{A197}\n\
YI SYLLABLE HLIX:\u{A198}\n\
YI SYLLABLE HLI:\u{A199}\n\
YI SYLLABLE HLIP:\u{A19A}\n\
YI SYLLABLE HLIEX:\u{A19B}\n\
YI SYLLABLE HLIE:\u{A19C}\n\
YI SYLLABLE HLIEP:\u{A19D}\n\
YI SYLLABLE HLAT:\u{A19E}\n\
YI SYLLABLE HLAX:\u{A19F}\n\
YI SYLLABLE HLA:\u{A1A0}\n\
YI SYLLABLE HLAP:\u{A1A1}\n\
YI SYLLABLE HLUOX:\u{A1A2}\n\
YI SYLLABLE HLUO:\u{A1A3}\n\
YI SYLLABLE HLUOP:\u{A1A4}\n\
YI SYLLABLE HLOX:\u{A1A5}\n\
YI SYLLABLE HLO:\u{A1A6}\n\
YI SYLLABLE HLOP:\u{A1A7}\n\
YI SYLLABLE HLEX:\u{A1A8}\n\
YI SYLLABLE HLE:\u{A1A9}\n\
YI SYLLABLE HLEP:\u{A1AA}\n\
YI SYLLABLE HLUT:\u{A1AB}\n\
YI SYLLABLE HLUX:\u{A1AC}\n\
YI SYLLABLE HLU:\u{A1AD}\n\
YI SYLLABLE HLUP:\u{A1AE}\n\
YI SYLLABLE HLURX:\u{A1AF}\n\
YI SYLLABLE HLUR:\u{A1B0}\n\
YI SYLLABLE HLYT:\u{A1B1}\n\
YI SYLLABLE HLYX:\u{A1B2}\n\
YI SYLLABLE HLY:\u{A1B3}\n\
YI SYLLABLE HLYP:\u{A1B4}\n\
YI SYLLABLE HLYRX:\u{A1B5}\n\
YI SYLLABLE HLYR:\u{A1B6}\n\
YI SYLLABLE LIT:\u{A1B7}\n\
YI SYLLABLE LIX:\u{A1B8}\n\
YI SYLLABLE LI:\u{A1B9}\n\
YI SYLLABLE LIP:\u{A1BA}\n\
YI SYLLABLE LIET:\u{A1BB}\n\
YI SYLLABLE LIEX:\u{A1BC}\n\
YI SYLLABLE LIE:\u{A1BD}\n\
YI SYLLABLE LIEP:\u{A1BE}\n\
YI SYLLABLE LAT:\u{A1BF}\n\
YI SYLLABLE LAX:\u{A1C0}\n\
YI SYLLABLE LA:\u{A1C1}\n\
YI SYLLABLE LAP:\u{A1C2}\n\
YI SYLLABLE LUOT:\u{A1C3}\n\
YI SYLLABLE LUOX:\u{A1C4}\n\
YI SYLLABLE LUO:\u{A1C5}\n\
YI SYLLABLE LUOP:\u{A1C6}\n\
YI SYLLABLE LOT:\u{A1C7}\n\
YI SYLLABLE LOX:\u{A1C8}\n\
YI SYLLABLE LO:\u{A1C9}\n\
YI SYLLABLE LOP:\u{A1CA}\n\
YI SYLLABLE LEX:\u{A1CB}\n\
YI SYLLABLE LE:\u{A1CC}\n\
YI SYLLABLE LEP:\u{A1CD}\n\
YI SYLLABLE LUT:\u{A1CE}\n\
YI SYLLABLE LUX:\u{A1CF}\n\
YI SYLLABLE LU:\u{A1D0}\n\
YI SYLLABLE LUP:\u{A1D1}\n\
YI SYLLABLE LURX:\u{A1D2}\n\
YI SYLLABLE LUR:\u{A1D3}\n\
YI SYLLABLE LYT:\u{A1D4}\n\
YI SYLLABLE LYX:\u{A1D5}\n\
YI SYLLABLE LY:\u{A1D6}\n\
YI SYLLABLE LYP:\u{A1D7}\n\
YI SYLLABLE LYRX:\u{A1D8}\n\
YI SYLLABLE LYR:\u{A1D9}\n\
YI SYLLABLE GIT:\u{A1DA}\n\
YI SYLLABLE GIX:\u{A1DB}\n\
YI SYLLABLE GI:\u{A1DC}\n\
YI SYLLABLE GIP:\u{A1DD}\n\
YI SYLLABLE GIET:\u{A1DE}\n\
YI SYLLABLE GIEX:\u{A1DF}\n\
YI SYLLABLE GIE:\u{A1E0}\n\
YI SYLLABLE GIEP:\u{A1E1}\n\
YI SYLLABLE GAT:\u{A1E2}\n\
YI SYLLABLE GAX:\u{A1E3}\n\
YI SYLLABLE GA:\u{A1E4}\n\
YI SYLLABLE GAP:\u{A1E5}\n\
YI SYLLABLE GUOT:\u{A1E6}\n\
YI SYLLABLE GUOX:\u{A1E7}\n\
YI SYLLABLE GUO:\u{A1E8}\n\
YI SYLLABLE GUOP:\u{A1E9}\n\
YI SYLLABLE GOT:\u{A1EA}\n\
YI SYLLABLE GOX:\u{A1EB}\n\
YI SYLLABLE GO:\u{A1EC}\n\
YI SYLLABLE GOP:\u{A1ED}\n\
YI SYLLABLE GET:\u{A1EE}\n\
YI SYLLABLE GEX:\u{A1EF}\n\
YI SYLLABLE GE:\u{A1F0}\n\
YI SYLLABLE GEP:\u{A1F1}\n\
YI SYLLABLE GUT:\u{A1F2}\n\
YI SYLLABLE GUX:\u{A1F3}\n\
YI SYLLABLE GU:\u{A1F4}\n\
YI SYLLABLE GUP:\u{A1F5}\n\
YI SYLLABLE GURX:\u{A1F6}\n\
YI SYLLABLE GUR:\u{A1F7}\n\
YI SYLLABLE KIT:\u{A1F8}\n\
YI SYLLABLE KIX:\u{A1F9}\n\
YI SYLLABLE KI:\u{A1FA}\n\
YI SYLLABLE KIP:\u{A1FB}\n\
YI SYLLABLE KIEX:\u{A1FC}\n\
YI SYLLABLE KIE:\u{A1FD}\n\
YI SYLLABLE KIEP:\u{A1FE}\n\
YI SYLLABLE KAT:\u{A1FF}\n\
YI SYLLABLE KAX:\u{A200}\n\
YI SYLLABLE KA:\u{A201}\n\
YI SYLLABLE KAP:\u{A202}\n\
YI SYLLABLE KUOX:\u{A203}\n\
YI SYLLABLE KUO:\u{A204}\n\
YI SYLLABLE KUOP:\u{A205}\n\
YI SYLLABLE KOT:\u{A206}\n\
YI SYLLABLE KOX:\u{A207}\n\
YI SYLLABLE KO:\u{A208}\n\
YI SYLLABLE KOP:\u{A209}\n\
YI SYLLABLE KET:\u{A20A}\n\
YI SYLLABLE KEX:\u{A20B}\n\
YI SYLLABLE KE:\u{A20C}\n\
YI SYLLABLE KEP:\u{A20D}\n\
YI SYLLABLE KUT:\u{A20E}\n\
YI SYLLABLE KUX:\u{A20F}\n\
YI SYLLABLE KU:\u{A210}\n\
YI SYLLABLE KUP:\u{A211}\n\
YI SYLLABLE KURX:\u{A212}\n\
YI SYLLABLE KUR:\u{A213}\n\
YI SYLLABLE GGIT:\u{A214}\n\
YI SYLLABLE GGIX:\u{A215}\n\
YI SYLLABLE GGI:\u{A216}\n\
YI SYLLABLE GGIEX:\u{A217}\n\
YI SYLLABLE GGIE:\u{A218}\n\
YI SYLLABLE GGIEP:\u{A219}\n\
YI SYLLABLE GGAT:\u{A21A}\n\
YI SYLLABLE GGAX:\u{A21B}\n\
YI SYLLABLE GGA:\u{A21C}\n\
YI SYLLABLE GGAP:\u{A21D}\n\
YI SYLLABLE GGUOT:\u{A21E}\n\
YI SYLLABLE GGUOX:\u{A21F}\n\
YI SYLLABLE GGUO:\u{A220}\n\
YI SYLLABLE GGUOP:\u{A221}\n\
YI SYLLABLE GGOT:\u{A222}\n\
YI SYLLABLE GGOX:\u{A223}\n\
YI SYLLABLE GGO:\u{A224}\n\
YI SYLLABLE GGOP:\u{A225}\n\
YI SYLLABLE GGET:\u{A226}\n\
YI SYLLABLE GGEX:\u{A227}\n\
YI SYLLABLE GGE:\u{A228}\n\
YI SYLLABLE GGEP:\u{A229}\n\
YI SYLLABLE GGUT:\u{A22A}\n\
YI SYLLABLE GGUX:\u{A22B}\n\
YI SYLLABLE GGU:\u{A22C}\n\
YI SYLLABLE GGUP:\u{A22D}\n\
YI SYLLABLE GGURX:\u{A22E}\n\
YI SYLLABLE GGUR:\u{A22F}\n\
YI SYLLABLE MGIEX:\u{A230}\n\
YI SYLLABLE MGIE:\u{A231}\n\
YI SYLLABLE MGAT:\u{A232}\n\
YI SYLLABLE MGAX:\u{A233}\n\
YI SYLLABLE MGA:\u{A234}\n\
YI SYLLABLE MGAP:\u{A235}\n\
YI SYLLABLE MGUOX:\u{A236}\n\
YI SYLLABLE MGUO:\u{A237}\n\
YI SYLLABLE MGUOP:\u{A238}\n\
YI SYLLABLE MGOT:\u{A239}\n\
YI SYLLABLE MGOX:\u{A23A}\n\
YI SYLLABLE MGO:\u{A23B}\n\
YI SYLLABLE MGOP:\u{A23C}\n\
YI SYLLABLE MGEX:\u{A23D}\n\
YI SYLLABLE MGE:\u{A23E}\n\
YI SYLLABLE MGEP:\u{A23F}\n\
YI SYLLABLE MGUT:\u{A240}\n\
YI SYLLABLE MGUX:\u{A241}\n\
YI SYLLABLE MGU:\u{A242}\n\
YI SYLLABLE MGUP:\u{A243}\n\
YI SYLLABLE MGURX:\u{A244}\n\
YI SYLLABLE MGUR:\u{A245}\n\
YI SYLLABLE HXIT:\u{A246}\n\
YI SYLLABLE HXIX:\u{A247}\n\
YI SYLLABLE HXI:\u{A248}\n\
YI SYLLABLE HXIP:\u{A249}\n\
YI SYLLABLE HXIET:\u{A24A}\n\
YI SYLLABLE HXIEX:\u{A24B}\n\
YI SYLLABLE HXIE:\u{A24C}\n\
YI SYLLABLE HXIEP:\u{A24D}\n\
YI SYLLABLE HXAT:\u{A24E}\n\
YI SYLLABLE HXAX:\u{A24F}\n\
YI SYLLABLE HXA:\u{A250}\n\
YI SYLLABLE HXAP:\u{A251}\n\
YI SYLLABLE HXUOT:\u{A252}\n\
YI SYLLABLE HXUOX:\u{A253}\n\
YI SYLLABLE HXUO:\u{A254}\n\
YI SYLLABLE HXUOP:\u{A255}\n\
YI SYLLABLE HXOT:\u{A256}\n\
YI SYLLABLE HXOX:\u{A257}\n\
YI SYLLABLE HXO:\u{A258}\n\
YI SYLLABLE HXOP:\u{A259}\n\
YI SYLLABLE HXEX:\u{A25A}\n\
YI SYLLABLE HXE:\u{A25B}\n\
YI SYLLABLE HXEP:\u{A25C}\n\
YI SYLLABLE NGIEX:\u{A25D}\n\
YI SYLLABLE NGIE:\u{A25E}\n\
YI SYLLABLE NGIEP:\u{A25F}\n\
YI SYLLABLE NGAT:\u{A260}\n\
YI SYLLABLE NGAX:\u{A261}\n\
YI SYLLABLE NGA:\u{A262}\n\
YI SYLLABLE NGAP:\u{A263}\n\
YI SYLLABLE NGUOT:\u{A264}\n\
YI SYLLABLE NGUOX:\u{A265}\n\
YI SYLLABLE NGUO:\u{A266}\n\
YI SYLLABLE NGOT:\u{A267}\n\
YI SYLLABLE NGOX:\u{A268}\n\
YI SYLLABLE NGO:\u{A269}\n\
YI SYLLABLE NGOP:\u{A26A}\n\
YI SYLLABLE NGEX:\u{A26B}\n\
YI SYLLABLE NGE:\u{A26C}\n\
YI SYLLABLE NGEP:\u{A26D}\n\
YI SYLLABLE HIT:\u{A26E}\n\
YI SYLLABLE HIEX:\u{A26F}\n\
YI SYLLABLE HIE:\u{A270}\n\
YI SYLLABLE HAT:\u{A271}\n\
YI SYLLABLE HAX:\u{A272}\n\
YI SYLLABLE HA:\u{A273}\n\
YI SYLLABLE HAP:\u{A274}\n\
YI SYLLABLE HUOT:\u{A275}\n\
YI SYLLABLE HUOX:\u{A276}\n\
YI SYLLABLE HUO:\u{A277}\n\
YI SYLLABLE HUOP:\u{A278}\n\
YI SYLLABLE HOT:\u{A279}\n\
YI SYLLABLE HOX:\u{A27A}\n\
YI SYLLABLE HO:\u{A27B}\n\
YI SYLLABLE HOP:\u{A27C}\n\
YI SYLLABLE HEX:\u{A27D}\n\
YI SYLLABLE HE:\u{A27E}\n\
YI SYLLABLE HEP:\u{A27F}\n\
YI SYLLABLE WAT:\u{A280}\n\
YI SYLLABLE WAX:\u{A281}\n\
YI SYLLABLE WA:\u{A282}\n\
YI SYLLABLE WAP:\u{A283}\n\
YI SYLLABLE WUOX:\u{A284}\n\
YI SYLLABLE WUO:\u{A285}\n\
YI SYLLABLE WUOP:\u{A286}\n\
YI SYLLABLE WOX:\u{A287}\n\
YI SYLLABLE WO:\u{A288}\n\
YI SYLLABLE WOP:\u{A289}\n\
YI SYLLABLE WEX:\u{A28A}\n\
YI SYLLABLE WE:\u{A28B}\n\
YI SYLLABLE WEP:\u{A28C}\n\
YI SYLLABLE ZIT:\u{A28D}\n\
YI SYLLABLE ZIX:\u{A28E}\n\
YI SYLLABLE ZI:\u{A28F}\n\
YI SYLLABLE ZIP:\u{A290}\n\
YI SYLLABLE ZIEX:\u{A291}\n\
YI SYLLABLE ZIE:\u{A292}\n\
YI SYLLABLE ZIEP:\u{A293}\n\
YI SYLLABLE ZAT:\u{A294}\n\
YI SYLLABLE ZAX:\u{A295}\n\
YI SYLLABLE ZA:\u{A296}\n\
YI SYLLABLE ZAP:\u{A297}\n\
YI SYLLABLE ZUOX:\u{A298}\n\
YI SYLLABLE ZUO:\u{A299}\n\
YI SYLLABLE ZUOP:\u{A29A}\n\
YI SYLLABLE ZOT:\u{A29B}\n\
YI SYLLABLE ZOX:\u{A29C}\n\
YI SYLLABLE ZO:\u{A29D}\n\
YI SYLLABLE ZOP:\u{A29E}\n\
YI SYLLABLE ZEX:\u{A29F}\n\
YI SYLLABLE ZE:\u{A2A0}\n\
YI SYLLABLE ZEP:\u{A2A1}\n\
YI SYLLABLE ZUT:\u{A2A2}\n\
YI SYLLABLE ZUX:\u{A2A3}\n\
YI SYLLABLE ZU:\u{A2A4}\n\
YI SYLLABLE ZUP:\u{A2A5}\n\
YI SYLLABLE ZURX:\u{A2A6}\n\
YI SYLLABLE ZUR:\u{A2A7}\n\
YI SYLLABLE ZYT:\u{A2A8}\n\
YI SYLLABLE ZYX:\u{A2A9}\n\
YI SYLLABLE ZY:\u{A2AA}\n\
YI SYLLABLE ZYP:\u{A2AB}\n\
YI SYLLABLE ZYRX:\u{A2AC}\n\
YI SYLLABLE ZYR:\u{A2AD}\n\
YI SYLLABLE CIT:\u{A2AE}\n\
YI SYLLABLE CIX:\u{A2AF}\n\
YI SYLLABLE CI:\u{A2B0}\n\
YI SYLLABLE CIP:\u{A2B1}\n\
YI SYLLABLE CIET:\u{A2B2}\n\
YI SYLLABLE CIEX:\u{A2B3}\n\
YI SYLLABLE CIE:\u{A2B4}\n\
YI SYLLABLE CIEP:\u{A2B5}\n\
YI SYLLABLE CAT:\u{A2B6}\n\
YI SYLLABLE CAX:\u{A2B7}\n\
YI SYLLABLE CA:\u{A2B8}\n\
YI SYLLABLE CAP:\u{A2B9}\n\
YI SYLLABLE CUOX:\u{A2BA}\n\
YI SYLLABLE CUO:\u{A2BB}\n\
YI SYLLABLE CUOP:\u{A2BC}\n\
YI SYLLABLE COT:\u{A2BD}\n\
YI SYLLABLE COX:\u{A2BE}\n\
YI SYLLABLE CO:\u{A2BF}\n\
YI SYLLABLE COP:\u{A2C0}\n\
YI SYLLABLE CEX:\u{A2C1}\n\
YI SYLLABLE CE:\u{A2C2}\n\
YI SYLLABLE CEP:\u{A2C3}\n\
YI SYLLABLE CUT:\u{A2C4}\n\
YI SYLLABLE CUX:\u{A2C5}\n\
YI SYLLABLE CU:\u{A2C6}\n\
YI SYLLABLE CUP:\u{A2C7}\n\
YI SYLLABLE CURX:\u{A2C8}\n\
YI SYLLABLE CUR:\u{A2C9}\n\
YI SYLLABLE CYT:\u{A2CA}\n\
YI SYLLABLE CYX:\u{A2CB}\n\
YI SYLLABLE CY:\u{A2CC}\n\
YI SYLLABLE CYP:\u{A2CD}\n\
YI SYLLABLE CYRX:\u{A2CE}\n\
YI SYLLABLE CYR:\u{A2CF}\n\
YI SYLLABLE ZZIT:\u{A2D0}\n\
YI SYLLABLE ZZIX:\u{A2D1}\n\
YI SYLLABLE ZZI:\u{A2D2}\n\
YI SYLLABLE ZZIP:\u{A2D3}\n\
YI SYLLABLE ZZIET:\u{A2D4}\n\
YI SYLLABLE ZZIEX:\u{A2D5}\n\
YI SYLLABLE ZZIE:\u{A2D6}\n\
YI SYLLABLE ZZIEP:\u{A2D7}\n\
YI SYLLABLE ZZAT:\u{A2D8}\n\
YI SYLLABLE ZZAX:\u{A2D9}\n\
YI SYLLABLE ZZA:\u{A2DA}\n\
YI SYLLABLE ZZAP:\u{A2DB}\n\
YI SYLLABLE ZZOX:\u{A2DC}\n\
YI SYLLABLE ZZO:\u{A2DD}\n\
YI SYLLABLE ZZOP:\u{A2DE}\n\
YI SYLLABLE ZZEX:\u{A2DF}\n\
YI SYLLABLE ZZE:\u{A2E0}\n\
YI SYLLABLE ZZEP:\u{A2E1}\n\
YI SYLLABLE ZZUX:\u{A2E2}\n\
YI SYLLABLE ZZU:\u{A2E3}\n\
YI SYLLABLE ZZUP:\u{A2E4}\n\
YI SYLLABLE ZZURX:\u{A2E5}\n\
YI SYLLABLE ZZUR:\u{A2E6}\n\
YI SYLLABLE ZZYT:\u{A2E7}\n\
YI SYLLABLE ZZYX:\u{A2E8}\n\
YI SYLLABLE ZZY:\u{A2E9}\n\
YI SYLLABLE ZZYP:\u{A2EA}\n\
YI SYLLABLE ZZYRX:\u{A2EB}\n\
YI SYLLABLE ZZYR:\u{A2EC}\n\
YI SYLLABLE NZIT:\u{A2ED}\n\
YI SYLLABLE NZIX:\u{A2EE}\n\
YI SYLLABLE NZI:\u{A2EF}\n\
YI SYLLABLE NZIP:\u{A2F0}\n\
YI SYLLABLE NZIEX:\u{A2F1}\n\
YI SYLLABLE NZIE:\u{A2F2}\n\
YI SYLLABLE NZIEP:\u{A2F3}\n\
YI SYLLABLE NZAT:\u{A2F4}\n\
YI SYLLABLE NZAX:\u{A2F5}\n\
YI SYLLABLE NZA:\u{A2F6}\n\
YI SYLLABLE NZAP:\u{A2F7}\n\
YI SYLLABLE NZUOX:\u{A2F8}\n\
YI SYLLABLE NZUO:\u{A2F9}\n\
YI SYLLABLE NZOX:\u{A2FA}\n\
YI SYLLABLE NZOP:\u{A2FB}\n\
YI SYLLABLE NZEX:\u{A2FC}\n\
YI SYLLABLE NZE:\u{A2FD}\n\
YI SYLLABLE NZUX:\u{A2FE}\n\
YI SYLLABLE NZU:\u{A2FF}\n\
YI SYLLABLE NZUP:\u{A300}\n\
YI SYLLABLE NZURX:\u{A301}\n\
YI SYLLABLE NZUR:\u{A302}\n\
YI SYLLABLE NZYT:\u{A303}\n\
YI SYLLABLE NZYX:\u{A304}\n\
YI SYLLABLE NZY:\u{A305}\n\
YI SYLLABLE NZYP:\u{A306}\n\
YI SYLLABLE NZYRX:\u{A307}\n\
YI SYLLABLE NZYR:\u{A308}\n\
YI SYLLABLE SIT:\u{A309}\n\
YI SYLLABLE SIX:\u{A30A}\n\
YI SYLLABLE SI:\u{A30B}\n\
YI SYLLABLE SIP:\u{A30C}\n\
YI SYLLABLE SIEX:\u{A30D}\n\
YI SYLLABLE SIE:\u{A30E}\n\
YI SYLLABLE SIEP:\u{A30F}\n\
YI SYLLABLE SAT:\u{A310}\n\
YI SYLLABLE SAX:\u{A311}\n\
YI SYLLABLE SA:\u{A312}\n\
YI SYLLABLE SAP:\u{A313}\n\
YI SYLLABLE SUOX:\u{A314}\n\
YI SYLLABLE SUO:\u{A315}\n\
YI SYLLABLE SUOP:\u{A316}\n\
YI SYLLABLE SOT:\u{A317}\n\
YI SYLLABLE SOX:\u{A318}\n\
YI SYLLABLE SO:\u{A319}\n\
YI SYLLABLE SOP:\u{A31A}\n\
YI SYLLABLE SEX:\u{A31B}\n\
YI SYLLABLE SE:\u{A31C}\n\
YI SYLLABLE SEP:\u{A31D}\n\
YI SYLLABLE SUT:\u{A31E}\n\
YI SYLLABLE SUX:\u{A31F}\n\
YI SYLLABLE SU:\u{A320}\n\
YI SYLLABLE SUP:\u{A321}\n\
YI SYLLABLE SURX:\u{A322}\n\
YI SYLLABLE SUR:\u{A323}\n\
YI SYLLABLE SYT:\u{A324}\n\
YI SYLLABLE SYX:\u{A325}\n\
YI SYLLABLE SY:\u{A326}\n\
YI SYLLABLE SYP:\u{A327}\n\
YI SYLLABLE SYRX:\u{A328}\n\
YI SYLLABLE SYR:\u{A329}\n\
YI SYLLABLE SSIT:\u{A32A}\n\
YI SYLLABLE SSIX:\u{A32B}\n\
YI SYLLABLE SSI:\u{A32C}\n\
YI SYLLABLE SSIP:\u{A32D}\n\
YI SYLLABLE SSIEX:\u{A32E}\n\
YI SYLLABLE SSIE:\u{A32F}\n\
YI SYLLABLE SSIEP:\u{A330}\n\
YI SYLLABLE SSAT:\u{A331}\n\
YI SYLLABLE SSAX:\u{A332}\n\
YI SYLLABLE SSA:\u{A333}\n\
YI SYLLABLE SSAP:\u{A334}\n\
YI SYLLABLE SSOT:\u{A335}\n\
YI SYLLABLE SSOX:\u{A336}\n\
YI SYLLABLE SSO:\u{A337}\n\
YI SYLLABLE SSOP:\u{A338}\n\
YI SYLLABLE SSEX:\u{A339}\n\
YI SYLLABLE SSE:\u{A33A}\n\
YI SYLLABLE SSEP:\u{A33B}\n\
YI SYLLABLE SSUT:\u{A33C}\n\
YI SYLLABLE SSUX:\u{A33D}\n\
YI SYLLABLE SSU:\u{A33E}\n\
YI SYLLABLE SSUP:\u{A33F}\n\
YI SYLLABLE SSYT:\u{A340}\n\
YI SYLLABLE SSYX:\u{A341}\n\
YI SYLLABLE SSY:\u{A342}\n\
YI SYLLABLE SSYP:\u{A343}\n\
YI SYLLABLE SSYRX:\u{A344}\n\
YI SYLLABLE SSYR:\u{A345}\n\
YI SYLLABLE ZHAT:\u{A346}\n\
YI SYLLABLE ZHAX:\u{A347}\n\
YI SYLLABLE ZHA:\u{A348}\n\
YI SYLLABLE ZHAP:\u{A349}\n\
YI SYLLABLE ZHUOX:\u{A34A}\n\
YI SYLLABLE ZHUO:\u{A34B}\n\
YI SYLLABLE ZHUOP:\u{A34C}\n\
YI SYLLABLE ZHOT:\u{A34D}\n\
YI SYLLABLE ZHOX:\u{A34E}\n\
YI SYLLABLE ZHO:\u{A34F}\n\
YI SYLLABLE ZHOP:\u{A350}\n\
YI SYLLABLE ZHET:\u{A351}\n\
YI SYLLABLE ZHEX:\u{A352}\n\
YI SYLLABLE ZHE:\u{A353}\n\
YI SYLLABLE ZHEP:\u{A354}\n\
YI SYLLABLE ZHUT:\u{A355}\n\
YI SYLLABLE ZHUX:\u{A356}\n\
YI SYLLABLE ZHU:\u{A357}\n\
YI SYLLABLE ZHUP:\u{A358}\n\
YI SYLLABLE ZHURX:\u{A359}\n\
YI SYLLABLE ZHUR:\u{A35A}\n\
YI SYLLABLE ZHYT:\u{A35B}\n\
YI SYLLABLE ZHYX:\u{A35C}\n\
YI SYLLABLE ZHY:\u{A35D}\n\
YI SYLLABLE ZHYP:\u{A35E}\n\
YI SYLLABLE ZHYRX:\u{A35F}\n\
YI SYLLABLE ZHYR:\u{A360}\n\
YI SYLLABLE CHAT:\u{A361}\n\
YI SYLLABLE CHAX:\u{A362}\n\
YI SYLLABLE CHA:\u{A363}\n";

pub const NAMES_33: &'static str = "YI SYLLABLE CHAP:\u{A364}\n\
YI SYLLABLE CHUOT:\u{A365}\n\
YI SYLLABLE CHUOX:\u{A366}\n\
YI SYLLABLE CHUO:\u{A367}\n\
YI SYLLABLE CHUOP:\u{A368}\n\
YI SYLLABLE CHOT:\u{A369}\n\
YI SYLLABLE CHOX:\u{A36A}\n\
YI SYLLABLE CHO:\u{A36B}\n\
YI SYLLABLE CHOP:\u{A36C}\n\
YI SYLLABLE CHET:\u{A36D}\n\
YI SYLLABLE CHEX:\u{A36E}\n\
YI SYLLABLE CHE:\u{A36F}\n\
YI SYLLABLE CHEP:\u{A370}\n\
YI SYLLABLE CHUX:\u{A371}\n\
YI SYLLABLE CHU:\u{A372}\n\
YI SYLLABLE CHUP:\u{A373}\n\
YI SYLLABLE CHURX:\u{A374}\n\
YI SYLLABLE CHUR:\u{A375}\n\
YI SYLLABLE CHYT:\u{A376}\n\
YI SYLLABLE CHYX:\u{A377}\n\
YI SYLLABLE CHY:\u{A378}\n\
YI SYLLABLE CHYP:\u{A379}\n\
YI SYLLABLE CHYRX:\u{A37A}\n\
YI SYLLABLE CHYR:\u{A37B}\n\
YI SYLLABLE RRAX:\u{A37C}\n\
YI SYLLABLE RRA:\u{A37D}\n\
YI SYLLABLE RRUOX:\u{A37E}\n\
YI SYLLABLE RRUO:\u{A37F}\n\
YI SYLLABLE RROT:\u{A380}\n\
YI SYLLABLE RROX:\u{A381}\n\
YI SYLLABLE RRO:\u{A382}\n\
YI SYLLABLE RROP:\u{A383}\n\
YI SYLLABLE RRET:\u{A384}\n\
YI SYLLABLE RREX:\u{A385}\n\
YI SYLLABLE RRE:\u{A386}\n\
YI SYLLABLE RREP:\u{A387}\n\
YI SYLLABLE RRUT:\u{A388}\n\
YI SYLLABLE RRUX:\u{A389}\n\
YI SYLLABLE RRU:\u{A38A}\n\
YI SYLLABLE RRUP:\u{A38B}\n\
YI SYLLABLE RRURX:\u{A38C}\n\
YI SYLLABLE RRUR:\u{A38D}\n\
YI SYLLABLE RRYT:\u{A38E}\n\
YI SYLLABLE RRYX:\u{A38F}\n\
YI SYLLABLE RRY:\u{A390}\n\
YI SYLLABLE RRYP:\u{A391}\n\
YI SYLLABLE RRYRX:\u{A392}\n\
YI SYLLABLE RRYR:\u{A393}\n\
YI SYLLABLE NRAT:\u{A394}\n\
YI SYLLABLE NRAX:\u{A395}\n\
YI SYLLABLE NRA:\u{A396}\n\
YI SYLLABLE NRAP:\u{A397}\n\
YI SYLLABLE NROX:\u{A398}\n\
YI SYLLABLE NRO:\u{A399}\n\
YI SYLLABLE NROP:\u{A39A}\n\
YI SYLLABLE NRET:\u{A39B}\n\
YI SYLLABLE NREX:\u{A39C}\n\
YI SYLLABLE NRE:\u{A39D}\n\
YI SYLLABLE NREP:\u{A39E}\n\
YI SYLLABLE NRUT:\u{A39F}\n\
YI SYLLABLE NRUX:\u{A3A0}\n\
YI SYLLABLE NRU:\u{A3A1}\n\
YI SYLLABLE NRUP:\u{A3A2}\n\
YI SYLLABLE NRURX:\u{A3A3}\n\
YI SYLLABLE NRUR:\u{A3A4}\n\
YI SYLLABLE NRYT:\u{A3A5}\n\
YI SYLLABLE NRYX:\u{A3A6}\n\
YI SYLLABLE NRY:\u{A3A7}\n\
YI SYLLABLE NRYP:\u{A3A8}\n\
YI SYLLABLE NRYRX:\u{A3A9}\n\
YI SYLLABLE NRYR:\u{A3AA}\n\
YI SYLLABLE SHAT:\u{A3AB}\n\
YI SYLLABLE SHAX:\u{A3AC}\n\
YI SYLLABLE SHA:\u{A3AD}\n\
YI SYLLABLE SHAP:\u{A3AE}\n\
YI SYLLABLE SHUOX:\u{A3AF}\n\
YI SYLLABLE SHUO:\u{A3B0}\n\
YI SYLLABLE SHUOP:\u{A3B1}\n\
YI SYLLABLE SHOT:\u{A3B2}\n\
YI SYLLABLE SHOX:\u{A3B3}\n\
YI SYLLABLE SHO:\u{A3B4}\n\
YI SYLLABLE SHOP:\u{A3B5}\n\
YI SYLLABLE SHET:\u{A3B6}\n\
YI SYLLABLE SHEX:\u{A3B7}\n\
YI SYLLABLE SHE:\u{A3B8}\n\
YI SYLLABLE SHEP:\u{A3B9}\n\
YI SYLLABLE SHUT:\u{A3BA}\n\
YI SYLLABLE SHUX:\u{A3BB}\n\
YI SYLLABLE SHU:\u{A3BC}\n\
YI SYLLABLE SHUP:\u{A3BD}\n\
YI SYLLABLE SHURX:\u{A3BE}\n\
YI SYLLABLE SHUR:\u{A3BF}\n\
YI SYLLABLE SHYT:\u{A3C0}\n\
YI SYLLABLE SHYX:\u{A3C1}\n\
YI SYLLABLE SHY:\u{A3C2}\n\
YI SYLLABLE SHYP:\u{A3C3}\n\
YI SYLLABLE SHYRX:\u{A3C4}\n\
YI SYLLABLE SHYR:\u{A3C5}\n\
YI SYLLABLE RAT:\u{A3C6}\n\
YI SYLLABLE RAX:\u{A3C7}\n\
YI SYLLABLE RA:\u{A3C8}\n\
YI SYLLABLE RAP:\u{A3C9}\n\
YI SYLLABLE RUOX:\u{A3CA}\n\
YI SYLLABLE RUO:\u{A3CB}\n\
YI SYLLABLE RUOP:\u{A3CC}\n\
YI SYLLABLE ROT:\u{A3CD}\n\
YI SYLLABLE ROX:\u{A3CE}\n\
YI SYLLABLE RO:\u{A3CF}\n\
YI SYLLABLE ROP:\u{A3D0}\n\
YI SYLLABLE REX:\u{A3D1}\n\
YI SYLLABLE RE:\u{A3D2}\n\
YI SYLLABLE REP:\u{A3D3}\n\
YI SYLLABLE RUT:\u{A3D4}\n\
YI SYLLABLE RUX:\u{A3D5}\n\
YI SYLLABLE RU:\u{A3D6}\n\
YI SYLLABLE RUP:\u{A3D7}\n\
YI SYLLABLE RURX:\u{A3D8}\n\
YI SYLLABLE RUR:\u{A3D9}\n\
YI SYLLABLE RYT:\u{A3DA}\n\
YI SYLLABLE RYX:\u{A3DB}\n\
YI SYLLABLE RY:\u{A3DC}\n\
YI SYLLABLE RYP:\u{A3DD}\n\
YI SYLLABLE RYRX:\u{A3DE}\n\
YI SYLLABLE RYR:\u{A3DF}\n\
YI SYLLABLE JIT:\u{A3E0}\n\
YI SYLLABLE JIX:\u{A3E1}\n\
YI SYLLABLE JI:\u{A3E2}\n\
YI SYLLABLE JIP:\u{A3E3}\n\
YI SYLLABLE JIET:\u{A3E4}\n\
YI SYLLABLE JIEX:\u{A3E5}\n\
YI SYLLABLE JIE:\u{A3E6}\n\
YI SYLLABLE JIEP:\u{A3E7}\n\
YI SYLLABLE JUOT:\u{A3E8}\n\
YI SYLLABLE JUOX:\u{A3E9}\n\
YI SYLLABLE JUO:\u{A3EA}\n\
YI SYLLABLE JUOP:\u{A3EB}\n\
YI SYLLABLE JOT:\u{A3EC}\n\
YI SYLLABLE JOX:\u{A3ED}\n\
YI SYLLABLE JO:\u{A3EE}\n\
YI SYLLABLE JOP:\u{A3EF}\n\
YI SYLLABLE JUT:\u{A3F0}\n\
YI SYLLABLE JUX:\u{A3F1}\n\
YI SYLLABLE JU:\u{A3F2}\n\
YI SYLLABLE JUP:\u{A3F3}\n\
YI SYLLABLE JURX:\u{A3F4}\n\
YI SYLLABLE JUR:\u{A3F5}\n\
YI SYLLABLE JYT:\u{A3F6}\n\
YI SYLLABLE JYX:\u{A3F7}\n\
YI SYLLABLE JY:\u{A3F8}\n\
YI SYLLABLE JYP:\u{A3F9}\n\
YI SYLLABLE JYRX:\u{A3FA}\n\
YI SYLLABLE JYR:\u{A3FB}\n\
YI SYLLABLE QIT:\u{A3FC}\n\
YI SYLLABLE QIX:\u{A3FD}\n\
YI SYLLABLE QI:\u{A3FE}\n\
YI SYLLABLE QIP:\u{A3FF}\n\
YI SYLLABLE QIET:\u{A400}\n\
YI SYLLABLE QIEX:\u{A401}\n\
YI SYLLABLE QIE:\u{A402}\n\
YI SYLLABLE QIEP:\u{A403}\n\
YI SYLLABLE QUOT:\u{A404}\n\
YI SYLLABLE QUOX:\u{A405}\n\
YI SYLLABLE QUO:\u{A406}\n\
YI SYLLABLE QUOP:\u{A407}\n\
YI SYLLABLE QOT:\u{A408}\n\
YI SYLLABLE QOX:\u{A409}\n\
YI SYLLABLE QO:\u{A40A}\n\
YI SYLLABLE QOP:\u{A40B}\n\
YI SYLLABLE QUT:\u{A40C}\n\
YI SYLLABLE QUX:\u{A40D}\n\
YI SYLLABLE QU:\u{A40E}\n\
YI SYLLABLE QUP:\u{A40F}\n\
YI SYLLABLE QURX:\u{A410}\n\
YI SYLLABLE QUR:\u{A411}\n\
YI SYLLABLE QYT:\u{A412}\n\
YI SYLLABLE QYX:\u{A413}\n\
YI SYLLABLE QY:\u{A414}\n\
YI SYLLABLE QYP:\u{A415}\n\
YI SYLLABLE QYRX:\u{A416}\n\
YI SYLLABLE QYR:\u{A417}\n\
YI SYLLABLE JJIT:\u{A418}\n\
YI SYLLABLE JJIX:\u{A419}\n\
YI SYLLABLE JJI:\u{A41A}\n\
YI SYLLABLE JJIP:\u{A41B}\n\
YI SYLLABLE JJIET:\u{A41C}\n\
YI SYLLABLE JJIEX:\u{A41D}\n\
YI SYLLABLE JJIE:\u{A41E}\n\
YI SYLLABLE JJIEP:\u{A41F}\n\
YI SYLLABLE JJUOX:\u{A420}\n\
YI SYLLABLE JJUO:\u{A421}\n\
YI SYLLABLE JJUOP:\u{A422}\n\
YI SYLLABLE JJOT:\u{A423}\n\
YI SYLLABLE JJOX:\u{A424}\n\
YI SYLLABLE JJO:\u{A425}\n\
YI SYLLABLE JJOP:\u{A426}\n\
YI SYLLABLE JJUT:\u{A427}\n\
YI SYLLABLE JJUX:\u{A428}\n\
YI SYLLABLE JJU:\u{A429}\n\
YI SYLLABLE JJUP:\u{A42A}\n\
YI SYLLABLE JJURX:\u{A42B}\n\
YI SYLLABLE JJUR:\u{A42C}\n\
YI SYLLABLE JJYT:\u{A42D}\n\
YI SYLLABLE JJYX:\u{A42E}\n\
YI SYLLABLE JJY:\u{A42F}\n\
YI SYLLABLE JJYP:\u{A430}\n\
YI SYLLABLE NJIT:\u{A431}\n\
YI SYLLABLE NJIX:\u{A432}\n\
YI SYLLABLE NJI:\u{A433}\n\
YI SYLLABLE NJIP:\u{A434}\n\
YI SYLLABLE NJIET:\u{A435}\n\
YI SYLLABLE NJIEX:\u{A436}\n\
YI SYLLABLE NJIE:\u{A437}\n\
YI SYLLABLE NJIEP:\u{A438}\n\
YI SYLLABLE NJUOX:\u{A439}\n\
YI SYLLABLE NJUO:\u{A43A}\n\
YI SYLLABLE NJOT:\u{A43B}\n\
YI SYLLABLE NJOX:\u{A43C}\n\
YI SYLLABLE NJO:\u{A43D}\n\
YI SYLLABLE NJOP:\u{A43E}\n\
YI SYLLABLE NJUX:\u{A43F}\n\
YI SYLLABLE NJU:\u{A440}\n\
YI SYLLABLE NJUP:\u{A441}\n\
YI SYLLABLE NJURX:\u{A442}\n\
YI SYLLABLE NJUR:\u{A443}\n\
YI SYLLABLE NJYT:\u{A444}\n\
YI SYLLABLE NJYX:\u{A445}\n\
YI SYLLABLE NJY:\u{A446}\n\
YI SYLLABLE NJYP:\u{A447}\n\
YI SYLLABLE NJYRX:\u{A448}\n\
YI SYLLABLE NJYR:\u{A449}\n\
YI SYLLABLE NYIT:\u{A44A}\n\
YI SYLLABLE NYIX:\u{A44B}\n\
YI SYLLABLE NYI:\u{A44C}\n\
YI SYLLABLE NYIP:\u{A44D}\n\
YI SYLLABLE NYIET:\u{A44E}\n\
YI SYLLABLE NYIEX:\u{A44F}\n\
YI SYLLABLE NYIE:\u{A450}\n\
YI SYLLABLE NYIEP:\u{A451}\n\
YI SYLLABLE NYUOX:\u{A452}\n\
YI SYLLABLE NYUO:\u{A453}\n\
YI SYLLABLE NYUOP:\u{A454}\n\
YI SYLLABLE NYOT:\u{A455}\n\
YI SYLLABLE NYOX:\u{A456}\n\
YI SYLLABLE NYO:\u{A457}\n\
YI SYLLABLE NYOP:\u{A458}\n\
YI SYLLABLE NYUT:\u{A459}\n\
YI SYLLABLE NYUX:\u{A45A}\n\
YI SYLLABLE NYU:\u{A45B}\n\
YI SYLLABLE NYUP:\u{A45C}\n\
YI SYLLABLE XIT:\u{A45D}\n\
YI SYLLABLE XIX:\u{A45E}\n\
YI SYLLABLE XI:\u{A45F}\n\
YI SYLLABLE XIP:\u{A460}\n\
YI SYLLABLE XIET:\u{A461}\n\
YI SYLLABLE XIEX:\u{A462}\n\
YI SYLLABLE XIE:\u{A463}\n\
YI SYLLABLE XIEP:\u{A464}\n\
YI SYLLABLE XUOX:\u{A465}\n\
YI SYLLABLE XUO:\u{A466}\n\
YI SYLLABLE XOT:\u{A467}\n\
YI SYLLABLE XOX:\u{A468}\n\
YI SYLLABLE XO:\u{A469}\n\
YI SYLLABLE XOP:\u{A46A}\n\
YI SYLLABLE XYT:\u{A46B}\n\
YI SYLLABLE XYX:\u{A46C}\n\
YI SYLLABLE XY:\u{A46D}\n\
YI SYLLABLE XYP:\u{A46E}\n\
YI SYLLABLE XYRX:\u{A46F}\n\
YI SYLLABLE XYR:\u{A470}\n\
YI SYLLABLE YIT:\u{A471}\n\
YI SYLLABLE YIX:\u{A472}\n\
YI SYLLABLE YI:\u{A473}\n\
YI SYLLABLE YIP:\u{A474}\n\
YI SYLLABLE YIET:\u{A475}\n\
YI SYLLABLE YIEX:\u{A476}\n\
YI SYLLABLE YIE:\u{A477}\n\
YI SYLLABLE YIEP:\u{A478}\n\
YI SYLLABLE YUOT:\u{A479}\n\
YI SYLLABLE YUOX:\u{A47A}\n\
YI SYLLABLE YUO:\u{A47B}\n\
YI SYLLABLE YUOP:\u{A47C}\n\
YI SYLLABLE YOT:\u{A47D}\n\
YI SYLLABLE YOX:\u{A47E}\n\
YI SYLLABLE YO:\u{A47F}\n\
YI SYLLABLE YOP:\u{A480}\n\
YI SYLLABLE YUT:\u{A481}\n\
YI SYLLABLE YUX:\u{A482}\n\
YI SYLLABLE YU:\u{A483}\n\
YI SYLLABLE YUP:\u{A484}\n\
YI SYLLABLE YURX:\u{A485}\n\
YI SYLLABLE YUR:\u{A486}\n\
YI SYLLABLE YYT:\u{A487}\n\
YI SYLLABLE YYX:\u{A488}\n\
YI SYLLABLE YY:\u{A489}\n\
YI SYLLABLE YYP:\u{A48A}\n\
YI SYLLABLE YYRX:\u{A48B}\n\
YI SYLLABLE YYR:\u{A48C}\n\
YI RADICAL QOT:\u{A490}\n\
YI RADICAL LI:\u{A491}\n\
YI RADICAL KIT:\u{A492}\n\
YI RADICAL NYIP:\u{A493}\n\
YI RADICAL CYP:\u{A494}\n\
YI RADICAL SSI:\u{A495}\n\
YI RADICAL GGOP:\u{A496}\n\
YI RADICAL GEP:\u{A497}\n\
YI RADICAL MI:\u{A498}\n\
YI RADICAL HXIT:\u{A499}\n\
YI RADICAL LYR:\u{A49A}\n\
YI RADICAL BBUT:\u{A49B}\n\
YI RADICAL MOP:\u{A49C}\n\
YI RADICAL YO:\u{A49D}\n\
YI RADICAL PUT:\u{A49E}\n\
YI RADICAL HXUO:\u{A49F}\n\
YI RADICAL TAT:\u{A4A0}\n\
YI RADICAL GA:\u{A4A1}\n\
YI RADICAL ZUP:\u{A4A2}\n\
YI RADICAL CYT:\u{A4A3}\n\
YI RADICAL DDUR:\u{A4A4}\n\
YI RADICAL BUR:\u{A4A5}\n\
YI RADICAL GGUO:\u{A4A6}\n\
YI RADICAL NYOP:\u{A4A7}\n\
YI RADICAL TU:\u{A4A8}\n\
YI RADICAL OP:\u{A4A9}\n\
YI RADICAL JJUT:\u{A4AA}\n\
YI RADICAL ZOT:\u{A4AB}\n\
YI RADICAL PYT:\u{A4AC}\n\
YI RADICAL HMO:\u{A4AD}\n\
YI RADICAL YIT:\u{A4AE}\n\
YI RADICAL VUR:\u{A4AF}\n\
YI RADICAL SHY:\u{A4B0}\n\
YI RADICAL VEP:\u{A4B1}\n\
YI RADICAL ZA:\u{A4B2}\n\
YI RADICAL JO:\u{A4B3}\n\
YI RADICAL NZUP:\u{A4B4}\n\
YI RADICAL JJY:\u{A4B5}\n\
YI RADICAL GOT:\u{A4B6}\n\
YI RADICAL JJIE:\u{A4B7}\n\
YI RADICAL WO:\u{A4B8}\n\
YI RADICAL DU:\u{A4B9}\n\
YI RADICAL SHUR:\u{A4BA}\n\
YI RADICAL LIE:\u{A4BB}\n\
YI RADICAL CY:\u{A4BC}\n\
YI RADICAL CUOP:\u{A4BD}\n\
YI RADICAL CIP:\u{A4BE}\n\
YI RADICAL HXOP:\u{A4BF}\n\
YI RADICAL SHAT:\u{A4C0}\n\
YI RADICAL ZUR:\u{A4C1}\n\
YI RADICAL SHOP:\u{A4C2}\n\
YI RADICAL CHE:\u{A4C3}\n\
YI RADICAL ZZIET:\u{A4C4}\n\
YI RADICAL NBIE:\u{A4C5}\n\
YI RADICAL KE:\u{A4C6}\n\
LISU LETTER BA:\u{A4D0}\n\
LISU LETTER PA:\u{A4D1}\n\
LISU LETTER PHA:\u{A4D2}\n\
LISU LETTER DA:\u{A4D3}\n\
LISU LETTER TA:\u{A4D4}\n\
LISU LETTER THA:\u{A4D5}\n\
LISU LETTER GA:\u{A4D6}\n\
LISU LETTER KA:\u{A4D7}\n\
LISU LETTER KHA:\u{A4D8}\n\
LISU LETTER JA:\u{A4D9}\n\
LISU LETTER CA:\u{A4DA}\n\
LISU LETTER CHA:\u{A4DB}\n\
LISU LETTER DZA:\u{A4DC}\n\
LISU LETTER TSA:\u{A4DD}\n\
LISU LETTER TSHA:\u{A4DE}\n\
LISU LETTER MA:\u{A4DF}\n\
LISU LETTER NA:\u{A4E0}\n\
LISU LETTER LA:\u{A4E1}\n\
LISU LETTER SA:\u{A4E2}\n\
LISU LETTER ZHA:\u{A4E3}\n\
LISU LETTER ZA:\u{A4E4}\n\
LISU LETTER NGA:\u{A4E5}\n\
LISU LETTER HA:\u{A4E6}\n\
LISU LETTER XA:\u{A4E7}\n\
LISU LETTER HHA:\u{A4E8}\n\
LISU LETTER FA:\u{A4E9}\n\
LISU LETTER WA:\u{A4EA}\n\
LISU LETTER SHA:\u{A4EB}\n\
LISU LETTER YA:\u{A4EC}\n\
LISU LETTER GHA:\u{A4ED}\n\
LISU LETTER A:\u{A4EE}\n\
LISU LETTER AE:\u{A4EF}\n\
LISU LETTER E:\u{A4F0}\n\
LISU LETTER EU:\u{A4F1}\n\
LISU LETTER I:\u{A4F2}\n\
LISU LETTER O:\u{A4F3}\n\
LISU LETTER U:\u{A4F4}\n\
LISU LETTER UE:\u{A4F5}\n\
LISU LETTER UH:\u{A4F6}\n\
LISU LETTER OE:\u{A4F7}\n\
LISU LETTER TONE MYA TI:\u{A4F8}\n\
LISU LETTER TONE NA PO:\u{A4F9}\n\
LISU LETTER TONE MYA CYA:\u{A4FA}\n\
LISU LETTER TONE MYA BO:\u{A4FB}\n\
LISU LETTER TONE MYA NA:\u{A4FC}\n\
LISU LETTER TONE MYA JEU:\u{A4FD}\n\
LISU PUNCTUATION COMMA:\u{A4FE}\n\
LISU PUNCTUATION FULL STOP:\u{A4FF}\n\
VAI SYLLABLE EE:\u{A500}\n\
VAI SYLLABLE EEN:\u{A501}\n\
VAI SYLLABLE HEE:\u{A502}\n\
VAI SYLLABLE WEE:\u{A503}\n\
VAI SYLLABLE WEEN:\u{A504}\n\
VAI SYLLABLE PEE:\u{A505}\n\
VAI SYLLABLE BHEE:\u{A506}\n\
VAI SYLLABLE BEE:\u{A507}\n\
VAI SYLLABLE MBEE:\u{A508}\n\
VAI SYLLABLE KPEE:\u{A509}\n\
VAI SYLLABLE MGBEE:\u{A50A}\n\
VAI SYLLABLE GBEE:\u{A50B}\n\
VAI SYLLABLE FEE:\u{A50C}\n\
VAI SYLLABLE VEE:\u{A50D}\n\
VAI SYLLABLE TEE:\u{A50E}\n\
VAI SYLLABLE THEE:\u{A50F}\n\
VAI SYLLABLE DHEE:\u{A510}\n\
VAI SYLLABLE DHHEE:\u{A511}\n\
VAI SYLLABLE LEE:\u{A512}\n\
VAI SYLLABLE REE:\u{A513}\n\
VAI SYLLABLE DEE:\u{A514}\n\
VAI SYLLABLE NDEE:\u{A515}\n\
VAI SYLLABLE SEE:\u{A516}\n\
VAI SYLLABLE SHEE:\u{A517}\n\
VAI SYLLABLE ZEE:\u{A518}\n\
VAI SYLLABLE ZHEE:\u{A519}\n\
VAI SYLLABLE CEE:\u{A51A}\n\
VAI SYLLABLE JEE:\u{A51B}\n\
VAI SYLLABLE NJEE:\u{A51C}\n\
VAI SYLLABLE YEE:\u{A51D}\n\
VAI SYLLABLE KEE:\u{A51E}\n\
VAI SYLLABLE NGGEE:\u{A51F}\n\
VAI SYLLABLE GEE:\u{A520}\n\
VAI SYLLABLE MEE:\u{A521}\n\
VAI SYLLABLE NEE:\u{A522}\n\
VAI SYLLABLE NYEE:\u{A523}\n\
VAI SYLLABLE I:\u{A524}\n\
VAI SYLLABLE IN:\u{A525}\n\
VAI SYLLABLE HI:\u{A526}\n\
VAI SYLLABLE HIN:\u{A527}\n\
VAI SYLLABLE WI:\u{A528}\n\
VAI SYLLABLE WIN:\u{A529}\n\
VAI SYLLABLE PI:\u{A52A}\n\
VAI SYLLABLE BHI:\u{A52B}\n\
VAI SYLLABLE BI:\u{A52C}\n\
VAI SYLLABLE MBI:\u{A52D}\n\
VAI SYLLABLE KPI:\u{A52E}\n\
VAI SYLLABLE MGBI:\u{A52F}\n\
VAI SYLLABLE GBI:\u{A530}\n\
VAI SYLLABLE FI:\u{A531}\n\
VAI SYLLABLE VI:\u{A532}\n\
VAI SYLLABLE TI:\u{A533}\n\
VAI SYLLABLE THI:\u{A534}\n\
VAI SYLLABLE DHI:\u{A535}\n\
VAI SYLLABLE DHHI:\u{A536}\n\
VAI SYLLABLE LI:\u{A537}\n\
VAI SYLLABLE RI:\u{A538}\n\
VAI SYLLABLE DI:\u{A539}\n\
VAI SYLLABLE NDI:\u{A53A}\n\
VAI SYLLABLE SI:\u{A53B}\n\
VAI SYLLABLE SHI:\u{A53C}\n\
VAI SYLLABLE ZI:\u{A53D}\n\
VAI SYLLABLE ZHI:\u{A53E}\n\
VAI SYLLABLE CI:\u{A53F}\n\
VAI SYLLABLE JI:\u{A540}\n\
VAI SYLLABLE NJI:\u{A541}\n\
VAI SYLLABLE YI:\u{A542}\n\
VAI SYLLABLE KI:\u{A543}\n\
VAI SYLLABLE NGGI:\u{A544}\n\
VAI SYLLABLE GI:\u{A545}\n\
VAI SYLLABLE MI:\u{A546}\n\
VAI SYLLABLE NI:\u{A547}\n\
VAI SYLLABLE NYI:\u{A548}\n\
VAI SYLLABLE A:\u{A549}\n\
VAI SYLLABLE AN:\u{A54A}\n\
VAI SYLLABLE NGAN:\u{A54B}\n\
VAI SYLLABLE HA:\u{A54C}\n\
VAI SYLLABLE HAN:\u{A54D}\n\
VAI SYLLABLE WA:\u{A54E}\n\
VAI SYLLABLE WAN:\u{A54F}\n\
VAI SYLLABLE PA:\u{A550}\n\
VAI SYLLABLE BHA:\u{A551}\n\
VAI SYLLABLE BA:\u{A552}\n\
VAI SYLLABLE MBA:\u{A553}\n\
VAI SYLLABLE KPA:\u{A554}\n\
VAI SYLLABLE KPAN:\u{A555}\n\
VAI SYLLABLE MGBA:\u{A556}\n\
VAI SYLLABLE GBA:\u{A557}\n\
VAI SYLLABLE FA:\u{A558}\n\
VAI SYLLABLE VA:\u{A559}\n\
VAI SYLLABLE TA:\u{A55A}\n\
VAI SYLLABLE THA:\u{A55B}\n\
VAI SYLLABLE DHA:\u{A55C}\n\
VAI SYLLABLE DHHA:\u{A55D}\n\
VAI SYLLABLE LA:\u{A55E}\n\
VAI SYLLABLE RA:\u{A55F}\n\
VAI SYLLABLE DA:\u{A560}\n\
VAI SYLLABLE NDA:\u{A561}\n\
VAI SYLLABLE SA:\u{A562}\n\
VAI SYLLABLE SHA:\u{A563}\n\
VAI SYLLABLE ZA:\u{A564}\n\
VAI SYLLABLE ZHA:\u{A565}\n\
VAI SYLLABLE CA:\u{A566}\n\
VAI SYLLABLE JA:\u{A567}\n\
VAI SYLLABLE NJA:\u{A568}\n\
VAI SYLLABLE YA:\u{A569}\n\
VAI SYLLABLE KA:\u{A56A}\n\
VAI SYLLABLE KAN:\u{A56B}\n\
VAI SYLLABLE NGGA:\u{A56C}\n\
VAI SYLLABLE GA:\u{A56D}\n\
VAI SYLLABLE MA:\u{A56E}\n\
VAI SYLLABLE NA:\u{A56F}\n\
VAI SYLLABLE NYA:\u{A570}\n\
VAI SYLLABLE OO:\u{A571}\n\
VAI SYLLABLE OON:\u{A572}\n\
VAI SYLLABLE HOO:\u{A573}\n\
VAI SYLLABLE WOO:\u{A574}\n\
VAI SYLLABLE WOON:\u{A575}\n\
VAI SYLLABLE POO:\u{A576}\n\
VAI SYLLABLE BHOO:\u{A577}\n\
VAI SYLLABLE BOO:\u{A578}\n\
VAI SYLLABLE MBOO:\u{A579}\n\
VAI SYLLABLE KPOO:\u{A57A}\n\
VAI SYLLABLE MGBOO:\u{A57B}\n\
VAI SYLLABLE GBOO:\u{A57C}\n";

pub const NAMES_34: &'static str = "VAI SYLLABLE FOO:\u{A57D}\n\
VAI SYLLABLE VOO:\u{A57E}\n\
VAI SYLLABLE TOO:\u{A57F}\n\
VAI SYLLABLE THOO:\u{A580}\n\
VAI SYLLABLE DHOO:\u{A581}\n\
VAI SYLLABLE DHHOO:\u{A582}\n\
VAI SYLLABLE LOO:\u{A583}\n\
VAI SYLLABLE ROO:\u{A584}\n\
VAI SYLLABLE DOO:\u{A585}\n\
VAI SYLLABLE NDOO:\u{A586}\n\
VAI SYLLABLE SOO:\u{A587}\n\
VAI SYLLABLE SHOO:\u{A588}\n\
VAI SYLLABLE ZOO:\u{A589}\n\
VAI SYLLABLE ZHOO:\u{A58A}\n\
VAI SYLLABLE COO:\u{A58B}\n\
VAI SYLLABLE JOO:\u{A58C}\n\
VAI SYLLABLE NJOO:\u{A58D}\n\
VAI SYLLABLE YOO:\u{A58E}\n\
VAI SYLLABLE KOO:\u{A58F}\n\
VAI SYLLABLE NGGOO:\u{A590}\n\
VAI SYLLABLE GOO:\u{A591}\n\
VAI SYLLABLE MOO:\u{A592}\n\
VAI SYLLABLE NOO:\u{A593}\n\
VAI SYLLABLE NYOO:\u{A594}\n\
VAI SYLLABLE U:\u{A595}\n\
VAI SYLLABLE UN:\u{A596}\n\
VAI SYLLABLE HU:\u{A597}\n\
VAI SYLLABLE HUN:\u{A598}\n\
VAI SYLLABLE WU:\u{A599}\n\
VAI SYLLABLE WUN:\u{A59A}\n\
VAI SYLLABLE PU:\u{A59B}\n\
VAI SYLLABLE BHU:\u{A59C}\n\
VAI SYLLABLE BU:\u{A59D}\n\
VAI SYLLABLE MBU:\u{A59E}\n\
VAI SYLLABLE KPU:\u{A59F}\n\
VAI SYLLABLE MGBU:\u{A5A0}\n\
VAI SYLLABLE GBU:\u{A5A1}\n\
VAI SYLLABLE FU:\u{A5A2}\n\
VAI SYLLABLE VU:\u{A5A3}\n\
VAI SYLLABLE TU:\u{A5A4}\n\
VAI SYLLABLE THU:\u{A5A5}\n\
VAI SYLLABLE DHU:\u{A5A6}\n\
VAI SYLLABLE DHHU:\u{A5A7}\n\
VAI SYLLABLE LU:\u{A5A8}\n\
VAI SYLLABLE RU:\u{A5A9}\n\
VAI SYLLABLE DU:\u{A5AA}\n\
VAI SYLLABLE NDU:\u{A5AB}\n\
VAI SYLLABLE SU:\u{A5AC}\n\
VAI SYLLABLE SHU:\u{A5AD}\n\
VAI SYLLABLE ZU:\u{A5AE}\n\
VAI SYLLABLE ZHU:\u{A5AF}\n\
VAI SYLLABLE CU:\u{A5B0}\n\
VAI SYLLABLE JU:\u{A5B1}\n\
VAI SYLLABLE NJU:\u{A5B2}\n\
VAI SYLLABLE YU:\u{A5B3}\n\
VAI SYLLABLE KU:\u{A5B4}\n\
VAI SYLLABLE NGGU:\u{A5B5}\n\
VAI SYLLABLE GU:\u{A5B6}\n\
VAI SYLLABLE MU:\u{A5B7}\n\
VAI SYLLABLE NU:\u{A5B8}\n\
VAI SYLLABLE NYU:\u{A5B9}\n\
VAI SYLLABLE O:\u{A5BA}\n\
VAI SYLLABLE ON:\u{A5BB}\n\
VAI SYLLABLE NGON:\u{A5BC}\n\
VAI SYLLABLE HO:\u{A5BD}\n\
VAI SYLLABLE HON:\u{A5BE}\n\
VAI SYLLABLE WO:\u{A5BF}\n\
VAI SYLLABLE WON:\u{A5C0}\n\
VAI SYLLABLE PO:\u{A5C1}\n\
VAI SYLLABLE BHO:\u{A5C2}\n\
VAI SYLLABLE BO:\u{A5C3}\n\
VAI SYLLABLE MBO:\u{A5C4}\n\
VAI SYLLABLE KPO:\u{A5C5}\n\
VAI SYLLABLE MGBO:\u{A5C6}\n\
VAI SYLLABLE GBO:\u{A5C7}\n\
VAI SYLLABLE GBON:\u{A5C8}\n\
VAI SYLLABLE FO:\u{A5C9}\n\
VAI SYLLABLE VO:\u{A5CA}\n\
VAI SYLLABLE TO:\u{A5CB}\n\
VAI SYLLABLE THO:\u{A5CC}\n\
VAI SYLLABLE DHO:\u{A5CD}\n\
VAI SYLLABLE DHHO:\u{A5CE}\n\
VAI SYLLABLE LO:\u{A5CF}\n\
VAI SYLLABLE RO:\u{A5D0}\n\
VAI SYLLABLE DO:\u{A5D1}\n\
VAI SYLLABLE NDO:\u{A5D2}\n\
VAI SYLLABLE SO:\u{A5D3}\n\
VAI SYLLABLE SHO:\u{A5D4}\n\
VAI SYLLABLE ZO:\u{A5D5}\n\
VAI SYLLABLE ZHO:\u{A5D6}\n\
VAI SYLLABLE CO:\u{A5D7}\n\
VAI SYLLABLE JO:\u{A5D8}\n\
VAI SYLLABLE NJO:\u{A5D9}\n\
VAI SYLLABLE YO:\u{A5DA}\n\
VAI SYLLABLE KO:\u{A5DB}\n\
VAI SYLLABLE NGGO:\u{A5DC}\n\
VAI SYLLABLE GO:\u{A5DD}\n\
VAI SYLLABLE MO:\u{A5DE}\n\
VAI SYLLABLE NO:\u{A5DF}\n\
VAI SYLLABLE NYO:\u{A5E0}\n\
VAI SYLLABLE E:\u{A5E1}\n\
VAI SYLLABLE EN:\u{A5E2}\n\
VAI SYLLABLE NGEN:\u{A5E3}\n\
VAI SYLLABLE HE:\u{A5E4}\n\
VAI SYLLABLE HEN:\u{A5E5}\n\
VAI SYLLABLE WE:\u{A5E6}\n\
VAI SYLLABLE WEN:\u{A5E7}\n\
VAI SYLLABLE PE:\u{A5E8}\n\
VAI SYLLABLE BHE:\u{A5E9}\n\
VAI SYLLABLE BE:\u{A5EA}\n\
VAI SYLLABLE MBE:\u{A5EB}\n\
VAI SYLLABLE KPE:\u{A5EC}\n\
VAI SYLLABLE KPEN:\u{A5ED}\n\
VAI SYLLABLE MGBE:\u{A5EE}\n\
VAI SYLLABLE GBE:\u{A5EF}\n\
VAI SYLLABLE GBEN:\u{A5F0}\n\
VAI SYLLABLE FE:\u{A5F1}\n\
VAI SYLLABLE VE:\u{A5F2}\n\
VAI SYLLABLE TE:\u{A5F3}\n\
VAI SYLLABLE THE:\u{A5F4}\n\
VAI SYLLABLE DHE:\u{A5F5}\n\
VAI SYLLABLE DHHE:\u{A5F6}\n\
VAI SYLLABLE LE:\u{A5F7}\n\
VAI SYLLABLE RE:\u{A5F8}\n\
VAI SYLLABLE DE:\u{A5F9}\n\
VAI SYLLABLE NDE:\u{A5FA}\n\
VAI SYLLABLE SE:\u{A5FB}\n\
VAI SYLLABLE SHE:\u{A5FC}\n\
VAI SYLLABLE ZE:\u{A5FD}\n\
VAI SYLLABLE ZHE:\u{A5FE}\n\
VAI SYLLABLE CE:\u{A5FF}\n\
VAI SYLLABLE JE:\u{A600}\n\
VAI SYLLABLE NJE:\u{A601}\n\
VAI SYLLABLE YE:\u{A602}\n\
VAI SYLLABLE KE:\u{A603}\n\
VAI SYLLABLE NGGE:\u{A604}\n\
VAI SYLLABLE NGGEN:\u{A605}\n\
VAI SYLLABLE GE:\u{A606}\n\
VAI SYLLABLE GEN:\u{A607}\n\
VAI SYLLABLE ME:\u{A608}\n\
VAI SYLLABLE NE:\u{A609}\n\
VAI SYLLABLE NYE:\u{A60A}\n\
VAI SYLLABLE NG:\u{A60B}\n\
VAI SYLLABLE LENGTHENER:\u{A60C}\n\
VAI COMMA:\u{A60D}\n\
VAI FULL STOP:\u{A60E}\n\
VAI QUESTION MARK:\u{A60F}\n\
VAI SYLLABLE NDOLE FA:\u{A610}\n\
VAI SYLLABLE NDOLE KA:\u{A611}\n\
VAI SYLLABLE NDOLE SOO:\u{A612}\n\
VAI SYMBOL FEENG:\u{A613}\n\
VAI SYMBOL KEENG:\u{A614}\n\
VAI SYMBOL TING:\u{A615}\n\
VAI SYMBOL NII:\u{A616}\n\
VAI SYMBOL BANG:\u{A617}\n\
VAI SYMBOL FAA:\u{A618}\n\
VAI SYMBOL TAA:\u{A619}\n\
VAI SYMBOL DANG:\u{A61A}\n\
VAI SYMBOL DOONG:\u{A61B}\n\
VAI SYMBOL KUNG:\u{A61C}\n\
VAI SYMBOL TONG:\u{A61D}\n\
VAI SYMBOL DO-O:\u{A61E}\n\
VAI SYMBOL JONG:\u{A61F}\n\
VAI DIGIT ZERO:\u{A620}\n\
VAI DIGIT ONE:\u{A621}\n\
VAI DIGIT TWO:\u{A622}\n\
VAI DIGIT THREE:\u{A623}\n\
VAI DIGIT FOUR:\u{A624}\n\
VAI DIGIT FIVE:\u{A625}\n\
VAI DIGIT SIX:\u{A626}\n\
VAI DIGIT SEVEN:\u{A627}\n\
VAI DIGIT EIGHT:\u{A628}\n\
VAI DIGIT NINE:\u{A629}\n\
VAI SYLLABLE NDOLE MA:\u{A62A}\n\
VAI SYLLABLE NDOLE DO:\u{A62B}\n\
CYRILLIC CAPITAL LETTER ZEMLYA:\u{A640}\n\
CYRILLIC SMALL LETTER ZEMLYA:\u{A641}\n\
CYRILLIC CAPITAL LETTER DZELO:\u{A642}\n\
CYRILLIC SMALL LETTER DZELO:\u{A643}\n\
CYRILLIC CAPITAL LETTER REVERSED DZE:\u{A644}\n\
CYRILLIC SMALL LETTER REVERSED DZE:\u{A645}\n\
CYRILLIC CAPITAL LETTER IOTA:\u{A646}\n\
CYRILLIC SMALL LETTER IOTA:\u{A647}\n\
CYRILLIC CAPITAL LETTER DJERV:\u{A648}\n\
CYRILLIC SMALL LETTER DJERV:\u{A649}\n\
CYRILLIC CAPITAL LETTER MONOGRAPH UK:\u{A64A}\n\
CYRILLIC SMALL LETTER MONOGRAPH UK:\u{A64B}\n\
CYRILLIC CAPITAL LETTER BROAD OMEGA:\u{A64C}\n\
CYRILLIC SMALL LETTER BROAD OMEGA:\u{A64D}\n\
CYRILLIC CAPITAL LETTER NEUTRAL YER:\u{A64E}\n\
CYRILLIC SMALL LETTER NEUTRAL YER:\u{A64F}\n\
CYRILLIC CAPITAL LETTER YERU WITH BACK YER:\u{A650}\n\
CYRILLIC SMALL LETTER YERU WITH BACK YER:\u{A651}\n\
CYRILLIC CAPITAL LETTER IOTIFIED YAT:\u{A652}\n\
CYRILLIC SMALL LETTER IOTIFIED YAT:\u{A653}\n\
CYRILLIC CAPITAL LETTER REVERSED YU:\u{A654}\n\
CYRILLIC SMALL LETTER REVERSED YU:\u{A655}\n\
CYRILLIC CAPITAL LETTER IOTIFIED A:\u{A656}\n\
CYRILLIC SMALL LETTER IOTIFIED A:\u{A657}\n\
CYRILLIC CAPITAL LETTER CLOSED LITTLE YUS:\u{A658}\n\
CYRILLIC SMALL LETTER CLOSED LITTLE YUS:\u{A659}\n\
CYRILLIC CAPITAL LETTER BLENDED YUS:\u{A65A}\n\
CYRILLIC SMALL LETTER BLENDED YUS:\u{A65B}\n\
CYRILLIC CAPITAL LETTER IOTIFIED CLOSED LITTLE YUS:\u{A65C}\n\
CYRILLIC SMALL LETTER IOTIFIED CLOSED LITTLE YUS:\u{A65D}\n\
CYRILLIC CAPITAL LETTER YN:\u{A65E}\n\
CYRILLIC SMALL LETTER YN:\u{A65F}\n\
CYRILLIC CAPITAL LETTER REVERSED TSE:\u{A660}\n\
CYRILLIC SMALL LETTER REVERSED TSE:\u{A661}\n\
CYRILLIC CAPITAL LETTER SOFT DE:\u{A662}\n\
CYRILLIC SMALL LETTER SOFT DE:\u{A663}\n\
CYRILLIC CAPITAL LETTER SOFT EL:\u{A664}\n\
CYRILLIC SMALL LETTER SOFT EL:\u{A665}\n\
CYRILLIC CAPITAL LETTER SOFT EM:\u{A666}\n\
CYRILLIC SMALL LETTER SOFT EM:\u{A667}\n\
CYRILLIC CAPITAL LETTER MONOCULAR O:\u{A668}\n\
CYRILLIC SMALL LETTER MONOCULAR O:\u{A669}\n\
CYRILLIC CAPITAL LETTER BINOCULAR O:\u{A66A}\n\
CYRILLIC SMALL LETTER BINOCULAR O:\u{A66B}\n\
CYRILLIC CAPITAL LETTER DOUBLE MONOCULAR O:\u{A66C}\n\
CYRILLIC SMALL LETTER DOUBLE MONOCULAR O:\u{A66D}\n\
CYRILLIC LETTER MULTIOCULAR O:\u{A66E}\n\
COMBINING CYRILLIC VZMET:\u{A66F}\n\
COMBINING CYRILLIC TEN MILLIONS SIGN:\u{A670}\n\
COMBINING CYRILLIC HUNDRED MILLIONS SIGN:\u{A671}\n\
COMBINING CYRILLIC THOUSAND MILLIONS SIGN:\u{A672}\n\
SLAVONIC ASTERISK:\u{A673}\n\
COMBINING CYRILLIC LETTER UKRAINIAN IE:\u{A674}\n\
COMBINING CYRILLIC LETTER I:\u{A675}\n\
COMBINING CYRILLIC LETTER YI:\u{A676}\n\
COMBINING CYRILLIC LETTER U:\u{A677}\n\
COMBINING CYRILLIC LETTER HARD SIGN:\u{A678}\n\
COMBINING CYRILLIC LETTER YERU:\u{A679}\n\
COMBINING CYRILLIC LETTER SOFT SIGN:\u{A67A}\n\
COMBINING CYRILLIC LETTER OMEGA:\u{A67B}\n\
COMBINING CYRILLIC KAVYKA:\u{A67C}\n\
COMBINING CYRILLIC PAYEROK:\u{A67D}\n\
CYRILLIC KAVYKA:\u{A67E}\n\
CYRILLIC PAYEROK:\u{A67F}\n\
CYRILLIC CAPITAL LETTER DWE:\u{A680}\n\
CYRILLIC SMALL LETTER DWE:\u{A681}\n\
CYRILLIC CAPITAL LETTER DZWE:\u{A682}\n\
CYRILLIC SMALL LETTER DZWE:\u{A683}\n\
CYRILLIC CAPITAL LETTER ZHWE:\u{A684}\n\
CYRILLIC SMALL LETTER ZHWE:\u{A685}\n\
CYRILLIC CAPITAL LETTER CCHE:\u{A686}\n\
CYRILLIC SMALL LETTER CCHE:\u{A687}\n\
CYRILLIC CAPITAL LETTER DZZE:\u{A688}\n\
CYRILLIC SMALL LETTER DZZE:\u{A689}\n\
CYRILLIC CAPITAL LETTER TE WITH MIDDLE HOOK:\u{A68A}\n\
CYRILLIC SMALL LETTER TE WITH MIDDLE HOOK:\u{A68B}\n\
CYRILLIC CAPITAL LETTER TWE:\u{A68C}\n\
CYRILLIC SMALL LETTER TWE:\u{A68D}\n\
CYRILLIC CAPITAL LETTER TSWE:\u{A68E}\n\
CYRILLIC SMALL LETTER TSWE:\u{A68F}\n\
CYRILLIC CAPITAL LETTER TSSE:\u{A690}\n\
CYRILLIC SMALL LETTER TSSE:\u{A691}\n\
CYRILLIC CAPITAL LETTER TCHE:\u{A692}\n\
CYRILLIC SMALL LETTER TCHE:\u{A693}\n\
CYRILLIC CAPITAL LETTER HWE:\u{A694}\n\
CYRILLIC SMALL LETTER HWE:\u{A695}\n\
CYRILLIC CAPITAL LETTER SHWE:\u{A696}\n\
CYRILLIC SMALL LETTER SHWE:\u{A697}\n\
CYRILLIC CAPITAL LETTER DOUBLE O:\u{A698}\n\
CYRILLIC SMALL LETTER DOUBLE O:\u{A699}\n\
CYRILLIC CAPITAL LETTER CROSSED O:\u{A69A}\n\
CYRILLIC SMALL LETTER CROSSED O:\u{A69B}\n\
MODIFIER LETTER CYRILLIC HARD SIGN:\u{A69C}\n\
MODIFIER LETTER CYRILLIC SOFT SIGN:\u{A69D}\n\
COMBINING CYRILLIC LETTER EF:\u{A69E}\n\
COMBINING CYRILLIC LETTER IOTIFIED E:\u{A69F}\n\
BAMUM LETTER A:\u{A6A0}\n\
BAMUM LETTER KA:\u{A6A1}\n\
BAMUM LETTER U:\u{A6A2}\n\
BAMUM LETTER KU:\u{A6A3}\n\
BAMUM LETTER EE:\u{A6A4}\n\
BAMUM LETTER REE:\u{A6A5}\n\
BAMUM LETTER TAE:\u{A6A6}\n\
BAMUM LETTER O:\u{A6A7}\n\
BAMUM LETTER NYI:\u{A6A8}\n\
BAMUM LETTER I:\u{A6A9}\n\
BAMUM LETTER LA:\u{A6AA}\n\
BAMUM LETTER PA:\u{A6AB}\n\
BAMUM LETTER RII:\u{A6AC}\n\
BAMUM LETTER RIEE:\u{A6AD}\n\
BAMUM LETTER LEEEE:\u{A6AE}\n\
BAMUM LETTER MEEEE:\u{A6AF}\n\
BAMUM LETTER TAA:\u{A6B0}\n\
BAMUM LETTER NDAA:\u{A6B1}\n\
BAMUM LETTER NJAEM:\u{A6B2}\n\
BAMUM LETTER M:\u{A6B3}\n\
BAMUM LETTER SUU:\u{A6B4}\n\
BAMUM LETTER MU:\u{A6B5}\n\
BAMUM LETTER SHII:\u{A6B6}\n\
BAMUM LETTER SI:\u{A6B7}\n\
BAMUM LETTER SHEUX:\u{A6B8}\n\
BAMUM LETTER SEUX:\u{A6B9}\n\
BAMUM LETTER KYEE:\u{A6BA}\n\
BAMUM LETTER KET:\u{A6BB}\n\
BAMUM LETTER NUAE:\u{A6BC}\n\
BAMUM LETTER NU:\u{A6BD}\n\
BAMUM LETTER NJUAE:\u{A6BE}\n\
BAMUM LETTER YOQ:\u{A6BF}\n\
BAMUM LETTER SHU:\u{A6C0}\n\
BAMUM LETTER YUQ:\u{A6C1}\n\
BAMUM LETTER YA:\u{A6C2}\n\
BAMUM LETTER NSHA:\u{A6C3}\n\
BAMUM LETTER KEUX:\u{A6C4}\n\
BAMUM LETTER PEUX:\u{A6C5}\n\
BAMUM LETTER NJEE:\u{A6C6}\n\
BAMUM LETTER NTEE:\u{A6C7}\n\
BAMUM LETTER PUE:\u{A6C8}\n\
BAMUM LETTER WUE:\u{A6C9}\n\
BAMUM LETTER PEE:\u{A6CA}\n\
BAMUM LETTER FEE:\u{A6CB}\n\
BAMUM LETTER RU:\u{A6CC}\n\
BAMUM LETTER LU:\u{A6CD}\n\
BAMUM LETTER MI:\u{A6CE}\n\
BAMUM LETTER NI:\u{A6CF}\n\
BAMUM LETTER REUX:\u{A6D0}\n\
BAMUM LETTER RAE:\u{A6D1}\n\
BAMUM LETTER KEN:\u{A6D2}\n\
BAMUM LETTER NGKWAEN:\u{A6D3}\n\
BAMUM LETTER NGGA:\u{A6D4}\n\
BAMUM LETTER NGA:\u{A6D5}\n\
BAMUM LETTER SHO:\u{A6D6}\n\
BAMUM LETTER PUAE:\u{A6D7}\n\
BAMUM LETTER FU:\u{A6D8}\n\
BAMUM LETTER FOM:\u{A6D9}\n\
BAMUM LETTER WA:\u{A6DA}\n\
BAMUM LETTER NA:\u{A6DB}\n\
BAMUM LETTER LI:\u{A6DC}\n\
BAMUM LETTER PI:\u{A6DD}\n\
BAMUM LETTER LOQ:\u{A6DE}\n\
BAMUM LETTER KO:\u{A6DF}\n\
BAMUM LETTER MBEN:\u{A6E0}\n\
BAMUM LETTER REN:\u{A6E1}\n\
BAMUM LETTER MEN:\u{A6E2}\n\
BAMUM LETTER MA:\u{A6E3}\n\
BAMUM LETTER TI:\u{A6E4}\n\
BAMUM LETTER KI:\u{A6E5}\n\
BAMUM LETTER MO:\u{A6E6}\n\
BAMUM LETTER MBAA:\u{A6E7}\n\
BAMUM LETTER TET:\u{A6E8}\n\
BAMUM LETTER KPA:\u{A6E9}\n\
BAMUM LETTER TEN:\u{A6EA}\n\
BAMUM LETTER NTUU:\u{A6EB}\n\
BAMUM LETTER SAMBA:\u{A6EC}\n\
BAMUM LETTER FAAMAE:\u{A6ED}\n\
BAMUM LETTER KOVUU:\u{A6EE}\n\
BAMUM LETTER KOGHOM:\u{A6EF}\n\
BAMUM COMBINING MARK KOQNDON:\u{A6F0}\n\
BAMUM COMBINING MARK TUKWENTIS:\u{A6F1}\n\
BAMUM NJAEMLI:\u{A6F2}\n\
BAMUM FULL STOP:\u{A6F3}\n\
BAMUM COLON:\u{A6F4}\n\
BAMUM COMMA:\u{A6F5}\n\
BAMUM SEMICOLON:\u{A6F6}\n\
BAMUM QUESTION MARK:\u{A6F7}\n\
MODIFIER LETTER CHINESE TONE YIN PING:\u{A700}\n\
MODIFIER LETTER CHINESE TONE YANG PING:\u{A701}\n\
MODIFIER LETTER CHINESE TONE YIN SHANG:\u{A702}\n\
MODIFIER LETTER CHINESE TONE YANG SHANG:\u{A703}\n\
MODIFIER LETTER CHINESE TONE YIN QU:\u{A704}\n\
MODIFIER LETTER CHINESE TONE YANG QU:\u{A705}\n\
MODIFIER LETTER CHINESE TONE YIN RU:\u{A706}\n\
MODIFIER LETTER CHINESE TONE YANG RU:\u{A707}\n\
MODIFIER LETTER EXTRA-HIGH DOTTED TONE BAR:\u{A708}\n\
MODIFIER LETTER HIGH DOTTED TONE BAR:\u{A709}\n\
MODIFIER LETTER MID DOTTED TONE BAR:\u{A70A}\n\
MODIFIER LETTER LOW DOTTED TONE BAR:\u{A70B}\n\
MODIFIER LETTER EXTRA-LOW DOTTED TONE BAR:\u{A70C}\n\
MODIFIER LETTER EXTRA-HIGH DOTTED LEFT-STEM TONE BAR:\u{A70D}\n\
MODIFIER LETTER HIGH DOTTED LEFT-STEM TONE BAR:\u{A70E}\n\
MODIFIER LETTER MID DOTTED LEFT-STEM TONE BAR:\u{A70F}\n\
MODIFIER LETTER LOW DOTTED LEFT-STEM TONE BAR:\u{A710}\n\
MODIFIER LETTER EXTRA-LOW DOTTED LEFT-STEM TONE BAR:\u{A711}\n\
MODIFIER LETTER EXTRA-HIGH LEFT-STEM TONE BAR:\u{A712}\n\
MODIFIER LETTER HIGH LEFT-STEM TONE BAR:\u{A713}\n\
MODIFIER LETTER MID LEFT-STEM TONE BAR:\u{A714}\n\
MODIFIER LETTER LOW LEFT-STEM TONE BAR:\u{A715}\n\
MODIFIER LETTER EXTRA-LOW LEFT-STEM TONE BAR:\u{A716}\n\
MODIFIER LETTER DOT VERTICAL BAR:\u{A717}\n\
MODIFIER LETTER DOT SLASH:\u{A718}\n\
MODIFIER LETTER DOT HORIZONTAL BAR:\u{A719}\n\
MODIFIER LETTER LOWER RIGHT CORNER ANGLE:\u{A71A}\n\
MODIFIER LETTER RAISED UP ARROW:\u{A71B}\n\
MODIFIER LETTER RAISED DOWN ARROW:\u{A71C}\n\
MODIFIER LETTER RAISED EXCLAMATION MARK:\u{A71D}\n\
MODIFIER LETTER RAISED INVERTED EXCLAMATION MARK:\u{A71E}\n\
MODIFIER LETTER LOW INVERTED EXCLAMATION MARK:\u{A71F}\n\
MODIFIER LETTER STRESS AND HIGH TONE:\u{A720}\n\
MODIFIER LETTER STRESS AND LOW TONE:\u{A721}\n\
LATIN CAPITAL LETTER EGYPTOLOGICAL ALEF:\u{A722}\n\
LATIN SMALL LETTER EGYPTOLOGICAL ALEF:\u{A723}\n\
LATIN CAPITAL LETTER EGYPTOLOGICAL AIN:\u{A724}\n\
LATIN SMALL LETTER EGYPTOLOGICAL AIN:\u{A725}\n\
LATIN CAPITAL LETTER HENG:\u{A726}\n\
LATIN SMALL LETTER HENG:\u{A727}\n\
LATIN CAPITAL LETTER TZ:\u{A728}\n\
LATIN SMALL LETTER TZ:\u{A729}\n\
LATIN CAPITAL LETTER TRESILLO:\u{A72A}\n\
LATIN SMALL LETTER TRESILLO:\u{A72B}\n\
LATIN CAPITAL LETTER CUATRILLO:\u{A72C}\n\
LATIN SMALL LETTER CUATRILLO:\u{A72D}\n\
LATIN CAPITAL LETTER CUATRILLO WITH COMMA:\u{A72E}\n\
LATIN SMALL LETTER CUATRILLO WITH COMMA:\u{A72F}\n\
LATIN LETTER SMALL CAPITAL F:\u{A730}\n\
LATIN LETTER SMALL CAPITAL S:\u{A731}\n\
LATIN CAPITAL LETTER AA:\u{A732}\n\
LATIN SMALL LETTER AA:\u{A733}\n\
LATIN CAPITAL LETTER AO:\u{A734}\n\
LATIN SMALL LETTER AO:\u{A735}\n\
LATIN CAPITAL LETTER AU:\u{A736}\n\
LATIN SMALL LETTER AU:\u{A737}\n\
LATIN CAPITAL LETTER AV:\u{A738}\n\
LATIN SMALL LETTER AV:\u{A739}\n\
LATIN CAPITAL LETTER AV WITH HORIZONTAL BAR:\u{A73A}\n\
LATIN SMALL LETTER AV WITH HORIZONTAL BAR:\u{A73B}\n\
LATIN CAPITAL LETTER AY:\u{A73C}\n\
LATIN SMALL LETTER AY:\u{A73D}\n\
LATIN CAPITAL LETTER REVERSED C WITH DOT:\u{A73E}\n\
LATIN SMALL LETTER REVERSED C WITH DOT:\u{A73F}\n\
LATIN CAPITAL LETTER K WITH STROKE:\u{A740}\n\
LATIN SMALL LETTER K WITH STROKE:\u{A741}\n";

pub const NAMES_35: &'static str = "LATIN CAPITAL LETTER K WITH DIAGONAL STROKE:\u{A742}\n\
LATIN SMALL LETTER K WITH DIAGONAL STROKE:\u{A743}\n\
LATIN CAPITAL LETTER K WITH STROKE AND DIAGONAL STROKE:\u{A744}\n\
LATIN SMALL LETTER K WITH STROKE AND DIAGONAL STROKE:\u{A745}\n\
LATIN CAPITAL LETTER BROKEN L:\u{A746}\n\
LATIN SMALL LETTER BROKEN L:\u{A747}\n\
LATIN CAPITAL LETTER L WITH HIGH STROKE:\u{A748}\n\
LATIN SMALL LETTER L WITH HIGH STROKE:\u{A749}\n\
LATIN CAPITAL LETTER O WITH LONG STROKE OVERLAY:\u{A74A}\n\
LATIN SMALL LETTER O WITH LONG STROKE OVERLAY:\u{A74B}\n\
LATIN CAPITAL LETTER O WITH LOOP:\u{A74C}\n\
LATIN SMALL LETTER O WITH LOOP:\u{A74D}\n\
LATIN CAPITAL LETTER OO:\u{A74E}\n\
LATIN SMALL LETTER OO:\u{A74F}\n\
LATIN CAPITAL LETTER P WITH STROKE THROUGH DESCENDER:\u{A750}\n\
LATIN SMALL LETTER P WITH STROKE THROUGH DESCENDER:\u{A751}\n\
LATIN CAPITAL LETTER P WITH FLOURISH:\u{A752}\n\
LATIN SMALL LETTER P WITH FLOURISH:\u{A753}\n\
LATIN CAPITAL LETTER P WITH SQUIRREL TAIL:\u{A754}\n\
LATIN SMALL LETTER P WITH SQUIRREL TAIL:\u{A755}\n\
LATIN CAPITAL LETTER Q WITH STROKE THROUGH DESCENDER:\u{A756}\n\
LATIN SMALL LETTER Q WITH STROKE THROUGH DESCENDER:\u{A757}\n\
LATIN CAPITAL LETTER Q WITH DIAGONAL STROKE:\u{A758}\n\
LATIN SMALL LETTER Q WITH DIAGONAL STROKE:\u{A759}\n\
LATIN CAPITAL LETTER R ROTUNDA:\u{A75A}\n\
LATIN SMALL LETTER R ROTUNDA:\u{A75B}\n\
LATIN CAPITAL LETTER RUM ROTUNDA:\u{A75C}\n\
LATIN SMALL LETTER RUM ROTUNDA:\u{A75D}\n\
LATIN CAPITAL LETTER V WITH DIAGONAL STROKE:\u{A75E}\n\
LATIN SMALL LETTER V WITH DIAGONAL STROKE:\u{A75F}\n\
LATIN CAPITAL LETTER VY:\u{A760}\n\
LATIN SMALL LETTER VY:\u{A761}\n\
LATIN CAPITAL LETTER VISIGOTHIC Z:\u{A762}\n\
LATIN SMALL LETTER VISIGOTHIC Z:\u{A763}\n\
LATIN CAPITAL LETTER THORN WITH STROKE:\u{A764}\n\
LATIN SMALL LETTER THORN WITH STROKE:\u{A765}\n\
LATIN CAPITAL LETTER THORN WITH STROKE THROUGH DESCENDER:\u{A766}\n\
LATIN SMALL LETTER THORN WITH STROKE THROUGH DESCENDER:\u{A767}\n\
LATIN CAPITAL LETTER VEND:\u{A768}\n\
LATIN SMALL LETTER VEND:\u{A769}\n\
LATIN CAPITAL LETTER ET:\u{A76A}\n\
LATIN SMALL LETTER ET:\u{A76B}\n\
LATIN CAPITAL LETTER IS:\u{A76C}\n\
LATIN SMALL LETTER IS:\u{A76D}\n\
LATIN CAPITAL LETTER CON:\u{A76E}\n\
LATIN SMALL LETTER CON:\u{A76F}\n\
MODIFIER LETTER US:\u{A770}\n\
LATIN SMALL LETTER DUM:\u{A771}\n\
LATIN SMALL LETTER LUM:\u{A772}\n\
LATIN SMALL LETTER MUM:\u{A773}\n\
LATIN SMALL LETTER NUM:\u{A774}\n\
LATIN SMALL LETTER RUM:\u{A775}\n\
LATIN LETTER SMALL CAPITAL RUM:\u{A776}\n\
LATIN SMALL LETTER TUM:\u{A777}\n\
LATIN SMALL LETTER UM:\u{A778}\n\
LATIN CAPITAL LETTER INSULAR D:\u{A779}\n\
LATIN SMALL LETTER INSULAR D:\u{A77A}\n\
LATIN CAPITAL LETTER INSULAR F:\u{A77B}\n\
LATIN SMALL LETTER INSULAR F:\u{A77C}\n\
LATIN CAPITAL LETTER INSULAR G:\u{A77D}\n\
LATIN CAPITAL LETTER TURNED INSULAR G:\u{A77E}\n\
LATIN SMALL LETTER TURNED INSULAR G:\u{A77F}\n\
LATIN CAPITAL LETTER TURNED L:\u{A780}\n\
LATIN SMALL LETTER TURNED L:\u{A781}\n\
LATIN CAPITAL LETTER INSULAR R:\u{A782}\n\
LATIN SMALL LETTER INSULAR R:\u{A783}\n\
LATIN CAPITAL LETTER INSULAR S:\u{A784}\n\
LATIN SMALL LETTER INSULAR S:\u{A785}\n\
LATIN CAPITAL LETTER INSULAR T:\u{A786}\n\
LATIN SMALL LETTER INSULAR T:\u{A787}\n\
MODIFIER LETTER LOW CIRCUMFLEX ACCENT:\u{A788}\n\
MODIFIER LETTER COLON:\u{A789}\n\
MODIFIER LETTER SHORT EQUALS SIGN:\u{A78A}\n\
LATIN CAPITAL LETTER SALTILLO:\u{A78B}\n\
LATIN SMALL LETTER SALTILLO:\u{A78C}\n\
LATIN CAPITAL LETTER TURNED H:\u{A78D}\n\
LATIN SMALL LETTER L WITH RETROFLEX HOOK AND BELT:\u{A78E}\n\
LATIN LETTER SINOLOGICAL DOT:\u{A78F}\n\
LATIN CAPITAL LETTER N WITH DESCENDER:\u{A790}\n\
LATIN SMALL LETTER N WITH DESCENDER:\u{A791}\n\
LATIN CAPITAL LETTER C WITH BAR:\u{A792}\n\
LATIN SMALL LETTER C WITH BAR:\u{A793}\n\
LATIN SMALL LETTER C WITH PALATAL HOOK:\u{A794}\n\
LATIN SMALL LETTER H WITH PALATAL HOOK:\u{A795}\n\
LATIN CAPITAL LETTER B WITH FLOURISH:\u{A796}\n\
LATIN SMALL LETTER B WITH FLOURISH:\u{A797}\n\
LATIN CAPITAL LETTER F WITH STROKE:\u{A798}\n\
LATIN SMALL LETTER F WITH STROKE:\u{A799}\n\
LATIN CAPITAL LETTER VOLAPUK AE:\u{A79A}\n\
LATIN SMALL LETTER VOLAPUK AE:\u{A79B}\n\
LATIN CAPITAL LETTER VOLAPUK OE:\u{A79C}\n\
LATIN SMALL LETTER VOLAPUK OE:\u{A79D}\n\
LATIN CAPITAL LETTER VOLAPUK UE:\u{A79E}\n\
LATIN SMALL LETTER VOLAPUK UE:\u{A79F}\n\
LATIN CAPITAL LETTER G WITH OBLIQUE STROKE:\u{A7A0}\n\
LATIN SMALL LETTER G WITH OBLIQUE STROKE:\u{A7A1}\n\
LATIN CAPITAL LETTER K WITH OBLIQUE STROKE:\u{A7A2}\n\
LATIN SMALL LETTER K WITH OBLIQUE STROKE:\u{A7A3}\n\
LATIN CAPITAL LETTER N WITH OBLIQUE STROKE:\u{A7A4}\n\
LATIN SMALL LETTER N WITH OBLIQUE STROKE:\u{A7A5}\n\
LATIN CAPITAL LETTER R WITH OBLIQUE STROKE:\u{A7A6}\n\
LATIN SMALL LETTER R WITH OBLIQUE STROKE:\u{A7A7}\n\
LATIN CAPITAL LETTER S WITH OBLIQUE STROKE:\u{A7A8}\n\
LATIN SMALL LETTER S WITH OBLIQUE STROKE:\u{A7A9}\n\
LATIN CAPITAL LETTER H WITH HOOK:\u{A7AA}\n\
LATIN CAPITAL LETTER REVERSED OPEN E:\u{A7AB}\n\
LATIN CAPITAL LETTER SCRIPT G:\u{A7AC}\n\
LATIN CAPITAL LETTER L WITH BELT:\u{A7AD}\n\
LATIN CAPITAL LETTER SMALL CAPITAL I:\u{A7AE}\n\
LATIN LETTER SMALL CAPITAL Q:\u{A7AF}\n\
LATIN CAPITAL LETTER TURNED K:\u{A7B0}\n\
LATIN CAPITAL LETTER TURNED T:\u{A7B1}\n\
LATIN CAPITAL LETTER J WITH CROSSED-TAIL:\u{A7B2}\n\
LATIN CAPITAL LETTER CHI:\u{A7B3}\n\
LATIN CAPITAL LETTER BETA:\u{A7B4}\n\
LATIN SMALL LETTER BETA:\u{A7B5}\n\
LATIN CAPITAL LETTER OMEGA:\u{A7B6}\n\
LATIN SMALL LETTER OMEGA:\u{A7B7}\n\
LATIN CAPITAL LETTER U WITH STROKE:\u{A7B8}\n\
LATIN SMALL LETTER U WITH STROKE:\u{A7B9}\n\
LATIN CAPITAL LETTER GLOTTAL A:\u{A7BA}\n\
LATIN SMALL LETTER GLOTTAL A:\u{A7BB}\n\
LATIN CAPITAL LETTER GLOTTAL I:\u{A7BC}\n\
LATIN SMALL LETTER GLOTTAL I:\u{A7BD}\n\
LATIN CAPITAL LETTER GLOTTAL U:\u{A7BE}\n\
LATIN SMALL LETTER GLOTTAL U:\u{A7BF}\n\
LATIN CAPITAL LETTER OLD POLISH O:\u{A7C0}\n\
LATIN SMALL LETTER OLD POLISH O:\u{A7C1}\n\
LATIN CAPITAL LETTER ANGLICANA W:\u{A7C2}\n\
LATIN SMALL LETTER ANGLICANA W:\u{A7C3}\n\
LATIN CAPITAL LETTER C WITH PALATAL HOOK:\u{A7C4}\n\
LATIN CAPITAL LETTER S WITH HOOK:\u{A7C5}\n\
LATIN CAPITAL LETTER Z WITH PALATAL HOOK:\u{A7C6}\n\
LATIN CAPITAL LETTER D WITH SHORT STROKE OVERLAY:\u{A7C7}\n\
LATIN SMALL LETTER D WITH SHORT STROKE OVERLAY:\u{A7C8}\n\
LATIN CAPITAL LETTER S WITH SHORT STROKE OVERLAY:\u{A7C9}\n\
LATIN SMALL LETTER S WITH SHORT STROKE OVERLAY:\u{A7CA}\n\
LATIN CAPITAL LETTER CLOSED INSULAR G:\u{A7D0}\n\
LATIN SMALL LETTER CLOSED INSULAR G:\u{A7D1}\n\
LATIN SMALL LETTER DOUBLE THORN:\u{A7D3}\n\
LATIN SMALL LETTER DOUBLE WYNN:\u{A7D5}\n\
LATIN CAPITAL LETTER MIDDLE SCOTS S:\u{A7D6}\n\
LATIN SMALL LETTER MIDDLE SCOTS S:\u{A7D7}\n\
LATIN CAPITAL LETTER SIGMOID S:\u{A7D8}\n\
LATIN SMALL LETTER SIGMOID S:\u{A7D9}\n\
MODIFIER LETTER CAPITAL C:\u{A7F2}\n\
MODIFIER LETTER CAPITAL F:\u{A7F3}\n\
MODIFIER LETTER CAPITAL Q:\u{A7F4}\n\
LATIN CAPITAL LETTER REVERSED HALF H:\u{A7F5}\n\
LATIN SMALL LETTER REVERSED HALF H:\u{A7F6}\n\
LATIN EPIGRAPHIC LETTER SIDEWAYS I:\u{A7F7}\n\
MODIFIER LETTER CAPITAL H WITH STROKE:\u{A7F8}\n\
MODIFIER LETTER SMALL LIGATURE OE:\u{A7F9}\n\
LATIN LETTER SMALL CAPITAL TURNED M:\u{A7FA}\n\
LATIN EPIGRAPHIC LETTER REVERSED F:\u{A7FB}\n\
LATIN EPIGRAPHIC LETTER REVERSED P:\u{A7FC}\n\
LATIN EPIGRAPHIC LETTER INVERTED M:\u{A7FD}\n\
LATIN EPIGRAPHIC LETTER I LONGA:\u{A7FE}\n\
LATIN EPIGRAPHIC LETTER ARCHAIC M:\u{A7FF}\n\
SYLOTI NAGRI LETTER A:\u{A800}\n\
SYLOTI NAGRI LETTER I:\u{A801}\n\
SYLOTI NAGRI SIGN DVISVARA:\u{A802}\n\
SYLOTI NAGRI LETTER U:\u{A803}\n\
SYLOTI NAGRI LETTER E:\u{A804}\n\
SYLOTI NAGRI LETTER O:\u{A805}\n\
SYLOTI NAGRI SIGN HASANTA:\u{A806}\n\
SYLOTI NAGRI LETTER KO:\u{A807}\n\
SYLOTI NAGRI LETTER KHO:\u{A808}\n\
SYLOTI NAGRI LETTER GO:\u{A809}\n\
SYLOTI NAGRI LETTER GHO:\u{A80A}\n\
SYLOTI NAGRI SIGN ANUSVARA:\u{A80B}\n\
SYLOTI NAGRI LETTER CO:\u{A80C}\n\
SYLOTI NAGRI LETTER CHO:\u{A80D}\n\
SYLOTI NAGRI LETTER JO:\u{A80E}\n\
SYLOTI NAGRI LETTER JHO:\u{A80F}\n\
SYLOTI NAGRI LETTER TTO:\u{A810}\n\
SYLOTI NAGRI LETTER TTHO:\u{A811}\n\
SYLOTI NAGRI LETTER DDO:\u{A812}\n\
SYLOTI NAGRI LETTER DDHO:\u{A813}\n\
SYLOTI NAGRI LETTER TO:\u{A814}\n\
SYLOTI NAGRI LETTER THO:\u{A815}\n\
SYLOTI NAGRI LETTER DO:\u{A816}\n\
SYLOTI NAGRI LETTER DHO:\u{A817}\n\
SYLOTI NAGRI LETTER NO:\u{A818}\n\
SYLOTI NAGRI LETTER PO:\u{A819}\n\
SYLOTI NAGRI LETTER PHO:\u{A81A}\n\
SYLOTI NAGRI LETTER BO:\u{A81B}\n\
SYLOTI NAGRI LETTER BHO:\u{A81C}\n\
SYLOTI NAGRI LETTER MO:\u{A81D}\n\
SYLOTI NAGRI LETTER RO:\u{A81E}\n\
SYLOTI NAGRI LETTER LO:\u{A81F}\n\
SYLOTI NAGRI LETTER RRO:\u{A820}\n\
SYLOTI NAGRI LETTER SO:\u{A821}\n\
SYLOTI NAGRI LETTER HO:\u{A822}\n\
SYLOTI NAGRI VOWEL SIGN A:\u{A823}\n\
SYLOTI NAGRI VOWEL SIGN I:\u{A824}\n\
SYLOTI NAGRI VOWEL SIGN U:\u{A825}\n\
SYLOTI NAGRI VOWEL SIGN E:\u{A826}\n\
SYLOTI NAGRI VOWEL SIGN OO:\u{A827}\n\
SYLOTI NAGRI POETRY MARK-1:\u{A828}\n\
SYLOTI NAGRI POETRY MARK-2:\u{A829}\n\
SYLOTI NAGRI POETRY MARK-3:\u{A82A}\n\
SYLOTI NAGRI POETRY MARK-4:\u{A82B}\n\
SYLOTI NAGRI SIGN ALTERNATE HASANTA:\u{A82C}\n\
NORTH INDIC FRACTION ONE QUARTER:\u{A830}\n\
NORTH INDIC FRACTION ONE HALF:\u{A831}\n\
NORTH INDIC FRACTION THREE QUARTERS:\u{A832}\n\
NORTH INDIC FRACTION ONE SIXTEENTH:\u{A833}\n\
NORTH INDIC FRACTION ONE EIGHTH:\u{A834}\n\
NORTH INDIC FRACTION THREE SIXTEENTHS:\u{A835}\n\
NORTH INDIC QUARTER MARK:\u{A836}\n\
NORTH INDIC PLACEHOLDER MARK:\u{A837}\n\
NORTH INDIC RUPEE MARK:\u{A838}\n\
NORTH INDIC QUANTITY MARK:\u{A839}\n\
PHAGS-PA LETTER KA:\u{A840}\n\
PHAGS-PA LETTER KHA:\u{A841}\n\
PHAGS-PA LETTER GA:\u{A842}\n\
PHAGS-PA LETTER NGA:\u{A843}\n\
PHAGS-PA LETTER CA:\u{A844}\n\
PHAGS-PA LETTER CHA:\u{A845}\n\
PHAGS-PA LETTER JA:\u{A846}\n\
PHAGS-PA LETTER NYA:\u{A847}\n\
PHAGS-PA LETTER TA:\u{A848}\n\
PHAGS-PA LETTER THA:\u{A849}\n\
PHAGS-PA LETTER DA:\u{A84A}\n\
PHAGS-PA LETTER NA:\u{A84B}\n\
PHAGS-PA LETTER PA:\u{A84C}\n\
PHAGS-PA LETTER PHA:\u{A84D}\n\
PHAGS-PA LETTER BA:\u{A84E}\n\
PHAGS-PA LETTER MA:\u{A84F}\n\
PHAGS-PA LETTER TSA:\u{A850}\n\
PHAGS-PA LETTER TSHA:\u{A851}\n\
PHAGS-PA LETTER DZA:\u{A852}\n\
PHAGS-PA LETTER WA:\u{A853}\n\
PHAGS-PA LETTER ZHA:\u{A854}\n\
PHAGS-PA LETTER ZA:\u{A855}\n\
PHAGS-PA LETTER SMALL A:\u{A856}\n\
PHAGS-PA LETTER YA:\u{A857}\n\
PHAGS-PA LETTER RA:\u{A858}\n\
PHAGS-PA LETTER LA:\u{A859}\n\
PHAGS-PA LETTER SHA:\u{A85A}\n\
PHAGS-PA LETTER SA:\u{A85B}\n\
PHAGS-PA LETTER HA:\u{A85C}\n\
PHAGS-PA LETTER A:\u{A85D}\n\
PHAGS-PA LETTER I:\u{A85E}\n\
PHAGS-PA LETTER U:\u{A85F}\n\
PHAGS-PA LETTER E:\u{A860}\n\
PHAGS-PA LETTER O:\u{A861}\n\
PHAGS-PA LETTER QA:\u{A862}\n\
PHAGS-PA LETTER XA:\u{A863}\n\
PHAGS-PA LETTER FA:\u{A864}\n\
PHAGS-PA LETTER GGA:\u{A865}\n\
PHAGS-PA LETTER EE:\u{A866}\n\
PHAGS-PA SUBJOINED LETTER WA:\u{A867}\n\
PHAGS-PA SUBJOINED LETTER YA:\u{A868}\n\
PHAGS-PA LETTER TTA:\u{A869}\n\
PHAGS-PA LETTER TTHA:\u{A86A}\n\
PHAGS-PA LETTER DDA:\u{A86B}\n\
PHAGS-PA LETTER NNA:\u{A86C}\n\
PHAGS-PA LETTER ALTERNATE YA:\u{A86D}\n\
PHAGS-PA LETTER VOICELESS SHA:\u{A86E}\n\
PHAGS-PA LETTER VOICED HA:\u{A86F}\n\
PHAGS-PA LETTER ASPIRATED FA:\u{A870}\n\
PHAGS-PA SUBJOINED LETTER RA:\u{A871}\n\
PHAGS-PA SUPERFIXED LETTER RA:\u{A872}\n\
PHAGS-PA LETTER CANDRABINDU:\u{A873}\n\
PHAGS-PA SINGLE HEAD MARK:\u{A874}\n\
PHAGS-PA DOUBLE HEAD MARK:\u{A875}\n\
PHAGS-PA MARK SHAD:\u{A876}\n\
PHAGS-PA MARK DOUBLE SHAD:\u{A877}\n\
SAURASHTRA SIGN ANUSVARA:\u{A880}\n\
SAURASHTRA SIGN VISARGA:\u{A881}\n\
SAURASHTRA LETTER A:\u{A882}\n\
SAURASHTRA LETTER AA:\u{A883}\n\
SAURASHTRA LETTER I:\u{A884}\n\
SAURASHTRA LETTER II:\u{A885}\n\
SAURASHTRA LETTER U:\u{A886}\n\
SAURASHTRA LETTER UU:\u{A887}\n\
SAURASHTRA LETTER VOCALIC R:\u{A888}\n\
SAURASHTRA LETTER VOCALIC RR:\u{A889}\n\
SAURASHTRA LETTER VOCALIC L:\u{A88A}\n\
SAURASHTRA LETTER VOCALIC LL:\u{A88B}\n\
SAURASHTRA LETTER E:\u{A88C}\n\
SAURASHTRA LETTER EE:\u{A88D}\n\
SAURASHTRA LETTER AI:\u{A88E}\n\
SAURASHTRA LETTER O:\u{A88F}\n\
SAURASHTRA LETTER OO:\u{A890}\n\
SAURASHTRA LETTER AU:\u{A891}\n\
SAURASHTRA LETTER KA:\u{A892}\n\
SAURASHTRA LETTER KHA:\u{A893}\n\
SAURASHTRA LETTER GA:\u{A894}\n\
SAURASHTRA LETTER GHA:\u{A895}\n\
SAURASHTRA LETTER NGA:\u{A896}\n\
SAURASHTRA LETTER CA:\u{A897}\n\
SAURASHTRA LETTER CHA:\u{A898}\n\
SAURASHTRA LETTER JA:\u{A899}\n\
SAURASHTRA LETTER JHA:\u{A89A}\n\
SAURASHTRA LETTER NYA:\u{A89B}\n\
SAURASHTRA LETTER TTA:\u{A89C}\n\
SAURASHTRA LETTER TTHA:\u{A89D}\n\
SAURASHTRA LETTER DDA:\u{A89E}\n\
SAURASHTRA LETTER DDHA:\u{A89F}\n\
SAURASHTRA LETTER NNA:\u{A8A0}\n\
SAURASHTRA LETTER TA:\u{A8A1}\n\
SAURASHTRA LETTER THA:\u{A8A2}\n\
SAURASHTRA LETTER DA:\u{A8A3}\n\
SAURASHTRA LETTER DHA:\u{A8A4}\n\
SAURASHTRA LETTER NA:\u{A8A5}\n\
SAURASHTRA LETTER PA:\u{A8A6}\n\
SAURASHTRA LETTER PHA:\u{A8A7}\n\
SAURASHTRA LETTER BA:\u{A8A8}\n\
SAURASHTRA LETTER BHA:\u{A8A9}\n\
SAURASHTRA LETTER MA:\u{A8AA}\n\
SAURASHTRA LETTER YA:\u{A8AB}\n\
SAURASHTRA LETTER RA:\u{A8AC}\n\
SAURASHTRA LETTER LA:\u{A8AD}\n\
SAURASHTRA LETTER VA:\u{A8AE}\n\
SAURASHTRA LETTER SHA:\u{A8AF}\n\
SAURASHTRA LETTER SSA:\u{A8B0}\n\
SAURASHTRA LETTER SA:\u{A8B1}\n\
SAURASHTRA LETTER HA:\u{A8B2}\n\
SAURASHTRA LETTER LLA:\u{A8B3}\n\
SAURASHTRA CONSONANT SIGN HAARU:\u{A8B4}\n\
SAURASHTRA VOWEL SIGN AA:\u{A8B5}\n\
SAURASHTRA VOWEL SIGN I:\u{A8B6}\n\
SAURASHTRA VOWEL SIGN II:\u{A8B7}\n\
SAURASHTRA VOWEL SIGN U:\u{A8B8}\n\
SAURASHTRA VOWEL SIGN UU:\u{A8B9}\n\
SAURASHTRA VOWEL SIGN VOCALIC R:\u{A8BA}\n\
SAURASHTRA VOWEL SIGN VOCALIC RR:\u{A8BB}\n\
SAURASHTRA VOWEL SIGN VOCALIC L:\u{A8BC}\n\
SAURASHTRA VOWEL SIGN VOCALIC LL:\u{A8BD}\n\
SAURASHTRA VOWEL SIGN E:\u{A8BE}\n\
SAURASHTRA VOWEL SIGN EE:\u{A8BF}\n\
SAURASHTRA VOWEL SIGN AI:\u{A8C0}\n\
SAURASHTRA VOWEL SIGN O:\u{A8C1}\n\
SAURASHTRA VOWEL SIGN OO:\u{A8C2}\n\
SAURASHTRA VOWEL SIGN AU:\u{A8C3}\n\
SAURASHTRA SIGN VIRAMA:\u{A8C4}\n\
SAURASHTRA SIGN CANDRABINDU:\u{A8C5}\n\
SAURASHTRA DANDA:\u{A8CE}\n\
SAURASHTRA DOUBLE DANDA:\u{A8CF}\n\
SAURASHTRA DIGIT ZERO:\u{A8D0}\n\
SAURASHTRA DIGIT ONE:\u{A8D1}\n\
SAURASHTRA DIGIT TWO:\u{A8D2}\n\
SAURASHTRA DIGIT THREE:\u{A8D3}\n\
SAURASHTRA DIGIT FOUR:\u{A8D4}\n\
SAURASHTRA DIGIT FIVE:\u{A8D5}\n\
SAURASHTRA DIGIT SIX:\u{A8D6}\n\
SAURASHTRA DIGIT SEVEN:\u{A8D7}\n\
SAURASHTRA DIGIT EIGHT:\u{A8D8}\n\
SAURASHTRA DIGIT NINE:\u{A8D9}\n\
COMBINING DEVANAGARI DIGIT ZERO:\u{A8E0}\n\
COMBINING DEVANAGARI DIGIT ONE:\u{A8E1}\n\
COMBINING DEVANAGARI DIGIT TWO:\u{A8E2}\n\
COMBINING DEVANAGARI DIGIT THREE:\u{A8E3}\n\
COMBINING DEVANAGARI DIGIT FOUR:\u{A8E4}\n\
COMBINING DEVANAGARI DIGIT FIVE:\u{A8E5}\n\
COMBINING DEVANAGARI DIGIT SIX:\u{A8E6}\n\
COMBINING DEVANAGARI DIGIT SEVEN:\u{A8E7}\n\
COMBINING DEVANAGARI DIGIT EIGHT:\u{A8E8}\n\
COMBINING DEVANAGARI DIGIT NINE:\u{A8E9}\n\
COMBINING DEVANAGARI LETTER A:\u{A8EA}\n\
COMBINING DEVANAGARI LETTER U:\u{A8EB}\n\
COMBINING DEVANAGARI LETTER KA:\u{A8EC}\n\
COMBINING DEVANAGARI LETTER NA:\u{A8ED}\n\
COMBINING DEVANAGARI LETTER PA:\u{A8EE}\n\
COMBINING DEVANAGARI LETTER RA:\u{A8EF}\n\
COMBINING DEVANAGARI LETTER VI:\u{A8F0}\n\
COMBINING DEVANAGARI SIGN AVAGRAHA:\u{A8F1}\n\
DEVANAGARI SIGN SPACING CANDRABINDU:\u{A8F2}\n";

pub const NAMES_36: &'static str = "DEVANAGARI SIGN CANDRABINDU VIRAMA:\u{A8F3}\n\
DEVANAGARI SIGN DOUBLE CANDRABINDU VIRAMA:\u{A8F4}\n\
DEVANAGARI SIGN CANDRABINDU TWO:\u{A8F5}\n\
DEVANAGARI SIGN CANDRABINDU THREE:\u{A8F6}\n\
DEVANAGARI SIGN CANDRABINDU AVAGRAHA:\u{A8F7}\n\
DEVANAGARI SIGN PUSHPIKA:\u{A8F8}\n\
DEVANAGARI GAP FILLER:\u{A8F9}\n\
DEVANAGARI CARET:\u{A8FA}\n\
DEVANAGARI HEADSTROKE:\u{A8FB}\n\
DEVANAGARI SIGN SIDDHAM:\u{A8FC}\n\
DEVANAGARI JAIN OM:\u{A8FD}\n\
DEVANAGARI LETTER AY:\u{A8FE}\n\
DEVANAGARI VOWEL SIGN AY:\u{A8FF}\n\
KAYAH LI DIGIT ZERO:\u{A900}\n\
KAYAH LI DIGIT ONE:\u{A901}\n\
KAYAH LI DIGIT TWO:\u{A902}\n\
KAYAH LI DIGIT THREE:\u{A903}\n\
KAYAH LI DIGIT FOUR:\u{A904}\n\
KAYAH LI DIGIT FIVE:\u{A905}\n\
KAYAH LI DIGIT SIX:\u{A906}\n\
KAYAH LI DIGIT SEVEN:\u{A907}\n\
KAYAH LI DIGIT EIGHT:\u{A908}\n\
KAYAH LI DIGIT NINE:\u{A909}\n\
KAYAH LI LETTER KA:\u{A90A}\n\
KAYAH LI LETTER KHA:\u{A90B}\n\
KAYAH LI LETTER GA:\u{A90C}\n\
KAYAH LI LETTER NGA:\u{A90D}\n\
KAYAH LI LETTER SA:\u{A90E}\n\
KAYAH LI LETTER SHA:\u{A90F}\n\
KAYAH LI LETTER ZA:\u{A910}\n\
KAYAH LI LETTER NYA:\u{A911}\n\
KAYAH LI LETTER TA:\u{A912}\n\
KAYAH LI LETTER HTA:\u{A913}\n\
KAYAH LI LETTER NA:\u{A914}\n\
KAYAH LI LETTER PA:\u{A915}\n\
KAYAH LI LETTER PHA:\u{A916}\n\
KAYAH LI LETTER MA:\u{A917}\n\
KAYAH LI LETTER DA:\u{A918}\n\
KAYAH LI LETTER BA:\u{A919}\n\
KAYAH LI LETTER RA:\u{A91A}\n\
KAYAH LI LETTER YA:\u{A91B}\n\
KAYAH LI LETTER LA:\u{A91C}\n\
KAYAH LI LETTER WA:\u{A91D}\n\
KAYAH LI LETTER THA:\u{A91E}\n\
KAYAH LI LETTER HA:\u{A91F}\n\
KAYAH LI LETTER VA:\u{A920}\n\
KAYAH LI LETTER CA:\u{A921}\n\
KAYAH LI LETTER A:\u{A922}\n\
KAYAH LI LETTER OE:\u{A923}\n\
KAYAH LI LETTER I:\u{A924}\n\
KAYAH LI LETTER OO:\u{A925}\n\
KAYAH LI VOWEL UE:\u{A926}\n\
KAYAH LI VOWEL E:\u{A927}\n\
KAYAH LI VOWEL U:\u{A928}\n\
KAYAH LI VOWEL EE:\u{A929}\n\
KAYAH LI VOWEL O:\u{A92A}\n\
KAYAH LI TONE PLOPHU:\u{A92B}\n\
KAYAH LI TONE CALYA:\u{A92C}\n\
KAYAH LI TONE CALYA PLOPHU:\u{A92D}\n\
KAYAH LI SIGN CWI:\u{A92E}\n\
KAYAH LI SIGN SHYA:\u{A92F}\n\
REJANG LETTER KA:\u{A930}\n\
REJANG LETTER GA:\u{A931}\n\
REJANG LETTER NGA:\u{A932}\n\
REJANG LETTER TA:\u{A933}\n\
REJANG LETTER DA:\u{A934}\n\
REJANG LETTER NA:\u{A935}\n\
REJANG LETTER PA:\u{A936}\n\
REJANG LETTER BA:\u{A937}\n\
REJANG LETTER MA:\u{A938}\n\
REJANG LETTER CA:\u{A939}\n\
REJANG LETTER JA:\u{A93A}\n\
REJANG LETTER NYA:\u{A93B}\n\
REJANG LETTER SA:\u{A93C}\n\
REJANG LETTER RA:\u{A93D}\n\
REJANG LETTER LA:\u{A93E}\n\
REJANG LETTER YA:\u{A93F}\n\
REJANG LETTER WA:\u{A940}\n\
REJANG LETTER HA:\u{A941}\n\
REJANG LETTER MBA:\u{A942}\n\
REJANG LETTER NGGA:\u{A943}\n\
REJANG LETTER NDA:\u{A944}\n\
REJANG LETTER NYJA:\u{A945}\n\
REJANG LETTER A:\u{A946}\n\
REJANG VOWEL SIGN I:\u{A947}\n\
REJANG VOWEL SIGN U:\u{A948}\n\
REJANG VOWEL SIGN E:\u{A949}\n\
REJANG VOWEL SIGN AI:\u{A94A}\n\
REJANG VOWEL SIGN O:\u{A94B}\n\
REJANG VOWEL SIGN AU:\u{A94C}\n\
REJANG VOWEL SIGN EU:\u{A94D}\n\
REJANG VOWEL SIGN EA:\u{A94E}\n\
REJANG CONSONANT SIGN NG:\u{A94F}\n\
REJANG CONSONANT SIGN N:\u{A950}\n\
REJANG CONSONANT SIGN R:\u{A951}\n\
REJANG CONSONANT SIGN H:\u{A952}\n\
REJANG VIRAMA:\u{A953}\n\
REJANG SECTION MARK:\u{A95F}\n\
HANGUL CHOSEONG TIKEUT-MIEUM:\u{A960}\n\
HANGUL CHOSEONG TIKEUT-PIEUP:\u{A961}\n\
HANGUL CHOSEONG TIKEUT-SIOS:\u{A962}\n\
HANGUL CHOSEONG TIKEUT-CIEUC:\u{A963}\n\
HANGUL CHOSEONG RIEUL-KIYEOK:\u{A964}\n\
HANGUL CHOSEONG RIEUL-SSANGKIYEOK:\u{A965}\n\
HANGUL CHOSEONG RIEUL-TIKEUT:\u{A966}\n\
HANGUL CHOSEONG RIEUL-SSANGTIKEUT:\u{A967}\n\
HANGUL CHOSEONG RIEUL-MIEUM:\u{A968}\n\
HANGUL CHOSEONG RIEUL-PIEUP:\u{A969}\n\
HANGUL CHOSEONG RIEUL-SSANGPIEUP:\u{A96A}\n\
HANGUL CHOSEONG RIEUL-KAPYEOUNPIEUP:\u{A96B}\n\
HANGUL CHOSEONG RIEUL-SIOS:\u{A96C}\n\
HANGUL CHOSEONG RIEUL-CIEUC:\u{A96D}\n\
HANGUL CHOSEONG RIEUL-KHIEUKH:\u{A96E}\n\
HANGUL CHOSEONG MIEUM-KIYEOK:\u{A96F}\n\
HANGUL CHOSEONG MIEUM-TIKEUT:\u{A970}\n\
HANGUL CHOSEONG MIEUM-SIOS:\u{A971}\n\
HANGUL CHOSEONG PIEUP-SIOS-THIEUTH:\u{A972}\n\
HANGUL CHOSEONG PIEUP-KHIEUKH:\u{A973}\n\
HANGUL CHOSEONG PIEUP-HIEUH:\u{A974}\n\
HANGUL CHOSEONG SSANGSIOS-PIEUP:\u{A975}\n\
HANGUL CHOSEONG IEUNG-RIEUL:\u{A976}\n\
HANGUL CHOSEONG IEUNG-HIEUH:\u{A977}\n\
HANGUL CHOSEONG SSANGCIEUC-HIEUH:\u{A978}\n\
HANGUL CHOSEONG SSANGTHIEUTH:\u{A979}\n\
HANGUL CHOSEONG PHIEUPH-HIEUH:\u{A97A}\n\
HANGUL CHOSEONG HIEUH-SIOS:\u{A97B}\n\
HANGUL CHOSEONG SSANGYEORINHIEUH:\u{A97C}\n\
JAVANESE SIGN PANYANGGA:\u{A980}\n\
JAVANESE SIGN CECAK:\u{A981}\n\
JAVANESE SIGN LAYAR:\u{A982}\n\
JAVANESE SIGN WIGNYAN:\u{A983}\n\
JAVANESE LETTER A:\u{A984}\n\
JAVANESE LETTER I KAWI:\u{A985}\n\
JAVANESE LETTER I:\u{A986}\n\
JAVANESE LETTER II:\u{A987}\n\
JAVANESE LETTER U:\u{A988}\n\
JAVANESE LETTER PA CEREK:\u{A989}\n\
JAVANESE LETTER NGA LELET:\u{A98A}\n\
JAVANESE LETTER NGA LELET RASWADI:\u{A98B}\n\
JAVANESE LETTER E:\u{A98C}\n\
JAVANESE LETTER AI:\u{A98D}\n\
JAVANESE LETTER O:\u{A98E}\n\
JAVANESE LETTER KA:\u{A98F}\n\
JAVANESE LETTER KA SASAK:\u{A990}\n\
JAVANESE LETTER KA MURDA:\u{A991}\n\
JAVANESE LETTER GA:\u{A992}\n\
JAVANESE LETTER GA MURDA:\u{A993}\n\
JAVANESE LETTER NGA:\u{A994}\n\
JAVANESE LETTER CA:\u{A995}\n\
JAVANESE LETTER CA MURDA:\u{A996}\n\
JAVANESE LETTER JA:\u{A997}\n\
JAVANESE LETTER NYA MURDA:\u{A998}\n\
JAVANESE LETTER JA MAHAPRANA:\u{A999}\n\
JAVANESE LETTER NYA:\u{A99A}\n\
JAVANESE LETTER TTA:\u{A99B}\n\
JAVANESE LETTER TTA MAHAPRANA:\u{A99C}\n\
JAVANESE LETTER DDA:\u{A99D}\n\
JAVANESE LETTER DDA MAHAPRANA:\u{A99E}\n\
JAVANESE LETTER NA MURDA:\u{A99F}\n\
JAVANESE LETTER TA:\u{A9A0}\n\
JAVANESE LETTER TA MURDA:\u{A9A1}\n\
JAVANESE LETTER DA:\u{A9A2}\n\
JAVANESE LETTER DA MAHAPRANA:\u{A9A3}\n\
JAVANESE LETTER NA:\u{A9A4}\n\
JAVANESE LETTER PA:\u{A9A5}\n\
JAVANESE LETTER PA MURDA:\u{A9A6}\n\
JAVANESE LETTER BA:\u{A9A7}\n\
JAVANESE LETTER BA MURDA:\u{A9A8}\n\
JAVANESE LETTER MA:\u{A9A9}\n\
JAVANESE LETTER YA:\u{A9AA}\n\
JAVANESE LETTER RA:\u{A9AB}\n\
JAVANESE LETTER RA AGUNG:\u{A9AC}\n\
JAVANESE LETTER LA:\u{A9AD}\n\
JAVANESE LETTER WA:\u{A9AE}\n\
JAVANESE LETTER SA MURDA:\u{A9AF}\n\
JAVANESE LETTER SA MAHAPRANA:\u{A9B0}\n\
JAVANESE LETTER SA:\u{A9B1}\n\
JAVANESE LETTER HA:\u{A9B2}\n\
JAVANESE SIGN CECAK TELU:\u{A9B3}\n\
JAVANESE VOWEL SIGN TARUNG:\u{A9B4}\n\
JAVANESE VOWEL SIGN TOLONG:\u{A9B5}\n\
JAVANESE VOWEL SIGN WULU:\u{A9B6}\n\
JAVANESE VOWEL SIGN WULU MELIK:\u{A9B7}\n\
JAVANESE VOWEL SIGN SUKU:\u{A9B8}\n\
JAVANESE VOWEL SIGN SUKU MENDUT:\u{A9B9}\n\
JAVANESE VOWEL SIGN TALING:\u{A9BA}\n\
JAVANESE VOWEL SIGN DIRGA MURE:\u{A9BB}\n\
JAVANESE VOWEL SIGN PEPET:\u{A9BC}\n\
JAVANESE CONSONANT SIGN KERET:\u{A9BD}\n\
JAVANESE CONSONANT SIGN PENGKAL:\u{A9BE}\n\
JAVANESE CONSONANT SIGN CAKRA:\u{A9BF}\n\
JAVANESE PANGKON:\u{A9C0}\n\
JAVANESE LEFT RERENGGAN:\u{A9C1}\n\
JAVANESE RIGHT RERENGGAN:\u{A9C2}\n\
JAVANESE PADA ANDAP:\u{A9C3}\n\
JAVANESE PADA MADYA:\u{A9C4}\n\
JAVANESE PADA LUHUR:\u{A9C5}\n\
JAVANESE PADA WINDU:\u{A9C6}\n\
JAVANESE PADA PANGKAT:\u{A9C7}\n\
JAVANESE PADA LINGSA:\u{A9C8}\n\
JAVANESE PADA LUNGSI:\u{A9C9}\n\
JAVANESE PADA ADEG:\u{A9CA}\n\
JAVANESE PADA ADEG ADEG:\u{A9CB}\n\
JAVANESE PADA PISELEH:\u{A9CC}\n\
JAVANESE TURNED PADA PISELEH:\u{A9CD}\n\
JAVANESE PANGRANGKEP:\u{A9CF}\n\
JAVANESE DIGIT ZERO:\u{A9D0}\n\
JAVANESE DIGIT ONE:\u{A9D1}\n\
JAVANESE DIGIT TWO:\u{A9D2}\n\
JAVANESE DIGIT THREE:\u{A9D3}\n\
JAVANESE DIGIT FOUR:\u{A9D4}\n\
JAVANESE DIGIT FIVE:\u{A9D5}\n\
JAVANESE DIGIT SIX:\u{A9D6}\n\
JAVANESE DIGIT SEVEN:\u{A9D7}\n\
JAVANESE DIGIT EIGHT:\u{A9D8}\n\
JAVANESE DIGIT NINE:\u{A9D9}\n\
JAVANESE PADA TIRTA TUMETES:\u{A9DE}\n\
JAVANESE PADA ISEN-ISEN:\u{A9DF}\n\
MYANMAR LETTER SHAN GHA:\u{A9E0}\n\
MYANMAR LETTER SHAN CHA:\u{A9E1}\n\
MYANMAR LETTER SHAN JHA:\u{A9E2}\n\
MYANMAR LETTER SHAN NNA:\u{A9E3}\n\
MYANMAR LETTER SHAN BHA:\u{A9E4}\n\
MYANMAR SIGN SHAN SAW:\u{A9E5}\n\
MYANMAR MODIFIER LETTER SHAN REDUPLICATION:\u{A9E6}\n\
MYANMAR LETTER TAI LAING NYA:\u{A9E7}\n\
MYANMAR LETTER TAI LAING FA:\u{A9E8}\n\
MYANMAR LETTER TAI LAING GA:\u{A9E9}\n\
MYANMAR LETTER TAI LAING GHA:\u{A9EA}\n\
MYANMAR LETTER TAI LAING JA:\u{A9EB}\n\
MYANMAR LETTER TAI LAING JHA:\u{A9EC}\n\
MYANMAR LETTER TAI LAING DDA:\u{A9ED}\n\
MYANMAR LETTER TAI LAING DDHA:\u{A9EE}\n\
MYANMAR LETTER TAI LAING NNA:\u{A9EF}\n\
MYANMAR TAI LAING DIGIT ZERO:\u{A9F0}\n\
MYANMAR TAI LAING DIGIT ONE:\u{A9F1}\n\
MYANMAR TAI LAING DIGIT TWO:\u{A9F2}\n\
MYANMAR TAI LAING DIGIT THREE:\u{A9F3}\n\
MYANMAR TAI LAING DIGIT FOUR:\u{A9F4}\n\
MYANMAR TAI LAING DIGIT FIVE:\u{A9F5}\n\
MYANMAR TAI LAING DIGIT SIX:\u{A9F6}\n\
MYANMAR TAI LAING DIGIT SEVEN:\u{A9F7}\n\
MYANMAR TAI LAING DIGIT EIGHT:\u{A9F8}\n\
MYANMAR TAI LAING DIGIT NINE:\u{A9F9}\n\
MYANMAR LETTER TAI LAING LLA:\u{A9FA}\n\
MYANMAR LETTER TAI LAING DA:\u{A9FB}\n\
MYANMAR LETTER TAI LAING DHA:\u{A9FC}\n\
MYANMAR LETTER TAI LAING BA:\u{A9FD}\n\
MYANMAR LETTER TAI LAING BHA:\u{A9FE}\n\
CHAM LETTER A:\u{AA00}\n\
CHAM LETTER I:\u{AA01}\n\
CHAM LETTER U:\u{AA02}\n\
CHAM LETTER E:\u{AA03}\n\
CHAM LETTER AI:\u{AA04}\n\
CHAM LETTER O:\u{AA05}\n\
CHAM LETTER KA:\u{AA06}\n\
CHAM LETTER KHA:\u{AA07}\n\
CHAM LETTER GA:\u{AA08}\n\
CHAM LETTER GHA:\u{AA09}\n\
CHAM LETTER NGUE:\u{AA0A}\n\
CHAM LETTER NGA:\u{AA0B}\n\
CHAM LETTER CHA:\u{AA0C}\n\
CHAM LETTER CHHA:\u{AA0D}\n\
CHAM LETTER JA:\u{AA0E}\n\
CHAM LETTER JHA:\u{AA0F}\n\
CHAM LETTER NHUE:\u{AA10}\n\
CHAM LETTER NHA:\u{AA11}\n\
CHAM LETTER NHJA:\u{AA12}\n\
CHAM LETTER TA:\u{AA13}\n\
CHAM LETTER THA:\u{AA14}\n\
CHAM LETTER DA:\u{AA15}\n\
CHAM LETTER DHA:\u{AA16}\n\
CHAM LETTER NUE:\u{AA17}\n\
CHAM LETTER NA:\u{AA18}\n\
CHAM LETTER DDA:\u{AA19}\n\
CHAM LETTER PA:\u{AA1A}\n\
CHAM LETTER PPA:\u{AA1B}\n\
CHAM LETTER PHA:\u{AA1C}\n\
CHAM LETTER BA:\u{AA1D}\n\
CHAM LETTER BHA:\u{AA1E}\n\
CHAM LETTER MUE:\u{AA1F}\n\
CHAM LETTER MA:\u{AA20}\n\
CHAM LETTER BBA:\u{AA21}\n\
CHAM LETTER YA:\u{AA22}\n\
CHAM LETTER RA:\u{AA23}\n\
CHAM LETTER LA:\u{AA24}\n\
CHAM LETTER VA:\u{AA25}\n\
CHAM LETTER SSA:\u{AA26}\n\
CHAM LETTER SA:\u{AA27}\n\
CHAM LETTER HA:\u{AA28}\n\
CHAM VOWEL SIGN AA:\u{AA29}\n\
CHAM VOWEL SIGN I:\u{AA2A}\n\
CHAM VOWEL SIGN II:\u{AA2B}\n\
CHAM VOWEL SIGN EI:\u{AA2C}\n\
CHAM VOWEL SIGN U:\u{AA2D}\n\
CHAM VOWEL SIGN OE:\u{AA2E}\n\
CHAM VOWEL SIGN O:\u{AA2F}\n\
CHAM VOWEL SIGN AI:\u{AA30}\n\
CHAM VOWEL SIGN AU:\u{AA31}\n\
CHAM VOWEL SIGN UE:\u{AA32}\n\
CHAM CONSONANT SIGN YA:\u{AA33}\n\
CHAM CONSONANT SIGN RA:\u{AA34}\n\
CHAM CONSONANT SIGN LA:\u{AA35}\n\
CHAM CONSONANT SIGN WA:\u{AA36}\n\
CHAM LETTER FINAL K:\u{AA40}\n\
CHAM LETTER FINAL G:\u{AA41}\n\
CHAM LETTER FINAL NG:\u{AA42}\n\
CHAM CONSONANT SIGN FINAL NG:\u{AA43}\n\
CHAM LETTER FINAL CH:\u{AA44}\n\
CHAM LETTER FINAL T:\u{AA45}\n\
CHAM LETTER FINAL N:\u{AA46}\n\
CHAM LETTER FINAL P:\u{AA47}\n\
CHAM LETTER FINAL Y:\u{AA48}\n\
CHAM LETTER FINAL R:\u{AA49}\n\
CHAM LETTER FINAL L:\u{AA4A}\n\
CHAM LETTER FINAL SS:\u{AA4B}\n\
CHAM CONSONANT SIGN FINAL M:\u{AA4C}\n\
CHAM CONSONANT SIGN FINAL H:\u{AA4D}\n\
CHAM DIGIT ZERO:\u{AA50}\n\
CHAM DIGIT ONE:\u{AA51}\n\
CHAM DIGIT TWO:\u{AA52}\n\
CHAM DIGIT THREE:\u{AA53}\n\
CHAM DIGIT FOUR:\u{AA54}\n\
CHAM DIGIT FIVE:\u{AA55}\n\
CHAM DIGIT SIX:\u{AA56}\n\
CHAM DIGIT SEVEN:\u{AA57}\n\
CHAM DIGIT EIGHT:\u{AA58}\n\
CHAM DIGIT NINE:\u{AA59}\n\
CHAM PUNCTUATION SPIRAL:\u{AA5C}\n\
CHAM PUNCTUATION DANDA:\u{AA5D}\n\
CHAM PUNCTUATION DOUBLE DANDA:\u{AA5E}\n\
CHAM PUNCTUATION TRIPLE DANDA:\u{AA5F}\n\
MYANMAR LETTER KHAMTI GA:\u{AA60}\n\
MYANMAR LETTER KHAMTI CA:\u{AA61}\n\
MYANMAR LETTER KHAMTI CHA:\u{AA62}\n\
MYANMAR LETTER KHAMTI JA:\u{AA63}\n\
MYANMAR LETTER KHAMTI JHA:\u{AA64}\n\
MYANMAR LETTER KHAMTI NYA:\u{AA65}\n\
MYANMAR LETTER KHAMTI TTA:\u{AA66}\n\
MYANMAR LETTER KHAMTI TTHA:\u{AA67}\n\
MYANMAR LETTER KHAMTI DDA:\u{AA68}\n\
MYANMAR LETTER KHAMTI DDHA:\u{AA69}\n\
MYANMAR LETTER KHAMTI DHA:\u{AA6A}\n\
MYANMAR LETTER KHAMTI NA:\u{AA6B}\n\
MYANMAR LETTER KHAMTI SA:\u{AA6C}\n\
MYANMAR LETTER KHAMTI HA:\u{AA6D}\n\
MYANMAR LETTER KHAMTI HHA:\u{AA6E}\n\
MYANMAR LETTER KHAMTI FA:\u{AA6F}\n\
MYANMAR MODIFIER LETTER KHAMTI REDUPLICATION:\u{AA70}\n\
MYANMAR LETTER KHAMTI XA:\u{AA71}\n\
MYANMAR LETTER KHAMTI ZA:\u{AA72}\n\
MYANMAR LETTER KHAMTI RA:\u{AA73}\n\
MYANMAR LOGOGRAM KHAMTI OAY:\u{AA74}\n\
MYANMAR LOGOGRAM KHAMTI QN:\u{AA75}\n\
MYANMAR LOGOGRAM KHAMTI HM:\u{AA76}\n\
MYANMAR SYMBOL AITON EXCLAMATION:\u{AA77}\n\
MYANMAR SYMBOL AITON ONE:\u{AA78}\n\
MYANMAR SYMBOL AITON TWO:\u{AA79}\n\
MYANMAR LETTER AITON RA:\u{AA7A}\n\
MYANMAR SIGN PAO KAREN TONE:\u{AA7B}\n\
MYANMAR SIGN TAI LAING TONE-2:\u{AA7C}\n\
MYANMAR SIGN TAI LAING TONE-5:\u{AA7D}\n\
MYANMAR LETTER SHWE PALAUNG CHA:\u{AA7E}\n\
MYANMAR LETTER SHWE PALAUNG SHA:\u{AA7F}\n\
TAI VIET LETTER LOW KO:\u{AA80}\n\
TAI VIET LETTER HIGH KO:\u{AA81}\n\
TAI VIET LETTER LOW KHO:\u{AA82}\n\
TAI VIET LETTER HIGH KHO:\u{AA83}\n\
TAI VIET LETTER LOW KHHO:\u{AA84}\n\
TAI VIET LETTER HIGH KHHO:\u{AA85}\n\
TAI VIET LETTER LOW GO:\u{AA86}\n\
TAI VIET LETTER HIGH GO:\u{AA87}\n\
TAI VIET LETTER LOW NGO:\u{AA88}\n\
TAI VIET LETTER HIGH NGO:\u{AA89}\n\
TAI VIET LETTER LOW CO:\u{AA8A}\n\
TAI VIET LETTER HIGH CO:\u{AA8B}\n\
TAI VIET LETTER LOW CHO:\u{AA8C}\n\
TAI VIET LETTER HIGH CHO:\u{AA8D}\n\
TAI VIET LETTER LOW SO:\u{AA8E}\n\
TAI VIET LETTER HIGH SO:\u{AA8F}\n\
TAI VIET LETTER LOW NYO:\u{AA90}\n\
TAI VIET LETTER HIGH NYO:\u{AA91}\n\
TAI VIET LETTER LOW DO:\u{AA92}\n\
TAI VIET LETTER HIGH DO:\u{AA93}\n\
TAI VIET LETTER LOW TO:\u{AA94}\n\
TAI VIET LETTER HIGH TO:\u{AA95}\n\
TAI VIET LETTER LOW THO:\u{AA96}\n\
TAI VIET LETTER HIGH THO:\u{AA97}\n\
TAI VIET LETTER LOW NO:\u{AA98}\n\
TAI VIET LETTER HIGH NO:\u{AA99}\n\
TAI VIET LETTER LOW BO:\u{AA9A}\n\
TAI VIET LETTER HIGH BO:\u{AA9B}\n\
TAI VIET LETTER LOW PO:\u{AA9C}\n\
TAI VIET LETTER HIGH PO:\u{AA9D}\n\
TAI VIET LETTER LOW PHO:\u{AA9E}\n\
TAI VIET LETTER HIGH PHO:\u{AA9F}\n\
TAI VIET LETTER LOW FO:\u{AAA0}\n\
TAI VIET LETTER HIGH FO:\u{AAA1}\n\
TAI VIET LETTER LOW MO:\u{AAA2}\n\
TAI VIET LETTER HIGH MO:\u{AAA3}\n\
TAI VIET LETTER LOW YO:\u{AAA4}\n\
TAI VIET LETTER HIGH YO:\u{AAA5}\n\
TAI VIET LETTER LOW RO:\u{AAA6}\n\
TAI VIET LETTER HIGH RO:\u{AAA7}\n\
TAI VIET LETTER LOW LO:\u{AAA8}\n\
TAI VIET LETTER HIGH LO:\u{AAA9}\n\
TAI VIET LETTER LOW VO:\u{AAAA}\n\
TAI VIET LETTER HIGH VO:\u{AAAB}\n\
TAI VIET LETTER LOW HO:\u{AAAC}\n\
TAI VIET LETTER HIGH HO:\u{AAAD}\n\
TAI VIET LETTER LOW O:\u{AAAE}\n\
TAI VIET LETTER HIGH O:\u{AAAF}\n\
TAI VIET MAI KANG:\u{AAB0}\n\
TAI VIET VOWEL AA:\u{AAB1}\n\
TAI VIET VOWEL I:\u{AAB2}\n\
TAI VIET VOWEL UE:\u{AAB3}\n\
TAI VIET VOWEL U:\u{AAB4}\n\
TAI VIET VOWEL E:\u{AAB5}\n\
TAI VIET VOWEL O:\u{AAB6}\n\
TAI VIET MAI KHIT:\u{AAB7}\n\
TAI VIET VOWEL IA:\u{AAB8}\n\
TAI VIET VOWEL UEA:\u{AAB9}\n\
TAI VIET VOWEL UA:\u{AABA}\n\
TAI VIET VOWEL AUE:\u{AABB}\n\
TAI VIET VOWEL AY:\u{AABC}\n\
TAI VIET VOWEL AN:\u{AABD}\n\
TAI VIET VOWEL AM:\u{AABE}\n\
TAI VIET TONE MAI EK:\u{AABF}\n\
TAI VIET TONE MAI NUENG:\u{AAC0}\n\
TAI VIET TONE MAI THO:\u{AAC1}\n\
TAI VIET TONE MAI SONG:\u{AAC2}\n\
TAI VIET SYMBOL KON:\u{AADB}\n\
TAI VIET SYMBOL NUENG:\u{AADC}\n\
TAI VIET SYMBOL SAM:\u{AADD}\n\
TAI VIET SYMBOL HO HOI:\u{AADE}\n\
TAI VIET SYMBOL KOI KOI:\u{AADF}\n";

pub const NAMES_37: &'static str = "MEETEI MAYEK LETTER E:\u{AAE0}\n\
MEETEI MAYEK LETTER O:\u{AAE1}\n\
MEETEI MAYEK LETTER CHA:\u{AAE2}\n\
MEETEI MAYEK LETTER NYA:\u{AAE3}\n\
MEETEI MAYEK LETTER TTA:\u{AAE4}\n\
MEETEI MAYEK LETTER TTHA:\u{AAE5}\n\
MEETEI MAYEK LETTER DDA:\u{AAE6}\n\
MEETEI MAYEK LETTER DDHA:\u{AAE7}\n\
MEETEI MAYEK LETTER NNA:\u{AAE8}\n\
MEETEI MAYEK LETTER SHA:\u{AAE9}\n\
MEETEI MAYEK LETTER SSA:\u{AAEA}\n\
MEETEI MAYEK VOWEL SIGN II:\u{AAEB}\n\
MEETEI MAYEK VOWEL SIGN UU:\u{AAEC}\n\
MEETEI MAYEK VOWEL SIGN AAI:\u{AAED}\n\
MEETEI MAYEK VOWEL SIGN AU:\u{AAEE}\n\
MEETEI MAYEK VOWEL SIGN AAU:\u{AAEF}\n\
MEETEI MAYEK CHEIKHAN:\u{AAF0}\n\
MEETEI MAYEK AHANG KHUDAM:\u{AAF1}\n\
MEETEI MAYEK ANJI:\u{AAF2}\n\
MEETEI MAYEK SYLLABLE REPETITION MARK:\u{AAF3}\n\
MEETEI MAYEK WORD REPETITION MARK:\u{AAF4}\n\
MEETEI MAYEK VOWEL SIGN VISARGA:\u{AAF5}\n\
MEETEI MAYEK VIRAMA:\u{AAF6}\n\
ETHIOPIC SYLLABLE TTHU:\u{AB01}\n\
ETHIOPIC SYLLABLE TTHI:\u{AB02}\n\
ETHIOPIC SYLLABLE TTHAA:\u{AB03}\n\
ETHIOPIC SYLLABLE TTHEE:\u{AB04}\n\
ETHIOPIC SYLLABLE TTHE:\u{AB05}\n\
ETHIOPIC SYLLABLE TTHO:\u{AB06}\n\
ETHIOPIC SYLLABLE DDHU:\u{AB09}\n\
ETHIOPIC SYLLABLE DDHI:\u{AB0A}\n\
ETHIOPIC SYLLABLE DDHAA:\u{AB0B}\n\
ETHIOPIC SYLLABLE DDHEE:\u{AB0C}\n\
ETHIOPIC SYLLABLE DDHE:\u{AB0D}\n\
ETHIOPIC SYLLABLE DDHO:\u{AB0E}\n\
ETHIOPIC SYLLABLE DZU:\u{AB11}\n\
ETHIOPIC SYLLABLE DZI:\u{AB12}\n\
ETHIOPIC SYLLABLE DZAA:\u{AB13}\n\
ETHIOPIC SYLLABLE DZEE:\u{AB14}\n\
ETHIOPIC SYLLABLE DZE:\u{AB15}\n\
ETHIOPIC SYLLABLE DZO:\u{AB16}\n\
ETHIOPIC SYLLABLE CCHHA:\u{AB20}\n\
ETHIOPIC SYLLABLE CCHHU:\u{AB21}\n\
ETHIOPIC SYLLABLE CCHHI:\u{AB22}\n\
ETHIOPIC SYLLABLE CCHHAA:\u{AB23}\n\
ETHIOPIC SYLLABLE CCHHEE:\u{AB24}\n\
ETHIOPIC SYLLABLE CCHHE:\u{AB25}\n\
ETHIOPIC SYLLABLE CCHHO:\u{AB26}\n\
ETHIOPIC SYLLABLE BBA:\u{AB28}\n\
ETHIOPIC SYLLABLE BBU:\u{AB29}\n\
ETHIOPIC SYLLABLE BBI:\u{AB2A}\n\
ETHIOPIC SYLLABLE BBAA:\u{AB2B}\n\
ETHIOPIC SYLLABLE BBEE:\u{AB2C}\n\
ETHIOPIC SYLLABLE BBE:\u{AB2D}\n\
ETHIOPIC SYLLABLE BBO:\u{AB2E}\n\
LATIN SMALL LETTER BARRED ALPHA:\u{AB30}\n\
LATIN SMALL LETTER A REVERSED-SCHWA:\u{AB31}\n\
LATIN SMALL LETTER BLACKLETTER E:\u{AB32}\n\
LATIN SMALL LETTER BARRED E:\u{AB33}\n\
LATIN SMALL LETTER E WITH FLOURISH:\u{AB34}\n\
LATIN SMALL LETTER LENIS F:\u{AB35}\n\
LATIN SMALL LETTER SCRIPT G WITH CROSSED-TAIL:\u{AB36}\n\
LATIN SMALL LETTER L WITH INVERTED LAZY S:\u{AB37}\n\
LATIN SMALL LETTER L WITH DOUBLE MIDDLE TILDE:\u{AB38}\n\
LATIN SMALL LETTER L WITH MIDDLE RING:\u{AB39}\n\
LATIN SMALL LETTER M WITH CROSSED-TAIL:\u{AB3A}\n\
LATIN SMALL LETTER N WITH CROSSED-TAIL:\u{AB3B}\n\
LATIN SMALL LETTER ENG WITH CROSSED-TAIL:\u{AB3C}\n\
LATIN SMALL LETTER BLACKLETTER O:\u{AB3D}\n\
LATIN SMALL LETTER BLACKLETTER O WITH STROKE:\u{AB3E}\n\
LATIN SMALL LETTER OPEN O WITH STROKE:\u{AB3F}\n\
LATIN SMALL LETTER INVERTED OE:\u{AB40}\n\
LATIN SMALL LETTER TURNED OE WITH STROKE:\u{AB41}\n\
LATIN SMALL LETTER TURNED OE WITH HORIZONTAL STROKE:\u{AB42}\n\
LATIN SMALL LETTER TURNED O OPEN-O:\u{AB43}\n\
LATIN SMALL LETTER TURNED O OPEN-O WITH STROKE:\u{AB44}\n\
LATIN SMALL LETTER STIRRUP R:\u{AB45}\n\
LATIN LETTER SMALL CAPITAL R WITH RIGHT LEG:\u{AB46}\n\
LATIN SMALL LETTER R WITHOUT HANDLE:\u{AB47}\n\
LATIN SMALL LETTER DOUBLE R:\u{AB48}\n\
LATIN SMALL LETTER R WITH CROSSED-TAIL:\u{AB49}\n\
LATIN SMALL LETTER DOUBLE R WITH CROSSED-TAIL:\u{AB4A}\n\
LATIN SMALL LETTER SCRIPT R:\u{AB4B}\n\
LATIN SMALL LETTER SCRIPT R WITH RING:\u{AB4C}\n\
LATIN SMALL LETTER BASELINE ESH:\u{AB4D}\n\
LATIN SMALL LETTER U WITH SHORT RIGHT LEG:\u{AB4E}\n\
LATIN SMALL LETTER U BAR WITH SHORT RIGHT LEG:\u{AB4F}\n\
LATIN SMALL LETTER UI:\u{AB50}\n\
LATIN SMALL LETTER TURNED UI:\u{AB51}\n\
LATIN SMALL LETTER U WITH LEFT HOOK:\u{AB52}\n\
LATIN SMALL LETTER CHI:\u{AB53}\n\
LATIN SMALL LETTER CHI WITH LOW RIGHT RING:\u{AB54}\n\
LATIN SMALL LETTER CHI WITH LOW LEFT SERIF:\u{AB55}\n\
LATIN SMALL LETTER X WITH LOW RIGHT RING:\u{AB56}\n\
LATIN SMALL LETTER X WITH LONG LEFT LEG:\u{AB57}\n\
LATIN SMALL LETTER X WITH LONG LEFT LEG AND LOW RIGHT RING:\u{AB58}\n\
LATIN SMALL LETTER X WITH LONG LEFT LEG WITH SERIF:\u{AB59}\n\
LATIN SMALL LETTER Y WITH SHORT RIGHT LEG:\u{AB5A}\n\
MODIFIER BREVE WITH INVERTED BREVE:\u{AB5B}\n\
MODIFIER LETTER SMALL HENG:\u{AB5C}\n\
MODIFIER LETTER SMALL L WITH INVERTED LAZY S:\u{AB5D}\n\
MODIFIER LETTER SMALL L WITH MIDDLE TILDE:\u{AB5E}\n\
MODIFIER LETTER SMALL U WITH LEFT HOOK:\u{AB5F}\n\
LATIN SMALL LETTER SAKHA YAT:\u{AB60}\n\
LATIN SMALL LETTER IOTIFIED E:\u{AB61}\n\
LATIN SMALL LETTER OPEN OE:\u{AB62}\n\
LATIN SMALL LETTER UO:\u{AB63}\n\
LATIN SMALL LETTER INVERTED ALPHA:\u{AB64}\n\
GREEK LETTER SMALL CAPITAL OMEGA:\u{AB65}\n\
LATIN SMALL LETTER DZ DIGRAPH WITH RETROFLEX HOOK:\u{AB66}\n\
LATIN SMALL LETTER TS DIGRAPH WITH RETROFLEX HOOK:\u{AB67}\n\
LATIN SMALL LETTER TURNED R WITH MIDDLE TILDE:\u{AB68}\n\
MODIFIER LETTER SMALL TURNED W:\u{AB69}\n\
MODIFIER LETTER LEFT TACK:\u{AB6A}\n\
MODIFIER LETTER RIGHT TACK:\u{AB6B}\n\
CHEROKEE SMALL LETTER A:\u{AB70}\n\
CHEROKEE SMALL LETTER E:\u{AB71}\n\
CHEROKEE SMALL LETTER I:\u{AB72}\n\
CHEROKEE SMALL LETTER O:\u{AB73}\n\
CHEROKEE SMALL LETTER U:\u{AB74}\n\
CHEROKEE SMALL LETTER V:\u{AB75}\n\
CHEROKEE SMALL LETTER GA:\u{AB76}\n\
CHEROKEE SMALL LETTER KA:\u{AB77}\n\
CHEROKEE SMALL LETTER GE:\u{AB78}\n\
CHEROKEE SMALL LETTER GI:\u{AB79}\n\
CHEROKEE SMALL LETTER GO:\u{AB7A}\n\
CHEROKEE SMALL LETTER GU:\u{AB7B}\n\
CHEROKEE SMALL LETTER GV:\u{AB7C}\n\
CHEROKEE SMALL LETTER HA:\u{AB7D}\n\
CHEROKEE SMALL LETTER HE:\u{AB7E}\n\
CHEROKEE SMALL LETTER HI:\u{AB7F}\n\
CHEROKEE SMALL LETTER HO:\u{AB80}\n\
CHEROKEE SMALL LETTER HU:\u{AB81}\n\
CHEROKEE SMALL LETTER HV:\u{AB82}\n\
CHEROKEE SMALL LETTER LA:\u{AB83}\n\
CHEROKEE SMALL LETTER LE:\u{AB84}\n\
CHEROKEE SMALL LETTER LI:\u{AB85}\n\
CHEROKEE SMALL LETTER LO:\u{AB86}\n\
CHEROKEE SMALL LETTER LU:\u{AB87}\n\
CHEROKEE SMALL LETTER LV:\u{AB88}\n\
CHEROKEE SMALL LETTER MA:\u{AB89}\n\
CHEROKEE SMALL LETTER ME:\u{AB8A}\n\
CHEROKEE SMALL LETTER MI:\u{AB8B}\n\
CHEROKEE SMALL LETTER MO:\u{AB8C}\n\
CHEROKEE SMALL LETTER MU:\u{AB8D}\n\
CHEROKEE SMALL LETTER NA:\u{AB8E}\n\
CHEROKEE SMALL LETTER HNA:\u{AB8F}\n\
CHEROKEE SMALL LETTER NAH:\u{AB90}\n\
CHEROKEE SMALL LETTER NE:\u{AB91}\n\
CHEROKEE SMALL LETTER NI:\u{AB92}\n\
CHEROKEE SMALL LETTER NO:\u{AB93}\n\
CHEROKEE SMALL LETTER NU:\u{AB94}\n\
CHEROKEE SMALL LETTER NV:\u{AB95}\n\
CHEROKEE SMALL LETTER QUA:\u{AB96}\n\
CHEROKEE SMALL LETTER QUE:\u{AB97}\n\
CHEROKEE SMALL LETTER QUI:\u{AB98}\n\
CHEROKEE SMALL LETTER QUO:\u{AB99}\n\
CHEROKEE SMALL LETTER QUU:\u{AB9A}\n\
CHEROKEE SMALL LETTER QUV:\u{AB9B}\n\
CHEROKEE SMALL LETTER SA:\u{AB9C}\n\
CHEROKEE SMALL LETTER S:\u{AB9D}\n\
CHEROKEE SMALL LETTER SE:\u{AB9E}\n\
CHEROKEE SMALL LETTER SI:\u{AB9F}\n\
CHEROKEE SMALL LETTER SO:\u{ABA0}\n\
CHEROKEE SMALL LETTER SU:\u{ABA1}\n\
CHEROKEE SMALL LETTER SV:\u{ABA2}\n\
CHEROKEE SMALL LETTER DA:\u{ABA3}\n\
CHEROKEE SMALL LETTER TA:\u{ABA4}\n\
CHEROKEE SMALL LETTER DE:\u{ABA5}\n\
CHEROKEE SMALL LETTER TE:\u{ABA6}\n\
CHEROKEE SMALL LETTER DI:\u{ABA7}\n\
CHEROKEE SMALL LETTER TI:\u{ABA8}\n\
CHEROKEE SMALL LETTER DO:\u{ABA9}\n\
CHEROKEE SMALL LETTER DU:\u{ABAA}\n\
CHEROKEE SMALL LETTER DV:\u{ABAB}\n\
CHEROKEE SMALL LETTER DLA:\u{ABAC}\n\
CHEROKEE SMALL LETTER TLA:\u{ABAD}\n\
CHEROKEE SMALL LETTER TLE:\u{ABAE}\n\
CHEROKEE SMALL LETTER TLI:\u{ABAF}\n\
CHEROKEE SMALL LETTER TLO:\u{ABB0}\n\
CHEROKEE SMALL LETTER TLU:\u{ABB1}\n\
CHEROKEE SMALL LETTER TLV:\u{ABB2}\n\
CHEROKEE SMALL LETTER TSA:\u{ABB3}\n\
CHEROKEE SMALL LETTER TSE:\u{ABB4}\n\
CHEROKEE SMALL LETTER TSI:\u{ABB5}\n\
CHEROKEE SMALL LETTER TSO:\u{ABB6}\n\
CHEROKEE SMALL LETTER TSU:\u{ABB7}\n\
CHEROKEE SMALL LETTER TSV:\u{ABB8}\n\
CHEROKEE SMALL LETTER WA:\u{ABB9}\n\
CHEROKEE SMALL LETTER WE:\u{ABBA}\n\
CHEROKEE SMALL LETTER WI:\u{ABBB}\n\
CHEROKEE SMALL LETTER WO:\u{ABBC}\n\
CHEROKEE SMALL LETTER WU:\u{ABBD}\n\
CHEROKEE SMALL LETTER WV:\u{ABBE}\n\
CHEROKEE SMALL LETTER YA:\u{ABBF}\n\
MEETEI MAYEK LETTER KOK:\u{ABC0}\n\
MEETEI MAYEK LETTER SAM:\u{ABC1}\n\
MEETEI MAYEK LETTER LAI:\u{ABC2}\n\
MEETEI MAYEK LETTER MIT:\u{ABC3}\n\
MEETEI MAYEK LETTER PA:\u{ABC4}\n\
MEETEI MAYEK LETTER NA:\u{ABC5}\n\
MEETEI MAYEK LETTER CHIL:\u{ABC6}\n\
MEETEI MAYEK LETTER TIL:\u{ABC7}\n\
MEETEI MAYEK LETTER KHOU:\u{ABC8}\n\
MEETEI MAYEK LETTER NGOU:\u{ABC9}\n\
MEETEI MAYEK LETTER THOU:\u{ABCA}\n\
MEETEI MAYEK LETTER WAI:\u{ABCB}\n\
MEETEI MAYEK LETTER YANG:\u{ABCC}\n\
MEETEI MAYEK LETTER HUK:\u{ABCD}\n\
MEETEI MAYEK LETTER UN:\u{ABCE}\n\
MEETEI MAYEK LETTER I:\u{ABCF}\n\
MEETEI MAYEK LETTER PHAM:\u{ABD0}\n\
MEETEI MAYEK LETTER ATIYA:\u{ABD1}\n\
MEETEI MAYEK LETTER GOK:\u{ABD2}\n\
MEETEI MAYEK LETTER JHAM:\u{ABD3}\n\
MEETEI MAYEK LETTER RAI:\u{ABD4}\n\
MEETEI MAYEK LETTER BA:\u{ABD5}\n\
MEETEI MAYEK LETTER JIL:\u{ABD6}\n\
MEETEI MAYEK LETTER DIL:\u{ABD7}\n\
MEETEI MAYEK LETTER GHOU:\u{ABD8}\n\
MEETEI MAYEK LETTER DHOU:\u{ABD9}\n\
MEETEI MAYEK LETTER BHAM:\u{ABDA}\n\
MEETEI MAYEK LETTER KOK LONSUM:\u{ABDB}\n\
MEETEI MAYEK LETTER LAI LONSUM:\u{ABDC}\n\
MEETEI MAYEK LETTER MIT LONSUM:\u{ABDD}\n\
MEETEI MAYEK LETTER PA LONSUM:\u{ABDE}\n\
MEETEI MAYEK LETTER NA LONSUM:\u{ABDF}\n\
MEETEI MAYEK LETTER TIL LONSUM:\u{ABE0}\n\
MEETEI MAYEK LETTER NGOU LONSUM:\u{ABE1}\n\
MEETEI MAYEK LETTER I LONSUM:\u{ABE2}\n\
MEETEI MAYEK VOWEL SIGN ONAP:\u{ABE3}\n\
MEETEI MAYEK VOWEL SIGN INAP:\u{ABE4}\n\
MEETEI MAYEK VOWEL SIGN ANAP:\u{ABE5}\n\
MEETEI MAYEK VOWEL SIGN YENAP:\u{ABE6}\n\
MEETEI MAYEK VOWEL SIGN SOUNAP:\u{ABE7}\n\
MEETEI MAYEK VOWEL SIGN UNAP:\u{ABE8}\n\
MEETEI MAYEK VOWEL SIGN CHEINAP:\u{ABE9}\n\
MEETEI MAYEK VOWEL SIGN NUNG:\u{ABEA}\n\
MEETEI MAYEK CHEIKHEI:\u{ABEB}\n\
MEETEI MAYEK LUM IYEK:\u{ABEC}\n\
MEETEI MAYEK APUN IYEK:\u{ABED}\n\
MEETEI MAYEK DIGIT ZERO:\u{ABF0}\n\
MEETEI MAYEK DIGIT ONE:\u{ABF1}\n\
MEETEI MAYEK DIGIT TWO:\u{ABF2}\n\
MEETEI MAYEK DIGIT THREE:\u{ABF3}\n\
MEETEI MAYEK DIGIT FOUR:\u{ABF4}\n\
MEETEI MAYEK DIGIT FIVE:\u{ABF5}\n\
MEETEI MAYEK DIGIT SIX:\u{ABF6}\n\
MEETEI MAYEK DIGIT SEVEN:\u{ABF7}\n\
MEETEI MAYEK DIGIT EIGHT:\u{ABF8}\n\
MEETEI MAYEK DIGIT NINE:\u{ABF9}\n\
HANGUL JUNGSEONG O-YEO:\u{D7B0}\n\
HANGUL JUNGSEONG O-O-I:\u{D7B1}\n\
HANGUL JUNGSEONG YO-A:\u{D7B2}\n\
HANGUL JUNGSEONG YO-AE:\u{D7B3}\n\
HANGUL JUNGSEONG YO-EO:\u{D7B4}\n\
HANGUL JUNGSEONG U-YEO:\u{D7B5}\n\
HANGUL JUNGSEONG U-I-I:\u{D7B6}\n\
HANGUL JUNGSEONG YU-AE:\u{D7B7}\n\
HANGUL JUNGSEONG YU-O:\u{D7B8}\n\
HANGUL JUNGSEONG EU-A:\u{D7B9}\n\
HANGUL JUNGSEONG EU-EO:\u{D7BA}\n\
HANGUL JUNGSEONG EU-E:\u{D7BB}\n\
HANGUL JUNGSEONG EU-O:\u{D7BC}\n\
HANGUL JUNGSEONG I-YA-O:\u{D7BD}\n\
HANGUL JUNGSEONG I-YAE:\u{D7BE}\n\
HANGUL JUNGSEONG I-YEO:\u{D7BF}\n\
HANGUL JUNGSEONG I-YE:\u{D7C0}\n\
HANGUL JUNGSEONG I-O-I:\u{D7C1}\n\
HANGUL JUNGSEONG I-YO:\u{D7C2}\n\
HANGUL JUNGSEONG I-YU:\u{D7C3}\n\
HANGUL JUNGSEONG I-I:\u{D7C4}\n\
HANGUL JUNGSEONG ARAEA-A:\u{D7C5}\n\
HANGUL JUNGSEONG ARAEA-E:\u{D7C6}\n\
HANGUL JONGSEONG NIEUN-RIEUL:\u{D7CB}\n\
HANGUL JONGSEONG NIEUN-CHIEUCH:\u{D7CC}\n\
HANGUL JONGSEONG SSANGTIKEUT:\u{D7CD}\n\
HANGUL JONGSEONG SSANGTIKEUT-PIEUP:\u{D7CE}\n\
HANGUL JONGSEONG TIKEUT-PIEUP:\u{D7CF}\n\
HANGUL JONGSEONG TIKEUT-SIOS:\u{D7D0}\n\
HANGUL JONGSEONG TIKEUT-SIOS-KIYEOK:\u{D7D1}\n\
HANGUL JONGSEONG TIKEUT-CIEUC:\u{D7D2}\n\
HANGUL JONGSEONG TIKEUT-CHIEUCH:\u{D7D3}\n\
HANGUL JONGSEONG TIKEUT-THIEUTH:\u{D7D4}\n\
HANGUL JONGSEONG RIEUL-SSANGKIYEOK:\u{D7D5}\n\
HANGUL JONGSEONG RIEUL-KIYEOK-HIEUH:\u{D7D6}\n\
HANGUL JONGSEONG SSANGRIEUL-KHIEUKH:\u{D7D7}\n\
HANGUL JONGSEONG RIEUL-MIEUM-HIEUH:\u{D7D8}\n\
HANGUL JONGSEONG RIEUL-PIEUP-TIKEUT:\u{D7D9}\n\
HANGUL JONGSEONG RIEUL-PIEUP-PHIEUPH:\u{D7DA}\n\
HANGUL JONGSEONG RIEUL-YESIEUNG:\u{D7DB}\n\
HANGUL JONGSEONG RIEUL-YEORINHIEUH-HIEUH:\u{D7DC}\n\
HANGUL JONGSEONG KAPYEOUNRIEUL:\u{D7DD}\n\
HANGUL JONGSEONG MIEUM-NIEUN:\u{D7DE}\n\
HANGUL JONGSEONG MIEUM-SSANGNIEUN:\u{D7DF}\n\
HANGUL JONGSEONG SSANGMIEUM:\u{D7E0}\n\
HANGUL JONGSEONG MIEUM-PIEUP-SIOS:\u{D7E1}\n\
HANGUL JONGSEONG MIEUM-CIEUC:\u{D7E2}\n\
HANGUL JONGSEONG PIEUP-TIKEUT:\u{D7E3}\n\
HANGUL JONGSEONG PIEUP-RIEUL-PHIEUPH:\u{D7E4}\n\
HANGUL JONGSEONG PIEUP-MIEUM:\u{D7E5}\n\
HANGUL JONGSEONG SSANGPIEUP:\u{D7E6}\n\
HANGUL JONGSEONG PIEUP-SIOS-TIKEUT:\u{D7E7}\n\
HANGUL JONGSEONG PIEUP-CIEUC:\u{D7E8}\n\
HANGUL JONGSEONG PIEUP-CHIEUCH:\u{D7E9}\n\
HANGUL JONGSEONG SIOS-MIEUM:\u{D7EA}\n\
HANGUL JONGSEONG SIOS-KAPYEOUNPIEUP:\u{D7EB}\n\
HANGUL JONGSEONG SSANGSIOS-KIYEOK:\u{D7EC}\n\
HANGUL JONGSEONG SSANGSIOS-TIKEUT:\u{D7ED}\n\
HANGUL JONGSEONG SIOS-PANSIOS:\u{D7EE}\n\
HANGUL JONGSEONG SIOS-CIEUC:\u{D7EF}\n\
HANGUL JONGSEONG SIOS-CHIEUCH:\u{D7F0}\n\
HANGUL JONGSEONG SIOS-THIEUTH:\u{D7F1}\n\
HANGUL JONGSEONG SIOS-HIEUH:\u{D7F2}\n\
HANGUL JONGSEONG PANSIOS-PIEUP:\u{D7F3}\n\
HANGUL JONGSEONG PANSIOS-KAPYEOUNPIEUP:\u{D7F4}\n\
HANGUL JONGSEONG YESIEUNG-MIEUM:\u{D7F5}\n\
HANGUL JONGSEONG YESIEUNG-HIEUH:\u{D7F6}\n\
HANGUL JONGSEONG CIEUC-PIEUP:\u{D7F7}\n\
HANGUL JONGSEONG CIEUC-SSANGPIEUP:\u{D7F8}\n\
HANGUL JONGSEONG SSANGCIEUC:\u{D7F9}\n\
HANGUL JONGSEONG PHIEUPH-SIOS:\u{D7FA}\n\
HANGUL JONGSEONG PHIEUPH-THIEUTH:\u{D7FB}\n\
LATIN SMALL LIGATURE FF:\u{FB00}\n\
LATIN SMALL LIGATURE FI:\u{FB01}\n\
LATIN SMALL LIGATURE FL:\u{FB02}\n\
LATIN SMALL LIGATURE FFI:\u{FB03}\n\
LATIN SMALL LIGATURE FFL:\u{FB04}\n\
LATIN SMALL LIGATURE LONG S T:\u{FB05}\n\
LATIN SMALL LIGATURE ST:\u{FB06}\n\
ARMENIAN SMALL LIGATURE MEN NOW:\u{FB13}\n\
ARMENIAN SMALL LIGATURE MEN ECH:\u{FB14}\n\
ARMENIAN SMALL LIGATURE MEN INI:\u{FB15}\n\
ARMENIAN SMALL LIGATURE VEW NOW:\u{FB16}\n\
ARMENIAN SMALL LIGATURE MEN XEH:\u{FB17}\n\
HEBREW LETTER YOD WITH HIRIQ:\u{FB1D}\n\
HEBREW POINT JUDEO-SPANISH VARIKA:\u{FB1E}\n\
HEBREW LIGATURE YIDDISH YOD YOD PATAH:\u{FB1F}\n\
HEBREW LETTER ALTERNATIVE AYIN:\u{FB20}\n\
HEBREW LETTER WIDE ALEF:\u{FB21}\n\
HEBREW LETTER WIDE DALET:\u{FB22}\n\
HEBREW LETTER WIDE HE:\u{FB23}\n\
HEBREW LETTER WIDE KAF:\u{FB24}\n\
HEBREW LETTER WIDE LAMED:\u{FB25}\n\
HEBREW LETTER WIDE FINAL MEM:\u{FB26}\n\
HEBREW LETTER WIDE RESH:\u{FB27}\n\
HEBREW LETTER WIDE TAV:\u{FB28}\n\
HEBREW LETTER ALTERNATIVE PLUS SIGN:\u{FB29}\n\
HEBREW LETTER SHIN WITH SHIN DOT:\u{FB2A}\n\
HEBREW LETTER SHIN WITH SIN DOT:\u{FB2B}\n\
HEBREW LETTER SHIN WITH DAGESH AND SHIN DOT:\u{FB2C}\n\
HEBREW LETTER SHIN WITH DAGESH AND SIN DOT:\u{FB2D}\n\
HEBREW LETTER ALEF WITH PATAH:\u{FB2E}\n\
HEBREW LETTER ALEF WITH QAMATS:\u{FB2F}\n\
HEBREW LETTER ALEF WITH MAPIQ:\u{FB30}\n\
HEBREW LETTER BET WITH DAGESH:\u{FB31}\n\
HEBREW LETTER GIMEL WITH DAGESH:\u{FB32}\n\
HEBREW LETTER DALET WITH DAGESH:\u{FB33}\n\
HEBREW LETTER HE WITH MAPIQ:\u{FB34}\n\
HEBREW LETTER VAV WITH DAGESH:\u{FB35}\n\
HEBREW LETTER ZAYIN WITH DAGESH:\u{FB36}\n\
HEBREW LETTER TET WITH DAGESH:\u{FB38}\n\
HEBREW LETTER YOD WITH DAGESH:\u{FB39}\n\
HEBREW LETTER FINAL KAF WITH DAGESH:\u{FB3A}\n\
HEBREW LETTER KAF WITH DAGESH:\u{FB3B}\n\
HEBREW LETTER LAMED WITH DAGESH:\u{FB3C}\n\
HEBREW LETTER MEM WITH DAGESH:\u{FB3E}\n\
HEBREW LETTER NUN WITH DAGESH:\u{FB40}\n\
HEBREW LETTER SAMEKH WITH DAGESH:\u{FB41}\n\
HEBREW LETTER FINAL PE WITH DAGESH:\u{FB43}\n";

pub const NAMES_38: &'static str = "HEBREW LETTER PE WITH DAGESH:\u{FB44}\n\
HEBREW LETTER TSADI WITH DAGESH:\u{FB46}\n\
HEBREW LETTER QOF WITH DAGESH:\u{FB47}\n\
HEBREW LETTER RESH WITH DAGESH:\u{FB48}\n\
HEBREW LETTER SHIN WITH DAGESH:\u{FB49}\n\
HEBREW LETTER TAV WITH DAGESH:\u{FB4A}\n\
HEBREW LETTER VAV WITH HOLAM:\u{FB4B}\n\
HEBREW LETTER BET WITH RAFE:\u{FB4C}\n\
HEBREW LETTER KAF WITH RAFE:\u{FB4D}\n\
HEBREW LETTER PE WITH RAFE:\u{FB4E}\n\
HEBREW LIGATURE ALEF LAMED:\u{FB4F}\n\
ARABIC LETTER ALEF WASLA ISOLATED FORM:\u{FB50}\n\
ARABIC LETTER ALEF WASLA FINAL FORM:\u{FB51}\n\
ARABIC LETTER BEEH ISOLATED FORM:\u{FB52}\n\
ARABIC LETTER BEEH FINAL FORM:\u{FB53}\n\
ARABIC LETTER BEEH INITIAL FORM:\u{FB54}\n\
ARABIC LETTER BEEH MEDIAL FORM:\u{FB55}\n\
ARABIC LETTER PEH ISOLATED FORM:\u{FB56}\n\
ARABIC LETTER PEH FINAL FORM:\u{FB57}\n\
ARABIC LETTER PEH INITIAL FORM:\u{FB58}\n\
ARABIC LETTER PEH MEDIAL FORM:\u{FB59}\n\
ARABIC LETTER BEHEH ISOLATED FORM:\u{FB5A}\n\
ARABIC LETTER BEHEH FINAL FORM:\u{FB5B}\n\
ARABIC LETTER BEHEH INITIAL FORM:\u{FB5C}\n\
ARABIC LETTER BEHEH MEDIAL FORM:\u{FB5D}\n\
ARABIC LETTER TTEHEH ISOLATED FORM:\u{FB5E}\n\
ARABIC LETTER TTEHEH FINAL FORM:\u{FB5F}\n\
ARABIC LETTER TTEHEH INITIAL FORM:\u{FB60}\n\
ARABIC LETTER TTEHEH MEDIAL FORM:\u{FB61}\n\
ARABIC LETTER TEHEH ISOLATED FORM:\u{FB62}\n\
ARABIC LETTER TEHEH FINAL FORM:\u{FB63}\n\
ARABIC LETTER TEHEH INITIAL FORM:\u{FB64}\n\
ARABIC LETTER TEHEH MEDIAL FORM:\u{FB65}\n\
ARABIC LETTER TTEH ISOLATED FORM:\u{FB66}\n\
ARABIC LETTER TTEH FINAL FORM:\u{FB67}\n\
ARABIC LETTER TTEH INITIAL FORM:\u{FB68}\n\
ARABIC LETTER TTEH MEDIAL FORM:\u{FB69}\n\
ARABIC LETTER VEH ISOLATED FORM:\u{FB6A}\n\
ARABIC LETTER VEH FINAL FORM:\u{FB6B}\n\
ARABIC LETTER VEH INITIAL FORM:\u{FB6C}\n\
ARABIC LETTER VEH MEDIAL FORM:\u{FB6D}\n\
ARABIC LETTER PEHEH ISOLATED FORM:\u{FB6E}\n\
ARABIC LETTER PEHEH FINAL FORM:\u{FB6F}\n\
ARABIC LETTER PEHEH INITIAL FORM:\u{FB70}\n\
ARABIC LETTER PEHEH MEDIAL FORM:\u{FB71}\n\
ARABIC LETTER DYEH ISOLATED FORM:\u{FB72}\n\
ARABIC LETTER DYEH FINAL FORM:\u{FB73}\n\
ARABIC LETTER DYEH INITIAL FORM:\u{FB74}\n\
ARABIC LETTER DYEH MEDIAL FORM:\u{FB75}\n\
ARABIC LETTER NYEH ISOLATED FORM:\u{FB76}\n\
ARABIC LETTER NYEH FINAL FORM:\u{FB77}\n\
ARABIC LETTER NYEH INITIAL FORM:\u{FB78}\n\
ARABIC LETTER NYEH MEDIAL FORM:\u{FB79}\n\
ARABIC LETTER TCHEH ISOLATED FORM:\u{FB7A}\n\
ARABIC LETTER TCHEH FINAL FORM:\u{FB7B}\n\
ARABIC LETTER TCHEH INITIAL FORM:\u{FB7C}\n\
ARABIC LETTER TCHEH MEDIAL FORM:\u{FB7D}\n\
ARABIC LETTER TCHEHEH ISOLATED FORM:\u{FB7E}\n\
ARABIC LETTER TCHEHEH FINAL FORM:\u{FB7F}\n\
ARABIC LETTER TCHEHEH INITIAL FORM:\u{FB80}\n\
ARABIC LETTER TCHEHEH MEDIAL FORM:\u{FB81}\n\
ARABIC LETTER DDAHAL ISOLATED FORM:\u{FB82}\n\
ARABIC LETTER DDAHAL FINAL FORM:\u{FB83}\n\
ARABIC LETTER DAHAL ISOLATED FORM:\u{FB84}\n\
ARABIC LETTER DAHAL FINAL FORM:\u{FB85}\n\
ARABIC LETTER DUL ISOLATED FORM:\u{FB86}\n\
ARABIC LETTER DUL FINAL FORM:\u{FB87}\n\
ARABIC LETTER DDAL ISOLATED FORM:\u{FB88}\n\
ARABIC LETTER DDAL FINAL FORM:\u{FB89}\n\
ARABIC LETTER JEH ISOLATED FORM:\u{FB8A}\n\
ARABIC LETTER JEH FINAL FORM:\u{FB8B}\n\
ARABIC LETTER RREH ISOLATED FORM:\u{FB8C}\n\
ARABIC LETTER RREH FINAL FORM:\u{FB8D}\n\
ARABIC LETTER KEHEH ISOLATED FORM:\u{FB8E}\n\
ARABIC LETTER KEHEH FINAL FORM:\u{FB8F}\n\
ARABIC LETTER KEHEH INITIAL FORM:\u{FB90}\n\
ARABIC LETTER KEHEH MEDIAL FORM:\u{FB91}\n\
ARABIC LETTER GAF ISOLATED FORM:\u{FB92}\n\
ARABIC LETTER GAF FINAL FORM:\u{FB93}\n\
ARABIC LETTER GAF INITIAL FORM:\u{FB94}\n\
ARABIC LETTER GAF MEDIAL FORM:\u{FB95}\n\
ARABIC LETTER GUEH ISOLATED FORM:\u{FB96}\n\
ARABIC LETTER GUEH FINAL FORM:\u{FB97}\n\
ARABIC LETTER GUEH INITIAL FORM:\u{FB98}\n\
ARABIC LETTER GUEH MEDIAL FORM:\u{FB99}\n\
ARABIC LETTER NGOEH ISOLATED FORM:\u{FB9A}\n\
ARABIC LETTER NGOEH FINAL FORM:\u{FB9B}\n\
ARABIC LETTER NGOEH INITIAL FORM:\u{FB9C}\n\
ARABIC LETTER NGOEH MEDIAL FORM:\u{FB9D}\n\
ARABIC LETTER NOON GHUNNA ISOLATED FORM:\u{FB9E}\n\
ARABIC LETTER NOON GHUNNA FINAL FORM:\u{FB9F}\n\
ARABIC LETTER RNOON ISOLATED FORM:\u{FBA0}\n\
ARABIC LETTER RNOON FINAL FORM:\u{FBA1}\n\
ARABIC LETTER RNOON INITIAL FORM:\u{FBA2}\n\
ARABIC LETTER RNOON MEDIAL FORM:\u{FBA3}\n\
ARABIC LETTER HEH WITH YEH ABOVE ISOLATED FORM:\u{FBA4}\n\
ARABIC LETTER HEH WITH YEH ABOVE FINAL FORM:\u{FBA5}\n\
ARABIC LETTER HEH GOAL ISOLATED FORM:\u{FBA6}\n\
ARABIC LETTER HEH GOAL FINAL FORM:\u{FBA7}\n\
ARABIC LETTER HEH GOAL INITIAL FORM:\u{FBA8}\n\
ARABIC LETTER HEH GOAL MEDIAL FORM:\u{FBA9}\n\
ARABIC LETTER HEH DOACHASHMEE ISOLATED FORM:\u{FBAA}\n\
ARABIC LETTER HEH DOACHASHMEE FINAL FORM:\u{FBAB}\n\
ARABIC LETTER HEH DOACHASHMEE INITIAL FORM:\u{FBAC}\n\
ARABIC LETTER HEH DOACHASHMEE MEDIAL FORM:\u{FBAD}\n\
ARABIC LETTER YEH BARREE ISOLATED FORM:\u{FBAE}\n\
ARABIC LETTER YEH BARREE FINAL FORM:\u{FBAF}\n\
ARABIC LETTER YEH BARREE WITH HAMZA ABOVE ISOLATED FORM:\u{FBB0}\n\
ARABIC LETTER YEH BARREE WITH HAMZA ABOVE FINAL FORM:\u{FBB1}\n\
ARABIC SYMBOL DOT ABOVE:\u{FBB2}\n\
ARABIC SYMBOL DOT BELOW:\u{FBB3}\n\
ARABIC SYMBOL TWO DOTS ABOVE:\u{FBB4}\n\
ARABIC SYMBOL TWO DOTS BELOW:\u{FBB5}\n\
ARABIC SYMBOL THREE DOTS ABOVE:\u{FBB6}\n\
ARABIC SYMBOL THREE DOTS BELOW:\u{FBB7}\n\
ARABIC SYMBOL THREE DOTS POINTING DOWNWARDS ABOVE:\u{FBB8}\n\
ARABIC SYMBOL THREE DOTS POINTING DOWNWARDS BELOW:\u{FBB9}\n\
ARABIC SYMBOL FOUR DOTS ABOVE:\u{FBBA}\n\
ARABIC SYMBOL FOUR DOTS BELOW:\u{FBBB}\n\
ARABIC SYMBOL DOUBLE VERTICAL BAR BELOW:\u{FBBC}\n\
ARABIC SYMBOL TWO DOTS VERTICALLY ABOVE:\u{FBBD}\n\
ARABIC SYMBOL TWO DOTS VERTICALLY BELOW:\u{FBBE}\n\
ARABIC SYMBOL RING:\u{FBBF}\n\
ARABIC SYMBOL SMALL TAH ABOVE:\u{FBC0}\n\
ARABIC SYMBOL SMALL TAH BELOW:\u{FBC1}\n\
ARABIC SYMBOL WASLA ABOVE:\u{FBC2}\n\
ARABIC LETTER NG ISOLATED FORM:\u{FBD3}\n\
ARABIC LETTER NG FINAL FORM:\u{FBD4}\n\
ARABIC LETTER NG INITIAL FORM:\u{FBD5}\n\
ARABIC LETTER NG MEDIAL FORM:\u{FBD6}\n\
ARABIC LETTER U ISOLATED FORM:\u{FBD7}\n\
ARABIC LETTER U FINAL FORM:\u{FBD8}\n\
ARABIC LETTER OE ISOLATED FORM:\u{FBD9}\n\
ARABIC LETTER OE FINAL FORM:\u{FBDA}\n\
ARABIC LETTER YU ISOLATED FORM:\u{FBDB}\n\
ARABIC LETTER YU FINAL FORM:\u{FBDC}\n\
ARABIC LETTER U WITH HAMZA ABOVE ISOLATED FORM:\u{FBDD}\n\
ARABIC LETTER VE ISOLATED FORM:\u{FBDE}\n\
ARABIC LETTER VE FINAL FORM:\u{FBDF}\n\
ARABIC LETTER KIRGHIZ OE ISOLATED FORM:\u{FBE0}\n\
ARABIC LETTER KIRGHIZ OE FINAL FORM:\u{FBE1}\n\
ARABIC LETTER KIRGHIZ YU ISOLATED FORM:\u{FBE2}\n\
ARABIC LETTER KIRGHIZ YU FINAL FORM:\u{FBE3}\n\
ARABIC LETTER E ISOLATED FORM:\u{FBE4}\n\
ARABIC LETTER E FINAL FORM:\u{FBE5}\n\
ARABIC LETTER E INITIAL FORM:\u{FBE6}\n\
ARABIC LETTER E MEDIAL FORM:\u{FBE7}\n\
ARABIC LETTER UIGHUR KAZAKH KIRGHIZ ALEF MAKSURA INITIAL FORM:\u{FBE8}\n\
ARABIC LETTER UIGHUR KAZAKH KIRGHIZ ALEF MAKSURA MEDIAL FORM:\u{FBE9}\n\
ARABIC LIGATURE YEH WITH HAMZA ABOVE WITH ALEF ISOLATED FORM:\u{FBEA}\n\
ARABIC LIGATURE YEH WITH HAMZA ABOVE WITH ALEF FINAL FORM:\u{FBEB}\n\
ARABIC LIGATURE YEH WITH HAMZA ABOVE WITH AE ISOLATED FORM:\u{FBEC}\n\
ARABIC LIGATURE YEH WITH HAMZA ABOVE WITH AE FINAL FORM:\u{FBED}\n\
ARABIC LIGATURE YEH WITH HAMZA ABOVE WITH WAW ISOLATED FORM:\u{FBEE}\n\
ARABIC LIGATURE YEH WITH HAMZA ABOVE WITH WAW FINAL FORM:\u{FBEF}\n\
ARABIC LIGATURE YEH WITH HAMZA ABOVE WITH U ISOLATED FORM:\u{FBF0}\n\
ARABIC LIGATURE YEH WITH HAMZA ABOVE WITH U FINAL FORM:\u{FBF1}\n\
ARABIC LIGATURE YEH WITH HAMZA ABOVE WITH OE ISOLATED FORM:\u{FBF2}\n\
ARABIC LIGATURE YEH WITH HAMZA ABOVE WITH OE FINAL FORM:\u{FBF3}\n\
ARABIC LIGATURE YEH WITH HAMZA ABOVE WITH YU ISOLATED FORM:\u{FBF4}\n\
ARABIC LIGATURE YEH WITH HAMZA ABOVE WITH YU FINAL FORM:\u{FBF5}\n\
ARABIC LIGATURE YEH WITH HAMZA ABOVE WITH E ISOLATED FORM:\u{FBF6}\n\
ARABIC LIGATURE YEH WITH HAMZA ABOVE WITH E FINAL FORM:\u{FBF7}\n\
ARABIC LIGATURE YEH WITH HAMZA ABOVE WITH E INITIAL FORM:\u{FBF8}\n\
ARABIC LIGATURE UIGHUR KIRGHIZ YEH WITH HAMZA ABOVE WITH ALEF MAKSURA ISOLATED FORM:\u{FBF9}\n\
ARABIC LIGATURE UIGHUR KIRGHIZ YEH WITH HAMZA ABOVE WITH ALEF MAKSURA FINAL FORM:\u{FBFA}\n\
ARABIC LIGATURE UIGHUR KIRGHIZ YEH WITH HAMZA ABOVE WITH ALEF MAKSURA INITIAL FORM:\u{FBFB}\n\
ARABIC LETTER FARSI YEH ISOLATED FORM:\u{FBFC}\n\
ARABIC LETTER FARSI YEH FINAL FORM:\u{FBFD}\n\
ARABIC LETTER FARSI YEH INITIAL FORM:\u{FBFE}\n\
ARABIC LETTER FARSI YEH MEDIAL FORM:\u{FBFF}\n\
ARABIC LIGATURE YEH WITH HAMZA ABOVE WITH JEEM ISOLATED FORM:\u{FC00}\n\
ARABIC LIGATURE YEH WITH HAMZA ABOVE WITH HAH ISOLATED FORM:\u{FC01}\n\
ARABIC LIGATURE YEH WITH HAMZA ABOVE WITH MEEM ISOLATED FORM:\u{FC02}\n\
ARABIC LIGATURE YEH WITH HAMZA ABOVE WITH ALEF MAKSURA ISOLATED FORM:\u{FC03}\n\
ARABIC LIGATURE YEH WITH HAMZA ABOVE WITH YEH ISOLATED FORM:\u{FC04}\n\
ARABIC LIGATURE BEH WITH JEEM ISOLATED FORM:\u{FC05}\n\
ARABIC LIGATURE BEH WITH HAH ISOLATED FORM:\u{FC06}\n\
ARABIC LIGATURE BEH WITH KHAH ISOLATED FORM:\u{FC07}\n\
ARABIC LIGATURE BEH WITH MEEM ISOLATED FORM:\u{FC08}\n\
ARABIC LIGATURE BEH WITH ALEF MAKSURA ISOLATED FORM:\u{FC09}\n\
ARABIC LIGATURE BEH WITH YEH ISOLATED FORM:\u{FC0A}\n\
ARABIC LIGATURE TEH WITH JEEM ISOLATED FORM:\u{FC0B}\n\
ARABIC LIGATURE TEH WITH HAH ISOLATED FORM:\u{FC0C}\n\
ARABIC LIGATURE TEH WITH KHAH ISOLATED FORM:\u{FC0D}\n\
ARABIC LIGATURE TEH WITH MEEM ISOLATED FORM:\u{FC0E}\n\
ARABIC LIGATURE TEH WITH ALEF MAKSURA ISOLATED FORM:\u{FC0F}\n\
ARABIC LIGATURE TEH WITH YEH ISOLATED FORM:\u{FC10}\n\
ARABIC LIGATURE THEH WITH JEEM ISOLATED FORM:\u{FC11}\n\
ARABIC LIGATURE THEH WITH MEEM ISOLATED FORM:\u{FC12}\n\
ARABIC LIGATURE THEH WITH ALEF MAKSURA ISOLATED FORM:\u{FC13}\n\
ARABIC LIGATURE THEH WITH YEH ISOLATED FORM:\u{FC14}\n\
ARABIC LIGATURE JEEM WITH HAH ISOLATED FORM:\u{FC15}\n\
ARABIC LIGATURE JEEM WITH MEEM ISOLATED FORM:\u{FC16}\n\
ARABIC LIGATURE HAH WITH JEEM ISOLATED FORM:\u{FC17}\n\
ARABIC LIGATURE HAH WITH MEEM ISOLATED FORM:\u{FC18}\n\
ARABIC LIGATURE KHAH WITH JEEM ISOLATED FORM:\u{FC19}\n\
ARABIC LIGATURE KHAH WITH HAH ISOLATED FORM:\u{FC1A}\n\
ARABIC LIGATURE KHAH WITH MEEM ISOLATED FORM:\u{FC1B}\n\
ARABIC LIGATURE SEEN WITH JEEM ISOLATED FORM:\u{FC1C}\n\
ARABIC LIGATURE SEEN WITH HAH ISOLATED FORM:\u{FC1D}\n\
ARABIC LIGATURE SEEN WITH KHAH ISOLATED FORM:\u{FC1E}\n\
ARABIC LIGATURE SEEN WITH MEEM ISOLATED FORM:\u{FC1F}\n\
ARABIC LIGATURE SAD WITH HAH ISOLATED FORM:\u{FC20}\n\
ARABIC LIGATURE SAD WITH MEEM ISOLATED FORM:\u{FC21}\n\
ARABIC LIGATURE DAD WITH JEEM ISOLATED FORM:\u{FC22}\n\
ARABIC LIGATURE DAD WITH HAH ISOLATED FORM:\u{FC23}\n\
ARABIC LIGATURE DAD WITH KHAH ISOLATED FORM:\u{FC24}\n\
ARABIC LIGATURE DAD WITH MEEM ISOLATED FORM:\u{FC25}\n\
ARABIC LIGATURE TAH WITH HAH ISOLATED FORM:\u{FC26}\n\
ARABIC LIGATURE TAH WITH MEEM ISOLATED FORM:\u{FC27}\n\
ARABIC LIGATURE ZAH WITH MEEM ISOLATED FORM:\u{FC28}\n\
ARABIC LIGATURE AIN WITH JEEM ISOLATED FORM:\u{FC29}\n\
ARABIC LIGATURE AIN WITH MEEM ISOLATED FORM:\u{FC2A}\n\
ARABIC LIGATURE GHAIN WITH JEEM ISOLATED FORM:\u{FC2B}\n\
ARABIC LIGATURE GHAIN WITH MEEM ISOLATED FORM:\u{FC2C}\n\
ARABIC LIGATURE FEH WITH JEEM ISOLATED FORM:\u{FC2D}\n\
ARABIC LIGATURE FEH WITH HAH ISOLATED FORM:\u{FC2E}\n\
ARABIC LIGATURE FEH WITH KHAH ISOLATED FORM:\u{FC2F}\n\
ARABIC LIGATURE FEH WITH MEEM ISOLATED FORM:\u{FC30}\n\
ARABIC LIGATURE FEH WITH ALEF MAKSURA ISOLATED FORM:\u{FC31}\n\
ARABIC LIGATURE FEH WITH YEH ISOLATED FORM:\u{FC32}\n\
ARABIC LIGATURE QAF WITH HAH ISOLATED FORM:\u{FC33}\n\
ARABIC LIGATURE QAF WITH MEEM ISOLATED FORM:\u{FC34}\n\
ARABIC LIGATURE QAF WITH ALEF MAKSURA ISOLATED FORM:\u{FC35}\n\
ARABIC LIGATURE QAF WITH YEH ISOLATED FORM:\u{FC36}\n\
ARABIC LIGATURE KAF WITH ALEF ISOLATED FORM:\u{FC37}\n\
ARABIC LIGATURE KAF WITH JEEM ISOLATED FORM:\u{FC38}\n\
ARABIC LIGATURE KAF WITH HAH ISOLATED FORM:\u{FC39}\n\
ARABIC LIGATURE KAF WITH KHAH ISOLATED FORM:\u{FC3A}\n\
ARABIC LIGATURE KAF WITH LAM ISOLATED FORM:\u{FC3B}\n\
ARABIC LIGATURE KAF WITH MEEM ISOLATED FORM:\u{FC3C}\n\
ARABIC LIGATURE KAF WITH ALEF MAKSURA ISOLATED FORM:\u{FC3D}\n\
ARABIC LIGATURE KAF WITH YEH ISOLATED FORM:\u{FC3E}\n\
ARABIC LIGATURE LAM WITH JEEM ISOLATED FORM:\u{FC3F}\n\
ARABIC LIGATURE LAM WITH HAH ISOLATED FORM:\u{FC40}\n\
ARABIC LIGATURE LAM WITH KHAH ISOLATED FORM:\u{FC41}\n\
ARABIC LIGATURE LAM WITH MEEM ISOLATED FORM:\u{FC42}\n\
ARABIC LIGATURE LAM WITH ALEF MAKSURA ISOLATED FORM:\u{FC43}\n\
ARABIC LIGATURE LAM WITH YEH ISOLATED FORM:\u{FC44}\n\
ARABIC LIGATURE MEEM WITH JEEM ISOLATED FORM:\u{FC45}\n\
ARABIC LIGATURE MEEM WITH HAH ISOLATED FORM:\u{FC46}\n\
ARABIC LIGATURE MEEM WITH KHAH ISOLATED FORM:\u{FC47}\n\
ARABIC LIGATURE MEEM WITH MEEM ISOLATED FORM:\u{FC48}\n\
ARABIC LIGATURE MEEM WITH ALEF MAKSURA ISOLATED FORM:\u{FC49}\n\
ARABIC LIGATURE MEEM WITH YEH ISOLATED FORM:\u{FC4A}\n\
ARABIC LIGATURE NOON WITH JEEM ISOLATED FORM:\u{FC4B}\n\
ARABIC LIGATURE NOON WITH HAH ISOLATED FORM:\u{FC4C}\n\
ARABIC LIGATURE NOON WITH KHAH ISOLATED FORM:\u{FC4D}\n\
ARABIC LIGATURE NOON WITH MEEM ISOLATED FORM:\u{FC4E}\n\
ARABIC LIGATURE NOON WITH ALEF MAKSURA ISOLATED FORM:\u{FC4F}\n\
ARABIC LIGATURE NOON WITH YEH ISOLATED FORM:\u{FC50}\n\
ARABIC LIGATURE HEH WITH JEEM ISOLATED FORM:\u{FC51}\n\
ARABIC LIGATURE HEH WITH MEEM ISOLATED FORM:\u{FC52}\n\
ARABIC LIGATURE HEH WITH ALEF MAKSURA ISOLATED FORM:\u{FC53}\n\
ARABIC LIGATURE HEH WITH YEH ISOLATED FORM:\u{FC54}\n\
ARABIC LIGATURE YEH WITH JEEM ISOLATED FORM:\u{FC55}\n\
ARABIC LIGATURE YEH WITH HAH ISOLATED FORM:\u{FC56}\n\
ARABIC LIGATURE YEH WITH KHAH ISOLATED FORM:\u{FC57}\n\
ARABIC LIGATURE YEH WITH MEEM ISOLATED FORM:\u{FC58}\n\
ARABIC LIGATURE YEH WITH ALEF MAKSURA ISOLATED FORM:\u{FC59}\n\
ARABIC LIGATURE YEH WITH YEH ISOLATED FORM:\u{FC5A}\n\
ARABIC LIGATURE THAL WITH SUPERSCRIPT ALEF ISOLATED FORM:\u{FC5B}\n\
ARABIC LIGATURE REH WITH SUPERSCRIPT ALEF ISOLATED FORM:\u{FC5C}\n\
ARABIC LIGATURE ALEF MAKSURA WITH SUPERSCRIPT ALEF ISOLATED FORM:\u{FC5D}\n\
ARABIC LIGATURE SHADDA WITH DAMMATAN ISOLATED FORM:\u{FC5E}\n\
ARABIC LIGATURE SHADDA WITH KASRATAN ISOLATED FORM:\u{FC5F}\n\
ARABIC LIGATURE SHADDA WITH FATHA ISOLATED FORM:\u{FC60}\n\
ARABIC LIGATURE SHADDA WITH DAMMA ISOLATED FORM:\u{FC61}\n\
ARABIC LIGATURE SHADDA WITH KASRA ISOLATED FORM:\u{FC62}\n\
ARABIC LIGATURE SHADDA WITH SUPERSCRIPT ALEF ISOLATED FORM:\u{FC63}\n\
ARABIC LIGATURE YEH WITH HAMZA ABOVE WITH REH FINAL FORM:\u{FC64}\n\
ARABIC LIGATURE YEH WITH HAMZA ABOVE WITH ZAIN FINAL FORM:\u{FC65}\n\
ARABIC LIGATURE YEH WITH HAMZA ABOVE WITH MEEM FINAL FORM:\u{FC66}\n\
ARABIC LIGATURE YEH WITH HAMZA ABOVE WITH NOON FINAL FORM:\u{FC67}\n\
ARABIC LIGATURE YEH WITH HAMZA ABOVE WITH ALEF MAKSURA FINAL FORM:\u{FC68}\n\
ARABIC LIGATURE YEH WITH HAMZA ABOVE WITH YEH FINAL FORM:\u{FC69}\n\
ARABIC LIGATURE BEH WITH REH FINAL FORM:\u{FC6A}\n\
ARABIC LIGATURE BEH WITH ZAIN FINAL FORM:\u{FC6B}\n\
ARABIC LIGATURE BEH WITH MEEM FINAL FORM:\u{FC6C}\n\
ARABIC LIGATURE BEH WITH NOON FINAL FORM:\u{FC6D}\n\
ARABIC LIGATURE BEH WITH ALEF MAKSURA FINAL FORM:\u{FC6E}\n\
ARABIC LIGATURE BEH WITH YEH FINAL FORM:\u{FC6F}\n\
ARABIC LIGATURE TEH WITH REH FINAL FORM:\u{FC70}\n\
ARABIC LIGATURE TEH WITH ZAIN FINAL FORM:\u{FC71}\n";

pub const NAMES_39: &'static str = "ARABIC LIGATURE TEH WITH MEEM FINAL FORM:\u{FC72}\n\
ARABIC LIGATURE TEH WITH NOON FINAL FORM:\u{FC73}\n\
ARABIC LIGATURE TEH WITH ALEF MAKSURA FINAL FORM:\u{FC74}\n\
ARABIC LIGATURE TEH WITH YEH FINAL FORM:\u{FC75}\n\
ARABIC LIGATURE THEH WITH REH FINAL FORM:\u{FC76}\n\
ARABIC LIGATURE THEH WITH ZAIN FINAL FORM:\u{FC77}\n\
ARABIC LIGATURE THEH WITH MEEM FINAL FORM:\u{FC78}\n\
ARABIC LIGATURE THEH WITH NOON FINAL FORM:\u{FC79}\n\
ARABIC LIGATURE THEH WITH ALEF MAKSURA FINAL FORM:\u{FC7A}\n\
ARABIC LIGATURE THEH WITH YEH FINAL FORM:\u{FC7B}\n\
ARABIC LIGATURE FEH WITH ALEF MAKSURA FINAL FORM:\u{FC7C}\n\
ARABIC LIGATURE FEH WITH YEH FINAL FORM:\u{FC7D}\n\
ARABIC LIGATURE QAF WITH ALEF MAKSURA FINAL FORM:\u{FC7E}\n\
ARABIC LIGATURE QAF WITH YEH FINAL FORM:\u{FC7F}\n\
ARABIC LIGATURE KAF WITH ALEF FINAL FORM:\u{FC80}\n\
ARABIC LIGATURE KAF WITH LAM FINAL FORM:\u{FC81}\n\
ARABIC LIGATURE KAF WITH MEEM FINAL FORM:\u{FC82}\n\
ARABIC LIGATURE KAF WITH ALEF MAKSURA FINAL FORM:\u{FC83}\n\
ARABIC LIGATURE KAF WITH YEH FINAL FORM:\u{FC84}\n\
ARABIC LIGATURE LAM WITH MEEM FINAL FORM:\u{FC85}\n\
ARABIC LIGATURE LAM WITH ALEF MAKSURA FINAL FORM:\u{FC86}\n\
ARABIC LIGATURE LAM WITH YEH FINAL FORM:\u{FC87}\n\
ARABIC LIGATURE MEEM WITH ALEF FINAL FORM:\u{FC88}\n\
ARABIC LIGATURE MEEM WITH MEEM FINAL FORM:\u{FC89}\n\
ARABIC LIGATURE NOON WITH REH FINAL FORM:\u{FC8A}\n\
ARABIC LIGATURE NOON WITH ZAIN FINAL FORM:\u{FC8B}\n\
ARABIC LIGATURE NOON WITH MEEM FINAL FORM:\u{FC8C}\n\
ARABIC LIGATURE NOON WITH NOON FINAL FORM:\u{FC8D}\n\
ARABIC LIGATURE NOON WITH ALEF MAKSURA FINAL FORM:\u{FC8E}\n\
ARABIC LIGATURE NOON WITH YEH FINAL FORM:\u{FC8F}\n\
ARABIC LIGATURE ALEF MAKSURA WITH SUPERSCRIPT ALEF FINAL FORM:\u{FC90}\n\
ARABIC LIGATURE YEH WITH REH FINAL FORM:\u{FC91}\n\
ARABIC LIGATURE YEH WITH ZAIN FINAL FORM:\u{FC92}\n\
ARABIC LIGATURE YEH WITH MEEM FINAL FORM:\u{FC93}\n\
ARABIC LIGATURE YEH WITH NOON FINAL FORM:\u{FC94}\n\
ARABIC LIGATURE YEH WITH ALEF MAKSURA FINAL FORM:\u{FC95}\n\
ARABIC LIGATURE YEH WITH YEH FINAL FORM:\u{FC96}\n\
ARABIC LIGATURE YEH WITH HAMZA ABOVE WITH JEEM INITIAL FORM:\u{FC97}\n\
ARABIC LIGATURE YEH WITH HAMZA ABOVE WITH HAH INITIAL FORM:\u{FC98}\n\
ARABIC LIGATURE YEH WITH HAMZA ABOVE WITH KHAH INITIAL FORM:\u{FC99}\n\
ARABIC LIGATURE YEH WITH HAMZA ABOVE WITH MEEM INITIAL FORM:\u{FC9A}\n\
ARABIC LIGATURE YEH WITH HAMZA ABOVE WITH HEH INITIAL FORM:\u{FC9B}\n\
ARABIC LIGATURE BEH WITH JEEM INITIAL FORM:\u{FC9C}\n\
ARABIC LIGATURE BEH WITH HAH INITIAL FORM:\u{FC9D}\n\
ARABIC LIGATURE BEH WITH KHAH INITIAL FORM:\u{FC9E}\n\
ARABIC LIGATURE BEH WITH MEEM INITIAL FORM:\u{FC9F}\n\
ARABIC LIGATURE BEH WITH HEH INITIAL FORM:\u{FCA0}\n\
ARABIC LIGATURE TEH WITH JEEM INITIAL FORM:\u{FCA1}\n\
ARABIC LIGATURE TEH WITH HAH INITIAL FORM:\u{FCA2}\n\
ARABIC LIGATURE TEH WITH KHAH INITIAL FORM:\u{FCA3}\n\
ARABIC LIGATURE TEH WITH MEEM INITIAL FORM:\u{FCA4}\n\
ARABIC LIGATURE TEH WITH HEH INITIAL FORM:\u{FCA5}\n\
ARABIC LIGATURE THEH WITH MEEM INITIAL FORM:\u{FCA6}\n\
ARABIC LIGATURE JEEM WITH HAH INITIAL FORM:\u{FCA7}\n\
ARABIC LIGATURE JEEM WITH MEEM INITIAL FORM:\u{FCA8}\n\
ARABIC LIGATURE HAH WITH JEEM INITIAL FORM:\u{FCA9}\n\
ARABIC LIGATURE HAH WITH MEEM INITIAL FORM:\u{FCAA}\n\
ARABIC LIGATURE KHAH WITH JEEM INITIAL FORM:\u{FCAB}\n\
ARABIC LIGATURE KHAH WITH MEEM INITIAL FORM:\u{FCAC}\n\
ARABIC LIGATURE SEEN WITH JEEM INITIAL FORM:\u{FCAD}\n\
ARABIC LIGATURE SEEN WITH HAH INITIAL FORM:\u{FCAE}\n\
ARABIC LIGATURE SEEN WITH KHAH INITIAL FORM:\u{FCAF}\n\
ARABIC LIGATURE SEEN WITH MEEM INITIAL FORM:\u{FCB0}\n\
ARABIC LIGATURE SAD WITH HAH INITIAL FORM:\u{FCB1}\n\
ARABIC LIGATURE SAD WITH KHAH INITIAL FORM:\u{FCB2}\n\
ARABIC LIGATURE SAD WITH MEEM INITIAL FORM:\u{FCB3}\n\
ARABIC LIGATURE DAD WITH JEEM INITIAL FORM:\u{FCB4}\n\
ARABIC LIGATURE DAD WITH HAH INITIAL FORM:\u{FCB5}\n\
ARABIC LIGATURE DAD WITH KHAH INITIAL FORM:\u{FCB6}\n\
ARABIC LIGATURE DAD WITH MEEM INITIAL FORM:\u{FCB7}\n\
ARABIC LIGATURE TAH WITH HAH INITIAL FORM:\u{FCB8}\n\
ARABIC LIGATURE ZAH WITH MEEM INITIAL FORM:\u{FCB9}\n\
ARABIC LIGATURE AIN WITH JEEM INITIAL FORM:\u{FCBA}\n\
ARABIC LIGATURE AIN WITH MEEM INITIAL FORM:\u{FCBB}\n\
ARABIC LIGATURE GHAIN WITH JEEM INITIAL FORM:\u{FCBC}\n\
ARABIC LIGATURE GHAIN WITH MEEM INITIAL FORM:\u{FCBD}\n\
ARABIC LIGATURE FEH WITH JEEM INITIAL FORM:\u{FCBE}\n\
ARABIC LIGATURE FEH WITH HAH INITIAL FORM:\u{FCBF}\n\
ARABIC LIGATURE FEH WITH KHAH INITIAL FORM:\u{FCC0}\n\
ARABIC LIGATURE FEH WITH MEEM INITIAL FORM:\u{FCC1}\n\
ARABIC LIGATURE QAF WITH HAH INITIAL FORM:\u{FCC2}\n\
ARABIC LIGATURE QAF WITH MEEM INITIAL FORM:\u{FCC3}\n\
ARABIC LIGATURE KAF WITH JEEM INITIAL FORM:\u{FCC4}\n\
ARABIC LIGATURE KAF WITH HAH INITIAL FORM:\u{FCC5}\n\
ARABIC LIGATURE KAF WITH KHAH INITIAL FORM:\u{FCC6}\n\
ARABIC LIGATURE KAF WITH LAM INITIAL FORM:\u{FCC7}\n\
ARABIC LIGATURE KAF WITH MEEM INITIAL FORM:\u{FCC8}\n\
ARABIC LIGATURE LAM WITH JEEM INITIAL FORM:\u{FCC9}\n\
ARABIC LIGATURE LAM WITH HAH INITIAL FORM:\u{FCCA}\n\
ARABIC LIGATURE LAM WITH KHAH INITIAL FORM:\u{FCCB}\n\
ARABIC LIGATURE LAM WITH MEEM INITIAL FORM:\u{FCCC}\n\
ARABIC LIGATURE LAM WITH HEH INITIAL FORM:\u{FCCD}\n\
ARABIC LIGATURE MEEM WITH JEEM INITIAL FORM:\u{FCCE}\n\
ARABIC LIGATURE MEEM WITH HAH INITIAL FORM:\u{FCCF}\n\
ARABIC LIGATURE MEEM WITH KHAH INITIAL FORM:\u{FCD0}\n\
ARABIC LIGATURE MEEM WITH MEEM INITIAL FORM:\u{FCD1}\n\
ARABIC LIGATURE NOON WITH JEEM INITIAL FORM:\u{FCD2}\n\
ARABIC LIGATURE NOON WITH HAH INITIAL FORM:\u{FCD3}\n\
ARABIC LIGATURE NOON WITH KHAH INITIAL FORM:\u{FCD4}\n\
ARABIC LIGATURE NOON WITH MEEM INITIAL FORM:\u{FCD5}\n\
ARABIC LIGATURE NOON WITH HEH INITIAL FORM:\u{FCD6}\n\
ARABIC LIGATURE HEH WITH JEEM INITIAL FORM:\u{FCD7}\n\
ARABIC LIGATURE HEH WITH MEEM INITIAL FORM:\u{FCD8}\n\
ARABIC LIGATURE HEH WITH SUPERSCRIPT ALEF INITIAL FORM:\u{FCD9}\n\
ARABIC LIGATURE YEH WITH JEEM INITIAL FORM:\u{FCDA}\n\
ARABIC LIGATURE YEH WITH HAH INITIAL FORM:\u{FCDB}\n\
ARABIC LIGATURE YEH WITH KHAH INITIAL FORM:\u{FCDC}\n\
ARABIC LIGATURE YEH WITH MEEM INITIAL FORM:\u{FCDD}\n\
ARABIC LIGATURE YEH WITH HEH INITIAL FORM:\u{FCDE}\n\
ARABIC LIGATURE YEH WITH HAMZA ABOVE WITH MEEM MEDIAL FORM:\u{FCDF}\n\
ARABIC LIGATURE YEH WITH HAMZA ABOVE WITH HEH MEDIAL FORM:\u{FCE0}\n\
ARABIC LIGATURE BEH WITH MEEM MEDIAL FORM:\u{FCE1}\n\
ARABIC LIGATURE BEH WITH HEH MEDIAL FORM:\u{FCE2}\n\
ARABIC LIGATURE TEH WITH MEEM MEDIAL FORM:\u{FCE3}\n\
ARABIC LIGATURE TEH WITH HEH MEDIAL FORM:\u{FCE4}\n\
ARABIC LIGATURE THEH WITH MEEM MEDIAL FORM:\u{FCE5}\n\
ARABIC LIGATURE THEH WITH HEH MEDIAL FORM:\u{FCE6}\n\
ARABIC LIGATURE SEEN WITH MEEM MEDIAL FORM:\u{FCE7}\n\
ARABIC LIGATURE SEEN WITH HEH MEDIAL FORM:\u{FCE8}\n\
ARABIC LIGATURE SHEEN WITH MEEM MEDIAL FORM:\u{FCE9}\n\
ARABIC LIGATURE SHEEN WITH HEH MEDIAL FORM:\u{FCEA}\n\
ARABIC LIGATURE KAF WITH LAM MEDIAL FORM:\u{FCEB}\n\
ARABIC LIGATURE KAF WITH MEEM MEDIAL FORM:\u{FCEC}\n\
ARABIC LIGATURE LAM WITH MEEM MEDIAL FORM:\u{FCED}\n\
ARABIC LIGATURE NOON WITH MEEM MEDIAL FORM:\u{FCEE}\n\
ARABIC LIGATURE NOON WITH HEH MEDIAL FORM:\u{FCEF}\n\
ARABIC LIGATURE YEH WITH MEEM MEDIAL FORM:\u{FCF0}\n\
ARABIC LIGATURE YEH WITH HEH MEDIAL FORM:\u{FCF1}\n\
ARABIC LIGATURE SHADDA WITH FATHA MEDIAL FORM:\u{FCF2}\n\
ARABIC LIGATURE SHADDA WITH DAMMA MEDIAL FORM:\u{FCF3}\n\
ARABIC LIGATURE SHADDA WITH KASRA MEDIAL FORM:\u{FCF4}\n\
ARABIC LIGATURE TAH WITH ALEF MAKSURA ISOLATED FORM:\u{FCF5}\n\
ARABIC LIGATURE TAH WITH YEH ISOLATED FORM:\u{FCF6}\n\
ARABIC LIGATURE AIN WITH ALEF MAKSURA ISOLATED FORM:\u{FCF7}\n\
ARABIC LIGATURE AIN WITH YEH ISOLATED FORM:\u{FCF8}\n\
ARABIC LIGATURE GHAIN WITH ALEF MAKSURA ISOLATED FORM:\u{FCF9}\n\
ARABIC LIGATURE GHAIN WITH YEH ISOLATED FORM:\u{FCFA}\n\
ARABIC LIGATURE SEEN WITH ALEF MAKSURA ISOLATED FORM:\u{FCFB}\n\
ARABIC LIGATURE SEEN WITH YEH ISOLATED FORM:\u{FCFC}\n\
ARABIC LIGATURE SHEEN WITH ALEF MAKSURA ISOLATED FORM:\u{FCFD}\n\
ARABIC LIGATURE SHEEN WITH YEH ISOLATED FORM:\u{FCFE}\n\
ARABIC LIGATURE HAH WITH ALEF MAKSURA ISOLATED FORM:\u{FCFF}\n\
ARABIC LIGATURE HAH WITH YEH ISOLATED FORM:\u{FD00}\n\
ARABIC LIGATURE JEEM WITH ALEF MAKSURA ISOLATED FORM:\u{FD01}\n\
ARABIC LIGATURE JEEM WITH YEH ISOLATED FORM:\u{FD02}\n\
ARABIC LIGATURE KHAH WITH ALEF MAKSURA ISOLATED FORM:\u{FD03}\n\
ARABIC LIGATURE KHAH WITH YEH ISOLATED FORM:\u{FD04}\n\
ARABIC LIGATURE SAD WITH ALEF MAKSURA ISOLATED FORM:\u{FD05}\n\
ARABIC LIGATURE SAD WITH YEH ISOLATED FORM:\u{FD06}\n\
ARABIC LIGATURE DAD WITH ALEF MAKSURA ISOLATED FORM:\u{FD07}\n\
ARABIC LIGATURE DAD WITH YEH ISOLATED FORM:\u{FD08}\n\
ARABIC LIGATURE SHEEN WITH JEEM ISOLATED FORM:\u{FD09}\n\
ARABIC LIGATURE SHEEN WITH HAH ISOLATED FORM:\u{FD0A}\n\
ARABIC LIGATURE SHEEN WITH KHAH ISOLATED FORM:\u{FD0B}\n\
ARABIC LIGATURE SHEEN WITH MEEM ISOLATED FORM:\u{FD0C}\n\
ARABIC LIGATURE SHEEN WITH REH ISOLATED FORM:\u{FD0D}\n\
ARABIC LIGATURE SEEN WITH REH ISOLATED FORM:\u{FD0E}\n\
ARABIC LIGATURE SAD WITH REH ISOLATED FORM:\u{FD0F}\n\
ARABIC LIGATURE DAD WITH REH ISOLATED FORM:\u{FD10}\n\
ARABIC LIGATURE TAH WITH ALEF MAKSURA FINAL FORM:\u{FD11}\n\
ARABIC LIGATURE TAH WITH YEH FINAL FORM:\u{FD12}\n\
ARABIC LIGATURE AIN WITH ALEF MAKSURA FINAL FORM:\u{FD13}\n\
ARABIC LIGATURE AIN WITH YEH FINAL FORM:\u{FD14}\n\
ARABIC LIGATURE GHAIN WITH ALEF MAKSURA FINAL FORM:\u{FD15}\n\
ARABIC LIGATURE GHAIN WITH YEH FINAL FORM:\u{FD16}\n\
ARABIC LIGATURE SEEN WITH ALEF MAKSURA FINAL FORM:\u{FD17}\n\
ARABIC LIGATURE SEEN WITH YEH FINAL FORM:\u{FD18}\n\
ARABIC LIGATURE SHEEN WITH ALEF MAKSURA FINAL FORM:\u{FD19}\n\
ARABIC LIGATURE SHEEN WITH YEH FINAL FORM:\u{FD1A}\n\
ARABIC LIGATURE HAH WITH ALEF MAKSURA FINAL FORM:\u{FD1B}\n\
ARABIC LIGATURE HAH WITH YEH FINAL FORM:\u{FD1C}\n\
ARABIC LIGATURE JEEM WITH ALEF MAKSURA FINAL FORM:\u{FD1D}\n\
ARABIC LIGATURE JEEM WITH YEH FINAL FORM:\u{FD1E}\n\
ARABIC LIGATURE KHAH WITH ALEF MAKSURA FINAL FORM:\u{FD1F}\n\
ARABIC LIGATURE KHAH WITH YEH FINAL FORM:\u{FD20}\n\
ARABIC LIGATURE SAD WITH ALEF MAKSURA FINAL FORM:\u{FD21}\n\
ARABIC LIGATURE SAD WITH YEH FINAL FORM:\u{FD22}\n\
ARABIC LIGATURE DAD WITH ALEF MAKSURA FINAL FORM:\u{FD23}\n\
ARABIC LIGATURE DAD WITH YEH FINAL FORM:\u{FD24}\n\
ARABIC LIGATURE SHEEN WITH JEEM FINAL FORM:\u{FD25}\n\
ARABIC LIGATURE SHEEN WITH HAH FINAL FORM:\u{FD26}\n\
ARABIC LIGATURE SHEEN WITH KHAH FINAL FORM:\u{FD27}\n\
ARABIC LIGATURE SHEEN WITH MEEM FINAL FORM:\u{FD28}\n\
ARABIC LIGATURE SHEEN WITH REH FINAL FORM:\u{FD29}\n\
ARABIC LIGATURE SEEN WITH REH FINAL FORM:\u{FD2A}\n\
ARABIC LIGATURE SAD WITH REH FINAL FORM:\u{FD2B}\n\
ARABIC LIGATURE DAD WITH REH FINAL FORM:\u{FD2C}\n\
ARABIC LIGATURE SHEEN WITH JEEM INITIAL FORM:\u{FD2D}\n\
ARABIC LIGATURE SHEEN WITH HAH INITIAL FORM:\u{FD2E}\n\
ARABIC LIGATURE SHEEN WITH KHAH INITIAL FORM:\u{FD2F}\n\
ARABIC LIGATURE SHEEN WITH MEEM INITIAL FORM:\u{FD30}\n\
ARABIC LIGATURE SEEN WITH HEH INITIAL FORM:\u{FD31}\n\
ARABIC LIGATURE SHEEN WITH HEH INITIAL FORM:\u{FD32}\n\
ARABIC LIGATURE TAH WITH MEEM INITIAL FORM:\u{FD33}\n\
ARABIC LIGATURE SEEN WITH JEEM MEDIAL FORM:\u{FD34}\n\
ARABIC LIGATURE SEEN WITH HAH MEDIAL FORM:\u{FD35}\n\
ARABIC LIGATURE SEEN WITH KHAH MEDIAL FORM:\u{FD36}\n\
ARABIC LIGATURE SHEEN WITH JEEM MEDIAL FORM:\u{FD37}\n\
ARABIC LIGATURE SHEEN WITH HAH MEDIAL FORM:\u{FD38}\n\
ARABIC LIGATURE SHEEN WITH KHAH MEDIAL FORM:\u{FD39}\n\
ARABIC LIGATURE TAH WITH MEEM MEDIAL FORM:\u{FD3A}\n\
ARABIC LIGATURE ZAH WITH MEEM MEDIAL FORM:\u{FD3B}\n\
ARABIC LIGATURE ALEF WITH FATHATAN FINAL FORM:\u{FD3C}\n\
ARABIC LIGATURE ALEF WITH FATHATAN ISOLATED FORM:\u{FD3D}\n\
ORNATE LEFT PARENTHESIS:\u{FD3E}\n\
ORNATE RIGHT PARENTHESIS:\u{FD3F}\n\
ARABIC LIGATURE RAHIMAHU ALLAAH:\u{FD40}\n\
ARABIC LIGATURE RADI ALLAAHU ANH:\u{FD41}\n\
ARABIC LIGATURE RADI ALLAAHU ANHAA:\u{FD42}\n\
ARABIC LIGATURE RADI ALLAAHU ANHUM:\u{FD43}\n\
ARABIC LIGATURE RADI ALLAAHU ANHUMAA:\u{FD44}\n\
ARABIC LIGATURE RADI ALLAAHU ANHUNNA:\u{FD45}\n\
ARABIC LIGATURE SALLALLAAHU ALAYHI WA-AALIH:\u{FD46}\n\
ARABIC LIGATURE ALAYHI AS-SALAAM:\u{FD47}\n\
ARABIC LIGATURE ALAYHIM AS-SALAAM:\u{FD48}\n\
ARABIC LIGATURE ALAYHIMAA AS-SALAAM:\u{FD49}\n\
ARABIC LIGATURE ALAYHI AS-SALAATU WAS-SALAAM:\u{FD4A}\n\
ARABIC LIGATURE QUDDISA SIRRAH:\u{FD4B}\n\
ARABIC LIGATURE SALLALLAHU ALAYHI WAAALIHEE WA-SALLAM:\u{FD4C}\n\
ARABIC LIGATURE ALAYHAA AS-SALAAM:\u{FD4D}\n\
ARABIC LIGATURE TABAARAKA WA-TAAALAA:\u{FD4E}\n\
ARABIC LIGATURE RAHIMAHUM ALLAAH:\u{FD4F}\n\
ARABIC LIGATURE TEH WITH JEEM WITH MEEM INITIAL FORM:\u{FD50}\n\
ARABIC LIGATURE TEH WITH HAH WITH JEEM FINAL FORM:\u{FD51}\n\
ARABIC LIGATURE TEH WITH HAH WITH JEEM INITIAL FORM:\u{FD52}\n\
ARABIC LIGATURE TEH WITH HAH WITH MEEM INITIAL FORM:\u{FD53}\n\
ARABIC LIGATURE TEH WITH KHAH WITH MEEM INITIAL FORM:\u{FD54}\n\
ARABIC LIGATURE TEH WITH MEEM WITH JEEM INITIAL FORM:\u{FD55}\n\
ARABIC LIGATURE TEH WITH MEEM WITH HAH INITIAL FORM:\u{FD56}\n\
ARABIC LIGATURE TEH WITH MEEM WITH KHAH INITIAL FORM:\u{FD57}\n\
ARABIC LIGATURE JEEM WITH MEEM WITH HAH FINAL FORM:\u{FD58}\n\
ARABIC LIGATURE JEEM WITH MEEM WITH HAH INITIAL FORM:\u{FD59}\n\
ARABIC LIGATURE HAH WITH MEEM WITH YEH FINAL FORM:\u{FD5A}\n\
ARABIC LIGATURE HAH WITH MEEM WITH ALEF MAKSURA FINAL FORM:\u{FD5B}\n\
ARABIC LIGATURE SEEN WITH HAH WITH JEEM INITIAL FORM:\u{FD5C}\n\
ARABIC LIGATURE SEEN WITH JEEM WITH HAH INITIAL FORM:\u{FD5D}\n\
ARABIC LIGATURE SEEN WITH JEEM WITH ALEF MAKSURA FINAL FORM:\u{FD5E}\n\
ARABIC LIGATURE SEEN WITH MEEM WITH HAH FINAL FORM:\u{FD5F}\n\
ARABIC LIGATURE SEEN WITH MEEM WITH HAH INITIAL FORM:\u{FD60}\n\
ARABIC LIGATURE SEEN WITH MEEM WITH JEEM INITIAL FORM:\u{FD61}\n\
ARABIC LIGATURE SEEN WITH MEEM WITH MEEM FINAL FORM:\u{FD62}\n\
ARABIC LIGATURE SEEN WITH MEEM WITH MEEM INITIAL FORM:\u{FD63}\n\
ARABIC LIGATURE SAD WITH HAH WITH HAH FINAL FORM:\u{FD64}\n\
ARABIC LIGATURE SAD WITH HAH WITH HAH INITIAL FORM:\u{FD65}\n\
ARABIC LIGATURE SAD WITH MEEM WITH MEEM FINAL FORM:\u{FD66}\n\
ARABIC LIGATURE SHEEN WITH HAH WITH MEEM FINAL FORM:\u{FD67}\n\
ARABIC LIGATURE SHEEN WITH HAH WITH MEEM INITIAL FORM:\u{FD68}\n\
ARABIC LIGATURE SHEEN WITH JEEM WITH YEH FINAL FORM:\u{FD69}\n\
ARABIC LIGATURE SHEEN WITH MEEM WITH KHAH FINAL FORM:\u{FD6A}\n\
ARABIC LIGATURE SHEEN WITH MEEM WITH KHAH INITIAL FORM:\u{FD6B}\n\
ARABIC LIGATURE SHEEN WITH MEEM WITH MEEM FINAL FORM:\u{FD6C}\n\
ARABIC LIGATURE SHEEN WITH MEEM WITH MEEM INITIAL FORM:\u{FD6D}\n\
ARABIC LIGATURE DAD WITH HAH WITH ALEF MAKSURA FINAL FORM:\u{FD6E}\n\
ARABIC LIGATURE DAD WITH KHAH WITH MEEM FINAL FORM:\u{FD6F}\n\
ARABIC LIGATURE DAD WITH KHAH WITH MEEM INITIAL FORM:\u{FD70}\n\
ARABIC LIGATURE TAH WITH MEEM WITH HAH FINAL FORM:\u{FD71}\n\
ARABIC LIGATURE TAH WITH MEEM WITH HAH INITIAL FORM:\u{FD72}\n\
ARABIC LIGATURE TAH WITH MEEM WITH MEEM INITIAL FORM:\u{FD73}\n\
ARABIC LIGATURE TAH WITH MEEM WITH YEH FINAL FORM:\u{FD74}\n\
ARABIC LIGATURE AIN WITH JEEM WITH MEEM FINAL FORM:\u{FD75}\n\
ARABIC LIGATURE AIN WITH MEEM WITH MEEM FINAL FORM:\u{FD76}\n\
ARABIC LIGATURE AIN WITH MEEM WITH MEEM INITIAL FORM:\u{FD77}\n";

pub const NAMES_40: &'static str = "ARABIC LIGATURE AIN WITH MEEM WITH ALEF MAKSURA FINAL FORM:\u{FD78}\n\
ARABIC LIGATURE GHAIN WITH MEEM WITH MEEM FINAL FORM:\u{FD79}\n\
ARABIC LIGATURE GHAIN WITH MEEM WITH YEH FINAL FORM:\u{FD7A}\n\
ARABIC LIGATURE GHAIN WITH MEEM WITH ALEF MAKSURA FINAL FORM:\u{FD7B}\n\
ARABIC LIGATURE FEH WITH KHAH WITH MEEM FINAL FORM:\u{FD7C}\n\
ARABIC LIGATURE FEH WITH KHAH WITH MEEM INITIAL FORM:\u{FD7D}\n\
ARABIC LIGATURE QAF WITH MEEM WITH HAH FINAL FORM:\u{FD7E}\n\
ARABIC LIGATURE QAF WITH MEEM WITH MEEM FINAL FORM:\u{FD7F}\n\
ARABIC LIGATURE LAM WITH HAH WITH MEEM FINAL FORM:\u{FD80}\n\
ARABIC LIGATURE LAM WITH HAH WITH YEH FINAL FORM:\u{FD81}\n\
ARABIC LIGATURE LAM WITH HAH WITH ALEF MAKSURA FINAL FORM:\u{FD82}\n\
ARABIC LIGATURE LAM WITH JEEM WITH JEEM INITIAL FORM:\u{FD83}\n\
ARABIC LIGATURE LAM WITH JEEM WITH JEEM FINAL FORM:\u{FD84}\n\
ARABIC LIGATURE LAM WITH KHAH WITH MEEM FINAL FORM:\u{FD85}\n\
ARABIC LIGATURE LAM WITH KHAH WITH MEEM INITIAL FORM:\u{FD86}\n\
ARABIC LIGATURE LAM WITH MEEM WITH HAH FINAL FORM:\u{FD87}\n\
ARABIC LIGATURE LAM WITH MEEM WITH HAH INITIAL FORM:\u{FD88}\n\
ARABIC LIGATURE MEEM WITH HAH WITH JEEM INITIAL FORM:\u{FD89}\n\
ARABIC LIGATURE MEEM WITH HAH WITH MEEM INITIAL FORM:\u{FD8A}\n\
ARABIC LIGATURE MEEM WITH HAH WITH YEH FINAL FORM:\u{FD8B}\n\
ARABIC LIGATURE MEEM WITH JEEM WITH HAH INITIAL FORM:\u{FD8C}\n\
ARABIC LIGATURE MEEM WITH JEEM WITH MEEM INITIAL FORM:\u{FD8D}\n\
ARABIC LIGATURE MEEM WITH KHAH WITH JEEM INITIAL FORM:\u{FD8E}\n\
ARABIC LIGATURE MEEM WITH KHAH WITH MEEM INITIAL FORM:\u{FD8F}\n\
ARABIC LIGATURE MEEM WITH JEEM WITH KHAH INITIAL FORM:\u{FD92}\n\
ARABIC LIGATURE HEH WITH MEEM WITH JEEM INITIAL FORM:\u{FD93}\n\
ARABIC LIGATURE HEH WITH MEEM WITH MEEM INITIAL FORM:\u{FD94}\n\
ARABIC LIGATURE NOON WITH HAH WITH MEEM INITIAL FORM:\u{FD95}\n\
ARABIC LIGATURE NOON WITH HAH WITH ALEF MAKSURA FINAL FORM:\u{FD96}\n\
ARABIC LIGATURE NOON WITH JEEM WITH MEEM FINAL FORM:\u{FD97}\n\
ARABIC LIGATURE NOON WITH JEEM WITH MEEM INITIAL FORM:\u{FD98}\n\
ARABIC LIGATURE NOON WITH JEEM WITH ALEF MAKSURA FINAL FORM:\u{FD99}\n\
ARABIC LIGATURE NOON WITH MEEM WITH YEH FINAL FORM:\u{FD9A}\n\
ARABIC LIGATURE NOON WITH MEEM WITH ALEF MAKSURA FINAL FORM:\u{FD9B}\n\
ARABIC LIGATURE YEH WITH MEEM WITH MEEM FINAL FORM:\u{FD9C}\n\
ARABIC LIGATURE YEH WITH MEEM WITH MEEM INITIAL FORM:\u{FD9D}\n\
ARABIC LIGATURE BEH WITH KHAH WITH YEH FINAL FORM:\u{FD9E}\n\
ARABIC LIGATURE TEH WITH JEEM WITH YEH FINAL FORM:\u{FD9F}\n\
ARABIC LIGATURE TEH WITH JEEM WITH ALEF MAKSURA FINAL FORM:\u{FDA0}\n\
ARABIC LIGATURE TEH WITH KHAH WITH YEH FINAL FORM:\u{FDA1}\n\
ARABIC LIGATURE TEH WITH KHAH WITH ALEF MAKSURA FINAL FORM:\u{FDA2}\n\
ARABIC LIGATURE TEH WITH MEEM WITH YEH FINAL FORM:\u{FDA3}\n\
ARABIC LIGATURE TEH WITH MEEM WITH ALEF MAKSURA FINAL FORM:\u{FDA4}\n\
ARABIC LIGATURE JEEM WITH MEEM WITH YEH FINAL FORM:\u{FDA5}\n\
ARABIC LIGATURE JEEM WITH HAH WITH ALEF MAKSURA FINAL FORM:\u{FDA6}\n\
ARABIC LIGATURE JEEM WITH MEEM WITH ALEF MAKSURA FINAL FORM:\u{FDA7}\n\
ARABIC LIGATURE SEEN WITH KHAH WITH ALEF MAKSURA FINAL FORM:\u{FDA8}\n\
ARABIC LIGATURE SAD WITH HAH WITH YEH FINAL FORM:\u{FDA9}\n\
ARABIC LIGATURE SHEEN WITH HAH WITH YEH FINAL FORM:\u{FDAA}\n\
ARABIC LIGATURE DAD WITH HAH WITH YEH FINAL FORM:\u{FDAB}\n\
ARABIC LIGATURE LAM WITH JEEM WITH YEH FINAL FORM:\u{FDAC}\n\
ARABIC LIGATURE LAM WITH MEEM WITH YEH FINAL FORM:\u{FDAD}\n\
ARABIC LIGATURE YEH WITH HAH WITH YEH FINAL FORM:\u{FDAE}\n\
ARABIC LIGATURE YEH WITH JEEM WITH YEH FINAL FORM:\u{FDAF}\n\
ARABIC LIGATURE YEH WITH MEEM WITH YEH FINAL FORM:\u{FDB0}\n\
ARABIC LIGATURE MEEM WITH MEEM WITH YEH FINAL FORM:\u{FDB1}\n\
ARABIC LIGATURE QAF WITH MEEM WITH YEH FINAL FORM:\u{FDB2}\n\
ARABIC LIGATURE NOON WITH HAH WITH YEH FINAL FORM:\u{FDB3}\n\
ARABIC LIGATURE QAF WITH MEEM WITH HAH INITIAL FORM:\u{FDB4}\n\
ARABIC LIGATURE LAM WITH HAH WITH MEEM INITIAL FORM:\u{FDB5}\n\
ARABIC LIGATURE AIN WITH MEEM WITH YEH FINAL FORM:\u{FDB6}\n\
ARABIC LIGATURE KAF WITH MEEM WITH YEH FINAL FORM:\u{FDB7}\n\
ARABIC LIGATURE NOON WITH JEEM WITH HAH INITIAL FORM:\u{FDB8}\n\
ARABIC LIGATURE MEEM WITH KHAH WITH YEH FINAL FORM:\u{FDB9}\n\
ARABIC LIGATURE LAM WITH JEEM WITH MEEM INITIAL FORM:\u{FDBA}\n\
ARABIC LIGATURE KAF WITH MEEM WITH MEEM FINAL FORM:\u{FDBB}\n\
ARABIC LIGATURE LAM WITH JEEM WITH MEEM FINAL FORM:\u{FDBC}\n\
ARABIC LIGATURE NOON WITH JEEM WITH HAH FINAL FORM:\u{FDBD}\n\
ARABIC LIGATURE JEEM WITH HAH WITH YEH FINAL FORM:\u{FDBE}\n\
ARABIC LIGATURE HAH WITH JEEM WITH YEH FINAL FORM:\u{FDBF}\n\
ARABIC LIGATURE MEEM WITH JEEM WITH YEH FINAL FORM:\u{FDC0}\n\
ARABIC LIGATURE FEH WITH MEEM WITH YEH FINAL FORM:\u{FDC1}\n\
ARABIC LIGATURE BEH WITH HAH WITH YEH FINAL FORM:\u{FDC2}\n\
ARABIC LIGATURE KAF WITH MEEM WITH MEEM INITIAL FORM:\u{FDC3}\n\
ARABIC LIGATURE AIN WITH JEEM WITH MEEM INITIAL FORM:\u{FDC4}\n\
ARABIC LIGATURE SAD WITH MEEM WITH MEEM INITIAL FORM:\u{FDC5}\n\
ARABIC LIGATURE SEEN WITH KHAH WITH YEH FINAL FORM:\u{FDC6}\n\
ARABIC LIGATURE NOON WITH JEEM WITH YEH FINAL FORM:\u{FDC7}\n\
ARABIC LIGATURE SALAAMUHU ALAYNAA:\u{FDCF}\n\
ARABIC LIGATURE SALLA USED AS KORANIC STOP SIGN ISOLATED FORM:\u{FDF0}\n\
ARABIC LIGATURE QALA USED AS KORANIC STOP SIGN ISOLATED FORM:\u{FDF1}\n\
ARABIC LIGATURE ALLAH ISOLATED FORM:\u{FDF2}\n\
ARABIC LIGATURE AKBAR ISOLATED FORM:\u{FDF3}\n\
ARABIC LIGATURE MOHAMMAD ISOLATED FORM:\u{FDF4}\n\
ARABIC LIGATURE SALAM ISOLATED FORM:\u{FDF5}\n\
ARABIC LIGATURE RASOUL ISOLATED FORM:\u{FDF6}\n\
ARABIC LIGATURE ALAYHE ISOLATED FORM:\u{FDF7}\n\
ARABIC LIGATURE WASALLAM ISOLATED FORM:\u{FDF8}\n\
ARABIC LIGATURE SALLA ISOLATED FORM:\u{FDF9}\n\
ARABIC LIGATURE SALLALLAHOU ALAYHE WASALLAM:\u{FDFA}\n\
ARABIC LIGATURE JALLAJALALOUHOU:\u{FDFB}\n\
RIAL SIGN:\u{FDFC}\n\
ARABIC LIGATURE BISMILLAH AR-RAHMAN AR-RAHEEM:\u{FDFD}\n\
ARABIC LIGATURE SUBHAANAHU WA TAAALAA:\u{FDFE}\n\
ARABIC LIGATURE AZZA WA JALL:\u{FDFF}\n\
VARIATION SELECTOR-1:\u{FE00}\n\
VARIATION SELECTOR-2:\u{FE01}\n\
VARIATION SELECTOR-3:\u{FE02}\n\
VARIATION SELECTOR-4:\u{FE03}\n\
VARIATION SELECTOR-5:\u{FE04}\n\
VARIATION SELECTOR-6:\u{FE05}\n\
VARIATION SELECTOR-7:\u{FE06}\n\
VARIATION SELECTOR-8:\u{FE07}\n\
VARIATION SELECTOR-9:\u{FE08}\n\
VARIATION SELECTOR-10:\u{FE09}\n\
VARIATION SELECTOR-11:\u{FE0A}\n\
VARIATION SELECTOR-12:\u{FE0B}\n\
VARIATION SELECTOR-13:\u{FE0C}\n\
VARIATION SELECTOR-14:\u{FE0D}\n\
VARIATION SELECTOR-15:\u{FE0E}\n\
VARIATION SELECTOR-16:\u{FE0F}\n\
PRESENTATION FORM FOR VERTICAL COMMA:\u{FE10}\n\
PRESENTATION FORM FOR VERTICAL IDEOGRAPHIC COMMA:\u{FE11}\n\
PRESENTATION FORM FOR VERTICAL IDEOGRAPHIC FULL STOP:\u{FE12}\n\
PRESENTATION FORM FOR VERTICAL COLON:\u{FE13}\n\
PRESENTATION FORM FOR VERTICAL SEMICOLON:\u{FE14}\n\
PRESENTATION FORM FOR VERTICAL EXCLAMATION MARK:\u{FE15}\n\
PRESENTATION FORM FOR VERTICAL QUESTION MARK:\u{FE16}\n\
PRESENTATION FORM FOR VERTICAL LEFT WHITE LENTICULAR BRACKET:\u{FE17}\n\
PRESENTATION FORM FOR VERTICAL RIGHT WHITE LENTICULAR BRAKCET:\u{FE18}\n\
PRESENTATION FORM FOR VERTICAL HORIZONTAL ELLIPSIS:\u{FE19}\n\
COMBINING LIGATURE LEFT HALF:\u{FE20}\n\
COMBINING LIGATURE RIGHT HALF:\u{FE21}\n\
COMBINING DOUBLE TILDE LEFT HALF:\u{FE22}\n\
COMBINING DOUBLE TILDE RIGHT HALF:\u{FE23}\n\
COMBINING MACRON LEFT HALF:\u{FE24}\n\
COMBINING MACRON RIGHT HALF:\u{FE25}\n\
COMBINING CONJOINING MACRON:\u{FE26}\n\
COMBINING LIGATURE LEFT HALF BELOW:\u{FE27}\n\
COMBINING LIGATURE RIGHT HALF BELOW:\u{FE28}\n\
COMBINING TILDE LEFT HALF BELOW:\u{FE29}\n\
COMBINING TILDE RIGHT HALF BELOW:\u{FE2A}\n\
COMBINING MACRON LEFT HALF BELOW:\u{FE2B}\n\
COMBINING MACRON RIGHT HALF BELOW:\u{FE2C}\n\
COMBINING CONJOINING MACRON BELOW:\u{FE2D}\n\
COMBINING CYRILLIC TITLO LEFT HALF:\u{FE2E}\n\
COMBINING CYRILLIC TITLO RIGHT HALF:\u{FE2F}\n\
PRESENTATION FORM FOR VERTICAL TWO DOT LEADER:\u{FE30}\n\
PRESENTATION FORM FOR VERTICAL EM DASH:\u{FE31}\n\
PRESENTATION FORM FOR VERTICAL EN DASH:\u{FE32}\n\
PRESENTATION FORM FOR VERTICAL LOW LINE:\u{FE33}\n\
PRESENTATION FORM FOR VERTICAL WAVY LOW LINE:\u{FE34}\n\
PRESENTATION FORM FOR VERTICAL LEFT PARENTHESIS:\u{FE35}\n\
PRESENTATION FORM FOR VERTICAL RIGHT PARENTHESIS:\u{FE36}\n\
PRESENTATION FORM FOR VERTICAL LEFT CURLY BRACKET:\u{FE37}\n\
PRESENTATION FORM FOR VERTICAL RIGHT CURLY BRACKET:\u{FE38}\n\
PRESENTATION FORM FOR VERTICAL LEFT TORTOISE SHELL BRACKET:\u{FE39}\n\
PRESENTATION FORM FOR VERTICAL RIGHT TORTOISE SHELL BRACKET:\u{FE3A}\n\
PRESENTATION FORM FOR VERTICAL LEFT BLACK LENTICULAR BRACKET:\u{FE3B}\n\
PRESENTATION FORM FOR VERTICAL RIGHT BLACK LENTICULAR BRACKET:\u{FE3C}\n\
PRESENTATION FORM FOR VERTICAL LEFT DOUBLE ANGLE BRACKET:\u{FE3D}\n\
PRESENTATION FORM FOR VERTICAL RIGHT DOUBLE ANGLE BRACKET:\u{FE3E}\n\
PRESENTATION FORM FOR VERTICAL LEFT ANGLE BRACKET:\u{FE3F}\n\
PRESENTATION FORM FOR VERTICAL RIGHT ANGLE BRACKET:\u{FE40}\n\
PRESENTATION FORM FOR VERTICAL LEFT CORNER BRACKET:\u{FE41}\n\
PRESENTATION FORM FOR VERTICAL RIGHT CORNER BRACKET:\u{FE42}\n\
PRESENTATION FORM FOR VERTICAL LEFT WHITE CORNER BRACKET:\u{FE43}\n\
PRESENTATION FORM FOR VERTICAL RIGHT WHITE CORNER BRACKET:\u{FE44}\n\
SESAME DOT:\u{FE45}\n\
WHITE SESAME DOT:\u{FE46}\n\
PRESENTATION FORM FOR VERTICAL LEFT SQUARE BRACKET:\u{FE47}\n\
PRESENTATION FORM FOR VERTICAL RIGHT SQUARE BRACKET:\u{FE48}\n\
DASHED OVERLINE:\u{FE49}\n\
CENTRELINE OVERLINE:\u{FE4A}\n\
WAVY OVERLINE:\u{FE4B}\n\
DOUBLE WAVY OVERLINE:\u{FE4C}\n\
DASHED LOW LINE:\u{FE4D}\n\
CENTRELINE LOW LINE:\u{FE4E}\n\
WAVY LOW LINE:\u{FE4F}\n\
SMALL COMMA:\u{FE50}\n\
SMALL IDEOGRAPHIC COMMA:\u{FE51}\n\
SMALL FULL STOP:\u{FE52}\n\
SMALL SEMICOLON:\u{FE54}\n\
SMALL COLON:\u{FE55}\n\
SMALL QUESTION MARK:\u{FE56}\n\
SMALL EXCLAMATION MARK:\u{FE57}\n\
SMALL EM DASH:\u{FE58}\n\
SMALL LEFT PARENTHESIS:\u{FE59}\n\
SMALL RIGHT PARENTHESIS:\u{FE5A}\n\
SMALL LEFT CURLY BRACKET:\u{FE5B}\n\
SMALL RIGHT CURLY BRACKET:\u{FE5C}\n\
SMALL LEFT TORTOISE SHELL BRACKET:\u{FE5D}\n\
SMALL RIGHT TORTOISE SHELL BRACKET:\u{FE5E}\n\
SMALL NUMBER SIGN:\u{FE5F}\n\
SMALL AMPERSAND:\u{FE60}\n\
SMALL ASTERISK:\u{FE61}\n\
SMALL PLUS SIGN:\u{FE62}\n\
SMALL HYPHEN-MINUS:\u{FE63}\n\
SMALL LESS-THAN SIGN:\u{FE64}\n\
SMALL GREATER-THAN SIGN:\u{FE65}\n\
SMALL EQUALS SIGN:\u{FE66}\n\
SMALL REVERSE SOLIDUS:\u{FE68}\n\
SMALL DOLLAR SIGN:\u{FE69}\n\
SMALL PERCENT SIGN:\u{FE6A}\n\
SMALL COMMERCIAL AT:\u{FE6B}\n\
ARABIC FATHATAN ISOLATED FORM:\u{FE70}\n\
ARABIC TATWEEL WITH FATHATAN ABOVE:\u{FE71}\n\
ARABIC DAMMATAN ISOLATED FORM:\u{FE72}\n\
ARABIC TAIL FRAGMENT:\u{FE73}\n\
ARABIC KASRATAN ISOLATED FORM:\u{FE74}\n\
ARABIC FATHA ISOLATED FORM:\u{FE76}\n\
ARABIC FATHA MEDIAL FORM:\u{FE77}\n\
ARABIC DAMMA ISOLATED FORM:\u{FE78}\n\
ARABIC DAMMA MEDIAL FORM:\u{FE79}\n\
ARABIC KASRA ISOLATED FORM:\u{FE7A}\n\
ARABIC KASRA MEDIAL FORM:\u{FE7B}\n\
ARABIC SHADDA ISOLATED FORM:\u{FE7C}\n\
ARABIC SHADDA MEDIAL FORM:\u{FE7D}\n\
ARABIC SUKUN ISOLATED FORM:\u{FE7E}\n\
ARABIC SUKUN MEDIAL FORM:\u{FE7F}\n\
ARABIC LETTER HAMZA ISOLATED FORM:\u{FE80}\n\
ARABIC LETTER ALEF WITH MADDA ABOVE ISOLATED FORM:\u{FE81}\n\
ARABIC LETTER ALEF WITH MADDA ABOVE FINAL FORM:\u{FE82}\n\
ARABIC LETTER ALEF WITH HAMZA ABOVE ISOLATED FORM:\u{FE83}\n\
ARABIC LETTER ALEF WITH HAMZA ABOVE FINAL FORM:\u{FE84}\n\
ARABIC LETTER WAW WITH HAMZA ABOVE ISOLATED FORM:\u{FE85}\n\
ARABIC LETTER WAW WITH HAMZA ABOVE FINAL FORM:\u{FE86}\n\
ARABIC LETTER ALEF WITH HAMZA BELOW ISOLATED FORM:\u{FE87}\n\
ARABIC LETTER ALEF WITH HAMZA BELOW FINAL FORM:\u{FE88}\n\
ARABIC LETTER YEH WITH HAMZA ABOVE ISOLATED FORM:\u{FE89}\n\
ARABIC LETTER YEH WITH HAMZA ABOVE FINAL FORM:\u{FE8A}\n\
ARABIC LETTER YEH WITH HAMZA ABOVE INITIAL FORM:\u{FE8B}\n\
ARABIC LETTER YEH WITH HAMZA ABOVE MEDIAL FORM:\u{FE8C}\n\
ARABIC LETTER ALEF ISOLATED FORM:\u{FE8D}\n\
ARABIC LETTER ALEF FINAL FORM:\u{FE8E}\n\
ARABIC LETTER BEH ISOLATED FORM:\u{FE8F}\n\
ARABIC LETTER BEH FINAL FORM:\u{FE90}\n\
ARABIC LETTER BEH INITIAL FORM:\u{FE91}\n\
ARABIC LETTER BEH MEDIAL FORM:\u{FE92}\n\
ARABIC LETTER TEH MARBUTA ISOLATED FORM:\u{FE93}\n\
ARABIC LETTER TEH MARBUTA FINAL FORM:\u{FE94}\n\
ARABIC LETTER TEH ISOLATED FORM:\u{FE95}\n\
ARABIC LETTER TEH FINAL FORM:\u{FE96}\n\
ARABIC LETTER TEH INITIAL FORM:\u{FE97}\n\
ARABIC LETTER TEH MEDIAL FORM:\u{FE98}\n\
ARABIC LETTER THEH ISOLATED FORM:\u{FE99}\n\
ARABIC LETTER THEH FINAL FORM:\u{FE9A}\n\
ARABIC LETTER THEH INITIAL FORM:\u{FE9B}\n\
ARABIC LETTER THEH MEDIAL FORM:\u{FE9C}\n\
ARABIC LETTER JEEM ISOLATED FORM:\u{FE9D}\n\
ARABIC LETTER JEEM FINAL FORM:\u{FE9E}\n\
ARABIC LETTER JEEM INITIAL FORM:\u{FE9F}\n\
ARABIC LETTER JEEM MEDIAL FORM:\u{FEA0}\n\
ARABIC LETTER HAH ISOLATED FORM:\u{FEA1}\n\
ARABIC LETTER HAH FINAL FORM:\u{FEA2}\n\
ARABIC LETTER HAH INITIAL FORM:\u{FEA3}\n\
ARABIC LETTER HAH MEDIAL FORM:\u{FEA4}\n\
ARABIC LETTER KHAH ISOLATED FORM:\u{FEA5}\n\
ARABIC LETTER KHAH FINAL FORM:\u{FEA6}\n\
ARABIC LETTER KHAH INITIAL FORM:\u{FEA7}\n\
ARABIC LETTER KHAH MEDIAL FORM:\u{FEA8}\n\
ARABIC LETTER DAL ISOLATED FORM:\u{FEA9}\n\
ARABIC LETTER DAL FINAL FORM:\u{FEAA}\n\
ARABIC LETTER THAL ISOLATED FORM:\u{FEAB}\n\
ARABIC LETTER THAL FINAL FORM:\u{FEAC}\n\
ARABIC LETTER REH ISOLATED FORM:\u{FEAD}\n\
ARABIC LETTER REH FINAL FORM:\u{FEAE}\n\
ARABIC LETTER ZAIN ISOLATED FORM:\u{FEAF}\n\
ARABIC LETTER ZAIN FINAL FORM:\u{FEB0}\n\
ARABIC LETTER SEEN ISOLATED FORM:\u{FEB1}\n\
ARABIC LETTER SEEN FINAL FORM:\u{FEB2}\n\
ARABIC LETTER SEEN INITIAL FORM:\u{FEB3}\n\
ARABIC LETTER SEEN MEDIAL FORM:\u{FEB4}\n\
ARABIC LETTER SHEEN ISOLATED FORM:\u{FEB5}\n\
ARABIC LETTER SHEEN FINAL FORM:\u{FEB6}\n\
ARABIC LETTER SHEEN INITIAL FORM:\u{FEB7}\n\
ARABIC LETTER SHEEN MEDIAL FORM:\u{FEB8}\n\
ARABIC LETTER SAD ISOLATED FORM:\u{FEB9}\n\
ARABIC LETTER SAD FINAL FORM:\u{FEBA}\n\
ARABIC LETTER SAD INITIAL FORM:\u{FEBB}\n\
ARABIC LETTER SAD MEDIAL FORM:\u{FEBC}\n\
ARABIC LETTER DAD ISOLATED FORM:\u{FEBD}\n\
ARABIC LETTER DAD FINAL FORM:\u{FEBE}\n\
ARABIC LETTER DAD INITIAL FORM:\u{FEBF}\n\
ARABIC LETTER DAD MEDIAL FORM:\u{FEC0}\n\
ARABIC LETTER TAH ISOLATED FORM:\u{FEC1}\n\
ARABIC LETTER TAH FINAL FORM:\u{FEC2}\n\
ARABIC LETTER TAH INITIAL FORM:\u{FEC3}\n\
ARABIC LETTER TAH MEDIAL FORM:\u{FEC4}\n\
ARABIC LETTER ZAH ISOLATED FORM:\u{FEC5}\n\
ARABIC LETTER ZAH FINAL FORM:\u{FEC6}\n\
ARABIC LETTER ZAH INITIAL FORM:\u{FEC7}\n\
ARABIC LETTER ZAH MEDIAL FORM:\u{FEC8}\n\
ARABIC LETTER AIN ISOLATED FORM:\u{FEC9}\n\
ARABIC LETTER AIN FINAL FORM:\u{FECA}\n\
ARABIC LETTER AIN INITIAL FORM:\u{FECB}\n\
ARABIC LETTER AIN MEDIAL FORM:\u{FECC}\n\
ARABIC LETTER GHAIN ISOLATED FORM:\u{FECD}\n\
ARABIC LETTER GHAIN FINAL FORM:\u{FECE}\n\
ARABIC LETTER GHAIN INITIAL FORM:\u{FECF}\n\
ARABIC LETTER GHAIN MEDIAL FORM:\u{FED0}\n\
ARABIC LETTER FEH ISOLATED FORM:\u{FED1}\n\
ARABIC LETTER FEH FINAL FORM:\u{FED2}\n\
ARABIC LETTER FEH INITIAL FORM:\u{FED3}\n\
ARABIC LETTER FEH MEDIAL FORM:\u{FED4}\n\
ARABIC LETTER QAF ISOLATED FORM:\u{FED5}\n\
ARABIC LETTER QAF FINAL FORM:\u{FED6}\n\
ARABIC LETTER QAF INITIAL FORM:\u{FED7}\n\
ARABIC LETTER QAF MEDIAL FORM:\u{FED8}\n\
ARABIC LETTER KAF ISOLATED FORM:\u{FED9}\n";

pub const NAMES_41: &'static str = "ARABIC LETTER KAF FINAL FORM:\u{FEDA}\n\
ARABIC LETTER KAF INITIAL FORM:\u{FEDB}\n\
ARABIC LETTER KAF MEDIAL FORM:\u{FEDC}\n\
ARABIC LETTER LAM ISOLATED FORM:\u{FEDD}\n\
ARABIC LETTER LAM FINAL FORM:\u{FEDE}\n\
ARABIC LETTER LAM INITIAL FORM:\u{FEDF}\n\
ARABIC LETTER LAM MEDIAL FORM:\u{FEE0}\n\
ARABIC LETTER MEEM ISOLATED FORM:\u{FEE1}\n\
ARABIC LETTER MEEM FINAL FORM:\u{FEE2}\n\
ARABIC LETTER MEEM INITIAL FORM:\u{FEE3}\n\
ARABIC LETTER MEEM MEDIAL FORM:\u{FEE4}\n\
ARABIC LETTER NOON ISOLATED FORM:\u{FEE5}\n\
ARABIC LETTER NOON FINAL FORM:\u{FEE6}\n\
ARABIC LETTER NOON INITIAL FORM:\u{FEE7}\n\
ARABIC LETTER NOON MEDIAL FORM:\u{FEE8}\n\
ARABIC LETTER HEH ISOLATED FORM:\u{FEE9}\n\
ARABIC LETTER HEH FINAL FORM:\u{FEEA}\n\
ARABIC LETTER HEH INITIAL FORM:\u{FEEB}\n\
ARABIC LETTER HEH MEDIAL FORM:\u{FEEC}\n\
ARABIC LETTER WAW ISOLATED FORM:\u{FEED}\n\
ARABIC LETTER WAW FINAL FORM:\u{FEEE}\n\
ARABIC LETTER ALEF MAKSURA ISOLATED FORM:\u{FEEF}\n\
ARABIC LETTER ALEF MAKSURA FINAL FORM:\u{FEF0}\n\
ARABIC LETTER YEH ISOLATED FORM:\u{FEF1}\n\
ARABIC LETTER YEH FINAL FORM:\u{FEF2}\n\
ARABIC LETTER YEH INITIAL FORM:\u{FEF3}\n\
ARABIC LETTER YEH MEDIAL FORM:\u{FEF4}\n\
ARABIC LIGATURE LAM WITH ALEF WITH MADDA ABOVE ISOLATED FORM:\u{FEF5}\n\
ARABIC LIGATURE LAM WITH ALEF WITH MADDA ABOVE FINAL FORM:\u{FEF6}\n\
ARABIC LIGATURE LAM WITH ALEF WITH HAMZA ABOVE ISOLATED FORM:\u{FEF7}\n\
ARABIC LIGATURE LAM WITH ALEF WITH HAMZA ABOVE FINAL FORM:\u{FEF8}\n\
ARABIC LIGATURE LAM WITH ALEF WITH HAMZA BELOW ISOLATED FORM:\u{FEF9}\n\
ARABIC LIGATURE LAM WITH ALEF WITH HAMZA BELOW FINAL FORM:\u{FEFA}\n\
ARABIC LIGATURE LAM WITH ALEF ISOLATED FORM:\u{FEFB}\n\
ARABIC LIGATURE LAM WITH ALEF FINAL FORM:\u{FEFC}\n\
ZERO WIDTH NO-BREAK SPACE:\u{FEFF}\n\
FULLWIDTH EXCLAMATION MARK:\u{FF01}\n\
FULLWIDTH QUOTATION MARK:\u{FF02}\n\
FULLWIDTH NUMBER SIGN:\u{FF03}\n\
FULLWIDTH DOLLAR SIGN:\u{FF04}\n\
FULLWIDTH PERCENT SIGN:\u{FF05}\n\
FULLWIDTH AMPERSAND:\u{FF06}\n\
FULLWIDTH APOSTROPHE:\u{FF07}\n\
FULLWIDTH LEFT PARENTHESIS:\u{FF08}\n\
FULLWIDTH RIGHT PARENTHESIS:\u{FF09}\n\
FULLWIDTH ASTERISK:\u{FF0A}\n\
FULLWIDTH PLUS SIGN:\u{FF0B}\n\
FULLWIDTH COMMA:\u{FF0C}\n\
FULLWIDTH HYPHEN-MINUS:\u{FF0D}\n\
FULLWIDTH FULL STOP:\u{FF0E}\n\
FULLWIDTH SOLIDUS:\u{FF0F}\n\
FULLWIDTH DIGIT ZERO:\u{FF10}\n\
FULLWIDTH DIGIT ONE:\u{FF11}\n\
FULLWIDTH DIGIT TWO:\u{FF12}\n\
FULLWIDTH DIGIT THREE:\u{FF13}\n\
FULLWIDTH DIGIT FOUR:\u{FF14}\n\
FULLWIDTH DIGIT FIVE:\u{FF15}\n\
FULLWIDTH DIGIT SIX:\u{FF16}\n\
FULLWIDTH DIGIT SEVEN:\u{FF17}\n\
FULLWIDTH DIGIT EIGHT:\u{FF18}\n\
FULLWIDTH DIGIT NINE:\u{FF19}\n\
FULLWIDTH COLON:\u{FF1A}\n\
FULLWIDTH SEMICOLON:\u{FF1B}\n\
FULLWIDTH LESS-THAN SIGN:\u{FF1C}\n\
FULLWIDTH EQUALS SIGN:\u{FF1D}\n\
FULLWIDTH GREATER-THAN SIGN:\u{FF1E}\n\
FULLWIDTH QUESTION MARK:\u{FF1F}\n\
FULLWIDTH COMMERCIAL AT:\u{FF20}\n\
FULLWIDTH LATIN CAPITAL LETTER A:\u{FF21}\n\
FULLWIDTH LATIN CAPITAL LETTER B:\u{FF22}\n\
FULLWIDTH LATIN CAPITAL LETTER C:\u{FF23}\n\
FULLWIDTH LATIN CAPITAL LETTER D:\u{FF24}\n\
FULLWIDTH LATIN CAPITAL LETTER E:\u{FF25}\n\
FULLWIDTH LATIN CAPITAL LETTER F:\u{FF26}\n\
FULLWIDTH LATIN CAPITAL LETTER G:\u{FF27}\n\
FULLWIDTH LATIN CAPITAL LETTER H:\u{FF28}\n\
FULLWIDTH LATIN CAPITAL LETTER I:\u{FF29}\n\
FULLWIDTH LATIN CAPITAL LETTER J:\u{FF2A}\n\
FULLWIDTH LATIN CAPITAL LETTER K:\u{FF2B}\n\
FULLWIDTH LATIN CAPITAL LETTER L:\u{FF2C}\n\
FULLWIDTH LATIN CAPITAL LETTER M:\u{FF2D}\n\
FULLWIDTH LATIN CAPITAL LETTER N:\u{FF2E}\n\
FULLWIDTH LATIN CAPITAL LETTER O:\u{FF2F}\n\
FULLWIDTH LATIN CAPITAL LETTER P:\u{FF30}\n\
FULLWIDTH LATIN CAPITAL LETTER Q:\u{FF31}\n\
FULLWIDTH LATIN CAPITAL LETTER R:\u{FF32}\n\
FULLWIDTH LATIN CAPITAL LETTER S:\u{FF33}\n\
FULLWIDTH LATIN CAPITAL LETTER T:\u{FF34}\n\
FULLWIDTH LATIN CAPITAL LETTER U:\u{FF35}\n\
FULLWIDTH LATIN CAPITAL LETTER V:\u{FF36}\n\
FULLWIDTH LATIN CAPITAL LETTER W:\u{FF37}\n\
FULLWIDTH LATIN CAPITAL LETTER X:\u{FF38}\n\
FULLWIDTH LATIN CAPITAL LETTER Y:\u{FF39}\n\
FULLWIDTH LATIN CAPITAL LETTER Z:\u{FF3A}\n\
FULLWIDTH LEFT SQUARE BRACKET:\u{FF3B}\n\
FULLWIDTH REVERSE SOLIDUS:\u{FF3C}\n\
FULLWIDTH RIGHT SQUARE BRACKET:\u{FF3D}\n\
FULLWIDTH CIRCUMFLEX ACCENT:\u{FF3E}\n\
FULLWIDTH LOW LINE:\u{FF3F}\n\
FULLWIDTH GRAVE ACCENT:\u{FF40}\n\
FULLWIDTH LATIN SMALL LETTER A:\u{FF41}\n\
FULLWIDTH LATIN SMALL LETTER B:\u{FF42}\n\
FULLWIDTH LATIN SMALL LETTER C:\u{FF43}\n\
FULLWIDTH LATIN SMALL LETTER D:\u{FF44}\n\
FULLWIDTH LATIN SMALL LETTER E:\u{FF45}\n\
FULLWIDTH LATIN SMALL LETTER F:\u{FF46}\n\
FULLWIDTH LATIN SMALL LETTER G:\u{FF47}\n\
FULLWIDTH LATIN SMALL LETTER H:\u{FF48}\n\
FULLWIDTH LATIN SMALL LETTER I:\u{FF49}\n\
FULLWIDTH LATIN SMALL LETTER J:\u{FF4A}\n\
FULLWIDTH LATIN SMALL LETTER K:\u{FF4B}\n\
FULLWIDTH LATIN SMALL LETTER L:\u{FF4C}\n\
FULLWIDTH LATIN SMALL LETTER M:\u{FF4D}\n\
FULLWIDTH LATIN SMALL LETTER N:\u{FF4E}\n\
FULLWIDTH LATIN SMALL LETTER O:\u{FF4F}\n\
FULLWIDTH LATIN SMALL LETTER P:\u{FF50}\n\
FULLWIDTH LATIN SMALL LETTER Q:\u{FF51}\n\
FULLWIDTH LATIN SMALL LETTER R:\u{FF52}\n\
FULLWIDTH LATIN SMALL LETTER S:\u{FF53}\n\
FULLWIDTH LATIN SMALL LETTER T:\u{FF54}\n\
FULLWIDTH LATIN SMALL LETTER U:\u{FF55}\n\
FULLWIDTH LATIN SMALL LETTER V:\u{FF56}\n\
FULLWIDTH LATIN SMALL LETTER W:\u{FF57}\n\
FULLWIDTH LATIN SMALL LETTER X:\u{FF58}\n\
FULLWIDTH LATIN SMALL LETTER Y:\u{FF59}\n\
FULLWIDTH LATIN SMALL LETTER Z:\u{FF5A}\n\
FULLWIDTH LEFT CURLY BRACKET:\u{FF5B}\n\
FULLWIDTH VERTICAL LINE:\u{FF5C}\n\
FULLWIDTH RIGHT CURLY BRACKET:\u{FF5D}\n\
FULLWIDTH TILDE:\u{FF5E}\n\
FULLWIDTH LEFT WHITE PARENTHESIS:\u{FF5F}\n\
FULLWIDTH RIGHT WHITE PARENTHESIS:\u{FF60}\n\
HALFWIDTH IDEOGRAPHIC FULL STOP:\u{FF61}\n\
HALFWIDTH LEFT CORNER BRACKET:\u{FF62}\n\
HALFWIDTH RIGHT CORNER BRACKET:\u{FF63}\n\
HALFWIDTH IDEOGRAPHIC COMMA:\u{FF64}\n\
HALFWIDTH KATAKANA MIDDLE DOT:\u{FF65}\n\
HALFWIDTH KATAKANA LETTER WO:\u{FF66}\n\
HALFWIDTH KATAKANA LETTER SMALL A:\u{FF67}\n\
HALFWIDTH KATAKANA LETTER SMALL I:\u{FF68}\n\
HALFWIDTH KATAKANA LETTER SMALL U:\u{FF69}\n\
HALFWIDTH KATAKANA LETTER SMALL E:\u{FF6A}\n\
HALFWIDTH KATAKANA LETTER SMALL O:\u{FF6B}\n\
HALFWIDTH KATAKANA LETTER SMALL YA:\u{FF6C}\n\
HALFWIDTH KATAKANA LETTER SMALL YU:\u{FF6D}\n\
HALFWIDTH KATAKANA LETTER SMALL YO:\u{FF6E}\n\
HALFWIDTH KATAKANA LETTER SMALL TU:\u{FF6F}\n\
HALFWIDTH KATAKANA-HIRAGANA PROLONGED SOUND MARK:\u{FF70}\n\
HALFWIDTH KATAKANA LETTER A:\u{FF71}\n\
HALFWIDTH KATAKANA LETTER I:\u{FF72}\n\
HALFWIDTH KATAKANA LETTER U:\u{FF73}\n\
HALFWIDTH KATAKANA LETTER E:\u{FF74}\n\
HALFWIDTH KATAKANA LETTER O:\u{FF75}\n\
HALFWIDTH KATAKANA LETTER KA:\u{FF76}\n\
HALFWIDTH KATAKANA LETTER KI:\u{FF77}\n\
HALFWIDTH KATAKANA LETTER KU:\u{FF78}\n\
HALFWIDTH KATAKANA LETTER KE:\u{FF79}\n\
HALFWIDTH KATAKANA LETTER KO:\u{FF7A}\n\
HALFWIDTH KATAKANA LETTER SA:\u{FF7B}\n\
HALFWIDTH KATAKANA LETTER SI:\u{FF7C}\n\
HALFWIDTH KATAKANA LETTER SU:\u{FF7D}\n\
HALFWIDTH KATAKANA LETTER SE:\u{FF7E}\n\
HALFWIDTH KATAKANA LETTER SO:\u{FF7F}\n\
HALFWIDTH KATAKANA LETTER TA:\u{FF80}\n\
HALFWIDTH KATAKANA LETTER TI:\u{FF81}\n\
HALFWIDTH KATAKANA LETTER TU:\u{FF82}\n\
HALFWIDTH KATAKANA LETTER TE:\u{FF83}\n\
HALFWIDTH KATAKANA LETTER TO:\u{FF84}\n\
HALFWIDTH KATAKANA LETTER NA:\u{FF85}\n\
HALFWIDTH KATAKANA LETTER NI:\u{FF86}\n\
HALFWIDTH KATAKANA LETTER NU:\u{FF87}\n\
HALFWIDTH KATAKANA LETTER NE:\u{FF88}\n\
HALFWIDTH KATAKANA LETTER NO:\u{FF89}\n\
HALFWIDTH KATAKANA LETTER HA:\u{FF8A}\n\
HALFWIDTH KATAKANA LETTER HI:\u{FF8B}\n\
HALFWIDTH KATAKANA LETTER HU:\u{FF8C}\n\
HALFWIDTH KATAKANA LETTER HE:\u{FF8D}\n\
HALFWIDTH KATAKANA LETTER HO:\u{FF8E}\n\
HALFWIDTH KATAKANA LETTER MA:\u{FF8F}\n\
HALFWIDTH KATAKANA LETTER MI:\u{FF90}\n\
HALFWIDTH KATAKANA LETTER MU:\u{FF91}\n\
HALFWIDTH KATAKANA LETTER ME:\u{FF92}\n\
HALFWIDTH KATAKANA LETTER MO:\u{FF93}\n\
HALFWIDTH KATAKANA LETTER YA:\u{FF94}\n\
HALFWIDTH KATAKANA LETTER YU:\u{FF95}\n\
HALFWIDTH KATAKANA LETTER YO:\u{FF96}\n\
HALFWIDTH KATAKANA LETTER RA:\u{FF97}\n\
HALFWIDTH KATAKANA LETTER RI:\u{FF98}\n\
HALFWIDTH KATAKANA LETTER RU:\u{FF99}\n\
HALFWIDTH KATAKANA LETTER RE:\u{FF9A}\n\
HALFWIDTH KATAKANA LETTER RO:\u{FF9B}\n\
HALFWIDTH KATAKANA LETTER WA:\u{FF9C}\n\
HALFWIDTH KATAKANA LETTER N:\u{FF9D}\n\
HALFWIDTH KATAKANA VOICED SOUND MARK:\u{FF9E}\n\
HALFWIDTH KATAKANA SEMI-VOICED SOUND MARK:\u{FF9F}\n\
HALFWIDTH HANGUL FILLER:\u{FFA0}\n\
HALFWIDTH HANGUL LETTER KIYEOK:\u{FFA1}\n\
HALFWIDTH HANGUL LETTER SSANGKIYEOK:\u{FFA2}\n\
HALFWIDTH HANGUL LETTER KIYEOK-SIOS:\u{FFA3}\n\
HALFWIDTH HANGUL LETTER NIEUN:\u{FFA4}\n\
HALFWIDTH HANGUL LETTER NIEUN-CIEUC:\u{FFA5}\n\
HALFWIDTH HANGUL LETTER NIEUN-HIEUH:\u{FFA6}\n\
HALFWIDTH HANGUL LETTER TIKEUT:\u{FFA7}\n\
HALFWIDTH HANGUL LETTER SSANGTIKEUT:\u{FFA8}\n\
HALFWIDTH HANGUL LETTER RIEUL:\u{FFA9}\n\
HALFWIDTH HANGUL LETTER RIEUL-KIYEOK:\u{FFAA}\n\
HALFWIDTH HANGUL LETTER RIEUL-MIEUM:\u{FFAB}\n\
HALFWIDTH HANGUL LETTER RIEUL-PIEUP:\u{FFAC}\n\
HALFWIDTH HANGUL LETTER RIEUL-SIOS:\u{FFAD}\n\
HALFWIDTH HANGUL LETTER RIEUL-THIEUTH:\u{FFAE}\n\
HALFWIDTH HANGUL LETTER RIEUL-PHIEUPH:\u{FFAF}\n\
HALFWIDTH HANGUL LETTER RIEUL-HIEUH:\u{FFB0}\n\
HALFWIDTH HANGUL LETTER MIEUM:\u{FFB1}\n\
HALFWIDTH HANGUL LETTER PIEUP:\u{FFB2}\n\
HALFWIDTH HANGUL LETTER SSANGPIEUP:\u{FFB3}\n\
HALFWIDTH HANGUL LETTER PIEUP-SIOS:\u{FFB4}\n\
HALFWIDTH HANGUL LETTER SIOS:\u{FFB5}\n\
HALFWIDTH HANGUL LETTER SSANGSIOS:\u{FFB6}\n\
HALFWIDTH HANGUL LETTER IEUNG:\u{FFB7}\n\
HALFWIDTH HANGUL LETTER CIEUC:\u{FFB8}\n\
HALFWIDTH HANGUL LETTER SSANGCIEUC:\u{FFB9}\n\
HALFWIDTH HANGUL LETTER CHIEUCH:\u{FFBA}\n\
HALFWIDTH HANGUL LETTER KHIEUKH:\u{FFBB}\n\
HALFWIDTH HANGUL LETTER THIEUTH:\u{FFBC}\n\
HALFWIDTH HANGUL LETTER PHIEUPH:\u{FFBD}\n\
HALFWIDTH HANGUL LETTER HIEUH:\u{FFBE}\n\
HALFWIDTH HANGUL LETTER A:\u{FFC2}\n\
HALFWIDTH HANGUL LETTER AE:\u{FFC3}\n\
HALFWIDTH HANGUL LETTER YA:\u{FFC4}\n\
HALFWIDTH HANGUL LETTER YAE:\u{FFC5}\n\
HALFWIDTH HANGUL LETTER EO:\u{FFC6}\n\
HALFWIDTH HANGUL LETTER E:\u{FFC7}\n\
HALFWIDTH HANGUL LETTER YEO:\u{FFCA}\n\
HALFWIDTH HANGUL LETTER YE:\u{FFCB}\n\
HALFWIDTH HANGUL LETTER O:\u{FFCC}\n\
HALFWIDTH HANGUL LETTER WA:\u{FFCD}\n\
HALFWIDTH HANGUL LETTER WAE:\u{FFCE}\n\
HALFWIDTH HANGUL LETTER OE:\u{FFCF}\n\
HALFWIDTH HANGUL LETTER YO:\u{FFD2}\n\
HALFWIDTH HANGUL LETTER U:\u{FFD3}\n\
HALFWIDTH HANGUL LETTER WEO:\u{FFD4}\n\
HALFWIDTH HANGUL LETTER WE:\u{FFD5}\n\
HALFWIDTH HANGUL LETTER WI:\u{FFD6}\n\
HALFWIDTH HANGUL LETTER YU:\u{FFD7}\n\
HALFWIDTH HANGUL LETTER EU:\u{FFDA}\n\
HALFWIDTH HANGUL LETTER YI:\u{FFDB}\n\
HALFWIDTH HANGUL LETTER I:\u{FFDC}\n\
FULLWIDTH CENT SIGN:\u{FFE0}\n\
FULLWIDTH POUND SIGN:\u{FFE1}\n\
FULLWIDTH NOT SIGN:\u{FFE2}\n\
FULLWIDTH MACRON:\u{FFE3}\n\
FULLWIDTH BROKEN BAR:\u{FFE4}\n\
FULLWIDTH YEN SIGN:\u{FFE5}\n\
FULLWIDTH WON SIGN:\u{FFE6}\n\
HALFWIDTH FORMS LIGHT VERTICAL:\u{FFE8}\n\
HALFWIDTH LEFTWARDS ARROW:\u{FFE9}\n\
HALFWIDTH UPWARDS ARROW:\u{FFEA}\n\
HALFWIDTH RIGHTWARDS ARROW:\u{FFEB}\n\
HALFWIDTH DOWNWARDS ARROW:\u{FFEC}\n\
HALFWIDTH BLACK SQUARE:\u{FFED}\n\
HALFWIDTH WHITE CIRCLE:\u{FFEE}\n\
INTERLINEAR ANNOTATION ANCHOR:\u{FFF9}\n\
INTERLINEAR ANNOTATION SEPARATOR:\u{FFFA}\n\
INTERLINEAR ANNOTATION TERMINATOR:\u{FFFB}\n\
OBJECT REPLACEMENT CHARACTER:\u{FFFC}\n\
REPLACEMENT CHARACTER:\u{FFFD}\n\
LINEAR B SYLLABLE B008 A:\u{10000}\n\
LINEAR B SYLLABLE B038 E:\u{10001}\n\
LINEAR B SYLLABLE B028 I:\u{10002}\n\
LINEAR B SYLLABLE B061 O:\u{10003}\n\
LINEAR B SYLLABLE B010 U:\u{10004}\n\
LINEAR B SYLLABLE B001 DA:\u{10005}\n\
LINEAR B SYLLABLE B045 DE:\u{10006}\n\
LINEAR B SYLLABLE B007 DI:\u{10007}\n\
LINEAR B SYLLABLE B014 DO:\u{10008}\n\
LINEAR B SYLLABLE B051 DU:\u{10009}\n\
LINEAR B SYLLABLE B057 JA:\u{1000A}\n\
LINEAR B SYLLABLE B046 JE:\u{1000B}\n\
LINEAR B SYLLABLE B036 JO:\u{1000D}\n\
LINEAR B SYLLABLE B065 JU:\u{1000E}\n\
LINEAR B SYLLABLE B077 KA:\u{1000F}\n\
LINEAR B SYLLABLE B044 KE:\u{10010}\n\
LINEAR B SYLLABLE B067 KI:\u{10011}\n\
LINEAR B SYLLABLE B070 KO:\u{10012}\n\
LINEAR B SYLLABLE B081 KU:\u{10013}\n\
LINEAR B SYLLABLE B080 MA:\u{10014}\n\
LINEAR B SYLLABLE B013 ME:\u{10015}\n\
LINEAR B SYLLABLE B073 MI:\u{10016}\n\
LINEAR B SYLLABLE B015 MO:\u{10017}\n\
LINEAR B SYLLABLE B023 MU:\u{10018}\n\
LINEAR B SYLLABLE B006 NA:\u{10019}\n\
LINEAR B SYLLABLE B024 NE:\u{1001A}\n\
LINEAR B SYLLABLE B030 NI:\u{1001B}\n\
LINEAR B SYLLABLE B052 NO:\u{1001C}\n\
LINEAR B SYLLABLE B055 NU:\u{1001D}\n\
LINEAR B SYLLABLE B003 PA:\u{1001E}\n\
LINEAR B SYLLABLE B072 PE:\u{1001F}\n\
LINEAR B SYLLABLE B039 PI:\u{10020}\n\
LINEAR B SYLLABLE B011 PO:\u{10021}\n\
LINEAR B SYLLABLE B050 PU:\u{10022}\n\
LINEAR B SYLLABLE B016 QA:\u{10023}\n\
LINEAR B SYLLABLE B078 QE:\u{10024}\n\
LINEAR B SYLLABLE B021 QI:\u{10025}\n\
LINEAR B SYLLABLE B032 QO:\u{10026}\n\
LINEAR B SYLLABLE B060 RA:\u{10028}\n\
LINEAR B SYLLABLE B027 RE:\u{10029}\n\
LINEAR B SYLLABLE B053 RI:\u{1002A}\n\
LINEAR B SYLLABLE B002 RO:\u{1002B}\n\
LINEAR B SYLLABLE B026 RU:\u{1002C}\n\
LINEAR B SYLLABLE B031 SA:\u{1002D}\n\
LINEAR B SYLLABLE B009 SE:\u{1002E}\n\
LINEAR B SYLLABLE B041 SI:\u{1002F}\n\
LINEAR B SYLLABLE B012 SO:\u{10030}\n\
LINEAR B SYLLABLE B058 SU:\u{10031}\n\
LINEAR B SYLLABLE B059 TA:\u{10032}\n\
LINEAR B SYLLABLE B004 TE:\u{10033}\n\
LINEAR B SYLLABLE B037 TI:\u{10034}\n\
LINEAR B SYLLABLE B005 TO:\u{10035}\n\
LINEAR B SYLLABLE B069 TU:\u{10036}\n\
LINEAR B SYLLABLE B054 WA:\u{10037}\n\
LINEAR B SYLLABLE B075 WE:\u{10038}\n\
LINEAR B SYLLABLE B040 WI:\u{10039}\n\
LINEAR B SYLLABLE B042 WO:\u{1003A}\n\
LINEAR B SYLLABLE B017 ZA:\u{1003C}\n\
LINEAR B SYLLABLE B074 ZE:\u{1003D}\n\
LINEAR B SYLLABLE B020 ZO:\u{1003F}\n\
LINEAR B SYLLABLE B025 A2:\u{10040}\n\
LINEAR B SYLLABLE B043 A3:\u{10041}\n\
LINEAR B SYLLABLE B085 AU:\u{10042}\n\
LINEAR B SYLLABLE B071 DWE:\u{10043}\n\
LINEAR B SYLLABLE B090 DWO:\u{10044}\n\
LINEAR B SYLLABLE B048 NWA:\u{10045}\n\
LINEAR B SYLLABLE B029 PU2:\u{10046}\n\
LINEAR B SYLLABLE B062 PTE:\u{10047}\n\
LINEAR B SYLLABLE B076 RA2:\u{10048}\n\
LINEAR B SYLLABLE B033 RA3:\u{10049}\n\
LINEAR B SYLLABLE B068 RO2:\u{1004A}\n\
LINEAR B SYLLABLE B066 TA2:\u{1004B}\n\
LINEAR B SYLLABLE B087 TWE:\u{1004C}\n\
LINEAR B SYLLABLE B091 TWO:\u{1004D}\n\
LINEAR B SYMBOL B018:\u{10050}\n\
LINEAR B SYMBOL B019:\u{10051}\n\
LINEAR B SYMBOL B022:\u{10052}\n\
LINEAR B SYMBOL B034:\u{10053}\n\
LINEAR B SYMBOL B047:\u{10054}\n\
LINEAR B SYMBOL B049:\u{10055}\n\
LINEAR B SYMBOL B056:\u{10056}\n\
LINEAR B SYMBOL B063:\u{10057}\n\
LINEAR B SYMBOL B064:\u{10058}\n\
LINEAR B SYMBOL B079:\u{10059}\n\
LINEAR B SYMBOL B082:\u{1005A}\n\
LINEAR B SYMBOL B083:\u{1005B}\n\
LINEAR B SYMBOL B086:\u{1005C}\n\
LINEAR B SYMBOL B089:\u{1005D}\n\
LINEAR B IDEOGRAM B100 MAN:\u{10080}\n\
LINEAR B IDEOGRAM B102 WOMAN:\u{10081}\n\
LINEAR B IDEOGRAM B104 DEER:\u{10082}\n\
LINEAR B IDEOGRAM B105 EQUID:\u{10083}\n\
LINEAR B IDEOGRAM B105F MARE:\u{10084}\n\
LINEAR B IDEOGRAM B105M STALLION:\u{10085}\n\
LINEAR B IDEOGRAM B106F EWE:\u{10086}\n\
LINEAR B IDEOGRAM B106M RAM:\u{10087}\n\
LINEAR B IDEOGRAM B107F SHE-GOAT:\u{10088}\n\
LINEAR B IDEOGRAM B107M HE-GOAT:\u{10089}\n";

pub const NAMES_42: &'static str = "LINEAR B IDEOGRAM B108F SOW:\u{1008A}\n\
LINEAR B IDEOGRAM B108M BOAR:\u{1008B}\n\
LINEAR B IDEOGRAM B109F COW:\u{1008C}\n\
LINEAR B IDEOGRAM B109M BULL:\u{1008D}\n\
LINEAR B IDEOGRAM B120 WHEAT:\u{1008E}\n\
LINEAR B IDEOGRAM B121 BARLEY:\u{1008F}\n\
LINEAR B IDEOGRAM B122 OLIVE:\u{10090}\n\
LINEAR B IDEOGRAM B123 SPICE:\u{10091}\n\
LINEAR B IDEOGRAM B125 CYPERUS:\u{10092}\n\
LINEAR B MONOGRAM B127 KAPO:\u{10093}\n\
LINEAR B MONOGRAM B128 KANAKO:\u{10094}\n\
LINEAR B IDEOGRAM B130 OIL:\u{10095}\n\
LINEAR B IDEOGRAM B131 WINE:\u{10096}\n\
LINEAR B IDEOGRAM B132:\u{10097}\n\
LINEAR B MONOGRAM B133 AREPA:\u{10098}\n\
LINEAR B MONOGRAM B135 MERI:\u{10099}\n\
LINEAR B IDEOGRAM B140 BRONZE:\u{1009A}\n\
LINEAR B IDEOGRAM B141 GOLD:\u{1009B}\n\
LINEAR B IDEOGRAM B142:\u{1009C}\n\
LINEAR B IDEOGRAM B145 WOOL:\u{1009D}\n\
LINEAR B IDEOGRAM B146:\u{1009E}\n\
LINEAR B IDEOGRAM B150:\u{1009F}\n\
LINEAR B IDEOGRAM B151 HORN:\u{100A0}\n\
LINEAR B IDEOGRAM B152:\u{100A1}\n\
LINEAR B IDEOGRAM B153:\u{100A2}\n\
LINEAR B IDEOGRAM B154:\u{100A3}\n\
LINEAR B MONOGRAM B156 TURO2:\u{100A4}\n\
LINEAR B IDEOGRAM B157:\u{100A5}\n\
LINEAR B IDEOGRAM B158:\u{100A6}\n\
LINEAR B IDEOGRAM B159 CLOTH:\u{100A7}\n\
LINEAR B IDEOGRAM B160:\u{100A8}\n\
LINEAR B IDEOGRAM B161:\u{100A9}\n\
LINEAR B IDEOGRAM B162 GARMENT:\u{100AA}\n\
LINEAR B IDEOGRAM B163 ARMOUR:\u{100AB}\n\
LINEAR B IDEOGRAM B164:\u{100AC}\n\
LINEAR B IDEOGRAM B165:\u{100AD}\n\
LINEAR B IDEOGRAM B166:\u{100AE}\n\
LINEAR B IDEOGRAM B167:\u{100AF}\n\
LINEAR B IDEOGRAM B168:\u{100B0}\n\
LINEAR B IDEOGRAM B169:\u{100B1}\n\
LINEAR B IDEOGRAM B170:\u{100B2}\n\
LINEAR B IDEOGRAM B171:\u{100B3}\n\
LINEAR B IDEOGRAM B172:\u{100B4}\n\
LINEAR B IDEOGRAM B173 MONTH:\u{100B5}\n\
LINEAR B IDEOGRAM B174:\u{100B6}\n\
LINEAR B IDEOGRAM B176 TREE:\u{100B7}\n\
LINEAR B IDEOGRAM B177:\u{100B8}\n\
LINEAR B IDEOGRAM B178:\u{100B9}\n\
LINEAR B IDEOGRAM B179:\u{100BA}\n\
LINEAR B IDEOGRAM B180:\u{100BB}\n\
LINEAR B IDEOGRAM B181:\u{100BC}\n\
LINEAR B IDEOGRAM B182:\u{100BD}\n\
LINEAR B IDEOGRAM B183:\u{100BE}\n\
LINEAR B IDEOGRAM B184:\u{100BF}\n\
LINEAR B IDEOGRAM B185:\u{100C0}\n\
LINEAR B IDEOGRAM B189:\u{100C1}\n\
LINEAR B IDEOGRAM B190:\u{100C2}\n\
LINEAR B IDEOGRAM B191 HELMET:\u{100C3}\n\
LINEAR B IDEOGRAM B220 FOOTSTOOL:\u{100C4}\n\
LINEAR B IDEOGRAM B225 BATHTUB:\u{100C5}\n\
LINEAR B IDEOGRAM B230 SPEAR:\u{100C6}\n\
LINEAR B IDEOGRAM B231 ARROW:\u{100C7}\n\
LINEAR B IDEOGRAM B232:\u{100C8}\n\
LINEAR B IDEOGRAM B233 SWORD:\u{100C9}\n\
LINEAR B IDEOGRAM B234:\u{100CA}\n\
LINEAR B IDEOGRAM B236:\u{100CB}\n\
LINEAR B IDEOGRAM B240 WHEELED CHARIOT:\u{100CC}\n\
LINEAR B IDEOGRAM B241 CHARIOT:\u{100CD}\n\
LINEAR B IDEOGRAM B242 CHARIOT FRAME:\u{100CE}\n\
LINEAR B IDEOGRAM B243 WHEEL:\u{100CF}\n\
LINEAR B IDEOGRAM B245:\u{100D0}\n\
LINEAR B IDEOGRAM B246:\u{100D1}\n\
LINEAR B MONOGRAM B247 DIPTE:\u{100D2}\n\
LINEAR B IDEOGRAM B248:\u{100D3}\n\
LINEAR B IDEOGRAM B249:\u{100D4}\n\
LINEAR B IDEOGRAM B251:\u{100D5}\n\
LINEAR B IDEOGRAM B252:\u{100D6}\n\
LINEAR B IDEOGRAM B253:\u{100D7}\n\
LINEAR B IDEOGRAM B254 DART:\u{100D8}\n\
LINEAR B IDEOGRAM B255:\u{100D9}\n\
LINEAR B IDEOGRAM B256:\u{100DA}\n\
LINEAR B IDEOGRAM B257:\u{100DB}\n\
LINEAR B IDEOGRAM B258:\u{100DC}\n\
LINEAR B IDEOGRAM B259:\u{100DD}\n\
LINEAR B IDEOGRAM VESSEL B155:\u{100DE}\n\
LINEAR B IDEOGRAM VESSEL B200:\u{100DF}\n\
LINEAR B IDEOGRAM VESSEL B201:\u{100E0}\n\
LINEAR B IDEOGRAM VESSEL B202:\u{100E1}\n\
LINEAR B IDEOGRAM VESSEL B203:\u{100E2}\n\
LINEAR B IDEOGRAM VESSEL B204:\u{100E3}\n\
LINEAR B IDEOGRAM VESSEL B205:\u{100E4}\n\
LINEAR B IDEOGRAM VESSEL B206:\u{100E5}\n\
LINEAR B IDEOGRAM VESSEL B207:\u{100E6}\n\
LINEAR B IDEOGRAM VESSEL B208:\u{100E7}\n\
LINEAR B IDEOGRAM VESSEL B209:\u{100E8}\n\
LINEAR B IDEOGRAM VESSEL B210:\u{100E9}\n\
LINEAR B IDEOGRAM VESSEL B211:\u{100EA}\n\
LINEAR B IDEOGRAM VESSEL B212:\u{100EB}\n\
LINEAR B IDEOGRAM VESSEL B213:\u{100EC}\n\
LINEAR B IDEOGRAM VESSEL B214:\u{100ED}\n\
LINEAR B IDEOGRAM VESSEL B215:\u{100EE}\n\
LINEAR B IDEOGRAM VESSEL B216:\u{100EF}\n\
LINEAR B IDEOGRAM VESSEL B217:\u{100F0}\n\
LINEAR B IDEOGRAM VESSEL B218:\u{100F1}\n\
LINEAR B IDEOGRAM VESSEL B219:\u{100F2}\n\
LINEAR B IDEOGRAM VESSEL B221:\u{100F3}\n\
LINEAR B IDEOGRAM VESSEL B222:\u{100F4}\n\
LINEAR B IDEOGRAM VESSEL B226:\u{100F5}\n\
LINEAR B IDEOGRAM VESSEL B227:\u{100F6}\n\
LINEAR B IDEOGRAM VESSEL B228:\u{100F7}\n\
LINEAR B IDEOGRAM VESSEL B229:\u{100F8}\n\
LINEAR B IDEOGRAM VESSEL B250:\u{100F9}\n\
LINEAR B IDEOGRAM VESSEL B305:\u{100FA}\n\
AEGEAN WORD SEPARATOR LINE:\u{10100}\n\
AEGEAN WORD SEPARATOR DOT:\u{10101}\n\
AEGEAN CHECK MARK:\u{10102}\n\
AEGEAN NUMBER ONE:\u{10107}\n\
AEGEAN NUMBER TWO:\u{10108}\n\
AEGEAN NUMBER THREE:\u{10109}\n\
AEGEAN NUMBER FOUR:\u{1010A}\n\
AEGEAN NUMBER FIVE:\u{1010B}\n\
AEGEAN NUMBER SIX:\u{1010C}\n\
AEGEAN NUMBER SEVEN:\u{1010D}\n\
AEGEAN NUMBER EIGHT:\u{1010E}\n\
AEGEAN NUMBER NINE:\u{1010F}\n\
AEGEAN NUMBER TEN:\u{10110}\n\
AEGEAN NUMBER TWENTY:\u{10111}\n\
AEGEAN NUMBER THIRTY:\u{10112}\n\
AEGEAN NUMBER FORTY:\u{10113}\n\
AEGEAN NUMBER FIFTY:\u{10114}\n\
AEGEAN NUMBER SIXTY:\u{10115}\n\
AEGEAN NUMBER SEVENTY:\u{10116}\n\
AEGEAN NUMBER EIGHTY:\u{10117}\n\
AEGEAN NUMBER NINETY:\u{10118}\n\
AEGEAN NUMBER ONE HUNDRED:\u{10119}\n\
AEGEAN NUMBER TWO HUNDRED:\u{1011A}\n\
AEGEAN NUMBER THREE HUNDRED:\u{1011B}\n\
AEGEAN NUMBER FOUR HUNDRED:\u{1011C}\n\
AEGEAN NUMBER FIVE HUNDRED:\u{1011D}\n\
AEGEAN NUMBER SIX HUNDRED:\u{1011E}\n\
AEGEAN NUMBER SEVEN HUNDRED:\u{1011F}\n\
AEGEAN NUMBER EIGHT HUNDRED:\u{10120}\n\
AEGEAN NUMBER NINE HUNDRED:\u{10121}\n\
AEGEAN NUMBER ONE THOUSAND:\u{10122}\n\
AEGEAN NUMBER TWO THOUSAND:\u{10123}\n\
AEGEAN NUMBER THREE THOUSAND:\u{10124}\n\
AEGEAN NUMBER FOUR THOUSAND:\u{10125}\n\
AEGEAN NUMBER FIVE THOUSAND:\u{10126}\n\
AEGEAN NUMBER SIX THOUSAND:\u{10127}\n\
AEGEAN NUMBER SEVEN THOUSAND:\u{10128}\n\
AEGEAN NUMBER EIGHT THOUSAND:\u{10129}\n\
AEGEAN NUMBER NINE THOUSAND:\u{1012A}\n\
AEGEAN NUMBER TEN THOUSAND:\u{1012B}\n\
AEGEAN NUMBER TWENTY THOUSAND:\u{1012C}\n\
AEGEAN NUMBER THIRTY THOUSAND:\u{1012D}\n\
AEGEAN NUMBER FORTY THOUSAND:\u{1012E}\n\
AEGEAN NUMBER FIFTY THOUSAND:\u{1012F}\n\
AEGEAN NUMBER SIXTY THOUSAND:\u{10130}\n\
AEGEAN NUMBER SEVENTY THOUSAND:\u{10131}\n\
AEGEAN NUMBER EIGHTY THOUSAND:\u{10132}\n\
AEGEAN NUMBER NINETY THOUSAND:\u{10133}\n\
AEGEAN WEIGHT BASE UNIT:\u{10137}\n\
AEGEAN WEIGHT FIRST SUBUNIT:\u{10138}\n\
AEGEAN WEIGHT SECOND SUBUNIT:\u{10139}\n\
AEGEAN WEIGHT THIRD SUBUNIT:\u{1013A}\n\
AEGEAN WEIGHT FOURTH SUBUNIT:\u{1013B}\n\
AEGEAN DRY MEASURE FIRST SUBUNIT:\u{1013C}\n\
AEGEAN LIQUID MEASURE FIRST SUBUNIT:\u{1013D}\n\
AEGEAN MEASURE SECOND SUBUNIT:\u{1013E}\n\
AEGEAN MEASURE THIRD SUBUNIT:\u{1013F}\n\
GREEK ACROPHONIC ATTIC ONE QUARTER:\u{10140}\n\
GREEK ACROPHONIC ATTIC ONE HALF:\u{10141}\n\
GREEK ACROPHONIC ATTIC ONE DRACHMA:\u{10142}\n\
GREEK ACROPHONIC ATTIC FIVE:\u{10143}\n\
GREEK ACROPHONIC ATTIC FIFTY:\u{10144}\n\
GREEK ACROPHONIC ATTIC FIVE HUNDRED:\u{10145}\n\
GREEK ACROPHONIC ATTIC FIVE THOUSAND:\u{10146}\n\
GREEK ACROPHONIC ATTIC FIFTY THOUSAND:\u{10147}\n\
GREEK ACROPHONIC ATTIC FIVE TALENTS:\u{10148}\n\
GREEK ACROPHONIC ATTIC TEN TALENTS:\u{10149}\n\
GREEK ACROPHONIC ATTIC FIFTY TALENTS:\u{1014A}\n\
GREEK ACROPHONIC ATTIC ONE HUNDRED TALENTS:\u{1014B}\n\
GREEK ACROPHONIC ATTIC FIVE HUNDRED TALENTS:\u{1014C}\n\
GREEK ACROPHONIC ATTIC ONE THOUSAND TALENTS:\u{1014D}\n\
GREEK ACROPHONIC ATTIC FIVE THOUSAND TALENTS:\u{1014E}\n\
GREEK ACROPHONIC ATTIC FIVE STATERS:\u{1014F}\n\
GREEK ACROPHONIC ATTIC TEN STATERS:\u{10150}\n\
GREEK ACROPHONIC ATTIC FIFTY STATERS:\u{10151}\n\
GREEK ACROPHONIC ATTIC ONE HUNDRED STATERS:\u{10152}\n\
GREEK ACROPHONIC ATTIC FIVE HUNDRED STATERS:\u{10153}\n\
GREEK ACROPHONIC ATTIC ONE THOUSAND STATERS:\u{10154}\n\
GREEK ACROPHONIC ATTIC TEN THOUSAND STATERS:\u{10155}\n\
GREEK ACROPHONIC ATTIC FIFTY THOUSAND STATERS:\u{10156}\n\
GREEK ACROPHONIC ATTIC TEN MNAS:\u{10157}\n\
GREEK ACROPHONIC HERAEUM ONE PLETHRON:\u{10158}\n\
GREEK ACROPHONIC THESPIAN ONE:\u{10159}\n\
GREEK ACROPHONIC HERMIONIAN ONE:\u{1015A}\n\
GREEK ACROPHONIC EPIDAUREAN TWO:\u{1015B}\n\
GREEK ACROPHONIC THESPIAN TWO:\u{1015C}\n\
GREEK ACROPHONIC CYRENAIC TWO DRACHMAS:\u{1015D}\n\
GREEK ACROPHONIC EPIDAUREAN TWO DRACHMAS:\u{1015E}\n\
GREEK ACROPHONIC TROEZENIAN FIVE:\u{1015F}\n\
GREEK ACROPHONIC TROEZENIAN TEN:\u{10160}\n\
GREEK ACROPHONIC TROEZENIAN TEN ALTERNATE FORM:\u{10161}\n\
GREEK ACROPHONIC HERMIONIAN TEN:\u{10162}\n\
GREEK ACROPHONIC MESSENIAN TEN:\u{10163}\n\
GREEK ACROPHONIC THESPIAN TEN:\u{10164}\n\
GREEK ACROPHONIC THESPIAN THIRTY:\u{10165}\n\
GREEK ACROPHONIC TROEZENIAN FIFTY:\u{10166}\n\
GREEK ACROPHONIC TROEZENIAN FIFTY ALTERNATE FORM:\u{10167}\n\
GREEK ACROPHONIC HERMIONIAN FIFTY:\u{10168}\n\
GREEK ACROPHONIC THESPIAN FIFTY:\u{10169}\n\
GREEK ACROPHONIC THESPIAN ONE HUNDRED:\u{1016A}\n\
GREEK ACROPHONIC THESPIAN THREE HUNDRED:\u{1016B}\n\
GREEK ACROPHONIC EPIDAUREAN FIVE HUNDRED:\u{1016C}\n\
GREEK ACROPHONIC TROEZENIAN FIVE HUNDRED:\u{1016D}\n\
GREEK ACROPHONIC THESPIAN FIVE HUNDRED:\u{1016E}\n\
GREEK ACROPHONIC CARYSTIAN FIVE HUNDRED:\u{1016F}\n\
GREEK ACROPHONIC NAXIAN FIVE HUNDRED:\u{10170}\n\
GREEK ACROPHONIC THESPIAN ONE THOUSAND:\u{10171}\n\
GREEK ACROPHONIC THESPIAN FIVE THOUSAND:\u{10172}\n\
GREEK ACROPHONIC DELPHIC FIVE MNAS:\u{10173}\n\
GREEK ACROPHONIC STRATIAN FIFTY MNAS:\u{10174}\n\
GREEK ONE HALF SIGN:\u{10175}\n\
GREEK ONE HALF SIGN ALTERNATE FORM:\u{10176}\n\
GREEK TWO THIRDS SIGN:\u{10177}\n\
GREEK THREE QUARTERS SIGN:\u{10178}\n\
GREEK YEAR SIGN:\u{10179}\n\
GREEK TALENT SIGN:\u{1017A}\n\
GREEK DRACHMA SIGN:\u{1017B}\n\
GREEK OBOL SIGN:\u{1017C}\n\
GREEK TWO OBOLS SIGN:\u{1017D}\n\
GREEK THREE OBOLS SIGN:\u{1017E}\n\
GREEK FOUR OBOLS SIGN:\u{1017F}\n\
GREEK FIVE OBOLS SIGN:\u{10180}\n\
GREEK METRETES SIGN:\u{10181}\n\
GREEK KYATHOS BASE SIGN:\u{10182}\n\
GREEK LITRA SIGN:\u{10183}\n\
GREEK OUNKIA SIGN:\u{10184}\n\
GREEK XESTES SIGN:\u{10185}\n\
GREEK ARTABE SIGN:\u{10186}\n\
GREEK AROURA SIGN:\u{10187}\n\
GREEK GRAMMA SIGN:\u{10188}\n\
GREEK TRYBLION BASE SIGN:\u{10189}\n\
GREEK ZERO SIGN:\u{1018A}\n\
GREEK ONE QUARTER SIGN:\u{1018B}\n\
GREEK SINUSOID SIGN:\u{1018C}\n\
GREEK INDICTION SIGN:\u{1018D}\n\
NOMISMA SIGN:\u{1018E}\n\
ROMAN SEXTANS SIGN:\u{10190}\n\
ROMAN UNCIA SIGN:\u{10191}\n\
ROMAN SEMUNCIA SIGN:\u{10192}\n\
ROMAN SEXTULA SIGN:\u{10193}\n\
ROMAN DIMIDIA SEXTULA SIGN:\u{10194}\n\
ROMAN SILIQUA SIGN:\u{10195}\n\
ROMAN DENARIUS SIGN:\u{10196}\n\
ROMAN QUINARIUS SIGN:\u{10197}\n\
ROMAN SESTERTIUS SIGN:\u{10198}\n\
ROMAN DUPONDIUS SIGN:\u{10199}\n\
ROMAN AS SIGN:\u{1019A}\n\
ROMAN CENTURIAL SIGN:\u{1019B}\n\
ASCIA SYMBOL:\u{1019C}\n\
GREEK SYMBOL TAU RHO:\u{101A0}\n\
PHAISTOS DISC SIGN PEDESTRIAN:\u{101D0}\n\
PHAISTOS DISC SIGN PLUMED HEAD:\u{101D1}\n\
PHAISTOS DISC SIGN TATTOOED HEAD:\u{101D2}\n\
PHAISTOS DISC SIGN CAPTIVE:\u{101D3}\n\
PHAISTOS DISC SIGN CHILD:\u{101D4}\n\
PHAISTOS DISC SIGN WOMAN:\u{101D5}\n\
PHAISTOS DISC SIGN HELMET:\u{101D6}\n\
PHAISTOS DISC SIGN GAUNTLET:\u{101D7}\n\
PHAISTOS DISC SIGN TIARA:\u{101D8}\n\
PHAISTOS DISC SIGN ARROW:\u{101D9}\n\
PHAISTOS DISC SIGN BOW:\u{101DA}\n\
PHAISTOS DISC SIGN SHIELD:\u{101DB}\n\
PHAISTOS DISC SIGN CLUB:\u{101DC}\n\
PHAISTOS DISC SIGN MANACLES:\u{101DD}\n\
PHAISTOS DISC SIGN MATTOCK:\u{101DE}\n\
PHAISTOS DISC SIGN SAW:\u{101DF}\n\
PHAISTOS DISC SIGN LID:\u{101E0}\n\
PHAISTOS DISC SIGN BOOMERANG:\u{101E1}\n\
PHAISTOS DISC SIGN CARPENTRY PLANE:\u{101E2}\n\
PHAISTOS DISC SIGN DOLIUM:\u{101E3}\n\
PHAISTOS DISC SIGN COMB:\u{101E4}\n\
PHAISTOS DISC SIGN SLING:\u{101E5}\n\
PHAISTOS DISC SIGN COLUMN:\u{101E6}\n\
PHAISTOS DISC SIGN BEEHIVE:\u{101E7}\n\
PHAISTOS DISC SIGN SHIP:\u{101E8}\n\
PHAISTOS DISC SIGN HORN:\u{101E9}\n\
PHAISTOS DISC SIGN HIDE:\u{101EA}\n\
PHAISTOS DISC SIGN BULLS LEG:\u{101EB}\n\
PHAISTOS DISC SIGN CAT:\u{101EC}\n\
PHAISTOS DISC SIGN RAM:\u{101ED}\n\
PHAISTOS DISC SIGN EAGLE:\u{101EE}\n\
PHAISTOS DISC SIGN DOVE:\u{101EF}\n\
PHAISTOS DISC SIGN TUNNY:\u{101F0}\n\
PHAISTOS DISC SIGN BEE:\u{101F1}\n\
PHAISTOS DISC SIGN PLANE TREE:\u{101F2}\n\
PHAISTOS DISC SIGN VINE:\u{101F3}\n\
PHAISTOS DISC SIGN PAPYRUS:\u{101F4}\n\
PHAISTOS DISC SIGN ROSETTE:\u{101F5}\n\
PHAISTOS DISC SIGN LILY:\u{101F6}\n\
PHAISTOS DISC SIGN OX BACK:\u{101F7}\n\
PHAISTOS DISC SIGN FLUTE:\u{101F8}\n\
PHAISTOS DISC SIGN GRATER:\u{101F9}\n\
PHAISTOS DISC SIGN STRAINER:\u{101FA}\n\
PHAISTOS DISC SIGN SMALL AXE:\u{101FB}\n\
PHAISTOS DISC SIGN WAVY BAND:\u{101FC}\n\
PHAISTOS DISC SIGN COMBINING OBLIQUE STROKE:\u{101FD}\n\
LYCIAN LETTER A:\u{10280}\n\
LYCIAN LETTER E:\u{10281}\n\
LYCIAN LETTER B:\u{10282}\n\
LYCIAN LETTER BH:\u{10283}\n\
LYCIAN LETTER G:\u{10284}\n\
LYCIAN LETTER D:\u{10285}\n\
LYCIAN LETTER I:\u{10286}\n\
LYCIAN LETTER W:\u{10287}\n\
LYCIAN LETTER Z:\u{10288}\n\
LYCIAN LETTER TH:\u{10289}\n\
LYCIAN LETTER J:\u{1028A}\n\
LYCIAN LETTER K:\u{1028B}\n\
LYCIAN LETTER Q:\u{1028C}\n\
LYCIAN LETTER L:\u{1028D}\n\
LYCIAN LETTER M:\u{1028E}\n\
LYCIAN LETTER N:\u{1028F}\n\
LYCIAN LETTER MM:\u{10290}\n\
LYCIAN LETTER NN:\u{10291}\n\
LYCIAN LETTER U:\u{10292}\n\
LYCIAN LETTER P:\u{10293}\n\
LYCIAN LETTER KK:\u{10294}\n\
LYCIAN LETTER R:\u{10295}\n\
LYCIAN LETTER S:\u{10296}\n\
LYCIAN LETTER T:\u{10297}\n\
LYCIAN LETTER TT:\u{10298}\n\
LYCIAN LETTER AN:\u{10299}\n\
LYCIAN LETTER EN:\u{1029A}\n\
LYCIAN LETTER H:\u{1029B}\n\
LYCIAN LETTER X:\u{1029C}\n\
CARIAN LETTER A:\u{102A0}\n\
CARIAN LETTER P2:\u{102A1}\n\
CARIAN LETTER D:\u{102A2}\n\
CARIAN LETTER L:\u{102A3}\n\
CARIAN LETTER UUU:\u{102A4}\n\
CARIAN LETTER R:\u{102A5}\n\
CARIAN LETTER LD:\u{102A6}\n\
CARIAN LETTER A2:\u{102A7}\n\
CARIAN LETTER Q:\u{102A8}\n\
CARIAN LETTER B:\u{102A9}\n\
CARIAN LETTER M:\u{102AA}\n\
CARIAN LETTER O:\u{102AB}\n\
CARIAN LETTER D2:\u{102AC}\n\
CARIAN LETTER T:\u{102AD}\n\
CARIAN LETTER SH:\u{102AE}\n\
CARIAN LETTER SH2:\u{102AF}\n\
CARIAN LETTER S:\u{102B0}\n\
CARIAN LETTER C-18:\u{102B1}\n\
CARIAN LETTER U:\u{102B2}\n\
CARIAN LETTER NN:\u{102B3}\n\
CARIAN LETTER X:\u{102B4}\n\
CARIAN LETTER N:\u{102B5}\n\
CARIAN LETTER TT2:\u{102B6}\n\
CARIAN LETTER P:\u{102B7}\n\
CARIAN LETTER SS:\u{102B8}\n\
CARIAN LETTER I:\u{102B9}\n\
CARIAN LETTER E:\u{102BA}\n\
CARIAN LETTER UUUU:\u{102BB}\n\
CARIAN LETTER K:\u{102BC}\n\
CARIAN LETTER K2:\u{102BD}\n\
CARIAN LETTER ND:\u{102BE}\n\
CARIAN LETTER UU:\u{102BF}\n\
CARIAN LETTER G:\u{102C0}\n\
CARIAN LETTER G2:\u{102C1}\n\
CARIAN LETTER ST:\u{102C2}\n\
CARIAN LETTER ST2:\u{102C3}\n\
CARIAN LETTER NG:\u{102C4}\n\
CARIAN LETTER II:\u{102C5}\n\
CARIAN LETTER C-39:\u{102C6}\n\
CARIAN LETTER TT:\u{102C7}\n\
CARIAN LETTER UUU2:\u{102C8}\n\
CARIAN LETTER RR:\u{102C9}\n\
CARIAN LETTER MB:\u{102CA}\n\
CARIAN LETTER MB2:\u{102CB}\n\
CARIAN LETTER MB3:\u{102CC}\n\
CARIAN LETTER MB4:\u{102CD}\n\
CARIAN LETTER LD2:\u{102CE}\n\
CARIAN LETTER E2:\u{102CF}\n\
CARIAN LETTER UUU3:\u{102D0}\n\
COPTIC EPACT THOUSANDS MARK:\u{102E0}\n\
COPTIC EPACT DIGIT ONE:\u{102E1}\n\
COPTIC EPACT DIGIT TWO:\u{102E2}\n\
COPTIC EPACT DIGIT THREE:\u{102E3}\n";

pub const NAMES_43: &'static str = "COPTIC EPACT DIGIT FOUR:\u{102E4}\n\
COPTIC EPACT DIGIT FIVE:\u{102E5}\n\
COPTIC EPACT DIGIT SIX:\u{102E6}\n\
COPTIC EPACT DIGIT SEVEN:\u{102E7}\n\
COPTIC EPACT DIGIT EIGHT:\u{102E8}\n\
COPTIC EPACT DIGIT NINE:\u{102E9}\n\
COPTIC EPACT NUMBER TEN:\u{102EA}\n\
COPTIC EPACT NUMBER TWENTY:\u{102EB}\n\
COPTIC EPACT NUMBER THIRTY:\u{102EC}\n\
COPTIC EPACT NUMBER FORTY:\u{102ED}\n\
COPTIC EPACT NUMBER FIFTY:\u{102EE}\n\
COPTIC EPACT NUMBER SIXTY:\u{102EF}\n\
COPTIC EPACT NUMBER SEVENTY:\u{102F0}\n\
COPTIC EPACT NUMBER EIGHTY:\u{102F1}\n\
COPTIC EPACT NUMBER NINETY:\u{102F2}\n\
COPTIC EPACT NUMBER ONE HUNDRED:\u{102F3}\n\
COPTIC EPACT NUMBER TWO HUNDRED:\u{102F4}\n\
COPTIC EPACT NUMBER THREE HUNDRED:\u{102F5}\n\
COPTIC EPACT NUMBER FOUR HUNDRED:\u{102F6}\n\
COPTIC EPACT NUMBER FIVE HUNDRED:\u{102F7}\n\
COPTIC EPACT NUMBER SIX HUNDRED:\u{102F8}\n\
COPTIC EPACT NUMBER SEVEN HUNDRED:\u{102F9}\n\
COPTIC EPACT NUMBER EIGHT HUNDRED:\u{102FA}\n\
COPTIC EPACT NUMBER NINE HUNDRED:\u{102FB}\n\
OLD ITALIC LETTER A:\u{10300}\n\
OLD ITALIC LETTER BE:\u{10301}\n\
OLD ITALIC LETTER KE:\u{10302}\n\
OLD ITALIC LETTER DE:\u{10303}\n\
OLD ITALIC LETTER E:\u{10304}\n\
OLD ITALIC LETTER VE:\u{10305}\n\
OLD ITALIC LETTER ZE:\u{10306}\n\
OLD ITALIC LETTER HE:\u{10307}\n\
OLD ITALIC LETTER THE:\u{10308}\n\
OLD ITALIC LETTER I:\u{10309}\n\
OLD ITALIC LETTER KA:\u{1030A}\n\
OLD ITALIC LETTER EL:\u{1030B}\n\
OLD ITALIC LETTER EM:\u{1030C}\n\
OLD ITALIC LETTER EN:\u{1030D}\n\
OLD ITALIC LETTER ESH:\u{1030E}\n\
OLD ITALIC LETTER O:\u{1030F}\n\
OLD ITALIC LETTER PE:\u{10310}\n\
OLD ITALIC LETTER SHE:\u{10311}\n\
OLD ITALIC LETTER KU:\u{10312}\n\
OLD ITALIC LETTER ER:\u{10313}\n\
OLD ITALIC LETTER ES:\u{10314}\n\
OLD ITALIC LETTER TE:\u{10315}\n\
OLD ITALIC LETTER U:\u{10316}\n\
OLD ITALIC LETTER EKS:\u{10317}\n\
OLD ITALIC LETTER PHE:\u{10318}\n\
OLD ITALIC LETTER KHE:\u{10319}\n\
OLD ITALIC LETTER EF:\u{1031A}\n\
OLD ITALIC LETTER ERS:\u{1031B}\n\
OLD ITALIC LETTER CHE:\u{1031C}\n\
OLD ITALIC LETTER II:\u{1031D}\n\
OLD ITALIC LETTER UU:\u{1031E}\n\
OLD ITALIC LETTER ESS:\u{1031F}\n\
OLD ITALIC NUMERAL ONE:\u{10320}\n\
OLD ITALIC NUMERAL FIVE:\u{10321}\n\
OLD ITALIC NUMERAL TEN:\u{10322}\n\
OLD ITALIC NUMERAL FIFTY:\u{10323}\n\
OLD ITALIC LETTER YE:\u{1032D}\n\
OLD ITALIC LETTER NORTHERN TSE:\u{1032E}\n\
OLD ITALIC LETTER SOUTHERN TSE:\u{1032F}\n\
GOTHIC LETTER AHSA:\u{10330}\n\
GOTHIC LETTER BAIRKAN:\u{10331}\n\
GOTHIC LETTER GIBA:\u{10332}\n\
GOTHIC LETTER DAGS:\u{10333}\n\
GOTHIC LETTER AIHVUS:\u{10334}\n\
GOTHIC LETTER QAIRTHRA:\u{10335}\n\
GOTHIC LETTER IUJA:\u{10336}\n\
GOTHIC LETTER HAGL:\u{10337}\n\
GOTHIC LETTER THIUTH:\u{10338}\n\
GOTHIC LETTER EIS:\u{10339}\n\
GOTHIC LETTER KUSMA:\u{1033A}\n\
GOTHIC LETTER LAGUS:\u{1033B}\n\
GOTHIC LETTER MANNA:\u{1033C}\n\
GOTHIC LETTER NAUTHS:\u{1033D}\n\
GOTHIC LETTER JER:\u{1033E}\n\
GOTHIC LETTER URUS:\u{1033F}\n\
GOTHIC LETTER PAIRTHRA:\u{10340}\n\
GOTHIC LETTER NINETY:\u{10341}\n\
GOTHIC LETTER RAIDA:\u{10342}\n\
GOTHIC LETTER SAUIL:\u{10343}\n\
GOTHIC LETTER TEIWS:\u{10344}\n\
GOTHIC LETTER WINJA:\u{10345}\n\
GOTHIC LETTER FAIHU:\u{10346}\n\
GOTHIC LETTER IGGWS:\u{10347}\n\
GOTHIC LETTER HWAIR:\u{10348}\n\
GOTHIC LETTER OTHAL:\u{10349}\n\
GOTHIC LETTER NINE HUNDRED:\u{1034A}\n\
OLD PERMIC LETTER AN:\u{10350}\n\
OLD PERMIC LETTER BUR:\u{10351}\n\
OLD PERMIC LETTER GAI:\u{10352}\n\
OLD PERMIC LETTER DOI:\u{10353}\n\
OLD PERMIC LETTER E:\u{10354}\n\
OLD PERMIC LETTER ZHOI:\u{10355}\n\
OLD PERMIC LETTER DZHOI:\u{10356}\n\
OLD PERMIC LETTER ZATA:\u{10357}\n\
OLD PERMIC LETTER DZITA:\u{10358}\n\
OLD PERMIC LETTER I:\u{10359}\n\
OLD PERMIC LETTER KOKE:\u{1035A}\n\
OLD PERMIC LETTER LEI:\u{1035B}\n\
OLD PERMIC LETTER MENOE:\u{1035C}\n\
OLD PERMIC LETTER NENOE:\u{1035D}\n\
OLD PERMIC LETTER VOOI:\u{1035E}\n\
OLD PERMIC LETTER PEEI:\u{1035F}\n\
OLD PERMIC LETTER REI:\u{10360}\n\
OLD PERMIC LETTER SII:\u{10361}\n\
OLD PERMIC LETTER TAI:\u{10362}\n\
OLD PERMIC LETTER U:\u{10363}\n\
OLD PERMIC LETTER CHERY:\u{10364}\n\
OLD PERMIC LETTER SHOOI:\u{10365}\n\
OLD PERMIC LETTER SHCHOOI:\u{10366}\n\
OLD PERMIC LETTER YRY:\u{10367}\n\
OLD PERMIC LETTER YERU:\u{10368}\n\
OLD PERMIC LETTER O:\u{10369}\n\
OLD PERMIC LETTER OO:\u{1036A}\n\
OLD PERMIC LETTER EF:\u{1036B}\n\
OLD PERMIC LETTER HA:\u{1036C}\n\
OLD PERMIC LETTER TSIU:\u{1036D}\n\
OLD PERMIC LETTER VER:\u{1036E}\n\
OLD PERMIC LETTER YER:\u{1036F}\n\
OLD PERMIC LETTER YERI:\u{10370}\n\
OLD PERMIC LETTER YAT:\u{10371}\n\
OLD PERMIC LETTER IE:\u{10372}\n\
OLD PERMIC LETTER YU:\u{10373}\n\
OLD PERMIC LETTER YA:\u{10374}\n\
OLD PERMIC LETTER IA:\u{10375}\n\
COMBINING OLD PERMIC LETTER AN:\u{10376}\n\
COMBINING OLD PERMIC LETTER DOI:\u{10377}\n\
COMBINING OLD PERMIC LETTER ZATA:\u{10378}\n\
COMBINING OLD PERMIC LETTER NENOE:\u{10379}\n\
COMBINING OLD PERMIC LETTER SII:\u{1037A}\n\
UGARITIC LETTER ALPA:\u{10380}\n\
UGARITIC LETTER BETA:\u{10381}\n\
UGARITIC LETTER GAMLA:\u{10382}\n\
UGARITIC LETTER KHA:\u{10383}\n\
UGARITIC LETTER DELTA:\u{10384}\n\
UGARITIC LETTER HO:\u{10385}\n\
UGARITIC LETTER WO:\u{10386}\n\
UGARITIC LETTER ZETA:\u{10387}\n\
UGARITIC LETTER HOTA:\u{10388}\n\
UGARITIC LETTER TET:\u{10389}\n\
UGARITIC LETTER YOD:\u{1038A}\n\
UGARITIC LETTER KAF:\u{1038B}\n\
UGARITIC LETTER SHIN:\u{1038C}\n\
UGARITIC LETTER LAMDA:\u{1038D}\n\
UGARITIC LETTER MEM:\u{1038E}\n\
UGARITIC LETTER DHAL:\u{1038F}\n\
UGARITIC LETTER NUN:\u{10390}\n\
UGARITIC LETTER ZU:\u{10391}\n\
UGARITIC LETTER SAMKA:\u{10392}\n\
UGARITIC LETTER AIN:\u{10393}\n\
UGARITIC LETTER PU:\u{10394}\n\
UGARITIC LETTER SADE:\u{10395}\n\
UGARITIC LETTER QOPA:\u{10396}\n\
UGARITIC LETTER RASHA:\u{10397}\n\
UGARITIC LETTER THANNA:\u{10398}\n\
UGARITIC LETTER GHAIN:\u{10399}\n\
UGARITIC LETTER TO:\u{1039A}\n\
UGARITIC LETTER I:\u{1039B}\n\
UGARITIC LETTER U:\u{1039C}\n\
UGARITIC LETTER SSU:\u{1039D}\n\
UGARITIC WORD DIVIDER:\u{1039F}\n\
OLD PERSIAN SIGN A:\u{103A0}\n\
OLD PERSIAN SIGN I:\u{103A1}\n\
OLD PERSIAN SIGN U:\u{103A2}\n\
OLD PERSIAN SIGN KA:\u{103A3}\n\
OLD PERSIAN SIGN KU:\u{103A4}\n\
OLD PERSIAN SIGN GA:\u{103A5}\n\
OLD PERSIAN SIGN GU:\u{103A6}\n\
OLD PERSIAN SIGN XA:\u{103A7}\n\
OLD PERSIAN SIGN CA:\u{103A8}\n\
OLD PERSIAN SIGN JA:\u{103A9}\n\
OLD PERSIAN SIGN JI:\u{103AA}\n\
OLD PERSIAN SIGN TA:\u{103AB}\n\
OLD PERSIAN SIGN TU:\u{103AC}\n\
OLD PERSIAN SIGN DA:\u{103AD}\n\
OLD PERSIAN SIGN DI:\u{103AE}\n\
OLD PERSIAN SIGN DU:\u{103AF}\n\
OLD PERSIAN SIGN THA:\u{103B0}\n\
OLD PERSIAN SIGN PA:\u{103B1}\n\
OLD PERSIAN SIGN BA:\u{103B2}\n\
OLD PERSIAN SIGN FA:\u{103B3}\n\
OLD PERSIAN SIGN NA:\u{103B4}\n\
OLD PERSIAN SIGN NU:\u{103B5}\n\
OLD PERSIAN SIGN MA:\u{103B6}\n\
OLD PERSIAN SIGN MI:\u{103B7}\n\
OLD PERSIAN SIGN MU:\u{103B8}\n\
OLD PERSIAN SIGN YA:\u{103B9}\n\
OLD PERSIAN SIGN VA:\u{103BA}\n\
OLD PERSIAN SIGN VI:\u{103BB}\n\
OLD PERSIAN SIGN RA:\u{103BC}\n\
OLD PERSIAN SIGN RU:\u{103BD}\n\
OLD PERSIAN SIGN LA:\u{103BE}\n\
OLD PERSIAN SIGN SA:\u{103BF}\n\
OLD PERSIAN SIGN ZA:\u{103C0}\n\
OLD PERSIAN SIGN SHA:\u{103C1}\n\
OLD PERSIAN SIGN SSA:\u{103C2}\n\
OLD PERSIAN SIGN HA:\u{103C3}\n\
OLD PERSIAN SIGN AURAMAZDAA:\u{103C8}\n\
OLD PERSIAN SIGN AURAMAZDAA-2:\u{103C9}\n\
OLD PERSIAN SIGN AURAMAZDAAHA:\u{103CA}\n\
OLD PERSIAN SIGN XSHAAYATHIYA:\u{103CB}\n\
OLD PERSIAN SIGN DAHYAAUSH:\u{103CC}\n\
OLD PERSIAN SIGN DAHYAAUSH-2:\u{103CD}\n\
OLD PERSIAN SIGN BAGA:\u{103CE}\n\
OLD PERSIAN SIGN BUUMISH:\u{103CF}\n\
OLD PERSIAN WORD DIVIDER:\u{103D0}\n\
OLD PERSIAN NUMBER ONE:\u{103D1}\n\
OLD PERSIAN NUMBER TWO:\u{103D2}\n\
OLD PERSIAN NUMBER TEN:\u{103D3}\n\
OLD PERSIAN NUMBER TWENTY:\u{103D4}\n\
OLD PERSIAN NUMBER HUNDRED:\u{103D5}\n\
DESERET CAPITAL LETTER LONG I:\u{10400}\n\
DESERET CAPITAL LETTER LONG E:\u{10401}\n\
DESERET CAPITAL LETTER LONG A:\u{10402}\n\
DESERET CAPITAL LETTER LONG AH:\u{10403}\n\
DESERET CAPITAL LETTER LONG O:\u{10404}\n\
DESERET CAPITAL LETTER LONG OO:\u{10405}\n\
DESERET CAPITAL LETTER SHORT I:\u{10406}\n\
DESERET CAPITAL LETTER SHORT E:\u{10407}\n\
DESERET CAPITAL LETTER SHORT A:\u{10408}\n\
DESERET CAPITAL LETTER SHORT AH:\u{10409}\n\
DESERET CAPITAL LETTER SHORT O:\u{1040A}\n\
DESERET CAPITAL LETTER SHORT OO:\u{1040B}\n\
DESERET CAPITAL LETTER AY:\u{1040C}\n\
DESERET CAPITAL LETTER OW:\u{1040D}\n\
DESERET CAPITAL LETTER WU:\u{1040E}\n\
DESERET CAPITAL LETTER YEE:\u{1040F}\n\
DESERET CAPITAL LETTER H:\u{10410}\n\
DESERET CAPITAL LETTER PEE:\u{10411}\n\
DESERET CAPITAL LETTER BEE:\u{10412}\n\
DESERET CAPITAL LETTER TEE:\u{10413}\n\
DESERET CAPITAL LETTER DEE:\u{10414}\n\
DESERET CAPITAL LETTER CHEE:\u{10415}\n\
DESERET CAPITAL LETTER JEE:\u{10416}\n\
DESERET CAPITAL LETTER KAY:\u{10417}\n\
DESERET CAPITAL LETTER GAY:\u{10418}\n\
DESERET CAPITAL LETTER EF:\u{10419}\n\
DESERET CAPITAL LETTER VEE:\u{1041A}\n\
DESERET CAPITAL LETTER ETH:\u{1041B}\n\
DESERET CAPITAL LETTER THEE:\u{1041C}\n\
DESERET CAPITAL LETTER ES:\u{1041D}\n\
DESERET CAPITAL LETTER ZEE:\u{1041E}\n\
DESERET CAPITAL LETTER ESH:\u{1041F}\n\
DESERET CAPITAL LETTER ZHEE:\u{10420}\n\
DESERET CAPITAL LETTER ER:\u{10421}\n\
DESERET CAPITAL LETTER EL:\u{10422}\n\
DESERET CAPITAL LETTER EM:\u{10423}\n\
DESERET CAPITAL LETTER EN:\u{10424}\n\
DESERET CAPITAL LETTER ENG:\u{10425}\n\
DESERET CAPITAL LETTER OI:\u{10426}\n\
DESERET CAPITAL LETTER EW:\u{10427}\n\
DESERET SMALL LETTER LONG I:\u{10428}\n\
DESERET SMALL LETTER LONG E:\u{10429}\n\
DESERET SMALL LETTER LONG A:\u{1042A}\n\
DESERET SMALL LETTER LONG AH:\u{1042B}\n\
DESERET SMALL LETTER LONG O:\u{1042C}\n\
DESERET SMALL LETTER LONG OO:\u{1042D}\n\
DESERET SMALL LETTER SHORT I:\u{1042E}\n\
DESERET SMALL LETTER SHORT E:\u{1042F}\n\
DESERET SMALL LETTER SHORT A:\u{10430}\n\
DESERET SMALL LETTER SHORT AH:\u{10431}\n\
DESERET SMALL LETTER SHORT O:\u{10432}\n\
DESERET SMALL LETTER SHORT OO:\u{10433}\n\
DESERET SMALL LETTER AY:\u{10434}\n\
DESERET SMALL LETTER OW:\u{10435}\n\
DESERET SMALL LETTER WU:\u{10436}\n\
DESERET SMALL LETTER YEE:\u{10437}\n\
DESERET SMALL LETTER H:\u{10438}\n\
DESERET SMALL LETTER PEE:\u{10439}\n\
DESERET SMALL LETTER BEE:\u{1043A}\n\
DESERET SMALL LETTER TEE:\u{1043B}\n\
DESERET SMALL LETTER DEE:\u{1043C}\n\
DESERET SMALL LETTER CHEE:\u{1043D}\n\
DESERET SMALL LETTER JEE:\u{1043E}\n\
DESERET SMALL LETTER KAY:\u{1043F}\n\
DESERET SMALL LETTER GAY:\u{10440}\n\
DESERET SMALL LETTER EF:\u{10441}\n\
DESERET SMALL LETTER VEE:\u{10442}\n\
DESERET SMALL LETTER ETH:\u{10443}\n\
DESERET SMALL LETTER THEE:\u{10444}\n\
DESERET SMALL LETTER ES:\u{10445}\n\
DESERET SMALL LETTER ZEE:\u{10446}\n\
DESERET SMALL LETTER ESH:\u{10447}\n\
DESERET SMALL LETTER ZHEE:\u{10448}\n\
DESERET SMALL LETTER ER:\u{10449}\n\
DESERET SMALL LETTER EL:\u{1044A}\n\
DESERET SMALL LETTER EM:\u{1044B}\n\
DESERET SMALL LETTER EN:\u{1044C}\n\
DESERET SMALL LETTER ENG:\u{1044D}\n\
DESERET SMALL LETTER OI:\u{1044E}\n\
DESERET SMALL LETTER EW:\u{1044F}\n\
SHAVIAN LETTER PEEP:\u{10450}\n\
SHAVIAN LETTER TOT:\u{10451}\n\
SHAVIAN LETTER KICK:\u{10452}\n\
SHAVIAN LETTER FEE:\u{10453}\n\
SHAVIAN LETTER THIGH:\u{10454}\n\
SHAVIAN LETTER SO:\u{10455}\n\
SHAVIAN LETTER SURE:\u{10456}\n\
SHAVIAN LETTER CHURCH:\u{10457}\n\
SHAVIAN LETTER YEA:\u{10458}\n\
SHAVIAN LETTER HUNG:\u{10459}\n\
SHAVIAN LETTER BIB:\u{1045A}\n\
SHAVIAN LETTER DEAD:\u{1045B}\n\
SHAVIAN LETTER GAG:\u{1045C}\n\
SHAVIAN LETTER VOW:\u{1045D}\n\
SHAVIAN LETTER THEY:\u{1045E}\n\
SHAVIAN LETTER ZOO:\u{1045F}\n\
SHAVIAN LETTER MEASURE:\u{10460}\n\
SHAVIAN LETTER JUDGE:\u{10461}\n\
SHAVIAN LETTER WOE:\u{10462}\n\
SHAVIAN LETTER HA-HA:\u{10463}\n\
SHAVIAN LETTER LOLL:\u{10464}\n\
SHAVIAN LETTER MIME:\u{10465}\n\
SHAVIAN LETTER IF:\u{10466}\n\
SHAVIAN LETTER EGG:\u{10467}\n\
SHAVIAN LETTER ASH:\u{10468}\n\
SHAVIAN LETTER ADO:\u{10469}\n\
SHAVIAN LETTER ON:\u{1046A}\n\
SHAVIAN LETTER WOOL:\u{1046B}\n\
SHAVIAN LETTER OUT:\u{1046C}\n\
SHAVIAN LETTER AH:\u{1046D}\n\
SHAVIAN LETTER ROAR:\u{1046E}\n\
SHAVIAN LETTER NUN:\u{1046F}\n\
SHAVIAN LETTER EAT:\u{10470}\n\
SHAVIAN LETTER AGE:\u{10471}\n\
SHAVIAN LETTER ICE:\u{10472}\n\
SHAVIAN LETTER UP:\u{10473}\n\
SHAVIAN LETTER OAK:\u{10474}\n\
SHAVIAN LETTER OOZE:\u{10475}\n\
SHAVIAN LETTER OIL:\u{10476}\n\
SHAVIAN LETTER AWE:\u{10477}\n\
SHAVIAN LETTER ARE:\u{10478}\n\
SHAVIAN LETTER OR:\u{10479}\n\
SHAVIAN LETTER AIR:\u{1047A}\n\
SHAVIAN LETTER ERR:\u{1047B}\n\
SHAVIAN LETTER ARRAY:\u{1047C}\n\
SHAVIAN LETTER EAR:\u{1047D}\n\
SHAVIAN LETTER IAN:\u{1047E}\n\
SHAVIAN LETTER YEW:\u{1047F}\n\
OSMANYA LETTER ALEF:\u{10480}\n\
OSMANYA LETTER BA:\u{10481}\n\
OSMANYA LETTER TA:\u{10482}\n\
OSMANYA LETTER JA:\u{10483}\n\
OSMANYA LETTER XA:\u{10484}\n\
OSMANYA LETTER KHA:\u{10485}\n\
OSMANYA LETTER DEEL:\u{10486}\n\
OSMANYA LETTER RA:\u{10487}\n\
OSMANYA LETTER SA:\u{10488}\n\
OSMANYA LETTER SHIIN:\u{10489}\n\
OSMANYA LETTER DHA:\u{1048A}\n\
OSMANYA LETTER CAYN:\u{1048B}\n\
OSMANYA LETTER GA:\u{1048C}\n\
OSMANYA LETTER FA:\u{1048D}\n\
OSMANYA LETTER QAAF:\u{1048E}\n\
OSMANYA LETTER KAAF:\u{1048F}\n\
OSMANYA LETTER LAAN:\u{10490}\n\
OSMANYA LETTER MIIN:\u{10491}\n\
OSMANYA LETTER NUUN:\u{10492}\n\
OSMANYA LETTER WAW:\u{10493}\n\
OSMANYA LETTER HA:\u{10494}\n\
OSMANYA LETTER YA:\u{10495}\n\
OSMANYA LETTER A:\u{10496}\n\
OSMANYA LETTER E:\u{10497}\n\
OSMANYA LETTER I:\u{10498}\n\
OSMANYA LETTER O:\u{10499}\n\
OSMANYA LETTER U:\u{1049A}\n\
OSMANYA LETTER AA:\u{1049B}\n\
OSMANYA LETTER EE:\u{1049C}\n\
OSMANYA LETTER OO:\u{1049D}\n\
OSMANYA DIGIT ZERO:\u{104A0}\n\
OSMANYA DIGIT ONE:\u{104A1}\n\
OSMANYA DIGIT TWO:\u{104A2}\n\
OSMANYA DIGIT THREE:\u{104A3}\n\
OSMANYA DIGIT FOUR:\u{104A4}\n\
OSMANYA DIGIT FIVE:\u{104A5}\n\
OSMANYA DIGIT SIX:\u{104A6}\n\
OSMANYA DIGIT SEVEN:\u{104A7}\n\
OSMANYA DIGIT EIGHT:\u{104A8}\n\
OSMANYA DIGIT NINE:\u{104A9}\n\
OSAGE CAPITAL LETTER A:\u{104B0}\n\
OSAGE CAPITAL LETTER AI:\u{104B1}\n\
OSAGE CAPITAL LETTER AIN:\u{104B2}\n\
OSAGE CAPITAL LETTER AH:\u{104B3}\n\
OSAGE CAPITAL LETTER BRA:\u{104B4}\n\
OSAGE CAPITAL LETTER CHA:\u{104B5}\n\
OSAGE CAPITAL LETTER EHCHA:\u{104B6}\n\
OSAGE CAPITAL LETTER E:\u{104B7}\n\
OSAGE CAPITAL LETTER EIN:\u{104B8}\n\
OSAGE CAPITAL LETTER HA:\u{104B9}\n\
OSAGE CAPITAL LETTER HYA:\u{104BA}\n\
OSAGE CAPITAL LETTER I:\u{104BB}\n\
OSAGE CAPITAL LETTER KA:\u{104BC}\n\
OSAGE CAPITAL LETTER EHKA:\u{104BD}\n\
OSAGE CAPITAL LETTER KYA:\u{104BE}\n\
OSAGE CAPITAL LETTER LA:\u{104BF}\n\
OSAGE CAPITAL LETTER MA:\u{104C0}\n\
OSAGE CAPITAL LETTER NA:\u{104C1}\n\
OSAGE CAPITAL LETTER O:\u{104C2}\n\
OSAGE CAPITAL LETTER OIN:\u{104C3}\n\
OSAGE CAPITAL LETTER PA:\u{104C4}\n\
OSAGE CAPITAL LETTER EHPA:\u{104C5}\n\
OSAGE CAPITAL LETTER SA:\u{104C6}\n\
OSAGE CAPITAL LETTER SHA:\u{104C7}\n\
OSAGE CAPITAL LETTER TA:\u{104C8}\n\
OSAGE CAPITAL LETTER EHTA:\u{104C9}\n\
OSAGE CAPITAL LETTER TSA:\u{104CA}\n\
OSAGE CAPITAL LETTER EHTSA:\u{104CB}\n\
OSAGE CAPITAL LETTER TSHA:\u{104CC}\n\
OSAGE CAPITAL LETTER DHA:\u{104CD}\n\
OSAGE CAPITAL LETTER U:\u{104CE}\n\
OSAGE CAPITAL LETTER WA:\u{104CF}\n\
OSAGE CAPITAL LETTER KHA:\u{104D0}\n\
OSAGE CAPITAL LETTER GHA:\u{104D1}\n\
OSAGE CAPITAL LETTER ZA:\u{104D2}\n\
OSAGE CAPITAL LETTER ZHA:\u{104D3}\n\
OSAGE SMALL LETTER A:\u{104D8}\n";

pub const NAMES_44: &'static str = "OSAGE SMALL LETTER AI:\u{104D9}\n\
OSAGE SMALL LETTER AIN:\u{104DA}\n\
OSAGE SMALL LETTER AH:\u{104DB}\n\
OSAGE SMALL LETTER BRA:\u{104DC}\n\
OSAGE SMALL LETTER CHA:\u{104DD}\n\
OSAGE SMALL LETTER EHCHA:\u{104DE}\n\
OSAGE SMALL LETTER E:\u{104DF}\n\
OSAGE SMALL LETTER EIN:\u{104E0}\n\
OSAGE SMALL LETTER HA:\u{104E1}\n\
OSAGE SMALL LETTER HYA:\u{104E2}\n\
OSAGE SMALL LETTER I:\u{104E3}\n\
OSAGE SMALL LETTER KA:\u{104E4}\n\
OSAGE SMALL LETTER EHKA:\u{104E5}\n\
OSAGE SMALL LETTER KYA:\u{104E6}\n\
OSAGE SMALL LETTER LA:\u{104E7}\n\
OSAGE SMALL LETTER MA:\u{104E8}\n\
OSAGE SMALL LETTER NA:\u{104E9}\n\
OSAGE SMALL LETTER O:\u{104EA}\n\
OSAGE SMALL LETTER OIN:\u{104EB}\n\
OSAGE SMALL LETTER PA:\u{104EC}\n\
OSAGE SMALL LETTER EHPA:\u{104ED}\n\
OSAGE SMALL LETTER SA:\u{104EE}\n\
OSAGE SMALL LETTER SHA:\u{104EF}\n\
OSAGE SMALL LETTER TA:\u{104F0}\n\
OSAGE SMALL LETTER EHTA:\u{104F1}\n\
OSAGE SMALL LETTER TSA:\u{104F2}\n\
OSAGE SMALL LETTER EHTSA:\u{104F3}\n\
OSAGE SMALL LETTER TSHA:\u{104F4}\n\
OSAGE SMALL LETTER DHA:\u{104F5}\n\
OSAGE SMALL LETTER U:\u{104F6}\n\
OSAGE SMALL LETTER WA:\u{104F7}\n\
OSAGE SMALL LETTER KHA:\u{104F8}\n\
OSAGE SMALL LETTER GHA:\u{104F9}\n\
OSAGE SMALL LETTER ZA:\u{104FA}\n\
OSAGE SMALL LETTER ZHA:\u{104FB}\n\
ELBASAN LETTER A:\u{10500}\n\
ELBASAN LETTER BE:\u{10501}\n\
ELBASAN LETTER CE:\u{10502}\n\
ELBASAN LETTER CHE:\u{10503}\n\
ELBASAN LETTER DE:\u{10504}\n\
ELBASAN LETTER NDE:\u{10505}\n\
ELBASAN LETTER DHE:\u{10506}\n\
ELBASAN LETTER EI:\u{10507}\n\
ELBASAN LETTER E:\u{10508}\n\
ELBASAN LETTER FE:\u{10509}\n\
ELBASAN LETTER GE:\u{1050A}\n\
ELBASAN LETTER GJE:\u{1050B}\n\
ELBASAN LETTER HE:\u{1050C}\n\
ELBASAN LETTER I:\u{1050D}\n\
ELBASAN LETTER JE:\u{1050E}\n\
ELBASAN LETTER KE:\u{1050F}\n\
ELBASAN LETTER LE:\u{10510}\n\
ELBASAN LETTER LLE:\u{10511}\n\
ELBASAN LETTER ME:\u{10512}\n\
ELBASAN LETTER NE:\u{10513}\n\
ELBASAN LETTER NA:\u{10514}\n\
ELBASAN LETTER NJE:\u{10515}\n\
ELBASAN LETTER O:\u{10516}\n\
ELBASAN LETTER PE:\u{10517}\n\
ELBASAN LETTER QE:\u{10518}\n\
ELBASAN LETTER RE:\u{10519}\n\
ELBASAN LETTER RRE:\u{1051A}\n\
ELBASAN LETTER SE:\u{1051B}\n\
ELBASAN LETTER SHE:\u{1051C}\n\
ELBASAN LETTER TE:\u{1051D}\n\
ELBASAN LETTER THE:\u{1051E}\n\
ELBASAN LETTER U:\u{1051F}\n\
ELBASAN LETTER VE:\u{10520}\n\
ELBASAN LETTER XE:\u{10521}\n\
ELBASAN LETTER Y:\u{10522}\n\
ELBASAN LETTER ZE:\u{10523}\n\
ELBASAN LETTER ZHE:\u{10524}\n\
ELBASAN LETTER GHE:\u{10525}\n\
ELBASAN LETTER GHAMMA:\u{10526}\n\
ELBASAN LETTER KHE:\u{10527}\n\
CAUCASIAN ALBANIAN LETTER ALT:\u{10530}\n\
CAUCASIAN ALBANIAN LETTER BET:\u{10531}\n\
CAUCASIAN ALBANIAN LETTER GIM:\u{10532}\n\
CAUCASIAN ALBANIAN LETTER DAT:\u{10533}\n\
CAUCASIAN ALBANIAN LETTER EB:\u{10534}\n\
CAUCASIAN ALBANIAN LETTER ZARL:\u{10535}\n\
CAUCASIAN ALBANIAN LETTER EYN:\u{10536}\n\
CAUCASIAN ALBANIAN LETTER ZHIL:\u{10537}\n\
CAUCASIAN ALBANIAN LETTER TAS:\u{10538}\n\
CAUCASIAN ALBANIAN LETTER CHA:\u{10539}\n\
CAUCASIAN ALBANIAN LETTER YOWD:\u{1053A}\n\
CAUCASIAN ALBANIAN LETTER ZHA:\u{1053B}\n\
CAUCASIAN ALBANIAN LETTER IRB:\u{1053C}\n\
CAUCASIAN ALBANIAN LETTER SHA:\u{1053D}\n\
CAUCASIAN ALBANIAN LETTER LAN:\u{1053E}\n\
CAUCASIAN ALBANIAN LETTER INYA:\u{1053F}\n\
CAUCASIAN ALBANIAN LETTER XEYN:\u{10540}\n\
CAUCASIAN ALBANIAN LETTER DYAN:\u{10541}\n\
CAUCASIAN ALBANIAN LETTER CAR:\u{10542}\n\
CAUCASIAN ALBANIAN LETTER JHOX:\u{10543}\n\
CAUCASIAN ALBANIAN LETTER KAR:\u{10544}\n\
CAUCASIAN ALBANIAN LETTER LYIT:\u{10545}\n\
CAUCASIAN ALBANIAN LETTER HEYT:\u{10546}\n\
CAUCASIAN ALBANIAN LETTER QAY:\u{10547}\n\
CAUCASIAN ALBANIAN LETTER AOR:\u{10548}\n\
CAUCASIAN ALBANIAN LETTER CHOY:\u{10549}\n\
CAUCASIAN ALBANIAN LETTER CHI:\u{1054A}\n\
CAUCASIAN ALBANIAN LETTER CYAY:\u{1054B}\n\
CAUCASIAN ALBANIAN LETTER MAQ:\u{1054C}\n\
CAUCASIAN ALBANIAN LETTER QAR:\u{1054D}\n\
CAUCASIAN ALBANIAN LETTER NOWC:\u{1054E}\n\
CAUCASIAN ALBANIAN LETTER DZYAY:\u{1054F}\n\
CAUCASIAN ALBANIAN LETTER SHAK:\u{10550}\n\
CAUCASIAN ALBANIAN LETTER JAYN:\u{10551}\n\
CAUCASIAN ALBANIAN LETTER ON:\u{10552}\n\
CAUCASIAN ALBANIAN LETTER TYAY:\u{10553}\n\
CAUCASIAN ALBANIAN LETTER FAM:\u{10554}\n\
CAUCASIAN ALBANIAN LETTER DZAY:\u{10555}\n\
CAUCASIAN ALBANIAN LETTER CHAT:\u{10556}\n\
CAUCASIAN ALBANIAN LETTER PEN:\u{10557}\n\
CAUCASIAN ALBANIAN LETTER GHEYS:\u{10558}\n\
CAUCASIAN ALBANIAN LETTER RAT:\u{10559}\n\
CAUCASIAN ALBANIAN LETTER SEYK:\u{1055A}\n\
CAUCASIAN ALBANIAN LETTER VEYZ:\u{1055B}\n\
CAUCASIAN ALBANIAN LETTER TIWR:\u{1055C}\n\
CAUCASIAN ALBANIAN LETTER SHOY:\u{1055D}\n\
CAUCASIAN ALBANIAN LETTER IWN:\u{1055E}\n\
CAUCASIAN ALBANIAN LETTER CYAW:\u{1055F}\n\
CAUCASIAN ALBANIAN LETTER CAYN:\u{10560}\n\
CAUCASIAN ALBANIAN LETTER YAYD:\u{10561}\n\
CAUCASIAN ALBANIAN LETTER PIWR:\u{10562}\n\
CAUCASIAN ALBANIAN LETTER KIW:\u{10563}\n\
CAUCASIAN ALBANIAN CITATION MARK:\u{1056F}\n\
VITHKUQI CAPITAL LETTER A:\u{10570}\n\
VITHKUQI CAPITAL LETTER BBE:\u{10571}\n\
VITHKUQI CAPITAL LETTER BE:\u{10572}\n\
VITHKUQI CAPITAL LETTER CE:\u{10573}\n\
VITHKUQI CAPITAL LETTER CHE:\u{10574}\n\
VITHKUQI CAPITAL LETTER DE:\u{10575}\n\
VITHKUQI CAPITAL LETTER DHE:\u{10576}\n\
VITHKUQI CAPITAL LETTER EI:\u{10577}\n\
VITHKUQI CAPITAL LETTER E:\u{10578}\n\
VITHKUQI CAPITAL LETTER FE:\u{10579}\n\
VITHKUQI CAPITAL LETTER GA:\u{1057A}\n\
VITHKUQI CAPITAL LETTER HA:\u{1057C}\n\
VITHKUQI CAPITAL LETTER HHA:\u{1057D}\n\
VITHKUQI CAPITAL LETTER I:\u{1057E}\n\
VITHKUQI CAPITAL LETTER IJE:\u{1057F}\n\
VITHKUQI CAPITAL LETTER JE:\u{10580}\n\
VITHKUQI CAPITAL LETTER KA:\u{10581}\n\
VITHKUQI CAPITAL LETTER LA:\u{10582}\n\
VITHKUQI CAPITAL LETTER LLA:\u{10583}\n\
VITHKUQI CAPITAL LETTER ME:\u{10584}\n\
VITHKUQI CAPITAL LETTER NE:\u{10585}\n\
VITHKUQI CAPITAL LETTER NJE:\u{10586}\n\
VITHKUQI CAPITAL LETTER O:\u{10587}\n\
VITHKUQI CAPITAL LETTER PE:\u{10588}\n\
VITHKUQI CAPITAL LETTER QA:\u{10589}\n\
VITHKUQI CAPITAL LETTER RE:\u{1058A}\n\
VITHKUQI CAPITAL LETTER SE:\u{1058C}\n\
VITHKUQI CAPITAL LETTER SHE:\u{1058D}\n\
VITHKUQI CAPITAL LETTER TE:\u{1058E}\n\
VITHKUQI CAPITAL LETTER THE:\u{1058F}\n\
VITHKUQI CAPITAL LETTER U:\u{10590}\n\
VITHKUQI CAPITAL LETTER VE:\u{10591}\n\
VITHKUQI CAPITAL LETTER XE:\u{10592}\n\
VITHKUQI CAPITAL LETTER Y:\u{10594}\n\
VITHKUQI CAPITAL LETTER ZE:\u{10595}\n\
VITHKUQI SMALL LETTER A:\u{10597}\n\
VITHKUQI SMALL LETTER BBE:\u{10598}\n\
VITHKUQI SMALL LETTER BE:\u{10599}\n\
VITHKUQI SMALL LETTER CE:\u{1059A}\n\
VITHKUQI SMALL LETTER CHE:\u{1059B}\n\
VITHKUQI SMALL LETTER DE:\u{1059C}\n\
VITHKUQI SMALL LETTER DHE:\u{1059D}\n\
VITHKUQI SMALL LETTER EI:\u{1059E}\n\
VITHKUQI SMALL LETTER E:\u{1059F}\n\
VITHKUQI SMALL LETTER FE:\u{105A0}\n\
VITHKUQI SMALL LETTER GA:\u{105A1}\n\
VITHKUQI SMALL LETTER HA:\u{105A3}\n\
VITHKUQI SMALL LETTER HHA:\u{105A4}\n\
VITHKUQI SMALL LETTER I:\u{105A5}\n\
VITHKUQI SMALL LETTER IJE:\u{105A6}\n\
VITHKUQI SMALL LETTER JE:\u{105A7}\n\
VITHKUQI SMALL LETTER KA:\u{105A8}\n\
VITHKUQI SMALL LETTER LA:\u{105A9}\n\
VITHKUQI SMALL LETTER LLA:\u{105AA}\n\
VITHKUQI SMALL LETTER ME:\u{105AB}\n\
VITHKUQI SMALL LETTER NE:\u{105AC}\n\
VITHKUQI SMALL LETTER NJE:\u{105AD}\n\
VITHKUQI SMALL LETTER O:\u{105AE}\n\
VITHKUQI SMALL LETTER PE:\u{105AF}\n\
VITHKUQI SMALL LETTER QA:\u{105B0}\n\
VITHKUQI SMALL LETTER RE:\u{105B1}\n\
VITHKUQI SMALL LETTER SE:\u{105B3}\n\
VITHKUQI SMALL LETTER SHE:\u{105B4}\n\
VITHKUQI SMALL LETTER TE:\u{105B5}\n\
VITHKUQI SMALL LETTER THE:\u{105B6}\n\
VITHKUQI SMALL LETTER U:\u{105B7}\n\
VITHKUQI SMALL LETTER VE:\u{105B8}\n\
VITHKUQI SMALL LETTER XE:\u{105B9}\n\
VITHKUQI SMALL LETTER Y:\u{105BB}\n\
VITHKUQI SMALL LETTER ZE:\u{105BC}\n\
LINEAR A SIGN AB001:\u{10600}\n\
LINEAR A SIGN AB002:\u{10601}\n\
LINEAR A SIGN AB003:\u{10602}\n\
LINEAR A SIGN AB004:\u{10603}\n\
LINEAR A SIGN AB005:\u{10604}\n\
LINEAR A SIGN AB006:\u{10605}\n\
LINEAR A SIGN AB007:\u{10606}\n\
LINEAR A SIGN AB008:\u{10607}\n\
LINEAR A SIGN AB009:\u{10608}\n\
LINEAR A SIGN AB010:\u{10609}\n\
LINEAR A SIGN AB011:\u{1060A}\n\
LINEAR A SIGN AB013:\u{1060B}\n\
LINEAR A SIGN AB016:\u{1060C}\n\
LINEAR A SIGN AB017:\u{1060D}\n\
LINEAR A SIGN AB020:\u{1060E}\n\
LINEAR A SIGN AB021:\u{1060F}\n\
LINEAR A SIGN AB021F:\u{10610}\n\
LINEAR A SIGN AB021M:\u{10611}\n\
LINEAR A SIGN AB022:\u{10612}\n\
LINEAR A SIGN AB022F:\u{10613}\n\
LINEAR A SIGN AB022M:\u{10614}\n\
LINEAR A SIGN AB023:\u{10615}\n\
LINEAR A SIGN AB023M:\u{10616}\n\
LINEAR A SIGN AB024:\u{10617}\n\
LINEAR A SIGN AB026:\u{10618}\n\
LINEAR A SIGN AB027:\u{10619}\n\
LINEAR A SIGN AB028:\u{1061A}\n\
LINEAR A SIGN A028B:\u{1061B}\n\
LINEAR A SIGN AB029:\u{1061C}\n\
LINEAR A SIGN AB030:\u{1061D}\n\
LINEAR A SIGN AB031:\u{1061E}\n\
LINEAR A SIGN AB034:\u{1061F}\n\
LINEAR A SIGN AB037:\u{10620}\n\
LINEAR A SIGN AB038:\u{10621}\n\
LINEAR A SIGN AB039:\u{10622}\n\
LINEAR A SIGN AB040:\u{10623}\n\
LINEAR A SIGN AB041:\u{10624}\n\
LINEAR A SIGN AB044:\u{10625}\n\
LINEAR A SIGN AB045:\u{10626}\n\
LINEAR A SIGN AB046:\u{10627}\n\
LINEAR A SIGN AB047:\u{10628}\n\
LINEAR A SIGN AB048:\u{10629}\n\
LINEAR A SIGN AB049:\u{1062A}\n\
LINEAR A SIGN AB050:\u{1062B}\n\
LINEAR A SIGN AB051:\u{1062C}\n\
LINEAR A SIGN AB053:\u{1062D}\n\
LINEAR A SIGN AB054:\u{1062E}\n\
LINEAR A SIGN AB055:\u{1062F}\n\
LINEAR A SIGN AB056:\u{10630}\n\
LINEAR A SIGN AB057:\u{10631}\n\
LINEAR A SIGN AB058:\u{10632}\n\
LINEAR A SIGN AB059:\u{10633}\n\
LINEAR A SIGN AB060:\u{10634}\n\
LINEAR A SIGN AB061:\u{10635}\n\
LINEAR A SIGN AB065:\u{10636}\n\
LINEAR A SIGN AB066:\u{10637}\n\
LINEAR A SIGN AB067:\u{10638}\n\
LINEAR A SIGN AB069:\u{10639}\n\
LINEAR A SIGN AB070:\u{1063A}\n\
LINEAR A SIGN AB073:\u{1063B}\n\
LINEAR A SIGN AB074:\u{1063C}\n\
LINEAR A SIGN AB076:\u{1063D}\n\
LINEAR A SIGN AB077:\u{1063E}\n\
LINEAR A SIGN AB078:\u{1063F}\n\
LINEAR A SIGN AB079:\u{10640}\n\
LINEAR A SIGN AB080:\u{10641}\n\
LINEAR A SIGN AB081:\u{10642}\n\
LINEAR A SIGN AB082:\u{10643}\n\
LINEAR A SIGN AB085:\u{10644}\n\
LINEAR A SIGN AB086:\u{10645}\n\
LINEAR A SIGN AB087:\u{10646}\n\
LINEAR A SIGN A100-102:\u{10647}\n\
LINEAR A SIGN AB118:\u{10648}\n\
LINEAR A SIGN AB120:\u{10649}\n\
LINEAR A SIGN A120B:\u{1064A}\n\
LINEAR A SIGN AB122:\u{1064B}\n\
LINEAR A SIGN AB123:\u{1064C}\n\
LINEAR A SIGN AB131A:\u{1064D}\n\
LINEAR A SIGN AB131B:\u{1064E}\n\
LINEAR A SIGN A131C:\u{1064F}\n\
LINEAR A SIGN AB164:\u{10650}\n\
LINEAR A SIGN AB171:\u{10651}\n\
LINEAR A SIGN AB180:\u{10652}\n\
LINEAR A SIGN AB188:\u{10653}\n\
LINEAR A SIGN AB191:\u{10654}\n\
LINEAR A SIGN A301:\u{10655}\n\
LINEAR A SIGN A302:\u{10656}\n\
LINEAR A SIGN A303:\u{10657}\n\
LINEAR A SIGN A304:\u{10658}\n\
LINEAR A SIGN A305:\u{10659}\n\
LINEAR A SIGN A306:\u{1065A}\n\
LINEAR A SIGN A307:\u{1065B}\n\
LINEAR A SIGN A308:\u{1065C}\n\
LINEAR A SIGN A309A:\u{1065D}\n\
LINEAR A SIGN A309B:\u{1065E}\n\
LINEAR A SIGN A309C:\u{1065F}\n\
LINEAR A SIGN A310:\u{10660}\n\
LINEAR A SIGN A311:\u{10661}\n\
LINEAR A SIGN A312:\u{10662}\n\
LINEAR A SIGN A313A:\u{10663}\n\
LINEAR A SIGN A313B:\u{10664}\n\
LINEAR A SIGN A313C:\u{10665}\n\
LINEAR A SIGN A314:\u{10666}\n\
LINEAR A SIGN A315:\u{10667}\n\
LINEAR A SIGN A316:\u{10668}\n\
LINEAR A SIGN A317:\u{10669}\n\
LINEAR A SIGN A318:\u{1066A}\n\
LINEAR A SIGN A319:\u{1066B}\n\
LINEAR A SIGN A320:\u{1066C}\n\
LINEAR A SIGN A321:\u{1066D}\n\
LINEAR A SIGN A322:\u{1066E}\n\
LINEAR A SIGN A323:\u{1066F}\n\
LINEAR A SIGN A324:\u{10670}\n\
LINEAR A SIGN A325:\u{10671}\n\
LINEAR A SIGN A326:\u{10672}\n\
LINEAR A SIGN A327:\u{10673}\n\
LINEAR A SIGN A328:\u{10674}\n\
LINEAR A SIGN A329:\u{10675}\n\
LINEAR A SIGN A330:\u{10676}\n\
LINEAR A SIGN A331:\u{10677}\n\
LINEAR A SIGN A332:\u{10678}\n\
LINEAR A SIGN A333:\u{10679}\n\
LINEAR A SIGN A334:\u{1067A}\n\
LINEAR A SIGN A335:\u{1067B}\n\
LINEAR A SIGN A336:\u{1067C}\n\
LINEAR A SIGN A337:\u{1067D}\n\
LINEAR A SIGN A338:\u{1067E}\n\
LINEAR A SIGN A339:\u{1067F}\n\
LINEAR A SIGN A340:\u{10680}\n\
LINEAR A SIGN A341:\u{10681}\n\
LINEAR A SIGN A342:\u{10682}\n\
LINEAR A SIGN A343:\u{10683}\n\
LINEAR A SIGN A344:\u{10684}\n\
LINEAR A SIGN A345:\u{10685}\n\
LINEAR A SIGN A346:\u{10686}\n\
LINEAR A SIGN A347:\u{10687}\n\
LINEAR A SIGN A348:\u{10688}\n\
LINEAR A SIGN A349:\u{10689}\n\
LINEAR A SIGN A350:\u{1068A}\n\
LINEAR A SIGN A351:\u{1068B}\n\
LINEAR A SIGN A352:\u{1068C}\n\
LINEAR A SIGN A353:\u{1068D}\n\
LINEAR A SIGN A354:\u{1068E}\n\
LINEAR A SIGN A355:\u{1068F}\n\
LINEAR A SIGN A356:\u{10690}\n\
LINEAR A SIGN A357:\u{10691}\n\
LINEAR A SIGN A358:\u{10692}\n\
LINEAR A SIGN A359:\u{10693}\n\
LINEAR A SIGN A360:\u{10694}\n\
LINEAR A SIGN A361:\u{10695}\n\
LINEAR A SIGN A362:\u{10696}\n\
LINEAR A SIGN A363:\u{10697}\n\
LINEAR A SIGN A364:\u{10698}\n\
LINEAR A SIGN A365:\u{10699}\n\
LINEAR A SIGN A366:\u{1069A}\n\
LINEAR A SIGN A367:\u{1069B}\n\
LINEAR A SIGN A368:\u{1069C}\n\
LINEAR A SIGN A369:\u{1069D}\n\
LINEAR A SIGN A370:\u{1069E}\n\
LINEAR A SIGN A371:\u{1069F}\n\
LINEAR A SIGN A400-VAS:\u{106A0}\n\
LINEAR A SIGN A401-VAS:\u{106A1}\n\
LINEAR A SIGN A402-VAS:\u{106A2}\n\
LINEAR A SIGN A403-VAS:\u{106A3}\n\
LINEAR A SIGN A404-VAS:\u{106A4}\n\
LINEAR A SIGN A405-VAS:\u{106A5}\n\
LINEAR A SIGN A406-VAS:\u{106A6}\n\
LINEAR A SIGN A407-VAS:\u{106A7}\n\
LINEAR A SIGN A408-VAS:\u{106A8}\n\
LINEAR A SIGN A409-VAS:\u{106A9}\n\
LINEAR A SIGN A410-VAS:\u{106AA}\n\
LINEAR A SIGN A411-VAS:\u{106AB}\n\
LINEAR A SIGN A412-VAS:\u{106AC}\n\
LINEAR A SIGN A413-VAS:\u{106AD}\n\
LINEAR A SIGN A414-VAS:\u{106AE}\n\
LINEAR A SIGN A415-VAS:\u{106AF}\n\
LINEAR A SIGN A416-VAS:\u{106B0}\n\
LINEAR A SIGN A417-VAS:\u{106B1}\n\
LINEAR A SIGN A418-VAS:\u{106B2}\n\
LINEAR A SIGN A501:\u{106B3}\n\
LINEAR A SIGN A502:\u{106B4}\n\
LINEAR A SIGN A503:\u{106B5}\n\
LINEAR A SIGN A504:\u{106B6}\n\
LINEAR A SIGN A505:\u{106B7}\n\
LINEAR A SIGN A506:\u{106B8}\n\
LINEAR A SIGN A508:\u{106B9}\n\
LINEAR A SIGN A509:\u{106BA}\n\
LINEAR A SIGN A510:\u{106BB}\n\
LINEAR A SIGN A511:\u{106BC}\n\
LINEAR A SIGN A512:\u{106BD}\n\
LINEAR A SIGN A513:\u{106BE}\n\
LINEAR A SIGN A515:\u{106BF}\n\
LINEAR A SIGN A516:\u{106C0}\n\
LINEAR A SIGN A520:\u{106C1}\n\
LINEAR A SIGN A521:\u{106C2}\n\
LINEAR A SIGN A523:\u{106C3}\n\
LINEAR A SIGN A524:\u{106C4}\n\
LINEAR A SIGN A525:\u{106C5}\n\
LINEAR A SIGN A526:\u{106C6}\n\
LINEAR A SIGN A527:\u{106C7}\n\
LINEAR A SIGN A528:\u{106C8}\n\
LINEAR A SIGN A529:\u{106C9}\n\
LINEAR A SIGN A530:\u{106CA}\n\
LINEAR A SIGN A531:\u{106CB}\n\
LINEAR A SIGN A532:\u{106CC}\n\
LINEAR A SIGN A534:\u{106CD}\n\
LINEAR A SIGN A535:\u{106CE}\n\
LINEAR A SIGN A536:\u{106CF}\n\
LINEAR A SIGN A537:\u{106D0}\n\
LINEAR A SIGN A538:\u{106D1}\n\
LINEAR A SIGN A539:\u{106D2}\n\
LINEAR A SIGN A540:\u{106D3}\n\
LINEAR A SIGN A541:\u{106D4}\n\
LINEAR A SIGN A542:\u{106D5}\n\
LINEAR A SIGN A545:\u{106D6}\n\
LINEAR A SIGN A547:\u{106D7}\n\
LINEAR A SIGN A548:\u{106D8}\n\
LINEAR A SIGN A549:\u{106D9}\n\
LINEAR A SIGN A550:\u{106DA}\n\
LINEAR A SIGN A551:\u{106DB}\n\
LINEAR A SIGN A552:\u{106DC}\n\
LINEAR A SIGN A553:\u{106DD}\n\
LINEAR A SIGN A554:\u{106DE}\n\
LINEAR A SIGN A555:\u{106DF}\n\
LINEAR A SIGN A556:\u{106E0}\n\
LINEAR A SIGN A557:\u{106E1}\n\
LINEAR A SIGN A559:\u{106E2}\n";

pub const NAMES_45: &'static str = "LINEAR A SIGN A563:\u{106E3}\n\
LINEAR A SIGN A564:\u{106E4}\n\
LINEAR A SIGN A565:\u{106E5}\n\
LINEAR A SIGN A566:\u{106E6}\n\
LINEAR A SIGN A568:\u{106E7}\n\
LINEAR A SIGN A569:\u{106E8}\n\
LINEAR A SIGN A570:\u{106E9}\n\
LINEAR A SIGN A571:\u{106EA}\n\
LINEAR A SIGN A572:\u{106EB}\n\
LINEAR A SIGN A573:\u{106EC}\n\
LINEAR A SIGN A574:\u{106ED}\n\
LINEAR A SIGN A575:\u{106EE}\n\
LINEAR A SIGN A576:\u{106EF}\n\
LINEAR A SIGN A577:\u{106F0}\n\
LINEAR A SIGN A578:\u{106F1}\n\
LINEAR A SIGN A579:\u{106F2}\n\
LINEAR A SIGN A580:\u{106F3}\n\
LINEAR A SIGN A581:\u{106F4}\n\
LINEAR A SIGN A582:\u{106F5}\n\
LINEAR A SIGN A583:\u{106F6}\n\
LINEAR A SIGN A584:\u{106F7}\n\
LINEAR A SIGN A585:\u{106F8}\n\
LINEAR A SIGN A586:\u{106F9}\n\
LINEAR A SIGN A587:\u{106FA}\n\
LINEAR A SIGN A588:\u{106FB}\n\
LINEAR A SIGN A589:\u{106FC}\n\
LINEAR A SIGN A591:\u{106FD}\n\
LINEAR A SIGN A592:\u{106FE}\n\
LINEAR A SIGN A594:\u{106FF}\n\
LINEAR A SIGN A595:\u{10700}\n\
LINEAR A SIGN A596:\u{10701}\n\
LINEAR A SIGN A598:\u{10702}\n\
LINEAR A SIGN A600:\u{10703}\n\
LINEAR A SIGN A601:\u{10704}\n\
LINEAR A SIGN A602:\u{10705}\n\
LINEAR A SIGN A603:\u{10706}\n\
LINEAR A SIGN A604:\u{10707}\n\
LINEAR A SIGN A606:\u{10708}\n\
LINEAR A SIGN A608:\u{10709}\n\
LINEAR A SIGN A609:\u{1070A}\n\
LINEAR A SIGN A610:\u{1070B}\n\
LINEAR A SIGN A611:\u{1070C}\n\
LINEAR A SIGN A612:\u{1070D}\n\
LINEAR A SIGN A613:\u{1070E}\n\
LINEAR A SIGN A614:\u{1070F}\n\
LINEAR A SIGN A615:\u{10710}\n\
LINEAR A SIGN A616:\u{10711}\n\
LINEAR A SIGN A617:\u{10712}\n\
LINEAR A SIGN A618:\u{10713}\n\
LINEAR A SIGN A619:\u{10714}\n\
LINEAR A SIGN A620:\u{10715}\n\
LINEAR A SIGN A621:\u{10716}\n\
LINEAR A SIGN A622:\u{10717}\n\
LINEAR A SIGN A623:\u{10718}\n\
LINEAR A SIGN A624:\u{10719}\n\
LINEAR A SIGN A626:\u{1071A}\n\
LINEAR A SIGN A627:\u{1071B}\n\
LINEAR A SIGN A628:\u{1071C}\n\
LINEAR A SIGN A629:\u{1071D}\n\
LINEAR A SIGN A634:\u{1071E}\n\
LINEAR A SIGN A637:\u{1071F}\n\
LINEAR A SIGN A638:\u{10720}\n\
LINEAR A SIGN A640:\u{10721}\n\
LINEAR A SIGN A642:\u{10722}\n\
LINEAR A SIGN A643:\u{10723}\n\
LINEAR A SIGN A644:\u{10724}\n\
LINEAR A SIGN A645:\u{10725}\n\
LINEAR A SIGN A646:\u{10726}\n\
LINEAR A SIGN A648:\u{10727}\n\
LINEAR A SIGN A649:\u{10728}\n\
LINEAR A SIGN A651:\u{10729}\n\
LINEAR A SIGN A652:\u{1072A}\n\
LINEAR A SIGN A653:\u{1072B}\n\
LINEAR A SIGN A654:\u{1072C}\n\
LINEAR A SIGN A655:\u{1072D}\n\
LINEAR A SIGN A656:\u{1072E}\n\
LINEAR A SIGN A657:\u{1072F}\n\
LINEAR A SIGN A658:\u{10730}\n\
LINEAR A SIGN A659:\u{10731}\n\
LINEAR A SIGN A660:\u{10732}\n\
LINEAR A SIGN A661:\u{10733}\n\
LINEAR A SIGN A662:\u{10734}\n\
LINEAR A SIGN A663:\u{10735}\n\
LINEAR A SIGN A664:\u{10736}\n\
LINEAR A SIGN A701 A:\u{10740}\n\
LINEAR A SIGN A702 B:\u{10741}\n\
LINEAR A SIGN A703 D:\u{10742}\n\
LINEAR A SIGN A704 E:\u{10743}\n\
LINEAR A SIGN A705 F:\u{10744}\n\
LINEAR A SIGN A706 H:\u{10745}\n\
LINEAR A SIGN A707 J:\u{10746}\n\
LINEAR A SIGN A708 K:\u{10747}\n\
LINEAR A SIGN A709 L:\u{10748}\n\
LINEAR A SIGN A709-2 L2:\u{10749}\n\
LINEAR A SIGN A709-3 L3:\u{1074A}\n\
LINEAR A SIGN A709-4 L4:\u{1074B}\n\
LINEAR A SIGN A709-6 L6:\u{1074C}\n\
LINEAR A SIGN A710 W:\u{1074D}\n\
LINEAR A SIGN A711 X:\u{1074E}\n\
LINEAR A SIGN A712 Y:\u{1074F}\n\
LINEAR A SIGN A713 OMEGA:\u{10750}\n\
LINEAR A SIGN A714 ABB:\u{10751}\n\
LINEAR A SIGN A715 BB:\u{10752}\n\
LINEAR A SIGN A717 DD:\u{10753}\n\
LINEAR A SIGN A726 EYYY:\u{10754}\n\
LINEAR A SIGN A732 JE:\u{10755}\n\
LINEAR A SIGN A800:\u{10760}\n\
LINEAR A SIGN A801:\u{10761}\n\
LINEAR A SIGN A802:\u{10762}\n\
LINEAR A SIGN A803:\u{10763}\n\
LINEAR A SIGN A804:\u{10764}\n\
LINEAR A SIGN A805:\u{10765}\n\
LINEAR A SIGN A806:\u{10766}\n\
LINEAR A SIGN A807:\u{10767}\n\
MODIFIER LETTER SMALL CAPITAL AA:\u{10780}\n\
MODIFIER LETTER SUPERSCRIPT TRIANGULAR COLON:\u{10781}\n\
MODIFIER LETTER SUPERSCRIPT HALF TRIANGULAR COLON:\u{10782}\n\
MODIFIER LETTER SMALL AE:\u{10783}\n\
MODIFIER LETTER SMALL CAPITAL B:\u{10784}\n\
MODIFIER LETTER SMALL B WITH HOOK:\u{10785}\n\
MODIFIER LETTER SMALL DZ DIGRAPH:\u{10787}\n\
MODIFIER LETTER SMALL DZ DIGRAPH WITH RETROFLEX HOOK:\u{10788}\n\
MODIFIER LETTER SMALL DZ DIGRAPH WITH CURL:\u{10789}\n\
MODIFIER LETTER SMALL DEZH DIGRAPH:\u{1078A}\n\
MODIFIER LETTER SMALL D WITH TAIL:\u{1078B}\n\
MODIFIER LETTER SMALL D WITH HOOK:\u{1078C}\n\
MODIFIER LETTER SMALL D WITH HOOK AND TAIL:\u{1078D}\n\
MODIFIER LETTER SMALL REVERSED E:\u{1078E}\n\
MODIFIER LETTER SMALL CLOSED REVERSED OPEN E:\u{1078F}\n\
MODIFIER LETTER SMALL FENG DIGRAPH:\u{10790}\n\
MODIFIER LETTER SMALL RAMS HORN:\u{10791}\n\
MODIFIER LETTER SMALL CAPITAL G:\u{10792}\n\
MODIFIER LETTER SMALL G WITH HOOK:\u{10793}\n\
MODIFIER LETTER SMALL CAPITAL G WITH HOOK:\u{10794}\n\
MODIFIER LETTER SMALL H WITH STROKE:\u{10795}\n\
MODIFIER LETTER SMALL CAPITAL H:\u{10796}\n\
MODIFIER LETTER SMALL HENG WITH HOOK:\u{10797}\n\
MODIFIER LETTER SMALL DOTLESS J WITH STROKE AND HOOK:\u{10798}\n\
MODIFIER LETTER SMALL LS DIGRAPH:\u{10799}\n\
MODIFIER LETTER SMALL LZ DIGRAPH:\u{1079A}\n\
MODIFIER LETTER SMALL L WITH BELT:\u{1079B}\n\
MODIFIER LETTER SMALL CAPITAL L WITH BELT:\u{1079C}\n\
MODIFIER LETTER SMALL L WITH RETROFLEX HOOK AND BELT:\u{1079D}\n\
MODIFIER LETTER SMALL LEZH:\u{1079E}\n\
MODIFIER LETTER SMALL LEZH WITH RETROFLEX HOOK:\u{1079F}\n\
MODIFIER LETTER SMALL TURNED Y:\u{107A0}\n\
MODIFIER LETTER SMALL TURNED Y WITH BELT:\u{107A1}\n\
MODIFIER LETTER SMALL O WITH STROKE:\u{107A2}\n\
MODIFIER LETTER SMALL CAPITAL OE:\u{107A3}\n\
MODIFIER LETTER SMALL CLOSED OMEGA:\u{107A4}\n\
MODIFIER LETTER SMALL Q:\u{107A5}\n\
MODIFIER LETTER SMALL TURNED R WITH LONG LEG:\u{107A6}\n\
MODIFIER LETTER SMALL TURNED R WITH LONG LEG AND RETROFLEX HOOK:\u{107A7}\n\
MODIFIER LETTER SMALL R WITH TAIL:\u{107A8}\n\
MODIFIER LETTER SMALL R WITH FISHHOOK:\u{107A9}\n\
MODIFIER LETTER SMALL CAPITAL R:\u{107AA}\n\
MODIFIER LETTER SMALL TC DIGRAPH WITH CURL:\u{107AB}\n\
MODIFIER LETTER SMALL TS DIGRAPH:\u{107AC}\n\
MODIFIER LETTER SMALL TS DIGRAPH WITH RETROFLEX HOOK:\u{107AD}\n\
MODIFIER LETTER SMALL TESH DIGRAPH:\u{107AE}\n\
MODIFIER LETTER SMALL T WITH RETROFLEX HOOK:\u{107AF}\n\
MODIFIER LETTER SMALL V WITH RIGHT HOOK:\u{107B0}\n\
MODIFIER LETTER SMALL CAPITAL Y:\u{107B2}\n\
MODIFIER LETTER GLOTTAL STOP WITH STROKE:\u{107B3}\n\
MODIFIER LETTER REVERSED GLOTTAL STOP WITH STROKE:\u{107B4}\n\
MODIFIER LETTER BILABIAL CLICK:\u{107B5}\n\
MODIFIER LETTER DENTAL CLICK:\u{107B6}\n\
MODIFIER LETTER LATERAL CLICK:\u{107B7}\n\
MODIFIER LETTER ALVEOLAR CLICK:\u{107B8}\n\
MODIFIER LETTER RETROFLEX CLICK WITH RETROFLEX HOOK:\u{107B9}\n\
MODIFIER LETTER SMALL S WITH CURL:\u{107BA}\n\
CYPRIOT SYLLABLE A:\u{10800}\n\
CYPRIOT SYLLABLE E:\u{10801}\n\
CYPRIOT SYLLABLE I:\u{10802}\n\
CYPRIOT SYLLABLE O:\u{10803}\n\
CYPRIOT SYLLABLE U:\u{10804}\n\
CYPRIOT SYLLABLE JA:\u{10805}\n\
CYPRIOT SYLLABLE JO:\u{10808}\n\
CYPRIOT SYLLABLE KA:\u{1080A}\n\
CYPRIOT SYLLABLE KE:\u{1080B}\n\
CYPRIOT SYLLABLE KI:\u{1080C}\n\
CYPRIOT SYLLABLE KO:\u{1080D}\n\
CYPRIOT SYLLABLE KU:\u{1080E}\n\
CYPRIOT SYLLABLE LA:\u{1080F}\n\
CYPRIOT SYLLABLE LE:\u{10810}\n\
CYPRIOT SYLLABLE LI:\u{10811}\n\
CYPRIOT SYLLABLE LO:\u{10812}\n\
CYPRIOT SYLLABLE LU:\u{10813}\n\
CYPRIOT SYLLABLE MA:\u{10814}\n\
CYPRIOT SYLLABLE ME:\u{10815}\n\
CYPRIOT SYLLABLE MI:\u{10816}\n\
CYPRIOT SYLLABLE MO:\u{10817}\n\
CYPRIOT SYLLABLE MU:\u{10818}\n\
CYPRIOT SYLLABLE NA:\u{10819}\n\
CYPRIOT SYLLABLE NE:\u{1081A}\n\
CYPRIOT SYLLABLE NI:\u{1081B}\n\
CYPRIOT SYLLABLE NO:\u{1081C}\n\
CYPRIOT SYLLABLE NU:\u{1081D}\n\
CYPRIOT SYLLABLE PA:\u{1081E}\n\
CYPRIOT SYLLABLE PE:\u{1081F}\n\
CYPRIOT SYLLABLE PI:\u{10820}\n\
CYPRIOT SYLLABLE PO:\u{10821}\n\
CYPRIOT SYLLABLE PU:\u{10822}\n\
CYPRIOT SYLLABLE RA:\u{10823}\n\
CYPRIOT SYLLABLE RE:\u{10824}\n\
CYPRIOT SYLLABLE RI:\u{10825}\n\
CYPRIOT SYLLABLE RO:\u{10826}\n\
CYPRIOT SYLLABLE RU:\u{10827}\n\
CYPRIOT SYLLABLE SA:\u{10828}\n\
CYPRIOT SYLLABLE SE:\u{10829}\n\
CYPRIOT SYLLABLE SI:\u{1082A}\n\
CYPRIOT SYLLABLE SO:\u{1082B}\n\
CYPRIOT SYLLABLE SU:\u{1082C}\n\
CYPRIOT SYLLABLE TA:\u{1082D}\n\
CYPRIOT SYLLABLE TE:\u{1082E}\n\
CYPRIOT SYLLABLE TI:\u{1082F}\n\
CYPRIOT SYLLABLE TO:\u{10830}\n\
CYPRIOT SYLLABLE TU:\u{10831}\n\
CYPRIOT SYLLABLE WA:\u{10832}\n\
CYPRIOT SYLLABLE WE:\u{10833}\n\
CYPRIOT SYLLABLE WI:\u{10834}\n\
CYPRIOT SYLLABLE WO:\u{10835}\n\
CYPRIOT SYLLABLE XA:\u{10837}\n\
CYPRIOT SYLLABLE XE:\u{10838}\n\
CYPRIOT SYLLABLE ZA:\u{1083C}\n\
CYPRIOT SYLLABLE ZO:\u{1083F}\n\
IMPERIAL ARAMAIC LETTER ALEPH:\u{10840}\n\
IMPERIAL ARAMAIC LETTER BETH:\u{10841}\n\
IMPERIAL ARAMAIC LETTER GIMEL:\u{10842}\n\
IMPERIAL ARAMAIC LETTER DALETH:\u{10843}\n\
IMPERIAL ARAMAIC LETTER HE:\u{10844}\n\
IMPERIAL ARAMAIC LETTER WAW:\u{10845}\n\
IMPERIAL ARAMAIC LETTER ZAYIN:\u{10846}\n\
IMPERIAL ARAMAIC LETTER HETH:\u{10847}\n\
IMPERIAL ARAMAIC LETTER TETH:\u{10848}\n\
IMPERIAL ARAMAIC LETTER YODH:\u{10849}\n\
IMPERIAL ARAMAIC LETTER KAPH:\u{1084A}\n\
IMPERIAL ARAMAIC LETTER LAMEDH:\u{1084B}\n\
IMPERIAL ARAMAIC LETTER MEM:\u{1084C}\n\
IMPERIAL ARAMAIC LETTER NUN:\u{1084D}\n\
IMPERIAL ARAMAIC LETTER SAMEKH:\u{1084E}\n\
IMPERIAL ARAMAIC LETTER AYIN:\u{1084F}\n\
IMPERIAL ARAMAIC LETTER PE:\u{10850}\n\
IMPERIAL ARAMAIC LETTER SADHE:\u{10851}\n\
IMPERIAL ARAMAIC LETTER QOPH:\u{10852}\n\
IMPERIAL ARAMAIC LETTER RESH:\u{10853}\n\
IMPERIAL ARAMAIC LETTER SHIN:\u{10854}\n\
IMPERIAL ARAMAIC LETTER TAW:\u{10855}\n\
IMPERIAL ARAMAIC SECTION SIGN:\u{10857}\n\
IMPERIAL ARAMAIC NUMBER ONE:\u{10858}\n\
IMPERIAL ARAMAIC NUMBER TWO:\u{10859}\n\
IMPERIAL ARAMAIC NUMBER THREE:\u{1085A}\n\
IMPERIAL ARAMAIC NUMBER TEN:\u{1085B}\n\
IMPERIAL ARAMAIC NUMBER TWENTY:\u{1085C}\n\
IMPERIAL ARAMAIC NUMBER ONE HUNDRED:\u{1085D}\n\
IMPERIAL ARAMAIC NUMBER ONE THOUSAND:\u{1085E}\n\
IMPERIAL ARAMAIC NUMBER TEN THOUSAND:\u{1085F}\n\
PALMYRENE LETTER ALEPH:\u{10860}\n\
PALMYRENE LETTER BETH:\u{10861}\n\
PALMYRENE LETTER GIMEL:\u{10862}\n\
PALMYRENE LETTER DALETH:\u{10863}\n\
PALMYRENE LETTER HE:\u{10864}\n\
PALMYRENE LETTER WAW:\u{10865}\n\
PALMYRENE LETTER ZAYIN:\u{10866}\n\
PALMYRENE LETTER HETH:\u{10867}\n\
PALMYRENE LETTER TETH:\u{10868}\n\
PALMYRENE LETTER YODH:\u{10869}\n\
PALMYRENE LETTER KAPH:\u{1086A}\n\
PALMYRENE LETTER LAMEDH:\u{1086B}\n\
PALMYRENE LETTER MEM:\u{1086C}\n\
PALMYRENE LETTER FINAL NUN:\u{1086D}\n\
PALMYRENE LETTER NUN:\u{1086E}\n\
PALMYRENE LETTER SAMEKH:\u{1086F}\n\
PALMYRENE LETTER AYIN:\u{10870}\n\
PALMYRENE LETTER PE:\u{10871}\n\
PALMYRENE LETTER SADHE:\u{10872}\n\
PALMYRENE LETTER QOPH:\u{10873}\n\
PALMYRENE LETTER RESH:\u{10874}\n\
PALMYRENE LETTER SHIN:\u{10875}\n\
PALMYRENE LETTER TAW:\u{10876}\n\
PALMYRENE LEFT-POINTING FLEURON:\u{10877}\n\
PALMYRENE RIGHT-POINTING FLEURON:\u{10878}\n\
PALMYRENE NUMBER ONE:\u{10879}\n\
PALMYRENE NUMBER TWO:\u{1087A}\n\
PALMYRENE NUMBER THREE:\u{1087B}\n\
PALMYRENE NUMBER FOUR:\u{1087C}\n\
PALMYRENE NUMBER FIVE:\u{1087D}\n\
PALMYRENE NUMBER TEN:\u{1087E}\n\
PALMYRENE NUMBER TWENTY:\u{1087F}\n\
NABATAEAN LETTER FINAL ALEPH:\u{10880}\n\
NABATAEAN LETTER ALEPH:\u{10881}\n\
NABATAEAN LETTER FINAL BETH:\u{10882}\n\
NABATAEAN LETTER BETH:\u{10883}\n\
NABATAEAN LETTER GIMEL:\u{10884}\n\
NABATAEAN LETTER DALETH:\u{10885}\n\
NABATAEAN LETTER FINAL HE:\u{10886}\n\
NABATAEAN LETTER HE:\u{10887}\n\
NABATAEAN LETTER WAW:\u{10888}\n\
NABATAEAN LETTER ZAYIN:\u{10889}\n\
NABATAEAN LETTER HETH:\u{1088A}\n\
NABATAEAN LETTER TETH:\u{1088B}\n\
NABATAEAN LETTER FINAL YODH:\u{1088C}\n\
NABATAEAN LETTER YODH:\u{1088D}\n\
NABATAEAN LETTER FINAL KAPH:\u{1088E}\n\
NABATAEAN LETTER KAPH:\u{1088F}\n\
NABATAEAN LETTER FINAL LAMEDH:\u{10890}\n\
NABATAEAN LETTER LAMEDH:\u{10891}\n\
NABATAEAN LETTER FINAL MEM:\u{10892}\n\
NABATAEAN LETTER MEM:\u{10893}\n\
NABATAEAN LETTER FINAL NUN:\u{10894}\n\
NABATAEAN LETTER NUN:\u{10895}\n\
NABATAEAN LETTER SAMEKH:\u{10896}\n\
NABATAEAN LETTER AYIN:\u{10897}\n\
NABATAEAN LETTER PE:\u{10898}\n\
NABATAEAN LETTER SADHE:\u{10899}\n\
NABATAEAN LETTER QOPH:\u{1089A}\n\
NABATAEAN LETTER RESH:\u{1089B}\n\
NABATAEAN LETTER FINAL SHIN:\u{1089C}\n\
NABATAEAN LETTER SHIN:\u{1089D}\n\
NABATAEAN LETTER TAW:\u{1089E}\n\
NABATAEAN NUMBER ONE:\u{108A7}\n\
NABATAEAN NUMBER TWO:\u{108A8}\n\
NABATAEAN NUMBER THREE:\u{108A9}\n\
NABATAEAN NUMBER FOUR:\u{108AA}\n\
NABATAEAN CRUCIFORM NUMBER FOUR:\u{108AB}\n\
NABATAEAN NUMBER FIVE:\u{108AC}\n\
NABATAEAN NUMBER TEN:\u{108AD}\n\
NABATAEAN NUMBER TWENTY:\u{108AE}\n\
NABATAEAN NUMBER ONE HUNDRED:\u{108AF}\n\
HATRAN LETTER ALEPH:\u{108E0}\n\
HATRAN LETTER BETH:\u{108E1}\n\
HATRAN LETTER GIMEL:\u{108E2}\n\
HATRAN LETTER DALETH-RESH:\u{108E3}\n\
HATRAN LETTER HE:\u{108E4}\n\
HATRAN LETTER WAW:\u{108E5}\n\
HATRAN LETTER ZAYN:\u{108E6}\n\
HATRAN LETTER HETH:\u{108E7}\n\
HATRAN LETTER TETH:\u{108E8}\n\
HATRAN LETTER YODH:\u{108E9}\n\
HATRAN LETTER KAPH:\u{108EA}\n\
HATRAN LETTER LAMEDH:\u{108EB}\n\
HATRAN LETTER MEM:\u{108EC}\n\
HATRAN LETTER NUN:\u{108ED}\n\
HATRAN LETTER SAMEKH:\u{108EE}\n\
HATRAN LETTER AYN:\u{108EF}\n\
HATRAN LETTER PE:\u{108F0}\n\
HATRAN LETTER SADHE:\u{108F1}\n\
HATRAN LETTER QOPH:\u{108F2}\n\
HATRAN LETTER SHIN:\u{108F4}\n\
HATRAN LETTER TAW:\u{108F5}\n\
HATRAN NUMBER ONE:\u{108FB}\n\
HATRAN NUMBER FIVE:\u{108FC}\n\
HATRAN NUMBER TEN:\u{108FD}\n\
HATRAN NUMBER TWENTY:\u{108FE}\n\
HATRAN NUMBER ONE HUNDRED:\u{108FF}\n\
PHOENICIAN LETTER ALF:\u{10900}\n\
PHOENICIAN LETTER BET:\u{10901}\n\
PHOENICIAN LETTER GAML:\u{10902}\n\
PHOENICIAN LETTER DELT:\u{10903}\n\
PHOENICIAN LETTER HE:\u{10904}\n\
PHOENICIAN LETTER WAU:\u{10905}\n\
PHOENICIAN LETTER ZAI:\u{10906}\n\
PHOENICIAN LETTER HET:\u{10907}\n\
PHOENICIAN LETTER TET:\u{10908}\n\
PHOENICIAN LETTER YOD:\u{10909}\n\
PHOENICIAN LETTER KAF:\u{1090A}\n\
PHOENICIAN LETTER LAMD:\u{1090B}\n\
PHOENICIAN LETTER MEM:\u{1090C}\n\
PHOENICIAN LETTER NUN:\u{1090D}\n\
PHOENICIAN LETTER SEMK:\u{1090E}\n\
PHOENICIAN LETTER AIN:\u{1090F}\n\
PHOENICIAN LETTER PE:\u{10910}\n\
PHOENICIAN LETTER SADE:\u{10911}\n\
PHOENICIAN LETTER QOF:\u{10912}\n\
PHOENICIAN LETTER ROSH:\u{10913}\n\
PHOENICIAN LETTER SHIN:\u{10914}\n\
PHOENICIAN LETTER TAU:\u{10915}\n\
PHOENICIAN NUMBER ONE:\u{10916}\n\
PHOENICIAN NUMBER TEN:\u{10917}\n\
PHOENICIAN NUMBER TWENTY:\u{10918}\n\
PHOENICIAN NUMBER ONE HUNDRED:\u{10919}\n\
PHOENICIAN NUMBER TWO:\u{1091A}\n\
PHOENICIAN NUMBER THREE:\u{1091B}\n\
PHOENICIAN WORD SEPARATOR:\u{1091F}\n\
LYDIAN LETTER A:\u{10920}\n\
LYDIAN LETTER B:\u{10921}\n\
LYDIAN LETTER G:\u{10922}\n\
LYDIAN LETTER D:\u{10923}\n\
LYDIAN LETTER E:\u{10924}\n\
LYDIAN LETTER V:\u{10925}\n\
LYDIAN LETTER I:\u{10926}\n\
LYDIAN LETTER Y:\u{10927}\n\
LYDIAN LETTER K:\u{10928}\n\
LYDIAN LETTER L:\u{10929}\n\
LYDIAN LETTER M:\u{1092A}\n\
LYDIAN LETTER N:\u{1092B}\n\
LYDIAN LETTER O:\u{1092C}\n\
LYDIAN LETTER R:\u{1092D}\n\
LYDIAN LETTER SS:\u{1092E}\n\
LYDIAN LETTER T:\u{1092F}\n\
LYDIAN LETTER U:\u{10930}\n\
LYDIAN LETTER F:\u{10931}\n\
LYDIAN LETTER Q:\u{10932}\n\
LYDIAN LETTER S:\u{10933}\n\
LYDIAN LETTER TT:\u{10934}\n\
LYDIAN LETTER AN:\u{10935}\n\
LYDIAN LETTER EN:\u{10936}\n\
LYDIAN LETTER LY:\u{10937}\n\
LYDIAN LETTER NN:\u{10938}\n";

pub const NAMES_46: &'static str = "LYDIAN LETTER C:\u{10939}\n\
LYDIAN TRIANGULAR MARK:\u{1093F}\n\
MEROITIC HIEROGLYPHIC LETTER A:\u{10980}\n\
MEROITIC HIEROGLYPHIC LETTER E:\u{10981}\n\
MEROITIC HIEROGLYPHIC LETTER I:\u{10982}\n\
MEROITIC HIEROGLYPHIC LETTER O:\u{10983}\n\
MEROITIC HIEROGLYPHIC LETTER YA:\u{10984}\n\
MEROITIC HIEROGLYPHIC LETTER WA:\u{10985}\n\
MEROITIC HIEROGLYPHIC LETTER BA:\u{10986}\n\
MEROITIC HIEROGLYPHIC LETTER BA-2:\u{10987}\n\
MEROITIC HIEROGLYPHIC LETTER PA:\u{10988}\n\
MEROITIC HIEROGLYPHIC LETTER MA:\u{10989}\n\
MEROITIC HIEROGLYPHIC LETTER NA:\u{1098A}\n\
MEROITIC HIEROGLYPHIC LETTER NA-2:\u{1098B}\n\
MEROITIC HIEROGLYPHIC LETTER NE:\u{1098C}\n\
MEROITIC HIEROGLYPHIC LETTER NE-2:\u{1098D}\n\
MEROITIC HIEROGLYPHIC LETTER RA:\u{1098E}\n\
MEROITIC HIEROGLYPHIC LETTER RA-2:\u{1098F}\n\
MEROITIC HIEROGLYPHIC LETTER LA:\u{10990}\n\
MEROITIC HIEROGLYPHIC LETTER KHA:\u{10991}\n\
MEROITIC HIEROGLYPHIC LETTER HHA:\u{10992}\n\
MEROITIC HIEROGLYPHIC LETTER SA:\u{10993}\n\
MEROITIC HIEROGLYPHIC LETTER SA-2:\u{10994}\n\
MEROITIC HIEROGLYPHIC LETTER SE:\u{10995}\n\
MEROITIC HIEROGLYPHIC LETTER KA:\u{10996}\n\
MEROITIC HIEROGLYPHIC LETTER QA:\u{10997}\n\
MEROITIC HIEROGLYPHIC LETTER TA:\u{10998}\n\
MEROITIC HIEROGLYPHIC LETTER TA-2:\u{10999}\n\
MEROITIC HIEROGLYPHIC LETTER TE:\u{1099A}\n\
MEROITIC HIEROGLYPHIC LETTER TE-2:\u{1099B}\n\
MEROITIC HIEROGLYPHIC LETTER TO:\u{1099C}\n\
MEROITIC HIEROGLYPHIC LETTER DA:\u{1099D}\n\
MEROITIC HIEROGLYPHIC SYMBOL VIDJ:\u{1099E}\n\
MEROITIC HIEROGLYPHIC SYMBOL VIDJ-2:\u{1099F}\n\
MEROITIC CURSIVE LETTER A:\u{109A0}\n\
MEROITIC CURSIVE LETTER E:\u{109A1}\n\
MEROITIC CURSIVE LETTER I:\u{109A2}\n\
MEROITIC CURSIVE LETTER O:\u{109A3}\n\
MEROITIC CURSIVE LETTER YA:\u{109A4}\n\
MEROITIC CURSIVE LETTER WA:\u{109A5}\n\
MEROITIC CURSIVE LETTER BA:\u{109A6}\n\
MEROITIC CURSIVE LETTER PA:\u{109A7}\n\
MEROITIC CURSIVE LETTER MA:\u{109A8}\n\
MEROITIC CURSIVE LETTER NA:\u{109A9}\n\
MEROITIC CURSIVE LETTER NE:\u{109AA}\n\
MEROITIC CURSIVE LETTER RA:\u{109AB}\n\
MEROITIC CURSIVE LETTER LA:\u{109AC}\n\
MEROITIC CURSIVE LETTER KHA:\u{109AD}\n\
MEROITIC CURSIVE LETTER HHA:\u{109AE}\n\
MEROITIC CURSIVE LETTER SA:\u{109AF}\n\
MEROITIC CURSIVE LETTER ARCHAIC SA:\u{109B0}\n\
MEROITIC CURSIVE LETTER SE:\u{109B1}\n\
MEROITIC CURSIVE LETTER KA:\u{109B2}\n\
MEROITIC CURSIVE LETTER QA:\u{109B3}\n\
MEROITIC CURSIVE LETTER TA:\u{109B4}\n\
MEROITIC CURSIVE LETTER TE:\u{109B5}\n\
MEROITIC CURSIVE LETTER TO:\u{109B6}\n\
MEROITIC CURSIVE LETTER DA:\u{109B7}\n\
MEROITIC CURSIVE FRACTION ELEVEN TWELFTHS:\u{109BC}\n\
MEROITIC CURSIVE FRACTION ONE HALF:\u{109BD}\n\
MEROITIC CURSIVE LOGOGRAM RMT:\u{109BE}\n\
MEROITIC CURSIVE LOGOGRAM IMN:\u{109BF}\n\
MEROITIC CURSIVE NUMBER ONE:\u{109C0}\n\
MEROITIC CURSIVE NUMBER TWO:\u{109C1}\n\
MEROITIC CURSIVE NUMBER THREE:\u{109C2}\n\
MEROITIC CURSIVE NUMBER FOUR:\u{109C3}\n\
MEROITIC CURSIVE NUMBER FIVE:\u{109C4}\n\
MEROITIC CURSIVE NUMBER SIX:\u{109C5}\n\
MEROITIC CURSIVE NUMBER SEVEN:\u{109C6}\n\
MEROITIC CURSIVE NUMBER EIGHT:\u{109C7}\n\
MEROITIC CURSIVE NUMBER NINE:\u{109C8}\n\
MEROITIC CURSIVE NUMBER TEN:\u{109C9}\n\
MEROITIC CURSIVE NUMBER TWENTY:\u{109CA}\n\
MEROITIC CURSIVE NUMBER THIRTY:\u{109CB}\n\
MEROITIC CURSIVE NUMBER FORTY:\u{109CC}\n\
MEROITIC CURSIVE NUMBER FIFTY:\u{109CD}\n\
MEROITIC CURSIVE NUMBER SIXTY:\u{109CE}\n\
MEROITIC CURSIVE NUMBER SEVENTY:\u{109CF}\n\
MEROITIC CURSIVE NUMBER ONE HUNDRED:\u{109D2}\n\
MEROITIC CURSIVE NUMBER TWO HUNDRED:\u{109D3}\n\
MEROITIC CURSIVE NUMBER THREE HUNDRED:\u{109D4}\n\
MEROITIC CURSIVE NUMBER FOUR HUNDRED:\u{109D5}\n\
MEROITIC CURSIVE NUMBER FIVE HUNDRED:\u{109D6}\n\
MEROITIC CURSIVE NUMBER SIX HUNDRED:\u{109D7}\n\
MEROITIC CURSIVE NUMBER SEVEN HUNDRED:\u{109D8}\n\
MEROITIC CURSIVE NUMBER EIGHT HUNDRED:\u{109D9}\n\
MEROITIC CURSIVE NUMBER NINE HUNDRED:\u{109DA}\n\
MEROITIC CURSIVE NUMBER ONE THOUSAND:\u{109DB}\n\
MEROITIC CURSIVE NUMBER TWO THOUSAND:\u{109DC}\n\
MEROITIC CURSIVE NUMBER THREE THOUSAND:\u{109DD}\n\
MEROITIC CURSIVE NUMBER FOUR THOUSAND:\u{109DE}\n\
MEROITIC CURSIVE NUMBER FIVE THOUSAND:\u{109DF}\n\
MEROITIC CURSIVE NUMBER SIX THOUSAND:\u{109E0}\n\
MEROITIC CURSIVE NUMBER SEVEN THOUSAND:\u{109E1}\n\
MEROITIC CURSIVE NUMBER EIGHT THOUSAND:\u{109E2}\n\
MEROITIC CURSIVE NUMBER NINE THOUSAND:\u{109E3}\n\
MEROITIC CURSIVE NUMBER TEN THOUSAND:\u{109E4}\n\
MEROITIC CURSIVE NUMBER TWENTY THOUSAND:\u{109E5}\n\
MEROITIC CURSIVE NUMBER THIRTY THOUSAND:\u{109E6}\n\
MEROITIC CURSIVE NUMBER FORTY THOUSAND:\u{109E7}\n\
MEROITIC CURSIVE NUMBER FIFTY THOUSAND:\u{109E8}\n\
MEROITIC CURSIVE NUMBER SIXTY THOUSAND:\u{109E9}\n\
MEROITIC CURSIVE NUMBER SEVENTY THOUSAND:\u{109EA}\n\
MEROITIC CURSIVE NUMBER EIGHTY THOUSAND:\u{109EB}\n\
MEROITIC CURSIVE NUMBER NINETY THOUSAND:\u{109EC}\n\
MEROITIC CURSIVE NUMBER ONE HUNDRED THOUSAND:\u{109ED}\n\
MEROITIC CURSIVE NUMBER TWO HUNDRED THOUSAND:\u{109EE}\n\
MEROITIC CURSIVE NUMBER THREE HUNDRED THOUSAND:\u{109EF}\n\
MEROITIC CURSIVE NUMBER FOUR HUNDRED THOUSAND:\u{109F0}\n\
MEROITIC CURSIVE NUMBER FIVE HUNDRED THOUSAND:\u{109F1}\n\
MEROITIC CURSIVE NUMBER SIX HUNDRED THOUSAND:\u{109F2}\n\
MEROITIC CURSIVE NUMBER SEVEN HUNDRED THOUSAND:\u{109F3}\n\
MEROITIC CURSIVE NUMBER EIGHT HUNDRED THOUSAND:\u{109F4}\n\
MEROITIC CURSIVE NUMBER NINE HUNDRED THOUSAND:\u{109F5}\n\
MEROITIC CURSIVE FRACTION ONE TWELFTH:\u{109F6}\n\
MEROITIC CURSIVE FRACTION TWO TWELFTHS:\u{109F7}\n\
MEROITIC CURSIVE FRACTION THREE TWELFTHS:\u{109F8}\n\
MEROITIC CURSIVE FRACTION FOUR TWELFTHS:\u{109F9}\n\
MEROITIC CURSIVE FRACTION FIVE TWELFTHS:\u{109FA}\n\
MEROITIC CURSIVE FRACTION SIX TWELFTHS:\u{109FB}\n\
MEROITIC CURSIVE FRACTION SEVEN TWELFTHS:\u{109FC}\n\
MEROITIC CURSIVE FRACTION EIGHT TWELFTHS:\u{109FD}\n\
MEROITIC CURSIVE FRACTION NINE TWELFTHS:\u{109FE}\n\
MEROITIC CURSIVE FRACTION TEN TWELFTHS:\u{109FF}\n\
KHAROSHTHI LETTER A:\u{10A00}\n\
KHAROSHTHI VOWEL SIGN I:\u{10A01}\n\
KHAROSHTHI VOWEL SIGN U:\u{10A02}\n\
KHAROSHTHI VOWEL SIGN VOCALIC R:\u{10A03}\n\
KHAROSHTHI VOWEL SIGN E:\u{10A05}\n\
KHAROSHTHI VOWEL SIGN O:\u{10A06}\n\
KHAROSHTHI VOWEL LENGTH MARK:\u{10A0C}\n\
KHAROSHTHI SIGN DOUBLE RING BELOW:\u{10A0D}\n\
KHAROSHTHI SIGN ANUSVARA:\u{10A0E}\n\
KHAROSHTHI SIGN VISARGA:\u{10A0F}\n\
KHAROSHTHI LETTER KA:\u{10A10}\n\
KHAROSHTHI LETTER KHA:\u{10A11}\n\
KHAROSHTHI LETTER GA:\u{10A12}\n\
KHAROSHTHI LETTER GHA:\u{10A13}\n\
KHAROSHTHI LETTER CA:\u{10A15}\n\
KHAROSHTHI LETTER CHA:\u{10A16}\n\
KHAROSHTHI LETTER JA:\u{10A17}\n\
KHAROSHTHI LETTER NYA:\u{10A19}\n\
KHAROSHTHI LETTER TTA:\u{10A1A}\n\
KHAROSHTHI LETTER TTHA:\u{10A1B}\n\
KHAROSHTHI LETTER DDA:\u{10A1C}\n\
KHAROSHTHI LETTER DDHA:\u{10A1D}\n\
KHAROSHTHI LETTER NNA:\u{10A1E}\n\
KHAROSHTHI LETTER TA:\u{10A1F}\n\
KHAROSHTHI LETTER THA:\u{10A20}\n\
KHAROSHTHI LETTER DA:\u{10A21}\n\
KHAROSHTHI LETTER DHA:\u{10A22}\n\
KHAROSHTHI LETTER NA:\u{10A23}\n\
KHAROSHTHI LETTER PA:\u{10A24}\n\
KHAROSHTHI LETTER PHA:\u{10A25}\n\
KHAROSHTHI LETTER BA:\u{10A26}\n\
KHAROSHTHI LETTER BHA:\u{10A27}\n\
KHAROSHTHI LETTER MA:\u{10A28}\n\
KHAROSHTHI LETTER YA:\u{10A29}\n\
KHAROSHTHI LETTER RA:\u{10A2A}\n\
KHAROSHTHI LETTER LA:\u{10A2B}\n\
KHAROSHTHI LETTER VA:\u{10A2C}\n\
KHAROSHTHI LETTER SHA:\u{10A2D}\n\
KHAROSHTHI LETTER SSA:\u{10A2E}\n\
KHAROSHTHI LETTER SA:\u{10A2F}\n\
KHAROSHTHI LETTER ZA:\u{10A30}\n\
KHAROSHTHI LETTER HA:\u{10A31}\n\
KHAROSHTHI LETTER KKA:\u{10A32}\n\
KHAROSHTHI LETTER TTTHA:\u{10A33}\n\
KHAROSHTHI LETTER TTTA:\u{10A34}\n\
KHAROSHTHI LETTER VHA:\u{10A35}\n\
KHAROSHTHI SIGN BAR ABOVE:\u{10A38}\n\
KHAROSHTHI SIGN CAUDA:\u{10A39}\n\
KHAROSHTHI SIGN DOT BELOW:\u{10A3A}\n\
KHAROSHTHI VIRAMA:\u{10A3F}\n\
KHAROSHTHI DIGIT ONE:\u{10A40}\n\
KHAROSHTHI DIGIT TWO:\u{10A41}\n\
KHAROSHTHI DIGIT THREE:\u{10A42}\n\
KHAROSHTHI DIGIT FOUR:\u{10A43}\n\
KHAROSHTHI NUMBER TEN:\u{10A44}\n\
KHAROSHTHI NUMBER TWENTY:\u{10A45}\n\
KHAROSHTHI NUMBER ONE HUNDRED:\u{10A46}\n\
KHAROSHTHI NUMBER ONE THOUSAND:\u{10A47}\n\
KHAROSHTHI FRACTION ONE HALF:\u{10A48}\n\
KHAROSHTHI PUNCTUATION DOT:\u{10A50}\n\
KHAROSHTHI PUNCTUATION SMALL CIRCLE:\u{10A51}\n\
KHAROSHTHI PUNCTUATION CIRCLE:\u{10A52}\n\
KHAROSHTHI PUNCTUATION CRESCENT BAR:\u{10A53}\n\
KHAROSHTHI PUNCTUATION MANGALAM:\u{10A54}\n\
KHAROSHTHI PUNCTUATION LOTUS:\u{10A55}\n\
KHAROSHTHI PUNCTUATION DANDA:\u{10A56}\n\
KHAROSHTHI PUNCTUATION DOUBLE DANDA:\u{10A57}\n\
KHAROSHTHI PUNCTUATION LINES:\u{10A58}\n\
OLD SOUTH ARABIAN LETTER HE:\u{10A60}\n\
OLD SOUTH ARABIAN LETTER LAMEDH:\u{10A61}\n\
OLD SOUTH ARABIAN LETTER HETH:\u{10A62}\n\
OLD SOUTH ARABIAN LETTER MEM:\u{10A63}\n\
OLD SOUTH ARABIAN LETTER QOPH:\u{10A64}\n\
OLD SOUTH ARABIAN LETTER WAW:\u{10A65}\n\
OLD SOUTH ARABIAN LETTER SHIN:\u{10A66}\n\
OLD SOUTH ARABIAN LETTER RESH:\u{10A67}\n\
OLD SOUTH ARABIAN LETTER BETH:\u{10A68}\n\
OLD SOUTH ARABIAN LETTER TAW:\u{10A69}\n\
OLD SOUTH ARABIAN LETTER SAT:\u{10A6A}\n\
OLD SOUTH ARABIAN LETTER KAPH:\u{10A6B}\n\
OLD SOUTH ARABIAN LETTER NUN:\u{10A6C}\n\
OLD SOUTH ARABIAN LETTER KHETH:\u{10A6D}\n\
OLD SOUTH ARABIAN LETTER SADHE:\u{10A6E}\n\
OLD SOUTH ARABIAN LETTER SAMEKH:\u{10A6F}\n\
OLD SOUTH ARABIAN LETTER FE:\u{10A70}\n\
OLD SOUTH ARABIAN LETTER ALEF:\u{10A71}\n\
OLD SOUTH ARABIAN LETTER AYN:\u{10A72}\n\
OLD SOUTH ARABIAN LETTER DHADHE:\u{10A73}\n\
OLD SOUTH ARABIAN LETTER GIMEL:\u{10A74}\n\
OLD SOUTH ARABIAN LETTER DALETH:\u{10A75}\n\
OLD SOUTH ARABIAN LETTER GHAYN:\u{10A76}\n\
OLD SOUTH ARABIAN LETTER TETH:\u{10A77}\n\
OLD SOUTH ARABIAN LETTER ZAYN:\u{10A78}\n\
OLD SOUTH ARABIAN LETTER DHALETH:\u{10A79}\n\
OLD SOUTH ARABIAN LETTER YODH:\u{10A7A}\n\
OLD SOUTH ARABIAN LETTER THAW:\u{10A7B}\n\
OLD SOUTH ARABIAN LETTER THETH:\u{10A7C}\n\
OLD SOUTH ARABIAN NUMBER ONE:\u{10A7D}\n\
OLD SOUTH ARABIAN NUMBER FIFTY:\u{10A7E}\n\
OLD SOUTH ARABIAN NUMERIC INDICATOR:\u{10A7F}\n\
OLD NORTH ARABIAN LETTER HEH:\u{10A80}\n\
OLD NORTH ARABIAN LETTER LAM:\u{10A81}\n\
OLD NORTH ARABIAN LETTER HAH:\u{10A82}\n\
OLD NORTH ARABIAN LETTER MEEM:\u{10A83}\n\
OLD NORTH ARABIAN LETTER QAF:\u{10A84}\n\
OLD NORTH ARABIAN LETTER WAW:\u{10A85}\n\
OLD NORTH ARABIAN LETTER ES-2:\u{10A86}\n\
OLD NORTH ARABIAN LETTER REH:\u{10A87}\n\
OLD NORTH ARABIAN LETTER BEH:\u{10A88}\n\
OLD NORTH ARABIAN LETTER TEH:\u{10A89}\n\
OLD NORTH ARABIAN LETTER ES-1:\u{10A8A}\n\
OLD NORTH ARABIAN LETTER KAF:\u{10A8B}\n\
OLD NORTH ARABIAN LETTER NOON:\u{10A8C}\n\
OLD NORTH ARABIAN LETTER KHAH:\u{10A8D}\n\
OLD NORTH ARABIAN LETTER SAD:\u{10A8E}\n\
OLD NORTH ARABIAN LETTER ES-3:\u{10A8F}\n\
OLD NORTH ARABIAN LETTER FEH:\u{10A90}\n\
OLD NORTH ARABIAN LETTER ALEF:\u{10A91}\n\
OLD NORTH ARABIAN LETTER AIN:\u{10A92}\n\
OLD NORTH ARABIAN LETTER DAD:\u{10A93}\n\
OLD NORTH ARABIAN LETTER GEEM:\u{10A94}\n\
OLD NORTH ARABIAN LETTER DAL:\u{10A95}\n\
OLD NORTH ARABIAN LETTER GHAIN:\u{10A96}\n\
OLD NORTH ARABIAN LETTER TAH:\u{10A97}\n\
OLD NORTH ARABIAN LETTER ZAIN:\u{10A98}\n\
OLD NORTH ARABIAN LETTER THAL:\u{10A99}\n\
OLD NORTH ARABIAN LETTER YEH:\u{10A9A}\n\
OLD NORTH ARABIAN LETTER THEH:\u{10A9B}\n\
OLD NORTH ARABIAN LETTER ZAH:\u{10A9C}\n\
OLD NORTH ARABIAN NUMBER ONE:\u{10A9D}\n\
OLD NORTH ARABIAN NUMBER TEN:\u{10A9E}\n\
OLD NORTH ARABIAN NUMBER TWENTY:\u{10A9F}\n\
MANICHAEAN LETTER ALEPH:\u{10AC0}\n\
MANICHAEAN LETTER BETH:\u{10AC1}\n\
MANICHAEAN LETTER BHETH:\u{10AC2}\n\
MANICHAEAN LETTER GIMEL:\u{10AC3}\n\
MANICHAEAN LETTER GHIMEL:\u{10AC4}\n\
MANICHAEAN LETTER DALETH:\u{10AC5}\n\
MANICHAEAN LETTER HE:\u{10AC6}\n\
MANICHAEAN LETTER WAW:\u{10AC7}\n\
MANICHAEAN SIGN UD:\u{10AC8}\n\
MANICHAEAN LETTER ZAYIN:\u{10AC9}\n\
MANICHAEAN LETTER ZHAYIN:\u{10ACA}\n\
MANICHAEAN LETTER JAYIN:\u{10ACB}\n\
MANICHAEAN LETTER JHAYIN:\u{10ACC}\n\
MANICHAEAN LETTER HETH:\u{10ACD}\n\
MANICHAEAN LETTER TETH:\u{10ACE}\n\
MANICHAEAN LETTER YODH:\u{10ACF}\n\
MANICHAEAN LETTER KAPH:\u{10AD0}\n\
MANICHAEAN LETTER XAPH:\u{10AD1}\n\
MANICHAEAN LETTER KHAPH:\u{10AD2}\n\
MANICHAEAN LETTER LAMEDH:\u{10AD3}\n\
MANICHAEAN LETTER DHAMEDH:\u{10AD4}\n\
MANICHAEAN LETTER THAMEDH:\u{10AD5}\n\
MANICHAEAN LETTER MEM:\u{10AD6}\n\
MANICHAEAN LETTER NUN:\u{10AD7}\n\
MANICHAEAN LETTER SAMEKH:\u{10AD8}\n\
MANICHAEAN LETTER AYIN:\u{10AD9}\n\
MANICHAEAN LETTER AAYIN:\u{10ADA}\n\
MANICHAEAN LETTER PE:\u{10ADB}\n\
MANICHAEAN LETTER FE:\u{10ADC}\n\
MANICHAEAN LETTER SADHE:\u{10ADD}\n\
MANICHAEAN LETTER QOPH:\u{10ADE}\n\
MANICHAEAN LETTER XOPH:\u{10ADF}\n\
MANICHAEAN LETTER QHOPH:\u{10AE0}\n\
MANICHAEAN LETTER RESH:\u{10AE1}\n\
MANICHAEAN LETTER SHIN:\u{10AE2}\n\
MANICHAEAN LETTER SSHIN:\u{10AE3}\n\
MANICHAEAN LETTER TAW:\u{10AE4}\n\
MANICHAEAN ABBREVIATION MARK ABOVE:\u{10AE5}\n\
MANICHAEAN ABBREVIATION MARK BELOW:\u{10AE6}\n\
MANICHAEAN NUMBER ONE:\u{10AEB}\n\
MANICHAEAN NUMBER FIVE:\u{10AEC}\n\
MANICHAEAN NUMBER TEN:\u{10AED}\n\
MANICHAEAN NUMBER TWENTY:\u{10AEE}\n\
MANICHAEAN NUMBER ONE HUNDRED:\u{10AEF}\n\
MANICHAEAN PUNCTUATION STAR:\u{10AF0}\n\
MANICHAEAN PUNCTUATION FLEURON:\u{10AF1}\n\
MANICHAEAN PUNCTUATION DOUBLE DOT WITHIN DOT:\u{10AF2}\n\
MANICHAEAN PUNCTUATION DOT WITHIN DOT:\u{10AF3}\n\
MANICHAEAN PUNCTUATION DOT:\u{10AF4}\n\
MANICHAEAN PUNCTUATION TWO DOTS:\u{10AF5}\n\
MANICHAEAN PUNCTUATION LINE FILLER:\u{10AF6}\n\
AVESTAN LETTER A:\u{10B00}\n\
AVESTAN LETTER AA:\u{10B01}\n\
AVESTAN LETTER AO:\u{10B02}\n\
AVESTAN LETTER AAO:\u{10B03}\n\
AVESTAN LETTER AN:\u{10B04}\n\
AVESTAN LETTER AAN:\u{10B05}\n\
AVESTAN LETTER AE:\u{10B06}\n\
AVESTAN LETTER AEE:\u{10B07}\n\
AVESTAN LETTER E:\u{10B08}\n\
AVESTAN LETTER EE:\u{10B09}\n\
AVESTAN LETTER O:\u{10B0A}\n\
AVESTAN LETTER OO:\u{10B0B}\n\
AVESTAN LETTER I:\u{10B0C}\n\
AVESTAN LETTER II:\u{10B0D}\n\
AVESTAN LETTER U:\u{10B0E}\n\
AVESTAN LETTER UU:\u{10B0F}\n\
AVESTAN LETTER KE:\u{10B10}\n\
AVESTAN LETTER XE:\u{10B11}\n\
AVESTAN LETTER XYE:\u{10B12}\n\
AVESTAN LETTER XVE:\u{10B13}\n\
AVESTAN LETTER GE:\u{10B14}\n\
AVESTAN LETTER GGE:\u{10B15}\n\
AVESTAN LETTER GHE:\u{10B16}\n\
AVESTAN LETTER CE:\u{10B17}\n\
AVESTAN LETTER JE:\u{10B18}\n\
AVESTAN LETTER TE:\u{10B19}\n\
AVESTAN LETTER THE:\u{10B1A}\n\
AVESTAN LETTER DE:\u{10B1B}\n\
AVESTAN LETTER DHE:\u{10B1C}\n\
AVESTAN LETTER TTE:\u{10B1D}\n\
AVESTAN LETTER PE:\u{10B1E}\n\
AVESTAN LETTER FE:\u{10B1F}\n\
AVESTAN LETTER BE:\u{10B20}\n\
AVESTAN LETTER BHE:\u{10B21}\n\
AVESTAN LETTER NGE:\u{10B22}\n\
AVESTAN LETTER NGYE:\u{10B23}\n\
AVESTAN LETTER NGVE:\u{10B24}\n\
AVESTAN LETTER NE:\u{10B25}\n\
AVESTAN LETTER NYE:\u{10B26}\n\
AVESTAN LETTER NNE:\u{10B27}\n\
AVESTAN LETTER ME:\u{10B28}\n\
AVESTAN LETTER HME:\u{10B29}\n\
AVESTAN LETTER YYE:\u{10B2A}\n\
AVESTAN LETTER YE:\u{10B2B}\n\
AVESTAN LETTER VE:\u{10B2C}\n\
AVESTAN LETTER RE:\u{10B2D}\n\
AVESTAN LETTER LE:\u{10B2E}\n\
AVESTAN LETTER SE:\u{10B2F}\n\
AVESTAN LETTER ZE:\u{10B30}\n\
AVESTAN LETTER SHE:\u{10B31}\n\
AVESTAN LETTER ZHE:\u{10B32}\n\
AVESTAN LETTER SHYE:\u{10B33}\n\
AVESTAN LETTER SSHE:\u{10B34}\n\
AVESTAN LETTER HE:\u{10B35}\n\
AVESTAN ABBREVIATION MARK:\u{10B39}\n\
TINY TWO DOTS OVER ONE DOT PUNCTUATION:\u{10B3A}\n\
SMALL TWO DOTS OVER ONE DOT PUNCTUATION:\u{10B3B}\n\
LARGE TWO DOTS OVER ONE DOT PUNCTUATION:\u{10B3C}\n\
LARGE ONE DOT OVER TWO DOTS PUNCTUATION:\u{10B3D}\n";

pub const NAMES_47: &'static str = "LARGE TWO RINGS OVER ONE RING PUNCTUATION:\u{10B3E}\n\
LARGE ONE RING OVER TWO RINGS PUNCTUATION:\u{10B3F}\n\
INSCRIPTIONAL PARTHIAN LETTER ALEPH:\u{10B40}\n\
INSCRIPTIONAL PARTHIAN LETTER BETH:\u{10B41}\n\
INSCRIPTIONAL PARTHIAN LETTER GIMEL:\u{10B42}\n\
INSCRIPTIONAL PARTHIAN LETTER DALETH:\u{10B43}\n\
INSCRIPTIONAL PARTHIAN LETTER HE:\u{10B44}\n\
INSCRIPTIONAL PARTHIAN LETTER WAW:\u{10B45}\n\
INSCRIPTIONAL PARTHIAN LETTER ZAYIN:\u{10B46}\n\
INSCRIPTIONAL PARTHIAN LETTER HETH:\u{10B47}\n\
INSCRIPTIONAL PARTHIAN LETTER TETH:\u{10B48}\n\
INSCRIPTIONAL PARTHIAN LETTER YODH:\u{10B49}\n\
INSCRIPTIONAL PARTHIAN LETTER KAPH:\u{10B4A}\n\
INSCRIPTIONAL PARTHIAN LETTER LAMEDH:\u{10B4B}\n\
INSCRIPTIONAL PARTHIAN LETTER MEM:\u{10B4C}\n\
INSCRIPTIONAL PARTHIAN LETTER NUN:\u{10B4D}\n\
INSCRIPTIONAL PARTHIAN LETTER SAMEKH:\u{10B4E}\n\
INSCRIPTIONAL PARTHIAN LETTER AYIN:\u{10B4F}\n\
INSCRIPTIONAL PARTHIAN LETTER PE:\u{10B50}\n\
INSCRIPTIONAL PARTHIAN LETTER SADHE:\u{10B51}\n\
INSCRIPTIONAL PARTHIAN LETTER QOPH:\u{10B52}\n\
INSCRIPTIONAL PARTHIAN LETTER RESH:\u{10B53}\n\
INSCRIPTIONAL PARTHIAN LETTER SHIN:\u{10B54}\n\
INSCRIPTIONAL PARTHIAN LETTER TAW:\u{10B55}\n\
INSCRIPTIONAL PARTHIAN NUMBER ONE:\u{10B58}\n\
INSCRIPTIONAL PARTHIAN NUMBER TWO:\u{10B59}\n\
INSCRIPTIONAL PARTHIAN NUMBER THREE:\u{10B5A}\n\
INSCRIPTIONAL PARTHIAN NUMBER FOUR:\u{10B5B}\n\
INSCRIPTIONAL PARTHIAN NUMBER TEN:\u{10B5C}\n\
INSCRIPTIONAL PARTHIAN NUMBER TWENTY:\u{10B5D}\n\
INSCRIPTIONAL PARTHIAN NUMBER ONE HUNDRED:\u{10B5E}\n\
INSCRIPTIONAL PARTHIAN NUMBER ONE THOUSAND:\u{10B5F}\n\
INSCRIPTIONAL PAHLAVI LETTER ALEPH:\u{10B60}\n\
INSCRIPTIONAL PAHLAVI LETTER BETH:\u{10B61}\n\
INSCRIPTIONAL PAHLAVI LETTER GIMEL:\u{10B62}\n\
INSCRIPTIONAL PAHLAVI LETTER DALETH:\u{10B63}\n\
INSCRIPTIONAL PAHLAVI LETTER HE:\u{10B64}\n\
INSCRIPTIONAL PAHLAVI LETTER WAW-AYIN-RESH:\u{10B65}\n\
INSCRIPTIONAL PAHLAVI LETTER ZAYIN:\u{10B66}\n\
INSCRIPTIONAL PAHLAVI LETTER HETH:\u{10B67}\n\
INSCRIPTIONAL PAHLAVI LETTER TETH:\u{10B68}\n\
INSCRIPTIONAL PAHLAVI LETTER YODH:\u{10B69}\n\
INSCRIPTIONAL PAHLAVI LETTER KAPH:\u{10B6A}\n\
INSCRIPTIONAL PAHLAVI LETTER LAMEDH:\u{10B6B}\n\
INSCRIPTIONAL PAHLAVI LETTER MEM-QOPH:\u{10B6C}\n\
INSCRIPTIONAL PAHLAVI LETTER NUN:\u{10B6D}\n\
INSCRIPTIONAL PAHLAVI LETTER SAMEKH:\u{10B6E}\n\
INSCRIPTIONAL PAHLAVI LETTER PE:\u{10B6F}\n\
INSCRIPTIONAL PAHLAVI LETTER SADHE:\u{10B70}\n\
INSCRIPTIONAL PAHLAVI LETTER SHIN:\u{10B71}\n\
INSCRIPTIONAL PAHLAVI LETTER TAW:\u{10B72}\n\
INSCRIPTIONAL PAHLAVI NUMBER ONE:\u{10B78}\n\
INSCRIPTIONAL PAHLAVI NUMBER TWO:\u{10B79}\n\
INSCRIPTIONAL PAHLAVI NUMBER THREE:\u{10B7A}\n\
INSCRIPTIONAL PAHLAVI NUMBER FOUR:\u{10B7B}\n\
INSCRIPTIONAL PAHLAVI NUMBER TEN:\u{10B7C}\n\
INSCRIPTIONAL PAHLAVI NUMBER TWENTY:\u{10B7D}\n\
INSCRIPTIONAL PAHLAVI NUMBER ONE HUNDRED:\u{10B7E}\n\
INSCRIPTIONAL PAHLAVI NUMBER ONE THOUSAND:\u{10B7F}\n\
PSALTER PAHLAVI LETTER ALEPH:\u{10B80}\n\
PSALTER PAHLAVI LETTER BETH:\u{10B81}\n\
PSALTER PAHLAVI LETTER GIMEL:\u{10B82}\n\
PSALTER PAHLAVI LETTER DALETH:\u{10B83}\n\
PSALTER PAHLAVI LETTER HE:\u{10B84}\n\
PSALTER PAHLAVI LETTER WAW-AYIN-RESH:\u{10B85}\n\
PSALTER PAHLAVI LETTER ZAYIN:\u{10B86}\n\
PSALTER PAHLAVI LETTER HETH:\u{10B87}\n\
PSALTER PAHLAVI LETTER YODH:\u{10B88}\n\
PSALTER PAHLAVI LETTER KAPH:\u{10B89}\n\
PSALTER PAHLAVI LETTER LAMEDH:\u{10B8A}\n\
PSALTER PAHLAVI LETTER MEM-QOPH:\u{10B8B}\n\
PSALTER PAHLAVI LETTER NUN:\u{10B8C}\n\
PSALTER PAHLAVI LETTER SAMEKH:\u{10B8D}\n\
PSALTER PAHLAVI LETTER PE:\u{10B8E}\n\
PSALTER PAHLAVI LETTER SADHE:\u{10B8F}\n\
PSALTER PAHLAVI LETTER SHIN:\u{10B90}\n\
PSALTER PAHLAVI LETTER TAW:\u{10B91}\n\
PSALTER PAHLAVI SECTION MARK:\u{10B99}\n\
PSALTER PAHLAVI TURNED SECTION MARK:\u{10B9A}\n\
PSALTER PAHLAVI FOUR DOTS WITH CROSS:\u{10B9B}\n\
PSALTER PAHLAVI FOUR DOTS WITH DOT:\u{10B9C}\n\
PSALTER PAHLAVI NUMBER ONE:\u{10BA9}\n\
PSALTER PAHLAVI NUMBER TWO:\u{10BAA}\n\
PSALTER PAHLAVI NUMBER THREE:\u{10BAB}\n\
PSALTER PAHLAVI NUMBER FOUR:\u{10BAC}\n\
PSALTER PAHLAVI NUMBER TEN:\u{10BAD}\n\
PSALTER PAHLAVI NUMBER TWENTY:\u{10BAE}\n\
PSALTER PAHLAVI NUMBER ONE HUNDRED:\u{10BAF}\n\
OLD TURKIC LETTER ORKHON A:\u{10C00}\n\
OLD TURKIC LETTER YENISEI A:\u{10C01}\n\
OLD TURKIC LETTER YENISEI AE:\u{10C02}\n\
OLD TURKIC LETTER ORKHON I:\u{10C03}\n\
OLD TURKIC LETTER YENISEI I:\u{10C04}\n\
OLD TURKIC LETTER YENISEI E:\u{10C05}\n\
OLD TURKIC LETTER ORKHON O:\u{10C06}\n\
OLD TURKIC LETTER ORKHON OE:\u{10C07}\n\
OLD TURKIC LETTER YENISEI OE:\u{10C08}\n\
OLD TURKIC LETTER ORKHON AB:\u{10C09}\n\
OLD TURKIC LETTER YENISEI AB:\u{10C0A}\n\
OLD TURKIC LETTER ORKHON AEB:\u{10C0B}\n\
OLD TURKIC LETTER YENISEI AEB:\u{10C0C}\n\
OLD TURKIC LETTER ORKHON AG:\u{10C0D}\n\
OLD TURKIC LETTER YENISEI AG:\u{10C0E}\n\
OLD TURKIC LETTER ORKHON AEG:\u{10C0F}\n\
OLD TURKIC LETTER YENISEI AEG:\u{10C10}\n\
OLD TURKIC LETTER ORKHON AD:\u{10C11}\n\
OLD TURKIC LETTER YENISEI AD:\u{10C12}\n\
OLD TURKIC LETTER ORKHON AED:\u{10C13}\n\
OLD TURKIC LETTER ORKHON EZ:\u{10C14}\n\
OLD TURKIC LETTER YENISEI EZ:\u{10C15}\n\
OLD TURKIC LETTER ORKHON AY:\u{10C16}\n\
OLD TURKIC LETTER YENISEI AY:\u{10C17}\n\
OLD TURKIC LETTER ORKHON AEY:\u{10C18}\n\
OLD TURKIC LETTER YENISEI AEY:\u{10C19}\n\
OLD TURKIC LETTER ORKHON AEK:\u{10C1A}\n\
OLD TURKIC LETTER YENISEI AEK:\u{10C1B}\n\
OLD TURKIC LETTER ORKHON OEK:\u{10C1C}\n\
OLD TURKIC LETTER YENISEI OEK:\u{10C1D}\n\
OLD TURKIC LETTER ORKHON AL:\u{10C1E}\n\
OLD TURKIC LETTER YENISEI AL:\u{10C1F}\n\
OLD TURKIC LETTER ORKHON AEL:\u{10C20}\n\
OLD TURKIC LETTER ORKHON ELT:\u{10C21}\n\
OLD TURKIC LETTER ORKHON EM:\u{10C22}\n\
OLD TURKIC LETTER ORKHON AN:\u{10C23}\n\
OLD TURKIC LETTER ORKHON AEN:\u{10C24}\n\
OLD TURKIC LETTER YENISEI AEN:\u{10C25}\n\
OLD TURKIC LETTER ORKHON ENT:\u{10C26}\n\
OLD TURKIC LETTER YENISEI ENT:\u{10C27}\n\
OLD TURKIC LETTER ORKHON ENC:\u{10C28}\n\
OLD TURKIC LETTER YENISEI ENC:\u{10C29}\n\
OLD TURKIC LETTER ORKHON ENY:\u{10C2A}\n\
OLD TURKIC LETTER YENISEI ENY:\u{10C2B}\n\
OLD TURKIC LETTER YENISEI ANG:\u{10C2C}\n\
OLD TURKIC LETTER ORKHON ENG:\u{10C2D}\n\
OLD TURKIC LETTER YENISEI AENG:\u{10C2E}\n\
OLD TURKIC LETTER ORKHON EP:\u{10C2F}\n\
OLD TURKIC LETTER ORKHON OP:\u{10C30}\n\
OLD TURKIC LETTER ORKHON IC:\u{10C31}\n\
OLD TURKIC LETTER ORKHON EC:\u{10C32}\n\
OLD TURKIC LETTER YENISEI EC:\u{10C33}\n\
OLD TURKIC LETTER ORKHON AQ:\u{10C34}\n\
OLD TURKIC LETTER YENISEI AQ:\u{10C35}\n\
OLD TURKIC LETTER ORKHON IQ:\u{10C36}\n\
OLD TURKIC LETTER YENISEI IQ:\u{10C37}\n\
OLD TURKIC LETTER ORKHON OQ:\u{10C38}\n\
OLD TURKIC LETTER YENISEI OQ:\u{10C39}\n\
OLD TURKIC LETTER ORKHON AR:\u{10C3A}\n\
OLD TURKIC LETTER YENISEI AR:\u{10C3B}\n\
OLD TURKIC LETTER ORKHON AER:\u{10C3C}\n\
OLD TURKIC LETTER ORKHON AS:\u{10C3D}\n\
OLD TURKIC LETTER ORKHON AES:\u{10C3E}\n\
OLD TURKIC LETTER ORKHON ASH:\u{10C3F}\n\
OLD TURKIC LETTER YENISEI ASH:\u{10C40}\n\
OLD TURKIC LETTER ORKHON ESH:\u{10C41}\n\
OLD TURKIC LETTER YENISEI ESH:\u{10C42}\n\
OLD TURKIC LETTER ORKHON AT:\u{10C43}\n\
OLD TURKIC LETTER YENISEI AT:\u{10C44}\n\
OLD TURKIC LETTER ORKHON AET:\u{10C45}\n\
OLD TURKIC LETTER YENISEI AET:\u{10C46}\n\
OLD TURKIC LETTER ORKHON OT:\u{10C47}\n\
OLD TURKIC LETTER ORKHON BASH:\u{10C48}\n\
OLD HUNGARIAN CAPITAL LETTER A:\u{10C80}\n\
OLD HUNGARIAN CAPITAL LETTER AA:\u{10C81}\n\
OLD HUNGARIAN CAPITAL LETTER EB:\u{10C82}\n\
OLD HUNGARIAN CAPITAL LETTER AMB:\u{10C83}\n\
OLD HUNGARIAN CAPITAL LETTER EC:\u{10C84}\n\
OLD HUNGARIAN CAPITAL LETTER ENC:\u{10C85}\n\
OLD HUNGARIAN CAPITAL LETTER ECS:\u{10C86}\n\
OLD HUNGARIAN CAPITAL LETTER ED:\u{10C87}\n\
OLD HUNGARIAN CAPITAL LETTER AND:\u{10C88}\n\
OLD HUNGARIAN CAPITAL LETTER E:\u{10C89}\n\
OLD HUNGARIAN CAPITAL LETTER CLOSE E:\u{10C8A}\n\
OLD HUNGARIAN CAPITAL LETTER EE:\u{10C8B}\n\
OLD HUNGARIAN CAPITAL LETTER EF:\u{10C8C}\n\
OLD HUNGARIAN CAPITAL LETTER EG:\u{10C8D}\n\
OLD HUNGARIAN CAPITAL LETTER EGY:\u{10C8E}\n\
OLD HUNGARIAN CAPITAL LETTER EH:\u{10C8F}\n\
OLD HUNGARIAN CAPITAL LETTER I:\u{10C90}\n\
OLD HUNGARIAN CAPITAL LETTER II:\u{10C91}\n\
OLD HUNGARIAN CAPITAL LETTER EJ:\u{10C92}\n\
OLD HUNGARIAN CAPITAL LETTER EK:\u{10C93}\n\
OLD HUNGARIAN CAPITAL LETTER AK:\u{10C94}\n\
OLD HUNGARIAN CAPITAL LETTER UNK:\u{10C95}\n\
OLD HUNGARIAN CAPITAL LETTER EL:\u{10C96}\n\
OLD HUNGARIAN CAPITAL LETTER ELY:\u{10C97}\n\
OLD HUNGARIAN CAPITAL LETTER EM:\u{10C98}\n\
OLD HUNGARIAN CAPITAL LETTER EN:\u{10C99}\n\
OLD HUNGARIAN CAPITAL LETTER ENY:\u{10C9A}\n\
OLD HUNGARIAN CAPITAL LETTER O:\u{10C9B}\n\
OLD HUNGARIAN CAPITAL LETTER OO:\u{10C9C}\n\
OLD HUNGARIAN CAPITAL LETTER NIKOLSBURG OE:\u{10C9D}\n\
OLD HUNGARIAN CAPITAL LETTER RUDIMENTA OE:\u{10C9E}\n\
OLD HUNGARIAN CAPITAL LETTER OEE:\u{10C9F}\n\
OLD HUNGARIAN CAPITAL LETTER EP:\u{10CA0}\n\
OLD HUNGARIAN CAPITAL LETTER EMP:\u{10CA1}\n\
OLD HUNGARIAN CAPITAL LETTER ER:\u{10CA2}\n\
OLD HUNGARIAN CAPITAL LETTER SHORT ER:\u{10CA3}\n\
OLD HUNGARIAN CAPITAL LETTER ES:\u{10CA4}\n\
OLD HUNGARIAN CAPITAL LETTER ESZ:\u{10CA5}\n\
OLD HUNGARIAN CAPITAL LETTER ET:\u{10CA6}\n\
OLD HUNGARIAN CAPITAL LETTER ENT:\u{10CA7}\n\
OLD HUNGARIAN CAPITAL LETTER ETY:\u{10CA8}\n\
OLD HUNGARIAN CAPITAL LETTER ECH:\u{10CA9}\n\
OLD HUNGARIAN CAPITAL LETTER U:\u{10CAA}\n\
OLD HUNGARIAN CAPITAL LETTER UU:\u{10CAB}\n\
OLD HUNGARIAN CAPITAL LETTER NIKOLSBURG UE:\u{10CAC}\n\
OLD HUNGARIAN CAPITAL LETTER RUDIMENTA UE:\u{10CAD}\n\
OLD HUNGARIAN CAPITAL LETTER EV:\u{10CAE}\n\
OLD HUNGARIAN CAPITAL LETTER EZ:\u{10CAF}\n\
OLD HUNGARIAN CAPITAL LETTER EZS:\u{10CB0}\n\
OLD HUNGARIAN CAPITAL LETTER ENT-SHAPED SIGN:\u{10CB1}\n\
OLD HUNGARIAN CAPITAL LETTER US:\u{10CB2}\n\
OLD HUNGARIAN SMALL LETTER A:\u{10CC0}\n\
OLD HUNGARIAN SMALL LETTER AA:\u{10CC1}\n\
OLD HUNGARIAN SMALL LETTER EB:\u{10CC2}\n\
OLD HUNGARIAN SMALL LETTER AMB:\u{10CC3}\n\
OLD HUNGARIAN SMALL LETTER EC:\u{10CC4}\n\
OLD HUNGARIAN SMALL LETTER ENC:\u{10CC5}\n\
OLD HUNGARIAN SMALL LETTER ECS:\u{10CC6}\n\
OLD HUNGARIAN SMALL LETTER ED:\u{10CC7}\n\
OLD HUNGARIAN SMALL LETTER AND:\u{10CC8}\n\
OLD HUNGARIAN SMALL LETTER E:\u{10CC9}\n\
OLD HUNGARIAN SMALL LETTER CLOSE E:\u{10CCA}\n\
OLD HUNGARIAN SMALL LETTER EE:\u{10CCB}\n\
OLD HUNGARIAN SMALL LETTER EF:\u{10CCC}\n\
OLD HUNGARIAN SMALL LETTER EG:\u{10CCD}\n\
OLD HUNGARIAN SMALL LETTER EGY:\u{10CCE}\n\
OLD HUNGARIAN SMALL LETTER EH:\u{10CCF}\n\
OLD HUNGARIAN SMALL LETTER I:\u{10CD0}\n\
OLD HUNGARIAN SMALL LETTER II:\u{10CD1}\n\
OLD HUNGARIAN SMALL LETTER EJ:\u{10CD2}\n\
OLD HUNGARIAN SMALL LETTER EK:\u{10CD3}\n\
OLD HUNGARIAN SMALL LETTER AK:\u{10CD4}\n\
OLD HUNGARIAN SMALL LETTER UNK:\u{10CD5}\n\
OLD HUNGARIAN SMALL LETTER EL:\u{10CD6}\n\
OLD HUNGARIAN SMALL LETTER ELY:\u{10CD7}\n\
OLD HUNGARIAN SMALL LETTER EM:\u{10CD8}\n\
OLD HUNGARIAN SMALL LETTER EN:\u{10CD9}\n\
OLD HUNGARIAN SMALL LETTER ENY:\u{10CDA}\n\
OLD HUNGARIAN SMALL LETTER O:\u{10CDB}\n\
OLD HUNGARIAN SMALL LETTER OO:\u{10CDC}\n\
OLD HUNGARIAN SMALL LETTER NIKOLSBURG OE:\u{10CDD}\n\
OLD HUNGARIAN SMALL LETTER RUDIMENTA OE:\u{10CDE}\n\
OLD HUNGARIAN SMALL LETTER OEE:\u{10CDF}\n\
OLD HUNGARIAN SMALL LETTER EP:\u{10CE0}\n\
OLD HUNGARIAN SMALL LETTER EMP:\u{10CE1}\n\
OLD HUNGARIAN SMALL LETTER ER:\u{10CE2}\n\
OLD HUNGARIAN SMALL LETTER SHORT ER:\u{10CE3}\n\
OLD HUNGARIAN SMALL LETTER ES:\u{10CE4}\n\
OLD HUNGARIAN SMALL LETTER ESZ:\u{10CE5}\n\
OLD HUNGARIAN SMALL LETTER ET:\u{10CE6}\n\
OLD HUNGARIAN SMALL LETTER ENT:\u{10CE7}\n\
OLD HUNGARIAN SMALL LETTER ETY:\u{10CE8}\n\
OLD HUNGARIAN SMALL LETTER ECH:\u{10CE9}\n\
OLD HUNGARIAN SMALL LETTER U:\u{10CEA}\n\
OLD HUNGARIAN SMALL LETTER UU:\u{10CEB}\n\
OLD HUNGARIAN SMALL LETTER NIKOLSBURG UE:\u{10CEC}\n\
OLD HUNGARIAN SMALL LETTER RUDIMENTA UE:\u{10CED}\n\
OLD HUNGARIAN SMALL LETTER EV:\u{10CEE}\n\
OLD HUNGARIAN SMALL LETTER EZ:\u{10CEF}\n\
OLD HUNGARIAN SMALL LETTER EZS:\u{10CF0}\n\
OLD HUNGARIAN SMALL LETTER ENT-SHAPED SIGN:\u{10CF1}\n\
OLD HUNGARIAN SMALL LETTER US:\u{10CF2}\n\
OLD HUNGARIAN NUMBER ONE:\u{10CFA}\n\
OLD HUNGARIAN NUMBER FIVE:\u{10CFB}\n\
OLD HUNGARIAN NUMBER TEN:\u{10CFC}\n\
OLD HUNGARIAN NUMBER FIFTY:\u{10CFD}\n\
OLD HUNGARIAN NUMBER ONE HUNDRED:\u{10CFE}\n\
OLD HUNGARIAN NUMBER ONE THOUSAND:\u{10CFF}\n\
HANIFI ROHINGYA LETTER A:\u{10D00}\n\
HANIFI ROHINGYA LETTER BA:\u{10D01}\n\
HANIFI ROHINGYA LETTER PA:\u{10D02}\n\
HANIFI ROHINGYA LETTER TA:\u{10D03}\n\
HANIFI ROHINGYA LETTER TTA:\u{10D04}\n\
HANIFI ROHINGYA LETTER JA:\u{10D05}\n\
HANIFI ROHINGYA LETTER CA:\u{10D06}\n\
HANIFI ROHINGYA LETTER HA:\u{10D07}\n\
HANIFI ROHINGYA LETTER KHA:\u{10D08}\n\
HANIFI ROHINGYA LETTER FA:\u{10D09}\n\
HANIFI ROHINGYA LETTER DA:\u{10D0A}\n\
HANIFI ROHINGYA LETTER DDA:\u{10D0B}\n\
HANIFI ROHINGYA LETTER RA:\u{10D0C}\n\
HANIFI ROHINGYA LETTER RRA:\u{10D0D}\n\
HANIFI ROHINGYA LETTER ZA:\u{10D0E}\n\
HANIFI ROHINGYA LETTER SA:\u{10D0F}\n\
HANIFI ROHINGYA LETTER SHA:\u{10D10}\n\
HANIFI ROHINGYA LETTER KA:\u{10D11}\n\
HANIFI ROHINGYA LETTER GA:\u{10D12}\n\
HANIFI ROHINGYA LETTER LA:\u{10D13}\n\
HANIFI ROHINGYA LETTER MA:\u{10D14}\n\
HANIFI ROHINGYA LETTER NA:\u{10D15}\n\
HANIFI ROHINGYA LETTER WA:\u{10D16}\n\
HANIFI ROHINGYA LETTER KINNA WA:\u{10D17}\n\
HANIFI ROHINGYA LETTER YA:\u{10D18}\n\
HANIFI ROHINGYA LETTER KINNA YA:\u{10D19}\n\
HANIFI ROHINGYA LETTER NGA:\u{10D1A}\n\
HANIFI ROHINGYA LETTER NYA:\u{10D1B}\n\
HANIFI ROHINGYA LETTER VA:\u{10D1C}\n\
HANIFI ROHINGYA VOWEL A:\u{10D1D}\n\
HANIFI ROHINGYA VOWEL I:\u{10D1E}\n\
HANIFI ROHINGYA VOWEL U:\u{10D1F}\n\
HANIFI ROHINGYA VOWEL E:\u{10D20}\n\
HANIFI ROHINGYA VOWEL O:\u{10D21}\n\
HANIFI ROHINGYA MARK SAKIN:\u{10D22}\n\
HANIFI ROHINGYA MARK NA KHONNA:\u{10D23}\n\
HANIFI ROHINGYA SIGN HARBAHAY:\u{10D24}\n\
HANIFI ROHINGYA SIGN TAHALA:\u{10D25}\n\
HANIFI ROHINGYA SIGN TANA:\u{10D26}\n\
HANIFI ROHINGYA SIGN TASSI:\u{10D27}\n\
HANIFI ROHINGYA DIGIT ZERO:\u{10D30}\n\
HANIFI ROHINGYA DIGIT ONE:\u{10D31}\n\
HANIFI ROHINGYA DIGIT TWO:\u{10D32}\n\
HANIFI ROHINGYA DIGIT THREE:\u{10D33}\n\
HANIFI ROHINGYA DIGIT FOUR:\u{10D34}\n\
HANIFI ROHINGYA DIGIT FIVE:\u{10D35}\n\
HANIFI ROHINGYA DIGIT SIX:\u{10D36}\n\
HANIFI ROHINGYA DIGIT SEVEN:\u{10D37}\n\
HANIFI ROHINGYA DIGIT EIGHT:\u{10D38}\n\
HANIFI ROHINGYA DIGIT NINE:\u{10D39}\n\
RUMI DIGIT ONE:\u{10E60}\n\
RUMI DIGIT TWO:\u{10E61}\n\
RUMI DIGIT THREE:\u{10E62}\n\
RUMI DIGIT FOUR:\u{10E63}\n\
RUMI DIGIT FIVE:\u{10E64}\n\
RUMI DIGIT SIX:\u{10E65}\n\
RUMI DIGIT SEVEN:\u{10E66}\n\
RUMI DIGIT EIGHT:\u{10E67}\n\
RUMI DIGIT NINE:\u{10E68}\n\
RUMI NUMBER TEN:\u{10E69}\n\
RUMI NUMBER TWENTY:\u{10E6A}\n\
RUMI NUMBER THIRTY:\u{10E6B}\n\
RUMI NUMBER FORTY:\u{10E6C}\n\
RUMI NUMBER FIFTY:\u{10E6D}\n\
RUMI NUMBER SIXTY:\u{10E6E}\n\
RUMI NUMBER SEVENTY:\u{10E6F}\n\
RUMI NUMBER EIGHTY:\u{10E70}\n\
RUMI NUMBER NINETY:\u{10E71}\n\
RUMI NUMBER ONE HUNDRED:\u{10E72}\n\
RUMI NUMBER TWO HUNDRED:\u{10E73}\n\
RUMI NUMBER THREE HUNDRED:\u{10E74}\n\
RUMI NUMBER FOUR HUNDRED:\u{10E75}\n\
RUMI NUMBER FIVE HUNDRED:\u{10E76}\n\
RUMI NUMBER SIX HUNDRED:\u{10E77}\n\
RUMI NUMBER SEVEN HUNDRED:\u{10E78}\n\
RUMI NUMBER EIGHT HUNDRED:\u{10E79}\n\
RUMI NUMBER NINE HUNDRED:\u{10E7A}\n\
RUMI FRACTION ONE HALF:\u{10E7B}\n\
RUMI FRACTION ONE QUARTER:\u{10E7C}\n";

pub const NAMES_48: &'static str = "RUMI FRACTION ONE THIRD:\u{10E7D}\n\
RUMI FRACTION TWO THIRDS:\u{10E7E}\n\
YEZIDI LETTER ELIF:\u{10E80}\n\
YEZIDI LETTER BE:\u{10E81}\n\
YEZIDI LETTER PE:\u{10E82}\n\
YEZIDI LETTER PHE:\u{10E83}\n\
YEZIDI LETTER THE:\u{10E84}\n\
YEZIDI LETTER SE:\u{10E85}\n\
YEZIDI LETTER CIM:\u{10E86}\n\
YEZIDI LETTER CHIM:\u{10E87}\n\
YEZIDI LETTER CHHIM:\u{10E88}\n\
YEZIDI LETTER HHA:\u{10E89}\n\
YEZIDI LETTER XA:\u{10E8A}\n\
YEZIDI LETTER DAL:\u{10E8B}\n\
YEZIDI LETTER ZAL:\u{10E8C}\n\
YEZIDI LETTER RA:\u{10E8D}\n\
YEZIDI LETTER RHA:\u{10E8E}\n\
YEZIDI LETTER ZA:\u{10E8F}\n\
YEZIDI LETTER JA:\u{10E90}\n\
YEZIDI LETTER SIN:\u{10E91}\n\
YEZIDI LETTER SHIN:\u{10E92}\n\
YEZIDI LETTER SAD:\u{10E93}\n\
YEZIDI LETTER DAD:\u{10E94}\n\
YEZIDI LETTER TA:\u{10E95}\n\
YEZIDI LETTER ZE:\u{10E96}\n\
YEZIDI LETTER EYN:\u{10E97}\n\
YEZIDI LETTER XHEYN:\u{10E98}\n\
YEZIDI LETTER FA:\u{10E99}\n\
YEZIDI LETTER VA:\u{10E9A}\n\
YEZIDI LETTER VA ALTERNATE FORM:\u{10E9B}\n\
YEZIDI LETTER QAF:\u{10E9C}\n\
YEZIDI LETTER KAF:\u{10E9D}\n\
YEZIDI LETTER KHAF:\u{10E9E}\n\
YEZIDI LETTER GAF:\u{10E9F}\n\
YEZIDI LETTER LAM:\u{10EA0}\n\
YEZIDI LETTER MIM:\u{10EA1}\n\
YEZIDI LETTER NUN:\u{10EA2}\n\
YEZIDI LETTER UM:\u{10EA3}\n\
YEZIDI LETTER WAW:\u{10EA4}\n\
YEZIDI LETTER OW:\u{10EA5}\n\
YEZIDI LETTER EW:\u{10EA6}\n\
YEZIDI LETTER HAY:\u{10EA7}\n\
YEZIDI LETTER YOT:\u{10EA8}\n\
YEZIDI LETTER ET:\u{10EA9}\n\
YEZIDI COMBINING HAMZA MARK:\u{10EAB}\n\
YEZIDI COMBINING MADDA MARK:\u{10EAC}\n\
YEZIDI HYPHENATION MARK:\u{10EAD}\n\
YEZIDI LETTER LAM WITH DOT ABOVE:\u{10EB0}\n\
YEZIDI LETTER YOT WITH CIRCUMFLEX ABOVE:\u{10EB1}\n\
OLD SOGDIAN LETTER ALEPH:\u{10F00}\n\
OLD SOGDIAN LETTER FINAL ALEPH:\u{10F01}\n\
OLD SOGDIAN LETTER BETH:\u{10F02}\n\
OLD SOGDIAN LETTER FINAL BETH:\u{10F03}\n\
OLD SOGDIAN LETTER GIMEL:\u{10F04}\n\
OLD SOGDIAN LETTER HE:\u{10F05}\n\
OLD SOGDIAN LETTER FINAL HE:\u{10F06}\n\
OLD SOGDIAN LETTER WAW:\u{10F07}\n\
OLD SOGDIAN LETTER ZAYIN:\u{10F08}\n\
OLD SOGDIAN LETTER HETH:\u{10F09}\n\
OLD SOGDIAN LETTER YODH:\u{10F0A}\n\
OLD SOGDIAN LETTER KAPH:\u{10F0B}\n\
OLD SOGDIAN LETTER LAMEDH:\u{10F0C}\n\
OLD SOGDIAN LETTER MEM:\u{10F0D}\n\
OLD SOGDIAN LETTER NUN:\u{10F0E}\n\
OLD SOGDIAN LETTER FINAL NUN:\u{10F0F}\n\
OLD SOGDIAN LETTER FINAL NUN WITH VERTICAL TAIL:\u{10F10}\n\
OLD SOGDIAN LETTER SAMEKH:\u{10F11}\n\
OLD SOGDIAN LETTER AYIN:\u{10F12}\n\
OLD SOGDIAN LETTER ALTERNATE AYIN:\u{10F13}\n\
OLD SOGDIAN LETTER PE:\u{10F14}\n\
OLD SOGDIAN LETTER SADHE:\u{10F15}\n\
OLD SOGDIAN LETTER FINAL SADHE:\u{10F16}\n\
OLD SOGDIAN LETTER FINAL SADHE WITH VERTICAL TAIL:\u{10F17}\n\
OLD SOGDIAN LETTER RESH-AYIN-DALETH:\u{10F18}\n\
OLD SOGDIAN LETTER SHIN:\u{10F19}\n\
OLD SOGDIAN LETTER TAW:\u{10F1A}\n\
OLD SOGDIAN LETTER FINAL TAW:\u{10F1B}\n\
OLD SOGDIAN LETTER FINAL TAW WITH VERTICAL TAIL:\u{10F1C}\n\
OLD SOGDIAN NUMBER ONE:\u{10F1D}\n\
OLD SOGDIAN NUMBER TWO:\u{10F1E}\n\
OLD SOGDIAN NUMBER THREE:\u{10F1F}\n\
OLD SOGDIAN NUMBER FOUR:\u{10F20}\n\
OLD SOGDIAN NUMBER FIVE:\u{10F21}\n\
OLD SOGDIAN NUMBER TEN:\u{10F22}\n\
OLD SOGDIAN NUMBER TWENTY:\u{10F23}\n\
OLD SOGDIAN NUMBER THIRTY:\u{10F24}\n\
OLD SOGDIAN NUMBER ONE HUNDRED:\u{10F25}\n\
OLD SOGDIAN FRACTION ONE HALF:\u{10F26}\n\
OLD SOGDIAN LIGATURE AYIN-DALETH:\u{10F27}\n\
SOGDIAN LETTER ALEPH:\u{10F30}\n\
SOGDIAN LETTER BETH:\u{10F31}\n\
SOGDIAN LETTER GIMEL:\u{10F32}\n\
SOGDIAN LETTER HE:\u{10F33}\n\
SOGDIAN LETTER WAW:\u{10F34}\n\
SOGDIAN LETTER ZAYIN:\u{10F35}\n\
SOGDIAN LETTER HETH:\u{10F36}\n\
SOGDIAN LETTER YODH:\u{10F37}\n\
SOGDIAN LETTER KAPH:\u{10F38}\n\
SOGDIAN LETTER LAMEDH:\u{10F39}\n\
SOGDIAN LETTER MEM:\u{10F3A}\n\
SOGDIAN LETTER NUN:\u{10F3B}\n\
SOGDIAN LETTER SAMEKH:\u{10F3C}\n\
SOGDIAN LETTER AYIN:\u{10F3D}\n\
SOGDIAN LETTER PE:\u{10F3E}\n\
SOGDIAN LETTER SADHE:\u{10F3F}\n\
SOGDIAN LETTER RESH-AYIN:\u{10F40}\n\
SOGDIAN LETTER SHIN:\u{10F41}\n\
SOGDIAN LETTER TAW:\u{10F42}\n\
SOGDIAN LETTER FETH:\u{10F43}\n\
SOGDIAN LETTER LESH:\u{10F44}\n\
SOGDIAN INDEPENDENT SHIN:\u{10F45}\n\
SOGDIAN COMBINING DOT BELOW:\u{10F46}\n\
SOGDIAN COMBINING TWO DOTS BELOW:\u{10F47}\n\
SOGDIAN COMBINING DOT ABOVE:\u{10F48}\n\
SOGDIAN COMBINING TWO DOTS ABOVE:\u{10F49}\n\
SOGDIAN COMBINING CURVE ABOVE:\u{10F4A}\n\
SOGDIAN COMBINING CURVE BELOW:\u{10F4B}\n\
SOGDIAN COMBINING HOOK ABOVE:\u{10F4C}\n\
SOGDIAN COMBINING HOOK BELOW:\u{10F4D}\n\
SOGDIAN COMBINING LONG HOOK BELOW:\u{10F4E}\n\
SOGDIAN COMBINING RESH BELOW:\u{10F4F}\n\
SOGDIAN COMBINING STROKE BELOW:\u{10F50}\n\
SOGDIAN NUMBER ONE:\u{10F51}\n\
SOGDIAN NUMBER TEN:\u{10F52}\n\
SOGDIAN NUMBER TWENTY:\u{10F53}\n\
SOGDIAN NUMBER ONE HUNDRED:\u{10F54}\n\
SOGDIAN PUNCTUATION TWO VERTICAL BARS:\u{10F55}\n\
SOGDIAN PUNCTUATION TWO VERTICAL BARS WITH DOTS:\u{10F56}\n\
SOGDIAN PUNCTUATION CIRCLE WITH DOT:\u{10F57}\n\
SOGDIAN PUNCTUATION TWO CIRCLES WITH DOTS:\u{10F58}\n\
SOGDIAN PUNCTUATION HALF CIRCLE WITH DOT:\u{10F59}\n\
OLD UYGHUR LETTER ALEPH:\u{10F70}\n\
OLD UYGHUR LETTER BETH:\u{10F71}\n\
OLD UYGHUR LETTER GIMEL-HETH:\u{10F72}\n\
OLD UYGHUR LETTER WAW:\u{10F73}\n\
OLD UYGHUR LETTER ZAYIN:\u{10F74}\n\
OLD UYGHUR LETTER FINAL HETH:\u{10F75}\n\
OLD UYGHUR LETTER YODH:\u{10F76}\n\
OLD UYGHUR LETTER KAPH:\u{10F77}\n\
OLD UYGHUR LETTER LAMEDH:\u{10F78}\n\
OLD UYGHUR LETTER MEM:\u{10F79}\n\
OLD UYGHUR LETTER NUN:\u{10F7A}\n\
OLD UYGHUR LETTER SAMEKH:\u{10F7B}\n\
OLD UYGHUR LETTER PE:\u{10F7C}\n\
OLD UYGHUR LETTER SADHE:\u{10F7D}\n\
OLD UYGHUR LETTER RESH:\u{10F7E}\n\
OLD UYGHUR LETTER SHIN:\u{10F7F}\n\
OLD UYGHUR LETTER TAW:\u{10F80}\n\
OLD UYGHUR LETTER LESH:\u{10F81}\n\
OLD UYGHUR COMBINING DOT ABOVE:\u{10F82}\n\
OLD UYGHUR COMBINING DOT BELOW:\u{10F83}\n\
OLD UYGHUR COMBINING TWO DOTS ABOVE:\u{10F84}\n\
OLD UYGHUR COMBINING TWO DOTS BELOW:\u{10F85}\n\
OLD UYGHUR PUNCTUATION BAR:\u{10F86}\n\
OLD UYGHUR PUNCTUATION TWO BARS:\u{10F87}\n\
OLD UYGHUR PUNCTUATION TWO DOTS:\u{10F88}\n\
OLD UYGHUR PUNCTUATION FOUR DOTS:\u{10F89}\n\
CHORASMIAN LETTER ALEPH:\u{10FB0}\n\
CHORASMIAN LETTER SMALL ALEPH:\u{10FB1}\n\
CHORASMIAN LETTER BETH:\u{10FB2}\n\
CHORASMIAN LETTER GIMEL:\u{10FB3}\n\
CHORASMIAN LETTER DALETH:\u{10FB4}\n\
CHORASMIAN LETTER HE:\u{10FB5}\n\
CHORASMIAN LETTER WAW:\u{10FB6}\n\
CHORASMIAN LETTER CURLED WAW:\u{10FB7}\n\
CHORASMIAN LETTER ZAYIN:\u{10FB8}\n\
CHORASMIAN LETTER HETH:\u{10FB9}\n\
CHORASMIAN LETTER YODH:\u{10FBA}\n\
CHORASMIAN LETTER KAPH:\u{10FBB}\n\
CHORASMIAN LETTER LAMEDH:\u{10FBC}\n\
CHORASMIAN LETTER MEM:\u{10FBD}\n\
CHORASMIAN LETTER NUN:\u{10FBE}\n\
CHORASMIAN LETTER SAMEKH:\u{10FBF}\n\
CHORASMIAN LETTER AYIN:\u{10FC0}\n\
CHORASMIAN LETTER PE:\u{10FC1}\n\
CHORASMIAN LETTER RESH:\u{10FC2}\n\
CHORASMIAN LETTER SHIN:\u{10FC3}\n\
CHORASMIAN LETTER TAW:\u{10FC4}\n\
CHORASMIAN NUMBER ONE:\u{10FC5}\n\
CHORASMIAN NUMBER TWO:\u{10FC6}\n\
CHORASMIAN NUMBER THREE:\u{10FC7}\n\
CHORASMIAN NUMBER FOUR:\u{10FC8}\n\
CHORASMIAN NUMBER TEN:\u{10FC9}\n\
CHORASMIAN NUMBER TWENTY:\u{10FCA}\n\
CHORASMIAN NUMBER ONE HUNDRED:\u{10FCB}\n\
ELYMAIC LETTER ALEPH:\u{10FE0}\n\
ELYMAIC LETTER BETH:\u{10FE1}\n\
ELYMAIC LETTER GIMEL:\u{10FE2}\n\
ELYMAIC LETTER DALETH:\u{10FE3}\n\
ELYMAIC LETTER HE:\u{10FE4}\n\
ELYMAIC LETTER WAW:\u{10FE5}\n\
ELYMAIC LETTER ZAYIN:\u{10FE6}\n\
ELYMAIC LETTER HETH:\u{10FE7}\n\
ELYMAIC LETTER TETH:\u{10FE8}\n\
ELYMAIC LETTER YODH:\u{10FE9}\n\
ELYMAIC LETTER KAPH:\u{10FEA}\n\
ELYMAIC LETTER LAMEDH:\u{10FEB}\n\
ELYMAIC LETTER MEM:\u{10FEC}\n\
ELYMAIC LETTER NUN:\u{10FED}\n\
ELYMAIC LETTER SAMEKH:\u{10FEE}\n\
ELYMAIC LETTER AYIN:\u{10FEF}\n\
ELYMAIC LETTER PE:\u{10FF0}\n\
ELYMAIC LETTER SADHE:\u{10FF1}\n\
ELYMAIC LETTER QOPH:\u{10FF2}\n\
ELYMAIC LETTER RESH:\u{10FF3}\n\
ELYMAIC LETTER SHIN:\u{10FF4}\n\
ELYMAIC LETTER TAW:\u{10FF5}\n\
ELYMAIC LIGATURE ZAYIN-YODH:\u{10FF6}\n\
BRAHMI SIGN CANDRABINDU:\u{11000}\n\
BRAHMI SIGN ANUSVARA:\u{11001}\n\
BRAHMI SIGN VISARGA:\u{11002}\n\
BRAHMI SIGN JIHVAMULIYA:\u{11003}\n\
BRAHMI SIGN UPADHMANIYA:\u{11004}\n\
BRAHMI LETTER A:\u{11005}\n\
BRAHMI LETTER AA:\u{11006}\n\
BRAHMI LETTER I:\u{11007}\n\
BRAHMI LETTER II:\u{11008}\n\
BRAHMI LETTER U:\u{11009}\n\
BRAHMI LETTER UU:\u{1100A}\n\
BRAHMI LETTER VOCALIC R:\u{1100B}\n\
BRAHMI LETTER VOCALIC RR:\u{1100C}\n\
BRAHMI LETTER VOCALIC L:\u{1100D}\n\
BRAHMI LETTER VOCALIC LL:\u{1100E}\n\
BRAHMI LETTER E:\u{1100F}\n\
BRAHMI LETTER AI:\u{11010}\n\
BRAHMI LETTER O:\u{11011}\n\
BRAHMI LETTER AU:\u{11012}\n\
BRAHMI LETTER KA:\u{11013}\n\
BRAHMI LETTER KHA:\u{11014}\n\
BRAHMI LETTER GA:\u{11015}\n\
BRAHMI LETTER GHA:\u{11016}\n\
BRAHMI LETTER NGA:\u{11017}\n\
BRAHMI LETTER CA:\u{11018}\n\
BRAHMI LETTER CHA:\u{11019}\n\
BRAHMI LETTER JA:\u{1101A}\n\
BRAHMI LETTER JHA:\u{1101B}\n\
BRAHMI LETTER NYA:\u{1101C}\n\
BRAHMI LETTER TTA:\u{1101D}\n\
BRAHMI LETTER TTHA:\u{1101E}\n\
BRAHMI LETTER DDA:\u{1101F}\n\
BRAHMI LETTER DDHA:\u{11020}\n\
BRAHMI LETTER NNA:\u{11021}\n\
BRAHMI LETTER TA:\u{11022}\n\
BRAHMI LETTER THA:\u{11023}\n\
BRAHMI LETTER DA:\u{11024}\n\
BRAHMI LETTER DHA:\u{11025}\n\
BRAHMI LETTER NA:\u{11026}\n\
BRAHMI LETTER PA:\u{11027}\n\
BRAHMI LETTER PHA:\u{11028}\n\
BRAHMI LETTER BA:\u{11029}\n\
BRAHMI LETTER BHA:\u{1102A}\n\
BRAHMI LETTER MA:\u{1102B}\n\
BRAHMI LETTER YA:\u{1102C}\n\
BRAHMI LETTER RA:\u{1102D}\n\
BRAHMI LETTER LA:\u{1102E}\n\
BRAHMI LETTER VA:\u{1102F}\n\
BRAHMI LETTER SHA:\u{11030}\n\
BRAHMI LETTER SSA:\u{11031}\n\
BRAHMI LETTER SA:\u{11032}\n\
BRAHMI LETTER HA:\u{11033}\n\
BRAHMI LETTER LLA:\u{11034}\n\
BRAHMI LETTER OLD TAMIL LLLA:\u{11035}\n\
BRAHMI LETTER OLD TAMIL RRA:\u{11036}\n\
BRAHMI LETTER OLD TAMIL NNNA:\u{11037}\n\
BRAHMI VOWEL SIGN AA:\u{11038}\n\
BRAHMI VOWEL SIGN BHATTIPROLU AA:\u{11039}\n\
BRAHMI VOWEL SIGN I:\u{1103A}\n\
BRAHMI VOWEL SIGN II:\u{1103B}\n\
BRAHMI VOWEL SIGN U:\u{1103C}\n\
BRAHMI VOWEL SIGN UU:\u{1103D}\n\
BRAHMI VOWEL SIGN VOCALIC R:\u{1103E}\n\
BRAHMI VOWEL SIGN VOCALIC RR:\u{1103F}\n\
BRAHMI VOWEL SIGN VOCALIC L:\u{11040}\n\
BRAHMI VOWEL SIGN VOCALIC LL:\u{11041}\n\
BRAHMI VOWEL SIGN E:\u{11042}\n\
BRAHMI VOWEL SIGN AI:\u{11043}\n\
BRAHMI VOWEL SIGN O:\u{11044}\n\
BRAHMI VOWEL SIGN AU:\u{11045}\n\
BRAHMI VIRAMA:\u{11046}\n\
BRAHMI DANDA:\u{11047}\n\
BRAHMI DOUBLE DANDA:\u{11048}\n\
BRAHMI PUNCTUATION DOT:\u{11049}\n\
BRAHMI PUNCTUATION DOUBLE DOT:\u{1104A}\n\
BRAHMI PUNCTUATION LINE:\u{1104B}\n\
BRAHMI PUNCTUATION CRESCENT BAR:\u{1104C}\n\
BRAHMI PUNCTUATION LOTUS:\u{1104D}\n\
BRAHMI NUMBER ONE:\u{11052}\n\
BRAHMI NUMBER TWO:\u{11053}\n\
BRAHMI NUMBER THREE:\u{11054}\n\
BRAHMI NUMBER FOUR:\u{11055}\n\
BRAHMI NUMBER FIVE:\u{11056}\n\
BRAHMI NUMBER SIX:\u{11057}\n\
BRAHMI NUMBER SEVEN:\u{11058}\n\
BRAHMI NUMBER EIGHT:\u{11059}\n\
BRAHMI NUMBER NINE:\u{1105A}\n\
BRAHMI NUMBER TEN:\u{1105B}\n\
BRAHMI NUMBER TWENTY:\u{1105C}\n\
BRAHMI NUMBER THIRTY:\u{1105D}\n\
BRAHMI NUMBER FORTY:\u{1105E}\n\
BRAHMI NUMBER FIFTY:\u{1105F}\n\
BRAHMI NUMBER SIXTY:\u{11060}\n\
BRAHMI NUMBER SEVENTY:\u{11061}\n\
BRAHMI NUMBER EIGHTY:\u{11062}\n\
BRAHMI NUMBER NINETY:\u{11063}\n\
BRAHMI NUMBER ONE HUNDRED:\u{11064}\n\
BRAHMI NUMBER ONE THOUSAND:\u{11065}\n\
BRAHMI DIGIT ZERO:\u{11066}\n\
BRAHMI DIGIT ONE:\u{11067}\n\
BRAHMI DIGIT TWO:\u{11068}\n\
BRAHMI DIGIT THREE:\u{11069}\n\
BRAHMI DIGIT FOUR:\u{1106A}\n\
BRAHMI DIGIT FIVE:\u{1106B}\n\
BRAHMI DIGIT SIX:\u{1106C}\n\
BRAHMI DIGIT SEVEN:\u{1106D}\n\
BRAHMI DIGIT EIGHT:\u{1106E}\n\
BRAHMI DIGIT NINE:\u{1106F}\n\
BRAHMI SIGN OLD TAMIL VIRAMA:\u{11070}\n\
BRAHMI LETTER OLD TAMIL SHORT E:\u{11071}\n\
BRAHMI LETTER OLD TAMIL SHORT O:\u{11072}\n\
BRAHMI VOWEL SIGN OLD TAMIL SHORT E:\u{11073}\n\
BRAHMI VOWEL SIGN OLD TAMIL SHORT O:\u{11074}\n\
BRAHMI LETTER OLD TAMIL LLA:\u{11075}\n\
BRAHMI NUMBER JOINER:\u{1107F}\n\
KAITHI SIGN CANDRABINDU:\u{11080}\n\
KAITHI SIGN ANUSVARA:\u{11081}\n\
KAITHI SIGN VISARGA:\u{11082}\n\
KAITHI LETTER A:\u{11083}\n\
KAITHI LETTER AA:\u{11084}\n\
KAITHI LETTER I:\u{11085}\n\
KAITHI LETTER II:\u{11086}\n\
KAITHI LETTER U:\u{11087}\n\
KAITHI LETTER UU:\u{11088}\n\
KAITHI LETTER E:\u{11089}\n\
KAITHI LETTER AI:\u{1108A}\n\
KAITHI LETTER O:\u{1108B}\n\
KAITHI LETTER AU:\u{1108C}\n\
KAITHI LETTER KA:\u{1108D}\n\
KAITHI LETTER KHA:\u{1108E}\n\
KAITHI LETTER GA:\u{1108F}\n\
KAITHI LETTER GHA:\u{11090}\n\
KAITHI LETTER NGA:\u{11091}\n\
KAITHI LETTER CA:\u{11092}\n\
KAITHI LETTER CHA:\u{11093}\n\
KAITHI LETTER JA:\u{11094}\n\
KAITHI LETTER JHA:\u{11095}\n\
KAITHI LETTER NYA:\u{11096}\n\
KAITHI LETTER TTA:\u{11097}\n\
KAITHI LETTER TTHA:\u{11098}\n\
KAITHI LETTER DDA:\u{11099}\n\
KAITHI LETTER DDDHA:\u{1109A}\n\
KAITHI LETTER DDHA:\u{1109B}\n\
KAITHI LETTER RHA:\u{1109C}\n\
KAITHI LETTER NNA:\u{1109D}\n\
KAITHI LETTER TA:\u{1109E}\n\
KAITHI LETTER THA:\u{1109F}\n\
KAITHI LETTER DA:\u{110A0}\n\
KAITHI LETTER DHA:\u{110A1}\n\
KAITHI LETTER NA:\u{110A2}\n\
KAITHI LETTER PA:\u{110A3}\n\
KAITHI LETTER PHA:\u{110A4}\n\
KAITHI LETTER BA:\u{110A5}\n\
KAITHI LETTER BHA:\u{110A6}\n\
KAITHI LETTER MA:\u{110A7}\n\
KAITHI LETTER YA:\u{110A8}\n\
KAITHI LETTER RA:\u{110A9}\n\
KAITHI LETTER LA:\u{110AA}\n\
KAITHI LETTER VA:\u{110AB}\n\
KAITHI LETTER SHA:\u{110AC}\n\
KAITHI LETTER SSA:\u{110AD}\n\
KAITHI LETTER SA:\u{110AE}\n\
KAITHI LETTER HA:\u{110AF}\n\
KAITHI VOWEL SIGN AA:\u{110B0}\n\
KAITHI VOWEL SIGN I:\u{110B1}\n\
KAITHI VOWEL SIGN II:\u{110B2}\n\
KAITHI VOWEL SIGN U:\u{110B3}\n\
KAITHI VOWEL SIGN UU:\u{110B4}\n\
KAITHI VOWEL SIGN E:\u{110B5}\n\
KAITHI VOWEL SIGN AI:\u{110B6}\n\
KAITHI VOWEL SIGN O:\u{110B7}\n\
KAITHI VOWEL SIGN AU:\u{110B8}\n\
KAITHI SIGN VIRAMA:\u{110B9}\n\
KAITHI SIGN NUKTA:\u{110BA}\n\
KAITHI ABBREVIATION SIGN:\u{110BB}\n\
KAITHI ENUMERATION SIGN:\u{110BC}\n\
KAITHI NUMBER SIGN:\u{110BD}\n\
KAITHI SECTION MARK:\u{110BE}\n\
KAITHI DOUBLE SECTION MARK:\u{110BF}\n\
KAITHI DANDA:\u{110C0}\n\
KAITHI DOUBLE DANDA:\u{110C1}\n\
KAITHI VOWEL SIGN VOCALIC R:\u{110C2}\n\
KAITHI NUMBER SIGN ABOVE:\u{110CD}\n\
SORA SOMPENG LETTER SAH:\u{110D0}\n\
SORA SOMPENG LETTER TAH:\u{110D1}\n\
SORA SOMPENG LETTER BAH:\u{110D2}\n\
SORA SOMPENG LETTER CAH:\u{110D3}\n\
SORA SOMPENG LETTER DAH:\u{110D4}\n\
SORA SOMPENG LETTER GAH:\u{110D5}\n\
SORA SOMPENG LETTER MAH:\u{110D6}\n\
SORA SOMPENG LETTER NGAH:\u{110D7}\n\
SORA SOMPENG LETTER LAH:\u{110D8}\n\
SORA SOMPENG LETTER NAH:\u{110D9}\n\
SORA SOMPENG LETTER VAH:\u{110DA}\n\
SORA SOMPENG LETTER PAH:\u{110DB}\n\
SORA SOMPENG LETTER YAH:\u{110DC}\n\
SORA SOMPENG LETTER RAH:\u{110DD}\n\
SORA SOMPENG LETTER HAH:\u{110DE}\n\
SORA SOMPENG LETTER KAH:\u{110DF}\n\
SORA SOMPENG LETTER JAH:\u{110E0}\n\
SORA SOMPENG LETTER NYAH:\u{110E1}\n\
SORA SOMPENG LETTER AH:\u{110E2}\n\
SORA SOMPENG LETTER EEH:\u{110E3}\n\
SORA SOMPENG LETTER IH:\u{110E4}\n\
SORA SOMPENG LETTER UH:\u{110E5}\n\
SORA SOMPENG LETTER OH:\u{110E6}\n\
SORA SOMPENG LETTER EH:\u{110E7}\n\
SORA SOMPENG LETTER MAE:\u{110E8}\n\
SORA SOMPENG DIGIT ZERO:\u{110F0}\n\
SORA SOMPENG DIGIT ONE:\u{110F1}\n\
SORA SOMPENG DIGIT TWO:\u{110F2}\n\
SORA SOMPENG DIGIT THREE:\u{110F3}\n\
SORA SOMPENG DIGIT FOUR:\u{110F4}\n\
SORA SOMPENG DIGIT FIVE:\u{110F5}\n\
SORA SOMPENG DIGIT SIX:\u{110F6}\n\
SORA SOMPENG DIGIT SEVEN:\u{110F7}\n\
SORA SOMPENG DIGIT EIGHT:\u{110F8}\n\
SORA SOMPENG DIGIT NINE:\u{110F9}\n";

pub const NAMES_49: &'static str = "CHAKMA SIGN CANDRABINDU:\u{11100}\n\
CHAKMA SIGN ANUSVARA:\u{11101}\n\
CHAKMA SIGN VISARGA:\u{11102}\n\
CHAKMA LETTER AA:\u{11103}\n\
CHAKMA LETTER I:\u{11104}\n\
CHAKMA LETTER U:\u{11105}\n\
CHAKMA LETTER E:\u{11106}\n\
CHAKMA LETTER KAA:\u{11107}\n\
CHAKMA LETTER KHAA:\u{11108}\n\
CHAKMA LETTER GAA:\u{11109}\n\
CHAKMA LETTER GHAA:\u{1110A}\n\
CHAKMA LETTER NGAA:\u{1110B}\n\
CHAKMA LETTER CAA:\u{1110C}\n\
CHAKMA LETTER CHAA:\u{1110D}\n\
CHAKMA LETTER JAA:\u{1110E}\n\
CHAKMA LETTER JHAA:\u{1110F}\n\
CHAKMA LETTER NYAA:\u{11110}\n\
CHAKMA LETTER TTAA:\u{11111}\n\
CHAKMA LETTER TTHAA:\u{11112}\n\
CHAKMA LETTER DDAA:\u{11113}\n\
CHAKMA LETTER DDHAA:\u{11114}\n\
CHAKMA LETTER NNAA:\u{11115}\n\
CHAKMA LETTER TAA:\u{11116}\n\
CHAKMA LETTER THAA:\u{11117}\n\
CHAKMA LETTER DAA:\u{11118}\n\
CHAKMA LETTER DHAA:\u{11119}\n\
CHAKMA LETTER NAA:\u{1111A}\n\
CHAKMA LETTER PAA:\u{1111B}\n\
CHAKMA LETTER PHAA:\u{1111C}\n\
CHAKMA LETTER BAA:\u{1111D}\n\
CHAKMA LETTER BHAA:\u{1111E}\n\
CHAKMA LETTER MAA:\u{1111F}\n\
CHAKMA LETTER YYAA:\u{11120}\n\
CHAKMA LETTER YAA:\u{11121}\n\
CHAKMA LETTER RAA:\u{11122}\n\
CHAKMA LETTER LAA:\u{11123}\n\
CHAKMA LETTER WAA:\u{11124}\n\
CHAKMA LETTER SAA:\u{11125}\n\
CHAKMA LETTER HAA:\u{11126}\n\
CHAKMA VOWEL SIGN A:\u{11127}\n\
CHAKMA VOWEL SIGN I:\u{11128}\n\
CHAKMA VOWEL SIGN II:\u{11129}\n\
CHAKMA VOWEL SIGN U:\u{1112A}\n\
CHAKMA VOWEL SIGN UU:\u{1112B}\n\
CHAKMA VOWEL SIGN E:\u{1112C}\n\
CHAKMA VOWEL SIGN AI:\u{1112D}\n\
CHAKMA VOWEL SIGN O:\u{1112E}\n\
CHAKMA VOWEL SIGN AU:\u{1112F}\n\
CHAKMA VOWEL SIGN OI:\u{11130}\n\
CHAKMA O MARK:\u{11131}\n\
CHAKMA AU MARK:\u{11132}\n\
CHAKMA VIRAMA:\u{11133}\n\
CHAKMA MAAYYAA:\u{11134}\n\
CHAKMA DIGIT ZERO:\u{11136}\n\
CHAKMA DIGIT ONE:\u{11137}\n\
CHAKMA DIGIT TWO:\u{11138}\n\
CHAKMA DIGIT THREE:\u{11139}\n\
CHAKMA DIGIT FOUR:\u{1113A}\n\
CHAKMA DIGIT FIVE:\u{1113B}\n\
CHAKMA DIGIT SIX:\u{1113C}\n\
CHAKMA DIGIT SEVEN:\u{1113D}\n\
CHAKMA DIGIT EIGHT:\u{1113E}\n\
CHAKMA DIGIT NINE:\u{1113F}\n\
CHAKMA SECTION MARK:\u{11140}\n\
CHAKMA DANDA:\u{11141}\n\
CHAKMA DOUBLE DANDA:\u{11142}\n\
CHAKMA QUESTION MARK:\u{11143}\n\
CHAKMA LETTER LHAA:\u{11144}\n\
CHAKMA VOWEL SIGN AA:\u{11145}\n\
CHAKMA VOWEL SIGN EI:\u{11146}\n\
CHAKMA LETTER VAA:\u{11147}\n\
MAHAJANI LETTER A:\u{11150}\n\
MAHAJANI LETTER I:\u{11151}\n\
MAHAJANI LETTER U:\u{11152}\n\
MAHAJANI LETTER E:\u{11153}\n\
MAHAJANI LETTER O:\u{11154}\n\
MAHAJANI LETTER KA:\u{11155}\n\
MAHAJANI LETTER KHA:\u{11156}\n\
MAHAJANI LETTER GA:\u{11157}\n\
MAHAJANI LETTER GHA:\u{11158}\n\
MAHAJANI LETTER CA:\u{11159}\n\
MAHAJANI LETTER CHA:\u{1115A}\n\
MAHAJANI LETTER JA:\u{1115B}\n\
MAHAJANI LETTER JHA:\u{1115C}\n\
MAHAJANI LETTER NYA:\u{1115D}\n\
MAHAJANI LETTER TTA:\u{1115E}\n\
MAHAJANI LETTER TTHA:\u{1115F}\n\
MAHAJANI LETTER DDA:\u{11160}\n\
MAHAJANI LETTER DDHA:\u{11161}\n\
MAHAJANI LETTER NNA:\u{11162}\n\
MAHAJANI LETTER TA:\u{11163}\n\
MAHAJANI LETTER THA:\u{11164}\n\
MAHAJANI LETTER DA:\u{11165}\n\
MAHAJANI LETTER DHA:\u{11166}\n\
MAHAJANI LETTER NA:\u{11167}\n\
MAHAJANI LETTER PA:\u{11168}\n\
MAHAJANI LETTER PHA:\u{11169}\n\
MAHAJANI LETTER BA:\u{1116A}\n\
MAHAJANI LETTER BHA:\u{1116B}\n\
MAHAJANI LETTER MA:\u{1116C}\n\
MAHAJANI LETTER RA:\u{1116D}\n\
MAHAJANI LETTER LA:\u{1116E}\n\
MAHAJANI LETTER VA:\u{1116F}\n\
MAHAJANI LETTER SA:\u{11170}\n\
MAHAJANI LETTER HA:\u{11171}\n\
MAHAJANI LETTER RRA:\u{11172}\n\
MAHAJANI SIGN NUKTA:\u{11173}\n\
MAHAJANI ABBREVIATION SIGN:\u{11174}\n\
MAHAJANI SECTION MARK:\u{11175}\n\
MAHAJANI LIGATURE SHRI:\u{11176}\n\
SHARADA SIGN CANDRABINDU:\u{11180}\n\
SHARADA SIGN ANUSVARA:\u{11181}\n\
SHARADA SIGN VISARGA:\u{11182}\n\
SHARADA LETTER A:\u{11183}\n\
SHARADA LETTER AA:\u{11184}\n\
SHARADA LETTER I:\u{11185}\n\
SHARADA LETTER II:\u{11186}\n\
SHARADA LETTER U:\u{11187}\n\
SHARADA LETTER UU:\u{11188}\n\
SHARADA LETTER VOCALIC R:\u{11189}\n\
SHARADA LETTER VOCALIC RR:\u{1118A}\n\
SHARADA LETTER VOCALIC L:\u{1118B}\n\
SHARADA LETTER VOCALIC LL:\u{1118C}\n\
SHARADA LETTER E:\u{1118D}\n\
SHARADA LETTER AI:\u{1118E}\n\
SHARADA LETTER O:\u{1118F}\n\
SHARADA LETTER AU:\u{11190}\n\
SHARADA LETTER KA:\u{11191}\n\
SHARADA LETTER KHA:\u{11192}\n\
SHARADA LETTER GA:\u{11193}\n\
SHARADA LETTER GHA:\u{11194}\n\
SHARADA LETTER NGA:\u{11195}\n\
SHARADA LETTER CA:\u{11196}\n\
SHARADA LETTER CHA:\u{11197}\n\
SHARADA LETTER JA:\u{11198}\n\
SHARADA LETTER JHA:\u{11199}\n\
SHARADA LETTER NYA:\u{1119A}\n\
SHARADA LETTER TTA:\u{1119B}\n\
SHARADA LETTER TTHA:\u{1119C}\n\
SHARADA LETTER DDA:\u{1119D}\n\
SHARADA LETTER DDHA:\u{1119E}\n\
SHARADA LETTER NNA:\u{1119F}\n\
SHARADA LETTER TA:\u{111A0}\n\
SHARADA LETTER THA:\u{111A1}\n\
SHARADA LETTER DA:\u{111A2}\n\
SHARADA LETTER DHA:\u{111A3}\n\
SHARADA LETTER NA:\u{111A4}\n\
SHARADA LETTER PA:\u{111A5}\n\
SHARADA LETTER PHA:\u{111A6}\n\
SHARADA LETTER BA:\u{111A7}\n\
SHARADA LETTER BHA:\u{111A8}\n\
SHARADA LETTER MA:\u{111A9}\n\
SHARADA LETTER YA:\u{111AA}\n\
SHARADA LETTER RA:\u{111AB}\n\
SHARADA LETTER LA:\u{111AC}\n\
SHARADA LETTER LLA:\u{111AD}\n\
SHARADA LETTER VA:\u{111AE}\n\
SHARADA LETTER SHA:\u{111AF}\n\
SHARADA LETTER SSA:\u{111B0}\n\
SHARADA LETTER SA:\u{111B1}\n\
SHARADA LETTER HA:\u{111B2}\n\
SHARADA VOWEL SIGN AA:\u{111B3}\n\
SHARADA VOWEL SIGN I:\u{111B4}\n\
SHARADA VOWEL SIGN II:\u{111B5}\n\
SHARADA VOWEL SIGN U:\u{111B6}\n\
SHARADA VOWEL SIGN UU:\u{111B7}\n\
SHARADA VOWEL SIGN VOCALIC R:\u{111B8}\n\
SHARADA VOWEL SIGN VOCALIC RR:\u{111B9}\n\
SHARADA VOWEL SIGN VOCALIC L:\u{111BA}\n\
SHARADA VOWEL SIGN VOCALIC LL:\u{111BB}\n\
SHARADA VOWEL SIGN E:\u{111BC}\n\
SHARADA VOWEL SIGN AI:\u{111BD}\n\
SHARADA VOWEL SIGN O:\u{111BE}\n\
SHARADA VOWEL SIGN AU:\u{111BF}\n\
SHARADA SIGN VIRAMA:\u{111C0}\n\
SHARADA SIGN AVAGRAHA:\u{111C1}\n\
SHARADA SIGN JIHVAMULIYA:\u{111C2}\n\
SHARADA SIGN UPADHMANIYA:\u{111C3}\n\
SHARADA OM:\u{111C4}\n\
SHARADA DANDA:\u{111C5}\n\
SHARADA DOUBLE DANDA:\u{111C6}\n\
SHARADA ABBREVIATION SIGN:\u{111C7}\n\
SHARADA SEPARATOR:\u{111C8}\n\
SHARADA SANDHI MARK:\u{111C9}\n\
SHARADA SIGN NUKTA:\u{111CA}\n\
SHARADA VOWEL MODIFIER MARK:\u{111CB}\n\
SHARADA EXTRA SHORT VOWEL MARK:\u{111CC}\n\
SHARADA SUTRA MARK:\u{111CD}\n\
SHARADA VOWEL SIGN PRISHTHAMATRA E:\u{111CE}\n\
SHARADA SIGN INVERTED CANDRABINDU:\u{111CF}\n\
SHARADA DIGIT ZERO:\u{111D0}\n\
SHARADA DIGIT ONE:\u{111D1}\n\
SHARADA DIGIT TWO:\u{111D2}\n\
SHARADA DIGIT THREE:\u{111D3}\n\
SHARADA DIGIT FOUR:\u{111D4}\n\
SHARADA DIGIT FIVE:\u{111D5}\n\
SHARADA DIGIT SIX:\u{111D6}\n\
SHARADA DIGIT SEVEN:\u{111D7}\n\
SHARADA DIGIT EIGHT:\u{111D8}\n\
SHARADA DIGIT NINE:\u{111D9}\n\
SHARADA EKAM:\u{111DA}\n\
SHARADA SIGN SIDDHAM:\u{111DB}\n\
SHARADA HEADSTROKE:\u{111DC}\n\
SHARADA CONTINUATION SIGN:\u{111DD}\n\
SHARADA SECTION MARK-1:\u{111DE}\n\
SHARADA SECTION MARK-2:\u{111DF}\n\
SINHALA ARCHAIC DIGIT ONE:\u{111E1}\n\
SINHALA ARCHAIC DIGIT TWO:\u{111E2}\n\
SINHALA ARCHAIC DIGIT THREE:\u{111E3}\n\
SINHALA ARCHAIC DIGIT FOUR:\u{111E4}\n\
SINHALA ARCHAIC DIGIT FIVE:\u{111E5}\n\
SINHALA ARCHAIC DIGIT SIX:\u{111E6}\n\
SINHALA ARCHAIC DIGIT SEVEN:\u{111E7}\n\
SINHALA ARCHAIC DIGIT EIGHT:\u{111E8}\n\
SINHALA ARCHAIC DIGIT NINE:\u{111E9}\n\
SINHALA ARCHAIC NUMBER TEN:\u{111EA}\n\
SINHALA ARCHAIC NUMBER TWENTY:\u{111EB}\n\
SINHALA ARCHAIC NUMBER THIRTY:\u{111EC}\n\
SINHALA ARCHAIC NUMBER FORTY:\u{111ED}\n\
SINHALA ARCHAIC NUMBER FIFTY:\u{111EE}\n\
SINHALA ARCHAIC NUMBER SIXTY:\u{111EF}\n\
SINHALA ARCHAIC NUMBER SEVENTY:\u{111F0}\n\
SINHALA ARCHAIC NUMBER EIGHTY:\u{111F1}\n\
SINHALA ARCHAIC NUMBER NINETY:\u{111F2}\n\
SINHALA ARCHAIC NUMBER ONE HUNDRED:\u{111F3}\n\
SINHALA ARCHAIC NUMBER ONE THOUSAND:\u{111F4}\n\
KHOJKI LETTER A:\u{11200}\n\
KHOJKI LETTER AA:\u{11201}\n\
KHOJKI LETTER I:\u{11202}\n\
KHOJKI LETTER U:\u{11203}\n\
KHOJKI LETTER E:\u{11204}\n\
KHOJKI LETTER AI:\u{11205}\n\
KHOJKI LETTER O:\u{11206}\n\
KHOJKI LETTER AU:\u{11207}\n\
KHOJKI LETTER KA:\u{11208}\n\
KHOJKI LETTER KHA:\u{11209}\n\
KHOJKI LETTER GA:\u{1120A}\n\
KHOJKI LETTER GGA:\u{1120B}\n\
KHOJKI LETTER GHA:\u{1120C}\n\
KHOJKI LETTER NGA:\u{1120D}\n\
KHOJKI LETTER CA:\u{1120E}\n\
KHOJKI LETTER CHA:\u{1120F}\n\
KHOJKI LETTER JA:\u{11210}\n\
KHOJKI LETTER JJA:\u{11211}\n\
KHOJKI LETTER NYA:\u{11213}\n\
KHOJKI LETTER TTA:\u{11214}\n\
KHOJKI LETTER TTHA:\u{11215}\n\
KHOJKI LETTER DDA:\u{11216}\n\
KHOJKI LETTER DDHA:\u{11217}\n\
KHOJKI LETTER NNA:\u{11218}\n\
KHOJKI LETTER TA:\u{11219}\n\
KHOJKI LETTER THA:\u{1121A}\n\
KHOJKI LETTER DA:\u{1121B}\n\
KHOJKI LETTER DDDA:\u{1121C}\n\
KHOJKI LETTER DHA:\u{1121D}\n\
KHOJKI LETTER NA:\u{1121E}\n\
KHOJKI LETTER PA:\u{1121F}\n\
KHOJKI LETTER PHA:\u{11220}\n\
KHOJKI LETTER BA:\u{11221}\n\
KHOJKI LETTER BBA:\u{11222}\n\
KHOJKI LETTER BHA:\u{11223}\n\
KHOJKI LETTER MA:\u{11224}\n\
KHOJKI LETTER YA:\u{11225}\n\
KHOJKI LETTER RA:\u{11226}\n\
KHOJKI LETTER LA:\u{11227}\n\
KHOJKI LETTER VA:\u{11228}\n\
KHOJKI LETTER SA:\u{11229}\n\
KHOJKI LETTER HA:\u{1122A}\n\
KHOJKI LETTER LLA:\u{1122B}\n\
KHOJKI VOWEL SIGN AA:\u{1122C}\n\
KHOJKI VOWEL SIGN I:\u{1122D}\n\
KHOJKI VOWEL SIGN II:\u{1122E}\n\
KHOJKI VOWEL SIGN U:\u{1122F}\n\
KHOJKI VOWEL SIGN E:\u{11230}\n\
KHOJKI VOWEL SIGN AI:\u{11231}\n\
KHOJKI VOWEL SIGN O:\u{11232}\n\
KHOJKI VOWEL SIGN AU:\u{11233}\n\
KHOJKI SIGN ANUSVARA:\u{11234}\n\
KHOJKI SIGN VIRAMA:\u{11235}\n\
KHOJKI SIGN NUKTA:\u{11236}\n\
KHOJKI SIGN SHADDA:\u{11237}\n\
KHOJKI DANDA:\u{11238}\n\
KHOJKI DOUBLE DANDA:\u{11239}\n\
KHOJKI WORD SEPARATOR:\u{1123A}\n\
KHOJKI SECTION MARK:\u{1123B}\n\
KHOJKI DOUBLE SECTION MARK:\u{1123C}\n\
KHOJKI ABBREVIATION SIGN:\u{1123D}\n\
KHOJKI SIGN SUKUN:\u{1123E}\n\
MULTANI LETTER A:\u{11280}\n\
MULTANI LETTER I:\u{11281}\n\
MULTANI LETTER U:\u{11282}\n\
MULTANI LETTER E:\u{11283}\n\
MULTANI LETTER KA:\u{11284}\n\
MULTANI LETTER KHA:\u{11285}\n\
MULTANI LETTER GA:\u{11286}\n\
MULTANI LETTER GHA:\u{11288}\n\
MULTANI LETTER CA:\u{1128A}\n\
MULTANI LETTER CHA:\u{1128B}\n\
MULTANI LETTER JA:\u{1128C}\n\
MULTANI LETTER JJA:\u{1128D}\n\
MULTANI LETTER NYA:\u{1128F}\n\
MULTANI LETTER TTA:\u{11290}\n\
MULTANI LETTER TTHA:\u{11291}\n\
MULTANI LETTER DDA:\u{11292}\n\
MULTANI LETTER DDDA:\u{11293}\n\
MULTANI LETTER DDHA:\u{11294}\n\
MULTANI LETTER NNA:\u{11295}\n\
MULTANI LETTER TA:\u{11296}\n\
MULTANI LETTER THA:\u{11297}\n\
MULTANI LETTER DA:\u{11298}\n\
MULTANI LETTER DHA:\u{11299}\n\
MULTANI LETTER NA:\u{1129A}\n\
MULTANI LETTER PA:\u{1129B}\n\
MULTANI LETTER PHA:\u{1129C}\n\
MULTANI LETTER BA:\u{1129D}\n\
MULTANI LETTER BHA:\u{1129F}\n\
MULTANI LETTER MA:\u{112A0}\n\
MULTANI LETTER YA:\u{112A1}\n\
MULTANI LETTER RA:\u{112A2}\n\
MULTANI LETTER LA:\u{112A3}\n\
MULTANI LETTER VA:\u{112A4}\n\
MULTANI LETTER SA:\u{112A5}\n\
MULTANI LETTER HA:\u{112A6}\n\
MULTANI LETTER RRA:\u{112A7}\n\
MULTANI LETTER RHA:\u{112A8}\n\
MULTANI SECTION MARK:\u{112A9}\n\
KHUDAWADI LETTER A:\u{112B0}\n\
KHUDAWADI LETTER AA:\u{112B1}\n\
KHUDAWADI LETTER I:\u{112B2}\n\
KHUDAWADI LETTER II:\u{112B3}\n\
KHUDAWADI LETTER U:\u{112B4}\n\
KHUDAWADI LETTER UU:\u{112B5}\n\
KHUDAWADI LETTER E:\u{112B6}\n\
KHUDAWADI LETTER AI:\u{112B7}\n\
KHUDAWADI LETTER O:\u{112B8}\n\
KHUDAWADI LETTER AU:\u{112B9}\n\
KHUDAWADI LETTER KA:\u{112BA}\n\
KHUDAWADI LETTER KHA:\u{112BB}\n\
KHUDAWADI LETTER GA:\u{112BC}\n\
KHUDAWADI LETTER GGA:\u{112BD}\n\
KHUDAWADI LETTER GHA:\u{112BE}\n\
KHUDAWADI LETTER NGA:\u{112BF}\n\
KHUDAWADI LETTER CA:\u{112C0}\n\
KHUDAWADI LETTER CHA:\u{112C1}\n\
KHUDAWADI LETTER JA:\u{112C2}\n\
KHUDAWADI LETTER JJA:\u{112C3}\n\
KHUDAWADI LETTER JHA:\u{112C4}\n\
KHUDAWADI LETTER NYA:\u{112C5}\n\
KHUDAWADI LETTER TTA:\u{112C6}\n\
KHUDAWADI LETTER TTHA:\u{112C7}\n\
KHUDAWADI LETTER DDA:\u{112C8}\n\
KHUDAWADI LETTER DDDA:\u{112C9}\n\
KHUDAWADI LETTER RRA:\u{112CA}\n\
KHUDAWADI LETTER DDHA:\u{112CB}\n\
KHUDAWADI LETTER NNA:\u{112CC}\n\
KHUDAWADI LETTER TA:\u{112CD}\n\
KHUDAWADI LETTER THA:\u{112CE}\n\
KHUDAWADI LETTER DA:\u{112CF}\n\
KHUDAWADI LETTER DHA:\u{112D0}\n\
KHUDAWADI LETTER NA:\u{112D1}\n\
KHUDAWADI LETTER PA:\u{112D2}\n\
KHUDAWADI LETTER PHA:\u{112D3}\n\
KHUDAWADI LETTER BA:\u{112D4}\n\
KHUDAWADI LETTER BBA:\u{112D5}\n\
KHUDAWADI LETTER BHA:\u{112D6}\n\
KHUDAWADI LETTER MA:\u{112D7}\n\
KHUDAWADI LETTER YA:\u{112D8}\n\
KHUDAWADI LETTER RA:\u{112D9}\n\
KHUDAWADI LETTER LA:\u{112DA}\n\
KHUDAWADI LETTER VA:\u{112DB}\n\
KHUDAWADI LETTER SHA:\u{112DC}\n\
KHUDAWADI LETTER SA:\u{112DD}\n\
KHUDAWADI LETTER HA:\u{112DE}\n\
KHUDAWADI SIGN ANUSVARA:\u{112DF}\n\
KHUDAWADI VOWEL SIGN AA:\u{112E0}\n\
KHUDAWADI VOWEL SIGN I:\u{112E1}\n\
KHUDAWADI VOWEL SIGN II:\u{112E2}\n\
KHUDAWADI VOWEL SIGN U:\u{112E3}\n\
KHUDAWADI VOWEL SIGN UU:\u{112E4}\n\
KHUDAWADI VOWEL SIGN E:\u{112E5}\n\
KHUDAWADI VOWEL SIGN AI:\u{112E6}\n\
KHUDAWADI VOWEL SIGN O:\u{112E7}\n\
KHUDAWADI VOWEL SIGN AU:\u{112E8}\n\
KHUDAWADI SIGN NUKTA:\u{112E9}\n\
KHUDAWADI SIGN VIRAMA:\u{112EA}\n\
KHUDAWADI DIGIT ZERO:\u{112F0}\n\
KHUDAWADI DIGIT ONE:\u{112F1}\n\
KHUDAWADI DIGIT TWO:\u{112F2}\n\
KHUDAWADI DIGIT THREE:\u{112F3}\n\
KHUDAWADI DIGIT FOUR:\u{112F4}\n\
KHUDAWADI DIGIT FIVE:\u{112F5}\n\
KHUDAWADI DIGIT SIX:\u{112F6}\n\
KHUDAWADI DIGIT SEVEN:\u{112F7}\n\
KHUDAWADI DIGIT EIGHT:\u{112F8}\n\
KHUDAWADI DIGIT NINE:\u{112F9}\n\
GRANTHA SIGN COMBINING ANUSVARA ABOVE:\u{11300}\n\
GRANTHA SIGN CANDRABINDU:\u{11301}\n\
GRANTHA SIGN ANUSVARA:\u{11302}\n\
GRANTHA SIGN VISARGA:\u{11303}\n\
GRANTHA LETTER A:\u{11305}\n\
GRANTHA LETTER AA:\u{11306}\n\
GRANTHA LETTER I:\u{11307}\n\
GRANTHA LETTER II:\u{11308}\n\
GRANTHA LETTER U:\u{11309}\n\
GRANTHA LETTER UU:\u{1130A}\n\
GRANTHA LETTER VOCALIC R:\u{1130B}\n\
GRANTHA LETTER VOCALIC L:\u{1130C}\n\
GRANTHA LETTER EE:\u{1130F}\n\
GRANTHA LETTER AI:\u{11310}\n\
GRANTHA LETTER OO:\u{11313}\n\
GRANTHA LETTER AU:\u{11314}\n\
GRANTHA LETTER KA:\u{11315}\n\
GRANTHA LETTER KHA:\u{11316}\n\
GRANTHA LETTER GA:\u{11317}\n\
GRANTHA LETTER GHA:\u{11318}\n\
GRANTHA LETTER NGA:\u{11319}\n\
GRANTHA LETTER CA:\u{1131A}\n\
GRANTHA LETTER CHA:\u{1131B}\n\
GRANTHA LETTER JA:\u{1131C}\n\
GRANTHA LETTER JHA:\u{1131D}\n\
GRANTHA LETTER NYA:\u{1131E}\n\
GRANTHA LETTER TTA:\u{1131F}\n\
GRANTHA LETTER TTHA:\u{11320}\n\
GRANTHA LETTER DDA:\u{11321}\n\
GRANTHA LETTER DDHA:\u{11322}\n\
GRANTHA LETTER NNA:\u{11323}\n\
GRANTHA LETTER TA:\u{11324}\n\
GRANTHA LETTER THA:\u{11325}\n\
GRANTHA LETTER DA:\u{11326}\n\
GRANTHA LETTER DHA:\u{11327}\n\
GRANTHA LETTER NA:\u{11328}\n\
GRANTHA LETTER PA:\u{1132A}\n\
GRANTHA LETTER PHA:\u{1132B}\n\
GRANTHA LETTER BA:\u{1132C}\n\
GRANTHA LETTER BHA:\u{1132D}\n\
GRANTHA LETTER MA:\u{1132E}\n\
GRANTHA LETTER YA:\u{1132F}\n\
GRANTHA LETTER RA:\u{11330}\n\
GRANTHA LETTER LA:\u{11332}\n\
GRANTHA LETTER LLA:\u{11333}\n\
GRANTHA LETTER VA:\u{11335}\n\
GRANTHA LETTER SHA:\u{11336}\n\
GRANTHA LETTER SSA:\u{11337}\n\
GRANTHA LETTER SA:\u{11338}\n\
GRANTHA LETTER HA:\u{11339}\n\
COMBINING BINDU BELOW:\u{1133B}\n\
GRANTHA SIGN NUKTA:\u{1133C}\n\
GRANTHA SIGN AVAGRAHA:\u{1133D}\n\
GRANTHA VOWEL SIGN AA:\u{1133E}\n\
GRANTHA VOWEL SIGN I:\u{1133F}\n\
GRANTHA VOWEL SIGN II:\u{11340}\n\
GRANTHA VOWEL SIGN U:\u{11341}\n\
GRANTHA VOWEL SIGN UU:\u{11342}\n\
GRANTHA VOWEL SIGN VOCALIC R:\u{11343}\n";

pub const NAMES_50: &'static str = "GRANTHA VOWEL SIGN VOCALIC RR:\u{11344}\n\
GRANTHA VOWEL SIGN EE:\u{11347}\n\
GRANTHA VOWEL SIGN AI:\u{11348}\n\
GRANTHA VOWEL SIGN OO:\u{1134B}\n\
GRANTHA VOWEL SIGN AU:\u{1134C}\n\
GRANTHA SIGN VIRAMA:\u{1134D}\n\
GRANTHA OM:\u{11350}\n\
GRANTHA AU LENGTH MARK:\u{11357}\n\
GRANTHA SIGN PLUTA:\u{1135D}\n\
GRANTHA LETTER VEDIC ANUSVARA:\u{1135E}\n\
GRANTHA LETTER VEDIC DOUBLE ANUSVARA:\u{1135F}\n\
GRANTHA LETTER VOCALIC RR:\u{11360}\n\
GRANTHA LETTER VOCALIC LL:\u{11361}\n\
GRANTHA VOWEL SIGN VOCALIC L:\u{11362}\n\
GRANTHA VOWEL SIGN VOCALIC LL:\u{11363}\n\
COMBINING GRANTHA DIGIT ZERO:\u{11366}\n\
COMBINING GRANTHA DIGIT ONE:\u{11367}\n\
COMBINING GRANTHA DIGIT TWO:\u{11368}\n\
COMBINING GRANTHA DIGIT THREE:\u{11369}\n\
COMBINING GRANTHA DIGIT FOUR:\u{1136A}\n\
COMBINING GRANTHA DIGIT FIVE:\u{1136B}\n\
COMBINING GRANTHA DIGIT SIX:\u{1136C}\n\
COMBINING GRANTHA LETTER A:\u{11370}\n\
COMBINING GRANTHA LETTER KA:\u{11371}\n\
COMBINING GRANTHA LETTER NA:\u{11372}\n\
COMBINING GRANTHA LETTER VI:\u{11373}\n\
COMBINING GRANTHA LETTER PA:\u{11374}\n\
NEWA LETTER A:\u{11400}\n\
NEWA LETTER AA:\u{11401}\n\
NEWA LETTER I:\u{11402}\n\
NEWA LETTER II:\u{11403}\n\
NEWA LETTER U:\u{11404}\n\
NEWA LETTER UU:\u{11405}\n\
NEWA LETTER VOCALIC R:\u{11406}\n\
NEWA LETTER VOCALIC RR:\u{11407}\n\
NEWA LETTER VOCALIC L:\u{11408}\n\
NEWA LETTER VOCALIC LL:\u{11409}\n\
NEWA LETTER E:\u{1140A}\n\
NEWA LETTER AI:\u{1140B}\n\
NEWA LETTER O:\u{1140C}\n\
NEWA LETTER AU:\u{1140D}\n\
NEWA LETTER KA:\u{1140E}\n\
NEWA LETTER KHA:\u{1140F}\n\
NEWA LETTER GA:\u{11410}\n\
NEWA LETTER GHA:\u{11411}\n\
NEWA LETTER NGA:\u{11412}\n\
NEWA LETTER NGHA:\u{11413}\n\
NEWA LETTER CA:\u{11414}\n\
NEWA LETTER CHA:\u{11415}\n\
NEWA LETTER JA:\u{11416}\n\
NEWA LETTER JHA:\u{11417}\n\
NEWA LETTER NYA:\u{11418}\n\
NEWA LETTER NYHA:\u{11419}\n\
NEWA LETTER TTA:\u{1141A}\n\
NEWA LETTER TTHA:\u{1141B}\n\
NEWA LETTER DDA:\u{1141C}\n\
NEWA LETTER DDHA:\u{1141D}\n\
NEWA LETTER NNA:\u{1141E}\n\
NEWA LETTER TA:\u{1141F}\n\
NEWA LETTER THA:\u{11420}\n\
NEWA LETTER DA:\u{11421}\n\
NEWA LETTER DHA:\u{11422}\n\
NEWA LETTER NA:\u{11423}\n\
NEWA LETTER NHA:\u{11424}\n\
NEWA LETTER PA:\u{11425}\n\
NEWA LETTER PHA:\u{11426}\n\
NEWA LETTER BA:\u{11427}\n\
NEWA LETTER BHA:\u{11428}\n\
NEWA LETTER MA:\u{11429}\n\
NEWA LETTER MHA:\u{1142A}\n\
NEWA LETTER YA:\u{1142B}\n\
NEWA LETTER RA:\u{1142C}\n\
NEWA LETTER RHA:\u{1142D}\n\
NEWA LETTER LA:\u{1142E}\n\
NEWA LETTER LHA:\u{1142F}\n\
NEWA LETTER WA:\u{11430}\n\
NEWA LETTER SHA:\u{11431}\n\
NEWA LETTER SSA:\u{11432}\n\
NEWA LETTER SA:\u{11433}\n\
NEWA LETTER HA:\u{11434}\n\
NEWA VOWEL SIGN AA:\u{11435}\n\
NEWA VOWEL SIGN I:\u{11436}\n\
NEWA VOWEL SIGN II:\u{11437}\n\
NEWA VOWEL SIGN U:\u{11438}\n\
NEWA VOWEL SIGN UU:\u{11439}\n\
NEWA VOWEL SIGN VOCALIC R:\u{1143A}\n\
NEWA VOWEL SIGN VOCALIC RR:\u{1143B}\n\
NEWA VOWEL SIGN VOCALIC L:\u{1143C}\n\
NEWA VOWEL SIGN VOCALIC LL:\u{1143D}\n\
NEWA VOWEL SIGN E:\u{1143E}\n\
NEWA VOWEL SIGN AI:\u{1143F}\n\
NEWA VOWEL SIGN O:\u{11440}\n\
NEWA VOWEL SIGN AU:\u{11441}\n\
NEWA SIGN VIRAMA:\u{11442}\n\
NEWA SIGN CANDRABINDU:\u{11443}\n\
NEWA SIGN ANUSVARA:\u{11444}\n\
NEWA SIGN VISARGA:\u{11445}\n\
NEWA SIGN NUKTA:\u{11446}\n\
NEWA SIGN AVAGRAHA:\u{11447}\n\
NEWA SIGN FINAL ANUSVARA:\u{11448}\n\
NEWA OM:\u{11449}\n\
NEWA SIDDHI:\u{1144A}\n\
NEWA DANDA:\u{1144B}\n\
NEWA DOUBLE DANDA:\u{1144C}\n\
NEWA COMMA:\u{1144D}\n\
NEWA GAP FILLER:\u{1144E}\n\
NEWA ABBREVIATION SIGN:\u{1144F}\n\
NEWA DIGIT ZERO:\u{11450}\n\
NEWA DIGIT ONE:\u{11451}\n\
NEWA DIGIT TWO:\u{11452}\n\
NEWA DIGIT THREE:\u{11453}\n\
NEWA DIGIT FOUR:\u{11454}\n\
NEWA DIGIT FIVE:\u{11455}\n\
NEWA DIGIT SIX:\u{11456}\n\
NEWA DIGIT SEVEN:\u{11457}\n\
NEWA DIGIT EIGHT:\u{11458}\n\
NEWA DIGIT NINE:\u{11459}\n\
NEWA DOUBLE COMMA:\u{1145A}\n\
NEWA PLACEHOLDER MARK:\u{1145B}\n\
NEWA INSERTION SIGN:\u{1145D}\n\
NEWA SANDHI MARK:\u{1145E}\n\
NEWA LETTER VEDIC ANUSVARA:\u{1145F}\n\
NEWA SIGN JIHVAMULIYA:\u{11460}\n\
NEWA SIGN UPADHMANIYA:\u{11461}\n\
TIRHUTA ANJI:\u{11480}\n\
TIRHUTA LETTER A:\u{11481}\n\
TIRHUTA LETTER AA:\u{11482}\n\
TIRHUTA LETTER I:\u{11483}\n\
TIRHUTA LETTER II:\u{11484}\n\
TIRHUTA LETTER U:\u{11485}\n\
TIRHUTA LETTER UU:\u{11486}\n\
TIRHUTA LETTER VOCALIC R:\u{11487}\n\
TIRHUTA LETTER VOCALIC RR:\u{11488}\n\
TIRHUTA LETTER VOCALIC L:\u{11489}\n\
TIRHUTA LETTER VOCALIC LL:\u{1148A}\n\
TIRHUTA LETTER E:\u{1148B}\n\
TIRHUTA LETTER AI:\u{1148C}\n\
TIRHUTA LETTER O:\u{1148D}\n\
TIRHUTA LETTER AU:\u{1148E}\n\
TIRHUTA LETTER KA:\u{1148F}\n\
TIRHUTA LETTER KHA:\u{11490}\n\
TIRHUTA LETTER GA:\u{11491}\n\
TIRHUTA LETTER GHA:\u{11492}\n\
TIRHUTA LETTER NGA:\u{11493}\n\
TIRHUTA LETTER CA:\u{11494}\n\
TIRHUTA LETTER CHA:\u{11495}\n\
TIRHUTA LETTER JA:\u{11496}\n\
TIRHUTA LETTER JHA:\u{11497}\n\
TIRHUTA LETTER NYA:\u{11498}\n\
TIRHUTA LETTER TTA:\u{11499}\n\
TIRHUTA LETTER TTHA:\u{1149A}\n\
TIRHUTA LETTER DDA:\u{1149B}\n\
TIRHUTA LETTER DDHA:\u{1149C}\n\
TIRHUTA LETTER NNA:\u{1149D}\n\
TIRHUTA LETTER TA:\u{1149E}\n\
TIRHUTA LETTER THA:\u{1149F}\n\
TIRHUTA LETTER DA:\u{114A0}\n\
TIRHUTA LETTER DHA:\u{114A1}\n\
TIRHUTA LETTER NA:\u{114A2}\n\
TIRHUTA LETTER PA:\u{114A3}\n\
TIRHUTA LETTER PHA:\u{114A4}\n\
TIRHUTA LETTER BA:\u{114A5}\n\
TIRHUTA LETTER BHA:\u{114A6}\n\
TIRHUTA LETTER MA:\u{114A7}\n\
TIRHUTA LETTER YA:\u{114A8}\n\
TIRHUTA LETTER RA:\u{114A9}\n\
TIRHUTA LETTER LA:\u{114AA}\n\
TIRHUTA LETTER VA:\u{114AB}\n\
TIRHUTA LETTER SHA:\u{114AC}\n\
TIRHUTA LETTER SSA:\u{114AD}\n\
TIRHUTA LETTER SA:\u{114AE}\n\
TIRHUTA LETTER HA:\u{114AF}\n\
TIRHUTA VOWEL SIGN AA:\u{114B0}\n\
TIRHUTA VOWEL SIGN I:\u{114B1}\n\
TIRHUTA VOWEL SIGN II:\u{114B2}\n\
TIRHUTA VOWEL SIGN U:\u{114B3}\n\
TIRHUTA VOWEL SIGN UU:\u{114B4}\n\
TIRHUTA VOWEL SIGN VOCALIC R:\u{114B5}\n\
TIRHUTA VOWEL SIGN VOCALIC RR:\u{114B6}\n\
TIRHUTA VOWEL SIGN VOCALIC L:\u{114B7}\n\
TIRHUTA VOWEL SIGN VOCALIC LL:\u{114B8}\n\
TIRHUTA VOWEL SIGN E:\u{114B9}\n\
TIRHUTA VOWEL SIGN SHORT E:\u{114BA}\n\
TIRHUTA VOWEL SIGN AI:\u{114BB}\n\
TIRHUTA VOWEL SIGN O:\u{114BC}\n\
TIRHUTA VOWEL SIGN SHORT O:\u{114BD}\n\
TIRHUTA VOWEL SIGN AU:\u{114BE}\n\
TIRHUTA SIGN CANDRABINDU:\u{114BF}\n\
TIRHUTA SIGN ANUSVARA:\u{114C0}\n\
TIRHUTA SIGN VISARGA:\u{114C1}\n\
TIRHUTA SIGN VIRAMA:\u{114C2}\n\
TIRHUTA SIGN NUKTA:\u{114C3}\n\
TIRHUTA SIGN AVAGRAHA:\u{114C4}\n\
TIRHUTA GVANG:\u{114C5}\n\
TIRHUTA ABBREVIATION SIGN:\u{114C6}\n\
TIRHUTA OM:\u{114C7}\n\
TIRHUTA DIGIT ZERO:\u{114D0}\n\
TIRHUTA DIGIT ONE:\u{114D1}\n\
TIRHUTA DIGIT TWO:\u{114D2}\n\
TIRHUTA DIGIT THREE:\u{114D3}\n\
TIRHUTA DIGIT FOUR:\u{114D4}\n\
TIRHUTA DIGIT FIVE:\u{114D5}\n\
TIRHUTA DIGIT SIX:\u{114D6}\n\
TIRHUTA DIGIT SEVEN:\u{114D7}\n\
TIRHUTA DIGIT EIGHT:\u{114D8}\n\
TIRHUTA DIGIT NINE:\u{114D9}\n\
SIDDHAM LETTER A:\u{11580}\n\
SIDDHAM LETTER AA:\u{11581}\n\
SIDDHAM LETTER I:\u{11582}\n\
SIDDHAM LETTER II:\u{11583}\n\
SIDDHAM LETTER U:\u{11584}\n\
SIDDHAM LETTER UU:\u{11585}\n\
SIDDHAM LETTER VOCALIC R:\u{11586}\n\
SIDDHAM LETTER VOCALIC RR:\u{11587}\n\
SIDDHAM LETTER VOCALIC L:\u{11588}\n\
SIDDHAM LETTER VOCALIC LL:\u{11589}\n\
SIDDHAM LETTER E:\u{1158A}\n\
SIDDHAM LETTER AI:\u{1158B}\n\
SIDDHAM LETTER O:\u{1158C}\n\
SIDDHAM LETTER AU:\u{1158D}\n\
SIDDHAM LETTER KA:\u{1158E}\n\
SIDDHAM LETTER KHA:\u{1158F}\n\
SIDDHAM LETTER GA:\u{11590}\n\
SIDDHAM LETTER GHA:\u{11591}\n\
SIDDHAM LETTER NGA:\u{11592}\n\
SIDDHAM LETTER CA:\u{11593}\n\
SIDDHAM LETTER CHA:\u{11594}\n\
SIDDHAM LETTER JA:\u{11595}\n\
SIDDHAM LETTER JHA:\u{11596}\n\
SIDDHAM LETTER NYA:\u{11597}\n\
SIDDHAM LETTER TTA:\u{11598}\n\
SIDDHAM LETTER TTHA:\u{11599}\n\
SIDDHAM LETTER DDA:\u{1159A}\n\
SIDDHAM LETTER DDHA:\u{1159B}\n\
SIDDHAM LETTER NNA:\u{1159C}\n\
SIDDHAM LETTER TA:\u{1159D}\n\
SIDDHAM LETTER THA:\u{1159E}\n\
SIDDHAM LETTER DA:\u{1159F}\n\
SIDDHAM LETTER DHA:\u{115A0}\n\
SIDDHAM LETTER NA:\u{115A1}\n\
SIDDHAM LETTER PA:\u{115A2}\n\
SIDDHAM LETTER PHA:\u{115A3}\n\
SIDDHAM LETTER BA:\u{115A4}\n\
SIDDHAM LETTER BHA:\u{115A5}\n\
SIDDHAM LETTER MA:\u{115A6}\n\
SIDDHAM LETTER YA:\u{115A7}\n\
SIDDHAM LETTER RA:\u{115A8}\n\
SIDDHAM LETTER LA:\u{115A9}\n\
SIDDHAM LETTER VA:\u{115AA}\n\
SIDDHAM LETTER SHA:\u{115AB}\n\
SIDDHAM LETTER SSA:\u{115AC}\n\
SIDDHAM LETTER SA:\u{115AD}\n\
SIDDHAM LETTER HA:\u{115AE}\n\
SIDDHAM VOWEL SIGN AA:\u{115AF}\n\
SIDDHAM VOWEL SIGN I:\u{115B0}\n\
SIDDHAM VOWEL SIGN II:\u{115B1}\n\
SIDDHAM VOWEL SIGN U:\u{115B2}\n\
SIDDHAM VOWEL SIGN UU:\u{115B3}\n\
SIDDHAM VOWEL SIGN VOCALIC R:\u{115B4}\n\
SIDDHAM VOWEL SIGN VOCALIC RR:\u{115B5}\n\
SIDDHAM VOWEL SIGN E:\u{115B8}\n\
SIDDHAM VOWEL SIGN AI:\u{115B9}\n\
SIDDHAM VOWEL SIGN O:\u{115BA}\n\
SIDDHAM VOWEL SIGN AU:\u{115BB}\n\
SIDDHAM SIGN CANDRABINDU:\u{115BC}\n\
SIDDHAM SIGN ANUSVARA:\u{115BD}\n\
SIDDHAM SIGN VISARGA:\u{115BE}\n\
SIDDHAM SIGN VIRAMA:\u{115BF}\n\
SIDDHAM SIGN NUKTA:\u{115C0}\n\
SIDDHAM SIGN SIDDHAM:\u{115C1}\n\
SIDDHAM DANDA:\u{115C2}\n\
SIDDHAM DOUBLE DANDA:\u{115C3}\n\
SIDDHAM SEPARATOR DOT:\u{115C4}\n\
SIDDHAM SEPARATOR BAR:\u{115C5}\n\
SIDDHAM REPETITION MARK-1:\u{115C6}\n\
SIDDHAM REPETITION MARK-2:\u{115C7}\n\
SIDDHAM REPETITION MARK-3:\u{115C8}\n\
SIDDHAM END OF TEXT MARK:\u{115C9}\n\
SIDDHAM SECTION MARK WITH TRIDENT AND U-SHAPED ORNAMENTS:\u{115CA}\n\
SIDDHAM SECTION MARK WITH TRIDENT AND DOTTED CRESCENTS:\u{115CB}\n\
SIDDHAM SECTION MARK WITH RAYS AND DOTTED CRESCENTS:\u{115CC}\n\
SIDDHAM SECTION MARK WITH RAYS AND DOTTED DOUBLE CRESCENTS:\u{115CD}\n\
SIDDHAM SECTION MARK WITH RAYS AND DOTTED TRIPLE CRESCENTS:\u{115CE}\n\
SIDDHAM SECTION MARK DOUBLE RING:\u{115CF}\n\
SIDDHAM SECTION MARK DOUBLE RING WITH RAYS:\u{115D0}\n\
SIDDHAM SECTION MARK WITH DOUBLE CRESCENTS:\u{115D1}\n\
SIDDHAM SECTION MARK WITH TRIPLE CRESCENTS:\u{115D2}\n\
SIDDHAM SECTION MARK WITH QUADRUPLE CRESCENTS:\u{115D3}\n\
SIDDHAM SECTION MARK WITH SEPTUPLE CRESCENTS:\u{115D4}\n\
SIDDHAM SECTION MARK WITH CIRCLES AND RAYS:\u{115D5}\n\
SIDDHAM SECTION MARK WITH CIRCLES AND TWO ENCLOSURES:\u{115D6}\n\
SIDDHAM SECTION MARK WITH CIRCLES AND FOUR ENCLOSURES:\u{115D7}\n\
SIDDHAM LETTER THREE-CIRCLE ALTERNATE I:\u{115D8}\n\
SIDDHAM LETTER TWO-CIRCLE ALTERNATE I:\u{115D9}\n\
SIDDHAM LETTER TWO-CIRCLE ALTERNATE II:\u{115DA}\n\
SIDDHAM LETTER ALTERNATE U:\u{115DB}\n\
SIDDHAM VOWEL SIGN ALTERNATE U:\u{115DC}\n\
SIDDHAM VOWEL SIGN ALTERNATE UU:\u{115DD}\n\
MODI LETTER A:\u{11600}\n\
MODI LETTER AA:\u{11601}\n\
MODI LETTER I:\u{11602}\n\
MODI LETTER II:\u{11603}\n\
MODI LETTER U:\u{11604}\n\
MODI LETTER UU:\u{11605}\n\
MODI LETTER VOCALIC R:\u{11606}\n\
MODI LETTER VOCALIC RR:\u{11607}\n\
MODI LETTER VOCALIC L:\u{11608}\n\
MODI LETTER VOCALIC LL:\u{11609}\n\
MODI LETTER E:\u{1160A}\n\
MODI LETTER AI:\u{1160B}\n\
MODI LETTER O:\u{1160C}\n\
MODI LETTER AU:\u{1160D}\n\
MODI LETTER KA:\u{1160E}\n\
MODI LETTER KHA:\u{1160F}\n\
MODI LETTER GA:\u{11610}\n\
MODI LETTER GHA:\u{11611}\n\
MODI LETTER NGA:\u{11612}\n\
MODI LETTER CA:\u{11613}\n\
MODI LETTER CHA:\u{11614}\n\
MODI LETTER JA:\u{11615}\n\
MODI LETTER JHA:\u{11616}\n\
MODI LETTER NYA:\u{11617}\n\
MODI LETTER TTA:\u{11618}\n\
MODI LETTER TTHA:\u{11619}\n\
MODI LETTER DDA:\u{1161A}\n\
MODI LETTER DDHA:\u{1161B}\n\
MODI LETTER NNA:\u{1161C}\n\
MODI LETTER TA:\u{1161D}\n\
MODI LETTER THA:\u{1161E}\n\
MODI LETTER DA:\u{1161F}\n\
MODI LETTER DHA:\u{11620}\n\
MODI LETTER NA:\u{11621}\n\
MODI LETTER PA:\u{11622}\n\
MODI LETTER PHA:\u{11623}\n\
MODI LETTER BA:\u{11624}\n\
MODI LETTER BHA:\u{11625}\n\
MODI LETTER MA:\u{11626}\n\
MODI LETTER YA:\u{11627}\n\
MODI LETTER RA:\u{11628}\n\
MODI LETTER LA:\u{11629}\n\
MODI LETTER VA:\u{1162A}\n\
MODI LETTER SHA:\u{1162B}\n\
MODI LETTER SSA:\u{1162C}\n\
MODI LETTER SA:\u{1162D}\n\
MODI LETTER HA:\u{1162E}\n\
MODI LETTER LLA:\u{1162F}\n\
MODI VOWEL SIGN AA:\u{11630}\n\
MODI VOWEL SIGN I:\u{11631}\n\
MODI VOWEL SIGN II:\u{11632}\n\
MODI VOWEL SIGN U:\u{11633}\n\
MODI VOWEL SIGN UU:\u{11634}\n\
MODI VOWEL SIGN VOCALIC R:\u{11635}\n\
MODI VOWEL SIGN VOCALIC RR:\u{11636}\n\
MODI VOWEL SIGN VOCALIC L:\u{11637}\n\
MODI VOWEL SIGN VOCALIC LL:\u{11638}\n\
MODI VOWEL SIGN E:\u{11639}\n\
MODI VOWEL SIGN AI:\u{1163A}\n\
MODI VOWEL SIGN O:\u{1163B}\n\
MODI VOWEL SIGN AU:\u{1163C}\n\
MODI SIGN ANUSVARA:\u{1163D}\n\
MODI SIGN VISARGA:\u{1163E}\n\
MODI SIGN VIRAMA:\u{1163F}\n\
MODI SIGN ARDHACANDRA:\u{11640}\n\
MODI DANDA:\u{11641}\n\
MODI DOUBLE DANDA:\u{11642}\n\
MODI ABBREVIATION SIGN:\u{11643}\n\
MODI SIGN HUVA:\u{11644}\n\
MODI DIGIT ZERO:\u{11650}\n\
MODI DIGIT ONE:\u{11651}\n\
MODI DIGIT TWO:\u{11652}\n\
MODI DIGIT THREE:\u{11653}\n\
MODI DIGIT FOUR:\u{11654}\n\
MODI DIGIT FIVE:\u{11655}\n\
MODI DIGIT SIX:\u{11656}\n\
MODI DIGIT SEVEN:\u{11657}\n\
MODI DIGIT EIGHT:\u{11658}\n\
MODI DIGIT NINE:\u{11659}\n\
MONGOLIAN BIRGA WITH ORNAMENT:\u{11660}\n\
MONGOLIAN ROTATED BIRGA:\u{11661}\n\
MONGOLIAN DOUBLE BIRGA WITH ORNAMENT:\u{11662}\n\
MONGOLIAN TRIPLE BIRGA WITH ORNAMENT:\u{11663}\n\
MONGOLIAN BIRGA WITH DOUBLE ORNAMENT:\u{11664}\n\
MONGOLIAN ROTATED BIRGA WITH ORNAMENT:\u{11665}\n\
MONGOLIAN ROTATED BIRGA WITH DOUBLE ORNAMENT:\u{11666}\n\
MONGOLIAN INVERTED BIRGA:\u{11667}\n\
MONGOLIAN INVERTED BIRGA WITH DOUBLE ORNAMENT:\u{11668}\n\
MONGOLIAN SWIRL BIRGA:\u{11669}\n\
MONGOLIAN SWIRL BIRGA WITH ORNAMENT:\u{1166A}\n\
MONGOLIAN SWIRL BIRGA WITH DOUBLE ORNAMENT:\u{1166B}\n\
MONGOLIAN TURNED SWIRL BIRGA WITH DOUBLE ORNAMENT:\u{1166C}\n\
TAKRI LETTER A:\u{11680}\n\
TAKRI LETTER AA:\u{11681}\n\
TAKRI LETTER I:\u{11682}\n\
TAKRI LETTER II:\u{11683}\n\
TAKRI LETTER U:\u{11684}\n\
TAKRI LETTER UU:\u{11685}\n\
TAKRI LETTER E:\u{11686}\n\
TAKRI LETTER AI:\u{11687}\n\
TAKRI LETTER O:\u{11688}\n\
TAKRI LETTER AU:\u{11689}\n\
TAKRI LETTER KA:\u{1168A}\n\
TAKRI LETTER KHA:\u{1168B}\n\
TAKRI LETTER GA:\u{1168C}\n\
TAKRI LETTER GHA:\u{1168D}\n\
TAKRI LETTER NGA:\u{1168E}\n\
TAKRI LETTER CA:\u{1168F}\n\
TAKRI LETTER CHA:\u{11690}\n\
TAKRI LETTER JA:\u{11691}\n\
TAKRI LETTER JHA:\u{11692}\n\
TAKRI LETTER NYA:\u{11693}\n\
TAKRI LETTER TTA:\u{11694}\n\
TAKRI LETTER TTHA:\u{11695}\n\
TAKRI LETTER DDA:\u{11696}\n\
TAKRI LETTER DDHA:\u{11697}\n\
TAKRI LETTER NNA:\u{11698}\n\
TAKRI LETTER TA:\u{11699}\n\
TAKRI LETTER THA:\u{1169A}\n\
TAKRI LETTER DA:\u{1169B}\n\
TAKRI LETTER DHA:\u{1169C}\n\
TAKRI LETTER NA:\u{1169D}\n\
TAKRI LETTER PA:\u{1169E}\n\
TAKRI LETTER PHA:\u{1169F}\n\
TAKRI LETTER BA:\u{116A0}\n\
TAKRI LETTER BHA:\u{116A1}\n\
TAKRI LETTER MA:\u{116A2}\n\
TAKRI LETTER YA:\u{116A3}\n\
TAKRI LETTER RA:\u{116A4}\n\
TAKRI LETTER LA:\u{116A5}\n\
TAKRI LETTER VA:\u{116A6}\n\
TAKRI LETTER SHA:\u{116A7}\n\
TAKRI LETTER SA:\u{116A8}\n\
TAKRI LETTER HA:\u{116A9}\n\
TAKRI LETTER RRA:\u{116AA}\n\
TAKRI SIGN ANUSVARA:\u{116AB}\n\
TAKRI SIGN VISARGA:\u{116AC}\n\
TAKRI VOWEL SIGN AA:\u{116AD}\n\
TAKRI VOWEL SIGN I:\u{116AE}\n\
TAKRI VOWEL SIGN II:\u{116AF}\n\
TAKRI VOWEL SIGN U:\u{116B0}\n\
TAKRI VOWEL SIGN UU:\u{116B1}\n\
TAKRI VOWEL SIGN E:\u{116B2}\n\
TAKRI VOWEL SIGN AI:\u{116B3}\n\
TAKRI VOWEL SIGN O:\u{116B4}\n\
TAKRI VOWEL SIGN AU:\u{116B5}\n\
TAKRI SIGN VIRAMA:\u{116B6}\n\
TAKRI SIGN NUKTA:\u{116B7}\n\
TAKRI LETTER ARCHAIC KHA:\u{116B8}\n\
TAKRI ABBREVIATION SIGN:\u{116B9}\n";

pub const NAMES_51: &'static str = "TAKRI DIGIT ZERO:\u{116C0}\n\
TAKRI DIGIT ONE:\u{116C1}\n\
TAKRI DIGIT TWO:\u{116C2}\n\
TAKRI DIGIT THREE:\u{116C3}\n\
TAKRI DIGIT FOUR:\u{116C4}\n\
TAKRI DIGIT FIVE:\u{116C5}\n\
TAKRI DIGIT SIX:\u{116C6}\n\
TAKRI DIGIT SEVEN:\u{116C7}\n\
TAKRI DIGIT EIGHT:\u{116C8}\n\
TAKRI DIGIT NINE:\u{116C9}\n\
AHOM LETTER KA:\u{11700}\n\
AHOM LETTER KHA:\u{11701}\n\
AHOM LETTER NGA:\u{11702}\n\
AHOM LETTER NA:\u{11703}\n\
AHOM LETTER TA:\u{11704}\n\
AHOM LETTER ALTERNATE TA:\u{11705}\n\
AHOM LETTER PA:\u{11706}\n\
AHOM LETTER PHA:\u{11707}\n\
AHOM LETTER BA:\u{11708}\n\
AHOM LETTER MA:\u{11709}\n\
AHOM LETTER JA:\u{1170A}\n\
AHOM LETTER CHA:\u{1170B}\n\
AHOM LETTER THA:\u{1170C}\n\
AHOM LETTER RA:\u{1170D}\n\
AHOM LETTER LA:\u{1170E}\n\
AHOM LETTER SA:\u{1170F}\n\
AHOM LETTER NYA:\u{11710}\n\
AHOM LETTER HA:\u{11711}\n\
AHOM LETTER A:\u{11712}\n\
AHOM LETTER DA:\u{11713}\n\
AHOM LETTER DHA:\u{11714}\n\
AHOM LETTER GA:\u{11715}\n\
AHOM LETTER ALTERNATE GA:\u{11716}\n\
AHOM LETTER GHA:\u{11717}\n\
AHOM LETTER BHA:\u{11718}\n\
AHOM LETTER JHA:\u{11719}\n\
AHOM LETTER ALTERNATE BA:\u{1171A}\n\
AHOM CONSONANT SIGN MEDIAL LA:\u{1171D}\n\
AHOM CONSONANT SIGN MEDIAL RA:\u{1171E}\n\
AHOM CONSONANT SIGN MEDIAL LIGATING RA:\u{1171F}\n\
AHOM VOWEL SIGN A:\u{11720}\n\
AHOM VOWEL SIGN AA:\u{11721}\n\
AHOM VOWEL SIGN I:\u{11722}\n\
AHOM VOWEL SIGN II:\u{11723}\n\
AHOM VOWEL SIGN U:\u{11724}\n\
AHOM VOWEL SIGN UU:\u{11725}\n\
AHOM VOWEL SIGN E:\u{11726}\n\
AHOM VOWEL SIGN AW:\u{11727}\n\
AHOM VOWEL SIGN O:\u{11728}\n\
AHOM VOWEL SIGN AI:\u{11729}\n\
AHOM VOWEL SIGN AM:\u{1172A}\n\
AHOM SIGN KILLER:\u{1172B}\n\
AHOM DIGIT ZERO:\u{11730}\n\
AHOM DIGIT ONE:\u{11731}\n\
AHOM DIGIT TWO:\u{11732}\n\
AHOM DIGIT THREE:\u{11733}\n\
AHOM DIGIT FOUR:\u{11734}\n\
AHOM DIGIT FIVE:\u{11735}\n\
AHOM DIGIT SIX:\u{11736}\n\
AHOM DIGIT SEVEN:\u{11737}\n\
AHOM DIGIT EIGHT:\u{11738}\n\
AHOM DIGIT NINE:\u{11739}\n\
AHOM NUMBER TEN:\u{1173A}\n\
AHOM NUMBER TWENTY:\u{1173B}\n\
AHOM SIGN SMALL SECTION:\u{1173C}\n\
AHOM SIGN SECTION:\u{1173D}\n\
AHOM SIGN RULAI:\u{1173E}\n\
AHOM SYMBOL VI:\u{1173F}\n\
AHOM LETTER CA:\u{11740}\n\
AHOM LETTER TTA:\u{11741}\n\
AHOM LETTER TTHA:\u{11742}\n\
AHOM LETTER DDA:\u{11743}\n\
AHOM LETTER DDHA:\u{11744}\n\
AHOM LETTER NNA:\u{11745}\n\
AHOM LETTER LLA:\u{11746}\n\
DOGRA LETTER A:\u{11800}\n\
DOGRA LETTER AA:\u{11801}\n\
DOGRA LETTER I:\u{11802}\n\
DOGRA LETTER II:\u{11803}\n\
DOGRA LETTER U:\u{11804}\n\
DOGRA LETTER UU:\u{11805}\n\
DOGRA LETTER E:\u{11806}\n\
DOGRA LETTER AI:\u{11807}\n\
DOGRA LETTER O:\u{11808}\n\
DOGRA LETTER AU:\u{11809}\n\
DOGRA LETTER KA:\u{1180A}\n\
DOGRA LETTER KHA:\u{1180B}\n\
DOGRA LETTER GA:\u{1180C}\n\
DOGRA LETTER GHA:\u{1180D}\n\
DOGRA LETTER NGA:\u{1180E}\n\
DOGRA LETTER CA:\u{1180F}\n\
DOGRA LETTER CHA:\u{11810}\n\
DOGRA LETTER JA:\u{11811}\n\
DOGRA LETTER JHA:\u{11812}\n\
DOGRA LETTER NYA:\u{11813}\n\
DOGRA LETTER TTA:\u{11814}\n\
DOGRA LETTER TTHA:\u{11815}\n\
DOGRA LETTER DDA:\u{11816}\n\
DOGRA LETTER DDHA:\u{11817}\n\
DOGRA LETTER NNA:\u{11818}\n\
DOGRA LETTER TA:\u{11819}\n\
DOGRA LETTER THA:\u{1181A}\n\
DOGRA LETTER DA:\u{1181B}\n\
DOGRA LETTER DHA:\u{1181C}\n\
DOGRA LETTER NA:\u{1181D}\n\
DOGRA LETTER PA:\u{1181E}\n\
DOGRA LETTER PHA:\u{1181F}\n\
DOGRA LETTER BA:\u{11820}\n\
DOGRA LETTER BHA:\u{11821}\n\
DOGRA LETTER MA:\u{11822}\n\
DOGRA LETTER YA:\u{11823}\n\
DOGRA LETTER RA:\u{11824}\n\
DOGRA LETTER LA:\u{11825}\n\
DOGRA LETTER VA:\u{11826}\n\
DOGRA LETTER SHA:\u{11827}\n\
DOGRA LETTER SSA:\u{11828}\n\
DOGRA LETTER SA:\u{11829}\n\
DOGRA LETTER HA:\u{1182A}\n\
DOGRA LETTER RRA:\u{1182B}\n\
DOGRA VOWEL SIGN AA:\u{1182C}\n\
DOGRA VOWEL SIGN I:\u{1182D}\n\
DOGRA VOWEL SIGN II:\u{1182E}\n\
DOGRA VOWEL SIGN U:\u{1182F}\n\
DOGRA VOWEL SIGN UU:\u{11830}\n\
DOGRA VOWEL SIGN VOCALIC R:\u{11831}\n\
DOGRA VOWEL SIGN VOCALIC RR:\u{11832}\n\
DOGRA VOWEL SIGN E:\u{11833}\n\
DOGRA VOWEL SIGN AI:\u{11834}\n\
DOGRA VOWEL SIGN O:\u{11835}\n\
DOGRA VOWEL SIGN AU:\u{11836}\n\
DOGRA SIGN ANUSVARA:\u{11837}\n\
DOGRA SIGN VISARGA:\u{11838}\n\
DOGRA SIGN VIRAMA:\u{11839}\n\
DOGRA SIGN NUKTA:\u{1183A}\n\
DOGRA ABBREVIATION SIGN:\u{1183B}\n\
WARANG CITI CAPITAL LETTER NGAA:\u{118A0}\n\
WARANG CITI CAPITAL LETTER A:\u{118A1}\n\
WARANG CITI CAPITAL LETTER WI:\u{118A2}\n\
WARANG CITI CAPITAL LETTER YU:\u{118A3}\n\
WARANG CITI CAPITAL LETTER YA:\u{118A4}\n\
WARANG CITI CAPITAL LETTER YO:\u{118A5}\n\
WARANG CITI CAPITAL LETTER II:\u{118A6}\n\
WARANG CITI CAPITAL LETTER UU:\u{118A7}\n\
WARANG CITI CAPITAL LETTER E:\u{118A8}\n\
WARANG CITI CAPITAL LETTER O:\u{118A9}\n\
WARANG CITI CAPITAL LETTER ANG:\u{118AA}\n\
WARANG CITI CAPITAL LETTER GA:\u{118AB}\n\
WARANG CITI CAPITAL LETTER KO:\u{118AC}\n\
WARANG CITI CAPITAL LETTER ENY:\u{118AD}\n\
WARANG CITI CAPITAL LETTER YUJ:\u{118AE}\n\
WARANG CITI CAPITAL LETTER UC:\u{118AF}\n\
WARANG CITI CAPITAL LETTER ENN:\u{118B0}\n\
WARANG CITI CAPITAL LETTER ODD:\u{118B1}\n\
WARANG CITI CAPITAL LETTER TTE:\u{118B2}\n\
WARANG CITI CAPITAL LETTER NUNG:\u{118B3}\n\
WARANG CITI CAPITAL LETTER DA:\u{118B4}\n\
WARANG CITI CAPITAL LETTER AT:\u{118B5}\n\
WARANG CITI CAPITAL LETTER AM:\u{118B6}\n\
WARANG CITI CAPITAL LETTER BU:\u{118B7}\n\
WARANG CITI CAPITAL LETTER PU:\u{118B8}\n\
WARANG CITI CAPITAL LETTER HIYO:\u{118B9}\n\
WARANG CITI CAPITAL LETTER HOLO:\u{118BA}\n\
WARANG CITI CAPITAL LETTER HORR:\u{118BB}\n\
WARANG CITI CAPITAL LETTER HAR:\u{118BC}\n\
WARANG CITI CAPITAL LETTER SSUU:\u{118BD}\n\
WARANG CITI CAPITAL LETTER SII:\u{118BE}\n\
WARANG CITI CAPITAL LETTER VIYO:\u{118BF}\n\
WARANG CITI SMALL LETTER NGAA:\u{118C0}\n\
WARANG CITI SMALL LETTER A:\u{118C1}\n\
WARANG CITI SMALL LETTER WI:\u{118C2}\n\
WARANG CITI SMALL LETTER YU:\u{118C3}\n\
WARANG CITI SMALL LETTER YA:\u{118C4}\n\
WARANG CITI SMALL LETTER YO:\u{118C5}\n\
WARANG CITI SMALL LETTER II:\u{118C6}\n\
WARANG CITI SMALL LETTER UU:\u{118C7}\n\
WARANG CITI SMALL LETTER E:\u{118C8}\n\
WARANG CITI SMALL LETTER O:\u{118C9}\n\
WARANG CITI SMALL LETTER ANG:\u{118CA}\n\
WARANG CITI SMALL LETTER GA:\u{118CB}\n\
WARANG CITI SMALL LETTER KO:\u{118CC}\n\
WARANG CITI SMALL LETTER ENY:\u{118CD}\n\
WARANG CITI SMALL LETTER YUJ:\u{118CE}\n\
WARANG CITI SMALL LETTER UC:\u{118CF}\n\
WARANG CITI SMALL LETTER ENN:\u{118D0}\n\
WARANG CITI SMALL LETTER ODD:\u{118D1}\n\
WARANG CITI SMALL LETTER TTE:\u{118D2}\n\
WARANG CITI SMALL LETTER NUNG:\u{118D3}\n\
WARANG CITI SMALL LETTER DA:\u{118D4}\n\
WARANG CITI SMALL LETTER AT:\u{118D5}\n\
WARANG CITI SMALL LETTER AM:\u{118D6}\n\
WARANG CITI SMALL LETTER BU:\u{118D7}\n\
WARANG CITI SMALL LETTER PU:\u{118D8}\n\
WARANG CITI SMALL LETTER HIYO:\u{118D9}\n\
WARANG CITI SMALL LETTER HOLO:\u{118DA}\n\
WARANG CITI SMALL LETTER HORR:\u{118DB}\n\
WARANG CITI SMALL LETTER HAR:\u{118DC}\n\
WARANG CITI SMALL LETTER SSUU:\u{118DD}\n\
WARANG CITI SMALL LETTER SII:\u{118DE}\n\
WARANG CITI SMALL LETTER VIYO:\u{118DF}\n\
WARANG CITI DIGIT ZERO:\u{118E0}\n\
WARANG CITI DIGIT ONE:\u{118E1}\n\
WARANG CITI DIGIT TWO:\u{118E2}\n\
WARANG CITI DIGIT THREE:\u{118E3}\n\
WARANG CITI DIGIT FOUR:\u{118E4}\n\
WARANG CITI DIGIT FIVE:\u{118E5}\n\
WARANG CITI DIGIT SIX:\u{118E6}\n\
WARANG CITI DIGIT SEVEN:\u{118E7}\n\
WARANG CITI DIGIT EIGHT:\u{118E8}\n\
WARANG CITI DIGIT NINE:\u{118E9}\n\
WARANG CITI NUMBER TEN:\u{118EA}\n\
WARANG CITI NUMBER TWENTY:\u{118EB}\n\
WARANG CITI NUMBER THIRTY:\u{118EC}\n\
WARANG CITI NUMBER FORTY:\u{118ED}\n\
WARANG CITI NUMBER FIFTY:\u{118EE}\n\
WARANG CITI NUMBER SIXTY:\u{118EF}\n\
WARANG CITI NUMBER SEVENTY:\u{118F0}\n\
WARANG CITI NUMBER EIGHTY:\u{118F1}\n\
WARANG CITI NUMBER NINETY:\u{118F2}\n\
WARANG CITI OM:\u{118FF}\n\
DIVES AKURU LETTER A:\u{11900}\n\
DIVES AKURU LETTER AA:\u{11901}\n\
DIVES AKURU LETTER I:\u{11902}\n\
DIVES AKURU LETTER II:\u{11903}\n\
DIVES AKURU LETTER U:\u{11904}\n\
DIVES AKURU LETTER UU:\u{11905}\n\
DIVES AKURU LETTER E:\u{11906}\n\
DIVES AKURU LETTER O:\u{11909}\n\
DIVES AKURU LETTER KA:\u{1190C}\n\
DIVES AKURU LETTER KHA:\u{1190D}\n\
DIVES AKURU LETTER GA:\u{1190E}\n\
DIVES AKURU LETTER GHA:\u{1190F}\n\
DIVES AKURU LETTER NGA:\u{11910}\n\
DIVES AKURU LETTER CA:\u{11911}\n\
DIVES AKURU LETTER CHA:\u{11912}\n\
DIVES AKURU LETTER JA:\u{11913}\n\
DIVES AKURU LETTER NYA:\u{11915}\n\
DIVES AKURU LETTER TTA:\u{11916}\n\
DIVES AKURU LETTER DDA:\u{11918}\n\
DIVES AKURU LETTER DDHA:\u{11919}\n\
DIVES AKURU LETTER NNA:\u{1191A}\n\
DIVES AKURU LETTER TA:\u{1191B}\n\
DIVES AKURU LETTER THA:\u{1191C}\n\
DIVES AKURU LETTER DA:\u{1191D}\n\
DIVES AKURU LETTER DHA:\u{1191E}\n\
DIVES AKURU LETTER NA:\u{1191F}\n\
DIVES AKURU LETTER PA:\u{11920}\n\
DIVES AKURU LETTER PHA:\u{11921}\n\
DIVES AKURU LETTER BA:\u{11922}\n\
DIVES AKURU LETTER BHA:\u{11923}\n\
DIVES AKURU LETTER MA:\u{11924}\n\
DIVES AKURU LETTER YA:\u{11925}\n\
DIVES AKURU LETTER YYA:\u{11926}\n\
DIVES AKURU LETTER RA:\u{11927}\n\
DIVES AKURU LETTER LA:\u{11928}\n\
DIVES AKURU LETTER VA:\u{11929}\n\
DIVES AKURU LETTER SHA:\u{1192A}\n\
DIVES AKURU LETTER SSA:\u{1192B}\n\
DIVES AKURU LETTER SA:\u{1192C}\n\
DIVES AKURU LETTER HA:\u{1192D}\n\
DIVES AKURU LETTER LLA:\u{1192E}\n\
DIVES AKURU LETTER ZA:\u{1192F}\n\
DIVES AKURU VOWEL SIGN AA:\u{11930}\n\
DIVES AKURU VOWEL SIGN I:\u{11931}\n\
DIVES AKURU VOWEL SIGN II:\u{11932}\n\
DIVES AKURU VOWEL SIGN U:\u{11933}\n\
DIVES AKURU VOWEL SIGN UU:\u{11934}\n\
DIVES AKURU VOWEL SIGN E:\u{11935}\n\
DIVES AKURU VOWEL SIGN AI:\u{11937}\n\
DIVES AKURU VOWEL SIGN O:\u{11938}\n\
DIVES AKURU SIGN ANUSVARA:\u{1193B}\n\
DIVES AKURU SIGN CANDRABINDU:\u{1193C}\n\
DIVES AKURU SIGN HALANTA:\u{1193D}\n\
DIVES AKURU VIRAMA:\u{1193E}\n\
DIVES AKURU PREFIXED NASAL SIGN:\u{1193F}\n\
DIVES AKURU MEDIAL YA:\u{11940}\n\
DIVES AKURU INITIAL RA:\u{11941}\n\
DIVES AKURU MEDIAL RA:\u{11942}\n\
DIVES AKURU SIGN NUKTA:\u{11943}\n\
DIVES AKURU DOUBLE DANDA:\u{11944}\n\
DIVES AKURU GAP FILLER:\u{11945}\n\
DIVES AKURU END OF TEXT MARK:\u{11946}\n\
DIVES AKURU DIGIT ZERO:\u{11950}\n\
DIVES AKURU DIGIT ONE:\u{11951}\n\
DIVES AKURU DIGIT TWO:\u{11952}\n\
DIVES AKURU DIGIT THREE:\u{11953}\n\
DIVES AKURU DIGIT FOUR:\u{11954}\n\
DIVES AKURU DIGIT FIVE:\u{11955}\n\
DIVES AKURU DIGIT SIX:\u{11956}\n\
DIVES AKURU DIGIT SEVEN:\u{11957}\n\
DIVES AKURU DIGIT EIGHT:\u{11958}\n\
DIVES AKURU DIGIT NINE:\u{11959}\n\
NANDINAGARI LETTER A:\u{119A0}\n\
NANDINAGARI LETTER AA:\u{119A1}\n\
NANDINAGARI LETTER I:\u{119A2}\n\
NANDINAGARI LETTER II:\u{119A3}\n\
NANDINAGARI LETTER U:\u{119A4}\n\
NANDINAGARI LETTER UU:\u{119A5}\n\
NANDINAGARI LETTER VOCALIC R:\u{119A6}\n\
NANDINAGARI LETTER VOCALIC RR:\u{119A7}\n\
NANDINAGARI LETTER E:\u{119AA}\n\
NANDINAGARI LETTER AI:\u{119AB}\n\
NANDINAGARI LETTER O:\u{119AC}\n\
NANDINAGARI LETTER AU:\u{119AD}\n\
NANDINAGARI LETTER KA:\u{119AE}\n\
NANDINAGARI LETTER KHA:\u{119AF}\n\
NANDINAGARI LETTER GA:\u{119B0}\n\
NANDINAGARI LETTER GHA:\u{119B1}\n\
NANDINAGARI LETTER NGA:\u{119B2}\n\
NANDINAGARI LETTER CA:\u{119B3}\n\
NANDINAGARI LETTER CHA:\u{119B4}\n\
NANDINAGARI LETTER JA:\u{119B5}\n\
NANDINAGARI LETTER JHA:\u{119B6}\n\
NANDINAGARI LETTER NYA:\u{119B7}\n\
NANDINAGARI LETTER TTA:\u{119B8}\n\
NANDINAGARI LETTER TTHA:\u{119B9}\n\
NANDINAGARI LETTER DDA:\u{119BA}\n\
NANDINAGARI LETTER DDHA:\u{119BB}\n\
NANDINAGARI LETTER NNA:\u{119BC}\n\
NANDINAGARI LETTER TA:\u{119BD}\n\
NANDINAGARI LETTER THA:\u{119BE}\n\
NANDINAGARI LETTER DA:\u{119BF}\n\
NANDINAGARI LETTER DHA:\u{119C0}\n\
NANDINAGARI LETTER NA:\u{119C1}\n\
NANDINAGARI LETTER PA:\u{119C2}\n\
NANDINAGARI LETTER PHA:\u{119C3}\n\
NANDINAGARI LETTER BA:\u{119C4}\n\
NANDINAGARI LETTER BHA:\u{119C5}\n\
NANDINAGARI LETTER MA:\u{119C6}\n\
NANDINAGARI LETTER YA:\u{119C7}\n\
NANDINAGARI LETTER RA:\u{119C8}\n\
NANDINAGARI LETTER LA:\u{119C9}\n\
NANDINAGARI LETTER VA:\u{119CA}\n\
NANDINAGARI LETTER SHA:\u{119CB}\n\
NANDINAGARI LETTER SSA:\u{119CC}\n\
NANDINAGARI LETTER SA:\u{119CD}\n\
NANDINAGARI LETTER HA:\u{119CE}\n\
NANDINAGARI LETTER LLA:\u{119CF}\n\
NANDINAGARI LETTER RRA:\u{119D0}\n\
NANDINAGARI VOWEL SIGN AA:\u{119D1}\n\
NANDINAGARI VOWEL SIGN I:\u{119D2}\n\
NANDINAGARI VOWEL SIGN II:\u{119D3}\n\
NANDINAGARI VOWEL SIGN U:\u{119D4}\n\
NANDINAGARI VOWEL SIGN UU:\u{119D5}\n\
NANDINAGARI VOWEL SIGN VOCALIC R:\u{119D6}\n\
NANDINAGARI VOWEL SIGN VOCALIC RR:\u{119D7}\n\
NANDINAGARI VOWEL SIGN E:\u{119DA}\n\
NANDINAGARI VOWEL SIGN AI:\u{119DB}\n\
NANDINAGARI VOWEL SIGN O:\u{119DC}\n\
NANDINAGARI VOWEL SIGN AU:\u{119DD}\n\
NANDINAGARI SIGN ANUSVARA:\u{119DE}\n\
NANDINAGARI SIGN VISARGA:\u{119DF}\n\
NANDINAGARI SIGN VIRAMA:\u{119E0}\n\
NANDINAGARI SIGN AVAGRAHA:\u{119E1}\n\
NANDINAGARI SIGN SIDDHAM:\u{119E2}\n\
NANDINAGARI HEADSTROKE:\u{119E3}\n\
NANDINAGARI VOWEL SIGN PRISHTHAMATRA E:\u{119E4}\n\
ZANABAZAR SQUARE LETTER A:\u{11A00}\n\
ZANABAZAR SQUARE VOWEL SIGN I:\u{11A01}\n\
ZANABAZAR SQUARE VOWEL SIGN UE:\u{11A02}\n\
ZANABAZAR SQUARE VOWEL SIGN U:\u{11A03}\n\
ZANABAZAR SQUARE VOWEL SIGN E:\u{11A04}\n\
ZANABAZAR SQUARE VOWEL SIGN OE:\u{11A05}\n\
ZANABAZAR SQUARE VOWEL SIGN O:\u{11A06}\n\
ZANABAZAR SQUARE VOWEL SIGN AI:\u{11A07}\n\
ZANABAZAR SQUARE VOWEL SIGN AU:\u{11A08}\n\
ZANABAZAR SQUARE VOWEL SIGN REVERSED I:\u{11A09}\n\
ZANABAZAR SQUARE VOWEL LENGTH MARK:\u{11A0A}\n\
ZANABAZAR SQUARE LETTER KA:\u{11A0B}\n\
ZANABAZAR SQUARE LETTER KHA:\u{11A0C}\n\
ZANABAZAR SQUARE LETTER GA:\u{11A0D}\n\
ZANABAZAR SQUARE LETTER GHA:\u{11A0E}\n\
ZANABAZAR SQUARE LETTER NGA:\u{11A0F}\n\
ZANABAZAR SQUARE LETTER CA:\u{11A10}\n\
ZANABAZAR SQUARE LETTER CHA:\u{11A11}\n\
ZANABAZAR SQUARE LETTER JA:\u{11A12}\n\
ZANABAZAR SQUARE LETTER NYA:\u{11A13}\n\
ZANABAZAR SQUARE LETTER TTA:\u{11A14}\n\
ZANABAZAR SQUARE LETTER TTHA:\u{11A15}\n\
ZANABAZAR SQUARE LETTER DDA:\u{11A16}\n\
ZANABAZAR SQUARE LETTER DDHA:\u{11A17}\n\
ZANABAZAR SQUARE LETTER NNA:\u{11A18}\n\
ZANABAZAR SQUARE LETTER TA:\u{11A19}\n\
ZANABAZAR SQUARE LETTER THA:\u{11A1A}\n\
ZANABAZAR SQUARE LETTER DA:\u{11A1B}\n\
ZANABAZAR SQUARE LETTER DHA:\u{11A1C}\n\
ZANABAZAR SQUARE LETTER NA:\u{11A1D}\n\
ZANABAZAR SQUARE LETTER PA:\u{11A1E}\n\
ZANABAZAR SQUARE LETTER PHA:\u{11A1F}\n\
ZANABAZAR SQUARE LETTER BA:\u{11A20}\n\
ZANABAZAR SQUARE LETTER BHA:\u{11A21}\n\
ZANABAZAR SQUARE LETTER MA:\u{11A22}\n\
ZANABAZAR SQUARE LETTER TSA:\u{11A23}\n\
ZANABAZAR SQUARE LETTER TSHA:\u{11A24}\n\
ZANABAZAR SQUARE LETTER DZA:\u{11A25}\n\
ZANABAZAR SQUARE LETTER DZHA:\u{11A26}\n\
ZANABAZAR SQUARE LETTER ZHA:\u{11A27}\n\
ZANABAZAR SQUARE LETTER ZA:\u{11A28}\n\
ZANABAZAR SQUARE LETTER -A:\u{11A29}\n\
ZANABAZAR SQUARE LETTER YA:\u{11A2A}\n\
ZANABAZAR SQUARE LETTER RA:\u{11A2B}\n\
ZANABAZAR SQUARE LETTER LA:\u{11A2C}\n\
ZANABAZAR SQUARE LETTER VA:\u{11A2D}\n\
ZANABAZAR SQUARE LETTER SHA:\u{11A2E}\n\
ZANABAZAR SQUARE LETTER SSA:\u{11A2F}\n\
ZANABAZAR SQUARE LETTER SA:\u{11A30}\n\
ZANABAZAR SQUARE LETTER HA:\u{11A31}\n\
ZANABAZAR SQUARE LETTER KSSA:\u{11A32}\n\
ZANABAZAR SQUARE FINAL CONSONANT MARK:\u{11A33}\n\
ZANABAZAR SQUARE SIGN VIRAMA:\u{11A34}\n\
ZANABAZAR SQUARE SIGN CANDRABINDU:\u{11A35}\n\
ZANABAZAR SQUARE SIGN CANDRABINDU WITH ORNAMENT:\u{11A36}\n\
ZANABAZAR SQUARE SIGN CANDRA WITH ORNAMENT:\u{11A37}\n\
ZANABAZAR SQUARE SIGN ANUSVARA:\u{11A38}\n";

pub const NAMES_52: &'static str = "ZANABAZAR SQUARE SIGN VISARGA:\u{11A39}\n\
ZANABAZAR SQUARE CLUSTER-INITIAL LETTER RA:\u{11A3A}\n\
ZANABAZAR SQUARE CLUSTER-FINAL LETTER YA:\u{11A3B}\n\
ZANABAZAR SQUARE CLUSTER-FINAL LETTER RA:\u{11A3C}\n\
ZANABAZAR SQUARE CLUSTER-FINAL LETTER LA:\u{11A3D}\n\
ZANABAZAR SQUARE CLUSTER-FINAL LETTER VA:\u{11A3E}\n\
ZANABAZAR SQUARE INITIAL HEAD MARK:\u{11A3F}\n\
ZANABAZAR SQUARE CLOSING HEAD MARK:\u{11A40}\n\
ZANABAZAR SQUARE MARK TSHEG:\u{11A41}\n\
ZANABAZAR SQUARE MARK SHAD:\u{11A42}\n\
ZANABAZAR SQUARE MARK DOUBLE SHAD:\u{11A43}\n\
ZANABAZAR SQUARE MARK LONG TSHEG:\u{11A44}\n\
ZANABAZAR SQUARE INITIAL DOUBLE-LINED HEAD MARK:\u{11A45}\n\
ZANABAZAR SQUARE CLOSING DOUBLE-LINED HEAD MARK:\u{11A46}\n\
ZANABAZAR SQUARE SUBJOINER:\u{11A47}\n\
SOYOMBO LETTER A:\u{11A50}\n\
SOYOMBO VOWEL SIGN I:\u{11A51}\n\
SOYOMBO VOWEL SIGN UE:\u{11A52}\n\
SOYOMBO VOWEL SIGN U:\u{11A53}\n\
SOYOMBO VOWEL SIGN E:\u{11A54}\n\
SOYOMBO VOWEL SIGN O:\u{11A55}\n\
SOYOMBO VOWEL SIGN OE:\u{11A56}\n\
SOYOMBO VOWEL SIGN AI:\u{11A57}\n\
SOYOMBO VOWEL SIGN AU:\u{11A58}\n\
SOYOMBO VOWEL SIGN VOCALIC R:\u{11A59}\n\
SOYOMBO VOWEL SIGN VOCALIC L:\u{11A5A}\n\
SOYOMBO VOWEL LENGTH MARK:\u{11A5B}\n\
SOYOMBO LETTER KA:\u{11A5C}\n\
SOYOMBO LETTER KHA:\u{11A5D}\n\
SOYOMBO LETTER GA:\u{11A5E}\n\
SOYOMBO LETTER GHA:\u{11A5F}\n\
SOYOMBO LETTER NGA:\u{11A60}\n\
SOYOMBO LETTER CA:\u{11A61}\n\
SOYOMBO LETTER CHA:\u{11A62}\n\
SOYOMBO LETTER JA:\u{11A63}\n\
SOYOMBO LETTER JHA:\u{11A64}\n\
SOYOMBO LETTER NYA:\u{11A65}\n\
SOYOMBO LETTER TTA:\u{11A66}\n\
SOYOMBO LETTER TTHA:\u{11A67}\n\
SOYOMBO LETTER DDA:\u{11A68}\n\
SOYOMBO LETTER DDHA:\u{11A69}\n\
SOYOMBO LETTER NNA:\u{11A6A}\n\
SOYOMBO LETTER TA:\u{11A6B}\n\
SOYOMBO LETTER THA:\u{11A6C}\n\
SOYOMBO LETTER DA:\u{11A6D}\n\
SOYOMBO LETTER DHA:\u{11A6E}\n\
SOYOMBO LETTER NA:\u{11A6F}\n\
SOYOMBO LETTER PA:\u{11A70}\n\
SOYOMBO LETTER PHA:\u{11A71}\n\
SOYOMBO LETTER BA:\u{11A72}\n\
SOYOMBO LETTER BHA:\u{11A73}\n\
SOYOMBO LETTER MA:\u{11A74}\n\
SOYOMBO LETTER TSA:\u{11A75}\n\
SOYOMBO LETTER TSHA:\u{11A76}\n\
SOYOMBO LETTER DZA:\u{11A77}\n\
SOYOMBO LETTER ZHA:\u{11A78}\n\
SOYOMBO LETTER ZA:\u{11A79}\n\
SOYOMBO LETTER -A:\u{11A7A}\n\
SOYOMBO LETTER YA:\u{11A7B}\n\
SOYOMBO LETTER RA:\u{11A7C}\n\
SOYOMBO LETTER LA:\u{11A7D}\n\
SOYOMBO LETTER VA:\u{11A7E}\n\
SOYOMBO LETTER SHA:\u{11A7F}\n\
SOYOMBO LETTER SSA:\u{11A80}\n\
SOYOMBO LETTER SA:\u{11A81}\n\
SOYOMBO LETTER HA:\u{11A82}\n\
SOYOMBO LETTER KSSA:\u{11A83}\n\
SOYOMBO SIGN JIHVAMULIYA:\u{11A84}\n\
SOYOMBO SIGN UPADHMANIYA:\u{11A85}\n\
SOYOMBO CLUSTER-INITIAL LETTER RA:\u{11A86}\n\
SOYOMBO CLUSTER-INITIAL LETTER LA:\u{11A87}\n\
SOYOMBO CLUSTER-INITIAL LETTER SHA:\u{11A88}\n\
SOYOMBO CLUSTER-INITIAL LETTER SA:\u{11A89}\n\
SOYOMBO FINAL CONSONANT SIGN G:\u{11A8A}\n\
SOYOMBO FINAL CONSONANT SIGN K:\u{11A8B}\n\
SOYOMBO FINAL CONSONANT SIGN NG:\u{11A8C}\n\
SOYOMBO FINAL CONSONANT SIGN D:\u{11A8D}\n\
SOYOMBO FINAL CONSONANT SIGN N:\u{11A8E}\n\
SOYOMBO FINAL CONSONANT SIGN B:\u{11A8F}\n\
SOYOMBO FINAL CONSONANT SIGN M:\u{11A90}\n\
SOYOMBO FINAL CONSONANT SIGN R:\u{11A91}\n\
SOYOMBO FINAL CONSONANT SIGN L:\u{11A92}\n\
SOYOMBO FINAL CONSONANT SIGN SH:\u{11A93}\n\
SOYOMBO FINAL CONSONANT SIGN S:\u{11A94}\n\
SOYOMBO FINAL CONSONANT SIGN -A:\u{11A95}\n\
SOYOMBO SIGN ANUSVARA:\u{11A96}\n\
SOYOMBO SIGN VISARGA:\u{11A97}\n\
SOYOMBO GEMINATION MARK:\u{11A98}\n\
SOYOMBO SUBJOINER:\u{11A99}\n\
SOYOMBO MARK TSHEG:\u{11A9A}\n\
SOYOMBO MARK SHAD:\u{11A9B}\n\
SOYOMBO MARK DOUBLE SHAD:\u{11A9C}\n\
SOYOMBO MARK PLUTA:\u{11A9D}\n\
SOYOMBO HEAD MARK WITH MOON AND SUN AND TRIPLE FLAME:\u{11A9E}\n\
SOYOMBO HEAD MARK WITH MOON AND SUN AND FLAME:\u{11A9F}\n\
SOYOMBO HEAD MARK WITH MOON AND SUN:\u{11AA0}\n\
SOYOMBO TERMINAL MARK-1:\u{11AA1}\n\
SOYOMBO TERMINAL MARK-2:\u{11AA2}\n\
CANADIAN SYLLABICS NATTILIK HI:\u{11AB0}\n\
CANADIAN SYLLABICS NATTILIK HII:\u{11AB1}\n\
CANADIAN SYLLABICS NATTILIK HO:\u{11AB2}\n\
CANADIAN SYLLABICS NATTILIK HOO:\u{11AB3}\n\
CANADIAN SYLLABICS NATTILIK HA:\u{11AB4}\n\
CANADIAN SYLLABICS NATTILIK HAA:\u{11AB5}\n\
CANADIAN SYLLABICS NATTILIK SHRI:\u{11AB6}\n\
CANADIAN SYLLABICS NATTILIK SHRII:\u{11AB7}\n\
CANADIAN SYLLABICS NATTILIK SHRO:\u{11AB8}\n\
CANADIAN SYLLABICS NATTILIK SHROO:\u{11AB9}\n\
CANADIAN SYLLABICS NATTILIK SHRA:\u{11ABA}\n\
CANADIAN SYLLABICS NATTILIK SHRAA:\u{11ABB}\n\
CANADIAN SYLLABICS SPE:\u{11ABC}\n\
CANADIAN SYLLABICS SPI:\u{11ABD}\n\
CANADIAN SYLLABICS SPO:\u{11ABE}\n\
CANADIAN SYLLABICS SPA:\u{11ABF}\n\
PAU CIN HAU LETTER PA:\u{11AC0}\n\
PAU CIN HAU LETTER KA:\u{11AC1}\n\
PAU CIN HAU LETTER LA:\u{11AC2}\n\
PAU CIN HAU LETTER MA:\u{11AC3}\n\
PAU CIN HAU LETTER DA:\u{11AC4}\n\
PAU CIN HAU LETTER ZA:\u{11AC5}\n\
PAU CIN HAU LETTER VA:\u{11AC6}\n\
PAU CIN HAU LETTER NGA:\u{11AC7}\n\
PAU CIN HAU LETTER HA:\u{11AC8}\n\
PAU CIN HAU LETTER GA:\u{11AC9}\n\
PAU CIN HAU LETTER KHA:\u{11ACA}\n\
PAU CIN HAU LETTER SA:\u{11ACB}\n\
PAU CIN HAU LETTER BA:\u{11ACC}\n\
PAU CIN HAU LETTER CA:\u{11ACD}\n\
PAU CIN HAU LETTER TA:\u{11ACE}\n\
PAU CIN HAU LETTER THA:\u{11ACF}\n\
PAU CIN HAU LETTER NA:\u{11AD0}\n\
PAU CIN HAU LETTER PHA:\u{11AD1}\n\
PAU CIN HAU LETTER RA:\u{11AD2}\n\
PAU CIN HAU LETTER FA:\u{11AD3}\n\
PAU CIN HAU LETTER CHA:\u{11AD4}\n\
PAU CIN HAU LETTER A:\u{11AD5}\n\
PAU CIN HAU LETTER E:\u{11AD6}\n\
PAU CIN HAU LETTER I:\u{11AD7}\n\
PAU CIN HAU LETTER O:\u{11AD8}\n\
PAU CIN HAU LETTER U:\u{11AD9}\n\
PAU CIN HAU LETTER UA:\u{11ADA}\n\
PAU CIN HAU LETTER IA:\u{11ADB}\n\
PAU CIN HAU LETTER FINAL P:\u{11ADC}\n\
PAU CIN HAU LETTER FINAL K:\u{11ADD}\n\
PAU CIN HAU LETTER FINAL T:\u{11ADE}\n\
PAU CIN HAU LETTER FINAL M:\u{11ADF}\n\
PAU CIN HAU LETTER FINAL N:\u{11AE0}\n\
PAU CIN HAU LETTER FINAL L:\u{11AE1}\n\
PAU CIN HAU LETTER FINAL W:\u{11AE2}\n\
PAU CIN HAU LETTER FINAL NG:\u{11AE3}\n\
PAU CIN HAU LETTER FINAL Y:\u{11AE4}\n\
PAU CIN HAU RISING TONE LONG:\u{11AE5}\n\
PAU CIN HAU RISING TONE:\u{11AE6}\n\
PAU CIN HAU SANDHI GLOTTAL STOP:\u{11AE7}\n\
PAU CIN HAU RISING TONE LONG FINAL:\u{11AE8}\n\
PAU CIN HAU RISING TONE FINAL:\u{11AE9}\n\
PAU CIN HAU SANDHI GLOTTAL STOP FINAL:\u{11AEA}\n\
PAU CIN HAU SANDHI TONE LONG:\u{11AEB}\n\
PAU CIN HAU SANDHI TONE:\u{11AEC}\n\
PAU CIN HAU SANDHI TONE LONG FINAL:\u{11AED}\n\
PAU CIN HAU SANDHI TONE FINAL:\u{11AEE}\n\
PAU CIN HAU MID-LEVEL TONE:\u{11AEF}\n\
PAU CIN HAU GLOTTAL STOP VARIANT:\u{11AF0}\n\
PAU CIN HAU MID-LEVEL TONE LONG FINAL:\u{11AF1}\n\
PAU CIN HAU MID-LEVEL TONE FINAL:\u{11AF2}\n\
PAU CIN HAU LOW-FALLING TONE LONG:\u{11AF3}\n\
PAU CIN HAU LOW-FALLING TONE:\u{11AF4}\n\
PAU CIN HAU GLOTTAL STOP:\u{11AF5}\n\
PAU CIN HAU LOW-FALLING TONE LONG FINAL:\u{11AF6}\n\
PAU CIN HAU LOW-FALLING TONE FINAL:\u{11AF7}\n\
PAU CIN HAU GLOTTAL STOP FINAL:\u{11AF8}\n\
BHAIKSUKI LETTER A:\u{11C00}\n\
BHAIKSUKI LETTER AA:\u{11C01}\n\
BHAIKSUKI LETTER I:\u{11C02}\n\
BHAIKSUKI LETTER II:\u{11C03}\n\
BHAIKSUKI LETTER U:\u{11C04}\n\
BHAIKSUKI LETTER UU:\u{11C05}\n\
BHAIKSUKI LETTER VOCALIC R:\u{11C06}\n\
BHAIKSUKI LETTER VOCALIC RR:\u{11C07}\n\
BHAIKSUKI LETTER VOCALIC L:\u{11C08}\n\
BHAIKSUKI LETTER E:\u{11C0A}\n\
BHAIKSUKI LETTER AI:\u{11C0B}\n\
BHAIKSUKI LETTER O:\u{11C0C}\n\
BHAIKSUKI LETTER AU:\u{11C0D}\n\
BHAIKSUKI LETTER KA:\u{11C0E}\n\
BHAIKSUKI LETTER KHA:\u{11C0F}\n\
BHAIKSUKI LETTER GA:\u{11C10}\n\
BHAIKSUKI LETTER GHA:\u{11C11}\n\
BHAIKSUKI LETTER NGA:\u{11C12}\n\
BHAIKSUKI LETTER CA:\u{11C13}\n\
BHAIKSUKI LETTER CHA:\u{11C14}\n\
BHAIKSUKI LETTER JA:\u{11C15}\n\
BHAIKSUKI LETTER JHA:\u{11C16}\n\
BHAIKSUKI LETTER NYA:\u{11C17}\n\
BHAIKSUKI LETTER TTA:\u{11C18}\n\
BHAIKSUKI LETTER TTHA:\u{11C19}\n\
BHAIKSUKI LETTER DDA:\u{11C1A}\n\
BHAIKSUKI LETTER DDHA:\u{11C1B}\n\
BHAIKSUKI LETTER NNA:\u{11C1C}\n\
BHAIKSUKI LETTER TA:\u{11C1D}\n\
BHAIKSUKI LETTER THA:\u{11C1E}\n\
BHAIKSUKI LETTER DA:\u{11C1F}\n\
BHAIKSUKI LETTER DHA:\u{11C20}\n\
BHAIKSUKI LETTER NA:\u{11C21}\n\
BHAIKSUKI LETTER PA:\u{11C22}\n\
BHAIKSUKI LETTER PHA:\u{11C23}\n\
BHAIKSUKI LETTER BA:\u{11C24}\n\
BHAIKSUKI LETTER BHA:\u{11C25}\n\
BHAIKSUKI LETTER MA:\u{11C26}\n\
BHAIKSUKI LETTER YA:\u{11C27}\n\
BHAIKSUKI LETTER RA:\u{11C28}\n\
BHAIKSUKI LETTER LA:\u{11C29}\n\
BHAIKSUKI LETTER VA:\u{11C2A}\n\
BHAIKSUKI LETTER SHA:\u{11C2B}\n\
BHAIKSUKI LETTER SSA:\u{11C2C}\n\
BHAIKSUKI LETTER SA:\u{11C2D}\n\
BHAIKSUKI LETTER HA:\u{11C2E}\n\
BHAIKSUKI VOWEL SIGN AA:\u{11C2F}\n\
BHAIKSUKI VOWEL SIGN I:\u{11C30}\n\
BHAIKSUKI VOWEL SIGN II:\u{11C31}\n\
BHAIKSUKI VOWEL SIGN U:\u{11C32}\n\
BHAIKSUKI VOWEL SIGN UU:\u{11C33}\n\
BHAIKSUKI VOWEL SIGN VOCALIC R:\u{11C34}\n\
BHAIKSUKI VOWEL SIGN VOCALIC RR:\u{11C35}\n\
BHAIKSUKI VOWEL SIGN VOCALIC L:\u{11C36}\n\
BHAIKSUKI VOWEL SIGN E:\u{11C38}\n\
BHAIKSUKI VOWEL SIGN AI:\u{11C39}\n\
BHAIKSUKI VOWEL SIGN O:\u{11C3A}\n\
BHAIKSUKI VOWEL SIGN AU:\u{11C3B}\n\
BHAIKSUKI SIGN CANDRABINDU:\u{11C3C}\n\
BHAIKSUKI SIGN ANUSVARA:\u{11C3D}\n\
BHAIKSUKI SIGN VISARGA:\u{11C3E}\n\
BHAIKSUKI SIGN VIRAMA:\u{11C3F}\n\
BHAIKSUKI SIGN AVAGRAHA:\u{11C40}\n\
BHAIKSUKI DANDA:\u{11C41}\n\
BHAIKSUKI DOUBLE DANDA:\u{11C42}\n\
BHAIKSUKI WORD SEPARATOR:\u{11C43}\n\
BHAIKSUKI GAP FILLER-1:\u{11C44}\n\
BHAIKSUKI GAP FILLER-2:\u{11C45}\n\
BHAIKSUKI DIGIT ZERO:\u{11C50}\n\
BHAIKSUKI DIGIT ONE:\u{11C51}\n\
BHAIKSUKI DIGIT TWO:\u{11C52}\n\
BHAIKSUKI DIGIT THREE:\u{11C53}\n\
BHAIKSUKI DIGIT FOUR:\u{11C54}\n\
BHAIKSUKI DIGIT FIVE:\u{11C55}\n\
BHAIKSUKI DIGIT SIX:\u{11C56}\n\
BHAIKSUKI DIGIT SEVEN:\u{11C57}\n\
BHAIKSUKI DIGIT EIGHT:\u{11C58}\n\
BHAIKSUKI DIGIT NINE:\u{11C59}\n\
BHAIKSUKI NUMBER ONE:\u{11C5A}\n\
BHAIKSUKI NUMBER TWO:\u{11C5B}\n\
BHAIKSUKI NUMBER THREE:\u{11C5C}\n\
BHAIKSUKI NUMBER FOUR:\u{11C5D}\n\
BHAIKSUKI NUMBER FIVE:\u{11C5E}\n\
BHAIKSUKI NUMBER SIX:\u{11C5F}\n\
BHAIKSUKI NUMBER SEVEN:\u{11C60}\n\
BHAIKSUKI NUMBER EIGHT:\u{11C61}\n\
BHAIKSUKI NUMBER NINE:\u{11C62}\n\
BHAIKSUKI NUMBER TEN:\u{11C63}\n\
BHAIKSUKI NUMBER TWENTY:\u{11C64}\n\
BHAIKSUKI NUMBER THIRTY:\u{11C65}\n\
BHAIKSUKI NUMBER FORTY:\u{11C66}\n\
BHAIKSUKI NUMBER FIFTY:\u{11C67}\n\
BHAIKSUKI NUMBER SIXTY:\u{11C68}\n\
BHAIKSUKI NUMBER SEVENTY:\u{11C69}\n\
BHAIKSUKI NUMBER EIGHTY:\u{11C6A}\n\
BHAIKSUKI NUMBER NINETY:\u{11C6B}\n\
BHAIKSUKI HUNDREDS UNIT MARK:\u{11C6C}\n\
MARCHEN HEAD MARK:\u{11C70}\n\
MARCHEN MARK SHAD:\u{11C71}\n\
MARCHEN LETTER KA:\u{11C72}\n\
MARCHEN LETTER KHA:\u{11C73}\n\
MARCHEN LETTER GA:\u{11C74}\n\
MARCHEN LETTER NGA:\u{11C75}\n\
MARCHEN LETTER CA:\u{11C76}\n\
MARCHEN LETTER CHA:\u{11C77}\n\
MARCHEN LETTER JA:\u{11C78}\n\
MARCHEN LETTER NYA:\u{11C79}\n\
MARCHEN LETTER TA:\u{11C7A}\n\
MARCHEN LETTER THA:\u{11C7B}\n\
MARCHEN LETTER DA:\u{11C7C}\n\
MARCHEN LETTER NA:\u{11C7D}\n\
MARCHEN LETTER PA:\u{11C7E}\n\
MARCHEN LETTER PHA:\u{11C7F}\n\
MARCHEN LETTER BA:\u{11C80}\n\
MARCHEN LETTER MA:\u{11C81}\n\
MARCHEN LETTER TSA:\u{11C82}\n\
MARCHEN LETTER TSHA:\u{11C83}\n\
MARCHEN LETTER DZA:\u{11C84}\n\
MARCHEN LETTER WA:\u{11C85}\n\
MARCHEN LETTER ZHA:\u{11C86}\n\
MARCHEN LETTER ZA:\u{11C87}\n\
MARCHEN LETTER -A:\u{11C88}\n\
MARCHEN LETTER YA:\u{11C89}\n\
MARCHEN LETTER RA:\u{11C8A}\n\
MARCHEN LETTER LA:\u{11C8B}\n\
MARCHEN LETTER SHA:\u{11C8C}\n\
MARCHEN LETTER SA:\u{11C8D}\n\
MARCHEN LETTER HA:\u{11C8E}\n\
MARCHEN LETTER A:\u{11C8F}\n\
MARCHEN SUBJOINED LETTER KA:\u{11C92}\n\
MARCHEN SUBJOINED LETTER KHA:\u{11C93}\n\
MARCHEN SUBJOINED LETTER GA:\u{11C94}\n\
MARCHEN SUBJOINED LETTER NGA:\u{11C95}\n\
MARCHEN SUBJOINED LETTER CA:\u{11C96}\n\
MARCHEN SUBJOINED LETTER CHA:\u{11C97}\n\
MARCHEN SUBJOINED LETTER JA:\u{11C98}\n\
MARCHEN SUBJOINED LETTER NYA:\u{11C99}\n\
MARCHEN SUBJOINED LETTER TA:\u{11C9A}\n\
MARCHEN SUBJOINED LETTER THA:\u{11C9B}\n\
MARCHEN SUBJOINED LETTER DA:\u{11C9C}\n\
MARCHEN SUBJOINED LETTER NA:\u{11C9D}\n\
MARCHEN SUBJOINED LETTER PA:\u{11C9E}\n\
MARCHEN SUBJOINED LETTER PHA:\u{11C9F}\n\
MARCHEN SUBJOINED LETTER BA:\u{11CA0}\n\
MARCHEN SUBJOINED LETTER MA:\u{11CA1}\n\
MARCHEN SUBJOINED LETTER TSA:\u{11CA2}\n\
MARCHEN SUBJOINED LETTER TSHA:\u{11CA3}\n\
MARCHEN SUBJOINED LETTER DZA:\u{11CA4}\n\
MARCHEN SUBJOINED LETTER WA:\u{11CA5}\n\
MARCHEN SUBJOINED LETTER ZHA:\u{11CA6}\n\
MARCHEN SUBJOINED LETTER ZA:\u{11CA7}\n\
MARCHEN SUBJOINED LETTER YA:\u{11CA9}\n\
MARCHEN SUBJOINED LETTER RA:\u{11CAA}\n\
MARCHEN SUBJOINED LETTER LA:\u{11CAB}\n\
MARCHEN SUBJOINED LETTER SHA:\u{11CAC}\n\
MARCHEN SUBJOINED LETTER SA:\u{11CAD}\n\
MARCHEN SUBJOINED LETTER HA:\u{11CAE}\n\
MARCHEN SUBJOINED LETTER A:\u{11CAF}\n\
MARCHEN VOWEL SIGN AA:\u{11CB0}\n\
MARCHEN VOWEL SIGN I:\u{11CB1}\n\
MARCHEN VOWEL SIGN U:\u{11CB2}\n\
MARCHEN VOWEL SIGN E:\u{11CB3}\n\
MARCHEN VOWEL SIGN O:\u{11CB4}\n\
MARCHEN SIGN ANUSVARA:\u{11CB5}\n\
MARCHEN SIGN CANDRABINDU:\u{11CB6}\n\
MASARAM GONDI LETTER A:\u{11D00}\n\
MASARAM GONDI LETTER AA:\u{11D01}\n\
MASARAM GONDI LETTER I:\u{11D02}\n\
MASARAM GONDI LETTER II:\u{11D03}\n\
MASARAM GONDI LETTER U:\u{11D04}\n\
MASARAM GONDI LETTER UU:\u{11D05}\n\
MASARAM GONDI LETTER E:\u{11D06}\n\
MASARAM GONDI LETTER AI:\u{11D08}\n\
MASARAM GONDI LETTER O:\u{11D09}\n\
MASARAM GONDI LETTER AU:\u{11D0B}\n\
MASARAM GONDI LETTER KA:\u{11D0C}\n\
MASARAM GONDI LETTER KHA:\u{11D0D}\n\
MASARAM GONDI LETTER GA:\u{11D0E}\n\
MASARAM GONDI LETTER GHA:\u{11D0F}\n\
MASARAM GONDI LETTER NGA:\u{11D10}\n\
MASARAM GONDI LETTER CA:\u{11D11}\n\
MASARAM GONDI LETTER CHA:\u{11D12}\n\
MASARAM GONDI LETTER JA:\u{11D13}\n\
MASARAM GONDI LETTER JHA:\u{11D14}\n\
MASARAM GONDI LETTER NYA:\u{11D15}\n\
MASARAM GONDI LETTER TTA:\u{11D16}\n\
MASARAM GONDI LETTER TTHA:\u{11D17}\n\
MASARAM GONDI LETTER DDA:\u{11D18}\n\
MASARAM GONDI LETTER DDHA:\u{11D19}\n\
MASARAM GONDI LETTER NNA:\u{11D1A}\n\
MASARAM GONDI LETTER TA:\u{11D1B}\n\
MASARAM GONDI LETTER THA:\u{11D1C}\n\
MASARAM GONDI LETTER DA:\u{11D1D}\n\
MASARAM GONDI LETTER DHA:\u{11D1E}\n\
MASARAM GONDI LETTER NA:\u{11D1F}\n\
MASARAM GONDI LETTER PA:\u{11D20}\n\
MASARAM GONDI LETTER PHA:\u{11D21}\n\
MASARAM GONDI LETTER BA:\u{11D22}\n\
MASARAM GONDI LETTER BHA:\u{11D23}\n\
MASARAM GONDI LETTER MA:\u{11D24}\n\
MASARAM GONDI LETTER YA:\u{11D25}\n\
MASARAM GONDI LETTER RA:\u{11D26}\n\
MASARAM GONDI LETTER LA:\u{11D27}\n\
MASARAM GONDI LETTER VA:\u{11D28}\n\
MASARAM GONDI LETTER SHA:\u{11D29}\n\
MASARAM GONDI LETTER SSA:\u{11D2A}\n\
MASARAM GONDI LETTER SA:\u{11D2B}\n\
MASARAM GONDI LETTER HA:\u{11D2C}\n\
MASARAM GONDI LETTER LLA:\u{11D2D}\n\
MASARAM GONDI LETTER KSSA:\u{11D2E}\n\
MASARAM GONDI LETTER JNYA:\u{11D2F}\n\
MASARAM GONDI LETTER TRA:\u{11D30}\n\
MASARAM GONDI VOWEL SIGN AA:\u{11D31}\n\
MASARAM GONDI VOWEL SIGN I:\u{11D32}\n\
MASARAM GONDI VOWEL SIGN II:\u{11D33}\n\
MASARAM GONDI VOWEL SIGN U:\u{11D34}\n\
MASARAM GONDI VOWEL SIGN UU:\u{11D35}\n\
MASARAM GONDI VOWEL SIGN VOCALIC R:\u{11D36}\n\
MASARAM GONDI VOWEL SIGN E:\u{11D3A}\n\
MASARAM GONDI VOWEL SIGN AI:\u{11D3C}\n\
MASARAM GONDI VOWEL SIGN O:\u{11D3D}\n\
MASARAM GONDI VOWEL SIGN AU:\u{11D3F}\n\
MASARAM GONDI SIGN ANUSVARA:\u{11D40}\n\
MASARAM GONDI SIGN VISARGA:\u{11D41}\n\
MASARAM GONDI SIGN NUKTA:\u{11D42}\n\
MASARAM GONDI SIGN CANDRA:\u{11D43}\n\
MASARAM GONDI SIGN HALANTA:\u{11D44}\n\
MASARAM GONDI VIRAMA:\u{11D45}\n\
MASARAM GONDI REPHA:\u{11D46}\n\
MASARAM GONDI RA-KARA:\u{11D47}\n";

pub const NAMES_53: &'static str = "MASARAM GONDI DIGIT ZERO:\u{11D50}\n\
MASARAM GONDI DIGIT ONE:\u{11D51}\n\
MASARAM GONDI DIGIT TWO:\u{11D52}\n\
MASARAM GONDI DIGIT THREE:\u{11D53}\n\
MASARAM GONDI DIGIT FOUR:\u{11D54}\n\
MASARAM GONDI DIGIT FIVE:\u{11D55}\n\
MASARAM GONDI DIGIT SIX:\u{11D56}\n\
MASARAM GONDI DIGIT SEVEN:\u{11D57}\n\
MASARAM GONDI DIGIT EIGHT:\u{11D58}\n\
MASARAM GONDI DIGIT NINE:\u{11D59}\n\
GUNJALA GONDI LETTER A:\u{11D60}\n\
GUNJALA GONDI LETTER AA:\u{11D61}\n\
GUNJALA GONDI LETTER I:\u{11D62}\n\
GUNJALA GONDI LETTER II:\u{11D63}\n\
GUNJALA GONDI LETTER U:\u{11D64}\n\
GUNJALA GONDI LETTER UU:\u{11D65}\n\
GUNJALA GONDI LETTER EE:\u{11D67}\n\
GUNJALA GONDI LETTER AI:\u{11D68}\n\
GUNJALA GONDI LETTER OO:\u{11D6A}\n\
GUNJALA GONDI LETTER AU:\u{11D6B}\n\
GUNJALA GONDI LETTER YA:\u{11D6C}\n\
GUNJALA GONDI LETTER VA:\u{11D6D}\n\
GUNJALA GONDI LETTER BA:\u{11D6E}\n\
GUNJALA GONDI LETTER BHA:\u{11D6F}\n\
GUNJALA GONDI LETTER MA:\u{11D70}\n\
GUNJALA GONDI LETTER KA:\u{11D71}\n\
GUNJALA GONDI LETTER KHA:\u{11D72}\n\
GUNJALA GONDI LETTER TA:\u{11D73}\n\
GUNJALA GONDI LETTER THA:\u{11D74}\n\
GUNJALA GONDI LETTER LA:\u{11D75}\n\
GUNJALA GONDI LETTER GA:\u{11D76}\n\
GUNJALA GONDI LETTER GHA:\u{11D77}\n\
GUNJALA GONDI LETTER DA:\u{11D78}\n\
GUNJALA GONDI LETTER DHA:\u{11D79}\n\
GUNJALA GONDI LETTER NA:\u{11D7A}\n\
GUNJALA GONDI LETTER CA:\u{11D7B}\n\
GUNJALA GONDI LETTER CHA:\u{11D7C}\n\
GUNJALA GONDI LETTER TTA:\u{11D7D}\n\
GUNJALA GONDI LETTER TTHA:\u{11D7E}\n\
GUNJALA GONDI LETTER LLA:\u{11D7F}\n\
GUNJALA GONDI LETTER JA:\u{11D80}\n\
GUNJALA GONDI LETTER JHA:\u{11D81}\n\
GUNJALA GONDI LETTER DDA:\u{11D82}\n\
GUNJALA GONDI LETTER DDHA:\u{11D83}\n\
GUNJALA GONDI LETTER NGA:\u{11D84}\n\
GUNJALA GONDI LETTER PA:\u{11D85}\n\
GUNJALA GONDI LETTER PHA:\u{11D86}\n\
GUNJALA GONDI LETTER HA:\u{11D87}\n\
GUNJALA GONDI LETTER RA:\u{11D88}\n\
GUNJALA GONDI LETTER SA:\u{11D89}\n\
GUNJALA GONDI VOWEL SIGN AA:\u{11D8A}\n\
GUNJALA GONDI VOWEL SIGN I:\u{11D8B}\n\
GUNJALA GONDI VOWEL SIGN II:\u{11D8C}\n\
GUNJALA GONDI VOWEL SIGN U:\u{11D8D}\n\
GUNJALA GONDI VOWEL SIGN UU:\u{11D8E}\n\
GUNJALA GONDI VOWEL SIGN EE:\u{11D90}\n\
GUNJALA GONDI VOWEL SIGN AI:\u{11D91}\n\
GUNJALA GONDI VOWEL SIGN OO:\u{11D93}\n\
GUNJALA GONDI VOWEL SIGN AU:\u{11D94}\n\
GUNJALA GONDI SIGN ANUSVARA:\u{11D95}\n\
GUNJALA GONDI SIGN VISARGA:\u{11D96}\n\
GUNJALA GONDI VIRAMA:\u{11D97}\n\
GUNJALA GONDI OM:\u{11D98}\n\
GUNJALA GONDI DIGIT ZERO:\u{11DA0}\n\
GUNJALA GONDI DIGIT ONE:\u{11DA1}\n\
GUNJALA GONDI DIGIT TWO:\u{11DA2}\n\
GUNJALA GONDI DIGIT THREE:\u{11DA3}\n\
GUNJALA GONDI DIGIT FOUR:\u{11DA4}\n\
GUNJALA GONDI DIGIT FIVE:\u{11DA5}\n\
GUNJALA GONDI DIGIT SIX:\u{11DA6}\n\
GUNJALA GONDI DIGIT SEVEN:\u{11DA7}\n\
GUNJALA GONDI DIGIT EIGHT:\u{11DA8}\n\
GUNJALA GONDI DIGIT NINE:\u{11DA9}\n\
MAKASAR LETTER KA:\u{11EE0}\n\
MAKASAR LETTER GA:\u{11EE1}\n\
MAKASAR LETTER NGA:\u{11EE2}\n\
MAKASAR LETTER PA:\u{11EE3}\n\
MAKASAR LETTER BA:\u{11EE4}\n\
MAKASAR LETTER MA:\u{11EE5}\n\
MAKASAR LETTER TA:\u{11EE6}\n\
MAKASAR LETTER DA:\u{11EE7}\n\
MAKASAR LETTER NA:\u{11EE8}\n\
MAKASAR LETTER CA:\u{11EE9}\n\
MAKASAR LETTER JA:\u{11EEA}\n\
MAKASAR LETTER NYA:\u{11EEB}\n\
MAKASAR LETTER YA:\u{11EEC}\n\
MAKASAR LETTER RA:\u{11EED}\n\
MAKASAR LETTER LA:\u{11EEE}\n\
MAKASAR LETTER VA:\u{11EEF}\n\
MAKASAR LETTER SA:\u{11EF0}\n\
MAKASAR LETTER A:\u{11EF1}\n\
MAKASAR ANGKA:\u{11EF2}\n\
MAKASAR VOWEL SIGN I:\u{11EF3}\n\
MAKASAR VOWEL SIGN U:\u{11EF4}\n\
MAKASAR VOWEL SIGN E:\u{11EF5}\n\
MAKASAR VOWEL SIGN O:\u{11EF6}\n\
MAKASAR PASSIMBANG:\u{11EF7}\n\
MAKASAR END OF SECTION:\u{11EF8}\n\
LISU LETTER YHA:\u{11FB0}\n\
TAMIL FRACTION ONE THREE-HUNDRED-AND-TWENTIETH:\u{11FC0}\n\
TAMIL FRACTION ONE ONE-HUNDRED-AND-SIXTIETH:\u{11FC1}\n\
TAMIL FRACTION ONE EIGHTIETH:\u{11FC2}\n\
TAMIL FRACTION ONE SIXTY-FOURTH:\u{11FC3}\n\
TAMIL FRACTION ONE FORTIETH:\u{11FC4}\n\
TAMIL FRACTION ONE THIRTY-SECOND:\u{11FC5}\n\
TAMIL FRACTION THREE EIGHTIETHS:\u{11FC6}\n\
TAMIL FRACTION THREE SIXTY-FOURTHS:\u{11FC7}\n\
TAMIL FRACTION ONE TWENTIETH:\u{11FC8}\n\
TAMIL FRACTION ONE SIXTEENTH-1:\u{11FC9}\n\
TAMIL FRACTION ONE SIXTEENTH-2:\u{11FCA}\n\
TAMIL FRACTION ONE TENTH:\u{11FCB}\n\
TAMIL FRACTION ONE EIGHTH:\u{11FCC}\n\
TAMIL FRACTION THREE TWENTIETHS:\u{11FCD}\n\
TAMIL FRACTION THREE SIXTEENTHS:\u{11FCE}\n\
TAMIL FRACTION ONE FIFTH:\u{11FCF}\n\
TAMIL FRACTION ONE QUARTER:\u{11FD0}\n\
TAMIL FRACTION ONE HALF-1:\u{11FD1}\n\
TAMIL FRACTION ONE HALF-2:\u{11FD2}\n\
TAMIL FRACTION THREE QUARTERS:\u{11FD3}\n\
TAMIL FRACTION DOWNSCALING FACTOR KIIZH:\u{11FD4}\n\
TAMIL SIGN NEL:\u{11FD5}\n\
TAMIL SIGN CEVITU:\u{11FD6}\n\
TAMIL SIGN AAZHAAKKU:\u{11FD7}\n\
TAMIL SIGN UZHAKKU:\u{11FD8}\n\
TAMIL SIGN MUUVUZHAKKU:\u{11FD9}\n\
TAMIL SIGN KURUNI:\u{11FDA}\n\
TAMIL SIGN PATHAKKU:\u{11FDB}\n\
TAMIL SIGN MUKKURUNI:\u{11FDC}\n\
TAMIL SIGN KAACU:\u{11FDD}\n\
TAMIL SIGN PANAM:\u{11FDE}\n\
TAMIL SIGN PON:\u{11FDF}\n\
TAMIL SIGN VARAAKAN:\u{11FE0}\n\
TAMIL SIGN PAARAM:\u{11FE1}\n\
TAMIL SIGN KUZHI:\u{11FE2}\n\
TAMIL SIGN VELI:\u{11FE3}\n\
TAMIL WET CULTIVATION SIGN:\u{11FE4}\n\
TAMIL DRY CULTIVATION SIGN:\u{11FE5}\n\
TAMIL LAND SIGN:\u{11FE6}\n\
TAMIL SALT PAN SIGN:\u{11FE7}\n\
TAMIL TRADITIONAL CREDIT SIGN:\u{11FE8}\n\
TAMIL TRADITIONAL NUMBER SIGN:\u{11FE9}\n\
TAMIL CURRENT SIGN:\u{11FEA}\n\
TAMIL AND ODD SIGN:\u{11FEB}\n\
TAMIL SPENT SIGN:\u{11FEC}\n\
TAMIL TOTAL SIGN:\u{11FED}\n\
TAMIL IN POSSESSION SIGN:\u{11FEE}\n\
TAMIL STARTING FROM SIGN:\u{11FEF}\n\
TAMIL SIGN MUTHALIYA:\u{11FF0}\n\
TAMIL SIGN VAKAIYARAA:\u{11FF1}\n\
TAMIL PUNCTUATION END OF TEXT:\u{11FFF}\n\
CUNEIFORM SIGN A:\u{12000}\n\
CUNEIFORM SIGN A TIMES A:\u{12001}\n\
CUNEIFORM SIGN A TIMES BAD:\u{12002}\n\
CUNEIFORM SIGN A TIMES GAN2 TENU:\u{12003}\n\
CUNEIFORM SIGN A TIMES HA:\u{12004}\n\
CUNEIFORM SIGN A TIMES IGI:\u{12005}\n\
CUNEIFORM SIGN A TIMES LAGAR GUNU:\u{12006}\n\
CUNEIFORM SIGN A TIMES MUSH:\u{12007}\n\
CUNEIFORM SIGN A TIMES SAG:\u{12008}\n\
CUNEIFORM SIGN A2:\u{12009}\n\
CUNEIFORM SIGN AB:\u{1200A}\n\
CUNEIFORM SIGN AB TIMES ASH2:\u{1200B}\n\
CUNEIFORM SIGN AB TIMES DUN3 GUNU:\u{1200C}\n\
CUNEIFORM SIGN AB TIMES GAL:\u{1200D}\n\
CUNEIFORM SIGN AB TIMES GAN2 TENU:\u{1200E}\n\
CUNEIFORM SIGN AB TIMES HA:\u{1200F}\n\
CUNEIFORM SIGN AB TIMES IGI GUNU:\u{12010}\n\
CUNEIFORM SIGN AB TIMES IMIN:\u{12011}\n\
CUNEIFORM SIGN AB TIMES LAGAB:\u{12012}\n\
CUNEIFORM SIGN AB TIMES SHESH:\u{12013}\n\
CUNEIFORM SIGN AB TIMES U PLUS U PLUS U:\u{12014}\n\
CUNEIFORM SIGN AB GUNU:\u{12015}\n\
CUNEIFORM SIGN AB2:\u{12016}\n\
CUNEIFORM SIGN AB2 TIMES BALAG:\u{12017}\n\
CUNEIFORM SIGN AB2 TIMES GAN2 TENU:\u{12018}\n\
CUNEIFORM SIGN AB2 TIMES ME PLUS EN:\u{12019}\n\
CUNEIFORM SIGN AB2 TIMES SHA3:\u{1201A}\n\
CUNEIFORM SIGN AB2 TIMES TAK4:\u{1201B}\n\
CUNEIFORM SIGN AD:\u{1201C}\n\
CUNEIFORM SIGN AK:\u{1201D}\n\
CUNEIFORM SIGN AK TIMES ERIN2:\u{1201E}\n\
CUNEIFORM SIGN AK TIMES SHITA PLUS GISH:\u{1201F}\n\
CUNEIFORM SIGN AL:\u{12020}\n\
CUNEIFORM SIGN AL TIMES AL:\u{12021}\n\
CUNEIFORM SIGN AL TIMES DIM2:\u{12022}\n\
CUNEIFORM SIGN AL TIMES GISH:\u{12023}\n\
CUNEIFORM SIGN AL TIMES HA:\u{12024}\n\
CUNEIFORM SIGN AL TIMES KAD3:\u{12025}\n\
CUNEIFORM SIGN AL TIMES KI:\u{12026}\n\
CUNEIFORM SIGN AL TIMES SHE:\u{12027}\n\
CUNEIFORM SIGN AL TIMES USH:\u{12028}\n\
CUNEIFORM SIGN ALAN:\u{12029}\n\
CUNEIFORM SIGN ALEPH:\u{1202A}\n\
CUNEIFORM SIGN AMAR:\u{1202B}\n\
CUNEIFORM SIGN AMAR TIMES SHE:\u{1202C}\n\
CUNEIFORM SIGN AN:\u{1202D}\n\
CUNEIFORM SIGN AN OVER AN:\u{1202E}\n\
CUNEIFORM SIGN AN THREE TIMES:\u{1202F}\n\
CUNEIFORM SIGN AN PLUS NAGA OPPOSING AN PLUS NAGA:\u{12030}\n\
CUNEIFORM SIGN AN PLUS NAGA SQUARED:\u{12031}\n\
CUNEIFORM SIGN ANSHE:\u{12032}\n\
CUNEIFORM SIGN APIN:\u{12033}\n\
CUNEIFORM SIGN ARAD:\u{12034}\n\
CUNEIFORM SIGN ARAD TIMES KUR:\u{12035}\n\
CUNEIFORM SIGN ARKAB:\u{12036}\n\
CUNEIFORM SIGN ASAL2:\u{12037}\n\
CUNEIFORM SIGN ASH:\u{12038}\n\
CUNEIFORM SIGN ASH ZIDA TENU:\u{12039}\n\
CUNEIFORM SIGN ASH KABA TENU:\u{1203A}\n\
CUNEIFORM SIGN ASH OVER ASH TUG2 OVER TUG2 TUG2 OVER TUG2 PAP:\u{1203B}\n\
CUNEIFORM SIGN ASH OVER ASH OVER ASH:\u{1203C}\n\
CUNEIFORM SIGN ASH OVER ASH OVER ASH CROSSING ASH OVER ASH OVER ASH:\u{1203D}\n\
CUNEIFORM SIGN ASH2:\u{1203E}\n\
CUNEIFORM SIGN ASHGAB:\u{1203F}\n\
CUNEIFORM SIGN BA:\u{12040}\n\
CUNEIFORM SIGN BAD:\u{12041}\n\
CUNEIFORM SIGN BAG3:\u{12042}\n\
CUNEIFORM SIGN BAHAR2:\u{12043}\n\
CUNEIFORM SIGN BAL:\u{12044}\n\
CUNEIFORM SIGN BAL OVER BAL:\u{12045}\n\
CUNEIFORM SIGN BALAG:\u{12046}\n\
CUNEIFORM SIGN BAR:\u{12047}\n\
CUNEIFORM SIGN BARA2:\u{12048}\n\
CUNEIFORM SIGN BI:\u{12049}\n\
CUNEIFORM SIGN BI TIMES A:\u{1204A}\n\
CUNEIFORM SIGN BI TIMES GAR:\u{1204B}\n\
CUNEIFORM SIGN BI TIMES IGI GUNU:\u{1204C}\n\
CUNEIFORM SIGN BU:\u{1204D}\n\
CUNEIFORM SIGN BU OVER BU AB:\u{1204E}\n\
CUNEIFORM SIGN BU OVER BU UN:\u{1204F}\n\
CUNEIFORM SIGN BU CROSSING BU:\u{12050}\n\
CUNEIFORM SIGN BULUG:\u{12051}\n\
CUNEIFORM SIGN BULUG OVER BULUG:\u{12052}\n\
CUNEIFORM SIGN BUR:\u{12053}\n\
CUNEIFORM SIGN BUR2:\u{12054}\n\
CUNEIFORM SIGN DA:\u{12055}\n\
CUNEIFORM SIGN DAG:\u{12056}\n\
CUNEIFORM SIGN DAG KISIM5 TIMES A PLUS MASH:\u{12057}\n\
CUNEIFORM SIGN DAG KISIM5 TIMES AMAR:\u{12058}\n\
CUNEIFORM SIGN DAG KISIM5 TIMES BALAG:\u{12059}\n\
CUNEIFORM SIGN DAG KISIM5 TIMES BI:\u{1205A}\n\
CUNEIFORM SIGN DAG KISIM5 TIMES GA:\u{1205B}\n\
CUNEIFORM SIGN DAG KISIM5 TIMES GA PLUS MASH:\u{1205C}\n\
CUNEIFORM SIGN DAG KISIM5 TIMES GI:\u{1205D}\n\
CUNEIFORM SIGN DAG KISIM5 TIMES GIR2:\u{1205E}\n\
CUNEIFORM SIGN DAG KISIM5 TIMES GUD:\u{1205F}\n\
CUNEIFORM SIGN DAG KISIM5 TIMES HA:\u{12060}\n\
CUNEIFORM SIGN DAG KISIM5 TIMES IR:\u{12061}\n\
CUNEIFORM SIGN DAG KISIM5 TIMES IR PLUS LU:\u{12062}\n\
CUNEIFORM SIGN DAG KISIM5 TIMES KAK:\u{12063}\n\
CUNEIFORM SIGN DAG KISIM5 TIMES LA:\u{12064}\n\
CUNEIFORM SIGN DAG KISIM5 TIMES LU:\u{12065}\n\
CUNEIFORM SIGN DAG KISIM5 TIMES LU PLUS MASH2:\u{12066}\n\
CUNEIFORM SIGN DAG KISIM5 TIMES LUM:\u{12067}\n\
CUNEIFORM SIGN DAG KISIM5 TIMES NE:\u{12068}\n\
CUNEIFORM SIGN DAG KISIM5 TIMES PAP PLUS PAP:\u{12069}\n\
CUNEIFORM SIGN DAG KISIM5 TIMES SI:\u{1206A}\n\
CUNEIFORM SIGN DAG KISIM5 TIMES TAK4:\u{1206B}\n\
CUNEIFORM SIGN DAG KISIM5 TIMES U2 PLUS GIR2:\u{1206C}\n\
CUNEIFORM SIGN DAG KISIM5 TIMES USH:\u{1206D}\n\
CUNEIFORM SIGN DAM:\u{1206E}\n\
CUNEIFORM SIGN DAR:\u{1206F}\n\
CUNEIFORM SIGN DARA3:\u{12070}\n\
CUNEIFORM SIGN DARA4:\u{12071}\n\
CUNEIFORM SIGN DI:\u{12072}\n\
CUNEIFORM SIGN DIB:\u{12073}\n\
CUNEIFORM SIGN DIM:\u{12074}\n\
CUNEIFORM SIGN DIM TIMES SHE:\u{12075}\n\
CUNEIFORM SIGN DIM2:\u{12076}\n\
CUNEIFORM SIGN DIN:\u{12077}\n\
CUNEIFORM SIGN DIN KASKAL U GUNU DISH:\u{12078}\n\
CUNEIFORM SIGN DISH:\u{12079}\n\
CUNEIFORM SIGN DU:\u{1207A}\n\
CUNEIFORM SIGN DU OVER DU:\u{1207B}\n\
CUNEIFORM SIGN DU GUNU:\u{1207C}\n\
CUNEIFORM SIGN DU SHESHIG:\u{1207D}\n\
CUNEIFORM SIGN DUB:\u{1207E}\n\
CUNEIFORM SIGN DUB TIMES ESH2:\u{1207F}\n\
CUNEIFORM SIGN DUB2:\u{12080}\n\
CUNEIFORM SIGN DUG:\u{12081}\n\
CUNEIFORM SIGN DUGUD:\u{12082}\n\
CUNEIFORM SIGN DUH:\u{12083}\n\
CUNEIFORM SIGN DUN:\u{12084}\n\
CUNEIFORM SIGN DUN3:\u{12085}\n\
CUNEIFORM SIGN DUN3 GUNU:\u{12086}\n\
CUNEIFORM SIGN DUN3 GUNU GUNU:\u{12087}\n\
CUNEIFORM SIGN DUN4:\u{12088}\n\
CUNEIFORM SIGN DUR2:\u{12089}\n\
CUNEIFORM SIGN E:\u{1208A}\n\
CUNEIFORM SIGN E TIMES PAP:\u{1208B}\n\
CUNEIFORM SIGN E OVER E NUN OVER NUN:\u{1208C}\n\
CUNEIFORM SIGN E2:\u{1208D}\n\
CUNEIFORM SIGN E2 TIMES A PLUS HA PLUS DA:\u{1208E}\n\
CUNEIFORM SIGN E2 TIMES GAR:\u{1208F}\n\
CUNEIFORM SIGN E2 TIMES MI:\u{12090}\n\
CUNEIFORM SIGN E2 TIMES SAL:\u{12091}\n\
CUNEIFORM SIGN E2 TIMES SHE:\u{12092}\n\
CUNEIFORM SIGN E2 TIMES U:\u{12093}\n\
CUNEIFORM SIGN EDIN:\u{12094}\n\
CUNEIFORM SIGN EGIR:\u{12095}\n\
CUNEIFORM SIGN EL:\u{12096}\n\
CUNEIFORM SIGN EN:\u{12097}\n\
CUNEIFORM SIGN EN TIMES GAN2:\u{12098}\n\
CUNEIFORM SIGN EN TIMES GAN2 TENU:\u{12099}\n\
CUNEIFORM SIGN EN TIMES ME:\u{1209A}\n\
CUNEIFORM SIGN EN CROSSING EN:\u{1209B}\n\
CUNEIFORM SIGN EN OPPOSING EN:\u{1209C}\n\
CUNEIFORM SIGN EN SQUARED:\u{1209D}\n\
CUNEIFORM SIGN EREN:\u{1209E}\n\
CUNEIFORM SIGN ERIN2:\u{1209F}\n\
CUNEIFORM SIGN ESH2:\u{120A0}\n\
CUNEIFORM SIGN EZEN:\u{120A1}\n\
CUNEIFORM SIGN EZEN TIMES A:\u{120A2}\n\
CUNEIFORM SIGN EZEN TIMES A PLUS LAL:\u{120A3}\n\
CUNEIFORM SIGN EZEN TIMES A PLUS LAL TIMES LAL:\u{120A4}\n\
CUNEIFORM SIGN EZEN TIMES AN:\u{120A5}\n\
CUNEIFORM SIGN EZEN TIMES BAD:\u{120A6}\n\
CUNEIFORM SIGN EZEN TIMES DUN3 GUNU:\u{120A7}\n\
CUNEIFORM SIGN EZEN TIMES DUN3 GUNU GUNU:\u{120A8}\n\
CUNEIFORM SIGN EZEN TIMES HA:\u{120A9}\n\
CUNEIFORM SIGN EZEN TIMES HA GUNU:\u{120AA}\n\
CUNEIFORM SIGN EZEN TIMES IGI GUNU:\u{120AB}\n\
CUNEIFORM SIGN EZEN TIMES KASKAL:\u{120AC}\n\
CUNEIFORM SIGN EZEN TIMES KASKAL SQUARED:\u{120AD}\n\
CUNEIFORM SIGN EZEN TIMES KU3:\u{120AE}\n\
CUNEIFORM SIGN EZEN TIMES LA:\u{120AF}\n\
CUNEIFORM SIGN EZEN TIMES LAL TIMES LAL:\u{120B0}\n\
CUNEIFORM SIGN EZEN TIMES LI:\u{120B1}\n\
CUNEIFORM SIGN EZEN TIMES LU:\u{120B2}\n\
CUNEIFORM SIGN EZEN TIMES U2:\u{120B3}\n\
CUNEIFORM SIGN EZEN TIMES UD:\u{120B4}\n\
CUNEIFORM SIGN GA:\u{120B5}\n\
CUNEIFORM SIGN GA GUNU:\u{120B6}\n\
CUNEIFORM SIGN GA2:\u{120B7}\n\
CUNEIFORM SIGN GA2 TIMES A PLUS DA PLUS HA:\u{120B8}\n\
CUNEIFORM SIGN GA2 TIMES A PLUS HA:\u{120B9}\n\
CUNEIFORM SIGN GA2 TIMES A PLUS IGI:\u{120BA}\n\
CUNEIFORM SIGN GA2 TIMES AB2 TENU PLUS TAB:\u{120BB}\n\
CUNEIFORM SIGN GA2 TIMES AN:\u{120BC}\n\
CUNEIFORM SIGN GA2 TIMES ASH:\u{120BD}\n\
CUNEIFORM SIGN GA2 TIMES ASH2 PLUS GAL:\u{120BE}\n\
CUNEIFORM SIGN GA2 TIMES BAD:\u{120BF}\n\
CUNEIFORM SIGN GA2 TIMES BAR PLUS RA:\u{120C0}\n\
CUNEIFORM SIGN GA2 TIMES BUR:\u{120C1}\n\
CUNEIFORM SIGN GA2 TIMES BUR PLUS RA:\u{120C2}\n\
CUNEIFORM SIGN GA2 TIMES DA:\u{120C3}\n\
CUNEIFORM SIGN GA2 TIMES DI:\u{120C4}\n\
CUNEIFORM SIGN GA2 TIMES DIM TIMES SHE:\u{120C5}\n\
CUNEIFORM SIGN GA2 TIMES DUB:\u{120C6}\n\
CUNEIFORM SIGN GA2 TIMES EL:\u{120C7}\n\
CUNEIFORM SIGN GA2 TIMES EL PLUS LA:\u{120C8}\n\
CUNEIFORM SIGN GA2 TIMES EN:\u{120C9}\n\
CUNEIFORM SIGN GA2 TIMES EN TIMES GAN2 TENU:\u{120CA}\n\
CUNEIFORM SIGN GA2 TIMES GAN2 TENU:\u{120CB}\n\
CUNEIFORM SIGN GA2 TIMES GAR:\u{120CC}\n\
CUNEIFORM SIGN GA2 TIMES GI:\u{120CD}\n\
CUNEIFORM SIGN GA2 TIMES GI4:\u{120CE}\n\
CUNEIFORM SIGN GA2 TIMES GI4 PLUS A:\u{120CF}\n\
CUNEIFORM SIGN GA2 TIMES GIR2 PLUS SU:\u{120D0}\n\
CUNEIFORM SIGN GA2 TIMES HA PLUS LU PLUS ESH2:\u{120D1}\n\
CUNEIFORM SIGN GA2 TIMES HAL:\u{120D2}\n\
CUNEIFORM SIGN GA2 TIMES HAL PLUS LA:\u{120D3}\n\
CUNEIFORM SIGN GA2 TIMES HI PLUS LI:\u{120D4}\n\
CUNEIFORM SIGN GA2 TIMES HUB2:\u{120D5}\n\
CUNEIFORM SIGN GA2 TIMES IGI GUNU:\u{120D6}\n\
CUNEIFORM SIGN GA2 TIMES ISH PLUS HU PLUS ASH:\u{120D7}\n\
CUNEIFORM SIGN GA2 TIMES KAK:\u{120D8}\n\
CUNEIFORM SIGN GA2 TIMES KASKAL:\u{120D9}\n\
CUNEIFORM SIGN GA2 TIMES KID:\u{120DA}\n\
CUNEIFORM SIGN GA2 TIMES KID PLUS LAL:\u{120DB}\n\
CUNEIFORM SIGN GA2 TIMES KU3 PLUS AN:\u{120DC}\n\
CUNEIFORM SIGN GA2 TIMES LA:\u{120DD}\n\
CUNEIFORM SIGN GA2 TIMES ME PLUS EN:\u{120DE}\n\
CUNEIFORM SIGN GA2 TIMES MI:\u{120DF}\n\
CUNEIFORM SIGN GA2 TIMES NUN:\u{120E0}\n";

pub const NAMES_54: &'static str = "CUNEIFORM SIGN GA2 TIMES NUN OVER NUN:\u{120E1}\n\
CUNEIFORM SIGN GA2 TIMES PA:\u{120E2}\n\
CUNEIFORM SIGN GA2 TIMES SAL:\u{120E3}\n\
CUNEIFORM SIGN GA2 TIMES SAR:\u{120E4}\n\
CUNEIFORM SIGN GA2 TIMES SHE:\u{120E5}\n\
CUNEIFORM SIGN GA2 TIMES SHE PLUS TUR:\u{120E6}\n\
CUNEIFORM SIGN GA2 TIMES SHID:\u{120E7}\n\
CUNEIFORM SIGN GA2 TIMES SUM:\u{120E8}\n\
CUNEIFORM SIGN GA2 TIMES TAK4:\u{120E9}\n\
CUNEIFORM SIGN GA2 TIMES U:\u{120EA}\n\
CUNEIFORM SIGN GA2 TIMES UD:\u{120EB}\n\
CUNEIFORM SIGN GA2 TIMES UD PLUS DU:\u{120EC}\n\
CUNEIFORM SIGN GA2 OVER GA2:\u{120ED}\n\
CUNEIFORM SIGN GABA:\u{120EE}\n\
CUNEIFORM SIGN GABA CROSSING GABA:\u{120EF}\n\
CUNEIFORM SIGN GAD:\u{120F0}\n\
CUNEIFORM SIGN GAD OVER GAD GAR OVER GAR:\u{120F1}\n\
CUNEIFORM SIGN GAL:\u{120F2}\n\
CUNEIFORM SIGN GAL GAD OVER GAD GAR OVER GAR:\u{120F3}\n\
CUNEIFORM SIGN GALAM:\u{120F4}\n\
CUNEIFORM SIGN GAM:\u{120F5}\n\
CUNEIFORM SIGN GAN:\u{120F6}\n\
CUNEIFORM SIGN GAN2:\u{120F7}\n\
CUNEIFORM SIGN GAN2 TENU:\u{120F8}\n\
CUNEIFORM SIGN GAN2 OVER GAN2:\u{120F9}\n\
CUNEIFORM SIGN GAN2 CROSSING GAN2:\u{120FA}\n\
CUNEIFORM SIGN GAR:\u{120FB}\n\
CUNEIFORM SIGN GAR3:\u{120FC}\n\
CUNEIFORM SIGN GASHAN:\u{120FD}\n\
CUNEIFORM SIGN GESHTIN:\u{120FE}\n\
CUNEIFORM SIGN GESHTIN TIMES KUR:\u{120FF}\n\
CUNEIFORM SIGN GI:\u{12100}\n\
CUNEIFORM SIGN GI TIMES E:\u{12101}\n\
CUNEIFORM SIGN GI TIMES U:\u{12102}\n\
CUNEIFORM SIGN GI CROSSING GI:\u{12103}\n\
CUNEIFORM SIGN GI4:\u{12104}\n\
CUNEIFORM SIGN GI4 OVER GI4:\u{12105}\n\
CUNEIFORM SIGN GI4 CROSSING GI4:\u{12106}\n\
CUNEIFORM SIGN GIDIM:\u{12107}\n\
CUNEIFORM SIGN GIR2:\u{12108}\n\
CUNEIFORM SIGN GIR2 GUNU:\u{12109}\n\
CUNEIFORM SIGN GIR3:\u{1210A}\n\
CUNEIFORM SIGN GIR3 TIMES A PLUS IGI:\u{1210B}\n\
CUNEIFORM SIGN GIR3 TIMES GAN2 TENU:\u{1210C}\n\
CUNEIFORM SIGN GIR3 TIMES IGI:\u{1210D}\n\
CUNEIFORM SIGN GIR3 TIMES LU PLUS IGI:\u{1210E}\n\
CUNEIFORM SIGN GIR3 TIMES PA:\u{1210F}\n\
CUNEIFORM SIGN GISAL:\u{12110}\n\
CUNEIFORM SIGN GISH:\u{12111}\n\
CUNEIFORM SIGN GISH CROSSING GISH:\u{12112}\n\
CUNEIFORM SIGN GISH TIMES BAD:\u{12113}\n\
CUNEIFORM SIGN GISH TIMES TAK4:\u{12114}\n\
CUNEIFORM SIGN GISH TENU:\u{12115}\n\
CUNEIFORM SIGN GU:\u{12116}\n\
CUNEIFORM SIGN GU CROSSING GU:\u{12117}\n\
CUNEIFORM SIGN GU2:\u{12118}\n\
CUNEIFORM SIGN GU2 TIMES KAK:\u{12119}\n\
CUNEIFORM SIGN GU2 TIMES KAK TIMES IGI GUNU:\u{1211A}\n\
CUNEIFORM SIGN GU2 TIMES NUN:\u{1211B}\n\
CUNEIFORM SIGN GU2 TIMES SAL PLUS TUG2:\u{1211C}\n\
CUNEIFORM SIGN GU2 GUNU:\u{1211D}\n\
CUNEIFORM SIGN GUD:\u{1211E}\n\
CUNEIFORM SIGN GUD TIMES A PLUS KUR:\u{1211F}\n\
CUNEIFORM SIGN GUD TIMES KUR:\u{12120}\n\
CUNEIFORM SIGN GUD OVER GUD LUGAL:\u{12121}\n\
CUNEIFORM SIGN GUL:\u{12122}\n\
CUNEIFORM SIGN GUM:\u{12123}\n\
CUNEIFORM SIGN GUM TIMES SHE:\u{12124}\n\
CUNEIFORM SIGN GUR:\u{12125}\n\
CUNEIFORM SIGN GUR7:\u{12126}\n\
CUNEIFORM SIGN GURUN:\u{12127}\n\
CUNEIFORM SIGN GURUSH:\u{12128}\n\
CUNEIFORM SIGN HA:\u{12129}\n\
CUNEIFORM SIGN HA TENU:\u{1212A}\n\
CUNEIFORM SIGN HA GUNU:\u{1212B}\n\
CUNEIFORM SIGN HAL:\u{1212C}\n\
CUNEIFORM SIGN HI:\u{1212D}\n\
CUNEIFORM SIGN HI TIMES ASH:\u{1212E}\n\
CUNEIFORM SIGN HI TIMES ASH2:\u{1212F}\n\
CUNEIFORM SIGN HI TIMES BAD:\u{12130}\n\
CUNEIFORM SIGN HI TIMES DISH:\u{12131}\n\
CUNEIFORM SIGN HI TIMES GAD:\u{12132}\n\
CUNEIFORM SIGN HI TIMES KIN:\u{12133}\n\
CUNEIFORM SIGN HI TIMES NUN:\u{12134}\n\
CUNEIFORM SIGN HI TIMES SHE:\u{12135}\n\
CUNEIFORM SIGN HI TIMES U:\u{12136}\n\
CUNEIFORM SIGN HU:\u{12137}\n\
CUNEIFORM SIGN HUB2:\u{12138}\n\
CUNEIFORM SIGN HUB2 TIMES AN:\u{12139}\n\
CUNEIFORM SIGN HUB2 TIMES HAL:\u{1213A}\n\
CUNEIFORM SIGN HUB2 TIMES KASKAL:\u{1213B}\n\
CUNEIFORM SIGN HUB2 TIMES LISH:\u{1213C}\n\
CUNEIFORM SIGN HUB2 TIMES UD:\u{1213D}\n\
CUNEIFORM SIGN HUL2:\u{1213E}\n\
CUNEIFORM SIGN I:\u{1213F}\n\
CUNEIFORM SIGN I A:\u{12140}\n\
CUNEIFORM SIGN IB:\u{12141}\n\
CUNEIFORM SIGN IDIM:\u{12142}\n\
CUNEIFORM SIGN IDIM OVER IDIM BUR:\u{12143}\n\
CUNEIFORM SIGN IDIM OVER IDIM SQUARED:\u{12144}\n\
CUNEIFORM SIGN IG:\u{12145}\n\
CUNEIFORM SIGN IGI:\u{12146}\n\
CUNEIFORM SIGN IGI DIB:\u{12147}\n\
CUNEIFORM SIGN IGI RI:\u{12148}\n\
CUNEIFORM SIGN IGI OVER IGI SHIR OVER SHIR UD OVER UD:\u{12149}\n\
CUNEIFORM SIGN IGI GUNU:\u{1214A}\n\
CUNEIFORM SIGN IL:\u{1214B}\n\
CUNEIFORM SIGN IL TIMES GAN2 TENU:\u{1214C}\n\
CUNEIFORM SIGN IL2:\u{1214D}\n\
CUNEIFORM SIGN IM:\u{1214E}\n\
CUNEIFORM SIGN IM TIMES TAK4:\u{1214F}\n\
CUNEIFORM SIGN IM CROSSING IM:\u{12150}\n\
CUNEIFORM SIGN IM OPPOSING IM:\u{12151}\n\
CUNEIFORM SIGN IM SQUARED:\u{12152}\n\
CUNEIFORM SIGN IMIN:\u{12153}\n\
CUNEIFORM SIGN IN:\u{12154}\n\
CUNEIFORM SIGN IR:\u{12155}\n\
CUNEIFORM SIGN ISH:\u{12156}\n\
CUNEIFORM SIGN KA:\u{12157}\n\
CUNEIFORM SIGN KA TIMES A:\u{12158}\n\
CUNEIFORM SIGN KA TIMES AD:\u{12159}\n\
CUNEIFORM SIGN KA TIMES AD PLUS KU3:\u{1215A}\n\
CUNEIFORM SIGN KA TIMES ASH2:\u{1215B}\n\
CUNEIFORM SIGN KA TIMES BAD:\u{1215C}\n\
CUNEIFORM SIGN KA TIMES BALAG:\u{1215D}\n\
CUNEIFORM SIGN KA TIMES BAR:\u{1215E}\n\
CUNEIFORM SIGN KA TIMES BI:\u{1215F}\n\
CUNEIFORM SIGN KA TIMES ERIN2:\u{12160}\n\
CUNEIFORM SIGN KA TIMES ESH2:\u{12161}\n\
CUNEIFORM SIGN KA TIMES GA:\u{12162}\n\
CUNEIFORM SIGN KA TIMES GAL:\u{12163}\n\
CUNEIFORM SIGN KA TIMES GAN2 TENU:\u{12164}\n\
CUNEIFORM SIGN KA TIMES GAR:\u{12165}\n\
CUNEIFORM SIGN KA TIMES GAR PLUS SHA3 PLUS A:\u{12166}\n\
CUNEIFORM SIGN KA TIMES GI:\u{12167}\n\
CUNEIFORM SIGN KA TIMES GIR2:\u{12168}\n\
CUNEIFORM SIGN KA TIMES GISH PLUS SAR:\u{12169}\n\
CUNEIFORM SIGN KA TIMES GISH CROSSING GISH:\u{1216A}\n\
CUNEIFORM SIGN KA TIMES GU:\u{1216B}\n\
CUNEIFORM SIGN KA TIMES GUR7:\u{1216C}\n\
CUNEIFORM SIGN KA TIMES IGI:\u{1216D}\n\
CUNEIFORM SIGN KA TIMES IM:\u{1216E}\n\
CUNEIFORM SIGN KA TIMES KAK:\u{1216F}\n\
CUNEIFORM SIGN KA TIMES KI:\u{12170}\n\
CUNEIFORM SIGN KA TIMES KID:\u{12171}\n\
CUNEIFORM SIGN KA TIMES LI:\u{12172}\n\
CUNEIFORM SIGN KA TIMES LU:\u{12173}\n\
CUNEIFORM SIGN KA TIMES ME:\u{12174}\n\
CUNEIFORM SIGN KA TIMES ME PLUS DU:\u{12175}\n\
CUNEIFORM SIGN KA TIMES ME PLUS GI:\u{12176}\n\
CUNEIFORM SIGN KA TIMES ME PLUS TE:\u{12177}\n\
CUNEIFORM SIGN KA TIMES MI:\u{12178}\n\
CUNEIFORM SIGN KA TIMES MI PLUS NUNUZ:\u{12179}\n\
CUNEIFORM SIGN KA TIMES NE:\u{1217A}\n\
CUNEIFORM SIGN KA TIMES NUN:\u{1217B}\n\
CUNEIFORM SIGN KA TIMES PI:\u{1217C}\n\
CUNEIFORM SIGN KA TIMES RU:\u{1217D}\n\
CUNEIFORM SIGN KA TIMES SA:\u{1217E}\n\
CUNEIFORM SIGN KA TIMES SAR:\u{1217F}\n\
CUNEIFORM SIGN KA TIMES SHA:\u{12180}\n\
CUNEIFORM SIGN KA TIMES SHE:\u{12181}\n\
CUNEIFORM SIGN KA TIMES SHID:\u{12182}\n\
CUNEIFORM SIGN KA TIMES SHU:\u{12183}\n\
CUNEIFORM SIGN KA TIMES SIG:\u{12184}\n\
CUNEIFORM SIGN KA TIMES SUHUR:\u{12185}\n\
CUNEIFORM SIGN KA TIMES TAR:\u{12186}\n\
CUNEIFORM SIGN KA TIMES U:\u{12187}\n\
CUNEIFORM SIGN KA TIMES U2:\u{12188}\n\
CUNEIFORM SIGN KA TIMES UD:\u{12189}\n\
CUNEIFORM SIGN KA TIMES UMUM TIMES PA:\u{1218A}\n\
CUNEIFORM SIGN KA TIMES USH:\u{1218B}\n\
CUNEIFORM SIGN KA TIMES ZI:\u{1218C}\n\
CUNEIFORM SIGN KA2:\u{1218D}\n\
CUNEIFORM SIGN KA2 CROSSING KA2:\u{1218E}\n\
CUNEIFORM SIGN KAB:\u{1218F}\n\
CUNEIFORM SIGN KAD2:\u{12190}\n\
CUNEIFORM SIGN KAD3:\u{12191}\n\
CUNEIFORM SIGN KAD4:\u{12192}\n\
CUNEIFORM SIGN KAD5:\u{12193}\n\
CUNEIFORM SIGN KAD5 OVER KAD5:\u{12194}\n\
CUNEIFORM SIGN KAK:\u{12195}\n\
CUNEIFORM SIGN KAK TIMES IGI GUNU:\u{12196}\n\
CUNEIFORM SIGN KAL:\u{12197}\n\
CUNEIFORM SIGN KAL TIMES BAD:\u{12198}\n\
CUNEIFORM SIGN KAL CROSSING KAL:\u{12199}\n\
CUNEIFORM SIGN KAM2:\u{1219A}\n\
CUNEIFORM SIGN KAM4:\u{1219B}\n\
CUNEIFORM SIGN KASKAL:\u{1219C}\n\
CUNEIFORM SIGN KASKAL LAGAB TIMES U OVER LAGAB TIMES U:\u{1219D}\n\
CUNEIFORM SIGN KASKAL OVER KASKAL LAGAB TIMES U OVER LAGAB TIMES U:\u{1219E}\n\
CUNEIFORM SIGN KESH2:\u{1219F}\n\
CUNEIFORM SIGN KI:\u{121A0}\n\
CUNEIFORM SIGN KI TIMES BAD:\u{121A1}\n\
CUNEIFORM SIGN KI TIMES U:\u{121A2}\n\
CUNEIFORM SIGN KI TIMES UD:\u{121A3}\n\
CUNEIFORM SIGN KID:\u{121A4}\n\
CUNEIFORM SIGN KIN:\u{121A5}\n\
CUNEIFORM SIGN KISAL:\u{121A6}\n\
CUNEIFORM SIGN KISH:\u{121A7}\n\
CUNEIFORM SIGN KISIM5:\u{121A8}\n\
CUNEIFORM SIGN KISIM5 OVER KISIM5:\u{121A9}\n\
CUNEIFORM SIGN KU:\u{121AA}\n\
CUNEIFORM SIGN KU OVER HI TIMES ASH2 KU OVER HI TIMES ASH2:\u{121AB}\n\
CUNEIFORM SIGN KU3:\u{121AC}\n\
CUNEIFORM SIGN KU4:\u{121AD}\n\
CUNEIFORM SIGN KU4 VARIANT FORM:\u{121AE}\n\
CUNEIFORM SIGN KU7:\u{121AF}\n\
CUNEIFORM SIGN KUL:\u{121B0}\n\
CUNEIFORM SIGN KUL GUNU:\u{121B1}\n\
CUNEIFORM SIGN KUN:\u{121B2}\n\
CUNEIFORM SIGN KUR:\u{121B3}\n\
CUNEIFORM SIGN KUR OPPOSING KUR:\u{121B4}\n\
CUNEIFORM SIGN KUSHU2:\u{121B5}\n\
CUNEIFORM SIGN KWU318:\u{121B6}\n\
CUNEIFORM SIGN LA:\u{121B7}\n\
CUNEIFORM SIGN LAGAB:\u{121B8}\n\
CUNEIFORM SIGN LAGAB TIMES A:\u{121B9}\n\
CUNEIFORM SIGN LAGAB TIMES A PLUS DA PLUS HA:\u{121BA}\n\
CUNEIFORM SIGN LAGAB TIMES A PLUS GAR:\u{121BB}\n\
CUNEIFORM SIGN LAGAB TIMES A PLUS LAL:\u{121BC}\n\
CUNEIFORM SIGN LAGAB TIMES AL:\u{121BD}\n\
CUNEIFORM SIGN LAGAB TIMES AN:\u{121BE}\n\
CUNEIFORM SIGN LAGAB TIMES ASH ZIDA TENU:\u{121BF}\n\
CUNEIFORM SIGN LAGAB TIMES BAD:\u{121C0}\n\
CUNEIFORM SIGN LAGAB TIMES BI:\u{121C1}\n\
CUNEIFORM SIGN LAGAB TIMES DAR:\u{121C2}\n\
CUNEIFORM SIGN LAGAB TIMES EN:\u{121C3}\n\
CUNEIFORM SIGN LAGAB TIMES GA:\u{121C4}\n\
CUNEIFORM SIGN LAGAB TIMES GAR:\u{121C5}\n\
CUNEIFORM SIGN LAGAB TIMES GUD:\u{121C6}\n\
CUNEIFORM SIGN LAGAB TIMES GUD PLUS GUD:\u{121C7}\n\
CUNEIFORM SIGN LAGAB TIMES HA:\u{121C8}\n\
CUNEIFORM SIGN LAGAB TIMES HAL:\u{121C9}\n\
CUNEIFORM SIGN LAGAB TIMES HI TIMES NUN:\u{121CA}\n\
CUNEIFORM SIGN LAGAB TIMES IGI GUNU:\u{121CB}\n\
CUNEIFORM SIGN LAGAB TIMES IM:\u{121CC}\n\
CUNEIFORM SIGN LAGAB TIMES IM PLUS HA:\u{121CD}\n\
CUNEIFORM SIGN LAGAB TIMES IM PLUS LU:\u{121CE}\n\
CUNEIFORM SIGN LAGAB TIMES KI:\u{121CF}\n\
CUNEIFORM SIGN LAGAB TIMES KIN:\u{121D0}\n\
CUNEIFORM SIGN LAGAB TIMES KU3:\u{121D1}\n\
CUNEIFORM SIGN LAGAB TIMES KUL:\u{121D2}\n\
CUNEIFORM SIGN LAGAB TIMES KUL PLUS HI PLUS A:\u{121D3}\n\
CUNEIFORM SIGN LAGAB TIMES LAGAB:\u{121D4}\n\
CUNEIFORM SIGN LAGAB TIMES LISH:\u{121D5}\n\
CUNEIFORM SIGN LAGAB TIMES LU:\u{121D6}\n\
CUNEIFORM SIGN LAGAB TIMES LUL:\u{121D7}\n\
CUNEIFORM SIGN LAGAB TIMES ME:\u{121D8}\n\
CUNEIFORM SIGN LAGAB TIMES ME PLUS EN:\u{121D9}\n\
CUNEIFORM SIGN LAGAB TIMES MUSH:\u{121DA}\n\
CUNEIFORM SIGN LAGAB TIMES NE:\u{121DB}\n\
CUNEIFORM SIGN LAGAB TIMES SHE PLUS SUM:\u{121DC}\n\
CUNEIFORM SIGN LAGAB TIMES SHITA PLUS GISH PLUS ERIN2:\u{121DD}\n\
CUNEIFORM SIGN LAGAB TIMES SHITA PLUS GISH TENU:\u{121DE}\n\
CUNEIFORM SIGN LAGAB TIMES SHU2:\u{121DF}\n\
CUNEIFORM SIGN LAGAB TIMES SHU2 PLUS SHU2:\u{121E0}\n\
CUNEIFORM SIGN LAGAB TIMES SUM:\u{121E1}\n\
CUNEIFORM SIGN LAGAB TIMES TAG:\u{121E2}\n\
CUNEIFORM SIGN LAGAB TIMES TAK4:\u{121E3}\n\
CUNEIFORM SIGN LAGAB TIMES TE PLUS A PLUS SU PLUS NA:\u{121E4}\n\
CUNEIFORM SIGN LAGAB TIMES U:\u{121E5}\n\
CUNEIFORM SIGN LAGAB TIMES U PLUS A:\u{121E6}\n\
CUNEIFORM SIGN LAGAB TIMES U PLUS U PLUS U:\u{121E7}\n\
CUNEIFORM SIGN LAGAB TIMES U2 PLUS ASH:\u{121E8}\n\
CUNEIFORM SIGN LAGAB TIMES UD:\u{121E9}\n\
CUNEIFORM SIGN LAGAB TIMES USH:\u{121EA}\n\
CUNEIFORM SIGN LAGAB SQUARED:\u{121EB}\n\
CUNEIFORM SIGN LAGAR:\u{121EC}\n\
CUNEIFORM SIGN LAGAR TIMES SHE:\u{121ED}\n\
CUNEIFORM SIGN LAGAR TIMES SHE PLUS SUM:\u{121EE}\n\
CUNEIFORM SIGN LAGAR GUNU:\u{121EF}\n\
CUNEIFORM SIGN LAGAR GUNU OVER LAGAR GUNU SHE:\u{121F0}\n\
CUNEIFORM SIGN LAHSHU:\u{121F1}\n\
CUNEIFORM SIGN LAL:\u{121F2}\n\
CUNEIFORM SIGN LAL TIMES LAL:\u{121F3}\n\
CUNEIFORM SIGN LAM:\u{121F4}\n\
CUNEIFORM SIGN LAM TIMES KUR:\u{121F5}\n\
CUNEIFORM SIGN LAM TIMES KUR PLUS RU:\u{121F6}\n\
CUNEIFORM SIGN LI:\u{121F7}\n\
CUNEIFORM SIGN LIL:\u{121F8}\n\
CUNEIFORM SIGN LIMMU2:\u{121F9}\n\
CUNEIFORM SIGN LISH:\u{121FA}\n\
CUNEIFORM SIGN LU:\u{121FB}\n\
CUNEIFORM SIGN LU TIMES BAD:\u{121FC}\n\
CUNEIFORM SIGN LU2:\u{121FD}\n\
CUNEIFORM SIGN LU2 TIMES AL:\u{121FE}\n\
CUNEIFORM SIGN LU2 TIMES BAD:\u{121FF}\n\
CUNEIFORM SIGN LU2 TIMES ESH2:\u{12200}\n\
CUNEIFORM SIGN LU2 TIMES ESH2 TENU:\u{12201}\n\
CUNEIFORM SIGN LU2 TIMES GAN2 TENU:\u{12202}\n\
CUNEIFORM SIGN LU2 TIMES HI TIMES BAD:\u{12203}\n\
CUNEIFORM SIGN LU2 TIMES IM:\u{12204}\n\
CUNEIFORM SIGN LU2 TIMES KAD2:\u{12205}\n\
CUNEIFORM SIGN LU2 TIMES KAD3:\u{12206}\n\
CUNEIFORM SIGN LU2 TIMES KAD3 PLUS ASH:\u{12207}\n\
CUNEIFORM SIGN LU2 TIMES KI:\u{12208}\n\
CUNEIFORM SIGN LU2 TIMES LA PLUS ASH:\u{12209}\n\
CUNEIFORM SIGN LU2 TIMES LAGAB:\u{1220A}\n\
CUNEIFORM SIGN LU2 TIMES ME PLUS EN:\u{1220B}\n\
CUNEIFORM SIGN LU2 TIMES NE:\u{1220C}\n\
CUNEIFORM SIGN LU2 TIMES NU:\u{1220D}\n\
CUNEIFORM SIGN LU2 TIMES SI PLUS ASH:\u{1220E}\n\
CUNEIFORM SIGN LU2 TIMES SIK2 PLUS BU:\u{1220F}\n\
CUNEIFORM SIGN LU2 TIMES TUG2:\u{12210}\n\
CUNEIFORM SIGN LU2 TENU:\u{12211}\n\
CUNEIFORM SIGN LU2 CROSSING LU2:\u{12212}\n\
CUNEIFORM SIGN LU2 OPPOSING LU2:\u{12213}\n\
CUNEIFORM SIGN LU2 SQUARED:\u{12214}\n\
CUNEIFORM SIGN LU2 SHESHIG:\u{12215}\n\
CUNEIFORM SIGN LU3:\u{12216}\n\
CUNEIFORM SIGN LUGAL:\u{12217}\n\
CUNEIFORM SIGN LUGAL OVER LUGAL:\u{12218}\n\
CUNEIFORM SIGN LUGAL OPPOSING LUGAL:\u{12219}\n\
CUNEIFORM SIGN LUGAL SHESHIG:\u{1221A}\n\
CUNEIFORM SIGN LUH:\u{1221B}\n\
CUNEIFORM SIGN LUL:\u{1221C}\n\
CUNEIFORM SIGN LUM:\u{1221D}\n\
CUNEIFORM SIGN LUM OVER LUM:\u{1221E}\n\
CUNEIFORM SIGN LUM OVER LUM GAR OVER GAR:\u{1221F}\n\
CUNEIFORM SIGN MA:\u{12220}\n\
CUNEIFORM SIGN MA TIMES TAK4:\u{12221}\n\
CUNEIFORM SIGN MA GUNU:\u{12222}\n\
CUNEIFORM SIGN MA2:\u{12223}\n\
CUNEIFORM SIGN MAH:\u{12224}\n\
CUNEIFORM SIGN MAR:\u{12225}\n\
CUNEIFORM SIGN MASH:\u{12226}\n\
CUNEIFORM SIGN MASH2:\u{12227}\n\
CUNEIFORM SIGN ME:\u{12228}\n\
CUNEIFORM SIGN MES:\u{12229}\n\
CUNEIFORM SIGN MI:\u{1222A}\n\
CUNEIFORM SIGN MIN:\u{1222B}\n\
CUNEIFORM SIGN MU:\u{1222C}\n\
CUNEIFORM SIGN MU OVER MU:\u{1222D}\n\
CUNEIFORM SIGN MUG:\u{1222E}\n\
CUNEIFORM SIGN MUG GUNU:\u{1222F}\n\
CUNEIFORM SIGN MUNSUB:\u{12230}\n\
CUNEIFORM SIGN MURGU2:\u{12231}\n\
CUNEIFORM SIGN MUSH:\u{12232}\n\
CUNEIFORM SIGN MUSH TIMES A:\u{12233}\n\
CUNEIFORM SIGN MUSH TIMES KUR:\u{12234}\n\
CUNEIFORM SIGN MUSH TIMES ZA:\u{12235}\n\
CUNEIFORM SIGN MUSH OVER MUSH:\u{12236}\n\
CUNEIFORM SIGN MUSH OVER MUSH TIMES A PLUS NA:\u{12237}\n\
CUNEIFORM SIGN MUSH CROSSING MUSH:\u{12238}\n\
CUNEIFORM SIGN MUSH3:\u{12239}\n\
CUNEIFORM SIGN MUSH3 TIMES A:\u{1223A}\n\
CUNEIFORM SIGN MUSH3 TIMES A PLUS DI:\u{1223B}\n\
CUNEIFORM SIGN MUSH3 TIMES DI:\u{1223C}\n\
CUNEIFORM SIGN MUSH3 GUNU:\u{1223D}\n\
CUNEIFORM SIGN NA:\u{1223E}\n\
CUNEIFORM SIGN NA2:\u{1223F}\n\
CUNEIFORM SIGN NAGA:\u{12240}\n\
CUNEIFORM SIGN NAGA INVERTED:\u{12241}\n\
CUNEIFORM SIGN NAGA TIMES SHU TENU:\u{12242}\n\
CUNEIFORM SIGN NAGA OPPOSING NAGA:\u{12243}\n\
CUNEIFORM SIGN NAGAR:\u{12244}\n\
CUNEIFORM SIGN NAM NUTILLU:\u{12245}\n\
CUNEIFORM SIGN NAM:\u{12246}\n\
CUNEIFORM SIGN NAM2:\u{12247}\n\
CUNEIFORM SIGN NE:\u{12248}\n\
CUNEIFORM SIGN NE TIMES A:\u{12249}\n\
CUNEIFORM SIGN NE TIMES UD:\u{1224A}\n\
CUNEIFORM SIGN NE SHESHIG:\u{1224B}\n\
CUNEIFORM SIGN NI:\u{1224C}\n\
CUNEIFORM SIGN NI TIMES E:\u{1224D}\n\
CUNEIFORM SIGN NI2:\u{1224E}\n\
CUNEIFORM SIGN NIM:\u{1224F}\n";

pub const NAMES_55: &'static str = "CUNEIFORM SIGN NIM TIMES GAN2 TENU:\u{12250}\n\
CUNEIFORM SIGN NIM TIMES GAR PLUS GAN2 TENU:\u{12251}\n\
CUNEIFORM SIGN NINDA2:\u{12252}\n\
CUNEIFORM SIGN NINDA2 TIMES AN:\u{12253}\n\
CUNEIFORM SIGN NINDA2 TIMES ASH:\u{12254}\n\
CUNEIFORM SIGN NINDA2 TIMES ASH PLUS ASH:\u{12255}\n\
CUNEIFORM SIGN NINDA2 TIMES GUD:\u{12256}\n\
CUNEIFORM SIGN NINDA2 TIMES ME PLUS GAN2 TENU:\u{12257}\n\
CUNEIFORM SIGN NINDA2 TIMES NE:\u{12258}\n\
CUNEIFORM SIGN NINDA2 TIMES NUN:\u{12259}\n\
CUNEIFORM SIGN NINDA2 TIMES SHE:\u{1225A}\n\
CUNEIFORM SIGN NINDA2 TIMES SHE PLUS A AN:\u{1225B}\n\
CUNEIFORM SIGN NINDA2 TIMES SHE PLUS ASH:\u{1225C}\n\
CUNEIFORM SIGN NINDA2 TIMES SHE PLUS ASH PLUS ASH:\u{1225D}\n\
CUNEIFORM SIGN NINDA2 TIMES U2 PLUS ASH:\u{1225E}\n\
CUNEIFORM SIGN NINDA2 TIMES USH:\u{1225F}\n\
CUNEIFORM SIGN NISAG:\u{12260}\n\
CUNEIFORM SIGN NU:\u{12261}\n\
CUNEIFORM SIGN NU11:\u{12262}\n\
CUNEIFORM SIGN NUN:\u{12263}\n\
CUNEIFORM SIGN NUN LAGAR TIMES GAR:\u{12264}\n\
CUNEIFORM SIGN NUN LAGAR TIMES MASH:\u{12265}\n\
CUNEIFORM SIGN NUN LAGAR TIMES SAL:\u{12266}\n\
CUNEIFORM SIGN NUN LAGAR TIMES SAL OVER NUN LAGAR TIMES SAL:\u{12267}\n\
CUNEIFORM SIGN NUN LAGAR TIMES USH:\u{12268}\n\
CUNEIFORM SIGN NUN TENU:\u{12269}\n\
CUNEIFORM SIGN NUN OVER NUN:\u{1226A}\n\
CUNEIFORM SIGN NUN CROSSING NUN:\u{1226B}\n\
CUNEIFORM SIGN NUN CROSSING NUN LAGAR OVER LAGAR:\u{1226C}\n\
CUNEIFORM SIGN NUNUZ:\u{1226D}\n\
CUNEIFORM SIGN NUNUZ AB2 TIMES ASHGAB:\u{1226E}\n\
CUNEIFORM SIGN NUNUZ AB2 TIMES BI:\u{1226F}\n\
CUNEIFORM SIGN NUNUZ AB2 TIMES DUG:\u{12270}\n\
CUNEIFORM SIGN NUNUZ AB2 TIMES GUD:\u{12271}\n\
CUNEIFORM SIGN NUNUZ AB2 TIMES IGI GUNU:\u{12272}\n\
CUNEIFORM SIGN NUNUZ AB2 TIMES KAD3:\u{12273}\n\
CUNEIFORM SIGN NUNUZ AB2 TIMES LA:\u{12274}\n\
CUNEIFORM SIGN NUNUZ AB2 TIMES NE:\u{12275}\n\
CUNEIFORM SIGN NUNUZ AB2 TIMES SILA3:\u{12276}\n\
CUNEIFORM SIGN NUNUZ AB2 TIMES U2:\u{12277}\n\
CUNEIFORM SIGN NUNUZ KISIM5 TIMES BI:\u{12278}\n\
CUNEIFORM SIGN NUNUZ KISIM5 TIMES BI U:\u{12279}\n\
CUNEIFORM SIGN PA:\u{1227A}\n\
CUNEIFORM SIGN PAD:\u{1227B}\n\
CUNEIFORM SIGN PAN:\u{1227C}\n\
CUNEIFORM SIGN PAP:\u{1227D}\n\
CUNEIFORM SIGN PESH2:\u{1227E}\n\
CUNEIFORM SIGN PI:\u{1227F}\n\
CUNEIFORM SIGN PI TIMES A:\u{12280}\n\
CUNEIFORM SIGN PI TIMES AB:\u{12281}\n\
CUNEIFORM SIGN PI TIMES BI:\u{12282}\n\
CUNEIFORM SIGN PI TIMES BU:\u{12283}\n\
CUNEIFORM SIGN PI TIMES E:\u{12284}\n\
CUNEIFORM SIGN PI TIMES I:\u{12285}\n\
CUNEIFORM SIGN PI TIMES IB:\u{12286}\n\
CUNEIFORM SIGN PI TIMES U:\u{12287}\n\
CUNEIFORM SIGN PI TIMES U2:\u{12288}\n\
CUNEIFORM SIGN PI CROSSING PI:\u{12289}\n\
CUNEIFORM SIGN PIRIG:\u{1228A}\n\
CUNEIFORM SIGN PIRIG TIMES KAL:\u{1228B}\n\
CUNEIFORM SIGN PIRIG TIMES UD:\u{1228C}\n\
CUNEIFORM SIGN PIRIG TIMES ZA:\u{1228D}\n\
CUNEIFORM SIGN PIRIG OPPOSING PIRIG:\u{1228E}\n\
CUNEIFORM SIGN RA:\u{1228F}\n\
CUNEIFORM SIGN RAB:\u{12290}\n\
CUNEIFORM SIGN RI:\u{12291}\n\
CUNEIFORM SIGN RU:\u{12292}\n\
CUNEIFORM SIGN SA:\u{12293}\n\
CUNEIFORM SIGN SAG NUTILLU:\u{12294}\n\
CUNEIFORM SIGN SAG:\u{12295}\n\
CUNEIFORM SIGN SAG TIMES A:\u{12296}\n\
CUNEIFORM SIGN SAG TIMES DU:\u{12297}\n\
CUNEIFORM SIGN SAG TIMES DUB:\u{12298}\n\
CUNEIFORM SIGN SAG TIMES HA:\u{12299}\n\
CUNEIFORM SIGN SAG TIMES KAK:\u{1229A}\n\
CUNEIFORM SIGN SAG TIMES KUR:\u{1229B}\n\
CUNEIFORM SIGN SAG TIMES LUM:\u{1229C}\n\
CUNEIFORM SIGN SAG TIMES MI:\u{1229D}\n\
CUNEIFORM SIGN SAG TIMES NUN:\u{1229E}\n\
CUNEIFORM SIGN SAG TIMES SAL:\u{1229F}\n\
CUNEIFORM SIGN SAG TIMES SHID:\u{122A0}\n\
CUNEIFORM SIGN SAG TIMES TAB:\u{122A1}\n\
CUNEIFORM SIGN SAG TIMES U2:\u{122A2}\n\
CUNEIFORM SIGN SAG TIMES UB:\u{122A3}\n\
CUNEIFORM SIGN SAG TIMES UM:\u{122A4}\n\
CUNEIFORM SIGN SAG TIMES UR:\u{122A5}\n\
CUNEIFORM SIGN SAG TIMES USH:\u{122A6}\n\
CUNEIFORM SIGN SAG OVER SAG:\u{122A7}\n\
CUNEIFORM SIGN SAG GUNU:\u{122A8}\n\
CUNEIFORM SIGN SAL:\u{122A9}\n\
CUNEIFORM SIGN SAL LAGAB TIMES ASH2:\u{122AA}\n\
CUNEIFORM SIGN SANGA2:\u{122AB}\n\
CUNEIFORM SIGN SAR:\u{122AC}\n\
CUNEIFORM SIGN SHA:\u{122AD}\n\
CUNEIFORM SIGN SHA3:\u{122AE}\n\
CUNEIFORM SIGN SHA3 TIMES A:\u{122AF}\n\
CUNEIFORM SIGN SHA3 TIMES BAD:\u{122B0}\n\
CUNEIFORM SIGN SHA3 TIMES GISH:\u{122B1}\n\
CUNEIFORM SIGN SHA3 TIMES NE:\u{122B2}\n\
CUNEIFORM SIGN SHA3 TIMES SHU2:\u{122B3}\n\
CUNEIFORM SIGN SHA3 TIMES TUR:\u{122B4}\n\
CUNEIFORM SIGN SHA3 TIMES U:\u{122B5}\n\
CUNEIFORM SIGN SHA3 TIMES U PLUS A:\u{122B6}\n\
CUNEIFORM SIGN SHA6:\u{122B7}\n\
CUNEIFORM SIGN SHAB6:\u{122B8}\n\
CUNEIFORM SIGN SHAR2:\u{122B9}\n\
CUNEIFORM SIGN SHE:\u{122BA}\n\
CUNEIFORM SIGN SHE HU:\u{122BB}\n\
CUNEIFORM SIGN SHE OVER SHE GAD OVER GAD GAR OVER GAR:\u{122BC}\n\
CUNEIFORM SIGN SHE OVER SHE TAB OVER TAB GAR OVER GAR:\u{122BD}\n\
CUNEIFORM SIGN SHEG9:\u{122BE}\n\
CUNEIFORM SIGN SHEN:\u{122BF}\n\
CUNEIFORM SIGN SHESH:\u{122C0}\n\
CUNEIFORM SIGN SHESH2:\u{122C1}\n\
CUNEIFORM SIGN SHESHLAM:\u{122C2}\n\
CUNEIFORM SIGN SHID:\u{122C3}\n\
CUNEIFORM SIGN SHID TIMES A:\u{122C4}\n\
CUNEIFORM SIGN SHID TIMES IM:\u{122C5}\n\
CUNEIFORM SIGN SHIM:\u{122C6}\n\
CUNEIFORM SIGN SHIM TIMES A:\u{122C7}\n\
CUNEIFORM SIGN SHIM TIMES BAL:\u{122C8}\n\
CUNEIFORM SIGN SHIM TIMES BULUG:\u{122C9}\n\
CUNEIFORM SIGN SHIM TIMES DIN:\u{122CA}\n\
CUNEIFORM SIGN SHIM TIMES GAR:\u{122CB}\n\
CUNEIFORM SIGN SHIM TIMES IGI:\u{122CC}\n\
CUNEIFORM SIGN SHIM TIMES IGI GUNU:\u{122CD}\n\
CUNEIFORM SIGN SHIM TIMES KUSHU2:\u{122CE}\n\
CUNEIFORM SIGN SHIM TIMES LUL:\u{122CF}\n\
CUNEIFORM SIGN SHIM TIMES MUG:\u{122D0}\n\
CUNEIFORM SIGN SHIM TIMES SAL:\u{122D1}\n\
CUNEIFORM SIGN SHINIG:\u{122D2}\n\
CUNEIFORM SIGN SHIR:\u{122D3}\n\
CUNEIFORM SIGN SHIR TENU:\u{122D4}\n\
CUNEIFORM SIGN SHIR OVER SHIR BUR OVER BUR:\u{122D5}\n\
CUNEIFORM SIGN SHITA:\u{122D6}\n\
CUNEIFORM SIGN SHU:\u{122D7}\n\
CUNEIFORM SIGN SHU OVER INVERTED SHU:\u{122D8}\n\
CUNEIFORM SIGN SHU2:\u{122D9}\n\
CUNEIFORM SIGN SHUBUR:\u{122DA}\n\
CUNEIFORM SIGN SI:\u{122DB}\n\
CUNEIFORM SIGN SI GUNU:\u{122DC}\n\
CUNEIFORM SIGN SIG:\u{122DD}\n\
CUNEIFORM SIGN SIG4:\u{122DE}\n\
CUNEIFORM SIGN SIG4 OVER SIG4 SHU2:\u{122DF}\n\
CUNEIFORM SIGN SIK2:\u{122E0}\n\
CUNEIFORM SIGN SILA3:\u{122E1}\n\
CUNEIFORM SIGN SU:\u{122E2}\n\
CUNEIFORM SIGN SU OVER SU:\u{122E3}\n\
CUNEIFORM SIGN SUD:\u{122E4}\n\
CUNEIFORM SIGN SUD2:\u{122E5}\n\
CUNEIFORM SIGN SUHUR:\u{122E6}\n\
CUNEIFORM SIGN SUM:\u{122E7}\n\
CUNEIFORM SIGN SUMASH:\u{122E8}\n\
CUNEIFORM SIGN SUR:\u{122E9}\n\
CUNEIFORM SIGN SUR9:\u{122EA}\n\
CUNEIFORM SIGN TA:\u{122EB}\n\
CUNEIFORM SIGN TA ASTERISK:\u{122EC}\n\
CUNEIFORM SIGN TA TIMES HI:\u{122ED}\n\
CUNEIFORM SIGN TA TIMES MI:\u{122EE}\n\
CUNEIFORM SIGN TA GUNU:\u{122EF}\n\
CUNEIFORM SIGN TAB:\u{122F0}\n\
CUNEIFORM SIGN TAB OVER TAB NI OVER NI DISH OVER DISH:\u{122F1}\n\
CUNEIFORM SIGN TAB SQUARED:\u{122F2}\n\
CUNEIFORM SIGN TAG:\u{122F3}\n\
CUNEIFORM SIGN TAG TIMES BI:\u{122F4}\n\
CUNEIFORM SIGN TAG TIMES GUD:\u{122F5}\n\
CUNEIFORM SIGN TAG TIMES SHE:\u{122F6}\n\
CUNEIFORM SIGN TAG TIMES SHU:\u{122F7}\n\
CUNEIFORM SIGN TAG TIMES TUG2:\u{122F8}\n\
CUNEIFORM SIGN TAG TIMES UD:\u{122F9}\n\
CUNEIFORM SIGN TAK4:\u{122FA}\n\
CUNEIFORM SIGN TAR:\u{122FB}\n\
CUNEIFORM SIGN TE:\u{122FC}\n\
CUNEIFORM SIGN TE GUNU:\u{122FD}\n\
CUNEIFORM SIGN TI:\u{122FE}\n\
CUNEIFORM SIGN TI TENU:\u{122FF}\n\
CUNEIFORM SIGN TIL:\u{12300}\n\
CUNEIFORM SIGN TIR:\u{12301}\n\
CUNEIFORM SIGN TIR TIMES TAK4:\u{12302}\n\
CUNEIFORM SIGN TIR OVER TIR:\u{12303}\n\
CUNEIFORM SIGN TIR OVER TIR GAD OVER GAD GAR OVER GAR:\u{12304}\n\
CUNEIFORM SIGN TU:\u{12305}\n\
CUNEIFORM SIGN TUG2:\u{12306}\n\
CUNEIFORM SIGN TUK:\u{12307}\n\
CUNEIFORM SIGN TUM:\u{12308}\n\
CUNEIFORM SIGN TUR:\u{12309}\n\
CUNEIFORM SIGN TUR OVER TUR ZA OVER ZA:\u{1230A}\n\
CUNEIFORM SIGN U:\u{1230B}\n\
CUNEIFORM SIGN U GUD:\u{1230C}\n\
CUNEIFORM SIGN U U U:\u{1230D}\n\
CUNEIFORM SIGN U OVER U PA OVER PA GAR OVER GAR:\u{1230E}\n\
CUNEIFORM SIGN U OVER U SUR OVER SUR:\u{1230F}\n\
CUNEIFORM SIGN U OVER U U REVERSED OVER U REVERSED:\u{12310}\n\
CUNEIFORM SIGN U2:\u{12311}\n\
CUNEIFORM SIGN UB:\u{12312}\n\
CUNEIFORM SIGN UD:\u{12313}\n\
CUNEIFORM SIGN UD KUSHU2:\u{12314}\n\
CUNEIFORM SIGN UD TIMES BAD:\u{12315}\n\
CUNEIFORM SIGN UD TIMES MI:\u{12316}\n\
CUNEIFORM SIGN UD TIMES U PLUS U PLUS U:\u{12317}\n\
CUNEIFORM SIGN UD TIMES U PLUS U PLUS U GUNU:\u{12318}\n\
CUNEIFORM SIGN UD GUNU:\u{12319}\n\
CUNEIFORM SIGN UD SHESHIG:\u{1231A}\n\
CUNEIFORM SIGN UD SHESHIG TIMES BAD:\u{1231B}\n\
CUNEIFORM SIGN UDUG:\u{1231C}\n\
CUNEIFORM SIGN UM:\u{1231D}\n\
CUNEIFORM SIGN UM TIMES LAGAB:\u{1231E}\n\
CUNEIFORM SIGN UM TIMES ME PLUS DA:\u{1231F}\n\
CUNEIFORM SIGN UM TIMES SHA3:\u{12320}\n\
CUNEIFORM SIGN UM TIMES U:\u{12321}\n\
CUNEIFORM SIGN UMBIN:\u{12322}\n\
CUNEIFORM SIGN UMUM:\u{12323}\n\
CUNEIFORM SIGN UMUM TIMES KASKAL:\u{12324}\n\
CUNEIFORM SIGN UMUM TIMES PA:\u{12325}\n\
CUNEIFORM SIGN UN:\u{12326}\n\
CUNEIFORM SIGN UN GUNU:\u{12327}\n\
CUNEIFORM SIGN UR:\u{12328}\n\
CUNEIFORM SIGN UR CROSSING UR:\u{12329}\n\
CUNEIFORM SIGN UR SHESHIG:\u{1232A}\n\
CUNEIFORM SIGN UR2:\u{1232B}\n\
CUNEIFORM SIGN UR2 TIMES A PLUS HA:\u{1232C}\n\
CUNEIFORM SIGN UR2 TIMES A PLUS NA:\u{1232D}\n\
CUNEIFORM SIGN UR2 TIMES AL:\u{1232E}\n\
CUNEIFORM SIGN UR2 TIMES HA:\u{1232F}\n\
CUNEIFORM SIGN UR2 TIMES NUN:\u{12330}\n\
CUNEIFORM SIGN UR2 TIMES U2:\u{12331}\n\
CUNEIFORM SIGN UR2 TIMES U2 PLUS ASH:\u{12332}\n\
CUNEIFORM SIGN UR2 TIMES U2 PLUS BI:\u{12333}\n\
CUNEIFORM SIGN UR4:\u{12334}\n\
CUNEIFORM SIGN URI:\u{12335}\n\
CUNEIFORM SIGN URI3:\u{12336}\n\
CUNEIFORM SIGN URU:\u{12337}\n\
CUNEIFORM SIGN URU TIMES A:\u{12338}\n\
CUNEIFORM SIGN URU TIMES ASHGAB:\u{12339}\n\
CUNEIFORM SIGN URU TIMES BAR:\u{1233A}\n\
CUNEIFORM SIGN URU TIMES DUN:\u{1233B}\n\
CUNEIFORM SIGN URU TIMES GA:\u{1233C}\n\
CUNEIFORM SIGN URU TIMES GAL:\u{1233D}\n\
CUNEIFORM SIGN URU TIMES GAN2 TENU:\u{1233E}\n\
CUNEIFORM SIGN URU TIMES GAR:\u{1233F}\n\
CUNEIFORM SIGN URU TIMES GU:\u{12340}\n\
CUNEIFORM SIGN URU TIMES HA:\u{12341}\n\
CUNEIFORM SIGN URU TIMES IGI:\u{12342}\n\
CUNEIFORM SIGN URU TIMES IM:\u{12343}\n\
CUNEIFORM SIGN URU TIMES ISH:\u{12344}\n\
CUNEIFORM SIGN URU TIMES KI:\u{12345}\n\
CUNEIFORM SIGN URU TIMES LUM:\u{12346}\n\
CUNEIFORM SIGN URU TIMES MIN:\u{12347}\n\
CUNEIFORM SIGN URU TIMES PA:\u{12348}\n\
CUNEIFORM SIGN URU TIMES SHE:\u{12349}\n\
CUNEIFORM SIGN URU TIMES SIG4:\u{1234A}\n\
CUNEIFORM SIGN URU TIMES TU:\u{1234B}\n\
CUNEIFORM SIGN URU TIMES U PLUS GUD:\u{1234C}\n\
CUNEIFORM SIGN URU TIMES UD:\u{1234D}\n\
CUNEIFORM SIGN URU TIMES URUDA:\u{1234E}\n\
CUNEIFORM SIGN URUDA:\u{1234F}\n\
CUNEIFORM SIGN URUDA TIMES U:\u{12350}\n\
CUNEIFORM SIGN USH:\u{12351}\n\
CUNEIFORM SIGN USH TIMES A:\u{12352}\n\
CUNEIFORM SIGN USH TIMES KU:\u{12353}\n\
CUNEIFORM SIGN USH TIMES KUR:\u{12354}\n\
CUNEIFORM SIGN USH TIMES TAK4:\u{12355}\n\
CUNEIFORM SIGN USHX:\u{12356}\n\
CUNEIFORM SIGN USH2:\u{12357}\n\
CUNEIFORM SIGN USHUMX:\u{12358}\n\
CUNEIFORM SIGN UTUKI:\u{12359}\n\
CUNEIFORM SIGN UZ3:\u{1235A}\n\
CUNEIFORM SIGN UZ3 TIMES KASKAL:\u{1235B}\n\
CUNEIFORM SIGN UZU:\u{1235C}\n\
CUNEIFORM SIGN ZA:\u{1235D}\n\
CUNEIFORM SIGN ZA TENU:\u{1235E}\n\
CUNEIFORM SIGN ZA SQUARED TIMES KUR:\u{1235F}\n\
CUNEIFORM SIGN ZAG:\u{12360}\n\
CUNEIFORM SIGN ZAMX:\u{12361}\n\
CUNEIFORM SIGN ZE2:\u{12362}\n\
CUNEIFORM SIGN ZI:\u{12363}\n\
CUNEIFORM SIGN ZI OVER ZI:\u{12364}\n\
CUNEIFORM SIGN ZI3:\u{12365}\n\
CUNEIFORM SIGN ZIB:\u{12366}\n\
CUNEIFORM SIGN ZIB KABA TENU:\u{12367}\n\
CUNEIFORM SIGN ZIG:\u{12368}\n\
CUNEIFORM SIGN ZIZ2:\u{12369}\n\
CUNEIFORM SIGN ZU:\u{1236A}\n\
CUNEIFORM SIGN ZU5:\u{1236B}\n\
CUNEIFORM SIGN ZU5 TIMES A:\u{1236C}\n\
CUNEIFORM SIGN ZUBUR:\u{1236D}\n\
CUNEIFORM SIGN ZUM:\u{1236E}\n\
CUNEIFORM SIGN KAP ELAMITE:\u{1236F}\n\
CUNEIFORM SIGN AB TIMES NUN:\u{12370}\n\
CUNEIFORM SIGN AB2 TIMES A:\u{12371}\n\
CUNEIFORM SIGN AMAR TIMES KUG:\u{12372}\n\
CUNEIFORM SIGN DAG KISIM5 TIMES U2 PLUS MASH:\u{12373}\n\
CUNEIFORM SIGN DAG3:\u{12374}\n\
CUNEIFORM SIGN DISH PLUS SHU:\u{12375}\n\
CUNEIFORM SIGN DUB TIMES SHE:\u{12376}\n\
CUNEIFORM SIGN EZEN TIMES GUD:\u{12377}\n\
CUNEIFORM SIGN EZEN TIMES SHE:\u{12378}\n\
CUNEIFORM SIGN GA2 TIMES AN PLUS KAK PLUS A:\u{12379}\n\
CUNEIFORM SIGN GA2 TIMES ASH2:\u{1237A}\n\
CUNEIFORM SIGN GE22:\u{1237B}\n\
CUNEIFORM SIGN GIG:\u{1237C}\n\
CUNEIFORM SIGN HUSH:\u{1237D}\n\
CUNEIFORM SIGN KA TIMES ANSHE:\u{1237E}\n\
CUNEIFORM SIGN KA TIMES ASH3:\u{1237F}\n\
CUNEIFORM SIGN KA TIMES GISH:\u{12380}\n\
CUNEIFORM SIGN KA TIMES GUD:\u{12381}\n\
CUNEIFORM SIGN KA TIMES HI TIMES ASH2:\u{12382}\n\
CUNEIFORM SIGN KA TIMES LUM:\u{12383}\n\
CUNEIFORM SIGN KA TIMES PA:\u{12384}\n\
CUNEIFORM SIGN KA TIMES SHUL:\u{12385}\n\
CUNEIFORM SIGN KA TIMES TU:\u{12386}\n\
CUNEIFORM SIGN KA TIMES UR2:\u{12387}\n\
CUNEIFORM SIGN LAGAB TIMES GI:\u{12388}\n\
CUNEIFORM SIGN LU2 SHESHIG TIMES BAD:\u{12389}\n\
CUNEIFORM SIGN LU2 TIMES ESH2 PLUS LAL:\u{1238A}\n\
CUNEIFORM SIGN LU2 TIMES SHU:\u{1238B}\n\
CUNEIFORM SIGN MESH:\u{1238C}\n\
CUNEIFORM SIGN MUSH3 TIMES ZA:\u{1238D}\n\
CUNEIFORM SIGN NA4:\u{1238E}\n\
CUNEIFORM SIGN NIN:\u{1238F}\n\
CUNEIFORM SIGN NIN9:\u{12390}\n\
CUNEIFORM SIGN NINDA2 TIMES BAL:\u{12391}\n\
CUNEIFORM SIGN NINDA2 TIMES GI:\u{12392}\n\
CUNEIFORM SIGN NU11 ROTATED NINETY DEGREES:\u{12393}\n\
CUNEIFORM SIGN PESH2 ASTERISK:\u{12394}\n\
CUNEIFORM SIGN PIR2:\u{12395}\n\
CUNEIFORM SIGN SAG TIMES IGI GUNU:\u{12396}\n\
CUNEIFORM SIGN TI2:\u{12397}\n\
CUNEIFORM SIGN UM TIMES ME:\u{12398}\n\
CUNEIFORM SIGN U U:\u{12399}\n\
CUNEIFORM NUMERIC SIGN TWO ASH:\u{12400}\n\
CUNEIFORM NUMERIC SIGN THREE ASH:\u{12401}\n\
CUNEIFORM NUMERIC SIGN FOUR ASH:\u{12402}\n\
CUNEIFORM NUMERIC SIGN FIVE ASH:\u{12403}\n\
CUNEIFORM NUMERIC SIGN SIX ASH:\u{12404}\n\
CUNEIFORM NUMERIC SIGN SEVEN ASH:\u{12405}\n\
CUNEIFORM NUMERIC SIGN EIGHT ASH:\u{12406}\n\
CUNEIFORM NUMERIC SIGN NINE ASH:\u{12407}\n\
CUNEIFORM NUMERIC SIGN THREE DISH:\u{12408}\n\
CUNEIFORM NUMERIC SIGN FOUR DISH:\u{12409}\n\
CUNEIFORM NUMERIC SIGN FIVE DISH:\u{1240A}\n\
CUNEIFORM NUMERIC SIGN SIX DISH:\u{1240B}\n\
CUNEIFORM NUMERIC SIGN SEVEN DISH:\u{1240C}\n\
CUNEIFORM NUMERIC SIGN EIGHT DISH:\u{1240D}\n\
CUNEIFORM NUMERIC SIGN NINE DISH:\u{1240E}\n\
CUNEIFORM NUMERIC SIGN FOUR U:\u{1240F}\n\
CUNEIFORM NUMERIC SIGN FIVE U:\u{12410}\n\
CUNEIFORM NUMERIC SIGN SIX U:\u{12411}\n\
CUNEIFORM NUMERIC SIGN SEVEN U:\u{12412}\n\
CUNEIFORM NUMERIC SIGN EIGHT U:\u{12413}\n\
CUNEIFORM NUMERIC SIGN NINE U:\u{12414}\n\
CUNEIFORM NUMERIC SIGN ONE GESH2:\u{12415}\n\
CUNEIFORM NUMERIC SIGN TWO GESH2:\u{12416}\n\
CUNEIFORM NUMERIC SIGN THREE GESH2:\u{12417}\n\
CUNEIFORM NUMERIC SIGN FOUR GESH2:\u{12418}\n\
CUNEIFORM NUMERIC SIGN FIVE GESH2:\u{12419}\n\
CUNEIFORM NUMERIC SIGN SIX GESH2:\u{1241A}\n\
CUNEIFORM NUMERIC SIGN SEVEN GESH2:\u{1241B}\n\
CUNEIFORM NUMERIC SIGN EIGHT GESH2:\u{1241C}\n\
CUNEIFORM NUMERIC SIGN NINE GESH2:\u{1241D}\n\
CUNEIFORM NUMERIC SIGN ONE GESHU:\u{1241E}\n\
CUNEIFORM NUMERIC SIGN TWO GESHU:\u{1241F}\n\
CUNEIFORM NUMERIC SIGN THREE GESHU:\u{12420}\n\
CUNEIFORM NUMERIC SIGN FOUR GESHU:\u{12421}\n\
CUNEIFORM NUMERIC SIGN FIVE GESHU:\u{12422}\n\
CUNEIFORM NUMERIC SIGN TWO SHAR2:\u{12423}\n";

pub const NAMES_56: &'static str = "CUNEIFORM NUMERIC SIGN THREE SHAR2:\u{12424}\n\
CUNEIFORM NUMERIC SIGN THREE SHAR2 VARIANT FORM:\u{12425}\n\
CUNEIFORM NUMERIC SIGN FOUR SHAR2:\u{12426}\n\
CUNEIFORM NUMERIC SIGN FIVE SHAR2:\u{12427}\n\
CUNEIFORM NUMERIC SIGN SIX SHAR2:\u{12428}\n\
CUNEIFORM NUMERIC SIGN SEVEN SHAR2:\u{12429}\n\
CUNEIFORM NUMERIC SIGN EIGHT SHAR2:\u{1242A}\n\
CUNEIFORM NUMERIC SIGN NINE SHAR2:\u{1242B}\n\
CUNEIFORM NUMERIC SIGN ONE SHARU:\u{1242C}\n\
CUNEIFORM NUMERIC SIGN TWO SHARU:\u{1242D}\n\
CUNEIFORM NUMERIC SIGN THREE SHARU:\u{1242E}\n\
CUNEIFORM NUMERIC SIGN THREE SHARU VARIANT FORM:\u{1242F}\n\
CUNEIFORM NUMERIC SIGN FOUR SHARU:\u{12430}\n\
CUNEIFORM NUMERIC SIGN FIVE SHARU:\u{12431}\n\
CUNEIFORM NUMERIC SIGN SHAR2 TIMES GAL PLUS DISH:\u{12432}\n\
CUNEIFORM NUMERIC SIGN SHAR2 TIMES GAL PLUS MIN:\u{12433}\n\
CUNEIFORM NUMERIC SIGN ONE BURU:\u{12434}\n\
CUNEIFORM NUMERIC SIGN TWO BURU:\u{12435}\n\
CUNEIFORM NUMERIC SIGN THREE BURU:\u{12436}\n\
CUNEIFORM NUMERIC SIGN THREE BURU VARIANT FORM:\u{12437}\n\
CUNEIFORM NUMERIC SIGN FOUR BURU:\u{12438}\n\
CUNEIFORM NUMERIC SIGN FIVE BURU:\u{12439}\n\
CUNEIFORM NUMERIC SIGN THREE VARIANT FORM ESH16:\u{1243A}\n\
CUNEIFORM NUMERIC SIGN THREE VARIANT FORM ESH21:\u{1243B}\n\
CUNEIFORM NUMERIC SIGN FOUR VARIANT FORM LIMMU:\u{1243C}\n\
CUNEIFORM NUMERIC SIGN FOUR VARIANT FORM LIMMU4:\u{1243D}\n\
CUNEIFORM NUMERIC SIGN FOUR VARIANT FORM LIMMU A:\u{1243E}\n\
CUNEIFORM NUMERIC SIGN FOUR VARIANT FORM LIMMU B:\u{1243F}\n\
CUNEIFORM NUMERIC SIGN SIX VARIANT FORM ASH9:\u{12440}\n\
CUNEIFORM NUMERIC SIGN SEVEN VARIANT FORM IMIN3:\u{12441}\n\
CUNEIFORM NUMERIC SIGN SEVEN VARIANT FORM IMIN A:\u{12442}\n\
CUNEIFORM NUMERIC SIGN SEVEN VARIANT FORM IMIN B:\u{12443}\n\
CUNEIFORM NUMERIC SIGN EIGHT VARIANT FORM USSU:\u{12444}\n\
CUNEIFORM NUMERIC SIGN EIGHT VARIANT FORM USSU3:\u{12445}\n\
CUNEIFORM NUMERIC SIGN NINE VARIANT FORM ILIMMU:\u{12446}\n\
CUNEIFORM NUMERIC SIGN NINE VARIANT FORM ILIMMU3:\u{12447}\n\
CUNEIFORM NUMERIC SIGN NINE VARIANT FORM ILIMMU4:\u{12448}\n\
CUNEIFORM NUMERIC SIGN NINE VARIANT FORM ILIMMU A:\u{12449}\n\
CUNEIFORM NUMERIC SIGN TWO ASH TENU:\u{1244A}\n\
CUNEIFORM NUMERIC SIGN THREE ASH TENU:\u{1244B}\n\
CUNEIFORM NUMERIC SIGN FOUR ASH TENU:\u{1244C}\n\
CUNEIFORM NUMERIC SIGN FIVE ASH TENU:\u{1244D}\n\
CUNEIFORM NUMERIC SIGN SIX ASH TENU:\u{1244E}\n\
CUNEIFORM NUMERIC SIGN ONE BAN2:\u{1244F}\n\
CUNEIFORM NUMERIC SIGN TWO BAN2:\u{12450}\n\
CUNEIFORM NUMERIC SIGN THREE BAN2:\u{12451}\n\
CUNEIFORM NUMERIC SIGN FOUR BAN2:\u{12452}\n\
CUNEIFORM NUMERIC SIGN FOUR BAN2 VARIANT FORM:\u{12453}\n\
CUNEIFORM NUMERIC SIGN FIVE BAN2:\u{12454}\n\
CUNEIFORM NUMERIC SIGN FIVE BAN2 VARIANT FORM:\u{12455}\n\
CUNEIFORM NUMERIC SIGN NIGIDAMIN:\u{12456}\n\
CUNEIFORM NUMERIC SIGN NIGIDAESH:\u{12457}\n\
CUNEIFORM NUMERIC SIGN ONE ESHE3:\u{12458}\n\
CUNEIFORM NUMERIC SIGN TWO ESHE3:\u{12459}\n\
CUNEIFORM NUMERIC SIGN ONE THIRD DISH:\u{1245A}\n\
CUNEIFORM NUMERIC SIGN TWO THIRDS DISH:\u{1245B}\n\
CUNEIFORM NUMERIC SIGN FIVE SIXTHS DISH:\u{1245C}\n\
CUNEIFORM NUMERIC SIGN ONE THIRD VARIANT FORM A:\u{1245D}\n\
CUNEIFORM NUMERIC SIGN TWO THIRDS VARIANT FORM A:\u{1245E}\n\
CUNEIFORM NUMERIC SIGN ONE EIGHTH ASH:\u{1245F}\n\
CUNEIFORM NUMERIC SIGN ONE QUARTER ASH:\u{12460}\n\
CUNEIFORM NUMERIC SIGN OLD ASSYRIAN ONE SIXTH:\u{12461}\n\
CUNEIFORM NUMERIC SIGN OLD ASSYRIAN ONE QUARTER:\u{12462}\n\
CUNEIFORM NUMERIC SIGN ONE QUARTER GUR:\u{12463}\n\
CUNEIFORM NUMERIC SIGN ONE HALF GUR:\u{12464}\n\
CUNEIFORM NUMERIC SIGN ELAMITE ONE THIRD:\u{12465}\n\
CUNEIFORM NUMERIC SIGN ELAMITE TWO THIRDS:\u{12466}\n\
CUNEIFORM NUMERIC SIGN ELAMITE FORTY:\u{12467}\n\
CUNEIFORM NUMERIC SIGN ELAMITE FIFTY:\u{12468}\n\
CUNEIFORM NUMERIC SIGN FOUR U VARIANT FORM:\u{12469}\n\
CUNEIFORM NUMERIC SIGN FIVE U VARIANT FORM:\u{1246A}\n\
CUNEIFORM NUMERIC SIGN SIX U VARIANT FORM:\u{1246B}\n\
CUNEIFORM NUMERIC SIGN SEVEN U VARIANT FORM:\u{1246C}\n\
CUNEIFORM NUMERIC SIGN EIGHT U VARIANT FORM:\u{1246D}\n\
CUNEIFORM NUMERIC SIGN NINE U VARIANT FORM:\u{1246E}\n\
CUNEIFORM PUNCTUATION SIGN OLD ASSYRIAN WORD DIVIDER:\u{12470}\n\
CUNEIFORM PUNCTUATION SIGN VERTICAL COLON:\u{12471}\n\
CUNEIFORM PUNCTUATION SIGN DIAGONAL COLON:\u{12472}\n\
CUNEIFORM PUNCTUATION SIGN DIAGONAL TRICOLON:\u{12473}\n\
CUNEIFORM PUNCTUATION SIGN DIAGONAL QUADCOLON:\u{12474}\n\
CUNEIFORM SIGN AB TIMES NUN TENU:\u{12480}\n\
CUNEIFORM SIGN AB TIMES SHU2:\u{12481}\n\
CUNEIFORM SIGN AD TIMES ESH2:\u{12482}\n\
CUNEIFORM SIGN BAD TIMES DISH TENU:\u{12483}\n\
CUNEIFORM SIGN BAHAR2 TIMES AB2:\u{12484}\n\
CUNEIFORM SIGN BAHAR2 TIMES NI:\u{12485}\n\
CUNEIFORM SIGN BAHAR2 TIMES ZA:\u{12486}\n\
CUNEIFORM SIGN BU OVER BU TIMES NA2:\u{12487}\n\
CUNEIFORM SIGN DA TIMES TAK4:\u{12488}\n\
CUNEIFORM SIGN DAG TIMES KUR:\u{12489}\n\
CUNEIFORM SIGN DIM TIMES IGI:\u{1248A}\n\
CUNEIFORM SIGN DIM TIMES U U U:\u{1248B}\n\
CUNEIFORM SIGN DIM2 TIMES UD:\u{1248C}\n\
CUNEIFORM SIGN DUG TIMES ANSHE:\u{1248D}\n\
CUNEIFORM SIGN DUG TIMES ASH:\u{1248E}\n\
CUNEIFORM SIGN DUG TIMES ASH AT LEFT:\u{1248F}\n\
CUNEIFORM SIGN DUG TIMES DIN:\u{12490}\n\
CUNEIFORM SIGN DUG TIMES DUN:\u{12491}\n\
CUNEIFORM SIGN DUG TIMES ERIN2:\u{12492}\n\
CUNEIFORM SIGN DUG TIMES GA:\u{12493}\n\
CUNEIFORM SIGN DUG TIMES GI:\u{12494}\n\
CUNEIFORM SIGN DUG TIMES GIR2 GUNU:\u{12495}\n\
CUNEIFORM SIGN DUG TIMES GISH:\u{12496}\n\
CUNEIFORM SIGN DUG TIMES HA:\u{12497}\n\
CUNEIFORM SIGN DUG TIMES HI:\u{12498}\n\
CUNEIFORM SIGN DUG TIMES IGI GUNU:\u{12499}\n\
CUNEIFORM SIGN DUG TIMES KASKAL:\u{1249A}\n\
CUNEIFORM SIGN DUG TIMES KUR:\u{1249B}\n\
CUNEIFORM SIGN DUG TIMES KUSHU2:\u{1249C}\n\
CUNEIFORM SIGN DUG TIMES KUSHU2 PLUS KASKAL:\u{1249D}\n\
CUNEIFORM SIGN DUG TIMES LAK-020:\u{1249E}\n\
CUNEIFORM SIGN DUG TIMES LAM:\u{1249F}\n\
CUNEIFORM SIGN DUG TIMES LAM TIMES KUR:\u{124A0}\n\
CUNEIFORM SIGN DUG TIMES LUH PLUS GISH:\u{124A1}\n\
CUNEIFORM SIGN DUG TIMES MASH:\u{124A2}\n\
CUNEIFORM SIGN DUG TIMES MES:\u{124A3}\n\
CUNEIFORM SIGN DUG TIMES MI:\u{124A4}\n\
CUNEIFORM SIGN DUG TIMES NI:\u{124A5}\n\
CUNEIFORM SIGN DUG TIMES PI:\u{124A6}\n\
CUNEIFORM SIGN DUG TIMES SHE:\u{124A7}\n\
CUNEIFORM SIGN DUG TIMES SI GUNU:\u{124A8}\n\
CUNEIFORM SIGN E2 TIMES KUR:\u{124A9}\n\
CUNEIFORM SIGN E2 TIMES PAP:\u{124AA}\n\
CUNEIFORM SIGN ERIN2 X:\u{124AB}\n\
CUNEIFORM SIGN ESH2 CROSSING ESH2:\u{124AC}\n\
CUNEIFORM SIGN EZEN SHESHIG TIMES ASH:\u{124AD}\n\
CUNEIFORM SIGN EZEN SHESHIG TIMES HI:\u{124AE}\n\
CUNEIFORM SIGN EZEN SHESHIG TIMES IGI GUNU:\u{124AF}\n\
CUNEIFORM SIGN EZEN SHESHIG TIMES LA:\u{124B0}\n\
CUNEIFORM SIGN EZEN SHESHIG TIMES LAL:\u{124B1}\n\
CUNEIFORM SIGN EZEN SHESHIG TIMES ME:\u{124B2}\n\
CUNEIFORM SIGN EZEN SHESHIG TIMES MES:\u{124B3}\n\
CUNEIFORM SIGN EZEN SHESHIG TIMES SU:\u{124B4}\n\
CUNEIFORM SIGN EZEN TIMES SU:\u{124B5}\n\
CUNEIFORM SIGN GA2 TIMES BAHAR2:\u{124B6}\n\
CUNEIFORM SIGN GA2 TIMES DIM GUNU:\u{124B7}\n\
CUNEIFORM SIGN GA2 TIMES DUG TIMES IGI GUNU:\u{124B8}\n\
CUNEIFORM SIGN GA2 TIMES DUG TIMES KASKAL:\u{124B9}\n\
CUNEIFORM SIGN GA2 TIMES EREN:\u{124BA}\n\
CUNEIFORM SIGN GA2 TIMES GA:\u{124BB}\n\
CUNEIFORM SIGN GA2 TIMES GAR PLUS DI:\u{124BC}\n\
CUNEIFORM SIGN GA2 TIMES GAR PLUS NE:\u{124BD}\n\
CUNEIFORM SIGN GA2 TIMES HA PLUS A:\u{124BE}\n\
CUNEIFORM SIGN GA2 TIMES KUSHU2 PLUS KASKAL:\u{124BF}\n\
CUNEIFORM SIGN GA2 TIMES LAM:\u{124C0}\n\
CUNEIFORM SIGN GA2 TIMES LAM TIMES KUR:\u{124C1}\n\
CUNEIFORM SIGN GA2 TIMES LUH:\u{124C2}\n\
CUNEIFORM SIGN GA2 TIMES MUSH:\u{124C3}\n\
CUNEIFORM SIGN GA2 TIMES NE:\u{124C4}\n\
CUNEIFORM SIGN GA2 TIMES NE PLUS E2:\u{124C5}\n\
CUNEIFORM SIGN GA2 TIMES NE PLUS GI:\u{124C6}\n\
CUNEIFORM SIGN GA2 TIMES SHIM:\u{124C7}\n\
CUNEIFORM SIGN GA2 TIMES ZIZ2:\u{124C8}\n\
CUNEIFORM SIGN GABA ROTATED NINETY DEGREES:\u{124C9}\n\
CUNEIFORM SIGN GESHTIN TIMES U:\u{124CA}\n\
CUNEIFORM SIGN GISH TIMES GISH CROSSING GISH:\u{124CB}\n\
CUNEIFORM SIGN GU2 TIMES IGI GUNU:\u{124CC}\n\
CUNEIFORM SIGN GUD PLUS GISH TIMES TAK4:\u{124CD}\n\
CUNEIFORM SIGN HA TENU GUNU:\u{124CE}\n\
CUNEIFORM SIGN HI TIMES ASH OVER HI TIMES ASH:\u{124CF}\n\
CUNEIFORM SIGN KA TIMES BU:\u{124D0}\n\
CUNEIFORM SIGN KA TIMES KA:\u{124D1}\n\
CUNEIFORM SIGN KA TIMES U U U:\u{124D2}\n\
CUNEIFORM SIGN KA TIMES UR:\u{124D3}\n\
CUNEIFORM SIGN LAGAB TIMES ZU OVER ZU:\u{124D4}\n\
CUNEIFORM SIGN LAK-003:\u{124D5}\n\
CUNEIFORM SIGN LAK-021:\u{124D6}\n\
CUNEIFORM SIGN LAK-025:\u{124D7}\n\
CUNEIFORM SIGN LAK-030:\u{124D8}\n\
CUNEIFORM SIGN LAK-050:\u{124D9}\n\
CUNEIFORM SIGN LAK-051:\u{124DA}\n\
CUNEIFORM SIGN LAK-062:\u{124DB}\n\
CUNEIFORM SIGN LAK-079 OVER LAK-079 GUNU:\u{124DC}\n\
CUNEIFORM SIGN LAK-080:\u{124DD}\n\
CUNEIFORM SIGN LAK-081 OVER LAK-081:\u{124DE}\n\
CUNEIFORM SIGN LAK-092:\u{124DF}\n\
CUNEIFORM SIGN LAK-130:\u{124E0}\n\
CUNEIFORM SIGN LAK-142:\u{124E1}\n\
CUNEIFORM SIGN LAK-210:\u{124E2}\n\
CUNEIFORM SIGN LAK-219:\u{124E3}\n\
CUNEIFORM SIGN LAK-220:\u{124E4}\n\
CUNEIFORM SIGN LAK-225:\u{124E5}\n\
CUNEIFORM SIGN LAK-228:\u{124E6}\n\
CUNEIFORM SIGN LAK-238:\u{124E7}\n\
CUNEIFORM SIGN LAK-265:\u{124E8}\n\
CUNEIFORM SIGN LAK-266:\u{124E9}\n\
CUNEIFORM SIGN LAK-343:\u{124EA}\n\
CUNEIFORM SIGN LAK-347:\u{124EB}\n\
CUNEIFORM SIGN LAK-348:\u{124EC}\n\
CUNEIFORM SIGN LAK-383:\u{124ED}\n\
CUNEIFORM SIGN LAK-384:\u{124EE}\n\
CUNEIFORM SIGN LAK-390:\u{124EF}\n\
CUNEIFORM SIGN LAK-441:\u{124F0}\n\
CUNEIFORM SIGN LAK-449:\u{124F1}\n\
CUNEIFORM SIGN LAK-449 TIMES GU:\u{124F2}\n\
CUNEIFORM SIGN LAK-449 TIMES IGI:\u{124F3}\n\
CUNEIFORM SIGN LAK-449 TIMES PAP PLUS LU3:\u{124F4}\n\
CUNEIFORM SIGN LAK-449 TIMES PAP PLUS PAP PLUS LU3:\u{124F5}\n\
CUNEIFORM SIGN LAK-449 TIMES U2 PLUS BA:\u{124F6}\n\
CUNEIFORM SIGN LAK-450:\u{124F7}\n\
CUNEIFORM SIGN LAK-457:\u{124F8}\n\
CUNEIFORM SIGN LAK-470:\u{124F9}\n\
CUNEIFORM SIGN LAK-483:\u{124FA}\n\
CUNEIFORM SIGN LAK-490:\u{124FB}\n\
CUNEIFORM SIGN LAK-492:\u{124FC}\n\
CUNEIFORM SIGN LAK-493:\u{124FD}\n\
CUNEIFORM SIGN LAK-495:\u{124FE}\n\
CUNEIFORM SIGN LAK-550:\u{124FF}\n\
CUNEIFORM SIGN LAK-608:\u{12500}\n\
CUNEIFORM SIGN LAK-617:\u{12501}\n\
CUNEIFORM SIGN LAK-617 TIMES ASH:\u{12502}\n\
CUNEIFORM SIGN LAK-617 TIMES BAD:\u{12503}\n\
CUNEIFORM SIGN LAK-617 TIMES DUN3 GUNU GUNU:\u{12504}\n\
CUNEIFORM SIGN LAK-617 TIMES KU3:\u{12505}\n\
CUNEIFORM SIGN LAK-617 TIMES LA:\u{12506}\n\
CUNEIFORM SIGN LAK-617 TIMES TAR:\u{12507}\n\
CUNEIFORM SIGN LAK-617 TIMES TE:\u{12508}\n\
CUNEIFORM SIGN LAK-617 TIMES U2:\u{12509}\n\
CUNEIFORM SIGN LAK-617 TIMES UD:\u{1250A}\n\
CUNEIFORM SIGN LAK-617 TIMES URUDA:\u{1250B}\n\
CUNEIFORM SIGN LAK-636:\u{1250C}\n\
CUNEIFORM SIGN LAK-648:\u{1250D}\n\
CUNEIFORM SIGN LAK-648 TIMES DUB:\u{1250E}\n\
CUNEIFORM SIGN LAK-648 TIMES GA:\u{1250F}\n\
CUNEIFORM SIGN LAK-648 TIMES IGI:\u{12510}\n\
CUNEIFORM SIGN LAK-648 TIMES IGI GUNU:\u{12511}\n\
CUNEIFORM SIGN LAK-648 TIMES NI:\u{12512}\n\
CUNEIFORM SIGN LAK-648 TIMES PAP PLUS PAP PLUS LU3:\u{12513}\n\
CUNEIFORM SIGN LAK-648 TIMES SHESH PLUS KI:\u{12514}\n\
CUNEIFORM SIGN LAK-648 TIMES UD:\u{12515}\n\
CUNEIFORM SIGN LAK-648 TIMES URUDA:\u{12516}\n\
CUNEIFORM SIGN LAK-724:\u{12517}\n\
CUNEIFORM SIGN LAK-749:\u{12518}\n\
CUNEIFORM SIGN LU2 GUNU TIMES ASH:\u{12519}\n\
CUNEIFORM SIGN LU2 TIMES DISH:\u{1251A}\n\
CUNEIFORM SIGN LU2 TIMES HAL:\u{1251B}\n\
CUNEIFORM SIGN LU2 TIMES PAP:\u{1251C}\n\
CUNEIFORM SIGN LU2 TIMES PAP PLUS PAP PLUS LU3:\u{1251D}\n\
CUNEIFORM SIGN LU2 TIMES TAK4:\u{1251E}\n\
CUNEIFORM SIGN MI PLUS ZA7:\u{1251F}\n\
CUNEIFORM SIGN MUSH OVER MUSH TIMES GA:\u{12520}\n\
CUNEIFORM SIGN MUSH OVER MUSH TIMES KAK:\u{12521}\n\
CUNEIFORM SIGN NINDA2 TIMES DIM GUNU:\u{12522}\n\
CUNEIFORM SIGN NINDA2 TIMES GISH:\u{12523}\n\
CUNEIFORM SIGN NINDA2 TIMES GUL:\u{12524}\n\
CUNEIFORM SIGN NINDA2 TIMES HI:\u{12525}\n\
CUNEIFORM SIGN NINDA2 TIMES KESH2:\u{12526}\n\
CUNEIFORM SIGN NINDA2 TIMES LAK-050:\u{12527}\n\
CUNEIFORM SIGN NINDA2 TIMES MASH:\u{12528}\n\
CUNEIFORM SIGN NINDA2 TIMES PAP PLUS PAP:\u{12529}\n\
CUNEIFORM SIGN NINDA2 TIMES U:\u{1252A}\n\
CUNEIFORM SIGN NINDA2 TIMES U PLUS U:\u{1252B}\n\
CUNEIFORM SIGN NINDA2 TIMES URUDA:\u{1252C}\n\
CUNEIFORM SIGN SAG GUNU TIMES HA:\u{1252D}\n\
CUNEIFORM SIGN SAG TIMES EN:\u{1252E}\n\
CUNEIFORM SIGN SAG TIMES SHE AT LEFT:\u{1252F}\n\
CUNEIFORM SIGN SAG TIMES TAK4:\u{12530}\n\
CUNEIFORM SIGN SHA6 TENU:\u{12531}\n\
CUNEIFORM SIGN SHE OVER SHE:\u{12532}\n\
CUNEIFORM SIGN SHE PLUS HUB2:\u{12533}\n\
CUNEIFORM SIGN SHE PLUS NAM2:\u{12534}\n\
CUNEIFORM SIGN SHE PLUS SAR:\u{12535}\n\
CUNEIFORM SIGN SHU2 PLUS DUG TIMES NI:\u{12536}\n\
CUNEIFORM SIGN SHU2 PLUS E2 TIMES AN:\u{12537}\n\
CUNEIFORM SIGN SI TIMES TAK4:\u{12538}\n\
CUNEIFORM SIGN TAK4 PLUS SAG:\u{12539}\n\
CUNEIFORM SIGN TUM TIMES GAN2 TENU:\u{1253A}\n\
CUNEIFORM SIGN TUM TIMES THREE DISH:\u{1253B}\n\
CUNEIFORM SIGN UR2 INVERTED:\u{1253C}\n\
CUNEIFORM SIGN UR2 TIMES UD:\u{1253D}\n\
CUNEIFORM SIGN URU TIMES DARA3:\u{1253E}\n\
CUNEIFORM SIGN URU TIMES LAK-668:\u{1253F}\n\
CUNEIFORM SIGN URU TIMES LU3:\u{12540}\n\
CUNEIFORM SIGN ZA7:\u{12541}\n\
CUNEIFORM SIGN ZU OVER ZU PLUS SAR:\u{12542}\n\
CUNEIFORM SIGN ZU5 TIMES THREE DISH TENU:\u{12543}\n\
CYPRO-MINOAN SIGN CM001:\u{12F90}\n\
CYPRO-MINOAN SIGN CM002:\u{12F91}\n\
CYPRO-MINOAN SIGN CM004:\u{12F92}\n\
CYPRO-MINOAN SIGN CM005:\u{12F93}\n\
CYPRO-MINOAN SIGN CM006:\u{12F94}\n\
CYPRO-MINOAN SIGN CM007:\u{12F95}\n\
CYPRO-MINOAN SIGN CM008:\u{12F96}\n\
CYPRO-MINOAN SIGN CM009:\u{12F97}\n\
CYPRO-MINOAN SIGN CM010:\u{12F98}\n\
CYPRO-MINOAN SIGN CM011:\u{12F99}\n\
CYPRO-MINOAN SIGN CM012:\u{12F9A}\n\
CYPRO-MINOAN SIGN CM012B:\u{12F9B}\n\
CYPRO-MINOAN SIGN CM013:\u{12F9C}\n\
CYPRO-MINOAN SIGN CM015:\u{12F9D}\n\
CYPRO-MINOAN SIGN CM017:\u{12F9E}\n\
CYPRO-MINOAN SIGN CM019:\u{12F9F}\n\
CYPRO-MINOAN SIGN CM021:\u{12FA0}\n\
CYPRO-MINOAN SIGN CM023:\u{12FA1}\n\
CYPRO-MINOAN SIGN CM024:\u{12FA2}\n\
CYPRO-MINOAN SIGN CM025:\u{12FA3}\n\
CYPRO-MINOAN SIGN CM026:\u{12FA4}\n\
CYPRO-MINOAN SIGN CM027:\u{12FA5}\n\
CYPRO-MINOAN SIGN CM028:\u{12FA6}\n\
CYPRO-MINOAN SIGN CM029:\u{12FA7}\n\
CYPRO-MINOAN SIGN CM030:\u{12FA8}\n\
CYPRO-MINOAN SIGN CM033:\u{12FA9}\n\
CYPRO-MINOAN SIGN CM034:\u{12FAA}\n\
CYPRO-MINOAN SIGN CM035:\u{12FAB}\n\
CYPRO-MINOAN SIGN CM036:\u{12FAC}\n\
CYPRO-MINOAN SIGN CM037:\u{12FAD}\n\
CYPRO-MINOAN SIGN CM038:\u{12FAE}\n\
CYPRO-MINOAN SIGN CM039:\u{12FAF}\n\
CYPRO-MINOAN SIGN CM040:\u{12FB0}\n\
CYPRO-MINOAN SIGN CM041:\u{12FB1}\n\
CYPRO-MINOAN SIGN CM044:\u{12FB2}\n\
CYPRO-MINOAN SIGN CM046:\u{12FB3}\n\
CYPRO-MINOAN SIGN CM047:\u{12FB4}\n\
CYPRO-MINOAN SIGN CM049:\u{12FB5}\n\
CYPRO-MINOAN SIGN CM050:\u{12FB6}\n\
CYPRO-MINOAN SIGN CM051:\u{12FB7}\n\
CYPRO-MINOAN SIGN CM052:\u{12FB8}\n\
CYPRO-MINOAN SIGN CM053:\u{12FB9}\n\
CYPRO-MINOAN SIGN CM054:\u{12FBA}\n\
CYPRO-MINOAN SIGN CM055:\u{12FBB}\n\
CYPRO-MINOAN SIGN CM056:\u{12FBC}\n\
CYPRO-MINOAN SIGN CM058:\u{12FBD}\n\
CYPRO-MINOAN SIGN CM059:\u{12FBE}\n\
CYPRO-MINOAN SIGN CM060:\u{12FBF}\n\
CYPRO-MINOAN SIGN CM061:\u{12FC0}\n\
CYPRO-MINOAN SIGN CM062:\u{12FC1}\n\
CYPRO-MINOAN SIGN CM063:\u{12FC2}\n\
CYPRO-MINOAN SIGN CM064:\u{12FC3}\n\
CYPRO-MINOAN SIGN CM066:\u{12FC4}\n\
CYPRO-MINOAN SIGN CM067:\u{12FC5}\n\
CYPRO-MINOAN SIGN CM068:\u{12FC6}\n";

pub const NAMES_57: &'static str = "CYPRO-MINOAN SIGN CM069:\u{12FC7}\n\
CYPRO-MINOAN SIGN CM070:\u{12FC8}\n\
CYPRO-MINOAN SIGN CM071:\u{12FC9}\n\
CYPRO-MINOAN SIGN CM072:\u{12FCA}\n\
CYPRO-MINOAN SIGN CM073:\u{12FCB}\n\
CYPRO-MINOAN SIGN CM074:\u{12FCC}\n\
CYPRO-MINOAN SIGN CM075:\u{12FCD}\n\
CYPRO-MINOAN SIGN CM075B:\u{12FCE}\n\
CYPRO-MINOAN SIGN CM076:\u{12FCF}\n\
CYPRO-MINOAN SIGN CM078:\u{12FD0}\n\
CYPRO-MINOAN SIGN CM079:\u{12FD1}\n\
CYPRO-MINOAN SIGN CM080:\u{12FD2}\n\
CYPRO-MINOAN SIGN CM081:\u{12FD3}\n\
CYPRO-MINOAN SIGN CM082:\u{12FD4}\n\
CYPRO-MINOAN SIGN CM083:\u{12FD5}\n\
CYPRO-MINOAN SIGN CM084:\u{12FD6}\n\
CYPRO-MINOAN SIGN CM085:\u{12FD7}\n\
CYPRO-MINOAN SIGN CM086:\u{12FD8}\n\
CYPRO-MINOAN SIGN CM087:\u{12FD9}\n\
CYPRO-MINOAN SIGN CM088:\u{12FDA}\n\
CYPRO-MINOAN SIGN CM089:\u{12FDB}\n\
CYPRO-MINOAN SIGN CM090:\u{12FDC}\n\
CYPRO-MINOAN SIGN CM091:\u{12FDD}\n\
CYPRO-MINOAN SIGN CM092:\u{12FDE}\n\
CYPRO-MINOAN SIGN CM094:\u{12FDF}\n\
CYPRO-MINOAN SIGN CM095:\u{12FE0}\n\
CYPRO-MINOAN SIGN CM096:\u{12FE1}\n\
CYPRO-MINOAN SIGN CM097:\u{12FE2}\n\
CYPRO-MINOAN SIGN CM098:\u{12FE3}\n\
CYPRO-MINOAN SIGN CM099:\u{12FE4}\n\
CYPRO-MINOAN SIGN CM100:\u{12FE5}\n\
CYPRO-MINOAN SIGN CM101:\u{12FE6}\n\
CYPRO-MINOAN SIGN CM102:\u{12FE7}\n\
CYPRO-MINOAN SIGN CM103:\u{12FE8}\n\
CYPRO-MINOAN SIGN CM104:\u{12FE9}\n\
CYPRO-MINOAN SIGN CM105:\u{12FEA}\n\
CYPRO-MINOAN SIGN CM107:\u{12FEB}\n\
CYPRO-MINOAN SIGN CM108:\u{12FEC}\n\
CYPRO-MINOAN SIGN CM109:\u{12FED}\n\
CYPRO-MINOAN SIGN CM110:\u{12FEE}\n\
CYPRO-MINOAN SIGN CM112:\u{12FEF}\n\
CYPRO-MINOAN SIGN CM114:\u{12FF0}\n\
CYPRO-MINOAN SIGN CM301:\u{12FF1}\n\
CYPRO-MINOAN SIGN CM302:\u{12FF2}\n\
EGYPTIAN HIEROGLYPH A001:\u{13000}\n\
EGYPTIAN HIEROGLYPH A002:\u{13001}\n\
EGYPTIAN HIEROGLYPH A003:\u{13002}\n\
EGYPTIAN HIEROGLYPH A004:\u{13003}\n\
EGYPTIAN HIEROGLYPH A005:\u{13004}\n\
EGYPTIAN HIEROGLYPH A005A:\u{13005}\n\
EGYPTIAN HIEROGLYPH A006:\u{13006}\n\
EGYPTIAN HIEROGLYPH A006A:\u{13007}\n\
EGYPTIAN HIEROGLYPH A006B:\u{13008}\n\
EGYPTIAN HIEROGLYPH A007:\u{13009}\n\
EGYPTIAN HIEROGLYPH A008:\u{1300A}\n\
EGYPTIAN HIEROGLYPH A009:\u{1300B}\n\
EGYPTIAN HIEROGLYPH A010:\u{1300C}\n\
EGYPTIAN HIEROGLYPH A011:\u{1300D}\n\
EGYPTIAN HIEROGLYPH A012:\u{1300E}\n\
EGYPTIAN HIEROGLYPH A013:\u{1300F}\n\
EGYPTIAN HIEROGLYPH A014:\u{13010}\n\
EGYPTIAN HIEROGLYPH A014A:\u{13011}\n\
EGYPTIAN HIEROGLYPH A015:\u{13012}\n\
EGYPTIAN HIEROGLYPH A016:\u{13013}\n\
EGYPTIAN HIEROGLYPH A017:\u{13014}\n\
EGYPTIAN HIEROGLYPH A017A:\u{13015}\n\
EGYPTIAN HIEROGLYPH A018:\u{13016}\n\
EGYPTIAN HIEROGLYPH A019:\u{13017}\n\
EGYPTIAN HIEROGLYPH A020:\u{13018}\n\
EGYPTIAN HIEROGLYPH A021:\u{13019}\n\
EGYPTIAN HIEROGLYPH A022:\u{1301A}\n\
EGYPTIAN HIEROGLYPH A023:\u{1301B}\n\
EGYPTIAN HIEROGLYPH A024:\u{1301C}\n\
EGYPTIAN HIEROGLYPH A025:\u{1301D}\n\
EGYPTIAN HIEROGLYPH A026:\u{1301E}\n\
EGYPTIAN HIEROGLYPH A027:\u{1301F}\n\
EGYPTIAN HIEROGLYPH A028:\u{13020}\n\
EGYPTIAN HIEROGLYPH A029:\u{13021}\n\
EGYPTIAN HIEROGLYPH A030:\u{13022}\n\
EGYPTIAN HIEROGLYPH A031:\u{13023}\n\
EGYPTIAN HIEROGLYPH A032:\u{13024}\n\
EGYPTIAN HIEROGLYPH A032A:\u{13025}\n\
EGYPTIAN HIEROGLYPH A033:\u{13026}\n\
EGYPTIAN HIEROGLYPH A034:\u{13027}\n\
EGYPTIAN HIEROGLYPH A035:\u{13028}\n\
EGYPTIAN HIEROGLYPH A036:\u{13029}\n\
EGYPTIAN HIEROGLYPH A037:\u{1302A}\n\
EGYPTIAN HIEROGLYPH A038:\u{1302B}\n\
EGYPTIAN HIEROGLYPH A039:\u{1302C}\n\
EGYPTIAN HIEROGLYPH A040:\u{1302D}\n\
EGYPTIAN HIEROGLYPH A040A:\u{1302E}\n\
EGYPTIAN HIEROGLYPH A041:\u{1302F}\n\
EGYPTIAN HIEROGLYPH A042:\u{13030}\n\
EGYPTIAN HIEROGLYPH A042A:\u{13031}\n\
EGYPTIAN HIEROGLYPH A043:\u{13032}\n\
EGYPTIAN HIEROGLYPH A043A:\u{13033}\n\
EGYPTIAN HIEROGLYPH A044:\u{13034}\n\
EGYPTIAN HIEROGLYPH A045:\u{13035}\n\
EGYPTIAN HIEROGLYPH A045A:\u{13036}\n\
EGYPTIAN HIEROGLYPH A046:\u{13037}\n\
EGYPTIAN HIEROGLYPH A047:\u{13038}\n\
EGYPTIAN HIEROGLYPH A048:\u{13039}\n\
EGYPTIAN HIEROGLYPH A049:\u{1303A}\n\
EGYPTIAN HIEROGLYPH A050:\u{1303B}\n\
EGYPTIAN HIEROGLYPH A051:\u{1303C}\n\
EGYPTIAN HIEROGLYPH A052:\u{1303D}\n\
EGYPTIAN HIEROGLYPH A053:\u{1303E}\n\
EGYPTIAN HIEROGLYPH A054:\u{1303F}\n\
EGYPTIAN HIEROGLYPH A055:\u{13040}\n\
EGYPTIAN HIEROGLYPH A056:\u{13041}\n\
EGYPTIAN HIEROGLYPH A057:\u{13042}\n\
EGYPTIAN HIEROGLYPH A058:\u{13043}\n\
EGYPTIAN HIEROGLYPH A059:\u{13044}\n\
EGYPTIAN HIEROGLYPH A060:\u{13045}\n\
EGYPTIAN HIEROGLYPH A061:\u{13046}\n\
EGYPTIAN HIEROGLYPH A062:\u{13047}\n\
EGYPTIAN HIEROGLYPH A063:\u{13048}\n\
EGYPTIAN HIEROGLYPH A064:\u{13049}\n\
EGYPTIAN HIEROGLYPH A065:\u{1304A}\n\
EGYPTIAN HIEROGLYPH A066:\u{1304B}\n\
EGYPTIAN HIEROGLYPH A067:\u{1304C}\n\
EGYPTIAN HIEROGLYPH A068:\u{1304D}\n\
EGYPTIAN HIEROGLYPH A069:\u{1304E}\n\
EGYPTIAN HIEROGLYPH A070:\u{1304F}\n\
EGYPTIAN HIEROGLYPH B001:\u{13050}\n\
EGYPTIAN HIEROGLYPH B002:\u{13051}\n\
EGYPTIAN HIEROGLYPH B003:\u{13052}\n\
EGYPTIAN HIEROGLYPH B004:\u{13053}\n\
EGYPTIAN HIEROGLYPH B005:\u{13054}\n\
EGYPTIAN HIEROGLYPH B005A:\u{13055}\n\
EGYPTIAN HIEROGLYPH B006:\u{13056}\n\
EGYPTIAN HIEROGLYPH B007:\u{13057}\n\
EGYPTIAN HIEROGLYPH B008:\u{13058}\n\
EGYPTIAN HIEROGLYPH B009:\u{13059}\n\
EGYPTIAN HIEROGLYPH C001:\u{1305A}\n\
EGYPTIAN HIEROGLYPH C002:\u{1305B}\n\
EGYPTIAN HIEROGLYPH C002A:\u{1305C}\n\
EGYPTIAN HIEROGLYPH C002B:\u{1305D}\n\
EGYPTIAN HIEROGLYPH C002C:\u{1305E}\n\
EGYPTIAN HIEROGLYPH C003:\u{1305F}\n\
EGYPTIAN HIEROGLYPH C004:\u{13060}\n\
EGYPTIAN HIEROGLYPH C005:\u{13061}\n\
EGYPTIAN HIEROGLYPH C006:\u{13062}\n\
EGYPTIAN HIEROGLYPH C007:\u{13063}\n\
EGYPTIAN HIEROGLYPH C008:\u{13064}\n\
EGYPTIAN HIEROGLYPH C009:\u{13065}\n\
EGYPTIAN HIEROGLYPH C010:\u{13066}\n\
EGYPTIAN HIEROGLYPH C010A:\u{13067}\n\
EGYPTIAN HIEROGLYPH C011:\u{13068}\n\
EGYPTIAN HIEROGLYPH C012:\u{13069}\n\
EGYPTIAN HIEROGLYPH C013:\u{1306A}\n\
EGYPTIAN HIEROGLYPH C014:\u{1306B}\n\
EGYPTIAN HIEROGLYPH C015:\u{1306C}\n\
EGYPTIAN HIEROGLYPH C016:\u{1306D}\n\
EGYPTIAN HIEROGLYPH C017:\u{1306E}\n\
EGYPTIAN HIEROGLYPH C018:\u{1306F}\n\
EGYPTIAN HIEROGLYPH C019:\u{13070}\n\
EGYPTIAN HIEROGLYPH C020:\u{13071}\n\
EGYPTIAN HIEROGLYPH C021:\u{13072}\n\
EGYPTIAN HIEROGLYPH C022:\u{13073}\n\
EGYPTIAN HIEROGLYPH C023:\u{13074}\n\
EGYPTIAN HIEROGLYPH C024:\u{13075}\n\
EGYPTIAN HIEROGLYPH D001:\u{13076}\n\
EGYPTIAN HIEROGLYPH D002:\u{13077}\n\
EGYPTIAN HIEROGLYPH D003:\u{13078}\n\
EGYPTIAN HIEROGLYPH D004:\u{13079}\n\
EGYPTIAN HIEROGLYPH D005:\u{1307A}\n\
EGYPTIAN HIEROGLYPH D006:\u{1307B}\n\
EGYPTIAN HIEROGLYPH D007:\u{1307C}\n\
EGYPTIAN HIEROGLYPH D008:\u{1307D}\n\
EGYPTIAN HIEROGLYPH D008A:\u{1307E}\n\
EGYPTIAN HIEROGLYPH D009:\u{1307F}\n\
EGYPTIAN HIEROGLYPH D010:\u{13080}\n\
EGYPTIAN HIEROGLYPH D011:\u{13081}\n\
EGYPTIAN HIEROGLYPH D012:\u{13082}\n\
EGYPTIAN HIEROGLYPH D013:\u{13083}\n\
EGYPTIAN HIEROGLYPH D014:\u{13084}\n\
EGYPTIAN HIEROGLYPH D015:\u{13085}\n\
EGYPTIAN HIEROGLYPH D016:\u{13086}\n\
EGYPTIAN HIEROGLYPH D017:\u{13087}\n\
EGYPTIAN HIEROGLYPH D018:\u{13088}\n\
EGYPTIAN HIEROGLYPH D019:\u{13089}\n\
EGYPTIAN HIEROGLYPH D020:\u{1308A}\n\
EGYPTIAN HIEROGLYPH D021:\u{1308B}\n\
EGYPTIAN HIEROGLYPH D022:\u{1308C}\n\
EGYPTIAN HIEROGLYPH D023:\u{1308D}\n\
EGYPTIAN HIEROGLYPH D024:\u{1308E}\n\
EGYPTIAN HIEROGLYPH D025:\u{1308F}\n\
EGYPTIAN HIEROGLYPH D026:\u{13090}\n\
EGYPTIAN HIEROGLYPH D027:\u{13091}\n\
EGYPTIAN HIEROGLYPH D027A:\u{13092}\n\
EGYPTIAN HIEROGLYPH D028:\u{13093}\n\
EGYPTIAN HIEROGLYPH D029:\u{13094}\n\
EGYPTIAN HIEROGLYPH D030:\u{13095}\n\
EGYPTIAN HIEROGLYPH D031:\u{13096}\n\
EGYPTIAN HIEROGLYPH D031A:\u{13097}\n\
EGYPTIAN HIEROGLYPH D032:\u{13098}\n\
EGYPTIAN HIEROGLYPH D033:\u{13099}\n\
EGYPTIAN HIEROGLYPH D034:\u{1309A}\n\
EGYPTIAN HIEROGLYPH D034A:\u{1309B}\n\
EGYPTIAN HIEROGLYPH D035:\u{1309C}\n\
EGYPTIAN HIEROGLYPH D036:\u{1309D}\n\
EGYPTIAN HIEROGLYPH D037:\u{1309E}\n\
EGYPTIAN HIEROGLYPH D038:\u{1309F}\n\
EGYPTIAN HIEROGLYPH D039:\u{130A0}\n\
EGYPTIAN HIEROGLYPH D040:\u{130A1}\n\
EGYPTIAN HIEROGLYPH D041:\u{130A2}\n\
EGYPTIAN HIEROGLYPH D042:\u{130A3}\n\
EGYPTIAN HIEROGLYPH D043:\u{130A4}\n\
EGYPTIAN HIEROGLYPH D044:\u{130A5}\n\
EGYPTIAN HIEROGLYPH D045:\u{130A6}\n\
EGYPTIAN HIEROGLYPH D046:\u{130A7}\n\
EGYPTIAN HIEROGLYPH D046A:\u{130A8}\n\
EGYPTIAN HIEROGLYPH D047:\u{130A9}\n\
EGYPTIAN HIEROGLYPH D048:\u{130AA}\n\
EGYPTIAN HIEROGLYPH D048A:\u{130AB}\n\
EGYPTIAN HIEROGLYPH D049:\u{130AC}\n\
EGYPTIAN HIEROGLYPH D050:\u{130AD}\n\
EGYPTIAN HIEROGLYPH D050A:\u{130AE}\n\
EGYPTIAN HIEROGLYPH D050B:\u{130AF}\n\
EGYPTIAN HIEROGLYPH D050C:\u{130B0}\n\
EGYPTIAN HIEROGLYPH D050D:\u{130B1}\n\
EGYPTIAN HIEROGLYPH D050E:\u{130B2}\n\
EGYPTIAN HIEROGLYPH D050F:\u{130B3}\n\
EGYPTIAN HIEROGLYPH D050G:\u{130B4}\n\
EGYPTIAN HIEROGLYPH D050H:\u{130B5}\n\
EGYPTIAN HIEROGLYPH D050I:\u{130B6}\n\
EGYPTIAN HIEROGLYPH D051:\u{130B7}\n\
EGYPTIAN HIEROGLYPH D052:\u{130B8}\n\
EGYPTIAN HIEROGLYPH D052A:\u{130B9}\n\
EGYPTIAN HIEROGLYPH D053:\u{130BA}\n\
EGYPTIAN HIEROGLYPH D054:\u{130BB}\n\
EGYPTIAN HIEROGLYPH D054A:\u{130BC}\n\
EGYPTIAN HIEROGLYPH D055:\u{130BD}\n\
EGYPTIAN HIEROGLYPH D056:\u{130BE}\n\
EGYPTIAN HIEROGLYPH D057:\u{130BF}\n\
EGYPTIAN HIEROGLYPH D058:\u{130C0}\n\
EGYPTIAN HIEROGLYPH D059:\u{130C1}\n\
EGYPTIAN HIEROGLYPH D060:\u{130C2}\n\
EGYPTIAN HIEROGLYPH D061:\u{130C3}\n\
EGYPTIAN HIEROGLYPH D062:\u{130C4}\n\
EGYPTIAN HIEROGLYPH D063:\u{130C5}\n\
EGYPTIAN HIEROGLYPH D064:\u{130C6}\n\
EGYPTIAN HIEROGLYPH D065:\u{130C7}\n\
EGYPTIAN HIEROGLYPH D066:\u{130C8}\n\
EGYPTIAN HIEROGLYPH D067:\u{130C9}\n\
EGYPTIAN HIEROGLYPH D067A:\u{130CA}\n\
EGYPTIAN HIEROGLYPH D067B:\u{130CB}\n\
EGYPTIAN HIEROGLYPH D067C:\u{130CC}\n\
EGYPTIAN HIEROGLYPH D067D:\u{130CD}\n\
EGYPTIAN HIEROGLYPH D067E:\u{130CE}\n\
EGYPTIAN HIEROGLYPH D067F:\u{130CF}\n\
EGYPTIAN HIEROGLYPH D067G:\u{130D0}\n\
EGYPTIAN HIEROGLYPH D067H:\u{130D1}\n\
EGYPTIAN HIEROGLYPH E001:\u{130D2}\n\
EGYPTIAN HIEROGLYPH E002:\u{130D3}\n\
EGYPTIAN HIEROGLYPH E003:\u{130D4}\n\
EGYPTIAN HIEROGLYPH E004:\u{130D5}\n\
EGYPTIAN HIEROGLYPH E005:\u{130D6}\n\
EGYPTIAN HIEROGLYPH E006:\u{130D7}\n\
EGYPTIAN HIEROGLYPH E007:\u{130D8}\n\
EGYPTIAN HIEROGLYPH E008:\u{130D9}\n\
EGYPTIAN HIEROGLYPH E008A:\u{130DA}\n\
EGYPTIAN HIEROGLYPH E009:\u{130DB}\n\
EGYPTIAN HIEROGLYPH E009A:\u{130DC}\n\
EGYPTIAN HIEROGLYPH E010:\u{130DD}\n\
EGYPTIAN HIEROGLYPH E011:\u{130DE}\n\
EGYPTIAN HIEROGLYPH E012:\u{130DF}\n\
EGYPTIAN HIEROGLYPH E013:\u{130E0}\n\
EGYPTIAN HIEROGLYPH E014:\u{130E1}\n\
EGYPTIAN HIEROGLYPH E015:\u{130E2}\n\
EGYPTIAN HIEROGLYPH E016:\u{130E3}\n\
EGYPTIAN HIEROGLYPH E016A:\u{130E4}\n\
EGYPTIAN HIEROGLYPH E017:\u{130E5}\n\
EGYPTIAN HIEROGLYPH E017A:\u{130E6}\n\
EGYPTIAN HIEROGLYPH E018:\u{130E7}\n\
EGYPTIAN HIEROGLYPH E019:\u{130E8}\n\
EGYPTIAN HIEROGLYPH E020:\u{130E9}\n\
EGYPTIAN HIEROGLYPH E020A:\u{130EA}\n\
EGYPTIAN HIEROGLYPH E021:\u{130EB}\n\
EGYPTIAN HIEROGLYPH E022:\u{130EC}\n\
EGYPTIAN HIEROGLYPH E023:\u{130ED}\n\
EGYPTIAN HIEROGLYPH E024:\u{130EE}\n\
EGYPTIAN HIEROGLYPH E025:\u{130EF}\n\
EGYPTIAN HIEROGLYPH E026:\u{130F0}\n\
EGYPTIAN HIEROGLYPH E027:\u{130F1}\n\
EGYPTIAN HIEROGLYPH E028:\u{130F2}\n\
EGYPTIAN HIEROGLYPH E028A:\u{130F3}\n\
EGYPTIAN HIEROGLYPH E029:\u{130F4}\n\
EGYPTIAN HIEROGLYPH E030:\u{130F5}\n\
EGYPTIAN HIEROGLYPH E031:\u{130F6}\n\
EGYPTIAN HIEROGLYPH E032:\u{130F7}\n\
EGYPTIAN HIEROGLYPH E033:\u{130F8}\n\
EGYPTIAN HIEROGLYPH E034:\u{130F9}\n\
EGYPTIAN HIEROGLYPH E034A:\u{130FA}\n\
EGYPTIAN HIEROGLYPH E036:\u{130FB}\n\
EGYPTIAN HIEROGLYPH E037:\u{130FC}\n\
EGYPTIAN HIEROGLYPH E038:\u{130FD}\n\
EGYPTIAN HIEROGLYPH F001:\u{130FE}\n\
EGYPTIAN HIEROGLYPH F001A:\u{130FF}\n\
EGYPTIAN HIEROGLYPH F002:\u{13100}\n\
EGYPTIAN HIEROGLYPH F003:\u{13101}\n\
EGYPTIAN HIEROGLYPH F004:\u{13102}\n\
EGYPTIAN HIEROGLYPH F005:\u{13103}\n\
EGYPTIAN HIEROGLYPH F006:\u{13104}\n\
EGYPTIAN HIEROGLYPH F007:\u{13105}\n\
EGYPTIAN HIEROGLYPH F008:\u{13106}\n\
EGYPTIAN HIEROGLYPH F009:\u{13107}\n\
EGYPTIAN HIEROGLYPH F010:\u{13108}\n\
EGYPTIAN HIEROGLYPH F011:\u{13109}\n\
EGYPTIAN HIEROGLYPH F012:\u{1310A}\n\
EGYPTIAN HIEROGLYPH F013:\u{1310B}\n\
EGYPTIAN HIEROGLYPH F013A:\u{1310C}\n\
EGYPTIAN HIEROGLYPH F014:\u{1310D}\n\
EGYPTIAN HIEROGLYPH F015:\u{1310E}\n\
EGYPTIAN HIEROGLYPH F016:\u{1310F}\n\
EGYPTIAN HIEROGLYPH F017:\u{13110}\n\
EGYPTIAN HIEROGLYPH F018:\u{13111}\n\
EGYPTIAN HIEROGLYPH F019:\u{13112}\n\
EGYPTIAN HIEROGLYPH F020:\u{13113}\n\
EGYPTIAN HIEROGLYPH F021:\u{13114}\n\
EGYPTIAN HIEROGLYPH F021A:\u{13115}\n\
EGYPTIAN HIEROGLYPH F022:\u{13116}\n\
EGYPTIAN HIEROGLYPH F023:\u{13117}\n\
EGYPTIAN HIEROGLYPH F024:\u{13118}\n\
EGYPTIAN HIEROGLYPH F025:\u{13119}\n\
EGYPTIAN HIEROGLYPH F026:\u{1311A}\n\
EGYPTIAN HIEROGLYPH F027:\u{1311B}\n\
EGYPTIAN HIEROGLYPH F028:\u{1311C}\n\
EGYPTIAN HIEROGLYPH F029:\u{1311D}\n\
EGYPTIAN HIEROGLYPH F030:\u{1311E}\n\
EGYPTIAN HIEROGLYPH F031:\u{1311F}\n\
EGYPTIAN HIEROGLYPH F031A:\u{13120}\n\
EGYPTIAN HIEROGLYPH F032:\u{13121}\n\
EGYPTIAN HIEROGLYPH F033:\u{13122}\n\
EGYPTIAN HIEROGLYPH F034:\u{13123}\n\
EGYPTIAN HIEROGLYPH F035:\u{13124}\n\
EGYPTIAN HIEROGLYPH F036:\u{13125}\n\
EGYPTIAN HIEROGLYPH F037:\u{13126}\n\
EGYPTIAN HIEROGLYPH F037A:\u{13127}\n\
EGYPTIAN HIEROGLYPH F038:\u{13128}\n\
EGYPTIAN HIEROGLYPH F038A:\u{13129}\n\
EGYPTIAN HIEROGLYPH F039:\u{1312A}\n\
EGYPTIAN HIEROGLYPH F040:\u{1312B}\n\
EGYPTIAN HIEROGLYPH F041:\u{1312C}\n\
EGYPTIAN HIEROGLYPH F042:\u{1312D}\n\
EGYPTIAN HIEROGLYPH F043:\u{1312E}\n\
EGYPTIAN HIEROGLYPH F044:\u{1312F}\n\
EGYPTIAN HIEROGLYPH F045:\u{13130}\n\
EGYPTIAN HIEROGLYPH F045A:\u{13131}\n\
EGYPTIAN HIEROGLYPH F046:\u{13132}\n\
EGYPTIAN HIEROGLYPH F046A:\u{13133}\n\
EGYPTIAN HIEROGLYPH F047:\u{13134}\n\
EGYPTIAN HIEROGLYPH F047A:\u{13135}\n\
EGYPTIAN HIEROGLYPH F048:\u{13136}\n\
EGYPTIAN HIEROGLYPH F049:\u{13137}\n\
EGYPTIAN HIEROGLYPH F050:\u{13138}\n\
EGYPTIAN HIEROGLYPH F051:\u{13139}\n\
EGYPTIAN HIEROGLYPH F051A:\u{1313A}\n\
EGYPTIAN HIEROGLYPH F051B:\u{1313B}\n\
EGYPTIAN HIEROGLYPH F051C:\u{1313C}\n\
EGYPTIAN HIEROGLYPH F052:\u{1313D}\n\
EGYPTIAN HIEROGLYPH F053:\u{1313E}\n\
EGYPTIAN HIEROGLYPH G001:\u{1313F}\n\
EGYPTIAN HIEROGLYPH G002:\u{13140}\n\
EGYPTIAN HIEROGLYPH G003:\u{13141}\n\
EGYPTIAN HIEROGLYPH G004:\u{13142}\n\
EGYPTIAN HIEROGLYPH G005:\u{13143}\n\
EGYPTIAN HIEROGLYPH G006:\u{13144}\n\
EGYPTIAN HIEROGLYPH G006A:\u{13145}\n\
EGYPTIAN HIEROGLYPH G007:\u{13146}\n\
EGYPTIAN HIEROGLYPH G007A:\u{13147}\n\
EGYPTIAN HIEROGLYPH G007B:\u{13148}\n\
EGYPTIAN HIEROGLYPH G008:\u{13149}\n\
EGYPTIAN HIEROGLYPH G009:\u{1314A}\n\
EGYPTIAN HIEROGLYPH G010:\u{1314B}\n\
EGYPTIAN HIEROGLYPH G011:\u{1314C}\n\
EGYPTIAN HIEROGLYPH G011A:\u{1314D}\n\
EGYPTIAN HIEROGLYPH G012:\u{1314E}\n\
EGYPTIAN HIEROGLYPH G013:\u{1314F}\n\
EGYPTIAN HIEROGLYPH G014:\u{13150}\n\
EGYPTIAN HIEROGLYPH G015:\u{13151}\n\
EGYPTIAN HIEROGLYPH G016:\u{13152}\n\
EGYPTIAN HIEROGLYPH G017:\u{13153}\n\
EGYPTIAN HIEROGLYPH G018:\u{13154}\n\
EGYPTIAN HIEROGLYPH G019:\u{13155}\n\
EGYPTIAN HIEROGLYPH G020:\u{13156}\n\
EGYPTIAN HIEROGLYPH G020A:\u{13157}\n\
EGYPTIAN HIEROGLYPH G021:\u{13158}\n\
EGYPTIAN HIEROGLYPH G022:\u{13159}\n\
EGYPTIAN HIEROGLYPH G023:\u{1315A}\n\
EGYPTIAN HIEROGLYPH G024:\u{1315B}\n\
EGYPTIAN HIEROGLYPH G025:\u{1315C}\n\
EGYPTIAN HIEROGLYPH G026:\u{1315D}\n";

pub const NAMES_58: &'static str = "EGYPTIAN HIEROGLYPH G026A:\u{1315E}\n\
EGYPTIAN HIEROGLYPH G027:\u{1315F}\n\
EGYPTIAN HIEROGLYPH G028:\u{13160}\n\
EGYPTIAN HIEROGLYPH G029:\u{13161}\n\
EGYPTIAN HIEROGLYPH G030:\u{13162}\n\
EGYPTIAN HIEROGLYPH G031:\u{13163}\n\
EGYPTIAN HIEROGLYPH G032:\u{13164}\n\
EGYPTIAN HIEROGLYPH G033:\u{13165}\n\
EGYPTIAN HIEROGLYPH G034:\u{13166}\n\
EGYPTIAN HIEROGLYPH G035:\u{13167}\n\
EGYPTIAN HIEROGLYPH G036:\u{13168}\n\
EGYPTIAN HIEROGLYPH G036A:\u{13169}\n\
EGYPTIAN HIEROGLYPH G037:\u{1316A}\n\
EGYPTIAN HIEROGLYPH G037A:\u{1316B}\n\
EGYPTIAN HIEROGLYPH G038:\u{1316C}\n\
EGYPTIAN HIEROGLYPH G039:\u{1316D}\n\
EGYPTIAN HIEROGLYPH G040:\u{1316E}\n\
EGYPTIAN HIEROGLYPH G041:\u{1316F}\n\
EGYPTIAN HIEROGLYPH G042:\u{13170}\n\
EGYPTIAN HIEROGLYPH G043:\u{13171}\n\
EGYPTIAN HIEROGLYPH G043A:\u{13172}\n\
EGYPTIAN HIEROGLYPH G044:\u{13173}\n\
EGYPTIAN HIEROGLYPH G045:\u{13174}\n\
EGYPTIAN HIEROGLYPH G045A:\u{13175}\n\
EGYPTIAN HIEROGLYPH G046:\u{13176}\n\
EGYPTIAN HIEROGLYPH G047:\u{13177}\n\
EGYPTIAN HIEROGLYPH G048:\u{13178}\n\
EGYPTIAN HIEROGLYPH G049:\u{13179}\n\
EGYPTIAN HIEROGLYPH G050:\u{1317A}\n\
EGYPTIAN HIEROGLYPH G051:\u{1317B}\n\
EGYPTIAN HIEROGLYPH G052:\u{1317C}\n\
EGYPTIAN HIEROGLYPH G053:\u{1317D}\n\
EGYPTIAN HIEROGLYPH G054:\u{1317E}\n\
EGYPTIAN HIEROGLYPH H001:\u{1317F}\n\
EGYPTIAN HIEROGLYPH H002:\u{13180}\n\
EGYPTIAN HIEROGLYPH H003:\u{13181}\n\
EGYPTIAN HIEROGLYPH H004:\u{13182}\n\
EGYPTIAN HIEROGLYPH H005:\u{13183}\n\
EGYPTIAN HIEROGLYPH H006:\u{13184}\n\
EGYPTIAN HIEROGLYPH H006A:\u{13185}\n\
EGYPTIAN HIEROGLYPH H007:\u{13186}\n\
EGYPTIAN HIEROGLYPH H008:\u{13187}\n\
EGYPTIAN HIEROGLYPH I001:\u{13188}\n\
EGYPTIAN HIEROGLYPH I002:\u{13189}\n\
EGYPTIAN HIEROGLYPH I003:\u{1318A}\n\
EGYPTIAN HIEROGLYPH I004:\u{1318B}\n\
EGYPTIAN HIEROGLYPH I005:\u{1318C}\n\
EGYPTIAN HIEROGLYPH I005A:\u{1318D}\n\
EGYPTIAN HIEROGLYPH I006:\u{1318E}\n\
EGYPTIAN HIEROGLYPH I007:\u{1318F}\n\
EGYPTIAN HIEROGLYPH I008:\u{13190}\n\
EGYPTIAN HIEROGLYPH I009:\u{13191}\n\
EGYPTIAN HIEROGLYPH I009A:\u{13192}\n\
EGYPTIAN HIEROGLYPH I010:\u{13193}\n\
EGYPTIAN HIEROGLYPH I010A:\u{13194}\n\
EGYPTIAN HIEROGLYPH I011:\u{13195}\n\
EGYPTIAN HIEROGLYPH I011A:\u{13196}\n\
EGYPTIAN HIEROGLYPH I012:\u{13197}\n\
EGYPTIAN HIEROGLYPH I013:\u{13198}\n\
EGYPTIAN HIEROGLYPH I014:\u{13199}\n\
EGYPTIAN HIEROGLYPH I015:\u{1319A}\n\
EGYPTIAN HIEROGLYPH K001:\u{1319B}\n\
EGYPTIAN HIEROGLYPH K002:\u{1319C}\n\
EGYPTIAN HIEROGLYPH K003:\u{1319D}\n\
EGYPTIAN HIEROGLYPH K004:\u{1319E}\n\
EGYPTIAN HIEROGLYPH K005:\u{1319F}\n\
EGYPTIAN HIEROGLYPH K006:\u{131A0}\n\
EGYPTIAN HIEROGLYPH K007:\u{131A1}\n\
EGYPTIAN HIEROGLYPH K008:\u{131A2}\n\
EGYPTIAN HIEROGLYPH L001:\u{131A3}\n\
EGYPTIAN HIEROGLYPH L002:\u{131A4}\n\
EGYPTIAN HIEROGLYPH L002A:\u{131A5}\n\
EGYPTIAN HIEROGLYPH L003:\u{131A6}\n\
EGYPTIAN HIEROGLYPH L004:\u{131A7}\n\
EGYPTIAN HIEROGLYPH L005:\u{131A8}\n\
EGYPTIAN HIEROGLYPH L006:\u{131A9}\n\
EGYPTIAN HIEROGLYPH L006A:\u{131AA}\n\
EGYPTIAN HIEROGLYPH L007:\u{131AB}\n\
EGYPTIAN HIEROGLYPH L008:\u{131AC}\n\
EGYPTIAN HIEROGLYPH M001:\u{131AD}\n\
EGYPTIAN HIEROGLYPH M001A:\u{131AE}\n\
EGYPTIAN HIEROGLYPH M001B:\u{131AF}\n\
EGYPTIAN HIEROGLYPH M002:\u{131B0}\n\
EGYPTIAN HIEROGLYPH M003:\u{131B1}\n\
EGYPTIAN HIEROGLYPH M003A:\u{131B2}\n\
EGYPTIAN HIEROGLYPH M004:\u{131B3}\n\
EGYPTIAN HIEROGLYPH M005:\u{131B4}\n\
EGYPTIAN HIEROGLYPH M006:\u{131B5}\n\
EGYPTIAN HIEROGLYPH M007:\u{131B6}\n\
EGYPTIAN HIEROGLYPH M008:\u{131B7}\n\
EGYPTIAN HIEROGLYPH M009:\u{131B8}\n\
EGYPTIAN HIEROGLYPH M010:\u{131B9}\n\
EGYPTIAN HIEROGLYPH M010A:\u{131BA}\n\
EGYPTIAN HIEROGLYPH M011:\u{131BB}\n\
EGYPTIAN HIEROGLYPH M012:\u{131BC}\n\
EGYPTIAN HIEROGLYPH M012A:\u{131BD}\n\
EGYPTIAN HIEROGLYPH M012B:\u{131BE}\n\
EGYPTIAN HIEROGLYPH M012C:\u{131BF}\n\
EGYPTIAN HIEROGLYPH M012D:\u{131C0}\n\
EGYPTIAN HIEROGLYPH M012E:\u{131C1}\n\
EGYPTIAN HIEROGLYPH M012F:\u{131C2}\n\
EGYPTIAN HIEROGLYPH M012G:\u{131C3}\n\
EGYPTIAN HIEROGLYPH M012H:\u{131C4}\n\
EGYPTIAN HIEROGLYPH M013:\u{131C5}\n\
EGYPTIAN HIEROGLYPH M014:\u{131C6}\n\
EGYPTIAN HIEROGLYPH M015:\u{131C7}\n\
EGYPTIAN HIEROGLYPH M015A:\u{131C8}\n\
EGYPTIAN HIEROGLYPH M016:\u{131C9}\n\
EGYPTIAN HIEROGLYPH M016A:\u{131CA}\n\
EGYPTIAN HIEROGLYPH M017:\u{131CB}\n\
EGYPTIAN HIEROGLYPH M017A:\u{131CC}\n\
EGYPTIAN HIEROGLYPH M018:\u{131CD}\n\
EGYPTIAN HIEROGLYPH M019:\u{131CE}\n\
EGYPTIAN HIEROGLYPH M020:\u{131CF}\n\
EGYPTIAN HIEROGLYPH M021:\u{131D0}\n\
EGYPTIAN HIEROGLYPH M022:\u{131D1}\n\
EGYPTIAN HIEROGLYPH M022A:\u{131D2}\n\
EGYPTIAN HIEROGLYPH M023:\u{131D3}\n\
EGYPTIAN HIEROGLYPH M024:\u{131D4}\n\
EGYPTIAN HIEROGLYPH M024A:\u{131D5}\n\
EGYPTIAN HIEROGLYPH M025:\u{131D6}\n\
EGYPTIAN HIEROGLYPH M026:\u{131D7}\n\
EGYPTIAN HIEROGLYPH M027:\u{131D8}\n\
EGYPTIAN HIEROGLYPH M028:\u{131D9}\n\
EGYPTIAN HIEROGLYPH M028A:\u{131DA}\n\
EGYPTIAN HIEROGLYPH M029:\u{131DB}\n\
EGYPTIAN HIEROGLYPH M030:\u{131DC}\n\
EGYPTIAN HIEROGLYPH M031:\u{131DD}\n\
EGYPTIAN HIEROGLYPH M031A:\u{131DE}\n\
EGYPTIAN HIEROGLYPH M032:\u{131DF}\n\
EGYPTIAN HIEROGLYPH M033:\u{131E0}\n\
EGYPTIAN HIEROGLYPH M033A:\u{131E1}\n\
EGYPTIAN HIEROGLYPH M033B:\u{131E2}\n\
EGYPTIAN HIEROGLYPH M034:\u{131E3}\n\
EGYPTIAN HIEROGLYPH M035:\u{131E4}\n\
EGYPTIAN HIEROGLYPH M036:\u{131E5}\n\
EGYPTIAN HIEROGLYPH M037:\u{131E6}\n\
EGYPTIAN HIEROGLYPH M038:\u{131E7}\n\
EGYPTIAN HIEROGLYPH M039:\u{131E8}\n\
EGYPTIAN HIEROGLYPH M040:\u{131E9}\n\
EGYPTIAN HIEROGLYPH M040A:\u{131EA}\n\
EGYPTIAN HIEROGLYPH M041:\u{131EB}\n\
EGYPTIAN HIEROGLYPH M042:\u{131EC}\n\
EGYPTIAN HIEROGLYPH M043:\u{131ED}\n\
EGYPTIAN HIEROGLYPH M044:\u{131EE}\n\
EGYPTIAN HIEROGLYPH N001:\u{131EF}\n\
EGYPTIAN HIEROGLYPH N002:\u{131F0}\n\
EGYPTIAN HIEROGLYPH N003:\u{131F1}\n\
EGYPTIAN HIEROGLYPH N004:\u{131F2}\n\
EGYPTIAN HIEROGLYPH N005:\u{131F3}\n\
EGYPTIAN HIEROGLYPH N006:\u{131F4}\n\
EGYPTIAN HIEROGLYPH N007:\u{131F5}\n\
EGYPTIAN HIEROGLYPH N008:\u{131F6}\n\
EGYPTIAN HIEROGLYPH N009:\u{131F7}\n\
EGYPTIAN HIEROGLYPH N010:\u{131F8}\n\
EGYPTIAN HIEROGLYPH N011:\u{131F9}\n\
EGYPTIAN HIEROGLYPH N012:\u{131FA}\n\
EGYPTIAN HIEROGLYPH N013:\u{131FB}\n\
EGYPTIAN HIEROGLYPH N014:\u{131FC}\n\
EGYPTIAN HIEROGLYPH N015:\u{131FD}\n\
EGYPTIAN HIEROGLYPH N016:\u{131FE}\n\
EGYPTIAN HIEROGLYPH N017:\u{131FF}\n\
EGYPTIAN HIEROGLYPH N018:\u{13200}\n\
EGYPTIAN HIEROGLYPH N018A:\u{13201}\n\
EGYPTIAN HIEROGLYPH N018B:\u{13202}\n\
EGYPTIAN HIEROGLYPH N019:\u{13203}\n\
EGYPTIAN HIEROGLYPH N020:\u{13204}\n\
EGYPTIAN HIEROGLYPH N021:\u{13205}\n\
EGYPTIAN HIEROGLYPH N022:\u{13206}\n\
EGYPTIAN HIEROGLYPH N023:\u{13207}\n\
EGYPTIAN HIEROGLYPH N024:\u{13208}\n\
EGYPTIAN HIEROGLYPH N025:\u{13209}\n\
EGYPTIAN HIEROGLYPH N025A:\u{1320A}\n\
EGYPTIAN HIEROGLYPH N026:\u{1320B}\n\
EGYPTIAN HIEROGLYPH N027:\u{1320C}\n\
EGYPTIAN HIEROGLYPH N028:\u{1320D}\n\
EGYPTIAN HIEROGLYPH N029:\u{1320E}\n\
EGYPTIAN HIEROGLYPH N030:\u{1320F}\n\
EGYPTIAN HIEROGLYPH N031:\u{13210}\n\
EGYPTIAN HIEROGLYPH N032:\u{13211}\n\
EGYPTIAN HIEROGLYPH N033:\u{13212}\n\
EGYPTIAN HIEROGLYPH N033A:\u{13213}\n\
EGYPTIAN HIEROGLYPH N034:\u{13214}\n\
EGYPTIAN HIEROGLYPH N034A:\u{13215}\n\
EGYPTIAN HIEROGLYPH N035:\u{13216}\n\
EGYPTIAN HIEROGLYPH N035A:\u{13217}\n\
EGYPTIAN HIEROGLYPH N036:\u{13218}\n\
EGYPTIAN HIEROGLYPH N037:\u{13219}\n\
EGYPTIAN HIEROGLYPH N037A:\u{1321A}\n\
EGYPTIAN HIEROGLYPH N038:\u{1321B}\n\
EGYPTIAN HIEROGLYPH N039:\u{1321C}\n\
EGYPTIAN HIEROGLYPH N040:\u{1321D}\n\
EGYPTIAN HIEROGLYPH N041:\u{1321E}\n\
EGYPTIAN HIEROGLYPH N042:\u{1321F}\n\
EGYPTIAN HIEROGLYPH NL001:\u{13220}\n\
EGYPTIAN HIEROGLYPH NL002:\u{13221}\n\
EGYPTIAN HIEROGLYPH NL003:\u{13222}\n\
EGYPTIAN HIEROGLYPH NL004:\u{13223}\n\
EGYPTIAN HIEROGLYPH NL005:\u{13224}\n\
EGYPTIAN HIEROGLYPH NL005A:\u{13225}\n\
EGYPTIAN HIEROGLYPH NL006:\u{13226}\n\
EGYPTIAN HIEROGLYPH NL007:\u{13227}\n\
EGYPTIAN HIEROGLYPH NL008:\u{13228}\n\
EGYPTIAN HIEROGLYPH NL009:\u{13229}\n\
EGYPTIAN HIEROGLYPH NL010:\u{1322A}\n\
EGYPTIAN HIEROGLYPH NL011:\u{1322B}\n\
EGYPTIAN HIEROGLYPH NL012:\u{1322C}\n\
EGYPTIAN HIEROGLYPH NL013:\u{1322D}\n\
EGYPTIAN HIEROGLYPH NL014:\u{1322E}\n\
EGYPTIAN HIEROGLYPH NL015:\u{1322F}\n\
EGYPTIAN HIEROGLYPH NL016:\u{13230}\n\
EGYPTIAN HIEROGLYPH NL017:\u{13231}\n\
EGYPTIAN HIEROGLYPH NL017A:\u{13232}\n\
EGYPTIAN HIEROGLYPH NL018:\u{13233}\n\
EGYPTIAN HIEROGLYPH NL019:\u{13234}\n\
EGYPTIAN HIEROGLYPH NL020:\u{13235}\n\
EGYPTIAN HIEROGLYPH NU001:\u{13236}\n\
EGYPTIAN HIEROGLYPH NU002:\u{13237}\n\
EGYPTIAN HIEROGLYPH NU003:\u{13238}\n\
EGYPTIAN HIEROGLYPH NU004:\u{13239}\n\
EGYPTIAN HIEROGLYPH NU005:\u{1323A}\n\
EGYPTIAN HIEROGLYPH NU006:\u{1323B}\n\
EGYPTIAN HIEROGLYPH NU007:\u{1323C}\n\
EGYPTIAN HIEROGLYPH NU008:\u{1323D}\n\
EGYPTIAN HIEROGLYPH NU009:\u{1323E}\n\
EGYPTIAN HIEROGLYPH NU010:\u{1323F}\n\
EGYPTIAN HIEROGLYPH NU010A:\u{13240}\n\
EGYPTIAN HIEROGLYPH NU011:\u{13241}\n\
EGYPTIAN HIEROGLYPH NU011A:\u{13242}\n\
EGYPTIAN HIEROGLYPH NU012:\u{13243}\n\
EGYPTIAN HIEROGLYPH NU013:\u{13244}\n\
EGYPTIAN HIEROGLYPH NU014:\u{13245}\n\
EGYPTIAN HIEROGLYPH NU015:\u{13246}\n\
EGYPTIAN HIEROGLYPH NU016:\u{13247}\n\
EGYPTIAN HIEROGLYPH NU017:\u{13248}\n\
EGYPTIAN HIEROGLYPH NU018:\u{13249}\n\
EGYPTIAN HIEROGLYPH NU018A:\u{1324A}\n\
EGYPTIAN HIEROGLYPH NU019:\u{1324B}\n\
EGYPTIAN HIEROGLYPH NU020:\u{1324C}\n\
EGYPTIAN HIEROGLYPH NU021:\u{1324D}\n\
EGYPTIAN HIEROGLYPH NU022:\u{1324E}\n\
EGYPTIAN HIEROGLYPH NU022A:\u{1324F}\n\
EGYPTIAN HIEROGLYPH O001:\u{13250}\n\
EGYPTIAN HIEROGLYPH O001A:\u{13251}\n\
EGYPTIAN HIEROGLYPH O002:\u{13252}\n\
EGYPTIAN HIEROGLYPH O003:\u{13253}\n\
EGYPTIAN HIEROGLYPH O004:\u{13254}\n\
EGYPTIAN HIEROGLYPH O005:\u{13255}\n\
EGYPTIAN HIEROGLYPH O005A:\u{13256}\n\
EGYPTIAN HIEROGLYPH O006:\u{13257}\n\
EGYPTIAN HIEROGLYPH O006A:\u{13258}\n\
EGYPTIAN HIEROGLYPH O006B:\u{13259}\n\
EGYPTIAN HIEROGLYPH O006C:\u{1325A}\n\
EGYPTIAN HIEROGLYPH O006D:\u{1325B}\n\
EGYPTIAN HIEROGLYPH O006E:\u{1325C}\n\
EGYPTIAN HIEROGLYPH O006F:\u{1325D}\n\
EGYPTIAN HIEROGLYPH O007:\u{1325E}\n\
EGYPTIAN HIEROGLYPH O008:\u{1325F}\n\
EGYPTIAN HIEROGLYPH O009:\u{13260}\n\
EGYPTIAN HIEROGLYPH O010:\u{13261}\n\
EGYPTIAN HIEROGLYPH O010A:\u{13262}\n\
EGYPTIAN HIEROGLYPH O010B:\u{13263}\n\
EGYPTIAN HIEROGLYPH O010C:\u{13264}\n\
EGYPTIAN HIEROGLYPH O011:\u{13265}\n\
EGYPTIAN HIEROGLYPH O012:\u{13266}\n\
EGYPTIAN HIEROGLYPH O013:\u{13267}\n\
EGYPTIAN HIEROGLYPH O014:\u{13268}\n\
EGYPTIAN HIEROGLYPH O015:\u{13269}\n\
EGYPTIAN HIEROGLYPH O016:\u{1326A}\n\
EGYPTIAN HIEROGLYPH O017:\u{1326B}\n\
EGYPTIAN HIEROGLYPH O018:\u{1326C}\n\
EGYPTIAN HIEROGLYPH O019:\u{1326D}\n\
EGYPTIAN HIEROGLYPH O019A:\u{1326E}\n\
EGYPTIAN HIEROGLYPH O020:\u{1326F}\n\
EGYPTIAN HIEROGLYPH O020A:\u{13270}\n\
EGYPTIAN HIEROGLYPH O021:\u{13271}\n\
EGYPTIAN HIEROGLYPH O022:\u{13272}\n\
EGYPTIAN HIEROGLYPH O023:\u{13273}\n\
EGYPTIAN HIEROGLYPH O024:\u{13274}\n\
EGYPTIAN HIEROGLYPH O024A:\u{13275}\n\
EGYPTIAN HIEROGLYPH O025:\u{13276}\n\
EGYPTIAN HIEROGLYPH O025A:\u{13277}\n\
EGYPTIAN HIEROGLYPH O026:\u{13278}\n\
EGYPTIAN HIEROGLYPH O027:\u{13279}\n\
EGYPTIAN HIEROGLYPH O028:\u{1327A}\n\
EGYPTIAN HIEROGLYPH O029:\u{1327B}\n\
EGYPTIAN HIEROGLYPH O029A:\u{1327C}\n\
EGYPTIAN HIEROGLYPH O030:\u{1327D}\n\
EGYPTIAN HIEROGLYPH O030A:\u{1327E}\n\
EGYPTIAN HIEROGLYPH O031:\u{1327F}\n\
EGYPTIAN HIEROGLYPH O032:\u{13280}\n\
EGYPTIAN HIEROGLYPH O033:\u{13281}\n\
EGYPTIAN HIEROGLYPH O033A:\u{13282}\n\
EGYPTIAN HIEROGLYPH O034:\u{13283}\n\
EGYPTIAN HIEROGLYPH O035:\u{13284}\n\
EGYPTIAN HIEROGLYPH O036:\u{13285}\n\
EGYPTIAN HIEROGLYPH O036A:\u{13286}\n\
EGYPTIAN HIEROGLYPH O036B:\u{13287}\n\
EGYPTIAN HIEROGLYPH O036C:\u{13288}\n\
EGYPTIAN HIEROGLYPH O036D:\u{13289}\n\
EGYPTIAN HIEROGLYPH O037:\u{1328A}\n\
EGYPTIAN HIEROGLYPH O038:\u{1328B}\n\
EGYPTIAN HIEROGLYPH O039:\u{1328C}\n\
EGYPTIAN HIEROGLYPH O040:\u{1328D}\n\
EGYPTIAN HIEROGLYPH O041:\u{1328E}\n\
EGYPTIAN HIEROGLYPH O042:\u{1328F}\n\
EGYPTIAN HIEROGLYPH O043:\u{13290}\n\
EGYPTIAN HIEROGLYPH O044:\u{13291}\n\
EGYPTIAN HIEROGLYPH O045:\u{13292}\n\
EGYPTIAN HIEROGLYPH O046:\u{13293}\n\
EGYPTIAN HIEROGLYPH O047:\u{13294}\n\
EGYPTIAN HIEROGLYPH O048:\u{13295}\n\
EGYPTIAN HIEROGLYPH O049:\u{13296}\n\
EGYPTIAN HIEROGLYPH O050:\u{13297}\n\
EGYPTIAN HIEROGLYPH O050A:\u{13298}\n\
EGYPTIAN HIEROGLYPH O050B:\u{13299}\n\
EGYPTIAN HIEROGLYPH O051:\u{1329A}\n\
EGYPTIAN HIEROGLYPH P001:\u{1329B}\n\
EGYPTIAN HIEROGLYPH P001A:\u{1329C}\n\
EGYPTIAN HIEROGLYPH P002:\u{1329D}\n\
EGYPTIAN HIEROGLYPH P003:\u{1329E}\n\
EGYPTIAN HIEROGLYPH P003A:\u{1329F}\n\
EGYPTIAN HIEROGLYPH P004:\u{132A0}\n\
EGYPTIAN HIEROGLYPH P005:\u{132A1}\n\
EGYPTIAN HIEROGLYPH P006:\u{132A2}\n\
EGYPTIAN HIEROGLYPH P007:\u{132A3}\n\
EGYPTIAN HIEROGLYPH P008:\u{132A4}\n\
EGYPTIAN HIEROGLYPH P009:\u{132A5}\n\
EGYPTIAN HIEROGLYPH P010:\u{132A6}\n\
EGYPTIAN HIEROGLYPH P011:\u{132A7}\n\
EGYPTIAN HIEROGLYPH Q001:\u{132A8}\n\
EGYPTIAN HIEROGLYPH Q002:\u{132A9}\n\
EGYPTIAN HIEROGLYPH Q003:\u{132AA}\n\
EGYPTIAN HIEROGLYPH Q004:\u{132AB}\n\
EGYPTIAN HIEROGLYPH Q005:\u{132AC}\n\
EGYPTIAN HIEROGLYPH Q006:\u{132AD}\n\
EGYPTIAN HIEROGLYPH Q007:\u{132AE}\n\
EGYPTIAN HIEROGLYPH R001:\u{132AF}\n\
EGYPTIAN HIEROGLYPH R002:\u{132B0}\n\
EGYPTIAN HIEROGLYPH R002A:\u{132B1}\n\
EGYPTIAN HIEROGLYPH R003:\u{132B2}\n\
EGYPTIAN HIEROGLYPH R003A:\u{132B3}\n\
EGYPTIAN HIEROGLYPH R003B:\u{132B4}\n\
EGYPTIAN HIEROGLYPH R004:\u{132B5}\n\
EGYPTIAN HIEROGLYPH R005:\u{132B6}\n\
EGYPTIAN HIEROGLYPH R006:\u{132B7}\n\
EGYPTIAN HIEROGLYPH R007:\u{132B8}\n\
EGYPTIAN HIEROGLYPH R008:\u{132B9}\n\
EGYPTIAN HIEROGLYPH R009:\u{132BA}\n\
EGYPTIAN HIEROGLYPH R010:\u{132BB}\n\
EGYPTIAN HIEROGLYPH R010A:\u{132BC}\n\
EGYPTIAN HIEROGLYPH R011:\u{132BD}\n\
EGYPTIAN HIEROGLYPH R012:\u{132BE}\n\
EGYPTIAN HIEROGLYPH R013:\u{132BF}\n\
EGYPTIAN HIEROGLYPH R014:\u{132C0}\n\
EGYPTIAN HIEROGLYPH R015:\u{132C1}\n\
EGYPTIAN HIEROGLYPH R016:\u{132C2}\n\
EGYPTIAN HIEROGLYPH R016A:\u{132C3}\n\
EGYPTIAN HIEROGLYPH R017:\u{132C4}\n\
EGYPTIAN HIEROGLYPH R018:\u{132C5}\n\
EGYPTIAN HIEROGLYPH R019:\u{132C6}\n\
EGYPTIAN HIEROGLYPH R020:\u{132C7}\n\
EGYPTIAN HIEROGLYPH R021:\u{132C8}\n\
EGYPTIAN HIEROGLYPH R022:\u{132C9}\n\
EGYPTIAN HIEROGLYPH R023:\u{132CA}\n\
EGYPTIAN HIEROGLYPH R024:\u{132CB}\n\
EGYPTIAN HIEROGLYPH R025:\u{132CC}\n\
EGYPTIAN HIEROGLYPH R026:\u{132CD}\n\
EGYPTIAN HIEROGLYPH R027:\u{132CE}\n\
EGYPTIAN HIEROGLYPH R028:\u{132CF}\n\
EGYPTIAN HIEROGLYPH R029:\u{132D0}\n\
EGYPTIAN HIEROGLYPH S001:\u{132D1}\n\
EGYPTIAN HIEROGLYPH S002:\u{132D2}\n\
EGYPTIAN HIEROGLYPH S002A:\u{132D3}\n\
EGYPTIAN HIEROGLYPH S003:\u{132D4}\n\
EGYPTIAN HIEROGLYPH S004:\u{132D5}\n\
EGYPTIAN HIEROGLYPH S005:\u{132D6}\n\
EGYPTIAN HIEROGLYPH S006:\u{132D7}\n\
EGYPTIAN HIEROGLYPH S006A:\u{132D8}\n\
EGYPTIAN HIEROGLYPH S007:\u{132D9}\n\
EGYPTIAN HIEROGLYPH S008:\u{132DA}\n\
EGYPTIAN HIEROGLYPH S009:\u{132DB}\n\
EGYPTIAN HIEROGLYPH S010:\u{132DC}\n\
EGYPTIAN HIEROGLYPH S011:\u{132DD}\n\
EGYPTIAN HIEROGLYPH S012:\u{132DE}\n\
EGYPTIAN HIEROGLYPH S013:\u{132DF}\n\
EGYPTIAN HIEROGLYPH S014:\u{132E0}\n\
EGYPTIAN HIEROGLYPH S014A:\u{132E1}\n\
EGYPTIAN HIEROGLYPH S014B:\u{132E2}\n\
EGYPTIAN HIEROGLYPH S015:\u{132E3}\n\
EGYPTIAN HIEROGLYPH S016:\u{132E4}\n";

pub const NAMES_59: &'static str = "EGYPTIAN HIEROGLYPH S017:\u{132E5}\n\
EGYPTIAN HIEROGLYPH S017A:\u{132E6}\n\
EGYPTIAN HIEROGLYPH S018:\u{132E7}\n\
EGYPTIAN HIEROGLYPH S019:\u{132E8}\n\
EGYPTIAN HIEROGLYPH S020:\u{132E9}\n\
EGYPTIAN HIEROGLYPH S021:\u{132EA}\n\
EGYPTIAN HIEROGLYPH S022:\u{132EB}\n\
EGYPTIAN HIEROGLYPH S023:\u{132EC}\n\
EGYPTIAN HIEROGLYPH S024:\u{132ED}\n\
EGYPTIAN HIEROGLYPH S025:\u{132EE}\n\
EGYPTIAN HIEROGLYPH S026:\u{132EF}\n\
EGYPTIAN HIEROGLYPH S026A:\u{132F0}\n\
EGYPTIAN HIEROGLYPH S026B:\u{132F1}\n\
EGYPTIAN HIEROGLYPH S027:\u{132F2}\n\
EGYPTIAN HIEROGLYPH S028:\u{132F3}\n\
EGYPTIAN HIEROGLYPH S029:\u{132F4}\n\
EGYPTIAN HIEROGLYPH S030:\u{132F5}\n\
EGYPTIAN HIEROGLYPH S031:\u{132F6}\n\
EGYPTIAN HIEROGLYPH S032:\u{132F7}\n\
EGYPTIAN HIEROGLYPH S033:\u{132F8}\n\
EGYPTIAN HIEROGLYPH S034:\u{132F9}\n\
EGYPTIAN HIEROGLYPH S035:\u{132FA}\n\
EGYPTIAN HIEROGLYPH S035A:\u{132FB}\n\
EGYPTIAN HIEROGLYPH S036:\u{132FC}\n\
EGYPTIAN HIEROGLYPH S037:\u{132FD}\n\
EGYPTIAN HIEROGLYPH S038:\u{132FE}\n\
EGYPTIAN HIEROGLYPH S039:\u{132FF}\n\
EGYPTIAN HIEROGLYPH S040:\u{13300}\n\
EGYPTIAN HIEROGLYPH S041:\u{13301}\n\
EGYPTIAN HIEROGLYPH S042:\u{13302}\n\
EGYPTIAN HIEROGLYPH S043:\u{13303}\n\
EGYPTIAN HIEROGLYPH S044:\u{13304}\n\
EGYPTIAN HIEROGLYPH S045:\u{13305}\n\
EGYPTIAN HIEROGLYPH S046:\u{13306}\n\
EGYPTIAN HIEROGLYPH T001:\u{13307}\n\
EGYPTIAN HIEROGLYPH T002:\u{13308}\n\
EGYPTIAN HIEROGLYPH T003:\u{13309}\n\
EGYPTIAN HIEROGLYPH T003A:\u{1330A}\n\
EGYPTIAN HIEROGLYPH T004:\u{1330B}\n\
EGYPTIAN HIEROGLYPH T005:\u{1330C}\n\
EGYPTIAN HIEROGLYPH T006:\u{1330D}\n\
EGYPTIAN HIEROGLYPH T007:\u{1330E}\n\
EGYPTIAN HIEROGLYPH T007A:\u{1330F}\n\
EGYPTIAN HIEROGLYPH T008:\u{13310}\n\
EGYPTIAN HIEROGLYPH T008A:\u{13311}\n\
EGYPTIAN HIEROGLYPH T009:\u{13312}\n\
EGYPTIAN HIEROGLYPH T009A:\u{13313}\n\
EGYPTIAN HIEROGLYPH T010:\u{13314}\n\
EGYPTIAN HIEROGLYPH T011:\u{13315}\n\
EGYPTIAN HIEROGLYPH T011A:\u{13316}\n\
EGYPTIAN HIEROGLYPH T012:\u{13317}\n\
EGYPTIAN HIEROGLYPH T013:\u{13318}\n\
EGYPTIAN HIEROGLYPH T014:\u{13319}\n\
EGYPTIAN HIEROGLYPH T015:\u{1331A}\n\
EGYPTIAN HIEROGLYPH T016:\u{1331B}\n\
EGYPTIAN HIEROGLYPH T016A:\u{1331C}\n\
EGYPTIAN HIEROGLYPH T017:\u{1331D}\n\
EGYPTIAN HIEROGLYPH T018:\u{1331E}\n\
EGYPTIAN HIEROGLYPH T019:\u{1331F}\n\
EGYPTIAN HIEROGLYPH T020:\u{13320}\n\
EGYPTIAN HIEROGLYPH T021:\u{13321}\n\
EGYPTIAN HIEROGLYPH T022:\u{13322}\n\
EGYPTIAN HIEROGLYPH T023:\u{13323}\n\
EGYPTIAN HIEROGLYPH T024:\u{13324}\n\
EGYPTIAN HIEROGLYPH T025:\u{13325}\n\
EGYPTIAN HIEROGLYPH T026:\u{13326}\n\
EGYPTIAN HIEROGLYPH T027:\u{13327}\n\
EGYPTIAN HIEROGLYPH T028:\u{13328}\n\
EGYPTIAN HIEROGLYPH T029:\u{13329}\n\
EGYPTIAN HIEROGLYPH T030:\u{1332A}\n\
EGYPTIAN HIEROGLYPH T031:\u{1332B}\n\
EGYPTIAN HIEROGLYPH T032:\u{1332C}\n\
EGYPTIAN HIEROGLYPH T032A:\u{1332D}\n\
EGYPTIAN HIEROGLYPH T033:\u{1332E}\n\
EGYPTIAN HIEROGLYPH T033A:\u{1332F}\n\
EGYPTIAN HIEROGLYPH T034:\u{13330}\n\
EGYPTIAN HIEROGLYPH T035:\u{13331}\n\
EGYPTIAN HIEROGLYPH T036:\u{13332}\n\
EGYPTIAN HIEROGLYPH U001:\u{13333}\n\
EGYPTIAN HIEROGLYPH U002:\u{13334}\n\
EGYPTIAN HIEROGLYPH U003:\u{13335}\n\
EGYPTIAN HIEROGLYPH U004:\u{13336}\n\
EGYPTIAN HIEROGLYPH U005:\u{13337}\n\
EGYPTIAN HIEROGLYPH U006:\u{13338}\n\
EGYPTIAN HIEROGLYPH U006A:\u{13339}\n\
EGYPTIAN HIEROGLYPH U006B:\u{1333A}\n\
EGYPTIAN HIEROGLYPH U007:\u{1333B}\n\
EGYPTIAN HIEROGLYPH U008:\u{1333C}\n\
EGYPTIAN HIEROGLYPH U009:\u{1333D}\n\
EGYPTIAN HIEROGLYPH U010:\u{1333E}\n\
EGYPTIAN HIEROGLYPH U011:\u{1333F}\n\
EGYPTIAN HIEROGLYPH U012:\u{13340}\n\
EGYPTIAN HIEROGLYPH U013:\u{13341}\n\
EGYPTIAN HIEROGLYPH U014:\u{13342}\n\
EGYPTIAN HIEROGLYPH U015:\u{13343}\n\
EGYPTIAN HIEROGLYPH U016:\u{13344}\n\
EGYPTIAN HIEROGLYPH U017:\u{13345}\n\
EGYPTIAN HIEROGLYPH U018:\u{13346}\n\
EGYPTIAN HIEROGLYPH U019:\u{13347}\n\
EGYPTIAN HIEROGLYPH U020:\u{13348}\n\
EGYPTIAN HIEROGLYPH U021:\u{13349}\n\
EGYPTIAN HIEROGLYPH U022:\u{1334A}\n\
EGYPTIAN HIEROGLYPH U023:\u{1334B}\n\
EGYPTIAN HIEROGLYPH U023A:\u{1334C}\n\
EGYPTIAN HIEROGLYPH U024:\u{1334D}\n\
EGYPTIAN HIEROGLYPH U025:\u{1334E}\n\
EGYPTIAN HIEROGLYPH U026:\u{1334F}\n\
EGYPTIAN HIEROGLYPH U027:\u{13350}\n\
EGYPTIAN HIEROGLYPH U028:\u{13351}\n\
EGYPTIAN HIEROGLYPH U029:\u{13352}\n\
EGYPTIAN HIEROGLYPH U029A:\u{13353}\n\
EGYPTIAN HIEROGLYPH U030:\u{13354}\n\
EGYPTIAN HIEROGLYPH U031:\u{13355}\n\
EGYPTIAN HIEROGLYPH U032:\u{13356}\n\
EGYPTIAN HIEROGLYPH U032A:\u{13357}\n\
EGYPTIAN HIEROGLYPH U033:\u{13358}\n\
EGYPTIAN HIEROGLYPH U034:\u{13359}\n\
EGYPTIAN HIEROGLYPH U035:\u{1335A}\n\
EGYPTIAN HIEROGLYPH U036:\u{1335B}\n\
EGYPTIAN HIEROGLYPH U037:\u{1335C}\n\
EGYPTIAN HIEROGLYPH U038:\u{1335D}\n\
EGYPTIAN HIEROGLYPH U039:\u{1335E}\n\
EGYPTIAN HIEROGLYPH U040:\u{1335F}\n\
EGYPTIAN HIEROGLYPH U041:\u{13360}\n\
EGYPTIAN HIEROGLYPH U042:\u{13361}\n\
EGYPTIAN HIEROGLYPH V001:\u{13362}\n\
EGYPTIAN HIEROGLYPH V001A:\u{13363}\n\
EGYPTIAN HIEROGLYPH V001B:\u{13364}\n\
EGYPTIAN HIEROGLYPH V001C:\u{13365}\n\
EGYPTIAN HIEROGLYPH V001D:\u{13366}\n\
EGYPTIAN HIEROGLYPH V001E:\u{13367}\n\
EGYPTIAN HIEROGLYPH V001F:\u{13368}\n\
EGYPTIAN HIEROGLYPH V001G:\u{13369}\n\
EGYPTIAN HIEROGLYPH V001H:\u{1336A}\n\
EGYPTIAN HIEROGLYPH V001I:\u{1336B}\n\
EGYPTIAN HIEROGLYPH V002:\u{1336C}\n\
EGYPTIAN HIEROGLYPH V002A:\u{1336D}\n\
EGYPTIAN HIEROGLYPH V003:\u{1336E}\n\
EGYPTIAN HIEROGLYPH V004:\u{1336F}\n\
EGYPTIAN HIEROGLYPH V005:\u{13370}\n\
EGYPTIAN HIEROGLYPH V006:\u{13371}\n\
EGYPTIAN HIEROGLYPH V007:\u{13372}\n\
EGYPTIAN HIEROGLYPH V007A:\u{13373}\n\
EGYPTIAN HIEROGLYPH V007B:\u{13374}\n\
EGYPTIAN HIEROGLYPH V008:\u{13375}\n\
EGYPTIAN HIEROGLYPH V009:\u{13376}\n\
EGYPTIAN HIEROGLYPH V010:\u{13377}\n\
EGYPTIAN HIEROGLYPH V011:\u{13378}\n\
EGYPTIAN HIEROGLYPH V011A:\u{13379}\n\
EGYPTIAN HIEROGLYPH V011B:\u{1337A}\n\
EGYPTIAN HIEROGLYPH V011C:\u{1337B}\n\
EGYPTIAN HIEROGLYPH V012:\u{1337C}\n\
EGYPTIAN HIEROGLYPH V012A:\u{1337D}\n\
EGYPTIAN HIEROGLYPH V012B:\u{1337E}\n\
EGYPTIAN HIEROGLYPH V013:\u{1337F}\n\
EGYPTIAN HIEROGLYPH V014:\u{13380}\n\
EGYPTIAN HIEROGLYPH V015:\u{13381}\n\
EGYPTIAN HIEROGLYPH V016:\u{13382}\n\
EGYPTIAN HIEROGLYPH V017:\u{13383}\n\
EGYPTIAN HIEROGLYPH V018:\u{13384}\n\
EGYPTIAN HIEROGLYPH V019:\u{13385}\n\
EGYPTIAN HIEROGLYPH V020:\u{13386}\n\
EGYPTIAN HIEROGLYPH V020A:\u{13387}\n\
EGYPTIAN HIEROGLYPH V020B:\u{13388}\n\
EGYPTIAN HIEROGLYPH V020C:\u{13389}\n\
EGYPTIAN HIEROGLYPH V020D:\u{1338A}\n\
EGYPTIAN HIEROGLYPH V020E:\u{1338B}\n\
EGYPTIAN HIEROGLYPH V020F:\u{1338C}\n\
EGYPTIAN HIEROGLYPH V020G:\u{1338D}\n\
EGYPTIAN HIEROGLYPH V020H:\u{1338E}\n\
EGYPTIAN HIEROGLYPH V020I:\u{1338F}\n\
EGYPTIAN HIEROGLYPH V020J:\u{13390}\n\
EGYPTIAN HIEROGLYPH V020K:\u{13391}\n\
EGYPTIAN HIEROGLYPH V020L:\u{13392}\n\
EGYPTIAN HIEROGLYPH V021:\u{13393}\n\
EGYPTIAN HIEROGLYPH V022:\u{13394}\n\
EGYPTIAN HIEROGLYPH V023:\u{13395}\n\
EGYPTIAN HIEROGLYPH V023A:\u{13396}\n\
EGYPTIAN HIEROGLYPH V024:\u{13397}\n\
EGYPTIAN HIEROGLYPH V025:\u{13398}\n\
EGYPTIAN HIEROGLYPH V026:\u{13399}\n\
EGYPTIAN HIEROGLYPH V027:\u{1339A}\n\
EGYPTIAN HIEROGLYPH V028:\u{1339B}\n\
EGYPTIAN HIEROGLYPH V028A:\u{1339C}\n\
EGYPTIAN HIEROGLYPH V029:\u{1339D}\n\
EGYPTIAN HIEROGLYPH V029A:\u{1339E}\n\
EGYPTIAN HIEROGLYPH V030:\u{1339F}\n\
EGYPTIAN HIEROGLYPH V030A:\u{133A0}\n\
EGYPTIAN HIEROGLYPH V031:\u{133A1}\n\
EGYPTIAN HIEROGLYPH V031A:\u{133A2}\n\
EGYPTIAN HIEROGLYPH V032:\u{133A3}\n\
EGYPTIAN HIEROGLYPH V033:\u{133A4}\n\
EGYPTIAN HIEROGLYPH V033A:\u{133A5}\n\
EGYPTIAN HIEROGLYPH V034:\u{133A6}\n\
EGYPTIAN HIEROGLYPH V035:\u{133A7}\n\
EGYPTIAN HIEROGLYPH V036:\u{133A8}\n\
EGYPTIAN HIEROGLYPH V037:\u{133A9}\n\
EGYPTIAN HIEROGLYPH V037A:\u{133AA}\n\
EGYPTIAN HIEROGLYPH V038:\u{133AB}\n\
EGYPTIAN HIEROGLYPH V039:\u{133AC}\n\
EGYPTIAN HIEROGLYPH V040:\u{133AD}\n\
EGYPTIAN HIEROGLYPH V040A:\u{133AE}\n\
EGYPTIAN HIEROGLYPH W001:\u{133AF}\n\
EGYPTIAN HIEROGLYPH W002:\u{133B0}\n\
EGYPTIAN HIEROGLYPH W003:\u{133B1}\n\
EGYPTIAN HIEROGLYPH W003A:\u{133B2}\n\
EGYPTIAN HIEROGLYPH W004:\u{133B3}\n\
EGYPTIAN HIEROGLYPH W005:\u{133B4}\n\
EGYPTIAN HIEROGLYPH W006:\u{133B5}\n\
EGYPTIAN HIEROGLYPH W007:\u{133B6}\n\
EGYPTIAN HIEROGLYPH W008:\u{133B7}\n\
EGYPTIAN HIEROGLYPH W009:\u{133B8}\n\
EGYPTIAN HIEROGLYPH W009A:\u{133B9}\n\
EGYPTIAN HIEROGLYPH W010:\u{133BA}\n\
EGYPTIAN HIEROGLYPH W010A:\u{133BB}\n\
EGYPTIAN HIEROGLYPH W011:\u{133BC}\n\
EGYPTIAN HIEROGLYPH W012:\u{133BD}\n\
EGYPTIAN HIEROGLYPH W013:\u{133BE}\n\
EGYPTIAN HIEROGLYPH W014:\u{133BF}\n\
EGYPTIAN HIEROGLYPH W014A:\u{133C0}\n\
EGYPTIAN HIEROGLYPH W015:\u{133C1}\n\
EGYPTIAN HIEROGLYPH W016:\u{133C2}\n\
EGYPTIAN HIEROGLYPH W017:\u{133C3}\n\
EGYPTIAN HIEROGLYPH W017A:\u{133C4}\n\
EGYPTIAN HIEROGLYPH W018:\u{133C5}\n\
EGYPTIAN HIEROGLYPH W018A:\u{133C6}\n\
EGYPTIAN HIEROGLYPH W019:\u{133C7}\n\
EGYPTIAN HIEROGLYPH W020:\u{133C8}\n\
EGYPTIAN HIEROGLYPH W021:\u{133C9}\n\
EGYPTIAN HIEROGLYPH W022:\u{133CA}\n\
EGYPTIAN HIEROGLYPH W023:\u{133CB}\n\
EGYPTIAN HIEROGLYPH W024:\u{133CC}\n\
EGYPTIAN HIEROGLYPH W024A:\u{133CD}\n\
EGYPTIAN HIEROGLYPH W025:\u{133CE}\n\
EGYPTIAN HIEROGLYPH X001:\u{133CF}\n\
EGYPTIAN HIEROGLYPH X002:\u{133D0}\n\
EGYPTIAN HIEROGLYPH X003:\u{133D1}\n\
EGYPTIAN HIEROGLYPH X004:\u{133D2}\n\
EGYPTIAN HIEROGLYPH X004A:\u{133D3}\n\
EGYPTIAN HIEROGLYPH X004B:\u{133D4}\n\
EGYPTIAN HIEROGLYPH X005:\u{133D5}\n\
EGYPTIAN HIEROGLYPH X006:\u{133D6}\n\
EGYPTIAN HIEROGLYPH X006A:\u{133D7}\n\
EGYPTIAN HIEROGLYPH X007:\u{133D8}\n\
EGYPTIAN HIEROGLYPH X008:\u{133D9}\n\
EGYPTIAN HIEROGLYPH X008A:\u{133DA}\n\
EGYPTIAN HIEROGLYPH Y001:\u{133DB}\n\
EGYPTIAN HIEROGLYPH Y001A:\u{133DC}\n\
EGYPTIAN HIEROGLYPH Y002:\u{133DD}\n\
EGYPTIAN HIEROGLYPH Y003:\u{133DE}\n\
EGYPTIAN HIEROGLYPH Y004:\u{133DF}\n\
EGYPTIAN HIEROGLYPH Y005:\u{133E0}\n\
EGYPTIAN HIEROGLYPH Y006:\u{133E1}\n\
EGYPTIAN HIEROGLYPH Y007:\u{133E2}\n\
EGYPTIAN HIEROGLYPH Y008:\u{133E3}\n\
EGYPTIAN HIEROGLYPH Z001:\u{133E4}\n\
EGYPTIAN HIEROGLYPH Z002:\u{133E5}\n\
EGYPTIAN HIEROGLYPH Z002A:\u{133E6}\n\
EGYPTIAN HIEROGLYPH Z002B:\u{133E7}\n\
EGYPTIAN HIEROGLYPH Z002C:\u{133E8}\n\
EGYPTIAN HIEROGLYPH Z002D:\u{133E9}\n\
EGYPTIAN HIEROGLYPH Z003:\u{133EA}\n\
EGYPTIAN HIEROGLYPH Z003A:\u{133EB}\n\
EGYPTIAN HIEROGLYPH Z003B:\u{133EC}\n\
EGYPTIAN HIEROGLYPH Z004:\u{133ED}\n\
EGYPTIAN HIEROGLYPH Z004A:\u{133EE}\n\
EGYPTIAN HIEROGLYPH Z005:\u{133EF}\n\
EGYPTIAN HIEROGLYPH Z005A:\u{133F0}\n\
EGYPTIAN HIEROGLYPH Z006:\u{133F1}\n\
EGYPTIAN HIEROGLYPH Z007:\u{133F2}\n\
EGYPTIAN HIEROGLYPH Z008:\u{133F3}\n\
EGYPTIAN HIEROGLYPH Z009:\u{133F4}\n\
EGYPTIAN HIEROGLYPH Z010:\u{133F5}\n\
EGYPTIAN HIEROGLYPH Z011:\u{133F6}\n\
EGYPTIAN HIEROGLYPH Z012:\u{133F7}\n\
EGYPTIAN HIEROGLYPH Z013:\u{133F8}\n\
EGYPTIAN HIEROGLYPH Z014:\u{133F9}\n\
EGYPTIAN HIEROGLYPH Z015:\u{133FA}\n\
EGYPTIAN HIEROGLYPH Z015A:\u{133FB}\n\
EGYPTIAN HIEROGLYPH Z015B:\u{133FC}\n\
EGYPTIAN HIEROGLYPH Z015C:\u{133FD}\n\
EGYPTIAN HIEROGLYPH Z015D:\u{133FE}\n\
EGYPTIAN HIEROGLYPH Z015E:\u{133FF}\n\
EGYPTIAN HIEROGLYPH Z015F:\u{13400}\n\
EGYPTIAN HIEROGLYPH Z015G:\u{13401}\n\
EGYPTIAN HIEROGLYPH Z015H:\u{13402}\n\
EGYPTIAN HIEROGLYPH Z015I:\u{13403}\n\
EGYPTIAN HIEROGLYPH Z016:\u{13404}\n\
EGYPTIAN HIEROGLYPH Z016A:\u{13405}\n\
EGYPTIAN HIEROGLYPH Z016B:\u{13406}\n\
EGYPTIAN HIEROGLYPH Z016C:\u{13407}\n\
EGYPTIAN HIEROGLYPH Z016D:\u{13408}\n\
EGYPTIAN HIEROGLYPH Z016E:\u{13409}\n\
EGYPTIAN HIEROGLYPH Z016F:\u{1340A}\n\
EGYPTIAN HIEROGLYPH Z016G:\u{1340B}\n\
EGYPTIAN HIEROGLYPH Z016H:\u{1340C}\n\
EGYPTIAN HIEROGLYPH AA001:\u{1340D}\n\
EGYPTIAN HIEROGLYPH AA002:\u{1340E}\n\
EGYPTIAN HIEROGLYPH AA003:\u{1340F}\n\
EGYPTIAN HIEROGLYPH AA004:\u{13410}\n\
EGYPTIAN HIEROGLYPH AA005:\u{13411}\n\
EGYPTIAN HIEROGLYPH AA006:\u{13412}\n\
EGYPTIAN HIEROGLYPH AA007:\u{13413}\n\
EGYPTIAN HIEROGLYPH AA007A:\u{13414}\n\
EGYPTIAN HIEROGLYPH AA007B:\u{13415}\n\
EGYPTIAN HIEROGLYPH AA008:\u{13416}\n\
EGYPTIAN HIEROGLYPH AA009:\u{13417}\n\
EGYPTIAN HIEROGLYPH AA010:\u{13418}\n\
EGYPTIAN HIEROGLYPH AA011:\u{13419}\n\
EGYPTIAN HIEROGLYPH AA012:\u{1341A}\n\
EGYPTIAN HIEROGLYPH AA013:\u{1341B}\n\
EGYPTIAN HIEROGLYPH AA014:\u{1341C}\n\
EGYPTIAN HIEROGLYPH AA015:\u{1341D}\n\
EGYPTIAN HIEROGLYPH AA016:\u{1341E}\n\
EGYPTIAN HIEROGLYPH AA017:\u{1341F}\n\
EGYPTIAN HIEROGLYPH AA018:\u{13420}\n\
EGYPTIAN HIEROGLYPH AA019:\u{13421}\n\
EGYPTIAN HIEROGLYPH AA020:\u{13422}\n\
EGYPTIAN HIEROGLYPH AA021:\u{13423}\n\
EGYPTIAN HIEROGLYPH AA022:\u{13424}\n\
EGYPTIAN HIEROGLYPH AA023:\u{13425}\n\
EGYPTIAN HIEROGLYPH AA024:\u{13426}\n\
EGYPTIAN HIEROGLYPH AA025:\u{13427}\n\
EGYPTIAN HIEROGLYPH AA026:\u{13428}\n\
EGYPTIAN HIEROGLYPH AA027:\u{13429}\n\
EGYPTIAN HIEROGLYPH AA028:\u{1342A}\n\
EGYPTIAN HIEROGLYPH AA029:\u{1342B}\n\
EGYPTIAN HIEROGLYPH AA030:\u{1342C}\n\
EGYPTIAN HIEROGLYPH AA031:\u{1342D}\n\
EGYPTIAN HIEROGLYPH AA032:\u{1342E}\n\
EGYPTIAN HIEROGLYPH VERTICAL JOINER:\u{13430}\n\
EGYPTIAN HIEROGLYPH HORIZONTAL JOINER:\u{13431}\n\
EGYPTIAN HIEROGLYPH INSERT AT TOP START:\u{13432}\n\
EGYPTIAN HIEROGLYPH INSERT AT BOTTOM START:\u{13433}\n\
EGYPTIAN HIEROGLYPH INSERT AT TOP END:\u{13434}\n\
EGYPTIAN HIEROGLYPH INSERT AT BOTTOM END:\u{13435}\n\
EGYPTIAN HIEROGLYPH OVERLAY MIDDLE:\u{13436}\n\
EGYPTIAN HIEROGLYPH BEGIN SEGMENT:\u{13437}\n\
EGYPTIAN HIEROGLYPH END SEGMENT:\u{13438}\n\
ANATOLIAN HIEROGLYPH A001:\u{14400}\n\
ANATOLIAN HIEROGLYPH A002:\u{14401}\n\
ANATOLIAN HIEROGLYPH A003:\u{14402}\n\
ANATOLIAN HIEROGLYPH A004:\u{14403}\n\
ANATOLIAN HIEROGLYPH A005:\u{14404}\n\
ANATOLIAN HIEROGLYPH A006:\u{14405}\n\
ANATOLIAN HIEROGLYPH A007:\u{14406}\n\
ANATOLIAN HIEROGLYPH A008:\u{14407}\n\
ANATOLIAN HIEROGLYPH A009:\u{14408}\n\
ANATOLIAN HIEROGLYPH A010:\u{14409}\n\
ANATOLIAN HIEROGLYPH A010A:\u{1440A}\n\
ANATOLIAN HIEROGLYPH A011:\u{1440B}\n\
ANATOLIAN HIEROGLYPH A012:\u{1440C}\n\
ANATOLIAN HIEROGLYPH A013:\u{1440D}\n\
ANATOLIAN HIEROGLYPH A014:\u{1440E}\n\
ANATOLIAN HIEROGLYPH A015:\u{1440F}\n\
ANATOLIAN HIEROGLYPH A016:\u{14410}\n\
ANATOLIAN HIEROGLYPH A017:\u{14411}\n\
ANATOLIAN HIEROGLYPH A018:\u{14412}\n\
ANATOLIAN HIEROGLYPH A019:\u{14413}\n\
ANATOLIAN HIEROGLYPH A020:\u{14414}\n\
ANATOLIAN HIEROGLYPH A021:\u{14415}\n\
ANATOLIAN HIEROGLYPH A022:\u{14416}\n\
ANATOLIAN HIEROGLYPH A023:\u{14417}\n\
ANATOLIAN HIEROGLYPH A024:\u{14418}\n\
ANATOLIAN HIEROGLYPH A025:\u{14419}\n\
ANATOLIAN HIEROGLYPH A026:\u{1441A}\n\
ANATOLIAN HIEROGLYPH A026A:\u{1441B}\n\
ANATOLIAN HIEROGLYPH A027:\u{1441C}\n\
ANATOLIAN HIEROGLYPH A028:\u{1441D}\n\
ANATOLIAN HIEROGLYPH A029:\u{1441E}\n\
ANATOLIAN HIEROGLYPH A030:\u{1441F}\n\
ANATOLIAN HIEROGLYPH A031:\u{14420}\n\
ANATOLIAN HIEROGLYPH A032:\u{14421}\n\
ANATOLIAN HIEROGLYPH A033:\u{14422}\n\
ANATOLIAN HIEROGLYPH A034:\u{14423}\n\
ANATOLIAN HIEROGLYPH A035:\u{14424}\n\
ANATOLIAN HIEROGLYPH A036:\u{14425}\n\
ANATOLIAN HIEROGLYPH A037:\u{14426}\n\
ANATOLIAN HIEROGLYPH A038:\u{14427}\n\
ANATOLIAN HIEROGLYPH A039:\u{14428}\n\
ANATOLIAN HIEROGLYPH A039A:\u{14429}\n\
ANATOLIAN HIEROGLYPH A040:\u{1442A}\n\
ANATOLIAN HIEROGLYPH A041:\u{1442B}\n\
ANATOLIAN HIEROGLYPH A041A:\u{1442C}\n\
ANATOLIAN HIEROGLYPH A042:\u{1442D}\n\
ANATOLIAN HIEROGLYPH A043:\u{1442E}\n\
ANATOLIAN HIEROGLYPH A044:\u{1442F}\n";

pub const NAMES_60: &'static str = "ANATOLIAN HIEROGLYPH A045:\u{14430}\n\
ANATOLIAN HIEROGLYPH A045A:\u{14431}\n\
ANATOLIAN HIEROGLYPH A046:\u{14432}\n\
ANATOLIAN HIEROGLYPH A046A:\u{14433}\n\
ANATOLIAN HIEROGLYPH A046B:\u{14434}\n\
ANATOLIAN HIEROGLYPH A047:\u{14435}\n\
ANATOLIAN HIEROGLYPH A048:\u{14436}\n\
ANATOLIAN HIEROGLYPH A049:\u{14437}\n\
ANATOLIAN HIEROGLYPH A050:\u{14438}\n\
ANATOLIAN HIEROGLYPH A051:\u{14439}\n\
ANATOLIAN HIEROGLYPH A052:\u{1443A}\n\
ANATOLIAN HIEROGLYPH A053:\u{1443B}\n\
ANATOLIAN HIEROGLYPH A054:\u{1443C}\n\
ANATOLIAN HIEROGLYPH A055:\u{1443D}\n\
ANATOLIAN HIEROGLYPH A056:\u{1443E}\n\
ANATOLIAN HIEROGLYPH A057:\u{1443F}\n\
ANATOLIAN HIEROGLYPH A058:\u{14440}\n\
ANATOLIAN HIEROGLYPH A059:\u{14441}\n\
ANATOLIAN HIEROGLYPH A060:\u{14442}\n\
ANATOLIAN HIEROGLYPH A061:\u{14443}\n\
ANATOLIAN HIEROGLYPH A062:\u{14444}\n\
ANATOLIAN HIEROGLYPH A063:\u{14445}\n\
ANATOLIAN HIEROGLYPH A064:\u{14446}\n\
ANATOLIAN HIEROGLYPH A065:\u{14447}\n\
ANATOLIAN HIEROGLYPH A066:\u{14448}\n\
ANATOLIAN HIEROGLYPH A066A:\u{14449}\n\
ANATOLIAN HIEROGLYPH A066B:\u{1444A}\n\
ANATOLIAN HIEROGLYPH A066C:\u{1444B}\n\
ANATOLIAN HIEROGLYPH A067:\u{1444C}\n\
ANATOLIAN HIEROGLYPH A068:\u{1444D}\n\
ANATOLIAN HIEROGLYPH A069:\u{1444E}\n\
ANATOLIAN HIEROGLYPH A070:\u{1444F}\n\
ANATOLIAN HIEROGLYPH A071:\u{14450}\n\
ANATOLIAN HIEROGLYPH A072:\u{14451}\n\
ANATOLIAN HIEROGLYPH A073:\u{14452}\n\
ANATOLIAN HIEROGLYPH A074:\u{14453}\n\
ANATOLIAN HIEROGLYPH A075:\u{14454}\n\
ANATOLIAN HIEROGLYPH A076:\u{14455}\n\
ANATOLIAN HIEROGLYPH A077:\u{14456}\n\
ANATOLIAN HIEROGLYPH A078:\u{14457}\n\
ANATOLIAN HIEROGLYPH A079:\u{14458}\n\
ANATOLIAN HIEROGLYPH A080:\u{14459}\n\
ANATOLIAN HIEROGLYPH A081:\u{1445A}\n\
ANATOLIAN HIEROGLYPH A082:\u{1445B}\n\
ANATOLIAN HIEROGLYPH A083:\u{1445C}\n\
ANATOLIAN HIEROGLYPH A084:\u{1445D}\n\
ANATOLIAN HIEROGLYPH A085:\u{1445E}\n\
ANATOLIAN HIEROGLYPH A086:\u{1445F}\n\
ANATOLIAN HIEROGLYPH A087:\u{14460}\n\
ANATOLIAN HIEROGLYPH A088:\u{14461}\n\
ANATOLIAN HIEROGLYPH A089:\u{14462}\n\
ANATOLIAN HIEROGLYPH A090:\u{14463}\n\
ANATOLIAN HIEROGLYPH A091:\u{14464}\n\
ANATOLIAN HIEROGLYPH A092:\u{14465}\n\
ANATOLIAN HIEROGLYPH A093:\u{14466}\n\
ANATOLIAN HIEROGLYPH A094:\u{14467}\n\
ANATOLIAN HIEROGLYPH A095:\u{14468}\n\
ANATOLIAN HIEROGLYPH A096:\u{14469}\n\
ANATOLIAN HIEROGLYPH A097:\u{1446A}\n\
ANATOLIAN HIEROGLYPH A097A:\u{1446B}\n\
ANATOLIAN HIEROGLYPH A098:\u{1446C}\n\
ANATOLIAN HIEROGLYPH A098A:\u{1446D}\n\
ANATOLIAN HIEROGLYPH A099:\u{1446E}\n\
ANATOLIAN HIEROGLYPH A100:\u{1446F}\n\
ANATOLIAN HIEROGLYPH A100A:\u{14470}\n\
ANATOLIAN HIEROGLYPH A101:\u{14471}\n\
ANATOLIAN HIEROGLYPH A101A:\u{14472}\n\
ANATOLIAN HIEROGLYPH A102:\u{14473}\n\
ANATOLIAN HIEROGLYPH A102A:\u{14474}\n\
ANATOLIAN HIEROGLYPH A103:\u{14475}\n\
ANATOLIAN HIEROGLYPH A104:\u{14476}\n\
ANATOLIAN HIEROGLYPH A104A:\u{14477}\n\
ANATOLIAN HIEROGLYPH A104B:\u{14478}\n\
ANATOLIAN HIEROGLYPH A104C:\u{14479}\n\
ANATOLIAN HIEROGLYPH A105:\u{1447A}\n\
ANATOLIAN HIEROGLYPH A105A:\u{1447B}\n\
ANATOLIAN HIEROGLYPH A105B:\u{1447C}\n\
ANATOLIAN HIEROGLYPH A106:\u{1447D}\n\
ANATOLIAN HIEROGLYPH A107:\u{1447E}\n\
ANATOLIAN HIEROGLYPH A107A:\u{1447F}\n\
ANATOLIAN HIEROGLYPH A107B:\u{14480}\n\
ANATOLIAN HIEROGLYPH A107C:\u{14481}\n\
ANATOLIAN HIEROGLYPH A108:\u{14482}\n\
ANATOLIAN HIEROGLYPH A109:\u{14483}\n\
ANATOLIAN HIEROGLYPH A110:\u{14484}\n\
ANATOLIAN HIEROGLYPH A110A:\u{14485}\n\
ANATOLIAN HIEROGLYPH A110B:\u{14486}\n\
ANATOLIAN HIEROGLYPH A111:\u{14487}\n\
ANATOLIAN HIEROGLYPH A112:\u{14488}\n\
ANATOLIAN HIEROGLYPH A113:\u{14489}\n\
ANATOLIAN HIEROGLYPH A114:\u{1448A}\n\
ANATOLIAN HIEROGLYPH A115:\u{1448B}\n\
ANATOLIAN HIEROGLYPH A115A:\u{1448C}\n\
ANATOLIAN HIEROGLYPH A116:\u{1448D}\n\
ANATOLIAN HIEROGLYPH A117:\u{1448E}\n\
ANATOLIAN HIEROGLYPH A118:\u{1448F}\n\
ANATOLIAN HIEROGLYPH A119:\u{14490}\n\
ANATOLIAN HIEROGLYPH A120:\u{14491}\n\
ANATOLIAN HIEROGLYPH A121:\u{14492}\n\
ANATOLIAN HIEROGLYPH A122:\u{14493}\n\
ANATOLIAN HIEROGLYPH A123:\u{14494}\n\
ANATOLIAN HIEROGLYPH A124:\u{14495}\n\
ANATOLIAN HIEROGLYPH A125:\u{14496}\n\
ANATOLIAN HIEROGLYPH A125A:\u{14497}\n\
ANATOLIAN HIEROGLYPH A126:\u{14498}\n\
ANATOLIAN HIEROGLYPH A127:\u{14499}\n\
ANATOLIAN HIEROGLYPH A128:\u{1449A}\n\
ANATOLIAN HIEROGLYPH A129:\u{1449B}\n\
ANATOLIAN HIEROGLYPH A130:\u{1449C}\n\
ANATOLIAN HIEROGLYPH A131:\u{1449D}\n\
ANATOLIAN HIEROGLYPH A132:\u{1449E}\n\
ANATOLIAN HIEROGLYPH A133:\u{1449F}\n\
ANATOLIAN HIEROGLYPH A134:\u{144A0}\n\
ANATOLIAN HIEROGLYPH A135:\u{144A1}\n\
ANATOLIAN HIEROGLYPH A135A:\u{144A2}\n\
ANATOLIAN HIEROGLYPH A136:\u{144A3}\n\
ANATOLIAN HIEROGLYPH A137:\u{144A4}\n\
ANATOLIAN HIEROGLYPH A138:\u{144A5}\n\
ANATOLIAN HIEROGLYPH A139:\u{144A6}\n\
ANATOLIAN HIEROGLYPH A140:\u{144A7}\n\
ANATOLIAN HIEROGLYPH A141:\u{144A8}\n\
ANATOLIAN HIEROGLYPH A142:\u{144A9}\n\
ANATOLIAN HIEROGLYPH A143:\u{144AA}\n\
ANATOLIAN HIEROGLYPH A144:\u{144AB}\n\
ANATOLIAN HIEROGLYPH A145:\u{144AC}\n\
ANATOLIAN HIEROGLYPH A146:\u{144AD}\n\
ANATOLIAN HIEROGLYPH A147:\u{144AE}\n\
ANATOLIAN HIEROGLYPH A148:\u{144AF}\n\
ANATOLIAN HIEROGLYPH A149:\u{144B0}\n\
ANATOLIAN HIEROGLYPH A150:\u{144B1}\n\
ANATOLIAN HIEROGLYPH A151:\u{144B2}\n\
ANATOLIAN HIEROGLYPH A152:\u{144B3}\n\
ANATOLIAN HIEROGLYPH A153:\u{144B4}\n\
ANATOLIAN HIEROGLYPH A154:\u{144B5}\n\
ANATOLIAN HIEROGLYPH A155:\u{144B6}\n\
ANATOLIAN HIEROGLYPH A156:\u{144B7}\n\
ANATOLIAN HIEROGLYPH A157:\u{144B8}\n\
ANATOLIAN HIEROGLYPH A158:\u{144B9}\n\
ANATOLIAN HIEROGLYPH A159:\u{144BA}\n\
ANATOLIAN HIEROGLYPH A160:\u{144BB}\n\
ANATOLIAN HIEROGLYPH A161:\u{144BC}\n\
ANATOLIAN HIEROGLYPH A162:\u{144BD}\n\
ANATOLIAN HIEROGLYPH A163:\u{144BE}\n\
ANATOLIAN HIEROGLYPH A164:\u{144BF}\n\
ANATOLIAN HIEROGLYPH A165:\u{144C0}\n\
ANATOLIAN HIEROGLYPH A166:\u{144C1}\n\
ANATOLIAN HIEROGLYPH A167:\u{144C2}\n\
ANATOLIAN HIEROGLYPH A168:\u{144C3}\n\
ANATOLIAN HIEROGLYPH A169:\u{144C4}\n\
ANATOLIAN HIEROGLYPH A170:\u{144C5}\n\
ANATOLIAN HIEROGLYPH A171:\u{144C6}\n\
ANATOLIAN HIEROGLYPH A172:\u{144C7}\n\
ANATOLIAN HIEROGLYPH A173:\u{144C8}\n\
ANATOLIAN HIEROGLYPH A174:\u{144C9}\n\
ANATOLIAN HIEROGLYPH A175:\u{144CA}\n\
ANATOLIAN HIEROGLYPH A176:\u{144CB}\n\
ANATOLIAN HIEROGLYPH A177:\u{144CC}\n\
ANATOLIAN HIEROGLYPH A178:\u{144CD}\n\
ANATOLIAN HIEROGLYPH A179:\u{144CE}\n\
ANATOLIAN HIEROGLYPH A180:\u{144CF}\n\
ANATOLIAN HIEROGLYPH A181:\u{144D0}\n\
ANATOLIAN HIEROGLYPH A182:\u{144D1}\n\
ANATOLIAN HIEROGLYPH A183:\u{144D2}\n\
ANATOLIAN HIEROGLYPH A184:\u{144D3}\n\
ANATOLIAN HIEROGLYPH A185:\u{144D4}\n\
ANATOLIAN HIEROGLYPH A186:\u{144D5}\n\
ANATOLIAN HIEROGLYPH A187:\u{144D6}\n\
ANATOLIAN HIEROGLYPH A188:\u{144D7}\n\
ANATOLIAN HIEROGLYPH A189:\u{144D8}\n\
ANATOLIAN HIEROGLYPH A190:\u{144D9}\n\
ANATOLIAN HIEROGLYPH A191:\u{144DA}\n\
ANATOLIAN HIEROGLYPH A192:\u{144DB}\n\
ANATOLIAN HIEROGLYPH A193:\u{144DC}\n\
ANATOLIAN HIEROGLYPH A194:\u{144DD}\n\
ANATOLIAN HIEROGLYPH A195:\u{144DE}\n\
ANATOLIAN HIEROGLYPH A196:\u{144DF}\n\
ANATOLIAN HIEROGLYPH A197:\u{144E0}\n\
ANATOLIAN HIEROGLYPH A198:\u{144E1}\n\
ANATOLIAN HIEROGLYPH A199:\u{144E2}\n\
ANATOLIAN HIEROGLYPH A200:\u{144E3}\n\
ANATOLIAN HIEROGLYPH A201:\u{144E4}\n\
ANATOLIAN HIEROGLYPH A202:\u{144E5}\n\
ANATOLIAN HIEROGLYPH A202A:\u{144E6}\n\
ANATOLIAN HIEROGLYPH A202B:\u{144E7}\n\
ANATOLIAN HIEROGLYPH A203:\u{144E8}\n\
ANATOLIAN HIEROGLYPH A204:\u{144E9}\n\
ANATOLIAN HIEROGLYPH A205:\u{144EA}\n\
ANATOLIAN HIEROGLYPH A206:\u{144EB}\n\
ANATOLIAN HIEROGLYPH A207:\u{144EC}\n\
ANATOLIAN HIEROGLYPH A207A:\u{144ED}\n\
ANATOLIAN HIEROGLYPH A208:\u{144EE}\n\
ANATOLIAN HIEROGLYPH A209:\u{144EF}\n\
ANATOLIAN HIEROGLYPH A209A:\u{144F0}\n\
ANATOLIAN HIEROGLYPH A210:\u{144F1}\n\
ANATOLIAN HIEROGLYPH A211:\u{144F2}\n\
ANATOLIAN HIEROGLYPH A212:\u{144F3}\n\
ANATOLIAN HIEROGLYPH A213:\u{144F4}\n\
ANATOLIAN HIEROGLYPH A214:\u{144F5}\n\
ANATOLIAN HIEROGLYPH A215:\u{144F6}\n\
ANATOLIAN HIEROGLYPH A215A:\u{144F7}\n\
ANATOLIAN HIEROGLYPH A216:\u{144F8}\n\
ANATOLIAN HIEROGLYPH A216A:\u{144F9}\n\
ANATOLIAN HIEROGLYPH A217:\u{144FA}\n\
ANATOLIAN HIEROGLYPH A218:\u{144FB}\n\
ANATOLIAN HIEROGLYPH A219:\u{144FC}\n\
ANATOLIAN HIEROGLYPH A220:\u{144FD}\n\
ANATOLIAN HIEROGLYPH A221:\u{144FE}\n\
ANATOLIAN HIEROGLYPH A222:\u{144FF}\n\
ANATOLIAN HIEROGLYPH A223:\u{14500}\n\
ANATOLIAN HIEROGLYPH A224:\u{14501}\n\
ANATOLIAN HIEROGLYPH A225:\u{14502}\n\
ANATOLIAN HIEROGLYPH A226:\u{14503}\n\
ANATOLIAN HIEROGLYPH A227:\u{14504}\n\
ANATOLIAN HIEROGLYPH A227A:\u{14505}\n\
ANATOLIAN HIEROGLYPH A228:\u{14506}\n\
ANATOLIAN HIEROGLYPH A229:\u{14507}\n\
ANATOLIAN HIEROGLYPH A230:\u{14508}\n\
ANATOLIAN HIEROGLYPH A231:\u{14509}\n\
ANATOLIAN HIEROGLYPH A232:\u{1450A}\n\
ANATOLIAN HIEROGLYPH A233:\u{1450B}\n\
ANATOLIAN HIEROGLYPH A234:\u{1450C}\n\
ANATOLIAN HIEROGLYPH A235:\u{1450D}\n\
ANATOLIAN HIEROGLYPH A236:\u{1450E}\n\
ANATOLIAN HIEROGLYPH A237:\u{1450F}\n\
ANATOLIAN HIEROGLYPH A238:\u{14510}\n\
ANATOLIAN HIEROGLYPH A239:\u{14511}\n\
ANATOLIAN HIEROGLYPH A240:\u{14512}\n\
ANATOLIAN HIEROGLYPH A241:\u{14513}\n\
ANATOLIAN HIEROGLYPH A242:\u{14514}\n\
ANATOLIAN HIEROGLYPH A243:\u{14515}\n\
ANATOLIAN HIEROGLYPH A244:\u{14516}\n\
ANATOLIAN HIEROGLYPH A245:\u{14517}\n\
ANATOLIAN HIEROGLYPH A246:\u{14518}\n\
ANATOLIAN HIEROGLYPH A247:\u{14519}\n\
ANATOLIAN HIEROGLYPH A248:\u{1451A}\n\
ANATOLIAN HIEROGLYPH A249:\u{1451B}\n\
ANATOLIAN HIEROGLYPH A250:\u{1451C}\n\
ANATOLIAN HIEROGLYPH A251:\u{1451D}\n\
ANATOLIAN HIEROGLYPH A252:\u{1451E}\n\
ANATOLIAN HIEROGLYPH A253:\u{1451F}\n\
ANATOLIAN HIEROGLYPH A254:\u{14520}\n\
ANATOLIAN HIEROGLYPH A255:\u{14521}\n\
ANATOLIAN HIEROGLYPH A256:\u{14522}\n\
ANATOLIAN HIEROGLYPH A257:\u{14523}\n\
ANATOLIAN HIEROGLYPH A258:\u{14524}\n\
ANATOLIAN HIEROGLYPH A259:\u{14525}\n\
ANATOLIAN HIEROGLYPH A260:\u{14526}\n\
ANATOLIAN HIEROGLYPH A261:\u{14527}\n\
ANATOLIAN HIEROGLYPH A262:\u{14528}\n\
ANATOLIAN HIEROGLYPH A263:\u{14529}\n\
ANATOLIAN HIEROGLYPH A264:\u{1452A}\n\
ANATOLIAN HIEROGLYPH A265:\u{1452B}\n\
ANATOLIAN HIEROGLYPH A266:\u{1452C}\n\
ANATOLIAN HIEROGLYPH A267:\u{1452D}\n\
ANATOLIAN HIEROGLYPH A267A:\u{1452E}\n\
ANATOLIAN HIEROGLYPH A268:\u{1452F}\n\
ANATOLIAN HIEROGLYPH A269:\u{14530}\n\
ANATOLIAN HIEROGLYPH A270:\u{14531}\n\
ANATOLIAN HIEROGLYPH A271:\u{14532}\n\
ANATOLIAN HIEROGLYPH A272:\u{14533}\n\
ANATOLIAN HIEROGLYPH A273:\u{14534}\n\
ANATOLIAN HIEROGLYPH A274:\u{14535}\n\
ANATOLIAN HIEROGLYPH A275:\u{14536}\n\
ANATOLIAN HIEROGLYPH A276:\u{14537}\n\
ANATOLIAN HIEROGLYPH A277:\u{14538}\n\
ANATOLIAN HIEROGLYPH A278:\u{14539}\n\
ANATOLIAN HIEROGLYPH A279:\u{1453A}\n\
ANATOLIAN HIEROGLYPH A280:\u{1453B}\n\
ANATOLIAN HIEROGLYPH A281:\u{1453C}\n\
ANATOLIAN HIEROGLYPH A282:\u{1453D}\n\
ANATOLIAN HIEROGLYPH A283:\u{1453E}\n\
ANATOLIAN HIEROGLYPH A284:\u{1453F}\n\
ANATOLIAN HIEROGLYPH A285:\u{14540}\n\
ANATOLIAN HIEROGLYPH A286:\u{14541}\n\
ANATOLIAN HIEROGLYPH A287:\u{14542}\n\
ANATOLIAN HIEROGLYPH A288:\u{14543}\n\
ANATOLIAN HIEROGLYPH A289:\u{14544}\n\
ANATOLIAN HIEROGLYPH A289A:\u{14545}\n\
ANATOLIAN HIEROGLYPH A290:\u{14546}\n\
ANATOLIAN HIEROGLYPH A291:\u{14547}\n\
ANATOLIAN HIEROGLYPH A292:\u{14548}\n\
ANATOLIAN HIEROGLYPH A293:\u{14549}\n\
ANATOLIAN HIEROGLYPH A294:\u{1454A}\n\
ANATOLIAN HIEROGLYPH A294A:\u{1454B}\n\
ANATOLIAN HIEROGLYPH A295:\u{1454C}\n\
ANATOLIAN HIEROGLYPH A296:\u{1454D}\n\
ANATOLIAN HIEROGLYPH A297:\u{1454E}\n\
ANATOLIAN HIEROGLYPH A298:\u{1454F}\n\
ANATOLIAN HIEROGLYPH A299:\u{14550}\n\
ANATOLIAN HIEROGLYPH A299A:\u{14551}\n\
ANATOLIAN HIEROGLYPH A300:\u{14552}\n\
ANATOLIAN HIEROGLYPH A301:\u{14553}\n\
ANATOLIAN HIEROGLYPH A302:\u{14554}\n\
ANATOLIAN HIEROGLYPH A303:\u{14555}\n\
ANATOLIAN HIEROGLYPH A304:\u{14556}\n\
ANATOLIAN HIEROGLYPH A305:\u{14557}\n\
ANATOLIAN HIEROGLYPH A306:\u{14558}\n\
ANATOLIAN HIEROGLYPH A307:\u{14559}\n\
ANATOLIAN HIEROGLYPH A308:\u{1455A}\n\
ANATOLIAN HIEROGLYPH A309:\u{1455B}\n\
ANATOLIAN HIEROGLYPH A309A:\u{1455C}\n\
ANATOLIAN HIEROGLYPH A310:\u{1455D}\n\
ANATOLIAN HIEROGLYPH A311:\u{1455E}\n\
ANATOLIAN HIEROGLYPH A312:\u{1455F}\n\
ANATOLIAN HIEROGLYPH A313:\u{14560}\n\
ANATOLIAN HIEROGLYPH A314:\u{14561}\n\
ANATOLIAN HIEROGLYPH A315:\u{14562}\n\
ANATOLIAN HIEROGLYPH A316:\u{14563}\n\
ANATOLIAN HIEROGLYPH A317:\u{14564}\n\
ANATOLIAN HIEROGLYPH A318:\u{14565}\n\
ANATOLIAN HIEROGLYPH A319:\u{14566}\n\
ANATOLIAN HIEROGLYPH A320:\u{14567}\n\
ANATOLIAN HIEROGLYPH A321:\u{14568}\n\
ANATOLIAN HIEROGLYPH A322:\u{14569}\n\
ANATOLIAN HIEROGLYPH A323:\u{1456A}\n\
ANATOLIAN HIEROGLYPH A324:\u{1456B}\n\
ANATOLIAN HIEROGLYPH A325:\u{1456C}\n\
ANATOLIAN HIEROGLYPH A326:\u{1456D}\n\
ANATOLIAN HIEROGLYPH A327:\u{1456E}\n\
ANATOLIAN HIEROGLYPH A328:\u{1456F}\n\
ANATOLIAN HIEROGLYPH A329:\u{14570}\n\
ANATOLIAN HIEROGLYPH A329A:\u{14571}\n\
ANATOLIAN HIEROGLYPH A330:\u{14572}\n\
ANATOLIAN HIEROGLYPH A331:\u{14573}\n\
ANATOLIAN HIEROGLYPH A332A:\u{14574}\n\
ANATOLIAN HIEROGLYPH A332B:\u{14575}\n\
ANATOLIAN HIEROGLYPH A332C:\u{14576}\n\
ANATOLIAN HIEROGLYPH A333:\u{14577}\n\
ANATOLIAN HIEROGLYPH A334:\u{14578}\n\
ANATOLIAN HIEROGLYPH A335:\u{14579}\n\
ANATOLIAN HIEROGLYPH A336:\u{1457A}\n\
ANATOLIAN HIEROGLYPH A336A:\u{1457B}\n\
ANATOLIAN HIEROGLYPH A336B:\u{1457C}\n\
ANATOLIAN HIEROGLYPH A336C:\u{1457D}\n\
ANATOLIAN HIEROGLYPH A337:\u{1457E}\n\
ANATOLIAN HIEROGLYPH A338:\u{1457F}\n\
ANATOLIAN HIEROGLYPH A339:\u{14580}\n\
ANATOLIAN HIEROGLYPH A340:\u{14581}\n\
ANATOLIAN HIEROGLYPH A341:\u{14582}\n\
ANATOLIAN HIEROGLYPH A342:\u{14583}\n\
ANATOLIAN HIEROGLYPH A343:\u{14584}\n\
ANATOLIAN HIEROGLYPH A344:\u{14585}\n\
ANATOLIAN HIEROGLYPH A345:\u{14586}\n\
ANATOLIAN HIEROGLYPH A346:\u{14587}\n\
ANATOLIAN HIEROGLYPH A347:\u{14588}\n\
ANATOLIAN HIEROGLYPH A348:\u{14589}\n\
ANATOLIAN HIEROGLYPH A349:\u{1458A}\n\
ANATOLIAN HIEROGLYPH A350:\u{1458B}\n\
ANATOLIAN HIEROGLYPH A351:\u{1458C}\n\
ANATOLIAN HIEROGLYPH A352:\u{1458D}\n\
ANATOLIAN HIEROGLYPH A353:\u{1458E}\n\
ANATOLIAN HIEROGLYPH A354:\u{1458F}\n\
ANATOLIAN HIEROGLYPH A355:\u{14590}\n\
ANATOLIAN HIEROGLYPH A356:\u{14591}\n\
ANATOLIAN HIEROGLYPH A357:\u{14592}\n\
ANATOLIAN HIEROGLYPH A358:\u{14593}\n\
ANATOLIAN HIEROGLYPH A359:\u{14594}\n\
ANATOLIAN HIEROGLYPH A359A:\u{14595}\n\
ANATOLIAN HIEROGLYPH A360:\u{14596}\n\
ANATOLIAN HIEROGLYPH A361:\u{14597}\n\
ANATOLIAN HIEROGLYPH A362:\u{14598}\n\
ANATOLIAN HIEROGLYPH A363:\u{14599}\n\
ANATOLIAN HIEROGLYPH A364:\u{1459A}\n\
ANATOLIAN HIEROGLYPH A364A:\u{1459B}\n\
ANATOLIAN HIEROGLYPH A365:\u{1459C}\n\
ANATOLIAN HIEROGLYPH A366:\u{1459D}\n\
ANATOLIAN HIEROGLYPH A367:\u{1459E}\n\
ANATOLIAN HIEROGLYPH A368:\u{1459F}\n\
ANATOLIAN HIEROGLYPH A368A:\u{145A0}\n\
ANATOLIAN HIEROGLYPH A369:\u{145A1}\n\
ANATOLIAN HIEROGLYPH A370:\u{145A2}\n\
ANATOLIAN HIEROGLYPH A371:\u{145A3}\n\
ANATOLIAN HIEROGLYPH A371A:\u{145A4}\n\
ANATOLIAN HIEROGLYPH A372:\u{145A5}\n\
ANATOLIAN HIEROGLYPH A373:\u{145A6}\n\
ANATOLIAN HIEROGLYPH A374:\u{145A7}\n\
ANATOLIAN HIEROGLYPH A375:\u{145A8}\n\
ANATOLIAN HIEROGLYPH A376:\u{145A9}\n\
ANATOLIAN HIEROGLYPH A377:\u{145AA}\n\
ANATOLIAN HIEROGLYPH A378:\u{145AB}\n\
ANATOLIAN HIEROGLYPH A379:\u{145AC}\n\
ANATOLIAN HIEROGLYPH A380:\u{145AD}\n\
ANATOLIAN HIEROGLYPH A381:\u{145AE}\n";

pub const NAMES_61: &'static str = "ANATOLIAN HIEROGLYPH A381A:\u{145AF}\n\
ANATOLIAN HIEROGLYPH A382:\u{145B0}\n\
ANATOLIAN HIEROGLYPH A383 RA OR RI:\u{145B1}\n\
ANATOLIAN HIEROGLYPH A383A:\u{145B2}\n\
ANATOLIAN HIEROGLYPH A384:\u{145B3}\n\
ANATOLIAN HIEROGLYPH A385:\u{145B4}\n\
ANATOLIAN HIEROGLYPH A386:\u{145B5}\n\
ANATOLIAN HIEROGLYPH A386A:\u{145B6}\n\
ANATOLIAN HIEROGLYPH A387:\u{145B7}\n\
ANATOLIAN HIEROGLYPH A388:\u{145B8}\n\
ANATOLIAN HIEROGLYPH A389:\u{145B9}\n\
ANATOLIAN HIEROGLYPH A390:\u{145BA}\n\
ANATOLIAN HIEROGLYPH A391:\u{145BB}\n\
ANATOLIAN HIEROGLYPH A392:\u{145BC}\n\
ANATOLIAN HIEROGLYPH A393 EIGHT:\u{145BD}\n\
ANATOLIAN HIEROGLYPH A394:\u{145BE}\n\
ANATOLIAN HIEROGLYPH A395:\u{145BF}\n\
ANATOLIAN HIEROGLYPH A396:\u{145C0}\n\
ANATOLIAN HIEROGLYPH A397:\u{145C1}\n\
ANATOLIAN HIEROGLYPH A398:\u{145C2}\n\
ANATOLIAN HIEROGLYPH A399:\u{145C3}\n\
ANATOLIAN HIEROGLYPH A400:\u{145C4}\n\
ANATOLIAN HIEROGLYPH A401:\u{145C5}\n\
ANATOLIAN HIEROGLYPH A402:\u{145C6}\n\
ANATOLIAN HIEROGLYPH A403:\u{145C7}\n\
ANATOLIAN HIEROGLYPH A404:\u{145C8}\n\
ANATOLIAN HIEROGLYPH A405:\u{145C9}\n\
ANATOLIAN HIEROGLYPH A406:\u{145CA}\n\
ANATOLIAN HIEROGLYPH A407:\u{145CB}\n\
ANATOLIAN HIEROGLYPH A408:\u{145CC}\n\
ANATOLIAN HIEROGLYPH A409:\u{145CD}\n\
ANATOLIAN HIEROGLYPH A410 BEGIN LOGOGRAM MARK:\u{145CE}\n\
ANATOLIAN HIEROGLYPH A410A END LOGOGRAM MARK:\u{145CF}\n\
ANATOLIAN HIEROGLYPH A411:\u{145D0}\n\
ANATOLIAN HIEROGLYPH A412:\u{145D1}\n\
ANATOLIAN HIEROGLYPH A413:\u{145D2}\n\
ANATOLIAN HIEROGLYPH A414:\u{145D3}\n\
ANATOLIAN HIEROGLYPH A415:\u{145D4}\n\
ANATOLIAN HIEROGLYPH A416:\u{145D5}\n\
ANATOLIAN HIEROGLYPH A417:\u{145D6}\n\
ANATOLIAN HIEROGLYPH A418:\u{145D7}\n\
ANATOLIAN HIEROGLYPH A419:\u{145D8}\n\
ANATOLIAN HIEROGLYPH A420:\u{145D9}\n\
ANATOLIAN HIEROGLYPH A421:\u{145DA}\n\
ANATOLIAN HIEROGLYPH A422:\u{145DB}\n\
ANATOLIAN HIEROGLYPH A423:\u{145DC}\n\
ANATOLIAN HIEROGLYPH A424:\u{145DD}\n\
ANATOLIAN HIEROGLYPH A425:\u{145DE}\n\
ANATOLIAN HIEROGLYPH A426:\u{145DF}\n\
ANATOLIAN HIEROGLYPH A427:\u{145E0}\n\
ANATOLIAN HIEROGLYPH A428:\u{145E1}\n\
ANATOLIAN HIEROGLYPH A429:\u{145E2}\n\
ANATOLIAN HIEROGLYPH A430:\u{145E3}\n\
ANATOLIAN HIEROGLYPH A431:\u{145E4}\n\
ANATOLIAN HIEROGLYPH A432:\u{145E5}\n\
ANATOLIAN HIEROGLYPH A433:\u{145E6}\n\
ANATOLIAN HIEROGLYPH A434:\u{145E7}\n\
ANATOLIAN HIEROGLYPH A435:\u{145E8}\n\
ANATOLIAN HIEROGLYPH A436:\u{145E9}\n\
ANATOLIAN HIEROGLYPH A437:\u{145EA}\n\
ANATOLIAN HIEROGLYPH A438:\u{145EB}\n\
ANATOLIAN HIEROGLYPH A439:\u{145EC}\n\
ANATOLIAN HIEROGLYPH A440:\u{145ED}\n\
ANATOLIAN HIEROGLYPH A441:\u{145EE}\n\
ANATOLIAN HIEROGLYPH A442:\u{145EF}\n\
ANATOLIAN HIEROGLYPH A443:\u{145F0}\n\
ANATOLIAN HIEROGLYPH A444:\u{145F1}\n\
ANATOLIAN HIEROGLYPH A445:\u{145F2}\n\
ANATOLIAN HIEROGLYPH A446:\u{145F3}\n\
ANATOLIAN HIEROGLYPH A447:\u{145F4}\n\
ANATOLIAN HIEROGLYPH A448:\u{145F5}\n\
ANATOLIAN HIEROGLYPH A449:\u{145F6}\n\
ANATOLIAN HIEROGLYPH A450:\u{145F7}\n\
ANATOLIAN HIEROGLYPH A450A:\u{145F8}\n\
ANATOLIAN HIEROGLYPH A451:\u{145F9}\n\
ANATOLIAN HIEROGLYPH A452:\u{145FA}\n\
ANATOLIAN HIEROGLYPH A453:\u{145FB}\n\
ANATOLIAN HIEROGLYPH A454:\u{145FC}\n\
ANATOLIAN HIEROGLYPH A455:\u{145FD}\n\
ANATOLIAN HIEROGLYPH A456:\u{145FE}\n\
ANATOLIAN HIEROGLYPH A457:\u{145FF}\n\
ANATOLIAN HIEROGLYPH A457A:\u{14600}\n\
ANATOLIAN HIEROGLYPH A458:\u{14601}\n\
ANATOLIAN HIEROGLYPH A459:\u{14602}\n\
ANATOLIAN HIEROGLYPH A460:\u{14603}\n\
ANATOLIAN HIEROGLYPH A461:\u{14604}\n\
ANATOLIAN HIEROGLYPH A462:\u{14605}\n\
ANATOLIAN HIEROGLYPH A463:\u{14606}\n\
ANATOLIAN HIEROGLYPH A464:\u{14607}\n\
ANATOLIAN HIEROGLYPH A465:\u{14608}\n\
ANATOLIAN HIEROGLYPH A466:\u{14609}\n\
ANATOLIAN HIEROGLYPH A467:\u{1460A}\n\
ANATOLIAN HIEROGLYPH A468:\u{1460B}\n\
ANATOLIAN HIEROGLYPH A469:\u{1460C}\n\
ANATOLIAN HIEROGLYPH A470:\u{1460D}\n\
ANATOLIAN HIEROGLYPH A471:\u{1460E}\n\
ANATOLIAN HIEROGLYPH A472:\u{1460F}\n\
ANATOLIAN HIEROGLYPH A473:\u{14610}\n\
ANATOLIAN HIEROGLYPH A474:\u{14611}\n\
ANATOLIAN HIEROGLYPH A475:\u{14612}\n\
ANATOLIAN HIEROGLYPH A476:\u{14613}\n\
ANATOLIAN HIEROGLYPH A477:\u{14614}\n\
ANATOLIAN HIEROGLYPH A478:\u{14615}\n\
ANATOLIAN HIEROGLYPH A479:\u{14616}\n\
ANATOLIAN HIEROGLYPH A480:\u{14617}\n\
ANATOLIAN HIEROGLYPH A481:\u{14618}\n\
ANATOLIAN HIEROGLYPH A482:\u{14619}\n\
ANATOLIAN HIEROGLYPH A483:\u{1461A}\n\
ANATOLIAN HIEROGLYPH A484:\u{1461B}\n\
ANATOLIAN HIEROGLYPH A485:\u{1461C}\n\
ANATOLIAN HIEROGLYPH A486:\u{1461D}\n\
ANATOLIAN HIEROGLYPH A487:\u{1461E}\n\
ANATOLIAN HIEROGLYPH A488:\u{1461F}\n\
ANATOLIAN HIEROGLYPH A489:\u{14620}\n\
ANATOLIAN HIEROGLYPH A490:\u{14621}\n\
ANATOLIAN HIEROGLYPH A491:\u{14622}\n\
ANATOLIAN HIEROGLYPH A492:\u{14623}\n\
ANATOLIAN HIEROGLYPH A493:\u{14624}\n\
ANATOLIAN HIEROGLYPH A494:\u{14625}\n\
ANATOLIAN HIEROGLYPH A495:\u{14626}\n\
ANATOLIAN HIEROGLYPH A496:\u{14627}\n\
ANATOLIAN HIEROGLYPH A497:\u{14628}\n\
ANATOLIAN HIEROGLYPH A501:\u{14629}\n\
ANATOLIAN HIEROGLYPH A502:\u{1462A}\n\
ANATOLIAN HIEROGLYPH A503:\u{1462B}\n\
ANATOLIAN HIEROGLYPH A504:\u{1462C}\n\
ANATOLIAN HIEROGLYPH A505:\u{1462D}\n\
ANATOLIAN HIEROGLYPH A506:\u{1462E}\n\
ANATOLIAN HIEROGLYPH A507:\u{1462F}\n\
ANATOLIAN HIEROGLYPH A508:\u{14630}\n\
ANATOLIAN HIEROGLYPH A509:\u{14631}\n\
ANATOLIAN HIEROGLYPH A510:\u{14632}\n\
ANATOLIAN HIEROGLYPH A511:\u{14633}\n\
ANATOLIAN HIEROGLYPH A512:\u{14634}\n\
ANATOLIAN HIEROGLYPH A513:\u{14635}\n\
ANATOLIAN HIEROGLYPH A514:\u{14636}\n\
ANATOLIAN HIEROGLYPH A515:\u{14637}\n\
ANATOLIAN HIEROGLYPH A516:\u{14638}\n\
ANATOLIAN HIEROGLYPH A517:\u{14639}\n\
ANATOLIAN HIEROGLYPH A518:\u{1463A}\n\
ANATOLIAN HIEROGLYPH A519:\u{1463B}\n\
ANATOLIAN HIEROGLYPH A520:\u{1463C}\n\
ANATOLIAN HIEROGLYPH A521:\u{1463D}\n\
ANATOLIAN HIEROGLYPH A522:\u{1463E}\n\
ANATOLIAN HIEROGLYPH A523:\u{1463F}\n\
ANATOLIAN HIEROGLYPH A524:\u{14640}\n\
ANATOLIAN HIEROGLYPH A525:\u{14641}\n\
ANATOLIAN HIEROGLYPH A526:\u{14642}\n\
ANATOLIAN HIEROGLYPH A527:\u{14643}\n\
ANATOLIAN HIEROGLYPH A528:\u{14644}\n\
ANATOLIAN HIEROGLYPH A529:\u{14645}\n\
ANATOLIAN HIEROGLYPH A530:\u{14646}\n\
BAMUM LETTER PHASE-A NGKUE MFON:\u{16800}\n\
BAMUM LETTER PHASE-A GBIEE FON:\u{16801}\n\
BAMUM LETTER PHASE-A PON MFON PIPAEMGBIEE:\u{16802}\n\
BAMUM LETTER PHASE-A PON MFON PIPAEMBA:\u{16803}\n\
BAMUM LETTER PHASE-A NAA MFON:\u{16804}\n\
BAMUM LETTER PHASE-A SHUENSHUET:\u{16805}\n\
BAMUM LETTER PHASE-A TITA MFON:\u{16806}\n\
BAMUM LETTER PHASE-A NZA MFON:\u{16807}\n\
BAMUM LETTER PHASE-A SHINDA PA NJI:\u{16808}\n\
BAMUM LETTER PHASE-A PON PA NJI PIPAEMGBIEE:\u{16809}\n\
BAMUM LETTER PHASE-A PON PA NJI PIPAEMBA:\u{1680A}\n\
BAMUM LETTER PHASE-A MAEMBGBIEE:\u{1680B}\n\
BAMUM LETTER PHASE-A TU MAEMBA:\u{1680C}\n\
BAMUM LETTER PHASE-A NGANGU:\u{1680D}\n\
BAMUM LETTER PHASE-A MAEMVEUX:\u{1680E}\n\
BAMUM LETTER PHASE-A MANSUAE:\u{1680F}\n\
BAMUM LETTER PHASE-A MVEUAENGAM:\u{16810}\n\
BAMUM LETTER PHASE-A SEUNYAM:\u{16811}\n\
BAMUM LETTER PHASE-A NTOQPEN:\u{16812}\n\
BAMUM LETTER PHASE-A KEUKEUTNDA:\u{16813}\n\
BAMUM LETTER PHASE-A NKINDI:\u{16814}\n\
BAMUM LETTER PHASE-A SUU:\u{16815}\n\
BAMUM LETTER PHASE-A NGKUENZEUM:\u{16816}\n\
BAMUM LETTER PHASE-A LAPAQ:\u{16817}\n\
BAMUM LETTER PHASE-A LET KUT:\u{16818}\n\
BAMUM LETTER PHASE-A NTAP MFAA:\u{16819}\n\
BAMUM LETTER PHASE-A MAEKEUP:\u{1681A}\n\
BAMUM LETTER PHASE-A PASHAE:\u{1681B}\n\
BAMUM LETTER PHASE-A GHEUAERAE:\u{1681C}\n\
BAMUM LETTER PHASE-A PAMSHAE:\u{1681D}\n\
BAMUM LETTER PHASE-A MON NGGEUAET:\u{1681E}\n\
BAMUM LETTER PHASE-A NZUN MEUT:\u{1681F}\n\
BAMUM LETTER PHASE-A U YUQ NAE:\u{16820}\n\
BAMUM LETTER PHASE-A GHEUAEGHEUAE:\u{16821}\n\
BAMUM LETTER PHASE-A NTAP NTAA:\u{16822}\n\
BAMUM LETTER PHASE-A SISA:\u{16823}\n\
BAMUM LETTER PHASE-A MGBASA:\u{16824}\n\
BAMUM LETTER PHASE-A MEUNJOMNDEUQ:\u{16825}\n\
BAMUM LETTER PHASE-A MOOMPUQ:\u{16826}\n\
BAMUM LETTER PHASE-A KAFA:\u{16827}\n\
BAMUM LETTER PHASE-A PA LEERAEWA:\u{16828}\n\
BAMUM LETTER PHASE-A NDA LEERAEWA:\u{16829}\n\
BAMUM LETTER PHASE-A PET:\u{1682A}\n\
BAMUM LETTER PHASE-A MAEMKPEN:\u{1682B}\n\
BAMUM LETTER PHASE-A NIKA:\u{1682C}\n\
BAMUM LETTER PHASE-A PUP:\u{1682D}\n\
BAMUM LETTER PHASE-A TUAEP:\u{1682E}\n\
BAMUM LETTER PHASE-A LUAEP:\u{1682F}\n\
BAMUM LETTER PHASE-A SONJAM:\u{16830}\n\
BAMUM LETTER PHASE-A TEUTEUWEN:\u{16831}\n\
BAMUM LETTER PHASE-A MAENYI:\u{16832}\n\
BAMUM LETTER PHASE-A KET:\u{16833}\n\
BAMUM LETTER PHASE-A NDAANGGEUAET:\u{16834}\n\
BAMUM LETTER PHASE-A KUOQ:\u{16835}\n\
BAMUM LETTER PHASE-A MOOMEUT:\u{16836}\n\
BAMUM LETTER PHASE-A SHUM:\u{16837}\n\
BAMUM LETTER PHASE-A LOMMAE:\u{16838}\n\
BAMUM LETTER PHASE-A FIRI:\u{16839}\n\
BAMUM LETTER PHASE-A ROM:\u{1683A}\n\
BAMUM LETTER PHASE-A KPOQ:\u{1683B}\n\
BAMUM LETTER PHASE-A SOQ:\u{1683C}\n\
BAMUM LETTER PHASE-A MAP PIEET:\u{1683D}\n\
BAMUM LETTER PHASE-A SHIRAE:\u{1683E}\n\
BAMUM LETTER PHASE-A NTAP:\u{1683F}\n\
BAMUM LETTER PHASE-A SHOQ NSHUT YUM:\u{16840}\n\
BAMUM LETTER PHASE-A NYIT MONGKEUAEQ:\u{16841}\n\
BAMUM LETTER PHASE-A PAARAE:\u{16842}\n\
BAMUM LETTER PHASE-A NKAARAE:\u{16843}\n\
BAMUM LETTER PHASE-A UNKNOWN:\u{16844}\n\
BAMUM LETTER PHASE-A NGGEN:\u{16845}\n\
BAMUM LETTER PHASE-A MAESI:\u{16846}\n\
BAMUM LETTER PHASE-A NJAM:\u{16847}\n\
BAMUM LETTER PHASE-A MBANYI:\u{16848}\n\
BAMUM LETTER PHASE-A NYET:\u{16849}\n\
BAMUM LETTER PHASE-A TEUAEN:\u{1684A}\n\
BAMUM LETTER PHASE-A SOT:\u{1684B}\n\
BAMUM LETTER PHASE-A PAAM:\u{1684C}\n\
BAMUM LETTER PHASE-A NSHIEE:\u{1684D}\n\
BAMUM LETTER PHASE-A MAEM:\u{1684E}\n\
BAMUM LETTER PHASE-A NYI:\u{1684F}\n\
BAMUM LETTER PHASE-A KAQ:\u{16850}\n\
BAMUM LETTER PHASE-A NSHA:\u{16851}\n\
BAMUM LETTER PHASE-A VEE:\u{16852}\n\
BAMUM LETTER PHASE-A LU:\u{16853}\n\
BAMUM LETTER PHASE-A NEN:\u{16854}\n\
BAMUM LETTER PHASE-A NAQ:\u{16855}\n\
BAMUM LETTER PHASE-A MBAQ:\u{16856}\n\
BAMUM LETTER PHASE-B NSHUET:\u{16857}\n\
BAMUM LETTER PHASE-B TU MAEMGBIEE:\u{16858}\n\
BAMUM LETTER PHASE-B SIEE:\u{16859}\n\
BAMUM LETTER PHASE-B SET TU:\u{1685A}\n\
BAMUM LETTER PHASE-B LOM NTEUM:\u{1685B}\n\
BAMUM LETTER PHASE-B MBA MAELEE:\u{1685C}\n\
BAMUM LETTER PHASE-B KIEEM:\u{1685D}\n\
BAMUM LETTER PHASE-B YEURAE:\u{1685E}\n\
BAMUM LETTER PHASE-B MBAARAE:\u{1685F}\n\
BAMUM LETTER PHASE-B KAM:\u{16860}\n\
BAMUM LETTER PHASE-B PEESHI:\u{16861}\n\
BAMUM LETTER PHASE-B YAFU LEERAEWA:\u{16862}\n\
BAMUM LETTER PHASE-B LAM NSHUT NYAM:\u{16863}\n\
BAMUM LETTER PHASE-B NTIEE SHEUOQ:\u{16864}\n\
BAMUM LETTER PHASE-B NDU NJAA:\u{16865}\n\
BAMUM LETTER PHASE-B GHEUGHEUAEM:\u{16866}\n\
BAMUM LETTER PHASE-B PIT:\u{16867}\n\
BAMUM LETTER PHASE-B TU NSIEE:\u{16868}\n\
BAMUM LETTER PHASE-B SHET NJAQ:\u{16869}\n\
BAMUM LETTER PHASE-B SHEUAEQTU:\u{1686A}\n\
BAMUM LETTER PHASE-B MFON TEUAEQ:\u{1686B}\n\
BAMUM LETTER PHASE-B MBIT MBAAKET:\u{1686C}\n\
BAMUM LETTER PHASE-B NYI NTEUM:\u{1686D}\n\
BAMUM LETTER PHASE-B KEUPUQ:\u{1686E}\n\
BAMUM LETTER PHASE-B GHEUGHEN:\u{1686F}\n\
BAMUM LETTER PHASE-B KEUYEUX:\u{16870}\n\
BAMUM LETTER PHASE-B LAANAE:\u{16871}\n\
BAMUM LETTER PHASE-B PARUM:\u{16872}\n\
BAMUM LETTER PHASE-B VEUM:\u{16873}\n\
BAMUM LETTER PHASE-B NGKINDI MVOP:\u{16874}\n\
BAMUM LETTER PHASE-B NGGEU MBU:\u{16875}\n\
BAMUM LETTER PHASE-B WUAET:\u{16876}\n\
BAMUM LETTER PHASE-B SAKEUAE:\u{16877}\n\
BAMUM LETTER PHASE-B TAAM:\u{16878}\n\
BAMUM LETTER PHASE-B MEUQ:\u{16879}\n\
BAMUM LETTER PHASE-B NGGUOQ:\u{1687A}\n\
BAMUM LETTER PHASE-B NGGUOQ LARGE:\u{1687B}\n\
BAMUM LETTER PHASE-B MFIYAQ:\u{1687C}\n\
BAMUM LETTER PHASE-B SUE:\u{1687D}\n\
BAMUM LETTER PHASE-B MBEURI:\u{1687E}\n\
BAMUM LETTER PHASE-B MONTIEEN:\u{1687F}\n\
BAMUM LETTER PHASE-B NYAEMAE:\u{16880}\n\
BAMUM LETTER PHASE-B PUNGAAM:\u{16881}\n\
BAMUM LETTER PHASE-B MEUT NGGEET:\u{16882}\n\
BAMUM LETTER PHASE-B FEUX:\u{16883}\n\
BAMUM LETTER PHASE-B MBUOQ:\u{16884}\n\
BAMUM LETTER PHASE-B FEE:\u{16885}\n\
BAMUM LETTER PHASE-B KEUAEM:\u{16886}\n\
BAMUM LETTER PHASE-B MA NJEUAENA:\u{16887}\n\
BAMUM LETTER PHASE-B MA NJUQA:\u{16888}\n\
BAMUM LETTER PHASE-B LET:\u{16889}\n\
BAMUM LETTER PHASE-B NGGAAM:\u{1688A}\n\
BAMUM LETTER PHASE-B NSEN:\u{1688B}\n\
BAMUM LETTER PHASE-B MA:\u{1688C}\n\
BAMUM LETTER PHASE-B KIQ:\u{1688D}\n\
BAMUM LETTER PHASE-B NGOM:\u{1688E}\n\
BAMUM LETTER PHASE-C NGKUE MAEMBA:\u{1688F}\n\
BAMUM LETTER PHASE-C NZA:\u{16890}\n\
BAMUM LETTER PHASE-C YUM:\u{16891}\n\
BAMUM LETTER PHASE-C WANGKUOQ:\u{16892}\n\
BAMUM LETTER PHASE-C NGGEN:\u{16893}\n\
BAMUM LETTER PHASE-C NDEUAEREE:\u{16894}\n\
BAMUM LETTER PHASE-C NGKAQ:\u{16895}\n\
BAMUM LETTER PHASE-C GHARAE:\u{16896}\n\
BAMUM LETTER PHASE-C MBEEKEET:\u{16897}\n\
BAMUM LETTER PHASE-C GBAYI:\u{16898}\n\
BAMUM LETTER PHASE-C NYIR MKPARAQ MEUN:\u{16899}\n\
BAMUM LETTER PHASE-C NTU MBIT:\u{1689A}\n\
BAMUM LETTER PHASE-C MBEUM:\u{1689B}\n\
BAMUM LETTER PHASE-C PIRIEEN:\u{1689C}\n\
BAMUM LETTER PHASE-C NDOMBU:\u{1689D}\n\
BAMUM LETTER PHASE-C MBAA CABBAGE-TREE:\u{1689E}\n\
BAMUM LETTER PHASE-C KEUSHEUAEP:\u{1689F}\n\
BAMUM LETTER PHASE-C GHAP:\u{168A0}\n\
BAMUM LETTER PHASE-C KEUKAQ:\u{168A1}\n\
BAMUM LETTER PHASE-C YU MUOMAE:\u{168A2}\n\
BAMUM LETTER PHASE-C NZEUM:\u{168A3}\n\
BAMUM LETTER PHASE-C MBUE:\u{168A4}\n\
BAMUM LETTER PHASE-C NSEUAEN:\u{168A5}\n\
BAMUM LETTER PHASE-C MBIT:\u{168A6}\n\
BAMUM LETTER PHASE-C YEUQ:\u{168A7}\n\
BAMUM LETTER PHASE-C KPARAQ:\u{168A8}\n\
BAMUM LETTER PHASE-C KAA:\u{168A9}\n\
BAMUM LETTER PHASE-C SEUX:\u{168AA}\n\
BAMUM LETTER PHASE-C NDIDA:\u{168AB}\n\
BAMUM LETTER PHASE-C TAASHAE:\u{168AC}\n\
BAMUM LETTER PHASE-C NJUEQ:\u{168AD}\n\
BAMUM LETTER PHASE-C TITA YUE:\u{168AE}\n\
BAMUM LETTER PHASE-C SUAET:\u{168AF}\n\
BAMUM LETTER PHASE-C NGGUAEN NYAM:\u{168B0}\n\
BAMUM LETTER PHASE-C VEUX:\u{168B1}\n\
BAMUM LETTER PHASE-C NANSANAQ:\u{168B2}\n\
BAMUM LETTER PHASE-C MA KEUAERI:\u{168B3}\n\
BAMUM LETTER PHASE-C NTAA:\u{168B4}\n\
BAMUM LETTER PHASE-C NGGUON:\u{168B5}\n\
BAMUM LETTER PHASE-C LAP:\u{168B6}\n\
BAMUM LETTER PHASE-C MBIRIEEN:\u{168B7}\n\
BAMUM LETTER PHASE-C MGBASAQ:\u{168B8}\n\
BAMUM LETTER PHASE-C NTEUNGBA:\u{168B9}\n\
BAMUM LETTER PHASE-C TEUTEUX:\u{168BA}\n\
BAMUM LETTER PHASE-C NGGUM:\u{168BB}\n\
BAMUM LETTER PHASE-C FUE:\u{168BC}\n\
BAMUM LETTER PHASE-C NDEUT:\u{168BD}\n\
BAMUM LETTER PHASE-C NSA:\u{168BE}\n\
BAMUM LETTER PHASE-C NSHAQ:\u{168BF}\n\
BAMUM LETTER PHASE-C BUNG:\u{168C0}\n\
BAMUM LETTER PHASE-C VEUAEPEN:\u{168C1}\n\
BAMUM LETTER PHASE-C MBERAE:\u{168C2}\n\
BAMUM LETTER PHASE-C RU:\u{168C3}\n\
BAMUM LETTER PHASE-C NJAEM:\u{168C4}\n\
BAMUM LETTER PHASE-C LAM:\u{168C5}\n\
BAMUM LETTER PHASE-C TITUAEP:\u{168C6}\n\
BAMUM LETTER PHASE-C NSUOT NGOM:\u{168C7}\n\
BAMUM LETTER PHASE-C NJEEEE:\u{168C8}\n\
BAMUM LETTER PHASE-C KET:\u{168C9}\n\
BAMUM LETTER PHASE-C NGGU:\u{168CA}\n\
BAMUM LETTER PHASE-C MAESI:\u{168CB}\n\
BAMUM LETTER PHASE-C MBUAEM:\u{168CC}\n\
BAMUM LETTER PHASE-C LU:\u{168CD}\n\
BAMUM LETTER PHASE-C KUT:\u{168CE}\n\
BAMUM LETTER PHASE-C NJAM:\u{168CF}\n\
BAMUM LETTER PHASE-C NGOM:\u{168D0}\n\
BAMUM LETTER PHASE-C WUP:\u{168D1}\n\
BAMUM LETTER PHASE-C NGGUEET:\u{168D2}\n\
BAMUM LETTER PHASE-C NSOM:\u{168D3}\n\
BAMUM LETTER PHASE-C NTEN:\u{168D4}\n\
BAMUM LETTER PHASE-C KUOP NKAARAE:\u{168D5}\n\
BAMUM LETTER PHASE-C NSUN:\u{168D6}\n";

pub const NAMES_62: &'static str = "BAMUM LETTER PHASE-C NDAM:\u{168D7}\n\
BAMUM LETTER PHASE-C MA NSIEE:\u{168D8}\n\
BAMUM LETTER PHASE-C YAA:\u{168D9}\n\
BAMUM LETTER PHASE-C NDAP:\u{168DA}\n\
BAMUM LETTER PHASE-C SHUEQ:\u{168DB}\n\
BAMUM LETTER PHASE-C SETFON:\u{168DC}\n\
BAMUM LETTER PHASE-C MBI:\u{168DD}\n\
BAMUM LETTER PHASE-C MAEMBA:\u{168DE}\n\
BAMUM LETTER PHASE-C MBANYI:\u{168DF}\n\
BAMUM LETTER PHASE-C KEUSEUX:\u{168E0}\n\
BAMUM LETTER PHASE-C MBEUX:\u{168E1}\n\
BAMUM LETTER PHASE-C KEUM:\u{168E2}\n\
BAMUM LETTER PHASE-C MBAA PICKET:\u{168E3}\n\
BAMUM LETTER PHASE-C YUWOQ:\u{168E4}\n\
BAMUM LETTER PHASE-C NJEUX:\u{168E5}\n\
BAMUM LETTER PHASE-C MIEE:\u{168E6}\n\
BAMUM LETTER PHASE-C MUAE:\u{168E7}\n\
BAMUM LETTER PHASE-C SHIQ:\u{168E8}\n\
BAMUM LETTER PHASE-C KEN LAW:\u{168E9}\n\
BAMUM LETTER PHASE-C KEN FATIGUE:\u{168EA}\n\
BAMUM LETTER PHASE-C NGAQ:\u{168EB}\n\
BAMUM LETTER PHASE-C NAQ:\u{168EC}\n\
BAMUM LETTER PHASE-C LIQ:\u{168ED}\n\
BAMUM LETTER PHASE-C PIN:\u{168EE}\n\
BAMUM LETTER PHASE-C PEN:\u{168EF}\n\
BAMUM LETTER PHASE-C TET:\u{168F0}\n\
BAMUM LETTER PHASE-D MBUO:\u{168F1}\n\
BAMUM LETTER PHASE-D WAP:\u{168F2}\n\
BAMUM LETTER PHASE-D NJI:\u{168F3}\n\
BAMUM LETTER PHASE-D MFON:\u{168F4}\n\
BAMUM LETTER PHASE-D NJIEE:\u{168F5}\n\
BAMUM LETTER PHASE-D LIEE:\u{168F6}\n\
BAMUM LETTER PHASE-D NJEUT:\u{168F7}\n\
BAMUM LETTER PHASE-D NSHEE:\u{168F8}\n\
BAMUM LETTER PHASE-D NGGAAMAE:\u{168F9}\n\
BAMUM LETTER PHASE-D NYAM:\u{168FA}\n\
BAMUM LETTER PHASE-D WUAEN:\u{168FB}\n\
BAMUM LETTER PHASE-D NGKUN:\u{168FC}\n\
BAMUM LETTER PHASE-D SHEE:\u{168FD}\n\
BAMUM LETTER PHASE-D NGKAP:\u{168FE}\n\
BAMUM LETTER PHASE-D KEUAETMEUN:\u{168FF}\n\
BAMUM LETTER PHASE-D TEUT:\u{16900}\n\
BAMUM LETTER PHASE-D SHEUAE:\u{16901}\n\
BAMUM LETTER PHASE-D NJAP:\u{16902}\n\
BAMUM LETTER PHASE-D SUE:\u{16903}\n\
BAMUM LETTER PHASE-D KET:\u{16904}\n\
BAMUM LETTER PHASE-D YAEMMAE:\u{16905}\n\
BAMUM LETTER PHASE-D KUOM:\u{16906}\n\
BAMUM LETTER PHASE-D SAP:\u{16907}\n\
BAMUM LETTER PHASE-D MFEUT:\u{16908}\n\
BAMUM LETTER PHASE-D NDEUX:\u{16909}\n\
BAMUM LETTER PHASE-D MALEERI:\u{1690A}\n\
BAMUM LETTER PHASE-D MEUT:\u{1690B}\n\
BAMUM LETTER PHASE-D SEUAEQ:\u{1690C}\n\
BAMUM LETTER PHASE-D YEN:\u{1690D}\n\
BAMUM LETTER PHASE-D NJEUAEM:\u{1690E}\n\
BAMUM LETTER PHASE-D KEUOT MBUAE:\u{1690F}\n\
BAMUM LETTER PHASE-D NGKEURI:\u{16910}\n\
BAMUM LETTER PHASE-D TU:\u{16911}\n\
BAMUM LETTER PHASE-D GHAA:\u{16912}\n\
BAMUM LETTER PHASE-D NGKYEE:\u{16913}\n\
BAMUM LETTER PHASE-D FEUFEUAET:\u{16914}\n\
BAMUM LETTER PHASE-D NDEE:\u{16915}\n\
BAMUM LETTER PHASE-D MGBOFUM:\u{16916}\n\
BAMUM LETTER PHASE-D LEUAEP:\u{16917}\n\
BAMUM LETTER PHASE-D NDON:\u{16918}\n\
BAMUM LETTER PHASE-D MONI:\u{16919}\n\
BAMUM LETTER PHASE-D MGBEUN:\u{1691A}\n\
BAMUM LETTER PHASE-D PUUT:\u{1691B}\n\
BAMUM LETTER PHASE-D MGBIEE:\u{1691C}\n\
BAMUM LETTER PHASE-D MFO:\u{1691D}\n\
BAMUM LETTER PHASE-D LUM:\u{1691E}\n\
BAMUM LETTER PHASE-D NSIEEP:\u{1691F}\n\
BAMUM LETTER PHASE-D MBAA:\u{16920}\n\
BAMUM LETTER PHASE-D KWAET:\u{16921}\n\
BAMUM LETTER PHASE-D NYET:\u{16922}\n\
BAMUM LETTER PHASE-D TEUAEN:\u{16923}\n\
BAMUM LETTER PHASE-D SOT:\u{16924}\n\
BAMUM LETTER PHASE-D YUWOQ:\u{16925}\n\
BAMUM LETTER PHASE-D KEUM:\u{16926}\n\
BAMUM LETTER PHASE-D RAEM:\u{16927}\n\
BAMUM LETTER PHASE-D TEEEE:\u{16928}\n\
BAMUM LETTER PHASE-D NGKEUAEQ:\u{16929}\n\
BAMUM LETTER PHASE-D MFEUAE:\u{1692A}\n\
BAMUM LETTER PHASE-D NSIEET:\u{1692B}\n\
BAMUM LETTER PHASE-D KEUP:\u{1692C}\n\
BAMUM LETTER PHASE-D PIP:\u{1692D}\n\
BAMUM LETTER PHASE-D PEUTAE:\u{1692E}\n\
BAMUM LETTER PHASE-D NYUE:\u{1692F}\n\
BAMUM LETTER PHASE-D LET:\u{16930}\n\
BAMUM LETTER PHASE-D NGGAAM:\u{16931}\n\
BAMUM LETTER PHASE-D MFIEE:\u{16932}\n\
BAMUM LETTER PHASE-D NGGWAEN:\u{16933}\n\
BAMUM LETTER PHASE-D YUOM:\u{16934}\n\
BAMUM LETTER PHASE-D PAP:\u{16935}\n\
BAMUM LETTER PHASE-D YUOP:\u{16936}\n\
BAMUM LETTER PHASE-D NDAM:\u{16937}\n\
BAMUM LETTER PHASE-D NTEUM:\u{16938}\n\
BAMUM LETTER PHASE-D SUAE:\u{16939}\n\
BAMUM LETTER PHASE-D KUN:\u{1693A}\n\
BAMUM LETTER PHASE-D NGGEUX:\u{1693B}\n\
BAMUM LETTER PHASE-D NGKIEE:\u{1693C}\n\
BAMUM LETTER PHASE-D TUOT:\u{1693D}\n\
BAMUM LETTER PHASE-D MEUN:\u{1693E}\n\
BAMUM LETTER PHASE-D KUQ:\u{1693F}\n\
BAMUM LETTER PHASE-D NSUM:\u{16940}\n\
BAMUM LETTER PHASE-D TEUN:\u{16941}\n\
BAMUM LETTER PHASE-D MAENJET:\u{16942}\n\
BAMUM LETTER PHASE-D NGGAP:\u{16943}\n\
BAMUM LETTER PHASE-D LEUM:\u{16944}\n\
BAMUM LETTER PHASE-D NGGUOM:\u{16945}\n\
BAMUM LETTER PHASE-D NSHUT:\u{16946}\n\
BAMUM LETTER PHASE-D NJUEQ:\u{16947}\n\
BAMUM LETTER PHASE-D GHEUAE:\u{16948}\n\
BAMUM LETTER PHASE-D KU:\u{16949}\n\
BAMUM LETTER PHASE-D REN OLD:\u{1694A}\n\
BAMUM LETTER PHASE-D TAE:\u{1694B}\n\
BAMUM LETTER PHASE-D TOQ:\u{1694C}\n\
BAMUM LETTER PHASE-D NYI:\u{1694D}\n\
BAMUM LETTER PHASE-D RII:\u{1694E}\n\
BAMUM LETTER PHASE-D LEEEE:\u{1694F}\n\
BAMUM LETTER PHASE-D MEEEE:\u{16950}\n\
BAMUM LETTER PHASE-D M:\u{16951}\n\
BAMUM LETTER PHASE-D SUU:\u{16952}\n\
BAMUM LETTER PHASE-D MU:\u{16953}\n\
BAMUM LETTER PHASE-D SHII:\u{16954}\n\
BAMUM LETTER PHASE-D SHEUX:\u{16955}\n\
BAMUM LETTER PHASE-D KYEE:\u{16956}\n\
BAMUM LETTER PHASE-D NU:\u{16957}\n\
BAMUM LETTER PHASE-D SHU:\u{16958}\n\
BAMUM LETTER PHASE-D NTEE:\u{16959}\n\
BAMUM LETTER PHASE-D PEE:\u{1695A}\n\
BAMUM LETTER PHASE-D NI:\u{1695B}\n\
BAMUM LETTER PHASE-D SHOQ:\u{1695C}\n\
BAMUM LETTER PHASE-D PUQ:\u{1695D}\n\
BAMUM LETTER PHASE-D MVOP:\u{1695E}\n\
BAMUM LETTER PHASE-D LOQ:\u{1695F}\n\
BAMUM LETTER PHASE-D REN MUCH:\u{16960}\n\
BAMUM LETTER PHASE-D TI:\u{16961}\n\
BAMUM LETTER PHASE-D NTUU:\u{16962}\n\
BAMUM LETTER PHASE-D MBAA SEVEN:\u{16963}\n\
BAMUM LETTER PHASE-D SAQ:\u{16964}\n\
BAMUM LETTER PHASE-D FAA:\u{16965}\n\
BAMUM LETTER PHASE-E NDAP:\u{16966}\n\
BAMUM LETTER PHASE-E TOON:\u{16967}\n\
BAMUM LETTER PHASE-E MBEUM:\u{16968}\n\
BAMUM LETTER PHASE-E LAP:\u{16969}\n\
BAMUM LETTER PHASE-E VOM:\u{1696A}\n\
BAMUM LETTER PHASE-E LOON:\u{1696B}\n\
BAMUM LETTER PHASE-E PAA:\u{1696C}\n\
BAMUM LETTER PHASE-E SOM:\u{1696D}\n\
BAMUM LETTER PHASE-E RAQ:\u{1696E}\n\
BAMUM LETTER PHASE-E NSHUOP:\u{1696F}\n\
BAMUM LETTER PHASE-E NDUN:\u{16970}\n\
BAMUM LETTER PHASE-E PUAE:\u{16971}\n\
BAMUM LETTER PHASE-E TAM:\u{16972}\n\
BAMUM LETTER PHASE-E NGKA:\u{16973}\n\
BAMUM LETTER PHASE-E KPEUX:\u{16974}\n\
BAMUM LETTER PHASE-E WUO:\u{16975}\n\
BAMUM LETTER PHASE-E SEE:\u{16976}\n\
BAMUM LETTER PHASE-E NGGEUAET:\u{16977}\n\
BAMUM LETTER PHASE-E PAAM:\u{16978}\n\
BAMUM LETTER PHASE-E TOO:\u{16979}\n\
BAMUM LETTER PHASE-E KUOP:\u{1697A}\n\
BAMUM LETTER PHASE-E LOM:\u{1697B}\n\
BAMUM LETTER PHASE-E NSHIEE:\u{1697C}\n\
BAMUM LETTER PHASE-E NGOP:\u{1697D}\n\
BAMUM LETTER PHASE-E MAEM:\u{1697E}\n\
BAMUM LETTER PHASE-E NGKEUX:\u{1697F}\n\
BAMUM LETTER PHASE-E NGOQ:\u{16980}\n\
BAMUM LETTER PHASE-E NSHUE:\u{16981}\n\
BAMUM LETTER PHASE-E RIMGBA:\u{16982}\n\
BAMUM LETTER PHASE-E NJEUX:\u{16983}\n\
BAMUM LETTER PHASE-E PEEM:\u{16984}\n\
BAMUM LETTER PHASE-E SAA:\u{16985}\n\
BAMUM LETTER PHASE-E NGGURAE:\u{16986}\n\
BAMUM LETTER PHASE-E MGBA:\u{16987}\n\
BAMUM LETTER PHASE-E GHEUX:\u{16988}\n\
BAMUM LETTER PHASE-E NGKEUAEM:\u{16989}\n\
BAMUM LETTER PHASE-E NJAEMLI:\u{1698A}\n\
BAMUM LETTER PHASE-E MAP:\u{1698B}\n\
BAMUM LETTER PHASE-E LOOT:\u{1698C}\n\
BAMUM LETTER PHASE-E NGGEEEE:\u{1698D}\n\
BAMUM LETTER PHASE-E NDIQ:\u{1698E}\n\
BAMUM LETTER PHASE-E TAEN NTEUM:\u{1698F}\n\
BAMUM LETTER PHASE-E SET:\u{16990}\n\
BAMUM LETTER PHASE-E PUM:\u{16991}\n\
BAMUM LETTER PHASE-E NDAA SOFTNESS:\u{16992}\n\
BAMUM LETTER PHASE-E NGGUAESHAE NYAM:\u{16993}\n\
BAMUM LETTER PHASE-E YIEE:\u{16994}\n\
BAMUM LETTER PHASE-E GHEUN:\u{16995}\n\
BAMUM LETTER PHASE-E TUAE:\u{16996}\n\
BAMUM LETTER PHASE-E YEUAE:\u{16997}\n\
BAMUM LETTER PHASE-E PO:\u{16998}\n\
BAMUM LETTER PHASE-E TUMAE:\u{16999}\n\
BAMUM LETTER PHASE-E KEUAE:\u{1699A}\n\
BAMUM LETTER PHASE-E SUAEN:\u{1699B}\n\
BAMUM LETTER PHASE-E TEUAEQ:\u{1699C}\n\
BAMUM LETTER PHASE-E VEUAE:\u{1699D}\n\
BAMUM LETTER PHASE-E WEUX:\u{1699E}\n\
BAMUM LETTER PHASE-E LAAM:\u{1699F}\n\
BAMUM LETTER PHASE-E PU:\u{169A0}\n\
BAMUM LETTER PHASE-E TAAQ:\u{169A1}\n\
BAMUM LETTER PHASE-E GHAAMAE:\u{169A2}\n\
BAMUM LETTER PHASE-E NGEUREUT:\u{169A3}\n\
BAMUM LETTER PHASE-E SHEUAEQ:\u{169A4}\n\
BAMUM LETTER PHASE-E MGBEN:\u{169A5}\n\
BAMUM LETTER PHASE-E MBEE:\u{169A6}\n\
BAMUM LETTER PHASE-E NZAQ:\u{169A7}\n\
BAMUM LETTER PHASE-E NKOM:\u{169A8}\n\
BAMUM LETTER PHASE-E GBET:\u{169A9}\n\
BAMUM LETTER PHASE-E TUM:\u{169AA}\n\
BAMUM LETTER PHASE-E KUET:\u{169AB}\n\
BAMUM LETTER PHASE-E YAP:\u{169AC}\n\
BAMUM LETTER PHASE-E NYI CLEAVER:\u{169AD}\n\
BAMUM LETTER PHASE-E YIT:\u{169AE}\n\
BAMUM LETTER PHASE-E MFEUQ:\u{169AF}\n\
BAMUM LETTER PHASE-E NDIAQ:\u{169B0}\n\
BAMUM LETTER PHASE-E PIEEQ:\u{169B1}\n\
BAMUM LETTER PHASE-E YUEQ:\u{169B2}\n\
BAMUM LETTER PHASE-E LEUAEM:\u{169B3}\n\
BAMUM LETTER PHASE-E FUE:\u{169B4}\n\
BAMUM LETTER PHASE-E GBEUX:\u{169B5}\n\
BAMUM LETTER PHASE-E NGKUP:\u{169B6}\n\
BAMUM LETTER PHASE-E KET:\u{169B7}\n\
BAMUM LETTER PHASE-E MAE:\u{169B8}\n\
BAMUM LETTER PHASE-E NGKAAMI:\u{169B9}\n\
BAMUM LETTER PHASE-E GHET:\u{169BA}\n\
BAMUM LETTER PHASE-E FA:\u{169BB}\n\
BAMUM LETTER PHASE-E NTUM:\u{169BC}\n\
BAMUM LETTER PHASE-E PEUT:\u{169BD}\n\
BAMUM LETTER PHASE-E YEUM:\u{169BE}\n\
BAMUM LETTER PHASE-E NGGEUAE:\u{169BF}\n\
BAMUM LETTER PHASE-E NYI BETWEEN:\u{169C0}\n\
BAMUM LETTER PHASE-E NZUQ:\u{169C1}\n\
BAMUM LETTER PHASE-E POON:\u{169C2}\n\
BAMUM LETTER PHASE-E MIEE:\u{169C3}\n\
BAMUM LETTER PHASE-E FUET:\u{169C4}\n\
BAMUM LETTER PHASE-E NAE:\u{169C5}\n\
BAMUM LETTER PHASE-E MUAE:\u{169C6}\n\
BAMUM LETTER PHASE-E GHEUAE:\u{169C7}\n\
BAMUM LETTER PHASE-E FU I:\u{169C8}\n\
BAMUM LETTER PHASE-E MVI:\u{169C9}\n\
BAMUM LETTER PHASE-E PUAQ:\u{169CA}\n\
BAMUM LETTER PHASE-E NGKUM:\u{169CB}\n\
BAMUM LETTER PHASE-E KUT:\u{169CC}\n\
BAMUM LETTER PHASE-E PIET:\u{169CD}\n\
BAMUM LETTER PHASE-E NTAP:\u{169CE}\n\
BAMUM LETTER PHASE-E YEUAET:\u{169CF}\n\
BAMUM LETTER PHASE-E NGGUP:\u{169D0}\n\
BAMUM LETTER PHASE-E PA PEOPLE:\u{169D1}\n\
BAMUM LETTER PHASE-E FU CALL:\u{169D2}\n\
BAMUM LETTER PHASE-E FOM:\u{169D3}\n\
BAMUM LETTER PHASE-E NJEE:\u{169D4}\n\
BAMUM LETTER PHASE-E A:\u{169D5}\n\
BAMUM LETTER PHASE-E TOQ:\u{169D6}\n\
BAMUM LETTER PHASE-E O:\u{169D7}\n\
BAMUM LETTER PHASE-E I:\u{169D8}\n\
BAMUM LETTER PHASE-E LAQ:\u{169D9}\n\
BAMUM LETTER PHASE-E PA PLURAL:\u{169DA}\n\
BAMUM LETTER PHASE-E TAA:\u{169DB}\n\
BAMUM LETTER PHASE-E TAQ:\u{169DC}\n\
BAMUM LETTER PHASE-E NDAA MY HOUSE:\u{169DD}\n\
BAMUM LETTER PHASE-E SHIQ:\u{169DE}\n\
BAMUM LETTER PHASE-E YEUX:\u{169DF}\n\
BAMUM LETTER PHASE-E NGUAE:\u{169E0}\n\
BAMUM LETTER PHASE-E YUAEN:\u{169E1}\n\
BAMUM LETTER PHASE-E YOQ SWIMMING:\u{169E2}\n\
BAMUM LETTER PHASE-E YOQ COVER:\u{169E3}\n\
BAMUM LETTER PHASE-E YUQ:\u{169E4}\n\
BAMUM LETTER PHASE-E YUN:\u{169E5}\n\
BAMUM LETTER PHASE-E KEUX:\u{169E6}\n\
BAMUM LETTER PHASE-E PEUX:\u{169E7}\n\
BAMUM LETTER PHASE-E NJEE EPOCH:\u{169E8}\n\
BAMUM LETTER PHASE-E PUE:\u{169E9}\n\
BAMUM LETTER PHASE-E WUE:\u{169EA}\n\
BAMUM LETTER PHASE-E FEE:\u{169EB}\n\
BAMUM LETTER PHASE-E VEE:\u{169EC}\n\
BAMUM LETTER PHASE-E LU:\u{169ED}\n\
BAMUM LETTER PHASE-E MI:\u{169EE}\n\
BAMUM LETTER PHASE-E REUX:\u{169EF}\n\
BAMUM LETTER PHASE-E RAE:\u{169F0}\n\
BAMUM LETTER PHASE-E NGUAET:\u{169F1}\n\
BAMUM LETTER PHASE-E NGA:\u{169F2}\n\
BAMUM LETTER PHASE-E SHO:\u{169F3}\n\
BAMUM LETTER PHASE-E SHOQ:\u{169F4}\n\
BAMUM LETTER PHASE-E FU REMEDY:\u{169F5}\n\
BAMUM LETTER PHASE-E NA:\u{169F6}\n\
BAMUM LETTER PHASE-E PI:\u{169F7}\n\
BAMUM LETTER PHASE-E LOQ:\u{169F8}\n\
BAMUM LETTER PHASE-E KO:\u{169F9}\n\
BAMUM LETTER PHASE-E MEN:\u{169FA}\n\
BAMUM LETTER PHASE-E MA:\u{169FB}\n\
BAMUM LETTER PHASE-E MAQ:\u{169FC}\n\
BAMUM LETTER PHASE-E TEU:\u{169FD}\n\
BAMUM LETTER PHASE-E KI:\u{169FE}\n\
BAMUM LETTER PHASE-E MON:\u{169FF}\n\
BAMUM LETTER PHASE-E TEN:\u{16A00}\n\
BAMUM LETTER PHASE-E FAQ:\u{16A01}\n\
BAMUM LETTER PHASE-E GHOM:\u{16A02}\n\
BAMUM LETTER PHASE-F KA:\u{16A03}\n\
BAMUM LETTER PHASE-F U:\u{16A04}\n\
BAMUM LETTER PHASE-F KU:\u{16A05}\n\
BAMUM LETTER PHASE-F EE:\u{16A06}\n\
BAMUM LETTER PHASE-F REE:\u{16A07}\n\
BAMUM LETTER PHASE-F TAE:\u{16A08}\n\
BAMUM LETTER PHASE-F NYI:\u{16A09}\n\
BAMUM LETTER PHASE-F LA:\u{16A0A}\n\
BAMUM LETTER PHASE-F RII:\u{16A0B}\n\
BAMUM LETTER PHASE-F RIEE:\u{16A0C}\n\
BAMUM LETTER PHASE-F MEEEE:\u{16A0D}\n\
BAMUM LETTER PHASE-F TAA:\u{16A0E}\n\
BAMUM LETTER PHASE-F NDAA:\u{16A0F}\n\
BAMUM LETTER PHASE-F NJAEM:\u{16A10}\n\
BAMUM LETTER PHASE-F M:\u{16A11}\n\
BAMUM LETTER PHASE-F SUU:\u{16A12}\n\
BAMUM LETTER PHASE-F SHII:\u{16A13}\n\
BAMUM LETTER PHASE-F SI:\u{16A14}\n\
BAMUM LETTER PHASE-F SEUX:\u{16A15}\n\
BAMUM LETTER PHASE-F KYEE:\u{16A16}\n\
BAMUM LETTER PHASE-F KET:\u{16A17}\n\
BAMUM LETTER PHASE-F NUAE:\u{16A18}\n\
BAMUM LETTER PHASE-F NU:\u{16A19}\n\
BAMUM LETTER PHASE-F NJUAE:\u{16A1A}\n\
BAMUM LETTER PHASE-F YOQ:\u{16A1B}\n\
BAMUM LETTER PHASE-F SHU:\u{16A1C}\n\
BAMUM LETTER PHASE-F YA:\u{16A1D}\n\
BAMUM LETTER PHASE-F NSHA:\u{16A1E}\n\
BAMUM LETTER PHASE-F PEUX:\u{16A1F}\n\
BAMUM LETTER PHASE-F NTEE:\u{16A20}\n\
BAMUM LETTER PHASE-F WUE:\u{16A21}\n\
BAMUM LETTER PHASE-F PEE:\u{16A22}\n\
BAMUM LETTER PHASE-F RU:\u{16A23}\n\
BAMUM LETTER PHASE-F NI:\u{16A24}\n\
BAMUM LETTER PHASE-F REUX:\u{16A25}\n\
BAMUM LETTER PHASE-F KEN:\u{16A26}\n\
BAMUM LETTER PHASE-F NGKWAEN:\u{16A27}\n\
BAMUM LETTER PHASE-F NGGA:\u{16A28}\n\
BAMUM LETTER PHASE-F SHO:\u{16A29}\n\
BAMUM LETTER PHASE-F PUAE:\u{16A2A}\n\
BAMUM LETTER PHASE-F FOM:\u{16A2B}\n\
BAMUM LETTER PHASE-F WA:\u{16A2C}\n\
BAMUM LETTER PHASE-F LI:\u{16A2D}\n\
BAMUM LETTER PHASE-F LOQ:\u{16A2E}\n\
BAMUM LETTER PHASE-F KO:\u{16A2F}\n\
BAMUM LETTER PHASE-F MBEN:\u{16A30}\n\
BAMUM LETTER PHASE-F REN:\u{16A31}\n\
BAMUM LETTER PHASE-F MA:\u{16A32}\n\
BAMUM LETTER PHASE-F MO:\u{16A33}\n\
BAMUM LETTER PHASE-F MBAA:\u{16A34}\n\
BAMUM LETTER PHASE-F TET:\u{16A35}\n\
BAMUM LETTER PHASE-F KPA:\u{16A36}\n\
BAMUM LETTER PHASE-F SAMBA:\u{16A37}\n\
BAMUM LETTER PHASE-F VUEQ:\u{16A38}\n\
MRO LETTER TA:\u{16A40}\n\
MRO LETTER NGI:\u{16A41}\n\
MRO LETTER YO:\u{16A42}\n\
MRO LETTER MIM:\u{16A43}\n\
MRO LETTER BA:\u{16A44}\n\
MRO LETTER DA:\u{16A45}\n\
MRO LETTER A:\u{16A46}\n\
MRO LETTER PHI:\u{16A47}\n\
MRO LETTER KHAI:\u{16A48}\n\
MRO LETTER HAO:\u{16A49}\n\
MRO LETTER DAI:\u{16A4A}\n\
MRO LETTER CHU:\u{16A4B}\n\
MRO LETTER KEAAE:\u{16A4C}\n\
MRO LETTER OL:\u{16A4D}\n\
MRO LETTER MAEM:\u{16A4E}\n\
MRO LETTER NIN:\u{16A4F}\n\
MRO LETTER PA:\u{16A50}\n\
MRO LETTER OO:\u{16A51}\n\
MRO LETTER O:\u{16A52}\n\
MRO LETTER RO:\u{16A53}\n\
MRO LETTER SHI:\u{16A54}\n\
MRO LETTER THEA:\u{16A55}\n\
MRO LETTER EA:\u{16A56}\n\
MRO LETTER WA:\u{16A57}\n\
MRO LETTER E:\u{16A58}\n\
MRO LETTER KO:\u{16A59}\n\
MRO LETTER LAN:\u{16A5A}\n\
MRO LETTER LA:\u{16A5B}\n\
MRO LETTER HAI:\u{16A5C}\n\
MRO LETTER RI:\u{16A5D}\n\
MRO LETTER TEK:\u{16A5E}\n\
MRO DIGIT ZERO:\u{16A60}\n\
MRO DIGIT ONE:\u{16A61}\n\
MRO DIGIT TWO:\u{16A62}\n\
MRO DIGIT THREE:\u{16A63}\n\
MRO DIGIT FOUR:\u{16A64}\n\
MRO DIGIT FIVE:\u{16A65}\n\
MRO DIGIT SIX:\u{16A66}\n";

pub const NAMES_63: &'static str = "MRO DIGIT SEVEN:\u{16A67}\n\
MRO DIGIT EIGHT:\u{16A68}\n\
MRO DIGIT NINE:\u{16A69}\n\
MRO DANDA:\u{16A6E}\n\
MRO DOUBLE DANDA:\u{16A6F}\n\
TANGSA LETTER OZ:\u{16A70}\n\
TANGSA LETTER OC:\u{16A71}\n\
TANGSA LETTER OQ:\u{16A72}\n\
TANGSA LETTER OX:\u{16A73}\n\
TANGSA LETTER AZ:\u{16A74}\n\
TANGSA LETTER AC:\u{16A75}\n\
TANGSA LETTER AQ:\u{16A76}\n\
TANGSA LETTER AX:\u{16A77}\n\
TANGSA LETTER VZ:\u{16A78}\n\
TANGSA LETTER VC:\u{16A79}\n\
TANGSA LETTER VQ:\u{16A7A}\n\
TANGSA LETTER VX:\u{16A7B}\n\
TANGSA LETTER EZ:\u{16A7C}\n\
TANGSA LETTER EC:\u{16A7D}\n\
TANGSA LETTER EQ:\u{16A7E}\n\
TANGSA LETTER EX:\u{16A7F}\n\
TANGSA LETTER IZ:\u{16A80}\n\
TANGSA LETTER IC:\u{16A81}\n\
TANGSA LETTER IQ:\u{16A82}\n\
TANGSA LETTER IX:\u{16A83}\n\
TANGSA LETTER UZ:\u{16A84}\n\
TANGSA LETTER UC:\u{16A85}\n\
TANGSA LETTER UQ:\u{16A86}\n\
TANGSA LETTER UX:\u{16A87}\n\
TANGSA LETTER AWZ:\u{16A88}\n\
TANGSA LETTER AWC:\u{16A89}\n\
TANGSA LETTER AWQ:\u{16A8A}\n\
TANGSA LETTER AWX:\u{16A8B}\n\
TANGSA LETTER UIZ:\u{16A8C}\n\
TANGSA LETTER UIC:\u{16A8D}\n\
TANGSA LETTER UIQ:\u{16A8E}\n\
TANGSA LETTER UIX:\u{16A8F}\n\
TANGSA LETTER FINAL NG:\u{16A90}\n\
TANGSA LETTER LONG UEX:\u{16A91}\n\
TANGSA LETTER SHORT UEZ:\u{16A92}\n\
TANGSA LETTER SHORT AWX:\u{16A93}\n\
TANGSA LETTER UEC:\u{16A94}\n\
TANGSA LETTER UEZ:\u{16A95}\n\
TANGSA LETTER UEQ:\u{16A96}\n\
TANGSA LETTER UEX:\u{16A97}\n\
TANGSA LETTER UIUZ:\u{16A98}\n\
TANGSA LETTER UIUC:\u{16A99}\n\
TANGSA LETTER UIUQ:\u{16A9A}\n\
TANGSA LETTER UIUX:\u{16A9B}\n\
TANGSA LETTER MZ:\u{16A9C}\n\
TANGSA LETTER MC:\u{16A9D}\n\
TANGSA LETTER MQ:\u{16A9E}\n\
TANGSA LETTER MX:\u{16A9F}\n\
TANGSA LETTER KA:\u{16AA0}\n\
TANGSA LETTER KHA:\u{16AA1}\n\
TANGSA LETTER GA:\u{16AA2}\n\
TANGSA LETTER NGA:\u{16AA3}\n\
TANGSA LETTER SA:\u{16AA4}\n\
TANGSA LETTER YA:\u{16AA5}\n\
TANGSA LETTER WA:\u{16AA6}\n\
TANGSA LETTER PA:\u{16AA7}\n\
TANGSA LETTER NYA:\u{16AA8}\n\
TANGSA LETTER PHA:\u{16AA9}\n\
TANGSA LETTER BA:\u{16AAA}\n\
TANGSA LETTER MA:\u{16AAB}\n\
TANGSA LETTER NA:\u{16AAC}\n\
TANGSA LETTER HA:\u{16AAD}\n\
TANGSA LETTER LA:\u{16AAE}\n\
TANGSA LETTER HTA:\u{16AAF}\n\
TANGSA LETTER TA:\u{16AB0}\n\
TANGSA LETTER DA:\u{16AB1}\n\
TANGSA LETTER RA:\u{16AB2}\n\
TANGSA LETTER NHA:\u{16AB3}\n\
TANGSA LETTER SHA:\u{16AB4}\n\
TANGSA LETTER CA:\u{16AB5}\n\
TANGSA LETTER TSA:\u{16AB6}\n\
TANGSA LETTER GHA:\u{16AB7}\n\
TANGSA LETTER HTTA:\u{16AB8}\n\
TANGSA LETTER THA:\u{16AB9}\n\
TANGSA LETTER XA:\u{16ABA}\n\
TANGSA LETTER FA:\u{16ABB}\n\
TANGSA LETTER DHA:\u{16ABC}\n\
TANGSA LETTER CHA:\u{16ABD}\n\
TANGSA LETTER ZA:\u{16ABE}\n\
TANGSA DIGIT ZERO:\u{16AC0}\n\
TANGSA DIGIT ONE:\u{16AC1}\n\
TANGSA DIGIT TWO:\u{16AC2}\n\
TANGSA DIGIT THREE:\u{16AC3}\n\
TANGSA DIGIT FOUR:\u{16AC4}\n\
TANGSA DIGIT FIVE:\u{16AC5}\n\
TANGSA DIGIT SIX:\u{16AC6}\n\
TANGSA DIGIT SEVEN:\u{16AC7}\n\
TANGSA DIGIT EIGHT:\u{16AC8}\n\
TANGSA DIGIT NINE:\u{16AC9}\n\
BASSA VAH LETTER ENNI:\u{16AD0}\n\
BASSA VAH LETTER KA:\u{16AD1}\n\
BASSA VAH LETTER SE:\u{16AD2}\n\
BASSA VAH LETTER FA:\u{16AD3}\n\
BASSA VAH LETTER MBE:\u{16AD4}\n\
BASSA VAH LETTER YIE:\u{16AD5}\n\
BASSA VAH LETTER GAH:\u{16AD6}\n\
BASSA VAH LETTER DHII:\u{16AD7}\n\
BASSA VAH LETTER KPAH:\u{16AD8}\n\
BASSA VAH LETTER JO:\u{16AD9}\n\
BASSA VAH LETTER HWAH:\u{16ADA}\n\
BASSA VAH LETTER WA:\u{16ADB}\n\
BASSA VAH LETTER ZO:\u{16ADC}\n\
BASSA VAH LETTER GBU:\u{16ADD}\n\
BASSA VAH LETTER DO:\u{16ADE}\n\
BASSA VAH LETTER CE:\u{16ADF}\n\
BASSA VAH LETTER UWU:\u{16AE0}\n\
BASSA VAH LETTER TO:\u{16AE1}\n\
BASSA VAH LETTER BA:\u{16AE2}\n\
BASSA VAH LETTER VU:\u{16AE3}\n\
BASSA VAH LETTER YEIN:\u{16AE4}\n\
BASSA VAH LETTER PA:\u{16AE5}\n\
BASSA VAH LETTER WADDA:\u{16AE6}\n\
BASSA VAH LETTER A:\u{16AE7}\n\
BASSA VAH LETTER O:\u{16AE8}\n\
BASSA VAH LETTER OO:\u{16AE9}\n\
BASSA VAH LETTER U:\u{16AEA}\n\
BASSA VAH LETTER EE:\u{16AEB}\n\
BASSA VAH LETTER E:\u{16AEC}\n\
BASSA VAH LETTER I:\u{16AED}\n\
BASSA VAH COMBINING HIGH TONE:\u{16AF0}\n\
BASSA VAH COMBINING LOW TONE:\u{16AF1}\n\
BASSA VAH COMBINING MID TONE:\u{16AF2}\n\
BASSA VAH COMBINING LOW-MID TONE:\u{16AF3}\n\
BASSA VAH COMBINING HIGH-LOW TONE:\u{16AF4}\n\
BASSA VAH FULL STOP:\u{16AF5}\n\
PAHAWH HMONG VOWEL KEEB:\u{16B00}\n\
PAHAWH HMONG VOWEL KEEV:\u{16B01}\n\
PAHAWH HMONG VOWEL KIB:\u{16B02}\n\
PAHAWH HMONG VOWEL KIV:\u{16B03}\n\
PAHAWH HMONG VOWEL KAUB:\u{16B04}\n\
PAHAWH HMONG VOWEL KAUV:\u{16B05}\n\
PAHAWH HMONG VOWEL KUB:\u{16B06}\n\
PAHAWH HMONG VOWEL KUV:\u{16B07}\n\
PAHAWH HMONG VOWEL KEB:\u{16B08}\n\
PAHAWH HMONG VOWEL KEV:\u{16B09}\n\
PAHAWH HMONG VOWEL KAIB:\u{16B0A}\n\
PAHAWH HMONG VOWEL KAIV:\u{16B0B}\n\
PAHAWH HMONG VOWEL KOOB:\u{16B0C}\n\
PAHAWH HMONG VOWEL KOOV:\u{16B0D}\n\
PAHAWH HMONG VOWEL KAWB:\u{16B0E}\n\
PAHAWH HMONG VOWEL KAWV:\u{16B0F}\n\
PAHAWH HMONG VOWEL KUAB:\u{16B10}\n\
PAHAWH HMONG VOWEL KUAV:\u{16B11}\n\
PAHAWH HMONG VOWEL KOB:\u{16B12}\n\
PAHAWH HMONG VOWEL KOV:\u{16B13}\n\
PAHAWH HMONG VOWEL KIAB:\u{16B14}\n\
PAHAWH HMONG VOWEL KIAV:\u{16B15}\n\
PAHAWH HMONG VOWEL KAB:\u{16B16}\n\
PAHAWH HMONG VOWEL KAV:\u{16B17}\n\
PAHAWH HMONG VOWEL KWB:\u{16B18}\n\
PAHAWH HMONG VOWEL KWV:\u{16B19}\n\
PAHAWH HMONG VOWEL KAAB:\u{16B1A}\n\
PAHAWH HMONG VOWEL KAAV:\u{16B1B}\n\
PAHAWH HMONG CONSONANT VAU:\u{16B1C}\n\
PAHAWH HMONG CONSONANT NTSAU:\u{16B1D}\n\
PAHAWH HMONG CONSONANT LAU:\u{16B1E}\n\
PAHAWH HMONG CONSONANT HAU:\u{16B1F}\n\
PAHAWH HMONG CONSONANT NLAU:\u{16B20}\n\
PAHAWH HMONG CONSONANT RAU:\u{16B21}\n\
PAHAWH HMONG CONSONANT NKAU:\u{16B22}\n\
PAHAWH HMONG CONSONANT QHAU:\u{16B23}\n\
PAHAWH HMONG CONSONANT YAU:\u{16B24}\n\
PAHAWH HMONG CONSONANT HLAU:\u{16B25}\n\
PAHAWH HMONG CONSONANT MAU:\u{16B26}\n\
PAHAWH HMONG CONSONANT CHAU:\u{16B27}\n\
PAHAWH HMONG CONSONANT NCHAU:\u{16B28}\n\
PAHAWH HMONG CONSONANT HNAU:\u{16B29}\n\
PAHAWH HMONG CONSONANT PLHAU:\u{16B2A}\n\
PAHAWH HMONG CONSONANT NTHAU:\u{16B2B}\n\
PAHAWH HMONG CONSONANT NAU:\u{16B2C}\n\
PAHAWH HMONG CONSONANT AU:\u{16B2D}\n\
PAHAWH HMONG CONSONANT XAU:\u{16B2E}\n\
PAHAWH HMONG CONSONANT CAU:\u{16B2F}\n\
PAHAWH HMONG MARK CIM TUB:\u{16B30}\n\
PAHAWH HMONG MARK CIM SO:\u{16B31}\n\
PAHAWH HMONG MARK CIM KES:\u{16B32}\n\
PAHAWH HMONG MARK CIM KHAV:\u{16B33}\n\
PAHAWH HMONG MARK CIM SUAM:\u{16B34}\n\
PAHAWH HMONG MARK CIM HOM:\u{16B35}\n\
PAHAWH HMONG MARK CIM TAUM:\u{16B36}\n\
PAHAWH HMONG SIGN VOS THOM:\u{16B37}\n\
PAHAWH HMONG SIGN VOS TSHAB CEEB:\u{16B38}\n\
PAHAWH HMONG SIGN CIM CHEEM:\u{16B39}\n\
PAHAWH HMONG SIGN VOS THIAB:\u{16B3A}\n\
PAHAWH HMONG SIGN VOS FEEM:\u{16B3B}\n\
PAHAWH HMONG SIGN XYEEM NTXIV:\u{16B3C}\n\
PAHAWH HMONG SIGN XYEEM RHO:\u{16B3D}\n\
PAHAWH HMONG SIGN XYEEM TOV:\u{16B3E}\n\
PAHAWH HMONG SIGN XYEEM FAIB:\u{16B3F}\n\
PAHAWH HMONG SIGN VOS SEEV:\u{16B40}\n\
PAHAWH HMONG SIGN MEEJ SUAB:\u{16B41}\n\
PAHAWH HMONG SIGN VOS NRUA:\u{16B42}\n\
PAHAWH HMONG SIGN IB YAM:\u{16B43}\n\
PAHAWH HMONG SIGN XAUS:\u{16B44}\n\
PAHAWH HMONG SIGN CIM TSOV ROG:\u{16B45}\n\
PAHAWH HMONG DIGIT ZERO:\u{16B50}\n\
PAHAWH HMONG DIGIT ONE:\u{16B51}\n\
PAHAWH HMONG DIGIT TWO:\u{16B52}\n\
PAHAWH HMONG DIGIT THREE:\u{16B53}\n\
PAHAWH HMONG DIGIT FOUR:\u{16B54}\n\
PAHAWH HMONG DIGIT FIVE:\u{16B55}\n\
PAHAWH HMONG DIGIT SIX:\u{16B56}\n\
PAHAWH HMONG DIGIT SEVEN:\u{16B57}\n\
PAHAWH HMONG DIGIT EIGHT:\u{16B58}\n\
PAHAWH HMONG DIGIT NINE:\u{16B59}\n\
PAHAWH HMONG NUMBER TENS:\u{16B5B}\n\
PAHAWH HMONG NUMBER HUNDREDS:\u{16B5C}\n\
PAHAWH HMONG NUMBER TEN THOUSANDS:\u{16B5D}\n\
PAHAWH HMONG NUMBER MILLIONS:\u{16B5E}\n\
PAHAWH HMONG NUMBER HUNDRED MILLIONS:\u{16B5F}\n\
PAHAWH HMONG NUMBER TEN BILLIONS:\u{16B60}\n\
PAHAWH HMONG NUMBER TRILLIONS:\u{16B61}\n\
PAHAWH HMONG SIGN VOS LUB:\u{16B63}\n\
PAHAWH HMONG SIGN XYOO:\u{16B64}\n\
PAHAWH HMONG SIGN HLI:\u{16B65}\n\
PAHAWH HMONG SIGN THIRD-STAGE HLI:\u{16B66}\n\
PAHAWH HMONG SIGN ZWJ THAJ:\u{16B67}\n\
PAHAWH HMONG SIGN HNUB:\u{16B68}\n\
PAHAWH HMONG SIGN NQIG:\u{16B69}\n\
PAHAWH HMONG SIGN XIAB:\u{16B6A}\n\
PAHAWH HMONG SIGN NTUJ:\u{16B6B}\n\
PAHAWH HMONG SIGN AV:\u{16B6C}\n\
PAHAWH HMONG SIGN TXHEEJ CEEV:\u{16B6D}\n\
PAHAWH HMONG SIGN MEEJ TSEEB:\u{16B6E}\n\
PAHAWH HMONG SIGN TAU:\u{16B6F}\n\
PAHAWH HMONG SIGN LOS:\u{16B70}\n\
PAHAWH HMONG SIGN MUS:\u{16B71}\n\
PAHAWH HMONG SIGN CIM HAIS LUS NTOG NTOG:\u{16B72}\n\
PAHAWH HMONG SIGN CIM CUAM TSHOOJ:\u{16B73}\n\
PAHAWH HMONG SIGN CIM TXWV:\u{16B74}\n\
PAHAWH HMONG SIGN CIM TXWV CHWV:\u{16B75}\n\
PAHAWH HMONG SIGN CIM PUB DAWB:\u{16B76}\n\
PAHAWH HMONG SIGN CIM NRES TOS:\u{16B77}\n\
PAHAWH HMONG CLAN SIGN TSHEEJ:\u{16B7D}\n\
PAHAWH HMONG CLAN SIGN YEEG:\u{16B7E}\n\
PAHAWH HMONG CLAN SIGN LIS:\u{16B7F}\n\
PAHAWH HMONG CLAN SIGN LAUJ:\u{16B80}\n\
PAHAWH HMONG CLAN SIGN XYOOJ:\u{16B81}\n\
PAHAWH HMONG CLAN SIGN KOO:\u{16B82}\n\
PAHAWH HMONG CLAN SIGN HAWJ:\u{16B83}\n\
PAHAWH HMONG CLAN SIGN MUAS:\u{16B84}\n\
PAHAWH HMONG CLAN SIGN THOJ:\u{16B85}\n\
PAHAWH HMONG CLAN SIGN TSAB:\u{16B86}\n\
PAHAWH HMONG CLAN SIGN PHAB:\u{16B87}\n\
PAHAWH HMONG CLAN SIGN KHAB:\u{16B88}\n\
PAHAWH HMONG CLAN SIGN HAM:\u{16B89}\n\
PAHAWH HMONG CLAN SIGN VAJ:\u{16B8A}\n\
PAHAWH HMONG CLAN SIGN FAJ:\u{16B8B}\n\
PAHAWH HMONG CLAN SIGN YAJ:\u{16B8C}\n\
PAHAWH HMONG CLAN SIGN TSWB:\u{16B8D}\n\
PAHAWH HMONG CLAN SIGN KWM:\u{16B8E}\n\
PAHAWH HMONG CLAN SIGN VWJ:\u{16B8F}\n\
MEDEFAIDRIN CAPITAL LETTER M:\u{16E40}\n\
MEDEFAIDRIN CAPITAL LETTER S:\u{16E41}\n\
MEDEFAIDRIN CAPITAL LETTER V:\u{16E42}\n\
MEDEFAIDRIN CAPITAL LETTER W:\u{16E43}\n\
MEDEFAIDRIN CAPITAL LETTER ATIU:\u{16E44}\n\
MEDEFAIDRIN CAPITAL LETTER Z:\u{16E45}\n\
MEDEFAIDRIN CAPITAL LETTER KP:\u{16E46}\n\
MEDEFAIDRIN CAPITAL LETTER P:\u{16E47}\n\
MEDEFAIDRIN CAPITAL LETTER T:\u{16E48}\n\
MEDEFAIDRIN CAPITAL LETTER G:\u{16E49}\n\
MEDEFAIDRIN CAPITAL LETTER F:\u{16E4A}\n\
MEDEFAIDRIN CAPITAL LETTER I:\u{16E4B}\n\
MEDEFAIDRIN CAPITAL LETTER K:\u{16E4C}\n\
MEDEFAIDRIN CAPITAL LETTER A:\u{16E4D}\n\
MEDEFAIDRIN CAPITAL LETTER J:\u{16E4E}\n\
MEDEFAIDRIN CAPITAL LETTER E:\u{16E4F}\n\
MEDEFAIDRIN CAPITAL LETTER B:\u{16E50}\n\
MEDEFAIDRIN CAPITAL LETTER C:\u{16E51}\n\
MEDEFAIDRIN CAPITAL LETTER U:\u{16E52}\n\
MEDEFAIDRIN CAPITAL LETTER YU:\u{16E53}\n\
MEDEFAIDRIN CAPITAL LETTER L:\u{16E54}\n\
MEDEFAIDRIN CAPITAL LETTER Q:\u{16E55}\n\
MEDEFAIDRIN CAPITAL LETTER HP:\u{16E56}\n\
MEDEFAIDRIN CAPITAL LETTER NY:\u{16E57}\n\
MEDEFAIDRIN CAPITAL LETTER X:\u{16E58}\n\
MEDEFAIDRIN CAPITAL LETTER D:\u{16E59}\n\
MEDEFAIDRIN CAPITAL LETTER OE:\u{16E5A}\n\
MEDEFAIDRIN CAPITAL LETTER N:\u{16E5B}\n\
MEDEFAIDRIN CAPITAL LETTER R:\u{16E5C}\n\
MEDEFAIDRIN CAPITAL LETTER O:\u{16E5D}\n\
MEDEFAIDRIN CAPITAL LETTER AI:\u{16E5E}\n\
MEDEFAIDRIN CAPITAL LETTER Y:\u{16E5F}\n\
MEDEFAIDRIN SMALL LETTER M:\u{16E60}\n\
MEDEFAIDRIN SMALL LETTER S:\u{16E61}\n\
MEDEFAIDRIN SMALL LETTER V:\u{16E62}\n\
MEDEFAIDRIN SMALL LETTER W:\u{16E63}\n\
MEDEFAIDRIN SMALL LETTER ATIU:\u{16E64}\n\
MEDEFAIDRIN SMALL LETTER Z:\u{16E65}\n\
MEDEFAIDRIN SMALL LETTER KP:\u{16E66}\n\
MEDEFAIDRIN SMALL LETTER P:\u{16E67}\n\
MEDEFAIDRIN SMALL LETTER T:\u{16E68}\n\
MEDEFAIDRIN SMALL LETTER G:\u{16E69}\n\
MEDEFAIDRIN SMALL LETTER F:\u{16E6A}\n\
MEDEFAIDRIN SMALL LETTER I:\u{16E6B}\n\
MEDEFAIDRIN SMALL LETTER K:\u{16E6C}\n\
MEDEFAIDRIN SMALL LETTER A:\u{16E6D}\n\
MEDEFAIDRIN SMALL LETTER J:\u{16E6E}\n\
MEDEFAIDRIN SMALL LETTER E:\u{16E6F}\n\
MEDEFAIDRIN SMALL LETTER B:\u{16E70}\n\
MEDEFAIDRIN SMALL LETTER C:\u{16E71}\n\
MEDEFAIDRIN SMALL LETTER U:\u{16E72}\n\
MEDEFAIDRIN SMALL LETTER YU:\u{16E73}\n\
MEDEFAIDRIN SMALL LETTER L:\u{16E74}\n\
MEDEFAIDRIN SMALL LETTER Q:\u{16E75}\n\
MEDEFAIDRIN SMALL LETTER HP:\u{16E76}\n\
MEDEFAIDRIN SMALL LETTER NY:\u{16E77}\n\
MEDEFAIDRIN SMALL LETTER X:\u{16E78}\n\
MEDEFAIDRIN SMALL LETTER D:\u{16E79}\n\
MEDEFAIDRIN SMALL LETTER OE:\u{16E7A}\n\
MEDEFAIDRIN SMALL LETTER N:\u{16E7B}\n\
MEDEFAIDRIN SMALL LETTER R:\u{16E7C}\n\
MEDEFAIDRIN SMALL LETTER O:\u{16E7D}\n\
MEDEFAIDRIN SMALL LETTER AI:\u{16E7E}\n\
MEDEFAIDRIN SMALL LETTER Y:\u{16E7F}\n\
MEDEFAIDRIN DIGIT ZERO:\u{16E80}\n\
MEDEFAIDRIN DIGIT ONE:\u{16E81}\n\
MEDEFAIDRIN DIGIT TWO:\u{16E82}\n\
MEDEFAIDRIN DIGIT THREE:\u{16E83}\n\
MEDEFAIDRIN DIGIT FOUR:\u{16E84}\n\
MEDEFAIDRIN DIGIT FIVE:\u{16E85}\n\
MEDEFAIDRIN DIGIT SIX:\u{16E86}\n\
MEDEFAIDRIN DIGIT SEVEN:\u{16E87}\n\
MEDEFAIDRIN DIGIT EIGHT:\u{16E88}\n\
MEDEFAIDRIN DIGIT NINE:\u{16E89}\n\
MEDEFAIDRIN NUMBER TEN:\u{16E8A}\n\
MEDEFAIDRIN NUMBER ELEVEN:\u{16E8B}\n\
MEDEFAIDRIN NUMBER TWELVE:\u{16E8C}\n\
MEDEFAIDRIN NUMBER THIRTEEN:\u{16E8D}\n\
MEDEFAIDRIN NUMBER FOURTEEN:\u{16E8E}\n\
MEDEFAIDRIN NUMBER FIFTEEN:\u{16E8F}\n\
MEDEFAIDRIN NUMBER SIXTEEN:\u{16E90}\n\
MEDEFAIDRIN NUMBER SEVENTEEN:\u{16E91}\n\
MEDEFAIDRIN NUMBER EIGHTEEN:\u{16E92}\n\
MEDEFAIDRIN NUMBER NINETEEN:\u{16E93}\n\
MEDEFAIDRIN DIGIT ONE ALTERNATE FORM:\u{16E94}\n\
MEDEFAIDRIN DIGIT TWO ALTERNATE FORM:\u{16E95}\n\
MEDEFAIDRIN DIGIT THREE ALTERNATE FORM:\u{16E96}\n\
MEDEFAIDRIN COMMA:\u{16E97}\n\
MEDEFAIDRIN FULL STOP:\u{16E98}\n\
MEDEFAIDRIN SYMBOL AIVA:\u{16E99}\n\
MEDEFAIDRIN EXCLAMATION OH:\u{16E9A}\n\
MIAO LETTER PA:\u{16F00}\n\
MIAO LETTER BA:\u{16F01}\n\
MIAO LETTER YI PA:\u{16F02}\n\
MIAO LETTER PLA:\u{16F03}\n\
MIAO LETTER MA:\u{16F04}\n\
MIAO LETTER MHA:\u{16F05}\n\
MIAO LETTER ARCHAIC MA:\u{16F06}\n\
MIAO LETTER FA:\u{16F07}\n\
MIAO LETTER VA:\u{16F08}\n\
MIAO LETTER VFA:\u{16F09}\n\
MIAO LETTER TA:\u{16F0A}\n\
MIAO LETTER DA:\u{16F0B}\n\
MIAO LETTER YI TTA:\u{16F0C}\n\
MIAO LETTER YI TA:\u{16F0D}\n\
MIAO LETTER TTA:\u{16F0E}\n\
MIAO LETTER DDA:\u{16F0F}\n\
MIAO LETTER NA:\u{16F10}\n\
MIAO LETTER NHA:\u{16F11}\n\
MIAO LETTER YI NNA:\u{16F12}\n\
MIAO LETTER ARCHAIC NA:\u{16F13}\n\
MIAO LETTER NNA:\u{16F14}\n\
MIAO LETTER NNHA:\u{16F15}\n\
MIAO LETTER LA:\u{16F16}\n\
MIAO LETTER LYA:\u{16F17}\n\
MIAO LETTER LHA:\u{16F18}\n\
MIAO LETTER LHYA:\u{16F19}\n\
MIAO LETTER TLHA:\u{16F1A}\n\
MIAO LETTER DLHA:\u{16F1B}\n\
MIAO LETTER TLHYA:\u{16F1C}\n\
MIAO LETTER DLHYA:\u{16F1D}\n\
MIAO LETTER KA:\u{16F1E}\n\
MIAO LETTER GA:\u{16F1F}\n\
MIAO LETTER YI KA:\u{16F20}\n\
MIAO LETTER QA:\u{16F21}\n\
MIAO LETTER QGA:\u{16F22}\n\
MIAO LETTER NGA:\u{16F23}\n\
MIAO LETTER NGHA:\u{16F24}\n\
MIAO LETTER ARCHAIC NGA:\u{16F25}\n\
MIAO LETTER HA:\u{16F26}\n\
MIAO LETTER XA:\u{16F27}\n\
MIAO LETTER GHA:\u{16F28}\n\
MIAO LETTER GHHA:\u{16F29}\n\
MIAO LETTER TSSA:\u{16F2A}\n\
MIAO LETTER DZZA:\u{16F2B}\n\
MIAO LETTER NYA:\u{16F2C}\n\
MIAO LETTER NYHA:\u{16F2D}\n\
MIAO LETTER TSHA:\u{16F2E}\n\
MIAO LETTER DZHA:\u{16F2F}\n\
MIAO LETTER YI TSHA:\u{16F30}\n\
MIAO LETTER YI DZHA:\u{16F31}\n\
MIAO LETTER REFORMED TSHA:\u{16F32}\n\
MIAO LETTER SHA:\u{16F33}\n\
MIAO LETTER SSA:\u{16F34}\n\
MIAO LETTER ZHA:\u{16F35}\n\
MIAO LETTER ZSHA:\u{16F36}\n\
MIAO LETTER TSA:\u{16F37}\n\
MIAO LETTER DZA:\u{16F38}\n\
MIAO LETTER YI TSA:\u{16F39}\n\
MIAO LETTER SA:\u{16F3A}\n\
MIAO LETTER ZA:\u{16F3B}\n\
MIAO LETTER ZSA:\u{16F3C}\n\
MIAO LETTER ZZA:\u{16F3D}\n\
MIAO LETTER ZZSA:\u{16F3E}\n\
MIAO LETTER ARCHAIC ZZA:\u{16F3F}\n\
MIAO LETTER ZZYA:\u{16F40}\n\
MIAO LETTER ZZSYA:\u{16F41}\n\
MIAO LETTER WA:\u{16F42}\n\
MIAO LETTER AH:\u{16F43}\n\
MIAO LETTER HHA:\u{16F44}\n\
MIAO LETTER BRI:\u{16F45}\n\
MIAO LETTER SYI:\u{16F46}\n";

pub const NAMES_64: &'static str = "MIAO LETTER DZYI:\u{16F47}\n\
MIAO LETTER TE:\u{16F48}\n\
MIAO LETTER TSE:\u{16F49}\n\
MIAO LETTER RTE:\u{16F4A}\n\
MIAO SIGN CONSONANT MODIFIER BAR:\u{16F4F}\n\
MIAO LETTER NASALIZATION:\u{16F50}\n\
MIAO SIGN ASPIRATION:\u{16F51}\n\
MIAO SIGN REFORMED VOICING:\u{16F52}\n\
MIAO SIGN REFORMED ASPIRATION:\u{16F53}\n\
MIAO VOWEL SIGN A:\u{16F54}\n\
MIAO VOWEL SIGN AA:\u{16F55}\n\
MIAO VOWEL SIGN AHH:\u{16F56}\n\
MIAO VOWEL SIGN AN:\u{16F57}\n\
MIAO VOWEL SIGN ANG:\u{16F58}\n\
MIAO VOWEL SIGN O:\u{16F59}\n\
MIAO VOWEL SIGN OO:\u{16F5A}\n\
MIAO VOWEL SIGN WO:\u{16F5B}\n\
MIAO VOWEL SIGN W:\u{16F5C}\n\
MIAO VOWEL SIGN E:\u{16F5D}\n\
MIAO VOWEL SIGN EN:\u{16F5E}\n\
MIAO VOWEL SIGN ENG:\u{16F5F}\n\
MIAO VOWEL SIGN OEY:\u{16F60}\n\
MIAO VOWEL SIGN I:\u{16F61}\n\
MIAO VOWEL SIGN IA:\u{16F62}\n\
MIAO VOWEL SIGN IAN:\u{16F63}\n\
MIAO VOWEL SIGN IANG:\u{16F64}\n\
MIAO VOWEL SIGN IO:\u{16F65}\n\
MIAO VOWEL SIGN IE:\u{16F66}\n\
MIAO VOWEL SIGN II:\u{16F67}\n\
MIAO VOWEL SIGN IU:\u{16F68}\n\
MIAO VOWEL SIGN ING:\u{16F69}\n\
MIAO VOWEL SIGN U:\u{16F6A}\n\
MIAO VOWEL SIGN UA:\u{16F6B}\n\
MIAO VOWEL SIGN UAN:\u{16F6C}\n\
MIAO VOWEL SIGN UANG:\u{16F6D}\n\
MIAO VOWEL SIGN UU:\u{16F6E}\n\
MIAO VOWEL SIGN UEI:\u{16F6F}\n\
MIAO VOWEL SIGN UNG:\u{16F70}\n\
MIAO VOWEL SIGN Y:\u{16F71}\n\
MIAO VOWEL SIGN YI:\u{16F72}\n\
MIAO VOWEL SIGN AE:\u{16F73}\n\
MIAO VOWEL SIGN AEE:\u{16F74}\n\
MIAO VOWEL SIGN ERR:\u{16F75}\n\
MIAO VOWEL SIGN ROUNDED ERR:\u{16F76}\n\
MIAO VOWEL SIGN ER:\u{16F77}\n\
MIAO VOWEL SIGN ROUNDED ER:\u{16F78}\n\
MIAO VOWEL SIGN AI:\u{16F79}\n\
MIAO VOWEL SIGN EI:\u{16F7A}\n\
MIAO VOWEL SIGN AU:\u{16F7B}\n\
MIAO VOWEL SIGN OU:\u{16F7C}\n\
MIAO VOWEL SIGN N:\u{16F7D}\n\
MIAO VOWEL SIGN NG:\u{16F7E}\n\
MIAO VOWEL SIGN UOG:\u{16F7F}\n\
MIAO VOWEL SIGN YUI:\u{16F80}\n\
MIAO VOWEL SIGN OG:\u{16F81}\n\
MIAO VOWEL SIGN OER:\u{16F82}\n\
MIAO VOWEL SIGN VW:\u{16F83}\n\
MIAO VOWEL SIGN IG:\u{16F84}\n\
MIAO VOWEL SIGN EA:\u{16F85}\n\
MIAO VOWEL SIGN IONG:\u{16F86}\n\
MIAO VOWEL SIGN UI:\u{16F87}\n\
MIAO TONE RIGHT:\u{16F8F}\n\
MIAO TONE TOP RIGHT:\u{16F90}\n\
MIAO TONE ABOVE:\u{16F91}\n\
MIAO TONE BELOW:\u{16F92}\n\
MIAO LETTER TONE-2:\u{16F93}\n\
MIAO LETTER TONE-3:\u{16F94}\n\
MIAO LETTER TONE-4:\u{16F95}\n\
MIAO LETTER TONE-5:\u{16F96}\n\
MIAO LETTER TONE-6:\u{16F97}\n\
MIAO LETTER TONE-7:\u{16F98}\n\
MIAO LETTER TONE-8:\u{16F99}\n\
MIAO LETTER REFORMED TONE-1:\u{16F9A}\n\
MIAO LETTER REFORMED TONE-2:\u{16F9B}\n\
MIAO LETTER REFORMED TONE-4:\u{16F9C}\n\
MIAO LETTER REFORMED TONE-5:\u{16F9D}\n\
MIAO LETTER REFORMED TONE-6:\u{16F9E}\n\
MIAO LETTER REFORMED TONE-8:\u{16F9F}\n\
TANGUT ITERATION MARK:\u{16FE0}\n\
NUSHU ITERATION MARK:\u{16FE1}\n\
OLD CHINESE HOOK MARK:\u{16FE2}\n\
OLD CHINESE ITERATION MARK:\u{16FE3}\n\
KHITAN SMALL SCRIPT FILLER:\u{16FE4}\n\
VIETNAMESE ALTERNATE READING MARK CA:\u{16FF0}\n\
VIETNAMESE ALTERNATE READING MARK NHAY:\u{16FF1}\n\
TANGUT COMPONENT-001:\u{18800}\n\
TANGUT COMPONENT-002:\u{18801}\n\
TANGUT COMPONENT-003:\u{18802}\n\
TANGUT COMPONENT-004:\u{18803}\n\
TANGUT COMPONENT-005:\u{18804}\n\
TANGUT COMPONENT-006:\u{18805}\n\
TANGUT COMPONENT-007:\u{18806}\n\
TANGUT COMPONENT-008:\u{18807}\n\
TANGUT COMPONENT-009:\u{18808}\n\
TANGUT COMPONENT-010:\u{18809}\n\
TANGUT COMPONENT-011:\u{1880A}\n\
TANGUT COMPONENT-012:\u{1880B}\n\
TANGUT COMPONENT-013:\u{1880C}\n\
TANGUT COMPONENT-014:\u{1880D}\n\
TANGUT COMPONENT-015:\u{1880E}\n\
TANGUT COMPONENT-016:\u{1880F}\n\
TANGUT COMPONENT-017:\u{18810}\n\
TANGUT COMPONENT-018:\u{18811}\n\
TANGUT COMPONENT-019:\u{18812}\n\
TANGUT COMPONENT-020:\u{18813}\n\
TANGUT COMPONENT-021:\u{18814}\n\
TANGUT COMPONENT-022:\u{18815}\n\
TANGUT COMPONENT-023:\u{18816}\n\
TANGUT COMPONENT-024:\u{18817}\n\
TANGUT COMPONENT-025:\u{18818}\n\
TANGUT COMPONENT-026:\u{18819}\n\
TANGUT COMPONENT-027:\u{1881A}\n\
TANGUT COMPONENT-028:\u{1881B}\n\
TANGUT COMPONENT-029:\u{1881C}\n\
TANGUT COMPONENT-030:\u{1881D}\n\
TANGUT COMPONENT-031:\u{1881E}\n\
TANGUT COMPONENT-032:\u{1881F}\n\
TANGUT COMPONENT-033:\u{18820}\n\
TANGUT COMPONENT-034:\u{18821}\n\
TANGUT COMPONENT-035:\u{18822}\n\
TANGUT COMPONENT-036:\u{18823}\n\
TANGUT COMPONENT-037:\u{18824}\n\
TANGUT COMPONENT-038:\u{18825}\n\
TANGUT COMPONENT-039:\u{18826}\n\
TANGUT COMPONENT-040:\u{18827}\n\
TANGUT COMPONENT-041:\u{18828}\n\
TANGUT COMPONENT-042:\u{18829}\n\
TANGUT COMPONENT-043:\u{1882A}\n\
TANGUT COMPONENT-044:\u{1882B}\n\
TANGUT COMPONENT-045:\u{1882C}\n\
TANGUT COMPONENT-046:\u{1882D}\n\
TANGUT COMPONENT-047:\u{1882E}\n\
TANGUT COMPONENT-048:\u{1882F}\n\
TANGUT COMPONENT-049:\u{18830}\n\
TANGUT COMPONENT-050:\u{18831}\n\
TANGUT COMPONENT-051:\u{18832}\n\
TANGUT COMPONENT-052:\u{18833}\n\
TANGUT COMPONENT-053:\u{18834}\n\
TANGUT COMPONENT-054:\u{18835}\n\
TANGUT COMPONENT-055:\u{18836}\n\
TANGUT COMPONENT-056:\u{18837}\n\
TANGUT COMPONENT-057:\u{18838}\n\
TANGUT COMPONENT-058:\u{18839}\n\
TANGUT COMPONENT-059:\u{1883A}\n\
TANGUT COMPONENT-060:\u{1883B}\n\
TANGUT COMPONENT-061:\u{1883C}\n\
TANGUT COMPONENT-062:\u{1883D}\n\
TANGUT COMPONENT-063:\u{1883E}\n\
TANGUT COMPONENT-064:\u{1883F}\n\
TANGUT COMPONENT-065:\u{18840}\n\
TANGUT COMPONENT-066:\u{18841}\n\
TANGUT COMPONENT-067:\u{18842}\n\
TANGUT COMPONENT-068:\u{18843}\n\
TANGUT COMPONENT-069:\u{18844}\n\
TANGUT COMPONENT-070:\u{18845}\n\
TANGUT COMPONENT-071:\u{18846}\n\
TANGUT COMPONENT-072:\u{18847}\n\
TANGUT COMPONENT-073:\u{18848}\n\
TANGUT COMPONENT-074:\u{18849}\n\
TANGUT COMPONENT-075:\u{1884A}\n\
TANGUT COMPONENT-076:\u{1884B}\n\
TANGUT COMPONENT-077:\u{1884C}\n\
TANGUT COMPONENT-078:\u{1884D}\n\
TANGUT COMPONENT-079:\u{1884E}\n\
TANGUT COMPONENT-080:\u{1884F}\n\
TANGUT COMPONENT-081:\u{18850}\n\
TANGUT COMPONENT-082:\u{18851}\n\
TANGUT COMPONENT-083:\u{18852}\n\
TANGUT COMPONENT-084:\u{18853}\n\
TANGUT COMPONENT-085:\u{18854}\n\
TANGUT COMPONENT-086:\u{18855}\n\
TANGUT COMPONENT-087:\u{18856}\n\
TANGUT COMPONENT-088:\u{18857}\n\
TANGUT COMPONENT-089:\u{18858}\n\
TANGUT COMPONENT-090:\u{18859}\n\
TANGUT COMPONENT-091:\u{1885A}\n\
TANGUT COMPONENT-092:\u{1885B}\n\
TANGUT COMPONENT-093:\u{1885C}\n\
TANGUT COMPONENT-094:\u{1885D}\n\
TANGUT COMPONENT-095:\u{1885E}\n\
TANGUT COMPONENT-096:\u{1885F}\n\
TANGUT COMPONENT-097:\u{18860}\n\
TANGUT COMPONENT-098:\u{18861}\n\
TANGUT COMPONENT-099:\u{18862}\n\
TANGUT COMPONENT-100:\u{18863}\n\
TANGUT COMPONENT-101:\u{18864}\n\
TANGUT COMPONENT-102:\u{18865}\n\
TANGUT COMPONENT-103:\u{18866}\n\
TANGUT COMPONENT-104:\u{18867}\n\
TANGUT COMPONENT-105:\u{18868}\n\
TANGUT COMPONENT-106:\u{18869}\n\
TANGUT COMPONENT-107:\u{1886A}\n\
TANGUT COMPONENT-108:\u{1886B}\n\
TANGUT COMPONENT-109:\u{1886C}\n\
TANGUT COMPONENT-110:\u{1886D}\n\
TANGUT COMPONENT-111:\u{1886E}\n\
TANGUT COMPONENT-112:\u{1886F}\n\
TANGUT COMPONENT-113:\u{18870}\n\
TANGUT COMPONENT-114:\u{18871}\n\
TANGUT COMPONENT-115:\u{18872}\n\
TANGUT COMPONENT-116:\u{18873}\n\
TANGUT COMPONENT-117:\u{18874}\n\
TANGUT COMPONENT-118:\u{18875}\n\
TANGUT COMPONENT-119:\u{18876}\n\
TANGUT COMPONENT-120:\u{18877}\n\
TANGUT COMPONENT-121:\u{18878}\n\
TANGUT COMPONENT-122:\u{18879}\n\
TANGUT COMPONENT-123:\u{1887A}\n\
TANGUT COMPONENT-124:\u{1887B}\n\
TANGUT COMPONENT-125:\u{1887C}\n\
TANGUT COMPONENT-126:\u{1887D}\n\
TANGUT COMPONENT-127:\u{1887E}\n\
TANGUT COMPONENT-128:\u{1887F}\n\
TANGUT COMPONENT-129:\u{18880}\n\
TANGUT COMPONENT-130:\u{18881}\n\
TANGUT COMPONENT-131:\u{18882}\n\
TANGUT COMPONENT-132:\u{18883}\n\
TANGUT COMPONENT-133:\u{18884}\n\
TANGUT COMPONENT-134:\u{18885}\n\
TANGUT COMPONENT-135:\u{18886}\n\
TANGUT COMPONENT-136:\u{18887}\n\
TANGUT COMPONENT-137:\u{18888}\n\
TANGUT COMPONENT-138:\u{18889}\n\
TANGUT COMPONENT-139:\u{1888A}\n\
TANGUT COMPONENT-140:\u{1888B}\n\
TANGUT COMPONENT-141:\u{1888C}\n\
TANGUT COMPONENT-142:\u{1888D}\n\
TANGUT COMPONENT-143:\u{1888E}\n\
TANGUT COMPONENT-144:\u{1888F}\n\
TANGUT COMPONENT-145:\u{18890}\n\
TANGUT COMPONENT-146:\u{18891}\n\
TANGUT COMPONENT-147:\u{18892}\n\
TANGUT COMPONENT-148:\u{18893}\n\
TANGUT COMPONENT-149:\u{18894}\n\
TANGUT COMPONENT-150:\u{18895}\n\
TANGUT COMPONENT-151:\u{18896}\n\
TANGUT COMPONENT-152:\u{18897}\n\
TANGUT COMPONENT-153:\u{18898}\n\
TANGUT COMPONENT-154:\u{18899}\n\
TANGUT COMPONENT-155:\u{1889A}\n\
TANGUT COMPONENT-156:\u{1889B}\n\
TANGUT COMPONENT-157:\u{1889C}\n\
TANGUT COMPONENT-158:\u{1889D}\n\
TANGUT COMPONENT-159:\u{1889E}\n\
TANGUT COMPONENT-160:\u{1889F}\n\
TANGUT COMPONENT-161:\u{188A0}\n\
TANGUT COMPONENT-162:\u{188A1}\n\
TANGUT COMPONENT-163:\u{188A2}\n\
TANGUT COMPONENT-164:\u{188A3}\n\
TANGUT COMPONENT-165:\u{188A4}\n\
TANGUT COMPONENT-166:\u{188A5}\n\
TANGUT COMPONENT-167:\u{188A6}\n\
TANGUT COMPONENT-168:\u{188A7}\n\
TANGUT COMPONENT-169:\u{188A8}\n\
TANGUT COMPONENT-170:\u{188A9}\n\
TANGUT COMPONENT-171:\u{188AA}\n\
TANGUT COMPONENT-172:\u{188AB}\n\
TANGUT COMPONENT-173:\u{188AC}\n\
TANGUT COMPONENT-174:\u{188AD}\n\
TANGUT COMPONENT-175:\u{188AE}\n\
TANGUT COMPONENT-176:\u{188AF}\n\
TANGUT COMPONENT-177:\u{188B0}\n\
TANGUT COMPONENT-178:\u{188B1}\n\
TANGUT COMPONENT-179:\u{188B2}\n\
TANGUT COMPONENT-180:\u{188B3}\n\
TANGUT COMPONENT-181:\u{188B4}\n\
TANGUT COMPONENT-182:\u{188B5}\n\
TANGUT COMPONENT-183:\u{188B6}\n\
TANGUT COMPONENT-184:\u{188B7}\n\
TANGUT COMPONENT-185:\u{188B8}\n\
TANGUT COMPONENT-186:\u{188B9}\n\
TANGUT COMPONENT-187:\u{188BA}\n\
TANGUT COMPONENT-188:\u{188BB}\n\
TANGUT COMPONENT-189:\u{188BC}\n\
TANGUT COMPONENT-190:\u{188BD}\n\
TANGUT COMPONENT-191:\u{188BE}\n\
TANGUT COMPONENT-192:\u{188BF}\n\
TANGUT COMPONENT-193:\u{188C0}\n\
TANGUT COMPONENT-194:\u{188C1}\n\
TANGUT COMPONENT-195:\u{188C2}\n\
TANGUT COMPONENT-196:\u{188C3}\n\
TANGUT COMPONENT-197:\u{188C4}\n\
TANGUT COMPONENT-198:\u{188C5}\n\
TANGUT COMPONENT-199:\u{188C6}\n\
TANGUT COMPONENT-200:\u{188C7}\n\
TANGUT COMPONENT-201:\u{188C8}\n\
TANGUT COMPONENT-202:\u{188C9}\n\
TANGUT COMPONENT-203:\u{188CA}\n\
TANGUT COMPONENT-204:\u{188CB}\n\
TANGUT COMPONENT-205:\u{188CC}\n\
TANGUT COMPONENT-206:\u{188CD}\n\
TANGUT COMPONENT-207:\u{188CE}\n\
TANGUT COMPONENT-208:\u{188CF}\n\
TANGUT COMPONENT-209:\u{188D0}\n\
TANGUT COMPONENT-210:\u{188D1}\n\
TANGUT COMPONENT-211:\u{188D2}\n\
TANGUT COMPONENT-212:\u{188D3}\n\
TANGUT COMPONENT-213:\u{188D4}\n\
TANGUT COMPONENT-214:\u{188D5}\n\
TANGUT COMPONENT-215:\u{188D6}\n\
TANGUT COMPONENT-216:\u{188D7}\n\
TANGUT COMPONENT-217:\u{188D8}\n\
TANGUT COMPONENT-218:\u{188D9}\n\
TANGUT COMPONENT-219:\u{188DA}\n\
TANGUT COMPONENT-220:\u{188DB}\n\
TANGUT COMPONENT-221:\u{188DC}\n\
TANGUT COMPONENT-222:\u{188DD}\n\
TANGUT COMPONENT-223:\u{188DE}\n\
TANGUT COMPONENT-224:\u{188DF}\n\
TANGUT COMPONENT-225:\u{188E0}\n\
TANGUT COMPONENT-226:\u{188E1}\n\
TANGUT COMPONENT-227:\u{188E2}\n\
TANGUT COMPONENT-228:\u{188E3}\n\
TANGUT COMPONENT-229:\u{188E4}\n\
TANGUT COMPONENT-230:\u{188E5}\n\
TANGUT COMPONENT-231:\u{188E6}\n\
TANGUT COMPONENT-232:\u{188E7}\n\
TANGUT COMPONENT-233:\u{188E8}\n\
TANGUT COMPONENT-234:\u{188E9}\n\
TANGUT COMPONENT-235:\u{188EA}\n\
TANGUT COMPONENT-236:\u{188EB}\n\
TANGUT COMPONENT-237:\u{188EC}\n\
TANGUT COMPONENT-238:\u{188ED}\n\
TANGUT COMPONENT-239:\u{188EE}\n\
TANGUT COMPONENT-240:\u{188EF}\n\
TANGUT COMPONENT-241:\u{188F0}\n\
TANGUT COMPONENT-242:\u{188F1}\n\
TANGUT COMPONENT-243:\u{188F2}\n\
TANGUT COMPONENT-244:\u{188F3}\n\
TANGUT COMPONENT-245:\u{188F4}\n\
TANGUT COMPONENT-246:\u{188F5}\n\
TANGUT COMPONENT-247:\u{188F6}\n\
TANGUT COMPONENT-248:\u{188F7}\n\
TANGUT COMPONENT-249:\u{188F8}\n\
TANGUT COMPONENT-250:\u{188F9}\n\
TANGUT COMPONENT-251:\u{188FA}\n\
TANGUT COMPONENT-252:\u{188FB}\n\
TANGUT COMPONENT-253:\u{188FC}\n\
TANGUT COMPONENT-254:\u{188FD}\n\
TANGUT COMPONENT-255:\u{188FE}\n\
TANGUT COMPONENT-256:\u{188FF}\n\
TANGUT COMPONENT-257:\u{18900}\n\
TANGUT COMPONENT-258:\u{18901}\n\
TANGUT COMPONENT-259:\u{18902}\n\
TANGUT COMPONENT-260:\u{18903}\n\
TANGUT COMPONENT-261:\u{18904}\n\
TANGUT COMPONENT-262:\u{18905}\n\
TANGUT COMPONENT-263:\u{18906}\n\
TANGUT COMPONENT-264:\u{18907}\n\
TANGUT COMPONENT-265:\u{18908}\n\
TANGUT COMPONENT-266:\u{18909}\n\
TANGUT COMPONENT-267:\u{1890A}\n\
TANGUT COMPONENT-268:\u{1890B}\n\
TANGUT COMPONENT-269:\u{1890C}\n\
TANGUT COMPONENT-270:\u{1890D}\n\
TANGUT COMPONENT-271:\u{1890E}\n\
TANGUT COMPONENT-272:\u{1890F}\n\
TANGUT COMPONENT-273:\u{18910}\n\
TANGUT COMPONENT-274:\u{18911}\n\
TANGUT COMPONENT-275:\u{18912}\n\
TANGUT COMPONENT-276:\u{18913}\n\
TANGUT COMPONENT-277:\u{18914}\n\
TANGUT COMPONENT-278:\u{18915}\n\
TANGUT COMPONENT-279:\u{18916}\n\
TANGUT COMPONENT-280:\u{18917}\n\
TANGUT COMPONENT-281:\u{18918}\n\
TANGUT COMPONENT-282:\u{18919}\n\
TANGUT COMPONENT-283:\u{1891A}\n\
TANGUT COMPONENT-284:\u{1891B}\n\
TANGUT COMPONENT-285:\u{1891C}\n\
TANGUT COMPONENT-286:\u{1891D}\n\
TANGUT COMPONENT-287:\u{1891E}\n\
TANGUT COMPONENT-288:\u{1891F}\n\
TANGUT COMPONENT-289:\u{18920}\n\
TANGUT COMPONENT-290:\u{18921}\n\
TANGUT COMPONENT-291:\u{18922}\n\
TANGUT COMPONENT-292:\u{18923}\n\
TANGUT COMPONENT-293:\u{18924}\n\
TANGUT COMPONENT-294:\u{18925}\n\
TANGUT COMPONENT-295:\u{18926}\n\
TANGUT COMPONENT-296:\u{18927}\n\
TANGUT COMPONENT-297:\u{18928}\n\
TANGUT COMPONENT-298:\u{18929}\n\
TANGUT COMPONENT-299:\u{1892A}\n\
TANGUT COMPONENT-300:\u{1892B}\n\
TANGUT COMPONENT-301:\u{1892C}\n\
TANGUT COMPONENT-302:\u{1892D}\n\
TANGUT COMPONENT-303:\u{1892E}\n\
TANGUT COMPONENT-304:\u{1892F}\n\
TANGUT COMPONENT-305:\u{18930}\n\
TANGUT COMPONENT-306:\u{18931}\n\
TANGUT COMPONENT-307:\u{18932}\n\
TANGUT COMPONENT-308:\u{18933}\n\
TANGUT COMPONENT-309:\u{18934}\n\
TANGUT COMPONENT-310:\u{18935}\n\
TANGUT COMPONENT-311:\u{18936}\n\
TANGUT COMPONENT-312:\u{18937}\n\
TANGUT COMPONENT-313:\u{18938}\n\
TANGUT COMPONENT-314:\u{18939}\n\
TANGUT COMPONENT-315:\u{1893A}\n\
TANGUT COMPONENT-316:\u{1893B}\n\
TANGUT COMPONENT-317:\u{1893C}\n\
TANGUT COMPONENT-318:\u{1893D}\n\
TANGUT COMPONENT-319:\u{1893E}\n\
TANGUT COMPONENT-320:\u{1893F}\n\
TANGUT COMPONENT-321:\u{18940}\n\
TANGUT COMPONENT-322:\u{18941}\n\
TANGUT COMPONENT-323:\u{18942}\n\
TANGUT COMPONENT-324:\u{18943}\n\
TANGUT COMPONENT-325:\u{18944}\n\
TANGUT COMPONENT-326:\u{18945}\n\
TANGUT COMPONENT-327:\u{18946}\n\
TANGUT COMPONENT-328:\u{18947}\n\
TANGUT COMPONENT-329:\u{18948}\n\
TANGUT COMPONENT-330:\u{18949}\n\
TANGUT COMPONENT-331:\u{1894A}\n\
TANGUT COMPONENT-332:\u{1894B}\n\
TANGUT COMPONENT-333:\u{1894C}\n\
TANGUT COMPONENT-334:\u{1894D}\n\
TANGUT COMPONENT-335:\u{1894E}\n\
TANGUT COMPONENT-336:\u{1894F}\n\
TANGUT COMPONENT-337:\u{18950}\n\
TANGUT COMPONENT-338:\u{18951}\n\
TANGUT COMPONENT-339:\u{18952}\n\
TANGUT COMPONENT-340:\u{18953}\n\
TANGUT COMPONENT-341:\u{18954}\n\
TANGUT COMPONENT-342:\u{18955}\n\
TANGUT COMPONENT-343:\u{18956}\n\
TANGUT COMPONENT-344:\u{18957}\n\
TANGUT COMPONENT-345:\u{18958}\n\
TANGUT COMPONENT-346:\u{18959}\n\
TANGUT COMPONENT-347:\u{1895A}\n\
TANGUT COMPONENT-348:\u{1895B}\n\
TANGUT COMPONENT-349:\u{1895C}\n\
TANGUT COMPONENT-350:\u{1895D}\n\
TANGUT COMPONENT-351:\u{1895E}\n\
TANGUT COMPONENT-352:\u{1895F}\n\
TANGUT COMPONENT-353:\u{18960}\n\
TANGUT COMPONENT-354:\u{18961}\n\
TANGUT COMPONENT-355:\u{18962}\n\
TANGUT COMPONENT-356:\u{18963}\n";

pub const NAMES_65: &'static str = "TANGUT COMPONENT-357:\u{18964}\n\
TANGUT COMPONENT-358:\u{18965}\n\
TANGUT COMPONENT-359:\u{18966}\n\
TANGUT COMPONENT-360:\u{18967}\n\
TANGUT COMPONENT-361:\u{18968}\n\
TANGUT COMPONENT-362:\u{18969}\n\
TANGUT COMPONENT-363:\u{1896A}\n\
TANGUT COMPONENT-364:\u{1896B}\n\
TANGUT COMPONENT-365:\u{1896C}\n\
TANGUT COMPONENT-366:\u{1896D}\n\
TANGUT COMPONENT-367:\u{1896E}\n\
TANGUT COMPONENT-368:\u{1896F}\n\
TANGUT COMPONENT-369:\u{18970}\n\
TANGUT COMPONENT-370:\u{18971}\n\
TANGUT COMPONENT-371:\u{18972}\n\
TANGUT COMPONENT-372:\u{18973}\n\
TANGUT COMPONENT-373:\u{18974}\n\
TANGUT COMPONENT-374:\u{18975}\n\
TANGUT COMPONENT-375:\u{18976}\n\
TANGUT COMPONENT-376:\u{18977}\n\
TANGUT COMPONENT-377:\u{18978}\n\
TANGUT COMPONENT-378:\u{18979}\n\
TANGUT COMPONENT-379:\u{1897A}\n\
TANGUT COMPONENT-380:\u{1897B}\n\
TANGUT COMPONENT-381:\u{1897C}\n\
TANGUT COMPONENT-382:\u{1897D}\n\
TANGUT COMPONENT-383:\u{1897E}\n\
TANGUT COMPONENT-384:\u{1897F}\n\
TANGUT COMPONENT-385:\u{18980}\n\
TANGUT COMPONENT-386:\u{18981}\n\
TANGUT COMPONENT-387:\u{18982}\n\
TANGUT COMPONENT-388:\u{18983}\n\
TANGUT COMPONENT-389:\u{18984}\n\
TANGUT COMPONENT-390:\u{18985}\n\
TANGUT COMPONENT-391:\u{18986}\n\
TANGUT COMPONENT-392:\u{18987}\n\
TANGUT COMPONENT-393:\u{18988}\n\
TANGUT COMPONENT-394:\u{18989}\n\
TANGUT COMPONENT-395:\u{1898A}\n\
TANGUT COMPONENT-396:\u{1898B}\n\
TANGUT COMPONENT-397:\u{1898C}\n\
TANGUT COMPONENT-398:\u{1898D}\n\
TANGUT COMPONENT-399:\u{1898E}\n\
TANGUT COMPONENT-400:\u{1898F}\n\
TANGUT COMPONENT-401:\u{18990}\n\
TANGUT COMPONENT-402:\u{18991}\n\
TANGUT COMPONENT-403:\u{18992}\n\
TANGUT COMPONENT-404:\u{18993}\n\
TANGUT COMPONENT-405:\u{18994}\n\
TANGUT COMPONENT-406:\u{18995}\n\
TANGUT COMPONENT-407:\u{18996}\n\
TANGUT COMPONENT-408:\u{18997}\n\
TANGUT COMPONENT-409:\u{18998}\n\
TANGUT COMPONENT-410:\u{18999}\n\
TANGUT COMPONENT-411:\u{1899A}\n\
TANGUT COMPONENT-412:\u{1899B}\n\
TANGUT COMPONENT-413:\u{1899C}\n\
TANGUT COMPONENT-414:\u{1899D}\n\
TANGUT COMPONENT-415:\u{1899E}\n\
TANGUT COMPONENT-416:\u{1899F}\n\
TANGUT COMPONENT-417:\u{189A0}\n\
TANGUT COMPONENT-418:\u{189A1}\n\
TANGUT COMPONENT-419:\u{189A2}\n\
TANGUT COMPONENT-420:\u{189A3}\n\
TANGUT COMPONENT-421:\u{189A4}\n\
TANGUT COMPONENT-422:\u{189A5}\n\
TANGUT COMPONENT-423:\u{189A6}\n\
TANGUT COMPONENT-424:\u{189A7}\n\
TANGUT COMPONENT-425:\u{189A8}\n\
TANGUT COMPONENT-426:\u{189A9}\n\
TANGUT COMPONENT-427:\u{189AA}\n\
TANGUT COMPONENT-428:\u{189AB}\n\
TANGUT COMPONENT-429:\u{189AC}\n\
TANGUT COMPONENT-430:\u{189AD}\n\
TANGUT COMPONENT-431:\u{189AE}\n\
TANGUT COMPONENT-432:\u{189AF}\n\
TANGUT COMPONENT-433:\u{189B0}\n\
TANGUT COMPONENT-434:\u{189B1}\n\
TANGUT COMPONENT-435:\u{189B2}\n\
TANGUT COMPONENT-436:\u{189B3}\n\
TANGUT COMPONENT-437:\u{189B4}\n\
TANGUT COMPONENT-438:\u{189B5}\n\
TANGUT COMPONENT-439:\u{189B6}\n\
TANGUT COMPONENT-440:\u{189B7}\n\
TANGUT COMPONENT-441:\u{189B8}\n\
TANGUT COMPONENT-442:\u{189B9}\n\
TANGUT COMPONENT-443:\u{189BA}\n\
TANGUT COMPONENT-444:\u{189BB}\n\
TANGUT COMPONENT-445:\u{189BC}\n\
TANGUT COMPONENT-446:\u{189BD}\n\
TANGUT COMPONENT-447:\u{189BE}\n\
TANGUT COMPONENT-448:\u{189BF}\n\
TANGUT COMPONENT-449:\u{189C0}\n\
TANGUT COMPONENT-450:\u{189C1}\n\
TANGUT COMPONENT-451:\u{189C2}\n\
TANGUT COMPONENT-452:\u{189C3}\n\
TANGUT COMPONENT-453:\u{189C4}\n\
TANGUT COMPONENT-454:\u{189C5}\n\
TANGUT COMPONENT-455:\u{189C6}\n\
TANGUT COMPONENT-456:\u{189C7}\n\
TANGUT COMPONENT-457:\u{189C8}\n\
TANGUT COMPONENT-458:\u{189C9}\n\
TANGUT COMPONENT-459:\u{189CA}\n\
TANGUT COMPONENT-460:\u{189CB}\n\
TANGUT COMPONENT-461:\u{189CC}\n\
TANGUT COMPONENT-462:\u{189CD}\n\
TANGUT COMPONENT-463:\u{189CE}\n\
TANGUT COMPONENT-464:\u{189CF}\n\
TANGUT COMPONENT-465:\u{189D0}\n\
TANGUT COMPONENT-466:\u{189D1}\n\
TANGUT COMPONENT-467:\u{189D2}\n\
TANGUT COMPONENT-468:\u{189D3}\n\
TANGUT COMPONENT-469:\u{189D4}\n\
TANGUT COMPONENT-470:\u{189D5}\n\
TANGUT COMPONENT-471:\u{189D6}\n\
TANGUT COMPONENT-472:\u{189D7}\n\
TANGUT COMPONENT-473:\u{189D8}\n\
TANGUT COMPONENT-474:\u{189D9}\n\
TANGUT COMPONENT-475:\u{189DA}\n\
TANGUT COMPONENT-476:\u{189DB}\n\
TANGUT COMPONENT-477:\u{189DC}\n\
TANGUT COMPONENT-478:\u{189DD}\n\
TANGUT COMPONENT-479:\u{189DE}\n\
TANGUT COMPONENT-480:\u{189DF}\n\
TANGUT COMPONENT-481:\u{189E0}\n\
TANGUT COMPONENT-482:\u{189E1}\n\
TANGUT COMPONENT-483:\u{189E2}\n\
TANGUT COMPONENT-484:\u{189E3}\n\
TANGUT COMPONENT-485:\u{189E4}\n\
TANGUT COMPONENT-486:\u{189E5}\n\
TANGUT COMPONENT-487:\u{189E6}\n\
TANGUT COMPONENT-488:\u{189E7}\n\
TANGUT COMPONENT-489:\u{189E8}\n\
TANGUT COMPONENT-490:\u{189E9}\n\
TANGUT COMPONENT-491:\u{189EA}\n\
TANGUT COMPONENT-492:\u{189EB}\n\
TANGUT COMPONENT-493:\u{189EC}\n\
TANGUT COMPONENT-494:\u{189ED}\n\
TANGUT COMPONENT-495:\u{189EE}\n\
TANGUT COMPONENT-496:\u{189EF}\n\
TANGUT COMPONENT-497:\u{189F0}\n\
TANGUT COMPONENT-498:\u{189F1}\n\
TANGUT COMPONENT-499:\u{189F2}\n\
TANGUT COMPONENT-500:\u{189F3}\n\
TANGUT COMPONENT-501:\u{189F4}\n\
TANGUT COMPONENT-502:\u{189F5}\n\
TANGUT COMPONENT-503:\u{189F6}\n\
TANGUT COMPONENT-504:\u{189F7}\n\
TANGUT COMPONENT-505:\u{189F8}\n\
TANGUT COMPONENT-506:\u{189F9}\n\
TANGUT COMPONENT-507:\u{189FA}\n\
TANGUT COMPONENT-508:\u{189FB}\n\
TANGUT COMPONENT-509:\u{189FC}\n\
TANGUT COMPONENT-510:\u{189FD}\n\
TANGUT COMPONENT-511:\u{189FE}\n\
TANGUT COMPONENT-512:\u{189FF}\n\
TANGUT COMPONENT-513:\u{18A00}\n\
TANGUT COMPONENT-514:\u{18A01}\n\
TANGUT COMPONENT-515:\u{18A02}\n\
TANGUT COMPONENT-516:\u{18A03}\n\
TANGUT COMPONENT-517:\u{18A04}\n\
TANGUT COMPONENT-518:\u{18A05}\n\
TANGUT COMPONENT-519:\u{18A06}\n\
TANGUT COMPONENT-520:\u{18A07}\n\
TANGUT COMPONENT-521:\u{18A08}\n\
TANGUT COMPONENT-522:\u{18A09}\n\
TANGUT COMPONENT-523:\u{18A0A}\n\
TANGUT COMPONENT-524:\u{18A0B}\n\
TANGUT COMPONENT-525:\u{18A0C}\n\
TANGUT COMPONENT-526:\u{18A0D}\n\
TANGUT COMPONENT-527:\u{18A0E}\n\
TANGUT COMPONENT-528:\u{18A0F}\n\
TANGUT COMPONENT-529:\u{18A10}\n\
TANGUT COMPONENT-530:\u{18A11}\n\
TANGUT COMPONENT-531:\u{18A12}\n\
TANGUT COMPONENT-532:\u{18A13}\n\
TANGUT COMPONENT-533:\u{18A14}\n\
TANGUT COMPONENT-534:\u{18A15}\n\
TANGUT COMPONENT-535:\u{18A16}\n\
TANGUT COMPONENT-536:\u{18A17}\n\
TANGUT COMPONENT-537:\u{18A18}\n\
TANGUT COMPONENT-538:\u{18A19}\n\
TANGUT COMPONENT-539:\u{18A1A}\n\
TANGUT COMPONENT-540:\u{18A1B}\n\
TANGUT COMPONENT-541:\u{18A1C}\n\
TANGUT COMPONENT-542:\u{18A1D}\n\
TANGUT COMPONENT-543:\u{18A1E}\n\
TANGUT COMPONENT-544:\u{18A1F}\n\
TANGUT COMPONENT-545:\u{18A20}\n\
TANGUT COMPONENT-546:\u{18A21}\n\
TANGUT COMPONENT-547:\u{18A22}\n\
TANGUT COMPONENT-548:\u{18A23}\n\
TANGUT COMPONENT-549:\u{18A24}\n\
TANGUT COMPONENT-550:\u{18A25}\n\
TANGUT COMPONENT-551:\u{18A26}\n\
TANGUT COMPONENT-552:\u{18A27}\n\
TANGUT COMPONENT-553:\u{18A28}\n\
TANGUT COMPONENT-554:\u{18A29}\n\
TANGUT COMPONENT-555:\u{18A2A}\n\
TANGUT COMPONENT-556:\u{18A2B}\n\
TANGUT COMPONENT-557:\u{18A2C}\n\
TANGUT COMPONENT-558:\u{18A2D}\n\
TANGUT COMPONENT-559:\u{18A2E}\n\
TANGUT COMPONENT-560:\u{18A2F}\n\
TANGUT COMPONENT-561:\u{18A30}\n\
TANGUT COMPONENT-562:\u{18A31}\n\
TANGUT COMPONENT-563:\u{18A32}\n\
TANGUT COMPONENT-564:\u{18A33}\n\
TANGUT COMPONENT-565:\u{18A34}\n\
TANGUT COMPONENT-566:\u{18A35}\n\
TANGUT COMPONENT-567:\u{18A36}\n\
TANGUT COMPONENT-568:\u{18A37}\n\
TANGUT COMPONENT-569:\u{18A38}\n\
TANGUT COMPONENT-570:\u{18A39}\n\
TANGUT COMPONENT-571:\u{18A3A}\n\
TANGUT COMPONENT-572:\u{18A3B}\n\
TANGUT COMPONENT-573:\u{18A3C}\n\
TANGUT COMPONENT-574:\u{18A3D}\n\
TANGUT COMPONENT-575:\u{18A3E}\n\
TANGUT COMPONENT-576:\u{18A3F}\n\
TANGUT COMPONENT-577:\u{18A40}\n\
TANGUT COMPONENT-578:\u{18A41}\n\
TANGUT COMPONENT-579:\u{18A42}\n\
TANGUT COMPONENT-580:\u{18A43}\n\
TANGUT COMPONENT-581:\u{18A44}\n\
TANGUT COMPONENT-582:\u{18A45}\n\
TANGUT COMPONENT-583:\u{18A46}\n\
TANGUT COMPONENT-584:\u{18A47}\n\
TANGUT COMPONENT-585:\u{18A48}\n\
TANGUT COMPONENT-586:\u{18A49}\n\
TANGUT COMPONENT-587:\u{18A4A}\n\
TANGUT COMPONENT-588:\u{18A4B}\n\
TANGUT COMPONENT-589:\u{18A4C}\n\
TANGUT COMPONENT-590:\u{18A4D}\n\
TANGUT COMPONENT-591:\u{18A4E}\n\
TANGUT COMPONENT-592:\u{18A4F}\n\
TANGUT COMPONENT-593:\u{18A50}\n\
TANGUT COMPONENT-594:\u{18A51}\n\
TANGUT COMPONENT-595:\u{18A52}\n\
TANGUT COMPONENT-596:\u{18A53}\n\
TANGUT COMPONENT-597:\u{18A54}\n\
TANGUT COMPONENT-598:\u{18A55}\n\
TANGUT COMPONENT-599:\u{18A56}\n\
TANGUT COMPONENT-600:\u{18A57}\n\
TANGUT COMPONENT-601:\u{18A58}\n\
TANGUT COMPONENT-602:\u{18A59}\n\
TANGUT COMPONENT-603:\u{18A5A}\n\
TANGUT COMPONENT-604:\u{18A5B}\n\
TANGUT COMPONENT-605:\u{18A5C}\n\
TANGUT COMPONENT-606:\u{18A5D}\n\
TANGUT COMPONENT-607:\u{18A5E}\n\
TANGUT COMPONENT-608:\u{18A5F}\n\
TANGUT COMPONENT-609:\u{18A60}\n\
TANGUT COMPONENT-610:\u{18A61}\n\
TANGUT COMPONENT-611:\u{18A62}\n\
TANGUT COMPONENT-612:\u{18A63}\n\
TANGUT COMPONENT-613:\u{18A64}\n\
TANGUT COMPONENT-614:\u{18A65}\n\
TANGUT COMPONENT-615:\u{18A66}\n\
TANGUT COMPONENT-616:\u{18A67}\n\
TANGUT COMPONENT-617:\u{18A68}\n\
TANGUT COMPONENT-618:\u{18A69}\n\
TANGUT COMPONENT-619:\u{18A6A}\n\
TANGUT COMPONENT-620:\u{18A6B}\n\
TANGUT COMPONENT-621:\u{18A6C}\n\
TANGUT COMPONENT-622:\u{18A6D}\n\
TANGUT COMPONENT-623:\u{18A6E}\n\
TANGUT COMPONENT-624:\u{18A6F}\n\
TANGUT COMPONENT-625:\u{18A70}\n\
TANGUT COMPONENT-626:\u{18A71}\n\
TANGUT COMPONENT-627:\u{18A72}\n\
TANGUT COMPONENT-628:\u{18A73}\n\
TANGUT COMPONENT-629:\u{18A74}\n\
TANGUT COMPONENT-630:\u{18A75}\n\
TANGUT COMPONENT-631:\u{18A76}\n\
TANGUT COMPONENT-632:\u{18A77}\n\
TANGUT COMPONENT-633:\u{18A78}\n\
TANGUT COMPONENT-634:\u{18A79}\n\
TANGUT COMPONENT-635:\u{18A7A}\n\
TANGUT COMPONENT-636:\u{18A7B}\n\
TANGUT COMPONENT-637:\u{18A7C}\n\
TANGUT COMPONENT-638:\u{18A7D}\n\
TANGUT COMPONENT-639:\u{18A7E}\n\
TANGUT COMPONENT-640:\u{18A7F}\n\
TANGUT COMPONENT-641:\u{18A80}\n\
TANGUT COMPONENT-642:\u{18A81}\n\
TANGUT COMPONENT-643:\u{18A82}\n\
TANGUT COMPONENT-644:\u{18A83}\n\
TANGUT COMPONENT-645:\u{18A84}\n\
TANGUT COMPONENT-646:\u{18A85}\n\
TANGUT COMPONENT-647:\u{18A86}\n\
TANGUT COMPONENT-648:\u{18A87}\n\
TANGUT COMPONENT-649:\u{18A88}\n\
TANGUT COMPONENT-650:\u{18A89}\n\
TANGUT COMPONENT-651:\u{18A8A}\n\
TANGUT COMPONENT-652:\u{18A8B}\n\
TANGUT COMPONENT-653:\u{18A8C}\n\
TANGUT COMPONENT-654:\u{18A8D}\n\
TANGUT COMPONENT-655:\u{18A8E}\n\
TANGUT COMPONENT-656:\u{18A8F}\n\
TANGUT COMPONENT-657:\u{18A90}\n\
TANGUT COMPONENT-658:\u{18A91}\n\
TANGUT COMPONENT-659:\u{18A92}\n\
TANGUT COMPONENT-660:\u{18A93}\n\
TANGUT COMPONENT-661:\u{18A94}\n\
TANGUT COMPONENT-662:\u{18A95}\n\
TANGUT COMPONENT-663:\u{18A96}\n\
TANGUT COMPONENT-664:\u{18A97}\n\
TANGUT COMPONENT-665:\u{18A98}\n\
TANGUT COMPONENT-666:\u{18A99}\n\
TANGUT COMPONENT-667:\u{18A9A}\n\
TANGUT COMPONENT-668:\u{18A9B}\n\
TANGUT COMPONENT-669:\u{18A9C}\n\
TANGUT COMPONENT-670:\u{18A9D}\n\
TANGUT COMPONENT-671:\u{18A9E}\n\
TANGUT COMPONENT-672:\u{18A9F}\n\
TANGUT COMPONENT-673:\u{18AA0}\n\
TANGUT COMPONENT-674:\u{18AA1}\n\
TANGUT COMPONENT-675:\u{18AA2}\n\
TANGUT COMPONENT-676:\u{18AA3}\n\
TANGUT COMPONENT-677:\u{18AA4}\n\
TANGUT COMPONENT-678:\u{18AA5}\n\
TANGUT COMPONENT-679:\u{18AA6}\n\
TANGUT COMPONENT-680:\u{18AA7}\n\
TANGUT COMPONENT-681:\u{18AA8}\n\
TANGUT COMPONENT-682:\u{18AA9}\n\
TANGUT COMPONENT-683:\u{18AAA}\n\
TANGUT COMPONENT-684:\u{18AAB}\n\
TANGUT COMPONENT-685:\u{18AAC}\n\
TANGUT COMPONENT-686:\u{18AAD}\n\
TANGUT COMPONENT-687:\u{18AAE}\n\
TANGUT COMPONENT-688:\u{18AAF}\n\
TANGUT COMPONENT-689:\u{18AB0}\n\
TANGUT COMPONENT-690:\u{18AB1}\n\
TANGUT COMPONENT-691:\u{18AB2}\n\
TANGUT COMPONENT-692:\u{18AB3}\n\
TANGUT COMPONENT-693:\u{18AB4}\n\
TANGUT COMPONENT-694:\u{18AB5}\n\
TANGUT COMPONENT-695:\u{18AB6}\n\
TANGUT COMPONENT-696:\u{18AB7}\n\
TANGUT COMPONENT-697:\u{18AB8}\n\
TANGUT COMPONENT-698:\u{18AB9}\n\
TANGUT COMPONENT-699:\u{18ABA}\n\
TANGUT COMPONENT-700:\u{18ABB}\n\
TANGUT COMPONENT-701:\u{18ABC}\n\
TANGUT COMPONENT-702:\u{18ABD}\n\
TANGUT COMPONENT-703:\u{18ABE}\n\
TANGUT COMPONENT-704:\u{18ABF}\n\
TANGUT COMPONENT-705:\u{18AC0}\n\
TANGUT COMPONENT-706:\u{18AC1}\n\
TANGUT COMPONENT-707:\u{18AC2}\n\
TANGUT COMPONENT-708:\u{18AC3}\n\
TANGUT COMPONENT-709:\u{18AC4}\n\
TANGUT COMPONENT-710:\u{18AC5}\n\
TANGUT COMPONENT-711:\u{18AC6}\n\
TANGUT COMPONENT-712:\u{18AC7}\n\
TANGUT COMPONENT-713:\u{18AC8}\n\
TANGUT COMPONENT-714:\u{18AC9}\n\
TANGUT COMPONENT-715:\u{18ACA}\n\
TANGUT COMPONENT-716:\u{18ACB}\n\
TANGUT COMPONENT-717:\u{18ACC}\n\
TANGUT COMPONENT-718:\u{18ACD}\n\
TANGUT COMPONENT-719:\u{18ACE}\n\
TANGUT COMPONENT-720:\u{18ACF}\n\
TANGUT COMPONENT-721:\u{18AD0}\n\
TANGUT COMPONENT-722:\u{18AD1}\n\
TANGUT COMPONENT-723:\u{18AD2}\n\
TANGUT COMPONENT-724:\u{18AD3}\n\
TANGUT COMPONENT-725:\u{18AD4}\n\
TANGUT COMPONENT-726:\u{18AD5}\n\
TANGUT COMPONENT-727:\u{18AD6}\n\
TANGUT COMPONENT-728:\u{18AD7}\n\
TANGUT COMPONENT-729:\u{18AD8}\n\
TANGUT COMPONENT-730:\u{18AD9}\n\
TANGUT COMPONENT-731:\u{18ADA}\n\
TANGUT COMPONENT-732:\u{18ADB}\n\
TANGUT COMPONENT-733:\u{18ADC}\n\
TANGUT COMPONENT-734:\u{18ADD}\n\
TANGUT COMPONENT-735:\u{18ADE}\n\
TANGUT COMPONENT-736:\u{18ADF}\n\
TANGUT COMPONENT-737:\u{18AE0}\n\
TANGUT COMPONENT-738:\u{18AE1}\n\
TANGUT COMPONENT-739:\u{18AE2}\n\
TANGUT COMPONENT-740:\u{18AE3}\n\
TANGUT COMPONENT-741:\u{18AE4}\n\
TANGUT COMPONENT-742:\u{18AE5}\n\
TANGUT COMPONENT-743:\u{18AE6}\n\
TANGUT COMPONENT-744:\u{18AE7}\n\
TANGUT COMPONENT-745:\u{18AE8}\n\
TANGUT COMPONENT-746:\u{18AE9}\n\
TANGUT COMPONENT-747:\u{18AEA}\n\
TANGUT COMPONENT-748:\u{18AEB}\n\
TANGUT COMPONENT-749:\u{18AEC}\n\
TANGUT COMPONENT-750:\u{18AED}\n\
TANGUT COMPONENT-751:\u{18AEE}\n\
TANGUT COMPONENT-752:\u{18AEF}\n\
TANGUT COMPONENT-753:\u{18AF0}\n\
TANGUT COMPONENT-754:\u{18AF1}\n\
TANGUT COMPONENT-755:\u{18AF2}\n\
TANGUT COMPONENT-756:\u{18AF3}\n\
TANGUT COMPONENT-757:\u{18AF4}\n\
TANGUT COMPONENT-758:\u{18AF5}\n\
TANGUT COMPONENT-759:\u{18AF6}\n\
TANGUT COMPONENT-760:\u{18AF7}\n\
TANGUT COMPONENT-761:\u{18AF8}\n\
TANGUT COMPONENT-762:\u{18AF9}\n\
TANGUT COMPONENT-763:\u{18AFA}\n\
TANGUT COMPONENT-764:\u{18AFB}\n\
TANGUT COMPONENT-765:\u{18AFC}\n\
TANGUT COMPONENT-766:\u{18AFD}\n\
TANGUT COMPONENT-767:\u{18AFE}\n\
TANGUT COMPONENT-768:\u{18AFF}\n\
KATAKANA LETTER MINNAN TONE-2:\u{1AFF0}\n\
KATAKANA LETTER MINNAN TONE-3:\u{1AFF1}\n\
KATAKANA LETTER MINNAN TONE-4:\u{1AFF2}\n\
KATAKANA LETTER MINNAN TONE-5:\u{1AFF3}\n\
KATAKANA LETTER MINNAN TONE-7:\u{1AFF5}\n\
KATAKANA LETTER MINNAN TONE-8:\u{1AFF6}\n\
KATAKANA LETTER MINNAN NASALIZED TONE-1:\u{1AFF7}\n\
KATAKANA LETTER MINNAN NASALIZED TONE-2:\u{1AFF8}\n\
KATAKANA LETTER MINNAN NASALIZED TONE-3:\u{1AFF9}\n\
KATAKANA LETTER MINNAN NASALIZED TONE-4:\u{1AFFA}\n\
KATAKANA LETTER MINNAN NASALIZED TONE-5:\u{1AFFB}\n\
KATAKANA LETTER MINNAN NASALIZED TONE-7:\u{1AFFD}\n\
KATAKANA LETTER MINNAN NASALIZED TONE-8:\u{1AFFE}\n\
KATAKANA LETTER ARCHAIC E:\u{1B000}\n\
HIRAGANA LETTER ARCHAIC YE:\u{1B001}\n\
HENTAIGANA LETTER A-1:\u{1B002}\n\
HENTAIGANA LETTER A-2:\u{1B003}\n\
HENTAIGANA LETTER A-3:\u{1B004}\n\
HENTAIGANA LETTER A-WO:\u{1B005}\n\
HENTAIGANA LETTER I-1:\u{1B006}\n\
HENTAIGANA LETTER I-2:\u{1B007}\n\
HENTAIGANA LETTER I-3:\u{1B008}\n\
HENTAIGANA LETTER I-4:\u{1B009}\n";

pub const NAMES_66: &'static str = "HENTAIGANA LETTER U-1:\u{1B00A}\n\
HENTAIGANA LETTER U-2:\u{1B00B}\n\
HENTAIGANA LETTER U-3:\u{1B00C}\n\
HENTAIGANA LETTER U-4:\u{1B00D}\n\
HENTAIGANA LETTER U-5:\u{1B00E}\n\
HENTAIGANA LETTER E-2:\u{1B00F}\n\
HENTAIGANA LETTER E-3:\u{1B010}\n\
HENTAIGANA LETTER E-4:\u{1B011}\n\
HENTAIGANA LETTER E-5:\u{1B012}\n\
HENTAIGANA LETTER E-6:\u{1B013}\n\
HENTAIGANA LETTER O-1:\u{1B014}\n\
HENTAIGANA LETTER O-2:\u{1B015}\n\
HENTAIGANA LETTER O-3:\u{1B016}\n\
HENTAIGANA LETTER KA-1:\u{1B017}\n\
HENTAIGANA LETTER KA-2:\u{1B018}\n\
HENTAIGANA LETTER KA-3:\u{1B019}\n\
HENTAIGANA LETTER KA-4:\u{1B01A}\n\
HENTAIGANA LETTER KA-5:\u{1B01B}\n\
HENTAIGANA LETTER KA-6:\u{1B01C}\n\
HENTAIGANA LETTER KA-7:\u{1B01D}\n\
HENTAIGANA LETTER KA-8:\u{1B01E}\n\
HENTAIGANA LETTER KA-9:\u{1B01F}\n\
HENTAIGANA LETTER KA-10:\u{1B020}\n\
HENTAIGANA LETTER KA-11:\u{1B021}\n\
HENTAIGANA LETTER KA-KE:\u{1B022}\n\
HENTAIGANA LETTER KI-1:\u{1B023}\n\
HENTAIGANA LETTER KI-2:\u{1B024}\n\
HENTAIGANA LETTER KI-3:\u{1B025}\n\
HENTAIGANA LETTER KI-4:\u{1B026}\n\
HENTAIGANA LETTER KI-5:\u{1B027}\n\
HENTAIGANA LETTER KI-6:\u{1B028}\n\
HENTAIGANA LETTER KI-7:\u{1B029}\n\
HENTAIGANA LETTER KI-8:\u{1B02A}\n\
HENTAIGANA LETTER KU-1:\u{1B02B}\n\
HENTAIGANA LETTER KU-2:\u{1B02C}\n\
HENTAIGANA LETTER KU-3:\u{1B02D}\n\
HENTAIGANA LETTER KU-4:\u{1B02E}\n\
HENTAIGANA LETTER KU-5:\u{1B02F}\n\
HENTAIGANA LETTER KU-6:\u{1B030}\n\
HENTAIGANA LETTER KU-7:\u{1B031}\n\
HENTAIGANA LETTER KE-1:\u{1B032}\n\
HENTAIGANA LETTER KE-2:\u{1B033}\n\
HENTAIGANA LETTER KE-3:\u{1B034}\n\
HENTAIGANA LETTER KE-4:\u{1B035}\n\
HENTAIGANA LETTER KE-5:\u{1B036}\n\
HENTAIGANA LETTER KE-6:\u{1B037}\n\
HENTAIGANA LETTER KO-1:\u{1B038}\n\
HENTAIGANA LETTER KO-2:\u{1B039}\n\
HENTAIGANA LETTER KO-3:\u{1B03A}\n\
HENTAIGANA LETTER KO-KI:\u{1B03B}\n\
HENTAIGANA LETTER SA-1:\u{1B03C}\n\
HENTAIGANA LETTER SA-2:\u{1B03D}\n\
HENTAIGANA LETTER SA-3:\u{1B03E}\n\
HENTAIGANA LETTER SA-4:\u{1B03F}\n\
HENTAIGANA LETTER SA-5:\u{1B040}\n\
HENTAIGANA LETTER SA-6:\u{1B041}\n\
HENTAIGANA LETTER SA-7:\u{1B042}\n\
HENTAIGANA LETTER SA-8:\u{1B043}\n\
HENTAIGANA LETTER SI-1:\u{1B044}\n\
HENTAIGANA LETTER SI-2:\u{1B045}\n\
HENTAIGANA LETTER SI-3:\u{1B046}\n\
HENTAIGANA LETTER SI-4:\u{1B047}\n\
HENTAIGANA LETTER SI-5:\u{1B048}\n\
HENTAIGANA LETTER SI-6:\u{1B049}\n\
HENTAIGANA LETTER SU-1:\u{1B04A}\n\
HENTAIGANA LETTER SU-2:\u{1B04B}\n\
HENTAIGANA LETTER SU-3:\u{1B04C}\n\
HENTAIGANA LETTER SU-4:\u{1B04D}\n\
HENTAIGANA LETTER SU-5:\u{1B04E}\n\
HENTAIGANA LETTER SU-6:\u{1B04F}\n\
HENTAIGANA LETTER SU-7:\u{1B050}\n\
HENTAIGANA LETTER SU-8:\u{1B051}\n\
HENTAIGANA LETTER SE-1:\u{1B052}\n\
HENTAIGANA LETTER SE-2:\u{1B053}\n\
HENTAIGANA LETTER SE-3:\u{1B054}\n\
HENTAIGANA LETTER SE-4:\u{1B055}\n\
HENTAIGANA LETTER SE-5:\u{1B056}\n\
HENTAIGANA LETTER SO-1:\u{1B057}\n\
HENTAIGANA LETTER SO-2:\u{1B058}\n\
HENTAIGANA LETTER SO-3:\u{1B059}\n\
HENTAIGANA LETTER SO-4:\u{1B05A}\n\
HENTAIGANA LETTER SO-5:\u{1B05B}\n\
HENTAIGANA LETTER SO-6:\u{1B05C}\n\
HENTAIGANA LETTER SO-7:\u{1B05D}\n\
HENTAIGANA LETTER TA-1:\u{1B05E}\n\
HENTAIGANA LETTER TA-2:\u{1B05F}\n\
HENTAIGANA LETTER TA-3:\u{1B060}\n\
HENTAIGANA LETTER TA-4:\u{1B061}\n\
HENTAIGANA LETTER TI-1:\u{1B062}\n\
HENTAIGANA LETTER TI-2:\u{1B063}\n\
HENTAIGANA LETTER TI-3:\u{1B064}\n\
HENTAIGANA LETTER TI-4:\u{1B065}\n\
HENTAIGANA LETTER TI-5:\u{1B066}\n\
HENTAIGANA LETTER TI-6:\u{1B067}\n\
HENTAIGANA LETTER TI-7:\u{1B068}\n\
HENTAIGANA LETTER TU-1:\u{1B069}\n\
HENTAIGANA LETTER TU-2:\u{1B06A}\n\
HENTAIGANA LETTER TU-3:\u{1B06B}\n\
HENTAIGANA LETTER TU-4:\u{1B06C}\n\
HENTAIGANA LETTER TU-TO:\u{1B06D}\n\
HENTAIGANA LETTER TE-1:\u{1B06E}\n\
HENTAIGANA LETTER TE-2:\u{1B06F}\n\
HENTAIGANA LETTER TE-3:\u{1B070}\n\
HENTAIGANA LETTER TE-4:\u{1B071}\n\
HENTAIGANA LETTER TE-5:\u{1B072}\n\
HENTAIGANA LETTER TE-6:\u{1B073}\n\
HENTAIGANA LETTER TE-7:\u{1B074}\n\
HENTAIGANA LETTER TE-8:\u{1B075}\n\
HENTAIGANA LETTER TE-9:\u{1B076}\n\
HENTAIGANA LETTER TO-1:\u{1B077}\n\
HENTAIGANA LETTER TO-2:\u{1B078}\n\
HENTAIGANA LETTER TO-3:\u{1B079}\n\
HENTAIGANA LETTER TO-4:\u{1B07A}\n\
HENTAIGANA LETTER TO-5:\u{1B07B}\n\
HENTAIGANA LETTER TO-6:\u{1B07C}\n\
HENTAIGANA LETTER TO-RA:\u{1B07D}\n\
HENTAIGANA LETTER NA-1:\u{1B07E}\n\
HENTAIGANA LETTER NA-2:\u{1B07F}\n\
HENTAIGANA LETTER NA-3:\u{1B080}\n\
HENTAIGANA LETTER NA-4:\u{1B081}\n\
HENTAIGANA LETTER NA-5:\u{1B082}\n\
HENTAIGANA LETTER NA-6:\u{1B083}\n\
HENTAIGANA LETTER NA-7:\u{1B084}\n\
HENTAIGANA LETTER NA-8:\u{1B085}\n\
HENTAIGANA LETTER NA-9:\u{1B086}\n\
HENTAIGANA LETTER NI-1:\u{1B087}\n\
HENTAIGANA LETTER NI-2:\u{1B088}\n\
HENTAIGANA LETTER NI-3:\u{1B089}\n\
HENTAIGANA LETTER NI-4:\u{1B08A}\n\
HENTAIGANA LETTER NI-5:\u{1B08B}\n\
HENTAIGANA LETTER NI-6:\u{1B08C}\n\
HENTAIGANA LETTER NI-7:\u{1B08D}\n\
HENTAIGANA LETTER NI-TE:\u{1B08E}\n\
HENTAIGANA LETTER NU-1:\u{1B08F}\n\
HENTAIGANA LETTER NU-2:\u{1B090}\n\
HENTAIGANA LETTER NU-3:\u{1B091}\n\
HENTAIGANA LETTER NE-1:\u{1B092}\n\
HENTAIGANA LETTER NE-2:\u{1B093}\n\
HENTAIGANA LETTER NE-3:\u{1B094}\n\
HENTAIGANA LETTER NE-4:\u{1B095}\n\
HENTAIGANA LETTER NE-5:\u{1B096}\n\
HENTAIGANA LETTER NE-6:\u{1B097}\n\
HENTAIGANA LETTER NE-KO:\u{1B098}\n\
HENTAIGANA LETTER NO-1:\u{1B099}\n\
HENTAIGANA LETTER NO-2:\u{1B09A}\n\
HENTAIGANA LETTER NO-3:\u{1B09B}\n\
HENTAIGANA LETTER NO-4:\u{1B09C}\n\
HENTAIGANA LETTER NO-5:\u{1B09D}\n\
HENTAIGANA LETTER HA-1:\u{1B09E}\n\
HENTAIGANA LETTER HA-2:\u{1B09F}\n\
HENTAIGANA LETTER HA-3:\u{1B0A0}\n\
HENTAIGANA LETTER HA-4:\u{1B0A1}\n\
HENTAIGANA LETTER HA-5:\u{1B0A2}\n\
HENTAIGANA LETTER HA-6:\u{1B0A3}\n\
HENTAIGANA LETTER HA-7:\u{1B0A4}\n\
HENTAIGANA LETTER HA-8:\u{1B0A5}\n\
HENTAIGANA LETTER HA-9:\u{1B0A6}\n\
HENTAIGANA LETTER HA-10:\u{1B0A7}\n\
HENTAIGANA LETTER HA-11:\u{1B0A8}\n\
HENTAIGANA LETTER HI-1:\u{1B0A9}\n\
HENTAIGANA LETTER HI-2:\u{1B0AA}\n\
HENTAIGANA LETTER HI-3:\u{1B0AB}\n\
HENTAIGANA LETTER HI-4:\u{1B0AC}\n\
HENTAIGANA LETTER HI-5:\u{1B0AD}\n\
HENTAIGANA LETTER HI-6:\u{1B0AE}\n\
HENTAIGANA LETTER HI-7:\u{1B0AF}\n\
HENTAIGANA LETTER HU-1:\u{1B0B0}\n\
HENTAIGANA LETTER HU-2:\u{1B0B1}\n\
HENTAIGANA LETTER HU-3:\u{1B0B2}\n\
HENTAIGANA LETTER HE-1:\u{1B0B3}\n\
HENTAIGANA LETTER HE-2:\u{1B0B4}\n\
HENTAIGANA LETTER HE-3:\u{1B0B5}\n\
HENTAIGANA LETTER HE-4:\u{1B0B6}\n\
HENTAIGANA LETTER HE-5:\u{1B0B7}\n\
HENTAIGANA LETTER HE-6:\u{1B0B8}\n\
HENTAIGANA LETTER HE-7:\u{1B0B9}\n\
HENTAIGANA LETTER HO-1:\u{1B0BA}\n\
HENTAIGANA LETTER HO-2:\u{1B0BB}\n\
HENTAIGANA LETTER HO-3:\u{1B0BC}\n\
HENTAIGANA LETTER HO-4:\u{1B0BD}\n\
HENTAIGANA LETTER HO-5:\u{1B0BE}\n\
HENTAIGANA LETTER HO-6:\u{1B0BF}\n\
HENTAIGANA LETTER HO-7:\u{1B0C0}\n\
HENTAIGANA LETTER HO-8:\u{1B0C1}\n\
HENTAIGANA LETTER MA-1:\u{1B0C2}\n\
HENTAIGANA LETTER MA-2:\u{1B0C3}\n\
HENTAIGANA LETTER MA-3:\u{1B0C4}\n\
HENTAIGANA LETTER MA-4:\u{1B0C5}\n\
HENTAIGANA LETTER MA-5:\u{1B0C6}\n\
HENTAIGANA LETTER MA-6:\u{1B0C7}\n\
HENTAIGANA LETTER MA-7:\u{1B0C8}\n\
HENTAIGANA LETTER MI-1:\u{1B0C9}\n\
HENTAIGANA LETTER MI-2:\u{1B0CA}\n\
HENTAIGANA LETTER MI-3:\u{1B0CB}\n\
HENTAIGANA LETTER MI-4:\u{1B0CC}\n\
HENTAIGANA LETTER MI-5:\u{1B0CD}\n\
HENTAIGANA LETTER MI-6:\u{1B0CE}\n\
HENTAIGANA LETTER MI-7:\u{1B0CF}\n\
HENTAIGANA LETTER MU-1:\u{1B0D0}\n\
HENTAIGANA LETTER MU-2:\u{1B0D1}\n\
HENTAIGANA LETTER MU-3:\u{1B0D2}\n\
HENTAIGANA LETTER MU-4:\u{1B0D3}\n\
HENTAIGANA LETTER ME-1:\u{1B0D4}\n\
HENTAIGANA LETTER ME-2:\u{1B0D5}\n\
HENTAIGANA LETTER ME-MA:\u{1B0D6}\n\
HENTAIGANA LETTER MO-1:\u{1B0D7}\n\
HENTAIGANA LETTER MO-2:\u{1B0D8}\n\
HENTAIGANA LETTER MO-3:\u{1B0D9}\n\
HENTAIGANA LETTER MO-4:\u{1B0DA}\n\
HENTAIGANA LETTER MO-5:\u{1B0DB}\n\
HENTAIGANA LETTER MO-6:\u{1B0DC}\n\
HENTAIGANA LETTER YA-1:\u{1B0DD}\n\
HENTAIGANA LETTER YA-2:\u{1B0DE}\n\
HENTAIGANA LETTER YA-3:\u{1B0DF}\n\
HENTAIGANA LETTER YA-4:\u{1B0E0}\n\
HENTAIGANA LETTER YA-5:\u{1B0E1}\n\
HENTAIGANA LETTER YA-YO:\u{1B0E2}\n\
HENTAIGANA LETTER YU-1:\u{1B0E3}\n\
HENTAIGANA LETTER YU-2:\u{1B0E4}\n\
HENTAIGANA LETTER YU-3:\u{1B0E5}\n\
HENTAIGANA LETTER YU-4:\u{1B0E6}\n\
HENTAIGANA LETTER YO-1:\u{1B0E7}\n\
HENTAIGANA LETTER YO-2:\u{1B0E8}\n\
HENTAIGANA LETTER YO-3:\u{1B0E9}\n\
HENTAIGANA LETTER YO-4:\u{1B0EA}\n\
HENTAIGANA LETTER YO-5:\u{1B0EB}\n\
HENTAIGANA LETTER YO-6:\u{1B0EC}\n\
HENTAIGANA LETTER RA-1:\u{1B0ED}\n\
HENTAIGANA LETTER RA-2:\u{1B0EE}\n\
HENTAIGANA LETTER RA-3:\u{1B0EF}\n\
HENTAIGANA LETTER RA-4:\u{1B0F0}\n\
HENTAIGANA LETTER RI-1:\u{1B0F1}\n\
HENTAIGANA LETTER RI-2:\u{1B0F2}\n\
HENTAIGANA LETTER RI-3:\u{1B0F3}\n\
HENTAIGANA LETTER RI-4:\u{1B0F4}\n\
HENTAIGANA LETTER RI-5:\u{1B0F5}\n\
HENTAIGANA LETTER RI-6:\u{1B0F6}\n\
HENTAIGANA LETTER RI-7:\u{1B0F7}\n\
HENTAIGANA LETTER RU-1:\u{1B0F8}\n\
HENTAIGANA LETTER RU-2:\u{1B0F9}\n\
HENTAIGANA LETTER RU-3:\u{1B0FA}\n\
HENTAIGANA LETTER RU-4:\u{1B0FB}\n\
HENTAIGANA LETTER RU-5:\u{1B0FC}\n\
HENTAIGANA LETTER RU-6:\u{1B0FD}\n\
HENTAIGANA LETTER RE-1:\u{1B0FE}\n\
HENTAIGANA LETTER RE-2:\u{1B0FF}\n\
HENTAIGANA LETTER RE-3:\u{1B100}\n\
HENTAIGANA LETTER RE-4:\u{1B101}\n\
HENTAIGANA LETTER RO-1:\u{1B102}\n\
HENTAIGANA LETTER RO-2:\u{1B103}\n\
HENTAIGANA LETTER RO-3:\u{1B104}\n\
HENTAIGANA LETTER RO-4:\u{1B105}\n\
HENTAIGANA LETTER RO-5:\u{1B106}\n\
HENTAIGANA LETTER RO-6:\u{1B107}\n\
HENTAIGANA LETTER WA-1:\u{1B108}\n\
HENTAIGANA LETTER WA-2:\u{1B109}\n\
HENTAIGANA LETTER WA-3:\u{1B10A}\n\
HENTAIGANA LETTER WA-4:\u{1B10B}\n\
HENTAIGANA LETTER WA-5:\u{1B10C}\n\
HENTAIGANA LETTER WI-1:\u{1B10D}\n\
HENTAIGANA LETTER WI-2:\u{1B10E}\n\
HENTAIGANA LETTER WI-3:\u{1B10F}\n\
HENTAIGANA LETTER WI-4:\u{1B110}\n\
HENTAIGANA LETTER WI-5:\u{1B111}\n\
HENTAIGANA LETTER WE-1:\u{1B112}\n\
HENTAIGANA LETTER WE-2:\u{1B113}\n\
HENTAIGANA LETTER WE-3:\u{1B114}\n\
HENTAIGANA LETTER WE-4:\u{1B115}\n\
HENTAIGANA LETTER WO-1:\u{1B116}\n\
HENTAIGANA LETTER WO-2:\u{1B117}\n\
HENTAIGANA LETTER WO-3:\u{1B118}\n\
HENTAIGANA LETTER WO-4:\u{1B119}\n\
HENTAIGANA LETTER WO-5:\u{1B11A}\n\
HENTAIGANA LETTER WO-6:\u{1B11B}\n\
HENTAIGANA LETTER WO-7:\u{1B11C}\n\
HENTAIGANA LETTER N-MU-MO-1:\u{1B11D}\n\
HENTAIGANA LETTER N-MU-MO-2:\u{1B11E}\n\
HIRAGANA LETTER ARCHAIC WU:\u{1B11F}\n\
KATAKANA LETTER ARCHAIC YI:\u{1B120}\n\
KATAKANA LETTER ARCHAIC YE:\u{1B121}\n\
KATAKANA LETTER ARCHAIC WU:\u{1B122}\n\
HIRAGANA LETTER SMALL WI:\u{1B150}\n\
HIRAGANA LETTER SMALL WE:\u{1B151}\n\
HIRAGANA LETTER SMALL WO:\u{1B152}\n\
KATAKANA LETTER SMALL WI:\u{1B164}\n\
KATAKANA LETTER SMALL WE:\u{1B165}\n\
KATAKANA LETTER SMALL WO:\u{1B166}\n\
KATAKANA LETTER SMALL N:\u{1B167}\n\
DUPLOYAN LETTER H:\u{1BC00}\n\
DUPLOYAN LETTER X:\u{1BC01}\n\
DUPLOYAN LETTER P:\u{1BC02}\n\
DUPLOYAN LETTER T:\u{1BC03}\n\
DUPLOYAN LETTER F:\u{1BC04}\n\
DUPLOYAN LETTER K:\u{1BC05}\n\
DUPLOYAN LETTER L:\u{1BC06}\n\
DUPLOYAN LETTER B:\u{1BC07}\n\
DUPLOYAN LETTER D:\u{1BC08}\n\
DUPLOYAN LETTER V:\u{1BC09}\n\
DUPLOYAN LETTER G:\u{1BC0A}\n\
DUPLOYAN LETTER R:\u{1BC0B}\n\
DUPLOYAN LETTER P N:\u{1BC0C}\n\
DUPLOYAN LETTER D S:\u{1BC0D}\n\
DUPLOYAN LETTER F N:\u{1BC0E}\n\
DUPLOYAN LETTER K M:\u{1BC0F}\n\
DUPLOYAN LETTER R S:\u{1BC10}\n\
DUPLOYAN LETTER TH:\u{1BC11}\n\
DUPLOYAN LETTER SLOAN DH:\u{1BC12}\n\
DUPLOYAN LETTER DH:\u{1BC13}\n\
DUPLOYAN LETTER KK:\u{1BC14}\n\
DUPLOYAN LETTER SLOAN J:\u{1BC15}\n\
DUPLOYAN LETTER HL:\u{1BC16}\n\
DUPLOYAN LETTER LH:\u{1BC17}\n\
DUPLOYAN LETTER RH:\u{1BC18}\n\
DUPLOYAN LETTER M:\u{1BC19}\n\
DUPLOYAN LETTER N:\u{1BC1A}\n\
DUPLOYAN LETTER J:\u{1BC1B}\n\
DUPLOYAN LETTER S:\u{1BC1C}\n\
DUPLOYAN LETTER M N:\u{1BC1D}\n\
DUPLOYAN LETTER N M:\u{1BC1E}\n\
DUPLOYAN LETTER J M:\u{1BC1F}\n\
DUPLOYAN LETTER S J:\u{1BC20}\n\
DUPLOYAN LETTER M WITH DOT:\u{1BC21}\n\
DUPLOYAN LETTER N WITH DOT:\u{1BC22}\n\
DUPLOYAN LETTER J WITH DOT:\u{1BC23}\n\
DUPLOYAN LETTER J WITH DOTS INSIDE AND ABOVE:\u{1BC24}\n\
DUPLOYAN LETTER S WITH DOT:\u{1BC25}\n\
DUPLOYAN LETTER S WITH DOT BELOW:\u{1BC26}\n\
DUPLOYAN LETTER M S:\u{1BC27}\n\
DUPLOYAN LETTER N S:\u{1BC28}\n\
DUPLOYAN LETTER J S:\u{1BC29}\n\
DUPLOYAN LETTER S S:\u{1BC2A}\n\
DUPLOYAN LETTER M N S:\u{1BC2B}\n\
DUPLOYAN LETTER N M S:\u{1BC2C}\n\
DUPLOYAN LETTER J M S:\u{1BC2D}\n\
DUPLOYAN LETTER S J S:\u{1BC2E}\n\
DUPLOYAN LETTER J S WITH DOT:\u{1BC2F}\n\
DUPLOYAN LETTER J N:\u{1BC30}\n\
DUPLOYAN LETTER J N S:\u{1BC31}\n\
DUPLOYAN LETTER S T:\u{1BC32}\n\
DUPLOYAN LETTER S T R:\u{1BC33}\n\
DUPLOYAN LETTER S P:\u{1BC34}\n\
DUPLOYAN LETTER S P R:\u{1BC35}\n\
DUPLOYAN LETTER T S:\u{1BC36}\n\
DUPLOYAN LETTER T R S:\u{1BC37}\n\
DUPLOYAN LETTER W:\u{1BC38}\n\
DUPLOYAN LETTER WH:\u{1BC39}\n\
DUPLOYAN LETTER W R:\u{1BC3A}\n\
DUPLOYAN LETTER S N:\u{1BC3B}\n\
DUPLOYAN LETTER S M:\u{1BC3C}\n\
DUPLOYAN LETTER K R S:\u{1BC3D}\n\
DUPLOYAN LETTER G R S:\u{1BC3E}\n\
DUPLOYAN LETTER S K:\u{1BC3F}\n\
DUPLOYAN LETTER S K R:\u{1BC40}\n\
DUPLOYAN LETTER A:\u{1BC41}\n\
DUPLOYAN LETTER SLOAN OW:\u{1BC42}\n\
DUPLOYAN LETTER OA:\u{1BC43}\n\
DUPLOYAN LETTER O:\u{1BC44}\n\
DUPLOYAN LETTER AOU:\u{1BC45}\n\
DUPLOYAN LETTER I:\u{1BC46}\n\
DUPLOYAN LETTER E:\u{1BC47}\n\
DUPLOYAN LETTER IE:\u{1BC48}\n\
DUPLOYAN LETTER SHORT I:\u{1BC49}\n\
DUPLOYAN LETTER UI:\u{1BC4A}\n\
DUPLOYAN LETTER EE:\u{1BC4B}\n\
DUPLOYAN LETTER SLOAN EH:\u{1BC4C}\n\
DUPLOYAN LETTER ROMANIAN I:\u{1BC4D}\n\
DUPLOYAN LETTER SLOAN EE:\u{1BC4E}\n\
DUPLOYAN LETTER LONG I:\u{1BC4F}\n\
DUPLOYAN LETTER YE:\u{1BC50}\n\
DUPLOYAN LETTER U:\u{1BC51}\n\
DUPLOYAN LETTER EU:\u{1BC52}\n\
DUPLOYAN LETTER XW:\u{1BC53}\n\
DUPLOYAN LETTER U N:\u{1BC54}\n\
DUPLOYAN LETTER LONG U:\u{1BC55}\n\
DUPLOYAN LETTER ROMANIAN U:\u{1BC56}\n\
DUPLOYAN LETTER UH:\u{1BC57}\n\
DUPLOYAN LETTER SLOAN U:\u{1BC58}\n\
DUPLOYAN LETTER OOH:\u{1BC59}\n\
DUPLOYAN LETTER OW:\u{1BC5A}\n\
DUPLOYAN LETTER OU:\u{1BC5B}\n\
DUPLOYAN LETTER WA:\u{1BC5C}\n\
DUPLOYAN LETTER WO:\u{1BC5D}\n\
DUPLOYAN LETTER WI:\u{1BC5E}\n\
DUPLOYAN LETTER WEI:\u{1BC5F}\n\
DUPLOYAN LETTER WOW:\u{1BC60}\n\
DUPLOYAN LETTER NASAL U:\u{1BC61}\n\
DUPLOYAN LETTER NASAL O:\u{1BC62}\n\
DUPLOYAN LETTER NASAL I:\u{1BC63}\n\
DUPLOYAN LETTER NASAL A:\u{1BC64}\n\
DUPLOYAN LETTER PERNIN AN:\u{1BC65}\n\
DUPLOYAN LETTER PERNIN AM:\u{1BC66}\n\
DUPLOYAN LETTER SLOAN EN:\u{1BC67}\n\
DUPLOYAN LETTER SLOAN AN:\u{1BC68}\n\
DUPLOYAN LETTER SLOAN ON:\u{1BC69}\n\
DUPLOYAN LETTER VOCALIC M:\u{1BC6A}\n\
DUPLOYAN AFFIX LEFT HORIZONTAL SECANT:\u{1BC70}\n\
DUPLOYAN AFFIX MID HORIZONTAL SECANT:\u{1BC71}\n\
DUPLOYAN AFFIX RIGHT HORIZONTAL SECANT:\u{1BC72}\n\
DUPLOYAN AFFIX LOW VERTICAL SECANT:\u{1BC73}\n\
DUPLOYAN AFFIX MID VERTICAL SECANT:\u{1BC74}\n\
DUPLOYAN AFFIX HIGH VERTICAL SECANT:\u{1BC75}\n\
DUPLOYAN AFFIX ATTACHED SECANT:\u{1BC76}\n\
DUPLOYAN AFFIX ATTACHED LEFT-TO-RIGHT SECANT:\u{1BC77}\n\
DUPLOYAN AFFIX ATTACHED TANGENT:\u{1BC78}\n\
DUPLOYAN AFFIX ATTACHED TAIL:\u{1BC79}\n\
DUPLOYAN AFFIX ATTACHED E HOOK:\u{1BC7A}\n\
DUPLOYAN AFFIX ATTACHED I HOOK:\u{1BC7B}\n\
DUPLOYAN AFFIX ATTACHED TANGENT HOOK:\u{1BC7C}\n\
DUPLOYAN AFFIX HIGH ACUTE:\u{1BC80}\n\
DUPLOYAN AFFIX HIGH TIGHT ACUTE:\u{1BC81}\n\
DUPLOYAN AFFIX HIGH GRAVE:\u{1BC82}\n\
DUPLOYAN AFFIX HIGH LONG GRAVE:\u{1BC83}\n\
DUPLOYAN AFFIX HIGH DOT:\u{1BC84}\n\
DUPLOYAN AFFIX HIGH CIRCLE:\u{1BC85}\n\
DUPLOYAN AFFIX HIGH LINE:\u{1BC86}\n";

pub const NAMES_67: &'static str = "DUPLOYAN AFFIX HIGH WAVE:\u{1BC87}\n\
DUPLOYAN AFFIX HIGH VERTICAL:\u{1BC88}\n\
DUPLOYAN AFFIX LOW ACUTE:\u{1BC90}\n\
DUPLOYAN AFFIX LOW TIGHT ACUTE:\u{1BC91}\n\
DUPLOYAN AFFIX LOW GRAVE:\u{1BC92}\n\
DUPLOYAN AFFIX LOW LONG GRAVE:\u{1BC93}\n\
DUPLOYAN AFFIX LOW DOT:\u{1BC94}\n\
DUPLOYAN AFFIX LOW CIRCLE:\u{1BC95}\n\
DUPLOYAN AFFIX LOW LINE:\u{1BC96}\n\
DUPLOYAN AFFIX LOW WAVE:\u{1BC97}\n\
DUPLOYAN AFFIX LOW VERTICAL:\u{1BC98}\n\
DUPLOYAN AFFIX LOW ARROW:\u{1BC99}\n\
DUPLOYAN SIGN O WITH CROSS:\u{1BC9C}\n\
DUPLOYAN THICK LETTER SELECTOR:\u{1BC9D}\n\
DUPLOYAN DOUBLE MARK:\u{1BC9E}\n\
DUPLOYAN PUNCTUATION CHINOOK FULL STOP:\u{1BC9F}\n\
SHORTHAND FORMAT LETTER OVERLAP:\u{1BCA0}\n\
SHORTHAND FORMAT CONTINUING OVERLAP:\u{1BCA1}\n\
SHORTHAND FORMAT DOWN STEP:\u{1BCA2}\n\
SHORTHAND FORMAT UP STEP:\u{1BCA3}\n\
ZNAMENNY COMBINING MARK GORAZDO NIZKO S KRYZHEM ON LEFT:\u{1CF00}\n\
ZNAMENNY COMBINING MARK NIZKO S KRYZHEM ON LEFT:\u{1CF01}\n\
ZNAMENNY COMBINING MARK TSATA ON LEFT:\u{1CF02}\n\
ZNAMENNY COMBINING MARK GORAZDO NIZKO ON LEFT:\u{1CF03}\n\
ZNAMENNY COMBINING MARK NIZKO ON LEFT:\u{1CF04}\n\
ZNAMENNY COMBINING MARK SREDNE ON LEFT:\u{1CF05}\n\
ZNAMENNY COMBINING MARK MALO POVYSHE ON LEFT:\u{1CF06}\n\
ZNAMENNY COMBINING MARK POVYSHE ON LEFT:\u{1CF07}\n\
ZNAMENNY COMBINING MARK VYSOKO ON LEFT:\u{1CF08}\n\
ZNAMENNY COMBINING MARK MALO POVYSHE S KHOKHLOM ON LEFT:\u{1CF09}\n\
ZNAMENNY COMBINING MARK POVYSHE S KHOKHLOM ON LEFT:\u{1CF0A}\n\
ZNAMENNY COMBINING MARK VYSOKO S KHOKHLOM ON LEFT:\u{1CF0B}\n\
ZNAMENNY COMBINING MARK GORAZDO NIZKO S KRYZHEM ON RIGHT:\u{1CF0C}\n\
ZNAMENNY COMBINING MARK NIZKO S KRYZHEM ON RIGHT:\u{1CF0D}\n\
ZNAMENNY COMBINING MARK TSATA ON RIGHT:\u{1CF0E}\n\
ZNAMENNY COMBINING MARK GORAZDO NIZKO ON RIGHT:\u{1CF0F}\n\
ZNAMENNY COMBINING MARK NIZKO ON RIGHT:\u{1CF10}\n\
ZNAMENNY COMBINING MARK SREDNE ON RIGHT:\u{1CF11}\n\
ZNAMENNY COMBINING MARK MALO POVYSHE ON RIGHT:\u{1CF12}\n\
ZNAMENNY COMBINING MARK POVYSHE ON RIGHT:\u{1CF13}\n\
ZNAMENNY COMBINING MARK VYSOKO ON RIGHT:\u{1CF14}\n\
ZNAMENNY COMBINING MARK MALO POVYSHE S KHOKHLOM ON RIGHT:\u{1CF15}\n\
ZNAMENNY COMBINING MARK POVYSHE S KHOKHLOM ON RIGHT:\u{1CF16}\n\
ZNAMENNY COMBINING MARK VYSOKO S KHOKHLOM ON RIGHT:\u{1CF17}\n\
ZNAMENNY COMBINING MARK TSATA S KRYZHEM:\u{1CF18}\n\
ZNAMENNY COMBINING MARK MALO POVYSHE S KRYZHEM:\u{1CF19}\n\
ZNAMENNY COMBINING MARK STRANNO MALO POVYSHE:\u{1CF1A}\n\
ZNAMENNY COMBINING MARK POVYSHE S KRYZHEM:\u{1CF1B}\n\
ZNAMENNY COMBINING MARK POVYSHE STRANNO:\u{1CF1C}\n\
ZNAMENNY COMBINING MARK VYSOKO S KRYZHEM:\u{1CF1D}\n\
ZNAMENNY COMBINING MARK MALO POVYSHE STRANNO:\u{1CF1E}\n\
ZNAMENNY COMBINING MARK GORAZDO VYSOKO:\u{1CF1F}\n\
ZNAMENNY COMBINING MARK ZELO:\u{1CF20}\n\
ZNAMENNY COMBINING MARK ON:\u{1CF21}\n\
ZNAMENNY COMBINING MARK RAVNO:\u{1CF22}\n\
ZNAMENNY COMBINING MARK TIKHAYA:\u{1CF23}\n\
ZNAMENNY COMBINING MARK BORZAYA:\u{1CF24}\n\
ZNAMENNY COMBINING MARK UDARKA:\u{1CF25}\n\
ZNAMENNY COMBINING MARK PODVERTKA:\u{1CF26}\n\
ZNAMENNY COMBINING MARK LOMKA:\u{1CF27}\n\
ZNAMENNY COMBINING MARK KUPNAYA:\u{1CF28}\n\
ZNAMENNY COMBINING MARK KACHKA:\u{1CF29}\n\
ZNAMENNY COMBINING MARK ZEVOK:\u{1CF2A}\n\
ZNAMENNY COMBINING MARK SKOBA:\u{1CF2B}\n\
ZNAMENNY COMBINING MARK RAZSEKA:\u{1CF2C}\n\
ZNAMENNY COMBINING MARK KRYZH ON LEFT:\u{1CF2D}\n\
ZNAMENNY COMBINING TONAL RANGE MARK MRACHNO:\u{1CF30}\n\
ZNAMENNY COMBINING TONAL RANGE MARK SVETLO:\u{1CF31}\n\
ZNAMENNY COMBINING TONAL RANGE MARK TRESVETLO:\u{1CF32}\n\
ZNAMENNY COMBINING MARK ZADERZHKA:\u{1CF33}\n\
ZNAMENNY COMBINING MARK DEMESTVENNY ZADERZHKA:\u{1CF34}\n\
ZNAMENNY COMBINING MARK OTSECHKA:\u{1CF35}\n\
ZNAMENNY COMBINING MARK PODCHASHIE:\u{1CF36}\n\
ZNAMENNY COMBINING MARK PODCHASHIE WITH VERTICAL STROKE:\u{1CF37}\n\
ZNAMENNY COMBINING MARK CHASHKA:\u{1CF38}\n\
ZNAMENNY COMBINING MARK CHASHKA POLNAYA:\u{1CF39}\n\
ZNAMENNY COMBINING MARK OBLACHKO:\u{1CF3A}\n\
ZNAMENNY COMBINING MARK SOROCHYA NOZHKA:\u{1CF3B}\n\
ZNAMENNY COMBINING MARK TOCHKA:\u{1CF3C}\n\
ZNAMENNY COMBINING MARK DVOETOCHIE:\u{1CF3D}\n\
ZNAMENNY COMBINING ATTACHING VERTICAL OMET:\u{1CF3E}\n\
ZNAMENNY COMBINING MARK CURVED OMET:\u{1CF3F}\n\
ZNAMENNY COMBINING MARK KRYZH:\u{1CF40}\n\
ZNAMENNY COMBINING LOWER TONAL RANGE INDICATOR:\u{1CF41}\n\
ZNAMENNY PRIZNAK MODIFIER LEVEL-2:\u{1CF42}\n\
ZNAMENNY PRIZNAK MODIFIER LEVEL-3:\u{1CF43}\n\
ZNAMENNY PRIZNAK MODIFIER DIRECTION FLIP:\u{1CF44}\n\
ZNAMENNY PRIZNAK MODIFIER KRYZH:\u{1CF45}\n\
ZNAMENNY PRIZNAK MODIFIER ROG:\u{1CF46}\n\
ZNAMENNY NEUME KRYUK:\u{1CF50}\n\
ZNAMENNY NEUME KRYUK TIKHY:\u{1CF51}\n\
ZNAMENNY NEUME PARAKLIT:\u{1CF52}\n\
ZNAMENNY NEUME DVA V CHELNU:\u{1CF53}\n\
ZNAMENNY NEUME KLYUCH:\u{1CF54}\n\
ZNAMENNY NEUME ZANOZHEK:\u{1CF55}\n\
ZNAMENNY NEUME STOPITSA:\u{1CF56}\n\
ZNAMENNY NEUME STOPITSA S OCHKOM:\u{1CF57}\n\
ZNAMENNY NEUME PEREVODKA:\u{1CF58}\n\
ZNAMENNY NEUME PEREVODKA NEPOSTOYANNAYA:\u{1CF59}\n\
ZNAMENNY NEUME STOPITSA WITH SOROCHYA NOZHKA:\u{1CF5A}\n\
ZNAMENNY NEUME CHELYUSTKA:\u{1CF5B}\n\
ZNAMENNY NEUME PALKA:\u{1CF5C}\n\
ZNAMENNY NEUME ZAPYATAYA:\u{1CF5D}\n\
ZNAMENNY NEUME GOLUBCHIK BORZY:\u{1CF5E}\n\
ZNAMENNY NEUME GOLUBCHIK TIKHY:\u{1CF5F}\n\
ZNAMENNY NEUME GOLUBCHIK MRACHNY:\u{1CF60}\n\
ZNAMENNY NEUME GOLUBCHIK SVETLY:\u{1CF61}\n\
ZNAMENNY NEUME GOLUBCHIK TRESVETLY:\u{1CF62}\n\
ZNAMENNY NEUME VRAKHIYA PROSTAYA:\u{1CF63}\n\
ZNAMENNY NEUME VRAKHIYA MRACHNAYA:\u{1CF64}\n\
ZNAMENNY NEUME VRAKHIYA SVETLAYA:\u{1CF65}\n\
ZNAMENNY NEUME VRAKHIYA TRESVETLAYA:\u{1CF66}\n\
ZNAMENNY NEUME VRAKHIYA KLYUCHEVAYA PROSTAYA:\u{1CF67}\n\
ZNAMENNY NEUME VRAKHIYA KLYUCHEVAYA MRACHNAYA:\u{1CF68}\n\
ZNAMENNY NEUME VRAKHIYA KLYUCHEVAYA SVETLAYA:\u{1CF69}\n\
ZNAMENNY NEUME VRAKHIYA KLYUCHEVAYA TRESVETLAYA:\u{1CF6A}\n\
ZNAMENNY NEUME DOUBLE ZAPYATAYA:\u{1CF6B}\n\
ZNAMENNY NEUME REVERSED CHELYUSTKA:\u{1CF6C}\n\
ZNAMENNY NEUME DERBITSA:\u{1CF6D}\n\
ZNAMENNY NEUME KHAMILO:\u{1CF6E}\n\
ZNAMENNY NEUME CHASHKA:\u{1CF6F}\n\
ZNAMENNY NEUME PODCHASHIE:\u{1CF70}\n\
ZNAMENNY NEUME SKAMEYTSA MRACHNAYA:\u{1CF71}\n\
ZNAMENNY NEUME SKAMEYTSA SVETLAYA:\u{1CF72}\n\
ZNAMENNY NEUME SKAMEYTSA TRESVETLAYA:\u{1CF73}\n\
ZNAMENNY NEUME SKAMEYTSA TIKHAYA:\u{1CF74}\n\
ZNAMENNY NEUME DEMESTVENNY KLYUCH:\u{1CF75}\n\
ZNAMENNY NEUME SKAMEYTSA KLYUCHEVAYA SVETLAYA:\u{1CF76}\n\
ZNAMENNY NEUME SKAMEYTSA KLYUCHENEPOSTOYANNAYA:\u{1CF77}\n\
ZNAMENNY NEUME SKAMEYTSA KLYUCHEVAYA TIKHAYA:\u{1CF78}\n\
ZNAMENNY NEUME SKAMEYTSA DVOECHELNAYA PROSTAYA:\u{1CF79}\n\
ZNAMENNY NEUME SKAMEYTSA DVOECHELNAYA SVETLAYA:\u{1CF7A}\n\
ZNAMENNY NEUME SKAMEYTSA DVOECHELNAYA NEPOSTOYANNAYA:\u{1CF7B}\n\
ZNAMENNY NEUME SKAMEYTSA DVOECHELNAYA KLYUCHEVAYA:\u{1CF7C}\n\
ZNAMENNY NEUME SLOZHITIE:\u{1CF7D}\n\
ZNAMENNY NEUME SLOZHITIE S ZAPYATOY:\u{1CF7E}\n\
ZNAMENNY NEUME SLOZHITIE ZAKRYTOE:\u{1CF7F}\n\
ZNAMENNY NEUME SLOZHITIE S KRYZHEM:\u{1CF80}\n\
ZNAMENNY NEUME KRYZH:\u{1CF81}\n\
ZNAMENNY NEUME ROG:\u{1CF82}\n\
ZNAMENNY NEUME FITA:\u{1CF83}\n\
ZNAMENNY NEUME KOBYLA:\u{1CF84}\n\
ZNAMENNY NEUME ZMEYTSA:\u{1CF85}\n\
ZNAMENNY NEUME STATYA:\u{1CF86}\n\
ZNAMENNY NEUME STATYA S ZAPYATOY:\u{1CF87}\n\
ZNAMENNY NEUME STATYA S KRYZHEM:\u{1CF88}\n\
ZNAMENNY NEUME STATYA S ZAPYATOY I KRYZHEM:\u{1CF89}\n\
ZNAMENNY NEUME STATYA S KRYZHEM I ZAPYATOY:\u{1CF8A}\n\
ZNAMENNY NEUME STATYA ZAKRYTAYA:\u{1CF8B}\n\
ZNAMENNY NEUME STATYA ZAKRYTAYA S ZAPYATOY:\u{1CF8C}\n\
ZNAMENNY NEUME STATYA S ROGOM:\u{1CF8D}\n\
ZNAMENNY NEUME STATYA S DVUMYA ZAPYATYMI:\u{1CF8E}\n\
ZNAMENNY NEUME STATYA S ZAPYATOY I PODCHASHIEM:\u{1CF8F}\n\
ZNAMENNY NEUME POLKULIZMY:\u{1CF90}\n\
ZNAMENNY NEUME STATYA NEPOSTOYANNAYA:\u{1CF91}\n\
ZNAMENNY NEUME STRELA PROSTAYA:\u{1CF92}\n\
ZNAMENNY NEUME STRELA MRACHNOTIKHAYA:\u{1CF93}\n\
ZNAMENNY NEUME STRELA KRYZHEVAYA:\u{1CF94}\n\
ZNAMENNY NEUME STRELA POLUPOVODNAYA:\u{1CF95}\n\
ZNAMENNY NEUME STRELA POVODNAYA:\u{1CF96}\n\
ZNAMENNY NEUME STRELA NEPOSTOYANNAYA:\u{1CF97}\n\
ZNAMENNY NEUME STRELA KLYUCHEPOVODNAYA:\u{1CF98}\n\
ZNAMENNY NEUME STRELA KLYUCHENEPOSTOYANNAYA:\u{1CF99}\n\
ZNAMENNY NEUME STRELA TIKHAYA PUTNAYA:\u{1CF9A}\n\
ZNAMENNY NEUME STRELA DVOECHELNAYA:\u{1CF9B}\n\
ZNAMENNY NEUME STRELA DVOECHELNOKRYZHEVAYA:\u{1CF9C}\n\
ZNAMENNY NEUME STRELA DVOECHELNOPOVODNAYA:\u{1CF9D}\n\
ZNAMENNY NEUME STRELA DVOECHELNAYA KLYUCHEVAYA:\u{1CF9E}\n\
ZNAMENNY NEUME STRELA DVOECHELNOPOVODNAYA KLYUCHEVAYA:\u{1CF9F}\n\
ZNAMENNY NEUME STRELA GROMNAYA WITH SINGLE ZAPYATAYA:\u{1CFA0}\n\
ZNAMENNY NEUME STRELA GROMOPOVODNAYA WITH SINGLE ZAPYATAYA:\u{1CFA1}\n\
ZNAMENNY NEUME STRELA GROMNAYA:\u{1CFA2}\n\
ZNAMENNY NEUME STRELA GROMOPOVODNAYA:\u{1CFA3}\n\
ZNAMENNY NEUME STRELA GROMOPOVODNAYA WITH DOUBLE ZAPYATAYA:\u{1CFA4}\n\
ZNAMENNY NEUME STRELA GROMOKRYZHEVAYA:\u{1CFA5}\n\
ZNAMENNY NEUME STRELA GROMOKRYZHEVAYA POVODNAYA:\u{1CFA6}\n\
ZNAMENNY NEUME MECHIK:\u{1CFA7}\n\
ZNAMENNY NEUME MECHIK POVODNY:\u{1CFA8}\n\
ZNAMENNY NEUME MECHIK KLYUCHEVOY:\u{1CFA9}\n\
ZNAMENNY NEUME MECHIK KLYUCHEPOVODNY:\u{1CFAA}\n\
ZNAMENNY NEUME MECHIK KLYUCHENEPOSTOYANNY:\u{1CFAB}\n\
ZNAMENNY NEUME STRELA TRYASOGLASNAYA:\u{1CFAC}\n\
ZNAMENNY NEUME STRELA TRYASOPOVODNAYA:\u{1CFAD}\n\
ZNAMENNY NEUME STRELA TRYASOSTRELNAYA:\u{1CFAE}\n\
ZNAMENNY NEUME OSOKA:\u{1CFAF}\n\
ZNAMENNY NEUME OSOKA SVETLAYA:\u{1CFB0}\n\
ZNAMENNY NEUME OSOKA TRESVETLAYA:\u{1CFB1}\n\
ZNAMENNY NEUME OSOKA KRYUKOVAYA SVETLAYA:\u{1CFB2}\n\
ZNAMENNY NEUME OSOKA KLYUCHEVAYA SVETLAYA:\u{1CFB3}\n\
ZNAMENNY NEUME OSOKA KLYUCHEVAYA NEPOSTOYANNAYA:\u{1CFB4}\n\
ZNAMENNY NEUME STRELA KRYUKOVAYA:\u{1CFB5}\n\
ZNAMENNY NEUME STRELA KRYUKOVAYA POVODNAYA:\u{1CFB6}\n\
ZNAMENNY NEUME STRELA KRYUKOVAYA GROMNAYA WITH SINGLE ZAPYATAYA:\u{1CFB7}\n\
ZNAMENNY NEUME STRELA KRYUKOVAYA GROMOPOVODNAYA WITH SINGLE ZAPYATAYA:\u{1CFB8}\n\
ZNAMENNY NEUME STRELA KRYUKOVAYA GROMNAYA:\u{1CFB9}\n\
ZNAMENNY NEUME STRELA KRYUKOVAYA GROMOPOVODNAYA:\u{1CFBA}\n\
ZNAMENNY NEUME STRELA KRYUKOVAYA GROMOPOVODNAYA WITH DOUBLE ZAPYATAYA:\u{1CFBB}\n\
ZNAMENNY NEUME STRELA KRYUKOVAYA GROMOKRYZHEVAYA:\u{1CFBC}\n\
ZNAMENNY NEUME STRELA KRYUKOVAYA GROMOKRYZHEVAYA POVODNAYA:\u{1CFBD}\n\
ZNAMENNY NEUME STRELA KRYUKOVAYA TRYASKA:\u{1CFBE}\n\
ZNAMENNY NEUME KUFISMA:\u{1CFBF}\n\
ZNAMENNY NEUME OBLAKO:\u{1CFC0}\n\
ZNAMENNY NEUME DUDA:\u{1CFC1}\n\
ZNAMENNY NEUME NEMKA:\u{1CFC2}\n\
ZNAMENNY NEUME PAUK:\u{1CFC3}\n\
BYZANTINE MUSICAL SYMBOL PSILI:\u{1D000}\n\
BYZANTINE MUSICAL SYMBOL DASEIA:\u{1D001}\n\
BYZANTINE MUSICAL SYMBOL PERISPOMENI:\u{1D002}\n\
BYZANTINE MUSICAL SYMBOL OXEIA EKFONITIKON:\u{1D003}\n\
BYZANTINE MUSICAL SYMBOL OXEIA DIPLI:\u{1D004}\n\
BYZANTINE MUSICAL SYMBOL VAREIA EKFONITIKON:\u{1D005}\n\
BYZANTINE MUSICAL SYMBOL VAREIA DIPLI:\u{1D006}\n\
BYZANTINE MUSICAL SYMBOL KATHISTI:\u{1D007}\n\
BYZANTINE MUSICAL SYMBOL SYRMATIKI:\u{1D008}\n\
BYZANTINE MUSICAL SYMBOL PARAKLITIKI:\u{1D009}\n\
BYZANTINE MUSICAL SYMBOL YPOKRISIS:\u{1D00A}\n\
BYZANTINE MUSICAL SYMBOL YPOKRISIS DIPLI:\u{1D00B}\n\
BYZANTINE MUSICAL SYMBOL KREMASTI:\u{1D00C}\n\
BYZANTINE MUSICAL SYMBOL APESO EKFONITIKON:\u{1D00D}\n\
BYZANTINE MUSICAL SYMBOL EXO EKFONITIKON:\u{1D00E}\n\
BYZANTINE MUSICAL SYMBOL TELEIA:\u{1D00F}\n\
BYZANTINE MUSICAL SYMBOL KENTIMATA:\u{1D010}\n\
BYZANTINE MUSICAL SYMBOL APOSTROFOS:\u{1D011}\n\
BYZANTINE MUSICAL SYMBOL APOSTROFOS DIPLI:\u{1D012}\n\
BYZANTINE MUSICAL SYMBOL SYNEVMA:\u{1D013}\n\
BYZANTINE MUSICAL SYMBOL THITA:\u{1D014}\n\
BYZANTINE MUSICAL SYMBOL OLIGON ARCHAION:\u{1D015}\n\
BYZANTINE MUSICAL SYMBOL GORGON ARCHAION:\u{1D016}\n\
BYZANTINE MUSICAL SYMBOL PSILON:\u{1D017}\n\
BYZANTINE MUSICAL SYMBOL CHAMILON:\u{1D018}\n\
BYZANTINE MUSICAL SYMBOL VATHY:\u{1D019}\n\
BYZANTINE MUSICAL SYMBOL ISON ARCHAION:\u{1D01A}\n\
BYZANTINE MUSICAL SYMBOL KENTIMA ARCHAION:\u{1D01B}\n\
BYZANTINE MUSICAL SYMBOL KENTIMATA ARCHAION:\u{1D01C}\n\
BYZANTINE MUSICAL SYMBOL SAXIMATA:\u{1D01D}\n\
BYZANTINE MUSICAL SYMBOL PARICHON:\u{1D01E}\n\
BYZANTINE MUSICAL SYMBOL STAVROS APODEXIA:\u{1D01F}\n\
BYZANTINE MUSICAL SYMBOL OXEIAI ARCHAION:\u{1D020}\n\
BYZANTINE MUSICAL SYMBOL VAREIAI ARCHAION:\u{1D021}\n\
BYZANTINE MUSICAL SYMBOL APODERMA ARCHAION:\u{1D022}\n\
BYZANTINE MUSICAL SYMBOL APOTHEMA:\u{1D023}\n\
BYZANTINE MUSICAL SYMBOL KLASMA:\u{1D024}\n\
BYZANTINE MUSICAL SYMBOL REVMA:\u{1D025}\n\
BYZANTINE MUSICAL SYMBOL PIASMA ARCHAION:\u{1D026}\n\
BYZANTINE MUSICAL SYMBOL TINAGMA:\u{1D027}\n\
BYZANTINE MUSICAL SYMBOL ANATRICHISMA:\u{1D028}\n\
BYZANTINE MUSICAL SYMBOL SEISMA:\u{1D029}\n\
BYZANTINE MUSICAL SYMBOL SYNAGMA ARCHAION:\u{1D02A}\n\
BYZANTINE MUSICAL SYMBOL SYNAGMA META STAVROU:\u{1D02B}\n\
BYZANTINE MUSICAL SYMBOL OYRANISMA ARCHAION:\u{1D02C}\n\
BYZANTINE MUSICAL SYMBOL THEMA:\u{1D02D}\n\
BYZANTINE MUSICAL SYMBOL LEMOI:\u{1D02E}\n\
BYZANTINE MUSICAL SYMBOL DYO:\u{1D02F}\n\
BYZANTINE MUSICAL SYMBOL TRIA:\u{1D030}\n\
BYZANTINE MUSICAL SYMBOL TESSERA:\u{1D031}\n\
BYZANTINE MUSICAL SYMBOL KRATIMATA:\u{1D032}\n\
BYZANTINE MUSICAL SYMBOL APESO EXO NEO:\u{1D033}\n\
BYZANTINE MUSICAL SYMBOL FTHORA ARCHAION:\u{1D034}\n\
BYZANTINE MUSICAL SYMBOL IMIFTHORA:\u{1D035}\n\
BYZANTINE MUSICAL SYMBOL TROMIKON ARCHAION:\u{1D036}\n\
BYZANTINE MUSICAL SYMBOL KATAVA TROMIKON:\u{1D037}\n\
BYZANTINE MUSICAL SYMBOL PELASTON:\u{1D038}\n\
BYZANTINE MUSICAL SYMBOL PSIFISTON:\u{1D039}\n\
BYZANTINE MUSICAL SYMBOL KONTEVMA:\u{1D03A}\n\
BYZANTINE MUSICAL SYMBOL CHOREVMA ARCHAION:\u{1D03B}\n\
BYZANTINE MUSICAL SYMBOL RAPISMA:\u{1D03C}\n\
BYZANTINE MUSICAL SYMBOL PARAKALESMA ARCHAION:\u{1D03D}\n\
BYZANTINE MUSICAL SYMBOL PARAKLITIKI ARCHAION:\u{1D03E}\n\
BYZANTINE MUSICAL SYMBOL ICHADIN:\u{1D03F}\n\
BYZANTINE MUSICAL SYMBOL NANA:\u{1D040}\n\
BYZANTINE MUSICAL SYMBOL PETASMA:\u{1D041}\n\
BYZANTINE MUSICAL SYMBOL KONTEVMA ALLO:\u{1D042}\n\
BYZANTINE MUSICAL SYMBOL TROMIKON ALLO:\u{1D043}\n\
BYZANTINE MUSICAL SYMBOL STRAGGISMATA:\u{1D044}\n\
BYZANTINE MUSICAL SYMBOL GRONTHISMATA:\u{1D045}\n\
BYZANTINE MUSICAL SYMBOL ISON NEO:\u{1D046}\n\
BYZANTINE MUSICAL SYMBOL OLIGON NEO:\u{1D047}\n\
BYZANTINE MUSICAL SYMBOL OXEIA NEO:\u{1D048}\n\
BYZANTINE MUSICAL SYMBOL PETASTI:\u{1D049}\n\
BYZANTINE MUSICAL SYMBOL KOUFISMA:\u{1D04A}\n\
BYZANTINE MUSICAL SYMBOL PETASTOKOUFISMA:\u{1D04B}\n\
BYZANTINE MUSICAL SYMBOL KRATIMOKOUFISMA:\u{1D04C}\n\
BYZANTINE MUSICAL SYMBOL PELASTON NEO:\u{1D04D}\n\
BYZANTINE MUSICAL SYMBOL KENTIMATA NEO ANO:\u{1D04E}\n\
BYZANTINE MUSICAL SYMBOL KENTIMA NEO ANO:\u{1D04F}\n\
BYZANTINE MUSICAL SYMBOL YPSILI:\u{1D050}\n\
BYZANTINE MUSICAL SYMBOL APOSTROFOS NEO:\u{1D051}\n\
BYZANTINE MUSICAL SYMBOL APOSTROFOI SYNDESMOS NEO:\u{1D052}\n\
BYZANTINE MUSICAL SYMBOL YPORROI:\u{1D053}\n\
BYZANTINE MUSICAL SYMBOL KRATIMOYPORROON:\u{1D054}\n\
BYZANTINE MUSICAL SYMBOL ELAFRON:\u{1D055}\n\
BYZANTINE MUSICAL SYMBOL CHAMILI:\u{1D056}\n\
BYZANTINE MUSICAL SYMBOL MIKRON ISON:\u{1D057}\n\
BYZANTINE MUSICAL SYMBOL VAREIA NEO:\u{1D058}\n\
BYZANTINE MUSICAL SYMBOL PIASMA NEO:\u{1D059}\n\
BYZANTINE MUSICAL SYMBOL PSIFISTON NEO:\u{1D05A}\n\
BYZANTINE MUSICAL SYMBOL OMALON:\u{1D05B}\n\
BYZANTINE MUSICAL SYMBOL ANTIKENOMA:\u{1D05C}\n\
BYZANTINE MUSICAL SYMBOL LYGISMA:\u{1D05D}\n\
BYZANTINE MUSICAL SYMBOL PARAKLITIKI NEO:\u{1D05E}\n\
BYZANTINE MUSICAL SYMBOL PARAKALESMA NEO:\u{1D05F}\n";

pub const NAMES_68: &'static str = "BYZANTINE MUSICAL SYMBOL ETERON PARAKALESMA:\u{1D060}\n\
BYZANTINE MUSICAL SYMBOL KYLISMA:\u{1D061}\n\
BYZANTINE MUSICAL SYMBOL ANTIKENOKYLISMA:\u{1D062}\n\
BYZANTINE MUSICAL SYMBOL TROMIKON NEO:\u{1D063}\n\
BYZANTINE MUSICAL SYMBOL EKSTREPTON:\u{1D064}\n\
BYZANTINE MUSICAL SYMBOL SYNAGMA NEO:\u{1D065}\n\
BYZANTINE MUSICAL SYMBOL SYRMA:\u{1D066}\n\
BYZANTINE MUSICAL SYMBOL CHOREVMA NEO:\u{1D067}\n\
BYZANTINE MUSICAL SYMBOL EPEGERMA:\u{1D068}\n\
BYZANTINE MUSICAL SYMBOL SEISMA NEO:\u{1D069}\n\
BYZANTINE MUSICAL SYMBOL XIRON KLASMA:\u{1D06A}\n\
BYZANTINE MUSICAL SYMBOL TROMIKOPSIFISTON:\u{1D06B}\n\
BYZANTINE MUSICAL SYMBOL PSIFISTOLYGISMA:\u{1D06C}\n\
BYZANTINE MUSICAL SYMBOL TROMIKOLYGISMA:\u{1D06D}\n\
BYZANTINE MUSICAL SYMBOL TROMIKOPARAKALESMA:\u{1D06E}\n\
BYZANTINE MUSICAL SYMBOL PSIFISTOPARAKALESMA:\u{1D06F}\n\
BYZANTINE MUSICAL SYMBOL TROMIKOSYNAGMA:\u{1D070}\n\
BYZANTINE MUSICAL SYMBOL PSIFISTOSYNAGMA:\u{1D071}\n\
BYZANTINE MUSICAL SYMBOL GORGOSYNTHETON:\u{1D072}\n\
BYZANTINE MUSICAL SYMBOL ARGOSYNTHETON:\u{1D073}\n\
BYZANTINE MUSICAL SYMBOL ETERON ARGOSYNTHETON:\u{1D074}\n\
BYZANTINE MUSICAL SYMBOL OYRANISMA NEO:\u{1D075}\n\
BYZANTINE MUSICAL SYMBOL THEMATISMOS ESO:\u{1D076}\n\
BYZANTINE MUSICAL SYMBOL THEMATISMOS EXO:\u{1D077}\n\
BYZANTINE MUSICAL SYMBOL THEMA APLOUN:\u{1D078}\n\
BYZANTINE MUSICAL SYMBOL THES KAI APOTHES:\u{1D079}\n\
BYZANTINE MUSICAL SYMBOL KATAVASMA:\u{1D07A}\n\
BYZANTINE MUSICAL SYMBOL ENDOFONON:\u{1D07B}\n\
BYZANTINE MUSICAL SYMBOL YFEN KATO:\u{1D07C}\n\
BYZANTINE MUSICAL SYMBOL YFEN ANO:\u{1D07D}\n\
BYZANTINE MUSICAL SYMBOL STAVROS:\u{1D07E}\n\
BYZANTINE MUSICAL SYMBOL KLASMA ANO:\u{1D07F}\n\
BYZANTINE MUSICAL SYMBOL DIPLI ARCHAION:\u{1D080}\n\
BYZANTINE MUSICAL SYMBOL KRATIMA ARCHAION:\u{1D081}\n\
BYZANTINE MUSICAL SYMBOL KRATIMA ALLO:\u{1D082}\n\
BYZANTINE MUSICAL SYMBOL KRATIMA NEO:\u{1D083}\n\
BYZANTINE MUSICAL SYMBOL APODERMA NEO:\u{1D084}\n\
BYZANTINE MUSICAL SYMBOL APLI:\u{1D085}\n\
BYZANTINE MUSICAL SYMBOL DIPLI:\u{1D086}\n\
BYZANTINE MUSICAL SYMBOL TRIPLI:\u{1D087}\n\
BYZANTINE MUSICAL SYMBOL TETRAPLI:\u{1D088}\n\
BYZANTINE MUSICAL SYMBOL KORONIS:\u{1D089}\n\
BYZANTINE MUSICAL SYMBOL LEIMMA ENOS CHRONOU:\u{1D08A}\n\
BYZANTINE MUSICAL SYMBOL LEIMMA DYO CHRONON:\u{1D08B}\n\
BYZANTINE MUSICAL SYMBOL LEIMMA TRION CHRONON:\u{1D08C}\n\
BYZANTINE MUSICAL SYMBOL LEIMMA TESSARON CHRONON:\u{1D08D}\n\
BYZANTINE MUSICAL SYMBOL LEIMMA IMISEOS CHRONOU:\u{1D08E}\n\
BYZANTINE MUSICAL SYMBOL GORGON NEO ANO:\u{1D08F}\n\
BYZANTINE MUSICAL SYMBOL GORGON PARESTIGMENON ARISTERA:\u{1D090}\n\
BYZANTINE MUSICAL SYMBOL GORGON PARESTIGMENON DEXIA:\u{1D091}\n\
BYZANTINE MUSICAL SYMBOL DIGORGON:\u{1D092}\n\
BYZANTINE MUSICAL SYMBOL DIGORGON PARESTIGMENON ARISTERA KATO:\u{1D093}\n\
BYZANTINE MUSICAL SYMBOL DIGORGON PARESTIGMENON ARISTERA ANO:\u{1D094}\n\
BYZANTINE MUSICAL SYMBOL DIGORGON PARESTIGMENON DEXIA:\u{1D095}\n\
BYZANTINE MUSICAL SYMBOL TRIGORGON:\u{1D096}\n\
BYZANTINE MUSICAL SYMBOL ARGON:\u{1D097}\n\
BYZANTINE MUSICAL SYMBOL IMIDIARGON:\u{1D098}\n\
BYZANTINE MUSICAL SYMBOL DIARGON:\u{1D099}\n\
BYZANTINE MUSICAL SYMBOL AGOGI POLI ARGI:\u{1D09A}\n\
BYZANTINE MUSICAL SYMBOL AGOGI ARGOTERI:\u{1D09B}\n\
BYZANTINE MUSICAL SYMBOL AGOGI ARGI:\u{1D09C}\n\
BYZANTINE MUSICAL SYMBOL AGOGI METRIA:\u{1D09D}\n\
BYZANTINE MUSICAL SYMBOL AGOGI MESI:\u{1D09E}\n\
BYZANTINE MUSICAL SYMBOL AGOGI GORGI:\u{1D09F}\n\
BYZANTINE MUSICAL SYMBOL AGOGI GORGOTERI:\u{1D0A0}\n\
BYZANTINE MUSICAL SYMBOL AGOGI POLI GORGI:\u{1D0A1}\n\
BYZANTINE MUSICAL SYMBOL MARTYRIA PROTOS ICHOS:\u{1D0A2}\n\
BYZANTINE MUSICAL SYMBOL MARTYRIA ALLI PROTOS ICHOS:\u{1D0A3}\n\
BYZANTINE MUSICAL SYMBOL MARTYRIA DEYTEROS ICHOS:\u{1D0A4}\n\
BYZANTINE MUSICAL SYMBOL MARTYRIA ALLI DEYTEROS ICHOS:\u{1D0A5}\n\
BYZANTINE MUSICAL SYMBOL MARTYRIA TRITOS ICHOS:\u{1D0A6}\n\
BYZANTINE MUSICAL SYMBOL MARTYRIA TRIFONIAS:\u{1D0A7}\n\
BYZANTINE MUSICAL SYMBOL MARTYRIA TETARTOS ICHOS:\u{1D0A8}\n\
BYZANTINE MUSICAL SYMBOL MARTYRIA TETARTOS LEGETOS ICHOS:\u{1D0A9}\n\
BYZANTINE MUSICAL SYMBOL MARTYRIA LEGETOS ICHOS:\u{1D0AA}\n\
BYZANTINE MUSICAL SYMBOL MARTYRIA PLAGIOS ICHOS:\u{1D0AB}\n\
BYZANTINE MUSICAL SYMBOL ISAKIA TELOUS ICHIMATOS:\u{1D0AC}\n\
BYZANTINE MUSICAL SYMBOL APOSTROFOI TELOUS ICHIMATOS:\u{1D0AD}\n\
BYZANTINE MUSICAL SYMBOL FANEROSIS TETRAFONIAS:\u{1D0AE}\n\
BYZANTINE MUSICAL SYMBOL FANEROSIS MONOFONIAS:\u{1D0AF}\n\
BYZANTINE MUSICAL SYMBOL FANEROSIS DIFONIAS:\u{1D0B0}\n\
BYZANTINE MUSICAL SYMBOL MARTYRIA VARYS ICHOS:\u{1D0B1}\n\
BYZANTINE MUSICAL SYMBOL MARTYRIA PROTOVARYS ICHOS:\u{1D0B2}\n\
BYZANTINE MUSICAL SYMBOL MARTYRIA PLAGIOS TETARTOS ICHOS:\u{1D0B3}\n\
BYZANTINE MUSICAL SYMBOL GORTHMIKON N APLOUN:\u{1D0B4}\n\
BYZANTINE MUSICAL SYMBOL GORTHMIKON N DIPLOUN:\u{1D0B5}\n\
BYZANTINE MUSICAL SYMBOL ENARXIS KAI FTHORA VOU:\u{1D0B6}\n\
BYZANTINE MUSICAL SYMBOL IMIFONON:\u{1D0B7}\n\
BYZANTINE MUSICAL SYMBOL IMIFTHORON:\u{1D0B8}\n\
BYZANTINE MUSICAL SYMBOL FTHORA ARCHAION DEYTEROU ICHOU:\u{1D0B9}\n\
BYZANTINE MUSICAL SYMBOL FTHORA DIATONIKI PA:\u{1D0BA}\n\
BYZANTINE MUSICAL SYMBOL FTHORA DIATONIKI NANA:\u{1D0BB}\n\
BYZANTINE MUSICAL SYMBOL FTHORA NAOS ICHOS:\u{1D0BC}\n\
BYZANTINE MUSICAL SYMBOL FTHORA DIATONIKI DI:\u{1D0BD}\n\
BYZANTINE MUSICAL SYMBOL FTHORA SKLIRON DIATONON DI:\u{1D0BE}\n\
BYZANTINE MUSICAL SYMBOL FTHORA DIATONIKI KE:\u{1D0BF}\n\
BYZANTINE MUSICAL SYMBOL FTHORA DIATONIKI ZO:\u{1D0C0}\n\
BYZANTINE MUSICAL SYMBOL FTHORA DIATONIKI NI KATO:\u{1D0C1}\n\
BYZANTINE MUSICAL SYMBOL FTHORA DIATONIKI NI ANO:\u{1D0C2}\n\
BYZANTINE MUSICAL SYMBOL FTHORA MALAKON CHROMA DIFONIAS:\u{1D0C3}\n\
BYZANTINE MUSICAL SYMBOL FTHORA MALAKON CHROMA MONOFONIAS:\u{1D0C4}\n\
BYZANTINE MUSICAL SYMBOL FHTORA SKLIRON CHROMA VASIS:\u{1D0C5}\n\
BYZANTINE MUSICAL SYMBOL FTHORA SKLIRON CHROMA SYNAFI:\u{1D0C6}\n\
BYZANTINE MUSICAL SYMBOL FTHORA NENANO:\u{1D0C7}\n\
BYZANTINE MUSICAL SYMBOL CHROA ZYGOS:\u{1D0C8}\n\
BYZANTINE MUSICAL SYMBOL CHROA KLITON:\u{1D0C9}\n\
BYZANTINE MUSICAL SYMBOL CHROA SPATHI:\u{1D0CA}\n\
BYZANTINE MUSICAL SYMBOL FTHORA I YFESIS TETARTIMORION:\u{1D0CB}\n\
BYZANTINE MUSICAL SYMBOL FTHORA ENARMONIOS ANTIFONIA:\u{1D0CC}\n\
BYZANTINE MUSICAL SYMBOL YFESIS TRITIMORION:\u{1D0CD}\n\
BYZANTINE MUSICAL SYMBOL DIESIS TRITIMORION:\u{1D0CE}\n\
BYZANTINE MUSICAL SYMBOL DIESIS TETARTIMORION:\u{1D0CF}\n\
BYZANTINE MUSICAL SYMBOL DIESIS APLI DYO DODEKATA:\u{1D0D0}\n\
BYZANTINE MUSICAL SYMBOL DIESIS MONOGRAMMOS TESSERA DODEKATA:\u{1D0D1}\n\
BYZANTINE MUSICAL SYMBOL DIESIS DIGRAMMOS EX DODEKATA:\u{1D0D2}\n\
BYZANTINE MUSICAL SYMBOL DIESIS TRIGRAMMOS OKTO DODEKATA:\u{1D0D3}\n\
BYZANTINE MUSICAL SYMBOL YFESIS APLI DYO DODEKATA:\u{1D0D4}\n\
BYZANTINE MUSICAL SYMBOL YFESIS MONOGRAMMOS TESSERA DODEKATA:\u{1D0D5}\n\
BYZANTINE MUSICAL SYMBOL YFESIS DIGRAMMOS EX DODEKATA:\u{1D0D6}\n\
BYZANTINE MUSICAL SYMBOL YFESIS TRIGRAMMOS OKTO DODEKATA:\u{1D0D7}\n\
BYZANTINE MUSICAL SYMBOL GENIKI DIESIS:\u{1D0D8}\n\
BYZANTINE MUSICAL SYMBOL GENIKI YFESIS:\u{1D0D9}\n\
BYZANTINE MUSICAL SYMBOL DIASTOLI APLI MIKRI:\u{1D0DA}\n\
BYZANTINE MUSICAL SYMBOL DIASTOLI APLI MEGALI:\u{1D0DB}\n\
BYZANTINE MUSICAL SYMBOL DIASTOLI DIPLI:\u{1D0DC}\n\
BYZANTINE MUSICAL SYMBOL DIASTOLI THESEOS:\u{1D0DD}\n\
BYZANTINE MUSICAL SYMBOL SIMANSIS THESEOS:\u{1D0DE}\n\
BYZANTINE MUSICAL SYMBOL SIMANSIS THESEOS DISIMOU:\u{1D0DF}\n\
BYZANTINE MUSICAL SYMBOL SIMANSIS THESEOS TRISIMOU:\u{1D0E0}\n\
BYZANTINE MUSICAL SYMBOL SIMANSIS THESEOS TETRASIMOU:\u{1D0E1}\n\
BYZANTINE MUSICAL SYMBOL SIMANSIS ARSEOS:\u{1D0E2}\n\
BYZANTINE MUSICAL SYMBOL SIMANSIS ARSEOS DISIMOU:\u{1D0E3}\n\
BYZANTINE MUSICAL SYMBOL SIMANSIS ARSEOS TRISIMOU:\u{1D0E4}\n\
BYZANTINE MUSICAL SYMBOL SIMANSIS ARSEOS TETRASIMOU:\u{1D0E5}\n\
BYZANTINE MUSICAL SYMBOL DIGRAMMA GG:\u{1D0E6}\n\
BYZANTINE MUSICAL SYMBOL DIFTOGGOS OU:\u{1D0E7}\n\
BYZANTINE MUSICAL SYMBOL STIGMA:\u{1D0E8}\n\
BYZANTINE MUSICAL SYMBOL ARKTIKO PA:\u{1D0E9}\n\
BYZANTINE MUSICAL SYMBOL ARKTIKO VOU:\u{1D0EA}\n\
BYZANTINE MUSICAL SYMBOL ARKTIKO GA:\u{1D0EB}\n\
BYZANTINE MUSICAL SYMBOL ARKTIKO DI:\u{1D0EC}\n\
BYZANTINE MUSICAL SYMBOL ARKTIKO KE:\u{1D0ED}\n\
BYZANTINE MUSICAL SYMBOL ARKTIKO ZO:\u{1D0EE}\n\
BYZANTINE MUSICAL SYMBOL ARKTIKO NI:\u{1D0EF}\n\
BYZANTINE MUSICAL SYMBOL KENTIMATA NEO MESO:\u{1D0F0}\n\
BYZANTINE MUSICAL SYMBOL KENTIMA NEO MESO:\u{1D0F1}\n\
BYZANTINE MUSICAL SYMBOL KENTIMATA NEO KATO:\u{1D0F2}\n\
BYZANTINE MUSICAL SYMBOL KENTIMA NEO KATO:\u{1D0F3}\n\
BYZANTINE MUSICAL SYMBOL KLASMA KATO:\u{1D0F4}\n\
BYZANTINE MUSICAL SYMBOL GORGON NEO KATO:\u{1D0F5}\n\
MUSICAL SYMBOL SINGLE BARLINE:\u{1D100}\n\
MUSICAL SYMBOL DOUBLE BARLINE:\u{1D101}\n\
MUSICAL SYMBOL FINAL BARLINE:\u{1D102}\n\
MUSICAL SYMBOL REVERSE FINAL BARLINE:\u{1D103}\n\
MUSICAL SYMBOL DASHED BARLINE:\u{1D104}\n\
MUSICAL SYMBOL SHORT BARLINE:\u{1D105}\n\
MUSICAL SYMBOL LEFT REPEAT SIGN:\u{1D106}\n\
MUSICAL SYMBOL RIGHT REPEAT SIGN:\u{1D107}\n\
MUSICAL SYMBOL REPEAT DOTS:\u{1D108}\n\
MUSICAL SYMBOL DAL SEGNO:\u{1D109}\n\
MUSICAL SYMBOL DA CAPO:\u{1D10A}\n\
MUSICAL SYMBOL SEGNO:\u{1D10B}\n\
MUSICAL SYMBOL CODA:\u{1D10C}\n\
MUSICAL SYMBOL REPEATED FIGURE-1:\u{1D10D}\n\
MUSICAL SYMBOL REPEATED FIGURE-2:\u{1D10E}\n\
MUSICAL SYMBOL REPEATED FIGURE-3:\u{1D10F}\n\
MUSICAL SYMBOL FERMATA:\u{1D110}\n\
MUSICAL SYMBOL FERMATA BELOW:\u{1D111}\n\
MUSICAL SYMBOL BREATH MARK:\u{1D112}\n\
MUSICAL SYMBOL CAESURA:\u{1D113}\n\
MUSICAL SYMBOL BRACE:\u{1D114}\n\
MUSICAL SYMBOL BRACKET:\u{1D115}\n\
MUSICAL SYMBOL ONE-LINE STAFF:\u{1D116}\n\
MUSICAL SYMBOL TWO-LINE STAFF:\u{1D117}\n\
MUSICAL SYMBOL THREE-LINE STAFF:\u{1D118}\n\
MUSICAL SYMBOL FOUR-LINE STAFF:\u{1D119}\n\
MUSICAL SYMBOL FIVE-LINE STAFF:\u{1D11A}\n\
MUSICAL SYMBOL SIX-LINE STAFF:\u{1D11B}\n\
MUSICAL SYMBOL SIX-STRING FRETBOARD:\u{1D11C}\n\
MUSICAL SYMBOL FOUR-STRING FRETBOARD:\u{1D11D}\n\
MUSICAL SYMBOL G CLEF:\u{1D11E}\n\
MUSICAL SYMBOL G CLEF OTTAVA ALTA:\u{1D11F}\n\
MUSICAL SYMBOL G CLEF OTTAVA BASSA:\u{1D120}\n\
MUSICAL SYMBOL C CLEF:\u{1D121}\n\
MUSICAL SYMBOL F CLEF:\u{1D122}\n\
MUSICAL SYMBOL F CLEF OTTAVA ALTA:\u{1D123}\n\
MUSICAL SYMBOL F CLEF OTTAVA BASSA:\u{1D124}\n\
MUSICAL SYMBOL DRUM CLEF-1:\u{1D125}\n\
MUSICAL SYMBOL DRUM CLEF-2:\u{1D126}\n\
MUSICAL SYMBOL MULTIPLE MEASURE REST:\u{1D129}\n\
MUSICAL SYMBOL DOUBLE SHARP:\u{1D12A}\n\
MUSICAL SYMBOL DOUBLE FLAT:\u{1D12B}\n\
MUSICAL SYMBOL FLAT UP:\u{1D12C}\n\
MUSICAL SYMBOL FLAT DOWN:\u{1D12D}\n\
MUSICAL SYMBOL NATURAL UP:\u{1D12E}\n\
MUSICAL SYMBOL NATURAL DOWN:\u{1D12F}\n\
MUSICAL SYMBOL SHARP UP:\u{1D130}\n\
MUSICAL SYMBOL SHARP DOWN:\u{1D131}\n\
MUSICAL SYMBOL QUARTER TONE SHARP:\u{1D132}\n\
MUSICAL SYMBOL QUARTER TONE FLAT:\u{1D133}\n\
MUSICAL SYMBOL COMMON TIME:\u{1D134}\n\
MUSICAL SYMBOL CUT TIME:\u{1D135}\n\
MUSICAL SYMBOL OTTAVA ALTA:\u{1D136}\n\
MUSICAL SYMBOL OTTAVA BASSA:\u{1D137}\n\
MUSICAL SYMBOL QUINDICESIMA ALTA:\u{1D138}\n\
MUSICAL SYMBOL QUINDICESIMA BASSA:\u{1D139}\n\
MUSICAL SYMBOL MULTI REST:\u{1D13A}\n\
MUSICAL SYMBOL WHOLE REST:\u{1D13B}\n\
MUSICAL SYMBOL HALF REST:\u{1D13C}\n\
MUSICAL SYMBOL QUARTER REST:\u{1D13D}\n\
MUSICAL SYMBOL EIGHTH REST:\u{1D13E}\n\
MUSICAL SYMBOL SIXTEENTH REST:\u{1D13F}\n\
MUSICAL SYMBOL THIRTY-SECOND REST:\u{1D140}\n\
MUSICAL SYMBOL SIXTY-FOURTH REST:\u{1D141}\n\
MUSICAL SYMBOL ONE HUNDRED TWENTY-EIGHTH REST:\u{1D142}\n\
MUSICAL SYMBOL X NOTEHEAD:\u{1D143}\n\
MUSICAL SYMBOL PLUS NOTEHEAD:\u{1D144}\n\
MUSICAL SYMBOL CIRCLE X NOTEHEAD:\u{1D145}\n\
MUSICAL SYMBOL SQUARE NOTEHEAD WHITE:\u{1D146}\n\
MUSICAL SYMBOL SQUARE NOTEHEAD BLACK:\u{1D147}\n\
MUSICAL SYMBOL TRIANGLE NOTEHEAD UP WHITE:\u{1D148}\n\
MUSICAL SYMBOL TRIANGLE NOTEHEAD UP BLACK:\u{1D149}\n\
MUSICAL SYMBOL TRIANGLE NOTEHEAD LEFT WHITE:\u{1D14A}\n\
MUSICAL SYMBOL TRIANGLE NOTEHEAD LEFT BLACK:\u{1D14B}\n\
MUSICAL SYMBOL TRIANGLE NOTEHEAD RIGHT WHITE:\u{1D14C}\n\
MUSICAL SYMBOL TRIANGLE NOTEHEAD RIGHT BLACK:\u{1D14D}\n\
MUSICAL SYMBOL TRIANGLE NOTEHEAD DOWN WHITE:\u{1D14E}\n\
MUSICAL SYMBOL TRIANGLE NOTEHEAD DOWN BLACK:\u{1D14F}\n\
MUSICAL SYMBOL TRIANGLE NOTEHEAD UP RIGHT WHITE:\u{1D150}\n\
MUSICAL SYMBOL TRIANGLE NOTEHEAD UP RIGHT BLACK:\u{1D151}\n\
MUSICAL SYMBOL MOON NOTEHEAD WHITE:\u{1D152}\n\
MUSICAL SYMBOL MOON NOTEHEAD BLACK:\u{1D153}\n\
MUSICAL SYMBOL TRIANGLE-ROUND NOTEHEAD DOWN WHITE:\u{1D154}\n\
MUSICAL SYMBOL TRIANGLE-ROUND NOTEHEAD DOWN BLACK:\u{1D155}\n\
MUSICAL SYMBOL PARENTHESIS NOTEHEAD:\u{1D156}\n\
MUSICAL SYMBOL VOID NOTEHEAD:\u{1D157}\n\
MUSICAL SYMBOL NOTEHEAD BLACK:\u{1D158}\n\
MUSICAL SYMBOL NULL NOTEHEAD:\u{1D159}\n\
MUSICAL SYMBOL CLUSTER NOTEHEAD WHITE:\u{1D15A}\n\
MUSICAL SYMBOL CLUSTER NOTEHEAD BLACK:\u{1D15B}\n\
MUSICAL SYMBOL BREVE:\u{1D15C}\n\
MUSICAL SYMBOL WHOLE NOTE:\u{1D15D}\n\
MUSICAL SYMBOL HALF NOTE:\u{1D15E}\n\
MUSICAL SYMBOL QUARTER NOTE:\u{1D15F}\n\
MUSICAL SYMBOL EIGHTH NOTE:\u{1D160}\n\
MUSICAL SYMBOL SIXTEENTH NOTE:\u{1D161}\n\
MUSICAL SYMBOL THIRTY-SECOND NOTE:\u{1D162}\n\
MUSICAL SYMBOL SIXTY-FOURTH NOTE:\u{1D163}\n\
MUSICAL SYMBOL ONE HUNDRED TWENTY-EIGHTH NOTE:\u{1D164}\n\
MUSICAL SYMBOL COMBINING STEM:\u{1D165}\n\
MUSICAL SYMBOL COMBINING SPRECHGESANG STEM:\u{1D166}\n\
MUSICAL SYMBOL COMBINING TREMOLO-1:\u{1D167}\n\
MUSICAL SYMBOL COMBINING TREMOLO-2:\u{1D168}\n\
MUSICAL SYMBOL COMBINING TREMOLO-3:\u{1D169}\n\
MUSICAL SYMBOL FINGERED TREMOLO-1:\u{1D16A}\n\
MUSICAL SYMBOL FINGERED TREMOLO-2:\u{1D16B}\n\
MUSICAL SYMBOL FINGERED TREMOLO-3:\u{1D16C}\n\
MUSICAL SYMBOL COMBINING AUGMENTATION DOT:\u{1D16D}\n\
MUSICAL SYMBOL COMBINING FLAG-1:\u{1D16E}\n\
MUSICAL SYMBOL COMBINING FLAG-2:\u{1D16F}\n\
MUSICAL SYMBOL COMBINING FLAG-3:\u{1D170}\n\
MUSICAL SYMBOL COMBINING FLAG-4:\u{1D171}\n\
MUSICAL SYMBOL COMBINING FLAG-5:\u{1D172}\n\
MUSICAL SYMBOL BEGIN BEAM:\u{1D173}\n\
MUSICAL SYMBOL END BEAM:\u{1D174}\n\
MUSICAL SYMBOL BEGIN TIE:\u{1D175}\n\
MUSICAL SYMBOL END TIE:\u{1D176}\n\
MUSICAL SYMBOL BEGIN SLUR:\u{1D177}\n\
MUSICAL SYMBOL END SLUR:\u{1D178}\n\
MUSICAL SYMBOL BEGIN PHRASE:\u{1D179}\n\
MUSICAL SYMBOL END PHRASE:\u{1D17A}\n\
MUSICAL SYMBOL COMBINING ACCENT:\u{1D17B}\n\
MUSICAL SYMBOL COMBINING STACCATO:\u{1D17C}\n\
MUSICAL SYMBOL COMBINING TENUTO:\u{1D17D}\n\
MUSICAL SYMBOL COMBINING STACCATISSIMO:\u{1D17E}\n\
MUSICAL SYMBOL COMBINING MARCATO:\u{1D17F}\n\
MUSICAL SYMBOL COMBINING MARCATO-STACCATO:\u{1D180}\n\
MUSICAL SYMBOL COMBINING ACCENT-STACCATO:\u{1D181}\n\
MUSICAL SYMBOL COMBINING LOURE:\u{1D182}\n\
MUSICAL SYMBOL ARPEGGIATO UP:\u{1D183}\n\
MUSICAL SYMBOL ARPEGGIATO DOWN:\u{1D184}\n\
MUSICAL SYMBOL COMBINING DOIT:\u{1D185}\n\
MUSICAL SYMBOL COMBINING RIP:\u{1D186}\n\
MUSICAL SYMBOL COMBINING FLIP:\u{1D187}\n\
MUSICAL SYMBOL COMBINING SMEAR:\u{1D188}\n\
MUSICAL SYMBOL COMBINING BEND:\u{1D189}\n\
MUSICAL SYMBOL COMBINING DOUBLE TONGUE:\u{1D18A}\n\
MUSICAL SYMBOL COMBINING TRIPLE TONGUE:\u{1D18B}\n\
MUSICAL SYMBOL RINFORZANDO:\u{1D18C}\n\
MUSICAL SYMBOL SUBITO:\u{1D18D}\n\
MUSICAL SYMBOL Z:\u{1D18E}\n\
MUSICAL SYMBOL PIANO:\u{1D18F}\n\
MUSICAL SYMBOL MEZZO:\u{1D190}\n\
MUSICAL SYMBOL FORTE:\u{1D191}\n\
MUSICAL SYMBOL CRESCENDO:\u{1D192}\n\
MUSICAL SYMBOL DECRESCENDO:\u{1D193}\n\
MUSICAL SYMBOL GRACE NOTE SLASH:\u{1D194}\n";

pub const NAMES_69: &'static str = "MUSICAL SYMBOL GRACE NOTE NO SLASH:\u{1D195}\n\
MUSICAL SYMBOL TR:\u{1D196}\n\
MUSICAL SYMBOL TURN:\u{1D197}\n\
MUSICAL SYMBOL INVERTED TURN:\u{1D198}\n\
MUSICAL SYMBOL TURN SLASH:\u{1D199}\n\
MUSICAL SYMBOL TURN UP:\u{1D19A}\n\
MUSICAL SYMBOL ORNAMENT STROKE-1:\u{1D19B}\n\
MUSICAL SYMBOL ORNAMENT STROKE-2:\u{1D19C}\n\
MUSICAL SYMBOL ORNAMENT STROKE-3:\u{1D19D}\n\
MUSICAL SYMBOL ORNAMENT STROKE-4:\u{1D19E}\n\
MUSICAL SYMBOL ORNAMENT STROKE-5:\u{1D19F}\n\
MUSICAL SYMBOL ORNAMENT STROKE-6:\u{1D1A0}\n\
MUSICAL SYMBOL ORNAMENT STROKE-7:\u{1D1A1}\n\
MUSICAL SYMBOL ORNAMENT STROKE-8:\u{1D1A2}\n\
MUSICAL SYMBOL ORNAMENT STROKE-9:\u{1D1A3}\n\
MUSICAL SYMBOL ORNAMENT STROKE-10:\u{1D1A4}\n\
MUSICAL SYMBOL ORNAMENT STROKE-11:\u{1D1A5}\n\
MUSICAL SYMBOL HAUPTSTIMME:\u{1D1A6}\n\
MUSICAL SYMBOL NEBENSTIMME:\u{1D1A7}\n\
MUSICAL SYMBOL END OF STIMME:\u{1D1A8}\n\
MUSICAL SYMBOL DEGREE SLASH:\u{1D1A9}\n\
MUSICAL SYMBOL COMBINING DOWN BOW:\u{1D1AA}\n\
MUSICAL SYMBOL COMBINING UP BOW:\u{1D1AB}\n\
MUSICAL SYMBOL COMBINING HARMONIC:\u{1D1AC}\n\
MUSICAL SYMBOL COMBINING SNAP PIZZICATO:\u{1D1AD}\n\
MUSICAL SYMBOL PEDAL MARK:\u{1D1AE}\n\
MUSICAL SYMBOL PEDAL UP MARK:\u{1D1AF}\n\
MUSICAL SYMBOL HALF PEDAL MARK:\u{1D1B0}\n\
MUSICAL SYMBOL GLISSANDO UP:\u{1D1B1}\n\
MUSICAL SYMBOL GLISSANDO DOWN:\u{1D1B2}\n\
MUSICAL SYMBOL WITH FINGERNAILS:\u{1D1B3}\n\
MUSICAL SYMBOL DAMP:\u{1D1B4}\n\
MUSICAL SYMBOL DAMP ALL:\u{1D1B5}\n\
MUSICAL SYMBOL MAXIMA:\u{1D1B6}\n\
MUSICAL SYMBOL LONGA:\u{1D1B7}\n\
MUSICAL SYMBOL BREVIS:\u{1D1B8}\n\
MUSICAL SYMBOL SEMIBREVIS WHITE:\u{1D1B9}\n\
MUSICAL SYMBOL SEMIBREVIS BLACK:\u{1D1BA}\n\
MUSICAL SYMBOL MINIMA:\u{1D1BB}\n\
MUSICAL SYMBOL MINIMA BLACK:\u{1D1BC}\n\
MUSICAL SYMBOL SEMIMINIMA WHITE:\u{1D1BD}\n\
MUSICAL SYMBOL SEMIMINIMA BLACK:\u{1D1BE}\n\
MUSICAL SYMBOL FUSA WHITE:\u{1D1BF}\n\
MUSICAL SYMBOL FUSA BLACK:\u{1D1C0}\n\
MUSICAL SYMBOL LONGA PERFECTA REST:\u{1D1C1}\n\
MUSICAL SYMBOL LONGA IMPERFECTA REST:\u{1D1C2}\n\
MUSICAL SYMBOL BREVIS REST:\u{1D1C3}\n\
MUSICAL SYMBOL SEMIBREVIS REST:\u{1D1C4}\n\
MUSICAL SYMBOL MINIMA REST:\u{1D1C5}\n\
MUSICAL SYMBOL SEMIMINIMA REST:\u{1D1C6}\n\
MUSICAL SYMBOL TEMPUS PERFECTUM CUM PROLATIONE PERFECTA:\u{1D1C7}\n\
MUSICAL SYMBOL TEMPUS PERFECTUM CUM PROLATIONE IMPERFECTA:\u{1D1C8}\n\
MUSICAL SYMBOL TEMPUS PERFECTUM CUM PROLATIONE PERFECTA DIMINUTION-1:\u{1D1C9}\n\
MUSICAL SYMBOL TEMPUS IMPERFECTUM CUM PROLATIONE PERFECTA:\u{1D1CA}\n\
MUSICAL SYMBOL TEMPUS IMPERFECTUM CUM PROLATIONE IMPERFECTA:\u{1D1CB}\n\
MUSICAL SYMBOL TEMPUS IMPERFECTUM CUM PROLATIONE IMPERFECTA DIMINUTION-1:\u{1D1CC}\n\
MUSICAL SYMBOL TEMPUS IMPERFECTUM CUM PROLATIONE IMPERFECTA DIMINUTION-2:\u{1D1CD}\n\
MUSICAL SYMBOL TEMPUS IMPERFECTUM CUM PROLATIONE IMPERFECTA DIMINUTION-3:\u{1D1CE}\n\
MUSICAL SYMBOL CROIX:\u{1D1CF}\n\
MUSICAL SYMBOL GREGORIAN C CLEF:\u{1D1D0}\n\
MUSICAL SYMBOL GREGORIAN F CLEF:\u{1D1D1}\n\
MUSICAL SYMBOL SQUARE B:\u{1D1D2}\n\
MUSICAL SYMBOL VIRGA:\u{1D1D3}\n\
MUSICAL SYMBOL PODATUS:\u{1D1D4}\n\
MUSICAL SYMBOL CLIVIS:\u{1D1D5}\n\
MUSICAL SYMBOL SCANDICUS:\u{1D1D6}\n\
MUSICAL SYMBOL CLIMACUS:\u{1D1D7}\n\
MUSICAL SYMBOL TORCULUS:\u{1D1D8}\n\
MUSICAL SYMBOL PORRECTUS:\u{1D1D9}\n\
MUSICAL SYMBOL PORRECTUS FLEXUS:\u{1D1DA}\n\
MUSICAL SYMBOL SCANDICUS FLEXUS:\u{1D1DB}\n\
MUSICAL SYMBOL TORCULUS RESUPINUS:\u{1D1DC}\n\
MUSICAL SYMBOL PES SUBPUNCTIS:\u{1D1DD}\n\
MUSICAL SYMBOL KIEVAN C CLEF:\u{1D1DE}\n\
MUSICAL SYMBOL KIEVAN END OF PIECE:\u{1D1DF}\n\
MUSICAL SYMBOL KIEVAN FINAL NOTE:\u{1D1E0}\n\
MUSICAL SYMBOL KIEVAN RECITATIVE MARK:\u{1D1E1}\n\
MUSICAL SYMBOL KIEVAN WHOLE NOTE:\u{1D1E2}\n\
MUSICAL SYMBOL KIEVAN HALF NOTE:\u{1D1E3}\n\
MUSICAL SYMBOL KIEVAN QUARTER NOTE STEM DOWN:\u{1D1E4}\n\
MUSICAL SYMBOL KIEVAN QUARTER NOTE STEM UP:\u{1D1E5}\n\
MUSICAL SYMBOL KIEVAN EIGHTH NOTE STEM DOWN:\u{1D1E6}\n\
MUSICAL SYMBOL KIEVAN EIGHTH NOTE STEM UP:\u{1D1E7}\n\
MUSICAL SYMBOL KIEVAN FLAT SIGN:\u{1D1E8}\n\
MUSICAL SYMBOL SORI:\u{1D1E9}\n\
MUSICAL SYMBOL KORON:\u{1D1EA}\n\
GREEK VOCAL NOTATION SYMBOL-1:\u{1D200}\n\
GREEK VOCAL NOTATION SYMBOL-2:\u{1D201}\n\
GREEK VOCAL NOTATION SYMBOL-3:\u{1D202}\n\
GREEK VOCAL NOTATION SYMBOL-4:\u{1D203}\n\
GREEK VOCAL NOTATION SYMBOL-5:\u{1D204}\n\
GREEK VOCAL NOTATION SYMBOL-6:\u{1D205}\n\
GREEK VOCAL NOTATION SYMBOL-7:\u{1D206}\n\
GREEK VOCAL NOTATION SYMBOL-8:\u{1D207}\n\
GREEK VOCAL NOTATION SYMBOL-9:\u{1D208}\n\
GREEK VOCAL NOTATION SYMBOL-10:\u{1D209}\n\
GREEK VOCAL NOTATION SYMBOL-11:\u{1D20A}\n\
GREEK VOCAL NOTATION SYMBOL-12:\u{1D20B}\n\
GREEK VOCAL NOTATION SYMBOL-13:\u{1D20C}\n\
GREEK VOCAL NOTATION SYMBOL-14:\u{1D20D}\n\
GREEK VOCAL NOTATION SYMBOL-15:\u{1D20E}\n\
GREEK VOCAL NOTATION SYMBOL-16:\u{1D20F}\n\
GREEK VOCAL NOTATION SYMBOL-17:\u{1D210}\n\
GREEK VOCAL NOTATION SYMBOL-18:\u{1D211}\n\
GREEK VOCAL NOTATION SYMBOL-19:\u{1D212}\n\
GREEK VOCAL NOTATION SYMBOL-20:\u{1D213}\n\
GREEK VOCAL NOTATION SYMBOL-21:\u{1D214}\n\
GREEK VOCAL NOTATION SYMBOL-22:\u{1D215}\n\
GREEK VOCAL NOTATION SYMBOL-23:\u{1D216}\n\
GREEK VOCAL NOTATION SYMBOL-24:\u{1D217}\n\
GREEK VOCAL NOTATION SYMBOL-50:\u{1D218}\n\
GREEK VOCAL NOTATION SYMBOL-51:\u{1D219}\n\
GREEK VOCAL NOTATION SYMBOL-52:\u{1D21A}\n\
GREEK VOCAL NOTATION SYMBOL-53:\u{1D21B}\n\
GREEK VOCAL NOTATION SYMBOL-54:\u{1D21C}\n\
GREEK INSTRUMENTAL NOTATION SYMBOL-1:\u{1D21D}\n\
GREEK INSTRUMENTAL NOTATION SYMBOL-2:\u{1D21E}\n\
GREEK INSTRUMENTAL NOTATION SYMBOL-4:\u{1D21F}\n\
GREEK INSTRUMENTAL NOTATION SYMBOL-5:\u{1D220}\n\
GREEK INSTRUMENTAL NOTATION SYMBOL-7:\u{1D221}\n\
GREEK INSTRUMENTAL NOTATION SYMBOL-8:\u{1D222}\n\
GREEK INSTRUMENTAL NOTATION SYMBOL-11:\u{1D223}\n\
GREEK INSTRUMENTAL NOTATION SYMBOL-12:\u{1D224}\n\
GREEK INSTRUMENTAL NOTATION SYMBOL-13:\u{1D225}\n\
GREEK INSTRUMENTAL NOTATION SYMBOL-14:\u{1D226}\n\
GREEK INSTRUMENTAL NOTATION SYMBOL-17:\u{1D227}\n\
GREEK INSTRUMENTAL NOTATION SYMBOL-18:\u{1D228}\n\
GREEK INSTRUMENTAL NOTATION SYMBOL-19:\u{1D229}\n\
GREEK INSTRUMENTAL NOTATION SYMBOL-23:\u{1D22A}\n\
GREEK INSTRUMENTAL NOTATION SYMBOL-24:\u{1D22B}\n\
GREEK INSTRUMENTAL NOTATION SYMBOL-25:\u{1D22C}\n\
GREEK INSTRUMENTAL NOTATION SYMBOL-26:\u{1D22D}\n\
GREEK INSTRUMENTAL NOTATION SYMBOL-27:\u{1D22E}\n\
GREEK INSTRUMENTAL NOTATION SYMBOL-29:\u{1D22F}\n\
GREEK INSTRUMENTAL NOTATION SYMBOL-30:\u{1D230}\n\
GREEK INSTRUMENTAL NOTATION SYMBOL-32:\u{1D231}\n\
GREEK INSTRUMENTAL NOTATION SYMBOL-36:\u{1D232}\n\
GREEK INSTRUMENTAL NOTATION SYMBOL-37:\u{1D233}\n\
GREEK INSTRUMENTAL NOTATION SYMBOL-38:\u{1D234}\n\
GREEK INSTRUMENTAL NOTATION SYMBOL-39:\u{1D235}\n\
GREEK INSTRUMENTAL NOTATION SYMBOL-40:\u{1D236}\n\
GREEK INSTRUMENTAL NOTATION SYMBOL-42:\u{1D237}\n\
GREEK INSTRUMENTAL NOTATION SYMBOL-43:\u{1D238}\n\
GREEK INSTRUMENTAL NOTATION SYMBOL-45:\u{1D239}\n\
GREEK INSTRUMENTAL NOTATION SYMBOL-47:\u{1D23A}\n\
GREEK INSTRUMENTAL NOTATION SYMBOL-48:\u{1D23B}\n\
GREEK INSTRUMENTAL NOTATION SYMBOL-49:\u{1D23C}\n\
GREEK INSTRUMENTAL NOTATION SYMBOL-50:\u{1D23D}\n\
GREEK INSTRUMENTAL NOTATION SYMBOL-51:\u{1D23E}\n\
GREEK INSTRUMENTAL NOTATION SYMBOL-52:\u{1D23F}\n\
GREEK INSTRUMENTAL NOTATION SYMBOL-53:\u{1D240}\n\
GREEK INSTRUMENTAL NOTATION SYMBOL-54:\u{1D241}\n\
COMBINING GREEK MUSICAL TRISEME:\u{1D242}\n\
COMBINING GREEK MUSICAL TETRASEME:\u{1D243}\n\
COMBINING GREEK MUSICAL PENTASEME:\u{1D244}\n\
GREEK MUSICAL LEIMMA:\u{1D245}\n\
MAYAN NUMERAL ZERO:\u{1D2E0}\n\
MAYAN NUMERAL ONE:\u{1D2E1}\n\
MAYAN NUMERAL TWO:\u{1D2E2}\n\
MAYAN NUMERAL THREE:\u{1D2E3}\n\
MAYAN NUMERAL FOUR:\u{1D2E4}\n\
MAYAN NUMERAL FIVE:\u{1D2E5}\n\
MAYAN NUMERAL SIX:\u{1D2E6}\n\
MAYAN NUMERAL SEVEN:\u{1D2E7}\n\
MAYAN NUMERAL EIGHT:\u{1D2E8}\n\
MAYAN NUMERAL NINE:\u{1D2E9}\n\
MAYAN NUMERAL TEN:\u{1D2EA}\n\
MAYAN NUMERAL ELEVEN:\u{1D2EB}\n\
MAYAN NUMERAL TWELVE:\u{1D2EC}\n\
MAYAN NUMERAL THIRTEEN:\u{1D2ED}\n\
MAYAN NUMERAL FOURTEEN:\u{1D2EE}\n\
MAYAN NUMERAL FIFTEEN:\u{1D2EF}\n\
MAYAN NUMERAL SIXTEEN:\u{1D2F0}\n\
MAYAN NUMERAL SEVENTEEN:\u{1D2F1}\n\
MAYAN NUMERAL EIGHTEEN:\u{1D2F2}\n\
MAYAN NUMERAL NINETEEN:\u{1D2F3}\n\
MONOGRAM FOR EARTH:\u{1D300}\n\
DIGRAM FOR HEAVENLY EARTH:\u{1D301}\n\
DIGRAM FOR HUMAN EARTH:\u{1D302}\n\
DIGRAM FOR EARTHLY HEAVEN:\u{1D303}\n\
DIGRAM FOR EARTHLY HUMAN:\u{1D304}\n\
DIGRAM FOR EARTH:\u{1D305}\n\
TETRAGRAM FOR CENTRE:\u{1D306}\n\
TETRAGRAM FOR FULL CIRCLE:\u{1D307}\n\
TETRAGRAM FOR MIRED:\u{1D308}\n\
TETRAGRAM FOR BARRIER:\u{1D309}\n\
TETRAGRAM FOR KEEPING SMALL:\u{1D30A}\n\
TETRAGRAM FOR CONTRARIETY:\u{1D30B}\n\
TETRAGRAM FOR ASCENT:\u{1D30C}\n\
TETRAGRAM FOR OPPOSITION:\u{1D30D}\n\
TETRAGRAM FOR BRANCHING OUT:\u{1D30E}\n\
TETRAGRAM FOR DEFECTIVENESS OR DISTORTION:\u{1D30F}\n\
TETRAGRAM FOR DIVERGENCE:\u{1D310}\n\
TETRAGRAM FOR YOUTHFULNESS:\u{1D311}\n\
TETRAGRAM FOR INCREASE:\u{1D312}\n\
TETRAGRAM FOR PENETRATION:\u{1D313}\n\
TETRAGRAM FOR REACH:\u{1D314}\n\
TETRAGRAM FOR CONTACT:\u{1D315}\n\
TETRAGRAM FOR HOLDING BACK:\u{1D316}\n\
TETRAGRAM FOR WAITING:\u{1D317}\n\
TETRAGRAM FOR FOLLOWING:\u{1D318}\n\
TETRAGRAM FOR ADVANCE:\u{1D319}\n\
TETRAGRAM FOR RELEASE:\u{1D31A}\n\
TETRAGRAM FOR RESISTANCE:\u{1D31B}\n\
TETRAGRAM FOR EASE:\u{1D31C}\n\
TETRAGRAM FOR JOY:\u{1D31D}\n\
TETRAGRAM FOR CONTENTION:\u{1D31E}\n\
TETRAGRAM FOR ENDEAVOUR:\u{1D31F}\n\
TETRAGRAM FOR DUTIES:\u{1D320}\n\
TETRAGRAM FOR CHANGE:\u{1D321}\n\
TETRAGRAM FOR DECISIVENESS:\u{1D322}\n\
TETRAGRAM FOR BOLD RESOLUTION:\u{1D323}\n\
TETRAGRAM FOR PACKING:\u{1D324}\n\
TETRAGRAM FOR LEGION:\u{1D325}\n\
TETRAGRAM FOR CLOSENESS:\u{1D326}\n\
TETRAGRAM FOR KINSHIP:\u{1D327}\n\
TETRAGRAM FOR GATHERING:\u{1D328}\n\
TETRAGRAM FOR STRENGTH:\u{1D329}\n\
TETRAGRAM FOR PURITY:\u{1D32A}\n\
TETRAGRAM FOR FULLNESS:\u{1D32B}\n\
TETRAGRAM FOR RESIDENCE:\u{1D32C}\n\
TETRAGRAM FOR LAW OR MODEL:\u{1D32D}\n\
TETRAGRAM FOR RESPONSE:\u{1D32E}\n\
TETRAGRAM FOR GOING TO MEET:\u{1D32F}\n\
TETRAGRAM FOR ENCOUNTERS:\u{1D330}\n\
TETRAGRAM FOR STOVE:\u{1D331}\n\
TETRAGRAM FOR GREATNESS:\u{1D332}\n\
TETRAGRAM FOR ENLARGEMENT:\u{1D333}\n\
TETRAGRAM FOR PATTERN:\u{1D334}\n\
TETRAGRAM FOR RITUAL:\u{1D335}\n\
TETRAGRAM FOR FLIGHT:\u{1D336}\n\
TETRAGRAM FOR VASTNESS OR WASTING:\u{1D337}\n\
TETRAGRAM FOR CONSTANCY:\u{1D338}\n\
TETRAGRAM FOR MEASURE:\u{1D339}\n\
TETRAGRAM FOR ETERNITY:\u{1D33A}\n\
TETRAGRAM FOR UNITY:\u{1D33B}\n\
TETRAGRAM FOR DIMINISHMENT:\u{1D33C}\n\
TETRAGRAM FOR CLOSED MOUTH:\u{1D33D}\n\
TETRAGRAM FOR GUARDEDNESS:\u{1D33E}\n\
TETRAGRAM FOR GATHERING IN:\u{1D33F}\n\
TETRAGRAM FOR MASSING:\u{1D340}\n\
TETRAGRAM FOR ACCUMULATION:\u{1D341}\n\
TETRAGRAM FOR EMBELLISHMENT:\u{1D342}\n\
TETRAGRAM FOR DOUBT:\u{1D343}\n\
TETRAGRAM FOR WATCH:\u{1D344}\n\
TETRAGRAM FOR SINKING:\u{1D345}\n\
TETRAGRAM FOR INNER:\u{1D346}\n\
TETRAGRAM FOR DEPARTURE:\u{1D347}\n\
TETRAGRAM FOR DARKENING:\u{1D348}\n\
TETRAGRAM FOR DIMMING:\u{1D349}\n\
TETRAGRAM FOR EXHAUSTION:\u{1D34A}\n\
TETRAGRAM FOR SEVERANCE:\u{1D34B}\n\
TETRAGRAM FOR STOPPAGE:\u{1D34C}\n\
TETRAGRAM FOR HARDNESS:\u{1D34D}\n\
TETRAGRAM FOR COMPLETION:\u{1D34E}\n\
TETRAGRAM FOR CLOSURE:\u{1D34F}\n\
TETRAGRAM FOR FAILURE:\u{1D350}\n\
TETRAGRAM FOR AGGRAVATION:\u{1D351}\n\
TETRAGRAM FOR COMPLIANCE:\u{1D352}\n\
TETRAGRAM FOR ON THE VERGE:\u{1D353}\n\
TETRAGRAM FOR DIFFICULTIES:\u{1D354}\n\
TETRAGRAM FOR LABOURING:\u{1D355}\n\
TETRAGRAM FOR FOSTERING:\u{1D356}\n\
COUNTING ROD UNIT DIGIT ONE:\u{1D360}\n\
COUNTING ROD UNIT DIGIT TWO:\u{1D361}\n\
COUNTING ROD UNIT DIGIT THREE:\u{1D362}\n\
COUNTING ROD UNIT DIGIT FOUR:\u{1D363}\n\
COUNTING ROD UNIT DIGIT FIVE:\u{1D364}\n\
COUNTING ROD UNIT DIGIT SIX:\u{1D365}\n\
COUNTING ROD UNIT DIGIT SEVEN:\u{1D366}\n\
COUNTING ROD UNIT DIGIT EIGHT:\u{1D367}\n\
COUNTING ROD UNIT DIGIT NINE:\u{1D368}\n\
COUNTING ROD TENS DIGIT ONE:\u{1D369}\n\
COUNTING ROD TENS DIGIT TWO:\u{1D36A}\n\
COUNTING ROD TENS DIGIT THREE:\u{1D36B}\n\
COUNTING ROD TENS DIGIT FOUR:\u{1D36C}\n\
COUNTING ROD TENS DIGIT FIVE:\u{1D36D}\n\
COUNTING ROD TENS DIGIT SIX:\u{1D36E}\n\
COUNTING ROD TENS DIGIT SEVEN:\u{1D36F}\n\
COUNTING ROD TENS DIGIT EIGHT:\u{1D370}\n\
COUNTING ROD TENS DIGIT NINE:\u{1D371}\n\
IDEOGRAPHIC TALLY MARK ONE:\u{1D372}\n\
IDEOGRAPHIC TALLY MARK TWO:\u{1D373}\n\
IDEOGRAPHIC TALLY MARK THREE:\u{1D374}\n\
IDEOGRAPHIC TALLY MARK FOUR:\u{1D375}\n\
IDEOGRAPHIC TALLY MARK FIVE:\u{1D376}\n\
TALLY MARK ONE:\u{1D377}\n\
TALLY MARK FIVE:\u{1D378}\n\
MATHEMATICAL BOLD CAPITAL A:\u{1D400}\n\
MATHEMATICAL BOLD CAPITAL B:\u{1D401}\n\
MATHEMATICAL BOLD CAPITAL C:\u{1D402}\n\
MATHEMATICAL BOLD CAPITAL D:\u{1D403}\n\
MATHEMATICAL BOLD CAPITAL E:\u{1D404}\n\
MATHEMATICAL BOLD CAPITAL F:\u{1D405}\n\
MATHEMATICAL BOLD CAPITAL G:\u{1D406}\n\
MATHEMATICAL BOLD CAPITAL H:\u{1D407}\n\
MATHEMATICAL BOLD CAPITAL I:\u{1D408}\n\
MATHEMATICAL BOLD CAPITAL J:\u{1D409}\n\
MATHEMATICAL BOLD CAPITAL K:\u{1D40A}\n\
MATHEMATICAL BOLD CAPITAL L:\u{1D40B}\n\
MATHEMATICAL BOLD CAPITAL M:\u{1D40C}\n\
MATHEMATICAL BOLD CAPITAL N:\u{1D40D}\n\
MATHEMATICAL BOLD CAPITAL O:\u{1D40E}\n\
MATHEMATICAL BOLD CAPITAL P:\u{1D40F}\n\
MATHEMATICAL BOLD CAPITAL Q:\u{1D410}\n\
MATHEMATICAL BOLD CAPITAL R:\u{1D411}\n\
MATHEMATICAL BOLD CAPITAL S:\u{1D412}\n\
MATHEMATICAL BOLD CAPITAL T:\u{1D413}\n\
MATHEMATICAL BOLD CAPITAL U:\u{1D414}\n\
MATHEMATICAL BOLD CAPITAL V:\u{1D415}\n\
MATHEMATICAL BOLD CAPITAL W:\u{1D416}\n\
MATHEMATICAL BOLD CAPITAL X:\u{1D417}\n\
MATHEMATICAL BOLD CAPITAL Y:\u{1D418}\n\
MATHEMATICAL BOLD CAPITAL Z:\u{1D419}\n\
MATHEMATICAL BOLD SMALL A:\u{1D41A}\n\
MATHEMATICAL BOLD SMALL B:\u{1D41B}\n\
MATHEMATICAL BOLD SMALL C:\u{1D41C}\n\
MATHEMATICAL BOLD SMALL D:\u{1D41D}\n\
MATHEMATICAL BOLD SMALL E:\u{1D41E}\n\
MATHEMATICAL BOLD SMALL F:\u{1D41F}\n\
MATHEMATICAL BOLD SMALL G:\u{1D420}\n\
MATHEMATICAL BOLD SMALL H:\u{1D421}\n\
MATHEMATICAL BOLD SMALL I:\u{1D422}\n\
MATHEMATICAL BOLD SMALL J:\u{1D423}\n\
MATHEMATICAL BOLD SMALL K:\u{1D424}\n\
MATHEMATICAL BOLD SMALL L:\u{1D425}\n\
MATHEMATICAL BOLD SMALL M:\u{1D426}\n\
MATHEMATICAL BOLD SMALL N:\u{1D427}\n\
MATHEMATICAL BOLD SMALL O:\u{1D428}\n\
MATHEMATICAL BOLD SMALL P:\u{1D429}\n\
MATHEMATICAL BOLD SMALL Q:\u{1D42A}\n\
MATHEMATICAL BOLD SMALL R:\u{1D42B}\n\
MATHEMATICAL BOLD SMALL S:\u{1D42C}\n\
MATHEMATICAL BOLD SMALL T:\u{1D42D}\n\
MATHEMATICAL BOLD SMALL U:\u{1D42E}\n\
MATHEMATICAL BOLD SMALL V:\u{1D42F}\n\
MATHEMATICAL BOLD SMALL W:\u{1D430}\n\
MATHEMATICAL BOLD SMALL X:\u{1D431}\n\
MATHEMATICAL BOLD SMALL Y:\u{1D432}\n\
MATHEMATICAL BOLD SMALL Z:\u{1D433}\n\
MATHEMATICAL ITALIC CAPITAL A:\u{1D434}\n\
MATHEMATICAL ITALIC CAPITAL B:\u{1D435}\n\
MATHEMATICAL ITALIC CAPITAL C:\u{1D436}\n\
MATHEMATICAL ITALIC CAPITAL D:\u{1D437}\n\
MATHEMATICAL ITALIC CAPITAL E:\u{1D438}\n\
MATHEMATICAL ITALIC CAPITAL F:\u{1D439}\n\
MATHEMATICAL ITALIC CAPITAL G:\u{1D43A}\n\
MATHEMATICAL ITALIC CAPITAL H:\u{1D43B}\n\
MATHEMATICAL ITALIC CAPITAL I:\u{1D43C}\n\
MATHEMATICAL ITALIC CAPITAL J:\u{1D43D}\n\
MATHEMATICAL ITALIC CAPITAL K:\u{1D43E}\n\
MATHEMATICAL ITALIC CAPITAL L:\u{1D43F}\n\
MATHEMATICAL ITALIC CAPITAL M:\u{1D440}\n\
MATHEMATICAL ITALIC CAPITAL N:\u{1D441}\n\
MATHEMATICAL ITALIC CAPITAL O:\u{1D442}\n\
MATHEMATICAL ITALIC CAPITAL P:\u{1D443}\n\
MATHEMATICAL ITALIC CAPITAL Q:\u{1D444}\n";

pub const NAMES_70: &'static str = "MATHEMATICAL ITALIC CAPITAL R:\u{1D445}\n\
MATHEMATICAL ITALIC CAPITAL S:\u{1D446}\n\
MATHEMATICAL ITALIC CAPITAL T:\u{1D447}\n\
MATHEMATICAL ITALIC CAPITAL U:\u{1D448}\n\
MATHEMATICAL ITALIC CAPITAL V:\u{1D449}\n\
MATHEMATICAL ITALIC CAPITAL W:\u{1D44A}\n\
MATHEMATICAL ITALIC CAPITAL X:\u{1D44B}\n\
MATHEMATICAL ITALIC CAPITAL Y:\u{1D44C}\n\
MATHEMATICAL ITALIC CAPITAL Z:\u{1D44D}\n\
MATHEMATICAL ITALIC SMALL A:\u{1D44E}\n\
MATHEMATICAL ITALIC SMALL B:\u{1D44F}\n\
MATHEMATICAL ITALIC SMALL C:\u{1D450}\n\
MATHEMATICAL ITALIC SMALL D:\u{1D451}\n\
MATHEMATICAL ITALIC SMALL E:\u{1D452}\n\
MATHEMATICAL ITALIC SMALL F:\u{1D453}\n\
MATHEMATICAL ITALIC SMALL G:\u{1D454}\n\
MATHEMATICAL ITALIC SMALL I:\u{1D456}\n\
MATHEMATICAL ITALIC SMALL J:\u{1D457}\n\
MATHEMATICAL ITALIC SMALL K:\u{1D458}\n\
MATHEMATICAL ITALIC SMALL L:\u{1D459}\n\
MATHEMATICAL ITALIC SMALL M:\u{1D45A}\n\
MATHEMATICAL ITALIC SMALL N:\u{1D45B}\n\
MATHEMATICAL ITALIC SMALL O:\u{1D45C}\n\
MATHEMATICAL ITALIC SMALL P:\u{1D45D}\n\
MATHEMATICAL ITALIC SMALL Q:\u{1D45E}\n\
MATHEMATICAL ITALIC SMALL R:\u{1D45F}\n\
MATHEMATICAL ITALIC SMALL S:\u{1D460}\n\
MATHEMATICAL ITALIC SMALL T:\u{1D461}\n\
MATHEMATICAL ITALIC SMALL U:\u{1D462}\n\
MATHEMATICAL ITALIC SMALL V:\u{1D463}\n\
MATHEMATICAL ITALIC SMALL W:\u{1D464}\n\
MATHEMATICAL ITALIC SMALL X:\u{1D465}\n\
MATHEMATICAL ITALIC SMALL Y:\u{1D466}\n\
MATHEMATICAL ITALIC SMALL Z:\u{1D467}\n\
MATHEMATICAL BOLD ITALIC CAPITAL A:\u{1D468}\n\
MATHEMATICAL BOLD ITALIC CAPITAL B:\u{1D469}\n\
MATHEMATICAL BOLD ITALIC CAPITAL C:\u{1D46A}\n\
MATHEMATICAL BOLD ITALIC CAPITAL D:\u{1D46B}\n\
MATHEMATICAL BOLD ITALIC CAPITAL E:\u{1D46C}\n\
MATHEMATICAL BOLD ITALIC CAPITAL F:\u{1D46D}\n\
MATHEMATICAL BOLD ITALIC CAPITAL G:\u{1D46E}\n\
MATHEMATICAL BOLD ITALIC CAPITAL H:\u{1D46F}\n\
MATHEMATICAL BOLD ITALIC CAPITAL I:\u{1D470}\n\
MATHEMATICAL BOLD ITALIC CAPITAL J:\u{1D471}\n\
MATHEMATICAL BOLD ITALIC CAPITAL K:\u{1D472}\n\
MATHEMATICAL BOLD ITALIC CAPITAL L:\u{1D473}\n\
MATHEMATICAL BOLD ITALIC CAPITAL M:\u{1D474}\n\
MATHEMATICAL BOLD ITALIC CAPITAL N:\u{1D475}\n\
MATHEMATICAL BOLD ITALIC CAPITAL O:\u{1D476}\n\
MATHEMATICAL BOLD ITALIC CAPITAL P:\u{1D477}\n\
MATHEMATICAL BOLD ITALIC CAPITAL Q:\u{1D478}\n\
MATHEMATICAL BOLD ITALIC CAPITAL R:\u{1D479}\n\
MATHEMATICAL BOLD ITALIC CAPITAL S:\u{1D47A}\n\
MATHEMATICAL BOLD ITALIC CAPITAL T:\u{1D47B}\n\
MATHEMATICAL BOLD ITALIC CAPITAL U:\u{1D47C}\n\
MATHEMATICAL BOLD ITALIC CAPITAL V:\u{1D47D}\n\
MATHEMATICAL BOLD ITALIC CAPITAL W:\u{1D47E}\n\
MATHEMATICAL BOLD ITALIC CAPITAL X:\u{1D47F}\n\
MATHEMATICAL BOLD ITALIC CAPITAL Y:\u{1D480}\n\
MATHEMATICAL BOLD ITALIC CAPITAL Z:\u{1D481}\n\
MATHEMATICAL BOLD ITALIC SMALL A:\u{1D482}\n\
MATHEMATICAL BOLD ITALIC SMALL B:\u{1D483}\n\
MATHEMATICAL BOLD ITALIC SMALL C:\u{1D484}\n\
MATHEMATICAL BOLD ITALIC SMALL D:\u{1D485}\n\
MATHEMATICAL BOLD ITALIC SMALL E:\u{1D486}\n\
MATHEMATICAL BOLD ITALIC SMALL F:\u{1D487}\n\
MATHEMATICAL BOLD ITALIC SMALL G:\u{1D488}\n\
MATHEMATICAL BOLD ITALIC SMALL H:\u{1D489}\n\
MATHEMATICAL BOLD ITALIC SMALL I:\u{1D48A}\n\
MATHEMATICAL BOLD ITALIC SMALL J:\u{1D48B}\n\
MATHEMATICAL BOLD ITALIC SMALL K:\u{1D48C}\n\
MATHEMATICAL BOLD ITALIC SMALL L:\u{1D48D}\n\
MATHEMATICAL BOLD ITALIC SMALL M:\u{1D48E}\n\
MATHEMATICAL BOLD ITALIC SMALL N:\u{1D48F}\n\
MATHEMATICAL BOLD ITALIC SMALL O:\u{1D490}\n\
MATHEMATICAL BOLD ITALIC SMALL P:\u{1D491}\n\
MATHEMATICAL BOLD ITALIC SMALL Q:\u{1D492}\n\
MATHEMATICAL BOLD ITALIC SMALL R:\u{1D493}\n\
MATHEMATICAL BOLD ITALIC SMALL S:\u{1D494}\n\
MATHEMATICAL BOLD ITALIC SMALL T:\u{1D495}\n\
MATHEMATICAL BOLD ITALIC SMALL U:\u{1D496}\n\
MATHEMATICAL BOLD ITALIC SMALL V:\u{1D497}\n\
MATHEMATICAL BOLD ITALIC SMALL W:\u{1D498}\n\
MATHEMATICAL BOLD ITALIC SMALL X:\u{1D499}\n\
MATHEMATICAL BOLD ITALIC SMALL Y:\u{1D49A}\n\
MATHEMATICAL BOLD ITALIC SMALL Z:\u{1D49B}\n\
MATHEMATICAL SCRIPT CAPITAL A:\u{1D49C}\n\
MATHEMATICAL SCRIPT CAPITAL C:\u{1D49E}\n\
MATHEMATICAL SCRIPT CAPITAL D:\u{1D49F}\n\
MATHEMATICAL SCRIPT CAPITAL G:\u{1D4A2}\n\
MATHEMATICAL SCRIPT CAPITAL J:\u{1D4A5}\n\
MATHEMATICAL SCRIPT CAPITAL K:\u{1D4A6}\n\
MATHEMATICAL SCRIPT CAPITAL N:\u{1D4A9}\n\
MATHEMATICAL SCRIPT CAPITAL O:\u{1D4AA}\n\
MATHEMATICAL SCRIPT CAPITAL P:\u{1D4AB}\n\
MATHEMATICAL SCRIPT CAPITAL Q:\u{1D4AC}\n\
MATHEMATICAL SCRIPT CAPITAL S:\u{1D4AE}\n\
MATHEMATICAL SCRIPT CAPITAL T:\u{1D4AF}\n\
MATHEMATICAL SCRIPT CAPITAL U:\u{1D4B0}\n\
MATHEMATICAL SCRIPT CAPITAL V:\u{1D4B1}\n\
MATHEMATICAL SCRIPT CAPITAL W:\u{1D4B2}\n\
MATHEMATICAL SCRIPT CAPITAL X:\u{1D4B3}\n\
MATHEMATICAL SCRIPT CAPITAL Y:\u{1D4B4}\n\
MATHEMATICAL SCRIPT CAPITAL Z:\u{1D4B5}\n\
MATHEMATICAL SCRIPT SMALL A:\u{1D4B6}\n\
MATHEMATICAL SCRIPT SMALL B:\u{1D4B7}\n\
MATHEMATICAL SCRIPT SMALL C:\u{1D4B8}\n\
MATHEMATICAL SCRIPT SMALL D:\u{1D4B9}\n\
MATHEMATICAL SCRIPT SMALL F:\u{1D4BB}\n\
MATHEMATICAL SCRIPT SMALL H:\u{1D4BD}\n\
MATHEMATICAL SCRIPT SMALL I:\u{1D4BE}\n\
MATHEMATICAL SCRIPT SMALL J:\u{1D4BF}\n\
MATHEMATICAL SCRIPT SMALL K:\u{1D4C0}\n\
MATHEMATICAL SCRIPT SMALL L:\u{1D4C1}\n\
MATHEMATICAL SCRIPT SMALL M:\u{1D4C2}\n\
MATHEMATICAL SCRIPT SMALL N:\u{1D4C3}\n\
MATHEMATICAL SCRIPT SMALL P:\u{1D4C5}\n\
MATHEMATICAL SCRIPT SMALL Q:\u{1D4C6}\n\
MATHEMATICAL SCRIPT SMALL R:\u{1D4C7}\n\
MATHEMATICAL SCRIPT SMALL S:\u{1D4C8}\n\
MATHEMATICAL SCRIPT SMALL T:\u{1D4C9}\n\
MATHEMATICAL SCRIPT SMALL U:\u{1D4CA}\n\
MATHEMATICAL SCRIPT SMALL V:\u{1D4CB}\n\
MATHEMATICAL SCRIPT SMALL W:\u{1D4CC}\n\
MATHEMATICAL SCRIPT SMALL X:\u{1D4CD}\n\
MATHEMATICAL SCRIPT SMALL Y:\u{1D4CE}\n\
MATHEMATICAL SCRIPT SMALL Z:\u{1D4CF}\n\
MATHEMATICAL BOLD SCRIPT CAPITAL A:\u{1D4D0}\n\
MATHEMATICAL BOLD SCRIPT CAPITAL B:\u{1D4D1}\n\
MATHEMATICAL BOLD SCRIPT CAPITAL C:\u{1D4D2}\n\
MATHEMATICAL BOLD SCRIPT CAPITAL D:\u{1D4D3}\n\
MATHEMATICAL BOLD SCRIPT CAPITAL E:\u{1D4D4}\n\
MATHEMATICAL BOLD SCRIPT CAPITAL F:\u{1D4D5}\n\
MATHEMATICAL BOLD SCRIPT CAPITAL G:\u{1D4D6}\n\
MATHEMATICAL BOLD SCRIPT CAPITAL H:\u{1D4D7}\n\
MATHEMATICAL BOLD SCRIPT CAPITAL I:\u{1D4D8}\n\
MATHEMATICAL BOLD SCRIPT CAPITAL J:\u{1D4D9}\n\
MATHEMATICAL BOLD SCRIPT CAPITAL K:\u{1D4DA}\n\
MATHEMATICAL BOLD SCRIPT CAPITAL L:\u{1D4DB}\n\
MATHEMATICAL BOLD SCRIPT CAPITAL M:\u{1D4DC}\n\
MATHEMATICAL BOLD SCRIPT CAPITAL N:\u{1D4DD}\n\
MATHEMATICAL BOLD SCRIPT CAPITAL O:\u{1D4DE}\n\
MATHEMATICAL BOLD SCRIPT CAPITAL P:\u{1D4DF}\n\
MATHEMATICAL BOLD SCRIPT CAPITAL Q:\u{1D4E0}\n\
MATHEMATICAL BOLD SCRIPT CAPITAL R:\u{1D4E1}\n\
MATHEMATICAL BOLD SCRIPT CAPITAL S:\u{1D4E2}\n\
MATHEMATICAL BOLD SCRIPT CAPITAL T:\u{1D4E3}\n\
MATHEMATICAL BOLD SCRIPT CAPITAL U:\u{1D4E4}\n\
MATHEMATICAL BOLD SCRIPT CAPITAL V:\u{1D4E5}\n\
MATHEMATICAL BOLD SCRIPT CAPITAL W:\u{1D4E6}\n\
MATHEMATICAL BOLD SCRIPT CAPITAL X:\u{1D4E7}\n\
MATHEMATICAL BOLD SCRIPT CAPITAL Y:\u{1D4E8}\n\
MATHEMATICAL BOLD SCRIPT CAPITAL Z:\u{1D4E9}\n\
MATHEMATICAL BOLD SCRIPT SMALL A:\u{1D4EA}\n\
MATHEMATICAL BOLD SCRIPT SMALL B:\u{1D4EB}\n\
MATHEMATICAL BOLD SCRIPT SMALL C:\u{1D4EC}\n\
MATHEMATICAL BOLD SCRIPT SMALL D:\u{1D4ED}\n\
MATHEMATICAL BOLD SCRIPT SMALL E:\u{1D4EE}\n\
MATHEMATICAL BOLD SCRIPT SMALL F:\u{1D4EF}\n\
MATHEMATICAL BOLD SCRIPT SMALL G:\u{1D4F0}\n\
MATHEMATICAL BOLD SCRIPT SMALL H:\u{1D4F1}\n\
MATHEMATICAL BOLD SCRIPT SMALL I:\u{1D4F2}\n\
MATHEMATICAL BOLD SCRIPT SMALL J:\u{1D4F3}\n\
MATHEMATICAL BOLD SCRIPT SMALL K:\u{1D4F4}\n\
MATHEMATICAL BOLD SCRIPT SMALL L:\u{1D4F5}\n\
MATHEMATICAL BOLD SCRIPT SMALL M:\u{1D4F6}\n\
MATHEMATICAL BOLD SCRIPT SMALL N:\u{1D4F7}\n\
MATHEMATICAL BOLD SCRIPT SMALL O:\u{1D4F8}\n\
MATHEMATICAL BOLD SCRIPT SMALL P:\u{1D4F9}\n\
MATHEMATICAL BOLD SCRIPT SMALL Q:\u{1D4FA}\n\
MATHEMATICAL BOLD SCRIPT SMALL R:\u{1D4FB}\n\
MATHEMATICAL BOLD SCRIPT SMALL S:\u{1D4FC}\n\
MATHEMATICAL BOLD SCRIPT SMALL T:\u{1D4FD}\n\
MATHEMATICAL BOLD SCRIPT SMALL U:\u{1D4FE}\n\
MATHEMATICAL BOLD SCRIPT SMALL V:\u{1D4FF}\n\
MATHEMATICAL BOLD SCRIPT SMALL W:\u{1D500}\n\
MATHEMATICAL BOLD SCRIPT SMALL X:\u{1D501}\n\
MATHEMATICAL BOLD SCRIPT SMALL Y:\u{1D502}\n\
MATHEMATICAL BOLD SCRIPT SMALL Z:\u{1D503}\n\
MATHEMATICAL FRAKTUR CAPITAL A:\u{1D504}\n\
MATHEMATICAL FRAKTUR CAPITAL B:\u{1D505}\n\
MATHEMATICAL FRAKTUR CAPITAL D:\u{1D507}\n\
MATHEMATICAL FRAKTUR CAPITAL E:\u{1D508}\n\
MATHEMATICAL FRAKTUR CAPITAL F:\u{1D509}\n\
MATHEMATICAL FRAKTUR CAPITAL G:\u{1D50A}\n\
MATHEMATICAL FRAKTUR CAPITAL J:\u{1D50D}\n\
MATHEMATICAL FRAKTUR CAPITAL K:\u{1D50E}\n\
MATHEMATICAL FRAKTUR CAPITAL L:\u{1D50F}\n\
MATHEMATICAL FRAKTUR CAPITAL M:\u{1D510}\n\
MATHEMATICAL FRAKTUR CAPITAL N:\u{1D511}\n\
MATHEMATICAL FRAKTUR CAPITAL O:\u{1D512}\n\
MATHEMATICAL FRAKTUR CAPITAL P:\u{1D513}\n\
MATHEMATICAL FRAKTUR CAPITAL Q:\u{1D514}\n\
MATHEMATICAL FRAKTUR CAPITAL S:\u{1D516}\n\
MATHEMATICAL FRAKTUR CAPITAL T:\u{1D517}\n\
MATHEMATICAL FRAKTUR CAPITAL U:\u{1D518}\n\
MATHEMATICAL FRAKTUR CAPITAL V:\u{1D519}\n\
MATHEMATICAL FRAKTUR CAPITAL W:\u{1D51A}\n\
MATHEMATICAL FRAKTUR CAPITAL X:\u{1D51B}\n\
MATHEMATICAL FRAKTUR CAPITAL Y:\u{1D51C}\n\
MATHEMATICAL FRAKTUR SMALL A:\u{1D51E}\n\
MATHEMATICAL FRAKTUR SMALL B:\u{1D51F}\n\
MATHEMATICAL FRAKTUR SMALL C:\u{1D520}\n\
MATHEMATICAL FRAKTUR SMALL D:\u{1D521}\n\
MATHEMATICAL FRAKTUR SMALL E:\u{1D522}\n\
MATHEMATICAL FRAKTUR SMALL F:\u{1D523}\n\
MATHEMATICAL FRAKTUR SMALL G:\u{1D524}\n\
MATHEMATICAL FRAKTUR SMALL H:\u{1D525}\n\
MATHEMATICAL FRAKTUR SMALL I:\u{1D526}\n\
MATHEMATICAL FRAKTUR SMALL J:\u{1D527}\n\
MATHEMATICAL FRAKTUR SMALL K:\u{1D528}\n\
MATHEMATICAL FRAKTUR SMALL L:\u{1D529}\n\
MATHEMATICAL FRAKTUR SMALL M:\u{1D52A}\n\
MATHEMATICAL FRAKTUR SMALL N:\u{1D52B}\n\
MATHEMATICAL FRAKTUR SMALL O:\u{1D52C}\n\
MATHEMATICAL FRAKTUR SMALL P:\u{1D52D}\n\
MATHEMATICAL FRAKTUR SMALL Q:\u{1D52E}\n\
MATHEMATICAL FRAKTUR SMALL R:\u{1D52F}\n\
MATHEMATICAL FRAKTUR SMALL S:\u{1D530}\n\
MATHEMATICAL FRAKTUR SMALL T:\u{1D531}\n\
MATHEMATICAL FRAKTUR SMALL U:\u{1D532}\n\
MATHEMATICAL FRAKTUR SMALL V:\u{1D533}\n\
MATHEMATICAL FRAKTUR SMALL W:\u{1D534}\n\
MATHEMATICAL FRAKTUR SMALL X:\u{1D535}\n\
MATHEMATICAL FRAKTUR SMALL Y:\u{1D536}\n\
MATHEMATICAL FRAKTUR SMALL Z:\u{1D537}\n\
MATHEMATICAL DOUBLE-STRUCK CAPITAL A:\u{1D538}\n\
MATHEMATICAL DOUBLE-STRUCK CAPITAL B:\u{1D539}\n\
MATHEMATICAL DOUBLE-STRUCK CAPITAL D:\u{1D53B}\n\
MATHEMATICAL DOUBLE-STRUCK CAPITAL E:\u{1D53C}\n\
MATHEMATICAL DOUBLE-STRUCK CAPITAL F:\u{1D53D}\n\
MATHEMATICAL DOUBLE-STRUCK CAPITAL G:\u{1D53E}\n\
MATHEMATICAL DOUBLE-STRUCK CAPITAL I:\u{1D540}\n\
MATHEMATICAL DOUBLE-STRUCK CAPITAL J:\u{1D541}\n\
MATHEMATICAL DOUBLE-STRUCK CAPITAL K:\u{1D542}\n\
MATHEMATICAL DOUBLE-STRUCK CAPITAL L:\u{1D543}\n\
MATHEMATICAL DOUBLE-STRUCK CAPITAL M:\u{1D544}\n\
MATHEMATICAL DOUBLE-STRUCK CAPITAL O:\u{1D546}\n\
MATHEMATICAL DOUBLE-STRUCK CAPITAL S:\u{1D54A}\n\
MATHEMATICAL DOUBLE-STRUCK CAPITAL T:\u{1D54B}\n\
MATHEMATICAL DOUBLE-STRUCK CAPITAL U:\u{1D54C}\n\
MATHEMATICAL DOUBLE-STRUCK CAPITAL V:\u{1D54D}\n\
MATHEMATICAL DOUBLE-STRUCK CAPITAL W:\u{1D54E}\n\
MATHEMATICAL DOUBLE-STRUCK CAPITAL X:\u{1D54F}\n\
MATHEMATICAL DOUBLE-STRUCK CAPITAL Y:\u{1D550}\n\
MATHEMATICAL DOUBLE-STRUCK SMALL A:\u{1D552}\n\
MATHEMATICAL DOUBLE-STRUCK SMALL B:\u{1D553}\n\
MATHEMATICAL DOUBLE-STRUCK SMALL C:\u{1D554}\n\
MATHEMATICAL DOUBLE-STRUCK SMALL D:\u{1D555}\n\
MATHEMATICAL DOUBLE-STRUCK SMALL E:\u{1D556}\n\
MATHEMATICAL DOUBLE-STRUCK SMALL F:\u{1D557}\n\
MATHEMATICAL DOUBLE-STRUCK SMALL G:\u{1D558}\n\
MATHEMATICAL DOUBLE-STRUCK SMALL H:\u{1D559}\n\
MATHEMATICAL DOUBLE-STRUCK SMALL I:\u{1D55A}\n\
MATHEMATICAL DOUBLE-STRUCK SMALL J:\u{1D55B}\n\
MATHEMATICAL DOUBLE-STRUCK SMALL K:\u{1D55C}\n\
MATHEMATICAL DOUBLE-STRUCK SMALL L:\u{1D55D}\n\
MATHEMATICAL DOUBLE-STRUCK SMALL M:\u{1D55E}\n\
MATHEMATICAL DOUBLE-STRUCK SMALL N:\u{1D55F}\n\
MATHEMATICAL DOUBLE-STRUCK SMALL O:\u{1D560}\n\
MATHEMATICAL DOUBLE-STRUCK SMALL P:\u{1D561}\n\
MATHEMATICAL DOUBLE-STRUCK SMALL Q:\u{1D562}\n\
MATHEMATICAL DOUBLE-STRUCK SMALL R:\u{1D563}\n\
MATHEMATICAL DOUBLE-STRUCK SMALL S:\u{1D564}\n\
MATHEMATICAL DOUBLE-STRUCK SMALL T:\u{1D565}\n\
MATHEMATICAL DOUBLE-STRUCK SMALL U:\u{1D566}\n\
MATHEMATICAL DOUBLE-STRUCK SMALL V:\u{1D567}\n\
MATHEMATICAL DOUBLE-STRUCK SMALL W:\u{1D568}\n\
MATHEMATICAL DOUBLE-STRUCK SMALL X:\u{1D569}\n\
MATHEMATICAL DOUBLE-STRUCK SMALL Y:\u{1D56A}\n\
MATHEMATICAL DOUBLE-STRUCK SMALL Z:\u{1D56B}\n\
MATHEMATICAL BOLD FRAKTUR CAPITAL A:\u{1D56C}\n\
MATHEMATICAL BOLD FRAKTUR CAPITAL B:\u{1D56D}\n\
MATHEMATICAL BOLD FRAKTUR CAPITAL C:\u{1D56E}\n\
MATHEMATICAL BOLD FRAKTUR CAPITAL D:\u{1D56F}\n\
MATHEMATICAL BOLD FRAKTUR CAPITAL E:\u{1D570}\n\
MATHEMATICAL BOLD FRAKTUR CAPITAL F:\u{1D571}\n\
MATHEMATICAL BOLD FRAKTUR CAPITAL G:\u{1D572}\n\
MATHEMATICAL BOLD FRAKTUR CAPITAL H:\u{1D573}\n\
MATHEMATICAL BOLD FRAKTUR CAPITAL I:\u{1D574}\n\
MATHEMATICAL BOLD FRAKTUR CAPITAL J:\u{1D575}\n\
MATHEMATICAL BOLD FRAKTUR CAPITAL K:\u{1D576}\n\
MATHEMATICAL BOLD FRAKTUR CAPITAL L:\u{1D577}\n\
MATHEMATICAL BOLD FRAKTUR CAPITAL M:\u{1D578}\n\
MATHEMATICAL BOLD FRAKTUR CAPITAL N:\u{1D579}\n\
MATHEMATICAL BOLD FRAKTUR CAPITAL O:\u{1D57A}\n\
MATHEMATICAL BOLD FRAKTUR CAPITAL P:\u{1D57B}\n\
MATHEMATICAL BOLD FRAKTUR CAPITAL Q:\u{1D57C}\n\
MATHEMATICAL BOLD FRAKTUR CAPITAL R:\u{1D57D}\n\
MATHEMATICAL BOLD FRAKTUR CAPITAL S:\u{1D57E}\n\
MATHEMATICAL BOLD FRAKTUR CAPITAL T:\u{1D57F}\n\
MATHEMATICAL BOLD FRAKTUR CAPITAL U:\u{1D580}\n\
MATHEMATICAL BOLD FRAKTUR CAPITAL V:\u{1D581}\n\
MATHEMATICAL BOLD FRAKTUR CAPITAL W:\u{1D582}\n\
MATHEMATICAL BOLD FRAKTUR CAPITAL X:\u{1D583}\n\
MATHEMATICAL BOLD FRAKTUR CAPITAL Y:\u{1D584}\n\
MATHEMATICAL BOLD FRAKTUR CAPITAL Z:\u{1D585}\n\
MATHEMATICAL BOLD FRAKTUR SMALL A:\u{1D586}\n\
MATHEMATICAL BOLD FRAKTUR SMALL B:\u{1D587}\n\
MATHEMATICAL BOLD FRAKTUR SMALL C:\u{1D588}\n\
MATHEMATICAL BOLD FRAKTUR SMALL D:\u{1D589}\n\
MATHEMATICAL BOLD FRAKTUR SMALL E:\u{1D58A}\n\
MATHEMATICAL BOLD FRAKTUR SMALL F:\u{1D58B}\n\
MATHEMATICAL BOLD FRAKTUR SMALL G:\u{1D58C}\n\
MATHEMATICAL BOLD FRAKTUR SMALL H:\u{1D58D}\n\
MATHEMATICAL BOLD FRAKTUR SMALL I:\u{1D58E}\n\
MATHEMATICAL BOLD FRAKTUR SMALL J:\u{1D58F}\n\
MATHEMATICAL BOLD FRAKTUR SMALL K:\u{1D590}\n\
MATHEMATICAL BOLD FRAKTUR SMALL L:\u{1D591}\n\
MATHEMATICAL BOLD FRAKTUR SMALL M:\u{1D592}\n\
MATHEMATICAL BOLD FRAKTUR SMALL N:\u{1D593}\n\
MATHEMATICAL BOLD FRAKTUR SMALL O:\u{1D594}\n\
MATHEMATICAL BOLD FRAKTUR SMALL P:\u{1D595}\n\
MATHEMATICAL BOLD FRAKTUR SMALL Q:\u{1D596}\n\
MATHEMATICAL BOLD FRAKTUR SMALL R:\u{1D597}\n\
MATHEMATICAL BOLD FRAKTUR SMALL S:\u{1D598}\n\
MATHEMATICAL BOLD FRAKTUR SMALL T:\u{1D599}\n\
MATHEMATICAL BOLD FRAKTUR SMALL U:\u{1D59A}\n\
MATHEMATICAL BOLD FRAKTUR SMALL V:\u{1D59B}\n\
MATHEMATICAL BOLD FRAKTUR SMALL W:\u{1D59C}\n\
MATHEMATICAL BOLD FRAKTUR SMALL X:\u{1D59D}\n\
MATHEMATICAL BOLD FRAKTUR SMALL Y:\u{1D59E}\n\
MATHEMATICAL BOLD FRAKTUR SMALL Z:\u{1D59F}\n\
MATHEMATICAL SANS-SERIF CAPITAL A:\u{1D5A0}\n\
MATHEMATICAL SANS-SERIF CAPITAL B:\u{1D5A1}\n\
MATHEMATICAL SANS-SERIF CAPITAL C:\u{1D5A2}\n\
MATHEMATICAL SANS-SERIF CAPITAL D:\u{1D5A3}\n\
MATHEMATICAL SANS-SERIF CAPITAL E:\u{1D5A4}\n";

pub const NAMES_71: &'static str = "MATHEMATICAL SANS-SERIF CAPITAL F:\u{1D5A5}\n\
MATHEMATICAL SANS-SERIF CAPITAL G:\u{1D5A6}\n\
MATHEMATICAL SANS-SERIF CAPITAL H:\u{1D5A7}\n\
MATHEMATICAL SANS-SERIF CAPITAL I:\u{1D5A8}\n\
MATHEMATICAL SANS-SERIF CAPITAL J:\u{1D5A9}\n\
MATHEMATICAL SANS-SERIF CAPITAL K:\u{1D5AA}\n\
MATHEMATICAL SANS-SERIF CAPITAL L:\u{1D5AB}\n\
MATHEMATICAL SANS-SERIF CAPITAL M:\u{1D5AC}\n\
MATHEMATICAL SANS-SERIF CAPITAL N:\u{1D5AD}\n\
MATHEMATICAL SANS-SERIF CAPITAL O:\u{1D5AE}\n\
MATHEMATICAL SANS-SERIF CAPITAL P:\u{1D5AF}\n\
MATHEMATICAL SANS-SERIF CAPITAL Q:\u{1D5B0}\n\
MATHEMATICAL SANS-SERIF CAPITAL R:\u{1D5B1}\n\
MATHEMATICAL SANS-SERIF CAPITAL S:\u{1D5B2}\n\
MATHEMATICAL SANS-SERIF CAPITAL T:\u{1D5B3}\n\
MATHEMATICAL SANS-SERIF CAPITAL U:\u{1D5B4}\n\
MATHEMATICAL SANS-SERIF CAPITAL V:\u{1D5B5}\n\
MATHEMATICAL SANS-SERIF CAPITAL W:\u{1D5B6}\n\
MATHEMATICAL SANS-SERIF CAPITAL X:\u{1D5B7}\n\
MATHEMATICAL SANS-SERIF CAPITAL Y:\u{1D5B8}\n\
MATHEMATICAL SANS-SERIF CAPITAL Z:\u{1D5B9}\n\
MATHEMATICAL SANS-SERIF SMALL A:\u{1D5BA}\n\
MATHEMATICAL SANS-SERIF SMALL B:\u{1D5BB}\n\
MATHEMATICAL SANS-SERIF SMALL C:\u{1D5BC}\n\
MATHEMATICAL SANS-SERIF SMALL D:\u{1D5BD}\n\
MATHEMATICAL SANS-SERIF SMALL E:\u{1D5BE}\n\
MATHEMATICAL SANS-SERIF SMALL F:\u{1D5BF}\n\
MATHEMATICAL SANS-SERIF SMALL G:\u{1D5C0}\n\
MATHEMATICAL SANS-SERIF SMALL H:\u{1D5C1}\n\
MATHEMATICAL SANS-SERIF SMALL I:\u{1D5C2}\n\
MATHEMATICAL SANS-SERIF SMALL J:\u{1D5C3}\n\
MATHEMATICAL SANS-SERIF SMALL K:\u{1D5C4}\n\
MATHEMATICAL SANS-SERIF SMALL L:\u{1D5C5}\n\
MATHEMATICAL SANS-SERIF SMALL M:\u{1D5C6}\n\
MATHEMATICAL SANS-SERIF SMALL N:\u{1D5C7}\n\
MATHEMATICAL SANS-SERIF SMALL O:\u{1D5C8}\n\
MATHEMATICAL SANS-SERIF SMALL P:\u{1D5C9}\n\
MATHEMATICAL SANS-SERIF SMALL Q:\u{1D5CA}\n\
MATHEMATICAL SANS-SERIF SMALL R:\u{1D5CB}\n\
MATHEMATICAL SANS-SERIF SMALL S:\u{1D5CC}\n\
MATHEMATICAL SANS-SERIF SMALL T:\u{1D5CD}\n\
MATHEMATICAL SANS-SERIF SMALL U:\u{1D5CE}\n\
MATHEMATICAL SANS-SERIF SMALL V:\u{1D5CF}\n\
MATHEMATICAL SANS-SERIF SMALL W:\u{1D5D0}\n\
MATHEMATICAL SANS-SERIF SMALL X:\u{1D5D1}\n\
MATHEMATICAL SANS-SERIF SMALL Y:\u{1D5D2}\n\
MATHEMATICAL SANS-SERIF SMALL Z:\u{1D5D3}\n\
MATHEMATICAL SANS-SERIF BOLD CAPITAL A:\u{1D5D4}\n\
MATHEMATICAL SANS-SERIF BOLD CAPITAL B:\u{1D5D5}\n\
MATHEMATICAL SANS-SERIF BOLD CAPITAL C:\u{1D5D6}\n\
MATHEMATICAL SANS-SERIF BOLD CAPITAL D:\u{1D5D7}\n\
MATHEMATICAL SANS-SERIF BOLD CAPITAL E:\u{1D5D8}\n\
MATHEMATICAL SANS-SERIF BOLD CAPITAL F:\u{1D5D9}\n\
MATHEMATICAL SANS-SERIF BOLD CAPITAL G:\u{1D5DA}\n\
MATHEMATICAL SANS-SERIF BOLD CAPITAL H:\u{1D5DB}\n\
MATHEMATICAL SANS-SERIF BOLD CAPITAL I:\u{1D5DC}\n\
MATHEMATICAL SANS-SERIF BOLD CAPITAL J:\u{1D5DD}\n\
MATHEMATICAL SANS-SERIF BOLD CAPITAL K:\u{1D5DE}\n\
MATHEMATICAL SANS-SERIF BOLD CAPITAL L:\u{1D5DF}\n\
MATHEMATICAL SANS-SERIF BOLD CAPITAL M:\u{1D5E0}\n\
MATHEMATICAL SANS-SERIF BOLD CAPITAL N:\u{1D5E1}\n\
MATHEMATICAL SANS-SERIF BOLD CAPITAL O:\u{1D5E2}\n\
MATHEMATICAL SANS-SERIF BOLD CAPITAL P:\u{1D5E3}\n\
MATHEMATICAL SANS-SERIF BOLD CAPITAL Q:\u{1D5E4}\n\
MATHEMATICAL SANS-SERIF BOLD CAPITAL R:\u{1D5E5}\n\
MATHEMATICAL SANS-SERIF BOLD CAPITAL S:\u{1D5E6}\n\
MATHEMATICAL SANS-SERIF BOLD CAPITAL T:\u{1D5E7}\n\
MATHEMATICAL SANS-SERIF BOLD CAPITAL U:\u{1D5E8}\n\
MATHEMATICAL SANS-SERIF BOLD CAPITAL V:\u{1D5E9}\n\
MATHEMATICAL SANS-SERIF BOLD CAPITAL W:\u{1D5EA}\n\
MATHEMATICAL SANS-SERIF BOLD CAPITAL X:\u{1D5EB}\n\
MATHEMATICAL SANS-SERIF BOLD CAPITAL Y:\u{1D5EC}\n\
MATHEMATICAL SANS-SERIF BOLD CAPITAL Z:\u{1D5ED}\n\
MATHEMATICAL SANS-SERIF BOLD SMALL A:\u{1D5EE}\n\
MATHEMATICAL SANS-SERIF BOLD SMALL B:\u{1D5EF}\n\
MATHEMATICAL SANS-SERIF BOLD SMALL C:\u{1D5F0}\n\
MATHEMATICAL SANS-SERIF BOLD SMALL D:\u{1D5F1}\n\
MATHEMATICAL SANS-SERIF BOLD SMALL E:\u{1D5F2}\n\
MATHEMATICAL SANS-SERIF BOLD SMALL F:\u{1D5F3}\n\
MATHEMATICAL SANS-SERIF BOLD SMALL G:\u{1D5F4}\n\
MATHEMATICAL SANS-SERIF BOLD SMALL H:\u{1D5F5}\n\
MATHEMATICAL SANS-SERIF BOLD SMALL I:\u{1D5F6}\n\
MATHEMATICAL SANS-SERIF BOLD SMALL J:\u{1D5F7}\n\
MATHEMATICAL SANS-SERIF BOLD SMALL K:\u{1D5F8}\n\
MATHEMATICAL SANS-SERIF BOLD SMALL L:\u{1D5F9}\n\
MATHEMATICAL SANS-SERIF BOLD SMALL M:\u{1D5FA}\n\
MATHEMATICAL SANS-SERIF BOLD SMALL N:\u{1D5FB}\n\
MATHEMATICAL SANS-SERIF BOLD SMALL O:\u{1D5FC}\n\
MATHEMATICAL SANS-SERIF BOLD SMALL P:\u{1D5FD}\n\
MATHEMATICAL SANS-SERIF BOLD SMALL Q:\u{1D5FE}\n\
MATHEMATICAL SANS-SERIF BOLD SMALL R:\u{1D5FF}\n\
MATHEMATICAL SANS-SERIF BOLD SMALL S:\u{1D600}\n\
MATHEMATICAL SANS-SERIF BOLD SMALL T:\u{1D601}\n\
MATHEMATICAL SANS-SERIF BOLD SMALL U:\u{1D602}\n\
MATHEMATICAL SANS-SERIF BOLD SMALL V:\u{1D603}\n\
MATHEMATICAL SANS-SERIF BOLD SMALL W:\u{1D604}\n\
MATHEMATICAL SANS-SERIF BOLD SMALL X:\u{1D605}\n\
MATHEMATICAL SANS-SERIF BOLD SMALL Y:\u{1D606}\n\
MATHEMATICAL SANS-SERIF BOLD SMALL Z:\u{1D607}\n\
MATHEMATICAL SANS-SERIF ITALIC CAPITAL A:\u{1D608}\n\
MATHEMATICAL SANS-SERIF ITALIC CAPITAL B:\u{1D609}\n\
MATHEMATICAL SANS-SERIF ITALIC CAPITAL C:\u{1D60A}\n\
MATHEMATICAL SANS-SERIF ITALIC CAPITAL D:\u{1D60B}\n\
MATHEMATICAL SANS-SERIF ITALIC CAPITAL E:\u{1D60C}\n\
MATHEMATICAL SANS-SERIF ITALIC CAPITAL F:\u{1D60D}\n\
MATHEMATICAL SANS-SERIF ITALIC CAPITAL G:\u{1D60E}\n\
MATHEMATICAL SANS-SERIF ITALIC CAPITAL H:\u{1D60F}\n\
MATHEMATICAL SANS-SERIF ITALIC CAPITAL I:\u{1D610}\n\
MATHEMATICAL SANS-SERIF ITALIC CAPITAL J:\u{1D611}\n\
MATHEMATICAL SANS-SERIF ITALIC CAPITAL K:\u{1D612}\n\
MATHEMATICAL SANS-SERIF ITALIC CAPITAL L:\u{1D613}\n\
MATHEMATICAL SANS-SERIF ITALIC CAPITAL M:\u{1D614}\n\
MATHEMATICAL SANS-SERIF ITALIC CAPITAL N:\u{1D615}\n\
MATHEMATICAL SANS-SERIF ITALIC CAPITAL O:\u{1D616}\n\
MATHEMATICAL SANS-SERIF ITALIC CAPITAL P:\u{1D617}\n\
MATHEMATICAL SANS-SERIF ITALIC CAPITAL Q:\u{1D618}\n\
MATHEMATICAL SANS-SERIF ITALIC CAPITAL R:\u{1D619}\n\
MATHEMATICAL SANS-SERIF ITALIC CAPITAL S:\u{1D61A}\n\
MATHEMATICAL SANS-SERIF ITALIC CAPITAL T:\u{1D61B}\n\
MATHEMATICAL SANS-SERIF ITALIC CAPITAL U:\u{1D61C}\n\
MATHEMATICAL SANS-SERIF ITALIC CAPITAL V:\u{1D61D}\n\
MATHEMATICAL SANS-SERIF ITALIC CAPITAL W:\u{1D61E}\n\
MATHEMATICAL SANS-SERIF ITALIC CAPITAL X:\u{1D61F}\n\
MATHEMATICAL SANS-SERIF ITALIC CAPITAL Y:\u{1D620}\n\
MATHEMATICAL SANS-SERIF ITALIC CAPITAL Z:\u{1D621}\n\
MATHEMATICAL SANS-SERIF ITALIC SMALL A:\u{1D622}\n\
MATHEMATICAL SANS-SERIF ITALIC SMALL B:\u{1D623}\n\
MATHEMATICAL SANS-SERIF ITALIC SMALL C:\u{1D624}\n\
MATHEMATICAL SANS-SERIF ITALIC SMALL D:\u{1D625}\n\
MATHEMATICAL SANS-SERIF ITALIC SMALL E:\u{1D626}\n\
MATHEMATICAL SANS-SERIF ITALIC SMALL F:\u{1D627}\n\
MATHEMATICAL SANS-SERIF ITALIC SMALL G:\u{1D628}\n\
MATHEMATICAL SANS-SERIF ITALIC SMALL H:\u{1D629}\n\
MATHEMATICAL SANS-SERIF ITALIC SMALL I:\u{1D62A}\n\
MATHEMATICAL SANS-SERIF ITALIC SMALL J:\u{1D62B}\n\
MATHEMATICAL SANS-SERIF ITALIC SMALL K:\u{1D62C}\n\
MATHEMATICAL SANS-SERIF ITALIC SMALL L:\u{1D62D}\n\
MATHEMATICAL SANS-SERIF ITALIC SMALL M:\u{1D62E}\n\
MATHEMATICAL SANS-SERIF ITALIC SMALL N:\u{1D62F}\n\
MATHEMATICAL SANS-SERIF ITALIC SMALL O:\u{1D630}\n\
MATHEMATICAL SANS-SERIF ITALIC SMALL P:\u{1D631}\n\
MATHEMATICAL SANS-SERIF ITALIC SMALL Q:\u{1D632}\n\
MATHEMATICAL SANS-SERIF ITALIC SMALL R:\u{1D633}\n\
MATHEMATICAL SANS-SERIF ITALIC SMALL S:\u{1D634}\n\
MATHEMATICAL SANS-SERIF ITALIC SMALL T:\u{1D635}\n\
MATHEMATICAL SANS-SERIF ITALIC SMALL U:\u{1D636}\n\
MATHEMATICAL SANS-SERIF ITALIC SMALL V:\u{1D637}\n\
MATHEMATICAL SANS-SERIF ITALIC SMALL W:\u{1D638}\n\
MATHEMATICAL SANS-SERIF ITALIC SMALL X:\u{1D639}\n\
MATHEMATICAL SANS-SERIF ITALIC SMALL Y:\u{1D63A}\n\
MATHEMATICAL SANS-SERIF ITALIC SMALL Z:\u{1D63B}\n\
MATHEMATICAL SANS-SERIF BOLD ITALIC CAPITAL A:\u{1D63C}\n\
MATHEMATICAL SANS-SERIF BOLD ITALIC CAPITAL B:\u{1D63D}\n\
MATHEMATICAL SANS-SERIF BOLD ITALIC CAPITAL C:\u{1D63E}\n\
MATHEMATICAL SANS-SERIF BOLD ITALIC CAPITAL D:\u{1D63F}\n\
MATHEMATICAL SANS-SERIF BOLD ITALIC CAPITAL E:\u{1D640}\n\
MATHEMATICAL SANS-SERIF BOLD ITALIC CAPITAL F:\u{1D641}\n\
MATHEMATICAL SANS-SERIF BOLD ITALIC CAPITAL G:\u{1D642}\n\
MATHEMATICAL SANS-SERIF BOLD ITALIC CAPITAL H:\u{1D643}\n\
MATHEMATICAL SANS-SERIF BOLD ITALIC CAPITAL I:\u{1D644}\n\
MATHEMATICAL SANS-SERIF BOLD ITALIC CAPITAL J:\u{1D645}\n\
MATHEMATICAL SANS-SERIF BOLD ITALIC CAPITAL K:\u{1D646}\n\
MATHEMATICAL SANS-SERIF BOLD ITALIC CAPITAL L:\u{1D647}\n\
MATHEMATICAL SANS-SERIF BOLD ITALIC CAPITAL M:\u{1D648}\n\
MATHEMATICAL SANS-SERIF BOLD ITALIC CAPITAL N:\u{1D649}\n\
MATHEMATICAL SANS-SERIF BOLD ITALIC CAPITAL O:\u{1D64A}\n\
MATHEMATICAL SANS-SERIF BOLD ITALIC CAPITAL P:\u{1D64B}\n\
MATHEMATICAL SANS-SERIF BOLD ITALIC CAPITAL Q:\u{1D64C}\n\
MATHEMATICAL SANS-SERIF BOLD ITALIC CAPITAL R:\u{1D64D}\n\
MATHEMATICAL SANS-SERIF BOLD ITALIC CAPITAL S:\u{1D64E}\n\
MATHEMATICAL SANS-SERIF BOLD ITALIC CAPITAL T:\u{1D64F}\n\
MATHEMATICAL SANS-SERIF BOLD ITALIC CAPITAL U:\u{1D650}\n\
MATHEMATICAL SANS-SERIF BOLD ITALIC CAPITAL V:\u{1D651}\n\
MATHEMATICAL SANS-SERIF BOLD ITALIC CAPITAL W:\u{1D652}\n\
MATHEMATICAL SANS-SERIF BOLD ITALIC CAPITAL X:\u{1D653}\n\
MATHEMATICAL SANS-SERIF BOLD ITALIC CAPITAL Y:\u{1D654}\n\
MATHEMATICAL SANS-SERIF BOLD ITALIC CAPITAL Z:\u{1D655}\n\
MATHEMATICAL SANS-SERIF BOLD ITALIC SMALL A:\u{1D656}\n\
MATHEMATICAL SANS-SERIF BOLD ITALIC SMALL B:\u{1D657}\n\
MATHEMATICAL SANS-SERIF BOLD ITALIC SMALL C:\u{1D658}\n\
MATHEMATICAL SANS-SERIF BOLD ITALIC SMALL D:\u{1D659}\n\
MATHEMATICAL SANS-SERIF BOLD ITALIC SMALL E:\u{1D65A}\n\
MATHEMATICAL SANS-SERIF BOLD ITALIC SMALL F:\u{1D65B}\n\
MATHEMATICAL SANS-SERIF BOLD ITALIC SMALL G:\u{1D65C}\n\
MATHEMATICAL SANS-SERIF BOLD ITALIC SMALL H:\u{1D65D}\n\
MATHEMATICAL SANS-SERIF BOLD ITALIC SMALL I:\u{1D65E}\n\
MATHEMATICAL SANS-SERIF BOLD ITALIC SMALL J:\u{1D65F}\n\
MATHEMATICAL SANS-SERIF BOLD ITALIC SMALL K:\u{1D660}\n\
MATHEMATICAL SANS-SERIF BOLD ITALIC SMALL L:\u{1D661}\n\
MATHEMATICAL SANS-SERIF BOLD ITALIC SMALL M:\u{1D662}\n\
MATHEMATICAL SANS-SERIF BOLD ITALIC SMALL N:\u{1D663}\n\
MATHEMATICAL SANS-SERIF BOLD ITALIC SMALL O:\u{1D664}\n\
MATHEMATICAL SANS-SERIF BOLD ITALIC SMALL P:\u{1D665}\n\
MATHEMATICAL SANS-SERIF BOLD ITALIC SMALL Q:\u{1D666}\n\
MATHEMATICAL SANS-SERIF BOLD ITALIC SMALL R:\u{1D667}\n\
MATHEMATICAL SANS-SERIF BOLD ITALIC SMALL S:\u{1D668}\n\
MATHEMATICAL SANS-SERIF BOLD ITALIC SMALL T:\u{1D669}\n\
MATHEMATICAL SANS-SERIF BOLD ITALIC SMALL U:\u{1D66A}\n\
MATHEMATICAL SANS-SERIF BOLD ITALIC SMALL V:\u{1D66B}\n\
MATHEMATICAL SANS-SERIF BOLD ITALIC SMALL W:\u{1D66C}\n\
MATHEMATICAL SANS-SERIF BOLD ITALIC SMALL X:\u{1D66D}\n\
MATHEMATICAL SANS-SERIF BOLD ITALIC SMALL Y:\u{1D66E}\n\
MATHEMATICAL SANS-SERIF BOLD ITALIC SMALL Z:\u{1D66F}\n\
MATHEMATICAL MONOSPACE CAPITAL A:\u{1D670}\n\
MATHEMATICAL MONOSPACE CAPITAL B:\u{1D671}\n\
MATHEMATICAL MONOSPACE CAPITAL C:\u{1D672}\n\
MATHEMATICAL MONOSPACE CAPITAL D:\u{1D673}\n\
MATHEMATICAL MONOSPACE CAPITAL E:\u{1D674}\n\
MATHEMATICAL MONOSPACE CAPITAL F:\u{1D675}\n\
MATHEMATICAL MONOSPACE CAPITAL G:\u{1D676}\n\
MATHEMATICAL MONOSPACE CAPITAL H:\u{1D677}\n\
MATHEMATICAL MONOSPACE CAPITAL I:\u{1D678}\n\
MATHEMATICAL MONOSPACE CAPITAL J:\u{1D679}\n\
MATHEMATICAL MONOSPACE CAPITAL K:\u{1D67A}\n\
MATHEMATICAL MONOSPACE CAPITAL L:\u{1D67B}\n\
MATHEMATICAL MONOSPACE CAPITAL M:\u{1D67C}\n\
MATHEMATICAL MONOSPACE CAPITAL N:\u{1D67D}\n\
MATHEMATICAL MONOSPACE CAPITAL O:\u{1D67E}\n\
MATHEMATICAL MONOSPACE CAPITAL P:\u{1D67F}\n\
MATHEMATICAL MONOSPACE CAPITAL Q:\u{1D680}\n\
MATHEMATICAL MONOSPACE CAPITAL R:\u{1D681}\n\
MATHEMATICAL MONOSPACE CAPITAL S:\u{1D682}\n\
MATHEMATICAL MONOSPACE CAPITAL T:\u{1D683}\n\
MATHEMATICAL MONOSPACE CAPITAL U:\u{1D684}\n\
MATHEMATICAL MONOSPACE CAPITAL V:\u{1D685}\n\
MATHEMATICAL MONOSPACE CAPITAL W:\u{1D686}\n\
MATHEMATICAL MONOSPACE CAPITAL X:\u{1D687}\n\
MATHEMATICAL MONOSPACE CAPITAL Y:\u{1D688}\n\
MATHEMATICAL MONOSPACE CAPITAL Z:\u{1D689}\n\
MATHEMATICAL MONOSPACE SMALL A:\u{1D68A}\n\
MATHEMATICAL MONOSPACE SMALL B:\u{1D68B}\n\
MATHEMATICAL MONOSPACE SMALL C:\u{1D68C}\n\
MATHEMATICAL MONOSPACE SMALL D:\u{1D68D}\n\
MATHEMATICAL MONOSPACE SMALL E:\u{1D68E}\n\
MATHEMATICAL MONOSPACE SMALL F:\u{1D68F}\n\
MATHEMATICAL MONOSPACE SMALL G:\u{1D690}\n\
MATHEMATICAL MONOSPACE SMALL H:\u{1D691}\n\
MATHEMATICAL MONOSPACE SMALL I:\u{1D692}\n\
MATHEMATICAL MONOSPACE SMALL J:\u{1D693}\n\
MATHEMATICAL MONOSPACE SMALL K:\u{1D694}\n\
MATHEMATICAL MONOSPACE SMALL L:\u{1D695}\n\
MATHEMATICAL MONOSPACE SMALL M:\u{1D696}\n\
MATHEMATICAL MONOSPACE SMALL N:\u{1D697}\n\
MATHEMATICAL MONOSPACE SMALL O:\u{1D698}\n\
MATHEMATICAL MONOSPACE SMALL P:\u{1D699}\n\
MATHEMATICAL MONOSPACE SMALL Q:\u{1D69A}\n\
MATHEMATICAL MONOSPACE SMALL R:\u{1D69B}\n\
MATHEMATICAL MONOSPACE SMALL S:\u{1D69C}\n\
MATHEMATICAL MONOSPACE SMALL T:\u{1D69D}\n\
MATHEMATICAL MONOSPACE SMALL U:\u{1D69E}\n\
MATHEMATICAL MONOSPACE SMALL V:\u{1D69F}\n\
MATHEMATICAL MONOSPACE SMALL W:\u{1D6A0}\n\
MATHEMATICAL MONOSPACE SMALL X:\u{1D6A1}\n\
MATHEMATICAL MONOSPACE SMALL Y:\u{1D6A2}\n\
MATHEMATICAL MONOSPACE SMALL Z:\u{1D6A3}\n\
MATHEMATICAL ITALIC SMALL DOTLESS I:\u{1D6A4}\n\
MATHEMATICAL ITALIC SMALL DOTLESS J:\u{1D6A5}\n\
MATHEMATICAL BOLD CAPITAL ALPHA:\u{1D6A8}\n\
MATHEMATICAL BOLD CAPITAL BETA:\u{1D6A9}\n\
MATHEMATICAL BOLD CAPITAL GAMMA:\u{1D6AA}\n\
MATHEMATICAL BOLD CAPITAL DELTA:\u{1D6AB}\n\
MATHEMATICAL BOLD CAPITAL EPSILON:\u{1D6AC}\n\
MATHEMATICAL BOLD CAPITAL ZETA:\u{1D6AD}\n\
MATHEMATICAL BOLD CAPITAL ETA:\u{1D6AE}\n\
MATHEMATICAL BOLD CAPITAL THETA:\u{1D6AF}\n\
MATHEMATICAL BOLD CAPITAL IOTA:\u{1D6B0}\n\
MATHEMATICAL BOLD CAPITAL KAPPA:\u{1D6B1}\n\
MATHEMATICAL BOLD CAPITAL LAMDA:\u{1D6B2}\n\
MATHEMATICAL BOLD CAPITAL MU:\u{1D6B3}\n\
MATHEMATICAL BOLD CAPITAL NU:\u{1D6B4}\n\
MATHEMATICAL BOLD CAPITAL XI:\u{1D6B5}\n\
MATHEMATICAL BOLD CAPITAL OMICRON:\u{1D6B6}\n\
MATHEMATICAL BOLD CAPITAL PI:\u{1D6B7}\n\
MATHEMATICAL BOLD CAPITAL RHO:\u{1D6B8}\n\
MATHEMATICAL BOLD CAPITAL THETA SYMBOL:\u{1D6B9}\n\
MATHEMATICAL BOLD CAPITAL SIGMA:\u{1D6BA}\n\
MATHEMATICAL BOLD CAPITAL TAU:\u{1D6BB}\n\
MATHEMATICAL BOLD CAPITAL UPSILON:\u{1D6BC}\n\
MATHEMATICAL BOLD CAPITAL PHI:\u{1D6BD}\n\
MATHEMATICAL BOLD CAPITAL CHI:\u{1D6BE}\n\
MATHEMATICAL BOLD CAPITAL PSI:\u{1D6BF}\n\
MATHEMATICAL BOLD CAPITAL OMEGA:\u{1D6C0}\n\
MATHEMATICAL BOLD NABLA:\u{1D6C1}\n\
MATHEMATICAL BOLD SMALL ALPHA:\u{1D6C2}\n\
MATHEMATICAL BOLD SMALL BETA:\u{1D6C3}\n\
MATHEMATICAL BOLD SMALL GAMMA:\u{1D6C4}\n\
MATHEMATICAL BOLD SMALL DELTA:\u{1D6C5}\n\
MATHEMATICAL BOLD SMALL EPSILON:\u{1D6C6}\n\
MATHEMATICAL BOLD SMALL ZETA:\u{1D6C7}\n\
MATHEMATICAL BOLD SMALL ETA:\u{1D6C8}\n\
MATHEMATICAL BOLD SMALL THETA:\u{1D6C9}\n\
MATHEMATICAL BOLD SMALL IOTA:\u{1D6CA}\n\
MATHEMATICAL BOLD SMALL KAPPA:\u{1D6CB}\n\
MATHEMATICAL BOLD SMALL LAMDA:\u{1D6CC}\n\
MATHEMATICAL BOLD SMALL MU:\u{1D6CD}\n\
MATHEMATICAL BOLD SMALL NU:\u{1D6CE}\n\
MATHEMATICAL BOLD SMALL XI:\u{1D6CF}\n\
MATHEMATICAL BOLD SMALL OMICRON:\u{1D6D0}\n\
MATHEMATICAL BOLD SMALL PI:\u{1D6D1}\n\
MATHEMATICAL BOLD SMALL RHO:\u{1D6D2}\n\
MATHEMATICAL BOLD SMALL FINAL SIGMA:\u{1D6D3}\n\
MATHEMATICAL BOLD SMALL SIGMA:\u{1D6D4}\n";

pub const NAMES_72: &'static str = "MATHEMATICAL BOLD SMALL TAU:\u{1D6D5}\n\
MATHEMATICAL BOLD SMALL UPSILON:\u{1D6D6}\n\
MATHEMATICAL BOLD SMALL PHI:\u{1D6D7}\n\
MATHEMATICAL BOLD SMALL CHI:\u{1D6D8}\n\
MATHEMATICAL BOLD SMALL PSI:\u{1D6D9}\n\
MATHEMATICAL BOLD SMALL OMEGA:\u{1D6DA}\n\
MATHEMATICAL BOLD PARTIAL DIFFERENTIAL:\u{1D6DB}\n\
MATHEMATICAL BOLD EPSILON SYMBOL:\u{1D6DC}\n\
MATHEMATICAL BOLD THETA SYMBOL:\u{1D6DD}\n\
MATHEMATICAL BOLD KAPPA SYMBOL:\u{1D6DE}\n\
MATHEMATICAL BOLD PHI SYMBOL:\u{1D6DF}\n\
MATHEMATICAL BOLD RHO SYMBOL:\u{1D6E0}\n\
MATHEMATICAL BOLD PI SYMBOL:\u{1D6E1}\n\
MATHEMATICAL ITALIC CAPITAL ALPHA:\u{1D6E2}\n\
MATHEMATICAL ITALIC CAPITAL BETA:\u{1D6E3}\n\
MATHEMATICAL ITALIC CAPITAL GAMMA:\u{1D6E4}\n\
MATHEMATICAL ITALIC CAPITAL DELTA:\u{1D6E5}\n\
MATHEMATICAL ITALIC CAPITAL EPSILON:\u{1D6E6}\n\
MATHEMATICAL ITALIC CAPITAL ZETA:\u{1D6E7}\n\
MATHEMATICAL ITALIC CAPITAL ETA:\u{1D6E8}\n\
MATHEMATICAL ITALIC CAPITAL THETA:\u{1D6E9}\n\
MATHEMATICAL ITALIC CAPITAL IOTA:\u{1D6EA}\n\
MATHEMATICAL ITALIC CAPITAL KAPPA:\u{1D6EB}\n\
MATHEMATICAL ITALIC CAPITAL LAMDA:\u{1D6EC}\n\
MATHEMATICAL ITALIC CAPITAL MU:\u{1D6ED}\n\
MATHEMATICAL ITALIC CAPITAL NU:\u{1D6EE}\n\
MATHEMATICAL ITALIC CAPITAL XI:\u{1D6EF}\n\
MATHEMATICAL ITALIC CAPITAL OMICRON:\u{1D6F0}\n\
MATHEMATICAL ITALIC CAPITAL PI:\u{1D6F1}\n\
MATHEMATICAL ITALIC CAPITAL RHO:\u{1D6F2}\n\
MATHEMATICAL ITALIC CAPITAL THETA SYMBOL:\u{1D6F3}\n\
MATHEMATICAL ITALIC CAPITAL SIGMA:\u{1D6F4}\n\
MATHEMATICAL ITALIC CAPITAL TAU:\u{1D6F5}\n\
MATHEMATICAL ITALIC CAPITAL UPSILON:\u{1D6F6}\n\
MATHEMATICAL ITALIC CAPITAL PHI:\u{1D6F7}\n\
MATHEMATICAL ITALIC CAPITAL CHI:\u{1D6F8}\n\
MATHEMATICAL ITALIC CAPITAL PSI:\u{1D6F9}\n\
MATHEMATICAL ITALIC CAPITAL OMEGA:\u{1D6FA}\n\
MATHEMATICAL ITALIC NABLA:\u{1D6FB}\n\
MATHEMATICAL ITALIC SMALL ALPHA:\u{1D6FC}\n\
MATHEMATICAL ITALIC SMALL BETA:\u{1D6FD}\n\
MATHEMATICAL ITALIC SMALL GAMMA:\u{1D6FE}\n\
MATHEMATICAL ITALIC SMALL DELTA:\u{1D6FF}\n\
MATHEMATICAL ITALIC SMALL EPSILON:\u{1D700}\n\
MATHEMATICAL ITALIC SMALL ZETA:\u{1D701}\n\
MATHEMATICAL ITALIC SMALL ETA:\u{1D702}\n\
MATHEMATICAL ITALIC SMALL THETA:\u{1D703}\n\
MATHEMATICAL ITALIC SMALL IOTA:\u{1D704}\n\
MATHEMATICAL ITALIC SMALL KAPPA:\u{1D705}\n\
MATHEMATICAL ITALIC SMALL LAMDA:\u{1D706}\n\
MATHEMATICAL ITALIC SMALL MU:\u{1D707}\n\
MATHEMATICAL ITALIC SMALL NU:\u{1D708}\n\
MATHEMATICAL ITALIC SMALL XI:\u{1D709}\n\
MATHEMATICAL ITALIC SMALL OMICRON:\u{1D70A}\n\
MATHEMATICAL ITALIC SMALL PI:\u{1D70B}\n\
MATHEMATICAL ITALIC SMALL RHO:\u{1D70C}\n\
MATHEMATICAL ITALIC SMALL FINAL SIGMA:\u{1D70D}\n\
MATHEMATICAL ITALIC SMALL SIGMA:\u{1D70E}\n\
MATHEMATICAL ITALIC SMALL TAU:\u{1D70F}\n\
MATHEMATICAL ITALIC SMALL UPSILON:\u{1D710}\n\
MATHEMATICAL ITALIC SMALL PHI:\u{1D711}\n\
MATHEMATICAL ITALIC SMALL CHI:\u{1D712}\n\
MATHEMATICAL ITALIC SMALL PSI:\u{1D713}\n\
MATHEMATICAL ITALIC SMALL OMEGA:\u{1D714}\n\
MATHEMATICAL ITALIC PARTIAL DIFFERENTIAL:\u{1D715}\n\
MATHEMATICAL ITALIC EPSILON SYMBOL:\u{1D716}\n\
MATHEMATICAL ITALIC THETA SYMBOL:\u{1D717}\n\
MATHEMATICAL ITALIC KAPPA SYMBOL:\u{1D718}\n\
MATHEMATICAL ITALIC PHI SYMBOL:\u{1D719}\n\
MATHEMATICAL ITALIC RHO SYMBOL:\u{1D71A}\n\
MATHEMATICAL ITALIC PI SYMBOL:\u{1D71B}\n\
MATHEMATICAL BOLD ITALIC CAPITAL ALPHA:\u{1D71C}\n\
MATHEMATICAL BOLD ITALIC CAPITAL BETA:\u{1D71D}\n\
MATHEMATICAL BOLD ITALIC CAPITAL GAMMA:\u{1D71E}\n\
MATHEMATICAL BOLD ITALIC CAPITAL DELTA:\u{1D71F}\n\
MATHEMATICAL BOLD ITALIC CAPITAL EPSILON:\u{1D720}\n\
MATHEMATICAL BOLD ITALIC CAPITAL ZETA:\u{1D721}\n\
MATHEMATICAL BOLD ITALIC CAPITAL ETA:\u{1D722}\n\
MATHEMATICAL BOLD ITALIC CAPITAL THETA:\u{1D723}\n\
MATHEMATICAL BOLD ITALIC CAPITAL IOTA:\u{1D724}\n\
MATHEMATICAL BOLD ITALIC CAPITAL KAPPA:\u{1D725}\n\
MATHEMATICAL BOLD ITALIC CAPITAL LAMDA:\u{1D726}\n\
MATHEMATICAL BOLD ITALIC CAPITAL MU:\u{1D727}\n\
MATHEMATICAL BOLD ITALIC CAPITAL NU:\u{1D728}\n\
MATHEMATICAL BOLD ITALIC CAPITAL XI:\u{1D729}\n\
MATHEMATICAL BOLD ITALIC CAPITAL OMICRON:\u{1D72A}\n\
MATHEMATICAL BOLD ITALIC CAPITAL PI:\u{1D72B}\n\
MATHEMATICAL BOLD ITALIC CAPITAL RHO:\u{1D72C}\n\
MATHEMATICAL BOLD ITALIC CAPITAL THETA SYMBOL:\u{1D72D}\n\
MATHEMATICAL BOLD ITALIC CAPITAL SIGMA:\u{1D72E}\n\
MATHEMATICAL BOLD ITALIC CAPITAL TAU:\u{1D72F}\n\
MATHEMATICAL BOLD ITALIC CAPITAL UPSILON:\u{1D730}\n\
MATHEMATICAL BOLD ITALIC CAPITAL PHI:\u{1D731}\n\
MATHEMATICAL BOLD ITALIC CAPITAL CHI:\u{1D732}\n\
MATHEMATICAL BOLD ITALIC CAPITAL PSI:\u{1D733}\n\
MATHEMATICAL BOLD ITALIC CAPITAL OMEGA:\u{1D734}\n\
MATHEMATICAL BOLD ITALIC NABLA:\u{1D735}\n\
MATHEMATICAL BOLD ITALIC SMALL ALPHA:\u{1D736}\n\
MATHEMATICAL BOLD ITALIC SMALL BETA:\u{1D737}\n\
MATHEMATICAL BOLD ITALIC SMALL GAMMA:\u{1D738}\n\
MATHEMATICAL BOLD ITALIC SMALL DELTA:\u{1D739}\n\
MATHEMATICAL BOLD ITALIC SMALL EPSILON:\u{1D73A}\n\
MATHEMATICAL BOLD ITALIC SMALL ZETA:\u{1D73B}\n\
MATHEMATICAL BOLD ITALIC SMALL ETA:\u{1D73C}\n\
MATHEMATICAL BOLD ITALIC SMALL THETA:\u{1D73D}\n\
MATHEMATICAL BOLD ITALIC SMALL IOTA:\u{1D73E}\n\
MATHEMATICAL BOLD ITALIC SMALL KAPPA:\u{1D73F}\n\
MATHEMATICAL BOLD ITALIC SMALL LAMDA:\u{1D740}\n\
MATHEMATICAL BOLD ITALIC SMALL MU:\u{1D741}\n\
MATHEMATICAL BOLD ITALIC SMALL NU:\u{1D742}\n\
MATHEMATICAL BOLD ITALIC SMALL XI:\u{1D743}\n\
MATHEMATICAL BOLD ITALIC SMALL OMICRON:\u{1D744}\n\
MATHEMATICAL BOLD ITALIC SMALL PI:\u{1D745}\n\
MATHEMATICAL BOLD ITALIC SMALL RHO:\u{1D746}\n\
MATHEMATICAL BOLD ITALIC SMALL FINAL SIGMA:\u{1D747}\n\
MATHEMATICAL BOLD ITALIC SMALL SIGMA:\u{1D748}\n\
MATHEMATICAL BOLD ITALIC SMALL TAU:\u{1D749}\n\
MATHEMATICAL BOLD ITALIC SMALL UPSILON:\u{1D74A}\n\
MATHEMATICAL BOLD ITALIC SMALL PHI:\u{1D74B}\n\
MATHEMATICAL BOLD ITALIC SMALL CHI:\u{1D74C}\n\
MATHEMATICAL BOLD ITALIC SMALL PSI:\u{1D74D}\n\
MATHEMATICAL BOLD ITALIC SMALL OMEGA:\u{1D74E}\n\
MATHEMATICAL BOLD ITALIC PARTIAL DIFFERENTIAL:\u{1D74F}\n\
MATHEMATICAL BOLD ITALIC EPSILON SYMBOL:\u{1D750}\n\
MATHEMATICAL BOLD ITALIC THETA SYMBOL:\u{1D751}\n\
MATHEMATICAL BOLD ITALIC KAPPA SYMBOL:\u{1D752}\n\
MATHEMATICAL BOLD ITALIC PHI SYMBOL:\u{1D753}\n\
MATHEMATICAL BOLD ITALIC RHO SYMBOL:\u{1D754}\n\
MATHEMATICAL BOLD ITALIC PI SYMBOL:\u{1D755}\n\
MATHEMATICAL SANS-SERIF BOLD CAPITAL ALPHA:\u{1D756}\n\
MATHEMATICAL SANS-SERIF BOLD CAPITAL BETA:\u{1D757}\n\
MATHEMATICAL SANS-SERIF BOLD CAPITAL GAMMA:\u{1D758}\n\
MATHEMATICAL SANS-SERIF BOLD CAPITAL DELTA:\u{1D759}\n\
MATHEMATICAL SANS-SERIF BOLD CAPITAL EPSILON:\u{1D75A}\n\
MATHEMATICAL SANS-SERIF BOLD CAPITAL ZETA:\u{1D75B}\n\
MATHEMATICAL SANS-SERIF BOLD CAPITAL ETA:\u{1D75C}\n\
MATHEMATICAL SANS-SERIF BOLD CAPITAL THETA:\u{1D75D}\n\
MATHEMATICAL SANS-SERIF BOLD CAPITAL IOTA:\u{1D75E}\n\
MATHEMATICAL SANS-SERIF BOLD CAPITAL KAPPA:\u{1D75F}\n\
MATHEMATICAL SANS-SERIF BOLD CAPITAL LAMDA:\u{1D760}\n\
MATHEMATICAL SANS-SERIF BOLD CAPITAL MU:\u{1D761}\n\
MATHEMATICAL SANS-SERIF BOLD CAPITAL NU:\u{1D762}\n\
MATHEMATICAL SANS-SERIF BOLD CAPITAL XI:\u{1D763}\n\
MATHEMATICAL SANS-SERIF BOLD CAPITAL OMICRON:\u{1D764}\n\
MATHEMATICAL SANS-SERIF BOLD CAPITAL PI:\u{1D765}\n\
MATHEMATICAL SANS-SERIF BOLD CAPITAL RHO:\u{1D766}\n\
MATHEMATICAL SANS-SERIF BOLD CAPITAL THETA SYMBOL:\u{1D767}\n\
MATHEMATICAL SANS-SERIF BOLD CAPITAL SIGMA:\u{1D768}\n\
MATHEMATICAL SANS-SERIF BOLD CAPITAL TAU:\u{1D769}\n\
MATHEMATICAL SANS-SERIF BOLD CAPITAL UPSILON:\u{1D76A}\n\
MATHEMATICAL SANS-SERIF BOLD CAPITAL PHI:\u{1D76B}\n\
MATHEMATICAL SANS-SERIF BOLD CAPITAL CHI:\u{1D76C}\n\
MATHEMATICAL SANS-SERIF BOLD CAPITAL PSI:\u{1D76D}\n\
MATHEMATICAL SANS-SERIF BOLD CAPITAL OMEGA:\u{1D76E}\n\
MATHEMATICAL SANS-SERIF BOLD NABLA:\u{1D76F}\n\
MATHEMATICAL SANS-SERIF BOLD SMALL ALPHA:\u{1D770}\n\
MATHEMATICAL SANS-SERIF BOLD SMALL BETA:\u{1D771}\n\
MATHEMATICAL SANS-SERIF BOLD SMALL GAMMA:\u{1D772}\n\
MATHEMATICAL SANS-SERIF BOLD SMALL DELTA:\u{1D773}\n\
MATHEMATICAL SANS-SERIF BOLD SMALL EPSILON:\u{1D774}\n\
MATHEMATICAL SANS-SERIF BOLD SMALL ZETA:\u{1D775}\n\
MATHEMATICAL SANS-SERIF BOLD SMALL ETA:\u{1D776}\n\
MATHEMATICAL SANS-SERIF BOLD SMALL THETA:\u{1D777}\n\
MATHEMATICAL SANS-SERIF BOLD SMALL IOTA:\u{1D778}\n\
MATHEMATICAL SANS-SERIF BOLD SMALL KAPPA:\u{1D779}\n\
MATHEMATICAL SANS-SERIF BOLD SMALL LAMDA:\u{1D77A}\n\
MATHEMATICAL SANS-SERIF BOLD SMALL MU:\u{1D77B}\n\
MATHEMATICAL SANS-SERIF BOLD SMALL NU:\u{1D77C}\n\
MATHEMATICAL SANS-SERIF BOLD SMALL XI:\u{1D77D}\n\
MATHEMATICAL SANS-SERIF BOLD SMALL OMICRON:\u{1D77E}\n\
MATHEMATICAL SANS-SERIF BOLD SMALL PI:\u{1D77F}\n\
MATHEMATICAL SANS-SERIF BOLD SMALL RHO:\u{1D780}\n\
MATHEMATICAL SANS-SERIF BOLD SMALL FINAL SIGMA:\u{1D781}\n\
MATHEMATICAL SANS-SERIF BOLD SMALL SIGMA:\u{1D782}\n\
MATHEMATICAL SANS-SERIF BOLD SMALL TAU:\u{1D783}\n\
MATHEMATICAL SANS-SERIF BOLD SMALL UPSILON:\u{1D784}\n\
MATHEMATICAL SANS-SERIF BOLD SMALL PHI:\u{1D785}\n\
MATHEMATICAL SANS-SERIF BOLD SMALL CHI:\u{1D786}\n\
MATHEMATICAL SANS-SERIF BOLD SMALL PSI:\u{1D787}\n\
MATHEMATICAL SANS-SERIF BOLD SMALL OMEGA:\u{1D788}\n\
MATHEMATICAL SANS-SERIF BOLD PARTIAL DIFFERENTIAL:\u{1D789}\n\
MATHEMATICAL SANS-SERIF BOLD EPSILON SYMBOL:\u{1D78A}\n\
MATHEMATICAL SANS-SERIF BOLD THETA SYMBOL:\u{1D78B}\n\
MATHEMATICAL SANS-SERIF BOLD KAPPA SYMBOL:\u{1D78C}\n\
MATHEMATICAL SANS-SERIF BOLD PHI SYMBOL:\u{1D78D}\n\
MATHEMATICAL SANS-SERIF BOLD RHO SYMBOL:\u{1D78E}\n\
MATHEMATICAL SANS-SERIF BOLD PI SYMBOL:\u{1D78F}\n\
MATHEMATICAL SANS-SERIF BOLD ITALIC CAPITAL ALPHA:\u{1D790}\n\
MATHEMATICAL SANS-SERIF BOLD ITALIC CAPITAL BETA:\u{1D791}\n\
MATHEMATICAL SANS-SERIF BOLD ITALIC CAPITAL GAMMA:\u{1D792}\n\
MATHEMATICAL SANS-SERIF BOLD ITALIC CAPITAL DELTA:\u{1D793}\n\
MATHEMATICAL SANS-SERIF BOLD ITALIC CAPITAL EPSILON:\u{1D794}\n\
MATHEMATICAL SANS-SERIF BOLD ITALIC CAPITAL ZETA:\u{1D795}\n\
MATHEMATICAL SANS-SERIF BOLD ITALIC CAPITAL ETA:\u{1D796}\n\
MATHEMATICAL SANS-SERIF BOLD ITALIC CAPITAL THETA:\u{1D797}\n\
MATHEMATICAL SANS-SERIF BOLD ITALIC CAPITAL IOTA:\u{1D798}\n\
MATHEMATICAL SANS-SERIF BOLD ITALIC CAPITAL KAPPA:\u{1D799}\n\
MATHEMATICAL SANS-SERIF BOLD ITALIC CAPITAL LAMDA:\u{1D79A}\n\
MATHEMATICAL SANS-SERIF BOLD ITALIC CAPITAL MU:\u{1D79B}\n\
MATHEMATICAL SANS-SERIF BOLD ITALIC CAPITAL NU:\u{1D79C}\n\
MATHEMATICAL SANS-SERIF BOLD ITALIC CAPITAL XI:\u{1D79D}\n\
MATHEMATICAL SANS-SERIF BOLD ITALIC CAPITAL OMICRON:\u{1D79E}\n\
MATHEMATICAL SANS-SERIF BOLD ITALIC CAPITAL PI:\u{1D79F}\n\
MATHEMATICAL SANS-SERIF BOLD ITALIC CAPITAL RHO:\u{1D7A0}\n\
MATHEMATICAL SANS-SERIF BOLD ITALIC CAPITAL THETA SYMBOL:\u{1D7A1}\n\
MATHEMATICAL SANS-SERIF BOLD ITALIC CAPITAL SIGMA:\u{1D7A2}\n\
MATHEMATICAL SANS-SERIF BOLD ITALIC CAPITAL TAU:\u{1D7A3}\n\
MATHEMATICAL SANS-SERIF BOLD ITALIC CAPITAL UPSILON:\u{1D7A4}\n\
MATHEMATICAL SANS-SERIF BOLD ITALIC CAPITAL PHI:\u{1D7A5}\n\
MATHEMATICAL SANS-SERIF BOLD ITALIC CAPITAL CHI:\u{1D7A6}\n\
MATHEMATICAL SANS-SERIF BOLD ITALIC CAPITAL PSI:\u{1D7A7}\n\
MATHEMATICAL SANS-SERIF BOLD ITALIC CAPITAL OMEGA:\u{1D7A8}\n\
MATHEMATICAL SANS-SERIF BOLD ITALIC NABLA:\u{1D7A9}\n\
MATHEMATICAL SANS-SERIF BOLD ITALIC SMALL ALPHA:\u{1D7AA}\n\
MATHEMATICAL SANS-SERIF BOLD ITALIC SMALL BETA:\u{1D7AB}\n\
MATHEMATICAL SANS-SERIF BOLD ITALIC SMALL GAMMA:\u{1D7AC}\n\
MATHEMATICAL SANS-SERIF BOLD ITALIC SMALL DELTA:\u{1D7AD}\n\
MATHEMATICAL SANS-SERIF BOLD ITALIC SMALL EPSILON:\u{1D7AE}\n\
MATHEMATICAL SANS-SERIF BOLD ITALIC SMALL ZETA:\u{1D7AF}\n\
MATHEMATICAL SANS-SERIF BOLD ITALIC SMALL ETA:\u{1D7B0}\n\
MATHEMATICAL SANS-SERIF BOLD ITALIC SMALL THETA:\u{1D7B1}\n\
MATHEMATICAL SANS-SERIF BOLD ITALIC SMALL IOTA:\u{1D7B2}\n\
MATHEMATICAL SANS-SERIF BOLD ITALIC SMALL KAPPA:\u{1D7B3}\n\
MATHEMATICAL SANS-SERIF BOLD ITALIC SMALL LAMDA:\u{1D7B4}\n\
MATHEMATICAL SANS-SERIF BOLD ITALIC SMALL MU:\u{1D7B5}\n\
MATHEMATICAL SANS-SERIF BOLD ITALIC SMALL NU:\u{1D7B6}\n\
MATHEMATICAL SANS-SERIF BOLD ITALIC SMALL XI:\u{1D7B7}\n\
MATHEMATICAL SANS-SERIF BOLD ITALIC SMALL OMICRON:\u{1D7B8}\n\
MATHEMATICAL SANS-SERIF BOLD ITALIC SMALL PI:\u{1D7B9}\n\
MATHEMATICAL SANS-SERIF BOLD ITALIC SMALL RHO:\u{1D7BA}\n\
MATHEMATICAL SANS-SERIF BOLD ITALIC SMALL FINAL SIGMA:\u{1D7BB}\n\
MATHEMATICAL SANS-SERIF BOLD ITALIC SMALL SIGMA:\u{1D7BC}\n\
MATHEMATICAL SANS-SERIF BOLD ITALIC SMALL TAU:\u{1D7BD}\n\
MATHEMATICAL SANS-SERIF BOLD ITALIC SMALL UPSILON:\u{1D7BE}\n\
MATHEMATICAL SANS-SERIF BOLD ITALIC SMALL PHI:\u{1D7BF}\n\
MATHEMATICAL SANS-SERIF BOLD ITALIC SMALL CHI:\u{1D7C0}\n\
MATHEMATICAL SANS-SERIF BOLD ITALIC SMALL PSI:\u{1D7C1}\n\
MATHEMATICAL SANS-SERIF BOLD ITALIC SMALL OMEGA:\u{1D7C2}\n\
MATHEMATICAL SANS-SERIF BOLD ITALIC PARTIAL DIFFERENTIAL:\u{1D7C3}\n\
MATHEMATICAL SANS-SERIF BOLD ITALIC EPSILON SYMBOL:\u{1D7C4}\n\
MATHEMATICAL SANS-SERIF BOLD ITALIC THETA SYMBOL:\u{1D7C5}\n\
MATHEMATICAL SANS-SERIF BOLD ITALIC KAPPA SYMBOL:\u{1D7C6}\n\
MATHEMATICAL SANS-SERIF BOLD ITALIC PHI SYMBOL:\u{1D7C7}\n\
MATHEMATICAL SANS-SERIF BOLD ITALIC RHO SYMBOL:\u{1D7C8}\n\
MATHEMATICAL SANS-SERIF BOLD ITALIC PI SYMBOL:\u{1D7C9}\n\
MATHEMATICAL BOLD CAPITAL DIGAMMA:\u{1D7CA}\n\
MATHEMATICAL BOLD SMALL DIGAMMA:\u{1D7CB}\n\
MATHEMATICAL BOLD DIGIT ZERO:\u{1D7CE}\n\
MATHEMATICAL BOLD DIGIT ONE:\u{1D7CF}\n\
MATHEMATICAL BOLD DIGIT TWO:\u{1D7D0}\n\
MATHEMATICAL BOLD DIGIT THREE:\u{1D7D1}\n\
MATHEMATICAL BOLD DIGIT FOUR:\u{1D7D2}\n\
MATHEMATICAL BOLD DIGIT FIVE:\u{1D7D3}\n\
MATHEMATICAL BOLD DIGIT SIX:\u{1D7D4}\n\
MATHEMATICAL BOLD DIGIT SEVEN:\u{1D7D5}\n\
MATHEMATICAL BOLD DIGIT EIGHT:\u{1D7D6}\n\
MATHEMATICAL BOLD DIGIT NINE:\u{1D7D7}\n\
MATHEMATICAL DOUBLE-STRUCK DIGIT ZERO:\u{1D7D8}\n\
MATHEMATICAL DOUBLE-STRUCK DIGIT ONE:\u{1D7D9}\n\
MATHEMATICAL DOUBLE-STRUCK DIGIT TWO:\u{1D7DA}\n\
MATHEMATICAL DOUBLE-STRUCK DIGIT THREE:\u{1D7DB}\n\
MATHEMATICAL DOUBLE-STRUCK DIGIT FOUR:\u{1D7DC}\n\
MATHEMATICAL DOUBLE-STRUCK DIGIT FIVE:\u{1D7DD}\n\
MATHEMATICAL DOUBLE-STRUCK DIGIT SIX:\u{1D7DE}\n\
MATHEMATICAL DOUBLE-STRUCK DIGIT SEVEN:\u{1D7DF}\n\
MATHEMATICAL DOUBLE-STRUCK DIGIT EIGHT:\u{1D7E0}\n\
MATHEMATICAL DOUBLE-STRUCK DIGIT NINE:\u{1D7E1}\n\
MATHEMATICAL SANS-SERIF DIGIT ZERO:\u{1D7E2}\n\
MATHEMATICAL SANS-SERIF DIGIT ONE:\u{1D7E3}\n\
MATHEMATICAL SANS-SERIF DIGIT TWO:\u{1D7E4}\n\
MATHEMATICAL SANS-SERIF DIGIT THREE:\u{1D7E5}\n\
MATHEMATICAL SANS-SERIF DIGIT FOUR:\u{1D7E6}\n\
MATHEMATICAL SANS-SERIF DIGIT FIVE:\u{1D7E7}\n\
MATHEMATICAL SANS-SERIF DIGIT SIX:\u{1D7E8}\n\
MATHEMATICAL SANS-SERIF DIGIT SEVEN:\u{1D7E9}\n\
MATHEMATICAL SANS-SERIF DIGIT EIGHT:\u{1D7EA}\n\
MATHEMATICAL SANS-SERIF DIGIT NINE:\u{1D7EB}\n\
MATHEMATICAL SANS-SERIF BOLD DIGIT ZERO:\u{1D7EC}\n\
MATHEMATICAL SANS-SERIF BOLD DIGIT ONE:\u{1D7ED}\n\
MATHEMATICAL SANS-SERIF BOLD DIGIT TWO:\u{1D7EE}\n\
MATHEMATICAL SANS-SERIF BOLD DIGIT THREE:\u{1D7EF}\n\
MATHEMATICAL SANS-SERIF BOLD DIGIT FOUR:\u{1D7F0}\n\
MATHEMATICAL SANS-SERIF BOLD DIGIT FIVE:\u{1D7F1}\n\
MATHEMATICAL SANS-SERIF BOLD DIGIT SIX:\u{1D7F2}\n\
MATHEMATICAL SANS-SERIF BOLD DIGIT SEVEN:\u{1D7F3}\n\
MATHEMATICAL SANS-SERIF BOLD DIGIT EIGHT:\u{1D7F4}\n\
MATHEMATICAL SANS-SERIF BOLD DIGIT NINE:\u{1D7F5}\n\
MATHEMATICAL MONOSPACE DIGIT ZERO:\u{1D7F6}\n\
MATHEMATICAL MONOSPACE DIGIT ONE:\u{1D7F7}\n";

pub const NAMES_73: &'static str = "MATHEMATICAL MONOSPACE DIGIT TWO:\u{1D7F8}\n\
MATHEMATICAL MONOSPACE DIGIT THREE:\u{1D7F9}\n\
MATHEMATICAL MONOSPACE DIGIT FOUR:\u{1D7FA}\n\
MATHEMATICAL MONOSPACE DIGIT FIVE:\u{1D7FB}\n\
MATHEMATICAL MONOSPACE DIGIT SIX:\u{1D7FC}\n\
MATHEMATICAL MONOSPACE DIGIT SEVEN:\u{1D7FD}\n\
MATHEMATICAL MONOSPACE DIGIT EIGHT:\u{1D7FE}\n\
MATHEMATICAL MONOSPACE DIGIT NINE:\u{1D7FF}\n\
SIGNWRITING HAND-FIST INDEX:\u{1D800}\n\
SIGNWRITING HAND-CIRCLE INDEX:\u{1D801}\n\
SIGNWRITING HAND-CUP INDEX:\u{1D802}\n\
SIGNWRITING HAND-OVAL INDEX:\u{1D803}\n\
SIGNWRITING HAND-HINGE INDEX:\u{1D804}\n\
SIGNWRITING HAND-ANGLE INDEX:\u{1D805}\n\
SIGNWRITING HAND-FIST INDEX BENT:\u{1D806}\n\
SIGNWRITING HAND-CIRCLE INDEX BENT:\u{1D807}\n\
SIGNWRITING HAND-FIST THUMB UNDER INDEX BENT:\u{1D808}\n\
SIGNWRITING HAND-FIST INDEX RAISED KNUCKLE:\u{1D809}\n\
SIGNWRITING HAND-FIST INDEX CUPPED:\u{1D80A}\n\
SIGNWRITING HAND-FIST INDEX HINGED:\u{1D80B}\n\
SIGNWRITING HAND-FIST INDEX HINGED LOW:\u{1D80C}\n\
SIGNWRITING HAND-CIRCLE INDEX HINGE:\u{1D80D}\n\
SIGNWRITING HAND-FIST INDEX MIDDLE:\u{1D80E}\n\
SIGNWRITING HAND-CIRCLE INDEX MIDDLE:\u{1D80F}\n\
SIGNWRITING HAND-FIST INDEX MIDDLE BENT:\u{1D810}\n\
SIGNWRITING HAND-FIST INDEX MIDDLE RAISED KNUCKLES:\u{1D811}\n\
SIGNWRITING HAND-FIST INDEX MIDDLE HINGED:\u{1D812}\n\
SIGNWRITING HAND-FIST INDEX UP MIDDLE HINGED:\u{1D813}\n\
SIGNWRITING HAND-FIST INDEX HINGED MIDDLE UP:\u{1D814}\n\
SIGNWRITING HAND-FIST INDEX MIDDLE CONJOINED:\u{1D815}\n\
SIGNWRITING HAND-FIST INDEX MIDDLE CONJOINED INDEX BENT:\u{1D816}\n\
SIGNWRITING HAND-FIST INDEX MIDDLE CONJOINED MIDDLE BENT:\u{1D817}\n\
SIGNWRITING HAND-FIST INDEX MIDDLE CONJOINED CUPPED:\u{1D818}\n\
SIGNWRITING HAND-FIST INDEX MIDDLE CONJOINED HINGED:\u{1D819}\n\
SIGNWRITING HAND-FIST INDEX MIDDLE CROSSED:\u{1D81A}\n\
SIGNWRITING HAND-CIRCLE INDEX MIDDLE CROSSED:\u{1D81B}\n\
SIGNWRITING HAND-FIST MIDDLE BENT OVER INDEX:\u{1D81C}\n\
SIGNWRITING HAND-FIST INDEX BENT OVER MIDDLE:\u{1D81D}\n\
SIGNWRITING HAND-FIST INDEX MIDDLE THUMB:\u{1D81E}\n\
SIGNWRITING HAND-CIRCLE INDEX MIDDLE THUMB:\u{1D81F}\n\
SIGNWRITING HAND-FIST INDEX MIDDLE STRAIGHT THUMB BENT:\u{1D820}\n\
SIGNWRITING HAND-FIST INDEX MIDDLE BENT THUMB STRAIGHT:\u{1D821}\n\
SIGNWRITING HAND-FIST INDEX MIDDLE THUMB BENT:\u{1D822}\n\
SIGNWRITING HAND-FIST INDEX MIDDLE HINGED SPREAD THUMB SIDE:\u{1D823}\n\
SIGNWRITING HAND-FIST INDEX UP MIDDLE HINGED THUMB SIDE:\u{1D824}\n\
SIGNWRITING HAND-FIST INDEX UP MIDDLE HINGED THUMB CONJOINED:\u{1D825}\n\
SIGNWRITING HAND-FIST INDEX HINGED MIDDLE UP THUMB SIDE:\u{1D826}\n\
SIGNWRITING HAND-FIST INDEX MIDDLE UP SPREAD THUMB FORWARD:\u{1D827}\n\
SIGNWRITING HAND-FIST INDEX MIDDLE THUMB CUPPED:\u{1D828}\n\
SIGNWRITING HAND-FIST INDEX MIDDLE THUMB CIRCLED:\u{1D829}\n\
SIGNWRITING HAND-FIST INDEX MIDDLE THUMB HOOKED:\u{1D82A}\n\
SIGNWRITING HAND-FIST INDEX MIDDLE THUMB HINGED:\u{1D82B}\n\
SIGNWRITING HAND-FIST THUMB BETWEEN INDEX MIDDLE STRAIGHT:\u{1D82C}\n\
SIGNWRITING HAND-FIST INDEX MIDDLE CONJOINED THUMB SIDE:\u{1D82D}\n\
SIGNWRITING HAND-FIST INDEX MIDDLE CONJOINED THUMB SIDE CONJOINED:\u{1D82E}\n\
SIGNWRITING HAND-FIST INDEX MIDDLE CONJOINED THUMB SIDE BENT:\u{1D82F}\n\
SIGNWRITING HAND-FIST MIDDLE THUMB HOOKED INDEX UP:\u{1D830}\n\
SIGNWRITING HAND-FIST INDEX THUMB HOOKED MIDDLE UP:\u{1D831}\n\
SIGNWRITING HAND-FIST INDEX MIDDLE CONJOINED HINGED THUMB SIDE:\u{1D832}\n\
SIGNWRITING HAND-FIST INDEX MIDDLE CROSSED THUMB SIDE:\u{1D833}\n\
SIGNWRITING HAND-FIST INDEX MIDDLE CONJOINED THUMB FORWARD:\u{1D834}\n\
SIGNWRITING HAND-FIST INDEX MIDDLE CONJOINED CUPPED THUMB FORWARD:\u{1D835}\n\
SIGNWRITING HAND-FIST MIDDLE THUMB CUPPED INDEX UP:\u{1D836}\n\
SIGNWRITING HAND-FIST INDEX THUMB CUPPED MIDDLE UP:\u{1D837}\n\
SIGNWRITING HAND-FIST MIDDLE THUMB CIRCLED INDEX UP:\u{1D838}\n\
SIGNWRITING HAND-FIST MIDDLE THUMB CIRCLED INDEX HINGED:\u{1D839}\n\
SIGNWRITING HAND-FIST INDEX THUMB ANGLED OUT MIDDLE UP:\u{1D83A}\n\
SIGNWRITING HAND-FIST INDEX THUMB ANGLED IN MIDDLE UP:\u{1D83B}\n\
SIGNWRITING HAND-FIST INDEX THUMB CIRCLED MIDDLE UP:\u{1D83C}\n\
SIGNWRITING HAND-FIST INDEX MIDDLE THUMB CONJOINED HINGED:\u{1D83D}\n\
SIGNWRITING HAND-FIST INDEX MIDDLE THUMB ANGLED OUT:\u{1D83E}\n\
SIGNWRITING HAND-FIST INDEX MIDDLE THUMB ANGLED:\u{1D83F}\n\
SIGNWRITING HAND-FIST MIDDLE THUMB ANGLED OUT INDEX UP:\u{1D840}\n\
SIGNWRITING HAND-FIST MIDDLE THUMB ANGLED OUT INDEX CROSSED:\u{1D841}\n\
SIGNWRITING HAND-FIST MIDDLE THUMB ANGLED INDEX UP:\u{1D842}\n\
SIGNWRITING HAND-FIST INDEX THUMB HOOKED MIDDLE HINGED:\u{1D843}\n\
SIGNWRITING HAND-FLAT FOUR FINGERS:\u{1D844}\n\
SIGNWRITING HAND-FLAT FOUR FINGERS BENT:\u{1D845}\n\
SIGNWRITING HAND-FLAT FOUR FINGERS HINGED:\u{1D846}\n\
SIGNWRITING HAND-FLAT FOUR FINGERS CONJOINED:\u{1D847}\n\
SIGNWRITING HAND-FLAT FOUR FINGERS CONJOINED SPLIT:\u{1D848}\n\
SIGNWRITING HAND-CLAW FOUR FINGERS CONJOINED:\u{1D849}\n\
SIGNWRITING HAND-FIST FOUR FINGERS CONJOINED BENT:\u{1D84A}\n\
SIGNWRITING HAND-HINGE FOUR FINGERS CONJOINED:\u{1D84B}\n\
SIGNWRITING HAND-FLAT FIVE FINGERS SPREAD:\u{1D84C}\n\
SIGNWRITING HAND-FLAT HEEL FIVE FINGERS SPREAD:\u{1D84D}\n\
SIGNWRITING HAND-FLAT FIVE FINGERS SPREAD FOUR BENT:\u{1D84E}\n\
SIGNWRITING HAND-FLAT HEEL FIVE FINGERS SPREAD FOUR BENT:\u{1D84F}\n\
SIGNWRITING HAND-FLAT FIVE FINGERS SPREAD BENT:\u{1D850}\n\
SIGNWRITING HAND-FLAT HEEL FIVE FINGERS SPREAD BENT:\u{1D851}\n\
SIGNWRITING HAND-FLAT FIVE FINGERS SPREAD THUMB FORWARD:\u{1D852}\n\
SIGNWRITING HAND-CUP FIVE FINGERS SPREAD:\u{1D853}\n\
SIGNWRITING HAND-CUP FIVE FINGERS SPREAD OPEN:\u{1D854}\n\
SIGNWRITING HAND-HINGE FIVE FINGERS SPREAD OPEN:\u{1D855}\n\
SIGNWRITING HAND-OVAL FIVE FINGERS SPREAD:\u{1D856}\n\
SIGNWRITING HAND-FLAT FIVE FINGERS SPREAD HINGED:\u{1D857}\n\
SIGNWRITING HAND-FLAT FIVE FINGERS SPREAD HINGED THUMB SIDE:\u{1D858}\n\
SIGNWRITING HAND-FLAT FIVE FINGERS SPREAD HINGED NO THUMB:\u{1D859}\n\
SIGNWRITING HAND-FLAT:\u{1D85A}\n\
SIGNWRITING HAND-FLAT BETWEEN PALM FACINGS:\u{1D85B}\n\
SIGNWRITING HAND-FLAT HEEL:\u{1D85C}\n\
SIGNWRITING HAND-FLAT THUMB SIDE:\u{1D85D}\n\
SIGNWRITING HAND-FLAT HEEL THUMB SIDE:\u{1D85E}\n\
SIGNWRITING HAND-FLAT THUMB BENT:\u{1D85F}\n\
SIGNWRITING HAND-FLAT THUMB FORWARD:\u{1D860}\n\
SIGNWRITING HAND-FLAT SPLIT INDEX THUMB SIDE:\u{1D861}\n\
SIGNWRITING HAND-FLAT SPLIT CENTRE:\u{1D862}\n\
SIGNWRITING HAND-FLAT SPLIT CENTRE THUMB SIDE:\u{1D863}\n\
SIGNWRITING HAND-FLAT SPLIT CENTRE THUMB SIDE BENT:\u{1D864}\n\
SIGNWRITING HAND-FLAT SPLIT LITTLE:\u{1D865}\n\
SIGNWRITING HAND-CLAW:\u{1D866}\n\
SIGNWRITING HAND-CLAW THUMB SIDE:\u{1D867}\n\
SIGNWRITING HAND-CLAW NO THUMB:\u{1D868}\n\
SIGNWRITING HAND-CLAW THUMB FORWARD:\u{1D869}\n\
SIGNWRITING HAND-HOOK CURLICUE:\u{1D86A}\n\
SIGNWRITING HAND-HOOK:\u{1D86B}\n\
SIGNWRITING HAND-CUP OPEN:\u{1D86C}\n\
SIGNWRITING HAND-CUP:\u{1D86D}\n\
SIGNWRITING HAND-CUP OPEN THUMB SIDE:\u{1D86E}\n\
SIGNWRITING HAND-CUP THUMB SIDE:\u{1D86F}\n\
SIGNWRITING HAND-CUP OPEN NO THUMB:\u{1D870}\n\
SIGNWRITING HAND-CUP NO THUMB:\u{1D871}\n\
SIGNWRITING HAND-CUP OPEN THUMB FORWARD:\u{1D872}\n\
SIGNWRITING HAND-CUP THUMB FORWARD:\u{1D873}\n\
SIGNWRITING HAND-CURLICUE OPEN:\u{1D874}\n\
SIGNWRITING HAND-CURLICUE:\u{1D875}\n\
SIGNWRITING HAND-CIRCLE:\u{1D876}\n\
SIGNWRITING HAND-OVAL:\u{1D877}\n\
SIGNWRITING HAND-OVAL THUMB SIDE:\u{1D878}\n\
SIGNWRITING HAND-OVAL NO THUMB:\u{1D879}\n\
SIGNWRITING HAND-OVAL THUMB FORWARD:\u{1D87A}\n\
SIGNWRITING HAND-HINGE OPEN:\u{1D87B}\n\
SIGNWRITING HAND-HINGE OPEN THUMB FORWARD:\u{1D87C}\n\
SIGNWRITING HAND-HINGE:\u{1D87D}\n\
SIGNWRITING HAND-HINGE SMALL:\u{1D87E}\n\
SIGNWRITING HAND-HINGE OPEN THUMB SIDE:\u{1D87F}\n\
SIGNWRITING HAND-HINGE THUMB SIDE:\u{1D880}\n\
SIGNWRITING HAND-HINGE OPEN NO THUMB:\u{1D881}\n\
SIGNWRITING HAND-HINGE NO THUMB:\u{1D882}\n\
SIGNWRITING HAND-HINGE THUMB SIDE TOUCHING INDEX:\u{1D883}\n\
SIGNWRITING HAND-HINGE THUMB BETWEEN MIDDLE RING:\u{1D884}\n\
SIGNWRITING HAND-ANGLE:\u{1D885}\n\
SIGNWRITING HAND-FIST INDEX MIDDLE RING:\u{1D886}\n\
SIGNWRITING HAND-CIRCLE INDEX MIDDLE RING:\u{1D887}\n\
SIGNWRITING HAND-HINGE INDEX MIDDLE RING:\u{1D888}\n\
SIGNWRITING HAND-ANGLE INDEX MIDDLE RING:\u{1D889}\n\
SIGNWRITING HAND-HINGE LITTLE:\u{1D88A}\n\
SIGNWRITING HAND-FIST INDEX MIDDLE RING BENT:\u{1D88B}\n\
SIGNWRITING HAND-FIST INDEX MIDDLE RING CONJOINED:\u{1D88C}\n\
SIGNWRITING HAND-HINGE INDEX MIDDLE RING CONJOINED:\u{1D88D}\n\
SIGNWRITING HAND-FIST LITTLE DOWN:\u{1D88E}\n\
SIGNWRITING HAND-FIST LITTLE DOWN RIPPLE STRAIGHT:\u{1D88F}\n\
SIGNWRITING HAND-FIST LITTLE DOWN RIPPLE CURVED:\u{1D890}\n\
SIGNWRITING HAND-FIST LITTLE DOWN OTHERS CIRCLED:\u{1D891}\n\
SIGNWRITING HAND-FIST LITTLE UP:\u{1D892}\n\
SIGNWRITING HAND-FIST THUMB UNDER LITTLE UP:\u{1D893}\n\
SIGNWRITING HAND-CIRCLE LITTLE UP:\u{1D894}\n\
SIGNWRITING HAND-OVAL LITTLE UP:\u{1D895}\n\
SIGNWRITING HAND-ANGLE LITTLE UP:\u{1D896}\n\
SIGNWRITING HAND-FIST LITTLE RAISED KNUCKLE:\u{1D897}\n\
SIGNWRITING HAND-FIST LITTLE BENT:\u{1D898}\n\
SIGNWRITING HAND-FIST LITTLE TOUCHES THUMB:\u{1D899}\n\
SIGNWRITING HAND-FIST LITTLE THUMB:\u{1D89A}\n\
SIGNWRITING HAND-HINGE LITTLE THUMB:\u{1D89B}\n\
SIGNWRITING HAND-FIST LITTLE INDEX THUMB:\u{1D89C}\n\
SIGNWRITING HAND-HINGE LITTLE INDEX THUMB:\u{1D89D}\n\
SIGNWRITING HAND-ANGLE LITTLE INDEX THUMB INDEX THUMB OUT:\u{1D89E}\n\
SIGNWRITING HAND-ANGLE LITTLE INDEX THUMB INDEX THUMB:\u{1D89F}\n\
SIGNWRITING HAND-FIST LITTLE INDEX:\u{1D8A0}\n\
SIGNWRITING HAND-CIRCLE LITTLE INDEX:\u{1D8A1}\n\
SIGNWRITING HAND-HINGE LITTLE INDEX:\u{1D8A2}\n\
SIGNWRITING HAND-ANGLE LITTLE INDEX:\u{1D8A3}\n\
SIGNWRITING HAND-FIST INDEX MIDDLE LITTLE:\u{1D8A4}\n\
SIGNWRITING HAND-CIRCLE INDEX MIDDLE LITTLE:\u{1D8A5}\n\
SIGNWRITING HAND-HINGE INDEX MIDDLE LITTLE:\u{1D8A6}\n\
SIGNWRITING HAND-HINGE RING:\u{1D8A7}\n\
SIGNWRITING HAND-ANGLE INDEX MIDDLE LITTLE:\u{1D8A8}\n\
SIGNWRITING HAND-FIST INDEX MIDDLE CROSS LITTLE:\u{1D8A9}\n\
SIGNWRITING HAND-CIRCLE INDEX MIDDLE CROSS LITTLE:\u{1D8AA}\n\
SIGNWRITING HAND-FIST RING DOWN:\u{1D8AB}\n\
SIGNWRITING HAND-HINGE RING DOWN INDEX THUMB HOOK MIDDLE:\u{1D8AC}\n\
SIGNWRITING HAND-ANGLE RING DOWN MIDDLE THUMB INDEX CROSS:\u{1D8AD}\n\
SIGNWRITING HAND-FIST RING UP:\u{1D8AE}\n\
SIGNWRITING HAND-FIST RING RAISED KNUCKLE:\u{1D8AF}\n\
SIGNWRITING HAND-FIST RING LITTLE:\u{1D8B0}\n\
SIGNWRITING HAND-CIRCLE RING LITTLE:\u{1D8B1}\n\
SIGNWRITING HAND-OVAL RING LITTLE:\u{1D8B2}\n\
SIGNWRITING HAND-ANGLE RING LITTLE:\u{1D8B3}\n\
SIGNWRITING HAND-FIST RING MIDDLE:\u{1D8B4}\n\
SIGNWRITING HAND-FIST RING MIDDLE CONJOINED:\u{1D8B5}\n\
SIGNWRITING HAND-FIST RING MIDDLE RAISED KNUCKLES:\u{1D8B6}\n\
SIGNWRITING HAND-FIST RING INDEX:\u{1D8B7}\n\
SIGNWRITING HAND-FIST RING THUMB:\u{1D8B8}\n\
SIGNWRITING HAND-HOOK RING THUMB:\u{1D8B9}\n\
SIGNWRITING HAND-FIST INDEX RING LITTLE:\u{1D8BA}\n\
SIGNWRITING HAND-CIRCLE INDEX RING LITTLE:\u{1D8BB}\n\
SIGNWRITING HAND-CURLICUE INDEX RING LITTLE ON:\u{1D8BC}\n\
SIGNWRITING HAND-HOOK INDEX RING LITTLE OUT:\u{1D8BD}\n\
SIGNWRITING HAND-HOOK INDEX RING LITTLE IN:\u{1D8BE}\n\
SIGNWRITING HAND-HOOK INDEX RING LITTLE UNDER:\u{1D8BF}\n\
SIGNWRITING HAND-CUP INDEX RING LITTLE:\u{1D8C0}\n\
SIGNWRITING HAND-HINGE INDEX RING LITTLE:\u{1D8C1}\n\
SIGNWRITING HAND-ANGLE INDEX RING LITTLE OUT:\u{1D8C2}\n\
SIGNWRITING HAND-ANGLE INDEX RING LITTLE:\u{1D8C3}\n\
SIGNWRITING HAND-FIST MIDDLE DOWN:\u{1D8C4}\n\
SIGNWRITING HAND-HINGE MIDDLE:\u{1D8C5}\n\
SIGNWRITING HAND-FIST MIDDLE UP:\u{1D8C6}\n\
SIGNWRITING HAND-CIRCLE MIDDLE UP:\u{1D8C7}\n\
SIGNWRITING HAND-FIST MIDDLE RAISED KNUCKLE:\u{1D8C8}\n\
SIGNWRITING HAND-FIST MIDDLE UP THUMB SIDE:\u{1D8C9}\n\
SIGNWRITING HAND-HOOK MIDDLE THUMB:\u{1D8CA}\n\
SIGNWRITING HAND-FIST MIDDLE THUMB LITTLE:\u{1D8CB}\n\
SIGNWRITING HAND-FIST MIDDLE LITTLE:\u{1D8CC}\n\
SIGNWRITING HAND-FIST MIDDLE RING LITTLE:\u{1D8CD}\n\
SIGNWRITING HAND-CIRCLE MIDDLE RING LITTLE:\u{1D8CE}\n\
SIGNWRITING HAND-CURLICUE MIDDLE RING LITTLE ON:\u{1D8CF}\n\
SIGNWRITING HAND-CUP MIDDLE RING LITTLE:\u{1D8D0}\n\
SIGNWRITING HAND-HINGE MIDDLE RING LITTLE:\u{1D8D1}\n\
SIGNWRITING HAND-ANGLE MIDDLE RING LITTLE OUT:\u{1D8D2}\n\
SIGNWRITING HAND-ANGLE MIDDLE RING LITTLE IN:\u{1D8D3}\n\
SIGNWRITING HAND-ANGLE MIDDLE RING LITTLE:\u{1D8D4}\n\
SIGNWRITING HAND-CIRCLE MIDDLE RING LITTLE BENT:\u{1D8D5}\n\
SIGNWRITING HAND-CLAW MIDDLE RING LITTLE CONJOINED:\u{1D8D6}\n\
SIGNWRITING HAND-CLAW MIDDLE RING LITTLE CONJOINED SIDE:\u{1D8D7}\n\
SIGNWRITING HAND-HOOK MIDDLE RING LITTLE CONJOINED OUT:\u{1D8D8}\n\
SIGNWRITING HAND-HOOK MIDDLE RING LITTLE CONJOINED IN:\u{1D8D9}\n\
SIGNWRITING HAND-HOOK MIDDLE RING LITTLE CONJOINED:\u{1D8DA}\n\
SIGNWRITING HAND-HINGE INDEX HINGED:\u{1D8DB}\n\
SIGNWRITING HAND-FIST INDEX THUMB SIDE:\u{1D8DC}\n\
SIGNWRITING HAND-HINGE INDEX THUMB SIDE:\u{1D8DD}\n\
SIGNWRITING HAND-FIST INDEX THUMB SIDE THUMB DIAGONAL:\u{1D8DE}\n\
SIGNWRITING HAND-FIST INDEX THUMB SIDE THUMB CONJOINED:\u{1D8DF}\n\
SIGNWRITING HAND-FIST INDEX THUMB SIDE THUMB BENT:\u{1D8E0}\n\
SIGNWRITING HAND-FIST INDEX THUMB SIDE INDEX BENT:\u{1D8E1}\n\
SIGNWRITING HAND-FIST INDEX THUMB SIDE BOTH BENT:\u{1D8E2}\n\
SIGNWRITING HAND-FIST INDEX THUMB SIDE INDEX HINGE:\u{1D8E3}\n\
SIGNWRITING HAND-FIST INDEX THUMB FORWARD INDEX STRAIGHT:\u{1D8E4}\n\
SIGNWRITING HAND-FIST INDEX THUMB FORWARD INDEX BENT:\u{1D8E5}\n\
SIGNWRITING HAND-FIST INDEX THUMB HOOK:\u{1D8E6}\n\
SIGNWRITING HAND-FIST INDEX THUMB CURLICUE:\u{1D8E7}\n\
SIGNWRITING HAND-FIST INDEX THUMB CURVE THUMB INSIDE:\u{1D8E8}\n\
SIGNWRITING HAND-CLAW INDEX THUMB CURVE THUMB INSIDE:\u{1D8E9}\n\
SIGNWRITING HAND-FIST INDEX THUMB CURVE THUMB UNDER:\u{1D8EA}\n\
SIGNWRITING HAND-FIST INDEX THUMB CIRCLE:\u{1D8EB}\n\
SIGNWRITING HAND-CUP INDEX THUMB:\u{1D8EC}\n\
SIGNWRITING HAND-CUP INDEX THUMB OPEN:\u{1D8ED}\n\
SIGNWRITING HAND-HINGE INDEX THUMB OPEN:\u{1D8EE}\n\
SIGNWRITING HAND-HINGE INDEX THUMB LARGE:\u{1D8EF}\n\
SIGNWRITING HAND-HINGE INDEX THUMB:\u{1D8F0}\n\
SIGNWRITING HAND-HINGE INDEX THUMB SMALL:\u{1D8F1}\n\
SIGNWRITING HAND-ANGLE INDEX THUMB OUT:\u{1D8F2}\n\
SIGNWRITING HAND-ANGLE INDEX THUMB IN:\u{1D8F3}\n\
SIGNWRITING HAND-ANGLE INDEX THUMB:\u{1D8F4}\n\
SIGNWRITING HAND-FIST THUMB:\u{1D8F5}\n\
SIGNWRITING HAND-FIST THUMB HEEL:\u{1D8F6}\n\
SIGNWRITING HAND-FIST THUMB SIDE DIAGONAL:\u{1D8F7}\n\
SIGNWRITING HAND-FIST THUMB SIDE CONJOINED:\u{1D8F8}\n\
SIGNWRITING HAND-FIST THUMB SIDE BENT:\u{1D8F9}\n\
SIGNWRITING HAND-FIST THUMB FORWARD:\u{1D8FA}\n\
SIGNWRITING HAND-FIST THUMB BETWEEN INDEX MIDDLE:\u{1D8FB}\n\
SIGNWRITING HAND-FIST THUMB BETWEEN MIDDLE RING:\u{1D8FC}\n\
SIGNWRITING HAND-FIST THUMB BETWEEN RING LITTLE:\u{1D8FD}\n\
SIGNWRITING HAND-FIST THUMB UNDER TWO FINGERS:\u{1D8FE}\n\
SIGNWRITING HAND-FIST THUMB OVER TWO FINGERS:\u{1D8FF}\n\
SIGNWRITING HAND-FIST THUMB UNDER THREE FINGERS:\u{1D900}\n\
SIGNWRITING HAND-FIST THUMB UNDER FOUR FINGERS:\u{1D901}\n\
SIGNWRITING HAND-FIST THUMB OVER FOUR RAISED KNUCKLES:\u{1D902}\n\
SIGNWRITING HAND-FIST:\u{1D903}\n\
SIGNWRITING HAND-FIST HEEL:\u{1D904}\n\
SIGNWRITING TOUCH SINGLE:\u{1D905}\n\
SIGNWRITING TOUCH MULTIPLE:\u{1D906}\n";

pub const NAMES_74: &'static str = "SIGNWRITING TOUCH BETWEEN:\u{1D907}\n\
SIGNWRITING GRASP SINGLE:\u{1D908}\n\
SIGNWRITING GRASP MULTIPLE:\u{1D909}\n\
SIGNWRITING GRASP BETWEEN:\u{1D90A}\n\
SIGNWRITING STRIKE SINGLE:\u{1D90B}\n\
SIGNWRITING STRIKE MULTIPLE:\u{1D90C}\n\
SIGNWRITING STRIKE BETWEEN:\u{1D90D}\n\
SIGNWRITING BRUSH SINGLE:\u{1D90E}\n\
SIGNWRITING BRUSH MULTIPLE:\u{1D90F}\n\
SIGNWRITING BRUSH BETWEEN:\u{1D910}\n\
SIGNWRITING RUB SINGLE:\u{1D911}\n\
SIGNWRITING RUB MULTIPLE:\u{1D912}\n\
SIGNWRITING RUB BETWEEN:\u{1D913}\n\
SIGNWRITING SURFACE SYMBOLS:\u{1D914}\n\
SIGNWRITING SURFACE BETWEEN:\u{1D915}\n\
SIGNWRITING SQUEEZE LARGE SINGLE:\u{1D916}\n\
SIGNWRITING SQUEEZE SMALL SINGLE:\u{1D917}\n\
SIGNWRITING SQUEEZE LARGE MULTIPLE:\u{1D918}\n\
SIGNWRITING SQUEEZE SMALL MULTIPLE:\u{1D919}\n\
SIGNWRITING SQUEEZE SEQUENTIAL:\u{1D91A}\n\
SIGNWRITING FLICK LARGE SINGLE:\u{1D91B}\n\
SIGNWRITING FLICK SMALL SINGLE:\u{1D91C}\n\
SIGNWRITING FLICK LARGE MULTIPLE:\u{1D91D}\n\
SIGNWRITING FLICK SMALL MULTIPLE:\u{1D91E}\n\
SIGNWRITING FLICK SEQUENTIAL:\u{1D91F}\n\
SIGNWRITING SQUEEZE FLICK ALTERNATING:\u{1D920}\n\
SIGNWRITING MOVEMENT-HINGE UP DOWN LARGE:\u{1D921}\n\
SIGNWRITING MOVEMENT-HINGE UP DOWN SMALL:\u{1D922}\n\
SIGNWRITING MOVEMENT-HINGE UP SEQUENTIAL:\u{1D923}\n\
SIGNWRITING MOVEMENT-HINGE DOWN SEQUENTIAL:\u{1D924}\n\
SIGNWRITING MOVEMENT-HINGE UP DOWN ALTERNATING LARGE:\u{1D925}\n\
SIGNWRITING MOVEMENT-HINGE UP DOWN ALTERNATING SMALL:\u{1D926}\n\
SIGNWRITING MOVEMENT-HINGE SIDE TO SIDE SCISSORS:\u{1D927}\n\
SIGNWRITING MOVEMENT-WALLPLANE FINGER CONTACT:\u{1D928}\n\
SIGNWRITING MOVEMENT-FLOORPLANE FINGER CONTACT:\u{1D929}\n\
SIGNWRITING MOVEMENT-WALLPLANE SINGLE STRAIGHT SMALL:\u{1D92A}\n\
SIGNWRITING MOVEMENT-WALLPLANE SINGLE STRAIGHT MEDIUM:\u{1D92B}\n\
SIGNWRITING MOVEMENT-WALLPLANE SINGLE STRAIGHT LARGE:\u{1D92C}\n\
SIGNWRITING MOVEMENT-WALLPLANE SINGLE STRAIGHT LARGEST:\u{1D92D}\n\
SIGNWRITING MOVEMENT-WALLPLANE SINGLE WRIST FLEX:\u{1D92E}\n\
SIGNWRITING MOVEMENT-WALLPLANE DOUBLE STRAIGHT:\u{1D92F}\n\
SIGNWRITING MOVEMENT-WALLPLANE DOUBLE WRIST FLEX:\u{1D930}\n\
SIGNWRITING MOVEMENT-WALLPLANE DOUBLE ALTERNATING:\u{1D931}\n\
SIGNWRITING MOVEMENT-WALLPLANE DOUBLE ALTERNATING WRIST FLEX:\u{1D932}\n\
SIGNWRITING MOVEMENT-WALLPLANE CROSS:\u{1D933}\n\
SIGNWRITING MOVEMENT-WALLPLANE TRIPLE STRAIGHT MOVEMENT:\u{1D934}\n\
SIGNWRITING MOVEMENT-WALLPLANE TRIPLE WRIST FLEX:\u{1D935}\n\
SIGNWRITING MOVEMENT-WALLPLANE TRIPLE ALTERNATING:\u{1D936}\n\
SIGNWRITING MOVEMENT-WALLPLANE TRIPLE ALTERNATING WRIST FLEX:\u{1D937}\n\
SIGNWRITING MOVEMENT-WALLPLANE BEND SMALL:\u{1D938}\n\
SIGNWRITING MOVEMENT-WALLPLANE BEND MEDIUM:\u{1D939}\n\
SIGNWRITING MOVEMENT-WALLPLANE BEND LARGE:\u{1D93A}\n\
SIGNWRITING MOVEMENT-WALLPLANE CORNER SMALL:\u{1D93B}\n\
SIGNWRITING MOVEMENT-WALLPLANE CORNER MEDIUM:\u{1D93C}\n\
SIGNWRITING MOVEMENT-WALLPLANE CORNER LARGE:\u{1D93D}\n\
SIGNWRITING MOVEMENT-WALLPLANE CORNER ROTATION:\u{1D93E}\n\
SIGNWRITING MOVEMENT-WALLPLANE CHECK SMALL:\u{1D93F}\n\
SIGNWRITING MOVEMENT-WALLPLANE CHECK MEDIUM:\u{1D940}\n\
SIGNWRITING MOVEMENT-WALLPLANE CHECK LARGE:\u{1D941}\n\
SIGNWRITING MOVEMENT-WALLPLANE BOX SMALL:\u{1D942}\n\
SIGNWRITING MOVEMENT-WALLPLANE BOX MEDIUM:\u{1D943}\n\
SIGNWRITING MOVEMENT-WALLPLANE BOX LARGE:\u{1D944}\n\
SIGNWRITING MOVEMENT-WALLPLANE ZIGZAG SMALL:\u{1D945}\n\
SIGNWRITING MOVEMENT-WALLPLANE ZIGZAG MEDIUM:\u{1D946}\n\
SIGNWRITING MOVEMENT-WALLPLANE ZIGZAG LARGE:\u{1D947}\n\
SIGNWRITING MOVEMENT-WALLPLANE PEAKS SMALL:\u{1D948}\n\
SIGNWRITING MOVEMENT-WALLPLANE PEAKS MEDIUM:\u{1D949}\n\
SIGNWRITING MOVEMENT-WALLPLANE PEAKS LARGE:\u{1D94A}\n\
SIGNWRITING TRAVEL-WALLPLANE ROTATION-WALLPLANE SINGLE:\u{1D94B}\n\
SIGNWRITING TRAVEL-WALLPLANE ROTATION-WALLPLANE DOUBLE:\u{1D94C}\n\
SIGNWRITING TRAVEL-WALLPLANE ROTATION-WALLPLANE ALTERNATING:\u{1D94D}\n\
SIGNWRITING TRAVEL-WALLPLANE ROTATION-FLOORPLANE SINGLE:\u{1D94E}\n\
SIGNWRITING TRAVEL-WALLPLANE ROTATION-FLOORPLANE DOUBLE:\u{1D94F}\n\
SIGNWRITING TRAVEL-WALLPLANE ROTATION-FLOORPLANE ALTERNATING:\u{1D950}\n\
SIGNWRITING TRAVEL-WALLPLANE SHAKING:\u{1D951}\n\
SIGNWRITING TRAVEL-WALLPLANE ARM SPIRAL SINGLE:\u{1D952}\n\
SIGNWRITING TRAVEL-WALLPLANE ARM SPIRAL DOUBLE:\u{1D953}\n\
SIGNWRITING TRAVEL-WALLPLANE ARM SPIRAL TRIPLE:\u{1D954}\n\
SIGNWRITING MOVEMENT-DIAGONAL AWAY SMALL:\u{1D955}\n\
SIGNWRITING MOVEMENT-DIAGONAL AWAY MEDIUM:\u{1D956}\n\
SIGNWRITING MOVEMENT-DIAGONAL AWAY LARGE:\u{1D957}\n\
SIGNWRITING MOVEMENT-DIAGONAL AWAY LARGEST:\u{1D958}\n\
SIGNWRITING MOVEMENT-DIAGONAL TOWARDS SMALL:\u{1D959}\n\
SIGNWRITING MOVEMENT-DIAGONAL TOWARDS MEDIUM:\u{1D95A}\n\
SIGNWRITING MOVEMENT-DIAGONAL TOWARDS LARGE:\u{1D95B}\n\
SIGNWRITING MOVEMENT-DIAGONAL TOWARDS LARGEST:\u{1D95C}\n\
SIGNWRITING MOVEMENT-DIAGONAL BETWEEN AWAY SMALL:\u{1D95D}\n\
SIGNWRITING MOVEMENT-DIAGONAL BETWEEN AWAY MEDIUM:\u{1D95E}\n\
SIGNWRITING MOVEMENT-DIAGONAL BETWEEN AWAY LARGE:\u{1D95F}\n\
SIGNWRITING MOVEMENT-DIAGONAL BETWEEN AWAY LARGEST:\u{1D960}\n\
SIGNWRITING MOVEMENT-DIAGONAL BETWEEN TOWARDS SMALL:\u{1D961}\n\
SIGNWRITING MOVEMENT-DIAGONAL BETWEEN TOWARDS MEDIUM:\u{1D962}\n\
SIGNWRITING MOVEMENT-DIAGONAL BETWEEN TOWARDS LARGE:\u{1D963}\n\
SIGNWRITING MOVEMENT-DIAGONAL BETWEEN TOWARDS LARGEST:\u{1D964}\n\
SIGNWRITING MOVEMENT-FLOORPLANE SINGLE STRAIGHT SMALL:\u{1D965}\n\
SIGNWRITING MOVEMENT-FLOORPLANE SINGLE STRAIGHT MEDIUM:\u{1D966}\n\
SIGNWRITING MOVEMENT-FLOORPLANE SINGLE STRAIGHT LARGE:\u{1D967}\n\
SIGNWRITING MOVEMENT-FLOORPLANE SINGLE STRAIGHT LARGEST:\u{1D968}\n\
SIGNWRITING MOVEMENT-FLOORPLANE SINGLE WRIST FLEX:\u{1D969}\n\
SIGNWRITING MOVEMENT-FLOORPLANE DOUBLE STRAIGHT:\u{1D96A}\n\
SIGNWRITING MOVEMENT-FLOORPLANE DOUBLE WRIST FLEX:\u{1D96B}\n\
SIGNWRITING MOVEMENT-FLOORPLANE DOUBLE ALTERNATING:\u{1D96C}\n\
SIGNWRITING MOVEMENT-FLOORPLANE DOUBLE ALTERNATING WRIST FLEX:\u{1D96D}\n\
SIGNWRITING MOVEMENT-FLOORPLANE CROSS:\u{1D96E}\n\
SIGNWRITING MOVEMENT-FLOORPLANE TRIPLE STRAIGHT MOVEMENT:\u{1D96F}\n\
SIGNWRITING MOVEMENT-FLOORPLANE TRIPLE WRIST FLEX:\u{1D970}\n\
SIGNWRITING MOVEMENT-FLOORPLANE TRIPLE ALTERNATING MOVEMENT:\u{1D971}\n\
SIGNWRITING MOVEMENT-FLOORPLANE TRIPLE ALTERNATING WRIST FLEX:\u{1D972}\n\
SIGNWRITING MOVEMENT-FLOORPLANE BEND:\u{1D973}\n\
SIGNWRITING MOVEMENT-FLOORPLANE CORNER SMALL:\u{1D974}\n\
SIGNWRITING MOVEMENT-FLOORPLANE CORNER MEDIUM:\u{1D975}\n\
SIGNWRITING MOVEMENT-FLOORPLANE CORNER LARGE:\u{1D976}\n\
SIGNWRITING MOVEMENT-FLOORPLANE CHECK:\u{1D977}\n\
SIGNWRITING MOVEMENT-FLOORPLANE BOX SMALL:\u{1D978}\n\
SIGNWRITING MOVEMENT-FLOORPLANE BOX MEDIUM:\u{1D979}\n\
SIGNWRITING MOVEMENT-FLOORPLANE BOX LARGE:\u{1D97A}\n\
SIGNWRITING MOVEMENT-FLOORPLANE ZIGZAG SMALL:\u{1D97B}\n\
SIGNWRITING MOVEMENT-FLOORPLANE ZIGZAG MEDIUM:\u{1D97C}\n\
SIGNWRITING MOVEMENT-FLOORPLANE ZIGZAG LARGE:\u{1D97D}\n\
SIGNWRITING MOVEMENT-FLOORPLANE PEAKS SMALL:\u{1D97E}\n\
SIGNWRITING MOVEMENT-FLOORPLANE PEAKS MEDIUM:\u{1D97F}\n\
SIGNWRITING MOVEMENT-FLOORPLANE PEAKS LARGE:\u{1D980}\n\
SIGNWRITING TRAVEL-FLOORPLANE ROTATION-FLOORPLANE SINGLE:\u{1D981}\n\
SIGNWRITING TRAVEL-FLOORPLANE ROTATION-FLOORPLANE DOUBLE:\u{1D982}\n\
SIGNWRITING TRAVEL-FLOORPLANE ROTATION-FLOORPLANE ALTERNATING:\u{1D983}\n\
SIGNWRITING TRAVEL-FLOORPLANE ROTATION-WALLPLANE SINGLE:\u{1D984}\n\
SIGNWRITING TRAVEL-FLOORPLANE ROTATION-WALLPLANE DOUBLE:\u{1D985}\n\
SIGNWRITING TRAVEL-FLOORPLANE ROTATION-WALLPLANE ALTERNATING:\u{1D986}\n\
SIGNWRITING TRAVEL-FLOORPLANE SHAKING:\u{1D987}\n\
SIGNWRITING MOVEMENT-WALLPLANE CURVE QUARTER SMALL:\u{1D988}\n\
SIGNWRITING MOVEMENT-WALLPLANE CURVE QUARTER MEDIUM:\u{1D989}\n\
SIGNWRITING MOVEMENT-WALLPLANE CURVE QUARTER LARGE:\u{1D98A}\n\
SIGNWRITING MOVEMENT-WALLPLANE CURVE QUARTER LARGEST:\u{1D98B}\n\
SIGNWRITING MOVEMENT-WALLPLANE CURVE HALF-CIRCLE SMALL:\u{1D98C}\n\
SIGNWRITING MOVEMENT-WALLPLANE CURVE HALF-CIRCLE MEDIUM:\u{1D98D}\n\
SIGNWRITING MOVEMENT-WALLPLANE CURVE HALF-CIRCLE LARGE:\u{1D98E}\n\
SIGNWRITING MOVEMENT-WALLPLANE CURVE HALF-CIRCLE LARGEST:\u{1D98F}\n\
SIGNWRITING MOVEMENT-WALLPLANE CURVE THREE-QUARTER CIRCLE SMALL:\u{1D990}\n\
SIGNWRITING MOVEMENT-WALLPLANE CURVE THREE-QUARTER CIRCLE MEDIUM:\u{1D991}\n\
SIGNWRITING MOVEMENT-WALLPLANE HUMP SMALL:\u{1D992}\n\
SIGNWRITING MOVEMENT-WALLPLANE HUMP MEDIUM:\u{1D993}\n\
SIGNWRITING MOVEMENT-WALLPLANE HUMP LARGE:\u{1D994}\n\
SIGNWRITING MOVEMENT-WALLPLANE LOOP SMALL:\u{1D995}\n\
SIGNWRITING MOVEMENT-WALLPLANE LOOP MEDIUM:\u{1D996}\n\
SIGNWRITING MOVEMENT-WALLPLANE LOOP LARGE:\u{1D997}\n\
SIGNWRITING MOVEMENT-WALLPLANE LOOP SMALL DOUBLE:\u{1D998}\n\
SIGNWRITING MOVEMENT-WALLPLANE WAVE CURVE DOUBLE SMALL:\u{1D999}\n\
SIGNWRITING MOVEMENT-WALLPLANE WAVE CURVE DOUBLE MEDIUM:\u{1D99A}\n\
SIGNWRITING MOVEMENT-WALLPLANE WAVE CURVE DOUBLE LARGE:\u{1D99B}\n\
SIGNWRITING MOVEMENT-WALLPLANE WAVE CURVE TRIPLE SMALL:\u{1D99C}\n\
SIGNWRITING MOVEMENT-WALLPLANE WAVE CURVE TRIPLE MEDIUM:\u{1D99D}\n\
SIGNWRITING MOVEMENT-WALLPLANE WAVE CURVE TRIPLE LARGE:\u{1D99E}\n\
SIGNWRITING MOVEMENT-WALLPLANE CURVE THEN STRAIGHT:\u{1D99F}\n\
SIGNWRITING MOVEMENT-WALLPLANE CURVED CROSS SMALL:\u{1D9A0}\n\
SIGNWRITING MOVEMENT-WALLPLANE CURVED CROSS MEDIUM:\u{1D9A1}\n\
SIGNWRITING ROTATION-WALLPLANE SINGLE:\u{1D9A2}\n\
SIGNWRITING ROTATION-WALLPLANE DOUBLE:\u{1D9A3}\n\
SIGNWRITING ROTATION-WALLPLANE ALTERNATE:\u{1D9A4}\n\
SIGNWRITING MOVEMENT-WALLPLANE SHAKING:\u{1D9A5}\n\
SIGNWRITING MOVEMENT-WALLPLANE CURVE HITTING FRONT WALL:\u{1D9A6}\n\
SIGNWRITING MOVEMENT-WALLPLANE HUMP HITTING FRONT WALL:\u{1D9A7}\n\
SIGNWRITING MOVEMENT-WALLPLANE LOOP HITTING FRONT WALL:\u{1D9A8}\n\
SIGNWRITING MOVEMENT-WALLPLANE WAVE HITTING FRONT WALL:\u{1D9A9}\n\
SIGNWRITING ROTATION-WALLPLANE SINGLE HITTING FRONT WALL:\u{1D9AA}\n\
SIGNWRITING ROTATION-WALLPLANE DOUBLE HITTING FRONT WALL:\u{1D9AB}\n\
SIGNWRITING ROTATION-WALLPLANE ALTERNATING HITTING FRONT WALL:\u{1D9AC}\n\
SIGNWRITING MOVEMENT-WALLPLANE CURVE HITTING CHEST:\u{1D9AD}\n\
SIGNWRITING MOVEMENT-WALLPLANE HUMP HITTING CHEST:\u{1D9AE}\n\
SIGNWRITING MOVEMENT-WALLPLANE LOOP HITTING CHEST:\u{1D9AF}\n\
SIGNWRITING MOVEMENT-WALLPLANE WAVE HITTING CHEST:\u{1D9B0}\n\
SIGNWRITING ROTATION-WALLPLANE SINGLE HITTING CHEST:\u{1D9B1}\n\
SIGNWRITING ROTATION-WALLPLANE DOUBLE HITTING CHEST:\u{1D9B2}\n\
SIGNWRITING ROTATION-WALLPLANE ALTERNATING HITTING CHEST:\u{1D9B3}\n\
SIGNWRITING MOVEMENT-WALLPLANE WAVE DIAGONAL PATH SMALL:\u{1D9B4}\n\
SIGNWRITING MOVEMENT-WALLPLANE WAVE DIAGONAL PATH MEDIUM:\u{1D9B5}\n\
SIGNWRITING MOVEMENT-WALLPLANE WAVE DIAGONAL PATH LARGE:\u{1D9B6}\n\
SIGNWRITING MOVEMENT-FLOORPLANE CURVE HITTING CEILING SMALL:\u{1D9B7}\n\
SIGNWRITING MOVEMENT-FLOORPLANE CURVE HITTING CEILING LARGE:\u{1D9B8}\n\
SIGNWRITING MOVEMENT-FLOORPLANE HUMP HITTING CEILING SMALL DOUBLE:\u{1D9B9}\n\
SIGNWRITING MOVEMENT-FLOORPLANE HUMP HITTING CEILING LARGE DOUBLE:\u{1D9BA}\n\
SIGNWRITING MOVEMENT-FLOORPLANE HUMP HITTING CEILING SMALL TRIPLE:\u{1D9BB}\n\
SIGNWRITING MOVEMENT-FLOORPLANE HUMP HITTING CEILING LARGE TRIPLE:\u{1D9BC}\n\
SIGNWRITING MOVEMENT-FLOORPLANE LOOP HITTING CEILING SMALL SINGLE:\u{1D9BD}\n\
SIGNWRITING MOVEMENT-FLOORPLANE LOOP HITTING CEILING LARGE SINGLE:\u{1D9BE}\n\
SIGNWRITING MOVEMENT-FLOORPLANE LOOP HITTING CEILING SMALL DOUBLE:\u{1D9BF}\n\
SIGNWRITING MOVEMENT-FLOORPLANE LOOP HITTING CEILING LARGE DOUBLE:\u{1D9C0}\n\
SIGNWRITING MOVEMENT-FLOORPLANE WAVE HITTING CEILING SMALL:\u{1D9C1}\n\
SIGNWRITING MOVEMENT-FLOORPLANE WAVE HITTING CEILING LARGE:\u{1D9C2}\n\
SIGNWRITING ROTATION-FLOORPLANE SINGLE HITTING CEILING:\u{1D9C3}\n\
SIGNWRITING ROTATION-FLOORPLANE DOUBLE HITTING CEILING:\u{1D9C4}\n\
SIGNWRITING ROTATION-FLOORPLANE ALTERNATING HITTING CEILING:\u{1D9C5}\n\
SIGNWRITING MOVEMENT-FLOORPLANE CURVE HITTING FLOOR SMALL:\u{1D9C6}\n\
SIGNWRITING MOVEMENT-FLOORPLANE CURVE HITTING FLOOR LARGE:\u{1D9C7}\n\
SIGNWRITING MOVEMENT-FLOORPLANE HUMP HITTING FLOOR SMALL DOUBLE:\u{1D9C8}\n\
SIGNWRITING MOVEMENT-FLOORPLANE HUMP HITTING FLOOR LARGE DOUBLE:\u{1D9C9}\n\
SIGNWRITING MOVEMENT-FLOORPLANE HUMP HITTING FLOOR TRIPLE SMALL TRIPLE:\u{1D9CA}\n\
SIGNWRITING MOVEMENT-FLOORPLANE HUMP HITTING FLOOR TRIPLE LARGE TRIPLE:\u{1D9CB}\n\
SIGNWRITING MOVEMENT-FLOORPLANE LOOP HITTING FLOOR SMALL SINGLE:\u{1D9CC}\n\
SIGNWRITING MOVEMENT-FLOORPLANE LOOP HITTING FLOOR LARGE SINGLE:\u{1D9CD}\n\
SIGNWRITING MOVEMENT-FLOORPLANE LOOP HITTING FLOOR SMALL DOUBLE:\u{1D9CE}\n\
SIGNWRITING MOVEMENT-FLOORPLANE LOOP HITTING FLOOR LARGE DOUBLE:\u{1D9CF}\n\
SIGNWRITING MOVEMENT-FLOORPLANE WAVE HITTING FLOOR SMALL:\u{1D9D0}\n\
SIGNWRITING MOVEMENT-FLOORPLANE WAVE HITTING FLOOR LARGE:\u{1D9D1}\n\
SIGNWRITING ROTATION-FLOORPLANE SINGLE HITTING FLOOR:\u{1D9D2}\n\
SIGNWRITING ROTATION-FLOORPLANE DOUBLE HITTING FLOOR:\u{1D9D3}\n\
SIGNWRITING ROTATION-FLOORPLANE ALTERNATING HITTING FLOOR:\u{1D9D4}\n\
SIGNWRITING MOVEMENT-FLOORPLANE CURVE SMALL:\u{1D9D5}\n\
SIGNWRITING MOVEMENT-FLOORPLANE CURVE MEDIUM:\u{1D9D6}\n\
SIGNWRITING MOVEMENT-FLOORPLANE CURVE LARGE:\u{1D9D7}\n\
SIGNWRITING MOVEMENT-FLOORPLANE CURVE LARGEST:\u{1D9D8}\n\
SIGNWRITING MOVEMENT-FLOORPLANE CURVE COMBINED:\u{1D9D9}\n\
SIGNWRITING MOVEMENT-FLOORPLANE HUMP SMALL:\u{1D9DA}\n\
SIGNWRITING MOVEMENT-FLOORPLANE LOOP SMALL:\u{1D9DB}\n\
SIGNWRITING MOVEMENT-FLOORPLANE WAVE SNAKE:\u{1D9DC}\n\
SIGNWRITING MOVEMENT-FLOORPLANE WAVE SMALL:\u{1D9DD}\n\
SIGNWRITING MOVEMENT-FLOORPLANE WAVE LARGE:\u{1D9DE}\n\
SIGNWRITING ROTATION-FLOORPLANE SINGLE:\u{1D9DF}\n\
SIGNWRITING ROTATION-FLOORPLANE DOUBLE:\u{1D9E0}\n\
SIGNWRITING ROTATION-FLOORPLANE ALTERNATING:\u{1D9E1}\n\
SIGNWRITING MOVEMENT-FLOORPLANE SHAKING PARALLEL:\u{1D9E2}\n\
SIGNWRITING MOVEMENT-WALLPLANE ARM CIRCLE SMALL SINGLE:\u{1D9E3}\n\
SIGNWRITING MOVEMENT-WALLPLANE ARM CIRCLE MEDIUM SINGLE:\u{1D9E4}\n\
SIGNWRITING MOVEMENT-WALLPLANE ARM CIRCLE SMALL DOUBLE:\u{1D9E5}\n\
SIGNWRITING MOVEMENT-WALLPLANE ARM CIRCLE MEDIUM DOUBLE:\u{1D9E6}\n\
SIGNWRITING MOVEMENT-FLOORPLANE ARM CIRCLE HITTING WALL SMALL SINGLE:\u{1D9E7}\n\
SIGNWRITING MOVEMENT-FLOORPLANE ARM CIRCLE HITTING WALL MEDIUM SINGLE:\u{1D9E8}\n\
SIGNWRITING MOVEMENT-FLOORPLANE ARM CIRCLE HITTING WALL LARGE SINGLE:\u{1D9E9}\n\
SIGNWRITING MOVEMENT-FLOORPLANE ARM CIRCLE HITTING WALL SMALL DOUBLE:\u{1D9EA}\n\
SIGNWRITING MOVEMENT-FLOORPLANE ARM CIRCLE HITTING WALL MEDIUM DOUBLE:\u{1D9EB}\n\
SIGNWRITING MOVEMENT-FLOORPLANE ARM CIRCLE HITTING WALL LARGE DOUBLE:\u{1D9EC}\n\
SIGNWRITING MOVEMENT-WALLPLANE WRIST CIRCLE FRONT SINGLE:\u{1D9ED}\n\
SIGNWRITING MOVEMENT-WALLPLANE WRIST CIRCLE FRONT DOUBLE:\u{1D9EE}\n\
SIGNWRITING MOVEMENT-FLOORPLANE WRIST CIRCLE HITTING WALL SINGLE:\u{1D9EF}\n\
SIGNWRITING MOVEMENT-FLOORPLANE WRIST CIRCLE HITTING WALL DOUBLE:\u{1D9F0}\n\
SIGNWRITING MOVEMENT-WALLPLANE FINGER CIRCLES SINGLE:\u{1D9F1}\n\
SIGNWRITING MOVEMENT-WALLPLANE FINGER CIRCLES DOUBLE:\u{1D9F2}\n\
SIGNWRITING MOVEMENT-FLOORPLANE FINGER CIRCLES HITTING WALL SINGLE:\u{1D9F3}\n\
SIGNWRITING MOVEMENT-FLOORPLANE FINGER CIRCLES HITTING WALL DOUBLE:\u{1D9F4}\n\
SIGNWRITING DYNAMIC ARROWHEAD SMALL:\u{1D9F5}\n\
SIGNWRITING DYNAMIC ARROWHEAD LARGE:\u{1D9F6}\n\
SIGNWRITING DYNAMIC FAST:\u{1D9F7}\n";

pub const NAMES_75: &'static str = "SIGNWRITING DYNAMIC SLOW:\u{1D9F8}\n\
SIGNWRITING DYNAMIC TENSE:\u{1D9F9}\n\
SIGNWRITING DYNAMIC RELAXED:\u{1D9FA}\n\
SIGNWRITING DYNAMIC SIMULTANEOUS:\u{1D9FB}\n\
SIGNWRITING DYNAMIC SIMULTANEOUS ALTERNATING:\u{1D9FC}\n\
SIGNWRITING DYNAMIC EVERY OTHER TIME:\u{1D9FD}\n\
SIGNWRITING DYNAMIC GRADUAL:\u{1D9FE}\n\
SIGNWRITING HEAD:\u{1D9FF}\n\
SIGNWRITING HEAD RIM:\u{1DA00}\n\
SIGNWRITING HEAD MOVEMENT-WALLPLANE STRAIGHT:\u{1DA01}\n\
SIGNWRITING HEAD MOVEMENT-WALLPLANE TILT:\u{1DA02}\n\
SIGNWRITING HEAD MOVEMENT-FLOORPLANE STRAIGHT:\u{1DA03}\n\
SIGNWRITING HEAD MOVEMENT-WALLPLANE CURVE:\u{1DA04}\n\
SIGNWRITING HEAD MOVEMENT-FLOORPLANE CURVE:\u{1DA05}\n\
SIGNWRITING HEAD MOVEMENT CIRCLE:\u{1DA06}\n\
SIGNWRITING FACE DIRECTION POSITION NOSE FORWARD TILTING:\u{1DA07}\n\
SIGNWRITING FACE DIRECTION POSITION NOSE UP OR DOWN:\u{1DA08}\n\
SIGNWRITING FACE DIRECTION POSITION NOSE UP OR DOWN TILTING:\u{1DA09}\n\
SIGNWRITING EYEBROWS STRAIGHT UP:\u{1DA0A}\n\
SIGNWRITING EYEBROWS STRAIGHT NEUTRAL:\u{1DA0B}\n\
SIGNWRITING EYEBROWS STRAIGHT DOWN:\u{1DA0C}\n\
SIGNWRITING DREAMY EYEBROWS NEUTRAL DOWN:\u{1DA0D}\n\
SIGNWRITING DREAMY EYEBROWS DOWN NEUTRAL:\u{1DA0E}\n\
SIGNWRITING DREAMY EYEBROWS UP NEUTRAL:\u{1DA0F}\n\
SIGNWRITING DREAMY EYEBROWS NEUTRAL UP:\u{1DA10}\n\
SIGNWRITING FOREHEAD NEUTRAL:\u{1DA11}\n\
SIGNWRITING FOREHEAD CONTACT:\u{1DA12}\n\
SIGNWRITING FOREHEAD WRINKLED:\u{1DA13}\n\
SIGNWRITING EYES OPEN:\u{1DA14}\n\
SIGNWRITING EYES SQUEEZED:\u{1DA15}\n\
SIGNWRITING EYES CLOSED:\u{1DA16}\n\
SIGNWRITING EYE BLINK SINGLE:\u{1DA17}\n\
SIGNWRITING EYE BLINK MULTIPLE:\u{1DA18}\n\
SIGNWRITING EYES HALF OPEN:\u{1DA19}\n\
SIGNWRITING EYES WIDE OPEN:\u{1DA1A}\n\
SIGNWRITING EYES HALF CLOSED:\u{1DA1B}\n\
SIGNWRITING EYES WIDENING MOVEMENT:\u{1DA1C}\n\
SIGNWRITING EYE WINK:\u{1DA1D}\n\
SIGNWRITING EYELASHES UP:\u{1DA1E}\n\
SIGNWRITING EYELASHES DOWN:\u{1DA1F}\n\
SIGNWRITING EYELASHES FLUTTERING:\u{1DA20}\n\
SIGNWRITING EYEGAZE-WALLPLANE STRAIGHT:\u{1DA21}\n\
SIGNWRITING EYEGAZE-WALLPLANE STRAIGHT DOUBLE:\u{1DA22}\n\
SIGNWRITING EYEGAZE-WALLPLANE STRAIGHT ALTERNATING:\u{1DA23}\n\
SIGNWRITING EYEGAZE-FLOORPLANE STRAIGHT:\u{1DA24}\n\
SIGNWRITING EYEGAZE-FLOORPLANE STRAIGHT DOUBLE:\u{1DA25}\n\
SIGNWRITING EYEGAZE-FLOORPLANE STRAIGHT ALTERNATING:\u{1DA26}\n\
SIGNWRITING EYEGAZE-WALLPLANE CURVED:\u{1DA27}\n\
SIGNWRITING EYEGAZE-FLOORPLANE CURVED:\u{1DA28}\n\
SIGNWRITING EYEGAZE-WALLPLANE CIRCLING:\u{1DA29}\n\
SIGNWRITING CHEEKS PUFFED:\u{1DA2A}\n\
SIGNWRITING CHEEKS NEUTRAL:\u{1DA2B}\n\
SIGNWRITING CHEEKS SUCKED:\u{1DA2C}\n\
SIGNWRITING TENSE CHEEKS HIGH:\u{1DA2D}\n\
SIGNWRITING TENSE CHEEKS MIDDLE:\u{1DA2E}\n\
SIGNWRITING TENSE CHEEKS LOW:\u{1DA2F}\n\
SIGNWRITING EARS:\u{1DA30}\n\
SIGNWRITING NOSE NEUTRAL:\u{1DA31}\n\
SIGNWRITING NOSE CONTACT:\u{1DA32}\n\
SIGNWRITING NOSE WRINKLES:\u{1DA33}\n\
SIGNWRITING NOSE WIGGLES:\u{1DA34}\n\
SIGNWRITING AIR BLOWING OUT:\u{1DA35}\n\
SIGNWRITING AIR SUCKING IN:\u{1DA36}\n\
SIGNWRITING AIR BLOW SMALL ROTATIONS:\u{1DA37}\n\
SIGNWRITING AIR SUCK SMALL ROTATIONS:\u{1DA38}\n\
SIGNWRITING BREATH INHALE:\u{1DA39}\n\
SIGNWRITING BREATH EXHALE:\u{1DA3A}\n\
SIGNWRITING MOUTH CLOSED NEUTRAL:\u{1DA3B}\n\
SIGNWRITING MOUTH CLOSED FORWARD:\u{1DA3C}\n\
SIGNWRITING MOUTH CLOSED CONTACT:\u{1DA3D}\n\
SIGNWRITING MOUTH SMILE:\u{1DA3E}\n\
SIGNWRITING MOUTH SMILE WRINKLED:\u{1DA3F}\n\
SIGNWRITING MOUTH SMILE OPEN:\u{1DA40}\n\
SIGNWRITING MOUTH FROWN:\u{1DA41}\n\
SIGNWRITING MOUTH FROWN WRINKLED:\u{1DA42}\n\
SIGNWRITING MOUTH FROWN OPEN:\u{1DA43}\n\
SIGNWRITING MOUTH OPEN CIRCLE:\u{1DA44}\n\
SIGNWRITING MOUTH OPEN FORWARD:\u{1DA45}\n\
SIGNWRITING MOUTH OPEN WRINKLED:\u{1DA46}\n\
SIGNWRITING MOUTH OPEN OVAL:\u{1DA47}\n\
SIGNWRITING MOUTH OPEN OVAL WRINKLED:\u{1DA48}\n\
SIGNWRITING MOUTH OPEN OVAL YAWN:\u{1DA49}\n\
SIGNWRITING MOUTH OPEN RECTANGLE:\u{1DA4A}\n\
SIGNWRITING MOUTH OPEN RECTANGLE WRINKLED:\u{1DA4B}\n\
SIGNWRITING MOUTH OPEN RECTANGLE YAWN:\u{1DA4C}\n\
SIGNWRITING MOUTH KISS:\u{1DA4D}\n\
SIGNWRITING MOUTH KISS FORWARD:\u{1DA4E}\n\
SIGNWRITING MOUTH KISS WRINKLED:\u{1DA4F}\n\
SIGNWRITING MOUTH TENSE:\u{1DA50}\n\
SIGNWRITING MOUTH TENSE FORWARD:\u{1DA51}\n\
SIGNWRITING MOUTH TENSE SUCKED:\u{1DA52}\n\
SIGNWRITING LIPS PRESSED TOGETHER:\u{1DA53}\n\
SIGNWRITING LIP LOWER OVER UPPER:\u{1DA54}\n\
SIGNWRITING LIP UPPER OVER LOWER:\u{1DA55}\n\
SIGNWRITING MOUTH CORNERS:\u{1DA56}\n\
SIGNWRITING MOUTH WRINKLES SINGLE:\u{1DA57}\n\
SIGNWRITING MOUTH WRINKLES DOUBLE:\u{1DA58}\n\
SIGNWRITING TONGUE STICKING OUT FAR:\u{1DA59}\n\
SIGNWRITING TONGUE LICKING LIPS:\u{1DA5A}\n\
SIGNWRITING TONGUE TIP BETWEEN LIPS:\u{1DA5B}\n\
SIGNWRITING TONGUE TIP TOUCHING INSIDE MOUTH:\u{1DA5C}\n\
SIGNWRITING TONGUE INSIDE MOUTH RELAXED:\u{1DA5D}\n\
SIGNWRITING TONGUE MOVES AGAINST CHEEK:\u{1DA5E}\n\
SIGNWRITING TONGUE CENTRE STICKING OUT:\u{1DA5F}\n\
SIGNWRITING TONGUE CENTRE INSIDE MOUTH:\u{1DA60}\n\
SIGNWRITING TEETH:\u{1DA61}\n\
SIGNWRITING TEETH MOVEMENT:\u{1DA62}\n\
SIGNWRITING TEETH ON TONGUE:\u{1DA63}\n\
SIGNWRITING TEETH ON TONGUE MOVEMENT:\u{1DA64}\n\
SIGNWRITING TEETH ON LIPS:\u{1DA65}\n\
SIGNWRITING TEETH ON LIPS MOVEMENT:\u{1DA66}\n\
SIGNWRITING TEETH BITE LIPS:\u{1DA67}\n\
SIGNWRITING MOVEMENT-WALLPLANE JAW:\u{1DA68}\n\
SIGNWRITING MOVEMENT-FLOORPLANE JAW:\u{1DA69}\n\
SIGNWRITING NECK:\u{1DA6A}\n\
SIGNWRITING HAIR:\u{1DA6B}\n\
SIGNWRITING EXCITEMENT:\u{1DA6C}\n\
SIGNWRITING SHOULDER HIP SPINE:\u{1DA6D}\n\
SIGNWRITING SHOULDER HIP POSITIONS:\u{1DA6E}\n\
SIGNWRITING WALLPLANE SHOULDER HIP MOVE:\u{1DA6F}\n\
SIGNWRITING FLOORPLANE SHOULDER HIP MOVE:\u{1DA70}\n\
SIGNWRITING SHOULDER TILTING FROM WAIST:\u{1DA71}\n\
SIGNWRITING TORSO-WALLPLANE STRAIGHT STRETCH:\u{1DA72}\n\
SIGNWRITING TORSO-WALLPLANE CURVED BEND:\u{1DA73}\n\
SIGNWRITING TORSO-FLOORPLANE TWISTING:\u{1DA74}\n\
SIGNWRITING UPPER BODY TILTING FROM HIP JOINTS:\u{1DA75}\n\
SIGNWRITING LIMB COMBINATION:\u{1DA76}\n\
SIGNWRITING LIMB LENGTH-1:\u{1DA77}\n\
SIGNWRITING LIMB LENGTH-2:\u{1DA78}\n\
SIGNWRITING LIMB LENGTH-3:\u{1DA79}\n\
SIGNWRITING LIMB LENGTH-4:\u{1DA7A}\n\
SIGNWRITING LIMB LENGTH-5:\u{1DA7B}\n\
SIGNWRITING LIMB LENGTH-6:\u{1DA7C}\n\
SIGNWRITING LIMB LENGTH-7:\u{1DA7D}\n\
SIGNWRITING FINGER:\u{1DA7E}\n\
SIGNWRITING LOCATION-WALLPLANE SPACE:\u{1DA7F}\n\
SIGNWRITING LOCATION-FLOORPLANE SPACE:\u{1DA80}\n\
SIGNWRITING LOCATION HEIGHT:\u{1DA81}\n\
SIGNWRITING LOCATION WIDTH:\u{1DA82}\n\
SIGNWRITING LOCATION DEPTH:\u{1DA83}\n\
SIGNWRITING LOCATION HEAD NECK:\u{1DA84}\n\
SIGNWRITING LOCATION TORSO:\u{1DA85}\n\
SIGNWRITING LOCATION LIMBS DIGITS:\u{1DA86}\n\
SIGNWRITING COMMA:\u{1DA87}\n\
SIGNWRITING FULL STOP:\u{1DA88}\n\
SIGNWRITING SEMICOLON:\u{1DA89}\n\
SIGNWRITING COLON:\u{1DA8A}\n\
SIGNWRITING PARENTHESIS:\u{1DA8B}\n\
SIGNWRITING FILL MODIFIER-2:\u{1DA9B}\n\
SIGNWRITING FILL MODIFIER-3:\u{1DA9C}\n\
SIGNWRITING FILL MODIFIER-4:\u{1DA9D}\n\
SIGNWRITING FILL MODIFIER-5:\u{1DA9E}\n\
SIGNWRITING FILL MODIFIER-6:\u{1DA9F}\n\
SIGNWRITING ROTATION MODIFIER-2:\u{1DAA1}\n\
SIGNWRITING ROTATION MODIFIER-3:\u{1DAA2}\n\
SIGNWRITING ROTATION MODIFIER-4:\u{1DAA3}\n\
SIGNWRITING ROTATION MODIFIER-5:\u{1DAA4}\n\
SIGNWRITING ROTATION MODIFIER-6:\u{1DAA5}\n\
SIGNWRITING ROTATION MODIFIER-7:\u{1DAA6}\n\
SIGNWRITING ROTATION MODIFIER-8:\u{1DAA7}\n\
SIGNWRITING ROTATION MODIFIER-9:\u{1DAA8}\n\
SIGNWRITING ROTATION MODIFIER-10:\u{1DAA9}\n\
SIGNWRITING ROTATION MODIFIER-11:\u{1DAAA}\n\
SIGNWRITING ROTATION MODIFIER-12:\u{1DAAB}\n\
SIGNWRITING ROTATION MODIFIER-13:\u{1DAAC}\n\
SIGNWRITING ROTATION MODIFIER-14:\u{1DAAD}\n\
SIGNWRITING ROTATION MODIFIER-15:\u{1DAAE}\n\
SIGNWRITING ROTATION MODIFIER-16:\u{1DAAF}\n\
LATIN SMALL LETTER FENG DIGRAPH WITH TRILL:\u{1DF00}\n\
LATIN SMALL LETTER REVERSED SCRIPT G:\u{1DF01}\n\
LATIN LETTER SMALL CAPITAL TURNED G:\u{1DF02}\n\
LATIN SMALL LETTER REVERSED K:\u{1DF03}\n\
LATIN LETTER SMALL CAPITAL L WITH BELT:\u{1DF04}\n\
LATIN SMALL LETTER LEZH WITH RETROFLEX HOOK:\u{1DF05}\n\
LATIN SMALL LETTER TURNED Y WITH BELT:\u{1DF06}\n\
LATIN SMALL LETTER REVERSED ENG:\u{1DF07}\n\
LATIN SMALL LETTER TURNED R WITH LONG LEG AND RETROFLEX HOOK:\u{1DF08}\n\
LATIN SMALL LETTER T WITH HOOK AND RETROFLEX HOOK:\u{1DF09}\n\
LATIN LETTER RETROFLEX CLICK WITH RETROFLEX HOOK:\u{1DF0A}\n\
LATIN SMALL LETTER ESH WITH DOUBLE BAR:\u{1DF0B}\n\
LATIN SMALL LETTER ESH WITH DOUBLE BAR AND CURL:\u{1DF0C}\n\
LATIN SMALL LETTER TURNED T WITH CURL:\u{1DF0D}\n\
LATIN LETTER INVERTED GLOTTAL STOP WITH CURL:\u{1DF0E}\n\
LATIN LETTER STRETCHED C WITH CURL:\u{1DF0F}\n\
LATIN LETTER SMALL CAPITAL TURNED K:\u{1DF10}\n\
LATIN SMALL LETTER L WITH FISHHOOK:\u{1DF11}\n\
LATIN SMALL LETTER DEZH DIGRAPH WITH PALATAL HOOK:\u{1DF12}\n\
LATIN SMALL LETTER L WITH BELT AND PALATAL HOOK:\u{1DF13}\n\
LATIN SMALL LETTER ENG WITH PALATAL HOOK:\u{1DF14}\n\
LATIN SMALL LETTER TURNED R WITH PALATAL HOOK:\u{1DF15}\n\
LATIN SMALL LETTER R WITH FISHHOOK AND PALATAL HOOK:\u{1DF16}\n\
LATIN SMALL LETTER TESH DIGRAPH WITH PALATAL HOOK:\u{1DF17}\n\
LATIN SMALL LETTER EZH WITH PALATAL HOOK:\u{1DF18}\n\
LATIN SMALL LETTER DEZH DIGRAPH WITH RETROFLEX HOOK:\u{1DF19}\n\
LATIN SMALL LETTER I WITH STROKE AND RETROFLEX HOOK:\u{1DF1A}\n\
LATIN SMALL LETTER O WITH RETROFLEX HOOK:\u{1DF1B}\n\
LATIN SMALL LETTER TESH DIGRAPH WITH RETROFLEX HOOK:\u{1DF1C}\n\
LATIN SMALL LETTER C WITH RETROFLEX HOOK:\u{1DF1D}\n\
LATIN SMALL LETTER S WITH CURL:\u{1DF1E}\n\
COMBINING GLAGOLITIC LETTER AZU:\u{1E000}\n\
COMBINING GLAGOLITIC LETTER BUKY:\u{1E001}\n\
COMBINING GLAGOLITIC LETTER VEDE:\u{1E002}\n\
COMBINING GLAGOLITIC LETTER GLAGOLI:\u{1E003}\n\
COMBINING GLAGOLITIC LETTER DOBRO:\u{1E004}\n\
COMBINING GLAGOLITIC LETTER YESTU:\u{1E005}\n\
COMBINING GLAGOLITIC LETTER ZHIVETE:\u{1E006}\n\
COMBINING GLAGOLITIC LETTER ZEMLJA:\u{1E008}\n\
COMBINING GLAGOLITIC LETTER IZHE:\u{1E009}\n\
COMBINING GLAGOLITIC LETTER INITIAL IZHE:\u{1E00A}\n\
COMBINING GLAGOLITIC LETTER I:\u{1E00B}\n\
COMBINING GLAGOLITIC LETTER DJERVI:\u{1E00C}\n\
COMBINING GLAGOLITIC LETTER KAKO:\u{1E00D}\n\
COMBINING GLAGOLITIC LETTER LJUDIJE:\u{1E00E}\n\
COMBINING GLAGOLITIC LETTER MYSLITE:\u{1E00F}\n\
COMBINING GLAGOLITIC LETTER NASHI:\u{1E010}\n\
COMBINING GLAGOLITIC LETTER ONU:\u{1E011}\n\
COMBINING GLAGOLITIC LETTER POKOJI:\u{1E012}\n\
COMBINING GLAGOLITIC LETTER RITSI:\u{1E013}\n\
COMBINING GLAGOLITIC LETTER SLOVO:\u{1E014}\n\
COMBINING GLAGOLITIC LETTER TVRIDO:\u{1E015}\n\
COMBINING GLAGOLITIC LETTER UKU:\u{1E016}\n\
COMBINING GLAGOLITIC LETTER FRITU:\u{1E017}\n\
COMBINING GLAGOLITIC LETTER HERU:\u{1E018}\n\
COMBINING GLAGOLITIC LETTER SHTA:\u{1E01B}\n\
COMBINING GLAGOLITIC LETTER TSI:\u{1E01C}\n\
COMBINING GLAGOLITIC LETTER CHRIVI:\u{1E01D}\n\
COMBINING GLAGOLITIC LETTER SHA:\u{1E01E}\n\
COMBINING GLAGOLITIC LETTER YERU:\u{1E01F}\n\
COMBINING GLAGOLITIC LETTER YERI:\u{1E020}\n\
COMBINING GLAGOLITIC LETTER YATI:\u{1E021}\n\
COMBINING GLAGOLITIC LETTER YU:\u{1E023}\n\
COMBINING GLAGOLITIC LETTER SMALL YUS:\u{1E024}\n\
COMBINING GLAGOLITIC LETTER YO:\u{1E026}\n\
COMBINING GLAGOLITIC LETTER IOTATED SMALL YUS:\u{1E027}\n\
COMBINING GLAGOLITIC LETTER BIG YUS:\u{1E028}\n\
COMBINING GLAGOLITIC LETTER IOTATED BIG YUS:\u{1E029}\n\
COMBINING GLAGOLITIC LETTER FITA:\u{1E02A}\n\
NYIAKENG PUACHUE HMONG LETTER MA:\u{1E100}\n\
NYIAKENG PUACHUE HMONG LETTER TSA:\u{1E101}\n\
NYIAKENG PUACHUE HMONG LETTER NTA:\u{1E102}\n\
NYIAKENG PUACHUE HMONG LETTER TA:\u{1E103}\n\
NYIAKENG PUACHUE HMONG LETTER HA:\u{1E104}\n\
NYIAKENG PUACHUE HMONG LETTER NA:\u{1E105}\n\
NYIAKENG PUACHUE HMONG LETTER XA:\u{1E106}\n\
NYIAKENG PUACHUE HMONG LETTER NKA:\u{1E107}\n\
NYIAKENG PUACHUE HMONG LETTER CA:\u{1E108}\n\
NYIAKENG PUACHUE HMONG LETTER LA:\u{1E109}\n\
NYIAKENG PUACHUE HMONG LETTER SA:\u{1E10A}\n\
NYIAKENG PUACHUE HMONG LETTER ZA:\u{1E10B}\n\
NYIAKENG PUACHUE HMONG LETTER NCA:\u{1E10C}\n\
NYIAKENG PUACHUE HMONG LETTER NTSA:\u{1E10D}\n\
NYIAKENG PUACHUE HMONG LETTER KA:\u{1E10E}\n\
NYIAKENG PUACHUE HMONG LETTER DA:\u{1E10F}\n\
NYIAKENG PUACHUE HMONG LETTER NYA:\u{1E110}\n\
NYIAKENG PUACHUE HMONG LETTER NRA:\u{1E111}\n\
NYIAKENG PUACHUE HMONG LETTER VA:\u{1E112}\n\
NYIAKENG PUACHUE HMONG LETTER NTXA:\u{1E113}\n\
NYIAKENG PUACHUE HMONG LETTER TXA:\u{1E114}\n\
NYIAKENG PUACHUE HMONG LETTER FA:\u{1E115}\n\
NYIAKENG PUACHUE HMONG LETTER RA:\u{1E116}\n\
NYIAKENG PUACHUE HMONG LETTER QA:\u{1E117}\n\
NYIAKENG PUACHUE HMONG LETTER YA:\u{1E118}\n\
NYIAKENG PUACHUE HMONG LETTER NQA:\u{1E119}\n\
NYIAKENG PUACHUE HMONG LETTER PA:\u{1E11A}\n\
NYIAKENG PUACHUE HMONG LETTER XYA:\u{1E11B}\n\
NYIAKENG PUACHUE HMONG LETTER NPA:\u{1E11C}\n\
NYIAKENG PUACHUE HMONG LETTER DLA:\u{1E11D}\n\
NYIAKENG PUACHUE HMONG LETTER NPLA:\u{1E11E}\n\
NYIAKENG PUACHUE HMONG LETTER HAH:\u{1E11F}\n\
NYIAKENG PUACHUE HMONG LETTER MLA:\u{1E120}\n\
NYIAKENG PUACHUE HMONG LETTER PLA:\u{1E121}\n\
NYIAKENG PUACHUE HMONG LETTER GA:\u{1E122}\n\
NYIAKENG PUACHUE HMONG LETTER RRA:\u{1E123}\n\
NYIAKENG PUACHUE HMONG LETTER A:\u{1E124}\n\
NYIAKENG PUACHUE HMONG LETTER AA:\u{1E125}\n\
NYIAKENG PUACHUE HMONG LETTER I:\u{1E126}\n\
NYIAKENG PUACHUE HMONG LETTER U:\u{1E127}\n\
NYIAKENG PUACHUE HMONG LETTER O:\u{1E128}\n\
NYIAKENG PUACHUE HMONG LETTER OO:\u{1E129}\n\
NYIAKENG PUACHUE HMONG LETTER E:\u{1E12A}\n\
NYIAKENG PUACHUE HMONG LETTER EE:\u{1E12B}\n\
NYIAKENG PUACHUE HMONG LETTER W:\u{1E12C}\n\
NYIAKENG PUACHUE HMONG TONE-B:\u{1E130}\n\
NYIAKENG PUACHUE HMONG TONE-M:\u{1E131}\n\
NYIAKENG PUACHUE HMONG TONE-J:\u{1E132}\n\
NYIAKENG PUACHUE HMONG TONE-V:\u{1E133}\n\
NYIAKENG PUACHUE HMONG TONE-S:\u{1E134}\n\
NYIAKENG PUACHUE HMONG TONE-G:\u{1E135}\n\
NYIAKENG PUACHUE HMONG TONE-D:\u{1E136}\n\
NYIAKENG PUACHUE HMONG SIGN FOR PERSON:\u{1E137}\n\
NYIAKENG PUACHUE HMONG SIGN FOR THING:\u{1E138}\n\
NYIAKENG PUACHUE HMONG SIGN FOR LOCATION:\u{1E139}\n\
NYIAKENG PUACHUE HMONG SIGN FOR ANIMAL:\u{1E13A}\n\
NYIAKENG PUACHUE HMONG SIGN FOR INVERTEBRATE:\u{1E13B}\n\
NYIAKENG PUACHUE HMONG SIGN XW XW:\u{1E13C}\n\
NYIAKENG PUACHUE HMONG SYLLABLE LENGTHENER:\u{1E13D}\n\
NYIAKENG PUACHUE HMONG DIGIT ZERO:\u{1E140}\n\
NYIAKENG PUACHUE HMONG DIGIT ONE:\u{1E141}\n\
NYIAKENG PUACHUE HMONG DIGIT TWO:\u{1E142}\n\
NYIAKENG PUACHUE HMONG DIGIT THREE:\u{1E143}\n\
NYIAKENG PUACHUE HMONG DIGIT FOUR:\u{1E144}\n\
NYIAKENG PUACHUE HMONG DIGIT FIVE:\u{1E145}\n\
NYIAKENG PUACHUE HMONG DIGIT SIX:\u{1E146}\n\
NYIAKENG PUACHUE HMONG DIGIT SEVEN:\u{1E147}\n\
NYIAKENG PUACHUE HMONG DIGIT EIGHT:\u{1E148}\n\
NYIAKENG PUACHUE HMONG DIGIT NINE:\u{1E149}\n\
NYIAKENG PUACHUE HMONG LOGOGRAM NYAJ:\u{1E14E}\n\
NYIAKENG PUACHUE HMONG CIRCLED CA:\u{1E14F}\n\
TOTO LETTER PA:\u{1E290}\n\
TOTO LETTER BA:\u{1E291}\n\
TOTO LETTER TA:\u{1E292}\n\
TOTO LETTER DA:\u{1E293}\n\
TOTO LETTER KA:\u{1E294}\n\
TOTO LETTER GA:\u{1E295}\n\
TOTO LETTER MA:\u{1E296}\n\
TOTO LETTER NA:\u{1E297}\n\
TOTO LETTER NGA:\u{1E298}\n\
TOTO LETTER SA:\u{1E299}\n\
TOTO LETTER CHA:\u{1E29A}\n\
TOTO LETTER YA:\u{1E29B}\n\
TOTO LETTER WA:\u{1E29C}\n\
TOTO LETTER JA:\u{1E29D}\n\
TOTO LETTER HA:\u{1E29E}\n\
TOTO LETTER RA:\u{1E29F}\n\
TOTO LETTER LA:\u{1E2A0}\n\
TOTO LETTER I:\u{1E2A1}\n\
TOTO LETTER BREATHY I:\u{1E2A2}\n";

pub const NAMES_76: &'static str = "TOTO LETTER IU:\u{1E2A3}\n\
TOTO LETTER BREATHY IU:\u{1E2A4}\n\
TOTO LETTER U:\u{1E2A5}\n\
TOTO LETTER E:\u{1E2A6}\n\
TOTO LETTER BREATHY E:\u{1E2A7}\n\
TOTO LETTER EO:\u{1E2A8}\n\
TOTO LETTER BREATHY EO:\u{1E2A9}\n\
TOTO LETTER O:\u{1E2AA}\n\
TOTO LETTER AE:\u{1E2AB}\n\
TOTO LETTER BREATHY AE:\u{1E2AC}\n\
TOTO LETTER A:\u{1E2AD}\n\
TOTO SIGN RISING TONE:\u{1E2AE}\n\
WANCHO LETTER AA:\u{1E2C0}\n\
WANCHO LETTER A:\u{1E2C1}\n\
WANCHO LETTER BA:\u{1E2C2}\n\
WANCHO LETTER CA:\u{1E2C3}\n\
WANCHO LETTER DA:\u{1E2C4}\n\
WANCHO LETTER GA:\u{1E2C5}\n\
WANCHO LETTER YA:\u{1E2C6}\n\
WANCHO LETTER PHA:\u{1E2C7}\n\
WANCHO LETTER LA:\u{1E2C8}\n\
WANCHO LETTER NA:\u{1E2C9}\n\
WANCHO LETTER PA:\u{1E2CA}\n\
WANCHO LETTER TA:\u{1E2CB}\n\
WANCHO LETTER THA:\u{1E2CC}\n\
WANCHO LETTER FA:\u{1E2CD}\n\
WANCHO LETTER SA:\u{1E2CE}\n\
WANCHO LETTER SHA:\u{1E2CF}\n\
WANCHO LETTER JA:\u{1E2D0}\n\
WANCHO LETTER ZA:\u{1E2D1}\n\
WANCHO LETTER WA:\u{1E2D2}\n\
WANCHO LETTER VA:\u{1E2D3}\n\
WANCHO LETTER KA:\u{1E2D4}\n\
WANCHO LETTER O:\u{1E2D5}\n\
WANCHO LETTER AU:\u{1E2D6}\n\
WANCHO LETTER RA:\u{1E2D7}\n\
WANCHO LETTER MA:\u{1E2D8}\n\
WANCHO LETTER KHA:\u{1E2D9}\n\
WANCHO LETTER HA:\u{1E2DA}\n\
WANCHO LETTER E:\u{1E2DB}\n\
WANCHO LETTER I:\u{1E2DC}\n\
WANCHO LETTER NGA:\u{1E2DD}\n\
WANCHO LETTER U:\u{1E2DE}\n\
WANCHO LETTER LLHA:\u{1E2DF}\n\
WANCHO LETTER TSA:\u{1E2E0}\n\
WANCHO LETTER TRA:\u{1E2E1}\n\
WANCHO LETTER ONG:\u{1E2E2}\n\
WANCHO LETTER AANG:\u{1E2E3}\n\
WANCHO LETTER ANG:\u{1E2E4}\n\
WANCHO LETTER ING:\u{1E2E5}\n\
WANCHO LETTER ON:\u{1E2E6}\n\
WANCHO LETTER EN:\u{1E2E7}\n\
WANCHO LETTER AAN:\u{1E2E8}\n\
WANCHO LETTER NYA:\u{1E2E9}\n\
WANCHO LETTER UEN:\u{1E2EA}\n\
WANCHO LETTER YIH:\u{1E2EB}\n\
WANCHO TONE TUP:\u{1E2EC}\n\
WANCHO TONE TUPNI:\u{1E2ED}\n\
WANCHO TONE KOI:\u{1E2EE}\n\
WANCHO TONE KOINI:\u{1E2EF}\n\
WANCHO DIGIT ZERO:\u{1E2F0}\n\
WANCHO DIGIT ONE:\u{1E2F1}\n\
WANCHO DIGIT TWO:\u{1E2F2}\n\
WANCHO DIGIT THREE:\u{1E2F3}\n\
WANCHO DIGIT FOUR:\u{1E2F4}\n\
WANCHO DIGIT FIVE:\u{1E2F5}\n\
WANCHO DIGIT SIX:\u{1E2F6}\n\
WANCHO DIGIT SEVEN:\u{1E2F7}\n\
WANCHO DIGIT EIGHT:\u{1E2F8}\n\
WANCHO DIGIT NINE:\u{1E2F9}\n\
WANCHO NGUN SIGN:\u{1E2FF}\n\
ETHIOPIC SYLLABLE HHYA:\u{1E7E0}\n\
ETHIOPIC SYLLABLE HHYU:\u{1E7E1}\n\
ETHIOPIC SYLLABLE HHYI:\u{1E7E2}\n\
ETHIOPIC SYLLABLE HHYAA:\u{1E7E3}\n\
ETHIOPIC SYLLABLE HHYEE:\u{1E7E4}\n\
ETHIOPIC SYLLABLE HHYE:\u{1E7E5}\n\
ETHIOPIC SYLLABLE HHYO:\u{1E7E6}\n\
ETHIOPIC SYLLABLE GURAGE HHWA:\u{1E7E8}\n\
ETHIOPIC SYLLABLE HHWI:\u{1E7E9}\n\
ETHIOPIC SYLLABLE HHWEE:\u{1E7EA}\n\
ETHIOPIC SYLLABLE HHWE:\u{1E7EB}\n\
ETHIOPIC SYLLABLE GURAGE MWI:\u{1E7ED}\n\
ETHIOPIC SYLLABLE GURAGE MWEE:\u{1E7EE}\n\
ETHIOPIC SYLLABLE GURAGE QWI:\u{1E7F0}\n\
ETHIOPIC SYLLABLE GURAGE QWEE:\u{1E7F1}\n\
ETHIOPIC SYLLABLE GURAGE QWE:\u{1E7F2}\n\
ETHIOPIC SYLLABLE GURAGE BWI:\u{1E7F3}\n\
ETHIOPIC SYLLABLE GURAGE BWEE:\u{1E7F4}\n\
ETHIOPIC SYLLABLE GURAGE KWI:\u{1E7F5}\n\
ETHIOPIC SYLLABLE GURAGE KWEE:\u{1E7F6}\n\
ETHIOPIC SYLLABLE GURAGE KWE:\u{1E7F7}\n\
ETHIOPIC SYLLABLE GURAGE GWI:\u{1E7F8}\n\
ETHIOPIC SYLLABLE GURAGE GWEE:\u{1E7F9}\n\
ETHIOPIC SYLLABLE GURAGE GWE:\u{1E7FA}\n\
ETHIOPIC SYLLABLE GURAGE FWI:\u{1E7FB}\n\
ETHIOPIC SYLLABLE GURAGE FWEE:\u{1E7FC}\n\
ETHIOPIC SYLLABLE GURAGE PWI:\u{1E7FD}\n\
ETHIOPIC SYLLABLE GURAGE PWEE:\u{1E7FE}\n\
MENDE KIKAKUI SYLLABLE M001 KI:\u{1E800}\n\
MENDE KIKAKUI SYLLABLE M002 KA:\u{1E801}\n\
MENDE KIKAKUI SYLLABLE M003 KU:\u{1E802}\n\
MENDE KIKAKUI SYLLABLE M065 KEE:\u{1E803}\n\
MENDE KIKAKUI SYLLABLE M095 KE:\u{1E804}\n\
MENDE KIKAKUI SYLLABLE M076 KOO:\u{1E805}\n\
MENDE KIKAKUI SYLLABLE M048 KO:\u{1E806}\n\
MENDE KIKAKUI SYLLABLE M179 KUA:\u{1E807}\n\
MENDE KIKAKUI SYLLABLE M004 WI:\u{1E808}\n\
MENDE KIKAKUI SYLLABLE M005 WA:\u{1E809}\n\
MENDE KIKAKUI SYLLABLE M006 WU:\u{1E80A}\n\
MENDE KIKAKUI SYLLABLE M126 WEE:\u{1E80B}\n\
MENDE KIKAKUI SYLLABLE M118 WE:\u{1E80C}\n\
MENDE KIKAKUI SYLLABLE M114 WOO:\u{1E80D}\n\
MENDE KIKAKUI SYLLABLE M045 WO:\u{1E80E}\n\
MENDE KIKAKUI SYLLABLE M194 WUI:\u{1E80F}\n\
MENDE KIKAKUI SYLLABLE M143 WEI:\u{1E810}\n\
MENDE KIKAKUI SYLLABLE M061 WVI:\u{1E811}\n\
MENDE KIKAKUI SYLLABLE M049 WVA:\u{1E812}\n\
MENDE KIKAKUI SYLLABLE M139 WVE:\u{1E813}\n\
MENDE KIKAKUI SYLLABLE M007 MIN:\u{1E814}\n\
MENDE KIKAKUI SYLLABLE M008 MAN:\u{1E815}\n\
MENDE KIKAKUI SYLLABLE M009 MUN:\u{1E816}\n\
MENDE KIKAKUI SYLLABLE M059 MEN:\u{1E817}\n\
MENDE KIKAKUI SYLLABLE M094 MON:\u{1E818}\n\
MENDE KIKAKUI SYLLABLE M154 MUAN:\u{1E819}\n\
MENDE KIKAKUI SYLLABLE M189 MUEN:\u{1E81A}\n\
MENDE KIKAKUI SYLLABLE M010 BI:\u{1E81B}\n\
MENDE KIKAKUI SYLLABLE M011 BA:\u{1E81C}\n\
MENDE KIKAKUI SYLLABLE M012 BU:\u{1E81D}\n\
MENDE KIKAKUI SYLLABLE M150 BEE:\u{1E81E}\n\
MENDE KIKAKUI SYLLABLE M097 BE:\u{1E81F}\n\
MENDE KIKAKUI SYLLABLE M103 BOO:\u{1E820}\n\
MENDE KIKAKUI SYLLABLE M138 BO:\u{1E821}\n\
MENDE KIKAKUI SYLLABLE M013 I:\u{1E822}\n\
MENDE KIKAKUI SYLLABLE M014 A:\u{1E823}\n\
MENDE KIKAKUI SYLLABLE M015 U:\u{1E824}\n\
MENDE KIKAKUI SYLLABLE M163 EE:\u{1E825}\n\
MENDE KIKAKUI SYLLABLE M100 E:\u{1E826}\n\
MENDE KIKAKUI SYLLABLE M165 OO:\u{1E827}\n\
MENDE KIKAKUI SYLLABLE M147 O:\u{1E828}\n\
MENDE KIKAKUI SYLLABLE M137 EI:\u{1E829}\n\
MENDE KIKAKUI SYLLABLE M131 IN:\u{1E82A}\n\
MENDE KIKAKUI SYLLABLE M135 IN:\u{1E82B}\n\
MENDE KIKAKUI SYLLABLE M195 AN:\u{1E82C}\n\
MENDE KIKAKUI SYLLABLE M178 EN:\u{1E82D}\n\
MENDE KIKAKUI SYLLABLE M019 SI:\u{1E82E}\n\
MENDE KIKAKUI SYLLABLE M020 SA:\u{1E82F}\n\
MENDE KIKAKUI SYLLABLE M021 SU:\u{1E830}\n\
MENDE KIKAKUI SYLLABLE M162 SEE:\u{1E831}\n\
MENDE KIKAKUI SYLLABLE M116 SE:\u{1E832}\n\
MENDE KIKAKUI SYLLABLE M136 SOO:\u{1E833}\n\
MENDE KIKAKUI SYLLABLE M079 SO:\u{1E834}\n\
MENDE KIKAKUI SYLLABLE M196 SIA:\u{1E835}\n\
MENDE KIKAKUI SYLLABLE M025 LI:\u{1E836}\n\
MENDE KIKAKUI SYLLABLE M026 LA:\u{1E837}\n\
MENDE KIKAKUI SYLLABLE M027 LU:\u{1E838}\n\
MENDE KIKAKUI SYLLABLE M084 LEE:\u{1E839}\n\
MENDE KIKAKUI SYLLABLE M073 LE:\u{1E83A}\n\
MENDE KIKAKUI SYLLABLE M054 LOO:\u{1E83B}\n\
MENDE KIKAKUI SYLLABLE M153 LO:\u{1E83C}\n\
MENDE KIKAKUI SYLLABLE M110 LONG LE:\u{1E83D}\n\
MENDE KIKAKUI SYLLABLE M016 DI:\u{1E83E}\n\
MENDE KIKAKUI SYLLABLE M017 DA:\u{1E83F}\n\
MENDE KIKAKUI SYLLABLE M018 DU:\u{1E840}\n\
MENDE KIKAKUI SYLLABLE M089 DEE:\u{1E841}\n\
MENDE KIKAKUI SYLLABLE M180 DOO:\u{1E842}\n\
MENDE KIKAKUI SYLLABLE M181 DO:\u{1E843}\n\
MENDE KIKAKUI SYLLABLE M022 TI:\u{1E844}\n\
MENDE KIKAKUI SYLLABLE M023 TA:\u{1E845}\n\
MENDE KIKAKUI SYLLABLE M024 TU:\u{1E846}\n\
MENDE KIKAKUI SYLLABLE M091 TEE:\u{1E847}\n\
MENDE KIKAKUI SYLLABLE M055 TE:\u{1E848}\n\
MENDE KIKAKUI SYLLABLE M104 TOO:\u{1E849}\n\
MENDE KIKAKUI SYLLABLE M069 TO:\u{1E84A}\n\
MENDE KIKAKUI SYLLABLE M028 JI:\u{1E84B}\n\
MENDE KIKAKUI SYLLABLE M029 JA:\u{1E84C}\n\
MENDE KIKAKUI SYLLABLE M030 JU:\u{1E84D}\n\
MENDE KIKAKUI SYLLABLE M157 JEE:\u{1E84E}\n\
MENDE KIKAKUI SYLLABLE M113 JE:\u{1E84F}\n\
MENDE KIKAKUI SYLLABLE M160 JOO:\u{1E850}\n\
MENDE KIKAKUI SYLLABLE M063 JO:\u{1E851}\n\
MENDE KIKAKUI SYLLABLE M175 LONG JO:\u{1E852}\n\
MENDE KIKAKUI SYLLABLE M031 YI:\u{1E853}\n\
MENDE KIKAKUI SYLLABLE M032 YA:\u{1E854}\n\
MENDE KIKAKUI SYLLABLE M033 YU:\u{1E855}\n\
MENDE KIKAKUI SYLLABLE M109 YEE:\u{1E856}\n\
MENDE KIKAKUI SYLLABLE M080 YE:\u{1E857}\n\
MENDE KIKAKUI SYLLABLE M141 YOO:\u{1E858}\n\
MENDE KIKAKUI SYLLABLE M121 YO:\u{1E859}\n\
MENDE KIKAKUI SYLLABLE M034 FI:\u{1E85A}\n\
MENDE KIKAKUI SYLLABLE M035 FA:\u{1E85B}\n\
MENDE KIKAKUI SYLLABLE M036 FU:\u{1E85C}\n\
MENDE KIKAKUI SYLLABLE M078 FEE:\u{1E85D}\n\
MENDE KIKAKUI SYLLABLE M075 FE:\u{1E85E}\n\
MENDE KIKAKUI SYLLABLE M133 FOO:\u{1E85F}\n\
MENDE KIKAKUI SYLLABLE M088 FO:\u{1E860}\n\
MENDE KIKAKUI SYLLABLE M197 FUA:\u{1E861}\n\
MENDE KIKAKUI SYLLABLE M101 FAN:\u{1E862}\n\
MENDE KIKAKUI SYLLABLE M037 NIN:\u{1E863}\n\
MENDE KIKAKUI SYLLABLE M038 NAN:\u{1E864}\n\
MENDE KIKAKUI SYLLABLE M039 NUN:\u{1E865}\n\
MENDE KIKAKUI SYLLABLE M117 NEN:\u{1E866}\n\
MENDE KIKAKUI SYLLABLE M169 NON:\u{1E867}\n\
MENDE KIKAKUI SYLLABLE M176 HI:\u{1E868}\n\
MENDE KIKAKUI SYLLABLE M041 HA:\u{1E869}\n\
MENDE KIKAKUI SYLLABLE M186 HU:\u{1E86A}\n\
MENDE KIKAKUI SYLLABLE M040 HEE:\u{1E86B}\n\
MENDE KIKAKUI SYLLABLE M096 HE:\u{1E86C}\n\
MENDE KIKAKUI SYLLABLE M042 HOO:\u{1E86D}\n\
MENDE KIKAKUI SYLLABLE M140 HO:\u{1E86E}\n\
MENDE KIKAKUI SYLLABLE M083 HEEI:\u{1E86F}\n\
MENDE KIKAKUI SYLLABLE M128 HOOU:\u{1E870}\n\
MENDE KIKAKUI SYLLABLE M053 HIN:\u{1E871}\n\
MENDE KIKAKUI SYLLABLE M130 HAN:\u{1E872}\n\
MENDE KIKAKUI SYLLABLE M087 HUN:\u{1E873}\n\
MENDE KIKAKUI SYLLABLE M052 HEN:\u{1E874}\n\
MENDE KIKAKUI SYLLABLE M193 HON:\u{1E875}\n\
MENDE KIKAKUI SYLLABLE M046 HUAN:\u{1E876}\n\
MENDE KIKAKUI SYLLABLE M090 NGGI:\u{1E877}\n\
MENDE KIKAKUI SYLLABLE M043 NGGA:\u{1E878}\n\
MENDE KIKAKUI SYLLABLE M082 NGGU:\u{1E879}\n\
MENDE KIKAKUI SYLLABLE M115 NGGEE:\u{1E87A}\n\
MENDE KIKAKUI SYLLABLE M146 NGGE:\u{1E87B}\n\
MENDE KIKAKUI SYLLABLE M156 NGGOO:\u{1E87C}\n\
MENDE KIKAKUI SYLLABLE M120 NGGO:\u{1E87D}\n\
MENDE KIKAKUI SYLLABLE M159 NGGAA:\u{1E87E}\n\
MENDE KIKAKUI SYLLABLE M127 NGGUA:\u{1E87F}\n\
MENDE KIKAKUI SYLLABLE M086 LONG NGGE:\u{1E880}\n\
MENDE KIKAKUI SYLLABLE M106 LONG NGGOO:\u{1E881}\n\
MENDE KIKAKUI SYLLABLE M183 LONG NGGO:\u{1E882}\n\
MENDE KIKAKUI SYLLABLE M155 GI:\u{1E883}\n\
MENDE KIKAKUI SYLLABLE M111 GA:\u{1E884}\n\
MENDE KIKAKUI SYLLABLE M168 GU:\u{1E885}\n\
MENDE KIKAKUI SYLLABLE M190 GEE:\u{1E886}\n\
MENDE KIKAKUI SYLLABLE M166 GUEI:\u{1E887}\n\
MENDE KIKAKUI SYLLABLE M167 GUAN:\u{1E888}\n\
MENDE KIKAKUI SYLLABLE M184 NGEN:\u{1E889}\n\
MENDE KIKAKUI SYLLABLE M057 NGON:\u{1E88A}\n\
MENDE KIKAKUI SYLLABLE M177 NGUAN:\u{1E88B}\n\
MENDE KIKAKUI SYLLABLE M068 PI:\u{1E88C}\n\
MENDE KIKAKUI SYLLABLE M099 PA:\u{1E88D}\n\
MENDE KIKAKUI SYLLABLE M050 PU:\u{1E88E}\n\
MENDE KIKAKUI SYLLABLE M081 PEE:\u{1E88F}\n\
MENDE KIKAKUI SYLLABLE M051 PE:\u{1E890}\n\
MENDE KIKAKUI SYLLABLE M102 POO:\u{1E891}\n\
MENDE KIKAKUI SYLLABLE M066 PO:\u{1E892}\n\
MENDE KIKAKUI SYLLABLE M145 MBI:\u{1E893}\n\
MENDE KIKAKUI SYLLABLE M062 MBA:\u{1E894}\n\
MENDE KIKAKUI SYLLABLE M122 MBU:\u{1E895}\n\
MENDE KIKAKUI SYLLABLE M047 MBEE:\u{1E896}\n\
MENDE KIKAKUI SYLLABLE M188 MBEE:\u{1E897}\n\
MENDE KIKAKUI SYLLABLE M072 MBE:\u{1E898}\n\
MENDE KIKAKUI SYLLABLE M172 MBOO:\u{1E899}\n\
MENDE KIKAKUI SYLLABLE M174 MBO:\u{1E89A}\n\
MENDE KIKAKUI SYLLABLE M187 MBUU:\u{1E89B}\n\
MENDE KIKAKUI SYLLABLE M161 LONG MBE:\u{1E89C}\n\
MENDE KIKAKUI SYLLABLE M105 LONG MBOO:\u{1E89D}\n\
MENDE KIKAKUI SYLLABLE M142 LONG MBO:\u{1E89E}\n\
MENDE KIKAKUI SYLLABLE M132 KPI:\u{1E89F}\n\
MENDE KIKAKUI SYLLABLE M092 KPA:\u{1E8A0}\n\
MENDE KIKAKUI SYLLABLE M074 KPU:\u{1E8A1}\n\
MENDE KIKAKUI SYLLABLE M044 KPEE:\u{1E8A2}\n\
MENDE KIKAKUI SYLLABLE M108 KPE:\u{1E8A3}\n\
MENDE KIKAKUI SYLLABLE M112 KPOO:\u{1E8A4}\n\
MENDE KIKAKUI SYLLABLE M158 KPO:\u{1E8A5}\n\
MENDE KIKAKUI SYLLABLE M124 GBI:\u{1E8A6}\n\
MENDE KIKAKUI SYLLABLE M056 GBA:\u{1E8A7}\n\
MENDE KIKAKUI SYLLABLE M148 GBU:\u{1E8A8}\n\
MENDE KIKAKUI SYLLABLE M093 GBEE:\u{1E8A9}\n\
MENDE KIKAKUI SYLLABLE M107 GBE:\u{1E8AA}\n\
MENDE KIKAKUI SYLLABLE M071 GBOO:\u{1E8AB}\n\
MENDE KIKAKUI SYLLABLE M070 GBO:\u{1E8AC}\n\
MENDE KIKAKUI SYLLABLE M171 RA:\u{1E8AD}\n\
MENDE KIKAKUI SYLLABLE M123 NDI:\u{1E8AE}\n\
MENDE KIKAKUI SYLLABLE M129 NDA:\u{1E8AF}\n\
MENDE KIKAKUI SYLLABLE M125 NDU:\u{1E8B0}\n\
MENDE KIKAKUI SYLLABLE M191 NDEE:\u{1E8B1}\n\
MENDE KIKAKUI SYLLABLE M119 NDE:\u{1E8B2}\n\
MENDE KIKAKUI SYLLABLE M067 NDOO:\u{1E8B3}\n\
MENDE KIKAKUI SYLLABLE M064 NDO:\u{1E8B4}\n\
MENDE KIKAKUI SYLLABLE M152 NJA:\u{1E8B5}\n\
MENDE KIKAKUI SYLLABLE M192 NJU:\u{1E8B6}\n\
MENDE KIKAKUI SYLLABLE M149 NJEE:\u{1E8B7}\n\
MENDE KIKAKUI SYLLABLE M134 NJOO:\u{1E8B8}\n\
MENDE KIKAKUI SYLLABLE M182 VI:\u{1E8B9}\n\
MENDE KIKAKUI SYLLABLE M185 VA:\u{1E8BA}\n\
MENDE KIKAKUI SYLLABLE M151 VU:\u{1E8BB}\n\
MENDE KIKAKUI SYLLABLE M173 VEE:\u{1E8BC}\n\
MENDE KIKAKUI SYLLABLE M085 VE:\u{1E8BD}\n\
MENDE KIKAKUI SYLLABLE M144 VOO:\u{1E8BE}\n\
MENDE KIKAKUI SYLLABLE M077 VO:\u{1E8BF}\n\
MENDE KIKAKUI SYLLABLE M164 NYIN:\u{1E8C0}\n\
MENDE KIKAKUI SYLLABLE M058 NYAN:\u{1E8C1}\n\
MENDE KIKAKUI SYLLABLE M170 NYUN:\u{1E8C2}\n\
MENDE KIKAKUI SYLLABLE M098 NYEN:\u{1E8C3}\n\
MENDE KIKAKUI SYLLABLE M060 NYON:\u{1E8C4}\n\
MENDE KIKAKUI DIGIT ONE:\u{1E8C7}\n\
MENDE KIKAKUI DIGIT TWO:\u{1E8C8}\n\
MENDE KIKAKUI DIGIT THREE:\u{1E8C9}\n\
MENDE KIKAKUI DIGIT FOUR:\u{1E8CA}\n\
MENDE KIKAKUI DIGIT FIVE:\u{1E8CB}\n\
MENDE KIKAKUI DIGIT SIX:\u{1E8CC}\n\
MENDE KIKAKUI DIGIT SEVEN:\u{1E8CD}\n\
MENDE KIKAKUI DIGIT EIGHT:\u{1E8CE}\n\
MENDE KIKAKUI DIGIT NINE:\u{1E8CF}\n\
MENDE KIKAKUI COMBINING NUMBER TEENS:\u{1E8D0}\n\
MENDE KIKAKUI COMBINING NUMBER TENS:\u{1E8D1}\n\
MENDE KIKAKUI COMBINING NUMBER HUNDREDS:\u{1E8D2}\n\
MENDE KIKAKUI COMBINING NUMBER THOUSANDS:\u{1E8D3}\n\
MENDE KIKAKUI COMBINING NUMBER TEN THOUSANDS:\u{1E8D4}\n\
MENDE KIKAKUI COMBINING NUMBER HUNDRED THOUSANDS:\u{1E8D5}\n\
MENDE KIKAKUI COMBINING NUMBER MILLIONS:\u{1E8D6}\n\
ADLAM CAPITAL LETTER ALIF:\u{1E900}\n\
ADLAM CAPITAL LETTER DAALI:\u{1E901}\n\
ADLAM CAPITAL LETTER LAAM:\u{1E902}\n\
ADLAM CAPITAL LETTER MIIM:\u{1E903}\n\
ADLAM CAPITAL LETTER BA:\u{1E904}\n\
ADLAM CAPITAL LETTER SINNYIIYHE:\u{1E905}\n\
ADLAM CAPITAL LETTER PE:\u{1E906}\n\
ADLAM CAPITAL LETTER BHE:\u{1E907}\n\
ADLAM CAPITAL LETTER RA:\u{1E908}\n\
ADLAM CAPITAL LETTER E:\u{1E909}\n\
ADLAM CAPITAL LETTER FA:\u{1E90A}\n\
ADLAM CAPITAL LETTER I:\u{1E90B}\n\
ADLAM CAPITAL LETTER O:\u{1E90C}\n\
ADLAM CAPITAL LETTER DHA:\u{1E90D}\n\
ADLAM CAPITAL LETTER YHE:\u{1E90E}\n\
ADLAM CAPITAL LETTER WAW:\u{1E90F}\n\
ADLAM CAPITAL LETTER NUN:\u{1E910}\n\
ADLAM CAPITAL LETTER KAF:\u{1E911}\n\
ADLAM CAPITAL LETTER YA:\u{1E912}\n\
ADLAM CAPITAL LETTER U:\u{1E913}\n\
ADLAM CAPITAL LETTER JIIM:\u{1E914}\n\
ADLAM CAPITAL LETTER CHI:\u{1E915}\n\
ADLAM CAPITAL LETTER HA:\u{1E916}\n\
ADLAM CAPITAL LETTER QAAF:\u{1E917}\n\
ADLAM CAPITAL LETTER GA:\u{1E918}\n\
ADLAM CAPITAL LETTER NYA:\u{1E919}\n\
ADLAM CAPITAL LETTER TU:\u{1E91A}\n\
ADLAM CAPITAL LETTER NHA:\u{1E91B}\n\
ADLAM CAPITAL LETTER VA:\u{1E91C}\n\
ADLAM CAPITAL LETTER KHA:\u{1E91D}\n\
ADLAM CAPITAL LETTER GBE:\u{1E91E}\n\
ADLAM CAPITAL LETTER ZAL:\u{1E91F}\n\
ADLAM CAPITAL LETTER KPO:\u{1E920}\n\
ADLAM CAPITAL LETTER SHA:\u{1E921}\n\
ADLAM SMALL LETTER ALIF:\u{1E922}\n\
ADLAM SMALL LETTER DAALI:\u{1E923}\n\
ADLAM SMALL LETTER LAAM:\u{1E924}\n\
ADLAM SMALL LETTER MIIM:\u{1E925}\n\
ADLAM SMALL LETTER BA:\u{1E926}\n\
ADLAM SMALL LETTER SINNYIIYHE:\u{1E927}\n\
ADLAM SMALL LETTER PE:\u{1E928}\n\
ADLAM SMALL LETTER BHE:\u{1E929}\n\
ADLAM SMALL LETTER RA:\u{1E92A}\n\
ADLAM SMALL LETTER E:\u{1E92B}\n\
ADLAM SMALL LETTER FA:\u{1E92C}\n\
ADLAM SMALL LETTER I:\u{1E92D}\n\
ADLAM SMALL LETTER O:\u{1E92E}\n\
ADLAM SMALL LETTER DHA:\u{1E92F}\n\
ADLAM SMALL LETTER YHE:\u{1E930}\n\
ADLAM SMALL LETTER WAW:\u{1E931}\n\
ADLAM SMALL LETTER NUN:\u{1E932}\n\
ADLAM SMALL LETTER KAF:\u{1E933}\n\
ADLAM SMALL LETTER YA:\u{1E934}\n\
ADLAM SMALL LETTER U:\u{1E935}\n\
ADLAM SMALL LETTER JIIM:\u{1E936}\n\
ADLAM SMALL LETTER CHI:\u{1E937}\n\
ADLAM SMALL LETTER HA:\u{1E938}\n";

pub const NAMES_77: &'static str = "ADLAM SMALL LETTER QAAF:\u{1E939}\n\
ADLAM SMALL LETTER GA:\u{1E93A}\n\
ADLAM SMALL LETTER NYA:\u{1E93B}\n\
ADLAM SMALL LETTER TU:\u{1E93C}\n\
ADLAM SMALL LETTER NHA:\u{1E93D}\n\
ADLAM SMALL LETTER VA:\u{1E93E}\n\
ADLAM SMALL LETTER KHA:\u{1E93F}\n\
ADLAM SMALL LETTER GBE:\u{1E940}\n\
ADLAM SMALL LETTER ZAL:\u{1E941}\n\
ADLAM SMALL LETTER KPO:\u{1E942}\n\
ADLAM SMALL LETTER SHA:\u{1E943}\n\
ADLAM ALIF LENGTHENER:\u{1E944}\n\
ADLAM VOWEL LENGTHENER:\u{1E945}\n\
ADLAM GEMINATION MARK:\u{1E946}\n\
ADLAM HAMZA:\u{1E947}\n\
ADLAM CONSONANT MODIFIER:\u{1E948}\n\
ADLAM GEMINATE CONSONANT MODIFIER:\u{1E949}\n\
ADLAM NUKTA:\u{1E94A}\n\
ADLAM NASALIZATION MARK:\u{1E94B}\n\
ADLAM DIGIT ZERO:\u{1E950}\n\
ADLAM DIGIT ONE:\u{1E951}\n\
ADLAM DIGIT TWO:\u{1E952}\n\
ADLAM DIGIT THREE:\u{1E953}\n\
ADLAM DIGIT FOUR:\u{1E954}\n\
ADLAM DIGIT FIVE:\u{1E955}\n\
ADLAM DIGIT SIX:\u{1E956}\n\
ADLAM DIGIT SEVEN:\u{1E957}\n\
ADLAM DIGIT EIGHT:\u{1E958}\n\
ADLAM DIGIT NINE:\u{1E959}\n\
ADLAM INITIAL EXCLAMATION MARK:\u{1E95E}\n\
ADLAM INITIAL QUESTION MARK:\u{1E95F}\n\
INDIC SIYAQ NUMBER ONE:\u{1EC71}\n\
INDIC SIYAQ NUMBER TWO:\u{1EC72}\n\
INDIC SIYAQ NUMBER THREE:\u{1EC73}\n\
INDIC SIYAQ NUMBER FOUR:\u{1EC74}\n\
INDIC SIYAQ NUMBER FIVE:\u{1EC75}\n\
INDIC SIYAQ NUMBER SIX:\u{1EC76}\n\
INDIC SIYAQ NUMBER SEVEN:\u{1EC77}\n\
INDIC SIYAQ NUMBER EIGHT:\u{1EC78}\n\
INDIC SIYAQ NUMBER NINE:\u{1EC79}\n\
INDIC SIYAQ NUMBER TEN:\u{1EC7A}\n\
INDIC SIYAQ NUMBER TWENTY:\u{1EC7B}\n\
INDIC SIYAQ NUMBER THIRTY:\u{1EC7C}\n\
INDIC SIYAQ NUMBER FORTY:\u{1EC7D}\n\
INDIC SIYAQ NUMBER FIFTY:\u{1EC7E}\n\
INDIC SIYAQ NUMBER SIXTY:\u{1EC7F}\n\
INDIC SIYAQ NUMBER SEVENTY:\u{1EC80}\n\
INDIC SIYAQ NUMBER EIGHTY:\u{1EC81}\n\
INDIC SIYAQ NUMBER NINETY:\u{1EC82}\n\
INDIC SIYAQ NUMBER ONE HUNDRED:\u{1EC83}\n\
INDIC SIYAQ NUMBER TWO HUNDRED:\u{1EC84}\n\
INDIC SIYAQ NUMBER THREE HUNDRED:\u{1EC85}\n\
INDIC SIYAQ NUMBER FOUR HUNDRED:\u{1EC86}\n\
INDIC SIYAQ NUMBER FIVE HUNDRED:\u{1EC87}\n\
INDIC SIYAQ NUMBER SIX HUNDRED:\u{1EC88}\n\
INDIC SIYAQ NUMBER SEVEN HUNDRED:\u{1EC89}\n\
INDIC SIYAQ NUMBER EIGHT HUNDRED:\u{1EC8A}\n\
INDIC SIYAQ NUMBER NINE HUNDRED:\u{1EC8B}\n\
INDIC SIYAQ NUMBER ONE THOUSAND:\u{1EC8C}\n\
INDIC SIYAQ NUMBER TWO THOUSAND:\u{1EC8D}\n\
INDIC SIYAQ NUMBER THREE THOUSAND:\u{1EC8E}\n\
INDIC SIYAQ NUMBER FOUR THOUSAND:\u{1EC8F}\n\
INDIC SIYAQ NUMBER FIVE THOUSAND:\u{1EC90}\n\
INDIC SIYAQ NUMBER SIX THOUSAND:\u{1EC91}\n\
INDIC SIYAQ NUMBER SEVEN THOUSAND:\u{1EC92}\n\
INDIC SIYAQ NUMBER EIGHT THOUSAND:\u{1EC93}\n\
INDIC SIYAQ NUMBER NINE THOUSAND:\u{1EC94}\n\
INDIC SIYAQ NUMBER TEN THOUSAND:\u{1EC95}\n\
INDIC SIYAQ NUMBER TWENTY THOUSAND:\u{1EC96}\n\
INDIC SIYAQ NUMBER THIRTY THOUSAND:\u{1EC97}\n\
INDIC SIYAQ NUMBER FORTY THOUSAND:\u{1EC98}\n\
INDIC SIYAQ NUMBER FIFTY THOUSAND:\u{1EC99}\n\
INDIC SIYAQ NUMBER SIXTY THOUSAND:\u{1EC9A}\n\
INDIC SIYAQ NUMBER SEVENTY THOUSAND:\u{1EC9B}\n\
INDIC SIYAQ NUMBER EIGHTY THOUSAND:\u{1EC9C}\n\
INDIC SIYAQ NUMBER NINETY THOUSAND:\u{1EC9D}\n\
INDIC SIYAQ NUMBER LAKH:\u{1EC9E}\n\
INDIC SIYAQ NUMBER LAKHAN:\u{1EC9F}\n\
INDIC SIYAQ LAKH MARK:\u{1ECA0}\n\
INDIC SIYAQ NUMBER KAROR:\u{1ECA1}\n\
INDIC SIYAQ NUMBER KARORAN:\u{1ECA2}\n\
INDIC SIYAQ NUMBER PREFIXED ONE:\u{1ECA3}\n\
INDIC SIYAQ NUMBER PREFIXED TWO:\u{1ECA4}\n\
INDIC SIYAQ NUMBER PREFIXED THREE:\u{1ECA5}\n\
INDIC SIYAQ NUMBER PREFIXED FOUR:\u{1ECA6}\n\
INDIC SIYAQ NUMBER PREFIXED FIVE:\u{1ECA7}\n\
INDIC SIYAQ NUMBER PREFIXED SIX:\u{1ECA8}\n\
INDIC SIYAQ NUMBER PREFIXED SEVEN:\u{1ECA9}\n\
INDIC SIYAQ NUMBER PREFIXED EIGHT:\u{1ECAA}\n\
INDIC SIYAQ NUMBER PREFIXED NINE:\u{1ECAB}\n\
INDIC SIYAQ PLACEHOLDER:\u{1ECAC}\n\
INDIC SIYAQ FRACTION ONE QUARTER:\u{1ECAD}\n\
INDIC SIYAQ FRACTION ONE HALF:\u{1ECAE}\n\
INDIC SIYAQ FRACTION THREE QUARTERS:\u{1ECAF}\n\
INDIC SIYAQ RUPEE MARK:\u{1ECB0}\n\
INDIC SIYAQ NUMBER ALTERNATE ONE:\u{1ECB1}\n\
INDIC SIYAQ NUMBER ALTERNATE TWO:\u{1ECB2}\n\
INDIC SIYAQ NUMBER ALTERNATE TEN THOUSAND:\u{1ECB3}\n\
INDIC SIYAQ ALTERNATE LAKH MARK:\u{1ECB4}\n\
OTTOMAN SIYAQ NUMBER ONE:\u{1ED01}\n\
OTTOMAN SIYAQ NUMBER TWO:\u{1ED02}\n\
OTTOMAN SIYAQ NUMBER THREE:\u{1ED03}\n\
OTTOMAN SIYAQ NUMBER FOUR:\u{1ED04}\n\
OTTOMAN SIYAQ NUMBER FIVE:\u{1ED05}\n\
OTTOMAN SIYAQ NUMBER SIX:\u{1ED06}\n\
OTTOMAN SIYAQ NUMBER SEVEN:\u{1ED07}\n\
OTTOMAN SIYAQ NUMBER EIGHT:\u{1ED08}\n\
OTTOMAN SIYAQ NUMBER NINE:\u{1ED09}\n\
OTTOMAN SIYAQ NUMBER TEN:\u{1ED0A}\n\
OTTOMAN SIYAQ NUMBER TWENTY:\u{1ED0B}\n\
OTTOMAN SIYAQ NUMBER THIRTY:\u{1ED0C}\n\
OTTOMAN SIYAQ NUMBER FORTY:\u{1ED0D}\n\
OTTOMAN SIYAQ NUMBER FIFTY:\u{1ED0E}\n\
OTTOMAN SIYAQ NUMBER SIXTY:\u{1ED0F}\n\
OTTOMAN SIYAQ NUMBER SEVENTY:\u{1ED10}\n\
OTTOMAN SIYAQ NUMBER EIGHTY:\u{1ED11}\n\
OTTOMAN SIYAQ NUMBER NINETY:\u{1ED12}\n\
OTTOMAN SIYAQ NUMBER ONE HUNDRED:\u{1ED13}\n\
OTTOMAN SIYAQ NUMBER TWO HUNDRED:\u{1ED14}\n\
OTTOMAN SIYAQ NUMBER THREE HUNDRED:\u{1ED15}\n\
OTTOMAN SIYAQ NUMBER FOUR HUNDRED:\u{1ED16}\n\
OTTOMAN SIYAQ NUMBER FIVE HUNDRED:\u{1ED17}\n\
OTTOMAN SIYAQ NUMBER SIX HUNDRED:\u{1ED18}\n\
OTTOMAN SIYAQ NUMBER SEVEN HUNDRED:\u{1ED19}\n\
OTTOMAN SIYAQ NUMBER EIGHT HUNDRED:\u{1ED1A}\n\
OTTOMAN SIYAQ NUMBER NINE HUNDRED:\u{1ED1B}\n\
OTTOMAN SIYAQ NUMBER ONE THOUSAND:\u{1ED1C}\n\
OTTOMAN SIYAQ NUMBER TWO THOUSAND:\u{1ED1D}\n\
OTTOMAN SIYAQ NUMBER THREE THOUSAND:\u{1ED1E}\n\
OTTOMAN SIYAQ NUMBER FOUR THOUSAND:\u{1ED1F}\n\
OTTOMAN SIYAQ NUMBER FIVE THOUSAND:\u{1ED20}\n\
OTTOMAN SIYAQ NUMBER SIX THOUSAND:\u{1ED21}\n\
OTTOMAN SIYAQ NUMBER SEVEN THOUSAND:\u{1ED22}\n\
OTTOMAN SIYAQ NUMBER EIGHT THOUSAND:\u{1ED23}\n\
OTTOMAN SIYAQ NUMBER NINE THOUSAND:\u{1ED24}\n\
OTTOMAN SIYAQ NUMBER TEN THOUSAND:\u{1ED25}\n\
OTTOMAN SIYAQ NUMBER TWENTY THOUSAND:\u{1ED26}\n\
OTTOMAN SIYAQ NUMBER THIRTY THOUSAND:\u{1ED27}\n\
OTTOMAN SIYAQ NUMBER FORTY THOUSAND:\u{1ED28}\n\
OTTOMAN SIYAQ NUMBER FIFTY THOUSAND:\u{1ED29}\n\
OTTOMAN SIYAQ NUMBER SIXTY THOUSAND:\u{1ED2A}\n\
OTTOMAN SIYAQ NUMBER SEVENTY THOUSAND:\u{1ED2B}\n\
OTTOMAN SIYAQ NUMBER EIGHTY THOUSAND:\u{1ED2C}\n\
OTTOMAN SIYAQ NUMBER NINETY THOUSAND:\u{1ED2D}\n\
OTTOMAN SIYAQ MARRATAN:\u{1ED2E}\n\
OTTOMAN SIYAQ ALTERNATE NUMBER TWO:\u{1ED2F}\n\
OTTOMAN SIYAQ ALTERNATE NUMBER THREE:\u{1ED30}\n\
OTTOMAN SIYAQ ALTERNATE NUMBER FOUR:\u{1ED31}\n\
OTTOMAN SIYAQ ALTERNATE NUMBER FIVE:\u{1ED32}\n\
OTTOMAN SIYAQ ALTERNATE NUMBER SIX:\u{1ED33}\n\
OTTOMAN SIYAQ ALTERNATE NUMBER SEVEN:\u{1ED34}\n\
OTTOMAN SIYAQ ALTERNATE NUMBER EIGHT:\u{1ED35}\n\
OTTOMAN SIYAQ ALTERNATE NUMBER NINE:\u{1ED36}\n\
OTTOMAN SIYAQ ALTERNATE NUMBER TEN:\u{1ED37}\n\
OTTOMAN SIYAQ ALTERNATE NUMBER FOUR HUNDRED:\u{1ED38}\n\
OTTOMAN SIYAQ ALTERNATE NUMBER SIX HUNDRED:\u{1ED39}\n\
OTTOMAN SIYAQ ALTERNATE NUMBER TWO THOUSAND:\u{1ED3A}\n\
OTTOMAN SIYAQ ALTERNATE NUMBER TEN THOUSAND:\u{1ED3B}\n\
OTTOMAN SIYAQ FRACTION ONE HALF:\u{1ED3C}\n\
OTTOMAN SIYAQ FRACTION ONE SIXTH:\u{1ED3D}\n\
ARABIC MATHEMATICAL ALEF:\u{1EE00}\n\
ARABIC MATHEMATICAL BEH:\u{1EE01}\n\
ARABIC MATHEMATICAL JEEM:\u{1EE02}\n\
ARABIC MATHEMATICAL DAL:\u{1EE03}\n\
ARABIC MATHEMATICAL WAW:\u{1EE05}\n\
ARABIC MATHEMATICAL ZAIN:\u{1EE06}\n\
ARABIC MATHEMATICAL HAH:\u{1EE07}\n\
ARABIC MATHEMATICAL TAH:\u{1EE08}\n\
ARABIC MATHEMATICAL YEH:\u{1EE09}\n\
ARABIC MATHEMATICAL KAF:\u{1EE0A}\n\
ARABIC MATHEMATICAL LAM:\u{1EE0B}\n\
ARABIC MATHEMATICAL MEEM:\u{1EE0C}\n\
ARABIC MATHEMATICAL NOON:\u{1EE0D}\n\
ARABIC MATHEMATICAL SEEN:\u{1EE0E}\n\
ARABIC MATHEMATICAL AIN:\u{1EE0F}\n\
ARABIC MATHEMATICAL FEH:\u{1EE10}\n\
ARABIC MATHEMATICAL SAD:\u{1EE11}\n\
ARABIC MATHEMATICAL QAF:\u{1EE12}\n\
ARABIC MATHEMATICAL REH:\u{1EE13}\n\
ARABIC MATHEMATICAL SHEEN:\u{1EE14}\n\
ARABIC MATHEMATICAL TEH:\u{1EE15}\n\
ARABIC MATHEMATICAL THEH:\u{1EE16}\n\
ARABIC MATHEMATICAL KHAH:\u{1EE17}\n\
ARABIC MATHEMATICAL THAL:\u{1EE18}\n\
ARABIC MATHEMATICAL DAD:\u{1EE19}\n\
ARABIC MATHEMATICAL ZAH:\u{1EE1A}\n\
ARABIC MATHEMATICAL GHAIN:\u{1EE1B}\n\
ARABIC MATHEMATICAL DOTLESS BEH:\u{1EE1C}\n\
ARABIC MATHEMATICAL DOTLESS NOON:\u{1EE1D}\n\
ARABIC MATHEMATICAL DOTLESS FEH:\u{1EE1E}\n\
ARABIC MATHEMATICAL DOTLESS QAF:\u{1EE1F}\n\
ARABIC MATHEMATICAL INITIAL BEH:\u{1EE21}\n\
ARABIC MATHEMATICAL INITIAL JEEM:\u{1EE22}\n\
ARABIC MATHEMATICAL INITIAL HEH:\u{1EE24}\n\
ARABIC MATHEMATICAL INITIAL HAH:\u{1EE27}\n\
ARABIC MATHEMATICAL INITIAL YEH:\u{1EE29}\n\
ARABIC MATHEMATICAL INITIAL KAF:\u{1EE2A}\n\
ARABIC MATHEMATICAL INITIAL LAM:\u{1EE2B}\n\
ARABIC MATHEMATICAL INITIAL MEEM:\u{1EE2C}\n\
ARABIC MATHEMATICAL INITIAL NOON:\u{1EE2D}\n\
ARABIC MATHEMATICAL INITIAL SEEN:\u{1EE2E}\n\
ARABIC MATHEMATICAL INITIAL AIN:\u{1EE2F}\n\
ARABIC MATHEMATICAL INITIAL FEH:\u{1EE30}\n\
ARABIC MATHEMATICAL INITIAL SAD:\u{1EE31}\n\
ARABIC MATHEMATICAL INITIAL QAF:\u{1EE32}\n\
ARABIC MATHEMATICAL INITIAL SHEEN:\u{1EE34}\n\
ARABIC MATHEMATICAL INITIAL TEH:\u{1EE35}\n\
ARABIC MATHEMATICAL INITIAL THEH:\u{1EE36}\n\
ARABIC MATHEMATICAL INITIAL KHAH:\u{1EE37}\n\
ARABIC MATHEMATICAL INITIAL DAD:\u{1EE39}\n\
ARABIC MATHEMATICAL INITIAL GHAIN:\u{1EE3B}\n\
ARABIC MATHEMATICAL TAILED JEEM:\u{1EE42}\n\
ARABIC MATHEMATICAL TAILED HAH:\u{1EE47}\n\
ARABIC MATHEMATICAL TAILED YEH:\u{1EE49}\n\
ARABIC MATHEMATICAL TAILED LAM:\u{1EE4B}\n\
ARABIC MATHEMATICAL TAILED NOON:\u{1EE4D}\n\
ARABIC MATHEMATICAL TAILED SEEN:\u{1EE4E}\n\
ARABIC MATHEMATICAL TAILED AIN:\u{1EE4F}\n\
ARABIC MATHEMATICAL TAILED SAD:\u{1EE51}\n\
ARABIC MATHEMATICAL TAILED QAF:\u{1EE52}\n\
ARABIC MATHEMATICAL TAILED SHEEN:\u{1EE54}\n\
ARABIC MATHEMATICAL TAILED KHAH:\u{1EE57}\n\
ARABIC MATHEMATICAL TAILED DAD:\u{1EE59}\n\
ARABIC MATHEMATICAL TAILED GHAIN:\u{1EE5B}\n\
ARABIC MATHEMATICAL TAILED DOTLESS NOON:\u{1EE5D}\n\
ARABIC MATHEMATICAL TAILED DOTLESS QAF:\u{1EE5F}\n\
ARABIC MATHEMATICAL STRETCHED BEH:\u{1EE61}\n\
ARABIC MATHEMATICAL STRETCHED JEEM:\u{1EE62}\n\
ARABIC MATHEMATICAL STRETCHED HEH:\u{1EE64}\n\
ARABIC MATHEMATICAL STRETCHED HAH:\u{1EE67}\n\
ARABIC MATHEMATICAL STRETCHED TAH:\u{1EE68}\n\
ARABIC MATHEMATICAL STRETCHED YEH:\u{1EE69}\n\
ARABIC MATHEMATICAL STRETCHED KAF:\u{1EE6A}\n\
ARABIC MATHEMATICAL STRETCHED MEEM:\u{1EE6C}\n\
ARABIC MATHEMATICAL STRETCHED NOON:\u{1EE6D}\n\
ARABIC MATHEMATICAL STRETCHED SEEN:\u{1EE6E}\n\
ARABIC MATHEMATICAL STRETCHED AIN:\u{1EE6F}\n\
ARABIC MATHEMATICAL STRETCHED FEH:\u{1EE70}\n\
ARABIC MATHEMATICAL STRETCHED SAD:\u{1EE71}\n\
ARABIC MATHEMATICAL STRETCHED QAF:\u{1EE72}\n\
ARABIC MATHEMATICAL STRETCHED SHEEN:\u{1EE74}\n\
ARABIC MATHEMATICAL STRETCHED TEH:\u{1EE75}\n\
ARABIC MATHEMATICAL STRETCHED THEH:\u{1EE76}\n\
ARABIC MATHEMATICAL STRETCHED KHAH:\u{1EE77}\n\
ARABIC MATHEMATICAL STRETCHED DAD:\u{1EE79}\n\
ARABIC MATHEMATICAL STRETCHED ZAH:\u{1EE7A}\n\
ARABIC MATHEMATICAL STRETCHED GHAIN:\u{1EE7B}\n\
ARABIC MATHEMATICAL STRETCHED DOTLESS BEH:\u{1EE7C}\n\
ARABIC MATHEMATICAL STRETCHED DOTLESS FEH:\u{1EE7E}\n\
ARABIC MATHEMATICAL LOOPED ALEF:\u{1EE80}\n\
ARABIC MATHEMATICAL LOOPED BEH:\u{1EE81}\n\
ARABIC MATHEMATICAL LOOPED JEEM:\u{1EE82}\n\
ARABIC MATHEMATICAL LOOPED DAL:\u{1EE83}\n\
ARABIC MATHEMATICAL LOOPED HEH:\u{1EE84}\n\
ARABIC MATHEMATICAL LOOPED WAW:\u{1EE85}\n\
ARABIC MATHEMATICAL LOOPED ZAIN:\u{1EE86}\n\
ARABIC MATHEMATICAL LOOPED HAH:\u{1EE87}\n\
ARABIC MATHEMATICAL LOOPED TAH:\u{1EE88}\n\
ARABIC MATHEMATICAL LOOPED YEH:\u{1EE89}\n\
ARABIC MATHEMATICAL LOOPED LAM:\u{1EE8B}\n\
ARABIC MATHEMATICAL LOOPED MEEM:\u{1EE8C}\n\
ARABIC MATHEMATICAL LOOPED NOON:\u{1EE8D}\n\
ARABIC MATHEMATICAL LOOPED SEEN:\u{1EE8E}\n\
ARABIC MATHEMATICAL LOOPED AIN:\u{1EE8F}\n\
ARABIC MATHEMATICAL LOOPED FEH:\u{1EE90}\n\
ARABIC MATHEMATICAL LOOPED SAD:\u{1EE91}\n\
ARABIC MATHEMATICAL LOOPED QAF:\u{1EE92}\n\
ARABIC MATHEMATICAL LOOPED REH:\u{1EE93}\n\
ARABIC MATHEMATICAL LOOPED SHEEN:\u{1EE94}\n\
ARABIC MATHEMATICAL LOOPED TEH:\u{1EE95}\n\
ARABIC MATHEMATICAL LOOPED THEH:\u{1EE96}\n\
ARABIC MATHEMATICAL LOOPED KHAH:\u{1EE97}\n\
ARABIC MATHEMATICAL LOOPED THAL:\u{1EE98}\n\
ARABIC MATHEMATICAL LOOPED DAD:\u{1EE99}\n\
ARABIC MATHEMATICAL LOOPED ZAH:\u{1EE9A}\n\
ARABIC MATHEMATICAL LOOPED GHAIN:\u{1EE9B}\n\
ARABIC MATHEMATICAL DOUBLE-STRUCK BEH:\u{1EEA1}\n\
ARABIC MATHEMATICAL DOUBLE-STRUCK JEEM:\u{1EEA2}\n\
ARABIC MATHEMATICAL DOUBLE-STRUCK DAL:\u{1EEA3}\n\
ARABIC MATHEMATICAL DOUBLE-STRUCK WAW:\u{1EEA5}\n\
ARABIC MATHEMATICAL DOUBLE-STRUCK ZAIN:\u{1EEA6}\n\
ARABIC MATHEMATICAL DOUBLE-STRUCK HAH:\u{1EEA7}\n\
ARABIC MATHEMATICAL DOUBLE-STRUCK TAH:\u{1EEA8}\n\
ARABIC MATHEMATICAL DOUBLE-STRUCK YEH:\u{1EEA9}\n\
ARABIC MATHEMATICAL DOUBLE-STRUCK LAM:\u{1EEAB}\n\
ARABIC MATHEMATICAL DOUBLE-STRUCK MEEM:\u{1EEAC}\n\
ARABIC MATHEMATICAL DOUBLE-STRUCK NOON:\u{1EEAD}\n\
ARABIC MATHEMATICAL DOUBLE-STRUCK SEEN:\u{1EEAE}\n\
ARABIC MATHEMATICAL DOUBLE-STRUCK AIN:\u{1EEAF}\n\
ARABIC MATHEMATICAL DOUBLE-STRUCK FEH:\u{1EEB0}\n\
ARABIC MATHEMATICAL DOUBLE-STRUCK SAD:\u{1EEB1}\n\
ARABIC MATHEMATICAL DOUBLE-STRUCK QAF:\u{1EEB2}\n\
ARABIC MATHEMATICAL DOUBLE-STRUCK REH:\u{1EEB3}\n\
ARABIC MATHEMATICAL DOUBLE-STRUCK SHEEN:\u{1EEB4}\n\
ARABIC MATHEMATICAL DOUBLE-STRUCK TEH:\u{1EEB5}\n\
ARABIC MATHEMATICAL DOUBLE-STRUCK THEH:\u{1EEB6}\n\
ARABIC MATHEMATICAL DOUBLE-STRUCK KHAH:\u{1EEB7}\n\
ARABIC MATHEMATICAL DOUBLE-STRUCK THAL:\u{1EEB8}\n\
ARABIC MATHEMATICAL DOUBLE-STRUCK DAD:\u{1EEB9}\n\
ARABIC MATHEMATICAL DOUBLE-STRUCK ZAH:\u{1EEBA}\n\
ARABIC MATHEMATICAL DOUBLE-STRUCK GHAIN:\u{1EEBB}\n\
ARABIC MATHEMATICAL OPERATOR MEEM WITH HAH WITH TATWEEL:\u{1EEF0}\n\
ARABIC MATHEMATICAL OPERATOR HAH WITH DAL:\u{1EEF1}\n\
MAHJONG TILE EAST WIND:\u{1F000}\n\
MAHJONG TILE SOUTH WIND:\u{1F001}\n\
MAHJONG TILE WEST WIND:\u{1F002}\n\
MAHJONG TILE NORTH WIND:\u{1F003}\n\
MAHJONG TILE RED DRAGON:\u{1F004}\n\
MAHJONG TILE GREEN DRAGON:\u{1F005}\n\
MAHJONG TILE WHITE DRAGON:\u{1F006}\n\
MAHJONG TILE ONE OF CHARACTERS:\u{1F007}\n\
MAHJONG TILE TWO OF CHARACTERS:\u{1F008}\n\
MAHJONG TILE THREE OF CHARACTERS:\u{1F009}\n\
MAHJONG TILE FOUR OF CHARACTERS:\u{1F00A}\n\
MAHJONG TILE FIVE OF CHARACTERS:\u{1F00B}\n\
MAHJONG TILE SIX OF CHARACTERS:\u{1F00C}\n\
MAHJONG TILE SEVEN OF CHARACTERS:\u{1F00D}\n\
MAHJONG TILE EIGHT OF CHARACTERS:\u{1F00E}\n\
MAHJONG TILE NINE OF CHARACTERS:\u{1F00F}\n\
MAHJONG TILE ONE OF BAMBOOS:\u{1F010}\n\
MAHJONG TILE TWO OF BAMBOOS:\u{1F011}\n\
MAHJONG TILE THREE OF BAMBOOS:\u{1F012}\n\
MAHJONG TILE FOUR OF BAMBOOS:\u{1F013}\n\
MAHJONG TILE FIVE OF BAMBOOS:\u{1F014}\n\
MAHJONG TILE SIX OF BAMBOOS:\u{1F015}\n\
MAHJONG TILE SEVEN OF BAMBOOS:\u{1F016}\n\
MAHJONG TILE EIGHT OF BAMBOOS:\u{1F017}\n\
MAHJONG TILE NINE OF BAMBOOS:\u{1F018}\n\
MAHJONG TILE ONE OF CIRCLES:\u{1F019}\n\
MAHJONG TILE TWO OF CIRCLES:\u{1F01A}\n\
MAHJONG TILE THREE OF CIRCLES:\u{1F01B}\n\
MAHJONG TILE FOUR OF CIRCLES:\u{1F01C}\n\
MAHJONG TILE FIVE OF CIRCLES:\u{1F01D}\n\
MAHJONG TILE SIX OF CIRCLES:\u{1F01E}\n\
MAHJONG TILE SEVEN OF CIRCLES:\u{1F01F}\n\
MAHJONG TILE EIGHT OF CIRCLES:\u{1F020}\n\
MAHJONG TILE NINE OF CIRCLES:\u{1F021}\n\
MAHJONG TILE PLUM:\u{1F022}\n\
MAHJONG TILE ORCHID:\u{1F023}\n\
MAHJONG TILE BAMBOO:\u{1F024}\n\
MAHJONG TILE CHRYSANTHEMUM:\u{1F025}\n\
MAHJONG TILE SPRING:\u{1F026}\n\
MAHJONG TILE SUMMER:\u{1F027}\n\
MAHJONG TILE AUTUMN:\u{1F028}\n\
MAHJONG TILE WINTER:\u{1F029}\n";

pub const NAMES_78: &'static str = "MAHJONG TILE JOKER:\u{1F02A}\n\
MAHJONG TILE BACK:\u{1F02B}\n\
DOMINO TILE HORIZONTAL BACK:\u{1F030}\n\
DOMINO TILE HORIZONTAL-00-00:\u{1F031}\n\
DOMINO TILE HORIZONTAL-00-01:\u{1F032}\n\
DOMINO TILE HORIZONTAL-00-02:\u{1F033}\n\
DOMINO TILE HORIZONTAL-00-03:\u{1F034}\n\
DOMINO TILE HORIZONTAL-00-04:\u{1F035}\n\
DOMINO TILE HORIZONTAL-00-05:\u{1F036}\n\
DOMINO TILE HORIZONTAL-00-06:\u{1F037}\n\
DOMINO TILE HORIZONTAL-01-00:\u{1F038}\n\
DOMINO TILE HORIZONTAL-01-01:\u{1F039}\n\
DOMINO TILE HORIZONTAL-01-02:\u{1F03A}\n\
DOMINO TILE HORIZONTAL-01-03:\u{1F03B}\n\
DOMINO TILE HORIZONTAL-01-04:\u{1F03C}\n\
DOMINO TILE HORIZONTAL-01-05:\u{1F03D}\n\
DOMINO TILE HORIZONTAL-01-06:\u{1F03E}\n\
DOMINO TILE HORIZONTAL-02-00:\u{1F03F}\n\
DOMINO TILE HORIZONTAL-02-01:\u{1F040}\n\
DOMINO TILE HORIZONTAL-02-02:\u{1F041}\n\
DOMINO TILE HORIZONTAL-02-03:\u{1F042}\n\
DOMINO TILE HORIZONTAL-02-04:\u{1F043}\n\
DOMINO TILE HORIZONTAL-02-05:\u{1F044}\n\
DOMINO TILE HORIZONTAL-02-06:\u{1F045}\n\
DOMINO TILE HORIZONTAL-03-00:\u{1F046}\n\
DOMINO TILE HORIZONTAL-03-01:\u{1F047}\n\
DOMINO TILE HORIZONTAL-03-02:\u{1F048}\n\
DOMINO TILE HORIZONTAL-03-03:\u{1F049}\n\
DOMINO TILE HORIZONTAL-03-04:\u{1F04A}\n\
DOMINO TILE HORIZONTAL-03-05:\u{1F04B}\n\
DOMINO TILE HORIZONTAL-03-06:\u{1F04C}\n\
DOMINO TILE HORIZONTAL-04-00:\u{1F04D}\n\
DOMINO TILE HORIZONTAL-04-01:\u{1F04E}\n\
DOMINO TILE HORIZONTAL-04-02:\u{1F04F}\n\
DOMINO TILE HORIZONTAL-04-03:\u{1F050}\n\
DOMINO TILE HORIZONTAL-04-04:\u{1F051}\n\
DOMINO TILE HORIZONTAL-04-05:\u{1F052}\n\
DOMINO TILE HORIZONTAL-04-06:\u{1F053}\n\
DOMINO TILE HORIZONTAL-05-00:\u{1F054}\n\
DOMINO TILE HORIZONTAL-05-01:\u{1F055}\n\
DOMINO TILE HORIZONTAL-05-02:\u{1F056}\n\
DOMINO TILE HORIZONTAL-05-03:\u{1F057}\n\
DOMINO TILE HORIZONTAL-05-04:\u{1F058}\n\
DOMINO TILE HORIZONTAL-05-05:\u{1F059}\n\
DOMINO TILE HORIZONTAL-05-06:\u{1F05A}\n\
DOMINO TILE HORIZONTAL-06-00:\u{1F05B}\n\
DOMINO TILE HORIZONTAL-06-01:\u{1F05C}\n\
DOMINO TILE HORIZONTAL-06-02:\u{1F05D}\n\
DOMINO TILE HORIZONTAL-06-03:\u{1F05E}\n\
DOMINO TILE HORIZONTAL-06-04:\u{1F05F}\n\
DOMINO TILE HORIZONTAL-06-05:\u{1F060}\n\
DOMINO TILE HORIZONTAL-06-06:\u{1F061}\n\
DOMINO TILE VERTICAL BACK:\u{1F062}\n\
DOMINO TILE VERTICAL-00-00:\u{1F063}\n\
DOMINO TILE VERTICAL-00-01:\u{1F064}\n\
DOMINO TILE VERTICAL-00-02:\u{1F065}\n\
DOMINO TILE VERTICAL-00-03:\u{1F066}\n\
DOMINO TILE VERTICAL-00-04:\u{1F067}\n\
DOMINO TILE VERTICAL-00-05:\u{1F068}\n\
DOMINO TILE VERTICAL-00-06:\u{1F069}\n\
DOMINO TILE VERTICAL-01-00:\u{1F06A}\n\
DOMINO TILE VERTICAL-01-01:\u{1F06B}\n\
DOMINO TILE VERTICAL-01-02:\u{1F06C}\n\
DOMINO TILE VERTICAL-01-03:\u{1F06D}\n\
DOMINO TILE VERTICAL-01-04:\u{1F06E}\n\
DOMINO TILE VERTICAL-01-05:\u{1F06F}\n\
DOMINO TILE VERTICAL-01-06:\u{1F070}\n\
DOMINO TILE VERTICAL-02-00:\u{1F071}\n\
DOMINO TILE VERTICAL-02-01:\u{1F072}\n\
DOMINO TILE VERTICAL-02-02:\u{1F073}\n\
DOMINO TILE VERTICAL-02-03:\u{1F074}\n\
DOMINO TILE VERTICAL-02-04:\u{1F075}\n\
DOMINO TILE VERTICAL-02-05:\u{1F076}\n\
DOMINO TILE VERTICAL-02-06:\u{1F077}\n\
DOMINO TILE VERTICAL-03-00:\u{1F078}\n\
DOMINO TILE VERTICAL-03-01:\u{1F079}\n\
DOMINO TILE VERTICAL-03-02:\u{1F07A}\n\
DOMINO TILE VERTICAL-03-03:\u{1F07B}\n\
DOMINO TILE VERTICAL-03-04:\u{1F07C}\n\
DOMINO TILE VERTICAL-03-05:\u{1F07D}\n\
DOMINO TILE VERTICAL-03-06:\u{1F07E}\n\
DOMINO TILE VERTICAL-04-00:\u{1F07F}\n\
DOMINO TILE VERTICAL-04-01:\u{1F080}\n\
DOMINO TILE VERTICAL-04-02:\u{1F081}\n\
DOMINO TILE VERTICAL-04-03:\u{1F082}\n\
DOMINO TILE VERTICAL-04-04:\u{1F083}\n\
DOMINO TILE VERTICAL-04-05:\u{1F084}\n\
DOMINO TILE VERTICAL-04-06:\u{1F085}\n\
DOMINO TILE VERTICAL-05-00:\u{1F086}\n\
DOMINO TILE VERTICAL-05-01:\u{1F087}\n\
DOMINO TILE VERTICAL-05-02:\u{1F088}\n\
DOMINO TILE VERTICAL-05-03:\u{1F089}\n\
DOMINO TILE VERTICAL-05-04:\u{1F08A}\n\
DOMINO TILE VERTICAL-05-05:\u{1F08B}\n\
DOMINO TILE VERTICAL-05-06:\u{1F08C}\n\
DOMINO TILE VERTICAL-06-00:\u{1F08D}\n\
DOMINO TILE VERTICAL-06-01:\u{1F08E}\n\
DOMINO TILE VERTICAL-06-02:\u{1F08F}\n\
DOMINO TILE VERTICAL-06-03:\u{1F090}\n\
DOMINO TILE VERTICAL-06-04:\u{1F091}\n\
DOMINO TILE VERTICAL-06-05:\u{1F092}\n\
DOMINO TILE VERTICAL-06-06:\u{1F093}\n\
PLAYING CARD BACK:\u{1F0A0}\n\
PLAYING CARD ACE OF SPADES:\u{1F0A1}\n\
PLAYING CARD TWO OF SPADES:\u{1F0A2}\n\
PLAYING CARD THREE OF SPADES:\u{1F0A3}\n\
PLAYING CARD FOUR OF SPADES:\u{1F0A4}\n\
PLAYING CARD FIVE OF SPADES:\u{1F0A5}\n\
PLAYING CARD SIX OF SPADES:\u{1F0A6}\n\
PLAYING CARD SEVEN OF SPADES:\u{1F0A7}\n\
PLAYING CARD EIGHT OF SPADES:\u{1F0A8}\n\
PLAYING CARD NINE OF SPADES:\u{1F0A9}\n\
PLAYING CARD TEN OF SPADES:\u{1F0AA}\n\
PLAYING CARD JACK OF SPADES:\u{1F0AB}\n\
PLAYING CARD KNIGHT OF SPADES:\u{1F0AC}\n\
PLAYING CARD QUEEN OF SPADES:\u{1F0AD}\n\
PLAYING CARD KING OF SPADES:\u{1F0AE}\n\
PLAYING CARD ACE OF HEARTS:\u{1F0B1}\n\
PLAYING CARD TWO OF HEARTS:\u{1F0B2}\n\
PLAYING CARD THREE OF HEARTS:\u{1F0B3}\n\
PLAYING CARD FOUR OF HEARTS:\u{1F0B4}\n\
PLAYING CARD FIVE OF HEARTS:\u{1F0B5}\n\
PLAYING CARD SIX OF HEARTS:\u{1F0B6}\n\
PLAYING CARD SEVEN OF HEARTS:\u{1F0B7}\n\
PLAYING CARD EIGHT OF HEARTS:\u{1F0B8}\n\
PLAYING CARD NINE OF HEARTS:\u{1F0B9}\n\
PLAYING CARD TEN OF HEARTS:\u{1F0BA}\n\
PLAYING CARD JACK OF HEARTS:\u{1F0BB}\n\
PLAYING CARD KNIGHT OF HEARTS:\u{1F0BC}\n\
PLAYING CARD QUEEN OF HEARTS:\u{1F0BD}\n\
PLAYING CARD KING OF HEARTS:\u{1F0BE}\n\
PLAYING CARD RED JOKER:\u{1F0BF}\n\
PLAYING CARD ACE OF DIAMONDS:\u{1F0C1}\n\
PLAYING CARD TWO OF DIAMONDS:\u{1F0C2}\n\
PLAYING CARD THREE OF DIAMONDS:\u{1F0C3}\n\
PLAYING CARD FOUR OF DIAMONDS:\u{1F0C4}\n\
PLAYING CARD FIVE OF DIAMONDS:\u{1F0C5}\n\
PLAYING CARD SIX OF DIAMONDS:\u{1F0C6}\n\
PLAYING CARD SEVEN OF DIAMONDS:\u{1F0C7}\n\
PLAYING CARD EIGHT OF DIAMONDS:\u{1F0C8}\n\
PLAYING CARD NINE OF DIAMONDS:\u{1F0C9}\n\
PLAYING CARD TEN OF DIAMONDS:\u{1F0CA}\n\
PLAYING CARD JACK OF DIAMONDS:\u{1F0CB}\n\
PLAYING CARD KNIGHT OF DIAMONDS:\u{1F0CC}\n\
PLAYING CARD QUEEN OF DIAMONDS:\u{1F0CD}\n\
PLAYING CARD KING OF DIAMONDS:\u{1F0CE}\n\
PLAYING CARD BLACK JOKER:\u{1F0CF}\n\
PLAYING CARD ACE OF CLUBS:\u{1F0D1}\n\
PLAYING CARD TWO OF CLUBS:\u{1F0D2}\n\
PLAYING CARD THREE OF CLUBS:\u{1F0D3}\n\
PLAYING CARD FOUR OF CLUBS:\u{1F0D4}\n\
PLAYING CARD FIVE OF CLUBS:\u{1F0D5}\n\
PLAYING CARD SIX OF CLUBS:\u{1F0D6}\n\
PLAYING CARD SEVEN OF CLUBS:\u{1F0D7}\n\
PLAYING CARD EIGHT OF CLUBS:\u{1F0D8}\n\
PLAYING CARD NINE OF CLUBS:\u{1F0D9}\n\
PLAYING CARD TEN OF CLUBS:\u{1F0DA}\n\
PLAYING CARD JACK OF CLUBS:\u{1F0DB}\n\
PLAYING CARD KNIGHT OF CLUBS:\u{1F0DC}\n\
PLAYING CARD QUEEN OF CLUBS:\u{1F0DD}\n\
PLAYING CARD KING OF CLUBS:\u{1F0DE}\n\
PLAYING CARD WHITE JOKER:\u{1F0DF}\n\
PLAYING CARD FOOL:\u{1F0E0}\n\
PLAYING CARD TRUMP-1:\u{1F0E1}\n\
PLAYING CARD TRUMP-2:\u{1F0E2}\n\
PLAYING CARD TRUMP-3:\u{1F0E3}\n\
PLAYING CARD TRUMP-4:\u{1F0E4}\n\
PLAYING CARD TRUMP-5:\u{1F0E5}\n\
PLAYING CARD TRUMP-6:\u{1F0E6}\n\
PLAYING CARD TRUMP-7:\u{1F0E7}\n\
PLAYING CARD TRUMP-8:\u{1F0E8}\n\
PLAYING CARD TRUMP-9:\u{1F0E9}\n\
PLAYING CARD TRUMP-10:\u{1F0EA}\n\
PLAYING CARD TRUMP-11:\u{1F0EB}\n\
PLAYING CARD TRUMP-12:\u{1F0EC}\n\
PLAYING CARD TRUMP-13:\u{1F0ED}\n\
PLAYING CARD TRUMP-14:\u{1F0EE}\n\
PLAYING CARD TRUMP-15:\u{1F0EF}\n\
PLAYING CARD TRUMP-16:\u{1F0F0}\n\
PLAYING CARD TRUMP-17:\u{1F0F1}\n\
PLAYING CARD TRUMP-18:\u{1F0F2}\n\
PLAYING CARD TRUMP-19:\u{1F0F3}\n\
PLAYING CARD TRUMP-20:\u{1F0F4}\n\
PLAYING CARD TRUMP-21:\u{1F0F5}\n\
DIGIT ZERO FULL STOP:\u{1F100}\n\
DIGIT ZERO COMMA:\u{1F101}\n\
DIGIT ONE COMMA:\u{1F102}\n\
DIGIT TWO COMMA:\u{1F103}\n\
DIGIT THREE COMMA:\u{1F104}\n\
DIGIT FOUR COMMA:\u{1F105}\n\
DIGIT FIVE COMMA:\u{1F106}\n\
DIGIT SIX COMMA:\u{1F107}\n\
DIGIT SEVEN COMMA:\u{1F108}\n\
DIGIT EIGHT COMMA:\u{1F109}\n\
DIGIT NINE COMMA:\u{1F10A}\n\
DINGBAT CIRCLED SANS-SERIF DIGIT ZERO:\u{1F10B}\n\
DINGBAT NEGATIVE CIRCLED SANS-SERIF DIGIT ZERO:\u{1F10C}\n\
CIRCLED ZERO WITH SLASH:\u{1F10D}\n\
CIRCLED ANTICLOCKWISE ARROW:\u{1F10E}\n\
CIRCLED DOLLAR SIGN WITH OVERLAID BACKSLASH:\u{1F10F}\n\
PARENTHESIZED LATIN CAPITAL LETTER A:\u{1F110}\n\
PARENTHESIZED LATIN CAPITAL LETTER B:\u{1F111}\n\
PARENTHESIZED LATIN CAPITAL LETTER C:\u{1F112}\n\
PARENTHESIZED LATIN CAPITAL LETTER D:\u{1F113}\n\
PARENTHESIZED LATIN CAPITAL LETTER E:\u{1F114}\n\
PARENTHESIZED LATIN CAPITAL LETTER F:\u{1F115}\n\
PARENTHESIZED LATIN CAPITAL LETTER G:\u{1F116}\n\
PARENTHESIZED LATIN CAPITAL LETTER H:\u{1F117}\n\
PARENTHESIZED LATIN CAPITAL LETTER I:\u{1F118}\n\
PARENTHESIZED LATIN CAPITAL LETTER J:\u{1F119}\n\
PARENTHESIZED LATIN CAPITAL LETTER K:\u{1F11A}\n\
PARENTHESIZED LATIN CAPITAL LETTER L:\u{1F11B}\n\
PARENTHESIZED LATIN CAPITAL LETTER M:\u{1F11C}\n\
PARENTHESIZED LATIN CAPITAL LETTER N:\u{1F11D}\n\
PARENTHESIZED LATIN CAPITAL LETTER O:\u{1F11E}\n\
PARENTHESIZED LATIN CAPITAL LETTER P:\u{1F11F}\n\
PARENTHESIZED LATIN CAPITAL LETTER Q:\u{1F120}\n\
PARENTHESIZED LATIN CAPITAL LETTER R:\u{1F121}\n\
PARENTHESIZED LATIN CAPITAL LETTER S:\u{1F122}\n\
PARENTHESIZED LATIN CAPITAL LETTER T:\u{1F123}\n\
PARENTHESIZED LATIN CAPITAL LETTER U:\u{1F124}\n\
PARENTHESIZED LATIN CAPITAL LETTER V:\u{1F125}\n\
PARENTHESIZED LATIN CAPITAL LETTER W:\u{1F126}\n\
PARENTHESIZED LATIN CAPITAL LETTER X:\u{1F127}\n\
PARENTHESIZED LATIN CAPITAL LETTER Y:\u{1F128}\n\
PARENTHESIZED LATIN CAPITAL LETTER Z:\u{1F129}\n\
TORTOISE SHELL BRACKETED LATIN CAPITAL LETTER S:\u{1F12A}\n\
CIRCLED ITALIC LATIN CAPITAL LETTER C:\u{1F12B}\n\
CIRCLED ITALIC LATIN CAPITAL LETTER R:\u{1F12C}\n\
CIRCLED CD:\u{1F12D}\n\
CIRCLED WZ:\u{1F12E}\n\
COPYLEFT SYMBOL:\u{1F12F}\n\
SQUARED LATIN CAPITAL LETTER A:\u{1F130}\n\
SQUARED LATIN CAPITAL LETTER B:\u{1F131}\n\
SQUARED LATIN CAPITAL LETTER C:\u{1F132}\n\
SQUARED LATIN CAPITAL LETTER D:\u{1F133}\n\
SQUARED LATIN CAPITAL LETTER E:\u{1F134}\n\
SQUARED LATIN CAPITAL LETTER F:\u{1F135}\n\
SQUARED LATIN CAPITAL LETTER G:\u{1F136}\n\
SQUARED LATIN CAPITAL LETTER H:\u{1F137}\n\
SQUARED LATIN CAPITAL LETTER I:\u{1F138}\n\
SQUARED LATIN CAPITAL LETTER J:\u{1F139}\n\
SQUARED LATIN CAPITAL LETTER K:\u{1F13A}\n\
SQUARED LATIN CAPITAL LETTER L:\u{1F13B}\n\
SQUARED LATIN CAPITAL LETTER M:\u{1F13C}\n\
SQUARED LATIN CAPITAL LETTER N:\u{1F13D}\n\
SQUARED LATIN CAPITAL LETTER O:\u{1F13E}\n\
SQUARED LATIN CAPITAL LETTER P:\u{1F13F}\n\
SQUARED LATIN CAPITAL LETTER Q:\u{1F140}\n\
SQUARED LATIN CAPITAL LETTER R:\u{1F141}\n\
SQUARED LATIN CAPITAL LETTER S:\u{1F142}\n\
SQUARED LATIN CAPITAL LETTER T:\u{1F143}\n\
SQUARED LATIN CAPITAL LETTER U:\u{1F144}\n\
SQUARED LATIN CAPITAL LETTER V:\u{1F145}\n\
SQUARED LATIN CAPITAL LETTER W:\u{1F146}\n\
SQUARED LATIN CAPITAL LETTER X:\u{1F147}\n\
SQUARED LATIN CAPITAL LETTER Y:\u{1F148}\n\
SQUARED LATIN CAPITAL LETTER Z:\u{1F149}\n\
SQUARED HV:\u{1F14A}\n\
SQUARED MV:\u{1F14B}\n\
SQUARED SD:\u{1F14C}\n\
SQUARED SS:\u{1F14D}\n\
SQUARED PPV:\u{1F14E}\n\
SQUARED WC:\u{1F14F}\n\
NEGATIVE CIRCLED LATIN CAPITAL LETTER A:\u{1F150}\n\
NEGATIVE CIRCLED LATIN CAPITAL LETTER B:\u{1F151}\n\
NEGATIVE CIRCLED LATIN CAPITAL LETTER C:\u{1F152}\n\
NEGATIVE CIRCLED LATIN CAPITAL LETTER D:\u{1F153}\n\
NEGATIVE CIRCLED LATIN CAPITAL LETTER E:\u{1F154}\n\
NEGATIVE CIRCLED LATIN CAPITAL LETTER F:\u{1F155}\n\
NEGATIVE CIRCLED LATIN CAPITAL LETTER G:\u{1F156}\n\
NEGATIVE CIRCLED LATIN CAPITAL LETTER H:\u{1F157}\n\
NEGATIVE CIRCLED LATIN CAPITAL LETTER I:\u{1F158}\n\
NEGATIVE CIRCLED LATIN CAPITAL LETTER J:\u{1F159}\n\
NEGATIVE CIRCLED LATIN CAPITAL LETTER K:\u{1F15A}\n\
NEGATIVE CIRCLED LATIN CAPITAL LETTER L:\u{1F15B}\n\
NEGATIVE CIRCLED LATIN CAPITAL LETTER M:\u{1F15C}\n\
NEGATIVE CIRCLED LATIN CAPITAL LETTER N:\u{1F15D}\n\
NEGATIVE CIRCLED LATIN CAPITAL LETTER O:\u{1F15E}\n\
NEGATIVE CIRCLED LATIN CAPITAL LETTER P:\u{1F15F}\n\
NEGATIVE CIRCLED LATIN CAPITAL LETTER Q:\u{1F160}\n\
NEGATIVE CIRCLED LATIN CAPITAL LETTER R:\u{1F161}\n\
NEGATIVE CIRCLED LATIN CAPITAL LETTER S:\u{1F162}\n\
NEGATIVE CIRCLED LATIN CAPITAL LETTER T:\u{1F163}\n\
NEGATIVE CIRCLED LATIN CAPITAL LETTER U:\u{1F164}\n\
NEGATIVE CIRCLED LATIN CAPITAL LETTER V:\u{1F165}\n\
NEGATIVE CIRCLED LATIN CAPITAL LETTER W:\u{1F166}\n\
NEGATIVE CIRCLED LATIN CAPITAL LETTER X:\u{1F167}\n\
NEGATIVE CIRCLED LATIN CAPITAL LETTER Y:\u{1F168}\n\
NEGATIVE CIRCLED LATIN CAPITAL LETTER Z:\u{1F169}\n\
RAISED MC SIGN:\u{1F16A}\n\
RAISED MD SIGN:\u{1F16B}\n\
RAISED MR SIGN:\u{1F16C}\n\
CIRCLED CC:\u{1F16D}\n\
CIRCLED C WITH OVERLAID BACKSLASH:\u{1F16E}\n\
CIRCLED HUMAN FIGURE:\u{1F16F}\n\
NEGATIVE SQUARED LATIN CAPITAL LETTER A:\u{1F170}\n\
NEGATIVE SQUARED LATIN CAPITAL LETTER B:\u{1F171}\n\
NEGATIVE SQUARED LATIN CAPITAL LETTER C:\u{1F172}\n\
NEGATIVE SQUARED LATIN CAPITAL LETTER D:\u{1F173}\n\
NEGATIVE SQUARED LATIN CAPITAL LETTER E:\u{1F174}\n\
NEGATIVE SQUARED LATIN CAPITAL LETTER F:\u{1F175}\n\
NEGATIVE SQUARED LATIN CAPITAL LETTER G:\u{1F176}\n\
NEGATIVE SQUARED LATIN CAPITAL LETTER H:\u{1F177}\n\
NEGATIVE SQUARED LATIN CAPITAL LETTER I:\u{1F178}\n\
NEGATIVE SQUARED LATIN CAPITAL LETTER J:\u{1F179}\n\
NEGATIVE SQUARED LATIN CAPITAL LETTER K:\u{1F17A}\n\
NEGATIVE SQUARED LATIN CAPITAL LETTER L:\u{1F17B}\n\
NEGATIVE SQUARED LATIN CAPITAL LETTER M:\u{1F17C}\n\
NEGATIVE SQUARED LATIN CAPITAL LETTER N:\u{1F17D}\n\
NEGATIVE SQUARED LATIN CAPITAL LETTER O:\u{1F17E}\n\
NEGATIVE SQUARED LATIN CAPITAL LETTER P:\u{1F17F}\n\
NEGATIVE SQUARED LATIN CAPITAL LETTER Q:\u{1F180}\n\
NEGATIVE SQUARED LATIN CAPITAL LETTER R:\u{1F181}\n\
NEGATIVE SQUARED LATIN CAPITAL LETTER S:\u{1F182}\n\
NEGATIVE SQUARED LATIN CAPITAL LETTER T:\u{1F183}\n\
NEGATIVE SQUARED LATIN CAPITAL LETTER U:\u{1F184}\n\
NEGATIVE SQUARED LATIN CAPITAL LETTER V:\u{1F185}\n\
NEGATIVE SQUARED LATIN CAPITAL LETTER W:\u{1F186}\n\
NEGATIVE SQUARED LATIN CAPITAL LETTER X:\u{1F187}\n\
NEGATIVE SQUARED LATIN CAPITAL LETTER Y:\u{1F188}\n\
NEGATIVE SQUARED LATIN CAPITAL LETTER Z:\u{1F189}\n\
CROSSED NEGATIVE SQUARED LATIN CAPITAL LETTER P:\u{1F18A}\n\
NEGATIVE SQUARED IC:\u{1F18B}\n\
NEGATIVE SQUARED PA:\u{1F18C}\n\
NEGATIVE SQUARED SA:\u{1F18D}\n\
NEGATIVE SQUARED AB:\u{1F18E}\n\
NEGATIVE SQUARED WC:\u{1F18F}\n\
SQUARE DJ:\u{1F190}\n\
SQUARED CL:\u{1F191}\n\
SQUARED COOL:\u{1F192}\n\
SQUARED FREE:\u{1F193}\n\
SQUARED ID:\u{1F194}\n\
SQUARED NEW:\u{1F195}\n\
SQUARED NG:\u{1F196}\n\
SQUARED OK:\u{1F197}\n\
SQUARED SOS:\u{1F198}\n\
SQUARED UP WITH EXCLAMATION MARK:\u{1F199}\n\
SQUARED VS:\u{1F19A}\n\
SQUARED THREE D:\u{1F19B}\n\
SQUARED SECOND SCREEN:\u{1F19C}\n\
SQUARED TWO K:\u{1F19D}\n\
SQUARED FOUR K:\u{1F19E}\n\
SQUARED EIGHT K:\u{1F19F}\n\
SQUARED FIVE POINT ONE:\u{1F1A0}\n\
SQUARED SEVEN POINT ONE:\u{1F1A1}\n\
SQUARED TWENTY-TWO POINT TWO:\u{1F1A2}\n\
SQUARED SIXTY P:\u{1F1A3}\n\
SQUARED ONE HUNDRED TWENTY P:\u{1F1A4}\n\
SQUARED LATIN SMALL LETTER D:\u{1F1A5}\n\
SQUARED HC:\u{1F1A6}\n\
SQUARED HDR:\u{1F1A7}\n\
SQUARED HI-RES:\u{1F1A8}\n\
SQUARED LOSSLESS:\u{1F1A9}\n\
SQUARED SHV:\u{1F1AA}\n\
SQUARED UHD:\u{1F1AB}\n\
SQUARED VOD:\u{1F1AC}\n\
MASK WORK SYMBOL:\u{1F1AD}\n\
REGIONAL INDICATOR SYMBOL LETTER A:\u{1F1E6}\n\
REGIONAL INDICATOR SYMBOL LETTER B:\u{1F1E7}\n\
REGIONAL INDICATOR SYMBOL LETTER C:\u{1F1E8}\n";

pub const NAMES_79: &'static str = "REGIONAL INDICATOR SYMBOL LETTER D:\u{1F1E9}\n\
REGIONAL INDICATOR SYMBOL LETTER E:\u{1F1EA}\n\
REGIONAL INDICATOR SYMBOL LETTER F:\u{1F1EB}\n\
REGIONAL INDICATOR SYMBOL LETTER G:\u{1F1EC}\n\
REGIONAL INDICATOR SYMBOL LETTER H:\u{1F1ED}\n\
REGIONAL INDICATOR SYMBOL LETTER I:\u{1F1EE}\n\
REGIONAL INDICATOR SYMBOL LETTER J:\u{1F1EF}\n\
REGIONAL INDICATOR SYMBOL LETTER K:\u{1F1F0}\n\
REGIONAL INDICATOR SYMBOL LETTER L:\u{1F1F1}\n\
REGIONAL INDICATOR SYMBOL LETTER M:\u{1F1F2}\n\
REGIONAL INDICATOR SYMBOL LETTER N:\u{1F1F3}\n\
REGIONAL INDICATOR SYMBOL LETTER O:\u{1F1F4}\n\
REGIONAL INDICATOR SYMBOL LETTER P:\u{1F1F5}\n\
REGIONAL INDICATOR SYMBOL LETTER Q:\u{1F1F6}\n\
REGIONAL INDICATOR SYMBOL LETTER R:\u{1F1F7}\n\
REGIONAL INDICATOR SYMBOL LETTER S:\u{1F1F8}\n\
REGIONAL INDICATOR SYMBOL LETTER T:\u{1F1F9}\n\
REGIONAL INDICATOR SYMBOL LETTER U:\u{1F1FA}\n\
REGIONAL INDICATOR SYMBOL LETTER V:\u{1F1FB}\n\
REGIONAL INDICATOR SYMBOL LETTER W:\u{1F1FC}\n\
REGIONAL INDICATOR SYMBOL LETTER X:\u{1F1FD}\n\
REGIONAL INDICATOR SYMBOL LETTER Y:\u{1F1FE}\n\
REGIONAL INDICATOR SYMBOL LETTER Z:\u{1F1FF}\n\
SQUARE HIRAGANA HOKA:\u{1F200}\n\
SQUARED KATAKANA KOKO:\u{1F201}\n\
SQUARED KATAKANA SA:\u{1F202}\n\
SQUARED CJK UNIFIED IDEOGRAPH-624B:\u{1F210}\n\
SQUARED CJK UNIFIED IDEOGRAPH-5B57:\u{1F211}\n\
SQUARED CJK UNIFIED IDEOGRAPH-53CC:\u{1F212}\n\
SQUARED KATAKANA DE:\u{1F213}\n\
SQUARED CJK UNIFIED IDEOGRAPH-4E8C:\u{1F214}\n\
SQUARED CJK UNIFIED IDEOGRAPH-591A:\u{1F215}\n\
SQUARED CJK UNIFIED IDEOGRAPH-89E3:\u{1F216}\n\
SQUARED CJK UNIFIED IDEOGRAPH-5929:\u{1F217}\n\
SQUARED CJK UNIFIED IDEOGRAPH-4EA4:\u{1F218}\n\
SQUARED CJK UNIFIED IDEOGRAPH-6620:\u{1F219}\n\
SQUARED CJK UNIFIED IDEOGRAPH-7121:\u{1F21A}\n\
SQUARED CJK UNIFIED IDEOGRAPH-6599:\u{1F21B}\n\
SQUARED CJK UNIFIED IDEOGRAPH-524D:\u{1F21C}\n\
SQUARED CJK UNIFIED IDEOGRAPH-5F8C:\u{1F21D}\n\
SQUARED CJK UNIFIED IDEOGRAPH-518D:\u{1F21E}\n\
SQUARED CJK UNIFIED IDEOGRAPH-65B0:\u{1F21F}\n\
SQUARED CJK UNIFIED IDEOGRAPH-521D:\u{1F220}\n\
SQUARED CJK UNIFIED IDEOGRAPH-7D42:\u{1F221}\n\
SQUARED CJK UNIFIED IDEOGRAPH-751F:\u{1F222}\n\
SQUARED CJK UNIFIED IDEOGRAPH-8CA9:\u{1F223}\n\
SQUARED CJK UNIFIED IDEOGRAPH-58F0:\u{1F224}\n\
SQUARED CJK UNIFIED IDEOGRAPH-5439:\u{1F225}\n\
SQUARED CJK UNIFIED IDEOGRAPH-6F14:\u{1F226}\n\
SQUARED CJK UNIFIED IDEOGRAPH-6295:\u{1F227}\n\
SQUARED CJK UNIFIED IDEOGRAPH-6355:\u{1F228}\n\
SQUARED CJK UNIFIED IDEOGRAPH-4E00:\u{1F229}\n\
SQUARED CJK UNIFIED IDEOGRAPH-4E09:\u{1F22A}\n\
SQUARED CJK UNIFIED IDEOGRAPH-904A:\u{1F22B}\n\
SQUARED CJK UNIFIED IDEOGRAPH-5DE6:\u{1F22C}\n\
SQUARED CJK UNIFIED IDEOGRAPH-4E2D:\u{1F22D}\n\
SQUARED CJK UNIFIED IDEOGRAPH-53F3:\u{1F22E}\n\
SQUARED CJK UNIFIED IDEOGRAPH-6307:\u{1F22F}\n\
SQUARED CJK UNIFIED IDEOGRAPH-8D70:\u{1F230}\n\
SQUARED CJK UNIFIED IDEOGRAPH-6253:\u{1F231}\n\
SQUARED CJK UNIFIED IDEOGRAPH-7981:\u{1F232}\n\
SQUARED CJK UNIFIED IDEOGRAPH-7A7A:\u{1F233}\n\
SQUARED CJK UNIFIED IDEOGRAPH-5408:\u{1F234}\n\
SQUARED CJK UNIFIED IDEOGRAPH-6E80:\u{1F235}\n\
SQUARED CJK UNIFIED IDEOGRAPH-6709:\u{1F236}\n\
SQUARED CJK UNIFIED IDEOGRAPH-6708:\u{1F237}\n\
SQUARED CJK UNIFIED IDEOGRAPH-7533:\u{1F238}\n\
SQUARED CJK UNIFIED IDEOGRAPH-5272:\u{1F239}\n\
SQUARED CJK UNIFIED IDEOGRAPH-55B6:\u{1F23A}\n\
SQUARED CJK UNIFIED IDEOGRAPH-914D:\u{1F23B}\n\
TORTOISE SHELL BRACKETED CJK UNIFIED IDEOGRAPH-672C:\u{1F240}\n\
TORTOISE SHELL BRACKETED CJK UNIFIED IDEOGRAPH-4E09:\u{1F241}\n\
TORTOISE SHELL BRACKETED CJK UNIFIED IDEOGRAPH-4E8C:\u{1F242}\n\
TORTOISE SHELL BRACKETED CJK UNIFIED IDEOGRAPH-5B89:\u{1F243}\n\
TORTOISE SHELL BRACKETED CJK UNIFIED IDEOGRAPH-70B9:\u{1F244}\n\
TORTOISE SHELL BRACKETED CJK UNIFIED IDEOGRAPH-6253:\u{1F245}\n\
TORTOISE SHELL BRACKETED CJK UNIFIED IDEOGRAPH-76D7:\u{1F246}\n\
TORTOISE SHELL BRACKETED CJK UNIFIED IDEOGRAPH-52DD:\u{1F247}\n\
TORTOISE SHELL BRACKETED CJK UNIFIED IDEOGRAPH-6557:\u{1F248}\n\
CIRCLED IDEOGRAPH ADVANTAGE:\u{1F250}\n\
CIRCLED IDEOGRAPH ACCEPT:\u{1F251}\n\
ROUNDED SYMBOL FOR FU:\u{1F260}\n\
ROUNDED SYMBOL FOR LU:\u{1F261}\n\
ROUNDED SYMBOL FOR SHOU:\u{1F262}\n\
ROUNDED SYMBOL FOR XI:\u{1F263}\n\
ROUNDED SYMBOL FOR SHUANGXI:\u{1F264}\n\
ROUNDED SYMBOL FOR CAI:\u{1F265}\n\
CYCLONE:\u{1F300}\n\
FOGGY:\u{1F301}\n\
CLOSED UMBRELLA:\u{1F302}\n\
NIGHT WITH STARS:\u{1F303}\n\
SUNRISE OVER MOUNTAINS:\u{1F304}\n\
SUNRISE:\u{1F305}\n\
CITYSCAPE AT DUSK:\u{1F306}\n\
SUNSET OVER BUILDINGS:\u{1F307}\n\
RAINBOW:\u{1F308}\n\
BRIDGE AT NIGHT:\u{1F309}\n\
WATER WAVE:\u{1F30A}\n\
VOLCANO:\u{1F30B}\n\
MILKY WAY:\u{1F30C}\n\
EARTH GLOBE EUROPE-AFRICA:\u{1F30D}\n\
EARTH GLOBE AMERICAS:\u{1F30E}\n\
EARTH GLOBE ASIA-AUSTRALIA:\u{1F30F}\n\
GLOBE WITH MERIDIANS:\u{1F310}\n\
NEW MOON SYMBOL:\u{1F311}\n\
WAXING CRESCENT MOON SYMBOL:\u{1F312}\n\
FIRST QUARTER MOON SYMBOL:\u{1F313}\n\
WAXING GIBBOUS MOON SYMBOL:\u{1F314}\n\
FULL MOON SYMBOL:\u{1F315}\n\
WANING GIBBOUS MOON SYMBOL:\u{1F316}\n\
LAST QUARTER MOON SYMBOL:\u{1F317}\n\
WANING CRESCENT MOON SYMBOL:\u{1F318}\n\
CRESCENT MOON:\u{1F319}\n\
NEW MOON WITH FACE:\u{1F31A}\n\
FIRST QUARTER MOON WITH FACE:\u{1F31B}\n\
LAST QUARTER MOON WITH FACE:\u{1F31C}\n\
FULL MOON WITH FACE:\u{1F31D}\n\
SUN WITH FACE:\u{1F31E}\n\
GLOWING STAR:\u{1F31F}\n\
SHOOTING STAR:\u{1F320}\n\
THERMOMETER:\u{1F321}\n\
BLACK DROPLET:\u{1F322}\n\
WHITE SUN:\u{1F323}\n\
WHITE SUN WITH SMALL CLOUD:\u{1F324}\n\
WHITE SUN BEHIND CLOUD:\u{1F325}\n\
WHITE SUN BEHIND CLOUD WITH RAIN:\u{1F326}\n\
CLOUD WITH RAIN:\u{1F327}\n\
CLOUD WITH SNOW:\u{1F328}\n\
CLOUD WITH LIGHTNING:\u{1F329}\n\
CLOUD WITH TORNADO:\u{1F32A}\n\
FOG:\u{1F32B}\n\
WIND BLOWING FACE:\u{1F32C}\n\
HOT DOG:\u{1F32D}\n\
TACO:\u{1F32E}\n\
BURRITO:\u{1F32F}\n\
CHESTNUT:\u{1F330}\n\
SEEDLING:\u{1F331}\n\
EVERGREEN TREE:\u{1F332}\n\
DECIDUOUS TREE:\u{1F333}\n\
PALM TREE:\u{1F334}\n\
CACTUS:\u{1F335}\n\
HOT PEPPER:\u{1F336}\n\
TULIP:\u{1F337}\n\
CHERRY BLOSSOM:\u{1F338}\n\
ROSE:\u{1F339}\n\
HIBISCUS:\u{1F33A}\n\
SUNFLOWER:\u{1F33B}\n\
BLOSSOM:\u{1F33C}\n\
EAR OF MAIZE:\u{1F33D}\n\
EAR OF RICE:\u{1F33E}\n\
HERB:\u{1F33F}\n\
FOUR LEAF CLOVER:\u{1F340}\n\
MAPLE LEAF:\u{1F341}\n\
FALLEN LEAF:\u{1F342}\n\
LEAF FLUTTERING IN WIND:\u{1F343}\n\
MUSHROOM:\u{1F344}\n\
TOMATO:\u{1F345}\n\
AUBERGINE:\u{1F346}\n\
GRAPES:\u{1F347}\n\
MELON:\u{1F348}\n\
WATERMELON:\u{1F349}\n\
TANGERINE:\u{1F34A}\n\
LEMON:\u{1F34B}\n\
BANANA:\u{1F34C}\n\
PINEAPPLE:\u{1F34D}\n\
RED APPLE:\u{1F34E}\n\
GREEN APPLE:\u{1F34F}\n\
PEAR:\u{1F350}\n\
PEACH:\u{1F351}\n\
CHERRIES:\u{1F352}\n\
STRAWBERRY:\u{1F353}\n\
HAMBURGER:\u{1F354}\n\
SLICE OF PIZZA:\u{1F355}\n\
MEAT ON BONE:\u{1F356}\n\
POULTRY LEG:\u{1F357}\n\
RICE CRACKER:\u{1F358}\n\
RICE BALL:\u{1F359}\n\
COOKED RICE:\u{1F35A}\n\
CURRY AND RICE:\u{1F35B}\n\
STEAMING BOWL:\u{1F35C}\n\
SPAGHETTI:\u{1F35D}\n\
BREAD:\u{1F35E}\n\
FRENCH FRIES:\u{1F35F}\n\
ROASTED SWEET POTATO:\u{1F360}\n\
DANGO:\u{1F361}\n\
ODEN:\u{1F362}\n\
SUSHI:\u{1F363}\n\
FRIED SHRIMP:\u{1F364}\n\
FISH CAKE WITH SWIRL DESIGN:\u{1F365}\n\
SOFT ICE CREAM:\u{1F366}\n\
SHAVED ICE:\u{1F367}\n\
ICE CREAM:\u{1F368}\n\
DOUGHNUT:\u{1F369}\n\
COOKIE:\u{1F36A}\n\
CHOCOLATE BAR:\u{1F36B}\n\
CANDY:\u{1F36C}\n\
LOLLIPOP:\u{1F36D}\n\
CUSTARD:\u{1F36E}\n\
HONEY POT:\u{1F36F}\n\
SHORTCAKE:\u{1F370}\n\
BENTO BOX:\u{1F371}\n\
POT OF FOOD:\u{1F372}\n\
COOKING:\u{1F373}\n\
FORK AND KNIFE:\u{1F374}\n\
TEACUP WITHOUT HANDLE:\u{1F375}\n\
SAKE BOTTLE AND CUP:\u{1F376}\n\
WINE GLASS:\u{1F377}\n\
COCKTAIL GLASS:\u{1F378}\n\
TROPICAL DRINK:\u{1F379}\n\
BEER MUG:\u{1F37A}\n\
CLINKING BEER MUGS:\u{1F37B}\n\
BABY BOTTLE:\u{1F37C}\n\
FORK AND KNIFE WITH PLATE:\u{1F37D}\n\
BOTTLE WITH POPPING CORK:\u{1F37E}\n\
POPCORN:\u{1F37F}\n\
RIBBON:\u{1F380}\n\
WRAPPED PRESENT:\u{1F381}\n\
BIRTHDAY CAKE:\u{1F382}\n\
JACK-O-LANTERN:\u{1F383}\n\
CHRISTMAS TREE:\u{1F384}\n\
FATHER CHRISTMAS:\u{1F385}\n\
FIREWORKS:\u{1F386}\n\
FIREWORK SPARKLER:\u{1F387}\n\
BALLOON:\u{1F388}\n\
PARTY POPPER:\u{1F389}\n\
CONFETTI BALL:\u{1F38A}\n\
TANABATA TREE:\u{1F38B}\n\
CROSSED FLAGS:\u{1F38C}\n\
PINE DECORATION:\u{1F38D}\n\
JAPANESE DOLLS:\u{1F38E}\n\
CARP STREAMER:\u{1F38F}\n\
WIND CHIME:\u{1F390}\n\
MOON VIEWING CEREMONY:\u{1F391}\n\
SCHOOL SATCHEL:\u{1F392}\n\
GRADUATION CAP:\u{1F393}\n\
HEART WITH TIP ON THE LEFT:\u{1F394}\n\
BOUQUET OF FLOWERS:\u{1F395}\n\
MILITARY MEDAL:\u{1F396}\n\
REMINDER RIBBON:\u{1F397}\n\
MUSICAL KEYBOARD WITH JACKS:\u{1F398}\n\
STUDIO MICROPHONE:\u{1F399}\n\
LEVEL SLIDER:\u{1F39A}\n\
CONTROL KNOBS:\u{1F39B}\n\
BEAMED ASCENDING MUSICAL NOTES:\u{1F39C}\n\
BEAMED DESCENDING MUSICAL NOTES:\u{1F39D}\n\
FILM FRAMES:\u{1F39E}\n\
ADMISSION TICKETS:\u{1F39F}\n\
CAROUSEL HORSE:\u{1F3A0}\n\
FERRIS WHEEL:\u{1F3A1}\n\
ROLLER COASTER:\u{1F3A2}\n\
FISHING POLE AND FISH:\u{1F3A3}\n\
MICROPHONE:\u{1F3A4}\n\
MOVIE CAMERA:\u{1F3A5}\n\
CINEMA:\u{1F3A6}\n\
HEADPHONE:\u{1F3A7}\n\
ARTIST PALETTE:\u{1F3A8}\n\
TOP HAT:\u{1F3A9}\n\
CIRCUS TENT:\u{1F3AA}\n\
TICKET:\u{1F3AB}\n\
CLAPPER BOARD:\u{1F3AC}\n\
PERFORMING ARTS:\u{1F3AD}\n\
VIDEO GAME:\u{1F3AE}\n\
DIRECT HIT:\u{1F3AF}\n\
SLOT MACHINE:\u{1F3B0}\n\
BILLIARDS:\u{1F3B1}\n\
GAME DIE:\u{1F3B2}\n\
BOWLING:\u{1F3B3}\n\
FLOWER PLAYING CARDS:\u{1F3B4}\n\
MUSICAL NOTE:\u{1F3B5}\n\
MULTIPLE MUSICAL NOTES:\u{1F3B6}\n\
SAXOPHONE:\u{1F3B7}\n\
GUITAR:\u{1F3B8}\n\
MUSICAL KEYBOARD:\u{1F3B9}\n\
TRUMPET:\u{1F3BA}\n\
VIOLIN:\u{1F3BB}\n\
MUSICAL SCORE:\u{1F3BC}\n\
RUNNING SHIRT WITH SASH:\u{1F3BD}\n\
TENNIS RACQUET AND BALL:\u{1F3BE}\n\
SKI AND SKI BOOT:\u{1F3BF}\n\
BASKETBALL AND HOOP:\u{1F3C0}\n\
CHEQUERED FLAG:\u{1F3C1}\n\
SNOWBOARDER:\u{1F3C2}\n\
RUNNER:\u{1F3C3}\n\
SURFER:\u{1F3C4}\n\
SPORTS MEDAL:\u{1F3C5}\n\
TROPHY:\u{1F3C6}\n\
HORSE RACING:\u{1F3C7}\n\
AMERICAN FOOTBALL:\u{1F3C8}\n\
RUGBY FOOTBALL:\u{1F3C9}\n\
SWIMMER:\u{1F3CA}\n\
WEIGHT LIFTER:\u{1F3CB}\n\
GOLFER:\u{1F3CC}\n\
RACING MOTORCYCLE:\u{1F3CD}\n\
RACING CAR:\u{1F3CE}\n\
CRICKET BAT AND BALL:\u{1F3CF}\n\
VOLLEYBALL:\u{1F3D0}\n\
FIELD HOCKEY STICK AND BALL:\u{1F3D1}\n\
ICE HOCKEY STICK AND PUCK:\u{1F3D2}\n\
TABLE TENNIS PADDLE AND BALL:\u{1F3D3}\n\
SNOW CAPPED MOUNTAIN:\u{1F3D4}\n\
CAMPING:\u{1F3D5}\n\
BEACH WITH UMBRELLA:\u{1F3D6}\n\
BUILDING CONSTRUCTION:\u{1F3D7}\n\
HOUSE BUILDINGS:\u{1F3D8}\n\
CITYSCAPE:\u{1F3D9}\n\
DERELICT HOUSE BUILDING:\u{1F3DA}\n\
CLASSICAL BUILDING:\u{1F3DB}\n\
DESERT:\u{1F3DC}\n\
DESERT ISLAND:\u{1F3DD}\n\
NATIONAL PARK:\u{1F3DE}\n\
STADIUM:\u{1F3DF}\n\
HOUSE BUILDING:\u{1F3E0}\n\
HOUSE WITH GARDEN:\u{1F3E1}\n\
OFFICE BUILDING:\u{1F3E2}\n\
JAPANESE POST OFFICE:\u{1F3E3}\n\
EUROPEAN POST OFFICE:\u{1F3E4}\n\
HOSPITAL:\u{1F3E5}\n\
BANK:\u{1F3E6}\n\
AUTOMATED TELLER MACHINE:\u{1F3E7}\n\
HOTEL:\u{1F3E8}\n\
LOVE HOTEL:\u{1F3E9}\n\
CONVENIENCE STORE:\u{1F3EA}\n\
SCHOOL:\u{1F3EB}\n\
DEPARTMENT STORE:\u{1F3EC}\n\
FACTORY:\u{1F3ED}\n\
IZAKAYA LANTERN:\u{1F3EE}\n\
JAPANESE CASTLE:\u{1F3EF}\n\
EUROPEAN CASTLE:\u{1F3F0}\n\
WHITE PENNANT:\u{1F3F1}\n\
BLACK PENNANT:\u{1F3F2}\n\
WAVING WHITE FLAG:\u{1F3F3}\n\
WAVING BLACK FLAG:\u{1F3F4}\n\
ROSETTE:\u{1F3F5}\n\
BLACK ROSETTE:\u{1F3F6}\n\
LABEL:\u{1F3F7}\n\
BADMINTON RACQUET AND SHUTTLECOCK:\u{1F3F8}\n\
BOW AND ARROW:\u{1F3F9}\n\
AMPHORA:\u{1F3FA}\n\
EMOJI MODIFIER FITZPATRICK TYPE-1-2:\u{1F3FB}\n\
EMOJI MODIFIER FITZPATRICK TYPE-3:\u{1F3FC}\n\
EMOJI MODIFIER FITZPATRICK TYPE-4:\u{1F3FD}\n\
EMOJI MODIFIER FITZPATRICK TYPE-5:\u{1F3FE}\n\
EMOJI MODIFIER FITZPATRICK TYPE-6:\u{1F3FF}\n\
RAT:\u{1F400}\n\
MOUSE:\u{1F401}\n\
OX:\u{1F402}\n\
WATER BUFFALO:\u{1F403}\n\
COW:\u{1F404}\n\
TIGER:\u{1F405}\n\
LEOPARD:\u{1F406}\n\
RABBIT:\u{1F407}\n\
CAT:\u{1F408}\n\
DRAGON:\u{1F409}\n\
CROCODILE:\u{1F40A}\n\
WHALE:\u{1F40B}\n\
SNAIL:\u{1F40C}\n\
SNAKE:\u{1F40D}\n\
HORSE:\u{1F40E}\n\
RAM:\u{1F40F}\n\
GOAT:\u{1F410}\n\
SHEEP:\u{1F411}\n\
MONKEY:\u{1F412}\n\
ROOSTER:\u{1F413}\n\
CHICKEN:\u{1F414}\n\
DOG:\u{1F415}\n\
PIG:\u{1F416}\n\
BOAR:\u{1F417}\n\
ELEPHANT:\u{1F418}\n\
OCTOPUS:\u{1F419}\n\
SPIRAL SHELL:\u{1F41A}\n\
BUG:\u{1F41B}\n\
ANT:\u{1F41C}\n\
HONEYBEE:\u{1F41D}\n\
LADY BEETLE:\u{1F41E}\n\
FISH:\u{1F41F}\n\
TROPICAL FISH:\u{1F420}\n\
BLOWFISH:\u{1F421}\n\
TURTLE:\u{1F422}\n\
HATCHING CHICK:\u{1F423}\n\
BABY CHICK:\u{1F424}\n\
FRONT-FACING BABY CHICK:\u{1F425}\n\
BIRD:\u{1F426}\n\
PENGUIN:\u{1F427}\n\
KOALA:\u{1F428}\n\
POODLE:\u{1F429}\n\
DROMEDARY CAMEL:\u{1F42A}\n\
BACTRIAN CAMEL:\u{1F42B}\n\
DOLPHIN:\u{1F42C}\n\
MOUSE FACE:\u{1F42D}\n\
COW FACE:\u{1F42E}\n\
TIGER FACE:\u{1F42F}\n\
RABBIT FACE:\u{1F430}\n\
CAT FACE:\u{1F431}\n\
DRAGON FACE:\u{1F432}\n\
SPOUTING WHALE:\u{1F433}\n\
HORSE FACE:\u{1F434}\n\
MONKEY FACE:\u{1F435}\n\
DOG FACE:\u{1F436}\n\
PIG FACE:\u{1F437}\n\
FROG FACE:\u{1F438}\n\
HAMSTER FACE:\u{1F439}\n\
WOLF FACE:\u{1F43A}\n\
BEAR FACE:\u{1F43B}\n\
PANDA FACE:\u{1F43C}\n\
PIG NOSE:\u{1F43D}\n\
PAW PRINTS:\u{1F43E}\n\
CHIPMUNK:\u{1F43F}\n\
EYES:\u{1F440}\n\
EYE:\u{1F441}\n\
EAR:\u{1F442}\n\
NOSE:\u{1F443}\n\
MOUTH:\u{1F444}\n\
TONGUE:\u{1F445}\n\
WHITE UP POINTING BACKHAND INDEX:\u{1F446}\n\
WHITE DOWN POINTING BACKHAND INDEX:\u{1F447}\n\
WHITE LEFT POINTING BACKHAND INDEX:\u{1F448}\n\
WHITE RIGHT POINTING BACKHAND INDEX:\u{1F449}\n\
FISTED HAND SIGN:\u{1F44A}\n\
WAVING HAND SIGN:\u{1F44B}\n\
OK HAND SIGN:\u{1F44C}\n\
THUMBS UP SIGN:\u{1F44D}\n\
THUMBS DOWN SIGN:\u{1F44E}\n\
CLAPPING HANDS SIGN:\u{1F44F}\n\
OPEN HANDS SIGN:\u{1F450}\n\
CROWN:\u{1F451}\n\
WOMANS HAT:\u{1F452}\n\
EYEGLASSES:\u{1F453}\n\
NECKTIE:\u{1F454}\n\
T-SHIRT:\u{1F455}\n\
JEANS:\u{1F456}\n\
DRESS:\u{1F457}\n\
KIMONO:\u{1F458}\n\
BIKINI:\u{1F459}\n\
WOMANS CLOTHES:\u{1F45A}\n\
PURSE:\u{1F45B}\n\
HANDBAG:\u{1F45C}\n\
POUCH:\u{1F45D}\n\
MANS SHOE:\u{1F45E}\n\
ATHLETIC SHOE:\u{1F45F}\n\
HIGH-HEELED SHOE:\u{1F460}\n\
WOMANS SANDAL:\u{1F461}\n\
WOMANS BOOTS:\u{1F462}\n\
FOOTPRINTS:\u{1F463}\n\
BUST IN SILHOUETTE:\u{1F464}\n\
BUSTS IN SILHOUETTE:\u{1F465}\n\
BOY:\u{1F466}\n\
GIRL:\u{1F467}\n\
MAN:\u{1F468}\n\
WOMAN:\u{1F469}\n\
FAMILY:\u{1F46A}\n\
MAN AND WOMAN HOLDING HANDS:\u{1F46B}\n\
TWO MEN HOLDING HANDS:\u{1F46C}\n\
TWO WOMEN HOLDING HANDS:\u{1F46D}\n\
POLICE OFFICER:\u{1F46E}\n\
WOMAN WITH BUNNY EARS:\u{1F46F}\n\
BRIDE WITH VEIL:\u{1F470}\n\
PERSON WITH BLOND HAIR:\u{1F471}\n\
MAN WITH GUA PI MAO:\u{1F472}\n\
MAN WITH TURBAN:\u{1F473}\n\
OLDER MAN:\u{1F474}\n\
OLDER WOMAN:\u{1F475}\n\
BABY:\u{1F476}\n\
CONSTRUCTION WORKER:\u{1F477}\n\
PRINCESS:\u{1F478}\n\
JAPANESE OGRE:\u{1F479}\n\
JAPANESE GOBLIN:\u{1F47A}\n\
GHOST:\u{1F47B}\n\
BABY ANGEL:\u{1F47C}\n\
EXTRATERRESTRIAL ALIEN:\u{1F47D}\n\
ALIEN MONSTER:\u{1F47E}\n\
IMP:\u{1F47F}\n\
SKULL:\u{1F480}\n\
INFORMATION DESK PERSON:\u{1F481}\n\
GUARDSMAN:\u{1F482}\n\
DANCER:\u{1F483}\n\
LIPSTICK:\u{1F484}\n\
NAIL POLISH:\u{1F485}\n\
FACE MASSAGE:\u{1F486}\n\
HAIRCUT:\u{1F487}\n\
BARBER POLE:\u{1F488}\n\
SYRINGE:\u{1F489}\n\
PILL:\u{1F48A}\n\
KISS MARK:\u{1F48B}\n\
LOVE LETTER:\u{1F48C}\n\
RING:\u{1F48D}\n\
GEM STONE:\u{1F48E}\n\
KISS:\u{1F48F}\n\
BOUQUET:\u{1F490}\n\
COUPLE WITH HEART:\u{1F491}\n\
WEDDING:\u{1F492}\n\
BEATING HEART:\u{1F493}\n\
BROKEN HEART:\u{1F494}\n\
TWO HEARTS:\u{1F495}\n\
SPARKLING HEART:\u{1F496}\n\
GROWING HEART:\u{1F497}\n\
HEART WITH ARROW:\u{1F498}\n\
BLUE HEART:\u{1F499}\n";

pub const NAMES_80: &'static str = "GREEN HEART:\u{1F49A}\n\
YELLOW HEART:\u{1F49B}\n\
PURPLE HEART:\u{1F49C}\n\
HEART WITH RIBBON:\u{1F49D}\n\
REVOLVING HEARTS:\u{1F49E}\n\
HEART DECORATION:\u{1F49F}\n\
DIAMOND SHAPE WITH A DOT INSIDE:\u{1F4A0}\n\
ELECTRIC LIGHT BULB:\u{1F4A1}\n\
ANGER SYMBOL:\u{1F4A2}\n\
BOMB:\u{1F4A3}\n\
SLEEPING SYMBOL:\u{1F4A4}\n\
COLLISION SYMBOL:\u{1F4A5}\n\
SPLASHING SWEAT SYMBOL:\u{1F4A6}\n\
DROPLET:\u{1F4A7}\n\
DASH SYMBOL:\u{1F4A8}\n\
PILE OF POO:\u{1F4A9}\n\
FLEXED BICEPS:\u{1F4AA}\n\
DIZZY SYMBOL:\u{1F4AB}\n\
SPEECH BALLOON:\u{1F4AC}\n\
THOUGHT BALLOON:\u{1F4AD}\n\
WHITE FLOWER:\u{1F4AE}\n\
HUNDRED POINTS SYMBOL:\u{1F4AF}\n\
MONEY BAG:\u{1F4B0}\n\
CURRENCY EXCHANGE:\u{1F4B1}\n\
HEAVY DOLLAR SIGN:\u{1F4B2}\n\
CREDIT CARD:\u{1F4B3}\n\
BANKNOTE WITH YEN SIGN:\u{1F4B4}\n\
BANKNOTE WITH DOLLAR SIGN:\u{1F4B5}\n\
BANKNOTE WITH EURO SIGN:\u{1F4B6}\n\
BANKNOTE WITH POUND SIGN:\u{1F4B7}\n\
MONEY WITH WINGS:\u{1F4B8}\n\
CHART WITH UPWARDS TREND AND YEN SIGN:\u{1F4B9}\n\
SEAT:\u{1F4BA}\n\
PERSONAL COMPUTER:\u{1F4BB}\n\
BRIEFCASE:\u{1F4BC}\n\
MINIDISC:\u{1F4BD}\n\
FLOPPY DISK:\u{1F4BE}\n\
OPTICAL DISC:\u{1F4BF}\n\
DVD:\u{1F4C0}\n\
FILE FOLDER:\u{1F4C1}\n\
OPEN FILE FOLDER:\u{1F4C2}\n\
PAGE WITH CURL:\u{1F4C3}\n\
PAGE FACING UP:\u{1F4C4}\n\
CALENDAR:\u{1F4C5}\n\
TEAR-OFF CALENDAR:\u{1F4C6}\n\
CARD INDEX:\u{1F4C7}\n\
CHART WITH UPWARDS TREND:\u{1F4C8}\n\
CHART WITH DOWNWARDS TREND:\u{1F4C9}\n\
BAR CHART:\u{1F4CA}\n\
CLIPBOARD:\u{1F4CB}\n\
PUSHPIN:\u{1F4CC}\n\
ROUND PUSHPIN:\u{1F4CD}\n\
PAPERCLIP:\u{1F4CE}\n\
STRAIGHT RULER:\u{1F4CF}\n\
TRIANGULAR RULER:\u{1F4D0}\n\
BOOKMARK TABS:\u{1F4D1}\n\
LEDGER:\u{1F4D2}\n\
NOTEBOOK:\u{1F4D3}\n\
NOTEBOOK WITH DECORATIVE COVER:\u{1F4D4}\n\
CLOSED BOOK:\u{1F4D5}\n\
OPEN BOOK:\u{1F4D6}\n\
GREEN BOOK:\u{1F4D7}\n\
BLUE BOOK:\u{1F4D8}\n\
ORANGE BOOK:\u{1F4D9}\n\
BOOKS:\u{1F4DA}\n\
NAME BADGE:\u{1F4DB}\n\
SCROLL:\u{1F4DC}\n\
MEMO:\u{1F4DD}\n\
TELEPHONE RECEIVER:\u{1F4DE}\n\
PAGER:\u{1F4DF}\n\
FAX MACHINE:\u{1F4E0}\n\
SATELLITE ANTENNA:\u{1F4E1}\n\
PUBLIC ADDRESS LOUDSPEAKER:\u{1F4E2}\n\
CHEERING MEGAPHONE:\u{1F4E3}\n\
OUTBOX TRAY:\u{1F4E4}\n\
INBOX TRAY:\u{1F4E5}\n\
PACKAGE:\u{1F4E6}\n\
E-MAIL SYMBOL:\u{1F4E7}\n\
INCOMING ENVELOPE:\u{1F4E8}\n\
ENVELOPE WITH DOWNWARDS ARROW ABOVE:\u{1F4E9}\n\
CLOSED MAILBOX WITH LOWERED FLAG:\u{1F4EA}\n\
CLOSED MAILBOX WITH RAISED FLAG:\u{1F4EB}\n\
OPEN MAILBOX WITH RAISED FLAG:\u{1F4EC}\n\
OPEN MAILBOX WITH LOWERED FLAG:\u{1F4ED}\n\
POSTBOX:\u{1F4EE}\n\
POSTAL HORN:\u{1F4EF}\n\
NEWSPAPER:\u{1F4F0}\n\
MOBILE PHONE:\u{1F4F1}\n\
MOBILE PHONE WITH RIGHTWARDS ARROW AT LEFT:\u{1F4F2}\n\
VIBRATION MODE:\u{1F4F3}\n\
MOBILE PHONE OFF:\u{1F4F4}\n\
NO MOBILE PHONES:\u{1F4F5}\n\
ANTENNA WITH BARS:\u{1F4F6}\n\
CAMERA:\u{1F4F7}\n\
CAMERA WITH FLASH:\u{1F4F8}\n\
VIDEO CAMERA:\u{1F4F9}\n\
TELEVISION:\u{1F4FA}\n\
RADIO:\u{1F4FB}\n\
VIDEOCASSETTE:\u{1F4FC}\n\
FILM PROJECTOR:\u{1F4FD}\n\
PORTABLE STEREO:\u{1F4FE}\n\
PRAYER BEADS:\u{1F4FF}\n\
TWISTED RIGHTWARDS ARROWS:\u{1F500}\n\
CLOCKWISE RIGHTWARDS AND LEFTWARDS OPEN CIRCLE ARROWS:\u{1F501}\n\
CLOCKWISE RIGHTWARDS AND LEFTWARDS OPEN CIRCLE ARROWS WITH CIRCLED ONE OVERLAY:\u{1F502}\n\
CLOCKWISE DOWNWARDS AND UPWARDS OPEN CIRCLE ARROWS:\u{1F503}\n\
ANTICLOCKWISE DOWNWARDS AND UPWARDS OPEN CIRCLE ARROWS:\u{1F504}\n\
LOW BRIGHTNESS SYMBOL:\u{1F505}\n\
HIGH BRIGHTNESS SYMBOL:\u{1F506}\n\
SPEAKER WITH CANCELLATION STROKE:\u{1F507}\n\
SPEAKER:\u{1F508}\n\
SPEAKER WITH ONE SOUND WAVE:\u{1F509}\n\
SPEAKER WITH THREE SOUND WAVES:\u{1F50A}\n\
BATTERY:\u{1F50B}\n\
ELECTRIC PLUG:\u{1F50C}\n\
LEFT-POINTING MAGNIFYING GLASS:\u{1F50D}\n\
RIGHT-POINTING MAGNIFYING GLASS:\u{1F50E}\n\
LOCK WITH INK PEN:\u{1F50F}\n\
CLOSED LOCK WITH KEY:\u{1F510}\n\
KEY:\u{1F511}\n\
LOCK:\u{1F512}\n\
OPEN LOCK:\u{1F513}\n\
BELL:\u{1F514}\n\
BELL WITH CANCELLATION STROKE:\u{1F515}\n\
BOOKMARK:\u{1F516}\n\
LINK SYMBOL:\u{1F517}\n\
RADIO BUTTON:\u{1F518}\n\
BACK WITH LEFTWARDS ARROW ABOVE:\u{1F519}\n\
END WITH LEFTWARDS ARROW ABOVE:\u{1F51A}\n\
ON WITH EXCLAMATION MARK WITH LEFT RIGHT ARROW ABOVE:\u{1F51B}\n\
SOON WITH RIGHTWARDS ARROW ABOVE:\u{1F51C}\n\
TOP WITH UPWARDS ARROW ABOVE:\u{1F51D}\n\
NO ONE UNDER EIGHTEEN SYMBOL:\u{1F51E}\n\
KEYCAP TEN:\u{1F51F}\n\
INPUT SYMBOL FOR LATIN CAPITAL LETTERS:\u{1F520}\n\
INPUT SYMBOL FOR LATIN SMALL LETTERS:\u{1F521}\n\
INPUT SYMBOL FOR NUMBERS:\u{1F522}\n\
INPUT SYMBOL FOR SYMBOLS:\u{1F523}\n\
INPUT SYMBOL FOR LATIN LETTERS:\u{1F524}\n\
FIRE:\u{1F525}\n\
ELECTRIC TORCH:\u{1F526}\n\
WRENCH:\u{1F527}\n\
HAMMER:\u{1F528}\n\
NUT AND BOLT:\u{1F529}\n\
HOCHO:\u{1F52A}\n\
PISTOL:\u{1F52B}\n\
MICROSCOPE:\u{1F52C}\n\
TELESCOPE:\u{1F52D}\n\
CRYSTAL BALL:\u{1F52E}\n\
SIX POINTED STAR WITH MIDDLE DOT:\u{1F52F}\n\
JAPANESE SYMBOL FOR BEGINNER:\u{1F530}\n\
TRIDENT EMBLEM:\u{1F531}\n\
BLACK SQUARE BUTTON:\u{1F532}\n\
WHITE SQUARE BUTTON:\u{1F533}\n\
LARGE RED CIRCLE:\u{1F534}\n\
LARGE BLUE CIRCLE:\u{1F535}\n\
LARGE ORANGE DIAMOND:\u{1F536}\n\
LARGE BLUE DIAMOND:\u{1F537}\n\
SMALL ORANGE DIAMOND:\u{1F538}\n\
SMALL BLUE DIAMOND:\u{1F539}\n\
UP-POINTING RED TRIANGLE:\u{1F53A}\n\
DOWN-POINTING RED TRIANGLE:\u{1F53B}\n\
UP-POINTING SMALL RED TRIANGLE:\u{1F53C}\n\
DOWN-POINTING SMALL RED TRIANGLE:\u{1F53D}\n\
LOWER RIGHT SHADOWED WHITE CIRCLE:\u{1F53E}\n\
UPPER RIGHT SHADOWED WHITE CIRCLE:\u{1F53F}\n\
CIRCLED CROSS POMMEE:\u{1F540}\n\
CROSS POMMEE WITH HALF-CIRCLE BELOW:\u{1F541}\n\
CROSS POMMEE:\u{1F542}\n\
NOTCHED LEFT SEMICIRCLE WITH THREE DOTS:\u{1F543}\n\
NOTCHED RIGHT SEMICIRCLE WITH THREE DOTS:\u{1F544}\n\
SYMBOL FOR MARKS CHAPTER:\u{1F545}\n\
WHITE LATIN CROSS:\u{1F546}\n\
HEAVY LATIN CROSS:\u{1F547}\n\
CELTIC CROSS:\u{1F548}\n\
OM SYMBOL:\u{1F549}\n\
DOVE OF PEACE:\u{1F54A}\n\
KAABA:\u{1F54B}\n\
MOSQUE:\u{1F54C}\n\
SYNAGOGUE:\u{1F54D}\n\
MENORAH WITH NINE BRANCHES:\u{1F54E}\n\
BOWL OF HYGIEIA:\u{1F54F}\n\
CLOCK FACE ONE OCLOCK:\u{1F550}\n\
CLOCK FACE TWO OCLOCK:\u{1F551}\n\
CLOCK FACE THREE OCLOCK:\u{1F552}\n\
CLOCK FACE FOUR OCLOCK:\u{1F553}\n\
CLOCK FACE FIVE OCLOCK:\u{1F554}\n\
CLOCK FACE SIX OCLOCK:\u{1F555}\n\
CLOCK FACE SEVEN OCLOCK:\u{1F556}\n\
CLOCK FACE EIGHT OCLOCK:\u{1F557}\n\
CLOCK FACE NINE OCLOCK:\u{1F558}\n\
CLOCK FACE TEN OCLOCK:\u{1F559}\n\
CLOCK FACE ELEVEN OCLOCK:\u{1F55A}\n\
CLOCK FACE TWELVE OCLOCK:\u{1F55B}\n\
CLOCK FACE ONE-THIRTY:\u{1F55C}\n\
CLOCK FACE TWO-THIRTY:\u{1F55D}\n\
CLOCK FACE THREE-THIRTY:\u{1F55E}\n\
CLOCK FACE FOUR-THIRTY:\u{1F55F}\n\
CLOCK FACE FIVE-THIRTY:\u{1F560}\n\
CLOCK FACE SIX-THIRTY:\u{1F561}\n\
CLOCK FACE SEVEN-THIRTY:\u{1F562}\n\
CLOCK FACE EIGHT-THIRTY:\u{1F563}\n\
CLOCK FACE NINE-THIRTY:\u{1F564}\n\
CLOCK FACE TEN-THIRTY:\u{1F565}\n\
CLOCK FACE ELEVEN-THIRTY:\u{1F566}\n\
CLOCK FACE TWELVE-THIRTY:\u{1F567}\n\
RIGHT SPEAKER:\u{1F568}\n\
RIGHT SPEAKER WITH ONE SOUND WAVE:\u{1F569}\n\
RIGHT SPEAKER WITH THREE SOUND WAVES:\u{1F56A}\n\
BULLHORN:\u{1F56B}\n\
BULLHORN WITH SOUND WAVES:\u{1F56C}\n\
RINGING BELL:\u{1F56D}\n\
BOOK:\u{1F56E}\n\
CANDLE:\u{1F56F}\n\
MANTELPIECE CLOCK:\u{1F570}\n\
BLACK SKULL AND CROSSBONES:\u{1F571}\n\
NO PIRACY:\u{1F572}\n\
HOLE:\u{1F573}\n\
MAN IN BUSINESS SUIT LEVITATING:\u{1F574}\n\
SLEUTH OR SPY:\u{1F575}\n\
DARK SUNGLASSES:\u{1F576}\n\
SPIDER:\u{1F577}\n\
SPIDER WEB:\u{1F578}\n\
JOYSTICK:\u{1F579}\n\
MAN DANCING:\u{1F57A}\n\
LEFT HAND TELEPHONE RECEIVER:\u{1F57B}\n\
TELEPHONE RECEIVER WITH PAGE:\u{1F57C}\n\
RIGHT HAND TELEPHONE RECEIVER:\u{1F57D}\n\
WHITE TOUCHTONE TELEPHONE:\u{1F57E}\n\
BLACK TOUCHTONE TELEPHONE:\u{1F57F}\n\
TELEPHONE ON TOP OF MODEM:\u{1F580}\n\
CLAMSHELL MOBILE PHONE:\u{1F581}\n\
BACK OF ENVELOPE:\u{1F582}\n\
STAMPED ENVELOPE:\u{1F583}\n\
ENVELOPE WITH LIGHTNING:\u{1F584}\n\
FLYING ENVELOPE:\u{1F585}\n\
PEN OVER STAMPED ENVELOPE:\u{1F586}\n\
LINKED PAPERCLIPS:\u{1F587}\n\
BLACK PUSHPIN:\u{1F588}\n\
LOWER LEFT PENCIL:\u{1F589}\n\
LOWER LEFT BALLPOINT PEN:\u{1F58A}\n\
LOWER LEFT FOUNTAIN PEN:\u{1F58B}\n\
LOWER LEFT PAINTBRUSH:\u{1F58C}\n\
LOWER LEFT CRAYON:\u{1F58D}\n\
LEFT WRITING HAND:\u{1F58E}\n\
TURNED OK HAND SIGN:\u{1F58F}\n\
RAISED HAND WITH FINGERS SPLAYED:\u{1F590}\n\
REVERSED RAISED HAND WITH FINGERS SPLAYED:\u{1F591}\n\
REVERSED THUMBS UP SIGN:\u{1F592}\n\
REVERSED THUMBS DOWN SIGN:\u{1F593}\n\
REVERSED VICTORY HAND:\u{1F594}\n\
REVERSED HAND WITH MIDDLE FINGER EXTENDED:\u{1F595}\n\
RAISED HAND WITH PART BETWEEN MIDDLE AND RING FINGERS:\u{1F596}\n\
WHITE DOWN POINTING LEFT HAND INDEX:\u{1F597}\n\
SIDEWAYS WHITE LEFT POINTING INDEX:\u{1F598}\n\
SIDEWAYS WHITE RIGHT POINTING INDEX:\u{1F599}\n\
SIDEWAYS BLACK LEFT POINTING INDEX:\u{1F59A}\n\
SIDEWAYS BLACK RIGHT POINTING INDEX:\u{1F59B}\n\
BLACK LEFT POINTING BACKHAND INDEX:\u{1F59C}\n\
BLACK RIGHT POINTING BACKHAND INDEX:\u{1F59D}\n\
SIDEWAYS WHITE UP POINTING INDEX:\u{1F59E}\n\
SIDEWAYS WHITE DOWN POINTING INDEX:\u{1F59F}\n\
SIDEWAYS BLACK UP POINTING INDEX:\u{1F5A0}\n\
SIDEWAYS BLACK DOWN POINTING INDEX:\u{1F5A1}\n\
BLACK UP POINTING BACKHAND INDEX:\u{1F5A2}\n\
BLACK DOWN POINTING BACKHAND INDEX:\u{1F5A3}\n\
BLACK HEART:\u{1F5A4}\n\
DESKTOP COMPUTER:\u{1F5A5}\n\
KEYBOARD AND MOUSE:\u{1F5A6}\n\
THREE NETWORKED COMPUTERS:\u{1F5A7}\n\
PRINTER:\u{1F5A8}\n\
POCKET CALCULATOR:\u{1F5A9}\n\
BLACK HARD SHELL FLOPPY DISK:\u{1F5AA}\n\
WHITE HARD SHELL FLOPPY DISK:\u{1F5AB}\n\
SOFT SHELL FLOPPY DISK:\u{1F5AC}\n\
TAPE CARTRIDGE:\u{1F5AD}\n\
WIRED KEYBOARD:\u{1F5AE}\n\
ONE BUTTON MOUSE:\u{1F5AF}\n\
TWO BUTTON MOUSE:\u{1F5B0}\n\
THREE BUTTON MOUSE:\u{1F5B1}\n\
TRACKBALL:\u{1F5B2}\n\
OLD PERSONAL COMPUTER:\u{1F5B3}\n\
HARD DISK:\u{1F5B4}\n\
SCREEN:\u{1F5B5}\n\
PRINTER ICON:\u{1F5B6}\n\
FAX ICON:\u{1F5B7}\n\
OPTICAL DISC ICON:\u{1F5B8}\n\
DOCUMENT WITH TEXT:\u{1F5B9}\n\
DOCUMENT WITH TEXT AND PICTURE:\u{1F5BA}\n\
DOCUMENT WITH PICTURE:\u{1F5BB}\n\
FRAME WITH PICTURE:\u{1F5BC}\n\
FRAME WITH TILES:\u{1F5BD}\n\
FRAME WITH AN X:\u{1F5BE}\n\
BLACK FOLDER:\u{1F5BF}\n\
FOLDER:\u{1F5C0}\n\
OPEN FOLDER:\u{1F5C1}\n\
CARD INDEX DIVIDERS:\u{1F5C2}\n\
CARD FILE BOX:\u{1F5C3}\n\
FILE CABINET:\u{1F5C4}\n\
EMPTY NOTE:\u{1F5C5}\n\
EMPTY NOTE PAGE:\u{1F5C6}\n\
EMPTY NOTE PAD:\u{1F5C7}\n\
NOTE:\u{1F5C8}\n\
NOTE PAGE:\u{1F5C9}\n\
NOTE PAD:\u{1F5CA}\n\
EMPTY DOCUMENT:\u{1F5CB}\n\
EMPTY PAGE:\u{1F5CC}\n\
EMPTY PAGES:\u{1F5CD}\n\
DOCUMENT:\u{1F5CE}\n\
PAGE:\u{1F5CF}\n\
PAGES:\u{1F5D0}\n\
WASTEBASKET:\u{1F5D1}\n\
SPIRAL NOTE PAD:\u{1F5D2}\n\
SPIRAL CALENDAR PAD:\u{1F5D3}\n\
DESKTOP WINDOW:\u{1F5D4}\n\
MINIMIZE:\u{1F5D5}\n\
MAXIMIZE:\u{1F5D6}\n\
OVERLAP:\u{1F5D7}\n\
CLOCKWISE RIGHT AND LEFT SEMICIRCLE ARROWS:\u{1F5D8}\n\
CANCELLATION X:\u{1F5D9}\n\
INCREASE FONT SIZE SYMBOL:\u{1F5DA}\n\
DECREASE FONT SIZE SYMBOL:\u{1F5DB}\n\
COMPRESSION:\u{1F5DC}\n\
OLD KEY:\u{1F5DD}\n\
ROLLED-UP NEWSPAPER:\u{1F5DE}\n\
PAGE WITH CIRCLED TEXT:\u{1F5DF}\n\
STOCK CHART:\u{1F5E0}\n\
DAGGER KNIFE:\u{1F5E1}\n\
LIPS:\u{1F5E2}\n\
SPEAKING HEAD IN SILHOUETTE:\u{1F5E3}\n\
THREE RAYS ABOVE:\u{1F5E4}\n\
THREE RAYS BELOW:\u{1F5E5}\n\
THREE RAYS LEFT:\u{1F5E6}\n\
THREE RAYS RIGHT:\u{1F5E7}\n\
LEFT SPEECH BUBBLE:\u{1F5E8}\n\
RIGHT SPEECH BUBBLE:\u{1F5E9}\n\
TWO SPEECH BUBBLES:\u{1F5EA}\n\
THREE SPEECH BUBBLES:\u{1F5EB}\n\
LEFT THOUGHT BUBBLE:\u{1F5EC}\n\
RIGHT THOUGHT BUBBLE:\u{1F5ED}\n\
LEFT ANGER BUBBLE:\u{1F5EE}\n\
RIGHT ANGER BUBBLE:\u{1F5EF}\n\
MOOD BUBBLE:\u{1F5F0}\n\
LIGHTNING MOOD BUBBLE:\u{1F5F1}\n\
LIGHTNING MOOD:\u{1F5F2}\n\
BALLOT BOX WITH BALLOT:\u{1F5F3}\n\
BALLOT SCRIPT X:\u{1F5F4}\n\
BALLOT BOX WITH SCRIPT X:\u{1F5F5}\n\
BALLOT BOLD SCRIPT X:\u{1F5F6}\n\
BALLOT BOX WITH BOLD SCRIPT X:\u{1F5F7}\n\
LIGHT CHECK MARK:\u{1F5F8}\n\
BALLOT BOX WITH BOLD CHECK:\u{1F5F9}\n\
WORLD MAP:\u{1F5FA}\n\
MOUNT FUJI:\u{1F5FB}\n\
TOKYO TOWER:\u{1F5FC}\n\
STATUE OF LIBERTY:\u{1F5FD}\n\
SILHOUETTE OF JAPAN:\u{1F5FE}\n\
MOYAI:\u{1F5FF}\n\
GRINNING FACE:\u{1F600}\n\
GRINNING FACE WITH SMILING EYES:\u{1F601}\n\
FACE WITH TEARS OF JOY:\u{1F602}\n\
SMILING FACE WITH OPEN MOUTH:\u{1F603}\n\
SMILING FACE WITH OPEN MOUTH AND SMILING EYES:\u{1F604}\n\
SMILING FACE WITH OPEN MOUTH AND COLD SWEAT:\u{1F605}\n\
SMILING FACE WITH OPEN MOUTH AND TIGHTLY-CLOSED EYES:\u{1F606}\n\
SMILING FACE WITH HALO:\u{1F607}\n\
SMILING FACE WITH HORNS:\u{1F608}\n\
WINKING FACE:\u{1F609}\n\
SMILING FACE WITH SMILING EYES:\u{1F60A}\n\
FACE SAVOURING DELICIOUS FOOD:\u{1F60B}\n\
RELIEVED FACE:\u{1F60C}\n\
SMILING FACE WITH HEART-SHAPED EYES:\u{1F60D}\n\
SMILING FACE WITH SUNGLASSES:\u{1F60E}\n\
SMIRKING FACE:\u{1F60F}\n\
NEUTRAL FACE:\u{1F610}\n\
EXPRESSIONLESS FACE:\u{1F611}\n\
UNAMUSED FACE:\u{1F612}\n\
FACE WITH COLD SWEAT:\u{1F613}\n\
PENSIVE FACE:\u{1F614}\n\
CONFUSED FACE:\u{1F615}\n\
CONFOUNDED FACE:\u{1F616}\n\
KISSING FACE:\u{1F617}\n\
FACE THROWING A KISS:\u{1F618}\n\
KISSING FACE WITH SMILING EYES:\u{1F619}\n\
KISSING FACE WITH CLOSED EYES:\u{1F61A}\n\
FACE WITH STUCK-OUT TONGUE:\u{1F61B}\n\
FACE WITH STUCK-OUT TONGUE AND WINKING EYE:\u{1F61C}\n\
FACE WITH STUCK-OUT TONGUE AND TIGHTLY-CLOSED EYES:\u{1F61D}\n\
DISAPPOINTED FACE:\u{1F61E}\n\
WORRIED FACE:\u{1F61F}\n\
ANGRY FACE:\u{1F620}\n\
POUTING FACE:\u{1F621}\n\
CRYING FACE:\u{1F622}\n\
PERSEVERING FACE:\u{1F623}\n\
FACE WITH LOOK OF TRIUMPH:\u{1F624}\n\
DISAPPOINTED BUT RELIEVED FACE:\u{1F625}\n\
FROWNING FACE WITH OPEN MOUTH:\u{1F626}\n\
ANGUISHED FACE:\u{1F627}\n\
FEARFUL FACE:\u{1F628}\n\
WEARY FACE:\u{1F629}\n\
SLEEPY FACE:\u{1F62A}\n\
TIRED FACE:\u{1F62B}\n\
GRIMACING FACE:\u{1F62C}\n\
LOUDLY CRYING FACE:\u{1F62D}\n\
FACE WITH OPEN MOUTH:\u{1F62E}\n\
HUSHED FACE:\u{1F62F}\n\
FACE WITH OPEN MOUTH AND COLD SWEAT:\u{1F630}\n\
FACE SCREAMING IN FEAR:\u{1F631}\n\
ASTONISHED FACE:\u{1F632}\n\
FLUSHED FACE:\u{1F633}\n\
SLEEPING FACE:\u{1F634}\n\
DIZZY FACE:\u{1F635}\n\
FACE WITHOUT MOUTH:\u{1F636}\n\
FACE WITH MEDICAL MASK:\u{1F637}\n\
GRINNING CAT FACE WITH SMILING EYES:\u{1F638}\n\
CAT FACE WITH TEARS OF JOY:\u{1F639}\n\
SMILING CAT FACE WITH OPEN MOUTH:\u{1F63A}\n\
SMILING CAT FACE WITH HEART-SHAPED EYES:\u{1F63B}\n\
CAT FACE WITH WRY SMILE:\u{1F63C}\n\
KISSING CAT FACE WITH CLOSED EYES:\u{1F63D}\n\
POUTING CAT FACE:\u{1F63E}\n\
CRYING CAT FACE:\u{1F63F}\n\
WEARY CAT FACE:\u{1F640}\n\
SLIGHTLY FROWNING FACE:\u{1F641}\n\
SLIGHTLY SMILING FACE:\u{1F642}\n\
UPSIDE-DOWN FACE:\u{1F643}\n\
FACE WITH ROLLING EYES:\u{1F644}\n\
FACE WITH NO GOOD GESTURE:\u{1F645}\n\
FACE WITH OK GESTURE:\u{1F646}\n\
PERSON BOWING DEEPLY:\u{1F647}\n\
SEE-NO-EVIL MONKEY:\u{1F648}\n\
HEAR-NO-EVIL MONKEY:\u{1F649}\n\
SPEAK-NO-EVIL MONKEY:\u{1F64A}\n\
HAPPY PERSON RAISING ONE HAND:\u{1F64B}\n\
PERSON RAISING BOTH HANDS IN CELEBRATION:\u{1F64C}\n\
PERSON FROWNING:\u{1F64D}\n\
PERSON WITH POUTING FACE:\u{1F64E}\n\
PERSON WITH FOLDED HANDS:\u{1F64F}\n\
NORTH WEST POINTING LEAF:\u{1F650}\n\
SOUTH WEST POINTING LEAF:\u{1F651}\n\
NORTH EAST POINTING LEAF:\u{1F652}\n\
SOUTH EAST POINTING LEAF:\u{1F653}\n\
TURNED NORTH WEST POINTING LEAF:\u{1F654}\n\
TURNED SOUTH WEST POINTING LEAF:\u{1F655}\n\
TURNED NORTH EAST POINTING LEAF:\u{1F656}\n\
TURNED SOUTH EAST POINTING LEAF:\u{1F657}\n\
NORTH WEST POINTING VINE LEAF:\u{1F658}\n\
SOUTH WEST POINTING VINE LEAF:\u{1F659}\n\
NORTH EAST POINTING VINE LEAF:\u{1F65A}\n\
SOUTH EAST POINTING VINE LEAF:\u{1F65B}\n";

pub const NAMES_81: &'static str = "HEAVY NORTH WEST POINTING VINE LEAF:\u{1F65C}\n\
HEAVY SOUTH WEST POINTING VINE LEAF:\u{1F65D}\n\
HEAVY NORTH EAST POINTING VINE LEAF:\u{1F65E}\n\
HEAVY SOUTH EAST POINTING VINE LEAF:\u{1F65F}\n\
NORTH WEST POINTING BUD:\u{1F660}\n\
SOUTH WEST POINTING BUD:\u{1F661}\n\
NORTH EAST POINTING BUD:\u{1F662}\n\
SOUTH EAST POINTING BUD:\u{1F663}\n\
HEAVY NORTH WEST POINTING BUD:\u{1F664}\n\
HEAVY SOUTH WEST POINTING BUD:\u{1F665}\n\
HEAVY NORTH EAST POINTING BUD:\u{1F666}\n\
HEAVY SOUTH EAST POINTING BUD:\u{1F667}\n\
HOLLOW QUILT SQUARE ORNAMENT:\u{1F668}\n\
HOLLOW QUILT SQUARE ORNAMENT IN BLACK SQUARE:\u{1F669}\n\
SOLID QUILT SQUARE ORNAMENT:\u{1F66A}\n\
SOLID QUILT SQUARE ORNAMENT IN BLACK SQUARE:\u{1F66B}\n\
LEFTWARDS ROCKET:\u{1F66C}\n\
UPWARDS ROCKET:\u{1F66D}\n\
RIGHTWARDS ROCKET:\u{1F66E}\n\
DOWNWARDS ROCKET:\u{1F66F}\n\
SCRIPT LIGATURE ET ORNAMENT:\u{1F670}\n\
HEAVY SCRIPT LIGATURE ET ORNAMENT:\u{1F671}\n\
LIGATURE OPEN ET ORNAMENT:\u{1F672}\n\
HEAVY LIGATURE OPEN ET ORNAMENT:\u{1F673}\n\
HEAVY AMPERSAND ORNAMENT:\u{1F674}\n\
SWASH AMPERSAND ORNAMENT:\u{1F675}\n\
SANS-SERIF HEAVY DOUBLE TURNED COMMA QUOTATION MARK ORNAMENT:\u{1F676}\n\
SANS-SERIF HEAVY DOUBLE COMMA QUOTATION MARK ORNAMENT:\u{1F677}\n\
SANS-SERIF HEAVY LOW DOUBLE COMMA QUOTATION MARK ORNAMENT:\u{1F678}\n\
HEAVY INTERROBANG ORNAMENT:\u{1F679}\n\
SANS-SERIF INTERROBANG ORNAMENT:\u{1F67A}\n\
HEAVY SANS-SERIF INTERROBANG ORNAMENT:\u{1F67B}\n\
VERY HEAVY SOLIDUS:\u{1F67C}\n\
VERY HEAVY REVERSE SOLIDUS:\u{1F67D}\n\
CHECKER BOARD:\u{1F67E}\n\
REVERSE CHECKER BOARD:\u{1F67F}\n\
ROCKET:\u{1F680}\n\
HELICOPTER:\u{1F681}\n\
STEAM LOCOMOTIVE:\u{1F682}\n\
RAILWAY CAR:\u{1F683}\n\
HIGH-SPEED TRAIN:\u{1F684}\n\
HIGH-SPEED TRAIN WITH BULLET NOSE:\u{1F685}\n\
TRAIN:\u{1F686}\n\
METRO:\u{1F687}\n\
LIGHT RAIL:\u{1F688}\n\
STATION:\u{1F689}\n\
TRAM:\u{1F68A}\n\
TRAM CAR:\u{1F68B}\n\
BUS:\u{1F68C}\n\
ONCOMING BUS:\u{1F68D}\n\
TROLLEYBUS:\u{1F68E}\n\
BUS STOP:\u{1F68F}\n\
MINIBUS:\u{1F690}\n\
AMBULANCE:\u{1F691}\n\
FIRE ENGINE:\u{1F692}\n\
POLICE CAR:\u{1F693}\n\
ONCOMING POLICE CAR:\u{1F694}\n\
TAXI:\u{1F695}\n\
ONCOMING TAXI:\u{1F696}\n\
AUTOMOBILE:\u{1F697}\n\
ONCOMING AUTOMOBILE:\u{1F698}\n\
RECREATIONAL VEHICLE:\u{1F699}\n\
DELIVERY TRUCK:\u{1F69A}\n\
ARTICULATED LORRY:\u{1F69B}\n\
TRACTOR:\u{1F69C}\n\
MONORAIL:\u{1F69D}\n\
MOUNTAIN RAILWAY:\u{1F69E}\n\
SUSPENSION RAILWAY:\u{1F69F}\n\
MOUNTAIN CABLEWAY:\u{1F6A0}\n\
AERIAL TRAMWAY:\u{1F6A1}\n\
SHIP:\u{1F6A2}\n\
ROWBOAT:\u{1F6A3}\n\
SPEEDBOAT:\u{1F6A4}\n\
HORIZONTAL TRAFFIC LIGHT:\u{1F6A5}\n\
VERTICAL TRAFFIC LIGHT:\u{1F6A6}\n\
CONSTRUCTION SIGN:\u{1F6A7}\n\
POLICE CARS REVOLVING LIGHT:\u{1F6A8}\n\
TRIANGULAR FLAG ON POST:\u{1F6A9}\n\
DOOR:\u{1F6AA}\n\
NO ENTRY SIGN:\u{1F6AB}\n\
SMOKING SYMBOL:\u{1F6AC}\n\
NO SMOKING SYMBOL:\u{1F6AD}\n\
PUT LITTER IN ITS PLACE SYMBOL:\u{1F6AE}\n\
DO NOT LITTER SYMBOL:\u{1F6AF}\n\
POTABLE WATER SYMBOL:\u{1F6B0}\n\
NON-POTABLE WATER SYMBOL:\u{1F6B1}\n\
BICYCLE:\u{1F6B2}\n\
NO BICYCLES:\u{1F6B3}\n\
BICYCLIST:\u{1F6B4}\n\
MOUNTAIN BICYCLIST:\u{1F6B5}\n\
PEDESTRIAN:\u{1F6B6}\n\
NO PEDESTRIANS:\u{1F6B7}\n\
CHILDREN CROSSING:\u{1F6B8}\n\
MENS SYMBOL:\u{1F6B9}\n\
WOMENS SYMBOL:\u{1F6BA}\n\
RESTROOM:\u{1F6BB}\n\
BABY SYMBOL:\u{1F6BC}\n\
TOILET:\u{1F6BD}\n\
WATER CLOSET:\u{1F6BE}\n\
SHOWER:\u{1F6BF}\n\
BATH:\u{1F6C0}\n\
BATHTUB:\u{1F6C1}\n\
PASSPORT CONTROL:\u{1F6C2}\n\
CUSTOMS:\u{1F6C3}\n\
BAGGAGE CLAIM:\u{1F6C4}\n\
LEFT LUGGAGE:\u{1F6C5}\n\
TRIANGLE WITH ROUNDED CORNERS:\u{1F6C6}\n\
PROHIBITED SIGN:\u{1F6C7}\n\
CIRCLED INFORMATION SOURCE:\u{1F6C8}\n\
BOYS SYMBOL:\u{1F6C9}\n\
GIRLS SYMBOL:\u{1F6CA}\n\
COUCH AND LAMP:\u{1F6CB}\n\
SLEEPING ACCOMMODATION:\u{1F6CC}\n\
SHOPPING BAGS:\u{1F6CD}\n\
BELLHOP BELL:\u{1F6CE}\n\
BED:\u{1F6CF}\n\
PLACE OF WORSHIP:\u{1F6D0}\n\
OCTAGONAL SIGN:\u{1F6D1}\n\
SHOPPING TROLLEY:\u{1F6D2}\n\
STUPA:\u{1F6D3}\n\
PAGODA:\u{1F6D4}\n\
HINDU TEMPLE:\u{1F6D5}\n\
HUT:\u{1F6D6}\n\
ELEVATOR:\u{1F6D7}\n\
PLAYGROUND SLIDE:\u{1F6DD}\n\
WHEEL:\u{1F6DE}\n\
RING BUOY:\u{1F6DF}\n\
HAMMER AND WRENCH:\u{1F6E0}\n\
SHIELD:\u{1F6E1}\n\
OIL DRUM:\u{1F6E2}\n\
MOTORWAY:\u{1F6E3}\n\
RAILWAY TRACK:\u{1F6E4}\n\
MOTOR BOAT:\u{1F6E5}\n\
UP-POINTING MILITARY AIRPLANE:\u{1F6E6}\n\
UP-POINTING AIRPLANE:\u{1F6E7}\n\
UP-POINTING SMALL AIRPLANE:\u{1F6E8}\n\
SMALL AIRPLANE:\u{1F6E9}\n\
NORTHEAST-POINTING AIRPLANE:\u{1F6EA}\n\
AIRPLANE DEPARTURE:\u{1F6EB}\n\
AIRPLANE ARRIVING:\u{1F6EC}\n\
SATELLITE:\u{1F6F0}\n\
ONCOMING FIRE ENGINE:\u{1F6F1}\n\
DIESEL LOCOMOTIVE:\u{1F6F2}\n\
PASSENGER SHIP:\u{1F6F3}\n\
SCOOTER:\u{1F6F4}\n\
MOTOR SCOOTER:\u{1F6F5}\n\
CANOE:\u{1F6F6}\n\
SLED:\u{1F6F7}\n\
FLYING SAUCER:\u{1F6F8}\n\
SKATEBOARD:\u{1F6F9}\n\
AUTO RICKSHAW:\u{1F6FA}\n\
PICKUP TRUCK:\u{1F6FB}\n\
ROLLER SKATE:\u{1F6FC}\n\
ALCHEMICAL SYMBOL FOR QUINTESSENCE:\u{1F700}\n\
ALCHEMICAL SYMBOL FOR AIR:\u{1F701}\n\
ALCHEMICAL SYMBOL FOR FIRE:\u{1F702}\n\
ALCHEMICAL SYMBOL FOR EARTH:\u{1F703}\n\
ALCHEMICAL SYMBOL FOR WATER:\u{1F704}\n\
ALCHEMICAL SYMBOL FOR AQUAFORTIS:\u{1F705}\n\
ALCHEMICAL SYMBOL FOR AQUA REGIA:\u{1F706}\n\
ALCHEMICAL SYMBOL FOR AQUA REGIA-2:\u{1F707}\n\
ALCHEMICAL SYMBOL FOR AQUA VITAE:\u{1F708}\n\
ALCHEMICAL SYMBOL FOR AQUA VITAE-2:\u{1F709}\n\
ALCHEMICAL SYMBOL FOR VINEGAR:\u{1F70A}\n\
ALCHEMICAL SYMBOL FOR VINEGAR-2:\u{1F70B}\n\
ALCHEMICAL SYMBOL FOR VINEGAR-3:\u{1F70C}\n\
ALCHEMICAL SYMBOL FOR SULFUR:\u{1F70D}\n\
ALCHEMICAL SYMBOL FOR PHILOSOPHERS SULFUR:\u{1F70E}\n\
ALCHEMICAL SYMBOL FOR BLACK SULFUR:\u{1F70F}\n\
ALCHEMICAL SYMBOL FOR MERCURY SUBLIMATE:\u{1F710}\n\
ALCHEMICAL SYMBOL FOR MERCURY SUBLIMATE-2:\u{1F711}\n\
ALCHEMICAL SYMBOL FOR MERCURY SUBLIMATE-3:\u{1F712}\n\
ALCHEMICAL SYMBOL FOR CINNABAR:\u{1F713}\n\
ALCHEMICAL SYMBOL FOR SALT:\u{1F714}\n\
ALCHEMICAL SYMBOL FOR NITRE:\u{1F715}\n\
ALCHEMICAL SYMBOL FOR VITRIOL:\u{1F716}\n\
ALCHEMICAL SYMBOL FOR VITRIOL-2:\u{1F717}\n\
ALCHEMICAL SYMBOL FOR ROCK SALT:\u{1F718}\n\
ALCHEMICAL SYMBOL FOR ROCK SALT-2:\u{1F719}\n\
ALCHEMICAL SYMBOL FOR GOLD:\u{1F71A}\n\
ALCHEMICAL SYMBOL FOR SILVER:\u{1F71B}\n\
ALCHEMICAL SYMBOL FOR IRON ORE:\u{1F71C}\n\
ALCHEMICAL SYMBOL FOR IRON ORE-2:\u{1F71D}\n\
ALCHEMICAL SYMBOL FOR CROCUS OF IRON:\u{1F71E}\n\
ALCHEMICAL SYMBOL FOR REGULUS OF IRON:\u{1F71F}\n\
ALCHEMICAL SYMBOL FOR COPPER ORE:\u{1F720}\n\
ALCHEMICAL SYMBOL FOR IRON-COPPER ORE:\u{1F721}\n\
ALCHEMICAL SYMBOL FOR SUBLIMATE OF COPPER:\u{1F722}\n\
ALCHEMICAL SYMBOL FOR CROCUS OF COPPER:\u{1F723}\n\
ALCHEMICAL SYMBOL FOR CROCUS OF COPPER-2:\u{1F724}\n\
ALCHEMICAL SYMBOL FOR COPPER ANTIMONIATE:\u{1F725}\n\
ALCHEMICAL SYMBOL FOR SALT OF COPPER ANTIMONIATE:\u{1F726}\n\
ALCHEMICAL SYMBOL FOR SUBLIMATE OF SALT OF COPPER:\u{1F727}\n\
ALCHEMICAL SYMBOL FOR VERDIGRIS:\u{1F728}\n\
ALCHEMICAL SYMBOL FOR TIN ORE:\u{1F729}\n\
ALCHEMICAL SYMBOL FOR LEAD ORE:\u{1F72A}\n\
ALCHEMICAL SYMBOL FOR ANTIMONY ORE:\u{1F72B}\n\
ALCHEMICAL SYMBOL FOR SUBLIMATE OF ANTIMONY:\u{1F72C}\n\
ALCHEMICAL SYMBOL FOR SALT OF ANTIMONY:\u{1F72D}\n\
ALCHEMICAL SYMBOL FOR SUBLIMATE OF SALT OF ANTIMONY:\u{1F72E}\n\
ALCHEMICAL SYMBOL FOR VINEGAR OF ANTIMONY:\u{1F72F}\n\
ALCHEMICAL SYMBOL FOR REGULUS OF ANTIMONY:\u{1F730}\n\
ALCHEMICAL SYMBOL FOR REGULUS OF ANTIMONY-2:\u{1F731}\n\
ALCHEMICAL SYMBOL FOR REGULUS:\u{1F732}\n\
ALCHEMICAL SYMBOL FOR REGULUS-2:\u{1F733}\n\
ALCHEMICAL SYMBOL FOR REGULUS-3:\u{1F734}\n\
ALCHEMICAL SYMBOL FOR REGULUS-4:\u{1F735}\n\
ALCHEMICAL SYMBOL FOR ALKALI:\u{1F736}\n\
ALCHEMICAL SYMBOL FOR ALKALI-2:\u{1F737}\n\
ALCHEMICAL SYMBOL FOR MARCASITE:\u{1F738}\n\
ALCHEMICAL SYMBOL FOR SAL-AMMONIAC:\u{1F739}\n\
ALCHEMICAL SYMBOL FOR ARSENIC:\u{1F73A}\n\
ALCHEMICAL SYMBOL FOR REALGAR:\u{1F73B}\n\
ALCHEMICAL SYMBOL FOR REALGAR-2:\u{1F73C}\n\
ALCHEMICAL SYMBOL FOR AURIPIGMENT:\u{1F73D}\n\
ALCHEMICAL SYMBOL FOR BISMUTH ORE:\u{1F73E}\n\
ALCHEMICAL SYMBOL FOR TARTAR:\u{1F73F}\n\
ALCHEMICAL SYMBOL FOR TARTAR-2:\u{1F740}\n\
ALCHEMICAL SYMBOL FOR QUICK LIME:\u{1F741}\n\
ALCHEMICAL SYMBOL FOR BORAX:\u{1F742}\n\
ALCHEMICAL SYMBOL FOR BORAX-2:\u{1F743}\n\
ALCHEMICAL SYMBOL FOR BORAX-3:\u{1F744}\n\
ALCHEMICAL SYMBOL FOR ALUM:\u{1F745}\n\
ALCHEMICAL SYMBOL FOR OIL:\u{1F746}\n\
ALCHEMICAL SYMBOL FOR SPIRIT:\u{1F747}\n\
ALCHEMICAL SYMBOL FOR TINCTURE:\u{1F748}\n\
ALCHEMICAL SYMBOL FOR GUM:\u{1F749}\n\
ALCHEMICAL SYMBOL FOR WAX:\u{1F74A}\n\
ALCHEMICAL SYMBOL FOR POWDER:\u{1F74B}\n\
ALCHEMICAL SYMBOL FOR CALX:\u{1F74C}\n\
ALCHEMICAL SYMBOL FOR TUTTY:\u{1F74D}\n\
ALCHEMICAL SYMBOL FOR CAPUT MORTUUM:\u{1F74E}\n\
ALCHEMICAL SYMBOL FOR SCEPTER OF JOVE:\u{1F74F}\n\
ALCHEMICAL SYMBOL FOR CADUCEUS:\u{1F750}\n\
ALCHEMICAL SYMBOL FOR TRIDENT:\u{1F751}\n\
ALCHEMICAL SYMBOL FOR STARRED TRIDENT:\u{1F752}\n\
ALCHEMICAL SYMBOL FOR LODESTONE:\u{1F753}\n\
ALCHEMICAL SYMBOL FOR SOAP:\u{1F754}\n\
ALCHEMICAL SYMBOL FOR URINE:\u{1F755}\n\
ALCHEMICAL SYMBOL FOR HORSE DUNG:\u{1F756}\n\
ALCHEMICAL SYMBOL FOR ASHES:\u{1F757}\n\
ALCHEMICAL SYMBOL FOR POT ASHES:\u{1F758}\n\
ALCHEMICAL SYMBOL FOR BRICK:\u{1F759}\n\
ALCHEMICAL SYMBOL FOR POWDERED BRICK:\u{1F75A}\n\
ALCHEMICAL SYMBOL FOR AMALGAM:\u{1F75B}\n\
ALCHEMICAL SYMBOL FOR STRATUM SUPER STRATUM:\u{1F75C}\n\
ALCHEMICAL SYMBOL FOR STRATUM SUPER STRATUM-2:\u{1F75D}\n\
ALCHEMICAL SYMBOL FOR SUBLIMATION:\u{1F75E}\n\
ALCHEMICAL SYMBOL FOR PRECIPITATE:\u{1F75F}\n\
ALCHEMICAL SYMBOL FOR DISTILL:\u{1F760}\n\
ALCHEMICAL SYMBOL FOR DISSOLVE:\u{1F761}\n\
ALCHEMICAL SYMBOL FOR DISSOLVE-2:\u{1F762}\n\
ALCHEMICAL SYMBOL FOR PURIFY:\u{1F763}\n\
ALCHEMICAL SYMBOL FOR PUTREFACTION:\u{1F764}\n\
ALCHEMICAL SYMBOL FOR CRUCIBLE:\u{1F765}\n\
ALCHEMICAL SYMBOL FOR CRUCIBLE-2:\u{1F766}\n\
ALCHEMICAL SYMBOL FOR CRUCIBLE-3:\u{1F767}\n\
ALCHEMICAL SYMBOL FOR CRUCIBLE-4:\u{1F768}\n\
ALCHEMICAL SYMBOL FOR CRUCIBLE-5:\u{1F769}\n\
ALCHEMICAL SYMBOL FOR ALEMBIC:\u{1F76A}\n\
ALCHEMICAL SYMBOL FOR BATH OF MARY:\u{1F76B}\n\
ALCHEMICAL SYMBOL FOR BATH OF VAPOURS:\u{1F76C}\n\
ALCHEMICAL SYMBOL FOR RETORT:\u{1F76D}\n\
ALCHEMICAL SYMBOL FOR HOUR:\u{1F76E}\n\
ALCHEMICAL SYMBOL FOR NIGHT:\u{1F76F}\n\
ALCHEMICAL SYMBOL FOR DAY-NIGHT:\u{1F770}\n\
ALCHEMICAL SYMBOL FOR MONTH:\u{1F771}\n\
ALCHEMICAL SYMBOL FOR HALF DRAM:\u{1F772}\n\
ALCHEMICAL SYMBOL FOR HALF OUNCE:\u{1F773}\n\
BLACK LEFT-POINTING ISOSCELES RIGHT TRIANGLE:\u{1F780}\n\
BLACK UP-POINTING ISOSCELES RIGHT TRIANGLE:\u{1F781}\n\
BLACK RIGHT-POINTING ISOSCELES RIGHT TRIANGLE:\u{1F782}\n\
BLACK DOWN-POINTING ISOSCELES RIGHT TRIANGLE:\u{1F783}\n\
BLACK SLIGHTLY SMALL CIRCLE:\u{1F784}\n\
MEDIUM BOLD WHITE CIRCLE:\u{1F785}\n\
BOLD WHITE CIRCLE:\u{1F786}\n\
HEAVY WHITE CIRCLE:\u{1F787}\n\
VERY HEAVY WHITE CIRCLE:\u{1F788}\n\
EXTREMELY HEAVY WHITE CIRCLE:\u{1F789}\n\
WHITE CIRCLE CONTAINING BLACK SMALL CIRCLE:\u{1F78A}\n\
ROUND TARGET:\u{1F78B}\n\
BLACK TINY SQUARE:\u{1F78C}\n\
BLACK SLIGHTLY SMALL SQUARE:\u{1F78D}\n\
LIGHT WHITE SQUARE:\u{1F78E}\n\
MEDIUM WHITE SQUARE:\u{1F78F}\n\
BOLD WHITE SQUARE:\u{1F790}\n\
HEAVY WHITE SQUARE:\u{1F791}\n\
VERY HEAVY WHITE SQUARE:\u{1F792}\n\
EXTREMELY HEAVY WHITE SQUARE:\u{1F793}\n\
WHITE SQUARE CONTAINING BLACK VERY SMALL SQUARE:\u{1F794}\n\
WHITE SQUARE CONTAINING BLACK MEDIUM SQUARE:\u{1F795}\n\
SQUARE TARGET:\u{1F796}\n\
BLACK TINY DIAMOND:\u{1F797}\n\
BLACK VERY SMALL DIAMOND:\u{1F798}\n\
BLACK MEDIUM SMALL DIAMOND:\u{1F799}\n\
WHITE DIAMOND CONTAINING BLACK VERY SMALL DIAMOND:\u{1F79A}\n\
WHITE DIAMOND CONTAINING BLACK MEDIUM DIAMOND:\u{1F79B}\n\
DIAMOND TARGET:\u{1F79C}\n\
BLACK TINY LOZENGE:\u{1F79D}\n\
BLACK VERY SMALL LOZENGE:\u{1F79E}\n\
BLACK MEDIUM SMALL LOZENGE:\u{1F79F}\n\
WHITE LOZENGE CONTAINING BLACK SMALL LOZENGE:\u{1F7A0}\n\
THIN GREEK CROSS:\u{1F7A1}\n\
LIGHT GREEK CROSS:\u{1F7A2}\n\
MEDIUM GREEK CROSS:\u{1F7A3}\n\
BOLD GREEK CROSS:\u{1F7A4}\n\
VERY BOLD GREEK CROSS:\u{1F7A5}\n\
VERY HEAVY GREEK CROSS:\u{1F7A6}\n\
EXTREMELY HEAVY GREEK CROSS:\u{1F7A7}\n\
THIN SALTIRE:\u{1F7A8}\n\
LIGHT SALTIRE:\u{1F7A9}\n\
MEDIUM SALTIRE:\u{1F7AA}\n\
BOLD SALTIRE:\u{1F7AB}\n\
HEAVY SALTIRE:\u{1F7AC}\n\
VERY HEAVY SALTIRE:\u{1F7AD}\n\
EXTREMELY HEAVY SALTIRE:\u{1F7AE}\n\
LIGHT FIVE SPOKED ASTERISK:\u{1F7AF}\n\
MEDIUM FIVE SPOKED ASTERISK:\u{1F7B0}\n\
BOLD FIVE SPOKED ASTERISK:\u{1F7B1}\n\
HEAVY FIVE SPOKED ASTERISK:\u{1F7B2}\n\
VERY HEAVY FIVE SPOKED ASTERISK:\u{1F7B3}\n\
EXTREMELY HEAVY FIVE SPOKED ASTERISK:\u{1F7B4}\n\
LIGHT SIX SPOKED ASTERISK:\u{1F7B5}\n\
MEDIUM SIX SPOKED ASTERISK:\u{1F7B6}\n\
BOLD SIX SPOKED ASTERISK:\u{1F7B7}\n\
HEAVY SIX SPOKED ASTERISK:\u{1F7B8}\n\
VERY HEAVY SIX SPOKED ASTERISK:\u{1F7B9}\n\
EXTREMELY HEAVY SIX SPOKED ASTERISK:\u{1F7BA}\n\
LIGHT EIGHT SPOKED ASTERISK:\u{1F7BB}\n\
MEDIUM EIGHT SPOKED ASTERISK:\u{1F7BC}\n\
BOLD EIGHT SPOKED ASTERISK:\u{1F7BD}\n\
HEAVY EIGHT SPOKED ASTERISK:\u{1F7BE}\n\
VERY HEAVY EIGHT SPOKED ASTERISK:\u{1F7BF}\n\
LIGHT THREE POINTED BLACK STAR:\u{1F7C0}\n\
MEDIUM THREE POINTED BLACK STAR:\u{1F7C1}\n\
THREE POINTED BLACK STAR:\u{1F7C2}\n\
MEDIUM THREE POINTED PINWHEEL STAR:\u{1F7C3}\n\
LIGHT FOUR POINTED BLACK STAR:\u{1F7C4}\n\
MEDIUM FOUR POINTED BLACK STAR:\u{1F7C5}\n\
FOUR POINTED BLACK STAR:\u{1F7C6}\n\
MEDIUM FOUR POINTED PINWHEEL STAR:\u{1F7C7}\n\
REVERSE LIGHT FOUR POINTED PINWHEEL STAR:\u{1F7C8}\n\
LIGHT FIVE POINTED BLACK STAR:\u{1F7C9}\n\
HEAVY FIVE POINTED BLACK STAR:\u{1F7CA}\n\
MEDIUM SIX POINTED BLACK STAR:\u{1F7CB}\n\
HEAVY SIX POINTED BLACK STAR:\u{1F7CC}\n\
SIX POINTED PINWHEEL STAR:\u{1F7CD}\n\
MEDIUM EIGHT POINTED BLACK STAR:\u{1F7CE}\n\
HEAVY EIGHT POINTED BLACK STAR:\u{1F7CF}\n\
VERY HEAVY EIGHT POINTED BLACK STAR:\u{1F7D0}\n\
HEAVY EIGHT POINTED PINWHEEL STAR:\u{1F7D1}\n\
LIGHT TWELVE POINTED BLACK STAR:\u{1F7D2}\n\
HEAVY TWELVE POINTED BLACK STAR:\u{1F7D3}\n\
HEAVY TWELVE POINTED PINWHEEL STAR:\u{1F7D4}\n\
CIRCLED TRIANGLE:\u{1F7D5}\n\
NEGATIVE CIRCLED TRIANGLE:\u{1F7D6}\n\
CIRCLED SQUARE:\u{1F7D7}\n\
NEGATIVE CIRCLED SQUARE:\u{1F7D8}\n\
LARGE ORANGE CIRCLE:\u{1F7E0}\n\
LARGE YELLOW CIRCLE:\u{1F7E1}\n\
LARGE GREEN CIRCLE:\u{1F7E2}\n\
LARGE PURPLE CIRCLE:\u{1F7E3}\n\
LARGE BROWN CIRCLE:\u{1F7E4}\n\
LARGE RED SQUARE:\u{1F7E5}\n\
LARGE BLUE SQUARE:\u{1F7E6}\n\
LARGE ORANGE SQUARE:\u{1F7E7}\n\
LARGE YELLOW SQUARE:\u{1F7E8}\n\
LARGE GREEN SQUARE:\u{1F7E9}\n\
LARGE PURPLE SQUARE:\u{1F7EA}\n\
LARGE BROWN SQUARE:\u{1F7EB}\n\
HEAVY EQUALS SIGN:\u{1F7F0}\n\
LEFTWARDS ARROW WITH SMALL TRIANGLE ARROWHEAD:\u{1F800}\n\
UPWARDS ARROW WITH SMALL TRIANGLE ARROWHEAD:\u{1F801}\n\
RIGHTWARDS ARROW WITH SMALL TRIANGLE ARROWHEAD:\u{1F802}\n\
DOWNWARDS ARROW WITH SMALL TRIANGLE ARROWHEAD:\u{1F803}\n\
LEFTWARDS ARROW WITH MEDIUM TRIANGLE ARROWHEAD:\u{1F804}\n\
UPWARDS ARROW WITH MEDIUM TRIANGLE ARROWHEAD:\u{1F805}\n\
RIGHTWARDS ARROW WITH MEDIUM TRIANGLE ARROWHEAD:\u{1F806}\n\
DOWNWARDS ARROW WITH MEDIUM TRIANGLE ARROWHEAD:\u{1F807}\n\
LEFTWARDS ARROW WITH LARGE TRIANGLE ARROWHEAD:\u{1F808}\n\
UPWARDS ARROW WITH LARGE TRIANGLE ARROWHEAD:\u{1F809}\n\
RIGHTWARDS ARROW WITH LARGE TRIANGLE ARROWHEAD:\u{1F80A}\n\
DOWNWARDS ARROW WITH LARGE TRIANGLE ARROWHEAD:\u{1F80B}\n\
LEFTWARDS ARROW WITH SMALL EQUILATERAL ARROWHEAD:\u{1F810}\n\
UPWARDS ARROW WITH SMALL EQUILATERAL ARROWHEAD:\u{1F811}\n\
RIGHTWARDS ARROW WITH SMALL EQUILATERAL ARROWHEAD:\u{1F812}\n";

pub const NAMES_82: &'static str = "DOWNWARDS ARROW WITH SMALL EQUILATERAL ARROWHEAD:\u{1F813}\n\
LEFTWARDS ARROW WITH EQUILATERAL ARROWHEAD:\u{1F814}\n\
UPWARDS ARROW WITH EQUILATERAL ARROWHEAD:\u{1F815}\n\
RIGHTWARDS ARROW WITH EQUILATERAL ARROWHEAD:\u{1F816}\n\
DOWNWARDS ARROW WITH EQUILATERAL ARROWHEAD:\u{1F817}\n\
HEAVY LEFTWARDS ARROW WITH EQUILATERAL ARROWHEAD:\u{1F818}\n\
HEAVY UPWARDS ARROW WITH EQUILATERAL ARROWHEAD:\u{1F819}\n\
HEAVY RIGHTWARDS ARROW WITH EQUILATERAL ARROWHEAD:\u{1F81A}\n\
HEAVY DOWNWARDS ARROW WITH EQUILATERAL ARROWHEAD:\u{1F81B}\n\
HEAVY LEFTWARDS ARROW WITH LARGE EQUILATERAL ARROWHEAD:\u{1F81C}\n\
HEAVY UPWARDS ARROW WITH LARGE EQUILATERAL ARROWHEAD:\u{1F81D}\n\
HEAVY RIGHTWARDS ARROW WITH LARGE EQUILATERAL ARROWHEAD:\u{1F81E}\n\
HEAVY DOWNWARDS ARROW WITH LARGE EQUILATERAL ARROWHEAD:\u{1F81F}\n\
LEFTWARDS TRIANGLE-HEADED ARROW WITH NARROW SHAFT:\u{1F820}\n\
UPWARDS TRIANGLE-HEADED ARROW WITH NARROW SHAFT:\u{1F821}\n\
RIGHTWARDS TRIANGLE-HEADED ARROW WITH NARROW SHAFT:\u{1F822}\n\
DOWNWARDS TRIANGLE-HEADED ARROW WITH NARROW SHAFT:\u{1F823}\n\
LEFTWARDS TRIANGLE-HEADED ARROW WITH MEDIUM SHAFT:\u{1F824}\n\
UPWARDS TRIANGLE-HEADED ARROW WITH MEDIUM SHAFT:\u{1F825}\n\
RIGHTWARDS TRIANGLE-HEADED ARROW WITH MEDIUM SHAFT:\u{1F826}\n\
DOWNWARDS TRIANGLE-HEADED ARROW WITH MEDIUM SHAFT:\u{1F827}\n\
LEFTWARDS TRIANGLE-HEADED ARROW WITH BOLD SHAFT:\u{1F828}\n\
UPWARDS TRIANGLE-HEADED ARROW WITH BOLD SHAFT:\u{1F829}\n\
RIGHTWARDS TRIANGLE-HEADED ARROW WITH BOLD SHAFT:\u{1F82A}\n\
DOWNWARDS TRIANGLE-HEADED ARROW WITH BOLD SHAFT:\u{1F82B}\n\
LEFTWARDS TRIANGLE-HEADED ARROW WITH HEAVY SHAFT:\u{1F82C}\n\
UPWARDS TRIANGLE-HEADED ARROW WITH HEAVY SHAFT:\u{1F82D}\n\
RIGHTWARDS TRIANGLE-HEADED ARROW WITH HEAVY SHAFT:\u{1F82E}\n\
DOWNWARDS TRIANGLE-HEADED ARROW WITH HEAVY SHAFT:\u{1F82F}\n\
LEFTWARDS TRIANGLE-HEADED ARROW WITH VERY HEAVY SHAFT:\u{1F830}\n\
UPWARDS TRIANGLE-HEADED ARROW WITH VERY HEAVY SHAFT:\u{1F831}\n\
RIGHTWARDS TRIANGLE-HEADED ARROW WITH VERY HEAVY SHAFT:\u{1F832}\n\
DOWNWARDS TRIANGLE-HEADED ARROW WITH VERY HEAVY SHAFT:\u{1F833}\n\
LEFTWARDS FINGER-POST ARROW:\u{1F834}\n\
UPWARDS FINGER-POST ARROW:\u{1F835}\n\
RIGHTWARDS FINGER-POST ARROW:\u{1F836}\n\
DOWNWARDS FINGER-POST ARROW:\u{1F837}\n\
LEFTWARDS SQUARED ARROW:\u{1F838}\n\
UPWARDS SQUARED ARROW:\u{1F839}\n\
RIGHTWARDS SQUARED ARROW:\u{1F83A}\n\
DOWNWARDS SQUARED ARROW:\u{1F83B}\n\
LEFTWARDS COMPRESSED ARROW:\u{1F83C}\n\
UPWARDS COMPRESSED ARROW:\u{1F83D}\n\
RIGHTWARDS COMPRESSED ARROW:\u{1F83E}\n\
DOWNWARDS COMPRESSED ARROW:\u{1F83F}\n\
LEFTWARDS HEAVY COMPRESSED ARROW:\u{1F840}\n\
UPWARDS HEAVY COMPRESSED ARROW:\u{1F841}\n\
RIGHTWARDS HEAVY COMPRESSED ARROW:\u{1F842}\n\
DOWNWARDS HEAVY COMPRESSED ARROW:\u{1F843}\n\
LEFTWARDS HEAVY ARROW:\u{1F844}\n\
UPWARDS HEAVY ARROW:\u{1F845}\n\
RIGHTWARDS HEAVY ARROW:\u{1F846}\n\
DOWNWARDS HEAVY ARROW:\u{1F847}\n\
LEFTWARDS SANS-SERIF ARROW:\u{1F850}\n\
UPWARDS SANS-SERIF ARROW:\u{1F851}\n\
RIGHTWARDS SANS-SERIF ARROW:\u{1F852}\n\
DOWNWARDS SANS-SERIF ARROW:\u{1F853}\n\
NORTH WEST SANS-SERIF ARROW:\u{1F854}\n\
NORTH EAST SANS-SERIF ARROW:\u{1F855}\n\
SOUTH EAST SANS-SERIF ARROW:\u{1F856}\n\
SOUTH WEST SANS-SERIF ARROW:\u{1F857}\n\
LEFT RIGHT SANS-SERIF ARROW:\u{1F858}\n\
UP DOWN SANS-SERIF ARROW:\u{1F859}\n\
WIDE-HEADED LEFTWARDS LIGHT BARB ARROW:\u{1F860}\n\
WIDE-HEADED UPWARDS LIGHT BARB ARROW:\u{1F861}\n\
WIDE-HEADED RIGHTWARDS LIGHT BARB ARROW:\u{1F862}\n\
WIDE-HEADED DOWNWARDS LIGHT BARB ARROW:\u{1F863}\n\
WIDE-HEADED NORTH WEST LIGHT BARB ARROW:\u{1F864}\n\
WIDE-HEADED NORTH EAST LIGHT BARB ARROW:\u{1F865}\n\
WIDE-HEADED SOUTH EAST LIGHT BARB ARROW:\u{1F866}\n\
WIDE-HEADED SOUTH WEST LIGHT BARB ARROW:\u{1F867}\n\
WIDE-HEADED LEFTWARDS BARB ARROW:\u{1F868}\n\
WIDE-HEADED UPWARDS BARB ARROW:\u{1F869}\n\
WIDE-HEADED RIGHTWARDS BARB ARROW:\u{1F86A}\n\
WIDE-HEADED DOWNWARDS BARB ARROW:\u{1F86B}\n\
WIDE-HEADED NORTH WEST BARB ARROW:\u{1F86C}\n\
WIDE-HEADED NORTH EAST BARB ARROW:\u{1F86D}\n\
WIDE-HEADED SOUTH EAST BARB ARROW:\u{1F86E}\n\
WIDE-HEADED SOUTH WEST BARB ARROW:\u{1F86F}\n\
WIDE-HEADED LEFTWARDS MEDIUM BARB ARROW:\u{1F870}\n\
WIDE-HEADED UPWARDS MEDIUM BARB ARROW:\u{1F871}\n\
WIDE-HEADED RIGHTWARDS MEDIUM BARB ARROW:\u{1F872}\n\
WIDE-HEADED DOWNWARDS MEDIUM BARB ARROW:\u{1F873}\n\
WIDE-HEADED NORTH WEST MEDIUM BARB ARROW:\u{1F874}\n\
WIDE-HEADED NORTH EAST MEDIUM BARB ARROW:\u{1F875}\n\
WIDE-HEADED SOUTH EAST MEDIUM BARB ARROW:\u{1F876}\n\
WIDE-HEADED SOUTH WEST MEDIUM BARB ARROW:\u{1F877}\n\
WIDE-HEADED LEFTWARDS HEAVY BARB ARROW:\u{1F878}\n\
WIDE-HEADED UPWARDS HEAVY BARB ARROW:\u{1F879}\n\
WIDE-HEADED RIGHTWARDS HEAVY BARB ARROW:\u{1F87A}\n\
WIDE-HEADED DOWNWARDS HEAVY BARB ARROW:\u{1F87B}\n\
WIDE-HEADED NORTH WEST HEAVY BARB ARROW:\u{1F87C}\n\
WIDE-HEADED NORTH EAST HEAVY BARB ARROW:\u{1F87D}\n\
WIDE-HEADED SOUTH EAST HEAVY BARB ARROW:\u{1F87E}\n\
WIDE-HEADED SOUTH WEST HEAVY BARB ARROW:\u{1F87F}\n\
WIDE-HEADED LEFTWARDS VERY HEAVY BARB ARROW:\u{1F880}\n\
WIDE-HEADED UPWARDS VERY HEAVY BARB ARROW:\u{1F881}\n\
WIDE-HEADED RIGHTWARDS VERY HEAVY BARB ARROW:\u{1F882}\n\
WIDE-HEADED DOWNWARDS VERY HEAVY BARB ARROW:\u{1F883}\n\
WIDE-HEADED NORTH WEST VERY HEAVY BARB ARROW:\u{1F884}\n\
WIDE-HEADED NORTH EAST VERY HEAVY BARB ARROW:\u{1F885}\n\
WIDE-HEADED SOUTH EAST VERY HEAVY BARB ARROW:\u{1F886}\n\
WIDE-HEADED SOUTH WEST VERY HEAVY BARB ARROW:\u{1F887}\n\
LEFTWARDS TRIANGLE ARROWHEAD:\u{1F890}\n\
UPWARDS TRIANGLE ARROWHEAD:\u{1F891}\n\
RIGHTWARDS TRIANGLE ARROWHEAD:\u{1F892}\n\
DOWNWARDS TRIANGLE ARROWHEAD:\u{1F893}\n\
LEFTWARDS WHITE ARROW WITHIN TRIANGLE ARROWHEAD:\u{1F894}\n\
UPWARDS WHITE ARROW WITHIN TRIANGLE ARROWHEAD:\u{1F895}\n\
RIGHTWARDS WHITE ARROW WITHIN TRIANGLE ARROWHEAD:\u{1F896}\n\
DOWNWARDS WHITE ARROW WITHIN TRIANGLE ARROWHEAD:\u{1F897}\n\
LEFTWARDS ARROW WITH NOTCHED TAIL:\u{1F898}\n\
UPWARDS ARROW WITH NOTCHED TAIL:\u{1F899}\n\
RIGHTWARDS ARROW WITH NOTCHED TAIL:\u{1F89A}\n\
DOWNWARDS ARROW WITH NOTCHED TAIL:\u{1F89B}\n\
HEAVY ARROW SHAFT WIDTH ONE:\u{1F89C}\n\
HEAVY ARROW SHAFT WIDTH TWO THIRDS:\u{1F89D}\n\
HEAVY ARROW SHAFT WIDTH ONE HALF:\u{1F89E}\n\
HEAVY ARROW SHAFT WIDTH ONE THIRD:\u{1F89F}\n\
LEFTWARDS BOTTOM-SHADED WHITE ARROW:\u{1F8A0}\n\
RIGHTWARDS BOTTOM SHADED WHITE ARROW:\u{1F8A1}\n\
LEFTWARDS TOP SHADED WHITE ARROW:\u{1F8A2}\n\
RIGHTWARDS TOP SHADED WHITE ARROW:\u{1F8A3}\n\
LEFTWARDS LEFT-SHADED WHITE ARROW:\u{1F8A4}\n\
RIGHTWARDS RIGHT-SHADED WHITE ARROW:\u{1F8A5}\n\
LEFTWARDS RIGHT-SHADED WHITE ARROW:\u{1F8A6}\n\
RIGHTWARDS LEFT-SHADED WHITE ARROW:\u{1F8A7}\n\
LEFTWARDS BACK-TILTED SHADOWED WHITE ARROW:\u{1F8A8}\n\
RIGHTWARDS BACK-TILTED SHADOWED WHITE ARROW:\u{1F8A9}\n\
LEFTWARDS FRONT-TILTED SHADOWED WHITE ARROW:\u{1F8AA}\n\
RIGHTWARDS FRONT-TILTED SHADOWED WHITE ARROW:\u{1F8AB}\n\
WHITE ARROW SHAFT WIDTH ONE:\u{1F8AC}\n\
WHITE ARROW SHAFT WIDTH TWO THIRDS:\u{1F8AD}\n\
ARROW POINTING UPWARDS THEN NORTH WEST:\u{1F8B0}\n\
ARROW POINTING RIGHTWARDS THEN CURVING SOUTH WEST:\u{1F8B1}\n\
CIRCLED CROSS FORMEE WITH FOUR DOTS:\u{1F900}\n\
CIRCLED CROSS FORMEE WITH TWO DOTS:\u{1F901}\n\
CIRCLED CROSS FORMEE:\u{1F902}\n\
LEFT HALF CIRCLE WITH FOUR DOTS:\u{1F903}\n\
LEFT HALF CIRCLE WITH THREE DOTS:\u{1F904}\n\
LEFT HALF CIRCLE WITH TWO DOTS:\u{1F905}\n\
LEFT HALF CIRCLE WITH DOT:\u{1F906}\n\
LEFT HALF CIRCLE:\u{1F907}\n\
DOWNWARD FACING HOOK:\u{1F908}\n\
DOWNWARD FACING NOTCHED HOOK:\u{1F909}\n\
DOWNWARD FACING HOOK WITH DOT:\u{1F90A}\n\
DOWNWARD FACING NOTCHED HOOK WITH DOT:\u{1F90B}\n\
PINCHED FINGERS:\u{1F90C}\n\
WHITE HEART:\u{1F90D}\n\
BROWN HEART:\u{1F90E}\n\
PINCHING HAND:\u{1F90F}\n\
ZIPPER-MOUTH FACE:\u{1F910}\n\
MONEY-MOUTH FACE:\u{1F911}\n\
FACE WITH THERMOMETER:\u{1F912}\n\
NERD FACE:\u{1F913}\n\
THINKING FACE:\u{1F914}\n\
FACE WITH HEAD-BANDAGE:\u{1F915}\n\
ROBOT FACE:\u{1F916}\n\
HUGGING FACE:\u{1F917}\n\
SIGN OF THE HORNS:\u{1F918}\n\
CALL ME HAND:\u{1F919}\n\
RAISED BACK OF HAND:\u{1F91A}\n\
LEFT-FACING FIST:\u{1F91B}\n\
RIGHT-FACING FIST:\u{1F91C}\n\
HANDSHAKE:\u{1F91D}\n\
HAND WITH INDEX AND MIDDLE FINGERS CROSSED:\u{1F91E}\n\
I LOVE YOU HAND SIGN:\u{1F91F}\n\
FACE WITH COWBOY HAT:\u{1F920}\n\
CLOWN FACE:\u{1F921}\n\
NAUSEATED FACE:\u{1F922}\n\
ROLLING ON THE FLOOR LAUGHING:\u{1F923}\n\
DROOLING FACE:\u{1F924}\n\
LYING FACE:\u{1F925}\n\
FACE PALM:\u{1F926}\n\
SNEEZING FACE:\u{1F927}\n\
FACE WITH ONE EYEBROW RAISED:\u{1F928}\n\
GRINNING FACE WITH STAR EYES:\u{1F929}\n\
GRINNING FACE WITH ONE LARGE AND ONE SMALL EYE:\u{1F92A}\n\
FACE WITH FINGER COVERING CLOSED LIPS:\u{1F92B}\n\
SERIOUS FACE WITH SYMBOLS COVERING MOUTH:\u{1F92C}\n\
SMILING FACE WITH SMILING EYES AND HAND COVERING MOUTH:\u{1F92D}\n\
FACE WITH OPEN MOUTH VOMITING:\u{1F92E}\n\
SHOCKED FACE WITH EXPLODING HEAD:\u{1F92F}\n\
PREGNANT WOMAN:\u{1F930}\n\
BREAST-FEEDING:\u{1F931}\n\
PALMS UP TOGETHER:\u{1F932}\n\
SELFIE:\u{1F933}\n\
PRINCE:\u{1F934}\n\
MAN IN TUXEDO:\u{1F935}\n\
MOTHER CHRISTMAS:\u{1F936}\n\
SHRUG:\u{1F937}\n\
PERSON DOING CARTWHEEL:\u{1F938}\n\
JUGGLING:\u{1F939}\n\
FENCER:\u{1F93A}\n\
MODERN PENTATHLON:\u{1F93B}\n\
WRESTLERS:\u{1F93C}\n\
WATER POLO:\u{1F93D}\n\
HANDBALL:\u{1F93E}\n\
DIVING MASK:\u{1F93F}\n\
WILTED FLOWER:\u{1F940}\n\
DRUM WITH DRUMSTICKS:\u{1F941}\n\
CLINKING GLASSES:\u{1F942}\n\
TUMBLER GLASS:\u{1F943}\n\
SPOON:\u{1F944}\n\
GOAL NET:\u{1F945}\n\
RIFLE:\u{1F946}\n\
FIRST PLACE MEDAL:\u{1F947}\n\
SECOND PLACE MEDAL:\u{1F948}\n\
THIRD PLACE MEDAL:\u{1F949}\n\
BOXING GLOVE:\u{1F94A}\n\
MARTIAL ARTS UNIFORM:\u{1F94B}\n\
CURLING STONE:\u{1F94C}\n\
LACROSSE STICK AND BALL:\u{1F94D}\n\
SOFTBALL:\u{1F94E}\n\
FLYING DISC:\u{1F94F}\n\
CROISSANT:\u{1F950}\n\
AVOCADO:\u{1F951}\n\
CUCUMBER:\u{1F952}\n\
BACON:\u{1F953}\n\
POTATO:\u{1F954}\n\
CARROT:\u{1F955}\n\
BAGUETTE BREAD:\u{1F956}\n\
GREEN SALAD:\u{1F957}\n\
SHALLOW PAN OF FOOD:\u{1F958}\n\
STUFFED FLATBREAD:\u{1F959}\n\
EGG:\u{1F95A}\n\
GLASS OF MILK:\u{1F95B}\n\
PEANUTS:\u{1F95C}\n\
KIWIFRUIT:\u{1F95D}\n\
PANCAKES:\u{1F95E}\n\
DUMPLING:\u{1F95F}\n\
FORTUNE COOKIE:\u{1F960}\n\
TAKEOUT BOX:\u{1F961}\n\
CHOPSTICKS:\u{1F962}\n\
BOWL WITH SPOON:\u{1F963}\n\
CUP WITH STRAW:\u{1F964}\n\
COCONUT:\u{1F965}\n\
BROCCOLI:\u{1F966}\n\
PIE:\u{1F967}\n\
PRETZEL:\u{1F968}\n\
CUT OF MEAT:\u{1F969}\n\
SANDWICH:\u{1F96A}\n\
CANNED FOOD:\u{1F96B}\n\
LEAFY GREEN:\u{1F96C}\n\
MANGO:\u{1F96D}\n\
MOON CAKE:\u{1F96E}\n\
BAGEL:\u{1F96F}\n\
SMILING FACE WITH SMILING EYES AND THREE HEARTS:\u{1F970}\n\
YAWNING FACE:\u{1F971}\n\
SMILING FACE WITH TEAR:\u{1F972}\n\
FACE WITH PARTY HORN AND PARTY HAT:\u{1F973}\n\
FACE WITH UNEVEN EYES AND WAVY MOUTH:\u{1F974}\n\
OVERHEATED FACE:\u{1F975}\n\
FREEZING FACE:\u{1F976}\n\
NINJA:\u{1F977}\n\
DISGUISED FACE:\u{1F978}\n\
FACE HOLDING BACK TEARS:\u{1F979}\n\
FACE WITH PLEADING EYES:\u{1F97A}\n\
SARI:\u{1F97B}\n\
LAB COAT:\u{1F97C}\n\
GOGGLES:\u{1F97D}\n\
HIKING BOOT:\u{1F97E}\n\
FLAT SHOE:\u{1F97F}\n\
CRAB:\u{1F980}\n\
LION FACE:\u{1F981}\n\
SCORPION:\u{1F982}\n\
TURKEY:\u{1F983}\n\
UNICORN FACE:\u{1F984}\n\
EAGLE:\u{1F985}\n\
DUCK:\u{1F986}\n\
BAT:\u{1F987}\n\
SHARK:\u{1F988}\n\
OWL:\u{1F989}\n\
FOX FACE:\u{1F98A}\n\
BUTTERFLY:\u{1F98B}\n\
DEER:\u{1F98C}\n\
GORILLA:\u{1F98D}\n\
LIZARD:\u{1F98E}\n\
RHINOCEROS:\u{1F98F}\n\
SHRIMP:\u{1F990}\n\
SQUID:\u{1F991}\n\
GIRAFFE FACE:\u{1F992}\n\
ZEBRA FACE:\u{1F993}\n\
HEDGEHOG:\u{1F994}\n\
SAUROPOD:\u{1F995}\n\
T-REX:\u{1F996}\n\
CRICKET:\u{1F997}\n\
KANGAROO:\u{1F998}\n\
LLAMA:\u{1F999}\n\
PEACOCK:\u{1F99A}\n\
HIPPOPOTAMUS:\u{1F99B}\n\
PARROT:\u{1F99C}\n\
RACCOON:\u{1F99D}\n\
LOBSTER:\u{1F99E}\n\
MOSQUITO:\u{1F99F}\n\
MICROBE:\u{1F9A0}\n\
BADGER:\u{1F9A1}\n\
SWAN:\u{1F9A2}\n\
MAMMOTH:\u{1F9A3}\n\
DODO:\u{1F9A4}\n\
SLOTH:\u{1F9A5}\n\
OTTER:\u{1F9A6}\n\
ORANGUTAN:\u{1F9A7}\n\
SKUNK:\u{1F9A8}\n\
FLAMINGO:\u{1F9A9}\n\
OYSTER:\u{1F9AA}\n\
BEAVER:\u{1F9AB}\n\
BISON:\u{1F9AC}\n\
SEAL:\u{1F9AD}\n\
GUIDE DOG:\u{1F9AE}\n\
PROBING CANE:\u{1F9AF}\n\
EMOJI COMPONENT RED HAIR:\u{1F9B0}\n\
EMOJI COMPONENT CURLY HAIR:\u{1F9B1}\n\
EMOJI COMPONENT BALD:\u{1F9B2}\n\
EMOJI COMPONENT WHITE HAIR:\u{1F9B3}\n\
BONE:\u{1F9B4}\n\
LEG:\u{1F9B5}\n\
FOOT:\u{1F9B6}\n\
TOOTH:\u{1F9B7}\n\
SUPERHERO:\u{1F9B8}\n\
SUPERVILLAIN:\u{1F9B9}\n\
SAFETY VEST:\u{1F9BA}\n\
EAR WITH HEARING AID:\u{1F9BB}\n\
MOTORIZED WHEELCHAIR:\u{1F9BC}\n\
MANUAL WHEELCHAIR:\u{1F9BD}\n\
MECHANICAL ARM:\u{1F9BE}\n\
MECHANICAL LEG:\u{1F9BF}\n\
CHEESE WEDGE:\u{1F9C0}\n\
CUPCAKE:\u{1F9C1}\n\
SALT SHAKER:\u{1F9C2}\n\
BEVERAGE BOX:\u{1F9C3}\n\
GARLIC:\u{1F9C4}\n\
ONION:\u{1F9C5}\n\
FALAFEL:\u{1F9C6}\n\
WAFFLE:\u{1F9C7}\n\
BUTTER:\u{1F9C8}\n\
MATE DRINK:\u{1F9C9}\n\
ICE CUBE:\u{1F9CA}\n\
BUBBLE TEA:\u{1F9CB}\n\
TROLL:\u{1F9CC}\n\
STANDING PERSON:\u{1F9CD}\n\
KNEELING PERSON:\u{1F9CE}\n\
DEAF PERSON:\u{1F9CF}\n\
FACE WITH MONOCLE:\u{1F9D0}\n\
ADULT:\u{1F9D1}\n\
CHILD:\u{1F9D2}\n\
OLDER ADULT:\u{1F9D3}\n\
BEARDED PERSON:\u{1F9D4}\n\
PERSON WITH HEADSCARF:\u{1F9D5}\n\
PERSON IN STEAMY ROOM:\u{1F9D6}\n\
PERSON CLIMBING:\u{1F9D7}\n\
PERSON IN LOTUS POSITION:\u{1F9D8}\n\
MAGE:\u{1F9D9}\n\
FAIRY:\u{1F9DA}\n\
VAMPIRE:\u{1F9DB}\n\
MERPERSON:\u{1F9DC}\n\
ELF:\u{1F9DD}\n\
GENIE:\u{1F9DE}\n\
ZOMBIE:\u{1F9DF}\n\
BRAIN:\u{1F9E0}\n\
ORANGE HEART:\u{1F9E1}\n\
BILLED CAP:\u{1F9E2}\n\
SCARF:\u{1F9E3}\n\
GLOVES:\u{1F9E4}\n\
COAT:\u{1F9E5}\n\
SOCKS:\u{1F9E6}\n\
RED GIFT ENVELOPE:\u{1F9E7}\n\
FIRECRACKER:\u{1F9E8}\n\
JIGSAW PUZZLE PIECE:\u{1F9E9}\n\
TEST TUBE:\u{1F9EA}\n\
PETRI DISH:\u{1F9EB}\n\
DNA DOUBLE HELIX:\u{1F9EC}\n\
COMPASS:\u{1F9ED}\n\
ABACUS:\u{1F9EE}\n\
FIRE EXTINGUISHER:\u{1F9EF}\n\
TOOLBOX:\u{1F9F0}\n\
BRICK:\u{1F9F1}\n\
MAGNET:\u{1F9F2}\n\
LUGGAGE:\u{1F9F3}\n\
LOTION BOTTLE:\u{1F9F4}\n\
SPOOL OF THREAD:\u{1F9F5}\n\
BALL OF YARN:\u{1F9F6}\n\
SAFETY PIN:\u{1F9F7}\n\
TEDDY BEAR:\u{1F9F8}\n\
BROOM:\u{1F9F9}\n\
BASKET:\u{1F9FA}\n\
ROLL OF PAPER:\u{1F9FB}\n\
BAR OF SOAP:\u{1F9FC}\n\
SPONGE:\u{1F9FD}\n\
RECEIPT:\u{1F9FE}\n\
NAZAR AMULET:\u{1F9FF}\n\
NEUTRAL CHESS KING:\u{1FA00}\n\
NEUTRAL CHESS QUEEN:\u{1FA01}\n\
NEUTRAL CHESS ROOK:\u{1FA02}\n\
NEUTRAL CHESS BISHOP:\u{1FA03}\n\
NEUTRAL CHESS KNIGHT:\u{1FA04}\n\
NEUTRAL CHESS PAWN:\u{1FA05}\n\
WHITE CHESS KNIGHT ROTATED FORTY-FIVE DEGREES:\u{1FA06}\n\
BLACK CHESS KNIGHT ROTATED FORTY-FIVE DEGREES:\u{1FA07}\n\
NEUTRAL CHESS KNIGHT ROTATED FORTY-FIVE DEGREES:\u{1FA08}\n\
WHITE CHESS KING ROTATED NINETY DEGREES:\u{1FA09}\n\
WHITE CHESS QUEEN ROTATED NINETY DEGREES:\u{1FA0A}\n\
WHITE CHESS ROOK ROTATED NINETY DEGREES:\u{1FA0B}\n\
WHITE CHESS BISHOP ROTATED NINETY DEGREES:\u{1FA0C}\n\
WHITE CHESS KNIGHT ROTATED NINETY DEGREES:\u{1FA0D}\n\
WHITE CHESS PAWN ROTATED NINETY DEGREES:\u{1FA0E}\n\
BLACK CHESS KING ROTATED NINETY DEGREES:\u{1FA0F}\n\
BLACK CHESS QUEEN ROTATED NINETY DEGREES:\u{1FA10}\n\
BLACK CHESS ROOK ROTATED NINETY DEGREES:\u{1FA11}\n\
BLACK CHESS BISHOP ROTATED NINETY DEGREES:\u{1FA12}\n\
BLACK CHESS KNIGHT ROTATED NINETY DEGREES:\u{1FA13}\n\
BLACK CHESS PAWN ROTATED NINETY DEGREES:\u{1FA14}\n\
NEUTRAL CHESS KING ROTATED NINETY DEGREES:\u{1FA15}\n\
NEUTRAL CHESS QUEEN ROTATED NINETY DEGREES:\u{1FA16}\n\
NEUTRAL CHESS ROOK ROTATED NINETY DEGREES:\u{1FA17}\n";

pub const NAMES_83: &'static str = "NEUTRAL CHESS BISHOP ROTATED NINETY DEGREES:\u{1FA18}\n\
NEUTRAL CHESS KNIGHT ROTATED NINETY DEGREES:\u{1FA19}\n\
NEUTRAL CHESS PAWN ROTATED NINETY DEGREES:\u{1FA1A}\n\
WHITE CHESS KNIGHT ROTATED ONE HUNDRED THIRTY-FIVE DEGREES:\u{1FA1B}\n\
BLACK CHESS KNIGHT ROTATED ONE HUNDRED THIRTY-FIVE DEGREES:\u{1FA1C}\n\
NEUTRAL CHESS KNIGHT ROTATED ONE HUNDRED THIRTY-FIVE DEGREES:\u{1FA1D}\n\
WHITE CHESS TURNED KING:\u{1FA1E}\n\
WHITE CHESS TURNED QUEEN:\u{1FA1F}\n\
WHITE CHESS TURNED ROOK:\u{1FA20}\n\
WHITE CHESS TURNED BISHOP:\u{1FA21}\n\
WHITE CHESS TURNED KNIGHT:\u{1FA22}\n\
WHITE CHESS TURNED PAWN:\u{1FA23}\n\
BLACK CHESS TURNED KING:\u{1FA24}\n\
BLACK CHESS TURNED QUEEN:\u{1FA25}\n\
BLACK CHESS TURNED ROOK:\u{1FA26}\n\
BLACK CHESS TURNED BISHOP:\u{1FA27}\n\
BLACK CHESS TURNED KNIGHT:\u{1FA28}\n\
BLACK CHESS TURNED PAWN:\u{1FA29}\n\
NEUTRAL CHESS TURNED KING:\u{1FA2A}\n\
NEUTRAL CHESS TURNED QUEEN:\u{1FA2B}\n\
NEUTRAL CHESS TURNED ROOK:\u{1FA2C}\n\
NEUTRAL CHESS TURNED BISHOP:\u{1FA2D}\n\
NEUTRAL CHESS TURNED KNIGHT:\u{1FA2E}\n\
NEUTRAL CHESS TURNED PAWN:\u{1FA2F}\n\
WHITE CHESS KNIGHT ROTATED TWO HUNDRED TWENTY-FIVE DEGREES:\u{1FA30}\n\
BLACK CHESS KNIGHT ROTATED TWO HUNDRED TWENTY-FIVE DEGREES:\u{1FA31}\n\
NEUTRAL CHESS KNIGHT ROTATED TWO HUNDRED TWENTY-FIVE DEGREES:\u{1FA32}\n\
WHITE CHESS KING ROTATED TWO HUNDRED SEVENTY DEGREES:\u{1FA33}\n\
WHITE CHESS QUEEN ROTATED TWO HUNDRED SEVENTY DEGREES:\u{1FA34}\n\
WHITE CHESS ROOK ROTATED TWO HUNDRED SEVENTY DEGREES:\u{1FA35}\n\
WHITE CHESS BISHOP ROTATED TWO HUNDRED SEVENTY DEGREES:\u{1FA36}\n\
WHITE CHESS KNIGHT ROTATED TWO HUNDRED SEVENTY DEGREES:\u{1FA37}\n\
WHITE CHESS PAWN ROTATED TWO HUNDRED SEVENTY DEGREES:\u{1FA38}\n\
BLACK CHESS KING ROTATED TWO HUNDRED SEVENTY DEGREES:\u{1FA39}\n\
BLACK CHESS QUEEN ROTATED TWO HUNDRED SEVENTY DEGREES:\u{1FA3A}\n\
BLACK CHESS ROOK ROTATED TWO HUNDRED SEVENTY DEGREES:\u{1FA3B}\n\
BLACK CHESS BISHOP ROTATED TWO HUNDRED SEVENTY DEGREES:\u{1FA3C}\n\
BLACK CHESS KNIGHT ROTATED TWO HUNDRED SEVENTY DEGREES:\u{1FA3D}\n\
BLACK CHESS PAWN ROTATED TWO HUNDRED SEVENTY DEGREES:\u{1FA3E}\n\
NEUTRAL CHESS KING ROTATED TWO HUNDRED SEVENTY DEGREES:\u{1FA3F}\n\
NEUTRAL CHESS QUEEN ROTATED TWO HUNDRED SEVENTY DEGREES:\u{1FA40}\n\
NEUTRAL CHESS ROOK ROTATED TWO HUNDRED SEVENTY DEGREES:\u{1FA41}\n\
NEUTRAL CHESS BISHOP ROTATED TWO HUNDRED SEVENTY DEGREES:\u{1FA42}\n\
NEUTRAL CHESS KNIGHT ROTATED TWO HUNDRED SEVENTY DEGREES:\u{1FA43}\n\
NEUTRAL CHESS PAWN ROTATED TWO HUNDRED SEVENTY DEGREES:\u{1FA44}\n\
WHITE CHESS KNIGHT ROTATED THREE HUNDRED FIFTEEN DEGREES:\u{1FA45}\n\
BLACK CHESS KNIGHT ROTATED THREE HUNDRED FIFTEEN DEGREES:\u{1FA46}\n\
NEUTRAL CHESS KNIGHT ROTATED THREE HUNDRED FIFTEEN DEGREES:\u{1FA47}\n\
WHITE CHESS EQUIHOPPER:\u{1FA48}\n\
BLACK CHESS EQUIHOPPER:\u{1FA49}\n\
NEUTRAL CHESS EQUIHOPPER:\u{1FA4A}\n\
WHITE CHESS EQUIHOPPER ROTATED NINETY DEGREES:\u{1FA4B}\n\
BLACK CHESS EQUIHOPPER ROTATED NINETY DEGREES:\u{1FA4C}\n\
NEUTRAL CHESS EQUIHOPPER ROTATED NINETY DEGREES:\u{1FA4D}\n\
WHITE CHESS KNIGHT-QUEEN:\u{1FA4E}\n\
WHITE CHESS KNIGHT-ROOK:\u{1FA4F}\n\
WHITE CHESS KNIGHT-BISHOP:\u{1FA50}\n\
BLACK CHESS KNIGHT-QUEEN:\u{1FA51}\n\
BLACK CHESS KNIGHT-ROOK:\u{1FA52}\n\
BLACK CHESS KNIGHT-BISHOP:\u{1FA53}\n\
XIANGQI RED GENERAL:\u{1FA60}\n\
XIANGQI RED MANDARIN:\u{1FA61}\n\
XIANGQI RED ELEPHANT:\u{1FA62}\n\
XIANGQI RED HORSE:\u{1FA63}\n\
XIANGQI RED CHARIOT:\u{1FA64}\n\
XIANGQI RED CANNON:\u{1FA65}\n\
XIANGQI RED SOLDIER:\u{1FA66}\n\
XIANGQI BLACK GENERAL:\u{1FA67}\n\
XIANGQI BLACK MANDARIN:\u{1FA68}\n\
XIANGQI BLACK ELEPHANT:\u{1FA69}\n\
XIANGQI BLACK HORSE:\u{1FA6A}\n\
XIANGQI BLACK CHARIOT:\u{1FA6B}\n\
XIANGQI BLACK CANNON:\u{1FA6C}\n\
XIANGQI BLACK SOLDIER:\u{1FA6D}\n\
BALLET SHOES:\u{1FA70}\n\
ONE-PIECE SWIMSUIT:\u{1FA71}\n\
BRIEFS:\u{1FA72}\n\
SHORTS:\u{1FA73}\n\
THONG SANDAL:\u{1FA74}\n\
DROP OF BLOOD:\u{1FA78}\n\
ADHESIVE BANDAGE:\u{1FA79}\n\
STETHOSCOPE:\u{1FA7A}\n\
X-RAY:\u{1FA7B}\n\
CRUTCH:\u{1FA7C}\n\
YO-YO:\u{1FA80}\n\
KITE:\u{1FA81}\n\
PARACHUTE:\u{1FA82}\n\
BOOMERANG:\u{1FA83}\n\
MAGIC WAND:\u{1FA84}\n\
PINATA:\u{1FA85}\n\
NESTING DOLLS:\u{1FA86}\n\
RINGED PLANET:\u{1FA90}\n\
CHAIR:\u{1FA91}\n\
RAZOR:\u{1FA92}\n\
AXE:\u{1FA93}\n\
DIYA LAMP:\u{1FA94}\n\
BANJO:\u{1FA95}\n\
MILITARY HELMET:\u{1FA96}\n\
ACCORDION:\u{1FA97}\n\
LONG DRUM:\u{1FA98}\n\
COIN:\u{1FA99}\n\
CARPENTRY SAW:\u{1FA9A}\n\
SCREWDRIVER:\u{1FA9B}\n\
LADDER:\u{1FA9C}\n\
HOOK:\u{1FA9D}\n\
MIRROR:\u{1FA9E}\n\
WINDOW:\u{1FA9F}\n\
PLUNGER:\u{1FAA0}\n\
SEWING NEEDLE:\u{1FAA1}\n\
KNOT:\u{1FAA2}\n\
BUCKET:\u{1FAA3}\n\
MOUSE TRAP:\u{1FAA4}\n\
TOOTHBRUSH:\u{1FAA5}\n\
HEADSTONE:\u{1FAA6}\n\
PLACARD:\u{1FAA7}\n\
ROCK:\u{1FAA8}\n\
MIRROR BALL:\u{1FAA9}\n\
IDENTIFICATION CARD:\u{1FAAA}\n\
LOW BATTERY:\u{1FAAB}\n\
HAMSA:\u{1FAAC}\n\
FLY:\u{1FAB0}\n\
WORM:\u{1FAB1}\n\
BEETLE:\u{1FAB2}\n\
COCKROACH:\u{1FAB3}\n\
POTTED PLANT:\u{1FAB4}\n\
WOOD:\u{1FAB5}\n\
FEATHER:\u{1FAB6}\n\
LOTUS:\u{1FAB7}\n\
CORAL:\u{1FAB8}\n\
EMPTY NEST:\u{1FAB9}\n\
NEST WITH EGGS:\u{1FABA}\n\
ANATOMICAL HEART:\u{1FAC0}\n\
LUNGS:\u{1FAC1}\n\
PEOPLE HUGGING:\u{1FAC2}\n\
PREGNANT MAN:\u{1FAC3}\n\
PREGNANT PERSON:\u{1FAC4}\n\
PERSON WITH CROWN:\u{1FAC5}\n\
BLUEBERRIES:\u{1FAD0}\n\
BELL PEPPER:\u{1FAD1}\n\
OLIVE:\u{1FAD2}\n\
FLATBREAD:\u{1FAD3}\n\
TAMALE:\u{1FAD4}\n\
FONDUE:\u{1FAD5}\n\
TEAPOT:\u{1FAD6}\n\
POURING LIQUID:\u{1FAD7}\n\
BEANS:\u{1FAD8}\n\
JAR:\u{1FAD9}\n\
MELTING FACE:\u{1FAE0}\n\
SALUTING FACE:\u{1FAE1}\n\
FACE WITH OPEN EYES AND HAND OVER MOUTH:\u{1FAE2}\n\
FACE WITH PEEKING EYE:\u{1FAE3}\n\
FACE WITH DIAGONAL MOUTH:\u{1FAE4}\n\
DOTTED LINE FACE:\u{1FAE5}\n\
BITING LIP:\u{1FAE6}\n\
BUBBLES:\u{1FAE7}\n\
HAND WITH INDEX FINGER AND THUMB CROSSED:\u{1FAF0}\n\
RIGHTWARDS HAND:\u{1FAF1}\n\
LEFTWARDS HAND:\u{1FAF2}\n\
PALM DOWN HAND:\u{1FAF3}\n\
PALM UP HAND:\u{1FAF4}\n\
INDEX POINTING AT THE VIEWER:\u{1FAF5}\n\
HEART HANDS:\u{1FAF6}\n\
BLOCK SEXTANT-1:\u{1FB00}\n\
BLOCK SEXTANT-2:\u{1FB01}\n\
BLOCK SEXTANT-12:\u{1FB02}\n\
BLOCK SEXTANT-3:\u{1FB03}\n\
BLOCK SEXTANT-13:\u{1FB04}\n\
BLOCK SEXTANT-23:\u{1FB05}\n\
BLOCK SEXTANT-123:\u{1FB06}\n\
BLOCK SEXTANT-4:\u{1FB07}\n\
BLOCK SEXTANT-14:\u{1FB08}\n\
BLOCK SEXTANT-24:\u{1FB09}\n\
BLOCK SEXTANT-124:\u{1FB0A}\n\
BLOCK SEXTANT-34:\u{1FB0B}\n\
BLOCK SEXTANT-134:\u{1FB0C}\n\
BLOCK SEXTANT-234:\u{1FB0D}\n\
BLOCK SEXTANT-1234:\u{1FB0E}\n\
BLOCK SEXTANT-5:\u{1FB0F}\n\
BLOCK SEXTANT-15:\u{1FB10}\n\
BLOCK SEXTANT-25:\u{1FB11}\n\
BLOCK SEXTANT-125:\u{1FB12}\n\
BLOCK SEXTANT-35:\u{1FB13}\n\
BLOCK SEXTANT-235:\u{1FB14}\n\
BLOCK SEXTANT-1235:\u{1FB15}\n\
BLOCK SEXTANT-45:\u{1FB16}\n\
BLOCK SEXTANT-145:\u{1FB17}\n\
BLOCK SEXTANT-245:\u{1FB18}\n\
BLOCK SEXTANT-1245:\u{1FB19}\n\
BLOCK SEXTANT-345:\u{1FB1A}\n\
BLOCK SEXTANT-1345:\u{1FB1B}\n\
BLOCK SEXTANT-2345:\u{1FB1C}\n\
BLOCK SEXTANT-12345:\u{1FB1D}\n\
BLOCK SEXTANT-6:\u{1FB1E}\n\
BLOCK SEXTANT-16:\u{1FB1F}\n\
BLOCK SEXTANT-26:\u{1FB20}\n\
BLOCK SEXTANT-126:\u{1FB21}\n\
BLOCK SEXTANT-36:\u{1FB22}\n\
BLOCK SEXTANT-136:\u{1FB23}\n\
BLOCK SEXTANT-236:\u{1FB24}\n\
BLOCK SEXTANT-1236:\u{1FB25}\n\
BLOCK SEXTANT-46:\u{1FB26}\n\
BLOCK SEXTANT-146:\u{1FB27}\n\
BLOCK SEXTANT-1246:\u{1FB28}\n\
BLOCK SEXTANT-346:\u{1FB29}\n\
BLOCK SEXTANT-1346:\u{1FB2A}\n\
BLOCK SEXTANT-2346:\u{1FB2B}\n\
BLOCK SEXTANT-12346:\u{1FB2C}\n\
BLOCK SEXTANT-56:\u{1FB2D}\n\
BLOCK SEXTANT-156:\u{1FB2E}\n\
BLOCK SEXTANT-256:\u{1FB2F}\n\
BLOCK SEXTANT-1256:\u{1FB30}\n\
BLOCK SEXTANT-356:\u{1FB31}\n\
BLOCK SEXTANT-1356:\u{1FB32}\n\
BLOCK SEXTANT-2356:\u{1FB33}\n\
BLOCK SEXTANT-12356:\u{1FB34}\n\
BLOCK SEXTANT-456:\u{1FB35}\n\
BLOCK SEXTANT-1456:\u{1FB36}\n\
BLOCK SEXTANT-2456:\u{1FB37}\n\
BLOCK SEXTANT-12456:\u{1FB38}\n\
BLOCK SEXTANT-3456:\u{1FB39}\n\
BLOCK SEXTANT-13456:\u{1FB3A}\n\
BLOCK SEXTANT-23456:\u{1FB3B}\n\
LOWER LEFT BLOCK DIAGONAL LOWER MIDDLE LEFT TO LOWER CENTRE:\u{1FB3C}\n\
LOWER LEFT BLOCK DIAGONAL LOWER MIDDLE LEFT TO LOWER RIGHT:\u{1FB3D}\n\
LOWER LEFT BLOCK DIAGONAL UPPER MIDDLE LEFT TO LOWER CENTRE:\u{1FB3E}\n\
LOWER LEFT BLOCK DIAGONAL UPPER MIDDLE LEFT TO LOWER RIGHT:\u{1FB3F}\n\
LOWER LEFT BLOCK DIAGONAL UPPER LEFT TO LOWER CENTRE:\u{1FB40}\n\
LOWER RIGHT BLOCK DIAGONAL UPPER MIDDLE LEFT TO UPPER CENTRE:\u{1FB41}\n\
LOWER RIGHT BLOCK DIAGONAL UPPER MIDDLE LEFT TO UPPER RIGHT:\u{1FB42}\n\
LOWER RIGHT BLOCK DIAGONAL LOWER MIDDLE LEFT TO UPPER CENTRE:\u{1FB43}\n\
LOWER RIGHT BLOCK DIAGONAL LOWER MIDDLE LEFT TO UPPER RIGHT:\u{1FB44}\n\
LOWER RIGHT BLOCK DIAGONAL LOWER LEFT TO UPPER CENTRE:\u{1FB45}\n\
LOWER RIGHT BLOCK DIAGONAL LOWER MIDDLE LEFT TO UPPER MIDDLE RIGHT:\u{1FB46}\n\
LOWER RIGHT BLOCK DIAGONAL LOWER CENTRE TO LOWER MIDDLE RIGHT:\u{1FB47}\n\
LOWER RIGHT BLOCK DIAGONAL LOWER LEFT TO LOWER MIDDLE RIGHT:\u{1FB48}\n\
LOWER RIGHT BLOCK DIAGONAL LOWER CENTRE TO UPPER MIDDLE RIGHT:\u{1FB49}\n\
LOWER RIGHT BLOCK DIAGONAL LOWER LEFT TO UPPER MIDDLE RIGHT:\u{1FB4A}\n\
LOWER RIGHT BLOCK DIAGONAL LOWER CENTRE TO UPPER RIGHT:\u{1FB4B}\n\
LOWER LEFT BLOCK DIAGONAL UPPER CENTRE TO UPPER MIDDLE RIGHT:\u{1FB4C}\n\
LOWER LEFT BLOCK DIAGONAL UPPER LEFT TO UPPER MIDDLE RIGHT:\u{1FB4D}\n\
LOWER LEFT BLOCK DIAGONAL UPPER CENTRE TO LOWER MIDDLE RIGHT:\u{1FB4E}\n\
LOWER LEFT BLOCK DIAGONAL UPPER LEFT TO LOWER MIDDLE RIGHT:\u{1FB4F}\n\
LOWER LEFT BLOCK DIAGONAL UPPER CENTRE TO LOWER RIGHT:\u{1FB50}\n\
LOWER LEFT BLOCK DIAGONAL UPPER MIDDLE LEFT TO LOWER MIDDLE RIGHT:\u{1FB51}\n\
UPPER RIGHT BLOCK DIAGONAL LOWER MIDDLE LEFT TO LOWER CENTRE:\u{1FB52}\n\
UPPER RIGHT BLOCK DIAGONAL LOWER MIDDLE LEFT TO LOWER RIGHT:\u{1FB53}\n\
UPPER RIGHT BLOCK DIAGONAL UPPER MIDDLE LEFT TO LOWER CENTRE:\u{1FB54}\n\
UPPER RIGHT BLOCK DIAGONAL UPPER MIDDLE LEFT TO LOWER RIGHT:\u{1FB55}\n\
UPPER RIGHT BLOCK DIAGONAL UPPER LEFT TO LOWER CENTRE:\u{1FB56}\n\
UPPER LEFT BLOCK DIAGONAL UPPER MIDDLE LEFT TO UPPER CENTRE:\u{1FB57}\n\
UPPER LEFT BLOCK DIAGONAL UPPER MIDDLE LEFT TO UPPER RIGHT:\u{1FB58}\n\
UPPER LEFT BLOCK DIAGONAL LOWER MIDDLE LEFT TO UPPER CENTRE:\u{1FB59}\n\
UPPER LEFT BLOCK DIAGONAL LOWER MIDDLE LEFT TO UPPER RIGHT:\u{1FB5A}\n\
UPPER LEFT BLOCK DIAGONAL LOWER LEFT TO UPPER CENTRE:\u{1FB5B}\n\
UPPER LEFT BLOCK DIAGONAL LOWER MIDDLE LEFT TO UPPER MIDDLE RIGHT:\u{1FB5C}\n\
UPPER LEFT BLOCK DIAGONAL LOWER CENTRE TO LOWER MIDDLE RIGHT:\u{1FB5D}\n\
UPPER LEFT BLOCK DIAGONAL LOWER LEFT TO LOWER MIDDLE RIGHT:\u{1FB5E}\n\
UPPER LEFT BLOCK DIAGONAL LOWER CENTRE TO UPPER MIDDLE RIGHT:\u{1FB5F}\n\
UPPER LEFT BLOCK DIAGONAL LOWER LEFT TO UPPER MIDDLE RIGHT:\u{1FB60}\n\
UPPER LEFT BLOCK DIAGONAL LOWER CENTRE TO UPPER RIGHT:\u{1FB61}\n\
UPPER RIGHT BLOCK DIAGONAL UPPER CENTRE TO UPPER MIDDLE RIGHT:\u{1FB62}\n\
UPPER RIGHT BLOCK DIAGONAL UPPER LEFT TO UPPER MIDDLE RIGHT:\u{1FB63}\n\
UPPER RIGHT BLOCK DIAGONAL UPPER CENTRE TO LOWER MIDDLE RIGHT:\u{1FB64}\n\
UPPER RIGHT BLOCK DIAGONAL UPPER LEFT TO LOWER MIDDLE RIGHT:\u{1FB65}\n\
UPPER RIGHT BLOCK DIAGONAL UPPER CENTRE TO LOWER RIGHT:\u{1FB66}\n\
UPPER RIGHT BLOCK DIAGONAL UPPER MIDDLE LEFT TO LOWER MIDDLE RIGHT:\u{1FB67}\n\
UPPER AND RIGHT AND LOWER TRIANGULAR THREE QUARTERS BLOCK:\u{1FB68}\n\
LEFT AND LOWER AND RIGHT TRIANGULAR THREE QUARTERS BLOCK:\u{1FB69}\n\
UPPER AND LEFT AND LOWER TRIANGULAR THREE QUARTERS BLOCK:\u{1FB6A}\n\
LEFT AND UPPER AND RIGHT TRIANGULAR THREE QUARTERS BLOCK:\u{1FB6B}\n\
LEFT TRIANGULAR ONE QUARTER BLOCK:\u{1FB6C}\n\
UPPER TRIANGULAR ONE QUARTER BLOCK:\u{1FB6D}\n\
RIGHT TRIANGULAR ONE QUARTER BLOCK:\u{1FB6E}\n\
LOWER TRIANGULAR ONE QUARTER BLOCK:\u{1FB6F}\n\
VERTICAL ONE EIGHTH BLOCK-2:\u{1FB70}\n\
VERTICAL ONE EIGHTH BLOCK-3:\u{1FB71}\n\
VERTICAL ONE EIGHTH BLOCK-4:\u{1FB72}\n\
VERTICAL ONE EIGHTH BLOCK-5:\u{1FB73}\n\
VERTICAL ONE EIGHTH BLOCK-6:\u{1FB74}\n\
VERTICAL ONE EIGHTH BLOCK-7:\u{1FB75}\n\
HORIZONTAL ONE EIGHTH BLOCK-2:\u{1FB76}\n\
HORIZONTAL ONE EIGHTH BLOCK-3:\u{1FB77}\n\
HORIZONTAL ONE EIGHTH BLOCK-4:\u{1FB78}\n\
HORIZONTAL ONE EIGHTH BLOCK-5:\u{1FB79}\n\
HORIZONTAL ONE EIGHTH BLOCK-6:\u{1FB7A}\n\
HORIZONTAL ONE EIGHTH BLOCK-7:\u{1FB7B}\n\
LEFT AND LOWER ONE EIGHTH BLOCK:\u{1FB7C}\n\
LEFT AND UPPER ONE EIGHTH BLOCK:\u{1FB7D}\n\
RIGHT AND UPPER ONE EIGHTH BLOCK:\u{1FB7E}\n\
RIGHT AND LOWER ONE EIGHTH BLOCK:\u{1FB7F}\n\
UPPER AND LOWER ONE EIGHTH BLOCK:\u{1FB80}\n\
HORIZONTAL ONE EIGHTH BLOCK-1358:\u{1FB81}\n\
UPPER ONE QUARTER BLOCK:\u{1FB82}\n\
UPPER THREE EIGHTHS BLOCK:\u{1FB83}\n\
UPPER FIVE EIGHTHS BLOCK:\u{1FB84}\n\
UPPER THREE QUARTERS BLOCK:\u{1FB85}\n\
UPPER SEVEN EIGHTHS BLOCK:\u{1FB86}\n\
RIGHT ONE QUARTER BLOCK:\u{1FB87}\n\
RIGHT THREE EIGHTHS BLOCK:\u{1FB88}\n\
RIGHT FIVE EIGHTHS BLOCK:\u{1FB89}\n\
RIGHT THREE QUARTERS BLOCK:\u{1FB8A}\n\
RIGHT SEVEN EIGHTHS BLOCK:\u{1FB8B}\n\
LEFT HALF MEDIUM SHADE:\u{1FB8C}\n\
RIGHT HALF MEDIUM SHADE:\u{1FB8D}\n\
UPPER HALF MEDIUM SHADE:\u{1FB8E}\n\
LOWER HALF MEDIUM SHADE:\u{1FB8F}\n\
INVERSE MEDIUM SHADE:\u{1FB90}\n\
UPPER HALF BLOCK AND LOWER HALF INVERSE MEDIUM SHADE:\u{1FB91}\n\
UPPER HALF INVERSE MEDIUM SHADE AND LOWER HALF BLOCK:\u{1FB92}\n\
LEFT HALF INVERSE MEDIUM SHADE AND RIGHT HALF BLOCK:\u{1FB94}\n\
CHECKER BOARD FILL:\u{1FB95}\n\
INVERSE CHECKER BOARD FILL:\u{1FB96}\n\
HEAVY HORIZONTAL FILL:\u{1FB97}\n\
UPPER LEFT TO LOWER RIGHT FILL:\u{1FB98}\n\
UPPER RIGHT TO LOWER LEFT FILL:\u{1FB99}\n\
UPPER AND LOWER TRIANGULAR HALF BLOCK:\u{1FB9A}\n\
LEFT AND RIGHT TRIANGULAR HALF BLOCK:\u{1FB9B}\n\
UPPER LEFT TRIANGULAR MEDIUM SHADE:\u{1FB9C}\n\
UPPER RIGHT TRIANGULAR MEDIUM SHADE:\u{1FB9D}\n\
LOWER RIGHT TRIANGULAR MEDIUM SHADE:\u{1FB9E}\n\
LOWER LEFT TRIANGULAR MEDIUM SHADE:\u{1FB9F}\n\
BOX DRAWINGS LIGHT DIAGONAL UPPER CENTRE TO MIDDLE LEFT:\u{1FBA0}\n\
BOX DRAWINGS LIGHT DIAGONAL UPPER CENTRE TO MIDDLE RIGHT:\u{1FBA1}\n\
BOX DRAWINGS LIGHT DIAGONAL MIDDLE LEFT TO LOWER CENTRE:\u{1FBA2}\n\
BOX DRAWINGS LIGHT DIAGONAL MIDDLE RIGHT TO LOWER CENTRE:\u{1FBA3}\n\
BOX DRAWINGS LIGHT DIAGONAL UPPER CENTRE TO MIDDLE LEFT TO LOWER CENTRE:\u{1FBA4}\n\
BOX DRAWINGS LIGHT DIAGONAL UPPER CENTRE TO MIDDLE RIGHT TO LOWER CENTRE:\u{1FBA5}\n\
BOX DRAWINGS LIGHT DIAGONAL MIDDLE LEFT TO LOWER CENTRE TO MIDDLE RIGHT:\u{1FBA6}\n\
BOX DRAWINGS LIGHT DIAGONAL MIDDLE LEFT TO UPPER CENTRE TO MIDDLE RIGHT:\u{1FBA7}\n\
BOX DRAWINGS LIGHT DIAGONAL UPPER CENTRE TO MIDDLE LEFT AND MIDDLE RIGHT TO LOWER CENTRE:\u{1FBA8}\n\
BOX DRAWINGS LIGHT DIAGONAL UPPER CENTRE TO MIDDLE RIGHT AND MIDDLE LEFT TO LOWER CENTRE:\u{1FBA9}\n\
BOX DRAWINGS LIGHT DIAGONAL UPPER CENTRE TO MIDDLE RIGHT TO LOWER CENTRE TO MIDDLE LEFT:\u{1FBAA}\n\
BOX DRAWINGS LIGHT DIAGONAL UPPER CENTRE TO MIDDLE LEFT TO LOWER CENTRE TO MIDDLE RIGHT:\u{1FBAB}\n\
BOX DRAWINGS LIGHT DIAGONAL MIDDLE LEFT TO UPPER CENTRE TO MIDDLE RIGHT TO LOWER CENTRE:\u{1FBAC}\n\
BOX DRAWINGS LIGHT DIAGONAL MIDDLE RIGHT TO UPPER CENTRE TO MIDDLE LEFT TO LOWER CENTRE:\u{1FBAD}\n\
BOX DRAWINGS LIGHT DIAGONAL DIAMOND:\u{1FBAE}\n\
BOX DRAWINGS LIGHT HORIZONTAL WITH VERTICAL STROKE:\u{1FBAF}\n\
ARROWHEAD-SHAPED POINTER:\u{1FBB0}\n\
INVERSE CHECK MARK:\u{1FBB1}\n\
LEFT HALF RUNNING MAN:\u{1FBB2}\n\
RIGHT HALF RUNNING MAN:\u{1FBB3}\n\
INVERSE DOWNWARDS ARROW WITH TIP LEFTWARDS:\u{1FBB4}\n";

pub const NAMES_84: &'static str = "LEFTWARDS ARROW AND UPPER AND LOWER ONE EIGHTH BLOCK:\u{1FBB5}\n\
RIGHTWARDS ARROW AND UPPER AND LOWER ONE EIGHTH BLOCK:\u{1FBB6}\n\
DOWNWARDS ARROW AND RIGHT ONE EIGHTH BLOCK:\u{1FBB7}\n\
UPWARDS ARROW AND RIGHT ONE EIGHTH BLOCK:\u{1FBB8}\n\
LEFT HALF FOLDER:\u{1FBB9}\n\
RIGHT HALF FOLDER:\u{1FBBA}\n\
VOIDED GREEK CROSS:\u{1FBBB}\n\
RIGHT OPEN SQUARED DOT:\u{1FBBC}\n\
NEGATIVE DIAGONAL CROSS:\u{1FBBD}\n\
NEGATIVE DIAGONAL MIDDLE RIGHT TO LOWER CENTRE:\u{1FBBE}\n\
NEGATIVE DIAGONAL DIAMOND:\u{1FBBF}\n\
WHITE HEAVY SALTIRE WITH ROUNDED CORNERS:\u{1FBC0}\n\
LEFT THIRD WHITE RIGHT POINTING INDEX:\u{1FBC1}\n\
MIDDLE THIRD WHITE RIGHT POINTING INDEX:\u{1FBC2}\n\
RIGHT THIRD WHITE RIGHT POINTING INDEX:\u{1FBC3}\n\
NEGATIVE SQUARED QUESTION MARK:\u{1FBC4}\n\
STICK FIGURE:\u{1FBC5}\n\
STICK FIGURE WITH ARMS RAISED:\u{1FBC6}\n\
STICK FIGURE LEANING LEFT:\u{1FBC7}\n\
STICK FIGURE LEANING RIGHT:\u{1FBC8}\n\
STICK FIGURE WITH DRESS:\u{1FBC9}\n\
WHITE UP-POINTING CHEVRON:\u{1FBCA}\n\
SEGMENTED DIGIT ZERO:\u{1FBF0}\n\
SEGMENTED DIGIT ONE:\u{1FBF1}\n\
SEGMENTED DIGIT TWO:\u{1FBF2}\n\
SEGMENTED DIGIT THREE:\u{1FBF3}\n\
SEGMENTED DIGIT FOUR:\u{1FBF4}\n\
SEGMENTED DIGIT FIVE:\u{1FBF5}\n\
SEGMENTED DIGIT SIX:\u{1FBF6}\n\
SEGMENTED DIGIT SEVEN:\u{1FBF7}\n\
SEGMENTED DIGIT EIGHT:\u{1FBF8}\n\
SEGMENTED DIGIT NINE:\u{1FBF9}\n\
LANGUAGE TAG:\u{E0001}\n\
TAG SPACE:\u{E0020}\n\
TAG EXCLAMATION MARK:\u{E0021}\n\
TAG QUOTATION MARK:\u{E0022}\n\
TAG NUMBER SIGN:\u{E0023}\n\
TAG DOLLAR SIGN:\u{E0024}\n\
TAG PERCENT SIGN:\u{E0025}\n\
TAG AMPERSAND:\u{E0026}\n\
TAG APOSTROPHE:\u{E0027}\n\
TAG LEFT PARENTHESIS:\u{E0028}\n\
TAG RIGHT PARENTHESIS:\u{E0029}\n\
TAG ASTERISK:\u{E002A}\n\
TAG PLUS SIGN:\u{E002B}\n\
TAG COMMA:\u{E002C}\n\
TAG HYPHEN-MINUS:\u{E002D}\n\
TAG FULL STOP:\u{E002E}\n\
TAG SOLIDUS:\u{E002F}\n\
TAG DIGIT ZERO:\u{E0030}\n\
TAG DIGIT ONE:\u{E0031}\n\
TAG DIGIT TWO:\u{E0032}\n\
TAG DIGIT THREE:\u{E0033}\n\
TAG DIGIT FOUR:\u{E0034}\n\
TAG DIGIT FIVE:\u{E0035}\n\
TAG DIGIT SIX:\u{E0036}\n\
TAG DIGIT SEVEN:\u{E0037}\n\
TAG DIGIT EIGHT:\u{E0038}\n\
TAG DIGIT NINE:\u{E0039}\n\
TAG COLON:\u{E003A}\n\
TAG SEMICOLON:\u{E003B}\n\
TAG LESS-THAN SIGN:\u{E003C}\n\
TAG EQUALS SIGN:\u{E003D}\n\
TAG GREATER-THAN SIGN:\u{E003E}\n\
TAG QUESTION MARK:\u{E003F}\n\
TAG COMMERCIAL AT:\u{E0040}\n\
TAG LATIN CAPITAL LETTER A:\u{E0041}\n\
TAG LATIN CAPITAL LETTER B:\u{E0042}\n\
TAG LATIN CAPITAL LETTER C:\u{E0043}\n\
TAG LATIN CAPITAL LETTER D:\u{E0044}\n\
TAG LATIN CAPITAL LETTER E:\u{E0045}\n\
TAG LATIN CAPITAL LETTER F:\u{E0046}\n\
TAG LATIN CAPITAL LETTER G:\u{E0047}\n\
TAG LATIN CAPITAL LETTER H:\u{E0048}\n\
TAG LATIN CAPITAL LETTER I:\u{E0049}\n\
TAG LATIN CAPITAL LETTER J:\u{E004A}\n\
TAG LATIN CAPITAL LETTER K:\u{E004B}\n\
TAG LATIN CAPITAL LETTER L:\u{E004C}\n\
TAG LATIN CAPITAL LETTER M:\u{E004D}\n\
TAG LATIN CAPITAL LETTER N:\u{E004E}\n\
TAG LATIN CAPITAL LETTER O:\u{E004F}\n\
TAG LATIN CAPITAL LETTER P:\u{E0050}\n\
TAG LATIN CAPITAL LETTER Q:\u{E0051}\n\
TAG LATIN CAPITAL LETTER R:\u{E0052}\n\
TAG LATIN CAPITAL LETTER S:\u{E0053}\n\
TAG LATIN CAPITAL LETTER T:\u{E0054}\n\
TAG LATIN CAPITAL LETTER U:\u{E0055}\n\
TAG LATIN CAPITAL LETTER V:\u{E0056}\n\
TAG LATIN CAPITAL LETTER W:\u{E0057}\n\
TAG LATIN CAPITAL LETTER X:\u{E0058}\n\
TAG LATIN CAPITAL LETTER Y:\u{E0059}\n\
TAG LATIN CAPITAL LETTER Z:\u{E005A}\n\
TAG LEFT SQUARE BRACKET:\u{E005B}\n\
TAG REVERSE SOLIDUS:\u{E005C}\n\
TAG RIGHT SQUARE BRACKET:\u{E005D}\n\
TAG CIRCUMFLEX ACCENT:\u{E005E}\n\
TAG LOW LINE:\u{E005F}\n\
TAG GRAVE ACCENT:\u{E0060}\n\
TAG LATIN SMALL LETTER A:\u{E0061}\n\
TAG LATIN SMALL LETTER B:\u{E0062}\n\
TAG LATIN SMALL LETTER C:\u{E0063}\n\
TAG LATIN SMALL LETTER D:\u{E0064}\n\
TAG LATIN SMALL LETTER E:\u{E0065}\n\
TAG LATIN SMALL LETTER F:\u{E0066}\n\
TAG LATIN SMALL LETTER G:\u{E0067}\n\
TAG LATIN SMALL LETTER H:\u{E0068}\n\
TAG LATIN SMALL LETTER I:\u{E0069}\n\
TAG LATIN SMALL LETTER J:\u{E006A}\n\
TAG LATIN SMALL LETTER K:\u{E006B}\n\
TAG LATIN SMALL LETTER L:\u{E006C}\n\
TAG LATIN SMALL LETTER M:\u{E006D}\n\
TAG LATIN SMALL LETTER N:\u{E006E}\n\
TAG LATIN SMALL LETTER O:\u{E006F}\n\
TAG LATIN SMALL LETTER P:\u{E0070}\n\
TAG LATIN SMALL LETTER Q:\u{E0071}\n\
TAG LATIN SMALL LETTER R:\u{E0072}\n\
TAG LATIN SMALL LETTER S:\u{E0073}\n\
TAG LATIN SMALL LETTER T:\u{E0074}\n\
TAG LATIN SMALL LETTER U:\u{E0075}\n\
TAG LATIN SMALL LETTER V:\u{E0076}\n\
TAG LATIN SMALL LETTER W:\u{E0077}\n\
TAG LATIN SMALL LETTER X:\u{E0078}\n\
TAG LATIN SMALL LETTER Y:\u{E0079}\n\
TAG LATIN SMALL LETTER Z:\u{E007A}\n\
TAG LEFT CURLY BRACKET:\u{E007B}\n\
TAG VERTICAL LINE:\u{E007C}\n\
TAG RIGHT CURLY BRACKET:\u{E007D}\n\
TAG TILDE:\u{E007E}\n\
CANCEL TAG:\u{E007F}\n\
VARIATION SELECTOR-17:\u{E0100}\n\
VARIATION SELECTOR-18:\u{E0101}\n\
VARIATION SELECTOR-19:\u{E0102}\n\
VARIATION SELECTOR-20:\u{E0103}\n\
VARIATION SELECTOR-21:\u{E0104}\n\
VARIATION SELECTOR-22:\u{E0105}\n\
VARIATION SELECTOR-23:\u{E0106}\n\
VARIATION SELECTOR-24:\u{E0107}\n\
VARIATION SELECTOR-25:\u{E0108}\n\
VARIATION SELECTOR-26:\u{E0109}\n\
VARIATION SELECTOR-27:\u{E010A}\n\
VARIATION SELECTOR-28:\u{E010B}\n\
VARIATION SELECTOR-29:\u{E010C}\n\
VARIATION SELECTOR-30:\u{E010D}\n\
VARIATION SELECTOR-31:\u{E010E}\n\
VARIATION SELECTOR-32:\u{E010F}\n\
VARIATION SELECTOR-33:\u{E0110}\n\
VARIATION SELECTOR-34:\u{E0111}\n\
VARIATION SELECTOR-35:\u{E0112}\n\
VARIATION SELECTOR-36:\u{E0113}\n\
VARIATION SELECTOR-37:\u{E0114}\n\
VARIATION SELECTOR-38:\u{E0115}\n\
VARIATION SELECTOR-39:\u{E0116}\n\
VARIATION SELECTOR-40:\u{E0117}\n\
VARIATION SELECTOR-41:\u{E0118}\n\
VARIATION SELECTOR-42:\u{E0119}\n\
VARIATION SELECTOR-43:\u{E011A}\n\
VARIATION SELECTOR-44:\u{E011B}\n\
VARIATION SELECTOR-45:\u{E011C}\n\
VARIATION SELECTOR-46:\u{E011D}\n\
VARIATION SELECTOR-47:\u{E011E}\n\
VARIATION SELECTOR-48:\u{E011F}\n\
VARIATION SELECTOR-49:\u{E0120}\n\
VARIATION SELECTOR-50:\u{E0121}\n\
VARIATION SELECTOR-51:\u{E0122}\n\
VARIATION SELECTOR-52:\u{E0123}\n\
VARIATION SELECTOR-53:\u{E0124}\n\
VARIATION SELECTOR-54:\u{E0125}\n\
VARIATION SELECTOR-55:\u{E0126}\n\
VARIATION SELECTOR-56:\u{E0127}\n\
VARIATION SELECTOR-57:\u{E0128}\n\
VARIATION SELECTOR-58:\u{E0129}\n\
VARIATION SELECTOR-59:\u{E012A}\n\
VARIATION SELECTOR-60:\u{E012B}\n\
VARIATION SELECTOR-61:\u{E012C}\n\
VARIATION SELECTOR-62:\u{E012D}\n\
VARIATION SELECTOR-63:\u{E012E}\n\
VARIATION SELECTOR-64:\u{E012F}\n\
VARIATION SELECTOR-65:\u{E0130}\n\
VARIATION SELECTOR-66:\u{E0131}\n\
VARIATION SELECTOR-67:\u{E0132}\n\
VARIATION SELECTOR-68:\u{E0133}\n\
VARIATION SELECTOR-69:\u{E0134}\n\
VARIATION SELECTOR-70:\u{E0135}\n\
VARIATION SELECTOR-71:\u{E0136}\n\
VARIATION SELECTOR-72:\u{E0137}\n\
VARIATION SELECTOR-73:\u{E0138}\n\
VARIATION SELECTOR-74:\u{E0139}\n\
VARIATION SELECTOR-75:\u{E013A}\n\
VARIATION SELECTOR-76:\u{E013B}\n\
VARIATION SELECTOR-77:\u{E013C}\n\
VARIATION SELECTOR-78:\u{E013D}\n\
VARIATION SELECTOR-79:\u{E013E}\n\
VARIATION SELECTOR-80:\u{E013F}\n\
VARIATION SELECTOR-81:\u{E0140}\n\
VARIATION SELECTOR-82:\u{E0141}\n\
VARIATION SELECTOR-83:\u{E0142}\n\
VARIATION SELECTOR-84:\u{E0143}\n\
VARIATION SELECTOR-85:\u{E0144}\n\
VARIATION SELECTOR-86:\u{E0145}\n\
VARIATION SELECTOR-87:\u{E0146}\n\
VARIATION SELECTOR-88:\u{E0147}\n\
VARIATION SELECTOR-89:\u{E0148}\n\
VARIATION SELECTOR-90:\u{E0149}\n\
VARIATION SELECTOR-91:\u{E014A}\n\
VARIATION SELECTOR-92:\u{E014B}\n\
VARIATION SELECTOR-93:\u{E014C}\n\
VARIATION SELECTOR-94:\u{E014D}\n\
VARIATION SELECTOR-95:\u{E014E}\n\
VARIATION SELECTOR-96:\u{E014F}\n\
VARIATION SELECTOR-97:\u{E0150}\n\
VARIATION SELECTOR-98:\u{E0151}\n\
VARIATION SELECTOR-99:\u{E0152}\n\
VARIATION SELECTOR-100:\u{E0153}\n\
VARIATION SELECTOR-101:\u{E0154}\n\
VARIATION SELECTOR-102:\u{E0155}\n\
VARIATION SELECTOR-103:\u{E0156}\n\
VARIATION SELECTOR-104:\u{E0157}\n\
VARIATION SELECTOR-105:\u{E0158}\n\
VARIATION SELECTOR-106:\u{E0159}\n\
VARIATION SELECTOR-107:\u{E015A}\n\
VARIATION SELECTOR-108:\u{E015B}\n\
VARIATION SELECTOR-109:\u{E015C}\n\
VARIATION SELECTOR-110:\u{E015D}\n\
VARIATION SELECTOR-111:\u{E015E}\n\
VARIATION SELECTOR-112:\u{E015F}\n\
VARIATION SELECTOR-113:\u{E0160}\n\
VARIATION SELECTOR-114:\u{E0161}\n\
VARIATION SELECTOR-115:\u{E0162}\n\
VARIATION SELECTOR-116:\u{E0163}\n\
VARIATION SELECTOR-117:\u{E0164}\n\
VARIATION SELECTOR-118:\u{E0165}\n\
VARIATION SELECTOR-119:\u{E0166}\n\
VARIATION SELECTOR-120:\u{E0167}\n\
VARIATION SELECTOR-121:\u{E0168}\n\
VARIATION SELECTOR-122:\u{E0169}\n\
VARIATION SELECTOR-123:\u{E016A}\n\
VARIATION SELECTOR-124:\u{E016B}\n\
VARIATION SELECTOR-125:\u{E016C}\n\
VARIATION SELECTOR-126:\u{E016D}\n\
VARIATION SELECTOR-127:\u{E016E}\n\
VARIATION SELECTOR-128:\u{E016F}\n\
VARIATION SELECTOR-129:\u{E0170}\n\
VARIATION SELECTOR-130:\u{E0171}\n\
VARIATION SELECTOR-131:\u{E0172}\n\
VARIATION SELECTOR-132:\u{E0173}\n\
VARIATION SELECTOR-133:\u{E0174}\n\
VARIATION SELECTOR-134:\u{E0175}\n\
VARIATION SELECTOR-135:\u{E0176}\n\
VARIATION SELECTOR-136:\u{E0177}\n\
VARIATION SELECTOR-137:\u{E0178}\n\
VARIATION SELECTOR-138:\u{E0179}\n\
VARIATION SELECTOR-139:\u{E017A}\n\
VARIATION SELECTOR-140:\u{E017B}\n\
VARIATION SELECTOR-141:\u{E017C}\n\
VARIATION SELECTOR-142:\u{E017D}\n\
VARIATION SELECTOR-143:\u{E017E}\n\
VARIATION SELECTOR-144:\u{E017F}\n\
VARIATION SELECTOR-145:\u{E0180}\n\
VARIATION SELECTOR-146:\u{E0181}\n\
VARIATION SELECTOR-147:\u{E0182}\n\
VARIATION SELECTOR-148:\u{E0183}\n\
VARIATION SELECTOR-149:\u{E0184}\n\
VARIATION SELECTOR-150:\u{E0185}\n\
VARIATION SELECTOR-151:\u{E0186}\n\
VARIATION SELECTOR-152:\u{E0187}\n\
VARIATION SELECTOR-153:\u{E0188}\n\
VARIATION SELECTOR-154:\u{E0189}\n\
VARIATION SELECTOR-155:\u{E018A}\n\
VARIATION SELECTOR-156:\u{E018B}\n\
VARIATION SELECTOR-157:\u{E018C}\n\
VARIATION SELECTOR-158:\u{E018D}\n\
VARIATION SELECTOR-159:\u{E018E}\n\
VARIATION SELECTOR-160:\u{E018F}\n\
VARIATION SELECTOR-161:\u{E0190}\n\
VARIATION SELECTOR-162:\u{E0191}\n\
VARIATION SELECTOR-163:\u{E0192}\n\
VARIATION SELECTOR-164:\u{E0193}\n\
VARIATION SELECTOR-165:\u{E0194}\n\
VARIATION SELECTOR-166:\u{E0195}\n\
VARIATION SELECTOR-167:\u{E0196}\n\
VARIATION SELECTOR-168:\u{E0197}\n\
VARIATION SELECTOR-169:\u{E0198}\n\
VARIATION SELECTOR-170:\u{E0199}\n\
VARIATION SELECTOR-171:\u{E019A}\n\
VARIATION SELECTOR-172:\u{E019B}\n\
VARIATION SELECTOR-173:\u{E019C}\n\
VARIATION SELECTOR-174:\u{E019D}\n\
VARIATION SELECTOR-175:\u{E019E}\n\
VARIATION SELECTOR-176:\u{E019F}\n\
VARIATION SELECTOR-177:\u{E01A0}\n\
VARIATION SELECTOR-178:\u{E01A1}\n\
VARIATION SELECTOR-179:\u{E01A2}\n\
VARIATION SELECTOR-180:\u{E01A3}\n\
VARIATION SELECTOR-181:\u{E01A4}\n\
VARIATION SELECTOR-182:\u{E01A5}\n\
VARIATION SELECTOR-183:\u{E01A6}\n\
VARIATION SELECTOR-184:\u{E01A7}\n\
VARIATION SELECTOR-185:\u{E01A8}\n\
VARIATION SELECTOR-186:\u{E01A9}\n\
VARIATION SELECTOR-187:\u{E01AA}\n\
VARIATION SELECTOR-188:\u{E01AB}\n\
VARIATION SELECTOR-189:\u{E01AC}\n\
VARIATION SELECTOR-190:\u{E01AD}\n\
VARIATION SELECTOR-191:\u{E01AE}\n\
VARIATION SELECTOR-192:\u{E01AF}\n\
VARIATION SELECTOR-193:\u{E01B0}\n\
VARIATION SELECTOR-194:\u{E01B1}\n\
VARIATION SELECTOR-195:\u{E01B2}\n\
VARIATION SELECTOR-196:\u{E01B3}\n\
VARIATION SELECTOR-197:\u{E01B4}\n\
VARIATION SELECTOR-198:\u{E01B5}\n\
VARIATION SELECTOR-199:\u{E01B6}\n\
VARIATION SELECTOR-200:\u{E01B7}\n\
VARIATION SELECTOR-201:\u{E01B8}\n\
VARIATION SELECTOR-202:\u{E01B9}\n\
VARIATION SELECTOR-203:\u{E01BA}\n\
VARIATION SELECTOR-204:\u{E01BB}\n\
VARIATION SELECTOR-205:\u{E01BC}\n\
VARIATION SELECTOR-206:\u{E01BD}\n\
VARIATION SELECTOR-207:\u{E01BE}\n\
VARIATION SELECTOR-208:\u{E01BF}\n\
VARIATION SELECTOR-209:\u{E01C0}\n\
VARIATION SELECTOR-210:\u{E01C1}\n\
VARIATION SELECTOR-211:\u{E01C2}\n\
VARIATION SELECTOR-212:\u{E01C3}\n\
VARIATION SELECTOR-213:\u{E01C4}\n\
VARIATION SELECTOR-214:\u{E01C5}\n\
VARIATION SELECTOR-215:\u{E01C6}\n\
VARIATION SELECTOR-216:\u{E01C7}\n\
VARIATION SELECTOR-217:\u{E01C8}\n\
VARIATION SELECTOR-218:\u{E01C9}\n\
VARIATION SELECTOR-219:\u{E01CA}\n\
VARIATION SELECTOR-220:\u{E01CB}\n\
VARIATION SELECTOR-221:\u{E01CC}\n\
VARIATION SELECTOR-222:\u{E01CD}\n\
VARIATION SELECTOR-223:\u{E01CE}\n\
VARIATION SELECTOR-224:\u{E01CF}\n\
VARIATION SELECTOR-225:\u{E01D0}\n\
VARIATION SELECTOR-226:\u{E01D1}\n\
VARIATION SELECTOR-227:\u{E01D2}\n\
VARIATION SELECTOR-228:\u{E01D3}\n\
VARIATION SELECTOR-229:\u{E01D4}\n\
VARIATION SELECTOR-230:\u{E01D5}\n\
VARIATION SELECTOR-231:\u{E01D6}\n\
VARIATION SELECTOR-232:\u{E01D7}\n\
VARIATION SELECTOR-233:\u{E01D8}\n\
VARIATION SELECTOR-234:\u{E01D9}\n\
VARIATION SELECTOR-235:\u{E01DA}\n\
VARIATION SELECTOR-236:\u{E01DB}\n\
VARIATION SELECTOR-237:\u{E01DC}\n\
VARIATION SELECTOR-238:\u{E01DD}\n\
VARIATION SELECTOR-239:\u{E01DE}\n\
VARIATION SELECTOR-240:\u{E01DF}\n\
VARIATION SELECTOR-241:\u{E01E0}\n\
VARIATION SELECTOR-242:\u{E01E1}\n\
VARIATION SELECTOR-243:\u{E01E2}\n\
VARIATION SELECTOR-244:\u{E01E3}\n\
VARIATION SELECTOR-245:\u{E01E4}\n\
VARIATION SELECTOR-246:\u{E01E5}\n\
VARIATION SELECTOR-247:\u{E01E6}\n\
VARIATION SELECTOR-248:\u{E01E7}\n\
VARIATION SELECTOR-249:\u{E01E8}\n\
VARIATION SELECTOR-250:\u{E01E9}\n\
VARIATION SELECTOR-251:\u{E01EA}\n\
VARIATION SELECTOR-252:\u{E01EB}\n\
VARIATION SELECTOR-253:\u{E01EC}\n\
VARIATION SELECTOR-254:\u{E01ED}\n\
VARIATION SELECTOR-255:\u{E01EE}\n\
VARIATION SELECTOR-256:\u{E01EF}\n";

} // verus!

//! UUIDs written as text: five groups of hexadecimal digits between four dashes.
use vstd::prelude::*;
use std::num::ParseIntError;
use crate::nbt::snbt::de::integers::{parse_integer, u64_from_str_radix};
use crate::nbt::snbt::de::utils::{chars_of, string_from_chars};

verus! {

/// Why a text is not a UUID.
#[derive(Debug, PartialEq, Eq)]
pub enum UuidError {
    /// Longer than 36 bytes, or more than four dashes.
    StringTooBig,
    /// Only this many dashes.
    NotEnoughDashes(usize),
    /// A group that is not a hexadecimal `u64`.
    ParseIntError(ParseIntError),
}

/// The indices of the dashes in `s`, in order.
pub open spec fn dashes(s: Seq<char>) -> Seq<int>
    decreases s.len(),
{
    if s.len() == 0 {
        Seq::empty()
    } else if s.last() == '-' {
        dashes(s.drop_last()).push(s.len() - 1)
    } else {
        dashes(s.drop_last())
    }
}

/// The hexadecimal `u64` that the group `g` writes, if it writes one.
pub open spec fn hex_group(g: Seq<char>) -> Option<u64> {
    match parse_integer(g, 16, false) {
        Some(v) => if 0 <= v <= u64::MAX {
            Some(v as u64)
        } else {
            None
        },
        None => None,
    }
}

/// The group of `s` between dash number `k - 1` and dash number `k` (of the four dashes
/// `d`); the first group starts at the beginning and the last ends at the end.
pub open spec fn group(s: Seq<char>, d: Seq<int>, k: int) -> Seq<char> {
    let start = if k == 0 {
        0
    } else {
        d[k - 1] + 1
    };
    let end = if k == 4 {
        s.len() as int
    } else {
        d[k]
    };
    s.subrange(start, end)
}

/// What reading a UUID comes to.
pub enum UuidOutcome {
    Ints(i32, i32, i32, i32),
    StringTooBig,
    NotEnoughDashes(nat),
    InvalidGroup,
}

/// The four integers of a UUID: the first group keeps 32 bits, the second and third 16 bits
/// each, the fourth 16 bits and the fifth 48 bits; these 128 bits, most significant first,
/// are cut into four big-endian `i32`s.
pub open spec fn uuid_ints(v0: u64, v1: u64, v2: u64, v3: u64, v4: u64) -> UuidOutcome {
    let msb: u64 = (((v0 & 0xFFFF_FFFF) << 16u64 | (v1 & 0xFFFF)) << 16u64) | (v2 & 0xFFFF);
    let lsb: u64 = ((v3 & 0xFFFF) << 48u64) | (v4 & 0xFFFF_FFFF_FFFF);
    UuidOutcome::Ints(
        ((msb >> 32u64) as u32) as i32,
        (msb as u32) as i32,
        ((lsb >> 32u64) as u32) as i32,
        (lsb as u32) as i32,
    )
}

/// The UUID that the text `s` of `byte_len` bytes writes.
pub open spec fn uuid_outcome(s: Seq<char>, byte_len: nat) -> UuidOutcome {
    let d = dashes(s);
    if byte_len > 36 {
        UuidOutcome::StringTooBig
    } else if d.len() < 4 {
        UuidOutcome::NotEnoughDashes(d.len())
    } else if d.len() > 4 {
        UuidOutcome::StringTooBig
    } else {
        match (
            hex_group(group(s, d, 0)),
            hex_group(group(s, d, 1)),
            hex_group(group(s, d, 2)),
            hex_group(group(s, d, 3)),
            hex_group(group(s, d, 4)),
        ) {
            (Some(v0), Some(v1), Some(v2), Some(v3), Some(v4)) => uuid_ints(v0, v1, v2, v3, v4),
            _ => UuidOutcome::InvalidGroup,
        }
    }
}

impl UuidError {
    pub open spec fn outcome(self) -> UuidOutcome {
        match self {
            UuidError::StringTooBig => UuidOutcome::StringTooBig,
            UuidError::NotEnoughDashes(n) => UuidOutcome::NotEnoughDashes(n as nat),
            UuidError::ParseIntError(_) => UuidOutcome::InvalidGroup,
        }
    }
}

/// Reads the hexadecimal group `s[start..end]`.
fn read_group(s: &Vec<char>, start: usize, end: usize) -> (r: Result<u64, ParseIntError>)
    requires
        start <= end <= s@.len(),
    ensures
        match r {
            Ok(v) => hex_group(s@.subrange(start as int, end as int)) == Some(v),
            Err(_) => hex_group(s@.subrange(start as int, end as int)) is None,
        },
{
    let mut g: Vec<char> = Vec::new();
    let mut i = start;
    while i < end
        invariant
            start <= i <= end,
            end <= s@.len(),
            g@ == s@.subrange(start as int, i as int),
        decreases end - i,
    {
        g.push(s[i]);
        i = i + 1;
    }
    let text = string_from_chars(&g);
    u64_from_str_radix(text.as_str(), 16)
}

/// The indices of the first dashes of `s`, up to five of them.
fn find_dashes(s: &Vec<char>) -> (found: Vec<usize>)
    ensures
        found@.len() <= 5,
        found@.len() < 5 ==> found@.map_values(|x: usize| x as int) == dashes(s@),
        found@.len() == 5 ==> dashes(s@).len() > 4,
{
    let n = s.len();
    let mut found: Vec<usize> = Vec::new();
    let mut i: usize = 0;
    while i < n
        invariant
            i <= n,
            n == s@.len(),
            found@.len() <= 5,
            found@.len() < 5 ==> found@.map_values(|x: usize| x as int) == dashes(s@.take(i as int)),
            found@.len() == 5 ==> dashes(s@.take(i as int)).len() > 4,
        decreases n - i,
    {
        assert(s@.take(i + 1).drop_last() =~= s@.take(i as int));
        if s[i] == '-' && found.len() < 5 {
            found.push(i);
            assert(found@.map_values(|x: usize| x as int) =~= dashes(s@.take(i as int)).push(
                i as int,
            ));
        }
        i = i + 1;
        proof {
            if found@.len() == 5 {
                lemma_dashes_grow(s@.take(i as int), i - 1);
                assert(s@.take(i as int).take(i - 1) =~= s@.take(i - 1));
            }
        }
    }
    proof {
        if found@.len() == 5 {
            lemma_dashes_grow(s@, n as int);
        }
    }
    assert(s@.take(n as int) =~= s@);
    found
}

/// Reads a UUID written as five hexadecimal groups between four dashes. The dashes and
/// groups are found among the characters of `name`; its length is counted in bytes.
pub fn uuid_from_str(name: &str) -> (r: Result<[i32; 4], UuidError>)
    ensures
        match r {
            Ok(a) => uuid_outcome(name@, name.len() as nat) == UuidOutcome::Ints(
                a[0],
                a[1],
                a[2],
                a[3],
            ),
            Err(e) => uuid_outcome(name@, name.len() as nat) == e.outcome(),
        },
{
    // 32 hex digits + 4 dashes
    let len = name.len();
    if len > 36 {
        return Err(UuidError::StringTooBig);
    }
    let s = chars_of(name);
    let n = s.len();
    let ghost d = dashes(s@);
    let found = find_dashes(&s);
    if found.len() < 4 {
        return Err(UuidError::NotEnoughDashes(found.len()));
    }
    if found.len() > 4 {
        return Err(UuidError::StringTooBig);
    }
    proof {
        assert(found@.map_values(|x: usize| x as int) == d);
        lemma_dashes_ordered(s@);
    }
    let d1 = found[0];
    let d2 = found[1];
    let d3 = found[2];
    let d4 = found[3];
    assert(d1 == d[0] && d2 == d[1] && d3 == d[2] && d4 == d[3]);
    let v0 = match read_group(&s, 0, d1) {
        Ok(v) => v,
        Err(e) => {
            return Err(UuidError::ParseIntError(e));
        },
    };
    let v1 = match read_group(&s, d1 + 1, d2) {
        Ok(v) => v,
        Err(e) => {
            return Err(UuidError::ParseIntError(e));
        },
    };
    let v2 = match read_group(&s, d2 + 1, d3) {
        Ok(v) => v,
        Err(e) => {
            return Err(UuidError::ParseIntError(e));
        },
    };
    let v3 = match read_group(&s, d3 + 1, d4) {
        Ok(v) => v,
        Err(e) => {
            return Err(UuidError::ParseIntError(e));
        },
    };
    let v4 = match read_group(&s, d4 + 1, n) {
        Ok(v) => v,
        Err(e) => {
            return Err(UuidError::ParseIntError(e));
        },
    };
    let mut msb: u64 = v0 & 0xFFFF_FFFF;
    msb = msb << 16u64;
    msb = msb | (v1 & 0xFFFF);
    msb = msb << 16u64;
    msb = msb | (v2 & 0xFFFF);
    let mut lsb: u64 = v3 & 0xFFFF;
    lsb = lsb << 48u64;
    lsb = lsb | (v4 & 0xFFFF_FFFF_FFFF);
    let a = [
        ((msb >> 32u64) as u32) as i32,
        (msb as u32) as i32,
        ((lsb >> 32u64) as u32) as i32,
        (lsb as u32) as i32,
    ];
    Ok(a)
}

/// Once five dashes are found among the first `i` characters, the whole text has more than four.
proof fn lemma_dashes_grow(s: Seq<char>, i: int)
    requires
        0 <= i <= s.len(),
    ensures
        dashes(s.take(i)).len() <= dashes(s).len(),
    decreases s.len() - i,
{
    if i < s.len() {
        lemma_dashes_grow(s, i + 1);
        assert(s.take(i + 1).drop_last() =~= s.take(i));
    } else {
        assert(s.take(i) =~= s);
    }
}

/// The dashes are found in increasing order, within the text, and are dashes.
proof fn lemma_dashes_ordered(s: Seq<char>)
    ensures
        forall|k: int|
            0 <= k < dashes(s).len() ==> 0 <= #[trigger] dashes(s)[k] < s.len() && s[dashes(s)[k]]
                == '-',
        forall|k: int, m: int| 0 <= k < m < dashes(s).len() ==> dashes(s)[k] < dashes(s)[m],
    decreases s.len(),
{
    if s.len() > 0 {
        let p = s.drop_last();
        lemma_dashes_ordered(p);
        assert forall|k: int| 0 <= k < dashes(s).len() implies 0 <= #[trigger] dashes(s)[k] < s.len()
            && s[dashes(s)[k]] == '-' by {
            if k < dashes(p).len() {
                assert(dashes(s)[k] == dashes(p)[k]);
                assert(s[dashes(p)[k]] == p[dashes(p)[k]]);
            }
        }
        assert forall|k: int, m: int| 0 <= k < m < dashes(s).len() implies dashes(s)[k]
            < dashes(s)[m] by {
            assert(dashes(s)[k] == dashes(p)[k]);
            if m < dashes(p).len() {
                assert(dashes(s)[m] == dashes(p)[m]);
            }
        }
    }
}

} // verus!

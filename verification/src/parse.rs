use vstd::prelude::*;
use vstd::string::StrSliceExecFns;

use crate::text::chars_of;

verus! {

/// The characters that `char::is_whitespace` accepts (Unicode `White_Space`).
pub open spec fn is_white_space(c: char) -> bool {
    let u = c as u32;
    ||| 0x09 <= u <= 0x0d
    ||| u == 0x20
    ||| u == 0x85
    ||| u == 0xa0
    ||| u == 0x1680
    ||| 0x2000 <= u <= 0x200a
    ||| u == 0x2028
    ||| u == 0x2029
    ||| u == 0x202f
    ||| u == 0x205f
    ||| u == 0x3000
}

/// `s` without its leading and trailing white space, as `str::trim` returns it.
pub open spec fn trimmed(s: Seq<char>) -> Seq<char>
    decreases s.len(),
{
    if s.len() > 0 && is_white_space(s[0]) {
        trimmed(s.drop_first())
    } else if s.len() > 0 && is_white_space(s.last()) {
        trimmed(s.drop_last())
    } else {
        s
    }
}

/// `c` is one of the ASCII digits `'0'..='9'`.
pub open spec fn is_digit(c: char) -> bool {
    0x30 <= c as u32 <= 0x39
}

/// Every character of `d` is an ASCII digit.
pub open spec fn all_digits(d: Seq<char>) -> bool {
    forall|i: int| 0 <= i < d.len() ==> is_digit(#[trigger] d[i])
}

/// The number that the decimal digits `d` write.
pub open spec fn digits_value(d: Seq<char>) -> nat
    decreases d.len(),
{
    if d.len() == 0 {
        0
    } else {
        10 * digits_value(d.drop_last()) + ((d.last() as u32 - 0x30) as nat)
    }
}

/// The digits of an unsigned number: an optional leading `'+'` is not part of them.
pub open spec fn unsigned_digits(s: Seq<char>) -> Seq<char> {
    if s.len() > 0 && s[0] == '+' {
        s.drop_first()
    } else {
        s
    }
}

/// What `u32::from_str` gives for `s`: an optional `'+'` and then one or more ASCII
/// digits whose value fits in a `u32`; anything else is an error.
pub open spec fn decimal_u32(s: Seq<char>) -> Option<u32> {
    let d = unsigned_digits(s);
    if d.len() > 0 && all_digits(d) && digits_value(d) <= u32::MAX {
        Some(digits_value(d) as u32)
    } else {
        None
    }
}

/// What `i32::from_str` gives for `s`: an optional `'+'` or `'-'` and then one or more
/// ASCII digits whose signed value fits in an `i32`; anything else is an error.
pub open spec fn decimal_i32(s: Seq<char>) -> Option<i32> {
    if s.len() > 0 && s[0] == '-' {
        let d = s.drop_first();
        if d.len() > 0 && all_digits(d) && digits_value(d) <= 0x8000_0000 {
            Some((0 - digits_value(d)) as i32)
        } else {
            None
        }
    } else {
        let d = unsigned_digits(s);
        if d.len() > 0 && all_digits(d) && digits_value(d) <= i32::MAX {
            Some(digits_value(d) as i32)
        } else {
            None
        }
    }
}

fn white_space(c: char) -> (b: bool)
    ensures
        b == is_white_space(c),
{
    let u = c as u32;
    (0x09 <= u && u <= 0x0d) || u == 0x20 || u == 0x85 || u == 0xa0 || u == 0x1680 || (0x2000
        <= u && u <= 0x200a) || u == 0x2028 || u == 0x2029 || u == 0x202f || u == 0x205f || u
        == 0x3000
}

/// Trimming `s[lo..hi]` where nothing before `lo` and nothing from `hi` on is kept.
proof fn lemma_trimmed_range(s: Seq<char>, lo: int, hi: int)
    requires
        0 <= lo <= hi <= s.len(),
        forall|j: int| 0 <= j < lo ==> is_white_space(#[trigger] s[j]),
        forall|j: int| hi <= j < s.len() ==> is_white_space(#[trigger] s[j]),
        lo < hi ==> !is_white_space(s[lo]) && !is_white_space(s[hi - 1]),
    ensures
        trimmed(s) == s.subrange(lo, hi),
    decreases s.len(),
{
    if s.len() > 0 && is_white_space(s[0]) {
        assert(lo > 0 || hi == 0);
        if lo > 0 {
            lemma_trimmed_range(s.drop_first(), lo - 1, hi - 1);
            assert(s.drop_first().subrange(lo - 1, hi - 1) =~= s.subrange(lo, hi));
        } else {
            lemma_trimmed_range(s.drop_first(), 0, 0);
            assert(s.drop_first().subrange(0, 0) =~= s.subrange(lo, hi));
        }
    } else if s.len() > 0 && is_white_space(s.last()) {
        assert(hi < s.len());
        lemma_trimmed_range(s.drop_last(), lo, hi);
        assert(s.drop_last().subrange(lo, hi) =~= s.subrange(lo, hi));
    } else {
        if lo < hi {
            assert(lo == 0 && hi == s.len());
        } else {
            assert(s.len() == 0);
        }
        assert(s.subrange(lo, hi) =~= s);
    }
}

/// `s` without leading and trailing white space.
pub fn trim(s: &str) -> (r: &str)
    ensures
        r@ == trimmed(s@),
{
    let chars = chars_of(s);
    let n = chars.len();
    let mut lo: usize = 0;
    while lo < n && white_space(chars[lo])
        invariant
            lo <= n,
            n == chars.len(),
            forall|j: int| 0 <= j < lo ==> is_white_space(#[trigger] chars@[j]),
        decreases n - lo,
    {
        lo = lo + 1;
    }
    let mut hi: usize = n;
    while hi > lo && white_space(chars[hi - 1])
        invariant
            lo <= hi <= n,
            n == chars.len(),
            forall|j: int| hi <= j < n ==> is_white_space(#[trigger] chars@[j]),
        decreases hi - lo,
    {
        hi = hi - 1;
    }
    proof {
        if lo < hi {
            assert(!is_white_space(chars@[lo as int]));
        }
        lemma_trimmed_range(s@, lo as int, hi as int);
    }
    s.substring_char(lo, hi)
}

proof fn lemma_digits_value_step(d: Seq<char>, i: int)
    requires
        0 <= i < d.len(),
    ensures
        digits_value(d.take(i + 1)) == 10 * digits_value(d.take(i)) + ((d[i] as u32 - 0x30) as nat),
{
    assert(d.take(i + 1).drop_last() =~= d.take(i));
}

/// The value of the digits `d[start..]` when they are all ASCII digits, capped at
/// `limit + 1`; `None` when one is not a digit or there are none.
fn capped_digits(d: &Vec<char>, start: usize, limit: u64) -> (r: Option<u64>)
    requires
        start <= d.len(),
        limit < 0x1_0000_0000,
    ensures
        ({
            let ds = d@.subrange(start as int, d.len() as int);
            match r {
                Some(v) => ds.len() > 0 && all_digits(ds) && (if digits_value(ds) <= limit {
                    v == digits_value(ds)
                } else {
                    v == limit + 1
                }),
                None => !(ds.len() > 0 && all_digits(ds)),
            }
        }),
{
    let ghost ds = d@.subrange(start as int, d.len() as int);
    let n = d.len();
    if start == n {
        return None;
    }
    let mut value: u64 = 0;
    let mut i = start;
    while i < n
        invariant
            start <= i <= n,
            n == d.len(),
            limit < 0x1_0000_0000,
            ds == d@.subrange(start as int, n as int),
            all_digits(ds.take(i - start)),
            value == if digits_value(ds.take(i - start)) <= limit {
                digits_value(ds.take(i - start)) as int
            } else {
                limit + 1
            },
        decreases n - i,
    {
        let c = d[i];
        let u = c as u32;
        if !(0x30 <= u && u <= 0x39) {
            assert(!is_digit(ds[i - start]));
            return None;
        }
        proof {
            lemma_digits_value_step(ds, i - start);
            assert(ds.take(i - start + 1) =~= ds.take(i - start).push(c));
        }
        let next = value * 10 + (u - 0x30) as u64;
        value = if next > limit {
            limit + 1
        } else {
            next
        };
        i = i + 1;
    }
    assert(ds.take(n - start) =~= ds);
    Some(value)
}

/// Parses `s` as `u32::from_str` does.
pub fn parse_u32(s: &str) -> (r: Option<u32>)
    ensures
        r == decimal_u32(s@),
{
    let d = chars_of(s);
    let start: usize = if d.len() > 0 && d[0] == '+' {
        1
    } else {
        0
    };
    assert(d@.subrange(start as int, d.len() as int) =~= unsigned_digits(s@));
    match capped_digits(&d, start, 0xffff_ffff) {
        Some(v) => {
            if v <= 0xffff_ffff {
                Some(v as u32)
            } else {
                None
            }
        },
        None => None,
    }
}

/// Parses `s` as `i32::from_str` does.
pub fn parse_i32(s: &str) -> (r: Option<i32>)
    ensures
        r == decimal_i32(s@),
{
    let d = chars_of(s);
    if d.len() > 0 && d[0] == '-' {
        assert(d@.subrange(1, d.len() as int) =~= s@.drop_first());
        match capped_digits(&d, 1, 0x8000_0000) {
            Some(v) => {
                if v <= 0x8000_0000 {
                    Some((0 - (v as i64)) as i32)
                } else {
                    None
                }
            },
            None => None,
        }
    } else {
        let start: usize = if d.len() > 0 && d[0] == '+' {
            1
        } else {
            0
        };
        assert(d@.subrange(start as int, d.len() as int) =~= unsigned_digits(s@));
        match capped_digits(&d, start, 0x7fff_ffff) {
            Some(v) => {
                if v <= 0x7fff_ffff {
                    Some(v as i32)
                } else {
                    None
                }
            },
            None => None,
        }
    }
}

} // verus!

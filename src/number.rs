//! Decimal numbers as `str::parse` reads them, and duration literals.

use vstd::prelude::*;
use vstd::string::*;
use crate::text::{trim, trim_str};

verus! {

/// `c` is an ASCII decimal digit.
pub open spec fn is_digit(c: char) -> bool {
    '0' <= c && c <= '9'
}

/// Every character of `d` is a decimal digit.
pub open spec fn all_digits(d: Seq<char>) -> bool {
    forall|i: int| 0 <= i < d.len() ==> is_digit(#[trigger] d[i])
}

/// The value of the decimal digits `d`, most significant first.
pub open spec fn digits_value(d: Seq<char>) -> nat
    decreases d.len(),
{
    if d.len() == 0 {
        0
    } else {
        digits_value(d.drop_last()) * 10 + (d.last() as nat - '0' as nat) as nat
    }
}

/// The digits of an unsigned literal: an optional leading `+` is dropped.
pub open spec fn unsigned_digits(s: Seq<char>) -> Seq<char> {
    if s.len() > 0 && s[0] == '+' {
        s.skip(1)
    } else {
        s
    }
}

/// What `str::parse` gives for an unsigned integer type whose largest value is
/// `max`: one or more digits after an optional `+`, with a value of at most `max`.
pub open spec fn parse_unsigned(s: Seq<char>, max: nat) -> Option<nat> {
    let d = unsigned_digits(s);
    if d.len() > 0 && all_digits(d) && digits_value(d) <= max {
        Some(digits_value(d))
    } else {
        None
    }
}

/// What `str::parse::<i8>` gives: an optional sign, then one or more digits,
/// with a value in `-128..=127`.
pub open spec fn parse_i8_spec(s: Seq<char>) -> Option<int> {
    if s.len() > 0 && s[0] == '-' {
        let d = s.skip(1);
        if d.len() > 0 && all_digits(d) && digits_value(d) <= 128 {
            Some(-(digits_value(d) as int))
        } else {
            None
        }
    } else {
        match parse_unsigned(s, 127) {
            Some(v) => Some(v as int),
            None => None,
        }
    }
}

proof fn lemma_prefix_value_le(d: Seq<char>, k: int)
    requires
        all_digits(d),
        0 <= k <= d.len(),
    ensures
        digits_value(d.take(k)) <= digits_value(d),
    decreases d.len(),
{
    if k < d.len() {
        assert(d.take(k) =~= d.drop_last().take(k));
        lemma_prefix_value_le(d.drop_last(), k);
    } else {
        assert(d.take(k) =~= d);
    }
}

/// Reads the digits `s[start..]` as a number of at most `max`.
fn parse_digits(s: &str, start: usize, max: u64) -> (r: Option<u64>)
    requires
        start <= s@.len(),
        max <= u32::MAX,
    ensures
        r == (if s@.len() > start && all_digits(s@.skip(start as int)) && digits_value(s@.skip(start as int)) <= max {
            Some(digits_value(s@.skip(start as int)) as u64)
        } else {
            None::<u64>
        }),
{
    let n = s.unicode_len();
    if n == start {
        return None;
    }
    let ghost d = s@.skip(start as int);
    let mut acc: u64 = 0;
    let mut i: usize = start;
    assert(d.take(0) =~= Seq::<char>::empty());
    while i < n
        invariant
            n == s@.len(),
            start <= i <= n,
            d == s@.skip(start as int),
            all_digits(d.take(i - start)),
            acc == digits_value(d.take(i - start)),
            acc <= max,
            max <= u32::MAX,
        decreases n - i,
    {
        let c = s.get_char(i);
        if !('0' <= c && c <= '9') {
            assert(d[i - start] == c);
            return None;
        }
        let next: u64 = acc * 10 + (c as u64 - '0' as u64);
        assert(d.take(i + 1 - start).drop_last() =~= d.take(i - start));
        assert(d.take(i + 1 - start).last() == c);
        assert(all_digits(d.take(i + 1 - start))) by {
            assert forall|k: int| 0 <= k < d.take(i + 1 - start).len() implies is_digit(
                #[trigger] d.take(i + 1 - start)[k],
            ) by {
                if k < i - start {
                    assert(d.take(i + 1 - start)[k] == d.take(i - start)[k]);
                }
            }
        }
        if next > max {
            proof {
                if all_digits(d) {
                    lemma_prefix_value_le(d, (i + 1 - start) as int);
                }
            }
            return None;
        }
        acc = next;
        i = i + 1;
    }
    assert(d.take(i - start) =~= d);
    Some(acc)
}

/// Parses an unsigned decimal of at most `max`, as `str::parse` does for an
/// unsigned integer type.
pub fn parse_unsigned_max(s: &str, max: u64) -> (r: Option<u64>)
    requires
        max <= u32::MAX,
    ensures
        r == (match parse_unsigned(s@, max as nat) {
            Some(v) => Some(v as u64),
            None => None::<u64>,
        }),
{
    let n = s.unicode_len();
    if n > 0 && s.get_char(0) == '+' {
        parse_digits(s, 1, max)
    } else {
        assert(s@.skip(0) =~= s@);
        parse_digits(s, 0, max)
    }
}

/// Parses a `u32`, as `str::parse::<u32>` does.
pub fn parse_u32(s: &str) -> (r: Option<u32>)
    ensures
        r == (match parse_unsigned(s@, u32::MAX as nat) {
            Some(v) => Some(v as u32),
            None => None::<u32>,
        }),
{
    match parse_unsigned_max(s, 4294967295) {
        Some(v) => Some(v as u32),
        None => None,
    }
}

/// Parses a `u8`, as `str::parse::<u8>` does.
pub fn parse_u8(s: &str) -> (r: Option<u8>)
    ensures
        r == (match parse_unsigned(s@, u8::MAX as nat) {
            Some(v) => Some(v as u8),
            None => None::<u8>,
        }),
{
    match parse_unsigned_max(s, 255) {
        Some(v) => Some(v as u8),
        None => None,
    }
}

/// Parses an `i8`, as `str::parse::<i8>` does.
pub fn parse_i8(s: &str) -> (r: Option<i8>)
    ensures
        r == (match parse_i8_spec(s@) {
            Some(v) => Some(v as i8),
            None => None::<i8>,
        }),
{
    let n = s.unicode_len();
    if n > 0 && s.get_char(0) == '-' {
        match parse_digits(s, 1, 128) {
            Some(v) => Some((0 - v as i16) as i8),
            None => None,
        }
    } else {
        match parse_unsigned_max(s, 127) {
            Some(v) => Some(v as i8),
            None => None,
        }
    }
}

/// `n` seconds taken `k` times, held at `u32::MAX`.
pub open spec fn scaled(n: Seq<char>, k: nat) -> u32 {
    match parse_unsigned(n, u32::MAX as nat) {
        Some(v) => if v * k > u32::MAX { u32::MAX } else { (v * k) as u32 },
        None => 0,
    }
}

/// The seconds a duration literal stands for: a number with an optional
/// suffix `d`, `h`, `m` or `s` (none means seconds), surrounding white space
/// ignored. An empty or unreadable number counts as zero; a value too large
/// for `u32` is held at `u32::MAX`.
pub open spec fn time_value(s: Seq<char>) -> u32 {
    let t = trim(s);
    if t.len() == 0 {
        0
    } else if t.last() == 'd' {
        scaled(t.drop_last(), 86400)
    } else if t.last() == 'h' {
        scaled(t.drop_last(), 3600)
    } else if t.last() == 'm' {
        scaled(t.drop_last(), 60)
    } else if t.last() == 's' {
        scaled(t.drop_last(), 1)
    } else {
        scaled(t, 1)
    }
}

fn scale(n: &str, k: u64) -> (r: u32)
    requires
        1 <= k <= 86400,
    ensures
        r == scaled(n@, k as nat),
{
    match parse_u32(n) {
        Some(v) => {
            assert((v as u64) * k <= 4294967295u64 * 86400) by (nonlinear_arith)
                requires
                    v <= 4294967295u64,
                    k <= 86400,
            ;
            let total: u64 = v as u64 * k;
            if total > 4294967295 {
                4294967295
            } else {
                total as u32
            }
        },
        None => 0,
    }
}

/// Parses a duration literal into seconds (see `time_value`).
pub fn parse_time_value(s: &str) -> (r: u32)
    ensures
        r == time_value(s@),
{
    let t = trim_str(s);
    let n = t.unicode_len();
    if n == 0 {
        return 0;
    }
    let last = t.get_char(n - 1);
    let body = t.substring_char(0, n - 1);
    assert(body@ =~= t@.drop_last());
    if last == 'd' {
        scale(body, 86400)
    } else if last == 'h' {
        scale(body, 3600)
    } else if last == 'm' {
        scale(body, 60)
    } else if last == 's' {
        scale(body, 1)
    } else {
        scale(t, 1)
    }
}

} // verus!

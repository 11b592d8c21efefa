//! The contact filter language: comma-separated clauses, all of which must
//! hold of a contact for it to be selected.
//!
//! `t=<n>` device-type code; `d` direct-reachable (path length at least 0);
//! `f` flood only (path length at most -1); `h>n`, `h<n`, `h=n` hop bounds;
//! `u<T` last modified less than `T` ago (after `now - T`), `u>T` last
//! modified more than `T` ago (before `now - T`), where `T` is a duration
//! literal. `all` and empty clauses do nothing; unknown clauses and
//! unreadable numbers are ignored rather than refused. A later clause on the
//! same bound replaces an earlier one.

use vstd::prelude::*;
use vstd::string::*;
use crate::contact::Contact;
use crate::number::{parse_i8, parse_i8_spec, parse_u8, parse_unsigned, parse_time_value, time_value};
use crate::text::{str_eq, trim, trim_str};

verus! {

/// The constraints a filter puts on contacts; `None` leaves a field free.
#[derive(Debug, Clone, Copy, PartialEq, Eq)]
pub struct FilterExpression {
    /// Exact device-type code.
    pub contact_type: Option<u8>,
    /// Least outbound path length.
    pub min_hops: Option<i16>,
    /// Greatest outbound path length.
    pub max_hops: Option<i16>,
    /// Last modified strictly before this time.
    pub upd_before: Option<u32>,
    /// Last modified strictly after this time.
    pub upd_after: Option<u32>,
}

/// The filter that selects every contact.
pub open spec fn no_constraints() -> FilterExpression {
    FilterExpression { contact_type: None, min_hops: None, max_hops: None, upd_before: None, upd_after: None }
}

/// The argument of a two-character clause head such as `t=`.
pub open spec fn has_head(t: Seq<char>, a: char, b: char) -> bool {
    t.len() >= 2 && t[0] == a && t[1] == b
}

/// `now - secs`, held at zero.
pub open spec fn ago(now: u32, secs: u32) -> u32 {
    if secs > now { 0 } else { (now - secs) as u32 }
}

/// `v + d` for a parsed hop count, if there is one.
pub open spec fn shifted(v: Option<int>, d: int) -> Option<i16> {
    match v {
        Some(x) => Some((x + d) as i16),
        None => None,
    }
}

/// `f` after the clause `raw` (surrounding white space ignored), read at time `now`.
pub open spec fn apply_clause(f: FilterExpression, raw: Seq<char>, now: u32) -> FilterExpression {
    let t = trim(raw);
    if t.len() == 0 || t == "all"@ {
        f
    } else if has_head(t, 't', '=') {
        FilterExpression {
            contact_type: match parse_unsigned(t.skip(2), 255) {
                Some(v) => Some(v as u8),
                None => None,
            },
            ..f
        }
    } else if t == seq!['d'] {
        FilterExpression { min_hops: Some(0i16), ..f }
    } else if t == seq!['f'] {
        FilterExpression { max_hops: Some(-1i16), ..f }
    } else if has_head(t, 'h', '>') {
        FilterExpression { min_hops: shifted(parse_i8_spec(t.skip(2)), 1), ..f }
    } else if has_head(t, 'h', '<') {
        FilterExpression { max_hops: shifted(parse_i8_spec(t.skip(2)), -1), ..f }
    } else if has_head(t, 'h', '=') {
        FilterExpression {
            min_hops: shifted(parse_i8_spec(t.skip(2)), 0),
            max_hops: shifted(parse_i8_spec(t.skip(2)), 0),
            ..f
        }
    } else if has_head(t, 'u', '<') {
        FilterExpression { upd_after: Some(ago(now, time_value(t.skip(2)))), ..f }
    } else if has_head(t, 'u', '>') {
        FilterExpression { upd_before: Some(ago(now, time_value(t.skip(2)))), ..f }
    } else {
        f
    }
}

/// The index of the first `,` at or after `k`, or `s.len()` when there is none.
pub open spec fn next_comma(s: Seq<char>, k: int) -> int
    decreases s.len() - k,
{
    if k >= s.len() {
        s.len() as int
    } else if s[k] == ',' {
        k
    } else {
        next_comma(s, k + 1)
    }
}

/// `f` after the clauses of `s` from position `start` on, applied left to right.
pub open spec fn apply_from(f: FilterExpression, s: Seq<char>, start: int, now: u32) -> FilterExpression
    decreases s.len() - start,
{
    if start > s.len() {
        f
    } else {
        let j = if next_comma(s, start) < start { start } else { next_comma(s, start) };
        let e = if j > s.len() { s.len() as int } else { j };
        let g = apply_clause(f, s.subrange(start, e), now);
        if j >= s.len() {
            g
        } else {
            apply_from(g, s, j + 1, now)
        }
    }
}

/// The filter that the text `s` denotes at time `now`.
pub open spec fn filter_of(s: Seq<char>, now: u32) -> FilterExpression {
    apply_from(no_constraints(), s, 0, now)
}

/// `c` meets every constraint of `f`.
pub open spec fn selects(f: FilterExpression, c: Contact) -> bool {
    &&& (f.contact_type matches Some(t) ==> c.device_type.spec_code() == t)
    &&& (f.min_hops matches Some(m) ==> c.out_path_len as int >= m as int)
    &&& (f.max_hops matches Some(m) ==> c.out_path_len as int <= m as int)
    &&& (f.upd_before matches Some(b) ==> c.last_modified < b)
    &&& (f.upd_after matches Some(a) ==> c.last_modified > a)
}

proof fn lemma_next_comma_ge(s: Seq<char>, k: int)
    requires
        0 <= k,
    ensures
        k <= s.len() ==> k <= next_comma(s, k) <= s.len(),
        next_comma(s, k) < s.len() ==> s[next_comma(s, k)] == ',',
    decreases s.len() - k,
{
    if k < s.len() && s[k] != ',' {
        lemma_next_comma_ge(s, k + 1);
    }
}

fn shift(v: Option<i8>, d: i16) -> (r: Option<i16>)
    requires
        -1 <= d <= 1,
    ensures
        r == shifted(
            match v {
                Some(x) => Some(x as int),
                None => None::<int>,
            },
            d as int,
        ),
{
    match v {
        Some(x) => Some(x as i16 + d),
        None => None,
    }
}

fn saturating_ago(now: u32, secs: u32) -> (r: u32)
    ensures
        r == ago(now, secs),
{
    if secs > now { 0 } else { now - secs }
}

impl FilterExpression {
    /// The filter that selects every contact.
    pub fn new() -> (r: FilterExpression)
        ensures
            r == no_constraints(),
    {
        FilterExpression { contact_type: None, min_hops: None, max_hops: None, upd_before: None, upd_after: None }
    }

    /// Applies one clause, read at time `now`.
    pub fn apply_clause(&mut self, raw: &str, now: u32)
        ensures
            *final(self) == apply_clause(*old(self), raw@, now),
    {
        let t = trim_str(raw);
        let n = t.unicode_len();
        if n == 0 || str_eq(t, "all") {
            return;
        }
        let c0 = t.get_char(0);
        if n == 1 {
            if c0 == 'd' {
                assert(t@ =~= seq!['d']);
                self.min_hops = Some(0);
            } else if c0 == 'f' {
                assert(t@ =~= seq!['f']);
                self.max_hops = Some(-1);
            } else {
                assert(t@ != seq!['d'] && t@ != seq!['f']);
            }
            return;
        }
        assert(t@ != seq!['d'] && t@ != seq!['f']);
        let c1 = t.get_char(1);
        let arg = t.substring_char(2, n);
        assert(arg@ =~= t@.skip(2));
        if c0 == 't' && c1 == '=' {
            self.contact_type = parse_u8(arg);
        } else if c0 == 'h' && c1 == '>' {
            self.min_hops = shift(parse_i8(arg), 1);
        } else if c0 == 'h' && c1 == '<' {
            self.max_hops = shift(parse_i8(arg), -1);
        } else if c0 == 'h' && c1 == '=' {
            let v = parse_i8(arg);
            self.min_hops = shift(v, 0);
            self.max_hops = shift(v, 0);
        } else if c0 == 'u' && c1 == '<' {
            self.upd_after = Some(saturating_ago(now, parse_time_value(arg)));
        } else if c0 == 'u' && c1 == '>' {
            self.upd_before = Some(saturating_ago(now, parse_time_value(arg)));
        }
    }

    /// Whether `c` meets every constraint.
    pub fn selects(&self, c: &Contact) -> (r: bool)
        ensures
            r == selects(*self, *c),
    {
        if let Some(t) = self.contact_type {
            if c.device_type.code() != t {
                return false;
            }
        }
        if let Some(m) = self.min_hops {
            if (c.out_path_len as i16) < m {
                return false;
            }
        }
        if let Some(m) = self.max_hops {
            if (c.out_path_len as i16) > m {
                return false;
            }
        }
        if let Some(b) = self.upd_before {
            if c.last_modified >= b {
                return false;
            }
        }
        if let Some(a) = self.upd_after {
            if c.last_modified <= a {
                return false;
            }
        }
        true
    }
}

/// Reads a filter text at time `now` (Unix seconds).
pub fn parse_filter(text: &str, now: u32) -> (r: FilterExpression)
    ensures
        r == filter_of(text@, now),
{
    let n = text.unicode_len();
    let mut f = FilterExpression::new();
    let mut start: usize = 0;
    loop
        invariant
            n == text@.len(),
            start <= n,
            filter_of(text@, now) == apply_from(f, text@, start as int, now),
        decreases n - start,
    {
        let mut k: usize = start;
        while k < n && text.get_char(k) != ','
            invariant
                n == text@.len(),
                start <= k <= n,
                next_comma(text@, start as int) == next_comma(text@, k as int),
            decreases n - k,
        {
            k = k + 1;
        }
        proof {
            lemma_next_comma_ge(text@, start as int);
        }
        assert(next_comma(text@, k as int) == k);
        let clause = text.substring_char(start, k);
        f.apply_clause(clause, now);
        if k == n {
            return f;
        }
        start = k + 1;
    }
}

/// The positions, in order, of the contacts that `f` selects.
pub fn select(contacts: &Vec<Contact>, f: &FilterExpression) -> (r: Vec<usize>)
    ensures
        forall|k: int| 0 <= k < r@.len() ==> #[trigger] r@[k] < contacts@.len() && selects(*f, contacts@[r@[k] as int]),
        forall|k: int, l: int| 0 <= k < l < r@.len() ==> r@[k] < r@[l],
        forall|i: int| 0 <= i < contacts@.len() && selects(*f, #[trigger] contacts@[i]) ==> exists|k: int| 0 <= k < r@.len() && r@[k] == i,
{
    let mut r: Vec<usize> = Vec::new();
    let n = contacts.len();
    let mut i: usize = 0;
    while i < n
        invariant
            n == contacts@.len(),
            i <= n,
            forall|k: int| 0 <= k < r@.len() ==> #[trigger] r@[k] < i && selects(*f, contacts@[r@[k] as int]),
            forall|k: int, l: int| 0 <= k < l < r@.len() ==> r@[k] < r@[l],
            forall|j: int| 0 <= j < i && selects(*f, #[trigger] contacts@[j]) ==> exists|k: int| 0 <= k < r@.len() && r@[k] == j,
        decreases n - i,
    {
        let ghost before = r@;
        if f.selects(&contacts[i]) {
            r.push(i);
            assert(r@[r@.len() - 1] == i);
            assert forall|j: int| 0 <= j < i && selects(*f, #[trigger] contacts@[j]) implies exists|k: int|
                0 <= k < r@.len() && r@[k] == j by {
                let k = choose|k: int| 0 <= k < before.len() && before[k] == j;
                assert(r@[k] == j);
            }
        }
        i = i + 1;
    }
    r
}

} // verus!

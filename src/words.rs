//! Splitting text into white-space separated words, and joining words.

use vstd::prelude::*;
use vstd::string::*;
use crate::text::{is_whitespace, white_space};

verus! {

/// The first position at or after `k` whose character is not white space,
/// or `s.len()`.
pub open spec fn skip_space(s: Seq<char>, k: int) -> int
    decreases s.len() - k,
{
    if k >= s.len() {
        s.len() as int
    } else if !white_space(s[k]) {
        k
    } else {
        skip_space(s, k + 1)
    }
}

/// The first position at or after `k` whose character is white space, or `s.len()`.
pub open spec fn skip_word(s: Seq<char>, k: int) -> int
    decreases s.len() - k,
{
    if k >= s.len() {
        s.len() as int
    } else if white_space(s[k]) {
        k
    } else {
        skip_word(s, k + 1)
    }
}

/// The words of `s` from position `k` on, as `str::split_whitespace` yields them.
pub open spec fn words_from(s: Seq<char>, k: int) -> Seq<Seq<char>>
    decreases s.len() - k,
{
    let a = skip_space(s, k);
    if k < 0 || k >= s.len() || a >= s.len() || a < k {
        Seq::empty()
    } else {
        let b = skip_word(s, a);
        if b <= a || b > s.len() {
            Seq::empty()
        } else {
            seq![s.subrange(a, b)] + words_from(s, b)
        }
    }
}

/// The words of `s`.
pub open spec fn words(s: Seq<char>) -> Seq<Seq<char>> {
    words_from(s, 0)
}

/// The views of `v`'s strings.
pub open spec fn views(v: Seq<String>) -> Seq<Seq<char>> {
    v.map_values(|x: String| x@)
}

/// `ws` joined with single spaces.
pub open spec fn joined(ws: Seq<Seq<char>>) -> Seq<char>
    decreases ws.len(),
{
    if ws.len() == 0 {
        Seq::empty()
    } else if ws.len() == 1 {
        ws[0]
    } else {
        joined(ws.drop_last()) + seq![' '] + ws.last()
    }
}

proof fn lemma_skip_space(s: Seq<char>, k: int)
    requires
        0 <= k <= s.len(),
    ensures
        k <= skip_space(s, k) <= s.len(),
        skip_space(s, k) < s.len() ==> !white_space(s[skip_space(s, k)]),
    decreases s.len() - k,
{
    if k < s.len() && white_space(s[k]) {
        lemma_skip_space(s, k + 1);
    }
}

proof fn lemma_skip_word(s: Seq<char>, k: int)
    requires
        0 <= k <= s.len(),
    ensures
        k <= skip_word(s, k) <= s.len(),
    decreases s.len() - k,
{
    if k < s.len() && !white_space(s[k]) {
        lemma_skip_word(s, k + 1);
    }
}

/// Splits `s` at white space, dropping empty pieces.
pub fn split_words(s: &str) -> (r: Vec<String>)
    ensures
        views(r@) == words(s@),
{
    let n = s.unicode_len();
    let mut r: Vec<String> = Vec::new();
    let mut k: usize = 0;
    loop
        invariant
            n == s@.len(),
            k <= n,
            words(s@) == views(r@) + words_from(s@, k as int),
        decreases n - k,
    {
        let ghost k0 = k;
        let mut a: usize = k;
        while a < n && is_whitespace(s.get_char(a))
            invariant
                n == s@.len(),
                k <= a <= n,
                skip_space(s@, k as int) == skip_space(s@, a as int),
            decreases n - a,
        {
            a = a + 1;
        }
        proof {
            lemma_skip_space(s@, k as int);
        }
        if a == n {
            assert(words_from(s@, k as int) =~= Seq::<Seq<char>>::empty());
            assert(views(r@) + words_from(s@, k as int) =~= views(r@));
            return r;
        }
        let mut b: usize = a;
        while b < n && !is_whitespace(s.get_char(b))
            invariant
                n == s@.len(),
                a <= b <= n,
                skip_word(s@, a as int) == skip_word(s@, b as int),
            decreases n - b,
        {
            b = b + 1;
        }
        proof {
            lemma_skip_word(s@, a as int);
        }
        assert(b > a);
        let w = s.substring_char(a, b).to_string();
        let ghost old_r = r@;
        r.push(w);
        assert(views(r@) =~= views(old_r).push(w@));
        assert(words_from(s@, k0 as int) == seq![s@.subrange(a as int, b as int)] + words_from(s@, b as int));
        assert(views(old_r) + words_from(s@, k0 as int) =~= views(r@) + words_from(s@, b as int));
        k = b;
    }
}

/// Joins `ws` with single spaces.
pub fn join_words(ws: &Vec<String>) -> (r: String)
    ensures
        r@ == joined(views(ws@)),
{
    let mut r = String::new();
    let n = ws.len();
    let mut i: usize = 0;
    while i < n
        invariant
            n == ws@.len(),
            i <= n,
            r@ == joined(views(ws@.take(i as int))),
        decreases n - i,
    {
        assert(views(ws@.take(i + 1)).drop_last() =~= views(ws@.take(i as int)));
        if i > 0 {
            r.append(" ");
            proof {
                reveal_strlit(" ");
            }
        }
        r.append(ws[i].as_str());
        assert(r@ =~= joined(views(ws@.take(i + 1))));
        i = i + 1;
    }
    assert(ws@.take(n as int) =~= ws@);
    r
}

} // verus!

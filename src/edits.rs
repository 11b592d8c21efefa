//! Reading contact edits: comma-separated flag changes, relay paths, and
//! shared contact cards.

use vstd::prelude::*;
use vstd::string::*;
use crate::channels::{hex_bytes, hex_decode};
use crate::error::CliError;
use crate::interpreter::find_char;
use crate::text::{eq_ci, eq_ignore_ascii_case, has_prefix, starts_with, trim, trim_str};

verus! {

/// The bit of a contact flag name, in any ASCII case.
pub open spec fn flag_bit(name: Seq<char>) -> Option<u8> {
    if eq_ci(name, "trusted"@) {
        Some(0x01u8)
    } else if eq_ci(name, "hidden"@) {
        Some(0x02u8)
    } else if eq_ci(name, "tel_l"@) || eq_ci(name, "tel_loc"@) {
        Some(0x04u8)
    } else if eq_ci(name, "tel_a"@) || eq_ci(name, "tel_all"@) {
        Some(0x08u8)
    } else if eq_ci(name, "star"@) || eq_ci(name, "starred"@) {
        Some(0x10u8)
    } else {
        None
    }
}

/// `flags` after one change `t` (already trimmed): `-name` clears the
/// flag's bit, `+name` or `name` sets it; an unknown name is `None`.
pub open spec fn flag_change(flags: u8, t: Seq<char>) -> Option<u8> {
    let clear = t.len() > 0 && t[0] == '-';
    let name = if t.len() > 0 && (t[0] == '-' || t[0] == '+') { t.skip(1) } else { t };
    match flag_bit(name) {
        Some(b) => Some(if clear { flags & !b } else { flags | b }),
        None => None,
    }
}

/// `flags` after the changes of `s` from `start` on, comma-separated and
/// applied left to right; `None` at the first unknown flag.
pub open spec fn flags_from(flags: u8, s: Seq<char>, start: int) -> Option<u8>
    decreases s.len() - start,
{
    if start < 0 || start > s.len() {
        Some(flags)
    } else {
        let j = if find_char(s, start, ',') < start { start } else { find_char(s, start, ',') };
        let e = if j > s.len() { s.len() as int } else { j };
        match flag_change(flags, trim(s.subrange(start, e))) {
            Some(g) => if j >= s.len() { Some(g) } else { flags_from(g, s, j + 1) },
            None => None,
        }
    }
}

proof fn lemma_find_comma(s: Seq<char>, k: int)
    requires
        0 <= k <= s.len(),
    ensures
        k <= find_char(s, k, ',') <= s.len(),
    decreases s.len() - k,
{
    if k < s.len() && s[k] != ',' {
        lemma_find_comma(s, k + 1);
    }
}

fn bit_of(name: &str) -> (r: Option<u8>)
    ensures
        r == flag_bit(name@),
{
    if eq_ignore_ascii_case(name, "trusted") {
        Some(0x01)
    } else if eq_ignore_ascii_case(name, "hidden") {
        Some(0x02)
    } else if eq_ignore_ascii_case(name, "tel_l") || eq_ignore_ascii_case(name, "tel_loc") {
        Some(0x04)
    } else if eq_ignore_ascii_case(name, "tel_a") || eq_ignore_ascii_case(name, "tel_all") {
        Some(0x08)
    } else if eq_ignore_ascii_case(name, "star") || eq_ignore_ascii_case(name, "starred") {
        Some(0x10)
    } else {
        None
    }
}

/// Applies comma-separated flag changes such as `+trusted,-hidden,star` to
/// `flags` (see `flags_from`); an unknown flag is `InvalidArgument`.
pub fn change_flags(flags: u8, changes: &str) -> (r: Result<u8, CliError>)
    ensures
        match flags_from(flags, changes@, 0) {
            Some(g) => r == Ok::<u8, CliError>(g),
            None => r matches Err(CliError::InvalidArgument(_)),
        },
{
    let n = changes.unicode_len();
    let mut f: u8 = flags;
    let mut start: usize = 0;
    loop
        invariant
            n == changes@.len(),
            start <= n,
            flags_from(flags, changes@, 0) == flags_from(f, changes@, start as int),
        decreases n - start,
    {
        let mut k: usize = start;
        while k < n && changes.get_char(k) != ','
            invariant
                n == changes@.len(),
                start <= k <= n,
                find_char(changes@, start as int, ',') == find_char(changes@, k as int, ','),
            decreases n - k,
        {
            k = k + 1;
        }
        proof {
            lemma_find_comma(changes@, start as int);
        }
        let t = trim_str(changes.substring_char(start, k));
        let m = t.unicode_len();
        let first = if m > 0 { t.get_char(0) } else { ' ' };
        let name = if m > 0 && (first == '-' || first == '+') {
            let rest = t.substring_char(1, m);
            assert(rest@ =~= t@.skip(1));
            rest
        } else {
            t
        };
        match bit_of(name) {
            Some(b) => {
                f = if m > 0 && first == '-' { f & !b } else { f | b };
            },
            None => {
                let mut msg = "Unknown flag: ".to_string();
                msg.append(name);
                return Err(CliError::InvalidArgument(msg));
            },
        }
        if k == n {
            return Ok(f);
        }
        start = k + 1;
    }
}

/// The bytes of one path element `t` (already trimmed): its hex, which must
/// spell `width` bytes when a width is asked for.
pub open spec fn path_element(t: Seq<char>, width: Option<nat>) -> Option<Seq<u8>> {
    match hex_bytes(t) {
        Some(b) => match width {
            Some(w) => if b.len() == w { Some(b) } else { None },
            None => Some(b),
        },
        None => None,
    }
}

/// The relay path that `s` spells from `start` on, after `acc`:
/// comma-separated hex elements, empty ones skipped; `None` at the first bad
/// element.
pub open spec fn path_from(acc: Seq<u8>, s: Seq<char>, start: int, width: Option<nat>) -> Option<Seq<u8>>
    decreases s.len() - start,
{
    if start < 0 || start > s.len() {
        Some(acc)
    } else {
        let j = if find_char(s, start, ',') < start { start } else { find_char(s, start, ',') };
        let e = if j > s.len() { s.len() as int } else { j };
        let t = trim(s.subrange(start, e));
        let next = if t.len() == 0 {
            Some(acc)
        } else {
            match path_element(t, width) {
                Some(b) => Some(acc + b),
                None => None,
            }
        };
        match next {
            Some(a) => if j >= s.len() { Some(a) } else { path_from(a, s, j + 1, width) },
            None => None,
        }
    }
}

/// Reads a relay path: comma-separated hex elements, each of `width` bytes
/// when one is given (see `path_from`); a bad element is `InvalidArgument`.
pub fn parse_path(path: &str, width: Option<usize>) -> (r: Result<Vec<u8>, CliError>)
    ensures
        match path_from(Seq::empty(), path@, 0, match width { Some(w) => Some(w as nat), None => None }) {
            Some(b) => r matches Ok(v) && v@ == b,
            None => r matches Err(CliError::InvalidArgument(_)),
        },
{
    let ghost w = match width { Some(w) => Some(w as nat), None => None::<nat> };
    let n = path.unicode_len();
    let mut acc: Vec<u8> = Vec::new();
    let mut start: usize = 0;
    loop
        invariant
            n == path@.len(),
            start <= n,
            w == match width { Some(x) => Some(x as nat), None => None::<nat> },
            path_from(Seq::empty(), path@, 0, w) == path_from(acc@, path@, start as int, w),
        decreases n - start,
    {
        let mut k: usize = start;
        while k < n && path.get_char(k) != ','
            invariant
                n == path@.len(),
                start <= k <= n,
                find_char(path@, start as int, ',') == find_char(path@, k as int, ','),
            decreases n - k,
        {
            k = k + 1;
        }
        proof {
            lemma_find_comma(path@, start as int);
        }
        let t = trim_str(path.substring_char(start, k));
        if t.unicode_len() > 0 {
            match hex_decode(t) {
                Ok(bytes) => {
                    let fits = match width {
                        Some(x) => bytes.len() == x,
                        None => true,
                    };
                    if !fits {
                        return Err(CliError::InvalidArgument(
                            "Each path element must be 6 bytes (12 hex chars)".to_string(),
                        ));
                    }
                    let ghost before = acc@;
                    let mut more = bytes;
                    acc.append(&mut more);
                    assert(acc@ == before + path_element(t@, w)->Some_0);
                },
                Err(_) => {
                    let mut msg = "Invalid hex in path: ".to_string();
                    msg.append(t);
                    return Err(CliError::InvalidArgument(msg));
                },
            }
        }
        if k == n {
            return Ok(acc);
        }
        start = k + 1;
    }
}

/// The bytes that standard, padded base64 text `s` decodes to, if it is valid.
pub uninterp spec fn base64_decoded(s: Seq<char>) -> Option<Seq<u8>>;

#[verifier::external_type_specification]
#[verifier::external_body]
pub struct ExDecodeError(base64::DecodeError);

/// Relies on `base64::engine::general_purpose::STANDARD.decode`: the bytes
/// that the text decodes to, or an error when it is not valid base64; the
/// outcome depends on the text alone.
#[verifier::external_body]
fn base64_decode(s: &str) -> (r: Result<Vec<u8>, base64::DecodeError>)
    ensures
        match r {
            Ok(b) => base64_decoded(s@) == Some(b@),
            Err(_) => base64_decoded(s@) is None,
        },
{
    <base64::engine::GeneralPurpose as base64::Engine>::decode(&base64::engine::general_purpose::STANDARD, s)
}

/// The position just after the last `#` of `s`, or `None` when it has none.
pub open spec fn after_last_hash(s: Seq<char>) -> Option<int>
    decreases s.len(),
{
    if s.len() == 0 {
        None
    } else if s.last() == '#' {
        Some(s.len() as int)
    } else {
        after_last_hash(s.drop_last())
    }
}

/// The card text of a contact URI: what follows its last `#`, or the whole
/// text; a `mc://` URI without `#` is `None`.
pub open spec fn card_text(uri: Seq<char>) -> Option<Seq<char>> {
    match after_last_hash(uri) {
        Some(p) => Some(uri.skip(p)),
        None => if has_prefix(uri, "mc://"@) { None } else { Some(uri) },
    }
}

/// Picks the card text out of a contact URI (see `card_text`); a `mc://`
/// URI without a card is `InvalidArgument`.
pub fn card_part(uri: &str) -> (r: Result<&str, CliError>)
    ensures
        match card_text(uri@) {
            Some(t) => r matches Ok(x) && x@ == t,
            None => r matches Err(CliError::InvalidArgument(_)),
        },
{
    let n = uri.unicode_len();
    let mut j: usize = n;
    assert(uri@.subrange(0, n as int) =~= uri@);
    while j > 0 && uri.get_char(j - 1) != '#'
        invariant
            n == uri@.len(),
            j <= n,
            after_last_hash(uri@) == after_last_hash(uri@.subrange(0, j as int)),
        decreases j,
    {
        assert(uri@.subrange(0, j as int).drop_last() =~= uri@.subrange(0, j - 1));
        j = j - 1;
    }
    if j > 0 {
        let t = uri.substring_char(j, n);
        assert(t@ =~= uri@.skip(j as int));
        Ok(t)
    } else if starts_with(uri, "mc://") {
        Err(CliError::InvalidArgument("Invalid URI format".to_string()))
    } else {
        Ok(uri)
    }
}

/// The card bytes that a contact URI carries: its card text, base64-decoded.
pub fn card_bytes(uri: &str) -> (r: Result<Vec<u8>, CliError>)
    ensures
        match card_text(uri@) {
            Some(t) => match base64_decoded(t) {
                Some(b) => r matches Ok(v) && v@ == b,
                None => r matches Err(CliError::InvalidArgument(_)),
            },
            None => r matches Err(CliError::InvalidArgument(_)),
        },
{
    let t = card_part(uri)?;
    match base64_decode(t) {
        Ok(b) => Ok(b),
        Err(_) => Err(CliError::InvalidArgument("Invalid base64 data in URI".to_string())),
    }
}

} // verus!

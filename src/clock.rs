//! Wall-clock time and how long ago something was.

use vstd::prelude::*;
use vstd::string::*;

verus! {

/// Relies on `SystemTime::now` and `duration_since(UNIX_EPOCH)`: whole
/// seconds since the Unix epoch, or `None` for a clock set before it.
#[verifier::external_body]
fn unix_seconds() -> (r: Option<u64>) {
    std::time::SystemTime::now().duration_since(std::time::UNIX_EPOCH).ok().map(|d| d.as_secs())
}

/// A timestamp from seconds since the epoch: held at `u32::MAX`, and zero
/// when the clock is before the epoch.
pub fn timestamp_from(secs: Option<u64>) -> (r: u32)
    ensures
        r == match secs {
            Some(s) => if s > u32::MAX { u32::MAX } else { s as u32 },
            None => 0,
        },
{
    match secs {
        Some(s) => if s > 4294967295 { 4294967295 } else { s as u32 },
        None => 0,
    }
}

/// The current Unix time in seconds, held at `u32::MAX`.
pub fn current_timestamp() -> (r: u32) {
    timestamp_from(unix_seconds())
}

/// The decimal digit for `d < 10`.
pub open spec fn digit_char(d: nat) -> char {
    seq!['0', '1', '2', '3', '4', '5', '6', '7', '8', '9'][d as int]
}

/// The decimal numeral of `n`, without leading zeros.
pub open spec fn decimal(n: nat) -> Seq<char>
    decreases n,
{
    if n < 10 {
        seq![digit_char(n)]
    } else {
        decimal(n / 10) + seq![digit_char(n % 10)]
    }
}

/// Relies on `u32`'s `to_string`: its decimal numeral.
#[verifier::external_body]
fn numeral(n: u32) -> (r: String)
    ensures
        r@ == decimal(n as nat),
{
    n.to_string()
}

/// How long ago `secs` seconds is, in the largest whole unit: `"3d ago"`,
/// `"5h ago"`, `"12m ago"` or `"42s ago"`; a negative age is `"unknown"`.
pub open spec fn time_ago(secs: int) -> Seq<char> {
    if secs < 0 {
        "unknown"@
    } else if secs >= 86400 {
        decimal((secs / 86400) as nat) + "d ago"@
    } else if secs >= 3600 {
        decimal((secs / 3600) as nat) + "h ago"@
    } else if secs >= 60 {
        decimal((secs / 60) as nat) + "m ago"@
    } else {
        decimal(secs as nat) + "s ago"@
    }
}

/// Writes an age in seconds the way `time_ago` does.
pub fn format_time_ago(secs: i32) -> (r: String)
    ensures
        r@ == time_ago(secs as int),
{
    if secs < 0 {
        return "unknown".to_string();
    }
    let s = secs as u32;
    let (n, unit) = if s >= 86400 {
        (s / 86400, "d ago")
    } else if s >= 3600 {
        (s / 3600, "h ago")
    } else if s >= 60 {
        (s / 60, "m ago")
    } else {
        (s, "s ago")
    };
    let mut r = numeral(n);
    r.append(unit);
    r
}

} // verus!

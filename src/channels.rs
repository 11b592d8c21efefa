//! Channel slots and their secrets, and flood-scope keys.

use vstd::prelude::*;
use vstd::string::*;
use crate::error::CliError;
use crate::number::{parse_u8, parse_unsigned};

verus! {

/// The SHA-256 digest of the UTF-8 bytes of `s`.
pub uninterp spec fn sha256_of(s: Seq<char>) -> Seq<u8>;

/// Relies on `sha2::Sha256`: the 32-byte digest of the string's UTF-8 bytes.
#[verifier::external_body]
fn sha256(s: &str) -> (r: Vec<u8>)
    ensures
        r@ == sha256_of(s@),
        r@.len() == 32,
{
    <sha2::Sha256 as sha2::Digest>::digest(s.as_bytes()).to_vec()
}

#[verifier::external_type_specification]
#[verifier::external_body]
pub struct ExFromHexError(hex::FromHexError);

/// The value of the hex digit `c`, either case, or `None`.
pub open spec fn hex_value(c: char) -> Option<u8> {
    if '0' <= c && c <= '9' {
        Some((c as u32 - '0' as u32) as u8)
    } else if 'a' <= c && c <= 'f' {
        Some((c as u32 - 'a' as u32 + 10) as u8)
    } else if 'A' <= c && c <= 'F' {
        Some((c as u32 - 'A' as u32 + 10) as u8)
    } else {
        None
    }
}

/// The bytes that the hex text `s` spells: an even number of hex digits, two
/// per byte, high nibble first.
pub open spec fn hex_bytes(s: Seq<char>) -> Option<Seq<u8>> {
    if s.len() % 2 == 0 && forall|i: int| 0 <= i < s.len() ==> #[trigger] hex_value(s[i]) is Some {
        Some(Seq::new((s.len() / 2) as nat, |i: int| (hex_value(s[2 * i])->Some_0 * 16 + hex_value(s[2 * i + 1])->Some_0) as u8))
    } else {
        None
    }
}

/// Relies on `hex::decode`: an even number of hex digits (either case)
/// decodes to one byte per pair; anything else is an error.
#[verifier::external_body]
pub(crate) fn hex_decode(s: &str) -> (r: Result<Vec<u8>, hex::FromHexError>)
    ensures
        match r {
            Ok(b) => hex_bytes(s@) == Some(b@),
            Err(_) => hex_bytes(s@) is None,
        },
{
    hex::decode(s)
}

/// A slot name that marks an unused channel: empty, or NUL characters only.
pub open spec fn is_empty_name(name: Seq<char>) -> bool {
    forall|i: int| 0 <= i < name.len() ==> name[i] == '\0'
}

/// Whether a channel name marks an unused slot.
pub fn is_channel_empty(name: &str) -> (r: bool)
    ensures
        r == is_empty_name(name@),
{
    let n = name.unicode_len();
    let mut i: usize = 0;
    while i < n
        invariant
            n == name@.len(),
            i <= n,
            forall|j: int| 0 <= j < i ==> name@[j] == '\0',
        decreases n - i,
    {
        if name.get_char(i) != '\0' {
            return false;
        }
        i = i + 1;
    }
    true
}

/// Reads a channel index; anything but a `u8` is `ChannelNotFound`.
pub fn parse_channel_index(channel: &str) -> (r: Result<u8, CliError>)
    ensures
        match parse_unsigned(channel@, 255) {
            Some(v) => r == Ok::<u8, CliError>(v as u8),
            None => r matches Err(CliError::ChannelNotFound(s)) && s@ == channel@,
        },
{
    match parse_u8(channel) {
        Some(v) => Ok(v),
        None => Err(CliError::ChannelNotFound(channel.to_string())),
    }
}

/// The secret of a channel: the 16 bytes that `key` spells in hex if it is
/// given; else, for a name starting with `#`, the first 16 bytes of the
/// name's SHA-256; else 16 zero bytes.
pub open spec fn channel_secret(name: Seq<char>, key: Option<Seq<char>>) -> Option<Seq<u8>> {
    match key {
        Some(k) => match hex_bytes(k) {
            Some(b) => if b.len() == 16 { Some(b) } else { None },
            None => None,
        },
        None => if name.len() > 0 && name[0] == '#' {
            Some(sha256_of(name).take(16))
        } else {
            Some(Seq::new(16, |i: int| 0u8))
        },
    }
}

/// The key of a flood scope: the first 16 bytes of the topic's SHA-256.
pub fn scope_key(topic: &str) -> (r: Vec<u8>)
    ensures
        r@ == sha256_of(topic@).take(16),
{
    let mut d = sha256(topic);
    d.truncate(16);
    d
}

/// Works out a channel's secret (see `channel_secret`); a key that is not
/// hex, or not 16 bytes, is `InvalidArgument`.
pub fn parse_channel_secret(name: &str, key: Option<&str>) -> (r: Result<Vec<u8>, CliError>)
    ensures
        match channel_secret(name@, match key { Some(k) => Some(k@), None => None }) {
            Some(b) => r matches Ok(v) && v@ == b,
            None => r matches Err(CliError::InvalidArgument(_)),
        },
{
    match key {
        Some(k) => match hex_decode(k) {
            Ok(bytes) => {
                if bytes.len() != 16 {
                    Err(CliError::InvalidArgument("Channel key must be 16 bytes (32 hex chars)".to_string()))
                } else {
                    Ok(bytes)
                }
            },
            Err(_) => Err(CliError::InvalidArgument("Invalid hex key".to_string())),
        },
        None => {
            if name.unicode_len() > 0 && name.get_char(0) == '#' {
                Ok(scope_key(name))
            } else {
                let z: Vec<u8> = vec![0u8; 16];
                assert(z@ =~= Seq::new(16, |i: int| 0u8));
                Ok(z)
            }
        },
    }
}

} // verus!

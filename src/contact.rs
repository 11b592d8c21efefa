//! Contacts, their public-key hex form, and the contact resolver.

use vstd::prelude::*;
use crate::error::CliError;
use crate::text::{eq_ci, eq_ignore_ascii_case, has_prefix, has_prefix_ci, starts_with, starts_with_ci};

verus! {

/// The kind of device behind a contact.
#[derive(Debug, Clone, Copy, PartialEq, Eq, Structural)]
pub enum ContactType {
    Unknown,
    Node,
    Repeater,
    Room,
}

impl ContactType {
    /// The type's numeric code: 0 unknown, 1 node, 2 repeater, 3 room.
    pub open spec fn spec_code(self) -> u8 {
        match self {
            ContactType::Unknown => 0,
            ContactType::Node => 1,
            ContactType::Repeater => 2,
            ContactType::Room => 3,
        }
    }

    /// The type's numeric code.
    pub fn code(&self) -> (r: u8)
        ensures
            r == self.spec_code(),
    {
        match self {
            ContactType::Unknown => 0,
            ContactType::Node => 1,
            ContactType::Repeater => 2,
            ContactType::Room => 3,
        }
    }

    /// The type with the given code; any other code is `Unknown`.
    pub fn from_code(code: u8) -> (r: ContactType)
        ensures
            code <= 3 ==> r.spec_code() == code,
            code > 3 ==> r == ContactType::Unknown,
    {
        match code {
            1 => ContactType::Node,
            2 => ContactType::Repeater,
            3 => ContactType::Room,
            _ => ContactType::Unknown,
        }
    }

    /// Whether the type accepts repeater commands (repeaters and rooms).
    pub fn takes_commands(&self) -> (r: bool)
        ensures
            r == (*self == ContactType::Repeater || *self == ContactType::Room),
    {
        match self {
            ContactType::Repeater | ContactType::Room => true,
            _ => false,
        }
    }
}

/// A directory entry.
#[derive(Debug, Clone)]
pub struct Contact {
    /// Display name.
    pub name: String,
    /// Public key, the contact's identity.
    pub public_key: Vec<u8>,
    /// Device kind.
    pub device_type: ContactType,
    /// Flag bits: trusted, hidden, location telemetry, all telemetry, starred.
    pub flags: u8,
    /// Outbound path length: -1 flood, 0 direct, otherwise the hop count.
    pub out_path_len: i8,
    /// Relay-key prefixes of the outbound path, six bytes each.
    pub out_path: Vec<u8>,
    /// When the contact last advertised (Unix seconds).
    pub last_advert: u32,
    /// When the entry was last modified (Unix seconds).
    pub last_modified: u32,
    /// Latitude in millionths of a degree.
    pub adv_lat: i32,
    /// Longitude in millionths of a degree.
    pub adv_lon: i32,
}

/// The lower-case hex digit for `n < 16`.
pub open spec fn hex_digit(n: u8) -> char {
    seq!['0', '1', '2', '3', '4', '5', '6', '7', '8', '9', 'a', 'b', 'c', 'd', 'e', 'f'][n as int]
}

/// Lower-case hex of `b`: two digits per byte, high nibble first.
pub open spec fn hex_of(b: Seq<u8>) -> Seq<char>
    decreases b.len(),
{
    if b.len() == 0 {
        Seq::empty()
    } else {
        hex_of(b.drop_last()) + seq![hex_digit(b.last() / 16), hex_digit(b.last() % 16)]
    }
}

/// Relies on `hex::encode`: two lower-case digits per byte, high nibble first.
#[verifier::external_body]
pub(crate) fn hex_encode(b: &[u8]) -> (r: String)
    ensures
        r@ == hex_of(b@),
{
    hex::encode(b)
}

/// Lower-case hex of `b`.
pub fn to_hex(b: &Vec<u8>) -> (r: String)
    ensures
        r@ == hex_of(b@),
{
    hex_encode(b.as_slice())
}

/// `c`'s name equals `ident`, ignoring ASCII case.
pub open spec fn name_matches(c: Contact, ident: Seq<char>) -> bool {
    eq_ci(c.name@, ident)
}

/// `ident`, lower-cased, is a prefix of the hex of `c`'s key.
pub open spec fn key_matches(c: Contact, ident: Seq<char>) -> bool {
    has_prefix_ci(hex_of(c.public_key@), ident)
}

/// Some contact of `cs` has the name `ident`.
pub open spec fn some_name_matches(cs: Seq<Contact>, ident: Seq<char>) -> bool {
    exists|j: int| 0 <= j < cs.len() && name_matches(#[trigger] cs[j], ident)
}

/// Some contact of `cs` has a key that starts with `ident`.
pub open spec fn some_key_matches(cs: Seq<Contact>, ident: Seq<char>) -> bool {
    exists|j: int| 0 <= j < cs.len() && key_matches(#[trigger] cs[j], ident)
}

/// `ident` resolves to `cs[i]`: the first name match if there is one, else
/// the first key-prefix match.
pub open spec fn resolves_to(cs: Seq<Contact>, ident: Seq<char>, i: int) -> bool {
    0 <= i < cs.len() && if some_name_matches(cs, ident) {
        name_matches(cs[i], ident) && forall|j: int| 0 <= j < i ==> !name_matches(#[trigger] cs[j], ident)
    } else {
        key_matches(cs[i], ident) && forall|j: int| 0 <= j < i ==> !key_matches(#[trigger] cs[j], ident)
    }
}

/// `e` says that no contact matches `ident`.
pub open spec fn is_not_found(e: CliError, ident: Seq<char>) -> bool {
    match e {
        CliError::ContactNotFound(s) => s@ == ident,
        _ => false,
    }
}

/// Resolves a name or public-key hex prefix (both without regard to case)
/// against a directory snapshot. Names are tried first over the whole
/// directory, then key prefixes; under each rule the first match in the
/// snapshot's order wins.
pub fn resolve<'a>(contacts: &'a Vec<Contact>, ident: &str) -> (r: Result<&'a Contact, CliError>)
    ensures
        match r {
            Ok(c) => exists|i: int| resolves_to(contacts@, ident@, i) && *c == contacts@[i],
            Err(e) => !some_name_matches(contacts@, ident@) && !some_key_matches(contacts@, ident@)
                && is_not_found(e, ident@),
        },
{
    let n = contacts.len();
    let mut i: usize = 0;
    while i < n
        invariant
            n == contacts@.len(),
            i <= n,
            forall|j: int| 0 <= j < i ==> !name_matches(#[trigger] contacts@[j], ident@),
        decreases n - i,
    {
        if eq_ignore_ascii_case(contacts[i].name.as_str(), ident) {
            assert(resolves_to(contacts@, ident@, i as int));
            return Ok(&contacts[i]);
        }
        i = i + 1;
    }
    let mut k: usize = 0;
    while k < n
        invariant
            n == contacts@.len(),
            k <= n,
            !some_name_matches(contacts@, ident@),
            forall|j: int| 0 <= j < k ==> !key_matches(#[trigger] contacts@[j], ident@),
        decreases n - k,
    {
        let key_hex = to_hex(&contacts[k].public_key);
        if starts_with_ci(key_hex.as_str(), ident) {
            assert(resolves_to(contacts@, ident@, k as int));
            return Ok(&contacts[k]);
        }
        k = k + 1;
    }
    Err(CliError::ContactNotFound(ident.to_string()))
}

/// How many hops of a path of `hops` hops, stored in `len` bytes, are shown:
/// at most ten, and only whole six-byte prefixes.
pub open spec fn shown_hops(hops: int, len: int) -> int {
    let a = if hops < 10 { hops } else { 10 };
    let b = len / 6;
    if a < 0 { 0 } else if a < b { a } else { b }
}

/// The relay prefixes of a contact's outbound path, as hex: one entry per
/// hop, at most ten (see `shown_hops`).
pub fn path_hops(c: &Contact) -> (r: Vec<String>)
    ensures
        r@.len() == shown_hops(c.out_path_len as int, c.out_path@.len() as int),
        forall|i: int| 0 <= i < r@.len() ==> (#[trigger] r@[i])@ == hex_of(c.out_path@.subrange(6 * i, 6 * i + 6)),
{
    let len = c.out_path.len();
    let hops: usize = if c.out_path_len < 0 { 0 } else if c.out_path_len < 10 { c.out_path_len as usize } else { 10 };
    let fit = len / 6;
    let n = if hops < fit { hops } else { fit };
    let mut r: Vec<String> = Vec::new();
    let mut i: usize = 0;
    while i < n
        invariant
            len == c.out_path@.len(),
            n <= fit,
            fit == len / 6,
            i <= n,
            r@.len() == i,
            forall|k: int| 0 <= k < i ==> (#[trigger] r@[k])@ == hex_of(c.out_path@.subrange(6 * k, 6 * k + 6)),
        decreases n - i,
    {
        assert(6 * i + 6 <= len) by (nonlinear_arith)
            requires
                i < n,
                n <= fit,
                fit == len / 6,
        ;
        let chunk = vstd::slice::slice_subrange(c.out_path.as_slice(), 6 * i, 6 * i + 6);
        r.push(hex_encode(chunk));
        i = i + 1;
    }
    r
}

/// The name of the first contact whose key hex starts with `hex_of(prefix)`,
/// or that hex itself when there is none.
pub open spec fn sender_name(cs: Seq<Contact>, prefix: Seq<u8>) -> Seq<char>
    decreases cs.len(),
{
    if cs.len() == 0 {
        hex_of(prefix)
    } else if has_prefix(hex_of(cs[0].public_key@), hex_of(prefix)) {
        cs[0].name@
    } else {
        sender_name(cs.skip(1), prefix)
    }
}

/// Names the sender of a message from the prefix of its public key.
pub fn lookup_sender_name(contacts: &Vec<Contact>, sender_prefix: &[u8]) -> (r: String)
    ensures
        r@ == sender_name(contacts@, sender_prefix@),
{
    let prefix_hex = hex_encode(sender_prefix);
    let n = contacts.len();
    let mut i: usize = 0;
    assert(contacts@.skip(0) =~= contacts@);
    while i < n
        invariant
            n == contacts@.len(),
            i <= n,
            prefix_hex@ == hex_of(sender_prefix@),
            sender_name(contacts@, sender_prefix@) == sender_name(contacts@.skip(i as int), sender_prefix@),
        decreases n - i,
    {
        assert(contacts@.skip(i as int).skip(1) =~= contacts@.skip(i + 1));
        let key_hex = to_hex(&contacts[i].public_key);
        if starts_with(key_hex.as_str(), prefix_hex.as_str()) {
            return contacts[i].name.clone();
        }
        i = i + 1;
    }
    prefix_hex
}

} // verus!

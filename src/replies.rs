//! Reading the binary neighbour list a repeater sends back.
//!
//! Layout: the neighbour count and the count of entries sent, each a
//! little-endian `i16`; then the entries, eleven bytes each: a six-byte key
//! prefix, seconds since last heard as a little-endian `i32`, and the SNR in
//! quarter decibels as an `i8`.

use vstd::prelude::*;

verus! {

/// The two's-complement value of the `bits`-bit pattern `v`.
pub open spec fn signed(v: int, bits: nat) -> int {
    if v >= pow2(bits) / 2 {
        v - pow2(bits)
    } else {
        v
    }
}

/// 2 to the power `n`.
pub open spec fn pow2(n: nat) -> int
    decreases n,
{
    if n == 0 {
        1
    } else {
        2 * pow2((n - 1) as nat)
    }
}

/// The little-endian `i16` at `d[o..o + 2]`.
pub open spec fn le_i16(d: Seq<u8>, o: int) -> int {
    signed(d[o] + d[o + 1] * 256, 16)
}

/// The little-endian `i32` at `d[o..o + 4]`.
pub open spec fn le_i32(d: Seq<u8>, o: int) -> int {
    signed(d[o] + d[o + 1] * 256 + d[o + 2] * 65536 + d[o + 3] * 16777216, 32)
}

fn as_i8(b: u8) -> (r: i8)
    ensures
        r == signed(b as int, 8),
{
    proof {
        reveal_with_fuel(pow2, 9);
    }
    if b >= 128 {
        (b as i16 - 256) as i8
    } else {
        b as i8
    }
}

fn as_i16(v: u16) -> (r: i16)
    ensures
        r == signed(v as int, 16),
{
    proof {
        reveal_with_fuel(pow2, 17);
    }
    if v >= 32768 {
        (v as i32 - 65536) as i16
    } else {
        v as i16
    }
}

fn as_i32(v: u32) -> (r: i32)
    ensures
        r == signed(v as int, 32),
{
    proof {
        reveal_with_fuel(pow2, 33);
    }
    if v >= 2147483648 {
        (v as i64 - 4294967296) as i32
    } else {
        v as i32
    }
}

/// One neighbour of a repeater.
#[derive(Debug, Clone)]
pub struct Neighbour {
    /// The first six bytes of its key.
    pub prefix: Vec<u8>,
    /// Seconds since it was last heard.
    pub secs_ago: i32,
    /// Signal-to-noise ratio in quarter decibels.
    pub snr_quarters: i8,
}

/// A repeater's neighbour list.
#[derive(Debug, Clone)]
pub struct NeighbourReport {
    /// How many neighbours the repeater knows.
    pub neighbours_count: i16,
    /// How many entries it sent.
    pub results_count: i16,
    /// The entries that the data holds.
    pub entries: Vec<Neighbour>,
}

/// Bytes per entry.
pub const ENTRY_LEN: usize = 11;

/// How many entries a reply of `len >= 4` bytes announcing `results` holds:
/// the announced count (none if negative), as far as whole entries go.
pub open spec fn entry_count(len: int, results: i16) -> int {
    let fit = (len - 4) / 11;
    if results < 0 {
        0
    } else if (results as int) < fit {
        results as int
    } else {
        fit
    }
}

/// `n` is the `k`th entry of `d`.
pub open spec fn is_entry(n: Neighbour, d: Seq<u8>, k: int) -> bool {
    let o = 4 + 11 * k;
    &&& n.prefix@ == d.subrange(o, o + 6)
    &&& n.secs_ago == le_i32(d, o + 6)
    &&& n.snr_quarters == signed(d[o + 10] as int, 8)
}

fn read_entry(data: &[u8], o: usize) -> (r: Neighbour)
    requires
        o + 11 <= data@.len(),
        data@.len() <= usize::MAX,
    ensures
        r.prefix@ == data@.subrange(o as int, o + 6),
        r.secs_ago == le_i32(data@, o + 6),
        r.snr_quarters == signed(data@[o + 10] as int, 8),
{
    let mut prefix: Vec<u8> = Vec::new();
    let mut i: usize = 0;
    while i < 6
        invariant
            o + 11 <= data@.len(),
            data@.len() <= usize::MAX,
            i <= 6,
            prefix@ == data@.subrange(o as int, o + i),
        decreases 6 - i,
    {
        prefix.push(data[o + i]);
        assert(prefix@ =~= data@.subrange(o as int, o + i + 1));
        i = i + 1;
    }
    let v: u32 = data[o + 6] as u32 + data[o + 7] as u32 * 256 + data[o + 8] as u32 * 65536 + data[o + 9] as u32
        * 16777216;
    Neighbour { prefix, secs_ago: as_i32(v), snr_quarters: as_i8(data[o + 10]) }
}

/// Reads a neighbour list; a reply shorter than its two counts is `None`.
pub fn parse_neighbours(data: &[u8]) -> (r: Option<NeighbourReport>)
    ensures
        data@.len() < 4 ==> r is None,
        data@.len() >= 4 ==> (r matches Some(rep) && rep.neighbours_count == le_i16(data@, 0) && rep.results_count
            == le_i16(data@, 2) && rep.entries@.len() == entry_count(data@.len() as int, rep.results_count)
            && forall|k: int| 0 <= k < rep.entries@.len() ==> is_entry(#[trigger] rep.entries@[k], data@, k)),
{
    let len = data.len();
    if len < 4 {
        return None;
    }
    let neighbours_count = as_i16(data[0] as u16 + data[1] as u16 * 256);
    let results_count = as_i16(data[2] as u16 + data[3] as u16 * 256);
    let fit = (len - 4) / 11;
    let count: usize = if results_count < 0 {
        0
    } else if (results_count as usize) < fit {
        results_count as usize
    } else {
        fit
    };
    let mut entries: Vec<Neighbour> = Vec::new();
    let mut k: usize = 0;
    while k < count
        invariant
            len == data@.len(),
            data@.len() <= usize::MAX,
            len >= 4,
            count <= fit,
            fit == (len - 4) / 11,
            k <= count,
            entries@.len() == k,
            forall|j: int| 0 <= j < k ==> is_entry(#[trigger] entries@[j], data@, j),
        decreases count - k,
    {
        assert(4 + 11 * k + 11 <= len) by (nonlinear_arith)
            requires
                k < count,
                count <= fit,
                fit == (len - 4) / 11,
                len >= 4,
        ;
        let e = read_entry(data, 4 + 11 * k);
        entries.push(e);
        k = k + 1;
    }
    Some(NeighbourReport { neighbours_count, results_count, entries })
}

} // verus!

//! Little-endian decoding of 8-byte words out of a byte slice.
//!
//! The tape format stores every multi-byte field as eight bytes,
//! little-endian: signed integers, and floating-point values by their
//! IEEE-754 bit pattern.  The library holds float fields as their raw
//! `u64` bit patterns, so both field flavours decode through the same
//! two word readers.

use vstd::prelude::*;

verus! {

/// The unsigned 64-bit word encoded little-endian at position `p` of `b`.
pub open spec fn u64_at(b: Seq<u8>, p: int) -> u64
    recommends
        0 <= p,
        p + 8 <= b.len(),
{
    vstd::bytes::spec_u64_from_le_bytes(b.subrange(p, p + 8))
}

/// The signed 64-bit word at position `p` of `b`: the two's-complement
/// reinterpretation of the unsigned word there.
pub open spec fn i64_at(b: Seq<u8>, p: int) -> i64 {
    u64_at(b, p) as i64
}

/// The sequence of `n` unsigned words laid out back to back from
/// position `p` of `b`.
pub open spec fn u64s_at(b: Seq<u8>, p: int, n: nat) -> Seq<u64>
    recommends
        0 <= p,
        p + 8 * n <= b.len(),
{
    Seq::new(n, |j: int| u64_at(b, p + 8 * j))
}

/// The sequence of `n` signed words laid out back to back from
/// position `p` of `b`.
pub open spec fn i64s_at(b: Seq<u8>, p: int, n: nat) -> Seq<i64>
    recommends
        0 <= p,
        p + 8 * n <= b.len(),
{
    Seq::new(n, |j: int| i64_at(b, p + 8 * j))
}

/// Relies on `byteorder::LittleEndian::read_u64`: it returns
/// `u64::from_le_bytes` of the first eight bytes of the slice handed to
/// it, which is `spec_u64_from_le_bytes` of those bytes.
#[verifier::external_body]
pub(crate) fn read_u64_le(bytes: &[u8], pos: usize) -> (r: u64)
    requires
        pos + 8 <= bytes@.len(),
    ensures
        r == u64_at(bytes@, pos as int),
{
    <byteorder::LittleEndian as byteorder::ByteOrder>::read_u64(&bytes[pos..pos + 8])
}

/// Relies on `byteorder::LittleEndian::read_i64`: it returns
/// `read_u64` of the same bytes reinterpreted `as i64`.
#[verifier::external_body]
pub(crate) fn read_i64_le(bytes: &[u8], pos: usize) -> (r: i64)
    requires
        pos + 8 <= bytes@.len(),
    ensures
        r == i64_at(bytes@, pos as int),
{
    <byteorder::LittleEndian as byteorder::ByteOrder>::read_i64(&bytes[pos..pos + 8])
}

/// Reads `n` consecutive little-endian unsigned words starting at `pos`.
pub(crate) fn read_u64s(bytes: &[u8], pos: usize, n: usize) -> (r: Vec<u64>)
    requires
        pos + 8 * n <= bytes@.len(),
    ensures
        r@ == u64s_at(bytes@, pos as int, n as nat),
{
    let total = bytes.len();
    let mut out: Vec<u64> = Vec::new();
    let mut j: usize = 0;
    while j < n
        invariant
            j <= n,
            total == bytes@.len(),
            pos + 8 * n <= bytes@.len(),
            out@.len() == j,
            forall|k: int| 0 <= k < j ==> out@[k] == u64_at(bytes@, pos + 8 * k),
        decreases n - j,
    {
        let w = read_u64_le(bytes, pos + 8 * j);
        out.push(w);
        j += 1;
    }
    proof {
        assert(out@ =~= u64s_at(bytes@, pos as int, n as nat));
    }
    out
}

/// Reads `n` consecutive little-endian signed words starting at `pos`.
pub(crate) fn read_i64s(bytes: &[u8], pos: usize, n: usize) -> (r: Vec<i64>)
    requires
        pos + 8 * n <= bytes@.len(),
    ensures
        r@ == i64s_at(bytes@, pos as int, n as nat),
{
    let total = bytes.len();
    let mut out: Vec<i64> = Vec::new();
    let mut j: usize = 0;
    while j < n
        invariant
            j <= n,
            total == bytes@.len(),
            pos + 8 * n <= bytes@.len(),
            out@.len() == j,
            forall|k: int| 0 <= k < j ==> out@[k] == i64_at(bytes@, pos + 8 * k),
        decreases n - j,
    {
        let w = read_i64_le(bytes, pos + 8 * j);
        out.push(w);
        j += 1;
    }
    proof {
        assert(out@ =~= i64s_at(bytes@, pos as int, n as nat));
    }
    out
}

} // verus!

//! Big-endian 32-bit integers, as the format mandates for every multi-byte
//! field (network byte order: most significant byte first).

use vstd::prelude::*;

verus! {

/// The unsigned 32-bit value encoded big-endian by the first four bytes of `b`.
pub open spec fn spec_be_u32(b: Seq<u8>) -> u32
    recommends
        b.len() == 4,
{
    ((b[0] as u32) << 24) | ((b[1] as u32) << 16) | ((b[2] as u32) << 8) | (b[3] as u32)
}

/// The four big-endian bytes of `v`, most significant first.
pub open spec fn spec_be_bytes(v: u32) -> Seq<u8> {
    seq![(v >> 24) as u8, (v >> 16) as u8, (v >> 8) as u8, v as u8]
}

/// Decoding the big-endian bytes of a value yields the value back.
pub proof fn lemma_be_round_trip(v: u32)
    ensures
        spec_be_u32(spec_be_bytes(v)) == v,
{
    assert((((v >> 24) as u8 as u32) << 24) | (((v >> 16) as u8 as u32) << 16) | (((v >> 8)
        as u8 as u32) << 8) | (v as u8 as u32) == v) by (bit_vector);
}

/// Two byte sequences that agree on their first four bytes decode alike.
pub proof fn lemma_be_u32_depends_on_prefix(a: Seq<u8>, b: Seq<u8>)
    requires
        a.len() >= 4,
        b.len() >= 4,
        a[0] == b[0],
        a[1] == b[1],
        a[2] == b[2],
        a[3] == b[3],
    ensures
        spec_be_u32(a) == spec_be_u32(b),
{
}

/// Reads a big-endian 32-bit integer from four bytes.
pub fn be_u32(b0: u8, b1: u8, b2: u8, b3: u8) -> (v: u32)
    ensures
        v == spec_be_u32(seq![b0, b1, b2, b3]),
{
    ((b0 as u32) << 24) | ((b1 as u32) << 16) | ((b2 as u32) << 8) | (b3 as u32)
}

/// Writes `v` as four big-endian bytes, most significant first.
pub fn be_bytes(v: u32) -> (b: (u8, u8, u8, u8))
    ensures
        seq![b.0, b.1, b.2, b.3] == spec_be_bytes(v),
{
    ((v >> 24) as u8, (v >> 16) as u8, (v >> 8) as u8, v as u8)
}

} // verus!

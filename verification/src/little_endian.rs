//! Little-endian encoding of 32-bit values, as the runtime lays them out in
//! its records whatever the byte order of the host.

use byteorder::ByteOrder;
use vstd::prelude::*;

verus! {

/// The value of the first four bytes of `b`, the first byte being the least
/// significant.
pub open spec fn le_u32(b: Seq<u8>) -> u32
    recommends
        b.len() >= 4,
{
    (b[0] as int + 0x100 * (b[1] as int) + 0x1_0000 * (b[2] as int) + 0x100_0000 * (
    b[3] as int)) as u32
}

/// The four bytes that encode `v`, least significant byte first.
pub open spec fn le_bytes(v: u32) -> Seq<u8> {
    seq![
        (v % 0x100) as u8,
        (v / 0x100 % 0x100) as u8,
        (v / 0x1_0000 % 0x100) as u8,
        (v / 0x100_0000) as u8,
    ]
}

/// The four base-256 digits of a 32-bit value add up to the value.
proof fn lemma_digits_of_u32(v: u32)
    by (bit_vector)
    ensures
        v == (v % 0x100) + 0x100 * (v / 0x100 % 0x100) + 0x1_0000 * (v / 0x1_0000 % 0x100)
            + 0x100_0000 * (v / 0x100_0000),
        v / 0x100_0000 < 0x100,
{
}

/// A value put together from four base-256 digits fits in 32 bits and has
/// these digits.
proof fn lemma_u32_of_digits(d0: u8, d1: u8, d2: u8, d3: u8)
    by (bit_vector)
    ensures
        ({
            let v = d0 as u32 + 0x100 * (d1 as u32) + 0x1_0000 * (d2 as u32) + 0x100_0000 * (
            d3 as u32);
            &&& v <= 0xffff_ffff
            &&& v % 0x100 == d0
            &&& v / 0x100 % 0x100 == d1
            &&& v / 0x1_0000 % 0x100 == d2
            &&& v / 0x100_0000 == d3
        }),
{
}

/// Encoding a value and reading it back gives the value.
pub proof fn lemma_le_u32_of_le_bytes(v: u32)
    ensures
        le_bytes(v).len() == 4,
        le_u32(le_bytes(v)) == v,
{
    lemma_digits_of_u32(v);
}

/// Reading four bytes and encoding the value gives the four bytes.
pub proof fn lemma_le_bytes_of_le_u32(b: Seq<u8>)
    requires
        b.len() >= 4,
    ensures
        le_bytes(le_u32(b)) == b.subrange(0, 4),
{
    lemma_u32_of_digits(b[0], b[1], b[2], b[3]);
    assert(le_bytes(le_u32(b)) =~= b.subrange(0, 4));
}

/// The value of the first four bytes of `b`, the first byte being the most
/// significant.
pub open spec fn be_u32(b: Seq<u8>) -> u32
    recommends
        b.len() >= 4,
{
    (b[3] as int + 0x100 * (b[2] as int) + 0x1_0000 * (b[1] as int) + 0x100_0000 * (
    b[0] as int)) as u32
}

/// `v` with its four bytes in the opposite order.
pub open spec fn swap_u32(v: u32) -> u32 {
    ((v % 0x100) * 0x100_0000 + (v / 0x100 % 0x100) * 0x1_0000 + (v / 0x1_0000 % 0x100) * 0x100
        + v / 0x100_0000) as u32
}

/// A host that reads four bytes most significant first and then swaps the
/// bytes of what it read has the value that a host reading them least
/// significant first has at once.
pub proof fn lemma_le_u32_is_swapped_be_u32(b: Seq<u8>)
    requires
        b.len() >= 4,
    ensures
        le_u32(b) == swap_u32(be_u32(b)),
{
    lemma_u32_of_digits(b[3], b[2], b[1], b[0]);
    lemma_u32_of_digits(b[0], b[1], b[2], b[3]);
}

/// `byteorder::LittleEndian::read_u32`: reads the first four bytes of `buf` as
/// a little-endian `u32`. It panics on fewer than four bytes, which `requires`
/// rules out.
#[verifier::external_body]
pub(crate) fn read_u32_le(buf: &[u8]) -> (v: u32)
    requires
        buf@.len() >= 4,
    ensures
        v == le_u32(buf@),
{
    byteorder::LittleEndian::read_u32(buf)
}

} // verus!

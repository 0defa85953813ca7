//! Big-endian integers as they appear on the wire.

use vstd::prelude::*;

verus! {

/// The value of two bytes read as a big-endian 16-bit integer.
pub open spec fn be16(b0: u8, b1: u8) -> int {
    b0 as int * 0x100 + b1 as int
}

/// The value of four bytes read as a big-endian 32-bit integer.
pub open spec fn be32(b0: u8, b1: u8, b2: u8, b3: u8) -> int {
    b0 as int * 0x100_0000 + b1 as int * 0x1_0000 + b2 as int * 0x100 + b3 as int
}

/// The four bytes of `n` in big-endian order.
pub open spec fn be32_bytes(n: u32) -> Seq<u8> {
    seq![
        (n as int / 0x100_0000) as u8,
        (n as int / 0x1_0000 % 0x100) as u8,
        (n as int / 0x100 % 0x100) as u8,
        (n as int % 0x100) as u8,
    ]
}

/// The 16-bit word made of a low and a high byte.
pub fn makeword(low: u8, high: u8) -> (word: u16)
    ensures
        word == be16(high, low),
{
    assert(((high as u16) << 8) | (low as u16) == (high as u16) * 0x100 + (low as u16))
        by (bit_vector);
    ((high as u16) << 8) | (low as u16)
}

/// Reads a big-endian 16-bit integer.
pub fn u16_from_be(b0: u8, b1: u8) -> (n: u16)
    ensures
        n == be16(b0, b1),
{
    (b0 as u16) * 0x100 + (b1 as u16)
}

/// Reads a big-endian 32-bit integer.
pub fn u32_from_be(b0: u8, b1: u8, b2: u8, b3: u8) -> (n: u32)
    ensures
        n == be32(b0, b1, b2, b3),
{
    (b0 as u32) * 0x100_0000 + (b1 as u32) * 0x1_0000 + (b2 as u32) * 0x100 + (b3 as u32)
}

/// Writes `n` as four big-endian bytes.
pub fn u32_to_be(n: u32) -> (bytes: [u8; 4])
    ensures
        bytes@ == be32_bytes(n),
{
    let bytes = [
        (n / 0x100_0000) as u8,
        (n / 0x1_0000 % 0x100) as u8,
        (n / 0x100 % 0x100) as u8,
        (n % 0x100) as u8,
    ];
    assert(bytes@ =~= be32_bytes(n));
    bytes
}

/// Reading back the four big-endian bytes of `n` gives `n`.
pub proof fn lemma_be32_of_bytes(n: u32)
    ensures
        be32(be32_bytes(n)[0], be32_bytes(n)[1], be32_bytes(n)[2], be32_bytes(n)[3]) == n,
{
}

} // verus!

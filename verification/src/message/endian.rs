//! Little-endian layout of the multi-byte fields of a payload.

use vstd::prelude::*;

verus! {

/// The 16-bit number whose low byte is `b0` and whose high byte is `b1`.
pub open spec fn le16(b0: u8, b1: u8) -> u16 {
    (b0 as int + 256 * (b1 as int)) as u16
}

/// The 32-bit number whose bytes, from the lowest up, are `b0`, `b1`, `b2`, `b3`.
pub open spec fn le32(b0: u8, b1: u8, b2: u8, b3: u8) -> u32 {
    (b0 as int + 256 * (b1 as int) + 65536 * (b2 as int) + 16777216 * (b3 as int)) as u32
}

/// The two bytes of `x`, lowest first.
pub open spec fn le16_bytes(x: u16) -> Seq<u8> {
    seq![(x % 256) as u8, (x / 256) as u8]
}

/// The four bytes of `x`, lowest first.
pub open spec fn le32_bytes(x: u32) -> Seq<u8> {
    seq![
        (x % 256) as u8,
        ((x / 256) % 256) as u8,
        ((x / 65536) % 256) as u8,
        (x / 16777216) as u8,
    ]
}

/// Reads a 16-bit little-endian number from its two bytes.
pub fn u16_from_le(b0: u8, b1: u8) -> (x: u16)
    ensures
        x == le16(b0, b1),
        x == b0 + 256 * b1,
{
    let low: u16 = b0 as u16;
    let high: u16 = b1 as u16;
    low + high * 256
}

/// Reads a 32-bit little-endian number from its four bytes.
pub fn u32_from_le(b0: u8, b1: u8, b2: u8, b3: u8) -> (x: u32)
    ensures
        x == le32(b0, b1, b2, b3),
        x == b0 + 256 * b1 + 65536 * b2 + 16777216 * b3,
{
    let w0: u32 = b0 as u32;
    let w1: u32 = b1 as u32;
    let w2: u32 = b2 as u32;
    let w3: u32 = b3 as u32;
    w0 + w1 * 256 + w2 * 65536 + w3 * 16777216
}

/// Splits a 16-bit number into its two bytes, lowest first.
pub fn u16_to_le(x: u16) -> (bytes: [u8; 2])
    ensures
        bytes@ == le16_bytes(x),
{
    let bytes: [u8; 2] = [(x % 256) as u8, (x / 256) as u8];
    assert(bytes@ =~= le16_bytes(x));
    bytes
}

/// Splits a 32-bit number into its four bytes, lowest first.
pub fn u32_to_le(x: u32) -> (bytes: [u8; 4])
    ensures
        bytes@ == le32_bytes(x),
{
    let bytes: [u8; 4] = [
        (x % 256) as u8,
        ((x / 256) % 256) as u8,
        ((x / 65536) % 256) as u8,
        (x / 16777216) as u8,
    ];
    assert(bytes@ =~= le32_bytes(x));
    bytes
}

/// Reading back the bytes of a 16-bit number gives the number.
pub proof fn lemma_le16_of_bytes(x: u16)
    ensures
        le16_bytes(x).len() == 2,
        le16(le16_bytes(x)[0], le16_bytes(x)[1]) == x,
{
}

/// Splitting the number read from two bytes gives the two bytes.
pub proof fn lemma_bytes_of_le16(b0: u8, b1: u8)
    ensures
        le16_bytes(le16(b0, b1)) == seq![b0, b1],
{
    assert(le16_bytes(le16(b0, b1)) =~= seq![b0, b1]);
}

/// Reading back the bytes of a 32-bit number gives the number.
pub proof fn lemma_le32_of_bytes(x: u32)
    ensures
        le32_bytes(x).len() == 4,
        le32(le32_bytes(x)[0], le32_bytes(x)[1], le32_bytes(x)[2], le32_bytes(x)[3]) == x,
{
}

/// Splitting the number read from four bytes gives the four bytes.
pub proof fn lemma_bytes_of_le32(b0: u8, b1: u8, b2: u8, b3: u8)
    ensures
        le32_bytes(le32(b0, b1, b2, b3)) == seq![b0, b1, b2, b3],
{
    assert(le32_bytes(le32(b0, b1, b2, b3)) =~= seq![b0, b1, b2, b3]);
}

} // verus!

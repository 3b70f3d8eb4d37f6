//! Bit-packing and little-endian byte primitives shared by the message
//! encoders.
//!
//! Oversized field values are masked, never rejected: only the low-order
//! bits of a field value reach the wire, matching the packed layouts.

use vstd::prelude::*;

verus! {

/// One byte holding two 4-bit fields: `hi` in bits 7..4, `lo` in bits 3..0.
pub open spec fn spec_pack_nibbles(hi: u8, lo: u8) -> u8 {
    ((hi & 0x0F) << 4) | (lo & 0x0F)
}

/// Packs two 4-bit fields into one byte, `hi` in the high nibble and `lo`
/// in the low nibble; only the low 4 bits of each value are kept.
pub fn pack_nibbles(hi: u8, lo: u8) -> (r: u8)
    ensures
        r == spec_pack_nibbles(hi, lo),
{
    ((hi & 0x0F) << 4) | (lo & 0x0F)
}

/// The two bytes of `x` in little-endian order.
pub open spec fn spec_le16(x: u16) -> Seq<u8> {
    seq![(x & 0xFF) as u8, ((x >> 8) & 0xFF) as u8]
}

/// The four bytes of `x` in little-endian order.
pub open spec fn spec_le32(x: u32) -> Seq<u8> {
    seq![
        (x & 0xFF) as u8,
        ((x >> 8) & 0xFF) as u8,
        ((x >> 16) & 0xFF) as u8,
        ((x >> 24) & 0xFF) as u8,
    ]
}

/// Appends the two little-endian bytes of `x` to `bytes`.
pub fn push_le16(bytes: &mut Vec<u8>, x: u16)
    ensures
        final(bytes)@ == old(bytes)@ + spec_le16(x),
{
    bytes.push((x & 0xFF) as u8);
    bytes.push(((x >> 8) & 0xFF) as u8);
    proof {
        assert(bytes@ =~= old(bytes)@ + spec_le16(x));
    }
}

/// Appends the two little-endian bytes of the two's-complement form of `x`.
pub fn push_le16_signed(bytes: &mut Vec<u8>, x: i16)
    ensures
        final(bytes)@ == old(bytes)@ + spec_le16(x as u16),
{
    push_le16(bytes, x as u16);
}

/// Appends the four little-endian bytes of `x` to `bytes`.
pub fn push_le32(bytes: &mut Vec<u8>, x: u32)
    ensures
        final(bytes)@ == old(bytes)@ + spec_le32(x),
{
    bytes.push((x & 0xFF) as u8);
    bytes.push(((x >> 8) & 0xFF) as u8);
    bytes.push(((x >> 16) & 0xFF) as u8);
    bytes.push(((x >> 24) & 0xFF) as u8);
    proof {
        assert(bytes@ =~= old(bytes)@ + spec_le32(x));
    }
}

/// Appends the four little-endian bytes of the two's-complement form of `x`.
pub fn push_le32_signed(bytes: &mut Vec<u8>, x: i32)
    ensures
        final(bytes)@ == old(bytes)@ + spec_le32(x as u32),
{
    push_le32(bytes, x as u32);
}

} // verus!

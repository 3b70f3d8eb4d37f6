//! Wrapping of the packet into a vendor-specific information element.
//!
//! The element payload opens with a 3-byte organizationally-unique
//! identifier and a 1-byte vendor sub-type; the packet bytes follow.
//! The frame builder that carries the element tags it with the
//! vendor-specific element tag.

use vstd::prelude::*;

verus! {

/// The element tag that marks a vendor-specific element.
pub const VENDOR_ELEMENT_TAG: u8 = 0xDD;

/// The four bytes that open the element payload: the
/// organizationally-unique identifier, then the vendor sub-type.
pub open spec fn spec_vendor_prefix() -> Seq<u8> {
    seq![0xFAu8, 0x0Bu8, 0xBCu8, 0x0Du8]
}

/// Builds the vendor-specific element payload around the packet bytes;
/// for an 84-byte packet the payload is 88 bytes.
pub fn build_vendor_element(packet: &Vec<u8>) -> (r: Vec<u8>)
    ensures
        r@ == spec_vendor_prefix() + packet@,
        r@.len() == 4 + packet@.len(),
{
    let mut element: Vec<u8> = Vec::new();
    element.push(0xFA);
    element.push(0x0B);
    element.push(0xBC);
    element.push(0x0D);
    element.extend_from_slice(packet.as_slice());
    proof {
        assert(element@ =~= spec_vendor_prefix() + packet@);
    }
    element
}

} // verus!

//! The common message interface: error kinds, message kinds, and the
//! `Message` trait every 25-byte sub-message encoder implements.

use vstd::prelude::*;
use crate::codec::spec_pack_nibbles;

verus! {

/// The protocol-version nibble carried in the low half of every
/// sub-message header byte.
pub const PROTOCOL_VERSION: u8 = 0x01;

/// An error a message encoder can report.
#[derive(Debug, PartialEq)]
pub enum MessageError {
    /// A field exceeded its fixed wire capacity: capacity, then the
    /// actual length that was offered.
    InsufficientLength(usize, usize),
    /// The identity text held a byte the wire format cannot carry.
    InvalidUtf8(u8),
    /// A message-kind nibble no decoder knows; reserved for a future
    /// decode path and unused by encoding.
    UnknownMessageType(u8),
}

/// The kinds of sub-message a packet carries.
#[derive(Debug, PartialEq)]
pub enum MessageType {
    BaseMessageType,
    PositionVectorMessageType,
    SystemMessageType,
}

impl MessageType {
    /// The message-kind nibble this kind occupies in a header byte.
    pub open spec fn spec_value(self) -> u8 {
        match self {
            MessageType::BaseMessageType => 0x00,
            MessageType::PositionVectorMessageType => 0x01,
            MessageType::SystemMessageType => 0x04,
        }
    }

    /// Returns the message-kind nibble of this kind.
    pub fn value(&self) -> (r: u8)
        ensures
            r == self.spec_value(),
    {
        match self {
            MessageType::BaseMessageType => 0x00,
            MessageType::PositionVectorMessageType => 0x01,
            MessageType::SystemMessageType => 0x04,
        }
    }
}

/// The header byte of a sub-message of kind `t`: the kind nibble above
/// the protocol-version nibble.
pub open spec fn spec_header_byte(t: MessageType) -> u8 {
    spec_pack_nibbles(t.spec_value(), PROTOCOL_VERSION)
}

/// A sub-message that encodes itself into a fixed-width byte record.
pub trait Message {
    /// The outcome `encode` must produce: the exact wire bytes, or the
    /// exact error reported.
    spec fn spec_encode(&self) -> Result<Seq<u8>, MessageError>;

    /// Encodes the message into its wire bytes.
    fn encode(&self) -> (r: Result<Vec<u8>, MessageError>)
        ensures
            r is Ok <==> self.spec_encode() is Ok,
            r is Ok ==> r->Ok_0@ == self.spec_encode()->Ok_0,
            r is Err ==> r->Err_0 == self.spec_encode()->Err_0,
    ;
}

} // verus!

//! The identity sub-message: a fixed 25-byte record naming the
//! broadcasting unit.

use vstd::prelude::*;
use vstd::string::{StrSliceExecFns, StringExecFns};
use vstd::utf8::encode_utf8;
use crate::codec::{pack_nibbles, spec_pack_nibbles};
use crate::message::{spec_header_byte, Message, MessageError, MessageType, PROTOCOL_VERSION};

verus! {

/// Byte capacity of the identity field on the wire.
pub const UAS_ID_CAPACITY: usize = 23;

/// The identity sub-message.
#[derive(Debug, Clone, PartialEq)]
pub struct BaseMessage {
    /// Identity-type code, kept in bits 7..4 of the type byte.
    pub id_type: u8,
    /// Unit-type code, kept in bits 3..0 of the type byte.
    pub ua_type: u8,
    /// The identity text; at most `UAS_ID_CAPACITY` UTF-8 bytes fit the wire.
    pub uas_id: String,
    /// Spare bytes kept beside the fields; they never reach the wire.
    pub reserved: [u8; 3],
}

impl BaseMessage {
    /// Builds an identity message carrying `uas_id`, with both type codes
    /// set to 1.
    pub fn new(uas_id: &str) -> (r: Self)
        ensures
            r.id_type == 1,
            r.ua_type == 1,
            r.uas_id@ == uas_id@,
            r.reserved == [0u8, 0u8, 0u8],
    {
        BaseMessage {
            id_type: 1,
            ua_type: 1,
            uas_id: String::from_str(uas_id),
            reserved: [0, 0, 0],
        }
    }

    /// The UTF-8 bytes of the identity as they would appear on the wire.
    pub open spec fn id_bytes(self) -> Seq<u8> {
        encode_utf8(self.uas_id@)
    }

    /// Whether the identity fits its wire capacity.
    pub open spec fn encodable(self) -> bool {
        self.id_bytes().len() <= UAS_ID_CAPACITY
    }

    /// The 25 wire bytes: header byte, type byte, identity bytes, then
    /// zero padding up to the identity capacity.
    pub open spec fn wire_bytes(self) -> Seq<u8>
        recommends
            self.encodable(),
    {
        seq![
            spec_header_byte(MessageType::BaseMessageType),
            spec_pack_nibbles(self.id_type, self.ua_type),
        ] + self.id_bytes()
            + Seq::new((UAS_ID_CAPACITY - self.id_bytes().len()) as nat, |i: int| 0u8)
    }
}

impl Message for BaseMessage {
    open spec fn spec_encode(&self) -> Result<Seq<u8>, MessageError> {
        if self.encodable() {
            Ok(self.wire_bytes())
        } else {
            Err(MessageError::InsufficientLength(UAS_ID_CAPACITY, self.id_bytes().len() as usize))
        }
    }

    /// An identity longer than the wire capacity is rejected before any
    /// byte is assembled.
    fn encode(&self) -> (r: Result<Vec<u8>, MessageError>) {
        let mut uas_bytes = self.uas_id.as_str().as_bytes_vec();
        if uas_bytes.len() > UAS_ID_CAPACITY {
            return Err(MessageError::InsufficientLength(UAS_ID_CAPACITY, uas_bytes.len()));
        }
        let pad_len = UAS_ID_CAPACITY - uas_bytes.len();
        let mut bytes: Vec<u8> = Vec::new();
        bytes.push(pack_nibbles(MessageType::BaseMessageType.value(), PROTOCOL_VERSION));
        bytes.push(pack_nibbles(self.id_type, self.ua_type));
        bytes.append(&mut uas_bytes);
        proof {
            assert(bytes@ =~= seq![
                spec_header_byte(MessageType::BaseMessageType),
                spec_pack_nibbles(self.id_type, self.ua_type),
            ] + self.id_bytes() + Seq::new(0, |i: int| 0u8));
        }
        let mut j: usize = 0;
        while j < pad_len
            invariant
                j <= pad_len,
                self.encodable(),
                pad_len == UAS_ID_CAPACITY - self.id_bytes().len(),
                bytes@ == seq![
                    spec_header_byte(MessageType::BaseMessageType),
                    spec_pack_nibbles(self.id_type, self.ua_type),
                ] + self.id_bytes() + Seq::new(j as nat, |i: int| 0u8),
            decreases pad_len - j,
        {
            bytes.push(0u8);
            j = j + 1;
            proof {
                assert(bytes@ =~= seq![
                    spec_header_byte(MessageType::BaseMessageType),
                    spec_pack_nibbles(self.id_type, self.ua_type),
                ] + self.id_bytes() + Seq::new(j as nat, |i: int| 0u8));
            }
        }
        proof {
            assert(bytes@ =~= self.wire_bytes());
        }
        Ok(bytes)
    }
}

/// Law: an identity of at most 23 UTF-8 bytes encodes to exactly 25 bytes,
/// with the identity bytes standing at offsets 2 onward and zero padding
/// filling the rest.
pub proof fn lemma_base_message_layout(m: BaseMessage)
    requires
        m.encodable(),
    ensures
        m.spec_encode() is Ok,
        m.spec_encode()->Ok_0.len() == 25,
        forall|i: int|
            0 <= i < m.id_bytes().len() ==> m.spec_encode()->Ok_0[2 + i] == m.id_bytes()[i],
        forall|i: int|
            2 + m.id_bytes().len() <= i < 25 ==> m.spec_encode()->Ok_0[i] == 0u8,
{
}

} // verus!

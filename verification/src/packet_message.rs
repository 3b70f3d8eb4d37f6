//! The packet assembler: one sequenced, checksummed 84-byte packet built
//! from the three sub-messages.

use vstd::prelude::*;
use vstd::string::StringExecFns;
use crate::base_message::BaseMessage;
use crate::codec::{push_le16, spec_le16};
use crate::message::{Message, MessageError};
use crate::network_name::{spec_truncate_chars, truncate_network_name, NETWORK_NAME_CAPACITY};
use crate::position_vector_message::PositionVectorMessage;
use crate::sequence::SequenceCounter;
use crate::system_message::SystemMessage;

verus! {

/// The CRC-16/XMODEM checksum of a byte sequence: polynomial 0x1021,
/// initial value zero, no final exclusive-or. The computation is left to
/// the checksum crate; only the name is reasoned about.
pub uninterp spec fn crc16_xmodem_of(data: Seq<u8>) -> u16;

/// Relies on crc16::State::<XMODEM>::calculate: the CRC-16/XMODEM
/// checksum of the bytes, a pure function of them alone.
#[verifier::external_body]
fn crc16_xmodem(data: &[u8]) -> (r: u16)
    ensures
        r == crc16_xmodem_of(data@),
{
    crc16::State::<crc16::XMODEM>::calculate(data)
}

/// The whole broadcast packet: the three sub-messages together with the
/// fixed header markers of the outer layout.
#[derive(Debug)]
pub struct PacketMessage {
    /// The fixed protocol marker, byte 1 of the packet.
    pub protocol_version: u8,
    /// How many sub-messages the packet carries.
    pub message_counter: u8,
    /// The fixed per-message size.
    pub message_size: u8,
    /// The fixed message-count marker, byte 3 of the packet.
    pub message_quantity: u8,
    /// The identity sub-message.
    pub base_message: BaseMessage,
    /// The system/operator sub-message.
    pub system_message: SystemMessage,
    /// The location/vector sub-message.
    pub position_message: PositionVectorMessage,
    /// Checksum scratch value; the wire checksum is always recomputed.
    pub checksum: u16,
    /// The trailing reserved bytes.
    pub reserved: [u8; 3],
}

impl PacketMessage {
    /// Builds a packet around the three sub-messages, with the fixed
    /// header markers in place.
    pub fn new(base: BaseMessage, system: SystemMessage, position: PositionVectorMessage) -> (r:
        Self)
        ensures
            r.protocol_version == 0xF1,
            r.message_counter == 3,
            r.message_size == 25,
            r.message_quantity == 3,
            r.base_message == base,
            r.system_message == system,
            r.position_message == position,
            r.checksum == 0,
            r.reserved == [0u8, 0u8, 0u8],
    {
        PacketMessage {
            protocol_version: 0xF1,
            message_counter: 3,
            message_size: 25,
            message_quantity: 3,
            base_message: base,
            system_message: system,
            position_message: position,
            checksum: 0,
            reserved: [0, 0, 0],
        }
    }

    /// Builds the broadcast package from the fixed identity and the
    /// fixed fake coordinates.
    pub fn build_rid_package() -> (r: Self)
        ensures
            r.protocol_version == 0xF1,
            r.message_counter == 3,
            r.message_size == 25,
            r.checksum == 0,
            r.reserved == [0u8, 0u8, 0u8],
            r.base_message.id_type == 1,
            r.base_message.ua_type == 1,
            r.base_message.uas_id@ == "1581F7FVC251A00CQ211"@,
            r.base_message.reserved == [0u8, 0u8, 0u8],
            r.system_message == (SystemMessage {
                coordinate_system: 0,
                reserved_bits: 0,
                classification_region: 2,
                station_type: 1,
                latitude: 1234844601,
                longitude: 417144677,
                operation_count: 1,
                operation_radius: 0,
                altitude_upper: 0,
                altitude_lower: 0,
                ua_category: 0,
                ua_level: 0,
                station_altitude: 0,
                timestamp: 0,
                reserved: 0,
            }),
            r.position_message == (PositionVectorMessage {
                run_status: 0,
                reserved_flag: false,
                height_type: 0,
                track_direction: 0,
                speed_multiplier: 0,
                track_angle: 0,
                ground_speed: 0,
                vertical_speed: 0,
                latitude: 1234844601,
                longitude: 417144677,
                pressure_altitude: 0,
                geometric_altitude: 0,
                ground_altitude: 0,
                vertical_accuracy: 0,
                horizontal_accuracy: 0,
                speed_accuracy: 0,
                timestamp: 0,
                timestamp_accuracy: 0,
                reserved: 0,
            }),
            r.message_quantity == 3,
            r.base_message.encodable(),
    {
        let fake_latitude: i32 = 1234844601;
        let fake_longitude: i32 = 417144677;
        let base = BaseMessage::new("1581F7FVC251A00CQ211");
        proof {
            reveal_strlit("1581F7FVC251A00CQ211");
            assert(vstd::utf8::is_ascii_chars(base.uas_id@));
            vstd::utf8::is_ascii_chars_encode_utf8(base.uas_id@);
        }
        let system = SystemMessage::new(fake_latitude, fake_longitude);
        let position = PositionVectorMessage::new(fake_latitude, fake_longitude);
        Self::new(base, system, position)
    }

    /// The first 79 bytes of the packet for sequence value `seq_value`:
    /// the four header bytes, then the three sub-messages in their fixed
    /// order.
    pub open spec fn spec_body(self, seq_value: u8) -> Seq<u8>
        recommends
            self.base_message.encodable(),
    {
        seq![seq_value, 0xF1u8, 0x19u8, 0x03u8] + self.base_message.wire_bytes()
            + self.position_message.wire_bytes() + self.system_message.wire_bytes()
    }

    /// The full 84-byte packet for sequence value `seq_value`: the body,
    /// its little-endian checksum, then three reserved zero bytes.
    pub open spec fn spec_packet(self, seq_value: u8) -> Seq<u8>
        recommends
            self.base_message.encodable(),
    {
        self.spec_body(seq_value) + spec_le16(crc16_xmodem_of(self.spec_body(seq_value)))
            + seq![0u8, 0u8, 0u8]
    }

    /// The network name: the fixed prefix followed by the identity,
    /// truncated to the capacity of a name field.
    pub fn get_ssid(&self) -> (r: String)
        ensures
            r@ == spec_truncate_chars(
                "RID-"@ + self.base_message.uas_id@,
                NETWORK_NAME_CAPACITY as nat,
            ),
            vstd::utf8::encode_utf8(r@).len() <= NETWORK_NAME_CAPACITY,
    {
        let mut name = String::from_str("RID-");
        name.append(self.base_message.uas_id.as_str());
        truncate_network_name(name)
    }

    /// Encodes the packet, drawing the sequence value from `counter`;
    /// stepping the counter is the only side effect. An identity that
    /// exceeds its capacity is reported before any byte is assembled and
    /// leaves the counter untouched.
    pub fn encode(&self, counter: &mut SequenceCounter) -> (r: Result<Vec<u8>, MessageError>)
        ensures
            r is Ok <==> self.base_message.encodable(),
            r is Ok ==> r->Ok_0@ == self.spec_packet(old(counter).value) && final(counter).value
                == SequenceCounter::spec_next(old(counter).value),
            r is Err ==> r->Err_0 == self.base_message.spec_encode()->Err_0 && *final(counter)
                == *old(counter),
    {
        let mut base_bytes = match self.base_message.encode() {
            Ok(b) => b,
            Err(e) => {
                return Err(e);
            },
        };
        let mut position_bytes = match self.position_message.encode() {
            Ok(b) => b,
            Err(e) => {
                return Err(e);
            },
        };
        let mut system_bytes = match self.system_message.encode() {
            Ok(b) => b,
            Err(e) => {
                return Err(e);
            },
        };
        let seq_value = counter.next_value();
        let mut bytes: Vec<u8> = Vec::new();
        bytes.push(seq_value);
        bytes.push(0xF1);
        bytes.push(0x19);
        bytes.push(0x03);
        bytes.append(&mut base_bytes);
        bytes.append(&mut position_bytes);
        bytes.append(&mut system_bytes);
        proof {
            assert(bytes@ =~= self.spec_body(seq_value));
        }
        let checksum = crc16_xmodem(bytes.as_slice());
        push_le16(&mut bytes, checksum);
        bytes.push(0);
        bytes.push(0);
        bytes.push(0);
        proof {
            assert(bytes@ =~= self.spec_packet(seq_value));
        }
        Ok(bytes)
    }
}

/// Law: a packet is exactly 84 bytes long; byte 0 carries the sequence
/// value and bytes 1..4 the fixed markers 0xF1, 0x19 and 3, whatever the
/// field values; bytes 81..84 are zero.
pub proof fn lemma_packet_layout(p: PacketMessage, seq_value: u8)
    requires
        p.base_message.encodable(),
    ensures
        p.spec_packet(seq_value).len() == 84,
        p.spec_packet(seq_value)[0] == seq_value,
        p.spec_packet(seq_value)[1] == 0xF1u8,
        p.spec_packet(seq_value)[2] == 0x19u8,
        p.spec_packet(seq_value)[3] == 0x03u8,
        p.spec_packet(seq_value)[81] == 0u8,
        p.spec_packet(seq_value)[82] == 0u8,
        p.spec_packet(seq_value)[83] == 0u8,
{
    crate::base_message::lemma_base_message_layout(p.base_message);
    crate::position_vector_message::lemma_position_vector_length(p.position_message);
    crate::system_message::lemma_system_message_length(p.system_message);
}

/// Law: the two bytes at offsets 79..81 hold, little-endian, the
/// CRC-16/XMODEM checksum of bytes 0..79.
pub proof fn lemma_packet_checksum(p: PacketMessage, seq_value: u8)
    requires
        p.base_message.encodable(),
    ensures
        p.spec_packet(seq_value).subrange(79, 81) == spec_le16(
            crc16_xmodem_of(p.spec_packet(seq_value).subrange(0, 79)),
        ),
{
    crate::base_message::lemma_base_message_layout(p.base_message);
    crate::position_vector_message::lemma_position_vector_length(p.position_message);
    crate::system_message::lemma_system_message_length(p.system_message);
    assert(p.spec_body(seq_value).len() == 79);
    assert(p.spec_packet(seq_value).subrange(0, 79) =~= p.spec_body(seq_value));
    assert(p.spec_packet(seq_value).subrange(79, 81) =~= spec_le16(
        crc16_xmodem_of(p.spec_body(seq_value)),
    ));
}

} // verus!

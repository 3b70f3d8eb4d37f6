//! The system/operator sub-message: a fixed 25-byte record describing the
//! control station, the operation area, and a timestamp.

use vstd::prelude::*;
use crate::codec::{pack_nibbles, push_le16, push_le32, push_le32_signed, spec_le16, spec_le32, spec_pack_nibbles};
use crate::message::{spec_header_byte, Message, MessageError, MessageType, PROTOCOL_VERSION};

verus! {

/// The system/operator sub-message.
#[derive(Debug, Clone, PartialEq)]
pub struct SystemMessage {
    /// Coordinate-system flag; its low 7 bits are shifted into bits 7..1
    /// of the flags byte.
    pub coordinate_system: u8,
    /// Reserved bits, shifted into bits 6..5 of the flags byte.
    pub reserved_bits: u8,
    /// Classification region, shifted into bits 4..2 of the flags byte.
    pub classification_region: u8,
    /// Station-type code, bits 1..0 of the flags byte.
    pub station_type: u8,
    /// Station latitude in 1e-7 degree units, little-endian on the wire.
    pub latitude: i32,
    /// Station longitude in 1e-7 degree units, little-endian on the wire.
    pub longitude: i32,
    /// Operation-area count, little-endian on the wire.
    pub operation_count: u16,
    /// Operation-area radius, in units of 10.
    pub operation_radius: u8,
    /// Upper altitude bound of the operation area, little-endian.
    pub altitude_upper: u16,
    /// Lower altitude bound of the operation area, little-endian.
    pub altitude_lower: u16,
    /// Unit category, the high nibble of its packed byte.
    pub ua_category: u8,
    /// Unit level, the low nibble of its packed byte.
    pub ua_level: u8,
    /// Station altitude, little-endian on the wire.
    pub station_altitude: u16,
    /// Epoch timestamp, little-endian on the wire. The caller fills it
    /// from an external clock before encoding; it is never computed here.
    pub timestamp: u32,
    /// Trailing reserved byte.
    pub reserved: u8,
}

impl SystemMessage {
    /// Builds a system message for a station at the given coordinates:
    /// classification region 2, station type 1, one operation area, every
    /// other field cleared.
    pub fn new(latitude: i32, longitude: i32) -> (r: Self)
        ensures
            r == (SystemMessage {
                coordinate_system: 0,
                reserved_bits: 0,
                classification_region: 2,
                station_type: 1,
                latitude,
                longitude,
                operation_count: 1,
                operation_radius: 0,
                altitude_upper: 0,
                altitude_lower: 0,
                ua_category: 0,
                ua_level: 0,
                station_altitude: 0,
                timestamp: 0,
                reserved: 0,
            }),
    {
        SystemMessage {
            coordinate_system: 0,
            reserved_bits: 0,
            classification_region: 2,
            station_type: 1,
            latitude,
            longitude,
            operation_count: 1,
            operation_radius: 0,
            altitude_upper: 0,
            altitude_lower: 0,
            ua_category: 0,
            ua_level: 0,
            station_altitude: 0,
            timestamp: 0,
            reserved: 0,
        }
    }

    /// The flags byte: the low 7 bits of the coordinate-system flag
    /// shifted up by one, overlaid with the reserved bits in bits 6..5,
    /// the classification region in bits 4..2 and the station type in
    /// bits 1..0.
    pub open spec fn spec_flags_byte(self) -> u8 {
        ((self.coordinate_system & 0x7F) << 1) | ((self.reserved_bits & 0x03) << 5)
            | ((self.classification_region & 0x07) << 2) | (self.station_type & 0x03)
    }

    /// The 25 wire bytes of the record.
    pub open spec fn wire_bytes(self) -> Seq<u8> {
        seq![spec_header_byte(MessageType::SystemMessageType), self.spec_flags_byte()]
            + spec_le32(self.latitude as u32) + spec_le32(self.longitude as u32)
            + spec_le16(self.operation_count) + seq![self.operation_radius]
            + spec_le16(self.altitude_upper) + spec_le16(self.altitude_lower)
            + seq![spec_pack_nibbles(self.ua_category, self.ua_level)]
            + spec_le16(self.station_altitude) + spec_le32(self.timestamp)
            + seq![self.reserved]
    }
}

impl Message for SystemMessage {
    open spec fn spec_encode(&self) -> Result<Seq<u8>, MessageError> {
        Ok(self.wire_bytes())
    }

    /// Every field is fixed-width, so encoding cannot fail.
    fn encode(&self) -> (r: Result<Vec<u8>, MessageError>) {
        let mut bytes: Vec<u8> = Vec::new();
        bytes.push(pack_nibbles(MessageType::SystemMessageType.value(), PROTOCOL_VERSION));
        bytes.push(
            ((self.coordinate_system & 0x7F) << 1) | ((self.reserved_bits & 0x03) << 5)
                | ((self.classification_region & 0x07) << 2) | (self.station_type & 0x03),
        );
        push_le32_signed(&mut bytes, self.latitude);
        push_le32_signed(&mut bytes, self.longitude);
        push_le16(&mut bytes, self.operation_count);
        bytes.push(self.operation_radius);
        push_le16(&mut bytes, self.altitude_upper);
        push_le16(&mut bytes, self.altitude_lower);
        bytes.push(pack_nibbles(self.ua_category, self.ua_level));
        push_le16(&mut bytes, self.station_altitude);
        push_le32(&mut bytes, self.timestamp);
        bytes.push(self.reserved);
        proof {
            assert(bytes@ =~= self.wire_bytes());
        }
        Ok(bytes)
    }
}

/// Law: every field assignment encodes to exactly 25 bytes.
pub proof fn lemma_system_message_length(m: SystemMessage)
    ensures
        m.spec_encode() is Ok,
        m.spec_encode()->Ok_0.len() == 25,
{
}

} // verus!

//! The location/vector sub-message: a fixed 25-byte record of position,
//! altitude, heading and speed.

use vstd::prelude::*;
use crate::codec::{
    pack_nibbles, push_le16, push_le16_signed, push_le32_signed, spec_le16, spec_le32,
    spec_pack_nibbles,
};
use crate::message::{spec_header_byte, Message, MessageError, MessageType, PROTOCOL_VERSION};

verus! {

/// The location/vector sub-message.
#[derive(Debug, Clone, PartialEq)]
pub struct PositionVectorMessage {
    /// Operational status, bits 7..4 of the status byte.
    pub run_status: u8,
    /// Reserved flag, bit 3 of the status byte.
    pub reserved_flag: bool,
    /// Height-type code, shifted into bits 3..2 of the status byte.
    pub height_type: u8,
    /// East/west track-direction flag, bit 1 of the status byte.
    pub track_direction: u8,
    /// Speed-multiplier flag, bit 0 of the status byte.
    pub speed_multiplier: u8,
    /// Raw track angle.
    pub track_angle: u8,
    /// Signed ground speed.
    pub ground_speed: i8,
    /// Signed vertical speed.
    pub vertical_speed: i8,
    /// Latitude in 1e-7 degree units, little-endian on the wire.
    pub latitude: i32,
    /// Longitude in 1e-7 degree units, little-endian on the wire.
    pub longitude: i32,
    /// Pressure altitude, little-endian on the wire.
    pub pressure_altitude: i16,
    /// Geometric altitude, little-endian on the wire.
    pub geometric_altitude: i16,
    /// Height above ground, little-endian on the wire.
    pub ground_altitude: i16,
    /// Vertical accuracy, the high nibble of the accuracy byte.
    pub vertical_accuracy: u8,
    /// Horizontal accuracy, the low nibble of the accuracy byte.
    pub horizontal_accuracy: u8,
    /// Speed accuracy, kept alone in the low nibble of its byte.
    pub speed_accuracy: u8,
    /// Timestamp, little-endian on the wire.
    pub timestamp: u16,
    /// Timestamp accuracy, the high nibble of the final packed byte.
    pub timestamp_accuracy: u8,
    /// Reserved value: its low nibble joins the final packed byte and the
    /// whole byte trails the record.
    pub reserved: u8,
}

impl PositionVectorMessage {
    /// Builds a location/vector message at the given coordinates, every
    /// other field cleared.
    pub fn new(latitude: i32, longitude: i32) -> (r: Self)
        ensures
            r == (PositionVectorMessage {
                run_status: 0,
                reserved_flag: false,
                height_type: 0,
                track_direction: 0,
                speed_multiplier: 0,
                track_angle: 0,
                ground_speed: 0,
                vertical_speed: 0,
                latitude,
                longitude,
                pressure_altitude: 0,
                geometric_altitude: 0,
                ground_altitude: 0,
                vertical_accuracy: 0,
                horizontal_accuracy: 0,
                speed_accuracy: 0,
                timestamp: 0,
                timestamp_accuracy: 0,
                reserved: 0,
            }),
    {
        PositionVectorMessage {
            run_status: 0,
            reserved_flag: false,
            height_type: 0,
            track_direction: 0,
            speed_multiplier: 0,
            track_angle: 0,
            ground_speed: 0,
            vertical_speed: 0,
            latitude,
            longitude,
            pressure_altitude: 0,
            geometric_altitude: 0,
            ground_altitude: 0,
            vertical_accuracy: 0,
            horizontal_accuracy: 0,
            speed_accuracy: 0,
            timestamp: 0,
            timestamp_accuracy: 0,
            reserved: 0,
        }
    }

    /// The status byte: run status in bits 7..4, the reserved flag in
    /// bit 3, height type in bits 3..2, track direction in bit 1 and the
    /// speed multiplier in bit 0; oversized values keep their low bits.
    pub open spec fn spec_status_byte(self) -> u8 {
        ((self.run_status & 0x0F) << 4) | ((if self.reserved_flag { 1u8 } else { 0u8 }) << 3)
            | ((self.height_type & 0x03) << 2) | ((self.track_direction & 0x01) << 1)
            | (self.speed_multiplier & 0x01)
    }

    /// The 25 wire bytes of the record.
    pub open spec fn wire_bytes(self) -> Seq<u8> {
        seq![
            spec_header_byte(MessageType::PositionVectorMessageType),
            self.spec_status_byte(),
            self.track_angle,
            self.ground_speed as u8,
            self.vertical_speed as u8,
        ] + spec_le32(self.latitude as u32) + spec_le32(self.longitude as u32)
            + spec_le16(self.pressure_altitude as u16) + spec_le16(self.geometric_altitude as u16)
            + spec_le16(self.ground_altitude as u16)
            + seq![
            spec_pack_nibbles(self.vertical_accuracy, self.horizontal_accuracy),
            (self.speed_accuracy & 0x0F),
        ] + spec_le16(self.timestamp)
            + seq![spec_pack_nibbles(self.timestamp_accuracy, self.reserved), self.reserved]
    }

    /// The full track angle implied by the direction flag: the raw angle
    /// plus 180 degrees when the flag is set. Decode-side semantics only;
    /// the sum never reaches the wire.
    pub fn calculate_full_track_angle(&self) -> (r: u16)
        ensures
            r == (if self.track_direction == 1 {
                self.track_angle + 180
            } else {
                self.track_angle as int
            }),
    {
        if self.track_direction == 1 {
            self.track_angle as u16 + 180
        } else {
            self.track_angle as u16
        }
    }
}

impl Message for PositionVectorMessage {
    open spec fn spec_encode(&self) -> Result<Seq<u8>, MessageError> {
        Ok(self.wire_bytes())
    }

    /// Every field is fixed-width, so encoding cannot fail.
    fn encode(&self) -> (r: Result<Vec<u8>, MessageError>) {
        let mut bytes: Vec<u8> = Vec::new();
        bytes.push(pack_nibbles(MessageType::PositionVectorMessageType.value(), PROTOCOL_VERSION));
        let flag: u8 = if self.reserved_flag { 1 } else { 0 };
        bytes.push(
            ((self.run_status & 0x0F) << 4) | (flag << 3) | ((self.height_type & 0x03) << 2)
                | ((self.track_direction & 0x01) << 1) | (self.speed_multiplier & 0x01),
        );
        bytes.push(self.track_angle);
        bytes.push(self.ground_speed as u8);
        bytes.push(self.vertical_speed as u8);
        push_le32_signed(&mut bytes, self.latitude);
        push_le32_signed(&mut bytes, self.longitude);
        push_le16_signed(&mut bytes, self.pressure_altitude);
        push_le16_signed(&mut bytes, self.geometric_altitude);
        push_le16_signed(&mut bytes, self.ground_altitude);
        bytes.push(pack_nibbles(self.vertical_accuracy, self.horizontal_accuracy));
        bytes.push(self.speed_accuracy & 0x0F);
        push_le16(&mut bytes, self.timestamp);
        bytes.push(pack_nibbles(self.timestamp_accuracy, self.reserved));
        bytes.push(self.reserved);
        proof {
            assert(bytes@ =~= self.wire_bytes());
        }
        Ok(bytes)
    }
}

/// Law: every field assignment encodes to exactly 25 bytes.
pub proof fn lemma_position_vector_length(m: PositionVectorMessage)
    ensures
        m.spec_encode() is Ok,
        m.spec_encode()->Ok_0.len() == 25,
{
}

} // verus!

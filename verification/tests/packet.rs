use rid_beacon::base_message::BaseMessage;
use rid_beacon::beacon::{build_vendor_element, VENDOR_ELEMENT_TAG};
use rid_beacon::message::{Message, MessageError};
use rid_beacon::packet_message::PacketMessage;
use rid_beacon::position_vector_message::PositionVectorMessage;
use rid_beacon::sequence::SequenceCounter;
use rid_beacon::system_message::SystemMessage;

fn sample_package(identity: &str) -> PacketMessage {
    let base = BaseMessage::new(identity);
    let system = SystemMessage::new(1234844601, 417144677);
    let position = PositionVectorMessage::new(1234844601, 417144677);
    PacketMessage::new(base, system, position)
}

#[test]
fn packet_layout() {
    let package = PacketMessage::build_rid_package();
    let mut counter = SequenceCounter::new();
    let bytes = package.encode(&mut counter).unwrap();
    assert_eq!(bytes.len(), 84);
    assert_eq!(bytes[0], 1);
    assert_eq!(&bytes[1..4], &[0xF1, 0x19, 0x03]);
    // Sub-message headers at their fixed offsets.
    assert_eq!(bytes[4], 0x01);
    assert_eq!(bytes[29], 0x11);
    assert_eq!(bytes[54], 0x41);
    // Trailing reserved bytes are zero.
    assert_eq!(&bytes[81..84], &[0, 0, 0]);
}

#[test]
fn packet_sub_messages_in_order() {
    let package = sample_package("DRONE1");
    let mut counter = SequenceCounter::new();
    let bytes = package.encode(&mut counter).unwrap();
    assert_eq!(&bytes[4..29], package.base_message.encode().unwrap().as_slice());
    assert_eq!(&bytes[29..54], package.position_message.encode().unwrap().as_slice());
    assert_eq!(&bytes[54..79], package.system_message.encode().unwrap().as_slice());
}

#[test]
fn packet_checksum_recomputed_independently() {
    let package = PacketMessage::build_rid_package();
    let mut counter = SequenceCounter::new();
    let bytes = package.encode(&mut counter).unwrap();
    let expected = crc16::State::<crc16::XMODEM>::calculate(&bytes[0..79]);
    assert_eq!(u16::from_le_bytes([bytes[79], bytes[80]]), expected);
    // The checksum responds to the covered bytes: a different sequence
    // value must change it.
    let bytes2 = package.encode(&mut counter).unwrap();
    let expected2 = crc16::State::<crc16::XMODEM>::calculate(&bytes2[0..79]);
    assert_eq!(u16::from_le_bytes([bytes2[79], bytes2[80]]), expected2);
    assert_ne!(expected, expected2);
}

#[test]
fn sequence_values_climb_by_one() {
    let package = PacketMessage::build_rid_package();
    let mut counter = SequenceCounter::new();
    for expected in 1..=5u8 {
        let bytes = package.encode(&mut counter).unwrap();
        assert_eq!(bytes[0], expected);
    }
}

#[test]
fn sequence_wraps_around() {
    let package = PacketMessage::build_rid_package();
    let mut counter = SequenceCounter { value: 254 };
    let seen: Vec<u8> = (0..4)
        .map(|_| package.encode(&mut counter).unwrap()[0])
        .collect();
    assert_eq!(seen, vec![254, 255, 0, 1]);
}

#[test]
fn sequence_counter_steps() {
    let mut counter = SequenceCounter::new();
    assert_eq!(counter.value, 1);
    assert_eq!(counter.next_value(), 1);
    assert_eq!(counter.value, 2);
    let mut counter = SequenceCounter { value: 255 };
    assert_eq!(counter.next_value(), 255);
    assert_eq!(counter.value, 0);
}

#[test]
fn packet_rejects_long_identity_and_keeps_counter() {
    let package = sample_package("ABCDEFGHIJKLMNOPQRSTUVWX");
    let mut counter = SequenceCounter::new();
    let r = package.encode(&mut counter);
    assert_eq!(r, Err(MessageError::InsufficientLength(23, 24)));
    assert_eq!(counter.value, 1);
}

#[test]
fn ssid_has_fixed_prefix() {
    let package = sample_package("DRONE1");
    assert_eq!(package.get_ssid(), "RID-DRONE1");
}

#[test]
fn ssid_for_default_package() {
    let package = PacketMessage::build_rid_package();
    assert_eq!(package.get_ssid(), "RID-1581F7FVC251A00CQ211");
}

#[test]
fn ssid_truncated_to_capacity() {
    let identity = "A".repeat(40);
    let package = sample_package(&identity);
    let ssid = package.get_ssid();
    assert_eq!(ssid.len(), 32);
    let expected = format!("RID-{}", "A".repeat(28));
    assert_eq!(ssid, expected);
}

#[test]
fn ssid_truncation_drops_whole_characters() {
    // 4 prefix bytes + 30 + 2 = 36 bytes; dropping the two-byte character
    // and then two more still leaves whole characters only.
    let identity = format!("{}\u{e9}", "a".repeat(30));
    let package = sample_package(&identity);
    let ssid = package.get_ssid();
    assert_eq!(ssid.len(), 32);
    let expected = format!("RID-{}", "a".repeat(28));
    assert_eq!(ssid, expected);
}

#[test]
fn vendor_element_wraps_packet() {
    let package = PacketMessage::build_rid_package();
    let mut counter = SequenceCounter::new();
    let packet = package.encode(&mut counter).unwrap();
    let element = build_vendor_element(&packet);
    assert_eq!(element.len(), 88);
    assert_eq!(&element[0..4], &[0xFA, 0x0B, 0xBC, 0x0D]);
    assert_eq!(&element[4..], packet.as_slice());
    assert_eq!(VENDOR_ELEMENT_TAG, 0xDD);
}

#[test]
fn crc16_known_check_value() {
    // The well-known CRC-16/XMODEM check value.
    assert_eq!(crc16::State::<crc16::XMODEM>::calculate(b"123456789"), 0x31C3);
}

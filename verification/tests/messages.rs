use rid_beacon::base_message::BaseMessage;
use rid_beacon::message::{Message, MessageError, MessageType};
use rid_beacon::position_vector_message::PositionVectorMessage;
use rid_beacon::system_message::SystemMessage;

#[test]
fn message_type_values() {
    assert_eq!(MessageType::BaseMessageType.value(), 0x00);
    assert_eq!(MessageType::PositionVectorMessageType.value(), 0x01);
    assert_eq!(MessageType::SystemMessageType.value(), 0x04);
}

#[test]
fn base_message_example_vector() {
    let m = BaseMessage::new("TEST");
    let bytes = m.encode().unwrap();
    let mut expected = vec![0x01u8, 0x11, b'T', b'E', b'S', b'T'];
    expected.resize(25, 0);
    assert_eq!(bytes, expected);
}

#[test]
fn base_message_empty_identity() {
    let m = BaseMessage::new("");
    let bytes = m.encode().unwrap();
    assert_eq!(bytes.len(), 25);
    assert_eq!(bytes[0], 0x01);
    assert_eq!(bytes[1], 0x11);
    assert!(bytes[2..].iter().all(|&b| b == 0));
}

#[test]
fn base_message_identity_at_capacity() {
    let id = "ABCDEFGHIJKLMNOPQRSTUVW";
    assert_eq!(id.len(), 23);
    let m = BaseMessage::new(id);
    let bytes = m.encode().unwrap();
    assert_eq!(bytes.len(), 25);
    assert_eq!(&bytes[2..25], id.as_bytes());
}

#[test]
fn base_message_identity_too_long() {
    let id = "ABCDEFGHIJKLMNOPQRSTUVWX";
    assert_eq!(id.len(), 24);
    let m = BaseMessage::new(id);
    assert_eq!(m.encode(), Err(MessageError::InsufficientLength(23, 24)));
}

#[test]
fn base_message_multibyte_identity() {
    let m = BaseMessage::new("h\u{e9}llo");
    let bytes = m.encode().unwrap();
    assert_eq!(bytes.len(), 25);
    assert_eq!(&bytes[2..8], "h\u{e9}llo".as_bytes());
    assert!(bytes[8..].iter().all(|&b| b == 0));
}

#[test]
fn base_message_type_codes_masked() {
    let m = BaseMessage {
        id_type: 0x12,
        ua_type: 0x34,
        uas_id: String::new(),
        reserved: [0, 0, 0],
    };
    let bytes = m.encode().unwrap();
    assert_eq!(bytes[1], 0x24);
}

#[test]
fn position_vector_example_vector() {
    let m = PositionVectorMessage {
        run_status: 2,
        reserved_flag: true,
        height_type: 1,
        track_direction: 1,
        speed_multiplier: 1,
        track_angle: 90,
        ground_speed: -5,
        vertical_speed: -2,
        latitude: 0x01020304,
        longitude: -2,
        pressure_altitude: 258,
        geometric_altitude: -1,
        ground_altitude: 100,
        vertical_accuracy: 10,
        horizontal_accuracy: 11,
        speed_accuracy: 5,
        timestamp: 0x1234,
        timestamp_accuracy: 7,
        reserved: 9,
    };
    let bytes = m.encode().unwrap();
    let expected = vec![
        0x11, 0x2F, 90, 251, 254, // header, status, angle, speeds
        0x04, 0x03, 0x02, 0x01, // latitude
        0xFE, 0xFF, 0xFF, 0xFF, // longitude
        0x02, 0x01, // pressure altitude
        0xFF, 0xFF, // geometric altitude
        0x64, 0x00, // ground altitude
        0xAB, 0x05, // accuracy bytes
        0x34, 0x12, // timestamp
        0x79, 9, // packed accuracy/reserved, trailing reserved
    ];
    assert_eq!(bytes, expected);
}

#[test]
fn position_vector_length_for_assorted_fields() {
    let mut m = PositionVectorMessage::new(0, 0);
    assert_eq!(m.encode().unwrap().len(), 25);
    m.run_status = 0xFF;
    m.track_direction = 0xFF;
    m.speed_multiplier = 0xFF;
    m.latitude = i32::MIN;
    m.longitude = i32::MAX;
    m.timestamp = u16::MAX;
    assert_eq!(m.encode().unwrap().len(), 25);
}

#[test]
fn position_vector_new_defaults() {
    let m = PositionVectorMessage::new(7, -9);
    assert_eq!(m.latitude, 7);
    assert_eq!(m.longitude, -9);
    assert_eq!(m.run_status, 0);
    assert_eq!(m.track_angle, 0);
    assert_eq!(m.ground_speed, 0);
    assert!(!m.reserved_flag);
}

#[test]
fn full_track_angle_accessor() {
    let mut m = PositionVectorMessage::new(0, 0);
    m.track_angle = 200;
    assert_eq!(m.calculate_full_track_angle(), 200);
    m.track_direction = 1;
    assert_eq!(m.calculate_full_track_angle(), 380);
}

#[test]
fn system_message_example_vector() {
    let m = SystemMessage {
        coordinate_system: 1,
        reserved_bits: 3,
        classification_region: 5,
        station_type: 2,
        latitude: 0x01020304,
        longitude: -1,
        operation_count: 513,
        operation_radius: 7,
        altitude_upper: 770,
        altitude_lower: 256,
        ua_category: 3,
        ua_level: 4,
        station_altitude: 50,
        timestamp: 0x01020304,
        reserved: 8,
    };
    let bytes = m.encode().unwrap();
    let expected = vec![
        0x41, 0x76, // header, flags
        0x04, 0x03, 0x02, 0x01, // latitude
        0xFF, 0xFF, 0xFF, 0xFF, // longitude
        0x01, 0x02, // operation count
        7,    // operation radius
        0x02, 0x03, // altitude upper
        0x00, 0x01, // altitude lower
        0x34, // category/level
        0x32, 0x00, // station altitude
        0x04, 0x03, 0x02, 0x01, // timestamp
        8,    // reserved
    ];
    assert_eq!(bytes, expected);
}

#[test]
fn system_message_new_defaults() {
    let m = SystemMessage::new(11, -12);
    assert_eq!(m.classification_region, 2);
    assert_eq!(m.station_type, 1);
    assert_eq!(m.operation_count, 1);
    assert_eq!(m.latitude, 11);
    assert_eq!(m.longitude, -12);
    let bytes = m.encode().unwrap();
    assert_eq!(bytes.len(), 25);
    assert_eq!(bytes[1], 0x09);
}

#[test]
fn system_message_length_for_assorted_fields() {
    let mut m = SystemMessage::new(i32::MIN, i32::MAX);
    m.timestamp = u32::MAX;
    m.operation_count = u16::MAX;
    m.ua_category = 0xFF;
    assert_eq!(m.encode().unwrap().len(), 25);
}

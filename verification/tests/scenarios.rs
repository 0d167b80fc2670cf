use bytes::BytesMut;
use mqtt_v5::codes::{DisconnectReason, PublishAckReason};
use mqtt_v5::decoder::decode_mqtt;
use mqtt_v5::error::DecodeError;
use mqtt_v5::packet::{ConnectPacket, DisconnectPacket, Packet, PublishAckPacket};

fn buffer(bytes: &[u8]) -> BytesMut {
    BytesMut::from(bytes)
}

#[test]
fn ping_request_leaves_buffer_empty() {
    let mut bytes = buffer(&[0xC0, 0x00]);
    assert_eq!(decode_mqtt(&mut bytes), Ok(Some(Packet::PingRequest)));
    assert!(bytes.is_empty());
}

#[test]
fn ping_response() {
    let mut bytes = buffer(&[0xD0, 0x00]);
    assert_eq!(decode_mqtt(&mut bytes), Ok(Some(Packet::PingResponse)));
    assert!(bytes.is_empty());
}

#[test]
fn disconnect_without_body_is_normal_disconnection() {
    let mut bytes = buffer(&[0xE0, 0x00]);
    let expected = Packet::Disconnect(DisconnectPacket {
        reason_code: DisconnectReason::NormalDisconnection,
        session_expiry_interval: None,
        reason_string: None,
        user_properties: vec![],
        server_reference: None,
    });
    assert_eq!(decode_mqtt(&mut bytes), Ok(Some(expected)));
    assert!(bytes.is_empty());
}

const CONNECT_BEGINNING: [u8; 19] = [
    0x10, 0x13, 0x00, 0x04, 0x4D, 0x51, 0x54, 0x54, 0x05, 0x02, 0x00, 0x3C, 0x00, 0x00, 0x04, 0x74,
    0x65, 0x73, 0x74,
];

fn minimal_connect_packet() -> Packet {
    Packet::Connect(ConnectPacket {
        protocol_name: "MQTT".to_string(),
        protocol_level: 5,
        clean_start: true,
        keep_alive: 60,
        session_expiry_interval: None,
        receive_maximum: None,
        maximum_packet_size: None,
        topic_alias_maximum: None,
        request_response_information: None,
        request_problem_information: None,
        user_properties: vec![],
        authentication_method: None,
        authentication_data: None,
        client_id: "test".to_string(),
        will: None,
        user_name: None,
        password: None,
    })
}

#[test]
fn minimal_connect() {
    // The frame announces 19 bytes and the fields take 17: two more bytes end it.
    let mut input = CONNECT_BEGINNING.to_vec();
    input.extend_from_slice(&[0x00, 0x00]);
    let mut bytes = buffer(&input);
    assert_eq!(decode_mqtt(&mut bytes), Ok(Some(minimal_connect_packet())));
    assert!(bytes.is_empty());
}

#[test]
fn minimal_connect_without_its_last_two_bytes_is_incomplete() {
    let mut bytes = buffer(&CONNECT_BEGINNING);
    assert_eq!(decode_mqtt(&mut bytes), Ok(None));
    assert_eq!(&bytes[..], &CONNECT_BEGINNING[..]);
}

#[test]
fn minimal_connect_of_exact_length() {
    let mut input = CONNECT_BEGINNING.to_vec();
    input[1] = 0x11;
    let mut bytes = buffer(&input);
    assert_eq!(decode_mqtt(&mut bytes), Ok(Some(minimal_connect_packet())));
    assert!(bytes.is_empty());
}

#[test]
fn short_publish_ack_defaults_to_success() {
    let mut bytes = buffer(&[0x40, 0x02, 0x00, 0x07]);
    let expected = Packet::PublishAck(PublishAckPacket {
        packet_id: 7,
        reason_code: PublishAckReason::Success,
        reason_string: None,
        user_properties: vec![],
    });
    assert_eq!(decode_mqtt(&mut bytes), Ok(Some(expected)));
    assert!(bytes.is_empty());
}

#[test]
fn truncated_connect_is_incomplete_and_untouched() {
    let input = [0x10, 0x13, 0x00, 0x04, 0x4D, 0x51, 0x54, 0x54];
    let mut bytes = buffer(&input);
    assert_eq!(decode_mqtt(&mut bytes), Ok(None));
    assert_eq!(bytes.len(), 8);
    assert_eq!(&bytes[..], &input[..]);
}

#[test]
fn connect_with_invalid_utf8_client_id() {
    let mut bytes = buffer(&[
        0x10, 0x0F, 0x00, 0x04, 0x4D, 0x51, 0x54, 0x54, 0x05, 0x02, 0x00, 0x3C, 0x00, 0x00, 0x02,
        0xFF, 0xFF,
    ]);
    assert_eq!(decode_mqtt(&mut bytes), Err(DecodeError::InvalidUtf8));
}

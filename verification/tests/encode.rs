use bytes::BytesMut;
use mqtt_v5::codes::{
    ConnectReason, DisconnectReason, PublishAckReason, PublishReleaseReason, QoS, RetainHandling,
    SubscribeAckReason,
};
use mqtt_v5::encoder::{encode_mqtt, encode_packet, try_encode_mqtt};
use mqtt_v5::error::EncodeError;
use mqtt_v5::packet::{
    ConnectAckPacket, ConnectPacket, DisconnectPacket, FinalWill, Packet, PublishAckPacket,
    PublishPacket, PublishReleasePacket, SubscribeAckPacket, SubscribePacket, SubscriptionTopic,
    UnsubscribePacket,
};
use mqtt_v5::properties::UserProperty;

fn connect() -> ConnectPacket {
    ConnectPacket {
        protocol_name: "MQTT".to_string(),
        protocol_level: 5,
        clean_start: true,
        keep_alive: 60,
        session_expiry_interval: None,
        receive_maximum: None,
        maximum_packet_size: None,
        topic_alias_maximum: None,
        request_response_information: None,
        request_problem_information: None,
        user_properties: vec![],
        authentication_method: None,
        authentication_data: None,
        client_id: "test".to_string(),
        will: None,
        user_name: None,
        password: None,
    }
}

fn publish() -> PublishPacket {
    PublishPacket {
        is_duplicate: false,
        qos: QoS::AtMostOnce,
        retain: false,
        topic_name: "t".to_string(),
        packet_id: None,
        payload_format_indicator: None,
        message_expiry_interval: None,
        topic_alias: None,
        response_topic: None,
        correlation_data: None,
        user_properties: vec![],
        subscription_identifier: None,
        content_type: None,
        payload: vec![],
    }
}

#[test]
fn minimal_connect_bytes() {
    let expected = vec![
        0x10, 0x11, 0x00, 0x04, 0x4D, 0x51, 0x54, 0x54, 0x05, 0x02, 0x00, 0x3C, 0x00, 0x00, 0x04,
        0x74, 0x65, 0x73, 0x74,
    ];
    assert_eq!(encode_packet(&Packet::Connect(connect())), Ok(expected));
}

#[test]
fn connect_flags_and_order_of_parts() {
    let mut packet = connect();
    packet.clean_start = false;
    packet.client_id = "c".to_string();
    packet.user_name = Some("u".to_string());
    packet.password = Some("p".to_string());
    packet.will = Some(FinalWill {
        topic: "t".to_string(),
        payload: vec![0xAA],
        qos: QoS::ExactlyOnce,
        should_retain: true,
        will_delay_interval: Some(1),
        payload_format_indicator: None,
        message_expiry_interval: None,
        content_type: None,
        response_topic: None,
        correlation_data: None,
        user_properties: vec![],
    });
    let expected = vec![
        0x10, 0x20, 0x00, 0x04, b'M', b'Q', b'T', b'T', 0x05, 0xF4, 0x00, 0x3C, 0x00, 0x00, 0x01,
        b'c', 0x05, 0x18, 0x00, 0x00, 0x00, 0x01, 0x00, 0x01, b't', 0x00, 0x01, 0xAA, 0x00, 0x01,
        b'u', 0x00, 0x01, b'p',
    ];
    assert_eq!(encode_packet(&Packet::Connect(packet)), Ok(expected));
}

#[test]
fn properties_are_written_by_ascending_identifier_and_user_properties_last() {
    let packet = ConnectAckPacket {
        session_present: true,
        reason_code: ConnectReason::Banned,
        session_expiry_interval: Some(1),
        receive_maximum: Some(2),
        maximum_qos: Some(QoS::AtLeastOnce),
        retain_available: None,
        maximum_packet_size: None,
        assigned_client_identifier: None,
        topic_alias_maximum: None,
        reason_string: Some("r".to_string()),
        user_properties: vec![
            UserProperty("b".to_string(), "1".to_string()),
            UserProperty("a".to_string(), "2".to_string()),
        ],
        wildcard_subscription_available: None,
        subscription_identifiers_available: None,
        shared_subscription_available: Some(1),
        server_keep_alive: Some(3),
        response_information: None,
        server_reference: None,
        authentication_method: None,
        authentication_data: None,
    };
    let expected = vec![
        0x20, 0x24, 0x01, 0x8A, 0x21, 0x11, 0x00, 0x00, 0x00, 0x01, 0x13, 0x00, 0x03, 0x1F, 0x00,
        0x01, b'r', 0x21, 0x00, 0x02, 0x24, 0x01, 0x2A, 0x01, 0x26, 0x00, 0x01, b'b', 0x00, 0x01,
        b'1', 0x26, 0x00, 0x01, b'a', 0x00, 0x01, b'2',
    ];
    assert_eq!(encode_packet(&Packet::ConnectAck(packet)), Ok(expected));
}

#[test]
fn publish_bytes() {
    let mut packet = publish();
    packet.payload = b"hi".to_vec();
    assert_eq!(
        encode_packet(&Packet::Publish(packet.clone())),
        Ok(vec![0x30, 0x06, 0x00, 0x01, b't', 0x00, b'h', b'i'])
    );
    packet.is_duplicate = true;
    packet.retain = true;
    packet.qos = QoS::AtLeastOnce;
    packet.packet_id = Some(10);
    packet.subscription_identifier = Some(321);
    assert_eq!(
        encode_packet(&Packet::Publish(packet)),
        Ok(vec![0x3B, 0x0B, 0x00, 0x01, b't', 0x00, 0x0A, 0x03, 0x0B, 0xC1, 0x02, b'h', b'i'])
    );
}

#[test]
fn publish_ack_always_has_reason_and_properties() {
    let packet = PublishAckPacket {
        packet_id: 7,
        reason_code: PublishAckReason::Success,
        reason_string: None,
        user_properties: vec![],
    };
    assert_eq!(
        encode_packet(&Packet::PublishAck(packet)),
        Ok(vec![0x40, 0x04, 0x00, 0x07, 0x00, 0x00])
    );
}

#[test]
fn reserved_flags_of_release_subscribe_and_unsubscribe() {
    let release = PublishReleasePacket {
        packet_id: 1,
        reason_code: PublishReleaseReason::PacketIdentifierNotFound,
        reason_string: None,
        user_properties: vec![],
    };
    assert_eq!(
        encode_packet(&Packet::PublishRelease(release)),
        Ok(vec![0x62, 0x04, 0x00, 0x01, 0x92, 0x00])
    );
    let subscribe = SubscribePacket {
        packet_id: 1,
        subscription_identifier: None,
        user_properties: vec![],
        subscription_topics: vec![SubscriptionTopic {
            topic: "a".to_string(),
            maximum_qos: QoS::ExactlyOnce,
            no_local: true,
            retain_as_published: true,
            retain_handling: RetainHandling::DoNotSend,
        }],
    };
    assert_eq!(
        encode_packet(&Packet::Subscribe(subscribe)),
        Ok(vec![0x82, 0x07, 0x00, 0x01, 0x00, 0x00, 0x01, b'a', 0x2E])
    );
    let unsubscribe = UnsubscribePacket {
        packet_id: 1,
        user_properties: vec![],
        topics: vec!["a".to_string()],
    };
    assert_eq!(
        encode_packet(&Packet::Unsubscribe(unsubscribe)),
        Ok(vec![0xA2, 0x06, 0x00, 0x01, 0x00, 0x00, 0x01, b'a'])
    );
}

#[test]
fn subscribe_ack_and_disconnect_bytes() {
    let ack = SubscribeAckPacket {
        packet_id: 1,
        reason_string: None,
        user_properties: vec![],
        reason_codes: vec![SubscribeAckReason::GrantedQoSOne, SubscribeAckReason::QuotaExceeded],
    };
    assert_eq!(
        encode_packet(&Packet::SubscribeAck(ack)),
        Ok(vec![0x90, 0x05, 0x00, 0x01, 0x00, 0x01, 0x97])
    );
    let disconnect = DisconnectPacket {
        reason_code: DisconnectReason::NormalDisconnection,
        session_expiry_interval: None,
        reason_string: None,
        user_properties: vec![],
        server_reference: None,
    };
    assert_eq!(encode_packet(&Packet::Disconnect(disconnect)), Ok(vec![0xE0, 0x02, 0x00, 0x00]));
    assert_eq!(encode_packet(&Packet::PingRequest), Ok(vec![0xC0, 0x00]));
    assert_eq!(encode_packet(&Packet::PingResponse), Ok(vec![0xD0, 0x00]));
}

#[test]
fn frame_is_appended_to_what_the_buffer_holds() {
    let mut bytes = BytesMut::from(&[0xAA, 0xBB][..]);
    assert_eq!(encode_mqtt(&Packet::PingRequest, &mut bytes), Ok(()));
    assert_eq!(encode_mqtt(&Packet::PingResponse, &mut bytes), Ok(()));
    assert_eq!(&bytes[..], &[0xAA, 0xBB, 0xC0, 0x00, 0xD0, 0x00]);
}

#[test]
fn frame_is_appended_where_there_is_room() {
    let mut bytes = BytesMut::from(&[0xAA][..]);
    assert_eq!(try_encode_mqtt(&Packet::PingRequest, &mut bytes), Ok(true));
    assert_eq!(&bytes[..], &[0xAA, 0xC0, 0x00]);
    let mut packet = publish();
    packet.packet_id = Some(1);
    assert_eq!(
        try_encode_mqtt(&Packet::Publish(packet), &mut bytes),
        Err(EncodeError::InvalidPacketId)
    );
    assert_eq!(&bytes[..], &[0xAA, 0xC0, 0x00]);
}

fn not_written(packet: Packet, error: EncodeError) {
    assert_eq!(encode_packet(&packet), Err(error));
    let mut bytes = BytesMut::from(&[0xAA, 0xBB][..]);
    assert_eq!(encode_mqtt(&packet, &mut bytes), Err(error));
    assert_eq!(&bytes[..], &[0xAA, 0xBB]);
}

#[test]
fn string_too_long() {
    let mut packet = connect();
    packet.client_id = "x".repeat(65_536);
    not_written(Packet::Connect(packet), EncodeError::StringTooLong);
    let mut packet = publish();
    packet.user_properties = vec![
        UserProperty("ok".to_string(), "ok".to_string()),
        UserProperty("k".to_string(), "v".repeat(70_000)),
    ];
    not_written(Packet::Publish(packet), EncodeError::StringTooLong);
    let packet = UnsubscribePacket {
        packet_id: 1,
        user_properties: vec![],
        topics: vec!["a".to_string(), "b".repeat(65_536)],
    };
    not_written(Packet::Unsubscribe(packet), EncodeError::StringTooLong);
}

#[test]
fn binary_data_too_long() {
    let mut packet = publish();
    packet.correlation_data = Some(vec![0; 65_536]);
    not_written(Packet::Publish(packet), EncodeError::BinaryDataTooLong);
    let mut packet = connect();
    packet.authentication_data = Some(vec![0; 100_000]);
    not_written(Packet::Connect(packet), EncodeError::BinaryDataTooLong);
}

#[test]
fn subscription_identifier_too_large() {
    let mut packet = publish();
    packet.subscription_identifier = Some(268_435_456);
    not_written(Packet::Publish(packet), EncodeError::VariableIntTooLarge);
}

#[test]
fn packet_id_that_does_not_go_with_the_qos() {
    let mut packet = publish();
    packet.packet_id = Some(1);
    not_written(Packet::Publish(packet), EncodeError::InvalidPacketId);
    let mut packet = publish();
    packet.qos = QoS::AtLeastOnce;
    not_written(Packet::Publish(packet), EncodeError::InvalidPacketId);
    let mut packet = publish();
    packet.qos = QoS::ExactlyOnce;
    not_written(Packet::Publish(packet), EncodeError::InvalidPacketId);
}

#[test]
fn first_fault_in_wire_order_is_reported() {
    // The topic comes before the packet identifier, which comes before the properties.
    let mut packet = publish();
    packet.topic_name = "t".repeat(65_536);
    packet.packet_id = Some(1);
    packet.correlation_data = Some(vec![0; 65_536]);
    not_written(Packet::Publish(packet.clone()), EncodeError::StringTooLong);
    packet.topic_name = "t".to_string();
    not_written(Packet::Publish(packet.clone()), EncodeError::InvalidPacketId);
    packet.packet_id = None;
    not_written(Packet::Publish(packet.clone()), EncodeError::BinaryDataTooLong);
    // Among the properties the order is that of their identifiers: the
    // content type (3) comes before the correlation data (9).
    packet.content_type = Some("c".repeat(65_536));
    not_written(Packet::Publish(packet), EncodeError::StringTooLong);
}

#[test]
fn packet_too_large() {
    let mut packet = publish();
    // Topic and properties take four bytes of the 268 435 455 that a frame may hold.
    packet.payload = vec![0; 268_435_452];
    assert_eq!(encode_packet(&Packet::Publish(packet)), Err(EncodeError::PacketTooLarge));
}

#[test]
fn largest_properties_that_fit() {
    let mut packet = publish();
    packet.user_properties =
        vec![UserProperty("k".repeat(65_535), "v".repeat(65_535))];
    let frame = encode_packet(&Packet::Publish(packet)).unwrap();
    // 1 + 2 + 65 535 + 2 + 65 535 bytes of property, a length of three bytes before them.
    assert_eq!(frame.len(), 1 + 3 + 3 + 3 + 131_075);
    assert_eq!(&frame[..4], &[0x30, 0x89, 0x80, 0x08]);
}

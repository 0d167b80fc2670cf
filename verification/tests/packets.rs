use bytes::BytesMut;
use mqtt_v5::codes::{
    AuthenticateReason, ConnectReason, DisconnectReason, PublishAckReason, QoS, RetainHandling,
    SubscribeAckReason, UnsubscribeAckReason,
};
use mqtt_v5::decoder::{decode_frame, decode_mqtt};
use mqtt_v5::packet::{
    AuthenticatePacket, ConnectAckPacket, ConnectPacket, DisconnectPacket, FinalWill, Packet,
    PublishAckPacket, PublishPacket, SubscribeAckPacket, SubscribePacket, SubscriptionTopic,
    UnsubscribeAckPacket, UnsubscribePacket,
};
use mqtt_v5::properties::UserProperty;

fn decoded(input: &[u8]) -> Packet {
    let mut bytes = BytesMut::from(input);
    let packet = decode_mqtt(&mut bytes).unwrap().unwrap();
    assert!(bytes.is_empty());
    packet
}

fn pair(name: &str, value: &str) -> UserProperty {
    UserProperty(name.to_string(), value.to_string())
}

#[test]
fn connect_with_will_user_name_and_password() {
    let input = [
        0x10, 0x23, 0x00, 0x04, b'M', b'Q', b'T', b'T', 0x05, 0xEE, 0x00, 0x0A, 0x05, 0x11, 0x00,
        0x00, 0x00, 0x1E, 0x00, 0x01, b'c', 0x02, 0x01, 0x01, 0x00, 0x01, b't', 0x00, 0x02, 0xAA,
        0xBB, 0x00, 0x01, b'u', 0x00, 0x01, b'p',
    ];
    let expected = Packet::Connect(ConnectPacket {
        protocol_name: "MQTT".to_string(),
        protocol_level: 5,
        clean_start: true,
        keep_alive: 10,
        session_expiry_interval: Some(30),
        receive_maximum: None,
        maximum_packet_size: None,
        topic_alias_maximum: None,
        request_response_information: None,
        request_problem_information: None,
        user_properties: vec![],
        authentication_method: None,
        authentication_data: None,
        client_id: "c".to_string(),
        will: Some(FinalWill {
            topic: "t".to_string(),
            payload: vec![0xAA, 0xBB],
            qos: QoS::AtLeastOnce,
            should_retain: true,
            will_delay_interval: None,
            payload_format_indicator: Some(1),
            message_expiry_interval: None,
            content_type: None,
            response_topic: None,
            correlation_data: None,
            user_properties: vec![],
        }),
        user_name: Some("u".to_string()),
        password: Some("p".to_string()),
    });
    assert_eq!(decoded(&input), expected);
}

#[test]
fn connect_reads_name_and_level_without_judging_them() {
    let input = [
        0x10, 0x0C, 0x00, 0x03, b'f', b'o', b'o', 0x09, 0x01, 0x00, 0x00, 0x00, 0x00, 0x00,
    ];
    match decoded(&input) {
        Packet::Connect(packet) => {
            assert_eq!(packet.protocol_name, "foo");
            assert_eq!(packet.protocol_level, 9);
            // Bit 0 of the flags is reserved and not looked at.
            assert!(!packet.clean_start);
            assert_eq!(packet.client_id, "");
            assert_eq!(packet.will, None);
        },
        other => panic!("not a Connect packet: {:?}", other),
    }
}

#[test]
fn connect_ack_with_properties() {
    let input = [
        0x20, 0x18, 0x01, 0x87, 0x15, 0x12, 0x00, 0x02, b'i', b'd', 0x13, 0x01, 0x02, 0x24, 0x01,
        0x26, 0x00, 0x01, b'k', 0x00, 0x01, b'v', 0x29, 0x01, 0x2A, 0x00,
    ];
    let expected = Packet::ConnectAck(ConnectAckPacket {
        session_present: true,
        reason_code: ConnectReason::NotAuthorized,
        session_expiry_interval: None,
        receive_maximum: None,
        maximum_qos: Some(QoS::AtLeastOnce),
        retain_available: None,
        maximum_packet_size: None,
        assigned_client_identifier: Some("id".to_string()),
        topic_alias_maximum: None,
        reason_string: None,
        user_properties: vec![pair("k", "v")],
        wildcard_subscription_available: None,
        subscription_identifiers_available: Some(1),
        shared_subscription_available: Some(0),
        server_keep_alive: Some(0x0102),
        response_information: None,
        server_reference: None,
        authentication_method: None,
        authentication_data: None,
    });
    assert_eq!(decoded(&input), expected);
}

fn publish(qos: QoS, packet_id: Option<u16>, payload: &[u8]) -> PublishPacket {
    PublishPacket {
        is_duplicate: false,
        qos,
        retain: false,
        topic_name: "t".to_string(),
        packet_id,
        payload_format_indicator: None,
        message_expiry_interval: None,
        topic_alias: None,
        response_topic: None,
        correlation_data: None,
        user_properties: vec![],
        subscription_identifier: None,
        content_type: None,
        payload: payload.to_vec(),
    }
}

#[test]
fn publish_at_most_once_has_no_packet_id() {
    let input = [0x30, 0x06, 0x00, 0x01, b't', 0x00, b'h', b'i'];
    assert_eq!(decoded(&input), Packet::Publish(publish(QoS::AtMostOnce, None, b"hi")));
}

#[test]
fn publish_with_flags_and_packet_id() {
    let input = [0x3B, 0x08, 0x00, 0x01, b't', 0x00, 0x0A, 0x00, b'h', b'i'];
    let mut expected = publish(QoS::AtLeastOnce, Some(10), b"hi");
    expected.is_duplicate = true;
    expected.retain = true;
    assert_eq!(decoded(&input), Packet::Publish(expected));
    let input = [0x34, 0x06, 0x00, 0x01, b't', 0x01, 0x00, 0x00];
    assert_eq!(decoded(&input), Packet::Publish(publish(QoS::ExactlyOnce, Some(256), b"")));
}

#[test]
fn publish_packet_id_goes_with_qos() {
    for first_byte in [0x30u8, 0x32, 0x34] {
        let input = [first_byte, 0x08, 0x00, 0x01, b't', 0x00, 0x0A, 0x00, b'h', b'i'];
        match decoded(&input) {
            Packet::Publish(packet) => {
                assert_eq!(packet.packet_id.is_some(), packet.qos != QoS::AtMostOnce);
            },
            other => panic!("not a Publish packet: {:?}", other),
        }
    }
}

#[test]
fn publish_with_properties() {
    let input = [
        0x30, 0x14, 0x00, 0x01, b't', 0x0F, 0x0B, 0xC1, 0x02, 0x23, 0x00, 0x05, 0x02, 0x00, 0x00,
        0x01, 0x00, 0x09, 0x00, 0x01, 0x7F, b'x',
    ];
    let mut expected = publish(QoS::AtMostOnce, None, b"x");
    expected.subscription_identifier = Some(321);
    expected.topic_alias = Some(5);
    expected.message_expiry_interval = Some(256);
    expected.correlation_data = Some(vec![0x7F]);
    assert_eq!(decoded(&input), Packet::Publish(expected));
}

#[test]
fn publish_ack_with_reason_only() {
    let input = [0x40, 0x03, 0x00, 0x07, 0x80];
    let expected = Packet::PublishAck(PublishAckPacket {
        packet_id: 7,
        reason_code: PublishAckReason::UnspecifiedError,
        reason_string: None,
        user_properties: vec![],
    });
    assert_eq!(decoded(&input), expected);
}

#[test]
fn publish_ack_with_properties() {
    let input = [0x40, 0x09, 0x00, 0x07, 0x10, 0x05, 0x1F, 0x00, 0x02, b'o', b'k'];
    let expected = Packet::PublishAck(PublishAckPacket {
        packet_id: 7,
        reason_code: PublishAckReason::NoMatchingSubscribers,
        reason_string: Some("ok".to_string()),
        user_properties: vec![],
    });
    assert_eq!(decoded(&input), expected);
}

#[test]
fn property_that_the_packet_does_not_carry_is_ignored() {
    // A topic alias in a PublishAck packet.
    let input = [
        0x40, 0x0C, 0x00, 0x07, 0x00, 0x08, 0x23, 0x00, 0x05, 0x1F, 0x00, 0x02, b'o', b'k',
    ];
    let expected = Packet::PublishAck(PublishAckPacket {
        packet_id: 7,
        reason_code: PublishAckReason::Success,
        reason_string: Some("ok".to_string()),
        user_properties: vec![],
    });
    assert_eq!(decoded(&input), expected);
}

#[test]
fn later_property_replaces_earlier_one() {
    let input = [
        0x40, 0x0C, 0x00, 0x07, 0x00, 0x08, 0x1F, 0x00, 0x01, b'a', 0x1F, 0x00, 0x01, b'b',
    ];
    match decoded(&input) {
        Packet::PublishAck(packet) => assert_eq!(packet.reason_string, Some("b".to_string())),
        other => panic!("not a PublishAck packet: {:?}", other),
    }
}

#[test]
fn user_properties_keep_their_order() {
    let input = [
        0x40, 0x19, 0x00, 0x07, 0x00, 0x15, 0x26, 0x00, 0x01, b'b', 0x00, 0x01, b'1', 0x26, 0x00,
        0x01, b'a', 0x00, 0x01, b'2', 0x26, 0x00, 0x01, b'b', 0x00, 0x01, b'3',
    ];
    match decoded(&input) {
        Packet::PublishAck(packet) => assert_eq!(
            packet.user_properties,
            vec![pair("b", "1"), pair("a", "2"), pair("b", "3")]
        ),
        other => panic!("not a PublishAck packet: {:?}", other),
    }
}

#[test]
fn subscribe_with_two_entries() {
    let input = [
        0x82, 0x0B, 0x00, 0x01, 0x00, 0x00, 0x01, b'a', 0x01, 0x00, 0x01, b'b', 0x2E,
    ];
    let expected = Packet::Subscribe(SubscribePacket {
        packet_id: 1,
        subscription_identifier: None,
        user_properties: vec![],
        subscription_topics: vec![
            SubscriptionTopic {
                topic: "a".to_string(),
                maximum_qos: QoS::AtLeastOnce,
                no_local: false,
                retain_as_published: false,
                retain_handling: RetainHandling::SendAtSubscribeTime,
            },
            SubscriptionTopic {
                topic: "b".to_string(),
                maximum_qos: QoS::ExactlyOnce,
                no_local: true,
                retain_as_published: true,
                retain_handling: RetainHandling::DoNotSend,
            },
        ],
    });
    assert_eq!(decoded(&input), expected);
}

#[test]
fn subscribe_ignores_the_reserved_option_bits() {
    let input = [0x82, 0x07, 0x00, 0x01, 0x00, 0x00, 0x01, b'a', 0xD0];
    match decoded(&input) {
        Packet::Subscribe(packet) => {
            assert_eq!(packet.subscription_topics.len(), 1);
            let entry = &packet.subscription_topics[0];
            assert_eq!(entry.maximum_qos, QoS::AtMostOnce);
            assert_eq!(entry.retain_handling, RetainHandling::SendAtSubscribeTimeIfNonexistent);
            assert!(!entry.no_local);
            assert!(!entry.retain_as_published);
        },
        other => panic!("not a Subscribe packet: {:?}", other),
    }
}

#[test]
fn subscribe_ack_has_one_reason_for_each_byte() {
    let input = [0x90, 0x06, 0x00, 0x01, 0x00, 0x00, 0x87, 0x02];
    let expected = Packet::SubscribeAck(SubscribeAckPacket {
        packet_id: 1,
        reason_string: None,
        user_properties: vec![],
        reason_codes: vec![
            SubscribeAckReason::GrantedQoSZero,
            SubscribeAckReason::NotAuthorized,
            SubscribeAckReason::GrantedQoSTwo,
        ],
    });
    assert_eq!(decoded(&input), expected);
}

#[test]
fn unsubscribe_with_two_topics() {
    let input = [
        0xA2, 0x0A, 0x00, 0x01, 0x00, 0x00, 0x01, b'a', 0x00, 0x02, b'b', b'c',
    ];
    let expected = Packet::Unsubscribe(UnsubscribePacket {
        packet_id: 1,
        user_properties: vec![],
        topics: vec!["a".to_string(), "bc".to_string()],
    });
    assert_eq!(decoded(&input), expected);
}

#[test]
fn unsubscribe_ack_with_reasons() {
    let input = [0xB0, 0x05, 0x00, 0x01, 0x00, 0x00, 0x11];
    let expected = Packet::UnsubscribeAck(UnsubscribeAckPacket {
        packet_id: 1,
        reason_string: None,
        user_properties: vec![],
        reason_codes: vec![
            UnsubscribeAckReason::Success,
            UnsubscribeAckReason::NoSubscriptionExisted,
        ],
    });
    assert_eq!(decoded(&input), expected);
}

#[test]
fn disconnect_with_reason_only() {
    let input = [0xE0, 0x01, 0x04];
    let expected = Packet::Disconnect(DisconnectPacket {
        reason_code: DisconnectReason::DisconnectWithWillMessage,
        session_expiry_interval: None,
        reason_string: None,
        user_properties: vec![],
        server_reference: None,
    });
    assert_eq!(decoded(&input), expected);
}

#[test]
fn disconnect_with_properties() {
    let input = [
        0xE0, 0x0B, 0x8E, 0x09, 0x11, 0x00, 0x00, 0x00, 0x05, 0x1C, 0x00, 0x01, b's',
    ];
    let expected = Packet::Disconnect(DisconnectPacket {
        reason_code: DisconnectReason::SessionTakenOver,
        session_expiry_interval: Some(5),
        reason_string: None,
        user_properties: vec![],
        server_reference: Some("s".to_string()),
    });
    assert_eq!(decoded(&input), expected);
}

#[test]
fn authenticate_without_body_is_success() {
    let expected = Packet::Authenticate(AuthenticatePacket {
        reason_code: AuthenticateReason::Success,
        authentication_method: None,
        authentication_data: None,
        reason_string: None,
        user_properties: vec![],
    });
    assert_eq!(decoded(&[0xF0, 0x00]), expected);
}

#[test]
fn authenticate_with_properties() {
    let input = [
        0xF0, 0x0A, 0x18, 0x08, 0x15, 0x00, 0x01, b'm', 0x16, 0x00, 0x01, 0xAA,
    ];
    let expected = Packet::Authenticate(AuthenticatePacket {
        reason_code: AuthenticateReason::ContinueAuthentication,
        authentication_method: Some("m".to_string()),
        authentication_data: Some(vec![0xAA]),
        reason_string: None,
        user_properties: vec![],
    });
    assert_eq!(decoded(&input), expected);
}

#[test]
fn frame_is_drained_whole_even_if_not_all_of_it_is_read() {
    let mut bytes = BytesMut::from(&[0xC0, 0x02, 0x09, 0x09, 0xD0, 0x00][..]);
    assert_eq!(decode_mqtt(&mut bytes), Ok(Some(Packet::PingRequest)));
    assert_eq!(&bytes[..], &[0xD0, 0x00]);
    assert_eq!(decode_mqtt(&mut bytes), Ok(Some(Packet::PingResponse)));
    assert!(bytes.is_empty());
    assert_eq!(decode_mqtt(&mut bytes), Ok(None));
}

#[test]
fn flags_of_other_kinds_are_not_looked_at() {
    assert_eq!(decoded(&[0xCF, 0x00]), Packet::PingRequest);
    assert_eq!(decoded(&[0xD5, 0x00]), Packet::PingResponse);
}

#[test]
fn publish_whose_header_fills_the_frame_has_no_payload() {
    let input = [0x30, 0x04, 0x00, 0x01, b't', 0x00];
    assert_eq!(decoded(&input), Packet::Publish(publish(QoS::AtMostOnce, None, b"")));
}

#[test]
fn publish_whose_header_runs_past_the_frame_has_no_payload() {
    // The frame announces one byte; the topic and the properties take four.
    let mut bytes = BytesMut::from(&[0x30, 0x01, 0x00, 0x01, b't', 0x00, 0x55][..]);
    assert_eq!(
        decode_mqtt(&mut bytes),
        Ok(Some(Packet::Publish(publish(QoS::AtMostOnce, None, b""))))
    );
    // Exactly the frame has left the buffer.
    assert_eq!(&bytes[..], &[0x01, b't', 0x00, 0x55]);
}

#[test]
fn decode_frame_gives_the_length_of_the_frame() {
    let input = [0x40, 0x02, 0x00, 0x07, 0xC0, 0x00];
    let (packet, consumed) = decode_frame(&input).unwrap().unwrap();
    assert_eq!(consumed, 4);
    assert!(matches!(packet, Packet::PublishAck(_)));
    assert_eq!(decode_frame(&input[..3]), Ok(None));
}

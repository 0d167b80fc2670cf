use bytes::BytesMut;
use mqtt_v5::codes::{
    AuthenticateReason, ConnectReason, DisconnectReason, PublishAckReason, PublishCompleteReason,
    PublishReceivedReason, PublishReleaseReason, QoS, RetainHandling, SubscribeAckReason,
    UnsubscribeAckReason,
};
use mqtt_v5::decoder::decode_mqtt;
use mqtt_v5::encoder::{encode_mqtt, encode_packet};
use mqtt_v5::packet::{
    AuthenticatePacket, ConnectAckPacket, ConnectPacket, DisconnectPacket, FinalWill, Packet,
    PublishAckPacket, PublishCompletePacket, PublishPacket, PublishReceivedPacket,
    PublishReleasePacket, SubscribeAckPacket, SubscribePacket, SubscriptionTopic,
    UnsubscribeAckPacket, UnsubscribePacket,
};
use mqtt_v5::properties::UserProperty;

fn pairs(count: usize) -> Vec<UserProperty> {
    let mut pairs = Vec::new();
    for i in 0..count {
        pairs.push(UserProperty(format!("name{}", count - i), format!("value{}", i)));
    }
    pairs
}

/// Encoding and decoding gives the packet back and drains the buffer; every
/// proper prefix of the frame is incomplete and leaves the buffer alone; a
/// suffix behind the frame stays in the buffer.
fn round_trips(packet: Packet) {
    let mut bytes = BytesMut::new();
    assert_eq!(encode_mqtt(&packet, &mut bytes), Ok(()));
    let frame = bytes.to_vec();
    assert_eq!(encode_packet(&packet), Ok(frame.clone()));
    assert_eq!(decode_mqtt(&mut bytes), Ok(Some(packet.clone())));
    assert!(bytes.is_empty());

    for cut in 0..frame.len() {
        let mut partial = BytesMut::from(&frame[..cut]);
        assert_eq!(decode_mqtt(&mut partial), Ok(None));
        assert_eq!(&partial[..], &frame[..cut]);
        partial.extend_from_slice(&frame[cut..]);
        assert_eq!(decode_mqtt(&mut partial), Ok(Some(packet.clone())));
        assert!(partial.is_empty());
    }

    let suffix = [0xC0, 0x00, 0xFF, 0x12];
    let mut followed = BytesMut::from(&frame[..]);
    followed.extend_from_slice(&suffix);
    assert_eq!(decode_mqtt(&mut followed), Ok(Some(packet)));
    assert_eq!(&followed[..], &suffix[..]);
}

fn connect(user_properties: Vec<UserProperty>, full: bool) -> ConnectPacket {
    ConnectPacket {
        protocol_name: "MQTT".to_string(),
        protocol_level: 5,
        clean_start: full,
        keep_alive: 0x1234,
        session_expiry_interval: if full { Some(0x0102_0304) } else { None },
        receive_maximum: if full { Some(20) } else { None },
        maximum_packet_size: if full { Some(268_435_460) } else { None },
        topic_alias_maximum: if full { Some(0xFFFF) } else { None },
        request_response_information: if full { Some(1) } else { None },
        request_problem_information: if full { Some(0) } else { None },
        user_properties,
        authentication_method: if full { Some("SCRAM".to_string()) } else { None },
        authentication_data: if full { Some(vec![0, 1, 2, 255]) } else { None },
        client_id: "client".to_string(),
        will: None,
        user_name: None,
        password: None,
    }
}

fn will(user_properties: Vec<UserProperty>, full: bool) -> FinalWill {
    FinalWill {
        topic: "will/topic".to_string(),
        payload: vec![1, 2, 3],
        qos: if full { QoS::ExactlyOnce } else { QoS::AtMostOnce },
        should_retain: full,
        will_delay_interval: if full { Some(7) } else { None },
        payload_format_indicator: if full { Some(1) } else { None },
        message_expiry_interval: if full { Some(3600) } else { None },
        content_type: if full { Some("text/plain".to_string()) } else { None },
        response_topic: if full { Some("reply".to_string()) } else { None },
        correlation_data: if full { Some(vec![9; 40]) } else { None },
        user_properties,
    }
}

#[test]
fn connect_round_trips() {
    for count in [0, 1, 5] {
        for full in [false, true] {
            round_trips(Packet::Connect(connect(pairs(count), full)));
        }
    }
}

#[test]
fn connect_with_will_round_trips() {
    for count in [0, 1, 3] {
        for full in [false, true] {
            for qos in [QoS::AtMostOnce, QoS::AtLeastOnce, QoS::ExactlyOnce] {
                let mut packet = connect(pairs(1), !full);
                let mut will = will(pairs(count), full);
                will.qos = qos;
                packet.will = Some(will);
                round_trips(Packet::Connect(packet));
            }
        }
    }
}

#[test]
fn connect_with_user_name_and_password_round_trips() {
    for (user_name, password) in [(false, true), (true, false), (true, true)] {
        let mut packet = connect(pairs(0), false);
        packet.user_name = if user_name { Some("user".to_string()) } else { None };
        packet.password = if password { Some("secret".to_string()) } else { None };
        round_trips(Packet::Connect(packet.clone()));
        packet.will = Some(will(pairs(2), true));
        round_trips(Packet::Connect(packet));
    }
}

#[test]
fn connect_with_other_name_and_level_round_trips() {
    let mut packet = connect(pairs(0), false);
    packet.protocol_name = "MQIsdp".to_string();
    packet.protocol_level = 3;
    packet.client_id = String::new();
    round_trips(Packet::Connect(packet));
}

fn connect_ack(user_properties: Vec<UserProperty>, full: bool) -> ConnectAckPacket {
    ConnectAckPacket {
        session_present: full,
        reason_code: if full { ConnectReason::ServerMoved } else { ConnectReason::Success },
        session_expiry_interval: if full { Some(u32::MAX) } else { None },
        receive_maximum: if full { Some(1) } else { None },
        maximum_qos: if full { Some(QoS::AtLeastOnce) } else { None },
        retain_available: if full { Some(1) } else { None },
        maximum_packet_size: if full { Some(1024) } else { None },
        assigned_client_identifier: if full { Some("assigned".to_string()) } else { None },
        topic_alias_maximum: if full { Some(10) } else { None },
        reason_string: if full { Some("moved".to_string()) } else { None },
        user_properties,
        wildcard_subscription_available: if full { Some(0) } else { None },
        subscription_identifiers_available: if full { Some(1) } else { None },
        shared_subscription_available: if full { Some(2) } else { None },
        server_keep_alive: if full { Some(300) } else { None },
        response_information: if full { Some("info".to_string()) } else { None },
        server_reference: if full { Some("other.example".to_string()) } else { None },
        authentication_method: if full { Some("method".to_string()) } else { None },
        authentication_data: if full { Some(vec![]) } else { None },
    }
}

#[test]
fn connect_ack_round_trips() {
    for count in [0, 1, 4] {
        for full in [false, true] {
            round_trips(Packet::ConnectAck(connect_ack(pairs(count), full)));
        }
    }
}

#[test]
fn connect_ack_with_each_property_alone_round_trips() {
    for index in 0..16 {
        let full = connect_ack(vec![], true);
        let mut packet = connect_ack(vec![], false);
        match index {
            0 => packet.session_expiry_interval = full.session_expiry_interval,
            1 => packet.receive_maximum = full.receive_maximum,
            2 => packet.maximum_qos = Some(QoS::AtMostOnce),
            3 => packet.retain_available = full.retain_available,
            4 => packet.maximum_packet_size = full.maximum_packet_size,
            5 => packet.assigned_client_identifier = full.assigned_client_identifier,
            6 => packet.topic_alias_maximum = full.topic_alias_maximum,
            7 => packet.reason_string = full.reason_string,
            8 => packet.wildcard_subscription_available = full.wildcard_subscription_available,
            9 => {
                packet.subscription_identifiers_available = full.subscription_identifiers_available
            },
            10 => packet.shared_subscription_available = full.shared_subscription_available,
            11 => packet.server_keep_alive = full.server_keep_alive,
            12 => packet.response_information = full.response_information,
            13 => packet.server_reference = full.server_reference,
            14 => packet.authentication_method = full.authentication_method,
            _ => packet.authentication_data = full.authentication_data,
        }
        round_trips(Packet::ConnectAck(packet));
    }
}

fn publish(user_properties: Vec<UserProperty>, full: bool, qos: QoS) -> PublishPacket {
    PublishPacket {
        is_duplicate: full,
        qos,
        retain: !full,
        topic_name: "a/b/c".to_string(),
        packet_id: if qos == QoS::AtMostOnce { None } else { Some(0xBEEF) },
        payload_format_indicator: if full { Some(1) } else { None },
        message_expiry_interval: if full { Some(60) } else { None },
        topic_alias: if full { Some(3) } else { None },
        response_topic: if full { Some("r".to_string()) } else { None },
        correlation_data: if full { Some(vec![1, 2]) } else { None },
        user_properties,
        subscription_identifier: if full { Some(268_435_455) } else { None },
        content_type: if full { Some("application/json".to_string()) } else { None },
        payload: b"{\"k\": 1}".to_vec(),
    }
}

#[test]
fn publish_round_trips() {
    for count in [0, 1, 3] {
        for full in [false, true] {
            for qos in [QoS::AtMostOnce, QoS::AtLeastOnce, QoS::ExactlyOnce] {
                round_trips(Packet::Publish(publish(pairs(count), full, qos)));
            }
        }
    }
}

#[test]
fn publish_with_each_subscription_identifier_length_round_trips() {
    for identifier in [0, 127, 128, 16_383, 16_384, 2_097_151, 2_097_152, 268_435_455] {
        let mut packet = publish(vec![], false, QoS::AtMostOnce);
        packet.subscription_identifier = Some(identifier);
        packet.payload = vec![];
        round_trips(Packet::Publish(packet));
    }
}

#[test]
fn publish_with_long_payload_round_trips() {
    // Remaining lengths of one, two and three bytes.
    for size in [0usize, 100, 127, 128, 16_383, 16_384, 70_000] {
        let mut packet = publish(vec![], false, QoS::AtLeastOnce);
        packet.topic_name = String::new();
        packet.payload = (0..size).map(|i| (i % 251) as u8).collect();
        let frame = encode_packet(&Packet::Publish(packet.clone())).unwrap();
        let mut bytes = BytesMut::from(&frame[..]);
        bytes.extend_from_slice(&[1, 2, 3]);
        assert_eq!(decode_mqtt(&mut bytes), Ok(Some(Packet::Publish(packet))));
        assert_eq!(&bytes[..], &[1, 2, 3]);
        let mut cut = BytesMut::from(&frame[..frame.len() - 1]);
        assert_eq!(decode_mqtt(&mut cut), Ok(None));
        assert_eq!(cut.len(), frame.len() - 1);
    }
}

#[test]
fn publish_acknowledgements_round_trip() {
    for count in [0, 1, 3] {
        for reason_string in [None, Some("because".to_string())] {
            round_trips(Packet::PublishAck(PublishAckPacket {
                packet_id: 1,
                reason_code: PublishAckReason::QuotaExceeded,
                reason_string: reason_string.clone(),
                user_properties: pairs(count),
            }));
            round_trips(Packet::PublishReceived(PublishReceivedPacket {
                packet_id: 0,
                reason_code: PublishReceivedReason::Success,
                reason_string: reason_string.clone(),
                user_properties: pairs(count),
            }));
            round_trips(Packet::PublishRelease(PublishReleasePacket {
                packet_id: 0xFFFF,
                reason_code: PublishReleaseReason::PacketIdentifierNotFound,
                reason_string: reason_string.clone(),
                user_properties: pairs(count),
            }));
            round_trips(Packet::PublishComplete(PublishCompletePacket {
                packet_id: 256,
                reason_code: PublishCompleteReason::Success,
                reason_string,
                user_properties: pairs(count),
            }));
        }
    }
}

fn entry(topic: &str, options: u8) -> SubscriptionTopic {
    SubscriptionTopic {
        topic: topic.to_string(),
        maximum_qos: match options % 3 {
            0 => QoS::AtMostOnce,
            1 => QoS::AtLeastOnce,
            _ => QoS::ExactlyOnce,
        },
        no_local: options & 4 != 0,
        retain_as_published: options & 8 != 0,
        retain_handling: match (options / 16) % 3 {
            0 => RetainHandling::SendAtSubscribeTime,
            1 => RetainHandling::SendAtSubscribeTimeIfNonexistent,
            _ => RetainHandling::DoNotSend,
        },
    }
}

#[test]
fn subscribe_round_trips() {
    for count in [0, 1, 3] {
        for topics in [0usize, 1, 4] {
            let mut subscription_topics = Vec::new();
            for i in 0..topics {
                subscription_topics.push(entry("t/+/#", (i * 13) as u8));
            }
            round_trips(Packet::Subscribe(SubscribePacket {
                packet_id: 42,
                subscription_identifier: if topics == 1 { Some(200) } else { None },
                user_properties: pairs(count),
                subscription_topics,
            }));
        }
    }
}

#[test]
fn subscribe_with_every_option_round_trips() {
    let mut subscription_topics = Vec::new();
    for options in 0..48u8 {
        subscription_topics.push(entry("x", options));
    }
    round_trips(Packet::Subscribe(SubscribePacket {
        packet_id: 1,
        subscription_identifier: None,
        user_properties: vec![],
        subscription_topics,
    }));
}

#[test]
fn subscribe_ack_round_trips() {
    let all = vec![
        SubscribeAckReason::GrantedQoSZero,
        SubscribeAckReason::GrantedQoSOne,
        SubscribeAckReason::GrantedQoSTwo,
        SubscribeAckReason::UnspecifiedError,
        SubscribeAckReason::ImplementationSpecificError,
        SubscribeAckReason::NotAuthorized,
        SubscribeAckReason::TopicFilterInvalid,
        SubscribeAckReason::PacketIdentifierInUse,
        SubscribeAckReason::QuotaExceeded,
        SubscribeAckReason::SharedSubscriptionsNotSupported,
        SubscribeAckReason::SubscriptionIdentifiersNotSupported,
        SubscribeAckReason::WildcardSubscriptionsNotSupported,
    ];
    for count in [0, 2] {
        for reasons in [0usize, 1, 12] {
            round_trips(Packet::SubscribeAck(SubscribeAckPacket {
                packet_id: 9,
                reason_string: if count == 0 { None } else { Some("r".to_string()) },
                user_properties: pairs(count),
                reason_codes: all[..reasons].to_vec(),
            }));
        }
    }
}

#[test]
fn unsubscribe_round_trips() {
    for count in [0, 1, 3] {
        for topics in [0usize, 1, 3] {
            round_trips(Packet::Unsubscribe(UnsubscribePacket {
                packet_id: 5,
                user_properties: pairs(count),
                topics: (0..topics).map(|i| format!("topic/{}", i)).collect(),
            }));
        }
    }
}

#[test]
fn unsubscribe_ack_round_trips() {
    let all = vec![
        UnsubscribeAckReason::Success,
        UnsubscribeAckReason::NoSubscriptionExisted,
        UnsubscribeAckReason::UnspecifiedError,
        UnsubscribeAckReason::ImplementationSpecificError,
        UnsubscribeAckReason::NotAuthorized,
        UnsubscribeAckReason::TopicFilterInvalid,
        UnsubscribeAckReason::PacketIdentifierInUse,
    ];
    for count in [0, 2] {
        for reasons in [0usize, 1, 7] {
            round_trips(Packet::UnsubscribeAck(UnsubscribeAckPacket {
                packet_id: 9,
                reason_string: if count == 0 { None } else { Some("r".to_string()) },
                user_properties: pairs(count),
                reason_codes: all[..reasons].to_vec(),
            }));
        }
    }
}

#[test]
fn ping_round_trips() {
    round_trips(Packet::PingRequest);
    round_trips(Packet::PingResponse);
}

#[test]
fn disconnect_round_trips() {
    for count in [0, 1, 3] {
        for full in [false, true] {
            round_trips(Packet::Disconnect(DisconnectPacket {
                reason_code: if full {
                    DisconnectReason::WildcardSubscriptionsNotAvailable
                } else {
                    DisconnectReason::NormalDisconnection
                },
                session_expiry_interval: if full { Some(1) } else { None },
                reason_string: if full { Some("bye".to_string()) } else { None },
                user_properties: pairs(count),
                server_reference: if full { Some("elsewhere".to_string()) } else { None },
            }));
        }
    }
}

#[test]
fn authenticate_round_trips() {
    for count in [0, 1, 3] {
        for full in [false, true] {
            round_trips(Packet::Authenticate(AuthenticatePacket {
                reason_code: if full {
                    AuthenticateReason::ReAuthenticate
                } else {
                    AuthenticateReason::Success
                },
                authentication_method: if full { Some("m".to_string()) } else { None },
                authentication_data: if full { Some(vec![0xDE, 0xAD]) } else { None },
                reason_string: if full { Some("again".to_string()) } else { None },
                user_properties: pairs(count),
            }));
        }
    }
}

#[test]
fn strings_of_many_scripts_round_trip() {
    let mut packet = publish(vec![], false, QoS::AtMostOnce);
    packet.topic_name = "caf\u{e9}/\u{65e5}\u{672c}/\u{1F600}".to_string();
    packet.user_properties = vec![UserProperty("\u{0}".to_string(), "\u{10FFFF}".to_string())];
    round_trips(Packet::Publish(packet));
}

use mqtt_v5::codes::{
    AuthenticateReason, ConnectReason, DisconnectReason, PacketType, PublishAckReason,
    PublishCompleteReason, PublishReceivedReason, PublishReleaseReason, QoS, RetainHandling,
    SubscribeAckReason, UnsubscribeAckReason,
};
use mqtt_v5::properties::PropertyType;

#[test]
fn packet_types_have_the_codes_one_to_fifteen() {
    assert_eq!(PacketType::from_u8(0), None);
    assert_eq!(PacketType::from_u8(1), Some(PacketType::Connect));
    assert_eq!(PacketType::from_u8(3), Some(PacketType::Publish));
    assert_eq!(PacketType::from_u8(8), Some(PacketType::Subscribe));
    assert_eq!(PacketType::from_u8(12), Some(PacketType::PingRequest));
    assert_eq!(PacketType::from_u8(14), Some(PacketType::Disconnect));
    assert_eq!(PacketType::from_u8(15), Some(PacketType::Authenticate));
    assert_eq!(PacketType::from_u8(16), None);
    let mut count = 0;
    for code in 0..=255u8 {
        if let Some(kind) = PacketType::from_u8(code) {
            assert_eq!(kind.to_u8(), code);
            count += 1;
        }
    }
    assert_eq!(count, 15);
}

#[test]
fn qos_and_retain_handling_have_three_members() {
    assert_eq!(QoS::from_u8(0), Some(QoS::AtMostOnce));
    assert_eq!(QoS::from_u8(1), Some(QoS::AtLeastOnce));
    assert_eq!(QoS::from_u8(2), Some(QoS::ExactlyOnce));
    assert_eq!(QoS::from_u8(3), None);
    assert_eq!(RetainHandling::from_u8(0), Some(RetainHandling::SendAtSubscribeTime));
    assert_eq!(
        RetainHandling::from_u8(1),
        Some(RetainHandling::SendAtSubscribeTimeIfNonexistent)
    );
    assert_eq!(RetainHandling::from_u8(2), Some(RetainHandling::DoNotSend));
    assert_eq!(RetainHandling::from_u8(3), None);
    assert_eq!(QoS::ExactlyOnce.to_u8(), 2);
    assert_eq!(RetainHandling::DoNotSend.to_u8(), 2);
}

fn members(from: &dyn Fn(u8) -> Option<u8>) -> Vec<u8> {
    (0..=255u8).filter(|code| from(*code) == Some(*code)).collect()
}

#[test]
fn reason_codes_of_each_packet_kind() {
    assert_eq!(
        members(&|code| ConnectReason::from_u8(code).map(|reason| reason.to_u8())),
        vec![
            0, 128, 129, 130, 131, 132, 133, 134, 135, 136, 137, 138, 140, 144, 149, 151, 153,
            154, 155, 156, 157, 159
        ]
    );
    assert_eq!(
        members(&|code| PublishAckReason::from_u8(code).map(|reason| reason.to_u8())),
        vec![0, 16, 128, 131, 135, 144, 145, 151, 153]
    );
    assert_eq!(
        members(&|code| PublishReceivedReason::from_u8(code).map(|reason| reason.to_u8())),
        vec![0, 16, 128, 131, 135, 144, 145, 151, 153]
    );
    assert_eq!(
        members(&|code| PublishReleaseReason::from_u8(code).map(|reason| reason.to_u8())),
        vec![0, 146]
    );
    assert_eq!(
        members(&|code| PublishCompleteReason::from_u8(code).map(|reason| reason.to_u8())),
        vec![0, 146]
    );
    assert_eq!(
        members(&|code| SubscribeAckReason::from_u8(code).map(|reason| reason.to_u8())),
        vec![0, 1, 2, 128, 131, 135, 143, 145, 151, 158, 161, 162]
    );
    assert_eq!(
        members(&|code| UnsubscribeAckReason::from_u8(code).map(|reason| reason.to_u8())),
        vec![0, 17, 128, 131, 135, 143, 145]
    );
    assert_eq!(
        members(&|code| DisconnectReason::from_u8(code).map(|reason| reason.to_u8())),
        vec![
            0, 4, 128, 129, 130, 131, 135, 137, 139, 141, 142, 143, 144, 147, 148, 149, 150, 151,
            152, 153, 154, 155, 156, 157, 158, 159, 160, 161, 162
        ]
    );
    assert_eq!(
        members(&|code| AuthenticateReason::from_u8(code).map(|reason| reason.to_u8())),
        vec![0, 24, 25]
    );
}

#[test]
fn some_reason_codes_by_name() {
    assert_eq!(ConnectReason::NotAuthorized.to_u8(), 0x87);
    assert_eq!(ConnectReason::from_u8(0x9F), Some(ConnectReason::ConnectionRateExceeded));
    assert_eq!(PublishAckReason::from_u8(0x10), Some(PublishAckReason::NoMatchingSubscribers));
    assert_eq!(DisconnectReason::from_u8(0x8E), Some(DisconnectReason::SessionTakenOver));
    assert_eq!(DisconnectReason::from_u8(0), Some(DisconnectReason::NormalDisconnection));
    assert_eq!(AuthenticateReason::from_u8(0x19), Some(AuthenticateReason::ReAuthenticate));
    assert_eq!(SubscribeAckReason::GrantedQoSTwo.to_u8(), 2);
    assert_eq!(
        UnsubscribeAckReason::from_u8(0x11),
        Some(UnsubscribeAckReason::NoSubscriptionExisted)
    );
}

#[test]
fn property_identifiers() {
    let valid = [
        1u32, 2, 3, 8, 9, 11, 17, 18, 19, 21, 22, 23, 24, 25, 26, 28, 31, 33, 34, 35, 36, 37, 38,
        39, 40, 41, 42,
    ];
    for id in 0..300u32 {
        match PropertyType::from_u32(id) {
            Some(kind) => {
                assert!(valid.contains(&id));
                assert_eq!(kind.to_u32(), id);
            },
            None => assert!(!valid.contains(&id)),
        }
    }
    assert_eq!(PropertyType::from_u32(38), Some(PropertyType::UserProperty));
    assert_eq!(PropertyType::from_u32(11), Some(PropertyType::SubscriptionIdentifier));
    assert_eq!(PropertyType::from_u32(u32::MAX), None);
}

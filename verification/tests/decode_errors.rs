use bytes::BytesMut;
use mqtt_v5::decoder::decode_mqtt;
use mqtt_v5::error::DecodeError;

fn fails_with(input: &[u8], error: DecodeError) {
    let mut bytes = BytesMut::from(input);
    assert_eq!(decode_mqtt(&mut bytes), Err(error));
    assert_eq!(&bytes[..], input);
}

#[test]
fn error_stays_when_more_bytes_arrive() {
    let input = [0x20, 0x03, 0x00, 0x01, 0x00];
    let mut longer = input.to_vec();
    for byte in [0x00u8, 0xFF, 0x10, 0x80] {
        longer.push(byte);
        fails_with(&longer, DecodeError::InvalidConnectReason);
    }
}

#[test]
fn unknown_packet_type() {
    fails_with(&[0x00, 0x00], DecodeError::InvalidPacketType);
    fails_with(&[0x0F, 0x02, 0x00, 0x00], DecodeError::InvalidPacketType);
}

#[test]
fn unknown_packet_type_is_found_before_the_length() {
    fails_with(&[0x00], DecodeError::InvalidPacketType);
}

#[test]
fn remaining_length_of_five_bytes() {
    fails_with(&[0xC0, 0x80, 0x80, 0x80, 0x80, 0x01], DecodeError::InvalidRemainingLength);
    fails_with(&[0xC0, 0xFF, 0xFF, 0xFF, 0xFF], DecodeError::InvalidRemainingLength);
}

#[test]
fn unknown_property_id() {
    fails_with(&[0x20, 0x05, 0x00, 0x00, 0x02, 0x04, 0x00], DecodeError::InvalidPropertyId);
    fails_with(&[0x20, 0x05, 0x00, 0x00, 0x02, 0x2B, 0x00], DecodeError::InvalidPropertyId);
    // An identifier of two bytes.
    fails_with(&[0x20, 0x05, 0x00, 0x00, 0x02, 0x80, 0x01], DecodeError::InvalidPropertyId);
}

#[test]
fn property_length_of_five_bytes() {
    fails_with(
        &[0x20, 0x07, 0x00, 0x00, 0x80, 0x80, 0x80, 0x80, 0x01],
        DecodeError::InvalidRemainingLength,
    );
}

#[test]
fn publish_with_qos_three() {
    fails_with(&[0x36, 0x00], DecodeError::InvalidQoS);
    fails_with(&[0x37, 0x03, 0x00, 0x01, b't'], DecodeError::InvalidQoS);
}

#[test]
fn connect_with_will_qos_three() {
    fails_with(
        &[0x10, 0x0B, 0x00, 0x04, b'M', b'Q', b'T', b'T', 0x05, 0x18, 0x00, 0x3C, 0x00],
        DecodeError::InvalidQoS,
    );
}

#[test]
fn maximum_qos_property_of_three() {
    fails_with(&[0x20, 0x05, 0x00, 0x00, 0x02, 0x24, 0x03], DecodeError::InvalidQoS);
}

#[test]
fn subscription_with_qos_three() {
    fails_with(
        &[0x82, 0x07, 0x00, 0x01, 0x00, 0x00, 0x01, b'a', 0x03],
        DecodeError::InvalidQoS,
    );
}

#[test]
fn subscription_with_retain_handling_three() {
    fails_with(
        &[0x82, 0x07, 0x00, 0x01, 0x00, 0x00, 0x01, b'a', 0x30],
        DecodeError::InvalidRetainHandling,
    );
}

#[test]
fn subscription_with_both_faults_reports_the_qos() {
    fails_with(
        &[0x82, 0x07, 0x00, 0x01, 0x00, 0x00, 0x01, b'a', 0x33],
        DecodeError::InvalidQoS,
    );
}

#[test]
fn topic_that_is_not_utf8() {
    fails_with(&[0x30, 0x05, 0x00, 0x02, 0xFF, 0xFE, 0x00], DecodeError::InvalidUtf8);
}

#[test]
fn unknown_connect_reason() {
    fails_with(&[0x20, 0x03, 0x00, 0x01, 0x00], DecodeError::InvalidConnectReason);
}

#[test]
fn unknown_publish_ack_reason() {
    fails_with(&[0x40, 0x03, 0x00, 0x01, 0x01], DecodeError::InvalidPublishAckReason);
}

#[test]
fn unknown_publish_received_reason() {
    fails_with(&[0x50, 0x03, 0x00, 0x01, 0x01], DecodeError::InvalidPublishReceivedReason);
}

#[test]
fn unknown_publish_release_reason() {
    fails_with(&[0x62, 0x03, 0x00, 0x01, 0x10], DecodeError::InvalidPublishReleaseReason);
}

#[test]
fn unknown_publish_complete_reason() {
    fails_with(&[0x70, 0x03, 0x00, 0x01, 0x10], DecodeError::InvalidPublishCompleteReason);
}

#[test]
fn unknown_subscribe_ack_reason() {
    fails_with(&[0x90, 0x04, 0x00, 0x01, 0x00, 0x03], DecodeError::InvalidSubscribeAckReason);
    fails_with(
        &[0x90, 0x05, 0x00, 0x01, 0x00, 0x00, 0x11],
        DecodeError::InvalidSubscribeAckReason,
    );
}

#[test]
fn unknown_unsubscribe_ack_reason() {
    fails_with(&[0xB0, 0x04, 0x00, 0x01, 0x00, 0x01], DecodeError::InvalidUnsubscribeAckReason);
}

#[test]
fn unknown_disconnect_reason() {
    fails_with(&[0xE0, 0x01, 0x01], DecodeError::InvalidDisconnectReason);
}

#[test]
fn unknown_authenticate_reason() {
    fails_with(&[0xF0, 0x01, 0x01], DecodeError::InvalidAuthenticateReason);
}

#[test]
fn reason_is_judged_before_the_properties_are_read() {
    // The property identifier 4 names no property, but the reason code comes first.
    fails_with(&[0x20, 0x05, 0x00, 0x01, 0x02, 0x04, 0x00], DecodeError::InvalidConnectReason);
}

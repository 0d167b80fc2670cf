use mqtt_v5::codes::QoS;
use mqtt_v5::decoder::property::{decode_properties, decode_property, read_property};
use mqtt_v5::encoder::property::{encode_properties, encode_single, encode_user_property};
use mqtt_v5::error::{DecodeError, EncodeError};
use mqtt_v5::properties::{Properties, Property, PropertyRefs, PropertyType, UserProperty};

#[test]
fn property_of_each_form() {
    assert_eq!(
        decode_property(1, &[0x01], 0),
        Ok(Some((Property::PayloadFormatIndicator(1), 1)))
    );
    assert_eq!(
        decode_property(19, &[0x01, 0x02], 0),
        Ok(Some((Property::ServerKeepAlive(0x0102), 2)))
    );
    assert_eq!(
        decode_property(2, &[0x01, 0x02, 0x03, 0x04], 0),
        Ok(Some((Property::MessageExpiryInterval(0x0102_0304), 4)))
    );
    assert_eq!(
        decode_property(11, &[0xFF, 0xFF, 0xFF, 0x7F], 0),
        Ok(Some((Property::SubscriptionIdentifier(268_435_455), 4)))
    );
    assert_eq!(
        decode_property(3, &[0x00, 0x02, b'o', b'k'], 0),
        Ok(Some((Property::ContentType("ok".to_string()), 4)))
    );
    assert_eq!(
        decode_property(9, &[0x00, 0x02, 0xFF, 0xFE], 0),
        Ok(Some((Property::CorrelationData(vec![0xFF, 0xFE]), 4)))
    );
    assert_eq!(
        decode_property(36, &[0x02], 0),
        Ok(Some((Property::MaximumQos(QoS::ExactlyOnce), 1)))
    );
    assert_eq!(
        decode_property(38, &[0x00, 0x01, b'k', 0x00, 0x02, b'v', b'w'], 0),
        Ok(Some((Property::UserProperty(UserProperty("k".to_string(), "vw".to_string())), 7)))
    );
}

#[test]
fn property_identifiers_and_their_forms() {
    let one_byte = [1u32, 23, 25, 37, 40, 41, 42];
    let two_bytes = [19u32, 33, 34, 35];
    let four_bytes = [2u32, 17, 24, 39];
    let texts = [3u32, 8, 18, 21, 26, 28, 31];
    let binaries = [9u32, 22];
    let input = [0x00, 0x02, 0x00, 0x00, 0x55];
    for id in 0..64u32 {
        let expected_next = if one_byte.contains(&id) || id == 36 || id == 11 {
            Some(1)
        } else if two_bytes.contains(&id) {
            Some(2)
        } else if four_bytes.contains(&id) || texts.contains(&id) || binaries.contains(&id) {
            Some(4)
        } else if id == 38 {
            // Two strings: one of two bytes, one of 0x55 bytes that are not there.
            None
        } else {
            assert_eq!(decode_property(id, &input, 0), Err(DecodeError::InvalidPropertyId));
            continue;
        };
        match decode_property(id, &input, 0) {
            Ok(Some((property, next))) => {
                assert_eq!(Some(next), expected_next);
                assert_eq!(property.property_type().to_u32(), id);
            },
            Ok(None) => assert_eq!(expected_next, None),
            Err(error) => panic!("property {} gave {:?}", id, error),
        }
    }
}

#[test]
fn property_that_is_cut_off_is_incomplete() {
    assert_eq!(decode_property(1, &[], 0), Ok(None));
    assert_eq!(decode_property(19, &[0x01], 0), Ok(None));
    assert_eq!(decode_property(2, &[0x01, 0x02, 0x03], 0), Ok(None));
    assert_eq!(decode_property(11, &[0x80], 0), Ok(None));
    assert_eq!(decode_property(3, &[0x00, 0x02, b'o'], 0), Ok(None));
    assert_eq!(decode_property(38, &[0x00, 0x01, b'k', 0x00], 0), Ok(None));
    assert_eq!(read_property(&[], 0), Ok(None));
    assert_eq!(read_property(&[0x1F], 0), Ok(None));
}

#[test]
fn property_faults() {
    assert_eq!(decode_property(0, &[0x00], 0), Err(DecodeError::InvalidPropertyId));
    assert_eq!(decode_property(36, &[0x03], 0), Err(DecodeError::InvalidQoS));
    assert_eq!(decode_property(3, &[0x00, 0x01, 0xFF], 0), Err(DecodeError::InvalidUtf8));
    assert_eq!(
        decode_property(11, &[0x80, 0x80, 0x80, 0x80], 0),
        Err(DecodeError::InvalidRemainingLength)
    );
    assert_eq!(
        decode_property(38, &[0x00, 0x01, b'k', 0x00, 0x01, 0xC0], 0),
        Err(DecodeError::InvalidUtf8)
    );
    assert_eq!(read_property(&[0x04, 0x00], 0), Err(DecodeError::InvalidPropertyId));
}

#[test]
fn no_properties() {
    assert_eq!(decode_properties(&[0x00, 0x55], 0), Ok(Some((Properties::new(), 1))));
    assert_eq!(decode_properties(&[], 0), Ok(None));
}

#[test]
fn run_of_properties() {
    let input = [
        0xEE, 0x11, 0x23, 0x00, 0x05, 0x26, 0x00, 0x01, b'a', 0x00, 0x01, b'1', 0x01, 0x01, 0x26,
        0x00, 0x00, 0x00, 0x00, 0xEE,
    ];
    let mut expected = Properties::new();
    expected.topic_alias = Some(5);
    expected.payload_format_indicator = Some(1);
    expected.user_properties = vec![
        UserProperty("a".to_string(), "1".to_string()),
        UserProperty(String::new(), String::new()),
    ];
    assert_eq!(decode_properties(&input, 1), Ok(Some((expected, 19))));
}

#[test]
fn run_of_properties_needs_all_its_bytes_before_any_is_read() {
    // The identifier 4 names no property, but two of the three bytes are missing.
    assert_eq!(decode_properties(&[0x03, 0x04], 0), Ok(None));
    assert_eq!(
        decode_properties(&[0x03, 0x04, 0x00, 0x00], 0),
        Err(DecodeError::InvalidPropertyId)
    );
}

#[test]
fn accepting_properties() {
    let mut properties = Properties::new();
    properties.accept(Property::ReasonString("a".to_string()));
    properties.accept(Property::UserProperty(UserProperty("k".to_string(), "1".to_string())));
    properties.accept(Property::ReasonString("b".to_string()));
    properties.accept(Property::UserProperty(UserProperty("k".to_string(), "2".to_string())));
    properties.accept(Property::MaximumQos(QoS::AtMostOnce));
    let mut expected = Properties::new();
    expected.reason_string = Some("b".to_string());
    expected.maximum_qos = Some(QoS::AtMostOnce);
    expected.user_properties = vec![
        UserProperty("k".to_string(), "1".to_string()),
        UserProperty("k".to_string(), "2".to_string()),
    ];
    assert_eq!(properties, expected);
}

#[test]
fn writing_single_properties() {
    let text = "ok".to_string();
    let data = vec![0xAAu8];
    let mut properties = PropertyRefs::empty();
    properties.content_type = Some(&text);
    properties.correlation_data = Some(&data);
    properties.subscription_identifier = Some(128);
    properties.maximum_qos = Some(QoS::AtLeastOnce);
    properties.server_keep_alive = Some(0x0102);
    properties.maximum_packet_size = Some(0x0102_0304);
    properties.retain_available = Some(1);
    let mut out = Vec::new();
    for (kind, expected) in [
        (PropertyType::ContentType, vec![0x03, 0x00, 0x02, b'o', b'k']),
        (PropertyType::CorrelationData, vec![0x09, 0x00, 0x01, 0xAA]),
        (PropertyType::SubscriptionIdentifier, vec![0x0B, 0x80, 0x01]),
        (PropertyType::MaximumQos, vec![0x24, 0x01]),
        (PropertyType::ServerKeepAlive, vec![0x13, 0x01, 0x02]),
        (PropertyType::MaximumPacketSize, vec![0x27, 0x01, 0x02, 0x03, 0x04]),
        (PropertyType::RetainAvailable, vec![0x25, 0x01]),
        (PropertyType::ReasonString, vec![]),
        (PropertyType::UserProperty, vec![]),
    ] {
        out.clear();
        assert_eq!(encode_single(&properties, kind, &mut out), Ok(()));
        assert_eq!(out, expected);
    }
}

#[test]
fn writing_a_run_of_properties() {
    let pairs = vec![UserProperty("k".to_string(), "v".to_string())];
    let text = "r".to_string();
    let mut properties = PropertyRefs::empty();
    properties.user_properties = Some(&pairs);
    properties.reason_string = Some(&text);
    properties.topic_alias = Some(7);
    let mut out = vec![0xEE];
    assert_eq!(encode_properties(&properties, &mut out), Ok(()));
    assert_eq!(
        out,
        vec![
            0xEE, 0x0E, 0x1F, 0x00, 0x01, b'r', 0x23, 0x00, 0x07, 0x26, 0x00, 0x01, b'k', 0x00,
            0x01, b'v'
        ]
    );
    let (read, next) = decode_properties(&out, 1).unwrap().unwrap();
    assert_eq!(next, out.len());
    assert_eq!(read.reason_string, Some(text.clone()));
    assert_eq!(read.topic_alias, Some(7));
    assert_eq!(read.user_properties, pairs);

    let mut out = Vec::new();
    assert_eq!(encode_properties(&PropertyRefs::empty(), &mut out), Ok(()));
    assert_eq!(out, vec![0x00]);
}

#[test]
fn writing_a_user_property() {
    let mut out = Vec::new();
    let pair = UserProperty("k".to_string(), "vw".to_string());
    assert_eq!(encode_user_property(&pair, &mut out), Ok(()));
    assert_eq!(out, vec![0x26, 0x00, 0x01, b'k', 0x00, 0x02, b'v', b'w']);
    let pair = UserProperty("k".repeat(65_536), "v".to_string());
    assert_eq!(encode_user_property(&pair, &mut out), Err(EncodeError::StringTooLong));
    let pair = UserProperty("k".to_string(), "v".repeat(65_536));
    assert_eq!(encode_user_property(&pair, &mut out), Err(EncodeError::StringTooLong));
}

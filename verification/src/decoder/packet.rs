//! Readers for the bodies of the packet kinds.

use crate::codes::{
    AuthenticateReason, ConnectReason, DisconnectReason, PublishAckReason, PublishCompleteReason,
    PublishReceivedReason, PublishReleaseReason, QoS, RetainHandling, SubscribeAckReason,
    UnsubscribeAckReason,
};
use crate::decoder::outcome;
use crate::decoder::primitive::{
    decode_binary_data, decode_binary_data_with_size, decode_string, read_u16, read_u8,
};
use crate::decoder::property::decode_properties;
use crate::error::DecodeError;
use crate::packet::{
    AuthenticatePacket, ConnectAckPacket, ConnectPacket, DisconnectPacket, FinalWill,
    PublishAckPacket, PublishCompletePacket, PublishPacket, PublishReceivedPacket,
    PublishReleasePacket, SubscribeAckPacket, SubscribePacket, SubscriptionTopic,
    UnsubscribeAckPacket, UnsubscribePacket,
};
use crate::properties::{deep_view_empty, deep_view_push, UserProperty};
use crate::wire::packet::{
    parse_authenticate, parse_connect, parse_connect_ack, parse_connect_payload, parse_disconnect,
    parse_publish, parse_publish_ack, parse_publish_complete, parse_publish_received,
    parse_publish_release, parse_string_advances, parse_subscribe, parse_subscribe_ack,
    parse_subscribe_ack_run, parse_subscription, parse_subscription_run, parse_topic_run,
    parse_unsubscribe, parse_unsubscribe_ack, parse_unsubscribe_ack_run, parse_will,
};
use crate::wire::property::parse_properties_advances;
use vstd::prelude::*;

verus! {

/// Reads the will of a Connect packet.
pub fn decode_will(bytes: &[u8], pos: usize, qos: QoS, should_retain: bool) -> (r: Result<
    Option<(FinalWill, usize)>,
    DecodeError,
>)
    ensures
        outcome(r) == parse_will(bytes@, pos as int, qos, should_retain),
{
    proof {
        reveal(parse_will);
    }
    let (properties, pos) = match decode_properties(bytes, pos)? {
        Some(read) => read,
        None => return Ok(None),
    };
    let (topic, pos) = match decode_string(bytes, pos)? {
        Some(read) => read,
        None => return Ok(None),
    };
    let (payload, pos) = match decode_binary_data(bytes, pos)? {
        Some(read) => read,
        None => return Ok(None),
    };
    let will = FinalWill {
        topic,
        payload,
        qos,
        should_retain,
        will_delay_interval: properties.will_delay_interval,
        payload_format_indicator: properties.payload_format_indicator,
        message_expiry_interval: properties.message_expiry_interval,
        content_type: properties.content_type,
        response_topic: properties.response_topic,
        correlation_data: properties.correlation_data,
        user_properties: properties.user_properties,
    };
    Ok(Some((will, pos)))
}

/// Reads the body of a Connect packet.
pub fn decode_connect(bytes: &[u8], pos: usize) -> (r: Result<
    Option<(ConnectPacket, usize)>,
    DecodeError,
>)
    ensures
        outcome(r) == parse_connect(bytes@, pos as int),
{
    proof {
        reveal(parse_connect);
        reveal(parse_connect_payload);
    }
    let (protocol_name, pos) = match decode_string(bytes, pos)? {
        Some(read) => read,
        None => return Ok(None),
    };
    let (protocol_level, pos) = match read_u8(bytes, pos)? {
        Some(read) => read,
        None => return Ok(None),
    };
    let (connect_flags, pos) = match read_u8(bytes, pos)? {
        Some(read) => read,
        None => return Ok(None),
    };
    let (keep_alive, pos) = match read_u16(bytes, pos)? {
        Some(read) => read,
        None => return Ok(None),
    };
    let (properties, pos) = match decode_properties(bytes, pos)? {
        Some(read) => read,
        None => return Ok(None),
    };
    let clean_start = connect_flags & 0b0000_0010 == 0b0000_0010;
    let has_will = connect_flags & 0b0000_0100 == 0b0000_0100;
    let will_qos_val = (connect_flags & 0b0001_1000) >> 3;
    let retain_will = connect_flags & 0b0010_0000 == 0b0010_0000;
    let has_password = connect_flags & 0b0100_0000 == 0b0100_0000;
    let has_user_name = connect_flags & 0b1000_0000 == 0b1000_0000;
    proof {
        let f = connect_flags;
        assert((f & 0b0000_0010 == 0b0000_0010) == (f / 2 % 2 == 1)) by (bit_vector);
        assert((f & 0b0000_0100 == 0b0000_0100) == (f / 4 % 2 == 1)) by (bit_vector);
        assert((f & 0b0001_1000) >> 3 == f / 8 % 4) by (bit_vector);
        assert((f & 0b0010_0000 == 0b0010_0000) == (f / 32 % 2 == 1)) by (bit_vector);
        assert((f & 0b0100_0000 == 0b0100_0000) == (f / 64 % 2 == 1)) by (bit_vector);
        assert((f & 0b1000_0000 == 0b1000_0000) == (f / 128 == 1)) by (bit_vector);
    }
    let will_qos = match QoS::from_u8(will_qos_val) {
        Some(qos) => qos,
        None => return Err(DecodeError::InvalidQoS),
    };
    let (client_id, pos) = match decode_string(bytes, pos)? {
        Some(read) => read,
        None => return Ok(None),
    };
    let (will, pos) = if has_will {
        match decode_will(bytes, pos, will_qos, retain_will)? {
            Some((will, next)) => (Some(will), next),
            None => return Ok(None),
        }
    } else {
        (None, pos)
    };
    let (user_name, pos) = if has_user_name {
        match decode_string(bytes, pos)? {
            Some((user_name, next)) => (Some(user_name), next),
            None => return Ok(None),
        }
    } else {
        (None, pos)
    };
    let (password, pos) = if has_password {
        match decode_string(bytes, pos)? {
            Some((password, next)) => (Some(password), next),
            None => return Ok(None),
        }
    } else {
        (None, pos)
    };
    let packet = ConnectPacket {
        protocol_name,
        protocol_level,
        clean_start,
        keep_alive,
        session_expiry_interval: properties.session_expiry_interval,
        receive_maximum: properties.receive_maximum,
        maximum_packet_size: properties.maximum_packet_size,
        topic_alias_maximum: properties.topic_alias_maximum,
        request_response_information: properties.request_response_information,
        request_problem_information: properties.request_problem_information,
        user_properties: properties.user_properties,
        authentication_method: properties.authentication_method,
        authentication_data: properties.authentication_data,
        client_id,
        will,
        user_name,
        password,
    };
    Ok(Some((packet, pos)))
}

/// Reads the body of a ConnectAck packet.
pub fn decode_connect_ack(bytes: &[u8], pos: usize) -> (r: Result<
    Option<(ConnectAckPacket, usize)>,
    DecodeError,
>)
    ensures
        outcome(r) == parse_connect_ack(bytes@, pos as int),
{
    proof {
        reveal(parse_connect_ack);
    }
    let (flags, pos) = match read_u8(bytes, pos)? {
        Some(read) => read,
        None => return Ok(None),
    };
    let session_present = (flags & 0b0000_0001) == 0b0000_0001;
    assert(((flags & 0b0000_0001) == 0b0000_0001) == (flags % 2 == 1)) by (bit_vector);
    let (reason_code_byte, pos) = match read_u8(bytes, pos)? {
        Some(read) => read,
        None => return Ok(None),
    };
    let reason_code = match ConnectReason::from_u8(reason_code_byte) {
        Some(reason_code) => reason_code,
        None => return Err(DecodeError::InvalidConnectReason),
    };
    let (properties, pos) = match decode_properties(bytes, pos)? {
        Some(read) => read,
        None => return Ok(None),
    };
    let packet = ConnectAckPacket {
        session_present,
        reason_code,
        session_expiry_interval: properties.session_expiry_interval,
        receive_maximum: properties.receive_maximum,
        maximum_qos: properties.maximum_qos,
        retain_available: properties.retain_available,
        maximum_packet_size: properties.maximum_packet_size,
        assigned_client_identifier: properties.assigned_client_identifier,
        topic_alias_maximum: properties.topic_alias_maximum,
        reason_string: properties.reason_string,
        user_properties: properties.user_properties,
        wildcard_subscription_available: properties.wildcard_subscription_available,
        subscription_identifiers_available: properties.subscription_identifier_available,
        shared_subscription_available: properties.shared_subscription_available,
        server_keep_alive: properties.server_keep_alive,
        response_information: properties.response_information,
        server_reference: properties.server_reference,
        authentication_method: properties.authentication_method,
        authentication_data: properties.authentication_data,
    };
    Ok(Some((packet, pos)))
}

/// Reads the body of a Publish packet, whose flags stand in `first_byte`.
pub fn decode_publish(bytes: &[u8], pos: usize, first_byte: u8, remaining_packet_length: u32) -> (r:
    Result<Option<(PublishPacket, usize)>, DecodeError>)
    ensures
        outcome(r) == parse_publish(bytes@, pos as int, first_byte, remaining_packet_length),
{
    proof {
        reveal(parse_publish);
    }
    let is_duplicate = (first_byte & 0b0000_1000) == 0b0000_1000;
    let qos_val = (first_byte & 0b0000_0110) >> 1;
    let retain = (first_byte & 0b0000_0001) == 0b0000_0001;
    proof {
        let f = first_byte;
        assert(((f & 0b0000_1000) == 0b0000_1000) == (f / 8 % 2 == 1)) by (bit_vector);
        assert((f & 0b0000_0110) >> 1 == f / 2 % 4) by (bit_vector);
        assert(((f & 0b0000_0001) == 0b0000_0001) == (f % 2 == 1)) by (bit_vector);
    }
    let qos = match QoS::from_u8(qos_val) {
        Some(qos) => qos,
        None => return Err(DecodeError::InvalidQoS),
    };
    let start = pos;
    let (topic_name, pos) = match decode_string(bytes, pos)? {
        Some(read) => read,
        None => return Ok(None),
    };
    let (packet_id, pos) = match qos {
        QoS::AtMostOnce => (None, pos),
        QoS::AtLeastOnce | QoS::ExactlyOnce => match read_u16(bytes, pos)? {
            Some((packet_id, next)) => (Some(packet_id), next),
            None => return Ok(None),
        },
    };
    let ghost old_pos = pos;
    let (properties, pos) = match decode_properties(bytes, pos)? {
        Some(read) => read,
        None => return Ok(None),
    };
    proof {
        parse_properties_advances(bytes@, old_pos as int);
    }
    let variable_header_size = pos - start;
    let payload_size = if remaining_packet_length as usize >= variable_header_size {
        remaining_packet_length as usize - variable_header_size
    } else {
        0
    };
    let (payload, pos) = match decode_binary_data_with_size(bytes, pos, payload_size)? {
        Some(read) => read,
        None => return Ok(None),
    };
    let packet = PublishPacket {
        is_duplicate,
        qos,
        retain,
        topic_name,
        packet_id,
        payload_format_indicator: properties.payload_format_indicator,
        message_expiry_interval: properties.message_expiry_interval,
        topic_alias: properties.topic_alias,
        response_topic: properties.response_topic,
        correlation_data: properties.correlation_data,
        user_properties: properties.user_properties,
        subscription_identifier: properties.subscription_identifier,
        content_type: properties.content_type,
        payload,
    };
    Ok(Some((packet, pos)))
}

/// Reads the body of a PublishAck packet.
#[verifier::loop_isolation(false)]
pub fn decode_publish_ack(bytes: &[u8], pos: usize, remaining_packet_length: u32) -> (r: Result<
    Option<(PublishAckPacket, usize)>,
    DecodeError,
>)
    ensures
        outcome(r) == parse_publish_ack(bytes@, pos as int, remaining_packet_length),
{
    proof {
        reveal(parse_publish_ack);
    }
    let (packet_id, pos) = match read_u16(bytes, pos)? {
        Some(read) => read,
        None => return Ok(None),
    };
    if remaining_packet_length == 2 {
        let user_properties: Vec<UserProperty> = Vec::new();
        proof {
            deep_view_empty(user_properties);
        }
        return Ok(
            Some(
                (
                    PublishAckPacket {
                        packet_id,
                        reason_code: PublishAckReason::Success,
                        reason_string: None,
                        user_properties,
                    },
                    pos,
                ),
            ),
        );
    }
    let (reason_code_byte, pos) = match read_u8(bytes, pos)? {
        Some(read) => read,
        None => return Ok(None),
    };
    let reason_code = match PublishAckReason::from_u8(reason_code_byte) {
        Some(reason_code) => reason_code,
        None => return Err(DecodeError::InvalidPublishAckReason),
    };
    let mut reason_string = None;
    let mut user_properties: Vec<UserProperty> = Vec::new();
    let mut end = pos;
    proof {
        deep_view_empty(user_properties);
    }
    if remaining_packet_length >= 4 {
        let (properties, next) = match decode_properties(bytes, pos)? {
            Some(read) => read,
            None => return Ok(None),
        };
        reason_string = properties.reason_string;
        user_properties = properties.user_properties;
        end = next;
    }
    let packet = PublishAckPacket { packet_id, reason_code, reason_string, user_properties };
    Ok(Some((packet, end)))
}

/// Reads the body of a PublishReceived packet.
#[verifier::loop_isolation(false)]
pub fn decode_publish_received(bytes: &[u8], pos: usize, remaining_packet_length: u32) -> (r:
    Result<Option<(PublishReceivedPacket, usize)>, DecodeError>)
    ensures
        outcome(r) == parse_publish_received(bytes@, pos as int, remaining_packet_length),
{
    proof {
        reveal(parse_publish_received);
    }
    let (packet_id, pos) = match read_u16(bytes, pos)? {
        Some(read) => read,
        None => return Ok(None),
    };
    if remaining_packet_length == 2 {
        let user_properties: Vec<UserProperty> = Vec::new();
        proof {
            deep_view_empty(user_properties);
        }
        return Ok(
            Some(
                (
                    PublishReceivedPacket {
                        packet_id,
                        reason_code: PublishReceivedReason::Success,
                        reason_string: None,
                        user_properties,
                    },
                    pos,
                ),
            ),
        );
    }
    let (reason_code_byte, pos) = match read_u8(bytes, pos)? {
        Some(read) => read,
        None => return Ok(None),
    };
    let reason_code = match PublishReceivedReason::from_u8(reason_code_byte) {
        Some(reason_code) => reason_code,
        None => return Err(DecodeError::InvalidPublishReceivedReason),
    };
    let mut reason_string = None;
    let mut user_properties: Vec<UserProperty> = Vec::new();
    let mut end = pos;
    proof {
        deep_view_empty(user_properties);
    }
    if remaining_packet_length >= 4 {
        let (properties, next) = match decode_properties(bytes, pos)? {
            Some(read) => read,
            None => return Ok(None),
        };
        reason_string = properties.reason_string;
        user_properties = properties.user_properties;
        end = next;
    }
    let packet = PublishReceivedPacket { packet_id, reason_code, reason_string, user_properties };
    Ok(Some((packet, end)))
}

/// Reads the body of a PublishRelease packet.
#[verifier::loop_isolation(false)]
pub fn decode_publish_release(bytes: &[u8], pos: usize, remaining_packet_length: u32) -> (r: Result<
    Option<(PublishReleasePacket, usize)>,
    DecodeError,
>)
    ensures
        outcome(r) == parse_publish_release(bytes@, pos as int, remaining_packet_length),
{
    proof {
        reveal(parse_publish_release);
    }
    let (packet_id, pos) = match read_u16(bytes, pos)? {
        Some(read) => read,
        None => return Ok(None),
    };
    if remaining_packet_length == 2 {
        let user_properties: Vec<UserProperty> = Vec::new();
        proof {
            deep_view_empty(user_properties);
        }
        return Ok(
            Some(
                (
                    PublishReleasePacket {
                        packet_id,
                        reason_code: PublishReleaseReason::Success,
                        reason_string: None,
                        user_properties,
                    },
                    pos,
                ),
            ),
        );
    }
    let (reason_code_byte, pos) = match read_u8(bytes, pos)? {
        Some(read) => read,
        None => return Ok(None),
    };
    let reason_code = match PublishReleaseReason::from_u8(reason_code_byte) {
        Some(reason_code) => reason_code,
        None => return Err(DecodeError::InvalidPublishReleaseReason),
    };
    let mut reason_string = None;
    let mut user_properties: Vec<UserProperty> = Vec::new();
    let mut end = pos;
    proof {
        deep_view_empty(user_properties);
    }
    if remaining_packet_length >= 4 {
        let (properties, next) = match decode_properties(bytes, pos)? {
            Some(read) => read,
            None => return Ok(None),
        };
        reason_string = properties.reason_string;
        user_properties = properties.user_properties;
        end = next;
    }
    let packet = PublishReleasePacket { packet_id, reason_code, reason_string, user_properties };
    Ok(Some((packet, end)))
}

/// Reads the body of a PublishComplete packet.
#[verifier::loop_isolation(false)]
pub fn decode_publish_complete(bytes: &[u8], pos: usize, remaining_packet_length: u32) -> (r:
    Result<Option<(PublishCompletePacket, usize)>, DecodeError>)
    ensures
        outcome(r) == parse_publish_complete(bytes@, pos as int, remaining_packet_length),
{
    proof {
        reveal(parse_publish_complete);
    }
    let (packet_id, pos) = match read_u16(bytes, pos)? {
        Some(read) => read,
        None => return Ok(None),
    };
    if remaining_packet_length == 2 {
        let user_properties: Vec<UserProperty> = Vec::new();
        proof {
            deep_view_empty(user_properties);
        }
        return Ok(
            Some(
                (
                    PublishCompletePacket {
                        packet_id,
                        reason_code: PublishCompleteReason::Success,
                        reason_string: None,
                        user_properties,
                    },
                    pos,
                ),
            ),
        );
    }
    let (reason_code_byte, pos) = match read_u8(bytes, pos)? {
        Some(read) => read,
        None => return Ok(None),
    };
    let reason_code = match PublishCompleteReason::from_u8(reason_code_byte) {
        Some(reason_code) => reason_code,
        None => return Err(DecodeError::InvalidPublishCompleteReason),
    };
    let mut reason_string = None;
    let mut user_properties: Vec<UserProperty> = Vec::new();
    let mut end = pos;
    proof {
        deep_view_empty(user_properties);
    }
    if remaining_packet_length >= 4 {
        let (properties, next) = match decode_properties(bytes, pos)? {
            Some(read) => read,
            None => return Ok(None),
        };
        reason_string = properties.reason_string;
        user_properties = properties.user_properties;
        end = next;
    }
    let packet = PublishCompletePacket { packet_id, reason_code, reason_string, user_properties };
    Ok(Some((packet, end)))
}

/// Reads one entry of a Subscribe packet.
pub fn decode_subscription_topic(bytes: &[u8], pos: usize) -> (r: Result<
    Option<(SubscriptionTopic, usize)>,
    DecodeError,
>)
    ensures
        outcome(r) == parse_subscription(bytes@, pos as int),
{
    let (topic, pos) = match decode_string(bytes, pos)? {
        Some(read) => read,
        None => return Ok(None),
    };
    let (options_byte, pos) = match read_u8(bytes, pos)? {
        Some(read) => read,
        None => return Ok(None),
    };
    let maximum_qos_val = options_byte & 0b0000_0011;
    let retain_handling_val = (options_byte & 0b0011_0000) >> 4;
    let retain_as_published = (options_byte & 0b0000_1000) == 0b0000_1000;
    let no_local = (options_byte & 0b0000_0100) == 0b0000_0100;
    proof {
        let f = options_byte;
        assert(f & 0b0000_0011 == f % 4) by (bit_vector);
        assert((f & 0b0011_0000) >> 4 == f / 16 % 4) by (bit_vector);
        assert(((f & 0b0000_1000) == 0b0000_1000) == (f / 8 % 2 == 1)) by (bit_vector);
        assert(((f & 0b0000_0100) == 0b0000_0100) == (f / 4 % 2 == 1)) by (bit_vector);
    }
    let maximum_qos = match QoS::from_u8(maximum_qos_val) {
        Some(qos) => qos,
        None => return Err(DecodeError::InvalidQoS),
    };
    let retain_handling = match RetainHandling::from_u8(retain_handling_val) {
        Some(retain_handling) => retain_handling,
        None => return Err(DecodeError::InvalidRetainHandling),
    };
    let subscription_topic = SubscriptionTopic {
        topic,
        maximum_qos,
        no_local,
        retain_as_published,
        retain_handling,
    };
    Ok(Some((subscription_topic, pos)))
}

/// Reads the body of a Subscribe packet.
#[verifier::loop_isolation(false)]
pub fn decode_subscribe(bytes: &[u8], pos: usize, remaining_packet_length: u32) -> (r: Result<
    Option<(SubscribePacket, usize)>,
    DecodeError,
>)
    ensures
        outcome(r) == parse_subscribe(bytes@, pos as int, remaining_packet_length),
{
    proof {
        reveal(parse_subscribe);
    }
    let start = pos;
    let (packet_id, pos) = match read_u16(bytes, pos)? {
        Some(read) => read,
        None => return Ok(None),
    };
    proof {
        parse_properties_advances(bytes@, pos as int);
    }
    let (properties, pos) = match decode_properties(bytes, pos)? {
        Some(read) => read,
        None => return Ok(None),
    };
    let mut subscription_topics: Vec<SubscriptionTopic> = Vec::new();
    let mut at = pos;
    proof {
        deep_view_empty(subscription_topics);
    }
    while at - start < remaining_packet_length as usize
        invariant
            start <= at <= bytes.len(),
            parse_subscription_run(
                bytes@,
                pos as int,
                start + remaining_packet_length,
                Seq::empty(),
            ) == parse_subscription_run(
                bytes@,
                at as int,
                start + remaining_packet_length,
                subscription_topics.deep_view(),
            ),
        decreases bytes.len() - at,
    {
        proof {
            parse_string_advances(bytes@, at as int);
        }
        let (subscription_topic, next) = match decode_subscription_topic(bytes, at)? {
            Some(read) => read,
            None => return Ok(None),
        };
        let ghost before = subscription_topics;
        subscription_topics.push(subscription_topic);
        proof {
            deep_view_push(before, subscription_topics, subscription_topic);
        }
        at = next;
    }
    let packet = SubscribePacket {
        packet_id,
        subscription_identifier: properties.subscription_identifier,
        user_properties: properties.user_properties,
        subscription_topics,
    };
    Ok(Some((packet, at)))
}

/// Reads the body of an Unsubscribe packet.
#[verifier::loop_isolation(false)]
pub fn decode_unsubscribe(bytes: &[u8], pos: usize, remaining_packet_length: u32) -> (r: Result<
    Option<(UnsubscribePacket, usize)>,
    DecodeError,
>)
    ensures
        outcome(r) == parse_unsubscribe(bytes@, pos as int, remaining_packet_length),
{
    proof {
        reveal(parse_unsubscribe);
    }
    let start = pos;
    let (packet_id, pos) = match read_u16(bytes, pos)? {
        Some(read) => read,
        None => return Ok(None),
    };
    proof {
        parse_properties_advances(bytes@, pos as int);
    }
    let (properties, pos) = match decode_properties(bytes, pos)? {
        Some(read) => read,
        None => return Ok(None),
    };
    let mut topics: Vec<String> = Vec::new();
    let mut at = pos;
    proof {
        deep_view_empty(topics);
    }
    while at - start < remaining_packet_length as usize
        invariant
            start <= at <= bytes.len(),
            parse_topic_run(bytes@, pos as int, start + remaining_packet_length, Seq::empty())
                == parse_topic_run(
                bytes@,
                at as int,
                start + remaining_packet_length,
                topics.deep_view(),
            ),
        decreases bytes.len() - at,
    {
        proof {
            parse_string_advances(bytes@, at as int);
        }
        let (topic, next) = match decode_string(bytes, at)? {
            Some(read) => read,
            None => return Ok(None),
        };
        let ghost before = topics;
        topics.push(topic);
        proof {
            deep_view_push(before, topics, topic);
        }
        at = next;
    }
    let packet = UnsubscribePacket {
        packet_id,
        user_properties: properties.user_properties,
        topics,
    };
    Ok(Some((packet, at)))
}

/// Reads the body of a SubscribeAck packet.
#[verifier::loop_isolation(false)]
pub fn decode_subscribe_ack(bytes: &[u8], pos: usize, remaining_packet_length: u32) -> (r: Result<
    Option<(SubscribeAckPacket, usize)>,
    DecodeError,
>)
    ensures
        outcome(r) == parse_subscribe_ack(bytes@, pos as int, remaining_packet_length),
{
    proof {
        reveal(parse_subscribe_ack);
    }
    let start = pos;
    let (packet_id, pos) = match read_u16(bytes, pos)? {
        Some(read) => read,
        None => return Ok(None),
    };
    proof {
        parse_properties_advances(bytes@, pos as int);
    }
    let (properties, pos) = match decode_properties(bytes, pos)? {
        Some(read) => read,
        None => return Ok(None),
    };
    let mut reason_codes: Vec<SubscribeAckReason> = Vec::new();
    let mut at = pos;
    proof {
        deep_view_empty(reason_codes);
    }
    while at - start < remaining_packet_length as usize
        invariant
            start <= at <= bytes.len(),
            parse_subscribe_ack_run(
                bytes@,
                pos as int,
                start + remaining_packet_length,
                Seq::empty(),
            ) == parse_subscribe_ack_run(
                bytes@,
                at as int,
                start + remaining_packet_length,
                reason_codes.deep_view(),
            ),
        decreases bytes.len() - at,
    {
        let (next_byte, next) = match read_u8(bytes, at)? {
            Some(read) => read,
            None => return Ok(None),
        };
        let reason_code = match SubscribeAckReason::from_u8(next_byte) {
            Some(reason_code) => reason_code,
            None => return Err(DecodeError::InvalidSubscribeAckReason),
        };
        let ghost before = reason_codes;
        reason_codes.push(reason_code);
        proof {
            deep_view_push(before, reason_codes, reason_code);
        }
        at = next;
    }
    let packet = SubscribeAckPacket {
        packet_id,
        reason_string: properties.reason_string,
        user_properties: properties.user_properties,
        reason_codes,
    };
    Ok(Some((packet, at)))
}

/// Reads the body of an UnsubscribeAck packet.
#[verifier::loop_isolation(false)]
pub fn decode_unsubscribe_ack(bytes: &[u8], pos: usize, remaining_packet_length: u32) -> (r: Result<
    Option<(UnsubscribeAckPacket, usize)>,
    DecodeError,
>)
    ensures
        outcome(r) == parse_unsubscribe_ack(bytes@, pos as int, remaining_packet_length),
{
    proof {
        reveal(parse_unsubscribe_ack);
    }
    let start = pos;
    let (packet_id, pos) = match read_u16(bytes, pos)? {
        Some(read) => read,
        None => return Ok(None),
    };
    proof {
        parse_properties_advances(bytes@, pos as int);
    }
    let (properties, pos) = match decode_properties(bytes, pos)? {
        Some(read) => read,
        None => return Ok(None),
    };
    let mut reason_codes: Vec<UnsubscribeAckReason> = Vec::new();
    let mut at = pos;
    proof {
        deep_view_empty(reason_codes);
    }
    while at - start < remaining_packet_length as usize
        invariant
            start <= at <= bytes.len(),
            parse_unsubscribe_ack_run(
                bytes@,
                pos as int,
                start + remaining_packet_length,
                Seq::empty(),
            ) == parse_unsubscribe_ack_run(
                bytes@,
                at as int,
                start + remaining_packet_length,
                reason_codes.deep_view(),
            ),
        decreases bytes.len() - at,
    {
        let (next_byte, next) = match read_u8(bytes, at)? {
            Some(read) => read,
            None => return Ok(None),
        };
        let reason_code = match UnsubscribeAckReason::from_u8(next_byte) {
            Some(reason_code) => reason_code,
            None => return Err(DecodeError::InvalidUnsubscribeAckReason),
        };
        let ghost before = reason_codes;
        reason_codes.push(reason_code);
        proof {
            deep_view_push(before, reason_codes, reason_code);
        }
        at = next;
    }
    let packet = UnsubscribeAckPacket {
        packet_id,
        reason_string: properties.reason_string,
        user_properties: properties.user_properties,
        reason_codes,
    };
    Ok(Some((packet, at)))
}

/// Reads the body of a Disconnect packet.
pub fn decode_disconnect(bytes: &[u8], pos: usize, remaining_packet_length: u32) -> (r: Result<
    Option<(DisconnectPacket, usize)>,
    DecodeError,
>)
    ensures
        outcome(r) == parse_disconnect(bytes@, pos as int, remaining_packet_length),
{
    proof {
        reveal(parse_disconnect);
    }
    let mut session_expiry_interval = None;
    let mut reason_string = None;
    let mut user_properties: Vec<UserProperty> = Vec::new();
    let mut server_reference = None;
    proof {
        deep_view_empty(user_properties);
    }
    if remaining_packet_length == 0 {
        return Ok(
            Some(
                (
                    DisconnectPacket {
                        reason_code: DisconnectReason::NormalDisconnection,
                        session_expiry_interval,
                        reason_string,
                        user_properties,
                        server_reference,
                    },
                    pos,
                ),
            ),
        );
    }
    let (reason_code_byte, pos) = match read_u8(bytes, pos)? {
        Some(read) => read,
        None => return Ok(None),
    };
    let reason_code = match DisconnectReason::from_u8(reason_code_byte) {
        Some(reason_code) => reason_code,
        None => return Err(DecodeError::InvalidDisconnectReason),
    };
    let mut end = pos;
    if remaining_packet_length >= 2 {
        let (properties, next) = match decode_properties(bytes, pos)? {
            Some(read) => read,
            None => return Ok(None),
        };
        session_expiry_interval = properties.session_expiry_interval;
        reason_string = properties.reason_string;
        user_properties = properties.user_properties;
        server_reference = properties.server_reference;
        end = next;
    }
    let packet = DisconnectPacket {
        reason_code,
        session_expiry_interval,
        reason_string,
        user_properties,
        server_reference,
    };
    Ok(Some((packet, end)))
}

/// Reads the body of an Authenticate packet.
pub fn decode_authenticate(bytes: &[u8], pos: usize, remaining_packet_length: u32) -> (r: Result<
    Option<(AuthenticatePacket, usize)>,
    DecodeError,
>)
    ensures
        outcome(r) == parse_authenticate(bytes@, pos as int, remaining_packet_length),
{
    proof {
        reveal(parse_authenticate);
    }
    let mut authentication_method = None;
    let mut authentication_data = None;
    let mut reason_string = None;
    let mut user_properties: Vec<UserProperty> = Vec::new();
    proof {
        deep_view_empty(user_properties);
    }
    if remaining_packet_length == 0 {
        return Ok(
            Some(
                (
                    AuthenticatePacket {
                        reason_code: AuthenticateReason::Success,
                        authentication_method,
                        authentication_data,
                        reason_string,
                        user_properties,
                    },
                    pos,
                ),
            ),
        );
    }
    let (reason_code_byte, pos) = match read_u8(bytes, pos)? {
        Some(read) => read,
        None => return Ok(None),
    };
    let reason_code = match AuthenticateReason::from_u8(reason_code_byte) {
        Some(reason_code) => reason_code,
        None => return Err(DecodeError::InvalidAuthenticateReason),
    };
    let mut end = pos;
    if remaining_packet_length >= 2 {
        let (properties, next) = match decode_properties(bytes, pos)? {
            Some(read) => read,
            None => return Ok(None),
        };
        authentication_method = properties.authentication_method;
        authentication_data = properties.authentication_data;
        reason_string = properties.reason_string;
        user_properties = properties.user_properties;
        end = next;
    }
    let packet = AuthenticatePacket {
        reason_code,
        authentication_method,
        authentication_data,
        reason_string,
        user_properties,
    };
    Ok(Some((packet, end)))
}

} // verus!

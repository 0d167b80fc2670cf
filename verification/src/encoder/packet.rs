//! Writers for the bodies of the packet kinds.

use crate::codes::{QoS, SubscribeAckReason, UnsubscribeAckReason};
use crate::encoder::primitive::{encode_binary_data, encode_string, encode_u16, put_bytes};
use crate::encoder::property::encode_properties;
use crate::encoder::wrote;
use crate::error::EncodeError;
use crate::packet::{
    AuthenticatePacket, ConnectAckPacket, ConnectPacket, DisconnectPacket, FinalWill,
    PublishAckPacket, PublishCompletePacket, PublishPacket, PublishReceivedPacket,
    PublishReleasePacket, SubscribeAckPacket, SubscribePacket, SubscriptionTopic,
    UnsubscribeAckPacket, UnsubscribePacket,
};
use crate::properties::{PropertyRefs, UserProperty};
use crate::wire::form::{
    authenticate_bytes, authenticate_fault, authenticate_properties, connect_ack_bytes,
    connect_ack_fault, connect_ack_properties, connect_bytes, connect_fault, connect_flags,
    connect_payload_bytes, connect_payload_fault, connect_properties, disconnect_bytes,
    disconnect_fault, disconnect_properties, optional_string_bytes, optional_string_fault,
    publish_ack_bytes, publish_ack_fault, publish_bytes, publish_complete_bytes,
    publish_complete_fault, publish_fault, publish_flags, publish_properties,
    publish_received_bytes, publish_received_fault, publish_release_bytes, publish_release_fault,
    reason_properties, subscribe_ack_bytes, subscribe_ack_fault, subscribe_bytes, subscribe_fault,
    subscribe_properties, subscription_bytes, subscription_options, subscriptions_bytes,
    subscriptions_fault, topics_bytes, topics_fault, unsubscribe_ack_bytes, unsubscribe_ack_fault,
    unsubscribe_bytes, unsubscribe_fault, unsubscribe_properties, will_bytes, will_fault,
    will_properties,
};
use crate::wire::primitive::{string_bytes, string_fault};
use vstd::prelude::*;

verus! {

/// A vector of bytes is its own model.
proof fn bytes_model(data: &Vec<u8>)
    ensures
        data.deep_view() == data@,
{
    assert(data.deep_view() =~= data@);
}

/// Writes a string if there is one.
pub fn encode_optional_string(text: &Option<String>, out: &mut Vec<u8>) -> (r: Result<
    (),
    EncodeError,
>)
    ensures
        wrote(
            r,
            old(out)@,
            final(out)@,
            optional_string_fault(text.deep_view()),
            optional_string_bytes(text.deep_view()),
        ),
{
    match text {
        Some(text) => encode_string(text.as_str(), out),
        None => {
            assert(out@ =~= old(out)@ + Seq::<u8>::empty());
            Ok(())
        },
    }
}

/// The properties of a packet that carries a reason string and user
/// properties and no other.
pub fn reason_property_refs<'a>(
    reason_string: &'a Option<String>,
    user_properties: &'a Vec<UserProperty>,
) -> (properties: PropertyRefs<'a>)
    ensures
        properties.deep_view() == reason_properties(
            reason_string.deep_view(),
            user_properties.deep_view(),
        ),
{
    let mut properties = PropertyRefs::empty();
    properties.reason_string = reason_string.as_ref();
    properties.user_properties = Some(user_properties);
    properties
}

/// The properties of a will, on loan from it.
pub fn will_property_refs<'a>(packet: &'a FinalWill) -> (properties: PropertyRefs<'a>)
    ensures
        properties.deep_view() == will_properties(packet.deep_view()),
{
    let mut properties = PropertyRefs::empty();
    properties.will_delay_interval = packet.will_delay_interval;
    properties.payload_format_indicator = packet.payload_format_indicator;
    properties.message_expiry_interval = packet.message_expiry_interval;
    properties.content_type = packet.content_type.as_ref();
    properties.response_topic = packet.response_topic.as_ref();
    properties.correlation_data = packet.correlation_data.as_ref();
    properties.user_properties = Some(&packet.user_properties);
    properties
}

/// The properties of a Connect packet, on loan from it.
pub fn connect_property_refs<'a>(packet: &'a ConnectPacket) -> (properties: PropertyRefs<'a>)
    ensures
        properties.deep_view() == connect_properties(packet.deep_view()),
{
    let mut properties = PropertyRefs::empty();
    properties.session_expiry_interval = packet.session_expiry_interval;
    properties.receive_maximum = packet.receive_maximum;
    properties.maximum_packet_size = packet.maximum_packet_size;
    properties.topic_alias_maximum = packet.topic_alias_maximum;
    properties.request_response_information = packet.request_response_information;
    properties.request_problem_information = packet.request_problem_information;
    properties.user_properties = Some(&packet.user_properties);
    properties.authentication_method = packet.authentication_method.as_ref();
    properties.authentication_data = packet.authentication_data.as_ref();
    properties
}

/// The properties of a ConnectAck packet, on loan from it.
pub fn connect_ack_property_refs<'a>(packet: &'a ConnectAckPacket) -> (properties: PropertyRefs<'a>)
    ensures
        properties.deep_view() == connect_ack_properties(packet.deep_view()),
{
    let mut properties = PropertyRefs::empty();
    properties.session_expiry_interval = packet.session_expiry_interval;
    properties.receive_maximum = packet.receive_maximum;
    properties.maximum_qos = packet.maximum_qos;
    properties.retain_available = packet.retain_available;
    properties.maximum_packet_size = packet.maximum_packet_size;
    properties.assigned_client_identifier = packet.assigned_client_identifier.as_ref();
    properties.topic_alias_maximum = packet.topic_alias_maximum;
    properties.reason_string = packet.reason_string.as_ref();
    properties.user_properties = Some(&packet.user_properties);
    properties.wildcard_subscription_available = packet.wildcard_subscription_available;
    properties.subscription_identifier_available = packet.subscription_identifiers_available;
    properties.shared_subscription_available = packet.shared_subscription_available;
    properties.server_keep_alive = packet.server_keep_alive;
    properties.response_information = packet.response_information.as_ref();
    properties.server_reference = packet.server_reference.as_ref();
    properties.authentication_method = packet.authentication_method.as_ref();
    properties.authentication_data = packet.authentication_data.as_ref();
    properties
}

/// The properties of a Publish packet, on loan from it.
pub fn publish_property_refs<'a>(packet: &'a PublishPacket) -> (properties: PropertyRefs<'a>)
    ensures
        properties.deep_view() == publish_properties(packet.deep_view()),
{
    let mut properties = PropertyRefs::empty();
    properties.payload_format_indicator = packet.payload_format_indicator;
    properties.message_expiry_interval = packet.message_expiry_interval;
    properties.topic_alias = packet.topic_alias;
    properties.response_topic = packet.response_topic.as_ref();
    properties.correlation_data = packet.correlation_data.as_ref();
    properties.user_properties = Some(&packet.user_properties);
    properties.subscription_identifier = packet.subscription_identifier;
    properties.content_type = packet.content_type.as_ref();
    properties
}

/// The properties of a Subscribe packet, on loan from it.
pub fn subscribe_property_refs<'a>(packet: &'a SubscribePacket) -> (properties: PropertyRefs<'a>)
    ensures
        properties.deep_view() == subscribe_properties(packet.deep_view()),
{
    let mut properties = PropertyRefs::empty();
    properties.subscription_identifier = packet.subscription_identifier;
    properties.user_properties = Some(&packet.user_properties);
    properties
}

/// The properties of an Unsubscribe packet, on loan from it.
pub fn unsubscribe_property_refs<'a>(packet: &'a UnsubscribePacket) -> (properties: PropertyRefs<
    'a,
>)
    ensures
        properties.deep_view() == unsubscribe_properties(packet.deep_view()),
{
    let mut properties = PropertyRefs::empty();
    properties.user_properties = Some(&packet.user_properties);
    properties
}

/// The properties of a Disconnect packet, on loan from it.
pub fn disconnect_property_refs<'a>(packet: &'a DisconnectPacket) -> (properties: PropertyRefs<'a>)
    ensures
        properties.deep_view() == disconnect_properties(packet.deep_view()),
{
    let mut properties = PropertyRefs::empty();
    properties.session_expiry_interval = packet.session_expiry_interval;
    properties.reason_string = packet.reason_string.as_ref();
    properties.user_properties = Some(&packet.user_properties);
    properties.server_reference = packet.server_reference.as_ref();
    properties
}

/// The properties of an Authenticate packet, on loan from it.
pub fn authenticate_property_refs<'a>(packet: &'a AuthenticatePacket) -> (properties:
    PropertyRefs<'a>)
    ensures
        properties.deep_view() == authenticate_properties(packet.deep_view()),
{
    let mut properties = PropertyRefs::empty();
    properties.authentication_method = packet.authentication_method.as_ref();
    properties.authentication_data = packet.authentication_data.as_ref();
    properties.reason_string = packet.reason_string.as_ref();
    properties.user_properties = Some(&packet.user_properties);
    properties
}

/// Writes the will of a Connect packet.
pub fn encode_will(will: &FinalWill, out: &mut Vec<u8>) -> (r: Result<(), EncodeError>)
    ensures
        wrote(
            r,
            old(out)@,
            final(out)@,
            will_fault(will.deep_view()),
            will_bytes(will.deep_view()),
        ),
{
    let properties = will_property_refs(will);
    proof {
        bytes_model(&will.payload);
    }
    encode_properties(&properties, out)?;
    encode_string(will.topic.as_str(), out)?;
    encode_binary_data(will.payload.as_slice(), out)?;
    assert(out@ =~= old(out)@ + will_bytes(will.deep_view()));
    Ok(())
}

/// The connect flags of a Connect packet.
pub fn connect_flags_byte(packet: &ConnectPacket) -> (flags: u8)
    ensures
        flags == connect_flags(packet.deep_view()),
{
    proof {
        reveal(connect_flags);
    }
    let clean_start: u8 = if packet.clean_start {
        2
    } else {
        0
    };
    let will: u8 = match &packet.will {
        Some(will) => {
            let retain: u8 = if will.should_retain {
                32
            } else {
                0
            };
            4 + will.qos.to_u8() * 8 + retain
        },
        None => 0,
    };
    let password: u8 = if packet.password.is_some() {
        64
    } else {
        0
    };
    let user_name: u8 = if packet.user_name.is_some() {
        128
    } else {
        0
    };
    clean_start + will + password + user_name
}

/// Writes the payload of a Connect packet.
pub fn encode_connect_payload(packet: &ConnectPacket, out: &mut Vec<u8>) -> (r: Result<
    (),
    EncodeError,
>)
    ensures
        wrote(
            r,
            old(out)@,
            final(out)@,
            connect_payload_fault(packet.deep_view()),
            connect_payload_bytes(packet.deep_view()),
        ),
{
    encode_string(packet.client_id.as_str(), out)?;
    match &packet.will {
        Some(will) => {
            encode_will(will, out)?;
        },
        None => {},
    }
    encode_optional_string(&packet.user_name, out)?;
    encode_optional_string(&packet.password, out)?;
    assert(out@ =~= old(out)@ + connect_payload_bytes(packet.deep_view()));
    Ok(())
}

/// Writes all that follows the fixed header of a Connect packet.
pub fn encode_connect(packet: &ConnectPacket, out: &mut Vec<u8>) -> (r: Result<(), EncodeError>)
    ensures
        wrote(
            r,
            old(out)@,
            final(out)@,
            connect_fault(packet.deep_view()),
            connect_bytes(packet.deep_view()),
        ),
{
    let properties = connect_property_refs(packet);
    encode_string(packet.protocol_name.as_str(), out)?;
    out.push(packet.protocol_level);
    out.push(connect_flags_byte(packet));
    encode_u16(packet.keep_alive, out);
    encode_properties(&properties, out)?;
    encode_connect_payload(packet, out)?;
    assert(out@ =~= old(out)@ + connect_bytes(packet.deep_view()));
    Ok(())
}

/// Writes all that follows the fixed header of a ConnectAck packet.
pub fn encode_connect_ack(packet: &ConnectAckPacket, out: &mut Vec<u8>) -> (r: Result<
    (),
    EncodeError,
>)
    ensures
        wrote(
            r,
            old(out)@,
            final(out)@,
            connect_ack_fault(packet.deep_view()),
            connect_ack_bytes(packet.deep_view()),
        ),
{
    let properties = connect_ack_property_refs(packet);
    let flags: u8 = if packet.session_present {
        1
    } else {
        0
    };
    out.push(flags);
    out.push(packet.reason_code.to_u8());
    encode_properties(&properties, out)?;
    assert(out@ =~= old(out)@ + connect_ack_bytes(packet.deep_view()));
    Ok(())
}

/// The flags of a Publish packet, for the low nibble of the first byte.
pub fn publish_flags_byte(packet: &PublishPacket) -> (flags: u8)
    ensures
        flags == publish_flags(packet.deep_view()),
        flags < 16,
{
    let is_duplicate: u8 = if packet.is_duplicate {
        8
    } else {
        0
    };
    let retain: u8 = if packet.retain {
        1
    } else {
        0
    };
    is_duplicate + packet.qos.to_u8() * 2 + retain
}

/// Writes all that follows the fixed header of a Publish packet.
pub fn encode_publish(packet: &PublishPacket, out: &mut Vec<u8>) -> (r: Result<(), EncodeError>)
    ensures
        wrote(
            r,
            old(out)@,
            final(out)@,
            publish_fault(packet.deep_view()),
            publish_bytes(packet.deep_view()),
        ),
{
    let properties = publish_property_refs(packet);
    proof {
        bytes_model(&packet.payload);
    }
    encode_string(packet.topic_name.as_str(), out)?;
    match (packet.qos, packet.packet_id) {
        (QoS::AtMostOnce, None) => {},
        (QoS::AtMostOnce, Some(_)) => {
            return Err(EncodeError::InvalidPacketId);
        },
        (_, None) => {
            return Err(EncodeError::InvalidPacketId);
        },
        (_, Some(packet_id)) => {
            encode_u16(packet_id, out);
        },
    }
    encode_properties(&properties, out)?;
    put_bytes(packet.payload.as_slice(), out);
    assert(out@ =~= old(out)@ + publish_bytes(packet.deep_view()));
    Ok(())
}

/// Writes all that follows the fixed header of a PublishAck packet.
pub fn encode_publish_ack(packet: &PublishAckPacket, out: &mut Vec<u8>) -> (r: Result<
    (),
    EncodeError,
>)
    ensures
        wrote(
            r,
            old(out)@,
            final(out)@,
            publish_ack_fault(packet.deep_view()),
            publish_ack_bytes(packet.deep_view()),
        ),
{
    let properties = reason_property_refs(&packet.reason_string, &packet.user_properties);
    encode_u16(packet.packet_id, out);
    out.push(packet.reason_code.to_u8());
    encode_properties(&properties, out)?;
    assert(out@ =~= old(out)@ + publish_ack_bytes(packet.deep_view()));
    Ok(())
}

/// Writes all that follows the fixed header of a PublishReceived packet.
pub fn encode_publish_received(packet: &PublishReceivedPacket, out: &mut Vec<u8>) -> (r: Result<
    (),
    EncodeError,
>)
    ensures
        wrote(
            r,
            old(out)@,
            final(out)@,
            publish_received_fault(packet.deep_view()),
            publish_received_bytes(packet.deep_view()),
        ),
{
    let properties = reason_property_refs(&packet.reason_string, &packet.user_properties);
    encode_u16(packet.packet_id, out);
    out.push(packet.reason_code.to_u8());
    encode_properties(&properties, out)?;
    assert(out@ =~= old(out)@ + publish_received_bytes(packet.deep_view()));
    Ok(())
}

/// Writes all that follows the fixed header of a PublishRelease packet.
pub fn encode_publish_release(packet: &PublishReleasePacket, out: &mut Vec<u8>) -> (r: Result<
    (),
    EncodeError,
>)
    ensures
        wrote(
            r,
            old(out)@,
            final(out)@,
            publish_release_fault(packet.deep_view()),
            publish_release_bytes(packet.deep_view()),
        ),
{
    let properties = reason_property_refs(&packet.reason_string, &packet.user_properties);
    encode_u16(packet.packet_id, out);
    out.push(packet.reason_code.to_u8());
    encode_properties(&properties, out)?;
    assert(out@ =~= old(out)@ + publish_release_bytes(packet.deep_view()));
    Ok(())
}

/// Writes all that follows the fixed header of a PublishComplete packet.
pub fn encode_publish_complete(packet: &PublishCompletePacket, out: &mut Vec<u8>) -> (r: Result<
    (),
    EncodeError,
>)
    ensures
        wrote(
            r,
            old(out)@,
            final(out)@,
            publish_complete_fault(packet.deep_view()),
            publish_complete_bytes(packet.deep_view()),
        ),
{
    let properties = reason_property_refs(&packet.reason_string, &packet.user_properties);
    encode_u16(packet.packet_id, out);
    out.push(packet.reason_code.to_u8());
    encode_properties(&properties, out)?;
    assert(out@ =~= old(out)@ + publish_complete_bytes(packet.deep_view()));
    Ok(())
}

/// The options byte of an entry of a Subscribe packet.
pub fn subscription_options_byte(entry: &SubscriptionTopic) -> (options: u8)
    ensures
        options == subscription_options(entry.deep_view()),
{
    let no_local: u8 = if entry.no_local {
        4
    } else {
        0
    };
    let retain_as_published: u8 = if entry.retain_as_published {
        8
    } else {
        0
    };
    entry.maximum_qos.to_u8() + no_local + retain_as_published + entry.retain_handling.to_u8() * 16
}

/// Writes one entry of a Subscribe packet.
pub fn encode_subscription_topic(entry: &SubscriptionTopic, out: &mut Vec<u8>) -> (r: Result<
    (),
    EncodeError,
>)
    ensures
        wrote(
            r,
            old(out)@,
            final(out)@,
            string_fault(entry.deep_view().topic),
            subscription_bytes(entry.deep_view()),
        ),
{
    encode_string(entry.topic.as_str(), out)?;
    out.push(subscription_options_byte(entry));
    assert(out@ =~= old(out)@ + subscription_bytes(entry.deep_view()));
    Ok(())
}

/// Writes the entries of a Subscribe packet.
pub fn encode_subscription_topics(entries: &Vec<SubscriptionTopic>, out: &mut Vec<u8>) -> (r:
    Result<(), EncodeError>)
    ensures
        wrote(
            r,
            old(out)@,
            final(out)@,
            subscriptions_fault(entries.deep_view()),
            subscriptions_bytes(entries.deep_view()),
        ),
{
    let ghost all = entries.deep_view();
    let ghost mut rest_bytes = subscriptions_bytes(all);
    let ghost mut done: Seq<u8> = Seq::empty();
    let mut at: usize = 0;
    assert(all.skip(0) =~= all);
    assert(out@ =~= old(out)@ + done);
    assert(done + rest_bytes =~= subscriptions_bytes(all));
    while at < entries.len()
        invariant
            at <= entries.len(),
            all == entries.deep_view(),
            subscriptions_fault(all) == subscriptions_fault(all.skip(at as int)),
            rest_bytes == subscriptions_bytes(all.skip(at as int)),
            done + rest_bytes == subscriptions_bytes(all),
            out@ == old(out)@ + done,
        decreases entries.len() - at,
    {
        let r = encode_subscription_topic(&entries[at], out);
        proof {
            let rest = all.skip(at as int);
            let first = subscription_bytes(rest[0]);
            assert(rest[0] == entries[at as int].deep_view());
            assert(rest.skip(1) =~= all.skip(at + 1));
            if r is Ok {
                let next_rest = subscriptions_bytes(all.skip(at + 1));
                assert(rest_bytes == first + next_rest);
                assert((done + first) + next_rest =~= done + rest_bytes);
                assert(out@ =~= old(out)@ + (done + first));
                done = done + first;
                rest_bytes = next_rest;
            }
        }
        if let Err(error) = r {
            return Err(error);
        }
        at = at + 1;
    }
    assert(done =~= subscriptions_bytes(all));
    Ok(())
}

/// Writes topic filters one after the other.
pub fn encode_topics(topics: &Vec<String>, out: &mut Vec<u8>) -> (r: Result<(), EncodeError>)
    ensures
        wrote(
            r,
            old(out)@,
            final(out)@,
            topics_fault(topics.deep_view()),
            topics_bytes(topics.deep_view()),
        ),
{
    let ghost all = topics.deep_view();
    let ghost mut rest_bytes = topics_bytes(all);
    let ghost mut done: Seq<u8> = Seq::empty();
    let mut at: usize = 0;
    assert(all.skip(0) =~= all);
    assert(out@ =~= old(out)@ + done);
    assert(done + rest_bytes =~= topics_bytes(all));
    while at < topics.len()
        invariant
            at <= topics.len(),
            all == topics.deep_view(),
            topics_fault(all) == topics_fault(all.skip(at as int)),
            rest_bytes == topics_bytes(all.skip(at as int)),
            done + rest_bytes == topics_bytes(all),
            out@ == old(out)@ + done,
        decreases topics.len() - at,
    {
        let r = encode_string(topics[at].as_str(), out);
        proof {
            let rest = all.skip(at as int);
            let first = string_bytes(rest[0]);
            assert(rest[0] == topics[at as int]@);
            assert(rest.skip(1) =~= all.skip(at + 1));
            if r is Ok {
                let next_rest = topics_bytes(all.skip(at + 1));
                assert(rest_bytes == first + next_rest);
                assert((done + first) + next_rest =~= done + rest_bytes);
                assert(out@ =~= old(out)@ + (done + first));
                done = done + first;
                rest_bytes = next_rest;
            }
        }
        if let Err(error) = r {
            return Err(error);
        }
        at = at + 1;
    }
    assert(done =~= topics_bytes(all));
    Ok(())
}

/// Writes all that follows the fixed header of a Subscribe packet.
pub fn encode_subscribe(packet: &SubscribePacket, out: &mut Vec<u8>) -> (r: Result<
    (),
    EncodeError,
>)
    ensures
        wrote(
            r,
            old(out)@,
            final(out)@,
            subscribe_fault(packet.deep_view()),
            subscribe_bytes(packet.deep_view()),
        ),
{
    let properties = subscribe_property_refs(packet);
    encode_u16(packet.packet_id, out);
    encode_properties(&properties, out)?;
    encode_subscription_topics(&packet.subscription_topics, out)?;
    assert(out@ =~= old(out)@ + subscribe_bytes(packet.deep_view()));
    Ok(())
}

/// Writes all that follows the fixed header of an Unsubscribe packet.
pub fn encode_unsubscribe(packet: &UnsubscribePacket, out: &mut Vec<u8>) -> (r: Result<
    (),
    EncodeError,
>)
    ensures
        wrote(
            r,
            old(out)@,
            final(out)@,
            unsubscribe_fault(packet.deep_view()),
            unsubscribe_bytes(packet.deep_view()),
        ),
{
    let properties = unsubscribe_property_refs(packet);
    encode_u16(packet.packet_id, out);
    encode_properties(&properties, out)?;
    encode_topics(&packet.topics, out)?;
    assert(out@ =~= old(out)@ + unsubscribe_bytes(packet.deep_view()));
    Ok(())
}

/// Writes all that follows the fixed header of a SubscribeAck packet.
pub fn encode_subscribe_ack(packet: &SubscribeAckPacket, out: &mut Vec<u8>) -> (r: Result<
    (),
    EncodeError,
>)
    ensures
        wrote(
            r,
            old(out)@,
            final(out)@,
            subscribe_ack_fault(packet.deep_view()),
            subscribe_ack_bytes(packet.deep_view()),
        ),
{
    let properties = reason_property_refs(&packet.reason_string, &packet.user_properties);
    encode_u16(packet.packet_id, out);
    encode_properties(&properties, out)?;
    let ghost start = out@;
    let ghost codes = packet.deep_view().reason_codes.map_values(
        |reason: SubscribeAckReason| reason.code(),
    );
    let mut at: usize = 0;
    assert(out@ =~= start + codes.take(0));
    while at < packet.reason_codes.len()
        invariant
            at <= packet.reason_codes.len(),
            codes == packet.deep_view().reason_codes.map_values(
                |reason: SubscribeAckReason| reason.code(),
            ),
            out@ == start + codes.take(at as int),
        decreases packet.reason_codes.len() - at,
    {
        out.push(packet.reason_codes[at].to_u8());
        assert(codes.take(at + 1) =~= codes.take(at as int).push(codes[at as int]));
        at = at + 1;
    }
    assert(codes.take(at as int) =~= codes);
    assert(out@ =~= old(out)@ + subscribe_ack_bytes(packet.deep_view()));
    Ok(())
}

/// Writes all that follows the fixed header of an UnsubscribeAck packet.
pub fn encode_unsubscribe_ack(packet: &UnsubscribeAckPacket, out: &mut Vec<u8>) -> (r: Result<
    (),
    EncodeError,
>)
    ensures
        wrote(
            r,
            old(out)@,
            final(out)@,
            unsubscribe_ack_fault(packet.deep_view()),
            unsubscribe_ack_bytes(packet.deep_view()),
        ),
{
    let properties = reason_property_refs(&packet.reason_string, &packet.user_properties);
    encode_u16(packet.packet_id, out);
    encode_properties(&properties, out)?;
    let ghost start = out@;
    let ghost codes = packet.deep_view().reason_codes.map_values(
        |reason: UnsubscribeAckReason| reason.code(),
    );
    let mut at: usize = 0;
    assert(out@ =~= start + codes.take(0));
    while at < packet.reason_codes.len()
        invariant
            at <= packet.reason_codes.len(),
            codes == packet.deep_view().reason_codes.map_values(
                |reason: UnsubscribeAckReason| reason.code(),
            ),
            out@ == start + codes.take(at as int),
        decreases packet.reason_codes.len() - at,
    {
        out.push(packet.reason_codes[at].to_u8());
        assert(codes.take(at + 1) =~= codes.take(at as int).push(codes[at as int]));
        at = at + 1;
    }
    assert(codes.take(at as int) =~= codes);
    assert(out@ =~= old(out)@ + unsubscribe_ack_bytes(packet.deep_view()));
    Ok(())
}

/// Writes all that follows the fixed header of a Disconnect packet.
pub fn encode_disconnect(packet: &DisconnectPacket, out: &mut Vec<u8>) -> (r: Result<
    (),
    EncodeError,
>)
    ensures
        wrote(
            r,
            old(out)@,
            final(out)@,
            disconnect_fault(packet.deep_view()),
            disconnect_bytes(packet.deep_view()),
        ),
{
    let properties = disconnect_property_refs(packet);
    out.push(packet.reason_code.to_u8());
    encode_properties(&properties, out)?;
    assert(out@ =~= old(out)@ + disconnect_bytes(packet.deep_view()));
    Ok(())
}

/// Writes all that follows the fixed header of an Authenticate packet.
pub fn encode_authenticate(packet: &AuthenticatePacket, out: &mut Vec<u8>) -> (r: Result<
    (),
    EncodeError,
>)
    ensures
        wrote(
            r,
            old(out)@,
            final(out)@,
            authenticate_fault(packet.deep_view()),
            authenticate_bytes(packet.deep_view()),
        ),
{
    let properties = authenticate_property_refs(packet);
    out.push(packet.reason_code.to_u8());
    encode_properties(&properties, out)?;
    assert(out@ =~= old(out)@ + authenticate_bytes(packet.deep_view()));
    Ok(())
}

} // verus!

//! What was read stays read: an outcome that is not `Incomplete` is the same
//! whatever bytes arrive behind those that gave it.

use crate::codes::{PacketType, QoS, SubscribeAckReason, UnsubscribeAckReason};
use crate::packet::SubscriptionTopicView;
use crate::properties::{PropertiesView, PropertyType};
use crate::wire::packet::{
    flag_password, flag_user_name, flag_will, flag_will_qos, flag_will_retain, parse_authenticate,
    parse_connect, parse_connect_ack, parse_connect_payload, parse_disconnect, parse_frame,
    parse_optional_properties, parse_optional_string, parse_optional_u16, parse_optional_will,
    parse_packet, parse_publish, parse_publish_ack, parse_publish_complete, parse_publish_received,
    parse_publish_release, parse_string_advances, parse_subscribe, parse_subscribe_ack,
    parse_subscribe_ack_reason, parse_subscribe_ack_run, parse_subscription, parse_subscription_run,
    parse_topic_run, parse_unsubscribe, parse_unsubscribe_ack, parse_unsubscribe_ack_reason,
    parse_unsubscribe_ack_run, parse_will, rest_of_frame,
};
use crate::wire::primitive::{
    parse_binary, parse_bytes, parse_string, parse_u16, parse_u32, parse_u8, parse_vbi, Parsed,
};
use crate::wire::property::{
    parse_properties, parse_property, parse_property_advances, parse_property_run,
    parse_property_value,
};
use vstd::prelude::*;

verus! {

/// The outcome `longer` is the outcome `shorter` unless that is `Incomplete`.
pub open spec fn settles<T>(shorter: Parsed<T>, longer: Parsed<T>) -> bool {
    shorter !is Incomplete ==> longer == shorter
}

/// What reading a byte gave stays what it gives.
pub proof fn u8_settles(s: Seq<u8>, rest: Seq<u8>, pos: int)
    ensures
        settles(parse_u8(s, pos), parse_u8(s + rest, pos)),
{
}

/// What reading a two-byte integer gave stays what it gives.
pub proof fn u16_settles(s: Seq<u8>, rest: Seq<u8>, pos: int)
    ensures
        settles(parse_u16(s, pos), parse_u16(s + rest, pos)),
{
}

/// What reading a four-byte integer gave stays what it gives.
pub proof fn u32_settles(s: Seq<u8>, rest: Seq<u8>, pos: int)
    ensures
        settles(parse_u32(s, pos), parse_u32(s + rest, pos)),
{
}

/// What reading a variable-byte integer gave stays what it gives.
pub proof fn vbi_settles(s: Seq<u8>, rest: Seq<u8>, pos: int)
    ensures
        settles(parse_vbi(s, pos), parse_vbi(s + rest, pos)),
{
}

/// What reading bytes of a known number gave stays what it gives.
pub proof fn bytes_settle(s: Seq<u8>, rest: Seq<u8>, pos: int, count: int)
    ensures
        settles(parse_bytes(s, pos, count), parse_bytes(s + rest, pos, count)),
{
    if 0 <= pos && 0 <= count && pos + count <= s.len() {
        assert((s + rest).subrange(pos, pos + count) =~= s.subrange(pos, pos + count));
    }
}

/// What reading binary data gave stays what it gives.
pub proof fn binary_settles(s: Seq<u8>, rest: Seq<u8>, pos: int)
    ensures
        settles(parse_binary(s, pos), parse_binary(s + rest, pos)),
{
    u16_settles(s, rest, pos);
    if let Parsed::Done { value, next } = parse_u16(s, pos) {
        bytes_settle(s, rest, next, value as int);
    }
}

/// What reading a string gave stays what it gives.
pub proof fn string_settles(s: Seq<u8>, rest: Seq<u8>, pos: int)
    ensures
        settles(parse_string(s, pos), parse_string(s + rest, pos)),
{
    binary_settles(s, rest, pos);
}

/// What reading the value of a property gave stays what it gives.
pub proof fn property_value_settles(kind: PropertyType, s: Seq<u8>, rest: Seq<u8>, pos: int)
    ensures
        settles(parse_property_value(kind, s, pos), parse_property_value(kind, s + rest, pos)),
{
    u8_settles(s, rest, pos);
    u16_settles(s, rest, pos);
    u32_settles(s, rest, pos);
    vbi_settles(s, rest, pos);
    binary_settles(s, rest, pos);
    string_settles(s, rest, pos);
    if let Parsed::Done { value, next } = parse_string(s, pos) {
        string_settles(s, rest, next);
    }
}

/// What reading a property gave stays what it gives.
pub proof fn property_settles(s: Seq<u8>, rest: Seq<u8>, pos: int)
    ensures
        settles(parse_property(s, pos), parse_property(s + rest, pos)),
{
    reveal(parse_property);
    vbi_settles(s, rest, pos);
    if let Parsed::Done { value, next } = parse_vbi(s, pos) {
        if let Some(kind) = PropertyType::from_id(value) {
            property_value_settles(kind, s, rest, next);
        }
    }
}

/// What reading properties up to an end gave stays what it gives.
pub proof fn property_run_settles(
    s: Seq<u8>,
    rest: Seq<u8>,
    pos: int,
    end: int,
    properties: PropertiesView,
)
    ensures
        settles(
            parse_property_run(s, pos, end, properties),
            parse_property_run(s + rest, pos, end, properties),
        ),
    decreases s.len() - pos,
{
    if pos < end {
        property_settles(s, rest, pos);
        parse_property_advances(s, pos);
        if let Parsed::Done { value, next } = parse_property(s, pos) {
            property_run_settles(s, rest, next, end, properties.accept(value));
        }
    }
}

/// What reading a run of properties gave stays what it gives.
pub proof fn properties_settle(s: Seq<u8>, rest: Seq<u8>, pos: int)
    ensures
        settles(parse_properties(s, pos), parse_properties(s + rest, pos)),
{
    vbi_settles(s, rest, pos);
    if let Parsed::Done { value, next } = parse_vbi(s, pos) {
        property_run_settles(s, rest, next, next + value, PropertiesView::empty());
    }
}

/// What reading a string that may not be there gave stays what it gives.
pub proof fn optional_string_settles(present: bool, s: Seq<u8>, rest: Seq<u8>, pos: int)
    ensures
        settles(
            parse_optional_string(present, s, pos),
            parse_optional_string(present, s + rest, pos),
        ),
{
    string_settles(s, rest, pos);
}

/// What reading a run of properties that may not be there gave stays what it gives.
pub proof fn optional_properties_settle(present: bool, s: Seq<u8>, rest: Seq<u8>, pos: int)
    ensures
        settles(
            parse_optional_properties(present, s, pos),
            parse_optional_properties(present, s + rest, pos),
        ),
{
    properties_settle(s, rest, pos);
}

/// What reading a will gave stays what it gives.
pub proof fn will_settles(s: Seq<u8>, rest: Seq<u8>, pos: int, qos: QoS, should_retain: bool)
    ensures
        settles(
            parse_will(s, pos, qos, should_retain),
            parse_will(s + rest, pos, qos, should_retain),
        ),
{
    reveal(parse_will);
    properties_settle(s, rest, pos);
    let properties = parse_properties(s, pos);
    string_settles(s, rest, properties->next);
    let topic = parse_string(s, properties->next);
    binary_settles(s, rest, topic->next);
}

/// What reading the payload of a Connect packet gave stays what it gives.
pub proof fn connect_payload_settles(
    s: Seq<u8>,
    rest: Seq<u8>,
    pos: int,
    flags: u8,
    will_qos: QoS,
)
    ensures
        settles(
            parse_connect_payload(s, pos, flags, will_qos),
            parse_connect_payload(s + rest, pos, flags, will_qos),
        ),
{
    reveal(parse_connect_payload);
    string_settles(s, rest, pos);
    let client_id = parse_string(s, pos);
    will_settles(s, rest, client_id->next, will_qos, flag_will_retain(flags));
    let will = parse_optional_will(
        flag_will(flags),
        s,
        client_id->next,
        will_qos,
        flag_will_retain(flags),
    );
    optional_string_settles(flag_user_name(flags), s, rest, will->next);
    let user_name = parse_optional_string(flag_user_name(flags), s, will->next);
    optional_string_settles(flag_password(flags), s, rest, user_name->next);
}

/// What reading the body of a Connect packet gave stays what it gives.
pub proof fn connect_settles(s: Seq<u8>, rest: Seq<u8>, pos: int)
    ensures
        settles(parse_connect(s, pos), parse_connect(s + rest, pos)),
{
    reveal(parse_connect);
    string_settles(s, rest, pos);
    let protocol_name = parse_string(s, pos);
    u8_settles(s, rest, protocol_name->next);
    let protocol_level = parse_u8(s, protocol_name->next);
    u8_settles(s, rest, protocol_level->next);
    let flags = parse_u8(s, protocol_level->next);
    u16_settles(s, rest, flags->next);
    let keep_alive = parse_u16(s, flags->next);
    properties_settle(s, rest, keep_alive->next);
    let properties = parse_properties(s, keep_alive->next);
    let will_qos = QoS::from_code(flag_will_qos(flags->value));
    connect_payload_settles(s, rest, properties->next, flags->value, will_qos->0);
}

/// What reading the body of a ConnectAck packet gave stays what it gives.
pub proof fn connect_ack_settles(s: Seq<u8>, rest: Seq<u8>, pos: int)
    ensures
        settles(parse_connect_ack(s, pos), parse_connect_ack(s + rest, pos)),
{
    reveal(parse_connect_ack);
    u8_settles(s, rest, pos);
    let flags = parse_u8(s, pos);
    u8_settles(s, rest, flags->next);
    let reason_byte = parse_u8(s, flags->next);
    properties_settle(s, rest, reason_byte->next);
}

/// What reading the body of a Publish packet gave stays what it gives.
pub proof fn publish_settles(
    s: Seq<u8>,
    rest: Seq<u8>,
    pos: int,
    first_byte: u8,
    remaining_length: u32,
)
    ensures
        settles(
            parse_publish(s, pos, first_byte, remaining_length),
            parse_publish(s + rest, pos, first_byte, remaining_length),
        ),
{
    reveal(parse_publish);
    let qos = QoS::from_code((first_byte / 2 % 4) as u8);
    string_settles(s, rest, pos);
    let topic_name = parse_string(s, pos);
    u16_settles(s, rest, topic_name->next);
    let packet_id = parse_optional_u16(qos != Some(QoS::AtMostOnce), s, topic_name->next);
    properties_settle(s, rest, packet_id->next);
    let properties = parse_properties(s, packet_id->next);
    bytes_settle(
        s,
        rest,
        properties->next,
        rest_of_frame(pos, remaining_length, properties->next),
    );
}

/// The start of the four acknowledgements of a Publish packet settles.
proof fn acknowledgement_settles(s: Seq<u8>, rest: Seq<u8>, pos: int, remaining_length: u32)
    ensures
        settles(parse_u16(s, pos), parse_u16(s + rest, pos)),
        parse_u16(s, pos) matches Parsed::Done { next, .. } ==> settles(
            parse_u8(s, next),
            parse_u8(s + rest, next),
        ),
        parse_u16(s, pos) matches Parsed::Done { next, .. } ==> settles(
            parse_optional_properties(remaining_length >= 4, s, next + 1),
            parse_optional_properties(remaining_length >= 4, s + rest, next + 1),
        ),
{
    u16_settles(s, rest, pos);
    u8_settles(s, rest, pos + 2);
    optional_properties_settle(remaining_length >= 4, s, rest, pos + 3);
}

/// What reading the body of a PublishAck packet gave stays what it gives.
pub proof fn publish_ack_settles(s: Seq<u8>, rest: Seq<u8>, pos: int, remaining_length: u32)
    ensures
        settles(
            parse_publish_ack(s, pos, remaining_length),
            parse_publish_ack(s + rest, pos, remaining_length),
        ),
{
    reveal(parse_publish_ack);
    acknowledgement_settles(s, rest, pos, remaining_length);
}

/// What reading the body of a PublishReceived packet gave stays what it gives.
pub proof fn publish_received_settles(s: Seq<u8>, rest: Seq<u8>, pos: int, remaining_length: u32)
    ensures
        settles(
            parse_publish_received(s, pos, remaining_length),
            parse_publish_received(s + rest, pos, remaining_length),
        ),
{
    reveal(parse_publish_received);
    acknowledgement_settles(s, rest, pos, remaining_length);
}

/// What reading the body of a PublishRelease packet gave stays what it gives.
pub proof fn publish_release_settles(s: Seq<u8>, rest: Seq<u8>, pos: int, remaining_length: u32)
    ensures
        settles(
            parse_publish_release(s, pos, remaining_length),
            parse_publish_release(s + rest, pos, remaining_length),
        ),
{
    reveal(parse_publish_release);
    acknowledgement_settles(s, rest, pos, remaining_length);
}

/// What reading the body of a PublishComplete packet gave stays what it gives.
pub proof fn publish_complete_settles(s: Seq<u8>, rest: Seq<u8>, pos: int, remaining_length: u32)
    ensures
        settles(
            parse_publish_complete(s, pos, remaining_length),
            parse_publish_complete(s + rest, pos, remaining_length),
        ),
{
    reveal(parse_publish_complete);
    acknowledgement_settles(s, rest, pos, remaining_length);
}

/// What reading an entry of a Subscribe packet gave stays what it gives.
pub proof fn subscription_settles(s: Seq<u8>, rest: Seq<u8>, pos: int)
    ensures
        settles(parse_subscription(s, pos), parse_subscription(s + rest, pos)),
{
    string_settles(s, rest, pos);
    let topic = parse_string(s, pos);
    u8_settles(s, rest, topic->next);
}

/// What reading entries up to an end gave stays what it gives.
pub proof fn subscription_run_settles(
    s: Seq<u8>,
    rest: Seq<u8>,
    pos: int,
    end: int,
    entries: Seq<SubscriptionTopicView>,
)
    ensures
        settles(
            parse_subscription_run(s, pos, end, entries),
            parse_subscription_run(s + rest, pos, end, entries),
        ),
    decreases s.len() - pos,
{
    if pos < end {
        subscription_settles(s, rest, pos);
        parse_string_advances(s, pos);
        if let Parsed::Done { value, next } = parse_subscription(s, pos) {
            subscription_run_settles(s, rest, next, end, entries.push(value));
        }
    }
}

/// What reading topic filters up to an end gave stays what it gives.
pub proof fn topic_run_settles(
    s: Seq<u8>,
    rest: Seq<u8>,
    pos: int,
    end: int,
    topics: Seq<Seq<char>>,
)
    ensures
        settles(parse_topic_run(s, pos, end, topics), parse_topic_run(s + rest, pos, end, topics)),
    decreases s.len() - pos,
{
    if pos < end {
        string_settles(s, rest, pos);
        parse_string_advances(s, pos);
        if let Parsed::Done { value, next } = parse_string(s, pos) {
            topic_run_settles(s, rest, next, end, topics.push(value));
        }
    }
}

/// What reading reason codes up to an end gave stays what it gives.
pub proof fn subscribe_ack_run_settles(
    s: Seq<u8>,
    rest: Seq<u8>,
    pos: int,
    end: int,
    reasons: Seq<SubscribeAckReason>,
)
    ensures
        settles(
            parse_subscribe_ack_run(s, pos, end, reasons),
            parse_subscribe_ack_run(s + rest, pos, end, reasons),
        ),
    decreases s.len() - pos,
{
    if pos < end {
        u8_settles(s, rest, pos);
        if let Parsed::Done { value, next } = parse_subscribe_ack_reason(s, pos) {
            subscribe_ack_run_settles(s, rest, next, end, reasons.push(value));
        }
    }
}

/// What reading reason codes up to an end gave stays what it gives.
pub proof fn unsubscribe_ack_run_settles(
    s: Seq<u8>,
    rest: Seq<u8>,
    pos: int,
    end: int,
    reasons: Seq<UnsubscribeAckReason>,
)
    ensures
        settles(
            parse_unsubscribe_ack_run(s, pos, end, reasons),
            parse_unsubscribe_ack_run(s + rest, pos, end, reasons),
        ),
    decreases s.len() - pos,
{
    if pos < end {
        u8_settles(s, rest, pos);
        if let Parsed::Done { value, next } = parse_unsubscribe_ack_reason(s, pos) {
            unsubscribe_ack_run_settles(s, rest, next, end, reasons.push(value));
        }
    }
}

/// What reading the body of a Subscribe packet gave stays what it gives.
pub proof fn subscribe_settles(s: Seq<u8>, rest: Seq<u8>, pos: int, remaining_length: u32)
    ensures
        settles(
            parse_subscribe(s, pos, remaining_length),
            parse_subscribe(s + rest, pos, remaining_length),
        ),
{
    reveal(parse_subscribe);
    u16_settles(s, rest, pos);
    let packet_id = parse_u16(s, pos);
    properties_settle(s, rest, packet_id->next);
    let properties = parse_properties(s, packet_id->next);
    subscription_run_settles(s, rest, properties->next, pos + remaining_length, Seq::empty());
}

/// What reading the body of a SubscribeAck packet gave stays what it gives.
pub proof fn subscribe_ack_settles(s: Seq<u8>, rest: Seq<u8>, pos: int, remaining_length: u32)
    ensures
        settles(
            parse_subscribe_ack(s, pos, remaining_length),
            parse_subscribe_ack(s + rest, pos, remaining_length),
        ),
{
    reveal(parse_subscribe_ack);
    u16_settles(s, rest, pos);
    let packet_id = parse_u16(s, pos);
    properties_settle(s, rest, packet_id->next);
    let properties = parse_properties(s, packet_id->next);
    subscribe_ack_run_settles(s, rest, properties->next, pos + remaining_length, Seq::empty());
}

/// What reading the body of an Unsubscribe packet gave stays what it gives.
pub proof fn unsubscribe_settles(s: Seq<u8>, rest: Seq<u8>, pos: int, remaining_length: u32)
    ensures
        settles(
            parse_unsubscribe(s, pos, remaining_length),
            parse_unsubscribe(s + rest, pos, remaining_length),
        ),
{
    reveal(parse_unsubscribe);
    u16_settles(s, rest, pos);
    let packet_id = parse_u16(s, pos);
    properties_settle(s, rest, packet_id->next);
    let properties = parse_properties(s, packet_id->next);
    topic_run_settles(s, rest, properties->next, pos + remaining_length, Seq::empty());
}

/// What reading the body of an UnsubscribeAck packet gave stays what it gives.
pub proof fn unsubscribe_ack_settles(s: Seq<u8>, rest: Seq<u8>, pos: int, remaining_length: u32)
    ensures
        settles(
            parse_unsubscribe_ack(s, pos, remaining_length),
            parse_unsubscribe_ack(s + rest, pos, remaining_length),
        ),
{
    reveal(parse_unsubscribe_ack);
    u16_settles(s, rest, pos);
    let packet_id = parse_u16(s, pos);
    properties_settle(s, rest, packet_id->next);
    let properties = parse_properties(s, packet_id->next);
    unsubscribe_ack_run_settles(s, rest, properties->next, pos + remaining_length, Seq::empty());
}

/// What reading the body of a Disconnect packet gave stays what it gives.
pub proof fn disconnect_settles(s: Seq<u8>, rest: Seq<u8>, pos: int, remaining_length: u32)
    ensures
        settles(
            parse_disconnect(s, pos, remaining_length),
            parse_disconnect(s + rest, pos, remaining_length),
        ),
{
    reveal(parse_disconnect);
    u8_settles(s, rest, pos);
    let reason_byte = parse_u8(s, pos);
    optional_properties_settle(remaining_length >= 2, s, rest, reason_byte->next);
}

/// What reading the body of an Authenticate packet gave stays what it gives.
pub proof fn authenticate_settles(s: Seq<u8>, rest: Seq<u8>, pos: int, remaining_length: u32)
    ensures
        settles(
            parse_authenticate(s, pos, remaining_length),
            parse_authenticate(s + rest, pos, remaining_length),
        ),
{
    reveal(parse_authenticate);
    u8_settles(s, rest, pos);
    let reason_byte = parse_u8(s, pos);
    optional_properties_settle(remaining_length >= 2, s, rest, reason_byte->next);
}

/// What reading the body of a packet gave stays what it gives.
pub proof fn packet_settles(
    kind: PacketType,
    s: Seq<u8>,
    rest: Seq<u8>,
    pos: int,
    remaining_length: u32,
    first_byte: u8,
)
    ensures
        settles(
            parse_packet(kind, s, pos, remaining_length, first_byte),
            parse_packet(kind, s + rest, pos, remaining_length, first_byte),
        ),
{
    match kind {
        PacketType::Connect => connect_settles(s, rest, pos),
        PacketType::ConnectAck => connect_ack_settles(s, rest, pos),
        PacketType::Publish => publish_settles(s, rest, pos, first_byte, remaining_length),
        PacketType::PublishAck => publish_ack_settles(s, rest, pos, remaining_length),
        PacketType::PublishReceived => publish_received_settles(s, rest, pos, remaining_length),
        PacketType::PublishRelease => publish_release_settles(s, rest, pos, remaining_length),
        PacketType::PublishComplete => publish_complete_settles(s, rest, pos, remaining_length),
        PacketType::Subscribe => subscribe_settles(s, rest, pos, remaining_length),
        PacketType::SubscribeAck => subscribe_ack_settles(s, rest, pos, remaining_length),
        PacketType::Unsubscribe => unsubscribe_settles(s, rest, pos, remaining_length),
        PacketType::UnsubscribeAck => unsubscribe_ack_settles(s, rest, pos, remaining_length),
        PacketType::PingRequest => {},
        PacketType::PingResponse => {},
        PacketType::Disconnect => disconnect_settles(s, rest, pos, remaining_length),
        PacketType::Authenticate => authenticate_settles(s, rest, pos, remaining_length),
    }
}

/// A frame that was read, or was found to hold no packet, is read or found
/// the same whatever bytes follow: only an incomplete frame can change.
pub proof fn frame_settles(s: Seq<u8>, rest: Seq<u8>)
    ensures
        settles(parse_frame(s), parse_frame(s + rest)),
{
    if s.len() > 0 {
        assert((s + rest)[0] == s[0]);
        vbi_settles(s, rest, 1);
        if let Some(kind) = PacketType::from_code(s[0] / 16) {
            if let Parsed::Done { value, next } = parse_vbi(s, 1) {
                packet_settles(kind, s, rest, next, value, s[0]);
            }
        }
    }
}

} // verus!

//! The bytes that stand for each packet, and which packets have none.
//!
//! For every part of a packet there is a `_bytes` function, which gives its
//! wire form, and a `_fault` function, which says why it has none, if it has
//! none. Where a fault is `None`, the bytes read back as the part.

use crate::codes::{QoS, SubscribeAckReason, UnsubscribeAckReason};
use crate::error::EncodeError;
use crate::packet::{
    AuthenticateView, ConnectAckView, ConnectView, DisconnectView, FinalWillView, PacketView,
    PublishAckView, PublishCompleteView, PublishReceivedView, PublishReleaseView, PublishView,
    SubscribeAckView, SubscribeView, SubscriptionTopicView, UnsubscribeAckView, UnsubscribeView,
};
use crate::properties::PropertiesView;
use crate::wire::primitive::{
    binary_bytes, binary_fault, first_of, string_bytes, string_fault, u16_bytes, vbi_bytes, VBI_MAX,
};
use crate::wire::property::{properties_bytes, properties_fault};
use vstd::prelude::*;

verus! {

/// `weight` if the flag is set, else nothing.
pub open spec fn flag_bits(flag: bool, weight: int) -> int {
    if flag {
        weight
    } else {
        0
    }
}

/// The bytes of a string that may not be there.
pub open spec fn optional_string_bytes(text: Option<Seq<char>>) -> Seq<u8> {
    match text {
        Some(text) => string_bytes(text),
        None => Seq::empty(),
    }
}

/// Why a string that may not be there cannot be written, if it cannot.
pub open spec fn optional_string_fault(text: Option<Seq<char>>) -> Option<EncodeError> {
    match text {
        Some(text) => string_fault(text),
        None => None,
    }
}

/// The properties of a packet that carries a reason string and user
/// properties and no other.
pub open spec fn reason_properties(
    reason_string: Option<Seq<char>>,
    user_properties: Seq<(Seq<char>, Seq<char>)>,
) -> PropertiesView {
    PropertiesView { reason_string, user_properties, ..PropertiesView::empty() }
}

/// The properties of a Connect packet.
pub open spec fn connect_properties(packet: ConnectView) -> PropertiesView {
    PropertiesView {
        session_expiry_interval: packet.session_expiry_interval,
        receive_maximum: packet.receive_maximum,
        maximum_packet_size: packet.maximum_packet_size,
        topic_alias_maximum: packet.topic_alias_maximum,
        request_response_information: packet.request_response_information,
        request_problem_information: packet.request_problem_information,
        user_properties: packet.user_properties,
        authentication_method: packet.authentication_method,
        authentication_data: packet.authentication_data,
        ..PropertiesView::empty()
    }
}

/// The properties of a will.
pub open spec fn will_properties(packet: FinalWillView) -> PropertiesView {
    PropertiesView {
        will_delay_interval: packet.will_delay_interval,
        payload_format_indicator: packet.payload_format_indicator,
        message_expiry_interval: packet.message_expiry_interval,
        content_type: packet.content_type,
        response_topic: packet.response_topic,
        correlation_data: packet.correlation_data,
        user_properties: packet.user_properties,
        ..PropertiesView::empty()
    }
}

/// The properties of a ConnectAck packet.
pub open spec fn connect_ack_properties(packet: ConnectAckView) -> PropertiesView {
    PropertiesView {
        session_expiry_interval: packet.session_expiry_interval,
        receive_maximum: packet.receive_maximum,
        maximum_qos: packet.maximum_qos,
        retain_available: packet.retain_available,
        maximum_packet_size: packet.maximum_packet_size,
        assigned_client_identifier: packet.assigned_client_identifier,
        topic_alias_maximum: packet.topic_alias_maximum,
        reason_string: packet.reason_string,
        user_properties: packet.user_properties,
        wildcard_subscription_available: packet.wildcard_subscription_available,
        subscription_identifier_available: packet.subscription_identifiers_available,
        shared_subscription_available: packet.shared_subscription_available,
        server_keep_alive: packet.server_keep_alive,
        response_information: packet.response_information,
        server_reference: packet.server_reference,
        authentication_method: packet.authentication_method,
        authentication_data: packet.authentication_data,
        ..PropertiesView::empty()
    }
}

/// The properties of a Publish packet.
pub open spec fn publish_properties(packet: PublishView) -> PropertiesView {
    PropertiesView {
        payload_format_indicator: packet.payload_format_indicator,
        message_expiry_interval: packet.message_expiry_interval,
        topic_alias: packet.topic_alias,
        response_topic: packet.response_topic,
        correlation_data: packet.correlation_data,
        user_properties: packet.user_properties,
        subscription_identifier: packet.subscription_identifier,
        content_type: packet.content_type,
        ..PropertiesView::empty()
    }
}

/// The properties of a Subscribe packet.
pub open spec fn subscribe_properties(packet: SubscribeView) -> PropertiesView {
    PropertiesView {
        subscription_identifier: packet.subscription_identifier,
        user_properties: packet.user_properties,
        ..PropertiesView::empty()
    }
}

/// The properties of an Unsubscribe packet.
pub open spec fn unsubscribe_properties(packet: UnsubscribeView) -> PropertiesView {
    PropertiesView {
        user_properties: packet.user_properties,
        ..PropertiesView::empty()
    }
}

/// The properties of a Disconnect packet.
pub open spec fn disconnect_properties(packet: DisconnectView) -> PropertiesView {
    PropertiesView {
        session_expiry_interval: packet.session_expiry_interval,
        reason_string: packet.reason_string,
        user_properties: packet.user_properties,
        server_reference: packet.server_reference,
        ..PropertiesView::empty()
    }
}

/// The properties of an Authenticate packet.
pub open spec fn authenticate_properties(packet: AuthenticateView) -> PropertiesView {
    PropertiesView {
        authentication_method: packet.authentication_method,
        authentication_data: packet.authentication_data,
        reason_string: packet.reason_string,
        user_properties: packet.user_properties,
        ..PropertiesView::empty()
    }
}

/// The bytes of a will: properties, topic and payload.
pub open spec fn will_bytes(will: FinalWillView) -> Seq<u8> {
    properties_bytes(will_properties(will)) + string_bytes(will.topic) + binary_bytes(will.payload)
}

/// Why a will cannot be written, if it cannot.
pub open spec fn will_fault(will: FinalWillView) -> Option<EncodeError> {
    first_of(
        properties_fault(will_properties(will)),
        first_of(string_fault(will.topic), binary_fault(will.payload)),
    )
}

/// The connect flags of a Connect packet: bit 1 clean start, bit 2 a will,
/// bits 3 and 4 its quality of service, bit 5 its retain flag, bit 6 a
/// password, bit 7 a user name.
#[verifier::opaque]
pub open spec fn connect_flags(packet: ConnectView) -> u8 {
    (flag_bits(packet.clean_start, 2) + (match packet.will {
        Some(will) => 4 + will.qos.code() * 8 + flag_bits(will.should_retain, 32),
        None => 0,
    }) + flag_bits(packet.password is Some, 64) + flag_bits(packet.user_name is Some, 128)) as u8
}

/// The payload of a Connect packet: client identifier, will, user name and
/// password, as far as they are there.
pub open spec fn connect_payload_bytes(packet: ConnectView) -> Seq<u8> {
    string_bytes(packet.client_id) + (match packet.will {
        Some(will) => will_bytes(will),
        None => Seq::empty(),
    }) + optional_string_bytes(packet.user_name) + optional_string_bytes(packet.password)
}

/// All that follows the fixed header of a Connect packet: the variable
/// header, then the payload.
pub open spec fn connect_bytes(packet: ConnectView) -> Seq<u8> {
    string_bytes(packet.protocol_name) + seq![packet.protocol_level, connect_flags(packet)]
        + u16_bytes(packet.keep_alive) + properties_bytes(connect_properties(packet))
        + connect_payload_bytes(packet)
}

/// Why a Connect packet cannot be written, if it cannot: the fault of the
/// first part, in wire order, that has one.
pub open spec fn connect_fault(packet: ConnectView) -> Option<EncodeError> {
    first_of(
        string_fault(packet.protocol_name),
        first_of(properties_fault(connect_properties(packet)), connect_payload_fault(packet)),
    )
}

/// Why the payload of a Connect packet cannot be written, if it cannot.
pub open spec fn connect_payload_fault(packet: ConnectView) -> Option<EncodeError> {
    first_of(
        string_fault(packet.client_id),
        first_of(
            match packet.will {
                Some(will) => will_fault(will),
                None => None,
            },
            first_of(
                optional_string_fault(packet.user_name),
                optional_string_fault(packet.password),
            ),
        ),
    )
}

/// All that follows the fixed header of a ConnectAck packet.
pub open spec fn connect_ack_bytes(packet: ConnectAckView) -> Seq<u8> {
    seq![flag_bits(packet.session_present, 1) as u8, packet.reason_code.code()] + properties_bytes(
        connect_ack_properties(packet),
    )
}

/// Why a ConnectAck packet cannot be written, if it cannot.
pub open spec fn connect_ack_fault(packet: ConnectAckView) -> Option<EncodeError> {
    properties_fault(connect_ack_properties(packet))
}

/// The flags of a Publish packet: bit 3 duplicate, bits 1 and 2 quality of
/// service, bit 0 retain.
pub open spec fn publish_flags(packet: PublishView) -> u8 {
    (flag_bits(packet.is_duplicate, 8) + packet.qos.code() * 2 + flag_bits(packet.retain, 1)) as u8
}

/// A Publish packet has a packet identifier exactly where its quality of
/// service is not `AtMostOnce`.
pub open spec fn packet_id_fits(packet: PublishView) -> bool {
    packet.packet_id is Some <==> packet.qos != QoS::AtMostOnce
}

/// All that follows the fixed header of a Publish packet.
pub open spec fn publish_bytes(packet: PublishView) -> Seq<u8> {
    string_bytes(packet.topic_name) + (match packet.packet_id {
        Some(packet_id) => u16_bytes(packet_id),
        None => Seq::empty(),
    }) + properties_bytes(publish_properties(packet)) + packet.payload
}

/// Why a Publish packet cannot be written, if it cannot.
pub open spec fn publish_fault(packet: PublishView) -> Option<EncodeError> {
    first_of(
        string_fault(packet.topic_name),
        first_of(
            if packet_id_fits(packet) {
                None
            } else {
                Some(EncodeError::InvalidPacketId)
            },
            properties_fault(publish_properties(packet)),
        ),
    )
}

/// All that follows the fixed header of a PublishAck packet. Reason code and
/// properties are always written.
pub open spec fn publish_ack_bytes(packet: PublishAckView) -> Seq<u8> {
    u16_bytes(packet.packet_id) + seq![packet.reason_code.code()] + properties_bytes(
        reason_properties(packet.reason_string, packet.user_properties),
    )
}

/// Why a PublishAck packet cannot be written, if it cannot.
pub open spec fn publish_ack_fault(packet: PublishAckView) -> Option<EncodeError> {
    properties_fault(reason_properties(packet.reason_string, packet.user_properties))
}

/// All that follows the fixed header of a PublishReceived packet. Reason code and
/// properties are always written.
pub open spec fn publish_received_bytes(packet: PublishReceivedView) -> Seq<u8> {
    u16_bytes(packet.packet_id) + seq![packet.reason_code.code()] + properties_bytes(
        reason_properties(packet.reason_string, packet.user_properties),
    )
}

/// Why a PublishReceived packet cannot be written, if it cannot.
pub open spec fn publish_received_fault(packet: PublishReceivedView) -> Option<EncodeError> {
    properties_fault(reason_properties(packet.reason_string, packet.user_properties))
}

/// All that follows the fixed header of a PublishRelease packet. Reason code and
/// properties are always written.
pub open spec fn publish_release_bytes(packet: PublishReleaseView) -> Seq<u8> {
    u16_bytes(packet.packet_id) + seq![packet.reason_code.code()] + properties_bytes(
        reason_properties(packet.reason_string, packet.user_properties),
    )
}

/// Why a PublishRelease packet cannot be written, if it cannot.
pub open spec fn publish_release_fault(packet: PublishReleaseView) -> Option<EncodeError> {
    properties_fault(reason_properties(packet.reason_string, packet.user_properties))
}

/// All that follows the fixed header of a PublishComplete packet. Reason code and
/// properties are always written.
pub open spec fn publish_complete_bytes(packet: PublishCompleteView) -> Seq<u8> {
    u16_bytes(packet.packet_id) + seq![packet.reason_code.code()] + properties_bytes(
        reason_properties(packet.reason_string, packet.user_properties),
    )
}

/// Why a PublishComplete packet cannot be written, if it cannot.
pub open spec fn publish_complete_fault(packet: PublishCompleteView) -> Option<EncodeError> {
    properties_fault(reason_properties(packet.reason_string, packet.user_properties))
}

/// The options byte of an entry of a Subscribe packet.
pub open spec fn subscription_options(entry: SubscriptionTopicView) -> u8 {
    (entry.maximum_qos.code() + flag_bits(entry.no_local, 4) + flag_bits(
        entry.retain_as_published,
        8,
    ) + entry.retain_handling.code() * 16) as u8
}

/// The bytes of one entry of a Subscribe packet.
pub open spec fn subscription_bytes(entry: SubscriptionTopicView) -> Seq<u8> {
    string_bytes(entry.topic) + seq![subscription_options(entry)]
}

/// The bytes of the entries of a Subscribe packet.
pub open spec fn subscriptions_bytes(entries: Seq<SubscriptionTopicView>) -> Seq<u8>
    decreases entries.len(),
{
    if entries.len() == 0 {
        Seq::empty()
    } else {
        subscription_bytes(entries[0]) + subscriptions_bytes(entries.skip(1))
    }
}

/// The fault of the first entry that cannot be written, if there is one.
pub open spec fn subscriptions_fault(entries: Seq<SubscriptionTopicView>) -> Option<EncodeError>
    decreases entries.len(),
{
    if entries.len() == 0 {
        None
    } else {
        first_of(string_fault(entries[0].topic), subscriptions_fault(entries.skip(1)))
    }
}

/// The bytes of topic filters, one after the other.
pub open spec fn topics_bytes(topics: Seq<Seq<char>>) -> Seq<u8>
    decreases topics.len(),
{
    if topics.len() == 0 {
        Seq::empty()
    } else {
        string_bytes(topics[0]) + topics_bytes(topics.skip(1))
    }
}

/// The fault of the first topic filter that cannot be written, if there is one.
pub open spec fn topics_fault(topics: Seq<Seq<char>>) -> Option<EncodeError>
    decreases topics.len(),
{
    if topics.len() == 0 {
        None
    } else {
        first_of(string_fault(topics[0]), topics_fault(topics.skip(1)))
    }
}

/// All that follows the fixed header of a Subscribe packet.
pub open spec fn subscribe_bytes(packet: SubscribeView) -> Seq<u8> {
    u16_bytes(packet.packet_id) + properties_bytes(subscribe_properties(packet))
        + subscriptions_bytes(packet.subscription_topics)
}

/// Why a Subscribe packet cannot be written, if it cannot.
pub open spec fn subscribe_fault(packet: SubscribeView) -> Option<EncodeError> {
    first_of(
        properties_fault(subscribe_properties(packet)),
        subscriptions_fault(packet.subscription_topics),
    )
}

/// All that follows the fixed header of a SubscribeAck packet.
pub open spec fn subscribe_ack_bytes(packet: SubscribeAckView) -> Seq<u8> {
    u16_bytes(packet.packet_id) + properties_bytes(
        reason_properties(packet.reason_string, packet.user_properties),
    ) + packet.reason_codes.map_values(|reason: SubscribeAckReason| reason.code())
}

/// Why a SubscribeAck packet cannot be written, if it cannot.
pub open spec fn subscribe_ack_fault(packet: SubscribeAckView) -> Option<EncodeError> {
    properties_fault(reason_properties(packet.reason_string, packet.user_properties))
}

/// All that follows the fixed header of an Unsubscribe packet.
pub open spec fn unsubscribe_bytes(packet: UnsubscribeView) -> Seq<u8> {
    u16_bytes(packet.packet_id) + properties_bytes(unsubscribe_properties(packet)) + topics_bytes(
        packet.topics,
    )
}

/// Why an Unsubscribe packet cannot be written, if it cannot.
pub open spec fn unsubscribe_fault(packet: UnsubscribeView) -> Option<EncodeError> {
    first_of(properties_fault(unsubscribe_properties(packet)), topics_fault(packet.topics))
}

/// All that follows the fixed header of an UnsubscribeAck packet.
pub open spec fn unsubscribe_ack_bytes(packet: UnsubscribeAckView) -> Seq<u8> {
    u16_bytes(packet.packet_id) + properties_bytes(
        reason_properties(packet.reason_string, packet.user_properties),
    ) + packet.reason_codes.map_values(|reason: UnsubscribeAckReason| reason.code())
}

/// Why an UnsubscribeAck packet cannot be written, if it cannot.
pub open spec fn unsubscribe_ack_fault(packet: UnsubscribeAckView) -> Option<EncodeError> {
    properties_fault(reason_properties(packet.reason_string, packet.user_properties))
}

/// All that follows the fixed header of a Disconnect packet. Reason code and
/// properties are always written.
pub open spec fn disconnect_bytes(packet: DisconnectView) -> Seq<u8> {
    seq![packet.reason_code.code()] + properties_bytes(disconnect_properties(packet))
}

/// Why a Disconnect packet cannot be written, if it cannot.
pub open spec fn disconnect_fault(packet: DisconnectView) -> Option<EncodeError> {
    properties_fault(disconnect_properties(packet))
}

/// All that follows the fixed header of an Authenticate packet. Reason code
/// and properties are always written.
pub open spec fn authenticate_bytes(packet: AuthenticateView) -> Seq<u8> {
    seq![packet.reason_code.code()] + properties_bytes(authenticate_properties(packet))
}

/// Why an Authenticate packet cannot be written, if it cannot.
pub open spec fn authenticate_fault(packet: AuthenticateView) -> Option<EncodeError> {
    properties_fault(authenticate_properties(packet))
}

/// The low nibble of the first byte: the flags of a Publish packet, 2 for
/// PublishRelease, Subscribe and Unsubscribe, 0 for every other kind.
pub open spec fn header_flags(packet: PacketView) -> u8 {
    match packet {
        PacketView::Publish(publish) => publish_flags(publish),
        PacketView::PublishRelease(_) => 2,
        PacketView::Subscribe(_) => 2,
        PacketView::Unsubscribe(_) => 2,
        _ => 0,
    }
}

/// The first byte of a frame: the packet kind in the upper nibble, the flags
/// in the lower.
pub open spec fn first_byte(packet: PacketView) -> u8 {
    (packet.kind().code() * 16 + header_flags(packet)) as u8
}

/// All that follows the fixed header of a packet.
pub open spec fn body_bytes(packet: PacketView) -> Seq<u8> {
    match packet {
        PacketView::Connect(packet) => connect_bytes(packet),
        PacketView::ConnectAck(packet) => connect_ack_bytes(packet),
        PacketView::Publish(packet) => publish_bytes(packet),
        PacketView::PublishAck(packet) => publish_ack_bytes(packet),
        PacketView::PublishReceived(packet) => publish_received_bytes(packet),
        PacketView::PublishRelease(packet) => publish_release_bytes(packet),
        PacketView::PublishComplete(packet) => publish_complete_bytes(packet),
        PacketView::Subscribe(packet) => subscribe_bytes(packet),
        PacketView::SubscribeAck(packet) => subscribe_ack_bytes(packet),
        PacketView::Unsubscribe(packet) => unsubscribe_bytes(packet),
        PacketView::UnsubscribeAck(packet) => unsubscribe_ack_bytes(packet),
        PacketView::PingRequest => Seq::empty(),
        PacketView::PingResponse => Seq::empty(),
        PacketView::Disconnect(packet) => disconnect_bytes(packet),
        PacketView::Authenticate(packet) => authenticate_bytes(packet),
    }
}

/// Why the body of a packet cannot be written, if it cannot.
pub open spec fn body_fault(packet: PacketView) -> Option<EncodeError> {
    match packet {
        PacketView::Connect(packet) => connect_fault(packet),
        PacketView::ConnectAck(packet) => connect_ack_fault(packet),
        PacketView::Publish(packet) => publish_fault(packet),
        PacketView::PublishAck(packet) => publish_ack_fault(packet),
        PacketView::PublishReceived(packet) => publish_received_fault(packet),
        PacketView::PublishRelease(packet) => publish_release_fault(packet),
        PacketView::PublishComplete(packet) => publish_complete_fault(packet),
        PacketView::Subscribe(packet) => subscribe_fault(packet),
        PacketView::SubscribeAck(packet) => subscribe_ack_fault(packet),
        PacketView::Unsubscribe(packet) => unsubscribe_fault(packet),
        PacketView::UnsubscribeAck(packet) => unsubscribe_ack_fault(packet),
        PacketView::PingRequest => None,
        PacketView::PingResponse => None,
        PacketView::Disconnect(packet) => disconnect_fault(packet),
        PacketView::Authenticate(packet) => authenticate_fault(packet),
    }
}

/// The frame of a packet: first byte, the length of the body as a
/// variable-byte integer, and the body.
pub open spec fn frame_bytes(packet: PacketView) -> Seq<u8> {
    seq![first_byte(packet)] + vbi_bytes(body_bytes(packet).len() as u32) + body_bytes(packet)
}

/// Why a packet has no frame, if it has none: for a part of its body, or for
/// the length of the body.
pub open spec fn frame_fault(packet: PacketView) -> Option<EncodeError> {
    first_of(
        body_fault(packet),
        if body_bytes(packet).len() > VBI_MAX {
            Some(EncodeError::PacketTooLarge)
        } else {
            None
        },
    )
}

/// A packet that has a frame.
pub open spec fn valid_packet(packet: PacketView) -> bool {
    frame_fault(packet) is None
}

} // verus!

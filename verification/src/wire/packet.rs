//! The grammar of the fifteen packet kinds and of the frame around them.
//!
//! A packet's fields are read one after the other; the first that is not
//! all there, or is malformed, decides the outcome. Each `parse_` function
//! therefore names the field readings in wire order and then asks each in
//! turn whether it is `Done`.

use crate::codes::{
    AuthenticateReason, ConnectReason, DisconnectReason, PacketType, PublishAckReason,
    PublishCompleteReason, PublishReceivedReason, PublishReleaseReason, QoS, RetainHandling,
    SubscribeAckReason, UnsubscribeAckReason,
};
use crate::error::DecodeError;
use crate::packet::{
    AuthenticateView, ConnectAckView, ConnectView, DisconnectView, FinalWillView, PacketView,
    PublishAckView, PublishCompleteView, PublishReceivedView, PublishReleaseView, PublishView,
    SubscribeAckView, SubscribeView, SubscriptionTopicView, UnsubscribeAckView, UnsubscribeView,
};
use crate::properties::PropertiesView;
use crate::wire::primitive::{
    parse_binary, parse_bytes, parse_string, parse_u16, parse_u8, parse_vbi, Parsed,
};
use crate::wire::property::parse_properties;
use vstd::prelude::*;

verus! {

/// A string that is there only if `present`.
pub open spec fn parse_optional_string(present: bool, s: Seq<u8>, pos: int) -> Parsed<
    Option<Seq<char>>,
> {
    if present {
        match parse_string(s, pos) {
            Parsed::Done { value, next } => Parsed::Done { value: Some(value), next },
            other => other.carry(),
        }
    } else {
        Parsed::Done { value: None, next: pos }
    }
}

/// A run of properties that is there only if `present`; if not, no property.
pub open spec fn parse_optional_properties(present: bool, s: Seq<u8>, pos: int) -> Parsed<
    PropertiesView,
> {
    if present {
        parse_properties(s, pos)
    } else {
        Parsed::Done { value: PropertiesView::empty(), next: pos }
    }
}

/// The will of a Connect packet: properties, topic and payload. Quality of
/// service and the retain flag come from the connect flags.
#[verifier::opaque]
pub open spec fn parse_will(s: Seq<u8>, pos: int, qos: QoS, should_retain: bool) -> Parsed<
    FinalWillView,
> {
    let properties = parse_properties(s, pos);
    let topic = parse_string(s, properties->next);
    let payload = parse_binary(s, topic->next);
    if properties !is Done {
        properties.carry()
    } else if topic !is Done {
        topic.carry()
    } else if payload !is Done {
        payload.carry()
    } else {
        Parsed::Done {
            value: FinalWillView {
                topic: topic->value,
                payload: payload->value,
                qos,
                should_retain,
                will_delay_interval: properties->value.will_delay_interval,
                payload_format_indicator: properties->value.payload_format_indicator,
                message_expiry_interval: properties->value.message_expiry_interval,
                content_type: properties->value.content_type,
                response_topic: properties->value.response_topic,
                correlation_data: properties->value.correlation_data,
                user_properties: properties->value.user_properties,
            },
            next: payload->next,
        }
    }
}

/// A will that is there only if `present`.
pub open spec fn parse_optional_will(
    present: bool,
    s: Seq<u8>,
    pos: int,
    qos: QoS,
    should_retain: bool,
) -> Parsed<Option<FinalWillView>> {
    if present {
        match parse_will(s, pos, qos, should_retain) {
            Parsed::Done { value, next } => Parsed::Done { value: Some(value), next },
            other => other.carry(),
        }
    } else {
        Parsed::Done { value: None, next: pos }
    }
}

/// Bit 1 of the connect flags: clean start.
pub open spec fn flag_clean_start(flags: u8) -> bool {
    flags / 2 % 2 == 1
}

/// Bit 2 of the connect flags: a will follows the client identifier.
pub open spec fn flag_will(flags: u8) -> bool {
    flags / 4 % 2 == 1
}

/// Bits 3 and 4 of the connect flags: the will's quality of service.
pub open spec fn flag_will_qos(flags: u8) -> u8 {
    (flags / 8 % 4) as u8
}

/// Bit 5 of the connect flags: the will is retained.
pub open spec fn flag_will_retain(flags: u8) -> bool {
    flags / 32 % 2 == 1
}

/// Bit 6 of the connect flags: a password ends the packet.
pub open spec fn flag_password(flags: u8) -> bool {
    flags / 64 % 2 == 1
}

/// Bit 7 of the connect flags: a user name follows the will.
pub open spec fn flag_user_name(flags: u8) -> bool {
    flags / 128 == 1
}

/// The payload of a Connect packet.
pub struct ConnectPayloadView {
    pub client_id: Seq<char>,
    pub will: Option<FinalWillView>,
    pub user_name: Option<Seq<char>>,
    pub password: Option<Seq<char>>,
}

/// The payload of a Connect packet: the client identifier and, as the
/// connect flags say, a will, a user name and a password.
#[verifier::opaque]
pub open spec fn parse_connect_payload(s: Seq<u8>, pos: int, flags: u8, will_qos: QoS) -> Parsed<
    ConnectPayloadView,
> {
    let client_id = parse_string(s, pos);
    let will = parse_optional_will(
        flag_will(flags),
        s,
        client_id->next,
        will_qos,
        flag_will_retain(flags),
    );
    let user_name = parse_optional_string(flag_user_name(flags), s, will->next);
    let password = parse_optional_string(flag_password(flags), s, user_name->next);
    if client_id !is Done {
        client_id.carry()
    } else if will !is Done {
        will.carry()
    } else if user_name !is Done {
        user_name.carry()
    } else if password !is Done {
        password.carry()
    } else {
        Parsed::Done {
            value: ConnectPayloadView {
                client_id: client_id->value,
                will: will->value,
                user_name: user_name->value,
                password: password->value,
            },
            next: password->next,
        }
    }
}

/// The body of a Connect packet: the variable header, in which protocol name
/// and level are read, not judged, and bit 0 of the flags is not looked at;
/// then the payload. The will's quality of service is judged between the two.
#[verifier::opaque]
pub open spec fn parse_connect(s: Seq<u8>, pos: int) -> Parsed<ConnectView> {
    let protocol_name = parse_string(s, pos);
    let protocol_level = parse_u8(s, protocol_name->next);
    let flags = parse_u8(s, protocol_level->next);
    let keep_alive = parse_u16(s, flags->next);
    let properties = parse_properties(s, keep_alive->next);
    let will_qos = QoS::from_code(flag_will_qos(flags->value));
    let payload = parse_connect_payload(s, properties->next, flags->value, will_qos->0);
    if protocol_name !is Done {
        protocol_name.carry()
    } else if protocol_level !is Done {
        protocol_level.carry()
    } else if flags !is Done {
        flags.carry()
    } else if keep_alive !is Done {
        keep_alive.carry()
    } else if properties !is Done {
        properties.carry()
    } else if will_qos is None {
        Parsed::Failed { error: DecodeError::InvalidQoS }
    } else if payload !is Done {
        payload.carry()
    } else {
        Parsed::Done {
            value: ConnectView {
                protocol_name: protocol_name->value,
                protocol_level: protocol_level->value,
                clean_start: flag_clean_start(flags->value),
                keep_alive: keep_alive->value,
                session_expiry_interval: properties->value.session_expiry_interval,
                receive_maximum: properties->value.receive_maximum,
                maximum_packet_size: properties->value.maximum_packet_size,
                topic_alias_maximum: properties->value.topic_alias_maximum,
                request_response_information: properties->value.request_response_information,
                request_problem_information: properties->value.request_problem_information,
                user_properties: properties->value.user_properties,
                authentication_method: properties->value.authentication_method,
                authentication_data: properties->value.authentication_data,
                client_id: payload->value.client_id,
                will: payload->value.will,
                user_name: payload->value.user_name,
                password: payload->value.password,
            },
            next: payload->next,
        }
    }
}

/// The body of a ConnectAck packet. Only bit 0 of the first byte is looked at.
#[verifier::opaque]
pub open spec fn parse_connect_ack(s: Seq<u8>, pos: int) -> Parsed<ConnectAckView> {
    let flags = parse_u8(s, pos);
    let reason_byte = parse_u8(s, flags->next);
    let reason_code = ConnectReason::from_code(reason_byte->value);
    let properties = parse_properties(s, reason_byte->next);
    if flags !is Done {
        flags.carry()
    } else if reason_byte !is Done {
        reason_byte.carry()
    } else if reason_code is None {
        Parsed::Failed { error: DecodeError::InvalidConnectReason }
    } else if properties !is Done {
        properties.carry()
    } else {
        Parsed::Done {
            value: ConnectAckView {
                session_present: flags->value % 2 == 1,
                reason_code: reason_code->0,
                session_expiry_interval: properties->value.session_expiry_interval,
                receive_maximum: properties->value.receive_maximum,
                maximum_qos: properties->value.maximum_qos,
                retain_available: properties->value.retain_available,
                maximum_packet_size: properties->value.maximum_packet_size,
                assigned_client_identifier: properties->value.assigned_client_identifier,
                topic_alias_maximum: properties->value.topic_alias_maximum,
                reason_string: properties->value.reason_string,
                user_properties: properties->value.user_properties,
                wildcard_subscription_available: properties->value.wildcard_subscription_available,
                subscription_identifiers_available:
                    properties->value.subscription_identifier_available,
                shared_subscription_available: properties->value.shared_subscription_available,
                server_keep_alive: properties->value.server_keep_alive,
                response_information: properties->value.response_information,
                server_reference: properties->value.server_reference,
                authentication_method: properties->value.authentication_method,
                authentication_data: properties->value.authentication_data,
            },
            next: properties->next,
        }
    }
}

/// A packet identifier that is there only if `present`.
pub open spec fn parse_optional_u16(present: bool, s: Seq<u8>, pos: int) -> Parsed<Option<u16>> {
    if present {
        match parse_u16(s, pos) {
            Parsed::Done { value, next } => Parsed::Done { value: Some(value), next },
            other => other.carry(),
        }
    } else {
        Parsed::Done { value: None, next: pos }
    }
}

/// How many of the `remaining_length` bytes from `start` on lie at or behind
/// `pos`: none where `pos` is already past them.
pub open spec fn rest_of_frame(start: int, remaining_length: u32, pos: int) -> int {
    if start + remaining_length >= pos {
        start + remaining_length - pos
    } else {
        0
    }
}

/// The body of a Publish packet. The low nibble of the first byte holds the
/// flags; the payload is what the remaining length leaves behind the
/// variable header.
#[verifier::opaque]
pub open spec fn parse_publish(
    s: Seq<u8>,
    pos: int,
    first_byte: u8,
    remaining_length: u32,
) -> Parsed<PublishView> {
    let qos = QoS::from_code((first_byte / 2 % 4) as u8);
    let topic_name = parse_string(s, pos);
    let packet_id = parse_optional_u16(qos != Some(QoS::AtMostOnce), s, topic_name->next);
    let properties = parse_properties(s, packet_id->next);
    let payload = parse_bytes(
        s,
        properties->next,
        rest_of_frame(pos, remaining_length, properties->next),
    );
    if qos is None {
        Parsed::Failed { error: DecodeError::InvalidQoS }
    } else if topic_name !is Done {
        topic_name.carry()
    } else if packet_id !is Done {
        packet_id.carry()
    } else if properties !is Done {
        properties.carry()
    } else if payload !is Done {
        payload.carry()
    } else {
        Parsed::Done {
            value: PublishView {
                is_duplicate: first_byte / 8 % 2 == 1,
                qos: qos->0,
                retain: first_byte % 2 == 1,
                topic_name: topic_name->value,
                packet_id: packet_id->value,
                payload_format_indicator: properties->value.payload_format_indicator,
                message_expiry_interval: properties->value.message_expiry_interval,
                topic_alias: properties->value.topic_alias,
                response_topic: properties->value.response_topic,
                correlation_data: properties->value.correlation_data,
                user_properties: properties->value.user_properties,
                subscription_identifier: properties->value.subscription_identifier,
                content_type: properties->value.content_type,
                payload: payload->value,
            },
            next: payload->next,
        }
    }
}

/// The body of a PublishAck packet: a packet identifier; unless the remaining
/// length is 2, a reason code; and from a remaining length of 4 on,
/// properties.
#[verifier::opaque]
pub open spec fn parse_publish_ack(s: Seq<u8>, pos: int, remaining_length: u32) -> Parsed<
    PublishAckView,
> {
    let packet_id = parse_u16(s, pos);
    let reason_byte = parse_u8(s, packet_id->next);
    let reason_code = PublishAckReason::from_code(reason_byte->value);
    let properties = parse_optional_properties(remaining_length >= 4, s, reason_byte->next);
    if packet_id !is Done {
        packet_id.carry()
    } else if remaining_length == 2 {
        Parsed::Done {
            value: PublishAckView {
                packet_id: packet_id->value,
                reason_code: PublishAckReason::Success,
                reason_string: None,
                user_properties: Seq::empty(),
            },
            next: packet_id->next,
        }
    } else if reason_byte !is Done {
        reason_byte.carry()
    } else if reason_code is None {
        Parsed::Failed { error: DecodeError::InvalidPublishAckReason }
    } else if properties !is Done {
        properties.carry()
    } else {
        Parsed::Done {
            value: PublishAckView {
                packet_id: packet_id->value,
                reason_code: reason_code->0,
                reason_string: properties->value.reason_string,
                user_properties: properties->value.user_properties,
            },
            next: properties->next,
        }
    }
}

/// The body of a PublishReceived packet: a packet identifier; unless the remaining
/// length is 2, a reason code; and from a remaining length of 4 on,
/// properties.
#[verifier::opaque]
pub open spec fn parse_publish_received(s: Seq<u8>, pos: int, remaining_length: u32) -> Parsed<
    PublishReceivedView,
> {
    let packet_id = parse_u16(s, pos);
    let reason_byte = parse_u8(s, packet_id->next);
    let reason_code = PublishReceivedReason::from_code(reason_byte->value);
    let properties = parse_optional_properties(remaining_length >= 4, s, reason_byte->next);
    if packet_id !is Done {
        packet_id.carry()
    } else if remaining_length == 2 {
        Parsed::Done {
            value: PublishReceivedView {
                packet_id: packet_id->value,
                reason_code: PublishReceivedReason::Success,
                reason_string: None,
                user_properties: Seq::empty(),
            },
            next: packet_id->next,
        }
    } else if reason_byte !is Done {
        reason_byte.carry()
    } else if reason_code is None {
        Parsed::Failed { error: DecodeError::InvalidPublishReceivedReason }
    } else if properties !is Done {
        properties.carry()
    } else {
        Parsed::Done {
            value: PublishReceivedView {
                packet_id: packet_id->value,
                reason_code: reason_code->0,
                reason_string: properties->value.reason_string,
                user_properties: properties->value.user_properties,
            },
            next: properties->next,
        }
    }
}

/// The body of a PublishRelease packet: a packet identifier; unless the remaining
/// length is 2, a reason code; and from a remaining length of 4 on,
/// properties.
#[verifier::opaque]
pub open spec fn parse_publish_release(s: Seq<u8>, pos: int, remaining_length: u32) -> Parsed<
    PublishReleaseView,
> {
    let packet_id = parse_u16(s, pos);
    let reason_byte = parse_u8(s, packet_id->next);
    let reason_code = PublishReleaseReason::from_code(reason_byte->value);
    let properties = parse_optional_properties(remaining_length >= 4, s, reason_byte->next);
    if packet_id !is Done {
        packet_id.carry()
    } else if remaining_length == 2 {
        Parsed::Done {
            value: PublishReleaseView {
                packet_id: packet_id->value,
                reason_code: PublishReleaseReason::Success,
                reason_string: None,
                user_properties: Seq::empty(),
            },
            next: packet_id->next,
        }
    } else if reason_byte !is Done {
        reason_byte.carry()
    } else if reason_code is None {
        Parsed::Failed { error: DecodeError::InvalidPublishReleaseReason }
    } else if properties !is Done {
        properties.carry()
    } else {
        Parsed::Done {
            value: PublishReleaseView {
                packet_id: packet_id->value,
                reason_code: reason_code->0,
                reason_string: properties->value.reason_string,
                user_properties: properties->value.user_properties,
            },
            next: properties->next,
        }
    }
}

/// The body of a PublishComplete packet: a packet identifier; unless the remaining
/// length is 2, a reason code; and from a remaining length of 4 on,
/// properties.
#[verifier::opaque]
pub open spec fn parse_publish_complete(s: Seq<u8>, pos: int, remaining_length: u32) -> Parsed<
    PublishCompleteView,
> {
    let packet_id = parse_u16(s, pos);
    let reason_byte = parse_u8(s, packet_id->next);
    let reason_code = PublishCompleteReason::from_code(reason_byte->value);
    let properties = parse_optional_properties(remaining_length >= 4, s, reason_byte->next);
    if packet_id !is Done {
        packet_id.carry()
    } else if remaining_length == 2 {
        Parsed::Done {
            value: PublishCompleteView {
                packet_id: packet_id->value,
                reason_code: PublishCompleteReason::Success,
                reason_string: None,
                user_properties: Seq::empty(),
            },
            next: packet_id->next,
        }
    } else if reason_byte !is Done {
        reason_byte.carry()
    } else if reason_code is None {
        Parsed::Failed { error: DecodeError::InvalidPublishCompleteReason }
    } else if properties !is Done {
        properties.carry()
    } else {
        Parsed::Done {
            value: PublishCompleteView {
                packet_id: packet_id->value,
                reason_code: reason_code->0,
                reason_string: properties->value.reason_string,
                user_properties: properties->value.user_properties,
            },
            next: properties->next,
        }
    }
}

/// One entry of a Subscribe packet: a topic filter and an options byte with
/// the greatest quality of service in bits 0 and 1, no-local in bit 2,
/// retain-as-published in bit 3 and the retain handling in bits 4 and 5.
pub open spec fn parse_subscription(s: Seq<u8>, pos: int) -> Parsed<SubscriptionTopicView> {
    let topic = parse_string(s, pos);
    let options = parse_u8(s, topic->next);
    let maximum_qos = QoS::from_code((options->value % 4) as u8);
    let retain_handling = RetainHandling::from_code((options->value / 16 % 4) as u8);
    if topic !is Done {
        topic.carry()
    } else if options !is Done {
        options.carry()
    } else if maximum_qos is None {
        Parsed::Failed { error: DecodeError::InvalidQoS }
    } else if retain_handling is None {
        Parsed::Failed { error: DecodeError::InvalidRetainHandling }
    } else {
        Parsed::Done {
            value: SubscriptionTopicView {
                topic: topic->value,
                maximum_qos: maximum_qos->0,
                no_local: options->value / 4 % 2 == 1,
                retain_as_published: options->value / 8 % 2 == 1,
                retain_handling: retain_handling->0,
            },
            next: options->next,
        }
    }
}

/// A string that was read ends at least two bytes behind where it starts.
pub proof fn parse_string_advances(s: Seq<u8>, pos: int)
    ensures
        parse_string(s, pos) matches Parsed::Done { next, .. } ==> pos + 2 <= next <= s.len(),
{
}

/// Entries from `pos` until `end` is reached or passed, behind `entries`.
pub open spec fn parse_subscription_run(
    s: Seq<u8>,
    pos: int,
    end: int,
    entries: Seq<SubscriptionTopicView>,
) -> Parsed<Seq<SubscriptionTopicView>>
    decreases s.len() - pos,
{
    if pos >= end {
        Parsed::Done { value: entries, next: pos }
    } else {
        match parse_subscription(s, pos) {
            Parsed::Done { value, next } => {
                proof {
                    parse_string_advances(s, pos);
                }
                parse_subscription_run(s, next, end, entries.push(value))
            },
            other => other.carry(),
        }
    }
}

/// Topic filters from `pos` until `end` is reached or passed, behind `topics`.
pub open spec fn parse_topic_run(s: Seq<u8>, pos: int, end: int, topics: Seq<Seq<char>>) -> Parsed<
    Seq<Seq<char>>,
>
    decreases s.len() - pos,
{
    if pos >= end {
        Parsed::Done { value: topics, next: pos }
    } else {
        match parse_string(s, pos) {
            Parsed::Done { value, next } => {
                proof {
                    parse_string_advances(s, pos);
                }
                parse_topic_run(s, next, end, topics.push(value))
            },
            other => other.carry(),
        }
    }
}

/// One reason code of a SubscribeAck packet.
pub open spec fn parse_subscribe_ack_reason(s: Seq<u8>, pos: int) -> Parsed<SubscribeAckReason> {
    match parse_u8(s, pos) {
        Parsed::Done { value, next } => match SubscribeAckReason::from_code(value) {
            Some(reason) => Parsed::Done { value: reason, next },
            None => Parsed::Failed { error: DecodeError::InvalidSubscribeAckReason },
        },
        other => other.carry(),
    }
}

/// One reason code of an UnsubscribeAck packet.
pub open spec fn parse_unsubscribe_ack_reason(s: Seq<u8>, pos: int) -> Parsed<
    UnsubscribeAckReason,
> {
    match parse_u8(s, pos) {
        Parsed::Done { value, next } => match UnsubscribeAckReason::from_code(value) {
            Some(reason) => Parsed::Done { value: reason, next },
            None => Parsed::Failed { error: DecodeError::InvalidUnsubscribeAckReason },
        },
        other => other.carry(),
    }
}

/// Reason codes from `pos` up to `end`, behind `reasons`.
pub open spec fn parse_subscribe_ack_run(
    s: Seq<u8>,
    pos: int,
    end: int,
    reasons: Seq<SubscribeAckReason>,
) -> Parsed<Seq<SubscribeAckReason>>
    decreases s.len() - pos,
{
    if pos >= end {
        Parsed::Done { value: reasons, next: pos }
    } else {
        match parse_subscribe_ack_reason(s, pos) {
            Parsed::Done { value, next } => parse_subscribe_ack_run(
                s,
                next,
                end,
                reasons.push(value),
            ),
            other => other.carry(),
        }
    }
}

/// Reason codes from `pos` up to `end`, behind `reasons`.
pub open spec fn parse_unsubscribe_ack_run(
    s: Seq<u8>,
    pos: int,
    end: int,
    reasons: Seq<UnsubscribeAckReason>,
) -> Parsed<Seq<UnsubscribeAckReason>>
    decreases s.len() - pos,
{
    if pos >= end {
        Parsed::Done { value: reasons, next: pos }
    } else {
        match parse_unsubscribe_ack_reason(s, pos) {
            Parsed::Done { value, next } => parse_unsubscribe_ack_run(
                s,
                next,
                end,
                reasons.push(value),
            ),
            other => other.carry(),
        }
    }
}

/// The body of a Subscribe packet: packet identifier, properties, and entries
/// over what the remaining length leaves.
#[verifier::opaque]
pub open spec fn parse_subscribe(s: Seq<u8>, pos: int, remaining_length: u32) -> Parsed<
    SubscribeView,
> {
    let packet_id = parse_u16(s, pos);
    let properties = parse_properties(s, packet_id->next);
    let entries = parse_subscription_run(
        s,
        properties->next,
        pos + remaining_length,
        Seq::empty(),
    );
    if packet_id !is Done {
        packet_id.carry()
    } else if properties !is Done {
        properties.carry()
    } else if entries !is Done {
        entries.carry()
    } else {
        Parsed::Done {
            value: SubscribeView {
                packet_id: packet_id->value,
                subscription_identifier: properties->value.subscription_identifier,
                user_properties: properties->value.user_properties,
                subscription_topics: entries->value,
            },
            next: entries->next,
        }
    }
}

/// The body of a SubscribeAck packet: packet identifier, properties, and one
/// reason code for each byte that the remaining length leaves.
#[verifier::opaque]
pub open spec fn parse_subscribe_ack(s: Seq<u8>, pos: int, remaining_length: u32) -> Parsed<
    SubscribeAckView,
> {
    let packet_id = parse_u16(s, pos);
    let properties = parse_properties(s, packet_id->next);
    let reasons = parse_subscribe_ack_run(
        s,
        properties->next,
        pos + remaining_length,
        Seq::empty(),
    );
    if packet_id !is Done {
        packet_id.carry()
    } else if properties !is Done {
        properties.carry()
    } else if reasons !is Done {
        reasons.carry()
    } else {
        Parsed::Done {
            value: SubscribeAckView {
                packet_id: packet_id->value,
                reason_string: properties->value.reason_string,
                user_properties: properties->value.user_properties,
                reason_codes: reasons->value,
            },
            next: reasons->next,
        }
    }
}

/// The body of an Unsubscribe packet: packet identifier, properties, and
/// topic filters over what the remaining length leaves.
#[verifier::opaque]
pub open spec fn parse_unsubscribe(s: Seq<u8>, pos: int, remaining_length: u32) -> Parsed<
    UnsubscribeView,
> {
    let packet_id = parse_u16(s, pos);
    let properties = parse_properties(s, packet_id->next);
    let topics = parse_topic_run(s, properties->next, pos + remaining_length, Seq::empty());
    if packet_id !is Done {
        packet_id.carry()
    } else if properties !is Done {
        properties.carry()
    } else if topics !is Done {
        topics.carry()
    } else {
        Parsed::Done {
            value: UnsubscribeView {
                packet_id: packet_id->value,
                user_properties: properties->value.user_properties,
                topics: topics->value,
            },
            next: topics->next,
        }
    }
}

/// The body of an UnsubscribeAck packet: packet identifier, properties, and
/// one reason code for each byte that the remaining length leaves.
#[verifier::opaque]
pub open spec fn parse_unsubscribe_ack(s: Seq<u8>, pos: int, remaining_length: u32) -> Parsed<
    UnsubscribeAckView,
> {
    let packet_id = parse_u16(s, pos);
    let properties = parse_properties(s, packet_id->next);
    let reasons = parse_unsubscribe_ack_run(
        s,
        properties->next,
        pos + remaining_length,
        Seq::empty(),
    );
    if packet_id !is Done {
        packet_id.carry()
    } else if properties !is Done {
        properties.carry()
    } else if reasons !is Done {
        reasons.carry()
    } else {
        Parsed::Done {
            value: UnsubscribeAckView {
                packet_id: packet_id->value,
                reason_string: properties->value.reason_string,
                user_properties: properties->value.user_properties,
                reason_codes: reasons->value,
            },
            next: reasons->next,
        }
    }
}

/// The body of a Disconnect packet: nothing, which stands for a normal
/// disconnection; or a reason code and, from a remaining length of 2 on,
/// properties.
#[verifier::opaque]
pub open spec fn parse_disconnect(s: Seq<u8>, pos: int, remaining_length: u32) -> Parsed<
    DisconnectView,
> {
    let reason_byte = parse_u8(s, pos);
    let reason_code = DisconnectReason::from_code(reason_byte->value);
    let properties = parse_optional_properties(remaining_length >= 2, s, reason_byte->next);
    if remaining_length == 0 {
        Parsed::Done {
            value: DisconnectView {
                reason_code: DisconnectReason::NormalDisconnection,
                session_expiry_interval: None,
                reason_string: None,
                user_properties: Seq::empty(),
                server_reference: None,
            },
            next: pos,
        }
    } else if reason_byte !is Done {
        reason_byte.carry()
    } else if reason_code is None {
        Parsed::Failed { error: DecodeError::InvalidDisconnectReason }
    } else if properties !is Done {
        properties.carry()
    } else {
        Parsed::Done {
            value: DisconnectView {
                reason_code: reason_code->0,
                session_expiry_interval: properties->value.session_expiry_interval,
                reason_string: properties->value.reason_string,
                user_properties: properties->value.user_properties,
                server_reference: properties->value.server_reference,
            },
            next: properties->next,
        }
    }
}

/// The body of an Authenticate packet: nothing, which stands for success; or
/// a reason code and, from a remaining length of 2 on, properties.
#[verifier::opaque]
pub open spec fn parse_authenticate(s: Seq<u8>, pos: int, remaining_length: u32) -> Parsed<
    AuthenticateView,
> {
    let reason_byte = parse_u8(s, pos);
    let reason_code = AuthenticateReason::from_code(reason_byte->value);
    let properties = parse_optional_properties(remaining_length >= 2, s, reason_byte->next);
    if remaining_length == 0 {
        Parsed::Done {
            value: AuthenticateView {
                reason_code: AuthenticateReason::Success,
                authentication_method: None,
                authentication_data: None,
                reason_string: None,
                user_properties: Seq::empty(),
            },
            next: pos,
        }
    } else if reason_byte !is Done {
        reason_byte.carry()
    } else if reason_code is None {
        Parsed::Failed { error: DecodeError::InvalidAuthenticateReason }
    } else if properties !is Done {
        properties.carry()
    } else {
        Parsed::Done {
            value: AuthenticateView {
                reason_code: reason_code->0,
                authentication_method: properties->value.authentication_method,
                authentication_data: properties->value.authentication_data,
                reason_string: properties->value.reason_string,
                user_properties: properties->value.user_properties,
            },
            next: properties->next,
        }
    }
}

/// The body of a packet of the given kind.
pub open spec fn parse_packet(
    kind: PacketType,
    s: Seq<u8>,
    pos: int,
    remaining_length: u32,
    first_byte: u8,
) -> Parsed<PacketView> {
    match kind {
        PacketType::Connect => match parse_connect(s, pos) {
            Parsed::Done { value, next } => Parsed::Done {
                value: PacketView::Connect(value),
                next,
            },
            other => other.carry(),
        },
        PacketType::ConnectAck => match parse_connect_ack(s, pos) {
            Parsed::Done { value, next } => Parsed::Done {
                value: PacketView::ConnectAck(value),
                next,
            },
            other => other.carry(),
        },
        PacketType::Publish => match parse_publish(s, pos, first_byte, remaining_length) {
            Parsed::Done { value, next } => Parsed::Done {
                value: PacketView::Publish(value),
                next,
            },
            other => other.carry(),
        },
        PacketType::PublishAck => match parse_publish_ack(s, pos, remaining_length) {
            Parsed::Done { value, next } => Parsed::Done {
                value: PacketView::PublishAck(value),
                next,
            },
            other => other.carry(),
        },
        PacketType::PublishReceived => match parse_publish_received(s, pos, remaining_length) {
            Parsed::Done { value, next } => Parsed::Done {
                value: PacketView::PublishReceived(value),
                next,
            },
            other => other.carry(),
        },
        PacketType::PublishRelease => match parse_publish_release(s, pos, remaining_length) {
            Parsed::Done { value, next } => Parsed::Done {
                value: PacketView::PublishRelease(value),
                next,
            },
            other => other.carry(),
        },
        PacketType::PublishComplete => match parse_publish_complete(s, pos, remaining_length) {
            Parsed::Done { value, next } => Parsed::Done {
                value: PacketView::PublishComplete(value),
                next,
            },
            other => other.carry(),
        },
        PacketType::Subscribe => match parse_subscribe(s, pos, remaining_length) {
            Parsed::Done { value, next } => Parsed::Done {
                value: PacketView::Subscribe(value),
                next,
            },
            other => other.carry(),
        },
        PacketType::SubscribeAck => match parse_subscribe_ack(s, pos, remaining_length) {
            Parsed::Done { value, next } => Parsed::Done {
                value: PacketView::SubscribeAck(value),
                next,
            },
            other => other.carry(),
        },
        PacketType::Unsubscribe => match parse_unsubscribe(s, pos, remaining_length) {
            Parsed::Done { value, next } => Parsed::Done {
                value: PacketView::Unsubscribe(value),
                next,
            },
            other => other.carry(),
        },
        PacketType::UnsubscribeAck => match parse_unsubscribe_ack(s, pos, remaining_length) {
            Parsed::Done { value, next } => Parsed::Done {
                value: PacketView::UnsubscribeAck(value),
                next,
            },
            other => other.carry(),
        },
        PacketType::PingRequest => Parsed::Done { value: PacketView::PingRequest, next: pos },
        PacketType::PingResponse => Parsed::Done { value: PacketView::PingResponse, next: pos },
        PacketType::Disconnect => match parse_disconnect(s, pos, remaining_length) {
            Parsed::Done { value, next } => Parsed::Done {
                value: PacketView::Disconnect(value),
                next,
            },
            other => other.carry(),
        },
        PacketType::Authenticate => match parse_authenticate(s, pos, remaining_length) {
            Parsed::Done { value, next } => Parsed::Done {
                value: PacketView::Authenticate(value),
                next,
            },
            other => other.carry(),
        },
    }
}

/// One frame at the front of `s`: a first byte whose upper nibble names the
/// packet kind, the remaining length as a variable-byte integer, and that
/// many bytes, all of which have to be there before the body is read. The
/// position behind a frame is the one behind those bytes, wherever the
/// reading of the body ended.
pub open spec fn parse_frame(s: Seq<u8>) -> Parsed<PacketView> {
    if s.len() == 0 {
        Parsed::Incomplete
    } else {
        match PacketType::from_code(s[0] / 16) {
            None => Parsed::Failed { error: DecodeError::InvalidPacketType },
            Some(kind) => match parse_vbi(s, 1) {
                Parsed::Done { value: remaining_length, next: body } => if s.len() - body
                    < remaining_length {
                    Parsed::Incomplete
                } else {
                    match parse_packet(kind, s, body, remaining_length, s[0]) {
                        Parsed::Done { value, next } => Parsed::Done {
                            value,
                            next: body + remaining_length,
                        },
                        other => other,
                    }
                },
                other => other.carry(),
            },
        }
    }
}

} // verus!

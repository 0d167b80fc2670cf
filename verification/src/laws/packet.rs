//! The body of every packet kind reads back from its bytes.

use crate::codes::{
    AuthenticateReason, ConnectReason, DisconnectReason, PublishAckReason, PublishCompleteReason,
    PublishReceivedReason, PublishReleaseReason, QoS, RetainHandling, SubscribeAckReason,
    UnsubscribeAckReason,
};
use crate::laws::primitive::{
    binary_reads_back, bytes_read_back, holds_at, holds_at_index, holds_at_split, string_reads_back,
    u16_reads_back,
};
use crate::laws::property::properties_read_back;
use crate::packet::{
    AuthenticateView, ConnectAckView, ConnectView, DisconnectView, FinalWillView, PublishAckView,
    PublishCompleteView, PublishReceivedView, PublishReleaseView, PublishView, SubscribeAckView,
    SubscribeView, SubscriptionTopicView, UnsubscribeAckView, UnsubscribeView,
};
use crate::properties::PropertiesView;
use crate::wire::form::{
    authenticate_bytes, authenticate_fault, authenticate_properties, connect_ack_bytes,
    connect_ack_fault, connect_ack_properties, connect_bytes, connect_fault, connect_flags,
    connect_payload_bytes, connect_payload_fault, connect_properties, disconnect_bytes,
    disconnect_fault, disconnect_properties, flag_bits, optional_string_bytes,
    optional_string_fault, publish_ack_bytes, publish_ack_fault, publish_bytes,
    publish_complete_bytes, publish_complete_fault, publish_fault, publish_flags,
    publish_properties, publish_received_bytes, publish_received_fault, publish_release_bytes,
    publish_release_fault, reason_properties, subscribe_ack_bytes, subscribe_ack_fault,
    subscribe_bytes, subscribe_fault, subscribe_properties, subscription_bytes,
    subscription_options, subscriptions_bytes, subscriptions_fault, topics_bytes, topics_fault,
    unsubscribe_ack_bytes, unsubscribe_ack_fault, unsubscribe_bytes, unsubscribe_fault,
    unsubscribe_properties, will_bytes, will_fault, will_properties,
};
use crate::wire::packet::{
    flag_clean_start, flag_password, flag_user_name, flag_will, flag_will_qos, flag_will_retain,
    parse_authenticate, parse_connect, parse_connect_ack, parse_connect_payload, parse_disconnect,
    parse_optional_string, parse_publish, parse_publish_ack, parse_publish_complete,
    parse_publish_received, parse_publish_release, parse_subscribe, parse_subscribe_ack,
    parse_subscribe_ack_run, parse_subscription, parse_subscription_run, parse_topic_run,
    parse_unsubscribe, parse_unsubscribe_ack, parse_unsubscribe_ack_run, parse_will,
    ConnectPayloadView,
};
use crate::wire::primitive::{binary_bytes, string_bytes, string_fault, u16_bytes, Parsed, VBI_MAX};
use crate::wire::property::properties_bytes;
use vstd::prelude::*;

verus! {

/// A run of properties takes at least one byte.
pub proof fn properties_bytes_are_some(properties: PropertiesView)
    ensures
        properties_bytes(properties).len() >= 1,
{
    reveal(properties_bytes);
}

/// A string that may not be there reads back from its bytes.
pub proof fn optional_string_reads_back(s: Seq<u8>, pos: int, text: Option<Seq<char>>)
    requires
        optional_string_fault(text) is None,
        holds_at(s, pos, optional_string_bytes(text)),
    ensures
        parse_optional_string(text is Some, s, pos) == (Parsed::Done {
            value: text,
            next: pos + optional_string_bytes(text).len(),
        }),
{
    if let Some(text) = text {
        string_reads_back(s, pos, text);
    }
}

/// A will that can be written reads back from its bytes.
pub proof fn will_reads_back(s: Seq<u8>, pos: int, will: FinalWillView)
    requires
        will_fault(will) is None,
        holds_at(s, pos, will_bytes(will)),
    ensures
        parse_will(s, pos, will.qos, will.should_retain) == (Parsed::Done {
            value: will,
            next: pos + will_bytes(will).len(),
        }),
{
    reveal(parse_will);
    let properties = properties_bytes(will_properties(will));
    let topic = string_bytes(will.topic);
    holds_at_split(s, pos, properties + topic, binary_bytes(will.payload));
    holds_at_split(s, pos, properties, topic);
    properties_read_back(s, pos, will_properties(will));
    string_reads_back(s, pos + properties.len(), will.topic);
    binary_reads_back(s, pos + properties.len() + topic.len(), will.payload);
}

/// Each connect flag reads back from the flags byte.
pub proof fn connect_flags_read_back(packet: ConnectView)
    ensures
        flag_clean_start(connect_flags(packet)) == packet.clean_start,
        flag_will(connect_flags(packet)) == (packet.will is Some),
        flag_password(connect_flags(packet)) == (packet.password is Some),
        flag_user_name(connect_flags(packet)) == (packet.user_name is Some),
        packet.will matches Some(will) ==> flag_will_qos(connect_flags(packet)) == will.qos.code()
            && flag_will_retain(connect_flags(packet)) == will.should_retain,
        packet.will is None ==> flag_will_qos(connect_flags(packet)) == 0,
{
    reveal(connect_flags);
}

/// The payload of a Connect packet reads back from its bytes.
pub proof fn connect_payload_reads_back(s: Seq<u8>, pos: int, packet: ConnectView)
    requires
        connect_payload_fault(packet) is None,
        holds_at(s, pos, connect_payload_bytes(packet)),
    ensures
        parse_connect_payload(
            s,
            pos,
            connect_flags(packet),
            match packet.will {
                Some(will) => will.qos,
                None => QoS::AtMostOnce,
            },
        ) == (Parsed::Done {
            value: ConnectPayloadView {
                client_id: packet.client_id,
                will: packet.will,
                user_name: packet.user_name,
                password: packet.password,
            },
            next: pos + connect_payload_bytes(packet).len(),
        }),
{
    reveal(parse_connect_payload);
    let client_id = string_bytes(packet.client_id);
    let will = match packet.will {
        Some(will) => will_bytes(will),
        None => Seq::empty(),
    };
    let user_name = optional_string_bytes(packet.user_name);
    let password = optional_string_bytes(packet.password);
    holds_at_split(s, pos, client_id + will + user_name, password);
    holds_at_split(s, pos, client_id + will, user_name);
    holds_at_split(s, pos, client_id, will);
    connect_flags_read_back(packet);
    string_reads_back(s, pos, packet.client_id);
    if let Some(will) = packet.will {
        will_reads_back(s, pos + client_id.len(), will);
    }
    optional_string_reads_back(s, pos + client_id.len() + will.len(), packet.user_name);
    optional_string_reads_back(
        s,
        pos + client_id.len() + will.len() + user_name.len(),
        packet.password,
    );
}

/// The body of a Connect packet that can be written reads back from its bytes.
pub proof fn connect_reads_back(s: Seq<u8>, pos: int, packet: ConnectView)
    requires
        connect_fault(packet) is None,
        holds_at(s, pos, connect_bytes(packet)),
    ensures
        parse_connect(s, pos) == (Parsed::Done {
            value: packet,
            next: pos + connect_bytes(packet).len(),
        }),
{
    reveal(parse_connect);
    let name = string_bytes(packet.protocol_name);
    let fixed = seq![packet.protocol_level, connect_flags(packet)];
    let keep_alive = u16_bytes(packet.keep_alive);
    let properties = properties_bytes(connect_properties(packet));
    let t2 = name + fixed;
    let t3 = t2 + keep_alive;
    let t4 = t3 + properties;
    holds_at_split(s, pos, t4, connect_payload_bytes(packet));
    holds_at_split(s, pos, t3, properties);
    holds_at_split(s, pos, t2, keep_alive);
    holds_at_split(s, pos, name, fixed);
    string_reads_back(s, pos, packet.protocol_name);
    holds_at_index(s, pos + name.len(), fixed, 0);
    holds_at_index(s, pos + name.len(), fixed, 1);
    u16_reads_back(s, pos + t2.len(), packet.keep_alive);
    properties_read_back(s, pos + t3.len(), connect_properties(packet));
    connect_flags_read_back(packet);
    if let Some(will) = packet.will {
        QoS::code_is_invertible(will.qos, will.qos.code());
    }
    connect_payload_reads_back(s, pos + t4.len(), packet);
}

/// The body of a ConnectAck packet that can be written reads back from its bytes.
pub proof fn connect_ack_reads_back(s: Seq<u8>, pos: int, packet: ConnectAckView)
    requires
        connect_ack_fault(packet) is None,
        holds_at(s, pos, connect_ack_bytes(packet)),
    ensures
        parse_connect_ack(s, pos) == (Parsed::Done {
            value: packet,
            next: pos + connect_ack_bytes(packet).len(),
        }),
{
    reveal(parse_connect_ack);
    let fixed = seq![
        flag_bits(packet.session_present, 1) as u8,
        packet.reason_code.code(),
    ];
    holds_at_split(s, pos, fixed, properties_bytes(connect_ack_properties(packet)));
    holds_at_index(s, pos, fixed, 0);
    holds_at_index(s, pos, fixed, 1);
    ConnectReason::code_is_invertible(packet.reason_code, packet.reason_code.code());
    properties_read_back(s, pos + 2, connect_ack_properties(packet));
}

/// Each flag of a Publish packet reads back from the first byte of its frame.
pub proof fn publish_flags_read_back(packet: PublishView)
    ensures
        ((48 + publish_flags(packet)) as u8) / 2 % 4 == packet.qos.code(),
        (((48 + publish_flags(packet)) as u8) / 8 % 2 == 1) == packet.is_duplicate,
        (((48 + publish_flags(packet)) as u8) % 2 == 1) == packet.retain,
{
}

/// The body of a Publish packet that can be written reads back from its bytes.
pub proof fn publish_reads_back(s: Seq<u8>, pos: int, packet: PublishView)
    requires
        publish_fault(packet) is None,
        publish_bytes(packet).len() <= VBI_MAX,
        holds_at(s, pos, publish_bytes(packet)),
    ensures
        parse_publish(
            s,
            pos,
            (48 + publish_flags(packet)) as u8,
            publish_bytes(packet).len() as u32,
        ) == (Parsed::Done { value: packet, next: pos + publish_bytes(packet).len() }),
{
    reveal(parse_publish);
    let topic = string_bytes(packet.topic_name);
    let packet_id = match packet.packet_id {
        Some(packet_id) => u16_bytes(packet_id),
        None => Seq::empty(),
    };
    let properties = properties_bytes(publish_properties(packet));
    let t2 = topic + packet_id;
    let t3 = t2 + properties;
    holds_at_split(s, pos, t3, packet.payload);
    holds_at_split(s, pos, t2, properties);
    holds_at_split(s, pos, topic, packet_id);
    publish_flags_read_back(packet);
    QoS::code_is_invertible(packet.qos, packet.qos.code());
    string_reads_back(s, pos, packet.topic_name);
    if let Some(packet_id) = packet.packet_id {
        u16_reads_back(s, pos + topic.len(), packet_id);
    }
    properties_read_back(s, pos + t2.len(), publish_properties(packet));
    bytes_read_back(s, pos + t3.len(), packet.payload);
}

/// The body of a PublishAck packet that can be written reads back from its bytes.
pub proof fn publish_ack_reads_back(s: Seq<u8>, pos: int, packet: PublishAckView)
    requires
        publish_ack_fault(packet) is None,
        publish_ack_bytes(packet).len() <= VBI_MAX,
        holds_at(s, pos, publish_ack_bytes(packet)),
    ensures
        parse_publish_ack(s, pos, publish_ack_bytes(packet).len() as u32) == (Parsed::Done {
            value: packet,
            next: pos + publish_ack_bytes(packet).len(),
        }),
{
    reveal(parse_publish_ack);
    let properties = reason_properties(packet.reason_string, packet.user_properties);
    let packet_id = u16_bytes(packet.packet_id);
    let reason = seq![packet.reason_code.code()];
    holds_at_split(s, pos, packet_id + reason, properties_bytes(properties));
    holds_at_split(s, pos, packet_id, reason);
    u16_reads_back(s, pos, packet.packet_id);
    holds_at_index(s, pos + 2, reason, 0);
    PublishAckReason::code_is_invertible(packet.reason_code, packet.reason_code.code());
    properties_bytes_are_some(properties);
    properties_read_back(s, pos + 3, properties);
    assert(packet.user_properties == properties.user_properties);
}

/// The body of a PublishReceived packet that can be written reads back from its bytes.
pub proof fn publish_received_reads_back(s: Seq<u8>, pos: int, packet: PublishReceivedView)
    requires
        publish_received_fault(packet) is None,
        publish_received_bytes(packet).len() <= VBI_MAX,
        holds_at(s, pos, publish_received_bytes(packet)),
    ensures
        parse_publish_received(s, pos, publish_received_bytes(packet).len() as u32) == (
        Parsed::Done { value: packet, next: pos + publish_received_bytes(packet).len() }),
{
    reveal(parse_publish_received);
    let properties = reason_properties(packet.reason_string, packet.user_properties);
    let packet_id = u16_bytes(packet.packet_id);
    let reason = seq![packet.reason_code.code()];
    holds_at_split(s, pos, packet_id + reason, properties_bytes(properties));
    holds_at_split(s, pos, packet_id, reason);
    u16_reads_back(s, pos, packet.packet_id);
    holds_at_index(s, pos + 2, reason, 0);
    PublishReceivedReason::code_is_invertible(packet.reason_code, packet.reason_code.code());
    properties_bytes_are_some(properties);
    properties_read_back(s, pos + 3, properties);
    assert(packet.user_properties == properties.user_properties);
}

/// The body of a PublishRelease packet that can be written reads back from its bytes.
pub proof fn publish_release_reads_back(s: Seq<u8>, pos: int, packet: PublishReleaseView)
    requires
        publish_release_fault(packet) is None,
        publish_release_bytes(packet).len() <= VBI_MAX,
        holds_at(s, pos, publish_release_bytes(packet)),
    ensures
        parse_publish_release(s, pos, publish_release_bytes(packet).len() as u32) == (Parsed::Done {
            value: packet,
            next: pos + publish_release_bytes(packet).len(),
        }),
{
    reveal(parse_publish_release);
    let properties = reason_properties(packet.reason_string, packet.user_properties);
    let packet_id = u16_bytes(packet.packet_id);
    let reason = seq![packet.reason_code.code()];
    holds_at_split(s, pos, packet_id + reason, properties_bytes(properties));
    holds_at_split(s, pos, packet_id, reason);
    u16_reads_back(s, pos, packet.packet_id);
    holds_at_index(s, pos + 2, reason, 0);
    PublishReleaseReason::code_is_invertible(packet.reason_code, packet.reason_code.code());
    properties_bytes_are_some(properties);
    properties_read_back(s, pos + 3, properties);
    assert(packet.user_properties == properties.user_properties);
}

/// The body of a PublishComplete packet that can be written reads back from its bytes.
pub proof fn publish_complete_reads_back(s: Seq<u8>, pos: int, packet: PublishCompleteView)
    requires
        publish_complete_fault(packet) is None,
        publish_complete_bytes(packet).len() <= VBI_MAX,
        holds_at(s, pos, publish_complete_bytes(packet)),
    ensures
        parse_publish_complete(s, pos, publish_complete_bytes(packet).len() as u32) == (
        Parsed::Done { value: packet, next: pos + publish_complete_bytes(packet).len() }),
{
    reveal(parse_publish_complete);
    let properties = reason_properties(packet.reason_string, packet.user_properties);
    let packet_id = u16_bytes(packet.packet_id);
    let reason = seq![packet.reason_code.code()];
    holds_at_split(s, pos, packet_id + reason, properties_bytes(properties));
    holds_at_split(s, pos, packet_id, reason);
    u16_reads_back(s, pos, packet.packet_id);
    holds_at_index(s, pos + 2, reason, 0);
    PublishCompleteReason::code_is_invertible(packet.reason_code, packet.reason_code.code());
    properties_bytes_are_some(properties);
    properties_read_back(s, pos + 3, properties);
    assert(packet.user_properties == properties.user_properties);
}

/// Each option of a subscription reads back from its options byte.
pub proof fn subscription_options_read_back(entry: SubscriptionTopicView)
    ensures
        subscription_options(entry) % 4 == entry.maximum_qos.code(),
        subscription_options(entry) / 16 % 4 == entry.retain_handling.code(),
        (subscription_options(entry) / 4 % 2 == 1) == entry.no_local,
        (subscription_options(entry) / 8 % 2 == 1) == entry.retain_as_published,
{
}

/// An entry of a Subscribe packet reads back from its bytes.
pub proof fn subscription_reads_back(s: Seq<u8>, pos: int, entry: SubscriptionTopicView)
    requires
        string_fault(entry.topic) is None,
        holds_at(s, pos, subscription_bytes(entry)),
    ensures
        parse_subscription(s, pos) == (Parsed::Done {
            value: entry,
            next: pos + subscription_bytes(entry).len(),
        }),
{
    let topic = string_bytes(entry.topic);
    let options = seq![subscription_options(entry)];
    holds_at_split(s, pos, topic, options);
    string_reads_back(s, pos, entry.topic);
    holds_at_index(s, pos + topic.len(), options, 0);
    subscription_options_read_back(entry);
    QoS::code_is_invertible(entry.maximum_qos, entry.maximum_qos.code());
    RetainHandling::code_is_invertible(entry.retain_handling, entry.retain_handling.code());
}

/// Entries are read, in their order, by a run that covers their bytes.
pub proof fn subscriptions_read_back(
    s: Seq<u8>,
    pos: int,
    read: Seq<SubscriptionTopicView>,
    entries: Seq<SubscriptionTopicView>,
)
    requires
        subscriptions_fault(entries) is None,
        holds_at(s, pos, subscriptions_bytes(entries)),
    ensures
        parse_subscription_run(s, pos, pos + subscriptions_bytes(entries).len(), read) == (
        Parsed::Done { value: read + entries, next: pos + subscriptions_bytes(entries).len() }),
    decreases entries.len(),
{
    if entries.len() == 0 {
        assert(read + entries =~= read);
    } else {
        let first = subscription_bytes(entries[0]);
        let rest = entries.skip(1);
        holds_at_split(s, pos, first, subscriptions_bytes(rest));
        subscription_reads_back(s, pos, entries[0]);
        subscriptions_read_back(s, pos + first.len(), read.push(entries[0]), rest);
        assert(read.push(entries[0]) + rest =~= read + entries);
    }
}

/// Topic filters are read, in their order, by a run that covers their bytes.
pub proof fn topics_read_back(
    s: Seq<u8>,
    pos: int,
    read: Seq<Seq<char>>,
    topics: Seq<Seq<char>>,
)
    requires
        topics_fault(topics) is None,
        holds_at(s, pos, topics_bytes(topics)),
    ensures
        parse_topic_run(s, pos, pos + topics_bytes(topics).len(), read) == (Parsed::Done {
            value: read + topics,
            next: pos + topics_bytes(topics).len(),
        }),
    decreases topics.len(),
{
    if topics.len() == 0 {
        assert(read + topics =~= read);
    } else {
        let first = string_bytes(topics[0]);
        let rest = topics.skip(1);
        holds_at_split(s, pos, first, topics_bytes(rest));
        string_reads_back(s, pos, topics[0]);
        topics_read_back(s, pos + first.len(), read.push(topics[0]), rest);
        assert(read.push(topics[0]) + rest =~= read + topics);
    }
}

/// Reason codes are read, in their order, by a run that covers their bytes.
pub proof fn subscribe_ack_reasons_read_back(
    s: Seq<u8>,
    pos: int,
    read: Seq<SubscribeAckReason>,
    reasons: Seq<SubscribeAckReason>,
)
    requires
        holds_at(s, pos, reasons.map_values(|reason: SubscribeAckReason| reason.code())),
    ensures
        parse_subscribe_ack_run(s, pos, pos + reasons.len(), read) == (Parsed::Done {
            value: read + reasons,
            next: pos + reasons.len(),
        }),
    decreases reasons.len(),
{
    let codes = reasons.map_values(|reason: SubscribeAckReason| reason.code());
    if reasons.len() == 0 {
        assert(read + reasons =~= read);
    } else {
        let rest = reasons.skip(1);
        let rest_codes = rest.map_values(|reason: SubscribeAckReason| reason.code());
        assert(codes =~= seq![reasons[0].code()] + rest_codes);
        holds_at_split(s, pos, seq![reasons[0].code()], rest_codes);
        holds_at_index(s, pos, codes, 0);
        SubscribeAckReason::code_is_invertible(reasons[0], reasons[0].code());
        subscribe_ack_reasons_read_back(s, pos + 1, read.push(reasons[0]), rest);
        assert(read.push(reasons[0]) + rest =~= read + reasons);
    }
}

/// Reason codes are read, in their order, by a run that covers their bytes.
pub proof fn unsubscribe_ack_reasons_read_back(
    s: Seq<u8>,
    pos: int,
    read: Seq<UnsubscribeAckReason>,
    reasons: Seq<UnsubscribeAckReason>,
)
    requires
        holds_at(s, pos, reasons.map_values(|reason: UnsubscribeAckReason| reason.code())),
    ensures
        parse_unsubscribe_ack_run(s, pos, pos + reasons.len(), read) == (Parsed::Done {
            value: read + reasons,
            next: pos + reasons.len(),
        }),
    decreases reasons.len(),
{
    let codes = reasons.map_values(|reason: UnsubscribeAckReason| reason.code());
    if reasons.len() == 0 {
        assert(read + reasons =~= read);
    } else {
        let rest = reasons.skip(1);
        let rest_codes = rest.map_values(|reason: UnsubscribeAckReason| reason.code());
        assert(codes =~= seq![reasons[0].code()] + rest_codes);
        holds_at_split(s, pos, seq![reasons[0].code()], rest_codes);
        holds_at_index(s, pos, codes, 0);
        UnsubscribeAckReason::code_is_invertible(reasons[0], reasons[0].code());
        unsubscribe_ack_reasons_read_back(s, pos + 1, read.push(reasons[0]), rest);
        assert(read.push(reasons[0]) + rest =~= read + reasons);
    }
}

/// The body of a Subscribe packet that can be written reads back from its bytes.
pub proof fn subscribe_reads_back(s: Seq<u8>, pos: int, packet: SubscribeView)
    requires
        subscribe_fault(packet) is None,
        subscribe_bytes(packet).len() <= VBI_MAX,
        holds_at(s, pos, subscribe_bytes(packet)),
    ensures
        parse_subscribe(s, pos, subscribe_bytes(packet).len() as u32) == (Parsed::Done {
            value: packet,
            next: pos + subscribe_bytes(packet).len(),
        }),
{
    reveal(parse_subscribe);
    let packet_id = u16_bytes(packet.packet_id);
    let properties = properties_bytes(subscribe_properties(packet));
    let entries = subscriptions_bytes(packet.subscription_topics);
    holds_at_split(s, pos, packet_id + properties, entries);
    holds_at_split(s, pos, packet_id, properties);
    u16_reads_back(s, pos, packet.packet_id);
    properties_read_back(s, pos + 2, subscribe_properties(packet));
    subscriptions_read_back(
        s,
        pos + 2 + properties.len(),
        Seq::empty(),
        packet.subscription_topics,
    );
    assert(Seq::<SubscriptionTopicView>::empty() + packet.subscription_topics
        =~= packet.subscription_topics);
}

/// The body of an Unsubscribe packet that can be written reads back from its bytes.
pub proof fn unsubscribe_reads_back(s: Seq<u8>, pos: int, packet: UnsubscribeView)
    requires
        unsubscribe_fault(packet) is None,
        unsubscribe_bytes(packet).len() <= VBI_MAX,
        holds_at(s, pos, unsubscribe_bytes(packet)),
    ensures
        parse_unsubscribe(s, pos, unsubscribe_bytes(packet).len() as u32) == (Parsed::Done {
            value: packet,
            next: pos + unsubscribe_bytes(packet).len(),
        }),
{
    reveal(parse_unsubscribe);
    let packet_id = u16_bytes(packet.packet_id);
    let properties = properties_bytes(unsubscribe_properties(packet));
    let topics = topics_bytes(packet.topics);
    holds_at_split(s, pos, packet_id + properties, topics);
    holds_at_split(s, pos, packet_id, properties);
    u16_reads_back(s, pos, packet.packet_id);
    properties_read_back(s, pos + 2, unsubscribe_properties(packet));
    topics_read_back(s, pos + 2 + properties.len(), Seq::empty(), packet.topics);
    assert(Seq::<Seq<char>>::empty() + packet.topics =~= packet.topics);
}

/// The body of a SubscribeAck packet that can be written reads back from its bytes.
pub proof fn subscribe_ack_reads_back(s: Seq<u8>, pos: int, packet: SubscribeAckView)
    requires
        subscribe_ack_fault(packet) is None,
        subscribe_ack_bytes(packet).len() <= VBI_MAX,
        holds_at(s, pos, subscribe_ack_bytes(packet)),
    ensures
        parse_subscribe_ack(s, pos, subscribe_ack_bytes(packet).len() as u32) == (Parsed::Done {
            value: packet,
            next: pos + subscribe_ack_bytes(packet).len(),
        }),
{
    reveal(parse_subscribe_ack);
    let bag = reason_properties(packet.reason_string, packet.user_properties);
    let packet_id = u16_bytes(packet.packet_id);
    let properties = properties_bytes(bag);
    let reasons = packet.reason_codes.map_values(|reason: SubscribeAckReason| reason.code());
    holds_at_split(s, pos, packet_id + properties, reasons);
    holds_at_split(s, pos, packet_id, properties);
    u16_reads_back(s, pos, packet.packet_id);
    properties_read_back(s, pos + 2, bag);
    subscribe_ack_reasons_read_back(
        s,
        pos + 2 + properties.len(),
        Seq::empty(),
        packet.reason_codes,
    );
    assert(Seq::<SubscribeAckReason>::empty() + packet.reason_codes =~= packet.reason_codes);
    assert(packet.user_properties == bag.user_properties);
}

/// The body of an UnsubscribeAck packet that can be written reads back from its bytes.
pub proof fn unsubscribe_ack_reads_back(s: Seq<u8>, pos: int, packet: UnsubscribeAckView)
    requires
        unsubscribe_ack_fault(packet) is None,
        unsubscribe_ack_bytes(packet).len() <= VBI_MAX,
        holds_at(s, pos, unsubscribe_ack_bytes(packet)),
    ensures
        parse_unsubscribe_ack(s, pos, unsubscribe_ack_bytes(packet).len() as u32) == (Parsed::Done {
            value: packet,
            next: pos + unsubscribe_ack_bytes(packet).len(),
        }),
{
    reveal(parse_unsubscribe_ack);
    let bag = reason_properties(packet.reason_string, packet.user_properties);
    let packet_id = u16_bytes(packet.packet_id);
    let properties = properties_bytes(bag);
    let reasons = packet.reason_codes.map_values(|reason: UnsubscribeAckReason| reason.code());
    holds_at_split(s, pos, packet_id + properties, reasons);
    holds_at_split(s, pos, packet_id, properties);
    u16_reads_back(s, pos, packet.packet_id);
    properties_read_back(s, pos + 2, bag);
    unsubscribe_ack_reasons_read_back(
        s,
        pos + 2 + properties.len(),
        Seq::empty(),
        packet.reason_codes,
    );
    assert(Seq::<UnsubscribeAckReason>::empty() + packet.reason_codes =~= packet.reason_codes);
    assert(packet.user_properties == bag.user_properties);
}

/// The body of a Disconnect packet that can be written reads back from its bytes.
pub proof fn disconnect_reads_back(s: Seq<u8>, pos: int, packet: DisconnectView)
    requires
        disconnect_fault(packet) is None,
        disconnect_bytes(packet).len() <= VBI_MAX,
        holds_at(s, pos, disconnect_bytes(packet)),
    ensures
        parse_disconnect(s, pos, disconnect_bytes(packet).len() as u32) == (Parsed::Done {
            value: packet,
            next: pos + disconnect_bytes(packet).len(),
        }),
{
    reveal(parse_disconnect);
    let reason = seq![packet.reason_code.code()];
    holds_at_split(s, pos, reason, properties_bytes(disconnect_properties(packet)));
    holds_at_index(s, pos, reason, 0);
    DisconnectReason::code_is_invertible(packet.reason_code, packet.reason_code.code());
    properties_bytes_are_some(disconnect_properties(packet));
    properties_read_back(s, pos + 1, disconnect_properties(packet));
}

/// The body of an Authenticate packet that can be written reads back from its bytes.
pub proof fn authenticate_reads_back(s: Seq<u8>, pos: int, packet: AuthenticateView)
    requires
        authenticate_fault(packet) is None,
        authenticate_bytes(packet).len() <= VBI_MAX,
        holds_at(s, pos, authenticate_bytes(packet)),
    ensures
        parse_authenticate(s, pos, authenticate_bytes(packet).len() as u32) == (Parsed::Done {
            value: packet,
            next: pos + authenticate_bytes(packet).len(),
        }),
{
    reveal(parse_authenticate);
    let reason = seq![packet.reason_code.code()];
    holds_at_split(s, pos, reason, properties_bytes(authenticate_properties(packet)));
    holds_at_index(s, pos, reason, 0);
    AuthenticateReason::code_is_invertible(packet.reason_code, packet.reason_code.code());
    properties_bytes_are_some(authenticate_properties(packet));
    properties_read_back(s, pos + 1, authenticate_properties(packet));
}

} // verus!

//! The grammar of properties: one property is a variable-byte identifier and
//! a value whose form the identifier decides; a run of properties is a
//! variable-byte length and properties that fill that many bytes.

use crate::codes::QoS;
use crate::error::{DecodeError, EncodeError};
use crate::properties::{PropertiesView, PropertyType, PropertyView};
use crate::wire::primitive::{
    binary_bytes, binary_fault, first_of, parse_binary, parse_string, parse_u16, parse_u32,
    parse_u8, parse_vbi, string_bytes, string_fault, u16_bytes, u32_bytes, vbi_bytes, vbi_fault,
    Parsed, VBI_MAX,
};
use vstd::prelude::*;

verus! {

/// The value of a property of the given kind.
pub open spec fn parse_property_value(kind: PropertyType, s: Seq<u8>, pos: int) -> Parsed<
    PropertyView,
> {
    match kind {
        PropertyType::PayloadFormatIndicator => match parse_u8(s, pos) {
            Parsed::Done { value, next } => Parsed::Done {
                value: PropertyView::PayloadFormatIndicator(value),
                next,
            },
            other => other.carry(),
        },
        PropertyType::MessageExpiryInterval => match parse_u32(s, pos) {
            Parsed::Done { value, next } => Parsed::Done {
                value: PropertyView::MessageExpiryInterval(value),
                next,
            },
            other => other.carry(),
        },
        PropertyType::ContentType => match parse_string(s, pos) {
            Parsed::Done { value, next } => Parsed::Done {
                value: PropertyView::ContentType(value),
                next,
            },
            other => other.carry(),
        },
        PropertyType::ResponseTopic => match parse_string(s, pos) {
            Parsed::Done { value, next } => Parsed::Done {
                value: PropertyView::ResponseTopic(value),
                next,
            },
            other => other.carry(),
        },
        PropertyType::CorrelationData => match parse_binary(s, pos) {
            Parsed::Done { value, next } => Parsed::Done {
                value: PropertyView::CorrelationData(value),
                next,
            },
            other => other.carry(),
        },
        PropertyType::SubscriptionIdentifier => match parse_vbi(s, pos) {
            Parsed::Done { value, next } => Parsed::Done {
                value: PropertyView::SubscriptionIdentifier(value),
                next,
            },
            other => other.carry(),
        },
        PropertyType::SessionExpiryInterval => match parse_u32(s, pos) {
            Parsed::Done { value, next } => Parsed::Done {
                value: PropertyView::SessionExpiryInterval(value),
                next,
            },
            other => other.carry(),
        },
        PropertyType::AssignedClientIdentifier => match parse_string(s, pos) {
            Parsed::Done { value, next } => Parsed::Done {
                value: PropertyView::AssignedClientIdentifier(value),
                next,
            },
            other => other.carry(),
        },
        PropertyType::ServerKeepAlive => match parse_u16(s, pos) {
            Parsed::Done { value, next } => Parsed::Done {
                value: PropertyView::ServerKeepAlive(value),
                next,
            },
            other => other.carry(),
        },
        PropertyType::AuthenticationMethod => match parse_string(s, pos) {
            Parsed::Done { value, next } => Parsed::Done {
                value: PropertyView::AuthenticationMethod(value),
                next,
            },
            other => other.carry(),
        },
        PropertyType::AuthenticationData => match parse_binary(s, pos) {
            Parsed::Done { value, next } => Parsed::Done {
                value: PropertyView::AuthenticationData(value),
                next,
            },
            other => other.carry(),
        },
        PropertyType::RequestProblemInformation => match parse_u8(s, pos) {
            Parsed::Done { value, next } => Parsed::Done {
                value: PropertyView::RequestProblemInformation(value),
                next,
            },
            other => other.carry(),
        },
        PropertyType::WillDelayInterval => match parse_u32(s, pos) {
            Parsed::Done { value, next } => Parsed::Done {
                value: PropertyView::WillDelayInterval(value),
                next,
            },
            other => other.carry(),
        },
        PropertyType::RequestResponseInformation => match parse_u8(s, pos) {
            Parsed::Done { value, next } => Parsed::Done {
                value: PropertyView::RequestResponseInformation(value),
                next,
            },
            other => other.carry(),
        },
        PropertyType::ResponseInformation => match parse_string(s, pos) {
            Parsed::Done { value, next } => Parsed::Done {
                value: PropertyView::ResponseInformation(value),
                next,
            },
            other => other.carry(),
        },
        PropertyType::ServerReference => match parse_string(s, pos) {
            Parsed::Done { value, next } => Parsed::Done {
                value: PropertyView::ServerReference(value),
                next,
            },
            other => other.carry(),
        },
        PropertyType::ReasonString => match parse_string(s, pos) {
            Parsed::Done { value, next } => Parsed::Done {
                value: PropertyView::ReasonString(value),
                next,
            },
            other => other.carry(),
        },
        PropertyType::ReceiveMaximum => match parse_u16(s, pos) {
            Parsed::Done { value, next } => Parsed::Done {
                value: PropertyView::ReceiveMaximum(value),
                next,
            },
            other => other.carry(),
        },
        PropertyType::TopicAliasMaximum => match parse_u16(s, pos) {
            Parsed::Done { value, next } => Parsed::Done {
                value: PropertyView::TopicAliasMaximum(value),
                next,
            },
            other => other.carry(),
        },
        PropertyType::TopicAlias => match parse_u16(s, pos) {
            Parsed::Done { value, next } => Parsed::Done {
                value: PropertyView::TopicAlias(value),
                next,
            },
            other => other.carry(),
        },
        PropertyType::MaximumQos => match parse_u8(s, pos) {
            Parsed::Done { value, next } => match QoS::from_code(value) {
                Some(qos) => Parsed::Done { value: PropertyView::MaximumQos(qos), next },
                None => Parsed::Failed { error: DecodeError::InvalidQoS },
            },
            other => other.carry(),
        },
        PropertyType::RetainAvailable => match parse_u8(s, pos) {
            Parsed::Done { value, next } => Parsed::Done {
                value: PropertyView::RetainAvailable(value),
                next,
            },
            other => other.carry(),
        },
        PropertyType::UserProperty => match parse_string(s, pos) {
            Parsed::Done { value: name, next: middle } => match parse_string(s, middle) {
                Parsed::Done { value, next } => Parsed::Done {
                    value: PropertyView::UserProperty((name, value)),
                    next,
                },
                other => other.carry(),
            },
            other => other.carry(),
        },
        PropertyType::MaximumPacketSize => match parse_u32(s, pos) {
            Parsed::Done { value, next } => Parsed::Done {
                value: PropertyView::MaximumPacketSize(value),
                next,
            },
            other => other.carry(),
        },
        PropertyType::WildcardSubscriptionAvailable => match parse_u8(s, pos) {
            Parsed::Done { value, next } => Parsed::Done {
                value: PropertyView::WildcardSubscriptionAvailable(value),
                next,
            },
            other => other.carry(),
        },
        PropertyType::SubscriptionIdentifierAvailable => match parse_u8(s, pos) {
            Parsed::Done { value, next } => Parsed::Done {
                value: PropertyView::SubscriptionIdentifierAvailable(value),
                next,
            },
            other => other.carry(),
        },
        PropertyType::SharedSubscriptionAvailable => match parse_u8(s, pos) {
            Parsed::Done { value, next } => Parsed::Done {
                value: PropertyView::SharedSubscriptionAvailable(value),
                next,
            },
            other => other.carry(),
        },
    }
}

/// The value of the property that an identifier names; no property, no value.
pub open spec fn parse_property_of(id: u32, s: Seq<u8>, pos: int) -> Parsed<PropertyView> {
    match PropertyType::from_id(id) {
        Some(kind) => parse_property_value(kind, s, pos),
        None => Parsed::Failed { error: DecodeError::InvalidPropertyId },
    }
}

/// One property: its identifier, then its value.
#[verifier::opaque]
pub open spec fn parse_property(s: Seq<u8>, pos: int) -> Parsed<PropertyView> {
    match parse_vbi(s, pos) {
        Parsed::Done { value, next } => parse_property_of(value, s, next),
        other => other.carry(),
    }
}

/// A property that was read ends behind where it starts, and within the bytes.
pub proof fn parse_property_advances(s: Seq<u8>, pos: int)
    ensures
        parse_property(s, pos) matches Parsed::Done { next, .. } ==> pos < next <= s.len(),
{
    reveal(parse_property);
}

/// Properties from `pos` until `end` is reached or passed, taken in by
/// `properties` one after the other. The last of them may run past `end`.
pub open spec fn parse_property_run(
    s: Seq<u8>,
    pos: int,
    end: int,
    properties: PropertiesView,
) -> Parsed<PropertiesView>
    decreases s.len() - pos,
{
    if pos >= end {
        Parsed::Done { value: properties, next: pos }
    } else {
        match parse_property(s, pos) {
            Parsed::Done { value, next } => {
                proof {
                    parse_property_advances(s, pos);
                }
                parse_property_run(s, next, end, properties.accept(value))
            },
            other => other.carry(),
        }
    }
}

/// A run that was read ends at or behind where it starts, and within the
/// bytes if it starts there.
pub proof fn parse_property_run_advances(s: Seq<u8>, pos: int, end: int, properties: PropertiesView)
    ensures
        parse_property_run(s, pos, end, properties) matches Parsed::Done { next, .. } ==> pos
            <= next && (pos <= s.len() ==> next <= s.len()),
    decreases s.len() - pos,
{
    if pos < end {
        parse_property_advances(s, pos);
        if let Parsed::Done { value, next } = parse_property(s, pos) {
            parse_property_run_advances(s, next, end, properties.accept(value));
        }
    }
}

/// A run of properties: a variable-byte length, zero for no property, and
/// properties from there on over that many bytes, all of which have to be
/// there before the first property is read.
pub open spec fn parse_properties(s: Seq<u8>, pos: int) -> Parsed<PropertiesView> {
    match parse_vbi(s, pos) {
        Parsed::Done { value, next } => if value == 0 {
            Parsed::Done { value: PropertiesView::empty(), next }
        } else if s.len() - next < value {
            Parsed::Incomplete
        } else {
            parse_property_run(s, next, next + value, PropertiesView::empty())
        },
        other => other.carry(),
    }
}

/// Properties that were read end behind where they start, and within the
/// bytes.
pub proof fn parse_properties_advances(s: Seq<u8>, pos: int)
    ensures
        parse_properties(s, pos) matches Parsed::Done { next, .. } ==> pos < next <= s.len(),
{
    if let Parsed::Done { value, next } = parse_vbi(s, pos) {
        parse_property_run_advances(s, next, next + value, PropertiesView::empty());
    }
}

/// The bytes of one property: identifier and value.
#[verifier::opaque]
pub open spec fn property_bytes(property: PropertyView) -> Seq<u8> {
    vbi_bytes(property.kind().id()) + property_value_bytes(property)
}

/// The bytes of the value of a property.
pub open spec fn property_value_bytes(property: PropertyView) -> Seq<u8> {
    match property {
        PropertyView::PayloadFormatIndicator(value) => seq![value],
        PropertyView::MessageExpiryInterval(value) => u32_bytes(value),
        PropertyView::ContentType(value) => string_bytes(value),
        PropertyView::ResponseTopic(value) => string_bytes(value),
        PropertyView::CorrelationData(value) => binary_bytes(value),
        PropertyView::SubscriptionIdentifier(value) => vbi_bytes(value),
        PropertyView::SessionExpiryInterval(value) => u32_bytes(value),
        PropertyView::AssignedClientIdentifier(value) => string_bytes(value),
        PropertyView::ServerKeepAlive(value) => u16_bytes(value),
        PropertyView::AuthenticationMethod(value) => string_bytes(value),
        PropertyView::AuthenticationData(value) => binary_bytes(value),
        PropertyView::RequestProblemInformation(value) => seq![value],
        PropertyView::WillDelayInterval(value) => u32_bytes(value),
        PropertyView::RequestResponseInformation(value) => seq![value],
        PropertyView::ResponseInformation(value) => string_bytes(value),
        PropertyView::ServerReference(value) => string_bytes(value),
        PropertyView::ReasonString(value) => string_bytes(value),
        PropertyView::ReceiveMaximum(value) => u16_bytes(value),
        PropertyView::TopicAliasMaximum(value) => u16_bytes(value),
        PropertyView::TopicAlias(value) => u16_bytes(value),
        PropertyView::MaximumQos(value) => seq![value.code()],
        PropertyView::RetainAvailable(value) => seq![value],
        PropertyView::UserProperty(value) => string_bytes(value.0) + string_bytes(value.1),
        PropertyView::MaximumPacketSize(value) => u32_bytes(value),
        PropertyView::WildcardSubscriptionAvailable(value) => seq![value],
        PropertyView::SubscriptionIdentifierAvailable(value) => seq![value],
        PropertyView::SharedSubscriptionAvailable(value) => seq![value],
    }
}

/// Why a property cannot be written, if it cannot.
#[verifier::opaque]
pub open spec fn property_fault(property: PropertyView) -> Option<EncodeError> {
    match property {
        PropertyView::ContentType(value) => string_fault(value),
        PropertyView::ResponseTopic(value) => string_fault(value),
        PropertyView::CorrelationData(value) => binary_fault(value),
        PropertyView::SubscriptionIdentifier(value) => vbi_fault(value),
        PropertyView::AssignedClientIdentifier(value) => string_fault(value),
        PropertyView::AuthenticationMethod(value) => string_fault(value),
        PropertyView::AuthenticationData(value) => binary_fault(value),
        PropertyView::ResponseInformation(value) => string_fault(value),
        PropertyView::ServerReference(value) => string_fault(value),
        PropertyView::ReasonString(value) => string_fault(value),
        PropertyView::UserProperty(value) => first_of(string_fault(value.0), string_fault(value.1)),
        _ => None,
    }
}

/// The property of the given kind that `properties` holds, if it holds one.
/// User properties, of which there may be many, are not had this way.
#[verifier::opaque]
pub open spec fn single(properties: PropertiesView, kind: PropertyType) -> Option<PropertyView> {
    match kind {
        PropertyType::PayloadFormatIndicator => match properties.payload_format_indicator {
            Some(value) => Some(PropertyView::PayloadFormatIndicator(value)),
            None => None,
        },
        PropertyType::MessageExpiryInterval => match properties.message_expiry_interval {
            Some(value) => Some(PropertyView::MessageExpiryInterval(value)),
            None => None,
        },
        PropertyType::ContentType => match properties.content_type {
            Some(value) => Some(PropertyView::ContentType(value)),
            None => None,
        },
        PropertyType::ResponseTopic => match properties.response_topic {
            Some(value) => Some(PropertyView::ResponseTopic(value)),
            None => None,
        },
        PropertyType::CorrelationData => match properties.correlation_data {
            Some(value) => Some(PropertyView::CorrelationData(value)),
            None => None,
        },
        PropertyType::SubscriptionIdentifier => match properties.subscription_identifier {
            Some(value) => Some(PropertyView::SubscriptionIdentifier(value)),
            None => None,
        },
        PropertyType::SessionExpiryInterval => match properties.session_expiry_interval {
            Some(value) => Some(PropertyView::SessionExpiryInterval(value)),
            None => None,
        },
        PropertyType::AssignedClientIdentifier => match properties.assigned_client_identifier {
            Some(value) => Some(PropertyView::AssignedClientIdentifier(value)),
            None => None,
        },
        PropertyType::ServerKeepAlive => match properties.server_keep_alive {
            Some(value) => Some(PropertyView::ServerKeepAlive(value)),
            None => None,
        },
        PropertyType::AuthenticationMethod => match properties.authentication_method {
            Some(value) => Some(PropertyView::AuthenticationMethod(value)),
            None => None,
        },
        PropertyType::AuthenticationData => match properties.authentication_data {
            Some(value) => Some(PropertyView::AuthenticationData(value)),
            None => None,
        },
        PropertyType::RequestProblemInformation => match properties.request_problem_information {
            Some(value) => Some(PropertyView::RequestProblemInformation(value)),
            None => None,
        },
        PropertyType::WillDelayInterval => match properties.will_delay_interval {
            Some(value) => Some(PropertyView::WillDelayInterval(value)),
            None => None,
        },
        PropertyType::RequestResponseInformation => match properties.request_response_information {
            Some(value) => Some(PropertyView::RequestResponseInformation(value)),
            None => None,
        },
        PropertyType::ResponseInformation => match properties.response_information {
            Some(value) => Some(PropertyView::ResponseInformation(value)),
            None => None,
        },
        PropertyType::ServerReference => match properties.server_reference {
            Some(value) => Some(PropertyView::ServerReference(value)),
            None => None,
        },
        PropertyType::ReasonString => match properties.reason_string {
            Some(value) => Some(PropertyView::ReasonString(value)),
            None => None,
        },
        PropertyType::ReceiveMaximum => match properties.receive_maximum {
            Some(value) => Some(PropertyView::ReceiveMaximum(value)),
            None => None,
        },
        PropertyType::TopicAliasMaximum => match properties.topic_alias_maximum {
            Some(value) => Some(PropertyView::TopicAliasMaximum(value)),
            None => None,
        },
        PropertyType::TopicAlias => match properties.topic_alias {
            Some(value) => Some(PropertyView::TopicAlias(value)),
            None => None,
        },
        PropertyType::MaximumQos => match properties.maximum_qos {
            Some(value) => Some(PropertyView::MaximumQos(value)),
            None => None,
        },
        PropertyType::RetainAvailable => match properties.retain_available {
            Some(value) => Some(PropertyView::RetainAvailable(value)),
            None => None,
        },
        PropertyType::UserProperty => None,
        PropertyType::MaximumPacketSize => match properties.maximum_packet_size {
            Some(value) => Some(PropertyView::MaximumPacketSize(value)),
            None => None,
        },
        PropertyType::WildcardSubscriptionAvailable => match properties
            .wildcard_subscription_available {
            Some(value) => Some(PropertyView::WildcardSubscriptionAvailable(value)),
            None => None,
        },
        PropertyType::SubscriptionIdentifierAvailable => match properties
            .subscription_identifier_available {
            Some(value) => Some(PropertyView::SubscriptionIdentifierAvailable(value)),
            None => None,
        },
        PropertyType::SharedSubscriptionAvailable => match properties
            .shared_subscription_available {
            Some(value) => Some(PropertyView::SharedSubscriptionAvailable(value)),
            None => None,
        },
    }
}

/// The bytes of a property that may not be there.
#[verifier::opaque]
pub open spec fn optional_bytes(property: Option<PropertyView>) -> Seq<u8> {
    match property {
        Some(property) => property_bytes(property),
        None => Seq::empty(),
    }
}

/// Why a property that may not be there cannot be written, if it cannot.
#[verifier::opaque]
pub open spec fn optional_fault(property: Option<PropertyView>) -> Option<EncodeError> {
    match property {
        Some(property) => property_fault(property),
        None => None,
    }
}

/// The bytes of user properties, one after the other.
pub open spec fn user_properties_bytes(pairs: Seq<(Seq<char>, Seq<char>)>) -> Seq<u8>
    decreases pairs.len(),
{
    if pairs.len() == 0 {
        Seq::empty()
    } else {
        property_bytes(PropertyView::UserProperty(pairs[0])) + user_properties_bytes(pairs.skip(1))
    }
}

/// The fault of the first user property that cannot be written, if there is one.
pub open spec fn user_properties_fault(pairs: Seq<(Seq<char>, Seq<char>)>) -> Option<EncodeError>
    decreases pairs.len(),
{
    if pairs.len() == 0 {
        None
    } else {
        first_of(
            property_fault(PropertyView::UserProperty(pairs[0])),
            user_properties_fault(pairs.skip(1)),
        )
    }
}

/// The kinds of property that occur at most once, by ascending identifier.
pub open spec fn single_kinds() -> Seq<PropertyType> {
    seq![
        PropertyType::PayloadFormatIndicator,
        PropertyType::MessageExpiryInterval,
        PropertyType::ContentType,
        PropertyType::ResponseTopic,
        PropertyType::CorrelationData,
        PropertyType::SubscriptionIdentifier,
        PropertyType::SessionExpiryInterval,
        PropertyType::AssignedClientIdentifier,
        PropertyType::ServerKeepAlive,
        PropertyType::AuthenticationMethod,
        PropertyType::AuthenticationData,
        PropertyType::RequestProblemInformation,
        PropertyType::WillDelayInterval,
        PropertyType::RequestResponseInformation,
        PropertyType::ResponseInformation,
        PropertyType::ServerReference,
        PropertyType::ReasonString,
        PropertyType::ReceiveMaximum,
        PropertyType::TopicAliasMaximum,
        PropertyType::TopicAlias,
        PropertyType::MaximumQos,
        PropertyType::RetainAvailable,
        PropertyType::MaximumPacketSize,
        PropertyType::WildcardSubscriptionAvailable,
        PropertyType::SubscriptionIdentifierAvailable,
        PropertyType::SharedSubscriptionAvailable,
    ]
}

/// The bytes of the properties of the given kinds, in that order and as far
/// as `properties` holds them.
pub open spec fn singles_bytes(properties: PropertiesView, kinds: Seq<PropertyType>) -> Seq<u8>
    decreases kinds.len(),
{
    if kinds.len() == 0 {
        Seq::empty()
    } else {
        singles_bytes(properties, kinds.drop_last()) + optional_bytes(
            single(properties, kinds.last()),
        )
    }
}

/// The fault of the first property of the given kinds, in that order, that
/// cannot be written, if there is one.
pub open spec fn singles_fault(properties: PropertiesView, kinds: Seq<PropertyType>) -> Option<
    EncodeError,
>
    decreases kinds.len(),
{
    if kinds.len() == 0 {
        None
    } else {
        first_of(
            singles_fault(properties, kinds.drop_last()),
            optional_fault(single(properties, kinds.last())),
        )
    }
}

/// The bytes of all properties: those that occur at most once, in the order
/// of `single_kinds`, then the user properties in their own order.
pub open spec fn properties_body(properties: PropertiesView) -> Seq<u8> {
    singles_bytes(properties, single_kinds()) + user_properties_bytes(properties.user_properties)
}

/// The fault of the first property, in the order of `properties_body`, that
/// cannot be written, if there is one.
pub open spec fn properties_body_fault(properties: PropertiesView) -> Option<EncodeError> {
    first_of(
        singles_fault(properties, single_kinds()),
        user_properties_fault(properties.user_properties),
    )
}


/// The bytes of a run of properties: the length of what follows, then the
/// properties.
#[verifier::opaque]
pub open spec fn properties_bytes(properties: PropertiesView) -> Seq<u8> {
    vbi_bytes(properties_body(properties).len() as u32) + properties_body(properties)
}

/// Why a run of properties cannot be written, if it cannot: for one of the
/// properties, or for their length.
#[verifier::opaque]
pub open spec fn properties_fault(properties: PropertiesView) -> Option<EncodeError> {
    first_of(
        properties_body_fault(properties),
        if properties_body(properties).len() > VBI_MAX {
            Some(EncodeError::PacketTooLarge)
        } else {
            None
        },
    )
}

} // verus!

//! Readers for properties.

use crate::codes::QoS;
use crate::decoder::outcome;
use crate::decoder::primitive::{
    decode_binary_data, decode_string, decode_variable_int, read_u16, read_u32, read_u8,
};
use crate::error::DecodeError;
use crate::properties::{Properties, Property, PropertyType, UserProperty};
use crate::wire::property::{
    parse_properties, parse_property, parse_property_advances, parse_property_of,
    parse_property_run,
};
use vstd::prelude::*;

verus! {

/// Reads the value of the property that `property_id` names.
pub fn decode_property(property_id: u32, bytes: &[u8], pos: usize) -> (r: Result<
    Option<(Property, usize)>,
    DecodeError,
>)
    ensures
        outcome(r) == parse_property_of(property_id, bytes@, pos as int),
{
    let property_type = match PropertyType::from_u32(property_id) {
        Some(property_type) => property_type,
        None => return Err(DecodeError::InvalidPropertyId),
    };
    match property_type {
        PropertyType::PayloadFormatIndicator => {
            let (payload_format_indicator, next) = match read_u8(bytes, pos)? {
                Some(read) => read,
                None => return Ok(None),
            };
            Ok(Some((Property::PayloadFormatIndicator(payload_format_indicator), next)))
        },
        PropertyType::MessageExpiryInterval => {
            let (message_expiry_interval, next) = match read_u32(bytes, pos)? {
                Some(read) => read,
                None => return Ok(None),
            };
            Ok(Some((Property::MessageExpiryInterval(message_expiry_interval), next)))
        },
        PropertyType::ContentType => {
            let (content_type, next) = match decode_string(bytes, pos)? {
                Some(read) => read,
                None => return Ok(None),
            };
            Ok(Some((Property::ContentType(content_type), next)))
        },
        PropertyType::ResponseTopic => {
            let (response_topic, next) = match decode_string(bytes, pos)? {
                Some(read) => read,
                None => return Ok(None),
            };
            Ok(Some((Property::ResponseTopic(response_topic), next)))
        },
        PropertyType::CorrelationData => {
            let (correlation_data, next) = match decode_binary_data(bytes, pos)? {
                Some(read) => read,
                None => return Ok(None),
            };
            Ok(Some((Property::CorrelationData(correlation_data), next)))
        },
        PropertyType::SubscriptionIdentifier => {
            let (subscription_identifier, next) = match decode_variable_int(bytes, pos)? {
                Some(read) => read,
                None => return Ok(None),
            };
            Ok(Some((Property::SubscriptionIdentifier(subscription_identifier), next)))
        },
        PropertyType::SessionExpiryInterval => {
            let (session_expiry_interval, next) = match read_u32(bytes, pos)? {
                Some(read) => read,
                None => return Ok(None),
            };
            Ok(Some((Property::SessionExpiryInterval(session_expiry_interval), next)))
        },
        PropertyType::AssignedClientIdentifier => {
            let (assigned_client_identifier, next) = match decode_string(bytes, pos)? {
                Some(read) => read,
                None => return Ok(None),
            };
            Ok(Some((Property::AssignedClientIdentifier(assigned_client_identifier), next)))
        },
        PropertyType::ServerKeepAlive => {
            let (server_keep_alive, next) = match read_u16(bytes, pos)? {
                Some(read) => read,
                None => return Ok(None),
            };
            Ok(Some((Property::ServerKeepAlive(server_keep_alive), next)))
        },
        PropertyType::AuthenticationMethod => {
            let (authentication_method, next) = match decode_string(bytes, pos)? {
                Some(read) => read,
                None => return Ok(None),
            };
            Ok(Some((Property::AuthenticationMethod(authentication_method), next)))
        },
        PropertyType::AuthenticationData => {
            let (authentication_data, next) = match decode_binary_data(bytes, pos)? {
                Some(read) => read,
                None => return Ok(None),
            };
            Ok(Some((Property::AuthenticationData(authentication_data), next)))
        },
        PropertyType::RequestProblemInformation => {
            let (request_problem_information, next) = match read_u8(bytes, pos)? {
                Some(read) => read,
                None => return Ok(None),
            };
            Ok(Some((Property::RequestProblemInformation(request_problem_information), next)))
        },
        PropertyType::WillDelayInterval => {
            let (will_delay_interval, next) = match read_u32(bytes, pos)? {
                Some(read) => read,
                None => return Ok(None),
            };
            Ok(Some((Property::WillDelayInterval(will_delay_interval), next)))
        },
        PropertyType::RequestResponseInformation => {
            let (request_response_information, next) = match read_u8(bytes, pos)? {
                Some(read) => read,
                None => return Ok(None),
            };
            Ok(Some((Property::RequestResponseInformation(request_response_information), next)))
        },
        PropertyType::ResponseInformation => {
            let (response_information, next) = match decode_string(bytes, pos)? {
                Some(read) => read,
                None => return Ok(None),
            };
            Ok(Some((Property::ResponseInformation(response_information), next)))
        },
        PropertyType::ServerReference => {
            let (server_reference, next) = match decode_string(bytes, pos)? {
                Some(read) => read,
                None => return Ok(None),
            };
            Ok(Some((Property::ServerReference(server_reference), next)))
        },
        PropertyType::ReasonString => {
            let (reason_string, next) = match decode_string(bytes, pos)? {
                Some(read) => read,
                None => return Ok(None),
            };
            Ok(Some((Property::ReasonString(reason_string), next)))
        },
        PropertyType::ReceiveMaximum => {
            let (receive_maximum, next) = match read_u16(bytes, pos)? {
                Some(read) => read,
                None => return Ok(None),
            };
            Ok(Some((Property::ReceiveMaximum(receive_maximum), next)))
        },
        PropertyType::TopicAliasMaximum => {
            let (topic_alias_maximum, next) = match read_u16(bytes, pos)? {
                Some(read) => read,
                None => return Ok(None),
            };
            Ok(Some((Property::TopicAliasMaximum(topic_alias_maximum), next)))
        },
        PropertyType::TopicAlias => {
            let (topic_alias, next) = match read_u16(bytes, pos)? {
                Some(read) => read,
                None => return Ok(None),
            };
            Ok(Some((Property::TopicAlias(topic_alias), next)))
        },
        PropertyType::MaximumQos => {
            let (qos_byte, next) = match read_u8(bytes, pos)? {
                Some(read) => read,
                None => return Ok(None),
            };
            match QoS::from_u8(qos_byte) {
                Some(qos) => Ok(Some((Property::MaximumQos(qos), next))),
                None => Err(DecodeError::InvalidQoS),
            }
        },
        PropertyType::RetainAvailable => {
            let (retain_available, next) = match read_u8(bytes, pos)? {
                Some(read) => read,
                None => return Ok(None),
            };
            Ok(Some((Property::RetainAvailable(retain_available), next)))
        },
        PropertyType::UserProperty => {
            let (key, middle) = match decode_string(bytes, pos)? {
                Some(read) => read,
                None => return Ok(None),
            };
            let (value, next) = match decode_string(bytes, middle)? {
                Some(read) => read,
                None => return Ok(None),
            };
            Ok(Some((Property::UserProperty(UserProperty(key, value)), next)))
        },
        PropertyType::MaximumPacketSize => {
            let (maximum_packet_size, next) = match read_u32(bytes, pos)? {
                Some(read) => read,
                None => return Ok(None),
            };
            Ok(Some((Property::MaximumPacketSize(maximum_packet_size), next)))
        },
        PropertyType::WildcardSubscriptionAvailable => {
            let (wildcard_subscription_available, next) = match read_u8(bytes, pos)? {
                Some(read) => read,
                None => return Ok(None),
            };
            let property = Property::WildcardSubscriptionAvailable(
                wildcard_subscription_available,
            );
            Ok(Some((property, next)))
        },
        PropertyType::SubscriptionIdentifierAvailable => {
            let (subscription_identifier_available, next) = match read_u8(bytes, pos)? {
                Some(read) => read,
                None => return Ok(None),
            };
            let property = Property::SubscriptionIdentifierAvailable(
                subscription_identifier_available,
            );
            Ok(Some((property, next)))
        },
        PropertyType::SharedSubscriptionAvailable => {
            let (shared_subscription_available, next) = match read_u8(bytes, pos)? {
                Some(read) => read,
                None => return Ok(None),
            };
            Ok(Some((Property::SharedSubscriptionAvailable(shared_subscription_available), next)))
        },
    }
}

/// Reads one property: identifier and value.
pub fn read_property(bytes: &[u8], pos: usize) -> (r: Result<
    Option<(Property, usize)>,
    DecodeError,
>)
    ensures
        outcome(r) == parse_property(bytes@, pos as int),
{
    proof {
        reveal(parse_property);
    }
    let (property_id, next) = match decode_variable_int(bytes, pos)? {
        Some(read) => read,
        None => return Ok(None),
    };
    decode_property(property_id, bytes, next)
}

/// Reads a run of properties and gives what they come to.
pub fn decode_properties(bytes: &[u8], pos: usize) -> (r: Result<
    Option<(Properties, usize)>,
    DecodeError,
>)
    ensures
        outcome(r) == parse_properties(bytes@, pos as int),
{
    let (property_length, start) = match decode_variable_int(bytes, pos)? {
        Some(read) => read,
        None => return Ok(None),
    };
    let mut properties = Properties::new();
    if property_length == 0 {
        return Ok(Some((properties, start)));
    }
    if bytes.len() - start < property_length as usize {
        return Ok(None);
    }
    let mut at: usize = start;
    while at - start < property_length as usize
        invariant
            start <= at <= bytes.len(),
            start + property_length <= bytes.len(),
            parse_properties(bytes@, pos as int) == parse_property_run(
                bytes@,
                at as int,
                start + property_length,
                properties.deep_view(),
            ),
        decreases bytes.len() - at,
    {
        proof {
            parse_property_advances(bytes@, at as int);
        }
        let (property, next) = match read_property(bytes, at)? {
            Some(read) => read,
            None => return Ok(None),
        };
        properties.accept(property);
        at = next;
    }
    Ok(Some((properties, at)))
}

} // verus!

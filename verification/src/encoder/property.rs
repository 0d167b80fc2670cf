//! Writers for properties.

use crate::encoder::primitive::{
    encode_binary_data, encode_string, encode_u16, encode_u32, encode_variable_int, put_bytes,
};
use crate::encoder::wrote;
use crate::error::EncodeError;
use crate::properties::{PropertiesView, PropertyRefs, PropertyType, PropertyView, UserProperty};
use crate::wire::primitive::{
    binary_bytes, binary_fault, string_bytes, string_fault, u16_bytes, u32_bytes, vbi_bytes,
    vbi_fault, VBI_MAX,
};
use crate::wire::property::{
    optional_bytes, optional_fault, properties_body, properties_body_fault, properties_bytes,
    properties_fault, property_bytes, property_fault, single, single_kinds, singles_bytes,
    singles_fault, user_properties_bytes, user_properties_fault,
};
use vstd::prelude::*;

verus! {

/// The kind of property that stands at `index` in the order of writing.
pub fn single_kind(index: usize) -> (kind: PropertyType)
    requires
        index < single_kinds().len(),
    ensures
        kind == single_kinds()[index as int],
        single_kinds().len() == 26,
{
    match index {
        0 => PropertyType::PayloadFormatIndicator,
        1 => PropertyType::MessageExpiryInterval,
        2 => PropertyType::ContentType,
        3 => PropertyType::ResponseTopic,
        4 => PropertyType::CorrelationData,
        5 => PropertyType::SubscriptionIdentifier,
        6 => PropertyType::SessionExpiryInterval,
        7 => PropertyType::AssignedClientIdentifier,
        8 => PropertyType::ServerKeepAlive,
        9 => PropertyType::AuthenticationMethod,
        10 => PropertyType::AuthenticationData,
        11 => PropertyType::RequestProblemInformation,
        12 => PropertyType::WillDelayInterval,
        13 => PropertyType::RequestResponseInformation,
        14 => PropertyType::ResponseInformation,
        15 => PropertyType::ServerReference,
        16 => PropertyType::ReasonString,
        17 => PropertyType::ReceiveMaximum,
        18 => PropertyType::TopicAliasMaximum,
        19 => PropertyType::TopicAlias,
        20 => PropertyType::MaximumQos,
        21 => PropertyType::RetainAvailable,
        22 => PropertyType::MaximumPacketSize,
        23 => PropertyType::WildcardSubscriptionAvailable,
        24 => PropertyType::SubscriptionIdentifierAvailable,
        _ => PropertyType::SharedSubscriptionAvailable,
    }
}

/// Writes a property whose value is one byte, if there is one.
fn encode_byte_property(kind: PropertyType, value: Option<u8>, out: &mut Vec<u8>)
    requires
        kind.id() < 128,
    ensures
        final(out)@ == old(out)@ + (match value {
            Some(value) => vbi_bytes(kind.id()) + seq![value],
            None => Seq::empty(),
        }),
{
    if let Some(value) = value {
        out.push(kind.to_u32() as u8);
        out.push(value);
        assert(out@ =~= old(out)@ + (vbi_bytes(kind.id()) + seq![value]));
    } else {
        assert(out@ =~= old(out)@ + Seq::<u8>::empty());
    }
}

/// Writes a property whose value is a two-byte integer, if there is one.
fn encode_u16_property(kind: PropertyType, value: Option<u16>, out: &mut Vec<u8>)
    requires
        kind.id() < 128,
    ensures
        final(out)@ == old(out)@ + (match value {
            Some(value) => vbi_bytes(kind.id()) + u16_bytes(value),
            None => Seq::empty(),
        }),
{
    if let Some(value) = value {
        out.push(kind.to_u32() as u8);
        encode_u16(value, out);
        assert(out@ =~= old(out)@ + (vbi_bytes(kind.id()) + u16_bytes(value)));
    } else {
        assert(out@ =~= old(out)@ + Seq::<u8>::empty());
    }
}

/// Writes a property whose value is a four-byte integer, if there is one.
fn encode_u32_property(kind: PropertyType, value: Option<u32>, out: &mut Vec<u8>)
    requires
        kind.id() < 128,
    ensures
        final(out)@ == old(out)@ + (match value {
            Some(value) => vbi_bytes(kind.id()) + u32_bytes(value),
            None => Seq::empty(),
        }),
{
    if let Some(value) = value {
        out.push(kind.to_u32() as u8);
        encode_u32(value, out);
        assert(out@ =~= old(out)@ + (vbi_bytes(kind.id()) + u32_bytes(value)));
    } else {
        assert(out@ =~= old(out)@ + Seq::<u8>::empty());
    }
}

/// Writes a property whose value is a variable-byte integer, if there is one.
fn encode_vbi_property(kind: PropertyType, value: Option<u32>, out: &mut Vec<u8>) -> (r: Result<
    (),
    EncodeError,
>)
    requires
        kind.id() < 128,
    ensures
        wrote(
            r,
            old(out)@,
            final(out)@,
            match value {
                Some(value) => vbi_fault(value),
                None => None,
            },
            match value {
                Some(value) => vbi_bytes(kind.id()) + vbi_bytes(value),
                None => Seq::empty(),
            },
        ),
{
    if let Some(value) = value {
        out.push(kind.to_u32() as u8);
        encode_variable_int(value, out)?;
        assert(out@ =~= old(out)@ + (vbi_bytes(kind.id()) + vbi_bytes(value)));
    } else {
        assert(out@ =~= old(out)@ + Seq::<u8>::empty());
    }
    Ok(())
}

/// Writes a property whose value is a string, if there is one.
fn encode_text_property(kind: PropertyType, value: Option<&String>, out: &mut Vec<u8>) -> (r:
    Result<(), EncodeError>)
    requires
        kind.id() < 128,
    ensures
        wrote(
            r,
            old(out)@,
            final(out)@,
            match value {
                Some(value) => string_fault(value@),
                None => None,
            },
            match value {
                Some(value) => vbi_bytes(kind.id()) + string_bytes(value@),
                None => Seq::empty(),
            },
        ),
{
    if let Some(value) = value {
        out.push(kind.to_u32() as u8);
        encode_string(value.as_str(), out)?;
        assert(out@ =~= old(out)@ + (vbi_bytes(kind.id()) + string_bytes(value@)));
    } else {
        assert(out@ =~= old(out)@ + Seq::<u8>::empty());
    }
    Ok(())
}

/// Writes a property whose value is binary data, if there is one.
fn encode_binary_property(kind: PropertyType, value: Option<&Vec<u8>>, out: &mut Vec<u8>) -> (r:
    Result<(), EncodeError>)
    requires
        kind.id() < 128,
    ensures
        wrote(
            r,
            old(out)@,
            final(out)@,
            match value {
                Some(value) => binary_fault(value@),
                None => None,
            },
            match value {
                Some(value) => vbi_bytes(kind.id()) + binary_bytes(value@),
                None => Seq::empty(),
            },
        ),
{
    if let Some(value) = value {
        out.push(kind.to_u32() as u8);
        encode_binary_data(value.as_slice(), out)?;
        assert(out@ =~= old(out)@ + (vbi_bytes(kind.id()) + binary_bytes(value@)));
    } else {
        assert(out@ =~= old(out)@ + Seq::<u8>::empty());
    }
    Ok(())
}

/// A vector of bytes on loan is its own model.
proof fn borrowed_bytes_deep_view(data: Option<&Vec<u8>>)
    ensures
        data matches Some(data) ==> data.deep_view() == data@,
{
    if let Some(data) = data {
        assert(data.deep_view() =~= data@);
    }
}

/// Writes the property of the given kind, if `properties` hold one.
pub fn encode_single(properties: &PropertyRefs, kind: PropertyType, out: &mut Vec<u8>) -> (r:
    Result<(), EncodeError>)
    ensures
        wrote(
            r,
            old(out)@,
            final(out)@,
            optional_fault(single(properties.deep_view(), kind)),
            optional_bytes(single(properties.deep_view(), kind)),
        ),
{
    proof {
        reveal(single);
        reveal(optional_bytes);
        reveal(optional_fault);
        reveal(property_bytes);
        reveal(property_fault);
        borrowed_bytes_deep_view(properties.correlation_data);
        borrowed_bytes_deep_view(properties.authentication_data);
    }
    match kind {
        PropertyType::PayloadFormatIndicator => {
            encode_byte_property(kind, properties.payload_format_indicator, out);
            Ok(())
        },
        PropertyType::MessageExpiryInterval => {
            encode_u32_property(kind, properties.message_expiry_interval, out);
            Ok(())
        },
        PropertyType::ContentType => encode_text_property(kind, properties.content_type, out),
        PropertyType::ResponseTopic => encode_text_property(kind, properties.response_topic, out),
        PropertyType::CorrelationData => encode_binary_property(
            kind,
            properties.correlation_data,
            out,
        ),
        PropertyType::SubscriptionIdentifier => encode_vbi_property(
            kind,
            properties.subscription_identifier,
            out,
        ),
        PropertyType::SessionExpiryInterval => {
            encode_u32_property(kind, properties.session_expiry_interval, out);
            Ok(())
        },
        PropertyType::AssignedClientIdentifier => encode_text_property(
            kind,
            properties.assigned_client_identifier,
            out,
        ),
        PropertyType::ServerKeepAlive => {
            encode_u16_property(kind, properties.server_keep_alive, out);
            Ok(())
        },
        PropertyType::AuthenticationMethod => encode_text_property(
            kind,
            properties.authentication_method,
            out,
        ),
        PropertyType::AuthenticationData => encode_binary_property(
            kind,
            properties.authentication_data,
            out,
        ),
        PropertyType::RequestProblemInformation => {
            encode_byte_property(kind, properties.request_problem_information, out);
            Ok(())
        },
        PropertyType::WillDelayInterval => {
            encode_u32_property(kind, properties.will_delay_interval, out);
            Ok(())
        },
        PropertyType::RequestResponseInformation => {
            encode_byte_property(kind, properties.request_response_information, out);
            Ok(())
        },
        PropertyType::ResponseInformation => encode_text_property(
            kind,
            properties.response_information,
            out,
        ),
        PropertyType::ServerReference => encode_text_property(
            kind,
            properties.server_reference,
            out,
        ),
        PropertyType::ReasonString => encode_text_property(kind, properties.reason_string, out),
        PropertyType::ReceiveMaximum => {
            encode_u16_property(kind, properties.receive_maximum, out);
            Ok(())
        },
        PropertyType::TopicAliasMaximum => {
            encode_u16_property(kind, properties.topic_alias_maximum, out);
            Ok(())
        },
        PropertyType::TopicAlias => {
            encode_u16_property(kind, properties.topic_alias, out);
            Ok(())
        },
        PropertyType::MaximumQos => {
            let value = match properties.maximum_qos {
                Some(qos) => Some(qos.to_u8()),
                None => None,
            };
            encode_byte_property(kind, value, out);
            Ok(())
        },
        PropertyType::RetainAvailable => {
            encode_byte_property(kind, properties.retain_available, out);
            Ok(())
        },
        PropertyType::MaximumPacketSize => {
            encode_u32_property(kind, properties.maximum_packet_size, out);
            Ok(())
        },
        PropertyType::WildcardSubscriptionAvailable => {
            encode_byte_property(kind, properties.wildcard_subscription_available, out);
            Ok(())
        },
        PropertyType::SubscriptionIdentifierAvailable => {
            encode_byte_property(kind, properties.subscription_identifier_available, out);
            Ok(())
        },
        PropertyType::SharedSubscriptionAvailable => {
            encode_byte_property(kind, properties.shared_subscription_available, out);
            Ok(())
        },
        PropertyType::UserProperty => {
            assert(out@ =~= old(out)@ + Seq::<u8>::empty());
            Ok(())
        },
    }
}

/// Writes one user property.
pub fn encode_user_property(pair: &UserProperty, out: &mut Vec<u8>) -> (r: Result<(), EncodeError>)
    ensures
        wrote(
            r,
            old(out)@,
            final(out)@,
            property_fault(PropertyView::UserProperty(pair.deep_view())),
            property_bytes(PropertyView::UserProperty(pair.deep_view())),
        ),
{
    proof {
        reveal(property_bytes);
        reveal(property_fault);
    }
    out.push(38);
    encode_string(pair.0.as_str(), out)?;
    encode_string(pair.1.as_str(), out)?;
    assert(out@ =~= old(out)@ + property_bytes(PropertyView::UserProperty(pair.deep_view())));
    Ok(())
}

/// Writes user properties one after the other.
pub fn encode_user_properties(pairs: &Vec<UserProperty>, out: &mut Vec<u8>) -> (r: Result<
    (),
    EncodeError,
>)
    ensures
        wrote(
            r,
            old(out)@,
            final(out)@,
            user_properties_fault(pairs.deep_view()),
            user_properties_bytes(pairs.deep_view()),
        ),
{
    let ghost all = pairs.deep_view();
    let ghost mut rest_bytes = user_properties_bytes(all);
    let ghost mut done: Seq<u8> = Seq::empty();
    let mut at: usize = 0;
    assert(all.skip(0) =~= all);
    assert(out@ =~= old(out)@ + done);
    assert(done + rest_bytes =~= user_properties_bytes(all));
    while at < pairs.len()
        invariant
            at <= pairs.len(),
            all == pairs.deep_view(),
            user_properties_fault(all) == user_properties_fault(all.skip(at as int)),
            rest_bytes == user_properties_bytes(all.skip(at as int)),
            done + rest_bytes == user_properties_bytes(all),
            out@ == old(out)@ + done,
        decreases pairs.len() - at,
    {
        let r = encode_user_property(&pairs[at], out);
        proof {
            let rest = all.skip(at as int);
            let first = property_bytes(PropertyView::UserProperty(rest[0]));
            assert(rest[0] == pairs[at as int].deep_view());
            assert(rest.skip(1) =~= all.skip(at + 1));
            if r is Ok {
                let next_rest = user_properties_bytes(all.skip(at + 1));
                assert(rest_bytes == first + next_rest);
                assert((done + first) + next_rest =~= done + rest_bytes);
                assert(out@ =~= old(out)@ + (done + first));
                done = done + first;
                rest_bytes = next_rest;
            }
        }
        if let Err(error) = r {
            return Err(error);
        }
        at = at + 1;
    }
    assert(done =~= user_properties_bytes(all));
    Ok(())
}

/// A fault among the first kinds is the fault of them all.
pub proof fn singles_fault_sticks(
    properties: PropertiesView,
    kinds: Seq<PropertyType>,
    count: int,
)
    requires
        0 <= count <= kinds.len(),
        singles_fault(properties, kinds.take(count)) is Some,
    ensures
        singles_fault(properties, kinds) == singles_fault(properties, kinds.take(count)),
    decreases kinds.len(),
{
    if count == kinds.len() {
        assert(kinds.take(count) =~= kinds);
    } else {
        assert(kinds.drop_last().take(count) =~= kinds.take(count));
        singles_fault_sticks(properties, kinds.drop_last(), count);
    }
}

/// Writes all properties, without their length.
pub fn encode_properties_body(properties: &PropertyRefs, out: &mut Vec<u8>) -> (r: Result<
    (),
    EncodeError,
>)
    ensures
        wrote(
            r,
            old(out)@,
            final(out)@,
            properties_body_fault(properties.deep_view()),
            properties_body(properties.deep_view()),
        ),
{
    let ghost bag = properties.deep_view();
    let ghost kinds = single_kinds();
    let mut index: usize = 0;
    assert(kinds.take(0) =~= Seq::<PropertyType>::empty());
    assert(out@ =~= old(out)@ + Seq::<u8>::empty());
    while index < 26
        invariant
            index <= 26,
            kinds == single_kinds(),
            kinds.len() == 26,
            bag == properties.deep_view(),
            singles_fault(bag, kinds.take(index as int)) is None,
            out@ == old(out)@ + singles_bytes(bag, kinds.take(index as int)),
        decreases 26 - index,
    {
        let kind = single_kind(index);
        let r = encode_single(properties, kind, out);
        proof {
            let next = kinds.take(index + 1);
            assert(next.drop_last() =~= kinds.take(index as int));
            assert(next.last() == kind);
            if r is Ok {
                assert(out@ =~= old(out)@ + singles_bytes(bag, next));
            } else {
                singles_fault_sticks(bag, kinds, index + 1);
            }
        }
        if let Err(error) = r {
            return Err(error);
        }
        index = index + 1;
    }
    assert(kinds.take(26) =~= kinds);
    match properties.user_properties {
        Some(pairs) => {
            encode_user_properties(pairs, out)?;
            assert(out@ =~= old(out)@ + properties_body(bag));
        },
        None => {
            assert(out@ =~= old(out)@ + properties_body(bag));
        },
    }
    Ok(())
}

/// Writes a run of properties: the length of what follows, then the
/// properties.
pub fn encode_properties(properties: &PropertyRefs, out: &mut Vec<u8>) -> (r: Result<
    (),
    EncodeError,
>)
    ensures
        wrote(
            r,
            old(out)@,
            final(out)@,
            properties_fault(properties.deep_view()),
            properties_bytes(properties.deep_view()),
        ),
{
    proof {
        reveal(properties_bytes);
        reveal(properties_fault);
    }
    let mut body: Vec<u8> = Vec::new();
    encode_properties_body(properties, &mut body)?;
    assert(body@ =~= properties_body(properties.deep_view()));
    if body.len() > VBI_MAX as usize {
        return Err(EncodeError::PacketTooLarge);
    }
    encode_variable_int(body.len() as u32, out)?;
    put_bytes(body.as_slice(), out);
    assert(out@ =~= old(out)@ + properties_bytes(properties.deep_view()));
    Ok(())
}

} // verus!

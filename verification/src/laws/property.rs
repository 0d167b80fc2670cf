//! Properties read back from their bytes.

use crate::codes::QoS;
use crate::laws::primitive::{
    binary_reads_back, holds_at, holds_at_split, holds_at_within, string_reads_back, u16_reads_back,
    u32_reads_back, u8_reads_back, vbi_reads_back,
};
use crate::properties::{PropertiesView, PropertyType, PropertyView};
use crate::wire::primitive::{string_bytes, vbi_bytes, Parsed};
use crate::wire::property::{
    optional_bytes, optional_fault, parse_properties, parse_property, parse_property_run,
    parse_property_value, properties_body, properties_body_fault, properties_bytes,
    properties_fault, property_bytes, property_fault, property_value_bytes, single, single_kinds,
    singles_bytes, singles_fault, user_properties_bytes, user_properties_fault,
};
use vstd::prelude::*;

verus! {

/// These properties and one more that may not be there.
#[verifier::opaque]
pub open spec fn accept_optional(
    properties: PropertiesView,
    property: Option<PropertyView>,
) -> PropertiesView {
    match property {
        Some(property) => properties.accept(property),
        None => properties,
    }
}

/// A property takes at least one byte: its identifier is one byte long.
pub proof fn property_bytes_start_with_id(property: PropertyView)
    ensures
        vbi_bytes(property.kind().id()) == seq![property.kind().id() as u8],
        property_bytes(property).len() == 1 + property_value_bytes(property).len(),
        property_bytes(property) == vbi_bytes(property.kind().id()) + property_value_bytes(
            property,
        ),
{
    reveal(property_bytes);
}

/// How the value of a property is written.
pub enum PayloadForm {
    Byte,
    TwoByteInteger,
    FourByteInteger,
    VariableByteInteger,
    Text,
    Binary,
    TextPair,
}

/// How the value of a property of the given kind is written.
pub open spec fn payload_form(kind: PropertyType) -> PayloadForm {
    match kind {
        PropertyType::PayloadFormatIndicator => PayloadForm::Byte,
        PropertyType::MessageExpiryInterval => PayloadForm::FourByteInteger,
        PropertyType::ContentType => PayloadForm::Text,
        PropertyType::ResponseTopic => PayloadForm::Text,
        PropertyType::CorrelationData => PayloadForm::Binary,
        PropertyType::SubscriptionIdentifier => PayloadForm::VariableByteInteger,
        PropertyType::SessionExpiryInterval => PayloadForm::FourByteInteger,
        PropertyType::AssignedClientIdentifier => PayloadForm::Text,
        PropertyType::ServerKeepAlive => PayloadForm::TwoByteInteger,
        PropertyType::AuthenticationMethod => PayloadForm::Text,
        PropertyType::AuthenticationData => PayloadForm::Binary,
        PropertyType::RequestProblemInformation => PayloadForm::Byte,
        PropertyType::WillDelayInterval => PayloadForm::FourByteInteger,
        PropertyType::RequestResponseInformation => PayloadForm::Byte,
        PropertyType::ResponseInformation => PayloadForm::Text,
        PropertyType::ServerReference => PayloadForm::Text,
        PropertyType::ReasonString => PayloadForm::Text,
        PropertyType::ReceiveMaximum => PayloadForm::TwoByteInteger,
        PropertyType::TopicAliasMaximum => PayloadForm::TwoByteInteger,
        PropertyType::TopicAlias => PayloadForm::TwoByteInteger,
        PropertyType::MaximumQos => PayloadForm::Byte,
        PropertyType::RetainAvailable => PayloadForm::Byte,
        PropertyType::UserProperty => PayloadForm::TextPair,
        PropertyType::MaximumPacketSize => PayloadForm::FourByteInteger,
        PropertyType::WildcardSubscriptionAvailable => PayloadForm::Byte,
        PropertyType::SubscriptionIdentifierAvailable => PayloadForm::Byte,
        PropertyType::SharedSubscriptionAvailable => PayloadForm::Byte,
    }
}

/// The value of a property that is one byte reads back.
pub proof fn byte_value_reads_back(s: Seq<u8>, pos: int, property: PropertyView)
    requires
        payload_form(property.kind()) == PayloadForm::Byte,
        property_fault(property) is None,
        holds_at(s, pos, property_value_bytes(property)),
    ensures
        parse_property_value(property.kind(), s, pos) == (Parsed::Done {
            value: property,
            next: pos + property_value_bytes(property).len(),
        }),
{
    reveal(property_fault);
    match property {
        PropertyView::PayloadFormatIndicator(value) => {
            u8_reads_back(s, pos, value);
        },
        PropertyView::RequestProblemInformation(value) => {
            u8_reads_back(s, pos, value);
        },
        PropertyView::RequestResponseInformation(value) => {
            u8_reads_back(s, pos, value);
        },
        PropertyView::MaximumQos(value) => {
            u8_reads_back(s, pos, value.code());
            QoS::code_is_invertible(value, value.code());
        },
        PropertyView::RetainAvailable(value) => {
            u8_reads_back(s, pos, value);
        },
        PropertyView::WildcardSubscriptionAvailable(value) => {
            u8_reads_back(s, pos, value);
        },
        PropertyView::SubscriptionIdentifierAvailable(value) => {
            u8_reads_back(s, pos, value);
        },
        PropertyView::SharedSubscriptionAvailable(value) => {
            u8_reads_back(s, pos, value);
        },
        _ => {},
    }
}

/// The value of a property that is a two-byte integer reads back.
pub proof fn two_byte_value_reads_back(s: Seq<u8>, pos: int, property: PropertyView)
    requires
        payload_form(property.kind()) == PayloadForm::TwoByteInteger,
        property_fault(property) is None,
        holds_at(s, pos, property_value_bytes(property)),
    ensures
        parse_property_value(property.kind(), s, pos) == (Parsed::Done {
            value: property,
            next: pos + property_value_bytes(property).len(),
        }),
{
    reveal(property_fault);
    match property {
        PropertyView::ServerKeepAlive(value) => {
            u16_reads_back(s, pos, value);
        },
        PropertyView::ReceiveMaximum(value) => {
            u16_reads_back(s, pos, value);
        },
        PropertyView::TopicAliasMaximum(value) => {
            u16_reads_back(s, pos, value);
        },
        PropertyView::TopicAlias(value) => {
            u16_reads_back(s, pos, value);
        },
        _ => {},
    }
}

/// The value of a property that is a four-byte integer reads back.
pub proof fn four_byte_value_reads_back(s: Seq<u8>, pos: int, property: PropertyView)
    requires
        payload_form(property.kind()) == PayloadForm::FourByteInteger,
        property_fault(property) is None,
        holds_at(s, pos, property_value_bytes(property)),
    ensures
        parse_property_value(property.kind(), s, pos) == (Parsed::Done {
            value: property,
            next: pos + property_value_bytes(property).len(),
        }),
{
    reveal(property_fault);
    match property {
        PropertyView::MessageExpiryInterval(value) => {
            u32_reads_back(s, pos, value);
        },
        PropertyView::SessionExpiryInterval(value) => {
            u32_reads_back(s, pos, value);
        },
        PropertyView::WillDelayInterval(value) => {
            u32_reads_back(s, pos, value);
        },
        PropertyView::MaximumPacketSize(value) => {
            u32_reads_back(s, pos, value);
        },
        _ => {},
    }
}

/// The value of a property that is a variable-byte integer reads back.
pub proof fn variable_byte_value_reads_back(s: Seq<u8>, pos: int, property: PropertyView)
    requires
        payload_form(property.kind()) == PayloadForm::VariableByteInteger,
        property_fault(property) is None,
        holds_at(s, pos, property_value_bytes(property)),
    ensures
        parse_property_value(property.kind(), s, pos) == (Parsed::Done {
            value: property,
            next: pos + property_value_bytes(property).len(),
        }),
{
    reveal(property_fault);
    match property {
        PropertyView::SubscriptionIdentifier(value) => {
            vbi_reads_back(s, pos, value);
        },
        _ => {},
    }
}

/// The value of a property that is a string reads back.
pub proof fn text_value_reads_back(s: Seq<u8>, pos: int, property: PropertyView)
    requires
        payload_form(property.kind()) == PayloadForm::Text,
        property_fault(property) is None,
        holds_at(s, pos, property_value_bytes(property)),
    ensures
        parse_property_value(property.kind(), s, pos) == (Parsed::Done {
            value: property,
            next: pos + property_value_bytes(property).len(),
        }),
{
    reveal(property_fault);
    match property {
        PropertyView::ContentType(value) => {
            string_reads_back(s, pos, value);
        },
        PropertyView::ResponseTopic(value) => {
            string_reads_back(s, pos, value);
        },
        PropertyView::AssignedClientIdentifier(value) => {
            string_reads_back(s, pos, value);
        },
        PropertyView::AuthenticationMethod(value) => {
            string_reads_back(s, pos, value);
        },
        PropertyView::ResponseInformation(value) => {
            string_reads_back(s, pos, value);
        },
        PropertyView::ServerReference(value) => {
            string_reads_back(s, pos, value);
        },
        PropertyView::ReasonString(value) => {
            string_reads_back(s, pos, value);
        },
        _ => {},
    }
}

/// The value of a property that is binary data reads back.
pub proof fn binary_value_reads_back(s: Seq<u8>, pos: int, property: PropertyView)
    requires
        payload_form(property.kind()) == PayloadForm::Binary,
        property_fault(property) is None,
        holds_at(s, pos, property_value_bytes(property)),
    ensures
        parse_property_value(property.kind(), s, pos) == (Parsed::Done {
            value: property,
            next: pos + property_value_bytes(property).len(),
        }),
{
    reveal(property_fault);
    match property {
        PropertyView::CorrelationData(value) => {
            binary_reads_back(s, pos, value);
        },
        PropertyView::AuthenticationData(value) => {
            binary_reads_back(s, pos, value);
        },
        _ => {},
    }
}

/// The value of a user property reads back.
pub proof fn text_pair_value_reads_back(s: Seq<u8>, pos: int, property: PropertyView)
    requires
        payload_form(property.kind()) == PayloadForm::TextPair,
        property_fault(property) is None,
        holds_at(s, pos, property_value_bytes(property)),
    ensures
        parse_property_value(property.kind(), s, pos) == (Parsed::Done {
            value: property,
            next: pos + property_value_bytes(property).len(),
        }),
{
    reveal(property_fault);
    match property {
        PropertyView::UserProperty(value) => {
            holds_at_split(s, pos, string_bytes(value.0), string_bytes(value.1));
            string_reads_back(s, pos, value.0);
            string_reads_back(s, pos + string_bytes(value.0).len(), value.1);
        },
        _ => {},
    }
}

/// The value of a property that can be written reads back from its bytes.
pub proof fn property_value_reads_back(s: Seq<u8>, pos: int, property: PropertyView)
    requires
        property_fault(property) is None,
        holds_at(s, pos, property_value_bytes(property)),
    ensures
        parse_property_value(property.kind(), s, pos) == (Parsed::Done {
            value: property,
            next: pos + property_value_bytes(property).len(),
        }),
{
    match payload_form(property.kind()) {
        PayloadForm::Byte => byte_value_reads_back(s, pos, property),
        PayloadForm::TwoByteInteger => two_byte_value_reads_back(s, pos, property),
        PayloadForm::FourByteInteger => four_byte_value_reads_back(s, pos, property),
        PayloadForm::VariableByteInteger => variable_byte_value_reads_back(s, pos, property),
        PayloadForm::Text => text_value_reads_back(s, pos, property),
        PayloadForm::Binary => binary_value_reads_back(s, pos, property),
        PayloadForm::TextPair => text_pair_value_reads_back(s, pos, property),
    }
}

/// A property that can be written reads back from its bytes.
pub proof fn property_reads_back(s: Seq<u8>, pos: int, property: PropertyView)
    requires
        property_fault(property) is None,
        holds_at(s, pos, property_bytes(property)),
    ensures
        parse_property(s, pos) == (Parsed::Done {
            value: property,
            next: pos + property_bytes(property).len(),
        }),
{
    reveal(parse_property);
    let id = property.kind().id();
    property_bytes_start_with_id(property);
    holds_at_split(s, pos, vbi_bytes(id), property_value_bytes(property));
    vbi_reads_back(s, pos, id);
    PropertyType::id_is_invertible(property.kind(), id);
    property_value_reads_back(s, pos + 1, property);
}

/// A property that may not be there is taken in by a run that starts at its
/// bytes.
pub proof fn optional_reads_back(
    s: Seq<u8>,
    pos: int,
    end: int,
    properties: PropertiesView,
    property: Option<PropertyView>,
)
    requires
        optional_fault(property) is None,
        holds_at(s, pos, optional_bytes(property)),
        pos + optional_bytes(property).len() <= end,
    ensures
        parse_property_run(s, pos, end, properties) == parse_property_run(
            s,
            pos + optional_bytes(property).len(),
            end,
            accept_optional(properties, property),
        ),
{
    reveal(optional_bytes);
    reveal(optional_fault);
    reveal(accept_optional);
    if let Some(property) = property {
        property_bytes_start_with_id(property);
        property_reads_back(s, pos, property);
    }
}

/// User properties are taken in, in their order, by a run that covers their
/// bytes.
pub proof fn user_properties_read_back(
    s: Seq<u8>,
    pos: int,
    properties: PropertiesView,
    pairs: Seq<(Seq<char>, Seq<char>)>,
)
    requires
        user_properties_fault(pairs) is None,
        holds_at(s, pos, user_properties_bytes(pairs)),
    ensures
        parse_property_run(s, pos, pos + user_properties_bytes(pairs).len(), properties) == (
        Parsed::Done {
            value: PropertiesView {
                user_properties: properties.user_properties + pairs,
                ..properties
            },
            next: pos + user_properties_bytes(pairs).len(),
        }),
    decreases pairs.len(),
{
    let end = pos + user_properties_bytes(pairs).len();
    if pairs.len() == 0 {
        assert(properties.user_properties + pairs =~= properties.user_properties);
    } else {
        let first = PropertyView::UserProperty(pairs[0]);
        let rest = pairs.skip(1);
        holds_at_split(s, pos, property_bytes(first), user_properties_bytes(rest));
        property_bytes_start_with_id(first);
        property_reads_back(s, pos, first);
        user_properties_read_back(
            s,
            pos + property_bytes(first).len(),
            properties.accept(first),
            rest,
        );
        assert(properties.user_properties.push(pairs[0]) + rest =~= properties.user_properties
            + pairs);
    }
}

/// What taking in the properties of the given kinds, in that order, comes to.
pub open spec fn singles_taken(
    taken: PropertiesView,
    properties: PropertiesView,
    kinds: Seq<PropertyType>,
) -> PropertiesView
    decreases kinds.len(),
{
    if kinds.len() == 0 {
        taken
    } else {
        accept_optional(
            singles_taken(taken, properties, kinds.drop_last()),
            single(properties, kinds.last()),
        )
    }
}

/// The properties of the given kinds are taken in by a run that starts at
/// their bytes.
pub proof fn singles_read_back(
    s: Seq<u8>,
    pos: int,
    end: int,
    taken: PropertiesView,
    properties: PropertiesView,
    kinds: Seq<PropertyType>,
)
    requires
        singles_fault(properties, kinds) is None,
        holds_at(s, pos, singles_bytes(properties, kinds)),
        pos + singles_bytes(properties, kinds).len() <= end,
    ensures
        parse_property_run(s, pos, end, taken) == parse_property_run(
            s,
            pos + singles_bytes(properties, kinds).len(),
            end,
            singles_taken(taken, properties, kinds),
        ),
    decreases kinds.len(),
{
    if kinds.len() > 0 {
        let before = singles_bytes(properties, kinds.drop_last());
        let last = single(properties, kinds.last());
        holds_at_split(s, pos, before, optional_bytes(last));
        singles_read_back(s, pos, end, taken, properties, kinds.drop_last());
        optional_reads_back(
            s,
            pos + before.len(),
            end,
            singles_taken(taken, properties, kinds.drop_last()),
            last,
        );
    }
}

/// The second value if there is one, else the first.
pub open spec fn later(first: Option<PropertyView>, second: Option<PropertyView>) -> Option<
    PropertyView,
> {
    if second is Some {
        second
    } else {
        first
    }
}

/// Taking in the property of one kind changes the property of that kind and
/// of no other, and no user property.
pub proof fn single_after_take(
    taken: PropertiesView,
    properties: PropertiesView,
    kind: PropertyType,
    other: PropertyType,
)
    ensures
        single(accept_optional(taken, single(properties, kind)), other) == if other == kind {
            later(single(taken, kind), single(properties, kind))
        } else {
            single(taken, other)
        },
        accept_optional(taken, single(properties, kind)).user_properties
            == taken.user_properties,
{
    reveal(accept_optional);
    reveal(single);
}

/// Taking in the properties of some kinds changes the properties of those
/// kinds and of no other, and no user property.
pub proof fn single_after_takes(
    taken: PropertiesView,
    properties: PropertiesView,
    kinds: Seq<PropertyType>,
    other: PropertyType,
)
    ensures
        single(singles_taken(taken, properties, kinds), other) == if kinds.contains(other) {
            later(single(taken, other), single(properties, other))
        } else {
            single(taken, other)
        },
        singles_taken(taken, properties, kinds).user_properties == taken.user_properties,
    decreases kinds.len(),
{
    if kinds.len() > 0 {
        let before = kinds.drop_last();
        single_after_takes(taken, properties, before, other);
        let so_far = singles_taken(taken, properties, before);
        single_after_take(so_far, properties, kinds.last(), other);
        single_after_takes(taken, properties, before, kinds.last());
        if before.contains(other) {
            let i = choose|i: int| 0 <= i < before.len() && before[i] == other;
            assert(kinds[i] == other);
        }
        if kinds.contains(other) && other != kinds.last() {
            let i = choose|i: int| 0 <= i < kinds.len() && kinds[i] == other;
            assert(before[i] == other);
        }
        assert(kinds[kinds.len() - 1] == kinds.last());
    }
}

/// What holds of every kind holds of one.
proof fn same_single(first: PropertiesView, second: PropertiesView, kind: PropertyType)
    requires
        forall|kind: PropertyType| single(first, kind) == single(second, kind),
    ensures
        single(first, kind) == single(second, kind),
{
}

/// Properties are the same where they hold the same property of every kind
/// and the same user properties.
pub proof fn singles_determine(first: PropertiesView, second: PropertiesView)
    requires
        forall|kind: PropertyType| single(first, kind) == single(second, kind),
        first.user_properties == second.user_properties,
    ensures
        first == second,
{
    reveal(single);
    same_single(first, second, PropertyType::PayloadFormatIndicator);
    same_single(first, second, PropertyType::MessageExpiryInterval);
    same_single(first, second, PropertyType::ContentType);
    same_single(first, second, PropertyType::ResponseTopic);
    same_single(first, second, PropertyType::CorrelationData);
    same_single(first, second, PropertyType::SubscriptionIdentifier);
    same_single(first, second, PropertyType::SessionExpiryInterval);
    same_single(first, second, PropertyType::AssignedClientIdentifier);
    same_single(first, second, PropertyType::ServerKeepAlive);
    same_single(first, second, PropertyType::AuthenticationMethod);
    same_single(first, second, PropertyType::AuthenticationData);
    same_single(first, second, PropertyType::RequestProblemInformation);
    same_single(first, second, PropertyType::WillDelayInterval);
    same_single(first, second, PropertyType::RequestResponseInformation);
    same_single(first, second, PropertyType::ResponseInformation);
    same_single(first, second, PropertyType::ServerReference);
    same_single(first, second, PropertyType::ReasonString);
    same_single(first, second, PropertyType::ReceiveMaximum);
    same_single(first, second, PropertyType::TopicAliasMaximum);
    same_single(first, second, PropertyType::TopicAlias);
    same_single(first, second, PropertyType::MaximumQos);
    same_single(first, second, PropertyType::RetainAvailable);
    same_single(first, second, PropertyType::MaximumPacketSize);
    same_single(first, second, PropertyType::WildcardSubscriptionAvailable);
    same_single(first, second, PropertyType::SubscriptionIdentifierAvailable);
    same_single(first, second, PropertyType::SharedSubscriptionAvailable);
}

/// `single_kinds` lists every kind but the user property.
pub proof fn single_kinds_are_all(kind: PropertyType)
    ensures
        single_kinds().contains(kind) <==> kind != PropertyType::UserProperty,
{
    let kinds = single_kinds();
    match kind {
        PropertyType::PayloadFormatIndicator => {
            assert(kinds[0] == kind);
        },
        PropertyType::MessageExpiryInterval => {
            assert(kinds[1] == kind);
        },
        PropertyType::ContentType => {
            assert(kinds[2] == kind);
        },
        PropertyType::ResponseTopic => {
            assert(kinds[3] == kind);
        },
        PropertyType::CorrelationData => {
            assert(kinds[4] == kind);
        },
        PropertyType::SubscriptionIdentifier => {
            assert(kinds[5] == kind);
        },
        PropertyType::SessionExpiryInterval => {
            assert(kinds[6] == kind);
        },
        PropertyType::AssignedClientIdentifier => {
            assert(kinds[7] == kind);
        },
        PropertyType::ServerKeepAlive => {
            assert(kinds[8] == kind);
        },
        PropertyType::AuthenticationMethod => {
            assert(kinds[9] == kind);
        },
        PropertyType::AuthenticationData => {
            assert(kinds[10] == kind);
        },
        PropertyType::RequestProblemInformation => {
            assert(kinds[11] == kind);
        },
        PropertyType::WillDelayInterval => {
            assert(kinds[12] == kind);
        },
        PropertyType::RequestResponseInformation => {
            assert(kinds[13] == kind);
        },
        PropertyType::ResponseInformation => {
            assert(kinds[14] == kind);
        },
        PropertyType::ServerReference => {
            assert(kinds[15] == kind);
        },
        PropertyType::ReasonString => {
            assert(kinds[16] == kind);
        },
        PropertyType::ReceiveMaximum => {
            assert(kinds[17] == kind);
        },
        PropertyType::TopicAliasMaximum => {
            assert(kinds[18] == kind);
        },
        PropertyType::TopicAlias => {
            assert(kinds[19] == kind);
        },
        PropertyType::MaximumQos => {
            assert(kinds[20] == kind);
        },
        PropertyType::RetainAvailable => {
            assert(kinds[21] == kind);
        },
        PropertyType::MaximumPacketSize => {
            assert(kinds[22] == kind);
        },
        PropertyType::WildcardSubscriptionAvailable => {
            assert(kinds[23] == kind);
        },
        PropertyType::SubscriptionIdentifierAvailable => {
            assert(kinds[24] == kind);
        },
        PropertyType::SharedSubscriptionAvailable => {
            assert(kinds[25] == kind);
        },
        PropertyType::UserProperty => {},
    }
}

/// All properties are taken in by a run that covers their bytes.
pub proof fn properties_body_reads_back(s: Seq<u8>, pos: int, properties: PropertiesView)
    requires
        properties_body_fault(properties) is None,
        holds_at(s, pos, properties_body(properties)),
    ensures
        parse_property_run(
            s,
            pos,
            pos + properties_body(properties).len(),
            PropertiesView::empty(),
        ) == (Parsed::Done {
            value: properties,
            next: pos + properties_body(properties).len(),
        }),
{
    let end = pos + properties_body(properties).len();
    let pairs = properties.user_properties;
    let kinds = single_kinds();
    let empty = PropertiesView::empty();
    let taken = singles_taken(empty, properties, kinds);
    holds_at_split(s, pos, singles_bytes(properties, kinds), user_properties_bytes(pairs));
    singles_read_back(s, pos, end, empty, properties, kinds);
    user_properties_read_back(s, pos + singles_bytes(properties, kinds).len(), taken, pairs);
    let read = PropertiesView { user_properties: taken.user_properties + pairs, ..taken };
    assert forall|kind: PropertyType| single(read, kind) == single(properties, kind) by {
        single_after_takes(empty, properties, kinds, kind);
        single_kinds_are_all(kind);
        single_ignores_user_properties(taken, taken.user_properties + pairs, kind);
        empty_has_no_single(kind);
        if kind == PropertyType::UserProperty {
            reveal(single);
        }
    }
    single_after_takes(empty, properties, kinds, PropertyType::UserProperty);
    assert(taken.user_properties + pairs =~= pairs);
    singles_determine(read, properties);
}

/// Which property of a kind properties hold does not depend on their user
/// properties.
pub proof fn single_ignores_user_properties(
    properties: PropertiesView,
    pairs: Seq<(Seq<char>, Seq<char>)>,
    kind: PropertyType,
)
    ensures
        single(PropertiesView { user_properties: pairs, ..properties }, kind) == single(
            properties,
            kind,
        ),
{
    reveal(single);
}

/// No properties hold no property of any kind.
pub proof fn empty_has_no_single(kind: PropertyType)
    ensures
        single(PropertiesView::empty(), kind) is None,
{
    reveal(single);
}


/// A run of properties that can be written reads back from its bytes.
pub proof fn properties_read_back(s: Seq<u8>, pos: int, properties: PropertiesView)
    requires
        properties_fault(properties) is None,
        holds_at(s, pos, properties_bytes(properties)),
    ensures
        parse_properties(s, pos) == (Parsed::Done {
            value: properties,
            next: pos + properties_bytes(properties).len(),
        }),
{
    reveal(properties_bytes);
    reveal(properties_fault);
    let body = properties_body(properties);
    let length = body.len() as u32;
    holds_at_split(s, pos, vbi_bytes(length), body);
    vbi_reads_back(s, pos, length);
    holds_at_within(s, pos + vbi_bytes(length).len(), body);
    properties_body_reads_back(s, pos + vbi_bytes(length).len(), properties);
}

} // verus!

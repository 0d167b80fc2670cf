//! Properties: the tagged, typed fields that most packets carry in their
//! variable header.
//!
//! A `Property` is one such field as it stands on the wire. `Properties` is
//! what a whole run of them comes to: for every property but the user
//! property the value that came last, and the user properties in their order.

use crate::codes::QoS;
use vstd::prelude::*;

verus! {

/// A user property: a name and a value.
#[derive(Clone, Debug, PartialEq, Eq)]
pub struct UserProperty(pub String, pub String);

impl DeepView for UserProperty {
    type V = (Seq<char>, Seq<char>);

    open spec fn deep_view(&self) -> (Seq<char>, Seq<char>) {
        (self.0@, self.1@)
    }
}

/// Which property a property is.
#[derive(Clone, Copy, Debug, PartialEq, Eq, Structural)]
pub enum PropertyType {
    PayloadFormatIndicator,
    MessageExpiryInterval,
    ContentType,
    ResponseTopic,
    CorrelationData,
    SubscriptionIdentifier,
    SessionExpiryInterval,
    AssignedClientIdentifier,
    ServerKeepAlive,
    AuthenticationMethod,
    AuthenticationData,
    RequestProblemInformation,
    WillDelayInterval,
    RequestResponseInformation,
    ResponseInformation,
    ServerReference,
    ReasonString,
    ReceiveMaximum,
    TopicAliasMaximum,
    TopicAlias,
    MaximumQos,
    RetainAvailable,
    UserProperty,
    MaximumPacketSize,
    WildcardSubscriptionAvailable,
    SubscriptionIdentifierAvailable,
    SharedSubscriptionAvailable,
}

impl PropertyType {
    /// The identifier that stands for a property on the wire.
    pub open spec fn id(self) -> u32 {
        match self {
            PropertyType::PayloadFormatIndicator => 1,
            PropertyType::MessageExpiryInterval => 2,
            PropertyType::ContentType => 3,
            PropertyType::ResponseTopic => 8,
            PropertyType::CorrelationData => 9,
            PropertyType::SubscriptionIdentifier => 11,
            PropertyType::SessionExpiryInterval => 17,
            PropertyType::AssignedClientIdentifier => 18,
            PropertyType::ServerKeepAlive => 19,
            PropertyType::AuthenticationMethod => 21,
            PropertyType::AuthenticationData => 22,
            PropertyType::RequestProblemInformation => 23,
            PropertyType::WillDelayInterval => 24,
            PropertyType::RequestResponseInformation => 25,
            PropertyType::ResponseInformation => 26,
            PropertyType::ServerReference => 28,
            PropertyType::ReasonString => 31,
            PropertyType::ReceiveMaximum => 33,
            PropertyType::TopicAliasMaximum => 34,
            PropertyType::TopicAlias => 35,
            PropertyType::MaximumQos => 36,
            PropertyType::RetainAvailable => 37,
            PropertyType::UserProperty => 38,
            PropertyType::MaximumPacketSize => 39,
            PropertyType::WildcardSubscriptionAvailable => 40,
            PropertyType::SubscriptionIdentifierAvailable => 41,
            PropertyType::SharedSubscriptionAvailable => 42,
        }
    }

    /// The property that an identifier stands for, if it stands for one.
    pub open spec fn from_id(id: u32) -> Option<PropertyType> {
        match id {
            1u32 => Some(PropertyType::PayloadFormatIndicator),
            2u32 => Some(PropertyType::MessageExpiryInterval),
            3u32 => Some(PropertyType::ContentType),
            8u32 => Some(PropertyType::ResponseTopic),
            9u32 => Some(PropertyType::CorrelationData),
            11u32 => Some(PropertyType::SubscriptionIdentifier),
            17u32 => Some(PropertyType::SessionExpiryInterval),
            18u32 => Some(PropertyType::AssignedClientIdentifier),
            19u32 => Some(PropertyType::ServerKeepAlive),
            21u32 => Some(PropertyType::AuthenticationMethod),
            22u32 => Some(PropertyType::AuthenticationData),
            23u32 => Some(PropertyType::RequestProblemInformation),
            24u32 => Some(PropertyType::WillDelayInterval),
            25u32 => Some(PropertyType::RequestResponseInformation),
            26u32 => Some(PropertyType::ResponseInformation),
            28u32 => Some(PropertyType::ServerReference),
            31u32 => Some(PropertyType::ReasonString),
            33u32 => Some(PropertyType::ReceiveMaximum),
            34u32 => Some(PropertyType::TopicAliasMaximum),
            35u32 => Some(PropertyType::TopicAlias),
            36u32 => Some(PropertyType::MaximumQos),
            37u32 => Some(PropertyType::RetainAvailable),
            38u32 => Some(PropertyType::UserProperty),
            39u32 => Some(PropertyType::MaximumPacketSize),
            40u32 => Some(PropertyType::WildcardSubscriptionAvailable),
            41u32 => Some(PropertyType::SubscriptionIdentifierAvailable),
            42u32 => Some(PropertyType::SharedSubscriptionAvailable),
            _ => None,
        }
    }

    /// The identifier that stands for this property on the wire.
    pub fn to_u32(self) -> (id: u32)
        ensures
            id == self.id(),
    {
        match self {
            PropertyType::PayloadFormatIndicator => 1,
            PropertyType::MessageExpiryInterval => 2,
            PropertyType::ContentType => 3,
            PropertyType::ResponseTopic => 8,
            PropertyType::CorrelationData => 9,
            PropertyType::SubscriptionIdentifier => 11,
            PropertyType::SessionExpiryInterval => 17,
            PropertyType::AssignedClientIdentifier => 18,
            PropertyType::ServerKeepAlive => 19,
            PropertyType::AuthenticationMethod => 21,
            PropertyType::AuthenticationData => 22,
            PropertyType::RequestProblemInformation => 23,
            PropertyType::WillDelayInterval => 24,
            PropertyType::RequestResponseInformation => 25,
            PropertyType::ResponseInformation => 26,
            PropertyType::ServerReference => 28,
            PropertyType::ReasonString => 31,
            PropertyType::ReceiveMaximum => 33,
            PropertyType::TopicAliasMaximum => 34,
            PropertyType::TopicAlias => 35,
            PropertyType::MaximumQos => 36,
            PropertyType::RetainAvailable => 37,
            PropertyType::UserProperty => 38,
            PropertyType::MaximumPacketSize => 39,
            PropertyType::WildcardSubscriptionAvailable => 40,
            PropertyType::SubscriptionIdentifierAvailable => 41,
            PropertyType::SharedSubscriptionAvailable => 42,
        }
    }

    /// The property that `id` stands for, if it stands for one.
    pub fn from_u32(id: u32) -> (kind: Option<PropertyType>)
        ensures
            kind == PropertyType::from_id(id),
    {
        match id {
            1 => Some(PropertyType::PayloadFormatIndicator),
            2 => Some(PropertyType::MessageExpiryInterval),
            3 => Some(PropertyType::ContentType),
            8 => Some(PropertyType::ResponseTopic),
            9 => Some(PropertyType::CorrelationData),
            11 => Some(PropertyType::SubscriptionIdentifier),
            17 => Some(PropertyType::SessionExpiryInterval),
            18 => Some(PropertyType::AssignedClientIdentifier),
            19 => Some(PropertyType::ServerKeepAlive),
            21 => Some(PropertyType::AuthenticationMethod),
            22 => Some(PropertyType::AuthenticationData),
            23 => Some(PropertyType::RequestProblemInformation),
            24 => Some(PropertyType::WillDelayInterval),
            25 => Some(PropertyType::RequestResponseInformation),
            26 => Some(PropertyType::ResponseInformation),
            28 => Some(PropertyType::ServerReference),
            31 => Some(PropertyType::ReasonString),
            33 => Some(PropertyType::ReceiveMaximum),
            34 => Some(PropertyType::TopicAliasMaximum),
            35 => Some(PropertyType::TopicAlias),
            36 => Some(PropertyType::MaximumQos),
            37 => Some(PropertyType::RetainAvailable),
            38 => Some(PropertyType::UserProperty),
            39 => Some(PropertyType::MaximumPacketSize),
            40 => Some(PropertyType::WildcardSubscriptionAvailable),
            41 => Some(PropertyType::SubscriptionIdentifierAvailable),
            42 => Some(PropertyType::SharedSubscriptionAvailable),
            _ => None,
        }
    }

    /// `from_id` undoes `id`, and gives a property for no other number.
    pub proof fn id_is_invertible(kind: PropertyType, id: u32)
        ensures
            PropertyType::from_id(kind.id()) == Some(kind),
            PropertyType::from_id(id) == Some(kind) ==> kind.id() == id,
    {
    }
}

/// One property with its value.
#[derive(Clone, Debug, PartialEq, Eq)]
pub enum Property {
    PayloadFormatIndicator(u8),
    MessageExpiryInterval(u32),
    ContentType(String),
    ResponseTopic(String),
    CorrelationData(Vec<u8>),
    SubscriptionIdentifier(u32),
    SessionExpiryInterval(u32),
    AssignedClientIdentifier(String),
    ServerKeepAlive(u16),
    AuthenticationMethod(String),
    AuthenticationData(Vec<u8>),
    RequestProblemInformation(u8),
    WillDelayInterval(u32),
    RequestResponseInformation(u8),
    ResponseInformation(String),
    ServerReference(String),
    ReasonString(String),
    ReceiveMaximum(u16),
    TopicAliasMaximum(u16),
    TopicAlias(u16),
    MaximumQos(QoS),
    RetainAvailable(u8),
    UserProperty(UserProperty),
    MaximumPacketSize(u32),
    WildcardSubscriptionAvailable(u8),
    SubscriptionIdentifierAvailable(u8),
    SharedSubscriptionAvailable(u8),
}

/// The model of a `Property`.
pub enum PropertyView {
    PayloadFormatIndicator(u8),
    MessageExpiryInterval(u32),
    ContentType(Seq<char>),
    ResponseTopic(Seq<char>),
    CorrelationData(Seq<u8>),
    SubscriptionIdentifier(u32),
    SessionExpiryInterval(u32),
    AssignedClientIdentifier(Seq<char>),
    ServerKeepAlive(u16),
    AuthenticationMethod(Seq<char>),
    AuthenticationData(Seq<u8>),
    RequestProblemInformation(u8),
    WillDelayInterval(u32),
    RequestResponseInformation(u8),
    ResponseInformation(Seq<char>),
    ServerReference(Seq<char>),
    ReasonString(Seq<char>),
    ReceiveMaximum(u16),
    TopicAliasMaximum(u16),
    TopicAlias(u16),
    MaximumQos(QoS),
    RetainAvailable(u8),
    UserProperty((Seq<char>, Seq<char>)),
    MaximumPacketSize(u32),
    WildcardSubscriptionAvailable(u8),
    SubscriptionIdentifierAvailable(u8),
    SharedSubscriptionAvailable(u8),
}

impl DeepView for Property {
    type V = PropertyView;

    open spec fn deep_view(&self) -> PropertyView {
        match self {
            Property::PayloadFormatIndicator(value) =>
                PropertyView::PayloadFormatIndicator(value.deep_view()),
            Property::MessageExpiryInterval(value) =>
                PropertyView::MessageExpiryInterval(value.deep_view()),
            Property::ContentType(value) => PropertyView::ContentType(value.deep_view()),
            Property::ResponseTopic(value) => PropertyView::ResponseTopic(value.deep_view()),
            Property::CorrelationData(value) => PropertyView::CorrelationData(value.deep_view()),
            Property::SubscriptionIdentifier(value) =>
                PropertyView::SubscriptionIdentifier(value.deep_view()),
            Property::SessionExpiryInterval(value) =>
                PropertyView::SessionExpiryInterval(value.deep_view()),
            Property::AssignedClientIdentifier(value) =>
                PropertyView::AssignedClientIdentifier(value.deep_view()),
            Property::ServerKeepAlive(value) => PropertyView::ServerKeepAlive(value.deep_view()),
            Property::AuthenticationMethod(value) =>
                PropertyView::AuthenticationMethod(value.deep_view()),
            Property::AuthenticationData(value) =>
                PropertyView::AuthenticationData(value.deep_view()),
            Property::RequestProblemInformation(value) =>
                PropertyView::RequestProblemInformation(value.deep_view()),
            Property::WillDelayInterval(value) =>
                PropertyView::WillDelayInterval(value.deep_view()),
            Property::RequestResponseInformation(value) =>
                PropertyView::RequestResponseInformation(value.deep_view()),
            Property::ResponseInformation(value) =>
                PropertyView::ResponseInformation(value.deep_view()),
            Property::ServerReference(value) => PropertyView::ServerReference(value.deep_view()),
            Property::ReasonString(value) => PropertyView::ReasonString(value.deep_view()),
            Property::ReceiveMaximum(value) => PropertyView::ReceiveMaximum(value.deep_view()),
            Property::TopicAliasMaximum(value) =>
                PropertyView::TopicAliasMaximum(value.deep_view()),
            Property::TopicAlias(value) => PropertyView::TopicAlias(value.deep_view()),
            Property::MaximumQos(value) => PropertyView::MaximumQos(value.deep_view()),
            Property::RetainAvailable(value) => PropertyView::RetainAvailable(value.deep_view()),
            Property::UserProperty(value) => PropertyView::UserProperty(value.deep_view()),
            Property::MaximumPacketSize(value) =>
                PropertyView::MaximumPacketSize(value.deep_view()),
            Property::WildcardSubscriptionAvailable(value) =>
                PropertyView::WildcardSubscriptionAvailable(value.deep_view()),
            Property::SubscriptionIdentifierAvailable(value) =>
                PropertyView::SubscriptionIdentifierAvailable(value.deep_view()),
            Property::SharedSubscriptionAvailable(value) =>
                PropertyView::SharedSubscriptionAvailable(value.deep_view()),
        }
    }
}

impl PropertyView {
    /// Which property this is.
    pub open spec fn kind(self) -> PropertyType {
        match self {
            PropertyView::PayloadFormatIndicator(_) => PropertyType::PayloadFormatIndicator,
            PropertyView::MessageExpiryInterval(_) => PropertyType::MessageExpiryInterval,
            PropertyView::ContentType(_) => PropertyType::ContentType,
            PropertyView::ResponseTopic(_) => PropertyType::ResponseTopic,
            PropertyView::CorrelationData(_) => PropertyType::CorrelationData,
            PropertyView::SubscriptionIdentifier(_) => PropertyType::SubscriptionIdentifier,
            PropertyView::SessionExpiryInterval(_) => PropertyType::SessionExpiryInterval,
            PropertyView::AssignedClientIdentifier(_) => PropertyType::AssignedClientIdentifier,
            PropertyView::ServerKeepAlive(_) => PropertyType::ServerKeepAlive,
            PropertyView::AuthenticationMethod(_) => PropertyType::AuthenticationMethod,
            PropertyView::AuthenticationData(_) => PropertyType::AuthenticationData,
            PropertyView::RequestProblemInformation(_) => PropertyType::RequestProblemInformation,
            PropertyView::WillDelayInterval(_) => PropertyType::WillDelayInterval,
            PropertyView::RequestResponseInformation(_) => PropertyType::RequestResponseInformation,
            PropertyView::ResponseInformation(_) => PropertyType::ResponseInformation,
            PropertyView::ServerReference(_) => PropertyType::ServerReference,
            PropertyView::ReasonString(_) => PropertyType::ReasonString,
            PropertyView::ReceiveMaximum(_) => PropertyType::ReceiveMaximum,
            PropertyView::TopicAliasMaximum(_) => PropertyType::TopicAliasMaximum,
            PropertyView::TopicAlias(_) => PropertyType::TopicAlias,
            PropertyView::MaximumQos(_) => PropertyType::MaximumQos,
            PropertyView::RetainAvailable(_) => PropertyType::RetainAvailable,
            PropertyView::UserProperty(_) => PropertyType::UserProperty,
            PropertyView::MaximumPacketSize(_) => PropertyType::MaximumPacketSize,
            PropertyView::WildcardSubscriptionAvailable(_) =>
                PropertyType::WildcardSubscriptionAvailable,
            PropertyView::SubscriptionIdentifierAvailable(_) =>
                PropertyType::SubscriptionIdentifierAvailable,
            PropertyView::SharedSubscriptionAvailable(_) =>
                PropertyType::SharedSubscriptionAvailable,
        }
    }
}

impl Property {
    /// Which property this is.
    pub fn property_type(&self) -> (kind: PropertyType)
        ensures
            kind == self.deep_view().kind(),
    {
        match self {
            Property::PayloadFormatIndicator(_) => PropertyType::PayloadFormatIndicator,
            Property::MessageExpiryInterval(_) => PropertyType::MessageExpiryInterval,
            Property::ContentType(_) => PropertyType::ContentType,
            Property::ResponseTopic(_) => PropertyType::ResponseTopic,
            Property::CorrelationData(_) => PropertyType::CorrelationData,
            Property::SubscriptionIdentifier(_) => PropertyType::SubscriptionIdentifier,
            Property::SessionExpiryInterval(_) => PropertyType::SessionExpiryInterval,
            Property::AssignedClientIdentifier(_) => PropertyType::AssignedClientIdentifier,
            Property::ServerKeepAlive(_) => PropertyType::ServerKeepAlive,
            Property::AuthenticationMethod(_) => PropertyType::AuthenticationMethod,
            Property::AuthenticationData(_) => PropertyType::AuthenticationData,
            Property::RequestProblemInformation(_) => PropertyType::RequestProblemInformation,
            Property::WillDelayInterval(_) => PropertyType::WillDelayInterval,
            Property::RequestResponseInformation(_) => PropertyType::RequestResponseInformation,
            Property::ResponseInformation(_) => PropertyType::ResponseInformation,
            Property::ServerReference(_) => PropertyType::ServerReference,
            Property::ReasonString(_) => PropertyType::ReasonString,
            Property::ReceiveMaximum(_) => PropertyType::ReceiveMaximum,
            Property::TopicAliasMaximum(_) => PropertyType::TopicAliasMaximum,
            Property::TopicAlias(_) => PropertyType::TopicAlias,
            Property::MaximumQos(_) => PropertyType::MaximumQos,
            Property::RetainAvailable(_) => PropertyType::RetainAvailable,
            Property::UserProperty(_) => PropertyType::UserProperty,
            Property::MaximumPacketSize(_) => PropertyType::MaximumPacketSize,
            Property::WildcardSubscriptionAvailable(_) =>
                PropertyType::WildcardSubscriptionAvailable,
            Property::SubscriptionIdentifierAvailable(_) =>
                PropertyType::SubscriptionIdentifierAvailable,
            Property::SharedSubscriptionAvailable(_) => PropertyType::SharedSubscriptionAvailable,
        }
    }
}

/// What a run of properties comes to.
#[derive(Clone, Debug, PartialEq, Eq)]
pub struct Properties {
    pub payload_format_indicator: Option<u8>,
    pub message_expiry_interval: Option<u32>,
    pub content_type: Option<String>,
    pub response_topic: Option<String>,
    pub correlation_data: Option<Vec<u8>>,
    pub subscription_identifier: Option<u32>,
    pub session_expiry_interval: Option<u32>,
    pub assigned_client_identifier: Option<String>,
    pub server_keep_alive: Option<u16>,
    pub authentication_method: Option<String>,
    pub authentication_data: Option<Vec<u8>>,
    pub request_problem_information: Option<u8>,
    pub will_delay_interval: Option<u32>,
    pub request_response_information: Option<u8>,
    pub response_information: Option<String>,
    pub server_reference: Option<String>,
    pub reason_string: Option<String>,
    pub receive_maximum: Option<u16>,
    pub topic_alias_maximum: Option<u16>,
    pub topic_alias: Option<u16>,
    pub maximum_qos: Option<QoS>,
    pub retain_available: Option<u8>,
    pub user_properties: Vec<UserProperty>,
    pub maximum_packet_size: Option<u32>,
    pub wildcard_subscription_available: Option<u8>,
    pub subscription_identifier_available: Option<u8>,
    pub shared_subscription_available: Option<u8>,
}

/// The model of a `Properties`.
pub struct PropertiesView {
    pub payload_format_indicator: Option<u8>,
    pub message_expiry_interval: Option<u32>,
    pub content_type: Option<Seq<char>>,
    pub response_topic: Option<Seq<char>>,
    pub correlation_data: Option<Seq<u8>>,
    pub subscription_identifier: Option<u32>,
    pub session_expiry_interval: Option<u32>,
    pub assigned_client_identifier: Option<Seq<char>>,
    pub server_keep_alive: Option<u16>,
    pub authentication_method: Option<Seq<char>>,
    pub authentication_data: Option<Seq<u8>>,
    pub request_problem_information: Option<u8>,
    pub will_delay_interval: Option<u32>,
    pub request_response_information: Option<u8>,
    pub response_information: Option<Seq<char>>,
    pub server_reference: Option<Seq<char>>,
    pub reason_string: Option<Seq<char>>,
    pub receive_maximum: Option<u16>,
    pub topic_alias_maximum: Option<u16>,
    pub topic_alias: Option<u16>,
    pub maximum_qos: Option<QoS>,
    pub retain_available: Option<u8>,
    pub user_properties: Seq<(Seq<char>, Seq<char>)>,
    pub maximum_packet_size: Option<u32>,
    pub wildcard_subscription_available: Option<u8>,
    pub subscription_identifier_available: Option<u8>,
    pub shared_subscription_available: Option<u8>,
}

impl DeepView for Properties {
    type V = PropertiesView;

    open spec fn deep_view(&self) -> PropertiesView {
        PropertiesView {
            payload_format_indicator: self.payload_format_indicator.deep_view(),
            message_expiry_interval: self.message_expiry_interval.deep_view(),
            content_type: self.content_type.deep_view(),
            response_topic: self.response_topic.deep_view(),
            correlation_data: self.correlation_data.deep_view(),
            subscription_identifier: self.subscription_identifier.deep_view(),
            session_expiry_interval: self.session_expiry_interval.deep_view(),
            assigned_client_identifier: self.assigned_client_identifier.deep_view(),
            server_keep_alive: self.server_keep_alive.deep_view(),
            authentication_method: self.authentication_method.deep_view(),
            authentication_data: self.authentication_data.deep_view(),
            request_problem_information: self.request_problem_information.deep_view(),
            will_delay_interval: self.will_delay_interval.deep_view(),
            request_response_information: self.request_response_information.deep_view(),
            response_information: self.response_information.deep_view(),
            server_reference: self.server_reference.deep_view(),
            reason_string: self.reason_string.deep_view(),
            receive_maximum: self.receive_maximum.deep_view(),
            topic_alias_maximum: self.topic_alias_maximum.deep_view(),
            topic_alias: self.topic_alias.deep_view(),
            maximum_qos: self.maximum_qos.deep_view(),
            retain_available: self.retain_available.deep_view(),
            user_properties: self.user_properties.deep_view(),
            maximum_packet_size: self.maximum_packet_size.deep_view(),
            wildcard_subscription_available: self.wildcard_subscription_available.deep_view(),
            subscription_identifier_available: self.subscription_identifier_available.deep_view(),
            shared_subscription_available: self.shared_subscription_available.deep_view(),
        }
    }
}

impl PropertiesView {
    /// No property at all.
    pub open spec fn empty() -> PropertiesView {
        PropertiesView {
            payload_format_indicator: None,
            message_expiry_interval: None,
            content_type: None,
            response_topic: None,
            correlation_data: None,
            subscription_identifier: None,
            session_expiry_interval: None,
            assigned_client_identifier: None,
            server_keep_alive: None,
            authentication_method: None,
            authentication_data: None,
            request_problem_information: None,
            will_delay_interval: None,
            request_response_information: None,
            response_information: None,
            server_reference: None,
            reason_string: None,
            receive_maximum: None,
            topic_alias_maximum: None,
            topic_alias: None,
            maximum_qos: None,
            retain_available: None,
            user_properties: Seq::empty(),
            maximum_packet_size: None,
            wildcard_subscription_available: None,
            subscription_identifier_available: None,
            shared_subscription_available: None,
        }
    }

    /// These properties and one more behind them: a user property joins the
    /// others at the end, any other property takes the place of an earlier one
    /// of its kind.
    pub open spec fn accept(self, property: PropertyView) -> PropertiesView {
        match property {
            PropertyView::PayloadFormatIndicator(value) => PropertiesView {
                payload_format_indicator: Some(value),
                ..self
            },
            PropertyView::MessageExpiryInterval(value) => PropertiesView {
                message_expiry_interval: Some(value),
                ..self
            },
            PropertyView::ContentType(value) => PropertiesView {
                content_type: Some(value),
                ..self
            },
            PropertyView::ResponseTopic(value) => PropertiesView {
                response_topic: Some(value),
                ..self
            },
            PropertyView::CorrelationData(value) => PropertiesView {
                correlation_data: Some(value),
                ..self
            },
            PropertyView::SubscriptionIdentifier(value) => PropertiesView {
                subscription_identifier: Some(value),
                ..self
            },
            PropertyView::SessionExpiryInterval(value) => PropertiesView {
                session_expiry_interval: Some(value),
                ..self
            },
            PropertyView::AssignedClientIdentifier(value) => PropertiesView {
                assigned_client_identifier: Some(value),
                ..self
            },
            PropertyView::ServerKeepAlive(value) => PropertiesView {
                server_keep_alive: Some(value),
                ..self
            },
            PropertyView::AuthenticationMethod(value) => PropertiesView {
                authentication_method: Some(value),
                ..self
            },
            PropertyView::AuthenticationData(value) => PropertiesView {
                authentication_data: Some(value),
                ..self
            },
            PropertyView::RequestProblemInformation(value) => PropertiesView {
                request_problem_information: Some(value),
                ..self
            },
            PropertyView::WillDelayInterval(value) => PropertiesView {
                will_delay_interval: Some(value),
                ..self
            },
            PropertyView::RequestResponseInformation(value) => PropertiesView {
                request_response_information: Some(value),
                ..self
            },
            PropertyView::ResponseInformation(value) => PropertiesView {
                response_information: Some(value),
                ..self
            },
            PropertyView::ServerReference(value) => PropertiesView {
                server_reference: Some(value),
                ..self
            },
            PropertyView::ReasonString(value) => PropertiesView {
                reason_string: Some(value),
                ..self
            },
            PropertyView::ReceiveMaximum(value) => PropertiesView {
                receive_maximum: Some(value),
                ..self
            },
            PropertyView::TopicAliasMaximum(value) => PropertiesView {
                topic_alias_maximum: Some(value),
                ..self
            },
            PropertyView::TopicAlias(value) => PropertiesView { topic_alias: Some(value), ..self },
            PropertyView::MaximumQos(value) => PropertiesView { maximum_qos: Some(value), ..self },
            PropertyView::RetainAvailable(value) => PropertiesView {
                retain_available: Some(value),
                ..self
            },
            PropertyView::UserProperty(value) => PropertiesView {
                user_properties: self.user_properties.push(value),
                ..self
            },
            PropertyView::MaximumPacketSize(value) => PropertiesView {
                maximum_packet_size: Some(value),
                ..self
            },
            PropertyView::WildcardSubscriptionAvailable(value) => PropertiesView {
                wildcard_subscription_available: Some(value),
                ..self
            },
            PropertyView::SubscriptionIdentifierAvailable(value) => PropertiesView {
                subscription_identifier_available: Some(value),
                ..self
            },
            PropertyView::SharedSubscriptionAvailable(value) => PropertiesView {
                shared_subscription_available: Some(value),
                ..self
            },
        }
    }
}

/// Properties on loan from the packet that holds them, as the writers take them.
#[derive(Clone, Copy, Debug)]
pub struct PropertyRefs<'a> {
    pub payload_format_indicator: Option<u8>,
    pub message_expiry_interval: Option<u32>,
    pub content_type: Option<&'a String>,
    pub response_topic: Option<&'a String>,
    pub correlation_data: Option<&'a Vec<u8>>,
    pub subscription_identifier: Option<u32>,
    pub session_expiry_interval: Option<u32>,
    pub assigned_client_identifier: Option<&'a String>,
    pub server_keep_alive: Option<u16>,
    pub authentication_method: Option<&'a String>,
    pub authentication_data: Option<&'a Vec<u8>>,
    pub request_problem_information: Option<u8>,
    pub will_delay_interval: Option<u32>,
    pub request_response_information: Option<u8>,
    pub response_information: Option<&'a String>,
    pub server_reference: Option<&'a String>,
    pub reason_string: Option<&'a String>,
    pub receive_maximum: Option<u16>,
    pub topic_alias_maximum: Option<u16>,
    pub topic_alias: Option<u16>,
    pub maximum_qos: Option<QoS>,
    pub retain_available: Option<u8>,
    pub user_properties: Option<&'a Vec<UserProperty>>,
    pub maximum_packet_size: Option<u32>,
    pub wildcard_subscription_available: Option<u8>,
    pub subscription_identifier_available: Option<u8>,
    pub shared_subscription_available: Option<u8>,
}

impl<'a> DeepView for PropertyRefs<'a> {
    type V = PropertiesView;

    open spec fn deep_view(&self) -> PropertiesView {
        PropertiesView {
            payload_format_indicator: self.payload_format_indicator.deep_view(),
            message_expiry_interval: self.message_expiry_interval.deep_view(),
            content_type: self.content_type.deep_view(),
            response_topic: self.response_topic.deep_view(),
            correlation_data: self.correlation_data.deep_view(),
            subscription_identifier: self.subscription_identifier.deep_view(),
            session_expiry_interval: self.session_expiry_interval.deep_view(),
            assigned_client_identifier: self.assigned_client_identifier.deep_view(),
            server_keep_alive: self.server_keep_alive.deep_view(),
            authentication_method: self.authentication_method.deep_view(),
            authentication_data: self.authentication_data.deep_view(),
            request_problem_information: self.request_problem_information.deep_view(),
            will_delay_interval: self.will_delay_interval.deep_view(),
            request_response_information: self.request_response_information.deep_view(),
            response_information: self.response_information.deep_view(),
            server_reference: self.server_reference.deep_view(),
            reason_string: self.reason_string.deep_view(),
            receive_maximum: self.receive_maximum.deep_view(),
            topic_alias_maximum: self.topic_alias_maximum.deep_view(),
            topic_alias: self.topic_alias.deep_view(),
            maximum_qos: self.maximum_qos.deep_view(),
            retain_available: self.retain_available.deep_view(),
            user_properties: match self.user_properties {
                Some(pairs) => pairs.deep_view(),
                None => Seq::empty(),
            },
            maximum_packet_size: self.maximum_packet_size.deep_view(),
            wildcard_subscription_available: self.wildcard_subscription_available.deep_view(),
            subscription_identifier_available: self.subscription_identifier_available.deep_view(),
            shared_subscription_available: self.shared_subscription_available.deep_view(),
        }
    }
}

impl<'a> PropertyRefs<'a> {
    /// No property at all.
    pub fn empty() -> (properties: PropertyRefs<'a>)
        ensures
            properties.deep_view() == PropertiesView::empty(),
            properties.payload_format_indicator is None,
            properties.message_expiry_interval is None,
            properties.content_type is None,
            properties.response_topic is None,
            properties.correlation_data is None,
            properties.subscription_identifier is None,
            properties.session_expiry_interval is None,
            properties.assigned_client_identifier is None,
            properties.server_keep_alive is None,
            properties.authentication_method is None,
            properties.authentication_data is None,
            properties.request_problem_information is None,
            properties.will_delay_interval is None,
            properties.request_response_information is None,
            properties.response_information is None,
            properties.server_reference is None,
            properties.reason_string is None,
            properties.receive_maximum is None,
            properties.topic_alias_maximum is None,
            properties.topic_alias is None,
            properties.maximum_qos is None,
            properties.retain_available is None,
            properties.user_properties is None,
            properties.maximum_packet_size is None,
            properties.wildcard_subscription_available is None,
            properties.subscription_identifier_available is None,
            properties.shared_subscription_available is None,
    {
        PropertyRefs {
            payload_format_indicator: None,
            message_expiry_interval: None,
            content_type: None,
            response_topic: None,
            correlation_data: None,
            subscription_identifier: None,
            session_expiry_interval: None,
            assigned_client_identifier: None,
            server_keep_alive: None,
            authentication_method: None,
            authentication_data: None,
            request_problem_information: None,
            will_delay_interval: None,
            request_response_information: None,
            response_information: None,
            server_reference: None,
            reason_string: None,
            receive_maximum: None,
            topic_alias_maximum: None,
            topic_alias: None,
            maximum_qos: None,
            retain_available: None,
            user_properties: None,
            maximum_packet_size: None,
            wildcard_subscription_available: None,
            subscription_identifier_available: None,
            shared_subscription_available: None,
        }
    }
}

/// The model of a vector with one more item is the model of the vector with
/// the model of the item behind it.
pub proof fn deep_view_push<T: DeepView>(before: Vec<T>, after: Vec<T>, item: T)
    requires
        after@ == before@.push(item),
    ensures
        after.deep_view() == before.deep_view().push(item.deep_view()),
{
    assert(after.deep_view() =~= before.deep_view().push(item.deep_view()));
}

/// The model of an empty vector is empty.
pub proof fn deep_view_empty<T: DeepView>(items: Vec<T>)
    requires
        items@.len() == 0,
    ensures
        items.deep_view() == Seq::<T::V>::empty(),
{
    assert(items.deep_view() =~= Seq::<T::V>::empty());
}

impl Properties {
    /// No property at all.
    pub fn new() -> (properties: Properties)
        ensures
            properties.deep_view() == PropertiesView::empty(),
    {
        let user_properties: Vec<UserProperty> = Vec::new();
        proof {
            deep_view_empty(user_properties);
        }
        Properties {
            payload_format_indicator: None,
            message_expiry_interval: None,
            content_type: None,
            response_topic: None,
            correlation_data: None,
            subscription_identifier: None,
            session_expiry_interval: None,
            assigned_client_identifier: None,
            server_keep_alive: None,
            authentication_method: None,
            authentication_data: None,
            request_problem_information: None,
            will_delay_interval: None,
            request_response_information: None,
            response_information: None,
            server_reference: None,
            reason_string: None,
            receive_maximum: None,
            topic_alias_maximum: None,
            topic_alias: None,
            maximum_qos: None,
            retain_available: None,
            user_properties,
            maximum_packet_size: None,
            wildcard_subscription_available: None,
            subscription_identifier_available: None,
            shared_subscription_available: None,
        }
    }

    /// Takes one more property in.
    pub fn accept(&mut self, property: Property)
        ensures
            final(self).deep_view() == old(self).deep_view().accept(property.deep_view()),
    {
        match property {
            Property::PayloadFormatIndicator(value) => {
                self.payload_format_indicator = Some(value);
            },
            Property::MessageExpiryInterval(value) => {
                self.message_expiry_interval = Some(value);
            },
            Property::ContentType(value) => {
                self.content_type = Some(value);
            },
            Property::ResponseTopic(value) => {
                self.response_topic = Some(value);
            },
            Property::CorrelationData(value) => {
                self.correlation_data = Some(value);
            },
            Property::SubscriptionIdentifier(value) => {
                self.subscription_identifier = Some(value);
            },
            Property::SessionExpiryInterval(value) => {
                self.session_expiry_interval = Some(value);
            },
            Property::AssignedClientIdentifier(value) => {
                self.assigned_client_identifier = Some(value);
            },
            Property::ServerKeepAlive(value) => {
                self.server_keep_alive = Some(value);
            },
            Property::AuthenticationMethod(value) => {
                self.authentication_method = Some(value);
            },
            Property::AuthenticationData(value) => {
                self.authentication_data = Some(value);
            },
            Property::RequestProblemInformation(value) => {
                self.request_problem_information = Some(value);
            },
            Property::WillDelayInterval(value) => {
                self.will_delay_interval = Some(value);
            },
            Property::RequestResponseInformation(value) => {
                self.request_response_information = Some(value);
            },
            Property::ResponseInformation(value) => {
                self.response_information = Some(value);
            },
            Property::ServerReference(value) => {
                self.server_reference = Some(value);
            },
            Property::ReasonString(value) => {
                self.reason_string = Some(value);
            },
            Property::ReceiveMaximum(value) => {
                self.receive_maximum = Some(value);
            },
            Property::TopicAliasMaximum(value) => {
                self.topic_alias_maximum = Some(value);
            },
            Property::TopicAlias(value) => {
                self.topic_alias = Some(value);
            },
            Property::MaximumQos(value) => {
                self.maximum_qos = Some(value);
            },
            Property::RetainAvailable(value) => {
                self.retain_available = Some(value);
            },
            Property::UserProperty(value) => {
                let ghost before = self.user_properties;
                self.user_properties.push(value);
                proof {
                    deep_view_push(before, self.user_properties, value);
                }
            },
            Property::MaximumPacketSize(value) => {
                self.maximum_packet_size = Some(value);
            },
            Property::WildcardSubscriptionAvailable(value) => {
                self.wildcard_subscription_available = Some(value);
            },
            Property::SubscriptionIdentifierAvailable(value) => {
                self.subscription_identifier_available = Some(value);
            },
            Property::SharedSubscriptionAvailable(value) => {
                self.shared_subscription_available = Some(value);
            },
        }
    }
}

} // verus!

//! The packets that the codec reads and writes: one record for each packet
//! kind that carries anything, and `Packet`, which is any one of them.
//!
//! Each type has a model, reached by `deep_view()`, in which a string is its
//! sequence of characters and a vector its sequence of items. The grammar and
//! the contracts of the codec speak of the models.

use crate::codes::{
    AuthenticateReason, ConnectReason, DisconnectReason, PacketType, PublishAckReason,
    PublishCompleteReason, PublishReceivedReason, PublishReleaseReason, QoS, RetainHandling,
    SubscribeAckReason, UnsubscribeAckReason,
};
use crate::properties::UserProperty;
use vstd::prelude::*;

verus! {

/// One entry of a Subscribe packet: a topic filter and its options.
#[derive(Clone, Debug, PartialEq, Eq)]
pub struct SubscriptionTopic {
    pub topic: String,
    pub maximum_qos: QoS,
    pub no_local: bool,
    pub retain_as_published: bool,
    pub retain_handling: RetainHandling,
}

/// The model of a `SubscriptionTopic`.
pub struct SubscriptionTopicView {
    pub topic: Seq<char>,
    pub maximum_qos: QoS,
    pub no_local: bool,
    pub retain_as_published: bool,
    pub retain_handling: RetainHandling,
}

impl DeepView for SubscriptionTopic {
    type V = SubscriptionTopicView;

    open spec fn deep_view(&self) -> SubscriptionTopicView {
        SubscriptionTopicView {
            topic: self.topic.deep_view(),
            maximum_qos: self.maximum_qos.deep_view(),
            no_local: self.no_local.deep_view(),
            retain_as_published: self.retain_as_published.deep_view(),
            retain_handling: self.retain_handling.deep_view(),
        }
    }
}

/// The will message of a Connect packet.
#[derive(Clone, Debug, PartialEq, Eq)]
pub struct FinalWill {
    pub topic: String,
    pub payload: Vec<u8>,
    pub qos: QoS,
    pub should_retain: bool,
    pub will_delay_interval: Option<u32>,
    pub payload_format_indicator: Option<u8>,
    pub message_expiry_interval: Option<u32>,
    pub content_type: Option<String>,
    pub response_topic: Option<String>,
    pub correlation_data: Option<Vec<u8>>,
    pub user_properties: Vec<UserProperty>,
}

/// The model of a `FinalWill`.
pub struct FinalWillView {
    pub topic: Seq<char>,
    pub payload: Seq<u8>,
    pub qos: QoS,
    pub should_retain: bool,
    pub will_delay_interval: Option<u32>,
    pub payload_format_indicator: Option<u8>,
    pub message_expiry_interval: Option<u32>,
    pub content_type: Option<Seq<char>>,
    pub response_topic: Option<Seq<char>>,
    pub correlation_data: Option<Seq<u8>>,
    pub user_properties: Seq<(Seq<char>, Seq<char>)>,
}

impl DeepView for FinalWill {
    type V = FinalWillView;

    open spec fn deep_view(&self) -> FinalWillView {
        FinalWillView {
            topic: self.topic.deep_view(),
            payload: self.payload.deep_view(),
            qos: self.qos.deep_view(),
            should_retain: self.should_retain.deep_view(),
            will_delay_interval: self.will_delay_interval.deep_view(),
            payload_format_indicator: self.payload_format_indicator.deep_view(),
            message_expiry_interval: self.message_expiry_interval.deep_view(),
            content_type: self.content_type.deep_view(),
            response_topic: self.response_topic.deep_view(),
            correlation_data: self.correlation_data.deep_view(),
            user_properties: self.user_properties.deep_view(),
        }
    }
}

/// A Connect packet.
#[derive(Clone, Debug, PartialEq, Eq)]
pub struct ConnectPacket {
    pub protocol_name: String,
    pub protocol_level: u8,
    pub clean_start: bool,
    pub keep_alive: u16,
    pub session_expiry_interval: Option<u32>,
    pub receive_maximum: Option<u16>,
    pub maximum_packet_size: Option<u32>,
    pub topic_alias_maximum: Option<u16>,
    pub request_response_information: Option<u8>,
    pub request_problem_information: Option<u8>,
    pub user_properties: Vec<UserProperty>,
    pub authentication_method: Option<String>,
    pub authentication_data: Option<Vec<u8>>,
    pub client_id: String,
    pub will: Option<FinalWill>,
    pub user_name: Option<String>,
    pub password: Option<String>,
}

/// The model of a `ConnectPacket`.
pub struct ConnectView {
    pub protocol_name: Seq<char>,
    pub protocol_level: u8,
    pub clean_start: bool,
    pub keep_alive: u16,
    pub session_expiry_interval: Option<u32>,
    pub receive_maximum: Option<u16>,
    pub maximum_packet_size: Option<u32>,
    pub topic_alias_maximum: Option<u16>,
    pub request_response_information: Option<u8>,
    pub request_problem_information: Option<u8>,
    pub user_properties: Seq<(Seq<char>, Seq<char>)>,
    pub authentication_method: Option<Seq<char>>,
    pub authentication_data: Option<Seq<u8>>,
    pub client_id: Seq<char>,
    pub will: Option<FinalWillView>,
    pub user_name: Option<Seq<char>>,
    pub password: Option<Seq<char>>,
}

impl DeepView for ConnectPacket {
    type V = ConnectView;

    open spec fn deep_view(&self) -> ConnectView {
        ConnectView {
            protocol_name: self.protocol_name.deep_view(),
            protocol_level: self.protocol_level.deep_view(),
            clean_start: self.clean_start.deep_view(),
            keep_alive: self.keep_alive.deep_view(),
            session_expiry_interval: self.session_expiry_interval.deep_view(),
            receive_maximum: self.receive_maximum.deep_view(),
            maximum_packet_size: self.maximum_packet_size.deep_view(),
            topic_alias_maximum: self.topic_alias_maximum.deep_view(),
            request_response_information: self.request_response_information.deep_view(),
            request_problem_information: self.request_problem_information.deep_view(),
            user_properties: self.user_properties.deep_view(),
            authentication_method: self.authentication_method.deep_view(),
            authentication_data: self.authentication_data.deep_view(),
            client_id: self.client_id.deep_view(),
            will: self.will.deep_view(),
            user_name: self.user_name.deep_view(),
            password: self.password.deep_view(),
        }
    }
}

/// A ConnectAck packet.
#[derive(Clone, Debug, PartialEq, Eq)]
pub struct ConnectAckPacket {
    pub session_present: bool,
    pub reason_code: ConnectReason,
    pub session_expiry_interval: Option<u32>,
    pub receive_maximum: Option<u16>,
    pub maximum_qos: Option<QoS>,
    pub retain_available: Option<u8>,
    pub maximum_packet_size: Option<u32>,
    pub assigned_client_identifier: Option<String>,
    pub topic_alias_maximum: Option<u16>,
    pub reason_string: Option<String>,
    pub user_properties: Vec<UserProperty>,
    pub wildcard_subscription_available: Option<u8>,
    pub subscription_identifiers_available: Option<u8>,
    pub shared_subscription_available: Option<u8>,
    pub server_keep_alive: Option<u16>,
    pub response_information: Option<String>,
    pub server_reference: Option<String>,
    pub authentication_method: Option<String>,
    pub authentication_data: Option<Vec<u8>>,
}

/// The model of a `ConnectAckPacket`.
pub struct ConnectAckView {
    pub session_present: bool,
    pub reason_code: ConnectReason,
    pub session_expiry_interval: Option<u32>,
    pub receive_maximum: Option<u16>,
    pub maximum_qos: Option<QoS>,
    pub retain_available: Option<u8>,
    pub maximum_packet_size: Option<u32>,
    pub assigned_client_identifier: Option<Seq<char>>,
    pub topic_alias_maximum: Option<u16>,
    pub reason_string: Option<Seq<char>>,
    pub user_properties: Seq<(Seq<char>, Seq<char>)>,
    pub wildcard_subscription_available: Option<u8>,
    pub subscription_identifiers_available: Option<u8>,
    pub shared_subscription_available: Option<u8>,
    pub server_keep_alive: Option<u16>,
    pub response_information: Option<Seq<char>>,
    pub server_reference: Option<Seq<char>>,
    pub authentication_method: Option<Seq<char>>,
    pub authentication_data: Option<Seq<u8>>,
}

impl DeepView for ConnectAckPacket {
    type V = ConnectAckView;

    open spec fn deep_view(&self) -> ConnectAckView {
        ConnectAckView {
            session_present: self.session_present.deep_view(),
            reason_code: self.reason_code.deep_view(),
            session_expiry_interval: self.session_expiry_interval.deep_view(),
            receive_maximum: self.receive_maximum.deep_view(),
            maximum_qos: self.maximum_qos.deep_view(),
            retain_available: self.retain_available.deep_view(),
            maximum_packet_size: self.maximum_packet_size.deep_view(),
            assigned_client_identifier: self.assigned_client_identifier.deep_view(),
            topic_alias_maximum: self.topic_alias_maximum.deep_view(),
            reason_string: self.reason_string.deep_view(),
            user_properties: self.user_properties.deep_view(),
            wildcard_subscription_available: self.wildcard_subscription_available.deep_view(),
            subscription_identifiers_available: self.subscription_identifiers_available.deep_view(),
            shared_subscription_available: self.shared_subscription_available.deep_view(),
            server_keep_alive: self.server_keep_alive.deep_view(),
            response_information: self.response_information.deep_view(),
            server_reference: self.server_reference.deep_view(),
            authentication_method: self.authentication_method.deep_view(),
            authentication_data: self.authentication_data.deep_view(),
        }
    }
}

/// A Publish packet. `packet_id` is there exactly where `qos` is not `AtMostOnce`.
#[derive(Clone, Debug, PartialEq, Eq)]
pub struct PublishPacket {
    pub is_duplicate: bool,
    pub qos: QoS,
    pub retain: bool,
    pub topic_name: String,
    pub packet_id: Option<u16>,
    pub payload_format_indicator: Option<u8>,
    pub message_expiry_interval: Option<u32>,
    pub topic_alias: Option<u16>,
    pub response_topic: Option<String>,
    pub correlation_data: Option<Vec<u8>>,
    pub user_properties: Vec<UserProperty>,
    pub subscription_identifier: Option<u32>,
    pub content_type: Option<String>,
    pub payload: Vec<u8>,
}

/// The model of a `PublishPacket`.
pub struct PublishView {
    pub is_duplicate: bool,
    pub qos: QoS,
    pub retain: bool,
    pub topic_name: Seq<char>,
    pub packet_id: Option<u16>,
    pub payload_format_indicator: Option<u8>,
    pub message_expiry_interval: Option<u32>,
    pub topic_alias: Option<u16>,
    pub response_topic: Option<Seq<char>>,
    pub correlation_data: Option<Seq<u8>>,
    pub user_properties: Seq<(Seq<char>, Seq<char>)>,
    pub subscription_identifier: Option<u32>,
    pub content_type: Option<Seq<char>>,
    pub payload: Seq<u8>,
}

impl DeepView for PublishPacket {
    type V = PublishView;

    open spec fn deep_view(&self) -> PublishView {
        PublishView {
            is_duplicate: self.is_duplicate.deep_view(),
            qos: self.qos.deep_view(),
            retain: self.retain.deep_view(),
            topic_name: self.topic_name.deep_view(),
            packet_id: self.packet_id.deep_view(),
            payload_format_indicator: self.payload_format_indicator.deep_view(),
            message_expiry_interval: self.message_expiry_interval.deep_view(),
            topic_alias: self.topic_alias.deep_view(),
            response_topic: self.response_topic.deep_view(),
            correlation_data: self.correlation_data.deep_view(),
            user_properties: self.user_properties.deep_view(),
            subscription_identifier: self.subscription_identifier.deep_view(),
            content_type: self.content_type.deep_view(),
            payload: self.payload.deep_view(),
        }
    }
}

/// A PublishAck packet.
#[derive(Clone, Debug, PartialEq, Eq)]
pub struct PublishAckPacket {
    pub packet_id: u16,
    pub reason_code: PublishAckReason,
    pub reason_string: Option<String>,
    pub user_properties: Vec<UserProperty>,
}

/// The model of a `PublishAckPacket`.
pub struct PublishAckView {
    pub packet_id: u16,
    pub reason_code: PublishAckReason,
    pub reason_string: Option<Seq<char>>,
    pub user_properties: Seq<(Seq<char>, Seq<char>)>,
}

impl DeepView for PublishAckPacket {
    type V = PublishAckView;

    open spec fn deep_view(&self) -> PublishAckView {
        PublishAckView {
            packet_id: self.packet_id.deep_view(),
            reason_code: self.reason_code.deep_view(),
            reason_string: self.reason_string.deep_view(),
            user_properties: self.user_properties.deep_view(),
        }
    }
}

/// A PublishReceived packet.
#[derive(Clone, Debug, PartialEq, Eq)]
pub struct PublishReceivedPacket {
    pub packet_id: u16,
    pub reason_code: PublishReceivedReason,
    pub reason_string: Option<String>,
    pub user_properties: Vec<UserProperty>,
}

/// The model of a `PublishReceivedPacket`.
pub struct PublishReceivedView {
    pub packet_id: u16,
    pub reason_code: PublishReceivedReason,
    pub reason_string: Option<Seq<char>>,
    pub user_properties: Seq<(Seq<char>, Seq<char>)>,
}

impl DeepView for PublishReceivedPacket {
    type V = PublishReceivedView;

    open spec fn deep_view(&self) -> PublishReceivedView {
        PublishReceivedView {
            packet_id: self.packet_id.deep_view(),
            reason_code: self.reason_code.deep_view(),
            reason_string: self.reason_string.deep_view(),
            user_properties: self.user_properties.deep_view(),
        }
    }
}

/// A PublishRelease packet.
#[derive(Clone, Debug, PartialEq, Eq)]
pub struct PublishReleasePacket {
    pub packet_id: u16,
    pub reason_code: PublishReleaseReason,
    pub reason_string: Option<String>,
    pub user_properties: Vec<UserProperty>,
}

/// The model of a `PublishReleasePacket`.
pub struct PublishReleaseView {
    pub packet_id: u16,
    pub reason_code: PublishReleaseReason,
    pub reason_string: Option<Seq<char>>,
    pub user_properties: Seq<(Seq<char>, Seq<char>)>,
}

impl DeepView for PublishReleasePacket {
    type V = PublishReleaseView;

    open spec fn deep_view(&self) -> PublishReleaseView {
        PublishReleaseView {
            packet_id: self.packet_id.deep_view(),
            reason_code: self.reason_code.deep_view(),
            reason_string: self.reason_string.deep_view(),
            user_properties: self.user_properties.deep_view(),
        }
    }
}

/// A PublishComplete packet.
#[derive(Clone, Debug, PartialEq, Eq)]
pub struct PublishCompletePacket {
    pub packet_id: u16,
    pub reason_code: PublishCompleteReason,
    pub reason_string: Option<String>,
    pub user_properties: Vec<UserProperty>,
}

/// The model of a `PublishCompletePacket`.
pub struct PublishCompleteView {
    pub packet_id: u16,
    pub reason_code: PublishCompleteReason,
    pub reason_string: Option<Seq<char>>,
    pub user_properties: Seq<(Seq<char>, Seq<char>)>,
}

impl DeepView for PublishCompletePacket {
    type V = PublishCompleteView;

    open spec fn deep_view(&self) -> PublishCompleteView {
        PublishCompleteView {
            packet_id: self.packet_id.deep_view(),
            reason_code: self.reason_code.deep_view(),
            reason_string: self.reason_string.deep_view(),
            user_properties: self.user_properties.deep_view(),
        }
    }
}

/// A Subscribe packet.
#[derive(Clone, Debug, PartialEq, Eq)]
pub struct SubscribePacket {
    pub packet_id: u16,
    pub subscription_identifier: Option<u32>,
    pub user_properties: Vec<UserProperty>,
    pub subscription_topics: Vec<SubscriptionTopic>,
}

/// The model of a `SubscribePacket`.
pub struct SubscribeView {
    pub packet_id: u16,
    pub subscription_identifier: Option<u32>,
    pub user_properties: Seq<(Seq<char>, Seq<char>)>,
    pub subscription_topics: Seq<SubscriptionTopicView>,
}

impl DeepView for SubscribePacket {
    type V = SubscribeView;

    open spec fn deep_view(&self) -> SubscribeView {
        SubscribeView {
            packet_id: self.packet_id.deep_view(),
            subscription_identifier: self.subscription_identifier.deep_view(),
            user_properties: self.user_properties.deep_view(),
            subscription_topics: self.subscription_topics.deep_view(),
        }
    }
}

/// A SubscribeAck packet.
#[derive(Clone, Debug, PartialEq, Eq)]
pub struct SubscribeAckPacket {
    pub packet_id: u16,
    pub reason_string: Option<String>,
    pub user_properties: Vec<UserProperty>,
    pub reason_codes: Vec<SubscribeAckReason>,
}

/// The model of a `SubscribeAckPacket`.
pub struct SubscribeAckView {
    pub packet_id: u16,
    pub reason_string: Option<Seq<char>>,
    pub user_properties: Seq<(Seq<char>, Seq<char>)>,
    pub reason_codes: Seq<SubscribeAckReason>,
}

impl DeepView for SubscribeAckPacket {
    type V = SubscribeAckView;

    open spec fn deep_view(&self) -> SubscribeAckView {
        SubscribeAckView {
            packet_id: self.packet_id.deep_view(),
            reason_string: self.reason_string.deep_view(),
            user_properties: self.user_properties.deep_view(),
            reason_codes: self.reason_codes.deep_view(),
        }
    }
}

/// An Unsubscribe packet.
#[derive(Clone, Debug, PartialEq, Eq)]
pub struct UnsubscribePacket {
    pub packet_id: u16,
    pub user_properties: Vec<UserProperty>,
    pub topics: Vec<String>,
}

/// The model of a `UnsubscribePacket`.
pub struct UnsubscribeView {
    pub packet_id: u16,
    pub user_properties: Seq<(Seq<char>, Seq<char>)>,
    pub topics: Seq<Seq<char>>,
}

impl DeepView for UnsubscribePacket {
    type V = UnsubscribeView;

    open spec fn deep_view(&self) -> UnsubscribeView {
        UnsubscribeView {
            packet_id: self.packet_id.deep_view(),
            user_properties: self.user_properties.deep_view(),
            topics: self.topics.deep_view(),
        }
    }
}

/// An UnsubscribeAck packet.
#[derive(Clone, Debug, PartialEq, Eq)]
pub struct UnsubscribeAckPacket {
    pub packet_id: u16,
    pub reason_string: Option<String>,
    pub user_properties: Vec<UserProperty>,
    pub reason_codes: Vec<UnsubscribeAckReason>,
}

/// The model of a `UnsubscribeAckPacket`.
pub struct UnsubscribeAckView {
    pub packet_id: u16,
    pub reason_string: Option<Seq<char>>,
    pub user_properties: Seq<(Seq<char>, Seq<char>)>,
    pub reason_codes: Seq<UnsubscribeAckReason>,
}

impl DeepView for UnsubscribeAckPacket {
    type V = UnsubscribeAckView;

    open spec fn deep_view(&self) -> UnsubscribeAckView {
        UnsubscribeAckView {
            packet_id: self.packet_id.deep_view(),
            reason_string: self.reason_string.deep_view(),
            user_properties: self.user_properties.deep_view(),
            reason_codes: self.reason_codes.deep_view(),
        }
    }
}

/// A Disconnect packet.
#[derive(Clone, Debug, PartialEq, Eq)]
pub struct DisconnectPacket {
    pub reason_code: DisconnectReason,
    pub session_expiry_interval: Option<u32>,
    pub reason_string: Option<String>,
    pub user_properties: Vec<UserProperty>,
    pub server_reference: Option<String>,
}

/// The model of a `DisconnectPacket`.
pub struct DisconnectView {
    pub reason_code: DisconnectReason,
    pub session_expiry_interval: Option<u32>,
    pub reason_string: Option<Seq<char>>,
    pub user_properties: Seq<(Seq<char>, Seq<char>)>,
    pub server_reference: Option<Seq<char>>,
}

impl DeepView for DisconnectPacket {
    type V = DisconnectView;

    open spec fn deep_view(&self) -> DisconnectView {
        DisconnectView {
            reason_code: self.reason_code.deep_view(),
            session_expiry_interval: self.session_expiry_interval.deep_view(),
            reason_string: self.reason_string.deep_view(),
            user_properties: self.user_properties.deep_view(),
            server_reference: self.server_reference.deep_view(),
        }
    }
}

/// An Authenticate packet.
#[derive(Clone, Debug, PartialEq, Eq)]
pub struct AuthenticatePacket {
    pub reason_code: AuthenticateReason,
    pub authentication_method: Option<String>,
    pub authentication_data: Option<Vec<u8>>,
    pub reason_string: Option<String>,
    pub user_properties: Vec<UserProperty>,
}

/// The model of a `AuthenticatePacket`.
pub struct AuthenticateView {
    pub reason_code: AuthenticateReason,
    pub authentication_method: Option<Seq<char>>,
    pub authentication_data: Option<Seq<u8>>,
    pub reason_string: Option<Seq<char>>,
    pub user_properties: Seq<(Seq<char>, Seq<char>)>,
}

impl DeepView for AuthenticatePacket {
    type V = AuthenticateView;

    open spec fn deep_view(&self) -> AuthenticateView {
        AuthenticateView {
            reason_code: self.reason_code.deep_view(),
            authentication_method: self.authentication_method.deep_view(),
            authentication_data: self.authentication_data.deep_view(),
            reason_string: self.reason_string.deep_view(),
            user_properties: self.user_properties.deep_view(),
        }
    }
}

/// An MQTT v5.0 control packet.
#[derive(Clone, Debug, PartialEq, Eq)]
pub enum Packet {
    Connect(ConnectPacket),
    ConnectAck(ConnectAckPacket),
    Publish(PublishPacket),
    PublishAck(PublishAckPacket),
    PublishReceived(PublishReceivedPacket),
    PublishRelease(PublishReleasePacket),
    PublishComplete(PublishCompletePacket),
    Subscribe(SubscribePacket),
    SubscribeAck(SubscribeAckPacket),
    Unsubscribe(UnsubscribePacket),
    UnsubscribeAck(UnsubscribeAckPacket),
    PingRequest,
    PingResponse,
    Disconnect(DisconnectPacket),
    Authenticate(AuthenticatePacket),
}

/// The model of a `Packet`.
pub enum PacketView {
    Connect(ConnectView),
    ConnectAck(ConnectAckView),
    Publish(PublishView),
    PublishAck(PublishAckView),
    PublishReceived(PublishReceivedView),
    PublishRelease(PublishReleaseView),
    PublishComplete(PublishCompleteView),
    Subscribe(SubscribeView),
    SubscribeAck(SubscribeAckView),
    Unsubscribe(UnsubscribeView),
    UnsubscribeAck(UnsubscribeAckView),
    PingRequest,
    PingResponse,
    Disconnect(DisconnectView),
    Authenticate(AuthenticateView),
}

impl DeepView for Packet {
    type V = PacketView;

    open spec fn deep_view(&self) -> PacketView {
        match self {
            Packet::Connect(packet) => PacketView::Connect(packet.deep_view()),
            Packet::ConnectAck(packet) => PacketView::ConnectAck(packet.deep_view()),
            Packet::Publish(packet) => PacketView::Publish(packet.deep_view()),
            Packet::PublishAck(packet) => PacketView::PublishAck(packet.deep_view()),
            Packet::PublishReceived(packet) => PacketView::PublishReceived(packet.deep_view()),
            Packet::PublishRelease(packet) => PacketView::PublishRelease(packet.deep_view()),
            Packet::PublishComplete(packet) => PacketView::PublishComplete(packet.deep_view()),
            Packet::Subscribe(packet) => PacketView::Subscribe(packet.deep_view()),
            Packet::SubscribeAck(packet) => PacketView::SubscribeAck(packet.deep_view()),
            Packet::Unsubscribe(packet) => PacketView::Unsubscribe(packet.deep_view()),
            Packet::UnsubscribeAck(packet) => PacketView::UnsubscribeAck(packet.deep_view()),
            Packet::PingRequest => PacketView::PingRequest,
            Packet::PingResponse => PacketView::PingResponse,
            Packet::Disconnect(packet) => PacketView::Disconnect(packet.deep_view()),
            Packet::Authenticate(packet) => PacketView::Authenticate(packet.deep_view()),
        }
    }
}

impl PacketView {
    /// The kind of the packet.
    pub open spec fn kind(self) -> PacketType {
        match self {
            PacketView::Connect(_) => PacketType::Connect,
            PacketView::ConnectAck(_) => PacketType::ConnectAck,
            PacketView::Publish(_) => PacketType::Publish,
            PacketView::PublishAck(_) => PacketType::PublishAck,
            PacketView::PublishReceived(_) => PacketType::PublishReceived,
            PacketView::PublishRelease(_) => PacketType::PublishRelease,
            PacketView::PublishComplete(_) => PacketType::PublishComplete,
            PacketView::Subscribe(_) => PacketType::Subscribe,
            PacketView::SubscribeAck(_) => PacketType::SubscribeAck,
            PacketView::Unsubscribe(_) => PacketType::Unsubscribe,
            PacketView::UnsubscribeAck(_) => PacketType::UnsubscribeAck,
            PacketView::PingRequest => PacketType::PingRequest,
            PacketView::PingResponse => PacketType::PingResponse,
            PacketView::Disconnect(_) => PacketType::Disconnect,
            PacketView::Authenticate(_) => PacketType::Authenticate,
        }
    }
}

impl Packet {
    /// The kind of the packet.
    pub fn packet_type(&self) -> (kind: PacketType)
        ensures
            kind == self.deep_view().kind(),
    {
        match self {
            Packet::Connect(_) => PacketType::Connect,
            Packet::ConnectAck(_) => PacketType::ConnectAck,
            Packet::Publish(_) => PacketType::Publish,
            Packet::PublishAck(_) => PacketType::PublishAck,
            Packet::PublishReceived(_) => PacketType::PublishReceived,
            Packet::PublishRelease(_) => PacketType::PublishRelease,
            Packet::PublishComplete(_) => PacketType::PublishComplete,
            Packet::Subscribe(_) => PacketType::Subscribe,
            Packet::SubscribeAck(_) => PacketType::SubscribeAck,
            Packet::Unsubscribe(_) => PacketType::Unsubscribe,
            Packet::UnsubscribeAck(_) => PacketType::UnsubscribeAck,
            Packet::PingRequest => PacketType::PingRequest,
            Packet::PingResponse => PacketType::PingResponse,
            Packet::Disconnect(_) => PacketType::Disconnect,
            Packet::Authenticate(_) => PacketType::Authenticate,
        }
    }
}

} // verus!

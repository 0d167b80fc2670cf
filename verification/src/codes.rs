//! The closed sets of codes that the wire format names by a number: packet
//! kinds, qualities of service, and one set of reason codes for each packet
//! kind that carries one.
//!
//! Every set has the same four items: `code`, the number of a member;
//! `from_code`, the member of a number, if it has one; and `to_u8` and
//! `from_u8`, which compute the two. For every set `from_code` is proved to be
//! the inverse of `code`.

use vstd::prelude::*;

verus! {

/// The quality of service of a delivery.
#[derive(Clone, Copy, Debug, PartialEq, Eq, Structural)]
pub enum QoS {
    AtMostOnce,
    AtLeastOnce,
    ExactlyOnce,
}

impl DeepView for QoS {
    type V = QoS;

    open spec fn deep_view(&self) -> QoS {
        *self
    }
}

impl QoS {
    /// The two-bit field that stands for a member on the wire.
    pub open spec fn code(self) -> u8 {
        match self {
            QoS::AtMostOnce => 0,
            QoS::AtLeastOnce => 1,
            QoS::ExactlyOnce => 2,
        }
    }

    /// The member that a two-bit field stands for, if it stands for one.
    pub open spec fn from_code(code: u8) -> Option<QoS> {
        match code {
            0u8 => Some(QoS::AtMostOnce),
            1u8 => Some(QoS::AtLeastOnce),
            2u8 => Some(QoS::ExactlyOnce),
            _ => None,
        }
    }

    /// The number that stands for this member on the wire.
    pub fn to_u8(self) -> (code: u8)
        ensures
            code == self.code(),
    {
        match self {
            QoS::AtMostOnce => 0,
            QoS::AtLeastOnce => 1,
            QoS::ExactlyOnce => 2,
        }
    }

    /// The member that `code` stands for, if it stands for one.
    pub fn from_u8(code: u8) -> (member: Option<QoS>)
        ensures
            member == QoS::from_code(code),
    {
        match code {
            0 => Some(QoS::AtMostOnce),
            1 => Some(QoS::AtLeastOnce),
            2 => Some(QoS::ExactlyOnce),
            _ => None,
        }
    }

    /// `from_code` undoes `code`, and gives a member for no other number.
    pub proof fn code_is_invertible(member: QoS, code: u8)
        ensures
            QoS::from_code(member.code()) == Some(member),
            QoS::from_code(code) == Some(member) ==> member.code() == code,
    {
    }
}

/// When a subscription has retained messages sent to it.
#[derive(Clone, Copy, Debug, PartialEq, Eq, Structural)]
pub enum RetainHandling {
    SendAtSubscribeTime,
    SendAtSubscribeTimeIfNonexistent,
    DoNotSend,
}

impl DeepView for RetainHandling {
    type V = RetainHandling;

    open spec fn deep_view(&self) -> RetainHandling {
        *self
    }
}

impl RetainHandling {
    /// The two-bit field that stands for a member on the wire.
    pub open spec fn code(self) -> u8 {
        match self {
            RetainHandling::SendAtSubscribeTime => 0,
            RetainHandling::SendAtSubscribeTimeIfNonexistent => 1,
            RetainHandling::DoNotSend => 2,
        }
    }

    /// The member that a two-bit field stands for, if it stands for one.
    pub open spec fn from_code(code: u8) -> Option<RetainHandling> {
        match code {
            0u8 => Some(RetainHandling::SendAtSubscribeTime),
            1u8 => Some(RetainHandling::SendAtSubscribeTimeIfNonexistent),
            2u8 => Some(RetainHandling::DoNotSend),
            _ => None,
        }
    }

    /// The number that stands for this member on the wire.
    pub fn to_u8(self) -> (code: u8)
        ensures
            code == self.code(),
    {
        match self {
            RetainHandling::SendAtSubscribeTime => 0,
            RetainHandling::SendAtSubscribeTimeIfNonexistent => 1,
            RetainHandling::DoNotSend => 2,
        }
    }

    /// The member that `code` stands for, if it stands for one.
    pub fn from_u8(code: u8) -> (member: Option<RetainHandling>)
        ensures
            member == RetainHandling::from_code(code),
    {
        match code {
            0 => Some(RetainHandling::SendAtSubscribeTime),
            1 => Some(RetainHandling::SendAtSubscribeTimeIfNonexistent),
            2 => Some(RetainHandling::DoNotSend),
            _ => None,
        }
    }

    /// `from_code` undoes `code`, and gives a member for no other number.
    pub proof fn code_is_invertible(member: RetainHandling, code: u8)
        ensures
            RetainHandling::from_code(member.code()) == Some(member),
            RetainHandling::from_code(code) == Some(member) ==> member.code() == code,
    {
    }
}

/// The kind of a control packet, held in the upper nibble of its first byte.
#[derive(Clone, Copy, Debug, PartialEq, Eq, Structural)]
pub enum PacketType {
    Connect,
    ConnectAck,
    Publish,
    PublishAck,
    PublishReceived,
    PublishRelease,
    PublishComplete,
    Subscribe,
    SubscribeAck,
    Unsubscribe,
    UnsubscribeAck,
    PingRequest,
    PingResponse,
    Disconnect,
    Authenticate,
}

impl DeepView for PacketType {
    type V = PacketType;

    open spec fn deep_view(&self) -> PacketType {
        *self
    }
}

impl PacketType {
    /// The nibble that stands for a member on the wire.
    pub open spec fn code(self) -> u8 {
        match self {
            PacketType::Connect => 1,
            PacketType::ConnectAck => 2,
            PacketType::Publish => 3,
            PacketType::PublishAck => 4,
            PacketType::PublishReceived => 5,
            PacketType::PublishRelease => 6,
            PacketType::PublishComplete => 7,
            PacketType::Subscribe => 8,
            PacketType::SubscribeAck => 9,
            PacketType::Unsubscribe => 10,
            PacketType::UnsubscribeAck => 11,
            PacketType::PingRequest => 12,
            PacketType::PingResponse => 13,
            PacketType::Disconnect => 14,
            PacketType::Authenticate => 15,
        }
    }

    /// The member that a nibble stands for, if it stands for one.
    pub open spec fn from_code(code: u8) -> Option<PacketType> {
        match code {
            1u8 => Some(PacketType::Connect),
            2u8 => Some(PacketType::ConnectAck),
            3u8 => Some(PacketType::Publish),
            4u8 => Some(PacketType::PublishAck),
            5u8 => Some(PacketType::PublishReceived),
            6u8 => Some(PacketType::PublishRelease),
            7u8 => Some(PacketType::PublishComplete),
            8u8 => Some(PacketType::Subscribe),
            9u8 => Some(PacketType::SubscribeAck),
            10u8 => Some(PacketType::Unsubscribe),
            11u8 => Some(PacketType::UnsubscribeAck),
            12u8 => Some(PacketType::PingRequest),
            13u8 => Some(PacketType::PingResponse),
            14u8 => Some(PacketType::Disconnect),
            15u8 => Some(PacketType::Authenticate),
            _ => None,
        }
    }

    /// The number that stands for this member on the wire.
    pub fn to_u8(self) -> (code: u8)
        ensures
            code == self.code(),
    {
        match self {
            PacketType::Connect => 1,
            PacketType::ConnectAck => 2,
            PacketType::Publish => 3,
            PacketType::PublishAck => 4,
            PacketType::PublishReceived => 5,
            PacketType::PublishRelease => 6,
            PacketType::PublishComplete => 7,
            PacketType::Subscribe => 8,
            PacketType::SubscribeAck => 9,
            PacketType::Unsubscribe => 10,
            PacketType::UnsubscribeAck => 11,
            PacketType::PingRequest => 12,
            PacketType::PingResponse => 13,
            PacketType::Disconnect => 14,
            PacketType::Authenticate => 15,
        }
    }

    /// The member that `code` stands for, if it stands for one.
    pub fn from_u8(code: u8) -> (member: Option<PacketType>)
        ensures
            member == PacketType::from_code(code),
    {
        match code {
            1 => Some(PacketType::Connect),
            2 => Some(PacketType::ConnectAck),
            3 => Some(PacketType::Publish),
            4 => Some(PacketType::PublishAck),
            5 => Some(PacketType::PublishReceived),
            6 => Some(PacketType::PublishRelease),
            7 => Some(PacketType::PublishComplete),
            8 => Some(PacketType::Subscribe),
            9 => Some(PacketType::SubscribeAck),
            10 => Some(PacketType::Unsubscribe),
            11 => Some(PacketType::UnsubscribeAck),
            12 => Some(PacketType::PingRequest),
            13 => Some(PacketType::PingResponse),
            14 => Some(PacketType::Disconnect),
            15 => Some(PacketType::Authenticate),
            _ => None,
        }
    }

    /// `from_code` undoes `code`, and gives a member for no other number.
    pub proof fn code_is_invertible(member: PacketType, code: u8)
        ensures
            PacketType::from_code(member.code()) == Some(member),
            PacketType::from_code(code) == Some(member) ==> member.code() == code,
    {
    }
}

/// The reason code of a ConnectAck packet.
#[derive(Clone, Copy, Debug, PartialEq, Eq, Structural)]
pub enum ConnectReason {
    Success,
    UnspecifiedError,
    MalformedPacket,
    ProtocolError,
    ImplementationSpecificError,
    UnsupportedProtocolVersion,
    ClientIdentifierNotValid,
    BadUserNameOrPassword,
    NotAuthorized,
    ServerUnavailable,
    ServerBusy,
    Banned,
    BadAuthenticationMethod,
    TopicNameInvalid,
    PacketTooLarge,
    QuotaExceeded,
    PayloadFormatInvalid,
    RetainNotSupported,
    QosNotSupported,
    UseAnotherServer,
    ServerMoved,
    ConnectionRateExceeded,
}

impl DeepView for ConnectReason {
    type V = ConnectReason;

    open spec fn deep_view(&self) -> ConnectReason {
        *self
    }
}

impl ConnectReason {
    /// The byte that stands for a member on the wire.
    pub open spec fn code(self) -> u8 {
        match self {
            ConnectReason::Success => 0,
            ConnectReason::UnspecifiedError => 128,
            ConnectReason::MalformedPacket => 129,
            ConnectReason::ProtocolError => 130,
            ConnectReason::ImplementationSpecificError => 131,
            ConnectReason::UnsupportedProtocolVersion => 132,
            ConnectReason::ClientIdentifierNotValid => 133,
            ConnectReason::BadUserNameOrPassword => 134,
            ConnectReason::NotAuthorized => 135,
            ConnectReason::ServerUnavailable => 136,
            ConnectReason::ServerBusy => 137,
            ConnectReason::Banned => 138,
            ConnectReason::BadAuthenticationMethod => 140,
            ConnectReason::TopicNameInvalid => 144,
            ConnectReason::PacketTooLarge => 149,
            ConnectReason::QuotaExceeded => 151,
            ConnectReason::PayloadFormatInvalid => 153,
            ConnectReason::RetainNotSupported => 154,
            ConnectReason::QosNotSupported => 155,
            ConnectReason::UseAnotherServer => 156,
            ConnectReason::ServerMoved => 157,
            ConnectReason::ConnectionRateExceeded => 159,
        }
    }

    /// The member that a byte stands for, if it stands for one.
    pub open spec fn from_code(code: u8) -> Option<ConnectReason> {
        match code {
            0u8 => Some(ConnectReason::Success),
            128u8 => Some(ConnectReason::UnspecifiedError),
            129u8 => Some(ConnectReason::MalformedPacket),
            130u8 => Some(ConnectReason::ProtocolError),
            131u8 => Some(ConnectReason::ImplementationSpecificError),
            132u8 => Some(ConnectReason::UnsupportedProtocolVersion),
            133u8 => Some(ConnectReason::ClientIdentifierNotValid),
            134u8 => Some(ConnectReason::BadUserNameOrPassword),
            135u8 => Some(ConnectReason::NotAuthorized),
            136u8 => Some(ConnectReason::ServerUnavailable),
            137u8 => Some(ConnectReason::ServerBusy),
            138u8 => Some(ConnectReason::Banned),
            140u8 => Some(ConnectReason::BadAuthenticationMethod),
            144u8 => Some(ConnectReason::TopicNameInvalid),
            149u8 => Some(ConnectReason::PacketTooLarge),
            151u8 => Some(ConnectReason::QuotaExceeded),
            153u8 => Some(ConnectReason::PayloadFormatInvalid),
            154u8 => Some(ConnectReason::RetainNotSupported),
            155u8 => Some(ConnectReason::QosNotSupported),
            156u8 => Some(ConnectReason::UseAnotherServer),
            157u8 => Some(ConnectReason::ServerMoved),
            159u8 => Some(ConnectReason::ConnectionRateExceeded),
            _ => None,
        }
    }

    /// The number that stands for this member on the wire.
    pub fn to_u8(self) -> (code: u8)
        ensures
            code == self.code(),
    {
        match self {
            ConnectReason::Success => 0,
            ConnectReason::UnspecifiedError => 128,
            ConnectReason::MalformedPacket => 129,
            ConnectReason::ProtocolError => 130,
            ConnectReason::ImplementationSpecificError => 131,
            ConnectReason::UnsupportedProtocolVersion => 132,
            ConnectReason::ClientIdentifierNotValid => 133,
            ConnectReason::BadUserNameOrPassword => 134,
            ConnectReason::NotAuthorized => 135,
            ConnectReason::ServerUnavailable => 136,
            ConnectReason::ServerBusy => 137,
            ConnectReason::Banned => 138,
            ConnectReason::BadAuthenticationMethod => 140,
            ConnectReason::TopicNameInvalid => 144,
            ConnectReason::PacketTooLarge => 149,
            ConnectReason::QuotaExceeded => 151,
            ConnectReason::PayloadFormatInvalid => 153,
            ConnectReason::RetainNotSupported => 154,
            ConnectReason::QosNotSupported => 155,
            ConnectReason::UseAnotherServer => 156,
            ConnectReason::ServerMoved => 157,
            ConnectReason::ConnectionRateExceeded => 159,
        }
    }

    /// The member that `code` stands for, if it stands for one.
    pub fn from_u8(code: u8) -> (member: Option<ConnectReason>)
        ensures
            member == ConnectReason::from_code(code),
    {
        match code {
            0 => Some(ConnectReason::Success),
            128 => Some(ConnectReason::UnspecifiedError),
            129 => Some(ConnectReason::MalformedPacket),
            130 => Some(ConnectReason::ProtocolError),
            131 => Some(ConnectReason::ImplementationSpecificError),
            132 => Some(ConnectReason::UnsupportedProtocolVersion),
            133 => Some(ConnectReason::ClientIdentifierNotValid),
            134 => Some(ConnectReason::BadUserNameOrPassword),
            135 => Some(ConnectReason::NotAuthorized),
            136 => Some(ConnectReason::ServerUnavailable),
            137 => Some(ConnectReason::ServerBusy),
            138 => Some(ConnectReason::Banned),
            140 => Some(ConnectReason::BadAuthenticationMethod),
            144 => Some(ConnectReason::TopicNameInvalid),
            149 => Some(ConnectReason::PacketTooLarge),
            151 => Some(ConnectReason::QuotaExceeded),
            153 => Some(ConnectReason::PayloadFormatInvalid),
            154 => Some(ConnectReason::RetainNotSupported),
            155 => Some(ConnectReason::QosNotSupported),
            156 => Some(ConnectReason::UseAnotherServer),
            157 => Some(ConnectReason::ServerMoved),
            159 => Some(ConnectReason::ConnectionRateExceeded),
            _ => None,
        }
    }

    /// `from_code` undoes `code`, and gives a member for no other number.
    pub proof fn code_is_invertible(member: ConnectReason, code: u8)
        ensures
            ConnectReason::from_code(member.code()) == Some(member),
            ConnectReason::from_code(code) == Some(member) ==> member.code() == code,
    {
    }
}

/// The reason code of a PublishAck packet.
#[derive(Clone, Copy, Debug, PartialEq, Eq, Structural)]
pub enum PublishAckReason {
    Success,
    NoMatchingSubscribers,
    UnspecifiedError,
    ImplementationSpecificError,
    NotAuthorized,
    TopicNameInvalid,
    PacketIdentifierInUse,
    QuotaExceeded,
    PayloadFormatInvalid,
}

impl DeepView for PublishAckReason {
    type V = PublishAckReason;

    open spec fn deep_view(&self) -> PublishAckReason {
        *self
    }
}

impl PublishAckReason {
    /// The byte that stands for a member on the wire.
    pub open spec fn code(self) -> u8 {
        match self {
            PublishAckReason::Success => 0,
            PublishAckReason::NoMatchingSubscribers => 16,
            PublishAckReason::UnspecifiedError => 128,
            PublishAckReason::ImplementationSpecificError => 131,
            PublishAckReason::NotAuthorized => 135,
            PublishAckReason::TopicNameInvalid => 144,
            PublishAckReason::PacketIdentifierInUse => 145,
            PublishAckReason::QuotaExceeded => 151,
            PublishAckReason::PayloadFormatInvalid => 153,
        }
    }

    /// The member that a byte stands for, if it stands for one.
    pub open spec fn from_code(code: u8) -> Option<PublishAckReason> {
        match code {
            0u8 => Some(PublishAckReason::Success),
            16u8 => Some(PublishAckReason::NoMatchingSubscribers),
            128u8 => Some(PublishAckReason::UnspecifiedError),
            131u8 => Some(PublishAckReason::ImplementationSpecificError),
            135u8 => Some(PublishAckReason::NotAuthorized),
            144u8 => Some(PublishAckReason::TopicNameInvalid),
            145u8 => Some(PublishAckReason::PacketIdentifierInUse),
            151u8 => Some(PublishAckReason::QuotaExceeded),
            153u8 => Some(PublishAckReason::PayloadFormatInvalid),
            _ => None,
        }
    }

    /// The number that stands for this member on the wire.
    pub fn to_u8(self) -> (code: u8)
        ensures
            code == self.code(),
    {
        match self {
            PublishAckReason::Success => 0,
            PublishAckReason::NoMatchingSubscribers => 16,
            PublishAckReason::UnspecifiedError => 128,
            PublishAckReason::ImplementationSpecificError => 131,
            PublishAckReason::NotAuthorized => 135,
            PublishAckReason::TopicNameInvalid => 144,
            PublishAckReason::PacketIdentifierInUse => 145,
            PublishAckReason::QuotaExceeded => 151,
            PublishAckReason::PayloadFormatInvalid => 153,
        }
    }

    /// The member that `code` stands for, if it stands for one.
    pub fn from_u8(code: u8) -> (member: Option<PublishAckReason>)
        ensures
            member == PublishAckReason::from_code(code),
    {
        match code {
            0 => Some(PublishAckReason::Success),
            16 => Some(PublishAckReason::NoMatchingSubscribers),
            128 => Some(PublishAckReason::UnspecifiedError),
            131 => Some(PublishAckReason::ImplementationSpecificError),
            135 => Some(PublishAckReason::NotAuthorized),
            144 => Some(PublishAckReason::TopicNameInvalid),
            145 => Some(PublishAckReason::PacketIdentifierInUse),
            151 => Some(PublishAckReason::QuotaExceeded),
            153 => Some(PublishAckReason::PayloadFormatInvalid),
            _ => None,
        }
    }

    /// `from_code` undoes `code`, and gives a member for no other number.
    pub proof fn code_is_invertible(member: PublishAckReason, code: u8)
        ensures
            PublishAckReason::from_code(member.code()) == Some(member),
            PublishAckReason::from_code(code) == Some(member) ==> member.code() == code,
    {
    }
}

/// The reason code of a PublishReceived packet.
#[derive(Clone, Copy, Debug, PartialEq, Eq, Structural)]
pub enum PublishReceivedReason {
    Success,
    NoMatchingSubscribers,
    UnspecifiedError,
    ImplementationSpecificError,
    NotAuthorized,
    TopicNameInvalid,
    PacketIdentifierInUse,
    QuotaExceeded,
    PayloadFormatInvalid,
}

impl DeepView for PublishReceivedReason {
    type V = PublishReceivedReason;

    open spec fn deep_view(&self) -> PublishReceivedReason {
        *self
    }
}

impl PublishReceivedReason {
    /// The byte that stands for a member on the wire.
    pub open spec fn code(self) -> u8 {
        match self {
            PublishReceivedReason::Success => 0,
            PublishReceivedReason::NoMatchingSubscribers => 16,
            PublishReceivedReason::UnspecifiedError => 128,
            PublishReceivedReason::ImplementationSpecificError => 131,
            PublishReceivedReason::NotAuthorized => 135,
            PublishReceivedReason::TopicNameInvalid => 144,
            PublishReceivedReason::PacketIdentifierInUse => 145,
            PublishReceivedReason::QuotaExceeded => 151,
            PublishReceivedReason::PayloadFormatInvalid => 153,
        }
    }

    /// The member that a byte stands for, if it stands for one.
    pub open spec fn from_code(code: u8) -> Option<PublishReceivedReason> {
        match code {
            0u8 => Some(PublishReceivedReason::Success),
            16u8 => Some(PublishReceivedReason::NoMatchingSubscribers),
            128u8 => Some(PublishReceivedReason::UnspecifiedError),
            131u8 => Some(PublishReceivedReason::ImplementationSpecificError),
            135u8 => Some(PublishReceivedReason::NotAuthorized),
            144u8 => Some(PublishReceivedReason::TopicNameInvalid),
            145u8 => Some(PublishReceivedReason::PacketIdentifierInUse),
            151u8 => Some(PublishReceivedReason::QuotaExceeded),
            153u8 => Some(PublishReceivedReason::PayloadFormatInvalid),
            _ => None,
        }
    }

    /// The number that stands for this member on the wire.
    pub fn to_u8(self) -> (code: u8)
        ensures
            code == self.code(),
    {
        match self {
            PublishReceivedReason::Success => 0,
            PublishReceivedReason::NoMatchingSubscribers => 16,
            PublishReceivedReason::UnspecifiedError => 128,
            PublishReceivedReason::ImplementationSpecificError => 131,
            PublishReceivedReason::NotAuthorized => 135,
            PublishReceivedReason::TopicNameInvalid => 144,
            PublishReceivedReason::PacketIdentifierInUse => 145,
            PublishReceivedReason::QuotaExceeded => 151,
            PublishReceivedReason::PayloadFormatInvalid => 153,
        }
    }

    /// The member that `code` stands for, if it stands for one.
    pub fn from_u8(code: u8) -> (member: Option<PublishReceivedReason>)
        ensures
            member == PublishReceivedReason::from_code(code),
    {
        match code {
            0 => Some(PublishReceivedReason::Success),
            16 => Some(PublishReceivedReason::NoMatchingSubscribers),
            128 => Some(PublishReceivedReason::UnspecifiedError),
            131 => Some(PublishReceivedReason::ImplementationSpecificError),
            135 => Some(PublishReceivedReason::NotAuthorized),
            144 => Some(PublishReceivedReason::TopicNameInvalid),
            145 => Some(PublishReceivedReason::PacketIdentifierInUse),
            151 => Some(PublishReceivedReason::QuotaExceeded),
            153 => Some(PublishReceivedReason::PayloadFormatInvalid),
            _ => None,
        }
    }

    /// `from_code` undoes `code`, and gives a member for no other number.
    pub proof fn code_is_invertible(member: PublishReceivedReason, code: u8)
        ensures
            PublishReceivedReason::from_code(member.code()) == Some(member),
            PublishReceivedReason::from_code(code) == Some(member) ==> member.code() == code,
    {
    }
}

/// The reason code of a PublishRelease packet.
#[derive(Clone, Copy, Debug, PartialEq, Eq, Structural)]
pub enum PublishReleaseReason {
    Success,
    PacketIdentifierNotFound,
}

impl DeepView for PublishReleaseReason {
    type V = PublishReleaseReason;

    open spec fn deep_view(&self) -> PublishReleaseReason {
        *self
    }
}

impl PublishReleaseReason {
    /// The byte that stands for a member on the wire.
    pub open spec fn code(self) -> u8 {
        match self {
            PublishReleaseReason::Success => 0,
            PublishReleaseReason::PacketIdentifierNotFound => 146,
        }
    }

    /// The member that a byte stands for, if it stands for one.
    pub open spec fn from_code(code: u8) -> Option<PublishReleaseReason> {
        match code {
            0u8 => Some(PublishReleaseReason::Success),
            146u8 => Some(PublishReleaseReason::PacketIdentifierNotFound),
            _ => None,
        }
    }

    /// The number that stands for this member on the wire.
    pub fn to_u8(self) -> (code: u8)
        ensures
            code == self.code(),
    {
        match self {
            PublishReleaseReason::Success => 0,
            PublishReleaseReason::PacketIdentifierNotFound => 146,
        }
    }

    /// The member that `code` stands for, if it stands for one.
    pub fn from_u8(code: u8) -> (member: Option<PublishReleaseReason>)
        ensures
            member == PublishReleaseReason::from_code(code),
    {
        match code {
            0 => Some(PublishReleaseReason::Success),
            146 => Some(PublishReleaseReason::PacketIdentifierNotFound),
            _ => None,
        }
    }

    /// `from_code` undoes `code`, and gives a member for no other number.
    pub proof fn code_is_invertible(member: PublishReleaseReason, code: u8)
        ensures
            PublishReleaseReason::from_code(member.code()) == Some(member),
            PublishReleaseReason::from_code(code) == Some(member) ==> member.code() == code,
    {
    }
}

/// The reason code of a PublishComplete packet.
#[derive(Clone, Copy, Debug, PartialEq, Eq, Structural)]
pub enum PublishCompleteReason {
    Success,
    PacketIdentifierNotFound,
}

impl DeepView for PublishCompleteReason {
    type V = PublishCompleteReason;

    open spec fn deep_view(&self) -> PublishCompleteReason {
        *self
    }
}

impl PublishCompleteReason {
    /// The byte that stands for a member on the wire.
    pub open spec fn code(self) -> u8 {
        match self {
            PublishCompleteReason::Success => 0,
            PublishCompleteReason::PacketIdentifierNotFound => 146,
        }
    }

    /// The member that a byte stands for, if it stands for one.
    pub open spec fn from_code(code: u8) -> Option<PublishCompleteReason> {
        match code {
            0u8 => Some(PublishCompleteReason::Success),
            146u8 => Some(PublishCompleteReason::PacketIdentifierNotFound),
            _ => None,
        }
    }

    /// The number that stands for this member on the wire.
    pub fn to_u8(self) -> (code: u8)
        ensures
            code == self.code(),
    {
        match self {
            PublishCompleteReason::Success => 0,
            PublishCompleteReason::PacketIdentifierNotFound => 146,
        }
    }

    /// The member that `code` stands for, if it stands for one.
    pub fn from_u8(code: u8) -> (member: Option<PublishCompleteReason>)
        ensures
            member == PublishCompleteReason::from_code(code),
    {
        match code {
            0 => Some(PublishCompleteReason::Success),
            146 => Some(PublishCompleteReason::PacketIdentifierNotFound),
            _ => None,
        }
    }

    /// `from_code` undoes `code`, and gives a member for no other number.
    pub proof fn code_is_invertible(member: PublishCompleteReason, code: u8)
        ensures
            PublishCompleteReason::from_code(member.code()) == Some(member),
            PublishCompleteReason::from_code(code) == Some(member) ==> member.code() == code,
    {
    }
}

/// The reason code that a SubscribeAck packet gives for one topic filter.
#[derive(Clone, Copy, Debug, PartialEq, Eq, Structural)]
pub enum SubscribeAckReason {
    GrantedQoSZero,
    GrantedQoSOne,
    GrantedQoSTwo,
    UnspecifiedError,
    ImplementationSpecificError,
    NotAuthorized,
    TopicFilterInvalid,
    PacketIdentifierInUse,
    QuotaExceeded,
    SharedSubscriptionsNotSupported,
    SubscriptionIdentifiersNotSupported,
    WildcardSubscriptionsNotSupported,
}

impl DeepView for SubscribeAckReason {
    type V = SubscribeAckReason;

    open spec fn deep_view(&self) -> SubscribeAckReason {
        *self
    }
}

impl SubscribeAckReason {
    /// The byte that stands for a member on the wire.
    pub open spec fn code(self) -> u8 {
        match self {
            SubscribeAckReason::GrantedQoSZero => 0,
            SubscribeAckReason::GrantedQoSOne => 1,
            SubscribeAckReason::GrantedQoSTwo => 2,
            SubscribeAckReason::UnspecifiedError => 128,
            SubscribeAckReason::ImplementationSpecificError => 131,
            SubscribeAckReason::NotAuthorized => 135,
            SubscribeAckReason::TopicFilterInvalid => 143,
            SubscribeAckReason::PacketIdentifierInUse => 145,
            SubscribeAckReason::QuotaExceeded => 151,
            SubscribeAckReason::SharedSubscriptionsNotSupported => 158,
            SubscribeAckReason::SubscriptionIdentifiersNotSupported => 161,
            SubscribeAckReason::WildcardSubscriptionsNotSupported => 162,
        }
    }

    /// The member that a byte stands for, if it stands for one.
    pub open spec fn from_code(code: u8) -> Option<SubscribeAckReason> {
        match code {
            0u8 => Some(SubscribeAckReason::GrantedQoSZero),
            1u8 => Some(SubscribeAckReason::GrantedQoSOne),
            2u8 => Some(SubscribeAckReason::GrantedQoSTwo),
            128u8 => Some(SubscribeAckReason::UnspecifiedError),
            131u8 => Some(SubscribeAckReason::ImplementationSpecificError),
            135u8 => Some(SubscribeAckReason::NotAuthorized),
            143u8 => Some(SubscribeAckReason::TopicFilterInvalid),
            145u8 => Some(SubscribeAckReason::PacketIdentifierInUse),
            151u8 => Some(SubscribeAckReason::QuotaExceeded),
            158u8 => Some(SubscribeAckReason::SharedSubscriptionsNotSupported),
            161u8 => Some(SubscribeAckReason::SubscriptionIdentifiersNotSupported),
            162u8 => Some(SubscribeAckReason::WildcardSubscriptionsNotSupported),
            _ => None,
        }
    }

    /// The number that stands for this member on the wire.
    pub fn to_u8(self) -> (code: u8)
        ensures
            code == self.code(),
    {
        match self {
            SubscribeAckReason::GrantedQoSZero => 0,
            SubscribeAckReason::GrantedQoSOne => 1,
            SubscribeAckReason::GrantedQoSTwo => 2,
            SubscribeAckReason::UnspecifiedError => 128,
            SubscribeAckReason::ImplementationSpecificError => 131,
            SubscribeAckReason::NotAuthorized => 135,
            SubscribeAckReason::TopicFilterInvalid => 143,
            SubscribeAckReason::PacketIdentifierInUse => 145,
            SubscribeAckReason::QuotaExceeded => 151,
            SubscribeAckReason::SharedSubscriptionsNotSupported => 158,
            SubscribeAckReason::SubscriptionIdentifiersNotSupported => 161,
            SubscribeAckReason::WildcardSubscriptionsNotSupported => 162,
        }
    }

    /// The member that `code` stands for, if it stands for one.
    pub fn from_u8(code: u8) -> (member: Option<SubscribeAckReason>)
        ensures
            member == SubscribeAckReason::from_code(code),
    {
        match code {
            0 => Some(SubscribeAckReason::GrantedQoSZero),
            1 => Some(SubscribeAckReason::GrantedQoSOne),
            2 => Some(SubscribeAckReason::GrantedQoSTwo),
            128 => Some(SubscribeAckReason::UnspecifiedError),
            131 => Some(SubscribeAckReason::ImplementationSpecificError),
            135 => Some(SubscribeAckReason::NotAuthorized),
            143 => Some(SubscribeAckReason::TopicFilterInvalid),
            145 => Some(SubscribeAckReason::PacketIdentifierInUse),
            151 => Some(SubscribeAckReason::QuotaExceeded),
            158 => Some(SubscribeAckReason::SharedSubscriptionsNotSupported),
            161 => Some(SubscribeAckReason::SubscriptionIdentifiersNotSupported),
            162 => Some(SubscribeAckReason::WildcardSubscriptionsNotSupported),
            _ => None,
        }
    }

    /// `from_code` undoes `code`, and gives a member for no other number.
    pub proof fn code_is_invertible(member: SubscribeAckReason, code: u8)
        ensures
            SubscribeAckReason::from_code(member.code()) == Some(member),
            SubscribeAckReason::from_code(code) == Some(member) ==> member.code() == code,
    {
    }
}

/// The reason code that an UnsubscribeAck packet gives for one topic filter.
#[derive(Clone, Copy, Debug, PartialEq, Eq, Structural)]
pub enum UnsubscribeAckReason {
    Success,
    NoSubscriptionExisted,
    UnspecifiedError,
    ImplementationSpecificError,
    NotAuthorized,
    TopicFilterInvalid,
    PacketIdentifierInUse,
}

impl DeepView for UnsubscribeAckReason {
    type V = UnsubscribeAckReason;

    open spec fn deep_view(&self) -> UnsubscribeAckReason {
        *self
    }
}

impl UnsubscribeAckReason {
    /// The byte that stands for a member on the wire.
    pub open spec fn code(self) -> u8 {
        match self {
            UnsubscribeAckReason::Success => 0,
            UnsubscribeAckReason::NoSubscriptionExisted => 17,
            UnsubscribeAckReason::UnspecifiedError => 128,
            UnsubscribeAckReason::ImplementationSpecificError => 131,
            UnsubscribeAckReason::NotAuthorized => 135,
            UnsubscribeAckReason::TopicFilterInvalid => 143,
            UnsubscribeAckReason::PacketIdentifierInUse => 145,
        }
    }

    /// The member that a byte stands for, if it stands for one.
    pub open spec fn from_code(code: u8) -> Option<UnsubscribeAckReason> {
        match code {
            0u8 => Some(UnsubscribeAckReason::Success),
            17u8 => Some(UnsubscribeAckReason::NoSubscriptionExisted),
            128u8 => Some(UnsubscribeAckReason::UnspecifiedError),
            131u8 => Some(UnsubscribeAckReason::ImplementationSpecificError),
            135u8 => Some(UnsubscribeAckReason::NotAuthorized),
            143u8 => Some(UnsubscribeAckReason::TopicFilterInvalid),
            145u8 => Some(UnsubscribeAckReason::PacketIdentifierInUse),
            _ => None,
        }
    }

    /// The number that stands for this member on the wire.
    pub fn to_u8(self) -> (code: u8)
        ensures
            code == self.code(),
    {
        match self {
            UnsubscribeAckReason::Success => 0,
            UnsubscribeAckReason::NoSubscriptionExisted => 17,
            UnsubscribeAckReason::UnspecifiedError => 128,
            UnsubscribeAckReason::ImplementationSpecificError => 131,
            UnsubscribeAckReason::NotAuthorized => 135,
            UnsubscribeAckReason::TopicFilterInvalid => 143,
            UnsubscribeAckReason::PacketIdentifierInUse => 145,
        }
    }

    /// The member that `code` stands for, if it stands for one.
    pub fn from_u8(code: u8) -> (member: Option<UnsubscribeAckReason>)
        ensures
            member == UnsubscribeAckReason::from_code(code),
    {
        match code {
            0 => Some(UnsubscribeAckReason::Success),
            17 => Some(UnsubscribeAckReason::NoSubscriptionExisted),
            128 => Some(UnsubscribeAckReason::UnspecifiedError),
            131 => Some(UnsubscribeAckReason::ImplementationSpecificError),
            135 => Some(UnsubscribeAckReason::NotAuthorized),
            143 => Some(UnsubscribeAckReason::TopicFilterInvalid),
            145 => Some(UnsubscribeAckReason::PacketIdentifierInUse),
            _ => None,
        }
    }

    /// `from_code` undoes `code`, and gives a member for no other number.
    pub proof fn code_is_invertible(member: UnsubscribeAckReason, code: u8)
        ensures
            UnsubscribeAckReason::from_code(member.code()) == Some(member),
            UnsubscribeAckReason::from_code(code) == Some(member) ==> member.code() == code,
    {
    }
}

/// The reason code of a Disconnect packet.
#[derive(Clone, Copy, Debug, PartialEq, Eq, Structural)]
pub enum DisconnectReason {
    NormalDisconnection,
    DisconnectWithWillMessage,
    UnspecifiedError,
    MalformedPacket,
    ProtocolError,
    ImplementationSpecificError,
    NotAuthorized,
    ServerBusy,
    ServerShuttingDown,
    KeepAliveTimeout,
    SessionTakenOver,
    TopicFilterInvalid,
    TopicNameInvalid,
    ReceiveMaximumExceeded,
    TopicAliasInvalid,
    PacketTooLarge,
    MessageRateTooHigh,
    QuotaExceeded,
    AdministrativeAction,
    PayloadFormatInvalid,
    RetainNotSupported,
    QosNotSupported,
    UseAnotherServer,
    ServerMoved,
    SharedSubscriptionNotAvailable,
    ConnectionRateExceeded,
    MaximumConnectTime,
    SubscriptionIdentifiersNotAvailable,
    WildcardSubscriptionsNotAvailable,
}

impl DeepView for DisconnectReason {
    type V = DisconnectReason;

    open spec fn deep_view(&self) -> DisconnectReason {
        *self
    }
}

impl DisconnectReason {
    /// The byte that stands for a member on the wire.
    pub open spec fn code(self) -> u8 {
        match self {
            DisconnectReason::NormalDisconnection => 0,
            DisconnectReason::DisconnectWithWillMessage => 4,
            DisconnectReason::UnspecifiedError => 128,
            DisconnectReason::MalformedPacket => 129,
            DisconnectReason::ProtocolError => 130,
            DisconnectReason::ImplementationSpecificError => 131,
            DisconnectReason::NotAuthorized => 135,
            DisconnectReason::ServerBusy => 137,
            DisconnectReason::ServerShuttingDown => 139,
            DisconnectReason::KeepAliveTimeout => 141,
            DisconnectReason::SessionTakenOver => 142,
            DisconnectReason::TopicFilterInvalid => 143,
            DisconnectReason::TopicNameInvalid => 144,
            DisconnectReason::ReceiveMaximumExceeded => 147,
            DisconnectReason::TopicAliasInvalid => 148,
            DisconnectReason::PacketTooLarge => 149,
            DisconnectReason::MessageRateTooHigh => 150,
            DisconnectReason::QuotaExceeded => 151,
            DisconnectReason::AdministrativeAction => 152,
            DisconnectReason::PayloadFormatInvalid => 153,
            DisconnectReason::RetainNotSupported => 154,
            DisconnectReason::QosNotSupported => 155,
            DisconnectReason::UseAnotherServer => 156,
            DisconnectReason::ServerMoved => 157,
            DisconnectReason::SharedSubscriptionNotAvailable => 158,
            DisconnectReason::ConnectionRateExceeded => 159,
            DisconnectReason::MaximumConnectTime => 160,
            DisconnectReason::SubscriptionIdentifiersNotAvailable => 161,
            DisconnectReason::WildcardSubscriptionsNotAvailable => 162,
        }
    }

    /// The member that a byte stands for, if it stands for one.
    pub open spec fn from_code(code: u8) -> Option<DisconnectReason> {
        match code {
            0u8 => Some(DisconnectReason::NormalDisconnection),
            4u8 => Some(DisconnectReason::DisconnectWithWillMessage),
            128u8 => Some(DisconnectReason::UnspecifiedError),
            129u8 => Some(DisconnectReason::MalformedPacket),
            130u8 => Some(DisconnectReason::ProtocolError),
            131u8 => Some(DisconnectReason::ImplementationSpecificError),
            135u8 => Some(DisconnectReason::NotAuthorized),
            137u8 => Some(DisconnectReason::ServerBusy),
            139u8 => Some(DisconnectReason::ServerShuttingDown),
            141u8 => Some(DisconnectReason::KeepAliveTimeout),
            142u8 => Some(DisconnectReason::SessionTakenOver),
            143u8 => Some(DisconnectReason::TopicFilterInvalid),
            144u8 => Some(DisconnectReason::TopicNameInvalid),
            147u8 => Some(DisconnectReason::ReceiveMaximumExceeded),
            148u8 => Some(DisconnectReason::TopicAliasInvalid),
            149u8 => Some(DisconnectReason::PacketTooLarge),
            150u8 => Some(DisconnectReason::MessageRateTooHigh),
            151u8 => Some(DisconnectReason::QuotaExceeded),
            152u8 => Some(DisconnectReason::AdministrativeAction),
            153u8 => Some(DisconnectReason::PayloadFormatInvalid),
            154u8 => Some(DisconnectReason::RetainNotSupported),
            155u8 => Some(DisconnectReason::QosNotSupported),
            156u8 => Some(DisconnectReason::UseAnotherServer),
            157u8 => Some(DisconnectReason::ServerMoved),
            158u8 => Some(DisconnectReason::SharedSubscriptionNotAvailable),
            159u8 => Some(DisconnectReason::ConnectionRateExceeded),
            160u8 => Some(DisconnectReason::MaximumConnectTime),
            161u8 => Some(DisconnectReason::SubscriptionIdentifiersNotAvailable),
            162u8 => Some(DisconnectReason::WildcardSubscriptionsNotAvailable),
            _ => None,
        }
    }

    /// The number that stands for this member on the wire.
    pub fn to_u8(self) -> (code: u8)
        ensures
            code == self.code(),
    {
        match self {
            DisconnectReason::NormalDisconnection => 0,
            DisconnectReason::DisconnectWithWillMessage => 4,
            DisconnectReason::UnspecifiedError => 128,
            DisconnectReason::MalformedPacket => 129,
            DisconnectReason::ProtocolError => 130,
            DisconnectReason::ImplementationSpecificError => 131,
            DisconnectReason::NotAuthorized => 135,
            DisconnectReason::ServerBusy => 137,
            DisconnectReason::ServerShuttingDown => 139,
            DisconnectReason::KeepAliveTimeout => 141,
            DisconnectReason::SessionTakenOver => 142,
            DisconnectReason::TopicFilterInvalid => 143,
            DisconnectReason::TopicNameInvalid => 144,
            DisconnectReason::ReceiveMaximumExceeded => 147,
            DisconnectReason::TopicAliasInvalid => 148,
            DisconnectReason::PacketTooLarge => 149,
            DisconnectReason::MessageRateTooHigh => 150,
            DisconnectReason::QuotaExceeded => 151,
            DisconnectReason::AdministrativeAction => 152,
            DisconnectReason::PayloadFormatInvalid => 153,
            DisconnectReason::RetainNotSupported => 154,
            DisconnectReason::QosNotSupported => 155,
            DisconnectReason::UseAnotherServer => 156,
            DisconnectReason::ServerMoved => 157,
            DisconnectReason::SharedSubscriptionNotAvailable => 158,
            DisconnectReason::ConnectionRateExceeded => 159,
            DisconnectReason::MaximumConnectTime => 160,
            DisconnectReason::SubscriptionIdentifiersNotAvailable => 161,
            DisconnectReason::WildcardSubscriptionsNotAvailable => 162,
        }
    }

    /// The member that `code` stands for, if it stands for one.
    pub fn from_u8(code: u8) -> (member: Option<DisconnectReason>)
        ensures
            member == DisconnectReason::from_code(code),
    {
        match code {
            0 => Some(DisconnectReason::NormalDisconnection),
            4 => Some(DisconnectReason::DisconnectWithWillMessage),
            128 => Some(DisconnectReason::UnspecifiedError),
            129 => Some(DisconnectReason::MalformedPacket),
            130 => Some(DisconnectReason::ProtocolError),
            131 => Some(DisconnectReason::ImplementationSpecificError),
            135 => Some(DisconnectReason::NotAuthorized),
            137 => Some(DisconnectReason::ServerBusy),
            139 => Some(DisconnectReason::ServerShuttingDown),
            141 => Some(DisconnectReason::KeepAliveTimeout),
            142 => Some(DisconnectReason::SessionTakenOver),
            143 => Some(DisconnectReason::TopicFilterInvalid),
            144 => Some(DisconnectReason::TopicNameInvalid),
            147 => Some(DisconnectReason::ReceiveMaximumExceeded),
            148 => Some(DisconnectReason::TopicAliasInvalid),
            149 => Some(DisconnectReason::PacketTooLarge),
            150 => Some(DisconnectReason::MessageRateTooHigh),
            151 => Some(DisconnectReason::QuotaExceeded),
            152 => Some(DisconnectReason::AdministrativeAction),
            153 => Some(DisconnectReason::PayloadFormatInvalid),
            154 => Some(DisconnectReason::RetainNotSupported),
            155 => Some(DisconnectReason::QosNotSupported),
            156 => Some(DisconnectReason::UseAnotherServer),
            157 => Some(DisconnectReason::ServerMoved),
            158 => Some(DisconnectReason::SharedSubscriptionNotAvailable),
            159 => Some(DisconnectReason::ConnectionRateExceeded),
            160 => Some(DisconnectReason::MaximumConnectTime),
            161 => Some(DisconnectReason::SubscriptionIdentifiersNotAvailable),
            162 => Some(DisconnectReason::WildcardSubscriptionsNotAvailable),
            _ => None,
        }
    }

    /// `from_code` undoes `code`, and gives a member for no other number.
    pub proof fn code_is_invertible(member: DisconnectReason, code: u8)
        ensures
            DisconnectReason::from_code(member.code()) == Some(member),
            DisconnectReason::from_code(code) == Some(member) ==> member.code() == code,
    {
    }
}

/// The reason code of an Authenticate packet.
#[derive(Clone, Copy, Debug, PartialEq, Eq, Structural)]
pub enum AuthenticateReason {
    Success,
    ContinueAuthentication,
    ReAuthenticate,
}

impl DeepView for AuthenticateReason {
    type V = AuthenticateReason;

    open spec fn deep_view(&self) -> AuthenticateReason {
        *self
    }
}

impl AuthenticateReason {
    /// The byte that stands for a member on the wire.
    pub open spec fn code(self) -> u8 {
        match self {
            AuthenticateReason::Success => 0,
            AuthenticateReason::ContinueAuthentication => 24,
            AuthenticateReason::ReAuthenticate => 25,
        }
    }

    /// The member that a byte stands for, if it stands for one.
    pub open spec fn from_code(code: u8) -> Option<AuthenticateReason> {
        match code {
            0u8 => Some(AuthenticateReason::Success),
            24u8 => Some(AuthenticateReason::ContinueAuthentication),
            25u8 => Some(AuthenticateReason::ReAuthenticate),
            _ => None,
        }
    }

    /// The number that stands for this member on the wire.
    pub fn to_u8(self) -> (code: u8)
        ensures
            code == self.code(),
    {
        match self {
            AuthenticateReason::Success => 0,
            AuthenticateReason::ContinueAuthentication => 24,
            AuthenticateReason::ReAuthenticate => 25,
        }
    }

    /// The member that `code` stands for, if it stands for one.
    pub fn from_u8(code: u8) -> (member: Option<AuthenticateReason>)
        ensures
            member == AuthenticateReason::from_code(code),
    {
        match code {
            0 => Some(AuthenticateReason::Success),
            24 => Some(AuthenticateReason::ContinueAuthentication),
            25 => Some(AuthenticateReason::ReAuthenticate),
            _ => None,
        }
    }

    /// `from_code` undoes `code`, and gives a member for no other number.
    pub proof fn code_is_invertible(member: AuthenticateReason, code: u8)
        ensures
            AuthenticateReason::from_code(member.code()) == Some(member),
            AuthenticateReason::from_code(code) == Some(member) ==> member.code() == code,
    {
    }
}

} // verus!

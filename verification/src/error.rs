use vstd::prelude::*;

verus! {

/// Why a byte sequence is not an MQTT v5.0 control packet.
#[derive(Clone, Copy, Debug, PartialEq, Eq, Structural)]
pub enum DecodeError {
    /// The upper nibble of the first byte names no packet kind.
    InvalidPacketType,
    /// A variable-byte integer runs past its fourth byte.
    InvalidRemainingLength,
    /// A property identifier names no property.
    InvalidPropertyId,
    /// A quality-of-service field holds the bit pattern 3.
    InvalidQoS,
    /// A retain-handling field holds the bit pattern 3.
    InvalidRetainHandling,
    /// A string's bytes are all there but are not UTF-8.
    InvalidUtf8,
    InvalidConnectReason,
    InvalidPublishAckReason,
    InvalidPublishReceivedReason,
    InvalidPublishReleaseReason,
    InvalidPublishCompleteReason,
    InvalidSubscribeAckReason,
    InvalidUnsubscribeAckReason,
    InvalidDisconnectReason,
    InvalidAuthenticateReason,
}

/// Why a packet has no wire form.
#[derive(Clone, Copy, Debug, PartialEq, Eq, Structural)]
pub enum EncodeError {
    /// A string takes more than 65 535 bytes as UTF-8.
    StringTooLong,
    /// Binary data has more than 65 535 bytes.
    BinaryDataTooLong,
    /// A subscription identifier is above 268 435 455.
    VariableIntTooLarge,
    /// The properties of a packet, or all that follows its fixed header, take
    /// more than 268 435 455 bytes.
    PacketTooLarge,
    /// A Publish packet has a packet identifier with `AtMostOnce`, or none
    /// with another quality of service.
    InvalidPacketId,
}

} // verus!

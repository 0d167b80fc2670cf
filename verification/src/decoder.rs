//! Reading control packets from bytes.
//!
//! Every reader takes the bytes and a position, and gives the item with the
//! position behind it, `None` where the bytes end too early, or the error
//! that the grammar in [`crate::wire`] gives for those bytes.

pub mod packet;
pub mod primitive;
pub mod property;

use crate::buffer::buffered;
use crate::codes::{PacketType, QoS};
use crate::decoder::packet::{
    decode_authenticate, decode_connect, decode_connect_ack, decode_disconnect, decode_publish,
    decode_publish_ack, decode_publish_complete, decode_publish_received, decode_publish_release,
    decode_subscribe, decode_subscribe_ack, decode_unsubscribe, decode_unsubscribe_ack,
};
use crate::decoder::primitive::{decode_variable_int, read_u8};
use crate::error::DecodeError;
use crate::laws::publish_packet_id_follows_qos;
use crate::packet::Packet;
use crate::wire::packet::{parse_frame, parse_packet};
use crate::wire::primitive::Parsed;
use bytes::BytesMut;
use vstd::prelude::*;

verus! {

/// A reader's result as an outcome of the grammar.
pub open spec fn outcome<T: DeepView>(r: Result<Option<(T, usize)>, DecodeError>) -> Parsed<T::V> {
    match r {
        Ok(Some((value, next))) => Parsed::Done { value: value.deep_view(), next: next as int },
        Ok(None) => Parsed::Incomplete,
        Err(error) => Parsed::Failed { error },
    }
}

/// A byte vector is its own model.
pub proof fn bytes_deep_view(data: Vec<u8>)
    ensures
        data.deep_view() == data@,
{
    assert(data.deep_view() =~= data@);
}

/// Reads the body of a packet of the given kind. `remaining_packet_length` is
/// the remaining length that the fixed header gave, `first_byte` the byte
/// that holds the kind and the flags.
pub fn decode_packet(
    packet_type: &PacketType,
    bytes: &[u8],
    pos: usize,
    remaining_packet_length: u32,
    first_byte: u8,
) -> (r: Result<Option<(Packet, usize)>, DecodeError>)
    ensures
        outcome(r) == parse_packet(
            *packet_type,
            bytes@,
            pos as int,
            remaining_packet_length,
            first_byte,
        ),
{
    match packet_type {
        PacketType::Connect => match decode_connect(bytes, pos)? {
            Some((packet, next)) => Ok(Some((Packet::Connect(packet), next))),
            None => Ok(None),
        },
        PacketType::ConnectAck => match decode_connect_ack(bytes, pos)? {
            Some((packet, next)) => Ok(Some((Packet::ConnectAck(packet), next))),
            None => Ok(None),
        },
        PacketType::Publish => match decode_publish(
            bytes,
            pos,
            first_byte,
            remaining_packet_length,
        )? {
            Some((packet, next)) => Ok(Some((Packet::Publish(packet), next))),
            None => Ok(None),
        },
        PacketType::PublishAck => match decode_publish_ack(bytes, pos, remaining_packet_length)? {
            Some((packet, next)) => Ok(Some((Packet::PublishAck(packet), next))),
            None => Ok(None),
        },
        PacketType::PublishReceived => match decode_publish_received(
            bytes,
            pos,
            remaining_packet_length,
        )? {
            Some((packet, next)) => Ok(Some((Packet::PublishReceived(packet), next))),
            None => Ok(None),
        },
        PacketType::PublishRelease => match decode_publish_release(
            bytes,
            pos,
            remaining_packet_length,
        )? {
            Some((packet, next)) => Ok(Some((Packet::PublishRelease(packet), next))),
            None => Ok(None),
        },
        PacketType::PublishComplete => match decode_publish_complete(
            bytes,
            pos,
            remaining_packet_length,
        )? {
            Some((packet, next)) => Ok(Some((Packet::PublishComplete(packet), next))),
            None => Ok(None),
        },
        PacketType::Subscribe => match decode_subscribe(bytes, pos, remaining_packet_length)? {
            Some((packet, next)) => Ok(Some((Packet::Subscribe(packet), next))),
            None => Ok(None),
        },
        PacketType::SubscribeAck => match decode_subscribe_ack(
            bytes,
            pos,
            remaining_packet_length,
        )? {
            Some((packet, next)) => Ok(Some((Packet::SubscribeAck(packet), next))),
            None => Ok(None),
        },
        PacketType::Unsubscribe => match decode_unsubscribe(bytes, pos, remaining_packet_length)? {
            Some((packet, next)) => Ok(Some((Packet::Unsubscribe(packet), next))),
            None => Ok(None),
        },
        PacketType::UnsubscribeAck => match decode_unsubscribe_ack(
            bytes,
            pos,
            remaining_packet_length,
        )? {
            Some((packet, next)) => Ok(Some((Packet::UnsubscribeAck(packet), next))),
            None => Ok(None),
        },
        PacketType::PingRequest => Ok(Some((Packet::PingRequest, pos))),
        PacketType::PingResponse => Ok(Some((Packet::PingResponse, pos))),
        PacketType::Disconnect => match decode_disconnect(bytes, pos, remaining_packet_length)? {
            Some((packet, next)) => Ok(Some((Packet::Disconnect(packet), next))),
            None => Ok(None),
        },
        PacketType::Authenticate => match decode_authenticate(
            bytes,
            pos,
            remaining_packet_length,
        )? {
            Some((packet, next)) => Ok(Some((Packet::Authenticate(packet), next))),
            None => Ok(None),
        },
    }
}

/// Reads the frame at the front of `bytes`: the packet, and how many bytes
/// the frame takes.
pub fn decode_frame(bytes: &[u8]) -> (r: Result<Option<(Packet, usize)>, DecodeError>)
    ensures
        outcome(r) == parse_frame(bytes@),
{
    let (first_byte, pos) = match read_u8(bytes, 0)? {
        Some(read) => read,
        None => return Ok(None),
    };
    let first_byte_val = (first_byte & 0b1111_0000) >> 4;
    assert((first_byte & 0b1111_0000) >> 4 == first_byte / 16) by (bit_vector);
    let packet_type = match PacketType::from_u8(first_byte_val) {
        Some(packet_type) => packet_type,
        None => return Err(DecodeError::InvalidPacketType),
    };
    let (remaining_packet_length, pos) = match decode_variable_int(bytes, pos)? {
        Some(read) => read,
        None => return Ok(None),
    };
    let remaining_buffer_amount = bytes.len() - pos;
    if remaining_buffer_amount < remaining_packet_length as usize {
        return Ok(None);
    }
    match decode_packet(&packet_type, bytes, pos, remaining_packet_length, first_byte)? {
        Some((packet, _)) => Ok(Some((packet, pos + remaining_packet_length as usize))),
        None => Ok(None),
    }
}

/// Takes one packet off the front of `bytes`.
///
/// Where the buffer starts with a whole frame that holds a packet, the packet
/// is returned and exactly the frame's bytes leave the buffer. Where it ends
/// before the frame does, the result is `None`; where it holds no packet, it
/// is the error; either way the buffer stays as it was.
pub fn decode_mqtt(bytes: &mut BytesMut) -> (r: Result<Option<Packet>, DecodeError>)
    ensures
        match parse_frame(buffered(*old(bytes))) {
            Parsed::Done { value, next } => {
                &&& r matches Ok(Some(packet))
                &&& packet.deep_view() == value
                &&& buffered(*final(bytes)) == buffered(*old(bytes)).skip(next)
            },
            Parsed::Incomplete => r matches Ok(None) && buffered(*final(bytes)) == buffered(
                *old(bytes),
            ),
            Parsed::Failed { error } => r == Err::<Option<Packet>, DecodeError>(error) && buffered(
                *final(bytes),
            ) == buffered(*old(bytes)),
        },
        r matches Ok(Some(Packet::Publish(publish))) ==> (publish.packet_id is Some
            <==> publish.qos != QoS::AtMostOnce),
{
    proof {
        publish_packet_id_follows_qos(buffered(*bytes));
    }
    let (packet, consumed) = match decode_frame((*bytes).as_ref())? {
        Some(read) => read,
        None => return Ok(None),
    };
    let _rest = bytes.split_to(consumed);
    Ok(Some(packet))
}

} // verus!

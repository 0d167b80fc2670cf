//! Writing control packets as bytes.
//!
//! Every writer appends the wire form of its item to a byte vector, or gives
//! the fault that [`crate::wire`] names for the item; what the vector holds
//! after a fault is not said.

pub mod packet;
pub mod primitive;
pub mod property;

use crate::buffer::buffered;
use crate::encoder::packet::{
    encode_authenticate, encode_connect, encode_connect_ack, encode_disconnect, encode_publish,
    encode_publish_ack, encode_publish_complete, encode_publish_received, encode_publish_release,
    encode_subscribe, encode_subscribe_ack, encode_unsubscribe, encode_unsubscribe_ack,
    publish_flags_byte,
};
use crate::encoder::primitive::{encode_variable_int, put_bytes};
use crate::error::EncodeError;
use crate::packet::Packet;
use crate::wire::form::{
    body_bytes, body_fault, frame_bytes, frame_fault, header_flags, valid_packet,
};
use crate::wire::primitive::VBI_MAX;
use bytes::BytesMut;
use vstd::prelude::*;

verus! {

/// A writer's result and what it did to the bytes: with no fault the bytes
/// were appended, with a fault the fault is the error.
pub open spec fn wrote(
    r: Result<(), EncodeError>,
    before: Seq<u8>,
    after: Seq<u8>,
    fault: Option<EncodeError>,
    bytes: Seq<u8>,
) -> bool {
    match fault {
        None => r is Ok && after == before + bytes,
        Some(error) => r == Err::<(), EncodeError>(error),
    }
}

/// Writes all that follows the fixed header of a packet, and gives the flags
/// for the low nibble of the first byte.
pub fn encode_body(packet: &Packet, out: &mut Vec<u8>) -> (r: Result<u8, EncodeError>)
    ensures
        match body_fault(packet.deep_view()) {
            None => r == Ok::<u8, EncodeError>(header_flags(packet.deep_view())) && final(out)@
                == old(out)@ + body_bytes(packet.deep_view()),
            Some(error) => r == Err::<u8, EncodeError>(error),
        },
        r matches Ok(flags) ==> flags < 16,
{
    match packet {
        Packet::Connect(packet) => {
            encode_connect(packet, out)?;
            Ok(0)
        },
        Packet::ConnectAck(packet) => {
            encode_connect_ack(packet, out)?;
            Ok(0)
        },
        Packet::Publish(packet) => {
            encode_publish(packet, out)?;
            Ok(publish_flags_byte(packet))
        },
        Packet::PublishAck(packet) => {
            encode_publish_ack(packet, out)?;
            Ok(0)
        },
        Packet::PublishReceived(packet) => {
            encode_publish_received(packet, out)?;
            Ok(0)
        },
        Packet::PublishRelease(packet) => {
            encode_publish_release(packet, out)?;
            Ok(2)
        },
        Packet::PublishComplete(packet) => {
            encode_publish_complete(packet, out)?;
            Ok(0)
        },
        Packet::Subscribe(packet) => {
            encode_subscribe(packet, out)?;
            Ok(2)
        },
        Packet::SubscribeAck(packet) => {
            encode_subscribe_ack(packet, out)?;
            Ok(0)
        },
        Packet::Unsubscribe(packet) => {
            encode_unsubscribe(packet, out)?;
            Ok(2)
        },
        Packet::UnsubscribeAck(packet) => {
            encode_unsubscribe_ack(packet, out)?;
            Ok(0)
        },
        Packet::PingRequest => {
            assert(out@ =~= old(out)@ + Seq::<u8>::empty());
            Ok(0)
        },
        Packet::PingResponse => {
            assert(out@ =~= old(out)@ + Seq::<u8>::empty());
            Ok(0)
        },
        Packet::Disconnect(packet) => {
            encode_disconnect(packet, out)?;
            Ok(0)
        },
        Packet::Authenticate(packet) => {
            encode_authenticate(packet, out)?;
            Ok(0)
        },
    }
}

/// The frame of a packet, or why it has none.
pub fn encode_packet(packet: &Packet) -> (r: Result<Vec<u8>, EncodeError>)
    ensures
        match frame_fault(packet.deep_view()) {
            None => r matches Ok(frame) && frame@ == frame_bytes(packet.deep_view()),
            Some(error) => r == Err::<Vec<u8>, EncodeError>(error),
        },
{
    let mut body: Vec<u8> = Vec::new();
    let flags = encode_body(packet, &mut body)?;
    assert(body@ =~= body_bytes(packet.deep_view()));
    if body.len() > VBI_MAX as usize {
        return Err(EncodeError::PacketTooLarge);
    }
    let mut frame: Vec<u8> = Vec::new();
    frame.push(packet.packet_type().to_u8() * 16 + flags);
    encode_variable_int(body.len() as u32, &mut frame)?;
    put_bytes(body.as_slice(), &mut frame);
    assert(frame@ =~= frame_bytes(packet.deep_view()));
    Ok(frame)
}

/// Appends the frame of a packet to `bytes`.
///
/// A packet that has no frame gives the fault and leaves the buffer as it
/// was. The new length of the buffer has to fit in `usize`; where that is
/// not known, [`try_encode_mqtt`] tests it.
pub fn encode_mqtt(packet: &Packet, bytes: &mut BytesMut) -> (r: Result<(), EncodeError>)
    requires
        valid_packet(packet.deep_view()) ==> buffered(*old(bytes)).len() + frame_bytes(
            packet.deep_view(),
        ).len() <= usize::MAX,
    ensures
        match frame_fault(packet.deep_view()) {
            None => r is Ok && buffered(*final(bytes)) == buffered(*old(bytes)) + frame_bytes(
                packet.deep_view(),
            ),
            Some(error) => r == Err::<(), EncodeError>(error) && buffered(*final(bytes))
                == buffered(*old(bytes)),
        },
{
    let frame = encode_packet(packet)?;
    bytes.extend_from_slice(frame.as_slice());
    Ok(())
}

/// Appends the frame of a packet to `bytes` if the buffer can take it.
///
/// The result is `true` where the frame was appended, and `false`, with the
/// buffer as it was, where the new length of the buffer would not fit in
/// `usize`. A packet that has no frame gives the fault and leaves the buffer
/// as it was.
pub fn try_encode_mqtt(packet: &Packet, bytes: &mut BytesMut) -> (r: Result<bool, EncodeError>)
    ensures
        match frame_fault(packet.deep_view()) {
            None => {
                let frame = frame_bytes(packet.deep_view());
                if buffered(*old(bytes)).len() + frame.len() <= usize::MAX {
                    r == Ok::<bool, EncodeError>(true) && buffered(*final(bytes)) == buffered(
                        *old(bytes),
                    ) + frame
                } else {
                    r == Ok::<bool, EncodeError>(false) && buffered(*final(bytes)) == buffered(
                        *old(bytes),
                    )
                }
            },
            Some(error) => r == Err::<bool, EncodeError>(error) && buffered(*final(bytes))
                == buffered(*old(bytes)),
        },
{
    let frame = encode_packet(packet)?;
    if frame.len() > usize::MAX - bytes.len() {
        return Ok(false);
    }
    bytes.extend_from_slice(frame.as_slice());
    Ok(true)
}

} // verus!

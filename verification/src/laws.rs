//! What holds of the codec as a whole, proved of every input.

pub mod packet;
pub mod primitive;
pub mod property;
pub mod settled;

use crate::codes::{PacketType, QoS};
use crate::laws::packet::{
    authenticate_reads_back, connect_ack_reads_back, connect_reads_back, disconnect_reads_back,
    publish_ack_reads_back, publish_complete_reads_back, publish_reads_back,
    publish_received_reads_back, publish_release_reads_back, subscribe_ack_reads_back,
    subscribe_reads_back, unsubscribe_ack_reads_back, unsubscribe_reads_back,
};
use crate::laws::primitive::{
    cut_vbi_is_incomplete, holds_at, holds_at_index, holds_at_split, holds_at_start,
    holds_at_within, vbi_reads_back,
};
use crate::packet::PacketView;
use crate::wire::form::{
    body_bytes, body_fault, first_byte, frame_bytes, publish_flags, valid_packet,
};
use crate::wire::packet::{parse_frame, parse_packet, parse_publish};
use crate::wire::primitive::{parse_vbi, vbi_bytes, Parsed, VBI_MAX};
use vstd::prelude::*;

verus! {

/// The body of a Publish packet that was read has a packet identifier exactly
/// where its quality of service is not `AtMostOnce`.
pub proof fn publish_body_packet_id_follows_qos(
    s: Seq<u8>,
    pos: int,
    first_byte: u8,
    remaining_length: u32,
)
    ensures
        parse_publish(s, pos, first_byte, remaining_length) matches Parsed::Done { value, .. }
            ==> (value.packet_id is Some <==> value.qos != QoS::AtMostOnce),
{
    reveal(parse_publish);
}

/// A Publish packet that was read has a packet identifier exactly where its
/// quality of service is not `AtMostOnce`.
pub proof fn publish_packet_id_follows_qos(s: Seq<u8>)
    ensures
        parse_frame(s) matches Parsed::Done { value: PacketView::Publish(publish), .. }
            ==> (publish.packet_id is Some <==> publish.qos != QoS::AtMostOnce),
{
    if s.len() > 0 && PacketType::from_code(s[0] / 16) == Some(PacketType::Publish) {
        if let Parsed::Done { value: remaining_length, next: body } = parse_vbi(s, 1) {
            publish_body_packet_id_follows_qos(s, body, s[0], remaining_length);
            assert(parse_packet(PacketType::Publish, s, body, remaining_length, s[0])
                matches Parsed::Done { value: PacketView::Publish(publish), .. } ==> (
            publish.packet_id is Some <==> publish.qos != QoS::AtMostOnce));
        }
    }
}

/// A frame that was read lies within the bytes: it takes at least its two
/// bytes of header and no more than there is.
pub proof fn frame_lies_within(s: Seq<u8>)
    ensures
        parse_frame(s) matches Parsed::Done { next, .. } ==> 2 <= next <= s.len(),
{
}

/// A variable-byte integer is written in as few bytes as hold it: one below
/// 128, two below 16 384, three below 2 097 152, else four.
pub proof fn vbi_bytes_are_minimal(v: u32)
    ensures
        vbi_bytes(v).len() == if v < 128 {
            1int
        } else if v < 16_384 {
            2int
        } else if v < 2_097_152 {
            3int
        } else {
            4int
        },
{
}

/// No form of a value that the reader takes is shorter than the one that is
/// written.
pub proof fn vbi_bytes_are_shortest(s: Seq<u8>, pos: int)
    ensures
        parse_vbi(s, pos) matches Parsed::Done { value, next } ==> next - pos >= vbi_bytes(
            value,
        ).len(),
{
}

/// The first byte of a frame holds the packet kind in its upper nibble.
pub proof fn first_byte_names_kind(packet: PacketView)
    ensures
        PacketType::from_code(first_byte(packet) / 16) == Some(packet.kind()),
        packet matches PacketView::Publish(publish) ==> first_byte(packet) == (48 + publish_flags(
            publish,
        )) as u8,
{
    PacketType::code_is_invertible(packet.kind(), packet.kind().code());
}

/// The body of a packet reads back as the packet, given its length and the
/// first byte of its frame.
pub proof fn body_reads_back(s: Seq<u8>, pos: int, packet: PacketView)
    requires
        body_fault(packet) is None,
        body_bytes(packet).len() <= VBI_MAX,
        holds_at(s, pos, body_bytes(packet)),
    ensures
        parse_packet(
            packet.kind(),
            s,
            pos,
            body_bytes(packet).len() as u32,
            first_byte(packet),
        ) matches Parsed::Done { value, .. } && value == packet,
{
    first_byte_names_kind(packet);
    match packet {
        PacketView::Connect(packet) => connect_reads_back(s, pos, packet),
        PacketView::ConnectAck(packet) => connect_ack_reads_back(s, pos, packet),
        PacketView::Publish(packet) => publish_reads_back(s, pos, packet),
        PacketView::PublishAck(packet) => publish_ack_reads_back(s, pos, packet),
        PacketView::PublishReceived(packet) => publish_received_reads_back(s, pos, packet),
        PacketView::PublishRelease(packet) => publish_release_reads_back(s, pos, packet),
        PacketView::PublishComplete(packet) => publish_complete_reads_back(s, pos, packet),
        PacketView::Subscribe(packet) => subscribe_reads_back(s, pos, packet),
        PacketView::SubscribeAck(packet) => subscribe_ack_reads_back(s, pos, packet),
        PacketView::Unsubscribe(packet) => unsubscribe_reads_back(s, pos, packet),
        PacketView::UnsubscribeAck(packet) => unsubscribe_ack_reads_back(s, pos, packet),
        PacketView::PingRequest => {},
        PacketView::PingResponse => {},
        PacketView::Disconnect(packet) => disconnect_reads_back(s, pos, packet),
        PacketView::Authenticate(packet) => authenticate_reads_back(s, pos, packet),
    }
}

/// Reading the frame of a packet, whatever follows it, gives the packet and
/// ends just behind the frame.
pub proof fn frame_is_read_from_the_front(packet: PacketView, rest: Seq<u8>)
    requires
        valid_packet(packet),
    ensures
        parse_frame(frame_bytes(packet) + rest) == (Parsed::Done {
            value: packet,
            next: frame_bytes(packet).len() as int,
        }),
{
    let s = frame_bytes(packet) + rest;
    let body = body_bytes(packet);
    let length = vbi_bytes(body.len() as u32);
    let head = seq![first_byte(packet)];
    holds_at_start(frame_bytes(packet), rest);
    holds_at_split(s, 0, head + length, body);
    holds_at_split(s, 0, head, length);
    holds_at_index(s, 0, head, 0);
    holds_at_within(s, 1 + length.len() as int, body);
    first_byte_names_kind(packet);
    vbi_reads_back(s, 1, body.len() as u32);
    body_reads_back(s, 1 + length.len() as int, packet);
}

/// Round trip: the frame of a packet reads back as the packet, and all of
/// the frame is used.
pub proof fn frame_reads_back(packet: PacketView)
    requires
        valid_packet(packet),
    ensures
        parse_frame(frame_bytes(packet)) == (Parsed::Done {
            value: packet,
            next: frame_bytes(packet).len() as int,
        }),
{
    frame_is_read_from_the_front(packet, Seq::empty());
    assert(frame_bytes(packet) + Seq::empty() =~= frame_bytes(packet));
}

/// A frame that is cut off anywhere before its end is incomplete.
pub proof fn cut_frame_is_incomplete(packet: PacketView, first: Seq<u8>, second: Seq<u8>)
    requires
        valid_packet(packet),
        first + second == frame_bytes(packet),
        second.len() > 0,
    ensures
        parse_frame(first) is Incomplete,
{
    let frame = frame_bytes(packet);
    let body = body_bytes(packet);
    let length = vbi_bytes(body.len() as u32);
    let head = seq![first_byte(packet)];
    if first.len() > 0 {
        assert forall|i: int| 0 <= i < first.len() implies first[i] == frame[i] by {
            assert((first + second)[i] == first[i]);
        }
        assert(frame[0] == first_byte(packet));
        first_byte_names_kind(packet);
        assert forall|i: int| 0 <= i < length.len() implies frame[1 + i] == length[i] by {
            assert((head + length)[1 + i] == length[i]);
        }
        if first.len() < 1 + length.len() {
            cut_vbi_is_incomplete(first, 1, body.len() as u32);
        } else {
            assert(holds_at(first, 1, length)) by {
                reveal(holds_at);
                assert(first.subrange(1, 1 + length.len() as int) =~= length);
            }
            vbi_reads_back(first, 1, body.len() as u32);
            assert(first.len() < frame.len());
        }
    }
}

/// Resumability: where a frame arrives in two parts, the first alone is
/// incomplete, and the two together read as the packet.
pub proof fn frame_resumes(packet: PacketView, first: Seq<u8>, second: Seq<u8>)
    requires
        valid_packet(packet),
        first + second == frame_bytes(packet),
        second.len() > 0,
    ensures
        parse_frame(first) is Incomplete,
        parse_frame(first + second) == (Parsed::Done {
            value: packet,
            next: frame_bytes(packet).len() as int,
        }),
{
    cut_frame_is_incomplete(packet, first, second);
    frame_reads_back(packet);
}

} // verus!

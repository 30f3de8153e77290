//! The send stage: each packet of a connection's outbound path is framed
//! and written.

use crate::command::ServerCommand;
use crate::error::FrameFault;
use crate::packet::{
    lemma_prepared_frame, Packet, PacketType, PacketView, HEADER_LENGTH, MAX_PACKET_LENGTH,
};
use crate::worker_pool::receiver::{frame, frame_of, lemma_encode_then_decode, FrameHeader};
use vstd::prelude::*;

verus! {

/// What the send stage of a connection observed.
#[derive(Debug)]
pub enum SenderEvent {
    /// A packet came down the outbound path; `None` where the path broke.
    Packet(Option<Packet>),
    /// Writing to the socket failed.
    WriteFailed,
    /// A command came in; `None` where the command channel broke.
    Command(Option<ServerCommand>),
}

/// What the send stage of a connection does next.
#[derive(Debug)]
pub enum SenderAction {
    /// Write these bytes to the socket and go on.
    Write(Vec<u8>),
    /// Tear the connection down and stop.
    DisconnectAndStop,
    /// Stop.
    Stop,
}

/// What a send action is.
pub enum SenderActionView {
    Write(Seq<u8>),
    DisconnectAndStop,
    Stop,
}

impl View for SenderAction {
    type V = SenderActionView;

    open spec fn view(&self) -> SenderActionView {
        match self {
            SenderAction::Write(bytes) => SenderActionView::Write(bytes@),
            SenderAction::DisconnectAndStop => SenderActionView::DisconnectAndStop,
            SenderAction::Stop => SenderActionView::Stop,
        }
    }
}

/// The bytes that go on the wire for a packet: its buffer, once it is
/// prepared.
pub open spec fn wire_bytes(packet: PacketView) -> Seq<u8> {
    packet.prepared().buffer
}

/// Prepares a packet and returns the bytes that go on the wire for it.
pub fn into_wire_bytes(packet: Packet) -> (bytes: Vec<u8>)
    ensures
        bytes@ == wire_bytes(packet@),
{
    let mut packet: Packet = packet;
    packet.prepare();
    packet.into_inner()
}

/// One turn of the send loop: a packet is prepared and written; a broken
/// outbound path, a failed write and a broken command channel are fatal to
/// the connection; a disconnect command ends the loop.
pub fn sender(event: SenderEvent) -> (action: SenderAction)
    ensures
        action@ == (match event {
            SenderEvent::Packet(Some(packet)) => SenderActionView::Write(wire_bytes(packet@)),
            SenderEvent::Packet(None) => SenderActionView::DisconnectAndStop,
            SenderEvent::WriteFailed => SenderActionView::DisconnectAndStop,
            SenderEvent::Command(Some(ServerCommand::Disconnect)) => SenderActionView::Stop,
            SenderEvent::Command(None) => SenderActionView::DisconnectAndStop,
        }),
{
    match event {
        SenderEvent::Packet(Some(packet)) => SenderAction::Write(into_wire_bytes(packet)),
        SenderEvent::Packet(None) => SenderAction::DisconnectAndStop,
        SenderEvent::WriteFailed => SenderAction::DisconnectAndStop,
        SenderEvent::Command(Some(ServerCommand::Disconnect)) => SenderAction::Stop,
        SenderEvent::Command(None) => SenderAction::DisconnectAndStop,
    }
}

/// What is sent is what is received: the bytes that go on the wire for a
/// packet that was written and not prepared yet decode to the packet's type
/// and to the bytes written into it, as long as these are more than none and
/// fewer than the cap, and the type is a known one.
pub proof fn lemma_sent_is_received(packet: PacketView, rest: Seq<u8>)
    requires
        packet.wf(),
        !packet.is_prepared,
        packet.position == packet.buffer.len(),
        0 < packet.buffer.len() - HEADER_LENGTH < MAX_PACKET_LENGTH,
        packet.packet_type != PacketType::NOT_RESOLVED,
    ensures
        frame_of(wire_bytes(packet) + rest) == Ok::<(FrameHeader, Seq<u8>), FrameFault>(
            (
                FrameHeader {
                    packet_length: (packet.buffer.len() - HEADER_LENGTH) as u32,
                    packet_type: packet.packet_type,
                },
                packet.buffer.subrange(HEADER_LENGTH as int, packet.buffer.len() as int),
            ),
        ),
{
    let payload = packet.buffer.subrange(HEADER_LENGTH as int, packet.buffer.len() as int);
    lemma_prepared_frame(packet);
    assert(wire_bytes(packet) =~= frame(packet.packet_type, payload));
    lemma_encode_then_decode(packet.packet_type, payload, rest);
}

} // verus!

//! The receive stage: frames are decoded from bytes, and each is handed on
//! or ends the connection.

pub mod error;

use crate::command::ServerCommand;
use crate::error::{FrameFault, ReceiverError};
use crate::packet::{Packet, PacketType, PacketView, MAX_PACKET_LENGTH};
use crate::wire::{be32, from_be32, lemma_be32_bytes_round_trip, lemma_be32_round_trip, u32_from_be, u32_to_be};
use vstd::prelude::*;
use vstd::slice::{slice_subrange, slice_to_vec};

verus! {

/// What the header of an accepted frame declares.
#[derive(Debug, Clone, Copy, PartialEq, Eq, Structural)]
pub struct FrameHeader {
    /// The number of payload bytes that follow the header.
    pub packet_length: u32,
    pub packet_type: PacketType,
}

/// The payload length that a header declares, as the unsigned number in its
/// first four bytes. Read as a signed number it is negative from 2^31 on.
pub open spec fn declared_length(header: Seq<u8>) -> u32
    recommends
        header.len() >= 8,
{
    from_be32(header.subrange(0, 4))
}

/// The type code in a header.
pub open spec fn declared_code(header: Seq<u8>) -> u32
    recommends
        header.len() >= 8,
{
    from_be32(header.subrange(4, 8))
}

/// Whether a frame may declare `length` payload bytes: more than none, and
/// fewer than the cap.
pub open spec fn is_accepted_length(length: u32) -> bool {
    0 < length < MAX_PACKET_LENGTH
}

/// What the eight bytes of a header declare, or why the frame is not
/// accepted. A length of zero or less is rejected first; then a length that
/// reaches the cap, and a type code that names no packet type.
pub open spec fn header_of(header: Seq<u8>) -> Result<FrameHeader, FrameFault>
    recommends
        header.len() >= 8,
{
    let length = declared_length(header);
    let packet_type = PacketType::spec_resolve(declared_code(header));
    if length == 0 || length >= 0x8000_0000 {
        Err(FrameFault::BelowZero)
    } else if length >= MAX_PACKET_LENGTH || packet_type == PacketType::NOT_RESOLVED {
        Err(FrameFault::TooLong)
    } else {
        Ok(FrameHeader { packet_length: length, packet_type })
    }
}

/// The frame at the head of a byte stream: its header and its payload, or
/// why there is none.
pub open spec fn frame_of(stream: Seq<u8>) -> Result<(FrameHeader, Seq<u8>), FrameFault> {
    if stream.len() < 8 {
        Err(FrameFault::Incomplete)
    } else {
        match header_of(stream.subrange(0, 8)) {
            Err(fault) => Err(fault),
            Ok(header) => if stream.len() < 8 + header.packet_length {
                Err(FrameFault::Incomplete)
            } else {
                Ok((header, stream.subrange(8, 8 + header.packet_length)))
            },
        }
    }
}

/// The bytes of a frame: the payload length, the type code, the payload.
pub open spec fn frame(packet_type: PacketType, payload: Seq<u8>) -> Seq<u8> {
    be32((payload.len() % 0x1_0000_0000) as u32) + be32(packet_type.spec_code()) + payload
}

/// Checks the eight bytes of a frame header: see `header_of`.
pub fn check_header(header: &[u8; 8]) -> (r: Result<FrameHeader, FrameFault>)
    ensures
        r == header_of(header@),
{
    let packet_length: u32 = u32_from_be(header.as_slice(), 0);
    let packet_type: PacketType = PacketType::resolve(u32_from_be(header.as_slice(), 4));
    if packet_length == 0 || packet_length >= 0x8000_0000 {
        Err(FrameFault::BelowZero)
    } else if packet_length >= MAX_PACKET_LENGTH || packet_type == PacketType::NOT_RESOLVED {
        Err(FrameFault::TooLong)
    } else {
        Ok(FrameHeader { packet_length, packet_type })
    }
}

/// Decodes the eight bytes of a frame header. The error names the reason
/// for which a frame is not accepted.
pub fn decode_header(header: &[u8; 8]) -> (r: Result<FrameHeader, ReceiverError>)
    ensures
        match header_of(header@) {
            Ok(declared) => r == Ok::<FrameHeader, ReceiverError>(declared),
            Err(fault) => r matches Err(error) && error.spec_message() == fault.spec_text(),
        },
{
    match check_header(header) {
        Ok(declared) => Ok(declared),
        Err(fault) => Err(fault.into_error()),
    }
}

/// Writes a frame out: the payload length, the type code, the payload.
pub fn encode_header(packet_type: PacketType, payload: &[u8]) -> (bytes: Vec<u8>)
    ensures
        bytes@ == frame(packet_type, payload@),
{
    let length: u32 = (payload.len() as u64 % 0x1_0000_0000) as u32;
    let length_bytes: [u8; 4] = u32_to_be(length);
    let code_bytes: [u8; 4] = u32_to_be(packet_type.code());
    let mut bytes: Vec<u8> = Vec::new();
    bytes.extend_from_slice(length_bytes.as_slice());
    bytes.extend_from_slice(code_bytes.as_slice());
    bytes.extend_from_slice(payload);
    assert(bytes@ =~= frame(packet_type, payload@));
    bytes
}

/// Decodes the frame at the head of `stream` and returns its packet and the
/// number of bytes that the frame took.
pub fn receiver_fn(stream: &[u8]) -> (r: Result<(Packet, usize), ReceiverError>)
    ensures
        match frame_of(stream@) {
            Ok((header, payload)) => {
                &&& r matches Ok((packet, taken))
                &&& packet@ == PacketView::decoded(
                    header.packet_length,
                    header.packet_type,
                    payload,
                )
                &&& taken == 8 + header.packet_length
            },
            Err(fault) => r matches Err(error) && error.spec_message() == fault.spec_text(),
        },
{
    if stream.len() < 8 {
        return Err(FrameFault::Incomplete.into_error());
    }
    let head: &[u8] = slice_subrange(stream, 0, 8);
    let header: [u8; 8] = [
        head[0],
        head[1],
        head[2],
        head[3],
        head[4],
        head[5],
        head[6],
        head[7],
    ];
    assert(header@ =~= stream@.subrange(0, 8));
    let declared: FrameHeader = match check_header(&header) {
        Ok(declared) => declared,
        Err(fault) => {
            return Err(fault.into_error());
        },
    };
    let length: usize = declared.packet_length as usize;
    if stream.len() - 8 < length {
        return Err(FrameFault::Incomplete.into_error());
    }
    let payload: Vec<u8> = slice_to_vec(slice_subrange(stream, 8, 8 + length));
    Ok(
        (
            Packet::decode_from_buffer(declared.packet_length, declared.packet_type, payload),
            8 + length,
        ),
    )
}

/// What the receive stage of a connection observed.
#[derive(Debug)]
pub enum ReceiverEvent {
    /// A frame was read, or reading failed.
    Frame(Result<Packet, ReceiverError>),
    /// A command came in; `None` where the command channel broke.
    Command(Option<ServerCommand>),
}

/// What the receive stage of a connection does next.
#[derive(Debug)]
pub enum ReceiverAction {
    /// Hand the packet to the processor stage and go on reading.
    Forward(Packet),
    /// Tear the connection down and stop.
    DisconnectAndStop,
    /// Stop.
    Stop,
}

/// One turn of the receive loop: a frame that was read goes to the
/// processor; a frame that could not be read is fatal to the connection; a
/// disconnect command ends the loop, and so does a broken command channel,
/// which also tears the connection down.
pub fn receiver(event: ReceiverEvent) -> (action: ReceiverAction)
    ensures
        action == (match event {
            ReceiverEvent::Frame(Ok(packet)) => ReceiverAction::Forward(packet),
            ReceiverEvent::Frame(Err(_)) => ReceiverAction::DisconnectAndStop,
            ReceiverEvent::Command(Some(ServerCommand::Disconnect)) => ReceiverAction::Stop,
            ReceiverEvent::Command(None) => ReceiverAction::DisconnectAndStop,
        }),
{
    match event {
        ReceiverEvent::Frame(Ok(packet)) => ReceiverAction::Forward(packet),
        ReceiverEvent::Frame(Err(_)) => ReceiverAction::DisconnectAndStop,
        ReceiverEvent::Command(Some(ServerCommand::Disconnect)) => ReceiverAction::Stop,
        ReceiverEvent::Command(None) => ReceiverAction::DisconnectAndStop,
    }
}

/// Every accepted frame is written out again as it came: its header and
/// payload, encoded, are the bytes that were decoded.
pub proof fn lemma_decode_then_encode(stream: Seq<u8>)
    requires
        frame_of(stream) is Ok,
    ensures
        ({
            let (header, payload) = frame_of(stream)->Ok_0;
            &&& is_accepted_length(header.packet_length)
            &&& header.packet_type != PacketType::NOT_RESOLVED
            &&& payload.len() == header.packet_length
            &&& frame(header.packet_type, payload) == stream.subrange(
                0,
                8 + header.packet_length,
            )
        }),
{
    let (header, payload) = frame_of(stream)->Ok_0;
    let head = stream.subrange(0, 8);
    lemma_be32_bytes_round_trip(head.subrange(0, 4));
    lemma_be32_bytes_round_trip(head.subrange(4, 8));
    PacketType::lemma_resolved_code(declared_code(head));
    assert(frame(header.packet_type, payload) =~= stream.subrange(0, 8 + header.packet_length));
}

/// Every frame of an accepted length and a known type is decoded as it was
/// written, whatever follows it in the stream.
pub proof fn lemma_encode_then_decode(packet_type: PacketType, payload: Seq<u8>, rest: Seq<u8>)
    requires
        0 < payload.len() < MAX_PACKET_LENGTH,
        packet_type != PacketType::NOT_RESOLVED,
    ensures
        frame_of(frame(packet_type, payload) + rest) == Ok::<(FrameHeader, Seq<u8>), FrameFault>(
            (FrameHeader { packet_length: payload.len() as u32, packet_type }, payload),
        ),
{
    let stream = frame(packet_type, payload) + rest;
    let head = stream.subrange(0, 8);
    let length = payload.len() as u32;
    lemma_be32_round_trip(length);
    lemma_be32_round_trip(packet_type.spec_code());
    assert(head.subrange(0, 4) =~= be32(length));
    assert(head.subrange(4, 8) =~= be32(packet_type.spec_code()));
    packet_type.lemma_code_resolves();
    assert(stream.subrange(8, 8 + length) =~= payload);
}

/// A header that declares a length of zero, a negative length, or a length
/// from the cap on is never accepted, whatever its type code.
pub proof fn lemma_bad_length_is_rejected(header: Seq<u8>)
    requires
        header.len() == 8,
        !is_accepted_length(declared_length(header)),
    ensures
        header_of(header) is Err,
        declared_length(header) == 0 ==> header_of(header) == Err::<FrameHeader, FrameFault>(
            FrameFault::BelowZero,
        ),
        declared_length(header) == 0xffff_ffff ==> header_of(header) == Err::<
            FrameHeader,
            FrameFault,
        >(FrameFault::BelowZero),
        MAX_PACKET_LENGTH <= declared_length(header) < 0x8000_0000 ==> header_of(header) == Err::<
            FrameHeader,
            FrameFault,
        >(FrameFault::TooLong),
{
}

/// A header whose type code names no packet type is never accepted.
pub proof fn lemma_unknown_type_is_rejected(header: Seq<u8>)
    requires
        header.len() == 8,
        PacketType::spec_try_from(declared_code(header)) is None,
    ensures
        header_of(header) is Err,
{
}

} // verus!

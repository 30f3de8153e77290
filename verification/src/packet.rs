//! The packet type enumeration, the packet buffer with its read and write
//! cursor, and the typed fields that packets carry.

pub mod common_packet;
pub mod super_packet;

use crate::text::{string_from_utf8_lossy, utf8_lossy};
use crate::wire::{
    be16, be32, be64, from_be16, from_be32, from_be64, optional_string_field, string_field,
    u16_from_be, u16_to_be, u32_from_be, u32_to_be, u64_from_be, u64_to_be,
};
use vstd::prelude::*;
use vstd::slice::slice_subrange;
use vstd::slice::slice_to_vec;
use vstd::string::StringSliceAdditionalSpecFns;
use vstd::utf8::{decode_utf8, valid_utf8};

verus! {

/// The kinds of packet the protocol knows. Each has a wire code; a code that
/// names none of them resolves to `NOT_RESOLVED`.
#[allow(non_camel_case_types)]
#[derive(Debug, Clone, Copy, PartialEq, Eq, Hash, Structural)]
pub enum PacketType {
    /// Debug data sent to the server.
    SERVER_DEBUG_RECEIVE,
    /// Debug data sent by the server.
    SERVER_DEBUG,
    /// A request for the server's extended information.
    GET_SERVER_INFO_RECEIVE,
    /// The server's extended information.
    GET_SERVER_INFO,
    /// A class update sent to the server.
    UPDATA_CLASS_RECEIVE,
    /// The result of a status request.
    STATUS_RESULT,
    /// A client's preregistration.
    PREREGISTER_INFO_RECEIVE,
    /// The answer to a preregistration.
    PREREGISTER_INFO,
    /// A wrong password.
    PASSWD_ERROR,
    /// A player's registration.
    REGISTER_PLAYER,
    /// The state of the game room.
    SERVER_INFO,
    /// The list of teams.
    TEAM_LIST,
    /// A heartbeat.
    HEART_BEAT,
    /// The answer to a heartbeat.
    HEART_BEAT_RESPONSE,
    /// A chat line sent to the server.
    CHAT_RECEIVE,
    /// A chat line sent by the server.
    CHAT,
    /// A pending download.
    PACKET_DOWNLOAD_PENDING,
    /// A kick.
    KICK,
    /// The end of a connection.
    DISCONNECT,
    /// The start of the game.
    START_GAME,
    /// A player's acceptance of the start.
    ACCEPT_START_GAME,
    /// The return to the battle room.
    RETURN_TO_BATTLEROOM,
    /// A simulation tick.
    TICK,
    /// A game command sent to the server.
    GAMECOMMAND_RECEIVE,
    /// The status of a checksum comparison.
    SYNCCHECKSUM_STATUS,
    /// A checksum comparison.
    SYNC_CHECK,
    /// A resynchronisation.
    SYNC,
    /// A message of the relay hall.
    RELAY_117,
    /// A client's answer in the relay hall: a relay command.
    RELAY_118_117_RETURN,
    /// A proof-of-work challenge.
    RELAY_POW,
    /// The answer to a proof-of-work challenge.
    RELAY_POW_RECEIVE,
    /// The relay's version information.
    RELAY_VERSION_INFO,
    /// The notice that the client now hosts a room.
    RELAY_BECOME_SERVER,
    /// The notice to a host that a player joined.
    FORWARD_CLIENT_ADD,
    /// The notice to a host that a player left.
    FORWARD_CLIENT_REMOVE,
    /// A player's packet, wrapped for the host.
    PACKET_FORWARD_CLIENT_FROM,
    /// A host's packet, wrapped for one player.
    PACKET_FORWARD_CLIENT_TO,
    /// A host's packet, wrapped for several players.
    PACKET_FORWARD_CLIENT_TO_REPEATED,
    /// The order to reconnect elsewhere.
    PACKET_RECONNECT_TO,
    /// An empty packet.
    EMPTYP_ACKAGE,
    /// The stand-in for every code that names no packet type.
    NOT_RESOLVED,
}

impl PacketType {
    /// The wire code of a packet type.
    pub open spec fn spec_code(self) -> u32 {
        match self {
            PacketType::SERVER_DEBUG_RECEIVE => 2000,
            PacketType::SERVER_DEBUG => 2001,
            PacketType::GET_SERVER_INFO_RECEIVE => 3000,
            PacketType::GET_SERVER_INFO => 3001,
            PacketType::UPDATA_CLASS_RECEIVE => 3010,
            PacketType::STATUS_RESULT => 3999,
            PacketType::PREREGISTER_INFO_RECEIVE => 160,
            PacketType::PREREGISTER_INFO => 161,
            PacketType::PASSWD_ERROR => 113,
            PacketType::REGISTER_PLAYER => 110,
            PacketType::SERVER_INFO => 106,
            PacketType::TEAM_LIST => 115,
            PacketType::HEART_BEAT => 108,
            PacketType::HEART_BEAT_RESPONSE => 109,
            PacketType::CHAT_RECEIVE => 140,
            PacketType::CHAT => 141,
            PacketType::PACKET_DOWNLOAD_PENDING => 4,
            PacketType::KICK => 150,
            PacketType::DISCONNECT => 111,
            PacketType::START_GAME => 120,
            PacketType::ACCEPT_START_GAME => 112,
            PacketType::RETURN_TO_BATTLEROOM => 122,
            PacketType::TICK => 10,
            PacketType::GAMECOMMAND_RECEIVE => 20,
            PacketType::SYNCCHECKSUM_STATUS => 31,
            PacketType::SYNC_CHECK => 30,
            PacketType::SYNC => 35,
            PacketType::RELAY_117 => 117,
            PacketType::RELAY_118_117_RETURN => 118,
            PacketType::RELAY_POW => 151,
            PacketType::RELAY_POW_RECEIVE => 152,
            PacketType::RELAY_VERSION_INFO => 163,
            PacketType::RELAY_BECOME_SERVER => 170,
            PacketType::FORWARD_CLIENT_ADD => 172,
            PacketType::FORWARD_CLIENT_REMOVE => 173,
            PacketType::PACKET_FORWARD_CLIENT_FROM => 174,
            PacketType::PACKET_FORWARD_CLIENT_TO => 175,
            PacketType::PACKET_FORWARD_CLIENT_TO_REPEATED => 176,
            PacketType::PACKET_RECONNECT_TO => 178,
            PacketType::EMPTYP_ACKAGE => 0,
            PacketType::NOT_RESOLVED => 0xffff_ffff,
        }
    }

    /// The packet type that a wire code names, if it names one.
    pub open spec fn spec_try_from(code: u32) -> Option<PacketType> {
        if code == 2000 {
            Some(PacketType::SERVER_DEBUG_RECEIVE)
        } else if code == 2001 {
            Some(PacketType::SERVER_DEBUG)
        } else if code == 3000 {
            Some(PacketType::GET_SERVER_INFO_RECEIVE)
        } else if code == 3001 {
            Some(PacketType::GET_SERVER_INFO)
        } else if code == 3010 {
            Some(PacketType::UPDATA_CLASS_RECEIVE)
        } else if code == 3999 {
            Some(PacketType::STATUS_RESULT)
        } else if code == 160 {
            Some(PacketType::PREREGISTER_INFO_RECEIVE)
        } else if code == 161 {
            Some(PacketType::PREREGISTER_INFO)
        } else if code == 113 {
            Some(PacketType::PASSWD_ERROR)
        } else if code == 110 {
            Some(PacketType::REGISTER_PLAYER)
        } else if code == 106 {
            Some(PacketType::SERVER_INFO)
        } else if code == 115 {
            Some(PacketType::TEAM_LIST)
        } else if code == 108 {
            Some(PacketType::HEART_BEAT)
        } else if code == 109 {
            Some(PacketType::HEART_BEAT_RESPONSE)
        } else if code == 140 {
            Some(PacketType::CHAT_RECEIVE)
        } else if code == 141 {
            Some(PacketType::CHAT)
        } else if code == 4 {
            Some(PacketType::PACKET_DOWNLOAD_PENDING)
        } else if code == 150 {
            Some(PacketType::KICK)
        } else if code == 111 {
            Some(PacketType::DISCONNECT)
        } else if code == 120 {
            Some(PacketType::START_GAME)
        } else if code == 112 {
            Some(PacketType::ACCEPT_START_GAME)
        } else if code == 122 {
            Some(PacketType::RETURN_TO_BATTLEROOM)
        } else if code == 10 {
            Some(PacketType::TICK)
        } else if code == 20 {
            Some(PacketType::GAMECOMMAND_RECEIVE)
        } else if code == 31 {
            Some(PacketType::SYNCCHECKSUM_STATUS)
        } else if code == 30 {
            Some(PacketType::SYNC_CHECK)
        } else if code == 35 {
            Some(PacketType::SYNC)
        } else if code == 117 {
            Some(PacketType::RELAY_117)
        } else if code == 118 {
            Some(PacketType::RELAY_118_117_RETURN)
        } else if code == 151 {
            Some(PacketType::RELAY_POW)
        } else if code == 152 {
            Some(PacketType::RELAY_POW_RECEIVE)
        } else if code == 163 {
            Some(PacketType::RELAY_VERSION_INFO)
        } else if code == 170 {
            Some(PacketType::RELAY_BECOME_SERVER)
        } else if code == 172 {
            Some(PacketType::FORWARD_CLIENT_ADD)
        } else if code == 173 {
            Some(PacketType::FORWARD_CLIENT_REMOVE)
        } else if code == 174 {
            Some(PacketType::PACKET_FORWARD_CLIENT_FROM)
        } else if code == 175 {
            Some(PacketType::PACKET_FORWARD_CLIENT_TO)
        } else if code == 176 {
            Some(PacketType::PACKET_FORWARD_CLIENT_TO_REPEATED)
        } else if code == 178 {
            Some(PacketType::PACKET_RECONNECT_TO)
        } else if code == 0 {
            Some(PacketType::EMPTYP_ACKAGE)
        } else if code == 0xffff_ffff {
            Some(PacketType::NOT_RESOLVED)
        } else {
            None
        }
    }

    /// The wire code of this packet type.
    #[verifier::when_used_as_spec(spec_code)]
    pub fn code(self) -> (code: u32)
        ensures
            code == self.spec_code(),
    {
        match self {
            PacketType::SERVER_DEBUG_RECEIVE => 2000,
            PacketType::SERVER_DEBUG => 2001,
            PacketType::GET_SERVER_INFO_RECEIVE => 3000,
            PacketType::GET_SERVER_INFO => 3001,
            PacketType::UPDATA_CLASS_RECEIVE => 3010,
            PacketType::STATUS_RESULT => 3999,
            PacketType::PREREGISTER_INFO_RECEIVE => 160,
            PacketType::PREREGISTER_INFO => 161,
            PacketType::PASSWD_ERROR => 113,
            PacketType::REGISTER_PLAYER => 110,
            PacketType::SERVER_INFO => 106,
            PacketType::TEAM_LIST => 115,
            PacketType::HEART_BEAT => 108,
            PacketType::HEART_BEAT_RESPONSE => 109,
            PacketType::CHAT_RECEIVE => 140,
            PacketType::CHAT => 141,
            PacketType::PACKET_DOWNLOAD_PENDING => 4,
            PacketType::KICK => 150,
            PacketType::DISCONNECT => 111,
            PacketType::START_GAME => 120,
            PacketType::ACCEPT_START_GAME => 112,
            PacketType::RETURN_TO_BATTLEROOM => 122,
            PacketType::TICK => 10,
            PacketType::GAMECOMMAND_RECEIVE => 20,
            PacketType::SYNCCHECKSUM_STATUS => 31,
            PacketType::SYNC_CHECK => 30,
            PacketType::SYNC => 35,
            PacketType::RELAY_117 => 117,
            PacketType::RELAY_118_117_RETURN => 118,
            PacketType::RELAY_POW => 151,
            PacketType::RELAY_POW_RECEIVE => 152,
            PacketType::RELAY_VERSION_INFO => 163,
            PacketType::RELAY_BECOME_SERVER => 170,
            PacketType::FORWARD_CLIENT_ADD => 172,
            PacketType::FORWARD_CLIENT_REMOVE => 173,
            PacketType::PACKET_FORWARD_CLIENT_FROM => 174,
            PacketType::PACKET_FORWARD_CLIENT_TO => 175,
            PacketType::PACKET_FORWARD_CLIENT_TO_REPEATED => 176,
            PacketType::PACKET_RECONNECT_TO => 178,
            PacketType::EMPTYP_ACKAGE => 0,
            PacketType::NOT_RESOLVED => 0xffff_ffff,
        }
    }

    /// The packet type that `code` names, or `code` back where it names none.
    pub fn try_from(code: u32) -> (r: Result<PacketType, u32>)
        ensures
            match r {
                Ok(t) => PacketType::spec_try_from(code) == Some(t),
                Err(c) => PacketType::spec_try_from(code) is None && c == code,
            },
    {
        match code {
            2000 => Ok(PacketType::SERVER_DEBUG_RECEIVE),
            2001 => Ok(PacketType::SERVER_DEBUG),
            3000 => Ok(PacketType::GET_SERVER_INFO_RECEIVE),
            3001 => Ok(PacketType::GET_SERVER_INFO),
            3010 => Ok(PacketType::UPDATA_CLASS_RECEIVE),
            3999 => Ok(PacketType::STATUS_RESULT),
            160 => Ok(PacketType::PREREGISTER_INFO_RECEIVE),
            161 => Ok(PacketType::PREREGISTER_INFO),
            113 => Ok(PacketType::PASSWD_ERROR),
            110 => Ok(PacketType::REGISTER_PLAYER),
            106 => Ok(PacketType::SERVER_INFO),
            115 => Ok(PacketType::TEAM_LIST),
            108 => Ok(PacketType::HEART_BEAT),
            109 => Ok(PacketType::HEART_BEAT_RESPONSE),
            140 => Ok(PacketType::CHAT_RECEIVE),
            141 => Ok(PacketType::CHAT),
            4 => Ok(PacketType::PACKET_DOWNLOAD_PENDING),
            150 => Ok(PacketType::KICK),
            111 => Ok(PacketType::DISCONNECT),
            120 => Ok(PacketType::START_GAME),
            112 => Ok(PacketType::ACCEPT_START_GAME),
            122 => Ok(PacketType::RETURN_TO_BATTLEROOM),
            10 => Ok(PacketType::TICK),
            20 => Ok(PacketType::GAMECOMMAND_RECEIVE),
            31 => Ok(PacketType::SYNCCHECKSUM_STATUS),
            30 => Ok(PacketType::SYNC_CHECK),
            35 => Ok(PacketType::SYNC),
            117 => Ok(PacketType::RELAY_117),
            118 => Ok(PacketType::RELAY_118_117_RETURN),
            151 => Ok(PacketType::RELAY_POW),
            152 => Ok(PacketType::RELAY_POW_RECEIVE),
            163 => Ok(PacketType::RELAY_VERSION_INFO),
            170 => Ok(PacketType::RELAY_BECOME_SERVER),
            172 => Ok(PacketType::FORWARD_CLIENT_ADD),
            173 => Ok(PacketType::FORWARD_CLIENT_REMOVE),
            174 => Ok(PacketType::PACKET_FORWARD_CLIENT_FROM),
            175 => Ok(PacketType::PACKET_FORWARD_CLIENT_TO),
            176 => Ok(PacketType::PACKET_FORWARD_CLIENT_TO_REPEATED),
            178 => Ok(PacketType::PACKET_RECONNECT_TO),
            0 => Ok(PacketType::EMPTYP_ACKAGE),
            0xffff_ffff => Ok(PacketType::NOT_RESOLVED),
            _ => Err(code),
        }
    }
    /// The packet type that `code` names, and `NOT_RESOLVED` where it names
    /// none.
    pub open spec fn spec_resolve(code: u32) -> PacketType {
        match PacketType::spec_try_from(code) {
            Some(t) => t,
            None => PacketType::NOT_RESOLVED,
        }
    }

    /// The packet type that `code` names, and `NOT_RESOLVED` where it names
    /// none.
    #[verifier::when_used_as_spec(spec_resolve)]
    pub fn resolve(code: u32) -> (t: PacketType)
        ensures
            t == PacketType::spec_resolve(code),
    {
        match PacketType::try_from(code) {
            Ok(t) => t,
            Err(_) => PacketType::NOT_RESOLVED,
        }
    }

    /// Every packet type is found again from its code.
    pub proof fn lemma_code_resolves(self)
        ensures
            PacketType::spec_try_from(self.spec_code()) == Some(self),
            PacketType::spec_resolve(self.spec_code()) == self,
    {
    }

    /// A code that names a packet type is that type's code.
    pub proof fn lemma_resolved_code(code: u32)
        ensures
            PacketType::spec_try_from(code) matches Some(t) ==> t.spec_code() == code,
            PacketType::spec_resolve(code) != PacketType::NOT_RESOLVED
                ==> PacketType::spec_resolve(code).spec_code() == code,
    {
    }
}

impl Default for PacketType {
    fn default() -> (t: PacketType)
        ensures
            t == PacketType::NOT_RESOLVED,
    {
        PacketType::NOT_RESOLVED
    }
}

/// The cap on a frame's declared payload length: a frame must declare less.
pub const MAX_PACKET_LENGTH: u32 = 51200;

/// The bytes a packet keeps free at the start of its buffer for the header.
pub const HEADER_LENGTH: usize = 8;

/// What a packet is: its type, its declared payload length, the bytes of its
/// buffer, where its cursor stands, and whether its header has been written.
pub struct PacketView {
    pub packet_type: PacketType,
    pub packet_length: u32,
    pub buffer: Seq<u8>,
    pub position: int,
    pub is_prepared: bool,
}

/// `data` written into `buffer` from index `at` on: over the bytes that are
/// there, and on past the end.
pub open spec fn overwrite(buffer: Seq<u8>, at: int, data: Seq<u8>) -> Seq<u8> {
    if at + data.len() >= buffer.len() {
        buffer.subrange(0, at) + data
    } else {
        buffer.subrange(0, at) + data + buffer.subrange(at + data.len(), buffer.len() as int)
    }
}

/// The string field at the head of `bytes`: its content, and the number of
/// bytes that the field takes. `None` where `bytes` ends before the field does.
pub open spec fn string_field_at(bytes: Seq<u8>) -> Option<(Seq<u8>, int)> {
    if bytes.len() < 2 {
        None
    } else {
        let n = from_be16(bytes.subrange(0, 2)) as int;
        if bytes.len() < 2 + n {
            None
        } else {
            Some((bytes.subrange(2, 2 + n), 2 + n))
        }
    }
}

/// The optional string field at the head of `bytes`: the content where the
/// presence byte is 1, and the number of bytes that the field takes.
pub open spec fn optional_string_field_at(bytes: Seq<u8>) -> Option<(Option<Seq<u8>>, int)> {
    if bytes.len() < 1 {
        None
    } else if bytes[0] == 1 {
        match string_field_at(bytes.subrange(1, bytes.len() as int)) {
            Some((content, n)) => Some((Some(content), n + 1)),
            None => None,
        }
    } else {
        Some((None, 1))
    }
}

/// The stream-bytes field at the head of `bytes`: its content, and the number
/// of bytes that the field takes.
pub open spec fn stream_bytes_field_at(bytes: Seq<u8>) -> Option<(Seq<u8>, int)> {
    if bytes.len() < 4 {
        None
    } else {
        let n = from_be32(bytes.subrange(0, 4)) as int;
        if bytes.len() < 4 + n {
            None
        } else {
            Some((bytes.subrange(4, 4 + n), 4 + n))
        }
    }
}

impl PacketView {
    /// The cursor stands inside the buffer, and behind the header's place as
    /// long as the header is not written.
    pub open spec fn wf(self) -> bool {
        &&& 0 <= self.position <= self.buffer.len()
        &&& !self.is_prepared ==> self.position >= HEADER_LENGTH
    }

    /// The bytes from the cursor to the end of the buffer.
    pub open spec fn remaining(self) -> Seq<u8> {
        self.buffer.subrange(self.position, self.buffer.len() as int)
    }

    /// The packet with its cursor moved `n` bytes on.
    pub open spec fn advanced(self, n: int) -> PacketView {
        PacketView { position: self.position + n, ..self }
    }

    /// The packet after `data` was written at its cursor.
    pub open spec fn written(self, data: Seq<u8>) -> PacketView {
        PacketView {
            buffer: overwrite(self.buffer, self.position, data),
            position: self.position + data.len(),
            ..self
        }
    }

    /// The payload length that the header of an unprepared packet will
    /// declare: the bytes written behind the header's place.
    pub open spec fn payload_length(self) -> u32 {
        ((self.position - HEADER_LENGTH) % 0x1_0000_0000) as u32
    }

    /// The packet made ready for transmission: the payload length and the
    /// type code stand in the first eight bytes. A prepared packet stays as it
    /// is.
    pub open spec fn prepared(self) -> PacketView {
        if self.is_prepared {
            self
        } else {
            PacketView {
                packet_type: self.packet_type,
                packet_length: self.payload_length(),
                buffer: overwrite(
                    self.buffer,
                    0,
                    be32(self.payload_length()) + be32(self.packet_type.spec_code()),
                ),
                position: HEADER_LENGTH as int,
                is_prepared: true,
            }
        }
    }

    /// A fresh packet of the given type: eight zero bytes, the cursor behind
    /// them.
    pub open spec fn fresh(packet_type: PacketType) -> PacketView {
        PacketView {
            packet_type,
            packet_length: 0,
            buffer: Seq::new(HEADER_LENGTH as nat, |i: int| 0u8),
            position: HEADER_LENGTH as int,
            is_prepared: false,
        }
    }

    /// A packet as it was received: the payload alone, the cursor at its
    /// start.
    pub open spec fn decoded(
        packet_length: u32,
        packet_type: PacketType,
        payload: Seq<u8>,
    ) -> PacketView {
        PacketView {
            packet_type,
            packet_length,
            buffer: payload,
            position: 0,
            is_prepared: true,
        }
    }
}

/// A typed packet: a type tag and a byte buffer with one cursor for reading
/// and writing.
#[derive(Debug, PartialEq, Eq)]
pub struct Packet {
    packet_type: PacketType,
    packet_length: u32,
    packet_buffer: Vec<u8>,
    position: usize,
    is_prepared: bool,
}

impl View for Packet {
    type V = PacketView;

    closed spec fn view(&self) -> PacketView {
        PacketView {
            packet_type: self.packet_type,
            packet_length: self.packet_length,
            buffer: self.packet_buffer@,
            position: self.position as int,
            is_prepared: self.is_prepared,
        }
    }
}

/// Writes `data` into `buffer` from `position` on and returns where the
/// writing ended.
fn cursor_write(buffer: &mut Vec<u8>, position: usize, data: &[u8]) -> (end: usize)
    requires
        position <= old(buffer)@.len(),
    ensures
        final(buffer)@ == overwrite(old(buffer)@, position as int, data@),
        end == position + data@.len(),
        final(buffer)@.len() >= old(buffer)@.len(),
        end <= final(buffer)@.len(),
{
    let ghost before = buffer@;
    let count: usize = data.len();
    let mut i: usize = 0;
    while i < count
        invariant
            count == data@.len(),
            i <= count,
            position <= before.len(),
            buffer@.len() == if position + i > before.len() {
                position + i
            } else {
                before.len() as int
            },
            forall|j: int|
                0 <= j < buffer@.len() ==> buffer@[j] == if position <= j < position + i {
                    data@[j - position]
                } else {
                    before[j]
                },
        decreases count - i,
    {
        let len: usize = buffer.len();
        let at: usize = position + i;
        if at < len {
            buffer[at] = data[i];
        } else {
            buffer.push(data[i]);
        }
        i += 1;
    }
    assert(buffer@ =~= overwrite(before, position as int, data@));
    assert(position + count <= buffer.len());
    position + count
}

impl Packet {
    /// What holds of every packet: its view is well-formed.
    #[verifier::type_invariant]
    pub open spec fn inv(self) -> bool {
        self@.wf()
    }

    /// An empty packet to stand in a place while its packet is worked on: a
    /// packet as it is received, of no type, with no payload.
    fn hollow() -> (packet: Packet)
        ensures
            packet@ == PacketView::decoded(0, PacketType::NOT_RESOLVED, Seq::empty()),
    {
        Packet {
            packet_type: PacketType::NOT_RESOLVED,
            packet_length: 0,
            packet_buffer: Vec::new(),
            position: 0,
            is_prepared: true,
        }
    }

    /// A fresh packet of the given type, with room for the header.
    pub fn new(packet_type: PacketType) -> (packet: Packet)
        ensures
            packet@ == PacketView::fresh(packet_type),
    {
        let mut packet_buffer: Vec<u8> = Vec::new();
        let mut i: usize = 0;
        while i < HEADER_LENGTH
            invariant
                i <= HEADER_LENGTH,
                packet_buffer@.len() == i,
                forall|j: int| 0 <= j < i ==> packet_buffer@[j] == 0u8,
            decreases HEADER_LENGTH - i,
        {
            packet_buffer.push(0u8);
            i += 1;
        }
        assert(packet_buffer@ =~= Seq::new(HEADER_LENGTH as nat, |i: int| 0u8));
        Packet {
            packet_type,
            packet_length: 0,
            packet_buffer,
            position: HEADER_LENGTH,
            is_prepared: false,
        }
    }

    /// The packet that a received frame stands for: its declared length, its
    /// type and its payload.
    pub fn decode_from_buffer(
        packet_length: u32,
        packet_type: PacketType,
        packet_buffer: Vec<u8>,
    ) -> (packet: Packet)
        ensures
            packet@ == PacketView::decoded(packet_length, packet_type, packet_buffer@),
    {
        Packet { packet_type, packet_length, packet_buffer, position: 0, is_prepared: true }
    }

    /// Writes the header, once: the number of bytes written behind the
    /// header's place, then the type code. A prepared packet is left as it is.
    pub fn prepare(&mut self)
        ensures
            final(self)@ == old(self)@.prepared(),
            final(self)@.is_prepared,
            final(self)@.wf(),
    {
        proof {
            use_type_invariant(&*self);
        }
        if !self.is_prepared {
            let payload: usize = self.position - HEADER_LENGTH;
            let length: u32 = (payload as u64 % 0x1_0000_0000) as u32;
            let length_bytes: [u8; 4] = u32_to_be(length);
            let code_bytes: [u8; 4] = u32_to_be(self.packet_type.code());
            let header: [u8; 8] = [
                length_bytes[0],
                length_bytes[1],
                length_bytes[2],
                length_bytes[3],
                code_bytes[0],
                code_bytes[1],
                code_bytes[2],
                code_bytes[3],
            ];
            assert(header@ =~= be32(length) + be32(self.packet_type.spec_code()));
            let mut taken: Packet = Packet::hollow();
            core::mem::swap(self, &mut taken);
            let Packet { packet_type, packet_length, packet_buffer, position, is_prepared } = taken;
            let mut packet_buffer: Vec<u8> = packet_buffer;
            let _ = cursor_write(&mut packet_buffer, 0, header.as_slice());
            *self = Packet {
                packet_type,
                packet_length: length,
                packet_buffer,
                position: HEADER_LENGTH,
                is_prepared: true,
            };
        }
    }

    /// The packet's type.
    pub fn packet_type(&self) -> (t: PacketType)
        ensures
            t == self@.packet_type,
    {
        self.packet_type
    }

    /// The payload length that the packet declares.
    pub fn packet_length(&self) -> (n: u32)
        ensures
            n == self@.packet_length,
    {
        self.packet_length
    }

    /// Whether the header has been written.
    pub fn is_prepared(&self) -> (b: bool)
        ensures
            b == self@.is_prepared,
    {
        self.is_prepared
    }

    /// Where the cursor stands.
    pub fn position(&self) -> (at: usize)
        ensures
            at == self@.position,
            self@.wf(),
    {
        proof {
            use_type_invariant(self);
        }
        self.position
    }

    /// The bytes of the buffer.
    pub fn buffer(&self) -> (bytes: &[u8])
        ensures
            bytes@ == self@.buffer,
    {
        self.packet_buffer.as_slice()
    }

    /// The buffer itself.
    pub fn into_inner(self) -> (bytes: Vec<u8>)
        ensures
            bytes@ == self@.buffer,
    {
        self.packet_buffer
    }

    /// Moves the cursor to `position` where that lies inside the buffer, and
    /// says whether it did.
    pub fn set_position(&mut self, position: usize) -> (moved: bool)
        ensures
            moved == (position <= old(self)@.buffer.len() && (old(self)@.is_prepared || position
                >= HEADER_LENGTH)),
            moved ==> final(self)@ == (PacketView { position: position as int, ..old(self)@ }),
            !moved ==> final(self)@ == old(self)@,
            final(self)@.wf(),
    {
        proof {
            use_type_invariant(&*self);
        }
        if position <= self.packet_buffer.len() && (self.is_prepared || position >= HEADER_LENGTH) {
            self.position = position;
            true
        } else {
            false
        }
    }

    /// Moves the cursor `count` bytes on where so many bytes remain, and says
    /// whether it did.
    pub fn skip(&mut self, count: usize) -> (moved: bool)
        ensures
            moved == (count <= old(self)@.remaining().len()),
            moved ==> final(self)@ == old(self)@.advanced(count as int),
            !moved ==> final(self)@ == old(self)@,
            final(self)@.wf(),
    {
        proof {
            use_type_invariant(&*self);
        }
        if count <= self.packet_buffer.len() - self.position {
            self.position = self.position + count;
            true
        } else {
            false
        }
    }

    /// Writes `data` at the cursor.
    pub fn write_all(&mut self, data: &[u8])
        ensures
            final(self)@ == old(self)@.written(data@),
            final(self)@.wf(),
    {
        proof {
            use_type_invariant(&*self);
        }
        // The packet is taken out of its place while its buffer is written,
        // so that what stands in the place is a packet at every moment.
        let mut taken: Packet = Packet::hollow();
        core::mem::swap(self, &mut taken);
        let Packet { packet_type, packet_length, packet_buffer, position, is_prepared } = taken;
        let mut packet_buffer: Vec<u8> = packet_buffer;
        let end: usize = cursor_write(&mut packet_buffer, position, data);
        *self = Packet { packet_type, packet_length, packet_buffer, position: end, is_prepared };
    }

    /// Writes one byte at the cursor.
    pub fn write_u8(&mut self, value: u8)
        ensures
            final(self)@ == old(self)@.written(seq![value]),
            final(self)@.wf(),
    {
        let bytes: [u8; 1] = [value];
        assert(bytes@ =~= seq![value]);
        self.write_all(bytes.as_slice());
    }

    /// Writes a sixteen-bit number at the cursor, big-endian.
    pub fn write_u16(&mut self, value: u16)
        ensures
            final(self)@ == old(self)@.written(be16(value)),
            final(self)@.wf(),
    {
        let bytes: [u8; 2] = u16_to_be(value);
        self.write_all(bytes.as_slice());
    }

    /// Writes a thirty-two-bit number at the cursor, big-endian.
    pub fn write_u32(&mut self, value: u32)
        ensures
            final(self)@ == old(self)@.written(be32(value)),
            final(self)@.wf(),
    {
        let bytes: [u8; 4] = u32_to_be(value);
        self.write_all(bytes.as_slice());
    }

    /// Writes a sixty-four-bit number at the cursor, big-endian.
    pub fn write_u64(&mut self, value: u64)
        ensures
            final(self)@ == old(self)@.written(be64(value)),
            final(self)@.wf(),
    {
        let bytes: [u8; 8] = u64_to_be(value);
        self.write_all(bytes.as_slice());
    }

    /// Writes `bytes` as a string field: their count in sixteen bits, then
    /// the bytes themselves.
    pub fn write_string_bytes(&mut self, bytes: &[u8])
        ensures
            final(self)@ == old(self)@.written(string_field(bytes@)),
            final(self)@.wf(),
    {
        proof {
            use_type_invariant(&*self);
        }
        let ghost before = self@;
        let count: usize = bytes.len();
        self.write_u16((count % 0x1_0000) as u16);
        self.write_all(bytes);
        proof {
            lemma_written_twice(before, be16((count % 0x1_0000) as u16), bytes@);
        }
    }

    /// Reads the byte at the cursor, where there is one.
    pub fn read_u8(&mut self) -> (r: Option<u8>)
        ensures
            old(self)@.remaining().len() >= 1 ==> r == Some(old(self)@.remaining()[0])
                && final(self)@ == old(self)@.advanced(1),
            old(self)@.remaining().len() < 1 ==> r is None && final(self)@ == old(self)@,
            final(self)@.wf(),
    {
        proof {
            use_type_invariant(&*self);
        }
        if self.packet_buffer.len() - self.position >= 1 {
            let value: u8 = self.packet_buffer[self.position];
            self.position = self.position + 1;
            Some(value)
        } else {
            None
        }
    }

    /// Reads the sixteen-bit number at the cursor, where two bytes remain.
    pub fn read_u16(&mut self) -> (r: Option<u16>)
        ensures
            old(self)@.remaining().len() >= 2 ==> r == Some(
                from_be16(old(self)@.remaining().subrange(0, 2)),
            ) && final(self)@ == old(self)@.advanced(2),
            old(self)@.remaining().len() < 2 ==> r is None && final(self)@ == old(self)@,
            final(self)@.wf(),
    {
        proof {
            use_type_invariant(&*self);
        }
        if self.packet_buffer.len() - self.position >= 2 {
            let value: u16 = u16_from_be(self.packet_buffer.as_slice(), self.position);
            assert(self@.remaining().subrange(0, 2) =~= self@.buffer.subrange(
                self@.position,
                self@.position + 2,
            ));
            self.position = self.position + 2;
            Some(value)
        } else {
            None
        }
    }

    /// Reads the thirty-two-bit number at the cursor, where four bytes
    /// remain.
    pub fn read_u32(&mut self) -> (r: Option<u32>)
        ensures
            old(self)@.remaining().len() >= 4 ==> r == Some(
                from_be32(old(self)@.remaining().subrange(0, 4)),
            ) && final(self)@ == old(self)@.advanced(4),
            old(self)@.remaining().len() < 4 ==> r is None && final(self)@ == old(self)@,
            final(self)@.wf(),
    {
        proof {
            use_type_invariant(&*self);
        }
        if self.packet_buffer.len() - self.position >= 4 {
            let value: u32 = u32_from_be(self.packet_buffer.as_slice(), self.position);
            assert(self@.remaining().subrange(0, 4) =~= self@.buffer.subrange(
                self@.position,
                self@.position + 4,
            ));
            self.position = self.position + 4;
            Some(value)
        } else {
            None
        }
    }

    /// Reads the sixty-four-bit number at the cursor, where eight bytes
    /// remain.
    pub fn read_u64(&mut self) -> (r: Option<u64>)
        ensures
            old(self)@.remaining().len() >= 8 ==> r == Some(
                from_be64(old(self)@.remaining().subrange(0, 8)),
            ) && final(self)@ == old(self)@.advanced(8),
            old(self)@.remaining().len() < 8 ==> r is None && final(self)@ == old(self)@,
            final(self)@.wf(),
    {
        proof {
            use_type_invariant(&*self);
        }
        if self.packet_buffer.len() - self.position >= 8 {
            let value: u64 = u64_from_be(self.packet_buffer.as_slice(), self.position);
            assert(self@.remaining().subrange(0, 8) =~= self@.buffer.subrange(
                self@.position,
                self@.position + 8,
            ));
            self.position = self.position + 8;
            Some(value)
        } else {
            None
        }
    }

    /// Reads the next `count` bytes, where so many remain.
    pub fn read_exact(&mut self, count: usize) -> (r: Option<Vec<u8>>)
        ensures
            count <= old(self)@.remaining().len() ==> ({
                &&& r matches Some(bytes)
                &&& bytes@ == old(self)@.remaining().subrange(0, count as int)
                &&& final(self)@ == old(self)@.advanced(count as int)
            }),
            count > old(self)@.remaining().len() ==> r is None && final(self)@ == old(self)@,
            final(self)@.wf(),
    {
        proof {
            use_type_invariant(&*self);
        }
        if count <= self.packet_buffer.len() - self.position {
            let end: usize = self.position + count;
            let bytes: Vec<u8> = slice_to_vec(
                slice_subrange(self.packet_buffer.as_slice(), self.position, end),
            );
            assert(bytes@ =~= self@.remaining().subrange(0, count as int));
            self.position = end;
            Some(bytes)
        } else {
            None
        }
    }
}

impl Clone for Packet {
    fn clone(&self) -> (copy: Packet)
        ensures
            copy@ == self@,
    {
        proof {
            use_type_invariant(self);
        }
        let packet_buffer: Vec<u8> = slice_to_vec(self.packet_buffer.as_slice());
        Packet {
            packet_type: self.packet_type,
            packet_length: self.packet_length,
            packet_buffer,
            position: self.position,
            is_prepared: self.is_prepared,
        }
    }
}

/// A packet on its way to the outbound path of a connection.
#[derive(Debug)]
pub struct Delivery {
    /// The connection that the packet is for.
    pub con: u64,
    pub packet: Packet,
}

/// What a delivery is: the connection, and what the packet is.
pub struct DeliveryView {
    pub con: u64,
    pub packet: PacketView,
}

impl View for Delivery {
    type V = DeliveryView;

    open spec fn view(&self) -> DeliveryView {
        DeliveryView { con: self.con, packet: self.packet@ }
    }
}

/// What each of a run of deliveries is.
pub open spec fn delivery_views(deliveries: Seq<Delivery>) -> Seq<DeliveryView> {
    Seq::new(deliveries.len(), |i: int| deliveries[i]@)
}

/// The text and byte fields that packets carry.
pub trait PacketReadWriteExt {
    /// Reads a string field.
    fn read_string(&mut self) -> Option<String>;

    /// Reads an optional string field; the inner `None` is an absent string.
    fn read_if_is_string(&mut self) -> Option<Option<String>>;

    /// Writes a string field and returns the number of bytes of the string.
    fn write_string(&mut self, s: &str) -> usize;

    /// Writes an optional string field and returns the number of bytes of the
    /// string.
    fn write_is_string(&mut self, s: &str) -> usize;

    /// Reads a stream-bytes field.
    fn read_stream_bytes(&mut self) -> Option<Vec<u8>>;
}

impl PacketReadWriteExt for Packet {
    /// Reads the string field at the cursor: a sixteen-bit byte count, then so
    /// many bytes, decoded as UTF-8 with a replacement character for what is
    /// not. Where the packet ends before the field does, nothing is read.
    fn read_string(&mut self) -> (r: Option<String>)
        ensures
            match string_field_at(old(self)@.remaining()) {
                Some((content, n)) => {
                    &&& r matches Some(s)
                    &&& s@ == utf8_lossy(content)
                    &&& valid_utf8(content) ==> s@ == decode_utf8(content)
                    &&& final(self)@ == old(self)@.advanced(n)
                },
                None => r is None && final(self)@ == old(self)@,
            },
            final(self)@.wf(),
    {
        let ghost before = self@;
        let start: usize = self.position();
        match self.read_u16() {
            None => None,
            Some(count) => {
                match self.read_exact(count as usize) {
                    Some(bytes) => {
                        assert(bytes@ =~= before.remaining().subrange(2, 2 + count));
                        Some(string_from_utf8_lossy(bytes.as_slice()))
                    },
                    None => {
                        let back: bool = self.set_position(start);
                        assert(self@ == before);
                        None
                    },
                }
            },
        }
    }

    /// Reads the optional string field at the cursor: a presence byte, and a
    /// string field where that byte is 1.
    fn read_if_is_string(&mut self) -> (r: Option<Option<String>>)
        ensures
            match optional_string_field_at(old(self)@.remaining()) {
                Some((Some(content), n)) => {
                    &&& r matches Some(Some(s))
                    &&& s@ == utf8_lossy(content)
                    &&& valid_utf8(content) ==> s@ == decode_utf8(content)
                    &&& final(self)@ == old(self)@.advanced(n)
                },
                Some((None, n)) => r == Some(None::<String>) && final(self)@ == old(
                    self,
                )@.advanced(n),
                None => r is None && final(self)@ == old(self)@,
            },
            final(self)@.wf(),
    {
        let ghost before = self@;
        let start: usize = self.position();
        match self.read_u8() {
            None => None,
            Some(flag) => {
                if flag == 1 {
                    assert(self@.remaining() =~= before.remaining().subrange(
                        1,
                        before.remaining().len() as int,
                    ));
                    match self.read_string() {
                        Some(s) => Some(Some(s)),
                        None => {
                            let back: bool = self.set_position(start);
                            assert(self@ == before);
                            None
                        },
                    }
                } else {
                    Some(None)
                }
            },
        }
    }

    /// Writes `s` as a string field: its byte count in sixteen bits, then its
    /// bytes.
    fn write_string(&mut self, s: &str) -> (count: usize)
        ensures
            final(self)@ == old(self)@.written(string_field(s.spec_bytes())),
            count == s.spec_bytes().len(),
            final(self)@.wf(),
    {
        let bytes: &[u8] = s.as_bytes();
        self.write_string_bytes(bytes);
        bytes.len()
    }

    /// Writes `s` as an optional string field: the byte 0 where `s` is empty,
    /// else the byte 1 and `s` as a string field.
    fn write_is_string(&mut self, s: &str) -> (count: usize)
        ensures
            final(self)@ == old(self)@.written(optional_string_field(s.spec_bytes())),
            count == s.spec_bytes().len(),
            final(self)@.wf(),
    {
        proof {
            use_type_invariant(&*self);
        }
        let ghost before = self@;
        if s.as_bytes().len() == 0 {
            self.write_u8(0);
            0
        } else {
            self.write_u8(1);
            let count: usize = self.write_string(s);
            proof {
                lemma_written_twice(before, seq![1u8], string_field(s.spec_bytes()));
            }
            count
        }
    }

    /// Reads the stream-bytes field at the cursor: a thirty-two-bit byte
    /// count, then so many bytes.
    fn read_stream_bytes(&mut self) -> (r: Option<Vec<u8>>)
        ensures
            match stream_bytes_field_at(old(self)@.remaining()) {
                Some((content, n)) => r matches Some(bytes) && bytes@ == content && final(self)@
                    == old(self)@.advanced(n),
                None => r is None && final(self)@ == old(self)@,
            },
            final(self)@.wf(),
    {
        let ghost before = self@;
        let start: usize = self.position();
        match self.read_u32() {
            None => None,
            Some(count) => {
                match self.read_exact(count as usize) {
                    Some(bytes) => {
                        assert(bytes@ =~= before.remaining().subrange(4, 4 + count));
                        Some(bytes)
                    },
                    None => {
                        let back: bool = self.set_position(start);
                        assert(self@ == before);
                        None
                    },
                }
            },
        }
    }
}

/// Two writes, one after the other, are one write of the two pieces joined.
pub proof fn lemma_written_twice(packet: PacketView, first: Seq<u8>, second: Seq<u8>)
    requires
        0 <= packet.position <= packet.buffer.len(),
    ensures
        packet.written(first).written(second) == packet.written(first + second),
{
    assert(packet.written(first).written(second).buffer =~= packet.written(
        first + second,
    ).buffer);
}

/// Preparing a packet twice gives what preparing it once gives.
pub proof fn lemma_prepare_idempotent(packet: PacketView)
    ensures
        packet.prepared().prepared() == packet.prepared(),
        packet.prepared().is_prepared,
{
}

/// A prepared packet of less than four gibibytes holds its frame: the number
/// of payload bytes, the type code, and the bytes written behind the header's
/// place.
pub proof fn lemma_prepared_frame(packet: PacketView)
    requires
        packet.wf(),
        !packet.is_prepared,
        packet.position == packet.buffer.len(),
        packet.buffer.len() - HEADER_LENGTH < 0x1_0000_0000,
    ensures
        packet.prepared().buffer == be32((packet.buffer.len() - HEADER_LENGTH) as u32) + be32(
            packet.packet_type.spec_code(),
        ) + packet.buffer.subrange(HEADER_LENGTH as int, packet.buffer.len() as int),
{
    let count = packet.buffer.len() - HEADER_LENGTH;
    assert(packet.payload_length() == count as u32) by {
        assert(packet.position - HEADER_LENGTH == count);
        assert(0 <= count < 0x1_0000_0000);
        assert(count % 0x1_0000_0000 == count);
    }
    let header = be32(count as u32) + be32(packet.packet_type.spec_code());
    assert(header.len() == 8);
    let payload = packet.buffer.subrange(HEADER_LENGTH as int, packet.buffer.len() as int);
    assert(packet.prepared().buffer == overwrite(packet.buffer, 0, header));
    assert(overwrite(packet.buffer, 0, header) =~= header + payload);
}

/// A write at the end of the buffer puts the bytes behind what is there.
pub proof fn lemma_written_at_end(packet: PacketView, data: Seq<u8>)
    requires
        packet.position == packet.buffer.len(),
    ensures
        packet.written(data).buffer == packet.buffer + data,
        packet.written(data).position == packet.written(data).buffer.len(),
{
    assert(packet.written(data).buffer =~= packet.buffer + data);
}

/// A string field of fewer than 2^16 bytes is read as it was written,
/// whatever follows it.
pub proof fn lemma_string_field_is_read(content: Seq<u8>, rest: Seq<u8>)
    requires
        content.len() < 0x1_0000,
    ensures
        string_field_at(string_field(content) + rest) == Some((content, 2 + content.len() as int)),
{
    let bytes = string_field(content) + rest;
    let count = (content.len() % 0x1_0000) as u16;
    crate::wire::lemma_be16_round_trip(count);
    assert(bytes.subrange(0, 2) =~= be16(count));
    assert(bytes.subrange(2, 2 + content.len() as int) =~= content);
}

/// An optional string field of fewer than 2^16 bytes is read as it was
/// written, whatever follows it: an empty string is read as an absent one.
pub proof fn lemma_optional_string_field_is_read(content: Seq<u8>, rest: Seq<u8>)
    requires
        content.len() < 0x1_0000,
    ensures
        optional_string_field_at(optional_string_field(content) + rest) == (if content.len()
            == 0 {
            Some((None::<Seq<u8>>, 1int))
        } else {
            Some((Some(content), 3 + content.len() as int))
        }),
{
    let bytes = optional_string_field(content) + rest;
    if content.len() > 0 {
        lemma_string_field_is_read(content, rest);
        assert(bytes.subrange(1, bytes.len() as int) =~= string_field(content) + rest);
    }
}

/// A stream-bytes field of fewer than 2^32 bytes is read as it was
/// written, whatever follows it.
pub proof fn lemma_stream_bytes_field_is_read(content: Seq<u8>, rest: Seq<u8>)
    requires
        content.len() < 0x1_0000_0000,
    ensures
        stream_bytes_field_at(crate::wire::stream_bytes_field(content) + rest) == Some(
            (content, 4 + content.len() as int),
        ),
{
    let bytes = crate::wire::stream_bytes_field(content) + rest;
    let count = (content.len() % 0x1_0000_0000) as u32;
    crate::wire::lemma_be32_round_trip(count);
    assert(bytes.subrange(0, 4) =~= be32(count));
    assert(bytes.subrange(4, 4 + content.len() as int) =~= content);
}

} // verus!

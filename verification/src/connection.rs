//! The state of one connection, the packets that the relay sends on its
//! behalf, and what it does to the rooms.

pub mod permission_status;
pub mod player_net_api;

use crate::connection::permission_status::PermissionStatus;
use crate::connection::player_net_api::{
    is_beta_version, spec_is_beta_version, CustomRelayData, RelayDirectInspection,
    NEW_RELAY_PROTOCOL_VERSION,
};
use crate::connection::player_net_api::InspectionView;
use crate::packet::{
    delivery_views, optional_string_field_at, stream_bytes_field_at, string_field_at, Delivery,
    DeliveryView, Packet, PacketReadWriteExt, PacketType, PacketView,
};
use crate::relay_manager::relay::{RoomRef, RoomView, SharedRelayRoomData, HOST_SITE_INDEX};
use crate::relay_manager::{after_leaving, relay_named, resolves, RelayManager};
use vstd::slice::slice_subrange;
use crate::text::{decimal, to_decimal, utf8_lossy};
use crate::wire::{be32, be64, from_be32, from_be64, optional_string_field, string_field};
use vstd::prelude::*;
use vstd::string::StringSliceAdditionalSpecFns;
use vstd::utf8::encode_utf8;

verus! {

/// What is known of the player behind a connection.
#[derive(Debug)]
pub struct PlayerInfo {
    pub permission_status: PermissionStatus,
    pub player_name: String,
}

/// What is known of the client behind a connection.
#[derive(Debug)]
pub struct ConnectionInfo {
    /// The remote address, host and port.
    pub addr: String,
    /// The host part of the remote address.
    pub ip: String,
    pub client_version: u32,
    pub is_beta_version: bool,
}

/// The state of one connection.
#[derive(Debug)]
pub struct Connection {
    /// The key of the connection in the registry. No two connections of one
    /// registry share it.
    pub id: u64,
    pub player_info: PlayerInfo,
    pub connection_info: ConnectionInfo,
    /// The packet received last.
    pub packet: Option<Packet>,
    /// The preregistration packet, kept to be forwarded to a host.
    pub cache_packet: Option<Packet>,
    /// The site index of the connection in its room.
    pub room_index: Option<u32>,
    /// The room of the connection.
    pub shared_relay_room: Option<RoomRef>,
    /// Whether the connection has been torn down.
    pub is_disconnected: bool,
}

/// What a connection is.
pub struct ConnectionView {
    pub id: u64,
    pub permission_status: PermissionStatus,
    pub player_name: Seq<char>,
    pub addr: Seq<char>,
    pub ip: Seq<char>,
    pub client_version: u32,
    pub is_beta_version: bool,
    pub packet: Option<PacketView>,
    pub cache_packet: Option<PacketView>,
    pub room_index: Option<u32>,
    pub shared_relay_room: Option<RoomRef>,
    pub is_disconnected: bool,
}

/// What the packet in a slot is.
pub open spec fn slot_view(slot: Option<Packet>) -> Option<PacketView> {
    match slot {
        Some(packet) => Some(packet@),
        None => None,
    }
}

impl View for Connection {
    type V = ConnectionView;

    open spec fn view(&self) -> ConnectionView {
        ConnectionView {
            id: self.id,
            permission_status: self.player_info.permission_status,
            player_name: self.player_info.player_name@,
            addr: self.connection_info.addr@,
            ip: self.connection_info.ip@,
            client_version: self.connection_info.client_version,
            is_beta_version: self.connection_info.is_beta_version,
            packet: slot_view(self.packet),
            cache_packet: slot_view(self.cache_packet),
            room_index: self.room_index,
            shared_relay_room: self.shared_relay_room,
            is_disconnected: self.is_disconnected,
        }
    }
}

/// The version number that the relay announces of itself.
pub const RELAY_VERSION: u32 = 151;

/// The team under which the relay speaks in chat.
pub const SERVER_TEAM: u32 = 5;

/// The packet that tells a client which relay it speaks to.
pub open spec fn relay_server_info_packet() -> PacketView {
    PacketView::fresh(PacketType::RELAY_VERSION_INFO).written(seq![0u8]).written(
        be32(RELAY_VERSION),
    ).written(be32(1)).written(seq![0u8])
}

/// The packet that shows a message in the relay hall.
pub open spec fn relay_hall_message_packet(msg: Seq<u8>) -> PacketView {
    PacketView::fresh(PacketType::RELAY_117).written(seq![1u8]).written(be32(5)).written(
        string_field(msg),
    )
}

/// The packet of a chat line that `sender` says under `team`.
pub open spec fn chat_message_packet(sender: Seq<u8>, msg: Seq<u8>, team: u32) -> PacketView {
    PacketView::fresh(PacketType::CHAT).written(string_field(msg)).written(seq![3u8]).written(
        optional_string_field(sender),
    ).written(be32(team)).written(be32(team))
}

/// The answer to a heartbeat that carried `time`.
pub open spec fn ping_data_packet(time: u64) -> PacketView {
    PacketView::fresh(PacketType::HEART_BEAT_RESPONSE).written(be64(time)).written(
        seq![1u8],
    ).written(seq![60u8])
}

/// The sum of a declared payload length and the eight bytes of a header, in
/// thirty-two bits.
pub open spec fn framed_length(packet_length: u32) -> u32 {
    ((packet_length + 8) % 0x1_0000_0000) as u32
}

/// The envelope that carries `inner` to a host as sent from `site`: the site
/// index, the length of the frame, and the frame: length, type code, buffer.
pub open spec fn forward_from_packet(site: u32, inner: PacketView) -> PacketView {
    PacketView::fresh(PacketType::PACKET_FORWARD_CLIENT_FROM).written(be32(site)).written(
        be32(framed_length(inner.packet_length)),
    ).written(be32(inner.packet_length)).written(be32(inner.packet_type.spec_code())).written(
        inner.buffer,
    )
}

/// The packet that tells a host that a player joined at `site`.
pub open spec fn client_add_packet(site: u32, uuid: Seq<u8>, ip: Seq<u8>) -> PacketView {
    PacketView::fresh(PacketType::FORWARD_CLIENT_ADD).written(seq![1u8]).written(
        be32(site),
    ).written(string_field(uuid)).written(seq![0u8]).written(optional_string_field(ip))
}

/// The id of a room as clients see it: the letter `S`, then the room's
/// number in decimal.
pub open spec fn display_id(id: u32) -> Seq<u8> {
    seq![0x53u8] + decimal(id as nat)
}

/// The line that names a room to its host.
pub open spec fn room_id_line(id: u32) -> Seq<u8> {
    "{RW-RJR Relay}.Room ID : ".spec_bytes() + display_id(id)
}

/// The packet that tells a client that it now hosts the room `id`.
pub open spec fn become_server_packet(mods: bool, id: u32, uuid: Seq<u8>) -> PacketView {
    PacketView::fresh(PacketType::RELAY_BECOME_SERVER).written(seq![2u8]).written(
        seq![1u8],
    ).written(seq![1u8]).written(seq![1u8]).written(string_field("RJR Team".spec_bytes())).written(
        seq![if mods { 1u8 } else { 0u8 }],
    ).written(seq![0u8]).written(seq![1u8]).written(string_field(room_id_line(id))).written(
        seq![0u8],
    ).written(optional_string_field(uuid))
}

/// Builds the packet that tells a client which relay it speaks to.
pub fn build_relay_server_info() -> (packet: Packet)
    ensures
        packet@ == relay_server_info_packet(),
{
    let mut packet = Packet::new(PacketType::RELAY_VERSION_INFO);
    packet.write_u8(0);
    packet.write_u32(RELAY_VERSION);
    packet.write_u32(1);
    packet.write_u8(0);
    packet
}

/// Builds the packet that shows `msg` in the relay hall.
pub fn build_relay_hall_message(msg: &[u8]) -> (packet: Packet)
    ensures
        packet@ == relay_hall_message_packet(msg@),
{
    let mut packet = Packet::new(PacketType::RELAY_117);
    packet.write_u8(1);
    packet.write_u32(5);
    packet.write_string_bytes(msg);
    packet
}

/// Builds the packet of a chat line.
pub fn build_chat_message(sender: &str, msg: &str, team: u32) -> (packet: Packet)
    ensures
        packet@ == chat_message_packet(sender.spec_bytes(), msg.spec_bytes(), team),
{
    let mut packet = Packet::new(PacketType::CHAT);
    let _ = packet.write_string(msg);
    packet.write_u8(3);
    let _ = packet.write_is_string(sender);
    packet.write_u32(team);
    packet.write_u32(team);
    packet
}

/// Builds the answer to a heartbeat that carried `time`.
pub fn build_ping_data(time: u64) -> (packet: Packet)
    ensures
        packet@ == ping_data_packet(time),
{
    let mut packet = Packet::new(PacketType::HEART_BEAT_RESPONSE);
    packet.write_u64(time);
    packet.write_u8(1);
    packet.write_u8(60);
    packet
}

/// Builds the envelope that carries `inner` to a host as sent from `site`.
pub fn build_forward_from(site: u32, inner: Packet) -> (packet: Packet)
    ensures
        packet@ == forward_from_packet(site, inner@),
{
    let mut packet = Packet::new(PacketType::PACKET_FORWARD_CLIENT_FROM);
    let length: u32 = inner.packet_length();
    let code: u32 = inner.packet_type().code();
    packet.write_u32(site);
    packet.write_u32(((length as u64 + 8) % 0x1_0000_0000) as u32);
    packet.write_u32(length);
    packet.write_u32(code);
    let bytes: Vec<u8> = inner.into_inner();
    packet.write_all(bytes.as_slice());
    packet
}

/// Builds the packet that tells a host that a player joined at `site`.
pub fn build_client_add(site: u32, uuid: &str, ip: &str) -> (packet: Packet)
    ensures
        packet@ == client_add_packet(site, uuid.spec_bytes(), ip.spec_bytes()),
{
    let mut packet = Packet::new(PacketType::FORWARD_CLIENT_ADD);
    packet.write_u8(1);
    packet.write_u32(site);
    let _ = packet.write_string(uuid);
    packet.write_u8(0);
    let _ = packet.write_is_string(ip);
    packet
}

/// The id of a room as clients see it.
pub fn build_display_id(id: u32) -> (text: Vec<u8>)
    ensures
        text@ == display_id(id),
{
    let mut text: Vec<u8> = Vec::new();
    text.push(0x53u8);
    let digits: Vec<u8> = to_decimal(id);
    text.extend_from_slice(digits.as_slice());
    assert(text@ =~= display_id(id));
    text
}

/// Builds the packet that tells a client that it now hosts the room `id`.
pub fn build_become_server(mods: bool, id: u32, uuid: &str) -> (packet: Packet)
    ensures
        packet@ == become_server_packet(mods, id, uuid.spec_bytes()),
{
    let mut packet = Packet::new(PacketType::RELAY_BECOME_SERVER);
    packet.write_u8(2);
    packet.write_u8(1);
    packet.write_u8(1);
    packet.write_u8(1);
    let _ = packet.write_string("RJR Team");
    packet.write_u8(if mods { 1 } else { 0 });
    packet.write_u8(0);
    packet.write_u8(1);
    let mut line: Vec<u8> = Vec::new();
    line.extend_from_slice("{RW-RJR Relay}.Room ID : ".as_bytes());
    let shown: Vec<u8> = build_display_id(id);
    line.extend_from_slice(shown.as_slice());
    assert(line@ =~= room_id_line(id));
    packet.write_string_bytes(line.as_slice());
    packet.write_u8(0);
    let _ = packet.write_is_string(uuid);
    packet
}

/// The characters that a string field's bytes are read as.
pub open spec fn lossy(content: Option<Seq<u8>>) -> Option<Seq<char>> {
    match content {
        Some(bytes) => Some(utf8_lossy(bytes)),
        None => None,
    }
}

/// What a preregistration packet says behind the client version: four
/// bytes to skip from packet version 1 on, an optional query string from
/// version 2 on, the player's name from version 3 on, and at least four bytes
/// more. `packet` is the packet with its cursor behind the client version.
#[verifier::opaque]
pub open spec fn versioned_inspection(
    packet: PacketView,
    packet_version: u32,
    client_version: u32,
) -> Option<InspectionView> {
    if packet_version >= 1 && packet.remaining().len() < 4 {
        None
    } else {
        let at4 = if packet_version >= 1 {
            packet.advanced(4)
        } else {
            packet
        };
        let query = if packet_version >= 2 {
            optional_string_field_at(at4.remaining())
        } else {
            Some((None, 0int))
        };
        match query {
            None => None,
            Some((query_string, n4)) => {
                let at5 = at4.advanced(n4);
                let name = if packet_version >= 3 {
                    match string_field_at(at5.remaining()) {
                        Some((name, n)) => Some((Some(name), n)),
                        None => None,
                    }
                } else {
                    Some((None, 0int))
                };
                match name {
                    None => None,
                    Some((player_name, n5)) => {
                        let at6 = at5.advanced(n5);
                        if at6.remaining().len() < 4 {
                            None
                        } else {
                            Some(
                                InspectionView {
                                    client_version,
                                    is_beta_version: spec_is_beta_version(client_version),
                                    query_string: lossy(query_string),
                                    player_name: lossy(player_name),
                                },
                            )
                        }
                    },
                }
            },
        }
    }
}

/// What a preregistration packet says: the client's package name, the packet
/// version, the client version, and what `versioned_inspection` reads behind
/// them. A packet that declares no payload, or that ends before all of this
/// was read, says nothing.
#[verifier::opaque]
pub open spec fn inspection_of(packet: PacketView) -> Option<InspectionView> {
    if packet.packet_length == 0 {
        None
    } else {
        match string_field_at(packet.remaining()) {
            None => None,
            Some((_, n0)) => {
                let at1 = packet.advanced(n0);
                if at1.remaining().len() < 8 {
                    None
                } else {
                    let packet_version = from_be32(at1.remaining().subrange(0, 4));
                    let at2 = at1.advanced(4);
                    let client_version = from_be32(at2.remaining().subrange(0, 4));
                    versioned_inspection(at2.advanced(4), packet_version, client_version)
                }
            },
        }
    }
}

/// Reads what a preregistration packet says.
pub fn inspect(packet: &Packet) -> (r: Option<RelayDirectInspection>)
    ensures
        match inspection_of(packet@) {
            Some(said) => r matches Some(inspection) && inspection@ == said,
            None => r is None,
        },
{
    proof {
        reveal(inspection_of);
        reveal(versioned_inspection);
    }
    if packet.packet_length() == 0 {
        return None;
    }
    let mut packet: Packet = packet.clone();
    let package: Option<String> = packet.read_string();
    if package.is_none() {
        return None;
    }
    let packet_version: u32 = match packet.read_u32() {
        Some(version) => version,
        None => {
            return None;
        },
    };
    let client_version: u32 = match packet.read_u32() {
        Some(version) => version,
        None => {
            return None;
        },
    };
    if packet_version >= 1 {
        if !packet.skip(4) {
            return None;
        }
    }
    let query_string: Option<String> = if packet_version >= 2 {
        match packet.read_if_is_string() {
            Some(query) => query,
            None => {
                return None;
            },
        }
    } else {
        None
    };
    let player_name: Option<String> = if packet_version >= 3 {
        match packet.read_string() {
            Some(name) => Some(name),
            None => {
                return None;
            },
        }
    } else {
        None
    };
    if packet.read_u32().is_none() {
        return None;
    }
    Some(
        RelayDirectInspection {
            client_version,
            is_beta_version: is_beta_version(client_version),
            query_string,
            player_name,
        },
    )
}

/// The parts of an envelope that a host addresses to a player.
pub struct ForwardToView {
    /// The site index of the player.
    pub index: u32,
    /// The type code of the packet inside.
    pub type_code: u32,
    /// The payload of the packet inside.
    pub bytes: Seq<u8>,
}

/// The parts of the envelope in `packet`: the target's site index, the type
/// code, and a stream-bytes field with the payload. `None` where the packet
/// ends first.
pub open spec fn forward_to_parts(packet: PacketView) -> Option<ForwardToView> {
    if packet.remaining().len() < 8 {
        None
    } else {
        let index = from_be32(packet.remaining().subrange(0, 4));
        let at1 = packet.advanced(4);
        let type_code = from_be32(at1.remaining().subrange(0, 4));
        let at2 = at1.advanced(4);
        match stream_bytes_field_at(at2.remaining()) {
            Some((bytes, _)) => Some(ForwardToView { index, type_code, bytes }),
            None => None,
        }
    }
}

/// The packet that a player gets out of an envelope: a fresh packet of the
/// type that the code names, with the payload written into it.
pub open spec fn forwarded_packet(type_code: u32, bytes: Seq<u8>) -> PacketView {
    PacketView::fresh(PacketType::spec_resolve(type_code)).written(bytes)
}

/// What became of a packet that a host addressed to a player.
#[derive(Debug)]
pub enum Forwarded {
    /// It goes to the player.
    Delivered(Delivery),
    /// It goes nowhere: it was a disconnect signal, or the player is gone.
    Dropped,
    /// The envelope could not be read.
    Malformed,
}

/// What a forwarding outcome is.
pub enum ForwardedView {
    Delivered(DeliveryView),
    Dropped,
    Malformed,
}

impl View for Forwarded {
    type V = ForwardedView;

    open spec fn view(&self) -> ForwardedView {
        match self {
            Forwarded::Delivered(delivery) => ForwardedView::Delivered(delivery@),
            Forwarded::Dropped => ForwardedView::Dropped,
            Forwarded::Malformed => ForwardedView::Malformed,
        }
    }
}

/// What a delivery that may be absent is.
pub open spec fn option_view(delivery: Option<Delivery>) -> Option<DeliveryView> {
    match delivery {
        Some(delivery) => Some(delivery@),
        None => None,
    }
}

/// A relay command, by its first letters.
#[derive(Debug, Clone, Copy, PartialEq, Eq, Structural)]
pub enum RelayCommand {
    /// Nothing was typed.
    Empty,
    /// `S` and the digits of a room id: join that room.
    Join,
    /// `new`: open a room.
    New,
    /// `mod`: open a room with mods.
    Mods,
    /// Anything else.
    Unknown,
}

/// The relay command that the bytes `command` spell.
pub open spec fn relay_command(command: Seq<u8>) -> RelayCommand {
    if command.len() == 0 {
        RelayCommand::Empty
    } else if command[0] == 0x53 {
        RelayCommand::Join
    } else if command.len() >= 3 && command[0] == 0x6e && command[1] == 0x65 && command[2]
        == 0x77 {
        RelayCommand::New
    } else if command.len() >= 3 && command[0] == 0x6d && command[1] == 0x6f && command[2]
        == 0x64 {
        RelayCommand::Mods
    } else {
        RelayCommand::Unknown
    }
}

/// Tells which relay command `command` spells.
pub fn parse_relay_command(command: &[u8]) -> (kind: RelayCommand)
    ensures
        kind == relay_command(command@),
{
    let count: usize = command.len();
    if count == 0 {
        RelayCommand::Empty
    } else if command[0] == 0x53 {
        RelayCommand::Join
    } else if count >= 3 && command[0] == 0x6e && command[1] == 0x65 && command[2] == 0x77 {
        RelayCommand::New
    } else if count >= 3 && command[0] == 0x6d && command[1] == 0x6f && command[2] == 0x64 {
        RelayCommand::Mods
    } else {
        RelayCommand::Unknown
    }
}

/// The relay command that a packet of the relay hall carries: a string field
/// behind five bytes that say nothing.
pub open spec fn command_in(packet: PacketView) -> Option<Seq<u8>> {
    if 5 <= packet.buffer.len() && (packet.is_prepared || 5 >= 8) {
        match string_field_at((PacketView { position: 5, ..packet }).remaining()) {
            Some((content, _)) => Some(content),
            None => None,
        }
    } else {
        None
    }
}

/// What a step of the relay does besides changing the connection and the
/// rooms.
#[derive(Debug)]
pub struct Outcome {
    /// The packets to enqueue, in order.
    pub deliveries: Vec<Delivery>,
    /// The room that was opened.
    pub room_created: Option<RoomRef>,
    /// Whether the connection is to be torn down.
    pub disconnect: bool,
}

/// What an outcome is.
pub struct OutcomeView {
    pub deliveries: Seq<DeliveryView>,
    pub room_created: Option<RoomRef>,
    pub disconnect: bool,
}

impl View for Outcome {
    type V = OutcomeView;

    open spec fn view(&self) -> OutcomeView {
        OutcomeView {
            deliveries: delivery_views(self.deliveries@),
            room_created: self.room_created,
            disconnect: self.disconnect,
        }
    }
}

impl OutcomeView {
    /// The outcome that sends `deliveries` and does nothing else.
    pub open spec fn sends(deliveries: Seq<DeliveryView>) -> OutcomeView {
        OutcomeView { deliveries, room_created: None, disconnect: false }
    }

    /// The outcome that does nothing.
    pub open spec fn nothing() -> OutcomeView {
        OutcomeView::sends(Seq::empty())
    }

    /// The outcome that tears the connection down.
    pub open spec fn disconnects() -> OutcomeView {
        OutcomeView { deliveries: Seq::empty(), room_created: None, disconnect: true }
    }
}

impl Outcome {
    /// The outcome that sends `deliveries` and does nothing else.
    pub fn sends(deliveries: Vec<Delivery>) -> (outcome: Outcome)
        ensures
            outcome@ == OutcomeView::sends(delivery_views(deliveries@)),
    {
        Outcome { deliveries, room_created: None, disconnect: false }
    }

    /// The outcome that does nothing.
    pub fn nothing() -> (outcome: Outcome)
        ensures
            outcome@ == OutcomeView::nothing(),
    {
        let outcome = Outcome { deliveries: Vec::new(), room_created: None, disconnect: false };
        assert(outcome@.deliveries =~= Seq::empty());
        outcome
    }

    /// The outcome that tears the connection down.
    pub fn disconnects() -> (outcome: Outcome)
        ensures
            outcome@ == OutcomeView::disconnects(),
    {
        let outcome = Outcome { deliveries: Vec::new(), room_created: None, disconnect: true };
        assert(outcome@.deliveries =~= Seq::empty());
        outcome
    }
}

/// A run of deliveries with none in it.
pub fn no_delivery() -> (deliveries: Vec<Delivery>)
    ensures
        delivery_views(deliveries@) == Seq::<DeliveryView>::empty(),
{
    let deliveries: Vec<Delivery> = Vec::new();
    assert(delivery_views(deliveries@) =~= Seq::<DeliveryView>::empty());
    deliveries
}

/// Puts a delivery behind the others.
pub fn push_delivery(deliveries: &mut Vec<Delivery>, delivery: Delivery)
    ensures
        delivery_views(final(deliveries)@) == delivery_views(old(deliveries)@).push(delivery@),
{
    deliveries.push(delivery);
    assert(delivery_views(deliveries@) =~= delivery_views(old(deliveries)@).push(delivery@));
}

/// Puts a delivery behind the others, where there is one.
pub fn push_delivery_if(deliveries: &mut Vec<Delivery>, delivery: Option<Delivery>)
    ensures
        delivery_views(final(deliveries)@) == delivery_views(old(deliveries)@) + spec_one_or_none(
            option_view(delivery),
        ),
{
    match delivery {
        Some(delivery) => {
            push_delivery(deliveries, delivery);
            assert(delivery_views(deliveries@) =~= delivery_views(old(deliveries)@) + seq![
                delivery@,
            ]);
        },
        None => {
            assert(delivery_views(deliveries@) =~= delivery_views(old(deliveries)@)
                + Seq::<DeliveryView>::empty());
        },
    }
}

/// The run of the one delivery, or of none.
pub open spec fn spec_one_or_none(delivery: Option<DeliveryView>) -> Seq<DeliveryView> {
    match delivery {
        Some(delivery) => seq![delivery],
        None => Seq::empty(),
    }
}

impl ConnectionView {
    /// A connection as it is accepted: nothing is known of the client.
    pub open spec fn accepted(id: u64, addr: Seq<char>, ip: Seq<char>) -> ConnectionView {
        ConnectionView {
            id,
            permission_status: PermissionStatus::InitialConnection,
            player_name: Seq::empty(),
            addr,
            ip,
            client_version: 0,
            is_beta_version: false,
            packet: None,
            cache_packet: None,
            room_index: None,
            shared_relay_room: None,
            is_disconnected: false,
        }
    }

    /// A packet addressed to this connection.
    pub open spec fn to_self(self, packet: PacketView) -> DeliveryView {
        DeliveryView { con: self.id, packet }
    }

    /// A packet addressed to the host of this connection's room, where the
    /// room is still there.
    pub open spec fn to_host(self, rooms: Map<u32, RoomView>, packet: PacketView) -> Option<
        DeliveryView,
    > {
        match self.shared_relay_room {
            Some(room) => if resolves(rooms, room) {
                Some(DeliveryView { con: rooms[room.id].admin, packet })
            } else {
                None
            },
            None => None,
        }
    }

    /// A packet of this connection wrapped for the host of its room, where
    /// the connection sits in a room that is still there.
    pub open spec fn forward_to_host(self, rooms: Map<u32, RoomView>, inner: PacketView) -> Option<
        DeliveryView,
    > {
        match self.room_index {
            Some(site) => self.to_host(rooms, forward_from_packet(site, inner)),
            None => None,
        }
    }

    /// What becomes of an envelope that this connection, a host, addresses to
    /// a player of its room.
    pub open spec fn forward_to_others(
        self,
        rooms: Map<u32, RoomView>,
        envelope: PacketView,
    ) -> ForwardedView {
        match forward_to_parts(envelope) {
            None => ForwardedView::Malformed,
            Some(parts) => if parts.type_code == PacketType::DISCONNECT.spec_code() {
                ForwardedView::Dropped
            } else {
                match self.shared_relay_room {
                    Some(room) => if resolves(rooms, room) && rooms[room.id].players.contains_key(
                        parts.index,
                    ) {
                        ForwardedView::Delivered(
                            DeliveryView {
                                con: rooms[room.id].players[parts.index],
                                packet: forwarded_packet(parts.type_code, parts.bytes),
                            },
                        )
                    } else {
                        ForwardedView::Dropped
                    },
                    None => ForwardedView::Dropped,
                }
            },
        }
    }

    /// The rooms after this connection was torn down: it has left its room,
    /// and a room that it left without a player is gone.
    pub open spec fn rooms_without(self, rooms: Map<u32, RoomView>) -> Map<u32, RoomView> {
        if self.is_disconnected {
            rooms
        } else {
            match (self.shared_relay_room, self.room_index) {
                (Some(room), Some(index)) => after_leaving(rooms, room, index),
                _ => rooms,
            }
        }
    }

    /// What is sent when this connection has joined a room: the notice of a
    /// new player and the connection's preregistration packet to the host, and
    /// a welcome to the player.
    pub open spec fn join_deliveries(self, rooms: Map<u32, RoomView>, uuid: Seq<u8>) -> Seq<
        DeliveryView,
    > {
        let notice = match self.room_index {
            Some(site) => spec_one_or_none(
                self.to_host(rooms, client_add_packet(site, uuid, encode_utf8(self.ip))),
            ),
            None => Seq::empty(),
        };
        let cached = match self.cache_packet {
            Some(cache) => spec_one_or_none(self.forward_to_host(rooms, cache)),
            None => Seq::empty(),
        };
        notice + cached + seq![
            self.to_self(
                chat_message_packet(
                    crate::data::SERVER_NAME.spec_bytes(),
                    crate::data::WELCOME.spec_bytes(),
                    SERVER_TEAM,
                ),
            ),
        ]
    }
}

impl Connection {
    /// The state of a connection that was just accepted.
    pub fn new(id: u64, addr: String, ip: String) -> (con: Connection)
        ensures
            con@ == ConnectionView::accepted(id, addr@, ip@),
    {
        Connection {
            id,
            player_info: PlayerInfo {
                permission_status: PermissionStatus::InitialConnection,
                player_name: String::new(),
            },
            connection_info: ConnectionInfo {
                addr,
                ip,
                client_version: 0,
                is_beta_version: false,
            },
            packet: None,
            cache_packet: None,
            room_index: None,
            shared_relay_room: None,
            is_disconnected: false,
        }
    }

    /// Tells the client which relay it speaks to.
    pub fn send_relay_server_info(&self) -> (delivery: Delivery)
        ensures
            delivery@ == self@.to_self(relay_server_info_packet()),
    {
        Delivery { con: self.id, packet: build_relay_server_info() }
    }

    /// Shows `msg` to the client in the relay hall.
    pub fn send_relay_hall_message(&self, msg: &str) -> (delivery: Delivery)
        ensures
            delivery@ == self@.to_self(relay_hall_message_packet(msg.spec_bytes())),
    {
        Delivery { con: self.id, packet: build_relay_hall_message(msg.as_bytes()) }
    }

    /// Says a chat line to the client.
    pub fn chat_message_packet_internal(&self, sender: &str, msg: &str, team: u32) -> (delivery:
        Delivery)
        ensures
            delivery@ == self@.to_self(
                chat_message_packet(sender.spec_bytes(), msg.spec_bytes(), team),
            ),
    {
        Delivery { con: self.id, packet: build_chat_message(sender, msg, team) }
    }

    /// Answers the heartbeat that was received last: the answer carries the
    /// heartbeat's first eight bytes. The packet received last is taken out
    /// of its slot; there is no answer where the slot is empty or the packet
    /// is too short.
    pub fn get_ping_data(&mut self) -> (delivery: Option<Delivery>)
        ensures
            final(self)@ == (ConnectionView { packet: None, ..old(self)@ }),
            option_view(delivery) == (match old(self)@.packet {
                Some(packet) => if packet.remaining().len() >= 8 {
                    Some(
                        old(self)@.to_self(
                            ping_data_packet(from_be64(packet.remaining().subrange(0, 8))),
                        ),
                    )
                } else {
                    None
                },
                None => None,
            }),
    {
        match self.packet.take() {
            Some(packet) => {
                let mut packet: Packet = packet;
                match packet.read_u64() {
                    Some(time) => Some(Delivery { con: self.id, packet: build_ping_data(time) }),
                    None => None,
                }
            },
            None => None,
        }
    }

    /// Reads what the cached preregistration packet says of the client.
    pub fn relay_direct_inspection(&self) -> (r: Option<RelayDirectInspection>)
        ensures
            match self@.cache_packet {
                Some(cache) => match inspection_of(cache) {
                    Some(said) => r matches Some(inspection) && inspection@ == said,
                    None => r is None,
                },
                None => r is None,
            },
    {
        match &self.cache_packet {
            Some(cache) => inspect(cache),
            None => None,
        }
    }

    /// Wraps a packet of this connection for the host of its room. The
    /// packet is dropped where the connection sits in no room, or in one that
    /// is gone.
    pub fn send_packet_to_host(&self, relay_mg: &RelayManager, packet: Packet) -> (delivery:
        Option<Delivery>)
        ensures
            option_view(delivery) == self@.forward_to_host(relay_mg.rooms(), packet@),
    {
        match (self.shared_relay_room, self.room_index) {
            (Some(room), Some(site)) => relay_mg.send_packet_to_host(
                room,
                build_forward_from(site, packet),
            ),
            _ => None,
        }
    }

    /// Hands a packet of this connection to the host of its room as it is.
    pub fn send_packet_to_host_raw(&self, relay_mg: &RelayManager, packet: Packet) -> (delivery:
        Option<Delivery>)
        ensures
            option_view(delivery) == self@.to_host(relay_mg.rooms(), packet@),
    {
        match self.shared_relay_room {
            Some(room) => relay_mg.send_packet_to_host(room, packet),
            None => None,
        }
    }

    /// Unwraps an envelope that this connection, a host, addresses to a
    /// player of its room, and addresses what was inside to that player. A
    /// disconnect signal inside is swallowed; a packet for a site index at
    /// which nobody sits is dropped.
    pub fn send_packet_to_others(&self, relay_mg: &RelayManager, packet: Packet) -> (forwarded:
        Forwarded)
        ensures
            forwarded@ == self@.forward_to_others(relay_mg.rooms(), packet@),
    {
        let mut packet: Packet = packet;
        let ghost envelope = packet@;
        proof {
            use_type_invariant(&packet);
        }
        let index: u32 = match packet.read_u32() {
            Some(index) => index,
            None => {
                return Forwarded::Malformed;
            },
        };
        assert(packet@.remaining().len() == envelope.remaining().len() - 4);
        let type_code: u32 = match packet.read_u32() {
            Some(code) => code,
            None => {
                return Forwarded::Malformed;
            },
        };
        let bytes: Vec<u8> = match packet.read_stream_bytes() {
            Some(bytes) => bytes,
            None => {
                return Forwarded::Malformed;
            },
        };
        if type_code == PacketType::DISCONNECT.code() {
            return Forwarded::Dropped;
        }
        let mut send_packet = Packet::new(PacketType::resolve(type_code));
        send_packet.write_all(bytes.as_slice());
        match self.shared_relay_room {
            Some(room) => match relay_mg.send_packet_to_others(room, index, send_packet) {
                Some(delivery) => Forwarded::Delivered(delivery),
                None => Forwarded::Dropped,
            },
            None => Forwarded::Dropped,
        }
    }

    /// Makes the connection a player: tells the host of its room that a
    /// player joined, under the fresh id `uuid`, forwards the cached
    /// preregistration packet to the host, and welcomes the player.
    pub fn add_relay_connect(&mut self, relay_mg: &RelayManager, uuid: &str) -> (deliveries: Vec<
        Delivery,
    >)
        ensures
            final(self)@ == (ConnectionView {
                permission_status: PermissionStatus::PlayerPermission,
                ..old(self)@
            }),
            delivery_views(deliveries@) == old(self)@.join_deliveries(
                relay_mg.rooms(),
                uuid.spec_bytes(),
            ),
    {
        self.player_info.permission_status = PermissionStatus::PlayerPermission;
        let mut deliveries: Vec<Delivery> = no_delivery();
        match self.room_index {
            Some(site) => {
                let notice: Packet = build_client_add(site, uuid, self.connection_info.ip.as_str());
                push_delivery_if(&mut deliveries, self.send_packet_to_host_raw(relay_mg, notice));
            },
            None => {},
        }
        match &self.cache_packet {
            Some(cache) => {
                let copy: Packet = cache.clone();
                push_delivery_if(&mut deliveries, self.send_packet_to_host(relay_mg, copy));
            },
            None => {},
        }
        push_delivery(
            &mut deliveries,
            self.chat_message_packet_internal(crate::data::SERVER_NAME, crate::data::WELCOME, SERVER_TEAM),
        );
        assert(delivery_views(deliveries@) =~= old(self)@.join_deliveries(
            relay_mg.rooms(),
            uuid.spec_bytes(),
        ));
        deliveries
    }

    /// Makes the connection the host of `room`, at site index 1, and tells
    /// the client so, under the fresh id `uuid`.
    pub fn send_relay_server_id(&mut self, room: RoomRef, mods: bool, uuid: &str) -> (delivery:
        Delivery)
        ensures
            final(self)@ == (ConnectionView {
                permission_status: PermissionStatus::HostPermission,
                room_index: Some(HOST_SITE_INDEX),
                shared_relay_room: Some(room),
                ..old(self)@
            }),
            delivery@ == old(self)@.to_self(become_server_packet(mods, room.id, uuid.spec_bytes())),
    {
        self.shared_relay_room = Some(room);
        self.room_index = Some(HOST_SITE_INDEX);
        self.player_info.permission_status = PermissionStatus::HostPermission;
        Delivery { con: self.id, packet: build_become_server(mods, room.id, uuid) }
    }

    /// Tears the connection down, once: it leaves its room, and a room that
    /// it leaves without a player is torn down with it. Says whether this
    /// call did it; a connection that was torn down before stays as it is.
    pub fn disconnect(&mut self, relay_mg: &mut RelayManager) -> (first: bool)
        ensures
            first == !old(self)@.is_disconnected,
            final(self)@ == (ConnectionView { is_disconnected: true, ..old(self)@ }),
            final(relay_mg).rooms() == old(self)@.rooms_without(old(relay_mg).rooms()),
            final(relay_mg).generation() == old(relay_mg).generation(),
    {
        if self.is_disconnected {
            return false;
        }
        self.is_disconnected = true;
        match (self.shared_relay_room, self.room_index) {
            (Some(room), Some(index)) => {
                let _ = relay_mg.remove_player(room, index);
            },
            _ => {},
        }
        true
    }
}

/// A connection, the rooms, and what a step of the relay gave.
pub struct StepView {
    pub con: ConnectionView,
    pub rooms: Map<u32, RoomView>,
    /// The number of rooms that the registry has made.
    pub generation: u64,
    pub outcome: OutcomeView,
}

/// The step that changes nothing and shows `msg` in the relay hall.
pub open spec fn hall_says(
    con: ConnectionView,
    rooms: Map<u32, RoomView>,
    generation: u64,
    msg: Seq<u8>,
) -> StepView {
    StepView {
        con,
        rooms,
        generation,
        outcome: OutcomeView::sends(seq![con.to_self(relay_hall_message_packet(msg))]),
    }
}

/// The step in which a client in the relay hall joins `room`. A client
/// that speaks an older protocol is torn down; where the room has no site
/// index left nothing happens. Else the client becomes a player at the
/// room's next site index.
pub open spec fn joins(
    con: ConnectionView,
    rooms: Map<u32, RoomView>,
    generation: u64,
    room: RoomRef,
    uuid: Seq<u8>,
) -> StepView {
    if con.client_version < NEW_RELAY_PROTOCOL_VERSION {
        StepView { con, rooms, generation, outcome: OutcomeView::disconnects() }
    } else if !(resolves(rooms, room) && rooms[room.id].has_site_left()) {
        StepView { con, rooms, generation, outcome: OutcomeView::nothing() }
    } else {
        let seated = ConnectionView {
            room_index: Some(rooms[room.id].site),
            shared_relay_room: Some(room),
            ..con
        };
        let rooms_after = rooms.insert(room.id, rooms[room.id].joined(con.id));
        StepView {
            con: ConnectionView {
                permission_status: PermissionStatus::PlayerPermission,
                ..seated
            },
            rooms: rooms_after,
            generation,
            outcome: OutcomeView::sends(seated.join_deliveries(rooms_after, uuid)),
        }
    }
}

/// The settings of the room that a client opens.
pub open spec fn opened_custom(con: ConnectionView, mods: bool) -> CustomRelayData {
    (CustomRelayData {
        max_player_size: -1i32,
        max_unit_size: 300,
        uplist: false,
        mods,
        beta_game_version: con.is_beta_version,
        version: con.client_version,
    }).spec_with_default_limit()
}

/// The step in which a client in the relay hall opens a room under the
/// number `picked`. A client that speaks an older protocol is torn down;
/// where no number was picked, or the registry takes no room under it,
/// nothing happens. Else the client becomes the host of the new room, at
/// site index 1.
pub open spec fn opens(
    con: ConnectionView,
    rooms: Map<u32, RoomView>,
    generation: u64,
    mods: bool,
    uuid: Seq<u8>,
    picked: Option<u32>,
) -> StepView {
    if con.client_version < NEW_RELAY_PROTOCOL_VERSION {
        StepView { con, rooms, generation, outcome: OutcomeView::disconnects() }
    } else {
        match picked {
            Some(id) => if !rooms.contains_key(id) && generation < u64::MAX {
                let room = RoomRef { id, generation };
                StepView {
                    con: ConnectionView {
                        permission_status: PermissionStatus::HostPermission,
                        room_index: Some(HOST_SITE_INDEX),
                        shared_relay_room: Some(room),
                        ..con
                    },
                    rooms: rooms.insert(
                        id,
                        RoomView::created(
                            SharedRelayRoomData {
                                id,
                                generation,
                                start_game: false,
                                custom: opened_custom(con, mods),
                            },
                            con.id,
                        ),
                    ),
                    generation: (generation + 1) as u64,
                    outcome: OutcomeView {
                        deliveries: seq![con.to_self(become_server_packet(mods, id, uuid))],
                        room_created: Some(room),
                        disconnect: false,
                    },
                }
            } else {
                StepView { con, rooms, generation, outcome: OutcomeView::nothing() }
            },
            None => StepView { con, rooms, generation, outcome: OutcomeView::nothing() },
        }
    }
}

/// The step that answers the relay command `command`: an empty command
/// and an unknown one get a message in the hall; `S` and the digits of a
/// room id join that room, or get a message where no such room exists; `new`
/// and `mod` open a room.
pub open spec fn type_reply(
    con: ConnectionView,
    rooms: Map<u32, RoomView>,
    generation: u64,
    command: Seq<u8>,
    uuid: Seq<u8>,
    picked: Option<u32>,
) -> StepView {
    match relay_command(command) {
        RelayCommand::Empty => hall_says(
            con,
            rooms,
            generation,
            crate::data::NOTHING_TYPED.spec_bytes(),
        ),
        RelayCommand::Unknown => hall_says(
            con,
            rooms,
            generation,
            crate::data::NOT_UNDERSTOOD.spec_bytes(),
        ),
        RelayCommand::Join => match relay_named(
            rooms,
            command.subrange(1, command.len() as int),
        ) {
            Some(room) => joins(con, rooms, generation, room, uuid),
            None => hall_says(
                con,
                rooms,
                generation,
                command + crate::data::NO_SUCH_ROOM.spec_bytes(),
            ),
        },
        RelayCommand::New => opens(con, rooms, generation, false, uuid, picked),
        RelayCommand::Mods => opens(con, rooms, generation, true, uuid, picked),
    }
}

impl Connection {
    /// Answers the relay command `command` of a client in the relay hall.
    /// `uuid` is a fresh id for the notices that are sent, and `picked` the
    /// number for a room that is opened.
    pub fn reply_to_command(
        &mut self,
        relay_mg: &mut RelayManager,
        command: &str,
        uuid: &str,
        picked: Option<u32>,
    ) -> (outcome: Outcome)
        ensures
            (StepView {
                con: final(self)@,
                rooms: final(relay_mg).rooms(),
                generation: final(relay_mg).generation(),
                outcome: outcome@,
            }) == type_reply(
                old(self)@,
                old(relay_mg).rooms(),
                old(relay_mg).generation(),
                command.spec_bytes(),
                uuid.spec_bytes(),
                picked,
            ),
    {
        let bytes: &[u8] = command.as_bytes();
        let kind: RelayCommand = parse_relay_command(bytes);
        match kind {
            RelayCommand::Empty => {
                let mut deliveries: Vec<Delivery> = no_delivery();
                push_delivery(
                    &mut deliveries,
                    self.send_relay_hall_message(crate::data::NOTHING_TYPED),
                );
                Outcome::sends(deliveries)
            },
            RelayCommand::Unknown => {
                let mut deliveries: Vec<Delivery> = no_delivery();
                push_delivery(
                    &mut deliveries,
                    self.send_relay_hall_message(crate::data::NOT_UNDERSTOOD),
                );
                Outcome::sends(deliveries)
            },
            RelayCommand::Join => {
                let digits: &[u8] = slice_subrange(bytes, 1, bytes.len());
                match relay_mg.get_relay_by_digits(digits) {
                    Some(room) => self.join(relay_mg, room, uuid),
                    None => {
                        let mut msg: Vec<u8> = Vec::new();
                        msg.extend_from_slice(bytes);
                        msg.extend_from_slice(crate::data::NO_SUCH_ROOM.as_bytes());
                        assert(msg@ =~= command.spec_bytes()
                            + crate::data::NO_SUCH_ROOM.spec_bytes());
                        let mut deliveries: Vec<Delivery> = no_delivery();
                        push_delivery(
                            &mut deliveries,
                            Delivery {
                                con: self.id,
                                packet: build_relay_hall_message(msg.as_slice()),
                            },
                        );
                        Outcome::sends(deliveries)
                    },
                }
            },
            RelayCommand::New => self.open(relay_mg, false, uuid, picked),
            RelayCommand::Mods => self.open(relay_mg, true, uuid, picked),
        }
    }

    /// Joins `room` as a player.
    pub fn join(&mut self, relay_mg: &mut RelayManager, room: RoomRef, uuid: &str) -> (outcome:
        Outcome)
        ensures
            (StepView {
                con: final(self)@,
                rooms: final(relay_mg).rooms(),
                generation: final(relay_mg).generation(),
                outcome: outcome@,
            }) == joins(
                old(self)@,
                old(relay_mg).rooms(),
                old(relay_mg).generation(),
                room,
                uuid.spec_bytes(),
            ),
    {
        if self.connection_info.client_version < NEW_RELAY_PROTOCOL_VERSION {
            return Outcome::disconnects();
        }
        match relay_mg.add_relay_player(room, self.id) {
            Some(index) => {
                self.room_index = Some(index);
                self.shared_relay_room = Some(room);
                Outcome::sends(self.add_relay_connect(relay_mg, uuid))
            },
            None => Outcome::nothing(),
        }
    }

    /// Opens a room under the number `picked` and becomes its host.
    pub fn open(
        &mut self,
        relay_mg: &mut RelayManager,
        mods: bool,
        uuid: &str,
        picked: Option<u32>,
    ) -> (outcome: Outcome)
        ensures
            (StepView {
                con: final(self)@,
                rooms: final(relay_mg).rooms(),
                generation: final(relay_mg).generation(),
                outcome: outcome@,
            }) == opens(
                old(self)@,
                old(relay_mg).rooms(),
                old(relay_mg).generation(),
                mods,
                uuid.spec_bytes(),
                picked,
            ),
    {
        if self.connection_info.client_version < NEW_RELAY_PROTOCOL_VERSION {
            return Outcome::disconnects();
        }
        let id: u32 = match picked {
            Some(id) => id,
            None => {
                return Outcome::nothing();
            },
        };
        let custom = CustomRelayData::new(
            mods,
            false,
            self.connection_info.is_beta_version,
            self.connection_info.client_version,
        );
        match relay_mg.new_relay_id(self.id, Some(id), custom) {
            Some(room) => {
                let mut deliveries: Vec<Delivery> = no_delivery();
                push_delivery(&mut deliveries, self.send_relay_server_id(room, mods, uuid));
                let outcome = Outcome { deliveries, room_created: Some(room), disconnect: false };
                assert(outcome@.deliveries =~= seq![
                    old(self)@.to_self(become_server_packet(mods, id, uuid.spec_bytes())),
                ]);
                outcome
            },
            None => Outcome::nothing(),
        }
    }

    /// Answers the relay command in the packet that was received last: the
    /// packet is taken out of its slot, and the command read from it as text.
    /// A packet that holds no command tears the connection down.
    pub fn send_relay_server_type_reply(
        &mut self,
        relay_mg: &mut RelayManager,
        uuid: &str,
        picked: Option<u32>,
    ) -> (outcome: Outcome)
        ensures
            (StepView {
                con: final(self)@,
                rooms: final(relay_mg).rooms(),
                generation: final(relay_mg).generation(),
                outcome: outcome@,
            }) == command_reply(
                old(self)@,
                old(relay_mg).rooms(),
                old(relay_mg).generation(),
                uuid.spec_bytes(),
                picked,
            ),
    {
        let mut packet: Packet = match self.packet.take() {
            Some(packet) => packet,
            None => {
                return Outcome::disconnects();
            },
        };
        if !packet.set_position(5) {
            return Outcome::disconnects();
        }
        match packet.read_string() {
            Some(command) => self.reply_to_command(relay_mg, command.as_str(), uuid, picked),
            None => Outcome::disconnects(),
        }
    }
}

/// The step that answers the relay command in the packet that a connection
/// received last.
pub open spec fn command_reply(
    con: ConnectionView,
    rooms: Map<u32, RoomView>,
    generation: u64,
    uuid: Seq<u8>,
    picked: Option<u32>,
) -> StepView {
    let taken = ConnectionView { packet: None, ..con };
    match con.packet {
        Some(packet) => match command_in(packet) {
            Some(command) => type_reply(
                taken,
                rooms,
                generation,
                encode_utf8(utf8_lossy(command)),
                uuid,
                picked,
            ),
            None => StepView { con: taken, rooms, generation, outcome: OutcomeView::disconnects() },
        },
        None => StepView { con: taken, rooms, generation, outcome: OutcomeView::disconnects() },
    }
}

/// What a connection is asked to do.
#[derive(Debug)]
pub enum ConnectionAPI {
    /// Tear the connection down.
    Disconnect,
    /// Store a packet as the one received last.
    SetPacket(Packet),
    /// Keep a packet as the preregistration packet.
    SetCachePacket(Packet),
    /// Note the site index of the connection in its room.
    SetRoomIndex(Option<u32>),
    /// Tell the client which relay it speaks to.
    SendRelayServerInfo,
    /// Read what the cached preregistration packet says.
    RelayDirectInspection,
    /// Show a message in the relay hall.
    SendRelayHallMessage(String),
    /// Answer the relay command in the packet received last.
    SendRelayServerTypeReply,
    /// Answer the heartbeat received last.
    GetPingData,
    /// Wrap a packet for the host of the room.
    SendPacketToHost(Packet),
    /// Hand a packet to the host of the room as it is.
    SendPacketToHostRaw(Packet),
    /// Unwrap an envelope for a player of the room.
    SendPacketToOthers(Packet),
    /// Become a player of the room that was noted.
    AddRelayConnect,
}

/// What a request to a connection is.
pub enum ConnectionAPIView {
    Disconnect,
    SetPacket(PacketView),
    SetCachePacket(PacketView),
    SetRoomIndex(Option<u32>),
    SendRelayServerInfo,
    RelayDirectInspection,
    SendRelayHallMessage(Seq<char>),
    SendRelayServerTypeReply,
    GetPingData,
    SendPacketToHost(PacketView),
    SendPacketToHostRaw(PacketView),
    SendPacketToOthers(PacketView),
    AddRelayConnect,
}

impl View for ConnectionAPI {
    type V = ConnectionAPIView;

    open spec fn view(&self) -> ConnectionAPIView {
        match self {
            ConnectionAPI::Disconnect => ConnectionAPIView::Disconnect,
            ConnectionAPI::SetPacket(packet) => ConnectionAPIView::SetPacket(packet@),
            ConnectionAPI::SetCachePacket(packet) => ConnectionAPIView::SetCachePacket(packet@),
            ConnectionAPI::SetRoomIndex(index) => ConnectionAPIView::SetRoomIndex(*index),
            ConnectionAPI::SendRelayServerInfo => ConnectionAPIView::SendRelayServerInfo,
            ConnectionAPI::RelayDirectInspection => ConnectionAPIView::RelayDirectInspection,
            ConnectionAPI::SendRelayHallMessage(msg) => ConnectionAPIView::SendRelayHallMessage(
                msg@,
            ),
            ConnectionAPI::SendRelayServerTypeReply => ConnectionAPIView::SendRelayServerTypeReply,
            ConnectionAPI::GetPingData => ConnectionAPIView::GetPingData,
            ConnectionAPI::SendPacketToHost(packet) => ConnectionAPIView::SendPacketToHost(
                packet@,
            ),
            ConnectionAPI::SendPacketToHostRaw(packet) => ConnectionAPIView::SendPacketToHostRaw(
                packet@,
            ),
            ConnectionAPI::SendPacketToOthers(packet) => ConnectionAPIView::SendPacketToOthers(
                packet@,
            ),
            ConnectionAPI::AddRelayConnect => ConnectionAPIView::AddRelayConnect,
        }
    }
}

/// What a connection answers to a request: the outcome, and what an
/// inspection read.
#[derive(Debug)]
pub struct ConnectionReply {
    pub outcome: Outcome,
    pub inspection: Option<RelayDirectInspection>,
}

/// What the cached preregistration packet of a connection says.
pub open spec fn cached_inspection(con: ConnectionView) -> Option<InspectionView> {
    match con.cache_packet {
        Some(cache) => inspection_of(cache),
        None => None,
    }
}

/// What an inspection that may be absent is.
pub open spec fn inspection_view(inspection: Option<RelayDirectInspection>) -> Option<
    InspectionView,
> {
    match inspection {
        Some(inspection) => Some(inspection@),
        None => None,
    }
}

/// The step that serves one request to a connection. A request to tear the
/// connection down, and an envelope or a heartbeat that cannot be read, end
/// in an outcome that tears it down: the connection leaves its room then.
pub open spec fn served(
    con: ConnectionView,
    rooms: Map<u32, RoomView>,
    generation: u64,
    api: ConnectionAPIView,
    uuid: Seq<u8>,
    picked: Option<u32>,
) -> StepView {
    let stays = StepView { con, rooms, generation, outcome: OutcomeView::nothing() };
    let step = match api {
        ConnectionAPIView::Disconnect => StepView { outcome: OutcomeView::disconnects(), ..stays },
        ConnectionAPIView::SetPacket(packet) => StepView {
            con: ConnectionView { packet: Some(packet), ..con },
            ..stays
        },
        ConnectionAPIView::SetCachePacket(packet) => StepView {
            con: ConnectionView { cache_packet: Some(packet), ..con },
            ..stays
        },
        ConnectionAPIView::SetRoomIndex(index) => StepView {
            con: ConnectionView { room_index: index, ..con },
            ..stays
        },
        ConnectionAPIView::SendRelayServerInfo => StepView {
            outcome: OutcomeView::sends(seq![con.to_self(relay_server_info_packet())]),
            ..stays
        },
        ConnectionAPIView::RelayDirectInspection => stays,
        ConnectionAPIView::SendRelayHallMessage(msg) => hall_says(
            con,
            rooms,
            generation,
            encode_utf8(msg),
        ),
        ConnectionAPIView::SendRelayServerTypeReply => command_reply(
            con,
            rooms,
            generation,
            uuid,
            picked,
        ),
        ConnectionAPIView::GetPingData => StepView {
            con: ConnectionView { packet: None, ..con },
            rooms,
            generation,
            outcome: match con.packet {
                Some(packet) => if packet.remaining().len() >= 8 {
                    OutcomeView::sends(
                        seq![
                            con.to_self(
                                ping_data_packet(from_be64(packet.remaining().subrange(0, 8))),
                            ),
                        ],
                    )
                } else {
                    OutcomeView::disconnects()
                },
                None => OutcomeView::disconnects(),
            },
        },
        ConnectionAPIView::SendPacketToHost(packet) => StepView {
            outcome: OutcomeView::sends(spec_one_or_none(con.forward_to_host(rooms, packet))),
            ..stays
        },
        ConnectionAPIView::SendPacketToHostRaw(packet) => StepView {
            outcome: OutcomeView::sends(spec_one_or_none(con.to_host(rooms, packet))),
            ..stays
        },
        ConnectionAPIView::SendPacketToOthers(packet) => match con.forward_to_others(
            rooms,
            packet,
        ) {
            ForwardedView::Delivered(delivery) => StepView {
                outcome: OutcomeView::sends(seq![delivery]),
                ..stays
            },
            ForwardedView::Dropped => stays,
            ForwardedView::Malformed => StepView { outcome: OutcomeView::disconnects(), ..stays },
        },
        ConnectionAPIView::AddRelayConnect => StepView {
            con: ConnectionView { permission_status: PermissionStatus::PlayerPermission, ..con },
            rooms,
            generation,
            outcome: OutcomeView::sends(con.join_deliveries(rooms, uuid)),
        },
    };
    if step.outcome.disconnect {
        StepView {
            con: ConnectionView { is_disconnected: true, ..step.con },
            rooms: step.con.rooms_without(step.rooms),
            ..step
        }
    } else {
        step
    }
}

impl Connection {
    /// Serves one request. `uuid` is a fresh id and `picked` a room number,
    /// at hand for the requests that use them.
    pub fn serve(
        &mut self,
        relay_mg: &mut RelayManager,
        api: ConnectionAPI,
        uuid: &str,
        picked: Option<u32>,
    ) -> (reply: ConnectionReply)
        ensures
            (StepView {
                con: final(self)@,
                rooms: final(relay_mg).rooms(),
                generation: final(relay_mg).generation(),
                outcome: reply.outcome@,
            }) == served(
                old(self)@,
                old(relay_mg).rooms(),
                old(relay_mg).generation(),
                api@,
                uuid.spec_bytes(),
                picked,
            ),
            inspection_view(reply.inspection) == (if api is RelayDirectInspection {
                cached_inspection(old(self)@)
            } else {
                None
            }),
    {
        let mut inspection: Option<RelayDirectInspection> = None;
        let outcome: Outcome = match api {
            ConnectionAPI::Disconnect => Outcome::disconnects(),
            ConnectionAPI::SetPacket(packet) => {
                self.packet = Some(packet);
                Outcome::nothing()
            },
            ConnectionAPI::SetCachePacket(packet) => {
                self.cache_packet = Some(packet);
                Outcome::nothing()
            },
            ConnectionAPI::SetRoomIndex(index) => {
                self.room_index = index;
                Outcome::nothing()
            },
            ConnectionAPI::SendRelayServerInfo => {
                let mut deliveries: Vec<Delivery> = no_delivery();
                push_delivery(&mut deliveries, self.send_relay_server_info());
                assert(delivery_views(deliveries@) =~= seq![
                    old(self)@.to_self(relay_server_info_packet()),
                ]);
                Outcome::sends(deliveries)
            },
            ConnectionAPI::RelayDirectInspection => {
                inspection = self.relay_direct_inspection();
                Outcome::nothing()
            },
            ConnectionAPI::SendRelayHallMessage(msg) => {
                let mut deliveries: Vec<Delivery> = no_delivery();
                push_delivery(&mut deliveries, self.send_relay_hall_message(msg.as_str()));
                assert(delivery_views(deliveries@) =~= seq![
                    old(self)@.to_self(relay_hall_message_packet(encode_utf8(msg@))),
                ]);
                Outcome::sends(deliveries)
            },
            ConnectionAPI::SendRelayServerTypeReply => self.send_relay_server_type_reply(
                relay_mg,
                uuid,
                picked,
            ),
            ConnectionAPI::GetPingData => match self.get_ping_data() {
                Some(delivery) => {
                    let mut deliveries: Vec<Delivery> = no_delivery();
                    push_delivery(&mut deliveries, delivery);
                    assert(delivery_views(deliveries@) =~= seq![delivery@]);
                    Outcome::sends(deliveries)
                },
                None => Outcome::disconnects(),
            },
            ConnectionAPI::SendPacketToHost(packet) => {
                let mut deliveries: Vec<Delivery> = no_delivery();
                push_delivery_if(&mut deliveries, self.send_packet_to_host(relay_mg, packet));
                assert(delivery_views(deliveries@) =~= spec_one_or_none(
                    old(self)@.forward_to_host(relay_mg.rooms(), packet@),
                ));
                Outcome::sends(deliveries)
            },
            ConnectionAPI::SendPacketToHostRaw(packet) => {
                let mut deliveries: Vec<Delivery> = no_delivery();
                push_delivery_if(&mut deliveries, self.send_packet_to_host_raw(relay_mg, packet));
                assert(delivery_views(deliveries@) =~= spec_one_or_none(
                    old(self)@.to_host(relay_mg.rooms(), packet@),
                ));
                Outcome::sends(deliveries)
            },
            ConnectionAPI::SendPacketToOthers(packet) => match self.send_packet_to_others(
                relay_mg,
                packet,
            ) {
                Forwarded::Delivered(delivery) => {
                    let mut deliveries: Vec<Delivery> = no_delivery();
                    push_delivery(&mut deliveries, delivery);
                    assert(delivery_views(deliveries@) =~= seq![delivery@]);
                    Outcome::sends(deliveries)
                },
                Forwarded::Dropped => Outcome::nothing(),
                Forwarded::Malformed => Outcome::disconnects(),
            },
            ConnectionAPI::AddRelayConnect => Outcome::sends(
                self.add_relay_connect(relay_mg, uuid),
            ),
        };
        if outcome.disconnect {
            let _ = self.disconnect(relay_mg);
        }
        ConnectionReply { outcome, inspection }
    }
}

/// What a preregistration packet carries behind the client version: the
/// number 2, the query string, the player's name, each from its packet
/// version on, the language and sixteen zero bits.
#[verifier::opaque]
pub open spec fn preregistration_tail(
    dummy_name: Seq<u8>,
    packet_version: u32,
    query_string: Seq<u8>,
) -> Seq<u8> {
    (if packet_version >= 1 {
        be32(2)
    } else {
        Seq::empty()
    }) + (if packet_version >= 2 {
        optional_string_field(query_string)
    } else {
        Seq::empty()
    }) + (if packet_version >= 3 {
        string_field(dummy_name)
    } else {
        Seq::empty()
    }) + string_field("zh".spec_bytes()) + crate::wire::be16(0)
}

/// The payload of a preregistration packet.
pub open spec fn preregistration_payload(
    dummy_name: Seq<u8>,
    domain: Seq<u8>,
    packet_version: u32,
    client_version: u32,
    query_string: Seq<u8>,
) -> Seq<u8> {
    string_field(domain) + be32(packet_version) + be32(client_version) + preregistration_tail(
        dummy_name,
        packet_version,
        query_string,
    )
}

/// The buffer of a preregistration packet is the place for the header and
/// the payload.
pub proof fn lemma_preregistration_buffer(
    dummy_name: Seq<u8>,
    domain: Seq<u8>,
    packet_version: u32,
    client_version: u32,
    query_string: Seq<u8>,
)
    ensures
        crate::packet::common_packet::preregister_info_packet(
            dummy_name,
            domain,
            packet_version,
            client_version,
            query_string,
        ).buffer == PacketView::fresh(PacketType::PREREGISTER_INFO_RECEIVE).buffer
            + preregistration_payload(
            dummy_name,
            domain,
            packet_version,
            client_version,
            query_string,
        ),
{
    reveal(preregistration_tail);
    let fresh = PacketView::fresh(PacketType::PREREGISTER_INFO_RECEIVE);
    let a = fresh.written(string_field(domain));
    crate::packet::lemma_written_at_end(fresh, string_field(domain));
    let b = a.written(be32(packet_version));
    crate::packet::lemma_written_at_end(a, be32(packet_version));
    let head = b.written(be32(client_version));
    crate::packet::lemma_written_at_end(b, be32(client_version));
    let marked = if packet_version >= 1 {
        head.written(be32(2))
    } else {
        head
    };
    crate::packet::lemma_written_at_end(head, be32(2));
    let queried = if packet_version >= 2 {
        marked.written(optional_string_field(query_string))
    } else {
        marked
    };
    crate::packet::lemma_written_at_end(marked, optional_string_field(query_string));
    let named = if packet_version >= 3 {
        queried.written(string_field(dummy_name))
    } else {
        queried
    };
    crate::packet::lemma_written_at_end(queried, string_field(dummy_name));
    let spoken = named.written(string_field("zh".spec_bytes()));
    crate::packet::lemma_written_at_end(named, string_field("zh".spec_bytes()));
    let whole = spoken.written(crate::wire::be16(0));
    crate::packet::lemma_written_at_end(spoken, crate::wire::be16(0));
    assert(whole.buffer =~= fresh.buffer + preregistration_payload(
        dummy_name,
        domain,
        packet_version,
        client_version,
        query_string,
    ));
}

/// The relay understands the preregistration that a client writes: from a
/// packet with the payload of a preregistration packet it reads the client
/// version, the query string where the packet version carries one and it is
/// not empty, and the player's name where the packet version carries one.
pub proof fn lemma_preregistration_is_understood(
    dummy_name: Seq<u8>,
    domain: Seq<u8>,
    packet_version: u32,
    client_version: u32,
    query_string: Seq<u8>,
    declared: u32,
)
    requires
        dummy_name.len() < 0x1_0000,
        domain.len() < 0x1_0000,
        query_string.len() < 0x1_0000,
        declared != 0,
    ensures
        inspection_of(
            PacketView::decoded(
                declared,
                PacketType::PREREGISTER_INFO_RECEIVE,
                preregistration_payload(
                    dummy_name,
                    domain,
                    packet_version,
                    client_version,
                    query_string,
                ),
            ),
        ) == Some(understood(dummy_name, packet_version, client_version, query_string)),
{
    let tail = preregistration_tail(dummy_name, packet_version, query_string);
    let domain_field = string_field(domain);
    let packet_version_field = be32(packet_version);
    let client_version_field = be32(client_version);
    let behind = packet_version_field + (client_version_field + tail);
    let payload = domain_field + behind;
    lemma_payload_shape(dummy_name, domain, packet_version, client_version, query_string);
    let start = PacketView::decoded(declared, PacketType::PREREGISTER_INFO_RECEIVE, payload);
    lemma_rest_is_whole(start);
    crate::packet::lemma_string_field_is_read(domain, behind);
    lemma_number_is_read(packet_version, client_version_field + tail);
    lemma_number_is_read(client_version, tail);
    lemma_head_is_read(
        start,
        domain_field,
        packet_version_field,
        client_version_field,
        tail,
        domain,
        packet_version,
        client_version,
    );
    lemma_versioned_fields_are_understood(
        start.advanced(domain_field.len() as int).advanced(4).advanced(4),
        dummy_name,
        packet_version,
        client_version,
        query_string,
    );
}

/// The payload of a preregistration, field behind field.
proof fn lemma_payload_shape(
    dummy_name: Seq<u8>,
    domain: Seq<u8>,
    packet_version: u32,
    client_version: u32,
    query_string: Seq<u8>,
)
    ensures
        preregistration_payload(
            dummy_name,
            domain,
            packet_version,
            client_version,
            query_string,
        ) == string_field(domain) + (be32(packet_version) + (be32(client_version)
            + preregistration_tail(dummy_name, packet_version, query_string))),
{
    let tail = preregistration_tail(dummy_name, packet_version, query_string);
    assert(string_field(domain) + be32(packet_version) + be32(client_version) + tail
        =~= string_field(domain) + (be32(packet_version) + (be32(client_version) + tail)));
}

/// What is read from a packet that has a string field, two numbers and a
/// tail left: what is read from the tail.
proof fn lemma_head_is_read(
    packet: PacketView,
    domain_field: Seq<u8>,
    packet_version_field: Seq<u8>,
    client_version_field: Seq<u8>,
    tail: Seq<u8>,
    domain: Seq<u8>,
    packet_version: u32,
    client_version: u32,
)
    requires
        packet.packet_length != 0,
        0 <= packet.position <= packet.buffer.len(),
        packet.remaining() == domain_field + (packet_version_field + (client_version_field
            + tail)),
        string_field_at(
            domain_field + (packet_version_field + (client_version_field + tail)),
        ) == Some((domain, domain_field.len() as int)),
        packet_version_field.len() == 4,
        client_version_field.len() == 4,
        from_be32((packet_version_field + (client_version_field + tail)).subrange(0, 4))
            == packet_version,
        from_be32((client_version_field + tail).subrange(0, 4)) == client_version,
    ensures
        inspection_of(packet) == versioned_inspection(
            packet.advanced(domain_field.len() as int).advanced(4).advanced(4),
            packet_version,
            client_version,
        ),
        packet.advanced(domain_field.len() as int).advanced(4).advanced(4).remaining() == tail,
        0 <= packet.advanced(domain_field.len() as int).advanced(4).advanced(4).position
            <= packet.buffer.len(),
        packet.advanced(domain_field.len() as int).advanced(4).advanced(4).buffer
            == packet.buffer,
{
    reveal(inspection_of);
    let at1 = packet.advanced(domain_field.len() as int);
    lemma_rest_after(packet, domain_field, packet_version_field + (client_version_field + tail));
    let at2 = at1.advanced(4);
    lemma_rest_after(at1, packet_version_field, client_version_field + tail);
    lemma_rest_after(at2, client_version_field, tail);
}

/// What is read behind the client version from a packet that has three
/// fields and an end left, where the fields are read as `query_string` and
/// `player_name`.
proof fn lemma_fields_are_read(
    packet: PacketView,
    packet_version: u32,
    client_version: u32,
    skipped: Seq<u8>,
    query_field: Seq<u8>,
    name_field: Seq<u8>,
    end: Seq<u8>,
    query_string: Option<Seq<u8>>,
    player_name: Option<Seq<u8>>,
)
    requires
        0 <= packet.position <= packet.buffer.len(),
        packet.remaining() == skipped + (query_field + (name_field + end)),
        skipped.len() == (if packet_version >= 1 {
            4int
        } else {
            0int
        }),
        packet_version >= 2 ==> optional_string_field_at(query_field + (name_field + end))
            == Some((query_string, query_field.len() as int)),
        packet_version < 2 ==> query_field.len() == 0 && query_string is None,
        packet_version >= 3 ==> player_name is Some && string_field_at(name_field + end) == Some(
            (player_name->0, name_field.len() as int),
        ),
        packet_version < 3 ==> name_field.len() == 0 && player_name is None,
        end.len() >= 4,
    ensures
        versioned_inspection(packet, packet_version, client_version) == Some(
            InspectionView {
                client_version,
                is_beta_version: spec_is_beta_version(client_version),
                query_string: lossy(query_string),
                player_name: lossy(player_name),
            },
        ),
{
    reveal(versioned_inspection);
    let at4 = packet.advanced(skipped.len() as int);
    lemma_rest_after(packet, skipped, query_field + (name_field + end));
    if packet_version < 1 {
        assert(at4 == packet);
    }
    let at5 = at4.advanced(query_field.len() as int);
    lemma_rest_after(at4, query_field, name_field + end);
    let at6 = at5.advanced(name_field.len() as int);
    lemma_rest_after(at5, name_field, end);
}

/// The relay understands what a client writes behind the client version.
proof fn lemma_versioned_fields_are_understood(
    packet: PacketView,
    dummy_name: Seq<u8>,
    packet_version: u32,
    client_version: u32,
    query_string: Seq<u8>,
)
    requires
        dummy_name.len() < 0x1_0000,
        query_string.len() < 0x1_0000,
        0 <= packet.position <= packet.buffer.len(),
        packet.remaining() == preregistration_tail(dummy_name, packet_version, query_string),
    ensures
        versioned_inspection(packet, packet_version, client_version) == Some(
            understood(dummy_name, packet_version, client_version, query_string),
        ),
{
    reveal(preregistration_tail);
    let end = string_field("zh".spec_bytes()) + crate::wire::be16(0);
    let skipped = if packet_version >= 1 {
        be32(2)
    } else {
        Seq::empty()
    };
    let query_field = if packet_version >= 2 {
        optional_string_field(query_string)
    } else {
        Seq::empty()
    };
    let name_field = if packet_version >= 3 {
        string_field(dummy_name)
    } else {
        Seq::empty()
    };
    let read_query = if packet_version >= 2 && query_string.len() > 0 {
        Some(query_string)
    } else {
        None
    };
    let read_name = if packet_version >= 3 {
        Some(dummy_name)
    } else {
        None
    };
    assert(preregistration_tail(dummy_name, packet_version, query_string) =~= skipped + (
    query_field + (name_field + end)));
    assert(end.len() >= 4);
    if packet_version >= 2 {
        crate::packet::lemma_optional_string_field_is_read(query_string, name_field + end);
    }
    if packet_version >= 3 {
        crate::packet::lemma_string_field_is_read(dummy_name, end);
    }
    lemma_fields_are_read(
        packet,
        packet_version,
        client_version,
        skipped,
        query_field,
        name_field,
        end,
        read_query,
        read_name,
    );
}

/// What the relay reads behind the client version of a preregistration
/// that a client wrote.
pub open spec fn understood(
    dummy_name: Seq<u8>,
    packet_version: u32,
    client_version: u32,
    query_string: Seq<u8>,
) -> InspectionView {
    InspectionView {
        client_version,
        is_beta_version: spec_is_beta_version(client_version),
        query_string: if packet_version >= 2 && query_string.len() > 0 {
            Some(utf8_lossy(query_string))
        } else {
            None
        },
        player_name: if packet_version >= 3 {
            Some(utf8_lossy(dummy_name))
        } else {
            None
        },
    }
}

/// A packet whose cursor stands at the start has its whole buffer left.
proof fn lemma_rest_is_whole(packet: PacketView)
    requires
        packet.position == 0,
    ensures
        packet.remaining() == packet.buffer,
{
    assert(packet.remaining() =~= packet.buffer);
}

/// A packet that has `field` and then `rest` left has `rest` left once its
/// cursor has moved over `field`.
proof fn lemma_rest_after(packet: PacketView, field: Seq<u8>, rest: Seq<u8>)
    requires
        0 <= packet.position <= packet.buffer.len(),
        packet.remaining() == field + rest,
    ensures
        packet.advanced(field.len() as int).remaining() == rest,
        0 <= packet.advanced(field.len() as int).position <= packet.buffer.len(),
        packet.advanced(field.len() as int).buffer == packet.buffer,
{
    assert(packet.remaining().len() == field.len() + rest.len());
    assert(packet.advanced(field.len() as int).remaining() =~= (field + rest).subrange(
        field.len() as int,
        (field + rest).len() as int,
    ));
    assert((field + rest).subrange(field.len() as int, (field + rest).len() as int) =~= rest);
}

/// A number at the head of a byte sequence is read as it was written.
proof fn lemma_number_is_read(x: u32, rest: Seq<u8>)
    ensures
        (be32(x) + rest).len() == 4 + rest.len(),
        be32(x).len() == 4,
        from_be32((be32(x) + rest).subrange(0, 4)) == x,
{
    crate::wire::lemma_be32_round_trip(x);
    assert((be32(x) + rest).subrange(0, 4) =~= be32(x));
}

} // verus!

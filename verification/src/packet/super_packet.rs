//! Packets wrapped for a room's host as if a player had sent them.

use crate::connection::framed_length;
use crate::packet::{Packet, PacketReadWriteExt, PacketType, PacketView};
use crate::wire::{be32, string_field};
use vstd::prelude::*;
use vstd::string::StringSliceAdditionalSpecFns;

verus! {

/// The builder of packets that reach a host as if a player had sent them.
pub struct SuperPacket;

/// What stands before the coordinates in a game command that sets terrain.
pub const SET_TERRAIN_PACKET_1: [u8; 36] = [
    0x00, 0x01, 0x63, 0x00, 0x00, 0x00, 0x47, 0x00, 0x00, 0x00, 0x00, 0xff, 0xff, 0xff, 0xff, 0xff,
    0xff, 0xff, 0xff, 0x00, 0x00, 0x00, 0x00, 0x00, 0x01, 0x00, 0x00, 0x00, 0x00, 0x00, 0x00, 0x00,
    0xd9, 0x01, 0x00, 0x01,
];

/// What stands behind the coordinates in a game command that sets terrain.
pub const SET_TERRAIN_PACKET_2: [u8; 8] = [0xff, 0xff, 0xff, 0xff, 0xff, 0xff, 0xff, 0xff];

/// The envelope that carries `inner`, prepared, to a host as sent from site
/// index 0: the site index, the length of the frame, and the frame.
pub open spec fn to_host_packet(inner: PacketView) -> PacketView {
    PacketView::fresh(PacketType::PACKET_FORWARD_CLIENT_FROM).written(be32(0)).written(
        be32(framed_length(inner.prepared().packet_length)),
    ).written(inner.prepared().buffer)
}

/// The name of the action that sets the terrain `terrain_name`.
pub open spec fn terrain_action(terrain_name: Seq<u8>) -> Seq<u8> {
    "SetTerrainType".spec_bytes() + terrain_name
}

/// The game command that sets the terrain at a place: the coordinates are
/// the bits of two single-precision numbers.
pub open spec fn terrain_command(x_bits: u32, y_bits: u32, terrain_name: Seq<u8>) -> PacketView {
    PacketView::fresh(PacketType::GAMECOMMAND_RECEIVE).written(SET_TERRAIN_PACKET_1@).written(
        be32(x_bits),
    ).written(be32(y_bits)).written(SET_TERRAIN_PACKET_2@).written(
        string_field(terrain_action(terrain_name)),
    ).written(be32(0)).written(be32(0)).written(seq![0u8])
}

impl SuperPacket {
    /// Builds the game command that sets the terrain `terrain_name` at the
    /// place whose coordinates have the bits `x_bits` and `y_bits`, wrapped for
    /// a host.
    pub fn set_terrain(x_bits: u32, y_bits: u32, terrain_name: &str) -> (packet: Packet)
        ensures
            packet@ == to_host_packet(
                terrain_command(x_bits, y_bits, terrain_name.spec_bytes()),
            ),
    {
        let mut packet = Packet::new(PacketType::GAMECOMMAND_RECEIVE);
        let first: [u8; 36] = SET_TERRAIN_PACKET_1;
        packet.write_all(first.as_slice());
        packet.write_u32(x_bits);
        packet.write_u32(y_bits);
        let second: [u8; 8] = SET_TERRAIN_PACKET_2;
        packet.write_all(second.as_slice());
        let mut action: Vec<u8> = Vec::new();
        action.extend_from_slice("SetTerrainType".as_bytes());
        action.extend_from_slice(terrain_name.as_bytes());
        assert(action@ =~= terrain_action(terrain_name.spec_bytes()));
        packet.write_string_bytes(action.as_slice());
        packet.write_u32(0);
        packet.write_u32(0);
        packet.write_u8(0);
        SuperPacket::packet_to_host(packet)
    }

    /// Prepares `packet` and wraps it for a host as sent from site index 0.
    pub fn packet_to_host(packet: Packet) -> (send_packet: Packet)
        ensures
            send_packet@ == to_host_packet(packet@),
    {
        let mut packet: Packet = packet;
        packet.prepare();
        let mut send_packet = Packet::new(PacketType::PACKET_FORWARD_CLIENT_FROM);
        send_packet.write_u32(0);
        send_packet.write_u32(((packet.packet_length() as u64 + 8) % 0x1_0000_0000) as u32);
        let bytes: Vec<u8> = packet.into_inner();
        send_packet.write_all(bytes.as_slice());
        send_packet
    }
}

} // verus!

//! Packets that a client sends while it registers with the relay.

use crate::packet::{Packet, PacketReadWriteExt, PacketType, PacketView};
use crate::wire::{be16, be32, optional_string_field, string_field};
use vstd::prelude::*;
use vstd::string::StringSliceAdditionalSpecFns;

verus! {

/// The builder of a client's registration packets.
pub struct CommonPacket;

/// The preregistration packet of a client: its package name, the packet
/// version, the client version, the number 2 from packet version 1 on, the
/// query string as an optional string from version 2 on, the player's name
/// from version 3 on, the language `zh`, and sixteen zero bits.
pub open spec fn preregister_info_packet(
    dummy_name: Seq<u8>,
    domain: Seq<u8>,
    packet_version: u32,
    client_version: u32,
    query_string: Seq<u8>,
) -> PacketView {
    let head = PacketView::fresh(PacketType::PREREGISTER_INFO_RECEIVE).written(
        string_field(domain),
    ).written(be32(packet_version)).written(be32(client_version));
    let marked = if packet_version >= 1 {
        head.written(be32(2))
    } else {
        head
    };
    let queried = if packet_version >= 2 {
        marked.written(optional_string_field(query_string))
    } else {
        marked
    };
    let named = if packet_version >= 3 {
        queried.written(string_field(dummy_name))
    } else {
        queried
    };
    named.written(string_field("zh".spec_bytes())).written(be16(0))
}

/// The packet that carries a relay command: five bytes that say nothing, and
/// the command as a string.
pub open spec fn relay_hall_command_packet(command: Seq<u8>) -> PacketView {
    PacketView::fresh(PacketType::RELAY_118_117_RETURN).written(seq![1u8]).written(
        be32(0),
    ).written(string_field(command))
}

impl CommonPacket {
    /// Builds the preregistration packet of a client.
    pub fn get_preregister_info(
        dummy_name: &str,
        domain: &str,
        packet_version: u32,
        client_version: u32,
        query_string: &str,
    ) -> (packet: Packet)
        ensures
            packet@ == preregister_info_packet(
                dummy_name.spec_bytes(),
                domain.spec_bytes(),
                packet_version,
                client_version,
                query_string.spec_bytes(),
            ),
    {
        let mut packet = Packet::new(PacketType::PREREGISTER_INFO_RECEIVE);
        let _ = packet.write_string(domain);
        packet.write_u32(packet_version);
        packet.write_u32(client_version);
        if packet_version >= 1 {
            packet.write_u32(2);
        }
        if packet_version >= 2 {
            let _ = packet.write_is_string(query_string);
        }
        if packet_version >= 3 {
            let _ = packet.write_string(dummy_name);
        }
        let _ = packet.write_string("zh");
        packet.write_u16(0);
        packet
    }

    /// Builds the packet that carries the relay command `command`.
    pub fn get_relay_hall_command(command: &str) -> (packet: Packet)
        ensures
            packet@ == relay_hall_command_packet(command.spec_bytes()),
    {
        let mut packet = Packet::new(PacketType::RELAY_118_117_RETURN);
        packet.write_u8(1);
        packet.write_u32(0);
        let _ = packet.write_string(command);
        packet
    }
}

} // verus!

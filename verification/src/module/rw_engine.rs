//! The module that sends a bot into every room that is opened.

pub mod image;

use crate::connection::display_id;
use crate::connection::build_display_id;
use crate::dummy::{DummyConf, DummyVersion, CLIENT_VERSION_1_15, PACKET_VERSION_1_15};
use crate::event::{Event, EventType, EventTypeView};
use crate::module::Module;
use crate::packet::common_packet::preregister_info_packet;
use crate::packet::{Packet, PacketType, PacketView};
use crate::relay_manager::relay::RoomRef;
use vstd::prelude::*;
use vstd::string::StringSliceAdditionalSpecFns;

verus! {

/// The name under which the module's bots register.
pub const ENGINE_DUMMY_NAME: &'static str = "RwEngineSystem";

/// The package name under which the module's bots register.
pub const ENGINE_DUMMY_DOMAIN: &'static str = "com.shishanyue.rwe";

/// The module that sends a bot into every room that is opened.
#[derive(Debug)]
pub struct RwEngine {
    dummy_size: u32,
}

/// A bot to start: its number, and the packets that it sends once it is
/// connected.
#[derive(Debug)]
pub struct DummyOrder {
    pub index: u32,
    pub conf: DummyConf,
    pub register: Packet,
    pub join: Packet,
}

/// The packet with which a bot asks to join a room: the relay command that
/// is the room's id as clients see it.
pub open spec fn join_command_packet(room: RoomRef) -> PacketView {
    PacketView::fresh(PacketType::RELAY_118_117_RETURN).written(seq![1u8]).written(
        crate::wire::be32(0),
    ).written(crate::wire::string_field(display_id(room.id)))
}

impl RwEngine {
    /// The number of bots that the module has ordered.
    pub closed spec fn dummy_size(&self) -> u32 {
        self.dummy_size
    }

    /// The module before it has ordered a bot.
    pub fn new() -> (engine: RwEngine)
        ensures
            engine.dummy_size() == 0,
    {
        RwEngine { dummy_size: 0 }
    }

    /// The number of bots that the module has ordered.
    pub fn dummies(&self) -> (count: u32)
        ensures
            count == self.dummy_size(),
    {
        self.dummy_size
    }

    /// Takes note of an event. For a room that was opened the module orders
    /// a bot, as long as it has ordered fewer than 2^32 - 1: the bot registers
    /// under the module's name and then asks to join the room. Any other event
    /// goes by.
    pub fn on_event(&mut self, event: &Event) -> (order: Option<DummyOrder>)
        ensures
            match event@.event_type {
                EventTypeView::NewRoomAndHostOk(room) => if old(self).dummy_size() < u32::MAX {
                    &&& final(self).dummy_size() == old(self).dummy_size() + 1
                    &&& order matches Some(order)
                    &&& order.index == old(self).dummy_size() + 1
                    &&& order.conf.dummy_name@ == ENGINE_DUMMY_NAME@
                    &&& order.conf.domain@ == ENGINE_DUMMY_DOMAIN@
                    &&& order.conf.version == DummyVersion::Version1_15
                    &&& order.conf.packet_version == PACKET_VERSION_1_15
                    &&& order.conf.client_version == CLIENT_VERSION_1_15
                    &&& order.register@ == preregister_info_packet(
                        ENGINE_DUMMY_NAME.spec_bytes(),
                        ENGINE_DUMMY_DOMAIN.spec_bytes(),
                        PACKET_VERSION_1_15,
                        CLIENT_VERSION_1_15,
                        Seq::empty(),
                    )
                    &&& order.join@ == join_command_packet(room)
                } else {
                    order is None && final(self).dummy_size() == old(self).dummy_size()
                },
                EventTypeView::NewPacket(_, _, _) => order is None && final(self).dummy_size()
                    == old(self).dummy_size(),
            },
    {
        match &event.event_type {
            EventType::NewRoomAndHostOk(room) => {
                if self.dummy_size == u32::MAX {
                    return None;
                }
                let conf = DummyConf::new(
                    ENGINE_DUMMY_NAME.to_owned(),
                    ENGINE_DUMMY_DOMAIN.to_owned(),
                    DummyVersion::Version1_15,
                );
                let register: Packet = conf.preregister_info();
                let mut join = Packet::new(PacketType::RELAY_118_117_RETURN);
                join.write_u8(1);
                join.write_u32(0);
                let shown: Vec<u8> = build_display_id(room.id);
                join.write_string_bytes(shown.as_slice());
                self.dummy_size = self.dummy_size + 1;
                Some(DummyOrder { index: self.dummy_size, conf, register, join })
            },
            EventType::NewPacket(_, _, _) => None,
        }
    }
}

impl Module for RwEngine {

}

} // verus!

//! A bot that registers with the relay as soon as it is connected.

use crate::dummy::{
    DummyAPI, DummyConf, DummyVersion, CLIENT_VERSION_1_15, PACKET_VERSION_1_15,
};
use crate::module::Module;
use crate::packet::common_packet::preregister_info_packet;
use vstd::prelude::*;
use vstd::utf8::encode_utf8;

verus! {

/// The behaviour of a bot that registers as soon as it is connected.
#[derive(Debug, Clone, Copy, PartialEq, Eq, Structural)]
pub struct EasyDummyTrait;

impl EasyDummyTrait {
    /// The behaviour.
    pub fn new() -> (behaviour: EasyDummyTrait)
        ensures
            behaviour == EasyDummyTrait,
    {
        EasyDummyTrait {  }
    }

    /// What the bot does once it is connected: it sends its preregistration
    /// packet.
    pub fn startup_connected(&self, conf: &DummyConf) -> (api: DummyAPI)
        ensures
            api matches DummyAPI::SendPacket(packet) && packet@ == preregister_info_packet(
                encode_utf8(conf.dummy_name@),
                encode_utf8(conf.domain@),
                conf.packet_version,
                conf.client_version,
                Seq::empty(),
            ),
    {
        DummyAPI::SendPacket(conf.preregister_info())
    }
}

/// A bot that registers as soon as it is connected.
#[derive(Debug)]
pub struct EasyDummy {
    pub index: u32,
    pub conf: DummyConf,
    pub is_connect: bool,
}

impl EasyDummy {
    /// A bot that is not connected yet.
    pub fn new(index: u32, dummy_name: String, domain: String, version: DummyVersion) -> (dummy:
        EasyDummy)
        requires
            version == DummyVersion::Version1_15,
        ensures
            dummy.index == index,
            dummy.conf.dummy_name == dummy_name,
            dummy.conf.domain == domain,
            dummy.conf.version == version,
            dummy.conf.packet_version == PACKET_VERSION_1_15,
            dummy.conf.client_version == CLIENT_VERSION_1_15,
            !dummy.is_connect,
    {
        EasyDummy { index, conf: DummyConf::new(dummy_name, domain, version), is_connect: false }
    }
}

impl Module for EasyDummy {

}

} // verus!

//! Bots: clients that the relay's modules run against the relay itself.

use crate::packet::common_packet::{preregister_info_packet, CommonPacket};
use crate::packet::Packet;
use crate::worker_pool::sender::{into_wire_bytes, wire_bytes};
use vstd::prelude::*;
use vstd::utf8::encode_utf8;

verus! {

/// What a bot is asked to do.
#[derive(Debug)]
pub enum DummyAPI {
    /// Send one packet.
    SendPacket(Packet),
    /// Send packets, one after the other.
    SendPackets(Vec<Packet>),
}

/// The version of the game that a bot speaks.
#[derive(Debug, Clone, Copy, PartialEq, Eq, Structural)]
pub enum DummyVersion {
    Version1_15,
    Version1_16,
}

/// The packet version of a client of game version 1.15.
pub const PACKET_VERSION_1_15: u32 = 4;

/// The client version of a client of game version 1.15.
pub const CLIENT_VERSION_1_15: u32 = 172;

/// How a bot presents itself.
#[derive(Debug)]
pub struct DummyConf {
    pub dummy_name: String,
    pub domain: String,
    pub version: DummyVersion,
    pub packet_version: u32,
    pub client_version: u32,
}

impl Clone for DummyConf {
    fn clone(&self) -> (copy: DummyConf)
        ensures
            copy == *self,
    {
        DummyConf {
            dummy_name: self.dummy_name.clone(),
            domain: self.domain.clone(),
            version: self.version,
            packet_version: self.packet_version,
            client_version: self.client_version,
        }
    }
}

impl DummyConf {
    /// The configuration of a bot that speaks game version 1.15, the one
    /// version that bots speak.
    pub fn new(dummy_name: String, domain: String, version: DummyVersion) -> (conf: DummyConf)
        requires
            version == DummyVersion::Version1_15,
        ensures
            conf.dummy_name == dummy_name,
            conf.domain == domain,
            conf.version == version,
            conf.packet_version == PACKET_VERSION_1_15,
            conf.client_version == CLIENT_VERSION_1_15,
    {
        DummyConf {
            dummy_name,
            domain,
            version,
            packet_version: PACKET_VERSION_1_15,
            client_version: CLIENT_VERSION_1_15,
        }
    }

    /// The preregistration packet with which the bot presents itself.
    pub fn preregister_info(&self) -> (packet: Packet)
        ensures
            packet@ == preregister_info_packet(
                encode_utf8(self.dummy_name@),
                encode_utf8(self.domain@),
                self.packet_version,
                self.client_version,
                Seq::empty(),
            ),
    {
        proof {
            reveal_strlit("");
            assert(encode_utf8(""@) =~= Seq::<u8>::empty());
        }
        CommonPacket::get_preregister_info(
            self.dummy_name.as_str(),
            self.domain.as_str(),
            self.packet_version,
            self.client_version,
            "",
        )
    }
}

/// The bytes that go on the wire for each of `packets`.
pub open spec fn wire_bytes_of_all(packets: Seq<Packet>) -> Seq<Seq<u8>> {
    Seq::new(packets.len(), |i: int| wire_bytes(packets[i]@))
}

/// The bytes that a bot writes to its socket for a request, one run of bytes
/// for each packet.
pub open spec fn frames_of(api: DummyAPI) -> Seq<Seq<u8>> {
    match api {
        DummyAPI::SendPacket(packet) => seq![wire_bytes(packet@)],
        DummyAPI::SendPackets(packets) => wire_bytes_of_all(packets@),
    }
}

/// What each of a run of byte vectors holds.
pub open spec fn byte_views(frames: Seq<Vec<u8>>) -> Seq<Seq<u8>> {
    Seq::new(frames.len(), |i: int| frames[i]@)
}

/// Prepares the packets of a request and returns what is to be written for
/// each of them.
pub fn serve(api: DummyAPI) -> (frames: Vec<Vec<u8>>)
    ensures
        byte_views(frames@) == frames_of(api),
{
    let mut frames: Vec<Vec<u8>> = Vec::new();
    match api {
        DummyAPI::SendPacket(packet) => {
            frames.push(into_wire_bytes(packet));
            assert(byte_views(frames@) =~= frames_of(api));
        },
        DummyAPI::SendPackets(packets) => {
            let mut rest: Vec<Packet> = packets;
            let ghost all = rest@;
            assert(byte_views(frames@) =~= Seq::<Seq<u8>>::empty());
            while rest.len() > 0
                invariant
                    byte_views(frames@) + wire_bytes_of_all(rest@) == wire_bytes_of_all(all),
                decreases rest.len(),
            {
                let ghost before_rest = rest@;
                let ghost before_frames = frames@;
                let packet: Packet = rest.remove(0);
                frames.push(into_wire_bytes(packet));
                assert(byte_views(frames@) + wire_bytes_of_all(rest@) =~= byte_views(
                    before_frames,
                ) + wire_bytes_of_all(before_rest));
            }
            assert(byte_views(frames@) =~= wire_bytes_of_all(all));
        },
    }
    frames
}

} // verus!

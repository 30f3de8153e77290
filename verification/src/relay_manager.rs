//! The registry of relay rooms.

pub mod relay;

use crate::connection::player_net_api::CustomRelayData;
use crate::entropy::{random_in_range, rng_from_seed};
use crate::packet::{Delivery, Packet};
use crate::relay_manager::relay::{RelayRoom, RoomRef, RoomView, SharedRelayRoomData};
use crate::text::{from_decimal, parse_decimal};
use rand::rngs::StdRng;
use std::collections::HashMap;
use vstd::prelude::*;
use vstd::string::StringSliceAdditionalSpecFns;

verus! {

broadcast use vstd::std_specs::hash::group_hash_axioms;

/// The least number that a room gets when the registry picks one.
pub const ROOM_ID_MIN: u32 = 100;

/// The bound below which the registry picks room numbers.
pub const ROOM_ID_END: u32 = 9999;

/// How often the registry draws a number at random before it takes the
/// least free one.
pub const RANDOM_DRAWS: u32 = 32;

/// What the registry is asked to do.
#[derive(Debug)]
pub enum RelayManagerAPI {
    /// Look a room up by the digits of its id.
    GetRelay(String),
    /// Register a room under its id.
    InsertNewRelay(RelayRoom),
}

/// What came of a request to the registry.
#[derive(Debug, Clone, Copy, PartialEq, Eq, Structural)]
pub enum RelayManagerReply {
    /// The room that was looked up, where there is one.
    Relay(Option<RoomRef>),
    /// The room was registered.
    Inserted,
}

/// Whether the registry picks `id` for a room: it lies in the range of
/// picked numbers.
pub open spec fn is_picked_id(id: u32) -> bool {
    ROOM_ID_MIN <= id < ROOM_ID_END
}

/// Whether some number that the registry picks is free.
pub open spec fn has_free_id(rooms: Map<u32, RoomView>) -> bool {
    exists|id: u32| is_picked_id(id) && !rooms.contains_key(id)
}

/// The room that the digits `id` name: the one whose number they write
/// out in decimal.
pub open spec fn relay_named(rooms: Map<u32, RoomView>, id: Seq<u8>) -> Option<RoomRef> {
    match parse_decimal(id) {
        Some(number) => if rooms.contains_key(number) {
            Some(rooms[number].room_ref())
        } else {
            None
        },
        None => None,
    }
}

/// The room that a reference resolves to: the one registered under its id,
/// if that is of the reference's generation.
pub open spec fn resolves(rooms: Map<u32, RoomView>, room: RoomRef) -> bool {
    rooms.contains_key(room.id) && rooms[room.id].room_ref() == room
}

/// The rooms after whoever sat at `index` in `room` left: the room is gone
/// where that leaves it without a player.
pub open spec fn after_leaving(rooms: Map<u32, RoomView>, room: RoomRef, index: u32) -> Map<
    u32,
    RoomView,
> {
    if resolves(rooms, room) {
        if rooms[room.id].left(index).has_no_player() {
            rooms.remove(room.id)
        } else {
            rooms.insert(room.id, rooms[room.id].left(index))
        }
    } else {
        rooms
    }
}

/// The registry of rooms, by room number.
#[derive(Debug)]
pub struct RelayManager {
    room_map: HashMap<u32, RelayRoom>,
    generation: u64,
    id_rand: StdRng,
}

impl RelayManager {
    /// The rooms of the registry, by number.
    pub closed spec fn rooms(&self) -> Map<u32, RoomView> {
        Map::new(|id: u32| self.room_map@.contains_key(id), |id: u32| self.room_map@[id]@)
    }

    /// The number of rooms that the registry has made.
    pub closed spec fn generation(&self) -> u64 {
        self.generation
    }

    /// An empty registry. Its room numbers are drawn from a generator seeded
    /// with `seed`.
    pub fn new(seed: u64) -> (manager: RelayManager)
        ensures
            manager.rooms() == Map::<u32, RoomView>::empty(),
            manager.generation() == 0,
    {
        let manager = RelayManager {
            room_map: HashMap::new(),
            generation: 0,
            id_rand: rng_from_seed(seed),
        };
        assert(manager.rooms() =~= Map::<u32, RoomView>::empty());
        manager
    }

    /// The number of rooms.
    pub fn room_count(&self) -> (count: usize)
        ensures
            count == self.rooms().len(),
    {
        assert(self.rooms().dom() =~= self.room_map@.dom());
        self.room_map.len()
    }

    /// The room registered under a number.
    pub fn room(&self, id: u32) -> (room: Option<&RelayRoom>)
        ensures
            match room {
                Some(room) => self.rooms().contains_key(id) && room@ == self.rooms()[id],
                None => !self.rooms().contains_key(id),
            },
    {
        self.room_map.get(&id)
    }

    /// Whether a reference still resolves to its room.
    pub fn is_live(&self, room: RoomRef) -> (live: bool)
        ensures
            live == resolves(self.rooms(), room),
    {
        match self.room_map.get(&room.id) {
            Some(found) => found.room_ref() == room,
            None => false,
        }
    }

    /// Looks a room up by the digits of its id, the text behind the letter
    /// `S` of the id that clients see.
    pub fn get_relay(&self, id: &str) -> (room: Option<RoomRef>)
        ensures
            room == relay_named(self.rooms(), id.spec_bytes()),
    {
        self.get_relay_by_digits(id.as_bytes())
    }

    /// Looks a room up by the digits of its id, given as bytes.
    pub fn get_relay_by_digits(&self, digits: &[u8]) -> (room: Option<RoomRef>)
        ensures
            room == relay_named(self.rooms(), digits@),
    {
        match from_decimal(digits) {
            Some(number) => match self.room_map.get(&number) {
                Some(found) => Some(found.room_ref()),
                None => None,
            },
            None => None,
        }
    }

    /// Picks a number for a new room: one in the range of picked numbers
    /// under which no room is registered. It draws at random a few times and
    /// then takes the least free number; there is none only when every
    /// number of the range is taken.
    pub fn pick_id(&mut self) -> (id: Option<u32>)
        ensures
            final(self).rooms() == old(self).rooms(),
            final(self).generation() == old(self).generation(),
            match id {
                Some(id) => is_picked_id(id) && !old(self).rooms().contains_key(id),
                None => !has_free_id(old(self).rooms()),
            },
    {
        let mut draws: u32 = 0;
        while draws < RANDOM_DRAWS
            invariant
                self.room_map == old(self).room_map,
                self.generation == old(self).generation,
            decreases RANDOM_DRAWS - draws,
        {
            let candidate: u32 = random_in_range(&mut self.id_rand, ROOM_ID_MIN, ROOM_ID_END);
            if !self.room_map.contains_key(&candidate) {
                return Some(candidate);
            }
            draws += 1;
        }
        let mut candidate: u32 = ROOM_ID_MIN;
        while candidate < ROOM_ID_END
            invariant
                self.room_map == old(self).room_map,
                self.generation == old(self).generation,
                ROOM_ID_MIN <= candidate <= ROOM_ID_END,
                forall|id: u32|
                    ROOM_ID_MIN <= id < candidate ==> #[trigger] self.room_map@.contains_key(id),
            decreases ROOM_ID_END - candidate,
        {
            if !self.room_map.contains_key(&candidate) {
                return Some(candidate);
            }
            candidate += 1;
        }
        None
    }

    /// Registers a room under its number and returns the reference to it. A
    /// room that was registered under the number is replaced.
    pub fn insert_new_relay(&mut self, room: RelayRoom) -> (registered: RoomRef)
        ensures
            final(self).rooms() == old(self).rooms().insert(room@.shared_data.id, room@),
            final(self).generation() == old(self).generation(),
            registered == room@.room_ref(),
    {
        let registered: RoomRef = room.room_ref();
        let ghost view = room@;
        let _ = self.room_map.insert(room.id(), room);
        assert(self.rooms() =~= old(self).rooms().insert(view.shared_data.id, view));
        registered
    }

    /// Opens a room for the host `admin`, under the number `id` or, where
    /// none is given, under a number that the registry picks. A room without
    /// a player limit gets the default one. There is no room where the number
    /// is taken, where no number is free, or where the registry has made
    /// 2^64 - 1 rooms.
    pub fn new_relay_id(&mut self, admin: u64, id: Option<u32>, custom: CustomRelayData) -> (room:
        Option<RoomRef>)
        ensures
            final(self).generation() == (if room is Some {
                (old(self).generation() + 1) as u64
            } else {
                old(self).generation()
            }),
            match room {
                Some(room) => {
                    &&& old(self).generation() < u64::MAX
                    &&& !old(self).rooms().contains_key(room.id)
                    &&& room.generation == old(self).generation()
                    &&& id matches Some(given) ==> room.id == given
                    &&& id is None ==> is_picked_id(room.id)
                    &&& final(self).rooms() == old(self).rooms().insert(
                        room.id,
                        RoomView::created(
                            SharedRelayRoomData {
                                id: room.id,
                                generation: room.generation,
                                start_game: false,
                                custom: custom.spec_with_default_limit(),
                            },
                            admin,
                        ),
                    )
                },
                None => {
                    &&& final(self).rooms() == old(self).rooms()
                    &&& {
                        ||| old(self).generation() == u64::MAX
                        ||| id matches Some(given) && old(self).rooms().contains_key(given)
                        ||| id is None && !has_free_id(old(self).rooms())
                    }
                },
            },
            old(self).generation() < u64::MAX && (match id {
                Some(given) => !old(self).rooms().contains_key(given),
                None => has_free_id(old(self).rooms()),
            }) ==> room is Some,
    {
        if self.generation == u64::MAX {
            return None;
        }
        let number: u32 = match id {
            Some(given) => {
                if self.room_map.contains_key(&given) {
                    return None;
                }
                given
            },
            None => match self.pick_id() {
                Some(picked) => picked,
                None => {
                    return None;
                },
            },
        };
        let generation: u64 = self.generation;
        let shared_data = SharedRelayRoomData::new(
            number,
            generation,
            custom.with_default_limit(),
        );
        let room = RelayRoom::new(admin, shared_data);
        self.generation = generation + 1;
        Some(self.insert_new_relay(room))
    }

    /// Takes `con` in as a player of `room` and returns its site index.
    /// Nothing happens where the room is gone or has no site index left.
    pub fn add_relay_player(&mut self, room: RoomRef, con: u64) -> (index: Option<u32>)
        ensures
            final(self).generation() == old(self).generation(),
            if resolves(old(self).rooms(), room) && old(self).rooms()[room.id].has_site_left() {
                &&& index == Some(old(self).rooms()[room.id].site)
                &&& final(self).rooms() == old(self).rooms().insert(
                    room.id,
                    old(self).rooms()[room.id].joined(con),
                )
            } else {
                &&& index is None
                &&& final(self).rooms() == old(self).rooms()
            },
    {
        if !self.is_live(room) {
            return None;
        }
        match self.room_map.remove(&room.id) {
            Some(found) => {
                let mut found: RelayRoom = found;
                let index: Option<u32> = found.add_relay_player(con);
                let ghost after = found@;
                let _ = self.room_map.insert(room.id, found);
                assert(self.rooms() =~= old(self).rooms().insert(room.id, after));
                assert(old(self).rooms().insert(room.id, old(self).rooms()[room.id]) =~= old(
                    self,
                ).rooms());
                index
            },
            None => None,
        }
    }

    /// Removes whoever sits at `site_index` in `room`, and tears the room
    /// down where that leaves it without a player: its number then names no
    /// room. Says whether the room was torn down.
    pub fn remove_player(&mut self, room: RoomRef, site_index: u32) -> (torn_down: bool)
        ensures
            final(self).generation() == old(self).generation(),
            final(self).rooms() == after_leaving(old(self).rooms(), room, site_index),
            torn_down == (resolves(old(self).rooms(), room) && old(self).rooms()[room.id].left(
                site_index,
            ).has_no_player()),
            torn_down ==> !final(self).rooms().contains_key(room.id),
    {
        if !self.is_live(room) {
            return false;
        }
        match self.room_map.remove(&room.id) {
            Some(found) => {
                let mut found: RelayRoom = found;
                let torn_down: bool = found.remove_player(site_index);
                if torn_down {
                    assert(self.rooms() =~= old(self).rooms().remove(room.id));
                } else {
                    let ghost after = found@;
                    let _ = self.room_map.insert(room.id, found);
                    assert(self.rooms() =~= old(self).rooms().insert(room.id, after));
                }
                torn_down
            },
            None => false,
        }
    }

    /// Addresses a packet to the host of `room`; the packet is dropped where
    /// the room is gone.
    pub fn send_packet_to_host(&self, room: RoomRef, packet: Packet) -> (delivery: Option<Delivery>)
        ensures
            resolves(self.rooms(), room) ==> delivery == Some(
                Delivery { con: self.rooms()[room.id].admin, packet },
            ),
            !resolves(self.rooms(), room) ==> delivery is None,
    {
        match self.room_map.get(&room.id) {
            Some(found) => if found.room_ref() == room {
                Some(found.send_packet_to_host(packet))
            } else {
                None
            },
            None => None,
        }
    }

    /// Addresses a packet to the player at `index` in `room`; the packet is
    /// dropped where the room is gone or nobody sits there.
    pub fn send_packet_to_others(&self, room: RoomRef, index: u32, packet: Packet) -> (delivery:
        Option<Delivery>)
        ensures
            resolves(self.rooms(), room) && self.rooms()[room.id].players.contains_key(index)
                ==> delivery == Some(
                Delivery { con: self.rooms()[room.id].players[index], packet },
            ),
            !(resolves(self.rooms(), room) && self.rooms()[room.id].players.contains_key(index))
                ==> delivery is None,
    {
        match self.room_map.get(&room.id) {
            Some(found) => if found.room_ref() == room {
                found.send_packet_to_others(index, packet)
            } else {
                None
            },
            None => None,
        }
    }

    /// Serves one request.
    pub fn serve(&mut self, api: RelayManagerAPI) -> (reply: RelayManagerReply)
        ensures
            final(self).generation() == old(self).generation(),
            match api {
                RelayManagerAPI::GetRelay(id) => {
                    &&& final(self).rooms() == old(self).rooms()
                    &&& reply == RelayManagerReply::Relay(
                        relay_named(old(self).rooms(), vstd::utf8::encode_utf8(id@)),
                    )
                },
                RelayManagerAPI::InsertNewRelay(room) => {
                    &&& final(self).rooms() == old(self).rooms().insert(
                        room@.shared_data.id,
                        room@,
                    )
                    &&& reply == RelayManagerReply::Inserted
                },
            },
    {
        match api {
            RelayManagerAPI::GetRelay(id) => RelayManagerReply::Relay(self.get_relay(id.as_str())),
            RelayManagerAPI::InsertNewRelay(room) => {
                let _ = self.insert_new_relay(room);
                RelayManagerReply::Inserted
            },
        }
    }
}

/// When the last player of a room leaves, the room's number names no room
/// any more: a look-up by its digits finds nothing.
pub proof fn lemma_torn_down_room_is_unresolvable(
    rooms: Map<u32, RoomView>,
    room: RoomRef,
    index: u32,
    digits: Seq<u8>,
)
    requires
        resolves(rooms, room),
        rooms[room.id].left(index).has_no_player(),
        parse_decimal(digits) == Some(room.id),
    ensures
        !after_leaving(rooms, room, index).contains_key(room.id),
        relay_named(after_leaving(rooms, room, index), digits) is None,
        !resolves(after_leaving(rooms, room, index), room),
{
}

/// A room that keeps a player stays registered when another leaves.
pub proof fn lemma_room_with_players_stays(rooms: Map<u32, RoomView>, room: RoomRef, index: u32)
    requires
        resolves(rooms, room),
        !rooms[room.id].left(index).has_no_player(),
    ensures
        resolves(after_leaving(rooms, room, index), room),
        after_leaving(rooms, room, index)[room.id] == rooms[room.id].left(index),
{
}

} // verus!

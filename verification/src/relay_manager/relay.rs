//! A relay room: one host, and the players that joined it, each at a site
//! index of its own.

use crate::connection::player_net_api::CustomRelayData;
use crate::packet::{Delivery, Packet};
use std::collections::HashMap;
use vstd::prelude::*;

verus! {

broadcast use vstd::std_specs::hash::group_hash_axioms;

/// The site index of a room's host.
pub const HOST_SITE_INDEX: u32 = 1;

/// The site index of the first player that joins a room.
pub const FIRST_PLAYER_SITE_INDEX: u32 = 2;

/// A reference to a room that does not keep it alive: the room's id, and the
/// generation that tells it from an earlier room of the same id. It resolves
/// through the registry, and to nothing once the room is gone.
#[derive(Debug, Clone, Copy, PartialEq, Eq, Hash, Structural)]
pub struct RoomRef {
    pub id: u32,
    pub generation: u64,
}

/// What everyone may know of a room.
#[derive(Debug, Clone, Copy, PartialEq, Eq, Structural)]
pub struct SharedRelayRoomData {
    /// The room's number; clients see it behind the letter `S`.
    pub id: u32,
    /// How many rooms the registry had made before this one.
    pub generation: u64,
    pub start_game: bool,
    pub custom: CustomRelayData,
}

impl SharedRelayRoomData {
    /// The data of a room whose game has not started.
    pub fn new(id: u32, generation: u64, custom: CustomRelayData) -> (data: SharedRelayRoomData)
        ensures
            data == (SharedRelayRoomData { id, generation, start_game: false, custom }),
    {
        SharedRelayRoomData { id, generation, start_game: false, custom }
    }

    /// The reference to the room.
    pub open spec fn spec_room_ref(self) -> RoomRef {
        RoomRef { id: self.id, generation: self.generation }
    }

    /// The reference to the room.
    #[verifier::when_used_as_spec(spec_room_ref)]
    pub fn room_ref(self) -> (r: RoomRef)
        ensures
            r == self.spec_room_ref(),
    {
        RoomRef { id: self.id, generation: self.generation }
    }
}

/// What a room is asked to do.
#[derive(Debug)]
pub enum RelayRoomAPI {
    /// Hand a packet to the host.
    SendToHost(Packet),
    /// Take the connection in as a player.
    AddRelayPlayer(u64),
    /// Hand a packet to the player at a site index.
    SendToOthers(u32, Packet),
}

/// What came of a request to a room.
#[derive(Debug)]
pub enum RelayRoomReply {
    /// A packet to enqueue on a connection's outbound path.
    Deliver(Delivery),
    /// The site index at which the connection joined.
    Joined(u32),
    /// Nothing: the target is gone, or the room has no site index left.
    Dropped,
}

/// What a room is: its shared data, its host, its players by site index, and
/// the site index that the next player will get.
pub struct RoomView {
    pub shared_data: SharedRelayRoomData,
    pub admin: u64,
    pub players: Map<u32, u64>,
    pub site: u32,
}

impl RoomView {
    /// Every player sits at a site index from 2 on that has been handed out.
    pub open spec fn wf(self) -> bool {
        &&& self.site >= FIRST_PLAYER_SITE_INDEX
        &&& self.players.dom().finite()
        &&& forall|index: u32| #[trigger]
            self.players.contains_key(index) ==> FIRST_PLAYER_SITE_INDEX <= index < self.site
    }

    /// A room as it is made: a host and no player.
    pub open spec fn created(shared_data: SharedRelayRoomData, admin: u64) -> RoomView {
        RoomView {
            shared_data,
            admin,
            players: Map::empty(),
            site: FIRST_PLAYER_SITE_INDEX,
        }
    }

    /// Whether the room can take one more player: a site index is left.
    pub open spec fn has_site_left(self) -> bool {
        self.site < u32::MAX
    }

    /// The room after `con` joined at the next site index.
    pub open spec fn joined(self, con: u64) -> RoomView {
        RoomView {
            players: self.players.insert(self.site, con),
            site: (self.site + 1) as u32,
            ..self
        }
    }

    /// The room after whoever sat at `index` left.
    pub open spec fn left(self, index: u32) -> RoomView {
        RoomView { players: self.players.remove(index), ..self }
    }

    /// Whether no player is in the room.
    pub open spec fn has_no_player(self) -> bool {
        self.players.dom() =~= Set::<u32>::empty()
    }

    /// The reference to the room.
    pub open spec fn room_ref(self) -> RoomRef {
        self.shared_data.spec_room_ref()
    }
}

/// A relay room.
#[derive(Debug)]
pub struct RelayRoom {
    shared_data: SharedRelayRoomData,
    admin: u64,
    player_map: HashMap<u32, u64>,
    site: u32,
}

impl View for RelayRoom {
    type V = RoomView;

    closed spec fn view(&self) -> RoomView {
        RoomView {
            shared_data: self.shared_data,
            admin: self.admin,
            players: self.player_map@,
            site: self.site,
        }
    }
}

impl RelayRoom {
    /// What holds of every room: its view is well-formed.
    #[verifier::type_invariant]
    pub open spec fn inv(self) -> bool {
        self@.wf()
    }

    /// A room with a host and no player. The first player will sit at site
    /// index 2.
    pub fn new(admin: u64, shared_data: SharedRelayRoomData) -> (room: RelayRoom)
        ensures
            room@ == RoomView::created(shared_data, admin),
            room@.wf(),
    {
        RelayRoom { shared_data, admin, player_map: HashMap::new(), site: FIRST_PLAYER_SITE_INDEX }
    }

    /// The room's shared data.
    pub fn shared_data(&self) -> (data: SharedRelayRoomData)
        ensures
            data == self@.shared_data,
    {
        self.shared_data
    }

    /// The room's number.
    pub fn id(&self) -> (id: u32)
        ensures
            id == self@.shared_data.id,
    {
        self.shared_data.id
    }

    /// The reference to this room.
    pub fn room_ref(&self) -> (r: RoomRef)
        ensures
            r == self@.room_ref(),
    {
        self.shared_data.room_ref()
    }

    /// The connection that hosts the room.
    pub fn admin(&self) -> (admin: u64)
        ensures
            admin == self@.admin,
    {
        self.admin
    }

    /// The site index that the next player will get.
    pub fn site(&self) -> (site: u32)
        ensures
            site == self@.site,
            self@.wf(),
    {
        proof {
            use_type_invariant(self);
        }
        self.site
    }

    /// The connection at a site index, where a player sits there.
    pub fn player(&self, index: u32) -> (con: Option<u64>)
        ensures
            con == (if self@.players.contains_key(index) {
                Some(self@.players[index])
            } else {
                None
            }),
    {
        match self.player_map.get(&index) {
            Some(con) => Some(*con),
            None => None,
        }
    }

    /// The number of players in the room.
    pub fn player_count(&self) -> (count: usize)
        ensures
            count == self@.players.len(),
    {
        self.player_map.len()
    }

    /// Whether no player is in the room.
    pub fn has_no_player(&self) -> (none: bool)
        ensures
            none == self@.has_no_player(),
    {
        proof {
            use_type_invariant(self);
            if self@.players.len() == 0 {
                self@.players.dom().lemma_len0_is_empty();
            }
        }
        self.player_map.len() == 0
    }

    /// Takes `con` in as a player at the next site index, and returns that
    /// index. The indices go up by one from 2 and none is handed out twice;
    /// where none is left the room stays as it is.
    pub fn add_relay_player(&mut self, con: u64) -> (index: Option<u32>)
        ensures
            old(self)@.has_site_left() ==> index == Some(old(self)@.site) && final(self)@ == old(
                self,
            )@.joined(con),
            !old(self)@.has_site_left() ==> index is None && final(self)@ == old(self)@,
            final(self)@.wf(),
    {
        proof {
            use_type_invariant(&*self);
        }
        if self.site == u32::MAX {
            return None;
        }
        // The room is taken out of its place while its map is changed, so
        // that what stands in the place is a room at every moment.
        let mut taken: RelayRoom = RelayRoom::new(0, self.shared_data);
        core::mem::swap(self, &mut taken);
        let RelayRoom { shared_data, admin, player_map, site } = taken;
        let mut player_map: HashMap<u32, u64> = player_map;
        let _ = player_map.insert(site, con);
        *self = RelayRoom { shared_data, admin, player_map, site: site + 1 };
        Some(site)
    }

    /// Removes whoever sits at `index`, and says whether the room is left
    /// without a player: the one condition on which a room is torn down.
    pub fn remove_player(&mut self, index: u32) -> (torn_down: bool)
        ensures
            final(self)@ == old(self)@.left(index),
            torn_down == final(self)@.has_no_player(),
            final(self)@.wf(),
    {
        proof {
            use_type_invariant(&*self);
        }
        let mut taken: RelayRoom = RelayRoom::new(0, self.shared_data);
        core::mem::swap(self, &mut taken);
        let RelayRoom { shared_data, admin, player_map, site } = taken;
        let mut player_map: HashMap<u32, u64> = player_map;
        let _ = player_map.remove(&index);
        *self = RelayRoom { shared_data, admin, player_map, site };
        self.has_no_player()
    }

    /// Addresses a packet to the host.
    pub fn send_packet_to_host(&self, packet: Packet) -> (delivery: Delivery)
        ensures
            delivery.con == self@.admin,
            delivery.packet == packet,
    {
        Delivery { con: self.admin, packet }
    }

    /// Addresses a packet to the player at `index`. Where no player sits
    /// there the packet is dropped.
    pub fn send_packet_to_others(&self, index: u32, packet: Packet) -> (delivery: Option<Delivery>)
        ensures
            self@.players.contains_key(index) ==> delivery == Some(
                Delivery { con: self@.players[index], packet },
            ),
            !self@.players.contains_key(index) ==> delivery is None,
    {
        match self.player(index) {
            Some(con) => Some(Delivery { con, packet }),
            None => None,
        }
    }

    /// Serves one request.
    pub fn serve(&mut self, api: RelayRoomAPI) -> (reply: RelayRoomReply)
        ensures
            final(self)@.wf(),
            match api {
                RelayRoomAPI::SendToHost(packet) => {
                    &&& final(self)@ == old(self)@
                    &&& reply == RelayRoomReply::Deliver(Delivery { con: old(self)@.admin, packet })
                },
                RelayRoomAPI::AddRelayPlayer(con) => if old(self)@.has_site_left() {
                    &&& final(self)@ == old(self)@.joined(con)
                    &&& reply == RelayRoomReply::Joined(old(self)@.site)
                } else {
                    &&& final(self)@ == old(self)@
                    &&& reply == RelayRoomReply::Dropped
                },
                RelayRoomAPI::SendToOthers(index, packet) => {
                    &&& final(self)@ == old(self)@
                    &&& reply == (if old(self)@.players.contains_key(index) {
                        RelayRoomReply::Deliver(
                            Delivery { con: old(self)@.players[index], packet },
                        )
                    } else {
                        RelayRoomReply::Dropped
                    })
                },
            },
    {
        proof {
            use_type_invariant(&*self);
        }
        match api {
            RelayRoomAPI::SendToHost(packet) => RelayRoomReply::Deliver(
                self.send_packet_to_host(packet),
            ),
            RelayRoomAPI::AddRelayPlayer(con) => match self.add_relay_player(con) {
                Some(index) => RelayRoomReply::Joined(index),
                None => RelayRoomReply::Dropped,
            },
            RelayRoomAPI::SendToOthers(index, packet) => match self.send_packet_to_others(
                index,
                packet,
            ) {
                Some(delivery) => RelayRoomReply::Deliver(delivery),
                None => RelayRoomReply::Dropped,
            },
        }
    }
}

/// One step in the life of a room: a connection joins, or whoever sits at a
/// site index leaves.
pub enum RoomStep {
    Join(u64),
    Leave(u32),
}

/// The room after a run of steps.
pub open spec fn after_steps(room: RoomView, steps: Seq<RoomStep>) -> RoomView
    decreases steps.len(),
{
    if steps.len() == 0 {
        room
    } else {
        let before = after_steps(room, steps.drop_last());
        match steps.last() {
            RoomStep::Join(con) => if before.has_site_left() {
                before.joined(con)
            } else {
                before
            },
            RoomStep::Leave(index) => before.left(index),
        }
    }
}

/// The site indices that a run of steps hands out, in the order of the joins.
pub open spec fn indices_handed_out(room: RoomView, steps: Seq<RoomStep>) -> Seq<u32>
    decreases steps.len(),
{
    if steps.len() == 0 {
        Seq::empty()
    } else {
        let before = after_steps(room, steps.drop_last());
        let earlier = indices_handed_out(room, steps.drop_last());
        match steps.last() {
            RoomStep::Join(con) => if before.has_site_left() {
                earlier.push(before.site)
            } else {
                earlier
            },
            RoomStep::Leave(index) => earlier,
        }
    }
}

/// A new room has its host at site index 1 and hands out 2 first.
pub proof fn lemma_new_room_starts_at_two(shared_data: SharedRelayRoomData, admin: u64, con: u64)
    ensures
        HOST_SITE_INDEX == 1,
        RoomView::created(shared_data, admin).wf(),
        RoomView::created(shared_data, admin).site == 2,
        !RoomView::created(shared_data, admin).players.contains_key(HOST_SITE_INDEX),
        RoomView::created(shared_data, admin).joined(con).players[2] == con,
{
}

/// Joining and leaving keep a room well-formed, and a player who joins gets
/// a site index at which nobody sits.
pub proof fn lemma_room_steps_keep_wf(room: RoomView, con: u64, index: u32)
    requires
        room.wf(),
    ensures
        room.has_site_left() ==> room.joined(con).wf(),
        room.left(index).wf(),
        !room.players.contains_key(room.site),
        !room.players.contains_key(HOST_SITE_INDEX),
{
}

/// Whatever joins and leaves happen in whatever order, the site indices that
/// a room hands out count up by one from the room's next index: the k-th
/// join gets the k-th index, whether or not earlier players have left. No
/// index is handed out twice.
pub proof fn lemma_site_indices_count_up(room: RoomView, steps: Seq<RoomStep>)
    requires
        room.wf(),
    ensures
        after_steps(room, steps).wf(),
        after_steps(room, steps).site == room.site + indices_handed_out(room, steps).len(),
        forall|k: int|
            0 <= k < indices_handed_out(room, steps).len() ==> #[trigger] indices_handed_out(
                room,
                steps,
            )[k] == room.site + k,
    decreases steps.len(),
{
    if steps.len() > 0 {
        lemma_site_indices_count_up(room, steps.drop_last());
    }
}

/// In a new room the first player to join sits at site index 2 and the
/// second at 3, also when the first has left before the second joins.
pub proof fn lemma_second_player_sits_at_three(
    shared_data: SharedRelayRoomData,
    admin: u64,
    first: u64,
    second: u64,
)
    ensures
        RoomView::created(shared_data, admin).site == 2,
        RoomView::created(shared_data, admin).joined(first).site == 3,
        RoomView::created(shared_data, admin).joined(first).left(2).site == 3,
        RoomView::created(shared_data, admin).joined(first).left(2).joined(second).players[3]
            == second,
        !RoomView::created(shared_data, admin).joined(first).left(2).joined(
            second,
        ).players.contains_key(2),
{
}

/// A room that its last player leaves has no player.
pub proof fn lemma_last_player_leaves(room: RoomView, index: u32)
    requires
        room.wf(),
        room.players.dom() =~= set![index],
    ensures
        room.left(index).has_no_player(),
{
}

} // verus!

//! The top of the relay: it accepts connections, binds them to workers of
//! the receive and send stages, runs the processor on their packets, and
//! tears them down.

pub mod connection_lib;

use crate::connection::{Connection, ConnectionView, Outcome, OutcomeView, StepView};
use crate::connection_manager::connection_lib::{addressed, without, ConnectionLib};
use crate::packet::{delivery_views, Delivery, DeliveryView, Packet};
use crate::relay_manager::relay::RoomView;
use crate::relay_manager::RelayManager;
use crate::worker_pool::processor::{
    lemma_permission_goes_forward, lemma_processor_keeps_id, processor, processor_post,
    processor_step, processor_with,
};
use crate::worker_pool::{new_worker_pool, Acquired, WorkerPool, WorkerPoolView};
use std::collections::HashMap;
use vstd::prelude::*;
use vstd::string::StringSliceAdditionalSpecFns;

verus! {

broadcast use vstd::std_specs::hash::group_hash_axioms;

/// How a connection is named from outside.
#[derive(Debug)]
pub enum By {
    /// By its remote address, host and port.
    Addr(String),
    /// By the name of its player.
    Name(String),
}

/// What a name of a connection is.
pub enum ByView {
    Addr(Seq<char>),
    Name(Seq<char>),
}

impl View for By {
    type V = ByView;

    open spec fn view(&self) -> ByView {
        match self {
            By::Addr(addr) => ByView::Addr(addr@),
            By::Name(name) => ByView::Name(name@),
        }
    }
}

/// The workers that the receive stage starts with.
pub const RECEIVER_WORKERS: u32 = 1;

/// The workers that the processor stage starts with.
pub const PROCESSOR_WORKERS: u32 = 10;

/// The workers that the send stage starts with.
pub const SENDER_WORKERS: u32 = 1;

/// A connection bound into the pipeline: its id, and the workers of the
/// receive and the send stage that serve it.
#[derive(Debug, Clone, Copy, PartialEq, Eq, Structural)]
pub struct Binding {
    pub con: u64,
    pub receiver: Acquired,
    pub sender: Acquired,
}

/// What the top of the relay is.
pub struct ManagerView {
    /// The registered connections, by id.
    pub cons: Map<u64, ConnectionView>,
    /// The ids of the connections in the order in which they were registered.
    pub ids: Seq<u64>,
    /// The rooms, by number.
    pub rooms: Map<u32, RoomView>,
    /// The number of rooms that were made.
    pub generation: u64,
    pub receiver_pool: WorkerPoolView,
    pub processor_pool: WorkerPoolView,
    pub sender_pool: WorkerPoolView,
    /// The receive and the send worker of each bound connection.
    pub bindings: Map<u64, (u32, u32)>,
    /// The id that the next connection gets.
    pub next_con: u64,
}

/// The pool after a worker was taken back.
pub open spec fn given_back(pool: WorkerPoolView, worker: u32) -> WorkerPoolView {
    WorkerPoolView { free_worker: pool.free_worker.push(worker), ..pool }
}

/// Whether a pool can hand out a worker.
pub open spec fn can_acquire(pool: WorkerPoolView) -> bool {
    pool.free_worker.len() > 0 || pool.worker_size < u32::MAX
}

/// The worker that a pool hands out next.
pub open spec fn next_acquired(pool: WorkerPoolView) -> Acquired {
    if pool.free_worker.len() > 0 {
        Acquired { worker: pool.free_worker.last(), spawned: false }
    } else {
        Acquired { worker: pool.worker_size, spawned: true }
    }
}

/// The pool after it handed out a worker.
pub open spec fn after_acquire(pool: WorkerPoolView) -> WorkerPoolView {
    if pool.free_worker.len() > 0 {
        WorkerPoolView { free_worker: pool.free_worker.drop_last(), ..pool }
    } else {
        WorkerPoolView { worker_size: (pool.worker_size + 1) as u32, ..pool }
    }
}

/// The deliveries among `deliveries` whose connection is in `live`, in
/// their order.
pub open spec fn kept(deliveries: Seq<DeliveryView>, live: Set<u64>) -> Seq<DeliveryView>
    decreases deliveries.len(),
{
    if deliveries.len() == 0 {
        Seq::empty()
    } else if live.contains(deliveries[0].con) {
        seq![deliveries[0]] + kept(deliveries.drop_first(), live)
    } else {
        kept(deliveries.drop_first(), live)
    }
}

impl ManagerView {
    /// The relay as it starts: no connection, no room, and the pools of the
    /// three stages with their first workers.
    pub open spec fn started(rooms: Map<u32, RoomView>, generation: u64) -> ManagerView {
        ManagerView {
            cons: Map::empty(),
            ids: Seq::empty(),
            rooms,
            generation,
            receiver_pool: WorkerPoolView::started(RECEIVER_WORKERS),
            processor_pool: WorkerPoolView::started(PROCESSOR_WORKERS),
            sender_pool: WorkerPoolView::started(SENDER_WORKERS),
            bindings: Map::empty(),
            next_con: 0,
        }
    }

    /// Whether one more connection can be accepted: an id is left, and each
    /// of the receive and the send stage can hand out a worker.
    pub open spec fn can_accept(self) -> bool {
        &&& self.next_con < u64::MAX
        &&& can_acquire(self.receiver_pool)
        &&& can_acquire(self.sender_pool)
    }

    /// The binding that the next connection gets.
    pub open spec fn next_binding(self) -> Binding {
        Binding {
            con: self.next_con,
            receiver: next_acquired(self.receiver_pool),
            sender: next_acquired(self.sender_pool),
        }
    }

    /// The relay after it accepted a connection from `addr`.
    pub open spec fn accepted(self, addr: Seq<char>, ip: Seq<char>) -> ManagerView {
        ManagerView {
            cons: self.cons.insert(
                self.next_con,
                ConnectionView::accepted(self.next_con, addr, ip),
            ),
            ids: if self.cons.contains_key(self.next_con) {
                self.ids
            } else {
                self.ids.push(self.next_con)
            },
            receiver_pool: after_acquire(self.receiver_pool),
            sender_pool: after_acquire(self.sender_pool),
            bindings: self.bindings.insert(
                self.next_con,
                (next_acquired(self.receiver_pool).worker, next_acquired(self.sender_pool).worker),
            ),
            next_con: (self.next_con + 1) as u64,
            ..self
        }
    }

    /// The relay after the connection `con` was released: it is out of the
    /// registry, and its workers are free again.
    pub open spec fn released(self, con: u64) -> ManagerView {
        ManagerView {
            cons: self.cons.remove(con),
            ids: without(self.ids, con),
            receiver_pool: if self.bindings.contains_key(con) {
                given_back(self.receiver_pool, self.bindings[con].0)
            } else {
                self.receiver_pool
            },
            sender_pool: if self.bindings.contains_key(con) {
                given_back(self.sender_pool, self.bindings[con].1)
            } else {
                self.sender_pool
            },
            bindings: self.bindings.remove(con),
            ..self
        }
    }

    /// The relay after the processor took `step` on the connection `con`: the
    /// rooms are those of the step, and the connection is the one of the step,
    /// or released where the step tore it down.
    pub open spec fn stepped(self, con: u64, step: StepView) -> ManagerView {
        let moved = ManagerView { rooms: step.rooms, generation: step.generation, ..self };
        if step.outcome.disconnect {
            moved.released(con)
        } else {
            ManagerView { cons: self.cons.insert(con, step.con), ..moved }
        }
    }

    /// What the relay hands out of the outcome of a step: the deliveries for
    /// connections that were registered when the step began. A packet for a
    /// connection that is gone is dropped.
    pub open spec fn handed_out(self, outcome: OutcomeView) -> OutcomeView {
        OutcomeView { deliveries: kept(outcome.deliveries, self.cons.dom()), ..outcome }
    }

    /// The relay after the connection `con` was torn down from outside.
    pub open spec fn disconnected(self, con: u64) -> ManagerView {
        if self.cons.contains_key(con) {
            (ManagerView { rooms: self.cons[con].rooms_without(self.rooms), ..self }).released(con)
        } else {
            self
        }
    }
}

/// The top of the relay.
#[derive(Debug)]
pub struct ConnectionManager {
    con_lib: ConnectionLib,
    relay_mg: RelayManager,
    receiver_pool: WorkerPool,
    processor_pool: WorkerPool,
    sender_pool: WorkerPool,
    bindings: HashMap<u64, (u32, u32)>,
    next_con: u64,
}

impl View for ConnectionManager {
    type V = ManagerView;

    closed spec fn view(&self) -> ManagerView {
        ManagerView {
            cons: self.con_lib.cons(),
            ids: self.con_lib.ids(),
            rooms: self.relay_mg.rooms(),
            generation: self.relay_mg.generation(),
            receiver_pool: self.receiver_pool@,
            processor_pool: self.processor_pool@,
            sender_pool: self.sender_pool@,
            bindings: self.bindings@,
            next_con: self.next_con,
        }
    }
}

impl ConnectionManager {
    /// The relay as it starts, with the registry of rooms `relay_mg`.
    pub fn new(relay_mg: RelayManager) -> (manager: ConnectionManager)
        ensures
            manager@ == ManagerView::started(relay_mg.rooms(), relay_mg.generation()),
    {
        let manager = ConnectionManager {
            con_lib: ConnectionLib::new(),
            relay_mg,
            receiver_pool: new_worker_pool(RECEIVER_WORKERS),
            processor_pool: new_worker_pool(PROCESSOR_WORKERS),
            sender_pool: new_worker_pool(SENDER_WORKERS),
            bindings: HashMap::new(),
            next_con: 0,
        };
        assert(manager@.bindings =~= Map::<u64, (u32, u32)>::empty());
        manager
    }

    /// The registry of connections.
    pub fn connections(&self) -> (lib: &ConnectionLib)
        ensures
            lib.cons() == self@.cons,
            lib.ids() == self@.ids,
    {
        &self.con_lib
    }

    /// The registry of rooms.
    pub fn relay_manager(&self) -> (relay_mg: &RelayManager)
        ensures
            relay_mg.rooms() == self@.rooms,
            relay_mg.generation() == self@.generation,
    {
        &self.relay_mg
    }

    /// Accepts a connection from the remote address `addr`, whose host part
    /// is `ip`: the connection gets a fresh id and a worker of the receive and
    /// of the send stage, and is registered. Nothing happens where no id is
    /// left or a stage has no worker to hand out.
    pub fn new_connection(&mut self, addr: String, ip: String) -> (binding: Option<Binding>)
        ensures
            old(self)@.can_accept() ==> binding == Some(old(self)@.next_binding()) && final(self)@
                == old(self)@.accepted(addr@, ip@),
            !old(self)@.can_accept() ==> binding is None && final(self)@ == old(self)@,
    {
        if self.next_con == u64::MAX {
            return None;
        }
        if self.receiver_pool.free_count() == 0 && self.receiver_pool.worker_size() == u32::MAX {
            return None;
        }
        if self.sender_pool.free_count() == 0 && self.sender_pool.worker_size() == u32::MAX {
            return None;
        }
        let con: u64 = self.next_con;
        let receiver: Acquired = match self.receiver_pool.get_free_worker() {
            Some(acquired) => acquired,
            None => {
                return None;
            },
        };
        let sender: Acquired = match self.sender_pool.get_free_worker() {
            Some(acquired) => acquired,
            None => {
                return None;
            },
        };
        self.con_lib.insert(Connection::new(con, addr, ip));
        let _ = self.bindings.insert(con, (receiver.worker, sender.worker));
        self.next_con = con + 1;
        Some(Binding { con, receiver, sender })
    }

    /// Hands out a worker of the processor stage.
    pub fn get_free_processor(&mut self) -> (acquired: Option<Acquired>)
        ensures
            can_acquire(old(self)@.processor_pool) ==> acquired == Some(
                next_acquired(old(self)@.processor_pool),
            ) && final(self)@ == (ManagerView {
                processor_pool: after_acquire(old(self)@.processor_pool),
                ..old(self)@
            }),
            !can_acquire(old(self)@.processor_pool) ==> acquired is None && final(self)@ == old(
                self,
            )@,
    {
        self.processor_pool.get_free_worker()
    }

    /// Takes a worker of the processor stage back.
    pub fn push_free_processor(&mut self, worker: u32)
        ensures
            final(self)@ == (ManagerView {
                processor_pool: given_back(old(self)@.processor_pool, worker),
                ..old(self)@
            }),
    {
        self.processor_pool.push_free_worker(worker);
    }

    /// Gives the workers of the connection `con` back and forgets the
    /// connection, which was taken out of the registry.
    fn release(&mut self, con: u64)
        requires
            !old(self)@.cons.contains_key(con),
        ensures
            final(self)@ == old(self)@.released(con),
    {
        match self.bindings.remove(&con) {
            Some((receiver, sender)) => {
                self.receiver_pool.push_free_worker(receiver);
                self.sender_pool.push_free_worker(sender);
            },
            None => {},
        }
        self.con_lib.remove(con);
        assert(self@.cons =~= old(self)@.cons.remove(con));
    }

    /// Drops the deliveries for connections that are not registered.
    fn hand_out(&self, outcome: Outcome) -> (handed: Outcome)
        ensures
            handed@ == self@.handed_out(outcome@),
    {
        let Outcome { deliveries, room_created, disconnect } = outcome;
        let mut rest: Vec<Delivery> = deliveries;
        let mut live: Vec<Delivery> = Vec::new();
        let ghost all = delivery_views(rest@);
        assert(delivery_views(live@) =~= Seq::<DeliveryView>::empty());
        while rest.len() > 0
            invariant
                delivery_views(live@) + kept(delivery_views(rest@), self@.cons.dom()) == kept(
                    all,
                    self@.cons.dom(),
                ),
            decreases rest.len(),
        {
            let ghost before_rest = rest@;
            let ghost before_live = live@;
            let delivery: Delivery = rest.remove(0);
            assert(delivery_views(rest@) =~= delivery_views(before_rest).drop_first());
            if self.con_lib.contains(delivery.con) {
                live.push(delivery);
                assert(delivery_views(live@) =~= delivery_views(before_live) + seq![delivery@]);
                assert(delivery_views(live@) + kept(delivery_views(rest@), self@.cons.dom())
                    =~= delivery_views(before_live) + kept(
                    delivery_views(before_rest),
                    self@.cons.dom(),
                ));
            }
        }
        assert(delivery_views(live@) =~= kept(all, self@.cons.dom()));
        Outcome { deliveries: live, room_created, disconnect }
    }

    /// Settles a step that the processor took on the connection `con`, which
    /// was taken out of the registry for it.
    fn settle(&mut self, con: Connection, outcome: Outcome, Ghost(before): Ghost<ManagerView>) -> (handed:
        Outcome)
        requires
            before.cons.contains_key(con.id),
            old(self)@ == (ManagerView {
                cons: before.cons.remove(con.id),
                rooms: old(self)@.rooms,
                generation: old(self)@.generation,
                ..before
            }),
        ensures
            final(self)@ == before.stepped(
                con.id,
                StepView {
                    con: con@,
                    rooms: old(self)@.rooms,
                    generation: old(self)@.generation,
                    outcome: outcome@,
                },
            ),
            handed@ == before.handed_out(outcome@),
    {
        let id: u64 = con.id;
        let disconnect: bool = outcome.disconnect;
        self.con_lib.put(con);
        assert(self@.cons =~= before.cons.insert(id, con@));
        let handed: Outcome = self.hand_out(outcome);
        assert(kept(outcome@.deliveries, self@.cons.dom()) == kept(
            outcome@.deliveries,
            before.cons.dom(),
        )) by {
            assert(self@.cons.dom() =~= before.cons.dom());
        }
        if disconnect {
            let _ = self.con_lib.take(id);
            self.release(id);
            assert(self@.cons =~= before.cons.remove(id));
            assert(without(without(before.ids, id), id) == without(before.ids, id)) by {
                lemma_without_twice(before.ids, id);
            }
        }
        handed
    }

    /// Runs the processor on a packet of the connection `con`, with the fresh
    /// id `uuid` and the room number `picked` at hand for a relay command. The
    /// step is the one of `processor_step`; a connection that the step tears
    /// down is released. There is no outcome where no such connection is
    /// registered.
    pub fn process_with(&mut self, con: u64, packet: Packet, uuid: &str, picked: Option<u32>) -> (outcome:
        Option<Outcome>)
        ensures
            match outcome {
                Some(outcome) => {
                    let step = processor_step(
                        old(self)@.cons[con],
                        old(self)@.rooms,
                        old(self)@.generation,
                        packet@,
                        uuid.spec_bytes(),
                        picked,
                    );
                    &&& old(self)@.cons.contains_key(con)
                    &&& final(self)@ == old(self)@.stepped(con, step)
                    &&& outcome@ == old(self)@.handed_out(step.outcome)
                },
                None => !old(self)@.cons.contains_key(con) && final(self)@ == old(self)@,
            },
    {
        let ghost before = self@;
        match self.con_lib.take(con) {
            Some(taken) => {
                let mut taken: Connection = taken;
                let outcome = processor_with(&mut taken, &mut self.relay_mg, packet, uuid, picked);
                proof {
                    lemma_permission_goes_forward(
                        before.cons[con],
                        before.rooms,
                        before.generation,
                        packet@,
                        uuid.spec_bytes(),
                        picked,
                    );
                }
                Some(self.settle(taken, outcome, Ghost(before)))
            },
            None => {
                assert(self@.cons =~= before.cons);
                None
            },
        }
    }

    /// Runs the processor on a packet of the connection `con`. The step is
    /// one that `processor_post` allows; a connection that the step tears down
    /// is released. There is no outcome where no such connection is
    /// registered.
    pub fn process(&mut self, con: u64, packet: Packet) -> (outcome: Option<Outcome>)
        ensures
            match outcome {
                Some(outcome) => {
                    &&& old(self)@.cons.contains_key(con)
                    &&& exists|step: StepView|
                        {
                            &&& processor_post(
                                old(self)@.cons[con],
                                old(self)@.rooms,
                                old(self)@.generation,
                                packet@,
                                step,
                            )
                            &&& final(self)@ == #[trigger] old(self)@.stepped(con, step)
                            &&& outcome@ == old(self)@.handed_out(step.outcome)
                        }
                },
                None => !old(self)@.cons.contains_key(con) && final(self)@ == old(self)@,
            },
    {
        let ghost before = self@;
        match self.con_lib.take(con) {
            Some(taken) => {
                let mut taken: Connection = taken;
                let outcome = processor(&mut taken, &mut self.relay_mg, packet);
                let ghost step = StepView {
                    con: taken@,
                    rooms: self@.rooms,
                    generation: self@.generation,
                    outcome: outcome@,
                };
                proof {
                    lemma_processor_keeps_id(
                        before.cons[con],
                        before.rooms,
                        before.generation,
                        packet@,
                        step,
                    );
                }
                let handed = self.settle(taken, outcome, Ghost(before));
                assert(self@ == before.stepped(con, step));
                Some(handed)
            },
            None => {
                assert(self@.cons =~= before.cons);
                None
            },
        }
    }

    /// Tears the connection `con` down from outside, as after a socket error:
    /// it leaves its room, a room that it leaves without a player is torn
    /// down, and the connection is released. Says whether this call did it: a
    /// connection is torn down once.
    pub fn disconnect(&mut self, con: u64) -> (first: bool)
        ensures
            first == old(self)@.cons.contains_key(con),
            final(self)@ == old(self)@.disconnected(con),
    {
        let ghost before = self@;
        match self.con_lib.take(con) {
            Some(taken) => {
                let mut taken: Connection = taken;
                let _ = taken.disconnect(&mut self.relay_mg);
                self.release(con);
                assert(self@.cons =~= before.cons.remove(con));
                true
            },
            None => {
                assert(self@.cons =~= before.cons);
                false
            },
        }
    }

    /// Addresses a copy of `packet` to each connection that `by` names.
    pub fn send_packet_to_player_by(&self, by: By, packet: Packet) -> (deliveries: Vec<Delivery>)
        ensures
            delivery_views(deliveries@) == addressed(self@.ids, self@.cons, by@, packet@),
    {
        self.con_lib.send_packet_to_player_by(by, packet)
    }
}

/// Removing an id twice removes what removing it once removes.
pub proof fn lemma_without_twice(ids: Seq<u64>, id: u64)
    ensures
        without(without(ids, id), id) == without(ids, id),
    decreases ids.len(),
{
    if ids.len() > 0 {
        lemma_without_twice(ids.drop_last(), id);
        if ids.last() != id {
            assert(without(ids, id).drop_last() =~= without(ids.drop_last(), id));
        }
    }
}

/// A connection is torn down once: tearing it down again changes nothing,
/// and a connection that was torn down is not registered.
pub proof fn lemma_disconnect_once(manager: ManagerView, con: u64)
    ensures
        !manager.disconnected(con).cons.contains_key(con),
        manager.disconnected(con).disconnected(con) == manager.disconnected(con),
{
}

/// Tearing a connection down leaves every other connection as it is.
pub proof fn lemma_disconnect_is_local(manager: ManagerView, con: u64, other: u64)
    requires
        other != con,
    ensures
        manager.disconnected(con).cons.contains_key(other) == manager.cons.contains_key(other),
        manager.cons.contains_key(other) ==> manager.disconnected(con).cons[other]
            == manager.cons[other],
{
}

/// When the connection that is torn down sat in a room and leaves it
/// without a player, the room's number names no room any more.
pub proof fn lemma_last_member_leaves(manager: ManagerView, con: u64)
    requires
        manager.cons.contains_key(con),
        !manager.cons[con].is_disconnected,
        manager.cons[con].shared_relay_room is Some,
        manager.cons[con].room_index is Some,
        crate::relay_manager::resolves(manager.rooms, manager.cons[con].shared_relay_room->0),
        manager.rooms[manager.cons[con].shared_relay_room->0.id].left(
            manager.cons[con].room_index->0,
        ).has_no_player(),
    ensures
        !manager.disconnected(con).rooms.contains_key(manager.cons[con].shared_relay_room->0.id),
        !crate::relay_manager::resolves(
            manager.disconnected(con).rooms,
            manager.cons[con].shared_relay_room->0,
        ),
{
}

/// What the relay hands out goes to live connections alone, and nothing
/// that goes to a live connection is held back.
pub proof fn lemma_kept_are_live(deliveries: Seq<DeliveryView>, live: Set<u64>)
    ensures
        forall|i: int|
            0 <= i < kept(deliveries, live).len() ==> live.contains(
                (#[trigger] kept(deliveries, live)[i]).con,
            ),
        kept(deliveries, live).len() <= deliveries.len(),
        (forall|i: int| 0 <= i < deliveries.len() ==> live.contains((#[trigger] deliveries[i]).con))
            ==> kept(deliveries, live) == deliveries,
    decreases deliveries.len(),
{
    if deliveries.len() > 0 {
        let rest = deliveries.drop_first();
        lemma_kept_are_live(rest, live);
        if forall|i: int| 0 <= i < deliveries.len() ==> live.contains((#[trigger] deliveries[i]).con) {
            assert forall|i: int| 0 <= i < rest.len() implies live.contains(
                (#[trigger] rest[i]).con,
            ) by {
                assert(rest[i] == deliveries[i + 1]);
            }
            assert(kept(deliveries, live) =~= deliveries);
        }
    }
}

} // verus!

//! The registry of connections.

use crate::connection::{Connection, ConnectionView};
use crate::connection_manager::{By, ByView};
use crate::packet::{delivery_views, Delivery, DeliveryView, Packet, PacketView};
use std::collections::HashMap;
use vstd::prelude::*;

verus! {

broadcast use vstd::std_specs::hash::group_hash_axioms;

/// The ids in `ids` other than `id`, in their order.
pub open spec fn without(ids: Seq<u64>, id: u64) -> Seq<u64>
    decreases ids.len(),
{
    if ids.len() == 0 {
        Seq::empty()
    } else if ids.last() == id {
        without(ids.drop_last(), id)
    } else {
        without(ids.drop_last(), id).push(ids.last())
    }
}

/// Whether a connection is the one that `by` names.
pub open spec fn is_named(con: ConnectionView, by: ByView) -> bool {
    match by {
        ByView::Addr(addr) => con.addr == addr,
        ByView::Name(name) => con.player_name == name,
    }
}

/// A copy of `packet` for each registered connection among `ids` that `by`
/// names, in the order of `ids`.
pub open spec fn addressed(
    ids: Seq<u64>,
    cons: Map<u64, ConnectionView>,
    by: ByView,
    packet: PacketView,
) -> Seq<DeliveryView>
    decreases ids.len(),
{
    if ids.len() == 0 {
        Seq::empty()
    } else {
        let earlier = addressed(ids.drop_last(), cons, by, packet);
        if cons.contains_key(ids.last()) && is_named(cons[ids.last()], by) {
            earlier.push(DeliveryView { con: ids.last(), packet })
        } else {
            earlier
        }
    }
}

/// The ids among `ids` of the registered connections that `by` names.
pub open spec fn named(ids: Seq<u64>, cons: Map<u64, ConnectionView>, by: ByView) -> Seq<u64>
    decreases ids.len(),
{
    if ids.len() == 0 {
        Seq::empty()
    } else {
        let earlier = named(ids.drop_last(), cons, by);
        if cons.contains_key(ids.last()) && is_named(cons[ids.last()], by) {
            earlier.push(ids.last())
        } else {
            earlier
        }
    }
}

/// The registry after the connections with the ids `gone` were removed.
pub open spec fn removed_all(cons: Map<u64, ConnectionView>, gone: Seq<u64>) -> Map<
    u64,
    ConnectionView,
>
    decreases gone.len(),
{
    if gone.len() == 0 {
        cons
    } else {
        removed_all(cons, gone.drop_last()).remove(gone.last())
    }
}

/// The ids after the ids `gone` were removed.
pub open spec fn without_all(ids: Seq<u64>, gone: Seq<u64>) -> Seq<u64>
    decreases gone.len(),
{
    if gone.len() == 0 {
        ids
    } else {
        without(without_all(ids, gone.drop_last()), gone.last())
    }
}

/// The registry of connections, by connection id, with the order in which
/// the connections were registered.
#[derive(Debug)]
pub struct ConnectionLib {
    addr_map: HashMap<u64, Connection>,
    ids: Vec<u64>,
}

impl ConnectionLib {
    /// The registered connections, by id.
    pub closed spec fn cons(&self) -> Map<u64, ConnectionView> {
        Map::new(|id: u64| self.addr_map@.contains_key(id), |id: u64| self.addr_map@[id]@)
    }

    /// The ids under which connections were registered, in that order.
    pub closed spec fn ids(&self) -> Seq<u64> {
        self.ids@
    }

    /// What holds of every registry: each connection is registered under
    /// its id.
    #[verifier::type_invariant]
    pub closed spec fn inv(self) -> bool {
        forall|id: u64| #[trigger]
            self.addr_map@.contains_key(id) ==> self.addr_map@[id].id == id
    }

    /// An empty registry.
    pub fn new() -> (lib: ConnectionLib)
        ensures
            lib.cons() == Map::<u64, ConnectionView>::empty(),
            lib.ids() == Seq::<u64>::empty(),
    {
        let lib = ConnectionLib { addr_map: HashMap::new(), ids: Vec::new() };
        assert(lib.cons() =~= Map::<u64, ConnectionView>::empty());
        lib
    }

    /// The number of registered connections.
    pub fn len(&self) -> (count: usize)
        ensures
            count == self.cons().len(),
    {
        assert(self.cons().dom() =~= self.addr_map@.dom());
        self.addr_map.len()
    }

    /// Whether a connection is registered under `id`.
    pub fn contains(&self, id: u64) -> (found: bool)
        ensures
            found == self.cons().contains_key(id),
    {
        self.addr_map.contains_key(&id)
    }

    /// The connection registered under `id`.
    pub fn get(&self, id: u64) -> (con: Option<&Connection>)
        ensures
            match con {
                Some(con) => self.cons().contains_key(id) && con@ == self.cons()[id],
                None => !self.cons().contains_key(id),
            },
    {
        self.addr_map.get(&id)
    }

    /// Registers a connection under its id. A connection that was registered
    /// under the id is replaced and keeps its place in the order.
    pub fn insert(&mut self, con: Connection)
        ensures
            final(self).cons() == old(self).cons().insert(con.id, con@),
            final(self).ids() == (if old(self).cons().contains_key(con.id) {
                old(self).ids()
            } else {
                old(self).ids().push(con.id)
            }),
    {
        proof {
            use_type_invariant(&*self);
        }
        let id: u64 = con.id;
        let ghost view = con@;
        // The registry is taken out of its place while its map is changed,
        // so that what stands in the place is a registry at every moment.
        let mut taken: ConnectionLib = ConnectionLib::new();
        core::mem::swap(self, &mut taken);
        let ConnectionLib { addr_map, ids } = taken;
        let mut addr_map: HashMap<u64, Connection> = addr_map;
        let mut ids: Vec<u64> = ids;
        if !addr_map.contains_key(&id) {
            ids.push(id);
        }
        let _ = addr_map.insert(id, con);
        *self = ConnectionLib { addr_map, ids };
        assert(self.cons() =~= old(self).cons().insert(id, view));
    }

    /// Takes the connection registered under `id` out of the registry. Its
    /// place in the order is kept for it.
    pub fn take(&mut self, id: u64) -> (con: Option<Connection>)
        ensures
            final(self).ids() == old(self).ids(),
            final(self).cons() == old(self).cons().remove(id),
            match con {
                Some(con) => old(self).cons().contains_key(id) && con@ == old(self).cons()[id]
                    && con.id == id,
                None => !old(self).cons().contains_key(id),
            },
    {
        proof {
            use_type_invariant(&*self);
        }
        let mut taken: ConnectionLib = ConnectionLib::new();
        core::mem::swap(self, &mut taken);
        let ConnectionLib { addr_map, ids } = taken;
        let mut addr_map: HashMap<u64, Connection> = addr_map;
        let con: Option<Connection> = addr_map.remove(&id);
        *self = ConnectionLib { addr_map, ids };
        assert(self.cons() =~= old(self).cons().remove(id));
        con
    }

    /// Puts a connection back that was taken out.
    pub fn put(&mut self, con: Connection)
        ensures
            final(self).ids() == old(self).ids(),
            final(self).cons() == old(self).cons().insert(con.id, con@),
    {
        proof {
            use_type_invariant(&*self);
        }
        let id: u64 = con.id;
        let ghost view = con@;
        let mut taken: ConnectionLib = ConnectionLib::new();
        core::mem::swap(self, &mut taken);
        let ConnectionLib { addr_map, ids } = taken;
        let mut addr_map: HashMap<u64, Connection> = addr_map;
        let _ = addr_map.insert(id, con);
        *self = ConnectionLib { addr_map, ids };
        assert(self.cons() =~= old(self).cons().insert(id, view));
    }

    /// Removes the connection registered under `id`, and its place in the
    /// order.
    pub fn remove(&mut self, id: u64)
        ensures
            final(self).cons() == old(self).cons().remove(id),
            final(self).ids() == without(old(self).ids(), id),
    {
        proof {
            use_type_invariant(&*self);
        }
        let mut taken: ConnectionLib = ConnectionLib::new();
        core::mem::swap(self, &mut taken);
        let ConnectionLib { addr_map, ids } = taken;
        let mut addr_map: HashMap<u64, Connection> = addr_map;
        let _ = addr_map.remove(&id);
        let mut kept: Vec<u64> = Vec::new();
        let count: usize = ids.len();
        let mut i: usize = 0;
        while i < count
            invariant
                count == ids@.len(),
                i <= count,
                kept@ == without(ids@.subrange(0, i as int), id),
            decreases count - i,
        {
            proof {
                assert(ids@.subrange(0, i + 1).drop_last() =~= ids@.subrange(0, i as int));
            }
            if ids[i] != id {
                kept.push(ids[i]);
            }
            i += 1;
        }
        assert(ids@.subrange(0, count as int) =~= ids@);
        *self = ConnectionLib { addr_map, ids: kept };
        assert(self.cons() =~= old(self).cons().remove(id));
    }

    /// Whether the connection registered under `id` is the one that `by`
    /// names.
    pub fn is_named(&self, id: u64, by: &By) -> (found: bool)
        ensures
            found == (self.cons().contains_key(id) && is_named(self.cons()[id], by@)),
    {
        match self.addr_map.get(&id) {
            Some(con) => match by {
                By::Addr(addr) => con.connection_info.addr == *addr,
                By::Name(name) => con.player_info.player_name == *name,
            },
            None => false,
        }
    }

    /// The ids of the registered connections that `by` names, in the order
    /// in which they were registered.
    pub fn find_by(&self, by: &By) -> (found: Vec<u64>)
        ensures
            found@ == named(self.ids(), self.cons(), by@),
    {
        let mut found: Vec<u64> = Vec::new();
        let count: usize = self.ids.len();
        let mut i: usize = 0;
        while i < count
            invariant
                count == self.ids@.len(),
                i <= count,
                found@ == named(self.ids@.subrange(0, i as int), self.cons(), by@),
            decreases count - i,
        {
            proof {
                assert(self.ids@.subrange(0, i + 1).drop_last() =~= self.ids@.subrange(
                    0,
                    i as int,
                ));
            }
            let id: u64 = self.ids[i];
            if self.is_named(id, by) {
                found.push(id);
            }
            i += 1;
        }
        assert(self.ids@.subrange(0, count as int) =~= self.ids@);
        found
    }

    /// Addresses a copy of `packet` to each connection that `by` names.
    pub fn send_packet_to_player_by(&self, by: By, packet: Packet) -> (deliveries: Vec<Delivery>)
        ensures
            delivery_views(deliveries@) == addressed(self.ids(), self.cons(), by@, packet@),
    {
        let mut deliveries: Vec<Delivery> = Vec::new();
        let count: usize = self.ids.len();
        let mut i: usize = 0;
        assert(delivery_views(deliveries@) =~= Seq::<DeliveryView>::empty());
        while i < count
            invariant
                count == self.ids@.len(),
                i <= count,
                delivery_views(deliveries@) == addressed(
                    self.ids@.subrange(0, i as int),
                    self.cons(),
                    by@,
                    packet@,
                ),
            decreases count - i,
        {
            proof {
                assert(self.ids@.subrange(0, i + 1).drop_last() =~= self.ids@.subrange(
                    0,
                    i as int,
                ));
            }
            let id: u64 = self.ids[i];
            if self.is_named(id, &by) {
                let ghost before = deliveries@;
                let copy: Packet = packet.clone();
                deliveries.push(Delivery { con: id, packet: copy });
                assert(delivery_views(deliveries@) =~= delivery_views(before).push(
                    DeliveryView { con: id, packet: packet@ },
                ));
            }
            i += 1;
        }
        assert(self.ids@.subrange(0, count as int) =~= self.ids@);
        deliveries
    }

    /// Removes the connections that `by` names.
    pub fn remove_by(&mut self, by: By)
        ensures
            final(self).cons() == removed_all(
                old(self).cons(),
                named(old(self).ids(), old(self).cons(), by@),
            ),
            final(self).ids() == without_all(
                old(self).ids(),
                named(old(self).ids(), old(self).cons(), by@),
            ),
    {
        let gone: Vec<u64> = self.find_by(&by);
        let count: usize = gone.len();
        let mut i: usize = 0;
        while i < count
            invariant
                count == gone@.len(),
                i <= count,
                self.cons() == removed_all(old(self).cons(), gone@.subrange(0, i as int)),
                self.ids() == without_all(old(self).ids(), gone@.subrange(0, i as int)),
            decreases count - i,
        {
            proof {
                assert(gone@.subrange(0, i + 1).drop_last() =~= gone@.subrange(0, i as int));
            }
            self.remove(gone[i]);
            i += 1;
        }
        assert(gone@.subrange(0, count as int) =~= gone@);
    }
}

/// What the registry of connections is asked to do.
#[derive(Debug)]
pub enum ConnectionLibAPI {
    /// Register a connection.
    InsertConnection(Connection),
    /// Remove the connections that a name names.
    RemoveConnectionBy(By),
    /// Address a packet to the connections that a name names.
    SendPacketToPlayerBy(By, Packet),
}

impl ConnectionLib {
    /// Serves one request, and returns the packets that it has addressed.
    pub fn serve(&mut self, api: ConnectionLibAPI) -> (deliveries: Vec<Delivery>)
        ensures
            match api {
                ConnectionLibAPI::InsertConnection(con) => {
                    &&& final(self).cons() == old(self).cons().insert(con.id, con@)
                    &&& final(self).ids() == (if old(self).cons().contains_key(con.id) {
                        old(self).ids()
                    } else {
                        old(self).ids().push(con.id)
                    })
                    &&& delivery_views(deliveries@) == Seq::<DeliveryView>::empty()
                },
                ConnectionLibAPI::RemoveConnectionBy(by) => {
                    &&& final(self).cons() == removed_all(
                        old(self).cons(),
                        named(old(self).ids(), old(self).cons(), by@),
                    )
                    &&& final(self).ids() == without_all(
                        old(self).ids(),
                        named(old(self).ids(), old(self).cons(), by@),
                    )
                    &&& delivery_views(deliveries@) == Seq::<DeliveryView>::empty()
                },
                ConnectionLibAPI::SendPacketToPlayerBy(by, packet) => {
                    &&& final(self).cons() == old(self).cons()
                    &&& final(self).ids() == old(self).ids()
                    &&& delivery_views(deliveries@) == addressed(
                        old(self).ids(),
                        old(self).cons(),
                        by@,
                        packet@,
                    )
                },
            },
    {
        match api {
            ConnectionLibAPI::InsertConnection(con) => {
                self.insert(con);
                let deliveries: Vec<Delivery> = Vec::new();
                assert(delivery_views(deliveries@) =~= Seq::<DeliveryView>::empty());
                deliveries
            },
            ConnectionLibAPI::RemoveConnectionBy(by) => {
                self.remove_by(by);
                let deliveries: Vec<Delivery> = Vec::new();
                assert(delivery_views(deliveries@) =~= Seq::<DeliveryView>::empty());
                deliveries
            },
            ConnectionLibAPI::SendPacketToPlayerBy(by, packet) => self.send_packet_to_player_by(
                by,
                packet,
            ),
        }
    }
}

} // verus!

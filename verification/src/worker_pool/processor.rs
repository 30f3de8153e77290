//! The processor stage: the permission state machine, which decides by a
//! connection's permission level and a packet's type what the relay does.

use crate::connection::permission_status::PermissionStatus;
use crate::connection::{
    build_relay_hall_message, command_reply, inspection_of, relay_hall_message_packet,
    relay_server_info_packet, no_delivery, ping_data_packet, push_delivery, push_delivery_if,
    spec_one_or_none, Connection, ConnectionView, Forwarded, ForwardedView, Outcome, OutcomeView,
    StepView,
};
use crate::entropy::{is_uuid_text, new_uuid_text};
use crate::packet::{Delivery, DeliveryView, Packet, PacketType, PacketView};
use crate::relay_manager::relay::RoomView;
use crate::relay_manager::{has_free_id, is_picked_id, RelayManager};
use crate::wire::from_be64;
use vstd::prelude::*;
use vstd::string::StringSliceAdditionalSpecFns;
use vstd::utf8::encode_utf8;

verus! {

/// What the processor does with a packet.
#[derive(Debug, Clone, Copy, PartialEq, Eq, Hash, Structural)]
pub enum ProcessorAction {
    /// Drop the packet.
    Ignore,
    /// Register the client: it enters the relay hall.
    Register,
    /// Tear the connection down.
    Disconnect,
    /// Answer a relay command: open a room, or join one.
    RelayCommand,
    /// Wrap the packet for the host of the room.
    ForwardToHost,
    /// Wrap the packet for the host of the room, and tear the connection
    /// down.
    DisconnectAndForward,
    /// Answer a heartbeat.
    Ping,
    /// Unwrap the packet and hand it to the player that it names.
    ForwardToOthers,
}

/// Whether a player's packet of this type is dropped: it is a packet of the
/// relay protocol, a packet that only a host may speak with authority, or one
/// that nobody deals with.
pub open spec fn dropped_from_player(packet_type: PacketType) -> bool {
    ||| packet_type == PacketType::RELAY_117
    ||| packet_type == PacketType::RELAY_118_117_RETURN
    ||| packet_type == PacketType::RELAY_POW
    ||| packet_type == PacketType::RELAY_POW_RECEIVE
    ||| packet_type == PacketType::RELAY_VERSION_INFO
    ||| packet_type == PacketType::RELAY_BECOME_SERVER
    ||| packet_type == PacketType::FORWARD_CLIENT_ADD
    ||| packet_type == PacketType::FORWARD_CLIENT_REMOVE
    ||| packet_type == PacketType::PACKET_FORWARD_CLIENT_FROM
    ||| packet_type == PacketType::PACKET_FORWARD_CLIENT_TO
    ||| packet_type == PacketType::PACKET_FORWARD_CLIENT_TO_REPEATED
    ||| packet_type == PacketType::TICK
    ||| packet_type == PacketType::SYNC
    ||| packet_type == PacketType::SERVER_INFO
    ||| packet_type == PacketType::HEART_BEAT
    ||| packet_type == PacketType::START_GAME
    ||| packet_type == PacketType::RETURN_TO_BATTLEROOM
    ||| packet_type == PacketType::CHAT
    ||| packet_type == PacketType::KICK
    ||| packet_type == PacketType::PACKET_RECONNECT_TO
    ||| packet_type == PacketType::PASSWD_ERROR
    ||| packet_type == PacketType::TEAM_LIST
    ||| packet_type == PacketType::PREREGISTER_INFO
    ||| packet_type == PacketType::PACKET_DOWNLOAD_PENDING
    ||| packet_type == PacketType::EMPTYP_ACKAGE
    ||| packet_type == PacketType::NOT_RESOLVED
}

/// The transition table: what the processor does with a packet of a type
/// that comes from a connection at a permission level.
pub open spec fn spec_route(
    permission: PermissionStatus,
    packet_type: PacketType,
) -> ProcessorAction {
    match permission {
        PermissionStatus::InitialConnection => if packet_type
            == PacketType::PREREGISTER_INFO_RECEIVE {
            ProcessorAction::Register
        } else if packet_type == PacketType::DISCONNECT {
            ProcessorAction::Disconnect
        } else {
            ProcessorAction::Ignore
        },
        PermissionStatus::Certified => if packet_type == PacketType::RELAY_118_117_RETURN {
            ProcessorAction::RelayCommand
        } else if packet_type == PacketType::DISCONNECT {
            ProcessorAction::Disconnect
        } else {
            ProcessorAction::Ignore
        },
        PermissionStatus::PlayerPermission => if dropped_from_player(packet_type) {
            ProcessorAction::Ignore
        } else if packet_type == PacketType::DISCONNECT {
            ProcessorAction::DisconnectAndForward
        } else {
            ProcessorAction::ForwardToHost
        },
        PermissionStatus::HostPermission => if packet_type == PacketType::HEART_BEAT {
            ProcessorAction::Ping
        } else if packet_type == PacketType::PACKET_FORWARD_CLIENT_TO {
            ProcessorAction::ForwardToOthers
        } else if packet_type == PacketType::DISCONNECT {
            ProcessorAction::Disconnect
        } else {
            ProcessorAction::Ignore
        },
    }
}

/// What the processor does with a packet of a type that comes from a
/// connection at a permission level.
#[verifier::when_used_as_spec(spec_route)]
pub fn route(permission: PermissionStatus, packet_type: PacketType) -> (action: ProcessorAction)
    ensures
        action == spec_route(permission, packet_type),
{
    match permission {
        PermissionStatus::InitialConnection => match packet_type {
            PacketType::PREREGISTER_INFO_RECEIVE => ProcessorAction::Register,
            PacketType::DISCONNECT => ProcessorAction::Disconnect,
            _ => ProcessorAction::Ignore,
        },
        PermissionStatus::Certified => match packet_type {
            PacketType::RELAY_118_117_RETURN => ProcessorAction::RelayCommand,
            PacketType::DISCONNECT => ProcessorAction::Disconnect,
            _ => ProcessorAction::Ignore,
        },
        PermissionStatus::PlayerPermission => match packet_type {
            PacketType::RELAY_117
            | PacketType::RELAY_118_117_RETURN
            | PacketType::RELAY_POW
            | PacketType::RELAY_POW_RECEIVE
            | PacketType::RELAY_VERSION_INFO
            | PacketType::RELAY_BECOME_SERVER
            | PacketType::FORWARD_CLIENT_ADD
            | PacketType::FORWARD_CLIENT_REMOVE
            | PacketType::PACKET_FORWARD_CLIENT_FROM
            | PacketType::PACKET_FORWARD_CLIENT_TO
            | PacketType::PACKET_FORWARD_CLIENT_TO_REPEATED
            | PacketType::TICK
            | PacketType::SYNC
            | PacketType::SERVER_INFO
            | PacketType::HEART_BEAT
            | PacketType::START_GAME
            | PacketType::RETURN_TO_BATTLEROOM
            | PacketType::CHAT
            | PacketType::KICK
            | PacketType::PACKET_RECONNECT_TO
            | PacketType::PASSWD_ERROR
            | PacketType::TEAM_LIST
            | PacketType::PREREGISTER_INFO
            | PacketType::PACKET_DOWNLOAD_PENDING
            | PacketType::EMPTYP_ACKAGE
            | PacketType::NOT_RESOLVED => ProcessorAction::Ignore,
            PacketType::DISCONNECT => ProcessorAction::DisconnectAndForward,
            _ => ProcessorAction::ForwardToHost,
        },
        PermissionStatus::HostPermission => match packet_type {
            PacketType::HEART_BEAT => ProcessorAction::Ping,
            PacketType::PACKET_FORWARD_CLIENT_TO => ProcessorAction::ForwardToOthers,
            PacketType::DISCONNECT => ProcessorAction::Disconnect,
            _ => ProcessorAction::Ignore,
        },
    }
}

/// The greeting that the relay hall shows to a player.
pub open spec fn hall_greeting(player_name: Seq<char>) -> Seq<u8> {
    crate::data::RELAY_INFO_HEAD.spec_bytes() + encode_utf8(player_name)
        + crate::data::RELAY_INFO_TAIL.spec_bytes()
}

/// The step that registers a client: the relay tells which relay it is, the
/// connection is certified, and the packet is kept. Where the packet names
/// the player and carries no query string, the relay notes the name and the
/// client's version and greets the player in the hall; else the connection
/// is torn down.
pub open spec fn registers(
    con: ConnectionView,
    rooms: Map<u32, RoomView>,
    generation: u64,
    packet: PacketView,
) -> StepView {
    let certified = ConnectionView {
        permission_status: PermissionStatus::Certified,
        cache_packet: Some(packet),
        ..con
    };
    let info = con.to_self(relay_server_info_packet());
    let refused = StepView {
        con: certified,
        rooms,
        generation,
        outcome: OutcomeView { deliveries: seq![info], room_created: None, disconnect: true },
    };
    match inspection_of(packet) {
        Some(said) => match (said.player_name, said.query_string) {
            (Some(name), None) => StepView {
                con: ConnectionView {
                    player_name: name,
                    client_version: said.client_version,
                    is_beta_version: said.is_beta_version,
                    ..certified
                },
                rooms,
                generation,
                outcome: OutcomeView::sends(
                    seq![info, con.to_self(relay_hall_message_packet(hall_greeting(name)))],
                ),
            },
            _ => refused,
        },
        None => refused,
    }
}

/// What the processor's action makes of a connection that has stored the
/// packet, before the connection is torn down where the action asks for it.
pub open spec fn acts(
    con: ConnectionView,
    rooms: Map<u32, RoomView>,
    generation: u64,
    packet: PacketView,
    uuid: Seq<u8>,
    picked: Option<u32>,
) -> StepView {
    let stays = StepView { con, rooms, generation, outcome: OutcomeView::nothing() };
    let taken = ConnectionView { packet: None, ..con };
    match spec_route(con.permission_status, packet.packet_type) {
        ProcessorAction::Ignore => stays,
        ProcessorAction::Register => registers(con, rooms, generation, packet),
        ProcessorAction::Disconnect => StepView { outcome: OutcomeView::disconnects(), ..stays },
        ProcessorAction::RelayCommand => command_reply(con, rooms, generation, uuid, picked),
        ProcessorAction::ForwardToHost => StepView {
            outcome: OutcomeView::sends(spec_one_or_none(con.forward_to_host(rooms, packet))),
            ..stays
        },
        ProcessorAction::DisconnectAndForward => StepView {
            outcome: OutcomeView {
                deliveries: spec_one_or_none(con.forward_to_host(rooms, packet)),
                room_created: None,
                disconnect: true,
            },
            ..stays
        },
        ProcessorAction::Ping => if packet.remaining().len() >= 8 {
            StepView {
                con: taken,
                rooms,
                generation,
                outcome: OutcomeView::sends(
                    seq![
                        con.to_self(ping_data_packet(from_be64(packet.remaining().subrange(0, 8)))),
                    ],
                ),
            }
        } else {
            StepView { con: taken, rooms, generation, outcome: OutcomeView::disconnects() }
        },
        ProcessorAction::ForwardToOthers => match con.forward_to_others(rooms, packet) {
            ForwardedView::Delivered(delivery) => StepView {
                outcome: OutcomeView::sends(seq![delivery]),
                ..stays
            },
            ForwardedView::Dropped => stays,
            ForwardedView::Malformed => StepView { outcome: OutcomeView::disconnects(), ..stays },
        },
    }
}

/// One step of the processor: what becomes of a connection and of the rooms
/// when `packet` arrives, and what is sent. `uuid` is the fresh id and
/// `picked` the room number that a relay command may use.
///
/// A connection that was torn down takes no packet. Else the packet is
/// stored as the one received last, the action that the transition table
/// names is taken, and where that asks for it the connection is torn down: it
/// leaves its room, and a room that it leaves without a player is gone.
#[verifier::opaque]
pub open spec fn processor_step(
    con: ConnectionView,
    rooms: Map<u32, RoomView>,
    generation: u64,
    packet: PacketView,
    uuid: Seq<u8>,
    picked: Option<u32>,
) -> StepView {
    if con.is_disconnected {
        StepView { con, rooms, generation, outcome: OutcomeView::nothing() }
    } else {
        let step = acts(
            ConnectionView { packet: Some(packet), ..con },
            rooms,
            generation,
            packet,
            uuid,
            picked,
        );
        if step.outcome.disconnect {
            StepView {
                con: ConnectionView { is_disconnected: true, ..step.con },
                rooms: step.con.rooms_without(step.rooms),
                ..step
            }
        } else {
            step
        }
    }
}

/// Whether the processor may draw `uuid` and `picked` for a step on `rooms`:
/// the id has the shape of a unique id, and the number is one that the
/// registry picks and that is free, or none where none is free.
pub open spec fn may_draw(rooms: Map<u32, RoomView>, uuid: Seq<char>, picked: Option<u32>) -> bool {
    &&& is_uuid_text(uuid)
    &&& match picked {
        Some(id) => is_picked_id(id) && !rooms.contains_key(id),
        None => !has_free_id(rooms),
    }
}

/// Registers the client behind `con` with the preregistration packet
/// `packet`.
fn register(con: &mut Connection, packet: Packet) -> (outcome: Outcome)
    requires
        old(con)@.packet == Some(packet@),
    ensures
        final(con).id == old(con).id,
        final(con)@.shared_relay_room == old(con)@.shared_relay_room,
        forall|rooms: Map<u32, RoomView>, generation: u64|
            (StepView { con: final(con)@, rooms, generation, outcome: outcome@ }) == registers(
                old(con)@,
                rooms,
                generation,
                packet@,
            ),
{
    let mut deliveries: Vec<Delivery> = no_delivery();
    push_delivery(&mut deliveries, con.send_relay_server_info());
    con.player_info.permission_status = PermissionStatus::Certified;
    con.cache_packet = Some(packet);
    match con.relay_direct_inspection() {
        Some(said) => {
            let client_version: u32 = said.client_version;
            let beta: bool = said.is_beta_version;
            match (said.player_name, said.query_string) {
                (Some(name), None) => {
                    let mut greeting: Vec<u8> = Vec::new();
                    greeting.extend_from_slice(crate::data::RELAY_INFO_HEAD.as_bytes());
                    greeting.extend_from_slice(name.as_str().as_bytes());
                    greeting.extend_from_slice(crate::data::RELAY_INFO_TAIL.as_bytes());
                    assert(greeting@ =~= hall_greeting(name@));
                    con.player_info.player_name = name;
                    con.connection_info.client_version = client_version;
                    con.connection_info.is_beta_version = beta;
                    push_delivery(
                        &mut deliveries,
                        Delivery {
                            con: con.id,
                            packet: build_relay_hall_message(greeting.as_slice()),
                        },
                    );
                    let outcome = Outcome::sends(deliveries);
                    assert(outcome@.deliveries =~= seq![
                        old(con)@.to_self(relay_server_info_packet()),
                        old(con)@.to_self(relay_hall_message_packet(hall_greeting(name@))),
                    ]);
                    outcome
                },
                _ => {
                    let outcome = Outcome { deliveries, room_created: None, disconnect: true };
                    assert(outcome@.deliveries =~= seq![
                        old(con)@.to_self(relay_server_info_packet()),
                    ]);
                    outcome
                },
            }
        },
        None => {
            let outcome = Outcome { deliveries, room_created: None, disconnect: true };
            assert(outcome@.deliveries =~= seq![old(con)@.to_self(relay_server_info_packet())]);
            outcome
        },
    }
}

/// Processes one packet of a connection, with the fresh id `uuid` and the
/// room number `picked` at hand for a relay command: see `processor_step`.
pub fn processor_with(
    con: &mut Connection,
    relay_mg: &mut RelayManager,
    packet: Packet,
    uuid: &str,
    picked: Option<u32>,
) -> (outcome: Outcome)
    ensures
        (StepView {
            con: final(con)@,
            rooms: final(relay_mg).rooms(),
            generation: final(relay_mg).generation(),
            outcome: outcome@,
        }) == processor_step(
            old(con)@,
            old(relay_mg).rooms(),
            old(relay_mg).generation(),
            packet@,
            uuid.spec_bytes(),
            picked,
        ),
{
    proof {
        reveal(processor_step);
    }
    if con.is_disconnected {
        return Outcome::nothing();
    }
    let action: ProcessorAction = route(con.player_info.permission_status, packet.packet_type());
    con.packet = Some(packet.clone());
    let ghost stored = con@;
    let outcome: Outcome = match action {
        ProcessorAction::Ignore => Outcome::nothing(),
        ProcessorAction::Register => register(con, packet),
        ProcessorAction::Disconnect => Outcome::disconnects(),
        ProcessorAction::RelayCommand => con.send_relay_server_type_reply(relay_mg, uuid, picked),
        ProcessorAction::ForwardToHost => {
            let mut deliveries: Vec<Delivery> = no_delivery();
            push_delivery_if(&mut deliveries, con.send_packet_to_host(relay_mg, packet));
            assert(crate::packet::delivery_views(deliveries@) =~= spec_one_or_none(
                stored.forward_to_host(relay_mg.rooms(), packet@),
            ));
            Outcome::sends(deliveries)
        },
        ProcessorAction::DisconnectAndForward => {
            let mut deliveries: Vec<Delivery> = no_delivery();
            push_delivery_if(&mut deliveries, con.send_packet_to_host(relay_mg, packet));
            assert(crate::packet::delivery_views(deliveries@) =~= spec_one_or_none(
                stored.forward_to_host(relay_mg.rooms(), packet@),
            ));
            Outcome { deliveries, room_created: None, disconnect: true }
        },
        ProcessorAction::Ping => match con.get_ping_data() {
            Some(delivery) => {
                let mut deliveries: Vec<Delivery> = no_delivery();
                push_delivery(&mut deliveries, delivery);
                assert(crate::packet::delivery_views(deliveries@) =~= seq![delivery@]);
                Outcome::sends(deliveries)
            },
            None => Outcome::disconnects(),
        },
        ProcessorAction::ForwardToOthers => match con.send_packet_to_others(relay_mg, packet) {
            Forwarded::Delivered(delivery) => {
                let mut deliveries: Vec<Delivery> = no_delivery();
                push_delivery(&mut deliveries, delivery);
                assert(crate::packet::delivery_views(deliveries@) =~= seq![delivery@]);
                Outcome::sends(deliveries)
            },
            Forwarded::Dropped => Outcome::nothing(),
            Forwarded::Malformed => Outcome::disconnects(),
        },
    };
    if outcome.disconnect {
        let _ = con.disconnect(relay_mg);
    }
    outcome
}

/// What holds of a step that the processor took on its own: it is the step
/// of `processor_step`. For a relay command the processor drew a fresh unique
/// id and had the registry pick a room number, and the step is the one that
/// these two give; any other step depends on neither.
pub open spec fn processor_post(
    con: ConnectionView,
    rooms: Map<u32, RoomView>,
    generation: u64,
    packet: PacketView,
    step: StepView,
) -> bool {
    if !con.is_disconnected && spec_route(con.permission_status, packet.packet_type)
        == ProcessorAction::RelayCommand {
        exists|uuid: Seq<char>, picked: Option<u32>|
            may_draw(rooms, uuid, picked) && step == #[trigger] processor_step(
                con,
                rooms,
                generation,
                packet,
                encode_utf8(uuid),
                picked,
            )
    } else {
        step == processor_step(con, rooms, generation, packet, Seq::empty(), None)
    }
}

/// Processes one packet of a connection: see `processor_step` and
/// `processor_post`.
pub fn processor(con: &mut Connection, relay_mg: &mut RelayManager, packet: Packet) -> (outcome:
    Outcome)
    ensures
        processor_post(
            old(con)@,
            old(relay_mg).rooms(),
            old(relay_mg).generation(),
            packet@,
            StepView {
                con: final(con)@,
                rooms: final(relay_mg).rooms(),
                generation: final(relay_mg).generation(),
                outcome: outcome@,
            },
        ),
{
    if !con.is_disconnected && route(con.player_info.permission_status, packet.packet_type())
        == ProcessorAction::RelayCommand {
        let uuid: String = new_uuid_text();
        let picked: Option<u32> = relay_mg.pick_id();
        let outcome = processor_with(con, relay_mg, packet, uuid.as_str(), picked);
        assert(may_draw(old(relay_mg).rooms(), uuid@, picked));
        outcome
    } else {
        let outcome = processor_with(con, relay_mg, packet, "", None);
        proof {
            reveal_strlit("");
            assert("".spec_bytes() =~= Seq::<u8>::empty());
        }
        outcome
    }
}

/// A packet as it arrives at the processor, with the fresh id and the room
/// number that are at hand for it.
pub struct Arrival {
    pub packet: PacketView,
    pub uuid: Seq<u8>,
    pub picked: Option<u32>,
}

/// The connection and the rooms after a run of arrivals, with the outcome of
/// the last of them.
pub open spec fn after_arrivals(
    con: ConnectionView,
    rooms: Map<u32, RoomView>,
    generation: u64,
    arrivals: Seq<Arrival>,
) -> StepView
    decreases arrivals.len(),
{
    if arrivals.len() == 0 {
        StepView { con, rooms, generation, outcome: OutcomeView::nothing() }
    } else {
        let before = after_arrivals(con, rooms, generation, arrivals.drop_last());
        processor_step(
            before.con,
            before.rooms,
            before.generation,
            arrivals.last().packet,
            arrivals.last().uuid,
            arrivals.last().picked,
        )
    }
}

/// Everything that a run of arrivals sends, in order.
pub open spec fn sent_by_arrivals(
    con: ConnectionView,
    rooms: Map<u32, RoomView>,
    generation: u64,
    arrivals: Seq<Arrival>,
) -> Seq<DeliveryView>
    decreases arrivals.len(),
{
    if arrivals.len() == 0 {
        Seq::empty()
    } else {
        sent_by_arrivals(con, rooms, generation, arrivals.drop_last()) + after_arrivals(
            con,
            rooms,
            generation,
            arrivals,
        ).outcome.deliveries
    }
}

/// A connection that has not registered gets nothing done with any packet
/// but a preregistration: nothing is sent, no room is opened, the rooms stay
/// as they are, and the connection stays where it is; all that a packet can
/// do is to end the connection, and a disconnect packet does.
pub proof fn lemma_unregistered_sends_nothing(
    con: ConnectionView,
    rooms: Map<u32, RoomView>,
    generation: u64,
    packet: PacketView,
    uuid: Seq<u8>,
    picked: Option<u32>,
)
    requires
        con.permission_status == PermissionStatus::InitialConnection,
        con.shared_relay_room is None,
        packet.packet_type != PacketType::PREREGISTER_INFO_RECEIVE,
    ensures
        ({
            let step = processor_step(con, rooms, generation, packet, uuid, picked);
            &&& step.outcome.deliveries == Seq::<DeliveryView>::empty()
            &&& step.outcome.room_created is None
            &&& step.rooms == rooms
            &&& step.generation == generation
            &&& step.con.permission_status == PermissionStatus::InitialConnection
            &&& step.con.shared_relay_room is None
            &&& !con.is_disconnected && packet.packet_type == PacketType::DISCONNECT
                ==> step.con.is_disconnected && step.outcome.disconnect
            &&& packet.packet_type != PacketType::DISCONNECT ==> !step.outcome.disconnect
                && step.con.is_disconnected == con.is_disconnected
        }),
{
    reveal(processor_step);
}

/// The level of a connection that has not registered is left by a
/// preregistration alone.
pub open spec fn none_preregisters(arrivals: Seq<Arrival>) -> bool {
    forall|i: int|
        0 <= i < arrivals.len() ==> (#[trigger] arrivals[i]).packet.packet_type
            != PacketType::PREREGISTER_INFO_RECEIVE
}

/// However many packets a connection sends before it has registered, as
/// long as none of them is a preregistration the connection stays where it
/// began, the rooms stay as they are, and the relay sends nothing.
pub proof fn lemma_unregistered_stays_unregistered(
    con: ConnectionView,
    rooms: Map<u32, RoomView>,
    generation: u64,
    arrivals: Seq<Arrival>,
)
    requires
        con.permission_status == PermissionStatus::InitialConnection,
        con.shared_relay_room is None,
        none_preregisters(arrivals),
    ensures
        after_arrivals(con, rooms, generation, arrivals).con.permission_status
            == PermissionStatus::InitialConnection,
        after_arrivals(con, rooms, generation, arrivals).con.shared_relay_room is None,
        after_arrivals(con, rooms, generation, arrivals).rooms == rooms,
        after_arrivals(con, rooms, generation, arrivals).generation == generation,
        sent_by_arrivals(con, rooms, generation, arrivals) == Seq::<DeliveryView>::empty(),
    decreases arrivals.len(),
{
    if arrivals.len() > 0 {
        let earlier = arrivals.drop_last();
        assert(none_preregisters(earlier)) by {
            assert forall|i: int| 0 <= i < earlier.len() implies (#[trigger] earlier[i]).packet.packet_type
                != PacketType::PREREGISTER_INFO_RECEIVE by {
                assert(earlier[i] == arrivals[i]);
            }
        }
        lemma_unregistered_stays_unregistered(con, rooms, generation, earlier);
        let before = after_arrivals(con, rooms, generation, earlier);
        let last = arrivals.last();
        assert(last.packet.packet_type != PacketType::PREREGISTER_INFO_RECEIVE) by {
            assert(last == arrivals[arrivals.len() - 1]);
        }
        lemma_unregistered_sends_nothing(
            before.con,
            before.rooms,
            before.generation,
            last.packet,
            last.uuid,
            last.picked,
        );
        assert(sent_by_arrivals(con, rooms, generation, arrivals) =~= Seq::<DeliveryView>::empty());
    }
}

/// A connection that has not registered is torn down by the first
/// disconnect packet that it sends, and stays so.
pub proof fn lemma_unregistered_disconnects(
    con: ConnectionView,
    rooms: Map<u32, RoomView>,
    generation: u64,
    arrivals: Seq<Arrival>,
    at: int,
)
    requires
        con.permission_status == PermissionStatus::InitialConnection,
        con.shared_relay_room is None,
        none_preregisters(arrivals),
        0 <= at < arrivals.len(),
        arrivals[at].packet.packet_type == PacketType::DISCONNECT,
    ensures
        after_arrivals(con, rooms, generation, arrivals).con.is_disconnected,
    decreases arrivals.len(),
{
    let earlier = arrivals.drop_last();
    assert(none_preregisters(earlier)) by {
        assert forall|i: int| 0 <= i < earlier.len() implies (#[trigger] earlier[i]).packet.packet_type
            != PacketType::PREREGISTER_INFO_RECEIVE by {
            assert(earlier[i] == arrivals[i]);
        }
    }
    lemma_unregistered_stays_unregistered(con, rooms, generation, earlier);
    let before = after_arrivals(con, rooms, generation, earlier);
    let last = arrivals.last();
    assert(last == arrivals[arrivals.len() - 1]);
    if at < earlier.len() {
        assert(earlier[at] == arrivals[at]);
        lemma_unregistered_disconnects(con, rooms, generation, earlier, at);
        lemma_torn_down_stays_torn_down(
            before.con,
            before.rooms,
            before.generation,
            last.packet,
            last.uuid,
            last.picked,
        );
    } else {
        lemma_permission_goes_forward(
            before.con,
            before.rooms,
            before.generation,
            last.packet,
            last.uuid,
            last.picked,
        );
        lemma_unregistered_sends_nothing(
            before.con,
            before.rooms,
            before.generation,
            last.packet,
            last.uuid,
            last.picked,
        );
    }
}

/// A connection that was torn down takes no packet: nothing changes and
/// nothing is sent.
pub proof fn lemma_torn_down_stays_torn_down(
    con: ConnectionView,
    rooms: Map<u32, RoomView>,
    generation: u64,
    packet: PacketView,
    uuid: Seq<u8>,
    picked: Option<u32>,
)
    requires
        con.is_disconnected,
    ensures
        processor_step(con, rooms, generation, packet, uuid, picked) == (StepView {
            con,
            rooms,
            generation,
            outcome: OutcomeView::nothing(),
        }),
{
    reveal(processor_step);
}

/// No step takes a connection back: its permission level stays or goes one
/// step forward, a connection that was torn down stays so, and the only way
/// out of the first level is a preregistration.
pub proof fn lemma_permission_goes_forward(
    con: ConnectionView,
    rooms: Map<u32, RoomView>,
    generation: u64,
    packet: PacketView,
    uuid: Seq<u8>,
    picked: Option<u32>,
)
    ensures
        ({
            let step = processor_step(con, rooms, generation, packet, uuid, picked);
            &&& con.permission_status.may_become(step.con.permission_status)
            &&& con.is_disconnected ==> step.con.is_disconnected
            &&& step.con.id == con.id
            &&& step.outcome.disconnect ==> step.con.is_disconnected
            &&& con.permission_status == PermissionStatus::InitialConnection
                && step.con.permission_status != PermissionStatus::InitialConnection
                ==> packet.packet_type == PacketType::PREREGISTER_INFO_RECEIVE
        }),
{
    reveal(processor_step);
}

/// A packet that a host addresses to a site index at which nobody sits is
/// dropped: nothing is sent, the host stays connected, and the rooms stay as
/// they are.
pub proof fn lemma_forward_to_absent_player_is_dropped(
    con: ConnectionView,
    rooms: Map<u32, RoomView>,
    generation: u64,
    packet: PacketView,
    uuid: Seq<u8>,
    picked: Option<u32>,
)
    requires
        !con.is_disconnected,
        con.permission_status == PermissionStatus::HostPermission,
        packet.packet_type == PacketType::PACKET_FORWARD_CLIENT_TO,
        crate::connection::forward_to_parts(packet) matches Some(parts) && (match con.shared_relay_room {
            Some(room) => !(crate::relay_manager::resolves(rooms, room)
                && rooms[room.id].players.contains_key(parts.index)),
            None => true,
        }),
    ensures
        processor_step(con, rooms, generation, packet, uuid, picked) == (StepView {
            con: ConnectionView { packet: Some(packet), ..con },
            rooms,
            generation,
            outcome: OutcomeView::nothing(),
        }),
{
    reveal(processor_step);
}

/// A step that the processor took on its own leaves a connection its id.
pub proof fn lemma_processor_keeps_id(
    con: ConnectionView,
    rooms: Map<u32, RoomView>,
    generation: u64,
    packet: PacketView,
    step: StepView,
)
    requires
        processor_post(con, rooms, generation, packet, step),
    ensures
        step.con.id == con.id,
        con.permission_status.may_become(step.con.permission_status),
{
    if !con.is_disconnected && spec_route(con.permission_status, packet.packet_type)
        == ProcessorAction::RelayCommand {
        let (uuid, picked) = choose|uuid: Seq<char>, picked: Option<u32>|
            may_draw(rooms, uuid, picked) && step == #[trigger] processor_step(
                con,
                rooms,
                generation,
                packet,
                encode_utf8(uuid),
                picked,
            );
        lemma_permission_goes_forward(con, rooms, generation, packet, encode_utf8(uuid), picked);
    } else {
        lemma_permission_goes_forward(con, rooms, generation, packet, Seq::empty(), None);
    }
}

/// A player reaches nobody but the host of its room, and only in an
/// envelope that names the player's own site index: whatever a player sends,
/// at most one packet goes out, to the host, wrapped as sent from the
/// player's site; nothing goes out for a packet type that a player may not
/// speak, no room is opened, and the player's level stays.
pub proof fn lemma_player_reaches_only_its_host(
    con: ConnectionView,
    rooms: Map<u32, RoomView>,
    generation: u64,
    packet: PacketView,
    uuid: Seq<u8>,
    picked: Option<u32>,
)
    requires
        !con.is_disconnected,
        con.permission_status == PermissionStatus::PlayerPermission,
    ensures
        ({
            let step = processor_step(con, rooms, generation, packet, uuid, picked);
            &&& step.con.permission_status == PermissionStatus::PlayerPermission
            &&& step.outcome.room_created is None
            &&& step.generation == generation
            &&& step.outcome.deliveries.len() <= 1
            &&& dropped_from_player(packet.packet_type) ==> step.outcome.deliveries.len() == 0
                && !step.outcome.disconnect && step.rooms == rooms
            &&& step.outcome.deliveries.len() == 1 ==> {
                &&& con.shared_relay_room is Some
                &&& con.room_index is Some
                &&& crate::relay_manager::resolves(rooms, con.shared_relay_room->0)
                &&& step.outcome.deliveries[0].con == rooms[con.shared_relay_room->0.id].admin
                &&& step.outcome.deliveries[0].packet == crate::connection::forward_from_packet(
                    con.room_index->0,
                    packet,
                )
            }
        }),
{
    reveal(processor_step);
}

/// A host reaches nobody but the players of its own room: what a host
/// sends goes to the host itself, as the answer to a heartbeat, or to the
/// player that sits at the site index that the envelope names.
pub proof fn lemma_host_reaches_only_its_players(
    con: ConnectionView,
    rooms: Map<u32, RoomView>,
    generation: u64,
    packet: PacketView,
    uuid: Seq<u8>,
    picked: Option<u32>,
)
    requires
        !con.is_disconnected,
        con.permission_status == PermissionStatus::HostPermission,
    ensures
        ({
            let step = processor_step(con, rooms, generation, packet, uuid, picked);
            &&& step.con.permission_status == PermissionStatus::HostPermission
            &&& step.outcome.room_created is None
            &&& step.generation == generation
            &&& step.outcome.deliveries.len() <= 1
            &&& step.outcome.deliveries.len() == 1 ==> {
                ||| packet.packet_type == PacketType::HEART_BEAT
                    && step.outcome.deliveries[0].con == con.id
                ||| {
                    &&& packet.packet_type == PacketType::PACKET_FORWARD_CLIENT_TO
                    &&& con.shared_relay_room is Some
                    &&& crate::relay_manager::resolves(rooms, con.shared_relay_room->0)
                    &&& crate::connection::forward_to_parts(packet) is Some
                    &&& rooms[con.shared_relay_room->0.id].players.contains_key(
                        crate::connection::forward_to_parts(packet)->0.index,
                    )
                    &&& step.outcome.deliveries[0].con
                        == rooms[con.shared_relay_room->0.id].players[crate::connection::forward_to_parts(
                        packet,
                    )->0.index]
                }
            }
        }),
{
    reveal(processor_step);
}

} // verus!

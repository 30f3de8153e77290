//! The events that the relay publishes for listeners outside of it.

use crate::connection::Outcome;
use crate::packet::{Packet, PacketType, PacketView};
use crate::relay_manager::relay::RoomRef;
use vstd::prelude::*;

verus! {

/// The name under which the opening of a room is published.
pub const ROOM_EVENT_NAME: &'static str = "abab";

/// What happened.
#[derive(Debug)]
pub enum EventType {
    /// A room was opened and its host knows.
    NewRoomAndHostOk(RoomRef),
    /// A packet of a connection was seen.
    NewPacket(u64, Packet, PacketType),
}

/// An event: a name, and what happened.
#[derive(Debug)]
pub struct Event {
    pub event_name: String,
    pub event_type: EventType,
}

/// What an event type is.
pub enum EventTypeView {
    NewRoomAndHostOk(RoomRef),
    NewPacket(u64, PacketView, PacketType),
}

/// What an event is.
pub struct EventView {
    pub event_name: Seq<char>,
    pub event_type: EventTypeView,
}

impl View for EventType {
    type V = EventTypeView;

    open spec fn view(&self) -> EventTypeView {
        match self {
            EventType::NewRoomAndHostOk(room) => EventTypeView::NewRoomAndHostOk(*room),
            EventType::NewPacket(con, packet, packet_type) => EventTypeView::NewPacket(
                *con,
                packet@,
                *packet_type,
            ),
        }
    }
}

impl View for Event {
    type V = EventView;

    open spec fn view(&self) -> EventView {
        EventView { event_name: self.event_name@, event_type: self.event_type@ }
    }
}

impl Event {
    /// An event under a name.
    pub fn new(event_name: &str, event_type: EventType) -> (event: Event)
        ensures
            event@ == (EventView { event_name: event_name@, event_type: event_type@ }),
    {
        Event { event_name: event_name.to_owned(), event_type }
    }
}

/// The event that an outcome publishes: the opening of a room, where the
/// step opened one.
pub fn event_of(outcome: &Outcome) -> (event: Option<Event>)
    ensures
        match outcome.room_created {
            Some(room) => event matches Some(published) && published@ == (EventView {
                event_name: ROOM_EVENT_NAME@,
                event_type: EventTypeView::NewRoomAndHostOk(room),
            }),
            None => event is None,
        },
{
    match outcome.room_created {
        Some(room) => Some(Event::new(ROOM_EVENT_NAME, EventType::NewRoomAndHostOk(room))),
        None => None,
    }
}

/// The name under which a packet that was seen is published.
pub const PACKET_EVENT_NAME: &'static str = "packet";

/// The event that says that `packet` of the connection `con` was seen.
pub fn packet_event(con: u64, packet: &Packet) -> (event: Event)
    ensures
        event@ == (EventView {
            event_name: PACKET_EVENT_NAME@,
            event_type: EventTypeView::NewPacket(con, packet@, packet@.packet_type),
        }),
{
    Event::new(PACKET_EVENT_NAME, EventType::NewPacket(con, packet.clone(), packet.packet_type()))
}

} // verus!

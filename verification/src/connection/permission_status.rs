//! The permission level of a connection.

use vstd::prelude::*;

verus! {

/// How far a connection has come: from its first packet, through its
/// registration, to its place in a room. A connection never goes back.
#[derive(Debug, Clone, Copy, PartialEq, Eq, Hash, Structural)]
pub enum PermissionStatus {
    /// The socket was accepted; nothing is known of the client.
    InitialConnection,
    /// The client has registered and stands in the relay hall.
    Certified,
    /// The client is a player of a room.
    PlayerPermission,
    /// The client hosts a room.
    HostPermission,
}

impl PermissionStatus {
    /// Whether a connection at this level may be at `next` afterwards: it
    /// stays, or it takes one step forward.
    pub open spec fn may_become(self, next: PermissionStatus) -> bool {
        ||| next == self
        ||| self == PermissionStatus::InitialConnection && next == PermissionStatus::Certified
        ||| self == PermissionStatus::Certified && (next == PermissionStatus::PlayerPermission
            || next == PermissionStatus::HostPermission)
    }
}

impl Default for PermissionStatus {
    fn default() -> (status: PermissionStatus)
        ensures
            status == PermissionStatus::InitialConnection,
    {
        PermissionStatus::InitialConnection
    }
}

} // verus!

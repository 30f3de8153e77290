//! Commands broadcast to the stages that serve one connection.

use vstd::prelude::*;

verus! {

/// A command raced against the blocking work of a connection's receive and
/// send stages.
#[derive(Debug, Clone, Copy, PartialEq, Eq, Structural)]
pub enum ServerCommand {
    /// Stop serving the connection.
    Disconnect,
}

} // verus!

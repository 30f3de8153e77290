//! A relay server core for a real-time-strategy game's peer networking
//! protocol: the packet codec, the per-connection permission state machine,
//! the relay rooms and the registries that route packets between a room's
//! host and its players.
//!
//! The library is synchronous and owns no socket: a caller feeds it the bytes
//! and events it observed and performs the deliveries it answers with.

pub mod command;
pub mod connection;
pub mod connection_manager;
pub mod data;
pub mod digest;
pub mod dummy;
pub mod entropy;
pub mod error;
pub mod event;
pub mod module;
pub mod packet;
pub mod relay_manager;
pub mod server;
pub mod text;
pub mod uplist;
pub mod worker_pool;
pub mod wire;

//! The configuration that the server starts with when none is given.

use crate::server::{AllConfig, GameConfig, ServerConfig, UplistApi};
use vstd::prelude::*;

verus! {

/// The port that the server listens on when none is configured.
pub const DEFAULT_PORT: u32 = 5123;

/// The number of threads of each stage when none is configured.
pub const DEFAULT_THREAD_NUMBER: usize = 30;

impl Default for ServerConfig {
    fn default() -> (config: ServerConfig)
        ensures
            config.port_range@ == seq![(DEFAULT_PORT, (DEFAULT_PORT + 1) as u32)],
            config.thread_number == DEFAULT_THREAD_NUMBER,
            !config.enable_web,
    {
        let mut port_range: Vec<(u32, u32)> = Vec::new();
        port_range.push((DEFAULT_PORT, DEFAULT_PORT + 1));
        assert(port_range@ =~= seq![(DEFAULT_PORT, (DEFAULT_PORT + 1) as u32)]);
        ServerConfig { port_range, thread_number: DEFAULT_THREAD_NUMBER, enable_web: false }
    }
}

impl Default for AllConfig {
    fn default() -> (config: AllConfig)
        ensures
            config.server.port_range@ == seq![(DEFAULT_PORT, (DEFAULT_PORT + 1) as u32)],
            config.server.thread_number == DEFAULT_THREAD_NUMBER,
            !config.server.enable_web,
            config.banlist@ == Seq::<String>::empty(),
    {
        AllConfig {
            server: ServerConfig::default(),
            uplist: UplistApi {  },
            game: GameConfig {  },
            banlist: Vec::new(),
        }
    }
}

} // verus!

//! The configuration of the server.

pub mod config;

use vstd::prelude::*;

verus! {

/// The configuration of the relay itself.
#[derive(Debug)]
pub struct ServerConfig {
    /// The ranges of ports to listen on; each holds its first port and not
    /// its second.
    pub port_range: Vec<(u32, u32)>,
    /// The number of threads of each stage.
    pub thread_number: usize,
    pub enable_web: bool,
}

/// The configuration of the announcement to the master list.
#[derive(Debug, Clone, Copy, Default, PartialEq, Eq, Structural)]
pub struct UplistApi {}

/// The configuration of the game.
#[derive(Debug, Clone, Copy, Default, PartialEq, Eq, Structural)]
pub struct GameConfig {}

/// The whole configuration.
#[derive(Debug)]
pub struct AllConfig {
    pub server: ServerConfig,
    pub uplist: UplistApi,
    pub game: GameConfig,
    /// The remote addresses that the server does not serve.
    pub banlist: Vec<String>,
}

/// The ports of one range.
pub open spec fn ports_of(range: (u32, u32)) -> Seq<u32> {
    if range.0 < range.1 {
        Seq::new((range.1 - range.0) as nat, |i: int| (range.0 + i) as u32)
    } else {
        Seq::empty()
    }
}

/// The ports of a run of ranges, range after range.
pub open spec fn ports_of_all(ranges: Seq<(u32, u32)>) -> Seq<u32>
    decreases ranges.len(),
{
    if ranges.len() == 0 {
        Seq::empty()
    } else {
        ports_of_all(ranges.drop_last()) + ports_of(ranges.last())
    }
}

impl ServerConfig {
    /// The ports to listen on: those of each range, range after range.
    pub fn ports(&self) -> (ports: Vec<u32>)
        ensures
            ports@ == ports_of_all(self.port_range@),
    {
        let mut ports: Vec<u32> = Vec::new();
        let count: usize = self.port_range.len();
        let mut i: usize = 0;
        while i < count
            invariant
                count == self.port_range@.len(),
                i <= count,
                ports@ == ports_of_all(self.port_range@.subrange(0, i as int)),
            decreases count - i,
        {
            let range: (u32, u32) = self.port_range[i];
            let ghost before = ports@;
            if range.0 < range.1 {
                let mut port: u32 = range.0;
                assert(ports@ =~= before + ports_of(range).subrange(0, 0));
                while port < range.1
                    invariant
                        range.0 <= port <= range.1,
                        ports@ == before + ports_of(range).subrange(0, port - range.0),
                    decreases range.1 - port,
                {
                    ports.push(port);
                    port += 1;
                    assert(ports@ =~= before + ports_of(range).subrange(0, port - range.0));
                }
                assert(ports_of(range).subrange(0, range.1 - range.0) =~= ports_of(range));
            } else {
                assert(before + ports_of(range) =~= before);
            }
            proof {
                assert(self.port_range@.subrange(0, i + 1).drop_last() =~= self.port_range@.subrange(
                    0,
                    i as int,
                ));
            }
            i += 1;
        }
        assert(self.port_range@.subrange(0, count as int) =~= self.port_range@);
        ports
    }
}

impl AllConfig {
    /// Whether a remote address is on the ban list.
    pub open spec fn spec_is_banned(&self, addr: Seq<char>) -> bool {
        exists|i: int| 0 <= i < self.banlist@.len() && (#[trigger] self.banlist@[i])@ == addr
    }

    /// Whether the remote address `addr` is on the ban list.
    pub fn is_banned(&self, addr: &str) -> (banned: bool)
        ensures
            banned == self.spec_is_banned(addr@),
    {
        let count: usize = self.banlist.len();
        let mut i: usize = 0;
        while i < count
            invariant
                count == self.banlist@.len(),
                i <= count,
                forall|j: int| 0 <= j < i ==> (#[trigger] self.banlist@[j])@ != addr@,
            decreases count - i,
        {
            if str_equal(self.banlist[i].as_str(), addr) {
                return true;
            }
            i += 1;
        }
        false
    }
}

/// Whether two texts are the same.
fn str_equal(a: &str, b: &str) -> (same: bool)
    ensures
        same == (a@ == b@),
{
    let left: String = a.to_owned();
    let right: String = b.to_owned();
    left == right
}

} // verus!

use vstd::prelude::*;

use crate::protocol::{Command, route_command, routed};

verus! {

/// A parameter server: its identifier, the range of gradient entries it
/// serves, and how many workers send to it. It passes the coordinator's
/// commands on to its proxy.
pub struct ParamServer {
    pub id: u16,
    pub gradient_range: (u128, u128),
    pub num_workers: u16,
}

impl ParamServer {
    /// A parameter server with the given identifier, range and worker count.
    pub fn new(id: u16, gradient_range: (u128, u128), num_workers: u16) -> (r: ParamServer)
        ensures
            r.id == id,
            r.gradient_range == gradient_range,
            r.num_workers == num_workers,
    {
        ParamServer { id, gradient_range, num_workers }
    }

    /// The command to pass on to this server's proxy, when the coordinator
    /// addressed `cmd` to `id`: only `compute` and `send` are passed on, and
    /// only when addressed to every server (identifier 0) or to this one.
    pub fn route_command(&self, id: u16, cmd: &str) -> (r: Option<Command>)
        ensures
            r == routed(self.id, id, cmd@),
    {
        route_command(self.id, id, cmd)
    }
}

} // verus!

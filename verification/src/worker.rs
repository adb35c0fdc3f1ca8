use vstd::prelude::*;

use crate::protocol::{Command, route_command, routed};

verus! {

/// A worker: its identifier and its model. It passes the coordinator's
/// commands on to its proxy.
pub struct Worker<M> {
    pub id: u16,
    pub model_vec: Vec<M>,
}

impl<M> Worker<M> {
    /// A worker with the given model and identifier.
    pub fn new(model_vec: Vec<M>, id: u16) -> (r: Worker<M>)
        ensures
            r.id == id,
            r.model_vec@ == model_vec@,
    {
        Worker { id, model_vec }
    }

    /// The command to pass on to this worker's proxy, when the coordinator
    /// addressed `cmd` to `id`: only `compute` and `send` are passed on, and
    /// only when addressed to every worker (identifier 0) or to this one.
    pub fn route_command(&self, id: u16, cmd: &str) -> (r: Option<Command>)
        ensures
            r == routed(self.id, id, cmd@),
    {
        route_command(self.id, id, cmd)
    }
}

} // verus!

use vstd::prelude::*;

use crate::accumulator::Accumulator;
use crate::protocol::{
    Command,
    command_of,
    command_text,
    lemma_command_round_trip,
    lemma_command_vocabulary,
};
use crate::worker_proxy::{ProxyAction, ProxyState};

verus! {

/// A parameter-server proxy as a mathematical value: the gradients
/// gathered this cycle with their count, and the average to send back.
pub struct ParamServerProxyView<G> {
    pub id: u16,
    pub state: ProxyState,
    pub num_workers: u16,
    pub gradients: Seq<G>,
    pub total_collected: int,
    pub avg_gradient: Option<G>,
}

impl<G> ParamServerProxyView<G> {
    /// The proxy after gathering one more gradient, and whether that
    /// gradient completed the set expected from the workers.
    pub open spec fn on_gradient(self, grad: G) -> (ParamServerProxyView<G>, bool) {
        (
            ParamServerProxyView {
                gradients: self.gradients.push(grad),
                total_collected: self.total_collected + 1,
                ..self
            },
            self.total_collected + 1 == self.num_workers,
        )
    }

    /// The proxy after taking `cmd`, addressed to `id`, and what its owner
    /// must do. `compute` is taken only while waiting, `send` only after
    /// computing; sending hands out the stored average, drops the gathered
    /// gradients, and the proxy waits again.
    pub open spec fn on_command(self, id: u16, cmd: Seq<char>) -> (ParamServerProxyView<G>, ProxyAction<G>) {
        if id != self.id {
            (self, ProxyAction::Ignore)
        } else if command_of(cmd) == Some(Command::Compute) && self.state == ProxyState::Wait {
            (ParamServerProxyView { state: ProxyState::Compute, ..self }, ProxyAction::Compute)
        } else if command_of(cmd) == Some(Command::Send) && self.state == ProxyState::Compute {
            (
                ParamServerProxyView {
                    state: ProxyState::Wait,
                    avg_gradient: None,
                    gradients: Seq::empty(),
                    total_collected: 0,
                    ..self
                },
                ProxyAction::Send(self.avg_gradient),
            )
        } else {
            (self, ProxyAction::Ignore)
        }
    }

    /// The count of gathered gradients agrees with the gradients held.
    pub open spec fn wf(self) -> bool {
        self.gradients.len() == self.total_collected
    }

    /// The proxy after gathering the given gradients, one by one.
    pub open spec fn gather(self, grads: Seq<G>) -> ParamServerProxyView<G>
        decreases grads.len(),
    {
        if grads.len() == 0 {
            self
        } else {
            self.gather(grads.drop_last()).on_gradient(grads.last()).0
        }
    }
}

/// The proxy that gathers the workers' gradients for one parameter server
/// and sends their average back.
pub struct ParamServerProxy<G> {
    id: u16,
    accumulator: Accumulator<G>,
    state: ProxyState,
    num_workers: u16,
    avg_gradient: Option<G>,
}

impl<G> View for ParamServerProxy<G> {
    type V = ParamServerProxyView<G>;

    closed spec fn view(&self) -> ParamServerProxyView<G> {
        ParamServerProxyView {
            id: self.id,
            state: self.state,
            num_workers: self.num_workers,
            gradients: self.accumulator.grs@,
            total_collected: self.accumulator.total_collected as int,
            avg_gradient: self.avg_gradient,
        }
    }
}

impl<G> ParamServerProxy<G> {
    /// A waiting proxy that expects one gradient from each of `num_workers`
    /// workers, with nothing gathered.
    pub fn new(id: u16, num_workers: u16) -> (r: ParamServerProxy<G>)
        ensures
            r@ == (ParamServerProxyView::<G> {
                id,
                state: ProxyState::Wait,
                num_workers,
                gradients: Seq::empty(),
                total_collected: 0,
                avg_gradient: None,
            }),
    {
        ParamServerProxy {
            id,
            accumulator: Accumulator::new(),
            state: ProxyState::Wait,
            num_workers,
            avg_gradient: None,
        }
    }

    /// Gathers one gradient that a worker sent, and tells whether the
    /// parameter server should now report that it received them all.
    pub fn on_gradient(&mut self, grad: G) -> (ready: bool)
        requires
            old(self)@.total_collected < u32::MAX,
        ensures
            (final(self)@, ready) == old(self)@.on_gradient(grad),
    {
        self.accumulator.add_gradient(grad);
        self.accumulator.is_ready(self.num_workers as u32)
    }

    /// Takes a command that the parameter server passed on.
    pub fn on_command(&mut self, id: u16, cmd: &str) -> (a: ProxyAction<G>)
        ensures
            (final(self)@, a) == old(self)@.on_command(id, cmd@),
    {
        if id != self.id {
            return ProxyAction::Ignore;
        }
        match Command::parse(cmd) {
            Some(Command::Compute) => {
                if self.state == ProxyState::Wait {
                    self.state = ProxyState::Compute;
                    ProxyAction::Compute
                } else {
                    ProxyAction::Ignore
                }
            },
            Some(Command::Send) => {
                if self.state == ProxyState::Compute {
                    self.state = ProxyState::Send;
                    let avg = self.avg_gradient.take();
                    self.accumulator.reset();
                    self.state = ProxyState::Wait;
                    ProxyAction::Send(avg)
                } else {
                    ProxyAction::Ignore
                }
            },
            None => ProxyAction::Ignore,
        }
    }

    /// Keeps the average just computed, in place of any earlier one.
    pub fn store_average(&mut self, avg: G)
        ensures
            final(self)@ == (ParamServerProxyView { avg_gradient: Some(avg), ..old(self)@ }),
    {
        self.avg_gradient = Some(avg);
    }

    /// The gradients gathered this cycle.
    pub fn accumulator(&self) -> (r: &Accumulator<G>)
        ensures
            r.grs@ == self@.gradients,
            r.total_collected == self@.total_collected,
    {
        &self.accumulator
    }

    /// The proxy's identifier.
    pub fn id(&self) -> (r: u16)
        ensures
            r == self@.id,
    {
        self.id
    }

    /// The number of workers whose gradients make a complete set.
    pub fn num_workers(&self) -> (r: u16)
        ensures
            r == self@.num_workers,
    {
        self.num_workers
    }

    /// Where the proxy stands in its round.
    pub fn state(&self) -> (r: ProxyState)
        ensures
            r == self@.state,
    {
        self.state
    }
}

/// Gathering gradients appends them in order of arrival and counts each
/// one, leaving everything else as it was.
pub proof fn lemma_gather<G>(v: ParamServerProxyView<G>, grads: Seq<G>)
    ensures
        v.gather(grads).gradients == v.gradients + grads,
        v.gather(grads).total_collected == v.total_collected + grads.len(),
        v.gather(grads).id == v.id,
        v.gather(grads).state == v.state,
        v.gather(grads).num_workers == v.num_workers,
        v.gather(grads).avg_gradient == v.avg_gradient,
    decreases grads.len(),
{
    if grads.len() > 0 {
        lemma_gather(v, grads.drop_last());
        assert(v.gradients + grads.drop_last().push(grads.last()) =~= v.gradients + grads);
    }
}

/// From an empty proxy, of the gradients that arrive one by one, exactly
/// the one that completes `num_workers` gradients reports the set as
/// received.
pub proof fn lemma_ready_exactly_once<G>(v: ParamServerProxyView<G>, grads: Seq<G>, i: int)
    requires
        v.total_collected == 0,
        0 <= i < grads.len(),
    ensures
        v.gather(grads.take(i)).on_gradient(grads[i]).1 == (i + 1 == v.num_workers),
{
    lemma_gather(v, grads.take(i));
}

/// Every step keeps the count of gathered gradients in agreement with the
/// gradients held.
pub proof fn lemma_param_proxy_wf<G>(v: ParamServerProxyView<G>, grad: G, id: u16, cmd: Seq<char>)
    requires
        v.wf(),
    ensures
        v.on_gradient(grad).0.wf(),
        v.on_command(id, cmd).0.wf(),
        (ParamServerProxyView { avg_gradient: Some(grad), ..v }).wf(),
{
}

/// A waiting proxy that is told to compute, is handed the average, and is
/// then told to send, sends exactly that average and waits again with
/// nothing gathered and no average held.
pub proof fn lemma_param_proxy_round<G>(v: ParamServerProxyView<G>, avg: G)
    requires
        v.state == ProxyState::Wait,
    ensures
        ({
            let (computing, first) = v.on_command(v.id, command_text(Command::Compute));
            let holding = ParamServerProxyView { avg_gradient: Some(avg), ..computing };
            let (done, second) = holding.on_command(v.id, command_text(Command::Send));
            &&& first == ProxyAction::<G>::Compute
            &&& second == ProxyAction::Send(Some(avg))
            &&& done == ParamServerProxyView::<G> {
                id: v.id,
                state: ProxyState::Wait,
                num_workers: v.num_workers,
                gradients: Seq::empty(),
                total_collected: 0,
                avg_gradient: None,
            }
        }),
{
    lemma_command_round_trip(Command::Compute);
    lemma_command_round_trip(Command::Send);
}

/// What a gradient does to a parameter-server proxy: it is appended to the
/// gathered gradients and counted, nothing else changes, and the set is
/// reported complete exactly when the new count equals the number of
/// workers.
pub proof fn lemma_param_proxy_gradient<G>(v: ParamServerProxyView<G>, grad: G)
    ensures
        v.on_gradient(grad) == (
            ParamServerProxyView {
                id: v.id,
                state: v.state,
                num_workers: v.num_workers,
                gradients: v.gradients.push(grad),
                total_collected: v.total_collected + 1,
                avg_gradient: v.avg_gradient,
            },
            v.total_collected + 1 == v.num_workers,
        ),
{
}

/// What a parameter-server proxy does with each command. A command
/// addressed to another proxy, or a text that is neither "compute" nor
/// "send", changes nothing. "compute" while waiting moves the proxy to
/// computing and keeps the gathered gradients, their count and any average,
/// so that the average is taken over what was gathered; "send" after
/// computing hands out the stored average, drops the gathered gradients and
/// leaves the proxy waiting with no average; either one at any other time
/// changes nothing.
pub proof fn lemma_param_proxy_commands<G>(v: ParamServerProxyView<G>, id: u16, cmd: Seq<char>)
    ensures
        id != v.id ==> v.on_command(id, cmd) == (v, ProxyAction::<G>::Ignore),
        (cmd != "compute"@ && cmd != "send"@) ==> v.on_command(id, cmd) == (
            v,
            ProxyAction::<G>::Ignore,
        ),
        (id == v.id && cmd == "compute"@ && v.state == ProxyState::Wait) ==> v.on_command(id, cmd)
            == (
            ParamServerProxyView {
                id: v.id,
                state: ProxyState::Compute,
                num_workers: v.num_workers,
                gradients: v.gradients,
                total_collected: v.total_collected,
                avg_gradient: v.avg_gradient,
            },
            ProxyAction::<G>::Compute,
        ),
        (id == v.id && cmd == "compute"@ && v.state != ProxyState::Wait) ==> v.on_command(id, cmd)
            == (v, ProxyAction::<G>::Ignore),
        (id == v.id && cmd == "send"@ && v.state == ProxyState::Compute) ==> v.on_command(id, cmd)
            == (
            ParamServerProxyView::<G> {
                id: v.id,
                state: ProxyState::Wait,
                num_workers: v.num_workers,
                gradients: Seq::empty(),
                total_collected: 0,
                avg_gradient: None,
            },
            ProxyAction::Send(v.avg_gradient),
        ),
        (id == v.id && cmd == "send"@ && v.state != ProxyState::Compute) ==> v.on_command(id, cmd)
            == (v, ProxyAction::<G>::Ignore),
{
    lemma_command_vocabulary(cmd);
}

} // verus!

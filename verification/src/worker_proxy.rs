use vstd::prelude::*;

use crate::protocol::{
    Command,
    command_of,
    command_text,
    lemma_command_round_trip,
    lemma_command_vocabulary,
};

verus! {

/// Where a proxy stands in its compute-then-send round.
#[derive(Clone, Copy, Debug, PartialEq, Eq, Structural)]
pub enum ProxyState {
    Wait,
    Compute,
    Send,
}

/// What a proxy's owner must do after the proxy took a command.
#[derive(Debug)]
pub enum ProxyAction<G> {
    /// Nothing: the command was not for this proxy, or not expected now.
    Ignore,
    /// Produce the gradient, hand it back to the proxy, then report that
    /// computing is done.
    Compute,
    /// Send the given gradient, if there is one, then report that sending
    /// is done.
    Send(Option<G>),
}

/// A worker proxy as a mathematical value.
pub struct WorkerProxyView<G> {
    pub id: u16,
    pub state: ProxyState,
    pub gradient: Option<G>,
}

impl<G> WorkerProxyView<G> {
    /// The proxy after taking `cmd`, addressed to `id`, and what its owner
    /// must do. `compute` is taken only while waiting, `send` only after
    /// computing; sending hands out the held gradient, and the proxy waits
    /// again.
    pub open spec fn on_command(self, id: u16, cmd: Seq<char>) -> (WorkerProxyView<G>, ProxyAction<G>) {
        if id != self.id {
            (self, ProxyAction::Ignore)
        } else if command_of(cmd) == Some(Command::Compute) && self.state == ProxyState::Wait {
            (WorkerProxyView { state: ProxyState::Compute, ..self }, ProxyAction::Compute)
        } else if command_of(cmd) == Some(Command::Send) && self.state == ProxyState::Compute {
            (
                WorkerProxyView { state: ProxyState::Wait, gradient: None, ..self },
                ProxyAction::Send(self.gradient),
            )
        } else {
            (self, ProxyAction::Ignore)
        }
    }
}

/// The proxy that carries a worker's gradient from computation to the
/// parameter servers.
pub struct WorkerProxy<G> {
    id: u16,
    state: ProxyState,
    gradient: Option<G>,
}

impl<G> View for WorkerProxy<G> {
    type V = WorkerProxyView<G>;

    closed spec fn view(&self) -> WorkerProxyView<G> {
        WorkerProxyView { id: self.id, state: self.state, gradient: self.gradient }
    }
}

impl<G> WorkerProxy<G> {
    /// A waiting proxy with no gradient.
    pub fn new(id: u16) -> (r: WorkerProxy<G>)
        ensures
            r@ == (WorkerProxyView::<G> { id, state: ProxyState::Wait, gradient: None }),
    {
        WorkerProxy { id, state: ProxyState::Wait, gradient: None }
    }

    /// Takes a command that the worker passed on.
    pub fn on_command(&mut self, id: u16, cmd: &str) -> (a: ProxyAction<G>)
        ensures
            (final(self)@, a) == old(self)@.on_command(id, cmd@),
    {
        if id != self.id {
            return ProxyAction::Ignore;
        }
        match Command::parse(cmd) {
            Some(Command::Compute) => {
                if self.state == ProxyState::Wait {
                    self.state = ProxyState::Compute;
                    ProxyAction::Compute
                } else {
                    ProxyAction::Ignore
                }
            },
            Some(Command::Send) => {
                if self.state == ProxyState::Compute {
                    self.state = ProxyState::Send;
                    let grad = self.gradient.take();
                    self.state = ProxyState::Wait;
                    ProxyAction::Send(grad)
                } else {
                    ProxyAction::Ignore
                }
            },
            None => ProxyAction::Ignore,
        }
    }

    /// Keeps the gradient just computed, in place of any earlier one.
    pub fn store_gradient(&mut self, grad: G)
        ensures
            final(self)@ == (WorkerProxyView { gradient: Some(grad), ..old(self)@ }),
    {
        self.gradient = Some(grad);
    }

    /// The proxy's identifier.
    pub fn id(&self) -> (r: u16)
        ensures
            r == self@.id,
    {
        self.id
    }

    /// Where the proxy stands in its round.
    pub fn state(&self) -> (r: ProxyState)
        ensures
            r == self@.state,
    {
        self.state
    }
}

/// A waiting proxy that is told to compute, is handed a gradient, and is
/// then told to send, sends exactly that gradient and waits again with no
/// gradient held.
pub proof fn lemma_worker_proxy_round<G>(v: WorkerProxyView<G>, grad: G)
    requires
        v.state == ProxyState::Wait,
    ensures
        ({
            let (computing, first) = v.on_command(v.id, command_text(Command::Compute));
            let holding = WorkerProxyView { gradient: Some(grad), ..computing };
            let (done, second) = holding.on_command(v.id, command_text(Command::Send));
            &&& first == ProxyAction::<G>::Compute
            &&& second == ProxyAction::Send(Some(grad))
            &&& done == WorkerProxyView::<G> { id: v.id, state: ProxyState::Wait, gradient: None }
        }),
{
    lemma_command_round_trip(Command::Compute);
    lemma_command_round_trip(Command::Send);
}

/// A proxy computes only when told while waiting, and sends only when told
/// after computing; any other command, or one addressed to another proxy,
/// changes nothing. A proxy that is not mid-send never comes to rest in
/// the sending state.
pub proof fn lemma_worker_proxy_order<G>(v: WorkerProxyView<G>, id: u16, cmd: Seq<char>)
    ensures
        v.on_command(id, cmd).1 is Compute ==> id == v.id && v.state == ProxyState::Wait,
        v.on_command(id, cmd).1 is Send ==> id == v.id && v.state == ProxyState::Compute,
        v.on_command(id, cmd).1 is Ignore ==> v.on_command(id, cmd).0 == v,
        v.state != ProxyState::Send ==> v.on_command(id, cmd).0.state != ProxyState::Send,
{
}

/// What a worker proxy does with each command. A command addressed to
/// another proxy, or a text that is neither "compute" nor "send", changes
/// nothing. "compute" while waiting moves the proxy to computing and keeps
/// whatever it holds; "send" after computing hands out the held gradient
/// and leaves the proxy waiting with none; either one at any other time
/// changes nothing.
pub proof fn lemma_worker_proxy_commands<G>(v: WorkerProxyView<G>, id: u16, cmd: Seq<char>)
    ensures
        id != v.id ==> v.on_command(id, cmd) == (v, ProxyAction::<G>::Ignore),
        (cmd != "compute"@ && cmd != "send"@) ==> v.on_command(id, cmd) == (
            v,
            ProxyAction::<G>::Ignore,
        ),
        (id == v.id && cmd == "compute"@ && v.state == ProxyState::Wait) ==> v.on_command(id, cmd)
            == (
            WorkerProxyView { id: v.id, state: ProxyState::Compute, gradient: v.gradient },
            ProxyAction::<G>::Compute,
        ),
        (id == v.id && cmd == "compute"@ && v.state != ProxyState::Wait) ==> v.on_command(id, cmd)
            == (v, ProxyAction::<G>::Ignore),
        (id == v.id && cmd == "send"@ && v.state == ProxyState::Compute) ==> v.on_command(id, cmd)
            == (
            WorkerProxyView::<G> { id: v.id, state: ProxyState::Wait, gradient: None },
            ProxyAction::Send(v.gradient),
        ),
        (id == v.id && cmd == "send"@ && v.state != ProxyState::Compute) ==> v.on_command(id, cmd)
            == (v, ProxyAction::<G>::Ignore),
{
    lemma_command_vocabulary(cmd);
}

} // verus!

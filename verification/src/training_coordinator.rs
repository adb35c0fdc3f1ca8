use vstd::prelude::*;

use crate::protocol::{Command, Report, report_of};

verus! {

/// The stage of a training cycle that the coordinator is waiting on.
#[derive(Clone, Copy, Debug, PartialEq, Eq, Structural)]
pub enum CoordinatorState {
    Initializing,
    WorkersComputing,
    WorkersSending,
    ParamServersReceiving,
    ParamServersComputing,
    ParamServersSending,
}

/// Who a broadcast goes to: every worker, or every parameter server.
#[derive(Clone, Copy, Debug, PartialEq, Eq, Structural)]
pub enum Target {
    Workers,
    ParamServers,
}

/// A command that the coordinator broadcasts to one group.
#[derive(Clone, Copy, Debug, PartialEq, Eq, Structural)]
pub struct Broadcast {
    pub target: Target,
    pub command: Command,
}

/// The coordinator as a mathematical value: its stage, its configuration,
/// one counter per kind of report, and the number of completed cycles.
pub struct CoordinatorView {
    pub state: CoordinatorState,
    pub num_workers: int,
    pub num_param_servers: int,
    pub max_cycles: int,
    pub workers_waited: int,
    pub workers_compute_done: int,
    pub workers_send_done: int,
    pub param_servers_waited: int,
    pub param_servers_receive_done: int,
    pub param_servers_compute_done: int,
    pub param_servers_send_done: int,
    pub cycle: int,
}

pub open spec fn broadcast(target: Target, command: Command) -> Seq<Broadcast> {
    seq![Broadcast { target, command }]
}

/// Position of a stage in the cycle.
pub open spec fn stage_index(s: CoordinatorState) -> int {
    match s {
        CoordinatorState::Initializing => 0,
        CoordinatorState::WorkersComputing => 1,
        CoordinatorState::WorkersSending => 2,
        CoordinatorState::ParamServersReceiving => 3,
        CoordinatorState::ParamServersComputing => 4,
        CoordinatorState::ParamServersSending => 5,
    }
}

impl CoordinatorView {
    /// The counter that a report adds to.
    pub open spec fn counter(self, r: Report) -> int {
        match r {
            Report::WorkerWait => self.workers_waited,
            Report::WorkerComputeDone => self.workers_compute_done,
            Report::WorkerSendDone => self.workers_send_done,
            Report::ParamServerWait => self.param_servers_waited,
            Report::ParamServerReceiveDone => self.param_servers_receive_done,
            Report::ParamServerComputeDone => self.param_servers_compute_done,
            Report::ParamServerSendDone => self.param_servers_send_done,
        }
    }

    /// The coordinator with one more report of the given kind counted.
    pub open spec fn bump(self, r: Report) -> CoordinatorView {
        match r {
            Report::WorkerWait => CoordinatorView { workers_waited: self.workers_waited + 1, ..self },
            Report::WorkerComputeDone => CoordinatorView {
                workers_compute_done: self.workers_compute_done + 1,
                ..self
            },
            Report::WorkerSendDone => CoordinatorView {
                workers_send_done: self.workers_send_done + 1,
                ..self
            },
            Report::ParamServerWait => CoordinatorView {
                param_servers_waited: self.param_servers_waited + 1,
                ..self
            },
            Report::ParamServerReceiveDone => CoordinatorView {
                param_servers_receive_done: self.param_servers_receive_done + 1,
                ..self
            },
            Report::ParamServerComputeDone => CoordinatorView {
                param_servers_compute_done: self.param_servers_compute_done + 1,
                ..self
            },
            Report::ParamServerSendDone => CoordinatorView {
                param_servers_send_done: self.param_servers_send_done + 1,
                ..self
            },
        }
    }

    /// One check of the current stage's completion condition. `None` when the
    /// condition does not hold. Otherwise the counters that the condition
    /// consumed are reset, and the result holds the new coordinator, what it
    /// broadcasts, and whether it moved to another stage (so that the next
    /// stage's condition is checked in turn).
    pub open spec fn step(self) -> Option<(CoordinatorView, Seq<Broadcast>, bool)> {
        match self.state {
            CoordinatorState::Initializing => {
                if self.workers_waited >= self.num_workers && self.param_servers_waited
                    >= self.num_param_servers {
                    Some(
                        (
                            CoordinatorView {
                                workers_waited: 0,
                                param_servers_waited: 0,
                                state: CoordinatorState::WorkersComputing,
                                ..self
                            },
                            broadcast(Target::Workers, Command::Compute),
                            true,
                        ),
                    )
                } else {
                    None
                }
            },
            CoordinatorState::WorkersComputing => {
                if self.workers_compute_done >= self.num_workers {
                    Some(
                        (
                            CoordinatorView {
                                workers_compute_done: 0,
                                state: CoordinatorState::WorkersSending,
                                ..self
                            },
                            broadcast(Target::Workers, Command::Send),
                            true,
                        ),
                    )
                } else {
                    None
                }
            },
            CoordinatorState::WorkersSending => {
                if self.workers_send_done >= self.num_workers {
                    Some(
                        (
                            CoordinatorView {
                                workers_send_done: 0,
                                state: CoordinatorState::ParamServersReceiving,
                                ..self
                            },
                            Seq::empty(),
                            true,
                        ),
                    )
                } else {
                    None
                }
            },
            CoordinatorState::ParamServersReceiving => {
                if self.param_servers_receive_done >= self.num_param_servers {
                    Some(
                        (
                            CoordinatorView {
                                param_servers_receive_done: 0,
                                state: CoordinatorState::ParamServersComputing,
                                ..self
                            },
                            broadcast(Target::ParamServers, Command::Compute),
                            true,
                        ),
                    )
                } else {
                    None
                }
            },
            CoordinatorState::ParamServersComputing => {
                if self.param_servers_compute_done >= self.num_param_servers {
                    Some(
                        (
                            CoordinatorView {
                                param_servers_compute_done: 0,
                                state: CoordinatorState::ParamServersSending,
                                ..self
                            },
                            broadcast(Target::ParamServers, Command::Send),
                            true,
                        ),
                    )
                } else {
                    None
                }
            },
            CoordinatorState::ParamServersSending => {
                if self.param_servers_send_done >= self.num_param_servers {
                    if self.cycle + 1 < self.max_cycles {
                        Some(
                            (
                                CoordinatorView {
                                    param_servers_send_done: 0,
                                    cycle: self.cycle + 1,
                                    state: CoordinatorState::WorkersComputing,
                                    ..self
                                },
                                broadcast(Target::Workers, Command::Compute),
                                true,
                            ),
                        )
                    } else {
                        Some(
                            (
                                CoordinatorView {
                                    param_servers_send_done: 0,
                                    cycle: self.cycle + 1,
                                    ..self
                                },
                                Seq::empty(),
                                false,
                            ),
                        )
                    }
                } else {
                    None
                }
            },
        }
    }

    /// A measure that every stage change lowers: the remaining cycles,
    /// then the position in the cycle.
    pub open spec fn progress(self) -> nat {
        let rounds: int = if self.cycle < self.max_cycles {
            self.max_cycles - self.cycle
        } else {
            0
        };
        (6 * rounds + 6 - stage_index(self.state)) as nat
    }

    /// The coordinator after checking stage conditions until one fails or
    /// the last cycle has been counted, with everything it broadcast on the
    /// way, in order.
    pub open spec fn settle(self) -> (CoordinatorView, Seq<Broadcast>)
        decreases self.progress(),
    {
        match self.step() {
            None => (self, Seq::empty()),
            Some((next, sent, go_on)) => {
                if go_on {
                    let (last, rest) = next.settle();
                    (last, sent + rest)
                } else {
                    (next, sent)
                }
            },
        }
    }
}

/// Each stage change lowers the progress measure.
pub proof fn lemma_step_progress(v: CoordinatorView)
    ensures
        v.step() matches Some((w, _, go_on)) ==> (go_on ==> w.progress() < v.progress()),
{
}

/// Checking stage conditions never lowers the cycle count, and keeps the
/// configuration.
pub proof fn lemma_settle_keeps_config(v: CoordinatorView)
    ensures
        v.settle().0.cycle >= v.cycle,
        v.settle().0.num_workers == v.num_workers,
        v.settle().0.num_param_servers == v.num_param_servers,
        v.settle().0.max_cycles == v.max_cycles,
    decreases v.progress(),
{
    if let Some((w, _, go_on)) = v.step() {
        if go_on {
            lemma_settle_keeps_config(w);
        }
    }
}

/// A stage waits until its own reports are all in: while fewer of them are
/// counted than there are components that owe them, checking the stage
/// conditions broadcasts nothing and leaves the coordinator as it is.
/// Workers are told to compute only once every worker and every parameter
/// server reported ready, to send only once every worker computed; the
/// parameter servers are told to compute only once each of them received
/// its gradients, to send only once each computed; a cycle ends only once
/// each parameter server sent.
pub proof fn lemma_stage_waits(v: CoordinatorView)
    ensures
        (v.state == CoordinatorState::Initializing && (v.workers_waited < v.num_workers
            || v.param_servers_waited < v.num_param_servers)) ==> v.settle() == (
            v,
            Seq::<Broadcast>::empty(),
        ),
        (v.state == CoordinatorState::WorkersComputing && v.workers_compute_done
            < v.num_workers) ==> v.settle() == (v, Seq::<Broadcast>::empty()),
        (v.state == CoordinatorState::WorkersSending && v.workers_send_done < v.num_workers)
            ==> v.settle() == (v, Seq::<Broadcast>::empty()),
        (v.state == CoordinatorState::ParamServersReceiving && v.param_servers_receive_done
            < v.num_param_servers) ==> v.settle() == (v, Seq::<Broadcast>::empty()),
        (v.state == CoordinatorState::ParamServersComputing && v.param_servers_compute_done
            < v.num_param_servers) ==> v.settle() == (v, Seq::<Broadcast>::empty()),
        (v.state == CoordinatorState::ParamServersSending && v.param_servers_send_done
            < v.num_param_servers) ==> v.settle() == (v, Seq::<Broadcast>::empty()),
{
}

/// Once a stage's reports are all in, the coordinator consumes them (their
/// counters, and only theirs, go back to zero), moves to the next stage and
/// broadcasts what that stage needs, then goes on checking from there:
/// - ready reports from all: workers are told to compute;
/// - all workers computed: workers are told to send;
/// - all workers sent: nothing is broadcast, the parameter servers are
///   awaited;
/// - all parameter servers received: they are told to compute;
/// - all parameter servers computed: they are told to send;
/// - all parameter servers sent: one more cycle is counted and, while
///   cycles remain, workers are told to compute again; after the last
///   cycle the coordinator stops there and broadcasts nothing.
pub proof fn lemma_stage_advances(v: CoordinatorView)
    ensures
        (v.state == CoordinatorState::Initializing && v.workers_waited >= v.num_workers
            && v.param_servers_waited >= v.num_param_servers) ==> ({
            let n = CoordinatorView {
                workers_waited: 0,
                param_servers_waited: 0,
                state: CoordinatorState::WorkersComputing,
                ..v
            };
            v.settle() == (
                n.settle().0,
                seq![Broadcast { target: Target::Workers, command: Command::Compute }] + n.settle().1,
            )
        }),
        (v.state == CoordinatorState::WorkersComputing && v.workers_compute_done
            >= v.num_workers) ==> ({
            let n = CoordinatorView {
                workers_compute_done: 0,
                state: CoordinatorState::WorkersSending,
                ..v
            };
            v.settle() == (
                n.settle().0,
                seq![Broadcast { target: Target::Workers, command: Command::Send }] + n.settle().1,
            )
        }),
        (v.state == CoordinatorState::WorkersSending && v.workers_send_done >= v.num_workers)
            ==> ({
            let n = CoordinatorView {
                workers_send_done: 0,
                state: CoordinatorState::ParamServersReceiving,
                ..v
            };
            v.settle() == n.settle()
        }),
        (v.state == CoordinatorState::ParamServersReceiving && v.param_servers_receive_done
            >= v.num_param_servers) ==> ({
            let n = CoordinatorView {
                param_servers_receive_done: 0,
                state: CoordinatorState::ParamServersComputing,
                ..v
            };
            v.settle() == (
                n.settle().0,
                seq![Broadcast { target: Target::ParamServers, command: Command::Compute }]
                    + n.settle().1,
            )
        }),
        (v.state == CoordinatorState::ParamServersComputing && v.param_servers_compute_done
            >= v.num_param_servers) ==> ({
            let n = CoordinatorView {
                param_servers_compute_done: 0,
                state: CoordinatorState::ParamServersSending,
                ..v
            };
            v.settle() == (
                n.settle().0,
                seq![Broadcast { target: Target::ParamServers, command: Command::Send }]
                    + n.settle().1,
            )
        }),
        (v.state == CoordinatorState::ParamServersSending && v.param_servers_send_done
            >= v.num_param_servers && v.cycle + 1 < v.max_cycles) ==> ({
            let n = CoordinatorView {
                param_servers_send_done: 0,
                cycle: v.cycle + 1,
                state: CoordinatorState::WorkersComputing,
                ..v
            };
            v.settle() == (
                n.settle().0,
                seq![Broadcast { target: Target::Workers, command: Command::Compute }] + n.settle().1,
            )
        }),
        (v.state == CoordinatorState::ParamServersSending && v.param_servers_send_done
            >= v.num_param_servers && v.cycle + 1 >= v.max_cycles) ==> v.settle() == (
            CoordinatorView { param_servers_send_done: 0, cycle: v.cycle + 1, ..v },
            Seq::<Broadcast>::empty(),
        ),
{
    if v.state == CoordinatorState::WorkersSending && v.workers_send_done >= v.num_workers {
        let n = CoordinatorView {
            workers_send_done: 0,
            state: CoordinatorState::ParamServersReceiving,
            ..v
        };
        assert(Seq::<Broadcast>::empty() + n.settle().1 =~= n.settle().1);
    }
}

/// A report adds one to its own counter and changes nothing else: ready,
/// computed and sent reports of workers and of parameter servers, and the
/// parameter servers' received reports, each have a counter of their own.
pub proof fn lemma_bump_counts_one(v: CoordinatorView)
    ensures
        v.bump(Report::WorkerWait) == (CoordinatorView {
            workers_waited: v.workers_waited + 1,
            ..v
        }),
        v.bump(Report::WorkerComputeDone) == (CoordinatorView {
            workers_compute_done: v.workers_compute_done + 1,
            ..v
        }),
        v.bump(Report::WorkerSendDone) == (CoordinatorView {
            workers_send_done: v.workers_send_done + 1,
            ..v
        }),
        v.bump(Report::ParamServerWait) == (CoordinatorView {
            param_servers_waited: v.param_servers_waited + 1,
            ..v
        }),
        v.bump(Report::ParamServerReceiveDone) == (CoordinatorView {
            param_servers_receive_done: v.param_servers_receive_done + 1,
            ..v
        }),
        v.bump(Report::ParamServerComputeDone) == (CoordinatorView {
            param_servers_compute_done: v.param_servers_compute_done + 1,
            ..v
        }),
        v.bump(Report::ParamServerSendDone) == (CoordinatorView {
            param_servers_send_done: v.param_servers_send_done + 1,
            ..v
        }),
        v.counter(Report::WorkerWait) == v.workers_waited,
        v.counter(Report::WorkerComputeDone) == v.workers_compute_done,
        v.counter(Report::WorkerSendDone) == v.workers_send_done,
        v.counter(Report::ParamServerWait) == v.param_servers_waited,
        v.counter(Report::ParamServerReceiveDone) == v.param_servers_receive_done,
        v.counter(Report::ParamServerComputeDone) == v.param_servers_compute_done,
        v.counter(Report::ParamServerSendDone) == v.param_servers_send_done,
{
}

/// After the stage conditions have been checked, none of them holds any
/// longer: the coordinator rests where its current stage still waits for
/// reports, except that it may rest in the last stage once all its cycles
/// are counted.
pub proof fn lemma_settle_quiescent(v: CoordinatorView)
    ensures
        v.settle().0.step() is None || (v.settle().0.state
            == CoordinatorState::ParamServersSending && v.settle().0.cycle
            >= v.settle().0.max_cycles),
    decreases v.progress(),
{
    if let Some((w, _, go_on)) = v.step() {
        if go_on {
            lemma_settle_quiescent(w);
        }
    }
}

/// Checking stage conditions changes a report counter only by resetting
/// it to zero when its stage consumes it: no report is counted twice, and
/// none is dropped except by being consumed.
pub proof fn lemma_settle_counters(v: CoordinatorView, r: Report)
    ensures
        v.settle().0.counter(r) == v.counter(r) || v.settle().0.counter(r) == 0,
    decreases v.progress(),
{
    if let Some((w, _, go_on)) = v.step() {
        if go_on {
            lemma_settle_counters(w, r);
        }
    }
}

/// While cycles remain to be run, handling reports never counts more
/// completed cycles than the coordinator was set to run.
pub proof fn lemma_settle_stops_at_max_cycles(v: CoordinatorView)
    requires
        v.cycle < v.max_cycles,
    ensures
        v.settle().0.cycle <= v.max_cycles,
    decreases v.progress(),
{
    if let Some((w, _, go_on)) = v.step() {
        if go_on {
            lemma_settle_stops_at_max_cycles(w);
        }
    }
}

/// Checking stage conditions counts at most one cycle beyond the larger of
/// the current count and the number of cycles to run.
pub proof fn lemma_settle_cycle_bound(v: CoordinatorView)
    ensures
        v.settle().0.cycle <= if v.cycle < v.max_cycles {
            v.max_cycles
        } else {
            v.cycle + 1
        },
    decreases v.progress(),
{
    if let Some((w, _, go_on)) = v.step() {
        if go_on {
            lemma_settle_cycle_bound(w);
        }
    }
}

/// The coordinator state machine, with its per-report counters. The
/// channels it talks over belong to the caller: `handle_message` returns
/// what to broadcast.
pub struct TrainingCoordinator {
    state: CoordinatorState,
    num_workers: u16,
    num_param_servers: u16,
    max_cycles: u32,
    workers_waited: u16,
    workers_compute_done: u16,
    workers_send_done: u16,
    param_servers_waited: u16,
    param_servers_receive_done: u16,
    param_servers_compute_done: u16,
    param_servers_send_done: u16,
    cycle: u32,
}

impl View for TrainingCoordinator {
    type V = CoordinatorView;

    closed spec fn view(&self) -> CoordinatorView {
        CoordinatorView {
            state: self.state,
            num_workers: self.num_workers as int,
            num_param_servers: self.num_param_servers as int,
            max_cycles: self.max_cycles as int,
            workers_waited: self.workers_waited as int,
            workers_compute_done: self.workers_compute_done as int,
            workers_send_done: self.workers_send_done as int,
            param_servers_waited: self.param_servers_waited as int,
            param_servers_receive_done: self.param_servers_receive_done as int,
            param_servers_compute_done: self.param_servers_compute_done as int,
            param_servers_send_done: self.param_servers_send_done as int,
            cycle: self.cycle as int,
        }
    }
}

impl TrainingCoordinator {
    /// A coordinator for four workers and two parameter servers that runs
    /// three cycles, waiting for every component to report ready.
    pub fn new() -> (r: TrainingCoordinator)
        ensures
            r@ == (CoordinatorView {
                state: CoordinatorState::Initializing,
                num_workers: 4,
                num_param_servers: 2,
                max_cycles: 3,
                workers_waited: 0,
                workers_compute_done: 0,
                workers_send_done: 0,
                param_servers_waited: 0,
                param_servers_receive_done: 0,
                param_servers_compute_done: 0,
                param_servers_send_done: 0,
                cycle: 0,
            }),
    {
        TrainingCoordinator {
            state: CoordinatorState::Initializing,
            num_workers: 4,
            num_param_servers: 2,
            max_cycles: 3,
            workers_waited: 0,
            workers_compute_done: 0,
            workers_send_done: 0,
            param_servers_waited: 0,
            param_servers_receive_done: 0,
            param_servers_compute_done: 0,
            param_servers_send_done: 0,
            cycle: 0,
        }
    }

    /// Counts one report.
    fn record(&mut self, r: Report)
        requires
            old(self)@.counter(r) < u16::MAX,
        ensures
            final(self)@ == old(self)@.bump(r),
    {
        match r {
            Report::WorkerWait => self.workers_waited = self.workers_waited + 1,
            Report::WorkerComputeDone => self.workers_compute_done = self.workers_compute_done + 1,
            Report::WorkerSendDone => self.workers_send_done = self.workers_send_done + 1,
            Report::ParamServerWait => self.param_servers_waited = self.param_servers_waited + 1,
            Report::ParamServerReceiveDone => {
                self.param_servers_receive_done = self.param_servers_receive_done + 1
            },
            Report::ParamServerComputeDone => {
                self.param_servers_compute_done = self.param_servers_compute_done + 1
            },
            Report::ParamServerSendDone => {
                self.param_servers_send_done = self.param_servers_send_done + 1
            },
        }
    }

    /// Checks the current stage's completion condition once, appending
    /// what it broadcasts to `out`.
    fn advance(&mut self, out: &mut Vec<Broadcast>) -> (go_on: bool)
        requires
            old(self)@.step() matches Some((w, _, _)) ==> w.cycle <= u32::MAX,
        ensures
            match old(self)@.step() {
                None => final(self)@ == old(self)@ && final(out)@ == old(out)@ && !go_on,
                Some((w, sent, g)) => final(self)@ == w && final(out)@ == old(out)@ + sent
                    && go_on == g,
            },
    {
        match self.state {
            CoordinatorState::Initializing => {
                if self.workers_waited >= self.num_workers && self.param_servers_waited
                    >= self.num_param_servers {
                    self.workers_waited = 0;
                    self.param_servers_waited = 0;
                    out.push(Broadcast { target: Target::Workers, command: Command::Compute });
                    self.state = CoordinatorState::WorkersComputing;
                    true
                } else {
                    false
                }
            },
            CoordinatorState::WorkersComputing => {
                if self.workers_compute_done >= self.num_workers {
                    self.workers_compute_done = 0;
                    out.push(Broadcast { target: Target::Workers, command: Command::Send });
                    self.state = CoordinatorState::WorkersSending;
                    true
                } else {
                    false
                }
            },
            CoordinatorState::WorkersSending => {
                if self.workers_send_done >= self.num_workers {
                    self.workers_send_done = 0;
                    self.state = CoordinatorState::ParamServersReceiving;
                    proof {
                        assert(out@ =~= old(out)@ + Seq::<Broadcast>::empty());
                    }
                    true
                } else {
                    false
                }
            },
            CoordinatorState::ParamServersReceiving => {
                if self.param_servers_receive_done >= self.num_param_servers {
                    self.param_servers_receive_done = 0;
                    out.push(Broadcast { target: Target::ParamServers, command: Command::Compute });
                    self.state = CoordinatorState::ParamServersComputing;
                    true
                } else {
                    false
                }
            },
            CoordinatorState::ParamServersComputing => {
                if self.param_servers_compute_done >= self.num_param_servers {
                    self.param_servers_compute_done = 0;
                    out.push(Broadcast { target: Target::ParamServers, command: Command::Send });
                    self.state = CoordinatorState::ParamServersSending;
                    true
                } else {
                    false
                }
            },
            CoordinatorState::ParamServersSending => {
                if self.param_servers_send_done >= self.num_param_servers {
                    self.param_servers_send_done = 0;
                    self.cycle = self.cycle + 1;
                    if self.cycle < self.max_cycles {
                        out.push(Broadcast { target: Target::Workers, command: Command::Compute });
                        self.state = CoordinatorState::WorkersComputing;
                        true
                    } else {
                        proof {
                            assert(out@ =~= old(out)@ + Seq::<Broadcast>::empty());
                        }
                        false
                    }
                } else {
                    false
                }
            },
        }
    }

    /// Handles one report from a worker or a parameter server. A report
    /// that names no known reporter and message changes nothing and gives
    /// `None`. Otherwise its counter goes up by one, and stage conditions
    /// are checked in turn, since reports may have arrived ahead of the
    /// stage that consumes them: the result lists the broadcasts to make,
    /// in order.
    pub fn handle_message(&mut self, id: u16, message: &str, w_type: &str) -> (r: Option<
        Vec<Broadcast>,
    >)
        requires
            report_of(w_type@, message@) matches Some(k) ==> {
                &&& old(self)@.counter(k) < u16::MAX
                &&& old(self)@.bump(k).settle().0.cycle <= u32::MAX
            },
        ensures
            match report_of(w_type@, message@) {
                None => r is None && final(self)@ == old(self)@,
                Some(k) => r matches Some(sent) && final(self)@ == old(self)@.bump(k).settle().0
                    && sent@ == old(self)@.bump(k).settle().1,
            },
    {
        let report = Report::parse(w_type, message);
        let k = match report {
            None => {
                return None;
            },
            Some(k) => k,
        };
        self.record(k);
        let ghost start = self@;
        let mut out: Vec<Broadcast> = Vec::new();
        assert(out@ + start.settle().1 =~= start.settle().1);
        loop
            invariant_except_break
                start.settle() == (self@.settle().0, out@ + self@.settle().1),
                self@.settle().0.cycle <= u32::MAX,
            ensures
                start.settle() == (self@, out@),
            decreases self@.progress(),
        {
            let ghost before = self@;
            let ghost before_out = out@;
            proof {
                lemma_step_progress(before);
                if let Some((w, sent, go_on)) = before.step() {
                    if go_on {
                        lemma_settle_keeps_config(w);
                    }
                }
            }
            let go_on = self.advance(&mut out);
            proof {
                if let Some((w, sent, g)) = before.step() {
                    if g {
                        assert(before_out + (sent + w.settle().1) =~= (before_out + sent)
                            + w.settle().1);
                    }
                } else {
                    assert(out@ + Seq::<Broadcast>::empty() =~= out@);
                }
            }
            if !go_on {
                break;
            }
        }
        Some(out)
    }

    /// The current count of one kind of report.
    fn count_of(&self, r: Report) -> (c: u16)
        ensures
            c as int == self@.counter(r),
    {
        match r {
            Report::WorkerWait => self.workers_waited,
            Report::WorkerComputeDone => self.workers_compute_done,
            Report::WorkerSendDone => self.workers_send_done,
            Report::ParamServerWait => self.param_servers_waited,
            Report::ParamServerReceiveDone => self.param_servers_receive_done,
            Report::ParamServerComputeDone => self.param_servers_compute_done,
            Report::ParamServerSendDone => self.param_servers_send_done,
        }
    }

    /// Whether `handle_message` can take this report without a counter
    /// running past its integer type: the report's counter is below its
    /// limit and the cycle count is below its own. A `true` answer meets
    /// the requirement of `handle_message`.
    pub fn can_handle(&self, message: &str, w_type: &str) -> (b: bool)
        ensures
            b == (report_of(w_type@, message@) matches Some(k) ==> (self@.counter(k) < u16::MAX
                && self@.cycle < u32::MAX)),
            b ==> (report_of(w_type@, message@) matches Some(k) ==> {
                &&& self@.counter(k) < u16::MAX
                &&& self@.bump(k).settle().0.cycle <= u32::MAX
            }),
    {
        match Report::parse(w_type, message) {
            None => true,
            Some(k) => {
                proof {
                    lemma_settle_cycle_bound(self@.bump(k));
                }
                self.count_of(k) < u16::MAX && self.cycle < u32::MAX
            },
        }
    }

    /// Whether all the cycles the coordinator was set to run are complete.
    pub fn cycles_complete(&self) -> (b: bool)
        ensures
            b == (self@.cycle >= self@.max_cycles),
    {
        self.cycle >= self.max_cycles
    }

    /// The stage the coordinator waits on.
    pub fn state(&self) -> (s: CoordinatorState)
        ensures
            s == self@.state,
    {
        self.state
    }

    /// The number of completed cycles.
    pub fn cycle(&self) -> (c: u32)
        ensures
            c as int == self@.cycle,
    {
        self.cycle
    }

    /// The number of cycles to run.
    pub fn max_cycles(&self) -> (c: u32)
        ensures
            c as int == self@.max_cycles,
    {
        self.max_cycles
    }

    /// The number of workers.
    pub fn num_workers(&self) -> (n: u16)
        ensures
            n as int == self@.num_workers,
    {
        self.num_workers
    }

    /// The number of parameter servers.
    pub fn num_param_servers(&self) -> (n: u16)
        ensures
            n as int == self@.num_param_servers,
    {
        self.num_param_servers
    }
}

} // verus!

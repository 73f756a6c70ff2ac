//! The refresh coordination core: a three-state machine (Idle, Pending,
//! Fetching) between the interface thread and a single background worker.
//! Refresh requests are coalesced — at most one command may queue behind an
//! in-flight fetch — and outcomes travel back in completion order.
//!
//! The surrounding program runs the two real threads and the channels; every
//! decision they take (enqueue, coalesce, consume, forward, exit) is a method
//! of [`RefreshCoordinator`], whose whole behaviour is pinned to the ghost
//! [`CoordModel`] transitions so that the coalescing and ordering guarantees
//! are theorems, not conventions.

use vstd::prelude::*;

use crate::headlines::NewsCardData;
use crate::newsapi::FetchError;

verus! {

/// The command the interface thread sends to the worker.
#[derive(Clone, Copy, Debug, PartialEq, Eq, Structural)]
pub enum Msg {
    /// Perform a refresh now. A unit signal: emissions made while one is
    /// already pending are coalesced.
    Refresh,
}

/// What one fetch cycle produced: the full replacement article list, or the
/// error that ended the cycle.
pub enum FetchOutcome {
    /// The parsed article records, possibly empty. A success always stands
    /// for the whole new view, never an increment.
    Success(Vec<NewsCardData>),
    /// The cycle failed; the visible list is to be left untouched.
    Failure(FetchError),
}

/// Where the coordination machine stands.
#[derive(Clone, Copy, Debug, PartialEq, Eq, Structural)]
pub enum CoordState {
    /// No command pending, no fetch running.
    Idle,
    /// A command has been issued but the worker has not yet consumed it.
    Pending,
    /// The worker is inside a fetch.
    Fetching,
}

/// The mathematical state of the coordinator: what the contracts and the
/// coalescing and ordering laws speak of.
#[verifier::ext_equal]
pub ghost struct CoordModel {
    /// Machine state.
    pub state: CoordState,
    /// Whether one command is buffered behind the in-flight fetch
    /// (the capacity-1 queue; never set outside Fetching).
    pub queued: bool,
    /// Outcomes produced and not yet drained, oldest first.
    pub results: Seq<FetchOutcome>,
    /// Whether the worker loop has been started.
    pub started: bool,
    /// Whether shutdown has been requested.
    pub stopping: bool,
    /// How many fetch cycles have ever begun.
    pub cycles: nat,
}

impl CoordModel {
    /// The coordinator's invariant: a command queues only behind an
    /// in-flight fetch.
    pub open spec fn wf(self) -> bool {
        self.queued ==> self.state is Fetching
    }

    /// Effect of one `requestRefresh`: Idle becomes Pending; Pending stays
    /// (coalesced); Fetching records at most one queued command.
    pub open spec fn refreshed(self) -> Self {
        match self.state {
            CoordState::Idle => CoordModel { state: CoordState::Pending, ..self },
            CoordState::Pending => self,
            CoordState::Fetching => CoordModel { queued: true, ..self },
        }
    }

    /// Effect of `n` consecutive `requestRefresh` calls.
    pub open spec fn refreshed_n(self, n: nat) -> Self
        decreases n,
    {
        if n == 0 {
            self
        } else {
            self.refreshed_n((n - 1) as nat).refreshed()
        }
    }

    /// Effect of the worker consuming a command: Pending becomes Fetching
    /// and a cycle begins; in any other state nothing changes.
    pub open spec fn taken(self) -> Self {
        if self.state is Pending {
            CoordModel { state: CoordState::Fetching, cycles: self.cycles + 1, ..self }
        } else {
            self
        }
    }

    /// Effect of the in-flight fetch completing with outcome `o`: the
    /// outcome is appended to the results, and the queued command — if any —
    /// immediately schedules the next cycle.
    pub open spec fn completed(self, o: FetchOutcome) -> Self {
        CoordModel {
            state: if self.queued { CoordState::Pending } else { CoordState::Idle },
            queued: false,
            results: self.results.push(o),
            ..self
        }
    }

    /// Effect of the interface thread draining the results.
    pub open spec fn drained(self) -> Self {
        CoordModel { results: Seq::empty(), ..self }
    }

    /// Effect of `shutdown`: the worker is asked to exit.
    pub open spec fn stopped(self) -> Self {
        CoordModel { stopping: true, ..self }
    }

    /// Whether the worker loop may exit: only once shutdown was requested
    /// and no fetch is in flight, so no outcome can be lost.
    pub open spec fn may_exit(self) -> bool {
        self.stopping && !(self.state is Fetching)
    }
}

/// The refresh coordinator. The interface thread calls [`Self::request_refresh`],
/// [`Self::drain_results`] and [`Self::shutdown`]; the worker side calls
/// [`Self::take_command`] and [`Self::complete_fetch`]. Every method is a
/// constant-time state operation: none blocks.
pub struct RefreshCoordinator {
    state: CoordState,
    queued: bool,
    results: Vec<FetchOutcome>,
    started: bool,
    stopping: bool,
    cycles: Ghost<nat>,
}

impl View for RefreshCoordinator {
    type V = CoordModel;

    closed spec fn view(&self) -> CoordModel {
        CoordModel {
            state: self.state,
            queued: self.queued,
            results: self.results@,
            started: self.started,
            stopping: self.stopping,
            cycles: self.cycles@,
        }
    }
}

impl RefreshCoordinator {
    /// A fresh coordinator: Idle, nothing queued, no results, not started.
    pub fn new() -> (c: RefreshCoordinator)
        ensures
            c@ == (CoordModel {
                state: CoordState::Idle,
                queued: false,
                results: Seq::empty(),
                started: false,
                stopping: false,
                cycles: 0,
            }),
    {
        let c = RefreshCoordinator {
            state: CoordState::Idle,
            queued: false,
            results: Vec::new(),
            started: false,
            stopping: false,
            cycles: Ghost(0),
        };
        proof {
            assert(c@ =~= CoordModel {
                state: CoordState::Idle,
                queued: false,
                results: Seq::empty(),
                started: false,
                stopping: false,
                cycles: 0,
            });
        }
        c
    }

    /// Mark the worker loop as spawned. Safe only once, at process startup.
    pub fn start(&mut self)
        requires
            !old(self)@.started,
        ensures
            final(self)@ == (CoordModel { started: true, ..old(self)@ }),
    {
        self.started = true;
        proof {
            assert(self@ =~= CoordModel { started: true, ..old(self)@ });
        }
    }

    /// Interface-thread refresh request: never blocks; enqueues one command
    /// or coalesces with what is already pending or queued.
    pub fn request_refresh(&mut self)
        ensures
            final(self)@ == old(self)@.refreshed(),
            old(self)@.wf() ==> final(self)@.wf(),
    {
        match self.state {
            CoordState::Idle => {
                self.state = CoordState::Pending;
            },
            CoordState::Pending => {},
            CoordState::Fetching => {
                self.queued = true;
            },
        }
        proof {
            assert(self@ =~= old(self)@.refreshed());
        }
    }

    /// Worker side: consume the pending command, if there is one, and begin
    /// a fetch cycle. Returns the command consumed.
    pub fn take_command(&mut self) -> (cmd: Option<Msg>)
        ensures
            final(self)@ == old(self)@.taken(),
            cmd == (if old(self)@.state is Pending {
                Some(Msg::Refresh)
            } else {
                None::<Msg>
            }),
            old(self)@.wf() ==> final(self)@.wf(),
    {
        match self.state {
            CoordState::Pending => {
                self.state = CoordState::Fetching;
                proof {
                    self.cycles@ = self.cycles@ + 1;
                }
                proof {
                    assert(self@ =~= old(self)@.taken());
                }
                Some(Msg::Refresh)
            },
            _ => {
                proof {
                    assert(self@ =~= old(self)@.taken());
                }
                None
            },
        }
    }

    /// Worker side: the in-flight fetch finished with `outcome`. The outcome
    /// is pushed onto the result queue before anything else happens, so it
    /// can never be lost; a command queued meanwhile immediately schedules
    /// the next cycle.
    pub fn complete_fetch(&mut self, outcome: FetchOutcome)
        requires
            old(self)@.state is Fetching,
        ensures
            final(self)@ == old(self)@.completed(outcome),
            final(self)@.results == old(self)@.results.push(outcome),
            final(self)@.wf(),
    {
        self.results.push(outcome);
        if self.queued {
            self.state = CoordState::Pending;
            self.queued = false;
        } else {
            self.state = CoordState::Idle;
        }
        proof {
            assert(self@ =~= old(self)@.completed(outcome));
        }
    }

    /// Interface-thread drain: never blocks; hands back every outcome
    /// accumulated since the last drain, oldest first.
    pub fn drain_results(&mut self) -> (outcomes: Vec<FetchOutcome>)
        ensures
            outcomes@ == old(self)@.results,
            final(self)@ == old(self)@.drained(),
            old(self)@.wf() ==> final(self)@.wf(),
    {
        let mut outcomes: Vec<FetchOutcome> = Vec::new();
        core::mem::swap(&mut outcomes, &mut self.results);
        proof {
            assert(self@ =~= old(self)@.drained());
        }
        outcomes
    }

    /// Ask the worker loop to exit once any in-flight fetch has completed
    /// and forwarded its outcome.
    pub fn shutdown(&mut self)
        ensures
            final(self)@ == old(self)@.stopped(),
            old(self)@.wf() ==> final(self)@.wf(),
    {
        self.stopping = true;
        proof {
            assert(self@ =~= old(self)@.stopped());
        }
    }

    /// Whether the worker loop may exit now: only after shutdown was
    /// requested and no fetch is in flight.
    pub fn may_exit(&self) -> (r: bool)
        ensures
            r == self@.may_exit(),
    {
        self.stopping && !matches!(self.state, CoordState::Fetching)
    }
}

/// One refresh request absorbs every further one: issuing a second request
/// before the machine moves changes nothing.
pub proof fn lemma_refresh_idempotent(c: CoordModel)
    ensures
        c.refreshed().refreshed() == c.refreshed(),
{
    assert(c.refreshed().refreshed() =~= c.refreshed());
}

/// Any run of `n >= 1` consecutive refresh requests has exactly the effect
/// of a single one.
pub proof fn lemma_refreshes_coalesce(c: CoordModel, n: nat)
    requires
        n >= 1,
    ensures
        c.refreshed_n(n) == c.refreshed(),
    decreases n,
{
    if n == 1 {
        assert(c.refreshed_n(1) == c.refreshed_n(0).refreshed());
        assert(c.refreshed_n(0) == c);
    } else {
        lemma_refreshes_coalesce(c, (n - 1) as nat);
        lemma_refresh_idempotent(c);
    }
}

/// Coalescing: however many refresh requests arrive while one fetch is in
/// flight, at most one further fetch cycle is ever scheduled. After the
/// in-flight fetch completes, the worker consumes exactly one coalesced
/// command — the cycle count rises by one, not by `n` — and once that second
/// cycle completes the machine is Idle with nothing queued.
pub proof fn lemma_coalescing(c: CoordModel, o1: FetchOutcome, o2: FetchOutcome, n: nat)
    requires
        c.wf(),
        c.state is Fetching,
        !c.queued,
        n >= 1,
    ensures
        ({
            let after_requests = c.refreshed_n(n);
            let after_first = after_requests.completed(o1);
            let after_second = after_first.taken().completed(o2);
            &&& after_requests == c.refreshed()
            &&& after_first.state is Pending
            &&& after_first.taken().cycles == c.cycles + 1
            &&& after_second.state is Idle
            &&& !after_second.queued
            &&& after_second.cycles == c.cycles + 1
        }),
{
    lemma_refreshes_coalesce(c, n);
}

/// Outcomes accumulate in fetch-completion order, which — one fetch at a
/// time — is the order the commands were consumed: a run that consumes a
/// command, takes a request mid-fetch, and completes both cycles in turn
/// holds exactly the two outcomes, oldest first; `drain_results` then hands
/// that sequence back unchanged.
pub proof fn lemma_completion_order(c: CoordModel, o1: FetchOutcome, o2: FetchOutcome)
    requires
        c.wf(),
        c.state is Pending,
        c.results == Seq::<FetchOutcome>::empty(),
    ensures
        c.taken().refreshed().completed(o1).taken().completed(o2).results == seq![o1, o2],
{
    assert(c.taken().refreshed().completed(o1).taken().completed(o2).results =~= seq![o1, o2]);
}

/// Graceful shutdown: while a fetch is in flight the worker may not exit,
/// and completing that fetch pushes its outcome onto the result queue before
/// exit becomes possible — no outcome is lost on teardown.
pub proof fn lemma_shutdown_waits_for_outcome(c: CoordModel, o: FetchOutcome)
    requires
        c.state is Fetching,
    ensures
        !c.stopped().may_exit(),
        c.stopped().completed(o).results == c.results.push(o),
        !c.queued ==> c.stopped().completed(o).may_exit(),
{
}


} // verus!

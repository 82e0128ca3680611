//! The control loop of a group of child processes, as a state machine.
//!
//! The caller owns the processes. Between two polls it asks `Supervisor::step`
//! what to do, handing in what it has observed: whether an interrupt came in,
//! which children are still alive, and how long the shutdown has lasted. The
//! answer names the children to ask to terminate, the children to kill, and
//! whether to wait and poll again or to join the output readers and return.

use vstd::prelude::*;

verus! {

/// Milliseconds between two polls while the group runs.
pub const POLL_INTERVAL_MS: u64 = 100;

/// Milliseconds between two polls while the group shuts down.
pub const SHUTDOWN_POLL_INTERVAL_MS: u64 = 50;

/// Milliseconds that children get to exit after a termination request.
pub const SHUTDOWN_TIMEOUT_MS: u64 = 3000;

/// Where the control loop stands.
#[derive(Clone, Copy, Debug, PartialEq, Eq, Structural)]
pub enum Phase {
    /// Children run; nothing has asked them to stop.
    Running,
    /// Children were asked to terminate and get time to do so.
    ShuttingDownGraceful,
    /// The time ran out and the survivors were killed.
    ShuttingDownForced,
    /// Nothing is left to do but to join the readers.
    Done,
}

/// What the caller does after it has sent the requests of a step.
#[derive(Clone, Copy, Debug, PartialEq, Eq, Structural)]
pub enum Next {
    /// Sleep for this many milliseconds, poll the children, and step again.
    Wait(u64),
    /// Join every output reader and return.
    JoinReaders,
}

/// Why a run failed.
#[derive(Clone, Copy, Debug, PartialEq, Eq, Structural)]
pub enum RunError {
    /// The definitions held no process to run.
    ParseFailure,
    /// A process could not be created.
    SpawnFailure,
}

/// What was observed at one poll.
pub struct Observation {
    /// An interrupt has come in since the run began.
    pub interrupted: bool,
    /// For each child, in spawn order, whether it is still alive.
    pub alive: Vec<bool>,
    /// Milliseconds since the termination requests went out; ignored before that.
    pub shutdown_elapsed_ms: u64,
}

/// The requests of one step.
pub struct Step {
    /// For each child, whether to ask it to terminate now.
    pub terminate: Vec<bool>,
    /// For each child, whether to kill it now.
    pub kill: Vec<bool>,
    /// What to do once the requests are sent.
    pub after: Next,
}

/// The mathematical state of a supervisor.
pub struct SupervisorState {
    pub phase: Phase,
    /// For each child, whether it has been asked to terminate.
    pub terminated: Seq<bool>,
    /// For each child, whether it has been killed.
    pub killed: Seq<bool>,
    /// A later process of the group could not be created.
    pub spawn_failed: bool,
}

/// The mathematical content of an observation.
pub struct ObservationView {
    pub interrupted: bool,
    pub alive: Seq<bool>,
    pub shutdown_elapsed_ms: int,
}

/// The mathematical content of a step.
pub struct StepView {
    pub terminate: Seq<bool>,
    pub kill: Seq<bool>,
    pub after: Next,
}

impl View for Observation {
    type V = ObservationView;

    open spec fn view(&self) -> ObservationView {
        ObservationView {
            interrupted: self.interrupted,
            alive: self.alive@,
            shutdown_elapsed_ms: self.shutdown_elapsed_ms as int,
        }
    }
}

impl View for Step {
    type V = StepView;

    open spec fn view(&self) -> StepView {
        StepView { terminate: self.terminate@, kill: self.kill@, after: self.after }
    }
}

/// A mask of `n` entries, none set.
pub open spec fn none_of(n: nat) -> Seq<bool> {
    Seq::new(n, |i: int| false)
}

/// Some entry of the mask is set.
pub open spec fn any(mask: Seq<bool>) -> bool {
    exists|i: int| 0 <= i < mask.len() && #[trigger] mask[i]
}

/// The state of a supervisor of `n` children before its first step.
pub open spec fn initial_state(n: nat, spawn_failed: bool) -> SupervisorState {
    SupervisorState {
        phase: Phase::Running,
        terminated: none_of(n),
        killed: none_of(n),
        spawn_failed,
    }
}

/// What holds of every state that steps can reach from an initial state:
/// no child is asked to terminate while the group runs, and none is killed
/// before the grace period has run out.
pub open spec fn well_formed(s: SupervisorState) -> bool {
    &&& s.terminated.len() == s.killed.len()
    &&& s.phase == Phase::Running ==> !any(s.terminated)
    &&& (s.phase == Phase::Running || s.phase == Phase::ShuttingDownGraceful) ==> !any(s.killed)
}

/// The transition function: the state after a step and the requests of the step.
///
/// - `Running`: when no child is alive, the run is `Done`. Otherwise, on an
///   interrupt (or when a process of the group could not be created) every
///   child that is alive is asked to terminate and the grace period begins.
///   Otherwise the loop waits and polls again.
/// - `ShuttingDownGraceful`: when no child is alive, the run is `Done` and
///   nothing is killed. Otherwise, once the grace period has elapsed, every
///   child that is alive is killed. Otherwise the loop waits and polls again.
/// - `ShuttingDownForced`: the run is `Done`.
/// - `Done`: nothing changes.
pub open spec fn transition(s: SupervisorState, o: ObservationView) -> (SupervisorState, StepView) {
    let n = s.terminated.len();
    let idle = StepView { terminate: none_of(n), kill: none_of(n), after: Next::JoinReaders };
    match s.phase {
        Phase::Running => {
            if !any(o.alive) {
                (SupervisorState { phase: Phase::Done, ..s }, idle)
            } else if o.interrupted || s.spawn_failed {
                (
                    SupervisorState {
                        phase: Phase::ShuttingDownGraceful,
                        terminated: o.alive,
                        ..s
                    },
                    StepView {
                        terminate: o.alive,
                        kill: none_of(n),
                        after: Next::Wait(SHUTDOWN_POLL_INTERVAL_MS),
                    },
                )
            } else {
                (s, StepView { after: Next::Wait(POLL_INTERVAL_MS), ..idle })
            }
        },
        Phase::ShuttingDownGraceful => {
            if !any(o.alive) {
                (SupervisorState { phase: Phase::Done, ..s }, idle)
            } else if o.shutdown_elapsed_ms >= SHUTDOWN_TIMEOUT_MS {
                (
                    SupervisorState { phase: Phase::ShuttingDownForced, killed: o.alive, ..s },
                    StepView { terminate: none_of(n), kill: o.alive, after: Next::Wait(0) },
                )
            } else {
                (s, StepView { after: Next::Wait(SHUTDOWN_POLL_INTERVAL_MS), ..idle })
            }
        },
        Phase::ShuttingDownForced => (SupervisorState { phase: Phase::Done, ..s }, idle),
        Phase::Done => (s, idle),
    }
}

/// The state after stepping through `observations` in order, and the steps taken.
pub open spec fn run(s: SupervisorState, observations: Seq<ObservationView>) -> (
    SupervisorState,
    Seq<StepView>,
)
    decreases observations.len(),
{
    if observations.len() == 0 {
        (s, Seq::empty())
    } else {
        let (s1, step) = transition(s, observations[0]);
        let (s2, steps) = run(s1, observations.drop_first());
        (s2, seq![step] + steps)
    }
}

/// Every observation speaks of `n` children.
pub open spec fn sized(observations: Seq<ObservationView>, n: nat) -> bool {
    forall|j: int| 0 <= j < observations.len() ==> (#[trigger] observations[j]).alive.len() == n
}

/// How many of `steps` ask `child` to terminate.
pub open spec fn termination_requests(steps: Seq<StepView>, child: int) -> nat
    decreases steps.len(),
{
    if steps.len() == 0 {
        0
    } else {
        (if steps[0].terminate[child] {
            1nat
        } else {
            0nat
        }) + termination_requests(steps.drop_first(), child)
    }
}

/// How many of `steps` kill `child`.
pub open spec fn kills(steps: Seq<StepView>, child: int) -> nat
    decreases steps.len(),
{
    if steps.len() == 0 {
        0
    } else {
        (if steps[0].kill[child] {
            1nat
        } else {
            0nat
        }) + kills(steps.drop_first(), child)
    }
}

/// A step keeps the state well formed and the number of children.
pub proof fn lemma_transition_well_formed(s: SupervisorState, o: ObservationView)
    requires
        well_formed(s),
        o.alive.len() == s.terminated.len(),
    ensures
        well_formed(transition(s, o).0),
        transition(s, o).0.terminated.len() == s.terminated.len(),
        transition(s, o).0.spawn_failed == s.spawn_failed,
        transition(s, o).1.terminate.len() == s.terminated.len(),
        transition(s, o).1.kill.len() == s.terminated.len(),
{
}

/// An interrupt that finds children alive opens the shutdown: within that
/// one step every child that is alive is asked to terminate, none is killed,
/// and the grace period begins. A failure to create a process of the group
/// does the same.
pub proof fn lemma_interrupt_requests_termination(s: SupervisorState, o: ObservationView)
    requires
        well_formed(s),
        o.alive.len() == s.terminated.len(),
        s.phase == Phase::Running,
        o.interrupted || s.spawn_failed,
        any(o.alive),
    ensures
        transition(s, o).0.phase == Phase::ShuttingDownGraceful,
        transition(s, o).1.terminate == o.alive,
        !any(transition(s, o).1.kill),
        transition(s, o).1.after == Next::Wait(SHUTDOWN_POLL_INTERVAL_MS),
{
}

/// Without an interrupt the group runs until its last child has exited; the
/// loop then goes straight to `Done`, and no request is ever sent.
pub proof fn lemma_natural_exit(s: SupervisorState, o: ObservationView)
    requires
        well_formed(s),
        o.alive.len() == s.terminated.len(),
        s.phase == Phase::Running,
    ensures
        !any(o.alive) ==> transition(s, o).0.phase == Phase::Done,
        !any(o.alive) || !(o.interrupted || s.spawn_failed) ==> !any(
            transition(s, o).1.terminate,
        ) && !any(transition(s, o).1.kill),
        any(o.alive) && !(o.interrupted || s.spawn_failed) ==> transition(s, o).0 == s
            && transition(s, o).1.after == Next::Wait(POLL_INTERVAL_MS),
{
}

/// During the grace period: when every child has exited the run is `Done`
/// and nothing is killed; when the period has elapsed every survivor is
/// killed, and only survivors are; otherwise nothing happens.
pub proof fn lemma_grace_period(s: SupervisorState, o: ObservationView)
    requires
        well_formed(s),
        o.alive.len() == s.terminated.len(),
        s.phase == Phase::ShuttingDownGraceful,
    ensures
        !any(transition(s, o).1.terminate),
        !any(o.alive) ==> transition(s, o).0.phase == Phase::Done && !any(transition(s, o).1.kill),
        any(o.alive) && o.shutdown_elapsed_ms >= SHUTDOWN_TIMEOUT_MS ==> transition(s, o).0.phase
            == Phase::ShuttingDownForced && transition(s, o).1.kill == o.alive,
        any(o.alive) && o.shutdown_elapsed_ms < SHUTDOWN_TIMEOUT_MS ==> transition(s, o).0 == s
            && !any(transition(s, o).1.kill),
{
}

/// Once the survivors are killed the run is `Done` at the next step, whatever
/// is observed, and `Done` is final: no request follows, and a later
/// interrupt changes nothing.
pub proof fn lemma_forced_then_done(s: SupervisorState, o: ObservationView)
    requires
        well_formed(s),
        o.alive.len() == s.terminated.len(),
        s.phase == Phase::ShuttingDownForced || s.phase == Phase::Done,
    ensures
        transition(s, o).0.phase == Phase::Done,
        transition(s, o).0.terminated == s.terminated,
        transition(s, o).0.killed == s.killed,
        !any(transition(s, o).1.terminate),
        !any(transition(s, o).1.kill),
        transition(s, o).1.after == Next::JoinReaders,
{
}

/// The readers are joined exactly when the run is `Done`: a step says
/// `JoinReaders` if and only if it leaves the loop in `Done`.
pub proof fn lemma_join_iff_done(s: SupervisorState, o: ObservationView)
    requires
        well_formed(s),
        o.alive.len() == s.terminated.len(),
    ensures
        transition(s, o).1.after == Next::JoinReaders <==> transition(s, o).0.phase == Phase::Done,
{
}

/// Over a whole run, whatever is observed: a child is asked to terminate at
/// most once, and only while the group is `Running`; it is killed at most
/// once, and never once the survivors have been killed.
pub proof fn lemma_requests_at_most_once(
    s: SupervisorState,
    observations: Seq<ObservationView>,
    child: int,
)
    requires
        well_formed(s),
        sized(observations, s.terminated.len()),
        0 <= child < s.terminated.len(),
    ensures
        well_formed(run(s, observations).0),
        termination_requests(run(s, observations).1, child) <= (if s.phase == Phase::Running {
            1nat
        } else {
            0nat
        }),
        kills(run(s, observations).1, child) <= (if s.phase == Phase::Running || s.phase
            == Phase::ShuttingDownGraceful {
            1nat
        } else {
            0nat
        }),
    decreases observations.len(),
{
    if observations.len() > 0 {
        let (s1, step) = transition(s, observations[0]);
        let rest = observations.drop_first();
        lemma_transition_well_formed(s, observations[0]);
        assert(sized(rest, s1.terminated.len())) by {
            assert forall|j: int| 0 <= j < rest.len() implies (#[trigger] rest[j]).alive.len()
                == s1.terminated.len() by {
                assert(rest[j] == observations[j + 1]);
            }
        }
        lemma_requests_at_most_once(s1, rest, child);
        let steps = seq![step] + run(s1, rest).1;
        assert(steps.drop_first() =~= run(s1, rest).1);
        assert(steps[0] == step);
    }
}

/// Over a whole run from the start: a child that survives the grace period
/// is killed exactly once. `at` is the step that finds the period elapsed.
pub proof fn lemma_survivor_killed_once(
    n: nat,
    spawn_failed: bool,
    observations: Seq<ObservationView>,
    at: int,
    child: int,
)
    requires
        sized(observations, n),
        0 <= child < n,
        0 <= at < observations.len(),
        run(initial_state(n, spawn_failed), observations.take(at)).0.phase
            == Phase::ShuttingDownGraceful,
        observations[at].shutdown_elapsed_ms >= SHUTDOWN_TIMEOUT_MS,
        observations[at].alive[child],
    ensures
        kills(run(initial_state(n, spawn_failed), observations).1, child) == 1,
{
    let s0 = initial_state(n, spawn_failed);
    lemma_requests_at_most_once(s0, observations, child);
    lemma_run_kills_at(s0, observations, at, child);
}

/// A kill at step `at` of a run is counted among the kills of the run.
proof fn lemma_run_kills_at(
    s: SupervisorState,
    observations: Seq<ObservationView>,
    at: int,
    child: int,
)
    requires
        well_formed(s),
        sized(observations, s.terminated.len()),
        0 <= child < s.terminated.len(),
        0 <= at < observations.len(),
        run(s, observations.take(at)).0.phase == Phase::ShuttingDownGraceful,
        observations[at].shutdown_elapsed_ms >= SHUTDOWN_TIMEOUT_MS,
        observations[at].alive[child],
    ensures
        kills(run(s, observations).1, child) >= 1,
    decreases at,
{
    let (s1, step) = transition(s, observations[0]);
    let rest = observations.drop_first();
    let steps = seq![step] + run(s1, rest).1;
    assert(steps.drop_first() =~= run(s1, rest).1);
    assert(steps[0] == step);
    if at == 0 {
        assert(observations.take(0) =~= Seq::<ObservationView>::empty());
        assert(any(observations[0].alive));
    } else {
        lemma_transition_well_formed(s, observations[0]);
        assert(sized(rest, s1.terminated.len())) by {
            assert forall|j: int| 0 <= j < rest.len() implies (#[trigger] rest[j]).alive.len()
                == s1.terminated.len() by {
                assert(rest[j] == observations[j + 1]);
            }
        }
        assert(observations.take(at).drop_first() =~= rest.take(at - 1));
        assert(observations.take(at)[0] == observations[0]);
        lemma_run_kills_at(s1, rest, at - 1, child);
    }
}

/// Over a whole run: when no step finds a child alive after the grace
/// period has elapsed, no child is ever killed.
pub proof fn lemma_no_kill_within_grace(
    s: SupervisorState,
    observations: Seq<ObservationView>,
    child: int,
)
    requires
        well_formed(s),
        sized(observations, s.terminated.len()),
        0 <= child < s.terminated.len(),
        forall|j: int|
            0 <= j < observations.len() ==> !any((#[trigger] observations[j]).alive)
                || observations[j].shutdown_elapsed_ms < SHUTDOWN_TIMEOUT_MS,
    ensures
        kills(run(s, observations).1, child) == 0,
    decreases observations.len(),
{
    if observations.len() > 0 {
        let (s1, step) = transition(s, observations[0]);
        let rest = observations.drop_first();
        lemma_transition_well_formed(s, observations[0]);
        assert forall|j: int| 0 <= j < rest.len() implies (#[trigger] rest[j]).alive.len()
            == s1.terminated.len() && (!any(rest[j].alive) || rest[j].shutdown_elapsed_ms
            < SHUTDOWN_TIMEOUT_MS) by {
            assert(rest[j] == observations[j + 1]);
        }
        lemma_no_kill_within_grace(s1, rest, child);
        let steps = seq![step] + run(s1, rest).1;
        assert(steps.drop_first() =~= run(s1, rest).1);
        assert(steps[0] == step);
    }
}

/// The control state of a group of child processes.
pub struct Supervisor {
    phase: Phase,
    terminated: Vec<bool>,
    killed: Vec<bool>,
    spawn_failed: bool,
}

impl View for Supervisor {
    type V = SupervisorState;

    closed spec fn view(&self) -> SupervisorState {
        SupervisorState {
            phase: self.phase,
            terminated: self.terminated@,
            killed: self.killed@,
            spawn_failed: self.spawn_failed,
        }
    }
}

/// A vector of `n` entries, none set.
fn cleared(n: usize) -> (v: Vec<bool>)
    ensures
        v@ == none_of(n as nat),
{
    let mut v: Vec<bool> = Vec::new();
    let mut i: usize = 0;
    while i < n
        invariant
            i <= n,
            v@ == none_of(i as nat),
        decreases n - i,
    {
        v.push(false);
        i += 1;
        assert(v@ =~= none_of(i as nat));
    }
    v
}

/// Whether some entry of the mask is set.
fn any_set(mask: &Vec<bool>) -> (b: bool)
    ensures
        b == any(mask@),
{
    let mut i: usize = 0;
    while i < mask.len()
        invariant
            i <= mask.len(),
            forall|j: int| 0 <= j < i ==> !mask@[j],
        decreases mask.len() - i,
    {
        if mask[i] {
            return true;
        }
        i += 1;
    }
    false
}

impl Supervisor {
    /// A supervisor for `children` processes that have been created.
    ///
    /// `spawn_failed` says that a later process of the group could not be
    /// created: the children that run are then shut down at the first step,
    /// as on an interrupt, and the run reports the failure.
    pub fn new(children: usize, spawn_failed: bool) -> (s: Supervisor)
        ensures
            s@ == initial_state(children as nat, spawn_failed),
            well_formed(s@),
    {
        Supervisor {
            phase: Phase::Running,
            terminated: cleared(children),
            killed: cleared(children),
            spawn_failed,
        }
    }

    /// The phase the control loop is in.
    pub fn phase(&self) -> (p: Phase)
        ensures
            p == self@.phase,
    {
        self.phase
    }

    /// The number of children.
    pub fn children(&self) -> (n: usize)
        ensures
            n == self@.terminated.len(),
    {
        self.terminated.len()
    }

    /// Whether child `i` has been asked to terminate.
    pub fn termination_requested(&self, i: usize) -> (b: bool)
        requires
            i < self@.terminated.len(),
        ensures
            b == self@.terminated[i as int],
    {
        self.terminated[i]
    }

    /// Whether child `i` has been killed.
    pub fn kill_requested(&self, i: usize) -> (b: bool)
        requires
            i < self@.killed.len(),
        ensures
            b == self@.killed[i as int],
    {
        self.killed[i]
    }

    /// What the run reports once it is `Done`: success, unless a process of
    /// the group could not be created. How the children exited plays no part.
    pub fn outcome(&self) -> (r: Result<(), RunError>)
        ensures
            r == if self@.spawn_failed {
                Err::<(), RunError>(RunError::SpawnFailure)
            } else {
                Ok::<(), RunError>(())
            },
    {
        if self.spawn_failed {
            Err(RunError::SpawnFailure)
        } else {
            Ok(())
        }
    }

    /// Takes one step of the control loop on what was observed.
    pub fn step(&mut self, observed: &Observation) -> (step: Step)
        requires
            well_formed(old(self)@),
            observed@.alive.len() == old(self)@.terminated.len(),
        ensures
            (final(self)@, step@) == transition(old(self)@, observed@),
            well_formed(final(self)@),
    {
        let n = self.terminated.len();
        let alive = any_set(&observed.alive);
        let mut step = Step { terminate: cleared(n), kill: cleared(n), after: Next::JoinReaders };
        match self.phase {
            Phase::Running => {
                if !alive {
                    self.phase = Phase::Done;
                } else if observed.interrupted || self.spawn_failed {
                    self.phase = Phase::ShuttingDownGraceful;
                    self.terminated = observed.alive.clone();
                    step.terminate = observed.alive.clone();
                    step.after = Next::Wait(SHUTDOWN_POLL_INTERVAL_MS);
                } else {
                    step.after = Next::Wait(POLL_INTERVAL_MS);
                }
            },
            Phase::ShuttingDownGraceful => {
                if !alive {
                    self.phase = Phase::Done;
                } else if observed.shutdown_elapsed_ms >= SHUTDOWN_TIMEOUT_MS {
                    self.phase = Phase::ShuttingDownForced;
                    self.killed = observed.alive.clone();
                    step.kill = observed.alive.clone();
                    step.after = Next::Wait(0);
                } else {
                    step.after = Next::Wait(SHUTDOWN_POLL_INTERVAL_MS);
                }
            },
            Phase::ShuttingDownForced => {
                self.phase = Phase::Done;
            },
            Phase::Done => {},
        }
        step
    }
}

} // verus!

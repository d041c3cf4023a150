//! The life of a worker as a state machine: created, running, then completed
//! either because its steps ran out or because it saw the stop signal. The
//! machine is driven by what the worker reads from its stop signal, one
//! reading per move, and never leaves a completed phase.

use vstd::prelude::*;
use crate::failure::TaskFailure;
use crate::series::{
    contribution,
    lemma_prefix_sum_closed_form,
    lemma_prefix_sum_monotonic,
    lemma_prefix_sum_step,
    prefix_sum,
};
use crate::tally::{Tally, TallyView};

verus! {

/// Where a worker stands in its life.
#[derive(Clone, Copy, Debug, PartialEq, Eq, Structural)]
pub enum Phase {
    /// Set up, not yet running.
    Created,
    /// Taking steps.
    Running,
    /// Ended because every step was taken.
    CompletedNormal,
    /// Ended because the stop signal was seen.
    CompletedCancelled,
}

/// How many steps a worker is to take.
#[derive(Clone, Copy, Debug, PartialEq, Eq, Structural)]
pub enum StepLimit {
    /// Exactly this many, unless stopped earlier.
    Bounded(u64),
    /// As many as it can, until it is stopped.
    Unbounded,
}

impl View for StepLimit {
    type V = Option<nat>;

    open spec fn view(&self) -> Option<nat> {
        match *self {
            StepLimit::Bounded(n) => Some(n as nat),
            StepLimit::Unbounded => None,
        }
    }
}

impl StepLimit {
    /// Whether a worker with this limit may have taken `steps` steps.
    pub fn admits(&self, steps: u64) -> (admitted: bool)
        ensures
            admitted == (self@ matches Some(n) ==> steps <= n),
    {
        match *self {
            StepLimit::Bounded(n) => steps <= n,
            StepLimit::Unbounded => true,
        }
    }
}

/// What a `Progress` stands for.
pub struct ProgressView {
    pub seed: int,
    pub steps: nat,
    pub limit: Option<nat>,
    pub phase: Phase,
}

impl ProgressView {
    /// A worker that has been set up and has not run.
    pub open spec fn initial(seed: int, limit: Option<nat>) -> ProgressView {
        ProgressView { seed, steps: 0, limit, phase: Phase::Created }
    }

    /// The counter's value in this state.
    pub open spec fn value(self) -> int {
        prefix_sum(self.seed, self.steps)
    }

    /// Whether the worker has ended, one way or the other.
    pub open spec fn completed(self) -> bool {
        self.phase == Phase::CompletedNormal || self.phase == Phase::CompletedCancelled
    }

    /// Whether every step has been taken.
    pub open spec fn exhausted(self) -> bool {
        self.limit == Some(self.steps)
    }

    /// Whether the next contribution would take the counter past `i64::MAX`.
    pub open spec fn overflows(self) -> bool {
        self.value() + contribution(self.steps) > i64::MAX
    }

    /// The states that a worker can be in: its counter fits in 64 signed bits,
    /// it never takes more steps than its limit, has taken none before it runs,
    /// and completes normally only with all of them taken.
    pub open spec fn wf(self) -> bool {
        &&& i64::MIN <= self.seed
        &&& self.value() <= i64::MAX
        &&& self.limit matches Some(n) ==> self.steps <= n
        &&& self.phase == Phase::Created ==> self.steps == 0
        &&& self.phase == Phase::CompletedNormal ==> self.exhausted()
    }

    /// Starting to run: the one move out of `Created`.
    pub open spec fn begin(self) -> ProgressView {
        if self.phase == Phase::Created {
            ProgressView { phase: Phase::Running, ..self }
        } else {
            self
        }
    }

    /// One move of a worker that read `signaled` from its stop signal. A worker
    /// that is not running stays as it is. A running one ends normally when its
    /// steps have run out, ends cancelled when it read the signal, and else takes
    /// a step; `None` when that step's contribution does not fit.
    pub open spec fn step(self, signaled: bool) -> Option<ProgressView> {
        if self.phase != Phase::Running {
            Some(self)
        } else if self.exhausted() {
            Some(ProgressView { phase: Phase::CompletedNormal, ..self })
        } else if signaled {
            Some(ProgressView { phase: Phase::CompletedCancelled, ..self })
        } else if self.overflows() {
            None
        } else {
            Some(ProgressView { steps: self.steps + 1, ..self })
        }
    }

    /// The state after one move for each reading in `signals`, in order;
    /// `None` as soon as one move fails.
    pub open spec fn run(self, signals: Seq<bool>) -> Option<ProgressView>
        decreases signals.len(),
    {
        if signals.len() == 0 {
            Some(self)
        } else {
            match self.run(signals.drop_last()) {
                Some(before) => before.step(signals.last()),
                None => None,
            }
        }
    }
}

/// A running worker that has taken `steps` steps.
pub open spec fn running(seed: int, limit: Option<nat>, steps: nat) -> ProgressView {
    ProgressView { seed, steps, limit, phase: Phase::Running }
}

/// A move keeps a worker among the states it can be in, keeps its seed and its
/// limit, and takes at most one step, never one back.
pub proof fn lemma_step_keeps_wf(state: ProgressView, signaled: bool)
    requires
        state.wf(),
    ensures
        state.step(signaled) matches Some(next) ==> {
            &&& next.wf()
            &&& next.seed == state.seed
            &&& next.limit == state.limit
            &&& state.steps <= next.steps <= state.steps + 1
        },
{
    lemma_prefix_sum_step(state.seed, state.steps);
}

/// Whatever the worker reads from its stop signal, and however often, it ends
/// on a point of its own sequence: its value is the prefix sum of the steps it
/// took, which are no more than its limit and no more than the readings it
/// made, and the value is not below the one it started from.
pub proof fn lemma_run_stays_on_sequence(state: ProgressView, signals: Seq<bool>)
    requires
        state.wf(),
    ensures
        state.run(signals) matches Some(end) ==> {
            &&& end.wf()
            &&& end.seed == state.seed
            &&& end.limit == state.limit
            &&& state.steps <= end.steps <= state.steps + signals.len()
            &&& end.value() == prefix_sum(state.seed, end.steps)
            &&& state.value() <= end.value()
        },
    decreases signals.len(),
{
    if signals.len() > 0 {
        lemma_run_stays_on_sequence(state, signals.drop_last());
        if let Some(before) = state.run(signals.drop_last()) {
            lemma_step_keeps_wf(before, signals.last());
            if let Some(end) = before.step(signals.last()) {
                lemma_prefix_sum_monotonic(state.seed, state.steps, end.steps);
            }
        }
    }
}

/// A worker that is not running stays as it is, whatever is signalled and
/// however often: before it begins it holds its seed, and once it has
/// completed, its phase and its value are final.
pub proof fn lemma_idle_is_stable(state: ProgressView, signals: Seq<bool>)
    requires
        state.phase != Phase::Running,
    ensures
        state.run(signals) == Some(state),
        state.phase == Phase::Created && state.wf() ==> state.value() == state.seed,
    decreases signals.len(),
{
    if signals.len() > 0 {
        lemma_idle_is_stable(state, signals.drop_last());
    }
}

/// While no stop is read and the counter fits, each reading is one step.
pub proof fn lemma_unsignalled_steps(seed: int, limit: Option<nat>, signals: Seq<bool>)
    requires
        forall|i: int| 0 <= i < signals.len() ==> !signals[i],
        limit matches Some(n) ==> signals.len() <= n,
        prefix_sum(seed, signals.len()) <= i64::MAX,
    ensures
        running(seed, limit, 0).run(signals) == Some(running(seed, limit, signals.len())),
    decreases signals.len(),
{
    if signals.len() > 0 {
        let earlier = signals.drop_last();
        lemma_prefix_sum_monotonic(seed, earlier.len(), signals.len());
        lemma_unsignalled_steps(seed, limit, earlier);
        lemma_prefix_sum_step(seed, earlier.len());
    }
}

/// A worker with `steps` steps to take, whose counter has room for them and
/// which reads no stop signal while it takes them, completes normally with the
/// closed-form sum: `seed + steps * (steps - 1) / 2`. What it reads afterwards
/// changes nothing.
pub proof fn lemma_uninterrupted_run(seed: int, steps: nat, signals: Seq<bool>)
    requires
        signals.len() > steps,
        forall|i: int| 0 <= i < steps ==> !signals[i],
        prefix_sum(seed, steps) <= i64::MAX,
    ensures
        ProgressView::initial(seed, Some(steps)).begin().run(signals) == Some(
            ProgressView { seed, steps, limit: Some(steps), phase: Phase::CompletedNormal },
        ),
        2 * (prefix_sum(seed, steps) - seed) == steps * (steps - 1),
    decreases signals.len(),
{
    lemma_prefix_sum_closed_form(seed, steps);
    let earlier = signals.drop_last();
    if signals.len() == steps + 1 {
        lemma_unsignalled_steps(seed, Some(steps), earlier);
    } else {
        lemma_uninterrupted_run(seed, steps, earlier);
    }
}

/// A worker that first reads the stop signal at its reading number `moment`,
/// with steps still to take, completes cancelled with exactly `moment` steps
/// taken. What it reads afterwards changes nothing.
pub proof fn lemma_cancelled_run(seed: int, limit: Option<nat>, moment: nat, signals: Seq<bool>)
    requires
        signals.len() > moment,
        forall|i: int| 0 <= i < moment ==> !signals[i],
        signals[moment as int],
        limit matches Some(n) ==> moment < n,
        prefix_sum(seed, moment) <= i64::MAX,
    ensures
        ProgressView::initial(seed, limit).begin().run(signals) == Some(
            ProgressView { seed, steps: moment, limit, phase: Phase::CompletedCancelled },
        ),
    decreases signals.len(),
{
    let earlier = signals.drop_last();
    if signals.len() == moment + 1 {
        lemma_unsignalled_steps(seed, limit, earlier);
    } else {
        lemma_cancelled_run(seed, limit, moment, earlier);
    }
}


/// Making the readings of `first` and then those of `rest` is making them all
/// in a row.
pub proof fn lemma_run_in_two_parts(state: ProgressView, first: Seq<bool>, rest: Seq<bool>)
    ensures
        state.run(first + rest) == match state.run(first) {
            Some(middle) => middle.run(rest),
            None => None,
        },
    decreases rest.len(),
{
    if rest.len() == 0 {
        assert(first + rest =~= first);
    } else {
        assert((first + rest).drop_last() =~= first + rest.drop_last());
        lemma_run_in_two_parts(state, first, rest.drop_last());
    }
}

/// A run never goes back: what the worker holds after more readings has the
/// same seed, no fewer steps and no smaller value than what it held after
/// fewer of them.
pub proof fn lemma_run_never_goes_back(state: ProgressView, earlier: Seq<bool>, rest: Seq<bool>)
    requires
        state.wf(),
        state.run(earlier + rest).is_some(),
    ensures
        state.run(earlier) matches Some(first) && state.run(earlier + rest) matches Some(second) && {
            &&& first.seed == second.seed
            &&& first.steps <= second.steps
            &&& first.value() <= second.value()
        },
{
    lemma_run_in_two_parts(state, earlier, rest);
    lemma_run_stays_on_sequence(state, earlier);
    let first = state.run(earlier).unwrap();
    lemma_run_stays_on_sequence(first, rest);
}

/// A worker's own record of its run.
#[derive(Clone, Copy, Debug, PartialEq, Eq, Structural)]
pub struct Progress {
    tally: Tally,
    limit: StepLimit,
    phase: Phase,
}

impl View for Progress {
    type V = ProgressView;

    closed spec fn view(&self) -> ProgressView {
        ProgressView {
            seed: self.tally@.seed,
            steps: self.tally@.steps,
            limit: self.limit@,
            phase: self.phase,
        }
    }
}

impl Progress {
    #[verifier::type_invariant]
    spec fn valid(self) -> bool {
        self@.wf()
    }

    /// The record of a worker that is set up to count from `seed`.
    pub fn new(seed: i64, limit: StepLimit) -> (progress: Progress)
        ensures
            progress@ == ProgressView::initial(seed as int, limit@),
            progress@.wf(),
    {
        Progress { tally: Tally::new(seed), limit, phase: Phase::Created }
    }

    /// The phase the worker is in.
    pub fn phase(&self) -> (phase: Phase)
        ensures
            phase == self@.phase,
    {
        self.phase
    }

    /// The step limit the worker was given.
    pub fn limit(&self) -> (limit: StepLimit)
        ensures
            limit@ == self@.limit,
    {
        self.limit
    }

    /// The counter as the worker last left it.
    pub fn tally(&self) -> (tally: Tally)
        ensures
            tally@ == (TallyView { seed: self@.seed, steps: self@.steps }),
    {
        self.tally
    }

    /// The counter's value as the worker last left it.
    pub fn value(&self) -> (value: i64)
        ensures
            value == self@.value(),
    {
        self.tally.value()
    }

    /// The number of steps taken.
    pub fn steps(&self) -> (steps: u64)
        ensures
            steps == self@.steps,
    {
        self.tally.steps()
    }

    /// Whether the worker is running.
    pub fn is_running(&self) -> (running: bool)
        ensures
            running == (self@.phase == Phase::Running),
    {
        self.phase == Phase::Running
    }

    /// Whether the worker has ended, one way or the other.
    pub fn is_completed(&self) -> (completed: bool)
        ensures
            completed == self@.completed(),
    {
        self.phase == Phase::CompletedNormal || self.phase == Phase::CompletedCancelled
    }

    /// Whether the worker ended because it saw the stop signal.
    pub fn was_cancelled(&self) -> (cancelled: bool)
        ensures
            cancelled == (self@.phase == Phase::CompletedCancelled),
    {
        self.phase == Phase::CompletedCancelled
    }

    /// Starts the run: a created worker becomes a running one, any other stays
    /// as it is.
    pub fn begin(self) -> (next: Progress)
        ensures
            next@ == self@.begin(),
            next@.wf(),
            self@.phase != Phase::Created ==> next == self,
    {
        proof {
            use_type_invariant(&self);
        }
        if self.phase == Phase::Created {
            Progress { tally: self.tally, limit: self.limit, phase: Phase::Running }
        } else {
            self
        }
    }

    /// One move of the worker, given what it read from its stop signal. Fails
    /// with `CounterOverflow`, and with nothing else, exactly when the move is a
    /// step whose contribution does not fit in the counter.
    pub fn step(self, signaled: bool) -> (moved: Result<Progress, TaskFailure>)
        ensures
            match moved {
                Ok(next) => self@.step(signaled) == Some(next@) && next@.wf(),
                Err(failure) => failure == TaskFailure::CounterOverflow && self@.step(
                    signaled,
                ).is_none(),
            },
            self@.phase != Phase::Running ==> moved == Ok::<Progress, TaskFailure>(self),
    {
        proof {
            use_type_invariant(&self);
        }
        if self.phase != Phase::Running {
            return Ok(self);
        }
        let exhausted = match self.limit {
            StepLimit::Bounded(n) => self.tally.steps() >= n,
            StepLimit::Unbounded => false,
        };
        if exhausted {
            Ok(Progress { tally: self.tally, limit: self.limit, phase: Phase::CompletedNormal })
        } else if signaled {
            Ok(Progress { tally: self.tally, limit: self.limit, phase: Phase::CompletedCancelled })
        } else {
            match self.tally.advance() {
                Some(tally) => Ok(Progress { tally, limit: self.limit, phase: Phase::Running }),
                None => Err(TaskFailure::CounterOverflow),
            }
        }
    }
}

} // verus!

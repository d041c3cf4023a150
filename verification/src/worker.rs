//! The task that counts: it owns handles to the cell it feeds and to the stop
//! signal it watches, never a reference to whoever set it up.

use vstd::prelude::*;
use crate::cancel_token::CancelToken;
use crate::failure::{AccessPoisoned, TaskFailure};
use crate::progress::{lemma_step_keeps_wf, Phase, Progress, ProgressView, StepLimit};
use crate::series::{
    lemma_prefix_sum_closed_form,
    lemma_prefix_sum_monotonic,
    lemma_prefix_sum_step,
    lemma_steps_bounded,
    prefix_sum,
};
use crate::shared_cell::SharedCell;
use crate::tally::Tally;

verus! {

/// Stores `tally` in `cell`, in place of what the cell held.
fn publish(cell: &SharedCell<Tally>, tally: Tally) -> (stored: Result<(), AccessPoisoned>) {
    let store = |slot: &mut Tally| -> (done: ())
        ensures
            *final(slot) == tally,
    {
        *slot = tally;
    };
    cell.with_mut(store)
}

/// How far a worker is from the end of its run, at most: two moves for each
/// step its counter has room for, and one more while it runs.
spec fn moves_left(state: ProgressView) -> int {
    2 * (0x2_0000_0000 - state.steps) + if state.phase == Phase::Running {
        1int
    } else {
        0int
    }
}

/// A unit of background work that has been set up and waits to be run, once,
/// on a thread of execution of its own.
pub struct Worker {
    cell: SharedCell<Tally>,
    token: Option<CancelToken>,
    progress: Progress,
}

impl Worker {
    #[verifier::type_invariant]
    spec fn fresh(self) -> bool {
        self.progress@.phase == Phase::Created && self.progress@.wf()
    }

    /// A worker that will count from `seed` into `cell`, watching `token` if
    /// it is given one.
    pub(crate) fn new(
        cell: SharedCell<Tally>,
        token: Option<CancelToken>,
        seed: i64,
        limit: StepLimit,
    ) -> (worker: Worker)
        ensures
            worker.plan() == ProgressView::initial(seed as int, limit@),
            worker.cell() == cell,
            worker.token() == token,
    {
        Worker { cell, token, progress: Progress::new(seed, limit) }
    }

    /// The state the worker starts from.
    pub closed spec fn plan(&self) -> ProgressView {
        self.progress@
    }

    /// The cell the worker stores its counter in.
    pub closed spec fn cell(&self) -> SharedCell<Tally> {
        self.cell
    }

    /// The stop signal the worker watches, if it watches one.
    pub closed spec fn token(&self) -> Option<CancelToken> {
        self.token
    }

    /// Whether the worker watches a stop signal that was made raised.
    pub open spec fn stopped_from_the_first(&self) -> bool {
        self.token() matches Some(token) && token.made_raised()
    }

    /// Whether the worker can be stopped.
    pub fn is_cancellable(&self) -> (cancellable: bool)
        ensures
            cancellable == self.token().is_some(),
    {
        self.token.is_some()
    }

    /// The record the worker starts from.
    pub fn progress(&self) -> (progress: Progress)
        ensures
            progress@ == self.plan(),
            progress@ == ProgressView::initial(self.plan().seed, self.plan().limit),
            progress@.wf(),
    {
        proof {
            use_type_invariant(self);
        }
        self.progress
    }

    /// One look at the stop signal. A worker without one never sees a stop;
    /// one whose signal was made raised always does.
    fn stop_requested(&self) -> (signaled: bool)
        ensures
            signaled ==> self.token().is_some(),
            self.token() matches Some(token) && token.made_raised() ==> signaled,
    {
        match &self.token {
            Some(token) => token.is_signaled(),
            None => false,
        }
    }

    /// Runs the worker to its end and gives its final record.
    ///
    /// Before each step the worker looks at its stop signal; it stores the
    /// counter in its cell after each step. It ends normally with all its steps
    /// taken, or cancelled with those it took before it saw the signal; either
    /// way its record is the outcome of its state machine on the readings it
    /// made, so its value is the prefix sum of the steps taken. A worker
    /// without a stop signal never ends cancelled.
    ///
    /// The run fails with `CounterOverflow` when the next contribution does not
    /// fit in the counter, which for a bounded worker means that the sum of all
    /// its steps does not fit, and with `CellPoisoned` when the cell
    /// cannot be written.
    ///
    /// A run that takes no step stores nothing, so nothing can fail it: a
    /// worker with no steps to take completes normally at once, whatever its
    /// stop signal reads, and a worker with steps to take whose stop signal was
    /// made raised ends cancelled before its first step.
    pub fn run(self) -> (outcome: Result<Progress, TaskFailure>)
        ensures
            self.ran(outcome),
            self.plan().limit == Some(0nat) ==> (outcome matches Ok(end) && end@.phase
                == Phase::CompletedNormal && end@.steps == 0),
            (self.plan().limit != Some(0nat) && self.stopped_from_the_first()) ==> (outcome matches Ok(
                end,
            ) && end@.phase == Phase::CompletedCancelled && end@.steps == 0),
    {
        let silent = |_value: i64| -> (done: ()) {  };
        self.run_with(silent)
    }

    /// What holds of a run of this worker that ended with `outcome`.
    pub open spec fn ran(self, outcome: Result<Progress, TaskFailure>) -> bool {
        match outcome {
            Ok(end) => {
                &&& end@.completed()
                &&& end@.wf()
                &&& end@.seed == self.plan().seed
                &&& end@.limit == self.plan().limit
                &&& end@.phase == Phase::CompletedCancelled ==> self.token().is_some()
                &&& exists|signals: Seq<bool>| self.plan().begin().run(signals) == Some(end@)
            },
            Err(failure) => {
                &&& failure == TaskFailure::CounterOverflow || failure == TaskFailure::CellPoisoned
                &&& failure == TaskFailure::CounterOverflow ==> (self.plan().limit matches Some(n)
                    ==> prefix_sum(self.plan().seed, n) > i64::MAX)
            },
        }
    }

    /// `run`, with `observer` called on the counter's value after each step,
    /// once the value is stored: the place to log it, or to slow the worker
    /// down.
    pub fn run_with<F: Fn(i64)>(self, observer: F) -> (outcome: Result<Progress, TaskFailure>)
        requires
            forall|value: i64| call_requires(observer, (value,)),
        ensures
            self.ran(outcome),
            self.plan().limit == Some(0nat) ==> (outcome matches Ok(end) && end@.phase
                == Phase::CompletedNormal && end@.steps == 0),
            (self.plan().limit != Some(0nat) && self.stopped_from_the_first()) ==> (outcome matches Ok(
                end,
            ) && end@.phase == Phase::CompletedCancelled && end@.steps == 0),
    {
        proof {
            use_type_invariant(&self);
        }
        let mut state = self.progress.begin();
        let ghost start = state@;
        let ghost mut signals: Seq<bool> = Seq::empty();
        proof {
            lemma_steps_bounded(state@.seed, state@.steps);
        }
        while state.is_running()
            invariant
                forall|value: i64| call_requires(observer, (value,)),
                start == self.plan().begin(),
                start.wf(),
                start.run(signals) == Some(state@),
                state@.wf(),
                state@.seed == start.seed,
                state@.limit == start.limit,
                state@.steps < 0x2_0000_0000,
                state@.phase != Phase::Created,
                state@.phase == Phase::CompletedCancelled ==> self.token().is_some(),
                start.limit == Some(0nat) ==> state@.phase != Phase::CompletedCancelled,
                (start.limit != Some(0nat) && self.stopped_from_the_first()) ==> state@.steps == 0
                    && state@.phase != Phase::CompletedNormal,
            decreases moves_left(state@),
        {
            let signaled = self.stop_requested();
            let ghost before = state@;
            let taken = state.steps();
            match state.step(signaled) {
                Err(failure) => {
                    proof {
                        if let Some(n) = before.limit {
                            lemma_prefix_sum_monotonic(before.seed, before.steps + 1, n);
                            lemma_prefix_sum_step(before.seed, before.steps);
                        }
                    }
                    return Err(failure);
                },
                Ok(next) => {
                    proof {
                        lemma_step_keeps_wf(before, signaled);
                        lemma_steps_bounded(next@.seed, next@.steps);
                        let longer = signals.push(signaled);
                        assert(longer.drop_last() == signals);
                        signals = longer;
                    }
                    state = next;
                    if state.steps() != taken {
                        match publish(&self.cell, state.tally()) {
                            Ok(_) => {},
                            Err(_) => {
                                return Err(TaskFailure::CellPoisoned);
                            },
                        }
                        observer(state.value());
                    }
                },
            }
        }
        Ok(state)
    }
}

/// A run that no stop signal can end takes every step: a worker without a stop
/// signal that ends without a failure has completed normally, with all the
/// steps of its limit taken and the closed-form sum in its counter,
/// `seed + steps * (steps - 1) / 2`. Whoever reads the cell meanwhile, and
/// however often, has no part in it.
pub proof fn lemma_unstoppable_run_sums(worker: Worker, end: Progress)
    requires
        worker.ran(Ok(end)),
        worker.token().is_none(),
    ensures
        end@.phase == Phase::CompletedNormal,
        worker.plan().limit == Some(end@.steps),
        end@.value() == prefix_sum(worker.plan().seed, end@.steps),
        2 * (end@.value() - worker.plan().seed) == end@.steps * (end@.steps - 1),
{
    lemma_prefix_sum_closed_form(worker.plan().seed, end@.steps);
}

/// However a run ends, it ends on the worker's own sequence: the counter holds
/// the prefix sum of the steps taken, which are no more than the limit, so it
/// lies between the seed and the sum of all the steps.
pub proof fn lemma_run_ends_on_sequence(worker: Worker, end: Progress)
    requires
        worker.ran(Ok(end)),
    ensures
        end@.value() == prefix_sum(worker.plan().seed, end@.steps),
        worker.plan().seed <= end@.value(),
        worker.plan().limit matches Some(n) ==> end@.steps <= n && end@.value() <= prefix_sum(
            worker.plan().seed,
            n,
        ),
{
    lemma_prefix_sum_monotonic(worker.plan().seed, 0, end@.steps);
    if let Some(n) = worker.plan().limit {
        lemma_prefix_sum_monotonic(worker.plan().seed, end@.steps, n);
    }
}

/// The final record of a run is not below any reading of that run that holds
/// no more steps than it.
pub proof fn lemma_end_is_not_below(worker: Worker, end: Progress, reading: Tally)
    requires
        worker.ran(Ok(end)),
        reading@.seed == worker.plan().seed,
        reading@.steps <= end@.steps,
    ensures
        worker.plan().seed <= reading@.value() <= end@.value(),
{
    lemma_prefix_sum_monotonic(worker.plan().seed, 0, reading@.steps);
    lemma_prefix_sum_monotonic(worker.plan().seed, reading@.steps, end@.steps);
}

} // verus!

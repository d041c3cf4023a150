//! The counter service: what a caller holds while a worker counts in the
//! background. It keeps one handle to the counter's cell, to read it, and one to
//! the stop signal, to raise it; the worker has handles of its own.

use vstd::prelude::*;
use crate::cancel_token::CancelToken;
use crate::failure::{AccessPoisoned, TaskFailure};
use crate::progress::{Progress, ProgressView, StepLimit};
use crate::series::{lemma_prefix_sum_monotonic, prefix_sum};
use crate::shared_cell::SharedCell;
use crate::tally::{Tally, TallyView};
use crate::worker::Worker;

verus! {

/// A counter that a background worker feeds, as its owner sees it.
pub struct CounterService {
    cell: SharedCell<Tally>,
    token: Option<CancelToken>,
    seed: i64,
    limit: StepLimit,
}

impl CounterService {
    /// The cell the service reads.
    pub closed spec fn cell(&self) -> SharedCell<Tally> {
        self.cell
    }

    /// The stop signal the service can raise, if it has one.
    pub closed spec fn token(&self) -> Option<CancelToken> {
        self.token
    }

    /// The value its counter was seeded with.
    pub closed spec fn seed(&self) -> int {
        self.seed as int
    }

    /// The number of steps its worker is to take at most; none for a service
    /// that has no worker yet.
    pub closed spec fn limit(&self) -> Option<nat> {
        self.limit@
    }

    /// Whether `worker` is the one that this service was started with: it
    /// counts from the service's seed up to the service's limit, stores its
    /// counter in the cell the service reads, and watches the stop signal the
    /// service raises.
    pub open spec fn drives(&self, worker: Worker) -> bool {
        &&& worker.cell() == self.cell()
        &&& worker.token() == self.token()
        &&& worker.plan() == ProgressView::initial(self.seed(), self.limit())
    }

    /// Whether `tally` is a counter of this service's run: it started from the
    /// service's seed and has taken no more steps than the worker may take.
    pub open spec fn owns(&self, tally: Tally) -> bool {
        &&& tally@.seed == self.seed()
        &&& self.limit() matches Some(n) ==> tally@.steps <= n
    }

    /// A service whose counter holds `seed` and that has no worker yet.
    pub fn new(seed: i64) -> (service: CounterService)
        ensures
            service.seed() == seed,
            service.limit() == Some(0nat),
            service.token().is_none(),
            service.cell().made_with()@ == (TallyView { seed: seed as int, steps: 0 }),
    {
        CounterService {
            cell: SharedCell::new(Tally::new(seed)),
            token: None,
            seed,
            limit: StepLimit::Bounded(0),
        }
    }

    /// A service and its worker, set up to count from `seed`: fresh storage
    /// seeded with `seed`, a fresh stop signal if `cancellable`, made unraised,
    /// and one handle to each on either side. The worker is ready to be run on
    /// a thread of its own.
    pub fn started(seed: i64, limit: StepLimit, cancellable: bool) -> (pair: (
        CounterService,
        Worker,
    ))
        ensures
            pair.0.drives(pair.1),
            pair.0.seed() == seed,
            pair.0.limit() == limit@,
            pair.0.token().is_some() == cancellable,
            pair.0.token() matches Some(token) ==> !token.made_raised(),
            pair.0.cell().made_with()@ == (TallyView { seed: seed as int, steps: 0 }),
    {
        let cell = SharedCell::new(Tally::new(seed));
        let token = if cancellable {
            Some(CancelToken::new(false))
        } else {
            None
        };
        let task_token = match &token {
            Some(kept) => Some(kept.clone_handle()),
            None => None,
        };
        let worker = Worker::new(cell.clone_handle(), task_token, seed, limit);
        (CounterService { cell, token, seed, limit }, worker)
    }

    /// What `start` does with the reading it took of the counter. From a
    /// reading that was had, it sets up a worker that goes on counting from the
    /// reading's value, and moves the service over to that worker's storage and
    /// stop signal. Without a reading there is no worker, and the service stays
    /// as it is.
    pub fn start_from(
        &mut self,
        reading: Result<Tally, AccessPoisoned>,
        limit: StepLimit,
        cancellable: bool,
    ) -> (worker: Result<Worker, AccessPoisoned>)
        ensures
            match reading {
                Ok(tally) => {
                    &&& worker matches Ok(task) && final(self).drives(task)
                    &&& final(self).seed() == tally@.value()
                    &&& final(self).limit() == limit@
                    &&& final(self).token().is_some() == cancellable
                    &&& final(self).token() matches Some(token) ==> !token.made_raised()
                    &&& final(self).cell().made_with()@ == (TallyView {
                        seed: tally@.value(),
                        steps: 0,
                    })
                },
                Err(poisoned) => worker == Err::<Worker, AccessPoisoned>(poisoned) && *final(self)
                    == *old(self),
            },
    {
        match reading {
            Ok(tally) => {
                let (service, task) = CounterService::started(tally.value(), limit, cancellable);
                *self = service;
                Ok(task)
            },
            Err(poisoned) => Err(poisoned),
        }
    }

    /// Sets up a worker that goes on counting from the value the counter
    /// holds now, and moves the service over to that worker's storage and stop
    /// signal. The value is whatever a snapshot gives at this moment: a prefix
    /// sum of the run so far. If no snapshot can be had the service stays as it
    /// is.
    pub fn start(&mut self, limit: StepLimit, cancellable: bool) -> (worker: Result<
        Worker,
        AccessPoisoned,
    >)
        ensures
            match worker {
                Ok(task) => {
                    &&& final(self).drives(task)
                    &&& final(self).limit() == limit@
                    &&& final(self).token().is_some() == cancellable
                    &&& final(self).token() matches Some(token) ==> !token.made_raised()
                    &&& final(self).cell().made_with()@ == (TallyView {
                        seed: final(self).seed(),
                        steps: 0,
                    })
                    &&& exists|steps: nat|
                        {
                            &&& old(self).limit() matches Some(n) ==> steps <= n
                            &&& final(self).seed() == #[trigger] prefix_sum(
                                old(self).seed(),
                                steps,
                            )
                        }
                },
                Err(_) => *final(self) == *old(self),
            },
    {
        let reading = self.snapshot();
        self.start_from(reading, limit, cancellable)
    }

    /// What a look into the cell amounts to for this service: the counter that
    /// was found, if one was found and it is one of this service's run. A cell
    /// that holds anything else has lost its consistency, and is reported as
    /// poisoned like one that could not be looked into.
    pub open spec fn vetted(&self, found: Result<Tally, AccessPoisoned>) -> Result<
        Tally,
        AccessPoisoned,
    > {
        match found {
            Ok(tally) => if self.owns(tally) {
                found
            } else {
                Err(AccessPoisoned)
            },
            Err(_) => Err(AccessPoisoned),
        }
    }

    /// What `snapshot` makes of what it found in the cell.
    pub fn vet(&self, found: Result<Tally, AccessPoisoned>) -> (reading: Result<
        Tally,
        AccessPoisoned,
    >)
        ensures
            reading == self.vetted(found),
    {
        match found {
            Ok(tally) => {
                if tally.seed() == self.seed && self.limit.admits(tally.steps()) {
                    Ok(tally)
                } else {
                    Err(AccessPoisoned)
                }
            },
            Err(_) => Err(AccessPoisoned),
        }
    }

    /// The counter as it stands: the seed it started from, the steps taken and
    /// the value, which is the prefix sum of those steps. Does not wait for the
    /// worker. The reading is one of this service's run: it is what `vet`
    /// makes of the counter found in the cell.
    pub fn snapshot(&self) -> (reading: Result<Tally, AccessPoisoned>)
        ensures
            reading matches Ok(tally) ==> self.owns(tally),
            exists|found: Result<Tally, AccessPoisoned>| reading == #[trigger] self.vetted(found),
    {
        let copy = |tally: &Tally| -> (out: Tally)
            ensures
                out == *tally,
        {
            *tally
        };
        let found = self.cell.with_ref(copy);
        self.vet(found)
    }

    /// Whether the service has a stop signal to raise.
    pub fn is_cancellable(&self) -> (cancellable: bool)
        ensures
            cancellable == self.token().is_some(),
    {
        self.token.is_some()
    }

    /// Asks the worker to stop, and says whether there was a signal to raise.
    /// Without one this does nothing. Asking again changes nothing.
    pub fn stop(&self) -> (raised: bool)
        ensures
            raised == self.token().is_some(),
    {
        match &self.token {
            Some(token) => {
                token.signal();
                true
            },
            None => false,
        }
    }

    /// What waiting for the worker gives, from what its thread of execution
    /// gave: `None` for a thread that ended by a fault of its own, else what the
    /// worker's run returned. A failure is always passed on.
    pub fn join(joined: Option<Result<Progress, TaskFailure>>) -> (outcome: Result<
        Progress,
        TaskFailure,
    >)
        ensures
            outcome == match joined {
                Some(ran) => ran,
                None => Err(TaskFailure::Panicked),
            },
    {
        match joined {
            Some(ran) => ran,
            None => Err(TaskFailure::Panicked),
        }
    }
}

/// What a service reads before it has a worker is its seed.
pub proof fn lemma_unstarted_reading_is_seed(service: CounterService, tally: Tally)
    requires
        service.limit() == Some(0nat),
        service.owns(tally),
    ensures
        tally@.value() == service.seed(),
{
}

/// Of two readings of one service's run, the one that holds no fewer steps
/// holds no smaller value, and neither is below the seed: the counter never
/// holds a value from outside its own rising sequence.
pub proof fn lemma_readings_rise_with_steps(service: CounterService, first: Tally, second: Tally)
    requires
        service.owns(first),
        service.owns(second),
        first@.steps <= second@.steps,
    ensures
        service.seed() <= first@.value() <= second@.value(),
{
    lemma_prefix_sum_monotonic(service.seed(), 0, first@.steps);
    lemma_prefix_sum_monotonic(service.seed(), first@.steps, second@.steps);
}

} // verus!

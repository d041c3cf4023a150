//! The counter as a value: where it started, how many steps it has taken, and
//! what it holds. A `Tally` always holds the prefix sum that belongs to its
//! seed and step count, so whoever reads one reads a point of the sequence.

use vstd::prelude::*;
use crate::series::{contribution, lemma_prefix_sum_step, lemma_steps_bounded, prefix_sum};

verus! {

/// What a `Tally` stands for: a seed and a number of steps taken.
pub struct TallyView {
    pub seed: int,
    pub steps: nat,
}

impl TallyView {
    /// The counter's value: fixed by the seed and the steps taken.
    pub open spec fn value(self) -> int {
        prefix_sum(self.seed, self.steps)
    }

    /// Whether seed and value are 64-bit signed numbers.
    pub open spec fn fits(self) -> bool {
        i64::MIN <= self.seed && self.value() <= i64::MAX
    }

    /// Whether the next step's contribution still fits in the counter.
    pub open spec fn can_advance(self) -> bool {
        self.value() + contribution(self.steps) <= i64::MAX
    }

    /// The tally after one more step.
    pub open spec fn advanced(self) -> TallyView {
        TallyView { seed: self.seed, steps: self.steps + 1 }
    }
}

/// A counter together with its origin.
#[derive(Clone, Copy, Debug, PartialEq, Eq, Structural)]
pub struct Tally {
    seed: i64,
    steps: u64,
    value: i64,
}

impl View for Tally {
    type V = TallyView;

    closed spec fn view(&self) -> TallyView {
        TallyView { seed: self.seed as int, steps: self.steps as nat }
    }
}

impl Tally {
    #[verifier::type_invariant]
    spec fn consistent(self) -> bool {
        self.value == prefix_sum(self.seed as int, self.steps as nat)
    }

    /// A counter that has taken no step yet.
    pub fn new(seed: i64) -> (tally: Tally)
        ensures
            tally@ == (TallyView { seed: seed as int, steps: 0 }),
            tally@.fits(),
    {
        Tally { seed, steps: 0, value: seed }
    }

    /// The value the counter started from.
    pub fn seed(&self) -> (seed: i64)
        ensures
            seed == self@.seed,
    {
        self.seed
    }

    /// The number of steps taken so far.
    pub fn steps(&self) -> (steps: u64)
        ensures
            steps == self@.steps,
    {
        self.steps
    }

    /// The counter's current value.
    pub fn value(&self) -> (value: i64)
        ensures
            value == self@.value(),
    {
        proof {
            use_type_invariant(self);
        }
        self.value
    }

    /// Takes the next step, unless its contribution would overflow the
    /// counter.
    pub fn advance(self) -> (next: Option<Tally>)
        ensures
            match next {
                Some(tally) => self@.can_advance() && tally@ == self@.advanced() && tally@.fits(),
                None => !self@.can_advance(),
            },
    {
        proof {
            use_type_invariant(&self);
            lemma_steps_bounded(self.seed as int, self.steps as nat);
            lemma_prefix_sum_step(self.seed as int, self.steps as nat);
        }
        let addend: i64 = self.steps as i64;
        if self.value > i64::MAX - addend {
            None
        } else {
            Some(Tally { seed: self.seed, steps: self.steps + 1, value: self.value + addend })
        }
    }
}

} // verus!

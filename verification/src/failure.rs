//! The errors that the counter service reports.

use vstd::prelude::*;

verus! {

/// Exclusive access to a shared cell could not be had: an earlier holder ended
/// abnormally while it held the cell, so the stored value cannot be relied on.
#[derive(Clone, Copy, Debug, PartialEq, Eq, Structural)]
pub struct AccessPoisoned;

/// Why a worker task ended abnormally.
#[derive(Clone, Copy, Debug, PartialEq, Eq, Structural)]
pub enum TaskFailure {
    /// The next contribution would have taken the counter past `i64::MAX`.
    CounterOverflow,
    /// The task could not store its counter: the shared cell was poisoned.
    CellPoisoned,
    /// The thread of execution that ran the task ended by a fault of its own.
    Panicked,
}

} // verus!

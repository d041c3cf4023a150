//! A stop signal that several owners share: one raises it, the others look at
//! it when it suits them.

use vstd::prelude::*;
use std::sync::Arc;
use std::sync::atomic::AtomicBool;
use std::sync::atomic::Ordering;
use crate::handle::share;

verus! {

/// A handle to a flag that is shared by all the handles cloned from one
/// another. Once raised the flag stays raised; a holder learns of it only by
/// looking. Every handle remembers whether the flag was made raised: such a
/// flag is raised for good, and a handle to it need not look.
pub struct CancelToken {
    flag: Arc<AtomicBool>,
    made_raised: bool,
}

impl CancelToken {
    /// Whether the flag was raised when it was made.
    pub closed spec fn made_raised(&self) -> bool {
        self.made_raised
    }

    /// A fresh flag, raised or not as `initial` says, and the one handle to it.
    pub fn new(initial: bool) -> (token: CancelToken)
        ensures
            token.made_raised() == initial,
    {
        CancelToken { flag: Arc::new(AtomicBool::new(initial)), made_raised: initial }
    }

    /// Another handle to the same flag.
    pub fn clone_handle(&self) -> (handle: CancelToken)
        ensures
            handle == *self,
    {
        CancelToken { flag: share(&self.flag), made_raised: self.made_raised }
    }

    /// Raises the flag. Raising a raised flag changes nothing.
    pub fn signal(&self) {
        self.flag.store(true, Ordering::Relaxed);
    }

    /// Whether the flag is seen raised. A flag that was made raised always
    /// is; of any other, this is what a look at the flag gives at this moment.
    pub fn is_signaled(&self) -> (signaled: bool)
        ensures
            self.made_raised() ==> signaled,
    {
        self.made_raised || self.flag.load(Ordering::Relaxed)
    }
}

} // verus!

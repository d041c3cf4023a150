//! One value that several owners share and that only one of them touches at a
//! time.

use vstd::prelude::*;
use std::sync::Arc;
use std::sync::Mutex;
use crate::failure::AccessPoisoned;
use crate::handle::share;

verus! {

/// `std::sync::Mutex`, carried as an opaque value: nothing is known of what it
/// holds at any moment.
#[verifier::external_type_specification]
#[verifier::external_body]
#[verifier::reject_recursive_types(T)]
pub struct ExMutex<T: ?Sized>(Mutex<T>);

/// `Mutex::new`: a new mutex around `value`; nothing is claimed of it.
pub assume_specification<T>[ Mutex::<T>::new ](value: T) -> Mutex<T>;

/// `Mutex::lock`, the guard's `deref_mut`, and the guard's release when it
/// goes out of scope. `action` is run once on the stored value while the lock
/// is held, and what it returns is handed back; the guard is dropped on every
/// way out of the call. A poisoned mutex gives `AccessPoisoned`, and `action` is
/// then not run. Nothing is claimed of the value that `action` finds, nor of
/// whether the lock is poisoned. The call does not return if `action` locks
/// the same mutex again.
#[verifier::external_body]
fn locked<T, R, F: FnOnce(&mut T) -> R>(mutex: &Mutex<T>, action: F) -> (outcome: Result<
    R,
    AccessPoisoned,
>)
    requires
        forall|stored: &mut T| call_requires(action, (stored,)),
    ensures
        outcome matches Ok(out) ==> exists|stored: &mut T| call_ensures(action, (stored,), out),
{
    match mutex.lock() {
        Ok(mut guard) => Ok(action(&mut *guard)),
        Err(_) => Err(AccessPoisoned),
    }
}

/// A handle to a value that is shared by all the handles cloned from one
/// another. Every access goes through `with_ref` or `with_mut`, one at a time.
/// Every handle knows the value its storage was made with.
#[verifier::reject_recursive_types(T)]
pub struct SharedCell<T> {
    inner: Arc<Mutex<T>>,
    seeded: Ghost<T>,
}

impl<T> SharedCell<T> {
    /// The value the storage was made with.
    pub closed spec fn made_with(&self) -> T {
        self.seeded@
    }

    /// Fresh storage that holds `initial`, and the one handle to it.
    pub fn new(initial: T) -> (cell: SharedCell<T>)
        ensures
            cell.made_with() == initial,
    {
        let seeded = Ghost(initial);
        SharedCell { inner: Arc::new(Mutex::new(initial)), seeded }
    }

    /// Another handle to the same storage.
    pub fn clone_handle(&self) -> (handle: SharedCell<T>)
        ensures
            handle == *self,
    {
        SharedCell { inner: share(&self.inner), seeded: self.seeded }
    }

    /// Runs `action` on the stored value with exclusive access and returns what
    /// it returned. The value that `action` finds is whatever the last holder
    /// left: the result is one that `action` can give on some stored value.
    ///
    /// `action` must not reach this cell again, through this handle or
    /// another: the access it would wait for is its own, and the call would
    /// never return.
    pub fn with_mut<R, F: FnOnce(&mut T) -> R>(&self, action: F) -> (outcome: Result<
        R,
        AccessPoisoned,
    >)
        requires
            forall|stored: &mut T| call_requires(action, (stored,)),
        ensures
            outcome matches Ok(out) ==> exists|stored: &mut T|
                call_ensures(action, (stored,), out),
    {
        locked(&self.inner, action)
    }

    /// Runs `action` on the stored value with exclusive access, for reading
    /// only, and returns what it returned.
    ///
    /// `action` must not reach this cell again, through this handle or
    /// another: the access it would wait for is its own, and the call would
    /// never return.
    pub fn with_ref<R, F: FnOnce(&T) -> R>(&self, action: F) -> (outcome: Result<
        R,
        AccessPoisoned,
    >)
        requires
            forall|stored: &T| call_requires(action, (stored,)),
        ensures
            outcome matches Ok(out) ==> exists|stored: &T| call_ensures(action, (stored,), out),
    {
        let reader = |stored: &mut T| -> (out: R)
            ensures
                call_ensures(action, (&*old(stored),), out),
                *final(stored) == *old(stored),
        {
            action(&*stored)
        };
        locked(&self.inner, reader)
    }
}

} // verus!

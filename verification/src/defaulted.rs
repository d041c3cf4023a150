//! A holder that starts out with the default of what it holds.

use vstd::prelude::*;

verus! {

/// Holds one value of a type that has a default.
#[derive(Debug)]
pub struct DemoSpec<T> where T: Default {
    t: T,
}

impl<T> DemoSpec<T> where T: Default {
    /// The value held.
    pub closed spec fn held(&self) -> T {
        self.t
    }

    /// A holder of the default value of `T`.
    pub fn new() -> (demo: DemoSpec<T>)
        ensures
            T::default.ensures((), demo.held()),
    {
        DemoSpec { t: Default::default() }
    }

    /// The value held.
    pub fn value(&self) -> (value: &T)
        ensures
            *value == self.held(),
    {
        &self.t
    }
}

} // verus!

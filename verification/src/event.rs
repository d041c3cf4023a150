//! Events that carry a value, by how grave they are.

use vstd::prelude::*;

verus! {

/// Something that happened, or nothing at all.
#[derive(Debug, Clone)]
pub enum Event<T> {
    Normal(T),
    Warning(T),
    Critical(T),
    NoEvent,
}

impl<T> Event<T> {
    /// The value an event carries, if it is one.
    pub open spec fn payload(self) -> Option<T> {
        match self {
            Event::Normal(ev) => Some(ev),
            Event::Warning(ev) => Some(ev),
            Event::Critical(ev) => Some(ev),
            Event::NoEvent => None,
        }
    }

    /// The value the event carries. There has to be an event.
    pub fn unwrap(&self) -> (ev: &T)
        requires
            self.payload().is_some(),
        ensures
            self.payload() == Some(*ev),
    {
        match self {
            Event::Normal(ev) => ev,
            Event::Warning(ev) => ev,
            Event::Critical(ev) => ev,
            Event::NoEvent => vstd::pervasive::unreached(),
        }
    }
}

} // verus!

//! What a reconciler hands back to the scheduler that called it.

use vstd::prelude::*;

verus! {

/// A span of time: whole seconds and the nanoseconds beyond them.
#[derive(Clone, Copy, Debug, PartialEq, Eq, Structural)]
pub struct Interval {
    pub secs: u64,
    pub nanos: u32,
}

impl Interval {
    /// The span of `secs` whole seconds.
    pub fn from_secs(secs: u64) -> (interval: Interval)
        ensures
            interval == (Interval { secs, nanos: 0 }),
    {
        Interval { secs, nanos: 0 }
    }
}

/// When a resource is to be looked at again.
#[derive(Clone, Copy, Debug, PartialEq, Eq, Structural)]
pub enum Action {
    /// Look at the resource again once the interval has passed.
    Requeue(Interval),
    /// Leave the resource alone until it changes.
    AwaitChange,
}

impl View for Action {
    type V = Action;

    open spec fn view(&self) -> Action {
        *self
    }
}

impl DeepView for Action {
    type V = Action;

    open spec fn deep_view(&self) -> Action {
        *self
    }
}

impl Action {
    /// Asks for another visit after `interval`.
    pub fn requeue(interval: Interval) -> (action: Action)
        ensures
            action == Action::Requeue(interval),
    {
        Action::Requeue(interval)
    }

    /// Asks for no visit before the resource changes.
    pub fn await_change() -> (action: Action)
        ensures
            action == Action::AwaitChange,
    {
        Action::AwaitChange
    }
}

} // verus!

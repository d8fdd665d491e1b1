//! A single-slot mailbox: sending overwrites, receiving consumes.
use vstd::prelude::*;

verus! {

/// Holds at most one pending value. A new value replaces an unconsumed one, so
/// a receiver only ever sees the most recent value.
pub struct Mailbox<T> {
    pub slot: Option<T>,
}

impl<T> Mailbox<T> {
    /// An empty mailbox.
    pub fn new() -> (r: Mailbox<T>)
        ensures
            r.slot is None,
    {
        Mailbox { slot: None }
    }

    /// Leaves `value` in the slot, dropping whatever was pending.
    pub fn signal(&mut self, value: T)
        ensures
            final(self).slot == Some(value),
    {
        self.slot = Some(value);
    }

    /// Takes the pending value, if any, and leaves the slot empty.
    pub fn try_take(&mut self) -> (r: Option<T>)
        ensures
            r == old(self).slot,
            final(self).slot is None,
    {
        self.slot.take()
    }

    /// Whether a value is pending; consumes nothing.
    pub fn signaled(&self) -> (r: bool)
        ensures
            r == self.slot is Some,
    {
        self.slot.is_some()
    }

    /// Drops the pending value, if any.
    pub fn reset(&mut self)
        ensures
            final(self).slot is None,
    {
        self.slot = None;
    }
}

} // verus!

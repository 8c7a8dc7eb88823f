//! The exchange point through which the resource pair changes hands.

use vstd::prelude::*;

verus! {

/// A place for at most one value, written by the start-up context and emptied
/// by the interrupt handler.
///
/// The slot itself is plain data. Every access goes through `&mut self`, so a
/// caller that shares it between contexts must wrap it in a lock or a critical
/// section; the borrow rules then make each operation atomic.
pub struct HandoffSlot<T> {
    cell: Option<T>,
}

impl<T> View for HandoffSlot<T> {
    type V = Option<T>;

    closed spec fn view(&self) -> Option<T> {
        self.cell
    }
}

impl<T> HandoffSlot<T> {
    /// An empty slot.
    pub fn new() -> (slot: Self)
        ensures
            slot@ is None,
    {
        HandoffSlot { cell: None }
    }

    /// Whether nothing is parked in the slot.
    pub fn is_empty(&self) -> (empty: bool)
        ensures
            empty == (self@ is None),
    {
        self.cell.is_none()
    }

    /// Parks `pair` in the slot. Whatever was parked before is dropped; the
    /// start-up sequence deposits once, into an empty slot.
    pub fn deposit(&mut self, pair: T)
        ensures
            final(self)@ == Some(pair),
    {
        self.cell = Some(pair);
    }

    /// Moves the parked value out and leaves the slot empty. Taking from an
    /// empty slot yields `None` and changes nothing.
    pub fn take(&mut self) -> (previous: Option<T>)
        ensures
            previous == old(self)@,
            final(self)@ is None,
    {
        self.cell.take()
    }
}

} // verus!

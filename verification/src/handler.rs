//! The interrupt handler's private storage and its decisions on each firing.

use vstd::prelude::*;
use crate::command::{plan, plan_for, Command};
use crate::slot::HandoffSlot;

verus! {

/// How a firing went about claiming the resource pair.
#[derive(Clone, Copy, Debug, PartialEq, Eq, Structural)]
pub enum Claim {
    /// The handler held the pair already and left the slot alone.
    AlreadyHeld,
    /// The handler took the pair out of the slot on this firing.
    Taken,
    /// The handler looked into the slot and found it empty.
    SlotEmpty,
}

/// What one firing did and what it asks of the hardware.
pub struct Firing {
    /// How the claim went.
    pub claim: Claim,
    /// The commands to carry out on the claimed pair, in order.
    pub commands: Vec<Command>,
}

/// Storage that belongs to the interrupt handler alone and outlives each of
/// its runs. It starts empty, is filled at most once, out of the hand-off
/// slot, and is never cleared or refilled: no method removes the pair, and a
/// claim leaves a held pair as it is.
pub struct IrqLocal<T> {
    held: Option<T>,
}

impl<T> View for IrqLocal<T> {
    type V = Option<T>;

    closed spec fn view(&self) -> Option<T> {
        self.held
    }
}

/// How a claim goes for a handler that holds `local` when the slot holds
/// `slot`.
pub open spec fn claim_of<T>(local: Option<T>, slot: Option<T>) -> Claim {
    if local is Some {
        Claim::AlreadyHeld
    } else if slot is Some {
        Claim::Taken
    } else {
        Claim::SlotEmpty
    }
}

/// What the handler holds after a claim.
pub open spec fn local_after_claim<T>(local: Option<T>, slot: Option<T>) -> Option<T> {
    if local is Some {
        local
    } else {
        slot
    }
}

/// What the slot holds after a claim.
pub open spec fn slot_after_claim<T>(local: Option<T>, slot: Option<T>) -> Option<T> {
    if local is Some {
        slot
    } else {
        None
    }
}

impl<T> IrqLocal<T> {
    /// Storage that holds nothing yet.
    pub fn new() -> (local: Self)
        ensures
            local@ is None,
    {
        IrqLocal { held: None }
    }

    /// Whether the pair has been claimed.
    pub fn is_claimed(&self) -> (claimed: bool)
        ensures
            claimed == (self@ is Some),
    {
        self.held.is_some()
    }

    /// Claims the pair if none is held yet: takes whatever the slot holds and
    /// leaves the slot empty. With a pair in hand the slot is not touched.
    pub fn claim_from(&mut self, slot: &mut HandoffSlot<T>) -> (claim: Claim)
        ensures
            claim == claim_of(old(self)@, old(slot)@),
            final(self)@ == local_after_claim(old(self)@, old(slot)@),
            final(slot)@ == slot_after_claim(old(self)@, old(slot)@),
    {
        if self.held.is_some() {
            Claim::AlreadyHeld
        } else {
            self.held = slot.take();
            if self.held.is_some() {
                Claim::Taken
            } else {
                Claim::SlotEmpty
            }
        }
    }

    /// The commands of the current firing: the full cycle when the pair is
    /// held, nothing otherwise.
    pub fn commands(&self) -> (commands: Vec<Command>)
        ensures
            commands@ == plan_for(self@ is Some),
    {
        plan(self.held.is_some())
    }

    /// One run of the handler: claim if needed, then decide the commands.
    pub fn on_interrupt(&mut self, slot: &mut HandoffSlot<T>) -> (firing: Firing)
        ensures
            firing.claim == claim_of(old(self)@, old(slot)@),
            final(self)@ == local_after_claim(old(self)@, old(slot)@),
            final(slot)@ == slot_after_claim(old(self)@, old(slot)@),
            firing.commands@ == plan_for(final(self)@ is Some),
    {
        let claim = self.claim_from(slot);
        let commands = self.commands();
        Firing { claim, commands }
    }

    /// The claimed pair, for carrying out the commands on it. The borrow can
    /// change the pair but neither remove nor replace the storage's hold on
    /// it.
    pub fn pair_mut(&mut self) -> (pair: Option<&mut T>)
        ensures
            match old(self)@ {
                None => final(self)@ is None && pair is None,
                Some(held) => pair is Some && *pair.unwrap() == held
                    && final(self)@ == Some(*final(pair.unwrap())),
            },
    {
        self.held.as_mut()
    }
}

} // verus!

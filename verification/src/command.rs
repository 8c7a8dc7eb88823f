//! The hardware commands that the interrupt handler issues, and what a
//! reported failure of each one means.

use vstd::prelude::*;

verus! {

/// The time between two flips of the LED, in microseconds. The first alarm
/// and every later one are armed with it.
pub const TOGGLE_PERIOD_US: u32 = 1_000_000;

/// One request to the hardware that owns the LED pin and the alarm.
#[derive(Clone, Copy, Debug, PartialEq, Eq, Structural)]
pub enum Command {
    /// Flip the level of the LED pin.
    ToggleLed,
    /// Acknowledge the alarm's interrupt condition, which never clears by
    /// itself.
    ClearInterrupt,
    /// Arm the one-shot alarm to fire after this many microseconds.
    Schedule(u32),
}

/// What the handler does once a command has been carried out.
#[derive(Clone, Copy, Debug, PartialEq, Eq, Structural)]
pub enum Verdict {
    /// Carry on with the next command.
    Proceed,
    /// Stop for good: the system is in a state that has no recovery.
    Halt,
}

impl Command {
    /// The verdict on this command, given whether the hardware reported
    /// success. Only a failed `Schedule` is fatal: a failed toggle is ignored,
    /// and acknowledging the interrupt cannot fail.
    pub open spec fn verdict_of(self, succeeded: bool) -> Verdict {
        if self is Schedule && !succeeded {
            Verdict::Halt
        } else {
            Verdict::Proceed
        }
    }

    /// Judges the outcome that the hardware reported for this command.
    pub fn verdict(&self, succeeded: bool) -> (verdict: Verdict)
        ensures
            verdict == self.verdict_of(succeeded),
    {
        match self {
            Command::Schedule(_) => if succeeded {
                Verdict::Proceed
            } else {
                Verdict::Halt
            },
            Command::ToggleLed => Verdict::Proceed,
            Command::ClearInterrupt => Verdict::Proceed,
        }
    }
}

/// The commands of one firing: none while the handler holds no resources,
/// else flip the LED, acknowledge the interrupt, and arm the next alarm one
/// period ahead, in that order.
pub open spec fn plan_for(claimed: bool) -> Seq<Command> {
    if claimed {
        seq![Command::ToggleLed, Command::ClearInterrupt, Command::Schedule(TOGGLE_PERIOD_US)]
    } else {
        Seq::empty()
    }
}

/// Builds the commands of one firing.
pub fn plan(claimed: bool) -> (commands: Vec<Command>)
    ensures
        commands@ == plan_for(claimed),
{
    let mut commands: Vec<Command> = Vec::new();
    if claimed {
        commands.push(Command::ToggleLed);
        commands.push(Command::ClearInterrupt);
        commands.push(Command::Schedule(TOGGLE_PERIOD_US));
    }
    assert(commands@ =~= plan_for(claimed));
    commands
}

} // verus!

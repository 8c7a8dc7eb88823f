//! The order of the start-up context's steps, from configured hardware to the
//! idle wait.

use vstd::prelude::*;
use crate::command::TOGGLE_PERIOD_US;
use crate::timeline::{fire, Board, System};

verus! {

/// How far the start-up context has come.
#[derive(Clone, Copy, Debug, PartialEq, Eq, Structural)]
pub enum Stage {
    /// Clocks, pin and timer are set up; nothing is armed yet.
    Configured,
    /// The alarm is armed for the first period.
    Armed,
    /// The alarm raises its interrupt condition when it fires.
    Listening,
    /// The pair rests in the hand-off slot.
    Deposited,
    /// The interrupt line is unmasked; the context only waits from now on.
    Running,
}

/// What the start-up context does next.
#[derive(Clone, Copy, Debug, PartialEq, Eq, Structural)]
pub enum BootAction {
    /// Arm the alarm to fire after this many microseconds.
    Schedule(u32),
    /// Let the alarm raise its interrupt condition.
    EnableAlarmInterrupt,
    /// Move the pair into the hand-off slot, inside a critical section.
    Deposit,
    /// Unmask the alarm's line at the interrupt controller.
    UnmaskInterrupt,
    /// Sleep until an interrupt has been served.
    WaitForInterrupt,
}

impl Stage {
    /// The action that this stage calls for.
    pub open spec fn action_of(self) -> BootAction {
        match self {
            Stage::Configured => BootAction::Schedule(TOGGLE_PERIOD_US),
            Stage::Armed => BootAction::EnableAlarmInterrupt,
            Stage::Listening => BootAction::Deposit,
            Stage::Deposited => BootAction::UnmaskInterrupt,
            Stage::Running => BootAction::WaitForInterrupt,
        }
    }

    /// The stage that follows once the action has been carried out. Arming
    /// the alarm is the one action that can report a failure, and that
    /// failure ends the start-up: there is no stage to go to.
    pub open spec fn after(self, succeeded: bool) -> Option<Stage> {
        match self {
            Stage::Configured => if succeeded {
                Some(Stage::Armed)
            } else {
                None
            },
            Stage::Armed => Some(Stage::Listening),
            Stage::Listening => Some(Stage::Deposited),
            Stage::Deposited => Some(Stage::Running),
            Stage::Running => Some(Stage::Running),
        }
    }

    /// The stage a start-up begins in.
    pub fn first() -> (stage: Stage)
        ensures
            stage == Stage::Configured,
    {
        Stage::Configured
    }

    /// Decides the next action.
    pub fn action(&self) -> (action: BootAction)
        ensures
            action == self.action_of(),
    {
        match self {
            Stage::Configured => BootAction::Schedule(TOGGLE_PERIOD_US),
            Stage::Armed => BootAction::EnableAlarmInterrupt,
            Stage::Listening => BootAction::Deposit,
            Stage::Deposited => BootAction::UnmaskInterrupt,
            Stage::Running => BootAction::WaitForInterrupt,
        }
    }

    /// Moves on after the action was carried out; `None` means halt.
    pub fn advance(&self, succeeded: bool) -> (next: Option<Stage>)
        ensures
            next == self.after(succeeded),
    {
        match self {
            Stage::Configured => if succeeded {
                Some(Stage::Armed)
            } else {
                None
            },
            Stage::Armed => Some(Stage::Listening),
            Stage::Listening => Some(Stage::Deposited),
            Stage::Deposited => Some(Stage::Running),
            Stage::Running => Some(Stage::Running),
        }
    }
}

/// The stage reached after `n` actions that all succeeded.
pub open spec fn stage_after(n: nat) -> Stage
    decreases n,
{
    if n == 0 {
        Stage::Configured
    } else {
        stage_after((n - 1) as nat).after(true).unwrap()
    }
}

/// What an action of the start-up context does to the system when it is
/// carried out at time `now` with `pair` in hand.
pub open spec fn boot_effect<T>(sys: System<T>, action: BootAction, pair: T, now: int) -> System<
    T,
> {
    match action {
        BootAction::Schedule(micros) => System {
            board: Board { alarm_at: Some(now + micros), ..sys.board },
            ..sys
        },
        BootAction::Deposit => System { slot: Some(pair), ..sys },
        _ => sys,
    }
}

/// The system after the first `n` start-up actions, all carried out at time
/// `now`.
pub open spec fn boot<T>(sys: System<T>, pair: T, now: int, n: nat) -> System<T>
    decreases n,
{
    if n == 0 {
        sys
    } else {
        boot_effect(
            boot(sys, pair, now, (n - 1) as nat),
            stage_after((n - 1) as nat).action_of(),
            pair,
            now,
        )
    }
}

proof fn lemma_first_stages()
    ensures
        stage_after(0) == Stage::Configured,
        stage_after(1) == Stage::Armed,
        stage_after(2) == Stage::Listening,
        stage_after(3) == Stage::Deposited,
        stage_after(4) == Stage::Running,
{
    reveal_with_fuel(stage_after, 5);
}

proof fn lemma_runs_forever(n: nat)
    requires
        n >= 4,
    ensures
        stage_after(n) == Stage::Running,
    decreases n,
{
    if n == 4 {
        lemma_first_stages();
    } else {
        lemma_runs_forever((n - 1) as nat);
    }
}

/// The pair is deposited before the interrupt is unmasked: whenever the
/// `m`-th action is the deposit and the `n`-th the unmasking, `m` comes
/// first. Each happens once, and from the unmasking on the context only
/// waits.
pub proof fn law_deposit_precedes_unmask(m: nat, n: nat)
    ensures
        stage_after(m).action_of() == BootAction::Deposit <==> m == 2,
        stage_after(n).action_of() == BootAction::UnmaskInterrupt <==> n == 3,
        stage_after(m).action_of() == BootAction::Deposit && stage_after(n).action_of()
            == BootAction::UnmaskInterrupt ==> m < n,
        n >= 4 ==> stage_after(n).action_of() == BootAction::WaitForInterrupt,
{
    lemma_first_stages();
    if m >= 4 {
        lemma_runs_forever(m);
    }
    if n >= 4 {
        lemma_runs_forever(n);
    }
}

/// At the moment the interrupt is unmasked the slot holds the pair and the
/// alarm is armed one period ahead, so the first firing, whenever it comes,
/// claims that very pair.
pub proof fn law_unmasked_after_deposit<T>(sys: System<T>, pair: T, now: int, at: int)
    requires
        sys.local is None,
    ensures
        boot(sys, pair, now, 3).slot == Some(pair),
        boot(sys, pair, now, 3).local is None,
        boot(sys, pair, now, 3).board.alarm_at == Some(now + TOGGLE_PERIOD_US),
        boot(sys, pair, now, 4) == boot(sys, pair, now, 3),
        fire(boot(sys, pair, now, 4), at).local == Some(pair),
        fire(boot(sys, pair, now, 4), at).slot is None,
{
    lemma_first_stages();
    reveal_with_fuel(boot, 5);
}

} // verus!

//! A model of the whole system over time, and what holds of every run of it.
//!
//! The model puts the handler's two storage places next to the observable
//! state of the hardware and replays firings of the alarm interrupt. Each
//! firing claims and plans exactly as [`crate::handler::IrqLocal::on_interrupt`]
//! does, and the hardware reacts to each command as its data sheet says.

use vstd::prelude::*;
use crate::command::{plan_for, Command, TOGGLE_PERIOD_US};
use crate::handler::{claim_of, local_after_claim, slot_after_claim, Claim};

verus! {

/// The observable state of the LED and the alarm.
pub struct Board {
    /// The logical level of the LED pin.
    pub led_on: bool,
    /// Whether the alarm's interrupt condition is asserted.
    pub irq_pending: bool,
    /// The time, in microseconds, at which the armed alarm fires; `None` when
    /// it is not armed.
    pub alarm_at: Option<int>,
    /// How often the LED has been flipped.
    pub toggles: nat,
    /// How often the alarm has been armed by the handler.
    pub schedules: nat,
}

/// The system between two firings.
pub struct System<T> {
    /// What the handler's own storage holds.
    pub local: Option<T>,
    /// What the hand-off slot holds.
    pub slot: Option<T>,
    /// The hardware.
    pub board: Board,
    /// The time of the latest firing, in microseconds.
    pub clock: int,
    /// How many firings took the pair out of the slot.
    pub takes: nat,
    /// How many firings looked into the slot at all.
    pub slot_visits: nat,
}

/// The board after one command issued at time `now`.
pub open spec fn carry_out(board: Board, now: int, command: Command) -> Board {
    match command {
        Command::ToggleLed => Board {
            led_on: !board.led_on,
            toggles: board.toggles + 1,
            ..board
        },
        Command::ClearInterrupt => Board { irq_pending: false, ..board },
        Command::Schedule(micros) => Board {
            alarm_at: Some(now + micros),
            schedules: board.schedules + 1,
            ..board
        },
    }
}

/// The board after a run of commands issued at time `now`, first to last.
pub open spec fn carry_out_all(board: Board, now: int, commands: Seq<Command>) -> Board
    decreases commands.len(),
{
    if commands.len() == 0 {
        board
    } else {
        carry_out(carry_out_all(board, now, commands.drop_last()), now, commands.last())
    }
}

/// The system after the alarm fired at time `now` and the handler ran once.
/// Firing asserts the interrupt condition and disarms the one-shot alarm; the
/// handler then claims if it must and its commands reach the board.
pub open spec fn fire<T>(sys: System<T>, now: int) -> System<T> {
    let claim = claim_of(sys.local, sys.slot);
    let local = local_after_claim(sys.local, sys.slot);
    let raised = Board { irq_pending: true, alarm_at: None, ..sys.board };
    System {
        local,
        slot: slot_after_claim(sys.local, sys.slot),
        board: carry_out_all(raised, now, plan_for(local is Some)),
        clock: now,
        takes: if claim == Claim::Taken {
            sys.takes + 1
        } else {
            sys.takes
        },
        slot_visits: if claim == Claim::AlreadyHeld {
            sys.slot_visits
        } else {
            sys.slot_visits + 1
        },
    }
}

/// When the next firing happens: at the time the alarm is armed for, or at
/// once where the handler left it unarmed.
pub open spec fn next_firing_time<T>(sys: System<T>) -> int {
    match sys.board.alarm_at {
        Some(due) => due,
        None => sys.clock,
    }
}

/// The system after `n` firings in a row, each at the time it falls due.
pub open spec fn run<T>(sys: System<T>, n: nat) -> System<T>
    decreases n,
{
    if n == 0 {
        sys
    } else {
        let before = run(sys, (n - 1) as nat);
        fire(before, next_firing_time(before))
    }
}

/// The board after the full cycle of commands.
proof fn lemma_full_cycle(board: Board, now: int)
    ensures
        carry_out_all(board, now, plan_for(true)) == (Board {
            led_on: !board.led_on,
            irq_pending: false,
            alarm_at: Some(now + TOGGLE_PERIOD_US),
            toggles: board.toggles + 1,
            schedules: board.schedules + 1,
        }),
{
    let all = plan_for(true);
    let two = seq![Command::ToggleLed, Command::ClearInterrupt];
    let one = seq![Command::ToggleLed];
    assert(all.drop_last() =~= two);
    assert(two.drop_last() =~= one);
    assert(one.drop_last() =~= Seq::<Command>::empty());
    assert(carry_out_all(board, now, Seq::<Command>::empty()) == board);
    assert(carry_out_all(board, now, one) == carry_out(board, now, Command::ToggleLed));
    assert(carry_out_all(board, now, two) == carry_out(
        carry_out_all(board, now, one),
        now,
        Command::ClearInterrupt,
    ));
}

/// Everything that holds after `n` firings of a system that was started in
/// order: pair deposited, handler empty-handed, alarm armed for `start`.
proof fn lemma_run_from_start<T>(sys: System<T>, start: int, n: nat)
    requires
        sys.slot is Some,
        sys.local is None,
        sys.board.alarm_at == Some(start),
        n >= 1,
    ensures
        run(sys, n).local == sys.slot,
        run(sys, n).clock == start + (n - 1) * TOGGLE_PERIOD_US,
        run(sys, n).board.alarm_at == Some(start + n * TOGGLE_PERIOD_US),
        run(sys, n).board.toggles == sys.board.toggles + n,
        run(sys, n).board.schedules == sys.board.schedules + n,
        run(sys, n).board.led_on == (sys.board.led_on != (n % 2 == 1)),
        !run(sys, n).board.irq_pending,
    decreases n,
{
    let before = run(sys, (n - 1) as nat);
    if n == 1 {
        assert(before == sys);
    } else {
        lemma_run_from_start(sys, start, (n - 1) as nat);
    }
    let now = next_firing_time(before);
    let raised = Board { irq_pending: true, alarm_at: None, ..before.board };
    lemma_full_cycle(raised, now);
    assert(run(sys, n) == fire(before, now));
}

/// Over any number of firings the pair is taken out of the slot exactly once,
/// the slot is never looked into again after that, and the pair rests in
/// exactly one place: the handler's own storage.
pub proof fn law_claimed_exactly_once<T>(sys: System<T>, n: nat)
    requires
        sys.slot is Some,
        sys.local is None,
        n >= 1,
    ensures
        run(sys, n).takes == sys.takes + 1,
        run(sys, n).slot_visits == sys.slot_visits + 1,
        run(sys, n).local == sys.slot,
        run(sys, n).slot is None,
{
    law_claimed_at_most_once(sys, n);
}

/// Whatever the starting state, a firing never leaves the pair in two places
/// when it was in at most one, and a pair that the handler holds stays the
/// one it holds.
pub proof fn law_never_duplicated<T>(sys: System<T>, now: int)
    ensures
        !(sys.local is Some && sys.slot is Some) ==> !(fire(sys, now).local is Some && fire(
            sys,
            now,
        ).slot is Some),
        sys.local is Some ==> fire(sys, now).local == sys.local && fire(sys, now).slot
            == sys.slot && fire(sys, now).slot_visits == sys.slot_visits,
        fire(sys, now).takes <= sys.takes + 1,
{
}

/// With the pair deposited before the interrupt can fire, the very first
/// firing finds it in the slot and claims it.
pub proof fn law_first_firing_claims<T>(sys: System<T>, now: int)
    requires
        sys.slot is Some,
        sys.local is None,
    ensures
        claim_of(sys.local, sys.slot) == Claim::Taken,
        fire(sys, now).local == sys.slot,
        fire(sys, now).slot is None,
        fire(sys, now).takes == sys.takes + 1,
{
}

/// A firing that finds nothing to claim does nothing: no flip, no new alarm,
/// and the handler stays empty-handed.
pub proof fn law_empty_firing_is_idle<T>(sys: System<T>, now: int)
    requires
        sys.slot is None,
        sys.local is None,
    ensures
        fire(sys, now).local is None,
        fire(sys, now).slot is None,
        fire(sys, now).takes == sys.takes,
        fire(sys, now).board.led_on == sys.board.led_on,
        fire(sys, now).board.toggles == sys.board.toggles,
        fire(sys, now).board.schedules == sys.board.schedules,
        fire(sys, now).board.alarm_at is None,
{
    assert(plan_for(false).len() == 0);
}

/// The LED flips on every firing from the claim on: after `n` firings it has
/// been flipped `n` times, so its level differs from the initial one exactly
/// when `n` is odd, and each firing's level is the opposite of the one before.
pub proof fn law_led_alternates<T>(sys: System<T>, n: nat)
    requires
        sys.slot is Some,
        sys.local is None,
        sys.board.alarm_at is Some,
        n >= 1,
    ensures
        run(sys, n).board.toggles == sys.board.toggles + n,
        run(sys, n).board.led_on == (sys.board.led_on != (n % 2 == 1)),
        run(sys, n + 1).board.led_on == !run(sys, n).board.led_on,
{
    let start = sys.board.alarm_at.unwrap();
    lemma_run_from_start(sys, start, n);
    lemma_run_from_start(sys, start, n + 1);
}

/// Firings, and with them the flips of the LED, come one period apart for as
/// long as the system runs: each firing re-arms the alarm for exactly one
/// period after its own time.
pub proof fn law_steady_period<T>(sys: System<T>, n: nat)
    requires
        sys.slot is Some,
        sys.local is None,
        sys.board.alarm_at is Some,
        n >= 1,
    ensures
        run(sys, n).clock == sys.board.alarm_at.unwrap() + (n - 1) * TOGGLE_PERIOD_US,
        run(sys, n).board.alarm_at == Some(run(sys, n).clock + TOGGLE_PERIOD_US),
        run(sys, n + 1).clock - run(sys, n).clock == TOGGLE_PERIOD_US,
        run(sys, n).board.schedules == sys.board.schedules + n,
{
    let start = sys.board.alarm_at.unwrap();
    lemma_run_from_start(sys, start, n);
    lemma_run_from_start(sys, start, n + 1);
}

/// In every plan each `Schedule` comes after a `ClearInterrupt`: the handler
/// never re-arms the alarm over an interrupt condition that is still
/// asserted.
pub proof fn law_clear_precedes_schedule(claimed: bool, i: int)
    requires
        0 <= i < plan_for(claimed).len(),
        plan_for(claimed)[i] is Schedule,
    ensures
        exists|j: int| 0 <= j < i && plan_for(claimed)[j] == Command::ClearInterrupt,
{
    assert(plan_for(claimed)[1] == Command::ClearInterrupt);
}

/// A firing that armed the alarm anew has also cleared the interrupt
/// condition, from whatever state it began: the handler never returns with a
/// fresh alarm and the line still asserted.
pub proof fn law_rescheduled_means_cleared<T>(sys: System<T>, now: int)
    ensures
        fire(sys, now).board.schedules > sys.board.schedules ==> !fire(sys, now).board.irq_pending,
        fire(sys, now).board.schedules > sys.board.schedules ==> fire(sys, now).board.alarm_at
            == Some(now + TOGGLE_PERIOD_US),
{
    let raised = Board { irq_pending: true, alarm_at: None, ..sys.board };
    if local_after_claim(sys.local, sys.slot) is Some {
        lemma_full_cycle(raised, now);
    } else {
        assert(plan_for(false).len() == 0);
    }
}

/// From any state and over any number of firings, the pair is taken out of
/// the slot at most once, and a handler that holds the pair keeps that very
/// pair and never looks into the slot again. An empty-handed handler takes
/// whatever the slot holds on the first firing; while it finds nothing, it
/// looks again on every firing.
pub proof fn law_claimed_at_most_once<T>(sys: System<T>, n: nat)
    ensures
        run(sys, n).takes <= sys.takes + 1,
        run(sys, n).takes == sys.takes + 1 <==> n >= 1 && sys.local is None && sys.slot is Some,
        sys.local is Some ==> run(sys, n).local == sys.local && run(sys, n).slot == sys.slot
            && run(sys, n).slot_visits == sys.slot_visits,
        sys.local is None && n >= 1 ==> run(sys, n).local == sys.slot && run(sys, n).slot is None,
        sys.local is None ==> run(sys, n).slot_visits == sys.slot_visits + (if sys.slot is Some
            && n >= 1 {
            1
        } else {
            n as int
        }),
        !(sys.local is Some && sys.slot is Some) ==> !(run(sys, n).local is Some && run(
            sys,
            n,
        ).slot is Some),
    decreases n,
{
    if n > 0 {
        law_claimed_at_most_once(sys, (n - 1) as nat);
        let before = run(sys, (n - 1) as nat);
        assert(run(sys, n) == fire(before, next_firing_time(before)));
        if n == 1 {
            assert(before == sys);
        }
    }
}

} // verus!

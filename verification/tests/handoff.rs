use blinky_handoff::command::{plan, Command, Verdict, TOGGLE_PERIOD_US};
use blinky_handoff::handler::{Claim, Firing, IrqLocal};
use blinky_handoff::slot::HandoffSlot;
use blinky_handoff::startup::{BootAction, Stage};

/// A stand-in for the pin and the alarm that records what was done to it.
#[derive(Debug, PartialEq, Eq)]
struct FakePair {
    id: u32,
    led_on: bool,
    irq_pending: bool,
    alarm_at: Option<u64>,
    toggles: u32,
    clears: u32,
    schedules: u32,
    scheduled_while_pending: u32,
}

fn fake_pair(id: u32, led_on: bool) -> FakePair {
    FakePair {
        id,
        led_on,
        irq_pending: false,
        alarm_at: None,
        toggles: 0,
        clears: 0,
        schedules: 0,
        scheduled_while_pending: 0,
    }
}

fn carry_out(pair: &mut FakePair, now: u64, command: Command) {
    match command {
        Command::ToggleLed => {
            pair.led_on = !pair.led_on;
            pair.toggles += 1;
        }
        Command::ClearInterrupt => {
            pair.irq_pending = false;
            pair.clears += 1;
        }
        Command::Schedule(micros) => {
            if pair.irq_pending {
                pair.scheduled_while_pending += 1;
            }
            pair.alarm_at = Some(now + u64::from(micros));
            pair.schedules += 1;
        }
    }
}

/// One firing at time `now`: the alarm raises its condition, the handler runs,
/// and its commands reach the claimed pair.
fn fire(local: &mut IrqLocal<FakePair>, slot: &mut HandoffSlot<FakePair>, now: u64) -> Firing {
    let firing = local.on_interrupt(slot);
    if let Some(pair) = local.pair_mut() {
        pair.irq_pending = true;
        pair.alarm_at = None;
        for command in firing.commands.iter() {
            carry_out(pair, now, *command);
        }
    }
    firing
}

#[test]
fn new_slot_is_empty() {
    let slot: HandoffSlot<u8> = HandoffSlot::new();
    assert!(slot.is_empty());
}

#[test]
fn deposit_then_take_then_take_again() {
    let mut slot: HandoffSlot<(u8, u16)> = HandoffSlot::new();
    slot.deposit((25, 7));
    assert!(!slot.is_empty());
    assert_eq!(slot.take(), Some((25, 7)));
    assert!(slot.is_empty());
    assert_eq!(slot.take(), None);
}

#[test]
fn take_from_empty_slot_is_absence() {
    let mut slot: HandoffSlot<String> = HandoffSlot::new();
    assert_eq!(slot.take(), None);
    assert_eq!(slot.take(), None);
    assert!(slot.is_empty());
    slot.deposit(String::from("pair"));
    assert_eq!(slot.take(), Some(String::from("pair")));
}

#[test]
fn deposit_over_a_parked_value_keeps_the_latest() {
    let mut slot: HandoffSlot<u32> = HandoffSlot::new();
    slot.deposit(1);
    slot.deposit(2);
    assert_eq!(slot.take(), Some(2));
    assert_eq!(slot.take(), None);
}

#[test]
fn plan_is_toggle_clear_schedule() {
    assert_eq!(TOGGLE_PERIOD_US, 1_000_000);
    assert_eq!(
        plan(true),
        vec![
            Command::ToggleLed,
            Command::ClearInterrupt,
            Command::Schedule(1_000_000),
        ]
    );
    assert_eq!(plan(false), Vec::<Command>::new());
}

#[test]
fn clear_comes_before_schedule() {
    let commands = plan(true);
    let clear = commands
        .iter()
        .position(|c| *c == Command::ClearInterrupt)
        .unwrap();
    let schedule = commands
        .iter()
        .position(|c| matches!(c, Command::Schedule(_)))
        .unwrap();
    assert!(clear < schedule);
}

#[test]
fn verdicts() {
    assert_eq!(Command::ToggleLed.verdict(true), Verdict::Proceed);
    assert_eq!(Command::ToggleLed.verdict(false), Verdict::Proceed);
    assert_eq!(Command::ClearInterrupt.verdict(true), Verdict::Proceed);
    assert_eq!(Command::ClearInterrupt.verdict(false), Verdict::Proceed);
    assert_eq!(Command::Schedule(1_000_000).verdict(true), Verdict::Proceed);
    assert_eq!(Command::Schedule(1_000_000).verdict(false), Verdict::Halt);
}

#[test]
fn new_local_holds_nothing() {
    let mut local: IrqLocal<u8> = IrqLocal::new();
    assert!(!local.is_claimed());
    assert!(local.pair_mut().is_none());
    assert_eq!(local.commands(), Vec::<Command>::new());
}

#[test]
fn first_firing_claims_the_deposited_pair() {
    let mut slot = HandoffSlot::new();
    let mut local = IrqLocal::new();
    slot.deposit(fake_pair(25, false));
    let firing = local.on_interrupt(&mut slot);
    assert_eq!(firing.claim, Claim::Taken);
    assert_eq!(firing.commands, plan(true));
    assert!(slot.is_empty());
    assert!(local.is_claimed());
    assert_eq!(local.pair_mut(), Some(&mut fake_pair(25, false)));
}

#[test]
fn firing_before_deposit_does_nothing() {
    let mut slot: HandoffSlot<FakePair> = HandoffSlot::new();
    let mut local = IrqLocal::new();
    let early = fire(&mut local, &mut slot, 10);
    assert_eq!(early.claim, Claim::SlotEmpty);
    assert!(early.commands.is_empty());
    assert!(!local.is_claimed());
    assert!(slot.is_empty());

    slot.deposit(fake_pair(1, true));
    let late = fire(&mut local, &mut slot, 20);
    assert_eq!(late.claim, Claim::Taken);
    assert_eq!(late.commands.len(), 3);
    assert_eq!(local.pair_mut().unwrap().toggles, 1);
    assert!(!local.pair_mut().unwrap().led_on);
}

#[test]
fn claim_from_leaves_a_held_pair_alone() {
    let mut slot = HandoffSlot::new();
    let mut local = IrqLocal::new();
    slot.deposit(7u32);
    assert_eq!(local.claim_from(&mut slot), Claim::Taken);
    slot.deposit(8u32);
    assert_eq!(local.claim_from(&mut slot), Claim::AlreadyHeld);
    assert_eq!(local.pair_mut(), Some(&mut 7));
    assert_eq!(slot.take(), Some(8));
    assert_eq!(local.claim_from(&mut slot), Claim::AlreadyHeld);
    assert_eq!(local.pair_mut(), Some(&mut 7));
}

#[test]
fn claim_from_an_empty_slot() {
    let mut slot: HandoffSlot<u32> = HandoffSlot::new();
    let mut local = IrqLocal::new();
    assert_eq!(local.claim_from(&mut slot), Claim::SlotEmpty);
    assert!(!local.is_claimed());
    assert!(slot.is_empty());
}

#[test]
fn pair_mut_changes_stay() {
    let mut slot = HandoffSlot::new();
    let mut local = IrqLocal::new();
    slot.deposit((1u8, 2u8));
    local.claim_from(&mut slot);
    if let Some(pair) = local.pair_mut() {
        pair.0 = 9;
    }
    assert_eq!(local.pair_mut(), Some(&mut (9, 2)));
    assert!(local.is_claimed());
}

#[test]
fn ten_firings_after_claim() {
    let mut slot = HandoffSlot::new();
    let mut local = IrqLocal::new();
    slot.deposit(fake_pair(25, false));

    let mut takes = 0;
    let mut slot_visits = 0;
    let mut now: u64 = 1_000_000;
    for firing_no in 1..=10 {
        let firing = fire(&mut local, &mut slot, now);
        match firing.claim {
            Claim::Taken => {
                takes += 1;
                slot_visits += 1;
                assert_eq!(firing_no, 1);
            }
            Claim::SlotEmpty => slot_visits += 1,
            Claim::AlreadyHeld => assert!(firing_no > 1),
        }
        assert_eq!(firing.commands, plan(true));
        now = local.pair_mut().unwrap().alarm_at.unwrap();
    }
    assert_eq!(takes, 1);
    assert_eq!(slot_visits, 1);
    let pair = local.pair_mut().unwrap();
    assert_eq!(pair.toggles, 10);
    assert_eq!(pair.schedules, 10);
    assert_eq!(pair.clears, 10);
    assert_eq!(pair.scheduled_while_pending, 0);
    assert!(!pair.irq_pending);
    assert_eq!(pair.id, 25);
    assert!(slot.is_empty());
}

#[test]
fn led_level_alternates() {
    let mut slot = HandoffSlot::new();
    let mut local = IrqLocal::new();
    slot.deposit(fake_pair(25, false));
    let mut levels = Vec::new();
    for n in 0..6u64 {
        fire(&mut local, &mut slot, n * 1_000_000);
        levels.push(local.pair_mut().unwrap().led_on);
    }
    assert_eq!(levels, vec![true, false, true, false, true, false]);
}

#[test]
fn led_level_alternates_from_high() {
    let mut slot = HandoffSlot::new();
    let mut local = IrqLocal::new();
    slot.deposit(fake_pair(25, true));
    let mut levels = Vec::new();
    for n in 0..3u64 {
        fire(&mut local, &mut slot, n * 1_000_000);
        levels.push(local.pair_mut().unwrap().led_on);
    }
    assert_eq!(levels, vec![false, true, false]);
}

#[test]
fn firings_are_one_period_apart() {
    let mut slot = HandoffSlot::new();
    let mut local = IrqLocal::new();
    let mut pair = fake_pair(25, false);
    pair.alarm_at = Some(1_000_000);
    slot.deposit(pair);

    let mut now: u64 = 1_000_000;
    let mut times = Vec::new();
    for _ in 0..5 {
        fire(&mut local, &mut slot, now);
        times.push(now);
        now = local.pair_mut().unwrap().alarm_at.unwrap();
    }
    assert_eq!(times, vec![1_000_000, 2_000_000, 3_000_000, 4_000_000, 5_000_000]);
    assert_eq!(now, 6_000_000);
}

#[test]
fn startup_order() {
    let mut stage = Stage::first();
    assert_eq!(stage, Stage::Configured);
    let mut actions = Vec::new();
    for _ in 0..7 {
        actions.push(stage.action());
        stage = stage.advance(true).unwrap();
    }
    assert_eq!(
        actions,
        vec![
            BootAction::Schedule(1_000_000),
            BootAction::EnableAlarmInterrupt,
            BootAction::Deposit,
            BootAction::UnmaskInterrupt,
            BootAction::WaitForInterrupt,
            BootAction::WaitForInterrupt,
            BootAction::WaitForInterrupt,
        ]
    );
    assert_eq!(stage, Stage::Running);
}

#[test]
fn startup_halts_when_the_first_alarm_cannot_be_armed() {
    assert_eq!(Stage::Configured.advance(false), None);
    assert_eq!(Stage::Configured.advance(true), Some(Stage::Armed));
    assert_eq!(Stage::Armed.advance(false), Some(Stage::Listening));
    assert_eq!(Stage::Listening.advance(false), Some(Stage::Deposited));
    assert_eq!(Stage::Deposited.advance(false), Some(Stage::Running));
    assert_eq!(Stage::Running.advance(false), Some(Stage::Running));
}

#[test]
fn startup_then_first_firing() {
    let mut slot = HandoffSlot::new();
    let mut local = IrqLocal::new();
    let mut in_hand = Some(fake_pair(25, false));
    let mut unmasked = false;
    let mut stage = Stage::first();
    while stage != Stage::Running {
        match stage.action() {
            BootAction::Schedule(micros) => {
                in_hand.as_mut().unwrap().alarm_at = Some(u64::from(micros));
            }
            BootAction::EnableAlarmInterrupt => {}
            BootAction::Deposit => {
                assert!(!unmasked);
                slot.deposit(in_hand.take().unwrap());
            }
            BootAction::UnmaskInterrupt => {
                assert!(!slot.is_empty());
                unmasked = true;
            }
            BootAction::WaitForInterrupt => {}
        }
        stage = stage.advance(true).unwrap();
    }
    assert!(unmasked);
    let firing = fire(&mut local, &mut slot, 1_000_000);
    assert_eq!(firing.claim, Claim::Taken);
    let pair = local.pair_mut().unwrap();
    assert_eq!(pair.id, 25);
    assert!(pair.led_on);
    assert_eq!(pair.alarm_at, Some(2_000_000));
}

//! Ownership hand-off and interrupt-side decisions for a timer-driven blinker.
//!
//! A start-up context owns an LED pin and an armed alarm. It parks the pair in
//! a [`slot::HandoffSlot`]; the alarm's interrupt handler claims the pair into
//! its own [`handler::IrqLocal`] storage on its first run and from then on
//! answers every firing with the same three hardware commands. The crate holds
//! the decisions only: the caller owns the hardware, performs the commands and
//! guards the slot against preemption.

pub mod command;
pub mod handler;
pub mod slot;
pub mod startup;
pub mod timeline;

//! A Pomodoro-style countdown timer core.
//!
//! The timer tracks one countdown at a time across focus / break phases.
//! Remaining time is always computed from a recorded start instant rather
//! than decremented by periodic ticks, so the reported value is correct no
//! matter how often or irregularly it is polled. All arithmetic on the
//! remaining seconds saturates at zero: an expired countdown reports zero,
//! never an error or a negative value.

mod clock;
pub mod laws;
pub mod timer;

pub use timer::{Phase, Timer, TimerState};

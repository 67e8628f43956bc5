//! Verified core of a two-line antiphase blinker driven by a hardware
//! counter: the timer-period computation, the order in which the timer is
//! programmed, the paired output write, and the polling state machine.
//!
//! The crate performs no register access itself. It computes plain values
//! and commands; the firmware around it carries them to the peripherals.

pub mod config;
pub mod narrowing;
pub mod output;
pub mod poll;
pub mod timer;

//! Phase and pause coordination for an interval timer.
//!
//! The timer alternates focus and break phases for a number of cycles. An
//! operator can pause and resume it at will, a reversible toggle outside
//! the program follows the phases and the pauses, and an alert closes each
//! cycle.
//!
//! Nothing in this crate sleeps, reads input, draws or runs a command. The
//! timing logic is a set of step machines: each takes what was observed,
//! moves on, and hands back what has to be done. A driver around the crate
//! does it and comes back for more.
//!
//! * [`config`]: the settings of a run.
//! * [`pause`]: the flag through which the operator's wish reaches the
//!   timer.
//! * [`listener`]: which lines of input flip that flag.
//! * [`phase`]: the machine that counts one phase down, pauses included.
//! * [`cycle`]: the machine that strings phases and alerts into a run.
//! * [`interrupt`]: the machine of the handler that ends a run from
//!   outside.
//! * [`phase_laws`], [`cycle_laws`]: what holds of every run of the two
//!   machines, whatever the operator does.
//! * [`wifi`], [`alert`]: the toggle and the alert as commands for macOS.

pub mod alert;
pub mod config;
pub mod cycle;
pub mod cycle_laws;
pub mod interrupt;
pub mod listener;
pub mod pause;
pub mod phase;
pub mod phase_laws;
pub mod wifi;

//! The immutable settings of one timer run.

use vstd::prelude::*;

verus! {

/// Seconds of focus per cycle when the caller gives none.
pub const DEFAULT_FOCUS_SECONDS: u64 = 1500;

/// Seconds of break per cycle when the caller gives none.
pub const DEFAULT_BREAK_SECONDS: u64 = 300;

/// Number of cycles when the caller gives none.
pub const DEFAULT_CYCLE_COUNT: u32 = 1;

/// How long the two phases last and how often they repeat.
///
/// A configuration is fixed once built: the fields are private and no method
/// changes them.
#[derive(Clone, Copy, Debug, PartialEq, Eq, Structural)]
pub struct Configuration {
    focus_duration: u64,
    break_duration: u64,
    cycle_count: u32,
}

impl Configuration {
    /// Seconds of one focus phase.
    pub closed spec fn focus_seconds(self) -> u64 {
        self.focus_duration
    }

    /// Seconds of one break phase.
    pub closed spec fn break_seconds(self) -> u64 {
        self.break_duration
    }

    /// Number of focus/break cycles.
    pub closed spec fn cycles(self) -> u32 {
        self.cycle_count
    }

    /// Builds a configuration from its three settings.
    pub fn new(focus_duration: u64, break_duration: u64, cycle_count: u32) -> (config: Self)
        ensures
            config.focus_seconds() == focus_duration,
            config.break_seconds() == break_duration,
            config.cycles() == cycle_count,
    {
        Configuration { focus_duration, break_duration, cycle_count }
    }

    /// Seconds of one focus phase.
    pub fn focus_duration(&self) -> (seconds: u64)
        ensures
            seconds == self.focus_seconds(),
    {
        self.focus_duration
    }

    /// Seconds of one break phase.
    pub fn break_duration(&self) -> (seconds: u64)
        ensures
            seconds == self.break_seconds(),
    {
        self.break_duration
    }

    /// Number of focus/break cycles.
    pub fn cycle_count(&self) -> (count: u32)
        ensures
            count == self.cycles(),
    {
        self.cycle_count
    }
}

impl Default for Configuration {
    /// Twenty-five minutes of focus, five of break, once.
    fn default() -> (config: Self)
        ensures
            config.focus_seconds() == DEFAULT_FOCUS_SECONDS,
            config.break_seconds() == DEFAULT_BREAK_SECONDS,
            config.cycles() == DEFAULT_CYCLE_COUNT,
    {
        Configuration::new(DEFAULT_FOCUS_SECONDS, DEFAULT_BREAK_SECONDS, DEFAULT_CYCLE_COUNT)
    }
}

} // verus!

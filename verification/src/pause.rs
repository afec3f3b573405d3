//! The pause signal shared by the input listener and the timer.

use std::sync::atomic::AtomicBool;
use std::sync::atomic::Ordering;
use vstd::prelude::*;

verus! {

/// A boolean flag that one thread flips and another reads.
///
/// The flag is reached through [`PauseSignal::read`] and
/// [`PauseSignal::toggle`] alone. Both are single sequentially consistent
/// atomic operations, so no flip is lost and no torn value is seen. What
/// the flag holds depends on what the other thread has done, so a read
/// promises no value, a flip only how its two sides relate, and the
/// machines that consume a reading are verified for both values.
pub struct PauseSignal {
    flag: AtomicBool,
}

impl PauseSignal {
    /// A signal that reads "not paused".
    pub fn new() -> (signal: Self) {
        PauseSignal { flag: AtomicBool::new(false) }
    }

    /// Whether pause is wanted at this moment.
    pub fn read(&self) -> (paused: bool) {
        self.flag.load(Ordering::SeqCst)
    }

    /// Flips the flag in one atomic step and returns both sides of the flip.
    pub fn toggle(&self) -> (flip: Flip)
        ensures
            flip.now_paused == !flip.was_paused,
    {
        let was_paused = self.flag.fetch_xor(true, Ordering::SeqCst);
        Flip { was_paused, now_paused: !was_paused }
    }
}

/// The two sides of one flip of the signal: what it held just before, and
/// what it held just after, which is the opposite.
#[derive(Clone, Copy, Debug, PartialEq, Eq, Structural)]
pub struct Flip {
    pub was_paused: bool,
    pub now_paused: bool,
}

} // verus!

//! The timer of a single phase, as a step machine.
//!
//! A phase counts whole seconds from zero up to its duration. The machine
//! never sleeps, draws or switches anything itself: every call of
//! [`PhaseTimer::step`] takes the present reading of the pause signal and
//! hands back the one thing the driver has to do next. The driver does it,
//! reads the signal again and asks for the next step.
//!
//! A step does not ask how the action before it went. A toggle that could
//! not be asserted is the driver's to log; the count goes on regardless.

use vstd::prelude::*;
use crate::pause::PauseSignal;

verus! {

/// The length of one tick, in milliseconds: one second.
pub const TICK_MILLIS: u64 = 1000;

/// The length of one polling interval, in milliseconds: how long a paused
/// phase leaves the pause signal alone between two looks at it. It is well
/// under a second, so a released pause is noticed within one tick.
pub const POLL_INTERVAL_MILLIS: u64 = 500;

/// What the driver of a phase has to do next.
#[derive(Clone, Copy, Debug, PartialEq, Eq, Structural)]
pub enum PhaseAction {
    /// Assert the reversible toggle around a pause: `true` when the pause
    /// begins, which relaxes the side effect while the phase stands still,
    /// and `false` when it ends, which restores it.
    AssertToggle(bool),
    /// Feed the progress display: seconds counted so far, and the target.
    ReportProgress { elapsed: u64, total: u64 },
    /// Sleep for one second of wall-clock time: one tick.
    SleepOneSecond,
    /// Sleep for one polling interval (well under a second) while paused.
    SleepPollInterval,
}

impl PhaseAction {
    /// How long the driver has to sleep for this action, in milliseconds:
    /// a tick, a polling interval, or not at all.
    pub open spec fn millis(self) -> u64 {
        match self {
            PhaseAction::SleepOneSecond => TICK_MILLIS,
            PhaseAction::SleepPollInterval => POLL_INTERVAL_MILLIS,
            _ => 0,
        }
    }

    /// How long the driver has to sleep for this action, in milliseconds.
    pub fn sleep_millis(&self) -> (millis: u64)
        ensures
            millis == self.millis(),
    {
        match self {
            PhaseAction::SleepOneSecond => TICK_MILLIS,
            PhaseAction::SleepPollInterval => POLL_INTERVAL_MILLIS,
            _ => 0,
        }
    }
}

/// The point in its loop at which a phase stands between two steps.
#[derive(Clone, Copy, Debug, PartialEq, Eq, Structural)]
pub enum PhaseStage {
    /// At the top of a tick: the pause signal is consulted next.
    Ready,
    /// Pause is engaged: the signal is polled until it clears.
    Suspended,
    /// Pause has cleared and the toggle is re-asserted: the report is due.
    Resumed,
    /// Progress is reported: the one-second sleep is due.
    Reported,
    /// The final progress was reported: nothing is left to do.
    Finished,
}

/// The data of one phase: target, count so far, whether pauses move the
/// toggle, and the point the phase has reached.
#[derive(Clone, Copy, Debug, PartialEq, Eq, Structural)]
pub struct PhaseContext {
    pub total_seconds: u64,
    pub elapsed_seconds: u64,
    pub toggle_active: bool,
    pub stage: PhaseStage,
}

impl PhaseContext {
    /// The context of a phase that has not taken a step yet.
    pub open spec fn start(duration: u64, toggle_active: bool) -> PhaseContext {
        PhaseContext {
            total_seconds: duration,
            elapsed_seconds: 0,
            toggle_active,
            stage: PhaseStage::Ready,
        }
    }

    /// The count never passes the target, stands at it when the phase is
    /// finished, and is short of it while a tick or a pause is under way.
    pub open spec fn wf(self) -> bool {
        &&& self.elapsed_seconds <= self.total_seconds
        &&& self.stage is Finished ==> self.elapsed_seconds == self.total_seconds
        &&& (self.stage is Suspended || self.stage is Resumed || self.stage is Reported)
            ==> self.elapsed_seconds < self.total_seconds
    }

    /// The progress report of the present count.
    pub open spec fn report(self) -> PhaseAction {
        PhaseAction::ReportProgress { elapsed: self.elapsed_seconds, total: self.total_seconds }
    }

    /// This context moved to another stage.
    pub open spec fn at(self, stage: PhaseStage) -> PhaseContext {
        PhaseContext { stage, ..self }
    }

    /// One step of the phase under the given reading of the pause signal:
    /// the context afterwards, and what the driver has to do.
    ///
    /// * `Ready`, count at the target: the final report; the phase is
    ///   finished.
    /// * `Ready`, signal clear: the report of the present count.
    /// * `Ready`, signal set: the phase is suspended. A toggle-active phase
    ///   asserts the toggle to `true`; another one waits a polling interval.
    /// * `Suspended`, signal still set: wait a polling interval.
    /// * `Suspended`, signal clear: a toggle-active phase asserts the toggle
    ///   to `false` and reports on the next step; another one reports at
    ///   once.
    /// * `Resumed`: the report of the present count.
    /// * `Reported`: the one-second sleep; the count goes up by one.
    /// * `Finished`: nothing.
    ///
    /// The reading matters in `Ready` and `Suspended` only. A pause that is
    /// seen in `Ready` and gone at the very next step still yields both
    /// toggle assertions, `true` then `false`.
    pub open spec fn step(self, paused: bool) -> (PhaseContext, Option<PhaseAction>) {
        match self.stage {
            PhaseStage::Ready => {
                if self.elapsed_seconds >= self.total_seconds {
                    (self.at(PhaseStage::Finished), Some(self.report()))
                } else if !paused {
                    (self.at(PhaseStage::Reported), Some(self.report()))
                } else if self.toggle_active {
                    (self.at(PhaseStage::Suspended), Some(PhaseAction::AssertToggle(true)))
                } else {
                    (self.at(PhaseStage::Suspended), Some(PhaseAction::SleepPollInterval))
                }
            },
            PhaseStage::Suspended => {
                if paused {
                    (self, Some(PhaseAction::SleepPollInterval))
                } else if self.toggle_active {
                    (self.at(PhaseStage::Resumed), Some(PhaseAction::AssertToggle(false)))
                } else {
                    (self.at(PhaseStage::Reported), Some(self.report()))
                }
            },
            PhaseStage::Resumed => (self.at(PhaseStage::Reported), Some(self.report())),
            PhaseStage::Reported => (
                PhaseContext {
                    elapsed_seconds: (self.elapsed_seconds + 1) as u64,
                    stage: PhaseStage::Ready,
                    ..self
                },
                Some(PhaseAction::SleepOneSecond),
            ),
            PhaseStage::Finished => (self, None),
        }
    }
}

/// The step machine of one phase.
#[derive(Clone, Copy, Debug)]
pub struct PhaseTimer {
    context: PhaseContext,
}

impl View for PhaseTimer {
    type V = PhaseContext;

    closed spec fn view(&self) -> PhaseContext {
        self.context
    }
}

impl PhaseTimer {
    #[verifier::type_invariant]
    spec fn inv(self) -> bool {
        self.context.wf()
    }

    /// A timer for a phase of `duration` seconds. `toggle_active` says
    /// whether a pause during this phase moves the toggle.
    pub fn new(duration: u64, toggle_active: bool) -> (timer: Self)
        ensures
            timer@ == PhaseContext::start(duration, toggle_active),
    {
        PhaseTimer {
            context: PhaseContext {
                total_seconds: duration,
                elapsed_seconds: 0,
                toggle_active,
                stage: PhaseStage::Ready,
            },
        }
    }

    /// The context as it stands.
    pub fn context(&self) -> (context: PhaseContext)
        ensures
            context == self@,
            context.wf(),
    {
        proof {
            use_type_invariant(self);
        }
        self.context
    }

    /// Whether the final progress has been reported.
    pub fn is_finished(&self) -> (finished: bool)
        ensures
            finished == (self@.stage is Finished),
    {
        match self.context.stage {
            PhaseStage::Finished => true,
            _ => false,
        }
    }

    /// Takes one step under the given reading of the pause signal and
    /// returns what the driver has to do, or `None` once the phase is
    /// finished.
    pub fn step(&mut self, paused: bool) -> (action: Option<PhaseAction>)
        ensures
            (final(self)@, action) == old(self)@.step(paused),
            final(self)@.wf(),
            action is None <==> old(self)@.stage is Finished,
    {
        proof {
            use_type_invariant(&*self);
        }
        let context = self.context;
        let report = PhaseAction::ReportProgress {
            elapsed: context.elapsed_seconds,
            total: context.total_seconds,
        };
        match context.stage {
            PhaseStage::Ready => {
                if context.elapsed_seconds >= context.total_seconds {
                    self.context = PhaseContext { stage: PhaseStage::Finished, ..context };
                    Some(report)
                } else if !paused {
                    self.context = PhaseContext { stage: PhaseStage::Reported, ..context };
                    Some(report)
                } else if context.toggle_active {
                    self.context = PhaseContext { stage: PhaseStage::Suspended, ..context };
                    Some(PhaseAction::AssertToggle(true))
                } else {
                    self.context = PhaseContext { stage: PhaseStage::Suspended, ..context };
                    Some(PhaseAction::SleepPollInterval)
                }
            },
            PhaseStage::Suspended => {
                if paused {
                    Some(PhaseAction::SleepPollInterval)
                } else if context.toggle_active {
                    self.context = PhaseContext { stage: PhaseStage::Resumed, ..context };
                    Some(PhaseAction::AssertToggle(false))
                } else {
                    self.context = PhaseContext { stage: PhaseStage::Reported, ..context };
                    Some(report)
                }
            },
            PhaseStage::Resumed => {
                self.context = PhaseContext { stage: PhaseStage::Reported, ..context };
                Some(report)
            },
            PhaseStage::Reported => {
                self.context = PhaseContext {
                    elapsed_seconds: context.elapsed_seconds + 1,
                    stage: PhaseStage::Ready,
                    ..context
                };
                Some(PhaseAction::SleepOneSecond)
            },
            PhaseStage::Finished => None,
        }
    }

    /// Reads the pause signal and takes the step that the reading calls for.
    pub fn poll(&mut self, signal: &PauseSignal) -> (action: Option<PhaseAction>)
        ensures
            exists|paused: bool| (final(self)@, action) == #[trigger] old(self)@.step(paused),
            final(self)@.wf(),
            action is None <==> old(self)@.stage is Finished,
    {
        let paused = signal.read();
        self.step(paused)
    }
}

} // verus!

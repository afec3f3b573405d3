//! The controller of a whole run: focus, break and alert, cycle by cycle.
//!
//! Like the phase timer it drives, the controller is a step machine. Each
//! call of [`CycleController::step`] takes the present reading of the pause
//! signal and hands back what the driver has to do next.
//!
//! The controller is write-only towards the toggle. It never assumes what
//! the toggle holds and states the value it wants at every transition:
//! `true` before a focus phase, `false` before a break phase, and
//! [`REST_STATE`] once after the last cycle.
//!
//! A step does not ask how the action before it went. A toggle that could
//! not be asserted or an alert that could not be raised is the driver's to
//! log; the run goes on regardless, and only an interrupt from outside
//! cuts it short.

use vstd::prelude::*;
use crate::config::Configuration;
use crate::pause::PauseSignal;
use crate::phase::PhaseAction;
use crate::phase::PhaseContext;
use crate::phase::PhaseTimer;

verus! {

/// The value the toggle is left at when a run ends, by completion or by
/// interruption: off.
pub const REST_STATE: bool = false;

/// What the driver of a run has to do next.
#[derive(Clone, Copy, Debug, PartialEq, Eq, Structural)]
pub enum CycleAction {
    /// Assert the reversible toggle for what comes next: `true` engages the
    /// side effect for a focus phase, `false` releases it for a break phase
    /// and at rest.
    AssertToggle(bool),
    /// Do what the phase under way asks for.
    Phase(PhaseAction),
    /// Raise the end-of-cycle alert for cycle `cycle` out of `total`.
    Notify { cycle: u32, total: u32 },
}

/// The point in its loop at which a run stands between two steps.
#[derive(Clone, Copy, Debug, PartialEq, Eq, Structural)]
pub enum CycleStage {
    /// Between cycles: the next cycle is begun, or the run is closed.
    BetweenCycles,
    /// The focus phase is under way.
    Focus,
    /// The focus phase is over: the break phase is begun next.
    FocusDone,
    /// The break phase is under way.
    Break,
    /// The break phase is over: the alert is due.
    BreakDone,
    /// The rest state was asserted: nothing is left to do.
    Done,
}

/// The data of a run: its settings, the number of cycles completed, the
/// point it has reached, and the context of the phase under way.
///
/// `phase` has a meaning in the stages `Focus` and `Break` only.
#[derive(Clone, Copy, Debug, PartialEq, Eq, Structural)]
pub struct CycleContext {
    pub config: Configuration,
    pub completed_cycles: u32,
    pub stage: CycleStage,
    pub phase: PhaseContext,
}

impl CycleContext {
    /// The context of a run that has not taken a step yet.
    pub open spec fn start(config: Configuration) -> CycleContext {
        CycleContext {
            config,
            completed_cycles: 0,
            stage: CycleStage::BetweenCycles,
            phase: PhaseContext::start(0, false),
        }
    }

    /// No more cycles are completed than were asked for; a cycle under way
    /// is one of those asked for; a finished run has completed them all;
    /// and a phase under way is unfinished, well-formed, and has the
    /// duration and the toggle flag of its kind.
    pub open spec fn wf(self) -> bool {
        &&& self.completed_cycles <= self.config.cycles()
        &&& self.stage is Done ==> self.completed_cycles == self.config.cycles()
        &&& (self.stage is Focus || self.stage is FocusDone || self.stage is Break
            || self.stage is BreakDone) ==> self.completed_cycles < self.config.cycles()
        &&& self.stage is Focus ==> {
            &&& self.phase.wf()
            &&& !(self.phase.stage is Finished)
            &&& self.phase.total_seconds == self.config.focus_seconds()
            &&& self.phase.toggle_active
        }
        &&& self.stage is Break ==> {
            &&& self.phase.wf()
            &&& !(self.phase.stage is Finished)
            &&& self.phase.total_seconds == self.config.break_seconds()
            &&& !self.phase.toggle_active
        }
    }

    /// The number of the cycle under way, counted from one.
    pub open spec fn current_cycle(self) -> int {
        self.completed_cycles + 1
    }

    /// The number of the cycle under way, counted from one.
    pub fn cycle_number(&self) -> (number: u64)
        ensures
            number == self.current_cycle(),
    {
        self.completed_cycles as u64 + 1
    }

    /// One step of the phase under way, and the stage to go to once that
    /// phase has finished.
    pub open spec fn step_phase(self, paused: bool, then: CycleStage) -> (
        CycleContext,
        Option<CycleAction>,
    ) {
        let (phase, action) = self.phase.step(paused);
        (
            CycleContext {
                phase,
                stage: if phase.stage is Finished {
                    then
                } else {
                    self.stage
                },
                ..self
            },
            match action {
                Some(a) => Some(CycleAction::Phase(a)),
                None => None,
            },
        )
    }

    /// One step of the run under the given reading of the pause signal: the
    /// context afterwards, and what the driver has to do.
    ///
    /// * `BetweenCycles`, cycles left: assert the toggle to `true`; a focus
    ///   phase of the configured duration begins, toggle-active.
    /// * `BetweenCycles`, no cycle left: assert the toggle to
    ///   [`REST_STATE`]; the run is done.
    /// * `Focus`: the step of the focus phase; on its final report the
    ///   stage becomes `FocusDone`.
    /// * `FocusDone`: assert the toggle to `false`; a break phase of the
    ///   configured duration begins, not toggle-active.
    /// * `Break`: the step of the break phase; on its final report the
    ///   stage becomes `BreakDone`.
    /// * `BreakDone`: the alert for the cycle under way; the cycle is
    ///   completed.
    /// * `Done`: nothing.
    pub open spec fn step(self, paused: bool) -> (CycleContext, Option<CycleAction>) {
        match self.stage {
            CycleStage::BetweenCycles => {
                if self.completed_cycles < self.config.cycles() {
                    (
                        CycleContext {
                            stage: CycleStage::Focus,
                            phase: PhaseContext::start(self.config.focus_seconds(), true),
                            ..self
                        },
                        Some(CycleAction::AssertToggle(true)),
                    )
                } else {
                    (
                        CycleContext { stage: CycleStage::Done, ..self },
                        Some(CycleAction::AssertToggle(REST_STATE)),
                    )
                }
            },
            CycleStage::Focus => self.step_phase(paused, CycleStage::FocusDone),
            CycleStage::FocusDone => (
                CycleContext {
                    stage: CycleStage::Break,
                    phase: PhaseContext::start(self.config.break_seconds(), false),
                    ..self
                },
                Some(CycleAction::AssertToggle(false)),
            ),
            CycleStage::Break => self.step_phase(paused, CycleStage::BreakDone),
            CycleStage::BreakDone => (
                CycleContext {
                    stage: CycleStage::BetweenCycles,
                    completed_cycles: self.current_cycle() as u32,
                    ..self
                },
                Some(
                    CycleAction::Notify {
                        cycle: self.current_cycle() as u32,
                        total: self.config.cycles(),
                    },
                ),
            ),
            CycleStage::Done => (self, None),
        }
    }
}

/// The step machine of a whole run.
#[derive(Clone, Copy, Debug)]
pub struct CycleController {
    config: Configuration,
    completed_cycles: u32,
    stage: CycleStage,
    timer: PhaseTimer,
}

impl View for CycleController {
    type V = CycleContext;

    closed spec fn view(&self) -> CycleContext {
        CycleContext {
            config: self.config,
            completed_cycles: self.completed_cycles,
            stage: self.stage,
            phase: self.timer@,
        }
    }
}

impl CycleController {
    #[verifier::type_invariant]
    spec fn inv(self) -> bool {
        self@.wf()
    }

    /// A controller for a run with the given settings.
    pub fn new(config: Configuration) -> (controller: Self)
        ensures
            controller@ == CycleContext::start(config),
    {
        CycleController {
            config,
            completed_cycles: 0,
            stage: CycleStage::BetweenCycles,
            timer: PhaseTimer::new(0, false),
        }
    }

    /// The context as it stands.
    pub fn context(&self) -> (context: CycleContext)
        ensures
            context == self@,
            context.wf(),
    {
        proof {
            use_type_invariant(self);
        }
        CycleContext {
            config: self.config,
            completed_cycles: self.completed_cycles,
            stage: self.stage,
            phase: self.timer.context(),
        }
    }

    /// Whether the rest state has been asserted and the run is over.
    pub fn is_done(&self) -> (done: bool)
        ensures
            done == (self@.stage is Done),
    {
        match self.stage {
            CycleStage::Done => true,
            _ => false,
        }
    }

    /// Takes one step under the given reading of the pause signal and
    /// returns what the driver has to do, or `None` once the run is done.
    pub fn step(&mut self, paused: bool) -> (action: Option<CycleAction>)
        ensures
            (final(self)@, action) == old(self)@.step(paused),
            final(self)@.wf(),
            action is None <==> old(self)@.stage is Done,
    {
        proof {
            use_type_invariant(&*self);
        }
        let config = self.config;
        let completed_cycles = self.completed_cycles;
        match self.stage {
            CycleStage::BetweenCycles => {
                if completed_cycles < config.cycle_count() {
                    *self = CycleController {
                        config,
                        completed_cycles,
                        stage: CycleStage::Focus,
                        timer: PhaseTimer::new(config.focus_duration(), true),
                    };
                    Some(CycleAction::AssertToggle(true))
                } else {
                    self.stage = CycleStage::Done;
                    Some(CycleAction::AssertToggle(REST_STATE))
                }
            },
            CycleStage::Focus => self.step_timer(paused, CycleStage::FocusDone),
            CycleStage::FocusDone => {
                *self = CycleController {
                    config,
                    completed_cycles,
                    stage: CycleStage::Break,
                    timer: PhaseTimer::new(config.break_duration(), false),
                };
                Some(CycleAction::AssertToggle(false))
            },
            CycleStage::Break => self.step_timer(paused, CycleStage::BreakDone),
            CycleStage::BreakDone => {
                let cycle: u32 = completed_cycles + 1;
                *self = CycleController {
                    config,
                    completed_cycles: cycle,
                    stage: CycleStage::BetweenCycles,
                    timer: self.timer,
                };
                Some(CycleAction::Notify { cycle, total: config.cycle_count() })
            },
            CycleStage::Done => None,
        }
    }

    /// Steps the timer of the phase under way and moves on to `then` when
    /// that phase has finished.
    fn step_timer(&mut self, paused: bool, then: CycleStage) -> (action: Option<CycleAction>)
        requires
            old(self)@.stage is Focus || old(self)@.stage is Break,
            old(self)@.stage is Focus ==> then is FocusDone,
            old(self)@.stage is Break ==> then is BreakDone,
        ensures
            (final(self)@, action) == old(self)@.step_phase(paused, then),
            final(self)@.wf(),
            action is Some,
    {
        proof {
            use_type_invariant(&*self);
        }
        let mut timer = self.timer;
        let action = timer.step(paused);
        let stage = if timer.is_finished() {
            then
        } else {
            self.stage
        };
        *self = CycleController {
            config: self.config,
            completed_cycles: self.completed_cycles,
            stage,
            timer,
        };
        match action {
            Some(a) => Some(CycleAction::Phase(a)),
            None => None,
        }
    }

    /// Reads the pause signal and takes the step that the reading calls for.
    pub fn poll(&mut self, signal: &PauseSignal) -> (action: Option<CycleAction>)
        ensures
            exists|paused: bool| (final(self)@, action) == #[trigger] old(self)@.step(paused),
            final(self)@.wf(),
            action is None <==> old(self)@.stage is Done,
    {
        let paused = signal.read();
        self.step(paused)
    }
}

} // verus!

//! What happens when the process is interrupted from outside.
//!
//! The handler that the driver installs owns an [`InterruptGuard`] and, when
//! the interrupt arrives, does what the guard hands out, step by step. The
//! guard takes no input: its steps are the same whatever the timer and the
//! controller are doing at that moment, and whatever toggle assertion of
//! theirs may still be under way.

use vstd::prelude::*;
use crate::cycle::REST_STATE;

verus! {

/// What the interrupt handler has to do next.
#[derive(Clone, Copy, Debug, PartialEq, Eq, Structural)]
pub enum InterruptAction {
    /// Assert the reversible toggle to the given value, in the sense in
    /// which the controller asserts it.
    AssertToggle(bool),
    /// Tell the operator that the run was interrupted.
    EmitDiagnostic,
    /// End the process at once, without going back to the timer.
    Terminate,
}

/// How far the handling of an interrupt has got.
#[derive(Clone, Copy, Debug, PartialEq, Eq, Structural)]
pub enum GuardStage {
    /// No interrupt was handled yet.
    Armed,
    /// The rest state was asserted.
    Settled,
    /// The diagnostic was emitted.
    Reported,
    /// Termination was asked for.
    Terminated,
}

/// The steps of a guard that stands at `stage`: the stage afterwards, and
/// what the handler has to do. An armed guard asserts the rest state, then
/// asks for the diagnostic, then for termination, and then for nothing.
pub open spec fn guard_step(stage: GuardStage) -> (GuardStage, Option<InterruptAction>) {
    match stage {
        GuardStage::Armed => (GuardStage::Settled, Some(InterruptAction::AssertToggle(REST_STATE))),
        GuardStage::Settled => (GuardStage::Reported, Some(InterruptAction::EmitDiagnostic)),
        GuardStage::Reported => (GuardStage::Terminated, Some(InterruptAction::Terminate)),
        GuardStage::Terminated => (GuardStage::Terminated, None),
    }
}

/// The stage reached from `stage`, and the actions handed out on the way,
/// in `steps` steps.
pub open spec fn guard_run(stage: GuardStage, steps: nat) -> (GuardStage, Seq<InterruptAction>)
    decreases steps,
{
    if steps == 0 {
        (stage, Seq::empty())
    } else {
        let (before, trace) = guard_run(stage, (steps - 1) as nat);
        let (after, action) = guard_step(before);
        (
            after,
            match action {
                Some(a) => trace.push(a),
                None => trace,
            },
        )
    }
}

/// The step machine of the interrupt handler.
#[derive(Clone, Copy, Debug)]
pub struct InterruptGuard {
    stage: GuardStage,
}

impl View for InterruptGuard {
    type V = GuardStage;

    closed spec fn view(&self) -> GuardStage {
        self.stage
    }
}

impl InterruptGuard {
    /// A guard that has handled nothing yet.
    pub fn new() -> (guard: Self)
        ensures
            guard@ == GuardStage::Armed,
    {
        InterruptGuard { stage: GuardStage::Armed }
    }

    /// How far the handling has got.
    pub fn stage(&self) -> (stage: GuardStage)
        ensures
            stage == self@,
    {
        self.stage
    }

    /// Takes one step of the handling and returns what the handler has to
    /// do, or `None` once termination was asked for.
    pub fn step(&mut self) -> (action: Option<InterruptAction>)
        ensures
            (final(self)@, action) == guard_step(old(self)@),
            action is None <==> old(self)@ is Terminated,
    {
        match self.stage {
            GuardStage::Armed => {
                self.stage = GuardStage::Settled;
                Some(InterruptAction::AssertToggle(REST_STATE))
            },
            GuardStage::Settled => {
                self.stage = GuardStage::Reported;
                Some(InterruptAction::EmitDiagnostic)
            },
            GuardStage::Reported => {
                self.stage = GuardStage::Terminated;
                Some(InterruptAction::Terminate)
            },
            GuardStage::Terminated => None,
        }
    }
}

/// Rest before termination, exactly once. An armed guard that is stepped
/// three times or more hands out exactly three actions: the assertion of
/// the rest state, the diagnostic, and termination, in this order. So the
/// rest state is asserted once and only once, and before the process ends.
pub proof fn lemma_interrupt_rests_once_before_terminating(steps: nat)
    requires
        steps >= 3,
    ensures
        guard_run(GuardStage::Armed, steps) == (
            GuardStage::Terminated,
            seq![
                InterruptAction::AssertToggle(REST_STATE),
                InterruptAction::EmitDiagnostic,
                InterruptAction::Terminate,
            ],
        ),
    decreases steps,
{
    if steps == 3 {
        reveal_with_fuel(guard_run, 4);
    } else {
        lemma_interrupt_rests_once_before_terminating((steps - 1) as nat);
    }
}

/// Termination never comes first. However few steps an armed guard has
/// taken, termination was not asked for unless the rest state was asserted
/// before it: the trace so far is a prefix of assertion, diagnostic,
/// termination.
pub proof fn lemma_interrupt_never_terminates_before_rest(steps: nat)
    ensures
        ({
            let trace = guard_run(GuardStage::Armed, steps).1;
            &&& trace.len() == if steps <= 3 { steps } else { 3 }
            &&& trace.len() >= 1 ==> trace[0] == InterruptAction::AssertToggle(REST_STATE)
            &&& trace.len() >= 2 ==> trace[1] == InterruptAction::EmitDiagnostic
            &&& trace.len() >= 3 ==> trace[2] == InterruptAction::Terminate
        }),
{
    if steps >= 3 {
        lemma_interrupt_rests_once_before_terminating(steps);
    } else {
        reveal_with_fuel(guard_run, 3);
    }
}

} // verus!

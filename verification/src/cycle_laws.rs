//! Whole runs of the controller, and what holds of every one of them.
//!
//! A run starts from a fresh context and takes one step for each reading of
//! the pause signal. The laws below hold whatever the readings are.

use vstd::prelude::*;
use crate::config::Configuration;
use crate::cycle::CycleAction;
use crate::cycle::CycleContext;
use crate::cycle::CycleStage;
use crate::cycle::REST_STATE;
use crate::phase::PhaseAction;
use crate::phase_laws::alternating;
use crate::phase_laws::matched_pairs;
use crate::phase_laws::never_paused;
use crate::phase_laws::seconds_slept;
use crate::phase_laws::toggle_assertions;

verus! {

impl CycleContext {
    /// The context reached from `self`, and the actions handed out on the
    /// way, when one step is taken for each reading in turn.
    pub open spec fn run(self, readings: Seq<bool>) -> (CycleContext, Seq<CycleAction>)
        decreases readings.len(),
    {
        if readings.len() == 0 {
            (self, Seq::empty())
        } else {
            let (before, trace) = self.run(readings.drop_last());
            let (after, action) = before.step(readings.last());
            (
                after,
                match action {
                    Some(a) => trace.push(a),
                    None => trace,
                },
            )
        }
    }
}

/// The alerts in a trace, in order, each as its cycle number and the total.
pub open spec fn notifications(trace: Seq<CycleAction>) -> Seq<(u32, u32)>
    decreases trace.len(),
{
    if trace.len() == 0 {
        Seq::empty()
    } else {
        let earlier = notifications(trace.drop_last());
        match trace.last() {
            CycleAction::Notify { cycle, total } => earlier.push((cycle, total)),
            _ => earlier,
        }
    }
}

/// The values of the controller's own toggle assertions in a trace, in
/// order: those made on entering a phase and at rest, not those made by a
/// phase around a pause.
pub open spec fn phase_entry_toggles(trace: Seq<CycleAction>) -> Seq<bool>
    decreases trace.len(),
{
    if trace.len() == 0 {
        Seq::empty()
    } else {
        let earlier = phase_entry_toggles(trace.drop_last());
        match trace.last() {
            CycleAction::AssertToggle(value) => earlier.push(value),
            _ => earlier,
        }
    }
}

/// The actions of the phases in a trace, in order.
pub open spec fn phase_actions(trace: Seq<CycleAction>) -> Seq<PhaseAction>
    decreases trace.len(),
{
    if trace.len() == 0 {
        Seq::empty()
    } else {
        let earlier = phase_actions(trace.drop_last());
        match trace.last() {
            CycleAction::Phase(action) => earlier.push(action),
            _ => earlier,
        }
    }
}

/// The alerts of `count` cycles out of `total`: cycle `1`, cycle `2`, and so
/// on up to cycle `count`.
pub open spec fn alerts_in_order(count: nat, total: u32) -> Seq<(u32, u32)> {
    Seq::new(count, |i: int| ((i + 1) as u32, total))
}

/// The controller's toggle assertions of a completed run of `cycles`
/// cycles: `true, false` for the focus and the break phase of each cycle,
/// and the rest state once at the end.
pub open spec fn toggles_of_completed_run(cycles: nat) -> Seq<bool> {
    Seq::new(2 * cycles + 1, |i: int| if i == 2 * cycles { REST_STATE } else { i % 2 == 0 })
}

/// The controller's toggle assertions up to a given point of a run.
spec fn toggles_so_far(context: CycleContext) -> Seq<bool> {
    let during: nat = match context.stage {
        CycleStage::BetweenCycles => 0,
        CycleStage::Focus => 1,
        CycleStage::FocusDone => 1,
        CycleStage::Break => 2,
        CycleStage::BreakDone => 2,
        CycleStage::Done => 1,
    };
    Seq::new(
        (2 * context.completed_cycles + during) as nat,
        |i: int|
            if context.stage is Done && i == 2 * context.completed_cycles {
                REST_STATE
            } else {
                i % 2 == 0
            },
    )
}

/// The seconds of one cycle: its focus phase and its break phase.
pub open spec fn seconds_per_cycle(config: Configuration) -> nat {
    (config.focus_seconds() + config.break_seconds()) as nat
}

/// The seconds of the cycle under way that were slept so far.
spec fn seconds_into_cycle(context: CycleContext) -> int {
    match context.stage {
        CycleStage::BetweenCycles => 0,
        CycleStage::Focus => context.phase.elapsed_seconds as int,
        CycleStage::FocusDone => context.config.focus_seconds() as int,
        CycleStage::Break => context.config.focus_seconds() + context.phase.elapsed_seconds,
        CycleStage::BreakDone => context.config.focus_seconds() + context.config.break_seconds(),
        CycleStage::Done => 0,
    }
}

/// How a context and the trace that led to it belong together.
spec fn accounts_for(context: CycleContext, trace: Seq<CycleAction>) -> bool {
    let pause_toggles = toggle_assertions(phase_actions(trace));
    &&& context.wf()
    &&& notifications(trace) == alerts_in_order(
        context.completed_cycles as nat,
        context.config.cycles(),
    )
    &&& phase_entry_toggles(trace) == toggles_so_far(context)
    &&& context.stage is Done ==> trace.len() > 0 && trace.last() == CycleAction::AssertToggle(
        REST_STATE,
    )
    &&& alternating(pause_toggles)
    &&& (pause_toggles.len() % 2 == 1) == (context.stage is Focus
        && context.phase.stage is Suspended)
    &&& seconds_slept(phase_actions(trace)) == context.completed_cycles * seconds_per_cycle(
        context.config,
    ) + seconds_into_cycle(context)
}

/// What a trace holds when it has grown by one action: the alerts, the
/// controller's toggle assertions and the phase actions it held before,
/// and the new action among its kind.
pub proof fn lemma_trace_push(trace: Seq<CycleAction>, action: CycleAction)
    ensures
        notifications(trace.push(action)) == (match action {
            CycleAction::Notify { cycle, total } => notifications(trace).push((cycle, total)),
            _ => notifications(trace),
        }),
        phase_entry_toggles(trace.push(action)) == (match action {
            CycleAction::AssertToggle(value) => phase_entry_toggles(trace).push(value),
            _ => phase_entry_toggles(trace),
        }),
        phase_actions(trace.push(action)) == (match action {
            CycleAction::Phase(a) => phase_actions(trace).push(a),
            _ => phase_actions(trace),
        }),
{
    assert(trace.push(action).drop_last() =~= trace);
    assert(trace.push(action).last() == action);
}

/// A run over one more reading is the run over the readings before it,
/// followed by the step that the new reading calls for.
pub proof fn lemma_run_push(start: CycleContext, readings: Seq<bool>, paused: bool)
    ensures
        start.run(readings.push(paused)) == ({
            let (before, trace) = start.run(readings);
            let (after, action) = before.step(paused);
            (
                after,
                match action {
                    Some(a) => trace.push(a),
                    None => trace,
                },
            )
        }),
{
    assert(readings.push(paused).drop_last() =~= readings);
    assert(readings.push(paused).last() == paused);
}

proof fn lemma_step_accounts(context: CycleContext, trace: Seq<CycleAction>, paused: bool)
    requires
        accounts_for(context, trace),
    ensures
        ({
            let (after, action) = context.step(paused);
            accounts_for(
                after,
                match action {
                    Some(a) => trace.push(a),
                    None => trace,
                },
            )
        }),
{
    let (after, action) = context.step(paused);
    if let Some(action) = action {
        let longer = trace.push(action);
        lemma_trace_push(trace, action);
        assert(phase_entry_toggles(longer) =~= toggles_so_far(after));
        match action {
            CycleAction::Notify { cycle, total } => {
                let per_cycle = seconds_per_cycle(context.config);
                assert(notifications(longer) =~= alerts_in_order(
                    after.completed_cycles as nat,
                    after.config.cycles(),
                ));
                assert((context.completed_cycles + 1) * per_cycle == context.completed_cycles
                    * per_cycle + per_cycle) by (nonlinear_arith);
            },
            CycleAction::Phase(inner) => {
                crate::phase_laws::lemma_trace_push(phase_actions(trace), inner);
            },
            CycleAction::AssertToggle(value) => {},
        }
    }
}

proof fn lemma_run_accounts(config: Configuration, readings: Seq<bool>)
    ensures
        ({
            let (end, trace) = CycleContext::start(config).run(readings);
            &&& accounts_for(end, trace)
            &&& end.config == config
        }),
    decreases readings.len(),
{
    let start = CycleContext::start(config);
    if readings.len() == 0 {
        let trace = Seq::<CycleAction>::empty();
        assert(notifications(trace) =~= alerts_in_order(0, config.cycles()));
        assert(phase_entry_toggles(trace) =~= toggles_so_far(start));
        assert(0 * seconds_per_cycle(config) == 0);
    } else {
        let earlier = readings.drop_last();
        lemma_run_accounts(config, earlier);
        let (before, trace) = start.run(earlier);
        lemma_step_accounts(before, trace, readings.last());
    }
}

/// One alert per cycle, in order. When a run of `N` cycles is done, it has
/// raised exactly `N` alerts: for cycle `1`, then cycle `2`, and so on up
/// to cycle `N`, each naming `N` as the total.
pub proof fn lemma_completed_run_alerts_each_cycle_in_order(
    config: Configuration,
    readings: Seq<bool>,
)
    requires
        CycleContext::start(config).run(readings).0.stage is Done,
    ensures
        ({
            let (end, trace) = CycleContext::start(config).run(readings);
            notifications(trace) == alerts_in_order(config.cycles() as nat, config.cycles())
        }),
{
    lemma_run_accounts(config, readings);
}

/// Alerts keep pace with the cycles. At every point of a run the alerts
/// raised so far are those of the cycles completed so far, in order, and no
/// more cycles are completed than were asked for.
pub proof fn lemma_alerts_follow_completed_cycles(config: Configuration, readings: Seq<bool>)
    ensures
        ({
            let (end, trace) = CycleContext::start(config).run(readings);
            &&& end.wf()
            &&& end.config == config
            &&& notifications(trace) == alerts_in_order(
                end.completed_cycles as nat,
                config.cycles(),
            )
        }),
{
    lemma_run_accounts(config, readings);
}

/// A run of no cycles. With a cycle count of zero the first step asserts
/// the rest state and the run is done: whatever the signal reads and
/// however many steps are taken, the trace is that one assertion. No phase
/// runs and no alert is raised.
pub proof fn lemma_run_of_no_cycles_only_rests(config: Configuration, readings: Seq<bool>)
    requires
        config.cycles() == 0,
        readings.len() >= 1,
    ensures
        ({
            let (end, trace) = CycleContext::start(config).run(readings);
            &&& end.stage is Done
            &&& trace == seq![CycleAction::AssertToggle(REST_STATE)]
        }),
    decreases readings.len(),
{
    let start = CycleContext::start(config);
    let earlier = readings.drop_last();
    if earlier.len() == 0 {
        assert(start.run(readings).1 =~= seq![CycleAction::AssertToggle(REST_STATE)]);
    } else {
        lemma_run_of_no_cycles_only_rests(config, earlier);
    }
}

/// The rest state closes every completed run, once. When a run of `N`
/// cycles is done, the controller's own toggle assertions are `true` and
/// `false` for the focus and the break phase of each cycle, followed by the
/// rest state exactly once, and that assertion of the rest state is the
/// last action of the whole trace.
pub proof fn lemma_completed_run_rests_once_at_the_end(
    config: Configuration,
    readings: Seq<bool>,
)
    requires
        CycleContext::start(config).run(readings).0.stage is Done,
    ensures
        ({
            let (end, trace) = CycleContext::start(config).run(readings);
            &&& phase_entry_toggles(trace) == toggles_of_completed_run(config.cycles() as nat)
            &&& trace.len() > 0
            &&& trace.last() == CycleAction::AssertToggle(REST_STATE)
        }),
{
    lemma_run_accounts(config, readings);
    let trace = CycleContext::start(config).run(readings).1;
    assert(phase_entry_toggles(trace) =~= toggles_of_completed_run(config.cycles() as nat));
}

/// Pause toggling is balanced over a whole run. The toggle assertions that
/// the phases make around pauses alternate `true, false, true, ..`. One is
/// left open exactly while a focus phase is suspended: no phase ends, and no
/// run completes, with a pause-entry assertion unanswered.
pub proof fn lemma_pause_toggles_are_matched_over_run(
    config: Configuration,
    readings: Seq<bool>,
)
    ensures
        ({
            let (end, trace) = CycleContext::start(config).run(readings);
            let toggles = toggle_assertions(phase_actions(trace));
            &&& alternating(toggles)
            &&& (end.stage is Focus && end.phase.stage is Suspended) ==> toggles.len() % 2 == 1
            &&& !(end.stage is Focus && end.phase.stage is Suspended) ==> matched_pairs(toggles)
            &&& end.stage is Done ==> matched_pairs(toggles)
        }),
{
    lemma_run_accounts(config, readings);
}

/// Tick accounting over a whole run. When a run of `N` cycles is done, the
/// phases have asked for exactly `N * (focus + break)` one-second sleeps,
/// whatever the pause signal read on the way.
pub proof fn lemma_completed_run_sleeps_every_second(config: Configuration, readings: Seq<bool>)
    requires
        CycleContext::start(config).run(readings).0.stage is Done,
    ensures
        ({
            let (end, trace) = CycleContext::start(config).run(readings);
            seconds_slept(phase_actions(trace)) == config.cycles() * seconds_per_cycle(config)
        }),
{
    lemma_run_accounts(config, readings);
}

/// The number of steps one whole cycle takes when nothing pauses it: the
/// two phase-entry assertions, two steps for each second and one for the
/// final report of either phase, and the alert.
pub open spec fn steps_per_cycle(config: Configuration) -> nat {
    (2 * config.focus_seconds() + 2 * config.break_seconds() + 5) as nat
}

impl CycleContext {
    /// The number of steps the run still takes to be done if the signal
    /// reads clear from now on: what is left of the cycle under way, a
    /// whole cycle for each one after it, and the assertion of the rest
    /// state.
    pub open spec fn steps_left_unpaused(self) -> nat {
        let config = self.config;
        let later_cycles = (config.cycles() - self.completed_cycles - 1) * steps_per_cycle(
            config,
        );
        let break_and_alert = 2 * config.break_seconds() + 3;
        (match self.stage {
            CycleStage::BetweenCycles => (config.cycles() - self.completed_cycles)
                * steps_per_cycle(config) + 1,
            CycleStage::Focus => self.phase.steps_left_unpaused() + break_and_alert
                + later_cycles + 1,
            CycleStage::FocusDone => break_and_alert + later_cycles + 1,
            CycleStage::Break => self.phase.steps_left_unpaused() + 1 + later_cycles + 1,
            CycleStage::BreakDone => 1 + later_cycles + 1,
            CycleStage::Done => 0,
        }) as nat
    }
}

proof fn lemma_unpaused_step_counts_down(context: CycleContext)
    requires
        context.wf(),
        !(context.stage is Done),
    ensures
        ({
            let (after, action) = context.step(false);
            &&& after.wf()
            &&& action is Some
            &&& after.steps_left_unpaused() + 1 == context.steps_left_unpaused()
        }),
{
    let config = context.config;
    let per_cycle = steps_per_cycle(config) as int;
    let open_cycles = config.cycles() - context.completed_cycles;
    assert(open_cycles * per_cycle == (open_cycles - 1) * per_cycle + per_cycle)
        by (nonlinear_arith);
    assert(0 * per_cycle == 0);
    if open_cycles >= 1 {
        assert((open_cycles - 1) * per_cycle >= 0) by (nonlinear_arith)
            requires
                open_cycles >= 1,
                per_cycle >= 0,
        ;
    }
}

/// A run cannot get stuck. From wherever it stands, a run that reads the
/// signal clear at every step hands out an action at each of exactly
/// [`CycleContext::steps_left_unpaused`] steps and is done after them;
/// further steps add nothing.
pub proof fn lemma_unpaused_steps_complete_the_run(context: CycleContext, steps: nat)
    requires
        context.wf(),
    ensures
        ({
            let (end, trace) = context.run(never_paused(steps));
            let left = context.steps_left_unpaused();
            &&& end.wf()
            &&& end.steps_left_unpaused() == if steps <= left { left - steps } else { 0 }
            &&& trace.len() == if steps <= left { steps } else { left }
            &&& steps >= left ==> end.stage is Done
        }),
    decreases steps,
{
    if steps > 0 {
        let earlier = (steps - 1) as nat;
        lemma_unpaused_steps_complete_the_run(context, earlier);
        assert(never_paused(steps) =~= never_paused(earlier).push(false));
        lemma_run_push(context, never_paused(earlier), false);
        let (before, trace) = context.run(never_paused(earlier));
        if !(before.stage is Done) {
            lemma_unpaused_step_counts_down(before);
        }
    } else {
        lemma_steps_left_is_zero_when_done(context);
    }
}

proof fn lemma_steps_left_is_zero_when_done(context: CycleContext)
    requires
        context.wf(),
    ensures
        context.steps_left_unpaused() == 0 <==> context.stage is Done,
{
    let config = context.config;
    let per_cycle = steps_per_cycle(config) as int;
    let open_cycles = config.cycles() - context.completed_cycles;
    if open_cycles >= 1 {
        assert((open_cycles - 1) * per_cycle >= 0) by (nonlinear_arith)
            requires
                open_cycles >= 1,
                per_cycle >= 0,
        ;
    }
    assert(open_cycles * per_cycle >= 0) by (nonlinear_arith)
        requires
            open_cycles >= 0,
            per_cycle >= 0,
    ;
}

/// An unpaused run takes a known number of steps. With the signal clear
/// throughout, a run of `N` cycles of `f` seconds of focus and `b` seconds
/// of break is done after exactly `N * (2 * f + 2 * b + 5) + 1` steps.
pub proof fn lemma_unpaused_run_length(config: Configuration, steps: nat)
    requires
        steps >= config.cycles() * steps_per_cycle(config) + 1,
    ensures
        ({
            let (end, trace) = CycleContext::start(config).run(never_paused(steps));
            &&& end.stage is Done
            &&& trace.len() == config.cycles() * steps_per_cycle(config) + 1
        }),
{
    let start = CycleContext::start(config);
    assert(config.cycles() * steps_per_cycle(config) >= 0) by (nonlinear_arith);
    lemma_unpaused_steps_complete_the_run(start, steps);
}

} // verus!

//! Whole runs of a phase, and what holds of every one of them.
//!
//! A run starts from a fresh context and takes one step for each reading of
//! the pause signal. Its trace is the sequence of actions handed out. The
//! laws below hold whatever the readings are, so they hold of every
//! interleaving of the timer with the thread that flips the signal.

use vstd::prelude::*;
use crate::phase::PhaseAction;
use crate::phase::PhaseContext;
use crate::phase::PhaseStage;
use crate::phase::POLL_INTERVAL_MILLIS;
use crate::phase::TICK_MILLIS;

verus! {

impl PhaseContext {
    /// The context reached from `self`, and the actions handed out on the
    /// way, when one step is taken for each reading in turn.
    pub open spec fn run(self, readings: Seq<bool>) -> (PhaseContext, Seq<PhaseAction>)
        decreases readings.len(),
    {
        if readings.len() == 0 {
            (self, Seq::empty())
        } else {
            let (before, trace) = self.run(readings.drop_last());
            let (after, action) = before.step(readings.last());
            (
                after,
                match action {
                    Some(a) => trace.push(a),
                    None => trace,
                },
            )
        }
    }
}

/// The values of the toggle assertions in a trace, in order.
pub open spec fn toggle_assertions(trace: Seq<PhaseAction>) -> Seq<bool>
    decreases trace.len(),
{
    if trace.len() == 0 {
        Seq::empty()
    } else {
        let earlier = toggle_assertions(trace.drop_last());
        match trace.last() {
            PhaseAction::AssertToggle(value) => earlier.push(value),
            _ => earlier,
        }
    }
}

/// The counts carried by the progress reports in a trace, in order.
pub open spec fn progress_reports(trace: Seq<PhaseAction>) -> Seq<u64>
    decreases trace.len(),
{
    if trace.len() == 0 {
        Seq::empty()
    } else {
        let earlier = progress_reports(trace.drop_last());
        match trace.last() {
            PhaseAction::ReportProgress { elapsed, total } => earlier.push(elapsed),
            _ => earlier,
        }
    }
}

/// The number of one-second sleeps in a trace.
pub open spec fn seconds_slept(trace: Seq<PhaseAction>) -> nat
    decreases trace.len(),
{
    if trace.len() == 0 {
        0
    } else {
        let earlier = seconds_slept(trace.drop_last());
        match trace.last() {
            PhaseAction::SleepOneSecond => earlier + 1,
            _ => earlier,
        }
    }
}

/// The number of polling intervals waited in a trace.
pub open spec fn poll_intervals(trace: Seq<PhaseAction>) -> nat
    decreases trace.len(),
{
    if trace.len() == 0 {
        0
    } else {
        let earlier = poll_intervals(trace.drop_last());
        match trace.last() {
            PhaseAction::SleepPollInterval => earlier + 1,
            _ => earlier,
        }
    }
}

/// The time that the sleeps in a trace add up to, in milliseconds.
pub open spec fn millis_slept(trace: Seq<PhaseAction>) -> nat
    decreases trace.len(),
{
    if trace.len() == 0 {
        0
    } else {
        millis_slept(trace.drop_last()) + trace.last().millis() as nat
    }
}

/// Every progress report in the trace carries `total` as its target.
pub open spec fn reports_target(trace: Seq<PhaseAction>, total: u64) -> bool {
    forall|i: int|
        0 <= i < trace.len() ==> (#[trigger] trace[i] matches PhaseAction::ReportProgress {
            elapsed,
            total: target,
        } ==> target == total)
}

/// The counts `0, 1, ..` up to but not including `count`.
pub open spec fn counting_up(count: nat) -> Seq<u64> {
    Seq::new(count, |i: int| i as u64)
}

/// The assertions start with `true` and alternate from there: each `true`
/// that has a successor is followed by `false`, and each `false` by `true`.
pub open spec fn alternating(values: Seq<bool>) -> bool {
    forall|i: int| 0 <= i < values.len() ==> #[trigger] values[i] == (i % 2 == 0)
}

/// The assertions come in pairs `true, false`, none left open.
pub open spec fn matched_pairs(values: Seq<bool>) -> bool {
    alternating(values) && values.len() % 2 == 0
}

/// The readings of a signal that was never set.
pub open spec fn never_paused(steps: nat) -> Seq<bool> {
    Seq::new(steps, |i: int| false)
}

/// The first `length` actions of a phase of `duration` seconds that is
/// never paused: the report of second `0`, a one-second sleep, the report
/// of second `1`, a one-second sleep, and so on.
pub open spec fn unpaused_actions(duration: u64, length: nat) -> Seq<PhaseAction> {
    Seq::new(
        length,
        |i: int|
            if i % 2 == 0 {
                PhaseAction::ReportProgress { elapsed: (i / 2) as u64, total: duration }
            } else {
                PhaseAction::SleepOneSecond
            },
    )
}

/// The whole trace of a phase of `duration` seconds that is never paused:
/// `duration` times report and sleep, and the final report.
pub open spec fn unpaused_trace(duration: u64) -> Seq<PhaseAction> {
    unpaused_actions(duration, (2 * duration + 1) as nat)
}

/// How a context and the trace that led to it belong together.
spec fn accounts_for(context: PhaseContext, trace: Seq<PhaseAction>) -> bool {
    let reported: nat = if context.stage is Reported || context.stage is Finished {
        (context.elapsed_seconds + 1) as nat
    } else {
        context.elapsed_seconds as nat
    };
    let toggles = toggle_assertions(trace);
    &&& context.wf()
    &&& seconds_slept(trace) == context.elapsed_seconds
    &&& millis_slept(trace) == TICK_MILLIS * seconds_slept(trace) + POLL_INTERVAL_MILLIS
        * poll_intervals(trace)
    &&& progress_reports(trace) == counting_up(reported)
    &&& reports_target(trace, context.total_seconds)
    &&& alternating(toggles)
    &&& (toggles.len() % 2 == 1) == (context.stage is Suspended && context.toggle_active)
    &&& !context.toggle_active ==> toggles.len() == 0
}

/// What a trace holds when it has grown by one action: the toggle
/// assertions, the reports and the sleeps it held before, and the new
/// action among its kind.
pub proof fn lemma_trace_push(trace: Seq<PhaseAction>, action: PhaseAction)
    ensures
        toggle_assertions(trace.push(action)) == (match action {
            PhaseAction::AssertToggle(value) => toggle_assertions(trace).push(value),
            _ => toggle_assertions(trace),
        }),
        progress_reports(trace.push(action)) == (match action {
            PhaseAction::ReportProgress { elapsed, total } => progress_reports(trace).push(elapsed),
            _ => progress_reports(trace),
        }),
        seconds_slept(trace.push(action)) == (match action {
            PhaseAction::SleepOneSecond => seconds_slept(trace) + 1,
            _ => seconds_slept(trace),
        }),
        poll_intervals(trace.push(action)) == (match action {
            PhaseAction::SleepPollInterval => poll_intervals(trace) + 1,
            _ => poll_intervals(trace),
        }),
        millis_slept(trace.push(action)) == millis_slept(trace) + action.millis(),
{
    assert(trace.push(action).drop_last() =~= trace);
}

/// A run over one more reading is the run over the readings before it,
/// followed by the step that the new reading calls for.
pub proof fn lemma_run_push(start: PhaseContext, readings: Seq<bool>, paused: bool)
    ensures
        start.run(readings.push(paused)) == ({
            let (before, trace) = start.run(readings);
            let (after, action) = before.step(paused);
            (
                after,
                match action {
                    Some(a) => trace.push(a),
                    None => trace,
                },
            )
        }),
{
    assert(readings.push(paused).drop_last() =~= readings);
}

proof fn lemma_step_accounts(context: PhaseContext, trace: Seq<PhaseAction>, paused: bool)
    requires
        accounts_for(context, trace),
    ensures
        ({
            let (after, action) = context.step(paused);
            accounts_for(
                after,
                match action {
                    Some(a) => trace.push(a),
                    None => trace,
                },
            )
        }),
{
    if let Some(action) = context.step(paused).1 {
        lemma_trace_push(trace, action);
        if action is ReportProgress {
            let reported = progress_reports(trace).len();
            assert(progress_reports(trace.push(action)) =~= counting_up(reported + 1));
        }
    }
}

proof fn lemma_run_accounts(duration: u64, toggle_active: bool, readings: Seq<bool>)
    ensures
        ({
            let (end, trace) = PhaseContext::start(duration, toggle_active).run(readings);
            &&& accounts_for(end, trace)
            &&& end.total_seconds == duration
            &&& end.toggle_active == toggle_active
        }),
    decreases readings.len(),
{
    let start = PhaseContext::start(duration, toggle_active);
    if readings.len() == 0 {
        assert(progress_reports(Seq::<PhaseAction>::empty()) =~= counting_up(0));
    } else {
        let earlier = readings.drop_last();
        lemma_run_accounts(duration, toggle_active, earlier);
        let (before, trace) = start.run(earlier);
        lemma_step_accounts(before, trace, readings.last());
    }
}

/// The count of a phase is frozen while it is paused and never turns back.
/// A step keeps a well-formed context well-formed and leaves the target
/// and the toggle flag alone. It moves the count by one exactly when it
/// hands out the one-second sleep, and not at all otherwise; a suspended
/// phase hands out no such sleep, so its count stands still until the
/// pause is over.
pub proof fn lemma_step_counts_only_slept_seconds(context: PhaseContext, paused: bool)
    requires
        context.wf(),
    ensures
        ({
            let (after, action) = context.step(paused);
            &&& after.wf()
            &&& after.total_seconds == context.total_seconds
            &&& after.toggle_active == context.toggle_active
            &&& action == Some(PhaseAction::SleepOneSecond) ==> after.elapsed_seconds
                == context.elapsed_seconds + 1
            &&& action != Some(PhaseAction::SleepOneSecond) ==> after.elapsed_seconds
                == context.elapsed_seconds
            &&& context.stage is Suspended ==> after.elapsed_seconds == context.elapsed_seconds
        }),
{
}

/// A pause that is gone as soon as it was seen. When a toggle-active phase
/// at the top of a tick reads the signal set, and reads it clear at the
/// very next step, it still hands out both assertions, `true` and then
/// `false`, with nothing in between, and then reports the count it had.
/// The pair is never collapsed and never left half done.
pub proof fn lemma_rapid_pause_yields_matched_pair(context: PhaseContext)
    requires
        context.wf(),
        context.stage is Ready,
        context.elapsed_seconds < context.total_seconds,
        context.toggle_active,
    ensures
        ({
            let (entered, first) = context.step(true);
            let (left, second) = entered.step(false);
            let (reported, third) = left.step(false);
            &&& first == Some(PhaseAction::AssertToggle(true))
            &&& second == Some(PhaseAction::AssertToggle(false))
            &&& third == Some(context.report())
            &&& reported == context.at(PhaseStage::Reported)
        }),
{
}

/// A pause ends with the first clear reading. A suspended phase that
/// reads the signal clear leaves the pause on that very step: a
/// toggle-active phase asserts the toggle to `false` and has the report of
/// its count due next, another one hands out that report at once. While
/// the signal reads set it only waits, and stays suspended.
pub proof fn lemma_pause_ends_with_first_clear_reading(context: PhaseContext)
    requires
        context.wf(),
        context.stage is Suspended,
    ensures
        context.step(true) == (context, Some(PhaseAction::SleepPollInterval)),
        context.toggle_active ==> context.step(false) == (
            context.at(PhaseStage::Resumed),
            Some(PhaseAction::AssertToggle(false)),
        ),
        !context.toggle_active ==> context.step(false) == (
            context.at(PhaseStage::Reported),
            Some(context.report()),
        ),
{
}

impl PhaseContext {
    /// The number of steps the phase still takes to finish if the signal
    /// reads clear from now on: two for each second left, report and sleep,
    /// one for the final report, and what is left of the tick or the pause
    /// under way.
    pub open spec fn steps_left_unpaused(self) -> nat {
        let seconds_left = (self.total_seconds - self.elapsed_seconds) as nat;
        match self.stage {
            PhaseStage::Ready => 2 * seconds_left + 1,
            PhaseStage::Suspended => if self.toggle_active {
                2 * seconds_left + 2
            } else {
                2 * seconds_left + 1
            },
            PhaseStage::Resumed => 2 * seconds_left + 1,
            PhaseStage::Reported => 2 * seconds_left,
            PhaseStage::Finished => 0,
        }
    }
}

/// A phase cannot get stuck. From wherever it stands, a phase that reads
/// the signal clear at every step hands out an action at each of exactly
/// [`PhaseContext::steps_left_unpaused`] steps and is finished after them;
/// further steps add nothing.
pub proof fn lemma_unpaused_steps_finish_the_phase(context: PhaseContext, steps: nat)
    requires
        context.wf(),
    ensures
        ({
            let (end, trace) = context.run(never_paused(steps));
            let left = context.steps_left_unpaused();
            &&& end.wf()
            &&& end.steps_left_unpaused() == if steps <= left { left - steps } else { 0 }
            &&& trace.len() == if steps <= left { steps } else { left }
            &&& steps >= left ==> end.stage is Finished
        }),
    decreases steps,
{
    if steps > 0 {
        let earlier = (steps - 1) as nat;
        lemma_unpaused_steps_finish_the_phase(context, earlier);
        assert(never_paused(steps) =~= never_paused(earlier).push(false));
        lemma_run_push(context, never_paused(earlier), false);
    }
}

/// Tick accounting. When a phase of `duration` seconds has finished, it has
/// reported progress exactly `duration + 1` times, with the counts
/// `0, 1, .., duration` in this order and `duration` as the target each
/// time, and it has asked for exactly `duration` one-second sleeps. This
/// holds whatever the pause signal read on the way: a pause adds polling
/// intervals and never a tick, and takes none away.
pub proof fn lemma_finished_phase_counts_every_second(
    duration: u64,
    toggle_active: bool,
    readings: Seq<bool>,
)
    requires
        PhaseContext::start(duration, toggle_active).run(readings).0.stage is Finished,
    ensures
        ({
            let (end, trace) = PhaseContext::start(duration, toggle_active).run(readings);
            &&& progress_reports(trace) == counting_up((duration + 1) as nat)
            &&& reports_target(trace, duration)
            &&& seconds_slept(trace) == duration
            &&& end.elapsed_seconds == duration
        }),
{
    lemma_run_accounts(duration, toggle_active, readings);
}

/// A pause adds its own length and nothing else. The time that a
/// finished phase of `duration` seconds has slept is that of its
/// `duration` ticks and of the polling intervals it waited while paused:
/// never less than `duration` seconds, and more only by the waiting.
pub proof fn lemma_finished_phase_sleeps_duration_and_pauses(
    duration: u64,
    toggle_active: bool,
    readings: Seq<bool>,
)
    requires
        PhaseContext::start(duration, toggle_active).run(readings).0.stage is Finished,
    ensures
        ({
            let (end, trace) = PhaseContext::start(duration, toggle_active).run(readings);
            &&& millis_slept(trace) == TICK_MILLIS * duration + POLL_INTERVAL_MILLIS
                * poll_intervals(trace)
            &&& millis_slept(trace) >= TICK_MILLIS * duration
        }),
{
    lemma_run_accounts(duration, toggle_active, readings);
}

/// Tick accounting for a phase that is still under way: the one-second
/// sleeps asked for so far are as many as the seconds counted, the counts
/// reported so far are `0, 1, ..` without a gap or a repeat, and the count
/// has not passed the target.
pub proof fn lemma_running_phase_counts_in_step(
    duration: u64,
    toggle_active: bool,
    readings: Seq<bool>,
)
    ensures
        ({
            let (end, trace) = PhaseContext::start(duration, toggle_active).run(readings);
            let reports = progress_reports(trace);
            &&& end.wf()
            &&& end.total_seconds == duration
            &&& seconds_slept(trace) == end.elapsed_seconds
            &&& end.elapsed_seconds <= reports.len() <= end.elapsed_seconds + 1
            &&& reports == counting_up(reports.len())
            &&& reports_target(trace, duration)
        }),
{
    lemma_run_accounts(duration, toggle_active, readings);
}

/// Pause toggling is balanced. In every run of a phase the toggle
/// assertions alternate `true, false, true, ..`, starting with `true`. One
/// is left open exactly while a toggle-active phase is suspended, so each
/// `true` asserted on entering a pause has been answered by exactly one
/// `false` as soon as the phase has left the pause, and in particular when
/// it has finished. A phase that is not toggle-active asserts nothing.
pub proof fn lemma_pause_toggles_are_matched(
    duration: u64,
    toggle_active: bool,
    readings: Seq<bool>,
)
    ensures
        ({
            let (end, trace) = PhaseContext::start(duration, toggle_active).run(readings);
            let toggles = toggle_assertions(trace);
            &&& alternating(toggles)
            &&& (end.stage is Suspended && toggle_active) ==> toggles.len() % 2 == 1
            &&& !(end.stage is Suspended && toggle_active) ==> matched_pairs(toggles)
            &&& end.stage is Finished ==> matched_pairs(toggles)
            &&& !toggle_active ==> toggles.len() == 0
        }),
{
    lemma_run_accounts(duration, toggle_active, readings);
}

/// While the signal never reads set, a phase alternates report and sleep:
/// after `steps` steps it has counted `steps / 2` seconds, or all of them.
proof fn lemma_unpaused_run(duration: u64, toggle_active: bool, steps: nat)
    ensures
        ({
            let (end, trace) = PhaseContext::start(duration, toggle_active).run(
                never_paused(steps),
            );
            &&& toggle_assertions(trace).len() == 0
            &&& trace == unpaused_actions(
                duration,
                if steps <= 2 * duration {
                    steps
                } else {
                    (2 * duration + 1) as nat
                },
            )
            &&& if steps <= 2 * duration {
                &&& end.elapsed_seconds == steps / 2
                &&& end.stage == if steps % 2 == 0 {
                    PhaseStage::Ready
                } else {
                    PhaseStage::Reported
                }
            } else {
                end.stage is Finished
            }
        }),
    decreases steps,
{
    let start = PhaseContext::start(duration, toggle_active);
    if steps > 0 {
        let earlier = (steps - 1) as nat;
        lemma_unpaused_run(duration, toggle_active, earlier);
        assert(never_paused(steps) =~= never_paused(earlier).push(false));
        lemma_run_push(start, never_paused(earlier), false);
        let (before, trace) = start.run(never_paused(earlier));
        lemma_run_accounts(duration, toggle_active, never_paused(earlier));
        if let Some(action) = before.step(false).1 {
            lemma_trace_push(trace, action);
        }
    }
}

/// A phase that is never paused. With the signal clear at every step, a
/// phase of `duration` seconds is finished after `2 * duration + 1` steps,
/// and however many steps are taken beyond that, its trace is report and
/// sleep for each second and then the final report, and nothing else. So
/// it holds exactly `duration + 1` progress reports, with the counts
/// `0, 1, .., duration`, exactly `duration` one-second sleeps, and no
/// toggle assertion at all, whether the phase is toggle-active or not.
pub proof fn lemma_unpaused_phase_reports_and_never_toggles(
    duration: u64,
    toggle_active: bool,
    steps: nat,
)
    requires
        steps >= 2 * duration + 1,
    ensures
        ({
            let (end, trace) = PhaseContext::start(duration, toggle_active).run(
                never_paused(steps),
            );
            &&& end.stage is Finished
            &&& trace == unpaused_trace(duration)
            &&& progress_reports(trace) == counting_up((duration + 1) as nat)
            &&& seconds_slept(trace) == duration
            &&& toggle_assertions(trace).len() == 0
        }),
{
    lemma_unpaused_run(duration, toggle_active, steps);
    lemma_run_accounts(duration, toggle_active, never_paused(steps));
}

} // verus!

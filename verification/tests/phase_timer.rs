use focus_timer::pause::PauseSignal;
use focus_timer::phase::PhaseAction;
use focus_timer::phase::PhaseContext;
use focus_timer::phase::PhaseStage;
use focus_timer::phase::PhaseTimer;

fn report(elapsed: u64, total: u64) -> PhaseAction {
    PhaseAction::ReportProgress { elapsed, total }
}

/// Steps a fresh timer once per reading and collects what it hands out.
fn trace_of(duration: u64, toggle_active: bool, readings: &[bool]) -> (PhaseTimer, Vec<PhaseAction>) {
    let mut timer = PhaseTimer::new(duration, toggle_active);
    let mut trace: Vec<PhaseAction> = Vec::new();
    for paused in readings {
        if let Some(action) = timer.step(*paused) {
            trace.push(action);
        }
    }
    (timer, trace)
}

fn toggles_in(trace: &[PhaseAction]) -> Vec<bool> {
    let mut values: Vec<bool> = Vec::new();
    for action in trace {
        if let PhaseAction::AssertToggle(value) = action {
            values.push(*value);
        }
    }
    values
}

fn reports_in(trace: &[PhaseAction]) -> Vec<(u64, u64)> {
    let mut reports: Vec<(u64, u64)> = Vec::new();
    for action in trace {
        if let PhaseAction::ReportProgress { elapsed, total } = action {
            reports.push((*elapsed, *total));
        }
    }
    reports
}

fn count_of(trace: &[PhaseAction], wanted: PhaseAction) -> usize {
    trace.iter().filter(|action| **action == wanted).count()
}

#[test]
fn new_timer_starts_ready_at_zero() {
    let timer = PhaseTimer::new(90, true);
    assert_eq!(
        timer.context(),
        PhaseContext {
            total_seconds: 90,
            elapsed_seconds: 0,
            toggle_active: true,
            stage: PhaseStage::Ready,
        }
    );
    assert!(!timer.is_finished());
}

#[test]
fn zero_duration_phase_reports_once_and_finishes() {
    let mut timer = PhaseTimer::new(0, true);
    assert_eq!(timer.step(true), Some(report(0, 0)));
    assert!(timer.is_finished());
    assert_eq!(timer.step(true), None);
    assert_eq!(timer.step(false), None);
    assert_eq!(timer.context().elapsed_seconds, 0);
}

#[test]
fn zero_duration_phase_never_toggles_even_when_paused() {
    let (timer, trace) = trace_of(0, true, &[true, true, false, true]);
    assert!(timer.is_finished());
    assert_eq!(trace, vec![report(0, 0)]);
}

#[test]
fn unpaused_phase_alternates_report_and_sleep() {
    let (timer, trace) = trace_of(3, true, &[false; 7]);
    assert!(timer.is_finished());
    assert_eq!(
        trace,
        vec![
            report(0, 3),
            PhaseAction::SleepOneSecond,
            report(1, 3),
            PhaseAction::SleepOneSecond,
            report(2, 3),
            PhaseAction::SleepOneSecond,
            report(3, 3),
        ]
    );
}

#[test]
fn unpaused_phase_reports_duration_plus_one_times_and_never_toggles() {
    for toggle_active in [true, false] {
        for duration in [0u64, 1, 2, 5, 60] {
            let steps: usize = 2 * (duration as usize) + 1;
            let (timer, trace) = trace_of(duration, toggle_active, &vec![false; steps]);
            assert!(timer.is_finished());
            let expected: Vec<(u64, u64)> = (0..=duration).map(|n| (n, duration)).collect();
            assert_eq!(reports_in(&trace), expected);
            assert_eq!(toggles_in(&trace), Vec::<bool>::new());
            assert_eq!(count_of(&trace, PhaseAction::SleepOneSecond), duration as usize);
            assert_eq!(count_of(&trace, PhaseAction::SleepPollInterval), 0);
        }
    }
}

#[test]
fn unpaused_phase_is_not_finished_one_step_early() {
    let (timer, trace) = trace_of(4, false, &[false; 8]);
    assert!(!timer.is_finished());
    assert_eq!(trace.len(), 8);
    assert_eq!(timer.context().elapsed_seconds, 4);
    assert_eq!(timer.context().stage, PhaseStage::Ready);
}

#[test]
fn steps_beyond_the_end_hand_out_nothing() {
    let (mut timer, trace) = trace_of(2, true, &[false; 20]);
    assert_eq!(trace.len(), 5);
    assert!(timer.is_finished());
    assert_eq!(timer.step(true), None);
    assert_eq!(timer.context().elapsed_seconds, 2);
}

#[test]
fn pause_in_toggle_active_phase_asserts_true_then_false() {
    let readings = [false, false, true, true, true, false, false, false, false];
    let (timer, trace) = trace_of(2, true, &readings);
    assert!(timer.is_finished());
    assert_eq!(
        trace,
        vec![
            report(0, 2),
            PhaseAction::SleepOneSecond,
            PhaseAction::AssertToggle(true),
            PhaseAction::SleepPollInterval,
            PhaseAction::SleepPollInterval,
            PhaseAction::AssertToggle(false),
            report(1, 2),
            PhaseAction::SleepOneSecond,
            report(2, 2),
        ]
    );
}

#[test]
fn pause_in_other_phase_waits_without_toggling() {
    let readings = [false, false, true, true, true, false, false, false];
    let (timer, trace) = trace_of(2, false, &readings);
    assert!(timer.is_finished());
    assert_eq!(
        trace,
        vec![
            report(0, 2),
            PhaseAction::SleepOneSecond,
            PhaseAction::SleepPollInterval,
            PhaseAction::SleepPollInterval,
            PhaseAction::SleepPollInterval,
            report(1, 2),
            PhaseAction::SleepOneSecond,
            report(2, 2),
        ]
    );
}

#[test]
fn pause_before_the_first_tick_reports_zero_after_resuming() {
    let (timer, trace) = trace_of(1, true, &[true, true, false, false, false, false]);
    assert!(timer.is_finished());
    assert_eq!(
        trace,
        vec![
            PhaseAction::AssertToggle(true),
            PhaseAction::SleepPollInterval,
            PhaseAction::AssertToggle(false),
            report(0, 1),
            PhaseAction::SleepOneSecond,
            report(1, 1),
        ]
    );
}

#[test]
fn rapid_pause_still_yields_the_matched_pair() {
    let mut timer = PhaseTimer::new(5, true);
    assert_eq!(timer.step(true), Some(PhaseAction::AssertToggle(true)));
    assert_eq!(timer.context().stage, PhaseStage::Suspended);
    assert_eq!(timer.step(false), Some(PhaseAction::AssertToggle(false)));
    assert_eq!(timer.context().stage, PhaseStage::Resumed);
    assert_eq!(timer.step(true), Some(report(0, 5)));
    assert_eq!(timer.step(true), Some(PhaseAction::SleepOneSecond));
    assert_eq!(timer.context().elapsed_seconds, 1);
}

#[test]
fn pause_is_not_seen_between_report_and_sleep() {
    let mut timer = PhaseTimer::new(1, true);
    assert_eq!(timer.step(false), Some(report(0, 1)));
    assert_eq!(timer.step(true), Some(PhaseAction::SleepOneSecond));
    assert_eq!(timer.step(false), Some(report(1, 1)));
    assert!(timer.is_finished());
}

#[test]
fn count_is_frozen_while_paused() {
    let mut timer = PhaseTimer::new(10, true);
    for _ in 0..6 {
        timer.step(false);
    }
    assert_eq!(timer.context().elapsed_seconds, 3);
    assert_eq!(timer.step(true), Some(PhaseAction::AssertToggle(true)));
    for _ in 0..50 {
        assert_eq!(timer.step(true), Some(PhaseAction::SleepPollInterval));
        assert_eq!(timer.context().elapsed_seconds, 3);
        assert_eq!(timer.context().stage, PhaseStage::Suspended);
    }
    assert_eq!(timer.step(false), Some(PhaseAction::AssertToggle(false)));
    assert_eq!(timer.step(false), Some(report(3, 10)));
    assert_eq!(timer.context().elapsed_seconds, 3);
}

#[test]
fn several_pauses_are_each_honoured() {
    let readings = [
        true, false, false, false, true, true, false, false, false, true, false, false, false,
        false,
    ];
    let (timer, trace) = trace_of(3, true, &readings);
    assert!(timer.is_finished());
    assert_eq!(toggles_in(&trace), vec![true, false, true, false, true, false]);
    assert_eq!(reports_in(&trace), vec![(0, 3), (1, 3), (2, 3), (3, 3)]);
    assert_eq!(count_of(&trace, PhaseAction::SleepOneSecond), 3);
    assert_eq!(count_of(&trace, PhaseAction::SleepPollInterval), 1);
}

#[test]
fn pause_seen_at_the_target_is_ignored() {
    let mut timer = PhaseTimer::new(1, true);
    timer.step(false);
    timer.step(false);
    assert_eq!(timer.step(true), Some(report(1, 1)));
    assert!(timer.is_finished());
}

#[test]
fn largest_duration_does_not_overflow_near_the_end() {
    let mut timer = PhaseTimer::new(u64::MAX, false);
    assert_eq!(timer.step(false), Some(report(0, u64::MAX)));
    assert_eq!(timer.step(false), Some(PhaseAction::SleepOneSecond));
    assert_eq!(timer.context().elapsed_seconds, 1);
    assert_eq!(timer.context().total_seconds, u64::MAX);
}

#[test]
fn any_readings_keep_ticks_and_toggles_in_order() {
    let mut seed: u64 = 0x2545_f491_4f6c_dd1d;
    for round in 0u64..200 {
        let duration: u64 = round % 7;
        let toggle_active: bool = round % 2 == 0;
        let mut timer = PhaseTimer::new(duration, toggle_active);
        let mut trace: Vec<PhaseAction> = Vec::new();
        let mut steps: u32 = 0;
        while !timer.is_finished() {
            seed ^= seed << 13;
            seed ^= seed >> 7;
            seed ^= seed << 17;
            let paused: bool = steps < 400 && seed % 3 == 0;
            let before: PhaseContext = timer.context();
            let action = timer.step(paused);
            let after: PhaseContext = timer.context();
            assert!(after.elapsed_seconds >= before.elapsed_seconds);
            assert!(after.elapsed_seconds <= after.total_seconds);
            if before.stage == PhaseStage::Suspended {
                assert_eq!(after.elapsed_seconds, before.elapsed_seconds);
            }
            trace.push(action.unwrap());
            steps += 1;
        }
        let toggles = toggles_in(&trace);
        assert_eq!(toggles.len() % 2, 0);
        for (index, value) in toggles.iter().enumerate() {
            assert_eq!(*value, index % 2 == 0);
        }
        if !toggle_active {
            assert!(toggles.is_empty());
        }
        let expected: Vec<(u64, u64)> = (0..=duration).map(|n| (n, duration)).collect();
        assert_eq!(reports_in(&trace), expected);
        assert_eq!(count_of(&trace, PhaseAction::SleepOneSecond), duration as usize);
    }
}

#[test]
fn poll_reads_the_signal_it_is_given() {
    let signal = PauseSignal::new();
    let mut timer = PhaseTimer::new(2, true);
    assert_eq!(timer.poll(&signal), Some(report(0, 2)));
    assert_eq!(timer.poll(&signal), Some(PhaseAction::SleepOneSecond));
    signal.toggle();
    assert_eq!(timer.poll(&signal), Some(PhaseAction::AssertToggle(true)));
    assert_eq!(timer.poll(&signal), Some(PhaseAction::SleepPollInterval));
    signal.toggle();
    assert_eq!(timer.poll(&signal), Some(PhaseAction::AssertToggle(false)));
    assert_eq!(timer.poll(&signal), Some(report(1, 2)));
    assert_eq!(timer.poll(&signal), Some(PhaseAction::SleepOneSecond));
    assert_eq!(timer.poll(&signal), Some(report(2, 2)));
    assert_eq!(timer.poll(&signal), None);
}

#[test]
fn released_pause_lets_the_phase_finish_in_a_known_number_of_steps() {
    for toggle_active in [true, false] {
        let mut timer = PhaseTimer::new(6, toggle_active);
        for _ in 0..4 {
            timer.step(false);
        }
        for _ in 0..9 {
            timer.step(true);
        }
        assert_eq!(timer.context().stage, PhaseStage::Suspended);
        assert_eq!(timer.context().elapsed_seconds, 2);
        let expected: u32 = if toggle_active { 2 * 4 + 2 } else { 2 * 4 + 1 };
        let mut steps: u32 = 0;
        while timer.step(false).is_some() {
            steps += 1;
            assert_eq!(timer.is_finished(), steps == expected);
        }
        assert_eq!(steps, expected);
    }
}

#[test]
fn sleeps_last_a_second_or_half_a_second() {
    assert_eq!(PhaseAction::SleepOneSecond.sleep_millis(), 1000);
    assert_eq!(PhaseAction::SleepPollInterval.sleep_millis(), 500);
    assert_eq!(PhaseAction::AssertToggle(true).sleep_millis(), 0);
    assert_eq!(PhaseAction::AssertToggle(false).sleep_millis(), 0);
    assert_eq!(report(3, 9).sleep_millis(), 0);
    assert_eq!(focus_timer::phase::TICK_MILLIS, 1000);
    assert_eq!(focus_timer::phase::POLL_INTERVAL_MILLIS, 500);
}

#[test]
fn paused_phase_sleeps_its_duration_and_the_waiting() {
    let readings = [false, false, true, true, true, true, false, false, false, false];
    let (timer, trace) = trace_of(2, true, &readings);
    assert!(timer.is_finished());
    let slept: u64 = trace.iter().map(|action| action.sleep_millis()).sum();
    assert_eq!(slept, 2 * 1000 + 3 * 500);
}

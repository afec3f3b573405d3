use focus_timer::config::Configuration;
use focus_timer::cycle::CycleAction;
use focus_timer::cycle::CycleController;
use focus_timer::cycle::CycleStage;
use focus_timer::cycle::REST_STATE;
use focus_timer::interrupt::InterruptAction;
use focus_timer::phase::PhaseAction;
use focus_timer::phase::PhaseStage;
use focus_timer::wifi::power_command;
use focus_timer::wifi::power_word;
use focus_timer::wifi::wifi_power;
use focus_timer::wifi::wifi_power_on_interrupt;

#[test]
fn focus_turns_wifi_off_and_break_turns_it_on() {
    assert_eq!(wifi_power(CycleAction::AssertToggle(true)), Some(false));
    assert_eq!(wifi_power(CycleAction::AssertToggle(false)), Some(true));
}

#[test]
fn rest_leaves_wifi_on() {
    assert_eq!(wifi_power(CycleAction::AssertToggle(REST_STATE)), Some(true));
    assert_eq!(
        wifi_power_on_interrupt(InterruptAction::AssertToggle(REST_STATE)),
        Some(true)
    );
}

#[test]
fn pause_turns_wifi_on_and_resuming_turns_it_off() {
    assert_eq!(
        wifi_power(CycleAction::Phase(PhaseAction::AssertToggle(true))),
        Some(true)
    );
    assert_eq!(
        wifi_power(CycleAction::Phase(PhaseAction::AssertToggle(false))),
        Some(false)
    );
}

#[test]
fn other_actions_do_not_touch_wifi() {
    let others = [
        CycleAction::Notify { cycle: 1, total: 2 },
        CycleAction::Phase(PhaseAction::SleepOneSecond),
        CycleAction::Phase(PhaseAction::SleepPollInterval),
        CycleAction::Phase(PhaseAction::ReportProgress { elapsed: 1, total: 2 }),
    ];
    for action in others {
        assert_eq!(wifi_power(action), None);
    }
    assert_eq!(wifi_power_on_interrupt(InterruptAction::EmitDiagnostic), None);
    assert_eq!(wifi_power_on_interrupt(InterruptAction::Terminate), None);
}

#[test]
fn power_word_is_on_or_off() {
    assert_eq!(power_word(true), "on");
    assert_eq!(power_word(false), "off");
}

#[test]
fn power_command_sets_the_airport_power() {
    assert_eq!(
        power_command(true),
        vec!["networksetup", "-setairportpower", "en0", "on"]
    );
    assert_eq!(
        power_command(false),
        vec!["networksetup", "-setairportpower", "en0", "off"]
    );
}

#[test]
fn wifi_follows_focus_pause_break_and_rest() {
    let script = [false, true, true, false, false, false, false, false, true, true, false];
    let mut controller = CycleController::new(Configuration::new(1, 1, 1));
    let mut switched: Vec<bool> = Vec::new();
    let mut step: usize = 0;
    loop {
        let paused: bool = script.get(step).copied().unwrap_or(false);
        match controller.step(paused) {
            Some(action) => {
                if let Some(on) = wifi_power(action) {
                    switched.push(on);
                }
            }
            None => break,
        }
        step += 1;
    }
    assert_eq!(switched, vec![false, true, false, true, true]);
}

#[test]
fn wifi_is_off_exactly_while_focus_counts() {
    let mut seed: u64 = 0x1234_5678_9abc_def1;
    for round in 0u32..40 {
        let config = Configuration::new((round % 3) as u64, (round % 4) as u64, round % 3 + 1);
        let mut controller = CycleController::new(config);
        let mut power: Option<bool> = None;
        let mut steps: u32 = 0;
        loop {
            seed ^= seed << 13;
            seed ^= seed >> 7;
            seed ^= seed << 17;
            let paused: bool = steps < 200 && seed % 3 == 0;
            let action = match controller.step(paused) {
                Some(action) => action,
                None => break,
            };
            if let Some(on) = wifi_power(action) {
                power = Some(on);
            }
            let context = controller.context();
            let off: bool = (context.stage == CycleStage::Focus
                && context.phase.stage != PhaseStage::Suspended)
                || context.stage == CycleStage::FocusDone;
            assert_eq!(power, Some(!off));
            steps += 1;
        }
        assert_eq!(power, Some(true));
    }
}

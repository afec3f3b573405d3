use focus_timer::config::Configuration;
use focus_timer::config::DEFAULT_BREAK_SECONDS;
use focus_timer::config::DEFAULT_CYCLE_COUNT;
use focus_timer::config::DEFAULT_FOCUS_SECONDS;

#[test]
fn configuration_keeps_what_it_was_built_with() {
    let config = Configuration::new(1500, 300, 4);
    assert_eq!(config.focus_duration(), 1500);
    assert_eq!(config.break_duration(), 300);
    assert_eq!(config.cycle_count(), 4);
}

#[test]
fn configuration_accepts_the_extremes() {
    let config = Configuration::new(u64::MAX, 0, u32::MAX);
    assert_eq!(config.focus_duration(), u64::MAX);
    assert_eq!(config.break_duration(), 0);
    assert_eq!(config.cycle_count(), u32::MAX);
}

#[test]
fn configurations_compare_by_their_settings() {
    assert_eq!(Configuration::new(1, 2, 3), Configuration::new(1, 2, 3));
    assert_ne!(Configuration::new(1, 2, 3), Configuration::new(1, 2, 4));
    assert_ne!(Configuration::new(1, 2, 3), Configuration::new(2, 1, 3));
}

#[test]
fn defaults_are_twenty_five_and_five_minutes_once() {
    assert_eq!(DEFAULT_FOCUS_SECONDS, 1500);
    assert_eq!(DEFAULT_BREAK_SECONDS, 300);
    assert_eq!(DEFAULT_CYCLE_COUNT, 1);
    let config = Configuration::default();
    assert_eq!(config, Configuration::new(1500, 300, 1));
}

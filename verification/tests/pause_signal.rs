use focus_timer::pause::Flip;
use focus_timer::pause::PauseSignal;

#[test]
fn new_signal_reads_not_paused() {
    let signal = PauseSignal::new();
    assert!(!signal.read());
    assert!(!signal.read());
}

#[test]
fn toggle_flips_and_returns_the_new_value() {
    let signal = PauseSignal::new();
    assert!(signal.toggle().now_paused);
    assert!(signal.read());
    assert!(!signal.toggle().now_paused);
    assert!(!signal.read());
}

#[test]
fn toggle_returns_both_sides_of_the_flip() {
    let signal = PauseSignal::new();
    assert_eq!(signal.toggle(), Flip { was_paused: false, now_paused: true });
    assert_eq!(signal.toggle(), Flip { was_paused: true, now_paused: false });
    assert_eq!(signal.toggle(), Flip { was_paused: false, now_paused: true });
}

#[test]
fn each_flip_starts_where_the_last_one_ended() {
    let signal = PauseSignal::new();
    let mut held: bool = signal.read();
    for _ in 0..101 {
        let flip = signal.toggle();
        assert_eq!(flip.was_paused, held);
        assert_eq!(flip.now_paused, !held);
        held = flip.now_paused;
        assert_eq!(signal.read(), held);
    }
}

#[test]
fn toggling_twice_restores_the_reading() {
    let signal = PauseSignal::new();
    for _ in 0..1000 {
        signal.toggle();
        signal.toggle();
        assert!(!signal.read());
    }
    signal.toggle();
    for _ in 0..1000 {
        signal.toggle();
        signal.toggle();
        assert!(signal.read());
    }
}

#[test]
fn signal_is_shared_through_shared_references() {
    let signal = PauseSignal::new();
    let writer: &PauseSignal = &signal;
    let reader: &PauseSignal = &signal;
    writer.toggle();
    assert!(reader.read());
}

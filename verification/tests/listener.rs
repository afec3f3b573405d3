use focus_timer::listener::acknowledgment;
use focus_timer::listener::handle;
use focus_timer::listener::is_whitespace_char;
use focus_timer::listener::recognizes;
use focus_timer::listener::InputEvent;
use focus_timer::listener::ListenerAction;
use focus_timer::listener::PAUSE_COMMAND;
use focus_timer::pause::PauseSignal;

#[test]
fn pause_command_is_the_letter_p() {
    assert_eq!(PAUSE_COMMAND, 'p');
}

#[test]
fn bare_command_is_recognized() {
    assert!(recognizes("p"));
}

#[test]
fn command_between_whitespace_is_recognized() {
    for line in [" p", "p ", "  p  ", "\tp", "p\r", "p\n", "\r\n p \t\r\n", "\u{3000}p\u{a0}", "\u{2003}p\u{85}"] {
        assert!(recognizes(line), "{:?}", line);
    }
}

#[test]
fn other_lines_are_not_recognized() {
    for line in [
        "", " ", "\t\r\n", "P", "q", "pp", "p p", "p q", "q p", " pause ", "p.", ".p", "p\u{200b}",
        "\u{feff}p", "p\0", "ｐ", "p\u{301}",
    ] {
        assert!(!recognizes(line), "{:?}", line);
    }
}

#[test]
fn recognition_agrees_with_trimming() {
    let pieces = ["", " ", "p", "q", "\t", "\u{2028}", "P", "\u{a0}", "x"];
    for a in pieces {
        for b in pieces {
            for c in pieces {
                for d in pieces {
                    let line = format!("{}{}{}{}", a, b, c, d);
                    assert_eq!(recognizes(&line), line.trim() == "p", "{:?}", line);
                }
            }
        }
    }
}

#[test]
fn whitespace_is_what_trimming_removes() {
    let mut code: u32 = 0;
    let mut spaces: u32 = 0;
    while code <= 0x10_ffff {
        if let Some(c) = char::from_u32(code) {
            assert_eq!(is_whitespace_char(c), c.is_whitespace(), "U+{:04X}", code);
            if is_whitespace_char(c) {
                spaces += 1;
            }
        }
        code += 1;
    }
    assert_eq!(spaces, 25);
}

#[test]
fn command_line_flips_the_signal_and_is_acknowledged() {
    let signal = PauseSignal::new();
    assert_eq!(
        handle(InputEvent::Line("p"), &signal),
        ListenerAction::Acknowledge { now_paused: true }
    );
    assert!(signal.read());
    assert_eq!(
        handle(InputEvent::Line("  p\r"), &signal),
        ListenerAction::Acknowledge { now_paused: false }
    );
    assert!(!signal.read());
}

#[test]
fn other_line_is_ignored_and_leaves_the_signal_alone() {
    let signal = PauseSignal::new();
    for line in ["", "x", "pp", "P", "pause"] {
        assert_eq!(handle(InputEvent::Line(line), &signal), ListenerAction::Ignore);
        assert!(!signal.read());
    }
    signal.toggle();
    assert_eq!(handle(InputEvent::Line("resume"), &signal), ListenerAction::Ignore);
    assert!(signal.read());
}

#[test]
fn failed_read_is_reported_and_leaves_the_signal_alone() {
    let signal = PauseSignal::new();
    assert_eq!(handle(InputEvent::ReadFailed, &signal), ListenerAction::ReportReadFailure);
    assert!(!signal.read());
    signal.toggle();
    assert_eq!(handle(InputEvent::ReadFailed, &signal), ListenerAction::ReportReadFailure);
    assert!(signal.read());
}

#[test]
fn listener_goes_on_after_a_failed_read() {
    let signal = PauseSignal::new();
    assert_eq!(handle(InputEvent::ReadFailed, &signal), ListenerAction::ReportReadFailure);
    assert_eq!(
        handle(InputEvent::Line("p"), &signal),
        ListenerAction::Acknowledge { now_paused: true }
    );
}

#[test]
fn two_commands_in_a_row_leave_the_signal_as_it_was() {
    let signal = PauseSignal::new();
    handle(InputEvent::Line("p"), &signal);
    handle(InputEvent::Line("p"), &signal);
    assert!(!signal.read());
}

#[test]
fn acknowledgment_names_the_new_state() {
    assert_eq!(acknowledgment(true), "Pause toggled to PAUSED");
    assert_eq!(acknowledgment(false), "Pause toggled to RUNNING");
}

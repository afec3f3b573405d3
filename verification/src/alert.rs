//! The end-of-cycle alert: its wording, and the command that raises it.
//!
//! Running the command belongs to the driver. What it says is decided here.

use vstd::prelude::*;

verus! {

/// The character of a decimal digit.
pub open spec fn digit(d: nat) -> char {
    if d == 0 {
        '0'
    } else if d == 1 {
        '1'
    } else if d == 2 {
        '2'
    } else if d == 3 {
        '3'
    } else if d == 4 {
        '4'
    } else if d == 5 {
        '5'
    } else if d == 6 {
        '6'
    } else if d == 7 {
        '7'
    } else if d == 8 {
        '8'
    } else {
        '9'
    }
}

/// A number in decimal, without sign, padding or leading zeros.
pub open spec fn decimal(n: nat) -> Seq<char>
    decreases n,
{
    if n < 10 {
        seq![digit(n)]
    } else {
        decimal(n / 10).push(digit(n % 10))
    }
}

/// The title under which alerts are raised.
pub open spec fn alert_title_text() -> Seq<char> {
    "Focus Timer"@
}

/// The wording of the alert for a cycle.
pub open spec fn cycle_message_text(cycle: u32) -> Seq<char> {
    "Cycle "@ + decimal(cycle as nat) + " finished!"@
}

/// The script that displays `message` under `title`. Both are put between
/// double quotes as they are, without escaping.
pub open spec fn notification_script_text(title: Seq<char>, message: Seq<char>) -> Seq<char> {
    "display notification \""@ + message + "\" with title \""@ + title + "\""@
}

fn digit_text(d: u32) -> (text: &'static str)
    requires
        d < 10,
    ensures
        text@ == seq![digit(d as nat)],
{
    proof {
        reveal_strlit("0");
        reveal_strlit("1");
        reveal_strlit("2");
        reveal_strlit("3");
        reveal_strlit("4");
        reveal_strlit("5");
        reveal_strlit("6");
        reveal_strlit("7");
        reveal_strlit("8");
        reveal_strlit("9");
    }
    if d == 0 {
        "0"
    } else if d == 1 {
        "1"
    } else if d == 2 {
        "2"
    } else if d == 3 {
        "3"
    } else if d == 4 {
        "4"
    } else if d == 5 {
        "5"
    } else if d == 6 {
        "6"
    } else if d == 7 {
        "7"
    } else if d == 8 {
        "8"
    } else {
        "9"
    }
}

fn append_decimal(out: &mut String, n: u32)
    ensures
        final(out)@ == old(out)@ + decimal(n as nat),
    decreases n,
{
    if n >= 10 {
        append_decimal(out, n / 10);
    }
    out.append(digit_text(n % 10));
}

/// The title under which alerts are raised.
pub fn alert_title() -> (title: &'static str)
    ensures
        title@ == alert_title_text(),
{
    "Focus Timer"
}

/// The wording of the alert for a cycle: `Cycle 3 finished!` for cycle 3.
pub fn cycle_message(cycle: u32) -> (message: String)
    ensures
        message@ == cycle_message_text(cycle),
{
    let mut message = String::from_str("Cycle ");
    append_decimal(&mut message, cycle);
    message.append(" finished!");
    message
}

/// The script that displays `message` under `title`.
pub fn notification_script(title: &str, message: &str) -> (script: String)
    ensures
        script@ == notification_script_text(title@, message@),
{
    let mut script = String::from_str("display notification \"");
    script.append(message);
    script.append("\" with title \"");
    script.append(title);
    script.append("\"");
    script
}

/// The command line that raises an alert: the program, then its arguments.
pub fn notification_command(title: &str, message: &str) -> (command: Vec<String>)
    ensures
        command@.len() == 3,
        command@[0]@ == "osascript"@,
        command@[1]@ == "-e"@,
        command@[2]@ == notification_script_text(title@, message@),
{
    let mut command: Vec<String> = Vec::new();
    command.push(String::from_str("osascript"));
    command.push(String::from_str("-e"));
    command.push(notification_script(title, message));
    command
}

} // verus!

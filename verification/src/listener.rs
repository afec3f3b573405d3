//! The operator's side of the pause signal: lines of input, and which of
//! them flip the signal.
//!
//! Reading the input stream blocks and belongs to the driver. What a line
//! means is decided here.

use vstd::prelude::*;
use crate::pause::PauseSignal;

verus! {

/// The one command the listener knows: a line that holds this character and
/// nothing else but whitespace flips the pause signal.
pub const PAUSE_COMMAND: char = 'p';

/// Whether `c` is whitespace: one of the code points that Unicode classes
/// as `White_Space`.
pub open spec fn is_whitespace(c: char) -> bool {
    let code = c as u32;
    ||| 0x09 <= code <= 0x0D
    ||| code == 0x20
    ||| code == 0x85
    ||| code == 0xA0
    ||| code == 0x1680
    ||| 0x2000 <= code <= 0x200A
    ||| code == 0x2028
    ||| code == 0x2029
    ||| code == 0x202F
    ||| code == 0x205F
    ||| code == 0x3000
}

/// `text` without the whitespace it begins with.
pub open spec fn trim_start(text: Seq<char>) -> Seq<char>
    decreases text.len(),
{
    if text.len() > 0 && is_whitespace(text.first()) {
        trim_start(text.drop_first())
    } else {
        text
    }
}

/// `text` without the whitespace it ends with.
pub open spec fn trim_end(text: Seq<char>) -> Seq<char>
    decreases text.len(),
{
    if text.len() > 0 && is_whitespace(text.last()) {
        trim_end(text.drop_last())
    } else {
        text
    }
}

/// `text` without the whitespace around it.
pub open spec fn trimmed(text: Seq<char>) -> Seq<char> {
    trim_end(trim_start(text))
}

/// Whether a line is the pause command: trimmed, it is exactly
/// [`PAUSE_COMMAND`].
pub open spec fn is_pause_command(line: Seq<char>) -> bool {
    trimmed(line) == seq![PAUSE_COMMAND]
}

/// Whether `c` is whitespace.
pub fn is_whitespace_char(c: char) -> (space: bool)
    ensures
        space == is_whitespace(c),
{
    let code: u32 = c as u32;
    (0x09 <= code && code <= 0x0D) || code == 0x20 || code == 0x85 || code == 0xA0 || code
        == 0x1680 || (0x2000 <= code && code <= 0x200A) || code == 0x2028 || code == 0x2029
        || code == 0x202F || code == 0x205F || code == 0x3000
}

/// Every character of `text` before `end` is whitespace.
spec fn blank_before(text: Seq<char>, end: int) -> bool {
    forall|j: int| 0 <= j < end ==> is_whitespace(#[trigger] text[j])
}

/// Before `end`, `text` holds the pause command at `at` and whitespace
/// everywhere else.
spec fn lone_command_before(text: Seq<char>, at: int, end: int) -> bool {
    &&& 0 <= at < end
    &&& text[at] == PAUSE_COMMAND
    &&& forall|j: int| 0 <= j < end && j != at ==> is_whitespace(#[trigger] text[j])
}

proof fn lemma_trim_start_skips(text: Seq<char>, first: int)
    requires
        0 <= first <= text.len(),
        blank_before(text, first),
        first == text.len() || !is_whitespace(text[first]),
    ensures
        trim_start(text) == text.subrange(first, text.len() as int),
    decreases first,
{
    if first > 0 {
        lemma_trim_start_skips(text.drop_first(), first - 1);
    }
}

proof fn lemma_trim_end_keeps(text: Seq<char>, kept: int)
    requires
        0 <= kept < text.len(),
        !is_whitespace(text[kept]),
    ensures
        kept < trim_end(text).len() <= text.len(),
        trim_end(text) == text.subrange(0, trim_end(text).len() as int),
    decreases text.len(),
{
    if is_whitespace(text.last()) {
        lemma_trim_end_keeps(text.drop_last(), kept);
    }
}

proof fn lemma_trim_end_drops(text: Seq<char>, keep: int)
    requires
        0 <= keep <= text.len(),
        forall|j: int| keep <= j < text.len() ==> is_whitespace(#[trigger] text[j]),
        keep == 0 || !is_whitespace(text[keep - 1]),
    ensures
        trim_end(text) == text.subrange(0, keep),
    decreases text.len() - keep,
{
    if keep < text.len() {
        lemma_trim_end_drops(text.drop_last(), keep);
    }
}

/// A line of whitespace alone is no command.
proof fn lemma_blank_line(line: Seq<char>)
    requires
        blank_before(line, line.len() as int),
    ensures
        !is_pause_command(line),
{
    lemma_trim_start_skips(line, line.len() as int);
}

/// A line whose first visible character is not the command is no command.
proof fn lemma_other_first(line: Seq<char>, first: int)
    requires
        0 <= first < line.len(),
        blank_before(line, first),
        !is_whitespace(line[first]),
        line[first] != PAUSE_COMMAND,
    ensures
        !is_pause_command(line),
{
    lemma_trim_start_skips(line, first);
    let tail = line.subrange(first, line.len() as int);
    lemma_trim_end_keeps(tail, 0);
    assert(seq![PAUSE_COMMAND][0] == PAUSE_COMMAND);
}

/// A line with a visible character after the command is no command.
proof fn lemma_second_visible(line: Seq<char>, at: int, second: int)
    requires
        lone_command_before(line, at, second),
        second < line.len(),
        !is_whitespace(line[second]),
    ensures
        !is_pause_command(line),
{
    lemma_trim_start_skips(line, at);
    let tail = line.subrange(at, line.len() as int);
    lemma_trim_end_keeps(tail, second - at);
}

/// A line that holds the command and whitespace alone is the command.
proof fn lemma_lone_command(line: Seq<char>, at: int)
    requires
        lone_command_before(line, at, line.len() as int),
    ensures
        is_pause_command(line),
{
    lemma_trim_start_skips(line, at);
    let tail = line.subrange(at, line.len() as int);
    lemma_trim_end_drops(tail, 1);
    assert(tail.subrange(0, 1) =~= seq![PAUSE_COMMAND]);
}

/// Whether `line` is the pause command: whether it holds, between any
/// amount of whitespace, [`PAUSE_COMMAND`] and nothing else.
pub fn recognizes(line: &str) -> (hit: bool)
    ensures
        hit == is_pause_command(line@),
{
    let mut seen: bool = false;
    for c in it: line.chars()
        invariant
            it.seq() == line@,
            !seen ==> blank_before(line@, it.index()),
            seen ==> exists|at: int| lone_command_before(line@, at, it.index()),
    {
        if !is_whitespace_char(c) {
            if seen {
                proof {
                    let at = choose|at: int| lone_command_before(line@, at, it.index());
                    lemma_second_visible(line@, at, it.index());
                }
                return false;
            }
            if c != PAUSE_COMMAND {
                proof {
                    lemma_other_first(line@, it.index());
                }
                return false;
            }
            assert(lone_command_before(line@, it.index(), it.index() + 1));
            seen = true;
        } else {
            proof {
                if seen {
                    let at = choose|at: int| lone_command_before(line@, at, it.index());
                    assert(lone_command_before(line@, at, it.index() + 1));
                }
            }
        }
    }
    proof {
        if seen {
            let at = choose|at: int| lone_command_before(line@, at, line@.len() as int);
            lemma_lone_command(line@, at);
        } else {
            lemma_blank_line(line@);
        }
    }
    seen
}

/// What reaches the listener from the input stream.
#[derive(Clone, Copy, Debug)]
pub enum InputEvent<'a> {
    /// A line of text, without its line ending.
    Line(&'a str),
    /// A read that failed.
    ReadFailed,
}

/// What the listener's driver has to do after an event. There is no action
/// that ends the listener: it goes on to the next read whatever happened.
#[derive(Clone, Copy, Debug, PartialEq, Eq, Structural)]
pub enum ListenerAction {
    /// Nothing: the line was no command.
    Ignore,
    /// The signal was flipped: tell the operator what it holds now.
    Acknowledge { now_paused: bool },
    /// Log that the read failed.
    ReportReadFailure,
}

/// Whether an event makes the listener flip the pause signal: only a line
/// that is the pause command does.
pub open spec fn flips_signal(event: InputEvent) -> bool {
    event matches InputEvent::Line(line) && is_pause_command(line@)
}

/// Takes one event from the input stream. A line that is the pause command
/// flips the signal, once, and is acknowledged with the value the signal
/// holds after the flip; any other line is ignored and leaves the signal
/// alone; a failed read is reported and leaves it alone too.
pub fn handle(event: InputEvent, signal: &PauseSignal) -> (action: ListenerAction)
    ensures
        flips_signal(event) ==> action is Acknowledge,
        event is Line && !flips_signal(event) ==> action == ListenerAction::Ignore,
        event is ReadFailed ==> action == ListenerAction::ReportReadFailure,
{
    match event {
        InputEvent::Line(line) => {
            if recognizes(line) {
                let now_paused = signal.toggle().now_paused;
                ListenerAction::Acknowledge { now_paused }
            } else {
                ListenerAction::Ignore
            }
        },
        InputEvent::ReadFailed => ListenerAction::ReportReadFailure,
    }
}

/// The line that tells the operator what the signal holds after a flip.
pub fn acknowledgment(now_paused: bool) -> (text: &'static str)
    ensures
        text@ == if now_paused {
            "Pause toggled to PAUSED"@
        } else {
            "Pause toggled to RUNNING"@
        },
{
    if now_paused {
        "Pause toggled to PAUSED"
    } else {
        "Pause toggled to RUNNING"
    }
}

} // verus!

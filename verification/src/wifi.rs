//! The Wi-Fi switch as the reversible toggle.
//!
//! The restriction that a focus phase engages is "no Wi-Fi". The two
//! machines state what they want of the toggle; this module says what that
//! means for the power of the Wi-Fi interface, and gives the command line
//! that sets it. Running the command belongs to the driver.

use vstd::prelude::*;
use crate::config::Configuration;
use crate::cycle::CycleAction;
use crate::cycle::CycleContext;
use crate::cycle_laws::lemma_run_push;
use crate::interrupt::InterruptAction;
use crate::phase::PhaseAction;

verus! {

/// The Wi-Fi power that an action of a run asks for, if it asks for any.
///
/// * The controller asserts `true` to engage the restriction and `false`
///   to release it: the power is the opposite of what it asserts.
/// * A phase asserts `true` to relax the restriction for the length of a
///   pause and `false` to restore it: the power is what it asserts.
pub open spec fn power_wanted(action: CycleAction) -> Option<bool> {
    match action {
        CycleAction::AssertToggle(engaged) => Some(!engaged),
        CycleAction::Phase(PhaseAction::AssertToggle(relaxed)) => Some(relaxed),
        _ => None,
    }
}

/// The Wi-Fi power that an action of the interrupt handler asks for, if it
/// asks for any. The handler speaks as the controller does.
pub open spec fn power_wanted_on_interrupt(action: InterruptAction) -> Option<bool> {
    match action {
        InterruptAction::AssertToggle(engaged) => Some(!engaged),
        _ => None,
    }
}

/// The word for a power state on the command line.
pub open spec fn power_word_text(on: bool) -> Seq<char> {
    if on {
        "on"@
    } else {
        "off"@
    }
}

/// The Wi-Fi power that an action of a run asks for, if it asks for any.
pub fn wifi_power(action: CycleAction) -> (power: Option<bool>)
    ensures
        power == power_wanted(action),
{
    match action {
        CycleAction::AssertToggle(engaged) => Some(!engaged),
        CycleAction::Phase(PhaseAction::AssertToggle(relaxed)) => Some(relaxed),
        _ => None,
    }
}

/// The Wi-Fi power that an action of the interrupt handler asks for, if it
/// asks for any.
pub fn wifi_power_on_interrupt(action: InterruptAction) -> (power: Option<bool>)
    ensures
        power == power_wanted_on_interrupt(action),
{
    match action {
        InterruptAction::AssertToggle(engaged) => Some(!engaged),
        _ => None,
    }
}

/// The word for a power state on the command line: `on` or `off`.
pub fn power_word(on: bool) -> (word: &'static str)
    ensures
        word@ == power_word_text(on),
{
    if on {
        "on"
    } else {
        "off"
    }
}

/// The command line that sets the Wi-Fi power: the program, then its
/// arguments.
pub fn power_command(on: bool) -> (command: Vec<&'static str>)
    ensures
        command@.len() == 4,
        command@[0]@ == "networksetup"@,
        command@[1]@ == "-setairportpower"@,
        command@[2]@ == "en0"@,
        command@[3]@ == power_word_text(on),
{
    let mut command: Vec<&'static str> = Vec::new();
    command.push("networksetup");
    command.push("-setairportpower");
    command.push("en0");
    command.push(power_word(on));
    command
}

/// The Wi-Fi power that a trace asked for last, if it asked for any.
pub open spec fn power_after(trace: Seq<CycleAction>) -> Option<bool>
    decreases trace.len(),
{
    if trace.len() == 0 {
        None
    } else {
        match power_wanted(trace.last()) {
            Some(on) => Some(on),
            None => power_after(trace.drop_last()),
        }
    }
}

/// Whether a run that stands here is to have Wi-Fi off: a focus phase is
/// under way and not suspended, or is just over.
pub open spec fn keeps_wifi_off(context: CycleContext) -> bool {
    ||| context.stage is Focus && !(context.phase.stage is Suspended)
    ||| context.stage is FocusDone
}

/// Wi-Fi is off while a focus phase counts, and at no other time. At every
/// point of a run that has taken a step, the power asked for last is "off"
/// exactly if a focus phase is under way and not suspended, or is over and
/// the break not yet begun. It is "on" during a pause of the focus phase,
/// throughout the break, paused or not, between cycles and when the run is
/// done.
pub proof fn lemma_wifi_is_off_exactly_while_focus_counts(
    config: Configuration,
    readings: Seq<bool>,
)
    ensures
        ({
            let (end, trace) = CycleContext::start(config).run(readings);
            &&& end.wf()
            &&& readings.len() == 0 ==> power_after(trace) is None
            &&& readings.len() > 0 ==> power_after(trace) == Some(!keeps_wifi_off(end))
        }),
    decreases readings.len(),
{
    let start = CycleContext::start(config);
    if readings.len() > 0 {
        let earlier = readings.drop_last();
        lemma_wifi_is_off_exactly_while_focus_counts(config, earlier);
        assert(readings =~= earlier.push(readings.last()));
        lemma_run_push(start, earlier, readings.last());
        let (before, trace) = start.run(earlier);
        if let Some(action) = before.step(readings.last()).1 {
            assert(trace.push(action).drop_last() =~= trace);
        }
    }
}

} // verus!

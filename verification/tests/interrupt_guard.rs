use focus_timer::cycle::REST_STATE;
use focus_timer::interrupt::GuardStage;
use focus_timer::interrupt::InterruptAction;
use focus_timer::interrupt::InterruptGuard;

#[test]
fn new_guard_is_armed() {
    assert_eq!(InterruptGuard::new().stage(), GuardStage::Armed);
}

#[test]
fn guard_rests_then_reports_then_terminates() {
    let mut guard = InterruptGuard::new();
    assert_eq!(guard.step(), Some(InterruptAction::AssertToggle(false)));
    assert_eq!(guard.stage(), GuardStage::Settled);
    assert_eq!(guard.step(), Some(InterruptAction::EmitDiagnostic));
    assert_eq!(guard.stage(), GuardStage::Reported);
    assert_eq!(guard.step(), Some(InterruptAction::Terminate));
    assert_eq!(guard.stage(), GuardStage::Terminated);
}

#[test]
fn guard_asserts_rest_exactly_once() {
    let mut guard = InterruptGuard::new();
    let mut trace: Vec<InterruptAction> = Vec::new();
    for _ in 0..25 {
        if let Some(action) = guard.step() {
            trace.push(action);
        }
    }
    assert_eq!(
        trace,
        vec![
            InterruptAction::AssertToggle(REST_STATE),
            InterruptAction::EmitDiagnostic,
            InterruptAction::Terminate,
        ]
    );
    assert_eq!(guard.step(), None);
    assert_eq!(guard.stage(), GuardStage::Terminated);
}

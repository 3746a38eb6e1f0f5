use camera_app::power::{sleep_transition, SleepTransition};

#[test]
fn sleep_signal_transitions() {
    assert_eq!(sleep_transition(true), SleepTransition::Suspend);
    assert_eq!(sleep_transition(false), SleepTransition::Resume);
    assert_eq!(
        sleep_transition(true).notice(),
        "System is preparing for sleep. Suspending camera..."
    );
    assert_eq!(sleep_transition(false).notice(), "System resumed from sleep. Waking camera...");
}

use timetrack::input_watcher::{ActivityEvent, ActivityState, InputMonitor};

#[test]
fn initial_state_is_active_with_no_input() {
    let m = InputMonitor::new();
    let s = m.get_state();
    assert!(!s.is_idle);
    assert_eq!(s.time_since_last_activity(1000), None);
    assert!(!s.is_recently_active(1000, 1000));
}

#[test]
fn keyboard_event_while_active_emits_single_event() {
    let mut m = InputMonitor::new();
    let events = m.handle_keyboard_event(1000);
    assert_eq!(events, vec![ActivityEvent::KeyboardActivity { time_stamp: 1000 }]);
    assert!(!m.get_state().is_idle);
}

#[test]
fn idle_fires_exactly_once() {
    let mut m = InputMonitor::new();
    m.handle_keyboard_event(1000);
    // before the threshold: nothing
    assert_eq!(m.check_idle(15000), None);
    // at/after the threshold: exactly one IdleDetected with the elapsed time
    assert_eq!(m.check_idle(21500), Some(ActivityEvent::IdleDetected { duration: 20500 }));
    assert!(m.get_state().is_idle);
    // later ticks with no input in between: nothing more
    assert_eq!(m.check_idle(30000), None);
    assert_eq!(m.check_idle(60000), None);
}

#[test]
fn no_idle_without_any_recorded_input() {
    let mut m = InputMonitor::new();
    assert_eq!(m.check_idle(1_000_000), None);
    assert!(!m.get_state().is_idle);
}

#[test]
fn resume_precedes_triggering_activity_event() {
    let mut m = InputMonitor::new();
    m.handle_keyboard_event(1000);
    assert!(m.check_idle(25000).is_some());
    // the next input emits ActivityResumed strictly before the activity event
    let events = m.handle_mouse_event(26000);
    assert_eq!(
        events,
        vec![
            ActivityEvent::ActivityResumed,
            ActivityEvent::MouseActivity { time_stamp: 26000 },
        ]
    );
    assert!(!m.get_state().is_idle);
    // and the one after that emits no further resumption
    let events = m.handle_keyboard_event(27000);
    assert_eq!(events, vec![ActivityEvent::KeyboardActivity { time_stamp: 27000 }]);
}

#[test]
fn idle_period_can_recur_after_new_input() {
    let mut m = InputMonitor::new();
    m.handle_keyboard_event(0);
    assert!(m.check_idle(20000).is_some());
    m.handle_keyboard_event(30000);
    assert_eq!(m.check_idle(40000), None);
    assert_eq!(m.check_idle(50000), Some(ActivityEvent::IdleDetected { duration: 20000 }));
}

#[test]
fn recent_activity_queries() {
    let mut m = InputMonitor::new();
    m.handle_mouse_event(5000);
    let s = m.get_state();
    assert!(s.is_recently_active(1000, 5500));
    assert!(!s.is_recently_active(1000, 7000));
    assert_eq!(s.time_since_last_activity(8000), Some(3000));
}

#[test]
fn fresh_activity_state_reports_nothing() {
    let s = ActivityState::new();
    assert!(!s.is_idle);
    assert_eq!(s.time_since_last_activity(42), None);
}

use gestures::exec_handler::Scheduler;

#[test]
fn schedule_supersedes_pending_action() {
    // Two delayed schedules: neither dispatches by itself, and only the
    // second template can ever fire.
    let mut s = Scheduler::new();
    assert_eq!(s.schedule_command(100, "first".to_string()), None);
    assert_eq!(s.schedule_command(200, "second".to_string()), None);
    assert_eq!(s.exec_delayed_command(), Some("second".to_string()));
    // The slot is empty now: nothing else can fire.
    assert_eq!(s.exec_delayed_command(), None);
}

#[test]
fn cancel_reports_whether_something_was_pending() {
    let mut s = Scheduler::new();
    assert!(!s.cancel_delay());
    assert_eq!(s.schedule_command(100, "cmd".to_string()), None);
    assert!(s.cancel_delay());
    // The slot is always empty afterwards.
    assert!(!s.cancel_delay());
    assert_eq!(s.exec_delayed_command(), None);
}

#[test]
fn execute_now_with_empty_slot_dispatches_nothing() {
    let mut s = Scheduler::new();
    assert_eq!(s.exec_delayed_command(), None);
}

#[test]
fn zero_delay_dispatches_immediately_without_filling_the_slot() {
    let mut s = Scheduler::new();
    assert_eq!(s.schedule_command(0, "now".to_string()), Some("now".to_string()));
    assert!(!s.cancel_delay());
}

#[test]
fn zero_delay_with_empty_template_dispatches_nothing() {
    let mut s = Scheduler::new();
    assert_eq!(s.schedule_command(0, String::new()), None);
}

#[test]
fn clear_empties_the_slot_silently() {
    let mut s = Scheduler::new();
    assert_eq!(s.schedule_command(300, "late".to_string()), None);
    s.clear_delayed_command();
    assert_eq!(s.exec_delayed_command(), None);
}

#[test]
fn delayed_schedule_with_empty_template_still_occupies_the_slot() {
    let mut s = Scheduler::new();
    assert_eq!(s.schedule_command(250, String::new()), None);
    // Firing it dispatches nothing, but cancel would have reported it.
    assert_eq!(s.exec_delayed_command(), None);
    assert!(!s.cancel_delay());
}

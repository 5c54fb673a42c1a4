use gestures::event_handler::{EventHandler, TimerOp};
use gestures::gestures::{ActiveGesture, Binding, BindingStore, InputEvent, PinchDir, SwipeDir};

fn swipe_binding(
    fingers: u32,
    direction: SwipeDir,
    start: Option<&str>,
    update: Option<&str>,
    end: Option<&str>,
    delay: Option<u32>,
    include_cancelled: Option<bool>,
) -> Binding {
    Binding::Swipe {
        fingers,
        direction,
        start: start.map(|s| s.to_string()),
        update: update.map(|s| s.to_string()),
        end: end.map(|s| s.to_string()),
        allow_continue_delay: delay,
        include_cancelled,
    }
}

fn pinch_binding(
    fingers: u32,
    direction: PinchDir,
    start: Option<&str>,
    update: Option<&str>,
    end: Option<&str>,
) -> Binding {
    Binding::Pinch {
        fingers,
        direction,
        start: start.map(|s| s.to_string()),
        update: update.map(|s| s.to_string()),
        end: end.map(|s| s.to_string()),
    }
}

fn handler(gestures: Vec<Binding>) -> EventHandler {
    EventHandler::new(BindingStore { gestures })
}

#[test]
fn swipe_begin_with_no_pending_action_fires_start() {
    // A three-finger any-direction binding fires its start command at once.
    let mut h = handler(vec![swipe_binding(
        3,
        SwipeDir::Any,
        Some("start-cmd"),
        None,
        None,
        None,
        None,
    )]);
    let eff = h.handle_event(&InputEvent::SwipeBegin { fingers: 3 });
    assert_eq!(eff.commands, vec!["start-cmd".to_string()]);
    assert_eq!(eff.timer, TimerOp::Keep);
}

#[test]
fn swipe_begin_with_wrong_finger_count_fires_nothing() {
    let mut h = handler(vec![swipe_binding(
        3,
        SwipeDir::Any,
        Some("start-cmd"),
        None,
        None,
        None,
        None,
    )]);
    let eff = h.handle_event(&InputEvent::SwipeBegin { fingers: 4 });
    assert!(eff.commands.is_empty());
}

#[test]
fn delayed_swipe_end_fires_only_when_the_delay_elapses() {
    // No dispatch happens at the end itself; the timer expiry fires it.
    let mut h = handler(vec![swipe_binding(
        3,
        SwipeDir::Any,
        None,
        None,
        Some("end-cmd"),
        Some(500),
        None,
    )]);
    h.handle_event(&InputEvent::SwipeBegin { fingers: 3 });
    h.handle_event(&InputEvent::SwipeUpdate { dx: 9000, dy: 0 });
    let eff = h.handle_event(&InputEvent::SwipeEnd { cancelled: false });
    assert!(eff.commands.is_empty());
    assert_eq!(eff.timer, TimerOp::Arm { delay: 500 });
    assert_eq!(h.timer_expired(), Some("end-cmd".to_string()));
    // Expiry empties the slot: a later non-gesture event dispatches nothing.
    let eff = h.handle_event(&InputEvent::Other);
    assert!(eff.commands.is_empty());
}

#[test]
fn new_swipe_begin_cancels_the_pending_end_action() {
    let mut h = handler(vec![swipe_binding(
        3,
        SwipeDir::Any,
        Some("start-cmd"),
        None,
        Some("end-cmd"),
        Some(500),
        None,
    )]);
    // First stroke: the start fires, the end is delayed.
    let eff = h.handle_event(&InputEvent::SwipeBegin { fingers: 3 });
    assert_eq!(eff.commands, vec!["start-cmd".to_string()]);
    h.handle_event(&InputEvent::SwipeUpdate { dx: 9000, dy: 0 });
    let eff = h.handle_event(&InputEvent::SwipeEnd { cancelled: false });
    assert_eq!(eff.timer, TimerOp::Arm { delay: 500 });
    // Second stroke: the stale end action is cancelled, never dispatched,
    // and the fresh start is suppressed as a continuation.
    let eff = h.handle_event(&InputEvent::SwipeBegin { fingers: 3 });
    assert!(eff.commands.is_empty());
    assert_eq!(eff.timer, TimerOp::Disarm);
    // Nothing is left pending.
    assert_eq!(h.timer_expired(), None);
}

#[test]
fn non_gesture_event_fires_the_pending_end_action_early() {
    let mut h = handler(vec![swipe_binding(
        3,
        SwipeDir::Any,
        None,
        None,
        Some("end-cmd"),
        Some(500),
        None,
    )]);
    h.handle_event(&InputEvent::SwipeBegin { fingers: 3 });
    let eff = h.handle_event(&InputEvent::SwipeEnd { cancelled: false });
    assert!(eff.commands.is_empty());
    let eff = h.handle_event(&InputEvent::Other);
    assert_eq!(eff.commands, vec!["end-cmd".to_string()]);
    assert_eq!(eff.timer, TimerOp::Disarm);
    // The flag is cleared: the next non-gesture event does nothing.
    let eff = h.handle_event(&InputEvent::Other);
    assert!(eff.commands.is_empty());
    assert_eq!(eff.timer, TimerOp::Keep);
}

#[test]
fn zero_delay_swipe_end_dispatches_immediately() {
    let mut h = handler(vec![swipe_binding(
        2,
        SwipeDir::Any,
        None,
        None,
        Some("end-now"),
        None,
        None,
    )]);
    h.handle_event(&InputEvent::SwipeBegin { fingers: 2 });
    let eff = h.handle_event(&InputEvent::SwipeEnd { cancelled: false });
    assert_eq!(eff.commands, vec!["end-now".to_string()]);
    assert_eq!(eff.timer, TimerOp::Keep);
    assert_eq!(h.timer_expired(), None);
}

#[test]
fn cancelled_swipe_end_respects_include_cancelled() {
    let mut h = handler(vec![
        swipe_binding(2, SwipeDir::Any, None, None, Some("skipped"), None, Some(false)),
        swipe_binding(2, SwipeDir::Any, None, None, Some("kept"), None, Some(true)),
    ]);
    h.handle_event(&InputEvent::SwipeBegin { fingers: 2 });
    let eff = h.handle_event(&InputEvent::SwipeEnd { cancelled: true });
    assert_eq!(eff.commands, vec!["kept".to_string()]);
}

#[test]
fn swipe_updates_keep_the_finger_count_and_reclassify_direction() {
    let mut h = handler(vec![]);
    h.handle_event(&InputEvent::SwipeBegin { fingers: 3 });
    h.handle_event(&InputEvent::SwipeUpdate { dx: 9000, dy: 0 });
    assert_eq!(h.event, ActiveGesture::Swipe { fingers: 3, direction: SwipeDir::Right });
    h.handle_event(&InputEvent::SwipeUpdate { dx: 0, dy: -9000 });
    assert_eq!(h.event, ActiveGesture::Swipe { fingers: 3, direction: SwipeDir::Up });
    h.handle_event(&InputEvent::SwipeUpdate { dx: -100, dy: 50 });
    assert_eq!(h.event, ActiveGesture::Swipe { fingers: 3, direction: SwipeDir::Left });
}

#[test]
fn swipe_update_dispatches_with_live_deltas() {
    let mut h = handler(vec![swipe_binding(
        2,
        SwipeDir::Right,
        None,
        Some("echo $delta_x $delta_y"),
        None,
        None,
        None,
    )]);
    h.handle_event(&InputEvent::SwipeBegin { fingers: 2 });
    let eff = h.handle_event(&InputEvent::SwipeUpdate { dx: 2500, dy: -1000 });
    assert_eq!(eff.commands, vec!["echo 2.5 -1".to_string()]);
}

#[test]
fn pinch_update_classifies_in_and_matches_any_but_not_out() {
    // scale 0.5 with a two-degree rotation is below the rotation threshold,
    // so the direction is In: the Out binding stays silent, the Any binding
    // fires with the live scale substituted.
    let mut h = handler(vec![
        pinch_binding(2, PinchDir::Out, None, Some("wrong-way"), None),
        pinch_binding(2, PinchDir::Any, None, Some("zoom $scale"), None),
    ]);
    h.handle_event(&InputEvent::PinchBegin { fingers: 2 });
    let eff = h.handle_event(&InputEvent::PinchUpdate { scale: 500, angle_delta: 2000 });
    assert_eq!(eff.commands, vec!["zoom 0.5".to_string()]);
    assert_eq!(h.event, ActiveGesture::Pinch { fingers: 2, direction: PinchDir::In });
}

#[test]
fn pinch_begin_fires_any_direction_start_bindings() {
    let mut h = handler(vec![
        pinch_binding(3, PinchDir::Any, Some("pinch-start"), None, None),
        pinch_binding(3, PinchDir::In, Some("not-yet"), None, None),
    ]);
    let eff = h.handle_event(&InputEvent::PinchBegin { fingers: 3 });
    assert_eq!(eff.commands, vec!["pinch-start".to_string()]);
}

#[test]
fn pinch_end_dispatches_for_the_classified_direction() {
    let mut h = handler(vec![pinch_binding(2, PinchDir::In, None, None, Some("pinched-in"))]);
    h.handle_event(&InputEvent::PinchBegin { fingers: 2 });
    h.handle_event(&InputEvent::PinchUpdate { scale: 400, angle_delta: 0 });
    let eff = h.handle_event(&InputEvent::PinchEnd { cancelled: false });
    assert_eq!(eff.commands, vec!["pinched-in".to_string()]);
}

#[test]
fn hold_end_renders_the_numeric_default_for_motion_placeholders() {
    // Hold has no motion context, so the placeholder renders as zero.
    let mut h = handler(vec![Binding::Hold {
        fingers: 2,
        action: Some("notify-send $delta_x".to_string()),
    }]);
    h.handle_event(&InputEvent::HoldBegin { fingers: 2 });
    let eff = h.handle_event(&InputEvent::HoldEnd { cancelled: false });
    assert_eq!(eff.commands, vec!["notify-send 0".to_string()]);
}

#[test]
fn hold_binding_without_action_dispatches_nothing() {
    let mut h = handler(vec![Binding::Hold { fingers: 2, action: None }]);
    h.handle_event(&InputEvent::HoldBegin { fingers: 2 });
    let eff = h.handle_event(&InputEvent::HoldEnd { cancelled: false });
    assert!(eff.commands.is_empty());
}

#[test]
fn gesture_end_without_matching_begin_dispatches_nothing() {
    let mut h = handler(vec![Binding::Hold { fingers: 2, action: Some("boom".to_string()) }]);
    // No hold is active: the end event finds a different gesture kind.
    h.handle_event(&InputEvent::SwipeBegin { fingers: 2 });
    let eff = h.handle_event(&InputEvent::HoldEnd { cancelled: false });
    assert!(eff.commands.is_empty());
}

#[test]
fn later_schedule_supersedes_earlier_one_within_a_swipe_end() {
    // Two matching delayed bindings: only the second survives in the slot.
    let mut h = handler(vec![
        swipe_binding(3, SwipeDir::Any, None, None, Some("first"), Some(300), None),
        swipe_binding(3, SwipeDir::Any, None, None, Some("second"), Some(700), None),
    ]);
    h.handle_event(&InputEvent::SwipeBegin { fingers: 3 });
    let eff = h.handle_event(&InputEvent::SwipeEnd { cancelled: false });
    assert!(eff.commands.is_empty());
    assert_eq!(eff.timer, TimerOp::Arm { delay: 700 });
    assert_eq!(h.timer_expired(), Some("second".to_string()));
    assert_eq!(h.timer_expired(), None);
}

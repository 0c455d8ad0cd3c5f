use device_watch::capture::{process_events, process_raw_event, TimedRawEvent};
use device_watch::event::{classify, DeviceEvent, DeviceEventKind, DeviceEventValue, RawEvent};
use device_watch::listener::{ListenerGuard, StartOutcome};
use device_watch::throttle::{ThrottleFilter, DEFAULT_THROTTLE_MS};

fn move_at(x: i64, y: i64, at_ms: u64) -> TimedRawEvent {
    TimedRawEvent { raw: RawEvent::MouseMove { x, y }, at_ms }
}

#[test]
fn classify_mouse_press() {
    let out = classify(RawEvent::ButtonPress("Left".to_string()));
    assert_eq!(
        out,
        Some(DeviceEvent {
            kind: DeviceEventKind::MousePress,
            value: DeviceEventValue::Button("Left".to_string()),
        })
    );
}

#[test]
fn classify_mouse_release() {
    let out = classify(RawEvent::ButtonRelease("Right".to_string()));
    assert_eq!(
        out,
        Some(DeviceEvent {
            kind: DeviceEventKind::MouseRelease,
            value: DeviceEventValue::Button("Right".to_string()),
        })
    );
}

#[test]
fn classify_mouse_move() {
    let out = classify(RawEvent::MouseMove { x: -12, y: 40 });
    assert_eq!(
        out,
        Some(DeviceEvent {
            kind: DeviceEventKind::MouseMove,
            value: DeviceEventValue::Position { x: -12, y: 40 },
        })
    );
}

#[test]
fn classify_key_press() {
    let out = classify(RawEvent::KeyPress("KeyA".to_string()));
    assert_eq!(
        out,
        Some(DeviceEvent {
            kind: DeviceEventKind::KeyboardPress,
            value: DeviceEventValue::Key("KeyA".to_string()),
        })
    );
}

#[test]
fn classify_key_release() {
    let out = classify(RawEvent::KeyRelease("Escape".to_string()));
    assert_eq!(
        out,
        Some(DeviceEvent {
            kind: DeviceEventKind::KeyboardRelease,
            value: DeviceEventValue::Key("Escape".to_string()),
        })
    );
}

#[test]
fn classify_unhandled_kind_is_dropped() {
    assert_eq!(classify(RawEvent::Other), None);
}

#[test]
fn start_twice_spawns_once() {
    let mut guard = ListenerGuard::new();
    assert!(!guard.is_listening());
    assert_eq!(guard.start_listening(), StartOutcome::SpawnCaptureLoop);
    assert!(guard.is_listening());
    assert_eq!(guard.start_listening(), StartOutcome::AlreadyListening);
    assert!(guard.is_listening());
}

#[test]
fn recovery_after_hook_failure() {
    let mut guard = ListenerGuard::new();
    assert_eq!(guard.start_listening(), StartOutcome::SpawnCaptureLoop);
    guard.on_hook_failure();
    assert!(!guard.is_listening());
    assert_eq!(guard.start_listening(), StartOutcome::SpawnCaptureLoop);
    assert!(guard.is_listening());
}

#[test]
fn throttle_two_of_four_moves() {
    // Moves at t0, t0 + 10, t0 + 20, t0 + 35 against a 30 ms threshold, with
    // the first move due: only the first and the last survive, and the
    // suppressed positions are not delivered.
    let t0: u64 = 30;
    let mut filter = ThrottleFilter::new(0, DEFAULT_THROTTLE_MS);
    let out = process_events(
        &mut filter,
        vec![
            move_at(1, 1, t0),
            move_at(2, 2, t0 + 10),
            move_at(3, 3, t0 + 20),
            move_at(4, 4, t0 + 35),
        ],
    );
    assert_eq!(
        out,
        vec![
            DeviceEvent {
                kind: DeviceEventKind::MouseMove,
                value: DeviceEventValue::Position { x: 1, y: 1 },
            },
            DeviceEvent {
                kind: DeviceEventKind::MouseMove,
                value: DeviceEventValue::Position { x: 4, y: 4 },
            },
        ]
    );
}

#[test]
fn throttle_boundary_is_inclusive() {
    let mut filter = ThrottleFilter::new(100, 30);
    // One millisecond short of the threshold: dropped, state unchanged.
    assert!(!filter.accept(129));
    // Exactly at last_accepted + threshold: accepted.
    assert!(filter.accept(130));
    // The accepted move restarts the window.
    assert!(!filter.accept(159));
    assert!(filter.accept(160));
}

#[test]
fn throttle_first_event_of_each_window_passes() {
    let mut filter = ThrottleFilter::new(0, 30);
    assert!(filter.accept(45));
    // Dropped events do not move the window: 74 is measured from 45.
    assert!(!filter.accept(74));
    assert!(filter.accept(75));
}

#[test]
fn order_is_preserved_through_throttling() {
    // Press(A), Move(1,1), Move(2,2) five ms later, Release(A), threshold
    // 30 ms: the dispatched sequence is Press(A), Move(1,1), Release(A) —
    // the second move is dropped, not reordered.
    let mut filter = ThrottleFilter::new(0, 30);
    let out = process_events(
        &mut filter,
        vec![
            TimedRawEvent { raw: RawEvent::ButtonPress("A".to_string()), at_ms: 40 },
            move_at(1, 1, 40),
            move_at(2, 2, 45),
            TimedRawEvent { raw: RawEvent::ButtonRelease("A".to_string()), at_ms: 45 },
        ],
    );
    assert_eq!(
        out,
        vec![
            DeviceEvent {
                kind: DeviceEventKind::MousePress,
                value: DeviceEventValue::Button("A".to_string()),
            },
            DeviceEvent {
                kind: DeviceEventKind::MouseMove,
                value: DeviceEventValue::Position { x: 1, y: 1 },
            },
            DeviceEvent {
                kind: DeviceEventKind::MouseRelease,
                value: DeviceEventValue::Button("A".to_string()),
            },
        ]
    );
}

#[test]
fn non_move_events_pass_unconditionally_and_leave_filter_alone() {
    let mut filter = ThrottleFilter::new(0, 30);
    let out = process_raw_event(
        &mut filter,
        TimedRawEvent { raw: RawEvent::KeyPress("Space".to_string()), at_ms: 5 },
    );
    assert_eq!(
        out,
        Some(DeviceEvent {
            kind: DeviceEventKind::KeyboardPress,
            value: DeviceEventValue::Key("Space".to_string()),
        })
    );
    assert_eq!(filter, ThrottleFilter::new(0, 30));
}

#[test]
fn unhandled_raw_kinds_produce_no_events() {
    let mut filter = ThrottleFilter::new(0, 30);
    let out = process_events(
        &mut filter,
        vec![
            TimedRawEvent { raw: RawEvent::Other, at_ms: 100 },
            TimedRawEvent { raw: RawEvent::Other, at_ms: 200 },
        ],
    );
    assert_eq!(out, Vec::<DeviceEvent>::new());
    assert_eq!(filter, ThrottleFilter::new(0, 30));
}

#[test]
fn move_within_threshold_of_loop_start_is_dropped() {
    // The filter starts at the loop-start time, so a move arriving sooner
    // than one threshold after start is dropped.
    let mut filter = ThrottleFilter::new(0, 30);
    let out = process_events(&mut filter, vec![move_at(7, 8, 10)]);
    assert_eq!(out, Vec::<DeviceEvent>::new());
}

use rinertia::x11_pointer::{ConnectStep, PointerBlockDetector};

#[test]
fn requires_three_unchanged_positions() {
    let mut detector = PointerBlockDetector::new();
    detector.last_position = Some((100, 200));

    assert!(!detector.observe_position((100, 200)));
    assert!(!detector.observe_position((100, 200)));
    assert!(detector.observe_position((100, 200)));
}

#[test]
fn cursor_movement_resets_blocked_count() {
    let mut detector = PointerBlockDetector::new();
    detector.last_position = Some((100, 200));

    assert!(!detector.observe_position((100, 200)));
    assert!(!detector.observe_position((101, 200)));
    assert!(!detector.observe_position((101, 200)));
    assert!(!detector.observe_position((101, 200)));
    assert!(detector.observe_position((101, 200)));
}

#[test]
fn vertical_movement_counts_too() {
    let mut detector = PointerBlockDetector::new();
    detector.last_position = Some((100, 200));
    detector.observe_position((100, 200));
    detector.observe_position((100, 200));
    assert!(!detector.observe_position((100, 201)));
    assert_eq!(detector.blocked_samples, 0);
}

#[test]
fn long_blocks_do_not_overflow() {
    let mut detector = PointerBlockDetector::new();
    for _ in 0..1000 {
        detector.observe_position((5, 5));
    }
    assert_eq!(detector.blocked_samples, 255);
    assert!(detector.observe_position((5, 5)));
}

#[test]
fn nothing_is_blocked_without_motion() {
    let mut detector = PointerBlockDetector::new();
    detector.reset(Some((1, 1)));
    for _ in 0..10 {
        assert!(!detector.wants_position());
        assert!(!detector.pointer_is_blocked(Some((1, 1))));
    }
    detector.record_emission(0, 0);
    assert!(!detector.wants_position());
    detector.record_emission(0, -1);
    assert!(detector.wants_position());
}

#[test]
fn emitted_motion_without_movement_blocks() {
    let mut detector = PointerBlockDetector::new();
    detector.reset(Some((1, 1)));
    for expected in [false, false, true] {
        detector.record_emission(3, 0);
        assert_eq!(detector.pointer_is_blocked(Some((1, 1))), expected);
        assert!(!detector.wants_position());
    }
}

#[test]
fn unknown_position_starts_over() {
    let mut detector = PointerBlockDetector::new();
    detector.reset(Some((1, 1)));
    detector.record_emission(3, 0);
    detector.pointer_is_blocked(Some((1, 1)));
    detector.record_emission(3, 0);
    assert!(!detector.pointer_is_blocked(None));
    assert_eq!(detector.last_position, None);
    assert_eq!(detector.blocked_samples, 0);
}

#[test]
fn connection_is_not_attempted_too_often() {
    let mut detector = PointerBlockDetector::new();
    assert_eq!(detector.ensure_connected(5), ConnectStep::Attempt);
    detector.connect_finished(false);
    assert_eq!(detector.ensure_connected(2_000_000_004), ConnectStep::Wait);
    assert_eq!(detector.ensure_connected(2_000_000_005), ConnectStep::Attempt);
    detector.connect_finished(true);
    assert_eq!(detector.ensure_connected(2_000_000_006), ConnectStep::Connected);
    detector.query_failed();
    assert_eq!(detector.ensure_connected(2_000_000_007), ConnectStep::Wait);
}

use rinertia::decision_log::{
    decision_context, entry, local_timestamp, release_velocity_context, Decision, LocalTime,
    RenderedSummary, RenderedTrim,
};
use rinertia::double::Double;
use rinertia::input::Button;
use rinertia::motion::{MotionRing, TailSpeeds};
use rinertia::text::{push_decimal, push_padded, push_signed};

fn d(x: f64) -> Double {
    Double { bits: x.to_bits() }
}

fn time(year: i32) -> LocalTime {
    LocalTime { year, month: 2, day: 9, hour: 4, minute: 5, second: 60 }
}

#[test]
fn numbers_in_decimal() {
    for n in [0, 7, 10, 99, 100, 1234567890, u64::MAX] {
        let mut out = String::from("n=");
        push_decimal(&mut out, n);
        assert_eq!(out, format!("n={}", n));
    }
    for n in [0, -1, 42, i64::MIN, i64::MAX] {
        let mut out = String::new();
        push_signed(&mut out, n);
        assert_eq!(out, format!("{}", n));
    }
}

#[test]
fn numbers_are_padded() {
    for n in [0, 5, 12, 123, 12345, -1, -123, -1234] {
        let mut out = String::new();
        push_padded(&mut out, n, 4);
        assert_eq!(out, format!("{:04}", n));
    }
}

#[test]
fn timestamps() {
    assert_eq!(local_timestamp(Some(time(124)), 0, 7), "2024-03-09 04:05:60.007");
    assert_eq!(local_timestamp(Some(time(-1905)), 0, 123), "-005-03-09 04:05:60.123");
    assert_eq!(local_timestamp(None, 1_700_000_000, 42), "unix_ms=1700000000042");
}

#[test]
fn entries_end_their_lines() {
    assert_eq!(entry("NOW", "what happened"), "NOW what happened\n");
}

#[test]
fn decisions_in_words() {
    let text = |decision: Decision| decision.text("12.5");
    assert_eq!(
        text(Decision::RetouchTooSoon { remaining_us: 5 }),
        "RETOUCH_IGNORED source=BTN_TOUCH reason=arm_delay remaining_us=5"
    );
    assert_eq!(
        text(Decision::RetouchPending { late_by_us: 6, confirm_us: 56000 }),
        "RETOUCH_PENDING source=BTN_TOUCH reason=finger_down armed_late_by_us=6 confirm_us=56000"
    );
    assert_eq!(
        text(Decision::RetouchTooShort { duration_us: 7, confirm_us: 56000 }),
        "RETOUCH_IGNORED source=BTN_TOUCH reason=short_touch duration_us=7 confirm_us=56000"
    );
    assert_eq!(
        text(Decision::RetouchReleased { duration_us: 8, confirm_us: 56000 }),
        "RETOUCH_RELEASE reason=after_stop duration_us=8 confirm_us=56000"
    );
    assert_eq!(
        text(Decision::RetouchStopOnRelease { duration_us: 9, confirm_us: 56000 }),
        "RETOUCH_STOP reason=confirmed_on_release duration_us=9 confirm_us=56000"
    );
    assert_eq!(
        text(Decision::RetouchStopByTimer { confirm_us: 56000 }),
        "RETOUCH_STOP reason=confirmed_by_timer duration_us=56000 confirm_us=56000"
    );
    assert_eq!(
        text(Decision::RetouchContinue { raw_dx: -3, raw_dy: 4 }),
        "RETOUCH_CONTINUE reason=motion_after_stop raw_dx=-3 raw_dy=4"
    );
    assert_eq!(
        text(Decision::RejectClick {
            click_seen: true,
            external_click_seen: false,
            touch_us: 1,
            ring_samples: 2,
            total_samples: 3,
        }),
        "REJECT reason=click_seen click_seen=true external_click_seen=false touch_us=1 \
         ring_samples=2 total_samples=3 total_dist=12.5"
    );
    assert_eq!(
        text(Decision::ButtonClick { button: Button::Left }),
        "BUTTON_CLICK key=BTN_LEFT action=stop_inhibit"
    );
    assert_eq!(
        text(Decision::ButtonClick { button: Button::Right }),
        "BUTTON_CLICK key=BTN_RIGHT action=stop_inhibit"
    );
    assert_eq!(
        text(Decision::ButtonClick { button: Button::Middle }),
        "BUTTON_CLICK key=BTN_MIDDLE action=stop_inhibit"
    );
    assert_eq!(format!("{:?}", evdev::Key::BTN_MIDDLE), "BTN_MIDDLE");
}

#[test]
fn contexts_in_words() {
    let mut ring = MotionRing::new();
    ring.push(0, 0, 0);
    assert_eq!(
        decision_context(&ring, 99, "0.0", None),
        "touch_us=99 ring_samples=1 total_samples=1 total_dist=0.0"
    );
    ring.push(-3, 4, 250);
    let summary = ring.motion_summary().unwrap();
    let recent = RenderedSummary { summary: &summary, distance: "5.0", path_distance: "5.1" };
    assert_eq!(
        decision_context(&ring, 99, "5.0", Some(recent)),
        "touch_us=99 ring_samples=2 total_samples=2 total_dist=5.0 recent_samples=2 \
         motion_us=250 dx=-3 dy=4 recent_dist=5.0 recent_path=5.1"
    );
}

#[test]
fn release_contexts_in_words() {
    let trim = || RenderedTrim { tail_speed: "1.0", previous_speed: "2.0", trim_threshold: "3.0" };
    let mut ring = MotionRing::new();
    for i in 0..20 {
        ring.push(i, -i, 1000 * i as u64);
    }
    let slow = TailSpeeds {
        tail_speed: d(1.0),
        previous_speed: d(500.0),
        scaled_previous_speed: d(225.0),
        doubled_min_velocity: d(200.0),
    };
    let release = ring.compute_release_velocity(19_000, 150_000, d(100.0), Some(slow)).unwrap();
    assert_eq!(
        release_velocity_context(&release, "9.9", "9.8", trim()),
        "velocity_samples=8 velocity_us=7000 velocity_dx=7 velocity_dy=-7 velocity_dist=9.9 \
         velocity_path=9.8 velocity_age_us=10000 lift_tail_trimmed=true tail_samples=10 \
         tail_speed=1.0 previous_speed=2.0 trim_threshold=3.0"
    );
    let fast = TailSpeeds { tail_speed: d(400.0), ..slow };
    let release = ring.compute_release_velocity(19_000, 150_000, d(100.0), Some(fast)).unwrap();
    assert_eq!(
        release_velocity_context(&release, "9.9", "9.8", trim()),
        "velocity_samples=8 velocity_us=7000 velocity_dx=7 velocity_dy=-7 velocity_dist=9.9 \
         velocity_path=9.8 velocity_age_us=0 lift_tail_trimmed=false"
    );
}

use rinertia::decision_log::Decision;
use rinertia::double::Double;
use rinertia::input::{
    classify, Button, EventClass, ABS_MT_POSITION_X, ABS_X, ABS_Y, BTN_LEFT, BTN_MIDDLE, BTN_RIGHT,
    BTN_TOOL_DOUBLETAP, BTN_TOOL_FINGER, BTN_TOOL_QUADTAP, BTN_TOOL_QUINTTAP, BTN_TOOL_TRIPLETAP,
    BTN_TOUCH, EV_ABS, EV_KEY,
};
use rinertia::messages::{EngineStatus, MomentumMessage};
use rinertia::motion::TailSpeeds;
use rinertia::touchpad::{
    button_event, lift_line, maybe_start_pointer, retouch_is_stopped, retouch_timer,
    timestamp_to_us, GrabAction, GrabReason, LiftNumbers, Listener, ListenerAction, ReleaseSpeed, RenderedLift,
    Shared, StartDecision, TouchpadEvent,
};

const QUIET: Shared = Shared { stopped_token: 0, external_click: false };

fn d(x: f64) -> Double {
    Double { bits: x.to_bits() }
}

fn event(event_type: u16, code: u16, value: i32, now_us: u64) -> TouchpadEvent {
    TouchpadEvent { event_type, code, value, now_us }
}

fn down(now_us: u64) -> TouchpadEvent {
    event(EV_KEY, BTN_TOUCH, 1, now_us)
}

fn up(now_us: u64) -> TouchpadEvent {
    event(EV_KEY, BTN_TOUCH, 0, now_us)
}

fn x(value: i32, now_us: u64) -> TouchpadEvent {
    event(EV_ABS, ABS_X, value, now_us)
}

fn y(value: i32, now_us: u64) -> TouchpadEvent {
    event(EV_ABS, ABS_Y, value, now_us)
}

fn send(listener: &mut Listener, event: TouchpadEvent, shared: Shared) -> Vec<ListenerAction> {
    assert!(listener.can_handle(&event));
    listener.handle_event(&event, shared)
}

fn started() -> StartDecision {
    StartDecision::Start { vx: d(500.0), vy: d(-20.0) }
}

/// A listener whose pointer was let go at 1 second; the touchpad is grabbed.
fn coasting() -> Listener {
    let mut listener = Listener::new(150, 56);
    send(&mut listener, down(500_000), QUIET);
    assert_eq!(send(&mut listener, up(1_000_000), QUIET), vec![ListenerAction::EvaluateLift]);
    listener.finish_lift(1_000_000, started());
    for action in listener.end_batch() {
        assert!(listener.wants_grab(&action));
        listener.grab_finished(&action, true);
    }
    listener
}

/// A listener with a finger down, since 1.3 seconds, that met the coasting pointer.
fn retouched() -> Listener {
    let mut listener = coasting();
    let actions = send(&mut listener, down(1_300_000), QUIET);
    assert_eq!(
        actions,
        vec![
            ListenerAction::SetActiveToken(1),
            ListenerAction::Log(Decision::RetouchPending {
                late_by_us: 100_000,
                confirm_us: 56_000
            }),
            ListenerAction::ArmTimer { token: 1, delay_us: 56_000 },
        ]
    );
    listener
}

#[test]
fn codes_are_those_of_evdev() {
    assert_eq!(EV_KEY, evdev::EventType::KEY.0);
    assert_eq!(EV_ABS, evdev::EventType::ABSOLUTE.0);
    assert_eq!(ABS_X, evdev::AbsoluteAxisType::ABS_X.0);
    assert_eq!(ABS_Y, evdev::AbsoluteAxisType::ABS_Y.0);
    assert_eq!(ABS_MT_POSITION_X, evdev::AbsoluteAxisType::ABS_MT_POSITION_X.0);
    assert_eq!(BTN_LEFT, evdev::Key::BTN_LEFT.code());
    assert_eq!(BTN_RIGHT, evdev::Key::BTN_RIGHT.code());
    assert_eq!(BTN_MIDDLE, evdev::Key::BTN_MIDDLE.code());
    assert_eq!(BTN_TOUCH, evdev::Key::BTN_TOUCH.code());
    assert_eq!(BTN_TOOL_FINGER, evdev::Key::BTN_TOOL_FINGER.code());
    assert_eq!(BTN_TOOL_DOUBLETAP, evdev::Key::BTN_TOOL_DOUBLETAP.code());
    assert_eq!(BTN_TOOL_TRIPLETAP, evdev::Key::BTN_TOOL_TRIPLETAP.code());
    assert_eq!(BTN_TOOL_QUADTAP, evdev::Key::BTN_TOOL_QUADTAP.code());
    assert_eq!(BTN_TOOL_QUINTTAP, evdev::Key::BTN_TOOL_QUINTTAP.code());
}

#[test]
fn events_are_classified() {
    assert_eq!(classify(3, 0), EventClass::AxisX);
    assert_eq!(classify(3, 1), EventClass::AxisY);
    assert_eq!(classify(3, 0x35), EventClass::Other);
    assert_eq!(classify(1, 0x14a), EventClass::Touch);
    assert_eq!(classify(1, 0x110), EventClass::Click(Button::Left));
    assert_eq!(classify(1, 0x111), EventClass::Click(Button::Right));
    assert_eq!(classify(1, 0x112), EventClass::Click(Button::Middle));
    for code in [0x148, 0x14d, 0x14e, 0x14f] {
        assert_eq!(classify(1, code), EventClass::MultiTouch);
    }
    assert_eq!(classify(1, 0x145), EventClass::Other);
    assert_eq!(classify(0, 0), EventClass::Other);
    assert_eq!(classify(2, 0), EventClass::Other);
    assert_eq!(classify(0x101, 1), EventClass::Other);
    assert_eq!(classify(99, 0x14a), EventClass::Other);
}

#[test]
fn timestamps_in_microseconds() {
    assert_eq!(timestamp_to_us(None), 0);
    assert_eq!(timestamp_to_us(Some((0, 0))), 0);
    assert_eq!(timestamp_to_us(Some((12, 345_678_999))), 12_345_678);
    let wide = u64::MAX as u128 * 1_000_000 + 999_999;
    assert_eq!(timestamp_to_us(Some((u64::MAX, 999_999_999))), wide as u64);
}

#[test]
fn zero_is_no_retouch() {
    assert!(!retouch_is_stopped(0, 0));
    assert!(!retouch_is_stopped(1, 0));
    assert!(!retouch_is_stopped(0, 1));
    assert!(retouch_is_stopped(4, 4));
}

#[test]
fn lift_criteria_in_order() {
    let fast = Some(ReleaseSpeed { speed: d(100.0), start_vx: d(130.0), start_vy: d(0.0) });
    let slow = Some(ReleaseSpeed { speed: d(99.9), start_vx: d(129.9), start_vy: d(0.0) });
    let min = d(100.0);
    assert_eq!(
        maybe_start_pointer(129_999, d(1.0), None, min),
        StartDecision::TouchTooShort
    );
    assert_eq!(
        maybe_start_pointer(130_000, d(39.9), None, min),
        StartDecision::MovementTooShort
    );
    assert_eq!(
        maybe_start_pointer(130_000, d(40.0), None, min),
        StartDecision::NoFreshVelocity
    );
    assert_eq!(
        maybe_start_pointer(130_000, d(40.0), slow, min),
        StartDecision::VelocityTooLow
    );
    assert_eq!(
        maybe_start_pointer(130_000, d(40.0), fast, min),
        StartDecision::Start { vx: d(130.0), vy: d(0.0) }
    );
}

/// A listener that saw a finger move by 10 units every 10 milliseconds, and when.
fn moved(steps: i32) -> (Listener, u64) {
    let mut listener = Listener::new(150, 56);
    send(&mut listener, down(0), QUIET);
    for i in 1..=steps {
        for action in send(&mut listener, x(10 * i, 10_000 * i as u64), QUIET) {
            if let ListenerAction::ExtendDistance { step_sq } = action {
                let travelled = f64::from_bits(listener.motion().total_distance().bits);
                listener.set_total_distance(d(travelled + (step_sq as f64).sqrt()));
            }
        }
    }
    (listener, 10_000 * steps as u64)
}

fn numbers(speeds: Option<TailSpeeds>) -> LiftNumbers {
    LiftNumbers {
        speeds,
        last: ReleaseSpeed { speed: d(1000.0), start_vx: d(1300.0), start_vy: d(0.0) },
        before_tail: ReleaseSpeed { speed: d(2000.0), start_vx: d(2600.0), start_vy: d(1.0) },
        min_velocity: d(100.0),
    }
}

fn tail(tail_speed: f64) -> Option<TailSpeeds> {
    Some(TailSpeeds {
        tail_speed: d(tail_speed),
        previous_speed: d(1000.0),
        scaled_previous_speed: d(450.0),
        doubled_min_velocity: d(200.0),
    })
}

#[test]
fn lift_of_a_moving_finger_starts_inertia() {
    let (listener, now_us) = moved(13);
    assert_eq!(listener.motion().total_distance(), d(130.0));
    let (decision, release) = listener.evaluate_lift(now_us, &numbers(None));
    assert_eq!(decision, StartDecision::Start { vx: d(1300.0), vy: d(0.0) });
    let release = release.unwrap();
    assert_eq!(release.summary.dx, 70);
    assert_eq!(release.summary.duration_us, 70_000);
}

#[test]
fn lift_with_a_slow_tail_uses_the_window_before() {
    let (listener, now_us) = moved(20);
    let (decision, release) = listener.evaluate_lift(now_us, &numbers(tail(10.0)));
    assert_eq!(decision, StartDecision::Start { vx: d(2600.0), vy: d(1.0) });
    assert_eq!(release.unwrap().age_us, 100_000);
    let (decision, release) = listener.evaluate_lift(now_us, &numbers(tail(900.0)));
    assert_eq!(decision, StartDecision::Start { vx: d(1300.0), vy: d(0.0) });
    assert_eq!(release.unwrap().age_us, 0);
}

#[test]
fn lift_is_rejected() {
    let (listener, now_us) = moved(12);
    let (decision, _) = listener.evaluate_lift(now_us, &numbers(None));
    assert_eq!(decision, StartDecision::TouchTooShort);
    let (decision, release) = listener.evaluate_lift(now_us + 140_000, &numbers(None));
    assert!(matches!(decision, StartDecision::Start { .. }));
    assert_eq!(release.unwrap().summary.samples, 2);
    let (decision, release) = listener.evaluate_lift(now_us + 140_001, &numbers(None));
    assert_eq!(decision, StartDecision::NoFreshVelocity);
    assert!(release.is_none());
    let slow = LiftNumbers { min_velocity: d(1000.1), ..numbers(None) };
    let (decision, _) = listener.evaluate_lift(now_us + 10_000, &slow);
    assert_eq!(decision, StartDecision::VelocityTooLow);
    let (listener, now_us) = moved(3);
    let (decision, _) = listener.evaluate_lift(now_us + 120_000, &numbers(None));
    assert_eq!(decision, StartDecision::MovementTooShort);
}

#[test]
fn touch_starts_a_path() {
    let mut listener = Listener::new(150, 56);
    send(&mut listener, x(100, 1), QUIET);
    send(&mut listener, y(200, 1), QUIET);
    let actions = send(&mut listener, down(10), QUIET);
    assert_eq!(
        actions,
        vec![
            ListenerAction::Send(MomentumMessage::Stop),
            ListenerAction::SetClickInhibit(false),
        ]
    );
    assert_eq!(listener.motion().count(), 1);
    let actions = send(&mut listener, x(103, 20), QUIET);
    assert_eq!(actions, vec![ListenerAction::ExtendDistance { step_sq: 9 }]);
    let actions = send(&mut listener, y(196, 20), QUIET);
    assert_eq!(actions, vec![ListenerAction::ExtendDistance { step_sq: 16 }]);
    listener.set_total_distance(d(7.0));
    assert_eq!(listener.motion().total_distance(), d(7.0));
    assert_eq!(listener.motion().nth_oldest(2).x, 103);
    assert_eq!(listener.motion().nth_oldest(2).y, 196);
    assert_eq!(listener.touch_duration_us(25), 15);
    assert_eq!(listener.touch_duration_us(5), 0);
    assert_eq!(listener.stale_us(), 150_000);
    send(&mut listener, up(30), QUIET);
    send(&mut listener, down(40), QUIET);
    assert_eq!(listener.motion().count(), 1);
    assert_eq!(listener.motion().total_distance(), d(0.0));
}

#[test]
fn clean_lift_is_evaluated() {
    let mut listener = Listener::new(150, 56);
    send(&mut listener, down(10), QUIET);
    assert!(listener.takes_external_click(&up(20)));
    assert!(!listener.takes_external_click(&down(20)));
    assert_eq!(send(&mut listener, up(20), QUIET), vec![ListenerAction::EvaluateLift]);
    assert!(!listener.takes_external_click(&up(30)));
    assert_eq!(send(&mut listener, up(30), QUIET), vec![]);
}

#[test]
fn started_lift_grabs_the_touchpad() {
    let mut listener = Listener::new(150, 56);
    send(&mut listener, down(10), QUIET);
    send(&mut listener, up(20), QUIET);
    let actions = listener.finish_lift(20, started());
    assert_eq!(
        actions,
        vec![ListenerAction::Send(MomentumMessage::StartPointer { vx: d(500.0), vy: d(-20.0) })]
    );
    assert_eq!(listener.end_batch(), vec![GrabAction::Grab(GrabReason::MomentumStart)]);
    assert_eq!(listener.end_batch(), vec![]);
}

#[test]
fn rejected_lift_does_nothing() {
    let mut listener = Listener::new(150, 56);
    send(&mut listener, down(10), QUIET);
    send(&mut listener, up(20), QUIET);
    assert_eq!(listener.finish_lift(20, StartDecision::VelocityTooLow), vec![]);
    assert_eq!(listener.end_batch(), vec![]);
    let actions = send(&mut listener, down(30), QUIET);
    assert_eq!(actions[0], ListenerAction::Send(MomentumMessage::Stop));
}

#[test]
fn click_suppresses_inertia() {
    let mut listener = Listener::new(150, 56);
    send(&mut listener, down(10), QUIET);
    let actions = send(&mut listener, event(EV_KEY, BTN_LEFT, 1, 15), QUIET);
    assert_eq!(
        actions,
        vec![
            ListenerAction::SetClickInhibit(true),
            ListenerAction::Send(MomentumMessage::Stop),
        ]
    );
    assert_eq!(send(&mut listener, event(EV_KEY, BTN_LEFT, 0, 16), QUIET), vec![]);
    send(&mut listener, x(9, 17), QUIET);
    let actions = send(&mut listener, up(25), QUIET);
    assert_eq!(
        actions,
        vec![ListenerAction::Log(Decision::RejectClick {
            click_seen: true,
            external_click_seen: false,
            touch_us: 15,
            ring_samples: 2,
            total_samples: 2,
        })]
    );
}

#[test]
fn external_click_suppresses_inertia() {
    let mut listener = Listener::new(150, 56);
    send(&mut listener, down(10), QUIET);
    let clicked = Shared { stopped_token: 0, external_click: true };
    let actions = send(&mut listener, up(25), clicked);
    assert_eq!(actions.len(), 1);
    assert!(matches!(
        actions[0],
        ListenerAction::Log(Decision::RejectClick { external_click_seen: true, .. })
    ));
}

#[test]
fn multitouch_stops_inertia() {
    let mut listener = retouched();
    let actions = send(&mut listener, event(EV_KEY, BTN_TOOL_DOUBLETAP, 1, 1_310_000), QUIET);
    assert_eq!(
        actions,
        vec![
            ListenerAction::SetActiveToken(2),
            ListenerAction::Send(MomentumMessage::Stop),
        ]
    );
    assert_eq!(send(&mut listener, up(1_320_000), QUIET), vec![]);
}

#[test]
fn bounce_after_lift_is_ignored() {
    let mut listener = coasting();
    let actions = send(&mut listener, down(1_199_999), QUIET);
    assert_eq!(
        actions,
        vec![ListenerAction::Log(Decision::RetouchTooSoon { remaining_us: 1 })]
    );
    assert_eq!(send(&mut listener, up(1_199_999), QUIET), vec![]);
    let actions = send(&mut listener, down(1_200_000), QUIET);
    assert_eq!(actions[0], ListenerAction::SetActiveToken(1));
}

#[test]
fn short_retouch_is_ignored() {
    let mut listener = retouched();
    let actions = send(&mut listener, up(1_355_999), QUIET);
    assert_eq!(
        actions,
        vec![
            ListenerAction::SetActiveToken(2),
            ListenerAction::Log(Decision::RetouchTooShort {
                duration_us: 55_999,
                confirm_us: 56_000
            }),
        ]
    );
    assert_eq!(listener.end_batch(), vec![]);
    let actions = send(&mut listener, down(1_356_000), QUIET);
    assert_eq!(actions[2], ListenerAction::ArmTimer { token: 3, delay_us: 56_000 });
}

#[test]
fn long_retouch_stops_on_release() {
    let mut listener = retouched();
    let actions = send(&mut listener, up(1_356_000), QUIET);
    assert_eq!(
        actions,
        vec![
            ListenerAction::SetActiveToken(2),
            ListenerAction::Send(MomentumMessage::Stop),
            ListenerAction::SetStoppedToken(1),
            ListenerAction::Log(Decision::RetouchStopOnRelease {
                duration_us: 56_000,
                confirm_us: 56_000
            }),
        ]
    );
    let grabs = listener.end_batch();
    assert_eq!(grabs, vec![GrabAction::Ungrab(GrabReason::RetouchConfirmedOnRelease)]);
    assert!(listener.wants_grab(&grabs[0]));
}

#[test]
fn timer_stops_and_motion_goes_on() {
    let mut listener = retouched();
    assert_eq!(send(&mut listener, x(5, 1_310_000), QUIET), vec![]);
    assert_eq!(
        retouch_timer(1, 1, 56_000),
        vec![
            ListenerAction::Send(MomentumMessage::Stop),
            ListenerAction::SetStoppedToken(1),
            ListenerAction::Log(Decision::RetouchStopByTimer { confirm_us: 56_000 }),
        ]
    );
    let stopped = Shared { stopped_token: 1, external_click: false };
    assert_eq!(
        send(&mut listener, x(8, 1_400_000), stopped),
        vec![
            ListenerAction::Log(Decision::RetouchContinue { raw_dx: 3, raw_dy: 0 }),
            ListenerAction::Send(MomentumMessage::ContinuePointer { dx: 3, dy: 0 }),
        ]
    );
    assert_eq!(send(&mut listener, x(8, 1_410_000), stopped), vec![]);
    assert_eq!(
        send(&mut listener, y(-4, 1_410_000), stopped),
        vec![ListenerAction::Send(MomentumMessage::ContinuePointer { dx: 0, dy: -4 })]
    );
    let actions = send(&mut listener, up(1_420_000), stopped);
    assert_eq!(
        actions,
        vec![
            ListenerAction::SetActiveToken(2),
            ListenerAction::Log(Decision::RetouchReleased {
                duration_us: 120_000,
                confirm_us: 56_000
            }),
        ]
    );
    assert_eq!(
        listener.end_batch(),
        vec![GrabAction::Ungrab(GrabReason::RetouchReleaseAfterStop)]
    );
}

#[test]
fn late_timer_does_nothing() {
    assert_eq!(retouch_timer(2, 1, 56_000), vec![]);
}

#[test]
fn forwarded_steps_add_up() {
    let mut listener = retouched();
    let stopped = Shared { stopped_token: 1, external_click: false };
    let mut total = 0;
    for position in [3, 3, -10, 250, 100] {
        for action in send(&mut listener, x(position, 1_400_000), stopped) {
            if let ListenerAction::Send(MomentumMessage::ContinuePointer { dx, .. }) = action {
                total += dx;
            }
        }
    }
    assert_eq!(total, 100);
}

#[test]
fn forwarded_steps_add_up_on_both_axes() {
    let mut listener = retouched();
    send(&mut listener, x(40, 1_310_000), QUIET);
    let stopped = Shared { stopped_token: 1, external_click: false };
    let (mut total_x, mut total_y) = (0, 0);
    let events = [
        x(50, 1_400_000),
        y(7, 1_400_000),
        event(EV_KEY, BTN_LEFT, 1, 1_401_000),
        y(-3, 1_402_000),
        x(45, 1_403_000),
        event(EV_KEY, BTN_LEFT, 0, 1_404_000),
        y(12, 1_405_000),
    ];
    for event in events {
        for action in send(&mut listener, event, stopped) {
            if let ListenerAction::Send(MomentumMessage::ContinuePointer { dx, dy }) = action {
                total_x += dx;
                total_y += dy;
            }
        }
        listener.end_batch();
        listener.engine_status(EngineStatus::PointerIdle);
        assert_eq!(listener.release_stale_grab(), None);
    }
    assert_eq!((total_x, total_y), (5, 12));
}

#[test]
fn bounce_is_ignored_whatever_comes_between() {
    let mut listener = coasting();
    for bounce in 0..3 {
        listener.engine_status(EngineStatus::PointerActive);
        assert_eq!(listener.release_stale_grab(), None);
        send(&mut listener, x(bounce, 1_050_000), QUIET);
        let actions = send(&mut listener, down(1_100_000), QUIET);
        assert_eq!(
            actions,
            vec![ListenerAction::Log(Decision::RetouchTooSoon { remaining_us: 100_000 })]
        );
        assert_eq!(send(&mut listener, up(1_110_000), QUIET), vec![]);
        assert_eq!(listener.end_batch(), vec![]);
    }
}

#[test]
fn inertia_is_not_forgotten() {
    let mut listener = retouched();
    let mut now_us = 1_300_000;
    for round in 0..4 {
        listener.end_batch();
        let actions = send(&mut listener, up(now_us + 10_000), QUIET);
        assert!(matches!(actions[1], ListenerAction::Log(Decision::RetouchTooShort { .. })));
        listener.end_batch();
        listener.engine_status(EngineStatus::PointerActive);
        assert_eq!(listener.release_stale_grab(), None);
        now_us += 20_000;
        let actions = send(&mut listener, down(now_us), QUIET);
        assert_eq!(actions[0], ListenerAction::SetActiveToken(3 + 2 * round));
        assert!(!actions.contains(&ListenerAction::Send(MomentumMessage::Stop)));
    }
}

#[test]
fn far_step_has_no_room() {
    let mut listener = Listener::new(150, 56);
    send(&mut listener, x(i32::MIN, 1), QUIET);
    send(&mut listener, down(500_000), QUIET);
    send(&mut listener, up(1_000_000), QUIET);
    listener.finish_lift(1_000_000, started());
    send(&mut listener, down(1_300_000), QUIET);
    assert!(!listener.can_handle(&x(0, 1_310_000)));
    assert!(listener.can_handle(&x(-1, 1_310_000)));
}

#[test]
fn retouch_counts_as_click() {
    let mut listener = retouched();
    listener.end_batch();
    listener.engine_status(EngineStatus::PointerIdle);
    let actions = send(&mut listener, up(1_310_000), QUIET);
    assert!(matches!(actions[1], ListenerAction::Log(Decision::RetouchTooShort { .. })));
    let actions = send(&mut listener, down(1_320_000), QUIET);
    assert_eq!(actions[0], ListenerAction::Send(MomentumMessage::Stop));
}

#[test]
fn idle_engine_releases_the_touchpad() {
    let mut listener = coasting();
    assert_eq!(listener.engine_status(EngineStatus::PointerActive), None);
    let action = listener.engine_status(EngineStatus::PointerIdle).unwrap();
    assert_eq!(action, GrabAction::Ungrab(GrabReason::EngineIdle));
    assert!(listener.wants_grab(&action));
    listener.grab_finished(&action, true);
    assert!(!listener.wants_grab(&action));
    assert_eq!(listener.release_stale_grab(), None);
    let actions = send(&mut listener, down(1_400_000), QUIET);
    assert_eq!(actions[0], ListenerAction::Send(MomentumMessage::Stop));
}

#[test]
fn idle_engine_does_not_release_under_a_finger() {
    let mut listener = retouched();
    assert_eq!(listener.engine_status(EngineStatus::PointerIdle), None);
    assert_eq!(listener.release_stale_grab(), None);
}

#[test]
fn grabs_and_releases_alternate() {
    let mut listener = Listener::new(150, 56);
    let mut done = Vec::new();
    for round in 0..3u64 {
        let start = round * 10_000_000;
        send(&mut listener, down(start), QUIET);
        send(&mut listener, up(start + 500_000), QUIET);
        assert!(!listener.wants_grab(&GrabAction::Ungrab(GrabReason::EngineIdle)));
        listener.finish_lift(start + 500_000, started());
        for action in listener.end_batch() {
            assert!(listener.wants_grab(&action));
            listener.grab_finished(&action, true);
            done.push(matches!(action, GrabAction::Grab(_)));
        }
        assert_eq!(listener.release_stale_grab(), None);
        let action = listener.engine_status(EngineStatus::PointerIdle).unwrap();
        assert!(listener.wants_grab(&action));
        listener.grab_finished(&action, true);
        done.push(matches!(action, GrabAction::Grab(_)));
    }
    assert_eq!(done, vec![true, false, true, false, true, false]);
}

#[test]
fn batch_without_a_start_asks_for_no_grab() {
    let mut listener = Listener::new(150, 56);
    send(&mut listener, down(0), QUIET);
    send(&mut listener, event(EV_KEY, BTN_LEFT, 1, 10), QUIET);
    send(&mut listener, up(500_000), QUIET);
    assert_eq!(listener.end_batch(), vec![]);
    assert_eq!(listener.release_stale_grab(), None);
}

#[test]
fn stale_grab_is_released_after_the_batch() {
    let mut listener = retouched();
    listener.engine_status(EngineStatus::PointerIdle);
    let multitouch = event(EV_KEY, BTN_TOOL_TRIPLETAP, 1, 1_310_000);
    send(&mut listener, multitouch, QUIET);
    assert_eq!(listener.end_batch(), vec![]);
    let action = listener.release_stale_grab().unwrap();
    assert_eq!(action, GrabAction::Ungrab(GrabReason::InactiveListenerState));
    listener.grab_finished(&action, true);
    assert_eq!(listener.release_stale_grab(), None);
    let actions = send(&mut listener, down(1_400_000), QUIET);
    assert_eq!(actions[0], ListenerAction::Send(MomentumMessage::Stop));
}

#[test]
fn failed_release_is_tried_again() {
    let mut listener = coasting();
    let action = listener.engine_status(EngineStatus::PointerIdle).unwrap();
    listener.grab_finished(&action, false);
    let action = listener.release_stale_grab().unwrap();
    assert_eq!(action, GrabAction::Ungrab(GrabReason::InactiveListenerState));
    listener.grab_finished(&action, true);
    assert_eq!(listener.release_stale_grab(), None);
}

#[test]
fn button_node_stops_inertia() {
    assert_eq!(
        button_event(EV_KEY, BTN_RIGHT, 1),
        vec![
            ListenerAction::SetClickInhibit(true),
            ListenerAction::Send(MomentumMessage::Stop),
            ListenerAction::Log(Decision::ButtonClick { button: Button::Right }),
        ]
    );
    assert_eq!(button_event(EV_KEY, BTN_RIGHT, 0), vec![]);
    assert_eq!(button_event(EV_KEY, BTN_TOUCH, 1), vec![]);
    assert_eq!(button_event(EV_ABS, ABS_X, 1), vec![]);
}

#[test]
fn grabs_in_words() {
    let grab = GrabAction::Grab(GrabReason::MomentumStart);
    assert_eq!(grab.text(None), "TOUCHPAD_GRAB reason=momentum_start");
    assert_eq!(
        grab.text(Some("busy")),
        "TOUCHPAD_GRAB_FAILED reason=momentum_start error=busy"
    );
    let ungrab = GrabAction::Ungrab(GrabReason::ListenerExit);
    assert_eq!(ungrab.text(None), "TOUCHPAD_UNGRAB reason=listener_exit");
    assert_eq!(
        ungrab.text(Some("gone")),
        "TOUCHPAD_UNGRAB_FAILED reason=listener_exit error=gone"
    );
    assert_eq!(GrabReason::EngineIdle.name(), "engine_idle");
    assert_eq!(GrabReason::RetouchReleaseAfterStop.name(), "retouch_release_after_stop");
    assert_eq!(GrabReason::RetouchConfirmedOnRelease.name(), "retouch_confirmed_on_release");
    assert_eq!(GrabReason::InactiveListenerState.name(), "inactive_listener_state");
}

#[test]
fn lifts_in_words() {
    let lift = RenderedLift {
        context: "CONTEXT",
        velocity_context: "VELOCITY",
        vx: "1.0",
        vy: "2.0",
        speed: "2.2",
        start_vx: "1.3",
        start_vy: "2.6",
        start_speed: "2.9",
        start_multiplier: "1.300",
        min_speed: "100.0",
    };
    let line = |decision: StartDecision| lift_line(&decision, 150_000, &lift);
    assert_eq!(
        line(StartDecision::TouchTooShort),
        "REJECT reason=touch_too_short CONTEXT min_touch_us=130000"
    );
    assert_eq!(
        line(StartDecision::MovementTooShort),
        "REJECT reason=movement_too_short CONTEXT min_total_dist=40.0"
    );
    assert_eq!(
        line(StartDecision::NoFreshVelocity),
        "REJECT reason=no_fresh_velocity CONTEXT stale_us=150000"
    );
    assert_eq!(
        line(StartDecision::VelocityTooLow),
        "REJECT reason=velocity_too_low CONTEXT VELOCITY vx=1.0 vy=2.0 speed=2.2 min_speed=100.0"
    );
    assert_eq!(
        line(started()),
        "START reason=criteria_met CONTEXT VELOCITY release_vx=1.0 release_vy=2.0 \
         release_speed=2.2 start_vx=1.3 start_vy=2.6 start_speed=2.9 start_multiplier=1.300 \
         min_touch_us=130000 min_total_dist=40.0 min_speed=100.0"
    );
}

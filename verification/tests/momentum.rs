use rinertia::double::Double;
use rinertia::messages::{EngineStatus, MomentumMessage};
use rinertia::momentum::{
    effective_drag, emit_continued_pointer, emit_pointer, send_status, take_continued_motion,
    take_integer_motion, Emission, Engine, EngineDecision, EngineState, Frame, FrameOutcome,
    StopReason, TickGate, Totals,
};

fn d(x: f64) -> Double {
    Double { bits: x.to_bits() }
}

fn add(accum: Double, raw: i32, scale: f64) -> Double {
    d(f64::from_bits(accum.bits) + raw as f64 * scale)
}

fn start(vx: f64, vy: f64) -> MomentumMessage {
    MomentumMessage::StartPointer { vx: d(vx), vy: d(vy) }
}

fn coasting() -> Engine {
    let mut engine = Engine::new(0, 0);
    let mut statuses = Vec::new();
    engine.handle_message(&start(300.0, 0.0), 1_000, None, &mut statuses);
    engine
}

fn frame(speed: f64, x: f64, y: f64) -> Frame {
    Frame { vx: d(speed), vy: d(0.0), speed: d(speed), x_accum: d(x), y_accum: d(y) }
}

#[test]
fn continued_motion_preserves_fractional_distance() {
    let mut x_accum = d(0.0);
    let mut y_accum = d(0.0);

    x_accum = add(x_accum, 1, 0.5);
    y_accum = add(y_accum, -1, 0.5);
    assert_eq!(take_continued_motion(&mut x_accum, &mut y_accum), (0, 0));
    x_accum = add(x_accum, 1, 0.5);
    y_accum = add(y_accum, -1, 0.5);
    assert_eq!(take_continued_motion(&mut x_accum, &mut y_accum), (1, -1));
    assert_eq!(f64::from_bits(x_accum.bits), 0.0);
    assert_eq!(f64::from_bits(y_accum.bits), 0.0);
}

#[test]
fn emitted_and_left_over_add_up() {
    let mut accum = d(0.0);
    let mut emitted = 0;
    for _ in 0..1000 {
        accum = add(accum, 1, 0.375);
        emitted += take_integer_motion(&mut accum);
    }
    assert_eq!(emitted as f64 + f64::from_bits(accum.bits), 375.0);
}

#[test]
fn integer_motion_rounds_toward_zero() {
    let mut accum = d(-2.75);
    assert_eq!(take_integer_motion(&mut accum), -2);
    assert_eq!(accum, d(-0.75));
    let mut accum = d(5e9);
    assert_eq!(take_integer_motion(&mut accum), i32::MAX);
    assert_eq!(accum, d(0.0));
}

#[test]
fn status_is_appended() {
    let mut statuses = vec![EngineStatus::PointerIdle];
    send_status(&mut statuses, EngineStatus::PointerActive);
    assert_eq!(statuses, vec![EngineStatus::PointerIdle, EngineStatus::PointerActive]);
}

#[test]
fn motion_goes_to_the_device_if_there_is_one() {
    assert_eq!(emit_pointer(true, 1, -2), Emission::Device { dx: 1, dy: -2 });
    assert_eq!(emit_pointer(false, 1, -2), Emission::Dry { dx: 1, dy: -2 });
    assert_eq!(emit_continued_pointer(true, 0, 0), None);
    assert_eq!(emit_continued_pointer(true, 0, 3), Some(Emission::Device { dx: 0, dy: 3 }));
    assert_eq!(emit_continued_pointer(false, 4, 0), Some(Emission::Dry { dx: 4, dy: 0 }));
}

#[test]
fn drag_is_limited() {
    assert_eq!(effective_drag(d(0.0)), d(0.001));
    assert_eq!(effective_drag(d(1.0)), d(0.95));
    assert_eq!(effective_drag(d(0.01)), d(0.01));
    assert!(effective_drag(d(f64::NAN)).is_nan());
}

#[test]
fn start_launches_the_pointer() {
    let mut engine = Engine::new(0, 0);
    let mut statuses = Vec::new();
    let outcome = engine.handle_message(&start(3.0, 4.0), 77, Some((9, 8)), &mut statuses);
    assert_eq!(outcome.log, Some(EngineDecision::Start));
    assert!(!outcome.continued);
    assert_eq!(statuses, vec![EngineStatus::PointerActive]);
    assert_eq!(engine.state, EngineState::PointerMomentum);
    assert_eq!(engine.vx, d(3.0));
    assert_eq!(engine.vy, d(4.0));
    assert_eq!(engine.started_ns, 77);
    assert_eq!(engine.last_tick_ns, 77);
    assert_eq!(engine.detector.last_position, Some((9, 8)));
}

#[test]
fn restart_counts_from_zero() {
    let mut engine = coasting();
    let mut statuses = Vec::new();
    engine.advance(&frame(300.0, 2.5, 0.0), true, &mut statuses);
    assert_eq!(engine.totals, Totals { emit_count: 1, total_dx: 2, total_dy: 0 });
    let outcome = engine.handle_message(&start(1.0, 1.0), 99, None, &mut statuses);
    assert_eq!(outcome.log, Some(EngineDecision::Restart));
    assert_eq!(engine.totals, Totals { emit_count: 0, total_dx: 0, total_dy: 0 });
    assert_eq!(engine.x_accum, d(0.0));
    assert_eq!(statuses, vec![EngineStatus::PointerActive]);
}

#[test]
fn stop_brings_the_pointer_to_rest() {
    let mut engine = coasting();
    let mut statuses = Vec::new();
    engine.advance(&frame(300.0, 2.5, -1.0), true, &mut statuses);
    let outcome = engine.handle_message(&MomentumMessage::Stop, 5_000, None, &mut statuses);
    assert_eq!(
        outcome.log,
        Some(EngineDecision::Stop {
            reason: StopReason::Message,
            totals: Totals { emit_count: 1, total_dx: 2, total_dy: -1 },
        })
    );
    assert_eq!(engine.state, EngineState::Idle);
    assert_eq!(engine.vx, d(0.0));
    assert_eq!(engine.x_accum, d(0.0));
    assert_eq!(statuses, vec![EngineStatus::PointerIdle]);
}

#[test]
fn stop_of_a_resting_pointer_drops_fractions() {
    let mut engine = Engine::new(0, 0);
    let mut statuses = Vec::new();
    assert_eq!(engine.continue_motion(d(1.5), d(-0.25)), (1, 0));
    assert_eq!(engine.x_accum, d(0.5));
    assert_eq!(engine.y_accum, d(-0.25));
    let outcome = engine.handle_message(&MomentumMessage::Stop, 5, None, &mut statuses);
    assert_eq!(outcome.log, None);
    assert_eq!(engine.x_accum, d(0.0));
    assert_eq!(engine.y_accum, d(0.0));
    assert!(statuses.is_empty());
}

#[test]
fn continued_touch_ends_inertia() {
    let mut engine = coasting();
    let mut statuses = Vec::new();
    let message = MomentumMessage::ContinuePointer { dx: 1, dy: 2 };
    let outcome = engine.handle_message(&message, 5, None, &mut statuses);
    assert!(outcome.continued);
    assert_eq!(
        outcome.log,
        Some(EngineDecision::Stop {
            reason: StopReason::ContinuedTouch,
            totals: Totals { emit_count: 0, total_dx: 0, total_dy: 0 },
        })
    );
    assert_eq!(statuses, vec![EngineStatus::PointerIdle]);
    let outcome = engine.handle_message(&message, 6, None, &mut statuses);
    assert!(outcome.continued);
    assert_eq!(outcome.log, None);
    assert_eq!(statuses.len(), 1);
}

#[test]
fn tick_measures_time() {
    let mut engine = coasting();
    let mut statuses = Vec::new();
    assert_eq!(engine.begin_tick(9_000, None, &mut statuses), TickGate::Coast { dt_ns: 8_000 });
    assert_eq!(engine.begin_tick(9_500, None, &mut statuses), TickGate::Coast { dt_ns: 500 });
    assert_eq!(engine.begin_tick(9_400, None, &mut statuses), TickGate::Coast { dt_ns: 0 });
    assert!(statuses.is_empty());
}

#[test]
fn blocked_pointer_comes_to_rest() {
    let mut engine = Engine::new(0, 0);
    let mut statuses = Vec::new();
    engine.handle_message(&start(300.0, 0.0), 0, Some((5, 5)), &mut statuses);
    for _ in 0..2 {
        engine.advance(&frame(300.0, 1.0, 0.0), true, &mut statuses);
        assert!(engine.detector.wants_position());
        let gate = engine.begin_tick(1, Some((5, 5)), &mut statuses);
        assert!(matches!(gate, TickGate::Coast { .. }));
    }
    engine.advance(&frame(300.0, 1.0, 0.0), true, &mut statuses);
    assert_eq!(
        engine.begin_tick(1, Some((5, 5)), &mut statuses),
        TickGate::Done(EngineDecision::DoneBlocked {
            totals: Totals { emit_count: 3, total_dx: 3, total_dy: 0 },
        })
    );
    assert_eq!(engine.state, EngineState::Idle);
    assert_eq!(statuses, vec![EngineStatus::PointerActive, EngineStatus::PointerIdle]);
}

#[test]
fn dry_motion_is_not_watched() {
    let mut engine = coasting();
    let mut statuses = Vec::new();
    engine.advance(&frame(300.0, 1.0, 0.0), false, &mut statuses);
    assert!(!engine.detector.wants_position());
}

#[test]
fn duration_is_limited() {
    let mut engine = Engine::new(7, 0);
    let mut statuses = Vec::new();
    engine.handle_message(&start(300.0, 0.0), 1_000_000, None, &mut statuses);
    let gate = engine.begin_tick(7_999_999, None, &mut statuses);
    assert!(matches!(gate, TickGate::Coast { .. }));
    assert_eq!(
        engine.begin_tick(8_000_000, None, &mut statuses),
        TickGate::Done(EngineDecision::DoneMaxDuration {
            elapsed_ms: 7,
            max_duration_ms: 7,
            totals: Totals { emit_count: 0, total_dx: 0, total_dy: 0 },
        })
    );
}

#[test]
fn zero_duration_is_no_limit() {
    let mut engine = coasting();
    let mut statuses = Vec::new();
    let gate = engine.begin_tick(u64::MAX, None, &mut statuses);
    assert!(matches!(gate, TickGate::Coast { .. }));
}

#[test]
fn slow_pointer_comes_to_rest() {
    let mut engine = coasting();
    let mut statuses = Vec::new();
    let gate = engine.advance(&frame(25.0, 0.5, 0.0), true, &mut statuses);
    assert_eq!(gate, FrameOutcome::Still);
    assert_eq!(engine.x_accum, d(0.5));
    assert_eq!(
        engine.advance(&frame(24.999, 9.0, 0.0), true, &mut statuses),
        FrameOutcome::Done(EngineDecision::DoneSlow {
            totals: Totals { emit_count: 0, total_dx: 0, total_dy: 0 },
        })
    );
    assert_eq!(engine.state, EngineState::Idle);
    assert_eq!(engine.x_accum, d(0.0));
    assert_eq!(statuses, vec![EngineStatus::PointerIdle]);
}

#[test]
fn frames_move_and_add_up() {
    let mut engine = coasting();
    let mut statuses = Vec::new();
    let mut logged = 0;
    for n in 1..=50u64 {
        assert!(engine.can_advance(&frame(300.0, 2.25, -1.5)));
        match engine.advance(&frame(300.0, 2.25, -1.5), true, &mut statuses) {
            FrameOutcome::Move { dx, dy, log } => {
                assert_eq!((dx, dy), (2, -1));
                assert_eq!(log.is_some(), n <= 3 || n == 25 || n == 50);
                if log.is_some() {
                    logged += 1;
                }
            }
            other => panic!("{:?}", other),
        }
    }
    assert_eq!(logged, 5);
    assert_eq!(engine.totals, Totals { emit_count: 50, total_dx: 100, total_dy: -50 });
    assert_eq!(engine.x_accum, d(0.25));
    assert_eq!(engine.y_accum, d(-0.5));
}

#[test]
fn full_totals_have_no_room() {
    let mut engine = coasting();
    engine.totals = Totals { emit_count: 0, total_dx: i64::MAX - 1, total_dy: 0 };
    assert!(engine.can_advance(&frame(300.0, 1.0, 0.0)));
    assert!(!engine.can_advance(&frame(300.0, 2.0, 0.0)));
    assert!(engine.can_advance(&frame(10.0, 2.0, 0.0)));
    engine.totals = Totals { emit_count: u64::MAX, total_dx: 0, total_dy: 0 };
    assert!(!engine.can_advance(&frame(300.0, 0.0, 1.0)));
    assert!(engine.can_advance(&frame(300.0, 0.9, 0.9)));
}

#[test]
fn engine_decisions_in_words() {
    let totals = Totals { emit_count: 12, total_dx: -340, total_dy: 7 };
    let text = |decision: EngineDecision| decision.text("1.5", "-2.0", "2.5");
    assert_eq!(text(EngineDecision::Start), "ENGINE_START vx=1.5 vy=-2.0 speed=2.5");
    assert_eq!(text(EngineDecision::Restart), "ENGINE_RESTART vx=1.5 vy=-2.0 speed=2.5");
    assert_eq!(
        text(EngineDecision::Stop { reason: StopReason::Message, totals }),
        "ENGINE_STOP reason=message emit_count=12 total_dx=-340 total_dy=7"
    );
    assert_eq!(
        text(EngineDecision::Stop { reason: StopReason::ContinuedTouch, totals }),
        "ENGINE_STOP reason=continued_touch emit_count=12 total_dx=-340 total_dy=7"
    );
    assert_eq!(
        text(EngineDecision::DoneBlocked { totals }),
        "ENGINE_DONE reason=pointer_blocked emit_count=12 total_dx=-340 total_dy=7"
    );
    assert_eq!(
        text(EngineDecision::DoneMaxDuration { elapsed_ms: 801, max_duration_ms: 800, totals }),
        "ENGINE_DONE reason=max_duration elapsed_ms=801 max_duration_ms=800 emit_count=12 total_dx=-340 total_dy=7"
    );
    assert_eq!(
        text(EngineDecision::DoneSlow { totals }),
        "ENGINE_DONE reason=speed_below_stop speed=2.5 emit_count=12 total_dx=-340 total_dy=7"
    );
    assert_eq!(
        text(EngineDecision::Emit { dx: 3, dy: -4, totals }),
        "ENGINE_EMIT n=12 dx=3 dy=-4 total_dx=-340 total_dy=7 vx=1.5 vy=-2.0 speed=2.5"
    );
}

#[test]
fn reports_of_a_run_are_in_order() {
    let mut engine = Engine::new(1_000, 0);
    let mut statuses = Vec::new();
    engine.handle_message(&MomentumMessage::Stop, 1, None, &mut statuses);
    engine.continue_motion(d(0.5), d(0.5));
    engine.handle_message(&start(300.0, 0.0), 2, None, &mut statuses);
    engine.handle_message(&start(200.0, 0.0), 3, None, &mut statuses);
    engine.begin_tick(4, None, &mut statuses);
    engine.advance(&frame(100.0, 1.5, 0.0), true, &mut statuses);
    engine.begin_tick(5, None, &mut statuses);
    engine.advance(&frame(24.9, 1.5, 0.0), true, &mut statuses);
    assert_eq!((engine.vx, engine.vy), (d(0.0), d(0.0)));
    engine.handle_message(&MomentumMessage::Stop, 6, None, &mut statuses);
    engine.handle_message(&start(300.0, 0.0), 7, None, &mut statuses);
    engine.begin_tick(2_000_000_000, None, &mut statuses);
    assert_eq!((engine.vx, engine.vy), (d(0.0), d(0.0)));
    engine.continue_motion(d(2.5), d(0.0));
    assert_eq!((engine.vx, engine.vy), (d(0.0), d(0.0)));
    assert_eq!(
        statuses,
        vec![
            EngineStatus::PointerActive,
            EngineStatus::PointerActive,
            EngineStatus::PointerIdle,
            EngineStatus::PointerActive,
            EngineStatus::PointerIdle,
        ]
    );
}

#[test]
fn totals_count_since_the_last_start() {
    let mut engine = Engine::new(0, 0);
    let mut statuses = Vec::new();
    engine.handle_message(&start(300.0, 0.0), 1, None, &mut statuses);
    engine.advance(&frame(300.0, 9.5, 9.5), true, &mut statuses);
    engine.handle_message(&start(300.0, 0.0), 2, None, &mut statuses);
    engine.advance(&frame(300.0, 2.5, -1.0), true, &mut statuses);
    engine.begin_tick(3, None, &mut statuses);
    engine.advance(&frame(250.0, 0.5, 0.5), true, &mut statuses);
    engine.advance(&frame(200.0, -4.0, 3.0), false, &mut statuses);
    engine.handle_message(&MomentumMessage::ContinuePointer { dx: 5, dy: 5 }, 4, None, &mut statuses);
    engine.continue_motion(d(7.0), d(7.0));
    engine.handle_message(&MomentumMessage::Stop, 5, None, &mut statuses);
    assert_eq!(engine.totals, Totals { emit_count: 2, total_dx: -2, total_dy: 2 });
}

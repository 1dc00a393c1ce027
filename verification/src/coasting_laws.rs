//! How each part of the engine's state evolves, what comes out of each step, and when, whatever
//! the rest of the state is.

use crate::double::{law_clamped_is_in_range, lemma_positive_order, Double};
use crate::engine_laws::{
    is_run, is_start, lemma_run_without_its_end, starts_among, steps_to, EngineStep,
};
use crate::messages::MomentumMessage;
use crate::momentum::{
    continued_emission_of, drag_in_force, emission_of, Emission, Engine, EngineDecision,
    EngineState, Frame, FrameOutcome, StopReason, TickGate, Totals,
};
use vstd::prelude::*;

verus! {

/// Whether a step is an order to stop, or the movement of a finger, which ends inertia too.
pub open spec fn is_stop(step: EngineStep) -> bool {
    step matches EngineStep::Message { message, .. } && !(message is StartPointer)
}

/// Whether the first half of a tick finds the pointer at an edge: it is where it was although motion
/// was emitted, and was found there twice before.
pub open spec fn meets_edge(engine: Engine, position: Option<(i16, i16)>) -> bool {
    &&& engine.detector.pending_motion
    &&& position is Some
    &&& engine.detector.last_position == position
    &&& engine.detector.blocked_samples >= 2
}

/// Whether the pointer has coasted for as long as it may.
pub open spec fn is_over(engine: Engine, now_ns: u64) -> bool {
    engine.max_duration_ms != 0 && now_ns >= engine.started_ns + engine.max_duration_ms * 1_000_000
}

/// Whether a frame is slower than 25 units a second.
pub open spec fn is_slow(frame: Frame) -> bool {
    frame.speed.below(Double { bits: 0x4039_0000_0000_0000 })
}

/// Whether a step brings a coasting pointer to rest.
pub open spec fn brings_to_rest(engine: Engine, step: EngineStep) -> bool {
    engine.state == EngineState::PointerMomentum && match step {
        EngineStep::Message { .. } => is_stop(step),
        EngineStep::TickBegins { now_ns, position } => meets_edge(engine, position) || is_over(
            engine,
            now_ns,
        ),
        EngineStep::TickEnds { frame, .. } => is_slow(frame),
        EngineStep::Continued { .. } => false,
    }
}

/// The pointer coasts from a start on until it meets an edge, its time is over, it has become too
/// slow, it is ordered to stop, or a finger moves it; and nothing else changes that.
pub proof fn law_when_the_pointer_coasts(engine: Engine, step: EngineStep, next: Engine)
    requires
        steps_to(engine, step, next),
    ensures
        next.state == if is_start(step) {
            EngineState::PointerMomentum
        } else if brings_to_rest(engine, step) {
            EngineState::Idle
        } else {
            engine.state
        },
{
}

/// The velocity is that of the start, then that of each frame, and zero once the pointer rests.
pub proof fn law_velocity_follows_the_frames(engine: Engine, step: EngineStep, next: Engine)
    requires
        steps_to(engine, step, next),
    ensures
        !brings_to_rest(engine, step) ==> match step {
            EngineStep::Message {
                message: MomentumMessage::StartPointer { vx, vy },
                ..
            } => next.vx == vx && next.vy == vy,
            EngineStep::TickEnds { frame, .. } => next.vx == frame.vx && next.vy == frame.vy,
            _ => next.vx == engine.vx && next.vy == engine.vy,
        },
        brings_to_rest(engine, step) ==> next.vx.bits == 0 && next.vy.bits == 0,
{
}

/// The motion that is kept back is what each frame and each continued movement leaves over, and
/// nothing after a start, after rest and after an order to stop.
pub proof fn law_motion_that_is_kept_back(engine: Engine, step: EngineStep, next: Engine)
    requires
        steps_to(engine, step, next),
    ensures
        ({
            let cleared = brings_to_rest(engine, step) || match step {
                EngineStep::Message { message, .. } => !(message is ContinuePointer),
                _ => false,
            };
            &&& cleared ==> next.x_accum.bits == 0 && next.y_accum.bits == 0
            &&& !cleared ==> match step {
                EngineStep::TickEnds { frame, .. } => {
                    &&& exists|dx: i32| #[trigger] frame.x_accum.splits_into(dx, next.x_accum)
                    &&& exists|dy: i32| #[trigger] frame.y_accum.splits_into(dy, next.y_accum)
                },
                EngineStep::Continued { x_accum, y_accum, motion } => {
                    &&& x_accum.splits_into(motion.0, next.x_accum)
                    &&& y_accum.splits_into(motion.1, next.y_accum)
                },
                _ => next.x_accum == engine.x_accum && next.y_accum == engine.y_accum,
            }
        }),
{
    if let EngineStep::TickEnds { frame, .. } = step {
        if !is_slow(frame) {
            assert(frame.x_accum.splits_into(frame.x_accum.whole_part() as i32, next.x_accum));
            assert(frame.y_accum.splits_into(frame.y_accum.whole_part() as i32, next.y_accum));
        }
    }
}

/// The clocks: a start and each tick set the time of the last tick, and only a start sets the time
/// that the limit counts from. The limit never changes.
pub proof fn law_clocks_of_the_engine(engine: Engine, step: EngineStep, next: Engine)
    requires
        steps_to(engine, step, next),
    ensures
        next.last_tick_ns == match step {
            EngineStep::Message { now_ns, .. } if is_start(step) => now_ns,
            EngineStep::TickBegins { now_ns, .. } => now_ns,
            _ => engine.last_tick_ns,
        },
        next.started_ns == match step {
            EngineStep::Message { now_ns, .. } if is_start(step) => now_ns,
            _ => engine.started_ns,
        },
        next.max_duration_ms == engine.max_duration_ms,
{
}

/// What the detector is told: where the pointer starts, what a look at it in each tick finds, and
/// motion that goes to a device; its connection is left alone.
pub proof fn law_what_the_detector_is_told(engine: Engine, step: EngineStep, next: Engine)
    requires
        steps_to(engine, step, next),
    ensures
        ({
            let (before, now) = (engine.detector, next.detector);
            &&& now.connected == before.connected
            &&& now.last_connect_attempt_ns == before.last_connect_attempt_ns
            &&& match step {
                EngineStep::Message { position, .. } if is_start(step) => {
                    &&& !now.pending_motion
                    &&& now.blocked_samples == 0
                    &&& now.last_position == position
                },
                EngineStep::TickBegins { position, .. } => now == before.after_check(position),
                EngineStep::TickEnds { frame, device_present } => {
                    &&& now.last_position == before.last_position
                    &&& now.blocked_samples == before.blocked_samples
                    &&& now.pending_motion <==> before.pending_motion || (device_present
                        && next.totals.emit_count != engine.totals.emit_count)
                },
                _ => now == before,
            }
        }),
{
}

/// What a frame hands out for emission is what is taken out of the accumulated motion, and what the
/// totals grow by, in whatever direction; a frame without a whole unit moves nothing, and a slow one
/// ends inertia with the totals as they are.
pub proof fn law_what_a_frame_hands_out(
    engine: Engine,
    frame: Frame,
    device_present: bool,
    next: Engine,
)
    requires
        engine.state == EngineState::PointerMomentum,
        engine.has_room(frame),
        engine.advances_to(frame, device_present, next),
    ensures
        is_slow(frame) <==> engine.frame_outcome(frame) is Done,
        match engine.frame_outcome(frame) {
            FrameOutcome::Done(decision) => decision == EngineDecision::DoneSlow {
                totals: engine.totals,
            } && next.totals == engine.totals,
            FrameOutcome::Still => {
                &&& frame.x_accum.splits_into(0, next.x_accum)
                &&& frame.y_accum.splits_into(0, next.y_accum)
                &&& next.totals == engine.totals
            },
            FrameOutcome::Move { dx, dy, log } => {
                &&& dx != 0 || dy != 0
                &&& frame.x_accum.splits_into(dx, next.x_accum)
                &&& frame.y_accum.splits_into(dy, next.y_accum)
                &&& next.totals.total_dx == engine.totals.total_dx + dx
                &&& next.totals.total_dy == engine.totals.total_dy + dy
                &&& next.totals.emit_count == engine.totals.emit_count + 1
                &&& log is Some <==> next.totals.emit_count <= 3 || next.totals.emit_count % 25
                    == 0
                &&& log matches Some(decision) ==> decision == EngineDecision::Emit {
                    dx,
                    dy,
                    totals: next.totals,
                }
            },
        },
{
}

/// The motion that the frames of a number of steps handed out, along both axes, and how often,
/// since the pointer last started to coast.
pub open spec fn handed_out(states: Seq<Engine>, steps: Seq<EngineStep>) -> (int, int, int)
    decreases steps.len(),
{
    if steps.len() == 0 || is_start(steps.last()) {
        (0, 0, 0)
    } else {
        let before = handed_out(states, steps.drop_last());
        match steps.last() {
            EngineStep::TickEnds { frame, .. } => match states[steps.len() - 1].frame_outcome(
                frame,
            ) {
                FrameOutcome::Move { dx, dy, .. } => (
                    before.0 + dx,
                    before.1 + dy,
                    before.2 + 1,
                ),
                _ => before,
            },
            _ => before,
        }
    }
}

proof fn lemma_handed_out_looks_back(states: Seq<Engine>, steps: Seq<EngineStep>)
    requires
        steps.len() < states.len(),
    ensures
        handed_out(states.drop_last(), steps) == handed_out(states, steps),
    decreases steps.len(),
{
    if steps.len() > 0 {
        lemma_handed_out_looks_back(states, steps.drop_last());
    }
}

/// Over any run, the totals are the motion that was handed out for emission since the last start,
/// and the number of times that any was.
pub proof fn law_totals_are_what_was_handed_out(states: Seq<Engine>, steps: Seq<EngineStep>)
    requires
        is_run(states, steps),
        starts_among(steps) > 0,
    ensures
        ({
            let totals = states.last().totals;
            handed_out(states, steps) == (
                totals.total_dx as int,
                totals.total_dy as int,
                totals.emit_count as int,
            )
        }),
    decreases steps.len(),
{
    let last = steps.len() - 1;
    lemma_run_without_its_end(states, steps);
    let (engine, step, next) = (states[last], steps.last(), states.last());
    if is_start(step) {
    } else {
        law_totals_are_what_was_handed_out(states.drop_last(), steps.drop_last());
        lemma_handed_out_looks_back(states, steps.drop_last());
        lemma_totals_of_a_step(engine, step, next);
    }
}

proof fn lemma_totals_of_a_step(engine: Engine, step: EngineStep, next: Engine)
    requires
        steps_to(engine, step, next),
        !is_start(step),
    ensures
        match step {
            EngineStep::TickEnds { frame, .. } => match engine.frame_outcome(frame) {
                FrameOutcome::Move { dx, dy, .. } => {
                    &&& next.totals.total_dx == engine.totals.total_dx + dx
                    &&& next.totals.total_dy == engine.totals.total_dy + dy
                    &&& next.totals.emit_count == engine.totals.emit_count + 1
                },
                _ => next.totals == engine.totals,
            },
            _ => next.totals == engine.totals,
        },
{
    if let EngineStep::TickEnds { frame, device_present } = step {
        law_what_a_frame_hands_out(engine, frame, device_present, next);
    }
}

/// What the log is told of a message, and whether it calls for motion: each start is told as one,
/// or as a restart where the pointer was coasting; the end of inertia is told with its cause and
/// the totals; and the movement of a finger always calls for motion.
pub proof fn law_what_a_message_leads_to(engine: Engine, message: MomentumMessage)
    ensures
        ({
            let outcome = engine.message_outcome(message);
            let coasting = engine.state == EngineState::PointerMomentum;
            &&& outcome.continued <==> message is ContinuePointer
            &&& outcome.log is None <==> !coasting && !(message is StartPointer)
            &&& outcome.log == Some(EngineDecision::Start) <==> !coasting && message is StartPointer
            &&& outcome.log == Some(EngineDecision::Restart) <==> coasting
                && message is StartPointer
            &&& coasting && message is Stop ==> outcome.log == Some(
                EngineDecision::Stop { reason: StopReason::Message, totals: engine.totals },
            )
            &&& coasting && message is ContinuePointer ==> outcome.log == Some(
                EngineDecision::Stop { reason: StopReason::ContinuedTouch, totals: engine.totals },
            )
        }),
{
}

/// What the first half of a tick leads to: the end of inertia at an edge or when its time is over,
/// told with the totals, and else the time that has passed since the last tick.
pub proof fn law_what_a_tick_finds(engine: Engine, now_ns: u64, position: Option<(i16, i16)>)
    ensures
        ({
            let blocked = meets_edge(engine, position);
            match engine.gate_outcome(now_ns, position) {
                TickGate::Done(EngineDecision::DoneBlocked { totals }) => blocked && totals
                    == engine.totals,
                TickGate::Done(
                    EngineDecision::DoneMaxDuration { elapsed_ms, max_duration_ms, totals },
                ) => {
                    let passed = now_ns - engine.started_ns;
                    &&& !blocked && is_over(engine, now_ns)
                    &&& elapsed_ms * 1_000_000 <= passed < (elapsed_ms + 1) * 1_000_000
                    &&& max_duration_ms == engine.max_duration_ms
                    &&& totals == engine.totals
                },
                TickGate::Coast { dt_ns } => {
                    &&& !blocked && !is_over(engine, now_ns)
                    &&& engine.last_tick_ns <= now_ns ==> engine.last_tick_ns + dt_ns == now_ns
                    &&& engine.last_tick_ns > now_ns ==> dt_ns == 0
                },
                _ => false,
            }
        }),
{
}

/// A frame can be taken as long as the totals with its motion fit their types.
pub proof fn law_which_frames_can_be_taken(engine: Engine, frame: Frame)
    ensures
        engine.has_room(frame) <==> {
            let dx = frame.x_accum.whole_part();
            let dy = frame.y_accum.whole_part();
            ||| is_slow(frame)
            ||| dx == 0 && dy == 0
            ||| {
                &&& engine.totals.emit_count < u64::MAX
                &&& i64::MIN <= engine.totals.total_dx + dx <= i64::MAX
                &&& i64::MIN <= engine.totals.total_dy + dy <= i64::MAX
            }
        },
{
}

/// Motion is emitted as it is, in whatever direction, on the device where there is one; of a
/// continued touch it is emitted where there is any.
pub proof fn law_motion_is_emitted_as_it_is(device_present: bool, dx: i32, dy: i32)
    ensures
        match emission_of(device_present, dx, dy) {
            Emission::Device { dx: x, dy: y } => device_present && x == dx && y == dy,
            Emission::Dry { dx: x, dy: y } => !device_present && x == dx && y == dy,
        },
        continued_emission_of(device_present, dx, dy) is None <==> dx == 0 && dy == 0,
        continued_emission_of(device_present, dx, dy) matches Some(emission) ==> match emission {
            Emission::Device { dx: x, dy: y } => device_present && x == dx && y == dy,
            Emission::Dry { dx: x, dy: y } => !device_present && x == dx && y == dy,
        },
{
}

/// The drag in force is in its range, and is the configured one where that is.
pub proof fn law_drag_is_in_range(drag: Double)
    ensures
        ({
            let least = Double { bits: 0x3f50_624d_d2f1_a9fc };
            let greatest = Double { bits: 0x3fee_6666_6666_6666 };
            let r = drag_in_force(drag);
            &&& drag.nan() ==> r == drag
            &&& !drag.nan() ==> least.value() <= r.value() <= greatest.value()
            &&& !drag.nan() && least.value() <= drag.value() <= greatest.value() ==> r == drag
            &&& !drag.nan() && drag.value() < least.value() ==> r == least
            &&& !drag.nan() && drag.value() > greatest.value() ==> r == greatest
        }),
{
    let least = Double { bits: 0x3f50_624d_d2f1_a9fc };
    let greatest = Double { bits: 0x3fee_6666_6666_6666 };
    lemma_positive_order(least, greatest);
    if !drag.nan() {
        law_clamped_is_in_range(drag, least, greatest);
    }
}

/// An engine begins at rest, with nothing emitted, and with the limit that it was given.
pub proof fn law_fresh_engine(max_duration_ms: u64, now_ns: u64)
    ensures
        ({
            let engine = Engine::fresh(max_duration_ms, now_ns);
            &&& engine.state == EngineState::Idle
            &&& engine.vx.bits == 0 && engine.vy.bits == 0
            &&& engine.x_accum.bits == 0 && engine.y_accum.bits == 0
            &&& engine.totals == Totals { emit_count: 0, total_dx: 0, total_dy: 0 }
            &&& engine.max_duration_ms == max_duration_ms
            &&& engine.last_tick_ns == now_ns && engine.started_ns == now_ns
            &&& !engine.detector.pending_motion && !engine.detector.connected
            &&& engine.at_rest() == engine
        }),
{
}

} // verus!

//! What holds of the momentum engine whatever happens to it.

use crate::double::{law_split_loses_nothing, one_units, Double};
use crate::messages::{EngineStatus, MomentumMessage};
use crate::momentum::{Engine, EngineState, Frame, Totals, NS_PER_MS};
use vstd::prelude::*;

verus! {

/// The state that a report speaks of.
pub open spec fn reported_state(status: EngineStatus) -> EngineState {
    match status {
        EngineStatus::PointerActive => EngineState::PointerMomentum,
        EngineStatus::PointerIdle => EngineState::Idle,
    }
}

/// Anything that an engine goes through.
pub enum EngineStep {
    Message { message: MomentumMessage, now_ns: u64, position: Option<(i16, i16)> },
    /// The first half of a tick, and the second.
    TickBegins { now_ns: u64, position: Option<(i16, i16)> },
    TickEnds { frame: Frame, device_present: bool },
    /// The motion of a continued touch.
    Continued { x_accum: Double, y_accum: Double, motion: (i32, i32) },
}

/// Whether an engine becomes `next` by a step. There are ticks only while the pointer is
/// coasting.
pub open spec fn steps_to(engine: Engine, step: EngineStep, next: Engine) -> bool {
    match step {
        EngineStep::Message { message, now_ns, position } => next == engine.after_message(
            message,
            now_ns,
            position,
        ),
        EngineStep::TickBegins { now_ns, position } => {
            &&& engine.state == EngineState::PointerMomentum
            &&& next == engine.after_gate(now_ns, position)
        },
        EngineStep::TickEnds { frame, device_present } => {
            &&& engine.state == EngineState::PointerMomentum
            &&& engine.has_room(frame)
            &&& engine.advances_to(frame, device_present, next)
        },
        EngineStep::Continued { x_accum, y_accum, motion } => engine.continues_to(
            x_accum,
            y_accum,
            motion,
            next,
        ),
    }
}

/// What the listener hears about a step.
pub open spec fn step_reports(engine: Engine, step: EngineStep) -> Seq<EngineStatus> {
    match step {
        EngineStep::Message { message, .. } => engine.reports(message),
        EngineStep::TickBegins { now_ns, position } => engine.gate_reports(now_ns, position),
        EngineStep::TickEnds { frame, .. } => Engine::frame_reports(frame),
        EngineStep::Continued { .. } => Seq::empty(),
    }
}

/// Whether an engine goes from state to state by a number of steps, from rest on.
pub open spec fn is_run(states: Seq<Engine>, steps: Seq<EngineStep>) -> bool {
    &&& states.len() == steps.len() + 1
    &&& states[0] == states[0].at_rest()
    &&& forall|i: int|
        0 <= i < steps.len() ==> steps_to(states[i], #[trigger] steps[i], states[i + 1])
}

/// What the listener hears about a number of steps.
pub open spec fn run_reports(states: Seq<Engine>, steps: Seq<EngineStep>) -> Seq<EngineStatus>
    decreases steps.len(),
{
    if steps.len() == 0 {
        Seq::empty()
    } else {
        run_reports(states, steps.drop_last()) + step_reports(
            states[steps.len() - 1],
            steps.last(),
        )
    }
}

/// Whether a step is an order to let the pointer coast.
pub open spec fn is_start(step: EngineStep) -> bool {
    step matches EngineStep::Message { message: MomentumMessage::StartPointer { .. }, .. }
}

/// How many of a number of steps are orders to let the pointer coast.
pub open spec fn starts_among(steps: Seq<EngineStep>) -> int
    decreases steps.len(),
{
    if steps.len() == 0 {
        0
    } else {
        starts_among(steps.drop_last()) + if is_start(steps.last()) {
            1int
        } else {
            0
        }
    }
}

/// How many of a number of reports say that the pointer is coasting.
pub open spec fn active_among(reports: Seq<EngineStatus>) -> int
    decreases reports.len(),
{
    if reports.len() == 0 {
        0
    } else {
        active_among(reports.drop_last()) + if reports.last() == EngineStatus::PointerActive {
            1int
        } else {
            0
        }
    }
}

/// The listener is told of every change: a step that leads to no report leaves the pointer
/// coasting or at rest as it was, and otherwise there is one report, which speaks of the
/// new state. An order to let the pointer coast leads to the report that it does, and
/// nothing else does.
pub proof fn law_reports_follow_the_state(engine: Engine, step: EngineStep, next: Engine)
    requires
        steps_to(engine, step, next),
    ensures
        ({
            let reports = step_reports(engine, step);
            &&& reports.len() <= 1
            &&& reports.len() == 0 ==> next.state == engine.state
            &&& reports.len() == 1 ==> reported_state(reports[0]) == next.state
            &&& is_start(step) <==> reports == seq![EngineStatus::PointerActive]
            &&& reports == seq![EngineStatus::PointerIdle] ==> engine.state
                == EngineState::PointerMomentum
        }),
{
    let reports = step_reports(engine, step);
    assert(is_start(step) ==> reports[0] == EngineStatus::PointerActive);
    assert(!is_start(step) && reports.len() > 0 ==> reports[0] == EngineStatus::PointerIdle);
}

/// Whether a sequence of reports is one of a pointer that is let go and comes to rest: the
/// first one says that it is coasting, and each one that says that it came to rest directly
/// follows one that says that it is coasting.
pub open spec fn in_order(reports: Seq<EngineStatus>) -> bool {
    &&& reports.len() > 0 ==> reports[0] == EngineStatus::PointerActive
    &&& forall|i: int, j: int|
        #![trigger reports[i], reports[j]]
        0 <= i && j == i + 1 && j < reports.len() && reports[j] == EngineStatus::PointerIdle
            ==> reports[i] == EngineStatus::PointerActive
}

/// The state that a sequence of reports leaves one to believe in.
pub open spec fn believed_state(reports: Seq<EngineStatus>) -> EngineState {
    if reports.len() == 0 {
        EngineState::Idle
    } else {
        reported_state(reports.last())
    }
}

/// The reports of a run, whatever messages come and whatever the ticks find: they are in
/// order, as many of them say that the pointer is coasting as there were orders to let it
/// coast, and the last one speaks of the state that the engine is in.
pub proof fn law_reports_of_a_run(states: Seq<Engine>, steps: Seq<EngineStep>)
    requires
        is_run(states, steps),
    ensures
        in_order(run_reports(states, steps)),
        active_among(run_reports(states, steps)) == starts_among(steps),
        states.last().state == believed_state(run_reports(states, steps)),
    decreases steps.len(),
{
    if steps.len() > 0 {
        let last = steps.len() - 1;
        lemma_run_without_its_end(states, steps);
        law_reports_of_a_run(states.drop_last(), steps.drop_last());
        law_reports_follow_the_state(states[last], steps[last], states[last + 1]);
        lemma_reports_go_on(
            run_reports(states, steps.drop_last()),
            step_reports(states[last], steps[last]),
        );
    }
}

pub proof fn lemma_run_without_its_end(states: Seq<Engine>, steps: Seq<EngineStep>)
    requires
        is_run(states, steps),
        steps.len() > 0,
    ensures
        is_run(states.drop_last(), steps.drop_last()),
        run_reports(states.drop_last(), steps.drop_last()) == run_reports(
            states,
            steps.drop_last(),
        ),
        steps_to(states[steps.len() - 1], steps.last(), states.last()),
{
    let (states_before, steps_before) = (states.drop_last(), steps.drop_last());
    assert forall|i: int| 0 <= i < steps_before.len() implies steps_to(
        states_before[i],
        #[trigger] steps_before[i],
        states_before[i + 1],
    ) by {
        assert(steps_to(states[i], steps[i], states[i + 1]));
    }
    lemma_reports_look_back(states, steps_before);
    assert(steps[steps.len() - 1] == steps.last());
}

/// The reports of a number of steps do not depend on what the engine becomes by the last.
proof fn lemma_reports_look_back(states: Seq<Engine>, steps: Seq<EngineStep>)
    requires
        steps.len() < states.len(),
    ensures
        run_reports(states.drop_last(), steps) == run_reports(states, steps),
    decreases steps.len(),
{
    if steps.len() > 0 {
        lemma_reports_look_back(states, steps.drop_last());
    }
}

proof fn lemma_reports_go_on(before: Seq<EngineStatus>, now: Seq<EngineStatus>)
    requires
        in_order(before),
        now.len() <= 1,
        now == seq![EngineStatus::PointerIdle] ==> believed_state(before)
            == EngineState::PointerMomentum,
    ensures
        in_order(before + now),
        active_among(before + now) == active_among(before) + if now
            == seq![EngineStatus::PointerActive] {
            1int
        } else {
            0
        },
        now.len() == 0 ==> believed_state(before + now) == believed_state(before),
        now.len() == 1 ==> believed_state(before + now) == reported_state(now[0]),
{
    let reports = before + now;
    if now.len() == 0 {
        assert(reports =~= before);
    } else {
        assert(now =~= seq![now[0]]);
        assert(reports.drop_last() =~= before);
        assert forall|i: int, j: int|
            #![trigger reports[i], reports[j]]
            0 <= i && j == i + 1 && j < reports.len() && reports[j]
                == EngineStatus::PointerIdle implies reports[i]
            == EngineStatus::PointerActive by {
            if j < before.len() {
                assert(before[i] == reports[i] && before[j] == reports[j]);
            }
        }
    }
}

/// Whether a pointer that does not coast has no velocity.
pub open spec fn rests_when_idle(engine: Engine) -> bool {
    engine.state == EngineState::Idle ==> engine.vx == Double::zero() && engine.vy
        == Double::zero()
}

/// A pointer that does not coast has no velocity, whatever steps the engine goes through.
pub proof fn law_idle_pointer_has_no_velocity(states: Seq<Engine>, steps: Seq<EngineStep>, i: int)
    requires
        is_run(states, steps),
        0 <= i < states.len(),
    ensures
        rests_when_idle(states[i]),
    decreases i,
{
    if i > 0 {
        law_idle_pointer_has_no_velocity(states, steps, i - 1);
        assert(steps_to(states[i - 1], steps[i - 1], states[i - 1 + 1]));
    }
}

/// An order to stop leaves the pointer at rest, with no motion kept back.
pub proof fn law_stop_brings_the_pointer_to_rest(
    engine: Engine,
    now_ns: u64,
    position: Option<(i16, i16)>,
)
    requires
        rests_when_idle(engine),
    ensures
        engine.after_message(MomentumMessage::Stop, now_ns, position) == engine.at_rest(),
{
}

/// The movement of a finger ends inertia.
pub proof fn law_continued_touch_ends_inertia(
    engine: Engine,
    dx: i32,
    dy: i32,
    now_ns: u64,
    position: Option<(i16, i16)>,
)
    ensures
        engine.after_message(
            MomentumMessage::ContinuePointer { dx, dy },
            now_ns,
            position,
        ).state == EngineState::Idle,
{
}

/// Every start counts from zero, also one that comes while the pointer is coasting.
pub proof fn law_start_counts_from_zero(
    engine: Engine,
    vx: Double,
    vy: Double,
    now_ns: u64,
    position: Option<(i16, i16)>,
)
    ensures
        ({
            let started = engine.after_message(
                MomentumMessage::StartPointer { vx, vy },
                now_ns,
                position,
            );
            &&& started.state == EngineState::PointerMomentum
            &&& started.vx == vx && started.vy == vy
            &&& started.totals == Totals { emit_count: 0, total_dx: 0, total_dy: 0 }
            &&& started.started_ns == now_ns
        }),
{
}

/// Without a limit on its duration, inertia does not end by its duration.
pub proof fn law_zero_disables_the_limit(engine: Engine, now_ns: u64)
    requires
        engine.max_duration_ms == 0,
    ensures
        !engine.expired(now_ns),
{
}

/// With a limit on its duration, inertia ends with the first tick at the limit.
pub proof fn law_coasting_is_limited(engine: Engine, now_ns: u64, position: Option<(i16, i16)>)
    requires
        engine.max_duration_ms > 0,
        now_ns >= engine.started_ns + engine.max_duration_ms * NS_PER_MS,
    ensures
        engine.after_gate(now_ns, position).state == EngineState::Idle,
{
}

/// The motion of a number of frames.
pub open spec fn motion_sum(frames: Seq<Frame>) -> (int, int)
    decreases frames.len(),
{
    if frames.len() == 0 {
        (0, 0)
    } else {
        let before = motion_sum(frames.drop_last());
        (
            before.0 + frames.last().x_accum.whole_part(),
            before.1 + frames.last().y_accum.whole_part(),
        )
    }
}

/// How many of a number of frames move the pointer.
pub open spec fn moves_among(frames: Seq<Frame>) -> int
    decreases frames.len(),
{
    if frames.len() == 0 {
        0
    } else {
        moves_among(frames.drop_last()) + if Engine::moves(frames.last()) {
            1int
        } else {
            0
        }
    }
}

/// The frames that a number of steps moved the pointer by since it last started to coast.
pub open spec fn frames_since_start(steps: Seq<EngineStep>) -> Seq<Frame>
    decreases steps.len(),
{
    if steps.len() == 0 || is_start(steps.last()) {
        Seq::empty()
    } else {
        match steps.last() {
            EngineStep::TickEnds { frame, .. } if !Engine::too_slow(frame) => frames_since_start(
                steps.drop_last(),
            ).push(frame),
            _ => frames_since_start(steps.drop_last()),
        }
    }
}

proof fn lemma_step_of_totals(engine: Engine, step: EngineStep, next: Engine)
    requires
        steps_to(engine, step, next),
    ensures
        is_start(step) ==> next.totals == (Totals { emit_count: 0, total_dx: 0, total_dy: 0 }),
        !is_start(step) ==> match step {
            EngineStep::TickEnds { frame, .. } if !Engine::too_slow(frame) => {
                let x = frame.x_accum.whole_part();
                let y = frame.y_accum.whole_part();
                &&& next.totals.total_dx == engine.totals.total_dx + x
                &&& next.totals.total_dy == engine.totals.total_dy + y
                &&& next.totals.emit_count == engine.totals.emit_count + if Engine::moves(frame) {
                    1int
                } else {
                    0
                }
            },
            _ => next.totals == engine.totals,
        },
{
}

proof fn lemma_starts_are_counted_up(steps: Seq<EngineStep>)
    ensures
        starts_among(steps) >= 0,
    decreases steps.len(),
{
    if steps.len() > 0 {
        lemma_starts_are_counted_up(steps.drop_last());
    }
}

/// The totals of a run are the sums of what was emitted, and the number of emissions, since
/// the pointer last started to coast, whatever else happened. Before the first start they are
/// as they were.
pub proof fn law_totals_are_sums(states: Seq<Engine>, steps: Seq<EngineStep>)
    requires
        is_run(states, steps),
    ensures
        starts_among(steps) > 0 ==> {
            let frames = frames_since_start(steps);
            let totals = states.last().totals;
            &&& totals.total_dx == motion_sum(frames).0
            &&& totals.total_dy == motion_sum(frames).1
            &&& totals.emit_count == moves_among(frames)
        },
        starts_among(steps) == 0 ==> {
            &&& states.last().totals == states[0].totals
            &&& states.last().state == EngineState::Idle
        },
    decreases steps.len(),
{
    if steps.len() > 0 {
        let last = steps.len() - 1;
        lemma_run_without_its_end(states, steps);
        law_totals_are_sums(states.drop_last(), steps.drop_last());
        law_reports_follow_the_state(states[last], steps[last], states[last + 1]);
        lemma_step_of_totals(states[last], steps[last], states[last + 1]);
        lemma_starts_are_counted_up(steps.drop_last());
        let reports = step_reports(states[last], steps[last]);
        assert(reports.len() == 1 ==> reports =~= seq![reports[0]]);
        let before = frames_since_start(steps.drop_last());
        if let EngineStep::TickEnds { frame, .. } = steps.last() {
            assert(before.push(frame).drop_last() =~= before);
        }
    }
}

/// The sum of a number of shares.
pub open spec fn sum(shares: Seq<int>) -> int
    decreases shares.len(),
{
    if shares.len() == 0 {
        0
    } else {
        sum(shares.drop_last()) + shares.last()
    }
}

/// The sum of a number of emitted motions.
pub open spec fn emitted(wholes: Seq<i32>) -> int
    decreases wholes.len(),
{
    if wholes.len() == 0 {
        0
    } else {
        emitted(wholes.drop_last()) + wholes.last()
    }
}

/// One axis of motion that is handed over in shares: each share is added to what was left
/// over, and the whole units are taken out.
pub open spec fn accumulates(
    shares: Seq<int>,
    accums: Seq<Double>,
    wholes: Seq<i32>,
    rests: Seq<Double>,
) -> bool {
    &&& accums.len() == shares.len()
    &&& wholes.len() == shares.len()
    &&& rests.len() == shares.len()
    &&& forall|i: int|
        #![trigger accums[i]]
        0 <= i < shares.len() ==> {
            &&& accums[i].finite()
            &&& accums[i].value() == shares[i] + if i == 0 {
                0
            } else {
                rests[i - 1].value()
            }
            &&& i32::MIN <= accums[i].whole() <= i32::MAX
            &&& accums[i].splits_into(wholes[i], rests[i])
        }
}

/// Fractions of a unit are not lost: as long as the additions are exact, what was emitted
/// and what is left over add up to what was handed over.
pub proof fn law_fractions_are_preserved(
    shares: Seq<int>,
    accums: Seq<Double>,
    wholes: Seq<i32>,
    rests: Seq<Double>,
)
    requires
        accumulates(shares, accums, wholes, rests),
        shares.len() > 0,
    ensures
        emitted(wholes) * one_units() + rests.last().value() == sum(shares),
    decreases shares.len(),
{
    let n = shares.len() - 1;
    assert(accums[n].finite());
    law_split_loses_nothing(accums[n], wholes[n], rests[n]);
    let one = one_units() as int;
    if n > 0 {
        let (s, a, w, r) = (
            shares.drop_last(),
            accums.drop_last(),
            wholes.drop_last(),
            rests.drop_last(),
        );
        assert forall|i: int| #![trigger a[i]] 0 <= i < s.len() implies {
            &&& a[i].finite()
            &&& a[i].value() == s[i] + if i == 0 {
                0
            } else {
                r[i - 1].value()
            }
            &&& i32::MIN <= a[i].whole() <= i32::MAX
            &&& a[i].splits_into(w[i], r[i])
        } by {
            assert(accums[i].finite());
        }
        law_fractions_are_preserved(s, a, w, r);
        assert((emitted(w) + wholes[n]) * one == emitted(w) * one + wholes[n] * one)
            by (nonlinear_arith);
    } else {
        assert(emitted(wholes.drop_last()) == 0);
        assert(sum(shares.drop_last()) == 0);
    }
}

} // verus!

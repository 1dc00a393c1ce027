//! How each part of the listener's state evolves, and when each action is taken, whatever the
//! rest of the state is.

use crate::decision_log::Decision;
use crate::double::Double;
use crate::input::{class_of, EventClass};
use crate::listener_laws::{
    after, after_all, asked, ends_inertia, inertia_outlasts, is_touch_down, is_touch_up,
    knows_of_inertia, lemma_outlasts_the_inputs_before, lemma_step_of_known_inertia, Input,
};
use crate::messages::{EngineStatus, MomentumMessage};
use crate::motion::Sample;
use crate::touchpad::{
    button_actions, epoch_us, microseconds, timer_actions, GrabAction, GrabReason, ListenerAction,
    ListenerModel, ListenerState, Shared, StartDecision, TouchpadEvent,
};
use vstd::arithmetic::div_mod::{lemma_add_mod_noop, lemma_small_mod};
use vstd::prelude::*;

verus! {

/// The time that an input tells of, in microseconds.
pub open spec fn time_of(input: Input) -> int {
    match input {
        Input::Event(event, _) => event.now_us as int,
        Input::Lift(now_us, _) => now_us as int,
        _ => 0,
    }
}

/// Whether an input is a pressed button.
pub open spec fn is_click(input: Input) -> bool {
    input matches Input::Event(event, _) && class_of(event.event_type, event.code) is Click
        && event.value == 1
}

/// Whether an input is a second finger coming down.
pub open spec fn is_second_finger(input: Input) -> bool {
    input matches Input::Event(event, _) && class_of(event.event_type, event.code)
        == EventClass::MultiTouch && event.value == 1
}

/// The horizontal position that an input reports.
pub open spec fn reported_x(input: Input) -> Option<i32> {
    match input {
        Input::Event(event, _) => if class_of(event.event_type, event.code) == EventClass::AxisX {
            Some(event.value)
        } else {
            None
        },
        _ => None,
    }
}

/// The vertical position that an input reports.
pub open spec fn reported_y(input: Input) -> Option<i32> {
    match input {
        Input::Event(event, _) => if class_of(event.event_type, event.code) == EventClass::AxisY {
            Some(event.value)
        } else {
            None
        },
        _ => None,
    }
}

/// Whether an input is a decision that a lift starts inertia.
pub open spec fn is_launch(input: Input) -> bool {
    input matches Input::Lift(_, decision) && decision is Start
}

/// Whether a finger comes down while inertia is known of.
pub open spec fn meets(m: ListenerModel, input: Input) -> bool {
    is_touch_down(input) && (m.awaiting_stop_touch || (m.grabbed && m.momentum_active))
}

/// Whether a finger comes down too soon after the lift to count.
pub open spec fn bounces(m: ListenerModel, input: Input) -> bool {
    is_touch_down(input) && m.awaiting_stop_touch && time_of(input) < m.stop_armed_after_us
}

/// Whether a finger that comes down begins a retouch.
pub open spec fn begins_retouch(m: ListenerModel, input: Input) -> bool {
    meets(m, input) && !bounces(m, input)
}

/// Whether a finger that comes down begins a touch that moves the pointer.
pub open spec fn begins_move(m: ListenerModel, input: Input) -> bool {
    is_touch_down(input) && !meets(m, input)
}

/// Whether the lift of a finger ends a touch that moved the pointer.
pub open spec fn ends_move(m: ListenerModel, input: Input) -> bool {
    is_touch_up(input) && m.state == ListenerState::OneFingerMove
}

/// Whether the lift of a finger ends a retouch.
pub open spec fn ends_retouch(m: ListenerModel, input: Input) -> bool {
    is_touch_up(input) && m.state == ListenerState::MomentumRetouch
}

/// Whether the present retouch stopped inertia before an input.
pub open spec fn was_stopped(m: ListenerModel, input: Input) -> bool {
    input matches Input::Event(_, shared) && m.current_token != 0 && shared.stopped_token
        == m.current_token
}

/// Whether the present retouch has lasted long enough to stop inertia.
pub open spec fn lasted(m: ListenerModel, input: Input) -> bool {
    m.stop_touch_us == 0 || time_of(input) >= m.retouch_start_us + m.stop_touch_us
}

/// Whether the lift of a retouch finds the pointer at rest or brings it there.
pub open spec fn ends_confirmed(m: ListenerModel, input: Input) -> bool {
    ends_retouch(m, input) && (was_stopped(m, input) || lasted(m, input))
}

/// Whether the lift of a retouch leaves the pointer coasting.
pub open spec fn ends_short(m: ListenerModel, input: Input) -> bool {
    ends_retouch(m, input) && !was_stopped(m, input) && !lasted(m, input)
}

/// Whether an input is a movement that is handed on to the pointer.
pub open spec fn hands_on(m: ListenerModel, input: Input) -> bool {
    &&& m.state == ListenerState::MomentumRetouch
    &&& was_stopped(m, input)
    &&& (reported_x(input) matches Some(x) && x != m.retouch_ptr_x) || (reported_y(
        input,
    ) matches Some(y) && y != m.retouch_ptr_y)
}

/// Whether the way of a retouch finger to a reported position fits its type.
pub open spec fn step_fits(m: ListenerModel, input: Input) -> bool {
    m.state == ListenerState::MomentumRetouch ==> {
        &&& reported_x(input) matches Some(x) ==> i32::MIN <= x - m.retouch_ptr_x <= i32::MAX
        &&& reported_y(input) matches Some(y) ==> i32::MIN <= y - m.retouch_ptr_y <= i32::MAX
    }
}

/// The settings of a listener never change.
pub proof fn law_settings_stay(m: ListenerModel, input: Input)
    ensures
        after(m, input).model.stale_us == m.stale_us,
        after(m, input).model.stop_touch_us == m.stop_touch_us,
{
}

/// What the listener takes the finger for depends on the touches alone: a touch begins as a
/// move or as a retouch, and a lift or a second finger ends it.
pub proof fn law_state_follows_the_touches(m: ListenerModel, input: Input)
    ensures
        after(m, input).model.state == if begins_move(m, input) {
            ListenerState::OneFingerMove
        } else if begins_retouch(m, input) {
            ListenerState::MomentumRetouch
        } else if is_touch_up(input) || is_second_finger(input) {
            ListenerState::Idle
        } else {
            m.state
        },
{
}

/// The position along each axis is the last one that was reported for it.
pub proof fn law_position_is_the_last_reported(m: ListenerModel, input: Input)
    ensures
        after(m, input).model.ptr_x == match reported_x(input) {
            Some(x) => x,
            None => m.ptr_x,
        },
        after(m, input).model.ptr_y == match reported_y(input) {
            Some(y) => y,
            None => m.ptr_y,
        },
{
}

/// A touch begins when its finger comes down, and a click belongs to the touch it came in.
pub proof fn law_touch_start_and_click(m: ListenerModel, input: Input)
    ensures
        after(m, input).model.touch_start_us == if begins_move(m, input) {
            time_of(input)
        } else {
            m.touch_start_us as int
        },
        after(m, input).model.click_seen <==> {
            ||| is_click(input) || is_second_finger(input)
            ||| input is EndOfBatch && m.state == ListenerState::MomentumRetouch
            ||| m.click_seen && !begins_move(m, input)
        },
{
}

/// From a start on a stop touch is waited for, until it came, until inertia ended, or until a
/// stale grab was found; after a retouch that was too short it is waited for again.
pub proof fn law_when_a_touch_is_waited_for(m: ListenerModel, input: Input)
    requires
        is_launch(input) ==> time_of(input) + 200_000 <= u64::MAX,
    ensures
        after(m, input).model.awaiting_stop_touch <==> {
            ||| is_launch(input)
            ||| ends_short(m, input) && m.momentum_active
            ||| {
                &&& m.awaiting_stop_touch
                &&& !begins_retouch(m, input)
                &&& !ends_confirmed(m, input)
                &&& !(input == Input::Status(EngineStatus::PointerIdle) && m.state
                    != ListenerState::MomentumRetouch)
                &&& !(input is StaleGrabCheck && m.grabbed && !m.momentum_active && m.state
                    != ListenerState::MomentumRetouch)
            }
        },
        after(m, input).model.stop_armed_after_us == if is_launch(input) {
            time_of(input) + 200_000
        } else if ends_short(m, input) && m.momentum_active {
            time_of(input)
        } else {
            m.stop_armed_after_us as int
        },
{
}

/// The tokens count on with every retouch that begins and with every one that ends; the
/// present retouch has the token that it began with.
pub proof fn law_tokens_count_on(m: ListenerModel, input: Input)
    requires
        m.active_token < u64::MAX,
    ensures
        after(m, input).model.active_token == m.active_token + if begins_retouch(m, input)
            || ends_retouch(m, input) || is_second_finger(input) {
            1int
        } else {
            0
        },
        after(m, input).model.current_token == if begins_retouch(m, input) {
            m.active_token + 1
        } else if ends_retouch(m, input) || is_second_finger(input) {
            0
        } else {
            m.current_token as int
        },
{
}

/// The end of a retouch takes the largest token to zero.
pub proof fn law_tokens_wrap(m: ListenerModel, input: Input)
    requires
        m.active_token == u64::MAX,
        !begins_retouch(m, input),
    ensures
        after(m, input).model.active_token == if ends_retouch(m, input) || is_second_finger(
            input,
        ) {
            0
        } else {
            u64::MAX
        },
        after(m, input).model.current_token == if ends_retouch(m, input) || is_second_finger(
            input,
        ) {
            0
        } else {
            m.current_token
        },
{
}

/// A retouch begins where and when its finger came down, follows that finger, and counts as
/// handed on from its first such movement to its end.
pub proof fn law_retouch_follows_its_finger(m: ListenerModel, input: Input)
    requires
        step_fits(m, input),
    ensures
        after(m, input).model.retouch_start_us == if begins_retouch(m, input) {
            time_of(input)
        } else {
            m.retouch_start_us as int
        },
        after(m, input).model.retouch_ptr_x == if begins_retouch(m, input) {
            m.ptr_x
        } else {
            match reported_x(input) {
                Some(x) if m.state == ListenerState::MomentumRetouch => x,
                _ => m.retouch_ptr_x,
            }
        },
        after(m, input).model.retouch_ptr_y == if begins_retouch(m, input) {
            m.ptr_y
        } else {
            match reported_y(input) {
                Some(y) if m.state == ListenerState::MomentumRetouch => y,
                _ => m.retouch_ptr_y,
            }
        },
        after(m, input).model.retouch_forwarded <==> {
            ||| hands_on(m, input)
            ||| m.retouch_forwarded && !begins_retouch(m, input) && !ends_retouch(m, input)
                && !is_second_finger(input)
        },
{
}

/// The path of a touch begins with the position where the finger came down. It grows by each
/// position that is reported while the finger moves the pointer, loses its oldest sample for
/// that once it is full, and is left alone by everything else.
pub proof fn law_path_records_the_movement(m: ListenerModel, input: Input)
    requires
        m.pushed < u64::MAX,
        m.path.len() <= 100,
    ensures
        ({
            let next = after(m, input).model;
            let here = Sample { x: next.ptr_x, y: next.ptr_y, ts_us: time_of(input) as u64 };
            let reported = reported_x(input) is Some || reported_y(input) is Some;
            let moves = reported && m.state == ListenerState::OneFingerMove;
            let lost = if m.path.len() == 100 {
                1int
            } else {
                0
            };
            &&& begins_move(m, input) ==> next.path.len() == 1 && next.path[0] == here
                && next.pushed == 1
            &&& moves ==> {
                &&& next.path.len() == m.path.len() + 1 - lost
                &&& next.path[next.path.len() - 1] == here
                &&& forall|i: int|
                    0 <= i < m.path.len() - lost ==> #[trigger] next.path[i] == m.path[i + lost]
                &&& next.pushed == m.pushed + 1
            }
            &&& !begins_move(m, input) && !moves ==> next.path == m.path && next.pushed
                == m.pushed
        }),
{
}

/// The travelled distance is what it was last set to, from zero on with each new touch.
pub proof fn law_distance_is_what_it_was_set_to(m: ListenerModel, input: Input)
    ensures
        after(m, input).model.distance == if begins_move(m, input) {
            Double { bits: 0 }
        } else {
            match input {
                Input::Distance(distance) => distance,
                _ => m.distance,
            }
        },
{
}

/// The pointer is taken to be coasting from a start on, or from a report of the engine on,
/// until the engine reports that it came to rest or a confirmed retouch was lifted.
pub proof fn law_when_the_pointer_is_taken_to_coast(m: ListenerModel, input: Input)
    ensures
        after(m, input).model.momentum_active <==> {
            ||| is_launch(input) || input == Input::Status(EngineStatus::PointerActive)
            ||| m.momentum_active && input != Input::Status(EngineStatus::PointerIdle)
                && !ends_confirmed(m, input)
        },
{
}

/// The touchpad is grabbed if the last grab or release that succeeded was a grab.
pub proof fn law_grabbed_is_the_last_success(m: ListenerModel, input: Input)
    ensures
        after(m, input).model.grabbed == match input {
            Input::GrabFinished(GrabAction::Grab(_), true) => true,
            Input::GrabFinished(GrabAction::Ungrab(_), true) => false,
            _ => m.grabbed,
        },
{
}

/// What is kept for the end of the batch: a grab for each start and a release for each
/// confirmed retouch that was lifted, in the order in which they came.
pub proof fn law_pending_grabs(m: ListenerModel, input: Input)
    ensures
        ({
            let next = after(m, input).model.grabs;
            let n = m.grabs.len() as int;
            &&& is_launch(input) ==> next == m.grabs.push(
                GrabAction::Grab(GrabReason::MomentumStart),
            )
            &&& ends_confirmed(m, input) ==> next == m.grabs.push(
                GrabAction::Ungrab(
                    if was_stopped(m, input) {
                        GrabReason::RetouchReleaseAfterStop
                    } else {
                        GrabReason::RetouchConfirmedOnRelease
                    },
                ),
            )
            &&& input is EndOfBatch ==> next.len() == 0
            &&& !is_launch(input) && !ends_confirmed(m, input) && !(input is EndOfBatch) ==> next
                == m.grabs
        }),
{
}

/// An action, where it is taken.
pub open spec fn when(taken: bool, action: ListenerAction) -> Seq<ListenerAction> {
    if taken {
        seq![action]
    } else {
        Seq::empty()
    }
}

/// The way from where a retouch was to where an input reports it, along each axis.
pub open spec fn way(m: ListenerModel, input: Input) -> (int, int) {
    (
        match reported_x(input) {
            Some(x) => x - m.retouch_ptr_x,
            None => 0,
        },
        match reported_y(input) {
            Some(y) => y - m.retouch_ptr_y,
            None => 0,
        },
    )
}

/// How long a touch that began at `start_us` has lasted at an input.
pub open spec fn lasted_us(start_us: u64, input: Input) -> u64 {
    if time_of(input) > start_us {
        (time_of(input) - start_us) as u64
    } else {
        0
    }
}

/// Whether an input tells of a position while the finger moves the pointer.
pub open spec fn moves(m: ListenerModel, input: Input) -> bool {
    m.state == ListenerState::OneFingerMove && (reported_x(input) is Some || reported_y(
        input,
    ) is Some)
}

/// Whether a click came in the touch that an input ends.
pub open spec fn clicked(m: ListenerModel, input: Input) -> bool {
    m.click_seen || (input matches Input::Event(_, shared) && shared.external_click)
}

/// Whether the lift of a retouch stops inertia.
pub open spec fn stops_on_release(m: ListenerModel, input: Input) -> bool {
    ends_retouch(m, input) && !was_stopped(m, input) && lasted(m, input)
}

/// When the engine hears of an input, and what, whatever the rest of the state is: an order to
/// stop with a click, with a second finger, with a touch that meets no inertia, and with the
/// lift of a retouch that lasted and that no timer confirmed; the way of a finger after its
/// retouch stopped inertia; and a start with the velocity that was decided on.
pub proof fn law_what_the_engine_hears(m: ListenerModel, input: Input, i: int)
    requires
        step_fits(m, input),
        0 <= i < after(m, input).actions.len(),
    ensures
        after(m, input).actions[i] matches ListenerAction::Send(message) ==> match message {
            MomentumMessage::Stop => is_click(input) || is_second_finger(input) || begins_move(
                m,
                input,
            ) || stops_on_release(m, input),
            MomentumMessage::ContinuePointer { dx, dy } => hands_on(m, input) && (dx, dy) == (
                way(m, input).0 as i32,
                way(m, input).1 as i32,
            ),
            MomentumMessage::StartPointer { vx, vy } => input matches Input::Lift(_, decision)
                && decision == (StartDecision::Start { vx, vy }),
        },
{
}

/// What the log is told of an input: why a touch is ignored, taken for a retouch or rejected,
/// and the first movement that is handed on.
pub open spec fn told(m: ListenerModel, input: Input) -> Option<Decision> {
    let duration_us = lasted_us(m.retouch_start_us, input);
    let confirm_us = m.stop_touch_us;
    if bounces(m, input) {
        Some(
            Decision::RetouchTooSoon {
                remaining_us: (m.stop_armed_after_us - time_of(input)) as u64,
            },
        )
    } else if begins_retouch(m, input) {
        let late_by_us = if m.awaiting_stop_touch {
            (time_of(input) - m.stop_armed_after_us) as u64
        } else {
            0
        };
        Some(Decision::RetouchPending { late_by_us, confirm_us })
    } else if ends_retouch(m, input) && was_stopped(m, input) {
        Some(Decision::RetouchReleased { duration_us, confirm_us })
    } else if stops_on_release(m, input) {
        Some(Decision::RetouchStopOnRelease { duration_us, confirm_us })
    } else if ends_retouch(m, input) {
        Some(Decision::RetouchTooShort { duration_us, confirm_us })
    } else if hands_on(m, input) && !m.retouch_forwarded {
        Some(
            Decision::RetouchContinue {
                raw_dx: way(m, input).0 as i32,
                raw_dy: way(m, input).1 as i32,
            },
        )
    } else if ends_move(m, input) && clicked(m, input) {
        Some(
            Decision::RejectClick {
                click_seen: m.click_seen,
                external_click_seen: input matches Input::Event(_, shared)
                    && shared.external_click,
                touch_us: lasted_us(m.touch_start_us, input),
                ring_samples: m.path.len() as usize,
                total_samples: m.pushed,
            },
        )
    } else {
        None
    }
}

/// The square of the way from the last sample of the path to where the finger is now.
pub open spec fn step_to(m: ListenerModel, next: ListenerModel) -> int {
    let from = m.path[m.path.len() - 1];
    (next.ptr_x - from.x) * (next.ptr_x - from.x) + (next.ptr_y - from.y) * (next.ptr_y - from.y)
}

/// The actions that an input calls for, each one where it is due.
pub open spec fn due(m: ListenerModel, input: Input) -> Seq<ListenerAction> {
    let next = after(m, input).model;
    let stop = is_click(input) || is_second_finger(input) || begins_move(m, input)
        || stops_on_release(m, input);
    when(is_click(input), ListenerAction::SetClickInhibit(true)) + when(
        begins_retouch(m, input) || ends_retouch(m, input) || is_second_finger(input),
        ListenerAction::SetActiveToken(next.active_token),
    ) + when(stop, ListenerAction::Send(MomentumMessage::Stop)) + when(
        stops_on_release(m, input),
        ListenerAction::SetStoppedToken(m.current_token),
    ) + when(begins_move(m, input), ListenerAction::SetClickInhibit(false)) + match told(m, input) {
        Some(decision) => seq![ListenerAction::Log(decision)],
        None => Seq::empty(),
    } + when(
        begins_retouch(m, input),
        ListenerAction::ArmTimer { token: next.current_token, delay_us: m.stop_touch_us },
    ) + when(
        hands_on(m, input),
        ListenerAction::Send(
            MomentumMessage::ContinuePointer {
                dx: way(m, input).0 as i32,
                dy: way(m, input).1 as i32,
            },
        ),
    ) + when(ends_move(m, input) && !clicked(m, input), ListenerAction::EvaluateLift) + when(
        moves(m, input) && m.path.len() > 0,
        ListenerAction::ExtendDistance { step_sq: step_to(m, next) as u128 },
    ) + match input {
        Input::Lift(_, StartDecision::Start { vx, vy }) => seq![
            ListenerAction::Send(MomentumMessage::StartPointer { vx, vy }),
        ],
        _ => Seq::empty(),
    }
}

/// Each action is taken exactly when it is due, once, and in a fixed order, whatever the rest of
/// the state is.
pub proof fn law_when_each_action_is_taken(m: ListenerModel, input: Input)
    requires
        step_fits(m, input),
    ensures
        after(m, input).actions == due(m, input),
{
    assert(after(m, input).actions =~= due(m, input));
}

/// The converse of what can start inertia: the lift of every touch that moved the pointer, and in
/// which no click came, is evaluated, whatever the path is; it is the only thing that is done.
pub proof fn law_every_clean_lift_is_evaluated(
    m: ListenerModel,
    event: TouchpadEvent,
    shared: Shared,
)
    requires
        m.state == ListenerState::OneFingerMove,
        !m.click_seen,
        !shared.external_click,
        class_of(event.event_type, event.code) == EventClass::Touch,
        event.value != 1,
    ensures
        m.after_event(event, shared).actions.len() == 1,
        m.after_event(event, shared).actions.contains(ListenerAction::EvaluateLift),
{
    assert(m.after_event(event, shared).actions[0] == ListenerAction::EvaluateLift);
}

/// Every touch that becomes a retouch arms its timer: its token is published first, and the
/// timer waits for that token and for as long as a touch has to last.
pub proof fn law_retouch_arms_its_timer(m: ListenerModel, input: Input)
    requires
        is_touch_down(input),
        after(m, input).model.state == ListenerState::MomentumRetouch,
        m.state != ListenerState::MomentumRetouch || after(m, input).model.active_token
            != m.active_token,
    ensures
        ({
            let actions = after(m, input).actions;
            let token = after(m, input).model.current_token;
            exists|i: int, j: int|
                {
                    &&& 0 <= i < j < actions.len()
                    &&& #[trigger] actions[i] == ListenerAction::SetActiveToken(token)
                    &&& #[trigger] actions[j] == ListenerAction::ArmTimer {
                        token,
                        delay_us: m.stop_touch_us,
                    }
                }
        }),
        after(m, input).model.active_token == after(m, input).model.current_token,
        after(m, input).model.retouch_start_us == time_of(input),
{
    let actions = after(m, input).actions;
    let token = after(m, input).model.current_token;
    assert(actions[0] == ListenerAction::SetActiveToken(token));
    assert(actions[2] == (ListenerAction::ArmTimer { token, delay_us: m.stop_touch_us }));
}

/// Whether a finger stays as it is over an input: no finger comes down and none is lifted.
pub open spec fn finger_stays(input: Input) -> bool {
    !is_touch_down(input) && !is_touch_up(input) && !is_second_finger(input)
}

/// The published token stays that of a retouch as long as its finger stays down.
proof fn lemma_token_of_a_held_finger(m: ListenerModel, inputs: Seq<Input>)
    requires
        m.state == ListenerState::MomentumRetouch,
        forall|n: int| 0 <= n < inputs.len() ==> finger_stays(#[trigger] inputs[n]),
    ensures
        after_all(m, inputs).active_token == m.active_token,
        after_all(m, inputs).state == ListenerState::MomentumRetouch,
    decreases inputs.len(),
{
    if inputs.len() > 0 {
        let before = inputs.drop_last();
        assert forall|n: int| 0 <= n < before.len() implies finger_stays(#[trigger] before[n]) by {
            assert(finger_stays(inputs[n]));
        }
        lemma_token_of_a_held_finger(m, before);
        assert(finger_stays(inputs[inputs.len() - 1]));
        lemma_step_of_a_held_finger(after_all(m, before), inputs.last());
    }
}

proof fn lemma_step_of_a_held_finger(m: ListenerModel, input: Input)
    requires
        m.state == ListenerState::MomentumRetouch,
        finger_stays(input),
    ensures
        after(m, input).model.active_token == m.active_token,
        after(m, input).model.state == ListenerState::MomentumRetouch,
{
}

/// A finger that is held on a coasting pointer stops it: as long as it stays down, whatever else
/// happens, the timer that it armed finds its token and orders the stop.
pub proof fn law_held_finger_stops_the_pointer(m: ListenerModel, down: Input, inputs: Seq<Input>)
    requires
        begins_retouch(m, down),
        forall|n: int| 0 <= n < inputs.len() ==> finger_stays(#[trigger] inputs[n]),
    ensures
        ({
            let retouch = after(m, down);
            let token = retouch.model.current_token;
            let timer = ListenerAction::ArmTimer { token, delay_us: m.stop_touch_us };
            let fired = timer_actions(
                after_all(retouch.model, inputs).active_token,
                token,
                m.stop_touch_us,
            );
            &&& retouch.actions.contains(timer)
            &&& fired.contains(ListenerAction::Send(MomentumMessage::Stop))
            &&& fired.contains(ListenerAction::SetStoppedToken(token))
        }),
{
    let retouch = after(m, down).model;
    law_state_follows_the_touches(m, down);
    assert(retouch.active_token == retouch.current_token);
    assert(after(m, down).actions[2] == (ListenerAction::ArmTimer {
        token: retouch.current_token,
        delay_us: m.stop_touch_us,
    }));
    lemma_token_of_a_held_finger(retouch, inputs);
    law_timer_stops_its_own_retouch(retouch.active_token, retouch.current_token, m.stop_touch_us);
}

/// A timer stops the pointer, publishes the token that it waited for and tells the log, if and
/// only if that is the token of the present retouch.
pub proof fn law_timer_stops_its_own_retouch(active_token: u64, token: u64, stop_touch_us: u64)
    ensures
        ({
            let actions = timer_actions(active_token, token, stop_touch_us);
            &&& active_token != token ==> actions.len() == 0
            &&& active_token == token ==> {
                &&& actions.len() == 3
                &&& actions[0] == ListenerAction::Send(MomentumMessage::Stop)
                &&& actions[1] == ListenerAction::SetStoppedToken(token)
                &&& actions[2] == ListenerAction::Log(
                    Decision::RetouchStopByTimer { confirm_us: stop_touch_us },
                )
                &&& actions.contains(ListenerAction::Send(MomentumMessage::Stop))
                &&& actions.contains(ListenerAction::SetStoppedToken(token))
            }
        }),
{
    let actions = timer_actions(active_token, token, stop_touch_us);
    if active_token == token {
        assert(actions[0] == ListenerAction::Send(MomentumMessage::Stop));
        assert(actions[1] == ListenerAction::SetStoppedToken(token));
    }
}

/// On the separate button node, every pressed button, and nothing else, keeps the present touch
/// from starting inertia, stops the inertia there is, and is told to the log.
pub proof fn law_button_node_stops_inertia(event_type: u16, code: u16, value: i32)
    ensures
        ({
            let actions = button_actions(event_type, code, value);
            let is_button = event_type == 1 && 0x110 <= code <= 0x112;
            &&& is_button && value == 1 ==> {
                &&& actions.len() == 3
                &&& actions[0] == ListenerAction::SetClickInhibit(true)
                &&& actions[1] == ListenerAction::Send(MomentumMessage::Stop)
                &&& actions[2] matches ListenerAction::Log(Decision::ButtonClick { button })
                    && class_of(event_type, code) == EventClass::Click(button)
            }
            &&& !is_button || value != 1 ==> actions.len() == 0
        }),
{
}

/// Every start adds a grab to what the next end of a batch asks for, whatever the path is and
/// whatever comes between.
pub proof fn law_start_asks_for_a_grab(m: ListenerModel, start: Input, inputs: Seq<Input>)
    requires
        is_launch(start),
        forall|n: int| 0 <= n < inputs.len() ==> !(#[trigger] inputs[n] is EndOfBatch),
    ensures
        asked(after_all(after(m, start).model, inputs), Input::EndOfBatch).contains(
            GrabAction::Grab(GrabReason::MomentumStart),
        ),
{
    let started = after(m, start).model;
    let at = m.grabs.len() as int;
    assert(started.grabs[at] == GrabAction::Grab(GrabReason::MomentumStart));
    lemma_pending_stays(started, inputs, at);
    let grabs = after_all(started, inputs).grabs;
    assert(grabs[at] == GrabAction::Grab(GrabReason::MomentumStart));
}

proof fn lemma_step_of_pending(m: ListenerModel, input: Input, at: int)
    requires
        0 <= at < m.grabs.len(),
        !(input is EndOfBatch),
    ensures
        at < after(m, input).model.grabs.len(),
        after(m, input).model.grabs[at] == m.grabs[at],
{
    law_pending_grabs(m, input);
}

/// What is kept for the end of the batch is kept until then.
proof fn lemma_pending_stays(m: ListenerModel, inputs: Seq<Input>, at: int)
    requires
        0 <= at < m.grabs.len(),
        forall|n: int| 0 <= n < inputs.len() ==> !(#[trigger] inputs[n] is EndOfBatch),
    ensures
        at < after_all(m, inputs).grabs.len(),
        after_all(m, inputs).grabs[at] == m.grabs[at],
    decreases inputs.len(),
{
    if inputs.len() > 0 {
        let before = inputs.drop_last();
        assert forall|n: int| 0 <= n < before.len() implies !(#[trigger] before[n] is EndOfBatch) by {
            assert(!(inputs[n] is EndOfBatch));
        }
        lemma_pending_stays(m, before, at);
        assert(!(inputs[inputs.len() - 1] is EndOfBatch));
        lemma_step_of_pending(after_all(m, before), inputs.last(), at);
    }
}

/// Whether there is no release among a number of grabs and releases.
pub open spec fn no_release(actions: Seq<GrabAction>) -> bool {
    forall|i: int| 0 <= i < actions.len() ==> #[trigger] actions[i] is Grab
}

/// As long as inertia lasts that a listener knows of, no release of the touchpad is asked for,
/// whatever happens, so that a touchpad that was grabbed stays grabbed.
pub proof fn law_touchpad_stays_grabbed(m: ListenerModel, inputs: Seq<Input>, next: Input)
    requires
        knows_of_inertia(m),
        no_release(m.grabs),
        inertia_outlasts(m, inputs),
        !ends_inertia(after_all(m, inputs), next),
    ensures
        no_release(asked(after_all(m, inputs), next)),
        m.grabbed && (forall|n: int|
            0 <= n < inputs.len() ==> !(#[trigger] inputs[n] matches Input::GrabFinished(
                GrabAction::Ungrab(_),
                true,
            ))) ==> after_all(m, inputs).grabbed,
{
    lemma_no_release_while_inertia_lasts(m, inputs);
    if m.grabbed && (forall|n: int|
        0 <= n < inputs.len() ==> !(#[trigger] inputs[n] matches Input::GrabFinished(
            GrabAction::Ungrab(_),
            true,
        ))) {
        lemma_grab_is_kept(m, inputs);
    }
}

proof fn lemma_grab_is_kept(m: ListenerModel, inputs: Seq<Input>)
    requires
        m.grabbed,
        forall|n: int|
            0 <= n < inputs.len() ==> !(#[trigger] inputs[n] matches Input::GrabFinished(
                GrabAction::Ungrab(_),
                true,
            )),
    ensures
        after_all(m, inputs).grabbed,
    decreases inputs.len(),
{
    if inputs.len() > 0 {
        let before = inputs.drop_last();
        assert forall|n: int| 0 <= n < before.len() implies !(
        #[trigger] before[n] matches Input::GrabFinished(GrabAction::Ungrab(_), true)) by {
            assert(before[n] == inputs[n]);
        }
        lemma_grab_is_kept(m, before);
        law_grabbed_is_the_last_success(after_all(m, before), inputs.last());
        assert(inputs[inputs.len() - 1] == inputs.last());
    }
}

proof fn lemma_step_without_release(m: ListenerModel, input: Input)
    requires
        knows_of_inertia(m),
        no_release(m.grabs),
        !ends_inertia(m, input),
    ensures
        no_release(after(m, input).model.grabs),
{
    let actions = after(m, input).actions;
    let stop = ListenerAction::Send(MomentumMessage::Stop);
    assert(actions.len() > 1 && actions[1] == stop ==> actions.contains(stop));
    law_pending_grabs(m, input);
}

proof fn lemma_no_release_while_inertia_lasts(m: ListenerModel, inputs: Seq<Input>)
    requires
        knows_of_inertia(m),
        no_release(m.grabs),
        inertia_outlasts(m, inputs),
    ensures
        knows_of_inertia(after_all(m, inputs)),
        no_release(after_all(m, inputs).grabs),
    decreases inputs.len(),
{
    if inputs.len() > 0 {
        let before = inputs.drop_last();
        lemma_outlasts_the_inputs_before(m, inputs);
        lemma_no_release_while_inertia_lasts(m, before);
        lemma_step_of_known_inertia(after_all(m, before), inputs.last());
        lemma_step_without_release(after_all(m, before), inputs.last());
    }
}

/// What a listener asks for, and when: at the end of a batch what was kept for it; a release when
/// the engine reports rest while no retouch is under way; and a release when a check finds the
/// touchpad grabbed without a coasting pointer or a retouch.
pub proof fn law_what_is_asked_for(m: ListenerModel, input: Input)
    ensures
        ({
            let actions = asked(m, input);
            let retouch = m.state == ListenerState::MomentumRetouch;
            let idle = input == Input::Status(EngineStatus::PointerIdle) && !retouch;
            let stale = input is StaleGrabCheck && m.grabbed && !m.momentum_active && !retouch;
            &&& input is EndOfBatch ==> actions == m.grabs
            &&& idle ==> actions.len() == 1 && actions[0] == GrabAction::Ungrab(
                GrabReason::EngineIdle,
            )
            &&& stale ==> actions.len() == 1 && actions[0] == GrabAction::Ungrab(
                GrabReason::InactiveListenerState,
            )
            &&& !(input is EndOfBatch) && !idle && !stale ==> actions.len() == 0
        }),
        forall|reason: GrabReason| #[trigger]
            m.wants(GrabAction::Grab(reason)) <==> !m.grabbed,
        forall|reason: GrabReason| #[trigger]
            m.wants(GrabAction::Ungrab(reason)) <==> m.grabbed,
{
}

/// Every event can be handled but for those whose numbers would not fit: a step of a retouch
/// finger, the count of a path's samples, and the token of a new retouch.
pub proof fn law_what_can_be_handled(m: ListenerModel, event: TouchpadEvent, shared: Shared)
    ensures
        ({
            let input = Input::Event(event, shared);
            m.has_room(event) <==> {
                &&& step_fits(m, input)
                &&& moves(m, input) ==> m.pushed < u64::MAX
                &&& begins_retouch(m, input) ==> m.active_token < u64::MAX
            }
        }),
{
}

/// A click of the button node is used up by the lift of a touch that moved the pointer, and by
/// nothing else.
pub proof fn law_who_takes_the_click(m: ListenerModel, event: TouchpadEvent, shared: Shared)
    ensures
        m.takes_click(event) <==> ends_move(m, Input::Event(event, shared)),
{
}

/// A listener starts with no finger down, nothing seen and nothing known of inertia.
pub proof fn law_fresh_listener_knows_nothing(stale_us: u64, stop_touch_us: u64)
    ensures
        ({
            let m = ListenerModel::fresh(stale_us, stop_touch_us);
            &&& m.stale_us == stale_us && m.stop_touch_us == stop_touch_us
            &&& m.state == ListenerState::Idle
            &&& m.ptr_x == 0 && m.ptr_y == 0
            &&& m.path.len() == 0 && m.pushed == 0 && m.distance == (Double { bits: 0 })
            &&& !m.click_seen && !m.awaiting_stop_touch && !m.retouch_forwarded
            &&& !m.grabbed && !m.momentum_active && m.grabs.len() == 0
            &&& m.active_token == 0 && m.current_token == 0
            &&& m.touch_start_us == 0 && m.stop_armed_after_us == 0
            &&& m.retouch_start_us == 0 && m.retouch_ptr_x == 0 && m.retouch_ptr_y == 0
        }),
{
}

/// A thousand microseconds make a millisecond, as far as the number fits.
pub proof fn law_microseconds(ms: u64, more: u64)
    ensures
        1000 * ms <= u64::MAX ==> microseconds(ms) == 1000 * ms,
        1000 * ms > u64::MAX ==> microseconds(ms) == u64::MAX,
        ms <= more ==> microseconds(ms) <= microseconds(more),
{
}

/// A time is counted in whole microseconds since the epoch, and a second is a million of them,
/// around the end of the number range.
pub proof fn law_epoch_microseconds(secs: u64, nanos: u32)
    ensures
        epoch_us(None) == 0,
        epoch_us(Some((0, nanos))) * 1000 <= nanos < (epoch_us(Some((0, nanos))) + 1) * 1000,
        secs < u64::MAX ==> epoch_us(Some(((secs + 1) as u64, nanos))) == (epoch_us(
            Some((secs, nanos)),
        ) + 1_000_000) % 0x1_0000_0000_0000_0000,
{
    let range: int = 0x1_0000_0000_0000_0000;
    let us: int = secs * 1_000_000 + nanos / 1000;
    lemma_small_mod((nanos / 1000) as nat, range as nat);
    lemma_small_mod(1_000_000, range as nat);
    lemma_add_mod_noop(us, 1_000_000, range);
}

} // verus!

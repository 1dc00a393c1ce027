//! What holds of the touchpad listener whatever happens to it.

use crate::double::Double;
use crate::input::{class_of, EventClass};
use crate::messages::{EngineStatus, MomentumMessage};
use crate::motion::{elapsed, has_release_velocity, trim_of, RING_SIZE};
use crate::touchpad::{
    stopped, GrabAction, GrabReason, LiftNumbers, ListenerAction, ListenerModel, ListenerState,
    Shared, StartDecision, Step, TouchpadEvent, MIN_MOTION_DISTANCE, MIN_TOUCH_US,
    RETOUCH_ARM_DELAY_US,
};
use vstd::prelude::*;

verus! {

/// Anything that a listener is told.
pub enum Input {
    Event(TouchpadEvent, Shared),
    Distance(Double),
    Lift(u64, StartDecision),
    Status(EngineStatus),
    EndOfBatch,
    StaleGrabCheck,
    GrabFinished(GrabAction, bool),
}

/// What a listener does when it is told something.
pub open spec fn after(m: ListenerModel, input: Input) -> Step {
    let quiet = |model: ListenerModel| Step { model, actions: Seq::empty() };
    match input {
        Input::Event(event, shared) => m.after_event(event, shared),
        Input::Distance(distance) => quiet(ListenerModel { distance, ..m }),
        Input::Lift(now_us, decision) => m.after_lift(now_us, decision),
        Input::Status(status) => quiet(m.after_status(status)),
        Input::EndOfBatch => quiet(m.after_batch_end()),
        Input::StaleGrabCheck => quiet(m.after_check()),
        Input::GrabFinished(action, succeeded) => quiet(m.after_grab(action, succeeded)),
    }
}

/// The grabs and releases that a listener asks for when it is told something.
pub open spec fn asked(m: ListenerModel, input: Input) -> Seq<GrabAction> {
    let release = match input {
        Input::Status(status) => m.release_on_status(status),
        Input::StaleGrabCheck => m.release_on_check(),
        _ => None,
    };
    match (input, release) {
        (Input::EndOfBatch, _) => m.grabs,
        (_, Some(action)) => seq![action],
        (_, None) => Seq::empty(),
    }
}

/// The state after a number of inputs.
pub open spec fn after_all(m: ListenerModel, inputs: Seq<Input>) -> ListenerModel
    decreases inputs.len(),
{
    if inputs.len() == 0 {
        m
    } else {
        after(after_all(m, inputs.drop_last()), inputs.last()).model
    }
}

/// Whether an input is a finger coming down.
pub open spec fn is_touch_down(input: Input) -> bool {
    match input {
        Input::Event(event, _) => class_of(event.event_type, event.code) == EventClass::Touch
            && event.value == 1,
        _ => false,
    }
}

/// Whether the engine hears nothing.
pub open spec fn silent(actions: Seq<ListenerAction>) -> bool {
    forall|i: int| 0 <= i < actions.len() ==> !(#[trigger] actions[i] is Send)
}

/// What holds of every reachable state: the path is no longer than the ring, a touch
/// that moves the pointer has a path, and a retouch has a token of its own.
pub open spec fn sane(m: ListenerModel) -> bool {
    &&& m.path.len() <= RING_SIZE
    &&& m.state == ListenerState::OneFingerMove ==> m.path.len() > 0
    &&& m.state == ListenerState::MomentumRetouch ==> m.current_token == m.active_token
        && m.current_token != 0
}

/// Whether an input has room.
pub open spec fn fits(m: ListenerModel, input: Input) -> bool {
    match input {
        Input::Event(event, _) => m.has_room(event),
        Input::Lift(now_us, StartDecision::Start { .. }) => now_us + RETOUCH_ARM_DELAY_US
            <= u64::MAX,
        _ => true,
    }
}

/// Every state that a listener can get into is sane.
pub proof fn law_every_state_is_sane(stale_us: u64, stop_touch_us: u64, inputs: Seq<Input>)
    requires
        forall|n: int|
            0 <= n < inputs.len() ==> fits(
                #[trigger] after_all(
                    ListenerModel::fresh(stale_us, stop_touch_us),
                    inputs.take(n),
                ),
                inputs[n],
            ),
    ensures
        sane(after_all(ListenerModel::fresh(stale_us, stop_touch_us), inputs)),
    decreases inputs.len(),
{
    let fresh = ListenerModel::fresh(stale_us, stop_touch_us);
    if inputs.len() > 0 {
        let before = inputs.drop_last();
        assert forall|n: int| 0 <= n < before.len() implies fits(
            #[trigger] after_all(fresh, before.take(n)),
            before[n],
        ) by {
            assert(before.take(n) =~= inputs.take(n));
            assert(fits(after_all(fresh, inputs.take(n)), inputs[n]));
        }
        law_every_state_is_sane(stale_us, stop_touch_us, before);
        assert(inputs.take(before.len() as int) =~= before);
        assert(fits(after_all(fresh, before), inputs[before.len() as int]));
    }
}

/// A pressed button stops inertia, in every state.
pub proof fn law_click_stops_inertia(m: ListenerModel, event: TouchpadEvent, shared: Shared)
    requires
        class_of(event.event_type, event.code) is Click,
        event.value == 1,
    ensures
        m.after_event(event, shared).actions.contains(ListenerAction::Send(MomentumMessage::Stop)),
        m.after_event(event, shared).model.click_seen,
{
    let actions = m.after_event(event, shared).actions;
    assert(actions[1] == ListenerAction::Send(MomentumMessage::Stop));
}

/// A second finger stops inertia, in every state, and ends a touch that was under way.
pub proof fn law_multitouch_stops_inertia(m: ListenerModel, event: TouchpadEvent, shared: Shared)
    requires
        class_of(event.event_type, event.code) == EventClass::MultiTouch,
        event.value == 1,
    ensures
        m.after_event(event, shared).actions.contains(ListenerAction::Send(MomentumMessage::Stop)),
        m.after_event(event, shared).model.click_seen,
        m.after_event(event, shared).model.state == ListenerState::Idle,
{
    let actions = m.after_event(event, shared).actions;
    assert(actions[1] == ListenerAction::Send(MomentumMessage::Stop));
}

/// A finger that comes down while no inertia is known of ends whatever inertia there
/// may be and starts a path of its own.
pub proof fn law_new_touch_starts_afresh(m: ListenerModel, event: TouchpadEvent, shared: Shared)
    requires
        is_touch_down(Input::Event(event, shared)),
        !m.meets_momentum(),
    ensures
        m.after_event(event, shared).actions.contains(ListenerAction::Send(MomentumMessage::Stop)),
        m.after_event(event, shared).model.state == ListenerState::OneFingerMove,
        m.after_event(event, shared).model.path.len() == 1,
        !m.after_event(event, shared).model.click_seen,
{
    let actions = m.after_event(event, shared).actions;
    assert(actions[0] == ListenerAction::Send(MomentumMessage::Stop));
}

/// Only the lift of a one-finger touch without a click can start inertia; no finger is taken
/// to be down then.
pub proof fn law_only_a_clean_lift_is_evaluated(m: ListenerModel, input: Input)
    requires
        after(m, input).actions.contains(ListenerAction::EvaluateLift),
    ensures
        m.state == ListenerState::OneFingerMove,
        !m.click_seen,
        input matches Input::Event(event, shared) && !shared.external_click && event.value != 1
            && class_of(event.event_type, event.code) == EventClass::Touch,
        after(m, input).model.state == ListenerState::Idle,
{
    let actions = after(m, input).actions;
    let i = choose|i: int| 0 <= i < actions.len() && actions[i] == ListenerAction::EvaluateLift;
    assert(actions[i] == ListenerAction::EvaluateLift);
}

/// Once a click was seen, no lift is evaluated until a finger comes down anew, whatever
/// happens in between.
pub proof fn law_click_suppresses_inertia(m: ListenerModel, inputs: Seq<Input>, next: Input)
    requires
        m.click_seen,
        forall|i: int| 0 <= i < inputs.len() ==> !is_touch_down(#[trigger] inputs[i]),
    ensures
        after_all(m, inputs).click_seen,
        !after(after_all(m, inputs), next).actions.contains(ListenerAction::EvaluateLift),
    decreases inputs.len(),
{
    if inputs.len() > 0 {
        let before = inputs.drop_last();
        assert forall|i: int| 0 <= i < before.len() implies !is_touch_down(
            #[trigger] before[i],
        ) by {
            assert(before[i] == inputs[i]);
        }
        law_click_suppresses_inertia(m, before, next);
        assert(!is_touch_down(inputs[inputs.len() - 1]));
    }
    if after(after_all(m, inputs), next).actions.contains(ListenerAction::EvaluateLift) {
        law_only_a_clean_lift_is_evaluated(after_all(m, inputs), next);
    }
}

/// A lift starts inertia if and only if the touch was long enough, the path was long
/// enough and has a release velocity, and the velocity over the fresh part of its last
/// window (or, where the tail belongs to the lifting of the finger, of the window before
/// it) is high enough.
pub proof fn law_start_criteria(m: ListenerModel, now_us: u64, numbers: LiftNumbers)
    ensures
        ({
            let trimmed = trim_of(numbers.speeds, numbers.min_velocity) is Some;
            let velocity = if trimmed {
                numbers.before_tail
            } else {
                numbers.last
            };
            m.lift_decision(now_us, numbers) is Start <==> {
                &&& elapsed(m.touch_start_us as int, now_us as int) >= MIN_TOUCH_US
                &&& !m.distance.below(Double { bits: MIN_MOTION_DISTANCE })
                &&& has_release_velocity(m.path, now_us, m.stale_us, trimmed)
                &&& !velocity.speed.below(numbers.min_velocity)
            }
        }),
{
}

/// Whether a listener orders the engine to stop when it is told something.
pub open spec fn orders_stop(m: ListenerModel, input: Input) -> bool {
    after(m, input).actions.contains(ListenerAction::Send(MomentumMessage::Stop))
}

/// Whether an input is the lift of a finger.
pub open spec fn is_touch_up(input: Input) -> bool {
    match input {
        Input::Event(event, _) => class_of(event.event_type, event.code) == EventClass::Touch
            && event.value != 1,
        _ => false,
    }
}

/// Nothing but these orders a stop: a pressed button, a second finger, a finger that comes
/// down while no inertia is known of, and the lift of a retouch that lasted long enough and
/// that no timer confirmed before.
pub proof fn law_what_orders_a_stop(m: ListenerModel, input: Input)
    requires
        orders_stop(m, input),
    ensures
        input matches Input::Event(event, shared) && {
            let class = class_of(event.event_type, event.code);
            ||| class is Click && event.value == 1
            ||| class == EventClass::MultiTouch && event.value == 1
            ||| is_touch_down(input) && !m.meets_momentum()
            ||| {
                &&& is_touch_up(input)
                &&& m.state == ListenerState::MomentumRetouch
                &&& !stopped(m.current_token, shared.stopped_token)
                &&& elapsed(m.retouch_start_us as int, event.now_us as int) >= m.stop_touch_us
            }
        },
{
    let actions = after(m, input).actions;
    let stop = ListenerAction::Send(MomentumMessage::Stop);
    let i = choose|i: int| 0 <= i < actions.len() && actions[i] == stop;
    assert(actions[i] == stop);
}

/// Whether an input tells of the end of inertia or brings it about: a report that the pointer
/// came to rest, an order to stop, or the lift of a retouch that stopped the pointer already.
pub open spec fn ends_inertia(m: ListenerModel, input: Input) -> bool {
    ||| input == Input::Status(EngineStatus::PointerIdle)
    ||| orders_stop(m, input)
    ||| input matches Input::Event(_, shared) && is_touch_up(input) && m.state
        == ListenerState::MomentumRetouch && stopped(m.current_token, shared.stopped_token)
}

/// Whether inertia outlasts a number of inputs.
pub open spec fn inertia_outlasts(m: ListenerModel, inputs: Seq<Input>) -> bool {
    forall|n: int|
        0 <= n < inputs.len() ==> !ends_inertia(
            after_all(m, inputs.take(n)),
            #[trigger] inputs[n],
        )
}

/// Whether a listener knows of inertia: it takes the pointer to be coasting, and either a
/// finger that met it is down or the next one is waited for.
pub open spec fn knows_of_inertia(m: ListenerModel) -> bool {
    &&& m.momentum_active
    &&& m.state == ListenerState::MomentumRetouch || m.state == ListenerState::Idle
        && m.awaiting_stop_touch
}

pub proof fn lemma_step_of_known_inertia(m: ListenerModel, input: Input)
    requires
        knows_of_inertia(m),
        !ends_inertia(m, input),
    ensures
        knows_of_inertia(after(m, input).model),
{
    let actions = after(m, input).actions;
    let stop = ListenerAction::Send(MomentumMessage::Stop);
    assert(actions.len() > 0 && actions[0] == stop ==> orders_stop(m, input));
    assert(actions.len() > 1 && actions[1] == stop ==> orders_stop(m, input));
}

pub proof fn lemma_outlasts_the_inputs_before(m: ListenerModel, inputs: Seq<Input>)
    requires
        inertia_outlasts(m, inputs),
        inputs.len() > 0,
    ensures
        inertia_outlasts(m, inputs.drop_last()),
        !ends_inertia(after_all(m, inputs.drop_last()), inputs.last()),
{
    let before = inputs.drop_last();
    assert forall|n: int| 0 <= n < before.len() implies !ends_inertia(
        after_all(m, before.take(n)),
        #[trigger] before[n],
    ) by {
        assert(before[n] == inputs[n]);
        assert(before.take(n) =~= inputs.take(n));
    }
    let last = inputs.len() - 1;
    assert(inputs.take(last) =~= before);
    assert(!ends_inertia(after_all(m, inputs.take(last)), inputs[last]));
}

/// A listener knows of the inertia that it started until that ends, whatever happens in
/// between.
pub proof fn law_inertia_is_not_forgotten(
    m: ListenerModel,
    lift_us: u64,
    decision: StartDecision,
    inputs: Seq<Input>,
)
    requires
        decision is Start,
        m.state == ListenerState::Idle,
        inertia_outlasts(m.after_lift(lift_us, decision).model, inputs),
    ensures
        ({
            let now = after_all(m.after_lift(lift_us, decision).model, inputs);
            &&& now.momentum_active
            &&& now.state == ListenerState::MomentumRetouch || now.state == ListenerState::Idle
                && now.awaiting_stop_touch
        }),
    decreases inputs.len(),
{
    let coasting = m.after_lift(lift_us, decision).model;
    if inputs.len() > 0 {
        lemma_outlasts_the_inputs_before(coasting, inputs);
        law_inertia_is_not_forgotten(m, lift_us, decision, inputs.drop_last());
        lemma_step_of_known_inertia(after_all(coasting, inputs.drop_last()), inputs.last());
    }
}

/// While inertia lasts that a listener started, whatever happened since, a finger that comes
/// down where none is down does not stop it: the engine hears nothing, the pointer is still
/// taken to be coasting, and the touch starts no path of its own.
pub proof fn law_coasting_outlasts_a_touch(
    m: ListenerModel,
    lift_us: u64,
    decision: StartDecision,
    inputs: Seq<Input>,
    event: TouchpadEvent,
    shared: Shared,
)
    requires
        decision is Start,
        m.state == ListenerState::Idle,
        inertia_outlasts(m.after_lift(lift_us, decision).model, inputs),
        is_touch_down(Input::Event(event, shared)),
        after_all(m.after_lift(lift_us, decision).model, inputs).state == ListenerState::Idle,
    ensures
        ({
            let now = after_all(m.after_lift(lift_us, decision).model, inputs);
            let step = now.after_event(event, shared);
            &&& silent(step.actions)
            &&& step.model.momentum_active
            &&& step.model.state != ListenerState::OneFingerMove
        }),
{
    law_inertia_is_not_forgotten(m, lift_us, decision, inputs);
    law_retouch_alone_stops_nothing(
        after_all(m.after_lift(lift_us, decision).model, inputs),
        event,
        shared,
    );
}

/// Whether an input leaves the wait for a touch that counts from `armed_us` on as it is: it
/// is neither such a touch nor a further start.
pub open spec fn leaves_waiting(input: Input, armed_us: u64) -> bool {
    match input {
        Input::Event(event, _) => is_touch_down(input) ==> event.now_us < armed_us,
        Input::Lift(_, decision) => !(decision is Start),
        _ => true,
    }
}

/// Whether all of a number of inputs leave that wait as it is.
pub open spec fn wait_goes_on(inputs: Seq<Input>, armed_us: u64) -> bool {
    forall|n: int| 0 <= n < inputs.len() ==> leaves_waiting(#[trigger] inputs[n], armed_us)
}

/// Whether a listener waits for a touch that counts from `armed_us` on.
pub open spec fn waits_from(m: ListenerModel, armed_us: u64) -> bool {
    &&& m.momentum_active
    &&& m.state != ListenerState::MomentumRetouch
    &&& m.awaiting_stop_touch
    &&& m.stop_armed_after_us == armed_us
}

proof fn lemma_step_of_waiting(m: ListenerModel, input: Input, armed_us: u64)
    requires
        waits_from(m, armed_us),
        !ends_inertia(m, input),
        leaves_waiting(input, armed_us),
    ensures
        waits_from(after(m, input).model, armed_us),
{
    let actions = after(m, input).actions;
    let stop = ListenerAction::Send(MomentumMessage::Stop);
    assert(actions.len() > 1 && actions[1] == stop ==> orders_stop(m, input));
}

proof fn lemma_waiting(m: ListenerModel, inputs: Seq<Input>, armed_us: u64)
    requires
        waits_from(m, armed_us),
        inertia_outlasts(m, inputs),
        wait_goes_on(inputs, armed_us),
    ensures
        waits_from(after_all(m, inputs), armed_us),
    decreases inputs.len(),
{
    if inputs.len() > 0 {
        let before = inputs.drop_last();
        lemma_outlasts_the_inputs_before(m, inputs);
        assert forall|n: int| 0 <= n < before.len() implies leaves_waiting(
            #[trigger] before[n],
            armed_us,
        ) by {
            assert(leaves_waiting(inputs[n], armed_us));
        }
        lemma_waiting(m, before, armed_us);
        assert(leaves_waiting(inputs[inputs.len() - 1], armed_us));
        lemma_step_of_waiting(after_all(m, before), inputs.last(), armed_us);
    }
}

/// After a lift that started inertia, a finger that bounces off the touchpad is ignored: as
/// long as the inertia lasts, no later touch counted and no other start came, a finger that
/// comes down too soon changes nothing and the engine hears nothing.
pub proof fn law_bounce_after_lift_is_ignored(
    m: ListenerModel,
    lift_us: u64,
    decision: StartDecision,
    inputs: Seq<Input>,
    event: TouchpadEvent,
    shared: Shared,
)
    requires
        decision is Start,
        m.state != ListenerState::MomentumRetouch,
        lift_us + RETOUCH_ARM_DELAY_US <= u64::MAX,
        inertia_outlasts(m.after_lift(lift_us, decision).model, inputs),
        wait_goes_on(inputs, (lift_us + RETOUCH_ARM_DELAY_US) as u64),
        is_touch_down(Input::Event(event, shared)),
        event.now_us < lift_us + RETOUCH_ARM_DELAY_US,
    ensures
        ({
            let waiting = after_all(m.after_lift(lift_us, decision).model, inputs);
            let step = waiting.after_event(event, shared);
            &&& step.model == waiting
            &&& silent(step.actions)
        }),
{
    let coasting = m.after_lift(lift_us, decision).model;
    lemma_waiting(coasting, inputs, (lift_us + RETOUCH_ARM_DELAY_US) as u64);
    let actions = after_all(coasting, inputs).after_event(event, shared).actions;
    assert(actions.len() == 1);
    assert(actions[0] is Log);
}

/// A finger that comes down on a coasting pointer does not stop it yet: the engine hears
/// nothing, and the pointer is still taken to be coasting.
pub proof fn law_retouch_alone_stops_nothing(
    m: ListenerModel,
    event: TouchpadEvent,
    shared: Shared,
)
    requires
        is_touch_down(Input::Event(event, shared)),
        m.meets_momentum(),
    ensures
        silent(m.after_event(event, shared).actions),
        m.after_event(event, shared).model.momentum_active == m.momentum_active,
        m.after_event(event, shared).model.grabbed == m.grabbed,
{
}

proof fn lemma_short_lift(m: ListenerModel, event: TouchpadEvent, shared: Shared)
    requires
        m.state == ListenerState::MomentumRetouch,
        is_touch_up(Input::Event(event, shared)),
        elapsed(m.retouch_start_us as int, event.now_us as int) < m.stop_touch_us,
        !stopped(m.current_token, shared.stopped_token),
    ensures
        ({
            let step = m.after_event(event, shared);
            &&& silent(step.actions)
            &&& step.model.momentum_active == m.momentum_active
            &&& step.model.grabs == m.grabs
            &&& m.momentum_active ==> waits_from(step.model, event.now_us)
        }),
{
    let actions = m.after_event(event, shared).actions;
    assert(actions.len() == 2);
    assert(actions[0] is SetActiveToken);
    assert(actions[1] is Log);
}

proof fn lemma_awaited_touch(
    m: ListenerModel,
    armed_us: u64,
    event: TouchpadEvent,
    shared: Shared,
)
    requires
        waits_from(m, armed_us),
        is_touch_down(Input::Event(event, shared)),
        event.now_us >= armed_us,
    ensures
        m.after_event(event, shared).model.state == ListenerState::MomentumRetouch,
        m.after_event(event, shared).model.momentum_active,
        silent(m.after_event(event, shared).actions),
{
    law_retouch_alone_stops_nothing(m, event, shared);
}

/// A retouch that is lifted before it lasted long enough, and before a timer confirmed
/// it, leaves the pointer coasting: the engine hears nothing, nothing is released, and, as
/// long as the inertia lasts, the next finger that comes down is a retouch again.
pub proof fn law_short_retouch_is_ignored(
    m: ListenerModel,
    event: TouchpadEvent,
    shared: Shared,
    inputs: Seq<Input>,
    next: TouchpadEvent,
    next_shared: Shared,
)
    requires
        m.state == ListenerState::MomentumRetouch,
        is_touch_up(Input::Event(event, shared)),
        elapsed(m.retouch_start_us as int, event.now_us as int) < m.stop_touch_us,
        !stopped(m.current_token, shared.stopped_token),
        inertia_outlasts(m.after_event(event, shared).model, inputs),
        wait_goes_on(inputs, event.now_us),
        is_touch_down(Input::Event(next, next_shared)),
        next.now_us >= event.now_us,
    ensures
        ({
            let step = m.after_event(event, shared);
            let again = after_all(step.model, inputs).after_event(next, next_shared);
            &&& silent(step.actions)
            &&& step.model.momentum_active == m.momentum_active
            &&& step.model.grabs == m.grabs
            &&& m.momentum_active ==> again.model.state == ListenerState::MomentumRetouch
                && again.model.momentum_active && silent(again.actions)
        }),
{
    let lifted = m.after_event(event, shared).model;
    lemma_short_lift(m, event, shared);
    if m.momentum_active {
        lemma_waiting(lifted, inputs, event.now_us);
        lemma_awaited_touch(after_all(lifted, inputs), event.now_us, next, next_shared);
    }
}

/// A retouch that lasted long enough leaves the pointer at rest when it is lifted: a
/// timer stopped it already, or the lift does; and the touchpad is released.
pub proof fn law_confirmed_retouch_stops_inertia(
    m: ListenerModel,
    event: TouchpadEvent,
    shared: Shared,
)
    requires
        m.state == ListenerState::MomentumRetouch,
        class_of(event.event_type, event.code) == EventClass::Touch,
        event.value != 1,
        elapsed(m.retouch_start_us as int, event.now_us as int) >= m.stop_touch_us,
    ensures
        ({
            let step = m.after_event(event, shared);
            &&& stopped(m.current_token, shared.stopped_token) || step.actions.contains(
                ListenerAction::Send(MomentumMessage::Stop),
            )
            &&& !step.model.momentum_active
            &&& !step.model.awaiting_stop_touch
            &&& step.model.grabs.len() == m.grabs.len() + 1
            &&& step.model.grabs.last() is Ungrab
        }),
{
    let actions = m.after_event(event, shared).actions;
    if !stopped(m.current_token, shared.stopped_token) {
        assert(actions[1] == ListenerAction::Send(MomentumMessage::Stop));
    }
}

/// Once the token of the latest retouch has moved past the token that a timer waits for,
/// that timer never finds its retouch again, as long as the tokens do not run out.
pub proof fn law_ended_retouch_is_never_confirmed(
    m: ListenerModel,
    inputs: Seq<Input>,
    token: u64,
)
    requires
        m.active_token > token,
        forall|n: int|
            0 <= n < inputs.len() ==> (#[trigger] after_all(m, inputs.take(n))).active_token
                < u64::MAX,
    ensures
        after_all(m, inputs).active_token > token,
    decreases inputs.len(),
{
    if inputs.len() > 0 {
        let before = inputs.drop_last();
        assert(inputs.take(before.len() as int) =~= before);
        assert forall|n: int| 0 <= n < before.len() implies (#[trigger] after_all(
            m,
            before.take(n),
        )).active_token < u64::MAX by {
            assert(before.take(n) =~= inputs.take(n));
        }
        law_ended_retouch_is_never_confirmed(m, before, token);
        assert(after_all(m, before).active_token < u64::MAX);
    }
}

/// The end of a retouch, and a second finger during it, move the token past that of the
/// retouch, so that the timer of the retouch does nothing from then on.
pub proof fn law_ending_a_retouch_disarms_its_timer(
    m: ListenerModel,
    event: TouchpadEvent,
    shared: Shared,
)
    requires
        sane(m),
        m.state == ListenerState::MomentumRetouch,
        m.active_token < u64::MAX,
        event.value != 1 && class_of(event.event_type, event.code) == EventClass::Touch
            || event.value == 1 && class_of(event.event_type, event.code) == EventClass::MultiTouch,
    ensures
        m.after_event(event, shared).model.active_token > m.current_token,
        m.after_event(event, shared).actions.contains(
            ListenerAction::SetActiveToken(m.after_event(event, shared).model.active_token),
        ),
{
    let step = m.after_event(event, shared);
    assert(step.actions[0] == ListenerAction::SetActiveToken(step.model.active_token));
}

/// The movement of a finger moves the pointer only while that finger is on the touchpad
/// and after it stopped inertia.
pub proof fn law_motion_is_forwarded_only_after_a_stop(
    m: ListenerModel,
    input: Input,
    dx: i32,
    dy: i32,
)
    requires
        after(m, input).actions.contains(
            ListenerAction::Send(MomentumMessage::ContinuePointer { dx, dy }),
        ),
    ensures
        m.state == ListenerState::MomentumRetouch,
        input matches Input::Event(_, shared) && stopped(m.current_token, shared.stopped_token),
{
    let actions = after(m, input).actions;
    let message = ListenerAction::Send(MomentumMessage::ContinuePointer { dx, dy });
    let i = choose|i: int| 0 <= i < actions.len() && actions[i] == message;
    assert(actions[i] == message);
}

/// The movement along one axis that a sequence of actions hands on.
pub open spec fn forwarded(horizontal: bool, actions: Seq<ListenerAction>) -> int
    decreases actions.len(),
{
    if actions.len() == 0 {
        0
    } else {
        forwarded(horizontal, actions.drop_last()) + match actions.last() {
            ListenerAction::Send(MomentumMessage::ContinuePointer { dx, dy }) => if horizontal {
                dx as int
            } else {
                dy as int
            },
            _ => 0,
        }
    }
}

/// The movement along one axis that a number of inputs hands on.
pub open spec fn forwarded_over(m: ListenerModel, horizontal: bool, inputs: Seq<Input>) -> int
    decreases inputs.len(),
{
    if inputs.len() == 0 {
        0
    } else {
        forwarded_over(m, horizontal, inputs.drop_last()) + forwarded(
            horizontal,
            after(after_all(m, inputs.drop_last()), inputs.last()).actions,
        )
    }
}

/// The position along one axis that an input reports.
pub open spec fn reported_position(horizontal: bool, input: Input) -> Option<i32> {
    match input {
        Input::Event(event, _) => match class_of(event.event_type, event.code) {
            EventClass::AxisX if horizontal => Some(event.value),
            EventClass::AxisY if !horizontal => Some(event.value),
            _ => None,
        },
        _ => None,
    }
}

/// Where a finger that was at `start` along one axis is after a number of inputs.
pub open spec fn finger_at(start: i32, horizontal: bool, inputs: Seq<Input>) -> i32
    decreases inputs.len(),
{
    if inputs.len() == 0 {
        start
    } else {
        match reported_position(horizontal, inputs.last()) {
            Some(position) => position,
            None => finger_at(start, horizontal, inputs.drop_last()),
        }
    }
}

/// Whether an input belongs to the retouch of a token, after that stopped inertia: the finger
/// is not lifted, and no finger comes down.
pub open spec fn within_stopped_retouch(token: u64, input: Input) -> bool {
    match input {
        Input::Event(event, shared) => {
            let class = class_of(event.event_type, event.code);
            &&& stopped(token, shared.stopped_token)
            &&& class != EventClass::Touch
            &&& class == EventClass::MultiTouch ==> event.value != 1
        },
        _ => true,
    }
}

/// Where a retouch is known to be along one axis.
pub open spec fn retouch_at(m: ListenerModel, horizontal: bool) -> i32 {
    if horizontal {
        m.retouch_ptr_x
    } else {
        m.retouch_ptr_y
    }
}

proof fn lemma_step_of_forwarding(m: ListenerModel, horizontal: bool, input: Input)
    requires
        m.state == ListenerState::MomentumRetouch,
        within_stopped_retouch(m.current_token, input),
        fits(m, input),
    ensures
        ({
            let step = after(m, input);
            let at = match reported_position(horizontal, input) {
                Some(position) => position,
                None => retouch_at(m, horizontal),
            };
            &&& step.model.state == ListenerState::MomentumRetouch
            &&& step.model.current_token == m.current_token
            &&& retouch_at(step.model, horizontal) == at
            &&& forwarded(horizontal, step.actions) == at - retouch_at(m, horizontal)
        }),
{
    let actions = after(m, input).actions;
    assert(actions.len() <= 2);
    reveal_with_fuel(forwarded, 3);
    if actions.len() == 2 {
        assert(actions.drop_last().last() == actions[0]);
    }
}

/// After a retouch stopped inertia, nothing of the finger's movement is lost as long as the
/// finger stays down, whatever else happens: along each axis, what is handed on adds up to
/// the way from where the finger was to where it is.
pub proof fn law_forwarded_motion_adds_up(
    m: ListenerModel,
    horizontal: bool,
    inputs: Seq<Input>,
)
    requires
        m.state == ListenerState::MomentumRetouch,
        forall|n: int|
            0 <= n < inputs.len() ==> within_stopped_retouch(
                m.current_token,
                #[trigger] inputs[n],
            ) && fits(after_all(m, inputs.take(n)), inputs[n]),
    ensures
        forwarded_over(m, horizontal, inputs) == finger_at(
            retouch_at(m, horizontal),
            horizontal,
            inputs,
        ) - retouch_at(m, horizontal),
        retouch_at(after_all(m, inputs), horizontal) == finger_at(
            retouch_at(m, horizontal),
            horizontal,
            inputs,
        ),
        after_all(m, inputs).state == ListenerState::MomentumRetouch,
        after_all(m, inputs).current_token == m.current_token,
    decreases inputs.len(),
{
    if inputs.len() > 0 {
        let before = inputs.drop_last();
        let last = inputs.len() - 1;
        assert forall|n: int| 0 <= n < before.len() implies within_stopped_retouch(
            m.current_token,
            #[trigger] before[n],
        ) && fits(after_all(m, before.take(n)), before[n]) by {
            assert(before[n] == inputs[n]);
            assert(before.take(n) =~= inputs.take(n));
        }
        law_forwarded_motion_adds_up(m, horizontal, before);
        assert(inputs.take(last) =~= before);
        assert(inputs[last] == inputs.last());
        lemma_step_of_forwarding(after_all(m, before), horizontal, inputs.last());
    }
}

/// Whether an input is a lift that sends the pointer off.
pub open spec fn sends_off(m: ListenerModel, input: Input) -> bool {
    input matches Input::Lift(_, StartDecision::Start { vx, vy }) && after(m, input).actions == seq![
        ListenerAction::Send(MomentumMessage::StartPointer { vx, vy }),
    ]
}

/// What an input can do to the pending grabs and releases.
proof fn lemma_step_of_pending_grabs(m: ListenerModel, input: Input)
    ensures
        ({
            let grabs = after(m, input).model.grabs;
            ||| grabs.len() == 0
            ||| grabs == m.grabs && !(input is EndOfBatch)
            ||| grabs.len() == m.grabs.len() + 1 && grabs.drop_last() == m.grabs && !(
            input is EndOfBatch) && grabs.last() is Ungrab
            ||| grabs == m.grabs.push(GrabAction::Grab(GrabReason::MomentumStart)) && sends_off(
                m,
                input,
            )
        }),
{
    let grabs = after(m, input).model.grabs;
    if let Input::Event(event, shared) = input {
        let pushed = grabs.len() == m.grabs.len() + 1;
        assert(pushed ==> grabs.drop_last() =~= m.grabs);
    }
}

proof fn lemma_pending_grab_has_a_start(m: ListenerModel, inputs: Seq<Input>, i: int) -> (n: int)
    requires
        m.grabs.len() == 0,
        0 <= i < after_all(m, inputs).grabs.len(),
        after_all(m, inputs).grabs[i] is Grab,
    ensures
        after_all(m, inputs).grabs[i] == GrabAction::Grab(GrabReason::MomentumStart),
        0 <= n < inputs.len(),
        sends_off(after_all(m, inputs.take(n)), inputs[n]),
        forall|k: int| n < k < inputs.len() ==> !(#[trigger] inputs[k] is EndOfBatch),
    decreases inputs.len(),
{
    let before = inputs.drop_last();
    let last = inputs.len() - 1;
    assert(inputs.take(last) =~= before);
    lemma_step_of_pending_grabs(after_all(m, before), inputs[last]);
    if i < after_all(m, before).grabs.len() {
        let n = lemma_pending_grab_has_a_start(m, before, i);
        assert(before.take(n) =~= inputs.take(n));
        assert forall|k: int| n < k < inputs.len() implies !(#[trigger] inputs[k] is EndOfBatch) by {
            if k < last {
                assert(before[k] == inputs[k]);
            }
        }
        n
    } else {
        last
    }
}

/// A grab is asked for only at the end of a batch that holds a lift which sent the pointer
/// off, whatever else happened.
pub proof fn law_grab_follows_a_start(
    stale_us: u64,
    stop_touch_us: u64,
    inputs: Seq<Input>,
    next: Input,
    reason: GrabReason,
)
    requires
        asked(after_all(ListenerModel::fresh(stale_us, stop_touch_us), inputs), next).contains(
            GrabAction::Grab(reason),
        ),
    ensures
        reason == GrabReason::MomentumStart,
        next is EndOfBatch,
        exists|n: int|
            {
                &&& 0 <= n < inputs.len()
                &&& sends_off(
                    after_all(ListenerModel::fresh(stale_us, stop_touch_us), inputs.take(n)),
                    #[trigger] inputs[n],
                )
                &&& forall|k: int|
                    n < k < inputs.len() ==> !(#[trigger] inputs[k] is EndOfBatch)
            },
{
    let fresh = ListenerModel::fresh(stale_us, stop_touch_us);
    let actions = asked(after_all(fresh, inputs), next);
    let i = choose|i: int| 0 <= i < actions.len() && actions[i] == GrabAction::Grab(reason);
    assert(actions[i] == GrabAction::Grab(reason));
    let n = lemma_pending_grab_has_a_start(fresh, inputs, i);
    assert(sends_off(after_all(fresh, inputs.take(n)), inputs[n]));
}

/// Whether every grab and release that was tried was one that there was anything to do about.
pub open spec fn tried_as_wanted(m: ListenerModel, inputs: Seq<Input>) -> bool {
    forall|n: int|
        0 <= n < inputs.len() ==> (#[trigger] inputs[n] matches Input::GrabFinished(action, _)
            ==> after_all(m, inputs.take(n)).wants(action))
}

/// The grabs and releases that succeeded, in their order.
pub open spec fn succeeded(inputs: Seq<Input>) -> Seq<GrabAction>
    decreases inputs.len(),
{
    if inputs.len() == 0 {
        Seq::empty()
    } else {
        match inputs.last() {
            Input::GrabFinished(action, true) => succeeded(inputs.drop_last()).push(action),
            _ => succeeded(inputs.drop_last()),
        }
    }
}

/// Only a grab or a release that succeeds changes whether the touchpad is grabbed.
proof fn lemma_step_of_grabbed(m: ListenerModel, input: Input)
    ensures
        after(m, input).model.grabbed == match input {
            Input::GrabFinished(action, true) => action is Grab,
            _ => m.grabbed,
        },
{
}

/// The grabs and releases that succeed alternate, from a grab on, and the touchpad is
/// grabbed while the latest of them is a grab, whatever else happens.
#[verifier::rlimit(20)]
pub proof fn law_grabs_and_releases_alternate(
    stale_us: u64,
    stop_touch_us: u64,
    inputs: Seq<Input>,
)
    requires
        tried_as_wanted(ListenerModel::fresh(stale_us, stop_touch_us), inputs),
    ensures
        forall|i: int|
            0 <= i < succeeded(inputs).len() ==> ((#[trigger] succeeded(inputs)[i]) is Grab <==> i
                % 2 == 0),
        after_all(ListenerModel::fresh(stale_us, stop_touch_us), inputs).grabbed <==> succeeded(
            inputs,
        ).len() % 2 == 1,
    decreases inputs.len(),
{
    let fresh = ListenerModel::fresh(stale_us, stop_touch_us);
    if inputs.len() > 0 {
        let before = inputs.drop_last();
        let last = inputs.len() - 1;
        assert forall|n: int| 0 <= n < before.len() implies (
        #[trigger] before[n] matches Input::GrabFinished(action, _) ==> after_all(
            fresh,
            before.take(n),
        ).wants(action)) by {
            assert(before[n] == inputs[n]);
            assert(before.take(n) =~= inputs.take(n));
        }
        law_grabs_and_releases_alternate(stale_us, stop_touch_us, before);
        assert(inputs.take(last) =~= before);
        assert(inputs[last] == inputs.last());
        lemma_step_of_grabbed(after_all(fresh, before), inputs[last]);
    }
}

/// The state after an asked-for grab or release, which is tried where there is anything to
/// do about it.
pub open spec fn after_try(m: ListenerModel, action: GrabAction, succeeds: bool) -> ListenerModel {
    if m.wants(action) {
        after(m, Input::GrabFinished(action, succeeds)).model
    } else {
        m
    }
}

/// The state after a number of asked-for grabs and releases; `succeeds` says of each whether
/// it would succeed.
pub open spec fn after_tries(
    m: ListenerModel,
    actions: Seq<GrabAction>,
    succeeds: Seq<bool>,
) -> ListenerModel
    decreases actions.len(),
{
    if actions.len() == 0 {
        m
    } else {
        after_try(
            after_tries(m, actions.drop_last(), succeeds),
            actions.last(),
            succeeds[actions.len() - 1],
        )
    }
}

/// The state after an input and the grabs and releases that it asks for.
pub open spec fn after_with_tries(
    m: ListenerModel,
    input: Input,
    succeeds: Seq<bool>,
) -> ListenerModel {
    after_tries(after(m, input).model, asked(m, input), succeeds)
}

/// After any batch, its grabs and releases and the check for a stale grab, the touchpad is
/// grabbed only while the pointer is coasting or a finger that met it is still down. Only a
/// release that fails leaves it otherwise, and the next check asks for it again.
pub proof fn law_grab_ends_with_inertia(
    stale_us: u64,
    stop_touch_us: u64,
    inputs: Seq<Input>,
    succeeds: Seq<bool>,
    released: bool,
)
    ensures
        ({
            let m = after_all(ListenerModel::fresh(stale_us, stop_touch_us), inputs);
            let ended = after_with_tries(m, Input::EndOfBatch, succeeds);
            let settled = after_with_tries(ended, Input::StaleGrabCheck, seq![released]);
            &&& released ==> (settled.grabbed ==> settled.momentum_active || settled.state
                == ListenerState::MomentumRetouch)
            &&& ended.holds_stale_grab() && released ==> !settled.grabbed
                && !settled.meets_momentum()
            &&& settled.holds_stale_grab() ==> !released && asked(settled, Input::StaleGrabCheck)
                == seq![GrabAction::Ungrab(GrabReason::InactiveListenerState)]
        }),
{
    reveal_with_fuel(after_tries, 2);
}

/// A grab or release that was carried out is not asked for a second time.
pub proof fn law_grabs_are_not_repeated(m: ListenerModel, action: GrabAction)
    ensures
        !after(m, Input::GrabFinished(action, true)).model.wants(action),
{
}

} // verus!

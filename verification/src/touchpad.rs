//! The touchpad listener: which finger movements start inertia, and which touches stop
//! it.

use crate::decision_log::Decision;
use crate::double::Double;
use crate::input::{class_of, classify, EventClass};
use crate::messages::{EngineStatus, MomentumMessage};
use crate::motion::{
    elapsed, has_release_velocity, is_release_of, most_recent, release_end, release_start, step_sq,
    trim_of, MotionRing, ReleaseVelocity, Sample, TailSpeeds, LIFT_TAIL_SAMPLES,
    VELOCITY_WINDOW_SAMPLES,
};
use crate::text::{decimal, push_decimal};
use vstd::prelude::*;

verus! {

/// A touch shorter than this starts no inertia.
pub const MIN_TOUCH_US: u64 = 130_000;

/// A path shorter than this starts no inertia: 40.0, as a bit pattern.
pub const MIN_MOTION_DISTANCE: u64 = 0x4044_0000_0000_0000;

/// How long after a lift a new touch is taken for a bounce of the finger.
pub const RETOUCH_ARM_DELAY_US: u64 = 200_000;

/// What the listener takes the finger on the touchpad for.
#[derive(Clone, Copy, Debug, PartialEq, Eq, Structural)]
pub enum ListenerState {
    /// There is none, or it does not matter.
    Idle,
    /// It moves the pointer.
    OneFingerMove,
    /// It came down while the pointer was coasting.
    MomentumRetouch,
}

/// Why the touchpad is grabbed or released.
#[derive(Clone, Copy, Debug, PartialEq, Eq, Structural)]
pub enum GrabReason {
    MomentumStart,
    EngineIdle,
    RetouchReleaseAfterStop,
    RetouchConfirmedOnRelease,
    InactiveListenerState,
    ListenerExit,
}

/// Taking the touchpad from the desktop, or giving it back.
#[derive(Clone, Copy, Debug, PartialEq, Eq, Structural)]
pub enum GrabAction {
    Grab(GrabReason),
    Ungrab(GrabReason),
}

/// One event of the touchpad.
#[derive(Clone, Copy, Debug, PartialEq, Eq, Structural)]
pub struct TouchpadEvent {
    pub event_type: u16,
    pub code: u16,
    pub value: i32,
    pub now_us: u64,
}

/// What other threads have to say about an event.
#[derive(Clone, Copy, Debug, PartialEq, Eq, Structural)]
pub struct Shared {
    /// The token of the last retouch that stopped inertia.
    pub stopped_token: u64,
    /// Whether the button node saw a click that no lift has used up.
    pub external_click: bool,
}

/// What is to be done about an event, in this order.
#[derive(Clone, Copy, Debug, PartialEq, Eq, Structural)]
pub enum ListenerAction {
    /// Send an order to the engine.
    Send(MomentumMessage),
    /// Set the flag that the listeners share.
    SetClickInhibit(bool),
    /// Publish the token of the retouch that a timer may confirm.
    SetActiveToken(u64),
    /// Publish the token of the retouch that stopped inertia.
    SetStoppedToken(u64),
    /// Confirm the retouch of this token once this time has passed.
    ArmTimer { token: u64, delay_us: u64 },
    /// Add the root of this number to the travelled distance.
    ExtendDistance { step_sq: u128 },
    /// Have `evaluate_lift` decide whether the lift starts inertia, and hand the decision to
    /// `finish_lift`.
    EvaluateLift,
    /// Write to the decision log.
    Log(Decision),
}

/// The state of a listener.
#[verifier::ext_equal]
pub struct ListenerModel {
    /// How old a sample may be that the release velocity is measured over.
    pub stale_us: u64,
    /// How long a touch has to last to stop inertia.
    pub stop_touch_us: u64,
    pub state: ListenerState,
    /// The last reported position.
    pub ptr_x: i32,
    pub ptr_y: i32,
    /// When the present touch began, and whether a click came with it.
    pub touch_start_us: u64,
    pub click_seen: bool,
    /// Whether the next touch is a retouch, and from when on.
    pub awaiting_stop_touch: bool,
    pub stop_armed_after_us: u64,
    /// The token of the latest retouch, grown once more when it ended.
    pub active_token: u64,
    /// The token of the present retouch, or zero.
    pub current_token: u64,
    pub retouch_start_us: u64,
    pub retouch_ptr_x: i32,
    pub retouch_ptr_y: i32,
    /// Whether the present retouch moved the pointer already.
    pub retouch_forwarded: bool,
    /// The path of the present touch.
    pub path: Seq<Sample>,
    pub pushed: u64,
    pub distance: Double,
    /// Whether the touchpad is grabbed.
    pub grabbed: bool,
    /// Whether the pointer is coasting, as far as is known.
    pub momentum_active: bool,
    /// The grabs and releases that wait for the end of the batch.
    pub grabs: Seq<GrabAction>,
}

/// What an event leads to.
pub struct Step {
    pub model: ListenerModel,
    pub actions: Seq<ListenerAction>,
}

/// Whether the retouch of a token stopped inertia. No retouch has the token zero.
pub open spec fn stopped(current_token: u64, stopped_token: u64) -> bool {
    current_token != 0 && stopped_token == current_token
}

/// Whether the retouch of a token stopped inertia.
pub fn retouch_is_stopped(current_token: u64, stopped_token: u64) -> (r: bool)
    ensures
        r == stopped(current_token, stopped_token),
{
    current_token != 0 && stopped_token == current_token
}

/// The microseconds since the epoch of a time after it; zero for a time before it.
pub open spec fn epoch_us(since_epoch: Option<(u64, u32)>) -> int {
    match since_epoch {
        Some((secs, nanos)) => (secs * 1_000_000 + nanos / 1000) % 0x1_0000_0000_0000_0000,
        None => 0,
    }
}

/// The microseconds since the epoch of a time that is `since_epoch` (seconds, and
/// nanoseconds of a second) after it; zero for a time before the epoch. The number
/// wraps at 64 bits.
pub fn timestamp_to_us(since_epoch: Option<(u64, u32)>) -> (us: u64)
    ensures
        us == epoch_us(since_epoch),
{
    match since_epoch {
        Some((secs, nanos)) => {
            let micros: u128 = secs as u128 * 1_000_000 + (nanos / 1000) as u128;
            (micros % 0x1_0000_0000_0000_0000) as u64
        },
        None => 0,
    }
}

/// A number of milliseconds in microseconds, as far as that fits.
pub open spec fn microseconds(ms: u64) -> u64 {
    if ms * 1000 <= u64::MAX {
        (ms * 1000) as u64
    } else {
        u64::MAX
    }
}

/// What a lift amounts to.
#[derive(Clone, Copy, Debug, PartialEq, Eq, Structural)]
pub enum StartDecision {
    TouchTooShort,
    MovementTooShort,
    NoFreshVelocity,
    VelocityTooLow,
    /// Start inertia with this velocity.
    Start { vx: Double, vy: Double },
}

/// A release velocity: how fast the finger was, and how fast the pointer starts.
#[derive(Clone, Copy, Debug, PartialEq, Eq, Structural)]
pub struct ReleaseSpeed {
    pub speed: Double,
    pub start_vx: Double,
    pub start_vy: Double,
}

/// The first reason not to start inertia, or else the start.
pub open spec fn start_decision(
    touch_duration_us: u64,
    total_distance: Double,
    release: Option<ReleaseSpeed>,
    min_velocity: Double,
) -> StartDecision {
    if touch_duration_us < MIN_TOUCH_US {
        StartDecision::TouchTooShort
    } else if total_distance.below(Double { bits: MIN_MOTION_DISTANCE }) {
        StartDecision::MovementTooShort
    } else {
        match release {
            None => StartDecision::NoFreshVelocity,
            Some(r) => if r.speed.below(min_velocity) {
                StartDecision::VelocityTooLow
            } else {
                StartDecision::Start { vx: r.start_vx, vy: r.start_vy }
            },
        }
    }
}

/// Decides whether a lift starts inertia.
pub fn maybe_start_pointer(
    touch_duration_us: u64,
    total_distance: Double,
    release: Option<ReleaseSpeed>,
    min_velocity: Double,
) -> (decision: StartDecision)
    ensures
        decision == start_decision(touch_duration_us, total_distance, release, min_velocity),
{
    if touch_duration_us < MIN_TOUCH_US {
        return StartDecision::TouchTooShort;
    }
    if total_distance.lt(&(Double { bits: MIN_MOTION_DISTANCE })) {
        return StartDecision::MovementTooShort;
    }
    let release = match release {
        Some(release) => release,
        None => {
            return StartDecision::NoFreshVelocity;
        },
    };
    if release.speed.lt(&min_velocity) {
        return StartDecision::VelocityTooLow;
    }
    StartDecision::Start { vx: release.start_vx, vy: release.start_vy }
}

/// The numbers of a lift that are not whole.
#[derive(Clone, Copy, Debug, PartialEq, Eq, Structural)]
pub struct LiftNumbers {
    /// The speeds that decide whether the tail is trimmed, where there are samples enough.
    pub speeds: Option<TailSpeeds>,
    /// The velocity over the fresh part of the last window of the path.
    pub last: ReleaseSpeed,
    /// The velocity over the fresh part of the window before the tail.
    pub before_tail: ReleaseSpeed,
    /// The least velocity that starts inertia.
    pub min_velocity: Double,
}

/// The release velocity of a path, where it has one.
pub open spec fn lift_release(
    path: Seq<Sample>,
    now_us: u64,
    stale_us: u64,
    numbers: LiftNumbers,
) -> Option<ReleaseSpeed> {
    let trimmed = trim_of(numbers.speeds, numbers.min_velocity) is Some;
    if !has_release_velocity(path, now_us, stale_us, trimmed) {
        None
    } else if trimmed {
        Some(numbers.before_tail)
    } else {
        Some(numbers.last)
    }
}

impl ListenerModel {
    /// The decision on a lift.
    pub open spec fn lift_decision(self, now_us: u64, numbers: LiftNumbers) -> StartDecision {
        start_decision(
            elapsed(self.touch_start_us as int, now_us as int) as u64,
            self.distance,
            lift_release(self.path, now_us, self.stale_us, numbers),
            numbers.min_velocity,
        )
    }

    /// The state before anything happened.
    pub open spec fn fresh(stale_us: u64, stop_touch_us: u64) -> ListenerModel {
        ListenerModel {
            stale_us,
            stop_touch_us,
            state: ListenerState::Idle,
            ptr_x: 0,
            ptr_y: 0,
            touch_start_us: 0,
            click_seen: false,
            awaiting_stop_touch: false,
            stop_armed_after_us: 0,
            active_token: 0,
            current_token: 0,
            retouch_start_us: 0,
            retouch_ptr_x: 0,
            retouch_ptr_y: 0,
            retouch_forwarded: false,
            path: Seq::empty(),
            pushed: 0,
            distance: Double::zero(),
            grabbed: false,
            momentum_active: false,
            grabs: Seq::empty(),
        }
    }

    /// What a new position on one axis leads to. The axis is horizontal or vertical.
    pub open spec fn after_axis(
        self,
        horizontal: bool,
        value: i32,
        now_us: u64,
        shared: Shared,
    ) -> Step {
        let moved = if horizontal {
            ListenerModel { ptr_x: value, ..self }
        } else {
            ListenerModel { ptr_y: value, ..self }
        };
        match self.state {
            ListenerState::Idle => Step { model: moved, actions: Seq::empty() },
            ListenerState::OneFingerMove => moved.after_sample(now_us),
            ListenerState::MomentumRetouch => {
                let (dx, dy) = if horizontal {
                    ((value - self.retouch_ptr_x) as i32, 0i32)
                } else {
                    (0i32, (value - self.retouch_ptr_y) as i32)
                };
                let forward = (dx != 0 || dy != 0) && stopped(
                    self.current_token,
                    shared.stopped_token,
                );
                Step {
                    model: ListenerModel {
                        retouch_ptr_x: if horizontal {
                            value
                        } else {
                            self.retouch_ptr_x
                        },
                        retouch_ptr_y: if horizontal {
                            self.retouch_ptr_y
                        } else {
                            value
                        },
                        retouch_forwarded: self.retouch_forwarded || forward,
                        ..moved
                    },
                    actions: if !forward {
                        Seq::empty()
                    } else if self.retouch_forwarded {
                        seq![ListenerAction::Send(MomentumMessage::ContinuePointer { dx, dy })]
                    } else {
                        seq![
                            ListenerAction::Log(
                                Decision::RetouchContinue { raw_dx: dx, raw_dy: dy },
                            ),
                            ListenerAction::Send(MomentumMessage::ContinuePointer { dx, dy }),
                        ]
                    },
                }
            },
        }
    }

    /// The present position joins the path.
    pub open spec fn after_sample(self, now_us: u64) -> Step {
        let sample = Sample { x: self.ptr_x, y: self.ptr_y, ts_us: now_us };
        Step {
            model: ListenerModel {
                path: most_recent(self.path.push(sample)),
                pushed: (self.pushed + 1) as u64,
                ..self
            },
            actions: if self.path.len() == 0 {
                Seq::empty()
            } else {
                seq![
                    ListenerAction::ExtendDistance {
                        step_sq: step_sq(self.path.last(), sample) as u128,
                    },
                ]
            },
        }
    }

    /// Whether a finger that comes down meets a coasting pointer.
    pub open spec fn meets_momentum(self) -> bool {
        self.awaiting_stop_touch || (self.grabbed && self.momentum_active)
    }

    /// From when on a finger that comes down is taken for a retouch.
    pub open spec fn armed_after(self, now_us: u64) -> u64 {
        if self.awaiting_stop_touch {
            self.stop_armed_after_us
        } else {
            now_us
        }
    }

    /// What a finger that comes down leads to: a retouch where the pointer is coasting,
    /// and nothing where that lift is too recent; else a new touch.
    pub open spec fn after_touch_down(self, now_us: u64) -> Step {
        if self.meets_momentum() && now_us < self.armed_after(now_us) {
            Step {
                model: self,
                actions: seq![
                    ListenerAction::Log(
                        Decision::RetouchTooSoon {
                            remaining_us: (self.armed_after(now_us) - now_us) as u64,
                        },
                    ),
                ],
            }
        } else if self.meets_momentum() {
            let token = (self.active_token + 1) as u64;
            Step {
                model: ListenerModel {
                    state: ListenerState::MomentumRetouch,
                    awaiting_stop_touch: false,
                    active_token: token,
                    current_token: token,
                    retouch_start_us: now_us,
                    retouch_ptr_x: self.ptr_x,
                    retouch_ptr_y: self.ptr_y,
                    retouch_forwarded: false,
                    ..self
                },
                actions: seq![
                    ListenerAction::SetActiveToken(token),
                    ListenerAction::Log(
                        Decision::RetouchPending {
                            late_by_us: (now_us - self.armed_after(now_us)) as u64,
                            confirm_us: self.stop_touch_us,
                        },
                    ),
                    ListenerAction::ArmTimer { token, delay_us: self.stop_touch_us },
                ],
            }
        } else {
            Step {
                model: ListenerModel {
                    state: ListenerState::OneFingerMove,
                    touch_start_us: now_us,
                    click_seen: false,
                    path: seq![Sample { x: self.ptr_x, y: self.ptr_y, ts_us: now_us }],
                    pushed: 1,
                    distance: Double::zero(),
                    ..self
                },
                actions: seq![
                    ListenerAction::Send(MomentumMessage::Stop),
                    ListenerAction::SetClickInhibit(false),
                ],
            }
        }
    }

    /// Whether an event is the lift of a touch that moved the pointer.
    pub open spec fn takes_click(self, event: TouchpadEvent) -> bool {
        self.state == ListenerState::OneFingerMove && class_of(event.event_type, event.code)
            == EventClass::Touch && event.value != 1
    }

    /// What the lifting of the finger leads to.
    pub open spec fn after_touch_up(self, now_us: u64, shared: Shared) -> Step {
        match self.state {
            ListenerState::Idle => Step { model: self, actions: Seq::empty() },
            ListenerState::OneFingerMove => Step {
                model: ListenerModel { state: ListenerState::Idle, ..self },
                actions: if self.click_seen || shared.external_click {
                    seq![
                        ListenerAction::Log(
                            Decision::RejectClick {
                                click_seen: self.click_seen,
                                external_click_seen: shared.external_click,
                                touch_us: elapsed(self.touch_start_us as int, now_us as int) as u64,
                                ring_samples: self.path.len() as usize,
                                total_samples: self.pushed,
                            },
                        ),
                    ]
                } else {
                    seq![ListenerAction::EvaluateLift]
                },
            },
            ListenerState::MomentumRetouch => self.after_retouch_up(now_us, shared),
        }
    }

    /// What the end of a retouch leads to. A retouch that was too short to stop inertia
    /// is as if it had not been; any other leaves the pointer at rest and the touchpad
    /// to the desktop.
    pub open spec fn after_retouch_up(self, now_us: u64, shared: Shared) -> Step {
        let duration_us = elapsed(self.retouch_start_us as int, now_us as int) as u64;
        let confirm_us = self.stop_touch_us;
        let token = next_token(self.active_token);
        let ended = ListenerModel {
            state: ListenerState::Idle,
            active_token: token,
            current_token: 0,
            retouch_forwarded: false,
            ..self
        };
        if stopped(self.current_token, shared.stopped_token) {
            Step {
                model: ListenerModel {
                    momentum_active: false,
                    awaiting_stop_touch: false,
                    grabs: self.grabs.push(GrabAction::Ungrab(GrabReason::RetouchReleaseAfterStop)),
                    ..ended
                },
                actions: seq![
                    ListenerAction::SetActiveToken(token),
                    ListenerAction::Log(Decision::RetouchReleased { duration_us, confirm_us }),
                ],
            }
        } else if duration_us < confirm_us {
            Step {
                model: if self.momentum_active {
                    ListenerModel {
                        awaiting_stop_touch: true,
                        stop_armed_after_us: now_us,
                        ..ended
                    }
                } else {
                    ended
                },
                actions: seq![
                    ListenerAction::SetActiveToken(token),
                    ListenerAction::Log(Decision::RetouchTooShort { duration_us, confirm_us }),
                ],
            }
        } else {
            Step {
                model: ListenerModel {
                    momentum_active: false,
                    awaiting_stop_touch: false,
                    grabs: self.grabs.push(
                        GrabAction::Ungrab(GrabReason::RetouchConfirmedOnRelease),
                    ),
                    ..ended
                },
                actions: seq![
                    ListenerAction::SetActiveToken(token),
                    ListenerAction::Send(MomentumMessage::Stop),
                    ListenerAction::SetStoppedToken(self.current_token),
                    ListenerAction::Log(Decision::RetouchStopOnRelease { duration_us, confirm_us }),
                ],
            }
        }
    }

    /// What a pressed button leads to.
    pub open spec fn after_click(self) -> Step {
        Step {
            model: ListenerModel { click_seen: true, ..self },
            actions: seq![
                ListenerAction::SetClickInhibit(true),
                ListenerAction::Send(MomentumMessage::Stop),
            ],
        }
    }

    /// What a second finger leads to.
    pub open spec fn after_multitouch(self) -> Step {
        let token = next_token(self.active_token);
        Step {
            model: ListenerModel {
                state: ListenerState::Idle,
                click_seen: true,
                active_token: token,
                current_token: 0,
                retouch_forwarded: false,
                ..self
            },
            actions: seq![
                ListenerAction::SetActiveToken(token),
                ListenerAction::Send(MomentumMessage::Stop),
            ],
        }
    }

    /// What an event leads to.
    pub open spec fn after_event(self, event: TouchpadEvent, shared: Shared) -> Step {
        let nothing = Step { model: self, actions: Seq::empty() };
        match class_of(event.event_type, event.code) {
            EventClass::AxisX => self.after_axis(true, event.value, event.now_us, shared),
            EventClass::AxisY => self.after_axis(false, event.value, event.now_us, shared),
            EventClass::Touch => if event.value == 1 {
                self.after_touch_down(event.now_us)
            } else {
                self.after_touch_up(event.now_us, shared)
            },
            EventClass::Click(_) => if event.value == 1 {
                self.after_click()
            } else {
                nothing
            },
            EventClass::MultiTouch => if event.value == 1 {
                self.after_multitouch()
            } else {
                nothing
            },
            EventClass::Other => nothing,
        }
    }

    /// What the decision on a lift leads to.
    pub open spec fn after_lift(self, now_us: u64, decision: StartDecision) -> Step {
        match decision {
            StartDecision::Start { vx, vy } => Step {
                model: ListenerModel {
                    momentum_active: true,
                    awaiting_stop_touch: true,
                    stop_armed_after_us: (now_us + RETOUCH_ARM_DELAY_US) as u64,
                    grabs: self.grabs.push(GrabAction::Grab(GrabReason::MomentumStart)),
                    ..self
                },
                actions: seq![ListenerAction::Send(MomentumMessage::StartPointer { vx, vy })],
            },
            _ => Step { model: self, actions: Seq::empty() },
        }
    }

    /// What a report of the engine leads to. The touchpad stays grabbed as long as a
    /// finger is on it that met the coasting pointer.
    pub open spec fn after_status(self, status: EngineStatus) -> ListenerModel {
        match status {
            EngineStatus::PointerActive => ListenerModel { momentum_active: true, ..self },
            EngineStatus::PointerIdle => ListenerModel {
                momentum_active: false,
                awaiting_stop_touch: self.awaiting_stop_touch && self.state
                    == ListenerState::MomentumRetouch,
                ..self
            },
        }
    }

    /// The release that a report of the engine asks for.
    pub open spec fn release_on_status(self, status: EngineStatus) -> Option<GrabAction> {
        if status == EngineStatus::PointerIdle && self.state != ListenerState::MomentumRetouch {
            Some(GrabAction::Ungrab(GrabReason::EngineIdle))
        } else {
            None
        }
    }

    /// Whether the touchpad is grabbed for no reason any more.
    pub open spec fn holds_stale_grab(self) -> bool {
        self.grabbed && !self.momentum_active && self.state != ListenerState::MomentumRetouch
    }

    /// What the check for a stale grab leads to: no touch is waited for where there is one.
    pub open spec fn after_check(self) -> ListenerModel {
        ListenerModel {
            awaiting_stop_touch: self.awaiting_stop_touch && !self.holds_stale_grab(),
            ..self
        }
    }

    /// The release that the check for a stale grab asks for.
    pub open spec fn release_on_check(self) -> Option<GrabAction> {
        if self.holds_stale_grab() {
            Some(GrabAction::Ungrab(GrabReason::InactiveListenerState))
        } else {
            None
        }
    }

    /// What the end of a batch leads to: its grabs and releases are given out, and a touch
    /// that met a coasting pointer counts as one with a click.
    pub open spec fn after_batch_end(self) -> ListenerModel {
        ListenerModel {
            click_seen: self.click_seen || self.state == ListenerState::MomentumRetouch,
            grabs: Seq::empty(),
            ..self
        }
    }

    /// What the outcome of a grab or a release leads to.
    pub open spec fn after_grab(self, action: GrabAction, succeeded: bool) -> ListenerModel {
        ListenerModel {
            grabbed: if succeeded {
                action is Grab
            } else {
                self.grabbed
            },
            ..self
        }
    }

    /// Whether there is anything to do about a grab or a release.
    pub open spec fn wants(self, action: GrabAction) -> bool {
        match action {
            GrabAction::Grab(_) => !self.grabbed,
            GrabAction::Ungrab(_) => self.grabbed,
        }
    }

    /// Whether the numbers that an event leads to fit their types: the step of a
    /// continued touch, the number of samples of a touch, the number of retouches.
    pub open spec fn has_room(self, event: TouchpadEvent) -> bool {
        match (class_of(event.event_type, event.code), self.state) {
            (
                EventClass::AxisX,
                ListenerState::MomentumRetouch,
            ) => i32::MIN <= event.value - self.retouch_ptr_x <= i32::MAX,
            (
                EventClass::AxisY,
                ListenerState::MomentumRetouch,
            ) => i32::MIN <= event.value - self.retouch_ptr_y <= i32::MAX,
            (EventClass::AxisX | EventClass::AxisY, ListenerState::OneFingerMove) => self.pushed
                < u64::MAX,
            (EventClass::Touch, _) => event.value == 1 && self.meets_momentum()
                && event.now_us >= self.armed_after(event.now_us) ==> self.active_token < u64::MAX,
            _ => true,
        }
    }
}

/// The token after a token, around the end of the number range.
pub open spec fn next_token(token: u64) -> u64 {
    if token == u64::MAX {
        0
    } else {
        (token + 1) as u64
    }
}

/// The listener.
pub struct Listener {
    stale_us: u64,
    stop_touch_us: u64,
    state: ListenerState,
    ptr_x: i32,
    ptr_y: i32,
    touch_start_us: u64,
    click_seen: bool,
    awaiting_stop_touch: bool,
    stop_armed_after_us: u64,
    active_token: u64,
    current_token: u64,
    retouch_start_us: u64,
    retouch_ptr_x: i32,
    retouch_ptr_y: i32,
    retouch_forwarded: bool,
    motion: MotionRing,
    grabbed: bool,
    momentum_active: bool,
    grabs: Vec<GrabAction>,
}

impl View for Listener {
    type V = ListenerModel;

    closed spec fn view(&self) -> ListenerModel {
        ListenerModel {
            stale_us: self.stale_us,
            stop_touch_us: self.stop_touch_us,
            state: self.state,
            ptr_x: self.ptr_x,
            ptr_y: self.ptr_y,
            touch_start_us: self.touch_start_us,
            click_seen: self.click_seen,
            awaiting_stop_touch: self.awaiting_stop_touch,
            stop_armed_after_us: self.stop_armed_after_us,
            active_token: self.active_token,
            current_token: self.current_token,
            retouch_start_us: self.retouch_start_us,
            retouch_ptr_x: self.retouch_ptr_x,
            retouch_ptr_y: self.retouch_ptr_y,
            retouch_forwarded: self.retouch_forwarded,
            path: self.motion.path(),
            pushed: self.motion.pushed(),
            distance: self.motion.distance(),
            grabbed: self.grabbed,
            momentum_active: self.momentum_active,
            grabs: self.grabs@,
        }
    }
}

impl Listener {
    /// The path is kept in order.
    pub closed spec fn wf(self) -> bool {
        self.motion.wf()
    }

    /// A listener that has seen nothing yet.
    pub fn new(velocity_stale_ms: u64, stop_touch_ms: u64) -> (listener: Listener)
        requires
            velocity_stale_ms * 1000 <= u64::MAX,
        ensures
            listener.wf(),
            listener@ == ListenerModel::fresh(
                microseconds(velocity_stale_ms),
                microseconds(stop_touch_ms),
            ),
    {
        Listener {
            stale_us: velocity_stale_ms * 1000,
            stop_touch_us: if stop_touch_ms <= u64::MAX / 1000 {
                stop_touch_ms * 1000
            } else {
                u64::MAX
            },
            state: ListenerState::Idle,
            ptr_x: 0,
            ptr_y: 0,
            touch_start_us: 0,
            click_seen: false,
            awaiting_stop_touch: false,
            stop_armed_after_us: 0,
            active_token: 0,
            current_token: 0,
            retouch_start_us: 0,
            retouch_ptr_x: 0,
            retouch_ptr_y: 0,
            retouch_forwarded: false,
            motion: MotionRing::new(),
            grabbed: false,
            momentum_active: false,
            grabs: Vec::new(),
        }
    }

    /// The path of the present touch.
    pub fn motion(&self) -> (motion: &MotionRing)
        requires
            self.wf(),
        ensures
            motion.wf(),
            motion.path() == self@.path,
            motion.pushed() == self@.pushed,
            motion.distance() == self@.distance,
    {
        &self.motion
    }

    /// How old a sample may be that the release velocity is measured over.
    pub fn stale_us(&self) -> (us: u64)
        ensures
            us == self@.stale_us,
    {
        self.stale_us
    }

    /// How long the present touch has lasted.
    pub fn touch_duration_us(&self, now_us: u64) -> (us: u64)
        ensures
            us == elapsed(self@.touch_start_us as int, now_us as int),
    {
        now_us.saturating_sub(self.touch_start_us)
    }

    /// Sets the travelled distance, once a step was added to it.
    pub fn set_total_distance(&mut self, total_distance: Double)
        requires
            old(self).wf(),
        ensures
            final(self).wf(),
            final(self)@ == (ListenerModel { distance: total_distance, ..old(self)@ }),
    {
        self.motion.set_total_distance(total_distance);
    }

    /// Whether an event is the lift of a touch that moved the pointer. Such a lift uses
    /// up the click that the button node may have seen.
    pub fn takes_external_click(&self, event: &TouchpadEvent) -> (r: bool)
        ensures
            r == self@.takes_click(*event),
    {
        match classify(event.event_type, event.code) {
            EventClass::Touch => event.value != 1 && self.state == ListenerState::OneFingerMove,
            _ => false,
        }
    }

    /// Whether the numbers that an event leads to fit their types.
    pub fn can_handle(&self, event: &TouchpadEvent) -> (r: bool)
        requires
            self.wf(),
        ensures
            r == self@.has_room(*event),
    {
        let axis_room = |from: i32| -> (r: bool)
            ensures
                r == (i32::MIN <= event.value - from <= i32::MAX),
            { i32::MIN as i64 <= event.value as i64 - from as i64 && event.value as i64 - from as i64
                <= i32::MAX as i64 };
        match (classify(event.event_type, event.code), self.state) {
            (EventClass::AxisX, ListenerState::MomentumRetouch) => axis_room(self.retouch_ptr_x),
            (EventClass::AxisY, ListenerState::MomentumRetouch) => axis_room(self.retouch_ptr_y),
            (
                EventClass::AxisX | EventClass::AxisY,
                ListenerState::OneFingerMove,
            ) => self.motion.total_count() < u64::MAX,
            (EventClass::Touch, _) => {
                let meets = self.awaiting_stop_touch || (self.grabbed && self.momentum_active);
                let too_soon = self.awaiting_stop_touch && event.now_us < self.stop_armed_after_us;
                event.value != 1 || !meets || too_soon || self.active_token < u64::MAX
            },
            _ => true,
        }
    }

    /// Handles one event.
    pub fn handle_event(&mut self, event: &TouchpadEvent, shared: Shared) -> (actions: Vec<
        ListenerAction,
    >)
        requires
            old(self).wf(),
            old(self)@.has_room(*event),
        ensures
            final(self).wf(),
            final(self)@ == old(self)@.after_event(*event, shared).model,
            actions@ == old(self)@.after_event(*event, shared).actions,
    {
        match classify(event.event_type, event.code) {
            EventClass::AxisX => self.axis_moved(true, event.value, event.now_us, shared),
            EventClass::AxisY => self.axis_moved(false, event.value, event.now_us, shared),
            EventClass::Touch => if event.value == 1 {
                self.touch_down(event.now_us)
            } else {
                self.touch_up(event.now_us, shared)
            },
            EventClass::Click(_) => if event.value == 1 {
                self.click_seen = true;
                vec![
                    ListenerAction::SetClickInhibit(true),
                    ListenerAction::Send(MomentumMessage::Stop),
                ]
            } else {
                Vec::new()
            },
            EventClass::MultiTouch => if event.value == 1 {
                self.multitouch()
            } else {
                Vec::new()
            },
            EventClass::Other => Vec::new(),
        }
    }

    /// The finger moved along one axis.
    fn axis_moved(&mut self, horizontal: bool, value: i32, now_us: u64, shared: Shared) -> (actions:
        Vec<ListenerAction>)
        requires
            old(self).wf(),
            old(self)@.state == ListenerState::OneFingerMove ==> old(self)@.pushed < u64::MAX,
            old(self)@.state == ListenerState::MomentumRetouch && horizontal ==> i32::MIN <= value
                - old(self)@.retouch_ptr_x <= i32::MAX,
            old(self)@.state == ListenerState::MomentumRetouch && !horizontal ==> i32::MIN <= value
                - old(self)@.retouch_ptr_y <= i32::MAX,
        ensures
            final(self).wf(),
            final(self)@ == old(self)@.after_axis(horizontal, value, now_us, shared).model,
            actions@ == old(self)@.after_axis(horizontal, value, now_us, shared).actions,
    {
        let mut actions: Vec<ListenerAction> = Vec::new();
        if self.state == ListenerState::MomentumRetouch {
            let mut dx: i32 = 0;
            let mut dy: i32 = 0;
            if horizontal {
                dx = value - self.retouch_ptr_x;
                self.retouch_ptr_x = value;
            } else {
                dy = value - self.retouch_ptr_y;
                self.retouch_ptr_y = value;
            }
            if (dx != 0 || dy != 0) && retouch_is_stopped(
                self.current_token,
                shared.stopped_token,
            ) {
                if !self.retouch_forwarded {
                    self.retouch_forwarded = true;
                    actions.push(
                        ListenerAction::Log(Decision::RetouchContinue { raw_dx: dx, raw_dy: dy }),
                    );
                }
                actions.push(ListenerAction::Send(MomentumMessage::ContinuePointer { dx, dy }));
            }
        }
        if horizontal {
            self.ptr_x = value;
        } else {
            self.ptr_y = value;
        }
        if self.state == ListenerState::OneFingerMove {
            match self.motion.push(self.ptr_x, self.ptr_y, now_us) {
                Some(step_sq) => actions.push(ListenerAction::ExtendDistance { step_sq }),
                None => {},
            }
        }
        assert(actions@ =~= old(self)@.after_axis(horizontal, value, now_us, shared).actions);
        actions
    }

    /// A finger came down.
    fn touch_down(&mut self, now_us: u64) -> (actions: Vec<ListenerAction>)
        requires
            old(self).wf(),
            old(self)@.meets_momentum() && now_us >= old(self)@.armed_after(now_us) ==> old(
                self,
            )@.active_token < u64::MAX,
        ensures
            final(self).wf(),
            final(self)@ == old(self)@.after_touch_down(now_us).model,
            actions@ == old(self)@.after_touch_down(now_us).actions,
    {
        if self.awaiting_stop_touch || (self.grabbed && self.momentum_active) {
            let armed_after_us: u64 = if self.awaiting_stop_touch {
                self.stop_armed_after_us
            } else {
                now_us
            };
            if now_us < armed_after_us {
                let remaining_us: u64 = armed_after_us - now_us;
                return vec![ListenerAction::Log(Decision::RetouchTooSoon { remaining_us })];
            }
            let late_by_us: u64 = now_us - armed_after_us;
            let token: u64 = self.active_token + 1;
            self.retouch_start_us = now_us;
            self.active_token = token;
            self.current_token = token;
            self.awaiting_stop_touch = false;
            self.retouch_ptr_x = self.ptr_x;
            self.retouch_ptr_y = self.ptr_y;
            self.retouch_forwarded = false;
            self.state = ListenerState::MomentumRetouch;
            return vec![
                ListenerAction::SetActiveToken(token),
                ListenerAction::Log(
                    Decision::RetouchPending { late_by_us, confirm_us: self.stop_touch_us },
                ),
                ListenerAction::ArmTimer { token, delay_us: self.stop_touch_us },
            ];
        }
        self.state = ListenerState::OneFingerMove;
        self.touch_start_us = now_us;
        self.click_seen = false;
        self.motion.clear();
        let _ = self.motion.push(self.ptr_x, self.ptr_y, now_us);
        assert(self@.path =~= seq![Sample { x: self.ptr_x, y: self.ptr_y, ts_us: now_us }]);
        vec![
            ListenerAction::Send(MomentumMessage::Stop),
            ListenerAction::SetClickInhibit(false),
        ]
    }

    /// The finger was lifted.
    fn touch_up(&mut self, now_us: u64, shared: Shared) -> (actions: Vec<ListenerAction>)
        requires
            old(self).wf(),
        ensures
            final(self).wf(),
            final(self)@ == old(self)@.after_touch_up(now_us, shared).model,
            actions@ == old(self)@.after_touch_up(now_us, shared).actions,
    {
        match self.state {
            ListenerState::Idle => Vec::new(),
            ListenerState::OneFingerMove => {
                self.state = ListenerState::Idle;
                if self.click_seen || shared.external_click {
                    vec![
                        ListenerAction::Log(
                            Decision::RejectClick {
                                click_seen: self.click_seen,
                                external_click_seen: shared.external_click,
                                touch_us: now_us.saturating_sub(self.touch_start_us),
                                ring_samples: self.motion.count(),
                                total_samples: self.motion.total_count(),
                            },
                        ),
                    ]
                } else {
                    vec![ListenerAction::EvaluateLift]
                }
            },
            ListenerState::MomentumRetouch => self.retouch_up(now_us, shared),
        }
    }

    /// The finger that met a coasting pointer was lifted.
    fn retouch_up(&mut self, now_us: u64, shared: Shared) -> (actions: Vec<ListenerAction>)
        requires
            old(self).wf(),
        ensures
            final(self).wf(),
            final(self)@ == old(self)@.after_retouch_up(now_us, shared).model,
            actions@ == old(self)@.after_retouch_up(now_us, shared).actions,
    {
        let duration_us: u64 = now_us.saturating_sub(self.retouch_start_us);
        let confirm_us: u64 = self.stop_touch_us;
        let already_stopped = retouch_is_stopped(self.current_token, shared.stopped_token);
        self.active_token = self.active_token.wrapping_add(1);
        let mut actions: Vec<ListenerAction> = vec![
            ListenerAction::SetActiveToken(self.active_token),
        ];
        if duration_us < confirm_us && !already_stopped {
            actions.push(
                ListenerAction::Log(Decision::RetouchTooShort { duration_us, confirm_us }),
            );
            if self.momentum_active {
                self.awaiting_stop_touch = true;
                self.stop_armed_after_us = now_us;
            }
        } else if already_stopped {
            actions.push(
                ListenerAction::Log(Decision::RetouchReleased { duration_us, confirm_us }),
            );
            self.momentum_active = false;
            self.awaiting_stop_touch = false;
            self.grabs.push(GrabAction::Ungrab(GrabReason::RetouchReleaseAfterStop));
        } else {
            actions.push(ListenerAction::Send(MomentumMessage::Stop));
            actions.push(ListenerAction::SetStoppedToken(self.current_token));
            actions.push(
                ListenerAction::Log(Decision::RetouchStopOnRelease { duration_us, confirm_us }),
            );
            self.momentum_active = false;
            self.awaiting_stop_touch = false;
            self.grabs.push(GrabAction::Ungrab(GrabReason::RetouchConfirmedOnRelease));
        }
        self.current_token = 0;
        self.retouch_forwarded = false;
        self.state = ListenerState::Idle;
        assert(actions@ =~= old(self)@.after_retouch_up(now_us, shared).actions);
        actions
    }

    /// A second finger came down.
    fn multitouch(&mut self) -> (actions: Vec<ListenerAction>)
        requires
            old(self).wf(),
        ensures
            final(self).wf(),
            final(self)@ == old(self)@.after_multitouch().model,
            actions@ == old(self)@.after_multitouch().actions,
    {
        self.click_seen = true;
        self.active_token = self.active_token.wrapping_add(1);
        self.current_token = 0;
        self.retouch_forwarded = false;
        self.state = ListenerState::Idle;
        vec![
            ListenerAction::SetActiveToken(self.active_token),
            ListenerAction::Send(MomentumMessage::Stop),
        ]
    }

    /// Decides whether the lift of the present touch starts inertia. The second part of the
    /// result is the stretch that the release velocity is taken from, where there is one.
    ///
    /// The speeds belong to the windows that the path's `tail_windows` gives, the two
    /// velocities to the stretches that its `release_window` gives for `now_us` and
    /// `stale_us`, without and with the tail trimmed.
    pub fn evaluate_lift(&self, now_us: u64, numbers: &LiftNumbers) -> (r: (
        StartDecision,
        Option<ReleaseVelocity>,
    ))
        requires
            self.wf(),
            numbers.speeds is Some <==> self@.path.len() >= VELOCITY_WINDOW_SAMPLES
                + LIFT_TAIL_SAMPLES,
        ensures
            r.0 == self@.lift_decision(now_us, *numbers),
            is_release_of(
                r.1,
                self@.path,
                now_us,
                self@.stale_us,
                numbers.min_velocity,
                numbers.speeds,
            ),
            ({
                let path = self@.path;
                let trim = trim_of(numbers.speeds, numbers.min_velocity);
                let start = release_start(path, now_us, self@.stale_us, trim is Some);
                let end = release_end(path, trim is Some);
                match r.1 {
                    Some(release) => {
                        &&& has_release_velocity(path, now_us, self@.stale_us, trim is Some)
                        &&& release.summary.describes(path, start, end)
                        &&& forall|i: int|
                            start <= i <= end ==> elapsed(
                                (#[trigger] path[i]).ts_us as int,
                                now_us as int,
                            ) <= self@.stale_us
                        &&& release.age_us == elapsed(path[end].ts_us as int, now_us as int)
                        &&& release.trim == trim
                    },
                    None => !has_release_velocity(path, now_us, self@.stale_us, trim is Some),
                }
            }),
    {
        let release = self.motion.compute_release_velocity(
            now_us,
            self.stale_us,
            numbers.min_velocity,
            numbers.speeds,
        );
        let speed = match &release {
            Some(release) => if release.trim.is_some() {
                Some(numbers.before_tail)
            } else {
                Some(numbers.last)
            },
            None => None,
        };
        let decision = maybe_start_pointer(
            self.touch_duration_us(now_us),
            self.motion.total_distance(),
            speed,
            numbers.min_velocity,
        );
        (decision, release)
    }

    /// Takes note of the decision on a lift.
    pub fn finish_lift(&mut self, now_us: u64, decision: StartDecision) -> (actions: Vec<
        ListenerAction,
    >)
        requires
            old(self).wf(),
            decision is Start ==> now_us + RETOUCH_ARM_DELAY_US <= u64::MAX,
        ensures
            final(self).wf(),
            final(self)@ == old(self)@.after_lift(now_us, decision).model,
            actions@ == old(self)@.after_lift(now_us, decision).actions,
    {
        match decision {
            StartDecision::Start { vx, vy } => {
                self.momentum_active = true;
                self.awaiting_stop_touch = true;
                self.stop_armed_after_us = now_us + RETOUCH_ARM_DELAY_US;
                self.grabs.push(GrabAction::Grab(GrabReason::MomentumStart));
                vec![ListenerAction::Send(MomentumMessage::StartPointer { vx, vy })]
            },
            _ => Vec::new(),
        }
    }

    /// Takes note of a report of the engine, and says whether the touchpad is to be
    /// released.
    pub fn engine_status(&mut self, status: EngineStatus) -> (release: Option<GrabAction>)
        requires
            old(self).wf(),
        ensures
            final(self).wf(),
            final(self)@ == old(self)@.after_status(status),
            release == old(self)@.release_on_status(status),
    {
        match status {
            EngineStatus::PointerActive => {
                self.momentum_active = true;
                None
            },
            EngineStatus::PointerIdle => {
                self.momentum_active = false;
                if self.state != ListenerState::MomentumRetouch {
                    self.awaiting_stop_touch = false;
                    Some(GrabAction::Ungrab(GrabReason::EngineIdle))
                } else {
                    None
                }
            },
        }
    }

    /// Says whether the touchpad is grabbed for no reason any more, so that it is to be
    /// released; then no touch is waited for either.
    pub fn release_stale_grab(&mut self) -> (release: Option<GrabAction>)
        requires
            old(self).wf(),
        ensures
            final(self).wf(),
            final(self)@ == old(self)@.after_check(),
            release == old(self)@.release_on_check(),
    {
        if !self.grabbed || self.momentum_active || self.state == ListenerState::MomentumRetouch {
            return None;
        }
        self.awaiting_stop_touch = false;
        Some(GrabAction::Ungrab(GrabReason::InactiveListenerState))
    }

    /// Ends a batch of events, and gives out the grabs and releases that it led to. A
    /// touch that met a coasting pointer counts as one with a click.
    pub fn end_batch(&mut self) -> (grabs: Vec<GrabAction>)
        requires
            old(self).wf(),
        ensures
            final(self).wf(),
            final(self)@ == old(self)@.after_batch_end(),
            grabs@ == old(self)@.grabs,
    {
        if self.state == ListenerState::MomentumRetouch {
            self.click_seen = true;
        }
        let mut grabs: Vec<GrabAction> = Vec::new();
        std::mem::swap(&mut grabs, &mut self.grabs);
        grabs
    }

    /// Whether there is anything to do about a grab or a release.
    pub fn wants_grab(&self, action: &GrabAction) -> (r: bool)
        ensures
            r == self@.wants(*action),
    {
        match action {
            GrabAction::Grab(_) => !self.grabbed,
            GrabAction::Ungrab(_) => self.grabbed,
        }
    }

    /// Takes note of how a grab or a release went. One that failed changes nothing.
    pub fn grab_finished(&mut self, action: &GrabAction, succeeded: bool)
        requires
            old(self).wf(),
        ensures
            final(self).wf(),
            final(self)@ == old(self)@.after_grab(*action, succeeded),
    {
        if succeeded {
            match action {
                GrabAction::Grab(_) => {
                    self.grabbed = true;
                },
                GrabAction::Ungrab(_) => {
                    self.grabbed = false;
                },
            }
        }
    }
}

/// What an event of the separate button node leads to.
pub open spec fn button_actions(event_type: u16, code: u16, value: i32) -> Seq<ListenerAction> {
    match class_of(event_type, code) {
        EventClass::Click(button) if value == 1 => seq![
            ListenerAction::SetClickInhibit(true),
            ListenerAction::Send(MomentumMessage::Stop),
            ListenerAction::Log(Decision::ButtonClick { button }),
        ],
        _ => Seq::empty(),
    }
}

/// What an event of the separate button node leads to: a pressed button stops inertia
/// and keeps the present touch from starting it again.
pub fn button_event(event_type: u16, code: u16, value: i32) -> (actions: Vec<ListenerAction>)
    ensures
        actions@ == button_actions(event_type, code, value),
{
    match classify(event_type, code) {
        EventClass::Click(button) => if value == 1 {
            vec![
                ListenerAction::SetClickInhibit(true),
                ListenerAction::Send(MomentumMessage::Stop),
                ListenerAction::Log(Decision::ButtonClick { button }),
            ]
        } else {
            Vec::new()
        },
        _ => Vec::new(),
    }
}

/// What a timer that was armed for a retouch does once its time has passed.
pub open spec fn timer_actions(active_token: u64, token: u64, stop_touch_us: u64) -> Seq<
    ListenerAction,
> {
    if active_token == token {
        seq![
            ListenerAction::Send(MomentumMessage::Stop),
            ListenerAction::SetStoppedToken(token),
            ListenerAction::Log(Decision::RetouchStopByTimer { confirm_us: stop_touch_us }),
        ]
    } else {
        Seq::empty()
    }
}

/// What a timer that was armed for a retouch does once its time has passed.
pub fn retouch_timer(active_token: u64, token: u64, stop_touch_us: u64) -> (actions: Vec<
    ListenerAction,
>)
    ensures
        actions@ == timer_actions(active_token, token, stop_touch_us),
{
    if active_token != token {
        return Vec::new();
    }
    vec![
        ListenerAction::Send(MomentumMessage::Stop),
        ListenerAction::SetStoppedToken(token),
        ListenerAction::Log(Decision::RetouchStopByTimer { confirm_us: stop_touch_us }),
    ]
}

/// The name of a reason.
pub open spec fn reason_name(reason: GrabReason) -> Seq<char> {
    match reason {
        GrabReason::MomentumStart => "momentum_start"@,
        GrabReason::EngineIdle => "engine_idle"@,
        GrabReason::RetouchReleaseAfterStop => "retouch_release_after_stop"@,
        GrabReason::RetouchConfirmedOnRelease => "retouch_confirmed_on_release"@,
        GrabReason::InactiveListenerState => "inactive_listener_state"@,
        GrabReason::ListenerExit => "listener_exit"@,
    }
}

impl GrabReason {
    /// The name of the reason.
    pub fn name(&self) -> (name: &'static str)
        ensures
            name@ == reason_name(*self),
    {
        match self {
            GrabReason::MomentumStart => "momentum_start",
            GrabReason::EngineIdle => "engine_idle",
            GrabReason::RetouchReleaseAfterStop => "retouch_release_after_stop",
            GrabReason::RetouchConfirmedOnRelease => "retouch_confirmed_on_release",
            GrabReason::InactiveListenerState => "inactive_listener_state",
            GrabReason::ListenerExit => "listener_exit",
        }
    }
}

/// The log line on how a grab or a release went.
pub open spec fn grab_text(action: GrabAction, error: Option<Seq<char>>) -> Seq<char> {
    match (action, error) {
        (GrabAction::Grab(reason), None) => "TOUCHPAD_GRAB reason="@ + reason_name(reason),
        (GrabAction::Ungrab(reason), None) => "TOUCHPAD_UNGRAB reason="@ + reason_name(reason),
        (GrabAction::Grab(reason), Some(error)) => "TOUCHPAD_GRAB_FAILED reason="@ + reason_name(
            reason,
        ) + " error="@ + error,
        (GrabAction::Ungrab(reason), Some(error)) => "TOUCHPAD_UNGRAB_FAILED reason="@
            + reason_name(reason) + " error="@ + error,
    }
}

impl GrabAction {
    /// The log line on how the action went.
    pub fn text(&self, error: Option<&str>) -> (text: String)
        ensures
            text@ == grab_text(
                *self,
                match error {
                    Some(error) => Some(error@),
                    None => None,
                },
            ),
    {
        let mut out = match (self, error) {
            (GrabAction::Grab(_), None) => "TOUCHPAD_GRAB reason=".to_owned(),
            (GrabAction::Ungrab(_), None) => "TOUCHPAD_UNGRAB reason=".to_owned(),
            (GrabAction::Grab(_), Some(_)) => "TOUCHPAD_GRAB_FAILED reason=".to_owned(),
            (GrabAction::Ungrab(_), Some(_)) => "TOUCHPAD_UNGRAB_FAILED reason=".to_owned(),
        };
        match self {
            GrabAction::Grab(reason) => out.append(reason.name()),
            GrabAction::Ungrab(reason) => out.append(reason.name()),
        }
        match error {
            Some(error) => {
                out.append(" error=");
                out.append(error);
            },
            None => {},
        }
        out
    }
}

/// The numbers of a lift, rendered.
pub struct RenderedLift<'a> {
    /// What the touch looked like.
    pub context: &'a str,
    /// What the release velocity was measured over.
    pub velocity_context: &'a str,
    pub vx: &'a str,
    pub vy: &'a str,
    pub speed: &'a str,
    pub start_vx: &'a str,
    pub start_vy: &'a str,
    pub start_speed: &'a str,
    pub start_multiplier: &'a str,
    pub min_speed: &'a str,
}

/// The log line on a lift.
pub open spec fn lift_text(decision: StartDecision, stale_us: u64, lift: RenderedLift) -> Seq<
    char,
> {
    match decision {
        StartDecision::TouchTooShort => "REJECT reason=touch_too_short "@ + lift.context@
            + " min_touch_us="@ + decimal(MIN_TOUCH_US as nat),
        StartDecision::MovementTooShort => "REJECT reason=movement_too_short "@ + lift.context@
            + " min_total_dist=40.0"@,
        StartDecision::NoFreshVelocity => "REJECT reason=no_fresh_velocity "@ + lift.context@
            + " stale_us="@ + decimal(stale_us as nat),
        StartDecision::VelocityTooLow => "REJECT reason=velocity_too_low "@ + lift.context@ + " "@
            + lift.velocity_context@ + " vx="@ + lift.vx@ + " vy="@ + lift.vy@ + " speed="@
            + lift.speed@ + " min_speed="@ + lift.min_speed@,
        StartDecision::Start { .. } => "START reason=criteria_met "@ + lift.context@ + " "@
            + lift.velocity_context@ + " release_vx="@ + lift.vx@ + " release_vy="@ + lift.vy@
            + " release_speed="@ + lift.speed@ + " start_vx="@ + lift.start_vx@ + " start_vy="@
            + lift.start_vy@ + " start_speed="@ + lift.start_speed@ + " start_multiplier="@
            + lift.start_multiplier@ + " min_touch_us="@ + decimal(MIN_TOUCH_US as nat)
            + " min_total_dist=40.0"@ + " min_speed="@ + lift.min_speed@,
    }
}

/// Renders the decision on a lift.
pub fn lift_line(decision: &StartDecision, stale_us: u64, lift: &RenderedLift) -> (text: String)
    ensures
        text@ == lift_text(*decision, stale_us, *lift),
{
    match decision {
        StartDecision::TouchTooShort => {
            let mut out = "REJECT reason=touch_too_short ".to_owned();
            out.append(lift.context);
            out.append(" min_touch_us=");
            push_decimal(&mut out, MIN_TOUCH_US);
            out
        },
        StartDecision::MovementTooShort => {
            let mut out = "REJECT reason=movement_too_short ".to_owned();
            out.append(lift.context);
            out.append(" min_total_dist=40.0");
            out
        },
        StartDecision::NoFreshVelocity => {
            let mut out = "REJECT reason=no_fresh_velocity ".to_owned();
            out.append(lift.context);
            out.append(" stale_us=");
            push_decimal(&mut out, stale_us);
            out
        },
        StartDecision::VelocityTooLow => {
            let mut out = "REJECT reason=velocity_too_low ".to_owned();
            out.append(lift.context);
            out.append(" ");
            out.append(lift.velocity_context);
            out.append(" vx=");
            out.append(lift.vx);
            out.append(" vy=");
            out.append(lift.vy);
            out.append(" speed=");
            out.append(lift.speed);
            out.append(" min_speed=");
            out.append(lift.min_speed);
            out
        },
        StartDecision::Start { .. } => {
            let mut out = "START reason=criteria_met ".to_owned();
            out.append(lift.context);
            out.append(" ");
            out.append(lift.velocity_context);
            out.append(" release_vx=");
            out.append(lift.vx);
            out.append(" release_vy=");
            out.append(lift.vy);
            out.append(" release_speed=");
            out.append(lift.speed);
            out.append(" start_vx=");
            out.append(lift.start_vx);
            out.append(" start_vy=");
            out.append(lift.start_vy);
            out.append(" start_speed=");
            out.append(lift.start_speed);
            out.append(" start_multiplier=");
            out.append(lift.start_multiplier);
            out.append(" min_touch_us=");
            push_decimal(&mut out, MIN_TOUCH_US);
            out.append(" min_total_dist=40.0");
            out.append(" min_speed=");
            out.append(lift.min_speed);
            out
        },
    }
}

} // verus!

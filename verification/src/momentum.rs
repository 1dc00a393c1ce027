//! The momentum engine: the coasting of the pointer, from its start to its end.

use crate::double::Double;
use crate::messages::{EngineStatus, MomentumMessage};
use crate::motion::elapsed;
use crate::text::{decimal, push_decimal, push_signed, signed_decimal};
use crate::x11_pointer::PointerBlockDetector;
use vstd::prelude::*;

verus! {

/// How long the engine waits for a message while the pointer is coasting.
pub const POINTER_TICK_US: u64 = 8_000;

/// A pointer slower than this stops: 25.0, as a bit pattern.
pub const POINTER_STOP_SPEED: u64 = 0x4039_0000_0000_0000;

/// The least and the greatest drag: 0.001 and 0.95, as bit patterns.
pub const LEAST_DRAG: u64 = 0x3f50_624d_d2f1_a9fc;

pub const GREATEST_DRAG: u64 = 0x3fee_6666_6666_6666;

/// The frame, in seconds, that the speed factor is meant for: 1/60, as a bit pattern.
pub const NOMINAL_FRAME_SEC: u64 = 0x3f91_1111_1111_1111;

/// Nanoseconds in a millisecond.
pub const NS_PER_MS: u64 = 1_000_000;

/// Whether the pointer is coasting.
#[derive(Clone, Copy, Debug, PartialEq, Eq, Structural)]
pub enum EngineState {
    Idle,
    PointerMomentum,
}

/// Why inertia was ended by a message.
#[derive(Clone, Copy, Debug, PartialEq, Eq, Structural)]
pub enum StopReason {
    Message,
    ContinuedTouch,
}

/// How much motion was emitted since the pointer started to coast.
#[derive(Clone, Copy, Debug, PartialEq, Eq, Structural)]
pub struct Totals {
    pub emit_count: u64,
    pub total_dx: i64,
    pub total_dy: i64,
}

/// What the engine has to say in the decision log.
#[derive(Clone, Copy, Debug, PartialEq, Eq, Structural)]
pub enum EngineDecision {
    Start,
    Restart,
    Stop { reason: StopReason, totals: Totals },
    DoneBlocked { totals: Totals },
    DoneMaxDuration { elapsed_ms: u64, max_duration_ms: u64, totals: Totals },
    DoneSlow { totals: Totals },
    Emit { dx: i32, dy: i32, totals: Totals },
}

/// What a message leads to.
#[derive(Clone, Copy, Debug, PartialEq, Eq, Structural)]
pub struct MessageOutcome {
    pub log: Option<EngineDecision>,
    /// Whether the motion of a continued touch is to be emitted.
    pub continued: bool,
}

/// Whether a tick goes on to move the pointer.
#[derive(Clone, Copy, Debug, PartialEq, Eq, Structural)]
pub enum TickGate {
    /// The pointer came to rest.
    Done(EngineDecision),
    /// The pointer coasts on; this much time has passed since the last tick.
    Coast { dt_ns: u64 },
}

/// One tick's worth of coasting: the velocity after the decay, its size, and the
/// accumulated motion with this tick's share.
#[derive(Clone, Copy, Debug, PartialEq, Eq, Structural)]
pub struct Frame {
    pub vx: Double,
    pub vy: Double,
    pub speed: Double,
    pub x_accum: Double,
    pub y_accum: Double,
}

/// What a frame leads to.
#[derive(Clone, Copy, Debug, PartialEq, Eq, Structural)]
pub enum FrameOutcome {
    /// The pointer came to rest.
    Done(EngineDecision),
    /// There is no whole unit of motion yet.
    Still,
    /// This motion is to be emitted.
    Move { dx: i32, dy: i32, log: Option<EngineDecision> },
}

/// What is to be done with motion.
#[derive(Clone, Copy, Debug, PartialEq, Eq, Structural)]
pub enum Emission {
    /// Emit it on the virtual device.
    Device { dx: i32, dy: i32 },
    /// There is no device: only report it.
    Dry { dx: i32, dy: i32 },
}

/// Appends a report for the listener.
pub fn send_status(statuses: &mut Vec<EngineStatus>, status: EngineStatus)
    ensures
        final(statuses)@ == old(statuses)@.push(status),
{
    statuses.push(status);
}

/// What is done with motion.
pub open spec fn emission_of(device_present: bool, dx: i32, dy: i32) -> Emission {
    if device_present {
        Emission::Device { dx, dy }
    } else {
        Emission::Dry { dx, dy }
    }
}

/// What is done with the motion of a continued touch.
pub open spec fn continued_emission_of(device_present: bool, dx: i32, dy: i32) -> Option<Emission> {
    if dx == 0 && dy == 0 {
        None
    } else {
        Some(emission_of(device_present, dx, dy))
    }
}

/// Motion goes to the virtual device, where there is one.
pub fn emit_pointer(device_present: bool, dx: i32, dy: i32) -> (emission: Emission)
    ensures
        emission == emission_of(device_present, dx, dy),
{
    if device_present {
        Emission::Device { dx, dy }
    } else {
        Emission::Dry { dx, dy }
    }
}

/// Motion of a continued touch is emitted, where there is any.
pub fn emit_continued_pointer(device_present: bool, dx: i32, dy: i32) -> (emission: Option<
    Emission,
>)
    ensures
        emission == continued_emission_of(device_present, dx, dy),
{
    if dx == 0 && dy == 0 {
        return None;
    }
    Some(emit_pointer(device_present, dx, dy))
}

/// The drag that the decay is computed from.
pub open spec fn drag_in_force(drag: Double) -> Double {
    drag.clamped(Double { bits: LEAST_DRAG }, Double { bits: GREATEST_DRAG })
}

/// The drag that the decay is computed from: the configured one, forced into a range in
/// which the pointer neither coasts for ever nor stops at once.
pub fn effective_drag(drag: Double) -> (r: Double)
    ensures
        r == drag_in_force(drag),
{
    let least = Double { bits: LEAST_DRAG };
    let greatest = Double { bits: GREATEST_DRAG };
    proof {
        crate::double::lemma_positive_order(least, greatest);
    }
    drag.clamp(least, greatest)
}

/// Takes the whole units out of accumulated motion.
pub fn take_integer_motion(accum: &mut Double) -> (whole: i32)
    ensures
        old(accum).splits_into(whole, *final(accum)),
{
    let (whole, rest) = accum.split_whole();
    *accum = rest;
    whole
}

/// Takes the whole units out of both axes.
pub fn take_continued_motion(x_accum: &mut Double, y_accum: &mut Double) -> (motion: (i32, i32))
    ensures
        old(x_accum).splits_into(motion.0, *final(x_accum)),
        old(y_accum).splits_into(motion.1, *final(y_accum)),
{
    let dx: i32 = take_integer_motion(x_accum);
    let dy: i32 = take_integer_motion(y_accum);
    (dx, dy)
}

/// The momentum engine.
#[derive(Clone, Copy, Debug)]
pub struct Engine {
    pub state: EngineState,
    /// The velocity of the pointer, in touchpad units per second.
    pub vx: Double,
    pub vy: Double,
    /// Motion that was not emitted yet, in units of the virtual mouse.
    pub x_accum: Double,
    pub y_accum: Double,
    /// When the last tick was, and when the pointer started to coast, in nanoseconds of a
    /// clock that never goes back.
    pub last_tick_ns: u64,
    pub started_ns: u64,
    pub totals: Totals,
    /// How long the pointer may coast; zero for no limit.
    pub max_duration_ms: u64,
    pub detector: PointerBlockDetector,
}

impl Engine {
    /// The engine with the pointer at rest.
    pub open spec fn at_rest(self) -> Engine {
        Engine {
            state: EngineState::Idle,
            vx: Double::zero(),
            vy: Double::zero(),
            x_accum: Double::zero(),
            y_accum: Double::zero(),
            ..self
        }
    }

    /// The engine with the pointer just let go.
    pub open spec fn launched(
        self,
        vx: Double,
        vy: Double,
        now_ns: u64,
        position: Option<(i16, i16)>,
    ) -> Engine {
        Engine {
            state: EngineState::PointerMomentum,
            vx,
            vy,
            x_accum: Double::zero(),
            y_accum: Double::zero(),
            last_tick_ns: now_ns,
            started_ns: now_ns,
            totals: Totals { emit_count: 0, total_dx: 0, total_dy: 0 },
            max_duration_ms: self.max_duration_ms,
            detector: PointerBlockDetector {
                pending_motion: false,
                blocked_samples: 0,
                last_position: position,
                ..self.detector
            },
        }
    }

    /// The engine before anything happened.
    pub open spec fn fresh(max_duration_ms: u64, now_ns: u64) -> Engine {
        Engine {
            state: EngineState::Idle,
            vx: Double::zero(),
            vy: Double::zero(),
            x_accum: Double::zero(),
            y_accum: Double::zero(),
            last_tick_ns: now_ns,
            started_ns: now_ns,
            totals: Totals { emit_count: 0, total_dx: 0, total_dy: 0 },
            max_duration_ms,
            detector: PointerBlockDetector::fresh(),
        }
    }

    /// An engine with the pointer at rest.
    pub fn new(max_duration_ms: u64, now_ns: u64) -> (engine: Engine)
        ensures
            engine == Engine::fresh(max_duration_ms, now_ns),
            engine.at_rest() == engine,
    {
        Engine {
            state: EngineState::Idle,
            vx: Double { bits: 0 },
            vy: Double { bits: 0 },
            x_accum: Double { bits: 0 },
            y_accum: Double { bits: 0 },
            last_tick_ns: now_ns,
            started_ns: now_ns,
            totals: Totals { emit_count: 0, total_dx: 0, total_dy: 0 },
            max_duration_ms,
            detector: PointerBlockDetector::new(),
        }
    }

    fn rest(&mut self)
        ensures
            *final(self) == old(self).at_rest(),
    {
        self.state = EngineState::Idle;
        self.vx = Double { bits: 0 };
        self.vy = Double { bits: 0 };
        self.x_accum = Double { bits: 0 };
        self.y_accum = Double { bits: 0 };
    }

    /// The engine after a message.
    pub open spec fn after_message(
        self,
        message: MomentumMessage,
        now_ns: u64,
        position: Option<(i16, i16)>,
    ) -> Engine {
        match (self.state, message) {
            (_, MomentumMessage::StartPointer { vx, vy }) => self.launched(
                vx,
                vy,
                now_ns,
                position,
            ),
            (EngineState::PointerMomentum, _) => self.at_rest(),
            (EngineState::Idle, MomentumMessage::Stop) => Engine {
                x_accum: Double::zero(),
                y_accum: Double::zero(),
                ..self
            },
            (EngineState::Idle, MomentumMessage::ContinuePointer { .. }) => self,
        }
    }

    /// What the listener hears about a message.
    pub open spec fn reports(self, message: MomentumMessage) -> Seq<EngineStatus> {
        match (self.state, message) {
            (_, MomentumMessage::StartPointer { .. }) => seq![EngineStatus::PointerActive],
            (EngineState::PointerMomentum, _) => seq![EngineStatus::PointerIdle],
            (EngineState::Idle, _) => Seq::empty(),
        }
    }

    /// What a message leads to.
    pub open spec fn message_outcome(self, message: MomentumMessage) -> MessageOutcome {
        MessageOutcome {
            log: match (self.state, message) {
                (EngineState::Idle, MomentumMessage::StartPointer { .. }) => Some(
                    EngineDecision::Start,
                ),
                (EngineState::PointerMomentum, MomentumMessage::StartPointer { .. }) => Some(
                    EngineDecision::Restart,
                ),
                (EngineState::PointerMomentum, MomentumMessage::Stop) => Some(
                    EngineDecision::Stop { reason: StopReason::Message, totals: self.totals },
                ),
                (EngineState::PointerMomentum, MomentumMessage::ContinuePointer { .. }) => Some(
                    EngineDecision::Stop {
                        reason: StopReason::ContinuedTouch,
                        totals: self.totals,
                    },
                ),
                (EngineState::Idle, _) => None,
            },
            continued: message is ContinuePointer,
        }
    }

    /// Handles a message. `position` is where the pointer is, as far as it is known; it
    /// is of account only where the message starts inertia.
    pub fn handle_message(
        &mut self,
        message: &MomentumMessage,
        now_ns: u64,
        position: Option<(i16, i16)>,
        statuses: &mut Vec<EngineStatus>,
    ) -> (outcome: MessageOutcome)
        ensures
            *final(self) == old(self).after_message(*message, now_ns, position),
            final(statuses)@ == old(statuses)@ + old(self).reports(*message),
            outcome == old(self).message_outcome(*message),
    {
        match *message {
            MomentumMessage::StartPointer { vx, vy } => {
                let log = match self.state {
                    EngineState::Idle => EngineDecision::Start,
                    EngineState::PointerMomentum => EngineDecision::Restart,
                };
                self.vx = vx;
                self.vy = vy;
                self.x_accum = Double { bits: 0 };
                self.y_accum = Double { bits: 0 };
                self.totals = Totals { emit_count: 0, total_dx: 0, total_dy: 0 };
                self.last_tick_ns = now_ns;
                self.started_ns = now_ns;
                self.detector.reset(position);
                self.state = EngineState::PointerMomentum;
                send_status(statuses, EngineStatus::PointerActive);
                assert(statuses@ =~= old(statuses)@ + old(self).reports(*message));
                MessageOutcome { log: Some(log), continued: false }
            },
            MomentumMessage::Stop => match self.state {
                EngineState::Idle => {
                    self.x_accum = Double { bits: 0 };
                    self.y_accum = Double { bits: 0 };
                    assert(statuses@ =~= old(statuses)@ + old(self).reports(*message));
                    MessageOutcome { log: None, continued: false }
                },
                EngineState::PointerMomentum => {
                    self.rest();
                    send_status(statuses, EngineStatus::PointerIdle);
                    assert(statuses@ =~= old(statuses)@ + old(self).reports(*message));
                    MessageOutcome {
                        log: Some(
                            EngineDecision::Stop {
                                reason: StopReason::Message,
                                totals: self.totals,
                            },
                        ),
                        continued: false,
                    }
                },
            },
            MomentumMessage::ContinuePointer { .. } => match self.state {
                EngineState::Idle => {
                    assert(statuses@ =~= old(statuses)@ + old(self).reports(*message));
                    MessageOutcome { log: None, continued: true }
                },
                EngineState::PointerMomentum => {
                    self.rest();
                    send_status(statuses, EngineStatus::PointerIdle);
                    assert(statuses@ =~= old(statuses)@ + old(self).reports(*message));
                    MessageOutcome {
                        log: Some(
                            EngineDecision::Stop {
                                reason: StopReason::ContinuedTouch,
                                totals: self.totals,
                            },
                        ),
                        continued: true,
                    }
                },
            },
        }
    }

    /// Whether the engine becomes `next` once the whole units `motion` were taken out of the
    /// accumulated motion of a continued touch.
    pub open spec fn continues_to(
        self,
        x_accum: Double,
        y_accum: Double,
        motion: (i32, i32),
        next: Engine,
    ) -> bool {
        &&& next == (Engine { x_accum: next.x_accum, y_accum: next.y_accum, ..self })
        &&& x_accum.splits_into(motion.0, next.x_accum)
        &&& y_accum.splits_into(motion.1, next.y_accum)
    }

    /// Takes the whole units out of the accumulated motion of a continued touch: of
    /// `x_accum` and `y_accum`, which are the motion that was not emitted yet with the
    /// touch's share.
    pub fn continue_motion(&mut self, x_accum: Double, y_accum: Double) -> (motion: (i32, i32))
        ensures
            old(self).continues_to(x_accum, y_accum, motion, *final(self)),
    {
        let mut x = x_accum;
        let mut y = y_accum;
        let motion = take_continued_motion(&mut x, &mut y);
        self.x_accum = x;
        self.y_accum = y;
        motion
    }

    /// Whether the pointer has coasted for as long as it may.
    pub open spec fn expired(self, now_ns: u64) -> bool {
        self.max_duration_ms > 0 && elapsed(self.started_ns as int, now_ns as int)
            >= self.max_duration_ms * NS_PER_MS
    }

    /// Whether the first half of a tick brings the pointer to rest: it has met an edge, or has
    /// coasted for as long as it may.
    pub open spec fn is_done(self, now_ns: u64, position: Option<(i16, i16)>) -> bool {
        self.detector.check_finds_blocked(position) || self.expired(now_ns)
    }

    /// What the listener hears about the first half of a tick.
    pub open spec fn gate_reports(self, now_ns: u64, position: Option<(i16, i16)>) -> Seq<
        EngineStatus,
    > {
        if self.is_done(now_ns, position) {
            seq![EngineStatus::PointerIdle]
        } else {
            Seq::empty()
        }
    }

    /// What the first half of a tick leads to.
    pub open spec fn gate_outcome(self, now_ns: u64, position: Option<(i16, i16)>) -> TickGate {
        if self.detector.check_finds_blocked(position) {
            TickGate::Done(EngineDecision::DoneBlocked { totals: self.totals })
        } else if self.expired(now_ns) {
            TickGate::Done(
                EngineDecision::DoneMaxDuration {
                    elapsed_ms: (elapsed(self.started_ns as int, now_ns as int)
                        / NS_PER_MS as int) as u64,
                    max_duration_ms: self.max_duration_ms,
                    totals: self.totals,
                },
            )
        } else {
            TickGate::Coast {
                dt_ns: elapsed(self.last_tick_ns as int, now_ns as int) as u64,
            }
        }
    }

    /// The engine after the first half of a tick.
    pub open spec fn after_gate(self, now_ns: u64, position: Option<(i16, i16)>) -> Engine {
        let ticked = Engine {
            last_tick_ns: now_ns,
            detector: self.detector.after_check(position),
            ..self
        };
        if self.is_done(now_ns, position) {
            ticked.at_rest()
        } else {
            ticked
        }
    }

    /// Begins a tick: looks whether the pointer has met an edge, or has coasted for as long
    /// as it may. `position` is where the pointer is, as far as it is known; it is of
    /// account only where the detector asks for it.
    pub fn begin_tick(
        &mut self,
        now_ns: u64,
        position: Option<(i16, i16)>,
        statuses: &mut Vec<EngineStatus>,
    ) -> (gate: TickGate)
        requires
            old(self).state == EngineState::PointerMomentum,
        ensures
            *final(self) == old(self).after_gate(now_ns, position),
            gate == old(self).gate_outcome(now_ns, position),
            final(statuses)@ == old(statuses)@ + old(self).gate_reports(now_ns, position),
    {
        let dt_ns: u64 = now_ns.saturating_sub(self.last_tick_ns);
        self.last_tick_ns = now_ns;
        if self.detector.pointer_is_blocked(position) {
            self.rest();
            send_status(statuses, EngineStatus::PointerIdle);
            return TickGate::Done(EngineDecision::DoneBlocked { totals: self.totals });
        }
        let elapsed_ns: u64 = now_ns.saturating_sub(self.started_ns);
        if self.max_duration_ms > 0 && elapsed_ns as u128 >= self.max_duration_ms as u128
            * NS_PER_MS as u128 {
            self.rest();
            send_status(statuses, EngineStatus::PointerIdle);
            return TickGate::Done(
                EngineDecision::DoneMaxDuration {
                    elapsed_ms: elapsed_ns / NS_PER_MS,
                    max_duration_ms: self.max_duration_ms,
                    totals: self.totals,
                },
            );
        }
        TickGate::Coast { dt_ns }
    }

    /// Whether a frame is too slow to go on.
    pub open spec fn too_slow(frame: Frame) -> bool {
        frame.speed.below(Double { bits: POINTER_STOP_SPEED })
    }

    /// Whether a frame has whole units of motion.
    pub open spec fn moves(frame: Frame) -> bool {
        frame.x_accum.whole_part() != 0 || frame.y_accum.whole_part() != 0
    }

    /// The totals with a frame's motion.
    pub open spec fn totals_with(self, frame: Frame) -> Totals {
        if Engine::moves(frame) {
            Totals {
                emit_count: (self.totals.emit_count + 1) as u64,
                total_dx: (self.totals.total_dx + frame.x_accum.whole_part()) as i64,
                total_dy: (self.totals.total_dy + frame.y_accum.whole_part()) as i64,
            }
        } else {
            self.totals
        }
    }

    /// Whether the totals with a frame's motion fit their types.
    pub open spec fn has_room(self, frame: Frame) -> bool {
        Engine::too_slow(frame) || !Engine::moves(frame) || {
            &&& self.totals.emit_count < u64::MAX
            &&& i64::MIN <= self.totals.total_dx + frame.x_accum.whole_part() <= i64::MAX
            &&& i64::MIN <= self.totals.total_dy + frame.y_accum.whole_part() <= i64::MAX
        }
    }

    /// Whether the totals with a frame's motion fit their types.
    pub fn can_advance(&self, frame: &Frame) -> (r: bool)
        ensures
            r == self.has_room(*frame),
    {
        if frame.speed.lt(&(Double { bits: POINTER_STOP_SPEED })) {
            return true;
        }
        let (dx, _) = frame.x_accum.split_whole();
        let (dy, _) = frame.y_accum.split_whole();
        let total_dx: i128 = self.totals.total_dx as i128 + dx as i128;
        let total_dy: i128 = self.totals.total_dy as i128 + dy as i128;
        (dx == 0 && dy == 0) || (self.totals.emit_count < u64::MAX && i64::MIN as i128 <= total_dx
            && total_dx <= i64::MAX as i128 && i64::MIN as i128 <= total_dy && total_dy
            <= i64::MAX as i128)
    }

    /// Whether the log tells of an emission: it tells of the first few and of some of the
    /// others.
    pub open spec fn is_logged(emit_count: u64) -> bool {
        emit_count <= 3 || emit_count % 25 == 0
    }

    /// Whether the engine becomes `next` with a frame: the pointer comes to rest where it has
    /// become too slow, and otherwise the whole units are taken out of the accumulated motion.
    pub open spec fn advances_to(self, frame: Frame, device_present: bool, next: Engine) -> bool {
        if Engine::too_slow(frame) {
            next == self.at_rest()
        } else {
            &&& frame.x_accum.splits_into(frame.x_accum.whole_part() as i32, next.x_accum)
            &&& frame.y_accum.splits_into(frame.y_accum.whole_part() as i32, next.y_accum)
            &&& next == (Engine {
                vx: frame.vx,
                vy: frame.vy,
                x_accum: next.x_accum,
                y_accum: next.y_accum,
                totals: self.totals_with(frame),
                detector: PointerBlockDetector {
                    pending_motion: self.detector.pending_motion || (device_present
                        && Engine::moves(frame)),
                    ..self.detector
                },
                ..self
            })
        }
    }

    /// What the listener hears about a frame.
    pub open spec fn frame_reports(frame: Frame) -> Seq<EngineStatus> {
        if Engine::too_slow(frame) {
            seq![EngineStatus::PointerIdle]
        } else {
            Seq::empty()
        }
    }

    /// What a frame leads to.
    pub open spec fn frame_outcome(self, frame: Frame) -> FrameOutcome {
        let dx = frame.x_accum.whole_part() as i32;
        let dy = frame.y_accum.whole_part() as i32;
        let totals = self.totals_with(frame);
        if Engine::too_slow(frame) {
            FrameOutcome::Done(EngineDecision::DoneSlow { totals: self.totals })
        } else if !Engine::moves(frame) {
            FrameOutcome::Still
        } else {
            FrameOutcome::Move {
                dx,
                dy,
                log: if Engine::is_logged(totals.emit_count) {
                    Some(EngineDecision::Emit { dx, dy, totals })
                } else {
                    None
                },
            }
        }
    }

    /// Ends a tick with its frame: the pointer comes to rest where it has become too slow,
    /// and otherwise moves by the whole units that have accumulated.
    pub fn advance(
        &mut self,
        frame: &Frame,
        device_present: bool,
        statuses: &mut Vec<EngineStatus>,
    ) -> (outcome: FrameOutcome)
        requires
            old(self).state == EngineState::PointerMomentum,
            old(self).has_room(*frame),
        ensures
            old(self).advances_to(*frame, device_present, *final(self)),
            final(statuses)@ == old(statuses)@ + Engine::frame_reports(*frame),
            outcome == old(self).frame_outcome(*frame),
    {
        if frame.speed.lt(&(Double { bits: POINTER_STOP_SPEED })) {
            self.rest();
            send_status(statuses, EngineStatus::PointerIdle);
            return FrameOutcome::Done(EngineDecision::DoneSlow { totals: self.totals });
        }
        self.vx = frame.vx;
        self.vy = frame.vy;
        self.x_accum = frame.x_accum;
        self.y_accum = frame.y_accum;
        let dx: i32 = take_integer_motion(&mut self.x_accum);
        let dy: i32 = take_integer_motion(&mut self.y_accum);
        if dx == 0 && dy == 0 {
            return FrameOutcome::Still;
        }
        let totals = Totals {
            emit_count: self.totals.emit_count + 1,
            total_dx: self.totals.total_dx + dx as i64,
            total_dy: self.totals.total_dy + dy as i64,
        };
        self.totals = totals;
        if device_present {
            self.detector.record_emission(dx, dy);
        }
        let log = if totals.emit_count <= 3 || totals.emit_count % 25 == 0 {
            Some(EngineDecision::Emit { dx, dy, totals })
        } else {
            None
        };
        FrameOutcome::Move { dx, dy, log }
    }
}

/// The totals in a log line.
pub open spec fn totals_text(totals: Totals) -> Seq<char> {
    " emit_count="@ + decimal(totals.emit_count as nat) + " total_dx="@ + signed_decimal(
        totals.total_dx as int,
    ) + " total_dy="@ + signed_decimal(totals.total_dy as int)
}

fn push_totals(out: &mut String, totals: &Totals)
    ensures
        final(out)@ == old(out)@ + totals_text(*totals),
{
    out.append(" emit_count=");
    push_decimal(out, totals.emit_count);
    out.append(" total_dx=");
    push_signed(out, totals.total_dx);
    out.append(" total_dy=");
    push_signed(out, totals.total_dy);
    assert(out@ =~= old(out)@ + totals_text(*totals));
}

/// The velocity in a log line.
pub open spec fn velocity_text(vx: Seq<char>, vy: Seq<char>, speed: Seq<char>) -> Seq<char> {
    " vx="@ + vx + " vy="@ + vy + " speed="@ + speed
}

fn push_velocity(out: &mut String, vx: &str, vy: &str, speed: &str)
    ensures
        final(out)@ == old(out)@ + velocity_text(vx@, vy@, speed@),
{
    out.append(" vx=");
    out.append(vx);
    out.append(" vy=");
    out.append(vy);
    out.append(" speed=");
    out.append(speed);
    assert(out@ =~= old(out)@ + velocity_text(vx@, vy@, speed@));
}

impl EngineDecision {
    /// The text of the decision. The velocity is rendered.
    pub open spec fn says(self, vx: Seq<char>, vy: Seq<char>, speed: Seq<char>) -> Seq<char> {
        match self {
            EngineDecision::Start => "ENGINE_START"@ + velocity_text(vx, vy, speed),
            EngineDecision::Restart => "ENGINE_RESTART"@ + velocity_text(vx, vy, speed),
            EngineDecision::Stop { reason: StopReason::Message, totals } => {
                "ENGINE_STOP reason=message"@ + totals_text(totals)
            },
            EngineDecision::Stop { reason: StopReason::ContinuedTouch, totals } => {
                "ENGINE_STOP reason=continued_touch"@ + totals_text(totals)
            },
            EngineDecision::DoneBlocked { totals } => {
                "ENGINE_DONE reason=pointer_blocked"@ + totals_text(totals)
            },
            EngineDecision::DoneMaxDuration { elapsed_ms, max_duration_ms, totals } => {
                "ENGINE_DONE reason=max_duration elapsed_ms="@ + decimal(elapsed_ms as nat)
                    + " max_duration_ms="@ + decimal(max_duration_ms as nat) + totals_text(totals)
            },
            EngineDecision::DoneSlow { totals } => {
                "ENGINE_DONE reason=speed_below_stop speed="@ + speed + totals_text(totals)
            },
            EngineDecision::Emit { dx, dy, totals } => {
                "ENGINE_EMIT n="@ + decimal(totals.emit_count as nat) + " dx="@ + signed_decimal(
                    dx as int,
                ) + " dy="@ + signed_decimal(dy as int) + " total_dx="@ + signed_decimal(
                    totals.total_dx as int,
                ) + " total_dy="@ + signed_decimal(totals.total_dy as int) + velocity_text(
                    vx,
                    vy,
                    speed,
                )
            },
        }
    }

    /// Renders the decision.
    pub fn text(&self, vx: &str, vy: &str, speed: &str) -> (text: String)
        ensures
            text@ == self.says(vx@, vy@, speed@),
    {
        match self {
            EngineDecision::Start => {
                let mut out = "ENGINE_START".to_owned();
                push_velocity(&mut out, vx, vy, speed);
                out
            },
            EngineDecision::Restart => {
                let mut out = "ENGINE_RESTART".to_owned();
                push_velocity(&mut out, vx, vy, speed);
                out
            },
            EngineDecision::Stop { reason, totals } => {
                let mut out = match reason {
                    StopReason::Message => "ENGINE_STOP reason=message".to_owned(),
                    StopReason::ContinuedTouch => "ENGINE_STOP reason=continued_touch".to_owned(),
                };
                push_totals(&mut out, totals);
                out
            },
            EngineDecision::DoneBlocked { totals } => {
                let mut out = "ENGINE_DONE reason=pointer_blocked".to_owned();
                push_totals(&mut out, totals);
                out
            },
            EngineDecision::DoneMaxDuration { elapsed_ms, max_duration_ms, totals } => {
                let mut out = "ENGINE_DONE reason=max_duration elapsed_ms=".to_owned();
                push_decimal(&mut out, *elapsed_ms);
                out.append(" max_duration_ms=");
                push_decimal(&mut out, *max_duration_ms);
                push_totals(&mut out, totals);
                out
            },
            EngineDecision::DoneSlow { totals } => {
                let mut out = "ENGINE_DONE reason=speed_below_stop speed=".to_owned();
                out.append(speed);
                push_totals(&mut out, totals);
                out
            },
            EngineDecision::Emit { dx, dy, totals } => {
                let mut out = "ENGINE_EMIT n=".to_owned();
                push_decimal(&mut out, totals.emit_count);
                out.append(" dx=");
                push_signed(&mut out, *dx as i64);
                out.append(" dy=");
                push_signed(&mut out, *dy as i64);
                out.append(" total_dx=");
                push_signed(&mut out, totals.total_dx);
                out.append(" total_dy=");
                push_signed(&mut out, totals.total_dy);
                push_velocity(&mut out, vx, vy, speed);
                out
            },
        }
    }
}

} // verus!

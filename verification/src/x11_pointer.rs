//! Detection of a pointer that does not move although motion is emitted: it has met an
//! edge of the screen.

use vstd::prelude::*;

verus! {

/// How long to wait between two attempts to reach the display, in nanoseconds.
pub const RECONNECT_DELAY_NS: u64 = 2_000_000_000;

/// How often the pointer has to be found unmoved before it counts as blocked.
pub const BLOCKED_SAMPLE_LIMIT: u8 = 3;

/// What is to be done before the pointer's position can be asked for.
#[derive(Clone, Copy, Debug, PartialEq, Eq, Structural)]
pub enum ConnectStep {
    /// Nothing: the connection stands.
    Connected,
    /// Nothing: the last attempt is too recent, and there is no connection.
    Wait,
    /// Try to connect, and say how it went with `connect_finished`.
    Attempt,
}

/// Watches whether the pointer follows the motion that is emitted.
#[derive(Clone, Copy, Debug)]
pub struct PointerBlockDetector {
    /// Whether the connection to the display stands.
    pub connected: bool,
    /// When a connection was last attempted, in nanoseconds of a clock that never goes
    /// back.
    pub last_connect_attempt_ns: Option<u64>,
    /// Where the pointer was last seen.
    pub last_position: Option<(i16, i16)>,
    /// Whether motion was emitted since the pointer was last looked at.
    pub pending_motion: bool,
    /// How often in a row the pointer was found unmoved.
    pub blocked_samples: u8,
}

impl PointerBlockDetector {
    /// The detector before anything happened.
    pub open spec fn fresh() -> PointerBlockDetector {
        PointerBlockDetector {
            connected: false,
            last_connect_attempt_ns: None,
            last_position: None,
            pending_motion: false,
            blocked_samples: 0,
        }
    }

    /// A detector that has seen nothing and is not connected.
    pub fn new() -> (detector: PointerBlockDetector)
        ensures
            detector == PointerBlockDetector::fresh(),
    {
        PointerBlockDetector {
            connected: false,
            last_connect_attempt_ns: None,
            last_position: None,
            pending_motion: false,
            blocked_samples: 0,
        }
    }

    /// The detector that starts over from a position.
    pub open spec fn after_reset(self, position: Option<(i16, i16)>) -> PointerBlockDetector {
        PointerBlockDetector {
            pending_motion: false,
            blocked_samples: 0,
            last_position: position,
            ..self
        }
    }

    /// Starts over from the pointer's present position, where it is known.
    pub fn reset(&mut self, position: Option<(i16, i16)>)
        ensures
            *final(self) == old(self).after_reset(position),
    {
        self.pending_motion = false;
        self.blocked_samples = 0;
        self.last_position = position;
    }

    /// The detector after motion was emitted.
    pub open spec fn after_emission(self, dx: i32, dy: i32) -> PointerBlockDetector {
        PointerBlockDetector {
            pending_motion: self.pending_motion || dx != 0 || dy != 0,
            ..self
        }
    }

    /// Takes note of emitted motion.
    pub fn record_emission(&mut self, dx: i32, dy: i32)
        ensures
            *final(self) == old(self).after_emission(dx, dy),
    {
        if dx != 0 || dy != 0 {
            self.pending_motion = true;
        }
    }

    /// Whether the pointer's position is needed to tell whether it is blocked: only after
    /// motion was emitted.
    pub fn wants_position(&self) -> (r: bool)
        ensures
            r == self.pending_motion,
    {
        self.pending_motion
    }

    /// The detector after a look at the pointer.
    pub open spec fn after_check(self, position: Option<(i16, i16)>) -> PointerBlockDetector {
        if !self.pending_motion {
            self
        } else {
            match position {
                None => PointerBlockDetector {
                    pending_motion: false,
                    last_position: None,
                    blocked_samples: 0,
                    ..self
                },
                Some(p) => PointerBlockDetector { pending_motion: false, ..self.after_observation(
                    p,
                ) },
            }
        }
    }

    /// Whether a look at the pointer finds it blocked.
    pub open spec fn check_finds_blocked(self, position: Option<(i16, i16)>) -> bool {
        &&& self.pending_motion
        &&& position is Some
        &&& self.after_check(position).blocked_samples >= BLOCKED_SAMPLE_LIMIT
    }

    /// Whether the pointer is blocked, given where it is now, as far as that is known. The
    /// position is of no account where no motion was emitted since the last look.
    pub fn pointer_is_blocked(&mut self, position: Option<(i16, i16)>) -> (blocked: bool)
        ensures
            *final(self) == old(self).after_check(position),
            blocked == old(self).check_finds_blocked(position),
    {
        if !self.pending_motion {
            return false;
        }
        self.pending_motion = false;
        match position {
            Some(position) => self.observe_position(position),
            None => {
                self.last_position = None;
                self.blocked_samples = 0;
                false
            },
        }
    }

    /// The detector after it saw the pointer at a position.
    pub open spec fn after_observation(self, position: (i16, i16)) -> PointerBlockDetector {
        PointerBlockDetector {
            last_position: Some(position),
            blocked_samples: if self.last_position != Some(position) {
                0
            } else if self.blocked_samples == u8::MAX {
                u8::MAX
            } else {
                (self.blocked_samples + 1) as u8
            },
            ..self
        }
    }

    /// Takes note of the pointer's position, and says whether the pointer is blocked.
    pub fn observe_position(&mut self, position: (i16, i16)) -> (blocked: bool)
        ensures
            *final(self) == old(self).after_observation(position),
            blocked == (final(self).blocked_samples >= BLOCKED_SAMPLE_LIMIT),
    {
        let unmoved = match self.last_position {
            Some(last) => last.0 == position.0 && last.1 == position.1,
            None => false,
        };
        if unmoved {
            self.blocked_samples = self.blocked_samples.saturating_add(1);
        } else {
            self.blocked_samples = 0;
        }
        self.last_position = Some(position);
        self.blocked_samples >= BLOCKED_SAMPLE_LIMIT
    }

    /// Whether an attempt to connect is too recent for another one.
    pub open spec fn attempted_recently(self, now_ns: u64) -> bool {
        self.last_connect_attempt_ns matches Some(last) && now_ns - last < RECONNECT_DELAY_NS
    }

    /// What is to be done before the pointer's position can be asked for.
    pub open spec fn connect_step(self, now_ns: u64) -> ConnectStep {
        if self.connected {
            ConnectStep::Connected
        } else if self.attempted_recently(now_ns) {
            ConnectStep::Wait
        } else {
            ConnectStep::Attempt
        }
    }

    /// The detector after a connection was asked for.
    pub open spec fn after_connect_step(self, now_ns: u64) -> PointerBlockDetector {
        if self.connect_step(now_ns) == ConnectStep::Attempt {
            PointerBlockDetector { last_connect_attempt_ns: Some(now_ns), ..self }
        } else {
            self
        }
    }

    /// The detector after an attempt to connect ended, or after the display did not answer.
    pub open spec fn with_connection(self, connected: bool) -> PointerBlockDetector {
        PointerBlockDetector { connected, ..self }
    }

    /// What is to be done before the pointer's position can be asked for. An attempt to
    /// connect counts from now on, however it ends.
    pub fn ensure_connected(&mut self, now_ns: u64) -> (step: ConnectStep)
        ensures
            step == old(self).connect_step(now_ns),
            *final(self) == old(self).after_connect_step(now_ns),
    {
        if self.connected {
            return ConnectStep::Connected;
        }
        match self.last_connect_attempt_ns {
            Some(last) => if now_ns.saturating_sub(last) < RECONNECT_DELAY_NS {
                return ConnectStep::Wait;
            },
            None => {},
        }
        self.last_connect_attempt_ns = Some(now_ns);
        ConnectStep::Attempt
    }

    /// Takes note of how an attempt to connect ended.
    pub fn connect_finished(&mut self, connected: bool)
        ensures
            *final(self) == old(self).with_connection(connected),
    {
        self.connected = connected;
    }

    /// Takes note that the display did not answer: the connection is given up.
    pub fn query_failed(&mut self)
        ensures
            *final(self) == old(self).with_connection(false),
    {
        self.connected = false;
    }
}

/// The detector after a number of positions.
pub open spec fn after_positions(
    detector: PointerBlockDetector,
    seen: Seq<(i16, i16)>,
) -> PointerBlockDetector
    decreases seen.len(),
{
    if seen.len() == 0 {
        detector
    } else {
        after_positions(detector, seen.drop_last()).after_observation(seen.last())
    }
}

/// Where the pointer was before the position at an index.
pub open spec fn seen_before(
    start: Option<(i16, i16)>,
    seen: Seq<(i16, i16)>,
    i: int,
) -> Option<(i16, i16)> {
    if i == 0 {
        start
    } else {
        Some(seen[i - 1])
    }
}

/// How many of the last positions did not differ from the one before them.
pub open spec fn unmoved_run(start: Option<(i16, i16)>, seen: Seq<(i16, i16)>) -> nat
    decreases seen.len(),
{
    if seen.len() == 0 || seen_before(start, seen, seen.len() - 1) != Some(seen.last()) {
        0
    } else {
        unmoved_run(start, seen.drop_last()) + 1
    }
}

proof fn lemma_counts_the_run(detector: PointerBlockDetector, seen: Seq<(i16, i16)>)
    requires
        detector.blocked_samples == 0,
    ensures
        after_positions(detector, seen).blocked_samples == if unmoved_run(
            detector.last_position,
            seen,
        ) < u8::MAX {
            unmoved_run(detector.last_position, seen) as int
        } else {
            u8::MAX as int
        },
        after_positions(detector, seen).last_position == seen_before(
            detector.last_position,
            seen,
            seen.len() as int,
        ),
    decreases seen.len(),
{
    if seen.len() > 0 {
        let before = seen.drop_last();
        lemma_counts_the_run(detector, before);
        assert(seen_before(detector.last_position, before, before.len() as int) == seen_before(
            detector.last_position,
            seen,
            seen.len() - 1,
        ));
    }
}

proof fn lemma_run_of_three(start: Option<(i16, i16)>, seen: Seq<(i16, i16)>)
    ensures
        unmoved_run(start, seen) >= 3 <==> seen.len() >= 3 && forall|i: int|
            seen.len() - 3 <= i < seen.len() ==> seen_before(start, seen, i) == Some(
                #[trigger] seen[i],
            ),
{
    let n = seen.len() as int;
    let one = seen.drop_last();
    let two = one.drop_last();
    reveal_with_fuel(unmoved_run, 4);
    if n >= 3 {
        assert(seen_before(start, one, n - 2) == seen_before(start, seen, n - 2));
        assert(seen_before(start, two, n - 3) == seen_before(start, seen, n - 3));
        assert(one.last() == seen[n - 2]);
        assert(two.last() == seen[n - 3]);
        assert(seen.last() == seen[n - 1]);
    }
}

/// From a fresh start the pointer counts as blocked if and only if the last three
/// positions did not differ from the one before them; any movement among them starts
/// the count over.
pub proof fn law_three_unmoved_positions_block(
    detector: PointerBlockDetector,
    seen: Seq<(i16, i16)>,
)
    requires
        detector.blocked_samples == 0,
    ensures
        after_positions(detector, seen).blocked_samples >= BLOCKED_SAMPLE_LIMIT <==> seen.len()
            >= 3 && forall|i: int|
            seen.len() - 3 <= i < seen.len() ==> seen_before(detector.last_position, seen, i)
                == Some(#[trigger] seen[i]),
{
    lemma_counts_the_run(detector, seen);
    lemma_run_of_three(detector.last_position, seen);
}

/// A pointer that was seen to move is not blocked.
pub proof fn law_movement_resets_the_count(detector: PointerBlockDetector, position: (i16, i16))
    requires
        detector.last_position != Some(position),
    ensures
        detector.after_observation(position).blocked_samples == 0,
{
}

/// Without emitted motion the pointer is never found blocked, and a look at it changes
/// nothing.
pub proof fn law_no_motion_no_block(
    detector: PointerBlockDetector,
    position: Option<(i16, i16)>,
)
    requires
        !detector.pending_motion,
    ensures
        !detector.check_finds_blocked(position),
        detector.after_check(position) == detector,
{
}

/// When a look at the pointer finds it blocked: motion was emitted since the last look, the
/// pointer is where it was, and it was found there twice before already.
pub proof fn law_when_the_pointer_is_blocked(
    detector: PointerBlockDetector,
    position: Option<(i16, i16)>,
)
    ensures
        detector.check_finds_blocked(position) <==> {
            &&& detector.pending_motion
            &&& position is Some
            &&& detector.last_position == position
            &&& detector.blocked_samples >= 2
        },
{
}

/// What a look at the pointer leaves behind: it counts the looks in a row that found the pointer
/// where it was, remembers where it is, and waits for new motion. Without motion it is no look.
pub proof fn law_what_a_look_leaves_behind(
    detector: PointerBlockDetector,
    position: Option<(i16, i16)>,
)
    ensures
        ({
            let next = detector.after_check(position);
            let unmoved = position is Some && detector.last_position == position;
            &&& !next.pending_motion
            &&& next.connected == detector.connected
            &&& next.last_connect_attempt_ns == detector.last_connect_attempt_ns
            &&& detector.pending_motion ==> {
                &&& next.last_position == position
                &&& !unmoved ==> next.blocked_samples == 0
                &&& unmoved && detector.blocked_samples < 255 ==> next.blocked_samples
                    == detector.blocked_samples + 1
                &&& unmoved && detector.blocked_samples == 255 ==> next.blocked_samples == 255
            }
            &&& !detector.pending_motion ==> next.last_position == detector.last_position
                && next.blocked_samples == detector.blocked_samples
        }),
        position matches Some(p) ==> detector.pending_motion ==> {
            let seen = detector.after_observation(p);
            let next = detector.after_check(position);
            &&& seen.last_position == next.last_position
            &&& seen.blocked_samples == next.blocked_samples
            &&& seen.pending_motion == detector.pending_motion
            &&& seen.connected == detector.connected
            &&& seen.last_connect_attempt_ns == detector.last_connect_attempt_ns
        },
{
}

/// Motion is waited to be seen from when it was emitted, in whatever direction; a new start waits
/// for none and begins to count where the pointer is.
pub proof fn law_what_motion_and_starts_leave_behind(
    detector: PointerBlockDetector,
    dx: i32,
    dy: i32,
    position: Option<(i16, i16)>,
)
    ensures
        ({
            let moved = detector.after_emission(dx, dy);
            let started = detector.after_reset(position);
            &&& moved.pending_motion <==> detector.pending_motion || !(dx == 0 && dy == 0)
            &&& moved.last_position == detector.last_position && moved.blocked_samples
                == detector.blocked_samples
            &&& moved.connected == detector.connected && moved.last_connect_attempt_ns
                == detector.last_connect_attempt_ns
            &&& !started.pending_motion && started.blocked_samples == 0 && started.last_position
                == position
            &&& started.connected == detector.connected && started.last_connect_attempt_ns
                == detector.last_connect_attempt_ns
        }),
{
}

/// The display is reached for at once, and again no sooner than two seconds after the last attempt,
/// but not while the connection stands; an attempt counts from when it was made, and the end of a
/// connection does not shorten the wait.
pub proof fn law_attempts_keep_their_distance(
    detector: PointerBlockDetector,
    now_ns: u64,
    later_ns: u64,
    connected: bool,
)
    ensures
        detector.connect_step(now_ns) == ConnectStep::Connected <==> detector.connected,
        detector.connect_step(now_ns) == ConnectStep::Attempt <==> !detector.connected && match
            detector.last_connect_attempt_ns {
            Some(last) => now_ns >= last + 2_000_000_000,
            None => true,
        },
        detector.connect_step(now_ns) == ConnectStep::Attempt && now_ns <= later_ns ==> {
            let tried = detector.after_connect_step(now_ns).with_connection(connected);
            tried.with_connection(false).connect_step(later_ns) == ConnectStep::Attempt
                <==> later_ns - now_ns >= 2_000_000_000
        },
        detector.connect_step(now_ns) != ConnectStep::Attempt ==> detector.after_connect_step(
            now_ns,
        ) == detector,
        ({
            let tried = detector.after_connect_step(now_ns);
            &&& tried.connected == detector.connected
            &&& tried.last_position == detector.last_position
            &&& tried.pending_motion == detector.pending_motion
            &&& tried.blocked_samples == detector.blocked_samples
        }),
        ({
            let told = detector.with_connection(connected);
            &&& told.connected == connected
            &&& told.last_connect_attempt_ns == detector.last_connect_attempt_ns
            &&& told.last_position == detector.last_position
            &&& told.pending_motion == detector.pending_motion
            &&& told.blocked_samples == detector.blocked_samples
        }),
{
}

/// A new detector attempts to connect at the first need, and finds nothing blocked.
pub proof fn law_fresh_detector(now_ns: u64, position: Option<(i16, i16)>)
    ensures
        PointerBlockDetector::fresh().connect_step(now_ns) == ConnectStep::Attempt,
        !PointerBlockDetector::fresh().check_finds_blocked(position),
        PointerBlockDetector::fresh().last_position is None,
        PointerBlockDetector::fresh().blocked_samples == 0,
        !PointerBlockDetector::fresh().pending_motion,
{
}

} // verus!

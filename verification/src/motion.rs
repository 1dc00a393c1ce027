//! The recent path of a finger on the touchpad, and what it says about the release.

use crate::double::Double;
use vstd::prelude::*;

verus! {

/// How many samples the ring holds.
pub const RING_SIZE: usize = 100;

/// How many samples a release velocity is measured over.
pub const VELOCITY_WINDOW_SAMPLES: usize = 8;

/// How many samples at the end of a touch may belong to the lifting of the finger.
pub const LIFT_TAIL_SAMPLES: usize = 10;

/// The share of the previous speed below which the tail of a touch counts as the lifting of
/// the finger: 0.45, as a bit pattern.
pub const LIFT_TAIL_SPEED_RATIO: u64 = 0x3fdc_cccc_cccc_cccd;

/// One reported finger position.
#[derive(Clone, Copy, Debug, PartialEq, Eq, Structural)]
pub struct Sample {
    pub x: i32,
    pub y: i32,
    pub ts_us: u64,
}

/// The squared length of the step between two positions.
pub open spec fn step_sq(a: Sample, b: Sample) -> int {
    (b.x - a.x) * (b.x - a.x) + (b.y - a.y) * (b.y - a.y)
}

/// The time from one sample to a later one; zero where the clock went back.
pub open spec fn elapsed(from_us: int, to_us: int) -> int {
    if to_us >= from_us {
        to_us - from_us
    } else {
        0
    }
}

/// The last `RING_SIZE` elements of a path.
pub open spec fn most_recent(path: Seq<Sample>) -> Seq<Sample> {
    if path.len() > RING_SIZE {
        path.skip(path.len() - RING_SIZE)
    } else {
        path
    }
}

/// What a ring holds once the samples of a path were pushed one after the other.
pub open spec fn pushed_all(path: Seq<Sample>) -> Seq<Sample>
    decreases path.len(),
{
    if path.len() == 0 {
        Seq::empty()
    } else {
        most_recent(pushed_all(path.drop_last()).push(path.last()))
    }
}

/// A ring holds the most recent samples of everything pushed since it was cleared, in
/// the order in which they came, whatever was pushed and however often it wrapped.
pub proof fn law_ring_keeps_the_most_recent(path: Seq<Sample>)
    ensures
        pushed_all(path) == most_recent(path),
    decreases path.len(),
{
    if path.len() > 0 {
        law_ring_keeps_the_most_recent(path.drop_last());
        assert(path.drop_last().push(path.last()) =~= path);
        assert(pushed_all(path) =~= most_recent(path));
    } else {
        assert(path =~= Seq::empty());
    }
}

/// The squared length of the step between two positions.
fn squared_step(a: &Sample, b: &Sample) -> (sq: u128)
    ensures
        sq == step_sq(*a, *b),
{
    let dx: i128 = b.x as i128 - a.x as i128;
    let dy: i128 = b.y as i128 - a.y as i128;
    assert(0 <= dx * dx <= 0x1_0000_0000 * 0x1_0000_0000) by (nonlinear_arith)
        requires
            -0x1_0000_0000 <= dx <= 0x1_0000_0000,
    ;
    assert(0 <= dy * dy <= 0x1_0000_0000 * 0x1_0000_0000) by (nonlinear_arith)
        requires
            -0x1_0000_0000 <= dy <= 0x1_0000_0000,
    ;
    (dx * dx + dy * dy) as u128
}

/// What a stretch of the path amounts to. Lengths are given by their squares, which
/// are whole numbers.
#[derive(Debug)]
pub struct MotionSummary {
    /// How many samples the stretch holds.
    pub samples: usize,
    /// From the first sample to the last, along each axis.
    pub dx: i64,
    pub dy: i64,
    /// The squared length of the straight line from the first sample to the last.
    pub distance_sq: u128,
    /// The squared lengths of the steps from sample to sample.
    pub step_sqs: Vec<u128>,
    /// The time from the first sample to the last.
    pub duration_us: u64,
}

impl MotionSummary {
    /// Whether this is the summary of `path[start ..= end]`.
    pub open spec fn describes(self, path: Seq<Sample>, start: int, end: int) -> bool {
        &&& self.samples == end - start + 1
        &&& self.dx == path[end].x - path[start].x
        &&& self.dy == path[end].y - path[start].y
        &&& self.distance_sq == step_sq(path[start], path[end])
        &&& self.step_sqs@.len() == end - start
        &&& forall|i: int|
            0 <= i < end - start ==> (#[trigger] self.step_sqs@[i]) == step_sq(
                path[start + i],
                path[start + i + 1],
            )
        &&& self.duration_us == elapsed(path[start].ts_us as int, path[end].ts_us as int)
    }
}

/// Why the end of a touch was left out of the release velocity.
#[derive(Clone, Copy, Debug, PartialEq, Eq, Structural)]
pub struct LiftTailTrim {
    pub tail_samples: usize,
    pub tail_speed: Double,
    pub previous_speed: Double,
    pub trim_threshold: Double,
}

/// The speeds that decide whether the end of a touch is trimmed.
#[derive(Clone, Copy, Debug, PartialEq, Eq, Structural)]
pub struct TailSpeeds {
    /// The path speed over the last samples.
    pub tail_speed: Double,
    /// The path speed over the window before them.
    pub previous_speed: Double,
    /// The previous speed times `LIFT_TAIL_SPEED_RATIO`.
    pub scaled_previous_speed: Double,
    /// Twice the minimum velocity.
    pub doubled_min_velocity: Double,
}

/// Whether the tail is so much slower than the window before it that it belongs to the
/// lifting of the finger.
pub open spec fn tail_is_lift(speeds: TailSpeeds, min_velocity: Double) -> bool {
    &&& speeds.previous_speed.at_least(min_velocity)
    &&& speeds.tail_speed.below(
        speeds.scaled_previous_speed.larger(speeds.doubled_min_velocity),
    )
}

/// The trim that the speeds of a touch call for.
pub open spec fn trim_of(speeds: Option<TailSpeeds>, min_velocity: Double) -> Option<LiftTailTrim> {
    match speeds {
        Some(s) if tail_is_lift(s, min_velocity) => Some(
            LiftTailTrim {
                tail_samples: LIFT_TAIL_SAMPLES,
                tail_speed: s.tail_speed,
                previous_speed: s.previous_speed,
                trim_threshold: s.scaled_previous_speed.larger(s.doubled_min_velocity),
            },
        ),
        _ => None,
    }
}

/// Decides whether the tail of a touch is trimmed.
pub fn lift_tail_trim(speeds: &TailSpeeds, min_velocity: Double) -> (trim: Option<LiftTailTrim>)
    ensures
        trim == trim_of(Some(*speeds), min_velocity),
{
    let trim_threshold = speeds.scaled_previous_speed.max(speeds.doubled_min_velocity);
    if speeds.previous_speed.ge(&min_velocity) && speeds.tail_speed.lt(&trim_threshold) {
        Some(
            LiftTailTrim {
                tail_samples: LIFT_TAIL_SAMPLES,
                tail_speed: speeds.tail_speed,
                previous_speed: speeds.previous_speed,
                trim_threshold,
            },
        )
    } else {
        None
    }
}

/// The stretch of the path that a release velocity is taken from.
#[derive(Debug)]
pub struct ReleaseVelocity {
    pub summary: MotionSummary,
    /// How old the end of the stretch was at the release.
    pub age_us: u64,
    pub trim: Option<LiftTailTrim>,
}

/// Whether a path has samples enough for a tail and the window before it.
pub open spec fn has_tail(path: Seq<Sample>) -> bool {
    path.len() >= VELOCITY_WINDOW_SAMPLES + LIFT_TAIL_SAMPLES
}

/// The indices of the first and the last sample of the tail.
pub open spec fn tail_window(path: Seq<Sample>) -> (int, int) {
    (path.len() - LIFT_TAIL_SAMPLES, path.len() - 1)
}

/// The indices of the first and the last sample of the window before the tail.
pub open spec fn previous_window(path: Seq<Sample>) -> (int, int) {
    (
        path.len() - LIFT_TAIL_SAMPLES - VELOCITY_WINDOW_SAMPLES,
        path.len() - LIFT_TAIL_SAMPLES - 1,
    )
}

/// The index of the first of the last `samples` samples, or of all where there are fewer.
pub open spec fn recent_start(path: Seq<Sample>, samples: usize) -> int {
    if path.len() > samples {
        path.len() - samples
    } else {
        0
    }
}

/// The index of the last sample that counts for the release velocity.
pub open spec fn release_end(path: Seq<Sample>, trimmed: bool) -> int {
    if trimmed {
        path.len() - LIFT_TAIL_SAMPLES - 1
    } else {
        path.len() - 1
    }
}

/// The index of the first sample of the window that ends at `release_end`.
pub open spec fn window_start(path: Seq<Sample>, trimmed: bool) -> int {
    let end = release_end(path, trimmed);
    if end + 1 >= VELOCITY_WINDOW_SAMPLES {
        end + 1 - VELOCITY_WINDOW_SAMPLES
    } else {
        0
    }
}

/// Whether a sample is young enough to count for a velocity.
pub open spec fn is_fresh(sample: Sample, now_us: u64, stale_us: u64) -> bool {
    elapsed(sample.ts_us as int, now_us as int) <= stale_us
}

/// Whether every sample of `path[start ..= end]` is young enough to count.
pub open spec fn all_fresh(
    path: Seq<Sample>,
    start: int,
    end: int,
    now_us: u64,
    stale_us: u64,
) -> bool {
    forall|i: int| start <= i <= end ==> is_fresh(#[trigger] path[i], now_us, stale_us)
}

/// How far down from `end`, but not below `low`, one gets over fresh samples alone.
pub open spec fn fresh_down_to(
    path: Seq<Sample>,
    low: int,
    end: int,
    now_us: u64,
    stale_us: u64,
) -> int
    decreases end - low,
{
    if end > low && is_fresh(path[end - 1], now_us, stale_us) {
        fresh_down_to(path, low, end - 1, now_us, stale_us)
    } else {
        end
    }
}

/// The index of the first sample that counts for the release velocity: the stale ones at
/// the beginning of the window are left out.
pub open spec fn release_start(
    path: Seq<Sample>,
    now_us: u64,
    stale_us: u64,
    trimmed: bool,
) -> int {
    fresh_down_to(
        path,
        window_start(path, trimmed),
        release_end(path, trimmed),
        now_us,
        stale_us,
    )
}

/// Whether a path yields a release velocity: it was still fresh at the release, and so
/// was a stretch of it, of two samples or more, that took some time.
pub open spec fn has_release_velocity(
    path: Seq<Sample>,
    now_us: u64,
    stale_us: u64,
    trimmed: bool,
) -> bool {
    let start = release_start(path, now_us, stale_us, trimmed);
    let end = release_end(path, trimmed);
    &&& path.len() >= 2
    &&& is_fresh(path.last(), now_us, stale_us)
    &&& is_fresh(path[end], now_us, stale_us)
    &&& start < end
    &&& elapsed(path[start].ts_us as int, path[end].ts_us as int) > 0
}

proof fn lemma_fresh_down_to(path: Seq<Sample>, low: int, end: int, now_us: u64, stale_us: u64)
    requires
        low <= end,
    ensures
        ({
            let start = fresh_down_to(path, low, end, now_us, stale_us);
            &&& low <= start <= end
            &&& is_fresh(path[end], now_us, stale_us) ==> all_fresh(
                path,
                start,
                end,
                now_us,
                stale_us,
            )
            &&& start > low ==> !is_fresh(path[start - 1], now_us, stale_us)
        }),
    decreases end - low,
{
    if end > low && is_fresh(path[end - 1], now_us, stale_us) {
        lemma_fresh_down_to(path, low, end - 1, now_us, stale_us);
    }
}

/// Whether a release velocity is what a path yields, given the speeds that decide on its tail.
pub open spec fn is_release_of(
    release: Option<ReleaseVelocity>,
    path: Seq<Sample>,
    now_us: u64,
    stale_us: u64,
    min_velocity: Double,
    speeds: Option<TailSpeeds>,
) -> bool {
    let trim = trim_of(speeds, min_velocity);
    let start = release_start(path, now_us, stale_us, trim is Some);
    let end = release_end(path, trim is Some);
    match release {
        Some(r) => {
            &&& has_release_velocity(path, now_us, stale_us, trim is Some)
            &&& r.summary.describes(path, start, end)
            &&& r.age_us == elapsed(path[end].ts_us as int, now_us as int)
            &&& r.trim == trim
        },
        None => !has_release_velocity(path, now_us, stale_us, trim is Some),
    }
}

/// No sample that a release velocity is measured over is older than the limit, and the
/// stretch is the longest one of that kind at the end of its window.
pub proof fn law_release_samples_are_fresh(
    path: Seq<Sample>,
    now_us: u64,
    stale_us: u64,
    trimmed: bool,
)
    requires
        has_release_velocity(path, now_us, stale_us, trimmed),
    ensures
        ({
            let low = window_start(path, trimmed);
            let start = release_start(path, now_us, stale_us, trimmed);
            let end = release_end(path, trimmed);
            &&& 0 <= low <= start < end < path.len()
            &&& forall|i: int|
                start <= i <= end ==> elapsed((#[trigger] path[i]).ts_us as int, now_us as int)
                    <= stale_us
            &&& forall|earlier: int|
                low <= earlier < start ==> !(#[trigger] all_fresh(
                    path,
                    earlier,
                    end,
                    now_us,
                    stale_us,
                ))
        }),
{
    let low = window_start(path, trimmed);
    let start = release_start(path, now_us, stale_us, trimmed);
    let end = release_end(path, trimmed);
    lemma_fresh_down_to(path, low, end, now_us, stale_us);
    assert forall|i: int| start <= i <= end implies elapsed(
        (#[trigger] path[i]).ts_us as int,
        now_us as int,
    ) <= stale_us by {
        assert(is_fresh(path[i], now_us, stale_us));
    }
    assert forall|earlier: int| low <= earlier < start implies !(#[trigger] all_fresh(
        path,
        earlier,
        end,
        now_us,
        stale_us,
    )) by {
        assert(!is_fresh(path[start - 1], now_us, stale_us));
    }
}

/// The release velocity is measured over the end of one of two windows: the one that
/// `motion_summary` covers, or, where the tail is trimmed, the one before the tail that
/// `tail_windows` gives. Where the last sample of the window is fresh, that is the whole
/// window if and only if none of it is stale.
pub proof fn law_release_window_is_one_of_two(
    path: Seq<Sample>,
    now_us: u64,
    stale_us: u64,
    trimmed: bool,
)
    requires
        path.len() >= 2,
        trimmed ==> path.len() >= VELOCITY_WINDOW_SAMPLES + LIFT_TAIL_SAMPLES,
    ensures
        ({
            let low = window_start(path, trimmed);
            let start = release_start(path, now_us, stale_us, trimmed);
            let end = release_end(path, trimmed);
            &&& !trimmed ==> end == path.len() - 1 && low == if path.len()
                > VELOCITY_WINDOW_SAMPLES {
                path.len() - VELOCITY_WINDOW_SAMPLES
            } else {
                0
            }
            &&& trimmed ==> end == path.len() - LIFT_TAIL_SAMPLES - 1 && low == path.len()
                - LIFT_TAIL_SAMPLES - VELOCITY_WINDOW_SAMPLES
            &&& low <= start <= end
            &&& is_fresh(path[end], now_us, stale_us) ==> (start == low <==> all_fresh(
                path,
                low,
                end,
                now_us,
                stale_us,
            ))
        }),
{
    let low = window_start(path, trimmed);
    let start = release_start(path, now_us, stale_us, trimmed);
    let end = release_end(path, trimmed);
    lemma_fresh_down_to(path, low, end, now_us, stale_us);
    if start > low {
        assert(!is_fresh(path[start - 1], now_us, stale_us));
    }
}

/// A bounded record of finger positions: once it is full, each new sample displaces the
/// oldest one.
pub struct MotionRing {
    buf: [Sample; RING_SIZE],
    pos: usize,
    count: usize,
    total_count: u64,
    total_distance: Double,
}

/// Writing a sample at the write position, and moving that position on, appends the sample to
/// the path; a full ring loses its oldest sample by that.
proof fn lemma_pushed_path(before: MotionRing, ring: MotionRing, sample: Sample)
    requires
        before.wf(),
        ring.buf@ == before.buf@.update(before.pos as int, sample),
        ring.pos == (before.pos + 1) % (RING_SIZE as int),
        ring.count == if before.count < RING_SIZE {
            before.count + 1
        } else {
            before.count as int
        },
    ensures
        ring.path() == most_recent(before.path().push(sample)),
{
    let grown: int = ring.count - before.count;
    assert forall|i: int| 0 <= i < ring.count implies ring.path()[i] == before.path().push(sample)[i
        + 1 - grown] by {
        let slot = (ring.oldest() + i) % (RING_SIZE as int);
        if i < ring.count - 1 {
            assert(slot == (before.oldest() + (i + 1 - grown)) % (RING_SIZE as int));
            assert(slot != before.pos);
        } else {
            assert(slot == before.pos);
        }
    }
    assert(ring.path() =~= most_recent(before.path().push(sample)));
}

impl MotionRing {
    /// The indices stay inside the buffer.
    pub closed spec fn wf(self) -> bool {
        self.pos < RING_SIZE && self.count <= RING_SIZE
    }

    /// The position of the oldest sample in the buffer.
    spec fn oldest(self) -> int {
        if self.pos >= self.count {
            self.pos - self.count
        } else {
            RING_SIZE - (self.count - self.pos)
        }
    }

    /// The samples held, oldest first.
    pub closed spec fn path(self) -> Seq<Sample> {
        Seq::new(
            self.count as nat,
            |i: int| self.buf@[(self.oldest() + i) % (RING_SIZE as int)],
        )
    }

    /// How many samples were pushed since the ring was cleared.
    pub closed spec fn pushed(self) -> u64 {
        self.total_count
    }

    /// The length of the path since the ring was cleared.
    pub closed spec fn distance(self) -> Double {
        self.total_distance
    }

    /// An empty ring.
    pub fn new() -> (ring: MotionRing)
        ensures
            ring.wf(),
            ring.path() == Seq::<Sample>::empty(),
            ring.pushed() == 0,
            ring.distance() == Double::zero(),
    {
        let ring = MotionRing {
            buf: [Sample { x: 0, y: 0, ts_us: 0 };RING_SIZE],
            pos: 0,
            count: 0,
            total_count: 0,
            total_distance: Double { bits: 0 },
        };
        assert(ring.path() =~= Seq::<Sample>::empty());
        ring
    }

    /// Forgets everything.
    pub fn clear(&mut self)
        requires
            old(self).wf(),
        ensures
            final(self).wf(),
            final(self).path() == Seq::<Sample>::empty(),
            final(self).pushed() == 0,
            final(self).distance() == Double::zero(),
    {
        self.pos = 0;
        self.count = 0;
        self.total_count = 0;
        self.total_distance = Double { bits: 0 };
        assert(self.path() =~= Seq::<Sample>::empty());
    }

    /// Records a position. The result is the squared length of the step from the position
    /// before it, by whose root the travelled distance grows; the first position takes no
    /// step.
    pub fn push(&mut self, x: i32, y: i32, ts_us: u64) -> (step: Option<u128>)
        requires
            old(self).wf(),
            old(self).pushed() < u64::MAX,
        ensures
            final(self).wf(),
            final(self).path() == most_recent(old(self).path().push(Sample { x, y, ts_us })),
            final(self).pushed() == old(self).pushed() + 1,
            final(self).distance() == old(self).distance(),
            match step {
                Some(sq) => old(self).path().len() > 0 && sq == step_sq(
                    old(self).path().last(),
                    Sample { x, y, ts_us },
                ),
                None => old(self).path().len() == 0,
            },
    {
        let sample = Sample { x, y, ts_us };
        let step = if self.count > 0 {
            let prev = self.nth_oldest(self.count - 1);
            Some(squared_step(&prev, &sample))
        } else {
            None
        };
        self.buf[self.pos] = sample;
        self.pos = (self.pos + 1) % RING_SIZE;
        self.total_count = self.total_count + 1;
        if self.count < RING_SIZE {
            self.count = self.count + 1;
        }
        proof {
            lemma_pushed_path(*old(self), *self, sample);
        }
        step
    }

    /// Sets the travelled distance, once the root of a step was added to it.
    pub fn set_total_distance(&mut self, total_distance: Double)
        requires
            old(self).wf(),
        ensures
            final(self).wf(),
            final(self).path() == old(self).path(),
            final(self).pushed() == old(self).pushed(),
            final(self).distance() == total_distance,
    {
        self.total_distance = total_distance;
        assert(self.path() =~= old(self).path());
    }

    /// How many samples the ring holds.
    pub fn count(&self) -> (n: usize)
        requires
            self.wf(),
        ensures
            n == self.path().len(),
            n <= RING_SIZE,
    {
        self.count
    }

    /// How many samples were pushed since the ring was cleared.
    pub fn total_count(&self) -> (n: u64)
        ensures
            n == self.pushed(),
    {
        self.total_count
    }

    /// The length of the path since the ring was cleared.
    pub fn total_distance(&self) -> (d: Double)
        ensures
            d == self.distance(),
    {
        self.total_distance
    }

    /// The sample at an index, counted from the oldest.
    pub fn nth_oldest(&self, n: usize) -> (sample: Sample)
        requires
            self.wf(),
            n < self.path().len(),
        ensures
            sample == self.path()[n as int],
    {
        let start: usize = if self.pos >= self.count {
            self.pos - self.count
        } else {
            RING_SIZE - (self.count - self.pos)
        };
        self.buf[(start + n) % RING_SIZE]
    }

    /// The summary of the most recent samples, as far as there are two of them.
    pub fn motion_summary(&self) -> (summary: Option<MotionSummary>)
        requires
            self.wf(),
        ensures
            summary is None <==> self.path().len() < 2,
            summary matches Some(m) ==> m.describes(
                self.path(),
                recent_start(self.path(), VELOCITY_WINDOW_SAMPLES),
                self.path().len() - 1,
            ),
    {
        self.recent_summary(VELOCITY_WINDOW_SAMPLES)
    }

    /// The summary of the last `samples` samples, or of all where there are fewer.
    pub fn recent_summary(&self, samples: usize) -> (summary: Option<MotionSummary>)
        requires
            self.wf(),
        ensures
            summary is None <==> (samples < 2 || self.path().len() < 2),
            summary matches Some(m) ==> m.describes(
                self.path(),
                recent_start(self.path(), samples),
                self.path().len() - 1,
            ),
    {
        let samples: usize = if samples < self.count {
            samples
        } else {
            self.count
        };
        if samples < 2 {
            return None;
        }
        self.summary_between(self.count - samples, self.count - 1)
    }

    /// The summary of the samples from index `start` to index `end`.
    pub fn summary_between(&self, start: usize, end: usize) -> (summary: Option<MotionSummary>)
        requires
            self.wf(),
        ensures
            summary is Some <==> start < end < self.path().len(),
            summary matches Some(m) ==> m.describes(self.path(), start as int, end as int),
    {
        if start >= self.count || end >= self.count || start >= end {
            return None;
        }
        let oldest = self.nth_oldest(start);
        let newest = self.nth_oldest(end);
        let mut step_sqs: Vec<u128> = Vec::new();
        let mut idx: usize = start + 1;
        while idx <= end
            invariant
                self.wf(),
                start < idx <= end + 1,
                end < self.path().len() <= RING_SIZE,
                step_sqs@.len() == idx - start - 1,
                forall|i: int|
                    0 <= i < idx - start - 1 ==> (#[trigger] step_sqs@[i]) == step_sq(
                        self.path()[start + i],
                        self.path()[start + i + 1],
                    ),
            decreases end + 1 - idx,
        {
            let prev = self.nth_oldest(idx - 1);
            let current = self.nth_oldest(idx);
            step_sqs.push(squared_step(&prev, &current));
            idx = idx + 1;
        }
        Some(
            MotionSummary {
                samples: end - start + 1,
                dx: newest.x as i64 - oldest.x as i64,
                dy: newest.y as i64 - oldest.y as i64,
                distance_sq: squared_step(&oldest, &newest),
                step_sqs,
                duration_us: newest.ts_us.saturating_sub(oldest.ts_us),
            },
        )
    }

    /// The tail of the path and the window before it, where there are samples enough for
    /// both: the pair that decides whether the tail is trimmed.
    pub fn tail_windows(&self) -> (windows: Option<(MotionSummary, MotionSummary)>)
        requires
            self.wf(),
        ensures
            windows is Some <==> has_tail(self.path()),
            windows matches Some((tail, previous)) ==> {
                &&& tail.describes(
                    self.path(),
                    tail_window(self.path()).0,
                    tail_window(self.path()).1,
                )
                &&& previous.describes(
                    self.path(),
                    previous_window(self.path()).0,
                    previous_window(self.path()).1,
                )
            },
    {
        if self.count < VELOCITY_WINDOW_SAMPLES + LIFT_TAIL_SAMPLES {
            return None;
        }
        let tail_start: usize = self.count - LIFT_TAIL_SAMPLES;
        let previous_end: usize = tail_start - 1;
        let previous_start: usize = previous_end + 1 - VELOCITY_WINDOW_SAMPLES;
        match (
            self.summary_between(tail_start, self.count - 1),
            self.summary_between(previous_start, previous_end),
        ) {
            (Some(tail), Some(previous)) => Some((tail, previous)),
            _ => None,
        }
    }

    /// The stretch that a release velocity is measured over: the last window of the path, or
    /// the window before the tail, cut down to the run of fresh samples at its end.
    pub fn release_window(&self, now_us: u64, stale_us: u64, trimmed: bool) -> (summary: Option<
        MotionSummary,
    >)
        requires
            self.wf(),
            trimmed ==> self.path().len() >= VELOCITY_WINDOW_SAMPLES + LIFT_TAIL_SAMPLES,
        ensures
            summary is Some <==> has_release_velocity(self.path(), now_us, stale_us, trimmed),
            summary matches Some(m) ==> m.describes(
                self.path(),
                release_start(self.path(), now_us, stale_us, trimmed),
                release_end(self.path(), trimmed),
            ),
    {
        if self.count < 2 {
            return None;
        }
        let newest = self.nth_oldest(self.count - 1);
        if now_us.saturating_sub(newest.ts_us) > stale_us {
            return None;
        }
        let end: usize = if trimmed {
            self.count - LIFT_TAIL_SAMPLES - 1
        } else {
            self.count - 1
        };
        let end_sample = self.nth_oldest(end);
        if now_us.saturating_sub(end_sample.ts_us) > stale_us {
            return None;
        }
        let samples: usize = if VELOCITY_WINDOW_SAMPLES < end + 1 {
            VELOCITY_WINDOW_SAMPLES
        } else {
            end + 1
        };
        let low: usize = end + 1 - samples;
        let mut start: usize = end;
        while start > low && now_us.saturating_sub(self.nth_oldest(start - 1).ts_us) <= stale_us
            invariant
                self.wf(),
                low <= start <= end < self.path().len(),
                fresh_down_to(self.path(), low as int, end as int, now_us, stale_us)
                    == fresh_down_to(self.path(), low as int, start as int, now_us, stale_us),
            decreases start,
        {
            start = start - 1;
        }
        match self.summary_between(start, end) {
            Some(summary) => if summary.duration_us == 0 {
                None
            } else {
                Some(summary)
            },
            None => None,
        }
    }

    /// The stretch that the release velocity is taken from: the fresh part of the last
    /// window of the path, or, where the tail belongs to the lifting of the finger, of the
    /// window before the tail.
    ///
    /// `speeds` are the path speeds of the two windows that `tail_windows` gives.
    pub fn compute_release_velocity(
        &self,
        now_us: u64,
        stale_us: u64,
        min_velocity: Double,
        speeds: Option<TailSpeeds>,
    ) -> (release: Option<ReleaseVelocity>)
        requires
            self.wf(),
            speeds is Some <==> self.path().len() >= VELOCITY_WINDOW_SAMPLES + LIFT_TAIL_SAMPLES,
        ensures
            is_release_of(release, self.path(), now_us, stale_us, min_velocity, speeds),
            ({
                let trim = trim_of(speeds, min_velocity);
                let start = release_start(self.path(), now_us, stale_us, trim is Some);
                let end = release_end(self.path(), trim is Some);
                match release {
                    Some(r) => {
                        &&& has_release_velocity(self.path(), now_us, stale_us, trim is Some)
                        &&& r.summary.describes(self.path(), start, end)
                        &&& forall|i: int|
                            start <= i <= end ==> elapsed(
                                (#[trigger] self.path()[i]).ts_us as int,
                                now_us as int,
                            ) <= stale_us
                        &&& r.age_us == elapsed(self.path()[end].ts_us as int, now_us as int)
                        &&& r.trim == trim
                    },
                    None => !has_release_velocity(self.path(), now_us, stale_us, trim is Some),
                }
            }),
    {
        let trim = match &speeds {
            Some(speeds) => lift_tail_trim(speeds, min_velocity),
            None => None,
        };
        let summary = match self.release_window(now_us, stale_us, trim.is_some()) {
            Some(summary) => summary,
            None => {
                return None;
            },
        };
        proof {
            law_release_samples_are_fresh(self.path(), now_us, stale_us, trim is Some);
        }
        let end: usize = if trim.is_some() {
            self.count - LIFT_TAIL_SAMPLES - 1
        } else {
            self.count - 1
        };
        let age_us: u64 = now_us.saturating_sub(self.nth_oldest(end).ts_us);
        Some(ReleaseVelocity { summary, age_us, trim })
    }
}

} // verus!

//! What holds of the path of a finger, of its summaries and of its release velocity, whatever the
//! path is.

use crate::double::Double;
use crate::motion::{
    elapsed, fresh_down_to, has_release_velocity, has_tail, is_fresh, is_release_of,
    law_release_samples_are_fresh, most_recent, previous_window, recent_start, release_end,
    release_start, step_sq, tail_window, trim_of, MotionSummary, ReleaseVelocity, Sample,
    TailSpeeds,
};
use crate::touchpad::{start_decision, LiftNumbers, ListenerModel, ReleaseSpeed, StartDecision};
use vstd::prelude::*;

verus! {

/// The time that has passed, added to the time that it is counted from, gives the present time; a
/// clock that went back has let no time pass.
pub proof fn law_elapsed_time_adds_up(from_us: int, to_us: int)
    ensures
        from_us <= to_us ==> from_us + elapsed(from_us, to_us) == to_us,
        from_us > to_us ==> elapsed(from_us, to_us) == 0,
{
}

/// The length of a step: it is the same both ways and does not depend on the time, along one axis
/// it is the way along that axis, and around a corner the squares add up.
pub proof fn law_steps_obey_pythagoras(a: Sample, b: Sample, ts_us: u64)
    ensures
        step_sq(a, b) == step_sq(b, a),
        a.y == b.y ==> step_sq(a, b) == (b.x - a.x) * (b.x - a.x),
        a.x == b.x ==> step_sq(a, b) == (b.y - a.y) * (b.y - a.y),
        step_sq(a, b) == step_sq(a, Sample { x: b.x, y: a.y, ts_us }) + step_sq(
            Sample { x: b.x, y: a.y, ts_us },
            b,
        ),
{
    let (dx, dy) = (b.x - a.x, b.y - a.y);
    assert(dx * dx == (-dx) * (-dx)) by (nonlinear_arith);
    assert(dy * dy == (-dy) * (-dy)) by (nonlinear_arith);
    let (zero_x, zero_y) = (b.x - b.x, a.y - a.y);
    assert(zero_x * zero_x == 0 && zero_y * zero_y == 0) by (nonlinear_arith)
        requires
            zero_x == 0,
            zero_y == 0,
    ;
    assert(dx == 0 ==> dx * dx == 0) by (nonlinear_arith);
    assert(dy == 0 ==> dy * dy == 0) by (nonlinear_arith);
}

/// What is kept of a path is its end, of up to a hundred samples.
pub proof fn law_most_recent_is_the_end(path: Seq<Sample>)
    ensures
        ({
            let kept = most_recent(path);
            &&& kept.len() == if path.len() < 100 {
                path.len() as int
            } else {
                100
            }
            &&& forall|i: int|
                0 <= i < kept.len() ==> #[trigger] kept[i] == path[path.len() - kept.len() + i]
        }),
{
}

/// A summary leads from its first sample to its last: along each axis, and in time, the first
/// sample and the summary's difference give the last one; the straight distance is that of the
/// two differences.
pub proof fn law_summary_leads_from_start_to_end(
    m: MotionSummary,
    path: Seq<Sample>,
    start: int,
    end: int,
)
    requires
        0 <= start < end < path.len(),
        m.describes(path, start, end),
    ensures
        start + m.samples == end + 1,
        path[start].x + m.dx == path[end].x,
        path[start].y + m.dy == path[end].y,
        path[start].ts_us <= path[end].ts_us ==> path[start].ts_us + m.duration_us
            == path[end].ts_us,
        path[start].ts_us > path[end].ts_us ==> m.duration_us == 0,
        m.distance_sq == m.dx * m.dx + m.dy * m.dy,
        m.step_sqs@.len() + 1 == m.samples,
{
}

/// Two summaries of neighbouring stretches make up the summary of both: their differences add up,
/// their steps follow each other, and so do their times where the clock does not go back.
pub proof fn law_summaries_add_up(
    a: MotionSummary,
    b: MotionSummary,
    whole: MotionSummary,
    path: Seq<Sample>,
    start: int,
    middle: int,
    end: int,
)
    requires
        0 <= start < middle < end < path.len(),
        a.describes(path, start, middle),
        b.describes(path, middle, end),
        whole.describes(path, start, end),
    ensures
        whole.samples + 1 == a.samples + b.samples,
        whole.dx == a.dx + b.dx,
        whole.dy == a.dy + b.dy,
        whole.step_sqs@ == a.step_sqs@ + b.step_sqs@,
        path[start].ts_us <= path[middle].ts_us <= path[end].ts_us ==> whole.duration_us
            == a.duration_us + b.duration_us,
{
    assert forall|i: int| 0 <= i < whole.step_sqs@.len() implies #[trigger] whole.step_sqs@[i] == (
    a.step_sqs@ + b.step_sqs@)[i] by {
        let split = middle - start;
        if i < split {
            assert(a.step_sqs@[i] == step_sq(path[start + i], path[start + i + 1]));
        } else {
            let j = i - split;
            assert(b.step_sqs@[j] == step_sq(path[middle + j], path[middle + j + 1]));
            assert(middle + j == start + i);
        }
    }
    assert(whole.step_sqs@ =~= a.step_sqs@ + b.step_sqs@);
}

/// The step of a stretch of two samples is its straight distance.
pub proof fn law_one_step_is_straight(m: MotionSummary, path: Seq<Sample>, start: int)
    requires
        0 <= start,
        start + 1 < path.len(),
        m.describes(path, start, start + 1),
    ensures
        m.samples == 2,
        m.step_sqs@ =~= seq![m.distance_sq],
{
    assert(m.step_sqs@[0] == step_sq(path[start + 0], path[start + 0 + 1]));
}

/// Whether a sample is no older than the limit.
pub open spec fn young(sample: Sample, now_us: u64, stale_us: u64) -> bool {
    sample.ts_us + stale_us >= now_us
}

proof fn lemma_young_is_fresh(sample: Sample, now_us: u64, stale_us: u64)
    ensures
        young(sample, now_us, stale_us) <==> is_fresh(sample, now_us, stale_us),
{
}

proof fn lemma_run_goes_down_to(
    path: Seq<Sample>,
    low: int,
    start: int,
    end: int,
    now_us: u64,
    stale_us: u64,
)
    requires
        low <= start <= end,
        forall|i: int| start <= i < end ==> young(#[trigger] path[i], now_us, stale_us),
        start == low || !young(path[start - 1], now_us, stale_us),
    ensures
        fresh_down_to(path, low, end, now_us, stale_us) == start,
    decreases end - start,
{
    if end > start {
        assert(young(path[end - 1], now_us, stale_us));
        lemma_young_is_fresh(path[end - 1], now_us, stale_us);
        lemma_run_goes_down_to(path, low, start, end - 1, now_us, stale_us);
    } else if start > low {
        lemma_young_is_fresh(path[start - 1], now_us, stale_us);
    }
}

/// When there is a release velocity, and over which samples, stated over the samples alone: the
/// stretch ends with the last sample (or, without the tail, with the one before the tail) and goes
/// back over eight samples at most, as far as none is too old; there is a velocity if and only if
/// that stretch has two samples or more, a later time at its end than at its start, and the path
/// was not too old at the release. Where the finger was does not matter.
pub proof fn law_when_there_is_a_release_velocity(
    path: Seq<Sample>,
    now_us: u64,
    stale_us: u64,
    trimmed: bool,
    start: int,
    end: int,
)
    requires
        path.len() >= 2,
        trimmed ==> path.len() >= 18,
        end == path.len() - if trimmed {
            11int
        } else {
            1
        },
        0 <= start <= end,
        end - start <= 7,
        forall|i: int| start <= i <= end ==> young(#[trigger] path[i], now_us, stale_us),
        start == 0 || end - start == 7 || !young(path[start - 1], now_us, stale_us),
    ensures
        has_release_velocity(path, now_us, stale_us, trimmed) <==> {
            &&& young(path[path.len() - 1], now_us, stale_us)
            &&& start < end
            &&& path[start].ts_us < path[end].ts_us
        },
        release_start(path, now_us, stale_us, trimmed) == start,
        release_end(path, trimmed) == end,
{
    let low = if end >= 7 {
        end - 7
    } else {
        0
    };
    lemma_young_is_fresh(path[end], now_us, stale_us);
    lemma_young_is_fresh(path.last(), now_us, stale_us);
    assert(young(path[end], now_us, stale_us));
    lemma_run_goes_down_to(path, low, start, end, now_us, stale_us);
}

/// Without two samples, or where the path or the end of its stretch was too old at the release,
/// there is no release velocity.
pub proof fn law_no_release_velocity_of_an_old_path(
    path: Seq<Sample>,
    now_us: u64,
    stale_us: u64,
    trimmed: bool,
)
    ensures
        path.len() < 2 ==> !has_release_velocity(path, now_us, stale_us, trimmed),
        path.len() >= 2 && !young(path[path.len() - 1], now_us, stale_us)
            ==> !has_release_velocity(path, now_us, stale_us, trimmed),
        path.len() >= 18 && !young(path[path.len() - 11], now_us, stale_us)
            ==> !has_release_velocity(path, now_us, stale_us, true),
{
    if path.len() >= 2 {
        lemma_young_is_fresh(path.last(), now_us, stale_us);
        lemma_young_is_fresh(path[path.len() - 11], now_us, stale_us);
    }
}

proof fn lemma_run_of_the_same_times(
    a: Seq<Sample>,
    b: Seq<Sample>,
    low: int,
    end: int,
    now_us: u64,
    stale_us: u64,
)
    requires
        0 <= low,
        end < a.len(),
        a.len() == b.len(),
        forall|i: int| 0 <= i < a.len() ==> (#[trigger] a[i]).ts_us == b[i].ts_us,
    ensures
        fresh_down_to(a, low, end, now_us, stale_us) == fresh_down_to(
            b,
            low,
            end,
            now_us,
            stale_us,
        ),
    decreases end - low,
{
    if end > low {
        assert(a[end - 1].ts_us == b[end - 1].ts_us);
        if is_fresh(a[end - 1], now_us, stale_us) {
            lemma_run_of_the_same_times(a, b, low, end - 1, now_us, stale_us);
        }
    }
}

/// Whether there is a release velocity, and over which samples, depends on the times of the
/// samples alone: two paths with the same times agree on it, wherever the finger went.
pub proof fn law_release_depends_on_the_times_alone(
    a: Seq<Sample>,
    b: Seq<Sample>,
    now_us: u64,
    stale_us: u64,
    trimmed: bool,
)
    requires
        a.len() == b.len(),
        forall|i: int| 0 <= i < a.len() ==> (#[trigger] a[i]).ts_us == b[i].ts_us,
        trimmed ==> a.len() >= 18,
    ensures
        has_release_velocity(a, now_us, stale_us, trimmed) == has_release_velocity(
            b,
            now_us,
            stale_us,
            trimmed,
        ),
        a.len() >= 2 ==> release_start(a, now_us, stale_us, trimmed) == release_start(
            b,
            now_us,
            stale_us,
            trimmed,
        ),
        release_end(a, trimmed) == release_end(b, trimmed),
{
    if a.len() >= 2 {
        let end = release_end(a, trimmed);
        let low = if end >= 7 {
            end - 7
        } else {
            0
        };
        lemma_run_of_the_same_times(a, b, low, end, now_us, stale_us);
        let start = release_start(a, now_us, stale_us, trimmed);
        lemma_run_is_in_the_window(a, low, end, now_us, stale_us);
        assert(a[start].ts_us == b[start].ts_us);
        assert(a[end].ts_us == b[end].ts_us);
        assert(a[a.len() - 1].ts_us == b[b.len() - 1].ts_us);
    }
}

proof fn lemma_run_is_in_the_window(
    path: Seq<Sample>,
    low: int,
    end: int,
    now_us: u64,
    stale_us: u64,
)
    requires
        low <= end,
    ensures
        low <= fresh_down_to(path, low, end, now_us, stale_us) <= end,
    decreases end - low,
{
    if end > low && is_fresh(path[end - 1], now_us, stale_us) {
        lemma_run_is_in_the_window(path, low, end - 1, now_us, stale_us);
    }
}

/// When the tail of a touch is trimmed, over the speeds themselves: the window before it was at
/// least as fast as the least velocity, and the tail is slower than one of the two bounds. What is
/// not a number trims nothing and bounds nothing.
pub proof fn law_when_the_tail_is_trimmed(speeds: TailSpeeds, min_velocity: Double)
    ensures
        trim_of(None, min_velocity) is None,
        trim_of(Some(speeds), min_velocity) is Some <==> {
            let tail = speeds.tail_speed;
            let previous = speeds.previous_speed;
            let (scaled, doubled) = (speeds.scaled_previous_speed, speeds.doubled_min_velocity);
            &&& !previous.nan() && !min_velocity.nan() && !tail.nan()
            &&& previous.value() >= min_velocity.value()
            &&& (!scaled.nan() && tail.value() < scaled.value()) || (!doubled.nan()
                && tail.value() < doubled.value())
        },
        trim_of(Some(speeds), min_velocity) matches Some(trim) ==> {
            let (scaled, doubled) = (speeds.scaled_previous_speed, speeds.doubled_min_velocity);
            &&& trim.tail_samples == 10
            &&& trim.tail_speed == speeds.tail_speed
            &&& trim.previous_speed == speeds.previous_speed
            &&& trim.trim_threshold == scaled || trim.trim_threshold == doubled
            &&& trim.tail_speed.value() < trim.trim_threshold.value()
            &&& !scaled.nan() ==> trim.trim_threshold.value() >= scaled.value()
            &&& !doubled.nan() ==> trim.trim_threshold.value() >= doubled.value()
        },
{
}

/// What a lift amounts to is the first reason against a start that holds, or else the start with
/// the velocity that was measured.
pub proof fn law_first_reason_decides(
    touch_duration_us: u64,
    distance: Double,
    release: Option<ReleaseSpeed>,
    min_velocity: Double,
)
    ensures
        ({
            let decision = start_decision(touch_duration_us, distance, release, min_velocity);
            let short = touch_duration_us < 130_000;
            let near = distance.below(Double { bits: 0x4044_0000_0000_0000 });
            &&& decision is TouchTooShort <==> short
            &&& decision is MovementTooShort <==> !short && near
            &&& decision is NoFreshVelocity <==> !short && !near && release is None
            &&& decision is VelocityTooLow <==> !short && !near && release is Some
                && release->0.speed.below(min_velocity)
            &&& decision is Start <==> !short && !near && release is Some
                && !release->0.speed.below(min_velocity)
            &&& decision matches StartDecision::Start { vx, vy } ==> vx == release->0.start_vx
                && vy == release->0.start_vy
        }),
{
}

/// What the lift of a touch amounts to: a start, with the velocity over the last stretch (or, where
/// the tail is trimmed, over the one before the tail), if the touch lasted, the path is long
/// enough, there is a release velocity and that is high enough; and else the first of these that
/// fails.
pub proof fn law_what_a_lift_amounts_to(m: ListenerModel, now_us: u64, numbers: LiftNumbers)
    ensures
        ({
            let decision = m.lift_decision(now_us, numbers);
            let trimmed = trim_of(numbers.speeds, numbers.min_velocity) is Some;
            let velocity = if trimmed {
                numbers.before_tail
            } else {
                numbers.last
            };
            let short = now_us < m.touch_start_us + 130_000;
            let near = m.distance.below(Double { bits: 0x4044_0000_0000_0000 });
            let measured = has_release_velocity(m.path, now_us, m.stale_us, trimmed);
            &&& decision is TouchTooShort <==> short
            &&& decision is MovementTooShort <==> !short && near
            &&& decision is NoFreshVelocity <==> !short && !near && !measured
            &&& decision is VelocityTooLow <==> !short && !near && measured
                && velocity.speed.below(numbers.min_velocity)
            &&& decision is Start ==> decision == (StartDecision::Start {
                vx: velocity.start_vx,
                vy: velocity.start_vy,
            })
        }),
{
}

/// The windows that decide on the tail: the last ten samples, the eight before them, and nothing
/// between; both fit if and only if there are eighteen samples.
pub proof fn law_tail_and_window_are_neighbours(path: Seq<Sample>)
    ensures
        has_tail(path) <==> path.len() >= 18,
        tail_window(path).1 == path.len() - 1,
        tail_window(path).1 - tail_window(path).0 == 9,
        previous_window(path).1 + 1 == tail_window(path).0,
        previous_window(path).1 - previous_window(path).0 == 7,
{
}

/// The most recent samples are the given number of them, or all where there are fewer.
pub proof fn law_recent_samples_are_counted(path: Seq<Sample>, samples: usize)
    ensures
        path.len() >= samples ==> recent_start(path, samples) + samples == path.len(),
        path.len() < samples ==> recent_start(path, samples) == 0,
{
}

/// What a release velocity says of its path: there is one exactly where the path yields one; its
/// age leads from the end of its stretch to the release; the tail is left out exactly where it was
/// trimmed; and its first sample is within eight samples of its last.
pub proof fn law_what_a_release_says(
    release: Option<ReleaseVelocity>,
    path: Seq<Sample>,
    now_us: u64,
    stale_us: u64,
    min_velocity: Double,
    speeds: Option<TailSpeeds>,
)
    requires
        speeds is Some <==> path.len() >= 18,
        is_release_of(release, path, now_us, stale_us, min_velocity, speeds),
    ensures
        ({
            let trimmed = trim_of(speeds, min_velocity) is Some;
            let end = path.len() - if trimmed {
                11int
            } else {
                1
            };
            &&& release is Some <==> has_release_velocity(path, now_us, stale_us, trimmed)
            &&& release matches Some(r) ==> {
                let start = end + 1 - r.summary.samples;
                &&& 2 <= r.summary.samples <= 8 && start >= 0
                &&& path[start].x + r.summary.dx == path[end].x
                &&& path[start].y + r.summary.dy == path[end].y
                &&& r.summary.duration_us > 0 && path[start].ts_us + r.summary.duration_us
                    == path[end].ts_us
                &&& path[end].ts_us <= now_us ==> path[end].ts_us + r.age_us == now_us
                &&& path[end].ts_us > now_us ==> r.age_us == 0
                &&& r.trim is Some <==> trimmed
                &&& r.trim matches Some(trim) ==> speeds is Some && trim.tail_speed
                    == speeds->0.tail_speed && trim.previous_speed == speeds->0.previous_speed
            }
        }),
{
    let trimmed = trim_of(speeds, min_velocity) is Some;
    if has_release_velocity(path, now_us, stale_us, trimmed) {
        law_release_samples_are_fresh(path, now_us, stale_us, trimmed);
    }
}

} // verus!

//! The text of the decision log.

use crate::input::Button;
use crate::motion::{MotionRing, MotionSummary, ReleaseVelocity};
use crate::text::{decimal, flag, padded, push_decimal, push_flag, push_padded, push_signed, push_wide, signed_decimal};
use vstd::prelude::*;

verus! {

/// A point in local time, field by field: the year counts from 1900, the month from
/// zero.
#[derive(Clone, Copy, Debug, PartialEq, Eq, Structural)]
pub struct LocalTime {
    pub year: i32,
    pub month: i32,
    pub day: i32,
    pub hour: i32,
    pub minute: i32,
    pub second: i32,
}

/// The text of a timestamp: `YYYY-MM-DD HH:MM:SS.mmm`.
pub open spec fn timestamp_text(time: LocalTime, millis: u32) -> Seq<char> {
    padded(time.year + 1900, 4) + "-"@ + padded(time.month + 1, 2) + "-"@ + padded(
        time.day as int,
        2,
    ) + " "@ + padded(time.hour as int, 2) + ":"@ + padded(time.minute as int, 2) + ":"@ + padded(
        time.second as int,
        2,
    ) + "."@ + padded(millis as int, 3)
}

/// The timestamp of a log entry, with or without the local time.
pub open spec fn stamp_text(time: Option<LocalTime>, secs: u64, subsec_millis: u32) -> Seq<char> {
    match time {
        Some(t) => timestamp_text(t, subsec_millis),
        None => "unix_ms="@ + decimal((secs * 1000 + subsec_millis) as nat),
    }
}

/// One line of the log.
pub open spec fn entry_text(timestamp: Seq<char>, text: Seq<char>) -> Seq<char> {
    timestamp + " "@ + text + "\n"@
}

/// The timestamp of a log entry written `secs` seconds and `subsec_millis` milliseconds
/// after the epoch. Where the local time is not to be had, it is that time in
/// milliseconds.
pub fn local_timestamp(time: Option<LocalTime>, secs: u64, subsec_millis: u32) -> (text: String)
    ensures
        text@ == stamp_text(time, secs, subsec_millis),
{
    let mut out = String::new();
    match time {
        Some(t) => {
            push_padded(&mut out, t.year as i64 + 1900, 4);
            assert(out@ =~= padded(t.year + 1900, 4));
            out.append("-");
            push_padded(&mut out, t.month as i64 + 1, 2);
            out.append("-");
            push_padded(&mut out, t.day as i64, 2);
            out.append(" ");
            push_padded(&mut out, t.hour as i64, 2);
            out.append(":");
            push_padded(&mut out, t.minute as i64, 2);
            out.append(":");
            push_padded(&mut out, t.second as i64, 2);
            out.append(".");
            push_padded(&mut out, subsec_millis as i64, 3);
        },
        None => {
            out.append("unix_ms=");
            assert(out@ =~= "unix_ms="@);
            push_wide(&mut out, secs as u128 * 1000 + subsec_millis as u128);
        },
    }
    out
}

/// One line of the log: the timestamp, a space, the text and the end of the line.
pub fn entry(timestamp: &str, text: &str) -> (line: String)
    ensures
        line@ == entry_text(timestamp@, text@),
{
    let mut out = timestamp.to_owned();
    out.append(" ");
    out.append(text);
    out.append("\n");
    out
}

/// A decision of one of the listeners.
#[derive(Clone, Copy, Debug, PartialEq, Eq, Structural)]
pub enum Decision {
    /// A touch came too soon after the lift that started inertia.
    RetouchTooSoon { remaining_us: u64 },
    /// A touch may stop inertia if it lasts.
    RetouchPending { late_by_us: u64, confirm_us: u64 },
    /// A touch was too short to stop inertia.
    RetouchTooShort { duration_us: u64, confirm_us: u64 },
    /// A touch that had stopped inertia was lifted.
    RetouchReleased { duration_us: u64, confirm_us: u64 },
    /// A touch stopped inertia as it was lifted.
    RetouchStopOnRelease { duration_us: u64, confirm_us: u64 },
    /// A touch stopped inertia while it was held.
    RetouchStopByTimer { confirm_us: u64 },
    /// A finger that had stopped inertia moves on.
    RetouchContinue { raw_dx: i32, raw_dy: i32 },
    /// A touch with a click starts no inertia.
    RejectClick {
        click_seen: bool,
        external_click_seen: bool,
        touch_us: u64,
        ring_samples: usize,
        total_samples: u64,
    },
    /// A button of the touchpad was pressed on its separate node.
    ButtonClick { button: Button },
}

/// The name of a button.
pub open spec fn button_name(button: Button) -> Seq<char> {
    match button {
        Button::Left => "BTN_LEFT"@,
        Button::Right => "BTN_RIGHT"@,
        Button::Middle => "BTN_MIDDLE"@,
    }
}

impl Decision {
    /// The text of the decision. `total_dist` is the travelled distance, rendered.
    pub open spec fn says(self, total_dist: Seq<char>) -> Seq<char> {
        match self {
            Decision::RetouchTooSoon { remaining_us } => {
                "RETOUCH_IGNORED source=BTN_TOUCH reason=arm_delay remaining_us="@ + decimal(
                    remaining_us as nat,
                )
            },
            Decision::RetouchPending { late_by_us, confirm_us } => {
                "RETOUCH_PENDING source=BTN_TOUCH reason=finger_down armed_late_by_us="@ + decimal(
                    late_by_us as nat,
                ) + " confirm_us="@ + decimal(confirm_us as nat)
            },
            Decision::RetouchTooShort { duration_us, confirm_us } => {
                "RETOUCH_IGNORED source=BTN_TOUCH reason=short_touch duration_us="@ + decimal(
                    duration_us as nat,
                ) + " confirm_us="@ + decimal(confirm_us as nat)
            },
            Decision::RetouchReleased { duration_us, confirm_us } => {
                "RETOUCH_RELEASE reason=after_stop duration_us="@ + decimal(duration_us as nat)
                    + " confirm_us="@ + decimal(confirm_us as nat)
            },
            Decision::RetouchStopOnRelease { duration_us, confirm_us } => {
                "RETOUCH_STOP reason=confirmed_on_release duration_us="@ + decimal(
                    duration_us as nat,
                ) + " confirm_us="@ + decimal(confirm_us as nat)
            },
            Decision::RetouchStopByTimer { confirm_us } => {
                "RETOUCH_STOP reason=confirmed_by_timer duration_us="@ + decimal(confirm_us as nat)
                    + " confirm_us="@ + decimal(confirm_us as nat)
            },
            Decision::RetouchContinue { raw_dx, raw_dy } => {
                "RETOUCH_CONTINUE reason=motion_after_stop raw_dx="@ + signed_decimal(raw_dx as int)
                    + " raw_dy="@ + signed_decimal(raw_dy as int)
            },
            Decision::RejectClick {
                click_seen,
                external_click_seen,
                touch_us,
                ring_samples,
                total_samples,
            } => {
                "REJECT reason=click_seen click_seen="@ + flag(click_seen)
                    + " external_click_seen="@ + flag(external_click_seen) + " "@ + touch_counts(
                    touch_us,
                    ring_samples,
                    total_samples,
                    total_dist,
                )
            },
            Decision::ButtonClick { button } => {
                "BUTTON_CLICK key="@ + button_name(button) + " action=stop_inhibit"@
            },
        }
    }

    /// Renders the decision.
    pub fn text(&self, total_dist: &str) -> (text: String)
        ensures
            text@ == self.says(total_dist@),
    {
        match *self {
            Decision::RetouchTooSoon { remaining_us } => {
                let mut out =
                    "RETOUCH_IGNORED source=BTN_TOUCH reason=arm_delay remaining_us=".to_owned();
                push_decimal(&mut out, remaining_us);
                out
            },
            Decision::RetouchPending { late_by_us, confirm_us } => {
                let mut out =
                    "RETOUCH_PENDING source=BTN_TOUCH reason=finger_down armed_late_by_us=".to_owned();
                push_decimal(&mut out, late_by_us);
                out.append(" confirm_us=");
                push_decimal(&mut out, confirm_us);
                out
            },
            Decision::RetouchTooShort { duration_us, confirm_us } => {
                let mut out =
                    "RETOUCH_IGNORED source=BTN_TOUCH reason=short_touch duration_us=".to_owned();
                push_decimal(&mut out, duration_us);
                out.append(" confirm_us=");
                push_decimal(&mut out, confirm_us);
                out
            },
            Decision::RetouchReleased { duration_us, confirm_us } => {
                let mut out = "RETOUCH_RELEASE reason=after_stop duration_us=".to_owned();
                push_decimal(&mut out, duration_us);
                out.append(" confirm_us=");
                push_decimal(&mut out, confirm_us);
                out
            },
            Decision::RetouchStopOnRelease { duration_us, confirm_us } => {
                let mut out = "RETOUCH_STOP reason=confirmed_on_release duration_us=".to_owned();
                push_decimal(&mut out, duration_us);
                out.append(" confirm_us=");
                push_decimal(&mut out, confirm_us);
                out
            },
            Decision::RetouchStopByTimer { confirm_us } => {
                let mut out = "RETOUCH_STOP reason=confirmed_by_timer duration_us=".to_owned();
                push_decimal(&mut out, confirm_us);
                out.append(" confirm_us=");
                push_decimal(&mut out, confirm_us);
                out
            },
            Decision::RetouchContinue { raw_dx, raw_dy } => {
                let mut out = "RETOUCH_CONTINUE reason=motion_after_stop raw_dx=".to_owned();
                push_signed(&mut out, raw_dx as i64);
                out.append(" raw_dy=");
                push_signed(&mut out, raw_dy as i64);
                out
            },
            Decision::RejectClick {
                click_seen,
                external_click_seen,
                touch_us,
                ring_samples,
                total_samples,
            } => {
                let mut out = "REJECT reason=click_seen click_seen=".to_owned();
                push_flag(&mut out, click_seen);
                out.append(" external_click_seen=");
                push_flag(&mut out, external_click_seen);
                out.append(" ");
                push_touch_counts(&mut out, touch_us, ring_samples, total_samples, total_dist);
                out
            },
            Decision::ButtonClick { button } => {
                let mut out = "BUTTON_CLICK key=".to_owned();
                match button {
                    Button::Left => out.append("BTN_LEFT"),
                    Button::Right => out.append("BTN_RIGHT"),
                    Button::Middle => out.append("BTN_MIDDLE"),
                }
                out.append(" action=stop_inhibit");
                out
            },
        }
    }
}

/// The part of a log line that every lift has in common.
pub open spec fn touch_counts(
    touch_us: u64,
    ring_samples: usize,
    total_samples: u64,
    total_dist: Seq<char>,
) -> Seq<char> {
    "touch_us="@ + decimal(touch_us as nat) + " ring_samples="@ + decimal(ring_samples as nat)
        + " total_samples="@ + decimal(total_samples as nat) + " total_dist="@ + total_dist
}

fn push_touch_counts(
    out: &mut String,
    touch_us: u64,
    ring_samples: usize,
    total_samples: u64,
    total_dist: &str,
)
    ensures
        final(out)@ == old(out)@ + touch_counts(
            touch_us,
            ring_samples,
            total_samples,
            total_dist@,
        ),
{
    out.append("touch_us=");
    push_decimal(out, touch_us);
    out.append(" ring_samples=");
    push_decimal(out, ring_samples as u64);
    out.append(" total_samples=");
    push_decimal(out, total_samples);
    out.append(" total_dist=");
    out.append(total_dist);
    assert(out@ =~= old(out)@ + touch_counts(touch_us, ring_samples, total_samples, total_dist@));
}

/// A summary with its two lengths rendered.
pub struct RenderedSummary<'a> {
    pub summary: &'a MotionSummary,
    /// The straight distance.
    pub distance: &'a str,
    /// The length of the path.
    pub path_distance: &'a str,
}

/// The part of a lift's context that speaks of the most recent samples.
pub open spec fn recent_text(recent: RenderedSummary) -> Seq<char> {
    " recent_samples="@ + decimal(recent.summary.samples as nat) + " motion_us="@ + decimal(
        recent.summary.duration_us as nat,
    ) + " dx="@ + signed_decimal(recent.summary.dx as int) + " dy="@ + signed_decimal(
        recent.summary.dy as int,
    ) + " recent_dist="@ + recent.distance@ + " recent_path="@ + recent.path_distance@
}

/// What a touch looked like when it was lifted.
pub open spec fn context_text(
    touch_us: u64,
    ring_samples: usize,
    total_samples: u64,
    total_dist: Seq<char>,
    recent: Option<RenderedSummary>,
) -> Seq<char> {
    let base = touch_counts(touch_us, ring_samples, total_samples, total_dist);
    match recent {
        Some(r) => base + recent_text(r),
        None => base,
    }
}

/// What a touch looked like when it was lifted: its counts and, where there are two
/// samples at least, its last stretch.
pub fn decision_context(
    motion: &MotionRing,
    touch_duration_us: u64,
    total_dist: &str,
    recent: Option<RenderedSummary>,
) -> (text: String)
    requires
        motion.wf(),
    ensures
        text@ == context_text(
            touch_duration_us,
            motion.path().len() as usize,
            motion.pushed(),
            total_dist@,
            recent,
        ),
{
    let mut out = String::new();
    push_touch_counts(
        &mut out,
        touch_duration_us,
        motion.count(),
        motion.total_count(),
        total_dist,
    );
    let ghost base = touch_counts(
        touch_duration_us,
        motion.path().len() as usize,
        motion.pushed(),
        total_dist@,
    );
    assert(out@ =~= base);
    match recent {
        Some(r) => {
            out.append(" recent_samples=");
            push_decimal(&mut out, r.summary.samples as u64);
            out.append(" motion_us=");
            push_decimal(&mut out, r.summary.duration_us);
            out.append(" dx=");
            push_signed(&mut out, r.summary.dx);
            out.append(" dy=");
            push_signed(&mut out, r.summary.dy);
            out.append(" recent_dist=");
            out.append(r.distance);
            out.append(" recent_path=");
            out.append(r.path_distance);
            assert(out@ =~= base + recent_text(r));
        },
        None => {},
    }
    out
}

/// The speeds of a trimmed tail, rendered.
pub struct RenderedTrim<'a> {
    pub tail_speed: &'a str,
    pub previous_speed: &'a str,
    pub trim_threshold: &'a str,
}

/// The part of a release's context that speaks of the trimmed tail.
pub open spec fn trim_text(release: ReleaseVelocity, rendered: RenderedTrim) -> Seq<char> {
    match release.trim {
        Some(trim) => " lift_tail_trimmed=true tail_samples="@ + decimal(trim.tail_samples as nat)
            + " tail_speed="@ + rendered.tail_speed@ + " previous_speed="@
            + rendered.previous_speed@ + " trim_threshold="@ + rendered.trim_threshold@,
        None => " lift_tail_trimmed=false"@,
    }
}

/// What a release velocity was measured over.
pub open spec fn release_text(
    release: ReleaseVelocity,
    distance: Seq<char>,
    path_distance: Seq<char>,
    rendered: RenderedTrim,
) -> Seq<char> {
    "velocity_samples="@ + decimal(release.summary.samples as nat) + " velocity_us="@ + decimal(
        release.summary.duration_us as nat,
    ) + " velocity_dx="@ + signed_decimal(release.summary.dx as int) + " velocity_dy="@
        + signed_decimal(release.summary.dy as int) + " velocity_dist="@ + distance
        + " velocity_path="@ + path_distance + " velocity_age_us="@ + decimal(
        release.age_us as nat,
    ) + trim_text(release, rendered)
}

/// What the release velocity was measured over.
pub fn release_velocity_context(
    release: &ReleaseVelocity,
    distance: &str,
    path_distance: &str,
    rendered: RenderedTrim,
) -> (text: String)
    ensures
        text@ == release_text(*release, distance@, path_distance@, rendered),
{
    let mut out = "velocity_samples=".to_owned();
    push_decimal(&mut out, release.summary.samples as u64);
    out.append(" velocity_us=");
    push_decimal(&mut out, release.summary.duration_us);
    out.append(" velocity_dx=");
    push_signed(&mut out, release.summary.dx);
    out.append(" velocity_dy=");
    push_signed(&mut out, release.summary.dy);
    out.append(" velocity_dist=");
    out.append(distance);
    out.append(" velocity_path=");
    out.append(path_distance);
    out.append(" velocity_age_us=");
    push_decimal(&mut out, release.age_us);
    let ghost base = out@;
    match release.trim {
        Some(trim) => {
            out.append(" lift_tail_trimmed=true tail_samples=");
            push_decimal(&mut out, trim.tail_samples as u64);
            out.append(" tail_speed=");
            out.append(rendered.tail_speed);
            out.append(" previous_speed=");
            out.append(rendered.previous_speed);
            out.append(" trim_threshold=");
            out.append(rendered.trim_threshold);
        },
        None => {
            out.append(" lift_tail_trimmed=false");
        },
    }
    assert(out@ =~= base + trim_text(*release, rendered));
    out
}

} // verus!

//! What the texts of the log say, whatever the numbers are.

use crate::decision_log::{
    context_text, entry_text, recent_text, release_text, stamp_text, timestamp_text, touch_counts,
    trim_text, Decision, LocalTime, RenderedSummary, RenderedTrim,
};
use crate::device_discovery::{discovery_message, DiscoveryError};
use crate::input::Button;
use crate::momentum::{EngineDecision, StopReason, Totals};
use crate::motion::ReleaseVelocity;
use crate::text::{decimal, digit, flag, padded, signed_decimal};
use crate::touchpad::{
    grab_text, lift_text, reason_name, GrabAction, GrabReason, RenderedLift, StartDecision,
};
use vstd::prelude::*;

verus! {

/// Whether a character is a decimal digit.
pub open spec fn is_digit(c: char) -> bool {
    '0' <= c <= '9'
}

/// The number that decimal digits read as.
pub open spec fn reads_as(text: Seq<char>) -> int
    decreases text.len(),
{
    if text.len() == 0 {
        0
    } else {
        reads_as(text.drop_last()) * 10 + (text.last() as int - '0' as int)
    }
}

/// A number in decimal reads as itself, consists of digits, and begins with a zero only where it is
/// zero.
pub proof fn law_decimal_reads_back(n: nat)
    ensures
        reads_as(decimal(n)) == n,
        decimal(n).len() > 0,
        forall|i: int| 0 <= i < decimal(n).len() ==> is_digit(#[trigger] decimal(n)[i]),
        n > 0 ==> decimal(n)[0] != '0',
        n == 0 ==> decimal(n).len() == 1,
    decreases n,
{
    if n < 10 {
        assert(decimal(n).drop_last() =~= Seq::empty());
        assert(reads_as(decimal(n).drop_last()) == 0);
        assert(digit(n) as int == '0' as int + n);
    } else {
        law_decimal_reads_back(n / 10);
        assert(decimal(n).drop_last() =~= decimal(n / 10));
        assert(digit(n % 10) as int == '0' as int + n % 10);
        assert(decimal(n)[0] == decimal(n / 10)[0]);
        assert forall|i: int| 0 <= i < decimal(n).len() implies is_digit(
            #[trigger] decimal(n)[i],
        ) by {
            if i < decimal(n / 10).len() {
                assert(decimal(n)[i] == decimal(n / 10)[i]);
            }
        }
    }
}

/// An integer begins with a minus sign if and only if it is negative, and its opposite follows.
pub proof fn law_sign_stands_first(n: int)
    ensures
        n >= 0 ==> signed_decimal(n) == decimal(n as nat),
        n < 0 ==> signed_decimal(n).len() > 1 && signed_decimal(n)[0] == '-' && signed_decimal(
            n,
        ).skip(1) == signed_decimal(-n),
        signed_decimal(n)[0] == '-' <==> n < 0,
{
    if n >= 0 {
        law_decimal_reads_back(n as nat);
    } else {
        law_decimal_reads_back((-n) as nat);
        assert(signed_decimal(n).skip(1) =~= signed_decimal(-n));
    }
}

/// A number that is filled up to a width has that width at least, is its decimal text at the end and
/// zeros before it; a minus sign stands first and takes its place in the width.
pub proof fn law_padding_fills_with_zeros(n: int, width: nat)
    ensures
        ({
            let text = padded(n, width);
            let size = if n < 0 {
                (-n) as nat
            } else {
                n as nat
            };
            let digits = decimal(size);
            let sign = if n < 0 {
                1int
            } else {
                0
            };
            let fill = text.len() - sign - digits.len();
            &&& fill >= 0
            &&& text.len() >= width
            &&& fill > 0 ==> text.len() == width
            &&& n < 0 ==> text[0] == '-'
            &&& forall|i: int| sign <= i < sign + fill ==> #[trigger] text[i] == '0'
            &&& text.skip(sign + fill) == digits
        }),
{
    let text = padded(n, width);
    let size = if n < 0 {
        (-n) as nat
    } else {
        n as nat
    };
    let digits = decimal(size);
    assert(text.skip(text.len() - digits.len()) =~= digits);
}

/// A flag is the word for it.
pub proof fn law_flags_are_words()
    ensures
        flag(true) == "true"@,
        flag(false) == "false"@,
{
}

/// What was emitted since the start, as every line that tells of the end of inertia ends.
pub open spec fn emitted_words(totals: Totals) -> Seq<char> {
    " emit_count="@ + decimal(totals.emit_count as nat) + " total_dx="@
        + signed_decimal(totals.total_dx as int) + " total_dy="@
        + signed_decimal(totals.total_dy as int)
}

/// The velocity, as every line that tells of it ends.
pub open spec fn velocity_words(vx: Seq<char>, vy: Seq<char>, speed: Seq<char>) -> Seq<char> {
    " vx="@ + vx + " vy="@ + vy + " speed="@ + speed
}

/// What the engine tells the log, word for word: the velocity of a start, the cause of each end, and
/// how much motion was emitted.
pub proof fn law_words_of_the_engine(
    vx: Seq<char>,
    vy: Seq<char>,
    speed: Seq<char>,
    totals: Totals,
    elapsed_ms: u64,
    max_duration_ms: u64,
    dx: i32,
    dy: i32,
)
    ensures
        ({
            let says = |decision: EngineDecision| decision.says(vx, vy, speed);
            let stop = |reason: StopReason| EngineDecision::Stop { reason, totals };
            &&& says(EngineDecision::Start) == "ENGINE_START"@ + velocity_words(vx, vy, speed)
            &&& says(EngineDecision::Restart) == "ENGINE_RESTART"@ + velocity_words(vx, vy, speed)
            &&& says(stop(StopReason::Message)) == "ENGINE_STOP reason=message"@
                + emitted_words(totals)
            &&& says(stop(StopReason::ContinuedTouch)) == "ENGINE_STOP reason=continued_touch"@
                + emitted_words(totals)
            &&& says(EngineDecision::DoneBlocked { totals })
                == "ENGINE_DONE reason=pointer_blocked"@ + emitted_words(totals)
            &&& says(EngineDecision::DoneMaxDuration { elapsed_ms, max_duration_ms, totals })
                == "ENGINE_DONE reason=max_duration elapsed_ms="@ + decimal(elapsed_ms as nat)
                    + " max_duration_ms="@ + decimal(max_duration_ms as nat) + emitted_words(totals)
            &&& says(EngineDecision::DoneSlow { totals })
                == "ENGINE_DONE reason=speed_below_stop speed="@ + speed + emitted_words(totals)
            &&& says(EngineDecision::Emit { dx, dy, totals }) == "ENGINE_EMIT n="@
                + decimal(totals.emit_count as nat) + " dx="@ + signed_decimal(dx as int)
                + " dy="@ + signed_decimal(dy as int) + " total_dx="@
                + signed_decimal(totals.total_dx as int) + " total_dy="@
                + signed_decimal(totals.total_dy as int) + velocity_words(vx, vy, speed)
        }),
{
}

/// What every lift tells the log of its touch.
pub proof fn law_words_of_a_touch(
    touch_us: u64,
    ring_samples: usize,
    total_samples: u64,
    total_dist: Seq<char>,
    recent: RenderedSummary,
    release: ReleaseVelocity,
    trim: RenderedTrim,
)
    ensures
        touch_counts(touch_us, ring_samples, total_samples, total_dist) == "touch_us="@
            + decimal(touch_us as nat) + " ring_samples="@ + decimal(ring_samples as nat)
            + " total_samples="@ + decimal(total_samples as nat) + " total_dist="@ + total_dist,
        recent_text(recent) == " recent_samples="@ + decimal(recent.summary.samples as nat)
            + " motion_us="@ + decimal(recent.summary.duration_us as nat) + " dx="@
            + signed_decimal(recent.summary.dx as int) + " dy="@
            + signed_decimal(recent.summary.dy as int) + " recent_dist="@ + recent.distance@
            + " recent_path="@ + recent.path_distance@,
        release.trim is None ==> trim_text(release, trim) == " lift_tail_trimmed=false"@,
        release.trim matches Some(trimmed) ==> trim_text(release, trim)
            == " lift_tail_trimmed=true tail_samples="@ + decimal(trimmed.tail_samples as nat)
            + " tail_speed="@ + trim.tail_speed@ + " previous_speed="@ + trim.previous_speed@
            + " trim_threshold="@ + trim.trim_threshold@,
{
}

/// What the listeners tell the log of a retouch and of a click, word for word.
pub proof fn law_words_of_a_listener(
    total_dist: Seq<char>,
    us: u64,
    confirm_us: u64,
    raw_dx: i32,
    raw_dy: i32,
    click_seen: bool,
    external_click_seen: bool,
    ring_samples: usize,
    total_samples: u64,
)
    ensures
        ({
            let says = |decision: Decision| decision.says(total_dist);
            let timed = |head: Seq<char>|
                head + decimal(us as nat) + " confirm_us="@ + decimal(confirm_us as nat);
            let button = |name: Seq<char>|
                "BUTTON_CLICK key="@ + name + " action=stop_inhibit"@;
            &&& says(Decision::RetouchTooSoon { remaining_us: us })
                == "RETOUCH_IGNORED source=BTN_TOUCH reason=arm_delay remaining_us="@
                + decimal(us as nat)
            &&& says(Decision::RetouchPending { late_by_us: us, confirm_us }) == timed(
                "RETOUCH_PENDING source=BTN_TOUCH reason=finger_down armed_late_by_us="@,
            )
            &&& says(Decision::RetouchTooShort { duration_us: us, confirm_us }) == timed(
                "RETOUCH_IGNORED source=BTN_TOUCH reason=short_touch duration_us="@,
            )
            &&& says(Decision::RetouchReleased { duration_us: us, confirm_us }) == timed(
                "RETOUCH_RELEASE reason=after_stop duration_us="@,
            )
            &&& says(Decision::RetouchStopOnRelease { duration_us: us, confirm_us }) == timed(
                "RETOUCH_STOP reason=confirmed_on_release duration_us="@,
            )
            &&& says(Decision::RetouchStopByTimer { confirm_us })
                == "RETOUCH_STOP reason=confirmed_by_timer duration_us="@
                + decimal(confirm_us as nat) + " confirm_us="@ + decimal(confirm_us as nat)
            &&& says(Decision::RetouchContinue { raw_dx, raw_dy })
                == "RETOUCH_CONTINUE reason=motion_after_stop raw_dx="@
                + signed_decimal(raw_dx as int) + " raw_dy="@ + signed_decimal(raw_dy as int)
            &&& says(
                Decision::RejectClick {
                    click_seen,
                    external_click_seen,
                    touch_us: us,
                    ring_samples,
                    total_samples,
                },
            ) == "REJECT reason=click_seen click_seen="@ + (if click_seen {
                        "true"@
                    } else {
                        "false"@
                    }) + " external_click_seen="@ + (if external_click_seen {
                        "true"@
                    } else {
                        "false"@
                    }) + " "@ + touch_counts(us, ring_samples, total_samples, total_dist)
            &&& says(Decision::ButtonClick { button: Button::Left }) == button("BTN_LEFT"@)
            &&& says(Decision::ButtonClick { button: Button::Right }) == button("BTN_RIGHT"@)
            &&& says(Decision::ButtonClick { button: Button::Middle }) == button("BTN_MIDDLE"@)
        }),
{
}

/// What a lift tells the log, word for word: the reason that it starts no inertia, with the bound
/// that it missed, or the start with its velocities.
pub proof fn law_words_of_a_lift(lift: RenderedLift, stale_us: u64, decision: StartDecision)
    ensures
        lift_text(decision, stale_us, lift) == match decision {
            StartDecision::TouchTooShort => "REJECT reason=touch_too_short "@ + lift.context@
                + " min_touch_us="@ + decimal(130_000),
            StartDecision::MovementTooShort => "REJECT reason=movement_too_short "@
                + lift.context@ + " min_total_dist=40.0"@,
            StartDecision::NoFreshVelocity => "REJECT reason=no_fresh_velocity "@ + lift.context@
                + " stale_us="@ + decimal(stale_us as nat),
            StartDecision::VelocityTooLow => "REJECT reason=velocity_too_low "@ + lift.context@
                + " "@ + lift.velocity_context@ + " vx="@ + lift.vx@ + " vy="@ + lift.vy@
                + " speed="@ + lift.speed@ + " min_speed="@ + lift.min_speed@,
            StartDecision::Start { .. } => "START reason=criteria_met "@ + lift.context@ + " "@
                + lift.velocity_context@ + " release_vx="@ + lift.vx@ + " release_vy="@
                + lift.vy@ + " release_speed="@ + lift.speed@ + " start_vx="@ + lift.start_vx@
                + " start_vy="@ + lift.start_vy@ + " start_speed="@ + lift.start_speed@
                + " start_multiplier="@ + lift.start_multiplier@ + " min_touch_us="@
                + decimal(130_000) + " min_total_dist=40.0"@ + " min_speed="@ + lift.min_speed@,
        },
{
}

/// The names of the reasons for a grab or a release.
pub proof fn law_words_of_a_grab()
    ensures
        reason_name(GrabReason::MomentumStart) == "momentum_start"@,
        reason_name(GrabReason::EngineIdle) == "engine_idle"@,
        reason_name(GrabReason::RetouchReleaseAfterStop) == "retouch_release_after_stop"@,
        reason_name(GrabReason::RetouchConfirmedOnRelease) == "retouch_confirmed_on_release"@,
        reason_name(GrabReason::InactiveListenerState) == "inactive_listener_state"@,
        reason_name(GrabReason::ListenerExit) == "listener_exit"@,
{
}

/// The message of a failed search names what was searched for.
pub proof fn law_words_of_a_failed_search(path: Seq<char>, filter: Seq<char>)
    ensures
        discovery_message(DiscoveryError::PathMissing, path, filter)
            == "Device path does not exist: "@ + path,
        discovery_message(DiscoveryError::NoNameMatch, path, filter)
            == "No device found matching name filter: \""@ + filter + "\""@,
        discovery_message(DiscoveryError::NoTouchpad, path, filter)
            == "No touchpad device found (looked for BTN_TOOL_FINGER + BTN_TOUCH)"@,
{
}

/// A timestamp is the date and the time of day, each part filled up to its width, with the year
/// counted from the beginning of our era and the month from one.
pub proof fn law_words_of_a_timestamp(time: LocalTime, millis: u32)
    ensures
        timestamp_text(time, millis) == padded(1900 + time.year, 4) + "-"@ + padded(1 + time.month,
            2) + "-"@ + padded(time.day as int, 2) + " "@ + padded(time.hour as int, 2) + ":"@
            + padded(time.minute as int, 2) + ":"@ + padded(time.second as int, 2) + "."@
            + padded(millis as int, 3),
{
}

/// What the log is told of a grab or a release, word for word: what was done or failed, why, and
/// with which error.
pub proof fn law_words_of_an_outcome(reason: GrabReason, error: Seq<char>)
    ensures
        grab_text(GrabAction::Grab(reason), None) == "TOUCHPAD_GRAB reason="@ + reason_name(reason),
        grab_text(GrabAction::Ungrab(reason), None) == "TOUCHPAD_UNGRAB reason="@ + reason_name(
            reason,
        ),
        grab_text(GrabAction::Grab(reason), Some(error)) == "TOUCHPAD_GRAB_FAILED reason="@
            + reason_name(reason) + " error="@ + error,
        grab_text(GrabAction::Ungrab(reason), Some(error)) == "TOUCHPAD_UNGRAB_FAILED reason="@
            + reason_name(reason) + " error="@ + error,
{
}

/// A line of the log begins with its timestamp and ends with its text and the end of the line;
/// without the local time, the timestamp is the time since the epoch in milliseconds.
pub proof fn law_words_of_an_entry(
    timestamp: Seq<char>,
    text: Seq<char>,
    time: LocalTime,
    secs: u64,
    millis: u32,
)
    ensures
        entry_text(timestamp, text) == timestamp + " "@ + text + "\n"@,
        stamp_text(Some(time), secs, millis) == timestamp_text(time, millis),
        stamp_text(None, secs, millis) == "unix_ms="@ + decimal((1000 * secs + millis) as nat),
{
}

/// The context of a lift: its touch, then its most recent samples where there are two; and that of a
/// release velocity: its stretch, its age, then its tail.
pub proof fn law_words_of_a_context(
    touch_us: u64,
    ring_samples: usize,
    total_samples: u64,
    total_dist: Seq<char>,
    recent: RenderedSummary,
    release: ReleaseVelocity,
    distance: Seq<char>,
    path_distance: Seq<char>,
    trim: RenderedTrim,
)
    ensures
        ({
            let touch = touch_counts(touch_us, ring_samples, total_samples, total_dist);
            let stretch = release.summary;
            &&& context_text(touch_us, ring_samples, total_samples, total_dist, None) == touch
            &&& context_text(touch_us, ring_samples, total_samples, total_dist, Some(recent))
                == touch + recent_text(recent)
            &&& release_text(release, distance, path_distance, trim) == "velocity_samples="@
                + decimal(stretch.samples as nat) + " velocity_us="@ + decimal(
                stretch.duration_us as nat,
            ) + " velocity_dx="@ + signed_decimal(stretch.dx as int) + " velocity_dy="@
                + signed_decimal(stretch.dy as int) + " velocity_dist="@ + distance
                + " velocity_path="@ + path_distance + " velocity_age_us="@ + decimal(
                release.age_us as nat,
            ) + trim_text(release, trim)
        }),
{
}

} // verus!

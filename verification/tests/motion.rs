use rinertia::double::Double;
use rinertia::motion::{lift_tail_trim, MotionRing, Sample, TailSpeeds, RING_SIZE};

fn d(x: f64) -> Double {
    Double { bits: x.to_bits() }
}

fn speeds(tail: f64, previous: f64, min_velocity: f64) -> TailSpeeds {
    TailSpeeds {
        tail_speed: d(tail),
        previous_speed: d(previous),
        scaled_previous_speed: d(previous * 0.45),
        doubled_min_velocity: d(min_velocity * 2.0),
    }
}

/// A ring with samples at x = 10 i, y = 0, one every millisecond.
fn straight(n: i32) -> MotionRing {
    let mut ring = MotionRing::new();
    for i in 0..n {
        ring.push(10 * i, 0, 1000 * i as u64);
    }
    ring
}

#[test]
fn new_ring_is_empty() {
    let ring = MotionRing::new();
    assert_eq!(ring.count(), 0);
    assert_eq!(ring.total_count(), 0);
    assert_eq!(ring.total_distance(), d(0.0));
    assert!(ring.motion_summary().is_none());
    assert!(ring.tail_windows().is_none());
    assert!(ring.compute_release_velocity(0, 1000, d(100.0), None).is_none());
}

#[test]
fn ring_gives_back_samples_in_order() {
    let ring = straight(3);
    assert_eq!(ring.count(), 3);
    assert_eq!(ring.nth_oldest(0), Sample { x: 0, y: 0, ts_us: 0 });
    assert_eq!(ring.nth_oldest(2), Sample { x: 20, y: 0, ts_us: 2000 });
}

#[test]
fn full_ring_drops_the_oldest() {
    let ring = straight(250);
    assert_eq!(ring.count(), RING_SIZE);
    assert_eq!(ring.total_count(), 250);
    for n in 0..RING_SIZE {
        assert_eq!(ring.nth_oldest(n).x, 10 * (150 + n as i32));
    }
}

#[test]
fn push_reports_squared_steps() {
    let mut ring = MotionRing::new();
    assert_eq!(ring.push(1, 2, 0), None);
    assert_eq!(ring.push(4, -2, 10), Some(25));
    assert_eq!(ring.push(4, -2, 20), Some(0));
    assert_eq!(ring.push(1004, 2, 30), Some(1_000_016));
}

#[test]
fn push_of_extremes_does_not_overflow() {
    let mut ring = MotionRing::new();
    ring.push(i32::MIN, i32::MIN, 0);
    let side: u128 = 0xffff_ffff;
    assert_eq!(ring.push(i32::MAX, i32::MAX, 1), Some(2 * side * side));
}

#[test]
fn clear_forgets() {
    let mut ring = straight(120);
    ring.set_total_distance(d(1190.0));
    assert_eq!(ring.total_distance(), d(1190.0));
    ring.clear();
    assert_eq!(ring.count(), 0);
    assert_eq!(ring.total_count(), 0);
    assert_eq!(ring.total_distance(), d(0.0));
    assert_eq!(ring.push(7, 7, 7), None);
    assert_eq!(ring.nth_oldest(0), Sample { x: 7, y: 7, ts_us: 7 });
}

#[test]
fn summary_of_a_stretch() {
    let mut ring = MotionRing::new();
    ring.push(0, 0, 100);
    ring.push(3, 4, 200);
    ring.push(3, 0, 450);
    let summary = ring.summary_between(0, 2).unwrap();
    assert_eq!(summary.samples, 3);
    assert_eq!(summary.dx, 3);
    assert_eq!(summary.dy, 0);
    assert_eq!(summary.distance_sq, 9);
    assert_eq!(summary.step_sqs, vec![25, 16]);
    assert_eq!(summary.duration_us, 350);
}

#[test]
fn summary_needs_two_samples_in_range() {
    let ring = straight(5);
    assert!(ring.summary_between(2, 2).is_none());
    assert!(ring.summary_between(3, 2).is_none());
    assert!(ring.summary_between(0, 5).is_none());
    assert!(ring.summary_between(5, 6).is_none());
    assert!(ring.summary_between(0, 4).is_some());
    assert!(ring.recent_summary(1).is_none());
    assert_eq!(ring.recent_summary(2).unwrap().samples, 2);
    assert_eq!(ring.recent_summary(99).unwrap().samples, 5);
}

#[test]
fn motion_summary_covers_the_last_window() {
    let summary = straight(30).motion_summary().unwrap();
    assert_eq!(summary.samples, 8);
    assert_eq!(summary.dx, 70);
    assert_eq!(summary.duration_us, 7000);
    assert_eq!(straight(3).motion_summary().unwrap().samples, 3);
}

#[test]
fn summary_of_a_clock_that_goes_back() {
    let mut ring = MotionRing::new();
    ring.push(0, 0, 500);
    ring.push(10, 0, 400);
    assert_eq!(ring.motion_summary().unwrap().duration_us, 0);
    assert!(ring.compute_release_velocity(500, 1000, d(100.0), None).is_none());
}

#[test]
fn tail_windows_need_eighteen_samples() {
    assert!(straight(17).tail_windows().is_none());
    let ring = straight(18);
    let (tail, previous) = ring.tail_windows().unwrap();
    assert_eq!(tail.samples, 10);
    assert_eq!(tail.dx, 90);
    assert_eq!(previous.samples, 8);
    assert_eq!(previous.dx, 70);
}

#[test]
fn slow_tail_is_trimmed() {
    let trim = lift_tail_trim(&speeds(100.0, 1000.0, 100.0), d(100.0)).unwrap();
    assert_eq!(trim.tail_samples, 10);
    assert_eq!(trim.trim_threshold, d(450.0));
    assert!(lift_tail_trim(&speeds(450.0, 1000.0, 100.0), d(100.0)).is_none());
    assert!(lift_tail_trim(&speeds(449.9, 1000.0, 100.0), d(100.0)).is_some());
    assert!(lift_tail_trim(&speeds(10.0, 99.0, 100.0), d(100.0)).is_none());
    let trim = lift_tail_trim(&speeds(199.0, 120.0, 100.0), d(100.0)).unwrap();
    assert_eq!(trim.trim_threshold, d(200.0));
}

#[test]
fn release_is_measured_over_the_last_window() {
    let ring = straight(12);
    let release = ring.compute_release_velocity(11_500, 150_000, d(100.0), None).unwrap();
    assert_eq!(release.summary.samples, 8);
    assert_eq!(release.summary.dx, 70);
    assert_eq!(release.summary.duration_us, 7000);
    assert_eq!(release.age_us, 500);
    assert!(release.trim.is_none());
}

#[test]
fn release_skips_a_trimmed_tail() {
    let ring = straight(20);
    let s = Some(speeds(100.0, 1000.0, 100.0));
    let release = ring.compute_release_velocity(19_000, 150_000, d(100.0), s).unwrap();
    assert_eq!(release.age_us, 10_000);
    assert_eq!(release.summary.dx, 70);
    assert!(release.trim.is_some());
    let s = Some(speeds(900.0, 1000.0, 100.0));
    let release = ring.compute_release_velocity(19_000, 150_000, d(100.0), s).unwrap();
    assert_eq!(release.age_us, 0);
    assert!(release.trim.is_none());
}

#[test]
fn stale_path_has_no_release() {
    let ring = straight(12);
    assert!(ring.compute_release_velocity(160_000, 150_000, d(100.0), None).is_some());
    assert!(ring.compute_release_velocity(160_001, 150_000, d(100.0), None).is_none());
    assert!(ring.compute_release_velocity(161_001, 150_000, d(100.0), None).is_none());
    let ring = straight(20);
    let s = Some(speeds(100.0, 1000.0, 100.0));
    assert!(ring.compute_release_velocity(19_000, 10_999, d(100.0), s).is_none());
    assert!(ring.compute_release_velocity(19_000, 11_000, d(100.0), s).is_some());
}

#[test]
fn stale_samples_are_left_out_of_the_release() {
    let ring = straight(12);
    let release = ring.compute_release_velocity(158_500, 150_000, d(100.0), None).unwrap();
    assert_eq!(release.summary.samples, 3);
    assert_eq!(release.summary.dx, 20);
    assert_eq!(release.summary.step_sqs, vec![100, 100]);
    assert_eq!(release.summary.duration_us, 2000);
    assert_eq!(release.age_us, 147_500);
    let release = ring.compute_release_velocity(154_000, 150_000, d(100.0), None).unwrap();
    assert_eq!(release.summary.samples, 8);
    let release = ring.compute_release_velocity(154_001, 150_000, d(100.0), None).unwrap();
    assert_eq!(release.summary.samples, 7);
}

#[test]
fn two_samples_of_which_one_is_stale_have_no_release() {
    let mut ring = MotionRing::new();
    ring.push(0, 0, 0);
    ring.push(100, 0, 200_000);
    assert!(ring.compute_release_velocity(200_000, 150_000, d(100.0), None).is_none());
    let release = ring.compute_release_velocity(200_000, 200_000, d(100.0), None).unwrap();
    assert_eq!(release.summary.duration_us, 200_000);
    ring.push(130, 0, 210_000);
    let release = ring.compute_release_velocity(210_000, 150_000, d(100.0), None).unwrap();
    assert_eq!(release.summary.dx, 30);
    assert_eq!(release.summary.duration_us, 10_000);
}

#[test]
fn fresh_samples_before_a_stale_one_do_not_count() {
    let mut ring = MotionRing::new();
    ring.push(0, 0, 100_000);
    ring.push(10, 0, 0);
    ring.push(20, 0, 100_500);
    ring.push(30, 0, 101_000);
    let window = ring.release_window(101_000, 50_000, false).unwrap();
    assert_eq!(window.samples, 2);
    assert_eq!(window.dx, 10);
}

#[test]
fn release_windows_with_and_without_the_tail() {
    let ring = straight(20);
    let last = ring.release_window(19_000, 14_000, false).unwrap();
    assert_eq!((last.samples, last.dx, last.duration_us), (8, 70, 7000));
    let before_tail = ring.release_window(19_000, 14_000, true).unwrap();
    assert_eq!((before_tail.samples, before_tail.dx, before_tail.duration_us), (5, 40, 4000));
    assert!(ring.release_window(19_000, 10_000, true).is_none());
    assert!(straight(1).release_window(0, 10_000, false).is_none());
}

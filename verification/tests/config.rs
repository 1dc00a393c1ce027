use rinertia::config::{
    resolve, Args, Config, DeviceConfig, PointerConfig, DEFAULT_POINTER_DRAG,
    DEFAULT_POINTER_MIN_VELOCITY, DEFAULT_POINTER_SPEED_FACTOR,
    DEFAULT_POINTER_START_SPEED_MULTIPLIER,
};
use rinertia::double::Double;

fn d(x: f64) -> Double {
    Double { bits: x.to_bits() }
}

fn no_args() -> Args {
    Args {
        config: None,
        device: None,
        device_name: None,
        velocity_stale_ms: None,
        pointer_drag: None,
        pointer_speed_factor: None,
        pointer_min_velocity: None,
        pointer_start_speed_multiplier: None,
        pointer_max_duration_ms: None,
        stop_touch_ms: None,
        dry: false,
        decision_log: None,
        log_level: None,
    }
}

fn file() -> Config {
    Config {
        device: Some(DeviceConfig { path: Some("/dev/f".into()), name: Some("file".into()) }),
        pointer: Some(PointerConfig {
            drag: Some(d(0.5)),
            speed_factor: Some(d(0.25)),
            min_velocity: Some(d(7.0)),
            start_speed_multiplier: Some(d(2.0)),
            velocity_stale_ms: Some(11),
            max_duration_ms: Some(12),
            stop_touch_ms: Some(13),
        }),
        decision_log: Some("/tmp/file.log".into()),
        log_level: Some("warn".into()),
    }
}

#[test]
fn default_bit_patterns() {
    assert_eq!(f64::from_bits(DEFAULT_POINTER_DRAG), 0.01);
    assert_eq!(f64::from_bits(DEFAULT_POINTER_SPEED_FACTOR), 0.0075);
    assert_eq!(f64::from_bits(DEFAULT_POINTER_MIN_VELOCITY), 100.0);
    assert_eq!(f64::from_bits(DEFAULT_POINTER_START_SPEED_MULTIPLIER), 1.3);
    assert_eq!(f64::from_bits(rinertia::touchpad::MIN_MOTION_DISTANCE), 40.0);
    assert_eq!(f64::from_bits(rinertia::momentum::POINTER_STOP_SPEED), 25.0);
    assert_eq!(f64::from_bits(rinertia::motion::LIFT_TAIL_SPEED_RATIO), 0.45);
    assert_eq!(f64::from_bits(rinertia::momentum::NOMINAL_FRAME_SEC), 1.0 / 60.0);
    assert_eq!(f64::from_bits(rinertia::momentum::LEAST_DRAG), 0.001);
    assert_eq!(f64::from_bits(rinertia::momentum::GREATEST_DRAG), 0.95);
}

#[test]
fn defaults_apply() {
    let r = resolve(&no_args(), &Config::default());
    assert_eq!(r.device, None);
    assert_eq!(r.device_name, None);
    assert_eq!(r.velocity_stale_ms, 150);
    assert_eq!(r.pointer_drag, d(0.01));
    assert_eq!(r.pointer_speed_factor, d(0.0075));
    assert_eq!(r.pointer_min_velocity, d(100.0));
    assert_eq!(r.pointer_start_speed_multiplier, d(1.3));
    assert_eq!(r.pointer_max_duration_ms, 0);
    assert_eq!(r.stop_touch_ms, 56);
    assert!(!r.dry);
    assert_eq!(r.decision_log, None);
    assert_eq!(r.log_level, "info");
}

#[test]
fn file_overrules_defaults() {
    let r = resolve(&no_args(), &file());
    assert_eq!(r.device.as_deref(), Some("/dev/f"));
    assert_eq!(r.device_name.as_deref(), Some("file"));
    assert_eq!(r.velocity_stale_ms, 11);
    assert_eq!(r.pointer_drag, d(0.5));
    assert_eq!(r.pointer_speed_factor, d(0.25));
    assert_eq!(r.pointer_min_velocity, d(7.0));
    assert_eq!(r.pointer_start_speed_multiplier, d(2.0));
    assert_eq!(r.pointer_max_duration_ms, 12);
    assert_eq!(r.stop_touch_ms, 13);
    assert_eq!(r.decision_log.as_deref(), Some("/tmp/file.log"));
    assert_eq!(r.log_level, "warn");
}

#[test]
fn command_line_overrules_file() {
    let mut cli = no_args();
    cli.device = Some("/dev/c".into());
    cli.device_name = Some("cli".into());
    cli.velocity_stale_ms = Some(21);
    cli.pointer_drag = Some(d(0.75));
    cli.pointer_speed_factor = Some(d(0.125));
    cli.pointer_min_velocity = Some(d(8.0));
    cli.pointer_start_speed_multiplier = Some(d(3.0));
    cli.pointer_max_duration_ms = Some(22);
    cli.stop_touch_ms = Some(23);
    cli.dry = true;
    cli.decision_log = Some("/tmp/cli.log".into());
    cli.log_level = Some("debug".into());
    let r = resolve(&cli, &file());
    assert_eq!(r.device.as_deref(), Some("/dev/c"));
    assert_eq!(r.device_name.as_deref(), Some("cli"));
    assert_eq!(r.velocity_stale_ms, 21);
    assert_eq!(r.pointer_drag, d(0.75));
    assert_eq!(r.pointer_speed_factor, d(0.125));
    assert_eq!(r.pointer_min_velocity, d(8.0));
    assert_eq!(r.pointer_start_speed_multiplier, d(3.0));
    assert_eq!(r.pointer_max_duration_ms, 22);
    assert_eq!(r.stop_touch_ms, 23);
    assert!(r.dry);
    assert_eq!(r.decision_log.as_deref(), Some("/tmp/cli.log"));
    assert_eq!(r.log_level, "debug");
}

#[test]
fn out_of_range_settings_are_limited() {
    let mut cli = no_args();
    for (asked, got) in [(0, 10), (10, 10), (11, 11), (2000, 2000), (2001, 2000), (u64::MAX, 2000)] {
        cli.stop_touch_ms = Some(asked);
        assert_eq!(resolve(&cli, &Config::default()).stop_touch_ms, got);
    }
    for (asked, got) in [(0.0, 0.1), (0.1, 0.1), (4.9, 4.9), (5.0, 5.0), (9.0, 5.0)] {
        cli.pointer_start_speed_multiplier = Some(d(asked));
        let r = resolve(&cli, &Config::default());
        assert_eq!(r.pointer_start_speed_multiplier, d(got));
    }
}

#[test]
fn partial_file_leaves_the_rest() {
    let cfg = Config {
        device: Some(DeviceConfig::default()),
        pointer: Some(PointerConfig { max_duration_ms: Some(5), ..PointerConfig::default() }),
        decision_log: None,
        log_level: None,
    };
    let r = resolve(&no_args(), &cfg);
    assert_eq!(r.device, None);
    assert_eq!(r.pointer_max_duration_ms, 5);
    assert_eq!(r.pointer_drag, d(0.01));
}

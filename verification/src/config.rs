//! Settings, and how the command line, the config file and the defaults make them up.

use crate::double::Double;
use vstd::prelude::*;

verus! {

/// The settings of the config file.
#[derive(Debug)]
pub struct Config {
    pub device: Option<DeviceConfig>,
    pub pointer: Option<PointerConfig>,
    pub decision_log: Option<String>,
    pub log_level: Option<String>,
}

/// Which touchpad to use.
#[derive(Debug, Default)]
pub struct DeviceConfig {
    pub path: Option<String>,
    pub name: Option<String>,
}

/// How the pointer coasts.
#[derive(Clone, Copy, Debug, Default, PartialEq, Eq, Structural)]
pub struct PointerConfig {
    pub drag: Option<Double>,
    pub speed_factor: Option<Double>,
    pub min_velocity: Option<Double>,
    pub start_speed_multiplier: Option<Double>,
    pub velocity_stale_ms: Option<u64>,
    pub max_duration_ms: Option<u64>,
    pub stop_touch_ms: Option<u64>,
}

/// The settings of the command line.
#[derive(Debug)]
pub struct Args {
    /// Path of the config file.
    pub config: Option<String>,
    /// Path of the touchpad device; detected if omitted.
    pub device: Option<String>,
    /// Part of the name of the touchpad.
    pub device_name: Option<String>,
    /// How old a sample may be that a release velocity is measured over, in milliseconds;
    /// older ones are discarded.
    pub velocity_stale_ms: Option<u64>,
    /// How fast inertia decays.
    pub pointer_drag: Option<Double>,
    /// From touchpad units to units of the virtual mouse.
    pub pointer_speed_factor: Option<Double>,
    /// The least release velocity that starts inertia.
    pub pointer_min_velocity: Option<Double>,
    /// From release velocity to start velocity.
    pub pointer_start_speed_multiplier: Option<Double>,
    /// How long the pointer may coast, in milliseconds; zero for no limit.
    pub pointer_max_duration_ms: Option<u64>,
    /// How long a touch has to last to stop inertia, in milliseconds.
    pub stop_touch_ms: Option<u64>,
    /// Create no virtual device, only log.
    pub dry: bool,
    /// Path of the decision log.
    pub decision_log: Option<String>,
    /// How much to log.
    pub log_level: Option<String>,
}

/// The settings in force.
#[derive(Debug)]
pub struct ResolvedArgs {
    pub device: Option<String>,
    pub device_name: Option<String>,
    pub velocity_stale_ms: u64,
    pub pointer_drag: Double,
    pub pointer_speed_factor: Double,
    pub pointer_min_velocity: Double,
    pub pointer_start_speed_multiplier: Double,
    pub pointer_max_duration_ms: u64,
    pub stop_touch_ms: u64,
    pub dry: bool,
    pub decision_log: Option<String>,
    pub log_level: String,
}

pub const DEFAULT_VELOCITY_STALE_MS: u64 = 150;

/// 0.01, as a bit pattern.
pub const DEFAULT_POINTER_DRAG: u64 = 0x3f84_7ae1_47ae_147b;

/// 0.0075, as a bit pattern.
pub const DEFAULT_POINTER_SPEED_FACTOR: u64 = 0x3f7e_b851_eb85_1eb8;

/// 100.0, as a bit pattern.
pub const DEFAULT_POINTER_MIN_VELOCITY: u64 = 0x4059_0000_0000_0000;

/// 1.3, as a bit pattern.
pub const DEFAULT_POINTER_START_SPEED_MULTIPLIER: u64 = 0x3ff4_cccc_cccc_cccd;

pub const DEFAULT_POINTER_MAX_DURATION_MS: u64 = 0;

pub const DEFAULT_STOP_TOUCH_MS: u64 = 56;

pub const DEFAULT_LOG_LEVEL: &'static str = "info";

/// The least and the greatest start multiplier: 0.1 and 5.0, as bit patterns.
pub const LEAST_START_SPEED_MULTIPLIER: u64 = 0x3fb9_9999_9999_999a;

pub const GREATEST_START_SPEED_MULTIPLIER: u64 = 0x4014_0000_0000_0000;

/// The least and the greatest time that a touch has to last to stop inertia.
pub const LEAST_STOP_TOUCH_MS: u64 = 10;

pub const GREATEST_STOP_TOUCH_MS: u64 = 2_000;

impl Default for Config {
    /// A config file without settings.
    fn default() -> (config: Config)
        ensures
            config.device is None,
            config.pointer is None,
            config.decision_log is None,
            config.log_level is None,
    {
        Config { device: None, pointer: None, decision_log: None, log_level: None }
    }
}

/// The setting of the command line, or else that of the config file.
pub open spec fn preferred<T>(cli: Option<T>, file: Option<T>) -> Option<T> {
    if cli is Some {
        cli
    } else {
        file
    }
}

/// The setting of the command line, or else that of the config file, or else the default.
pub open spec fn chosen<T>(cli: Option<T>, file: Option<T>, default: T) -> T {
    match preferred(cli, file) {
        Some(value) => value,
        None => default,
    }
}

fn prefer<T: Copy>(cli: Option<T>, file: Option<T>) -> (r: Option<T>)
    ensures
        r == preferred(cli, file),
{
    match cli {
        Some(value) => Some(value),
        None => file,
    }
}

fn choose_or<T: Copy>(cli: Option<T>, file: Option<T>, default: T) -> (r: T)
    ensures
        r == chosen(cli, file, default),
{
    match prefer(cli, file) {
        Some(value) => value,
        None => default,
    }
}

fn prefer_text(cli: &Option<String>, file: &Option<String>) -> (r: Option<String>)
    ensures
        r == preferred(*cli, *file),
{
    match cli {
        Some(text) => Some(text.clone()),
        None => match file {
            Some(text) => Some(text.clone()),
            None => None,
        },
    }
}

/// A number forced into a range.
pub open spec fn limited(n: u64, low: u64, high: u64) -> u64 {
    if n < low {
        low
    } else if n > high {
        high
    } else {
        n
    }
}

impl Config {
    /// The path of the touchpad, where the file gives it.
    pub open spec fn device_path(self) -> Option<String> {
        match self.device {
            Some(device) => device.path,
            None => None,
        }
    }

    /// The name of the touchpad, where the file gives it.
    pub open spec fn device_name(self) -> Option<String> {
        match self.device {
            Some(device) => device.name,
            None => None,
        }
    }

    /// The pointer settings; without a section of that name there are none.
    pub open spec fn pointer_settings(self) -> PointerConfig {
        match self.pointer {
            Some(pointer) => pointer,
            None => PointerConfig {
                drag: None,
                speed_factor: None,
                min_velocity: None,
                start_speed_multiplier: None,
                velocity_stale_ms: None,
                max_duration_ms: None,
                stop_touch_ms: None,
            },
        }
    }
}

/// Whether settings are those that the command line, the config file and the defaults make up.
pub open spec fn is_resolved(r: ResolvedArgs, cli: Args, cfg: Config) -> bool {
    let file = cfg.pointer_settings();
    &&& r.device == preferred(cli.device, cfg.device_path())
    &&& r.device_name == preferred(cli.device_name, cfg.device_name())
    &&& r.velocity_stale_ms == chosen(
        cli.velocity_stale_ms,
        file.velocity_stale_ms,
        DEFAULT_VELOCITY_STALE_MS,
    )
    &&& r.pointer_drag == chosen(
        cli.pointer_drag,
        file.drag,
        Double { bits: DEFAULT_POINTER_DRAG },
    )
    &&& r.pointer_speed_factor == chosen(
        cli.pointer_speed_factor,
        file.speed_factor,
        Double { bits: DEFAULT_POINTER_SPEED_FACTOR },
    )
    &&& r.pointer_min_velocity == chosen(
        cli.pointer_min_velocity,
        file.min_velocity,
        Double { bits: DEFAULT_POINTER_MIN_VELOCITY },
    )
    &&& r.pointer_start_speed_multiplier == chosen(
        cli.pointer_start_speed_multiplier,
        file.start_speed_multiplier,
        Double { bits: DEFAULT_POINTER_START_SPEED_MULTIPLIER },
    ).clamped(
        Double { bits: LEAST_START_SPEED_MULTIPLIER },
        Double { bits: GREATEST_START_SPEED_MULTIPLIER },
    )
    &&& r.pointer_max_duration_ms == chosen(
        cli.pointer_max_duration_ms,
        file.max_duration_ms,
        DEFAULT_POINTER_MAX_DURATION_MS,
    )
    &&& r.stop_touch_ms == limited(
        chosen(cli.stop_touch_ms, file.stop_touch_ms, DEFAULT_STOP_TOUCH_MS),
        LEAST_STOP_TOUCH_MS,
        GREATEST_STOP_TOUCH_MS,
    )
    &&& r.dry == cli.dry
    &&& r.decision_log == preferred(cli.decision_log, cfg.decision_log)
    &&& r.log_level@ == match preferred(cli.log_level, cfg.log_level) {
        Some(level) => level@,
        None => "info"@,
    }
}

/// The settings in force: those of the command line, or else those of the config file,
/// or else the defaults. The start multiplier and the stop-touch time are forced into
/// their ranges.
pub fn resolve(cli: &Args, cfg: &Config) -> (r: ResolvedArgs)
    ensures
        is_resolved(r, *cli, *cfg),
{
    let (path, name) = match &cfg.device {
        Some(device) => (prefer_text(&cli.device, &device.path), prefer_text(
            &cli.device_name,
            &device.name,
        )),
        None => (prefer_text(&cli.device, &None), prefer_text(&cli.device_name, &None)),
    };
    let file = match cfg.pointer {
        Some(pointer) => pointer,
        None => PointerConfig {
            drag: None,
            speed_factor: None,
            min_velocity: None,
            start_speed_multiplier: None,
            velocity_stale_ms: None,
            max_duration_ms: None,
            stop_touch_ms: None,
        },
    };
    let multiplier = choose_or(
        cli.pointer_start_speed_multiplier,
        file.start_speed_multiplier,
        Double { bits: DEFAULT_POINTER_START_SPEED_MULTIPLIER },
    );
    let least = Double { bits: LEAST_START_SPEED_MULTIPLIER };
    let greatest = Double { bits: GREATEST_START_SPEED_MULTIPLIER };
    proof {
        crate::double::lemma_positive_order(least, greatest);
    }
    let stop_touch_ms: u64 = choose_or(
        cli.stop_touch_ms,
        file.stop_touch_ms,
        DEFAULT_STOP_TOUCH_MS,
    );
    ResolvedArgs {
        device: path,
        device_name: name,
        velocity_stale_ms: choose_or(
            cli.velocity_stale_ms,
            file.velocity_stale_ms,
            DEFAULT_VELOCITY_STALE_MS,
        ),
        pointer_drag: choose_or(
            cli.pointer_drag,
            file.drag,
            Double { bits: DEFAULT_POINTER_DRAG },
        ),
        pointer_speed_factor: choose_or(
            cli.pointer_speed_factor,
            file.speed_factor,
            Double { bits: DEFAULT_POINTER_SPEED_FACTOR },
        ),
        pointer_min_velocity: choose_or(
            cli.pointer_min_velocity,
            file.min_velocity,
            Double { bits: DEFAULT_POINTER_MIN_VELOCITY },
        ),
        pointer_start_speed_multiplier: multiplier.clamp(least, greatest),
        pointer_max_duration_ms: choose_or(
            cli.pointer_max_duration_ms,
            file.max_duration_ms,
            DEFAULT_POINTER_MAX_DURATION_MS,
        ),
        stop_touch_ms: if stop_touch_ms < LEAST_STOP_TOUCH_MS {
            LEAST_STOP_TOUCH_MS
        } else if stop_touch_ms > GREATEST_STOP_TOUCH_MS {
            GREATEST_STOP_TOUCH_MS
        } else {
            stop_touch_ms
        },
        dry: cli.dry,
        decision_log: prefer_text(&cli.decision_log, &cfg.decision_log),
        log_level: match prefer_text(&cli.log_level, &cfg.log_level) {
            Some(level) => level,
            None => DEFAULT_LOG_LEVEL.to_owned(),
        },
    }
}

/// The command line overrules the config file, and the config file the default.
pub proof fn law_command_line_overrules<T>(cli: Option<T>, file: Option<T>, default: T)
    ensures
        cli matches Some(value) ==> chosen(cli, file, default) == value,
        cli is None ==> (file matches Some(value) ==> chosen(cli, file, default) == value),
        cli is None && file is None ==> chosen(cli, file, default) == default,
{
}

/// The time that a touch has to last to stop inertia is in its range, whatever is asked
/// for.
pub proof fn law_stop_touch_is_in_range(asked_for: u64)
    ensures
        LEAST_STOP_TOUCH_MS <= limited(asked_for, LEAST_STOP_TOUCH_MS, GREATEST_STOP_TOUCH_MS)
            <= GREATEST_STOP_TOUCH_MS,
{
}

/// Each setting of the pointer is that of the command line, else that of the config file, else its
/// default, whatever the other settings are.
pub proof fn law_who_sets_the_pointer(r: ResolvedArgs, cli: Args, cfg: Config)
    requires
        is_resolved(r, cli, cfg),
    ensures
        cli.velocity_stale_ms matches Some(v) ==> r.velocity_stale_ms == v,
        cli.velocity_stale_ms is None ==> (cfg.pointer matches Some(file) ==> (
            file.velocity_stale_ms matches Some(v) ==> r.velocity_stale_ms == v
        )),
        cli.velocity_stale_ms is None && !(cfg.pointer matches Some(file) && file.velocity_stale_ms is Some)
            ==> r.velocity_stale_ms == 150,
        cli.pointer_drag matches Some(v) ==> r.pointer_drag == v,
        cli.pointer_drag is None ==> (cfg.pointer matches Some(file) ==> (
            file.drag matches Some(v) ==> r.pointer_drag == v
        )),
        cli.pointer_drag is None && !(cfg.pointer matches Some(file) && file.drag is Some)
            ==> r.pointer_drag == (Double { bits: 0x3f84_7ae1_47ae_147b }),
        cli.pointer_speed_factor matches Some(v) ==> r.pointer_speed_factor == v,
        cli.pointer_speed_factor is None ==> (cfg.pointer matches Some(file) ==> (
            file.speed_factor matches Some(v) ==> r.pointer_speed_factor == v
        )),
        cli.pointer_speed_factor is None && !(cfg.pointer matches Some(file) && file.speed_factor is Some)
            ==> r.pointer_speed_factor == (Double { bits: 0x3f7e_b851_eb85_1eb8 }),
        cli.pointer_min_velocity matches Some(v) ==> r.pointer_min_velocity == v,
        cli.pointer_min_velocity is None ==> (cfg.pointer matches Some(file) ==> (
            file.min_velocity matches Some(v) ==> r.pointer_min_velocity == v
        )),
        cli.pointer_min_velocity is None && !(cfg.pointer matches Some(file) && file.min_velocity is Some)
            ==> r.pointer_min_velocity == (Double { bits: 0x4059_0000_0000_0000 }),
        cli.pointer_max_duration_ms matches Some(v) ==> r.pointer_max_duration_ms == v,
        cli.pointer_max_duration_ms is None ==> (cfg.pointer matches Some(file) ==> (
            file.max_duration_ms matches Some(v) ==> r.pointer_max_duration_ms == v
        )),
        cli.pointer_max_duration_ms is None && !(cfg.pointer matches Some(file) && file.max_duration_ms is Some)
            ==> r.pointer_max_duration_ms == 0,
{
}

/// The devices, the log and the level are those of the command line, else those of the config file;
/// else there are none, and the level is `info`. Only the command line asks for a dry run.
pub proof fn law_who_sets_the_rest(r: ResolvedArgs, cli: Args, cfg: Config)
    requires
        is_resolved(r, cli, cfg),
    ensures
        cli.device is Some ==> r.device == cli.device,
        cli.device is None ==> r.device == match cfg.device {
            Some(device) => device.path,
            None => None,
        },
        cli.device_name is Some ==> r.device_name == cli.device_name,
        cli.device_name is None ==> r.device_name == match cfg.device {
            Some(device) => device.name,
            None => None,
        },
        cli.decision_log is Some ==> r.decision_log == cli.decision_log,
        cli.decision_log is None ==> r.decision_log == cfg.decision_log,
        cli.log_level matches Some(level) ==> r.log_level@ == level@,
        cli.log_level is None ==> (cfg.log_level matches Some(level) ==> r.log_level@ == level@),
        cli.log_level is None && cfg.log_level is None ==> r.log_level@ == "info"@,
        r.dry == cli.dry,
{
}

/// The time that a touch has to last is the one asked for where that is between ten milliseconds
/// and two seconds, and else the nearer of the two.
pub proof fn law_stop_touch_setting(r: ResolvedArgs, cli: Args, cfg: Config, asked_for: u64)
    requires
        is_resolved(r, cli, cfg),
        asked_for == match (cli.stop_touch_ms, cfg.pointer) {
            (Some(ms), _) => ms,
            (None, Some(file)) => match file.stop_touch_ms {
                Some(ms) => ms,
                None => 56,
            },
            (None, None) => 56,
        },
    ensures
        10 <= asked_for <= 2_000 ==> r.stop_touch_ms == asked_for,
        asked_for < 10 ==> r.stop_touch_ms == 10,
        asked_for > 2_000 ==> r.stop_touch_ms == 2_000,
{
}

/// The start multiplier is the one asked for where that is between 0.1 and 5.0, and else the nearer
/// of the two.
pub proof fn law_start_multiplier_setting(
    r: ResolvedArgs,
    cli: Args,
    cfg: Config,
    asked_for: Double,
)
    requires
        is_resolved(r, cli, cfg),
        asked_for == match (cli.pointer_start_speed_multiplier, cfg.pointer) {
            (Some(multiplier), _) => multiplier,
            (None, Some(file)) => match file.start_speed_multiplier {
                Some(multiplier) => multiplier,
                None => Double { bits: 0x3ff4_cccc_cccc_cccd },
            },
            (None, None) => Double { bits: 0x3ff4_cccc_cccc_cccd },
        },
    ensures
        ({
            let least = Double { bits: 0x3fb9_9999_9999_999a };
            let greatest = Double { bits: 0x4014_0000_0000_0000 };
            &&& asked_for.nan() ==> r.pointer_start_speed_multiplier == asked_for
            &&& !asked_for.nan() && least.value() <= asked_for.value() <= greatest.value()
                ==> r.pointer_start_speed_multiplier == asked_for
            &&& !asked_for.nan() && asked_for.value() < least.value()
                ==> r.pointer_start_speed_multiplier == least
            &&& !asked_for.nan() && asked_for.value() > greatest.value()
                ==> r.pointer_start_speed_multiplier == greatest
        }),
{
    let least = Double { bits: 0x3fb9_9999_9999_999a };
    let greatest = Double { bits: 0x4014_0000_0000_0000 };
    crate::double::lemma_positive_order(least, greatest);
    crate::double::law_clamping_changes_what_is_outside(asked_for, least, greatest);
}

} // verus!

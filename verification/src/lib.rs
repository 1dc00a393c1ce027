//! Pointer inertia for touchpads: the decisions of the daemon, verified.
//!
//! - `input` classifies raw events, `motion` keeps the recent path of the finger, and
//!   `touchpad` decides from them what starts inertia and what stops it.
//! - `momentum` lets the pointer coast, and `x11_pointer` notices when it has met an edge.
//! - `messages` is what the two halves tell each other.
//! - `config`, `device_discovery` and `instance_lock` set the daemon up.
//! - `decision_log` and `text` put its decisions into words.
//! - `double` is the exact meaning of the numbers that are not whole.
//! - `listener_laws` and `touch_laws`, `engine_laws` and `coasting_laws`, `motion_laws` and
//!   `text_laws` state what holds of it all.

pub mod coasting_laws;
pub mod config;
pub mod decision_log;
pub mod device_discovery;
pub mod double;
pub mod engine_laws;
pub mod input;
pub mod instance_lock;
pub mod listener_laws;
pub mod messages;
pub mod momentum;
pub mod motion;
pub mod motion_laws;
pub mod text;
pub mod text_laws;
pub mod touch_laws;
pub mod touchpad;
pub mod x11_pointer;

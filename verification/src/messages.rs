//! What the touchpad listener and the momentum engine tell each other.

use crate::double::Double;
use vstd::prelude::*;

verus! {

/// An order to the momentum engine.
#[derive(Clone, Copy, Debug, PartialEq, Eq, Structural)]
pub enum MomentumMessage {
    /// Let the pointer coast from this velocity, in touchpad units per second.
    StartPointer { vx: Double, vy: Double },
    /// Move the pointer along with a finger that is held down after it stopped inertia.
    ContinuePointer { dx: i32, dy: i32 },
    /// End any inertia.
    Stop,
}

/// What the momentum engine reports back.
#[derive(Clone, Copy, Debug, PartialEq, Eq, Structural)]
pub enum EngineStatus {
    PointerActive,
    PointerIdle,
}

} // verus!

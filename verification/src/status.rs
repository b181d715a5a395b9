//! Read-only views of controller and renderer state, for display.

use vstd::prelude::*;

verus! {

use crate::body::Body;
use crate::choice::Choice;
use crate::seconds::Seconds;

/// What the simulation controller exposes to observers: the current
/// timestamp, whether it is running, the selected speed and the direction.
pub struct SimulationStatus {
    /// UTC nanoseconds since the Unix epoch.
    pub timestamp: i64,
    pub running: bool,
    /// Simulated duration per wall-clock second.
    pub speed: Choice<Seconds>,
    pub reverse: bool,
}

/// What the rendering layer exposes to observers.
pub struct RenderStatus {
    pub camera_focus: Choice<Body>,
    pub show_trails: bool,
}

/// Everything the display layer needs in one place.
pub struct Status {
    pub sim: SimulationStatus,
    pub render: RenderStatus,
}

} // verus!

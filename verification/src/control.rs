//! Control events consumed by the simulation controller.
//!
//! The input layer translates raw input (keyboard, UI widgets) into these
//! events; the controller interprets only the enumerated event.

use vstd::prelude::*;

verus! {

use crate::choice::Choice;
use crate::seconds::Seconds;

/// A control event for the simulation controller.
pub enum ControlEvent {
    /// Toggle between running and stopped.
    StartStop,
    /// While stopped, advance by one speed-unit of simulated time.
    JumpForward,
    /// While stopped, go back by one speed-unit of simulated time.
    JumpBack,
    /// Move to the next preset speed.
    Faster,
    /// Move to the previous preset speed.
    Slower,
    /// Jump directly to the given preset speed.
    SetSpeed(Choice<Seconds>),
    /// Toggle the direction of simulated time.
    Reverse,
}

impl ControlEvent {
    /// A short human-readable description of the event.
    pub fn description(&self) -> (r: &'static str)
    {
        match self {
            ControlEvent::StartStop => "Start/stop simulation",
            ControlEvent::Faster => "Increase the simulation speed",
            ControlEvent::Slower => "Decrease the simulation speed",
            ControlEvent::Reverse => "Reverse simulation",
            ControlEvent::JumpForward => "Jump forward",
            ControlEvent::JumpBack => "Jump backward",
            ControlEvent::SetSpeed(_) => "Set simulation speed",
        }
    }
}

} // verus!

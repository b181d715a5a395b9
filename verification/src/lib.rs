//! Core of an orbital-mechanics simulator: Earth and Moon orbiting a Sun that
//! is fixed at the origin, advanced by velocity-Verlet integration and played
//! back at a selectable multiple of wall-clock time.
//!
//! All physical quantities are held in integer fixed point so that every
//! computation has an exact, machine-checked description: durations are
//! nanoseconds, positions are kilometers scaled by `1e9`, velocities are
//! kilometers per second scaled by `1e9`, accelerations are kilometers per
//! second squared scaled by `1e18`.

pub mod body;
pub mod choice;
pub mod control;
pub mod gravity;
pub mod seconds;
pub mod simulation;
pub mod snapshot;
pub mod status;
pub mod system;

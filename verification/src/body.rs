//! The simulated bodies.

use vstd::prelude::*;

verus! {

use crate::gravity::{EARTH_MASS_KG, MOON_MASS_KG, SUN_MASS_KG};

/// One of the three simulated bodies.
#[derive(Clone, Copy, PartialEq, Eq, Structural, Debug)]
pub enum Body {
    Sun,
    Earth,
    Moon,
}

impl Body {
    /// The body's mass in kilograms.
    pub fn mass_kg(&self) -> (r: i128)
        ensures
            r == match *self {
                Body::Sun => SUN_MASS_KG as int,
                Body::Earth => EARTH_MASS_KG as int,
                Body::Moon => MOON_MASS_KG as int,
            },
    {
        match self {
            Body::Sun => SUN_MASS_KG,
            Body::Earth => EARTH_MASS_KG,
            Body::Moon => MOON_MASS_KG,
        }
    }

    /// The body's display name.
    pub fn name(&self) -> (r: &'static str)
    {
        match self {
            Body::Sun => "Sun",
            Body::Earth => "Earth",
            Body::Moon => "Moon",
        }
    }
}

} // verus!

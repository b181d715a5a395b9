//! The fixed set of simulated bodies.

use vstd::prelude::*;

verus! {

use crate::body::Body;

/// The three bodies of the simulated system.
pub struct System {
    pub sun: Body,
    pub earth: Body,
    pub moon: Body,
}

impl System {
    /// The Sun/Earth/Moon system.
    pub fn new() -> (r: Self)
        ensures
            r.sun == Body::Sun,
            r.earth == Body::Earth,
            r.moon == Body::Moon,
    {
        System { sun: Body::Sun, earth: Body::Earth, moon: Body::Moon }
    }
}

} // verus!

//! The Sun.

use vstd::prelude::*;
use vstd::string::StringExecFns;

verus! {

/// The distance from the Earth to the Sun, in kilometers.
pub const EARTH_SUN_DISTANCE_KM: u64 = 147_440_000;

/// The radius of the Sun, in kilometers.
pub const SUN_RADIUS_KM: u64 = 696_340;

/// The Sun, as something to observe.
pub struct Sun {
    name: String,
}

impl Sun {
    /// The name that the Sun goes by.
    pub closed spec fn spec_name(&self) -> Seq<char> {
        self.name@
    }

    /// The Sun, by the name of `Sun`.
    pub fn new() -> (sun: Sun)
        ensures
            sun.spec_name() == "Sun"@,
    {
        Sun { name: String::from_str("Sun") }
    }

    /// The name that the Sun goes by.
    pub fn name(&self) -> (name: String)
        ensures
            name@ == self.spec_name(),
    {
        self.name.clone()
    }
}

} // verus!

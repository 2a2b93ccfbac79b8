//! Bulk chemical composition, in parts per ten thousand.

use vstd::prelude::*;

verus! {

/// The number of parts that make up a whole composition.
pub const PARTS: u32 = 10000;

/// Chemical composition of a celestial body, each share in parts per
/// `PARTS`.
#[derive(Clone, Copy, Debug, PartialEq, Eq, Structural)]
pub struct Composition {
    pub hydrogen: u32,
    pub helium: u32,
    /// Elements heavier than helium.
    pub metallicity: u32,
    pub other: u32,
}

impl Composition {
    /// The sum of the four shares.
    pub open spec fn total(self) -> int {
        self.hydrogen + self.helium + self.metallicity + self.other
    }

    /// The shares make up exactly one whole.
    pub open spec fn is_whole(self) -> bool {
        self.total() == PARTS
    }

    /// A composition with the given shares.
    pub fn new(hydrogen: u32, helium: u32, metallicity: u32, other: u32) -> (r: Composition)
        ensures
            r == (Composition { hydrogen, helium, metallicity, other }),
    {
        Composition { hydrogen, helium, metallicity, other }
    }
}

} // verus!

//! Ranking scores. The store keeps them as binary64 numbers; the library never
//! computes on one. It carries a reading from a reply into a later statement and
//! says by how many whole votes the caller has to move it.

use vstd::prelude::*;

verus! {

/// A binary64 value, held by its bit pattern.
#[derive(Clone, Copy, Debug, PartialEq, Eq)]
pub struct Double {
    pub bits: u64,
}

/// A score in contracts: some reading, moved by a whole number of votes.
pub struct Level {
    pub origin: Double,
    pub net: int,
}

impl View for Double {
    type V = Level;

    /// A reading as it came from the store has not been moved.
    open spec fn view(&self) -> Level {
        Level { origin: *self, net: 0 }
    }
}

impl Level {
    /// This score after `by` more votes' worth of movement.
    pub open spec fn moved(self, by: int) -> Level {
        Level { origin: self.origin, net: self.net + by }
    }
}

/// Bit pattern of -19216.2884921, the hotness a story row is inserted with.
pub const INITIAL_HOTNESS_BITS: u64 = 0xC0D2_C412_76A7_91AA;

/// Bit pattern of 0.1828847834138887, the confidence a comment row is inserted with.
pub const INITIAL_CONFIDENCE_BITS: u64 = 0x3FC7_68C4_C1D9_6ED8;

} // verus!

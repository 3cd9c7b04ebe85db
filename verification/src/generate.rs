//! The common face of the procedural generators.

use vstd::prelude::*;

verus! {

/// A reseedable generator of game content: its values come one at a
/// time, and the whole stream can be restarted deterministically from
/// one seed.
pub trait RPGenerator {
    /// What reseeds the generator.
    type Seed;

    /// The generator's own well-formedness invariant, preserved by
    /// reseeding.
    spec fn inv(&self) -> bool;

    /// Restarts the generator's randomness from the given seed.
    fn seed(&mut self, s: Self::Seed)
        requires
            old(self).inv(),
        ensures
            final(self).inv(),
    ;
}

} // verus!

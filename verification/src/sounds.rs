//! Sound selection. The core only decides *which* sound to play; decoding
//! and playback are presentation concerns and stay outside the library.

use vstd::prelude::*;

verus! {

use crate::rng::sample_range;

/// Chooser for the audio collaborator's sound effects.
pub struct Sounds {}

impl Sounds {
    pub fn new() -> Sounds {
        Sounds {}
    }

    /// Picks which of the three angry meow recordings to play.
    pub fn angry_meow() -> (choice: i64)
        ensures
            1 <= choice <= 3,
    {
        sample_range(1, 3)
    }
}

} // verus!

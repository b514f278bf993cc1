//! Where the random words come from.

use rand::rngs::StdRng;
use vstd::prelude::*;

verus! {

/// A supplier of uniformly random 64-bit words, one per call.
///
/// Nothing is promised of the word that comes back: what is built on a source
/// is proved for every word.
pub trait WordSource {
    /// Draws the next word.
    fn next_word(&mut self) -> (word: u64);
}

#[verifier::external_type_specification]
#[verifier::external_body]
pub struct ExStdRng(StdRng);

/// `rand::RngCore::next_u64` on `rand::rngs::StdRng`: advances the generator and
/// returns its next 64 bits. The word depends on the generator's hidden state,
/// so the contract claims nothing about it.
#[verifier::external_body]
fn std_rng_next_u64(rng: &mut StdRng) -> (word: u64) {
    rand::RngCore::next_u64(rng)
}

impl WordSource for StdRng {
    fn next_word(&mut self) -> (word: u64) {
        std_rng_next_u64(self)
    }
}

} // verus!

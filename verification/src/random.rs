//! The one place where the game asks for a random number.

use vstd::prelude::*;

verus! {

/// Draws a number below `bound`, each with the same chance.
///
/// Trusted, not proved: this is `rand::Rng::gen_range` on the range
/// `0..bound`, fed by the generator that `rand::thread_rng` keeps for the
/// running thread. `gen_range` panics on an empty range, hence the
/// precondition; for a non-empty one it returns a member of the range. Which
/// member is a matter of chance, so nothing more is claimed, and two draws
/// with the same bound may differ. The generator takes its seed from the
/// operating system, the first time a thread asks and again from time to
/// time; it panics if the system then hands out none.
#[verifier::external_body]
pub(crate) fn random_below(bound: usize) -> (drawn: usize)
    requires
        bound > 0,
    ensures
        drawn < bound,
{
    rand::Rng::gen_range(&mut rand::thread_rng(), 0..bound)
}

} // verus!

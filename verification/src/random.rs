//! The random generator that an engine owns.
use vstd::prelude::*;

verus! {

/// A pseudo-random generator. The engine makes one when it is built, keeps it
/// for itself and lends it to the operators, one call at a time.
///
/// An implementation promises that a seed fixes the generator: two generators
/// made from one seed are the same value.
pub trait RandomGenerator: Sized {
    /// The generator that the seed `seed` gives.
    spec fn seeded(seed: u64) -> Self;

    /// A generator made from `seed`, or from a source of its own choice where
    /// there is none.
    fn new_from_seed(seed: Option<u64>) -> (r: Self)
        ensures
            seed matches Some(s) ==> r == Self::seeded(s),
    ;
}

} // verus!

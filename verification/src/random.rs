use rand::Rng;
use vstd::prelude::*;

verus! {

/// A number drawn at random by `rand::thread_rng().gen_range(0..upper)`.
///
/// The rand documentation of `gen_range` promises a value of the range,
/// here at least 0 and below `upper`, and a panic on an empty range, which
/// `requires` rules out. Which value of the range comes out is left to
/// chance and is not stated.
#[verifier::external_body]
pub(crate) fn random_below(upper: usize) -> (drawn: usize)
    requires
        upper > 0,
    ensures
        drawn < upper,
{
    rand::thread_rng().gen_range(0..upper)
}

} // verus!

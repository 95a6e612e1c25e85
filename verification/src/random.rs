//! The random source that places the snack. Nothing here is proved: the
//! contracts say what the `rand` crate documents.

use vstd::prelude::*;

verus! {

/// `rand::rngs::ThreadRng`, the handle to the thread's generator. Nothing
/// is said of what it holds.
#[verifier::external_type_specification]
#[verifier::external_body]
pub struct ExThreadRng(rand::rngs::ThreadRng);

/// `rand::thread_rng` hands out the thread's generator, which the system
/// has seeded. Nothing is claimed of the handle.
pub assume_specification[ rand::thread_rng ]() -> (rng: rand::rngs::ThreadRng);

/// Draws an integer from `0..bound` with `rand::Rng::gen_range`. The crate
/// panics on an empty range, so `bound` must be positive; the value drawn
/// lies in the range. Which value it is depends on chance, and nothing
/// more is claimed.
#[verifier::external_body]
pub(crate) fn gen_below(rng: &mut rand::rngs::ThreadRng, bound: i32) -> (value: i32)
    requires
        0 < bound,
    ensures
        0 <= value < bound,
{
    rand::Rng::gen_range(rng, 0..bound)
}

} // verus!

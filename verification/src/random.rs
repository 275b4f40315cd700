use rand::distributions::{Distribution, WeightedIndex};
use rand::seq::SliceRandom;
use rand::Rng;
use vstd::prelude::*;

verus! {

/// The sum of a run of weights.
pub open spec fn total_weight(weights: Seq<u32>) -> nat
    decreases weights.len(),
{
    if weights.len() == 0 {
        0
    } else {
        total_weight(weights.drop_last()) + weights.last() as nat
    }
}

/// Picks one element of `items` with `rand`'s `SliceRandom::choose` on the thread-local
/// generator. As `rand`'s source shows, the result is `None` exactly when the slice is empty,
/// and otherwise a reference to one of its elements; which one is left to chance and is not
/// stated.
#[verifier::external_body]
pub(crate) fn choose_one<T>(items: &[T]) -> (r: Option<&T>)
    ensures
        r is None <==> items@.len() == 0,
        r matches Some(x) ==> items@.contains(*x),
{
    items.choose(&mut rand::thread_rng())
}

/// Samples an index with probability proportional to its weight, with `rand`'s
/// `WeightedIndex::new` and `Distribution::sample` on the thread-local generator.
/// `WeightedIndex::new` fails only on an empty list or a zero total, which `requires` leaves out,
/// and sums the weights in a `u32`, hence the bound on the total. Its `sample` returns the first
/// index whose running total exceeds a uniform draw below the total, so the index is in range
/// and its weight is positive; which index comes out is left to chance and is not stated.
#[verifier::external_body]
pub(crate) fn sample_weighted_index(weights: &[u32]) -> (r: usize)
    requires
        weights@.len() > 0,
        0 < total_weight(weights@) <= u32::MAX,
    ensures
        r < weights@.len(),
        weights@[r as int] > 0,
{
    WeightedIndex::new(weights).unwrap().sample(&mut rand::thread_rng())
}

/// Draws a whole number in `low..high` with `rand`'s `Rng::gen_range` on the thread-local
/// generator. `gen_range` panics on an empty range, which `requires` leaves out; the number is
/// in the range, and which one comes out is left to chance and is not stated.
#[verifier::external_body]
pub(crate) fn gen_range_i32(low: i32, high: i32) -> (r: i32)
    requires
        low < high,
    ensures
        low <= r < high,
{
    rand::thread_rng().gen_range(low..high)
}

} // verus!

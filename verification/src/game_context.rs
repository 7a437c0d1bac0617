use vstd::prelude::*;

use rand::rngs::ThreadRng;
use rand::seq::SliceRandom;
use rand::Rng;

use crate::ids::IdGenerator;

verus! {

#[verifier::external_type_specification]
#[verifier::external_body]
pub struct ExThreadRng(ThreadRng);

/// Wraps `rand::thread_rng`: a handle on the thread's random number generator.
#[verifier::external_body]
pub fn new_rng() -> ThreadRng {
    rand::thread_rng()
}

/// Wraps `rand::Rng::gen_range` on `low..high`: a number drawn from `[low, high)`,
/// which rand's documentation promises for a non-empty range (it panics on an empty one).
#[verifier::external_body]
pub fn random_in_range(rng: &mut ThreadRng, low: usize, high: usize) -> (r: usize)
    requires
        low < high,
    ensures
        low <= r < high,
{
    rng.gen_range(low..high)
}

/// Wraps `rand::Rng::gen_ratio(numerator, denominator)`: `true` with probability
/// numerator / denominator.  rand panics unless `numerator <= denominator` and
/// `denominator > 0`; with equal arguments the answer is always `true`.
#[verifier::external_body]
pub fn random_ratio(rng: &mut ThreadRng, numerator: u32, denominator: u32) -> (r: bool)
    requires
        numerator <= denominator,
        0 < denominator,
    ensures
        numerator == denominator ==> r,
        numerator == 0 ==> !r,
{
    rng.gen_ratio(numerator, denominator)
}

/// Wraps `rand::seq::SliceRandom::shuffle`: the elements are put in a random order;
/// what is stated is that the result is a permutation of what was there.
#[verifier::external_body]
pub fn shuffle<T>(rng: &mut ThreadRng, values: &mut Vec<T>)
    ensures
        final(values)@.len() == old(values)@.len(),
        final(values)@.to_multiset() == old(values)@.to_multiset(),
{
    values.shuffle(rng)
}

/// The die of the game: a number from 1 to 6.
pub fn roll_die(rng: &mut ThreadRng) -> (r: u32)
    ensures
        1 <= r <= 6,
{
    random_in_range(rng, 1, 7) as u32
}

/// What a game needs besides its state: where identifiers and random numbers come from.
pub struct GameBookKeeping {
    pub id_generator: IdGenerator,
    pub rng: ThreadRng,
}

impl GameBookKeeping {
    pub fn new() -> (r: Self)
        ensures
            r.id_generator.last_id() == 0,
    {
        GameBookKeeping { id_generator: IdGenerator::new(), rng: new_rng() }
    }
}

} // verus!

//! Random seeds for a table that is built without a corpus.

use rand::Rng;
use vstd::prelude::*;

verus! {

/// A random seed is shorter than this many bytes.
pub const SEED_LENGTH_BOUND: usize = 25;

/// An ASCII digit or letter.
pub open spec fn is_alphanumeric(byte: u8) -> bool {
    ||| 48 <= byte <= 57
    ||| 65 <= byte <= 90
    ||| 97 <= byte <= 122
}

/// What holds of every random seed: fewer than `SEED_LENGTH_BOUND` bytes,
/// each of them an ASCII digit or letter.
pub open spec fn is_random_seed(seed: Seq<u8>) -> bool {
    &&& seed.len() < SEED_LENGTH_BOUND
    &&& forall|i: int| 0 <= i < seed.len() ==> is_alphanumeric(#[trigger] seed[i])
}

/// Calls `Rng::gen_range` on the thread's generator with the range from zero
/// up to, and without, `bound`. Trusted: the number drawn lies in that range.
/// The outside function panics on an empty range, which `requires` leaves out.
#[verifier::external_body]
fn random_below(bound: usize) -> (n: usize)
    requires
        bound > 0,
    ensures
        n < bound,
{
    rand::thread_rng().gen_range(0..bound)
}

/// Calls `Rng::sample` on the thread's generator with the distribution
/// `Alphanumeric`. Trusted: the byte drawn is an ASCII digit or letter.
#[verifier::external_body]
fn random_alphanumeric() -> (byte: u8)
    ensures
        is_alphanumeric(byte),
{
    rand::thread_rng().sample(rand::distributions::Alphanumeric)
}

/// Draws one seed: a random length below `SEED_LENGTH_BOUND`, then that many
/// random digits and letters.
pub fn random_seed() -> (seed: Vec<u8>)
    ensures
        is_random_seed(seed@),
{
    let length = random_below(SEED_LENGTH_BOUND);
    let mut seed: Vec<u8> = Vec::new();
    while seed.len() < length
        invariant
            seed@.len() <= length < SEED_LENGTH_BOUND,
            forall|i: int| 0 <= i < seed@.len() ==> is_alphanumeric(#[trigger] seed@[i]),
        decreases length - seed@.len(),
    {
        seed.push(random_alphanumeric());
    }
    seed
}

/// Draws `samples` seeds.
pub fn random_seeds(samples: u32) -> (seeds: Vec<Vec<u8>>)
    ensures
        seeds@.len() == samples,
        forall|j: int| 0 <= j < seeds@.len() ==> is_random_seed(#[trigger] seeds@[j]@),
{
    let mut seeds: Vec<Vec<u8>> = Vec::new();
    let mut drawn: u32 = 0;
    while drawn < samples
        invariant
            drawn <= samples,
            seeds@.len() == drawn,
            forall|j: int| 0 <= j < seeds@.len() ==> is_random_seed(#[trigger] seeds@[j]@),
        decreases samples - drawn,
    {
        seeds.push(random_seed());
        drawn += 1;
    }
    seeds
}

} // verus!

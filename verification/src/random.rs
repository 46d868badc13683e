//! Random numbers drawn from the thread-local generator of `rand`.

use rand::Rng;
use vstd::prelude::*;

verus! {

#[verifier::external_type_specification]
#[verifier::external_body]
pub struct ExThreadRng(rand::rngs::ThreadRng);

/// `rand::thread_rng`: the generator of the calling thread, seeded by the
/// system. Nothing is stated of it: its state is not visible here.
pub assume_specification[ rand::thread_rng ]() -> rand::rngs::ThreadRng;

/// `Rng::gen_range` on the half-open range `low..high`: a value drawn uniformly
/// from that range. `rand` panics on an empty range, so the range must not be
/// empty; of the drawn value only that it lies in the range is stated, as it
/// rests on chance.
#[verifier::external_body]
fn gen_range(rng: &mut rand::rngs::ThreadRng, low: u32, high: u32) -> (n: u32)
    requires
        low < high,
    ensures
        low <= n < high,
{
    rng.gen_range(low..high)
}

/// A lucky number between 1 and 100, both included.
pub fn lucky_number() -> (n: u32)
    ensures
        1 <= n <= 100,
{
    let mut rng = rand::thread_rng();
    gen_range(&mut rng, 1, 101)
}

/// The id of a post to fetch: between 1 and 9, both included.
pub fn random_post_id() -> (id: u32)
    ensures
        1 <= id <= 9,
{
    let mut rng = rand::thread_rng();
    gen_range(&mut rng, 1, 10)
}

} // verus!

//! The key generator: batches of fixed-size keys drawn from a random source.
//!
//! The random source is threaded through as an explicit handle rather than
//! taken from ambient state, so a run's inputs are visible in its signature.
//! Nothing is assumed about the bytes drawn: every contract here holds for
//! every outcome of the random source.

use rand::Rng;
use vstd::prelude::*;

verus! {

/// Declares rand's thread-local generator handle so it can stand in
/// signatures; Verus sees nothing inside a value of it.
#[verifier::external_type_specification]
#[verifier::external_body]
pub struct ExThreadRng(rand::rngs::ThreadRng);

/// Relies on rand::thread_rng: a handle to the generator seeded for this
/// thread.
#[verifier::external_body]
pub(crate) fn fresh_rng() -> rand::rngs::ThreadRng {
    rand::thread_rng()
}

/// Relies on rand::Rng::gen::<u8>: one random byte; any byte may come back.
#[verifier::external_body]
fn random_byte(rng: &mut rand::rngs::ThreadRng) -> u8 {
    rng.gen::<u8>()
}

/// One key: `key_size` bytes drawn in order from the random source.
pub fn generate_key(rng: &mut rand::rngs::ThreadRng, key_size: usize) -> (key: Vec<u8>)
    ensures
        key@.len() == key_size,
{
    let mut key: Vec<u8> = Vec::with_capacity(key_size);
    for i in 0..key_size
        invariant
            key@.len() == i,
    {
        let b = random_byte(rng);
        key.push(b);
    }
    key
}

/// One batch: exactly `n` keys, each of exactly `key_size` bytes.
pub fn generate_keys(rng: &mut rand::rngs::ThreadRng, n: usize, key_size: usize) -> (keys: Vec<
    Vec<u8>,
>)
    ensures
        keys@.len() == n,
        forall|i: int| 0 <= i < n ==> #[trigger] keys@[i]@.len() == key_size,
{
    let mut keys: Vec<Vec<u8>> = Vec::with_capacity(n);
    for j in 0..n
        invariant
            keys@.len() == j,
            forall|i: int| 0 <= i < j ==> #[trigger] keys@[i]@.len() == key_size,
    {
        let key = generate_key(rng, key_size);
        keys.push(key);
    }
    keys
}

} // verus!

//! Per-worker nonce generation: mixed seeds, reduced into the field.
use vstd::prelude::*;
use rand::Rng;
use crate::field::PRIME;

verus! {

/// Number of field elements in one nonce.
pub const NONCE_LANES: usize = 8;

/// Multiplier that spreads worker ids across the word.
pub const WORKER_MIX: u64 = 0x517c_c1b7_2722_0a95;

/// Odd increment that separates the lanes of one nonce.
pub const LANE_STEP: u64 = 0x9e37_79b9_7f4a_7c15;

/// The seed of a worker: its id times the mixing constant, xor the entropy.
pub open spec fn worker_seed(thread_id: u64, base_entropy: u64) -> u64 {
    thread_id.wrapping_mul(WORKER_MIX) ^ base_entropy
}

/// Lane `lane` of a worker's nonce, from the seed, the lane's step and a
/// random draw, reduced into the field.
pub open spec fn nonce_lane(thread_id: u64, base_entropy: u64, lane: u64, draw: u64) -> u64 {
    ((worker_seed(thread_id, base_entropy).wrapping_add(lane.wrapping_mul(LANE_STEP)) ^ draw)
        % PRIME) as u64
}

/// The nonce of a worker for the given draws, one lane per draw.
pub fn nonce_from_draws(thread_id: u64, base_entropy: u64, draws: &[u64]) -> (r: Vec<u64>)
    requires
        draws@.len() == NONCE_LANES,
    ensures
        r@.len() == NONCE_LANES,
        forall|i: int|
            0 <= i < NONCE_LANES ==> #[trigger] r@[i] == nonce_lane(
                thread_id,
                base_entropy,
                i as u64,
                draws@[i],
            ),
        forall|i: int| 0 <= i < NONCE_LANES ==> #[trigger] r@[i] < PRIME,
{
    let seed = thread_id.wrapping_mul(WORKER_MIX) ^ base_entropy;
    let mut values: Vec<u64> = Vec::new();
    let mut i: u64 = 0;
    while i < NONCE_LANES as u64
        invariant
            draws@.len() == NONCE_LANES,
            seed == worker_seed(thread_id, base_entropy),
            i <= NONCE_LANES,
            values@.len() == i,
            forall|k: int|
                0 <= k < i ==> #[trigger] values@[k] == nonce_lane(
                    thread_id,
                    base_entropy,
                    k as u64,
                    draws@[k],
                ),
            forall|k: int| 0 <= k < i ==> #[trigger] values@[k] < PRIME,
        decreases NONCE_LANES - i,
    {
        let entropy = seed.wrapping_add(i.wrapping_mul(LANE_STEP));
        values.push((entropy ^ draws[i as usize]) % PRIME);
        i = i + 1;
    }
    values
}

/// Relies on rand's `thread_rng` and `Rng::gen::<u64>`: a word drawn from the
/// thread's generator, of which nothing can be promised.
#[verifier::external_body]
fn random_u64() -> (r: u64) {
    rand::thread_rng().gen::<u64>()
}

/// A fresh nonce for worker `thread_id`: `nonce_from_draws` on eight random
/// draws, which states how each lane mixes the worker's seed with its draw.
/// Since any draw may come, all that holds of the result is that every lane
/// lies in the field.
pub fn generate_optimized_nonce(thread_id: u64, base_entropy: u64) -> (r: Vec<u64>)
    ensures
        r@.len() == NONCE_LANES,
        forall|i: int| 0 <= i < NONCE_LANES ==> #[trigger] r@[i] < PRIME,
{
    let mut draws: Vec<u64> = Vec::new();
    while draws.len() < NONCE_LANES
        invariant
            draws@.len() <= NONCE_LANES,
        decreases NONCE_LANES - draws@.len(),
    {
        draws.push(random_u64());
    }
    nonce_from_draws(thread_id, base_entropy, draws.as_slice())
}

} // verus!

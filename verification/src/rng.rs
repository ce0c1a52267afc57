//! The seeded random source used once, at game start, to pre-generate food
//! candidates, and the in-range coordinate sampler built on it.

use vstd::prelude::*;
use rand::rngs::SmallRng;

verus! {

#[verifier::external_type_specification]
#[verifier::external_body]
pub struct ExSmallRng(SmallRng);

/// Relies on `rand::SeedableRng::seed_from_u64` for `SmallRng`: builds a
/// generator from the seed.
#[verifier::external_body]
pub fn rng_from_seed(seed: u64) -> SmallRng {
    <SmallRng as rand::SeedableRng>::seed_from_u64(seed)
}

/// Relies on `rand::RngCore::next_u32` for `SmallRng`: one draw; nothing is
/// assumed of the value.
#[verifier::external_body]
pub fn rng_next_u32(rng: &mut SmallRng) -> u32 {
    rand::RngCore::next_u32(rng)
}

/// Most rejection draws tried before falling back to a reduction of the last
/// draw; the coordinate stays in range and stays a function of the generator
/// state either way.
const MAX_REJECTION_DRAWS: u32 = 1024;

/// Samples one coordinate in `[1, limit)` from the top byte of successive
/// draws, re-drawing while the byte falls out of range.
pub fn draw_coord(rng: &mut SmallRng, limit: u8) -> (c: u8)
    requires
        2 <= limit,
    ensures
        1 <= c < limit,
{
    let mut tries: u32 = 0;
    while tries < MAX_REJECTION_DRAWS
        invariant
            2 <= limit,
        decreases MAX_REJECTION_DRAWS - tries,
    {
        let r = rng_next_u32(rng);
        let top = r >> 24;
        assert(top < 256) by (bit_vector)
            requires
                top == r >> 24,
        ;
        let b = top as u8;
        if 1 <= b && b < limit {
            return b;
        }
        tries += 1;
    }
    let r = rng_next_u32(rng);
    let reduced = r % ((limit - 1) as u32);
    assert(reduced < (limit - 1) as u32);
    1 + (reduced as u8)
}

} // verus!

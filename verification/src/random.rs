//! From a random seed to the number that the game draws.

use vstd::prelude::*;

verus! {

/// The number that the first four bytes of `seed` spell, the least
/// significant byte first.
pub open spec fn seed_number(seed: Seq<u8>) -> int {
    seed[0] + seed[1] * 0x100 + seed[2] * 0x1_0000 + seed[3] * 0x100_0000
}

/// Reads a draw off a seed of 32 random bytes: its first four bytes, taken as
/// a little-endian number.
pub fn get_random_u32(hash: &[u8; 32]) -> (number: u32)
    ensures
        number == seed_number(hash@),
{
    let low: u32 = hash[0] as u32;
    let mid_low: u32 = hash[1] as u32;
    let mid_high: u32 = hash[2] as u32;
    let high: u32 = hash[3] as u32;
    low + mid_low * 0x100 + mid_high * 0x1_0000 + high * 0x100_0000
}

} // verus!

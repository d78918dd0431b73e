//! From a block of random bytes to the numbers that the game consumes.

use vstd::prelude::*;

verus! {

/// The number that the first four of `bytes` spell, least significant first.
pub open spec fn leading_le_u32(bytes: Seq<u8>) -> int
    recommends
        bytes.len() >= 4,
{
    bytes[0] + 256 * bytes[1] + 65536 * bytes[2] + 16777216 * bytes[3]
}

/// Reads a random number off the first four bytes of a 32-byte hash, least
/// significant byte first. The other bytes are not used.
pub fn random_u32_from_hash(hash: &[u8; 32]) -> (random: u32)
    ensures
        random == leading_le_u32(hash@),
{
    let b0: u32 = hash[0] as u32;
    let b1: u32 = hash[1] as u32;
    let b2: u32 = hash[2] as u32;
    let b3: u32 = hash[3] as u32;
    b0 + 256 * b1 + 65536 * b2 + 16777216 * b3
}

} // verus!

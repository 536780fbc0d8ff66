//! Turning the output of an entropy source into the numbers that a game
//! needs.

use vstd::prelude::*;
use crate::types::PebblesError;

verus! {

/// The number that four bytes spell, least significant byte first.
pub open spec fn le_value(b0: u8, b1: u8, b2: u8, b3: u8) -> int {
    b0 + 0x100 * b1 + 0x1_0000 * b2 + 0x100_0000 * b3
}

/// The number between `1` and `k` that a random value selects.
pub open spec fn one_to_k(k: u32, random_value: u32) -> int
    recommends
        k >= 1,
{
    1 + random_value % k
}

/// Reads a 32-bit random value off a random hash: its first four bytes,
/// least significant byte first.
pub fn get_random_u32(hash: &[u8; 32]) -> (value: u32)
    ensures
        value == le_value(hash[0], hash[1], hash[2], hash[3]),
{
    let b0: u32 = hash[0] as u32;
    let b1: u32 = hash[1] as u32;
    let b2: u32 = hash[2] as u32;
    let b3: u32 = hash[3] as u32;
    b0 + 0x100 * b1 + 0x1_0000 * b2 + 0x100_0000 * b3
}

/// Maps a random value into the range from `1` to `k`, both included, as
/// one more than its remainder modulo `k`. Where `k` does not divide `2^32`
/// the smaller numbers of the range come slightly more often than the
/// larger ones. An empty range is refused.
pub fn get_random_num_1_to_k(k: u32, random_value: u32) -> (result: Result<u32, PebblesError>)
    ensures
        match result {
            Ok(value) => k >= 1 && value == one_to_k(k, random_value) && 1 <= value <= k,
            Err(e) => k == 0 && e == PebblesError::InvalidArgument,
        },
{
    if k == 0 {
        return Err(PebblesError::InvalidArgument);
    }
    Ok(1 + random_value % k)
}

} // verus!

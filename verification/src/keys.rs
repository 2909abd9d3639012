//! The S-DES key schedule: two 8-bit round subkeys derived from the 10-bit
//! master key by P10, independent circular shifts of the two 5-bit halves,
//! and P8.

use vstd::prelude::*;
use crate::perm::p10;
use crate::perm::p10_spec;
use crate::perm::p8;
use crate::perm::p8_spec;

verus! {

/// A 5-bit value rotated left by `n` positions, circular within exactly
/// five bits.
pub open spec fn rotl5_spec(half: u16, n: u16) -> u16 {
    ((half << n) | (half >> ((5 - n) as u16))) & 0x1F
}

/// Both 5-bit halves of a 10-bit value rotated left by `n`, independently:
/// no bit crosses from one half to the other.
pub open spec fn left_shift_spec(key: u16, n: u16) -> u16 {
    (rotl5_spec((key >> 5u16) & 0x1F, n) << 5u16) | rotl5_spec(key & 0x1F, n)
}

/// Rotates the high and low 5-bit halves of a 10-bit value left by `n`
/// positions each, and reassembles them in place.
pub fn left_shift(key: u16, n: u16) -> (r: u16)
    requires
        key < 1024,
        0 < n < 5,
    ensures
        r == left_shift_spec(key, n),
        r < 1024,
{
    proof {
        assert(left_shift_spec(key, n) < 1024) by (bit_vector);
    }
    let left: u16 = (key >> 5u16) & 0x1F;
    let right: u16 = key & 0x1F;
    let shifted_left: u16 = ((left << n) | (left >> ((5 - n) as u16))) & 0x1F;
    let shifted_right: u16 = ((right << n) | (right >> ((5 - n) as u16))) & 0x1F;
    (shifted_left << 5u16) | shifted_right
}

/// The first round subkey: P8 of the P10-permuted key with both halves
/// rotated once.
pub open spec fn sk1_spec(key: u16) -> u8 {
    p8_spec(left_shift_spec(p10_spec(key), 1))
}

/// The second round subkey: P8 of the P10-permuted key with both halves
/// rotated three times in all (two more than for the first subkey).
pub open spec fn sk2_spec(key: u16) -> u8 {
    p8_spec(left_shift_spec(left_shift_spec(p10_spec(key), 1), 2))
}

/// Derives the round subkey pair (SK1, SK2) from the 10-bit master key.
pub fn generate_subkeys(key: u16) -> (r: (u8, u8))
    requires
        key < 1024,
    ensures
        r.0 == sk1_spec(key),
        r.1 == sk2_spec(key),
{
    let p10_key: u16 = p10(key);
    let ls1: u16 = left_shift(p10_key, 1);
    let ls2: u16 = left_shift(ls1, 2);
    (p8(ls1), p8(ls2))
}

/// The key schedule is deterministic: equal master keys yield the same
/// subkey pair.
pub proof fn lemma_subkeys_deterministic(key_a: u16, key_b: u16)
    requires
        key_a == key_b,
    ensures
        sk1_spec(key_a) == sk1_spec(key_b),
        sk2_spec(key_a) == sk2_spec(key_b),
{
}

} // verus!

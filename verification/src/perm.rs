//! The fixed bit-permutation tables of S-DES.
//!
//! Bit positions in the specifications below are counted from the least
//! significant bit (bit 0).  Each permutation is specified bit for bit:
//! the spec function states, for every output bit, which input bit it
//! carries.

use vstd::prelude::*;

verus! {

/// Bit `i` of a 16-bit value, as 0 or 1.
pub open spec fn bit16(x: u16, i: u16) -> u16 {
    (x >> i) & 1
}

/// Bit `i` of an 8-bit value, as 0 or 1.
pub open spec fn bit8(x: u8, i: u8) -> u8 {
    (x >> i) & 1
}

/// P10, the 10-bit to 10-bit permutation opening the key schedule.
pub open spec fn p10_spec(key: u16) -> u16 {
    (bit16(key, 7) << 9u16) | (bit16(key, 5) << 8u16) | (bit16(key, 8) << 7u16)
        | (bit16(key, 3) << 6u16) | (bit16(key, 6) << 5u16) | (bit16(key, 0) << 4u16)
        | (bit16(key, 9) << 3u16) | (bit16(key, 1) << 2u16) | (bit16(key, 2) << 1u16)
        | bit16(key, 4)
}

/// Permutes the ten key bits according to the fixed P10 table.
pub fn p10(key: u16) -> (r: u16)
    requires
        key < 1024,
    ensures
        r == p10_spec(key),
        r < 1024,
{
    proof {
        assert(p10_spec(key) < 1024) by (bit_vector);
    }
    (((key >> 7u16) & 1) << 9u16) | (((key >> 5u16) & 1) << 8u16)
        | (((key >> 8u16) & 1) << 7u16) | (((key >> 3u16) & 1) << 6u16)
        | (((key >> 6u16) & 1) << 5u16) | (((key >> 0u16) & 1) << 4u16)
        | (((key >> 9u16) & 1) << 3u16) | (((key >> 1u16) & 1) << 2u16)
        | (((key >> 2u16) & 1) << 1u16) | ((key >> 4u16) & 1)
}

/// P8, the 10-bit to 8-bit permutation extracting a round subkey.
pub open spec fn p8_spec(key: u16) -> u8 {
    ((bit16(key, 4) << 7u16) | (bit16(key, 7) << 6u16) | (bit16(key, 3) << 5u16)
        | (bit16(key, 6) << 4u16) | (bit16(key, 2) << 3u16) | (bit16(key, 5) << 2u16)
        | (bit16(key, 0) << 1u16) | bit16(key, 1)) as u8
}

/// Selects and permutes eight of the ten key bits according to the fixed
/// P8 table.
pub fn p8(key: u16) -> (r: u8)
    requires
        key < 1024,
    ensures
        r == p8_spec(key),
{
    ((((key >> 4u16) & 1) << 7u16) | (((key >> 7u16) & 1) << 6u16)
        | (((key >> 3u16) & 1) << 5u16) | (((key >> 6u16) & 1) << 4u16)
        | (((key >> 2u16) & 1) << 3u16) | (((key >> 5u16) & 1) << 2u16)
        | (((key >> 0u16) & 1) << 1u16) | ((key >> 1u16) & 1)) as u8
}

/// IP, the initial permutation applied to the whole 8-bit block.
pub open spec fn ip_spec(block: u8) -> u8 {
    (bit8(block, 6) << 7u8) | (bit8(block, 2) << 6u8) | (bit8(block, 5) << 5u8)
        | (bit8(block, 7) << 4u8) | (bit8(block, 4) << 3u8) | (bit8(block, 0) << 2u8)
        | (bit8(block, 3) << 1u8) | bit8(block, 1)
}

/// Reorders the eight block bits according to the fixed IP table.
pub fn initial_permutation(block: u8) -> (r: u8)
    ensures
        r == ip_spec(block),
{
    (((block >> 6u8) & 1) << 7u8) | (((block >> 2u8) & 1) << 6u8)
        | (((block >> 5u8) & 1) << 5u8) | (((block >> 7u8) & 1) << 4u8)
        | (((block >> 4u8) & 1) << 3u8) | (((block >> 0u8) & 1) << 2u8)
        | (((block >> 3u8) & 1) << 1u8) | ((block >> 1u8) & 1)
}

/// IP^-1, the inverse of the initial permutation.
pub open spec fn ip_inv_spec(block: u8) -> u8 {
    (bit8(block, 4) << 7u8) | (bit8(block, 7) << 6u8) | (bit8(block, 5) << 5u8)
        | (bit8(block, 3) << 4u8) | (bit8(block, 1) << 3u8) | (bit8(block, 6) << 2u8)
        | (bit8(block, 0) << 1u8) | bit8(block, 2)
}

/// Reorders the eight block bits according to the fixed IP^-1 table.
pub fn inverse_initial_permutation(block: u8) -> (r: u8)
    ensures
        r == ip_inv_spec(block),
{
    (((block >> 4u8) & 1) << 7u8) | (((block >> 7u8) & 1) << 6u8)
        | (((block >> 5u8) & 1) << 5u8) | (((block >> 3u8) & 1) << 4u8)
        | (((block >> 1u8) & 1) << 3u8) | (((block >> 6u8) & 1) << 2u8)
        | (((block >> 0u8) & 1) << 1u8) | ((block >> 2u8) & 1)
}

/// IP^-1 undoes IP and IP undoes IP^-1: the two tables are inverse
/// permutations of the eight bit positions.
pub proof fn lemma_ip_inverse(block: u8)
    ensures
        ip_inv_spec(ip_spec(block)) == block,
        ip_spec(ip_inv_spec(block)) == block,
{
    assert(ip_inv_spec(ip_spec(block)) == block) by (bit_vector);
    assert(ip_spec(ip_inv_spec(block)) == block) by (bit_vector);
}

/// E/P, the expansion permutation widening a 4-bit value to 8 bits.
/// Each of the four input bits is read twice.
pub open spec fn ep_spec(nibble: u8) -> u8 {
    (bit8(nibble, 0) << 7u8) | (bit8(nibble, 3) << 6u8) | (bit8(nibble, 2) << 5u8)
        | (bit8(nibble, 1) << 4u8) | (bit8(nibble, 2) << 3u8) | (bit8(nibble, 1) << 2u8)
        | (bit8(nibble, 0) << 1u8) | bit8(nibble, 3)
}

/// Widens the low nibble to 8 bits according to the fixed E/P table,
/// duplicating every source bit.
pub fn expansion_permutation(nibble: u8) -> (r: u8)
    requires
        nibble < 16,
    ensures
        r == ep_spec(nibble),
{
    (((nibble >> 0u8) & 1) << 7u8) | (((nibble >> 3u8) & 1) << 6u8)
        | (((nibble >> 2u8) & 1) << 5u8) | (((nibble >> 1u8) & 1) << 4u8)
        | (((nibble >> 2u8) & 1) << 3u8) | (((nibble >> 1u8) & 1) << 2u8)
        | (((nibble >> 0u8) & 1) << 1u8) | ((nibble >> 3u8) & 1)
}

/// The expansion permutation is a widening map, not a bijection: under the
/// table's 1-based count from the most significant input bit, source
/// positions 4 and 1 (bits 0 and 3 here) land in the two outer output bit
/// pairs, and positions 2 and 3 (bits 2 and 1 here) in the two inner ones,
/// so every output value carries each source bit twice.
pub proof fn lemma_expansion_duplicates(nibble: u8)
    ensures
        bit8(ep_spec(nibble), 7) == bit8(nibble, 0),
        bit8(ep_spec(nibble), 1) == bit8(nibble, 0),
        bit8(ep_spec(nibble), 6) == bit8(nibble, 3),
        bit8(ep_spec(nibble), 0) == bit8(nibble, 3),
        bit8(ep_spec(nibble), 5) == bit8(nibble, 2),
        bit8(ep_spec(nibble), 3) == bit8(nibble, 2),
        bit8(ep_spec(nibble), 4) == bit8(nibble, 1),
        bit8(ep_spec(nibble), 2) == bit8(nibble, 1),
{
    assert(bit8(ep_spec(nibble), 7) == bit8(nibble, 0)
        && bit8(ep_spec(nibble), 1) == bit8(nibble, 0)
        && bit8(ep_spec(nibble), 6) == bit8(nibble, 3)
        && bit8(ep_spec(nibble), 0) == bit8(nibble, 3)
        && bit8(ep_spec(nibble), 5) == bit8(nibble, 2)
        && bit8(ep_spec(nibble), 3) == bit8(nibble, 2)
        && bit8(ep_spec(nibble), 4) == bit8(nibble, 1)
        && bit8(ep_spec(nibble), 2) == bit8(nibble, 1)) by (bit_vector);
}

/// P4, the 4-bit permutation closing the round function.
pub open spec fn p4_spec(nibble: u8) -> u8 {
    (bit8(nibble, 2) << 3u8) | (bit8(nibble, 0) << 2u8) | (bit8(nibble, 1) << 1u8)
        | bit8(nibble, 3)
}

/// Permutes the four low bits according to the fixed P4 table.
pub fn p4(nibble: u8) -> (r: u8)
    requires
        nibble < 16,
    ensures
        r == p4_spec(nibble),
        r < 16,
{
    proof {
        assert(p4_spec(nibble) < 16) by (bit_vector);
    }
    (((nibble >> 2u8) & 1) << 3u8) | (((nibble >> 0u8) & 1) << 2u8)
        | (((nibble >> 1u8) & 1) << 1u8) | ((nibble >> 3u8) & 1)
}

} // verus!

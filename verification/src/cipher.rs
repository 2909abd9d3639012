//! The S-DES cipher core: the Feistel round function, the round transform
//! `fK`, the half swap, and the `encrypt`/`decrypt` pipelines, together with
//! the round-trip and bijection theorems.

use vstd::prelude::*;
use crate::perm::ep_spec;
use crate::perm::expansion_permutation;
use crate::perm::initial_permutation;
use crate::perm::inverse_initial_permutation;
use crate::perm::ip_inv_spec;
use crate::perm::ip_spec;
use crate::perm::lemma_ip_inverse;
use crate::perm::p4;
use crate::perm::p4_spec;
use crate::sbox::SBox;
use crate::sbox::s0_spec;
use crate::sbox::s1_spec;
use crate::sbox::s_box_lookup;
use crate::sbox::sbox_col_spec;
use crate::sbox::sbox_row_spec;

verus! {

/// The Feistel round function F: expand the nibble, mix with the subkey,
/// substitute the two halves through S0 and S1, and permute with P4.
pub open spec fn f_spec(nibble: u8, subkey: u8) -> u8 {
    let mixed = ep_spec(nibble) ^ subkey;
    let left_half = (mixed >> 4u8) & 0x0F;
    let right_half = mixed & 0x0F;
    p4_spec(
        (s0_spec(sbox_row_spec(left_half), sbox_col_spec(left_half)) << 2u8)
            | s1_spec(sbox_row_spec(right_half), sbox_col_spec(right_half)),
    )
}

/// Computes the round function F on a 4-bit value under an 8-bit subkey.
pub fn f_function(nibble: u8, subkey: u8) -> (r: u8)
    requires
        nibble < 16,
    ensures
        r == f_spec(nibble, subkey),
        r < 16,
{
    let expanded: u8 = expansion_permutation(nibble);
    let mixed: u8 = expanded ^ subkey;
    let left_half: u8 = (mixed >> 4u8) & 0x0F;
    let right_half: u8 = mixed & 0x0F;
    proof {
        assert((mixed >> 4u8) & 0x0F < 16 && mixed & 0x0F < 16) by (bit_vector);
    }
    let s0_result: u8 = s_box_lookup(left_half, SBox::S0);
    let s1_result: u8 = s_box_lookup(right_half, SBox::S1);
    let combined: u8 = (s0_result << 2u8) | s1_result;
    proof {
        assert(s0_result < 4 && s1_result < 4 ==> ((s0_result << 2u8) | s1_result) < 16)
            by (bit_vector);
    }
    p4(combined)
}

/// The round transform fK: XOR F of the right half into the left half and
/// carry the right half through unchanged.
pub open spec fn fk_spec(block: u8, subkey: u8) -> u8 {
    ((((block >> 4u8) & 0x0F) ^ f_spec(block & 0x0F, subkey)) << 4u8) | (block & 0x0F)
}

/// Applies one Feistel round to the block under the given subkey.
pub fn fk(block: u8, subkey: u8) -> (r: u8)
    ensures
        r == fk_spec(block, subkey),
{
    let left: u8 = (block >> 4u8) & 0x0F;
    let right: u8 = block & 0x0F;
    proof {
        assert(block & 0x0F < 16) by (bit_vector);
    }
    let f_result: u8 = f_function(right, subkey);
    let new_left: u8 = left ^ f_result;
    (new_left << 4u8) | right
}

/// The half swap: the high and low nibbles exchanged.
pub open spec fn sw_spec(block: u8) -> u8 {
    ((block & 0x0F) << 4u8) | ((block >> 4u8) & 0x0F)
}

/// Swaps the high and low nibbles of the block.
pub fn sw(block: u8) -> (r: u8)
    ensures
        r == sw_spec(block),
{
    ((block & 0x0F) << 4u8) | ((block >> 4u8) & 0x0F)
}

/// The encryption pipeline: IP, round under SK1, swap, round under SK2,
/// IP^-1.
pub open spec fn encrypt_spec(plaintext: u8, sk1: u8, sk2: u8) -> u8 {
    ip_inv_spec(fk_spec(sw_spec(fk_spec(ip_spec(plaintext), sk1)), sk2))
}

/// The decryption pipeline: the same structure as encryption with the
/// subkey order reversed.
pub open spec fn decrypt_spec(ciphertext: u8, sk1: u8, sk2: u8) -> u8 {
    ip_inv_spec(fk_spec(sw_spec(fk_spec(ip_spec(ciphertext), sk2)), sk1))
}

/// Encrypts one 8-bit block under the subkey pair (SK1, SK2).
pub fn encrypt(plaintext: u8, sk1: u8, sk2: u8) -> (r: u8)
    ensures
        r == encrypt_spec(plaintext, sk1, sk2),
{
    let ip: u8 = initial_permutation(plaintext);
    let after_fk1: u8 = fk(ip, sk1);
    let after_sw: u8 = sw(after_fk1);
    let after_fk2: u8 = fk(after_sw, sk2);
    inverse_initial_permutation(after_fk2)
}

/// Decrypts one 8-bit block under the subkey pair (SK1, SK2), applying the
/// subkeys in reverse order.
pub fn decrypt(ciphertext: u8, sk1: u8, sk2: u8) -> (r: u8)
    ensures
        r == decrypt_spec(ciphertext, sk1, sk2),
{
    let ip: u8 = initial_permutation(ciphertext);
    let after_fk1: u8 = fk(ip, sk2);
    let after_sw: u8 = sw(after_fk1);
    let after_fk2: u8 = fk(after_sw, sk1);
    inverse_initial_permutation(after_fk2)
}

/// A Feistel round undoes itself: applying fK twice under the same subkey
/// restores the block, because the right half passes through unchanged and
/// F of it is XORed into the left half both times.
pub proof fn lemma_fk_involution(block: u8, subkey: u8)
    ensures
        fk_spec(fk_spec(block, subkey), subkey) == block,
{
    let f_value = f_spec(block & 0x0F, subkey);
    let once = fk_spec(block, subkey);
    assert(once == ((((block >> 4u8) & 0x0F) ^ f_value) << 4u8) | (block & 0x0F));
    assert(once & 0x0F == block & 0x0F) by (bit_vector)
        requires
            once == ((((block >> 4u8) & 0x0F) ^ f_value) << 4u8) | (block & 0x0F),
    ;
    assert(f_spec(once & 0x0F, subkey) == f_value);
    assert((((((once >> 4u8) & 0x0F) ^ f_value) << 4u8) | (once & 0x0F)) == block)
        by (bit_vector)
        requires
            once == ((((block >> 4u8) & 0x0F) ^ f_value) << 4u8) | (block & 0x0F),
    ;
}

/// The half swap undoes itself.
pub proof fn lemma_sw_involution(block: u8)
    ensures
        sw_spec(sw_spec(block)) == block,
{
    assert(sw_spec(sw_spec(block)) == block) by (bit_vector);
}

/// Round trip: decryption under a subkey pair inverts encryption under the
/// same pair, for every 8-bit block and every pair of 8-bit subkeys.
pub proof fn lemma_round_trip(plaintext: u8, sk1: u8, sk2: u8)
    ensures
        decrypt_spec(encrypt_spec(plaintext, sk1, sk2), sk1, sk2) == plaintext,
{
    let a = ip_spec(plaintext);
    let b = fk_spec(a, sk1);
    let s = sw_spec(b);
    let c = fk_spec(s, sk2);
    lemma_ip_inverse(c);
    lemma_fk_involution(s, sk2);
    lemma_sw_involution(b);
    lemma_fk_involution(a, sk1);
    lemma_ip_inverse(plaintext);
}

/// The mirror round trip: encryption inverts decryption, for every 8-bit
/// block and every pair of 8-bit subkeys.
pub proof fn lemma_encrypt_of_decrypt(ciphertext: u8, sk1: u8, sk2: u8)
    ensures
        encrypt_spec(decrypt_spec(ciphertext, sk1, sk2), sk1, sk2) == ciphertext,
{
    let a = ip_spec(ciphertext);
    let b = fk_spec(a, sk2);
    let s = sw_spec(b);
    let c = fk_spec(s, sk1);
    lemma_ip_inverse(c);
    lemma_fk_involution(s, sk1);
    lemma_sw_involution(b);
    lemma_fk_involution(a, sk2);
    lemma_ip_inverse(ciphertext);
}

/// For any fixed subkey pair, encryption is a bijection on the 256 8-bit
/// blocks: injective, and onto every 8-bit ciphertext value, with
/// decryption naming the preimage.
pub proof fn lemma_encrypt_bijective(sk1: u8, sk2: u8)
    ensures
        forall|p1: u8, p2: u8|
            encrypt_spec(p1, sk1, sk2) == encrypt_spec(p2, sk1, sk2) ==> p1 == p2,
        forall|c: u8| #[trigger] encrypt_spec(decrypt_spec(c, sk1, sk2), sk1, sk2) == c,
{
    assert forall|p1: u8, p2: u8|
        encrypt_spec(p1, sk1, sk2) == encrypt_spec(p2, sk1, sk2) implies p1 == p2 by {
        lemma_round_trip(p1, sk1, sk2);
        lemma_round_trip(p2, sk1, sk2);
    }
    assert forall|c: u8| #[trigger] encrypt_spec(decrypt_spec(c, sk1, sk2), sk1, sk2) == c by {
        lemma_encrypt_of_decrypt(c, sk1, sk2);
    }
}

} // verus!

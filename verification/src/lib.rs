//! Simplified DES (S-DES): a pedagogical block cipher on 8-bit blocks with a
//! 10-bit master key.
//!
//! The cipher is built from fixed bit permutations, two substitution boxes,
//! a key schedule deriving two 8-bit round subkeys, and a two-round Feistel
//! network.  Every transform is a total, deterministic function over
//! fixed-width unsigned integers; the contracts pin each result down to an
//! exact bit-level specification, and the round-trip and bijection laws are
//! proved from them.

pub mod cipher;
pub mod keys;
pub mod perm;
pub mod sbox;

pub use cipher::decrypt;
pub use cipher::encrypt;
pub use cipher::f_function;
pub use cipher::fk;
pub use cipher::sw;

pub use keys::generate_subkeys;
pub use keys::left_shift;

pub use perm::expansion_permutation;
pub use perm::initial_permutation;
pub use perm::inverse_initial_permutation;
pub use perm::p10;
pub use perm::p4;
pub use perm::p8;
pub use sbox::SBox;
pub use sbox::s_box_lookup;

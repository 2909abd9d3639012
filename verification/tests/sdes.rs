use sdes::SBox;
use sdes::decrypt;
use sdes::encrypt;
use sdes::expansion_permutation;
use sdes::f_function;
use sdes::fk;
use sdes::generate_subkeys;
use sdes::initial_permutation;
use sdes::inverse_initial_permutation;
use sdes::left_shift;
use sdes::p10;
use sdes::p4;
use sdes::p8;
use sdes::s_box_lookup;
use sdes::sw;

#[test]
fn known_answer_vector() {
    let key: u16 = 0b1010000010;
    let plaintext: u8 = 0b11010111;
    let (sk1, sk2): (u8, u8) = generate_subkeys(key);
    assert_eq!(sk1, 0b10100100);
    assert_eq!(sk2, 0b01000011);
    let ciphertext: u8 = encrypt(plaintext, sk1, sk2);
    assert_eq!(ciphertext, 0b10101000);
    assert_eq!(decrypt(ciphertext, sk1, sk2), plaintext);
}

#[test]
fn subkeys_deterministic() {
    for key in 0u16..1024u16 {
        let first: (u8, u8) = generate_subkeys(key);
        let second: (u8, u8) = generate_subkeys(key);
        assert_eq!(first, second);
    }
}

#[test]
fn round_trip_all_blocks_one_key() {
    let (sk1, sk2): (u8, u8) = generate_subkeys(0b1010000010);
    for block in 0u16..256u16 {
        let p: u8 = block as u8;
        assert_eq!(decrypt(encrypt(p, sk1, sk2), sk1, sk2), p);
    }
}

#[test]
fn round_trip_all_keys_sample_blocks() {
    let samples: [u8; 4] = [0b00000000, 0b11111111, 0b11010111, 0b01010101];
    for key in 0u16..1024u16 {
        let (sk1, sk2): (u8, u8) = generate_subkeys(key);
        for &p in samples.iter() {
            assert_eq!(decrypt(encrypt(p, sk1, sk2), sk1, sk2), p);
        }
    }
}

#[test]
fn encrypt_bijective_exhaustive() {
    let (sk1, sk2): (u8, u8) = generate_subkeys(0b1100110011);
    let mut seen: [bool; 256] = [false; 256];
    for block in 0u16..256u16 {
        let c: u8 = encrypt(block as u8, sk1, sk2);
        assert!(!seen[c as usize]);
        seen[c as usize] = true;
    }
    for &hit in seen.iter() {
        assert!(hit);
    }
}

#[test]
fn encrypt_inverts_decrypt_exhaustive() {
    let (sk1, sk2): (u8, u8) = generate_subkeys(0b0101010101);
    for block in 0u16..256u16 {
        let c: u8 = block as u8;
        assert_eq!(encrypt(decrypt(c, sk1, sk2), sk1, sk2), c);
    }
}

#[test]
fn width_closure_p10_left_shift() {
    for key in 0u16..1024u16 {
        assert!(p10(key) < 1024);
        for n in 1u16..5u16 {
            assert!(left_shift(key, n) < 1024);
        }
    }
}

#[test]
fn width_closure_nibble_transforms() {
    for nibble in 0u8..16u8 {
        assert!(p4(nibble) < 16);
        assert!(s_box_lookup(nibble, SBox::S0) < 4);
        assert!(s_box_lookup(nibble, SBox::S1) < 4);
        for subkey in 0u16..256u16 {
            assert!(f_function(nibble, subkey as u8) < 16);
        }
    }
}

#[test]
fn permutation_known_values() {
    assert_eq!(p10(0b1010000010), 0b1000001100);
    assert_eq!(p8(0b0000111000), 0b10100100);
    assert_eq!(initial_permutation(0b11010111), 0b11011101);
    assert_eq!(inverse_initial_permutation(0b00110010), 0b10101000);
    assert_eq!(p4(0b0111), 0b1110);
}

#[test]
fn initial_permutation_inverse_exhaustive() {
    for block in 0u16..256u16 {
        let b: u8 = block as u8;
        assert_eq!(inverse_initial_permutation(initial_permutation(b)), b);
        assert_eq!(initial_permutation(inverse_initial_permutation(b)), b);
    }
}

#[test]
fn left_shift_known_values() {
    assert_eq!(left_shift(0b1000001100, 1), 0b0000111000);
    assert_eq!(left_shift(0b0000111000, 2), 0b0010000011);
    // a rotation that wraps: each half circularly, no bit crossing halves
    assert_eq!(left_shift(0b1000010000, 4), 0b0100001000);
}

#[test]
fn expansion_duplicates_each_source_bit() {
    for nibble in 0u8..16u8 {
        let e: u8 = expansion_permutation(nibble);
        // outer output pairs read source positions 4 and 1 of the table
        assert_eq!((e >> 7) & 1, nibble & 1);
        assert_eq!((e >> 1) & 1, nibble & 1);
        assert_eq!((e >> 6) & 1, (nibble >> 3) & 1);
        assert_eq!(e & 1, (nibble >> 3) & 1);
        // inner output pairs read source positions 2 and 3
        assert_eq!((e >> 5) & 1, (nibble >> 2) & 1);
        assert_eq!((e >> 3) & 1, (nibble >> 2) & 1);
        assert_eq!((e >> 4) & 1, (nibble >> 1) & 1);
        assert_eq!((e >> 2) & 1, (nibble >> 1) & 1);
    }
    assert_eq!(expansion_permutation(0b1101), 0b11101011);
}

#[test]
fn sbox_row_column_grouping() {
    // nibble 0b1011: row = bits {3,0} = 0b11, col = bits {2,1} = 0b01
    assert_eq!(s_box_lookup(0b1011, SBox::S0), 1);
    assert_eq!(s_box_lookup(0b1011, SBox::S1), 1);
    // nibble 0b0110: row = 0b00, col = 0b11; a contiguous high/low split
    // would read row 0b01 and col 0b10 instead and land elsewhere
    assert_eq!(s_box_lookup(0b0110, SBox::S0), 2);
    assert_eq!(s_box_lookup(0b0110, SBox::S1), 3);
}

#[test]
fn round_function_known_values() {
    assert_eq!(f_function(0b1101, 0b10100100), 0b1111);
    assert_eq!(fk(0b11011101, 0b10100100), 0b00101101);
    assert_eq!(sw(0b00101101), 0b11010010);
}

#[test]
fn fk_keeps_right_half() {
    for block in 0u16..256u16 {
        let b: u8 = block as u8;
        let r: u8 = fk(b, 0b10100100);
        assert_eq!(r & 0x0F, b & 0x0F);
        assert_eq!(fk(r, 0b10100100), b);
    }
}

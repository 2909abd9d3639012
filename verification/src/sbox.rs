//! The two substitution boxes of S-DES.
//!
//! Each box is a fixed 4x4 table of 2-bit values.  A 4-bit input selects a
//! row from its two outer bits (bit 3 high, bit 0 low) and a column from its
//! two inner bits (bit 2 high, bit 1 low); this non-contiguous grouping is a
//! defining property of the cipher.

use vstd::prelude::*;

verus! {

/// Selects one of the two substitution boxes.
#[derive(Clone, Copy)]
pub enum SBox {
    S0,
    S1,
}

/// The row index of a 4-bit input: bit 3 concatenated with bit 0.
pub open spec fn sbox_row_spec(nibble: u8) -> u8 {
    ((nibble >> 2u8) & 2) | (nibble & 1)
}

/// The column index of a 4-bit input: bit 2 concatenated with bit 1.
pub open spec fn sbox_col_spec(nibble: u8) -> u8 {
    (nibble >> 1u8) & 3
}

/// The S0 table.
pub open spec fn s0_spec(row: u8, col: u8) -> u8 {
    if row == 0 {
        if col == 0 { 1 } else if col == 1 { 0 } else if col == 2 { 3 } else { 2 }
    } else if row == 1 {
        if col == 0 { 3 } else if col == 1 { 2 } else if col == 2 { 1 } else { 0 }
    } else if row == 2 {
        if col == 0 { 0 } else if col == 1 { 2 } else if col == 2 { 1 } else { 3 }
    } else {
        if col == 0 { 3 } else if col == 1 { 1 } else if col == 2 { 3 } else { 2 }
    }
}

/// The S1 table.
pub open spec fn s1_spec(row: u8, col: u8) -> u8 {
    if row == 0 {
        if col == 0 { 0 } else if col == 1 { 1 } else if col == 2 { 2 } else { 3 }
    } else if row == 1 {
        if col == 0 { 2 } else if col == 1 { 0 } else if col == 2 { 1 } else { 3 }
    } else if row == 2 {
        if col == 0 { 3 } else if col == 1 { 0 } else if col == 2 { 1 } else { 0 }
    } else {
        if col == 0 { 2 } else if col == 1 { 1 } else if col == 2 { 0 } else { 3 }
    }
}

/// The value a box assigns to a 4-bit input, through the row/column
/// construction.
pub open spec fn sbox_value_spec(sbox: SBox, nibble: u8) -> u8 {
    match sbox {
        SBox::S0 => s0_spec(sbox_row_spec(nibble), sbox_col_spec(nibble)),
        SBox::S1 => s1_spec(sbox_row_spec(nibble), sbox_col_spec(nibble)),
    }
}

/// Looks a 4-bit value up in the chosen substitution box: the row comes
/// from bits 3 and 0, the column from bits 2 and 1.
pub fn s_box_lookup(nibble: u8, sbox: SBox) -> (r: u8)
    requires
        nibble < 16,
    ensures
        r == sbox_value_spec(sbox, nibble),
        r < 4,
{
    let row: u8 = ((nibble >> 2u8) & 2) | (nibble & 1);
    let col: u8 = (nibble >> 1u8) & 3;
    match sbox {
        SBox::S0 => {
            if row == 0 {
                if col == 0 { 1 } else if col == 1 { 0 } else if col == 2 { 3 } else { 2 }
            } else if row == 1 {
                if col == 0 { 3 } else if col == 1 { 2 } else if col == 2 { 1 } else { 0 }
            } else if row == 2 {
                if col == 0 { 0 } else if col == 1 { 2 } else if col == 2 { 1 } else { 3 }
            } else {
                if col == 0 { 3 } else if col == 1 { 1 } else if col == 2 { 3 } else { 2 }
            }
        },
        SBox::S1 => {
            if row == 0 {
                if col == 0 { 0 } else if col == 1 { 1 } else if col == 2 { 2 } else { 3 }
            } else if row == 1 {
                if col == 0 { 2 } else if col == 1 { 0 } else if col == 2 { 1 } else { 3 }
            } else if row == 2 {
                if col == 0 { 3 } else if col == 1 { 0 } else if col == 2 { 1 } else { 0 }
            } else {
                if col == 0 { 2 } else if col == 1 { 1 } else if col == 2 { 0 } else { 3 }
            }
        },
    }
}

} // verus!

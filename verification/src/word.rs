//! The machine word: its width, and reduction of native integers to that width.

use vstd::prelude::*;

verus! {

/// The widths a machine word can have.
pub open spec fn supported_word_size(w: usize) -> bool {
    w == 32 || w == 64
}

/// Two to the power of the word width: the number of values a word can hold.
pub open spec fn word_modulus(w: usize) -> int {
    if w == 32 {
        0x1_0000_0000
    } else {
        0x1_0000_0000_0000_0000
    }
}

/// The largest value of a word: every bit set.
pub open spec fn all_ones(w: usize) -> int {
    word_modulus(w) - 1
}

/// Whether `v` is a value of a word of width `w`.
pub open spec fn fits_word(w: usize, v: int) -> bool {
    0 <= v < word_modulus(w)
}

/// The word with every bit set.
pub fn word_max<const WORD_SIZE: usize>() -> (m: u64)
    requires
        supported_word_size(WORD_SIZE),
    ensures
        m == all_ones(WORD_SIZE),
{
    if WORD_SIZE == 32 {
        0xffff_ffffu64
    } else {
        u64::MAX
    }
}

/// Reduces a native integer to the word width.
pub fn truncate<const WORD_SIZE: usize>(v: u64) -> (r: u64)
    requires
        supported_word_size(WORD_SIZE),
    ensures
        r == v as int % word_modulus(WORD_SIZE),
        fits_word(WORD_SIZE, r as int),
{
    if WORD_SIZE == 32 {
        v % 0x1_0000_0000u64
    } else {
        v
    }
}

/// Whether a native integer is a value of the machine word.
pub fn is_word<const WORD_SIZE: usize>(v: u64) -> (b: bool)
    requires
        supported_word_size(WORD_SIZE),
    ensures
        b == fits_word(WORD_SIZE, v as int),
{
    WORD_SIZE != 32 || v <= 0xffff_ffffu64
}

} // verus!

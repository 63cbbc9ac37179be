//! The primitive instructions: for each primitive opcode, the value its lookup
//! table holds for a pair of operands.
//!
//! Arithmetic primitives compute modulo two to the word width. Assertion
//! primitives return one where their predicate holds and zero where it does
//! not.

use vstd::prelude::*;
use crate::trace::{RVTraceRow, RV32IM};
use crate::word::{all_ones, supported_word_size, truncate, word_max, word_modulus};

verus! {

/// `v` reduced to a word of width `w`.
pub open spec fn reduce(w: usize, v: int) -> u64 {
    (v % word_modulus(w)) as u64
}

/// A predicate as a table entry: one for true, zero for false.
pub open spec fn truth(holds: bool) -> u64 {
    if holds {
        1
    } else {
        0
    }
}

/// Entry of the advice table: the advised value as a word.
pub open spec fn spec_advice(w: usize, value: u64) -> u64 {
    reduce(w, value as int)
}

/// Entry of the addition table: the sum, wrapped to the word width.
pub open spec fn spec_add(w: usize, a: u64, b: u64) -> u64 {
    reduce(w, a + b)
}

/// Entry of the unsigned multiplication table: the low word of the product.
pub open spec fn spec_mulu(w: usize, a: u64, b: u64) -> u64 {
    reduce(w, a * b)
}

/// Entry of the less-than-or-equal assertion.
pub open spec fn spec_assert_lte(a: u64, b: u64) -> u64 {
    truth(a <= b)
}

/// Entry of the equality assertion.
pub open spec fn spec_assert_eq(a: u64, b: u64) -> u64 {
    truth(a == b)
}

/// Entry of the assertion that `remainder` is a valid remainder of an unsigned
/// division by `divisor`: it is smaller than the divisor, or the divisor is
/// zero.
pub open spec fn spec_assert_valid_unsigned_remainder(remainder: u64, divisor: u64) -> u64 {
    truth(divisor == 0 || remainder < divisor)
}

/// Entry of the assertion on the quotient of a division by zero: where the
/// divisor is zero the quotient has every bit set. A division by anything
/// else passes.
pub open spec fn spec_assert_valid_div0(w: usize, divisor: u64, quotient: u64) -> u64 {
    truth(divisor == 0 ==> quotient == all_ones(w))
}

/// Two to the word width, as a native integer wide enough to hold it.
fn wide_modulus<const WORD_SIZE: usize>() -> (m: u128)
    requires
        supported_word_size(WORD_SIZE),
    ensures
        m == word_modulus(WORD_SIZE),
{
    if WORD_SIZE == 32 {
        0x1_0000_0000u128
    } else {
        0x1_0000_0000_0000_0000u128
    }
}

/// Looks up the advice table.
pub fn advice_entry<const WORD_SIZE: usize>(value: u64) -> (entry: u64)
    requires
        supported_word_size(WORD_SIZE),
    ensures
        entry == spec_advice(WORD_SIZE, value),
{
    truncate::<WORD_SIZE>(value)
}

/// Looks up the addition table.
pub fn add_entry<const WORD_SIZE: usize>(a: u64, b: u64) -> (entry: u64)
    requires
        supported_word_size(WORD_SIZE),
    ensures
        entry == spec_add(WORD_SIZE, a, b),
{
    ((a as u128 + b as u128) % wide_modulus::<WORD_SIZE>()) as u64
}

/// Looks up the unsigned multiplication table.
pub fn mulu_entry<const WORD_SIZE: usize>(a: u64, b: u64) -> (entry: u64)
    requires
        supported_word_size(WORD_SIZE),
    ensures
        entry == spec_mulu(WORD_SIZE, a, b),
{
    assert(a * b <= 0xffff_ffff_ffff_ffff * 0xffff_ffff_ffff_ffff) by (nonlinear_arith)
        requires
            a <= 0xffff_ffff_ffff_ffff,
            b <= 0xffff_ffff_ffff_ffff,
    ;
    ((a as u128 * b as u128) % wide_modulus::<WORD_SIZE>()) as u64
}

/// Looks up the less-than-or-equal assertion.
pub fn assert_lte_entry(a: u64, b: u64) -> (entry: u64)
    ensures
        entry == spec_assert_lte(a, b),
{
    if a <= b {
        1
    } else {
        0
    }
}

/// Looks up the equality assertion.
pub fn assert_eq_entry(a: u64, b: u64) -> (entry: u64)
    ensures
        entry == spec_assert_eq(a, b),
{
    if a == b {
        1
    } else {
        0
    }
}

/// Looks up the assertion on the remainder of an unsigned division.
pub fn assert_valid_unsigned_remainder_entry(remainder: u64, divisor: u64) -> (entry: u64)
    ensures
        entry == spec_assert_valid_unsigned_remainder(remainder, divisor),
{
    if divisor == 0 || remainder < divisor {
        1
    } else {
        0
    }
}

/// Looks up the assertion on the quotient of a division by zero.
pub fn assert_valid_div0_entry<const WORD_SIZE: usize>(divisor: u64, quotient: u64) -> (entry: u64)
    requires
        supported_word_size(WORD_SIZE),
    ensures
        entry == spec_assert_valid_div0(WORD_SIZE, divisor, quotient),
{
    if divisor != 0 || quotient == word_max::<WORD_SIZE>() {
        1
    } else {
        0
    }
}

/// Whether `opcode` is an assertion: a primitive whose table entry is the
/// truth of a predicate and which writes no register.
pub open spec fn is_assertion(opcode: RV32IM) -> bool {
    opcode == RV32IM::VIRTUAL_ASSERT_LTE || opcode == RV32IM::VIRTUAL_ASSERT_EQ || opcode
        == RV32IM::VIRTUAL_ASSERT_VALID_UNSIGNED_REMAINDER || opcode
        == RV32IM::VIRTUAL_ASSERT_VALID_DIV0
}

/// Whether `opcode` is one of the primitives a virtual sequence is made of.
pub open spec fn is_primitive(opcode: RV32IM) -> bool {
    opcode == RV32IM::VIRTUAL_ADVICE || opcode == RV32IM::ADD || opcode == RV32IM::MULU
        || is_assertion(opcode)
}

/// The table entry that belongs to a row: the entry of the row's opcode for
/// the operand values the row records. There is none where the opcode is not
/// a primitive, or where the row lacks a value the primitive reads.
pub open spec fn spec_lookup_entry(w: usize, row: RVTraceRow) -> Option<u64> {
    if row.instruction.opcode == RV32IM::VIRTUAL_ADVICE {
        match row.advice_value {
            Some(value) => Some(spec_advice(w, value)),
            None => None,
        }
    } else {
        match (row.register_state.rs1_val, row.register_state.rs2_val) {
            (Some(a), Some(b)) => match row.instruction.opcode {
                RV32IM::ADD => Some(spec_add(w, a, b)),
                RV32IM::MULU => Some(spec_mulu(w, a, b)),
                RV32IM::VIRTUAL_ASSERT_LTE => Some(spec_assert_lte(a, b)),
                RV32IM::VIRTUAL_ASSERT_EQ => Some(spec_assert_eq(a, b)),
                RV32IM::VIRTUAL_ASSERT_VALID_UNSIGNED_REMAINDER => Some(
                    spec_assert_valid_unsigned_remainder(a, b),
                ),
                RV32IM::VIRTUAL_ASSERT_VALID_DIV0 => Some(spec_assert_valid_div0(w, a, b)),
                _ => None,
            },
            _ => None,
        }
    }
}

/// Looks up the table entry that belongs to a row.
pub fn lookup_entry<const WORD_SIZE: usize>(row: &RVTraceRow) -> (entry: Option<u64>)
    requires
        supported_word_size(WORD_SIZE),
    ensures
        entry == spec_lookup_entry(WORD_SIZE, *row),
{
    if row.instruction.opcode == RV32IM::VIRTUAL_ADVICE {
        match row.advice_value {
            Some(value) => Some(advice_entry::<WORD_SIZE>(value)),
            None => None,
        }
    } else {
        match (row.register_state.rs1_val, row.register_state.rs2_val) {
            (Some(a), Some(b)) => match row.instruction.opcode {
                RV32IM::ADD => Some(add_entry::<WORD_SIZE>(a, b)),
                RV32IM::MULU => Some(mulu_entry::<WORD_SIZE>(a, b)),
                RV32IM::VIRTUAL_ASSERT_LTE => Some(assert_lte_entry(a, b)),
                RV32IM::VIRTUAL_ASSERT_EQ => Some(assert_eq_entry(a, b)),
                RV32IM::VIRTUAL_ASSERT_VALID_UNSIGNED_REMAINDER => Some(
                    assert_valid_unsigned_remainder_entry(a, b),
                ),
                RV32IM::VIRTUAL_ASSERT_VALID_DIV0 => Some(assert_valid_div0_entry::<WORD_SIZE>(a, b)),
                _ => None,
            },
            _ => None,
        }
    }
}

} // verus!

//! The unsigned division gadget: one virtual sequence that checks
//! `x = y * q + r` with `r < y`, shared by the instruction that exposes the
//! quotient and the one that exposes the remainder.
//!
//! Quotient and remainder are advice: they are computed here, outside the
//! proof, and the assertion rows that follow are what binds them. A division
//! by zero has the quotient with every bit set and the dividend as remainder.

use vstd::prelude::*;
use vstd::arithmetic::div_mod::{lemma_fundamental_div_mod, lemma_small_mod};
use crate::lookup::{spec_add, spec_advice, spec_mulu};
use crate::registers::{spec_virtual_register_index, virtual_register_index};
use crate::sequence::{add_row, advice_row, assertion_row, mulu_row, VirtualSequence};
use crate::trace::{RVTraceRow, RV32IM};
use crate::word::{all_ones, fits_word, is_word, supported_word_size, word_max, word_modulus};

verus! {

/// Why a row cannot be expanded.
#[derive(Clone, Copy, Debug, PartialEq, Eq, Structural)]
pub enum ExpansionError {
    /// The row's opcode is not the one that the expander is for.
    WrongOpcode,
    /// The row lacks the value of a source operand.
    MissingOperand,
    /// A source operand is not a value of the machine word.
    OperandOutOfRange,
}

/// Which result of the division the instruction writes to its destination
/// register. The other result goes to a virtual register.
#[derive(Clone, Copy, Debug, PartialEq, Eq, Structural)]
pub enum Exposed {
    Quotient,
    Remainder,
}

/// Slot of the virtual register that holds `q * y + r`.
pub const SUM_SLOT: u64 = 0;

/// Slot of the virtual register that holds the result that is not exposed.
pub const HIDDEN_SLOT: u64 = 1;

/// Slot of the virtual register that holds `q * y`.
pub const PRODUCT_SLOT: u64 = 2;

/// The opcode of the instruction that exposes `exposed`.
pub open spec fn opcode_of(exposed: Exposed) -> RV32IM {
    match exposed {
        Exposed::Quotient => RV32IM::DIVU,
        Exposed::Remainder => RV32IM::REMU,
    }
}

/// The quotient of `x` by `y` in a word of width `w`.
pub open spec fn spec_quotient(w: usize, x: u64, y: u64) -> u64 {
    if y == 0 {
        all_ones(w) as u64
    } else {
        x / y
    }
}

/// The remainder of `x` by `y`.
pub open spec fn spec_remainder(x: u64, y: u64) -> u64 {
    if y == 0 {
        x
    } else {
        x % y
    }
}

/// The dividend that a row records: the value of its first source.
pub open spec fn dividend(row: RVTraceRow) -> u64 {
    row.register_state.rs1_val.unwrap()
}

/// The divisor that a row records: the value of its second source.
pub open spec fn divisor(row: RVTraceRow) -> u64 {
    row.register_state.rs2_val.unwrap()
}

/// Whether `row` records both operands of a division and both are words of
/// width `w`.
pub open spec fn has_word_operands(w: usize, row: RVTraceRow) -> bool {
    &&& row.register_state.rs1_val is Some
    &&& row.register_state.rs2_val is Some
    &&& fits_word(w, dividend(row) as int)
    &&& fits_word(w, divisor(row) as int)
}

/// Why the expander for `expected` rejects `row`, or `None` where it expands
/// it. The opcode is looked at first, then the presence of the operands, then
/// their range.
pub open spec fn rejection(w: usize, expected: RV32IM, row: RVTraceRow) -> Option<ExpansionError> {
    if row.instruction.opcode != expected {
        Some(ExpansionError::WrongOpcode)
    } else if row.register_state.rs1_val is None || row.register_state.rs2_val is None {
        Some(ExpansionError::MissingOperand)
    } else if !fits_word(w, dividend(row) as int) || !fits_word(w, divisor(row) as int) {
        Some(ExpansionError::OperandOutOfRange)
    } else {
        None
    }
}

/// The register that receives the quotient.
pub open spec fn quotient_register(exposed: Exposed, row: RVTraceRow) -> Option<u64> {
    match exposed {
        Exposed::Quotient => row.instruction.rd,
        Exposed::Remainder => Some(spec_virtual_register_index(HIDDEN_SLOT)),
    }
}

/// The register that receives the remainder.
pub open spec fn remainder_register(exposed: Exposed, row: RVTraceRow) -> Option<u64> {
    match exposed {
        Exposed::Quotient => Some(spec_virtual_register_index(HIDDEN_SLOT)),
        Exposed::Remainder => row.instruction.rd,
    }
}

/// The rows that the two instructions share: both results as advice, their
/// product with the divisor, and the two assertions that bound remainder and
/// product.
pub open spec fn common_rows(w: usize, exposed: Exposed, row: RVTraceRow) -> Seq<RVTraceRow> {
    let address = row.instruction.address;
    let x = dividend(row);
    let y = divisor(row);
    let r_x = row.instruction.rs1;
    let r_y = row.instruction.rs2;
    let r_q = quotient_register(exposed, row);
    let r_r = remainder_register(exposed, row);
    let v_qy = Some(spec_virtual_register_index(PRODUCT_SLOT));
    let quotient = spec_quotient(w, x, y);
    let remainder = spec_remainder(x, y);
    let q = spec_advice(w, quotient);
    let r = spec_advice(w, remainder);
    let q_y = spec_mulu(w, q, y);
    seq![
        advice_row(w, address, 0, r_q, quotient),
        advice_row(w, address, 1, r_r, remainder),
        mulu_row(w, address, 2, r_q, r_y, v_qy, q, y),
        assertion_row(address, 3, RV32IM::VIRTUAL_ASSERT_VALID_UNSIGNED_REMAINDER, r_r, r_y, r, y),
        assertion_row(address, 4, RV32IM::VIRTUAL_ASSERT_LTE, v_qy, r_x, q_y, x),
    ]
}

/// The rows that close the sequence, the first of them at position `index`:
/// the sum of product and remainder, and the assertion that it is the
/// dividend.
pub open spec fn closing_rows(w: usize, exposed: Exposed, row: RVTraceRow, index: usize) -> Seq<
    RVTraceRow,
> {
    let address = row.instruction.address;
    let x = dividend(row);
    let y = divisor(row);
    let r_x = row.instruction.rs1;
    let r_r = remainder_register(exposed, row);
    let v_0 = Some(spec_virtual_register_index(SUM_SLOT));
    let v_qy = Some(spec_virtual_register_index(PRODUCT_SLOT));
    let q = spec_advice(w, spec_quotient(w, x, y));
    let r = spec_advice(w, spec_remainder(x, y));
    let q_y = spec_mulu(w, q, y);
    let sum = spec_add(w, q_y, r);
    seq![
        add_row(w, address, index, v_qy, r_r, v_0, q_y, r),
        assertion_row(
            address,
            (index + 1) as usize,
            RV32IM::VIRTUAL_ASSERT_EQ,
            v_0,
            r_x,
            sum,
            x,
        ),
    ]
}

/// The row that asserts the quotient of a division by zero. Only the
/// instruction that exposes the quotient has it.
pub open spec fn div0_row(w: usize, exposed: Exposed, row: RVTraceRow, index: usize) -> RVTraceRow {
    let x = dividend(row);
    let y = divisor(row);
    assertion_row(
        row.instruction.address,
        index,
        RV32IM::VIRTUAL_ASSERT_VALID_DIV0,
        row.instruction.rs2,
        quotient_register(exposed, row),
        y,
        spec_advice(w, spec_quotient(w, x, y)),
    )
}

/// The virtual sequence of a division row.
pub open spec fn division_rows(w: usize, exposed: Exposed, row: RVTraceRow) -> Seq<RVTraceRow> {
    match exposed {
        Exposed::Quotient => common_rows(w, exposed, row) + seq![div0_row(w, exposed, row, 5)]
            + closing_rows(w, exposed, row, 6),
        Exposed::Remainder => common_rows(w, exposed, row) + closing_rows(w, exposed, row, 5),
    }
}

/// Number of rows in the sequence of the instruction that exposes `exposed`.
pub open spec fn sequence_length(exposed: Exposed) -> nat {
    match exposed {
        Exposed::Quotient => 8,
        Exposed::Remainder => 7,
    }
}

/// Quotient and remainder of words are words, their product with the divisor
/// does not exceed the dividend, and product and remainder add up to the
/// dividend without wrapping.
pub proof fn lemma_division_advice(w: usize, x: u64, y: u64)
    requires
        supported_word_size(w),
        fits_word(w, x as int),
        fits_word(w, y as int),
    ensures
        fits_word(w, spec_quotient(w, x, y) as int),
        fits_word(w, spec_remainder(x, y) as int),
        spec_quotient(w, x, y) * y + spec_remainder(x, y) == x,
        spec_quotient(w, x, y) * y <= x,
        y != 0 ==> spec_remainder(x, y) < y,
{
    let q = spec_quotient(w, x, y);
    let r = spec_remainder(x, y);
    if y == 0 {
        assert(q * y == 0) by (nonlinear_arith)
            requires
                y == 0,
        ;
    } else {
        lemma_fundamental_div_mod(x as int, y as int);
        assert(0 <= (x as int) / (y as int) <= x) by (nonlinear_arith)
            requires
                0 <= x,
                0 < y,
        ;
        assert(y * q == q * y) by (nonlinear_arith);
    }
}

/// The table entries of the gadget on words: advice passes the two results
/// through, the product is `q * y`, and the sum is the dividend.
pub proof fn lemma_division_entries(w: usize, x: u64, y: u64)
    requires
        supported_word_size(w),
        fits_word(w, x as int),
        fits_word(w, y as int),
    ensures
        spec_advice(w, spec_quotient(w, x, y)) == spec_quotient(w, x, y),
        spec_advice(w, spec_remainder(x, y)) == spec_remainder(x, y),
        spec_mulu(w, spec_quotient(w, x, y), y) == spec_quotient(w, x, y) * y,
        spec_add(w, spec_mulu(w, spec_quotient(w, x, y), y), spec_remainder(x, y)) == x,
{
    let q = spec_quotient(w, x, y);
    let r = spec_remainder(x, y);
    let m = word_modulus(w);
    lemma_division_advice(w, x, y);
    assert(0 <= q * y) by (nonlinear_arith)
        requires
            0 <= q,
            0 <= y,
    ;
    lemma_small_mod(q as nat, m as nat);
    lemma_small_mod(r as nat, m as nat);
    lemma_small_mod((q * y) as nat, m as nat);
    lemma_small_mod(x as nat, m as nat);
}

/// The opcode of the instruction that exposes `exposed`.
pub fn expected_opcode(exposed: Exposed) -> (opcode: RV32IM)
    ensures
        opcode == opcode_of(exposed),
{
    match exposed {
        Exposed::Quotient => RV32IM::DIVU,
        Exposed::Remainder => RV32IM::REMU,
    }
}

/// Checks that `row` can be expanded by the expander for `expected`, and
/// returns dividend and divisor.
pub fn operands<const WORD_SIZE: usize>(row: &RVTraceRow, expected: RV32IM) -> (result: Result<
    (u64, u64),
    ExpansionError,
>)
    requires
        supported_word_size(WORD_SIZE),
    ensures
        match result {
            Ok((x, y)) => rejection(WORD_SIZE, expected, *row) is None && has_word_operands(
                WORD_SIZE,
                *row,
            ) && x == dividend(*row) && y == divisor(*row),
            Err(error) => rejection(WORD_SIZE, expected, *row) == Some(error),
        },
{
    if row.instruction.opcode != expected {
        return Err(ExpansionError::WrongOpcode);
    }
    match (row.register_state.rs1_val, row.register_state.rs2_val) {
        (Some(x), Some(y)) => {
            if is_word::<WORD_SIZE>(x) && is_word::<WORD_SIZE>(y) {
                Ok((x, y))
            } else {
                Err(ExpansionError::OperandOutOfRange)
            }
        },
        _ => Err(ExpansionError::MissingOperand),
    }
}

/// Computes the advice of the gadget: quotient and remainder of `x` by `y`.
pub fn divide<const WORD_SIZE: usize>(x: u64, y: u64) -> (advice: (u64, u64))
    requires
        supported_word_size(WORD_SIZE),
        fits_word(WORD_SIZE, x as int),
        fits_word(WORD_SIZE, y as int),
    ensures
        advice.0 == spec_quotient(WORD_SIZE, x, y),
        advice.1 == spec_remainder(x, y),
{
    let quotient: u64 = if y == 0 {
        word_max::<WORD_SIZE>()
    } else {
        x / y
    };
    proof {
        lemma_division_advice(WORD_SIZE, x, y);
    }
    let remainder: u64 = x - quotient * y;
    (quotient, remainder)
}

/// Expands a division row whose operands are words into its virtual
/// sequence. The opcode of the row is not looked at.
pub fn expand<const WORD_SIZE: usize>(row: &RVTraceRow, exposed: Exposed) -> (rows: Vec<RVTraceRow>)
    requires
        supported_word_size(WORD_SIZE),
        has_word_operands(WORD_SIZE, *row),
    ensures
        rows@ == division_rows(WORD_SIZE, exposed, *row),
{
    let x: u64 = row.register_state.rs1_val.unwrap();
    let y: u64 = row.register_state.rs2_val.unwrap();
    let r_x = row.instruction.rs1;
    let r_y = row.instruction.rs2;
    let v_0 = Some(virtual_register_index(SUM_SLOT));
    let v_hidden = Some(virtual_register_index(HIDDEN_SLOT));
    let v_qy = Some(virtual_register_index(PRODUCT_SLOT));
    let (r_q, r_r) = match exposed {
        Exposed::Quotient => (row.instruction.rd, v_hidden),
        Exposed::Remainder => (v_hidden, row.instruction.rd),
    };
    let (quotient, remainder) = divide::<WORD_SIZE>(x, y);
    proof {
        lemma_division_advice(WORD_SIZE, x, y);
        lemma_division_entries(WORD_SIZE, x, y);
    }
    let mut sequence = VirtualSequence::new(row.instruction.address);
    let q: u64 = sequence.push_advice::<WORD_SIZE>(r_q, quotient);
    let r: u64 = sequence.push_advice::<WORD_SIZE>(r_r, remainder);
    let q_y: u64 = sequence.push_mulu::<WORD_SIZE>(r_q, r_y, v_qy, q, y);
    sequence.push_assertion::<WORD_SIZE>(
        RV32IM::VIRTUAL_ASSERT_VALID_UNSIGNED_REMAINDER,
        r_r,
        r_y,
        r,
        y,
    );
    sequence.push_assertion::<WORD_SIZE>(RV32IM::VIRTUAL_ASSERT_LTE, v_qy, r_x, q_y, x);
    assert(sequence@ =~= common_rows(WORD_SIZE, exposed, *row));
    match exposed {
        Exposed::Quotient => {
            sequence.push_assertion::<WORD_SIZE>(RV32IM::VIRTUAL_ASSERT_VALID_DIV0, r_y, r_q, y, q);
        },
        Exposed::Remainder => {},
    }
    let sum: u64 = sequence.push_add::<WORD_SIZE>(v_qy, r_r, v_0, q_y, r);
    sequence.push_assertion::<WORD_SIZE>(RV32IM::VIRTUAL_ASSERT_EQ, v_0, r_x, sum, x);
    assert(sequence@ =~= division_rows(WORD_SIZE, exposed, *row));
    sequence.into_rows()
}

/// Expands one executed division into the virtual sequence of the
/// instruction that exposes `exposed`, or says why the row is rejected.
pub fn virtual_sequence<const WORD_SIZE: usize>(row: &RVTraceRow, exposed: Exposed) -> (result:
    Result<Vec<RVTraceRow>, ExpansionError>)
    requires
        supported_word_size(WORD_SIZE),
    ensures
        match result {
            Ok(rows) => rejection(WORD_SIZE, opcode_of(exposed), *row) is None && rows@
                == division_rows(WORD_SIZE, exposed, *row),
            Err(error) => rejection(WORD_SIZE, opcode_of(exposed), *row) == Some(error),
        },
{
    match operands::<WORD_SIZE>(row, expected_opcode(exposed)) {
        Ok(_) => Ok(expand::<WORD_SIZE>(row, exposed)),
        Err(error) => Err(error),
    }
}

} // verus!

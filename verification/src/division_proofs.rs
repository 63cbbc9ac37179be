//! What holds of every virtual sequence of the division gadget.

use vstd::prelude::*;
use crate::division::{
    dividend, division_rows, divisor, has_word_operands, lemma_division_advice,
    lemma_division_entries, rejection, sequence_length, spec_quotient, spec_remainder, Exposed,
    HIDDEN_SLOT, PRODUCT_SLOT, SUM_SLOT,
};
use crate::lookup::is_primitive;
use crate::registers::{is_architectural, spec_virtual_register_index};
use crate::sequence::{assertions_hold, results_match_tables, same_origin, well_indexed};
use crate::trace::{RVTraceRow, RV32IM};
use crate::word::{all_ones, supported_word_size};

verus! {

/// A row is expanded where its opcode is the expected one and it records both
/// operands as words, and only there.
pub proof fn lemma_accepted_rows(w: usize, expected: RV32IM, row: RVTraceRow)
    ensures
        rejection(w, expected, row) is None <==> row.instruction.opcode == expected
            && has_word_operands(w, row),
{
}

/// The opcodes of the sequence of the instruction that exposes `exposed`, in
/// order.
pub open spec fn division_opcodes(exposed: Exposed) -> Seq<RV32IM> {
    match exposed {
        Exposed::Quotient => seq![
            RV32IM::VIRTUAL_ADVICE,
            RV32IM::VIRTUAL_ADVICE,
            RV32IM::MULU,
            RV32IM::VIRTUAL_ASSERT_VALID_UNSIGNED_REMAINDER,
            RV32IM::VIRTUAL_ASSERT_LTE,
            RV32IM::VIRTUAL_ASSERT_VALID_DIV0,
            RV32IM::ADD,
            RV32IM::VIRTUAL_ASSERT_EQ,
        ],
        Exposed::Remainder => seq![
            RV32IM::VIRTUAL_ADVICE,
            RV32IM::VIRTUAL_ADVICE,
            RV32IM::MULU,
            RV32IM::VIRTUAL_ASSERT_VALID_UNSIGNED_REMAINDER,
            RV32IM::VIRTUAL_ASSERT_LTE,
            RV32IM::ADD,
            RV32IM::VIRTUAL_ASSERT_EQ,
        ],
    }
}

/// For a divisor other than zero, the first row advises the quotient of the
/// integer division, and the product written by the third row and the
/// remainder written by the second add up to the dividend exactly, with no
/// wrapping.
pub proof fn lemma_quotient_and_reconstruction(w: usize, exposed: Exposed, row: RVTraceRow)
    requires
        supported_word_size(w),
        has_word_operands(w, row),
        divisor(row) != 0,
    ensures
        division_rows(w, exposed, row)[0].advice_value == Some(
            (dividend(row) as int / divisor(row) as int) as u64,
        ),
        division_rows(w, exposed, row)[0].advice_value.unwrap() == dividend(row) as int / divisor(
            row,
        ) as int,
        division_rows(w, exposed, row)[0].register_state.rd_post_val == division_rows(
            w,
            exposed,
            row,
        )[0].advice_value,
        division_rows(w, exposed, row)[2].register_state.rd_post_val.unwrap() + division_rows(
            w,
            exposed,
            row,
        )[1].register_state.rd_post_val.unwrap() == dividend(row),
        division_rows(w, exposed, row)[2].register_state.rd_post_val.unwrap() == division_rows(
            w,
            exposed,
            row,
        )[0].advice_value.unwrap() * divisor(row),
{
    lemma_division_advice(w, dividend(row), divisor(row));
    lemma_division_entries(w, dividend(row), divisor(row));
}

/// For a divisor other than zero, the advised remainder is smaller than the
/// divisor.
pub proof fn lemma_remainder_below_divisor(w: usize, exposed: Exposed, row: RVTraceRow)
    requires
        supported_word_size(w),
        has_word_operands(w, row),
        divisor(row) != 0,
    ensures
        division_rows(w, exposed, row)[1].advice_value is Some,
        division_rows(w, exposed, row)[1].advice_value.unwrap() < divisor(row),
        division_rows(w, exposed, row)[1].register_state.rd_post_val == division_rows(
            w,
            exposed,
            row,
        )[1].advice_value,
{
    lemma_division_advice(w, dividend(row), divisor(row));
    lemma_division_entries(w, dividend(row), divisor(row));
}

/// For the divisor zero, the advised quotient has every bit of the word set
/// and the advised remainder is the dividend.
pub proof fn lemma_division_by_zero(w: usize, exposed: Exposed, row: RVTraceRow)
    requires
        supported_word_size(w),
        has_word_operands(w, row),
        divisor(row) == 0,
    ensures
        division_rows(w, exposed, row)[0].advice_value is Some,
        division_rows(w, exposed, row)[0].advice_value.unwrap() == all_ones(w),
        division_rows(w, exposed, row)[1].advice_value == Some(dividend(row)),
        division_rows(w, exposed, row)[0].register_state.rd_post_val == division_rows(
            w,
            exposed,
            row,
        )[0].advice_value,
        division_rows(w, exposed, row)[1].register_state.rd_post_val == division_rows(
            w,
            exposed,
            row,
        )[1].advice_value,
{
    lemma_division_advice(w, dividend(row), divisor(row));
    lemma_division_entries(w, dividend(row), divisor(row));
}

/// The two instructions advise the same quotient and the same remainder for
/// the same operands. What differs is where each goes: the exposed result to
/// the destination register of the instruction, the other to the hidden
/// virtual register. Every step that both sequences have records the same
/// values in both.
pub proof fn lemma_exposures_agree(w: usize, row: RVTraceRow)
    requires
        supported_word_size(w),
        has_word_operands(w, row),
    ensures
        ({
            let divu = division_rows(w, Exposed::Quotient, row);
            let remu = division_rows(w, Exposed::Remainder, row);
            let hidden = Some(spec_virtual_register_index(HIDDEN_SLOT));
            &&& divu[0].advice_value == Some(spec_quotient(w, dividend(row), divisor(row)))
            &&& remu[0].advice_value == divu[0].advice_value
            &&& divu[1].advice_value == Some(spec_remainder(dividend(row), divisor(row)))
            &&& remu[1].advice_value == divu[1].advice_value
            &&& divu[0].instruction.rd == row.instruction.rd
            &&& divu[1].instruction.rd == hidden
            &&& remu[0].instruction.rd == hidden
            &&& remu[1].instruction.rd == row.instruction.rd
            &&& forall|i: int|
                0 <= i < 5 ==> {
                    &&& (#[trigger] divu[i]).instruction.opcode == remu[i].instruction.opcode
                    &&& divu[i].register_state == remu[i].register_state
                    &&& divu[i].advice_value == remu[i].advice_value
                }
            &&& forall|i: int|
                5 <= i < 7 ==> {
                    &&& (#[trigger] remu[i]).instruction.opcode == divu[i + 1].instruction.opcode
                    &&& remu[i].register_state == divu[i + 1].register_state
                    &&& remu[i].advice_value == divu[i + 1].advice_value
                }
        }),
{
}

/// The shape of a sequence depends on the instruction alone: its length and
/// the opcode at each position are fixed, every row carries its position as
/// its index and the address of the instruction it was expanded from, and
/// every opcode is a primitive.
pub proof fn lemma_sequence_shape(w: usize, exposed: Exposed, row: RVTraceRow)
    ensures
        division_rows(w, exposed, row).len() == sequence_length(exposed),
        division_opcodes(exposed).len() == sequence_length(exposed),
        forall|i: int|
            0 <= i < sequence_length(exposed) ==> (#[trigger] division_rows(
                w,
                exposed,
                row,
            )[i]).instruction.opcode == division_opcodes(exposed)[i],
        forall|i: int|
            0 <= i < sequence_length(exposed) ==> is_primitive(
                #[trigger] division_opcodes(exposed)[i],
            ),
        well_indexed(division_rows(w, exposed, row)),
        same_origin(division_rows(w, exposed, row), row.instruction.address),
{
}

/// The sequence of the remainder instruction has seven rows, numbered from
/// zero to six.
pub proof fn lemma_remainder_sequence_has_seven_rows(w: usize, row: RVTraceRow)
    ensures
        division_rows(w, Exposed::Remainder, row).len() == 7,
        forall|i: int|
            0 <= i < 7 ==> (#[trigger] division_rows(
                w,
                Exposed::Remainder,
                row,
            )[i]).instruction.virtual_sequence_index == Some(i as usize),
{
}

/// Every assertion of a sequence holds of the values it is made of, and every
/// other row records the table entry of its opcode as the value it writes.
pub proof fn lemma_rows_match_tables(w: usize, exposed: Exposed, row: RVTraceRow)
    requires
        supported_word_size(w),
        has_word_operands(w, row),
    ensures
        assertions_hold(w, division_rows(w, exposed, row)),
        results_match_tables(w, division_rows(w, exposed, row)),
{
    lemma_division_advice(w, dividend(row), divisor(row));
    lemma_division_entries(w, dividend(row), divisor(row));
}

/// The three temporaries of a sequence are virtual registers, and no two of
/// them are the same register.
pub proof fn lemma_temporaries_are_distinct()
    ensures
        !is_architectural(spec_virtual_register_index(SUM_SLOT)),
        !is_architectural(spec_virtual_register_index(HIDDEN_SLOT)),
        !is_architectural(spec_virtual_register_index(PRODUCT_SLOT)),
        spec_virtual_register_index(SUM_SLOT) != spec_virtual_register_index(HIDDEN_SLOT),
        spec_virtual_register_index(SUM_SLOT) != spec_virtual_register_index(PRODUCT_SLOT),
        spec_virtual_register_index(HIDDEN_SLOT) != spec_virtual_register_index(PRODUCT_SLOT),
{
}

} // verus!

//! Replaying a virtual sequence on a register file.
//!
//! The rows of a sequence depend on each other through registers: a row may
//! read what an earlier row wrote. Replaying the rows in order on a register
//! file shows that each row finds in its source registers the values it
//! records, and what the sequence leaves behind.

use vstd::prelude::*;
use crate::division::{
    dividend, division_rows, divisor, has_word_operands, lemma_division_advice,
    lemma_division_entries, sequence_length, spec_quotient, spec_remainder, Exposed,
};
use crate::registers::is_architectural;
use crate::trace::RVTraceRow;
use crate::word::supported_word_size;

verus! {

/// Whether `register`, where the row names one, holds `value`, where the row
/// records one. A recorded value needs a register to come from.
pub open spec fn source_agrees(
    registers: Map<u64, u64>,
    register: Option<u64>,
    value: Option<u64>,
) -> bool {
    match value {
        Some(v) => match register {
            Some(r) => registers.dom().contains(r) && registers[r] == v,
            None => false,
        },
        None => true,
    }
}

/// Whether the source values that `row` records are those that `registers`
/// holds.
pub open spec fn reads_agree(registers: Map<u64, u64>, row: RVTraceRow) -> bool {
    &&& source_agrees(registers, row.instruction.rs1, row.register_state.rs1_val)
    &&& source_agrees(registers, row.instruction.rs2, row.register_state.rs2_val)
}

/// The register file after `row`: the destination, where the row has one,
/// holds the value that the row records for it.
pub open spec fn write_back(registers: Map<u64, u64>, row: RVTraceRow) -> Map<u64, u64> {
    match (row.instruction.rd, row.register_state.rd_post_val) {
        (Some(rd), Some(value)) => registers.insert(rd, value),
        _ => registers,
    }
}

/// The register file after the first `n` rows.
pub open spec fn replay(registers: Map<u64, u64>, rows: Seq<RVTraceRow>, n: nat) -> Map<u64, u64>
    decreases n,
{
    if n == 0 {
        registers
    } else {
        write_back(replay(registers, rows, (n - 1) as nat), rows[n - 1])
    }
}

/// Whether every row, replayed in order from `registers`, finds the source
/// values it records.
pub open spec fn wired(registers: Map<u64, u64>, rows: Seq<RVTraceRow>) -> bool {
    forall|n: nat| n < rows.len() ==> reads_agree(#[trigger] replay(registers, rows, n), rows[n as int])
}

/// The value that the instruction exposes.
pub open spec fn exposed_value(w: usize, exposed: Exposed, x: u64, y: u64) -> u64 {
    match exposed {
        Exposed::Quotient => spec_quotient(w, x, y),
        Exposed::Remainder => spec_remainder(x, y),
    }
}

/// Whether `registers` holds the operands of `row` in its source registers,
/// and the row names architectural registers with a destination that is
/// neither source.
pub open spec fn ready_for(registers: Map<u64, u64>, row: RVTraceRow) -> bool {
    &&& row.instruction.rs1 matches Some(r_x)
    &&& row.instruction.rs2 matches Some(r_y)
    &&& row.instruction.rd matches Some(rd)
    &&& is_architectural(r_x)
    &&& is_architectural(r_y)
    &&& is_architectural(rd)
    &&& rd != r_x
    &&& rd != r_y
    &&& source_agrees(registers, Some(r_x), row.register_state.rs1_val)
    &&& source_agrees(registers, Some(r_y), row.register_state.rs2_val)
}

/// Replayed on a register file that holds the operands, where the
/// destination is neither source register, every row of a sequence finds in
/// its source registers the values it records. Afterwards the destination
/// holds the exposed result, and every other architectural register is as it
/// was.
pub proof fn lemma_sequence_is_wired(
    w: usize,
    exposed: Exposed,
    row: RVTraceRow,
    registers: Map<u64, u64>,
)
    requires
        supported_word_size(w),
        has_word_operands(w, row),
        ready_for(registers, row),
    ensures
        wired(registers, division_rows(w, exposed, row)),
        ({
            let after = replay(
                registers,
                division_rows(w, exposed, row),
                sequence_length(exposed),
            );
            &&& after.dom().contains(row.instruction.rd.unwrap())
            &&& after[row.instruction.rd.unwrap()] == exposed_value(
                w,
                exposed,
                dividend(row),
                divisor(row),
            )
            &&& forall|r: u64|
                is_architectural(r) && r != row.instruction.rd.unwrap() && registers.dom().contains(
                    r,
                ) ==> after.dom().contains(r) && #[trigger] after[r] == registers[r]
        }),
{
    let rows = division_rows(w, exposed, row);
    lemma_division_advice(w, dividend(row), divisor(row));
    lemma_division_entries(w, dividend(row), divisor(row));
    reveal_with_fuel(replay, 9);
    assert forall|n: nat| n < rows.len() implies reads_agree(
        #[trigger] replay(registers, rows, n),
        rows[n as int],
    ) by {
        if n == 0 {
        } else if n == 1 {
        } else if n == 2 {
        } else if n == 3 {
        } else if n == 4 {
        } else if n == 5 {
        } else if n == 6 {
        } else {
            assert(n == 7);
        }
    }
}

} // verus!

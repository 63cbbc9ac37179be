//! Unsigned division that exposes the quotient.

use vstd::prelude::*;
use crate::division::{division_rows, rejection, virtual_sequence, ExpansionError, Exposed};
use crate::trace::{RVTraceRow, RV32IM};
use crate::word::supported_word_size;

verus! {

/// Perform unsigned division and return the quotient.
pub struct DIVUInstruction<const WORD_SIZE: usize>;

impl<const WORD_SIZE: usize> DIVUInstruction<WORD_SIZE> {
    /// Expands one executed `DIVU` into its virtual sequence.
    ///
    /// The quotient is advised into the destination register of the
    /// instruction and the remainder into a virtual register. A row with
    /// another opcode, without both operand values, or with an operand wider
    /// than the word is rejected, and nothing is produced for it.
    pub fn virtual_sequence(trace_row: RVTraceRow) -> (result: Result<
        Vec<RVTraceRow>,
        ExpansionError,
    >)
        requires
            supported_word_size(WORD_SIZE),
        ensures
            match result {
                Ok(rows) => rejection(WORD_SIZE, RV32IM::DIVU, trace_row) is None && rows@
                    == division_rows(WORD_SIZE, Exposed::Quotient, trace_row),
                Err(error) => rejection(WORD_SIZE, RV32IM::DIVU, trace_row) == Some(error),
            },
    {
        virtual_sequence::<WORD_SIZE>(&trace_row, Exposed::Quotient)
    }
}

} // verus!

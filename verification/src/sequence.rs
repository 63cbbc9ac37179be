//! Building a virtual sequence: the rows of each primitive, and the list that
//! numbers them as they are appended.

use vstd::prelude::*;
use crate::lookup::{
    add_entry, advice_entry, is_assertion, mulu_entry, spec_add, spec_advice, spec_lookup_entry,
    spec_mulu,
};
use crate::trace::{virtual_row, ELFInstruction, RVTraceRow, RegisterState, RV32IM};
use crate::word::supported_word_size;

verus! {

/// The row that writes the advised `value` to `rd`. It reads no register.
pub open spec fn advice_row(
    w: usize,
    address: u64,
    index: usize,
    rd: Option<u64>,
    value: u64,
) -> RVTraceRow {
    virtual_row(
        address,
        index,
        RV32IM::VIRTUAL_ADVICE,
        None,
        None,
        rd,
        None,
        None,
        Some(spec_advice(w, value)),
        Some(value),
    )
}

/// The row that adds the values `a` of `rs1` and `b` of `rs2` into `rd`.
pub open spec fn add_row(
    w: usize,
    address: u64,
    index: usize,
    rs1: Option<u64>,
    rs2: Option<u64>,
    rd: Option<u64>,
    a: u64,
    b: u64,
) -> RVTraceRow {
    virtual_row(
        address,
        index,
        RV32IM::ADD,
        rs1,
        rs2,
        rd,
        Some(a),
        Some(b),
        Some(spec_add(w, a, b)),
        None,
    )
}

/// The row that multiplies the values `a` of `rs1` and `b` of `rs2` into `rd`.
pub open spec fn mulu_row(
    w: usize,
    address: u64,
    index: usize,
    rs1: Option<u64>,
    rs2: Option<u64>,
    rd: Option<u64>,
    a: u64,
    b: u64,
) -> RVTraceRow {
    virtual_row(
        address,
        index,
        RV32IM::MULU,
        rs1,
        rs2,
        rd,
        Some(a),
        Some(b),
        Some(spec_mulu(w, a, b)),
        None,
    )
}

/// The row that asserts the predicate of `opcode` of the values `a` of `rs1`
/// and `b` of `rs2`. It writes no register.
pub open spec fn assertion_row(
    address: u64,
    index: usize,
    opcode: RV32IM,
    rs1: Option<u64>,
    rs2: Option<u64>,
    a: u64,
    b: u64,
) -> RVTraceRow {
    virtual_row(address, index, opcode, rs1, rs2, None, Some(a), Some(b), None, None)
}

/// Whether every row carries its own position as its sequence index.
pub open spec fn well_indexed(rows: Seq<RVTraceRow>) -> bool {
    forall|i: int|
        0 <= i < rows.len() ==> (#[trigger] rows[i]).instruction.virtual_sequence_index == Some(
            i as usize,
        )
}

/// Whether every row has the same originating address.
pub open spec fn same_origin(rows: Seq<RVTraceRow>, address: u64) -> bool {
    forall|i: int| 0 <= i < rows.len() ==> (#[trigger] rows[i]).instruction.address == address
}

/// Whether every assertion among the rows holds: its table entry is one.
pub open spec fn assertions_hold(w: usize, rows: Seq<RVTraceRow>) -> bool {
    forall|i: int|
        0 <= i < rows.len() && is_assertion((#[trigger] rows[i]).instruction.opcode)
            ==> spec_lookup_entry(w, rows[i]) == Some(1u64)
}

/// Whether every row that writes a register records the table entry of its
/// opcode as the value written.
pub open spec fn results_match_tables(w: usize, rows: Seq<RVTraceRow>) -> bool {
    forall|i: int|
        0 <= i < rows.len() && !is_assertion((#[trigger] rows[i]).instruction.opcode)
            ==> spec_lookup_entry(w, rows[i]) == rows[i].register_state.rd_post_val
            && rows[i].register_state.rd_post_val is Some
}

/// A virtual sequence under construction. Rows are appended one at a time and
/// numbered in the order in which they arrive.
pub struct VirtualSequence {
    address: u64,
    rows: Vec<RVTraceRow>,
}

impl View for VirtualSequence {
    type V = Seq<RVTraceRow>;

    closed spec fn view(&self) -> Seq<RVTraceRow> {
        self.rows@
    }
}

impl VirtualSequence {
    /// The address that every row of the sequence originates from.
    pub closed spec fn address(&self) -> u64 {
        self.address
    }

    /// An empty sequence for the instruction at `address`.
    pub fn new(address: u64) -> (sequence: Self)
        ensures
            sequence@ == Seq::<RVTraceRow>::empty(),
            sequence.address() == address,
    {
        VirtualSequence { address, rows: Vec::new() }
    }

    /// Number of rows appended so far.
    pub fn len(&self) -> (n: usize)
        ensures
            n == self@.len(),
    {
        self.rows.len()
    }

    fn push_row(
        &mut self,
        opcode: RV32IM,
        rs1: Option<u64>,
        rs2: Option<u64>,
        rd: Option<u64>,
        register_state: RegisterState,
        advice_value: Option<u64>,
    )
        ensures
            final(self).address() == old(self).address(),
            final(self)@ == old(self)@.push(
                virtual_row(
                    old(self).address(),
                    old(self)@.len() as usize,
                    opcode,
                    rs1,
                    rs2,
                    rd,
                    register_state.rs1_val,
                    register_state.rs2_val,
                    register_state.rd_post_val,
                    advice_value,
                ),
            ),
    {
        let index: usize = self.rows.len();
        self.rows.push(
            RVTraceRow {
                instruction: ELFInstruction {
                    address: self.address,
                    opcode,
                    rs1,
                    rs2,
                    rd,
                    imm: None,
                    virtual_sequence_index: Some(index),
                },
                register_state,
                memory_state: None,
                advice_value,
            },
        );
    }

    /// Appends the row that writes the advised `value` to `rd`, and returns
    /// the value written.
    pub fn push_advice<const WORD_SIZE: usize>(&mut self, rd: Option<u64>, value: u64) -> (entry:
        u64)
        requires
            supported_word_size(WORD_SIZE),
        ensures
            final(self).address() == old(self).address(),
            final(self)@ == old(self)@.push(
                advice_row(WORD_SIZE, old(self).address(), old(self)@.len() as usize, rd, value),
            ),
            entry == spec_advice(WORD_SIZE, value),
    {
        let entry: u64 = advice_entry::<WORD_SIZE>(value);
        self.push_row(
            RV32IM::VIRTUAL_ADVICE,
            None,
            None,
            rd,
            RegisterState { rs1_val: None, rs2_val: None, rd_post_val: Some(entry) },
            Some(value),
        );
        entry
    }

    /// Appends the row that adds `a` and `b`, and returns the sum written to
    /// `rd`.
    pub fn push_add<const WORD_SIZE: usize>(
        &mut self,
        rs1: Option<u64>,
        rs2: Option<u64>,
        rd: Option<u64>,
        a: u64,
        b: u64,
    ) -> (entry: u64)
        requires
            supported_word_size(WORD_SIZE),
        ensures
            final(self).address() == old(self).address(),
            final(self)@ == old(self)@.push(
                add_row(
                    WORD_SIZE,
                    old(self).address(),
                    old(self)@.len() as usize,
                    rs1,
                    rs2,
                    rd,
                    a,
                    b,
                ),
            ),
            entry == spec_add(WORD_SIZE, a, b),
    {
        let entry: u64 = add_entry::<WORD_SIZE>(a, b);
        self.push_row(
            RV32IM::ADD,
            rs1,
            rs2,
            rd,
            RegisterState { rs1_val: Some(a), rs2_val: Some(b), rd_post_val: Some(entry) },
            None,
        );
        entry
    }

    /// Appends the row that multiplies `a` and `b`, and returns the product
    /// written to `rd`.
    pub fn push_mulu<const WORD_SIZE: usize>(
        &mut self,
        rs1: Option<u64>,
        rs2: Option<u64>,
        rd: Option<u64>,
        a: u64,
        b: u64,
    ) -> (entry: u64)
        requires
            supported_word_size(WORD_SIZE),
        ensures
            final(self).address() == old(self).address(),
            final(self)@ == old(self)@.push(
                mulu_row(
                    WORD_SIZE,
                    old(self).address(),
                    old(self)@.len() as usize,
                    rs1,
                    rs2,
                    rd,
                    a,
                    b,
                ),
            ),
            entry == spec_mulu(WORD_SIZE, a, b),
    {
        let entry: u64 = mulu_entry::<WORD_SIZE>(a, b);
        self.push_row(
            RV32IM::MULU,
            rs1,
            rs2,
            rd,
            RegisterState { rs1_val: Some(a), rs2_val: Some(b), rd_post_val: Some(entry) },
            None,
        );
        entry
    }

    /// Appends an assertion row. The assertion must hold of the values it is
    /// made of: a sequence never records an assertion that fails.
    pub fn push_assertion<const WORD_SIZE: usize>(
        &mut self,
        opcode: RV32IM,
        rs1: Option<u64>,
        rs2: Option<u64>,
        a: u64,
        b: u64,
    )
        requires
            supported_word_size(WORD_SIZE),
            is_assertion(opcode),
            spec_lookup_entry(
                WORD_SIZE,
                assertion_row(old(self).address(), old(self)@.len() as usize, opcode, rs1, rs2, a, b),
            ) == Some(1u64),
        ensures
            final(self).address() == old(self).address(),
            final(self)@ == old(self)@.push(
                assertion_row(old(self).address(), old(self)@.len() as usize, opcode, rs1, rs2, a, b),
            ),
    {
        self.push_row(
            opcode,
            rs1,
            rs2,
            None,
            RegisterState { rs1_val: Some(a), rs2_val: Some(b), rd_post_val: None },
            None,
        );
    }

    /// The finished sequence.
    pub fn into_rows(self) -> (rows: Vec<RVTraceRow>)
        ensures
            rows@ == self@,
    {
        self.rows
    }
}

} // verus!

//! The trace row: the record of one executed instruction step.
//!
//! Rows are plain data. A row either comes from the program's execution or is
//! one step of a virtual sequence, in which case it carries its position in
//! that sequence.

use vstd::prelude::*;

verus! {

/// The opcodes a trace row can carry: those of the instruction set, and the
/// primitive opcodes that exist only inside virtual sequences.
#[allow(non_camel_case_types)]
#[derive(Clone, Copy, Debug, PartialEq, Eq, Structural, Hash)]
pub enum RV32IM {
    ADD,
    SUB,
    XOR,
    OR,
    AND,
    SLL,
    SRL,
    SRA,
    SLT,
    SLTU,
    ADDI,
    XORI,
    ORI,
    ANDI,
    SLLI,
    SRLI,
    SRAI,
    SLTI,
    SLTIU,
    LB,
    LH,
    LW,
    LBU,
    LHU,
    SB,
    SH,
    SW,
    BEQ,
    BNE,
    BLT,
    BGE,
    BLTU,
    BGEU,
    JAL,
    JALR,
    LUI,
    AUIPC,
    ECALL,
    EBREAK,
    MUL,
    MULH,
    MULHU,
    MULHSU,
    MULU,
    DIV,
    DIVU,
    REM,
    REMU,
    FENCE,
    UNIMPL,
    VIRTUAL_ADVICE,
    VIRTUAL_ASSERT_LTE,
    VIRTUAL_ASSERT_EQ,
    VIRTUAL_ASSERT_VALID_UNSIGNED_REMAINDER,
    VIRTUAL_ASSERT_VALID_DIV0,
}

/// The static part of a row: what the instruction is and which registers it
/// names.
#[derive(Clone, Copy, Debug, PartialEq, Eq)]
pub struct ELFInstruction {
    /// Address of the instruction the row originates from.
    pub address: u64,
    pub opcode: RV32IM,
    /// First source register, where the instruction has one.
    pub rs1: Option<u64>,
    /// Second source register, where the instruction has one.
    pub rs2: Option<u64>,
    /// Destination register, where the instruction has one.
    pub rd: Option<u64>,
    pub imm: Option<u32>,
    /// Position of the row inside its virtual sequence; absent on rows that
    /// belong to none.
    pub virtual_sequence_index: Option<usize>,
}

/// The register values around one step.
#[derive(Clone, Copy, Debug, PartialEq, Eq)]
pub struct RegisterState {
    /// Value of the first source register before the step.
    pub rs1_val: Option<u64>,
    /// Value of the second source register before the step.
    pub rs2_val: Option<u64>,
    /// Value of the destination register after the step.
    pub rd_post_val: Option<u64>,
}

/// The memory access of one step.
#[derive(Clone, Copy, Debug, PartialEq, Eq)]
pub enum MemoryState {
    Read { address: u64, value: u64 },
    Write { address: u64, pre_value: u64, post_value: u64 },
}

/// One executed step.
#[derive(Clone, Copy, Debug, PartialEq, Eq)]
pub struct RVTraceRow {
    pub instruction: ELFInstruction,
    pub register_state: RegisterState,
    pub memory_state: Option<MemoryState>,
    /// Present only where the value written by the step is supplied by the
    /// prover instead of being derived from the step's inputs.
    pub advice_value: Option<u64>,
}

/// The row at position `index` of a virtual sequence expanded from the
/// instruction at `address`.
pub open spec fn virtual_row(
    address: u64,
    index: usize,
    opcode: RV32IM,
    rs1: Option<u64>,
    rs2: Option<u64>,
    rd: Option<u64>,
    rs1_val: Option<u64>,
    rs2_val: Option<u64>,
    rd_post_val: Option<u64>,
    advice_value: Option<u64>,
) -> RVTraceRow {
    RVTraceRow {
        instruction: ELFInstruction {
            address,
            opcode,
            rs1,
            rs2,
            rd,
            imm: None,
            virtual_sequence_index: Some(index),
        },
        register_state: RegisterState { rs1_val, rs2_val, rd_post_val },
        memory_state: None,
        advice_value,
    }
}

} // verus!

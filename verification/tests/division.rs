use jolt_virtual::division::{divide, expand, operands, virtual_sequence, ExpansionError, Exposed};
use jolt_virtual::divu::DIVUInstruction;
use jolt_virtual::lookup::lookup_entry;
use jolt_virtual::remu::REMUInstruction;
use jolt_virtual::trace::{ELFInstruction, MemoryState, RVTraceRow, RegisterState, RV32IM};

const ADDRESS: u64 = 0x8000_0010;
const R_X: u64 = 11;
const R_Y: u64 = 12;
const RD: u64 = 13;
const V_SUM: u64 = 32;
const V_HIDDEN: u64 = 33;
const V_PRODUCT: u64 = 34;

fn input(opcode: RV32IM, x: Option<u64>, y: Option<u64>) -> RVTraceRow {
    RVTraceRow {
        instruction: ELFInstruction {
            address: ADDRESS,
            opcode,
            rs1: Some(R_X),
            rs2: Some(R_Y),
            rd: Some(RD),
            imm: None,
            virtual_sequence_index: None,
        },
        register_state: RegisterState {
            rs1_val: x,
            rs2_val: y,
            rd_post_val: None,
        },
        memory_state: None,
        advice_value: None,
    }
}

fn row(
    index: usize,
    opcode: RV32IM,
    rs1: Option<u64>,
    rs2: Option<u64>,
    rd: Option<u64>,
    rs1_val: Option<u64>,
    rs2_val: Option<u64>,
    rd_post_val: Option<u64>,
    advice_value: Option<u64>,
) -> RVTraceRow {
    RVTraceRow {
        instruction: ELFInstruction {
            address: ADDRESS,
            opcode,
            rs1,
            rs2,
            rd,
            imm: None,
            virtual_sequence_index: Some(index),
        },
        register_state: RegisterState {
            rs1_val,
            rs2_val,
            rd_post_val,
        },
        memory_state: None,
        advice_value,
    }
}

/// The rows of the quotient instruction for the given values, written out.
fn divu_rows(x: u64, y: u64, q: u64, r: u64, q_y: u64, sum: u64) -> Vec<RVTraceRow> {
    vec![
        row(0, RV32IM::VIRTUAL_ADVICE, None, None, Some(RD), None, None, Some(q), Some(q)),
        row(1, RV32IM::VIRTUAL_ADVICE, None, None, Some(V_HIDDEN), None, None, Some(r), Some(r)),
        row(2, RV32IM::MULU, Some(RD), Some(R_Y), Some(V_PRODUCT), Some(q), Some(y), Some(q_y), None),
        row(
            3,
            RV32IM::VIRTUAL_ASSERT_VALID_UNSIGNED_REMAINDER,
            Some(V_HIDDEN),
            Some(R_Y),
            None,
            Some(r),
            Some(y),
            None,
            None,
        ),
        row(4, RV32IM::VIRTUAL_ASSERT_LTE, Some(V_PRODUCT), Some(R_X), None, Some(q_y), Some(x), None, None),
        row(5, RV32IM::VIRTUAL_ASSERT_VALID_DIV0, Some(R_Y), Some(RD), None, Some(y), Some(q), None, None),
        row(6, RV32IM::ADD, Some(V_PRODUCT), Some(V_HIDDEN), Some(V_SUM), Some(q_y), Some(r), Some(sum), None),
        row(7, RV32IM::VIRTUAL_ASSERT_EQ, Some(V_SUM), Some(R_X), None, Some(sum), Some(x), None, None),
    ]
}

/// The rows of the remainder instruction for the given values, written out.
fn remu_rows(x: u64, y: u64, q: u64, r: u64, q_y: u64, sum: u64) -> Vec<RVTraceRow> {
    vec![
        row(0, RV32IM::VIRTUAL_ADVICE, None, None, Some(V_HIDDEN), None, None, Some(q), Some(q)),
        row(1, RV32IM::VIRTUAL_ADVICE, None, None, Some(RD), None, None, Some(r), Some(r)),
        row(2, RV32IM::MULU, Some(V_HIDDEN), Some(R_Y), Some(V_PRODUCT), Some(q), Some(y), Some(q_y), None),
        row(
            3,
            RV32IM::VIRTUAL_ASSERT_VALID_UNSIGNED_REMAINDER,
            Some(RD),
            Some(R_Y),
            None,
            Some(r),
            Some(y),
            None,
            None,
        ),
        row(4, RV32IM::VIRTUAL_ASSERT_LTE, Some(V_PRODUCT), Some(R_X), None, Some(q_y), Some(x), None, None),
        row(5, RV32IM::ADD, Some(V_PRODUCT), Some(RD), Some(V_SUM), Some(q_y), Some(r), Some(sum), None),
        row(6, RV32IM::VIRTUAL_ASSERT_EQ, Some(V_SUM), Some(R_X), None, Some(sum), Some(x), None, None),
    ]
}

#[test]
fn divu_ten_by_three_32() {
    let rows = DIVUInstruction::<32>::virtual_sequence(input(RV32IM::DIVU, Some(10), Some(3))).unwrap();
    assert_eq!(rows, divu_rows(10, 3, 3, 1, 9, 10));
    assert_eq!(rows[0].advice_value, Some(3));
    assert_eq!(rows[1].advice_value, Some(1));
    assert_eq!(rows[2].register_state.rd_post_val, Some(9));
    assert_eq!(rows[6].register_state.rd_post_val, Some(10));
    assert_eq!(rows[7].register_state.rs1_val, Some(10));
    assert_eq!(rows[7].register_state.rs2_val, Some(10));
    assert_eq!(lookup_entry::<32>(&rows[7]), Some(1));
}

#[test]
fn remu_ten_by_three_32() {
    let rows = REMUInstruction::<32>::virtual_sequence(input(RV32IM::REMU, Some(10), Some(3))).unwrap();
    assert_eq!(rows, remu_rows(10, 3, 3, 1, 9, 10));
    assert_eq!(rows.len(), 7);
    assert_eq!(rows[2].instruction.opcode, RV32IM::MULU);
    assert_eq!(rows[2].register_state.rd_post_val, Some(9));
    assert_eq!(rows[5].instruction.opcode, RV32IM::ADD);
    assert_eq!(rows[5].register_state.rd_post_val, Some(10));
    assert_eq!(rows[6].instruction.opcode, RV32IM::VIRTUAL_ASSERT_EQ);
    assert_eq!(rows[6].register_state.rs1_val, Some(10));
    assert_eq!(rows[6].register_state.rs2_val, Some(10));
    assert_eq!(lookup_entry::<32>(&rows[6]), Some(1));
}

#[test]
fn divu_seven_by_zero_32() {
    let rows = DIVUInstruction::<32>::virtual_sequence(input(RV32IM::DIVU, Some(7), Some(0))).unwrap();
    assert_eq!(rows, divu_rows(7, 0, 4294967295, 7, 0, 7));
    assert_eq!(rows[0].advice_value, Some(4294967295));
    assert_eq!(rows[1].advice_value, Some(7));
    assert_eq!(rows[5].instruction.opcode, RV32IM::VIRTUAL_ASSERT_VALID_DIV0);
    assert_eq!(lookup_entry::<32>(&rows[5]), Some(1));
    assert_eq!(rows[7].register_state.rs1_val, Some(7));
    assert_eq!(rows[7].register_state.rs2_val, Some(7));
    assert_eq!(lookup_entry::<32>(&rows[7]), Some(1));
}

#[test]
fn remu_seven_by_zero_32() {
    let rows = REMUInstruction::<32>::virtual_sequence(input(RV32IM::REMU, Some(7), Some(0))).unwrap();
    assert_eq!(rows, remu_rows(7, 0, 4294967295, 7, 0, 7));
    assert_eq!(lookup_entry::<32>(&rows[3]), Some(1));
    assert_eq!(lookup_entry::<32>(&rows[6]), Some(1));
}

#[test]
fn divu_by_zero_64() {
    let x = 0xdead_beef_0000_0001u64;
    let rows = DIVUInstruction::<64>::virtual_sequence(input(RV32IM::DIVU, Some(x), Some(0))).unwrap();
    assert_eq!(rows, divu_rows(x, 0, u64::MAX, x, 0, x));
}

#[test]
fn remu_by_zero_64() {
    let x = u64::MAX;
    let rows = REMUInstruction::<64>::virtual_sequence(input(RV32IM::REMU, Some(x), Some(0))).unwrap();
    assert_eq!(rows, remu_rows(x, 0, u64::MAX, x, 0, x));
}

#[test]
fn divu_of_wide_values_64() {
    let x = u64::MAX;
    let y = 0x1_0000_0001u64;
    let q = 0xffff_ffffu64;
    let r = 0u64;
    assert_eq!(q * y + r, x);
    let rows = DIVUInstruction::<64>::virtual_sequence(input(RV32IM::DIVU, Some(x), Some(y))).unwrap();
    assert_eq!(rows, divu_rows(x, y, q, r, x, x));
}

#[test]
fn remu_of_wide_values_64() {
    let x = u64::MAX - 1;
    let y = 1u64 << 63;
    let rows = REMUInstruction::<64>::virtual_sequence(input(RV32IM::REMU, Some(x), Some(y))).unwrap();
    assert_eq!(rows, remu_rows(x, y, 1, (1u64 << 63) - 2, 1u64 << 63, x));
}

#[test]
fn divu_largest_word_by_one_32() {
    let x = 0xffff_ffffu64;
    let rows = DIVUInstruction::<32>::virtual_sequence(input(RV32IM::DIVU, Some(x), Some(1))).unwrap();
    assert_eq!(rows, divu_rows(x, 1, x, 0, x, x));
    for row in rows.iter() {
        if row.instruction.rd.is_none() {
            assert_eq!(lookup_entry::<32>(row), Some(1));
        }
    }
}

#[test]
fn divu_of_smaller_by_larger_32() {
    let rows = DIVUInstruction::<32>::virtual_sequence(input(RV32IM::DIVU, Some(5), Some(9))).unwrap();
    assert_eq!(rows, divu_rows(5, 9, 0, 5, 0, 5));
}

#[test]
fn divu_rejects_another_opcode() {
    let result = DIVUInstruction::<32>::virtual_sequence(input(RV32IM::REMU, Some(10), Some(3)));
    assert_eq!(result, Err(ExpansionError::WrongOpcode));
    let result = DIVUInstruction::<64>::virtual_sequence(input(RV32IM::ADD, Some(10), Some(3)));
    assert_eq!(result, Err(ExpansionError::WrongOpcode));
}

#[test]
fn remu_rejects_another_opcode() {
    let result = REMUInstruction::<32>::virtual_sequence(input(RV32IM::DIVU, Some(10), Some(3)));
    assert_eq!(result, Err(ExpansionError::WrongOpcode));
    let result = REMUInstruction::<64>::virtual_sequence(input(RV32IM::VIRTUAL_ADVICE, Some(10), Some(3)));
    assert_eq!(result, Err(ExpansionError::WrongOpcode));
}

#[test]
fn missing_operand_is_rejected() {
    assert_eq!(
        DIVUInstruction::<32>::virtual_sequence(input(RV32IM::DIVU, None, Some(3))),
        Err(ExpansionError::MissingOperand)
    );
    assert_eq!(
        DIVUInstruction::<32>::virtual_sequence(input(RV32IM::DIVU, Some(10), None)),
        Err(ExpansionError::MissingOperand)
    );
    assert_eq!(
        REMUInstruction::<64>::virtual_sequence(input(RV32IM::REMU, None, None)),
        Err(ExpansionError::MissingOperand)
    );
}

#[test]
fn operand_wider_than_the_word_is_rejected() {
    let wide = 0x1_0000_0000u64;
    assert_eq!(
        DIVUInstruction::<32>::virtual_sequence(input(RV32IM::DIVU, Some(wide), Some(3))),
        Err(ExpansionError::OperandOutOfRange)
    );
    assert_eq!(
        REMUInstruction::<32>::virtual_sequence(input(RV32IM::REMU, Some(3), Some(wide))),
        Err(ExpansionError::OperandOutOfRange)
    );
    assert!(DIVUInstruction::<32>::virtual_sequence(input(RV32IM::DIVU, Some(wide - 1), Some(wide - 1))).is_ok());
    assert!(DIVUInstruction::<64>::virtual_sequence(input(RV32IM::DIVU, Some(wide), Some(3))).is_ok());
}

#[test]
fn opcode_is_looked_at_before_the_operands() {
    assert_eq!(
        DIVUInstruction::<32>::virtual_sequence(input(RV32IM::REMU, None, Some(0x1_0000_0000))),
        Err(ExpansionError::WrongOpcode)
    );
    assert_eq!(
        REMUInstruction::<32>::virtual_sequence(input(RV32IM::REMU, None, Some(0x1_0000_0000))),
        Err(ExpansionError::MissingOperand)
    );
}

#[test]
fn both_instructions_advise_the_same_values() {
    let pairs: [(u64, u64); 6] = [
        (10, 3),
        (7, 0),
        (0, 0),
        (0xffff_ffff, 0xffff),
        (0xffff_ffff, 0xffff_ffff),
        (1, 0xffff_ffff),
    ];
    for (x, y) in pairs {
        let divu = DIVUInstruction::<32>::virtual_sequence(input(RV32IM::DIVU, Some(x), Some(y))).unwrap();
        let remu = REMUInstruction::<32>::virtual_sequence(input(RV32IM::REMU, Some(x), Some(y))).unwrap();
        assert_eq!(divu[0].advice_value, remu[0].advice_value);
        assert_eq!(divu[1].advice_value, remu[1].advice_value);
        assert_eq!(divu[0].instruction.rd, Some(RD));
        assert_eq!(remu[0].instruction.rd, Some(V_HIDDEN));
        assert_eq!(divu[1].instruction.rd, Some(V_HIDDEN));
        assert_eq!(remu[1].instruction.rd, Some(RD));
        for i in 0..5 {
            assert_eq!(divu[i].register_state, remu[i].register_state);
        }
        assert_eq!(divu[6].register_state, remu[5].register_state);
        assert_eq!(divu[7].register_state, remu[6].register_state);
    }
}

#[test]
fn quotient_and_remainder_rebuild_the_dividend() {
    let pairs: [(u64, u64); 5] = [
        (10, 3),
        (0xffff_ffff, 7),
        (0xffff_fffe, 0xffff_ffff),
        (12345, 1),
        (0, 5),
    ];
    for (x, y) in pairs {
        let rows = DIVUInstruction::<32>::virtual_sequence(input(RV32IM::DIVU, Some(x), Some(y))).unwrap();
        assert_eq!(rows[0].advice_value, Some(x / y));
        let product = rows[2].register_state.rd_post_val.unwrap();
        let remainder = rows[1].register_state.rd_post_val.unwrap();
        assert_eq!(product + remainder, x);
        assert!(rows[1].advice_value.unwrap() < y);
    }
}

#[test]
fn shape_does_not_depend_on_the_values() {
    let divu_opcodes = [
        RV32IM::VIRTUAL_ADVICE,
        RV32IM::VIRTUAL_ADVICE,
        RV32IM::MULU,
        RV32IM::VIRTUAL_ASSERT_VALID_UNSIGNED_REMAINDER,
        RV32IM::VIRTUAL_ASSERT_LTE,
        RV32IM::VIRTUAL_ASSERT_VALID_DIV0,
        RV32IM::ADD,
        RV32IM::VIRTUAL_ASSERT_EQ,
    ];
    let remu_opcodes = [
        RV32IM::VIRTUAL_ADVICE,
        RV32IM::VIRTUAL_ADVICE,
        RV32IM::MULU,
        RV32IM::VIRTUAL_ASSERT_VALID_UNSIGNED_REMAINDER,
        RV32IM::VIRTUAL_ASSERT_LTE,
        RV32IM::ADD,
        RV32IM::VIRTUAL_ASSERT_EQ,
    ];
    let pairs: [(u64, u64); 4] = [(10, 3), (7, 0), (0, 0), (0xffff_ffff, 2)];
    for (x, y) in pairs {
        let divu = DIVUInstruction::<32>::virtual_sequence(input(RV32IM::DIVU, Some(x), Some(y))).unwrap();
        assert_eq!(divu.len(), 8);
        for (i, row) in divu.iter().enumerate() {
            assert_eq!(row.instruction.opcode, divu_opcodes[i]);
            assert_eq!(row.instruction.virtual_sequence_index, Some(i));
            assert_eq!(row.instruction.address, ADDRESS);
            assert_eq!(row.instruction.imm, None);
            assert_eq!(row.memory_state, None);
        }
        let remu = REMUInstruction::<64>::virtual_sequence(input(RV32IM::REMU, Some(x), Some(y))).unwrap();
        assert_eq!(remu.len(), 7);
        for (i, row) in remu.iter().enumerate() {
            assert_eq!(row.instruction.opcode, remu_opcodes[i]);
            assert_eq!(row.instruction.virtual_sequence_index, Some(i));
            assert_eq!(row.instruction.address, ADDRESS);
        }
    }
}

#[test]
fn what_the_input_row_records_beside_its_operands_is_not_copied() {
    let mut row = input(RV32IM::DIVU, Some(10), Some(3));
    row.instruction.imm = Some(99);
    row.instruction.virtual_sequence_index = Some(4);
    row.register_state.rd_post_val = Some(3);
    row.memory_state = Some(MemoryState::Write {
        address: 8,
        pre_value: 1,
        post_value: 2,
    });
    row.advice_value = Some(77);
    let rows = DIVUInstruction::<32>::virtual_sequence(row).unwrap();
    assert_eq!(rows, divu_rows(10, 3, 3, 1, 9, 10));
}

#[test]
fn registers_of_the_input_row_are_passed_on_as_they_are() {
    let mut row = input(RV32IM::REMU, Some(10), Some(3));
    row.instruction.rs1 = None;
    row.instruction.rs2 = None;
    row.instruction.rd = None;
    let rows = REMUInstruction::<32>::virtual_sequence(row).unwrap();
    assert_eq!(rows[1].instruction.rd, None);
    assert_eq!(rows[2].instruction.rs2, None);
    assert_eq!(rows[3].instruction.rs1, None);
    assert_eq!(rows[4].instruction.rs2, None);
    assert_eq!(rows[5].instruction.rs2, None);
    assert_eq!(rows[6].instruction.rs2, None);
    assert_eq!(rows[0].instruction.rd, Some(V_HIDDEN));
}

#[test]
fn gadget_by_exposure() {
    let divu = input(RV32IM::DIVU, Some(100), Some(7));
    assert_eq!(
        virtual_sequence::<32>(&divu, Exposed::Quotient),
        Ok(divu_rows(100, 7, 14, 2, 98, 100))
    );
    assert_eq!(
        virtual_sequence::<32>(&divu, Exposed::Remainder),
        Err(ExpansionError::WrongOpcode)
    );
    let remu = input(RV32IM::REMU, Some(100), Some(7));
    assert_eq!(
        virtual_sequence::<32>(&remu, Exposed::Remainder),
        Ok(remu_rows(100, 7, 14, 2, 98, 100))
    );
    assert_eq!(
        virtual_sequence::<32>(&remu, Exposed::Quotient),
        Err(ExpansionError::WrongOpcode)
    );
}

#[test]
fn operands_of_a_row() {
    assert_eq!(
        operands::<32>(&input(RV32IM::DIVU, Some(10), Some(3)), RV32IM::DIVU),
        Ok((10, 3))
    );
    assert_eq!(
        operands::<32>(&input(RV32IM::DIVU, Some(10), Some(3)), RV32IM::REMU),
        Err(ExpansionError::WrongOpcode)
    );
    assert_eq!(
        operands::<64>(&input(RV32IM::REMU, Some(u64::MAX), Some(0)), RV32IM::REMU),
        Ok((u64::MAX, 0))
    );
    assert_eq!(
        operands::<32>(&input(RV32IM::REMU, Some(u64::MAX), Some(0)), RV32IM::REMU),
        Err(ExpansionError::OperandOutOfRange)
    );
}

#[test]
fn advice_of_a_division() {
    assert_eq!(divide::<32>(10, 3), (3, 1));
    assert_eq!(divide::<32>(7, 0), (0xffff_ffff, 7));
    assert_eq!(divide::<64>(7, 0), (u64::MAX, 7));
    assert_eq!(divide::<64>(u64::MAX, u64::MAX), (1, 0));
    assert_eq!(divide::<32>(0, 0), (0xffff_ffff, 0));
    assert_eq!(divide::<32>(0xffff_ffff, 0x1_0000), (0xffff, 0xffff));
}

#[test]
fn expansion_does_not_look_at_the_opcode() {
    let row = input(RV32IM::ADD, Some(10), Some(3));
    assert_eq!(expand::<32>(&row, Exposed::Quotient), divu_rows(10, 3, 3, 1, 9, 10));
    assert_eq!(expand::<32>(&row, Exposed::Remainder), remu_rows(10, 3, 3, 1, 9, 10));
}

#[test]
fn quotient_and_remainder_rebuild_the_dividend_64() {
    let pairs: [(u64, u64); 5] = [
        (u64::MAX, 3),
        (u64::MAX, u64::MAX - 1),
        (0x1_0000_0000, 0xffff_ffff),
        (0x8000_0000_0000_0000, 0x1_0000_0000),
        (1, u64::MAX),
    ];
    for (x, y) in pairs {
        let rows = REMUInstruction::<64>::virtual_sequence(input(RV32IM::REMU, Some(x), Some(y))).unwrap();
        assert_eq!(rows[0].advice_value, Some(x / y));
        assert_eq!(rows[1].advice_value, Some(x % y));
        let product = rows[2].register_state.rd_post_val.unwrap();
        let remainder = rows[1].register_state.rd_post_val.unwrap();
        assert_eq!(product.checked_add(remainder), Some(x));
        assert!(remainder < y);
        assert_eq!(rows[5].register_state.rd_post_val, Some(x));
    }
}

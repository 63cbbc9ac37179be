//! Register identifiers: the architectural register file, and the virtual
//! registers that hold temporaries inside one virtual sequence.

use vstd::prelude::*;

verus! {

/// Number of architectural registers. Identifiers below this number belong to
/// the program; virtual registers start here.
pub const ARCHITECTURAL_REGISTER_COUNT: u64 = 32;

/// Number of virtual registers that follow the architectural ones.
pub const VIRTUAL_REGISTER_COUNT: u64 = 32;

/// Size of the whole register file, architectural and virtual.
pub const REGISTER_COUNT: u64 = 64;

/// Whether `register` names one of the program's own registers.
pub open spec fn is_architectural(register: u64) -> bool {
    register < ARCHITECTURAL_REGISTER_COUNT
}

/// Whether the virtual register with number `slot` has a representable
/// identifier.
pub open spec fn is_slot(slot: u64) -> bool {
    slot <= u64::MAX - ARCHITECTURAL_REGISTER_COUNT
}

/// The identifier of virtual register number `slot`.
pub open spec fn spec_virtual_register_index(slot: u64) -> u64
    recommends
        is_slot(slot),
{
    (slot + ARCHITECTURAL_REGISTER_COUNT) as u64
}

/// The register identifier of the temporary with number `slot`.
///
/// The slot is local to one virtual sequence. The only limit on it is that the
/// identifier must be representable.
pub fn virtual_register_index(slot: u64) -> (register: u64)
    requires
        is_slot(slot),
    ensures
        register == spec_virtual_register_index(slot),
        register == slot + ARCHITECTURAL_REGISTER_COUNT,
        !is_architectural(register),
{
    slot + ARCHITECTURAL_REGISTER_COUNT
}

/// No virtual register is an architectural register.
pub proof fn lemma_virtual_register_is_not_architectural(slot: u64, register: u64)
    requires
        is_slot(slot),
        is_architectural(register),
    ensures
        spec_virtual_register_index(slot) != register,
{
}

/// Different slots name different virtual registers.
pub proof fn lemma_virtual_registers_are_distinct(slot_a: u64, slot_b: u64)
    requires
        is_slot(slot_a),
        is_slot(slot_b),
        slot_a != slot_b,
    ensures
        spec_virtual_register_index(slot_a) != spec_virtual_register_index(slot_b),
{
}

/// The first `VIRTUAL_REGISTER_COUNT` slots stay inside the register file.
pub proof fn lemma_virtual_register_in_file(slot: u64)
    requires
        slot < VIRTUAL_REGISTER_COUNT,
    ensures
        ARCHITECTURAL_REGISTER_COUNT <= spec_virtual_register_index(slot) < REGISTER_COUNT,
{
}

} // verus!

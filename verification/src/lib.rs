//! Virtual instruction sequences for the unsigned division family of a
//! zero-knowledge virtual machine.
//!
//! A complex instruction is rewritten, together with the operand values it ran
//! on, into a fixed list of primitive trace rows. Each primitive row is either
//! an arithmetic step or an assertion, and each can be checked on its own by a
//! table lookup.

pub mod division;
pub mod division_proofs;
pub mod divu;
pub mod lookup;
pub mod registers;
pub mod remu;
pub mod replay;
pub mod sequence;
pub mod trace;
pub mod word;

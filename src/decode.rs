//! Operand resolution and the opcode arity table.

use vstd::prelude::*;

use crate::machine::State;

verus! {

/// Number of general-purpose registers.
pub const REGISTER_COUNT: usize = 8;

/// First raw word that encodes a register reference (register 0).
pub const REGISTER_BASE: u16 = 32768;

/// Largest value of the literal (15-bit) domain.
pub const MAX_LITERAL: u16 = 32767;

/// Largest valid opcode.
pub const MAX_OPCODE: u16 = 21;

/// Why a run stopped abnormally.
#[derive(Clone, Copy, Debug, PartialEq, Eq, Structural)]
pub enum Fault {
    /// A raw operand is neither a literal nor a register reference, or a
    /// destination operand is not a register reference.
    InvalidOperand,
    /// The word at the instruction pointer is not an opcode.
    UnknownOpcode,
    /// `pop` or `ret` with an empty stack.
    StackUnderflow,
    /// The instruction pointer, an operand word, or a memory address lies
    /// outside memory (or a return address does not fit in a word).
    OutOfBounds,
    /// `mod` with a zero divisor.
    DivisionByZero,
    /// `in` when the input source has closed.
    InputExhausted,
}

/// `w` is a register reference (32768 to 32775).
pub open spec fn is_register_ref(w: u16) -> bool {
    REGISTER_BASE <= w && w < REGISTER_BASE + REGISTER_COUNT
}

/// `w` is a literal or a register reference.
pub open spec fn is_valid_operand(w: u16) -> bool {
    w <= MAX_LITERAL || is_register_ref(w)
}

/// The register index that a register reference names.
pub open spec fn register_index(w: u16) -> int {
    w - REGISTER_BASE
}

/// The value that the raw operand `w` denotes, given the register file.
pub open spec fn operand_value(registers: Seq<u16>, w: u16) -> u16 {
    if w <= MAX_LITERAL {
        w
    } else {
        registers[register_index(w)]
    }
}

/// `op` is one of the opcodes 0 to 21.
pub open spec fn is_opcode(op: u16) -> bool {
    op <= MAX_OPCODE
}

/// Number of operand words that follow opcode `op`.
pub open spec fn arity_of(op: u16) -> nat {
    if op == 0 || op == 18 || op == 21 {
        0
    } else if op == 2 || op == 3 || op == 6 || op == 17 || op == 19 || op == 20 {
        1
    } else if op == 4 || op == 5 || (9 <= op && op <= 13) {
        3
    } else {
        2
    }
}

/// Resolves a destination operand to a register index.
pub fn resolve_register(arg: u16) -> (r: Result<usize, Fault>)
    ensures
        is_register_ref(arg) ==> r == Ok::<usize, Fault>(register_index(arg) as usize),
        !is_register_ref(arg) ==> r == Err::<usize, Fault>(Fault::InvalidOperand),
{
    if REGISTER_BASE <= arg && arg - REGISTER_BASE < REGISTER_COUNT as u16 {
        Ok((arg - REGISTER_BASE) as usize)
    } else {
        Err(Fault::InvalidOperand)
    }
}

/// The number of operand words that follow `opcode`.
pub fn arity(opcode: u16) -> (r: Result<usize, Fault>)
    ensures
        is_opcode(opcode) ==> r == Ok::<usize, Fault>(arity_of(opcode) as usize),
        !is_opcode(opcode) ==> r == Err::<usize, Fault>(Fault::UnknownOpcode),
{
    match opcode {
        0 | 18 | 21 => Ok(0),
        2 | 3 | 6 | 17 | 19 | 20 => Ok(1),
        1 | 7 | 8 | 14 | 15 | 16 => Ok(2),
        4 | 5 | 9 | 10 | 11 | 12 | 13 => Ok(3),
        _ => Err(Fault::UnknownOpcode),
    }
}

/// Resolves a source operand to its value: a literal stands for itself, a
/// register reference for the register's current value.
pub fn resolve_operand(state: &State, operand: u16) -> (r: Result<u16, Fault>)
    ensures
        is_valid_operand(operand) ==> r == Ok::<u16, Fault>(operand_value(state.registers@, operand)),
        !is_valid_operand(operand) ==> r == Err::<u16, Fault>(Fault::InvalidOperand),
{
    if operand <= MAX_LITERAL {
        Ok(operand)
    } else {
        match resolve_register(operand) {
            Ok(i) => Ok(state.registers[i]),
            Err(f) => Err(f),
        }
    }
}

} // verus!

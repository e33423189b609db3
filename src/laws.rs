//! Properties of the instruction semantics that hold for every machine.

use vstd::prelude::*;

use crate::decode::{Fault, arity_of, is_opcode, is_valid_operand};
use crate::machine::Machine;
use crate::semantics::{
    Outcome, Run, Step, Transition, dst, faulted, next, opcode, operands_ok, raw, run, val,
};

verus! {

/// The instruction at the instruction pointer transfers control explicitly:
/// `jmp`, `call`, `ret`, or a `jt` / `jf` whose condition holds.
pub open spec fn jumps(m: Machine) -> bool {
    let op = opcode(m);
    ||| op == 6
    ||| op == 17
    ||| op == 18
    ||| op == 7 && val(m, 1) != 0
    ||| op == 8 && val(m, 1) == 0
}

/// `halt` ends the run with success at once and changes nothing, whatever
/// the registers, stack, memory and input hold.
pub proof fn halt_stops(m: Machine, input: Seq<u8>, fuel: nat)
    requires
        0 <= m.ip < m.memory.len(),
        m.memory[m.ip] == 0,
        fuel > 0,
    ensures
        next(m, input) == (Transition { step: Step::Halted, machine: m, input }),
        run(m, input, fuel) == (Run {
            outcome: Outcome::Halted,
            machine: m,
            input,
            output: Seq::empty(),
        }),
{
}

/// An executed instruction that does not jump leaves the instruction pointer
/// just past its operands: `ip + 1 + arity`.
pub proof fn no_jump_falls_through(m: Machine, input: Seq<u8>)
    requires
        0 <= m.ip < m.memory.len(),
        !jumps(m),
        next(m, input).step is Running || next(m, input).step is Output,
    ensures
        next(m, input).machine.ip == m.ip + 1 + arity_of(opcode(m)),
{
}

/// `eq` and `gt` write exactly 0 or 1, for every pair of operands.
pub proof fn comparisons_give_flags(m: Machine, input: Seq<u8>)
    requires
        0 <= m.ip < m.memory.len(),
        m.registers.len() == 8,
        opcode(m) == 4 || opcode(m) == 5,
        next(m, input).step is Running,
    ensures
        ({
            let w = next(m, input).machine.registers[dst(m, 1)];
            w == 0 || w == 1
        }),
{
}

/// A `call` followed, once the stack is back to what the call left, by a
/// `ret` returns to the instruction right after the `call`, and the stack is
/// as it was before the call.
pub proof fn call_then_ret_returns(call: Machine, later: Machine, input: Seq<u8>)
    requires
        0 <= call.ip < call.memory.len(),
        opcode(call) == 17,
        next(call, input).step is Running,
        0 <= later.ip < later.memory.len(),
        opcode(later) == 18,
        later.stack == next(call, input).machine.stack,
    ensures
        next(later, input).step is Running,
        next(later, input).machine.ip == call.ip + 2,
        next(later, input).machine.stack == call.stack,
{
    assert(next(call, input).machine.stack == call.stack.push((call.ip + 2) as u16));
    assert(later.stack.drop_last() =~= call.stack);
}

/// An operand word that is neither a literal nor a register reference makes
/// the instruction fault with `InvalidOperand` before it changes anything.
pub proof fn invalid_operand_faults(m: Machine, input: Seq<u8>, k: int)
    requires
        0 <= m.ip < m.memory.len(),
        is_opcode(opcode(m)),
        1 <= k <= arity_of(opcode(m)),
        m.ip + arity_of(opcode(m)) < m.memory.len(),
        !is_valid_operand(raw(m, k)),
    ensures
        next(m, input) == faulted(m, input, Fault::InvalidOperand),
{
}

/// `pop` or `ret` on an empty stack faults with `StackUnderflow` and changes
/// nothing (in particular no register), once its operands have decoded.
pub proof fn empty_stack_underflows(m: Machine, input: Seq<u8>)
    requires
        0 <= m.ip < m.memory.len(),
        opcode(m) == 3 || opcode(m) == 18,
        m.ip + arity_of(opcode(m)) < m.memory.len(),
        operands_ok(m, opcode(m)),
        m.stack.len() == 0,
    ensures
        next(m, input) == faulted(m, input, Fault::StackUnderflow),
{
}

} // verus!

//! The meaning of one instruction, as a function on the abstract machine.

use vstd::prelude::*;

use crate::decode::{
    Fault, arity_of, is_opcode, is_register_ref, is_valid_operand, operand_value, register_index,
};
use crate::machine::Machine;

verus! {

/// What one executed step reports to the driver.
#[derive(Clone, Copy, Debug, PartialEq, Eq, Structural)]
pub enum Step {
    /// The instruction ran; the machine goes on.
    Running,
    /// `out` ran; the character is to be emitted, and the machine goes on.
    Output(u8),
    /// `in` found no buffered character; nothing changed, and the same
    /// instruction runs again once a line has been supplied.
    NeedInput,
    /// `halt` ran: the run ended with success.
    Halted,
    /// The run ended with a fault; nothing changed, so the instruction
    /// pointer still holds the faulting instruction's address.
    Faulted(Fault),
}

/// The outcome of one step: what is reported, the machine after it, and the
/// input characters still buffered.
pub struct Transition {
    pub step: Step,
    pub machine: Machine,
    pub input: Seq<u8>,
}

/// The largest value a word can hold.
pub const WORD_MAX: u16 = 65535;

/// The modulus of the 15-bit arithmetic.
pub const WORD_MODULUS: u32 = 32768;

/// Mask of the 15-bit domain.
pub const WORD_MASK: u16 = 0x7FFF;

/// The opcode at the instruction pointer.
pub open spec fn opcode(m: Machine) -> u16 {
    m.memory[m.ip]
}

/// The raw operand word `k` (1-based) of the current instruction.
pub open spec fn raw(m: Machine, k: int) -> u16 {
    m.memory[m.ip + k]
}

/// The value that operand `k` of the current instruction denotes.
pub open spec fn val(m: Machine, k: int) -> u16 {
    operand_value(m.registers, raw(m, k))
}

/// The register that operand `k` of the current instruction names.
pub open spec fn dst(m: Machine, k: int) -> int {
    register_index(raw(m, k))
}

pub open spec fn src_ok(m: Machine, k: int) -> bool {
    is_valid_operand(raw(m, k))
}

pub open spec fn dst_ok(m: Machine, k: int) -> bool {
    is_register_ref(raw(m, k))
}

/// Every operand of the current instruction (opcode `op`) decodes: sources as
/// literals or register references, destinations as register references.
pub open spec fn operands_ok(m: Machine, op: u16) -> bool {
    if op == 1 || op == 14 || op == 15 {
        dst_ok(m, 1) && src_ok(m, 2)
    } else if op == 2 || op == 6 || op == 17 || op == 19 {
        src_ok(m, 1)
    } else if op == 3 || op == 20 {
        dst_ok(m, 1)
    } else if op == 4 || op == 5 || (9 <= op && op <= 13) {
        dst_ok(m, 1) && src_ok(m, 2) && src_ok(m, 3)
    } else if op == 7 || op == 8 || op == 16 {
        src_ok(m, 1) && src_ok(m, 2)
    } else {
        true
    }
}

/// The address right after the current instruction.
pub open spec fn fall_through(m: Machine) -> int {
    m.ip + 1 + arity_of(opcode(m))
}

/// `m` with the instruction pointer moved past the current instruction.
pub open spec fn advanced(m: Machine) -> Machine {
    Machine { ip: fall_through(m), ..m }
}

/// `m` with register `r` set to `v` and the instruction pointer advanced.
pub open spec fn with_register(m: Machine, r: int, v: u16) -> Machine {
    Machine { registers: m.registers.update(r, v), ip: fall_through(m), ..m }
}

/// `m` with the instruction pointer set to `target`.
pub open spec fn jumped(m: Machine, target: u16) -> Machine {
    Machine { ip: target as int, ..m }
}

pub open spec fn going_on(m: Machine, input: Seq<u8>) -> Transition {
    Transition { step: Step::Running, machine: m, input }
}

pub open spec fn faulted(m: Machine, input: Seq<u8>, f: Fault) -> Transition {
    Transition { step: Step::Faulted(f), machine: m, input }
}

/// 1 when `c` holds, else 0.
pub open spec fn flag(c: bool) -> u16 {
    if c {
        1
    } else {
        0
    }
}

/// The effect of the current instruction, whose opcode `op` is valid, not
/// `halt`, and whose operands all lie in memory and decode.
pub open spec fn execute(m: Machine, op: u16, input: Seq<u8>) -> Transition {
    if op == 1 {
        going_on(with_register(m, dst(m, 1), val(m, 2)), input)
    } else if op == 2 {
        going_on(Machine { stack: m.stack.push(val(m, 1)), ..advanced(m) }, input)
    } else if op == 3 {
        if m.stack.len() == 0 {
            faulted(m, input, Fault::StackUnderflow)
        } else {
            going_on(
                Machine { stack: m.stack.drop_last(), ..with_register(m, dst(m, 1), m.stack.last()) },
                input,
            )
        }
    } else if op == 4 {
        going_on(with_register(m, dst(m, 1), flag(val(m, 2) == val(m, 3))), input)
    } else if op == 5 {
        going_on(with_register(m, dst(m, 1), flag(val(m, 2) > val(m, 3))), input)
    } else if op == 6 {
        going_on(jumped(m, val(m, 1)), input)
    } else if op == 7 {
        going_on(if val(m, 1) != 0 { jumped(m, val(m, 2)) } else { advanced(m) }, input)
    } else if op == 8 {
        going_on(if val(m, 1) == 0 { jumped(m, val(m, 2)) } else { advanced(m) }, input)
    } else if op == 9 {
        going_on(with_register(m, dst(m, 1), ((val(m, 2) + val(m, 3)) % 32768) as u16), input)
    } else if op == 10 {
        going_on(with_register(m, dst(m, 1), ((val(m, 2) * val(m, 3)) % 32768) as u16), input)
    } else if op == 11 {
        if val(m, 3) == 0 {
            faulted(m, input, Fault::DivisionByZero)
        } else {
            going_on(with_register(m, dst(m, 1), (val(m, 2) % val(m, 3)) as u16), input)
        }
    } else if op == 12 {
        going_on(with_register(m, dst(m, 1), val(m, 2) & val(m, 3) & WORD_MASK), input)
    } else if op == 13 {
        going_on(with_register(m, dst(m, 1), (val(m, 2) | val(m, 3)) & WORD_MASK), input)
    } else if op == 14 {
        going_on(with_register(m, dst(m, 1), !val(m, 2) & WORD_MASK), input)
    } else if op == 15 {
        if val(m, 2) >= m.memory.len() {
            faulted(m, input, Fault::OutOfBounds)
        } else {
            going_on(with_register(m, dst(m, 1), m.memory[val(m, 2) as int]), input)
        }
    } else if op == 16 {
        if val(m, 1) >= m.memory.len() {
            faulted(m, input, Fault::OutOfBounds)
        } else {
            going_on(
                Machine { memory: m.memory.update(val(m, 1) as int, val(m, 2)), ..advanced(m) },
                input,
            )
        }
    } else if op == 17 {
        if m.ip + 2 > WORD_MAX {
            faulted(m, input, Fault::OutOfBounds)
        } else {
            going_on(
                Machine { stack: m.stack.push((m.ip + 2) as u16), ..jumped(m, val(m, 1)) },
                input,
            )
        }
    } else if op == 18 {
        if m.stack.len() == 0 {
            faulted(m, input, Fault::StackUnderflow)
        } else {
            going_on(Machine { stack: m.stack.drop_last(), ..jumped(m, m.stack.last()) }, input)
        }
    } else if op == 19 {
        Transition { step: Step::Output((val(m, 1) % 256) as u8), machine: advanced(m), input }
    } else if op == 20 {
        if input.len() == 0 {
            Transition { step: Step::NeedInput, machine: m, input }
        } else {
            going_on(with_register(m, dst(m, 1), input[0] as u16), input.drop_first())
        }
    } else {
        going_on(advanced(m), input)
    }
}

/// One fetch-decode-execute step of machine `m` with buffered input `input`.
///
/// The checks come in this order: the instruction pointer lies in memory;
/// the opcode is known; `halt` stops at once; the operand words lie in
/// memory; every operand decodes; then the opcode's own effect, which may
/// still fault (empty stack, zero divisor, address outside memory).
pub open spec fn next(m: Machine, input: Seq<u8>) -> Transition {
    if m.ip < 0 || m.ip >= m.memory.len() {
        faulted(m, input, Fault::OutOfBounds)
    } else if !is_opcode(opcode(m)) {
        faulted(m, input, Fault::UnknownOpcode)
    } else if opcode(m) == 0 {
        Transition { step: Step::Halted, machine: m, input }
    } else if m.ip + arity_of(opcode(m)) >= m.memory.len() {
        faulted(m, input, Fault::OutOfBounds)
    } else if !operands_ok(m, opcode(m)) {
        faulted(m, input, Fault::InvalidOperand)
    } else {
        execute(m, opcode(m), input)
    }
}

/// How a bounded run ended.
#[derive(Clone, Copy, Debug, PartialEq, Eq, Structural)]
pub enum Outcome {
    /// `halt` ran: success.
    Halted,
    /// The run stopped on a fault, at the instruction the state's IP names.
    Faulted(Fault),
    /// `in` needs a character and none is buffered; the run can go on once a
    /// line has been supplied.
    NeedInput,
    /// The step budget ran out while the machine was still running; the run
    /// can go on with a new budget.
    Paused,
}

/// The result of running up to a number of steps: how it ended, the
/// machine and the buffered input at that point, and every character emitted.
pub struct Run {
    pub outcome: Outcome,
    pub machine: Machine,
    pub input: Seq<u8>,
    pub output: Seq<u8>,
}

/// Runs `m` for at most `fuel` steps, stopping early on halt, fault, or a
/// need for input.
pub open spec fn run(m: Machine, input: Seq<u8>, fuel: nat) -> Run
    decreases fuel,
{
    if fuel == 0 {
        Run { outcome: Outcome::Paused, machine: m, input, output: Seq::empty() }
    } else {
        let t = next(m, input);
        match t.step {
            Step::Running => run(t.machine, t.input, (fuel - 1) as nat),
            Step::Output(c) => {
                let rest = run(t.machine, t.input, (fuel - 1) as nat);
                Run { output: seq![c] + rest.output, ..rest }
            },
            Step::NeedInput => Run {
                outcome: Outcome::NeedInput,
                machine: t.machine,
                input: t.input,
                output: Seq::empty(),
            },
            Step::Halted => Run {
                outcome: Outcome::Halted,
                machine: t.machine,
                input: t.input,
                output: Seq::empty(),
            },
            Step::Faulted(f) => Run {
                outcome: Outcome::Faulted(f),
                machine: t.machine,
                input: t.input,
                output: Seq::empty(),
            },
        }
    }
}

} // verus!

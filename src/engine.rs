//! The execution engine: one verified fetch-decode-execute step.

use vstd::prelude::*;

use crate::decode::{Fault, arity, arity_of, resolve_operand, resolve_register};
use crate::input::LineBuffer;
use crate::machine::State;
use crate::semantics::{
    Outcome, run, Step, Transition, WORD_MASK, WORD_MAX, WORD_MODULUS, dst, dst_ok, next, opcode,
    src_ok, val,
};

verus! {

impl State {
    /// Operand `k` of the current instruction, as a source.
    fn source(&self, k: usize) -> (r: Result<u16, Fault>)
        requires
            self.ip + k < self.memory.len(),
        ensures
            src_ok(self@, k as int) ==> r == Ok::<u16, Fault>(val(self@, k as int)),
            !src_ok(self@, k as int) ==> r == Err::<u16, Fault>(Fault::InvalidOperand),
    {
        resolve_operand(self, self.memory[self.ip + k])
    }

    /// Operand `k` of the current instruction, as a destination register.
    fn dest(&self, k: usize) -> (r: Result<usize, Fault>)
        requires
            self.ip + k < self.memory.len(),
        ensures
            dst_ok(self@, k as int) ==> r == Ok::<usize, Fault>(dst(self@, k as int) as usize),
            !dst_ok(self@, k as int) ==> r == Err::<usize, Fault>(Fault::InvalidOperand),
    {
        resolve_register(self.memory[self.ip + k])
    }

    /// A destination and a source operand.
    fn dest_source(&self) -> (r: Result<(usize, u16), Fault>)
        requires
            self.ip + 2 < self.memory@.len(),
        ensures
            dst_ok(self@, 1) && src_ok(self@, 2) ==> r == Ok::<(usize, u16), Fault>(
                (dst(self@, 1) as usize, val(self@, 2)),
            ),
            !(dst_ok(self@, 1) && src_ok(self@, 2)) ==> r == Err::<(usize, u16), Fault>(
                Fault::InvalidOperand,
            ),
    {
        match self.dest(1) {
            Err(f) => Err(f),
            Ok(a) => match self.source(2) {
                Err(f) => Err(f),
                Ok(b) => Ok((a, b)),
            },
        }
    }

    /// A destination and two source operands.
    fn dest_source_source(&self) -> (r: Result<(usize, u16, u16), Fault>)
        requires
            self.ip + 3 < self.memory@.len(),
        ensures
            dst_ok(self@, 1) && src_ok(self@, 2) && src_ok(self@, 3) ==> r == Ok::<
                (usize, u16, u16),
                Fault,
            >((dst(self@, 1) as usize, val(self@, 2), val(self@, 3))),
            !(dst_ok(self@, 1) && src_ok(self@, 2) && src_ok(self@, 3)) ==> r == Err::<
                (usize, u16, u16),
                Fault,
            >(Fault::InvalidOperand),
    {
        match self.dest_source() {
            Err(f) => Err(f),
            Ok((a, b)) => match self.source(3) {
                Err(f) => Err(f),
                Ok(c) => Ok((a, b, c)),
            },
        }
    }

    /// Two source operands.
    fn source_source(&self) -> (r: Result<(u16, u16), Fault>)
        requires
            self.ip + 2 < self.memory@.len(),
        ensures
            src_ok(self@, 1) && src_ok(self@, 2) ==> r == Ok::<(u16, u16), Fault>(
                (val(self@, 1), val(self@, 2)),
            ),
            !(src_ok(self@, 1) && src_ok(self@, 2)) ==> r == Err::<(u16, u16), Fault>(
                Fault::InvalidOperand,
            ),
    {
        match self.source(1) {
            Err(f) => Err(f),
            Ok(a) => match self.source(2) {
                Err(f) => Err(f),
                Ok(b) => Ok((a, b)),
            },
        }
    }

    /// Sets register `a` to `v` and moves on to `next_ip`.
    fn write_register(&mut self, a: usize, v: u16, next_ip: usize)
        requires
            a < 8,
        ensures
            final(self)@.registers == old(self)@.registers.update(a as int, v),
            final(self)@.memory == old(self)@.memory,
            final(self)@.stack == old(self)@.stack,
            final(self)@.ip == next_ip,
    {
        self.registers[a] = v;
        self.ip = next_ip;
    }

    /// Runs the opcodes that only compute a register value from operands.
    fn execute_compute(&mut self, op: u16, next_ip: usize) -> (r: Step)
        requires
            op == 1 || op == 4 || op == 5 || (9 <= op <= 14),
            0 <= old(self)@.ip < old(self)@.memory.len(),
            opcode(old(self)@) == op,
            old(self)@.ip + arity_of(op) < old(self)@.memory.len(),
            next_ip == old(self)@.ip + 1 + arity_of(op),
        ensures
            ({
                let t = next(old(self)@, Seq::<u8>::empty());
                t.step == r && t.machine == final(self)@
            }),
    {
        if op == 1 || op == 14 {
            match self.dest_source() {
                Err(f) => Step::Faulted(f),
                Ok((a, b)) => {
                    let v = if op == 1 {
                        b
                    } else {
                        !b & WORD_MASK
                    };
                    self.write_register(a, v, next_ip);
                    Step::Running
                },
            }
        } else {
            match self.dest_source_source() {
                Err(f) => Step::Faulted(f),
                Ok((a, b, c)) => {
                    if op == 11 && c == 0 {
                        return Step::Faulted(Fault::DivisionByZero);
                    }
                    let v: u16 = if op == 4 {
                        if b == c {
                            1
                        } else {
                            0
                        }
                    } else if op == 5 {
                        if b > c {
                            1
                        } else {
                            0
                        }
                    } else if op == 9 {
                        ((b as u32 + c as u32) % WORD_MODULUS) as u16
                    } else if op == 10 {
                        assert((b as u32) * (c as u32) <= 65535 * 65535) by (nonlinear_arith)
                            requires
                                b <= 65535,
                                c <= 65535,
                        ;
                        (((b as u32) * (c as u32)) % WORD_MODULUS) as u16
                    } else if op == 11 {
                        b % c
                    } else if op == 12 {
                        b & c & WORD_MASK
                    } else {
                        (b | c) & WORD_MASK
                    };
                    self.write_register(a, v, next_ip);
                    Step::Running
                },
            }
        }
    }

    /// Runs the opcodes that move data through the stack or memory, jump,
    /// or exchange characters with the outside.
    fn execute_flow(&mut self, op: u16, next_ip: usize, input: &mut LineBuffer) -> (r: Step)
        requires
            op == 2 || op == 3 || (6 <= op <= 8) || (15 <= op <= 21),
            old(input).wf(),
            0 <= old(self)@.ip < old(self)@.memory.len(),
            opcode(old(self)@) == op,
            old(self)@.ip + arity_of(op) < old(self)@.memory.len(),
            next_ip == old(self)@.ip + 1 + arity_of(op),
        ensures
            final(input).wf(),
            next(old(self)@, old(input).view()) == (Transition {
                step: r,
                machine: final(self)@,
                input: final(input).view(),
            }),
    {
        if op == 2 {
            match self.source(1) {
                Err(f) => Step::Faulted(f),
                Ok(a) => {
                    self.stack.push(a);
                    self.ip = next_ip;
                    Step::Running
                },
            }
        } else if op == 3 {
            match self.dest(1) {
                Err(f) => Step::Faulted(f),
                Ok(a) => match self.stack.pop() {
                    None => Step::Faulted(Fault::StackUnderflow),
                    Some(v) => {
                        self.write_register(a, v, next_ip);
                        Step::Running
                    },
                },
            }
        } else if op == 6 || op == 17 {
            match self.source(1) {
                Err(f) => Step::Faulted(f),
                Ok(a) => {
                    if op == 17 {
                        if self.ip > (WORD_MAX - 2) as usize {
                            return Step::Faulted(Fault::OutOfBounds);
                        }
                        self.stack.push((self.ip + 2) as u16);
                    }
                    self.ip = a as usize;
                    Step::Running
                },
            }
        } else if op == 7 || op == 8 {
            match self.source_source() {
                Err(f) => Step::Faulted(f),
                Ok((a, b)) => {
                    if (op == 7 && a != 0) || (op == 8 && a == 0) {
                        self.ip = b as usize;
                    } else {
                        self.ip = next_ip;
                    }
                    Step::Running
                },
            }
        } else if op == 15 {
            match self.dest_source() {
                Err(f) => Step::Faulted(f),
                Ok((a, b)) => {
                    if b as usize >= self.memory.len() {
                        return Step::Faulted(Fault::OutOfBounds);
                    }
                    let v = self.memory[b as usize];
                    self.write_register(a, v, next_ip);
                    Step::Running
                },
            }
        } else if op == 16 {
            match self.source_source() {
                Err(f) => Step::Faulted(f),
                Ok((a, b)) => {
                    if a as usize >= self.memory.len() {
                        return Step::Faulted(Fault::OutOfBounds);
                    }
                    self.memory[a as usize] = b;
                    self.ip = next_ip;
                    Step::Running
                },
            }
        } else if op == 18 {
            match self.stack.pop() {
                None => Step::Faulted(Fault::StackUnderflow),
                Some(t) => {
                    self.ip = t as usize;
                    Step::Running
                },
            }
        } else if op == 19 {
            match self.source(1) {
                Err(f) => Step::Faulted(f),
                Ok(a) => {
                    self.ip = next_ip;
                    Step::Output((a % 256) as u8)
                },
            }
        } else if op == 20 {
            match self.dest(1) {
                Err(f) => Step::Faulted(f),
                Ok(a) => match input.next_byte() {
                    None => Step::NeedInput,
                    Some(c) => {
                        self.write_register(a, c as u16, next_ip);
                        Step::Running
                    },
                },
            }
        } else {
            self.ip = next_ip;
            Step::Running
        }
    }

    /// Executes the instruction at the instruction pointer, reading from
    /// `input` if it is `in`.
    ///
    /// The result and the new machine are exactly those that `next` gives.
    /// On `Faulted`, `Halted` and `NeedInput` nothing changes.
    pub fn step(&mut self, input: &mut LineBuffer) -> (r: Step)
        requires
            old(input).wf(),
        ensures
            final(input).wf(),
            next(old(self)@, old(input).view()) == (Transition {
                step: r,
                machine: final(self)@,
                input: final(input).view(),
            }),
    {
        let len = self.memory.len();
        if self.ip >= len {
            return Step::Faulted(Fault::OutOfBounds);
        }
        let op = self.memory[self.ip];
        let n = match arity(op) {
            Ok(n) => n,
            Err(f) => return Step::Faulted(f),
        };
        if op == 0 {
            return Step::Halted;
        }
        if n >= len - self.ip {
            return Step::Faulted(Fault::OutOfBounds);
        }
        let next_ip = self.ip + 1 + n;
        if op == 1 || op == 4 || op == 5 || (9 <= op && op <= 14) {
            self.execute_compute(op, next_ip)
        } else {
            self.execute_flow(op, next_ip, input)
        }
    }
}

/// Runs `state` for at most `fuel` steps, appending every emitted character
/// to `output`, and reports how the run ended.
///
/// The run stops early on `halt`, on a fault, or when `in` finds no buffered
/// input; after `Paused` or `NeedInput` it can be continued by another call.
pub fn exec_program(
    state: &mut State,
    input: &mut LineBuffer,
    output: &mut Vec<u8>,
    fuel: u64,
) -> (r: Outcome)
    requires
        old(input).wf(),
    ensures
        final(input).wf(),
        ({
            let expected = run(old(state)@, old(input).view(), fuel as nat);
            &&& r == expected.outcome
            &&& final(state)@ == expected.machine
            &&& final(input).view() == expected.input
            &&& final(output)@ == old(output)@ + expected.output
        }),
{
    let ghost whole = run(state@, input.view(), fuel as nat);
    let ghost before = output@;
    let mut left: u64 = fuel;
    loop
        invariant
            input.wf(),
            whole == run(old(state)@, old(input).view(), fuel as nat),
            before == old(output)@,
            ({
                let rest = run(state@, input.view(), left as nat);
                &&& whole.outcome == rest.outcome
                &&& whole.machine == rest.machine
                &&& whole.input == rest.input
                &&& before + whole.output == output@ + rest.output
            }),
        decreases left,
    {
        if left == 0 {
            assert(output@ + Seq::<u8>::empty() =~= output@);
            return Outcome::Paused;
        }
        let step = state.step(input);
        left = left - 1;
        match step {
            Step::Running => {},
            Step::Output(c) => {
                let ghost rest = run(state@, input.view(), left as nat);
                output.push(c);
                assert(output@ + rest.output =~= (output@.drop_last()) + (seq![c] + rest.output));
            },
            Step::NeedInput => {
                assert(output@ + Seq::<u8>::empty() =~= output@);
                return Outcome::NeedInput;
            },
            Step::Halted => {
                assert(output@ + Seq::<u8>::empty() =~= output@);
                return Outcome::Halted;
            },
            Step::Faulted(f) => {
                assert(output@ + Seq::<u8>::empty() =~= output@);
                return Outcome::Faulted(f);
            },
        }
    }
}

} // verus!

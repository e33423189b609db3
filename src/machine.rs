//! The word store: memory, register file, stack and instruction pointer.

use vstd::prelude::*;

verus! {

/// The abstract machine: what a `State` holds, as mathematical values.
pub struct Machine {
    pub memory: Seq<u16>,
    pub registers: Seq<u16>,
    pub stack: Seq<u16>,
    pub ip: int,
}

/// The state of one run of the virtual machine.
pub struct State {
    /// The program image, one word per address; its length never changes.
    pub memory: Vec<u16>,
    /// The eight registers.
    pub registers: [u16; 8],
    /// The call / argument stack; its last element is the top.
    pub stack: Vec<u16>,
    /// Address of the next instruction.
    pub ip: usize,
}

impl View for State {
    type V = Machine;

    open spec fn view(&self) -> Machine {
        Machine {
            memory: self.memory@,
            registers: self.registers@,
            stack: self.stack@,
            ip: self.ip as int,
        }
    }
}

impl State {
    /// An empty machine: no memory, all registers zero, empty stack, IP at 0.
    pub fn new() -> (r: Self)
        ensures
            r@.memory == Seq::<u16>::empty(),
            r@.registers == Seq::new(8, |i: int| 0u16),
            r@.stack == Seq::<u16>::empty(),
            r@.ip == 0,
    {
        let r = State { memory: Vec::new(), registers: [0, 0, 0, 0, 0, 0, 0, 0], stack: Vec::new(), ip: 0 };
        assert(r@.registers =~= Seq::new(8, |i: int| 0u16));
        r
    }

    /// A machine whose memory is `program`, with everything else as in `new`.
    pub fn new_from_program(program: &[u16]) -> (r: Self)
        ensures
            r@.memory == program@,
            r@.registers == Seq::new(8, |i: int| 0u16),
            r@.stack == Seq::<u16>::empty(),
            r@.ip == 0,
    {
        let mut result = State::new();
        result.memory = vstd::slice::slice_to_vec(program);
        result
    }
}

} // verus!

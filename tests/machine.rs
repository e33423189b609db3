use word_vm::decode::{arity, resolve_operand, resolve_register, Fault};
use word_vm::engine::exec_program;
use word_vm::image::{load_image, words_from_image, ImageError};
use word_vm::input::LineBuffer;
use word_vm::machine::State;
use word_vm::semantics::{Outcome, Step};

fn run_words(words: &[u16], fuel: u64) -> (Outcome, State, Vec<u8>) {
    let mut state = State::new_from_program(words);
    let mut input = LineBuffer::new();
    let mut output: Vec<u8> = Vec::new();
    let outcome = exec_program(&mut state, &mut input, &mut output, fuel);
    (outcome, state, output)
}

#[test]
fn run_test() {
    let mut state = State::new_from_program(&[0]);
    let mut input = LineBuffer::new();
    let mut output: Vec<u8> = Vec::new();
    assert_eq!(exec_program(&mut state, &mut input, &mut output, 1000), Outcome::Halted);

    let mut state: State = State::new_from_program(&[19, 72, 19, 145, 19, 154, 19, 154, 19, 157, 0]);
    let mut output: Vec<u8> = Vec::new();
    assert_eq!(exec_program(&mut state, &mut input, &mut output, 1000), Outcome::Halted);

    let mut state: State = State::new_from_program(&[9, 32768, 32769, 4, 19, 32768, 0]);
    state.registers[1] = 60;
    let mut output: Vec<u8> = Vec::new();
    assert_eq!(exec_program(&mut state, &mut input, &mut output, 1000), Outcome::Halted);
    assert_eq!(state.registers[0], 64);
}

#[test]
fn new_state_is_empty() {
    let state = State::new();
    assert!(state.memory.is_empty());
    assert_eq!(state.registers, [0; 8]);
    assert!(state.stack.is_empty());
    assert_eq!(state.ip, 0);
}

#[test]
fn hello_program_prints_hello() {
    let (outcome, _, output) = run_words(&[19, 72, 19, 101, 19, 108, 19, 108, 19, 111, 0], 1000);
    assert_eq!(outcome, Outcome::Halted);
    assert_eq!(output, b"Hello".to_vec());
}

#[test]
fn add_with_preloaded_register_emits_64() {
    let mut state = State::new_from_program(&[9, 32768, 32769, 4, 19, 32768, 0]);
    state.registers[1] = 60;
    let mut input = LineBuffer::new();
    let mut output: Vec<u8> = Vec::new();
    assert_eq!(exec_program(&mut state, &mut input, &mut output, 1000), Outcome::Halted);
    assert_eq!(output, vec![64]);
    assert_eq!(state.registers[0], 64);
}

#[test]
fn bare_halt_has_no_side_effects() {
    let (outcome, state, output) = run_words(&[0], 1000);
    assert_eq!(outcome, Outcome::Halted);
    assert!(output.is_empty());
    assert_eq!(state.registers, [0; 8]);
    assert!(state.stack.is_empty());
    assert_eq!(state.ip, 0);
}

#[test]
fn halt_ignores_other_state() {
    let mut state = State::new_from_program(&[0, 40000, 22]);
    state.registers = [1, 2, 3, 4, 5, 6, 7, 8];
    state.stack = vec![9, 10];
    let mut input = LineBuffer::new();
    input.push_line(b"x\n");
    let mut output: Vec<u8> = Vec::new();
    assert_eq!(state.step(&mut input), Step::Halted);
    assert_eq!(exec_program(&mut state, &mut input, &mut output, 5), Outcome::Halted);
    assert_eq!(state.registers, [1, 2, 3, 4, 5, 6, 7, 8]);
    assert_eq!(state.stack, vec![9, 10]);
    assert_eq!(state.ip, 0);
    assert!(output.is_empty());
}

#[test]
fn add_wraps_around() {
    let (outcome, state, _) = run_words(&[9, 32768, 32767, 2, 0], 1000);
    assert_eq!(outcome, Outcome::Halted);
    assert_eq!(state.registers[0], 1);
}

#[test]
fn mult_wraps_around() {
    let (outcome, state, _) = run_words(&[10, 32768, 32767, 3, 0], 1000);
    assert_eq!(outcome, Outcome::Halted);
    assert_eq!(state.registers[0], 32765);
}

#[test]
fn mod_gives_remainder() {
    let (outcome, state, _) = run_words(&[11, 32769, 17, 5, 0], 1000);
    assert_eq!(outcome, Outcome::Halted);
    assert_eq!(state.registers[1], 2);
}

#[test]
fn mod_by_zero_faults() {
    let (outcome, state, _) = run_words(&[11, 32769, 17, 0, 0], 1000);
    assert_eq!(outcome, Outcome::Faulted(Fault::DivisionByZero));
    assert_eq!(state.ip, 0);
    assert_eq!(state.registers, [0; 8]);
}

#[test]
fn bitwise_results_are_masked() {
    let mut state = State::new_from_program(&[14, 32768, 0, 12, 32769, 32769, 32769, 13, 32770, 16384, 3, 0]);
    state.registers[1] = 65535;
    let mut input = LineBuffer::new();
    let mut output: Vec<u8> = Vec::new();
    assert_eq!(exec_program(&mut state, &mut input, &mut output, 1000), Outcome::Halted);
    assert_eq!(state.registers[0], 32767);
    assert_eq!(state.registers[1], 32767);
    assert_eq!(state.registers[2], 16387);
}

#[test]
fn not_of_value_complements_fifteen_bits() {
    let (_, state, _) = run_words(&[14, 32768, 21845, 0], 1000);
    assert_eq!(state.registers[0], 10922);
}

#[test]
fn comparisons_give_flags() {
    let (outcome, state, _) = run_words(
        &[4, 32768, 5, 5, 4, 32769, 5, 6, 5, 32770, 3, 5, 5, 32771, 5, 3, 0],
        1000,
    );
    assert_eq!(outcome, Outcome::Halted);
    assert_eq!(state.registers[0], 1);
    assert_eq!(state.registers[1], 0);
    assert_eq!(state.registers[2], 0);
    assert_eq!(state.registers[3], 1);
}

#[test]
fn call_then_ret_returns_after_call() {
    let (outcome, state, output) = run_words(&[17, 4, 0, 0, 19, 65, 18], 1000);
    assert_eq!(outcome, Outcome::Halted);
    assert_eq!(output, b"A".to_vec());
    assert_eq!(state.ip, 2);
    assert!(state.stack.is_empty());
}

#[test]
fn call_pushes_return_address() {
    let mut state = State::new_from_program(&[21, 17, 5, 0, 0, 0]);
    let mut input = LineBuffer::new();
    assert_eq!(state.step(&mut input), Step::Running);
    assert_eq!(state.ip, 1);
    assert_eq!(state.step(&mut input), Step::Running);
    assert_eq!(state.ip, 5);
    assert_eq!(state.stack, vec![3]);
}

#[test]
fn invalid_operand_faults_without_change() {
    let mut state = State::new_from_program(&[1, 32768, 40000, 0]);
    state.registers[0] = 7;
    let mut input = LineBuffer::new();
    assert_eq!(state.step(&mut input), Step::Faulted(Fault::InvalidOperand));
    assert_eq!(state.ip, 0);
    assert_eq!(state.registers, [7, 0, 0, 0, 0, 0, 0, 0]);
    assert_eq!(state.memory, vec![1, 32768, 40000, 0]);
}

#[test]
fn invalid_operand_in_push_leaves_stack() {
    let (outcome, state, _) = run_words(&[2, 40000, 0], 1000);
    assert_eq!(outcome, Outcome::Faulted(Fault::InvalidOperand));
    assert!(state.stack.is_empty());
}

#[test]
fn literal_destination_is_invalid() {
    let (outcome, state, _) = run_words(&[1, 5, 3, 0], 1000);
    assert_eq!(outcome, Outcome::Faulted(Fault::InvalidOperand));
    assert_eq!(state.registers, [0; 8]);
}

#[test]
fn pop_on_empty_stack_underflows() {
    let mut state = State::new_from_program(&[3, 32770, 0]);
    state.registers[2] = 11;
    let mut input = LineBuffer::new();
    assert_eq!(state.step(&mut input), Step::Faulted(Fault::StackUnderflow));
    assert_eq!(state.registers, [0, 0, 11, 0, 0, 0, 0, 0]);
    assert_eq!(state.ip, 0);
}

#[test]
fn ret_on_empty_stack_underflows() {
    let (outcome, state, _) = run_words(&[18], 1000);
    assert_eq!(outcome, Outcome::Faulted(Fault::StackUnderflow));
    assert_eq!(state.registers, [0; 8]);
    assert_eq!(state.ip, 0);
}

#[test]
fn push_then_pop_moves_value() {
    let (outcome, state, _) = run_words(&[2, 1234, 2, 99, 3, 32768, 3, 32769, 0], 1000);
    assert_eq!(outcome, Outcome::Halted);
    assert_eq!(state.registers[0], 99);
    assert_eq!(state.registers[1], 1234);
    assert!(state.stack.is_empty());
}

#[test]
fn unknown_opcode_faults() {
    let (outcome, state, _) = run_words(&[21, 22], 1000);
    assert_eq!(outcome, Outcome::Faulted(Fault::UnknownOpcode));
    assert_eq!(state.ip, 1);
}

#[test]
fn running_off_the_end_faults() {
    let (outcome, state, _) = run_words(&[21, 21], 1000);
    assert_eq!(outcome, Outcome::Faulted(Fault::OutOfBounds));
    assert_eq!(state.ip, 2);
}

#[test]
fn truncated_instruction_faults() {
    let (outcome, state, output) = run_words(&[19], 1000);
    assert_eq!(outcome, Outcome::Faulted(Fault::OutOfBounds));
    assert_eq!(state.ip, 0);
    assert!(output.is_empty());
}

#[test]
fn jumps_follow_conditions() {
    let (outcome, _, output) = run_words(
        &[6, 3, 0, 7, 0, 0, 7, 1, 10, 0, 8, 1, 0, 8, 0, 17, 0, 19, 66, 0],
        1000,
    );
    assert_eq!(outcome, Outcome::Halted);
    assert_eq!(output, b"B".to_vec());
}

#[test]
fn memory_read_and_write() {
    let (outcome, state, _) = run_words(&[16, 7, 500, 15, 32768, 7, 0, 0], 1000);
    assert_eq!(outcome, Outcome::Halted);
    assert_eq!(state.memory[7], 500);
    assert_eq!(state.registers[0], 500);
}

#[test]
fn memory_read_out_of_bounds_faults() {
    let (outcome, state, _) = run_words(&[15, 32768, 100, 0], 1000);
    assert_eq!(outcome, Outcome::Faulted(Fault::OutOfBounds));
    assert_eq!(state.ip, 0);
}

#[test]
fn memory_write_out_of_bounds_faults() {
    let (outcome, state, _) = run_words(&[16, 100, 5, 0], 1000);
    assert_eq!(outcome, Outcome::Faulted(Fault::OutOfBounds));
    assert_eq!(state.memory, vec![16, 100, 5, 0]);
}

#[test]
fn out_emits_low_byte() {
    let (_, _, output) = run_words(&[19, 32768, 0], 1000);
    assert_eq!(output, vec![0]);
    let mut state = State::new_from_program(&[19, 32768, 0]);
    state.registers[0] = 0x7141;
    let mut input = LineBuffer::new();
    assert_eq!(state.step(&mut input), Step::Output(0x41));
    assert_eq!(state.ip, 2);
}

#[test]
fn input_is_read_line_by_line() {
    let program = [20, 32768, 19, 32768, 20, 32768, 19, 32768, 0];
    let mut state = State::new_from_program(&program);
    let mut input = LineBuffer::new();
    let mut output: Vec<u8> = Vec::new();
    assert_eq!(exec_program(&mut state, &mut input, &mut output, 1000), Outcome::NeedInput);
    assert_eq!(state.ip, 0);
    input.push_line(b"h\n");
    assert_eq!(exec_program(&mut state, &mut input, &mut output, 1000), Outcome::Halted);
    assert_eq!(output, b"h\n".to_vec());
    assert_eq!(state.registers[0], 10);
    assert!(input.is_empty());
}

#[test]
fn input_waits_when_buffer_empties() {
    let program = [20, 32768, 20, 32769, 0];
    let mut state = State::new_from_program(&program);
    let mut input = LineBuffer::new();
    input.push_line(b"a");
    let mut output: Vec<u8> = Vec::new();
    assert_eq!(exec_program(&mut state, &mut input, &mut output, 1000), Outcome::NeedInput);
    assert_eq!(state.ip, 2);
    assert_eq!(state.registers[0], 97);
}

#[test]
fn line_buffer_hands_out_in_order() {
    let mut input = LineBuffer::new();
    assert!(input.is_empty());
    assert_eq!(input.next_byte(), None);
    input.push_line(b"ab");
    input.push_line(b"c\n");
    assert_eq!(input.next_byte(), Some(b'a'));
    assert_eq!(input.next_byte(), Some(b'b'));
    assert_eq!(input.next_byte(), Some(b'c'));
    assert_eq!(input.next_byte(), Some(b'\n'));
    assert_eq!(input.next_byte(), None);
    assert!(input.is_empty());
}

#[test]
fn endless_loop_pauses_and_resumes() {
    let mut state = State::new_from_program(&[21, 6, 0]);
    let mut input = LineBuffer::new();
    let mut output: Vec<u8> = Vec::new();
    assert_eq!(exec_program(&mut state, &mut input, &mut output, 101), Outcome::Paused);
    assert_eq!(state.ip, 1);
    assert_eq!(exec_program(&mut state, &mut input, &mut output, 1), Outcome::Paused);
    assert_eq!(state.ip, 0);
    assert_eq!(exec_program(&mut state, &mut input, &mut output, 0), Outcome::Paused);
    assert_eq!(state.ip, 0);
}

#[test]
fn set_copies_register() {
    let (outcome, state, _) = run_words(&[1, 32769, 300, 1, 32775, 32769, 0], 1000);
    assert_eq!(outcome, Outcome::Halted);
    assert_eq!(state.registers[1], 300);
    assert_eq!(state.registers[7], 300);
}

#[test]
fn noop_advances() {
    let mut state = State::new_from_program(&[21, 0]);
    let mut input = LineBuffer::new();
    assert_eq!(state.step(&mut input), Step::Running);
    assert_eq!(state.ip, 1);
}

#[test]
fn odd_image_is_unaligned() {
    assert_eq!(words_from_image(&[1, 2, 3]).err(), Some(ImageError::UnalignedProgram));
    assert!(load_image(&[0]).is_err());
}

#[test]
fn image_words_are_little_endian() {
    assert_eq!(words_from_image(&[0x13, 0x00, 0x41, 0x00, 0x00, 0x80]).ok(), Some(vec![19, 65, 32768]));
    assert_eq!(words_from_image(&[]).ok(), Some(vec![]));
    let mut state = load_image(&[0x13, 0x00, 0x48, 0x00, 0x00, 0x00]).ok().unwrap();
    let mut input = LineBuffer::new();
    let mut output: Vec<u8> = Vec::new();
    assert_eq!(exec_program(&mut state, &mut input, &mut output, 10), Outcome::Halted);
    assert_eq!(output, b"H".to_vec());
}

#[test]
fn arity_table_covers_opcodes() {
    let expected = [0, 2, 1, 1, 3, 3, 1, 2, 2, 3, 3, 3, 3, 3, 2, 2, 2, 1, 0, 1, 1, 0];
    for op in 0..22u16 {
        assert_eq!(arity(op), Ok(expected[op as usize]));
    }
    assert_eq!(arity(22), Err(Fault::UnknownOpcode));
    assert_eq!(arity(65535), Err(Fault::UnknownOpcode));
}

#[test]
fn operands_resolve() {
    assert_eq!(resolve_register(32768), Ok(0));
    assert_eq!(resolve_register(32775), Ok(7));
    assert_eq!(resolve_register(32776), Err(Fault::InvalidOperand));
    assert_eq!(resolve_register(5), Err(Fault::InvalidOperand));
    let mut state = State::new();
    state.registers[3] = 42;
    assert_eq!(resolve_operand(&state, 32767), Ok(32767));
    assert_eq!(resolve_operand(&state, 32771), Ok(42));
    assert_eq!(resolve_operand(&state, 40000), Err(Fault::InvalidOperand));
}

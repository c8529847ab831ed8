use brainfuck::interpreter::{Options, VM};
use brainfuck::semantics::{ChangeMode, RunStatus, VmFault};

fn run_to_end(vm: &mut VM) -> RunStatus {
    vm.run(1_000_000)
}

#[test]
fn cell_wraps_add_at_255() {
    let mut vm = VM::new(Vec::new(), 1, 0, Vec::new());
    vm.tape_change(ChangeMode::SetTo(255));
    vm.tape_change(ChangeMode::Add(1));
    assert_eq!(vm.tape[vm.data_ptr], 0);
    vm.tape_change(ChangeMode::Add(1));
    assert_eq!(vm.tape[vm.data_ptr], 1);
}

#[test]
fn cell_wraps_sub_at_0() {
    let mut vm = VM::new(Vec::new(), 1, 0, Vec::new());
    vm.tape_change(ChangeMode::Sub(1));
    assert_eq!(vm.tape[vm.data_ptr], 255);
    vm.tape_change(ChangeMode::Sub(1));
    assert_eq!(vm.tape[vm.data_ptr], 254);
}

#[test]
fn data_ptr_wraps_to_start() {
    // Tape: storage + empty code + 3 data cells at indices 1..=3.
    let mut vm = VM::new(Vec::new(), 3, 0, Vec::new());
    assert_eq!(vm.data_ptr, 1);
    vm.data_ptr_change(ChangeMode::Add(2));
    assert_eq!(vm.data_ptr, 3);
    vm.data_ptr_change(ChangeMode::Add(1));
    assert_eq!(vm.data_ptr, vm.data_start);
    vm.data_ptr_change(ChangeMode::Add(7));
    assert_eq!(vm.data_ptr, vm.data_start);
}

#[test]
fn data_ptr_wraps_to_end() {
    let mut vm = VM::new(Vec::new(), 3, 0, Vec::new());
    assert_eq!(vm.data_ptr, vm.data_start);
    vm.data_ptr_change(ChangeMode::Sub(1));
    assert_eq!(vm.data_ptr, vm.tape.len() - 1);
    vm.data_ptr_change(ChangeMode::Sub(7));
    assert_eq!(vm.data_ptr, vm.tape.len() - 1);
}

#[test]
fn data_ptr_set_out_of_range_is_noop() {
    // Code region occupies indices 1..=3, data region 4..=5.
    let mut vm = VM::new(vec![43, 43, 43], 2, 0, Vec::new());
    assert_eq!(vm.data_start, 4);
    assert_eq!(vm.data_ptr, 4);
    vm.data_ptr_change(ChangeMode::SetTo(2));  // inside the code region
    assert_eq!(vm.data_ptr, 4);
    vm.data_ptr_change(ChangeMode::SetTo(0));  // the storage cell
    assert_eq!(vm.data_ptr, 4);
    vm.data_ptr_change(ChangeMode::SetTo(6));  // past the end of the tape
    assert_eq!(vm.data_ptr, 4);
    vm.data_ptr_change(ChangeMode::SetTo(5));  // in range: moves
    assert_eq!(vm.data_ptr, 5);
}

#[test]
fn loop_skip_zero_cell() {
    // "[-]" with the cell already 0: the forward scan lands on the matching
    // ']' and the step advances past it; the '-' never executes.
    let mut vm = VM::new(b"[-]".to_vec(), 2, 0, Vec::new());
    let status = run_to_end(&mut vm);
    assert_eq!(status, RunStatus::Halted);
    assert_eq!(vm.tape[vm.data_ptr], 0);
    assert_eq!(vm.code_ptr, 4);
}

#[test]
fn nested_brackets_forward() {
    // "[[-]-]" with the cell 0: the forward scan from the outer '[' must land
    // on the outer ']' (tape index 6), not the nearer inner one.
    let mut vm = VM::new(b"[[-]-]".to_vec(), 2, 0, Vec::new());
    let r = vm.step();
    assert!(r.is_ok());
    assert_eq!(vm.code_ptr, 7);
}

#[test]
fn nested_brackets_backward() {
    // "[[-]-]" with a nonzero cell: the backward scan from the outer ']' must
    // land on the outer '[' (tape index 1), not the nearer inner one.
    let mut vm = VM::new(b"[[-]-]".to_vec(), 2, 0, Vec::new());
    vm.tape_change(ChangeMode::SetTo(1));
    for expected_cp in [2, 3, 4, 5, 6] {
        let r = vm.step();
        assert!(r.is_ok());
        assert_eq!(vm.code_ptr, expected_cp);
    }
    // Sixth step: the outer ']' at index 6 with cell 255 jumps back to the
    // outer '[' at index 1, then advances to 2.
    let r = vm.step();
    assert!(r.is_ok());
    assert_eq!(vm.code_ptr, 2);
}

#[test]
fn extended_halt_precedence() {
    // With extend level 1 the '@' stops the run; the trailing "+++" never
    // executes and the cell stays at 3.
    let mut vm = VM::new(b"+++@+++".to_vec(), 1, 1, Vec::new());
    let status = run_to_end(&mut vm);
    assert_eq!(status, RunStatus::Halted);
    assert_eq!(vm.tape[vm.data_ptr], 3);
    assert!(!vm.running);
}

#[test]
fn end_to_end_multiplication() {
    // 8 * 8 computed in the adjacent cell, then written out: exactly one byte
    // with value 64 ('@').
    let mut vm = VM::new(b"++++++++[>++++++++<-]>.".to_vec(), 5, 0, Vec::new());
    let status = run_to_end(&mut vm);
    assert_eq!(status, RunStatus::Halted);
    assert_eq!(vm.output, vec![64]);
}

#[test]
fn echo_scenario() {
    // ",[.,]" fed 'A', 'B', '\n': echoes 'A' and 'B', then halts on the
    // newline read as 0.
    let mut vm = VM::new(b",[.,]".to_vec(), 2, 0, vec![65, 66, 10]);
    let status = run_to_end(&mut vm);
    assert_eq!(status, RunStatus::Halted);
    assert_eq!(vm.output, vec![65, 66]);
    assert_eq!(vm.input_pos, 3);
}

#[test]
fn unbalanced_forward_scan_faults() {
    let mut vm = VM::new(b"[".to_vec(), 1, 0, Vec::new());
    let status = run_to_end(&mut vm);
    assert_eq!(status, RunStatus::Fault(VmFault::UnbalancedBrackets));
    // The faulting step leaves the state as it was.
    assert_eq!(vm.code_ptr, 1);
    assert!(vm.running);
}

#[test]
fn unbalanced_backward_scan_faults() {
    let mut vm = VM::new(b"]".to_vec(), 1, 0, Vec::new());
    vm.tape_change(ChangeMode::SetTo(1));
    let status = run_to_end(&mut vm);
    assert_eq!(status, RunStatus::Fault(VmFault::UnbalancedBrackets));
    assert_eq!(vm.code_ptr, 1);
}

#[test]
fn read_with_no_input_faults() {
    let mut vm = VM::new(b",".to_vec(), 1, 0, Vec::new());
    let status = run_to_end(&mut vm);
    assert_eq!(status, RunStatus::Fault(VmFault::InputExhausted));
    assert_eq!(vm.code_ptr, 1);
}

#[test]
fn fault_recovers_when_input_arrives() {
    let mut vm = VM::new(b",".to_vec(), 1, 0, Vec::new());
    assert_eq!(run_to_end(&mut vm), RunStatus::Fault(VmFault::InputExhausted));
    vm.input.push(65);
    assert_eq!(run_to_end(&mut vm), RunStatus::Halted);
    assert_eq!(vm.tape[vm.data_ptr], 65);
}

#[test]
fn out_of_fuel_keeps_state() {
    let mut vm = VM::new(b"+".to_vec(), 1, 0, Vec::new());
    let status = vm.run(0);
    assert_eq!(status, RunStatus::OutOfFuel);
    assert_eq!(vm.code_ptr, 1);
    assert_eq!(vm.tape[vm.data_ptr], 0);
    // With fuel the same machine finishes.
    assert_eq!(vm.run(10), RunStatus::Halted);
    assert_eq!(vm.tape[vm.data_ptr], 1);
}

#[test]
fn newline_input_reads_as_zero() {
    let mut vm = VM::new(b",".to_vec(), 1, 0, vec![10]);
    assert_eq!(run_to_end(&mut vm), RunStatus::Halted);
    assert_eq!(vm.tape[vm.data_ptr], 0);
}

#[test]
fn plain_input_byte_is_stored() {
    let mut vm = VM::new(b",".to_vec(), 1, 0, vec![65]);
    assert_eq!(run_to_end(&mut vm), RunStatus::Halted);
    assert_eq!(vm.tape[vm.data_ptr], 65);
}

#[test]
fn output_writes_current_cell() {
    let mut vm = VM::new(b"++.".to_vec(), 1, 0, Vec::new());
    assert_eq!(run_to_end(&mut vm), RunStatus::Halted);
    assert_eq!(vm.output, vec![2]);
}

#[test]
fn storage_cell_roundtrip() {
    // '$' copies the cell to storage, '!' copies storage back.
    let mut vm = VM::new(b"+++$--!".to_vec(), 1, 1, Vec::new());
    assert_eq!(run_to_end(&mut vm), RunStatus::Halted);
    assert_eq!(vm.tape[0], 3);
    assert_eq!(vm.tape[vm.data_ptr], 3);
}

#[test]
fn shift_left_drops_high_bit() {
    let mut vm = VM::new(b"-{".to_vec(), 1, 1, Vec::new());
    assert_eq!(run_to_end(&mut vm), RunStatus::Halted);
    assert_eq!(vm.tape[vm.data_ptr], 254);
}

#[test]
fn shift_right_is_logical() {
    let mut vm = VM::new(b"+++}".to_vec(), 1, 1, Vec::new());
    assert_eq!(run_to_end(&mut vm), RunStatus::Halted);
    assert_eq!(vm.tape[vm.data_ptr], 1);
}

#[test]
fn complement_flips_all_bits() {
    let mut vm = VM::new(b"~".to_vec(), 1, 1, Vec::new());
    assert_eq!(run_to_end(&mut vm), RunStatus::Halted);
    assert_eq!(vm.tape[vm.data_ptr], 255);
}

#[test]
fn xor_with_storage() {
    let mut vm = VM::new(b"+++++$--^".to_vec(), 1, 1, Vec::new());
    assert_eq!(run_to_end(&mut vm), RunStatus::Halted);
    assert_eq!(vm.tape[vm.data_ptr], 3 ^ 5);
}

#[test]
fn and_with_storage() {
    let mut vm = VM::new(b"+++++$--&".to_vec(), 1, 1, Vec::new());
    assert_eq!(run_to_end(&mut vm), RunStatus::Halted);
    assert_eq!(vm.tape[vm.data_ptr], 3 & 5);
}

#[test]
fn or_with_storage() {
    let mut vm = VM::new(b"+++++$--|".to_vec(), 1, 1, Vec::new());
    assert_eq!(run_to_end(&mut vm), RunStatus::Halted);
    assert_eq!(vm.tape[vm.data_ptr], 3 | 5);
}

#[test]
fn extended_run_continues_into_data_region() {
    // Without '@' an extended program runs off the code region through the
    // zero-initialized data bytes (all no-ops) and halts at the tape's end.
    let mut vm = VM::new(b"++".to_vec(), 3, 1, Vec::new());
    assert_eq!(run_to_end(&mut vm), RunStatus::Halted);
    assert_eq!(vm.code_ptr, vm.tape.len());
    assert_eq!(vm.tape[vm.data_ptr], 2);
    assert!(vm.running);
}

#[test]
fn unknown_bytes_are_noops() {
    let mut vm = VM::new(b"xyz 7#".to_vec(), 2, 0, Vec::new());
    assert_eq!(run_to_end(&mut vm), RunStatus::Halted);
    assert_eq!(vm.tape[vm.data_ptr], 0);
    assert_eq!(vm.data_ptr, vm.data_start);
    assert_eq!(vm.output, Vec::<u8>::new());
}

#[test]
fn empty_program_halts() {
    let mut vm = VM::new(Vec::new(), 1, 0, Vec::new());
    assert_eq!(run_to_end(&mut vm), RunStatus::Halted);
    assert_eq!(vm.code_ptr, 2);
}

#[test]
fn tape_layout() {
    let vm = VM::new(vec![1, 2, 3], 2, 0, Vec::new());
    assert_eq!(vm.tape, vec![0, 1, 2, 3, 0, 0]);
    assert_eq!(vm.code_start, 1);
    assert_eq!(vm.code_ptr, 1);
    assert_eq!(vm.data_start, 4);
    assert_eq!(vm.data_ptr, 4);
    assert!(vm.running);
    assert_eq!(vm.extend, 0);
    assert_eq!(vm.output, Vec::<u8>::new());
}

#[test]
fn options_carry_configuration() {
    let options = Options {
        verbose: false,
        tape_dump: true,
        color: false,
        tape_length: 1000,
        filename: None,
        code: Some(String::from("+++.")),
        extend: 2,
    };
    assert_eq!(options.tape_length, 1000);
    assert!(options.tape_dump);
    assert_eq!(options.code.as_deref(), Some("+++."));
    assert_eq!(options.extend, 2);
}

#[test]
fn pointer_move_then_back() {
    // ">+<" leaves the second data cell at 1 and the pointer at the first.
    let mut vm = VM::new(b">+<".to_vec(), 3, 0, Vec::new());
    assert_eq!(run_to_end(&mut vm), RunStatus::Halted);
    assert_eq!(vm.data_ptr, vm.data_start);
    assert_eq!(vm.tape[vm.data_start + 1], 1);
}

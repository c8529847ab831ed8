//! The executable machine: tape construction, cell and pointer arithmetic,
//! bracket scanning, the dispatch step and the fuelled run loop, each proved
//! against the model in `semantics`.
use vstd::prelude::*;

use crate::semantics::ChangeMode;
use crate::semantics::RunStatus;
use crate::semantics::VmFault;
use crate::semantics::VmState;
use crate::semantics::bwd_match;
use crate::semantics::cell_after;
use crate::semantics::core_op;
use crate::semantics::dp_after;
use crate::semantics::ext_op;
use crate::semantics::fwd_match;
use crate::semantics::run_spec;
use crate::semantics::step_spec;
use crate::semantics::wrap_add8;
use crate::semantics::wrap_sub8;

verus! {

/// Run configuration as the surrounding program hands it over: where the
/// program text comes from, the data region length, the extend level, and the
/// presentation switches of the diagnostic dump.
pub struct Options {
    pub verbose: bool,
    pub tape_dump: bool,
    pub color: bool,
    pub tape_length: usize,
    pub filename: Option<String>,
    pub code: Option<String>,
    pub extend: u8,
}

/// The virtual machine: one contiguous tape holding the storage cell (index
/// 0), a copy of the program (the code region), and a zero-initialized data
/// region; the code and data pointers; the run flag and extend level; and the
/// input/output streams as plain byte vectors.
pub struct VM {
    pub program: Vec<u8>,
    pub tape: Vec<u8>,
    pub data_ptr: usize,
    pub code_ptr: usize,
    pub data_start: usize,
    pub code_start: usize,
    pub running: bool,
    pub extend: u8,
    pub input: Vec<u8>,
    pub input_pos: usize,
    pub output: Vec<u8>,
}

impl View for VM {
    type V = VmState;

    open spec fn view(&self) -> VmState {
        VmState {
            tape: self.tape@,
            program: self.program@,
            code_ptr: self.code_ptr as int,
            data_ptr: self.data_ptr as int,
            code_start: self.code_start as int,
            data_start: self.data_start as int,
            running: self.running,
            extend: self.extend,
            input: self.input@,
            in_pos: self.input_pos as int,
            output: self.output@,
        }
    }
}

impl VM {
    /// Builds the machine for a program: tape = one zero storage byte, then
    /// the program bytes, then `tape_length` zero data bytes; both pointers at
    /// the start of their regions; the run flag set. A `tape_length` of 0 is
    /// accepted structurally but leaves no addressable data cell, so the
    /// machine is well-formed exactly when `tape_length >= 1`.
    pub fn new(program: Vec<u8>, tape_length: usize, extend: u8, input: Vec<u8>) -> (vm: VM)
        ensures
            vm@.tape == seq![0u8] + program@ + Seq::new(tape_length as nat, |i: int| 0u8),
            vm@.program == program@,
            vm@.code_start == 1,
            vm@.code_ptr == 1,
            vm@.data_start == 1 + program@.len(),
            vm@.data_ptr == vm@.data_start,
            vm@.running,
            vm@.extend == extend,
            vm@.input == input@,
            vm@.in_pos == 0,
            vm@.output == Seq::<u8>::empty(),
            tape_length >= 1 ==> vm@.wf(),
    {
        let mut tape: Vec<u8> = Vec::new();
        tape.push(0);

        let code_start = tape.len();
        let code_ptr = code_start;
        let mut i: usize = 0;
        while i < program.len()
            invariant
                i <= program.len(),
                tape@ == seq![0u8] + program@.subrange(0, i as int),
            decreases program.len() - i,
        {
            tape.push(program[i]);
            proof {
                assert(program@.subrange(0, i + 1) =~= program@.subrange(0, i as int).push(
                    program@[i as int],
                ));
            }
            i = i + 1;
        }
        proof {
            assert(program@.subrange(0, program@.len() as int) =~= program@);
        }

        let data_start = tape.len();
        let data_ptr = data_start;
        let mut j: usize = 0;
        while j < tape_length
            invariant
                j <= tape_length,
                tape@ == seq![0u8] + program@ + Seq::new(j as nat, |i: int| 0u8),
            decreases tape_length - j,
        {
            tape.push(0);
            proof {
                assert(Seq::new((j + 1) as nat, |i: int| 0u8) =~= Seq::new(j as nat, |i: int| 0u8)
                    .push(0u8));
            }
            j = j + 1;
        }

        let vm = VM {
            program,
            tape,
            data_ptr,
            code_ptr,
            data_start,
            code_start,
            running: true,
            extend,
            input,
            input_pos: 0,
            output: Vec::new(),
        };
        proof {
            assert(vm@.tape.subrange(1, vm@.data_start) =~= vm@.program);
        }
        vm
    }

    /// Changes the currently addressed data cell: `Add`/`Sub` wrap modulo 256,
    /// `SetTo` assigns unconditionally. Nothing else of the state moves.
    pub fn tape_change(&mut self, mode: ChangeMode<u8>)
        requires
            old(self)@.wf(),
        ensures
            final(self)@ == old(self)@.with_cell(cell_after(old(self)@.cell(), mode)),
            final(self)@.wf(),
    {
        match mode {
            ChangeMode::Add(value) => {
                let v = self.tape[self.data_ptr].wrapping_add(value);
                assert(v == wrap_add8(old(self)@.cell(), value));
                self.tape.set(self.data_ptr, v);
            },
            ChangeMode::Sub(value) => {
                let v = self.tape[self.data_ptr].wrapping_sub(value);
                assert(v == wrap_sub8(old(self)@.cell(), value));
                self.tape.set(self.data_ptr, v);
            },
            ChangeMode::SetTo(value) => {
                self.tape.set(self.data_ptr, value);
            },
        }
        proof {
            assert(self@.tape.subrange(1, self@.data_start) =~= old(self)@.tape.subrange(
                1,
                old(self)@.data_start,
            ));
        }
    }

    /// Changes the data pointer within `[data_start, tape len - 1]`: `Add`
    /// past the upper bound wraps to `data_start`, `Sub` past the lower bound
    /// wraps to the upper bound, and an out-of-range `SetTo` is silently
    /// ignored. Nothing else of the state moves.
    pub fn data_ptr_change(&mut self, mode: ChangeMode<usize>)
        requires
            old(self)@.wf(),
        ensures
            final(self)@ == (VmState { data_ptr: dp_after(old(self)@, mode), ..old(self)@ }),
            final(self)@.wf(),
    {
        let lower = self.data_start;
        let upper = self.tape.len() - 1;

        match mode {
            ChangeMode::Add(value) => {
                if value <= upper - self.data_ptr {
                    self.data_ptr = self.data_ptr + value;
                } else {
                    self.data_ptr = lower;
                }
            },
            ChangeMode::Sub(value) => {
                if value <= self.data_ptr - lower {
                    self.data_ptr = self.data_ptr - value;
                } else {
                    self.data_ptr = upper;
                }
            },
            ChangeMode::SetTo(value) => {
                if lower <= value && value <= upper {
                    self.data_ptr = value;
                }
            },
        }
    }

    /// Scans forward from the `[` at the code pointer for its matching `]`,
    /// tracking the nesting depth; `None` when the scan runs off the end of
    /// the tape.
    fn scan_forward(&self) -> (r: Option<usize>)
        requires
            self@.wf(),
            self@.code_ptr < self@.tape.len(),
        ensures
            (match r {
                Some(q) => fwd_match(self@.tape, self@.code_ptr, 1) == Some(q as int)
                    && self@.code_ptr < q < self@.tape.len(),
                None => fwd_match(self@.tape, self@.code_ptr, 1) is None,
            }),
    {
        let tlen = self.tape.len();
        let mut pos: usize = self.code_ptr;
        let mut count: usize = 1;
        loop
            invariant
                self@.wf(),
                tlen == self.tape@.len(),
                self.code_ptr <= pos < tlen,
                1 <= count,
                count <= pos - self.code_ptr + 1,
                fwd_match(self@.tape, self@.code_ptr, 1) == fwd_match(
                    self@.tape,
                    pos as int,
                    count as int,
                ),
            decreases tlen - pos,
        {
            if pos >= tlen - 1 {
                return None;
            }
            pos = pos + 1;
            let c = self.tape[pos];
            if c == 91 {
                count = count + 1;
            } else if c == 93 {
                count = count - 1;
            }
            if count == 0 {
                return Some(pos);
            }
        }
    }

    /// Scans backward from the `]` at the code pointer for its matching `[`,
    /// tracking the nesting depth; `None` when the scan runs off the start of
    /// the tape.
    fn scan_backward(&self) -> (r: Option<usize>)
        requires
            self@.wf(),
            self@.code_ptr < self@.tape.len(),
        ensures
            (match r {
                Some(q) => bwd_match(self@.tape, self@.code_ptr, 1) == Some(q as int)
                    && q < self@.code_ptr,
                None => bwd_match(self@.tape, self@.code_ptr, 1) is None,
            }),
    {
        let tlen = self.tape.len();
        let mut pos: usize = self.code_ptr;
        let mut count: usize = 1;
        loop
            invariant
                self@.wf(),
                tlen == self.tape@.len(),
                pos <= self.code_ptr < tlen,
                1 <= count,
                count <= self.code_ptr - pos + 1,
                bwd_match(self@.tape, self@.code_ptr, 1) == bwd_match(
                    self@.tape,
                    pos as int,
                    count as int,
                ),
            decreases pos,
        {
            if pos == 0 {
                return None;
            }
            pos = pos - 1;
            let c = self.tape[pos];
            if c == 93 {
                count = count + 1;
            } else if c == 91 {
                count = count - 1;
            }
            if count == 0 {
                return Some(pos);
            }
        }
    }

    /// The core operator pass: `+ - > < . , [ ]` on the byte at the code
    /// pointer; any other byte is a no-op. On a fault the state is left as it
    /// was.
    fn core_step(&mut self) -> (r: Result<(), VmFault>)
        requires
            old(self)@.wf(),
            old(self)@.code_ptr < old(self)@.tape.len(),
        ensures
            final(self)@.wf(),
            final(self)@.code_ptr < final(self)@.tape.len(),
            final(self)@.extend == old(self)@.extend,
            (match r {
                Ok(_) => core_op(old(self)@) == Ok::<VmState, VmFault>(final(self)@),
                Err(f) => core_op(old(self)@) == Err::<VmState, VmFault>(f) && final(self)@
                    == old(self)@,
            }),
    {
        let op = self.tape[self.code_ptr];
        if op == 43 {  // '+'
            self.tape_change(ChangeMode::Add(1));
        } else if op == 45 {  // '-'
            self.tape_change(ChangeMode::Sub(1));
        } else if op == 62 {  // '>'
            self.data_ptr_change(ChangeMode::Add(1));
        } else if op == 60 {  // '<'
            self.data_ptr_change(ChangeMode::Sub(1));
        } else if op == 46 {  // '.'
            let v = self.tape[self.data_ptr];
            self.output.push(v);
        } else if op == 44 {  // ','
            if self.input_pos < self.input.len() {
                let b = self.input[self.input_pos];
                self.input_pos = self.input_pos + 1;
                self.tape_change(ChangeMode::SetTo(if b == 10 { 0 } else { b }));
            } else {
                return Err(VmFault::InputExhausted);
            }
        } else if op == 91 {  // '['
            if self.tape[self.data_ptr] == 0 {
                match self.scan_forward() {
                    Some(q) => {
                        self.code_ptr = q;
                    },
                    None => {
                        return Err(VmFault::UnbalancedBrackets);
                    },
                }
            }
        } else if op == 93 {  // ']'
            if self.tape[self.data_ptr] != 0 {
                match self.scan_backward() {
                    Some(q) => {
                        self.code_ptr = q;
                    },
                    None => {
                        return Err(VmFault::UnbalancedBrackets);
                    },
                }
            }
        }
        Ok(())
    }

    /// The extended operator pass: `@ $ ! { } ~ ^ & |` on the byte at the code
    /// pointer; any other byte is a no-op. These operators never fail.
    fn ext_step(&mut self)
        requires
            old(self)@.wf(),
            old(self)@.code_ptr < old(self)@.tape.len(),
        ensures
            final(self)@.wf(),
            final(self)@ == ext_op(old(self)@),
    {
        let op = self.tape[self.code_ptr];
        if op == 64 {  // '@'
            self.running = false;
        } else if op == 36 {  // '$'
            let v = self.tape[self.data_ptr];
            self.tape.set(0, v);
            proof {
                assert(self@.tape.subrange(1, self@.data_start) =~= old(self)@.tape.subrange(
                    1,
                    old(self)@.data_start,
                ));
            }
        } else if op == 33 {  // '!'
            let v = self.tape[0];
            self.tape_change(ChangeMode::SetTo(v));
        } else if op == 123 {  // '{'
            let v = self.tape[self.data_ptr] << 1u8;
            self.tape_change(ChangeMode::SetTo(v));
        } else if op == 125 {  // '}'
            let v = self.tape[self.data_ptr] >> 1u8;
            self.tape_change(ChangeMode::SetTo(v));
        } else if op == 126 {  // '~'
            let v = !self.tape[self.data_ptr];
            self.tape_change(ChangeMode::SetTo(v));
        } else if op == 94 {  // '^'
            let v = self.tape[self.data_ptr] ^ self.tape[0];
            self.tape_change(ChangeMode::SetTo(v));
        } else if op == 38 {  // '&'
            let v = self.tape[self.data_ptr] & self.tape[0];
            self.tape_change(ChangeMode::SetTo(v));
        } else if op == 124 {  // '|'
            let v = self.tape[self.data_ptr] | self.tape[0];
            self.tape_change(ChangeMode::SetTo(v));
        }
    }

    /// One dispatch step: the core pass, then either the extended pass
    /// (extend level >= 1) or the boundary-based update of the run flag
    /// (extend level 0), then the unconditional advance of the code pointer.
    /// On a fault the state is left exactly as it was.
    pub fn step(&mut self) -> (r: Result<(), VmFault>)
        requires
            old(self)@.wf(),
            old(self)@.code_ptr < old(self)@.tape.len(),
        ensures
            final(self)@.wf(),
            (match r {
                Ok(_) => step_spec(old(self)@) == Ok::<VmState, VmFault>(final(self)@),
                Err(f) => step_spec(old(self)@) == Err::<VmState, VmFault>(f) && final(self)@
                    == old(self)@,
            }),
    {
        match self.core_step() {
            Ok(_) => {},
            Err(f) => {
                return Err(f);
            },
        }
        if self.extend >= 1 {
            self.ext_step();
        } else {
            self.running = self.code_ptr < self.data_start - 1;
        }
        let tlen = self.tape.len();
        assert(self.code_ptr < tlen);
        self.code_ptr = self.code_ptr + 1;
        Ok(())
    }

    /// Steps the machine while the run flag is set and the code pointer is on
    /// the tape, for at most `fuel` steps, following `run_spec` exactly. On a
    /// fault the state of the faulting step's start is kept, so the caller can
    /// supply what was missing (more input) and run again.
    pub fn run(&mut self, fuel: u64) -> (r: RunStatus)
        requires
            old(self)@.wf(),
        ensures
            final(self)@.wf(),
            run_spec(old(self)@, fuel as nat) == (final(self)@, r),
    {
        let ghost s0 = self@;
        let mut left: u64 = fuel;
        loop
            invariant
                self@.wf(),
                left <= fuel,
                s0 == old(self)@,
                run_spec(s0, fuel as nat) == run_spec(self@, left as nat),
            decreases left,
        {
            if !self.running || self.code_ptr >= self.tape.len() {
                return RunStatus::Halted;
            }
            if left == 0 {
                return RunStatus::OutOfFuel;
            }
            match self.step() {
                Ok(_) => {
                    left = left - 1;
                },
                Err(f) => {
                    return RunStatus::Fault(f);
                },
            }
        }
    }
}

} // verus!

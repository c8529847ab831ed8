//! Mathematical model of the tape machine: the abstract state, the meaning of
//! each operator, bracket matching, and the fuelled big-step semantics that the
//! executable interpreter is proved to follow.
use vstd::prelude::*;

verus! {

/// How a cell value or the data pointer is changed: add a delta, subtract a
/// delta, or assign a value outright.
pub enum ChangeMode<T> {
    Add(T),
    Sub(T),
    SetTo(T),
}

/// The two unrecoverable faults a run can hit: a bracket scan that falls off
/// the tape (the program was not well bracketed) and a read operator with no
/// input byte left.
#[derive(Clone, Copy, PartialEq, Eq, Debug)]
pub enum VmFault {
    UnbalancedBrackets,
    InputExhausted,
}

/// Why a fuelled run returned: the machine halted, the fuel ran out with the
/// machine still willing to step, or a fault occurred.
#[derive(Clone, Copy, PartialEq, Eq, Debug)]
pub enum RunStatus {
    Halted,
    OutOfFuel,
    Fault(VmFault),
}

/// Abstract machine state: the whole tape (storage cell, code region, data
/// region), the two pointers, the region boundaries, the run flag, the extend
/// level, and the input/output streams as plain byte sequences.
#[verifier::ext_equal]
pub ghost struct VmState {
    pub tape: Seq<u8>,
    pub program: Seq<u8>,
    pub code_ptr: int,
    pub data_ptr: int,
    pub code_start: int,
    pub data_start: int,
    pub running: bool,
    pub extend: u8,
    pub input: Seq<u8>,
    pub in_pos: int,
    pub output: Seq<u8>,
}

impl VmState {
    /// Structural well-formedness: the storage cell sits at index 0, the code
    /// region is an unmodified copy of the program starting at index 1, the
    /// data region is nonempty, and the data pointer addresses it.
    pub open spec fn wf(self) -> bool {
        &&& self.code_start == 1
        &&& self.data_start == 1 + self.program.len()
        &&& self.data_start < self.tape.len()
        &&& self.data_start <= self.data_ptr < self.tape.len()
        &&& 0 <= self.code_ptr
        &&& self.tape.subrange(1, self.data_start) == self.program
        &&& 0 <= self.in_pos <= self.input.len()
    }

    /// The byte of the currently addressed data cell.
    pub open spec fn cell(self) -> u8 {
        self.tape[self.data_ptr]
    }

    /// The same state with the currently addressed data cell set to `v`.
    pub open spec fn with_cell(self, v: u8) -> VmState {
        VmState { tape: self.tape.update(self.data_ptr, v), ..self }
    }
}

/// Byte addition modulo 256.
pub open spec fn wrap_add8(v: u8, n: u8) -> u8 {
    ((v + n) % 256) as u8
}

/// Byte subtraction modulo 256.
pub open spec fn wrap_sub8(v: u8, n: u8) -> u8 {
    ((v + 256 - n) % 256) as u8
}

/// Value of the addressed cell after a cell change: `Add`/`Sub` wrap modulo
/// 256, `SetTo` assigns unconditionally.
pub open spec fn cell_after(v: u8, mode: ChangeMode<u8>) -> u8 {
    match mode {
        ChangeMode::Add(n) => wrap_add8(v, n),
        ChangeMode::Sub(n) => wrap_sub8(v, n),
        ChangeMode::SetTo(n) => n,
    }
}

/// Data pointer after a pointer change. Bounds are `[data_start, tape len - 1]`:
/// `Add` past the upper bound resets to `data_start`, `Sub` past the lower
/// bound resets to the upper bound, and an out-of-range `SetTo` is silently
/// ignored (the pointer does not move).
pub open spec fn dp_after(s: VmState, mode: ChangeMode<usize>) -> int {
    let lower = s.data_start;
    let upper = s.tape.len() - 1;
    match mode {
        ChangeMode::Add(n) => if s.data_ptr + n <= upper {
            s.data_ptr + n
        } else {
            lower
        },
        ChangeMode::Sub(n) => if lower <= s.data_ptr - n {
            s.data_ptr - n
        } else {
            upper
        },
        ChangeMode::SetTo(n) => if lower <= n as int && n as int <= upper {
            n as int
        } else {
            s.data_ptr
        },
    }
}

/// Position of the `]` matching the `[` at `pos - 1`, scanning forward with
/// nesting counter `count`; `None` when the scan would run off the end of the
/// tape (the program is not well bracketed).
pub open spec fn fwd_match(tape: Seq<u8>, pos: int, count: int) -> Option<int>
    decreases tape.len() - pos,
{
    if pos + 1 >= tape.len() || pos < 0 {
        None
    } else {
        let p = pos + 1;
        let c = tape[p];
        let nc = if c == 91 {
            count + 1
        } else if c == 93 {
            count - 1
        } else {
            count
        };
        if nc == 0 {
            Some(p)
        } else {
            fwd_match(tape, p, nc)
        }
    }
}

/// Position of the `[` matching the `]` at `pos + 1`, scanning backward with
/// nesting counter `count`; `None` when the scan would run off the start of
/// the tape.
pub open spec fn bwd_match(tape: Seq<u8>, pos: int, count: int) -> Option<int>
    decreases pos,
{
    if pos <= 0 {
        None
    } else {
        let p = pos - 1;
        let c = tape[p];
        let nc = if c == 93 {
            count + 1
        } else if c == 91 {
            count - 1
        } else {
            count
        };
        if nc == 0 {
            Some(p)
        } else {
            bwd_match(tape, p, nc)
        }
    }
}

/// Effect of the core operator pass for the byte at the code pointer:
/// `+ - > < . , [ ]`; any other byte is a no-op. Faults are the bracket scan
/// running off the tape and `,` with the input exhausted.
pub open spec fn core_op(s: VmState) -> Result<VmState, VmFault> {
    let op = s.tape[s.code_ptr];
    if op == 43 {  // '+'
        Ok(s.with_cell(wrap_add8(s.cell(), 1)))
    } else if op == 45 {  // '-'
        Ok(s.with_cell(wrap_sub8(s.cell(), 1)))
    } else if op == 62 {  // '>'
        Ok(VmState { data_ptr: dp_after(s, ChangeMode::Add(1usize)), ..s })
    } else if op == 60 {  // '<'
        Ok(VmState { data_ptr: dp_after(s, ChangeMode::Sub(1usize)), ..s })
    } else if op == 46 {  // '.'
        Ok(VmState { output: s.output.push(s.cell()), ..s })
    } else if op == 44 {  // ','
        if s.in_pos < s.input.len() {
            let b = s.input[s.in_pos];
            Ok(VmState { in_pos: s.in_pos + 1, ..s.with_cell(if b == 10 { 0 } else { b }) })
        } else {
            Err(VmFault::InputExhausted)
        }
    } else if op == 91 {  // '['
        if s.cell() == 0 {
            match fwd_match(s.tape, s.code_ptr, 1) {
                Some(q) => Ok(VmState { code_ptr: q, ..s }),
                None => Err(VmFault::UnbalancedBrackets),
            }
        } else {
            Ok(s)
        }
    } else if op == 93 {  // ']'
        if s.cell() != 0 {
            match bwd_match(s.tape, s.code_ptr, 1) {
                Some(q) => Ok(VmState { code_ptr: q, ..s }),
                None => Err(VmFault::UnbalancedBrackets),
            }
        } else {
            Ok(s)
        }
    } else {
        Ok(s)
    }
}

/// Effect of the extended operator pass (active only at extend level >= 1) for
/// the byte at the code pointer: `@ $ ! { } ~ ^ & |`; any other byte is a
/// no-op. These operators never fail.
pub open spec fn ext_op(s: VmState) -> VmState {
    let op = s.tape[s.code_ptr];
    if op == 64 {  // '@'
        VmState { running: false, ..s }
    } else if op == 36 {  // '$'
        VmState { tape: s.tape.update(0, s.cell()), ..s }
    } else if op == 33 {  // '!'
        s.with_cell(s.tape[0])
    } else if op == 123 {  // '{'
        s.with_cell(s.cell() << 1)
    } else if op == 125 {  // '}'
        s.with_cell(s.cell() >> 1)
    } else if op == 126 {  // '~'
        s.with_cell(!s.cell())
    } else if op == 94 {  // '^'
        s.with_cell(s.cell() ^ s.tape[0])
    } else if op == 38 {  // '&'
        s.with_cell(s.cell() & s.tape[0])
    } else if op == 124 {  // '|'
        s.with_cell(s.cell() | s.tape[0])
    } else {
        s
    }
}

/// One dispatch step: the core pass on the byte at the code pointer, then —
/// on the possibly repositioned code pointer — either the extended pass
/// (extend level >= 1) or the boundary-based update of the run flag (extend
/// level 0), and finally the unconditional advance of the code pointer by 1.
pub open spec fn step_spec(s: VmState) -> Result<VmState, VmFault> {
    match core_op(s) {
        Ok(s1) => {
            let s2 = if s.extend >= 1 {
                ext_op(s1)
            } else {
                VmState { running: s1.code_ptr < s1.data_start - 1, ..s1 }
            };
            Ok(VmState { code_ptr: s2.code_ptr + 1, ..s2 })
        },
        Err(f) => Err(f),
    }
}

/// Fuelled big-step semantics: step while the run flag is set and the code
/// pointer is on the tape, for at most `fuel` steps. On a fault the state at
/// the start of the faulting step is returned.
pub open spec fn run_spec(s: VmState, fuel: nat) -> (VmState, RunStatus)
    decreases fuel,
{
    if !s.running || s.code_ptr >= s.tape.len() {
        (s, RunStatus::Halted)
    } else if fuel == 0 {
        (s, RunStatus::OutOfFuel)
    } else {
        match step_spec(s) {
            Ok(s2) => run_spec(s2, (fuel - 1) as nat),
            Err(f) => (s, RunStatus::Fault(f)),
        }
    }
}

} // verus!

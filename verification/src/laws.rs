//! General properties of the machine, stated and proved once over the model
//! in `semantics`.
use vstd::prelude::*;

use crate::semantics::ChangeMode;
use crate::semantics::VmFault;
use crate::semantics::VmState;
use crate::semantics::cell_after;
use crate::semantics::dp_after;
use crate::semantics::step_spec;

verus! {

/// Cell arithmetic is standard 8-bit wraparound: for every starting byte `v`,
/// adding 1 from 255 gives 0 and subtracting 1 from 0 gives 255; everywhere
/// else the plain successor or predecessor comes out.
pub proof fn lemma_cell_wraparound(v: u8)
    ensures
        cell_after(v, ChangeMode::Add(1u8)) == (if v == 255 {
            0u8
        } else {
            (v + 1) as u8
        }),
        cell_after(v, ChangeMode::Sub(1u8)) == (if v == 0 {
            255u8
        } else {
            (v - 1) as u8
        }),
{
}

/// Advancing the data pointer past the last data address resets it to
/// `data_start`, never to an out-of-range index.
pub proof fn lemma_data_ptr_wrap_to_start(s: VmState, n: usize)
    requires
        s.wf(),
        s.data_ptr + n > s.tape.len() - 1,
    ensures
        dp_after(s, ChangeMode::Add(n)) == s.data_start,
{
}

/// Retreating the data pointer past `data_start` resets it to the last tape
/// address, `tape len - 1`.
pub proof fn lemma_data_ptr_wrap_to_end(s: VmState, n: usize)
    requires
        s.wf(),
        s.data_ptr - n < s.data_start,
    ensures
        dp_after(s, ChangeMode::Sub(n)) == s.tape.len() - 1,
{
}

/// Setting the data pointer to an address outside the data region — the
/// storage cell, the code region, or past the end of the tape — is a no-op:
/// the pointer does not move.
pub proof fn lemma_data_ptr_set_out_of_range_noop(s: VmState, n: usize)
    requires
        s.wf(),
        n < s.data_start || n > s.tape.len() - 1,
    ensures
        dp_after(s, ChangeMode::SetTo(n)) == s.data_ptr,
{
}

/// Execution never mutates the code region: a successful step leaves the
/// bytes between the storage cell and the data region exactly as they were.
pub proof fn lemma_code_region_never_mutated(s: VmState, s2: VmState)
    requires
        s.wf(),
        s2.wf(),
        step_spec(s) == Ok::<VmState, VmFault>(s2),
    ensures
        s2.data_start == s.data_start,
        s2.tape.subrange(1, s.data_start) == s.tape.subrange(1, s.data_start),
{
}

} // verus!

//! Laws that relate several instructions to each other.

use vstd::prelude::*;
use crate::cpu::Cpu;
use crate::semantics::{sem_00ee, sem_2nnn};

verus! {

/// A call followed by a return restores the program counter: if a `2nnn`
/// call steps `pre` to `mid`, and a `00EE` return then runs from any state
/// `mid2` whose call stack and stack pointer are still those of `mid` (the
/// fetch of the return word touches neither), the program counter ends up
/// exactly where it stood when the call instruction executed: it lands at
/// the instruction following the call, since the counter had already been
/// advanced past the call word.
pub proof fn lemma_call_then_return_restores_pc(pre: Cpu, mid: Cpu, mid2: Cpu, post: Cpu)
    requires
        sem_2nnn(pre, mid),
        mid2.stack == mid.stack,
        mid2.reg_sp == mid.reg_sp,
        sem_00ee(mid2, post),
    ensures
        post.reg_pc == pre.reg_pc,
{
    assert(mid.stack@[pre.reg_sp as int] == pre.reg_pc);
}

} // verus!

//! General facts about the machine's transition relation, proved once and
//! for all machine states: how the loader's byte layout and the fetch stage
//! agree, how the instruction pointer moves through straight-line code,
//! what a halt leaves untouched, and how the branch instruction picks the
//! next address.

use vstd::prelude::*;

use crate::semantics::{
    lo_nib, hi_byte, lo_byte, mem_of_program, op_of, rot_right, step_model, steps_model, word_at,
    word_of, wrap_add, CpuModel,
};
use crate::CpuState;

verus! {

/// One step keeps the machine well-formed: no opcode changes the number of
/// registers or the size of memory.
pub proof fn lemma_step_preserves_wf(m: CpuModel)
    requires
        m.wf(),
    ensures
        step_model(m).0.wf(),
{
    broadcast use crate::semantics::lemma_lo_nib_bound, crate::semantics::lemma_hi_nib_bound;

}

/// The loader and the fetch stage agree on the encoding: the word stored
/// as two big-endian bytes at address 2k of a freshly loaded memory bank
/// reads back as exactly program word k.
pub proof fn lemma_loaded_word_reads_back(prog: Seq<u16>, k: int)
    requires
        prog.len() <= 128,
        0 <= k < prog.len(),
    ensures
        word_at(mem_of_program(prog), (2 * k) as u8) == prog[k],
{
    let mem = mem_of_program(prog);
    let ip = (2 * k) as u8;
    vstd::arithmetic::div_mod::lemma_small_mod((2 * k + 1) as nat, 256);
    assert(wrap_add(ip, 1) as int == 2 * k + 1);
    assert(mem[2 * k] == hi_byte(prog[k]));
    assert(mem[2 * k + 1] == lo_byte(prog[k]));
    let w = prog[k];
    assert(word_of(hi_byte(w), lo_byte(w)) == w) by (bit_vector);
}

/// An undefined opcode (0x0, 0x6, or 0xD through 0xF) fault-halts: the
/// step yields the same terminal state a deliberate HALT does, no register
/// or memory cell changes, and the pointer stands two bytes further on.
pub proof fn lemma_undefined_opcode_fault_halts(m: CpuModel)
    requires
        m.wf(),
        ({
            let op = op_of(word_at(m.mem, m.ip));
            op == 0x0 || op == 0x6 || op == 0xD || op == 0xE || op == 0xF
        }),
    ensures
        step_model(m).1 == CpuState::Halt,
        step_model(m).0.reg == m.reg,
        step_model(m).0.mem == m.mem,
        step_model(m).0.ip == wrap_add(m.ip, 2),
{
}

/// A machine about to execute HALT takes one step to the terminal state,
/// and no register or memory cell changes.
pub proof fn lemma_halt_changes_nothing(m: CpuModel)
    requires
        m.wf(),
        op_of(word_at(m.mem, m.ip)) == 0xC,
    ensures
        step_model(m).1 == CpuState::Halt,
        step_model(m).0.reg == m.reg,
        step_model(m).0.mem == m.mem,
{
}

/// Rotating right by zero positions is a no-op.
pub proof fn lemma_rotate_by_zero(v: u8)
    ensures
        rot_right(v, 0) == v,
{
}

/// BRANCH-IF-EQUAL: when the compared register equals register 0 the
/// pointer jumps to the encoded target, so the instruction at the original
/// next address is skipped; when they differ the pointer stays where fetch
/// advanced it, two bytes past the branch, and execution falls through.
/// Either way registers and memory are untouched and the machine continues.
pub proof fn lemma_branch_picks_next_address(m: CpuModel)
    requires
        m.wf(),
        op_of(word_at(m.mem, m.ip)) == 0xB,
    ensures
        ({
            let ir = word_at(m.mem, m.ip);
            let taken = m.reg[lo_nib(hi_byte(ir)) as int] == m.reg[0];
            &&& step_model(m).1 == CpuState::Continue
            &&& step_model(m).0.reg == m.reg
            &&& step_model(m).0.mem == m.mem
            &&& taken ==> step_model(m).0.ip == lo_byte(ir)
            &&& !taken ==> step_model(m).0.ip == wrap_add(m.ip, 2)
        }),
{
}

/// The opcodes with an execution rule that never redirects the instruction
/// pointer: everything defined except BRANCH-IF-EQUAL.
pub open spec fn is_straightline_op(op: u8) -> bool {
    (0x1 <= op <= 0x5) || (0x7 <= op <= 0xA) || op == 0xC
}

/// Every one of the first `n` instructions the machine fetches from `m`
/// onwards is a defined opcode other than BRANCH-IF-EQUAL.  This is what
/// "a program not using BRANCH-IF-EQUAL or an undefined opcode" means for
/// the trace it produces.
pub open spec fn straightline_trace(m: CpuModel, n: nat) -> bool
    decreases n,
{
    n > 0 ==> {
        &&& is_straightline_op(op_of(word_at(m.mem, m.ip)))
        &&& straightline_trace(step_model(m).0, (n - 1) as nat)
    }
}

/// Straight-line code moves the instruction pointer by exactly two bytes a
/// step: after `n` steps it stands at `(ip + 2n) mod 256`.  In particular,
/// right after a load (which puts the pointer at 0) it stands at
/// `2n mod 256`.
pub proof fn lemma_straightline_ip(m: CpuModel, n: nat)
    requires
        m.wf(),
        straightline_trace(m, n),
    ensures
        steps_model(m, n).wf(),
        steps_model(m, n).ip == ((m.ip + 2 * n) % 256) as u8,
    decreases n,
{
    if n == 0 {
        vstd::arithmetic::div_mod::lemma_small_mod(m.ip as nat, 256);
    } else {
        let m2 = step_model(m).0;
        lemma_step_preserves_wf(m);
        assert(m2.ip == wrap_add(m.ip, 2));
        lemma_straightline_ip(m2, (n - 1) as nat);
        assert(((m.ip + 2) % 256 + 2 * (n - 1)) % 256 == (m.ip + 2 * n) % 256) by {
            vstd::arithmetic::div_mod::lemma_add_mod_noop_right(
                2 * (n - 1) as int,
                m.ip + 2,
                256,
            );
        }
    }
}

} // verus!


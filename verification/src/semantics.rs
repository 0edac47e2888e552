//! The mathematical model of the machine: a ghost image of the processor
//! state and the fetch/decode/execute transition as pure spec functions.
//! Every contract of the executable machine is stated against this model.

use vstd::prelude::*;

use crate::CpuState;

verus! {

/// Ghost image of the full processor state.
///
/// `reg` always has 16 entries and `mem` 256 entries for a machine built by
/// this crate (see `CpuModel::wf`).  `halted` records whether the most recent
/// step ended execution; a halted machine takes no further steps.
#[verifier::ext_equal]
pub ghost struct CpuModel {
    pub ip: u8,
    pub ir: u16,
    pub reg: Seq<u8>,
    pub mem: Seq<u8>,
    pub halted: bool,
}

impl CpuModel {
    /// Well-formedness: sixteen registers, a 256-byte memory bank.
    pub open spec fn wf(self) -> bool {
        &&& self.reg.len() == 16
        &&& self.mem.len() == 256
    }
}

/// The machine as it comes out of initialization: everything zero, running.
pub open spec fn initial_model() -> CpuModel {
    CpuModel {
        ip: 0,
        ir: 0,
        reg: Seq::new(16, |i: int| 0u8),
        mem: Seq::new(256, |i: int| 0u8),
        halted: false,
    }
}

/// Least-significant four bits of a byte.
pub open spec fn lo_nib(b: u8) -> u8 {
    b & 0x0F
}

/// Most-significant four bits of a byte, shifted down to bits 0-3.
pub open spec fn hi_nib(b: u8) -> u8 {
    (b & 0xF0) >> 4
}

/// A low nibble is always a valid register index.
pub broadcast proof fn lemma_lo_nib_bound(b: u8)
    ensures
        #[trigger] lo_nib(b) < 16,
{
    assert(b & 0x0F < 16) by (bit_vector);
}

/// A high nibble is always a valid register index.
pub broadcast proof fn lemma_hi_nib_bound(b: u8)
    ensures
        #[trigger] hi_nib(b) < 16,
{
    assert((b & 0xF0) >> 4 < 16) by (bit_vector);
}

/// Most-significant byte of an instruction word.
pub open spec fn hi_byte(w: u16) -> u8 {
    (w >> 8) as u8
}

/// Least-significant byte of an instruction word.
pub open spec fn lo_byte(w: u16) -> u8 {
    w as u8
}

/// The opcode: the top four bits of an instruction word.
pub open spec fn op_of(w: u16) -> u8 {
    (w >> 12) as u8
}

/// Two consecutive bytes packed into a word, high byte first.
pub open spec fn word_of(hi: u8, lo: u8) -> u16 {
    ((hi as u16) << 8) | (lo as u16)
}

/// 8-bit addition with silent wraparound: (a + b) mod 256.  This is both the
/// machine's two's-complement addition and the rule by which the instruction
/// pointer advances.
pub open spec fn wrap_add(a: u8, b: u8) -> u8 {
    ((a + b) % 256) as u8
}

/// A value circularly rotated right by `w` bit positions, `w` in 0..=7.
/// Rotation by zero leaves the value unchanged.
pub open spec fn rot_right(v: u8, w: u8) -> u8
    recommends
        w < 8,
{
    if w == 0 {
        v
    } else {
        (v >> w) | (v << (8 - w))
    }
}

/// The instruction word stored at `ip`: the byte at `ip` forms the high
/// half, the byte at `(ip + 1) mod 256` the low half.
pub open spec fn word_at(mem: Seq<u8>, ip: u8) -> u16
    recommends
        mem.len() == 256,
{
    word_of(mem[ip as int], mem[wrap_add(ip, 1) as int])
}

/// The fetch stage: load the word at `ip` into the instruction register and
/// advance the pointer by two, wrapping modulo 256.
pub open spec fn fetched(m: CpuModel) -> CpuModel {
    CpuModel { ir: word_at(m.mem, m.ip), ip: wrap_add(m.ip, 2), ..m }
}

/// The execution stage: one opcode's effect, decoded from the instruction
/// register of a machine that has just fetched.  Opcodes 0x0, 0x6 and
/// 0xD-0xF have no execution rule and halt the machine (a fault-halt);
/// 0xC is the deliberate halt.  Every other opcode continues.
pub open spec fn execute_model(m: CpuModel) -> (CpuModel, CpuState) {
    let ir = m.ir;
    let op = op_of(ir);
    let d = lo_nib(hi_byte(ir)) as int;
    let a = hi_nib(lo_byte(ir)) as int;
    let b = lo_nib(lo_byte(ir)) as int;
    let addr = lo_byte(ir) as int;
    if op == 0x1 {
        // LOAD-FROM-MEMORY
        (CpuModel { reg: m.reg.update(d, m.mem[addr]), halted: false, ..m }, CpuState::Continue)
    } else if op == 0x2 {
        // SET-IMMEDIATE
        (CpuModel { reg: m.reg.update(d, lo_byte(ir)), halted: false, ..m }, CpuState::Continue)
    } else if op == 0x3 {
        // STORE-TO-MEMORY
        (CpuModel { mem: m.mem.update(addr, m.reg[d]), halted: false, ..m }, CpuState::Continue)
    } else if op == 0x4 {
        // MOVE
        (CpuModel { reg: m.reg.update(b, m.reg[a]), halted: false, ..m }, CpuState::Continue)
    } else if op == 0x5 {
        // ADD, two's-complement with wraparound
        (
            CpuModel { reg: m.reg.update(d, wrap_add(m.reg[a], m.reg[b])), halted: false, ..m },
            CpuState::Continue,
        )
    } else if op == 0x7 {
        // OR
        (
            CpuModel { reg: m.reg.update(d, m.reg[a] | m.reg[b]), halted: false, ..m },
            CpuState::Continue,
        )
    } else if op == 0x8 {
        // AND
        (
            CpuModel { reg: m.reg.update(d, m.reg[a] & m.reg[b]), halted: false, ..m },
            CpuState::Continue,
        )
    } else if op == 0x9 {
        // XOR
        (
            CpuModel { reg: m.reg.update(d, m.reg[a] ^ m.reg[b]), halted: false, ..m },
            CpuState::Continue,
        )
    } else if op == 0xA {
        // ROTATE right, width from the low three bits of its selector nibble
        (
            CpuModel {
                reg: m.reg.update(d, rot_right(m.reg[d], hi_nib(lo_byte(ir)) & 0x07)),
                halted: false,
                ..m
            },
            CpuState::Continue,
        )
    } else if op == 0xB {
        // BRANCH-IF-EQUAL against register 0
        if m.reg[d] == m.reg[0] {
            (CpuModel { ip: lo_byte(ir), halted: false, ..m }, CpuState::Continue)
        } else {
            (CpuModel { halted: false, ..m }, CpuState::Continue)
        }
    } else if op == 0xC {
        // HALT
        (CpuModel { halted: true, ..m }, CpuState::Halt)
    } else {
        // undefined opcode: fault-halt
        (CpuModel { halted: true, ..m }, CpuState::Halt)
    }
}

/// One full step: fetch, then decode and execute.
pub open spec fn step_model(m: CpuModel) -> (CpuModel, CpuState) {
    execute_model(fetched(m))
}

/// The machine after `n` consecutive steps.
pub open spec fn steps_model(m: CpuModel, n: nat) -> CpuModel
    decreases n,
{
    if n == 0 {
        m
    } else {
        steps_model(step_model(m).0, (n - 1) as nat)
    }
}

/// Repeated stepping with a cycle budget: step until a terminal state or
/// until `fuel` steps have been taken.  Yields `Halt` exactly when the
/// machine reached a terminal state within the budget.
pub open spec fn run_model(m: CpuModel, fuel: nat) -> (CpuModel, CpuState)
    decreases fuel,
{
    if fuel == 0 {
        (m, CpuState::Continue)
    } else {
        let s = step_model(m);
        if s.1 == CpuState::Halt {
            s
        } else {
            run_model(s.0, (fuel - 1) as nat)
        }
    }
}

/// Byte `k` of a memory bank freshly loaded with `prog`: the program's words
/// laid out as consecutive big-endian byte pairs from address 0, zero beyond.
pub open spec fn program_byte(prog: Seq<u16>, k: int) -> u8 {
    if 0 <= k < 2 * prog.len() {
        if k % 2 == 0 {
            hi_byte(prog[k / 2])
        } else {
            lo_byte(prog[k / 2])
        }
    } else {
        0
    }
}

/// The whole memory bank after loading `prog`.
pub open spec fn mem_of_program(prog: Seq<u16>) -> Seq<u8> {
    Seq::new(256, |k: int| program_byte(prog, k))
}

/// The machine after a successful program load: pointer and instruction
/// register reset, memory rewritten, registers untouched, running again.
pub open spec fn loaded_model(m: CpuModel, prog: Seq<u16>) -> CpuModel {
    CpuModel { ip: 0, ir: 0, reg: m.reg, mem: mem_of_program(prog), halted: false }
}

} // verus!

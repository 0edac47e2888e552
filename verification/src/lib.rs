//! A fixed instruction-set simulator for a small byte-addressed 8-bit
//! machine: sixteen general registers, a 256-byte memory bank, and a
//! deterministic fetch-decode-execute engine over 16-bit instruction words.

use vstd::prelude::*;

pub mod codec;
pub mod laws;
pub mod semantics;

use crate::semantics::{
    fetched, initial_model, lo_nib, hi_nib, loaded_model, mem_of_program, op_of, program_byte,
    run_model, step_model, wrap_add, CpuModel,
};

verus! {

/// The result of one execution step.  Once a machine has yielded `Halt`,
/// any further step is invalid and is ruled out by `P150Cpu::tick`'s
/// precondition.
#[derive(PartialEq, Eq, Structural, Clone, Copy, Debug)]
pub enum CpuState {
    Continue,
    Halt,
}

/// The P150 virtual machine: all the state the processor needs to keep
/// executing a program stored in its main memory.
#[derive(Clone, Copy)]
pub struct P150Cpu {
    ip: u8,
    ir: u16,
    reg: [u8; 16],
    mem: [u8; 256],
    // set when a step reaches a terminal state; a halted machine refuses
    // further steps until a program load resets it
    halted: bool,
}

impl View for P150Cpu {
    type V = CpuModel;

    closed spec fn view(&self) -> CpuModel {
        CpuModel {
            ip: self.ip,
            ir: self.ir,
            reg: self.reg@,
            mem: self.mem@,
            halted: self.halted,
        }
    }
}

impl P150Cpu {
    /// Initializes the machine: everything zeroed, ready to run.
    /// Programs start at memory address 0x00.
    pub fn new() -> (cpu: P150Cpu)
        ensures
            cpu@ == initial_model(),
    {
        let cpu = P150Cpu { ip: 0x00, ir: 0x0000, reg: [0u8; 16], mem: [0u8; 256], halted: false };
        proof {
            assert(cpu@ =~= initial_model());
        }
        cpu
    }

    /// The sixteen registers, in index order.
    pub fn get_reg(&self) -> (r: &[u8])
        ensures
            r@ == self@.reg,
    {
        self.reg.as_slice()
    }

    /// The 256 memory cells, in address order.
    pub fn get_mem(&self) -> (r: &[u8])
        ensures
            r@ == self@.mem,
    {
        self.mem.as_slice()
    }

    /// The instruction pointer: byte offset of the next word to fetch.
    pub fn get_ip(&self) -> (r: u8)
        ensures
            r == self@.ip,
    {
        self.ip
    }

    /// The instruction register: the most recently fetched word.
    pub fn get_ir(&self) -> (r: u16)
        ensures
            r == self@.ir,
    {
        self.ir
    }

    /// Whether the most recent step ended execution.
    pub fn is_halted(&self) -> (r: bool)
        ensures
            r == self@.halted,
    {
        self.halted
    }

    /// Read an ordered sequence of instruction words into main memory.
    /// The program must fit: each word takes two bytes, so at most 128
    /// words can be loaded.  The instruction pointer and instruction
    /// register are reset and all memory beyond the program is zeroed;
    /// the registers keep their values.
    pub fn init_mem(&mut self, memory: &[u16])
        requires
            memory@.len() <= 128,
        ensures
            final(self)@ == loaded_model(old(self)@, memory@),
    {
        self.ip = 0;
        self.ir = 0;
        self.halted = false;
        self.mem = [0u8; 256];

        let mut i: usize = 0;
        while i < memory.len()
            invariant
                memory@.len() <= 128,
                i <= memory@.len(),
                self.ip == 0,
                self.ir == 0,
                !self.halted,
                self.reg@ == old(self)@.reg,
                self.mem@.len() == 256,
                forall|k: int|
                    0 <= k < 256 ==> self.mem@[k] == if k < 2 * i {
                        program_byte(memory@, k)
                    } else {
                        0u8
                    },
            decreases memory@.len() - i,
        {
            let op = memory[i];
            self.mem[2 * i] = (op >> 8) as u8;
            self.mem[2 * i + 1] = op as u8;
            i += 1;
        }

        proof {
            assert(self.mem@ =~= mem_of_program(memory@));
            assert(self@ =~= loaded_model(old(self)@, memory@));
        }
    }

    /// The checked form of `init_mem`: rejects a program that would not fit
    /// in memory, in which case the machine is left exactly as it was.
    pub fn try_load(&mut self, memory: &[u16]) -> (ok: bool)
        ensures
            ok == (memory@.len() <= 128),
            ok ==> final(self)@ == loaded_model(old(self)@, memory@),
            !ok ==> *final(self) == *old(self),
    {
        if memory.len() <= 128 {
            self.init_mem(memory);
            true
        } else {
            false
        }
    }

    /// Steps the machine until it halts or `max_cycles` steps have been
    /// taken, whichever comes first; yields `Halt` exactly when a terminal
    /// state was reached within the budget.  The cycle ceiling is the
    /// caller's policy for bounding runaway or cyclic programs.
    pub fn run(&mut self, max_cycles: u32) -> (r: CpuState)
        requires
            !old(self)@.halted,
        ensures
            final(self)@ == run_model(old(self)@, max_cycles as nat).0,
            r == run_model(old(self)@, max_cycles as nat).1,
    {
        let mut cycles: u32 = 0;
        loop
            invariant
                cycles <= max_cycles,
                !self@.halted,
                run_model(old(self)@, max_cycles as nat) == run_model(
                    self@,
                    (max_cycles - cycles) as nat,
                ),
            decreases max_cycles - cycles,
        {
            if cycles >= max_cycles {
                return CpuState::Continue;
            }
            cycles += 1;

            match self.tick() {
                CpuState::Halt => {
                    return CpuState::Halt;
                },
                CpuState::Continue => {},
            }
        }
    }

    /// Load the instruction at `ip` and advance the pointer by two bytes,
    /// wrapping modulo 256.  The two bytes are packed into the instruction
    /// register, high byte first.
    fn fetch(&mut self)
        ensures
            final(self)@ == fetched(old(self)@),
    {
        let byte_1 = self.mem[self.ip as usize];
        let byte_2 = self.mem[self.ip.wrapping_add(1) as usize];

        self.ir = ((byte_1 as u16) << 8) | (byte_2 as u16);
        self.ip = self.ip.wrapping_add(2);

        proof {
            assert(self@ =~= fetched(old(self)@));
        }
    }

    /// Runs one full fetch, decode, execute cycle against the current
    /// instruction pointer.  The step is total: every derived register and
    /// memory index is in range by construction, and the machine state
    /// after the call is exactly one transition of the model.
    pub fn tick(&mut self) -> (r: CpuState)
        requires
            !old(self)@.halted,
        ensures
            final(self)@ == step_model(old(self)@).0,
            r == step_model(old(self)@).1,
    {
        self.fetch();
        let ghost m1 = self@;

        let op = (self.ir >> 12) as u8;
        let r = match op {
            0x1 => {
                // LOAD-FROM-MEMORY
                let rloc = lo_nibble((self.ir >> 8) as u8);
                let mloc = self.ir as u8;

                self.reg[rloc as usize] = self.mem[mloc as usize];
                CpuState::Continue
            },
            0x2 => {
                // SET-IMMEDIATE: value is the entire second byte
                let rloc = lo_nibble((self.ir >> 8) as u8);
                let rval = self.ir as u8;

                self.reg[rloc as usize] = rval;
                CpuState::Continue
            },
            0x3 => {
                // STORE-TO-MEMORY
                let rloc = lo_nibble((self.ir >> 8) as u8);
                let mloc = self.ir as u8;

                self.mem[mloc as usize] = self.reg[rloc as usize];
                CpuState::Continue
            },
            0x4 => {
                // MOVE
                let rloc_src = hi_nibble(self.ir as u8);
                let rloc_dst = lo_nibble(self.ir as u8);

                self.reg[rloc_dst as usize] = self.reg[rloc_src as usize];
                CpuState::Continue
            },
            0x5 => {
                // ADD: two's-complement 8-bit addition, silent wraparound
                let rloc_dst = lo_nibble((self.ir >> 8) as u8);
                let rloc_a = hi_nibble(self.ir as u8);
                let rloc_b = lo_nibble(self.ir as u8);

                let a = self.reg[rloc_a as usize];
                let b = self.reg[rloc_b as usize];
                proof {
                    assert(a.wrapping_add(b) == wrap_add(a, b)) by {
                        if a + b < 256 {
                            vstd::arithmetic::div_mod::lemma_small_mod((a + b) as nat, 256);
                        } else {
                            vstd::arithmetic::div_mod::lemma_mod_sub_multiples_vanish(
                                a + b,
                                256,
                            );
                            vstd::arithmetic::div_mod::lemma_small_mod(
                                (a + b - 256) as nat,
                                256,
                            );
                        }
                    }
                }
                self.reg[rloc_dst as usize] = a.wrapping_add(b);
                CpuState::Continue
            },
            0x7 => {
                // OR
                let rloc_dst = lo_nibble((self.ir >> 8) as u8);
                let rloc_a = hi_nibble(self.ir as u8);
                let rloc_b = lo_nibble(self.ir as u8);

                self.reg[rloc_dst as usize] =
                    self.reg[rloc_a as usize] | self.reg[rloc_b as usize];
                CpuState::Continue
            },
            0x8 => {
                // AND
                let rloc_dst = lo_nibble((self.ir >> 8) as u8);
                let rloc_a = hi_nibble(self.ir as u8);
                let rloc_b = lo_nibble(self.ir as u8);

                self.reg[rloc_dst as usize] =
                    self.reg[rloc_a as usize] & self.reg[rloc_b as usize];
                CpuState::Continue
            },
            0x9 => {
                // XOR
                let rloc_dst = lo_nibble((self.ir >> 8) as u8);
                let rloc_a = hi_nibble(self.ir as u8);
                let rloc_b = lo_nibble(self.ir as u8);

                self.reg[rloc_dst as usize] =
                    self.reg[rloc_a as usize] ^ self.reg[rloc_b as usize];
                CpuState::Continue
            },
            0xA => {
                // ROTATE right by the low three bits of the width nibble;
                // a width of zero leaves the register unchanged.
                let rloc = lo_nibble((self.ir >> 8) as u8);
                let wsel = hi_nibble(self.ir as u8);
                let width = wsel & 0x07;
                proof {
                    assert(wsel & 0x07 < 8) by (bit_vector);
                }

                let v = self.reg[rloc as usize];
                let rotated = if width == 0 {
                    v
                } else {
                    (v >> width) | (v << (8 - width))
                };
                self.reg[rloc as usize] = rotated;
                CpuState::Continue
            },
            0xB => {
                // BRANCH-IF-EQUAL against register 0
                let rloc = lo_nibble((self.ir >> 8) as u8);
                let next_ip = self.ir as u8;

                if self.reg[rloc as usize] == self.reg[0] {
                    self.ip = next_ip;
                }
                CpuState::Continue
            },
            0xC => CpuState::Halt,
            _ => {
                // undefined opcode: fault-halt
                CpuState::Halt
            },
        };
        self.halted = r == CpuState::Halt;

        proof {
            assert(op == op_of(m1.ir));
            assert(self@ =~= step_model(old(self)@).0);
        }
        r
    }
}

/// Take the lower nibble of a byte.
pub fn lo_nibble(byte: u8) -> (r: u8)
    ensures
        r == lo_nib(byte),
        r < 16,
{
    proof {
        assert(byte & 0x0F < 16) by (bit_vector);
    }
    byte & 0x0F
}

/// Take the upper nibble of a byte, shifted towards the least significant
/// bits.
pub fn hi_nibble(byte: u8) -> (r: u8)
    ensures
        r == hi_nib(byte),
        r < 16,
{
    proof {
        assert((byte & 0xF0) >> 4 < 16) by (bit_vector);
    }
    (byte & 0xF0) >> 4
}

} // verus!


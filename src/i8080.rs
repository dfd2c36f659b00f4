pub mod alu;
pub mod flags;
pub mod instructions;
pub mod laws;
pub mod machine;
pub mod registers;

use vstd::prelude::*;
use vstd::string::StringExecFns;
use crate::i8080::alu::{add8, add_outcome, flags_for, logic_outcome, result_flags, sub8, sub_outcome};
use crate::i8080::flags::StatusFlags;
use crate::i8080::instructions::{decode, instruction_length, mnemonic_of, Instruction, InstructionTypes};
use crate::i8080::machine::{
    advance, alu, branch, call, condition, decimal_adjust, drop_top, effect, execute, fetched, imm16,
    imm8, jump, lemma_effect_keeps_pc, next_state, pair, pair_word, peek, poke, push,
    reg as reg_value, ret, rotate_left, rotate_right, step_count, top, transfers_control,
    with_a_carry, with_outcome, with_pair, with_pair_word, with_reg, wrap16, wraps_around,
    CpuState, MEMORY_SIZE,
};
use crate::i8080::registers::{
    word, Registers, A_REG, BC_PAIR_REG, B_REG, C_REG, DE_PAIR_REG, D_REG, E_REG, HL_PAIR_REG, H_REG,
    L_REG, MEM_REF,
};
use crate::text::{decimal, decimal_text, hex2, hex_text, pad_left, padded};

verus! {

/// The memory of a freshly loaded machine: the image from address 0, zeros above it.
pub open spec fn loaded(image: Seq<u8>) -> Seq<u8> {
    Seq::new(MEMORY_SIZE as nat, |i: int| if i < image.len() { image[i] } else { 0u8 })
}

/// The cold-start state over the given memory: registers and flags clear,
/// PC 0, SP 0x0020, a NOP as the current instruction, OUT latch 0, interrupts off.
pub open spec fn cold_state(memory: Seq<u8>) -> CpuState {
    CpuState {
        memory,
        registers: Registers { accumulator: 0, b: 0, c: 0, d: 0, e: 0, h: 0, l: 0 },
        flags: StatusFlags {
            sign_flag: false,
            zero_flag: false,
            auxiliary_flag: false,
            parity_flag: false,
            carry_flag: false,
        },
        stack_pointer: 0x20,
        program_counter: 0,
        current_op: decode(0),
        out: 0,
        interrupts_enabled: false,
    }
}

/// `a + n` modulo 0x10000.
fn add_wrap(a: u16, n: u16) -> (r: u16)
    ensures
        r == wrap16(a + n),
{
    ((a as u32 + n as u32) % 0x10000) as u16
}

/// `a - n` modulo 0x10000.
fn sub_wrap(a: u16, n: u16) -> (r: u16)
    ensures
        r == wrap16(a - n),
{
    if a >= n {
        a - n
    } else {
        (a as u32 + 0x10000 - n as u32) as u16
    }
}

/// The 16-bit value of a high and a low byte.
fn make_word(msb: u8, lsb: u8) -> (r: u16)
    ensures
        r == word(msb, lsb),
{
    msb as u16 * 256 + lsb as u16
}

/// The number of lines `get_instructions` decodes.
pub const DISASSEMBLY_LINES: usize = 48;

/// The disassembly line for the byte `x` places after PC.
pub open spec fn disassembly_line(s: CpuState, x: int) -> Seq<char> {
    let a = wrap16(s.program_counter + x);
    let op = peek(s, a);
    pad_left(decimal(a as nat), 6) + ":     0x"@ + hex2(op) + " "@ + mnemonic_of(decode(op))
}

/// An 8080 processor with its 64 KiB of memory.
pub struct Processor {
    stack_pointer: u16,
    program_counter: u16,
    memory: Vec<u8>,
    registers: Registers,
    flags: StatusFlags,
    current_op: Instruction,
    out: u8,
    interrupts_enabled: bool,
}

impl View for Processor {
    type V = CpuState;

    closed spec fn view(&self) -> CpuState {
        CpuState {
            memory: self.memory@,
            registers: self.registers,
            flags: self.flags,
            stack_pointer: self.stack_pointer,
            program_counter: self.program_counter,
            current_op: self.current_op,
            out: self.out,
            interrupts_enabled: self.interrupts_enabled,
        }
    }
}

impl Processor {
    #[verifier::type_invariant]
    spec fn memory_complete(&self) -> bool {
        self.memory@.len() == MEMORY_SIZE
    }

    /// A processor whose memory holds `bytes` from address 0 and zeros above.
    pub fn from_bytes(bytes: Vec<u8>) -> (r: Processor)
        requires
            bytes@.len() <= MEMORY_SIZE,
        ensures
            r@ == cold_state(loaded(bytes@)),
    {
        let mut memory: Vec<u8> = vec![0u8; MEMORY_SIZE];
        let mut i: usize = 0;
        while i < bytes.len()
            invariant
                bytes@.len() <= MEMORY_SIZE,
                memory@.len() == MEMORY_SIZE,
                0 <= i <= bytes@.len(),
                forall|j: int| 0 <= j < i ==> memory@[j] == bytes@[j],
                forall|j: int| i <= j < MEMORY_SIZE ==> memory@[j] == 0,
            decreases bytes@.len() - i,
        {
            memory.set(i, bytes[i]);
            i = i + 1;
        }
        assert(memory@ =~= loaded(bytes@));
        Processor {
            stack_pointer: 0x20,
            program_counter: 0,
            memory,
            registers: Registers::new(),
            flags: StatusFlags::new(),
            current_op: Instruction::new(),
            out: 0,
            interrupts_enabled: false,
        }
    }

    /// A processor with all memory zero.
    pub fn empty() -> (r: Processor)
        ensures
            r@ == cold_state(loaded(Seq::empty())),
    {
        Processor::from_bytes(Vec::new())
    }

    /// Returns the CPU state to its cold-start values; memory is kept.
    pub fn reset(&mut self)
        ensures
            final(self)@ == cold_state(old(self)@.memory),
    {
        proof {
            use_type_invariant(&*self);
        }
        self.stack_pointer = 0x20;
        self.program_counter = 0;
        self.flags = StatusFlags::new();
        self.current_op = Instruction::new();
        self.registers = Registers::new();
        self.out = 0;
        self.interrupts_enabled = false;
    }

    /// Sets the PC to 0.
    pub fn reset_pc(&mut self)
        ensures
            final(self)@ == (CpuState { program_counter: 0, ..old(self)@ }),
    {
        proof {
            use_type_invariant(&*self);
        }
        self.program_counter = 0;
    }

    /// The byte at an address.
    pub fn get_memory_at(&self, addr: u16) -> (r: u8)
        ensures
            r == peek(self@, addr),
    {
        proof {
            use_type_invariant(self);
        }
        self.memory[addr as usize]
    }

    /// Writes the byte at an address.
    pub fn set_memory_at(&mut self, addr: u16, val: u8)
        ensures
            final(self)@ == poke(old(self)@, addr, val),
        no_unwind
    {
        proof {
            use_type_invariant(&*self);
        }
        self.memory[addr as usize] = val;
    }

    /// The flags.
    pub fn get_flags(&self) -> (r: StatusFlags)
        ensures
            r == self@.flags,
    {
        self.flags
    }

    /// The register file.
    pub fn get_registers(&self) -> (r: Registers)
        ensures
            r == self@.registers,
    {
        self.registers
    }

    /// The program counter.
    pub fn get_pc(&self) -> (r: u16)
        ensures
            r == self@.program_counter,
    {
        self.program_counter
    }

    /// The instruction decoded by the last fetch.
    pub fn get_current_op(&self) -> (r: Instruction)
        ensures
            r == self@.current_op,
    {
        self.current_op
    }

    /// The stack pointer.
    pub fn get_stack_pointer(&self) -> (r: u16)
        ensures
            r == self@.stack_pointer,
    {
        self.stack_pointer
    }

    /// The last byte written by OUT.
    pub fn get_out(&self) -> (r: u8)
        ensures
            r == self@.out,
    {
        self.out
    }

    /// The interrupt-enable latch.
    pub fn get_interrupts_enabled(&self) -> (r: bool)
        ensures
            r == self@.interrupts_enabled,
    {
        self.interrupts_enabled
    }

    /// A copy of the whole memory.
    pub fn get_memory(&self) -> (r: Vec<u8>)
        ensures
            r@ == self@.memory,
    {
        let r = self.memory.clone();
        assert(r@ =~= self.memory@);
        r
    }

    /// Replaces the whole register file.
    pub fn set_all_registers(&mut self, reg: Registers)
        ensures
            final(self)@ == (CpuState { registers: reg, ..old(self)@ }),
    {
        proof {
            use_type_invariant(&*self);
        }
        self.registers = reg;
    }

    /// The byte after the opcode at PC.
    pub fn get_immediate(&self) -> (r: u8)
        ensures
            r == imm8(self@),
    {
        self.get_memory_at(add_wrap(self.program_counter, 1))
    }

    /// The little-endian word after the opcode at PC.
    pub fn get_direct_address(&self) -> (r: u16)
        ensures
            r == imm16(self@),
    {
        let lsb = self.get_memory_at(add_wrap(self.program_counter, 1));
        let msb = self.get_memory_at(add_wrap(self.program_counter, 2));
        make_word(msb, lsb)
    }

    /// Sets C and AC as given and S, Z, P from `res`.
    pub fn set_flags_cszp(&mut self, carry: bool, auxiliary_flag: bool, res: u8)
        ensures
            final(self)@ == (CpuState {
                flags: result_flags(res, carry, auxiliary_flag),
                ..old(self)@
            }),
    {
        proof {
            use_type_invariant(&*self);
        }
        self.flags = flags_for(res, carry, auxiliary_flag);
    }

    /// The value of a register index; index 6 reads memory at HL.
    fn get_reg(&self, reg: u8) -> (r: u8)
        requires
            reg < 8,
        ensures
            r == reg_value(self@, reg),
    {
        match reg {
            B_REG => self.registers.b,
            C_REG => self.registers.c,
            D_REG => self.registers.d,
            E_REG => self.registers.e,
            H_REG => self.registers.h,
            L_REG => self.registers.l,
            MEM_REF => self.get_memory_at(self.registers.get_hl()),
            _ => self.registers.accumulator,
        }
    }

    /// Writes a register index; index 6 writes memory at HL.
    fn set_reg(&mut self, reg: u8, val: u8)
        requires
            reg < 8,
        ensures
            final(self)@ == with_reg(old(self)@, reg, val),
    {
        proof {
            use_type_invariant(&*self);
        }
        match reg {
            B_REG => self.registers.b = val,
            C_REG => self.registers.c = val,
            D_REG => self.registers.d = val,
            E_REG => self.registers.e = val,
            H_REG => self.registers.h = val,
            L_REG => self.registers.l = val,
            MEM_REF => {
                let addr = self.registers.get_hl();
                self.set_memory_at(addr, val);
            },
            _ => self.registers.accumulator = val,
        }
    }

    /// The (high, low) bytes of a register pair; index 3 is the PSW while a
    /// PUSH or POP executes, else SP.
    fn get_reg_pair(&self, reg: u8) -> (r: (u8, u8))
        ensures
            r == pair(self@, reg),
    {
        match reg {
            BC_PAIR_REG => (self.registers.b, self.registers.c),
            DE_PAIR_REG => (self.registers.d, self.registers.e),
            HL_PAIR_REG => (self.registers.h, self.registers.l),
            _ => {
                if self.current_op.kind == InstructionTypes::PUSH || self.current_op.kind
                    == InstructionTypes::POP {
                    (self.registers.accumulator, self.flags.to_psw_byte())
                } else {
                    ((self.stack_pointer / 256) as u8, (self.stack_pointer % 256) as u8)
                }
            },
        }
    }

    /// Writes a register pair from its high and low bytes; index 3 is the PSW
    /// while a PUSH or POP executes, else SP.
    fn set_reg_pair(&mut self, reg: u8, msb_val: u8, lsb_val: u8)
        ensures
            final(self)@ == with_pair(old(self)@, reg, msb_val, lsb_val),
    {
        proof {
            use_type_invariant(&*self);
        }
        match reg {
            BC_PAIR_REG => {
                self.registers.b = msb_val;
                self.registers.c = lsb_val;
            },
            DE_PAIR_REG => {
                self.registers.d = msb_val;
                self.registers.e = lsb_val;
            },
            HL_PAIR_REG => {
                self.registers.h = msb_val;
                self.registers.l = lsb_val;
            },
            _ => {
                if self.current_op.kind == InstructionTypes::PUSH || self.current_op.kind
                    == InstructionTypes::POP {
                    self.flags = StatusFlags::from_psw_byte(lsb_val);
                    self.registers.accumulator = msb_val;
                } else {
                    self.stack_pointer = make_word(msb_val, lsb_val);
                }
            },
        }
    }

    /// The 16-bit value of a register pair.
    fn get_pair_word(&self, reg: u8) -> (r: u16)
        ensures
            r == pair_word(self@, reg),
    {
        let (msb, lsb) = self.get_reg_pair(reg);
        make_word(msb, lsb)
    }

    /// Sets a register pair to a 16-bit value.
    fn set_pair_word(&mut self, reg: u8, val: u16)
        ensures
            final(self)@ == with_pair_word(old(self)@, reg, val),
    {
        self.set_reg_pair(reg, (val / 256) as u8, (val % 256) as u8);
    }

    /// Pushes a word: high byte at SP-1, low byte at SP-2, then SP -= 2.
    fn push_word(&mut self, msb: u8, lsb: u8)
        ensures
            final(self)@ == push(old(self)@, msb, lsb),
    {
        proof {
            use_type_invariant(&*self);
        }
        let hi_addr = sub_wrap(self.stack_pointer, 1);
        let lo_addr = sub_wrap(self.stack_pointer, 2);
        self.set_memory_at(hi_addr, msb);
        self.set_memory_at(lo_addr, lsb);
        self.stack_pointer = lo_addr;
    }

    /// Pops a word: low byte from SP, high byte from SP+1, then SP += 2.
    /// Returns (high, low).
    fn pop_word(&mut self) -> (r: (u8, u8))
        ensures
            r == top(old(self)@),
            final(self)@ == drop_top(old(self)@),
    {
        proof {
            use_type_invariant(&*self);
        }
        let lsb = self.get_memory_at(self.stack_pointer);
        let msb = self.get_memory_at(add_wrap(self.stack_pointer, 1));
        self.stack_pointer = add_wrap(self.stack_pointer, 2);
        (msb, lsb)
    }

    /// Sets the accumulator and the flags from an ALU outcome.
    fn set_outcome(&mut self, o: (u8, StatusFlags))
        ensures
            final(self)@ == with_outcome(old(self)@, o),
    {
        proof {
            use_type_invariant(&*self);
        }
        self.registers.accumulator = o.0;
        self.flags = o.1;
    }

    /// ADD or ADC: A + val (+ C), all five flags set.
    fn add_op(&mut self, val: u8, with_carry: bool)
        ensures
            final(self)@ == with_outcome(
                old(self)@,
                add_outcome(
                    old(self)@.registers.accumulator,
                    val,
                    with_carry && old(self)@.flags.carry_flag,
                ),
            ),
    {
        let cin = with_carry && self.flags.carry_flag;
        let o = add8(self.registers.accumulator, val, cin);
        self.set_outcome(o);
    }

    /// SUB or SBB: A - val (- C), all five flags set; C is the borrow.
    fn sub_op(&mut self, val: u8, with_carry: bool)
        ensures
            final(self)@ == with_outcome(
                old(self)@,
                sub_outcome(
                    old(self)@.registers.accumulator,
                    val,
                    with_carry && old(self)@.flags.carry_flag,
                ),
            ),
    {
        let cin = with_carry && self.flags.carry_flag;
        let o = sub8(self.registers.accumulator, val, cin);
        self.set_outcome(o);
    }

    /// ANA: A & val; C and AC cleared.
    fn ana_op(&mut self, val: u8)
        ensures
            final(self)@ == with_outcome(
                old(self)@,
                logic_outcome(old(self)@.registers.accumulator & val),
            ),
    {
        let res = self.registers.accumulator & val;
        let f = flags_for(res, false, false);
        self.set_outcome((res, f));
    }

    /// ORA: A | val; C and AC cleared.
    fn ora_op(&mut self, val: u8)
        ensures
            final(self)@ == with_outcome(
                old(self)@,
                logic_outcome(old(self)@.registers.accumulator | val),
            ),
    {
        let res = self.registers.accumulator | val;
        let f = flags_for(res, false, false);
        self.set_outcome((res, f));
    }

    /// XRA: A ^ val; C and AC cleared.
    fn xra_op(&mut self, val: u8)
        ensures
            final(self)@ == with_outcome(
                old(self)@,
                logic_outcome(old(self)@.registers.accumulator ^ val),
            ),
    {
        let res = self.registers.accumulator ^ val;
        let f = flags_for(res, false, false);
        self.set_outcome((res, f));
    }

    /// CMP: the flags of A - val; A is kept.
    fn cmp_op(&mut self, val: u8)
        ensures
            final(self)@ == (CpuState {
                flags: sub_outcome(old(self)@.registers.accumulator, val, false).1,
                ..old(self)@
            }),
    {
        proof {
            use_type_invariant(&*self);
        }
        let o = sub8(self.registers.accumulator, val, false);
        self.flags = o.1;
    }

    /// The ALU operation numbered `op` (bits 5..3 of the opcode) on A and `val`.
    fn alu_op(&mut self, op: u8, val: u8)
        ensures
            final(self)@ == alu(old(self)@, op, val),
    {
        if op == 0 {
            self.add_op(val, false);
        } else if op == 1 {
            self.add_op(val, true);
        } else if op == 2 {
            self.sub_op(val, false);
        } else if op == 3 {
            self.sub_op(val, true);
        } else if op == 4 {
            self.ana_op(val);
        } else if op == 5 {
            self.xra_op(val);
        } else if op == 6 {
            self.ora_op(val);
        } else {
            self.cmp_op(val);
        }
    }

    /// MOV: the destination register gets the source register.
    fn mov_op(&mut self, ins: Instruction)
        requires
            ins.low3 < 8,
            ins.high3 < 8,
        ensures
            final(self)@ == with_reg(old(self)@, ins.high3, reg_value(old(self)@, ins.low3)),
    {
        let val = self.get_reg(ins.low3);
        self.set_reg(ins.high3, val);
    }

    /// MVI: the destination register gets the immediate byte.
    fn mvi_op(&mut self, ins: Instruction)
        requires
            ins.high3 < 8,
        ensures
            final(self)@ == with_reg(old(self)@, ins.high3, imm8(old(self)@)),
    {
        let val = self.get_immediate();
        self.set_reg(ins.high3, val);
    }

    /// INR (`up`) or DCR on a register: S, Z, P from the result, AC from the
    /// old low nibble, C kept.
    fn count_op(&mut self, reg: u8, up: bool)
        requires
            reg < 8,
        ensures
            final(self)@ == step_count(old(self)@, reg, up),
    {
        proof {
            use_type_invariant(&*self);
        }
        let val = self.get_reg(reg);
        let res: u8 = if up {
            ((val as u16 + 1) % 256) as u8
        } else {
            ((val as u16 + 255) % 256) as u8
        };
        let aux = if up {
            val % 16 == 15
        } else {
            val % 16 == 0
        };
        self.set_reg(reg, res);
        self.flags = flags_for(res, self.flags.carry_flag, aux);
    }

    /// LDA: A gets the byte at the immediate address.
    fn lda_op(&mut self)
        ensures
            final(self)@ == with_reg(old(self)@, 7, peek(old(self)@, imm16(old(self)@))),
    {
        let addr = self.get_direct_address();
        let val = self.get_memory_at(addr);
        self.set_reg(A_REG, val);
    }

    /// STA: A is stored at the immediate address.
    fn sta_op(&mut self)
        ensures
            final(self)@ == poke(old(self)@, imm16(old(self)@), old(self)@.registers.accumulator),
    {
        let addr = self.get_direct_address();
        let val = self.registers.accumulator;
        self.set_memory_at(addr, val);
    }

    /// LHLD: L and H get the bytes at the immediate address and the next one.
    fn lhld_op(&mut self)
        ensures
            final(self)@ == (CpuState {
                registers: Registers {
                    l: peek(old(self)@, imm16(old(self)@)),
                    h: peek(old(self)@, wrap16(imm16(old(self)@) + 1)),
                    ..old(self)@.registers
                },
                ..old(self)@
            }),
    {
        proof {
            use_type_invariant(&*self);
        }
        let addr = self.get_direct_address();
        let l = self.get_memory_at(addr);
        let h = self.get_memory_at(add_wrap(addr, 1));
        self.registers.l = l;
        self.registers.h = h;
    }

    /// SHLD: L and H are stored at the immediate address and the next one.
    fn shld_op(&mut self)
        ensures
            final(self)@ == poke(
                poke(old(self)@, imm16(old(self)@), old(self)@.registers.l),
                wrap16(imm16(old(self)@) + 1),
                old(self)@.registers.h,
            ),
    {
        let addr = self.get_direct_address();
        let l = self.registers.l;
        let h = self.registers.h;
        self.set_memory_at(addr, l);
        self.set_memory_at(add_wrap(addr, 1), h);
    }

    /// LDAX: A gets the byte that BC (rp even) or DE (rp odd) points at.
    fn ldax_op(&mut self, ins: Instruction)
        ensures
            final(self)@ == with_reg(
                old(self)@,
                7,
                peek(old(self)@, pair_word(old(self)@, ins.rp % 2)),
            ),
    {
        let addr = self.get_pair_word(ins.rp % 2);
        let val = self.get_memory_at(addr);
        self.set_reg(A_REG, val);
    }

    /// STAX: A is stored where BC (rp even) or DE (rp odd) points.
    fn stax_op(&mut self, ins: Instruction)
        ensures
            final(self)@ == poke(
                old(self)@,
                pair_word(old(self)@, ins.rp % 2),
                old(self)@.registers.accumulator,
            ),
    {
        let addr = self.get_pair_word(ins.rp % 2);
        let val = self.registers.accumulator;
        self.set_memory_at(addr, val);
    }

    /// XCHG: DE and HL swap.
    fn xchg_op(&mut self)
        ensures
            final(self)@ == (CpuState {
                registers: Registers {
                    d: old(self)@.registers.h,
                    e: old(self)@.registers.l,
                    h: old(self)@.registers.d,
                    l: old(self)@.registers.e,
                    ..old(self)@.registers
                },
                ..old(self)@
            }),
    {
        let regs = self.get_registers();
        self.set_reg(D_REG, regs.h);
        self.set_reg(H_REG, regs.d);
        self.set_reg(E_REG, regs.l);
        self.set_reg(L_REG, regs.e);
    }

    /// XTHL: L swaps with the byte at SP, H with the byte at SP+1.
    fn xthl_op(&mut self)
        ensures
            final(self)@ == (CpuState {
                registers: Registers {
                    h: top(old(self)@).0,
                    l: top(old(self)@).1,
                    ..old(self)@.registers
                },
                ..poke(
                    poke(old(self)@, old(self)@.stack_pointer, old(self)@.registers.l),
                    wrap16(old(self)@.stack_pointer + 1),
                    old(self)@.registers.h,
                )
            }),
    {
        proof {
            use_type_invariant(&*self);
        }
        let sp = self.stack_pointer;
        let lo = self.get_memory_at(sp);
        let hi = self.get_memory_at(add_wrap(sp, 1));
        let l = self.registers.l;
        let h = self.registers.h;
        self.set_memory_at(sp, l);
        self.set_memory_at(add_wrap(sp, 1), h);
        self.registers.h = hi;
        self.registers.l = lo;
    }

    /// INX (`up`) or DCX on a register pair; no flag changes.
    fn step_pair_op(&mut self, ins: Instruction, up: bool)
        ensures
            final(self)@ == with_pair_word(
                old(self)@,
                ins.rp,
                if up {
                    wrap16(pair_word(old(self)@, ins.rp) + 1)
                } else {
                    wrap16(pair_word(old(self)@, ins.rp) - 1)
                },
            ),
    {
        let val = self.get_pair_word(ins.rp);
        let res = if up {
            add_wrap(val, 1)
        } else {
            sub_wrap(val, 1)
        };
        self.set_pair_word(ins.rp, res);
    }

    /// DAD: HL += the pair; only C changes, from the 16-bit carry.
    fn dad_op(&mut self, ins: Instruction)
        ensures
            final(self)@ == (CpuState {
                flags: StatusFlags {
                    carry_flag: old(self)@.registers.hl() + pair_word(old(self)@, ins.rp) > 0xFFFF,
                    ..old(self)@.flags
                },
                ..with_pair_word(
                    old(self)@,
                    2,
                    wrap16(old(self)@.registers.hl() + pair_word(old(self)@, ins.rp)),
                )
            }),
    {
        proof {
            use_type_invariant(&*self);
        }
        let other = self.get_pair_word(ins.rp);
        let sum: u32 = self.registers.get_hl() as u32 + other as u32;
        self.set_pair_word(HL_PAIR_REG, (sum % 0x10000) as u16);
        self.flags.carry_flag = sum > 0xFFFF;
    }

    /// Sets A and C together.
    fn set_a_carry(&mut self, a: u8, carry: bool)
        ensures
            final(self)@ == with_a_carry(old(self)@, a, carry),
    {
        proof {
            use_type_invariant(&*self);
        }
        self.registers.accumulator = a;
        self.flags.carry_flag = carry;
    }

    /// RLC: A rotated left; C gets the old bit 7.
    fn rlc_op(&mut self)
        ensures
            final(self)@ == with_a_carry(
                old(self)@,
                rotate_left(old(self)@.registers.accumulator),
                old(self)@.registers.accumulator >= 128,
            ),
    {
        let a = self.registers.accumulator;
        let res = ((a as u16 * 2) % 256 + a as u16 / 128) as u8;
        self.set_a_carry(res, a >= 128);
    }

    /// RRC: A rotated right; C gets the old bit 0.
    fn rrc_op(&mut self)
        ensures
            final(self)@ == with_a_carry(
                old(self)@,
                rotate_right(old(self)@.registers.accumulator),
                old(self)@.registers.accumulator % 2 == 1,
            ),
    {
        let a = self.registers.accumulator;
        let res = (a as u16 / 2 + (a as u16 % 2) * 128) as u8;
        self.set_a_carry(res, a % 2 == 1);
    }

    /// RAL: A rotated left through C.
    fn ral_op(&mut self)
        ensures
            final(self)@ == with_a_carry(
                old(self)@,
                ((old(self)@.registers.accumulator * 2) % 256 + (if old(self)@.flags.carry_flag {
                    1int
                } else {
                    0
                })) as u8,
                old(self)@.registers.accumulator >= 128,
            ),
    {
        let a = self.registers.accumulator;
        let c: u16 = if self.flags.carry_flag { 1 } else { 0 };
        let res = ((a as u16 * 2) % 256 + c) as u8;
        self.set_a_carry(res, a >= 128);
    }

    /// RAR: A rotated right through C.
    fn rar_op(&mut self)
        ensures
            final(self)@ == with_a_carry(
                old(self)@,
                (old(self)@.registers.accumulator / 2 + (if old(self)@.flags.carry_flag {
                    128int
                } else {
                    0
                })) as u8,
                old(self)@.registers.accumulator % 2 == 1,
            ),
    {
        let a = self.registers.accumulator;
        let c: u16 = if self.flags.carry_flag { 128 } else { 0 };
        let res = (a as u16 / 2 + c) as u8;
        self.set_a_carry(res, a % 2 == 1);
    }

    /// DAA: adjusts A to two BCD digits.
    fn daa_op(&mut self)
        ensures
            final(self)@ == decimal_adjust(old(self)@),
    {
        proof {
            use_type_invariant(&*self);
        }
        let a = self.registers.accumulator;
        let mut adj: u16 = 0;
        if a % 16 > 9 || self.flags.auxiliary_flag {
            adj = adj + 6;
        }
        if a > 0x99 || self.flags.carry_flag {
            adj = adj + 0x60;
        }
        let res = ((a as u16 + adj) % 256) as u8;
        let carry = self.flags.carry_flag || a > 0x99;
        let aux = (a % 16) as u16 + adj % 16 > 15;
        self.flags = flags_for(res, carry, aux);
        self.registers.accumulator = res;
    }

    /// PUSH: the pair (PSW for index 3) goes on the stack.
    fn push_op(&mut self, ins: Instruction)
        ensures
            final(self)@ == push(old(self)@, pair(old(self)@, ins.rp).0, pair(old(self)@, ins.rp).1),
    {
        let (msb, lsb) = self.get_reg_pair(ins.rp);
        self.push_word(msb, lsb);
    }

    /// POP: the pair (PSW for index 3) comes off the stack.
    fn pop_op(&mut self, ins: Instruction)
        ensures
            final(self)@ == with_pair(
                drop_top(old(self)@),
                ins.rp,
                top(old(self)@).0,
                top(old(self)@).1,
            ),
    {
        let (msb, lsb) = self.pop_word();
        self.set_reg_pair(ins.rp, msb, lsb);
    }

    /// The branch condition of bits 5..3 on the current flags.
    fn condition_holds(&self, y: u8) -> (r: bool)
        ensures
            r == condition(self@.flags, y),
    {
        let f = self.flags;
        if y == 0 {
            !f.zero_flag
        } else if y == 1 {
            f.zero_flag
        } else if y == 2 {
            !f.carry_flag
        } else if y == 3 {
            f.carry_flag
        } else if y == 4 {
            !f.parity_flag
        } else if y == 5 {
            f.parity_flag
        } else if y == 6 {
            !f.sign_flag
        } else {
            f.sign_flag
        }
    }

    /// True when the instruction will set the PC to a target of its own.
    fn takes_branch(&self, ins: Instruction) -> (r: bool)
        ensures
            r == transfers_control(self@, ins),
    {
        match ins.kind {
            InstructionTypes::JMP | InstructionTypes::CALL | InstructionTypes::RET
            | InstructionTypes::RST | InstructionTypes::PCHL => true,
            InstructionTypes::JC | InstructionTypes::JNC | InstructionTypes::JZ
            | InstructionTypes::JNZ | InstructionTypes::JPE | InstructionTypes::JPO
            | InstructionTypes::JP | InstructionTypes::JM | InstructionTypes::CC
            | InstructionTypes::CNC | InstructionTypes::CZ | InstructionTypes::CNZ
            | InstructionTypes::CPE | InstructionTypes::CPO | InstructionTypes::CP
            | InstructionTypes::CM | InstructionTypes::RC | InstructionTypes::RNC
            | InstructionTypes::RZ | InstructionTypes::RNZ | InstructionTypes::RPE
            | InstructionTypes::RPO | InstructionTypes::RP | InstructionTypes::RM => {
                self.condition_holds(ins.high3)
            },
            _ => false,
        }
    }

    /// Sets the PC to `target`.
    fn jump_to(&mut self, target: u16)
        ensures
            final(self)@ == jump(old(self)@, target),
    {
        proof {
            use_type_invariant(&*self);
        }
        self.program_counter = target;
    }

    /// JMP: the PC gets the immediate address.
    fn jmp_op(&mut self)
        ensures
            final(self)@ == jump(old(self)@, imm16(old(self)@)),
    {
        let addr = self.get_direct_address();
        self.jump_to(addr);
    }

    /// CALL to `target` from an instruction of `len` bytes: the address of the
    /// next instruction is pushed, then the PC gets `target`.
    fn call_op(&mut self, target: u16, len: u16)
        ensures
            final(self)@ == call(old(self)@, target, len as int),
    {
        let next_addr = add_wrap(self.program_counter, len);
        self.push_word((next_addr / 256) as u8, (next_addr % 256) as u8);
        self.jump_to(target);
    }

    /// RET: the PC comes off the stack.
    fn ret_op(&mut self)
        ensures
            final(self)@ == ret(old(self)@),
    {
        let (msb, lsb) = self.pop_word();
        self.jump_to(make_word(msb, lsb));
    }

    /// Performs a jump, call, return, restart or PCHL that is taken.
    fn branch_op(&mut self, ins: Instruction)
        ensures
            final(self)@ == branch(old(self)@, ins),
    {
        reveal(branch);
        match ins.kind {
            InstructionTypes::RET | InstructionTypes::RC | InstructionTypes::RNC
            | InstructionTypes::RZ | InstructionTypes::RNZ | InstructionTypes::RPE
            | InstructionTypes::RPO | InstructionTypes::RP | InstructionTypes::RM => {
                self.ret_op()
            },
            InstructionTypes::RST => self.call_op((ins.high3 as u16) * 8, 1),
            InstructionTypes::PCHL => {
                let hl = self.registers.get_hl();
                self.jump_to(hl);
            },
            InstructionTypes::JMP | InstructionTypes::JC | InstructionTypes::JNC
            | InstructionTypes::JZ | InstructionTypes::JNZ | InstructionTypes::JPE
            | InstructionTypes::JPO | InstructionTypes::JP | InstructionTypes::JM => {
                self.jmp_op()
            },
            _ => {
                let addr = self.get_direct_address();
                self.call_op(addr, 3);
            },
        }
    }

    /// Performs what a non-branching instruction does, the PC aside.
    #[verifier::rlimit(40)]
    fn apply_effect(&mut self, ins: Instruction)
        requires
            ins == decode(ins.raw),
            old(self)@.current_op == ins,
        ensures
            final(self)@ == effect(old(self)@, ins),
    {
        reveal(effect);
        proof {
            use_type_invariant(&*self);
        }
        match ins.kind {
            InstructionTypes::MOV => self.mov_op(ins),
            InstructionTypes::MVI => self.mvi_op(ins),
            InstructionTypes::ADD | InstructionTypes::ADC | InstructionTypes::SUB
            | InstructionTypes::SBB | InstructionTypes::ANA | InstructionTypes::XRA
            | InstructionTypes::ORA | InstructionTypes::CMP => {
                let val = self.get_reg(ins.low3);
                self.alu_op(ins.high3, val);
            },
            InstructionTypes::ADI | InstructionTypes::ACI | InstructionTypes::SUI
            | InstructionTypes::SBI | InstructionTypes::ANI | InstructionTypes::XRI
            | InstructionTypes::ORI | InstructionTypes::CPI => {
                let val = self.get_immediate();
                self.alu_op(ins.high3, val);
            },
            InstructionTypes::LXI => {
                let val = self.get_direct_address();
                self.set_pair_word(ins.rp, val);
            },
            InstructionTypes::LDA => self.lda_op(),
            InstructionTypes::STA => self.sta_op(),
            InstructionTypes::LHLD => self.lhld_op(),
            InstructionTypes::SHLD => self.shld_op(),
            InstructionTypes::LDAX => self.ldax_op(ins),
            InstructionTypes::STAX => self.stax_op(ins),
            InstructionTypes::XCHG => self.xchg_op(),
            InstructionTypes::XTHL => self.xthl_op(),
            InstructionTypes::INR => self.count_op(ins.high3, true),
            InstructionTypes::DCR => self.count_op(ins.high3, false),
            InstructionTypes::INX => self.step_pair_op(ins, true),
            InstructionTypes::DCX => self.step_pair_op(ins, false),
            InstructionTypes::DAD => self.dad_op(ins),
            InstructionTypes::RLC => self.rlc_op(),
            InstructionTypes::RRC => self.rrc_op(),
            InstructionTypes::RAL => self.ral_op(),
            InstructionTypes::RAR => self.rar_op(),
            InstructionTypes::DAA => self.daa_op(),
            InstructionTypes::CMA => {
                let a = self.registers.accumulator;
                self.set_reg(A_REG, 255 - a);
            },
            InstructionTypes::STC => self.flags.carry_flag = true,
            InstructionTypes::CMC => self.flags.carry_flag = !self.flags.carry_flag,
            InstructionTypes::SPHL => self.stack_pointer = self.registers.get_hl(),
            InstructionTypes::PUSH => self.push_op(ins),
            InstructionTypes::POP => self.pop_op(ins),
            InstructionTypes::OUT => self.out = self.registers.accumulator,
            InstructionTypes::EI => self.interrupts_enabled = true,
            InstructionTypes::DI => self.interrupts_enabled = false,
            _ => {},
        }
    }

    /// Moves the PC `len` bytes on; false when it wrapped past 0xFFFF.
    fn update_program_counter(&mut self, len: u16) -> (running: bool)
        ensures
            final(self)@ == advance(old(self)@, len as int),
            running == (old(self)@.program_counter + len <= 0xFFFF),
    {
        proof {
            use_type_invariant(&*self);
        }
        let running = self.program_counter as u32 + len as u32 <= 0xFFFF;
        self.program_counter = add_wrap(self.program_counter, len);
        running
    }

    /// Executes the instruction in `current_op`, PC included. Returns false
    /// when it fell through past 0xFFFF.
    fn execute_instruction(&mut self) -> (running: bool)
        requires
            old(self)@.current_op == decode(old(self)@.current_op.raw),
        ensures
            final(self)@ == execute(old(self)@, old(self)@.current_op),
            running == !(!transfers_control(old(self)@, old(self)@.current_op)
                && old(self)@.program_counter + instruction_length(old(self)@.current_op.kind)
                > 0xFFFF),
    {
        let ins = self.current_op;
        if self.takes_branch(ins) {
            self.branch_op(ins);
            true
        } else {
            proof {
                lemma_effect_keeps_pc(self@, ins);
            }
            self.apply_effect(ins);
            let len = ins.length();
            self.update_program_counter(len as u16)
        }
    }

    /// Decodes the opcode at PC into `current_op`.
    pub fn fetch_instruction(&mut self)
        ensures
            final(self)@ == fetched(old(self)@),
    {
        proof {
            use_type_invariant(&*self);
        }
        let opcode = self.get_memory_at(self.program_counter);
        self.current_op = Instruction::from_byte(opcode);
    }

    /// One step: fetch the opcode at PC, decode it, execute it, and move the PC
    /// to the next instruction or the branch target. Returns false when the
    /// step ran off the top of memory and the PC wrapped to the bottom.
    pub fn clock(&mut self) -> (running: bool)
        ensures
            final(self)@ == next_state(old(self)@),
            running == !wraps_around(old(self)@),
    {
        proof {
            reveal(next_state);
        }
        self.fetch_instruction();
        self.execute_instruction()
    }

    /// `n` (address, opcode, mnemonic) entries decoded from PC on, one per byte.
    pub fn disassemble_ahead(&self, n: u16) -> (r: Vec<(u16, u8, String)>)
        ensures
            r@.len() == n,
            forall|x: int|
                0 <= x < n ==> {
                    let a = wrap16(self@.program_counter + x);
                    &&& (#[trigger] r@[x]).0 == a
                    &&& r@[x].1 == peek(self@, a)
                    &&& r@[x].2@ == mnemonic_of(decode(peek(self@, a)))
                },
    {
        let mut r: Vec<(u16, u8, String)> = Vec::new();
        let mut x: u16 = 0;
        while x < n
            invariant
                x <= n,
                r@.len() == x,
                forall|k: int|
                    0 <= k < x ==> {
                        let a = wrap16(self@.program_counter + k);
                        &&& (#[trigger] r@[k]).0 == a
                        &&& r@[k].1 == peek(self@, a)
                        &&& r@[k].2@ == mnemonic_of(decode(peek(self@, a)))
                    },
            decreases n - x,
        {
            let addr = add_wrap(self.program_counter, x);
            let op = self.get_memory_at(addr);
            let ins = Instruction::from_byte(op);
            r.push((addr, op, ins.mnemonic()));
            x = x + 1;
        }
        r
    }

    /// A blank line, then one line per byte for the next 48 bytes from PC:
    /// the address in decimal right-aligned to six places, the opcode in hex,
    /// and its mnemonic.
    pub fn get_instructions(&self) -> (r: Vec<String>)
        ensures
            r@.len() == DISASSEMBLY_LINES + 1,
            r@[0]@ == Seq::<char>::empty(),
            forall|x: int|
                0 <= x < DISASSEMBLY_LINES ==> (#[trigger] r@[x + 1])@ == disassembly_line(
                    self@,
                    x,
                ),
    {
        let entries = self.disassemble_ahead(DISASSEMBLY_LINES as u16);
        let mut r: Vec<String> = Vec::new();
        r.push(String::new());
        let mut x: usize = 0;
        while x < entries.len()
            invariant
                entries@.len() == DISASSEMBLY_LINES,
                x <= entries@.len(),
                r@.len() == x + 1,
                r@[0]@ == Seq::<char>::empty(),
                forall|k: int|
                    0 <= k < entries@.len() ==> {
                        let a = wrap16(self@.program_counter + k);
                        &&& (#[trigger] entries@[k]).0 == a
                        &&& entries@[k].1 == peek(self@, a)
                        &&& entries@[k].2@ == mnemonic_of(decode(peek(self@, a)))
                    },
                forall|k: int| 0 <= k < x ==> (#[trigger] r@[k + 1])@ == disassembly_line(self@, k),
            decreases entries@.len() - x,
        {
            let (addr, op, ref name) = entries[x];
            let mut line = padded(decimal_text(addr as u32), 6);
            line.append(":     0x");
            line.append(hex_text(op).as_str());
            line.append(" ");
            line.append(name.as_str());
            proof {
                assert(line@ =~= disassembly_line(self@, x as int));
            }
            r.push(line);
            x = x + 1;
        }
        r
    }

} // impl Processor

} // verus!

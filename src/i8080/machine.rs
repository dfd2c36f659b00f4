use vstd::prelude::*;
use crate::i8080::alu::{add_outcome, logic_outcome, pop_count, sub_outcome};
use crate::i8080::flags::{flags_of_psw, psw_byte, StatusFlags};
use crate::i8080::instructions::{decode, instruction_length, Instruction, InstructionTypes};
use crate::i8080::registers::{word, Registers};

verus! {

/// The number of addressable memory cells.
pub const MEMORY_SIZE: usize = 0x10000;

/// The whole visible state of the machine.
pub ghost struct CpuState {
    pub memory: Seq<u8>,
    pub registers: Registers,
    pub flags: StatusFlags,
    pub stack_pointer: u16,
    pub program_counter: u16,
    pub current_op: Instruction,
    pub out: u8,
    pub interrupts_enabled: bool,
}

/// A 16-bit address computed modulo 0x10000.
pub open spec fn wrap16(x: int) -> u16 {
    (x % 0x10000) as u16
}

/// The byte at an address.
pub open spec fn peek(s: CpuState, a: u16) -> u8 {
    s.memory[a as int]
}

/// The state with one memory cell replaced.
pub open spec fn poke(s: CpuState, a: u16, v: u8) -> CpuState {
    CpuState { memory: s.memory.update(a as int, v), ..s }
}

/// The byte after the opcode.
pub open spec fn imm8(s: CpuState) -> u8 {
    peek(s, wrap16(s.program_counter + 1))
}

/// The little-endian word after the opcode.
pub open spec fn imm16(s: CpuState) -> u16 {
    word(peek(s, wrap16(s.program_counter + 2)), peek(s, wrap16(s.program_counter + 1)))
}

/// The state with the PC moved `n` bytes on.
pub open spec fn advance(s: CpuState, n: int) -> CpuState {
    CpuState { program_counter: wrap16(s.program_counter + n), ..s }
}

/// The state with the PC set to `a`.
pub open spec fn jump(s: CpuState, a: u16) -> CpuState {
    CpuState { program_counter: a, ..s }
}

/// The value of a register index; index 6 reads memory at HL.
pub open spec fn reg(s: CpuState, r: u8) -> u8 {
    let g = s.registers;
    if r == 0 {
        g.b
    } else if r == 1 {
        g.c
    } else if r == 2 {
        g.d
    } else if r == 3 {
        g.e
    } else if r == 4 {
        g.h
    } else if r == 5 {
        g.l
    } else if r == 6 {
        peek(s, g.hl())
    } else {
        g.accumulator
    }
}

/// The state with a register index written; index 6 writes memory at HL.
pub open spec fn with_reg(s: CpuState, r: u8, v: u8) -> CpuState {
    let g = s.registers;
    if r == 0 {
        CpuState { registers: Registers { b: v, ..g }, ..s }
    } else if r == 1 {
        CpuState { registers: Registers { c: v, ..g }, ..s }
    } else if r == 2 {
        CpuState { registers: Registers { d: v, ..g }, ..s }
    } else if r == 3 {
        CpuState { registers: Registers { e: v, ..g }, ..s }
    } else if r == 4 {
        CpuState { registers: Registers { h: v, ..g }, ..s }
    } else if r == 5 {
        CpuState { registers: Registers { l: v, ..g }, ..s }
    } else if r == 6 {
        poke(s, g.hl(), v)
    } else {
        CpuState { registers: Registers { accumulator: v, ..g }, ..s }
    }
}

/// True when pair index 3 names the PSW (for PUSH and POP) rather than SP.
pub open spec fn pair3_is_psw(s: CpuState) -> bool {
    s.current_op.kind == InstructionTypes::PUSH || s.current_op.kind == InstructionTypes::POP
}

/// The (high, low) bytes of a register pair: BC, DE, HL, then SP or the PSW
/// {A, flags}.
pub open spec fn pair(s: CpuState, rp: u8) -> (u8, u8) {
    let g = s.registers;
    if rp == 0 {
        (g.b, g.c)
    } else if rp == 1 {
        (g.d, g.e)
    } else if rp == 2 {
        (g.h, g.l)
    } else if pair3_is_psw(s) {
        (g.accumulator, psw_byte(s.flags))
    } else {
        ((s.stack_pointer / 256) as u8, (s.stack_pointer % 256) as u8)
    }
}

/// The 16-bit value of a register pair.
pub open spec fn pair_word(s: CpuState, rp: u8) -> u16 {
    word(pair(s, rp).0, pair(s, rp).1)
}

/// The state with a register pair written from its high and low bytes.
pub open spec fn with_pair(s: CpuState, rp: u8, msb: u8, lsb: u8) -> CpuState {
    let g = s.registers;
    if rp == 0 {
        CpuState { registers: Registers { b: msb, c: lsb, ..g }, ..s }
    } else if rp == 1 {
        CpuState { registers: Registers { d: msb, e: lsb, ..g }, ..s }
    } else if rp == 2 {
        CpuState { registers: Registers { h: msb, l: lsb, ..g }, ..s }
    } else if pair3_is_psw(s) {
        CpuState {
            registers: Registers { accumulator: msb, ..g },
            flags: flags_of_psw(lsb),
            ..s
        }
    } else {
        CpuState { stack_pointer: word(msb, lsb), ..s }
    }
}

/// The state with a register pair set to a 16-bit value.
pub open spec fn with_pair_word(s: CpuState, rp: u8, v: u16) -> CpuState {
    with_pair(s, rp, (v / 256) as u8, (v % 256) as u8)
}

/// Pushes a word: the high byte to SP-1, the low byte to SP-2, then SP -= 2.
pub open spec fn push(s: CpuState, msb: u8, lsb: u8) -> CpuState {
    let t = poke(poke(s, wrap16(s.stack_pointer - 1), msb), wrap16(s.stack_pointer - 2), lsb);
    CpuState { stack_pointer: wrap16(s.stack_pointer - 2), ..t }
}

/// The word on top of the stack: low byte at SP, high byte at SP+1.
pub open spec fn top(s: CpuState) -> (u8, u8) {
    (peek(s, wrap16(s.stack_pointer + 1)), peek(s, s.stack_pointer))
}

/// Drops the word on top of the stack.
pub open spec fn drop_top(s: CpuState) -> CpuState {
    CpuState { stack_pointer: wrap16(s.stack_pointer + 2), ..s }
}

/// The branch condition of bits 5..3: NZ, Z, NC, C, PO, PE, P, M.
pub open spec fn condition(f: StatusFlags, y: u8) -> bool {
    if y == 0 {
        !f.zero_flag
    } else if y == 1 {
        f.zero_flag
    } else if y == 2 {
        !f.carry_flag
    } else if y == 3 {
        f.carry_flag
    } else if y == 4 {
        !f.parity_flag
    } else if y == 5 {
        f.parity_flag
    } else if y == 6 {
        !f.sign_flag
    } else {
        f.sign_flag
    }
}

/// The accumulator and flags set from an ALU outcome.
pub open spec fn with_outcome(s: CpuState, o: (u8, StatusFlags)) -> CpuState {
    CpuState { registers: Registers { accumulator: o.0, ..s.registers }, flags: o.1, ..s }
}

/// One of ADD, ADC, SUB, SBB, ANA, XRA, ORA, CMP (by `op`, bits 5..3) of
/// the accumulator with `v`.
pub open spec fn alu(s: CpuState, op: u8, v: u8) -> CpuState {
    let a = s.registers.accumulator;
    let c = s.flags.carry_flag;
    if op == 0 {
        with_outcome(s, add_outcome(a, v, false))
    } else if op == 1 {
        with_outcome(s, add_outcome(a, v, c))
    } else if op == 2 {
        with_outcome(s, sub_outcome(a, v, false))
    } else if op == 3 {
        with_outcome(s, sub_outcome(a, v, c))
    } else if op == 4 {
        with_outcome(s, logic_outcome(a & v))
    } else if op == 5 {
        with_outcome(s, logic_outcome(a ^ v))
    } else if op == 6 {
        with_outcome(s, logic_outcome(a | v))
    } else {
        CpuState { flags: sub_outcome(a, v, false).1, ..s }
    }
}

/// INR or DCR on a register index: S, Z, P from the result, AC from the old
/// low nibble, C unchanged.
pub open spec fn step_count(s: CpuState, r: u8, up: bool) -> CpuState {
    let v = reg(s, r);
    let res: u8 = if up {
        ((v + 1) % 256) as u8
    } else {
        ((v + 255) % 256) as u8
    };
    let f = StatusFlags {
        sign_flag: res >= 0x80,
        zero_flag: res == 0,
        auxiliary_flag: if up {
            v % 16 == 15
        } else {
            v % 16 == 0
        },
        parity_flag: pop_count(res as nat) % 2 == 0,
        carry_flag: s.flags.carry_flag,
    };
    CpuState { flags: f, ..with_reg(s, r, res) }
}

/// The accumulator replaced and the carry set as given.
pub open spec fn with_a_carry(s: CpuState, a: u8, c: bool) -> CpuState {
    CpuState {
        registers: Registers { accumulator: a, ..s.registers },
        flags: StatusFlags { carry_flag: c, ..s.flags },
        ..s
    }
}

/// RLC: A rotated left; C gets the old bit 7.
pub open spec fn rotate_left(a: u8) -> u8 {
    ((a * 2) % 256 + a / 128) as u8
}

/// RRC: A rotated right; C gets the old bit 0.
pub open spec fn rotate_right(a: u8) -> u8 {
    (a / 2 + (a % 2) * 128) as u8
}

/// The decimal adjustment of DAA: what is added to A.
pub open spec fn daa_adjust(a: u8, f: StatusFlags) -> int {
    (if a % 16 > 9 || f.auxiliary_flag {
        6int
    } else {
        0
    }) + (if a > 0x99 || f.carry_flag {
        0x60int
    } else {
        0
    })
}

/// DAA: A adjusted to two BCD digits after an addition.
pub open spec fn decimal_adjust(s: CpuState) -> CpuState {
    let a = s.registers.accumulator;
    let adj = daa_adjust(a, s.flags);
    let res = ((a + adj) % 256) as u8;
    let f = StatusFlags {
        sign_flag: res >= 0x80,
        zero_flag: res == 0,
        auxiliary_flag: a % 16 + adj % 16 > 15,
        parity_flag: pop_count(res as nat) % 2 == 0,
        carry_flag: s.flags.carry_flag || a > 0x99,
    };
    CpuState { registers: Registers { accumulator: res, ..s.registers }, flags: f, ..s }
}

/// The state after a call to `target` from an instruction of `len` bytes.
pub open spec fn call(s: CpuState, target: u16, len: int) -> CpuState {
    let ret = wrap16(s.program_counter + len);
    jump(push(s, (ret / 256) as u8, (ret % 256) as u8), target)
}

/// The state after a return.
pub open spec fn ret(s: CpuState) -> CpuState {
    jump(drop_top(s), word(top(s).0, top(s).1))
}

/// True when the instruction sets the PC to a target of its own rather than
/// falling through to the next instruction.
pub open spec fn transfers_control(s: CpuState, ins: Instruction) -> bool {
    let cond = condition(s.flags, ins.high3);
    match ins.kind {
        InstructionTypes::JMP | InstructionTypes::CALL | InstructionTypes::RET
        | InstructionTypes::RST | InstructionTypes::PCHL => true,
        InstructionTypes::JC | InstructionTypes::JNC | InstructionTypes::JZ
        | InstructionTypes::JNZ | InstructionTypes::JPE | InstructionTypes::JPO
        | InstructionTypes::JP | InstructionTypes::JM | InstructionTypes::CC
        | InstructionTypes::CNC | InstructionTypes::CZ | InstructionTypes::CNZ
        | InstructionTypes::CPE | InstructionTypes::CPO | InstructionTypes::CP
        | InstructionTypes::CM | InstructionTypes::RC | InstructionTypes::RNC
        | InstructionTypes::RZ | InstructionTypes::RNZ | InstructionTypes::RPE
        | InstructionTypes::RPO | InstructionTypes::RP | InstructionTypes::RM => cond,
        _ => false,
    }
}

/// What an instruction does to the state apart from the PC; `s.current_op`
/// is `ins` and the PC still points at its opcode.
#[verifier::opaque]
pub open spec fn effect(s: CpuState, ins: Instruction) -> CpuState {
    let g = s.registers;
    let a = g.accumulator;
    match ins.kind {
        InstructionTypes::MOV => with_reg(s, ins.high3, reg(s, ins.low3)),
        InstructionTypes::MVI => with_reg(s, ins.high3, imm8(s)),
        InstructionTypes::ADD | InstructionTypes::ADC | InstructionTypes::SUB
        | InstructionTypes::SBB | InstructionTypes::ANA | InstructionTypes::XRA
        | InstructionTypes::ORA | InstructionTypes::CMP => alu(s, ins.high3, reg(s, ins.low3)),
        InstructionTypes::ADI | InstructionTypes::ACI | InstructionTypes::SUI
        | InstructionTypes::SBI | InstructionTypes::ANI | InstructionTypes::XRI
        | InstructionTypes::ORI | InstructionTypes::CPI => alu(s, ins.high3, imm8(s)),
        InstructionTypes::LXI => with_pair_word(s, ins.rp, imm16(s)),
        InstructionTypes::LDA => with_reg(s, 7, peek(s, imm16(s))),
        InstructionTypes::STA => poke(s, imm16(s), a),
        InstructionTypes::LHLD => CpuState {
            registers: Registers {
                l: peek(s, imm16(s)),
                h: peek(s, wrap16(imm16(s) + 1)),
                ..g
            },
            ..s
        },
        InstructionTypes::SHLD => poke(poke(s, imm16(s), g.l), wrap16(imm16(s) + 1), g.h),
        InstructionTypes::LDAX => with_reg(s, 7, peek(s, pair_word(s, ins.rp % 2))),
        InstructionTypes::STAX => poke(s, pair_word(s, ins.rp % 2), a),
        InstructionTypes::XCHG => CpuState {
            registers: Registers { d: g.h, e: g.l, h: g.d, l: g.e, ..g },
            ..s
        },
        InstructionTypes::XTHL => {
            let t = top(s);
            let w = poke(poke(s, s.stack_pointer, g.l), wrap16(s.stack_pointer + 1), g.h);
            CpuState { registers: Registers { h: t.0, l: t.1, ..g }, ..w }
        },
        InstructionTypes::INR => step_count(s, ins.high3, true),
        InstructionTypes::DCR => step_count(s, ins.high3, false),
        InstructionTypes::INX => with_pair_word(s, ins.rp, wrap16(pair_word(s, ins.rp) + 1)),
        InstructionTypes::DCX => with_pair_word(s, ins.rp, wrap16(pair_word(s, ins.rp) - 1)),
        InstructionTypes::DAD => {
            let sum = g.hl() + pair_word(s, ins.rp);
            let t = with_pair_word(s, 2, wrap16(sum));
            CpuState { flags: StatusFlags { carry_flag: sum > 0xFFFF, ..s.flags }, ..t }
        },
        InstructionTypes::RLC => with_a_carry(s, rotate_left(a), a >= 128),
        InstructionTypes::RRC => with_a_carry(s, rotate_right(a), a % 2 == 1),
        InstructionTypes::RAL => with_a_carry(
            s,
            ((a * 2) % 256 + (if s.flags.carry_flag {
                1int
            } else {
                0
            })) as u8,
            a >= 128,
        ),
        InstructionTypes::RAR => with_a_carry(
            s,
            (a / 2 + (if s.flags.carry_flag {
                128int
            } else {
                0
            })) as u8,
            a % 2 == 1,
        ),
        InstructionTypes::DAA => decimal_adjust(s),
        InstructionTypes::CMA => with_reg(s, 7, (255 - a) as u8),
        InstructionTypes::STC => CpuState { flags: StatusFlags { carry_flag: true, ..s.flags }, ..s },
        InstructionTypes::CMC => CpuState {
            flags: StatusFlags { carry_flag: !s.flags.carry_flag, ..s.flags },
            ..s
        },
        InstructionTypes::SPHL => CpuState { stack_pointer: g.hl(), ..s },
        InstructionTypes::PUSH => push(s, pair(s, ins.rp).0, pair(s, ins.rp).1),
        InstructionTypes::POP => with_pair(drop_top(s), ins.rp, top(s).0, top(s).1),
        InstructionTypes::OUT => CpuState { out: a, ..s },
        InstructionTypes::EI => CpuState { interrupts_enabled: true, ..s },
        InstructionTypes::DI => CpuState { interrupts_enabled: false, ..s },
        _ => s,
    }
}

/// Writing a register, a register pair or memory leaves the PC alone.
proof fn lemma_writes_keep_pc(s: CpuState, r: u8, v: u8, a: u16)
    ensures
        with_reg(s, r, v).program_counter == s.program_counter,
        with_pair(s, r, v, v).program_counter == s.program_counter,
        poke(s, a, v).program_counter == s.program_counter,
{
}

/// An instruction's effect leaves the PC where it was.
pub proof fn lemma_effect_keeps_pc(s: CpuState, ins: Instruction)
    ensures
        effect(s, ins).program_counter == s.program_counter,
{
    reveal(effect);
    match ins.kind {
        InstructionTypes::NOP => {},
        InstructionTypes::MOV => {},
        InstructionTypes::ADD => {},
        InstructionTypes::ADC => {},
        InstructionTypes::SUB => {},
        InstructionTypes::SBB => {},
        InstructionTypes::ANA => {},
        InstructionTypes::XRA => {},
        InstructionTypes::ORA => {},
        InstructionTypes::CMP => {},
        InstructionTypes::ADI => {},
        InstructionTypes::ACI => {},
        InstructionTypes::SUI => {},
        InstructionTypes::SBI => {},
        InstructionTypes::ANI => {},
        InstructionTypes::XRI => {},
        InstructionTypes::ORI => {},
        InstructionTypes::CPI => {},
        InstructionTypes::MVI => {},
        InstructionTypes::LXI => {},
        InstructionTypes::LDA => {},
        InstructionTypes::STA => {},
        InstructionTypes::LDAX => {},
        InstructionTypes::STAX => {},
        InstructionTypes::LHLD => {},
        InstructionTypes::SHLD => {},
        InstructionTypes::INR => {},
        InstructionTypes::DCR => {},
        InstructionTypes::INX => {},
        InstructionTypes::DCX => {},
        InstructionTypes::DAD => {},
        InstructionTypes::JMP => {},
        InstructionTypes::JC => {},
        InstructionTypes::JNC => {},
        InstructionTypes::JZ => {},
        InstructionTypes::JNZ => {},
        InstructionTypes::JPE => {},
        InstructionTypes::JPO => {},
        InstructionTypes::JP => {},
        InstructionTypes::JM => {},
        InstructionTypes::CALL => {},
        InstructionTypes::CC => {},
        InstructionTypes::CNC => {},
        InstructionTypes::CZ => {},
        InstructionTypes::CNZ => {},
        InstructionTypes::CPE => {},
        InstructionTypes::CPO => {},
        InstructionTypes::CP => {},
        InstructionTypes::CM => {},
        InstructionTypes::RET => {},
        InstructionTypes::RC => {},
        InstructionTypes::RNC => {},
        InstructionTypes::RZ => {},
        InstructionTypes::RNZ => {},
        InstructionTypes::RPE => {},
        InstructionTypes::RPO => {},
        InstructionTypes::RP => {},
        InstructionTypes::RM => {},
        InstructionTypes::PUSH => {},
        InstructionTypes::POP => {},
        InstructionTypes::RRC => {},
        InstructionTypes::RLC => {},
        InstructionTypes::RAR => {},
        InstructionTypes::RAL => {},
        InstructionTypes::XCHG => {},
        InstructionTypes::XTHL => {},
        InstructionTypes::OUT => {},
        InstructionTypes::IN => {},
        InstructionTypes::EI => {},
        InstructionTypes::DI => {},
        InstructionTypes::HLT => {},
        InstructionTypes::RST => {},
        InstructionTypes::DAA => {},
        InstructionTypes::CMA => {},
        InstructionTypes::STC => {},
        InstructionTypes::CMC => {},
        InstructionTypes::SPHL => {},
        InstructionTypes::PCHL => {},
        InstructionTypes::Unknown => {},
    }
}

/// Where a jump, call, return, restart or PCHL that is taken leaves the state.
#[verifier::opaque]
pub open spec fn branch(s: CpuState, ins: Instruction) -> CpuState {
    match ins.kind {
        InstructionTypes::RET | InstructionTypes::RC | InstructionTypes::RNC
        | InstructionTypes::RZ | InstructionTypes::RNZ | InstructionTypes::RPE
        | InstructionTypes::RPO | InstructionTypes::RP | InstructionTypes::RM => ret(s),
        InstructionTypes::RST => call(s, (ins.high3 * 8) as u16, 1),
        InstructionTypes::PCHL => jump(s, s.registers.hl()),
        InstructionTypes::JMP | InstructionTypes::JC | InstructionTypes::JNC
        | InstructionTypes::JZ | InstructionTypes::JNZ | InstructionTypes::JPE
        | InstructionTypes::JPO | InstructionTypes::JP | InstructionTypes::JM => jump(
            s,
            imm16(s),
        ),
        _ => call(s, imm16(s), 3),
    }
}

/// Executes a decoded instruction held in `s.current_op`, PC included.
pub open spec fn execute(s: CpuState, ins: Instruction) -> CpuState {
    if transfers_control(s, ins) {
        branch(s, ins)
    } else {
        advance(effect(s, ins), instruction_length(ins.kind) as int)
    }
}

/// The state with the opcode at PC decoded into `current_op`.
pub open spec fn fetched(s: CpuState) -> CpuState {
    CpuState { current_op: decode(peek(s, s.program_counter)), ..s }
}

/// One fetch-decode-execute step.
#[verifier::opaque]
pub open spec fn next_state(s: CpuState) -> CpuState {
    let f = fetched(s);
    execute(f, f.current_op)
}

/// True when the step runs off the top of memory: the instruction falls
/// through and its bytes end past 0xFFFF, so the PC wraps to the bottom.
pub open spec fn wraps_around(s: CpuState) -> bool {
    let f = fetched(s);
    !transfers_control(f, f.current_op) && s.program_counter + instruction_length(
        f.current_op.kind,
    ) > 0xFFFF
}

} // verus!

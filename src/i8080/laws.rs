use vstd::prelude::*;
use crate::i8080::instructions::{instruction_length, InstructionTypes};
use crate::i8080::machine::{
    advance, branch, call, drop_top, effect, fetched, imm16, lemma_effect_keeps_pc, next_state,
    pair, peek, push, ret, rotate_left, rotate_right, top, transfers_control, with_a_carry,
    with_outcome, with_pair, wrap16, CpuState, MEMORY_SIZE,
};
use crate::i8080::alu::{add_outcome, lemma_add_commutes};
use crate::i8080::flags::lemma_psw_round_trip;
use crate::i8080::registers::word;

verus! {

/// A step that does not branch moves the PC past the opcode and its immediate
/// bytes, modulo 0x10000.
pub proof fn lemma_pc_advance(s: CpuState)
    requires
        !transfers_control(fetched(s), fetched(s).current_op),
    ensures
        next_state(s).program_counter == wrap16(
            s.program_counter + instruction_length(fetched(s).current_op.kind),
        ),
{
    reveal(next_state);
    lemma_effect_keeps_pc(fetched(s), fetched(s).current_op);
}

/// ADD B gives the same A and flags whichever of A and B held which operand.
pub proof fn lemma_add_register_commutes(s: CpuState, t: CpuState)
    requires
        s.memory.len() == MEMORY_SIZE,
        t.memory.len() == MEMORY_SIZE,
        peek(s, s.program_counter) == 0x80,
        peek(t, t.program_counter) == 0x80,
        s.registers.accumulator == t.registers.b,
        s.registers.b == t.registers.accumulator,
    ensures
        next_state(s).registers.accumulator == next_state(t).registers.accumulator,
        next_state(s).flags == next_state(t).flags,
{
    reveal(next_state);
    let f = fetched(s);
    let g = fetched(t);
    assert(f.current_op.kind == InstructionTypes::ADD && f.current_op.low3 == 0);
    assert(g.current_op.kind == InstructionTypes::ADD && g.current_op.low3 == 0);
    assert(effect(f, f.current_op) == with_outcome(
        f,
        add_outcome(s.registers.accumulator, s.registers.b, false),
    )) by {
        reveal(effect);
    }
    assert(effect(g, g.current_op) == with_outcome(
        g,
        add_outcome(t.registers.accumulator, t.registers.b, false),
    )) by {
        reveal(effect);
    }
    lemma_add_commutes(s.registers.accumulator, s.registers.b, false);
}

/// Two words pushed come back off the stack in reverse order, and SP ends
/// where it started.
pub proof fn lemma_stack_lifo(s: CpuState, h1: u8, l1: u8, h2: u8, l2: u8)
    requires
        s.memory.len() == MEMORY_SIZE,
    ensures
        top(push(push(s, h1, l1), h2, l2)) == (h2, l2),
        top(drop_top(push(push(s, h1, l1), h2, l2))) == (h1, l1),
        drop_top(drop_top(push(push(s, h1, l1), h2, l2))).stack_pointer == s.stack_pointer,
{
    let t = push(push(s, h1, l1), h2, l2);
    let sp = s.stack_pointer as int;
    assert(t.stack_pointer == wrap16(sp - 4));
    assert(wrap16(t.stack_pointer + 1) == wrap16(sp - 3));
    assert(wrap16(t.stack_pointer + 2) == wrap16(sp - 2));
    assert(wrap16(wrap16(t.stack_pointer + 2) + 1) == wrap16(sp - 1));
    assert(wrap16(wrap16(t.stack_pointer + 2) + 2) == sp);
}

/// Rotating right undoes rotating left.
pub proof fn lemma_rotate_inverse(a: u8)
    ensures
        rotate_right(rotate_left(a)) == a,
{
}

/// RLC followed by RRC gives A back, and RRC leaves C as RLC set it.
pub proof fn lemma_rlc_then_rrc(s: CpuState)
    requires
        s.memory.len() == MEMORY_SIZE,
        peek(s, s.program_counter) == 0x07,
        peek(s, wrap16(s.program_counter + 1)) == 0x0F,
    ensures
        next_state(next_state(s)).registers.accumulator == s.registers.accumulator,
        next_state(next_state(s)).flags.carry_flag == next_state(s).flags.carry_flag,
{
    reveal(next_state);
    let a = s.registers.accumulator;
    let f = fetched(s);
    assert(f.current_op.kind == InstructionTypes::RLC);
    assert(effect(f, f.current_op) == with_a_carry(f, rotate_left(a), a >= 128)) by {
        reveal(effect);
    }
    let t = next_state(s);
    assert(t.program_counter == wrap16(s.program_counter + 1));
    assert(t.memory == s.memory);
    assert(t.registers.accumulator == rotate_left(a));
    let g = fetched(t);
    let b = t.registers.accumulator;
    assert(g.current_op.kind == InstructionTypes::RRC);
    assert(effect(g, g.current_op) == with_a_carry(g, rotate_right(b), b % 2 == 1)) by {
        reveal(effect);
    }
    lemma_rotate_inverse(a);
}

/// A CALL followed later by a RET that finds SP and the two stack bytes as
/// the CALL left them returns to the instruction after the CALL, with SP
/// back where it was before the CALL.
pub proof fn lemma_call_then_ret(s: CpuState, u: CpuState)
    requires
        s.memory.len() == MEMORY_SIZE,
        u.memory.len() == MEMORY_SIZE,
        peek(s, s.program_counter) == 0xCD,
        peek(u, u.program_counter) == 0xC9,
        u.stack_pointer == next_state(s).stack_pointer,
        top(u) == top(next_state(s)),
    ensures
        next_state(u).program_counter == wrap16(s.program_counter + 3),
        next_state(u).stack_pointer == s.stack_pointer,
{
    reveal(next_state);
    let f = fetched(s);
    assert(f.current_op.kind == InstructionTypes::CALL);
    assert(transfers_control(f, f.current_op));
    assert(branch(f, f.current_op) == call(f, imm16(f), 3)) by {
        reveal(branch);
    }
    let sp = s.stack_pointer as int;
    let t = next_state(s);
    let r = wrap16(s.program_counter + 3);
    assert(t == call(f, imm16(f), 3));
    assert(t.stack_pointer == wrap16(sp - 2));
    assert(wrap16(t.stack_pointer + 1) == wrap16(sp - 1));
    assert(wrap16(t.stack_pointer + 2) == sp);
    assert(top(t) == ((r / 256) as u8, (r % 256) as u8));
    assert(word((r / 256) as u8, (r % 256) as u8) == r);
    let g = fetched(u);
    assert(g.current_op.kind == InstructionTypes::RET);
    assert(transfers_control(g, g.current_op));
    assert(branch(g, g.current_op) == ret(g)) by {
        reveal(branch);
    }
}

/// The opcode of PUSH for a register-pair index.
pub open spec fn push_opcode(rp: u8) -> u8 {
    (0xC5 + 16 * rp) as u8
}

/// The opcode of POP for a register-pair index.
pub open spec fn pop_opcode(rp: u8) -> u8 {
    (0xC1 + 16 * rp) as u8
}

/// What one PUSH step does.
proof fn lemma_push_step(s: CpuState, rp: u8)
    requires
        rp < 4,
        peek(s, s.program_counter) == push_opcode(rp),
    ensures
        fetched(s).current_op.kind == InstructionTypes::PUSH,
        next_state(s) == advance(
            push(fetched(s), pair(fetched(s), rp).0, pair(fetched(s), rp).1),
            1,
        ),
{
    reveal(next_state);
    let f = fetched(s);
    assert(f.current_op.kind == InstructionTypes::PUSH && f.current_op.rp == rp);
    assert(effect(f, f.current_op) == push(f, pair(f, rp).0, pair(f, rp).1)) by {
        reveal(effect);
    }
}

/// What one POP step does.
proof fn lemma_pop_step(s: CpuState, rp: u8)
    requires
        rp < 4,
        peek(s, s.program_counter) == pop_opcode(rp),
    ensures
        fetched(s).current_op.kind == InstructionTypes::POP,
        next_state(s) == advance(
            with_pair(drop_top(fetched(s)), rp, top(fetched(s)).0, top(fetched(s)).1),
            1,
        ),
{
    reveal(next_state);
    let f = fetched(s);
    assert(f.current_op.kind == InstructionTypes::POP && f.current_op.rp == rp);
    assert(effect(f, f.current_op) == with_pair(drop_top(f), rp, top(f).0, top(f).1)) by {
        reveal(effect);
    }
}

/// The code cells and the four stack cells below SP do not overlap.
#[verifier::opaque]
pub open spec fn stack_clear_of_code(s: CpuState) -> bool {
    forall|i: int, j: int|
        1 <= i <= 4 && 0 <= j <= 3 ==> #[trigger] wrap16(s.stack_pointer - i) != #[trigger] wrap16(
            s.program_counter + j,
        )
}

/// Two pushes in a row: where the PC, SP and the four stack bytes stand after them.
proof fn lemma_two_pushes(s: CpuState, rp1: u8, rp2: u8)
    requires
        s.memory.len() == MEMORY_SIZE,
        rp1 < 4,
        rp2 < 4,
        peek(s, s.program_counter) == push_opcode(rp1),
        peek(s, wrap16(s.program_counter + 1)) == push_opcode(rp2),
        stack_clear_of_code(s),
    ensures
        ({
            let pc = s.program_counter as int;
            let sp = s.stack_pointer as int;
            let s2 = next_state(next_state(s));
            let p1 = pair(fetched(s), rp1);
            let p2 = pair(fetched(next_state(s)), rp2);
            &&& s2.memory.len() == MEMORY_SIZE
            &&& s2.program_counter == wrap16(pc + 2)
            &&& s2.stack_pointer == wrap16(sp - 4)
            &&& s2.registers == s.registers
            &&& s2.flags == s.flags
            &&& next_state(s).registers == s.registers
            &&& next_state(s).flags == s.flags
            &&& fetched(next_state(s)).current_op.kind == InstructionTypes::PUSH
            &&& peek(s2, wrap16(sp - 1)) == p1.0
            &&& peek(s2, wrap16(sp - 2)) == p1.1
            &&& peek(s2, wrap16(sp - 3)) == p2.0
            &&& peek(s2, wrap16(sp - 4)) == p2.1
            &&& peek(s2, wrap16(pc + 2)) == peek(s, wrap16(pc + 2))
            &&& peek(s2, wrap16(pc + 3)) == peek(s, wrap16(pc + 3))
        }),
{
    reveal(stack_clear_of_code);
    let pc = s.program_counter as int;
    let sp = s.stack_pointer as int;
    lemma_push_step(s, rp1);
    let s1 = next_state(s);
    assert(s1.program_counter == wrap16(pc + 1));
    assert(wrap16(wrap16(pc + 1) + 1) == wrap16(pc + 2));
    assert(s1.stack_pointer == wrap16(sp - 2));
    assert(wrap16(s1.stack_pointer - 1) == wrap16(sp - 3));
    assert(wrap16(s1.stack_pointer - 2) == wrap16(sp - 4));
    assert(wrap16(sp - 1) != wrap16(pc + 1));
    assert(wrap16(sp - 2) != wrap16(pc + 1));
    assert(wrap16(sp - 1) != wrap16(pc + 2));
    assert(wrap16(sp - 2) != wrap16(pc + 2));
    assert(wrap16(sp - 1) != wrap16(pc + 3));
    assert(wrap16(sp - 2) != wrap16(pc + 3));
    assert(peek(s1, s1.program_counter) == push_opcode(rp2));
    lemma_push_step(s1, rp2);
    assert(wrap16(sp - 3) != wrap16(pc + 2));
    assert(wrap16(sp - 4) != wrap16(pc + 2));
    assert(wrap16(sp - 3) != wrap16(pc + 3));
    assert(wrap16(sp - 4) != wrap16(pc + 3));
    assert(wrap16(sp - 1) != wrap16(sp - 3));
    assert(wrap16(sp - 1) != wrap16(sp - 4));
    assert(wrap16(sp - 2) != wrap16(sp - 3));
    assert(wrap16(sp - 2) != wrap16(sp - 4));
}

/// A POP of the bytes a PUSH of the same pair saved reads back the same
/// pair, the PSW included.
proof fn lemma_pop_of_pushed(t: CpuState, u: CpuState, rp: u8)
    requires
        rp < 4,
        t.current_op.kind == InstructionTypes::POP,
        u.current_op.kind == InstructionTypes::PUSH,
    ensures
        pair(advance(with_pair(t, rp, pair(u, rp).0, pair(u, rp).1), 1), rp) == pair(u, rp),
{
    lemma_psw_round_trip(u.flags);
}

/// Two pushes and the first pop: where the PC, SP and the remaining stack
/// bytes stand, and the pair the pop restored.
#[verifier::rlimit(40)]
proof fn lemma_first_pop(s: CpuState, rp1: u8, rp2: u8)
    requires
        s.memory.len() == MEMORY_SIZE,
        rp1 < 4,
        rp2 < 4,
        peek(s, s.program_counter) == push_opcode(rp1),
        peek(s, wrap16(s.program_counter + 1)) == push_opcode(rp2),
        peek(s, wrap16(s.program_counter + 2)) == pop_opcode(rp2),
        stack_clear_of_code(s),
    ensures
        ({
            let pc = s.program_counter as int;
            let sp = s.stack_pointer as int;
            let s3 = next_state(next_state(next_state(s)));
            let p1 = pair(fetched(s), rp1);
            &&& s3.memory.len() == MEMORY_SIZE
            &&& s3.program_counter == wrap16(pc + 3)
            &&& s3.stack_pointer == wrap16(sp - 2)
            &&& peek(s3, wrap16(sp - 1)) == p1.0
            &&& peek(s3, wrap16(sp - 2)) == p1.1
            &&& peek(s3, wrap16(pc + 3)) == peek(s, wrap16(pc + 3))
            &&& pair(s3, rp2) == pair(fetched(next_state(s)), rp2)
        }),
{
    let pc = s.program_counter as int;
    let sp = s.stack_pointer as int;
    let p2 = pair(fetched(next_state(s)), rp2);
    lemma_two_pushes(s, rp1, rp2);
    let s2 = next_state(next_state(s));
    let f2 = fetched(s2);
    assert(wrap16(s2.stack_pointer + 1) == wrap16(sp - 3));
    assert(top(f2) == p2);
    lemma_pop_step(s2, rp2);
    let s3 = next_state(s2);
    assert(s3 == advance(with_pair(drop_top(f2), rp2, p2.0, p2.1), 1));
    lemma_pop_of_pushed(drop_top(f2), fetched(next_state(s)), rp2);
    assert(wrap16(wrap16(pc + 2) + 1) == wrap16(pc + 3));
    assert(wrap16(wrap16(sp - 4) + 2) == wrap16(sp - 2));
    assert(s3.memory == s2.memory);
}

/// PUSH rp1, PUSH rp2, POP rp2, POP rp1 in a row: each POP gets back the
/// value its PUSH saved, and SP ends where it started. The four stack cells
/// written must not overlap the four opcodes.
pub proof fn lemma_push_pop_lifo(s: CpuState, rp1: u8, rp2: u8)
    requires
        s.memory.len() == MEMORY_SIZE,
        rp1 < 4,
        rp2 < 4,
        peek(s, s.program_counter) == push_opcode(rp1),
        peek(s, wrap16(s.program_counter + 1)) == push_opcode(rp2),
        peek(s, wrap16(s.program_counter + 2)) == pop_opcode(rp2),
        peek(s, wrap16(s.program_counter + 3)) == pop_opcode(rp1),
        stack_clear_of_code(s),
    ensures
        pair(next_state(next_state(next_state(s))), rp2) == pair(fetched(next_state(s)), rp2),
        pair(next_state(next_state(next_state(next_state(s)))), rp1) == pair(fetched(s), rp1),
        next_state(next_state(next_state(next_state(s)))).stack_pointer == s.stack_pointer,
{
    let sp = s.stack_pointer as int;
    let p1 = pair(fetched(s), rp1);
    lemma_first_pop(s, rp1, rp2);
    let s3 = next_state(next_state(next_state(s)));
    let f3 = fetched(s3);
    assert(wrap16(wrap16(sp - 2) + 1) == wrap16(sp - 1));
    assert(top(f3) == p1);
    lemma_pop_step(s3, rp1);
    let s4 = next_state(s3);
    assert(s4 == advance(with_pair(drop_top(f3), rp1, p1.0, p1.1), 1));
    lemma_push_step(s, rp1);
    lemma_pop_of_pushed(drop_top(f3), fetched(s), rp1);
    assert(wrap16(wrap16(sp - 2) + 2) == sp);
}

} // verus!

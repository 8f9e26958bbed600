//! Machine-wide laws, each proved once and for all inputs: decode totality,
//! the push/pop round trip, what the arithmetic flags mean, idempotence of
//! the flag derivation, the shape of conditional control flow, and the
//! restart an interrupt performs.

use vstd::prelude::*;

use crate::isa::{spec_decode, spec_instruction_length, Condition, Flag, Instruction, Register,
    RegisterPair};
use crate::semantics::{added, exec_cycles, exec_ok, exec_state, push_ok};
use crate::state::{add8, even_parity, flags_for_arith, in_stack, State};
use crate::utils::{lemma_get_set_bit, spec_get_bit, spec_set_bit};

verus! {

/// Law: decoding is total.  Every opcode byte resolves to exactly one
/// instruction of one to three bytes, and an unassigned opcode resolves to
/// [`Instruction::Unknown`] carrying that very byte — decoding never fails.
pub proof fn lemma_decode_total(op: u8, d1: u8, d2: u8)
    ensures
        (spec_decode(op, d1, d2) matches Instruction::Unknown(b) ==> b == op),
        1 <= spec_instruction_length(op) <= 3,
{
}

/// Two bytes agreeing on every bit are equal.
proof fn lemma_u8_bit_ext(x: u8, y: u8)
    requires
        forall|n: u8| n < 8 ==> spec_get_bit(x, n) == spec_get_bit(y, n),
    ensures
        x == y,
{
    assert(spec_get_bit(x, 0) == spec_get_bit(y, 0));
    assert(spec_get_bit(x, 1) == spec_get_bit(y, 1));
    assert(spec_get_bit(x, 2) == spec_get_bit(y, 2));
    assert(spec_get_bit(x, 3) == spec_get_bit(y, 3));
    assert(spec_get_bit(x, 4) == spec_get_bit(y, 4));
    assert(spec_get_bit(x, 5) == spec_get_bit(y, 5));
    assert(spec_get_bit(x, 6) == spec_get_bit(y, 6));
    assert(spec_get_bit(x, 7) == spec_get_bit(y, 7));
    assert(x == y) by (bit_vector)
        requires
            spec_get_bit(x, 0) == spec_get_bit(y, 0),
            spec_get_bit(x, 1) == spec_get_bit(y, 1),
            spec_get_bit(x, 2) == spec_get_bit(y, 2),
            spec_get_bit(x, 3) == spec_get_bit(y, 3),
            spec_get_bit(x, 4) == spec_get_bit(y, 4),
            spec_get_bit(x, 5) == spec_get_bit(y, 5),
            spec_get_bit(x, 6) == spec_get_bit(y, 6),
            spec_get_bit(x, 7) == spec_get_bit(y, 7),
    ;
}

/// What each bit of the flag byte holds after an arithmetic flag update:
/// the five flag positions take their defined values, every other bit keeps
/// the value it had.
proof fn lemma_flags_arith_bit(f: u8, before: u8, after: u8, carry: bool, m: u8)
    requires
        m < 8,
    ensures
        spec_get_bit(flags_for_arith(f, before, after, carry), m) == (if m == 6 {
            after == 0
        } else if m == 7 {
            after & 0x80 == 0x80
        } else if m == 2 {
            even_parity(after)
        } else if m == 0 {
            carry
        } else if m == 4 {
            (before & 1) == 1 && (after & 1) == 1
        } else {
            spec_get_bit(f, m)
        }),
{
    let f1 = spec_set_bit(f, 6, after == 0);
    let f2 = spec_set_bit(f1, 7, after & 0x80 == 0x80);
    let f3 = spec_set_bit(f2, 2, even_parity(after));
    let f4 = spec_set_bit(f3, 0, carry);
    lemma_get_set_bit(f, 6, m, after == 0);
    lemma_get_set_bit(f1, 7, m, after & 0x80 == 0x80);
    lemma_get_set_bit(f2, 2, m, even_parity(after));
    lemma_get_set_bit(f3, 0, m, carry);
    lemma_get_set_bit(f4, 4, m, (before & 1) == 1 && (after & 1) == 1);
}

/// Law: what the flags of an arithmetic result mean.  In the flag byte the
/// update leaves behind, Zero holds exactly of a zero result, Sign is
/// exactly the result's top bit, Parity holds exactly when the result's
/// popcount is even, and Carry is exactly the carry the operation reported.
pub proof fn lemma_arith_flag_meaning(f: u8, before: u8, after: u8, carry: bool)
    ensures
        spec_get_bit(flags_for_arith(f, before, after, carry), 6) == (after == 0),
        spec_get_bit(flags_for_arith(f, before, after, carry), 7) == spec_get_bit(after, 7),
        spec_get_bit(flags_for_arith(f, before, after, carry), 2) == even_parity(after),
        spec_get_bit(flags_for_arith(f, before, after, carry), 0) == carry,
{
    lemma_flags_arith_bit(f, before, after, carry, 6);
    lemma_flags_arith_bit(f, before, after, carry, 7);
    lemma_flags_arith_bit(f, before, after, carry, 2);
    lemma_flags_arith_bit(f, before, after, carry, 0);
    assert((after & 0x80 == 0x80) == spec_get_bit(after, 7)) by (bit_vector);
}

/// Law: what the flags of an addition mean.  The add path sets its flags one
/// by one rather than through the shared derivation; the result is the same
/// reading: Zero holds exactly of a zero sum, Sign is the sum's top bit,
/// Parity holds exactly when the sum's popcount is even, Carry reports the
/// full-width overflow and Auxiliary-Carry the low-nibble overflow.
pub proof fn lemma_add_flag_meaning(s: State, addend: u8)
    requires
        s.inv(),
    ensures
        ({
            let acc = s.reg(Register::A);
            let result = add8(acc, addend);
            let t = added(s, addend);
            &&& t.reg(Register::A) == result
            &&& t.flag(Flag::Z) == (result == 0)
            &&& t.flag(Flag::S) == spec_get_bit(result, 7)
            &&& t.flag(Flag::P) == even_parity(result)
            &&& t.flag(Flag::CY) == (acc + addend > 0xFF)
            &&& t.flag(Flag::AC) == ((acc & 0xF) + (addend & 0xF) > 0xF)
        }),
{
    let acc = s.reg(Register::A);
    let result = add8(acc, addend);
    let ac = (acc & 0xF) + (addend & 0xF) > 0xF;
    let cy = acc + addend > 0xFF;
    let z = result == 0;
    let sg = result & 0x80 == 0x80;
    let p = even_parity(result);
    let f1 = spec_set_bit(s.flags(), 4, ac);
    let f2 = spec_set_bit(f1, 0, cy);
    let f3 = spec_set_bit(f2, 6, z);
    let f4 = spec_set_bit(f3, 7, sg);
    let f5 = spec_set_bit(f4, 2, p);
    assert(added(s, addend).flags() == f5);
    lemma_get_set_bit(f4, 2, 6, p);
    lemma_get_set_bit(f3, 7, 6, sg);
    lemma_get_set_bit(f2, 6, 6, z);
    lemma_get_set_bit(f4, 2, 7, p);
    lemma_get_set_bit(f3, 7, 7, sg);
    lemma_get_set_bit(f4, 2, 2, p);
    lemma_get_set_bit(f4, 2, 0, p);
    lemma_get_set_bit(f3, 7, 0, sg);
    lemma_get_set_bit(f2, 6, 0, z);
    lemma_get_set_bit(f1, 0, 0, cy);
    lemma_get_set_bit(f4, 2, 4, p);
    lemma_get_set_bit(f3, 7, 4, sg);
    lemma_get_set_bit(f2, 6, 4, z);
    lemma_get_set_bit(f1, 0, 4, cy);
    lemma_get_set_bit(s.flags(), 4, 4, ac);
    assert((result & 0x80 == 0x80) == spec_get_bit(result, 7)) by (bit_vector);
}

/// Law: deriving the flags twice from the same (before, after, carry) triple
/// gives the same flag byte as deriving them once.
pub proof fn lemma_flags_idempotent(f: u8, before: u8, after: u8, carry: bool)
    ensures
        flags_for_arith(flags_for_arith(f, before, after, carry), before, after, carry)
            == flags_for_arith(f, before, after, carry),
{
    let once = flags_for_arith(f, before, after, carry);
    let twice = flags_for_arith(once, before, after, carry);
    assert forall|n: u8| n < 8 implies spec_get_bit(twice, n) == spec_get_bit(once, n) by {
        lemma_flags_arith_bit(f, before, after, carry, n);
        lemma_flags_arith_bit(once, before, after, carry, n);
    }
    lemma_u8_bit_ext(twice, once);
}

/// Law: pushing a register pair and popping it back restores the pair's
/// 16-bit value and returns the stack pointer to its pre-push position.
pub proof fn lemma_push_pop_round_trip(s: State, rp: RegisterPair)
    requires
        s.inv(),
        rp != RegisterPair::SP,
        push_ok(s),
        in_stack(s.sp as int),
    ensures
        ({
            let t = exec_state(exec_state(s, Instruction::Push(rp)), Instruction::Pop(rp));
            t.pair(rp) == s.pair(rp) && t.sp == s.sp
        }),
{
    let v = s.pair(rp);
    let pushed = exec_state(s, Instruction::Push(rp));
    let t = exec_state(pushed, Instruction::Pop(rp));
    assert(pushed.peek16() == ((((v as usize) & 0x00FF) as u8) as usize) | (((((v as usize)
        & 0xFF00) >> 8) as u8) as usize) << 8);
    assert((((((v as usize) & 0x00FF) as u8) as usize) | (((((v as usize) & 0xFF00) >> 8)
        as u8) as usize) << 8) as u16 == v) by (bit_vector)
        requires
            v as usize <= 0xFFFF,
    ;
    let w = pushed.peek16() as u16;
    assert((((((w & 0xFF00) >> 8) as u8) as u16) << 8) | (((w & 0x00FF) as u8) as u16) == w)
        by (bit_vector);
    assert(t.pair(rp) == w);
}

/// Law: how conditional branches, calls and returns treat the eight
/// condition codes.  A conditional jump always costs its fixed 10 cycles and
/// redirects the program counter exactly when the condition holds; calls and
/// returns cost their taken count when the condition holds, their smaller
/// not-taken count — leaving the state untouched — when it does not.
pub proof fn lemma_conditional_control_flow(s: State, c: Condition, addr: usize)
    ensures
        exec_cycles(s, Instruction::ConditionalJump(c, addr)) == 10,
        s.is_condition(c) ==> exec_state(s, Instruction::ConditionalJump(c, addr)).pc == addr,
        !s.is_condition(c) ==> exec_state(s, Instruction::ConditionalJump(c, addr)) == s,
        exec_cycles(s, Instruction::ConditionalCall(c, addr)) == (if s.is_condition(c) {
            17u32
        } else {
            11u32
        }),
        s.is_condition(c) ==> exec_state(s, Instruction::ConditionalCall(c, addr)).pc == addr,
        !s.is_condition(c) ==> exec_state(s, Instruction::ConditionalCall(c, addr)) == s,
        exec_cycles(s, Instruction::ConditionalReturn(c)) == (if s.is_condition(c) {
            11u32
        } else {
            5u32
        }),
        !s.is_condition(c) ==> exec_state(s, Instruction::ConditionalReturn(c)) == s,
{
}

/// Law: the restart an interrupt performs.  With interrupts freshly
/// disabled, a restart to vector `v` jumps to address `8 * v`, pushes the
/// pre-interrupt program counter (high byte deeper), drops the stack pointer
/// by two, and leaves interrupts disabled and the register file untouched.
pub proof fn lemma_interrupt_restart(s: State, v: u8)
    requires
        s.inv(),
        push_ok(s),
    ensures
        ({
            let t = exec_state(s.with_interrupts(false), Instruction::Restart(v));
            &&& t.pc == 8 * v
            &&& !t.interruptable
            &&& t.sp == s.sp - 2
            &&& t.mem[s.sp - 1] == (((s.pc & 0xFF00) >> 8) as u8)
            &&& t.mem[s.sp - 2] == ((s.pc & 0x00FF) as u8)
            &&& t.regs == s.regs
        }),
{
}

/// An interrupt may execute whenever the machine could execute the matching
/// restart instruction, whether or not interrupts are enabled.
pub proof fn lemma_interrupt_acceptance(s: State, v: u8)
    requires
        push_ok(s),
    ensures
        exec_ok(s.with_interrupts(false), Instruction::Restart(v)),
{
}

} // verus!

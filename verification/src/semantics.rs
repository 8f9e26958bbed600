//! Spec-level semantics: for each instruction, the condition under which it
//! may execute (addresses in range, the stack pointer inside the stack
//! window, no reserved operand), the state it leaves behind, and the cycles
//! it costs.  The executable engine is proved against these functions.

use vstd::prelude::*;

use crate::isa::{spec_decode, spec_instruction_length, Flag, Instruction, Register, RegisterPair};
use crate::state::{
    add8, add16, even_parity, in_memory, in_ram, in_rom, in_stack, sub8, sub16, State,
};
use crate::utils::{spec_get_bit, spec_set_bit};
use crate::{NPORTS, ROM_END};

verus! {

/// Two bytes can be pushed: the two slots below the stack pointer are inside
/// the stack window (which itself lies in writable RAM).
pub open spec fn push_ok(s: State) -> bool {
    in_stack(s.sp - 1) && in_stack(s.sp - 2)
}

/// Two bytes can be popped: the stack pointer may rise by two, and the two
/// bytes above it are readable.
pub open spec fn pop_ok(s: State) -> bool {
    in_stack(s.sp + 2)
}

/// The accumulator-and-flags state after adding `addend` to the accumulator:
/// Auxiliary-Carry from the low nibbles, then the wrapped sum, Carry from the
/// full-width overflow, and Zero/Sign/Parity of the result.
pub open spec fn added(s: State, addend: u8) -> State {
    let acc = s.reg(Register::A);
    let result = add8(acc, addend);
    s.with_flag(Flag::AC, (acc & 0xF) + (addend & 0xF) > 0xF).with_reg(Register::A, result)
        .with_flag(Flag::CY, acc + addend > 0xFF).with_flag(Flag::Z, result == 0).with_flag(
        Flag::S,
        result & 0x80 == 0x80,
    ).with_flag(Flag::P, even_parity(result))
}

/// The state after a subtraction-style flag update: the result is stored by
/// the caller where the instruction stores it; this only rewrites the flags.
pub open spec fn compared(s: State, before: u8, data: u8) -> State {
    s.with_arith_flags(before, sub8(before, data), before < data)
}

/// The BCD adjustment of the accumulator: if the low nibble exceeds 9 or
/// Auxiliary-Carry is set, add 6 and set Auxiliary-Carry; then, judging by
/// the accumulator value before any correction, if it exceeds 0x99 or Carry
/// is set, add 0x60 and set Carry.
pub open spec fn decimal_adjusted(s: State) -> State {
    let acc = s.reg(Register::A);
    let s1 = if acc & 0xF > 9 || s.flag(Flag::AC) {
        s.with_flag(Flag::AC, true)
    } else {
        s
    };
    let a1 = if acc & 0xF > 9 || s.flag(Flag::AC) {
        add8(acc, 0x6)
    } else {
        acc
    };
    let s2 = if acc > 0x99 || s1.flag(Flag::CY) {
        s1.with_flag(Flag::CY, true)
    } else {
        s1
    };
    let a2 = if acc > 0x99 || s1.flag(Flag::CY) {
        add8(a1, 0x60)
    } else {
        a1
    };
    s2.with_reg(Register::A, a2)
}

/// Whether `i` may execute in state `s` without violating the machine's
/// contracts.  The instructions the engine does not implement (and the
/// [`Instruction::Unknown`] opcodes) are never executable: running into one
/// must fail fast rather than be skipped.
pub open spec fn exec_ok(s: State, i: Instruction) -> bool {
    match i {
        Instruction::MoveRegister(_, _) => true,
        Instruction::MoveFromMemory(_) => in_memory(s.pair(RegisterPair::HL) as int),
        Instruction::MoveToMemory(_) => in_ram(s.pair(RegisterPair::HL) as int),
        Instruction::MoveImmediate(_, _) => true,
        Instruction::MoveToMemoryImmediate(_) => in_ram(s.pair(RegisterPair::HL) as int),
        Instruction::LoadRegisterPairImmediate(rp, v) => rp == RegisterPair::SP ==> in_stack(
            v as int,
        ),
        Instruction::LoadAccumulatorDirect(addr) => in_memory(addr as int),
        Instruction::StoreAccumulatorDirect(addr) => in_ram(addr as int),
        Instruction::LoadHLDirect(addr) => in_memory(addr + 1),
        Instruction::StoreHLDirect(addr) => in_ram(addr as int) && in_ram(addr + 1),
        Instruction::LoadAccumulatorIndirect(rp) => (rp == RegisterPair::BC || rp
            == RegisterPair::DE) && in_memory(s.pair(rp) as int),
        Instruction::StoreAccumulatorIndirect(rp) => (rp == RegisterPair::BC || rp
            == RegisterPair::DE) && in_ram(s.pair(rp) as int),
        Instruction::ExchangeHLWithDE => true,
        Instruction::AddRegister(_) => true,
        Instruction::AddMemory => in_memory(s.pair(RegisterPair::HL) as int),
        Instruction::AddImmediate(_) => true,
        Instruction::AddRegisterWithCarry(_) => true,
        Instruction::SubtractRegister(_) => true,
        Instruction::SubtractImmediate(_) => true,
        Instruction::SubtractImmediateWithBorrow(_) => true,
        Instruction::IncrementRegister(_) => true,
        Instruction::IncrementMemory => in_ram(s.pair(RegisterPair::HL) as int),
        Instruction::DecrementRegister(_) => true,
        Instruction::DecrementMemory => in_ram(s.pair(RegisterPair::HL) as int),
        Instruction::IncrementRegisterPair(rp) => rp == RegisterPair::SP ==> in_stack(
            add16(s.pair(rp), 1) as int,
        ),
        Instruction::DecrementRegisterPair(rp) => rp == RegisterPair::SP ==> in_stack(
            sub16(s.pair(rp), 1) as int,
        ),
        Instruction::AddRegisterPairToHL(_) => true,
        Instruction::DecimalAdjustAccumulator => true,
        Instruction::AndRegister(_) => true,
        Instruction::AndMemory => in_memory(s.pair(RegisterPair::HL) as int),
        Instruction::AndImmediate(_) => true,
        Instruction::XorRegister(_) => true,
        Instruction::OrRegister(_) => true,
        Instruction::OrMemory => in_memory(s.pair(RegisterPair::HL) as int),
        Instruction::OrImmediate(_) => true,
        Instruction::CompareRegister(_) => true,
        Instruction::CompareMemory => in_memory(s.pair(RegisterPair::HL) as int),
        Instruction::CompareImmediate(_) => true,
        Instruction::RotateLeft => true,
        Instruction::RotateRight => true,
        Instruction::RotateRightThroughCarry => true,
        Instruction::ComplementAccumulator => true,
        Instruction::SetCarry => true,
        Instruction::Jump(addr) => in_rom(addr as int),
        Instruction::ConditionalJump(c, addr) => s.is_condition(c) ==> in_rom(addr as int),
        Instruction::Call(addr) => push_ok(s) && in_rom(addr as int),
        Instruction::ConditionalCall(c, addr) => s.is_condition(c) ==> (push_ok(s) && in_rom(
            addr as int,
        )),
        Instruction::Return => pop_ok(s) && in_rom(s.peek16() as int),
        Instruction::ConditionalReturn(c) => s.is_condition(c) ==> (pop_ok(s) && in_rom(
            s.peek16() as int,
        )),
        Instruction::Restart(_) => push_ok(s),
        Instruction::JumpHLIndirect => in_rom(s.pair(RegisterPair::HL) as int),
        Instruction::Push(rp) => rp != RegisterPair::SP && push_ok(s),
        Instruction::PushProcessorStatusWord => push_ok(s),
        Instruction::Pop(rp) => rp != RegisterPair::SP && pop_ok(s),
        Instruction::PopProcessorStatusWord => in_stack(s.sp + 1) && in_stack(s.sp + 2),
        Instruction::ExchangeSPWithHL => in_ram(s.sp as int) && in_ram(s.sp + 1),
        Instruction::Input(port) => port < NPORTS,
        Instruction::Output(port) => port < NPORTS,
        Instruction::EnableInterrupts => true,
        Instruction::DisableInterrupts => true,
        Instruction::NoOperation => true,
        // Not implemented by this machine: executing one is a fault.
        _ => false,
    }
}

/// The state `i` leaves behind when executed in `s` (meaningful only when
/// `exec_ok(s, i)` holds).
pub open spec fn exec_state(s: State, i: Instruction) -> State {
    match i {
        Instruction::NoOperation => s,
        Instruction::Jump(addr) => s.with_pc(addr),
        Instruction::JumpHLIndirect => s.with_pc(s.pair(RegisterPair::HL) as usize),
        Instruction::LoadRegisterPairImmediate(rp, v) => s.with_pair(rp, v),
        Instruction::MoveImmediate(r, d) => s.with_reg(r, d),
        Instruction::Call(addr) => s.pushed16(s.pc).with_pc(addr),
        Instruction::Return => s.popped16().with_pc(s.peek16()),
        Instruction::LoadAccumulatorIndirect(rp) => s.with_reg(
            Register::A,
            s.mem[s.pair(rp) as int],
        ),
        Instruction::StoreAccumulatorIndirect(rp) => s.with_mem(
            s.pair(rp) as int,
            s.reg(Register::A),
        ),
        Instruction::MoveToMemory(r) => s.with_mem(s.pair(RegisterPair::HL) as int, s.reg(r)),
        Instruction::IncrementRegisterPair(rp) => s.with_pair(rp, add16(s.pair(rp), 1)),
        Instruction::DecrementRegisterPair(rp) => s.with_pair(rp, sub16(s.pair(rp), 1)),
        Instruction::DecrementRegister(r) => {
            let before = s.reg(r);
            let after = sub8(before, 1);
            let s1 = s.with_reg(r, after);
            s1.with_arith_flags(before, after, s1.flag(Flag::CY))
        },
        Instruction::IncrementRegister(r) => {
            let before = s.reg(r);
            let after = add8(before, 1);
            let s1 = s.with_reg(r, after);
            s1.with_arith_flags(before, after, s1.flag(Flag::CY))
        },
        Instruction::DecrementMemory => {
            let addr = s.pair(RegisterPair::HL) as int;
            let before = s.mem[addr];
            let after = sub8(before, 1);
            let s1 = s.with_mem(addr, after);
            s1.with_arith_flags(before, after, s1.flag(Flag::CY))
        },
        Instruction::IncrementMemory => {
            let addr = s.pair(RegisterPair::HL) as int;
            let before = s.mem[addr];
            let after = add8(before, 1);
            let s1 = s.with_mem(addr, after);
            s1.with_arith_flags(before, after, s1.flag(Flag::CY))
        },
        Instruction::ConditionalJump(c, addr) => if s.is_condition(c) {
            s.with_pc(addr)
        } else {
            s
        },
        Instruction::ConditionalCall(c, addr) => if s.is_condition(c) {
            s.pushed16(s.pc).with_pc(addr)
        } else {
            s
        },
        Instruction::ConditionalReturn(c) => if s.is_condition(c) {
            s.popped16().with_pc(s.peek16())
        } else {
            s
        },
        Instruction::MoveToMemoryImmediate(d) => s.with_mem(s.pair(RegisterPair::HL) as int, d),
        Instruction::MoveRegister(to, from) => s.with_reg(to, s.reg(from)),
        Instruction::CompareImmediate(d) => compared(s, s.reg(Register::A), d),
        Instruction::CompareRegister(r) => compared(s, s.reg(Register::A), s.reg(r)),
        Instruction::CompareMemory => compared(
            s,
            s.reg(Register::A),
            s.mem[s.pair(RegisterPair::HL) as int],
        ),
        Instruction::Push(rp) => s.pushed16(s.pair(rp) as usize),
        Instruction::Pop(rp) => s.popped16().with_pair(rp, s.peek16() as u16),
        Instruction::AddRegisterPairToHL(rp) => {
            let hl = s.pair(RegisterPair::HL);
            let v = s.pair(rp);
            s.with_pair(RegisterPair::HL, add16(hl, v)).with_flag(Flag::CY, hl + v > 0xFFFF)
        },
        Instruction::ExchangeHLWithDE => {
            let hl = s.pair(RegisterPair::HL);
            s.with_pair(RegisterPair::HL, s.pair(RegisterPair::DE)).with_pair(RegisterPair::DE, hl)
        },
        Instruction::ExchangeSPWithHL => s.with_reg(Register::L, s.mem[s.sp as int]).with_reg(
            Register::H,
            s.mem[s.sp + 1],
        ).with_mem(s.sp as int, s.reg(Register::L)).with_mem(s.sp + 1, s.reg(Register::H)),
        Instruction::Output(port) => s.with_bus_out(port as int, s.reg(Register::A)),
        Instruction::Input(port) => s.with_reg(Register::A, s.bus_in_read(port as int)),
        Instruction::MoveFromMemory(r) => s.with_reg(r, s.mem[s.pair(RegisterPair::HL) as int]),
        Instruction::PushProcessorStatusWord => s.pushed8(s.reg(Register::A)).pushed8(s.flags()),
        Instruction::PopProcessorStatusWord => {
            let s1 = s.popped8().with_reg(Register::F, s.peek8());
            s1.popped8().with_reg(Register::A, s1.peek8())
        },
        Instruction::RotateRight => {
            let acc = s.reg(Register::A);
            s.with_flag(Flag::CY, spec_get_bit(acc, 0)).with_reg(
                Register::A,
                (acc >> 1) | ((acc & 1) << 7),
            )
        },
        Instruction::RotateLeft => {
            let acc = s.reg(Register::A);
            s.with_flag(Flag::CY, spec_get_bit(acc, 7)).with_reg(
                Register::A,
                (acc << 1) | (acc >> 7),
            )
        },
        Instruction::RotateRightThroughCarry => {
            let acc = s.reg(Register::A);
            s.with_flag(Flag::CY, spec_get_bit(acc, 0)).with_reg(
                Register::A,
                spec_set_bit(acc >> 1, 7, s.flag(Flag::CY)),
            )
        },
        Instruction::OrRegister(r) => {
            let before = s.reg(Register::A);
            let after = before | s.reg(r);
            s.with_reg(Register::A, after).with_arith_flags(before, after, false).with_flag(
                Flag::AC,
                false,
            )
        },
        Instruction::OrMemory => {
            let before = s.reg(Register::A);
            let after = before | s.mem[s.pair(RegisterPair::HL) as int];
            s.with_reg(Register::A, after).with_arith_flags(before, after, false).with_flag(
                Flag::AC,
                false,
            )
        },
        Instruction::OrImmediate(d) => {
            let before = s.reg(Register::A);
            let after = before | d;
            s.with_reg(Register::A, after).with_arith_flags(before, after, false).with_flag(
                Flag::AC,
                false,
            )
        },
        Instruction::AndImmediate(d) => {
            let before = s.reg(Register::A);
            let after = before & d;
            s.with_reg(Register::A, after).with_arith_flags(before, after, false).with_flag(
                Flag::AC,
                false,
            )
        },
        Instruction::AndRegister(r) => {
            let before = s.reg(Register::A);
            let after = before & s.reg(r);
            s.with_reg(Register::A, after).with_arith_flags(before, after, false)
        },
        Instruction::AndMemory => {
            let before = s.reg(Register::A);
            let after = before & s.mem[s.pair(RegisterPair::HL) as int];
            s.with_reg(Register::A, after).with_arith_flags(before, after, false)
        },
        Instruction::XorRegister(r) => {
            let before = s.reg(Register::A);
            let after = before ^ s.reg(r);
            s.with_reg(Register::A, after).with_arith_flags(before, after, false).with_flag(
                Flag::AC,
                false,
            )
        },
        Instruction::AddImmediate(d) => added(s, d),
        Instruction::AddRegister(r) => added(s, s.reg(r)),
        Instruction::AddRegisterWithCarry(r) => added(
            s,
            add8(
                s.reg(r),
                if s.flag(Flag::CY) {
                    1
                } else {
                    0
                },
            ),
        ),
        Instruction::AddMemory => added(s, s.mem[s.pair(RegisterPair::HL) as int]),
        Instruction::SubtractRegister(r) => {
            let before = s.reg(Register::A);
            let data = s.reg(r);
            let after = sub8(before, data);
            s.with_reg(Register::A, after).with_arith_flags(before, after, before < data)
        },
        Instruction::SubtractImmediate(d) => {
            let before = s.reg(Register::A);
            let after = sub8(before, d);
            s.with_reg(Register::A, after).with_arith_flags(before, after, before < d)
        },
        Instruction::SubtractImmediateWithBorrow(d) => {
            let before = s.reg(Register::A);
            let data = add8(
                d,
                if s.flag(Flag::CY) {
                    1
                } else {
                    0
                },
            );
            let after = sub8(before, data);
            s.with_reg(Register::A, after).with_arith_flags(before, after, before < data)
        },
        Instruction::LoadAccumulatorDirect(addr) => s.with_reg(Register::A, s.mem[addr as int]),
        Instruction::StoreAccumulatorDirect(addr) => s.with_mem(addr as int, s.reg(Register::A)),
        Instruction::ComplementAccumulator => s.with_reg(Register::A, s.reg(Register::A) ^ 0xFF),
        Instruction::DisableInterrupts => s.with_interrupts(false),
        Instruction::EnableInterrupts => s.with_interrupts(true),
        Instruction::Restart(d) => s.pushed16(s.pc).with_pc((8 * d) as usize),
        Instruction::SetCarry => s.with_flag(Flag::CY, true),
        Instruction::LoadHLDirect(addr) => s.with_reg(Register::L, s.mem[addr as int]).with_reg(
            Register::H,
            s.mem[addr + 1],
        ),
        Instruction::StoreHLDirect(addr) => s.with_mem(addr as int, s.reg(Register::L)).with_mem(
            addr + 1,
            s.reg(Register::H),
        ),
        Instruction::DecimalAdjustAccumulator => decimal_adjusted(s),
        _ => s,
    }
}

/// The clock cycles `i` costs when executed in `s`: fixed per instruction,
/// except that a conditional call or return that does not take costs less.
pub open spec fn exec_cycles(s: State, i: Instruction) -> u32 {
    match i {
        Instruction::NoOperation => 4,
        Instruction::Jump(_) => 10,
        Instruction::JumpHLIndirect => 5,
        Instruction::LoadRegisterPairImmediate(_, _) => 10,
        Instruction::MoveImmediate(_, _) => 7,
        Instruction::Call(_) => 17,
        Instruction::Return => 10,
        Instruction::LoadAccumulatorIndirect(_) => 7,
        Instruction::StoreAccumulatorIndirect(_) => 7,
        Instruction::MoveToMemory(_) => 7,
        Instruction::IncrementRegisterPair(_) => 5,
        Instruction::DecrementRegisterPair(_) => 5,
        Instruction::DecrementRegister(_) => 5,
        Instruction::IncrementRegister(_) => 5,
        Instruction::DecrementMemory => 10,
        Instruction::IncrementMemory => 10,
        Instruction::ConditionalJump(_, _) => 10,
        Instruction::ConditionalCall(c, _) => if s.is_condition(c) {
            17
        } else {
            11
        },
        Instruction::ConditionalReturn(c) => if s.is_condition(c) {
            11
        } else {
            5
        },
        Instruction::MoveToMemoryImmediate(_) => 10,
        Instruction::MoveRegister(_, _) => 5,
        Instruction::CompareImmediate(_) => 7,
        Instruction::CompareRegister(_) => 4,
        Instruction::CompareMemory => 7,
        Instruction::Push(_) => 11,
        Instruction::Pop(_) => 10,
        Instruction::AddRegisterPairToHL(_) => 10,
        Instruction::ExchangeHLWithDE => 4,
        Instruction::ExchangeSPWithHL => 18,
        Instruction::Output(_) => 10,
        Instruction::Input(_) => 10,
        Instruction::MoveFromMemory(_) => 7,
        Instruction::PushProcessorStatusWord => 11,
        Instruction::PopProcessorStatusWord => 10,
        Instruction::RotateRight => 4,
        Instruction::RotateLeft => 4,
        Instruction::RotateRightThroughCarry => 4,
        Instruction::OrMemory => 7,
        Instruction::OrRegister(_) => 4,
        Instruction::OrImmediate(_) => 7,
        Instruction::AndImmediate(_) => 7,
        Instruction::AndMemory => 7,
        Instruction::AddImmediate(_) => 7,
        Instruction::AddRegister(_) => 4,
        Instruction::AddRegisterWithCarry(_) => 4,
        Instruction::AddMemory => 7,
        Instruction::SubtractRegister(_) => 4,
        Instruction::SubtractImmediate(_) => 7,
        Instruction::SubtractImmediateWithBorrow(_) => 7,
        Instruction::LoadAccumulatorDirect(_) => 13,
        Instruction::StoreAccumulatorDirect(_) => 13,
        Instruction::ComplementAccumulator => 4,
        Instruction::XorRegister(_) => 4,
        Instruction::AndRegister(_) => 4,
        Instruction::DisableInterrupts => 4,
        Instruction::EnableInterrupts => 4,
        Instruction::Restart(_) => 11,
        Instruction::SetCarry => 4,
        Instruction::LoadHLDirect(_) => 16,
        Instruction::StoreHLDirect(_) => 16,
        Instruction::DecimalAdjustAccumulator => 4,
        _ => 0,
    }
}

/// The data-transfer instructions: moves, loads, stores, HL/DE exchange.
pub open spec fn is_transfer_instr(i: Instruction) -> bool {
    match i {
        Instruction::MoveRegister(..) | Instruction::MoveFromMemory(..)
        | Instruction::MoveToMemory(..) | Instruction::MoveImmediate(..)
        | Instruction::MoveToMemoryImmediate(..) | Instruction::LoadRegisterPairImmediate(..)
        | Instruction::LoadAccumulatorDirect(..) | Instruction::StoreAccumulatorDirect(..)
        | Instruction::LoadHLDirect(..) | Instruction::StoreHLDirect(..)
        | Instruction::LoadAccumulatorIndirect(..) | Instruction::StoreAccumulatorIndirect(..)
        | Instruction::ExchangeHLWithDE => true,
        _ => false,
    }
}

/// The arithmetic instructions this machine implements.
pub open spec fn is_arith_instr(i: Instruction) -> bool {
    match i {
        Instruction::AddRegister(..) | Instruction::AddMemory | Instruction::AddImmediate(..)
        | Instruction::AddRegisterWithCarry(..) | Instruction::SubtractRegister(..)
        | Instruction::SubtractImmediate(..) | Instruction::SubtractImmediateWithBorrow(..)
        | Instruction::IncrementRegister(..) | Instruction::IncrementMemory
        | Instruction::DecrementRegister(..) | Instruction::DecrementMemory
        | Instruction::IncrementRegisterPair(..) | Instruction::DecrementRegisterPair(..)
        | Instruction::AddRegisterPairToHL(..) | Instruction::DecimalAdjustAccumulator => true,
        _ => false,
    }
}

/// The logical instructions this machine implements.
pub open spec fn is_logic_instr(i: Instruction) -> bool {
    match i {
        Instruction::AndRegister(..) | Instruction::AndMemory | Instruction::AndImmediate(..)
        | Instruction::XorRegister(..) | Instruction::OrRegister(..) | Instruction::OrMemory
        | Instruction::OrImmediate(..) | Instruction::CompareRegister(..)
        | Instruction::CompareMemory | Instruction::CompareImmediate(..)
        | Instruction::RotateLeft | Instruction::RotateRight
        | Instruction::RotateRightThroughCarry | Instruction::ComplementAccumulator
        | Instruction::SetCarry => true,
        _ => false,
    }
}

/// The branch instructions: jumps, calls, returns, restarts.
pub open spec fn is_branch_instr(i: Instruction) -> bool {
    match i {
        Instruction::Jump(..) | Instruction::ConditionalJump(..) | Instruction::Call(..)
        | Instruction::ConditionalCall(..) | Instruction::Return
        | Instruction::ConditionalReturn(..) | Instruction::Restart(..)
        | Instruction::JumpHLIndirect => true,
        _ => false,
    }
}

/// The stack, I/O and machine-control instructions this machine implements.
pub open spec fn is_control_instr(i: Instruction) -> bool {
    match i {
        Instruction::Push(..) | Instruction::PushProcessorStatusWord | Instruction::Pop(..)
        | Instruction::PopProcessorStatusWord | Instruction::ExchangeSPWithHL
        | Instruction::Input(..) | Instruction::Output(..) | Instruction::EnableInterrupts
        | Instruction::DisableInterrupts | Instruction::NoOperation => true,
        _ => false,
    }
}

/// The opcode byte the program counter points at.
pub open spec fn opcode_at(s: State) -> u8 {
    s.mem[s.pc as int]
}

/// The bytes of the instruction at the program counter, decoded; the bytes a
/// short instruction does not consume read as zero.
pub open spec fn decoded(s: State) -> Instruction {
    let op = opcode_at(s);
    let len = spec_instruction_length(op);
    spec_decode(
        op,
        if len >= 2 {
            s.mem[s.pc + 1]
        } else {
            0
        },
        if len >= 3 {
            s.mem[s.pc + 2]
        } else {
            0
        },
    )
}

/// The state once the instruction at the program counter has been fetched:
/// the counter has moved past the opcode and its immediate bytes.
pub open spec fn fetched(s: State) -> State {
    s.with_pc((s.pc + spec_instruction_length(opcode_at(s))) as usize)
}

/// The whole instruction, immediates included, lies inside ROM, and so does
/// the program counter afterwards.
pub open spec fn fetch_ok(s: State) -> bool {
    in_rom(s.pc as int) && s.pc + spec_instruction_length(opcode_at(s)) <= ROM_END
}

/// One full step — fetch, decode and execute — can run in state `s` without
/// violating the machine's contracts.
pub open spec fn step_ok(s: State) -> bool {
    fetch_ok(s) && exec_ok(fetched(s), decoded(s))
}

/// Whether an instruction may execute does not depend on the program
/// counter, so moving the counter past the instruction does not change it.
pub proof fn lemma_exec_ok_ignores_pc(s: State, pc: usize, i: Instruction)
    ensures
        exec_ok(s.with_pc(pc), i) == exec_ok(s, i),
{
}

/// The state one full step leaves behind.
pub open spec fn step_state(s: State) -> State {
    exec_state(fetched(s), decoded(s))
}

/// The cycles one full step costs.
pub open spec fn step_cycles(s: State) -> u32 {
    exec_cycles(fetched(s), decoded(s))
}

} // verus!

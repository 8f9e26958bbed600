//! The instruction engine: fetch and decode the instruction at the program
//! counter, execute it against the machine state, accept interrupts, and the
//! runtime checks an embedder runs before driving the machine.

use vstd::prelude::*;

use crate::cpu::Cpu;
use crate::isa::{
    decode_instruction, instruction_length, spec_imm16, Flag, Instruction, Register, RegisterPair,
};
use crate::semantics::{
    decoded, exec_cycles, exec_ok, exec_state, fetch_ok, fetched, is_arith_instr,
    is_branch_instr, is_control_instr, is_logic_instr, is_transfer_instr, pop_ok, push_ok,
    step_cycles, step_ok, step_state,
};
use crate::state::in_rom;
use crate::utils::{get_bit, set_bit};
use crate::{MEMORY_END, RAM_END, RAM_START, ROM_END, STACK_END, STACK_START};

verus! {

impl Cpu {
    /// Fetch one byte from memory and advance the program counter.
    pub fn fetch_data(&mut self) -> (data: u8)
        requires
            old(self).wf(),
            in_rom(old(self)@.pc + 1),
        ensures
            data == old(self)@.mem[old(self)@.pc as int],
            final(self)@ == old(self)@.with_pc((old(self)@.pc + 1) as usize),
    {
        let ret = self.get_memory(self.get_pc());
        self.incr_pc();
        ret
    }

    /// Fetch two bytes from memory, low byte first, and advance the program
    /// counter.
    pub fn fetch_data16(&mut self) -> (v: u16)
        requires
            old(self).wf(),
            in_rom(old(self)@.pc + 2),
        ensures
            v == spec_imm16(
                old(self)@.mem[old(self)@.pc as int],
                old(self)@.mem[old(self)@.pc + 1],
            ),
            final(self)@ == old(self)@.with_pc((old(self)@.pc + 2) as usize),
    {
        let low = self.fetch_data() as u16;
        let high = self.fetch_data() as u16;
        (high << 8) | low
    }

    /// Fetch a two-byte address from memory and advance the program counter.
    pub fn fetch_address(&mut self) -> (a: usize)
        requires
            old(self).wf(),
            in_rom(old(self)@.pc + 2),
        ensures
            a == crate::isa::spec_addr(
                old(self)@.mem[old(self)@.pc as int],
                old(self)@.mem[old(self)@.pc + 1],
            ),
            final(self)@ == old(self)@.with_pc((old(self)@.pc + 2) as usize),
    {
        self.fetch_data16() as usize
    }

    /// Fetch and decode one instruction, immediate bytes included, and move
    /// the program counter past it.  Decoding touches nothing but the
    /// counter, and it is total: every opcode byte yields an instruction.
    pub fn fetch_and_decode(&mut self) -> (instr: Instruction)
        requires
            old(self).wf(),
            fetch_ok(old(self)@),
        ensures
            instr == decoded(old(self)@),
            final(self)@ == fetched(old(self)@),
    {
        proof {
            assert(crate::isa::spec_instruction_length(old(self)@.mem[old(self)@.pc as int]) >= 1);
        }
        let op = self.fetch_data();
        let len = instruction_length(op);
        let d1 = if len >= 2 {
            self.fetch_data()
        } else {
            0
        };
        let d2 = if len >= 3 {
            self.fetch_data()
        } else {
            0
        };
        decode_instruction(op, d1, d2)
    }

    /// Execute one decoded instruction and return the clock cycles it took.
    /// Executing an instruction this machine does not implement fails fast.
    pub fn execute(&mut self, instr: Instruction) -> (cycles: u32)
        requires
            old(self).wf(),
            exec_ok(old(self)@, instr),
        ensures
            final(self)@ == exec_state(old(self)@, instr),
            cycles == exec_cycles(old(self)@, instr),
            final(self).wf(),
    {
        match instr {
            Instruction::MoveRegister(..)
            | Instruction::MoveFromMemory(..)
            | Instruction::MoveToMemory(..)
            | Instruction::MoveImmediate(..)
            | Instruction::MoveToMemoryImmediate(..)
            | Instruction::LoadRegisterPairImmediate(..)
            | Instruction::LoadAccumulatorDirect(..)
            | Instruction::StoreAccumulatorDirect(..)
            | Instruction::LoadHLDirect(..)
            | Instruction::StoreHLDirect(..)
            | Instruction::LoadAccumulatorIndirect(..)
            | Instruction::StoreAccumulatorIndirect(..)
            | Instruction::ExchangeHLWithDE => self.execute_transfer(instr),
            Instruction::AddRegister(..)
            | Instruction::AddMemory
            | Instruction::AddImmediate(..)
            | Instruction::AddRegisterWithCarry(..)
            | Instruction::SubtractRegister(..)
            | Instruction::SubtractImmediate(..)
            | Instruction::SubtractImmediateWithBorrow(..)
            | Instruction::IncrementRegister(..)
            | Instruction::IncrementMemory
            | Instruction::DecrementRegister(..)
            | Instruction::DecrementMemory
            | Instruction::IncrementRegisterPair(..)
            | Instruction::DecrementRegisterPair(..)
            | Instruction::AddRegisterPairToHL(..)
            | Instruction::DecimalAdjustAccumulator => self.execute_arith(instr),
            Instruction::AndRegister(..)
            | Instruction::AndMemory
            | Instruction::AndImmediate(..)
            | Instruction::XorRegister(..)
            | Instruction::OrRegister(..)
            | Instruction::OrMemory
            | Instruction::OrImmediate(..)
            | Instruction::CompareRegister(..)
            | Instruction::CompareMemory
            | Instruction::CompareImmediate(..)
            | Instruction::RotateLeft
            | Instruction::RotateRight
            | Instruction::RotateRightThroughCarry
            | Instruction::ComplementAccumulator
            | Instruction::SetCarry => self.execute_logic(instr),
            Instruction::Jump(..)
            | Instruction::ConditionalJump(..)
            | Instruction::Call(..)
            | Instruction::ConditionalCall(..)
            | Instruction::Return
            | Instruction::ConditionalReturn(..)
            | Instruction::Restart(..)
            | Instruction::JumpHLIndirect => self.execute_branch(instr),
            Instruction::Push(..)
            | Instruction::PushProcessorStatusWord
            | Instruction::Pop(..)
            | Instruction::PopProcessorStatusWord
            | Instruction::ExchangeSPWithHL
            | Instruction::Input(..)
            | Instruction::Output(..)
            | Instruction::EnableInterrupts
            | Instruction::DisableInterrupts
            | Instruction::NoOperation => self.execute_control(instr),
            _ => {
                // The instructions this machine leaves unimplemented (and the
                // unknown opcodes) must not be executed.
                unreached()
            },
        }
    }

    /// Data-transfer instructions: moves, loads, stores and the HL/DE exchange.
    fn execute_transfer(&mut self, instr: Instruction) -> (cycles: u32)
        requires
            old(self).wf(),
            exec_ok(old(self)@, instr),
            is_transfer_instr(instr),
        ensures
            final(self)@ == exec_state(old(self)@, instr),
            cycles == exec_cycles(old(self)@, instr),
            final(self).wf(),
    {
        match instr {
            Instruction::MoveRegister(to, from) => {
                let data = self.get_register(from);
                self.set_register(to, data);
                5
            },
            Instruction::MoveFromMemory(r) => {
                let addr = self.get_register_pair(RegisterPair::HL) as usize;
                let data = self.get_memory(addr);
                self.set_register(r, data);
                7
            },
            Instruction::MoveToMemory(r) => {
                let addr = self.get_register_pair(RegisterPair::HL) as usize;
                let data = self.get_register(r);
                self.set_memory(addr, data);
                7
            },
            Instruction::MoveImmediate(r, data) => {
                self.set_register(r, data);
                7
            },
            Instruction::MoveToMemoryImmediate(data) => {
                let addr = self.get_register_pair(RegisterPair::HL) as usize;
                self.set_memory(addr, data);
                10
            },
            Instruction::LoadRegisterPairImmediate(rp, data) => {
                self.set_register_pair(rp, data);
                10
            },
            Instruction::LoadAccumulatorDirect(addr) => {
                let data = self.get_memory(addr);
                self.set_register(Register::A, data);
                13
            },
            Instruction::StoreAccumulatorDirect(addr) => {
                let data = self.get_register(Register::A);
                self.set_memory(addr, data);
                13
            },
            Instruction::LoadHLDirect(addr) => {
                let lo = self.get_memory(addr);
                self.set_register(Register::L, lo);
                let hi = self.get_memory(addr + 1);
                self.set_register(Register::H, hi);
                16
            },
            Instruction::StoreHLDirect(addr) => {
                let lo = self.get_register(Register::L);
                self.set_memory(addr, lo);
                let hi = self.get_register(Register::H);
                self.set_memory(addr + 1, hi);
                16
            },
            Instruction::LoadAccumulatorIndirect(rp) => {
                match rp {
                    RegisterPair::BC | RegisterPair::DE => {
                        let addr = self.get_register_pair(rp) as usize;
                        let data = self.get_memory(addr);
                        self.set_register(Register::A, data);
                    },
                    _ => {
                        // Indirect loads go through BC or DE only.
                        return unreached();
                    },
                }
                7
            },
            Instruction::StoreAccumulatorIndirect(rp) => {
                match rp {
                    RegisterPair::BC | RegisterPair::DE => {
                        let addr = self.get_register_pair(rp) as usize;
                        let data = self.get_register(Register::A);
                        self.set_memory(addr, data);
                    },
                    _ => {
                        // Indirect stores go through BC or DE only.
                        return unreached();
                    },
                }
                7
            },
            Instruction::ExchangeHLWithDE => {
                let hl = self.get_register_pair(RegisterPair::HL);
                let de = self.get_register_pair(RegisterPair::DE);
                self.set_register_pair(RegisterPair::HL, de);
                self.set_register_pair(RegisterPair::DE, hl);
                4
            },
            _ => {
                unreached()
            },
        }
    }

    /// Arithmetic instructions: adds, subtracts, increments, decrements,
    /// the 16-bit add into HL and the BCD adjustment.
    fn execute_arith(&mut self, instr: Instruction) -> (cycles: u32)
        requires
            old(self).wf(),
            exec_ok(old(self)@, instr),
            is_arith_instr(instr),
        ensures
            final(self)@ == exec_state(old(self)@, instr),
            cycles == exec_cycles(old(self)@, instr),
            final(self).wf(),
    {
        match instr {
            Instruction::AddRegister(r) => {
                let addend = self.get_register(r);
                self.add(addend);
                4
            },
            Instruction::AddMemory => {
                let addr = self.get_register_pair(RegisterPair::HL) as usize;
                let addend = self.get_memory(addr);
                self.add(addend);
                7
            },
            Instruction::AddImmediate(addend) => {
                self.add(addend);
                7
            },
            Instruction::AddRegisterWithCarry(r) => {
                // The incoming carry folds into the addend before the add;
                // an addend of 0xFF with carry set wraps to zero.
                let carry = self.get_flag(Flag::CY);
                let addend = self.get_register(r).wrapping_add(
                    if carry {
                        1
                    } else {
                        0
                    },
                );
                self.add(addend);
                4
            },
            Instruction::SubtractRegister(r) => {
                let before = self.get_register(Register::A);
                let data = self.get_register(r);
                let after = before.wrapping_sub(data);
                self.set_register(Register::A, after);
                self.set_flags_for_arithmetic(before, after, before < data);
                4
            },
            Instruction::SubtractImmediate(data) => {
                let before = self.get_register(Register::A);
                let after = before.wrapping_sub(data);
                self.set_register(Register::A, after);
                self.set_flags_for_arithmetic(before, after, before < data);
                7
            },
            Instruction::SubtractImmediateWithBorrow(data) => {
                // The incoming borrow folds into the subtrahend first, and
                // wraps the same way the with-carry add does.
                let carry = self.get_flag(Flag::CY);
                let data = data.wrapping_add(
                    if carry {
                        1
                    } else {
                        0
                    },
                );
                let before = self.get_register(Register::A);
                let after = before.wrapping_sub(data);
                self.set_register(Register::A, after);
                self.set_flags_for_arithmetic(before, after, before < data);
                7
            },
            Instruction::IncrementRegister(r) => {
                let before = self.get_register(r);
                let after = before.wrapping_add(1);
                self.set_register(r, after);
                let carry = self.get_flag(Flag::CY);
                self.set_flags_for_arithmetic(before, after, carry);
                5
            },
            Instruction::IncrementMemory => {
                let addr = self.get_register_pair(RegisterPair::HL) as usize;
                let before = self.get_memory(addr);
                let after = before.wrapping_add(1);
                self.set_memory(addr, after);
                let carry = self.get_flag(Flag::CY);
                self.set_flags_for_arithmetic(before, after, carry);
                10
            },
            Instruction::DecrementRegister(r) => {
                let before = self.get_register(r);
                let after = before.wrapping_sub(1);
                self.set_register(r, after);
                let carry = self.get_flag(Flag::CY);
                self.set_flags_for_arithmetic(before, after, carry);
                5
            },
            Instruction::DecrementMemory => {
                let addr = self.get_register_pair(RegisterPair::HL) as usize;
                let before = self.get_memory(addr);
                let after = before.wrapping_sub(1);
                self.set_memory(addr, after);
                let carry = self.get_flag(Flag::CY);
                self.set_flags_for_arithmetic(before, after, carry);
                10
            },
            Instruction::IncrementRegisterPair(rp) => {
                let val = self.get_register_pair(rp).wrapping_add(1);
                self.set_register_pair(rp, val);
                5
            },
            Instruction::DecrementRegisterPair(rp) => {
                let val = self.get_register_pair(rp).wrapping_sub(1);
                self.set_register_pair(rp, val);
                5
            },
            Instruction::AddRegisterPairToHL(rp) => {
                let hl = self.get_register_pair(RegisterPair::HL);
                let v = self.get_register_pair(rp);
                let value = hl.wrapping_add(v);
                let carry = hl as u32 + v as u32 > 0xFFFF;
                self.set_register_pair(RegisterPair::HL, value);
                self.set_flag(Flag::CY, carry);
                10
            },
            Instruction::DecimalAdjustAccumulator => {
                let acc = self.get_register(Register::A);
                let mut new_acc = acc;
                let aux = self.get_flag(Flag::AC);
                if acc & 0xF > 9 || aux {
                    new_acc = new_acc.wrapping_add(0x6);
                    self.set_flag(Flag::AC, true);
                }
                let carry = self.get_flag(Flag::CY);
                if acc > 0x99 || carry {
                    new_acc = new_acc.wrapping_add(0x60);
                    self.set_flag(Flag::CY, true);
                }
                self.set_register(Register::A, new_acc);
                4
            },
            _ => {
                unreached()
            },
        }
    }

    /// Logical instructions: AND/XOR/OR, compares, rotates, the accumulator
    /// complement and the carry set.
    fn execute_logic(&mut self, instr: Instruction) -> (cycles: u32)
        requires
            old(self).wf(),
            exec_ok(old(self)@, instr),
            is_logic_instr(instr),
        ensures
            final(self)@ == exec_state(old(self)@, instr),
            cycles == exec_cycles(old(self)@, instr),
            final(self).wf(),
    {
        match instr {
            Instruction::AndRegister(r) => {
                let before = self.get_register(Register::A);
                let data = self.get_register(r);
                self.set_register(Register::A, before & data);
                let after = self.get_register(Register::A);
                self.set_flags_for_arithmetic(before, after, false);
                4
            },
            Instruction::AndMemory => {
                let before = self.get_register(Register::A);
                let addr = self.get_register_pair(RegisterPair::HL) as usize;
                let data = self.get_memory(addr);
                self.set_register(Register::A, before & data);
                let after = self.get_register(Register::A);
                self.set_flags_for_arithmetic(before, after, false);
                7
            },
            Instruction::AndImmediate(data) => {
                let before = self.get_register(Register::A);
                self.set_register(Register::A, before & data);
                let after = self.get_register(Register::A);
                self.set_flags_for_arithmetic(before, after, false);
                self.set_flag(Flag::AC, false);
                7
            },
            Instruction::XorRegister(r) => {
                let before = self.get_register(Register::A);
                let data = self.get_register(r);
                self.set_register(Register::A, before ^ data);
                let after = self.get_register(Register::A);
                self.set_flags_for_arithmetic(before, after, false);
                self.set_flag(Flag::AC, false);
                4
            },
            Instruction::OrRegister(r) => {
                let before = self.get_register(Register::A);
                let val = self.get_register(r);
                self.set_register(Register::A, before | val);
                let after = self.get_register(Register::A);
                self.set_flags_for_arithmetic(before, after, false);
                self.set_flag(Flag::AC, false);
                4
            },
            Instruction::OrMemory => {
                let before = self.get_register(Register::A);
                let addr = self.get_register_pair(RegisterPair::HL) as usize;
                let val = self.get_memory(addr);
                self.set_register(Register::A, before | val);
                let after = self.get_register(Register::A);
                self.set_flags_for_arithmetic(before, after, false);
                self.set_flag(Flag::AC, false);
                7
            },
            Instruction::OrImmediate(val) => {
                let before = self.get_register(Register::A);
                self.set_register(Register::A, before | val);
                let after = self.get_register(Register::A);
                self.set_flags_for_arithmetic(before, after, false);
                self.set_flag(Flag::AC, false);
                7
            },
            Instruction::CompareRegister(r) => {
                let before = self.get_register(Register::A);
                let data = self.get_register(r);
                let after = before.wrapping_sub(data);
                self.set_flags_for_arithmetic(before, after, before < data);
                4
            },
            Instruction::CompareMemory => {
                let before = self.get_register(Register::A);
                let addr = self.get_register_pair(RegisterPair::HL) as usize;
                let data = self.get_memory(addr);
                let after = before.wrapping_sub(data);
                self.set_flags_for_arithmetic(before, after, before < data);
                7
            },
            Instruction::CompareImmediate(data) => {
                let before = self.get_register(Register::A);
                let after = before.wrapping_sub(data);
                self.set_flags_for_arithmetic(before, after, before < data);
                7
            },
            Instruction::RotateLeft => {
                let acc = self.get_register(Register::A);
                self.set_flag(Flag::CY, get_bit(acc, 7));
                self.set_register(Register::A, (acc << 1) | (acc >> 7));
                4
            },
            Instruction::RotateRight => {
                let acc = self.get_register(Register::A);
                self.set_flag(Flag::CY, get_bit(acc, 0));
                self.set_register(Register::A, (acc >> 1) | ((acc & 1) << 7));
                4
            },
            Instruction::RotateRightThroughCarry => {
                let acc = self.get_register(Register::A);
                let low = get_bit(acc, 0);
                let mut shifted = acc >> 1;
                let carry = self.get_flag(Flag::CY);
                set_bit(&mut shifted, 7, carry);
                self.set_flag(Flag::CY, low);
                self.set_register(Register::A, shifted);
                4
            },
            Instruction::ComplementAccumulator => {
                let acc = self.get_register(Register::A);
                self.set_register(Register::A, acc ^ 0xFF);
                4
            },
            Instruction::SetCarry => {
                self.set_flag(Flag::CY, true);
                4
            },
            _ => {
                unreached()
            },
        }
    }

    /// Branch instructions: jumps, calls, returns and restarts.
    fn execute_branch(&mut self, instr: Instruction) -> (cycles: u32)
        requires
            old(self).wf(),
            exec_ok(old(self)@, instr),
            is_branch_instr(instr),
        ensures
            final(self)@ == exec_state(old(self)@, instr),
            cycles == exec_cycles(old(self)@, instr),
            final(self).wf(),
    {
        match instr {
            Instruction::Jump(addr) => {
                self.set_pc(addr);
                10
            },
            Instruction::ConditionalJump(c, addr) => {
                if self.is_condition(c) {
                    self.set_pc(addr);
                }
                10
            },
            Instruction::Call(addr) => {
                let pc = self.get_pc();
                self.push(pc);
                self.set_pc(addr);
                17
            },
            Instruction::ConditionalCall(c, addr) => {
                if self.is_condition(c) {
                    let pc = self.get_pc();
                    self.push(pc);
                    self.set_pc(addr);
                    17
                } else {
                    11
                }
            },
            Instruction::Return => {
                let addr = self.pop();
                self.set_pc(addr);
                10
            },
            Instruction::ConditionalReturn(c) => {
                if self.is_condition(c) {
                    let addr = self.pop();
                    self.set_pc(addr);
                    11
                } else {
                    5
                }
            },
            Instruction::Restart(data) => {
                let pc = self.get_pc();
                self.push(pc);
                self.set_pc(8 * (data as usize));
                11
            },
            Instruction::JumpHLIndirect => {
                let hl = self.get_register_pair(RegisterPair::HL);
                self.set_pc(hl as usize);
                5
            },
            _ => {
                unreached()
            },
        }
    }

    /// Stack, I/O and machine-control instructions.
    fn execute_control(&mut self, instr: Instruction) -> (cycles: u32)
        requires
            old(self).wf(),
            exec_ok(old(self)@, instr),
            is_control_instr(instr),
        ensures
            final(self)@ == exec_state(old(self)@, instr),
            cycles == exec_cycles(old(self)@, instr),
            final(self).wf(),
    {
        match instr {
            Instruction::Push(rp) => {
                match rp {
                    RegisterPair::BC | RegisterPair::DE | RegisterPair::HL => {
                        let v = self.get_register_pair(rp) as usize;
                        self.push(v);
                    },
                    RegisterPair::SP => {
                        // The stack pointer itself cannot be pushed; its
                        // encoding belongs to PUSH PSW.
                        return unreached();
                    },
                }
                11
            },
            Instruction::PushProcessorStatusWord => {
                let a = self.get_register(Register::A);
                self.push_data(a);
                let flags = self.get_flags();
                self.push_data(flags);
                11
            },
            Instruction::Pop(rp) => {
                match rp {
                    RegisterPair::BC | RegisterPair::DE | RegisterPair::HL => {
                        let data = self.pop() as u16;
                        self.set_register_pair(rp, data);
                    },
                    RegisterPair::SP => {
                        // The stack pointer itself cannot be popped; its
                        // encoding belongs to POP PSW.
                        return unreached();
                    },
                }
                10
            },
            Instruction::PopProcessorStatusWord => {
                let flags = self.pop_data();
                self.set_flags(flags);
                let a = self.pop_data();
                self.set_register(Register::A, a);
                10
            },
            Instruction::ExchangeSPWithHL => {
                let h = self.get_register(Register::H);
                let l = self.get_register(Register::L);
                let sp = self.get_sp();
                let sl = self.get_memory(sp);
                let sh = self.get_memory(sp + 1);
                self.set_register(Register::L, sl);
                self.set_register(Register::H, sh);
                self.set_memory(sp, l);
                self.set_memory(sp + 1, h);
                18
            },
            Instruction::Input(port) => {
                let bus = self.get_bus_in(port as usize);
                self.set_register(Register::A, bus);
                10
            },
            Instruction::Output(port) => {
                let data = self.get_register(Register::A);
                self.set_bus_out(port as usize, data);
                10
            },
            Instruction::EnableInterrupts => {
                self.interruptable = true;
                4
            },
            Instruction::DisableInterrupts => {
                self.interruptable = false;
                4
            },
            Instruction::NoOperation => 4,
            _ => {
                unreached()
            },
        }
    }

    /// Fetch, decode and execute one instruction; return the cycles it took.
    pub fn step(&mut self) -> (cycles: u32)
        requires
            old(self).wf(),
            step_ok(old(self)@),
        ensures
            final(self)@ == step_state(old(self)@),
            cycles == step_cycles(old(self)@),
            final(self).wf(),
    {
        let instr = self.fetch_and_decode();
        self.execute(instr)
    }

    /// Accept an interrupt.  With interrupts enabled this behaves exactly
    /// like a restart to address `vector * 8` — the pre-interrupt program
    /// counter is pushed and further interrupts are disabled — and costs the
    /// restart's cycles; with interrupts disabled nothing changes and no
    /// cycles pass.
    pub fn interrupt(&mut self, data: u8) -> (cycles: u32)
        requires
            old(self).wf(),
            old(self)@.interruptable ==> push_ok(old(self)@),
        ensures
            old(self)@.interruptable ==> final(self)@ == exec_state(
                old(self)@.with_interrupts(false),
                Instruction::Restart(data),
            ) && cycles == 11,
            !old(self)@.interruptable ==> final(self)@ == old(self)@ && cycles == 0,
            final(self).wf(),
    {
        if self.interruptable {
            self.interruptable = false;
            self.execute(Instruction::Restart(data))
        } else {
            0
        }
    }

    /// Whether two bytes can be pushed right now.
    fn push_allowed(&self) -> (b: bool)
        ensures
            b == push_ok(self@),
    {
        let sp = self.get_sp();
        sp >= STACK_START + 2 && sp <= STACK_END + 1
    }

    /// Whether two bytes can be popped right now.
    fn pop_allowed(&self) -> (b: bool)
        ensures
            b == pop_ok(self@),
    {
        let sp = self.get_sp();
        sp >= STACK_START - 2 && sp <= STACK_END - 2
    }

    /// Whether `instr` may execute in the current state: the runtime
    /// counterpart of [`exec_ok`], for an embedder to test before calling
    /// [`Cpu::execute`] or [`Cpu::interrupt`].
    #[verifier::rlimit(100)]
    pub fn instruction_ok(&self, instr: Instruction) -> (ok: bool)
        requires
            self.wf(),
        ensures
            ok == exec_ok(self@, instr),
    {
        match instr {
            Instruction::MoveRegister(_, _) => true,
            Instruction::MoveFromMemory(_) => {
                let hl = self.get_register_pair(RegisterPair::HL) as usize;
                hl <= MEMORY_END
            },
            Instruction::MoveToMemory(_) => {
                let hl = self.get_register_pair(RegisterPair::HL) as usize;
                RAM_START <= hl && hl <= RAM_END
            },
            Instruction::MoveImmediate(_, _) => true,
            Instruction::MoveToMemoryImmediate(_) => {
                let hl = self.get_register_pair(RegisterPair::HL) as usize;
                RAM_START <= hl && hl <= RAM_END
            },
            Instruction::LoadRegisterPairImmediate(rp, v) => match rp {
                RegisterPair::SP => STACK_START <= v as usize && v as usize <= STACK_END,
                _ => true,
            },
            Instruction::LoadAccumulatorDirect(addr) => addr <= MEMORY_END,
            Instruction::StoreAccumulatorDirect(addr) => RAM_START <= addr && addr <= RAM_END,
            Instruction::LoadHLDirect(addr) => addr <= MEMORY_END - 1,
            Instruction::StoreHLDirect(addr) => RAM_START <= addr && addr <= RAM_END - 1,
            Instruction::LoadAccumulatorIndirect(rp) => match rp {
                RegisterPair::BC | RegisterPair::DE => {
                    let a = self.get_register_pair(rp) as usize;
                    a <= MEMORY_END
                },
                _ => false,
            },
            Instruction::StoreAccumulatorIndirect(rp) => match rp {
                RegisterPair::BC | RegisterPair::DE => {
                    let a = self.get_register_pair(rp) as usize;
                    RAM_START <= a && a <= RAM_END
                },
                _ => false,
            },
            Instruction::ExchangeHLWithDE => true,
            Instruction::AddRegister(_) => true,
            Instruction::AddMemory => {
                let hl = self.get_register_pair(RegisterPair::HL) as usize;
                hl <= MEMORY_END
            },
            Instruction::AddImmediate(_) => true,
            Instruction::AddRegisterWithCarry(_) => true,
            Instruction::SubtractRegister(_) => true,
            Instruction::SubtractImmediate(_) => true,
            Instruction::SubtractImmediateWithBorrow(_) => true,
            Instruction::IncrementRegister(_) => true,
            Instruction::IncrementMemory => {
                let hl = self.get_register_pair(RegisterPair::HL) as usize;
                RAM_START <= hl && hl <= RAM_END
            },
            Instruction::DecrementRegister(_) => true,
            Instruction::DecrementMemory => {
                let hl = self.get_register_pair(RegisterPair::HL) as usize;
                RAM_START <= hl && hl <= RAM_END
            },
            Instruction::IncrementRegisterPair(rp) => match rp {
                RegisterPair::SP => {
                    let v = self.get_register_pair(rp).wrapping_add(1) as usize;
                    STACK_START <= v && v <= STACK_END
                },
                _ => true,
            },
            Instruction::DecrementRegisterPair(rp) => match rp {
                RegisterPair::SP => {
                    let v = self.get_register_pair(rp).wrapping_sub(1) as usize;
                    STACK_START <= v && v <= STACK_END
                },
                _ => true,
            },
            Instruction::AddRegisterPairToHL(_) => true,
            Instruction::DecimalAdjustAccumulator => true,
            Instruction::AndRegister(_) => true,
            Instruction::AndMemory => {
                let hl = self.get_register_pair(RegisterPair::HL) as usize;
                hl <= MEMORY_END
            },
            Instruction::AndImmediate(_) => true,
            Instruction::XorRegister(_) => true,
            Instruction::OrRegister(_) => true,
            Instruction::OrMemory => {
                let hl = self.get_register_pair(RegisterPair::HL) as usize;
                hl <= MEMORY_END
            },
            Instruction::OrImmediate(_) => true,
            Instruction::CompareRegister(_) => true,
            Instruction::CompareMemory => {
                let hl = self.get_register_pair(RegisterPair::HL) as usize;
                hl <= MEMORY_END
            },
            Instruction::CompareImmediate(_) => true,
            Instruction::RotateLeft => true,
            Instruction::RotateRight => true,
            Instruction::RotateRightThroughCarry => true,
            Instruction::ComplementAccumulator => true,
            Instruction::SetCarry => true,
            Instruction::Jump(addr) => addr <= ROM_END,
            Instruction::ConditionalJump(c, addr) => !self.is_condition(c) || addr <= ROM_END,
            Instruction::Call(addr) => self.push_allowed() && addr <= ROM_END,
            Instruction::ConditionalCall(c, addr) => !self.is_condition(c) || (self.push_allowed()
                && addr <= ROM_END),
            Instruction::Return => self.pop_allowed() && self.peek() <= ROM_END,
            Instruction::ConditionalReturn(c) => !self.is_condition(c) || (self.pop_allowed()
                && self.peek() <= ROM_END),
            Instruction::Restart(_) => self.push_allowed(),
            Instruction::JumpHLIndirect => {
                let hl = self.get_register_pair(RegisterPair::HL) as usize;
                hl <= ROM_END
            },
            Instruction::Push(rp) => match rp {
                RegisterPair::SP => false,
                _ => self.push_allowed(),
            },
            Instruction::PushProcessorStatusWord => self.push_allowed(),
            Instruction::Pop(rp) => match rp {
                RegisterPair::SP => false,
                _ => self.pop_allowed(),
            },
            Instruction::PopProcessorStatusWord => {
                let sp = self.get_sp();
                sp >= STACK_START - 1 && sp <= STACK_END - 2
            },
            Instruction::ExchangeSPWithHL => {
                let sp = self.get_sp();
                RAM_START <= sp && sp <= RAM_END - 1
            },
            Instruction::Input(port) => (port as usize) < crate::NPORTS,
            Instruction::Output(port) => (port as usize) < crate::NPORTS,
            Instruction::EnableInterrupts => true,
            Instruction::DisableInterrupts => true,
            Instruction::NoOperation => true,
            _ => false,
        }
    }

    /// Whether one full step may run from the current state: the runtime
    /// counterpart of [`step_ok`], for an embedder to test before calling
    /// [`Cpu::step`].
    pub fn step_safe(&self) -> (ok: bool)
        requires
            self.wf(),
        ensures
            ok == step_ok(self@),
    {
        let pc = self.get_pc();
        if pc > ROM_END {
            return false;
        }
        let op = self.get_memory(pc);
        let len = instruction_length(op);
        if pc + len > ROM_END {
            return false;
        }
        let d1 = if len >= 2 {
            self.get_memory(pc + 1)
        } else {
            0
        };
        let d2 = if len >= 3 {
            self.get_memory(pc + 2)
        } else {
            0
        };
        let instr = decode_instruction(op, d1, d2);
        let ok = self.instruction_ok(instr);
        proof {
            crate::semantics::lemma_exec_ok_ignores_pc(
                self@,
                (self@.pc + crate::isa::spec_instruction_length(op)) as usize,
                instr,
            );
        }
        ok
    }

    /// Whether an interrupt may be delivered right now: with interrupts
    /// disabled it always may, with them enabled it needs room on the stack.
    pub fn interrupt_safe(&self) -> (ok: bool)
        ensures
            ok == (self@.interruptable ==> push_ok(self@)),
    {
        !self.interruptable || self.push_allowed()
    }
}

} // verus!

//! Tests of instruction execution: data transfer, branches and the stack.

use inv8080rs::cpu::Cpu;
use inv8080rs::isa::Condition::{Carry, Minus, NoCarry, NotZero, ParityEven, ParityOdd, Plus, Zero};
use inv8080rs::isa::Flag::{AC, CY, P, S, Z};
use inv8080rs::isa::Instruction::{
    Call, ConditionalCall, ConditionalJump, ConditionalReturn, ExchangeHLWithDE, ExchangeSPWithHL,
    Jump, JumpHLIndirect, LoadAccumulatorDirect, LoadAccumulatorIndirect,
    LoadRegisterPairImmediate, MoveFromMemory, MoveImmediate, MoveRegister, MoveToMemory,
    MoveToMemoryImmediate, NoOperation, Pop, Push, PushProcessorStatusWord,
    PopProcessorStatusWord, Restart, Return, StoreAccumulatorDirect, StoreAccumulatorIndirect,
};
use inv8080rs::isa::Register::{A, B, C, D, E, H, L};
use inv8080rs::isa::RegisterPair::{BC, DE, HL, SP};
use inv8080rs::{NREGS, RAM_START, ROM_END, STACK_END, STACK_START};

/// Return a Cpu in a default state (zero/unset)
fn setup() -> Cpu {
    Cpu::new(vec![])
}

#[test]
fn no_operation() {
    let mut cpu = setup();
    assert_eq!(4, cpu.execute(NoOperation));
    assert_eq!(cpu.get_pc(), 0);
    assert_eq!(cpu.get_sp(), 0);
    assert_eq!(cpu.registers, [0; NREGS]);
    assert_eq!(cpu.get_flags(), 0);
}

#[test]
fn jump() {
    let mut cpu = setup();
    assert_eq!(10, cpu.execute(Jump(ROM_END)));
    assert_eq!(cpu.get_pc(), ROM_END);
    assert_eq!(cpu.get_sp(), 0);
    assert_eq!(cpu.registers, [0; NREGS]);
    assert_eq!(cpu.get_flags(), 0);
}

#[test]
fn jump_hl_indirect() {
    let mut cpu = setup();
    cpu.set_register_pair(HL, ROM_END as u16);
    assert_eq!(5, cpu.execute(JumpHLIndirect));
    assert_eq!(ROM_END, cpu.get_pc());
}

#[test]
fn load_register_pair_immediate() {
    let mut cpu = setup();
    assert_eq!(10, cpu.execute(LoadRegisterPairImmediate(BC, 0xABCD)));
    assert_eq!(cpu.get_pc(), 0);
    assert_eq!(cpu.get_sp(), 0);
    assert_eq!(cpu.registers, [0xAB, 0xCD, 0, 0, 0, 0, 0, 0]);
    assert_eq!(cpu.get_flags(), 0);

    cpu = setup();
    assert_eq!(10, cpu.execute(LoadRegisterPairImmediate(DE, 0xABCD)));
    assert_eq!(cpu.get_pc(), 0);
    assert_eq!(cpu.get_sp(), 0);
    assert_eq!(cpu.registers, [0, 0, 0xAB, 0xCD, 0, 0, 0, 0]);
    assert_eq!(cpu.get_flags(), 0);

    cpu = setup();
    assert_eq!(10, cpu.execute(LoadRegisterPairImmediate(HL, 0xABCD)));
    assert_eq!(cpu.get_pc(), 0);
    assert_eq!(cpu.get_sp(), 0);
    assert_eq!(cpu.registers, [0, 0, 0, 0, 0xAB, 0xCD, 0, 0]);
    assert_eq!(cpu.get_flags(), 0);

    cpu = setup();
    assert_eq!(
        10,
        cpu.execute(LoadRegisterPairImmediate(SP, STACK_END as u16))
    );
    assert_eq!(cpu.get_pc(), 0);
    assert_eq!(cpu.get_sp(), STACK_END);
    assert_eq!(cpu.registers, [0; NREGS]);
    assert_eq!(cpu.get_flags(), 0);
}

#[test]
fn move_immediate() {
    let mut cpu = setup();
    let mut v = 42u8;
    for r in [B, C, D, E, H, L, A] {
        assert_eq!(7, cpu.execute(MoveImmediate(r, v)));
        assert_eq!(cpu.get_pc(), 0);
        assert_eq!(cpu.get_sp(), 0);
        assert_eq!(cpu.get_register(r), v);
        assert_eq!(cpu.get_flags(), 0);
        v += 1;
    }
}

#[test]
fn call() {
    let mut cpu = setup();
    cpu.set_sp(0x23FF);
    cpu.set_pc(0x1234);
    assert_eq!(17, cpu.execute(Call(0x1567)));
    assert_eq!(cpu.get_pc(), 0x1567);
    assert_eq!(cpu.get_sp(), 0x23FD);
    assert_eq!(cpu.get_memory(cpu.get_sp() + 1), 0x12);
    assert_eq!(cpu.get_memory(cpu.get_sp()), 0x34);
    assert_eq!(cpu.registers, [0; NREGS]);
    assert_eq!(cpu.get_flags(), 0);
}

#[test]
fn ret() {
    let mut cpu = setup();
    cpu.set_sp(STACK_START);
    cpu.set_memory(cpu.get_sp(), 0xFF);
    cpu.set_memory(cpu.get_sp() + 1, 0x1F);
    assert_eq!(10, cpu.execute(Return));
    assert_eq!(cpu.get_pc(), 0x1FFF);
    assert_eq!(STACK_START + 2, cpu.get_sp());
}

#[test]
fn load_accumulator_indirect() {
    let mut cpu = setup();
    cpu.set_memory(0x2234, 0x56);
    cpu.set_memory(0x2345, 0x67);
    cpu.set_register(B, 0x22);
    cpu.set_register(C, 0x34);
    assert_eq!(7, cpu.execute(LoadAccumulatorIndirect(BC)));
    assert_eq!(0x56, cpu.get_register(A));
    cpu.set_register(D, 0x23);
    cpu.set_register(E, 0x45);
    assert_eq!(7, cpu.execute(LoadAccumulatorIndirect(DE)));
    assert_eq!(0x67, cpu.get_register(A));

    assert_eq!(cpu.get_pc(), 0);
    assert_eq!(cpu.get_sp(), 0);
    assert_eq!(cpu.get_flags(), 0);
}

#[test]
fn store_accumulator_indirect() {
    let mut cpu = setup();
    cpu.set_register(A, 0x77);
    cpu.set_register(B, 0x22);
    cpu.set_register(C, 0x34);
    assert_eq!(7, cpu.execute(StoreAccumulatorIndirect(BC)));
    assert_eq!(0x77, cpu.get_memory(0x2234));
    cpu.set_register(A, 0x88);
    cpu.set_register(D, 0x23);
    cpu.set_register(E, 0x45);
    assert_eq!(7, cpu.execute(StoreAccumulatorIndirect(DE)));
    assert_eq!(0x88, cpu.get_memory(0x2345));
}

#[test]
fn move_to_memory() {
    let mut cpu = setup();
    let mut v = 1u8;
    for r in [B, C, D, E, A] {
        cpu.set_register(H, 0x20);
        cpu.set_register(L, v);
        cpu.set_register(r, v + 1);
        assert_eq!(7, cpu.execute(MoveToMemory(r)));
        assert_eq!(cpu.get_pc(), 0);
        assert_eq!(cpu.get_sp(), 0);
        assert_eq!(cpu.get_memory(0x2000usize | v as usize), v + 1);
        assert_eq!(cpu.get_flags(), 0);
        v += 1;
    }
}

#[test]
fn conditional_jump() {
    let mut cpu = setup();
    assert_eq!(10, cpu.execute(ConditionalJump(NotZero, 0x0001)));
    assert_eq!(cpu.get_pc(), 0x0001);
    assert_eq!(10, cpu.execute(ConditionalJump(Zero, 0x0002)));
    assert_eq!(cpu.get_pc(), 0x0001);
    assert_eq!(10, cpu.execute(ConditionalJump(NoCarry, 0x0002)));
    assert_eq!(cpu.get_pc(), 0x0002);
    assert_eq!(10, cpu.execute(ConditionalJump(Carry, 0x0003)));
    assert_eq!(cpu.get_pc(), 0x0002);
    assert_eq!(10, cpu.execute(ConditionalJump(ParityOdd, 0x0003)));
    assert_eq!(cpu.get_pc(), 0x0003);
    assert_eq!(10, cpu.execute(ConditionalJump(ParityEven, 0x0004)));
    assert_eq!(cpu.get_pc(), 0x0003);
    assert_eq!(10, cpu.execute(ConditionalJump(Plus, 0x0004)));
    assert_eq!(cpu.get_pc(), 0x0004);
    assert_eq!(10, cpu.execute(ConditionalJump(Minus, 0x0005)));
    assert_eq!(cpu.get_pc(), 0x0004);
}

#[test]
fn conditional_call() {
    let mut cpu = setup();

    for (condition, flag, value) in [
        (NotZero, Z, false),
        (Zero, Z, true),
        (NoCarry, CY, false),
        (Carry, CY, true),
        (ParityOdd, P, false),
        (ParityEven, P, true),
        (Plus, S, false),
        (Minus, S, true),
    ] {
        cpu.set_pc(0);
        cpu.set_sp(STACK_END);
        cpu.set_flag(flag, value);
        assert_eq!(17, cpu.execute(ConditionalCall(condition, 0x1FAB)));
        assert_eq!(0x1FAB, cpu.get_pc());
        assert_eq!(STACK_END - 2, cpu.get_sp());
        cpu.set_flag(flag, !value);
        assert_eq!(11, cpu.execute(ConditionalCall(condition, 0x1FFF)));
        assert_eq!(0x1FAB, cpu.get_pc());
        assert_eq!(STACK_END - 2, cpu.get_sp());
    }
}

#[test]
fn conditional_return() {
    let mut cpu = setup();
    cpu.set_sp(STACK_END);

    for (condition, flag, value) in [
        (NotZero, Z, false),
        (Zero, Z, true),
        (NoCarry, CY, false),
        (Carry, CY, true),
        (ParityOdd, P, false),
        (ParityEven, P, true),
        (Plus, S, false),
        (Minus, S, true),
    ] {
        cpu.set_pc(0);
        cpu.push(0x1FAB);
        cpu.set_flag(flag, value);
        assert_eq!(11, cpu.execute(ConditionalReturn(condition)));
        assert_eq!(0x1FAB, cpu.get_pc());
        cpu.set_pc(0);
        cpu.push(0x1FAB);
        cpu.set_flag(flag, !value);
        assert_eq!(5, cpu.execute(ConditionalReturn(condition)));
        assert_eq!(0, cpu.get_pc());
    }
}

#[test]
fn move_to_memory_immediate() {
    let mut cpu = setup();
    cpu.set_register_pair(HL, 0x2000);
    assert_eq!(10, cpu.execute(MoveToMemoryImmediate(0xFE)));
    assert_eq!(cpu.get_memory(0x2000), 0xFE);
}

#[test]
fn move_register() {
    let mut cpu = setup();
    let mut v = 1;
    for f in [B, C, D, E, H, L, A] {
        for t in [B, C, D, E, H, L, A] {
            cpu.set_register(f, v);
            if f != t {
                assert_ne!(cpu.get_register(t), v);
            }
            assert_eq!(5, cpu.execute(MoveRegister(t, f)));
            assert_eq!(cpu.get_register(t), v);
        }
        v += 1;
    }
}

#[test]
fn push() {
    let mut cpu = setup();
    cpu.set_sp(STACK_END);
    let mut v = 0xA1;
    for rp in [BC, DE, HL] {
        cpu.set_register_pair(rp, v);
        let sp = cpu.get_sp();
        assert_eq!(11, cpu.execute(Push(rp)));
        assert_eq!(cpu.peek() as u16, v);
        v += 1;
        assert_eq!(cpu.get_sp(), sp - 2);
    }
}

#[test]
fn pop() {
    let mut cpu = setup();
    cpu.set_sp(STACK_START);
    for rp in [BC, DE, HL] {
        cpu.set_register_pair(rp, 42);
        let sp = cpu.get_sp();
        assert_eq!(10, cpu.execute(Pop(rp)));
        assert_eq!(cpu.get_register_pair(rp) as u16, 0);
        assert_eq!(cpu.get_sp(), sp + 2);
    }
}

#[test]
fn exchange_hl_with_de() {
    let mut cpu = setup();
    cpu.set_register_pair(HL, 0x1234);
    cpu.set_register_pair(DE, 0xABCD);
    assert_eq!(4, cpu.execute(ExchangeHLWithDE));
    assert_eq!(0xABCD, cpu.get_register_pair(HL));
    assert_eq!(0x1234, cpu.get_register_pair(DE));
}

#[test]
fn exchange_sp_with_hl() {
    let mut cpu = setup();
    cpu.set_sp(STACK_END);
    cpu.push(0xFEDC);
    cpu.set_register_pair(HL, 0xABCD);
    assert_eq!(18, cpu.execute(ExchangeSPWithHL));
    assert_eq!(0xFEDC, cpu.get_register_pair(HL));
    assert_eq!(STACK_END - 2, cpu.get_sp());
    assert_eq!(0xABCD, cpu.peek());
}

#[test]
fn move_from_memory() {
    let mut cpu = setup();
    cpu.set_register_pair(HL, RAM_START as u16);
    cpu.set_memory(RAM_START, 0xAB);
    for r in [A, B, C, D, E] {
        assert_eq!(cpu.get_register(r), 0);
        assert_eq!(7, cpu.execute(MoveFromMemory(r)));
        assert_eq!(cpu.get_register(r), 0xAB);
    }
}

#[test]
fn push_processor_status_word() {
    let mut cpu = setup();
    cpu.set_flags(0xFF);
    cpu.set_register(A, 0xAB);
    cpu.set_sp(STACK_END);
    assert_eq!(11, cpu.execute(PushProcessorStatusWord));
    assert_eq!(STACK_END - 2, cpu.get_sp());
    assert_eq!(0b1111_1111, cpu.pop_data()); // Flags
    assert_eq!(0xAB, cpu.pop_data()); // A register
}

#[test]
fn pop_processor_status_word() {
    let mut cpu = setup();
    cpu.set_flags(0xFF);
    cpu.set_register(A, 0xAB);
    cpu.set_sp(STACK_END);
    cpu.execute(PushProcessorStatusWord);
    cpu.set_flags(0);
    cpu.set_register(A, 0);
    assert_eq!(10, cpu.execute(PopProcessorStatusWord));
    assert_eq!(0xFF, cpu.get_flags());
    assert_eq!(0xAB, cpu.get_register(A));
    assert_eq!(STACK_END, cpu.get_sp());
}

#[test]
fn load_accumulator_direct() {
    let mut cpu = setup();
    let addr = RAM_START;
    cpu.set_memory(addr, 0xAB);
    assert_eq!(13, cpu.execute(LoadAccumulatorDirect(addr)));
    assert_eq!(0xAB, cpu.get_register(A));
}

#[test]
fn store_accumulator_direct() {
    let mut cpu = setup();
    let addr = 0x2000;
    cpu.set_register(A, 0xAB);
    assert_eq!(13, cpu.execute(StoreAccumulatorDirect(addr)));
    assert_eq!(0xAB, cpu.get_memory(addr));
}

#[test]
fn restart() {
    let mut cpu = setup();
    cpu.set_sp(STACK_END);
    cpu.set_pc(0x1234);
    assert_eq!(11, cpu.execute(Restart(0xFF)));
    assert_eq!(cpu.get_pc(), 0x7F8);
    assert_eq!(cpu.get_sp(), STACK_END - 2);
    assert_eq!(cpu.get_memory(cpu.get_sp() + 1), 0x12);
    assert_eq!(cpu.get_memory(cpu.get_sp()), 0x34);
    assert_eq!(cpu.registers, [0; NREGS]);
    assert_eq!(cpu.get_flags(), 0);
}

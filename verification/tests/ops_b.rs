//! Tests of instruction execution: arithmetic, logic, rotates and I/O.

use inv8080rs::cpu::Cpu;
use inv8080rs::isa::Flag::{AC, CY, P, S, Z};
use inv8080rs::isa::Instruction::{
    AddImmediate, AddMemory, AddRegister, AddRegisterPairToHL, AddRegisterWithCarry, AndImmediate,
    AndMemory, AndRegister, CompareImmediate, CompareMemory, CompareRegister,
    ComplementAccumulator, DecrementMemory, DecrementRegister, DecrementRegisterPair,
    DisableInterrupts, EnableInterrupts, IncrementMemory, IncrementRegister,
    IncrementRegisterPair, Input, LoadHLDirect, OrImmediate, OrMemory, OrRegister, Output,
    RotateLeft, RotateRight, RotateRightThroughCarry, SetCarry, StoreHLDirect, SubtractImmediate,
    SubtractImmediateWithBorrow, SubtractRegister, XorRegister,
};
use inv8080rs::isa::Register::{A, B, C, D, E, H, L};
use inv8080rs::isa::RegisterPair::{BC, DE, HL, SP};
use inv8080rs::{NPORTS, RAM_START, STACK_END, STACK_START};

/// Return a Cpu in a default state (zero/unset)
fn setup() -> Cpu {
    Cpu::new(vec![])
}

#[test]
fn increment_register_pair() {
    let mut cpu = setup();
    for rp in [BC, DE, HL, SP] {
        cpu.set_register_pair(rp, STACK_START as u16);
        assert_eq!(5, cpu.execute(IncrementRegisterPair(rp)));
        assert_eq!(1 + (STACK_START as u16), cpu.get_register_pair(rp));
    }
}

#[test]
fn decrement_register_pair() {
    let mut cpu = setup();
    for rp in [BC, DE, HL, SP] {
        cpu.set_register_pair(rp, STACK_END as u16);
        assert_eq!(5, cpu.execute(DecrementRegisterPair(rp)));
        assert_eq!((STACK_END as u16) - 1, cpu.get_register_pair(rp));
    }
}

#[test]
fn decrement_register() {
    let mut cpu = setup();
    for r in [B, C, D, E, H, L, A] {
        cpu.set_register(r, 1);
        assert_eq!(5, cpu.execute(DecrementRegister(r)));
        assert_eq!(0, cpu.get_register(r));
        assert!(cpu.get_flag(Z));
        assert!(!cpu.get_flag(S));
        assert!(cpu.get_flag(P));
        assert!(!cpu.get_flag(CY));
        assert!(!cpu.get_flag(AC));
        assert_eq!(5, cpu.execute(DecrementRegister(r)));
        assert_eq!(-1, cpu.get_register(r) as i8);
        assert_eq!(5, cpu.execute(DecrementRegister(r)));
        assert_eq!(-2, cpu.get_register(r) as i8);
    }
}

#[test]
fn increment_register() {
    let mut cpu = setup();
    for r in [B, C, D, E, H, L, A] {
        cpu.set_register(r, 0);
        assert_eq!(5, cpu.execute(IncrementRegister(r)));
        assert_eq!(1, cpu.get_register(r));
        assert!(!cpu.get_flag(Z));
        assert!(!cpu.get_flag(S));
        assert!(!cpu.get_flag(P));
        assert!(!cpu.get_flag(CY));
        assert!(!cpu.get_flag(AC));
    }
}

#[test]
fn increment_memory() {
    let mut cpu = setup();
    let addr = RAM_START;
    cpu.set_register_pair(HL, addr as u16);
    cpu.set_memory(addr, 2);
    assert_eq!(10, cpu.execute(IncrementMemory));
    assert_eq!(3, cpu.get_memory(addr));
    assert!(!cpu.get_flag(Z));
    assert!(!cpu.get_flag(S));
    assert!(cpu.get_flag(P));
    assert!(!cpu.get_flag(CY));
    assert!(!cpu.get_flag(AC));
}

#[test]
fn decrement_memory() {
    let mut cpu = setup();
    let addr = RAM_START;
    cpu.set_register_pair(HL, addr as u16);
    cpu.set_memory(addr, 1);
    assert_eq!(10, cpu.execute(DecrementMemory));
    assert_eq!(0, cpu.get_memory(addr));
    assert!(cpu.get_flag(Z));
    assert!(!cpu.get_flag(S));
    assert!(cpu.get_flag(P));
    assert!(!cpu.get_flag(CY));
    assert!(!cpu.get_flag(AC));
}

#[test]
fn compare_immediate() {
    let mut cpu = setup();

    cpu.set_register(A, 1);
    assert_eq!(7, cpu.execute(CompareImmediate(1)));
    assert!(cpu.get_flag(Z));
    assert!(!cpu.get_flag(CY));
    cpu.set_flags(0);
    assert_eq!(7, cpu.execute(CompareImmediate(0)));
    assert!(!cpu.get_flag(Z));
    assert!(!cpu.get_flag(CY));
    cpu.set_flags(0);
    assert_eq!(7, cpu.execute(CompareImmediate(2)));
    assert!(!cpu.get_flag(Z));
    assert!(cpu.get_flag(CY));
}

#[test]
fn compare_register() {
    let mut cpu = setup();

    cpu.set_register(A, 1);
    cpu.set_register(B, 1);
    assert_eq!(4, cpu.execute(CompareRegister(B)));
    assert!(cpu.get_flag(Z));
    assert!(!cpu.get_flag(CY));
    cpu.set_flags(0);
    cpu.set_register(B, 0);
    assert_eq!(4, cpu.execute(CompareRegister(B)));
    assert!(!cpu.get_flag(Z));
    assert!(!cpu.get_flag(CY));
    cpu.set_flags(0);
    cpu.set_register(B, 2);
    assert_eq!(4, cpu.execute(CompareRegister(B)));
    assert!(!cpu.get_flag(Z));
    assert!(cpu.get_flag(CY));
}

#[test]
fn compare_memory() {
    let mut cpu = setup();

    cpu.set_register(A, 1);
    cpu.set_register_pair(HL, RAM_START as u16);
    cpu.set_memory(RAM_START, 1);
    assert_eq!(7, cpu.execute(CompareMemory));
    assert!(cpu.get_flag(Z));
    assert!(!cpu.get_flag(CY));
    cpu.set_flags(0);
    cpu.set_memory(RAM_START, 0);
    assert_eq!(7, cpu.execute(CompareMemory));
    assert!(!cpu.get_flag(Z));
    assert!(!cpu.get_flag(CY));
    cpu.set_flags(0);
    cpu.set_memory(RAM_START, 2);
    assert_eq!(7, cpu.execute(CompareMemory));
    assert!(!cpu.get_flag(Z));
    assert!(cpu.get_flag(CY));
}

#[test]
fn add_register_pair_to_hl() {
    let mut cpu = setup();
    cpu.set_register_pair(BC, 1);
    cpu.set_register_pair(DE, 2);
    cpu.set_register_pair(SP, STACK_END as u16);
    cpu.set_register_pair(HL, 0xFFFD);
    assert_eq!(10, cpu.execute(AddRegisterPairToHL(BC)));
    assert!(!cpu.get_flag(CY));
    assert_eq!(0xFFFE, cpu.get_register_pair(HL));
    assert_eq!(10, cpu.execute(AddRegisterPairToHL(DE)));
    assert!(cpu.get_flag(CY));
    assert_eq!(0, cpu.get_register_pair(HL));
    assert_eq!(10, cpu.execute(AddRegisterPairToHL(SP)));
    assert!(!cpu.get_flag(CY));
    assert_eq!(STACK_END as u16, cpu.get_register_pair(HL));
    assert_eq!(10, cpu.execute(AddRegisterPairToHL(HL)));
    assert!(!cpu.get_flag(CY));
    assert_eq!(2 * (STACK_END as u16), cpu.get_register_pair(HL));
}

#[test]
fn set_carry() {
    let mut cpu = setup();
    assert_eq!(4, cpu.execute(SetCarry));
    assert!(cpu.get_flag(CY));
}

#[test]
fn rotate_right() {
    let mut cpu = setup();
    cpu.set_register(A, 0b1000_0001);
    cpu.set_flags(0);
    assert_eq!(4, cpu.execute(RotateRight));
    assert_eq!(0b1100_0000, cpu.get_register(A));
    assert!(cpu.get_flag(CY));
    cpu.set_register(A, 0b1000_0010);
    assert_eq!(4, cpu.execute(RotateRight));
    assert_eq!(0b0100_0001, cpu.get_register(A));
    assert!(!cpu.get_flag(CY));
}

#[test]
fn rotate_left() {
    let mut cpu = setup();
    cpu.set_register(A, 0b1000_0001);
    cpu.set_flags(0);
    assert_eq!(4, cpu.execute(RotateLeft));
    assert_eq!(0b0000_0011, cpu.get_register(A));
    assert!(cpu.get_flag(CY));
    cpu.set_register(A, 0b0100_0001);
    assert_eq!(4, cpu.execute(RotateLeft));
    assert_eq!(0b1000_0010, cpu.get_register(A));
    assert!(!cpu.get_flag(CY));
}

#[test]
fn rotate_right_through_carry() {
    let mut cpu = setup();
    cpu.set_register(A, 0b1000_0001);
    cpu.set_flags(0);
    assert_eq!(4, cpu.execute(RotateRightThroughCarry));
    assert_eq!(0b0100_0000, cpu.get_register(A));
    assert!(cpu.get_flag(CY));
    assert_eq!(4, cpu.execute(RotateRightThroughCarry));
    assert_eq!(0b1010_0000, cpu.get_register(A));
    assert!(!cpu.get_flag(CY));
}

#[test]
fn and_immediate() {
    let mut cpu = setup();
    cpu.set_register(A, 0b1010_1010);
    cpu.set_flags(0);
    cpu.set_flag(CY, true);
    cpu.set_flag(AC, true);
    assert_eq!(7, cpu.execute(AndImmediate(0b1111_0000)));
    assert_eq!(0b1010_1010 & 0b1111_0000, cpu.get_register(A));
    assert!(!cpu.get_flag(CY));
    assert!(!cpu.get_flag(AC));
}

#[test]
fn and_memory() {
    let mut cpu = setup();
    cpu.set_register(A, 0b1010_1010);
    cpu.set_flag(CY, true);
    cpu.set_register_pair(HL, RAM_START as u16);
    cpu.set_memory(RAM_START, 0b1111_0000);
    assert_eq!(7, cpu.execute(AndMemory));
    assert_eq!(0b1010_1010 & 0b1111_0000, cpu.get_register(A));
    assert!(!cpu.get_flag(CY));
}

#[test]
fn add_immediate() {
    let mut cpu = setup();
    cpu.set_register(A, 0xFF);
    cpu.set_flags(0);
    assert_eq!(7, cpu.execute(AddImmediate(1)));
    assert_eq!(0, cpu.get_register(A));
    assert!(cpu.get_flag(CY));
}

#[test]
fn add_memory() {
    let mut cpu = setup();
    cpu.set_register(A, 0xFF);
    cpu.set_register_pair(HL, RAM_START as u16);
    cpu.set_memory(RAM_START, 1);
    assert_eq!(7, cpu.execute(AddMemory));
    assert_eq!(0, cpu.get_register(A));
    assert!(cpu.get_flag(CY));
}

#[test]
fn add_register() {
    let mut cpu = setup();
    cpu.set_register(A, 0xFF);
    cpu.set_register(B, 0x1);
    assert_eq!(4, cpu.execute(AddRegister(B)));
    assert_eq!(0, cpu.get_register(A));
    assert!(cpu.get_flag(CY));
    assert!(cpu.get_flag(Z));
}

#[test]
fn add_register_with_carry() {
    let mut cpu = setup();
    cpu.set_register(A, 0x3);
    cpu.set_register(B, 0x4);
    cpu.set_flag(CY, true);
    assert_eq!(4, cpu.execute(AddRegisterWithCarry(B)));
    assert_eq!(0x8, cpu.get_register(A));
    assert!(!cpu.get_flag(CY));
}

#[test]
fn subtract_register() {
    let mut cpu = setup();
    cpu.set_register(A, 0);
    cpu.set_register(B, 0x1);
    assert_eq!(4, cpu.execute(SubtractRegister(B)));
    assert_eq!(0xFF, cpu.get_register(A));
    assert!(cpu.get_flag(CY));
    assert!(cpu.get_flag(P));
}

#[test]
fn subtract_immediate() {
    let mut cpu = setup();
    cpu.set_register(A, 0);
    cpu.set_flags(0);
    assert_eq!(7, cpu.execute(SubtractImmediate(1)));
    assert_eq!(0xFF, cpu.get_register(A));
    assert!(cpu.get_flag(CY));
}

#[test]
fn subtract_immediate_with_borrow() {
    let mut cpu = setup();
    cpu.set_register(A, 0);
    cpu.set_flags(0);
    cpu.set_flag(CY, true);
    assert_eq!(7, cpu.execute(SubtractImmediateWithBorrow(1)));
    assert_eq!(0xFE, cpu.get_register(A));
    assert!(cpu.get_flag(CY));
    cpu.set_flag(CY, false);
    assert_eq!(7, cpu.execute(SubtractImmediateWithBorrow(1)));
    assert_eq!(0xFD, cpu.get_register(A));
    assert!(!cpu.get_flag(CY));
}

#[test]
fn xor_register() {
    let mut cpu = setup();
    for r in [B, C, D, E, H, L] {
        cpu.set_flag(CY, true);
        cpu.set_flag(AC, true);
        cpu.set_register(A, 0b1010_1010);
        cpu.set_register(r, 0b0100_1111);
        assert_eq!(4, cpu.execute(XorRegister(r)));
        assert_eq!(0b1110_0101, cpu.get_register(A));
        assert!(!cpu.get_flag(CY));
        assert!(!cpu.get_flag(AC));
    }
}

#[test]
fn disable_interrupts() {
    let mut cpu = setup();
    cpu.interruptable = true;
    assert_eq!(4, cpu.execute(DisableInterrupts));
    assert!(!cpu.interruptable);
}

#[test]
fn enable_interrupts() {
    let mut cpu = setup();
    assert_eq!(4, cpu.execute(EnableInterrupts));
    assert!(cpu.interruptable);
}

#[test]
fn and_register() {
    let mut cpu = setup();
    for r in [B, C, D, E, H, L] {
        cpu.set_flag(CY, true);
        cpu.set_register(A, 0b1010_1010);
        cpu.set_register(r, 0b0100_1111);
        assert_eq!(4, cpu.execute(AndRegister(r)));
        assert_eq!(0b0000_1010, cpu.get_register(A));
        assert!(!cpu.get_flag(CY));
    }
}

#[test]
fn input() {
    let mut cpu = setup();
    for port in 0..NPORTS {
        assert_eq!(10, cpu.execute(Input(port as u8)));
    }
}

#[test]
fn output() {
    let mut cpu = setup();
    for port in 0..NPORTS {
        assert_eq!(10, cpu.execute(Output(port as u8)));
    }
}

#[test]
fn or_memory() {
    let mut cpu = setup();
    cpu.set_register_pair(HL, 0x2000);
    cpu.set_memory(0x2000, 0b1010_1010);
    cpu.set_register(A, 0b0101_0101);
    cpu.set_flag(AC, true);
    cpu.set_flag(CY, true);
    assert_eq!(7, cpu.execute(OrMemory));
    assert_eq!(0b1111_1111, cpu.get_register(A));
    assert!(!cpu.get_flag(CY));
    assert!(!cpu.get_flag(AC));
}

#[test]
fn or_register() {
    let mut cpu = setup();
    for r in [B, C, D, E, H, L] {
        cpu.set_register(r, 0b1010_1010);
        cpu.set_register(A, 0b0101_0101);
        cpu.set_flag(AC, true);
        cpu.set_flag(CY, true);
        assert_eq!(4, cpu.execute(OrRegister(r)));
        assert_eq!(0b1111_1111, cpu.get_register(A));
        assert!(!cpu.get_flag(CY));
        assert!(!cpu.get_flag(AC));
    }
}

#[test]
fn or_immediate() {
    let mut cpu = setup();
    cpu.set_register(A, 0b1010_1010);
    cpu.set_flag(AC, true);
    cpu.set_flag(CY, true);
    assert_eq!(7, cpu.execute(OrImmediate(0b0101_0101)));
    assert_eq!(0b1111_1111, cpu.get_register(A));
    assert!(!cpu.get_flag(CY));
    assert!(!cpu.get_flag(AC));
}

#[test]
fn load_hl_direct() {
    let mut cpu = setup();
    cpu.set_memory(RAM_START, 0xCD);
    cpu.set_memory(RAM_START + 1, 0xAB);
    assert_eq!(16, cpu.execute(LoadHLDirect(RAM_START)));
    assert_eq!(0xABCD, cpu.get_register_pair(HL));
}

#[test]
fn store_hl_direct() {
    let mut cpu = setup();
    cpu.set_register_pair(HL, 0xABCD);
    assert_eq!(16, cpu.execute(StoreHLDirect(RAM_START)));
    assert_eq!(0xCD, cpu.get_memory(RAM_START));
    assert_eq!(0xAB, cpu.get_memory(RAM_START + 1));
}

#[test]
fn shift_register() {
    let mut cpu = setup();

    cpu.set_register(A, 0x1);
    assert_eq!(10, cpu.execute(Output(4)));
    assert_eq!(cpu.shift, 0b0000_0001_0000_0000);
    cpu.set_register(A, 0x3);
    assert_eq!(10, cpu.execute(Output(4)));
    assert_eq!(cpu.shift, 0b0000_0011_0000_0001);
    assert_eq!(0x3, cpu.get_bus_in(3));
    cpu.set_register(A, 0x7);
    assert_eq!(10, cpu.execute(Output(2)));
    assert_eq!(0b1000_0000, cpu.get_bus_in(3));
    cpu.set_register(A, 0x6);
    assert_eq!(10, cpu.execute(Output(2)));
    assert_eq!(0b1100_0000, cpu.get_bus_in(3));
}

#[test]
fn complement_accumulator() {
    let mut cpu = setup();
    cpu.set_register(A, 0b1010_1010);
    assert_eq!(4, cpu.execute(ComplementAccumulator));
    assert_eq!(0b0101_0101, cpu.get_register(A));
}

//! Property-driven tests: decode totality over all 256 opcodes, the flag
//! invariants checked exhaustively, the BCD scenario, interrupt gating, the
//! shift-register peripheral, the push/pop round trip and a whole
//! fetch-decode-execute step.

use inv8080rs::cpu::Cpu;
use inv8080rs::isa::Flag::{AC, CY, P, S, Z};
use inv8080rs::isa::Instruction::{
    AddRegister, DecimalAdjustAccumulator, LoadAccumulatorIndirect, OrImmediate, Output, Pop,
    Push, SubtractImmediate,
};
use inv8080rs::isa::{Instruction, Register, RegisterPair};
use inv8080rs::{FRAMEBUFFER_START, NPORTS, NREGS, ROM_END, STACK_END};

fn setup() -> Cpu {
    Cpu::new(vec![])
}

/// Every one of the 256 opcode byte values decodes without panicking, to
/// either a fully-specified instruction or the unknown variant carrying the
/// raw byte; the counter advances one to three bytes.
#[test]
fn decode_is_total() {
    let mut unknown = 0;
    for op in 0..=255u8 {
        let mut cpu = Cpu::new(vec![op, 0x34, 0x12]);
        let instr = cpu.fetch_and_decode();
        let len = cpu.get_pc();
        assert!(1 <= len && len <= 3);
        if let Instruction::Unknown(b) = instr {
            assert_eq!(b, op);
            unknown += 1;
        }
    }
    assert_eq!(unknown, 12);
}

/// Zero/Sign/Parity invariants for an arithmetic family (ADD): over all 256
/// result bytes, Zero holds iff the result is zero, Sign iff its top bit is
/// set, Parity iff its popcount is even; the carry here is always clear.
#[test]
fn add_flag_invariants_exhaustive() {
    for v in 0..=255u8 {
        let mut cpu = setup();
        cpu.set_register(Register::A, v);
        cpu.set_register(Register::B, 0);
        cpu.execute(AddRegister(Register::B));
        assert_eq!(cpu.get_flag(Z), v == 0);
        assert_eq!(cpu.get_flag(S), v & 0x80 == 0x80);
        assert_eq!(cpu.get_flag(P), v.count_ones() % 2 == 0);
        assert!(!cpu.get_flag(CY));
    }
}

/// The same three invariants for a subtraction family (SUI 0).
#[test]
fn subtract_flag_invariants_exhaustive() {
    for v in 0..=255u8 {
        let mut cpu = setup();
        cpu.set_register(Register::A, v);
        cpu.execute(SubtractImmediate(0));
        assert_eq!(cpu.get_flag(Z), v == 0);
        assert_eq!(cpu.get_flag(S), v & 0x80 == 0x80);
        assert_eq!(cpu.get_flag(P), v.count_ones() % 2 == 0);
        assert!(!cpu.get_flag(CY));
    }
}

/// The same three invariants for a logical family (ORI 0), which also always
/// clears the carry.
#[test]
fn or_flag_invariants_exhaustive() {
    for v in 0..=255u8 {
        let mut cpu = setup();
        cpu.set_register(Register::A, v);
        cpu.set_flag(CY, true);
        cpu.execute(OrImmediate(0));
        assert_eq!(cpu.get_flag(Z), v == 0);
        assert_eq!(cpu.get_flag(S), v & 0x80 == 0x80);
        assert_eq!(cpu.get_flag(P), v.count_ones() % 2 == 0);
        assert!(!cpu.get_flag(CY));
    }
}

/// Deriving the flags twice from one (before, after, carry) triple leaves
/// the very flag byte that deriving them once left.
#[test]
fn flag_derivation_idempotent() {
    for (before, after, carry) in [(0u8, 0u8, false), (0x3F, 0x40, true), (0xFF, 0xFE, false)] {
        let mut cpu = setup();
        cpu.set_flags(0b1010_1010);
        cpu.set_flags_for_arithmetic(before, after, carry);
        let once = cpu.get_flags();
        cpu.set_flags_for_arithmetic(before, after, carry);
        assert_eq!(once, cpu.get_flags());
    }
}

/// BCD adjust with accumulator 0x9A and clear flags: both corrections fire,
/// giving a zero accumulator with Carry and Auxiliary-Carry set.
#[test]
fn decimal_adjust_both_corrections() {
    let mut cpu = setup();
    cpu.set_register(Register::A, 0x9A);
    cpu.set_flags(0);
    assert_eq!(4, cpu.execute(DecimalAdjustAccumulator));
    assert_eq!(0x00, cpu.get_register(Register::A));
    assert!(cpu.get_flag(CY));
    assert!(cpu.get_flag(AC));
}

/// With interrupts disabled an interrupt is a no-op costing zero cycles;
/// with them enabled it restarts to vector*8, pushes the pre-interrupt
/// counter and disables further interrupts.
#[test]
fn interrupt_only_when_enabled() {
    let mut cpu = setup();
    cpu.set_pc(0x1234);
    cpu.set_sp(STACK_END);
    assert_eq!(0, cpu.interrupt(1));
    assert_eq!(0x1234, cpu.get_pc());
    assert_eq!(STACK_END, cpu.get_sp());
    assert_eq!(cpu.registers, [0; NREGS]);

    cpu.interruptable = true;
    assert_eq!(11, cpu.interrupt(1));
    assert_eq!(8, cpu.get_pc());
    assert_eq!(STACK_END - 2, cpu.get_sp());
    assert_eq!(0x12, cpu.get_memory(cpu.get_sp() + 1));
    assert_eq!(0x34, cpu.get_memory(cpu.get_sp()));
    assert!(!cpu.interruptable);
}

/// Writing 0x01 then 0x03 to the shift register's load port, with offset 0,
/// shifts the old high byte down: the tap port then reads 0x03.
#[test]
fn shift_register_loads() {
    let mut cpu = setup();
    cpu.set_register(Register::A, 0x01);
    cpu.execute(Output(4));
    cpu.set_register(Register::A, 0x03);
    cpu.execute(Output(4));
    assert_eq!(0x03, cpu.get_bus_in(3));
}

/// Pushing a register pair and popping it restores the pair's value and the
/// stack pointer.
#[test]
fn push_pop_round_trip() {
    for rp in [RegisterPair::BC, RegisterPair::DE, RegisterPair::HL] {
        let mut cpu = setup();
        cpu.set_sp(STACK_END);
        cpu.set_register_pair(rp, 0xABCD);
        cpu.execute(Push(rp));
        cpu.set_register_pair(rp, 0);
        cpu.execute(Pop(rp));
        assert_eq!(0xABCD, cpu.get_register_pair(rp));
        assert_eq!(STACK_END, cpu.get_sp());
    }
}

/// A full decode+execute step over a zero byte resolves to no-op: the
/// counter advances one byte, four cycles pass, and nothing else changes.
#[test]
fn step_on_empty_program_is_noop() {
    let mut cpu = setup();
    assert!(cpu.step_safe());
    assert_eq!(4, cpu.step());
    assert_eq!(1, cpu.get_pc());
    assert_eq!(0, cpu.get_sp());
    assert_eq!(cpu.registers, [0; NREGS]);
    assert_eq!(0, cpu.get_flags());
}

/// The runtime safety checks reject what must fail fast: unknown opcodes,
/// the halt this machine does not implement, instructions that run off the
/// end of ROM, reserved operands, and an interrupt, interrupts enabled,
/// without a stack.
#[test]
fn safety_checks_reject_faults() {
    // 0x08 is an unassigned opcode.
    let cpu = Cpu::new(vec![0x08]);
    assert!(!cpu.step_safe());

    // 0x76 is HLT, which this machine does not implement.
    let cpu = Cpu::new(vec![0x76]);
    assert!(!cpu.step_safe());

    // The counter must stay in ROM: a no-op on the next-to-last ROM byte
    // fits, a three-byte jump there runs off the end, and any instruction on
    // the last byte would leave the counter past ROM.
    let mut cpu = setup();
    cpu.set_pc(ROM_END - 1);
    assert!(cpu.step_safe());
    let mut image = vec![0u8; 0x2000];
    image[0x1FFE] = 0xC3;
    let mut cpu = Cpu::new(image);
    cpu.set_pc(ROM_END - 1);
    assert!(!cpu.step_safe());
    cpu.set_pc(ROM_END);
    assert!(!cpu.step_safe());

    // Reserved operands are never executable.
    let cpu = setup();
    assert!(!cpu.instruction_ok(Push(RegisterPair::SP)));
    assert!(!cpu.instruction_ok(Pop(RegisterPair::SP)));
    assert!(!cpu.instruction_ok(LoadAccumulatorIndirect(RegisterPair::HL)));
    assert!(!cpu.instruction_ok(LoadAccumulatorIndirect(RegisterPair::SP)));
    assert!(!cpu.instruction_ok(Instruction::Halt));
    assert!(!cpu.instruction_ok(Instruction::Unknown(0x08)));

    // With interrupts enabled and the stack pointer outside the stack
    // window no interrupt can be taken; with them disabled one always can.
    let mut cpu = setup();
    assert!(cpu.interrupt_safe());
    cpu.interruptable = true;
    assert!(!cpu.interrupt_safe());
    cpu.set_sp(STACK_END);
    assert!(cpu.interrupt_safe());
}

/// A write into the framebuffer raises the display-update flag and shows up
/// as pixels; the embedder clears the flag after drawing.
#[test]
fn display_pixels_and_update_flag() {
    let mut cpu = setup();
    cpu.set_display_update(false);
    assert!(!cpu.get_display_update());

    // Column 0 of the screen lives in the last byte of the first 32-byte
    // framebuffer stripe; its high bit is the top-left pixel.
    cpu.set_memory(FRAMEBUFFER_START + 31, 0x80);
    assert!(cpu.get_display_update());
    assert!(cpu.display(0, 0));
    assert!(!cpu.display(0, 1));
    assert!(!cpu.display(1, 0));

    // A write below the framebuffer leaves the flag alone.
    cpu.set_display_update(false);
    cpu.set_memory(0x2000, 0xFF);
    assert!(!cpu.get_display_update());
}

/// Every input port starts zeroed; the embedder latches whatever bits the
/// cabinet holds high, and can flip single input bits.
#[test]
fn input_port_latches() {
    let mut cpu = setup();
    for port in 0..NPORTS {
        if port != 3 {
            assert_eq!(0, cpu.get_bus_in(port));
        }
    }
    cpu.set_bus_in(0, 0b0000_1110);
    assert_eq!(0b0000_1110, cpu.get_bus_in(0));
    cpu.set_bus_in_bit(1, 3, true);
    assert_eq!(0b0000_1000, cpu.get_bus_in(1));
    cpu.set_bus_in_bit(1, 0, true);
    assert_eq!(0b0000_1001, cpu.get_bus_in(1));
    cpu.set_bus_in_bit(1, 0, false);
    assert_eq!(0b0000_1000, cpu.get_bus_in(1));
    cpu.set_bus_in(2, 0xAA);
    assert_eq!(0xAA, cpu.get_bus_in(2));
}

/// A program image may fill the whole ROM region; it is copied to address 0
/// and the memory above it starts zeroed.
#[test]
fn largest_program_image() {
    let mut image = vec![0u8; 0x2000];
    image[0] = 0xAA;
    image[0x1FFF] = 0x55;
    let cpu = Cpu::new(image);
    assert_eq!(0xAA, cpu.get_memory(0));
    assert_eq!(0x55, cpu.get_memory(0x1FFF));
    assert_eq!(0, cpu.get_memory(0x2000));
    assert_eq!(0, cpu.get_memory(0x3FFF));
}

/// The fetch helpers consume immediates little-endian: low byte first.
#[test]
fn fetch_is_little_endian() {
    let mut cpu = Cpu::new(vec![0xAB, 0xCD, 0xEF]);
    assert_eq!(0xAB, cpu.fetch_data());
    assert_eq!(0xEFCD, cpu.fetch_data16());
    assert_eq!(3, cpu.get_pc());
    let mut cpu = Cpu::new(vec![0x34, 0x12]);
    assert_eq!(0x1234, cpu.fetch_address());
    assert_eq!(2, cpu.get_pc());
}

/// Output ports latch what the accumulator held.
#[test]
fn output_port_latches() {
    let mut cpu = setup();
    cpu.set_register(Register::A, 0x5A);
    cpu.execute(Output(3));
    assert_eq!(0x5A, cpu.get_bus_out(3));
}

//! The instruction set: registers, register pairs, conditions, flags, the
//! instruction type itself, and the total decoding function from opcode bytes
//! to instructions.

use vstd::prelude::*;

verus! {

/// Registers, in the order in which they sit in the register file.
#[derive(Copy, Clone, Debug, PartialEq, Eq, Structural)]
pub enum Register {
    B,
    C,
    D,
    E,
    H,
    L,
    /// Flags
    F,
    /// Accumulator
    A,
}

/// Register pairs.
#[derive(Copy, Clone, Debug, PartialEq, Eq, Structural)]
pub enum RegisterPair {
    BC,
    DE,
    HL,
    SP,
}

/// Conditions for the conditional jump/call/return instructions.
#[derive(Copy, Clone, Debug, PartialEq, Eq, Structural)]
pub enum Condition {
    NotZero,
    Zero,
    NoCarry,
    Carry,
    ParityOdd,
    ParityEven,
    Plus,
    Minus,
}

/// Flags, each a single bit of the packed flag register.
#[derive(Copy, Clone, Debug, PartialEq, Eq, Structural)]
pub enum Flag {
    Z,
    S,
    P,
    CY,
    AC,
}

/// Index of a register in the register file.
pub open spec fn reg_idx(r: Register) -> int {
    match r {
        Register::B => 0,
        Register::C => 1,
        Register::D => 2,
        Register::E => 3,
        Register::H => 4,
        Register::L => 5,
        Register::F => 6,
        Register::A => 7,
    }
}

/// Index of the high register of a pair in the register file; the low
/// register sits just above it.  The stack pointer is not a register-file
/// pair and has no index.
pub open spec fn pair_idx(rp: RegisterPair) -> int {
    match rp {
        RegisterPair::BC => 0,
        RegisterPair::DE => 2,
        RegisterPair::HL => 4,
        RegisterPair::SP => 6,  // unused: SP lives outside the register file
    }
}

/// Bit position of a flag inside the packed flag register
/// (CY=bit0, P=bit2, AC=bit4, Z=bit6, S=bit7).
pub open spec fn flag_pos(f: Flag) -> u8 {
    match f {
        Flag::CY => 0,
        Flag::P => 2,
        Flag::AC => 4,
        Flag::Z => 6,
        Flag::S => 7,
    }
}

/// Executable counterpart of [`reg_idx`].
pub fn register_index(r: Register) -> (i: usize)
    ensures
        i == reg_idx(r),
{
    match r {
        Register::B => 0,
        Register::C => 1,
        Register::D => 2,
        Register::E => 3,
        Register::H => 4,
        Register::L => 5,
        Register::F => 6,
        Register::A => 7,
    }
}

/// Executable counterpart of [`pair_idx`] for the register-file pairs.
pub fn pair_index(rp: RegisterPair) -> (i: usize)
    requires
        rp != RegisterPair::SP,
    ensures
        i == pair_idx(rp),
{
    match rp {
        RegisterPair::BC => 0,
        RegisterPair::DE => 2,
        RegisterPair::HL => 4,
        RegisterPair::SP => 6,
    }
}

/// Executable counterpart of [`flag_pos`].
pub fn flag_position(f: Flag) -> (n: u8)
    ensures
        n == flag_pos(f),
{
    match f {
        Flag::CY => 0,
        Flag::P => 2,
        Flag::AC => 4,
        Flag::Z => 6,
        Flag::S => 7,
    }
}

/// Instructions, in the order of Chapter 4 of the programmer's manual.
#[derive(Copy, Clone, Debug, PartialEq, Eq, Structural)]
pub enum Instruction {
    /// Move register - MOV r1, r2
    MoveRegister(Register, Register),
    /// Move from memory - MOV r, M
    MoveFromMemory(Register),
    /// Move to memory - MOV M, r
    MoveToMemory(Register),
    /// Move to register immediate - MVI r, data
    MoveImmediate(Register, u8),
    /// Move to memory immediate - MVI M, data
    MoveToMemoryImmediate(u8),
    /// Load register pair immediate - LXI rp, data16
    LoadRegisterPairImmediate(RegisterPair, u16),
    /// Load accumulator direct - LDA addr
    LoadAccumulatorDirect(usize),
    /// Store accumulator direct - STA addr
    StoreAccumulatorDirect(usize),
    /// Load H and L direct - LHLD addr
    LoadHLDirect(usize),
    /// Store H and L direct - SHLD addr
    StoreHLDirect(usize),
    /// Load accumulator indirect - LDAX rp
    LoadAccumulatorIndirect(RegisterPair),
    /// Store accumulator indirect - STAX rp
    StoreAccumulatorIndirect(RegisterPair),
    /// Exchange H and L with D and E - XCHG
    ExchangeHLWithDE,
    /// Add register - ADD r
    AddRegister(Register),
    /// Add memory - ADD M
    AddMemory,
    /// Add immediate - ADI data
    AddImmediate(u8),
    /// Add register with carry - ADC r
    AddRegisterWithCarry(Register),
    /// Add memory with carry - ADC M
    AddMemoryWithCarry,
    /// Add immediate with carry - ACI data
    AddImmediateWithCarry(u8),
    /// Subtract register - SUB r
    SubtractRegister(Register),
    /// Subtract memory - SUB M
    SubtractMemory,
    /// Subtract immediate - SUI data
    SubtractImmediate(u8),
    /// Subtract register with borrow - SBB r
    SubtractRegisterWithBorrow(Register),
    /// Subtract memory with borrow - SBB M
    SubtractMemoryWithBorrow,
    /// Subtract immediate with borrow - SBI data
    SubtractImmediateWithBorrow(u8),
    /// Increment register - INR r
    IncrementRegister(Register),
    /// Increment memory - INR M
    IncrementMemory,
    /// Decrement register - DCR r
    DecrementRegister(Register),
    /// Decrement memory - DCR M
    DecrementMemory,
    /// Increment register pair - INX rp
    IncrementRegisterPair(RegisterPair),
    /// Decrement register pair - DCX rp
    DecrementRegisterPair(RegisterPair),
    /// Add register pair to HL - DAD rp
    AddRegisterPairToHL(RegisterPair),
    /// Decimal adjust accumulator - DAA
    DecimalAdjustAccumulator,
    /// AND register - ANA r
    AndRegister(Register),
    /// AND memory - ANA M
    AndMemory,
    /// AND immediate - ANI data
    AndImmediate(u8),
    /// Exclusive OR register - XRA r
    XorRegister(Register),
    /// Exclusive OR memory - XRA M
    XorMemory,
    /// Exclusive OR immediate - XRI data
    XorImmediate(u8),
    /// OR register - ORA r
    OrRegister(Register),
    /// OR memory - ORA M
    OrMemory,
    /// OR immediate - ORI data
    OrImmediate(u8),
    /// Compare register - CMP r
    CompareRegister(Register),
    /// Compare memory - CMP M
    CompareMemory,
    /// Compare immediate - CPI data
    CompareImmediate(u8),
    /// Rotate left - RLC
    RotateLeft,
    /// Rotate right - RRC
    RotateRight,
    /// Rotate left through carry - RAL
    RotateLeftThroughCarry,
    /// Rotate right through carry - RAR
    RotateRightThroughCarry,
    /// Complement accumulator - CMA
    ComplementAccumulator,
    /// Complement carry - CMC
    ComplementCarry,
    /// Set carry - STC
    SetCarry,
    /// Jump to address - JMP addr
    Jump(usize),
    /// Conditional jump - Jcondition addr
    ConditionalJump(Condition, usize),
    /// Call - CALL addr
    Call(usize),
    /// Conditional call - Ccondition addr
    ConditionalCall(Condition, usize),
    /// Return - RET
    Return,
    /// Conditional return - Rcondition
    ConditionalReturn(Condition),
    /// Restart - RST n
    Restart(u8),
    /// Jump H and L indirect, move H and L to PC - PCHL
    JumpHLIndirect,
    /// Push - PUSH rp
    Push(RegisterPair),
    /// Push processor status word - PUSH PSW
    PushProcessorStatusWord,
    /// Pop - POP rp
    Pop(RegisterPair),
    /// Pop processor status word - POP PSW
    PopProcessorStatusWord,
    /// Exchange stack top with H and L - XTHL
    ExchangeSPWithHL,
    /// Move HL to SP - SPHL
    MoveHLToSP,
    /// Input - IN port
    Input(u8),
    /// Output - OUT port
    Output(u8),
    /// Enable interrupts - EI
    EnableInterrupts,
    /// Disable interrupts - DI
    DisableInterrupts,
    /// Halt - HLT
    Halt,
    /// No operation - NOP
    NoOperation,
    /// Opcode with no assigned instruction, carried as data
    Unknown(u8),
}

/// How many bytes the instruction starting with opcode `op` occupies:
/// the opcode itself plus 0, 1 or 2 immediate bytes.
pub open spec fn spec_instruction_length(op: u8) -> int {
    match op {
        // MVI r/M and the immediate arithmetic/logic/compare/port forms
        0x06u8 | 0x0Eu8 | 0x16u8 | 0x1Eu8 | 0x26u8 | 0x2Eu8 | 0x36u8 | 0x3Eu8 | 0xC6u8 | 0xCEu8
        | 0xD6u8 | 0xDEu8 | 0xE6u8 | 0xEEu8 | 0xF6u8 | 0xFEu8 | 0xD3u8 | 0xDBu8 => 2,
        // LXI, the direct loads/stores, and the jump/call family
        0x01u8 | 0x11u8 | 0x21u8 | 0x31u8 | 0x22u8 | 0x2Au8 | 0x32u8 | 0x3Au8 | 0xC3u8 | 0xC2u8
        | 0xCAu8 | 0xD2u8 | 0xDAu8 | 0xE2u8 | 0xEAu8 | 0xF2u8 | 0xFAu8 | 0xCDu8 | 0xC4u8
        | 0xCCu8 | 0xD4u8 | 0xDCu8 | 0xE4u8 | 0xECu8 | 0xF4u8 | 0xFCu8 => 3,
        _ => 1,
    }
}

/// Executable counterpart of [`spec_instruction_length`].
pub fn instruction_length(op: u8) -> (n: usize)
    ensures
        n == spec_instruction_length(op),
        1 <= n <= 3,
{
    match op {
        0x06u8 | 0x0Eu8 | 0x16u8 | 0x1Eu8 | 0x26u8 | 0x2Eu8 | 0x36u8 | 0x3Eu8 | 0xC6u8 | 0xCEu8
        | 0xD6u8 | 0xDEu8 | 0xE6u8 | 0xEEu8 | 0xF6u8 | 0xFEu8 | 0xD3u8 | 0xDBu8 => 2,
        0x01u8 | 0x11u8 | 0x21u8 | 0x31u8 | 0x22u8 | 0x2Au8 | 0x32u8 | 0x3Au8 | 0xC3u8 | 0xC2u8
        | 0xCAu8 | 0xD2u8 | 0xDAu8 | 0xE2u8 | 0xEAu8 | 0xF2u8 | 0xFAu8 | 0xCDu8 | 0xC4u8
        | 0xCCu8 | 0xD4u8 | 0xDCu8 | 0xE4u8 | 0xECu8 | 0xF4u8 | 0xFCu8 => 3,
        _ => 1,
    }
}

/// The 16-bit immediate assembled from its low and high bytes
/// (little-endian in the instruction stream).
pub open spec fn spec_imm16(d1: u8, d2: u8) -> u16 {
    ((d2 as u16) << 8) | (d1 as u16)
}

/// The address operand assembled from its low and high bytes.
pub open spec fn spec_addr(d1: u8, d2: u8) -> usize {
    spec_imm16(d1, d2) as usize
}

/// The total decoding function: every opcode byte maps to exactly one
/// instruction, the unassigned ones to [`Instruction::Unknown`] carrying the raw
/// byte.  `d1` and `d2` are the bytes after the opcode; one-byte instructions
/// ignore them.
pub open spec fn spec_decode(op: u8, d1: u8, d2: u8) -> Instruction {
    match op {
        // Data Transfer Group
        0b01_000_000u8 => Instruction::MoveRegister(Register::B, Register::B),
        0b01_000_001u8 => Instruction::MoveRegister(Register::B, Register::C),
        0b01_000_010u8 => Instruction::MoveRegister(Register::B, Register::D),
        0b01_000_011u8 => Instruction::MoveRegister(Register::B, Register::E),
        0b01_000_100u8 => Instruction::MoveRegister(Register::B, Register::H),
        0b01_000_101u8 => Instruction::MoveRegister(Register::B, Register::L),
        0b01_000_111u8 => Instruction::MoveRegister(Register::B, Register::A),
        0b01_001_000u8 => Instruction::MoveRegister(Register::C, Register::B),
        0b01_001_001u8 => Instruction::MoveRegister(Register::C, Register::C),
        0b01_001_010u8 => Instruction::MoveRegister(Register::C, Register::D),
        0b01_001_011u8 => Instruction::MoveRegister(Register::C, Register::E),
        0b01_001_100u8 => Instruction::MoveRegister(Register::C, Register::H),
        0b01_001_101u8 => Instruction::MoveRegister(Register::C, Register::L),
        0b01_001_111u8 => Instruction::MoveRegister(Register::C, Register::A),
        0b01_010_000u8 => Instruction::MoveRegister(Register::D, Register::B),
        0b01_010_001u8 => Instruction::MoveRegister(Register::D, Register::C),
        0b01_010_010u8 => Instruction::MoveRegister(Register::D, Register::D),
        0b01_010_011u8 => Instruction::MoveRegister(Register::D, Register::E),
        0b01_010_100u8 => Instruction::MoveRegister(Register::D, Register::H),
        0b01_010_101u8 => Instruction::MoveRegister(Register::D, Register::L),
        0b01_010_111u8 => Instruction::MoveRegister(Register::D, Register::A),
        0b01_011_000u8 => Instruction::MoveRegister(Register::E, Register::B),
        0b01_011_001u8 => Instruction::MoveRegister(Register::E, Register::C),
        0b01_011_010u8 => Instruction::MoveRegister(Register::E, Register::D),
        0b01_011_011u8 => Instruction::MoveRegister(Register::E, Register::E),
        0b01_011_100u8 => Instruction::MoveRegister(Register::E, Register::H),
        0b01_011_101u8 => Instruction::MoveRegister(Register::E, Register::L),
        0b01_011_111u8 => Instruction::MoveRegister(Register::E, Register::A),
        0b01_100_000u8 => Instruction::MoveRegister(Register::H, Register::B),
        0b01_100_001u8 => Instruction::MoveRegister(Register::H, Register::C),
        0b01_100_010u8 => Instruction::MoveRegister(Register::H, Register::D),
        0b01_100_011u8 => Instruction::MoveRegister(Register::H, Register::E),
        0b01_100_100u8 => Instruction::MoveRegister(Register::H, Register::H),
        0b01_100_101u8 => Instruction::MoveRegister(Register::H, Register::L),
        0b01_100_111u8 => Instruction::MoveRegister(Register::H, Register::A),
        0b01_101_000u8 => Instruction::MoveRegister(Register::L, Register::B),
        0b01_101_001u8 => Instruction::MoveRegister(Register::L, Register::C),
        0b01_101_010u8 => Instruction::MoveRegister(Register::L, Register::D),
        0b01_101_011u8 => Instruction::MoveRegister(Register::L, Register::E),
        0b01_101_100u8 => Instruction::MoveRegister(Register::L, Register::H),
        0b01_101_101u8 => Instruction::MoveRegister(Register::L, Register::L),
        0b01_101_111u8 => Instruction::MoveRegister(Register::L, Register::A),
        0b01_111_000u8 => Instruction::MoveRegister(Register::A, Register::B),
        0b01_111_001u8 => Instruction::MoveRegister(Register::A, Register::C),
        0b01_111_010u8 => Instruction::MoveRegister(Register::A, Register::D),
        0b01_111_011u8 => Instruction::MoveRegister(Register::A, Register::E),
        0b01_111_100u8 => Instruction::MoveRegister(Register::A, Register::H),
        0b01_111_101u8 => Instruction::MoveRegister(Register::A, Register::L),
        0b01_111_111u8 => Instruction::MoveRegister(Register::A, Register::A),
        0b01_000_110u8 => Instruction::MoveFromMemory(Register::B),
        0b01_001_110u8 => Instruction::MoveFromMemory(Register::C),
        0b01_010_110u8 => Instruction::MoveFromMemory(Register::D),
        0b01_011_110u8 => Instruction::MoveFromMemory(Register::E),
        0b01_100_110u8 => Instruction::MoveFromMemory(Register::H),
        0b01_101_110u8 => Instruction::MoveFromMemory(Register::L),
        0b01_111_110u8 => Instruction::MoveFromMemory(Register::A),
        0b01110_000u8 => Instruction::MoveToMemory(Register::B),
        0b01110_001u8 => Instruction::MoveToMemory(Register::C),
        0b01110_010u8 => Instruction::MoveToMemory(Register::D),
        0b01110_011u8 => Instruction::MoveToMemory(Register::E),
        0b01110_100u8 => Instruction::MoveToMemory(Register::H),
        0b01110_101u8 => Instruction::MoveToMemory(Register::L),
        0b01110_111u8 => Instruction::MoveToMemory(Register::A),
        0b00_000_110u8 => Instruction::MoveImmediate(Register::B, d1),
        0b00_001_110u8 => Instruction::MoveImmediate(Register::C, d1),
        0b00_010_110u8 => Instruction::MoveImmediate(Register::D, d1),
        0b00_011_110u8 => Instruction::MoveImmediate(Register::E, d1),
        0b00_100_110u8 => Instruction::MoveImmediate(Register::H, d1),
        0b00_101_110u8 => Instruction::MoveImmediate(Register::L, d1),
        0b00_111_110u8 => Instruction::MoveImmediate(Register::A, d1),
        0b00110110u8 => Instruction::MoveToMemoryImmediate(d1),
        0b00_00_0001u8 => Instruction::LoadRegisterPairImmediate(
            RegisterPair::BC,
            spec_imm16(d1, d2),
        ),
        0b00_01_0001u8 => Instruction::LoadRegisterPairImmediate(
            RegisterPair::DE,
            spec_imm16(d1, d2),
        ),
        0b00_10_0001u8 => Instruction::LoadRegisterPairImmediate(
            RegisterPair::HL,
            spec_imm16(d1, d2),
        ),
        0b00_11_0001u8 => Instruction::LoadRegisterPairImmediate(
            RegisterPair::SP,
            spec_imm16(d1, d2),
        ),
        0b00111010u8 => Instruction::LoadAccumulatorDirect(spec_addr(d1, d2)),
        0b00110010u8 => Instruction::StoreAccumulatorDirect(spec_addr(d1, d2)),
        0b00101010u8 => Instruction::LoadHLDirect(spec_addr(d1, d2)),
        0b00100010u8 => Instruction::StoreHLDirect(spec_addr(d1, d2)),
        0b00_00_1010u8 => Instruction::LoadAccumulatorIndirect(RegisterPair::BC),
        0b00_01_1010u8 => Instruction::LoadAccumulatorIndirect(RegisterPair::DE),
        0b00_00_0010u8 => Instruction::StoreAccumulatorIndirect(RegisterPair::BC),
        0b00_01_0010u8 => Instruction::StoreAccumulatorIndirect(RegisterPair::DE),
        0b11101011u8 => Instruction::ExchangeHLWithDE,
        // Arithmetic Group
        0b10000_000u8 => Instruction::AddRegister(Register::B),
        0b10000_001u8 => Instruction::AddRegister(Register::C),
        0b10000_010u8 => Instruction::AddRegister(Register::D),
        0b10000_011u8 => Instruction::AddRegister(Register::E),
        0b10000_100u8 => Instruction::AddRegister(Register::H),
        0b10000_101u8 => Instruction::AddRegister(Register::L),
        0b10000_111u8 => Instruction::AddRegister(Register::A),
        0b10000110u8 => Instruction::AddMemory,
        0b11000110u8 => Instruction::AddImmediate(d1),
        0b10001_000u8 => Instruction::AddRegisterWithCarry(Register::B),
        0b10001_001u8 => Instruction::AddRegisterWithCarry(Register::C),
        0b10001_010u8 => Instruction::AddRegisterWithCarry(Register::D),
        0b10001_011u8 => Instruction::AddRegisterWithCarry(Register::E),
        0b10001_100u8 => Instruction::AddRegisterWithCarry(Register::H),
        0b10001_101u8 => Instruction::AddRegisterWithCarry(Register::L),
        0b10001_111u8 => Instruction::AddRegisterWithCarry(Register::A),
        0b10001110u8 => Instruction::AddMemoryWithCarry,
        0b11001110u8 => Instruction::AddImmediateWithCarry(d1),
        0b10010_000u8 => Instruction::SubtractRegister(Register::B),
        0b10010_001u8 => Instruction::SubtractRegister(Register::C),
        0b10010_010u8 => Instruction::SubtractRegister(Register::D),
        0b10010_011u8 => Instruction::SubtractRegister(Register::E),
        0b10010_100u8 => Instruction::SubtractRegister(Register::H),
        0b10010_101u8 => Instruction::SubtractRegister(Register::L),
        0b10010_111u8 => Instruction::SubtractRegister(Register::A),
        0b10010110u8 => Instruction::SubtractMemory,
        0b11010110u8 => Instruction::SubtractImmediate(d1),
        0b10011_000u8 => Instruction::SubtractRegisterWithBorrow(Register::B),
        0b10011_001u8 => Instruction::SubtractRegisterWithBorrow(Register::C),
        0b10011_010u8 => Instruction::SubtractRegisterWithBorrow(Register::D),
        0b10011_011u8 => Instruction::SubtractRegisterWithBorrow(Register::E),
        0b10011_100u8 => Instruction::SubtractRegisterWithBorrow(Register::H),
        0b10011_101u8 => Instruction::SubtractRegisterWithBorrow(Register::L),
        0b10011_111u8 => Instruction::SubtractRegisterWithBorrow(Register::A),
        0b10011110u8 => Instruction::SubtractMemoryWithBorrow,
        0b11011110u8 => Instruction::SubtractImmediateWithBorrow(d1),
        0b00_000_100u8 => Instruction::IncrementRegister(Register::B),
        0b00_001_100u8 => Instruction::IncrementRegister(Register::C),
        0b00_010_100u8 => Instruction::IncrementRegister(Register::D),
        0b00_011_100u8 => Instruction::IncrementRegister(Register::E),
        0b00_100_100u8 => Instruction::IncrementRegister(Register::H),
        0b00_101_100u8 => Instruction::IncrementRegister(Register::L),
        0b00_111_100u8 => Instruction::IncrementRegister(Register::A),
        0b00110100u8 => Instruction::IncrementMemory,
        0b00_000_101u8 => Instruction::DecrementRegister(Register::B),
        0b00_001_101u8 => Instruction::DecrementRegister(Register::C),
        0b00_010_101u8 => Instruction::DecrementRegister(Register::D),
        0b00_011_101u8 => Instruction::DecrementRegister(Register::E),
        0b00_100_101u8 => Instruction::DecrementRegister(Register::H),
        0b00_101_101u8 => Instruction::DecrementRegister(Register::L),
        0b00_111_101u8 => Instruction::DecrementRegister(Register::A),
        0b00110101u8 => Instruction::DecrementMemory,
        0b00_00_0011u8 => Instruction::IncrementRegisterPair(RegisterPair::BC),
        0b00_01_0011u8 => Instruction::IncrementRegisterPair(RegisterPair::DE),
        0b00_10_0011u8 => Instruction::IncrementRegisterPair(RegisterPair::HL),
        0b00_11_0011u8 => Instruction::IncrementRegisterPair(RegisterPair::SP),
        0b00_00_1011u8 => Instruction::DecrementRegisterPair(RegisterPair::BC),
        0b00_01_1011u8 => Instruction::DecrementRegisterPair(RegisterPair::DE),
        0b00_10_1011u8 => Instruction::DecrementRegisterPair(RegisterPair::HL),
        0b00_11_1011u8 => Instruction::DecrementRegisterPair(RegisterPair::SP),
        0b00_00_1001u8 => Instruction::AddRegisterPairToHL(RegisterPair::BC),
        0b00_01_1001u8 => Instruction::AddRegisterPairToHL(RegisterPair::DE),
        0b00_10_1001u8 => Instruction::AddRegisterPairToHL(RegisterPair::HL),
        0b00_11_1001u8 => Instruction::AddRegisterPairToHL(RegisterPair::SP),
        0b00100111u8 => Instruction::DecimalAdjustAccumulator,
        // Logical Group
        0b10100_000u8 => Instruction::AndRegister(Register::B),
        0b10100_001u8 => Instruction::AndRegister(Register::C),
        0b10100_010u8 => Instruction::AndRegister(Register::D),
        0b10100_011u8 => Instruction::AndRegister(Register::E),
        0b10100_100u8 => Instruction::AndRegister(Register::H),
        0b10100_101u8 => Instruction::AndRegister(Register::L),
        0b10100_111u8 => Instruction::AndRegister(Register::A),
        0b10100110u8 => Instruction::AndMemory,
        0b11100110u8 => Instruction::AndImmediate(d1),
        0b10101_000u8 => Instruction::XorRegister(Register::B),
        0b10101_001u8 => Instruction::XorRegister(Register::C),
        0b10101_010u8 => Instruction::XorRegister(Register::D),
        0b10101_011u8 => Instruction::XorRegister(Register::E),
        0b10101_100u8 => Instruction::XorRegister(Register::H),
        0b10101_101u8 => Instruction::XorRegister(Register::L),
        0b10101_111u8 => Instruction::XorRegister(Register::A),
        0b10101110u8 => Instruction::XorMemory,
        0b11101110u8 => Instruction::XorImmediate(d1),
        0b10110_000u8 => Instruction::OrRegister(Register::B),
        0b10110_001u8 => Instruction::OrRegister(Register::C),
        0b10110_010u8 => Instruction::OrRegister(Register::D),
        0b10110_011u8 => Instruction::OrRegister(Register::E),
        0b10110_100u8 => Instruction::OrRegister(Register::H),
        0b10110_101u8 => Instruction::OrRegister(Register::L),
        0b10110_111u8 => Instruction::OrRegister(Register::A),
        0b10110110u8 => Instruction::OrMemory,
        0b11110110u8 => Instruction::OrImmediate(d1),
        0b10111_000u8 => Instruction::CompareRegister(Register::B),
        0b10111_001u8 => Instruction::CompareRegister(Register::C),
        0b10111_010u8 => Instruction::CompareRegister(Register::D),
        0b10111_011u8 => Instruction::CompareRegister(Register::E),
        0b10111_100u8 => Instruction::CompareRegister(Register::H),
        0b10111_101u8 => Instruction::CompareRegister(Register::L),
        0b10111_111u8 => Instruction::CompareRegister(Register::A),
        0b10111110u8 => Instruction::CompareMemory,
        0b11111110u8 => Instruction::CompareImmediate(d1),
        0b00000111u8 => Instruction::RotateLeft,
        0b00001111u8 => Instruction::RotateRight,
        0b00010111u8 => Instruction::RotateLeftThroughCarry,
        0b00011111u8 => Instruction::RotateRightThroughCarry,
        0b00101111u8 => Instruction::ComplementAccumulator,
        0b00111111u8 => Instruction::ComplementCarry,
        0b00110111u8 => Instruction::SetCarry,
        // Branch Group
        0b11000011u8 => Instruction::Jump(spec_addr(d1, d2)),
        0b11_000_010u8 => Instruction::ConditionalJump(Condition::NotZero, spec_addr(d1, d2)),
        0b11_001_010u8 => Instruction::ConditionalJump(Condition::Zero, spec_addr(d1, d2)),
        0b11_010_010u8 => Instruction::ConditionalJump(Condition::NoCarry, spec_addr(d1, d2)),
        0b11_011_010u8 => Instruction::ConditionalJump(Condition::Carry, spec_addr(d1, d2)),
        0b11_100_010u8 => Instruction::ConditionalJump(Condition::ParityOdd, spec_addr(d1, d2)),
        0b11_101_010u8 => Instruction::ConditionalJump(Condition::ParityEven, spec_addr(d1, d2)),
        0b11_110_010u8 => Instruction::ConditionalJump(Condition::Plus, spec_addr(d1, d2)),
        0b11_111_010u8 => Instruction::ConditionalJump(Condition::Minus, spec_addr(d1, d2)),
        0b11001101u8 => Instruction::Call(spec_addr(d1, d2)),
        0b11_000_100u8 => Instruction::ConditionalCall(Condition::NotZero, spec_addr(d1, d2)),
        0b11_001_100u8 => Instruction::ConditionalCall(Condition::Zero, spec_addr(d1, d2)),
        0b11_010_100u8 => Instruction::ConditionalCall(Condition::NoCarry, spec_addr(d1, d2)),
        0b11_011_100u8 => Instruction::ConditionalCall(Condition::Carry, spec_addr(d1, d2)),
        0b11_100_100u8 => Instruction::ConditionalCall(Condition::ParityOdd, spec_addr(d1, d2)),
        0b11_101_100u8 => Instruction::ConditionalCall(Condition::ParityEven, spec_addr(d1, d2)),
        0b11_110_100u8 => Instruction::ConditionalCall(Condition::Plus, spec_addr(d1, d2)),
        0b11_111_100u8 => Instruction::ConditionalCall(Condition::Minus, spec_addr(d1, d2)),
        0b11001001u8 => Instruction::Return,
        0b11_000_000u8 => Instruction::ConditionalReturn(Condition::NotZero),
        0b11_001_000u8 => Instruction::ConditionalReturn(Condition::Zero),
        0b11_010_000u8 => Instruction::ConditionalReturn(Condition::NoCarry),
        0b11_011_000u8 => Instruction::ConditionalReturn(Condition::Carry),
        0b11_100_000u8 => Instruction::ConditionalReturn(Condition::ParityOdd),
        0b11_101_000u8 => Instruction::ConditionalReturn(Condition::ParityEven),
        0b11_110_000u8 => Instruction::ConditionalReturn(Condition::Plus),
        0b11_111_000u8 => Instruction::ConditionalReturn(Condition::Minus),
        0b11_000_111u8 => Instruction::Restart(0),
        0b11_001_111u8 => Instruction::Restart(1),
        0b11_010_111u8 => Instruction::Restart(2),
        0b11_011_111u8 => Instruction::Restart(3),
        0b11_100_111u8 => Instruction::Restart(4),
        0b11_101_111u8 => Instruction::Restart(5),
        0b11_110_111u8 => Instruction::Restart(6),
        0b11_111_111u8 => Instruction::Restart(7),
        0b11101001u8 => Instruction::JumpHLIndirect,
        // Stack, I/O and Machine Control Group
        0b11_00_0101u8 => Instruction::Push(RegisterPair::BC),
        0b11_01_0101u8 => Instruction::Push(RegisterPair::DE),
        0b11_10_0101u8 => Instruction::Push(RegisterPair::HL),
        0b11110101u8 => Instruction::PushProcessorStatusWord,
        0b11_00_0001u8 => Instruction::Pop(RegisterPair::BC),
        0b11_01_0001u8 => Instruction::Pop(RegisterPair::DE),
        0b11_10_0001u8 => Instruction::Pop(RegisterPair::HL),
        0b11110001u8 => Instruction::PopProcessorStatusWord,
        0b11100011u8 => Instruction::ExchangeSPWithHL,
        0b11111001u8 => Instruction::MoveHLToSP,
        0b11011011u8 => Instruction::Input(d1),
        0b11010011u8 => Instruction::Output(d1),
        0b11111011u8 => Instruction::EnableInterrupts,
        0b11110011u8 => Instruction::DisableInterrupts,
        0b01110110u8 => Instruction::Halt,
        0b00000000u8 => Instruction::NoOperation,
        _ => Instruction::Unknown(op),  // 12 values unused
    }
}

/// Executable counterpart of [`spec_imm16`].
pub fn assemble_imm16(d1: u8, d2: u8) -> (v: u16)
    ensures
        v == spec_imm16(d1, d2),
{
    ((d2 as u16) << 8) | (d1 as u16)
}

/// Executable counterpart of [`spec_addr`].
pub fn assemble_address(d1: u8, d2: u8) -> (a: usize)
    ensures
        a == spec_addr(d1, d2),
{
    assemble_imm16(d1, d2) as usize
}

/// Executable counterpart of [`spec_decode`]: decode one opcode byte and the
/// two bytes that follow it in the instruction stream.
pub fn decode_instruction(op: u8, d1: u8, d2: u8) -> (i: Instruction)
    ensures
        i == spec_decode(op, d1, d2),
{
    match op {
        // Data Transfer Group
        0b01_000_000u8 => Instruction::MoveRegister(Register::B, Register::B),
        0b01_000_001u8 => Instruction::MoveRegister(Register::B, Register::C),
        0b01_000_010u8 => Instruction::MoveRegister(Register::B, Register::D),
        0b01_000_011u8 => Instruction::MoveRegister(Register::B, Register::E),
        0b01_000_100u8 => Instruction::MoveRegister(Register::B, Register::H),
        0b01_000_101u8 => Instruction::MoveRegister(Register::B, Register::L),
        0b01_000_111u8 => Instruction::MoveRegister(Register::B, Register::A),
        0b01_001_000u8 => Instruction::MoveRegister(Register::C, Register::B),
        0b01_001_001u8 => Instruction::MoveRegister(Register::C, Register::C),
        0b01_001_010u8 => Instruction::MoveRegister(Register::C, Register::D),
        0b01_001_011u8 => Instruction::MoveRegister(Register::C, Register::E),
        0b01_001_100u8 => Instruction::MoveRegister(Register::C, Register::H),
        0b01_001_101u8 => Instruction::MoveRegister(Register::C, Register::L),
        0b01_001_111u8 => Instruction::MoveRegister(Register::C, Register::A),
        0b01_010_000u8 => Instruction::MoveRegister(Register::D, Register::B),
        0b01_010_001u8 => Instruction::MoveRegister(Register::D, Register::C),
        0b01_010_010u8 => Instruction::MoveRegister(Register::D, Register::D),
        0b01_010_011u8 => Instruction::MoveRegister(Register::D, Register::E),
        0b01_010_100u8 => Instruction::MoveRegister(Register::D, Register::H),
        0b01_010_101u8 => Instruction::MoveRegister(Register::D, Register::L),
        0b01_010_111u8 => Instruction::MoveRegister(Register::D, Register::A),
        0b01_011_000u8 => Instruction::MoveRegister(Register::E, Register::B),
        0b01_011_001u8 => Instruction::MoveRegister(Register::E, Register::C),
        0b01_011_010u8 => Instruction::MoveRegister(Register::E, Register::D),
        0b01_011_011u8 => Instruction::MoveRegister(Register::E, Register::E),
        0b01_011_100u8 => Instruction::MoveRegister(Register::E, Register::H),
        0b01_011_101u8 => Instruction::MoveRegister(Register::E, Register::L),
        0b01_011_111u8 => Instruction::MoveRegister(Register::E, Register::A),
        0b01_100_000u8 => Instruction::MoveRegister(Register::H, Register::B),
        0b01_100_001u8 => Instruction::MoveRegister(Register::H, Register::C),
        0b01_100_010u8 => Instruction::MoveRegister(Register::H, Register::D),
        0b01_100_011u8 => Instruction::MoveRegister(Register::H, Register::E),
        0b01_100_100u8 => Instruction::MoveRegister(Register::H, Register::H),
        0b01_100_101u8 => Instruction::MoveRegister(Register::H, Register::L),
        0b01_100_111u8 => Instruction::MoveRegister(Register::H, Register::A),
        0b01_101_000u8 => Instruction::MoveRegister(Register::L, Register::B),
        0b01_101_001u8 => Instruction::MoveRegister(Register::L, Register::C),
        0b01_101_010u8 => Instruction::MoveRegister(Register::L, Register::D),
        0b01_101_011u8 => Instruction::MoveRegister(Register::L, Register::E),
        0b01_101_100u8 => Instruction::MoveRegister(Register::L, Register::H),
        0b01_101_101u8 => Instruction::MoveRegister(Register::L, Register::L),
        0b01_101_111u8 => Instruction::MoveRegister(Register::L, Register::A),
        0b01_111_000u8 => Instruction::MoveRegister(Register::A, Register::B),
        0b01_111_001u8 => Instruction::MoveRegister(Register::A, Register::C),
        0b01_111_010u8 => Instruction::MoveRegister(Register::A, Register::D),
        0b01_111_011u8 => Instruction::MoveRegister(Register::A, Register::E),
        0b01_111_100u8 => Instruction::MoveRegister(Register::A, Register::H),
        0b01_111_101u8 => Instruction::MoveRegister(Register::A, Register::L),
        0b01_111_111u8 => Instruction::MoveRegister(Register::A, Register::A),
        0b01_000_110u8 => Instruction::MoveFromMemory(Register::B),
        0b01_001_110u8 => Instruction::MoveFromMemory(Register::C),
        0b01_010_110u8 => Instruction::MoveFromMemory(Register::D),
        0b01_011_110u8 => Instruction::MoveFromMemory(Register::E),
        0b01_100_110u8 => Instruction::MoveFromMemory(Register::H),
        0b01_101_110u8 => Instruction::MoveFromMemory(Register::L),
        0b01_111_110u8 => Instruction::MoveFromMemory(Register::A),
        0b01110_000u8 => Instruction::MoveToMemory(Register::B),
        0b01110_001u8 => Instruction::MoveToMemory(Register::C),
        0b01110_010u8 => Instruction::MoveToMemory(Register::D),
        0b01110_011u8 => Instruction::MoveToMemory(Register::E),
        0b01110_100u8 => Instruction::MoveToMemory(Register::H),
        0b01110_101u8 => Instruction::MoveToMemory(Register::L),
        0b01110_111u8 => Instruction::MoveToMemory(Register::A),
        0b00_000_110u8 => Instruction::MoveImmediate(Register::B, d1),
        0b00_001_110u8 => Instruction::MoveImmediate(Register::C, d1),
        0b00_010_110u8 => Instruction::MoveImmediate(Register::D, d1),
        0b00_011_110u8 => Instruction::MoveImmediate(Register::E, d1),
        0b00_100_110u8 => Instruction::MoveImmediate(Register::H, d1),
        0b00_101_110u8 => Instruction::MoveImmediate(Register::L, d1),
        0b00_111_110u8 => Instruction::MoveImmediate(Register::A, d1),
        0b00110110u8 => Instruction::MoveToMemoryImmediate(d1),
        0b00_00_0001u8 => Instruction::LoadRegisterPairImmediate(
            RegisterPair::BC,
            assemble_imm16(d1, d2),
        ),
        0b00_01_0001u8 => Instruction::LoadRegisterPairImmediate(
            RegisterPair::DE,
            assemble_imm16(d1, d2),
        ),
        0b00_10_0001u8 => Instruction::LoadRegisterPairImmediate(
            RegisterPair::HL,
            assemble_imm16(d1, d2),
        ),
        0b00_11_0001u8 => Instruction::LoadRegisterPairImmediate(
            RegisterPair::SP,
            assemble_imm16(d1, d2),
        ),
        0b00111010u8 => Instruction::LoadAccumulatorDirect(assemble_address(d1, d2)),
        0b00110010u8 => Instruction::StoreAccumulatorDirect(assemble_address(d1, d2)),
        0b00101010u8 => Instruction::LoadHLDirect(assemble_address(d1, d2)),
        0b00100010u8 => Instruction::StoreHLDirect(assemble_address(d1, d2)),
        0b00_00_1010u8 => Instruction::LoadAccumulatorIndirect(RegisterPair::BC),
        0b00_01_1010u8 => Instruction::LoadAccumulatorIndirect(RegisterPair::DE),
        0b00_00_0010u8 => Instruction::StoreAccumulatorIndirect(RegisterPair::BC),
        0b00_01_0010u8 => Instruction::StoreAccumulatorIndirect(RegisterPair::DE),
        0b11101011u8 => Instruction::ExchangeHLWithDE,
        // Arithmetic Group
        0b10000_000u8 => Instruction::AddRegister(Register::B),
        0b10000_001u8 => Instruction::AddRegister(Register::C),
        0b10000_010u8 => Instruction::AddRegister(Register::D),
        0b10000_011u8 => Instruction::AddRegister(Register::E),
        0b10000_100u8 => Instruction::AddRegister(Register::H),
        0b10000_101u8 => Instruction::AddRegister(Register::L),
        0b10000_111u8 => Instruction::AddRegister(Register::A),
        0b10000110u8 => Instruction::AddMemory,
        0b11000110u8 => Instruction::AddImmediate(d1),
        0b10001_000u8 => Instruction::AddRegisterWithCarry(Register::B),
        0b10001_001u8 => Instruction::AddRegisterWithCarry(Register::C),
        0b10001_010u8 => Instruction::AddRegisterWithCarry(Register::D),
        0b10001_011u8 => Instruction::AddRegisterWithCarry(Register::E),
        0b10001_100u8 => Instruction::AddRegisterWithCarry(Register::H),
        0b10001_101u8 => Instruction::AddRegisterWithCarry(Register::L),
        0b10001_111u8 => Instruction::AddRegisterWithCarry(Register::A),
        0b10001110u8 => Instruction::AddMemoryWithCarry,
        0b11001110u8 => Instruction::AddImmediateWithCarry(d1),
        0b10010_000u8 => Instruction::SubtractRegister(Register::B),
        0b10010_001u8 => Instruction::SubtractRegister(Register::C),
        0b10010_010u8 => Instruction::SubtractRegister(Register::D),
        0b10010_011u8 => Instruction::SubtractRegister(Register::E),
        0b10010_100u8 => Instruction::SubtractRegister(Register::H),
        0b10010_101u8 => Instruction::SubtractRegister(Register::L),
        0b10010_111u8 => Instruction::SubtractRegister(Register::A),
        0b10010110u8 => Instruction::SubtractMemory,
        0b11010110u8 => Instruction::SubtractImmediate(d1),
        0b10011_000u8 => Instruction::SubtractRegisterWithBorrow(Register::B),
        0b10011_001u8 => Instruction::SubtractRegisterWithBorrow(Register::C),
        0b10011_010u8 => Instruction::SubtractRegisterWithBorrow(Register::D),
        0b10011_011u8 => Instruction::SubtractRegisterWithBorrow(Register::E),
        0b10011_100u8 => Instruction::SubtractRegisterWithBorrow(Register::H),
        0b10011_101u8 => Instruction::SubtractRegisterWithBorrow(Register::L),
        0b10011_111u8 => Instruction::SubtractRegisterWithBorrow(Register::A),
        0b10011110u8 => Instruction::SubtractMemoryWithBorrow,
        0b11011110u8 => Instruction::SubtractImmediateWithBorrow(d1),
        0b00_000_100u8 => Instruction::IncrementRegister(Register::B),
        0b00_001_100u8 => Instruction::IncrementRegister(Register::C),
        0b00_010_100u8 => Instruction::IncrementRegister(Register::D),
        0b00_011_100u8 => Instruction::IncrementRegister(Register::E),
        0b00_100_100u8 => Instruction::IncrementRegister(Register::H),
        0b00_101_100u8 => Instruction::IncrementRegister(Register::L),
        0b00_111_100u8 => Instruction::IncrementRegister(Register::A),
        0b00110100u8 => Instruction::IncrementMemory,
        0b00_000_101u8 => Instruction::DecrementRegister(Register::B),
        0b00_001_101u8 => Instruction::DecrementRegister(Register::C),
        0b00_010_101u8 => Instruction::DecrementRegister(Register::D),
        0b00_011_101u8 => Instruction::DecrementRegister(Register::E),
        0b00_100_101u8 => Instruction::DecrementRegister(Register::H),
        0b00_101_101u8 => Instruction::DecrementRegister(Register::L),
        0b00_111_101u8 => Instruction::DecrementRegister(Register::A),
        0b00110101u8 => Instruction::DecrementMemory,
        0b00_00_0011u8 => Instruction::IncrementRegisterPair(RegisterPair::BC),
        0b00_01_0011u8 => Instruction::IncrementRegisterPair(RegisterPair::DE),
        0b00_10_0011u8 => Instruction::IncrementRegisterPair(RegisterPair::HL),
        0b00_11_0011u8 => Instruction::IncrementRegisterPair(RegisterPair::SP),
        0b00_00_1011u8 => Instruction::DecrementRegisterPair(RegisterPair::BC),
        0b00_01_1011u8 => Instruction::DecrementRegisterPair(RegisterPair::DE),
        0b00_10_1011u8 => Instruction::DecrementRegisterPair(RegisterPair::HL),
        0b00_11_1011u8 => Instruction::DecrementRegisterPair(RegisterPair::SP),
        0b00_00_1001u8 => Instruction::AddRegisterPairToHL(RegisterPair::BC),
        0b00_01_1001u8 => Instruction::AddRegisterPairToHL(RegisterPair::DE),
        0b00_10_1001u8 => Instruction::AddRegisterPairToHL(RegisterPair::HL),
        0b00_11_1001u8 => Instruction::AddRegisterPairToHL(RegisterPair::SP),
        0b00100111u8 => Instruction::DecimalAdjustAccumulator,
        // Logical Group
        0b10100_000u8 => Instruction::AndRegister(Register::B),
        0b10100_001u8 => Instruction::AndRegister(Register::C),
        0b10100_010u8 => Instruction::AndRegister(Register::D),
        0b10100_011u8 => Instruction::AndRegister(Register::E),
        0b10100_100u8 => Instruction::AndRegister(Register::H),
        0b10100_101u8 => Instruction::AndRegister(Register::L),
        0b10100_111u8 => Instruction::AndRegister(Register::A),
        0b10100110u8 => Instruction::AndMemory,
        0b11100110u8 => Instruction::AndImmediate(d1),
        0b10101_000u8 => Instruction::XorRegister(Register::B),
        0b10101_001u8 => Instruction::XorRegister(Register::C),
        0b10101_010u8 => Instruction::XorRegister(Register::D),
        0b10101_011u8 => Instruction::XorRegister(Register::E),
        0b10101_100u8 => Instruction::XorRegister(Register::H),
        0b10101_101u8 => Instruction::XorRegister(Register::L),
        0b10101_111u8 => Instruction::XorRegister(Register::A),
        0b10101110u8 => Instruction::XorMemory,
        0b11101110u8 => Instruction::XorImmediate(d1),
        0b10110_000u8 => Instruction::OrRegister(Register::B),
        0b10110_001u8 => Instruction::OrRegister(Register::C),
        0b10110_010u8 => Instruction::OrRegister(Register::D),
        0b10110_011u8 => Instruction::OrRegister(Register::E),
        0b10110_100u8 => Instruction::OrRegister(Register::H),
        0b10110_101u8 => Instruction::OrRegister(Register::L),
        0b10110_111u8 => Instruction::OrRegister(Register::A),
        0b10110110u8 => Instruction::OrMemory,
        0b11110110u8 => Instruction::OrImmediate(d1),
        0b10111_000u8 => Instruction::CompareRegister(Register::B),
        0b10111_001u8 => Instruction::CompareRegister(Register::C),
        0b10111_010u8 => Instruction::CompareRegister(Register::D),
        0b10111_011u8 => Instruction::CompareRegister(Register::E),
        0b10111_100u8 => Instruction::CompareRegister(Register::H),
        0b10111_101u8 => Instruction::CompareRegister(Register::L),
        0b10111_111u8 => Instruction::CompareRegister(Register::A),
        0b10111110u8 => Instruction::CompareMemory,
        0b11111110u8 => Instruction::CompareImmediate(d1),
        0b00000111u8 => Instruction::RotateLeft,
        0b00001111u8 => Instruction::RotateRight,
        0b00010111u8 => Instruction::RotateLeftThroughCarry,
        0b00011111u8 => Instruction::RotateRightThroughCarry,
        0b00101111u8 => Instruction::ComplementAccumulator,
        0b00111111u8 => Instruction::ComplementCarry,
        0b00110111u8 => Instruction::SetCarry,
        // Branch Group
        0b11000011u8 => Instruction::Jump(assemble_address(d1, d2)),
        0b11_000_010u8 => Instruction::ConditionalJump(Condition::NotZero, assemble_address(d1, d2)),
        0b11_001_010u8 => Instruction::ConditionalJump(Condition::Zero, assemble_address(d1, d2)),
        0b11_010_010u8 => Instruction::ConditionalJump(Condition::NoCarry, assemble_address(d1, d2)),
        0b11_011_010u8 => Instruction::ConditionalJump(Condition::Carry, assemble_address(d1, d2)),
        0b11_100_010u8 => Instruction::ConditionalJump(Condition::ParityOdd, assemble_address(d1, d2)),
        0b11_101_010u8 => Instruction::ConditionalJump(Condition::ParityEven, assemble_address(d1, d2)),
        0b11_110_010u8 => Instruction::ConditionalJump(Condition::Plus, assemble_address(d1, d2)),
        0b11_111_010u8 => Instruction::ConditionalJump(Condition::Minus, assemble_address(d1, d2)),
        0b11001101u8 => Instruction::Call(assemble_address(d1, d2)),
        0b11_000_100u8 => Instruction::ConditionalCall(Condition::NotZero, assemble_address(d1, d2)),
        0b11_001_100u8 => Instruction::ConditionalCall(Condition::Zero, assemble_address(d1, d2)),
        0b11_010_100u8 => Instruction::ConditionalCall(Condition::NoCarry, assemble_address(d1, d2)),
        0b11_011_100u8 => Instruction::ConditionalCall(Condition::Carry, assemble_address(d1, d2)),
        0b11_100_100u8 => Instruction::ConditionalCall(Condition::ParityOdd, assemble_address(d1, d2)),
        0b11_101_100u8 => Instruction::ConditionalCall(Condition::ParityEven, assemble_address(d1, d2)),
        0b11_110_100u8 => Instruction::ConditionalCall(Condition::Plus, assemble_address(d1, d2)),
        0b11_111_100u8 => Instruction::ConditionalCall(Condition::Minus, assemble_address(d1, d2)),
        0b11001001u8 => Instruction::Return,
        0b11_000_000u8 => Instruction::ConditionalReturn(Condition::NotZero),
        0b11_001_000u8 => Instruction::ConditionalReturn(Condition::Zero),
        0b11_010_000u8 => Instruction::ConditionalReturn(Condition::NoCarry),
        0b11_011_000u8 => Instruction::ConditionalReturn(Condition::Carry),
        0b11_100_000u8 => Instruction::ConditionalReturn(Condition::ParityOdd),
        0b11_101_000u8 => Instruction::ConditionalReturn(Condition::ParityEven),
        0b11_110_000u8 => Instruction::ConditionalReturn(Condition::Plus),
        0b11_111_000u8 => Instruction::ConditionalReturn(Condition::Minus),
        0b11_000_111u8 => Instruction::Restart(0),
        0b11_001_111u8 => Instruction::Restart(1),
        0b11_010_111u8 => Instruction::Restart(2),
        0b11_011_111u8 => Instruction::Restart(3),
        0b11_100_111u8 => Instruction::Restart(4),
        0b11_101_111u8 => Instruction::Restart(5),
        0b11_110_111u8 => Instruction::Restart(6),
        0b11_111_111u8 => Instruction::Restart(7),
        0b11101001u8 => Instruction::JumpHLIndirect,
        // Stack, I/O and Machine Control Group
        0b11_00_0101u8 => Instruction::Push(RegisterPair::BC),
        0b11_01_0101u8 => Instruction::Push(RegisterPair::DE),
        0b11_10_0101u8 => Instruction::Push(RegisterPair::HL),
        0b11110101u8 => Instruction::PushProcessorStatusWord,
        0b11_00_0001u8 => Instruction::Pop(RegisterPair::BC),
        0b11_01_0001u8 => Instruction::Pop(RegisterPair::DE),
        0b11_10_0001u8 => Instruction::Pop(RegisterPair::HL),
        0b11110001u8 => Instruction::PopProcessorStatusWord,
        0b11100011u8 => Instruction::ExchangeSPWithHL,
        0b11111001u8 => Instruction::MoveHLToSP,
        0b11011011u8 => Instruction::Input(d1),
        0b11010011u8 => Instruction::Output(d1),
        0b11111011u8 => Instruction::EnableInterrupts,
        0b11110011u8 => Instruction::DisableInterrupts,
        0b01110110u8 => Instruction::Halt,
        0b00000000u8 => Instruction::NoOperation,
        _ => Instruction::Unknown(op),  // 12 values unused
    }

}

} // verus!

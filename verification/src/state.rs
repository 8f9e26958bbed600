//! The mathematical model of the machine: a ghost record of the memory, the
//! register file, the two address registers, the port latches and the
//! shift-register peripheral, together with the spec-level operations the
//! instruction semantics are written in.

use vstd::prelude::*;

use crate::isa::{flag_pos, pair_idx, reg_idx, Condition, Flag, Register, RegisterPair};
use crate::utils::{spec_get_bit, spec_set_bit};
use crate::{
    DISPLAY_HEIGHT, FRAMEBUFFER_END, FRAMEBUFFER_START, MEMORY_END, MEMORY_SIZE, NPORTS, NREGS,
    RAM_END, RAM_START, ROM_END, STACK_END, STACK_START,
};

verus! {

/// The whole machine state, as contracts speak of it.
#[verifier::ext_equal]
pub ghost struct State {
    /// All of memory: ROM low, RAM high, the framebuffer inside RAM.
    pub mem: Seq<u8>,
    /// Program counter.
    pub pc: usize,
    /// Registers B, C, D, E, H, L, F (flags) and A (accumulator).
    pub regs: Seq<u8>,
    /// Stack pointer.
    pub sp: usize,
    /// Input port latches.
    pub bus_in: Seq<u8>,
    /// Output port latches.
    pub bus_out: Seq<u8>,
    /// The 16-bit shift register fed through output port 4.
    pub shift: u16,
    /// The 3-bit shift offset set through output port 2.
    pub offset: u8,
    /// Whether interrupts are accepted.
    pub interruptable: bool,
    /// Whether a write has landed in the framebuffer since the flag was cleared.
    pub display_update: bool,
}

/// `addr` can be read: anywhere in memory.
pub open spec fn in_memory(addr: int) -> bool {
    0 <= addr <= MEMORY_END
}

/// `addr` lies in ROM, where the program counter must stay.
pub open spec fn in_rom(addr: int) -> bool {
    0 <= addr <= ROM_END
}

/// `addr` can be written: the RAM region.
pub open spec fn in_ram(addr: int) -> bool {
    RAM_START <= addr <= RAM_END
}

/// `addr` is a position the stack pointer may take.
pub open spec fn in_stack(addr: int) -> bool {
    STACK_START <= addr <= STACK_END
}

/// `addr` lies in the framebuffer portion of RAM.
pub open spec fn in_framebuffer(addr: int) -> bool {
    FRAMEBUFFER_START <= addr <= FRAMEBUFFER_END
}

impl State {
    /// Shape of a well-formed state: the fixed sizes of memory, register file
    /// and port arrays, and the 3-bit shift offset.
    pub open spec fn inv(self) -> bool {
        &&& self.mem.len() == MEMORY_SIZE
        &&& self.regs.len() == NREGS
        &&& self.bus_in.len() == NPORTS
        &&& self.bus_out.len() == NPORTS
        &&& self.offset < 8
    }

    /// Value of a register.
    pub open spec fn reg(self, r: Register) -> u8 {
        self.regs[reg_idx(r)]
    }

    /// The state with register `r` set to `v`.
    pub open spec fn with_reg(self, r: Register, v: u8) -> State {
        State { regs: self.regs.update(reg_idx(r), v), ..self }
    }

    /// The packed flag byte (the F register).
    pub open spec fn flags(self) -> u8 {
        self.reg(Register::F)
    }

    /// Value of one flag.
    pub open spec fn flag(self, f: Flag) -> bool {
        spec_get_bit(self.flags(), flag_pos(f))
    }

    /// The state with flag `f` set to `b`.
    pub open spec fn with_flag(self, f: Flag, b: bool) -> State {
        self.with_reg(Register::F, spec_set_bit(self.flags(), flag_pos(f), b))
    }

    /// Value of a register pair, the high register first; `SP` reads the
    /// stack pointer.
    pub open spec fn pair(self, rp: RegisterPair) -> u16 {
        if rp == RegisterPair::SP {
            self.sp as u16
        } else {
            ((self.regs[pair_idx(rp)] as u16) << 8) | (self.regs[pair_idx(rp) + 1] as u16)
        }
    }

    /// The state with register pair `rp` set to `v`; `SP` sets the stack
    /// pointer.
    pub open spec fn with_pair(self, rp: RegisterPair, v: u16) -> State {
        if rp == RegisterPair::SP {
            State { sp: v as usize, ..self }
        } else {
            State {
                regs: self.regs.update(pair_idx(rp), ((v & 0xFF00) >> 8) as u8).update(
                    pair_idx(rp) + 1,
                    (v & 0x00FF) as u8,
                ),
                ..self
            }
        }
    }

    /// The state with the program counter moved to `pc`.
    pub open spec fn with_pc(self, pc: usize) -> State {
        State { pc, ..self }
    }

    /// The state with the stack pointer moved to `sp`.
    pub open spec fn with_sp(self, sp: usize) -> State {
        State { sp, ..self }
    }

    /// The state after writing `v` at `addr`: a write inside the framebuffer
    /// raises the display-update flag.
    pub open spec fn with_mem(self, addr: int, v: u8) -> State {
        State {
            mem: self.mem.update(addr, v),
            display_update: self.display_update || in_framebuffer(addr),
            ..self
        }
    }

    /// The state after one byte is pushed: the stack pointer drops by one and
    /// the byte lands where it now points.
    pub open spec fn pushed8(self, v: u8) -> State {
        self.with_sp((self.sp - 1) as usize).with_mem(self.sp - 1, v)
    }

    /// The state after a 16-bit value is pushed, high byte first.
    pub open spec fn pushed16(self, v: usize) -> State {
        self.pushed8(((v & 0xFF00) >> 8) as u8).pushed8((v & 0x00FF) as u8)
    }

    /// The 16-bit value at the top of the stack, low byte at `sp`.
    pub open spec fn peek16(self) -> usize {
        (self.mem[self.sp as int] as usize) | ((self.mem[self.sp + 1] as usize) << 8)
    }

    /// The byte at the top of the stack.
    pub open spec fn peek8(self) -> u8 {
        self.mem[self.sp as int]
    }

    /// The state after a 16-bit pop: only the stack pointer moves.
    pub open spec fn popped16(self) -> State {
        self.with_sp((self.sp + 2) as usize)
    }

    /// The state after a one-byte pop: only the stack pointer moves.
    pub open spec fn popped8(self) -> State {
        self.with_sp((self.sp + 1) as usize)
    }

    /// Whether condition `c` holds of the current flags.
    pub open spec fn is_condition(self, c: Condition) -> bool {
        match c {
            Condition::NotZero => !self.flag(Flag::Z),
            Condition::Zero => self.flag(Flag::Z),
            Condition::NoCarry => !self.flag(Flag::CY),
            Condition::Carry => self.flag(Flag::CY),
            Condition::ParityOdd => !self.flag(Flag::P),
            Condition::ParityEven => self.flag(Flag::P),
            Condition::Plus => !self.flag(Flag::S),
            Condition::Minus => self.flag(Flag::S),
        }
    }
}

impl State {
    /// The state with interrupts enabled or disabled.
    pub open spec fn with_interrupts(self, enabled: bool) -> State {
        State { interruptable: enabled, ..self }
    }

    /// What a read of input port `port` returns: port 3 taps the shift
    /// register, shifted left by the current offset, high byte out.
    pub open spec fn bus_in_read(self, port: int) -> u8 {
        if port == 3 {
            ((self.shift << self.offset) >> 8) as u8
        } else {
            self.bus_in[port]
        }
    }

    /// The state after writing `data` to output port `port`: port 2 sets the
    /// shift offset from the low 3 bits, port 4 loads the shift register's
    /// high byte while the old high byte drops into the low byte.
    pub open spec fn with_bus_out(self, port: int, data: u8) -> State {
        let s1 = if port == 2 {
            State { offset: data & 0x7, ..self }
        } else if port == 4 {
            State { shift: ((data as u16) << 8) | (self.shift >> 8), ..self }
        } else {
            self
        };
        State { bus_out: s1.bus_out.update(port, data), ..s1 }
    }
}

impl State {
    /// The state with input port `port` latched to `data`.
    pub open spec fn with_bus_in(self, port: int, data: u8) -> State {
        State { bus_in: self.bus_in.update(port, data), ..self }
    }
}

impl State {
    /// Whether the pixel at logical display coordinate (x, y) is on.  The
    /// framebuffer is packed column-major, rotated a quarter turn: column `x`
    /// occupies `DISPLAY_HEIGHT / 8` bytes, the top of the screen sits in the
    /// column's last byte, and within a byte the top pixel is the high bit.
    pub open spec fn pixel(self, x: u32, y: u32) -> bool {
        spec_get_bit(
            self.mem[FRAMEBUFFER_START + (x * DISPLAY_HEIGHT / 8 + (DISPLAY_HEIGHT / 8 - y / 8)
                - 1)],
            (7 - (y % 8)) as u8,
        )
    }
}

/// The state a machine starts in: the program copied to the bottom of
/// memory, the rest of memory zero, all registers, both address registers
/// and every port latch zero, and interrupts disabled.  Whatever input-port
/// bits the cabinet holds high are the embedder's to latch.
pub open spec fn initial_state(prog: Seq<u8>) -> State {
    State {
        mem: Seq::new(
            MEMORY_SIZE as nat,
            |i: int|
                if i < prog.len() {
                    prog[i]
                } else {
                    0u8
                },
        ),
        pc: 0,
        regs: Seq::new(NREGS as nat, |i: int| 0u8),
        sp: 0,
        bus_in: Seq::new(NPORTS as nat, |i: int| 0u8),
        bus_out: Seq::new(NPORTS as nat, |i: int| 0u8),
        shift: 0,
        offset: 0,
        interruptable: false,
        display_update: true,
    }
}

/// 8-bit wrapping addition.
pub open spec fn add8(x: u8, y: u8) -> u8 {
    vstd::wrapping::u8_specs::wrapping_add(x, y)
}

/// 8-bit wrapping subtraction.
pub open spec fn sub8(x: u8, y: u8) -> u8 {
    vstd::wrapping::u8_specs::wrapping_sub(x, y)
}

/// 16-bit wrapping addition.
pub open spec fn add16(x: u16, y: u16) -> u16 {
    vstd::wrapping::u16_specs::wrapping_add(x, y)
}

/// 16-bit wrapping subtraction.
pub open spec fn sub16(x: u16, y: u16) -> u16 {
    vstd::wrapping::u16_specs::wrapping_sub(x, y)
}

/// Number of set bits in a byte.
pub open spec fn popcount8(x: u8) -> int {
    (x & 1) + ((x >> 1) & 1) + ((x >> 2) & 1) + ((x >> 3) & 1) + ((x >> 4) & 1) + ((x >> 5) & 1)
        + ((x >> 6) & 1) + ((x >> 7) & 1)
}

/// Even parity: true when the number of set bits is even.
pub open spec fn even_parity(x: u8) -> bool {
    popcount8(x) % 2 == 0
}

/// The flag byte after an arithmetic result, from the operand byte before the
/// operation, the result byte after it, and the carry the operation reports:
/// Zero, Sign and Parity describe the result, Carry is as reported, and
/// Auxiliary-Carry comes from the bit test on the before/after bytes that the
/// game ROM is validated against.
pub open spec fn flags_for_arith(f: u8, before: u8, after: u8, carry: bool) -> u8 {
    let f1 = spec_set_bit(f, flag_pos(Flag::Z), after == 0);
    let f2 = spec_set_bit(f1, flag_pos(Flag::S), after & 0x80 == 0x80);
    let f3 = spec_set_bit(f2, flag_pos(Flag::P), even_parity(after));
    let f4 = spec_set_bit(f3, flag_pos(Flag::CY), carry);
    spec_set_bit(f4, flag_pos(Flag::AC), (before & 1) == 1 && (after & 1) == 1)
}

impl State {
    /// The state with the flag register rewritten for an arithmetic result.
    pub open spec fn with_arith_flags(self, before: u8, after: u8, carry: bool) -> State {
        self.with_reg(Register::F, flags_for_arith(self.flags(), before, after, carry))
    }
}

} // verus!

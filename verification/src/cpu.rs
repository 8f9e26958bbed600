//! The CPU itself: the owned machine state and the "micro-code" accessors the
//! instruction engine is built from.  Every mutator's contract gives the new
//! state exactly, as a [`State`] expression over the old one.

use vstd::prelude::*;

use crate::isa::{flag_position, pair_index, register_index, Condition, Flag, Register,
    RegisterPair};
use crate::state::{
    even_parity, in_memory, in_ram, in_rom, in_stack, initial_state, State,
};
use crate::utils::{get_bit, set_bit, spec_set_bit};
use crate::{
    DISPLAY_HEIGHT, DISPLAY_WIDTH, FRAMEBUFFER_START, MEMORY_SIZE, NPORTS, NREGS, ROM_END,
};

verus! {

/// The CPU-model including memory, ports and the shift-register peripheral.
pub struct Cpu {
    /// ROM low, RAM high, the framebuffer inside RAM; all one array.
    pub memory: Vec<u8>,
    /// Program counter.
    pub pc: usize,
    /// Registers B, C, D, E, H, L, F (flags) and A (accumulator).
    pub registers: Vec<u8>,
    /// Stack pointer.
    pub sp: usize,
    /// 8-bit input bus.
    pub bus_in: Vec<u8>,
    /// 8-bit output bus.
    pub bus_out: Vec<u8>,
    /// 16-bit shift register, fed via I/O (port 4 write).
    pub shift: u16,
    /// 3-bit shift offset, set via I/O (port 2 write).
    pub offset: u8,
    /// Whether the CPU accepts interrupts.
    pub interruptable: bool,
    /// Set on every write into the framebuffer region; the renderer clears it
    /// once it has drawn the frame.
    pub display_update: bool,
}

impl View for Cpu {
    type V = State;

    open spec fn view(&self) -> State {
        State {
            mem: self.memory@,
            pc: self.pc,
            regs: self.registers@,
            sp: self.sp,
            bus_in: self.bus_in@,
            bus_out: self.bus_out@,
            shift: self.shift,
            offset: self.offset,
            interruptable: self.interruptable,
            display_update: self.display_update,
        }
    }
}

/// A vector of `n` zero bytes.
fn zeroed(n: usize) -> (v: Vec<u8>)
    ensures
        v@ == Seq::new(n as nat, |i: int| 0u8),
{
    let mut v: Vec<u8> = Vec::new();
    let mut i: usize = 0;
    while i < n
        invariant
            i <= n,
            v@.len() == i,
            forall|j: int| 0 <= j < i ==> v@[j] == 0u8,
        decreases n - i,
    {
        v.push(0);
        i += 1;
    }
    proof {
        assert(v@ =~= Seq::new(n as nat, |i: int| 0u8));
    }
    v
}

impl Cpu {
    /// The machine's structural invariant.
    pub open spec fn wf(&self) -> bool {
        self@.inv()
    }

    /// Build a machine from a program image: the image is copied to address
    /// 0, everything else starts zeroed and interrupts start disabled.
    pub fn new(program: Vec<u8>) -> (cpu: Cpu)
        requires
            program@.len() <= ROM_END + 1,
        ensures
            cpu.wf(),
            cpu@ == initial_state(program@),
    {
        let mut memory: Vec<u8> = Vec::new();
        let mut i: usize = 0;
        while i < MEMORY_SIZE
            invariant
                i <= MEMORY_SIZE,
                memory@.len() == i,
                forall|j: int|
                    0 <= j < i ==> memory@[j] == (if j < program@.len() {
                        program@[j]
                    } else {
                        0u8
                    }),
            decreases MEMORY_SIZE - i,
        {
            if i < program.len() {
                memory.push(program[i]);
            } else {
                memory.push(0);
            }
            i += 1;
        }

        let cpu = Cpu {
            memory,
            pc: 0,
            registers: zeroed(NREGS),
            sp: 0,
            bus_in: zeroed(NPORTS),
            bus_out: zeroed(NPORTS),
            shift: 0,
            offset: 0,
            interruptable: false,
            display_update: true,
        };
        proof {
            assert(cpu@.mem =~= initial_state(program@).mem);
            assert(cpu@.bus_in =~= initial_state(program@).bus_in);
            assert(cpu@ =~= initial_state(program@));
        }
        cpu
    }

    // CPU "micro-code" below

    /// Get program counter.
    pub fn get_pc(&self) -> (pc: usize)
        ensures
            pc == self@.pc,
    {
        self.pc
    }

    /// Set program counter; the counter must stay inside ROM.
    pub fn set_pc(&mut self, pc: usize)
        requires
            in_rom(pc as int),
        ensures
            final(self)@ == old(self)@.with_pc(pc),
    {
        self.pc = pc;
    }

    /// Advance the program counter by one.
    pub fn incr_pc(&mut self)
        requires
            in_rom(old(self)@.pc + 1),
        ensures
            final(self)@ == old(self)@.with_pc((old(self)@.pc + 1) as usize),
    {
        let pc = self.get_pc();
        self.set_pc(pc + 1);
    }

    /// Get stack pointer.
    pub fn get_sp(&self) -> (sp: usize)
        ensures
            sp == self@.sp,
    {
        self.sp
    }

    /// Set stack pointer; the pointer must stay inside the stack window.
    pub fn set_sp(&mut self, sp: usize)
        requires
            in_stack(sp as int),
        ensures
            final(self)@ == old(self)@.with_sp(sp),
    {
        self.sp = sp;
    }

    /// Read one byte of memory.
    pub fn get_memory(&self, addr: usize) -> (data: u8)
        requires
            self.wf(),
            in_memory(addr as int),
        ensures
            data == self@.mem[addr as int],
    {
        self.memory[addr]
    }

    /// Write one byte of memory; only RAM is writable, and a write landing in
    /// the framebuffer raises the display-update flag.
    pub fn set_memory(&mut self, addr: usize, data: u8)
        requires
            old(self).wf(),
            in_ram(addr as int),
        ensures
            final(self)@ == old(self)@.with_mem(addr as int, data),
    {
        self.memory[addr] = data;
        if addr >= FRAMEBUFFER_START {
            self.display_update = true;
        }
    }

    /// Get register.
    pub fn get_register(&self, r: Register) -> (data: u8)
        requires
            self.wf(),
        ensures
            data == self@.reg(r),
    {
        self.registers[register_index(r)]
    }

    /// Set register.
    pub fn set_register(&mut self, r: Register, data: u8)
        requires
            old(self).wf(),
        ensures
            final(self)@ == old(self)@.with_reg(r, data),
    {
        let i = register_index(r);
        self.registers[i] = data;
    }

    /// Get flag.
    pub fn get_flag(&self, flag: Flag) -> (b: bool)
        requires
            self.wf(),
        ensures
            b == self@.flag(flag),
    {
        get_bit(self.get_register(Register::F), flag_position(flag))
    }

    /// Set flag.
    pub fn set_flag(&mut self, flag: Flag, val: bool)
        requires
            old(self).wf(),
        ensures
            final(self)@ == old(self)@.with_flag(flag, val),
    {
        let mut flags = self.get_register(Register::F);
        set_bit(&mut flags, flag_position(flag), val);
        self.set_register(Register::F, flags);
    }

    /// Get the packed flag byte.
    pub fn get_flags(&self) -> (flags: u8)
        requires
            self.wf(),
        ensures
            flags == self@.flags(),
    {
        self.get_register(Register::F)
    }

    /// Set the packed flag byte.
    pub fn set_flags(&mut self, flags: u8)
        requires
            old(self).wf(),
        ensures
            final(self)@ == old(self)@.with_reg(Register::F, flags),
    {
        self.set_register(Register::F, flags);
    }

    /// Even parity of a byte: true when the number of set bits is even.
    fn parity(x: u8) -> (r: bool)
        ensures
            r == even_parity(x),
    {
        proof {
            assert((x & 1) <= 1 && ((x >> 1) & 1) <= 1 && ((x >> 2) & 1) <= 1 && ((x >> 3) & 1)
                <= 1 && ((x >> 4) & 1) <= 1 && ((x >> 5) & 1) <= 1 && ((x >> 6) & 1) <= 1 && ((x
                >> 7) & 1) <= 1) by (bit_vector);
        }
        let count = (x & 1) + ((x >> 1) & 1) + ((x >> 2) & 1) + ((x >> 3) & 1) + ((x >> 4) & 1) + (
        (x >> 5) & 1) + ((x >> 6) & 1) + ((x >> 7) & 1);
        count % 2 == 0
    }

    /// Set the flags for an arithmetic result from the value before the
    /// operation, the result, and the carry the operation reports.
    pub fn set_flags_for_arithmetic(&mut self, before: u8, after: u8, carry: bool)
        requires
            old(self).wf(),
        ensures
            final(self)@ == old(self)@.with_arith_flags(before, after, carry),
    {
        self.set_flag(Flag::Z, after == 0);
        self.set_flag(Flag::S, after & 0x80 == 0x80);
        self.set_flag(Flag::P, Self::parity(after));
        self.set_flag(Flag::CY, carry);
        // Auxiliary-Carry tests the low bit of both bytes; the game ROM is
        // validated against exactly this rule, so it is kept as is.
        self.set_flag(Flag::AC, (before & 1) == 1 && (after & 1) == 1);
        proof {
            assert(final(self)@ =~= old(self)@.with_arith_flags(before, after, carry));
        }
    }

    /// Add `addend` into the accumulator and set all five flags.
    pub fn add(&mut self, addend: u8)
        requires
            old(self).wf(),
        ensures
            final(self)@ == crate::semantics::added(old(self)@, addend),
    {
        let acc = self.get_register(Register::A);

        let nibble_sum = (acc & 0xF) as u16 + (addend & 0xF) as u16;
        self.set_flag(Flag::AC, nibble_sum > 0xF);
        let sum = acc as u16 + addend as u16;
        let result = acc.wrapping_add(addend);
        self.set_register(Register::A, result);
        self.set_flag(Flag::CY, sum > 0xFF);
        self.set_flag(Flag::Z, result == 0);
        self.set_flag(Flag::S, result & 0x80 == 0x80);
        self.set_flag(Flag::P, Self::parity(result));
    }

    /// Set register pair; setting `SP` moves the stack pointer and must keep
    /// it inside the stack window.
    pub fn set_register_pair(&mut self, rp: RegisterPair, data: u16)
        requires
            old(self).wf(),
            rp == RegisterPair::SP ==> in_stack(data as int),
        ensures
            final(self)@ == old(self)@.with_pair(rp, data),
    {
        match rp {
            RegisterPair::BC | RegisterPair::DE | RegisterPair::HL => {
                let i = pair_index(rp);
                self.registers[i] = ((data & 0xFF00) >> 8) as u8;
                let j = i + 1;
                self.registers[j] = (data & 0x00FF) as u8;
            },
            RegisterPair::SP => {
                self.set_sp(data as usize);
            },
        }
    }

    /// Get register pair, the high register first; `SP` reads the stack
    /// pointer.
    pub fn get_register_pair(&self, rp: RegisterPair) -> (v: u16)
        requires
            self.wf(),
        ensures
            v == self@.pair(rp),
    {
        match rp {
            RegisterPair::BC | RegisterPair::DE | RegisterPair::HL => {
                let i = pair_index(rp);
                ((self.registers[i] as u16) << 8) | (self.registers[i + 1] as u16)
            },
            RegisterPair::SP => self.get_sp() as u16,
        }
    }

    /// Check condition against the flags.
    pub fn is_condition(&self, c: Condition) -> (b: bool)
        requires
            self.wf(),
        ensures
            b == self@.is_condition(c),
    {
        match c {
            Condition::NotZero => !self.get_flag(Flag::Z),
            Condition::Zero => self.get_flag(Flag::Z),
            Condition::NoCarry => !self.get_flag(Flag::CY),
            Condition::Carry => self.get_flag(Flag::CY),
            Condition::ParityOdd => !self.get_flag(Flag::P),
            Condition::ParityEven => self.get_flag(Flag::P),
            Condition::Plus => !self.get_flag(Flag::S),
            Condition::Minus => self.get_flag(Flag::S),
        }
    }

    /// Push a 16-bit value, high byte first.
    pub fn push(&mut self, data: usize)
        requires
            old(self).wf(),
            in_stack(old(self)@.sp - 1),
            in_stack(old(self)@.sp - 2),
        ensures
            final(self)@ == old(self)@.pushed16(data),
    {
        self.push_data(((data & 0xFF00) >> 8) as u8);
        self.push_data((data & 0x00FF) as u8);
    }

    /// Push one byte: the stack grows downward.
    pub fn push_data(&mut self, data: u8)
        requires
            old(self).wf(),
            in_stack(old(self)@.sp - 1),
        ensures
            final(self)@ == old(self)@.pushed8(data),
    {
        let sp = self.get_sp();
        self.set_sp(sp - 1);
        self.set_memory(sp - 1, data);
    }

    /// Pop a 16-bit value.
    pub fn pop(&mut self) -> (v: usize)
        requires
            old(self).wf(),
            in_stack(old(self)@.sp + 2),
        ensures
            v == old(self)@.peek16(),
            final(self)@ == old(self)@.popped16(),
    {
        let ret = self.peek();
        let sp = self.get_sp();
        self.set_sp(sp + 2);
        ret
    }

    /// Pop one byte.
    pub fn pop_data(&mut self) -> (v: u8)
        requires
            old(self).wf(),
            in_stack(old(self)@.sp + 1),
        ensures
            v == old(self)@.peek8(),
            final(self)@ == old(self)@.popped8(),
    {
        let ret = self.peek_data();
        let sp = self.get_sp();
        self.set_sp(sp + 1);
        ret
    }

    /// The 16-bit value at the top of the stack, without popping it.
    pub fn peek(&self) -> (v: usize)
        requires
            self.wf(),
            in_memory(self@.sp + 1),
        ensures
            v == self@.peek16(),
    {
        (self.get_memory(self.get_sp()) as usize) | ((self.get_memory(self.get_sp() + 1) as usize)
            << 8)
    }

    /// The byte at the top of the stack, without popping it.
    pub fn peek_data(&self) -> (v: u8)
        requires
            self.wf(),
            in_memory(self@.sp as int),
        ensures
            v == self@.peek8(),
    {
        self.get_memory(self.get_sp())
    }

    /// Return true if the pixel at logical display coordinate (x, y) is on.
    /// The hardware rotates the image: the framebuffer is packed column by
    /// column, top of a column in the high bit of its last byte.
    pub fn display(&self, x: u32, y: u32) -> (on: bool)
        requires
            self.wf(),
            x < DISPLAY_WIDTH,
            y < DISPLAY_HEIGHT,
        ensures
            on == self@.pixel(x, y),
    {
        let index = (x * DISPLAY_HEIGHT / 8 + (DISPLAY_HEIGHT / 8 - y / 8) - 1) as usize;
        let byte = self.get_memory(FRAMEBUFFER_START + index);
        get_bit(byte, 7 - (y % 8) as u8)
    }

    /// Get display update.
    pub fn get_display_update(&self) -> (b: bool)
        ensures
            b == self@.display_update,
    {
        self.display_update
    }

    /// Set display update.
    pub fn set_display_update(&mut self, value: bool)
        ensures
            final(self)@ == (State { display_update: value, ..old(self)@ }),
    {
        self.display_update = value;
    }

    /// Get CPU input bus (read external input); port 3 taps the shift
    /// register shifted by the current offset.
    pub fn get_bus_in(&self, port: usize) -> (data: u8)
        requires
            self.wf(),
            port < NPORTS,
        ensures
            data == self@.bus_in_read(port as int),
    {
        if port == 3 {
            return ((self.shift << self.offset) >> 8) as u8;
        }
        self.bus_in[port]
    }

    /// Set CPU input bus (write external input).
    pub fn set_bus_in(&mut self, port: usize, data: u8)
        requires
            old(self).wf(),
            port < NPORTS,
        ensures
            final(self)@ == old(self)@.with_bus_in(port as int, data),
    {
        self.bus_in[port] = data;
    }

    /// Set one CPU input bus bit (write external input).
    pub fn set_bus_in_bit(&mut self, port: usize, bit: u8, value: bool)
        requires
            old(self).wf(),
            port < NPORTS,
            bit < 8,
        ensures
            final(self)@ == old(self)@.with_bus_in(
                port as int,
                spec_set_bit(old(self)@.bus_in[port as int], bit, value),
            ),
    {
        let mut latch = self.bus_in[port];
        set_bit(&mut latch, bit, value);
        self.bus_in[port] = latch;
    }

    /// Get CPU output bus (read CPU output).
    pub fn get_bus_out(&self, port: usize) -> (data: u8)
        requires
            self.wf(),
            port < NPORTS,
        ensures
            data == self@.bus_out[port as int],
    {
        self.bus_out[port]
    }

    /// Set CPU output bus (write CPU output); ports 2 and 4 drive the
    /// shift-register peripheral.
    pub fn set_bus_out(&mut self, port: usize, data: u8)
        requires
            old(self).wf(),
            port < NPORTS,
        ensures
            final(self)@ == old(self)@.with_bus_out(port as int, data),
            final(self).wf(),
    {
        if port == 2 {
            self.offset = data & 0x7;
            proof {
                assert(data & 0x7 < 8) by (bit_vector);
            }
        } else if port == 4 {
            self.shift = ((data as u16) << 8) | (self.shift >> 8);
        }
        self.bus_out[port] = data;
    }
}

} // verus!

use vstd::prelude::*;

use crate::ram::{MemIO, MAX_MEMORY};
use crate::instruction::OpCode;
use crate::semantics::{
    decode, dispatch_cycles, dispatch_spec, interrupt_entry, interrupt_spec,
    lemma_step_keeps_memory_size, lemma_table_fits, masked, opcode_at, remain_after_interrupt, reset_cpu, run_spec,
    runs_ok, step_ok, step_spec, ticks_after_reset,
};

verus! {

/// `a + b` modulo 256, for `a + b` in `0..512`.
pub open spec fn add8(a: int, b: int) -> u8 {
    if a + b > 0xFF {
        (a + b - 0x100) as u8
    } else {
        (a + b) as u8
    }
}

/// `a - b` modulo 256, for `a - b` in `-256..256`.
pub open spec fn sub8(a: int, b: int) -> u8 {
    if a - b < 0 {
        (a - b + 0x100) as u8
    } else {
        (a - b) as u8
    }
}

/// `x` modulo 65536, for `x` in `-65536..131072`.
pub open spec fn wrap16(x: int) -> u16 {
    if x < 0 {
        (x + 0x10000) as u16
    } else if x > 0xFFFF {
        (x - 0x10000) as u16
    } else {
        x as u16
    }
}

/// The 16-bit value stored little-endian as `lo`, `hi`.
pub open spec fn word(lo: u8, hi: u8) -> u16 {
    (hi as int * 0x100 + lo as int) as u16
}

/// Whether bit 7 of `v` is set, the sign bit of an 8-bit value.
pub open spec fn negative(v: u8) -> bool {
    v & 0x80 != 0
}

/// Whether `m` covers the whole address space.
pub open spec fn full(m: Seq<u8>) -> bool {
    m.len() == MAX_MEMORY
}

/// The address of stack slot `sp`.
pub open spec fn stack_addr(sp: u8) -> int {
    0x100 + sp as int
}

/// The processor status register, one field per flag bit.
#[derive(Debug, Clone, Copy, PartialEq, Eq, Structural)]
pub struct StatusFlag {
    /// Carry (bit 0).
    pub c: bool,
    /// Zero (bit 1).
    pub z: bool,
    /// Interrupt disable (bit 2).
    pub i: bool,
    /// Decimal mode (bit 3); stored but without effect on arithmetic.
    pub d: bool,
    /// Break (bit 4).
    pub b: bool,
    /// Reserved (bit 5); the processor keeps it set.
    pub r: bool,
    /// Overflow (bit 6).
    pub v: bool,
    /// Negative (bit 7).
    pub n: bool,
}

/// The value of one flag as its bit `mask` of the packed byte.
pub open spec fn flag_bit(f: bool, mask: u8) -> u8 {
    if f { mask } else { 0u8 }
}

/// The packed status byte: C is bit 0, N is bit 7.
pub open spec fn pack_flags(f: StatusFlag) -> u8 {
    flag_bit(f.c, 1) | flag_bit(f.z, 2) | flag_bit(f.i, 4) | flag_bit(f.d, 8) | flag_bit(f.b, 16)
        | flag_bit(f.r, 32) | flag_bit(f.v, 64) | flag_bit(f.n, 128)
}

/// Whether bit `k` of `byte` is set.
pub open spec fn bit_set(byte: u8, k: u8) -> bool {
    (byte >> k) & 1u8 == 1u8
}

/// The flags read back from a packed byte; R reads as set whatever the byte holds.
pub open spec fn unpack_flags(byte: u8) -> StatusFlag {
    StatusFlag {
        c: bit_set(byte, 0),
        z: bit_set(byte, 1),
        i: bit_set(byte, 2),
        d: bit_set(byte, 3),
        b: bit_set(byte, 4),
        r: true,
        v: bit_set(byte, 6),
        n: bit_set(byte, 7),
    }
}

impl Default for StatusFlag {
    fn default() -> (f: StatusFlag)
        ensures
            f == (StatusFlag { c: false, z: false, i: false, d: false, b: false, r: true, v: false, n: false }),
    {
        StatusFlag { c: false, z: false, i: false, d: false, b: false, r: true, v: false, n: false }
    }
}

impl StatusFlag {
    /// Packs the flags into one byte, bit 0 for C up to bit 7 for N.
    pub fn get_as_u8(&mut self) -> (byte: u8)
        ensures
            byte == pack_flags(*old(self)),
            *final(self) == *old(self),
    {
        (if self.c { 1u8 } else { 0u8 }) | (if self.z { 2u8 } else { 0u8 }) | (if self.i { 4u8 } else { 0u8 })
            | (if self.d { 8u8 } else { 0u8 }) | (if self.b { 16u8 } else { 0u8 }) | (if self.r { 32u8 } else { 0u8 })
            | (if self.v { 64u8 } else { 0u8 }) | (if self.n { 128u8 } else { 0u8 })
    }

    /// Loads every flag but R from `byte`; R is left set.
    pub fn set_as_u8(&mut self, byte: u8)
        ensures
            *final(self) == unpack_flags(byte),
    {
        self.c = (byte >> 0u8) & 1 == 1;
        self.z = (byte >> 1u8) & 1 == 1;
        self.i = (byte >> 2u8) & 1 == 1;
        self.d = (byte >> 3u8) & 1 == 1;
        self.b = (byte >> 4u8) & 1 == 1;
        self.r = true;
        self.v = (byte >> 6u8) & 1 == 1;
        self.n = (byte >> 7u8) & 1 == 1;
    }
}

/// The kinds of interrupt.
#[derive(Debug, Clone, Copy, PartialEq, Eq, Structural)]
pub enum Interrupt {
    NMI,
    Reset,
    IRQ,
    BRK,
}

/// The processor registers as a program sees them.
#[derive(Debug, Clone, Copy, PartialEq, Eq, Structural)]
pub struct Registers {
    pub pc: u16,
    pub sp: u8,
    pub a: u8,
    pub x: u8,
    pub y: u8,
    pub flags: StatusFlag,
}

/// Sets Z and N from `v`, the value just written to a register or memory.
pub open spec fn with_nz(f: StatusFlag, v: u8) -> StatusFlag {
    StatusFlag { z: v == 0, n: negative(v), ..f }
}

/// The processor: its registers and its two cycle counters.
#[derive(Debug, Clone, Copy)]
pub struct CPU {
    /// Program counter: the address of the next fetch.
    pub pc: u16,
    /// Stack pointer: the low byte of the next free stack slot at `0x0100 + sp`.
    pub sp: u8,
    /// Accumulator.
    pub a: u8,
    /// Index register X.
    pub x: u8,
    /// Index register Y.
    pub y: u8,
    /// Processor status.
    pub flags: StatusFlag,
    /// Cycles of the last dispatched instruction that the host has not yet stepped past.
    pub remain_cycles: usize,
    /// All cycles dispatched so far, modulo the width of `usize`.
    pub total_cycles: usize,
}

impl Default for CPU {
    fn default() -> (cpu: CPU)
        ensures
            cpu.regs() == (Registers {
                pc: 0,
                sp: 0,
                a: 0,
                x: 0,
                y: 0,
                flags: StatusFlag { c: false, z: false, i: false, d: false, b: false, r: true, v: false, n: false },
            }),
            cpu.remain_cycles == 0,
            cpu.total_cycles == 0,
    {
        CPU { pc: 0, sp: 0, a: 0, x: 0, y: 0, flags: StatusFlag::default(), remain_cycles: 0, total_cycles: 0 }
    }
}

/// Spare room that the cycle counter needs for one instruction.
pub open spec fn cycle_room(c: CPU) -> bool {
    c.remain_cycles <= usize::MAX - 16
}

impl CPU {
    /// The registers of this processor.
    pub open spec fn regs(self) -> Registers {
        Registers { pc: self.pc, sp: self.sp, a: self.a, x: self.x, y: self.y, flags: self.flags }
    }

    /// The power-on state: A, X and Y clear, SP at `0xFF`, I and R set, PC zero until a reset.
    pub fn new() -> (cpu: CPU)
        ensures
            cpu.regs() == (Registers {
                pc: 0,
                sp: 0xFF,
                a: 0,
                x: 0,
                y: 0,
                flags: StatusFlag { c: false, z: false, i: true, d: false, b: false, r: true, v: false, n: false },
            }),
            cpu.remain_cycles == 0,
            cpu.total_cycles == 0,
    {
        CPU {
            pc: 0,
            sp: 0xFF,
            a: 0,
            x: 0,
            y: 0,
            flags: StatusFlag { c: false, z: false, i: true, d: false, b: false, r: true, v: false, n: false },
            remain_cycles: 0,
            total_cycles: 0,
        }
    }

    /// A snapshot of the registers.
    pub fn registers(&self) -> (r: Registers)
        ensures
            r == self.regs(),
    {
        Registers { pc: self.pc, sp: self.sp, a: self.a, x: self.x, y: self.y, flags: self.flags }
    }

    /// Reads the byte at PC and advances PC: one cycle.
    pub fn fetch_byte<T: MemIO>(&mut self, ram: &mut T) -> (byte: u8)
        requires
            full(old(ram).memory()),
            old(self).remain_cycles < usize::MAX,
        ensures
            byte == old(ram).memory()[old(self).pc as int],
            final(ram).memory() == old(ram).memory(),
            final(self).regs() == (Registers { pc: wrap16(old(self).pc + 1), ..old(self).regs() }),
            final(self).remain_cycles == old(self).remain_cycles + 1,
            final(self).total_cycles == old(self).total_cycles,
    {
        let byte = ram.read_byte(self.pc as usize);
        self.pc = self.pc.wrapping_add(1);
        self.remain_cycles += 1;
        byte
    }

    /// Reads the byte at `addr`: one cycle.
    pub fn read_byte<T: MemIO>(&mut self, ram: &mut T, addr: usize) -> (byte: u8)
        requires
            full(old(ram).memory()),
            addr < MAX_MEMORY,
            old(self).remain_cycles < usize::MAX,
        ensures
            byte == old(ram).memory()[addr as int],
            final(ram).memory() == old(ram).memory(),
            final(self).regs() == old(self).regs(),
            final(self).remain_cycles == old(self).remain_cycles + 1,
            final(self).total_cycles == old(self).total_cycles,
    {
        let byte = ram.read_byte(addr);
        self.remain_cycles += 1;
        byte
    }

    /// Writes `byte` at `addr`: one cycle.
    pub fn write_byte<T: MemIO>(&mut self, ram: &mut T, addr: usize, byte: u8)
        requires
            full(old(ram).memory()),
            addr < MAX_MEMORY,
            old(self).remain_cycles < usize::MAX,
        ensures
            final(ram).memory() == old(ram).memory().update(addr as int, byte),
            final(self).regs() == old(self).regs(),
            final(self).remain_cycles == old(self).remain_cycles + 1,
            final(self).total_cycles == old(self).total_cycles,
    {
        ram.write_byte(addr, byte);
        self.remain_cycles += 1;
    }

    /// Writes `byte` to the free stack slot and moves SP down: one cycle.
    pub(crate) fn stack_write<T: MemIO>(&mut self, ram: &mut T, byte: u8)
        requires
            full(old(ram).memory()),
            old(self).remain_cycles < usize::MAX,
        ensures
            final(ram).memory() == old(ram).memory().update(stack_addr(old(self).sp), byte),
            final(self).regs() == (Registers { sp: sub8(old(self).sp as int, 1), ..old(self).regs() }),
            final(self).remain_cycles == old(self).remain_cycles + 1,
            final(self).total_cycles == old(self).total_cycles,
    {
        self.write_byte(ram, 0x0100 + self.sp as usize, byte);
        self.sp = self.sp.wrapping_sub(1);
    }

    /// Moves SP up and reads the stack slot it then names: one cycle.
    pub(crate) fn stack_read<T: MemIO>(&mut self, ram: &mut T) -> (byte: u8)
        requires
            full(old(ram).memory()),
            old(self).remain_cycles < usize::MAX,
        ensures
            byte == old(ram).memory()[stack_addr(add8(old(self).sp as int, 1))],
            final(ram).memory() == old(ram).memory(),
            final(self).regs() == (Registers { sp: add8(old(self).sp as int, 1), ..old(self).regs() }),
            final(self).remain_cycles == old(self).remain_cycles + 1,
            final(self).total_cycles == old(self).total_cycles,
    {
        self.sp = self.sp.wrapping_add(1);
        self.read_byte(ram, 0x0100 + self.sp as usize)
    }

    /// Pushes `byte`: written at `0x0100 + SP`, then SP moves down by one modulo 256.
    /// Two cycles.
    pub fn push_to_stack<T: MemIO>(&mut self, ram: &mut T, byte: u8)
        requires
            full(old(ram).memory()),
            old(self).remain_cycles < usize::MAX - 1,
        ensures
            final(ram).memory() == old(ram).memory().update(stack_addr(old(self).sp), byte),
            final(self).regs() == (Registers { sp: sub8(old(self).sp as int, 1), ..old(self).regs() }),
            final(self).remain_cycles == old(self).remain_cycles + 2,
            final(self).total_cycles == old(self).total_cycles,
    {
        self.stack_write(ram, byte);
        self.remain_cycles += 1;
    }

    /// Pulls a byte: SP moves up by one modulo 256, then the byte at `0x0100 + SP` is read.
    /// Two cycles.
    pub fn pull_from_stack<T: MemIO>(&mut self, ram: &mut T) -> (byte: u8)
        requires
            full(old(ram).memory()),
            old(self).remain_cycles < usize::MAX - 1,
        ensures
            byte == old(ram).memory()[stack_addr(add8(old(self).sp as int, 1))],
            final(ram).memory() == old(ram).memory(),
            final(self).regs() == (Registers { sp: add8(old(self).sp as int, 1), ..old(self).regs() }),
            final(self).remain_cycles == old(self).remain_cycles + 2,
            final(self).total_cycles == old(self).total_cycles,
    {
        let byte = self.stack_read(ram);
        self.remain_cycles += 1;
        byte
    }

    /// Pushes PC high, PC low and the flags (B set only when `brk`, R set), sets I, and
    /// loads PC from the two bytes at `vector`: five cycles.
    pub(crate) fn enter_interrupt<T: MemIO>(&mut self, ram: &mut T, brk: bool, vector: u16)
        requires
            full(old(ram).memory()),
            old(self).remain_cycles <= usize::MAX - 5,
            vector < 0xFFFF,
        ensures
            (final(self).regs(), final(ram).memory()) == interrupt_entry(
                old(self).regs(),
                old(ram).memory(),
                brk,
                vector as int,
            ),
            final(self).remain_cycles == old(self).remain_cycles + 5,
            final(self).total_cycles == old(self).total_cycles,
    {
        self.flags.b = brk;
        self.flags.r = true;
        let pc = self.pc;
        self.stack_write(ram, (pc / 0x100) as u8);
        self.stack_write(ram, (pc % 0x100) as u8);
        let flags = self.flags.get_as_u8();
        self.stack_write(ram, flags);
        self.flags.i = true;
        let lo = self.read_byte(ram, vector as usize);
        let hi = self.read_byte(ram, vector as usize + 1);
        self.pc = hi as u16 * 0x100 + lo as u16;
    }

    /// Sets Z when `byte` is zero and N from its bit 7.
    pub fn set_zero_and_negative_flag(&mut self, byte: u8)
        ensures
            final(self).regs() == (Registers { flags: with_nz(old(self).flags, byte), ..old(self).regs() }),
            final(self).remain_cycles == old(self).remain_cycles,
            final(self).total_cycles == old(self).total_cycles,
    {
        self.flags.z = byte == 0;
        self.flags.n = byte & 0x80 != 0;
    }

    /// Loads A with `byte` and sets Z and N from it.
    pub fn set_accumulator(&mut self, byte: u8)
        ensures
            final(self).regs() == (Registers { a: byte, flags: with_nz(old(self).flags, byte), ..old(self).regs() }),
            final(self).remain_cycles == old(self).remain_cycles,
            final(self).total_cycles == old(self).total_cycles,
    {
        self.a = byte;
        self.set_zero_and_negative_flag(byte);
    }

    /// Loads X with `byte` and sets Z and N from it.
    pub fn set_index_x(&mut self, byte: u8)
        ensures
            final(self).regs() == (Registers { x: byte, flags: with_nz(old(self).flags, byte), ..old(self).regs() }),
            final(self).remain_cycles == old(self).remain_cycles,
            final(self).total_cycles == old(self).total_cycles,
    {
        self.x = byte;
        self.set_zero_and_negative_flag(byte);
    }

    /// Loads Y with `byte` and sets Z and N from it.
    pub fn set_index_y(&mut self, byte: u8)
        ensures
            final(self).regs() == (Registers { y: byte, flags: with_nz(old(self).flags, byte), ..old(self).regs() }),
            final(self).remain_cycles == old(self).remain_cycles,
            final(self).total_cycles == old(self).total_cycles,
    {
        self.y = byte;
        self.set_zero_and_negative_flag(byte);
    }
}

impl CPU {
    /// Resets the processor: A, X, Y clear, SP at `0xFF`, every flag clear but R, PC loaded
    /// from the reset vector at `0xFFFC`/`0xFFFD`, whose two reads add two cycles. Then the bus
    /// resets too.
    pub fn reset<T: MemIO>(&mut self, ram: &mut T)
        requires
            full(old(ram).memory()),
            old(self).remain_cycles <= usize::MAX - 8,
        ensures
            *final(self) == reset_cpu(*old(self), old(ram).memory()),
            final(self).pc == word(old(ram).memory()[0xFFFC], old(ram).memory()[0xFFFD]),
            final(ram).memory() == old(ram).memory(),
    {
        self.interrupt(ram, Interrupt::Reset);
        ram.reset();
    }

    /// Takes an interrupt. An IRQ while I is set is ignored, with no bus access at all. A
    /// reset clears the registers as `reset` does, in two cycles; the others push PC and the
    /// flags (B set only for BRK) and set I, in seven cycles. PC is then loaded from the
    /// kind's vector.
    pub fn interrupt<T: MemIO>(&mut self, ram: &mut T, kind: Interrupt)
        requires
            full(old(ram).memory()),
            old(self).remain_cycles <= usize::MAX - 8,
        ensures
            (final(self).regs(), final(ram).memory()) == interrupt_spec(kind, old(self).regs(), old(ram).memory()),
            masked(kind, old(self).regs()) ==> *final(ram) == *old(ram),
            final(self).remain_cycles == remain_after_interrupt(kind, old(self).regs(), old(self).remain_cycles),
            final(self).total_cycles == old(self).total_cycles,
    {
        if let Interrupt::IRQ = kind {
            if self.flags.i {
                return;
            }
        }
        if let Interrupt::Reset = kind {
            self.sp = 0xFF;
            self.a = 0;
            self.x = 0;
            self.y = 0;
            self.flags = StatusFlag { c: false, z: false, i: false, d: false, b: false, r: true, v: false, n: false };
            let lo = self.read_byte(ram, 0xFFFC);
            let hi = self.read_byte(ram, 0xFFFD);
            self.pc = hi as u16 * 0x100 + lo as u16;
            return;
        }
        let vector: u16 = match kind {
            Interrupt::NMI => 0xFFFA,
            _ => 0xFFFE,
        };
        self.remain_cycles += 2;
        self.enter_interrupt(ram, kind == Interrupt::BRK, vector);
    }

    /// Fetches the opcode at PC, decodes it and executes it. `remain_cycles` grows by the
    /// instruction's documented cycle count, page-crossing and branch penalties included.
    pub fn dispatch<T: MemIO>(&mut self, ram: &mut T)
        requires
            full(old(ram).memory()),
            old(self).remain_cycles < usize::MAX - 16,
            opcode_at(old(self).regs(), old(ram).memory()) is Some,
        ensures
            (final(self).regs(), final(ram).memory()) == dispatch_spec(old(self).regs(), old(ram).memory()),
            final(self).remain_cycles == old(self).remain_cycles + dispatch_cycles(
                old(self).regs(),
                old(ram).memory(),
            ),
            final(self).total_cycles == old(self).total_cycles,
    {
        let byte = self.fetch_byte(ram);
        proof {
            lemma_table_fits(byte);
        }
        let op: OpCode = decode(byte).unwrap();
        op.execute(self, ram);
    }

    /// Whether cycles of the last instruction are still to be drained.
    fn is_waiting_for_cycles(&self) -> (r: bool)
        ensures
            r == (self.remain_cycles > 0),
    {
        self.remain_cycles > 0
    }

    /// Advances one host cycle: drains one cycle, dispatching the next instruction first when
    /// none remain. The opcode at PC must then be defined.
    pub fn step<T: MemIO>(&mut self, ram: &mut T)
        requires
            full(old(ram).memory()),
            step_ok(*old(self), old(ram).memory()),
        ensures
            (*final(self), final(ram).memory()) == step_spec(*old(self), old(ram).memory()),
            old(self).remain_cycles > 0 ==> *final(ram) == *old(ram),
    {
        if !self.is_waiting_for_cycles() {
            self.dispatch(ram);
            self.total_cycles = self.total_cycles.wrapping_add(self.remain_cycles);
        }
        self.remain_cycles -= 1;
    }

    /// Runs `n` host cycles.
    pub fn run_cycles<T: MemIO>(&mut self, ram: &mut T, n: usize)
        requires
            full(old(ram).memory()),
            runs_ok(*old(self), old(ram).memory(), n as nat),
        ensures
            (*final(self), final(ram).memory()) == run_spec(*old(self), old(ram).memory(), n as nat),
    {
        let ghost start = (*self, ram.memory());
        let mut i: usize = 0;
        while i < n
            invariant
                i <= n,
                full(ram.memory()),
                runs_ok(*self, ram.memory(), (n - i) as nat),
                run_spec(*self, ram.memory(), (n - i) as nat) == run_spec(start.0, start.1, n as nat),
            decreases n - i,
        {
            proof {
                lemma_step_keeps_memory_size(*self, ram.memory());
            }
            self.step(ram);
            i = i + 1;
        }
    }

    /// Runs a program from power-up: cycles still pending are abandoned, the processor is
    /// reset, then the host cycles left of `cycles` once the reset's two vector reads are
    /// counted are run.
    pub fn execute<T: MemIO>(&mut self, cycles: isize, ram: &mut T)
        requires
            full(old(ram).memory()),
            runs_ok(
                reset_cpu(CPU { remain_cycles: 0, ..*old(self) }, old(ram).memory()),
                old(ram).memory(),
                ticks_after_reset(cycles),
            ),
        ensures
            (*final(self), final(ram).memory()) == run_spec(
                reset_cpu(CPU { remain_cycles: 0, ..*old(self) }, old(ram).memory()),
                old(ram).memory(),
                ticks_after_reset(cycles),
            ),
    {
        self.remain_cycles = 0;
        self.reset(ram);
        let ticks: usize = if cycles > 2 { (cycles - 2) as usize } else { 0 };
        self.run_cycles(ram, ticks);
    }
}

} // verus!

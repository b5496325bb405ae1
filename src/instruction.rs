use vstd::prelude::*;

use crate::cpu::{add8, cycle_room, full, wrap16, word, Registers, CPU};
use crate::ram::MemIO;
use crate::semantics::{
    add_with_carry, apply_implied, apply_modify, apply_read, exec_spec, fits,
    flow_spec, instruction_cycles, is_implied, is_shift, modifies_operand, reads_operand, shifted,
    stores_operand,
};

verus! {

/// The instruction kinds: the official set and the undocumented ones that test ROMs use.
#[derive(Debug, Clone, Copy, PartialEq, Eq, Structural)]
pub enum Instruction {
    LDA,
    LDX,
    LDY,
    STA,
    STX,
    STY,
    TAX,
    TAY,
    TXA,
    TYA,
    TSX,
    TXS,
    PHA,
    PLA,
    PHP,
    PLP,
    AND,
    EOR,
    ORA,
    BIT,
    ADC,
    SBC,
    CMP,
    CPX,
    CPY,
    INC,
    INX,
    INY,
    DEC,
    DEX,
    DEY,
    ASL,
    LSR,
    ROL,
    ROR,
    JMP,
    JSR,
    RTS,
    BCC,
    BCS,
    BNE,
    BEQ,
    BPL,
    BMI,
    BVC,
    BVS,
    CLC,
    CLD,
    CLI,
    CLV,
    SEC,
    SED,
    SEI,
    BRK,
    NOP,
    RTI,
    /// Undocumented: LDA and LDX at once.
    LAX,
    /// Undocumented: stores `A & X`.
    SAX,
    /// Undocumented: DEC then CMP.
    DCP,
    /// Undocumented: a NOP that skips an immediate byte.
    SKB,
    /// Undocumented: a NOP that reads its operand and ignores it.
    IGN,
}

/// The rules by which an instruction locates its operand.
#[derive(Debug, Clone, Copy, PartialEq, Eq, Structural)]
pub enum AddressingMode {
    Implied,
    Accumulator,
    Immediate,
    ZeroPage,
    ZeroPageX,
    ZeroPageY,
    Relative,
    Absolute,
    AbsoluteX,
    AbsoluteY,
    Indirect,
    IndexedIndirect,
    IndirectIndexed,
}

/// Whether an opcode belongs to the documented instruction set.
#[derive(Debug, Clone, Copy, PartialEq, Eq, Structural)]
pub enum Officiality {
    Official,
    Unofficial,
}

/// A decoded opcode: its instruction, its addressing mode and whether it is documented.
#[derive(Debug, Clone, Copy, PartialEq, Eq, Structural)]
pub struct OpCode(pub Instruction, pub AddressingMode, pub Officiality);

/// The number of operand bytes that follow the opcode.
pub open spec fn operand_len(mode: AddressingMode) -> int {
    match mode {
        AddressingMode::Implied | AddressingMode::Accumulator => 0,
        AddressingMode::Absolute | AddressingMode::AbsoluteX | AddressingMode::AbsoluteY
        | AddressingMode::Indirect => 2,
        _ => 1,
    }
}

/// Whether the mode yields a value to consume.
pub open spec fn has_value(mode: AddressingMode) -> bool {
    !(mode is Implied || mode is Relative || mode is Indirect)
}

/// Whether the mode yields an effective address.
pub open spec fn has_address(mode: AddressingMode) -> bool {
    !(mode is Implied || mode is Accumulator || mode is Immediate)
}

/// Whether the mode adds an index to a 16-bit base, and so may cross a page.
pub open spec fn is_indexed(mode: AddressingMode) -> bool {
    mode is AbsoluteX || mode is AbsoluteY || mode is IndirectIndexed
}

/// The 16-bit pointer stored in the zero page at `p` and `p + 1`, the latter wrapping within the page.
pub open spec fn zero_page_pointer(m: Seq<u8>, p: u8) -> u16 {
    word(m[p as int], m[add8(p as int, 1) as int])
}

/// The two operand bytes at PC, PC + 1 as one little-endian word.
pub open spec fn operand_word(r: Registers, m: Seq<u8>) -> u16 {
    word(m[r.pc as int], m[wrap16(r.pc + 1) as int])
}

/// The operand byte at PC read as a signed offset.
pub open spec fn signed_offset(b: u8) -> int {
    if b < 0x80 {
        b as int
    } else {
        b as int - 0x100
    }
}

/// The address that an indexed mode adds its index to.
pub open spec fn index_base(mode: AddressingMode, r: Registers, m: Seq<u8>) -> u16 {
    match mode {
        AddressingMode::IndirectIndexed => zero_page_pointer(m, m[r.pc as int]),
        _ => operand_word(r, m),
    }
}

/// The effective address of the operand, with PC at the first operand byte.
pub open spec fn effective_address(mode: AddressingMode, r: Registers, m: Seq<u8>) -> u16 {
    let b = m[r.pc as int];
    match mode {
        AddressingMode::ZeroPage => b as u16,
        AddressingMode::ZeroPageX => add8(b as int, r.x as int) as u16,
        AddressingMode::ZeroPageY => add8(b as int, r.y as int) as u16,
        AddressingMode::Relative => wrap16(r.pc + 1 + signed_offset(b)),
        AddressingMode::Absolute => operand_word(r, m),
        AddressingMode::AbsoluteX => wrap16(operand_word(r, m) + r.x),
        AddressingMode::AbsoluteY => wrap16(operand_word(r, m) + r.y),
        AddressingMode::Indirect => {
            let p = operand_word(r, m);
            // the high byte comes from the same page: $xxFF is followed by $xx00
            word(m[p as int], m[(p as int - p as int % 0x100) + add8(p as int % 0x100, 1)])
        },
        AddressingMode::IndexedIndirect => zero_page_pointer(m, add8(b as int, r.x as int)),
        AddressingMode::IndirectIndexed => wrap16(zero_page_pointer(m, b) + r.y),
        _ => 0,
    }
}

/// Whether an indexed mode's effective address lies on another page than its base.
pub open spec fn page_crossed(mode: AddressingMode, r: Registers, m: Seq<u8>) -> bool {
    is_indexed(mode) && index_base(mode, r, m) / 0x100 != effective_address(mode, r, m) / 0x100
}

/// The operand value that the mode yields.
pub open spec fn operand_value(mode: AddressingMode, r: Registers, m: Seq<u8>) -> u8 {
    match mode {
        AddressingMode::Accumulator => r.a,
        AddressingMode::Immediate => m[r.pc as int],
        _ => m[effective_address(mode, r, m) as int],
    }
}

/// PC once the operand bytes are consumed.
pub open spec fn after_operand(mode: AddressingMode, r: Registers) -> u16 {
    wrap16(r.pc + operand_len(mode))
}

/// Cycles that locating the effective address takes.
pub open spec fn address_cycles(mode: AddressingMode) -> nat {
    match mode {
        AddressingMode::ZeroPage | AddressingMode::Relative => 1,
        AddressingMode::ZeroPageX | AddressingMode::ZeroPageY | AddressingMode::Absolute
        | AddressingMode::AbsoluteX | AddressingMode::AbsoluteY => 2,
        AddressingMode::IndirectIndexed => 3,
        AddressingMode::Indirect | AddressingMode::IndexedIndirect => 4,
        _ => 0,
    }
}

/// Cycles that reading the operand value takes, a page crossing included.
pub open spec fn value_cycles(mode: AddressingMode, r: Registers, m: Seq<u8>) -> nat {
    match mode {
        AddressingMode::Accumulator => 0,
        AddressingMode::Immediate => 1,
        _ => address_cycles(mode) + 1 + if page_crossed(mode, r, m) { 1nat } else { 0 },
    }
}

impl AddressingMode {
    /// Reads the base of an indexed mode: the operand word, or the zero-page pointer it names.
    fn index_base<T: MemIO>(&self, cpu: &mut CPU, ram: &mut T) -> (base: u16)
        requires
            is_indexed(*self),
            full(old(ram).memory()),
            old(cpu).remain_cycles <= usize::MAX - 8,
        ensures
            base == index_base(*self, old(cpu).regs(), old(ram).memory()),
            final(ram).memory() == old(ram).memory(),
            final(cpu).regs() == (Registers { pc: after_operand(*self, old(cpu).regs()), ..old(cpu).regs() }),
            final(cpu).remain_cycles == old(cpu).remain_cycles + address_cycles(*self),
            final(cpu).total_cycles == old(cpu).total_cycles,
    {
        if let AddressingMode::IndirectIndexed = self {
            let ind_addr = cpu.fetch_byte(ram);
            let lo = cpu.read_byte(ram, ind_addr as usize);
            let hi = cpu.read_byte(ram, ind_addr.wrapping_add(1) as usize);
            hi as u16 * 0x100 + lo as u16
        } else {
            let lo = cpu.fetch_byte(ram);
            let hi = cpu.fetch_byte(ram);
            hi as u16 * 0x100 + lo as u16
        }
    }

    /// The effective address, with PC moved past the operand bytes; `None` for the modes
    /// that have none (Implied, Accumulator, Immediate).
    pub fn get_address<T: MemIO>(&self, cpu: &mut CPU, ram: &mut T) -> (addr: Option<u16>)
        requires
            full(old(ram).memory()),
            old(cpu).remain_cycles <= usize::MAX - 8,
        ensures
            addr == if has_address(*self) {
                Some(effective_address(*self, old(cpu).regs(), old(ram).memory()))
            } else {
                None
            },
            final(ram).memory() == old(ram).memory(),
            has_address(*self) ==> final(cpu).regs() == (Registers {
                pc: after_operand(*self, old(cpu).regs()),
                ..old(cpu).regs()
            }),
            has_address(*self) ==> final(cpu).remain_cycles == old(cpu).remain_cycles
                + address_cycles(*self),
            !has_address(*self) ==> *final(cpu) == *old(cpu),
            final(cpu).total_cycles == old(cpu).total_cycles,
    {
        match self {
            AddressingMode::ZeroPage => Some(cpu.fetch_byte(ram) as u16),
            AddressingMode::ZeroPageX => {
                cpu.remain_cycles += 1;
                Some(cpu.fetch_byte(ram).wrapping_add(cpu.x) as u16)
            },
            AddressingMode::ZeroPageY => {
                cpu.remain_cycles += 1;
                Some(cpu.fetch_byte(ram).wrapping_add(cpu.y) as u16)
            },
            AddressingMode::Relative => {
                let off = cpu.fetch_byte(ram);
                if off < 0x80 {
                    Some(cpu.pc.wrapping_add(off as u16))
                } else {
                    Some(cpu.pc.wrapping_sub(0x100 - off as u16))
                }
            },
            AddressingMode::Absolute => {
                let lo = cpu.fetch_byte(ram);
                let hi = cpu.fetch_byte(ram);
                Some(hi as u16 * 0x100 + lo as u16)
            },
            AddressingMode::AbsoluteX => {
                let base = self.index_base(cpu, ram);
                Some(base.wrapping_add(cpu.x as u16))
            },
            AddressingMode::AbsoluteY | AddressingMode::IndirectIndexed => {
                let base = self.index_base(cpu, ram);
                Some(base.wrapping_add(cpu.y as u16))
            },
            AddressingMode::Indirect => {
                let lo = cpu.fetch_byte(ram);
                let hi = cpu.fetch_byte(ram);
                let ind_addr = hi as u16 * 0x100 + lo as u16;
                let target_lo = cpu.read_byte(ram, ind_addr as usize);
                // a pointer at $xxFF takes its high byte from $xx00, not from the next page
                let hi_addr = hi as u16 * 0x100 + lo.wrapping_add(1) as u16;
                let target_hi = cpu.read_byte(ram, hi_addr as usize);
                Some(target_hi as u16 * 0x100 + target_lo as u16)
            },
            AddressingMode::IndexedIndirect => {
                let ind_addr = cpu.fetch_byte(ram).wrapping_add(cpu.x);
                let lo = cpu.read_byte(ram, ind_addr as usize);
                let hi = cpu.read_byte(ram, ind_addr.wrapping_add(1) as usize);
                cpu.remain_cycles += 1;
                Some(hi as u16 * 0x100 + lo as u16)
            },
            AddressingMode::Implied | AddressingMode::Accumulator | AddressingMode::Immediate => None,
        }
    }

    /// The operand value, with PC moved past the operand bytes; `None` for the modes that
    /// yield no value (Implied, Relative, Indirect). Indexed reads that cross a page take one
    /// more cycle.
    pub fn fetch<T: MemIO>(&self, cpu: &mut CPU, ram: &mut T) -> (byte: Option<u8>)
        requires
            full(old(ram).memory()),
            old(cpu).remain_cycles <= usize::MAX - 8,
        ensures
            byte == if has_value(*self) {
                Some(operand_value(*self, old(cpu).regs(), old(ram).memory()))
            } else {
                None
            },
            final(ram).memory() == old(ram).memory(),
            has_value(*self) ==> final(cpu).regs() == (Registers {
                pc: after_operand(*self, old(cpu).regs()),
                ..old(cpu).regs()
            }),
            has_value(*self) ==> final(cpu).remain_cycles == old(cpu).remain_cycles + value_cycles(
                *self,
                old(cpu).regs(),
                old(ram).memory(),
            ),
            !has_value(*self) ==> *final(cpu) == *old(cpu),
            final(cpu).total_cycles == old(cpu).total_cycles,
    {
        match self {
            AddressingMode::Accumulator => Some(cpu.a),
            AddressingMode::Immediate => Some(cpu.fetch_byte(ram)),
            AddressingMode::AbsoluteX | AddressingMode::AbsoluteY | AddressingMode::IndirectIndexed => {
                let base = self.index_base(cpu, ram);
                let index = if let AddressingMode::AbsoluteX = self { cpu.x } else { cpu.y };
                let addr = base.wrapping_add(index as u16);
                if base / 0x100 != addr / 0x100 {
                    cpu.remain_cycles += 1;
                }
                Some(cpu.read_byte(ram, addr as usize))
            },
            AddressingMode::Implied | AddressingMode::Relative | AddressingMode::Indirect => None,
            _ => {
                let addr = self.get_address(cpu, ram).unwrap();
                Some(cpu.read_byte(ram, addr as usize))
            },
        }
    }
}

/// `a + v + carry` with its carry out and signed overflow.
fn add_bytes(a: u8, v: u8, carry: bool) -> (out: (u8, bool, bool))
    ensures
        out == add_with_carry(a, v, carry),
{
    let sum: u16 = a as u16 + v as u16 + if carry { 1u16 } else { 0u16 };
    let res: u8 = if sum > 0xFF { (sum - 0x100) as u8 } else { sum as u8 };
    (res, sum > 0xFF, (a < 0x80) == (v < 0x80) && (res < 0x80) != (a < 0x80))
}

/// A shift or rotation of `v` with carry in `c`.
fn shift_byte(ins: Instruction, v: u8, c: bool) -> (out: (u8, bool))
    requires
        is_shift(ins),
    ensures
        out == shifted(ins, v, c),
{
    match ins {
        Instruction::ASL => (v << 1u8, v & 0x80 != 0),
        Instruction::LSR => (v >> 1u8, v & 1 != 0),
        Instruction::ROL => ((v << 1u8) | if c { 1u8 } else { 0u8 }, v & 0x80 != 0),
        _ => ((v >> 1u8) | if c { 0x80u8 } else { 0u8 }, v & 1 != 0),
    }
}

impl CPU {
    /// Adds `byte` and the carry to A, setting C, V, Z and N.
    fn add_to_accumulator(&mut self, byte: u8)
        ensures
            final(self).regs() == (Registers {
                a: add_with_carry(old(self).a, byte, old(self).flags.c).0,
                flags: crate::semantics::arith_flags(
                    old(self).flags,
                    add_with_carry(old(self).a, byte, old(self).flags.c),
                ),
                ..old(self).regs()
            }),
            final(self).remain_cycles == old(self).remain_cycles,
            final(self).total_cycles == old(self).total_cycles,
    {
        let (res, c, v) = add_bytes(self.a, byte, self.flags.c);
        self.flags.c = c;
        self.flags.v = v;
        self.set_accumulator(res);
    }

    /// Sets C, Z and N from comparing `reg` with `byte`.
    fn compare(&mut self, reg: u8, byte: u8)
        ensures
            final(self).regs() == (Registers {
                flags: crate::semantics::compare_flags(old(self).flags, reg, byte),
                ..old(self).regs()
            }),
            final(self).remain_cycles == old(self).remain_cycles,
            final(self).total_cycles == old(self).total_cycles,
    {
        self.flags.c = reg >= byte;
        self.flags.z = reg == byte;
        self.flags.n = reg.wrapping_sub(byte) & 0x80 != 0;
    }
}

impl OpCode {
    /// Applies an instruction that consumes `byte` to the registers.
    fn apply_read<T: MemIO>(&self, cpu: &mut CPU, byte: u8)
        requires
            reads_operand(self.0),
        ensures
            final(cpu).regs() == apply_read(self.0, byte, old(cpu).regs()),
            final(cpu).remain_cycles == old(cpu).remain_cycles,
            final(cpu).total_cycles == old(cpu).total_cycles,
    {
        match self.0 {
            Instruction::LDA => cpu.set_accumulator(byte),
            Instruction::LDX => cpu.set_index_x(byte),
            Instruction::LDY => cpu.set_index_y(byte),
            Instruction::LAX => {
                cpu.set_accumulator(byte);
                cpu.set_index_x(byte);
            },
            Instruction::AND => cpu.set_accumulator(cpu.a & byte),
            Instruction::EOR => cpu.set_accumulator(cpu.a ^ byte),
            Instruction::ORA => cpu.set_accumulator(cpu.a | byte),
            Instruction::BIT => {
                cpu.flags.z = cpu.a & byte == 0;
                cpu.flags.v = byte & 0x40 != 0;
                cpu.flags.n = byte & 0x80 != 0;
            },
            Instruction::ADC => cpu.add_to_accumulator(byte),
            Instruction::SBC => cpu.add_to_accumulator(0xFF - byte),
            Instruction::CMP => cpu.compare(cpu.a, byte),
            Instruction::CPX => cpu.compare(cpu.x, byte),
            Instruction::CPY => cpu.compare(cpu.y, byte),
            _ => {},
        }
    }

    /// Executes an instruction that consumes its operand value.
    fn execute_read<T: MemIO>(&self, cpu: &mut CPU, ram: &mut T)
        requires
            fits(*self),
            reads_operand(self.0),
            full(old(ram).memory()),
            cycle_room(*old(cpu)),
        ensures
            (final(cpu).regs(), final(ram).memory()) == exec_spec(*self, old(cpu).regs(), old(ram).memory()),
            final(cpu).remain_cycles == old(cpu).remain_cycles + instruction_cycles(
                *self,
                old(cpu).regs(),
                old(ram).memory(),
            ) - 1,
            final(cpu).total_cycles == old(cpu).total_cycles,
    {
        let byte = self.1.fetch(cpu, ram).unwrap();
        self.apply_read::<T>(cpu, byte);
    }

    /// Executes an instruction that stores a register: indexed modes always pay the cycle
    /// of the index add, crossing or not.
    fn execute_store<T: MemIO>(&self, cpu: &mut CPU, ram: &mut T)
        requires
            fits(*self),
            stores_operand(self.0),
            full(old(ram).memory()),
            cycle_room(*old(cpu)),
        ensures
            (final(cpu).regs(), final(ram).memory()) == exec_spec(*self, old(cpu).regs(), old(ram).memory()),
            final(cpu).remain_cycles == old(cpu).remain_cycles + instruction_cycles(
                *self,
                old(cpu).regs(),
                old(ram).memory(),
            ) - 1,
            final(cpu).total_cycles == old(cpu).total_cycles,
    {
        let addr = self.1.get_address(cpu, ram).unwrap();
        if is_indexed_mode(self.1) {
            cpu.remain_cycles += 1;
        }
        let byte = match self.0 {
            Instruction::STA => cpu.a,
            Instruction::STX => cpu.x,
            Instruction::STY => cpu.y,
            _ => cpu.a & cpu.x,
        };
        cpu.write_byte(ram, addr as usize, byte);
    }

    /// Computes a read-modify-write on `byte`, setting the flags: returns the byte to write back.
    fn modify<T: MemIO>(&self, cpu: &mut CPU, byte: u8) -> (res: u8)
        requires
            modifies_operand(self.0),
        ensures
            (res, final(cpu).flags) == apply_modify(self.0, byte, old(cpu).flags, old(cpu).a),
            final(cpu).regs() == (Registers { flags: final(cpu).flags, ..old(cpu).regs() }),
            final(cpu).remain_cycles == old(cpu).remain_cycles,
            final(cpu).total_cycles == old(cpu).total_cycles,
    {
        let res = match self.0 {
            Instruction::INC => byte.wrapping_add(1),
            Instruction::DEC | Instruction::DCP => byte.wrapping_sub(1),
            _ => {
                let (res, c) = shift_byte(self.0, byte, cpu.flags.c);
                cpu.flags.c = c;
                res
            },
        };
        if let Instruction::DCP = self.0 {
            cpu.compare(cpu.a, res);
        } else {
            cpu.set_zero_and_negative_flag(res);
        }
        res
    }

    /// Executes a read-modify-write instruction on memory, or a shift of the accumulator.
    /// Indexed modes always pay the cycle of the index add.
    fn execute_modify<T: MemIO>(&self, cpu: &mut CPU, ram: &mut T)
        requires
            fits(*self),
            modifies_operand(self.0),
            full(old(ram).memory()),
            cycle_room(*old(cpu)),
        ensures
            (final(cpu).regs(), final(ram).memory()) == exec_spec(*self, old(cpu).regs(), old(ram).memory()),
            final(cpu).remain_cycles == old(cpu).remain_cycles + instruction_cycles(
                *self,
                old(cpu).regs(),
                old(ram).memory(),
            ) - 1,
            final(cpu).total_cycles == old(cpu).total_cycles,
    {
        cpu.remain_cycles += 1;
        if let AddressingMode::Accumulator = self.1 {
            let res = self.modify::<T>(cpu, cpu.a);
            cpu.a = res;
            return;
        }
        let addr = self.1.get_address(cpu, ram).unwrap();
        if is_indexed_mode(self.1) {
            cpu.remain_cycles += 1;
        }
        let byte = cpu.read_byte(ram, addr as usize);
        let res = self.modify::<T>(cpu, byte);
        cpu.write_byte(ram, addr as usize, res);
    }
}

impl OpCode {
    /// Executes an instruction that takes no operand and touches no memory: one cycle.
    fn execute_implied(&self, cpu: &mut CPU)
        requires
            is_implied(self.0),
            cycle_room(*old(cpu)),
        ensures
            final(cpu).regs() == apply_implied(self.0, old(cpu).regs()),
            final(cpu).remain_cycles == old(cpu).remain_cycles + 1,
            final(cpu).total_cycles == old(cpu).total_cycles,
    {
        cpu.remain_cycles += 1;
        match self.0 {
            Instruction::TAX => cpu.set_index_x(cpu.a),
            Instruction::TAY => cpu.set_index_y(cpu.a),
            Instruction::TXA => cpu.set_accumulator(cpu.x),
            Instruction::TYA => cpu.set_accumulator(cpu.y),
            Instruction::TSX => cpu.set_index_x(cpu.sp),
            Instruction::TXS => cpu.sp = cpu.x,
            Instruction::INX => cpu.set_index_x(cpu.x.wrapping_add(1)),
            Instruction::INY => cpu.set_index_y(cpu.y.wrapping_add(1)),
            Instruction::DEX => cpu.set_index_x(cpu.x.wrapping_sub(1)),
            Instruction::DEY => cpu.set_index_y(cpu.y.wrapping_sub(1)),
            Instruction::CLC => cpu.flags.c = false,
            Instruction::CLD => cpu.flags.d = false,
            Instruction::CLI => cpu.flags.i = false,
            Instruction::CLV => cpu.flags.v = false,
            Instruction::SEC => cpu.flags.c = true,
            Instruction::SED => cpu.flags.d = true,
            Instruction::SEI => cpu.flags.i = true,
            _ => {},
        }
    }

    /// Executes a conditional branch: one more cycle when taken, two beyond that when the
    /// target lies on another page.
    fn execute_branch<T: MemIO>(&self, cpu: &mut CPU, ram: &mut T)
        requires
            fits(*self),
            crate::semantics::is_branch(self.0),
            full(old(ram).memory()),
            cycle_room(*old(cpu)),
        ensures
            (final(cpu).regs(), final(ram).memory()) == flow_spec(*self, old(cpu).regs(), old(ram).memory()),
            final(cpu).remain_cycles == old(cpu).remain_cycles + instruction_cycles(
                *self,
                old(cpu).regs(),
                old(ram).memory(),
            ) - 1,
            final(cpu).total_cycles == old(cpu).total_cycles,
    {
        let addr = self.1.get_address(cpu, ram).unwrap();
        let taken = match self.0 {
            Instruction::BCC => !cpu.flags.c,
            Instruction::BCS => cpu.flags.c,
            Instruction::BNE => !cpu.flags.z,
            Instruction::BEQ => cpu.flags.z,
            Instruction::BPL => !cpu.flags.n,
            Instruction::BMI => cpu.flags.n,
            Instruction::BVC => !cpu.flags.v,
            _ => cpu.flags.v,
        };
        if taken {
            cpu.remain_cycles += 1;
            if cpu.pc / 0x100 != addr / 0x100 {
                cpu.remain_cycles += 2;
            }
            cpu.pc = addr;
        }
    }

    /// Executes a stack, jump, return or break instruction.
    fn execute_flow<T: MemIO>(&self, cpu: &mut CPU, ram: &mut T)
        requires
            fits(*self),
            !reads_operand(self.0),
            !stores_operand(self.0),
            !modifies_operand(self.0),
            !is_implied(self.0),
            !crate::semantics::is_branch(self.0),
            full(old(ram).memory()),
            cycle_room(*old(cpu)),
        ensures
            (final(cpu).regs(), final(ram).memory()) == flow_spec(*self, old(cpu).regs(), old(ram).memory()),
            final(cpu).remain_cycles == old(cpu).remain_cycles + instruction_cycles(
                *self,
                old(cpu).regs(),
                old(ram).memory(),
            ) - 1,
            final(cpu).total_cycles == old(cpu).total_cycles,
    {
        match self.0 {
            Instruction::PHA => cpu.push_to_stack(ram, cpu.a),
            Instruction::PHP => {
                let byte = cpu.flags.get_as_u8() | 0b00110000;
                cpu.push_to_stack(ram, byte);
            },
            Instruction::PLA => {
                let byte = cpu.pull_from_stack(ram);
                cpu.remain_cycles += 1;
                cpu.set_accumulator(byte);
            },
            Instruction::PLP => {
                let byte = cpu.pull_from_stack(ram);
                cpu.remain_cycles += 1;
                cpu.flags.set_as_u8(byte);
                cpu.flags.b = false;
            },
            Instruction::JMP => {
                let addr = self.1.get_address(cpu, ram).unwrap();
                cpu.pc = addr;
            },
            Instruction::JSR => {
                let addr = self.1.get_address(cpu, ram).unwrap();
                cpu.remain_cycles += 1;
                let ret = cpu.pc.wrapping_sub(1);
                cpu.stack_write(ram, (ret / 0x100) as u8);
                cpu.stack_write(ram, (ret % 0x100) as u8);
                cpu.pc = addr;
            },
            Instruction::RTS => {
                cpu.remain_cycles += 1;
                let lo = cpu.pull_from_stack(ram);
                let hi = cpu.stack_read(ram);
                cpu.remain_cycles += 1;
                cpu.pc = (hi as u16 * 0x100 + lo as u16).wrapping_add(1);
            },
            Instruction::RTI => {
                cpu.remain_cycles += 1;
                let flags = cpu.pull_from_stack(ram);
                cpu.flags.set_as_u8(flags);
                cpu.flags.b = false;
                let lo = cpu.stack_read(ram);
                let hi = cpu.stack_read(ram);
                cpu.pc = hi as u16 * 0x100 + lo as u16;
            },
            _ => {
                // BRK: the byte after the opcode is fetched and skipped
                cpu.fetch_byte(ram);
                cpu.enter_interrupt(ram, true, 0xFFFE);
            },
        }
    }

    /// Executes the instruction, with PC at the byte after the opcode. Every bus access and
    /// internal step adds a cycle to `remain_cycles`: in all, the instruction's documented
    /// count less the opcode fetch.
    pub fn execute<T: MemIO>(&self, cpu: &mut CPU, ram: &mut T)
        requires
            fits(*self),
            full(old(ram).memory()),
            cycle_room(*old(cpu)),
        ensures
            (final(cpu).regs(), final(ram).memory()) == exec_spec(*self, old(cpu).regs(), old(ram).memory()),
            final(cpu).remain_cycles == old(cpu).remain_cycles + instruction_cycles(
                *self,
                old(cpu).regs(),
                old(ram).memory(),
            ) - 1,
            final(cpu).total_cycles == old(cpu).total_cycles,
    {
        if self.is_read() {
            self.execute_read(cpu, ram);
        } else if self.is_store() {
            self.execute_store(cpu, ram);
        } else if self.is_modify() {
            self.execute_modify(cpu, ram);
        } else if self.is_implied() {
            self.execute_implied(cpu);
        } else if self.is_branch() {
            self.execute_branch(cpu, ram);
        } else {
            self.execute_flow(cpu, ram);
        }
    }

    fn is_read(&self) -> (r: bool)
        ensures
            r == reads_operand(self.0),
    {
        match self.0 {
            Instruction::LDA | Instruction::LDX | Instruction::LDY | Instruction::LAX | Instruction::AND
            | Instruction::EOR | Instruction::ORA | Instruction::BIT | Instruction::ADC | Instruction::SBC
            | Instruction::CMP | Instruction::CPX | Instruction::CPY | Instruction::SKB | Instruction::IGN => true,
            _ => false,
        }
    }

    fn is_store(&self) -> (r: bool)
        ensures
            r == stores_operand(self.0),
    {
        match self.0 {
            Instruction::STA | Instruction::STX | Instruction::STY | Instruction::SAX => true,
            _ => false,
        }
    }

    fn is_modify(&self) -> (r: bool)
        ensures
            r == modifies_operand(self.0),
    {
        match self.0 {
            Instruction::INC | Instruction::DEC | Instruction::DCP | Instruction::ASL | Instruction::LSR
            | Instruction::ROL | Instruction::ROR => true,
            _ => false,
        }
    }

    fn is_implied(&self) -> (r: bool)
        ensures
            r == is_implied(self.0),
    {
        match self.0 {
            Instruction::TAX | Instruction::TAY | Instruction::TXA | Instruction::TYA | Instruction::TSX
            | Instruction::TXS | Instruction::INX | Instruction::INY | Instruction::DEX | Instruction::DEY
            | Instruction::CLC | Instruction::CLD | Instruction::CLI | Instruction::CLV | Instruction::SEC
            | Instruction::SED | Instruction::SEI | Instruction::NOP => true,
            _ => false,
        }
    }

    fn is_branch(&self) -> (r: bool)
        ensures
            r == crate::semantics::is_branch(self.0),
    {
        match self.0 {
            Instruction::BCC | Instruction::BCS | Instruction::BNE | Instruction::BEQ | Instruction::BPL
            | Instruction::BMI | Instruction::BVC | Instruction::BVS => true,
            _ => false,
        }
    }
}

/// Whether the mode adds an index to a 16-bit base.
fn is_indexed_mode(mode: AddressingMode) -> (r: bool)
    ensures
        r == is_indexed(mode),
{
    match mode {
        AddressingMode::AbsoluteX | AddressingMode::AbsoluteY | AddressingMode::IndirectIndexed => true,
        _ => false,
    }
}

} // verus!

use vstd::prelude::*;

use crate::cpu::{add8, full, pack_flags, wrap16, Registers, StatusFlag, CPU};
use crate::instruction::{
    effective_address, index_base, operand_len, operand_word, AddressingMode, Instruction, OpCode,
    Officiality,
};
use crate::ram::MemIO;
use crate::semantics::{decode, modifies_operand, opcode_at, past_opcode, reads_operand, stores_operand};

verus! {

/// Whether every byte of `s` is ASCII.
pub open spec fn ascii(s: Seq<u8>) -> bool {
    forall|i: int| 0 <= i < s.len() ==> #[trigger] s[i] < 0x80
}

/// The characters that the ASCII bytes `s` stand for.
pub open spec fn ascii_chars(s: Seq<u8>) -> Seq<char> {
    s.map_values(|b: u8| b as char)
}

/// The upper-case hexadecimal digit for `n` in `0..16`.
pub open spec fn hex_digit(n: int) -> u8 {
    if n < 10 {
        (0x30 + n) as u8
    } else {
        (0x37 + n) as u8
    }
}

/// Two hexadecimal digits for a byte.
pub open spec fn hex8(b: u8) -> Seq<u8> {
    seq![hex_digit(b as int / 16), hex_digit(b as int % 16)]
}

/// Four hexadecimal digits for a word.
pub open spec fn hex16(w: u16) -> Seq<u8> {
    hex8((w as int / 0x100) as u8) + hex8((w as int % 0x100) as u8)
}

/// `s` padded with spaces on the right to at least `width` bytes.
pub open spec fn padded(s: Seq<u8>, width: nat) -> Seq<u8> {
    if s.len() < width {
        s + Seq::new((width - s.len()) as nat, |i: int| 0x20u8)
    } else {
        s
    }
}

/// The three-letter mnemonic; the undocumented no-operations print as NOP.
pub open spec fn mnemonic(ins: Instruction) -> Seq<u8> {
    match ins {
        Instruction::LDA => seq![76u8, 68u8, 65u8],
        Instruction::LDX => seq![76u8, 68u8, 88u8],
        Instruction::LDY => seq![76u8, 68u8, 89u8],
        Instruction::STA => seq![83u8, 84u8, 65u8],
        Instruction::STX => seq![83u8, 84u8, 88u8],
        Instruction::STY => seq![83u8, 84u8, 89u8],
        Instruction::TAX => seq![84u8, 65u8, 88u8],
        Instruction::TAY => seq![84u8, 65u8, 89u8],
        Instruction::TXA => seq![84u8, 88u8, 65u8],
        Instruction::TYA => seq![84u8, 89u8, 65u8],
        Instruction::TSX => seq![84u8, 83u8, 88u8],
        Instruction::TXS => seq![84u8, 88u8, 83u8],
        Instruction::PHA => seq![80u8, 72u8, 65u8],
        Instruction::PLA => seq![80u8, 76u8, 65u8],
        Instruction::PHP => seq![80u8, 72u8, 80u8],
        Instruction::PLP => seq![80u8, 76u8, 80u8],
        Instruction::AND => seq![65u8, 78u8, 68u8],
        Instruction::EOR => seq![69u8, 79u8, 82u8],
        Instruction::ORA => seq![79u8, 82u8, 65u8],
        Instruction::BIT => seq![66u8, 73u8, 84u8],
        Instruction::ADC => seq![65u8, 68u8, 67u8],
        Instruction::SBC => seq![83u8, 66u8, 67u8],
        Instruction::CMP => seq![67u8, 77u8, 80u8],
        Instruction::CPX => seq![67u8, 80u8, 88u8],
        Instruction::CPY => seq![67u8, 80u8, 89u8],
        Instruction::INC => seq![73u8, 78u8, 67u8],
        Instruction::INX => seq![73u8, 78u8, 88u8],
        Instruction::INY => seq![73u8, 78u8, 89u8],
        Instruction::DEC => seq![68u8, 69u8, 67u8],
        Instruction::DEX => seq![68u8, 69u8, 88u8],
        Instruction::DEY => seq![68u8, 69u8, 89u8],
        Instruction::ASL => seq![65u8, 83u8, 76u8],
        Instruction::LSR => seq![76u8, 83u8, 82u8],
        Instruction::ROL => seq![82u8, 79u8, 76u8],
        Instruction::ROR => seq![82u8, 79u8, 82u8],
        Instruction::JMP => seq![74u8, 77u8, 80u8],
        Instruction::JSR => seq![74u8, 83u8, 82u8],
        Instruction::RTS => seq![82u8, 84u8, 83u8],
        Instruction::BCC => seq![66u8, 67u8, 67u8],
        Instruction::BCS => seq![66u8, 67u8, 83u8],
        Instruction::BNE => seq![66u8, 78u8, 69u8],
        Instruction::BEQ => seq![66u8, 69u8, 81u8],
        Instruction::BPL => seq![66u8, 80u8, 76u8],
        Instruction::BMI => seq![66u8, 77u8, 73u8],
        Instruction::BVC => seq![66u8, 86u8, 67u8],
        Instruction::BVS => seq![66u8, 86u8, 83u8],
        Instruction::CLC => seq![67u8, 76u8, 67u8],
        Instruction::CLD => seq![67u8, 76u8, 68u8],
        Instruction::CLI => seq![67u8, 76u8, 73u8],
        Instruction::CLV => seq![67u8, 76u8, 86u8],
        Instruction::SEC => seq![83u8, 69u8, 67u8],
        Instruction::SED => seq![83u8, 69u8, 68u8],
        Instruction::SEI => seq![83u8, 69u8, 73u8],
        Instruction::BRK => seq![66u8, 82u8, 75u8],
        Instruction::NOP => seq![78u8, 79u8, 80u8],
        Instruction::RTI => seq![82u8, 84u8, 73u8],
        Instruction::LAX => seq![76u8, 65u8, 88u8],
        Instruction::SAX => seq![83u8, 65u8, 88u8],
        Instruction::DCP => seq![68u8, 67u8, 80u8],
        Instruction::SKB => seq![78u8, 79u8, 80u8],
        Instruction::IGN => seq![78u8, 79u8, 80u8],
    }
}

/// `*` before an undocumented opcode, a space before the others.
pub open spec fn officiality_mark(o: Officiality) -> u8 {
    match o {
        Officiality::Official => 0x20,
        Officiality::Unofficial => 0x2A,
    }
}

/// The opcode byte and its operand bytes in hexadecimal, with `r` the registers once the
/// opcode is fetched.
pub open spec fn code_text(mode: AddressingMode, r: Registers, m: Seq<u8>) -> Seq<u8> {
    let n = operand_len(mode);
    hex8(m[wrap16(r.pc - 1) as int]) + (if n >= 1 {
        seq![0x20u8] + hex8(m[r.pc as int])
    } else {
        Seq::empty()
    }) + (if n == 2 {
        seq![0x20u8] + hex8(m[wrap16(r.pc + 1) as int])
    } else {
        Seq::empty()
    })
}

/// The operand as assembly text: `#$NN`, `$NN,X`, `($NNNN)` and so on; a branch shows its
/// destination.
pub open spec fn operand_text(mode: AddressingMode, r: Registers, m: Seq<u8>) -> Seq<u8> {
    let b = m[r.pc as int];
    let w = operand_word(r, m);
    match mode {
        AddressingMode::Implied => Seq::empty(),
        AddressingMode::Accumulator => seq![0x41u8],
        AddressingMode::Immediate => seq![0x23u8, 0x24u8] + hex8(b),
        AddressingMode::ZeroPage => seq![0x24u8] + hex8(b),
        AddressingMode::ZeroPageX => seq![0x24u8] + hex8(b) + seq![0x2Cu8, 0x58u8],
        AddressingMode::ZeroPageY => seq![0x24u8] + hex8(b) + seq![0x2Cu8, 0x59u8],
        AddressingMode::Relative => seq![0x24u8] + hex16(effective_address(mode, r, m)),
        AddressingMode::Absolute => seq![0x24u8] + hex16(w),
        AddressingMode::AbsoluteX => seq![0x24u8] + hex16(w) + seq![0x2Cu8, 0x58u8],
        AddressingMode::AbsoluteY => seq![0x24u8] + hex16(w) + seq![0x2Cu8, 0x59u8],
        AddressingMode::Indirect => seq![0x28u8, 0x24u8] + hex16(w) + seq![0x29u8],
        AddressingMode::IndexedIndirect => seq![0x28u8, 0x24u8] + hex8(b) + seq![0x2Cu8, 0x58u8, 0x29u8],
        AddressingMode::IndirectIndexed => seq![0x28u8, 0x24u8] + hex8(b) + seq![0x29u8, 0x2Cu8, 0x59u8],
    }
}

/// Whether the trace shows the memory an instruction works on.
pub open spec fn shows_memory(ins: Instruction) -> bool {
    reads_operand(ins) || stores_operand(ins) || modifies_operand(ins)
}

/// ` @ ` before a resolved address.
pub open spec fn at_text() -> Seq<u8> {
    seq![0x20u8, 0x40u8, 0x20u8]
}

/// ` = ` before a value.
pub open spec fn equals_text() -> Seq<u8> {
    seq![0x20u8, 0x3Du8, 0x20u8]
}

/// What the operand resolves to: the effective address where indexing or indirection
/// computes it, and the byte now stored there, for the instructions that work on memory;
/// the target of an indirect jump.
pub open spec fn resolved_text(op: OpCode, r: Registers, m: Seq<u8>) -> Seq<u8> {
    let ea = effective_address(op.1, r, m);
    let value = equals_text() + hex8(m[ea as int]);
    if shows_memory(op.0) {
        match op.1 {
            AddressingMode::Implied | AddressingMode::Accumulator | AddressingMode::Immediate => Seq::empty(),
            AddressingMode::ZeroPageX | AddressingMode::ZeroPageY => at_text() + hex8(ea as u8) + value,
            AddressingMode::AbsoluteX | AddressingMode::AbsoluteY => at_text() + hex16(ea) + value,
            AddressingMode::IndexedIndirect => at_text() + hex8(add8(m[r.pc as int] as int, r.x as int))
                + equals_text() + hex16(ea) + value,
            AddressingMode::IndirectIndexed => equals_text() + hex16(index_base(op.1, r, m)) + at_text()
                + hex16(ea) + value,
            _ => value,
        }
    } else if op.0 is JMP && op.1 is Indirect {
        equals_text() + hex16(ea)
    } else {
        Seq::empty()
    }
}

/// The middle of a trace line: code bytes, mark, mnemonic and operand, each in its column.
pub open spec fn instruction_text(op: OpCode, r: Registers, m: Seq<u8>) -> Seq<u8> {
    padded(code_text(op.1, r, m), 8) + seq![0x20u8, officiality_mark(op.2)] + mnemonic(op.0) + seq![0x20u8]
        + padded(operand_text(op.1, r, m) + resolved_text(op, r, m), 26) + seq![0x20u8]
}

/// The status byte as a trace shows it: B clear, R set.
pub open spec fn shown_flags(f: StatusFlag) -> u8 {
    pack_flags(StatusFlag { b: false, r: true, ..f })
}

/// A whole trace line, in the layout of the nestest log.
pub open spec fn trace_text(op: OpCode, r: Registers, m: Seq<u8>) -> Seq<u8> {
    hex16(wrap16(r.pc - 1)) + seq![0x20u8, 0x20u8] + instruction_text(op, r, m) + seq![0x20u8, 0x41u8, 0x3Au8]
        + hex8(r.a) + seq![0x20u8, 0x58u8, 0x3Au8] + hex8(r.x) + seq![0x20u8, 0x59u8, 0x3Au8] + hex8(r.y)
        + seq![0x20u8, 0x50u8, 0x3Au8] + hex8(shown_flags(r.flags)) + seq![0x20u8, 0x53u8, 0x50u8, 0x3Au8]
        + hex8(r.sp)
}

/// Relies on `String::from_utf8_lossy`: ASCII bytes are valid UTF-8 and read as the same
/// characters, one per byte.
#[verifier::external_body]
fn ascii_string(bytes: &Vec<u8>) -> (s: String)
    ensures
        ascii(bytes@) ==> s@ == ascii_chars(bytes@),
{
    String::from_utf8_lossy(bytes).into_owned()
}

proof fn lemma_ascii_concat(a: Seq<u8>, b: Seq<u8>)
    requires
        ascii(a),
        ascii(b),
    ensures
        ascii(a + b),
{
    assert forall|i: int| 0 <= i < (a + b).len() implies #[trigger] (a + b)[i] < 0x80 by {
        if i < a.len() {
            assert((a + b)[i] == a[i]);
        } else {
            assert((a + b)[i] == b[i - a.len()]);
        }
    }
}

/// Appends `piece` to `out`, keeping it ASCII.
fn append_text(out: &mut Vec<u8>, piece: Vec<u8>)
    requires
        ascii(old(out)@),
        ascii(piece@),
    ensures
        final(out)@ == old(out)@ + piece@,
        ascii(final(out)@),
{
    proof {
        lemma_ascii_concat(old(out)@, piece@);
    }
    let mut piece = piece;
    out.append(&mut piece);
}

fn hex_digit_of(n: u8) -> (d: u8)
    requires
        n < 16,
    ensures
        d == hex_digit(n as int),
        d < 0x80,
{
    if n < 10 {
        0x30 + n
    } else {
        0x37 + n
    }
}

fn hex8_text(b: u8) -> (v: Vec<u8>)
    ensures
        v@ == hex8(b),
        ascii(v@),
{
    let v = vec![hex_digit_of(b / 16), hex_digit_of(b % 16)];
    proof {
        assert(v@ =~= hex8(b));
    }
    v
}

fn hex16_text(w: u16) -> (v: Vec<u8>)
    ensures
        v@ == hex16(w),
        ascii(v@),
{
    let mut v = hex8_text((w / 0x100) as u8);
    append_text(&mut v, hex8_text((w % 0x100) as u8));
    v
}

/// Fixed ASCII text.
fn text(piece: Vec<u8>) -> (v: Vec<u8>)
    requires
        ascii(piece@),
    ensures
        v@ == piece@,
        ascii(v@),
{
    piece
}

fn pad_text(v: &mut Vec<u8>, width: usize)
    requires
        ascii(old(v)@),
    ensures
        final(v)@ == padded(old(v)@, width as nat),
        ascii(final(v)@),
{
    let ghost start = v@;
    while v.len() < width
        invariant
            ascii(v@),
            start.len() <= v@.len(),
            v@.len() <= start.len() || v@.len() <= width,
            v@.subrange(0, start.len() as int) == start,
            forall|i: int| start.len() <= i < v@.len() ==> #[trigger] v@[i] == 0x20u8,
        decreases width - v.len(),
    {
        v.push(0x20);
        proof {
            assert(v@.subrange(0, start.len() as int) =~= start);
        }
    }
    proof {
        assert(v@ =~= padded(start, width as nat));
    }
}

fn mnemonic_text(ins: Instruction) -> (v: Vec<u8>)
    ensures
        v@ == mnemonic(ins),
        ascii(v@),
{
    let (a, b, c) = match ins {
        Instruction::LDA => (76u8, 68u8, 65u8),
        Instruction::LDX => (76u8, 68u8, 88u8),
        Instruction::LDY => (76u8, 68u8, 89u8),
        Instruction::STA => (83u8, 84u8, 65u8),
        Instruction::STX => (83u8, 84u8, 88u8),
        Instruction::STY => (83u8, 84u8, 89u8),
        Instruction::TAX => (84u8, 65u8, 88u8),
        Instruction::TAY => (84u8, 65u8, 89u8),
        Instruction::TXA => (84u8, 88u8, 65u8),
        Instruction::TYA => (84u8, 89u8, 65u8),
        Instruction::TSX => (84u8, 83u8, 88u8),
        Instruction::TXS => (84u8, 88u8, 83u8),
        Instruction::PHA => (80u8, 72u8, 65u8),
        Instruction::PLA => (80u8, 76u8, 65u8),
        Instruction::PHP => (80u8, 72u8, 80u8),
        Instruction::PLP => (80u8, 76u8, 80u8),
        Instruction::AND => (65u8, 78u8, 68u8),
        Instruction::EOR => (69u8, 79u8, 82u8),
        Instruction::ORA => (79u8, 82u8, 65u8),
        Instruction::BIT => (66u8, 73u8, 84u8),
        Instruction::ADC => (65u8, 68u8, 67u8),
        Instruction::SBC => (83u8, 66u8, 67u8),
        Instruction::CMP => (67u8, 77u8, 80u8),
        Instruction::CPX => (67u8, 80u8, 88u8),
        Instruction::CPY => (67u8, 80u8, 89u8),
        Instruction::INC => (73u8, 78u8, 67u8),
        Instruction::INX => (73u8, 78u8, 88u8),
        Instruction::INY => (73u8, 78u8, 89u8),
        Instruction::DEC => (68u8, 69u8, 67u8),
        Instruction::DEX => (68u8, 69u8, 88u8),
        Instruction::DEY => (68u8, 69u8, 89u8),
        Instruction::ASL => (65u8, 83u8, 76u8),
        Instruction::LSR => (76u8, 83u8, 82u8),
        Instruction::ROL => (82u8, 79u8, 76u8),
        Instruction::ROR => (82u8, 79u8, 82u8),
        Instruction::JMP => (74u8, 77u8, 80u8),
        Instruction::JSR => (74u8, 83u8, 82u8),
        Instruction::RTS => (82u8, 84u8, 83u8),
        Instruction::BCC => (66u8, 67u8, 67u8),
        Instruction::BCS => (66u8, 67u8, 83u8),
        Instruction::BNE => (66u8, 78u8, 69u8),
        Instruction::BEQ => (66u8, 69u8, 81u8),
        Instruction::BPL => (66u8, 80u8, 76u8),
        Instruction::BMI => (66u8, 77u8, 73u8),
        Instruction::BVC => (66u8, 86u8, 67u8),
        Instruction::BVS => (66u8, 86u8, 83u8),
        Instruction::CLC => (67u8, 76u8, 67u8),
        Instruction::CLD => (67u8, 76u8, 68u8),
        Instruction::CLI => (67u8, 76u8, 73u8),
        Instruction::CLV => (67u8, 76u8, 86u8),
        Instruction::SEC => (83u8, 69u8, 67u8),
        Instruction::SED => (83u8, 69u8, 68u8),
        Instruction::SEI => (83u8, 69u8, 73u8),
        Instruction::BRK => (66u8, 82u8, 75u8),
        Instruction::NOP => (78u8, 79u8, 80u8),
        Instruction::RTI => (82u8, 84u8, 73u8),
        Instruction::LAX => (76u8, 65u8, 88u8),
        Instruction::SAX => (83u8, 65u8, 88u8),
        Instruction::DCP => (68u8, 67u8, 80u8),
        Instruction::SKB => (78u8, 79u8, 80u8),
        Instruction::IGN => (78u8, 79u8, 80u8),
    };
    let v = vec![a, b, c];
    proof {
        assert(v@ =~= mnemonic(ins));
    }
    v
}

/// Reads the byte at `addr` without any effect on the bus.
fn peek<T: MemIO>(ram: &mut T, addr: u16) -> (b: u8)
    requires
        full(old(ram).memory()),
    ensures
        b == old(ram).memory()[addr as int],
        *final(ram) == *old(ram),
{
    ram.read_byte_without_effect(addr as usize)
}

fn peek_zero_page_pointer<T: MemIO>(ram: &mut T, p: u8) -> (w: u16)
    requires
        full(old(ram).memory()),
    ensures
        w == crate::instruction::zero_page_pointer(old(ram).memory(), p),
        *final(ram) == *old(ram),
{
    let lo = peek(ram, p as u16);
    let hi = peek(ram, p.wrapping_add(1) as u16);
    hi as u16 * 0x100 + lo as u16
}

fn operand_length(mode: AddressingMode) -> (n: u16)
    ensures
        n == operand_len(mode),
{
    match mode {
        AddressingMode::Implied | AddressingMode::Accumulator => 0,
        AddressingMode::Absolute | AddressingMode::AbsoluteX | AddressingMode::AbsoluteY
        | AddressingMode::Indirect => 2,
        _ => 1,
    }
}

impl AddressingMode {
    /// The base an indexed mode adds its index to, read without effect on the bus.
    fn peek_index_base<T: MemIO>(&self, r: &Registers, ram: &mut T) -> (base: u16)
        requires
            full(old(ram).memory()),
        ensures
            base == index_base(*self, *r, old(ram).memory()),
            *final(ram) == *old(ram),
    {
        if let AddressingMode::IndirectIndexed = self {
            let p = peek(ram, r.pc);
            peek_zero_page_pointer(ram, p)
        } else {
            let lo = peek(ram, r.pc);
            let hi = peek(ram, r.pc.wrapping_add(1));
            hi as u16 * 0x100 + lo as u16
        }
    }

    /// The effective address, computed without effect on the bus and without moving PC.
    fn peek_address<T: MemIO>(&self, r: &Registers, ram: &mut T) -> (addr: u16)
        requires
            full(old(ram).memory()),
        ensures
            addr == effective_address(*self, *r, old(ram).memory()),
            *final(ram) == *old(ram),
    {
        let b = peek(ram, r.pc);
        match self {
            AddressingMode::ZeroPage => b as u16,
            AddressingMode::ZeroPageX => b.wrapping_add(r.x) as u16,
            AddressingMode::ZeroPageY => b.wrapping_add(r.y) as u16,
            AddressingMode::Relative => {
                let next = r.pc.wrapping_add(1);
                if b < 0x80 {
                    next.wrapping_add(b as u16)
                } else {
                    next.wrapping_sub(0x100 - b as u16)
                }
            },
            AddressingMode::Absolute => self.peek_index_base(r, ram),
            AddressingMode::AbsoluteX => self.peek_index_base(r, ram).wrapping_add(r.x as u16),
            AddressingMode::AbsoluteY | AddressingMode::IndirectIndexed => self.peek_index_base(r, ram).wrapping_add(
                r.y as u16,
            ),
            AddressingMode::Indirect => {
                let lo = peek(ram, r.pc);
                let hi = peek(ram, r.pc.wrapping_add(1));
                let target_lo = peek(ram, hi as u16 * 0x100 + lo as u16);
                let target_hi = peek(ram, hi as u16 * 0x100 + lo.wrapping_add(1) as u16);
                target_hi as u16 * 0x100 + target_lo as u16
            },
            AddressingMode::IndexedIndirect => peek_zero_page_pointer(ram, b.wrapping_add(r.x)),
            _ => 0,
        }
    }

    /// The operand as assembly text.
    fn operand_text<T: MemIO>(&self, r: &Registers, ram: &mut T) -> (v: Vec<u8>)
        requires
            full(old(ram).memory()),
        ensures
            v@ == operand_text(*self, *r, old(ram).memory()),
            ascii(v@),
            *final(ram) == *old(ram),
    {
        let b = peek(ram, r.pc);
        let mut v: Vec<u8> = Vec::new();
        match self {
            AddressingMode::Implied => {},
            AddressingMode::Accumulator => v = text(vec![0x41]),
            AddressingMode::Immediate => {
                v = text(vec![0x23, 0x24]);
                append_text(&mut v, hex8_text(b));
            },
            AddressingMode::ZeroPage | AddressingMode::ZeroPageX | AddressingMode::ZeroPageY => {
                v = text(vec![0x24]);
                append_text(&mut v, hex8_text(b));
                if let AddressingMode::ZeroPageX = self {
                    append_text(&mut v, text(vec![0x2C, 0x58]));
                } else if let AddressingMode::ZeroPageY = self {
                    append_text(&mut v, text(vec![0x2C, 0x59]));
                }
            },
            AddressingMode::Relative => {
                v = text(vec![0x24]);
                append_text(&mut v, hex16_text(self.peek_address(r, ram)));
            },
            AddressingMode::Absolute | AddressingMode::AbsoluteX | AddressingMode::AbsoluteY => {
                v = text(vec![0x24]);
                append_text(&mut v, hex16_text(AddressingMode::Absolute.peek_index_base(r, ram)));
                if let AddressingMode::AbsoluteX = self {
                    append_text(&mut v, text(vec![0x2C, 0x58]));
                } else if let AddressingMode::AbsoluteY = self {
                    append_text(&mut v, text(vec![0x2C, 0x59]));
                }
            },
            AddressingMode::Indirect => {
                v = text(vec![0x28, 0x24]);
                append_text(&mut v, hex16_text(AddressingMode::Absolute.peek_index_base(r, ram)));
                append_text(&mut v, text(vec![0x29]));
            },
            AddressingMode::IndexedIndirect => {
                v = text(vec![0x28, 0x24]);
                append_text(&mut v, hex8_text(b));
                append_text(&mut v, text(vec![0x2C, 0x58, 0x29]));
            },
            AddressingMode::IndirectIndexed => {
                v = text(vec![0x28, 0x24]);
                append_text(&mut v, hex8_text(b));
                append_text(&mut v, text(vec![0x29, 0x2C, 0x59]));
            },
        }
        proof {
            assert(v@ =~= operand_text(*self, *r, old(ram).memory()));
        }
        v
    }
}

fn shows_memory_of(ins: Instruction) -> (r: bool)
    ensures
        r == shows_memory(ins),
{
    match ins {
        Instruction::LDA | Instruction::LDX | Instruction::LDY | Instruction::LAX | Instruction::AND
        | Instruction::EOR | Instruction::ORA | Instruction::BIT | Instruction::ADC | Instruction::SBC
        | Instruction::CMP | Instruction::CPX | Instruction::CPY | Instruction::SKB | Instruction::IGN
        | Instruction::STA | Instruction::STX | Instruction::STY | Instruction::SAX | Instruction::INC
        | Instruction::DEC | Instruction::DCP | Instruction::ASL | Instruction::LSR | Instruction::ROL
        | Instruction::ROR => true,
        _ => false,
    }
}

impl OpCode {
    /// What the operand resolves to, as the trace shows it.
    fn resolved_text<T: MemIO>(&self, r: &Registers, ram: &mut T) -> (v: Vec<u8>)
        requires
            full(old(ram).memory()),
        ensures
            v@ == resolved_text(*self, *r, old(ram).memory()),
            ascii(v@),
            *final(ram) == *old(ram),
    {
        let mut v: Vec<u8> = Vec::new();
        let ea = self.1.peek_address(r, ram);
        if shows_memory_of(self.0) {
            match self.1 {
                AddressingMode::Implied | AddressingMode::Accumulator | AddressingMode::Immediate => {},
                AddressingMode::ZeroPageX | AddressingMode::ZeroPageY => {
                    v = text(vec![0x20, 0x40, 0x20]);
                    append_text(&mut v, hex8_text(ea as u8));
                },
                AddressingMode::AbsoluteX | AddressingMode::AbsoluteY => {
                    v = text(vec![0x20, 0x40, 0x20]);
                    append_text(&mut v, hex16_text(ea));
                },
                AddressingMode::IndexedIndirect => {
                    let p = peek(ram, r.pc).wrapping_add(r.x);
                    v = text(vec![0x20, 0x40, 0x20]);
                    append_text(&mut v, hex8_text(p));
                    append_text(&mut v, text(vec![0x20, 0x3D, 0x20]));
                    append_text(&mut v, hex16_text(ea));
                },
                AddressingMode::IndirectIndexed => {
                    let base = self.1.peek_index_base(r, ram);
                    v = text(vec![0x20, 0x3D, 0x20]);
                    append_text(&mut v, hex16_text(base));
                    append_text(&mut v, text(vec![0x20, 0x40, 0x20]));
                    append_text(&mut v, hex16_text(ea));
                },
                _ => {},
            }
            match self.1 {
                AddressingMode::Implied | AddressingMode::Accumulator | AddressingMode::Immediate => {},
                _ => {
                    append_text(&mut v, text(vec![0x20, 0x3D, 0x20]));
                    append_text(&mut v, hex8_text(peek(ram, ea)));
                },
            }
        } else if let (Instruction::JMP, AddressingMode::Indirect) = (self.0, self.1) {
            v = text(vec![0x20, 0x3D, 0x20]);
            append_text(&mut v, hex16_text(ea));
        }
        proof {
            assert(v@ =~= resolved_text(*self, *r, old(ram).memory()));
        }
        v
    }

    /// The opcode byte and operand bytes in hexadecimal.
    fn code_text<T: MemIO>(&self, r: &Registers, ram: &mut T) -> (v: Vec<u8>)
        requires
            full(old(ram).memory()),
        ensures
            v@ == code_text(self.1, *r, old(ram).memory()),
            ascii(v@),
            *final(ram) == *old(ram),
    {
        let n = operand_length(self.1);
        let mut v = hex8_text(peek(ram, r.pc.wrapping_sub(1)));
        if n >= 1 {
            append_text(&mut v, text(vec![0x20]));
            append_text(&mut v, hex8_text(peek(ram, r.pc)));
        }
        if n == 2 {
            append_text(&mut v, text(vec![0x20]));
            append_text(&mut v, hex8_text(peek(ram, r.pc.wrapping_add(1))));
        }
        proof {
            assert(v@ =~= code_text(self.1, *r, old(ram).memory()));
        }
        v
    }

    /// The middle of a trace line as bytes.
    fn instruction_bytes<T: MemIO>(&self, r: &Registers, ram: &mut T) -> (v: Vec<u8>)
        requires
            full(old(ram).memory()),
        ensures
            v@ == instruction_text(*self, *r, old(ram).memory()),
            ascii(v@),
            *final(ram) == *old(ram),
    {
        let mut v = self.code_text(r, ram);
        pad_text(&mut v, 8);
        let mark: u8 = match self.2 {
            Officiality::Official => 0x20,
            Officiality::Unofficial => 0x2A,
        };
        append_text(&mut v, text(vec![0x20, mark]));
        append_text(&mut v, mnemonic_text(self.0));
        append_text(&mut v, text(vec![0x20]));
        let mut operand = self.1.operand_text(r, ram);
        append_text(&mut operand, self.resolved_text(r, ram));
        pad_text(&mut operand, 26);
        append_text(&mut v, operand);
        append_text(&mut v, text(vec![0x20]));
        proof {
            assert(v@ =~= instruction_text(*self, *r, old(ram).memory()));
        }
        v
    }

    /// The middle of a trace line: code bytes, `*` for an undocumented opcode, mnemonic and
    /// operand with what it resolves to, with PC at the byte after the opcode. Nothing on the
    /// bus or in the processor changes.
    pub fn log<T: MemIO>(&self, cpu: &mut CPU, mem: &mut T) -> (line: String)
        requires
            full(old(mem).memory()),
        ensures
            line@ == ascii_chars(instruction_text(*self, old(cpu).regs(), old(mem).memory())),
            *final(cpu) == *old(cpu),
            *final(mem) == *old(mem),
    {
        let r = cpu.registers();
        let v = self.instruction_bytes(&r, mem);
        ascii_string(&v)
    }
}

impl CPU {
    /// A whole trace line for `op`, with PC at the byte after its opcode: the fetch address,
    /// the instruction, then A, X, Y, the status byte (B clear, R set) and SP. Nothing on
    /// the bus or in the processor changes.
    pub fn log<T: MemIO>(&mut self, op: &OpCode, ram: &mut T) -> (line: String)
        requires
            full(old(ram).memory()),
        ensures
            line@ == ascii_chars(trace_text(*op, old(self).regs(), old(ram).memory())),
            *final(self) == *old(self),
            *final(ram) == *old(ram),
    {
        let r = self.registers();
        let mut v = hex16_text(self.pc.wrapping_sub(1));
        append_text(&mut v, text(vec![0x20, 0x20]));
        append_text(&mut v, op.instruction_bytes(&r, ram));
        append_text(&mut v, text(vec![0x20, 0x41, 0x3A]));
        append_text(&mut v, hex8_text(self.a));
        append_text(&mut v, text(vec![0x20, 0x58, 0x3A]));
        append_text(&mut v, hex8_text(self.x));
        append_text(&mut v, text(vec![0x20, 0x59, 0x3A]));
        append_text(&mut v, hex8_text(self.y));
        append_text(&mut v, text(vec![0x20, 0x50, 0x3A]));
        let mut shown = self.flags;
        shown.b = false;
        shown.r = true;
        append_text(&mut v, hex8_text(shown.get_as_u8()));
        append_text(&mut v, text(vec![0x20, 0x53, 0x50, 0x3A]));
        append_text(&mut v, hex8_text(self.sp));
        proof {
            assert(v@ =~= trace_text(*op, old(self).regs(), old(ram).memory()));
        }
        ascii_string(&v)
    }

    /// The trace line of the instruction at PC, before it is fetched; `None` where no opcode
    /// is defined there.
    pub fn trace<T: MemIO>(&self, ram: &mut T) -> (line: Option<String>)
        requires
            full(old(ram).memory()),
        ensures
            line is Some <==> opcode_at(self.regs(), old(ram).memory()) is Some,
            line matches Some(s) ==> s@ == ascii_chars(
                trace_text(opcode_at(self.regs(), old(ram).memory()).unwrap(), past_opcode(self.regs()), old(ram).memory()),
            ),
            *final(ram) == *old(ram),
    {
        let byte = peek(ram, self.pc);
        match decode(byte) {
            Some(op) => {
                let mut fetched = *self;
                fetched.pc = self.pc.wrapping_add(1);
                Some(fetched.log(&op, ram))
            },
            None => None,
        }
    }
}

} // verus!

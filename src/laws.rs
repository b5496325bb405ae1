use vstd::prelude::*;

use crate::cpu::{
    add8, full, negative, stack_addr, sub8, word, wrap16, Registers, StatusFlag,
};
use crate::instruction::{operand_word, AddressingMode, Instruction, OpCode, Officiality};
use crate::semantics::{dispatch_spec, exec_spec, fits, opcode_at};

verus! {

/// The value that an instruction leaves in the register it writes, if it writes A, X or Y.
pub open spec fn register_result(op: OpCode, out: Registers) -> Option<u8> {
    match op.0 {
        Instruction::LDA | Instruction::TXA | Instruction::TYA | Instruction::PLA | Instruction::AND
        | Instruction::EOR | Instruction::ORA | Instruction::ADC | Instruction::SBC | Instruction::LAX => Some(out.a),
        Instruction::ASL | Instruction::LSR | Instruction::ROL | Instruction::ROR => {
            if op.1 is Accumulator {
                Some(out.a)
            } else {
                None
            }
        },
        Instruction::LDX | Instruction::TAX | Instruction::TSX | Instruction::INX | Instruction::DEX => Some(out.x),
        Instruction::LDY | Instruction::TAY | Instruction::INY | Instruction::DEY => Some(out.y),
        _ => None,
    }
}

/// After every instruction that writes A, X or Y, Z is set exactly when the value written
/// is zero, and N equals its bit 7.
pub proof fn lemma_register_write_sets_zero_and_negative(op: OpCode, r: Registers, m: Seq<u8>)
    requires
        fits(op),
        full(m),
    ensures
        ({
            let out = exec_spec(op, r, m).0;
            register_result(op, out) matches Some(v) ==> out.flags.z == (v == 0) && out.flags.n == negative(v)
        }),
{
    match op.0 {
        Instruction::LDA => {},
        Instruction::LDX => {},
        Instruction::LDY => {},
        Instruction::LAX => {},
        Instruction::TAX => {},
        Instruction::TAY => {},
        Instruction::TXA => {},
        Instruction::TYA => {},
        Instruction::TSX => {},
        Instruction::PLA => {},
        Instruction::AND => {},
        Instruction::EOR => {},
        Instruction::ORA => {},
        Instruction::ADC => {},
        Instruction::SBC => {},
        Instruction::INX => {},
        Instruction::INY => {},
        Instruction::DEX => {},
        Instruction::DEY => {},
        Instruction::ASL => {},
        Instruction::LSR => {},
        Instruction::ROL => {},
        Instruction::ROR => {},
        _ => {},
    }
}

/// Bits 0 to 3, 6 and 7 of a packed status byte read back as the flags packed, whatever
/// bits 4 and 5 hold.
proof fn lemma_unpack_pack(c: bool, z: bool, i: bool, d: bool, b: bool, r: bool, v: bool, n: bool)
    ensures
        ({
            let byte = ((if c { 1u8 } else { 0u8 }) | (if z { 2u8 } else { 0u8 }) | (if i { 4u8 } else { 0u8 })
                | (if d { 8u8 } else { 0u8 }) | (if b { 16u8 } else { 0u8 }) | (if r { 32u8 } else { 0u8 })
                | (if v { 64u8 } else { 0u8 }) | (if n { 128u8 } else { 0u8 })) | 0x30u8;
            &&& ((byte >> 0u8) & 1u8 == 1u8) == c
            &&& ((byte >> 1u8) & 1u8 == 1u8) == z
            &&& ((byte >> 2u8) & 1u8 == 1u8) == i
            &&& ((byte >> 3u8) & 1u8 == 1u8) == d
            &&& ((byte >> 6u8) & 1u8 == 1u8) == v
            &&& ((byte >> 7u8) & 1u8 == 1u8) == n
        }),
{
    assert({
        let byte = ((if c { 1u8 } else { 0u8 }) | (if z { 2u8 } else { 0u8 }) | (if i { 4u8 } else { 0u8 })
            | (if d { 8u8 } else { 0u8 }) | (if b { 16u8 } else { 0u8 }) | (if r { 32u8 } else { 0u8 })
            | (if v { 64u8 } else { 0u8 }) | (if n { 128u8 } else { 0u8 })) | 0x30u8;
        &&& ((byte >> 0u8) & 1u8 == 1u8) == c
        &&& ((byte >> 1u8) & 1u8 == 1u8) == z
        &&& ((byte >> 2u8) & 1u8 == 1u8) == i
        &&& ((byte >> 3u8) & 1u8 == 1u8) == d
        &&& ((byte >> 6u8) & 1u8 == 1u8) == v
        &&& ((byte >> 7u8) & 1u8 == 1u8) == n
    }) by (bit_vector);
}

/// PHP then PLP gives back every flag but B and R exactly, B reads back clear and R set,
/// and SP returns to where it was.
pub proof fn lemma_php_plp_round_trip(r: Registers, m: Seq<u8>)
    requires
        full(m),
    ensures
        ({
            let pushed = exec_spec(OpCode(Instruction::PHP, AddressingMode::Implied, Officiality::Official), r, m);
            let pulled = exec_spec(
                OpCode(Instruction::PLP, AddressingMode::Implied, Officiality::Official),
                pushed.0,
                pushed.1,
            ).0;
            &&& pulled.flags == (StatusFlag { b: false, r: true, ..r.flags })
            &&& pulled.sp == r.sp
        }),
{
    let f = r.flags;
    lemma_unpack_pack(f.c, f.z, f.i, f.d, f.b, f.r, f.v, f.n);
    assert(add8(sub8(r.sp as int, 1) as int, 1) == r.sp);
}

/// SP and memory after pushing the bytes of `s` in order, as `CPU::push_to_stack` does.
pub open spec fn push_all(sp: u8, m: Seq<u8>, s: Seq<u8>) -> (u8, Seq<u8>)
    decreases s.len(),
{
    if s.len() == 0 {
        (sp, m)
    } else {
        let before = push_all(sp, m, s.drop_last());
        (sub8(before.0 as int, 1), before.1.update(stack_addr(before.0), s.last()))
    }
}

/// SP after pulling `k` bytes, as `CPU::pull_from_stack` does, and the bytes pulled in order.
pub open spec fn pull_all(sp: u8, m: Seq<u8>, k: nat) -> (u8, Seq<u8>)
    decreases k,
{
    if k == 0 {
        (sp, Seq::empty())
    } else {
        let up = add8(sp as int, 1);
        let rest = pull_all(up, m, (k - 1) as nat);
        (rest.0, seq![m[stack_addr(up)]] + rest.1)
    }
}

/// Pulling `k` bytes from `sp` reads only the slots `sp + 1` to `sp + k` modulo 256.
proof fn lemma_pull_frame(sp: u8, m: Seq<u8>, k: nat, slot: u8, v: u8)
    requires
        full(m),
        k < 0x100,
        !(1 <= (slot - sp) % 0x100 <= k),
    ensures
        pull_all(sp, m.update(stack_addr(slot), v), k) == pull_all(sp, m, k),
        pull_all(sp, m, k).0 == (sp + k) % 0x100,
    decreases k,
{
    if k > 0 {
        let up = add8(sp as int, 1);
        assert((slot - sp) % 0x100 == if slot >= sp { slot - sp } else { slot - sp + 0x100 });
        assert((slot - up) % 0x100 == if slot >= up { slot - up } else { slot - up + 0x100 });
        lemma_pull_frame(up, m, (k - 1) as nat, slot, v);
        assert((up + (k - 1)) % 0x100 == (sp + k) % 0x100);
    }
}

/// Pushing up to 256 bytes and then pulling as many gives them back last in, first out,
/// and SP returns to where it started; SP wraps modulo 256 throughout.
pub proof fn lemma_stack_round_trip(sp: u8, m: Seq<u8>, s: Seq<u8>)
    requires
        full(m),
        s.len() <= 0x100,
    ensures
        push_all(sp, m, s).0 == (sp - s.len()) % 0x100,
        full(push_all(sp, m, s).1),
        pull_all(push_all(sp, m, s).0, push_all(sp, m, s).1, s.len()) == (sp, s.reverse()),
    decreases s.len(),
{
    if s.len() > 0 {
        let rest = s.drop_last();
        lemma_stack_round_trip(sp, m, rest);
        let before = push_all(sp, m, rest);
        let n = rest.len();
        let q = before.0;
        lemma_pull_frame(q, before.1, n, q, s.last());
        let after = push_all(sp, m, s);
        assert(add8(after.0 as int, 1) == q);
        assert(s.reverse() =~= seq![s.last()] + rest.reverse());
    } else {
        assert(s.reverse() =~= s);
    }
}

/// JSR followed at its target by RTS returns to the instruction after the JSR's operand:
/// PC three past the JSR opcode, SP where it was.
pub proof fn lemma_jsr_then_rts(r: Registers, m: Seq<u8>)
    requires
        full(m),
        opcode_at(r, m) == Some(OpCode(Instruction::JSR, AddressingMode::Absolute, Officiality::Official)),
        ({
            let called = dispatch_spec(r, m);
            opcode_at(called.0, called.1) == Some(
                OpCode(Instruction::RTS, AddressingMode::Implied, Officiality::Official),
            )
        }),
    ensures
        ({
            let called = dispatch_spec(r, m);
            let back = dispatch_spec(called.0, called.1).0;
            back.pc == wrap16(r.pc + 3) && back.sp == r.sp
        }),
{
    let called = dispatch_spec(r, m);
    let ret = wrap16(wrap16(wrap16(r.pc + 1) + 2) - 1);
    assert(add8(sub8(sub8(r.sp as int, 1) as int, 1) as int, 1) == sub8(r.sp as int, 1));
    assert(add8(sub8(r.sp as int, 1) as int, 1) == r.sp);
    assert(word((ret % 0x100) as u8, (ret / 0x100) as u8) == ret);
}

/// An indirect JMP through a pointer at `$xxFF` takes the target's high byte from `$xx00`,
/// not from the next page.
pub proof fn lemma_indirect_jump_page_wrap(r: Registers, m: Seq<u8>)
    requires
        full(m),
        m[r.pc as int] == 0xFF,
    ensures
        ({
            let p = operand_word(r, m);
            exec_spec(OpCode(Instruction::JMP, AddressingMode::Indirect, Officiality::Official), r, m).0.pc
                == word(m[p as int], m[p - 0xFF])
        }),
{
}

} // verus!

use mos6502::cpu::CPU;
use mos6502::instruction::{AddressingMode, Instruction, OpCode, Officiality};
use mos6502::ram::{MemIO, RAM};

#[test]
fn test_lda() {
    let mut cpu = CPU::default();
    let mut ram = RAM::default();

    cpu.pc = 0x8000;
    ram.write_byte(0x8000, 0b10000010);
    OpCode(Instruction::LDA, AddressingMode::Immediate, Officiality::Official).execute(&mut cpu, &mut ram);
    assert_eq!(cpu.a, 0b10000010);
    assert_eq!(cpu.flags.z, false);
    assert_eq!(cpu.flags.n, true);

    cpu.pc = 0x8000;
    ram.write_byte(0x8000, 0);
    OpCode(Instruction::LDA, AddressingMode::Immediate, Officiality::Official).execute(&mut cpu, &mut ram);
    assert_eq!(cpu.a, 0);
    assert_eq!(cpu.flags.z, true);
    assert_eq!(cpu.flags.n, false);

    cpu.pc = 0x8000;
    ram.write_byte(0x8000, 1);
    OpCode(Instruction::LDA, AddressingMode::Immediate, Officiality::Official).execute(&mut cpu, &mut ram);
    assert_eq!(cpu.a, 1);
    assert_eq!(cpu.flags.z, false);
    assert_eq!(cpu.flags.n, false);
}

#[test]
fn test_ldx() {
    let mut cpu = CPU::default();
    let mut ram = RAM::default();

    cpu.pc = 0x8000;
    ram.write_byte(0x8000, 0b10000010);
    OpCode(Instruction::LDX, AddressingMode::Immediate, Officiality::Official).execute(&mut cpu, &mut ram);
    assert_eq!(cpu.x, 0b10000010);
    assert_eq!(cpu.flags.z, false);
    assert_eq!(cpu.flags.n, true);

    cpu.pc = 0x8000;
    ram.write_byte(0x8000, 0);
    OpCode(Instruction::LDX, AddressingMode::Immediate, Officiality::Official).execute(&mut cpu, &mut ram);
    assert_eq!(cpu.x, 0);
    assert_eq!(cpu.flags.z, true);
    assert_eq!(cpu.flags.n, false);

    cpu.pc = 0x8000;
    ram.write_byte(0x8000, 1);
    OpCode(Instruction::LDX, AddressingMode::Immediate, Officiality::Official).execute(&mut cpu, &mut ram);
    assert_eq!(cpu.x, 1);
    assert_eq!(cpu.flags.z, false);
    assert_eq!(cpu.flags.n, false);
}

#[test]
fn test_ldy() {
    let mut cpu = CPU::default();
    let mut ram = RAM::default();

    cpu.pc = 0x8000;
    ram.write_byte(0x8000, 0b10000010);
    OpCode(Instruction::LDY, AddressingMode::Immediate, Officiality::Official).execute(&mut cpu, &mut ram);
    assert_eq!(cpu.y, 0b10000010);
    assert_eq!(cpu.flags.z, false);
    assert_eq!(cpu.flags.n, true);

    cpu.pc = 0x8000;
    ram.write_byte(0x8000, 0);
    OpCode(Instruction::LDY, AddressingMode::Immediate, Officiality::Official).execute(&mut cpu, &mut ram);
    assert_eq!(cpu.y, 0);
    assert_eq!(cpu.flags.z, true);
    assert_eq!(cpu.flags.n, false);

    cpu.pc = 0x8000;
    ram.write_byte(0x8000, 1);
    OpCode(Instruction::LDY, AddressingMode::Immediate, Officiality::Official).execute(&mut cpu, &mut ram);
    assert_eq!(cpu.y, 1);
    assert_eq!(cpu.flags.z, false);
    assert_eq!(cpu.flags.n, false);
}

#[test]
fn test_sta() {
    let mut cpu = CPU::default();
    let mut ram = RAM::default();

    cpu.pc = 0x8000;
    cpu.a = 0x42;
    ram.write_byte(0x8000, 0x0);
    OpCode(Instruction::STA, AddressingMode::ZeroPage, Officiality::Official).execute(&mut cpu, &mut ram);
    assert_eq!(ram.read_byte(0x0), 0x42);
}

#[test]
fn test_stx() {
    let mut cpu = CPU::default();
    let mut ram = RAM::default();

    cpu.pc = 0x8000;
    cpu.x = 0x42;
    ram.write_byte(0x8000, 0x0);
    OpCode(Instruction::STX, AddressingMode::ZeroPage, Officiality::Official).execute(&mut cpu, &mut ram);
    assert_eq!(ram.read_byte(0x0), 0x42);
}

#[test]
fn test_sty() {
    let mut cpu = CPU::default();
    let mut ram = RAM::default();

    cpu.pc = 0x8000;
    cpu.y = 0x42;
    ram.write_byte(0x8000, 0x0);
    OpCode(Instruction::STY, AddressingMode::ZeroPage, Officiality::Official).execute(&mut cpu, &mut ram);
    assert_eq!(ram.read_byte(0x0), 0x42);
}

#[test]
fn test_tax() {
    let mut cpu = CPU::default();
    let mut ram = RAM::default();

    cpu.a = 0x42;
    cpu.x = 0;
    OpCode(Instruction::TAX, AddressingMode::Implied, Officiality::Official).execute(&mut cpu, &mut ram);
    assert_eq!(cpu.x, 0x42);
}

#[test]
fn test_tay() {
    let mut cpu = CPU::default();
    let mut ram = RAM::default();

    cpu.a = 0x42;
    cpu.y = 0;
    OpCode(Instruction::TAY, AddressingMode::Implied, Officiality::Official).execute(&mut cpu, &mut ram);
    assert_eq!(cpu.y, 0x42);
}

#[test]
fn test_txa() {
    let mut cpu = CPU::default();
    let mut ram = RAM::default();

    cpu.x = 0x42;
    cpu.a = 0;
    OpCode(Instruction::TXA, AddressingMode::Implied, Officiality::Official).execute(&mut cpu, &mut ram);
    assert_eq!(cpu.a, 0x42);
}

#[test]
fn test_tya() {
    let mut cpu = CPU::default();
    let mut ram = RAM::default();

    cpu.y = 0x42;
    cpu.a = 0;
    OpCode(Instruction::TYA, AddressingMode::Implied, Officiality::Official).execute(&mut cpu, &mut ram);
    assert_eq!(cpu.a, 0x42);
}

#[test]
fn test_tsx() {
    let mut cpu = CPU::default();
    let mut ram = RAM::default();

    cpu.sp = 0x42;
    cpu.x = 0;
    OpCode(Instruction::TSX, AddressingMode::Implied, Officiality::Official).execute(&mut cpu, &mut ram);
    assert_eq!(cpu.x, 0x42);
}

#[test]
fn test_txs() {
    let mut cpu = CPU::default();
    let mut ram = RAM::default();

    cpu.x = 0x42;
    cpu.sp = 0;
    OpCode(Instruction::TXS, AddressingMode::Implied, Officiality::Official).execute(&mut cpu, &mut ram);
    assert_eq!(cpu.sp, 0x42);
}

#[test]
fn test_pha() {
    let mut cpu = CPU::default();
    let mut ram = RAM::default();

    cpu.sp = 0xFF;
    cpu.pc = 0x8000;
    cpu.a = 0x42;
    OpCode(Instruction::PHA, AddressingMode::Implied, Officiality::Official).execute(&mut cpu, &mut ram);
    assert_eq!(cpu.sp, 0xFE);
    assert_eq!(ram.read_byte(0x1FF), 0x42);
}

#[test]
fn test_pla() {
    let mut cpu = CPU::default();
    let mut ram = RAM::default();

    cpu.sp = 0xFE;
    cpu.pc = 0x8000;
    cpu.a = 0;
    ram.write_byte(0x1FF, 0x42);
    OpCode(Instruction::PLA, AddressingMode::Implied, Officiality::Official).execute(&mut cpu, &mut ram);
    assert_eq!(cpu.sp, 0xFF);
    assert_eq!(cpu.a, 0x42);
}

#[test]
fn test_php() {
    let mut cpu = CPU::default();
    let mut ram = RAM::default();

    cpu.sp = 0xFF;
    cpu.flags.c = true;
    cpu.flags.r = true;

    OpCode(Instruction::PHP, AddressingMode::Implied, Officiality::Official).execute(&mut cpu, &mut ram);
    assert_eq!(cpu.sp, 0xFE);
    assert_eq!(ram.read_byte(0x1FF), 0b00110001);
}

#[test]
fn test_plp() {
    let mut cpu = CPU::default();
    let mut ram = RAM::default();

    cpu.sp = 0xFE;
    cpu.flags.c = false;
    cpu.flags.r = false;
    ram.write_byte(0x1FF, 0b00100001);

    OpCode(Instruction::PLP, AddressingMode::Implied, Officiality::Official).execute(&mut cpu, &mut ram);
    assert_eq!(cpu.sp, 0xFF);
    assert_eq!(cpu.flags.c, true);
    assert_eq!(cpu.flags.r, true);
}

#[test]
fn test_and() {
    let mut cpu = CPU::default();
    let mut ram = RAM::default();

    cpu.pc = 0x8000;
    cpu.a = 0b00011000;
    ram.write_byte(0x8000, 0b00001111);

    OpCode(Instruction::AND, AddressingMode::Immediate, Officiality::Official).execute(&mut cpu, &mut ram);
    assert_eq!(cpu.a, 0b00001000);
    assert_eq!(cpu.flags.z, false);
    assert_eq!(cpu.flags.n, false);
}

#[test]
fn test_eor() {
    let mut cpu = CPU::default();
    let mut ram = RAM::default();

    cpu.pc = 0x8000;
    cpu.a = 0b00001111;
    ram.write_byte(0x8000, 0b00001000);

    OpCode(Instruction::EOR, AddressingMode::Immediate, Officiality::Official).execute(&mut cpu, &mut ram);
    assert_eq!(cpu.a, 0b00000111);
    assert_eq!(cpu.flags.z, false);
    assert_eq!(cpu.flags.n, false);
}

#[test]
fn test_ora() {
    let mut cpu = CPU::default();
    let mut ram = RAM::default();

    cpu.pc = 0x8000;
    cpu.a = 0b00001111;
    ram.write_byte(0x8000, 0b11110000);

    OpCode(Instruction::ORA, AddressingMode::Immediate, Officiality::Official).execute(&mut cpu, &mut ram);
    assert_eq!(cpu.a, 0b11111111);
    assert_eq!(cpu.flags.z, false);
    assert_eq!(cpu.flags.n, true);
}

#[test]
fn test_bit() {
    let mut cpu = CPU::default();
    let mut ram = RAM::default();

    cpu.pc = 0x8000;
    cpu.a = 0;
    ram.write_byte(0x1, 0);
    ram.write_byte(0x8000, 0x1);

    OpCode(Instruction::BIT, AddressingMode::ZeroPage, Officiality::Official).execute(&mut cpu, &mut ram);
    assert_eq!(cpu.flags.z, true);
    assert_eq!(cpu.flags.v, false);
    assert_eq!(cpu.flags.n, false);

    cpu.pc = 0x8000;
    cpu.a = 0;
    ram.write_byte(0x1, 0b11000000);
    ram.write_byte(0x8000, 0x1);

    OpCode(Instruction::BIT, AddressingMode::ZeroPage, Officiality::Official).execute(&mut cpu, &mut ram);
    assert_eq!(cpu.flags.z, true);
    assert_eq!(cpu.flags.v, true);
    assert_eq!(cpu.flags.n, true);
}

#[test]
fn test_adc() {
    let mut cpu = CPU::default();
    let mut ram = RAM::default();

    cpu.a = 0x20;
    cpu.pc = 0x8000;
    cpu.flags.c = false;
    ram.write_byte(0x8000, 0x10);
    OpCode(Instruction::ADC, AddressingMode::Immediate, Officiality::Official).execute(&mut cpu, &mut ram);
    assert_eq!(cpu.a, 0x30);
    assert_eq!(cpu.flags.c, false);

    cpu.a = 0xFF;
    cpu.pc = 0x8000;
    cpu.flags.c = true;
    ram.write_byte(0x8000, 1);
    OpCode(Instruction::ADC, AddressingMode::Immediate, Officiality::Official).execute(&mut cpu, &mut ram);
    assert_eq!(cpu.a, 1);
    assert_eq!(cpu.flags.c, true);
}

#[test]
fn test_sbc() {
    let mut cpu = CPU::default();
    let mut ram = RAM::default();

    cpu.a = 0x30;
    cpu.pc = 0x8000;
    cpu.flags.c = true;
    ram.write_byte(0x8000, 0x10);
    OpCode(Instruction::SBC, AddressingMode::Immediate, Officiality::Official).execute(&mut cpu, &mut ram);
    assert_eq!(cpu.a, 0x20);
    assert_eq!(cpu.flags.c, true);

    cpu.a = 0x00;
    cpu.pc = 0x8000;
    cpu.flags.c = false;
    ram.write_byte(0x8000, 1);
    OpCode(Instruction::SBC, AddressingMode::Immediate, Officiality::Official).execute(&mut cpu, &mut ram);
    assert_eq!(cpu.a, 0xFE);
    assert_eq!(cpu.flags.c, false);
}

#[test]
fn test_cmp() {
    let mut cpu = CPU::default();
    let mut ram = RAM::default();

    cpu.a = 0x10;
    cpu.pc = 0x8000;
    ram.write_byte(0x8000, 0x10);
    OpCode(Instruction::CMP, AddressingMode::Immediate, Officiality::Official).execute(&mut cpu, &mut ram);
    assert_eq!(cpu.flags.c, true);
    assert_eq!(cpu.flags.z, true);
    assert_eq!(cpu.flags.n, false);

    cpu.a = 0x10;
    cpu.pc = 0x8000;
    ram.write_byte(0x8000, 0x20);
    OpCode(Instruction::CMP, AddressingMode::Immediate, Officiality::Official).execute(&mut cpu, &mut ram);
    assert_eq!(cpu.flags.c, false);
    assert_eq!(cpu.flags.z, false);
    assert_eq!(cpu.flags.n, true);
}

#[test]
fn test_cpx() {
    let mut cpu = CPU::default();
    let mut ram = RAM::default();

    cpu.x = 0x10;
    cpu.pc = 0x8000;
    ram.write_byte(0x8000, 0x10);
    OpCode(Instruction::CPX, AddressingMode::Immediate, Officiality::Official).execute(&mut cpu, &mut ram);
    assert_eq!(cpu.flags.c, true);
    assert_eq!(cpu.flags.z, true);
    assert_eq!(cpu.flags.n, false);

    cpu.x = 0x10;
    cpu.pc = 0x8000;
    ram.write_byte(0x8000, 0x20);
    OpCode(Instruction::CPX, AddressingMode::Immediate, Officiality::Official).execute(&mut cpu, &mut ram);
    assert_eq!(cpu.flags.c, false);
    assert_eq!(cpu.flags.z, false);
    assert_eq!(cpu.flags.n, true);
}

#[test]
fn test_cpy() {
    let mut cpu = CPU::default();
    let mut ram = RAM::default();

    cpu.y = 0x10;
    cpu.pc = 0x8000;
    ram.write_byte(0x8000, 0x10);
    OpCode(Instruction::CPY, AddressingMode::Immediate, Officiality::Official).execute(&mut cpu, &mut ram);
    assert_eq!(cpu.flags.c, true);
    assert_eq!(cpu.flags.z, true);
    assert_eq!(cpu.flags.n, false);

    cpu.y = 0x10;
    cpu.pc = 0x8000;
    ram.write_byte(0x8000, 0x20);
    OpCode(Instruction::CPY, AddressingMode::Immediate, Officiality::Official).execute(&mut cpu, &mut ram);
    assert_eq!(cpu.flags.c, false);
    assert_eq!(cpu.flags.z, false);
    assert_eq!(cpu.flags.n, true);
}

#[test]
fn test_inc() {
    let mut cpu = CPU::default();
    let mut ram = RAM::default();

    cpu.pc = 0x8000;
    ram.write_byte(0x8000, 0x00);
    ram.write_byte(0x00, 0xFE);
    OpCode(Instruction::INC, AddressingMode::ZeroPage, Officiality::Official).execute(&mut cpu, &mut ram);
    assert_eq!(ram.read_byte(0x00), 0xFF);
    assert_eq!(cpu.flags.z, false);
    assert_eq!(cpu.flags.n, true);

    cpu.pc = 0x8000;
    ram.write_byte(0x8000, 0x00);
    ram.write_byte(0x00, 0xFF);
    OpCode(Instruction::INC, AddressingMode::ZeroPage, Officiality::Official).execute(&mut cpu, &mut ram);
    assert_eq!(ram.read_byte(0x00), 0x00);
    assert_eq!(cpu.flags.z, true);
    assert_eq!(cpu.flags.n, false);
}

#[test]
fn test_inx() {
    let mut cpu = CPU::default();
    let mut ram = RAM::default();

    cpu.x = 0xFE;
    OpCode(Instruction::INX, AddressingMode::Implied, Officiality::Official).execute(&mut cpu, &mut ram);
    assert_eq!(cpu.x, 0xFF);
    assert_eq!(cpu.flags.z, false);
    assert_eq!(cpu.flags.n, true);

    cpu.x = 0xFF;
    OpCode(Instruction::INX, AddressingMode::Implied, Officiality::Official).execute(&mut cpu, &mut ram);
    assert_eq!(cpu.x, 0x00);
    assert_eq!(cpu.flags.z, true);
    assert_eq!(cpu.flags.n, false);
}

#[test]
fn test_iny() {
    let mut cpu = CPU::default();
    let mut ram = RAM::default();

    cpu.y = 0xFE;
    OpCode(Instruction::INY, AddressingMode::Implied, Officiality::Official).execute(&mut cpu, &mut ram);
    assert_eq!(cpu.y, 0xFF);
    assert_eq!(cpu.flags.z, false);
    assert_eq!(cpu.flags.n, true);

    cpu.y = 0xFF;
    OpCode(Instruction::INY, AddressingMode::Implied, Officiality::Official).execute(&mut cpu, &mut ram);
    assert_eq!(cpu.y, 0x00);
    assert_eq!(cpu.flags.z, true);
    assert_eq!(cpu.flags.n, false);
}

#[test]
fn test_dec() {
    let mut cpu = CPU::default();
    let mut ram = RAM::default();

    cpu.pc = 0x8000;
    ram.write_byte(0x8000, 0x00);
    ram.write_byte(0x00, 0x01);
    OpCode(Instruction::DEC, AddressingMode::ZeroPage, Officiality::Official).execute(&mut cpu, &mut ram);
    assert_eq!(ram.read_byte(0x00), 0x00);
    assert_eq!(cpu.flags.z, true);
    assert_eq!(cpu.flags.n, false);

    cpu.pc = 0x8000;
    ram.write_byte(0x8000, 0x00);
    ram.write_byte(0x00, 0x00);
    OpCode(Instruction::DEC, AddressingMode::ZeroPage, Officiality::Official).execute(&mut cpu, &mut ram);
    assert_eq!(ram.read_byte(0x00), 0xFF);
    assert_eq!(cpu.flags.z, false);
    assert_eq!(cpu.flags.n, true);
}

#[test]
fn test_dex() {
    let mut cpu = CPU::default();
    let mut ram = RAM::default();

    cpu.x = 0x01;
    OpCode(Instruction::DEX, AddressingMode::Implied, Officiality::Official).execute(&mut cpu, &mut ram);
    assert_eq!(cpu.x, 0x00);

    cpu.x = 0x00;
    OpCode(Instruction::DEX, AddressingMode::Implied, Officiality::Official).execute(&mut cpu, &mut ram);
    assert_eq!(cpu.x, 0xFF);
}

#[test]
fn test_dey() {
    let mut cpu = CPU::default();
    let mut ram = RAM::default();

    cpu.y = 0x01;
    OpCode(Instruction::DEY, AddressingMode::Implied, Officiality::Official).execute(&mut cpu, &mut ram);
    assert_eq!(cpu.y, 0x00);

    cpu.y = 0x00;
    OpCode(Instruction::DEY, AddressingMode::Implied, Officiality::Official).execute(&mut cpu, &mut ram);
    assert_eq!(cpu.y, 0xFF);
}

#[test]
fn test_asl() {
    let mut cpu = CPU::default();
    let mut ram = RAM::default();

    cpu.a = 0b10111111;
    OpCode(Instruction::ASL, AddressingMode::Accumulator, Officiality::Official).execute(&mut cpu, &mut ram);
    assert_eq!(cpu.a, 0b01111110);
    assert_eq!(cpu.flags.c, true);

    cpu.pc = 0x8000;
    ram.write_byte(0x8000, 0x01);
    ram.write_byte(0x01, 0b01000000);
    OpCode(Instruction::ASL, AddressingMode::ZeroPage, Officiality::Official).execute(&mut cpu, &mut ram);
    assert_eq!(ram.read_byte(0x01), 0b10000000);
    assert_eq!(cpu.flags.c, false);
}

#[test]
fn test_lsr() {
    let mut cpu = CPU::default();
    let mut ram = RAM::default();

    cpu.a = 0b11111101;
    OpCode(Instruction::LSR, AddressingMode::Accumulator, Officiality::Official).execute(&mut cpu, &mut ram);
    assert_eq!(cpu.a, 0b01111110);
    assert_eq!(cpu.flags.c, true);

    cpu.pc = 0x8000;
    ram.write_byte(0x8000, 0x01);
    ram.write_byte(0x01, 0b00000010);
    OpCode(Instruction::LSR, AddressingMode::ZeroPage, Officiality::Official).execute(&mut cpu, &mut ram);
    assert_eq!(ram.read_byte(0x01), 0b00000001);
    assert_eq!(cpu.flags.c, false);
}

#[test]
fn test_rol() {
    let mut cpu = CPU::default();
    let mut ram = RAM::default();

    cpu.a = 0b10111111;
    cpu.flags.c = true;
    OpCode(Instruction::ROL, AddressingMode::Accumulator, Officiality::Official).execute(&mut cpu, &mut ram);
    assert_eq!(cpu.a, 0b01111111);
    assert_eq!(cpu.flags.c, true);

    cpu.pc = 0x8000;
    cpu.flags.c = false;
    ram.write_byte(0x8000, 0x01);
    ram.write_byte(0x01, 0b01000000);
    OpCode(Instruction::ROL, AddressingMode::ZeroPage, Officiality::Official).execute(&mut cpu, &mut ram);
    assert_eq!(ram.read_byte(0x01), 0b10000000);
    assert_eq!(cpu.flags.c, false);
}

#[test]
fn test_ror() {
    let mut cpu = CPU::default();
    let mut ram = RAM::default();

    cpu.a = 0b11111101;
    cpu.flags.c = true;
    OpCode(Instruction::ROR, AddressingMode::Accumulator, Officiality::Official).execute(&mut cpu, &mut ram);
    assert_eq!(cpu.a, 0b11111110);
    assert_eq!(cpu.flags.c, true);

    cpu.pc = 0x8000;
    cpu.flags.c = false;
    ram.write_byte(0x8000, 0x01);
    ram.write_byte(0x01, 0b00000010);
    OpCode(Instruction::ROR, AddressingMode::ZeroPage, Officiality::Official).execute(&mut cpu, &mut ram);
    assert_eq!(ram.read_byte(0x01), 0b00000001);
    assert_eq!(cpu.flags.c, false);
}

#[test]
fn test_jmp() {
    let mut cpu = CPU::default();
    let mut ram = RAM::default();

    cpu.pc = 0x8000;
    ram.write_byte(0x8000, 0x02);
    ram.write_byte(0x8001, 0x01);
    OpCode(Instruction::JMP, AddressingMode::Absolute, Officiality::Official).execute(&mut cpu, &mut ram);
    assert_eq!(cpu.pc, 0x0102);

    cpu.pc = 0x8000;
    ram.write_byte(0x8000, 0x02);
    ram.write_byte(0x8001, 0x01);
    ram.write_byte(0x0102, 0x04);
    ram.write_byte(0x0103, 0x03);
    OpCode(Instruction::JMP, AddressingMode::Indirect, Officiality::Official).execute(&mut cpu, &mut ram);
    assert_eq!(cpu.pc, 0x0304);
}

#[test]
fn test_jsr() {
    let mut cpu = CPU::default();
    let mut ram = RAM::default();

    cpu.pc = 0x8001;
    cpu.sp = 0xFF;
    ram.write_byte(0x8001, 0x02);
    ram.write_byte(0x8002, 0x01);
    OpCode(Instruction::JSR, AddressingMode::Absolute, Officiality::Official).execute(&mut cpu, &mut ram);
    assert_eq!(cpu.pc, 0x0102);
    assert_eq!(ram.read_byte(0x01FF), 0x80);
    assert_eq!(ram.read_byte(0x01FE), 0x02);
}

#[test]
fn test_rts() {
    let mut cpu = CPU::default();
    let mut ram = RAM::default();

    cpu.pc = 0x8000;
    cpu.sp = 0xFD;
    ram.write_byte(0x01FE, 0x02);
    ram.write_byte(0x01FF, 0x01);
    OpCode(Instruction::RTS, AddressingMode::Implied, Officiality::Official).execute(&mut cpu, &mut ram);
    assert_eq!(cpu.pc, 0x0103);
}

#[test]
fn test_bcc() {
    let mut cpu = CPU::default();
    let mut ram = RAM::default();

    cpu.pc = 0x8001;
    cpu.flags.c = false;
    ram.write_byte(0x8001, 0x02_i8 as u8);
    OpCode(Instruction::BCC, AddressingMode::Relative, Officiality::Official).execute(&mut cpu, &mut ram);
    assert_eq!(cpu.pc, 0x8004);

    cpu.pc = 0x8001;
    cpu.flags.c = true;
    ram.write_byte(0x8001, 0x02_i8 as u8);
    OpCode(Instruction::BCC, AddressingMode::Relative, Officiality::Official).execute(&mut cpu, &mut ram);
    assert_eq!(cpu.pc, 0x8002);
}

#[test]
fn test_bcs() {
    let mut cpu = CPU::default();
    let mut ram = RAM::default();

    cpu.pc = 0x8001;
    cpu.flags.c = true;
    ram.write_byte(0x8001, 0x02_i8 as u8);
    OpCode(Instruction::BCS, AddressingMode::Relative, Officiality::Official).execute(&mut cpu, &mut ram);
    assert_eq!(cpu.pc, 0x8004);

    cpu.pc = 0x8001;
    cpu.flags.c = false;
    ram.write_byte(0x8001, 0x02_i8 as u8);
    OpCode(Instruction::BCS, AddressingMode::Relative, Officiality::Official).execute(&mut cpu, &mut ram);
    assert_eq!(cpu.pc, 0x8002);
}

#[test]
fn test_bne() {
    let mut cpu = CPU::default();
    let mut ram = RAM::default();

    cpu.pc = 0x8001;
    cpu.flags.z = false;
    ram.write_byte(0x8001, 0x02_i8 as u8);
    OpCode(Instruction::BNE, AddressingMode::Relative, Officiality::Official).execute(&mut cpu, &mut ram);
    assert_eq!(cpu.pc, 0x8004);

    cpu.pc = 0x8001;
    cpu.flags.z = true;
    ram.write_byte(0x8001, 0x02_i8 as u8);
    OpCode(Instruction::BNE, AddressingMode::Relative, Officiality::Official).execute(&mut cpu, &mut ram);
    assert_eq!(cpu.pc, 0x8002);
}

#[test]
fn test_beq() {
    let mut cpu = CPU::default();
    let mut ram = RAM::default();

    cpu.pc = 0x8001;
    cpu.flags.z = true;
    ram.write_byte(0x8001, 0x02_i8 as u8);
    OpCode(Instruction::BEQ, AddressingMode::Relative, Officiality::Official).execute(&mut cpu, &mut ram);
    assert_eq!(cpu.pc, 0x8004);

    cpu.pc = 0x8001;
    cpu.flags.z = false;
    ram.write_byte(0x8001, 0x02_i8 as u8);
    OpCode(Instruction::BEQ, AddressingMode::Relative, Officiality::Official).execute(&mut cpu, &mut ram);
    assert_eq!(cpu.pc, 0x8002);
}

#[test]
fn test_bpl() {
    let mut cpu = CPU::default();
    let mut ram = RAM::default();

    cpu.pc = 0x8001;
    cpu.flags.n = false;
    ram.write_byte(0x8001, 0x02_i8 as u8);
    OpCode(Instruction::BPL, AddressingMode::Relative, Officiality::Official).execute(&mut cpu, &mut ram);
    assert_eq!(cpu.pc, 0x8004);

    cpu.pc = 0x8001;
    cpu.flags.n = true;
    ram.write_byte(0x8001, 0x02_i8 as u8);
    OpCode(Instruction::BPL, AddressingMode::Relative, Officiality::Official).execute(&mut cpu, &mut ram);
    assert_eq!(cpu.pc, 0x8002);
}

#[test]
fn test_bmi() {
    let mut cpu = CPU::default();
    let mut ram = RAM::default();

    cpu.pc = 0x8001;
    cpu.flags.n = true;
    ram.write_byte(0x8001, 0x02_i8 as u8);
    OpCode(Instruction::BMI, AddressingMode::Relative, Officiality::Official).execute(&mut cpu, &mut ram);
    assert_eq!(cpu.pc, 0x8004);

    cpu.pc = 0x8001;
    cpu.flags.n = false;
    ram.write_byte(0x8001, 0x02_i8 as u8);
    OpCode(Instruction::BMI, AddressingMode::Relative, Officiality::Official).execute(&mut cpu, &mut ram);
    assert_eq!(cpu.pc, 0x8002);
}

#[test]
fn test_bvc() {
    let mut cpu = CPU::default();
    let mut ram = RAM::default();

    cpu.pc = 0x8001;
    cpu.flags.v = false;
    ram.write_byte(0x8001, 0x02_i8 as u8);
    OpCode(Instruction::BVC, AddressingMode::Relative, Officiality::Official).execute(&mut cpu, &mut ram);
    assert_eq!(cpu.pc, 0x8004);

    cpu.pc = 0x8001;
    cpu.flags.v = true;
    ram.write_byte(0x8001, 0x02_i8 as u8);
    OpCode(Instruction::BVC, AddressingMode::Relative, Officiality::Official).execute(&mut cpu, &mut ram);
    assert_eq!(cpu.pc, 0x8002);
}

#[test]
fn test_bvs() {
    let mut cpu = CPU::default();
    let mut ram = RAM::default();

    cpu.pc = 0x8001;
    cpu.flags.v = true;
    ram.write_byte(0x8001, 0x02_i8 as u8);
    OpCode(Instruction::BVS, AddressingMode::Relative, Officiality::Official).execute(&mut cpu, &mut ram);
    assert_eq!(cpu.pc, 0x8004);

    cpu.pc = 0x8001;
    cpu.flags.v = false;
    ram.write_byte(0x8001, 0x02_i8 as u8);
    OpCode(Instruction::BVS, AddressingMode::Relative, Officiality::Official).execute(&mut cpu, &mut ram);
    assert_eq!(cpu.pc, 0x8002);
}

#[test]
fn test_clc() {
    let mut cpu = CPU::default();
    let mut ram = RAM::default();

    cpu.flags.c = true;
    OpCode(Instruction::CLC, AddressingMode::Implied, Officiality::Official).execute(&mut cpu, &mut ram);
    assert_eq!(cpu.flags.c, false);
}

#[test]
fn test_cld() {
    let mut cpu = CPU::default();
    let mut ram = RAM::default();

    cpu.flags.d = true;
    OpCode(Instruction::CLD, AddressingMode::Implied, Officiality::Official).execute(&mut cpu, &mut ram);
    assert_eq!(cpu.flags.d, false);
}

#[test]
fn test_cli() {
    let mut cpu = CPU::default();
    let mut ram = RAM::default();

    cpu.flags.i = true;
    OpCode(Instruction::CLI, AddressingMode::Implied, Officiality::Official).execute(&mut cpu, &mut ram);
    assert_eq!(cpu.flags.i, false);
}

#[test]
fn test_clv() {
    let mut cpu = CPU::default();
    let mut ram = RAM::default();

    cpu.flags.v = true;
    OpCode(Instruction::CLV, AddressingMode::Implied, Officiality::Official).execute(&mut cpu, &mut ram);
    assert_eq!(cpu.flags.v, false);
}

#[test]
fn test_sec() {
    let mut cpu = CPU::default();
    let mut ram = RAM::default();

    cpu.flags.c = false;
    OpCode(Instruction::SEC, AddressingMode::Implied, Officiality::Official).execute(&mut cpu, &mut ram);
    assert_eq!(cpu.flags.c, true);
}

#[test]
fn test_sed() {
    let mut cpu = CPU::default();
    let mut ram = RAM::default();

    cpu.flags.d = false;
    OpCode(Instruction::SED, AddressingMode::Implied, Officiality::Official).execute(&mut cpu, &mut ram);
    assert_eq!(cpu.flags.d, true);
}

#[test]
fn test_sei() {
    let mut cpu = CPU::default();
    let mut ram = RAM::default();

    cpu.flags.i = false;
    OpCode(Instruction::SEI, AddressingMode::Implied, Officiality::Official).execute(&mut cpu, &mut ram);
    assert_eq!(cpu.flags.i, true);
}

#[test]
fn test_brk() {
    let mut cpu = CPU::default();
    let mut ram = RAM::default();

    cpu.pc = 0x8000;
    cpu.sp = 0xFF;
    OpCode(Instruction::BRK, AddressingMode::Implied, Officiality::Official).execute(&mut cpu, &mut ram);
    // BRK skips the byte after its opcode: the pushed return address is $8001
    assert_eq!(ram.read_byte(0x01FE), 0x01);
    assert_eq!(ram.read_byte(0x01FF), 0x80);
    assert_eq!(ram.read_byte(0x01FD), 0b00110000);
    assert_eq!(cpu.flags.i, true);
}

#[test]
fn test_rti() {
    let mut cpu = CPU::default();
    let mut ram = RAM::default();

    cpu.pc = 0x8000;
    cpu.sp = 0xFC;
    cpu.flags.i = true;
    ram.write_byte(0x01FD, 0b00110001);
    ram.write_byte(0x01FE, 0x00);
    ram.write_byte(0x01FF, 0x90);
    OpCode(Instruction::RTI, AddressingMode::Implied, Officiality::Official).execute(&mut cpu, &mut ram);
    assert_eq!(cpu.flags.c, true);
    assert_eq!(cpu.flags.i, false);
    assert_eq!(cpu.flags.b, false);
    assert_eq!(cpu.pc, 0x9000);
}

#[test]
fn test_nop() {
    let mut cpu = CPU::default();
    let mut ram = RAM::default();

    OpCode(Instruction::NOP, AddressingMode::Implied, Officiality::Official).execute(&mut cpu, &mut ram);
}

#[test]
fn test_lax() {
    let mut cpu = CPU::default();
    let mut ram = RAM::default();

    cpu.pc = 0x8000;
    ram.write_byte(0x8000, 0x21);
    ram.write_byte(0x21, 0b10000010);
    OpCode(Instruction::LAX, AddressingMode::ZeroPage, Officiality::Unofficial).execute(&mut cpu, &mut ram);
    assert_eq!(cpu.a, 0b10000010);
    assert_eq!(cpu.x, 0b10000010);
    assert_eq!(cpu.flags.z, false);
    assert_eq!(cpu.flags.n, true);
}

#[test]
fn test_sax() {
    let mut cpu = CPU::default();
    let mut ram = RAM::default();

    cpu.pc = 0x8000;
    ram.write_byte(0x8000, 0x42);
    cpu.a = 0b00011111;
    cpu.x = 0b11110000;
    OpCode(Instruction::SAX, AddressingMode::ZeroPage, Officiality::Unofficial).execute(&mut cpu, &mut ram);
    assert_eq!(ram.read_byte(0x42), 0b00010000);
}

#[test]
fn test_dcp() {
    let mut cpu = CPU::default();
    let mut ram = RAM::default();

    cpu.a = 0x10;
    cpu.pc = 0x8000;
    ram.write_byte(0x8000, 0x10);
    ram.write_byte(0x10, 0x11);
    OpCode(Instruction::DCP, AddressingMode::ZeroPage, Officiality::Unofficial).execute(&mut cpu, &mut ram);
    assert_eq!(cpu.flags.c, true);
    assert_eq!(cpu.flags.z, true);
    assert_eq!(cpu.flags.n, false);
}

#[test]
fn test_skb() {
    let mut cpu = CPU::default();
    let mut ram = RAM::default();

    cpu.pc = 0x8000;
    ram.write_byte(0x8000, 0x20);

    OpCode(Instruction::SKB, AddressingMode::Immediate, Officiality::Unofficial).execute(&mut cpu, &mut ram);

    assert_eq!(cpu.remain_cycles, 1);
}

#[test]
fn test_ign() {
    let mut cpu = CPU::default();
    let mut ram = RAM::default();

    cpu.pc = 0x8000;
    ram.write_byte(0x8000, 0x20);
    ram.write_byte(0x8001, 0x10);

    OpCode(Instruction::IGN, AddressingMode::Absolute, Officiality::Unofficial).execute(&mut cpu, &mut ram);
    assert_eq!(cpu.remain_cycles, 3);
}

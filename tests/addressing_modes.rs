use mos6502::cpu::CPU;
use mos6502::instruction::AddressingMode;
use mos6502::ram::{MemIO, RAM};

#[test]
fn test_accumulator() {
    let mut cpu = CPU::default();
    let mut ram = RAM::default();

    cpu.a = 0x42;
    let byte = AddressingMode::Accumulator.fetch(&mut cpu, &mut ram);
    assert_eq!(byte, Some(0x42));
}

#[test]
fn test_immediate() {
    let mut cpu = CPU::default();
    let mut ram = RAM::default();

    cpu.pc = 0x8000;
    ram.write_byte(0x8000, 0x42);
    let byte = AddressingMode::Immediate.fetch(&mut cpu, &mut ram);
    assert_eq!(byte, Some(0x42));
    assert_eq!(cpu.remain_cycles, 1);
}

#[test]
fn test_zero_page() {
    let mut cpu = CPU::default();
    let mut ram = RAM::default();

    cpu.pc = 0x8000;
    ram.write_byte(0x10, 0x42);
    ram.write_byte(0x8000, 0x10);
    let byte = AddressingMode::ZeroPage.fetch(&mut cpu, &mut ram);
    assert_eq!(byte, Some(0x42));
    assert_eq!(cpu.remain_cycles, 2);

    cpu.pc = 0x8000;
    let addr = AddressingMode::ZeroPage.get_address(&mut cpu, &mut ram);
    assert_eq!(addr, Some(0x10));
}

#[test]
fn test_zero_page_x() {
    let mut cpu = CPU::default();
    let mut ram = RAM::default();

    cpu.pc = 0x8000;
    cpu.x = 2;
    ram.write_byte(0x12, 0x42);
    ram.write_byte(0x8000, 0x10);
    let byte = AddressingMode::ZeroPageX.fetch(&mut cpu, &mut ram);
    assert_eq!(byte, Some(0x42));
    assert_eq!(cpu.remain_cycles, 3);

    cpu.pc = 0x8000;
    let addr = AddressingMode::ZeroPageX.get_address(&mut cpu, &mut ram);
    assert_eq!(addr, Some(0x12));
}

#[test]
fn test_zero_page_y() {
    let mut cpu = CPU::default();
    let mut ram = RAM::default();

    cpu.pc = 0x8000;
    cpu.y = 2;
    ram.write_byte(0x12, 0x42);
    ram.write_byte(0x8000, 0x10);
    let byte = AddressingMode::ZeroPageY.fetch(&mut cpu, &mut ram);
    assert_eq!(byte, Some(0x42));
    assert_eq!(cpu.remain_cycles, 3);

    cpu.pc = 0x8000;
    let addr = AddressingMode::ZeroPageY.get_address(&mut cpu, &mut ram);
    assert_eq!(addr, Some(0x12));
}

#[test]
fn test_relative() {
    let mut cpu = CPU::default();
    let mut ram = RAM::default();

    cpu.pc = 0x8001;
    ram.write_byte(0x8001, 0x02);
    let addr = AddressingMode::Relative.get_address(&mut cpu, &mut ram);
    assert_eq!(addr, Some(0x8004));
}

#[test]
fn test_absolute() {
    let mut cpu = CPU::default();
    let mut ram = RAM::default();

    cpu.pc = 0x8000;
    ram.write_byte(0x8000, 0x00);
    ram.write_byte(0x8001, 0x01);
    ram.write_byte(0x0100, 0x42);
    let byte = AddressingMode::Absolute.fetch(&mut cpu, &mut ram);
    assert_eq!(byte, Some(0x42));
    assert_eq!(cpu.remain_cycles, 3);

    cpu.pc = 0x8000;
    let addr = AddressingMode::Absolute.get_address(&mut cpu, &mut ram);
    assert_eq!(addr, Some(0x0100));
}

#[test]
fn test_absolute_x() {
    let mut cpu = CPU::default();
    let mut ram = RAM::default();

    cpu.pc = 0x8000;
    cpu.x = 1;
    ram.write_byte(0x8000, 0x00);
    ram.write_byte(0x8001, 0x01);
    ram.write_byte(0x0101, 0x42);
    let byte = AddressingMode::AbsoluteX.fetch(&mut cpu, &mut ram);
    assert_eq!(byte, Some(0x42));

    cpu.pc = 0x8000;
    let addr = AddressingMode::AbsoluteX.get_address(&mut cpu, &mut ram);
    assert_eq!(addr, Some(0x0101));

    cpu.remain_cycles = 0;
    cpu.pc = 0x8000;
    cpu.x = 1;
    ram.write_byte(0x8000, 0x50);
    ram.write_byte(0x8001, 0x80);
    ram.write_byte(0x8051, 0x42);
    let addr = AddressingMode::AbsoluteX.fetch(&mut cpu, &mut ram);
    assert_eq!(addr, Some(0x42));
    assert_eq!(cpu.remain_cycles, 3);

    cpu.remain_cycles = 0;
    cpu.pc = 0x8000;
    cpu.x = 1;
    ram.write_byte(0x8000, 0x50);
    ram.write_byte(0x8001, 0x81);
    ram.write_byte(0x8151, 0x42);
    let addr = AddressingMode::AbsoluteX.fetch(&mut cpu, &mut ram);
    assert_eq!(addr, Some(0x42));
    // $8150 + 1 stays on page $81: no crossing, no extra cycle
    assert_eq!(cpu.remain_cycles, 3);
}

#[test]
fn test_absolute_y() {
    let mut cpu = CPU::default();
    let mut ram = RAM::default();

    cpu.pc = 0x8000;
    cpu.y = 1;
    ram.write_byte(0x8000, 0x00);
    ram.write_byte(0x8001, 0x01);
    ram.write_byte(0x0101, 0x42);
    let byte = AddressingMode::AbsoluteY.fetch(&mut cpu, &mut ram);
    assert_eq!(byte, Some(0x42));

    cpu.pc = 0x8000;
    let addr = AddressingMode::AbsoluteY.get_address(&mut cpu, &mut ram);
    assert_eq!(addr, Some(0x0101));

    cpu.remain_cycles = 0;
    cpu.pc = 0x8000;
    ram.write_byte(0x8000, 0x50);
    ram.write_byte(0x8001, 0x80);
    ram.write_byte(0x8051, 0x42);
    let addr = AddressingMode::AbsoluteY.fetch(&mut cpu, &mut ram);
    assert_eq!(addr, Some(0x42));
    assert_eq!(cpu.remain_cycles, 3);

    cpu.remain_cycles = 0;
    cpu.pc = 0x8000;
    ram.write_byte(0x8000, 0x50);
    ram.write_byte(0x8001, 0x81);
    ram.write_byte(0x8151, 0x42);
    let addr = AddressingMode::AbsoluteY.fetch(&mut cpu, &mut ram);
    assert_eq!(addr, Some(0x42));
    // $8150 + 1 stays on page $81: no crossing, no extra cycle
    assert_eq!(cpu.remain_cycles, 3);
}

#[test]
fn test_indirect() {
    let mut cpu = CPU::default();
    let mut ram = RAM::default();

    cpu.pc = 0x8000;
    ram.write_byte(0x8000, 0x02);
    ram.write_byte(0x8001, 0x01);
    ram.write_byte(0x0102, 0x04);
    ram.write_byte(0x0103, 0x03);
    let byte = AddressingMode::Indirect.get_address(&mut cpu, &mut ram);
    assert_eq!(byte, Some(0x0304));
}

#[test]
fn test_indexed_indirect() {
    let mut cpu = CPU::default();
    let mut ram = RAM::default();

    cpu.pc = 0x8000;
    cpu.x = 1;
    ram.write_byte(0x8000, 0x00);
    ram.write_byte(0x01, 0x04);
    ram.write_byte(0x02, 0x03);
    let byte = AddressingMode::IndexedIndirect.get_address(&mut cpu, &mut ram);
    assert_eq!(byte, Some(0x0304));

    cpu.remain_cycles = 0;
    cpu.pc = 0x8000;
    cpu.x = 1;
    ram.write_byte(0x8000, 0x00);
    ram.write_byte(0x01, 0x04);
    ram.write_byte(0x02, 0x03);
    ram.write_byte(0x0304, 0x42);
    let byte = AddressingMode::IndexedIndirect.fetch(&mut cpu, &mut ram);
    assert_eq!(byte, Some(0x42));
    assert_eq!(cpu.remain_cycles, 5);
}

#[test]
fn test_indirect_indexed() {
    let mut cpu = CPU::default();
    let mut ram = RAM::default();

    cpu.pc = 0x8000;
    cpu.y = 1;
    ram.write_byte(0x8000, 0x01);
    ram.write_byte(0x01, 0x04);
    ram.write_byte(0x02, 0x03);
    let byte = AddressingMode::IndirectIndexed.get_address(&mut cpu, &mut ram);
    assert_eq!(byte, Some(0x0305));

    cpu.pc = 0x8000;
    cpu.y = 1;
    ram.write_byte(0x8000, 0x01);
    ram.write_byte(0x01, 0x04);
    ram.write_byte(0x02, 0x03);
    ram.write_byte(0x0305, 0x42);
    let byte = AddressingMode::IndirectIndexed.fetch(&mut cpu, &mut ram);
    assert_eq!(byte, Some(0x42));

    cpu.remain_cycles = 0;
    cpu.pc = 0x8000;
    cpu.y = 1;
    ram.write_byte(0x8000, 0x01);
    ram.write_byte(0x01, 0x04);
    ram.write_byte(0x02, 0x03);
    ram.write_byte(0x0305, 0x42);
    let byte = AddressingMode::IndirectIndexed.fetch(&mut cpu, &mut ram);
    assert_eq!(byte, Some(0x42));
    assert_eq!(cpu.remain_cycles, 4);

    cpu.remain_cycles = 0;
    cpu.pc = 0x8000;
    cpu.y = 0x10;
    ram.write_byte(0x8000, 0x01);
    ram.write_byte(0x01, 0xF4);
    ram.write_byte(0x02, 0x02);
    ram.write_byte(0x0304, 0x42);
    let byte = AddressingMode::IndirectIndexed.fetch(&mut cpu, &mut ram);
    assert_eq!(byte, Some(0x42));
    assert_eq!(cpu.remain_cycles, 5);
}

use mos6502::ram::{MemIO, RAM};

#[test]
fn test_index() {
    let mut ram = RAM::default();
    ram.write_byte(0, 0);
    ram.write_byte(1, 1);
    ram.write_byte(2, 2);
    assert_eq!(ram.read_byte(0), 0);
    assert_eq!(ram.read_byte(1), 1);
    assert_eq!(ram.read_byte(2), 2);
    assert_eq!(ram.read_byte(0), 0);
    assert_eq!(ram.read_byte(1), 1);
    assert_eq!(ram.read_byte(2), 2);
}

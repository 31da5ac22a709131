use chip8_emu::memory::{Memory, MEMORY_SIZE};

#[test]
fn fresh_memory_is_zero() {
    let m = Memory::default();
    for a in 0..MEMORY_SIZE {
        assert_eq!(m.get_u8(a).unwrap(), 0);
    }
}

#[test]
fn write_then_read_byte() {
    let mut m = Memory::default();
    m.write_u8(0x123, 0xAB).unwrap();
    assert_eq!(m.get_u8(0x123).unwrap(), 0xAB);
    assert_eq!(m.get_u8(0x124).unwrap(), 0);
}

#[test]
fn byte_access_bounds() {
    let mut m = Memory::default();
    assert!(m.write_u8(MEMORY_SIZE - 1, 7).is_ok());
    assert!(m.write_u8(MEMORY_SIZE, 7).is_err());
    assert!(m.get_u8(MEMORY_SIZE - 1).is_ok());
    assert!(m.get_u8(MEMORY_SIZE).is_err());
}

#[test]
fn word_is_big_endian() {
    let mut m = Memory::default();
    m.write_data(0x200, &[0x12, 0x34]).unwrap();
    assert_eq!(m.get_u16(0x200).unwrap(), 0x1234);
    assert_eq!(m.get_u16(0x201).unwrap(), 0x3400);
}

#[test]
fn word_access_needs_both_bytes() {
    let m = Memory::default();
    assert!(m.get_u16(MEMORY_SIZE - 2).is_ok());
    assert!(m.get_u16(MEMORY_SIZE - 1).is_err());
    assert!(m.get_u16(MEMORY_SIZE).is_err());
}

#[test]
fn range_read_bounds() {
    let mut m = Memory::default();
    m.write_data(4090, &[1, 2, 3, 4, 5, 6]).unwrap();
    assert_eq!(m.get_data(4090, 6).unwrap(), &[1, 2, 3, 4, 5, 6][..]);
    assert!(m.get_data(4090, 7).is_err());
    assert!(m.get_data(0, MEMORY_SIZE).is_ok());
    assert!(m.get_data(0, MEMORY_SIZE + 1).is_err());
    assert!(m.get_data(MEMORY_SIZE, 0).is_ok());
}

#[test]
fn range_write_out_of_bounds_changes_nothing() {
    let mut m = Memory::default();
    assert!(m.write_data(4094, &[9, 9, 9]).is_err());
    assert_eq!(m.get_u8(4094).unwrap(), 0);
    assert_eq!(m.get_u8(4095).unwrap(), 0);
    assert!(m.write_data(4093, &[9, 9, 9]).is_ok());
    assert_eq!(m.get_u8(4095).unwrap(), 9);
}

#[test]
fn reset_zeroes_memory() {
    let mut m = Memory::default();
    m.write_data(0, &[1, 2, 3]).unwrap();
    m.reset();
    assert_eq!(m.get_data(0, 3).unwrap(), &[0, 0, 0][..]);
}

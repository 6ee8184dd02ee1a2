use emulator::flags::CPUFlags;
use emulator::ram::{RAM, RAM_SIZE};

#[test]
fn ram_write_then_read_every_address() {
    let mut ram = RAM::new(&[]);
    for address in 0..=0xFFFFu32 {
        let value = (address % 251) as u8;
        ram.write(address as u16, value);
        assert_eq!(ram.read(address as u16), value);
    }
    ram.write(0x1234, 0xAA);
    ram.write(0x1235, 0xBB);
    assert_eq!(ram.read(0x1234), 0xAA);
    assert_eq!(ram.read(0x1235), 0xBB);
}

#[test]
fn ram_reads_top_address() {
    let mut ram = RAM::new(&[]);
    ram.write(0xFFFF, 7);
    assert_eq!(ram.read(0xFFFF), 7);
    assert_eq!(ram.read(0x0000), 0);
}

#[test]
fn ram_holds_rom_then_zeros() {
    let ram = RAM::new(&[1, 2, 3]);
    assert_eq!(ram.read(0), 1);
    assert_eq!(ram.read(1), 2);
    assert_eq!(ram.read(2), 3);
    assert_eq!(ram.read(3), 0);
    assert_eq!(ram.read(0xFFFF), 0);
}

#[test]
fn ram_keeps_only_what_fits() {
    let mut rom = vec![0u8; RAM_SIZE + 10];
    rom[RAM_SIZE - 1] = 9;
    rom[RAM_SIZE] = 5;
    let ram = RAM::new(&rom);
    assert_eq!(ram.read(0xFFFF), 9);
    assert_eq!(ram.read(0), 0);
}

#[test]
fn flags_byte_round_trip_all_bytes() {
    for byte in 0..=255u8 {
        assert_eq!(CPUFlags::from_byte(byte).to_byte(), byte);
    }
}

#[test]
fn flags_unpack_bit_positions() {
    let flags = CPUFlags::from_byte(0b1000_0001);
    assert!(flags.negative);
    assert!(flags.carry);
    assert!(!flags.zero);
    assert!(!flags.even);
    assert!(!flags.aux_carry);
    let flags = CPUFlags::from_byte(0b0101_0100);
    assert!(flags.zero);
    assert!(flags.aux_carry);
    assert!(flags.even);
    assert!(!flags.negative);
    assert!(!flags.carry);
    assert_eq!(CPUFlags::from_byte(0b0010_1010).to_byte(), 0b0010_1010);
}

#[test]
fn flags_equality_ignores_aux_carry_and_reserved_bits() {
    assert!(CPUFlags::from_byte(0b0011_1010) == CPUFlags::from_byte(0));
    assert!(CPUFlags::from_byte(0b0100_0000) != CPUFlags::from_byte(0));
    assert!(CPUFlags::from_byte(0b0000_0001) != CPUFlags::from_byte(0));
    assert!(CPUFlags::from_byte(0b1000_0000) != CPUFlags::from_byte(0));
    assert!(CPUFlags::from_byte(0b0000_0100) != CPUFlags::from_byte(0));
}

#[test]
fn flags_describe_visible_flags() {
    let flags = CPUFlags::from_byte(0b1000_0101);
    assert_eq!(flags.describe(), "negative:true zero:false even:true carry:true");
    assert_eq!(
        CPUFlags::from_byte(0b0101_1010).describe(),
        "negative:false zero:true even:false carry:false"
    );
}

use rust_gb::cartridge;
use rust_gb::cpu::Cpu;
use rust_gb::register::Register;

/// A 32 KiB ROM-only image with a valid header.
fn test_rom() -> Vec<u8> {
    let mut rom = vec![0u8; 0x8000];
    let title = b"HELLO";
    for (i, b) in title.iter().enumerate() {
        rom[0x134 + i] = *b;
    }
    let mut checksum: u8 = 0;
    for i in 0x134..=0x14c {
        checksum = checksum.wrapping_sub(rom[i]).wrapping_sub(1);
    }
    rom[0x14d] = checksum;
    rom
}

fn test_cpu() -> Cpu {
    Cpu::new(cartridge::new(test_rom(), None).unwrap())
}

#[test]
fn test_get_byte_from_flags_zero() {
    let mut cpu = test_cpu();
    cpu.set_zero_flag(true);
    let res = cpu.get_byte_from_flags();
    assert_eq!(0b1000_0000, res);
}

#[test]
fn test_get_byte_from_flags_sub() {
    let mut cpu = test_cpu();
    cpu.set_subtraction_flag(true);
    let res = cpu.get_byte_from_flags();
    assert_eq!(0b0100_0000, res);
}

#[test]
fn test_get_byte_from_flags_half() {
    let mut cpu = test_cpu();
    cpu.set_half_carry_flag(true);
    let res = cpu.get_byte_from_flags();
    assert_eq!(0b0010_0000, res);
}

#[test]
fn test_get_byte_from_flags_carry() {
    let mut cpu = test_cpu();
    cpu.set_carry_flag(true);
    let res = cpu.get_byte_from_flags();
    assert_eq!(0b0001_0000, res);
}

#[test]
fn test_get_byte_from_flags_all() {
    let mut cpu = test_cpu();
    cpu.set_zero_flag(true);
    cpu.set_subtraction_flag(true);
    cpu.set_half_carry_flag(true);
    cpu.set_carry_flag(true);
    let res = cpu.get_byte_from_flags();
    assert_eq!(0b1111_0000, res);
}

#[test]
fn test_set_flags_from_bytes_zero() {
    let mut cpu = test_cpu();
    cpu.set_flags_from_byte(128);
    assert!(cpu.zero_flag);
    assert!(!cpu.subtraction_flag);
    assert!(!cpu.half_carry_flag);
    assert!(!cpu.carry_flag);
}

#[test]
fn test_set_flags_from_bytes_sub() {
    let mut cpu = test_cpu();
    cpu.set_flags_from_byte(64);
    assert!(!cpu.zero_flag);
    assert!(cpu.subtraction_flag);
    assert!(!cpu.half_carry_flag);
    assert!(!cpu.carry_flag);
}

#[test]
fn test_set_flags_from_bytes_half() {
    let mut cpu = test_cpu();
    cpu.set_flags_from_byte(32);
    assert!(!cpu.zero_flag);
    assert!(!cpu.subtraction_flag);
    assert!(cpu.half_carry_flag);
    assert!(!cpu.carry_flag);
}

#[test]
fn test_set_flags_from_bytes_carry() {
    let mut cpu = test_cpu();
    cpu.set_flags_from_byte(16);
    assert!(!cpu.zero_flag);
    assert!(!cpu.subtraction_flag);
    assert!(!cpu.half_carry_flag);
    assert!(cpu.carry_flag);
}

#[test]
fn test_set_flags_from_bytes_all() {
    let mut cpu = test_cpu();
    cpu.set_flags_from_byte(248);
    assert!(cpu.zero_flag);
    assert!(cpu.subtraction_flag);
    assert!(cpu.half_carry_flag);
    assert!(cpu.carry_flag);
}

#[test]
fn test_read_r8_all() {
    let mut cpu = test_cpu();
    cpu.write_r8(Register::A, 1);
    cpu.write_r8(Register::B, 2);
    cpu.write_r8(Register::C, 3);
    cpu.write_r8(Register::D, 4);
    cpu.write_r8(Register::E, 5);
    cpu.write_r8(Register::H, 6);
    cpu.write_r8(Register::L, 7);

    assert_eq!(cpu.read_r8(Register::A), 1);
    assert_eq!(cpu.read_r8(Register::B), 2);
    assert_eq!(cpu.read_r8(Register::C), 3);
    assert_eq!(cpu.read_r8(Register::D), 4);
    assert_eq!(cpu.read_r8(Register::E), 5);
    assert_eq!(cpu.read_r8(Register::H), 6);
    assert_eq!(cpu.read_r8(Register::L), 7);
}

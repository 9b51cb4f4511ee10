use rust_gb::cartridge::{self, Cartridge, CartridgeError};
use rust_gb::cpu::{Cpu, FatalDecodeError};
use rust_gb::joypad::{Joypad, Key};
use rust_gb::mmu::Mmu;
use rust_gb::ppu::Ppu;
use rust_gb::register::Register;
use rust_gb::rtc::Rtc;
use rust_gb::timer::Timer;

/// A ROM image of `size` bytes with cartridge type `kind`, ROM size code
/// `rom_code` and a valid header checksum; byte 0 of every 16-KiB bank holds
/// the bank number.
fn rom_image(size: usize, kind: u8, rom_code: u8, ram_code: u8) -> Vec<u8> {
    let mut rom = vec![0u8; size];
    for bank in 0..size / 0x4000 {
        rom[bank * 0x4000] = bank as u8;
    }
    for (i, b) in b"TEST ROM".iter().enumerate() {
        rom[0x134 + i] = *b;
    }
    rom[0x147] = kind;
    rom[0x148] = rom_code;
    rom[0x149] = ram_code;
    fix_checksum(&mut rom);
    rom
}

fn fix_checksum(rom: &mut Vec<u8>) {
    let mut checksum: u8 = 0;
    for i in 0x134..=0x14c {
        checksum = checksum.wrapping_sub(rom[i]).wrapping_sub(1);
    }
    rom[0x14d] = checksum;
}

fn plain_cartridge() -> Cartridge {
    cartridge::new(rom_image(0x8000, 0x00, 0x00, 0x00), None).unwrap()
}

/// A CPU that runs `program` from work RAM at 0xC000.
fn cpu_with_program(program: &[u8]) -> Cpu {
    let mut cpu = Cpu::new(plain_cartridge());
    for (i, b) in program.iter().enumerate() {
        cpu.mmu.write_byte(0xc000 + i as u16, *b);
    }
    cpu.pc = 0xc000;
    cpu
}

#[test]
fn loader_rejects_short_image() {
    let r = cartridge::new(vec![0u8; 0x4000], None);
    assert!(matches!(r, Err(CartridgeError::TooSmall)));
}

#[test]
fn loader_rejects_bad_checksum() {
    let mut rom = rom_image(0x8000, 0x00, 0x00, 0x00);
    rom[0x14d] = rom[0x14d].wrapping_add(1);
    assert!(matches!(cartridge::new(rom, None), Err(CartridgeError::BadChecksum)));
}

#[test]
fn loader_rejects_unknown_sizes_and_types() {
    let rom = rom_image(0x8000, 0x00, 0x09, 0x00);
    assert!(matches!(cartridge::new(rom, None), Err(CartridgeError::UnknownRomSize(0x09))));
    let rom = rom_image(0x8000, 0x00, 0x00, 0x06);
    assert!(matches!(cartridge::new(rom, None), Err(CartridgeError::UnknownRamSize(0x06))));
    let rom = rom_image(0x8000, 0x20, 0x00, 0x00);
    assert!(matches!(cartridge::new(rom, None), Err(CartridgeError::UnsupportedMbc(0x20))));
}

#[test]
fn loader_picks_controller_and_ram() {
    let c = cartridge::new(rom_image(0x8000, 0x03, 0x00, 0x02), None).unwrap();
    match c {
        Cartridge::MBC1(m) => {
            assert_eq!(m.ram.len(), 8 * 1024);
            assert_eq!(m.num_rom_banks, 2);
        }
        _ => panic!("expected MBC1"),
    }
    let c = cartridge::new(rom_image(0x8000, 0x13, 0x00, 0x03), Some(vec![7u8; 16])).unwrap();
    match c {
        Cartridge::MBC3(m) => assert_eq!(m.ram, vec![7u8; 16]),
        _ => panic!("expected MBC3"),
    }
    assert!(matches!(cartridge::new(rom_image(0x8000, 0x19, 0x00, 0x00), None), Ok(Cartridge::MBC5(_))));
    assert!(matches!(cartridge::new(rom_image(0x8000, 0x05, 0x00, 0x00), None), Ok(Cartridge::MBC2(_))));
}

#[test]
fn title_keeps_printable_bytes() {
    let t = cartridge::get_title(&[b'P', 0, b'O', 0x80, b'K', 0x01, b'E']);
    assert_eq!(t, "POKE");
    let rom = rom_image(0x8000, 0x00, 0x00, 0x00);
    assert_eq!(cartridge::header_title(&rom), "TEST ROM");
}

#[test]
fn mbc_type_names() {
    assert_eq!(cartridge::get_mbc_type_name(0x00), "ROM ONLY");
    assert_eq!(cartridge::get_mbc_type_name(0x13), "MBC3+RAM+BATTERY");
    assert_eq!(cartridge::get_mbc_type_name(0x42), "Invalid mbc type");
}

#[test]
fn mbc1_mode_flag_bank_selection() {
    // 2 MiB: 128 banks.
    let rom = rom_image(0x20_0000, 0x01, 0x06, 0x00);
    let mut mmu = Mmu::new(cartridge::new(rom, None).unwrap());
    mmu.write_byte(0x2000, 0x60);
    mmu.write_byte(0x4000, 0x40);
    assert_eq!(mmu.read_byte(0x4000), 1);
    mmu.write_byte(0x4000, 0x03);
    assert_eq!(mmu.read_byte(0x4000), 97);
    if let Cartridge::MBC1(m) = &mmu.cartridge {
        assert_eq!(m.rom_bank_no(), 97);
    } else {
        panic!("expected MBC1");
    }
    // Mode 1: the upper bits select RAM, not ROM.
    mmu.write_byte(0x6000, 0x01);
    assert_eq!(mmu.read_byte(0x4000), 1);
}

#[test]
fn mbc1_bank_wraps_to_zero() {
    // 64 KiB: 4 banks; selecting bank 4 reads bank 0.
    let rom = rom_image(0x1_0000, 0x01, 0x01, 0x00);
    let mut mmu = Mmu::new(cartridge::new(rom, None).unwrap());
    mmu.write_byte(0x2000, 0x04);
    assert_eq!(mmu.read_byte(0x4000), 0);
    mmu.write_byte(0x2000, 0x03);
    assert_eq!(mmu.read_byte(0x4000), 3);
}

#[test]
fn mbc_ram_gating() {
    let rom = rom_image(0x8000, 0x03, 0x00, 0x02);
    let mut mmu = Mmu::new(cartridge::new(rom, None).unwrap());
    mmu.write_byte(0xa000, 0x12);
    assert_eq!(mmu.read_byte(0xa000), 0xff);
    mmu.write_byte(0x0000, 0x0a);
    mmu.write_byte(0xa000, 0x12);
    assert_eq!(mmu.read_byte(0xa000), 0x12);
}

#[test]
fn mbc2_nibble_ram() {
    let rom = rom_image(0x8000, 0x06, 0x00, 0x00);
    let mut mmu = Mmu::new(cartridge::new(rom, None).unwrap());
    mmu.write_byte(0x0000, 0x0a);
    mmu.write_byte(0xa010, 0xab);
    assert_eq!(mmu.read_byte(0xa010), 0x0b);
    mmu.write_byte(0x0100, 0x01);
    assert_eq!(mmu.read_byte(0x4000), 1);
}

#[test]
fn mbc5_nine_bit_bank() {
    let rom = rom_image(0x8000, 0x19, 0x00, 0x00);
    let mut c = cartridge::new(rom, None).unwrap();
    c.write(0x2000, 0x34);
    c.write(0x3000, 0x01);
    match &c {
        Cartridge::MBC5(m) => assert_eq!(m.rom_bank_no, 0x134),
        _ => panic!("expected MBC5"),
    }
}

#[test]
fn mbc3_clock_registers() {
    let rom = rom_image(0x8000, 0x10, 0x00, 0x02);
    let mut c = cartridge::new(rom, None).unwrap();
    c.write(0x0000, 0x0a);
    c.write(0x4000, 0x08);
    c.write(0xa000, 42);
    assert_eq!(c.read(0xa000), 42);
}

#[test]
fn rtc_latch_counts_elapsed_time() {
    let mut rtc = Rtc::new();
    let base = rtc.initialization_time;
    // 25,938,429 s: 432,307 min, 7,205 h, 300 days; each cut to eight bits.
    rtc.latch(base + 86400 * 300 + 3600 * 5 + 60 * 7 + 9);
    assert_eq!((rtc.s, rtc.m, rtc.h, rtc.dl, rtc.dh), (253, 179, 37, 44, 1));
    rtc.latch(base + 86400 * 600);
    assert_eq!((rtc.dl, rtc.dh), (88, 0x81));
    rtc.latch(base - 10);
    assert_eq!((rtc.s, rtc.m, rtc.h, rtc.dl), (0, 0, 0, 0));
}

#[test]
fn div_write_resets_counter() {
    let mut timer = Timer::new();
    timer.update(200);
    timer.update(200);
    assert_eq!(timer.read(0xff04), 1);
    timer.write(0xff04, 0x77);
    assert_eq!(timer.read(0xff04), 0);
    assert_eq!(timer.counter, 0);
}

#[test]
fn timer_overflow_reloads_modulo() {
    let mut mmu = Mmu::new(plain_cartridge());
    mmu.write_byte(0xff07, 0x05);
    mmu.write_byte(0xff06, 0x80);
    mmu.write_byte(0xff05, 0xfe);
    mmu.update(16);
    assert_eq!(mmu.read_byte(0xff05), 0xff);
    mmu.update(16);
    assert_eq!(mmu.read_byte(0xff05), 0x80);
    assert_eq!(mmu.read_byte(0xff0f) & 0x04, 0x04);
    mmu.update(16);
    assert_eq!(mmu.read_byte(0xff05), 0x81);

    // 48 cycles in one update: three clocks past 0xFE, TMA + (3 - 1).
    let mut timer = Timer::new();
    timer.write(0xff07, 0x05);
    timer.write(0xff06, 0x80);
    timer.write(0xff05, 0xfe);
    timer.update(48);
    assert_eq!(timer.read(0xff05), 0x82);
    assert!(timer.is_irq_timer());
}

#[test]
fn echo_ram_mirrors_work_ram() {
    let mut mmu = Mmu::new(plain_cartridge());
    mmu.write_byte(0xe123, 0x5a);
    assert_eq!(mmu.read_byte(0xc123), 0x5a);
    mmu.write_byte(0xd456, 0xa5);
    assert_eq!(mmu.read_byte(0xf456), 0xa5);
    mmu.write_byte(0xff70, 3);
    assert_eq!(mmu.read_byte(0xd456), 0);
    assert_eq!(mmu.read_byte(0xf456), 0);
}

#[test]
fn unmapped_and_prohibited_reads() {
    let mmu = Mmu::new(plain_cartridge());
    assert_eq!(mmu.read_byte(0xfea5), 0x00);
    assert_eq!(mmu.read_byte(0xff7f), 0xff);
}

#[test]
fn vram_and_oam_gated_in_drawing_mode() {
    let mut mmu = Mmu::new(plain_cartridge());
    mmu.write_byte(0x8000, 0x11);
    assert_eq!(mmu.read_byte(0x8000), 0x11);
    mmu.update(80);
    assert_eq!(mmu.read_byte(0xff41) & 3, 3);
    assert_eq!(mmu.read_byte(0x8000), 0xff);
    assert_eq!(mmu.read_byte(0xfe00), 0xff);
}

#[test]
fn oam_dma_copies_source() {
    let mut mmu = Mmu::new(plain_cartridge());
    mmu.write_byte(0xff40, 0x00);
    for i in 0..0xa0u16 {
        mmu.write_byte(0xc100 + i, (i * 3) as u8);
    }
    mmu.write_byte(0xff46, 0xc1);
    for i in 0..0xa0u16 {
        assert_eq!(mmu.read_byte(0xfe00 + i), mmu.read_byte(0xc100 + i));
    }
    assert_eq!(mmu.read_byte(0xff46), 0xc1);
}

#[test]
fn joypad_rows_and_interrupt() {
    let mut pad = Joypad::new();
    pad.keydown(Key::A);
    assert!(pad.irq);
    pad.write_byte(0xff00, 0x10);
    assert_eq!(pad.read_byte(0xff00) & 0x0f, 0x0e);
    pad.write_byte(0xff00, 0x20);
    assert_eq!(pad.read_byte(0xff00) & 0x0f, 0x0f);
    pad.keyup(Key::A);
    assert_eq!(pad.key_state, 0xff);
}

/// A PPU with the LCD off, so that VRAM and OAM take writes.
fn idle_ppu() -> Ppu {
    let mut ppu = Ppu::new();
    ppu.write(0xff40, 0x00);
    ppu
}

#[test]
fn scroll_register_moves_background() {
    let mut ppu = idle_ppu();
    for i in 0..16u16 {
        ppu.write(0x8010 + i, 0xff);
    }
    ppu.write(0x9800, 1);
    ppu.write(0xff47, 0xe4);
    ppu.write(0xff40, 0x91);
    ppu.update(80);
    assert_eq!(ppu.get_frame()[0], 0x00);

    let mut ppu = idle_ppu();
    for i in 0..16u16 {
        ppu.write(0x8010 + i, 0xff);
    }
    ppu.write(0x9800, 1);
    ppu.write(0xff47, 0xe4);
    ppu.write(0xff43, 4);
    ppu.write(0xff40, 0x91);
    ppu.update(80);
    assert_eq!(ppu.get_frame()[0], 0x00);
    assert_eq!(ppu.get_frame()[4], 0xff);

    let mut ppu = idle_ppu();
    for i in 0..16u16 {
        ppu.write(0x8010 + i, 0xff);
    }
    ppu.write(0x9800, 1);
    ppu.write(0xff47, 0xe4);
    ppu.write(0xff43, 8);
    ppu.write(0xff40, 0x91);
    ppu.update(80);
    assert_eq!(ppu.get_frame()[0], 0xff);
}

#[test]
fn sprite_priority_behind_background() {
    let mut ppu = idle_ppu();
    // Background tile 1: colors 0, 1, 2, 3 in its first four columns.
    ppu.write(0x8010, 0x50);
    ppu.write(0x8011, 0x30);
    ppu.write(0x9800, 1);
    // Object tile 2: color 1 everywhere.
    for row in 0..8u16 {
        ppu.write(0x8020 + row * 2, 0xff);
        ppu.write(0x8021 + row * 2, 0x00);
    }
    for x in 0..4u16 {
        ppu.write(0xfe00 + x * 4, 16);
        ppu.write(0xfe01 + x * 4, 8 + x as u8);
        ppu.write(0xfe02 + x * 4, 2);
        ppu.write(0xfe03 + x * 4, 0x80);
    }
    ppu.write(0xff47, 0xe4);
    ppu.write(0xff48, 0x0c);
    ppu.write(0xff40, 0x93);
    ppu.update(80);
    let frame = ppu.get_frame();
    assert_eq!(frame[0], 0x00);
    assert_eq!(frame[1], 0xaa);
    assert_eq!(frame[2], 0x55);
    assert_eq!(frame[3], 0x00);
}

#[test]
fn frame_takes_70224_cycles() {
    let mut mmu = Mmu::new(plain_cartridge());
    let mut cycles: u64 = 0;
    let mut edges = Vec::new();
    for _ in 0..(3 * 70224 / 4) {
        mmu.update(4);
        cycles += 4;
        if mmu.interrupt_flag & 1 != 0 {
            edges.push(cycles);
            mmu.interrupt_flag = 0;
        }
    }
    assert!(edges.len() >= 2);
    for pair in edges.windows(2) {
        assert_eq!(pair[1] - pair[0], 70224);
    }
    assert_eq!(mmu.ppu.regs.ly, 0);
}

#[test]
fn push_pop_af_keeps_a_and_flags() {
    let mut cpu = cpu_with_program(&[]);
    cpu.a = 0x3c;
    cpu.set_flags_from_byte(0xa0);
    cpu.push_nn(Register::A, Register::F);
    cpu.a = 0;
    cpu.set_flags_from_byte(0x50);
    cpu.pop_nn(Register::A, Register::F);
    assert_eq!(cpu.a, 0x3c);
    assert_eq!(cpu.get_byte_from_flags(), 0xa0);
    assert_eq!(cpu.sp, 0xfffe);
}

#[test]
fn pop_af_clears_low_nibble() {
    let mut cpu = cpu_with_program(&[]);
    cpu.mmu.write_byte(0xfffc, 0xff);
    cpu.mmu.write_byte(0xfffd, 0x12);
    cpu.sp = 0xfffc;
    cpu.pop_nn(Register::A, Register::F);
    assert_eq!(cpu.get_byte_from_flags(), 0xf0);
    assert_eq!(cpu.get_f_num() & 0x0f, 0);
    assert_eq!(cpu.a, 0x12);
}

#[test]
fn swap_bit_res_set() {
    let mut cpu = cpu_with_program(&[]);
    cpu.b = 0x3c;
    cpu.swap(Register::B);
    assert_eq!(cpu.b, 0xc3);
    cpu.swap(Register::B);
    assert_eq!(cpu.b, 0x3c);
    cpu.res(Register::B, 3);
    cpu.bit(Register::B, 3);
    assert!(cpu.zero_flag);
    assert_eq!(cpu.b, 0x34);
    cpu.set(Register::B, 0);
    cpu.bit(Register::B, 0);
    assert!(!cpu.zero_flag);
    assert_eq!(cpu.b, 0x35);
}

#[test]
fn inc_dec_boundaries() {
    let mut cpu = cpu_with_program(&[]);
    cpu.c = 0xff;
    cpu.set_carry_flag(true);
    cpu.inc_r8(Register::C);
    assert_eq!(cpu.c, 0x00);
    assert!(cpu.zero_flag && cpu.half_carry_flag && !cpu.subtraction_flag && cpu.carry_flag);
    cpu.dec_r8(Register::C);
    assert_eq!(cpu.c, 0xff);
    assert!(cpu.subtraction_flag && cpu.half_carry_flag && !cpu.zero_flag);
}

#[test]
fn add_sp_minus_one_wraps() {
    let mut cpu = cpu_with_program(&[0xff]);
    cpu.sp = 0x0000;
    cpu.add_sp_d8();
    assert_eq!(cpu.sp, 0xffff);
    assert!(!cpu.half_carry_flag && !cpu.carry_flag && !cpu.zero_flag && !cpu.subtraction_flag);
    assert_eq!(cpu.pc, 0xc001);

    let mut cpu = cpu_with_program(&[0xff]);
    cpu.sp = 0x00ff;
    cpu.add_sp_d8();
    assert_eq!(cpu.sp, 0x00fe);
    assert!(cpu.half_carry_flag && cpu.carry_flag);
}

#[test]
fn daa_after_bcd_add() {
    let mut cpu = cpu_with_program(&[]);
    cpu.a = 0x99;
    cpu.b = 0x01;
    cpu.add_a_r(Register::B);
    cpu.daa();
    assert_eq!(cpu.a, 0x00);
    assert!(cpu.carry_flag && cpu.zero_flag && !cpu.half_carry_flag);
}

#[test]
fn alu_flag_examples() {
    let mut cpu = cpu_with_program(&[]);
    cpu.a = 0x0f;
    cpu.b = 0x01;
    cpu.add_a_r(Register::B);
    assert_eq!(cpu.a, 0x10);
    assert!(cpu.half_carry_flag && !cpu.carry_flag);
    cpu.sub_a_n(Register::B);
    assert_eq!(cpu.a, 0x0f);
    assert!(cpu.half_carry_flag && cpu.subtraction_flag);
    cpu.cp_r8(Register::B);
    assert!(!cpu.zero_flag && !cpu.carry_flag);
    cpu.a = 0x00;
    cpu.set_carry_flag(true);
    cpu.sbc_a_n(Register::B);
    assert_eq!(cpu.a, 0xfe);
    assert!(cpu.carry_flag);
    cpu.xor_r8(Register::A);
    assert_eq!(cpu.a, 0);
    assert!(cpu.zero_flag);
}

#[test]
fn interrupt_priority_lowest_bit() {
    let mut cpu = cpu_with_program(&[]);
    cpu.mmu.write_byte(0xffff, 0x1f);
    cpu.mmu.write_byte(0xff0f, 0x0c);
    cpu.ime = true;
    cpu.handle_interrupt();
    assert_eq!(cpu.pc, 0x50);
    assert!(!cpu.ime);
    assert_eq!(cpu.mmu.read_byte(0xff0f) & 0x0c, 0x08);
    assert_eq!(cpu.sp, 0xfffc);
    assert_eq!(cpu.mmu.read_byte(0xfffc), 0x00);
    assert_eq!(cpu.mmu.read_byte(0xfffd), 0xc0);
}

#[test]
fn ei_takes_effect_after_next_instruction() {
    // NOP; EI; NOP
    let mut cpu = cpu_with_program(&[0x00, 0xfb, 0x00]);
    cpu.mmu.write_byte(0xffff, 0x01);
    cpu.mmu.write_byte(0xff0f, 0x01);
    assert_eq!(cpu.step(), Ok(4));
    assert_eq!(cpu.pc, 0xc001);
    assert_eq!(cpu.step(), Ok(4));
    assert_eq!(cpu.pc, 0xc002);
    assert_eq!(cpu.step(), Ok(24));
    assert_eq!(cpu.pc, 0x0040);
}

#[test]
fn halt_waits_for_interrupt() {
    // HALT; INC A
    let mut cpu = cpu_with_program(&[0x76, 0x3c]);
    cpu.mmu.write_byte(0xffff, 0x04);
    assert_eq!(cpu.step(), Ok(4));
    assert!(cpu.halt);
    assert_eq!(cpu.step(), Ok(4));
    assert_eq!(cpu.pc, 0xc001);
    cpu.mmu.write_byte(0xff0f, 0x04);
    assert_eq!(cpu.step(), Ok(4));
    assert!(!cpu.halt);
    assert_eq!(cpu.a, 1);
}

#[test]
fn undefined_opcode_is_fatal() {
    let mut cpu = cpu_with_program(&[0x00, 0xd3]);
    assert_eq!(cpu.step(), Ok(4));
    assert_eq!(cpu.step(), Err(FatalDecodeError { opcode: 0xd3, pc: 0xc001 }));
}

#[test]
fn returned_cycles_match_timer_counter() {
    // LD A, 5; DEC A; JR NZ, -3; CALL 0xC010; then NOPs; at 0xC010: RET
    let mut program = vec![0x3e, 0x05, 0x3d, 0x20, 0xfd, 0xcd, 0x10, 0xc0];
    program.resize(0x10, 0x00);
    program.push(0xc9);
    let mut cpu = cpu_with_program(&program);
    let start = cpu.mmu.timer.counter;
    let mut total: u32 = 0;
    for _ in 0..40 {
        total += cpu.step().unwrap() as u32;
    }
    assert_eq!(cpu.mmu.timer.counter, start.wrapping_add(total as u16));
}

#[test]
fn prefix_cb_rotates_through_hl() {
    // LD HL, 0xC100; SET 7, (HL); RLC (HL)
    let mut cpu = cpu_with_program(&[0x21, 0x00, 0xc1, 0xcb, 0xfe, 0xcb, 0x06]);
    assert_eq!(cpu.step(), Ok(12));
    assert_eq!(cpu.step(), Ok(16));
    assert_eq!(cpu.mmu.read_byte(0xc100), 0x80);
    assert_eq!(cpu.step(), Ok(16));
    assert_eq!(cpu.mmu.read_byte(0xc100), 0x01);
    assert!(cpu.carry_flag);
}

#[test]
fn save_data_of_ram_cartridge() {
    let rom = rom_image(0x8000, 0x03, 0x00, 0x01);
    let c = cartridge::new(rom, None).unwrap();
    assert_eq!(c.save_data().map(|r| r.len()), Some(2048));
    assert!(plain_cartridge().save_data().is_none());
}

#[test]
fn lyc_write_recomputes_flag() {
    let mut ppu = Ppu::new();
    assert_eq!(ppu.read(0xff41) & 0x04, 0x04);
    ppu.write(0xff45, 5);
    assert_eq!(ppu.read(0xff41) & 0x04, 0x00);
    ppu.write(0xff45, 0);
    assert_eq!(ppu.read(0xff41) & 0x04, 0x04);
    ppu.write(0xff45, 0);
    assert_eq!(ppu.read(0xff41) & 0x04, 0x04);
    // Switching the LCD off and on returns LY to 0 and recomputes the flag.
    ppu.write(0xff40, 0x00);
    assert_eq!(ppu.read(0xff41) & 0x07, 0x04);
}

#[test]
fn interrupt_service_latches_no_new_bits() {
    let mut cpu = cpu_with_program(&[]);
    cpu.mmu.write_byte(0xff07, 0x05);
    cpu.mmu.write_byte(0xff05, 0xff);
    cpu.mmu.write_byte(0xffff, 0x01);
    cpu.mmu.write_byte(0xff0f, 0x01);
    cpu.ime = true;
    cpu.handle_interrupt();
    assert_eq!(cpu.pc, 0x40);
    assert_eq!(cpu.mmu.interrupt_flag, 0x00);
    assert!(cpu.mmu.timer.irq_timer);
    cpu.mmu.update(4);
    assert_eq!(cpu.mmu.interrupt_flag & 0x04, 0x04);
}

#[test]
fn power_on_state() {
    let cpu = Cpu::new(plain_cartridge());
    assert_eq!(cpu.sp, 0xfffe);
    assert_eq!(cpu.pc, 0x0100);
    assert_eq!(cpu.mmu.read_byte(0xff40), 0x80);
    assert_eq!(cpu.mmu.read_byte(0xff41), 0x06);
    assert_eq!(cpu.mmu.read_byte(0xff00), 0xff);
    assert_eq!(cpu.mmu.read_byte(0xff04), 0x00);
    assert!(cpu.mmu.ppu.get_frame().iter().all(|&b| b == 0));
}

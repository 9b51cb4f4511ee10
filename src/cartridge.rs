use vstd::prelude::*;

use crate::rtc::Rtc;
use vstd::arithmetic::power2::*;

verus! {

/// A cartridge ROM with no bank controller.
pub struct RomOnly {
    pub rom: Vec<u8>,
}

/// MBC1: up to 2 MiB of ROM and 32 KiB of RAM.
pub struct MBC1 {
    pub rom: Vec<u8>,
    pub ram: Vec<u8>,
    /// false: the two upper bits select ROM banks; true: they select RAM banks
    pub mode_flag: bool,
    pub is_ram_enable: bool,
    /// the five low bits of the ROM bank number
    pub rom_bank_no: u8,
    /// the two-bit RAM bank or upper ROM bank number
    pub ram_bank_no: u8,
    /// the number of 16-KiB ROM banks that the header declares
    pub num_rom_banks: u16,
    pub title: String,
}

/// MBC2: up to 256 KiB of ROM and 512 four-bit cells of built-in RAM.
pub struct MBC2 {
    pub rom: Vec<u8>,
    pub ram: Vec<u8>,
    pub rom_bank_no: usize,
    pub ram_enable: bool,
    pub title: String,
}

/// MBC3: up to 2 MiB of ROM, 32 KiB of RAM and a real-time clock.
pub struct MBC3 {
    pub rom: Vec<u8>,
    pub ram: Vec<u8>,
    pub rom_bank_no: u8,
    /// 0x00-0x03 select a RAM bank, 0x08-0x0C a clock register
    pub ram_bank_no: u8,
    pub rtc: Rtc,
    pub ram_enable: bool,
    pub title: String,
}

/// MBC5: up to 8 MiB of ROM and 128 KiB of RAM.
pub struct MBC5 {
    pub rom: Vec<u8>,
    pub ram: Vec<u8>,
    pub rom_bank_no: usize,
    pub ram_bank_no: usize,
    pub ram_enable: bool,
    pub title: String,
}

/// A cartridge, by the kind of its bank controller.
pub enum Cartridge {
    RomOnly(RomOnly),
    MBC1(MBC1),
    MBC2(MBC2),
    MBC3(MBC3),
    MBC5(MBC5),
}

/// Why a ROM image cannot be loaded.
#[derive(Clone, Copy, Debug, PartialEq, Eq, Structural)]
pub enum CartridgeError {
    /// The image is shorter than the 32 KiB of the two fixed banks.
    TooSmall,
    /// The ROM size code at 0x0148 is not one of 0x00-0x08.
    UnknownRomSize(u8),
    /// The RAM size code at 0x0149 is not one of 0x00-0x05.
    UnknownRamSize(u8),
    /// The header checksum at 0x014D does not match the header.
    BadChecksum,
    /// The cartridge type at 0x0147 names no supported bank controller.
    UnsupportedMbc(u8),
}

/// The byte at `i`, or 0xFF (open bus) past the end of `s`.
pub open spec fn byte_at(s: Seq<u8>, i: int) -> u8 {
    if 0 <= i < s.len() {
        s[i]
    } else {
        0xff
    }
}

fn get_byte(v: &Vec<u8>, i: usize) -> (r: u8)
    ensures
        r == byte_at(v@, i as int),
{
    if i < v.len() {
        v[i]
    } else {
        0xff
    }
}

fn set_byte(v: &mut Vec<u8>, i: usize, value: u8)
    ensures
        i < old(v)@.len() ==> final(v)@ == old(v)@.update(i as int, value),
        i >= old(v)@.len() ==> final(v)@ == old(v)@,
{
    if i < v.len() {
        v.set(i, value);
    }
}

/// Whether `addr` falls in the cartridge's part of the address space: ROM
/// (0x0000-0x7FFF) or external RAM (0xA000-0xBFFF).
pub open spec fn is_cart_addr(addr: u16) -> bool {
    addr <= 0x7fff || (0xa000 <= addr && addr <= 0xbfff)
}

/// The checksum that the header bytes 0x0134-0x014C of `rom` give:
/// x := x - byte - 1 over each of them, from zero.
pub open spec fn header_checksum(rom: Seq<u8>, end: int) -> u8
    decreases end - 0x134,
{
    if end <= 0x134 {
        0
    } else {
        header_checksum(rom, end - 1).wrapping_sub(rom[end - 1]).wrapping_sub(1)
    }
}

/// The size in KiB of external RAM for a RAM size code.
pub open spec fn ram_size_kb(code: u8) -> usize {
    if code == 0 {
        0
    } else if code == 1 {
        2
    } else if code == 2 {
        8
    } else if code == 3 {
        32
    } else if code == 4 {
        128
    } else {
        64
    }
}

/// Whether the cartridge type code names a supported controller.
pub open spec fn supported_type(t: u8) -> bool {
    t == 0x00 || (0x01 <= t <= 0x03) || t == 0x05 || t == 0x06 || (0x0f <= t <= 0x13) || (0x19
        <= t <= 0x1e)
}

/// Whether a title byte is kept in the name of the save file: printable ASCII.
pub open spec fn is_title_byte(b: u8) -> bool {
    0x20 <= b && b <= 0x7e
}

/// The title made of the printable bytes of `s`, in order.
pub open spec fn title_of(s: Seq<u8>) -> Seq<char>
    decreases s.len(),
{
    if s.len() == 0 {
        Seq::empty()
    } else if is_title_byte(s.last()) {
        title_of(s.drop_last()).push(s.last() as char)
    } else {
        title_of(s.drop_last())
    }
}

/// Relies on String::push: appends one character.
#[verifier::external_body]
fn push_char(s: &mut String, c: char)
    ensures
        final(s)@ == old(s)@.push(c),
{
    s.push(c);
}

/// The title from the header's title bytes, without the bytes that are not
/// printable ASCII.
pub fn get_title(rom: &[u8]) -> (r: String)
    ensures
        r@ == title_of(rom@),
{
    let mut title = String::new();
    let mut i: usize = 0;
    while i < rom.len()
        invariant
            i <= rom@.len(),
            title@ == title_of(rom@.subrange(0, i as int)),
        decreases rom@.len() - i,
    {
        let b = rom[i];
        assert(rom@.subrange(0, i as int + 1).drop_last() == rom@.subrange(0, i as int));
        if 0x20 <= b && b <= 0x7e {
            push_char(&mut title, b as char);
        }
        i = i + 1;
    }
    assert(rom@.subrange(0, rom@.len() as int) == rom@);
    title
}

/// The name of a cartridge type code.
pub open spec fn mbc_type_name(t: u8) -> &'static str {
    if t == 0x00 {
        "ROM ONLY"
    } else if t == 0x01 {
        "MBC1"
    } else if t == 0x02 {
        "MBC1+RAM"
    } else if t == 0x03 {
        "MBC1+RAM+BATTERY"
    } else if t == 0x05 {
        "MBC2"
    } else if t == 0x06 {
        "MBC2+BATTERY"
    } else if t == 0x08 {
        "ROM+RAM"
    } else if t == 0x09 {
        "ROM+RAM+BATTERY"
    } else if t == 0x0b {
        "MMM01"
    } else if t == 0x0c {
        "MMM01+RAM"
    } else if t == 0x0d {
        "MMM01+RAM+BATTERY"
    } else if t == 0x0f {
        "MBC3+TIMER+BATTERY"
    } else if t == 0x10 {
        "MBC3+TIMER+RAM+BATTERY"
    } else if t == 0x11 {
        "MBC3"
    } else if t == 0x12 {
        "MBC3+RAM"
    } else if t == 0x13 {
        "MBC3+RAM+BATTERY"
    } else if t == 0x19 {
        "MBC5"
    } else if t == 0x1a {
        "MBC5+RAM"
    } else if t == 0x1b {
        "MBC5+RAM+BATTERY"
    } else if t == 0x1c {
        "MBC5+RUMBLE"
    } else if t == 0x1d {
        "MBC5+RUMBLE+RAM"
    } else if t == 0x1e {
        "MBC5+RUMBLE+RAM+BATTERY"
    } else if t == 0x20 {
        "MBC6"
    } else if t == 0x22 {
        "MBC7+SENSOR+RUMBLE+RAM+BATTERY"
    } else if t == 0xfc {
        "POCKET CAMERA"
    } else if t == 0xfd {
        "BANDAI TAMA5"
    } else if t == 0xfe {
        "HuC3"
    } else if t == 0xff {
        "HuC1+RAM+BATTERY"
    } else {
        "Invalid mbc type"
    }
}

/// The name of the cartridge type with code `mbc_type`.
pub fn get_mbc_type_name(mbc_type: u8) -> (r: &'static str)
    ensures
        r == mbc_type_name(mbc_type),
{
    match mbc_type {
        0x00 => "ROM ONLY",
        0x01 => "MBC1",
        0x02 => "MBC1+RAM",
        0x03 => "MBC1+RAM+BATTERY",
        0x05 => "MBC2",
        0x06 => "MBC2+BATTERY",
        0x08 => "ROM+RAM",
        0x09 => "ROM+RAM+BATTERY",
        0x0B => "MMM01",
        0x0C => "MMM01+RAM",
        0x0D => "MMM01+RAM+BATTERY",
        0x0F => "MBC3+TIMER+BATTERY",
        0x10 => "MBC3+TIMER+RAM+BATTERY",
        0x11 => "MBC3",
        0x12 => "MBC3+RAM",
        0x13 => "MBC3+RAM+BATTERY",
        0x19 => "MBC5",
        0x1A => "MBC5+RAM",
        0x1B => "MBC5+RAM+BATTERY",
        0x1C => "MBC5+RUMBLE",
        0x1D => "MBC5+RUMBLE+RAM",
        0x1E => "MBC5+RUMBLE+RAM+BATTERY",
        0x20 => "MBC6",
        0x22 => "MBC7+SENSOR+RUMBLE+RAM+BATTERY",
        0xFC => "POCKET CAMERA",
        0xFD => "BANDAI TAMA5",
        0xFE => "HuC3",
        0xFF => "HuC1+RAM+BATTERY",
        _ => "Invalid mbc type",
    }
}

/// Bounds of the masks that the bank registers apply.
pub proof fn lemma_masks(v: u8)
    by (bit_vector)
    ensures
        v & 0x01 < 0x02,
        v & 0x03 < 0x04,
        v & 0x0f < 0x10,
        v & 0x1f < 0x20,
        v & 0x7f < 0x80,
        v & 0x30 <= 0x30,
{
}

/// The ROM bank that an MBC1 maps at 0x4000-0x7FFF: the five low bits (0
/// counting as 1), joined in mode 0 by the two upper bits, and wrapped to
/// the number of banks.
pub open spec fn mbc1_rom_bank(mode: bool, low: u8, upper: u8, num_banks: u16) -> u16 {
    mbc1_selected_bank(mode, low, upper) & ((num_banks - 1) as u16)
}

/// The ROM bank number that an MBC1's registers select, before it is
/// wrapped to the number of banks.
pub open spec fn mbc1_selected_bank(mode: bool, low: u8, upper: u8) -> u16 {
    let bank: u16 = if mode {
        low as u16
    } else {
        ((upper as u16) << 5u16) | (low as u16)
    };
    if bank == 0 || bank == 0x20 || bank == 0x40 || bank == 0x60 {
        (bank + 1) as u16
    } else {
        bank
    }
}

impl RomOnly {
    pub fn new(rom: Vec<u8>) -> (r: Self)
        ensures
            r.rom@ == rom@,
    {
        RomOnly { rom }
    }

    pub open spec fn read_spec(&self, addr: u16) -> u8 {
        if addr <= 0x7fff {
            byte_at(self.rom@, addr as int)
        } else {
            0xff
        }
    }

    pub fn read(&self, addr: u16) -> (r: u8)
        ensures
            r == self.read_spec(addr),
    {
        if addr <= 0x7fff {
            get_byte(&self.rom, addr as usize)
        } else {
            0xff
        }
    }
}

impl MBC1 {
    pub open spec fn wf(&self) -> bool {
        2 <= self.num_rom_banks && self.rom_bank_no < 0x20 && self.ram_bank_no < 4
    }

    /// The selected ROM bank for 0x4000-0x7FFF.
    pub open spec fn rom_bank_spec(&self) -> u16 {
        mbc1_rom_bank(self.mode_flag, self.rom_bank_no, self.ram_bank_no, self.num_rom_banks)
    }

    /// The selected RAM bank: the two upper bits in mode 1, else bank 0.
    pub open spec fn ram_bank_spec(&self) -> u8 {
        if self.mode_flag {
            self.ram_bank_no
        } else {
            0
        }
    }

    pub open spec fn read_spec(&self, addr: u16) -> u8 {
        if addr <= 0x3fff {
            byte_at(self.rom@, addr as int)
        } else if addr <= 0x7fff {
            byte_at(self.rom@, 0x4000 * self.rom_bank_spec() + (addr - 0x4000))
        } else if !self.is_ram_enable {
            0xff
        } else {
            byte_at(self.ram@, 0x2000 * self.ram_bank_spec() + (addr - 0xa000))
        }
    }

    /// Whether `post` is this controller after a write of `value` to `addr`.
    pub open spec fn written(&self, post: &MBC1, addr: u16, value: u8) -> bool {
        &&& post.rom@ == self.rom@
        &&& post.num_rom_banks == self.num_rom_banks
        &&& post.title@ == self.title@
        &&& post.is_ram_enable == if addr <= 0x1fff {
            value & 0x0f == 0x0a
        } else {
            self.is_ram_enable
        }
        &&& post.rom_bank_no == if 0x2000 <= addr <= 0x3fff {
            value & 0x1f
        } else {
            self.rom_bank_no
        }
        &&& post.ram_bank_no == if 0x4000 <= addr <= 0x5fff {
            value & 0x03
        } else {
            self.ram_bank_no
        }
        &&& post.mode_flag == if 0x6000 <= addr <= 0x7fff {
            value & 0x01 == 0x01
        } else {
            self.mode_flag
        }
        &&& post.ram@ == if 0xa000 <= addr && self.is_ram_enable && 0x2000 * self.ram_bank_spec() + (
        addr - 0xa000) < self.ram@.len() {
            self.ram@.update(0x2000 * self.ram_bank_spec() + (addr - 0xa000), value)
        } else {
            self.ram@
        }
    }

    pub fn rom_bank_no(&self) -> (r: u16)
        requires
            self.wf(),
        ensures
            r == self.rom_bank_spec(),
            r < self.num_rom_banks,
    {
        let bank: u16 = if self.mode_flag {
            self.rom_bank_no as u16
        } else {
            ((self.ram_bank_no as u16) << 5u16) | (self.rom_bank_no as u16)
        };
        let bank: u16 = if bank == 0 || bank == 0x20 || bank == 0x40 || bank == 0x60 {
            bank + 1
        } else {
            bank
        };
        let n = self.num_rom_banks;
        assert((bank & ((n - 1) as u16)) <= ((n - 1) as u16)) by (bit_vector)
            requires
                n >= 2,
        ;
        bank & (n - 1)
    }

    pub fn ram_bank_no(&self) -> (r: u8)
        ensures
            r == self.ram_bank_spec(),
    {
        if self.mode_flag {
            self.ram_bank_no
        } else {
            0
        }
    }

    fn ram_index(&self, addr: u16) -> (r: usize)
        requires
            self.wf(),
            0xa000 <= addr <= 0xbfff,
        ensures
            r == 0x2000 * self.ram_bank_spec() + (addr - 0xa000),
    {
        (8 * 1024) * (self.ram_bank_no() as usize) + (addr - 0xa000) as usize
    }

    pub fn read(&self, addr: u16) -> (r: u8)
        requires
            self.wf(),
            is_cart_addr(addr),
        ensures
            r == self.read_spec(addr),
    {
        if addr <= 0x3fff {
            get_byte(&self.rom, addr as usize)
        } else if addr <= 0x7fff {
            let offset = (16 * 1024) * (self.rom_bank_no() as usize);
            get_byte(&self.rom, offset + (addr - 0x4000) as usize)
        } else if !self.is_ram_enable {
            0xff
        } else {
            get_byte(&self.ram, self.ram_index(addr))
        }
    }

    pub fn write(&mut self, addr: u16, value: u8)
        requires
            old(self).wf(),
            is_cart_addr(addr),
        ensures
            final(self).wf(),
            old(self).written(final(self), addr, value),
    {
        proof {
            lemma_masks(value);
        }
        if addr <= 0x1fff {
            self.is_ram_enable = value & 0x0f == 0x0a;
        } else if addr <= 0x3fff {
            self.rom_bank_no = value & 0x1f;
        } else if addr <= 0x5fff {
            self.ram_bank_no = value & 0x03;
        } else if addr <= 0x7fff {
            self.mode_flag = value & 0x01 == 0x01;
        } else if self.is_ram_enable {
            let i = self.ram_index(addr);
            set_byte(&mut self.ram, i, value);
        }
    }
}

impl MBC2 {
    pub open spec fn read_spec(&self, addr: u16) -> u8 {
        if addr <= 0x3fff {
            byte_at(self.rom@, addr as int)
        } else if addr <= 0x7fff {
            byte_at(self.rom@, self.rom_bank_no * 0x4000 + (addr - 0x4000))
        } else if addr <= 0xa1ff && self.ram_enable {
            byte_at(self.ram@, addr - 0xa000)
        } else {
            0xff
        }
    }

    /// Whether `post` is this controller after a write of `value` to `addr`;
    /// only the low nibble of a value counts.
    pub open spec fn written(&self, post: &MBC2, addr: u16, value: u8) -> bool {
        let v = value & 0x0f;
        &&& post.rom@ == self.rom@
        &&& post.title@ == self.title@
        &&& post.ram_enable == if addr <= 0x3fff && addr & 0x0100 == 0 {
            v == 0x0a
        } else {
            self.ram_enable
        }
        &&& post.rom_bank_no == if addr <= 0x3fff && addr & 0x0100 != 0 {
            v as usize
        } else {
            self.rom_bank_no
        }
        &&& post.ram@ == if 0xa000 <= addr <= 0xa1ff && self.ram_enable && addr - 0xa000
            < self.ram@.len() {
            self.ram@.update(addr - 0xa000, v)
        } else {
            self.ram@
        }
    }

    pub open spec fn wf(&self) -> bool {
        self.rom_bank_no < 16
    }

    pub fn new(rom: Vec<u8>, title: String) -> (r: Self)
        ensures
            r.wf(),
            r.rom@ == rom@,
            r.title@ == title@,
            r.ram@ == Seq::new(512, |i: int| 0u8),
            r.rom_bank_no == 0,
            !r.ram_enable,
    {
        MBC2 { rom, ram: vec![0u8; 512], rom_bank_no: 0, ram_enable: false, title }
    }

    pub fn read(&self, addr: u16) -> (r: u8)
        requires
            self.wf(),
            is_cart_addr(addr),
        ensures
            r == self.read_spec(addr),
    {
        if addr <= 0x3fff {
            get_byte(&self.rom, addr as usize)
        } else if addr <= 0x7fff {
            get_byte(&self.rom, self.rom_bank_no * 0x4000 + (addr - 0x4000) as usize)
        } else if addr <= 0xa1ff && self.ram_enable {
            get_byte(&self.ram, (addr - 0xa000) as usize)
        } else {
            0xff
        }
    }

    pub fn write(&mut self, addr: u16, value: u8)
        requires
            old(self).wf(),
            is_cart_addr(addr),
        ensures
            final(self).wf(),
            old(self).written(final(self), addr, value),
    {
        proof {
            lemma_masks(value);
        }
        let value = value & 0x0f;
        if addr <= 0x3fff {
            if addr & 0x0100 == 0 {
                self.ram_enable = value == 0x0a;
            } else {
                self.rom_bank_no = value as usize;
            }
        } else if 0xa000 <= addr && addr <= 0xa1ff {
            if self.ram_enable {
                set_byte(&mut self.ram, (addr - 0xa000) as usize, value);
            }
        }
    }
}

impl MBC3 {
    pub open spec fn wf(&self) -> bool {
        self.rom_bank_no < 0x80 && self.ram_bank_no < 0x10
    }

    pub open spec fn read_spec(&self, addr: u16) -> u8 {
        if addr <= 0x3fff {
            byte_at(self.rom@, addr as int)
        } else if addr <= 0x7fff {
            byte_at(self.rom@, self.rom_bank_no * 0x4000 + (addr - 0x4000))
        } else if !self.ram_enable {
            0xff
        } else if self.ram_bank_no <= 0x03 {
            byte_at(self.ram@, self.ram_bank_no * 0x2000 + (addr - 0xa000))
        } else if 0x08 <= self.ram_bank_no <= 0x0c {
            self.rtc.read_spec(self.ram_bank_no as u16)
        } else {
            0xff
        }
    }

    /// Whether `post` is this controller after a write of `value` to `addr`.
    /// A write of an odd value to 0x6000-0x7FFF latches the clock at some
    /// wall-clock time.
    pub open spec fn written(&self, post: &MBC3, addr: u16, value: u8) -> bool {
        &&& post.rom@ == self.rom@
        &&& post.title@ == self.title@
        &&& post.ram_enable == if addr <= 0x1fff {
            value & 0x0f == 0x0a
        } else {
            self.ram_enable
        }
        &&& post.rom_bank_no == if 0x2000 <= addr <= 0x3fff {
            if value & 0x7f == 0 {
                1
            } else {
                value & 0x7f
            }
        } else {
            self.rom_bank_no
        }
        &&& post.ram_bank_no == if 0x4000 <= addr <= 0x5fff {
            value & 0x0f
        } else {
            self.ram_bank_no
        }
        &&& post.ram@ == if 0xa000 <= addr && self.ram_enable && self.ram_bank_no <= 0x03
            && self.ram_bank_no * 0x2000 + (addr - 0xa000) < self.ram@.len() {
            self.ram@.update(self.ram_bank_no * 0x2000 + (addr - 0xa000), value)
        } else {
            self.ram@
        }
        &&& if 0x6000 <= addr <= 0x7fff && value & 0x01 != 0 {
            exists|now: i64| post.rtc == self.rtc.latched(now)
        } else if 0xa000 <= addr && self.ram_enable && 0x08 <= self.ram_bank_no <= 0x0c {
            post.rtc == self.rtc.written(self.ram_bank_no as u16, value)
        } else {
            post.rtc == self.rtc
        }
    }

    pub fn read(&self, addr: u16) -> (r: u8)
        requires
            self.wf(),
            is_cart_addr(addr),
        ensures
            r == self.read_spec(addr),
    {
        if addr <= 0x3fff {
            get_byte(&self.rom, addr as usize)
        } else if addr <= 0x7fff {
            get_byte(&self.rom, (self.rom_bank_no as usize) * 0x4000 + (addr - 0x4000) as usize)
        } else if !self.ram_enable {
            0xff
        } else if self.ram_bank_no <= 0x03 {
            get_byte(&self.ram, (self.ram_bank_no as usize) * 0x2000 + (addr - 0xa000) as usize)
        } else if 0x08 <= self.ram_bank_no && self.ram_bank_no <= 0x0c {
            self.rtc.read(self.ram_bank_no as u16)
        } else {
            0xff
        }
    }

    pub fn write(&mut self, addr: u16, value: u8)
        requires
            old(self).wf(),
            is_cart_addr(addr),
        ensures
            final(self).wf(),
            old(self).written(final(self), addr, value),
    {
        proof {
            lemma_masks(value);
        }
        if addr <= 0x1fff {
            self.ram_enable = (value & 0x0f) == 0x0a;
        } else if addr <= 0x3fff {
            let rom_bank = value & 0x7f;
            self.rom_bank_no = if rom_bank == 0 {
                1
            } else {
                rom_bank
            };
        } else if addr <= 0x5fff {
            self.ram_bank_no = value & 0x0f;
        } else if addr <= 0x7fff {
            if value & 0x01 != 0 {
                self.rtc.tic();
            }
        } else if self.ram_enable {
            if self.ram_bank_no <= 0x03 {
                let i = (self.ram_bank_no as usize) * 0x2000 + (addr - 0xa000) as usize;
                set_byte(&mut self.ram, i, value);
            } else if 0x08 <= self.ram_bank_no && self.ram_bank_no <= 0x0c {
                let reg = self.ram_bank_no as u16;
                self.rtc.write(reg, value);
            }
        }
    }
}

impl MBC5 {
    pub open spec fn wf(&self) -> bool {
        self.rom_bank_no < 0x200 && self.ram_bank_no < 0x10
    }

    pub open spec fn read_spec(&self, addr: u16) -> u8 {
        if addr <= 0x3fff {
            byte_at(self.rom@, addr as int)
        } else if addr <= 0x7fff {
            byte_at(self.rom@, self.rom_bank_no * 0x4000 + (addr - 0x4000))
        } else if self.ram_enable {
            byte_at(self.ram@, self.ram_bank_no * 0x2000 + (addr - 0xa000))
        } else {
            0xff
        }
    }

    /// Whether `post` is this controller after a write of `value` to `addr`.
    pub open spec fn written(&self, post: &MBC5, addr: u16, value: u8) -> bool {
        &&& post.rom@ == self.rom@
        &&& post.title@ == self.title@
        &&& post.ram_enable == if addr <= 0x1fff {
            value & 0x0f == 0x0a
        } else {
            self.ram_enable
        }
        &&& post.rom_bank_no == if 0x2000 <= addr <= 0x2fff {
            (self.rom_bank_no & 0x100) | (value as usize)
        } else if 0x3000 <= addr <= 0x3fff {
            (self.rom_bank_no & 0x0ff) | (((value & 0x01) as usize) << 8usize)
        } else {
            self.rom_bank_no
        }
        &&& post.ram_bank_no == if 0x4000 <= addr <= 0x5fff {
            (value & 0x0f) as usize
        } else {
            self.ram_bank_no
        }
        &&& post.ram@ == if 0xa000 <= addr && self.ram_enable && self.ram_bank_no * 0x2000 + (addr
            - 0xa000) < self.ram@.len() {
            self.ram@.update(self.ram_bank_no * 0x2000 + (addr - 0xa000), value)
        } else {
            self.ram@
        }
    }

    pub fn read(&self, addr: u16) -> (r: u8)
        requires
            self.wf(),
            is_cart_addr(addr),
        ensures
            r == self.read_spec(addr),
    {
        if addr <= 0x3fff {
            get_byte(&self.rom, addr as usize)
        } else if addr <= 0x7fff {
            get_byte(&self.rom, self.rom_bank_no * 0x4000 + (addr - 0x4000) as usize)
        } else if self.ram_enable {
            get_byte(&self.ram, self.ram_bank_no * 0x2000 + (addr - 0xa000) as usize)
        } else {
            0xff
        }
    }

    pub fn write(&mut self, addr: u16, value: u8)
        requires
            old(self).wf(),
            is_cart_addr(addr),
        ensures
            final(self).wf(),
            old(self).written(final(self), addr, value),
    {
        proof {
            lemma_masks(value);
        }
        if addr <= 0x1fff {
            self.ram_enable = (value & 0x0f) == 0x0a;
        } else if addr <= 0x2fff {
            let b = self.rom_bank_no;
            assert((b & 0x100) | (value as usize) < 0x200) by (bit_vector)
                requires
                    b < 0x200,
            ;
            self.rom_bank_no = (self.rom_bank_no & 0x100) | (value as usize);
        } else if addr <= 0x3fff {
            let b = self.rom_bank_no;
            assert((b & 0x0ff) | (((value & 0x01) as usize) << 8usize) < 0x200) by (bit_vector)
                requires
                    b < 0x200,
            ;
            self.rom_bank_no = (self.rom_bank_no & 0x0ff) | (((value & 0x01) as usize) << 8);
        } else if addr <= 0x5fff {
            self.ram_bank_no = (value & 0x0f) as usize;
        } else if 0xa000 <= addr && self.ram_enable {
            let i = self.ram_bank_no * 0x2000 + (addr - 0xa000) as usize;
            set_byte(&mut self.ram, i, value);
        }
    }
}

impl MBC1 {
    pub fn new(rom: Vec<u8>, title: String, ram: Vec<u8>) -> (r: Self)
        requires
            rom@.len() > 0x148,
            rom@[0x148] <= 8,
        ensures
            r.wf(),
            r.rom@ == rom@,
            r.ram@ == ram@,
            r.title@ == title@,
            r.num_rom_banks == 2 * pow2(rom@[0x148] as nat),
            !r.mode_flag && !r.is_ram_enable && r.rom_bank_no == 0 && r.ram_bank_no == 0,
    {
        let code = rom[0x148];
        let num_rom_banks = rom_banks(code);
        MBC1 {
            rom,
            ram,
            mode_flag: false,
            is_ram_enable: false,
            rom_bank_no: 0,
            ram_bank_no: 0,
            num_rom_banks,
            title,
        }
    }
}

impl MBC3 {
    pub fn new(rom: Vec<u8>, title: String, ram: Vec<u8>) -> (r: Self)
        ensures
            r.wf(),
            r.rom@ == rom@,
            r.ram@ == ram@,
            r.title@ == title@,
            r.rom_bank_no == 0 && r.ram_bank_no == 0 && !r.ram_enable,
    {
        MBC3 { rom, ram, rom_bank_no: 0, ram_bank_no: 0, rtc: Rtc::new(), ram_enable: false, title }
    }
}

impl MBC5 {
    pub fn new(rom: Vec<u8>, title: String, ram: Vec<u8>) -> (r: Self)
        ensures
            r.wf(),
            r.rom@ == rom@,
            r.ram@ == ram@,
            r.title@ == title@,
            r.rom_bank_no == 0 && r.ram_bank_no == 0 && !r.ram_enable,
    {
        MBC5 { rom, ram, rom_bank_no: 0, ram_bank_no: 0, ram_enable: false, title }
    }
}

/// The number of 16-KiB ROM banks for ROM size code `code`: 2 << code.
fn rom_banks(code: u8) -> (r: u16)
    requires
        code <= 8,
    ensures
        r == 2 * pow2(code as nat),
        r >= 2,
{
    let mut n: u16 = 2;
    let mut i: u8 = 0;
    proof {
        lemma2_to64();
    }
    while i < code
        invariant
            i <= code <= 8,
            n == 2 * pow2(i as nat),
        decreases code - i,
    {
        proof {
            lemma_pow2_unfold((i + 1) as nat);
            lemma_pow2_pos(i as nat);
            lemma_pow2_strictly_increases(i as nat, 8);
            lemma2_to64();
        }
        n = n * 2;
        i = i + 1;
    }
    proof {
        lemma_pow2_pos(i as nat);
    }
    n
}

fn ram_size(code: u8) -> (r: usize)
    requires
        code <= 5,
    ensures
        r == ram_size_kb(code),
{
    match code {
        0x00 => 0,
        0x01 => 2,
        0x02 => 8,
        0x03 => 32,
        0x04 => 128,
        _ => 64,
    }
}

/// The external RAM a cartridge starts with: the kept save data, or as many
/// zero bytes as RAM size code `code` declares.
pub open spec fn initial_ram(save: Option<Vec<u8>>, code: u8) -> Seq<u8> {
    match save {
        Some(v) => v@,
        None => Seq::new((ram_size_kb(code) * 1024) as nat, |i: int| 0u8),
    }
}

impl Cartridge {
    pub open spec fn wf(&self) -> bool {
        match self {
            Cartridge::RomOnly(_) => true,
            Cartridge::MBC1(c) => c.wf(),
            Cartridge::MBC2(c) => c.wf(),
            Cartridge::MBC3(c) => c.wf(),
            Cartridge::MBC5(c) => c.wf(),
        }
    }

    /// The ROM image.
    pub open spec fn rom_spec(&self) -> Seq<u8> {
        match self {
            Cartridge::RomOnly(c) => c.rom@,
            Cartridge::MBC1(c) => c.rom@,
            Cartridge::MBC2(c) => c.rom@,
            Cartridge::MBC3(c) => c.rom@,
            Cartridge::MBC5(c) => c.rom@,
        }
    }

    /// The value that a read of `addr` yields.
    pub open spec fn read_spec(&self, addr: u16) -> u8 {
        match self {
            Cartridge::RomOnly(c) => c.read_spec(addr),
            Cartridge::MBC1(c) => c.read_spec(addr),
            Cartridge::MBC2(c) => c.read_spec(addr),
            Cartridge::MBC3(c) => c.read_spec(addr),
            Cartridge::MBC5(c) => c.read_spec(addr),
        }
    }

    /// Whether `post` is this cartridge after a write of `value` to `addr`:
    /// the same controller, changed as its protocol says.
    pub open spec fn written(&self, post: &Cartridge, addr: u16, value: u8) -> bool {
        match (self, post) {
            (Cartridge::RomOnly(a), Cartridge::RomOnly(b)) => a.rom@ == b.rom@,
            (Cartridge::MBC1(a), Cartridge::MBC1(b)) => a.written(b, addr, value),
            (Cartridge::MBC2(a), Cartridge::MBC2(b)) => a.written(b, addr, value),
            (Cartridge::MBC3(a), Cartridge::MBC3(b)) => a.written(b, addr, value),
            (Cartridge::MBC5(a), Cartridge::MBC5(b)) => a.written(b, addr, value),
            _ => false,
        }
    }

    pub fn read(&self, addr: u16) -> (r: u8)
        requires
            self.wf(),
            is_cart_addr(addr),
        ensures
            r == self.read_spec(addr),
    {
        match self {
            Cartridge::RomOnly(c) => c.read(addr),
            Cartridge::MBC1(c) => c.read(addr),
            Cartridge::MBC2(c) => c.read(addr),
            Cartridge::MBC3(c) => c.read(addr),
            Cartridge::MBC5(c) => c.read(addr),
        }
    }

    pub fn write(&mut self, addr: u16, value: u8)
        requires
            old(self).wf(),
            is_cart_addr(addr),
        ensures
            final(self).wf(),
            old(self).written(final(self), addr, value),
    {
        match self {
            Cartridge::RomOnly(c) => {},
            Cartridge::MBC1(c) => c.write(addr, value),
            Cartridge::MBC2(c) => c.write(addr, value),
            Cartridge::MBC3(c) => c.write(addr, value),
            Cartridge::MBC5(c) => c.write(addr, value),
        }
    }

    /// The external RAM that a battery keeps, for the host to store; none
    /// for a cartridge without RAM.
    pub fn save_data(&self) -> (r: Option<&Vec<u8>>)
        ensures
            match self {
                Cartridge::RomOnly(_) => r is None,
                Cartridge::MBC1(c) => r == Some(&c.ram),
                Cartridge::MBC2(c) => r == Some(&c.ram),
                Cartridge::MBC3(c) => r == Some(&c.ram),
                Cartridge::MBC5(c) => r == Some(&c.ram),
            },
    {
        match self {
            Cartridge::RomOnly(_) => None,
            Cartridge::MBC1(c) => Some(&c.ram),
            Cartridge::MBC2(c) => Some(&c.ram),
            Cartridge::MBC3(c) => Some(&c.ram),
            Cartridge::MBC5(c) => Some(&c.ram),
        }
    }
}

/// The sixteen title bytes of the header (0x0134-0x0143).
pub open spec fn title_bytes(rom: Seq<u8>) -> Seq<u8> {
    rom.subrange(0x134, 0x144)
}

/// The title of a ROM image, for naming its save file.
pub fn header_title(rom: &Vec<u8>) -> (r: String)
    requires
        rom@.len() >= 0x144,
    ensures
        r@ == title_of(title_bytes(rom@)),
{
    let mut bytes: Vec<u8> = Vec::new();
    let mut i: usize = 0x134;
    while i < 0x144
        invariant
            0x134 <= i <= 0x144,
            rom@.len() >= 0x144,
            bytes@ == rom@.subrange(0x134, i as int),
        decreases 0x144 - i,
    {
        bytes.push(rom[i]);
        assert(bytes@ == rom@.subrange(0x134, i as int + 1));
        i = i + 1;
    }
    get_title(bytes.as_slice())
}

/// Whether `c` is the cartridge that a header of type `t` gives for `rom`,
/// in its power-on state, with `ram` as its external RAM.
pub open spec fn loaded(c: Cartridge, rom: Seq<u8>, ram: Seq<u8>) -> bool {
    let t = rom[0x147];
    &&& c.wf()
    &&& c.rom_spec() == rom
    &&& match c {
        Cartridge::RomOnly(_) => t == 0x00,
        Cartridge::MBC1(m) => 0x01 <= t <= 0x03 && m.ram@ == ram && !m.mode_flag && !m.is_ram_enable
            && m.rom_bank_no == 0 && m.ram_bank_no == 0 && m.num_rom_banks == 2 * pow2(
            rom[0x148] as nat,
        ),
        Cartridge::MBC2(m) => (t == 0x05 || t == 0x06) && m.ram@ == Seq::new(512, |i: int| 0u8)
            && m.rom_bank_no == 0 && !m.ram_enable,
        Cartridge::MBC3(m) => 0x0f <= t <= 0x13 && m.ram@ == ram && m.rom_bank_no == 0
            && m.ram_bank_no == 0 && !m.ram_enable,
        Cartridge::MBC5(m) => 0x19 <= t <= 0x1e && m.ram@ == ram && m.rom_bank_no == 0
            && m.ram_bank_no == 0 && !m.ram_enable,
    }
}

/// Builds the cartridge that a ROM image's header describes. `save` is the
/// external RAM kept from an earlier run, if any; without it the RAM that
/// the header declares starts zeroed.
pub fn new(rom: Vec<u8>, save: Option<Vec<u8>>) -> (r: Result<Cartridge, CartridgeError>)
    ensures
        rom@.len() < 0x8000 ==> r == Err::<Cartridge, CartridgeError>(CartridgeError::TooSmall),
        rom@.len() >= 0x8000 ==> {
            if rom@[0x148] > 8 {
                r == Err::<Cartridge, CartridgeError>(CartridgeError::UnknownRomSize(rom@[0x148]))
            } else if rom@[0x149] > 5 {
                r == Err::<Cartridge, CartridgeError>(CartridgeError::UnknownRamSize(rom@[0x149]))
            } else if header_checksum(rom@, 0x14d) != rom@[0x14d] {
                r == Err::<Cartridge, CartridgeError>(CartridgeError::BadChecksum)
            } else if !supported_type(rom@[0x147]) {
                r == Err::<Cartridge, CartridgeError>(CartridgeError::UnsupportedMbc(rom@[0x147]))
            } else {
                &&& r is Ok
                &&& loaded(r->Ok_0, rom@, initial_ram(save, rom@[0x149]))
            }
        },
{
    if rom.len() < 0x8000 {
        return Err(CartridgeError::TooSmall);
    }
    let rom_code = rom[0x148];
    if rom_code > 8 {
        return Err(CartridgeError::UnknownRomSize(rom_code));
    }
    let ram_code = rom[0x149];
    if ram_code > 5 {
        return Err(CartridgeError::UnknownRamSize(ram_code));
    }
    let mut checksum: u8 = 0;
    let mut index: usize = 0x134;
    while index <= 0x14c
        invariant
            0x134 <= index <= 0x14d,
            rom@.len() >= 0x8000,
            checksum == header_checksum(rom@, index as int),
        decreases 0x14d - index,
    {
        checksum = checksum.wrapping_sub(rom[index]).wrapping_sub(1);
        index = index + 1;
    }
    if checksum != rom[0x14d] {
        return Err(CartridgeError::BadChecksum);
    }
    let mbc_type = rom[0x147];
    if !(mbc_type == 0x00 || (0x01 <= mbc_type && mbc_type <= 0x03) || mbc_type == 0x05
        || mbc_type == 0x06 || (0x0f <= mbc_type && mbc_type <= 0x13) || (0x19 <= mbc_type
        && mbc_type <= 0x1e)) {
        return Err(CartridgeError::UnsupportedMbc(mbc_type));
    }
    let title = header_title(&rom);
    let ghost init = initial_ram(save, ram_code);
    let ram = match save {
        Some(v) => v,
        None => vec![0u8; ram_size(ram_code) * 1024],
    };
    assert(ram@ == init);
    if mbc_type == 0x00 {
        Ok(Cartridge::RomOnly(RomOnly::new(rom)))
    } else if mbc_type <= 0x03 {
        Ok(Cartridge::MBC1(MBC1::new(rom, title, ram)))
    } else if mbc_type <= 0x06 {
        Ok(Cartridge::MBC2(MBC2::new(rom, title)))
    } else if mbc_type <= 0x13 {
        Ok(Cartridge::MBC3(MBC3::new(rom, title, ram)))
    } else {
        Ok(Cartridge::MBC5(MBC5::new(rom, title, ram)))
    }
}

/// MBC1 bank wrap: when the selected bank number equals the number of
/// banks, 0x4000-0x7FFF shows bank 0.
pub proof fn law_mbc1_bank_wrap(c: MBC1, addr: u16, code: u8)
    requires
        c.wf(),
        code <= 8,
        c.num_rom_banks == 2 * pow2(code as nat),
        mbc1_selected_bank(c.mode_flag, c.rom_bank_no, c.ram_bank_no) == c.num_rom_banks,
        0x4000 <= addr <= 0x7fff,
    ensures
        c.read_spec(addr) == byte_at(c.rom@, addr - 0x4000),
{
    lemma2_to64();
    let n = c.num_rom_banks;
    assert(n == 2 || n == 4 || n == 8 || n == 16 || n == 32 || n == 64 || n == 128 || n == 256 || n
        == 512);
    assert((n == 2 || n == 4 || n == 8 || n == 16 || n == 32 || n == 64 || n == 128 || n == 256 || n
        == 512) ==> n & ((n - 1) as u16) == 0) by (bit_vector);
}

} // verus!

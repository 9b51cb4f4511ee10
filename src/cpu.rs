use vstd::prelude::*;

use crate::cartridge::Cartridge;
use crate::mmu::Mmu;
use crate::register::Register;
use crate::utils::{get_addr_from_registers, word};

verus! {

/// The five interrupt sources, in priority order.
#[derive(Clone, Copy, Debug, PartialEq, Eq, Structural)]
pub enum Interrupt {
    VBlank,
    LCDStat,
    Timer,
    Serial,
    Joypad,
}

/// The IF / IE bit of an interrupt source.
pub open spec fn interrupt_bit(i: Interrupt) -> u8 {
    match i {
        Interrupt::VBlank => 0x01,
        Interrupt::LCDStat => 0x02,
        Interrupt::Timer => 0x04,
        Interrupt::Serial => 0x08,
        Interrupt::Joypad => 0x10,
    }
}

impl Interrupt {
    /// The source's IF / IE bit.
    pub fn bit(&self) -> (r: u8)
        ensures
            r == interrupt_bit(*self),
    {
        match self {
            Interrupt::VBlank => 0x01,
            Interrupt::LCDStat => 0x02,
            Interrupt::Timer => 0x04,
            Interrupt::Serial => 0x08,
            Interrupt::Joypad => 0x10,
        }
    }
}

/// The address that an interrupt source's service routine starts at.
pub open spec fn interrupt_vector(i: Interrupt) -> u16 {
    match i {
        Interrupt::VBlank => 0x40,
        Interrupt::LCDStat => 0x48,
        Interrupt::Timer => 0x50,
        Interrupt::Serial => 0x58,
        Interrupt::Joypad => 0x60,
    }
}

/// A branch condition: Z or C flag clear or set.
#[derive(Clone, Copy, Debug, PartialEq, Eq, Structural)]
pub enum CcFlag {
    NZ,
    Z,
    NC,
    C,
}

/// An opcode that the CPU does not define was fetched.
#[derive(Clone, Copy, Debug, PartialEq, Eq, Structural)]
pub struct FatalDecodeError {
    pub opcode: u8,
    /// where the opcode was fetched from
    pub pc: u16,
}

/// The CPU's register file, flags and control bits: everything of the CPU
/// but the bus.
#[derive(Clone, Copy, Debug, PartialEq, Eq, Structural)]
pub struct CpuRegs {
    pub a: u8,
    pub b: u8,
    pub c: u8,
    pub d: u8,
    pub e: u8,
    pub h: u8,
    pub l: u8,
    pub sp: u16,
    pub pc: u16,
    pub zf: bool,
    pub nf: bool,
    pub hf: bool,
    pub cf: bool,
    pub ime: bool,
    pub ei_delay: bool,
    pub halt: bool,
    pub clock: u32,
}

/// The CPU: registers, flags, interrupt control, and the bus it owns.
pub struct Cpu {
    pub a: u8,
    pub b: u8,
    pub c: u8,
    pub d: u8,
    pub e: u8,
    pub h: u8,
    pub l: u8,
    pub sp: u16,
    pub pc: u16,
    pub zero_flag: bool,
    pub subtraction_flag: bool,
    pub half_carry_flag: bool,
    pub carry_flag: bool,
    pub mmu: Mmu,
    /// cycle counter; wraps
    pub clock: u32,
    /// interrupt master enable
    pub ime: bool,
    /// set by EI: interrupts are enabled after the next instruction
    pub ei_delay: bool,
    pub halt: bool,
}

/// The F register for the four flags: Z bit 7, N bit 6, H bit 5, C bit 4;
/// bits 3..0 are zero.
pub open spec fn flags_byte(z: bool, n: bool, h: bool, c: bool) -> u8 {
    ((if z {
        0x80int
    } else {
        0
    }) + (if n {
        0x40int
    } else {
        0
    }) + (if h {
        0x20int
    } else {
        0
    }) + (if c {
        0x10int
    } else {
        0
    })) as u8
}

/// The undefined opcodes; fetching one is fatal.
pub open spec fn is_undefined_opcode(op: u8) -> bool {
    op == 0xd3 || op == 0xdb || op == 0xdd || op == 0xe3 || op == 0xe4 || op == 0xeb || op == 0xec
        || op == 0xed || op == 0xf4 || op == 0xfc || op == 0xfd
}

impl CpuRegs {
    pub open spec fn hl(self) -> u16 {
        word(self.h, self.l)
    }

    pub open spec fn bc(self) -> u16 {
        word(self.b, self.c)
    }

    pub open spec fn de(self) -> u16 {
        word(self.d, self.e)
    }

    /// The value of 8-bit register `reg`.
    pub open spec fn r8(self, reg: Register) -> u8 {
        match reg {
            Register::A => self.a,
            Register::B => self.b,
            Register::C => self.c,
            Register::D => self.d,
            Register::E => self.e,
            Register::H => self.h,
            _ => self.l,
        }
    }

    /// The registers with 8-bit register `reg` set to `v`.
    pub open spec fn set_r8(self, reg: Register, v: u8) -> CpuRegs {
        match reg {
            Register::A => CpuRegs { a: v, ..self },
            Register::B => CpuRegs { b: v, ..self },
            Register::C => CpuRegs { c: v, ..self },
            Register::D => CpuRegs { d: v, ..self },
            Register::E => CpuRegs { e: v, ..self },
            Register::H => CpuRegs { h: v, ..self },
            _ => CpuRegs { l: v, ..self },
        }
    }

    /// The registers with the four flags set.
    pub open spec fn flags(self, z: bool, n: bool, h: bool, c: bool) -> CpuRegs {
        CpuRegs { zf: z, nf: n, hf: h, cf: c, ..self }
    }

    /// The registers after `n` more cycles.
    pub open spec fn tick(self, n: u32) -> CpuRegs {
        CpuRegs { clock: self.clock.wrapping_add(n), ..self }
    }

    /// The registers with PC moved on by `n`.
    pub open spec fn skip(self, n: u16) -> CpuRegs {
        CpuRegs { pc: self.pc.wrapping_add(n), ..self }
    }

    /// The F register.
    pub open spec fn f(self) -> u8 {
        flags_byte(self.zf, self.nf, self.hf, self.cf)
    }

    /// Whether branch condition `cc` holds.
    pub open spec fn cond(self, cc: CcFlag) -> bool {
        match cc {
            CcFlag::NZ => !self.zf,
            CcFlag::Z => self.zf,
            CcFlag::NC => !self.cf,
            CcFlag::C => self.cf,
        }
    }
}

impl Cpu {
    /// The register file as a value.
    pub open spec fn regs(&self) -> CpuRegs {
        CpuRegs {
            a: self.a,
            b: self.b,
            c: self.c,
            d: self.d,
            e: self.e,
            h: self.h,
            l: self.l,
            sp: self.sp,
            pc: self.pc,
            zf: self.zero_flag,
            nf: self.subtraction_flag,
            hf: self.half_carry_flag,
            cf: self.carry_flag,
            ime: self.ime,
            ei_delay: self.ei_delay,
            halt: self.halt,
            clock: self.clock,
        }
    }

    pub open spec fn wf(&self) -> bool {
        self.mmu.wf()
    }

    /// The value of 8-bit operand `reg`: a register, or for `HL` the byte at (HL).
    pub open spec fn operand(&self, reg: Register) -> u8 {
        if reg == Register::HL {
            self.mmu.read_spec(self.regs().hl())
        } else {
            self.regs().r8(reg)
        }
    }

    /// A CPU on `cartridge` in the state after the boot ROM hands over:
    /// PC at 0x0100, SP at 0xFFFE, other registers and flags clear,
    /// interrupts disabled.
    pub fn new(cartridge: Cartridge) -> (r: Self)
        requires
            cartridge.wf(),
        ensures
            r.wf(),
            r.regs() == (CpuRegs {
                a: 0,
                b: 0,
                c: 0,
                d: 0,
                e: 0,
                h: 0,
                l: 0,
                sp: 0xfffe,
                pc: 0x0100,
                zf: false,
                nf: false,
                hf: false,
                cf: false,
                ime: false,
                ei_delay: false,
                halt: false,
                clock: 0,
            }),
            r.mmu.cartridge == cartridge,
            r.mmu.is_power_on(),
    {
        Cpu {
            a: 0,
            b: 0,
            c: 0,
            d: 0,
            e: 0,
            h: 0,
            l: 0,
            sp: 0xfffe,
            pc: 0x100,
            zero_flag: false,
            subtraction_flag: false,
            half_carry_flag: false,
            carry_flag: false,
            mmu: Mmu::new(cartridge),
            clock: 0,
            ime: false,
            ei_delay: false,
            halt: false,
        }
    }

    /// The F register.
    pub fn get_f_num(&self) -> (r: u8)
        ensures
            r == self.regs().f(),
    {
        self.get_byte_from_flags()
    }

    /// The F register built from the four flags; the low nibble is zero.
    pub fn get_byte_from_flags(&self) -> (r: u8)
        ensures
            r == self.regs().f(),
            r & 0x0f == 0,
    {
        let mut res: u8 = 0;
        if self.zero_flag {
            res = res + 0b1000_0000;
        }
        if self.subtraction_flag {
            res = res + 0b0100_0000;
        }
        if self.half_carry_flag {
            res = res + 0b0010_0000;
        }
        if self.carry_flag {
            res = res + 0b0001_0000;
        }
        proof {
            lemma_flags_byte_low(self.zero_flag, self.subtraction_flag, self.half_carry_flag, self.carry_flag);
        }
        res
    }

    /// Sets the four flags from bits 7..4 of `value`.
    pub fn set_flags_from_byte(&mut self, value: u8)
        ensures
            final(self).regs() == old(self).regs().flags(
                value & 0x80 != 0,
                value & 0x40 != 0,
                value & 0x20 != 0,
                value & 0x10 != 0,
            ),
            final(self).mmu == old(self).mmu,
    {
        self.set_zero_flag((value & 0b1000_0000) != 0);
        self.set_subtraction_flag((value & 0b0100_0000) != 0);
        self.set_half_carry_flag((value & 0b0010_0000) != 0);
        self.set_carry_flag((value & 0b0001_0000) != 0);
    }

    pub fn set_zero_flag(&mut self, flag: bool)
        ensures
            final(self).regs() == (CpuRegs { zf: flag, ..old(self).regs() }),
            final(self).mmu == old(self).mmu,
    {
        self.zero_flag = flag;
    }

    pub fn set_subtraction_flag(&mut self, flag: bool)
        ensures
            final(self).regs() == (CpuRegs { nf: flag, ..old(self).regs() }),
            final(self).mmu == old(self).mmu,
    {
        self.subtraction_flag = flag;
    }

    pub fn set_half_carry_flag(&mut self, flag: bool)
        ensures
            final(self).regs() == (CpuRegs { hf: flag, ..old(self).regs() }),
            final(self).mmu == old(self).mmu,
    {
        self.half_carry_flag = flag;
    }

    pub fn set_carry_flag(&mut self, flag: bool)
        ensures
            final(self).regs() == (CpuRegs { cf: flag, ..old(self).regs() }),
            final(self).mmu == old(self).mmu,
    {
        self.carry_flag = flag;
    }

    /// Sets all four flags.
    fn set_flags(&mut self, z: bool, n: bool, h: bool, c: bool)
        ensures
            final(self).regs() == old(self).regs().flags(z, n, h, c),
            final(self).mmu == old(self).mmu,
    {
        self.zero_flag = z;
        self.subtraction_flag = n;
        self.half_carry_flag = h;
        self.carry_flag = c;
    }

    pub fn add_program_count(&mut self, count: u16)
        ensures
            final(self).regs() == old(self).regs().skip(count),
            final(self).mmu == old(self).mmu,
    {
        self.pc = self.pc.wrapping_add(count);
    }

    pub fn add_clock(&mut self, count: u32)
        ensures
            final(self).regs() == old(self).regs().tick(count),
            final(self).mmu == old(self).mmu,
    {
        self.clock = self.clock.wrapping_add(count);
    }

    /// Reads 8-bit operand `reg`: A, B, C, D, E, H, L, or (HL).
    pub fn read_r8(&self, reg: Register) -> (r: u8)
        requires
            self.wf(),
            reg.is_r8() || reg == Register::HL,
        ensures
            r == self.operand(reg),
    {
        match reg {
            Register::A => self.a,
            Register::B => self.b,
            Register::C => self.c,
            Register::D => self.d,
            Register::E => self.e,
            Register::H => self.h,
            Register::L => self.l,
            _ => {
                let addr = get_addr_from_registers(self.h, self.l);
                self.mmu.read_byte(addr)
            },
        }
    }

    /// Writes 8-bit operand `reg`: A, B, C, D, E, H, L, or (HL).
    pub fn write_r8(&mut self, reg: Register, value: u8)
        requires
            old(self).wf(),
            reg.is_r8() || reg == Register::HL,
        ensures
            final(self).wf(),
            reg != Register::HL ==> final(self).regs() == old(self).regs().set_r8(reg, value)
                && final(self).mmu == old(self).mmu,
            reg == Register::HL ==> final(self).regs() == old(self).regs() && old(self).mmu.written(
                &final(self).mmu,
                old(self).regs().hl(),
                value,
            ),
    {
        match reg {
            Register::A => self.a = value,
            Register::B => self.b = value,
            Register::C => self.c = value,
            Register::D => self.d = value,
            Register::E => self.e = value,
            Register::H => self.h = value,
            Register::L => self.l = value,
            _ => {
                let addr = get_addr_from_registers(self.h, self.l);
                self.mmu.write_byte(addr, value);
            },
        }
    }

    /// The little-endian word at `addr` and `addr + 1` (wrapping).
    pub fn read_word(&self, addr: u16) -> (r: u16)
        requires
            self.wf(),
        ensures
            r == word(self.mmu.read_spec(addr.wrapping_add(1)), self.mmu.read_spec(addr)),
    {
        let low_value = self.mmu.read_byte(addr);
        let high_value = self.mmu.read_byte(addr.wrapping_add(1));
        get_addr_from_registers(high_value, low_value)
    }

    /// Writes `value` little-endian at `addr` and `addr + 1` (wrapping).
    pub fn write_word(&mut self, addr: u16, value: u16)
        requires
            old(self).wf(),
        ensures
            final(self).wf(),
            final(self).regs() == old(self).regs(),
            word_written(old(self).mmu, final(self).mmu, addr, value),
    {
        let low_value = (value % 256) as u8;
        let high_value = (value / 256) as u8;
        let ghost m0 = self.mmu;
        self.mmu.write_byte(addr, low_value);
        let ghost m1 = self.mmu;
        self.mmu.write_byte(addr.wrapping_add(1), high_value);
        assert(m0.written(&m1, addr, (value % 256) as u8) && m1.wf() && m1.written(
            &self.mmu,
            addr.wrapping_add(1),
            (value / 256) as u8,
        ));
    }
}

/// Whether `post` is `pre` after `value` is written little-endian at
/// `addr` and `addr + 1`.
pub open spec fn word_written(pre: Mmu, post: Mmu, addr: u16, value: u16) -> bool {
    exists|m: Mmu|
        #![trigger pre.written(&m, addr, (value % 256) as u8)]
        pre.written(&m, addr, (value % 256) as u8) && m.wf() && m.written(
            &post,
            addr.wrapping_add(1),
            (value / 256) as u8,
        )
}

/// The F byte never has its low nibble set.
pub proof fn lemma_flags_byte_low(z: bool, n: bool, h: bool, c: bool)
    ensures
        flags_byte(z, n, h, c) & 0x0f == 0,
{
    let v = flags_byte(z, n, h, c);
    assert(v == 0x00 || v == 0x10 || v == 0x20 || v == 0x30 || v == 0x40 || v == 0x50 || v == 0x60
        || v == 0x70 || v == 0x80 || v == 0x90 || v == 0xa0 || v == 0xb0 || v == 0xc0 || v == 0xd0
        || v == 0xe0 || v == 0xf0);
    assert(v == 0x00 || v == 0x10 || v == 0x20 || v == 0x30 || v == 0x40 || v == 0x50 || v == 0x60
        || v == 0x70 || v == 0x80 || v == 0x90 || v == 0xa0 || v == 0xb0 || v == 0xc0 || v == 0xd0
        || v == 0xe0 || v == 0xf0 ==> v & 0x0f == 0) by (bit_vector);
}

/// The registers after A := A + v (+ carry when `with_carry`): Z if the
/// result is zero, H on carry out of bit 3, C on carry out of bit 7.
pub open spec fn alu_add(s: CpuRegs, v: u8, with_carry: bool) -> CpuRegs {
    let ci: int = if with_carry && s.cf {
        1
    } else {
        0
    };
    let res = ((s.a + v + ci) % 256) as u8;
    CpuRegs { a: res, ..s }.flags(res == 0, false, s.a % 16 + v % 16 + ci > 15, s.a + v + ci > 255)
}

/// The registers after A := A - v (- carry when `with_carry`): N set, H on
/// borrow from bit 4, C on borrow.
pub open spec fn alu_sub(s: CpuRegs, v: u8, with_carry: bool) -> CpuRegs {
    let ci: int = if with_carry && s.cf {
        1
    } else {
        0
    };
    let res = ((s.a - v - ci + 512) % 256) as u8;
    CpuRegs { a: res, ..s }.flags(res == 0, true, s.a % 16 < v % 16 + ci, s.a < v + ci)
}

/// The registers after A := A & v: H set, N and C clear.
pub open spec fn alu_and(s: CpuRegs, v: u8) -> CpuRegs {
    CpuRegs { a: s.a & v, ..s }.flags(s.a & v == 0, false, true, false)
}

/// The registers after A := A | v: N, H and C clear.
pub open spec fn alu_or(s: CpuRegs, v: u8) -> CpuRegs {
    CpuRegs { a: s.a | v, ..s }.flags(s.a | v == 0, false, false, false)
}

/// The registers after A := A ^ v: N, H and C clear.
pub open spec fn alu_xor(s: CpuRegs, v: u8) -> CpuRegs {
    CpuRegs { a: s.a ^ v, ..s }.flags(s.a ^ v == 0, false, false, false)
}

/// The flags of A - v, with A kept.
pub open spec fn alu_cp(s: CpuRegs, v: u8) -> CpuRegs {
    s.flags(s.a == v, true, s.a % 16 < v % 16, s.a < v)
}

impl Cpu {
    fn alu_add(&mut self, v: u8, with_carry: bool)
        ensures
            final(self).regs() == alu_add(old(self).regs(), v, with_carry),
            final(self).mmu == old(self).mmu,
    {
        let ci: u8 = if with_carry && self.carry_flag {
            1
        } else {
            0
        };
        let sum: u16 = self.a as u16 + v as u16 + ci as u16;
        let half = (self.a % 16) + (v % 16) + ci > 15;
        let res = (sum % 256) as u8;
        self.a = res;
        self.set_flags(res == 0, false, half, sum > 255);
    }

    fn alu_sub(&mut self, v: u8, with_carry: bool)
        ensures
            final(self).regs() == alu_sub(old(self).regs(), v, with_carry),
            final(self).mmu == old(self).mmu,
    {
        let ci: u8 = if with_carry && self.carry_flag {
            1
        } else {
            0
        };
        let diff: u16 = (self.a as u16 + 512) - v as u16 - ci as u16;
        let half = (self.a % 16) < (v % 16) + ci;
        let carry = (self.a as u16) < (v as u16) + (ci as u16);
        let res = (diff % 256) as u8;
        self.a = res;
        self.set_flags(res == 0, true, half, carry);
    }

    fn alu_and(&mut self, v: u8)
        ensures
            final(self).regs() == alu_and(old(self).regs(), v),
            final(self).mmu == old(self).mmu,
    {
        self.a = self.a & v;
        self.set_flags(self.a == 0, false, true, false);
    }

    fn alu_or(&mut self, v: u8)
        ensures
            final(self).regs() == alu_or(old(self).regs(), v),
            final(self).mmu == old(self).mmu,
    {
        self.a = self.a | v;
        self.set_flags(self.a == 0, false, false, false);
    }

    fn alu_xor(&mut self, v: u8)
        ensures
            final(self).regs() == alu_xor(old(self).regs(), v),
            final(self).mmu == old(self).mmu,
    {
        self.a = self.a ^ v;
        self.set_flags(self.a == 0, false, false, false);
    }

    fn alu_cp(&mut self, v: u8)
        ensures
            final(self).regs() == alu_cp(old(self).regs(), v),
            final(self).mmu == old(self).mmu,
    {
        let half = (self.a % 16) < (v % 16);
        self.set_flags(self.a == v, true, half, self.a < v);
    }
}
impl Cpu {
    /// Adds register `reg` to A.
    pub fn add_a_r(&mut self, reg: Register)
        requires
            old(self).wf(),
            reg.is_r8(),
        ensures
            final(self).wf(),
            final(self).mmu == old(self).mmu,
            final(self).regs() == alu_add(old(self).regs(), old(self).regs().r8(reg), false).tick(4),
    {
        let value = self.read_r8(reg);
        self.alu_add(value, false);
        self.add_clock(4);
    }

    /// Adds the byte at (HL) to A.
    pub fn add_a_hl(&mut self)
        requires
            old(self).wf(),
        ensures
            final(self).wf(),
            final(self).mmu == old(self).mmu,
            final(self).regs() == alu_add(old(self).regs(), old(self).mmu.read_spec(old(self).regs().hl()), false).tick(8),
    {
        let addr = get_addr_from_registers(self.h, self.l);
        let value = self.mmu.read_byte(addr);
        self.alu_add(value, false);
        self.add_clock(8);
    }

    /// Adds the immediate byte to A.
    pub fn add_a_d8(&mut self)
        requires
            old(self).wf(),
        ensures
            final(self).wf(),
            final(self).mmu == old(self).mmu,
            final(self).regs() == alu_add(old(self).regs(), old(self).mmu.read_spec(old(self).pc), false).skip(1).tick(8),
    {
        let value = self.mmu.read_byte(self.pc);
        self.alu_add(value, false);
        self.add_program_count(1);
        self.add_clock(8);
    }

    /// Adds register `reg` and the carry flag to A.
    pub fn adc_a_n(&mut self, reg: Register)
        requires
            old(self).wf(),
            reg.is_r8(),
        ensures
            final(self).wf(),
            final(self).mmu == old(self).mmu,
            final(self).regs() == alu_add(old(self).regs(), old(self).regs().r8(reg), true).tick(4),
    {
        let value = self.read_r8(reg);
        self.alu_add(value, true);
        self.add_clock(4);
    }

    /// Adds the byte at (HL) and the carry flag to A.
    pub fn adc_a_hl(&mut self)
        requires
            old(self).wf(),
        ensures
            final(self).wf(),
            final(self).mmu == old(self).mmu,
            final(self).regs() == alu_add(old(self).regs(), old(self).mmu.read_spec(old(self).regs().hl()), true).tick(8),
    {
        let addr = get_addr_from_registers(self.h, self.l);
        let value = self.mmu.read_byte(addr);
        self.alu_add(value, true);
        self.add_clock(8);
    }

    /// Adds the immediate byte and the carry flag to A.
    pub fn adc_a_d8(&mut self)
        requires
            old(self).wf(),
        ensures
            final(self).wf(),
            final(self).mmu == old(self).mmu,
            final(self).regs() == alu_add(old(self).regs(), old(self).mmu.read_spec(old(self).pc), true).skip(1).tick(8),
    {
        let value = self.mmu.read_byte(self.pc);
        self.alu_add(value, true);
        self.add_program_count(1);
        self.add_clock(8);
    }

    /// Subtracts register `reg` from A.
    pub fn sub_a_n(&mut self, reg: Register)
        requires
            old(self).wf(),
            reg.is_r8(),
        ensures
            final(self).wf(),
            final(self).mmu == old(self).mmu,
            final(self).regs() == alu_sub(old(self).regs(), old(self).regs().r8(reg), false).tick(4),
    {
        let value = self.read_r8(reg);
        self.alu_sub(value, false);
        self.add_clock(4);
    }

    /// Subtracts the byte at (HL) from A.
    pub fn sub_a_hl(&mut self)
        requires
            old(self).wf(),
        ensures
            final(self).wf(),
            final(self).mmu == old(self).mmu,
            final(self).regs() == alu_sub(old(self).regs(), old(self).mmu.read_spec(old(self).regs().hl()), false).tick(8),
    {
        let addr = get_addr_from_registers(self.h, self.l);
        let value = self.mmu.read_byte(addr);
        self.alu_sub(value, false);
        self.add_clock(8);
    }

    /// Subtracts the immediate byte from A.
    pub fn sub_a_d8(&mut self)
        requires
            old(self).wf(),
        ensures
            final(self).wf(),
            final(self).mmu == old(self).mmu,
            final(self).regs() == alu_sub(old(self).regs(), old(self).mmu.read_spec(old(self).pc), false).skip(1).tick(8),
    {
        let value = self.mmu.read_byte(self.pc);
        self.alu_sub(value, false);
        self.add_program_count(1);
        self.add_clock(8);
    }

    /// Subtracts register `reg` and the carry flag from A.
    pub fn sbc_a_n(&mut self, reg: Register)
        requires
            old(self).wf(),
            reg.is_r8(),
        ensures
            final(self).wf(),
            final(self).mmu == old(self).mmu,
            final(self).regs() == alu_sub(old(self).regs(), old(self).regs().r8(reg), true).tick(4),
    {
        let value = self.read_r8(reg);
        self.alu_sub(value, true);
        self.add_clock(4);
    }

    /// Subtracts the byte at (HL) and the carry flag from A.
    pub fn sbc_a_hl(&mut self)
        requires
            old(self).wf(),
        ensures
            final(self).wf(),
            final(self).mmu == old(self).mmu,
            final(self).regs() == alu_sub(old(self).regs(), old(self).mmu.read_spec(old(self).regs().hl()), true).tick(8),
    {
        let addr = get_addr_from_registers(self.h, self.l);
        let value = self.mmu.read_byte(addr);
        self.alu_sub(value, true);
        self.add_clock(8);
    }

    /// Subtracts the immediate byte and the carry flag from A.
    pub fn sbc_a_d8(&mut self)
        requires
            old(self).wf(),
        ensures
            final(self).wf(),
            final(self).mmu == old(self).mmu,
            final(self).regs() == alu_sub(old(self).regs(), old(self).mmu.read_spec(old(self).pc), true).skip(1).tick(8),
    {
        let value = self.mmu.read_byte(self.pc);
        self.alu_sub(value, true);
        self.add_program_count(1);
        self.add_clock(8);
    }

    /// ANDs register `reg` into A.
    pub fn and_r8(&mut self, reg: Register)
        requires
            old(self).wf(),
            reg.is_r8(),
        ensures
            final(self).wf(),
            final(self).mmu == old(self).mmu,
            final(self).regs() == alu_and(old(self).regs(), old(self).regs().r8(reg)).tick(4),
    {
        let value = self.read_r8(reg);
        self.alu_and(value);
        self.add_clock(4);
    }

    /// ANDs the byte at (HL) into A.
    pub fn and_hl(&mut self)
        requires
            old(self).wf(),
        ensures
            final(self).wf(),
            final(self).mmu == old(self).mmu,
            final(self).regs() == alu_and(old(self).regs(), old(self).mmu.read_spec(old(self).regs().hl())).tick(8),
    {
        let addr = get_addr_from_registers(self.h, self.l);
        let value = self.mmu.read_byte(addr);
        self.alu_and(value);
        self.add_clock(8);
    }

    /// ANDs the immediate byte into A.
    pub fn and_d8(&mut self)
        requires
            old(self).wf(),
        ensures
            final(self).wf(),
            final(self).mmu == old(self).mmu,
            final(self).regs() == alu_and(old(self).regs(), old(self).mmu.read_spec(old(self).pc)).skip(1).tick(8),
    {
        let value = self.mmu.read_byte(self.pc);
        self.alu_and(value);
        self.add_program_count(1);
        self.add_clock(8);
    }

    /// ORs register `reg` into A.
    pub fn or_r8(&mut self, reg: Register)
        requires
            old(self).wf(),
            reg.is_r8(),
        ensures
            final(self).wf(),
            final(self).mmu == old(self).mmu,
            final(self).regs() == alu_or(old(self).regs(), old(self).regs().r8(reg)).tick(4),
    {
        let value = self.read_r8(reg);
        self.alu_or(value);
        self.add_clock(4);
    }

    /// ORs the byte at (HL) into A.
    pub fn or_hl(&mut self)
        requires
            old(self).wf(),
        ensures
            final(self).wf(),
            final(self).mmu == old(self).mmu,
            final(self).regs() == alu_or(old(self).regs(), old(self).mmu.read_spec(old(self).regs().hl())).tick(8),
    {
        let addr = get_addr_from_registers(self.h, self.l);
        let value = self.mmu.read_byte(addr);
        self.alu_or(value);
        self.add_clock(8);
    }

    /// ORs the immediate byte into A.
    pub fn or_d8(&mut self)
        requires
            old(self).wf(),
        ensures
            final(self).wf(),
            final(self).mmu == old(self).mmu,
            final(self).regs() == alu_or(old(self).regs(), old(self).mmu.read_spec(old(self).pc)).skip(1).tick(8),
    {
        let value = self.mmu.read_byte(self.pc);
        self.alu_or(value);
        self.add_program_count(1);
        self.add_clock(8);
    }

    /// XORs register `reg` into A.
    pub fn xor_r8(&mut self, reg: Register)
        requires
            old(self).wf(),
            reg.is_r8(),
        ensures
            final(self).wf(),
            final(self).mmu == old(self).mmu,
            final(self).regs() == alu_xor(old(self).regs(), old(self).regs().r8(reg)).tick(4),
    {
        let value = self.read_r8(reg);
        self.alu_xor(value);
        self.add_clock(4);
    }

    /// XORs the byte at (HL) into A.
    pub fn xor_hl(&mut self)
        requires
            old(self).wf(),
        ensures
            final(self).wf(),
            final(self).mmu == old(self).mmu,
            final(self).regs() == alu_xor(old(self).regs(), old(self).mmu.read_spec(old(self).regs().hl())).tick(8),
    {
        let addr = get_addr_from_registers(self.h, self.l);
        let value = self.mmu.read_byte(addr);
        self.alu_xor(value);
        self.add_clock(8);
    }

    /// XORs the immediate byte into A.
    pub fn xor_d8(&mut self)
        requires
            old(self).wf(),
        ensures
            final(self).wf(),
            final(self).mmu == old(self).mmu,
            final(self).regs() == alu_xor(old(self).regs(), old(self).mmu.read_spec(old(self).pc)).skip(1).tick(8),
    {
        let value = self.mmu.read_byte(self.pc);
        self.alu_xor(value);
        self.add_program_count(1);
        self.add_clock(8);
    }

    /// Compares A with register `reg`, setting the flags of A - register `reg`.
    pub fn cp_r8(&mut self, reg: Register)
        requires
            old(self).wf(),
            reg.is_r8(),
        ensures
            final(self).wf(),
            final(self).mmu == old(self).mmu,
            final(self).regs() == alu_cp(old(self).regs(), old(self).regs().r8(reg)).tick(4),
    {
        let value = self.read_r8(reg);
        self.alu_cp(value);
        self.add_clock(4);
    }

    /// Compares A with the byte at (HL), setting the flags of A - the byte at (HL).
    pub fn cp_hl(&mut self)
        requires
            old(self).wf(),
        ensures
            final(self).wf(),
            final(self).mmu == old(self).mmu,
            final(self).regs() == alu_cp(old(self).regs(), old(self).mmu.read_spec(old(self).regs().hl())).tick(8),
    {
        let addr = get_addr_from_registers(self.h, self.l);
        let value = self.mmu.read_byte(addr);
        self.alu_cp(value);
        self.add_clock(8);
    }

    /// Compares A with the immediate byte, setting the flags of A - the immediate byte.
    pub fn cp_d8(&mut self)
        requires
            old(self).wf(),
        ensures
            final(self).wf(),
            final(self).mmu == old(self).mmu,
            final(self).regs() == alu_cp(old(self).regs(), old(self).mmu.read_spec(old(self).pc)).skip(1).tick(8),
    {
        let value = self.mmu.read_byte(self.pc);
        self.alu_cp(value);
        self.add_program_count(1);
        self.add_clock(8);
    }
}

/// The byte after an 8-bit increment, wrapping.
pub open spec fn inc8(v: u8) -> u8 {
    ((v + 1) % 256) as u8
}

/// The byte after an 8-bit decrement, wrapping.
pub open spec fn dec8(v: u8) -> u8 {
    ((v + 255) % 256) as u8
}

/// Sign extension of a byte to 16 bits.
pub open spec fn sext(v: u8) -> u16 {
    if v < 128 {
        v as u16
    } else {
        (v + 0xff00) as u16
    }
}

/// SP plus the signed byte `e`, wrapping.
pub open spec fn sp_plus(sp: u16, e: u8) -> u16 {
    ((sp + sext(e)) % 0x10000) as u16
}

/// The flags of SP + e: Z and N clear; H and C from the unsigned add of the
/// low byte, at bits 3 and 7.
pub open spec fn sp_add_flags(s: CpuRegs, e: u8) -> CpuRegs {
    s.flags(false, false, s.sp % 16 + e % 16 > 15, s.sp % 256 + e as int > 255)
}

/// The value of register pair `reg` (BC, DE, HL or SP).
pub open spec fn r16(s: CpuRegs, reg: Register) -> u16 {
    match reg {
        Register::BC => s.bc(),
        Register::DE => s.de(),
        Register::HL => s.hl(),
        _ => s.sp,
    }
}

/// The registers with pair `reg` (BC, DE, HL or SP) set to `v`.
pub open spec fn set_r16(s: CpuRegs, reg: Register, v: u16) -> CpuRegs {
    match reg {
        Register::BC => CpuRegs { b: (v / 256) as u8, c: (v % 256) as u8, ..s },
        Register::DE => CpuRegs { d: (v / 256) as u8, e: (v % 256) as u8, ..s },
        Register::HL => CpuRegs { h: (v / 256) as u8, l: (v % 256) as u8, ..s },
        _ => CpuRegs { sp: v, ..s },
    }
}

/// Whether `reg` names a pair that the 16-bit instructions take.
pub open spec fn is_r16(reg: Register) -> bool {
    reg == Register::BC || reg == Register::DE || reg == Register::HL || reg == Register::SP
}

/// A after decimal adjustment, with the carry that results.
pub open spec fn daa_spec(a: u8, n: bool, h: bool, c: bool) -> (u8, bool) {
    if !n {
        let (a1, c1) = if c || a > 0x99 {
            (((a + 0x60) % 256) as u8, true)
        } else {
            (a, c)
        };
        if h || a1 % 16 > 9 {
            (((a1 + 0x06) % 256) as u8, c1)
        } else {
            (a1, c1)
        }
    } else {
        let a1 = if c {
            ((a + 256 - 0x60) % 256) as u8
        } else {
            a
        };
        if h {
            (((a1 + 256 - 0x06) % 256) as u8, c)
        } else {
            (a1, c)
        }
    }
}

impl Cpu {
    /// Reads register pair `reg` (BC, DE, HL or SP).
    fn read_r16(&self, reg: Register) -> (r: u16)
        requires
            is_r16(reg),
        ensures
            r == r16(self.regs(), reg),
    {
        match reg {
            Register::BC => get_addr_from_registers(self.b, self.c),
            Register::DE => get_addr_from_registers(self.d, self.e),
            Register::HL => get_addr_from_registers(self.h, self.l),
            _ => self.sp,
        }
    }

    /// Writes register pair `reg` (BC, DE, HL or SP).
    fn write_r16(&mut self, reg: Register, v: u16)
        requires
            is_r16(reg),
        ensures
            final(self).regs() == set_r16(old(self).regs(), reg, v),
            final(self).mmu == old(self).mmu,
    {
        let hi = (v / 256) as u8;
        let lo = (v % 256) as u8;
        match reg {
            Register::BC => {
                self.b = hi;
                self.c = lo;
            },
            Register::DE => {
                self.d = hi;
                self.e = lo;
            },
            Register::HL => {
                self.h = hi;
                self.l = lo;
            },
            _ => self.sp = v,
        }
    }

    /// Increments register `reg`: Z, N clear, H on carry out of bit 3; C kept.
    pub fn inc_r8(&mut self, reg: Register)
        requires
            old(self).wf(),
            reg.is_r8(),
        ensures
            final(self).wf(),
            final(self).mmu == old(self).mmu,
            final(self).regs() == (CpuRegs {
                zf: inc8(old(self).regs().r8(reg)) == 0,
                nf: false,
                hf: old(self).regs().r8(reg) % 16 == 15,
                ..old(self).regs().set_r8(reg, inc8(old(self).regs().r8(reg)))
            }).tick(4),
    {
        let old_value = self.read_r8(reg);
        let value = ((old_value as u16 + 1) % 256) as u8;
        self.write_r8(reg, value);
        self.set_zero_flag(value == 0);
        self.set_subtraction_flag(false);
        self.set_half_carry_flag(old_value % 16 == 15);
        self.add_clock(4);
    }

    /// Increments the byte at (HL): flags as for a register.
    pub fn inc_hl(&mut self)
        requires
            old(self).wf(),
        ensures
            final(self).wf(),
            ({
                let v = old(self).mmu.read_spec(old(self).regs().hl());
                &&& old(self).mmu.written(&final(self).mmu, old(self).regs().hl(), inc8(v))
                &&& final(self).regs() == (CpuRegs {
                    zf: inc8(v) == 0,
                    nf: false,
                    hf: v % 16 == 15,
                    ..old(self).regs()
                }).tick(12)
            }),
    {
        let addr = get_addr_from_registers(self.h, self.l);
        let old_value = self.mmu.read_byte(addr);
        let value = ((old_value as u16 + 1) % 256) as u8;
        self.mmu.write_byte(addr, value);
        self.set_zero_flag(value == 0);
        self.set_subtraction_flag(false);
        self.set_half_carry_flag(old_value % 16 == 15);
        self.add_clock(12);
    }

    /// Decrements register `reg`: Z, N set, H on borrow from bit 4; C kept.
    pub fn dec_r8(&mut self, reg: Register)
        requires
            old(self).wf(),
            reg.is_r8(),
        ensures
            final(self).wf(),
            final(self).mmu == old(self).mmu,
            final(self).regs() == (CpuRegs {
                zf: dec8(old(self).regs().r8(reg)) == 0,
                nf: true,
                hf: old(self).regs().r8(reg) % 16 == 0,
                ..old(self).regs().set_r8(reg, dec8(old(self).regs().r8(reg)))
            }).tick(4),
    {
        let old_value = self.read_r8(reg);
        let value = ((old_value as u16 + 255) % 256) as u8;
        self.write_r8(reg, value);
        self.set_zero_flag(value == 0);
        self.set_subtraction_flag(true);
        self.set_half_carry_flag(old_value % 16 == 0);
        self.add_clock(4);
    }

    /// Decrements the byte at (HL): flags as for a register.
    pub fn dec_hl(&mut self)
        requires
            old(self).wf(),
        ensures
            final(self).wf(),
            ({
                let v = old(self).mmu.read_spec(old(self).regs().hl());
                &&& old(self).mmu.written(&final(self).mmu, old(self).regs().hl(), dec8(v))
                &&& final(self).regs() == (CpuRegs {
                    zf: dec8(v) == 0,
                    nf: true,
                    hf: v % 16 == 0,
                    ..old(self).regs()
                }).tick(12)
            }),
    {
        let addr = get_addr_from_registers(self.h, self.l);
        let old_value = self.mmu.read_byte(addr);
        let value = ((old_value as u16 + 255) % 256) as u8;
        self.mmu.write_byte(addr, value);
        self.set_zero_flag(value == 0);
        self.set_subtraction_flag(true);
        self.set_half_carry_flag(old_value % 16 == 0);
        self.add_clock(12);
    }

    /// Adds pair `reg` to HL: N clear, H on carry out of bit 11, C on carry
    /// out of bit 15; Z kept.
    pub fn add_hl_n(&mut self, reg: Register)
        requires
            old(self).wf(),
            is_r16(reg),
        ensures
            final(self).wf(),
            final(self).mmu == old(self).mmu,
            ({
                let s = old(self).regs();
                let v = r16(s, reg);
                final(self).regs() == (CpuRegs {
                    nf: false,
                    hf: s.hl() % 4096 + v % 4096 > 4095,
                    cf: s.hl() + v > 0xffff,
                    ..set_r16(s, Register::HL, ((s.hl() + v) % 0x10000) as u16)
                }).tick(8)
            }),
    {
        let value = self.read_r16(reg);
        let hl = get_addr_from_registers(self.h, self.l);
        let half = (hl % 4096) + (value % 4096) > 4095;
        let sum: u32 = hl as u32 + value as u32;
        self.write_r16(Register::HL, (sum % 0x10000) as u16);
        self.set_subtraction_flag(false);
        self.set_half_carry_flag(half);
        self.set_carry_flag(sum > 0xffff);
        self.add_clock(8);
    }

    /// SP + e for the signed immediate byte e.
    fn sp_plus_imm(&self, e: u8) -> (r: u16)
        ensures
            r == sp_plus(self.sp, e),
    {
        let ext: u16 = if e < 128 {
            e as u16
        } else {
            e as u16 + 0xff00
        };
        ((self.sp as u32 + ext as u32) % 0x10000) as u16
    }

    /// Adds the signed immediate byte to SP; H and C come from the unsigned
    /// add of the low byte.
    pub fn add_sp_d8(&mut self)
        requires
            old(self).wf(),
        ensures
            final(self).wf(),
            final(self).mmu == old(self).mmu,
            ({
                let s = old(self).regs();
                let e = old(self).mmu.read_spec(s.pc);
                final(self).regs() == (CpuRegs { sp: sp_plus(s.sp, e), ..sp_add_flags(s, e) }).skip(
                    1,
                ).tick(16)
            }),
    {
        let e = self.mmu.read_byte(self.pc);
        let half = (self.sp % 16) as u8 + e % 16 > 15;
        let carry = (self.sp % 256) + e as u16 > 255;
        self.sp = self.sp_plus_imm(e);
        self.set_flags(false, false, half, carry);
        self.add_program_count(1);
        self.add_clock(16);
    }

    /// Puts SP + e, for the signed immediate byte e, into HL; flags as for
    /// ADD SP, e.
    pub fn load_sp_n(&mut self)
        requires
            old(self).wf(),
        ensures
            final(self).wf(),
            final(self).mmu == old(self).mmu,
            ({
                let s = old(self).regs();
                let e = old(self).mmu.read_spec(s.pc);
                final(self).regs() == set_r16(sp_add_flags(s, e), Register::HL, sp_plus(s.sp, e)).skip(
                    1,
                ).tick(12)
            }),
    {
        let e = self.mmu.read_byte(self.pc);
        let half = (self.sp % 16) as u8 + e % 16 > 15;
        let carry = (self.sp % 256) + e as u16 > 255;
        let value = self.sp_plus_imm(e);
        self.write_r16(Register::HL, value);
        self.set_flags(false, false, half, carry);
        self.add_program_count(1);
        self.add_clock(12);
    }

    /// Increments pair `reg`, wrapping; no flags change.
    pub fn inc_r16(&mut self, reg: Register)
        requires
            old(self).wf(),
            is_r16(reg),
        ensures
            final(self).wf(),
            final(self).mmu == old(self).mmu,
            final(self).regs() == set_r16(
                old(self).regs(),
                reg,
                ((r16(old(self).regs(), reg) + 1) % 0x10000) as u16,
            ).tick(8),
    {
        let v = self.read_r16(reg);
        self.write_r16(reg, ((v as u32 + 1) % 0x10000) as u16);
        self.add_clock(8);
    }

    /// Decrements pair `reg`, wrapping; no flags change.
    pub fn dec_r16(&mut self, reg: Register)
        requires
            old(self).wf(),
            is_r16(reg),
        ensures
            final(self).wf(),
            final(self).mmu == old(self).mmu,
            final(self).regs() == set_r16(
                old(self).regs(),
                reg,
                ((r16(old(self).regs(), reg) + 0xffff) % 0x10000) as u16,
            ).tick(8),
    {
        let v = self.read_r16(reg);
        self.write_r16(reg, ((v as u32 + 0xffff) % 0x10000) as u16);
        self.add_clock(8);
    }

    /// Decimal-adjusts A after a BCD add or subtract: Z from the result, H
    /// clear, C set when the adjustment carried; N kept.
    pub fn daa(&mut self)
        requires
            old(self).wf(),
        ensures
            final(self).wf(),
            final(self).mmu == old(self).mmu,
            ({
                let s = old(self).regs();
                let (a, c) = daa_spec(s.a, s.nf, s.hf, s.cf);
                final(self).regs() == (CpuRegs { a: a, zf: a == 0, hf: false, cf: c, ..s }).tick(4)
            }),
    {
        let mut a = self.a;
        if !self.subtraction_flag {
            if self.carry_flag || a > 0x99 {
                a = ((a as u16 + 0x60) % 256) as u8;
                self.set_carry_flag(true);
            }
            if self.half_carry_flag || a % 16 > 0x09 {
                a = ((a as u16 + 0x06) % 256) as u8;
            }
        } else {
            if self.carry_flag {
                a = ((a as u16 + 256 - 0x60) % 256) as u8;
            }
            if self.half_carry_flag {
                a = ((a as u16 + 256 - 0x06) % 256) as u8;
            }
        }
        self.a = a;
        self.set_zero_flag(a == 0);
        self.set_half_carry_flag(false);
        self.add_clock(4);
    }

    /// Complements A: N and H set.
    pub fn cpl(&mut self)
        requires
            old(self).wf(),
        ensures
            final(self).wf(),
            final(self).mmu == old(self).mmu,
            final(self).regs() == (CpuRegs {
                a: !old(self).a,
                nf: true,
                hf: true,
                ..old(self).regs()
            }).tick(4),
    {
        self.a = !self.a;
        self.set_subtraction_flag(true);
        self.set_half_carry_flag(true);
        self.add_clock(4);
    }

    /// Complements the carry flag: N and H clear.
    pub fn ccf(&mut self)
        requires
            old(self).wf(),
        ensures
            final(self).wf(),
            final(self).mmu == old(self).mmu,
            final(self).regs() == (CpuRegs {
                nf: false,
                hf: false,
                cf: !old(self).carry_flag,
                ..old(self).regs()
            }).tick(4),
    {
        self.set_subtraction_flag(false);
        self.set_half_carry_flag(false);
        self.set_carry_flag(!self.carry_flag);
        self.add_clock(4);
    }

    /// Sets the carry flag: N and H clear.
    pub fn scf(&mut self)
        requires
            old(self).wf(),
        ensures
            final(self).wf(),
            final(self).mmu == old(self).mmu,
            final(self).regs() == (CpuRegs { nf: false, hf: false, cf: true, ..old(self).regs() }).tick(
                4,
            ),
    {
        self.set_subtraction_flag(false);
        self.set_half_carry_flag(false);
        self.set_carry_flag(true);
        self.add_clock(4);
    }

    pub fn nop(&mut self)
        requires
            old(self).wf(),
        ensures
            final(self).wf(),
            final(self).mmu == old(self).mmu,
            final(self).regs() == old(self).regs().tick(4),
    {
        self.add_clock(4);
    }

    /// Stops the CPU until an interrupt is pending.
    pub fn halt(&mut self)
        requires
            old(self).wf(),
        ensures
            final(self).wf(),
            final(self).mmu == old(self).mmu,
            final(self).regs() == (CpuRegs { halt: true, ..old(self).regs() }).tick(4),
    {
        self.halt = true;
        self.add_clock(4);
    }

    /// STOP: treated as a four-cycle no-op.
    pub fn stop(&mut self)
        requires
            old(self).wf(),
        ensures
            final(self).wf(),
            final(self).mmu == old(self).mmu,
            final(self).regs() == old(self).regs().tick(4),
    {
        self.add_clock(4);
    }

    /// Disables interrupts, including an enable that EI left pending.
    pub fn di(&mut self)
        requires
            old(self).wf(),
        ensures
            final(self).wf(),
            final(self).mmu == old(self).mmu,
            final(self).regs() == (CpuRegs { ime: false, ei_delay: false, ..old(self).regs() }).tick(4),
    {
        self.ime = false;
        self.ei_delay = false;
        self.add_clock(4);
    }

    /// Enables interrupts after the instruction that follows.
    pub fn ei(&mut self)
        requires
            old(self).wf(),
        ensures
            final(self).wf(),
            final(self).mmu == old(self).mmu,
            final(self).regs() == (CpuRegs { ei_delay: true, ..old(self).regs() }).tick(4),
    {
        self.ei_delay = true;
        self.add_clock(4);
    }
}

/// Rotate left: bit 7 goes round to bit 0.
pub open spec fn rlc8(v: u8) -> u8 {
    ((v % 128) * 2 + v / 128) as u8
}

/// Rotate right: bit 0 goes round to bit 7.
pub open spec fn rrc8(v: u8) -> u8 {
    (v / 2 + (v % 2) * 128) as u8
}

/// Rotate left through the carry `c`.
pub open spec fn rl8(v: u8, c: bool) -> u8 {
    ((v % 128) * 2 + if c {
        1int
    } else {
        0
    }) as u8
}

/// Rotate right through the carry `c`.
pub open spec fn rr8(v: u8, c: bool) -> u8 {
    (v / 2 + if c {
        128int
    } else {
        0
    }) as u8
}

/// Arithmetic shift left.
pub open spec fn sla8(v: u8) -> u8 {
    ((v % 128) * 2) as u8
}

/// Arithmetic shift right: bit 7 is kept.
pub open spec fn sra8(v: u8) -> u8 {
    (v / 2 + (v / 128) * 128) as u8
}

/// Logical shift right.
pub open spec fn srl8(v: u8) -> u8 {
    (v / 2) as u8
}

/// The nibbles of `v` exchanged.
pub open spec fn swap8(v: u8) -> u8 {
    ((v % 16) * 16 + v / 16) as u8
}

/// Whether bit `b` of `v` is set.
pub open spec fn bit_set(v: u8, b: u8) -> bool {
    (v >> b) & 1 == 1
}

/// `v` with bit `b` cleared.
pub open spec fn res8(v: u8, b: u8) -> u8 {
    v & !((1u8 << b) as u8)
}

/// `v` with bit `b` set.
pub open spec fn set8(v: u8, b: u8) -> u8 {
    v | ((1u8 << b) as u8)
}

/// Whether `post` holds the result `v` of a CB-prefixed instruction on
/// operand `reg`, with register file `s` otherwise: a register takes it
/// directly, (HL) through the bus.
pub open spec fn operand_stored(pre: &Cpu, post: &Cpu, reg: Register, v: u8, s: CpuRegs) -> bool {
    if reg == Register::HL {
        post.regs() == s && pre.mmu.written(&post.mmu, pre.regs().hl(), v)
    } else {
        post.regs() == s.set_r8(reg, v) && post.mmu == pre.mmu
    }
}

/// The cycles of a CB-prefixed rotate, shift, RES or SET: 16 on (HL), else 8.
pub open spec fn cb_cycles(reg: Register) -> u32 {
    if reg == Register::HL {
        16
    } else {
        8
    }
}

impl Cpu {
    /// Stores the result of a CB-prefixed instruction in its operand, sets
    /// the flags, steps over the second opcode byte and counts the cycles.
    fn cb_finish(&mut self, reg: Register, v: u8, z: bool, n: bool, h: bool, c: bool)
        requires
            old(self).wf(),
            reg.is_r8() || reg == Register::HL,
        ensures
            final(self).wf(),
            operand_stored(
                old(self),
                final(self),
                reg,
                v,
                old(self).regs().flags(z, n, h, c).skip(1).tick(cb_cycles(reg)),
            ),
    {
        self.write_r8(reg, v);
        self.set_flags(z, n, h, c);
        self.add_program_count(1);
        if reg == Register::HL {
            self.add_clock(16);
        } else {
            self.add_clock(8);
        }
    }

    /// Rotates operand `reg` left; old bit 7 to the carry. Z from the result, N and H clear.
    pub fn rlc_n(&mut self, reg: Register)
        requires
            old(self).wf(),
            reg.is_r8() || reg == Register::HL,
        ensures
            final(self).wf(),
            ({
                let s = old(self).regs();
                let v = old(self).operand(reg);
                let r = rlc8(v);
                operand_stored(
                    old(self),
                    final(self),
                    reg,
                    r,
                    s.flags(r == 0, false, false, v >= 128).skip(1).tick(cb_cycles(reg)),
                )
            }),
    {
        let v = self.read_r8(reg);
        let r = ((v % 128) * 2 + v / 128) as u8;
        self.cb_finish(reg, r, r == 0, false, false, v >= 128);
    }

    /// Rotates operand `reg` right; old bit 0 to the carry. Z from the result, N and H clear.
    pub fn rrc_n(&mut self, reg: Register)
        requires
            old(self).wf(),
            reg.is_r8() || reg == Register::HL,
        ensures
            final(self).wf(),
            ({
                let s = old(self).regs();
                let v = old(self).operand(reg);
                let r = rrc8(v);
                operand_stored(
                    old(self),
                    final(self),
                    reg,
                    r,
                    s.flags(r == 0, false, false, v % 2 == 1).skip(1).tick(cb_cycles(reg)),
                )
            }),
    {
        let v = self.read_r8(reg);
        let r = (v / 2 + (v % 2) * 128) as u8;
        self.cb_finish(reg, r, r == 0, false, false, v % 2 == 1);
    }

    /// Rotates operand `reg` left through the carry. Z from the result, N and H clear.
    pub fn rl_n(&mut self, reg: Register)
        requires
            old(self).wf(),
            reg.is_r8() || reg == Register::HL,
        ensures
            final(self).wf(),
            ({
                let s = old(self).regs();
                let v = old(self).operand(reg);
                let r = rl8(v, s.cf);
                operand_stored(
                    old(self),
                    final(self),
                    reg,
                    r,
                    s.flags(r == 0, false, false, v >= 128).skip(1).tick(cb_cycles(reg)),
                )
            }),
    {
        let v = self.read_r8(reg);
        let cin: u8 = if self.carry_flag {
            1
        } else {
            0
        };
        let r = ((v % 128) * 2 + cin) as u8;
        self.cb_finish(reg, r, r == 0, false, false, v >= 128);
    }

    /// Rotates operand `reg` right through the carry. Z from the result, N and H clear.
    pub fn rr_n(&mut self, reg: Register)
        requires
            old(self).wf(),
            reg.is_r8() || reg == Register::HL,
        ensures
            final(self).wf(),
            ({
                let s = old(self).regs();
                let v = old(self).operand(reg);
                let r = rr8(v, s.cf);
                operand_stored(
                    old(self),
                    final(self),
                    reg,
                    r,
                    s.flags(r == 0, false, false, v % 2 == 1).skip(1).tick(cb_cycles(reg)),
                )
            }),
    {
        let v = self.read_r8(reg);
        let cin: u8 = if self.carry_flag {
            1
        } else {
            0
        };
        let r = (v / 2 + cin * 128) as u8;
        self.cb_finish(reg, r, r == 0, false, false, v % 2 == 1);
    }

    /// Shifts operand `reg` left into the carry; bit 0 becomes 0. Z from the result, N and H clear.
    pub fn sla_n(&mut self, reg: Register)
        requires
            old(self).wf(),
            reg.is_r8() || reg == Register::HL,
        ensures
            final(self).wf(),
            ({
                let s = old(self).regs();
                let v = old(self).operand(reg);
                let r = sla8(v);
                operand_stored(
                    old(self),
                    final(self),
                    reg,
                    r,
                    s.flags(r == 0, false, false, v >= 128).skip(1).tick(cb_cycles(reg)),
                )
            }),
    {
        let v = self.read_r8(reg);
        let r = ((v % 128) * 2) as u8;
        self.cb_finish(reg, r, r == 0, false, false, v >= 128);
    }

    /// Shifts operand `reg` right into the carry; bit 7 is kept. Z from the result, N and H clear.
    pub fn sra_n(&mut self, reg: Register)
        requires
            old(self).wf(),
            reg.is_r8() || reg == Register::HL,
        ensures
            final(self).wf(),
            ({
                let s = old(self).regs();
                let v = old(self).operand(reg);
                let r = sra8(v);
                operand_stored(
                    old(self),
                    final(self),
                    reg,
                    r,
                    s.flags(r == 0, false, false, v % 2 == 1).skip(1).tick(cb_cycles(reg)),
                )
            }),
    {
        let v = self.read_r8(reg);
        let r = (v / 2 + (v / 128) * 128) as u8;
        self.cb_finish(reg, r, r == 0, false, false, v % 2 == 1);
    }

    /// Exchanges the nibbles of operand `reg`; the carry is cleared. Z from the result, N and H clear.
    pub fn swap(&mut self, reg: Register)
        requires
            old(self).wf(),
            reg.is_r8() || reg == Register::HL,
        ensures
            final(self).wf(),
            ({
                let s = old(self).regs();
                let v = old(self).operand(reg);
                let r = swap8(v);
                operand_stored(
                    old(self),
                    final(self),
                    reg,
                    r,
                    s.flags(r == 0, false, false, false).skip(1).tick(cb_cycles(reg)),
                )
            }),
    {
        let v = self.read_r8(reg);
        let r = ((v % 16) * 16 + v / 16) as u8;
        self.cb_finish(reg, r, r == 0, false, false, false);
    }

    /// Shifts operand `reg` right into the carry; bit 7 becomes 0. Z from the result, N and H clear.
    pub fn srl_n(&mut self, reg: Register)
        requires
            old(self).wf(),
            reg.is_r8() || reg == Register::HL,
        ensures
            final(self).wf(),
            ({
                let s = old(self).regs();
                let v = old(self).operand(reg);
                let r = srl8(v);
                operand_stored(
                    old(self),
                    final(self),
                    reg,
                    r,
                    s.flags(r == 0, false, false, v % 2 == 1).skip(1).tick(cb_cycles(reg)),
                )
            }),
    {
        let v = self.read_r8(reg);
        let r = (v / 2) as u8;
        self.cb_finish(reg, r, r == 0, false, false, v % 2 == 1);
    }

    /// Tests bit `b` of operand `reg`: Z when it is clear, N clear, H set;
    /// C kept.
    pub fn bit(&mut self, reg: Register, b: u8)
        requires
            old(self).wf(),
            reg.is_r8() || reg == Register::HL,
            b < 8,
        ensures
            final(self).wf(),
            final(self).mmu == old(self).mmu,
            final(self).regs() == (CpuRegs {
                zf: !bit_set(old(self).operand(reg), b),
                nf: false,
                hf: true,
                ..old(self).regs()
            }).skip(1).tick(
                if reg == Register::HL {
                    12
                } else {
                    8
                },
            ),
    {
        let value = self.read_r8(reg);
        let zero_flag = ((value >> b) & 1) == 0;
        proof {
            lemma_bit_test(value, b);
        }
        self.set_zero_flag(zero_flag);
        self.set_subtraction_flag(false);
        self.set_half_carry_flag(true);
        self.add_program_count(1);
        if reg == Register::HL {
            self.add_clock(12);
        } else {
            self.add_clock(8);
        }
    }

    /// Clears bit `b` of operand `reg`; no flags change.
    pub fn res(&mut self, reg: Register, b: u8)
        requires
            old(self).wf(),
            reg.is_r8() || reg == Register::HL,
            b < 8,
        ensures
            final(self).wf(),
            operand_stored(
                old(self),
                final(self),
                reg,
                res8(old(self).operand(reg), b),
                old(self).regs().skip(1).tick(cb_cycles(reg)),
            ),
    {
        let value = self.read_r8(reg);
        let value = value & !(1u8 << b);
        let ghost s = self.regs();
        self.cb_finish(reg, value, self.zero_flag, self.subtraction_flag, self.half_carry_flag, self.carry_flag);
        assert(s.flags(s.zf, s.nf, s.hf, s.cf) == s);
    }

    /// Sets bit `b` of operand `reg`; no flags change.
    pub fn set(&mut self, reg: Register, b: u8)
        requires
            old(self).wf(),
            reg.is_r8() || reg == Register::HL,
            b < 8,
        ensures
            final(self).wf(),
            operand_stored(
                old(self),
                final(self),
                reg,
                set8(old(self).operand(reg), b),
                old(self).regs().skip(1).tick(cb_cycles(reg)),
            ),
    {
        let value = self.read_r8(reg);
        let value = value | (1u8 << b);
        let ghost s = self.regs();
        self.cb_finish(reg, value, self.zero_flag, self.subtraction_flag, self.half_carry_flag, self.carry_flag);
        assert(s.flags(s.zf, s.nf, s.hf, s.cf) == s);
    }
}

/// Testing a bit by shifting it down is `bit_set`.
pub proof fn lemma_bit_test(v: u8, b: u8)
    by (bit_vector)
    requires
        b < 8,
    ensures
        (((v >> b) & 1) == 0) == !bit_set(v, b),
{
}

impl Cpu {
    /// Rotates A left; old bit 7 to the carry. Z, N and H clear.
    pub fn rlca(&mut self)
        requires
            old(self).wf(),
        ensures
            final(self).wf(),
            final(self).mmu == old(self).mmu,
            ({
                let s = old(self).regs();
                final(self).regs() == (CpuRegs { a: rlc8(s.a), ..s }).flags(false, false, false, s.a >= 128).tick(4)
            }),
    {
        let carry = self.a >= 128;
        self.a = ((self.a % 128) * 2 + self.a / 128) as u8;
        self.set_flags(false, false, false, carry);
        self.add_clock(4);
    }

    /// Rotates A left through the carry. Z, N and H clear.
    pub fn rla(&mut self)
        requires
            old(self).wf(),
        ensures
            final(self).wf(),
            final(self).mmu == old(self).mmu,
            ({
                let s = old(self).regs();
                final(self).regs() == (CpuRegs { a: rl8(s.a, s.cf), ..s }).flags(false, false, false, s.a >= 128).tick(4)
            }),
    {
        let cin: u8 = if self.carry_flag {
            1
        } else {
            0
        };
        let carry = self.a >= 128;
        self.a = ((self.a % 128) * 2 + cin) as u8;
        self.set_flags(false, false, false, carry);
        self.add_clock(4);
    }

    /// Rotates A right; old bit 0 to the carry. Z, N and H clear.
    pub fn rrca(&mut self)
        requires
            old(self).wf(),
        ensures
            final(self).wf(),
            final(self).mmu == old(self).mmu,
            ({
                let s = old(self).regs();
                final(self).regs() == (CpuRegs { a: rrc8(s.a), ..s }).flags(false, false, false, s.a % 2 == 1).tick(4)
            }),
    {
        let carry = self.a % 2 == 1;
        self.a = (self.a / 2 + (self.a % 2) * 128) as u8;
        self.set_flags(false, false, false, carry);
        self.add_clock(4);
    }

    /// Rotates A right through the carry. Z, N and H clear.
    pub fn rra(&mut self)
        requires
            old(self).wf(),
        ensures
            final(self).wf(),
            final(self).mmu == old(self).mmu,
            ({
                let s = old(self).regs();
                final(self).regs() == (CpuRegs { a: rr8(s.a, s.cf), ..s }).flags(false, false, false, s.a % 2 == 1).tick(4)
            }),
    {
        let cin: u8 = if self.carry_flag {
            1
        } else {
            0
        };
        let carry = self.a % 2 == 1;
        self.a = (self.a / 2 + cin * 128) as u8;
        self.set_flags(false, false, false, carry);
        self.add_clock(4);
    }
}


/// The registers after a register pair is loaded from the stack: `lo` from
/// (SP), `hi` from (SP + 1). POP AF keeps only bits 7..4 of F.
pub open spec fn popped(s: CpuRegs, reg: Register, hi: u8, lo: u8) -> CpuRegs {
    match reg {
        Register::A => CpuRegs { a: hi, ..s }.flags(
            lo & 0x80 != 0,
            lo & 0x40 != 0,
            lo & 0x20 != 0,
            lo & 0x10 != 0,
        ),
        Register::B => CpuRegs { b: hi, c: lo, ..s },
        Register::D => CpuRegs { d: hi, e: lo, ..s },
        _ => CpuRegs { h: hi, l: lo, ..s },
    }
}

/// The word that PUSH stores for the pair whose high register is `reg`
/// (A for AF, B for BC, D for DE, H for HL).
pub open spec fn pushed(s: CpuRegs, reg: Register) -> u16 {
    match reg {
        Register::A => word(s.a, s.f()),
        Register::B => s.bc(),
        Register::D => s.de(),
        _ => s.hl(),
    }
}

/// Whether (`reg1`, `reg2`) is a pair that PUSH and POP take: AF, BC, DE, HL.
pub open spec fn is_stack_pair(reg1: Register, reg2: Register) -> bool {
    (reg1 == Register::A && reg2 == Register::F) || (reg1 == Register::B && reg2 == Register::C) || (
    reg1 == Register::D && reg2 == Register::E) || (reg1 == Register::H && reg2 == Register::L)
}

impl Cpu {
    /// Loads the immediate byte into register `reg`.
    pub fn load_nn_n(&mut self, reg: Register)
        requires
            old(self).wf(),
            reg.is_r8(),
        ensures
            final(self).wf(),
            final(self).mmu == old(self).mmu,
            final(self).regs() == old(self).regs().set_r8(reg, old(self).mmu.read_spec(old(self).pc)).skip(
                1,
            ).tick(8),
    {
        let value = self.mmu.read_byte(self.pc);
        self.write_r8(reg, value);
        self.add_program_count(1);
        self.add_clock(8);
    }

    /// Copies register `reg2` into register `reg1`.
    pub fn load_r1_r2(&mut self, reg1: Register, reg2: Register)
        requires
            old(self).wf(),
            reg1.is_r8(),
            reg2.is_r8(),
        ensures
            final(self).wf(),
            final(self).mmu == old(self).mmu,
            final(self).regs() == old(self).regs().set_r8(reg1, old(self).regs().r8(reg2)).tick(4),
    {
        let value = self.read_r8(reg2);
        self.write_r8(reg1, value);
        self.add_clock(4);
    }

    /// Loads the byte at (HL) into register `reg1`.
    pub fn load_r1_hl(&mut self, reg1: Register)
        requires
            old(self).wf(),
            reg1.is_r8(),
        ensures
            final(self).wf(),
            final(self).mmu == old(self).mmu,
            final(self).regs() == old(self).regs().set_r8(
                reg1,
                old(self).mmu.read_spec(old(self).regs().hl()),
            ).tick(8),
    {
        let addr = get_addr_from_registers(self.h, self.l);
        let value = self.mmu.read_byte(addr);
        self.write_r8(reg1, value);
        self.add_clock(8);
    }

    /// Stores register `reg1` at (HL).
    pub fn load_hl_r1(&mut self, reg1: Register)
        requires
            old(self).wf(),
            reg1.is_r8(),
        ensures
            final(self).wf(),
            final(self).regs() == old(self).regs().tick(8),
            old(self).mmu.written(&final(self).mmu, old(self).regs().hl(), old(self).regs().r8(reg1)),
    {
        let addr = get_addr_from_registers(self.h, self.l);
        let value = self.read_r8(reg1);
        self.mmu.write_byte(addr, value);
        self.add_clock(8);
    }

    /// Stores the immediate byte at (HL).
    pub fn load_hl_imm(&mut self)
        requires
            old(self).wf(),
        ensures
            final(self).wf(),
            final(self).regs() == old(self).regs().skip(1).tick(12),
            old(self).mmu.written(
                &final(self).mmu,
                old(self).regs().hl(),
                old(self).mmu.read_spec(old(self).pc),
            ),
    {
        let addr = get_addr_from_registers(self.h, self.l);
        let value = self.mmu.read_byte(self.pc);
        self.mmu.write_byte(addr, value);
        self.add_program_count(1);
        self.add_clock(12);
    }

    /// Stores A at (BC) or (DE).
    pub fn load_nn_a(&mut self, reg: Register)
        requires
            old(self).wf(),
            reg == Register::BC || reg == Register::DE,
        ensures
            final(self).wf(),
            final(self).regs() == old(self).regs().tick(8),
            old(self).mmu.written(&final(self).mmu, r16(old(self).regs(), reg), old(self).a),
    {
        let addr = self.read_r16(reg);
        self.mmu.write_byte(addr, self.a);
        self.add_clock(8);
    }

    /// Loads A from (BC) or (DE).
    pub fn load_a_nn(&mut self, reg: Register)
        requires
            old(self).wf(),
            reg == Register::BC || reg == Register::DE,
        ensures
            final(self).wf(),
            final(self).mmu == old(self).mmu,
            final(self).regs() == (CpuRegs {
                a: old(self).mmu.read_spec(r16(old(self).regs(), reg)),
                ..old(self).regs()
            }).tick(8),
    {
        let addr = self.read_r16(reg);
        self.a = self.mmu.read_byte(addr);
        self.add_clock(8);
    }

    /// Stores A at the immediate 16-bit address.
    pub fn load_imm_a(&mut self)
        requires
            old(self).wf(),
        ensures
            final(self).wf(),
            final(self).regs() == old(self).regs().skip(2).tick(16),
            old(self).mmu.written(
                &final(self).mmu,
                word(
                    old(self).mmu.read_spec(old(self).pc.wrapping_add(1)),
                    old(self).mmu.read_spec(old(self).pc),
                ),
                old(self).a,
            ),
    {
        let addr = self.read_word(self.pc);
        self.mmu.write_byte(addr, self.a);
        self.add_program_count(2);
        self.add_clock(16);
    }

    /// Loads the immediate byte into A.
    pub fn load_a_d8(&mut self)
        requires
            old(self).wf(),
        ensures
            final(self).wf(),
            final(self).mmu == old(self).mmu,
            final(self).regs() == (CpuRegs {
                a: old(self).mmu.read_spec(old(self).pc),
                ..old(self).regs()
            }).skip(1).tick(8),
    {
        self.a = self.mmu.read_byte(self.pc);
        self.add_program_count(1);
        self.add_clock(8);
    }

    /// Loads A from the immediate 16-bit address.
    pub fn load_a_imm(&mut self)
        requires
            old(self).wf(),
        ensures
            final(self).wf(),
            final(self).mmu == old(self).mmu,
            final(self).regs() == (CpuRegs {
                a: old(self).mmu.read_spec(
                    word(
                        old(self).mmu.read_spec(old(self).pc.wrapping_add(1)),
                        old(self).mmu.read_spec(old(self).pc),
                    ),
                ),
                ..old(self).regs()
            }).skip(2).tick(16),
    {
        let addr = self.read_word(self.pc);
        self.a = self.mmu.read_byte(addr);
        self.add_program_count(2);
        self.add_clock(16);
    }

    /// Loads A from 0xFF00 + C.
    pub fn load_a_c(&mut self)
        requires
            old(self).wf(),
        ensures
            final(self).wf(),
            final(self).mmu == old(self).mmu,
            final(self).regs() == (CpuRegs {
                a: old(self).mmu.read_spec((0xff00 + old(self).c) as u16),
                ..old(self).regs()
            }).tick(8),
    {
        let addr = 0xff00 + self.c as u16;
        self.a = self.mmu.read_byte(addr);
        self.add_clock(8);
    }

    /// Stores A at 0xFF00 + C.
    pub fn load_c_a(&mut self)
        requires
            old(self).wf(),
        ensures
            final(self).wf(),
            final(self).regs() == old(self).regs().tick(8),
            old(self).mmu.written(&final(self).mmu, (0xff00 + old(self).c) as u16, old(self).a),
    {
        let addr = 0xff00 + self.c as u16;
        self.mmu.write_byte(addr, self.a);
        self.add_clock(8);
    }

    /// Stores A at (HL), then increments HL.
    pub fn load_hli_a(&mut self)
        requires
            old(self).wf(),
        ensures
            final(self).wf(),
            final(self).regs() == set_r16(
                old(self).regs(),
                Register::HL,
                ((old(self).regs().hl() + 1) % 0x10000) as u16,
            ).tick(8),
            old(self).mmu.written(&final(self).mmu, old(self).regs().hl(), old(self).a),
    {
        let addr = get_addr_from_registers(self.h, self.l);
        self.mmu.write_byte(addr, self.a);
        self.write_r16(Register::HL, ((addr as u32 + 1) % 0x10000) as u16);
        self.add_clock(8);
    }

    /// Stores A at (HL), then decrements HL.
    pub fn load_hld_a(&mut self)
        requires
            old(self).wf(),
        ensures
            final(self).wf(),
            final(self).regs() == set_r16(
                old(self).regs(),
                Register::HL,
                ((old(self).regs().hl() + 0xffff) % 0x10000) as u16,
            ).tick(8),
            old(self).mmu.written(&final(self).mmu, old(self).regs().hl(), old(self).a),
    {
        let addr = get_addr_from_registers(self.h, self.l);
        self.mmu.write_byte(addr, self.a);
        self.write_r16(Register::HL, ((addr as u32 + 0xffff) % 0x10000) as u16);
        self.add_clock(8);
    }

    /// Loads A from (HL), then increments HL.
    pub fn load_a_hli(&mut self)
        requires
            old(self).wf(),
        ensures
            final(self).wf(),
            final(self).mmu == old(self).mmu,
            final(self).regs() == set_r16(
                CpuRegs { a: old(self).mmu.read_spec(old(self).regs().hl()), ..old(self).regs() },
                Register::HL,
                ((old(self).regs().hl() + 1) % 0x10000) as u16,
            ).tick(8),
    {
        let addr = get_addr_from_registers(self.h, self.l);
        self.a = self.mmu.read_byte(addr);
        self.write_r16(Register::HL, ((addr as u32 + 1) % 0x10000) as u16);
        self.add_clock(8);
    }

    /// Loads A from (HL), then decrements HL.
    pub fn load_a_hld(&mut self)
        requires
            old(self).wf(),
        ensures
            final(self).wf(),
            final(self).mmu == old(self).mmu,
            final(self).regs() == set_r16(
                CpuRegs { a: old(self).mmu.read_spec(old(self).regs().hl()), ..old(self).regs() },
                Register::HL,
                ((old(self).regs().hl() + 0xffff) % 0x10000) as u16,
            ).tick(8),
    {
        let addr = get_addr_from_registers(self.h, self.l);
        self.a = self.mmu.read_byte(addr);
        self.write_r16(Register::HL, ((addr as u32 + 0xffff) % 0x10000) as u16);
        self.add_clock(8);
    }

    /// Stores A at 0xFF00 + the immediate byte.
    pub fn load_n_a(&mut self)
        requires
            old(self).wf(),
        ensures
            final(self).wf(),
            final(self).regs() == old(self).regs().skip(1).tick(12),
            old(self).mmu.written(
                &final(self).mmu,
                (0xff00 + old(self).mmu.read_spec(old(self).pc)) as u16,
                old(self).a,
            ),
    {
        let n = self.mmu.read_byte(self.pc);
        let addr = 0xff00 + n as u16;
        self.mmu.write_byte(addr, self.a);
        self.add_program_count(1);
        self.add_clock(12);
    }

    /// Loads A from 0xFF00 + the immediate byte.
    pub fn load_a_n(&mut self)
        requires
            old(self).wf(),
        ensures
            final(self).wf(),
            final(self).mmu == old(self).mmu,
            final(self).regs() == (CpuRegs {
                a: old(self).mmu.read_spec((0xff00 + old(self).mmu.read_spec(old(self).pc)) as u16),
                ..old(self).regs()
            }).skip(1).tick(12),
    {
        let n = self.mmu.read_byte(self.pc);
        let addr = 0xff00 + n as u16;
        self.a = self.mmu.read_byte(addr);
        self.add_program_count(1);
        self.add_clock(12);
    }

    /// Loads the immediate word into pair `reg` (BC, DE, HL or SP).
    pub fn load_n_nn(&mut self, reg: Register)
        requires
            old(self).wf(),
            is_r16(reg),
        ensures
            final(self).wf(),
            final(self).mmu == old(self).mmu,
            final(self).regs() == set_r16(
                old(self).regs(),
                reg,
                word(
                    old(self).mmu.read_spec(old(self).pc.wrapping_add(1)),
                    old(self).mmu.read_spec(old(self).pc),
                ),
            ).skip(2).tick(12),
    {
        let value = self.read_word(self.pc);
        self.write_r16(reg, value);
        self.add_program_count(2);
        self.add_clock(12);
    }

    /// Copies HL into SP.
    pub fn load_sp_hl(&mut self)
        requires
            old(self).wf(),
        ensures
            final(self).wf(),
            final(self).mmu == old(self).mmu,
            final(self).regs() == (CpuRegs { sp: old(self).regs().hl(), ..old(self).regs() }).tick(8),
    {
        self.sp = get_addr_from_registers(self.h, self.l);
        self.add_clock(8);
    }

    /// Stores SP at the immediate 16-bit address.
    pub fn load_nn_sp(&mut self)
        requires
            old(self).wf(),
        ensures
            final(self).wf(),
            final(self).regs() == old(self).regs().skip(2).tick(20),
            word_written(
                old(self).mmu,
                final(self).mmu,
                word(
                    old(self).mmu.read_spec(old(self).pc.wrapping_add(1)),
                    old(self).mmu.read_spec(old(self).pc),
                ),
                old(self).sp,
            ),
    {
        let addr = self.read_word(self.pc);
        let sp = self.sp;
        self.write_word(addr, sp);
        self.add_program_count(2);
        self.add_clock(20);
    }

    /// Pushes pair (`reg1`, `reg2`) onto the stack: SP goes down by two and
    /// the pair is stored there, low byte first.
    pub fn push_nn(&mut self, reg1: Register, reg2: Register)
        requires
            old(self).wf(),
            is_stack_pair(reg1, reg2),
        ensures
            final(self).wf(),
            final(self).regs() == (CpuRegs {
                sp: old(self).sp.wrapping_sub(2),
                ..old(self).regs()
            }).tick(16),
            word_written(
                old(self).mmu,
                final(self).mmu,
                old(self).sp.wrapping_sub(2),
                pushed(old(self).regs(), reg1),
            ),
    {
        let value = match reg1 {
            Register::A => get_addr_from_registers(self.a, self.get_byte_from_flags()),
            Register::B => get_addr_from_registers(self.b, self.c),
            Register::D => get_addr_from_registers(self.d, self.e),
            _ => get_addr_from_registers(self.h, self.l),
        };
        self.sp = self.sp.wrapping_sub(2);
        let addr = self.sp;
        self.write_word(addr, value);
        self.add_clock(16);
    }

    /// Pops pair (`reg1`, `reg2`) off the stack: low byte from (SP), high
    /// byte from (SP + 1), then SP goes up by two.
    pub fn pop_nn(&mut self, reg1: Register, reg2: Register)
        requires
            old(self).wf(),
            is_stack_pair(reg1, reg2),
        ensures
            final(self).wf(),
            final(self).mmu == old(self).mmu,
            final(self).regs() == (CpuRegs {
                sp: old(self).sp.wrapping_add(2),
                ..popped(
                    old(self).regs(),
                    reg1,
                    old(self).mmu.read_spec(old(self).sp.wrapping_add(1)),
                    old(self).mmu.read_spec(old(self).sp),
                )
            }).tick(12),
    {
        let low_value = self.mmu.read_byte(self.sp);
        let high_value = self.mmu.read_byte(self.sp.wrapping_add(1));
        self.sp = self.sp.wrapping_add(2);
        match reg1 {
            Register::A => {
                self.a = high_value;
                self.set_flags_from_byte(low_value);
            },
            Register::B => {
                self.b = high_value;
                self.c = low_value;
            },
            Register::D => {
                self.d = high_value;
                self.e = low_value;
            },
            _ => {
                self.h = high_value;
                self.l = low_value;
            },
        }
        self.add_clock(12);
    }
}

/// The immediate word at PC (low byte first).
pub open spec fn imm16(m: Mmu, pc: u16) -> u16 {
    word(m.read_spec(pc.wrapping_add(1)), m.read_spec(pc))
}

/// PC after a relative jump by the signed byte `e` from `pc`.
pub open spec fn jr_target(pc: u16, e: u8) -> u16 {
    ((pc + sext(e)) % 0x10000) as u16
}

impl Cpu {
    fn cond(&self, cc: CcFlag) -> (r: bool)
        ensures
            r == self.regs().cond(cc),
    {
        match cc {
            CcFlag::NZ => !self.zero_flag,
            CcFlag::Z => self.zero_flag,
            CcFlag::NC => !self.carry_flag,
            CcFlag::C => self.carry_flag,
        }
    }

    /// Jumps to the immediate address.
    pub fn jp_nn(&mut self)
        requires
            old(self).wf(),
        ensures
            final(self).wf(),
            final(self).mmu == old(self).mmu,
            final(self).regs() == (CpuRegs {
                pc: imm16(old(self).mmu, old(self).pc),
                ..old(self).regs()
            }).tick(16),
    {
        self.pc = self.read_word(self.pc);
        self.add_clock(16);
    }

    /// Jumps to the immediate address when `cc` holds.
    pub fn jump_cc_nn(&mut self, cc: CcFlag)
        requires
            old(self).wf(),
        ensures
            final(self).wf(),
            final(self).mmu == old(self).mmu,
            final(self).regs() == if old(self).regs().cond(cc) {
                (CpuRegs { pc: imm16(old(self).mmu, old(self).pc), ..old(self).regs() }).tick(16)
            } else {
                old(self).regs().skip(2).tick(12)
            },
    {
        if self.cond(cc) {
            self.pc = self.read_word(self.pc);
            self.add_clock(16);
        } else {
            self.add_program_count(2);
            self.add_clock(12);
        }
    }

    /// Jumps to HL.
    pub fn jump_hl(&mut self)
        requires
            old(self).wf(),
        ensures
            final(self).wf(),
            final(self).mmu == old(self).mmu,
            final(self).regs() == (CpuRegs { pc: old(self).regs().hl(), ..old(self).regs() }).tick(4),
    {
        self.pc = get_addr_from_registers(self.h, self.l);
        self.add_clock(4);
    }

    /// PC + 1 + e for the signed byte e at PC.
    fn relative_target(&self) -> (r: u16)
        requires
            self.wf(),
        ensures
            r == jr_target(self.pc.wrapping_add(1), self.mmu.read_spec(self.pc)),
    {
        let e = self.mmu.read_byte(self.pc);
        let ext: u16 = if e < 128 {
            e as u16
        } else {
            e as u16 + 0xff00
        };
        ((self.pc.wrapping_add(1) as u32 + ext as u32) % 0x10000) as u16
    }

    /// Jumps by the signed immediate byte, counted from the next instruction.
    pub fn jr_n(&mut self)
        requires
            old(self).wf(),
        ensures
            final(self).wf(),
            final(self).mmu == old(self).mmu,
            final(self).regs() == (CpuRegs {
                pc: jr_target(old(self).pc.wrapping_add(1), old(self).mmu.read_spec(old(self).pc)),
                ..old(self).regs()
            }).tick(12),
    {
        self.pc = self.relative_target();
        self.add_clock(12);
    }

    /// Jumps by the signed immediate byte when `cc` holds.
    pub fn jr_cc_n(&mut self, cc: CcFlag)
        requires
            old(self).wf(),
        ensures
            final(self).wf(),
            final(self).mmu == old(self).mmu,
            final(self).regs() == if old(self).regs().cond(cc) {
                (CpuRegs {
                    pc: jr_target(old(self).pc.wrapping_add(1), old(self).mmu.read_spec(old(self).pc)),
                    ..old(self).regs()
                }).tick(12)
            } else {
                old(self).regs().skip(1).tick(8)
            },
    {
        if self.cond(cc) {
            self.pc = self.relative_target();
            self.add_clock(12);
        } else {
            self.add_program_count(1);
            self.add_clock(8);
        }
    }

    /// Pushes the address of the next instruction and jumps to the
    /// immediate address.
    pub fn call_nn(&mut self)
        requires
            old(self).wf(),
        ensures
            final(self).wf(),
            final(self).regs() == (CpuRegs {
                pc: imm16(old(self).mmu, old(self).pc),
                sp: old(self).sp.wrapping_sub(2),
                ..old(self).regs()
            }).tick(24),
            word_written(
                old(self).mmu,
                final(self).mmu,
                old(self).sp.wrapping_sub(2),
                old(self).pc.wrapping_add(2),
            ),
    {
        let addr = self.read_word(self.pc);
        self.add_program_count(2);
        self.sp = self.sp.wrapping_sub(2);
        let sp = self.sp;
        let pc = self.pc;
        self.write_word(sp, pc);
        self.pc = addr;
        self.add_clock(24);
    }

    /// CALL to the immediate address when `cc` holds.
    pub fn call_cc_nn(&mut self, cc: CcFlag)
        requires
            old(self).wf(),
        ensures
            final(self).wf(),
            old(self).regs().cond(cc) ==> final(self).regs() == (CpuRegs {
                pc: imm16(old(self).mmu, old(self).pc),
                sp: old(self).sp.wrapping_sub(2),
                ..old(self).regs()
            }).tick(24) && word_written(
                old(self).mmu,
                final(self).mmu,
                old(self).sp.wrapping_sub(2),
                old(self).pc.wrapping_add(2),
            ),
            !old(self).regs().cond(cc) ==> final(self).regs() == old(self).regs().skip(2).tick(12)
                && final(self).mmu == old(self).mmu,
    {
        if self.cond(cc) {
            self.call_nn();
        } else {
            self.add_program_count(2);
            self.add_clock(12);
        }
    }

    /// Pushes PC and jumps to the fixed address `n`.
    pub fn rst_n(&mut self, n: u16)
        requires
            old(self).wf(),
        ensures
            final(self).wf(),
            final(self).regs() == (CpuRegs {
                pc: n,
                sp: old(self).sp.wrapping_sub(2),
                ..old(self).regs()
            }).tick(16),
            word_written(old(self).mmu, final(self).mmu, old(self).sp.wrapping_sub(2), old(self).pc),
    {
        self.sp = self.sp.wrapping_sub(2);
        let sp = self.sp;
        let pc = self.pc;
        self.write_word(sp, pc);
        self.pc = n;
        self.add_clock(16);
    }

    /// Pops PC off the stack.
    pub fn ret(&mut self)
        requires
            old(self).wf(),
        ensures
            final(self).wf(),
            final(self).mmu == old(self).mmu,
            final(self).regs() == (CpuRegs {
                pc: imm16(old(self).mmu, old(self).sp),
                sp: old(self).sp.wrapping_add(2),
                ..old(self).regs()
            }).tick(16),
    {
        self.pc = self.read_word(self.sp);
        self.sp = self.sp.wrapping_add(2);
        self.add_clock(16);
    }

    /// RET when `cc` holds.
    pub fn ret_cc(&mut self, cc: CcFlag)
        requires
            old(self).wf(),
        ensures
            final(self).wf(),
            final(self).mmu == old(self).mmu,
            final(self).regs() == if old(self).regs().cond(cc) {
                (CpuRegs {
                    pc: imm16(old(self).mmu, old(self).sp),
                    sp: old(self).sp.wrapping_add(2),
                    ..old(self).regs()
                }).tick(20)
            } else {
                old(self).regs().tick(8)
            },
    {
        if self.cond(cc) {
            self.pc = self.read_word(self.sp);
            self.sp = self.sp.wrapping_add(2);
            self.add_clock(20);
        } else {
            self.add_clock(8);
        }
    }

    /// RET, enabling interrupts at once.
    pub fn reti(&mut self)
        requires
            old(self).wf(),
        ensures
            final(self).wf(),
            final(self).mmu == old(self).mmu,
            final(self).regs() == (CpuRegs {
                pc: imm16(old(self).mmu, old(self).sp),
                sp: old(self).sp.wrapping_add(2),
                ime: true,
                ..old(self).regs()
            }).tick(16),
    {
        self.pc = self.read_word(self.sp);
        self.sp = self.sp.wrapping_add(2);
        self.ime = true;
        self.add_clock(16);
    }
}

/// The 8-bit operand that a three-bit opcode field names: B, C, D, E, H, L,
/// (HL) (as `HL`), A.
pub open spec fn operand_reg(i: int) -> Register {
    if i == 0 {
        Register::B
    } else if i == 1 {
        Register::C
    } else if i == 2 {
        Register::D
    } else if i == 3 {
        Register::E
    } else if i == 4 {
        Register::H
    } else if i == 5 {
        Register::L
    } else if i == 6 {
        Register::HL
    } else {
        Register::A
    }
}

/// The register pair that a two-bit opcode field names: BC, DE, HL, SP.
pub open spec fn pair_reg(i: int) -> Register {
    if i == 0 {
        Register::BC
    } else if i == 1 {
        Register::DE
    } else if i == 2 {
        Register::HL
    } else {
        Register::SP
    }
}

/// The high register of the pair that PUSH and POP name in a two-bit
/// field: B (BC), D (DE), H (HL), A (AF).
pub open spec fn stack_reg(i: int) -> Register {
    if i == 0 {
        Register::B
    } else if i == 1 {
        Register::D
    } else if i == 2 {
        Register::H
    } else {
        Register::A
    }
}

/// The branch condition that a two-bit opcode field names.
pub open spec fn cc_of(i: int) -> CcFlag {
    if i == 0 {
        CcFlag::NZ
    } else if i == 1 {
        CcFlag::Z
    } else if i == 2 {
        CcFlag::NC
    } else {
        CcFlag::C
    }
}

/// The arithmetic or logic operation that a three-bit opcode field names:
/// ADD, ADC, SUB, SBC, AND, XOR, OR, CP.
pub open spec fn alu_op(k: int, s: CpuRegs, v: u8) -> CpuRegs {
    if k == 0 {
        alu_add(s, v, false)
    } else if k == 1 {
        alu_add(s, v, true)
    } else if k == 2 {
        alu_sub(s, v, false)
    } else if k == 3 {
        alu_sub(s, v, true)
    } else if k == 4 {
        alu_and(s, v)
    } else if k == 5 {
        alu_xor(s, v)
    } else if k == 6 {
        alu_or(s, v)
    } else {
        alu_cp(s, v)
    }
}

/// The result and carry of the rotate or shift that a three-bit field of a
/// CB-prefixed opcode names: RLC, RRC, RL, RR, SLA, SRA, SWAP, SRL.
pub open spec fn shift_op(k: int, v: u8, c: bool) -> (u8, bool) {
    if k == 0 {
        (rlc8(v), v >= 128)
    } else if k == 1 {
        (rrc8(v), v % 2 == 1)
    } else if k == 2 {
        (rl8(v, c), v >= 128)
    } else if k == 3 {
        (rr8(v, c), v % 2 == 1)
    } else if k == 4 {
        (sla8(v), v >= 128)
    } else if k == 5 {
        (sra8(v), v % 2 == 1)
    } else if k == 6 {
        (swap8(v), false)
    } else {
        (srl8(v), v % 2 == 1)
    }
}

/// Whether `post` is `pre` after the CB-prefixed instruction whose second
/// byte is `cb` (PC pointing at that byte).
pub open spec fn cb_executed(pre: &Cpu, post: &Cpu, cb: u8) -> bool {
    let s = pre.regs();
    let reg = operand_reg((cb % 8) as int);
    let b = (cb / 8) % 8;
    let v = pre.operand(reg);
    if cb < 0x40 {
        let (r, c) = shift_op((cb / 8) as int, v, s.cf);
        operand_stored(pre, post, reg, r, s.flags(r == 0, false, false, c).skip(1).tick(cb_cycles(reg)))
    } else if cb < 0x80 {
        post.mmu == pre.mmu && post.regs() == (CpuRegs {
            zf: !bit_set(v, b),
            nf: false,
            hf: true,
            ..s
        }).skip(1).tick(
            if reg == Register::HL {
                12
            } else {
                8
            },
        )
    } else if cb < 0xc0 {
        operand_stored(pre, post, reg, res8(v, b), s.skip(1).tick(cb_cycles(reg)))
    } else {
        operand_stored(pre, post, reg, set8(v, b), s.skip(1).tick(cb_cycles(reg)))
    }
}

/// The loads between 8-bit operands, 0x40-0x7F but HALT.
#[verifier::opaque]
pub open spec fn executed_ld(pre: &Cpu, post: &Cpu, op: u8) -> bool {
    let s = pre.regs();
    let m = pre.mmu;
    let d8 = m.read_spec(s.pc);
    let d16 = imm16(m, s.pc);
    let same = post.mmu == m;
    let dst = operand_reg(((op / 8) % 8) as int);
    let src = operand_reg((op % 8) as int);
    if dst == Register::HL {
        post.regs() == s.tick(8) && m.written(&post.mmu, s.hl(), s.r8(src))
    } else if src == Register::HL {
        same && post.regs() == s.set_r8(dst, m.read_spec(s.hl())).tick(8)
    } else {
        same && post.regs() == s.set_r8(dst, s.r8(src)).tick(4)
    }
}

/// The arithmetic and logic on 8-bit operands, 0x80-0xBF.
#[verifier::opaque]
pub open spec fn executed_alu(pre: &Cpu, post: &Cpu, op: u8) -> bool {
    let s = pre.regs();
    let m = pre.mmu;
    let d8 = m.read_spec(s.pc);
    let d16 = imm16(m, s.pc);
    let same = post.mmu == m;
    let src = operand_reg((op % 8) as int);
    same && post.regs() == alu_op(((op / 8) % 8) as int, s, pre.operand(src)).tick(
        if src == Register::HL {
            8
        } else {
            4
        },
    )
}

/// The opcodes 0x00-0x3F, and HALT.
#[verifier::opaque]
pub open spec fn executed_low(pre: &Cpu, post: &Cpu, op: u8) -> bool {
    let s = pre.regs();
    let m = pre.mmu;
    let d8 = m.read_spec(s.pc);
    let d16 = imm16(m, s.pc);
    let same = post.mmu == m;
    if op < 0x40 && op % 8 == 4 {
        // INC r
        let r = operand_reg((op / 8) as int);
        if r == Register::HL {
            let v = m.read_spec(s.hl());
            m.written(&post.mmu, s.hl(), inc8(v)) && post.regs() == (CpuRegs {
                zf: inc8(v) == 0,
                nf: false,
                hf: v % 16 == 15,
                ..s
            }).tick(12)
        } else {
            same && post.regs() == (CpuRegs {
                zf: inc8(s.r8(r)) == 0,
                nf: false,
                hf: s.r8(r) % 16 == 15,
                ..s.set_r8(r, inc8(s.r8(r)))
            }).tick(4)
        }
    } else if op < 0x40 && op % 8 == 5 {
        // DEC r
        let r = operand_reg((op / 8) as int);
        if r == Register::HL {
            let v = m.read_spec(s.hl());
            m.written(&post.mmu, s.hl(), dec8(v)) && post.regs() == (CpuRegs {
                zf: dec8(v) == 0,
                nf: true,
                hf: v % 16 == 0,
                ..s
            }).tick(12)
        } else {
            same && post.regs() == (CpuRegs {
                zf: dec8(s.r8(r)) == 0,
                nf: true,
                hf: s.r8(r) % 16 == 0,
                ..s.set_r8(r, dec8(s.r8(r)))
            }).tick(4)
        }
    } else if op < 0x40 && op % 8 == 6 {
        // LD r, d8
        let r = operand_reg((op / 8) as int);
        if r == Register::HL {
            post.regs() == s.skip(1).tick(12) && m.written(&post.mmu, s.hl(), d8)
        } else {
            same && post.regs() == s.set_r8(r, d8).skip(1).tick(8)
        }
    } else if op < 0x40 && op % 16 == 1 {
        // LD rr, d16
        same && post.regs() == set_r16(s, pair_reg((op / 16) as int), d16).skip(2).tick(12)
    } else if op < 0x40 && op % 16 == 3 {
        // INC rr
        let p = pair_reg((op / 16) as int);
        same && post.regs() == set_r16(s, p, ((r16(s, p) + 1) % 0x10000) as u16).tick(8)
    } else if op < 0x40 && op % 16 == 0xb {
        // DEC rr
        let p = pair_reg((op / 16) as int);
        same && post.regs() == set_r16(s, p, ((r16(s, p) + 0xffff) % 0x10000) as u16).tick(8)
    } else if op < 0x40 && op % 16 == 9 {
        // ADD HL, rr
        let v = r16(s, pair_reg((op / 16) as int));
        same && post.regs() == (CpuRegs {
            nf: false,
            hf: s.hl() % 4096 + v % 4096 > 4095,
            cf: s.hl() + v > 0xffff,
            ..set_r16(s, Register::HL, ((s.hl() + v) % 0x10000) as u16)
        }).tick(8)
    } else if op == 0x00 || op == 0x10 {
        // NOP, STOP
        same && post.regs() == s.tick(4)
    } else if op == 0x02 || op == 0x12 {
        post.regs() == s.tick(8) && m.written(&post.mmu, r16(s, pair_reg((op / 16) as int)), s.a)
    } else if op == 0x0a || op == 0x1a {
        same && post.regs() == (CpuRegs { a: m.read_spec(r16(s, pair_reg((op / 16) as int))), ..s }).tick(8)
    } else if op == 0x22 || op == 0x32 {
        // LD (HL+), A and LD (HL-), A
        let delta: int = if op == 0x22 {
            1
        } else {
            0xffff
        };
        post.regs() == set_r16(s, Register::HL, ((s.hl() + delta) % 0x10000) as u16).tick(8)
            && m.written(&post.mmu, s.hl(), s.a)
    } else if op == 0x2a || op == 0x3a {
        // LD A, (HL+) and LD A, (HL-)
        let delta: int = if op == 0x2a {
            1
        } else {
            0xffff
        };
        same && post.regs() == set_r16(
            CpuRegs { a: m.read_spec(s.hl()), ..s },
            Register::HL,
            ((s.hl() + delta) % 0x10000) as u16,
        ).tick(8)
    } else if op == 0x07 || op == 0x0f || op == 0x17 || op == 0x1f {
        // RLCA, RRCA, RLA, RRA
        let (r, c) = shift_op((op / 8) as int, s.a, s.cf);
        same && post.regs() == (CpuRegs { a: r, ..s }).flags(false, false, false, c).tick(4)
    } else if op == 0x08 {
        post.regs() == s.skip(2).tick(20) && word_written(m, post.mmu, d16, s.sp)
    } else if op == 0x18 {
        same && post.regs() == (CpuRegs { pc: jr_target(s.pc.wrapping_add(1), d8), ..s }).tick(12)
    } else if op == 0x20 || op == 0x28 || op == 0x30 || op == 0x38 {
        same && post.regs() == if s.cond(cc_of(((op - 0x20) / 8) as int)) {
            (CpuRegs { pc: jr_target(s.pc.wrapping_add(1), d8), ..s }).tick(12)
        } else {
            s.skip(1).tick(8)
        }
    } else if op == 0x27 {
        let (a, c) = daa_spec(s.a, s.nf, s.hf, s.cf);
        same && post.regs() == (CpuRegs { a: a, zf: a == 0, hf: false, cf: c, ..s }).tick(4)
    } else if op == 0x2f {
        same && post.regs() == (CpuRegs { a: !s.a, nf: true, hf: true, ..s }).tick(4)
    } else if op == 0x37 {
        same && post.regs() == (CpuRegs { nf: false, hf: false, cf: true, ..s }).tick(4)
    } else if op == 0x3f {
        same && post.regs() == (CpuRegs { nf: false, hf: false, cf: !s.cf, ..s }).tick(4)
    } else if op == 0x76 {
        same && post.regs() == (CpuRegs { halt: true, ..s }).tick(4)
    } else {
        false
    }
}

/// The opcodes 0xC0-0xFF.
#[verifier::opaque]
pub open spec fn executed_high(pre: &Cpu, post: &Cpu, op: u8) -> bool {
    let s = pre.regs();
    let m = pre.mmu;
    let d8 = m.read_spec(s.pc);
    let d16 = imm16(m, s.pc);
    let same = post.mmu == m;
    if 0xc0 <= op && op % 8 == 6 {
        // ALU A, d8
        same && post.regs() == alu_op(((op / 8) % 8) as int, s, d8).skip(1).tick(8)
    } else if 0xc0 <= op && op % 8 == 7 {
        // RST
        post.regs() == (CpuRegs { pc: (op - 0xc7) as u16, sp: s.sp.wrapping_sub(2), ..s }).tick(16)
            && word_written(m, post.mmu, s.sp.wrapping_sub(2), s.pc)
    } else if op == 0xc0 || op == 0xc8 || op == 0xd0 || op == 0xd8 {
        // RET cc
        same && post.regs() == if s.cond(cc_of(((op - 0xc0) / 8) as int)) {
            (CpuRegs { pc: imm16(m, s.sp), sp: s.sp.wrapping_add(2), ..s }).tick(20)
        } else {
            s.tick(8)
        }
    } else if op == 0xc2 || op == 0xca || op == 0xd2 || op == 0xda {
        // JP cc, a16
        same && post.regs() == if s.cond(cc_of(((op - 0xc2) / 8) as int)) {
            (CpuRegs { pc: d16, ..s }).tick(16)
        } else {
            s.skip(2).tick(12)
        }
    } else if op == 0xc4 || op == 0xcc || op == 0xd4 || op == 0xdc {
        // CALL cc, a16
        if s.cond(cc_of(((op - 0xc4) / 8) as int)) {
            post.regs() == (CpuRegs { pc: d16, sp: s.sp.wrapping_sub(2), ..s }).tick(24)
                && word_written(m, post.mmu, s.sp.wrapping_sub(2), s.pc.wrapping_add(2))
        } else {
            same && post.regs() == s.skip(2).tick(12)
        }
    } else if op == 0xc1 || op == 0xd1 || op == 0xe1 || op == 0xf1 {
        // POP
        same && post.regs() == (CpuRegs {
            sp: s.sp.wrapping_add(2),
            ..popped(s, stack_reg(((op - 0xc1) / 16) as int), m.read_spec(s.sp.wrapping_add(1)), m.read_spec(s.sp))
        }).tick(12)
    } else if op == 0xc5 || op == 0xd5 || op == 0xe5 || op == 0xf5 {
        // PUSH
        post.regs() == (CpuRegs { sp: s.sp.wrapping_sub(2), ..s }).tick(16) && word_written(
            m,
            post.mmu,
            s.sp.wrapping_sub(2),
            pushed(s, stack_reg(((op - 0xc5) / 16) as int)),
        )
    } else if op == 0xc3 {
        same && post.regs() == (CpuRegs { pc: d16, ..s }).tick(16)
    } else if op == 0xc9 || op == 0xd9 {
        // RET, RETI
        same && post.regs() == (CpuRegs {
            pc: imm16(m, s.sp),
            sp: s.sp.wrapping_add(2),
            ime: if op == 0xd9 {
                true
            } else {
                s.ime
            },
            ..s
        }).tick(16)
    } else if op == 0xcb {
        cb_executed(pre, post, d8)
    } else if op == 0xcd {
        post.regs() == (CpuRegs { pc: d16, sp: s.sp.wrapping_sub(2), ..s }).tick(24) && word_written(
            m,
            post.mmu,
            s.sp.wrapping_sub(2),
            s.pc.wrapping_add(2),
        )
    } else if op == 0xe0 {
        post.regs() == s.skip(1).tick(12) && m.written(&post.mmu, (0xff00 + d8) as u16, s.a)
    } else if op == 0xf0 {
        same && post.regs() == (CpuRegs { a: m.read_spec((0xff00 + d8) as u16), ..s }).skip(1).tick(
            12,
        )
    } else if op == 0xe2 {
        post.regs() == s.tick(8) && m.written(&post.mmu, (0xff00 + s.c) as u16, s.a)
    } else if op == 0xf2 {
        same && post.regs() == (CpuRegs { a: m.read_spec((0xff00 + s.c) as u16), ..s }).tick(8)
    } else if op == 0xe8 {
        same && post.regs() == (CpuRegs { sp: sp_plus(s.sp, d8), ..sp_add_flags(s, d8) }).skip(
            1,
        ).tick(16)
    } else if op == 0xf8 {
        same && post.regs() == set_r16(sp_add_flags(s, d8), Register::HL, sp_plus(s.sp, d8)).skip(
            1,
        ).tick(12)
    } else if op == 0xe9 {
        same && post.regs() == (CpuRegs { pc: s.hl(), ..s }).tick(4)
    } else if op == 0xf9 {
        same && post.regs() == (CpuRegs { sp: s.hl(), ..s }).tick(8)
    } else if op == 0xea {
        post.regs() == s.skip(2).tick(16) && m.written(&post.mmu, d16, s.a)
    } else if op == 0xfa {
        same && post.regs() == (CpuRegs { a: m.read_spec(d16), ..s }).skip(2).tick(16)
    } else if op == 0xf3 {
        same && post.regs() == (CpuRegs { ime: false, ei_delay: false, ..s }).tick(4)
    } else {
        // EI
        same && post.regs() == (CpuRegs { ei_delay: true, ..s }).tick(4)
    }
}

/// Whether `post` is `pre` after the instruction with opcode `op` (PC
/// already past the opcode): the decode table of the CPU.
pub open spec fn executed(pre: &Cpu, post: &Cpu, op: u8) -> bool {
    if 0x40 <= op <= 0x7f && op != 0x76 {
        executed_ld(pre, post, op)
    } else if 0x80 <= op <= 0xbf {
        executed_alu(pre, post, op)
    } else if op < 0x40 || op == 0x76 {
        executed_low(pre, post, op)
    } else {
        executed_high(pre, post, op)
    }
}

/// The 8-bit operand that a three-bit opcode field names.
fn operand_of(i: u8) -> (r: Register)
    ensures
        r == operand_reg(i as int),
        r.is_r8() || r == Register::HL,
{
    match i {
        0 => Register::B,
        1 => Register::C,
        2 => Register::D,
        3 => Register::E,
        4 => Register::H,
        5 => Register::L,
        6 => Register::HL,
        _ => Register::A,
    }
}

/// Cycles elapsed from counter value `pre` to `post`, modulo 2^32.
pub open spec fn spent(pre: u32, post: u32) -> u32 {
    post.wrapping_sub(pre)
}

/// Counting `k` cycles on from `c` and measuring back gives `k`.
pub proof fn lemma_spent(c: u32, k: u32)
    ensures
        spent(c, c.wrapping_add(k)) == k,
{
}

impl Cpu {
    /// Runs a CB-prefixed rotate (second byte `opcode`, below 0x20) on
    /// operand `reg`.
    #[verifier::spinoff_prover]
    #[verifier::rlimit(100)]
    fn cb_rotate(&mut self, opcode: u8, reg: Register)
        requires
            old(self).wf(),
            opcode < 0x20,
            reg == operand_reg((opcode % 8) as int),
            old(self).mmu.read_spec(old(self).pc) == opcode,
        ensures
            final(self).wf(),
            8 <= spent(old(self).clock, final(self).clock) <= 16,
            cb_executed(old(self), final(self), opcode),
    {
        let ghost c0 = self.clock;
        proof {
            lemma_spent(c0, 8);
            lemma_spent(c0, 16);
        }
        if opcode < 0x08 {
            self.rlc_n(reg);
        } else if opcode < 0x10 {
            self.rrc_n(reg);
        } else if opcode < 0x18 {
            self.rl_n(reg);
        } else {
            self.rr_n(reg);
        }
    }

    /// Runs a CB-prefixed shift or swap (second byte `opcode`, 0x20-0x3F)
    /// on operand `reg`.
    #[verifier::spinoff_prover]
    #[verifier::rlimit(100)]
    fn cb_shift(&mut self, opcode: u8, reg: Register)
        requires
            old(self).wf(),
            0x20 <= opcode < 0x40,
            reg == operand_reg((opcode % 8) as int),
            old(self).mmu.read_spec(old(self).pc) == opcode,
        ensures
            final(self).wf(),
            8 <= spent(old(self).clock, final(self).clock) <= 16,
            cb_executed(old(self), final(self), opcode),
    {
        let ghost c0 = self.clock;
        proof {
            lemma_spent(c0, 8);
            lemma_spent(c0, 16);
        }
        if opcode < 0x28 {
            self.sla_n(reg);
        } else if opcode < 0x30 {
            self.sra_n(reg);
        } else if opcode < 0x38 {
            self.swap(reg);
        } else {
            self.srl_n(reg);
        }
    }

    /// Runs the CB-prefixed instruction whose second byte is at PC: the
    /// low three bits pick the operand (B, C, D, E, H, L, (HL), A), bits 5..3
    /// the bit number of BIT, RES and SET.
    #[verifier::spinoff_prover]
    pub fn prefix_cb(&mut self)
        requires
            old(self).wf(),
        ensures
            final(self).wf(),
            8 <= spent(old(self).clock, final(self).clock) <= 16,
            cb_executed(old(self), final(self), old(self).mmu.read_spec(old(self).pc)),
    {
        let opcode = self.mmu.read_byte(self.pc);
        let b = (opcode / 8) % 8;
        let reg = operand_of(opcode % 8);
        let ghost c0 = self.clock;
        proof {
            lemma_spent(c0, 8);
            lemma_spent(c0, 12);
            lemma_spent(c0, 16);
        }
        if opcode < 0x20 {
            self.cb_rotate(opcode, reg);
        } else if opcode < 0x40 {
            self.cb_shift(opcode, reg);
        } else if opcode < 0x80 {
            self.bit(reg, b);
        } else if opcode < 0xc0 {
            self.res(reg, b);
        } else {
            self.set(reg, b);
        }
    }

    /// Executes one instruction whose opcode was fetched (PC already points
    /// past it).
    pub fn exec(&mut self, opcode: u8)
        requires
            old(self).wf(),
            !is_undefined_opcode(opcode),
        ensures
            final(self).wf(),
            4 <= spent(old(self).clock, final(self).clock) <= 24,
            executed(old(self), final(self), opcode),
    {
        if opcode < 0x40 {
            self.exec_misc_low(opcode);
        } else if opcode < 0x50 {
            self.exec_loads_40(opcode);
        } else if opcode < 0x60 {
            self.exec_loads_50(opcode);
        } else if opcode < 0x70 {
            self.exec_loads_60(opcode);
        } else if opcode < 0x80 {
            self.exec_loads_70(opcode);
        } else if opcode < 0x90 {
            self.exec_alu_80(opcode);
        } else if opcode < 0xa0 {
            self.exec_alu_90(opcode);
        } else if opcode < 0xb0 {
            self.exec_alu_a0(opcode);
        } else if opcode < 0xc0 {
            self.exec_alu_b0(opcode);
        } else {
            self.exec_misc_high(opcode);
        }
    }

    /// Opcodes 0x00-0x3F: loads of immediates, 8- and 16-bit increments, rotates of A, relative jumps and the BCD and flag instructions.
    #[verifier::spinoff_prover]
    #[verifier::rlimit(100)]
    fn exec_misc_low(&mut self, opcode: u8)
        requires
            old(self).wf(),
            !is_undefined_opcode(opcode),
            0x00 <= opcode <= 0x3f,
        ensures
            final(self).wf(),
            4 <= spent(old(self).clock, final(self).clock) <= 24,
            executed(old(self), final(self), opcode),
    {
        let ghost c0 = self.clock;
        proof {
            reveal(executed_low);
            lemma_spent(c0, 4);
            lemma_spent(c0, 8);
            lemma_spent(c0, 12);
            lemma_spent(c0, 16);
            lemma_spent(c0, 20);
            lemma_spent(c0, 24);
        }
        match opcode {
            0x00 => self.nop(),
            0x01 => self.load_n_nn(Register::BC),
            0x02 => self.load_nn_a(Register::BC),
            0x03 => self.inc_r16(Register::BC),
            0x04 => self.inc_r8(Register::B),
            0x05 => self.dec_r8(Register::B),
            0x06 => self.load_nn_n(Register::B),
            0x07 => self.rlca(),
            0x08 => self.load_nn_sp(),
            0x09 => self.add_hl_n(Register::BC),
            0x0A => self.load_a_nn(Register::BC),
            0x0B => self.dec_r16(Register::BC),
            0x0C => self.inc_r8(Register::C),
            0x0D => self.dec_r8(Register::C),
            0x0E => self.load_nn_n(Register::C),
            0x0F => self.rrca(),
            0x10 => self.stop(),
            0x11 => self.load_n_nn(Register::DE),
            0x12 => self.load_nn_a(Register::DE),
            0x13 => self.inc_r16(Register::DE),
            0x14 => self.inc_r8(Register::D),
            0x15 => self.dec_r8(Register::D),
            0x16 => self.load_nn_n(Register::D),
            0x17 => self.rla(),
            0x18 => self.jr_n(),
            0x19 => self.add_hl_n(Register::DE),
            0x1A => self.load_a_nn(Register::DE),
            0x1B => self.dec_r16(Register::DE),
            0x1C => self.inc_r8(Register::E),
            0x1D => self.dec_r8(Register::E),
            0x1E => self.load_nn_n(Register::E),
            0x1F => self.rra(),
            0x20 => self.jr_cc_n(CcFlag::NZ),
            0x21 => self.load_n_nn(Register::HL),
            0x22 => self.load_hli_a(),
            0x23 => self.inc_r16(Register::HL),
            0x24 => self.inc_r8(Register::H),
            0x25 => self.dec_r8(Register::H),
            0x26 => self.load_nn_n(Register::H),
            0x27 => self.daa(),
            0x28 => self.jr_cc_n(CcFlag::Z),
            0x29 => self.add_hl_n(Register::HL),
            0x2A => self.load_a_hli(),
            0x2B => self.dec_r16(Register::HL),
            0x2C => self.inc_r8(Register::L),
            0x2D => self.dec_r8(Register::L),
            0x2E => self.load_nn_n(Register::L),
            0x2F => self.cpl(),
            0x30 => self.jr_cc_n(CcFlag::NC),
            0x31 => self.load_n_nn(Register::SP),
            0x32 => self.load_hld_a(),
            0x33 => self.inc_r16(Register::SP),
            0x34 => self.inc_hl(),
            0x35 => self.dec_hl(),
            0x36 => self.load_hl_imm(),
            0x37 => self.scf(),
            0x38 => self.jr_cc_n(CcFlag::C),
            0x39 => self.add_hl_n(Register::SP),
            0x3A => self.load_a_hld(),
            0x3B => self.dec_r16(Register::SP),
            0x3C => self.inc_r8(Register::A),
            0x3D => self.dec_r8(Register::A),
            0x3E => self.load_a_d8(),
            0x3F => self.ccf(),
            _ => {},
        }
    }



    /// Opcodes 0x40-0x4F: loads between 8-bit operands.
    #[verifier::spinoff_prover]
    #[verifier::rlimit(100)]
    fn exec_loads_40(&mut self, opcode: u8)
        requires
            old(self).wf(),
            0x40 <= opcode <= 0x4f,
        ensures
            final(self).wf(),
            4 <= spent(old(self).clock, final(self).clock) <= 24,
            executed(old(self), final(self), opcode),
    {
        let ghost c0 = self.clock;
        proof {
            reveal(executed_ld);
            lemma_spent(c0, 4);
            lemma_spent(c0, 8);
            lemma_spent(c0, 12);
        }
        match opcode {
            0x40 => self.load_r1_r2(Register::B, Register::B),
            0x41 => self.load_r1_r2(Register::B, Register::C),
            0x42 => self.load_r1_r2(Register::B, Register::D),
            0x43 => self.load_r1_r2(Register::B, Register::E),
            0x44 => self.load_r1_r2(Register::B, Register::H),
            0x45 => self.load_r1_r2(Register::B, Register::L),
            0x46 => self.load_r1_hl(Register::B),
            0x47 => self.load_r1_r2(Register::B, Register::A),
            0x48 => self.load_r1_r2(Register::C, Register::B),
            0x49 => self.load_r1_r2(Register::C, Register::C),
            0x4A => self.load_r1_r2(Register::C, Register::D),
            0x4B => self.load_r1_r2(Register::C, Register::E),
            0x4C => self.load_r1_r2(Register::C, Register::H),
            0x4D => self.load_r1_r2(Register::C, Register::L),
            0x4E => self.load_r1_hl(Register::C),
            0x4F => self.load_r1_r2(Register::C, Register::A),
            _ => {},
        }
    }

    /// Opcodes 0x50-0x5F: loads between 8-bit operands.
    #[verifier::spinoff_prover]
    #[verifier::rlimit(100)]
    fn exec_loads_50(&mut self, opcode: u8)
        requires
            old(self).wf(),
            0x50 <= opcode <= 0x5f,
        ensures
            final(self).wf(),
            4 <= spent(old(self).clock, final(self).clock) <= 24,
            executed(old(self), final(self), opcode),
    {
        let ghost c0 = self.clock;
        proof {
            reveal(executed_ld);
            lemma_spent(c0, 4);
            lemma_spent(c0, 8);
            lemma_spent(c0, 12);
        }
        match opcode {
            0x50 => self.load_r1_r2(Register::D, Register::B),
            0x51 => self.load_r1_r2(Register::D, Register::C),
            0x52 => self.load_r1_r2(Register::D, Register::D),
            0x53 => self.load_r1_r2(Register::D, Register::E),
            0x54 => self.load_r1_r2(Register::D, Register::H),
            0x55 => self.load_r1_r2(Register::D, Register::L),
            0x56 => self.load_r1_hl(Register::D),
            0x57 => self.load_r1_r2(Register::D, Register::A),
            0x58 => self.load_r1_r2(Register::E, Register::B),
            0x59 => self.load_r1_r2(Register::E, Register::C),
            0x5A => self.load_r1_r2(Register::E, Register::D),
            0x5B => self.load_r1_r2(Register::E, Register::E),
            0x5C => self.load_r1_r2(Register::E, Register::H),
            0x5D => self.load_r1_r2(Register::E, Register::L),
            0x5E => self.load_r1_hl(Register::E),
            0x5F => self.load_r1_r2(Register::E, Register::A),
            _ => {},
        }
    }

    /// Opcodes 0x60-0x6F: loads between 8-bit operands.
    #[verifier::spinoff_prover]
    #[verifier::rlimit(100)]
    fn exec_loads_60(&mut self, opcode: u8)
        requires
            old(self).wf(),
            0x60 <= opcode <= 0x6f,
        ensures
            final(self).wf(),
            4 <= spent(old(self).clock, final(self).clock) <= 24,
            executed(old(self), final(self), opcode),
    {
        let ghost c0 = self.clock;
        proof {
            reveal(executed_ld);
            lemma_spent(c0, 4);
            lemma_spent(c0, 8);
            lemma_spent(c0, 12);
        }
        match opcode {
            0x60 => self.load_r1_r2(Register::H, Register::B),
            0x61 => self.load_r1_r2(Register::H, Register::C),
            0x62 => self.load_r1_r2(Register::H, Register::D),
            0x63 => self.load_r1_r2(Register::H, Register::E),
            0x64 => self.load_r1_r2(Register::H, Register::H),
            0x65 => self.load_r1_r2(Register::H, Register::L),
            0x66 => self.load_r1_hl(Register::H),
            0x67 => self.load_r1_r2(Register::H, Register::A),
            0x68 => self.load_r1_r2(Register::L, Register::B),
            0x69 => self.load_r1_r2(Register::L, Register::C),
            0x6A => self.load_r1_r2(Register::L, Register::D),
            0x6B => self.load_r1_r2(Register::L, Register::E),
            0x6C => self.load_r1_r2(Register::L, Register::H),
            0x6D => self.load_r1_r2(Register::L, Register::L),
            0x6E => self.load_r1_hl(Register::L),
            0x6F => self.load_r1_r2(Register::L, Register::A),
            _ => {},
        }
    }

    /// Opcodes 0x70-0x7F: loads between 8-bit operands, and HALT.
    #[verifier::spinoff_prover]
    #[verifier::rlimit(100)]
    fn exec_loads_70(&mut self, opcode: u8)
        requires
            old(self).wf(),
            0x70 <= opcode <= 0x7f,
        ensures
            final(self).wf(),
            4 <= spent(old(self).clock, final(self).clock) <= 24,
            executed(old(self), final(self), opcode),
    {
        let ghost c0 = self.clock;
        proof {
            reveal(executed_ld);
            reveal(executed_low);
            lemma_spent(c0, 4);
            lemma_spent(c0, 8);
            lemma_spent(c0, 12);
        }
        match opcode {
            0x70 => self.load_hl_r1(Register::B),
            0x71 => self.load_hl_r1(Register::C),
            0x72 => self.load_hl_r1(Register::D),
            0x73 => self.load_hl_r1(Register::E),
            0x74 => self.load_hl_r1(Register::H),
            0x75 => self.load_hl_r1(Register::L),
            0x76 => self.halt(),
            0x77 => self.load_hl_r1(Register::A),
            0x78 => self.load_r1_r2(Register::A, Register::B),
            0x79 => self.load_r1_r2(Register::A, Register::C),
            0x7A => self.load_r1_r2(Register::A, Register::D),
            0x7B => self.load_r1_r2(Register::A, Register::E),
            0x7C => self.load_r1_r2(Register::A, Register::H),
            0x7D => self.load_r1_r2(Register::A, Register::L),
            0x7E => self.load_r1_hl(Register::A),
            0x7F => self.load_r1_r2(Register::A, Register::A),
            _ => {},
        }
    }

    /// Opcodes 0x80-0x8F: 8-bit arithmetic and logic on an operand.
    #[verifier::spinoff_prover]
    #[verifier::rlimit(100)]
    fn exec_alu_80(&mut self, opcode: u8)
        requires
            old(self).wf(),
            0x80 <= opcode <= 0x8f,
        ensures
            final(self).wf(),
            4 <= spent(old(self).clock, final(self).clock) <= 24,
            executed(old(self), final(self), opcode),
    {
        let ghost c0 = self.clock;
        proof {
            reveal(executed_alu);
            lemma_spent(c0, 4);
            lemma_spent(c0, 8);
            lemma_spent(c0, 12);
        }
        match opcode {
            0x80 => self.add_a_r(Register::B),
            0x81 => self.add_a_r(Register::C),
            0x82 => self.add_a_r(Register::D),
            0x83 => self.add_a_r(Register::E),
            0x84 => self.add_a_r(Register::H),
            0x85 => self.add_a_r(Register::L),
            0x86 => self.add_a_hl(),
            0x87 => self.add_a_r(Register::A),
            0x88 => self.adc_a_n(Register::B),
            0x89 => self.adc_a_n(Register::C),
            0x8A => self.adc_a_n(Register::D),
            0x8B => self.adc_a_n(Register::E),
            0x8C => self.adc_a_n(Register::H),
            0x8D => self.adc_a_n(Register::L),
            0x8E => self.adc_a_hl(),
            0x8F => self.adc_a_n(Register::A),
            _ => {},
        }
    }

    /// Opcodes 0x90-0x9F: 8-bit arithmetic and logic on an operand.
    #[verifier::spinoff_prover]
    #[verifier::rlimit(100)]
    fn exec_alu_90(&mut self, opcode: u8)
        requires
            old(self).wf(),
            0x90 <= opcode <= 0x9f,
        ensures
            final(self).wf(),
            4 <= spent(old(self).clock, final(self).clock) <= 24,
            executed(old(self), final(self), opcode),
    {
        let ghost c0 = self.clock;
        proof {
            reveal(executed_alu);
            lemma_spent(c0, 4);
            lemma_spent(c0, 8);
            lemma_spent(c0, 12);
        }
        match opcode {
            0x90 => self.sub_a_n(Register::B),
            0x91 => self.sub_a_n(Register::C),
            0x92 => self.sub_a_n(Register::D),
            0x93 => self.sub_a_n(Register::E),
            0x94 => self.sub_a_n(Register::H),
            0x95 => self.sub_a_n(Register::L),
            0x96 => self.sub_a_hl(),
            0x97 => self.sub_a_n(Register::A),
            0x98 => self.sbc_a_n(Register::B),
            0x99 => self.sbc_a_n(Register::C),
            0x9A => self.sbc_a_n(Register::D),
            0x9B => self.sbc_a_n(Register::E),
            0x9C => self.sbc_a_n(Register::H),
            0x9D => self.sbc_a_n(Register::L),
            0x9E => self.sbc_a_hl(),
            0x9F => self.sbc_a_n(Register::A),
            _ => {},
        }
    }

    /// Opcodes 0xA0-0xAF: 8-bit arithmetic and logic on an operand.
    #[verifier::spinoff_prover]
    #[verifier::rlimit(100)]
    fn exec_alu_a0(&mut self, opcode: u8)
        requires
            old(self).wf(),
            0xa0 <= opcode <= 0xaf,
        ensures
            final(self).wf(),
            4 <= spent(old(self).clock, final(self).clock) <= 24,
            executed(old(self), final(self), opcode),
    {
        let ghost c0 = self.clock;
        proof {
            reveal(executed_alu);
            lemma_spent(c0, 4);
            lemma_spent(c0, 8);
            lemma_spent(c0, 12);
        }
        match opcode {
            0xA0 => self.and_r8(Register::B),
            0xA1 => self.and_r8(Register::C),
            0xA2 => self.and_r8(Register::D),
            0xA3 => self.and_r8(Register::E),
            0xA4 => self.and_r8(Register::H),
            0xA5 => self.and_r8(Register::L),
            0xA6 => self.and_hl(),
            0xA7 => self.and_r8(Register::A),
            0xA8 => self.xor_r8(Register::B),
            0xA9 => self.xor_r8(Register::C),
            0xAA => self.xor_r8(Register::D),
            0xAB => self.xor_r8(Register::E),
            0xAC => self.xor_r8(Register::H),
            0xAD => self.xor_r8(Register::L),
            0xAE => self.xor_hl(),
            0xAF => self.xor_r8(Register::A),
            _ => {},
        }
    }

    /// Opcodes 0xB0-0xBF: 8-bit arithmetic and logic on an operand.
    #[verifier::spinoff_prover]
    #[verifier::rlimit(100)]
    fn exec_alu_b0(&mut self, opcode: u8)
        requires
            old(self).wf(),
            0xb0 <= opcode <= 0xbf,
        ensures
            final(self).wf(),
            4 <= spent(old(self).clock, final(self).clock) <= 24,
            executed(old(self), final(self), opcode),
    {
        let ghost c0 = self.clock;
        proof {
            reveal(executed_alu);
            lemma_spent(c0, 4);
            lemma_spent(c0, 8);
            lemma_spent(c0, 12);
        }
        match opcode {
            0xB0 => self.or_r8(Register::B),
            0xB1 => self.or_r8(Register::C),
            0xB2 => self.or_r8(Register::D),
            0xB3 => self.or_r8(Register::E),
            0xB4 => self.or_r8(Register::H),
            0xB5 => self.or_r8(Register::L),
            0xB6 => self.or_hl(),
            0xB7 => self.or_r8(Register::A),
            0xB8 => self.cp_r8(Register::B),
            0xB9 => self.cp_r8(Register::C),
            0xBA => self.cp_r8(Register::D),
            0xBB => self.cp_r8(Register::E),
            0xBC => self.cp_r8(Register::H),
            0xBD => self.cp_r8(Register::L),
            0xBE => self.cp_hl(),
            0xBF => self.cp_r8(Register::A),
            _ => {},
        }
    }

    /// Opcodes 0xC0-0xFF: stack, jump, call, return, immediate arithmetic, I/O loads and the CB prefix.
    #[verifier::spinoff_prover]
    #[verifier::rlimit(100)]
    fn exec_misc_high(&mut self, opcode: u8)
        requires
            old(self).wf(),
            !is_undefined_opcode(opcode),
            0xc0 <= opcode <= 0xff,
        ensures
            final(self).wf(),
            4 <= spent(old(self).clock, final(self).clock) <= 24,
            executed(old(self), final(self), opcode),
    {
        let ghost c0 = self.clock;
        proof {
            reveal(executed_high);
            lemma_spent(c0, 4);
            lemma_spent(c0, 8);
            lemma_spent(c0, 12);
            lemma_spent(c0, 16);
            lemma_spent(c0, 20);
            lemma_spent(c0, 24);
        }
        match opcode {
            0xC0 => self.ret_cc(CcFlag::NZ),
            0xC1 => self.pop_nn(Register::B, Register::C),
            0xC2 => self.jump_cc_nn(CcFlag::NZ),
            0xC3 => self.jp_nn(),
            0xC4 => self.call_cc_nn(CcFlag::NZ),
            0xC5 => self.push_nn(Register::B, Register::C),
            0xC6 => self.add_a_d8(),
            0xC7 => self.rst_n(0x00),
            0xC8 => self.ret_cc(CcFlag::Z),
            0xC9 => self.ret(),
            0xCA => self.jump_cc_nn(CcFlag::Z),
            0xCB => self.prefix_cb(),
            0xCC => self.call_cc_nn(CcFlag::Z),
            0xCD => self.call_nn(),
            0xCE => self.adc_a_d8(),
            0xCF => self.rst_n(0x08),
            0xD0 => self.ret_cc(CcFlag::NC),
            0xD1 => self.pop_nn(Register::D, Register::E),
            0xD2 => self.jump_cc_nn(CcFlag::NC),
            0xD4 => self.call_cc_nn(CcFlag::NC),
            0xD5 => self.push_nn(Register::D, Register::E),
            0xD6 => self.sub_a_d8(),
            0xD7 => self.rst_n(0x10),
            0xD8 => self.ret_cc(CcFlag::C),
            0xD9 => self.reti(),
            0xDA => self.jump_cc_nn(CcFlag::C),
            0xDC => self.call_cc_nn(CcFlag::C),
            0xDE => self.sbc_a_d8(),
            0xDF => self.rst_n(0x18),
            0xE0 => self.load_n_a(),
            0xE1 => self.pop_nn(Register::H, Register::L),
            0xE2 => self.load_c_a(),
            0xE5 => self.push_nn(Register::H, Register::L),
            0xE6 => self.and_d8(),
            0xE7 => self.rst_n(0x20),
            0xE8 => self.add_sp_d8(),
            0xE9 => self.jump_hl(),
            0xEA => self.load_imm_a(),
            0xEE => self.xor_d8(),
            0xEF => self.rst_n(0x28),
            0xF0 => self.load_a_n(),
            0xF1 => self.pop_nn(Register::A, Register::F),
            0xF2 => self.load_a_c(),
            0xF3 => self.di(),
            0xF5 => self.push_nn(Register::A, Register::F),
            0xF6 => self.or_d8(),
            0xF7 => self.rst_n(0x30),
            0xF8 => self.load_sp_n(),
            0xF9 => self.load_sp_hl(),
            0xFA => self.load_a_imm(),
            0xFB => self.ei(),
            0xFE => self.cp_d8(),
            0xFF => self.rst_n(0x38),
            _ => {},
        }
    }
}

/// The interrupt sources that are both requested (IF) and enabled (IE).
pub open spec fn pending_interrupts(m: Mmu) -> u8 {
    m.interrupt_flag & m.interrupt_enable & 0x1f
}

/// The interrupt served first among the bits of `pending`: the lowest set
/// bit (VBlank, LCD STAT, timer, serial, joypad).
pub open spec fn first_pending(pending: u8) -> Interrupt {
    if pending & 0x01 != 0 {
        Interrupt::VBlank
    } else if pending & 0x02 != 0 {
        Interrupt::LCDStat
    } else if pending & 0x04 != 0 {
        Interrupt::Timer
    } else if pending & 0x08 != 0 {
        Interrupt::Serial
    } else {
        Interrupt::Joypad
    }
}

/// Whether `post` is `pre` after interrupt `t` is served: IME and HALT
/// clear, its IF bit clear, PC pushed, PC at the vector, and 20 cycles
/// spent, through which the PPU and the timer run on; the interrupt lines
/// they raise are left for the next step's bus update to latch, so IF
/// gains no bit.
pub open spec fn interrupt_served(pre: &Cpu, post: &Cpu, t: Interrupt) -> bool {
    &&& post.regs() == (CpuRegs {
        ime: false,
        halt: false,
        pc: interrupt_vector(t),
        sp: pre.sp.wrapping_sub(2),
        ..pre.regs()
    }).tick(20)
    &&& exists|m1: Mmu, m2: Mmu|
        #![trigger word_written(m1, m2, pre.sp.wrapping_sub(2), pre.pc)]
        m1 == (Mmu { interrupt_flag: pre.mmu.interrupt_flag & !interrupt_bit(t), ..pre.mmu })
            && word_written(m1, m2, pre.sp.wrapping_sub(2), pre.pc) && m2.wf() && m2.advanced(
            &post.mmu,
            20,
        )
}


/// Whether `c1`, `c2` and `post` are the phases of one step from `pre`:
/// `c1` after the instruction (or four idle cycles when halted with nothing
/// pending), `c2` after a pending EI takes effect and the bus is ticked by
/// the cycles spent, `post` after the first pending interrupt is served
/// when interrupts are enabled.
#[verifier::opaque]
pub open spec fn step_phases(pre: &Cpu, c1: &Cpu, c2: &Cpu, post: &Cpu) -> bool {
    let idle = pre.halt && pending_interrupts(pre.mmu) == 0;
    let op = pre.mmu.read_spec(pre.pc);
    let enables = pre.ei_delay && (idle || op != 0xf3);
    &&& if idle {
        *c1 == (Cpu { clock: pre.clock.wrapping_add(4), ..*pre })
    } else {
        executed(&(Cpu { pc: pre.pc.wrapping_add(1), halt: false, ..*pre }), c1, op)
    }
    &&& c1.mmu.wf()
    &&& spent(pre.clock, c1.clock) <= 24
    &&& c1.mmu.ticked(&c2.mmu, spent(pre.clock, c1.clock) as u8)
    &&& c2.regs() == (CpuRegs {
        ime: enables || c1.ime,
        ei_delay: !enables && c1.ei_delay,
        ..c1.regs()
    })
    &&& if c2.ime && pending_interrupts(c2.mmu) != 0 {
        interrupt_served(c2, post, first_pending(pending_interrupts(c2.mmu)))
    } else {
        *post == *c2
    }
}

impl Cpu {
    /// Serves interrupt `interrupt_type`.
    pub fn exec_interrupt(&mut self, interrupt_type: Interrupt)
        requires
            old(self).wf(),
        ensures
            final(self).wf(),
            interrupt_served(old(self), final(self), interrupt_type),
    {
        let ghost pre = *self;
        self.ime = false;
        self.halt = false;
        self.mmu.reset_interrupt(interrupt_type);
        let ghost m1 = self.mmu;
        assert(m1 == (Mmu {
            interrupt_flag: pre.mmu.interrupt_flag & !interrupt_bit(interrupt_type),
            ..pre.mmu
        }));
        let addr: u16 = match interrupt_type {
            Interrupt::VBlank => 0x40,
            Interrupt::LCDStat => 0x48,
            Interrupt::Timer => 0x50,
            Interrupt::Serial => 0x58,
            Interrupt::Joypad => 0x60,
        };
        self.sp = self.sp.wrapping_sub(2);
        let sp = self.sp;
        let pc = self.pc;
        self.write_word(sp, pc);
        let ghost m2 = self.mmu;
        self.add_clock(20);
        self.pc = addr;
        self.mmu.advance(20);
        assert(word_written(m1, m2, pre.sp.wrapping_sub(2), pre.pc) && m2.wf() && m2.advanced(
            &self.mmu,
            20,
        ));
    }

    /// Serves the pending interrupt of highest priority, if any is both
    /// requested and enabled.
    pub fn handle_interrupt(&mut self)
        requires
            old(self).wf(),
        ensures
            final(self).wf(),
            pending_interrupts(old(self).mmu) != 0 ==> interrupt_served(
                old(self),
                final(self),
                first_pending(pending_interrupts(old(self).mmu)),
            ),
            pending_interrupts(old(self).mmu) == 0 ==> *final(self) == *old(self),
    {
        let pending = self.mmu.interrupt_flag & self.mmu.interrupt_enable & 0x1f;
        assert(pending == 0 ==> pending & 0x01 == 0 && pending & 0x02 == 0 && pending & 0x04 == 0
            && pending & 0x08 == 0) by (bit_vector);
        if pending & 0x01 != 0 {
            self.exec_interrupt(Interrupt::VBlank);
        } else if pending & 0x02 != 0 {
            self.exec_interrupt(Interrupt::LCDStat);
        } else if pending & 0x04 != 0 {
            self.exec_interrupt(Interrupt::Timer);
        } else if pending & 0x08 != 0 {
            self.exec_interrupt(Interrupt::Serial);
        } else if pending != 0 {
            self.exec_interrupt(Interrupt::Joypad);
        }
    }

    /// Runs one step: one instruction, or four idle cycles while halted with
    /// nothing pending; then ticks the bus by the cycles spent and, with
    /// interrupts enabled, serves the first pending interrupt. Returns the
    /// cycles spent, or the undefined opcode that was fetched.
    #[verifier::spinoff_prover]
    #[verifier::rlimit(100)]
    pub fn step(&mut self) -> (r: Result<u16, FatalDecodeError>)
        requires
            old(self).wf(),
        ensures
            final(self).wf(),
            ({
                let idle = old(self).halt && pending_interrupts(old(self).mmu) == 0;
                let op = old(self).mmu.read_spec(old(self).pc);
                &&& (!idle && is_undefined_opcode(op)) ==> r == Err::<u16, FatalDecodeError>(
                    FatalDecodeError { opcode: op, pc: old(self).pc },
                )
                &&& !(!idle && is_undefined_opcode(op)) ==> r is Ok
            }),
            r is Ok ==> r->Ok_0 == spent(old(self).clock, final(self).clock),
            r is Ok ==> 4 <= r->Ok_0 <= 44,
            r is Ok ==> exists|c1: Cpu, c2: Cpu|
                #[trigger] step_phases(old(self), &c1, &c2, final(self)),
    {
        let ghost pre = *self;
        let pending = self.mmu.interrupt_flag & self.mmu.interrupt_enable & 0x1f;
        let enable_after = self.ei_delay;
        let c0 = self.clock;
        let mut opcode: u8 = 0;
        if self.halt && pending == 0 {
            self.add_clock(4);
        } else {
            self.halt = false;
            let pc = self.pc;
            opcode = self.mmu.read_byte(pc);
            if opcode == 0xd3 || opcode == 0xdb || opcode == 0xdd || opcode == 0xe3 || opcode == 0xe4
                || opcode == 0xeb || opcode == 0xec || opcode == 0xed || opcode == 0xf4 || opcode
                == 0xfc || opcode == 0xfd {
                return Err(FatalDecodeError { opcode, pc });
            }
            self.add_program_count(1);
            self.exec(opcode);
        }
        let ghost c1 = *self;
        proof {
            lemma_spent(c0, 4);
        }
        let elapse = self.clock.wrapping_sub(c0);
        if enable_after && opcode != 0xf3 {
            self.ei_delay = false;
            self.ime = true;
        }
        self.mmu.update(elapse as u8);
        let ghost c2 = *self;
        let mut total = elapse;
        if self.ime && self.mmu.interrupt_flag & self.mmu.interrupt_enable & 0x1f != 0 {
            let c1 = self.clock;
            self.handle_interrupt();
            proof {
                lemma_spent(c1, 20);
                lemma_spent_add(c0, c1, self.clock);
            }
            total = elapse + 20;
        }
        assert(step_phases(&pre, &c1, &c2, self)) by {
            reveal(step_phases);
        }
        Ok(total as u16)
    }
}

/// Cycles spent over two stretches add up, while the sum stays small.
pub proof fn lemma_spent_add(a: u32, b: u32, c: u32)
    requires
        spent(a, b) + spent(b, c) < 0x1_0000_0000,
    ensures
        spent(a, c) == spent(a, b) + spent(b, c),
{
}

/// Interrupt priority: of several pending sources the one served is the
/// lowest set bit; no lower bit is pending.
pub proof fn law_interrupt_priority(pending: u8)
    requires
        pending & 0x1f != 0,
    ensures
        pending & interrupt_bit(first_pending(pending)) != 0,
        pending & ((interrupt_bit(first_pending(pending)) - 1) as u8) == 0,
{
    let p = pending;
    if p & 0x01 != 0 {
        assert(p & 0 == 0) by (bit_vector);
    } else if p & 0x02 != 0 {
        assert(p & 0x01 == 0 ==> p & 1 == 0) by (bit_vector);
    } else if p & 0x04 != 0 {
        assert(p & 0x01 == 0 && p & 0x02 == 0 ==> p & 3 == 0) by (bit_vector);
    } else if p & 0x08 != 0 {
        assert(p & 0x01 == 0 && p & 0x02 == 0 && p & 0x04 == 0 ==> p & 7 == 0) by (bit_vector);
    } else {
        assert(p & 0x1f != 0 && p & 0x01 == 0 && p & 0x02 == 0 && p & 0x04 == 0 && p & 0x08 == 0
            ==> p & 0x10 != 0 && p & 0x0f == 0) by (bit_vector);
    }
}

/// SWAP twice gives the byte back; BIT after RES finds the bit clear; BIT
/// after SET finds it set.
pub proof fn law_swap_bit_res_set(v: u8, b: u8)
    requires
        b < 8,
    ensures
        swap8(swap8(v)) == v,
        !bit_set(res8(v, b), b),
        bit_set(set8(v, b), b),
{
    assert(!(((v & !((1u8 << b) as u8)) >> b) & 1 == 1)) by (bit_vector)
        requires
            b < 8,
    ;
    assert(((v | ((1u8 << b) as u8)) >> b) & 1 == 1) by (bit_vector)
        requires
            b < 8,
    ;
}

/// The four flags are bits 7..4 of the F byte.
pub proof fn lemma_flags_byte_bits(z: bool, n: bool, h: bool, c: bool)
    ensures
        (flags_byte(z, n, h, c) & 0x80 != 0) == z,
        (flags_byte(z, n, h, c) & 0x40 != 0) == n,
        (flags_byte(z, n, h, c) & 0x20 != 0) == h,
        (flags_byte(z, n, h, c) & 0x10 != 0) == c,
{
    let v = flags_byte(z, n, h, c);
    assert(v as int == (if z { 128int } else { 0 }) + (if n { 64int } else { 0 }) + (if h { 32int } else { 0 }) + (if c { 16int } else { 0 }));
    assert((v & 0x80 != 0) == (v >= 128) && (v & 0x40 != 0) == (v % 128 >= 64) && (v & 0x20 != 0)
        == (v % 64 >= 32) && (v & 0x10 != 0) == (v % 32 >= 16)) by (bit_vector);
}

/// The low and high bytes of a word.
pub proof fn lemma_word_bytes(hi: u8, lo: u8)
    ensures
        (word(hi, lo) % 256) as u8 == lo,
        (word(hi, lo) / 256) as u8 == hi,
{
    assert(hi as int * 256 + lo as int <= 0xffff) by (nonlinear_arith)
        requires
            hi <= 0xff,
            lo <= 0xff,
    ;
    assert((hi as int * 256 + lo as int) % 256 == lo as int) by (nonlinear_arith)
        requires
            lo <= 0xff,
    ;
    assert((hi as int * 256 + lo as int) / 256 == hi as int) by (nonlinear_arith)
        requires
            lo <= 0xff,
    ;
}

/// POP AF after PUSH AF gives back A, the four flags and SP, when the two
/// stack bytes lie in high RAM or in work RAM. `c1` is `c0` after PUSH AF and `c2` is `c1`
/// after POP AF, as those instructions' contracts state.
pub proof fn law_push_pop_af(c0: Cpu, c1: Cpu, c2: Cpu)
    requires
        c0.wf(),
        0xff82 <= c0.sp || (0xc002 <= c0.sp <= 0xe000),
        c1.regs() == (CpuRegs { sp: c0.sp.wrapping_sub(2), ..c0.regs() }).tick(16),
        word_written(c0.mmu, c1.mmu, c0.sp.wrapping_sub(2), pushed(c0.regs(), Register::A)),
        c2.mmu == c1.mmu,
        c2.regs() == (CpuRegs {
            sp: c1.sp.wrapping_add(2),
            ..popped(
                c1.regs(),
                Register::A,
                c1.mmu.read_spec(c1.sp.wrapping_add(1)),
                c1.mmu.read_spec(c1.sp),
            )
        }).tick(12),
    ensures
        c2.a == c0.a,
        c2.zero_flag == c0.zero_flag,
        c2.subtraction_flag == c0.subtraction_flag,
        c2.half_carry_flag == c0.half_carry_flag,
        c2.carry_flag == c0.carry_flag,
        c2.sp == c0.sp,
{
    let s = c0.regs();
    let a = c0.sp.wrapping_sub(2);
    let value = pushed(s, Register::A);
    let m = choose|m: Mmu|
        #![trigger c0.mmu.written(&m, a, (value % 256) as u8)]
        c0.mmu.written(&m, a, (value % 256) as u8) && m.wf() && m.written(
            &c1.mmu,
            a.wrapping_add(1),
            (value / 256) as u8,
        );
    lemma_word_bytes(s.a, s.f());
    assert(a.wrapping_add(1) == a + 1);
    assert(c1.mmu.read_spec(a) == s.f());
    assert(c1.mmu.read_spec(a.wrapping_add(1)) == s.a);
    lemma_flags_byte_bits(s.zf, s.nf, s.hf, s.cf);
}

} // verus!

use vstd::prelude::*;

use crate::cartridge::{is_cart_addr, Cartridge};
use crate::cpu::{interrupt_bit, Interrupt};
use crate::joypad::Joypad;
use crate::ppu::{frame_dot, is_ppu_addr, law_frame_cadence, power_on_regs, Ppu, PpuRegs};
use crate::serial::Serial;
use crate::timer::Timer;
use crate::wram::{wram_index, Wram};

verus! {

/// The memory bus: it maps the 16-bit address space onto the cartridge,
/// the PPU, work RAM, the I/O registers and high RAM, and holds the
/// interrupt flag (IF) and enable (IE) registers.
pub struct Mmu {
    pub cartridge: Cartridge,
    pub ppu: Ppu,
    pub joypad: Joypad,
    pub serial: Serial,
    pub timer: Timer,
    pub wram: Wram,
    pub interrupt_flag: u8,
    pub interrupt_enable: u8,
    pub hram: Vec<u8>,
}

/// Whether a write to `addr` goes to the PPU itself (OAM DMA at 0xFF46 is
/// the bus's own).
pub open spec fn is_ppu_port(addr: u16) -> bool {
    (0x8000 <= addr <= 0x9fff) || (0xfe00 <= addr <= 0xfe9f) || (0xff40 <= addr <= 0xff4b && addr
        != 0xff46)
}

/// The source address of byte `i` of an OAM DMA started with `v`.
pub open spec fn dma_source(v: u8, i: int) -> u16 {
    (v as int * 256 + i) as u16
}

impl Mmu {
    pub open spec fn wf(&self) -> bool {
        &&& self.cartridge.wf()
        &&& self.ppu.wf()
        &&& self.wram.wf()
        &&& self.hram@.len() == 0x7f
    }

    /// The value that a read of `addr` yields.
    pub open spec fn read_spec(&self, addr: u16) -> u8 {
        if addr <= 0x7fff {
            self.cartridge.read_spec(addr)
        } else if addr <= 0x9fff {
            self.ppu.read_spec(addr)
        } else if addr <= 0xbfff {
            self.cartridge.read_spec(addr)
        } else if addr <= 0xdfff {
            self.wram.read_spec((addr - 0xc000) as u16)
        } else if addr <= 0xfdff {
            self.wram.read_spec((addr - 0xe000) as u16)
        } else if addr <= 0xfe9f {
            self.ppu.read_spec(addr)
        } else if addr <= 0xfeff {
            0x00
        } else if addr == 0xff00 {
            self.joypad.read_spec()
        } else if addr == 0xff01 || addr == 0xff02 {
            self.serial.read_spec(addr)
        } else if 0xff04 <= addr <= 0xff07 {
            self.timer.read_spec(addr)
        } else if addr == 0xff0f {
            self.interrupt_flag
        } else if 0xff40 <= addr <= 0xff4b {
            self.ppu.read_spec(addr)
        } else if addr == 0xff70 {
            self.wram.bank_index
        } else if 0xff80 <= addr <= 0xfffe {
            self.hram@[addr - 0xff80]
        } else if addr == 0xffff {
            self.interrupt_enable
        } else {
            0xff
        }
    }

    /// The work RAM offset of `addr`, which lies in WRAM or its echo.
    pub open spec fn wram_offset(addr: u16) -> u16 {
        if addr <= 0xdfff {
            (addr - 0xc000) as u16
        } else {
            (addr - 0xe000) as u16
        }
    }

    /// Whether `post` is this bus after a write of `value` to `addr`.
    pub open spec fn written(&self, post: &Mmu, addr: u16, value: u8) -> bool {
        &&& if is_cart_addr(addr) {
            self.cartridge.written(&post.cartridge, addr, value)
        } else {
            post.cartridge == self.cartridge
        }
        &&& if is_ppu_port(addr) {
            self.ppu.written(&post.ppu, addr, value)
        } else if addr == 0xff46 {
            &&& post.ppu.regs == (PpuRegs { dma: value, ..self.ppu.regs })
            &&& post.ppu.vram@ == self.ppu.vram@
            &&& post.ppu.frame@ == self.ppu.frame@
            &&& post.ppu.bg_color == self.ppu.bg_color
            &&& post.ppu.obj_color == self.ppu.obj_color
            &&& post.ppu.oam@ == if value <= 0xf1 {
                Seq::new(0xa0, |i: int| self.read_spec(dma_source(value, i)))
            } else {
                self.ppu.oam@
            }
        } else {
            post.ppu == self.ppu
        }
        &&& if 0xc000 <= addr <= 0xfdff {
            &&& post.wram.bank_index == self.wram.bank_index
            &&& post.wram.wram@ == self.wram.wram@.update(
                wram_index(self.wram.bank_index, Self::wram_offset(addr)),
                value,
            )
        } else if addr == 0xff70 {
            post.wram.bank_index == value & 0x07 && post.wram.wram@ == self.wram.wram@
        } else {
            post.wram == self.wram
        }
        &&& post.joypad == if addr == 0xff00 {
            Joypad { joyp: (self.joypad.joyp & 0xcf) | (value & 0x30), ..self.joypad }
        } else {
            self.joypad
        }
        &&& post.serial == if addr == 0xff01 {
            Serial { data: value, ..self.serial }
        } else if addr == 0xff02 {
            Serial { control: value, ..self.serial }
        } else {
            self.serial
        }
        &&& post.timer == if 0xff04 <= addr <= 0xff07 {
            self.timer.written(addr, value)
        } else {
            self.timer
        }
        &&& post.interrupt_flag == if addr == 0xff0f {
            value
        } else {
            self.interrupt_flag
        }
        &&& post.interrupt_enable == if addr == 0xffff {
            value
        } else {
            self.interrupt_enable
        }
        &&& post.hram@ == if 0xff80 <= addr <= 0xfffe {
            self.hram@.update(addr - 0xff80, value)
        } else {
            self.hram@
        }
    }

    /// Whether this bus is in its power-on state, whatever the cartridge:
    /// the PPU as `Ppu::new` leaves it, timer, serial port, IF and IE clear,
    /// no key pressed, work RAM and high RAM zeroed with WRAM bank 0 selected.
    pub open spec fn is_power_on(&self) -> bool {
        &&& self.ppu.regs == power_on_regs()
        &&& forall|i: int| 0 <= i < 0x2000 ==> self.ppu.vram@[i] == 0
        &&& forall|i: int| 0 <= i < 0xa0 ==> self.ppu.oam@[i] == 0
        &&& forall|i: int| 0 <= i < self.ppu.frame@.len() ==> self.ppu.frame@[i] == 0
        &&& self.timer == (Timer { tima: 0, tma: 0, tac: 0, counter: 0, irq_timer: false })
        &&& self.joypad == (Joypad { joyp: 0xff, key_state: 0xff, irq: false })
        &&& self.serial == (Serial { data: 0, control: 0 })
        &&& self.wram.bank_index == 0
        &&& forall|i: int| 0 <= i < 0x8000 ==> self.wram.wram@[i] == 0
        &&& forall|i: int| 0 <= i < 0x7f ==> self.hram@[i] == 0
        &&& self.interrupt_flag == 0
        &&& self.interrupt_enable == 0
    }

    pub fn new(cartridge: Cartridge) -> (r: Self)
        requires
            cartridge.wf(),
        ensures
            r.wf(),
            r.is_power_on(),
            r.cartridge == cartridge,
    {
        Mmu {
            cartridge,
            ppu: Ppu::new(),
            joypad: Joypad::new(),
            serial: Serial::new(),
            timer: Timer::new(),
            wram: Wram::new(),
            interrupt_flag: 0,
            interrupt_enable: 0,
            hram: vec![0u8; 0x7f],
        }
    }

    /// Clears the IF bit of `interrupt_type`.
    pub fn reset_interrupt(&mut self, interrupt_type: Interrupt)
        ensures
            final(self).interrupt_flag == old(self).interrupt_flag & !interrupt_bit(interrupt_type),
            final(self).cartridge == old(self).cartridge,
            final(self).ppu == old(self).ppu,
            final(self).joypad == old(self).joypad,
            final(self).serial == old(self).serial,
            final(self).timer == old(self).timer,
            final(self).wram == old(self).wram,
            final(self).interrupt_enable == old(self).interrupt_enable,
            final(self).hram == old(self).hram,
    {
        let bit = interrupt_type.bit();
        self.interrupt_flag = self.interrupt_flag & !bit;
    }

    pub fn read_byte(&self, addr: u16) -> (r: u8)
        requires
            self.wf(),
        ensures
            r == self.read_spec(addr),
    {
        if addr <= 0x7fff {
            self.cartridge.read(addr)
        } else if addr <= 0x9fff {
            self.ppu.read(addr)
        } else if addr <= 0xbfff {
            self.cartridge.read(addr)
        } else if addr <= 0xdfff {
            self.wram.read_byte(addr - 0xc000)
        } else if addr <= 0xfdff {
            self.wram.read_byte(addr - 0xe000)
        } else if addr <= 0xfe9f {
            self.ppu.read(addr)
        } else if addr <= 0xfeff {
            0x00
        } else if addr == 0xff00 {
            self.joypad.read_byte(addr)
        } else if addr == 0xff01 || addr == 0xff02 {
            self.serial.read(addr)
        } else if 0xff04 <= addr && addr <= 0xff07 {
            self.timer.read(addr)
        } else if addr == 0xff0f {
            self.interrupt_flag
        } else if 0xff40 <= addr && addr <= 0xff4b {
            self.ppu.read(addr)
        } else if addr == 0xff70 {
            self.wram.get_bank_idnex()
        } else if 0xff80 <= addr && addr <= 0xfffe {
            self.hram[(addr - 0xff80) as usize]
        } else if addr == 0xffff {
            self.interrupt_enable
        } else {
            0xff
        }
    }
}

/// The IF bits that the peripherals' interrupt lines set: VBlank bit 0,
/// LCD STAT bit 1, timer bit 2, joypad bit 4.
pub open spec fn irq_bits(vblank: bool, lcdc: bool, timer: bool, joypad: bool) -> u8 {
    ((if vblank {
        1int
    } else {
        0
    }) + (if lcdc {
        2int
    } else {
        0
    }) + (if timer {
        4int
    } else {
        0
    }) + (if joypad {
        0x10int
    } else {
        0
    })) as u8
}

impl Mmu {
    /// Copies 160 bytes from `val` * 0x100 into OAM, whatever the PPU mode.
    /// A source above 0xF19F is not transferred.
    fn do_dma(&mut self, val: u8)
        requires
            old(self).wf(),
        ensures
            final(self).wf(),
            old(self).written(final(self), 0xff46, val),
    {
        let ghost pre = *self;
        self.ppu.regs.dma = val;
        if val <= 0xf1 {
            let src_base: u16 = (val as u16) * 256;
            let mut i: u16 = 0;
            while i < 0xa0
                invariant
                    i <= 0xa0,
                    val <= 0xf1,
                    src_base == val as int * 256,
                    self.wf(),
                    self.cartridge == pre.cartridge,
                    self.wram == pre.wram,
                    self.joypad == pre.joypad,
                    self.serial == pre.serial,
                    self.timer == pre.timer,
                    self.interrupt_flag == pre.interrupt_flag,
                    self.interrupt_enable == pre.interrupt_enable,
                    self.hram == pre.hram,
                    self.ppu.regs == (PpuRegs { dma: val, ..pre.ppu.regs }),
                    self.ppu.vram == pre.ppu.vram,
                    self.ppu.frame == pre.ppu.frame,
                    self.ppu.bg_color == pre.ppu.bg_color,
                    self.ppu.obj_color == pre.ppu.obj_color,
                    forall|j: int| 0 <= j < i ==> self.ppu.oam@[j] == pre.read_spec(dma_source(val, j)),
                    forall|j: int| i <= j < 0xa0 ==> self.ppu.oam@[j] == pre.ppu.oam@[j],
                decreases 0xa0 - i,
            {
                let tmp = self.read_byte(src_base + i);
                assert(tmp == pre.read_spec(dma_source(val, i as int)));
                self.ppu.oam.set(i as usize, tmp);
                i = i + 1;
            }
            assert(self.ppu.oam@ =~= Seq::new(0xa0, |j: int| pre.read_spec(dma_source(val, j))));
        }
    }

    pub fn write_byte(&mut self, addr: u16, value: u8)
        requires
            old(self).wf(),
        ensures
            final(self).wf(),
            old(self).written(final(self), addr, value),
    {
        if addr <= 0x7fff {
            self.cartridge.write(addr, value);
        } else if addr <= 0x9fff {
            self.ppu.write(addr, value);
        } else if addr <= 0xbfff {
            self.cartridge.write(addr, value);
        } else if addr <= 0xdfff {
            self.wram.write_byte(addr - 0xc000, value);
        } else if addr <= 0xfdff {
            self.wram.write_byte(addr - 0xe000, value);
        } else if addr <= 0xfe9f {
            self.ppu.write(addr, value);
        } else if addr <= 0xfeff {
        } else if addr == 0xff00 {
            self.joypad.write_byte(addr, value);
        } else if addr == 0xff01 || addr == 0xff02 {
            self.serial.write(addr, value);
        } else if 0xff04 <= addr && addr <= 0xff07 {
            self.timer.write(addr, value);
        } else if addr == 0xff0f {
            self.interrupt_flag = value;
        } else if addr == 0xff46 {
            self.do_dma(value);
        } else if 0xff40 <= addr && addr <= 0xff4b {
            self.ppu.write(addr, value);
        } else if addr == 0xff70 {
            let v = value & 0x07;
            assert(v < 8) by (bit_vector)
                requires
                    v == value & 0x07,
            ;
            self.wram.set_bank_index(v);
        } else if 0xff80 <= addr && addr <= 0xfffe {
            self.hram.set((addr - 0xff80) as usize, value);
        } else if addr == 0xffff {
            self.interrupt_enable = value;
        }
    }

    /// Whether `post` is this bus after `clock` cycles: the PPU and the
    /// timer advanced, every raised interrupt line moved into IF and lowered.
    pub open spec fn ticked(&self, post: &Mmu, clock: u8) -> bool {
        &&& post.ppu.regs == (PpuRegs {
            irq_vblank: false,
            irq_lcdc: false,
            ..self.ppu.regs.updated(clock)
        })
        &&& post.ppu.vram@ == self.ppu.vram@
        &&& post.ppu.oam@ == self.ppu.oam@
        &&& post.ppu.bg_color == self.ppu.bg_color
        &&& post.ppu.obj_color == self.ppu.obj_color
        &&& post.ppu.frame@ == if self.ppu.regs.renders(clock) {
            self.ppu.scanned_frame()
        } else {
            self.ppu.frame@
        }
        &&& post.timer == (Timer { irq_timer: false, ..self.timer.updated(clock) })
        &&& post.joypad == (Joypad { irq: false, ..self.joypad })
        &&& post.interrupt_flag == self.interrupt_flag | irq_bits(
            self.ppu.regs.updated(clock).irq_vblank,
            self.ppu.regs.updated(clock).irq_lcdc,
            self.timer.updated(clock).irq_timer,
            self.joypad.irq,
        )
        &&& post.cartridge == self.cartridge
        &&& post.serial == self.serial
        &&& post.wram == self.wram
        &&& post.interrupt_enable == self.interrupt_enable
        &&& post.hram == self.hram
    }

    /// Whether `post` is this bus after `clock` cycles in which the PPU and
    /// the timer ran on but no interrupt line was latched into IF.
    pub open spec fn advanced(&self, post: &Mmu, clock: u8) -> bool {
        &&& post.ppu.regs == self.ppu.regs.updated(clock)
        &&& post.ppu.vram@ == self.ppu.vram@
        &&& post.ppu.oam@ == self.ppu.oam@
        &&& post.ppu.bg_color == self.ppu.bg_color
        &&& post.ppu.obj_color == self.ppu.obj_color
        &&& post.ppu.frame@ == if self.ppu.regs.renders(clock) {
            self.ppu.scanned_frame()
        } else {
            self.ppu.frame@
        }
        &&& post.timer == self.timer.updated(clock)
        &&& post.joypad == self.joypad
        &&& post.interrupt_flag == self.interrupt_flag
        &&& post.cartridge == self.cartridge
        &&& post.serial == self.serial
        &&& post.wram == self.wram
        &&& post.interrupt_enable == self.interrupt_enable
        &&& post.hram == self.hram
    }

    /// Runs the PPU and the timer for `clock` cycles (at most 80) and leaves
    /// the interrupt lines they raise up, for the next `update` to latch.
    pub fn advance(&mut self, clock: u8)
        requires
            old(self).wf(),
            clock <= 80,
        ensures
            final(self).wf(),
            old(self).advanced(final(self), clock),
    {
        self.ppu.update(clock);
        self.timer.update(clock);
    }

    /// Ticks the PPU and the timer by `clock` cycles (at most 80), then moves
    /// every raised interrupt line into IF and lowers it.
    pub fn update(&mut self, clock: u8)
        requires
            old(self).wf(),
            clock <= 80,
        ensures
            final(self).wf(),
            old(self).ticked(final(self), clock),
    {
        self.ppu.update(clock);
        self.timer.update(clock);
        let mut bits: u8 = 0;
        if self.ppu.is_irq_vblank() {
            bits = bits + 1;
            self.ppu.set_irq_vblank(false);
        }
        if self.ppu.is_irq_lcdc() {
            bits = bits + 2;
            self.ppu.set_irq_lcdc(false);
        }
        if self.timer.is_irq_timer() {
            bits = bits + 4;
            self.timer.set_irq_timer(false);
        }
        if self.joypad.irq {
            bits = bits + 0x10;
            self.joypad.irq = false;
        }
        self.interrupt_flag = self.interrupt_flag | bits;
    }
}

/// A write to DIV (0xFF04), of any value, makes DIV read 0.
pub proof fn law_div_reset(pre: Mmu, post: Mmu, v: u8)
    requires
        pre.written(&post, 0xff04, v),
    ensures
        post.read_spec(0xff04) == 0,
{
    assert((0u16 >> 8u16) as u8 == 0) by (bit_vector);
}

/// Echo RAM: a byte written at 0xE000-0xFDFF reads back 0x2000 lower, and
/// one written 0x2000 lower reads back in the echo.
pub proof fn law_echo_ram(pre: Mmu, post: Mmu, a: u16, v: u8)
    requires
        pre.wf(),
        0xe000 <= a < 0xfe00,
    ensures
        pre.written(&post, a, v) ==> post.read_spec((a - 0x2000) as u16) == v,
        pre.written(&post, (a - 0x2000) as u16, v) ==> post.read_spec(a) == v,
{
}

/// While the PPU draws a line (mode 3), VRAM and OAM read as 0xFF; during
/// OAM search (mode 2) OAM does.
pub proof fn law_drawing_hides_vram_oam(m: Mmu, addr: u16)
    requires
        (0x8000 <= addr <= 0x9fff && m.ppu.regs.stat & 3 == 3) || (0xfe00 <= addr <= 0xfe9f && (
        m.ppu.regs.stat & 3 == 2 || m.ppu.regs.stat & 3 == 3)),
    ensures
        m.read_spec(addr) == 0xff,
{
}

/// OAM DMA: after a write of `v` (at most 0xF1) to 0xFF46, OAM byte `i`
/// reads as the source byte at `v` * 0x100 + `i` did, and still does; OAM
/// is read back in the modes in which it is readable (0 and 1).
pub proof fn law_oam_dma(pre: Mmu, post: Mmu, v: u8, i: int)
    requires
        pre.wf(),
        pre.written(&post, 0xff46, v),
        v <= 0xf1,
        0 <= i < 0xa0,
        pre.ppu.regs.stat & 3 == 0 || pre.ppu.regs.stat & 3 == 1,
    ensures
        post.read_spec((0xfe00 + i) as u16) == pre.read_spec(dma_source(v, i)),
        post.read_spec(dma_source(v, i)) == pre.read_spec(dma_source(v, i)),
{
    assert(post.ppu.regs.stat == pre.ppu.regs.stat);
}

/// The sum of a run of tick counts.
pub open spec fn total_cycles(clocks: Seq<u8>) -> int
    decreases clocks.len(),
{
    if clocks.len() == 0 {
        0
    } else {
        total_cycles(clocks.drop_last()) + clocks.last()
    }
}

/// Whether `post` is `pre` after `clock` cycles of the bus, with or
/// without the interrupt lines latched into IF.
pub open spec fn clocked(pre: Mmu, post: Mmu, clock: u8) -> bool {
    pre.ticked(&post, clock) || pre.advanced(&post, clock)
}

/// Cycle balance: over a run of bus ticks, the timer's internal counter
/// moves on by the sum of the ticks modulo 2^16, and (with the LCD on) the
/// PPU's frame position by the same sum modulo the 70,224 cycles of a frame.
/// `ms[i + 1]` is `ms[i]` after `clocks[i]` cycles.
#[verifier::rlimit(50)]
pub proof fn law_cycle_balance(ms: Seq<Mmu>, clocks: Seq<u8>)
    requires
        ms.len() == clocks.len() + 1,
        ms[0].wf(),
        ms[0].ppu.regs.lcdc & 0x80 != 0,
        forall|i: int| 0 <= i < clocks.len() ==> clocks[i] <= 80,
        forall|i: int|
            0 <= i < clocks.len() ==> #[trigger] clocked(ms[i], ms[i + 1], clocks[i]),
    ensures
        ms.last().timer.counter as int == (ms[0].timer.counter + total_cycles(clocks)) % 0x10000,
        frame_dot(ms.last().ppu.regs) == (frame_dot(ms[0].ppu.regs) + total_cycles(clocks)) % 70224,
        ms.last().ppu.regs.inv(),
        ms.last().ppu.regs.lcdc & 0x80 != 0,
    decreases clocks.len(),
{
    if clocks.len() > 0 {
        let n = clocks.len() - 1;
        let ms0 = ms.drop_last();
        let cs0 = clocks.drop_last();
        assert forall|i: int| 0 <= i < cs0.len() implies #[trigger] clocked(
            ms0[i],
            ms0[i + 1],
            cs0[i],
        ) by {
            assert(clocked(ms[i], ms[i + 1], clocks[i]));
        }
        law_cycle_balance(ms0, cs0);
        let prev = ms[n];
        assert(prev == ms0.last());
        let next = ms[n + 1];
        let u = prev.ppu.regs.updated(clocks[n]);
        assert(clocked(prev, next, clocks[n]));
        law_frame_cadence(prev.ppu.regs, clocks[n]);
        assert(next.ppu.regs.ly == u.ly && next.ppu.regs.stat == u.stat && next.ppu.regs.counter
            == u.counter && next.ppu.regs.lyc == u.lyc && next.ppu.regs.lcdc == u.lcdc
            && next.timer.counter == prev.timer.updated(clocks[n]).counter);
        assert(frame_dot(next.ppu.regs) == frame_dot(u));
    }
}

} // verus!

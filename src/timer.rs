use vstd::prelude::*;

verus! {

/// The divider and the programmable timer (DIV, TIMA, TMA, TAC at 0xFF04-0xFF07).
pub struct Timer {
    /// Timer counter
    pub tima: u8,
    /// Timer modulo
    pub tma: u8,
    /// Timer control: bit 2 enables TIMA, bits 1..0 pick its rate
    pub tac: u8,
    /// Internal 16-bit counter; DIV is its high byte
    pub counter: u16,
    /// Interrupt request
    pub irq_timer: bool,
}

/// How far the internal counter is shifted to find TIMA's clock for a
/// given TAC: one tick every 1024, 16, 64 or 256 cycles.
pub open spec fn tap_shift(tac: u8) -> u16 {
    if tac & 3 == 0 {
        10
    } else if tac & 3 == 1 {
        4
    } else if tac & 3 == 2 {
        6
    } else {
        8
    }
}

/// The bits that remain of the internal counter after the shift of `tap_shift`.
pub open spec fn tap_mask(tac: u8) -> u16 {
    if tac & 3 == 0 {
        0x3f
    } else if tac & 3 == 1 {
        0xfff
    } else if tac & 3 == 2 {
        0x3ff
    } else {
        0xff
    }
}

/// How many TIMA clocks pass when the internal counter goes from `prev`
/// to `next` (forward, modulo 2^16) under control value `tac`.
pub open spec fn timer_edges(prev: u16, next: u16, tac: u8) -> u16 {
    ((next >> tap_shift(tac)).wrapping_sub(prev >> tap_shift(tac))) & tap_mask(tac)
}

/// TIMA after `diff` clocks from `tima`: on overflow it restarts from TMA,
/// carrying the clocks past the overflow.
pub open spec fn tima_after(tima: u8, tma: u8, diff: u16) -> u8 {
    if tima as int + diff as int > 0xff {
        tma.wrapping_add((diff - 1) as u8)
    } else {
        (tima as int + diff as int) as u8
    }
}

impl Timer {
    /// Creates a new `Timer`.
    pub fn new() -> (r: Self)
        ensures
            r.tima == 0 && r.tma == 0 && r.tac == 0 && r.counter == 0 && !r.irq_timer,
    {
        Timer { tima: 0, tma: 0, tac: 0, counter: 0, irq_timer: false }
    }

    /// The value that a read of `addr` yields.
    pub open spec fn read_spec(&self, addr: u16) -> u8 {
        if addr == 0xff04 {
            (self.counter >> 8u16) as u8
        } else if addr == 0xff05 {
            self.tima
        } else if addr == 0xff06 {
            self.tma
        } else {
            self.tac
        }
    }

    /// The timer after a write of `val` to `addr`: a write to DIV clears the
    /// whole internal counter.
    pub open spec fn written(self, addr: u16, val: u8) -> Timer {
        if addr == 0xff04 {
            Timer { counter: 0, ..self }
        } else if addr == 0xff05 {
            Timer { tima: val, ..self }
        } else if addr == 0xff06 {
            Timer { tma: val, ..self }
        } else {
            Timer { tac: val & 0x7, ..self }
        }
    }

    pub fn write(&mut self, addr: u16, val: u8)
        requires
            0xff04 <= addr <= 0xff07,
        ensures
            *final(self) == old(self).written(addr, val),
    {
        if addr == 0xff04 {
            self.counter = 0;
        } else if addr == 0xff05 {
            self.tima = val;
        } else if addr == 0xff06 {
            self.tma = val;
        } else {
            self.tac = val & 0x7;
        }
    }

    pub fn read(&self, addr: u16) -> (r: u8)
        requires
            0xff04 <= addr <= 0xff07,
        ensures
            r == self.read_spec(addr),
    {
        if addr == 0xff04 {
            (self.counter >> 8u16) as u8
        } else if addr == 0xff05 {
            self.tima
        } else if addr == 0xff06 {
            self.tma
        } else {
            self.tac
        }
    }

    pub fn is_irq_timer(&self) -> (r: bool)
        ensures
            r == self.irq_timer,
    {
        self.irq_timer
    }

    pub fn set_irq_timer(&mut self, flag: bool)
        ensures
            *final(self) == (Timer { irq_timer: flag, ..*old(self) }),
    {
        self.irq_timer = flag;
    }

    /// The timer after `tick` cycles.
    pub open spec fn updated(self, tick: u8) -> Timer {
        let next = self.counter.wrapping_add(tick as u16);
        let diff = timer_edges(self.counter, next, self.tac);
        if self.tac & 4 != 0 && diff > 0 {
            Timer {
                counter: next,
                tima: tima_after(self.tima, self.tma, diff),
                irq_timer: self.irq_timer || self.tima as int + diff as int > 0xff,
                ..self
            }
        } else {
            Timer { counter: next, ..self }
        }
    }

    /// Advances the internal counter by `tick` cycles and clocks TIMA by the
    /// number of tap edges that passed.
    pub fn update(&mut self, tick: u8)
        ensures
            *final(self) == old(self).updated(tick),
    {
        let counter_prev = self.counter;
        self.counter = self.counter.wrapping_add(tick as u16);

        if self.tac & 4 > 0 {
            let (divider, mask): (u16, u16) = if self.tac & 3 == 0 {
                (10, 0x3f)
            } else if self.tac & 3 == 1 {
                (4, 0xfff)
            } else if self.tac & 3 == 2 {
                (6, 0x3ff)
            } else {
                (8, 0xff)
            };
            let x = self.counter >> divider;
            let y = counter_prev >> divider;
            let diff = x.wrapping_sub(y) & mask;

            if diff > 0 {
                if self.tima as u32 + diff as u32 > 0xff {
                    self.tima = self.tma.wrapping_add(#[verifier::truncate] ((diff - 1) as u8));
                    self.irq_timer = true;
                } else {
                    self.tima = self.tima + diff as u8;
                }
            }
        }
    }
}

} // verus!

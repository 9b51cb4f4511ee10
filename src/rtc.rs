use vstd::prelude::*;

verus! {

/// The clock registers of an MBC3 cartridge: seconds, minutes, hours, the
/// low eight bits of the day counter, and DH (bit 0: day bit 8, bit 6: halt,
/// bit 7: day counter overflow).
pub struct Rtc {
    pub s: u8,
    pub m: u8,
    pub h: u8,
    pub dl: u8,
    pub dh: u8,
    /// The wall-clock time, in seconds since the Unix epoch, at which the
    /// clock started counting.
    pub initialization_time: i64,
}

/// Relies on chrono::Local::now and DateTime::timestamp: the current wall-clock
/// time in whole seconds since the Unix epoch. Nothing is known of the value.
#[verifier::external_body]
fn now_seconds() -> (r: i64) {
    chrono::Local::now().timestamp()
}

/// Seconds elapsed between `base` and `now`, where a clock that went
/// backwards counts as no time.
pub open spec fn elapsed(base: i64, now: i64) -> int {
    if now as int - base as int > 0 {
        now as int - base as int
    } else {
        0
    }
}

impl Rtc {
    /// The clock after a latch at time `now`: S, M and H take the total
    /// seconds, minutes and hours elapsed since the clock started, cut to
    /// eight bits; DL takes the low eight bits of the day count, cut to 16
    /// bits; a day count of 0x100-0x1FF sets DH bit 0, a larger one DH bits
    /// 0 and 7, and DH bits are never cleared by a latch.
    pub open spec fn latched(self, now: i64) -> Rtc {
        let e = elapsed(self.initialization_time, now);
        let days = (e / 86400) % 0x10000;
        Rtc {
            s: (e % 256) as u8,
            m: ((e / 60) % 256) as u8,
            h: ((e / 3600) % 256) as u8,
            dl: (days % 256) as u8,
            dh: if days <= 0xff {
                self.dh
            } else if days <= 0x1ff {
                self.dh | 0x01
            } else {
                self.dh | 0x81
            },
            ..self
        }
    }

    /// The register selected by `addr` (0x08 to 0x0C).
    pub open spec fn read_spec(&self, addr: u16) -> u8 {
        if addr == 0x08 {
            self.s
        } else if addr == 0x09 {
            self.m
        } else if addr == 0x0a {
            self.h
        } else if addr == 0x0b {
            self.dl
        } else {
            self.dh
        }
    }

    /// The clock after a write of `value` to the register selected by `addr`.
    pub open spec fn written(self, addr: u16, value: u8) -> Rtc {
        if addr == 0x08 {
            Rtc { s: value, ..self }
        } else if addr == 0x09 {
            Rtc { m: value, ..self }
        } else if addr == 0x0a {
            Rtc { h: value, ..self }
        } else if addr == 0x0b {
            Rtc { dl: value, ..self }
        } else {
            Rtc { dh: value, ..self }
        }
    }

    /// A clock that starts counting now, with every register at zero.
    pub fn new() -> (r: Self)
        ensures
            r.s == 0 && r.m == 0 && r.h == 0 && r.dl == 0 && r.dh == 0,
    {
        Rtc { s: 0, m: 0, h: 0, dl: 0, dh: 0, initialization_time: now_seconds() }
    }

    pub fn read(&self, addr: u16) -> (r: u8)
        requires
            0x08 <= addr <= 0x0c,
        ensures
            r == self.read_spec(addr),
    {
        if addr == 0x08 {
            self.s
        } else if addr == 0x09 {
            self.m
        } else if addr == 0x0a {
            self.h
        } else if addr == 0x0b {
            self.dl
        } else {
            self.dh
        }
    }

    pub fn write(&mut self, addr: u16, value: u8)
        requires
            0x08 <= addr <= 0x0c,
        ensures
            *final(self) == old(self).written(addr, value),
    {
        if addr == 0x08 {
            self.s = value;
        } else if addr == 0x09 {
            self.m = value;
        } else if addr == 0x0a {
            self.h = value;
        } else if addr == 0x0b {
            self.dl = value;
        } else {
            self.dh = value;
        }
    }

    /// Sets the registers from the time elapsed between the start of the
    /// clock and `now`.
    pub fn latch(&mut self, now: i64)
        ensures
            *final(self) == old(self).latched(now),
    {
        let diff: i128 = now as i128 - self.initialization_time as i128;
        let e: i128 = if diff > 0 {
            diff
        } else {
            0
        };
        let days: i128 = (e / 86400) % 0x10000;
        self.s = (e % 256) as u8;
        self.m = ((e / 60) % 256) as u8;
        self.h = ((e / 3600) % 256) as u8;
        self.dl = (days % 256) as u8;
        if days > 0x1ff {
            self.dh = self.dh | 0x81;
        } else if days > 0xff {
            self.dh = self.dh | 0x01;
        }
    }

    /// Latches the registers at the current wall-clock time.
    pub fn tic(&mut self)
        ensures
            exists|now: i64| *final(self) == old(self).latched(now),
    {
        let now = now_seconds();
        self.latch(now);
    }
}

} // verus!

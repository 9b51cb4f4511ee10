use vstd::prelude::*;

verus! {

/// The serial link port, kept as a plain register pair (SB at 0xFF01, SC at 0xFF02).
pub struct Serial {
    pub data: u8,
    pub control: u8,
}

impl Serial {
    pub fn new() -> (r: Self)
        ensures
            r.data == 0,
            r.control == 0,
    {
        Self { data: 0x00, control: 0x00 }
    }

    /// The value that a read of `addr` yields.
    pub open spec fn read_spec(&self, addr: u16) -> u8 {
        if addr == 0xff01 {
            self.data
        } else {
            self.control
        }
    }

    pub fn read(&self, addr: u16) -> (r: u8)
        requires
            addr == 0xff01 || addr == 0xff02,
        ensures
            r == self.read_spec(addr),
    {
        if addr == 0xff01 {
            self.data
        } else {
            self.control
        }
    }

    pub fn write(&mut self, addr: u16, value: u8)
        requires
            addr == 0xff01 || addr == 0xff02,
        ensures
            addr == 0xff01 ==> final(self).data == value && final(self).control == old(self).control,
            addr == 0xff02 ==> final(self).control == value && final(self).data == old(self).data,
    {
        if addr == 0xff01 {
            self.data = value;
        } else {
            self.control = value;
        }
    }
}

} // verus!

use vstd::prelude::*;

verus! {

/// Work RAM: 32 KiB in eight 4-KiB banks. Bank 0 is always at offset
/// 0x0000; the bank at offset 0x1000 is chosen by the bank index, where
/// index 0 selects bank 1.
pub struct Wram {
    pub bank_index: u8,
    pub wram: Vec<u8>,
}

/// Where offset `addr` (below 0x2000) lands in the 32 KiB of work RAM when
/// bank `bank` is selected.
pub open spec fn wram_index(bank: u8, addr: u16) -> int {
    if addr < 0x1000 || bank == 0 || bank == 1 {
        addr as int
    } else {
        addr as int + (bank as int - 1) * 0x1000
    }
}

impl Wram {
    pub open spec fn wf(&self) -> bool {
        &&& self.wram@.len() == 0x8000
        &&& self.bank_index < 8
    }

    /// The value that a read of offset `addr` yields.
    pub open spec fn read_spec(&self, addr: u16) -> u8 {
        self.wram@[wram_index(self.bank_index, addr)]
    }

    pub fn new() -> (r: Self)
        ensures
            r.wf(),
            r.bank_index == 0,
            forall|i: int| 0 <= i < 0x8000 ==> r.wram@[i] == 0,
    {
        Self { bank_index: 0, wram: vec![0u8; 0x8000] }
    }

    pub fn set_bank_index(&mut self, index: u8)
        requires
            old(self).wf(),
            index < 8,
        ensures
            final(self).wf(),
            final(self).bank_index == index,
            final(self).wram@ == old(self).wram@,
    {
        self.bank_index = index;
    }

    pub fn get_bank_idnex(&self) -> (r: u8)
        ensures
            r == self.bank_index,
    {
        self.bank_index
    }

    fn index_of(&self, addr: u16) -> (r: usize)
        requires
            self.wf(),
            addr < 0x2000,
        ensures
            r == wram_index(self.bank_index, addr),
            r < 0x8000,
    {
        if addr < 0x1000 || self.bank_index == 0 || self.bank_index == 1 {
            addr as usize
        } else {
            (addr as usize) + ((self.bank_index - 1) as usize) * 0x1000
        }
    }

    pub fn read_byte(&self, addr: u16) -> (r: u8)
        requires
            self.wf(),
            addr < 0x2000,
        ensures
            r == self.read_spec(addr),
    {
        let i = self.index_of(addr);
        self.wram[i]
    }

    pub fn write_byte(&mut self, addr: u16, value: u8)
        requires
            old(self).wf(),
            addr < 0x2000,
        ensures
            final(self).wf(),
            final(self).bank_index == old(self).bank_index,
            final(self).wram@ == old(self).wram@.update(wram_index(old(self).bank_index, addr), value),
    {
        let i = self.index_of(addr);
        self.wram.set(i, value);
    }
}

} // verus!

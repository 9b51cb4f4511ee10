use vstd::prelude::*;

verus! {

/// The 16-bit value whose high byte is `hi` and low byte is `lo`.
pub open spec fn word(hi: u8, lo: u8) -> u16 {
    (hi as int * 256 + lo as int) as u16
}

/// Joins a register pair into one 16-bit value (`high * 256 + low`).
pub fn get_addr_from_registers(high_register: u8, low_register: u8) -> (r: u16)
    ensures
        r == word(high_register, low_register),
        r as int == high_register as int * 256 + low_register as int,
{
    let hi = high_register as u16;
    let lo = low_register as u16;
    assert(((hi << 8u16) as int) == hi as int * 256 && (hi << 8u16) + lo <= 0xffff) by (bit_vector)
        requires
            hi <= 0xff,
            lo <= 0xff,
    ;
    (hi << 8u16) + lo
}

} // verus!

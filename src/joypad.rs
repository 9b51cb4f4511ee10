use vstd::prelude::*;

verus! {

/// The joypad register (0xFF00) and the state of the eight keys.
pub struct Joypad {
    /// The row-select bits written by the program (bits 4 and 5).
    pub joyp: u8,
    /// One bit per key, 0 when pressed: directions in the high nibble
    /// (Down, Up, Left, Right), buttons in the low nibble (Start, Select, B, A).
    pub key_state: u8,
    /// Set when a key goes from released to pressed.
    pub irq: bool,
}

#[derive(Clone, Copy, Debug, Hash, PartialEq, Eq, Structural)]
pub enum Key {
    Down,
    Up,
    Left,
    Right,
    Start,
    Select,
    B,
    A,
}

/// The bit of `key_state` that belongs to `key`.
pub open spec fn key_mask(key: Key) -> u8 {
    match key {
        Key::Down => 0x80,
        Key::Up => 0x40,
        Key::Left => 0x20,
        Key::Right => 0x10,
        Key::Start => 0x08,
        Key::Select => 0x04,
        Key::B => 0x02,
        Key::A => 0x01,
    }
}

fn mask_of(key: &Key) -> (r: u8)
    ensures
        r == key_mask(*key),
{
    match key {
        Key::Down => 0x80,
        Key::Up => 0x40,
        Key::Left => 0x20,
        Key::Right => 0x10,
        Key::Start => 0x08,
        Key::Select => 0x04,
        Key::B => 0x02,
        Key::A => 0x01,
    }
}

impl Joypad {
    pub fn new() -> (r: Self)
        ensures
            r.joyp == 0xff,
            r.key_state == 0xff,
            !r.irq,
    {
        Joypad { joyp: 0xff, key_state: 0xff, irq: false }
    }

    /// Presses `key`; a key that was released raises the joypad interrupt.
    pub fn keydown(&mut self, key: Key)
        ensures
            final(self).key_state == old(self).key_state & !key_mask(key),
            final(self).joyp == old(self).joyp,
            final(self).irq == (old(self).irq || old(self).key_state & key_mask(key) != 0),
    {
        let mask = mask_of(&key);
        if self.key_state & mask != 0 {
            self.irq = true;
        }
        self.key_state = self.key_state & !mask;
    }

    /// Releases `key`.
    pub fn keyup(&mut self, key: Key)
        ensures
            final(self).key_state == old(self).key_state | key_mask(key),
            final(self).joyp == old(self).joyp,
            final(self).irq == old(self).irq,
    {
        let mask = mask_of(&key);
        self.key_state = self.key_state | mask;
    }

    /// What a read of 0xFF00 yields: the select bits, and the selected row's
    /// keys in the low nibble.
    pub open spec fn read_spec(&self) -> u8 {
        if self.joyp & 0x10 == 0 {
            (self.joyp & 0xf0) | ((self.key_state >> 4u8) & 0x0f)
        } else if self.joyp & 0x20 == 0 {
            (self.joyp & 0xf0) | (self.key_state & 0x0f)
        } else {
            self.joyp
        }
    }

    pub fn write_byte(&mut self, addr: u16, value: u8)
        requires
            addr == 0xff00,
        ensures
            final(self).joyp == (old(self).joyp & 0xcf) | (value & 0x30),
            final(self).key_state == old(self).key_state,
            final(self).irq == old(self).irq,
    {
        self.joyp = (self.joyp & 0xcf) | (value & 0x30);
    }

    pub fn read_byte(&self, addr: u16) -> (r: u8)
        requires
            addr == 0xff00,
        ensures
            r == self.read_spec(),
    {
        if self.joyp & 0x10 == 0 {
            (self.joyp & 0xf0) | ((self.key_state >> 4u8) & 0x0f)
        } else if self.joyp & 0x20 == 0 {
            (self.joyp & 0xf0) | (self.key_state & 0x0f)
        } else {
            self.joyp
        }
    }
}

impl Default for Joypad {
    fn default() -> (r: Self)
        ensures
            r.joyp == 0xff,
            r.key_state == 0xff,
            !r.irq,
    {
        Self::new()
    }
}

} // verus!

//! A Game Boy (DMG) emulator core: CPU, memory bus, pixel pipeline,
//! timer, joypad and cartridge bank controllers.

pub mod cartridge;
pub mod cpu;
pub mod joypad;
pub mod mmu;
pub mod ppu;
pub mod register;
pub mod rtc;
pub mod serial;
pub mod timer;
pub mod utils;
pub mod wram;

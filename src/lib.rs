//! Core of a handheld-console emulator: the system bus with its memory map,
//! OAM DMA and HDMA engines, interrupt routing and CGB double-speed handling,
//! together with the small peripherals it drives.

pub mod apu;
pub mod bus;
pub mod cartridge;
pub mod cpu;
pub mod joypad;
pub mod lemmas;
pub mod mmu;
pub mod ppu;
pub mod timer;

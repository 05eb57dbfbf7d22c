use vstd::prelude::*;
use crate::timer::Timer;

verus! {

/// A flat memory stand-in for running the CPU without a cartridge: LY reads 0x90
/// (the first VBlank line, which test programs wait for), every other address
/// reads 0, and writes are dropped.
pub struct Mmu {
    pub timer: Timer,
    pub interrupt_enable: u8,
}

/// What a read at `addr` returns.
pub open spec fn mmu_read(addr: usize) -> u8 {
    if addr == 0xFF44 {
        0x90
    } else {
        0
    }
}

impl Mmu {
    pub fn new() -> (m: Mmu)
        ensures
            m.timer == Timer::new_spec(),
            m.interrupt_enable == 0,
    {
        Mmu { timer: Timer::new(), interrupt_enable: 0 }
    }

    pub fn read_byte(&self, addr: usize) -> (r: u8)
        ensures
            r == mmu_read(addr),
    {
        if addr == 0xFF44 {
            return 0x90;
        }
        0
    }

    /// A little-endian word from `addr` and the address after it (wrapping).
    pub fn read_word(&self, addr: usize) -> (r: u16)
        ensures
            r == mmu_read(addr) as u16 + 256 * (mmu_read(addr.wrapping_add(1)) as u16),
    {
        let lo = self.read_byte(addr) as u16;
        let hi = self.read_byte(addr.wrapping_add(1)) as u16;
        proof {
            assert(hi <= 0x90);
            assert((hi << 8) | lo == lo + 256 * hi) by (bit_vector)
                requires
                    hi <= 0xFF,
                    lo <= 0xFF,
            ;
        }
        (hi << 8) | lo
    }

    pub fn write_byte(&mut self, addr: usize, byte: u8)
        ensures
            *final(self) == *old(self),
    {
    }

    /// Writes the low byte at `addr` and the high byte after it.
    pub fn write_word(&mut self, addr: usize, word: u16)
        ensures
            *final(self) == *old(self),
    {
        self.write_byte(addr, word as u8);
        self.write_byte(addr.wrapping_add(1), (word >> 8) as u8);
    }
}

} // verus!

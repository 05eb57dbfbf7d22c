use vstd::prelude::*;

verus! {

/// The divider and the programmable timer (0xFF04-0xFF07).
///
/// `div` is the free-running 16-bit counter; DIV is its upper byte.
#[derive(Clone, Copy, PartialEq, Eq, Structural, Debug)]
pub struct Timer {
    pub div: u16,
    pub tima: u8,
    pub tma: u8,
    pub tac: u8,
}

/// The bit of the internal counter whose falling edge clocks TIMA, for a TAC value.
pub open spec fn tac_bit(tac: u8) -> u16 {
    if tac & 3 == 0 {
        0x200
    } else if tac & 3 == 1 {
        0x8
    } else if tac & 3 == 2 {
        0x20
    } else {
        0x80
    }
}

impl Timer {
    /// DIV as the CPU reads it.
    pub open spec fn div_spec(self) -> u8 {
        (self.div >> 8) as u8
    }

    /// One T-cycle: the counter advances, and TIMA counts on a falling edge of
    /// the selected bit while the timer is enabled; the flag tells of an overflow.
    pub open spec fn tick(self) -> (Timer, bool) {
        let div: u16 = if self.div == 0xFFFF { 0 } else { (self.div + 1) as u16 };
        let edge = self.tac & 4 != 0 && self.div & tac_bit(self.tac) != 0 && div
            & tac_bit(self.tac) == 0;
        if !edge {
            (Timer { div, ..self }, false)
        } else if self.tima == 0xFF {
            (Timer { div, tima: self.tma, ..self }, true)
        } else {
            (Timer { div, tima: (self.tima + 1) as u8, ..self }, false)
        }
    }

    /// `n` T-cycles; the flag tells whether TIMA overflowed in any of them.
    pub open spec fn ticks(self, n: nat) -> (Timer, bool)
        decreases n,
    {
        if n == 0 {
            (self, false)
        } else {
            let (t, o) = self.ticks((n - 1) as nat);
            let (t2, o2) = t.tick();
            (t2, o || o2)
        }
    }

    /// What a read of a timer register returns.
    pub open spec fn read_spec(self, addr: usize) -> u8 {
        if addr == 0xFF04 {
            self.div_spec()
        } else if addr == 0xFF05 {
            self.tima
        } else if addr == 0xFF06 {
            self.tma
        } else if addr == 0xFF07 {
            self.tac | 0xF8
        } else {
            0xFF
        }
    }

    /// The timer after a write to one of its registers; writing DIV clears the counter.
    pub open spec fn write_spec(self, addr: usize, byte: u8) -> Timer {
        if addr == 0xFF04 {
            Timer { div: 0, ..self }
        } else if addr == 0xFF05 {
            Timer { tima: byte, ..self }
        } else if addr == 0xFF06 {
            Timer { tma: byte, ..self }
        } else if addr == 0xFF07 {
            Timer { tac: byte & 7, ..self }
        } else {
            self
        }
    }

    pub open spec fn new_spec() -> Timer {
        Timer { div: 0, tima: 0, tma: 0, tac: 0 }
    }

    pub fn new() -> (t: Timer)
        ensures
            t == Timer::new_spec(),
    {
        Timer { div: 0, tima: 0, tma: 0, tac: 0 }
    }

    pub fn read_div(&self) -> (r: u8)
        ensures
            r == self.div_spec(),
    {
        (self.div >> 8) as u8
    }

    pub fn reset_div(&mut self)
        ensures
            *final(self) == (Timer { div: 0, ..*old(self) }),
    {
        self.div = 0;
    }

    pub fn read_io(&self, addr: usize) -> (r: u8)
        ensures
            r == self.read_spec(addr),
    {
        if addr == 0xFF04 {
            self.read_div()
        } else if addr == 0xFF05 {
            self.tima
        } else if addr == 0xFF06 {
            self.tma
        } else if addr == 0xFF07 {
            self.tac | 0xF8
        } else {
            0xFF
        }
    }

    pub fn write_io(&mut self, addr: usize, byte: u8)
        ensures
            *final(self) == old(self).write_spec(addr, byte),
    {
        if addr == 0xFF04 {
            self.div = 0;
        } else if addr == 0xFF05 {
            self.tima = byte;
        } else if addr == 0xFF06 {
            self.tma = byte;
        } else if addr == 0xFF07 {
            self.tac = byte & 7;
        }
    }

    fn selected_bit(&self) -> (r: u16)
        ensures
            r == tac_bit(self.tac),
    {
        let sel = self.tac & 3;
        if sel == 0 {
            0x200
        } else if sel == 1 {
            0x8
        } else if sel == 2 {
            0x20
        } else {
            0x80
        }
    }

    /// Runs the timer for `t_cycles` T-cycles; returns whether TIMA overflowed.
    pub fn step(&mut self, t_cycles: u32) -> (overflow: bool)
        ensures
            (*final(self), overflow) == old(self).ticks(t_cycles as nat),
    {
        let mut overflow = false;
        let mut i: u32 = 0;
        while i < t_cycles
            invariant
                i <= t_cycles,
                (*self, overflow) == old(self).ticks(i as nat),
            decreases t_cycles - i,
        {
            let bit = self.selected_bit();
            let div: u16 = if self.div == 0xFFFF { 0 } else { self.div + 1 };
            let edge = self.tac & 4 != 0 && self.div & bit != 0 && div & bit == 0;
            self.div = div;
            if edge {
                if self.tima == 0xFF {
                    self.tima = self.tma;
                    overflow = true;
                } else {
                    self.tima = self.tima + 1;
                }
            }
            i = i + 1;
        }
        overflow
    }
}

} // verus!

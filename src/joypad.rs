use vstd::prelude::*;

verus! {

/// The joypad register (0xFF00).
///
/// `joypad` is the register byte: bits 4 (directions) and 5 (buttons) select a
/// group, active low, and bits 0-3 hold the selected input lines, active low.
/// `keys` is the host's key state, one bit per key and 0 for pressed, in the order
/// START, SELECT, B, A, DOWN, UP, LEFT, RIGHT from bit 7 down.
#[derive(Clone, Copy, PartialEq, Eq, Structural, Debug)]
pub struct Joypad {
    pub joypad: u8,
    pub keys: u8,
    pub irq: bool,
}

/// The four input lines (active low) seen through a selection.
pub open spec fn joypad_lines(select: u8, keys: u8) -> u8 {
    let dir: u8 = if select & 0x10 == 0 { keys & 0x0F } else { 0x0F };
    let act: u8 = if select & 0x20 == 0 { keys >> 4 } else { 0x0F };
    dir & act
}

/// The key state with key `key` (0 START .. 7 RIGHT) pressed: its bit, 7 - key, cleared.
pub fn press_key(status: u8, key: u8) -> (r: u8)
    requires
        key < 8,
    ensures
        r == status & !((1u8 << (7 - key)) as u8),
{
    status & !(1u8 << (7 - key))
}

/// The key state with key `key` released: its bit set.
pub fn release_key(status: u8, key: u8) -> (r: u8)
    requires
        key < 8,
    ensures
        r == status | ((1u8 << (7 - key)) as u8),
{
    status | (1u8 << (7 - key))
}

impl Joypad {
    pub open spec fn read_spec(self) -> u8 {
        self.joypad
    }

    /// The joypad after the host reports `status`: the selected lines are latched
    /// into bits 0-3, and a line that falls raises the interrupt flag.
    pub open spec fn updated(self, status: u8) -> Joypad {
        let lines = joypad_lines(self.joypad, status);
        Joypad {
            joypad: (self.joypad & 0xF0) | lines,
            keys: status,
            irq: self.irq || (self.joypad & 0x0F) & !lines & 0x0F != 0,
        }
    }

    pub fn new() -> (j: Joypad)
        ensures
            j == (Joypad { joypad: 0, keys: 0xFF, irq: false }),
    {
        Joypad { joypad: 0, keys: 0xFF, irq: false }
    }

    pub fn read_joypad(&self) -> (r: u8)
        ensures
            r == self.read_spec(),
    {
        self.joypad
    }

    /// Bottom four bits are read-only.
    pub fn write_joypad(&mut self, byte: u8)
        ensures
            *final(self) == (Joypad { joypad: (byte & 0xF0) | (old(self).joypad & 0x0F), ..*old(self) }),
    {
        let joypad = self.joypad & 0x0F;
        self.joypad = (byte & 0xF0) | joypad;
    }

    /// Takes the host's key state.
    pub fn step(&mut self, status: u8)
        ensures
            *final(self) == old(self).updated(status),
    {
        let dir: u8 = if self.joypad & 0x10 == 0 { status & 0x0F } else { 0x0F };
        let act: u8 = if self.joypad & 0x20 == 0 { status >> 4 } else { 0x0F };
        let lines = dir & act;
        self.irq = self.irq || (self.joypad & 0x0F) & !lines & 0x0F != 0;
        self.joypad = (self.joypad & 0xF0) | lines;
        self.keys = status;
    }

    /// Reports a pending joypad interrupt and clears it.
    pub fn interrupt_triggered(&mut self) -> (r: bool)
        ensures
            r == old(self).irq,
            *final(self) == (Joypad { irq: false, ..*old(self) }),
    {
        let r = self.irq;
        self.irq = false;
        r
    }
}

} // verus!

use vstd::prelude::*;

verus! {

/// The audio processor as the bus sees it: its register file (0xFF10-0xFF3F), the
/// frame sequencer's phase and the count of T-cycles it has run.
pub struct Apu {
    regs: Vec<u8>,
    frame_sequencer: u8,
    clock: u64,
}

pub ghost struct ApuView {
    pub regs: Seq<u8>,
    pub frame_sequencer: u8,
    pub clock: u64,
}

impl View for Apu {
    type V = ApuView;

    closed spec fn view(&self) -> ApuView {
        ApuView { regs: self.regs@, frame_sequencer: self.frame_sequencer, clock: self.clock }
    }
}

impl ApuView {
    pub open spec fn wf(self) -> bool {
        &&& self.regs.len() == 0x30
        &&& self.frame_sequencer < 8
    }

    /// A register read; the CGB PCM registers (0xFF76, 0xFF77) read 0.
    pub open spec fn read_io(self, addr: int) -> u8 {
        if 0xFF10 <= addr < 0xFF40 {
            self.regs[addr - 0xFF10]
        } else {
            0
        }
    }

    pub open spec fn write_io(self, addr: int, byte: u8) -> ApuView {
        if 0xFF10 <= addr < 0xFF40 {
            ApuView { regs: self.regs.update(addr - 0xFF10, byte), ..self }
        } else {
            self
        }
    }

    /// The frame sequencer advanced by one of its eight phases.
    pub open spec fn sequenced(self) -> ApuView {
        ApuView { frame_sequencer: ((self.frame_sequencer + 1) % 8) as u8, ..self }
    }

    pub open spec fn stepped(self, t_cycles: u32) -> ApuView {
        ApuView { clock: self.clock.wrapping_add(t_cycles as u64), ..self }
    }
}

impl Apu {
    pub fn new() -> (a: Apu)
        ensures
            a@.wf(),
            a@.regs == Seq::new(0x30, |i: int| 0u8),
            a@.frame_sequencer == 0,
            a@.clock == 0,
    {
        let regs = vec![0u8; 0x30];
        proof {
            assert(regs@ =~= Seq::new(0x30, |i: int| 0u8));
        }
        Apu { regs, frame_sequencer: 0, clock: 0 }
    }

    pub fn read_io(&self, addr: usize) -> (r: u8)
        requires
            self@.wf(),
        ensures
            r == self@.read_io(addr as int),
    {
        if 0xFF10 <= addr && addr < 0xFF40 {
            self.regs[addr - 0xFF10]
        } else {
            0
        }
    }

    pub fn write_io(&mut self, addr: usize, byte: u8)
        requires
            old(self)@.wf(),
        ensures
            final(self)@ == old(self)@.write_io(addr as int, byte),
    {
        if 0xFF10 <= addr && addr < 0xFF40 {
            self.regs.set(addr - 0xFF10, byte);
        }
    }

    /// Advances the frame sequencer that clocks length, envelope and sweep.
    pub fn frame_sequencer_step(&mut self)
        requires
            old(self)@.wf(),
        ensures
            final(self)@ == old(self)@.sequenced(),
    {
        self.frame_sequencer = (self.frame_sequencer + 1) % 8;
    }

    pub fn frame_sequencer(&self) -> (r: u8)
        ensures
            r == self@.frame_sequencer,
    {
        self.frame_sequencer
    }

    pub fn step(&mut self, t_cycles: u32)
        ensures
            final(self)@ == old(self)@.stepped(t_cycles),
    {
        self.clock = self.clock.wrapping_add(t_cycles as u64);
    }
}

} // verus!

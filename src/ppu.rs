use vstd::prelude::*;

verus! {

/// The LCD controller's timing state: LCDC, STAT, LY, LYC, the dot within the line,
/// the STAT interrupt line, and the edges seen during the current step.
#[derive(Clone, Copy, PartialEq, Eq, Structural, Debug)]
pub struct LcdTiming {
    pub lcdc: u8,
    pub stat: u8,
    pub ly: u8,
    pub lyc: u8,
    pub dot: u16,
    pub line: bool,
    pub hblank: bool,
    pub vblank: bool,
    pub stat_irq: bool,
}

impl LcdTiming {
    /// The PPU mode: 0 HBlank, 1 VBlank, 2 OAM scan, 3 drawing.
    pub open spec fn mode(self) -> u8 {
        if self.ly >= 144 {
            1
        } else if self.dot < 80 {
            2
        } else if self.dot < 252 {
            3
        } else {
            0
        }
    }

    /// The STAT interrupt line: any enabled source is active.
    pub open spec fn stat_line(self) -> bool {
        (self.stat & 0x40 != 0 && self.ly == self.lyc) || (self.stat & 0x20 != 0 && self.mode()
            == 2) || (self.stat & 0x10 != 0 && self.mode() == 1) || (self.stat & 0x08 != 0
            && self.mode() == 0)
    }

    /// One dot; nothing moves while the LCD is off.
    pub open spec fn dot_step(self) -> LcdTiming {
        if self.lcdc & 0x80 == 0 {
            self
        } else {
            let n = if self.dot >= 455 {
                LcdTiming {
                    dot: 0,
                    ly: if self.ly >= 153 { 0 } else { (self.ly + 1) as u8 },
                    ..self
                }
            } else {
                LcdTiming { dot: (self.dot + 1) as u16, ..self }
            };
            LcdTiming {
                line: n.stat_line(),
                hblank: self.hblank || (n.mode() == 0 && self.mode() != 0),
                vblank: self.vblank || (n.mode() == 1 && self.mode() != 1),
                stat_irq: self.stat_irq || (n.stat_line() && !self.line),
                ..n
            }
        }
    }

    pub open spec fn dots(self, n: nat) -> LcdTiming
        decreases n,
    {
        if n == 0 {
            self
        } else {
            self.dots((n - 1) as nat).dot_step()
        }
    }

    /// A step of `n` dots: the edges are those of this step alone.
    pub open spec fn run(self, n: nat) -> LcdTiming {
        LcdTiming { hblank: false, vblank: false, stat_irq: false, ..self }.dots(n)
    }

    fn mode_exec(&self) -> (m: u8)
        ensures
            m == self.mode(),
    {
        if self.ly >= 144 {
            1
        } else if self.dot < 80 {
            2
        } else if self.dot < 252 {
            3
        } else {
            0
        }
    }

    fn stat_line_exec(&self) -> (r: bool)
        ensures
            r == self.stat_line(),
    {
        let mode = self.mode_exec();
        (self.stat & 0x40 != 0 && self.ly == self.lyc) || (self.stat & 0x20 != 0 && mode == 2)
            || (self.stat & 0x10 != 0 && mode == 1) || (self.stat & 0x08 != 0 && mode == 0)
    }

    fn dot_step_exec(&mut self)
        ensures
            *final(self) == old(self).dot_step(),
    {
        if self.lcdc & 0x80 != 0 {
            let old_mode = self.mode_exec();
            let old_line = self.line;
            if self.dot >= 455 {
                self.dot = 0;
                self.ly = if self.ly >= 153 { 0 } else { self.ly + 1 };
            } else {
                self.dot = self.dot + 1;
            }
            let mode = self.mode_exec();
            let line = self.stat_line_exec();
            self.hblank = self.hblank || (mode == 0 && old_mode != 0);
            self.vblank = self.vblank || (mode == 1 && old_mode != 1);
            self.stat_irq = self.stat_irq || (line && !old_line);
            self.line = line;
        }
    }
}

/// The picture processor as the bus sees it: VRAM (two banks of 8 KiB), OAM, its
/// registers, and the timing that raises HBlank, VBlank and STAT edges.
pub struct Ppu {
    vram: Vec<u8>,
    oam: Vec<u8>,
    regs: Vec<u8>,
    vbk: u8,
    lcd: LcdTiming,
    frame: Vec<u8>,
    frame_ready: bool,
}

pub ghost struct PpuView {
    pub vram: Seq<u8>,
    pub oam: Seq<u8>,
    pub regs: Seq<u8>,
    pub vbk: u8,
    pub lcd: LcdTiming,
    pub frame: Seq<u8>,
    pub frame_ready: bool,
}

impl View for Ppu {
    type V = PpuView;

    closed spec fn view(&self) -> PpuView {
        PpuView {
            vram: self.vram@,
            oam: self.oam@,
            regs: self.regs@,
            vbk: self.vbk,
            lcd: self.lcd,
            frame: self.frame@,
            frame_ready: self.frame_ready,
        }
    }
}

/// Pixels per line and lines per frame.
pub const LCD_WIDTH: usize = 160;
pub const LCD_HEIGHT: usize = 144;

impl PpuView {
    pub open spec fn wf(self) -> bool {
        &&& self.vram.len() == 0x4000
        &&& self.oam.len() == 0xA0
        &&& self.regs.len() == 0x30
        &&& self.vbk <= 1
    }

    /// Index in `vram` of a bus address in 0x8000-0x9FFF, in the selected bank.
    pub open spec fn vram_index(self, addr: int) -> int {
        self.vbk * 0x2000 + (addr - 0x8000)
    }

    pub open spec fn read_vram(self, addr: int) -> u8 {
        self.vram[self.vram_index(addr)]
    }

    pub open spec fn write_vram(self, addr: int, byte: u8) -> PpuView {
        PpuView { vram: self.vram.update(self.vram_index(addr), byte), ..self }
    }

    pub open spec fn read_oam(self, addr: int) -> u8 {
        self.oam[addr - 0xFE00]
    }

    pub open spec fn write_oam(self, addr: int, byte: u8) -> PpuView {
        PpuView { oam: self.oam.update(addr - 0xFE00, byte), ..self }
    }

    /// A register read at 0xFF40-0xFF6F.
    pub open spec fn read_io(self, addr: int) -> u8 {
        if addr == 0xFF40 {
            self.lcd.lcdc
        } else if addr == 0xFF41 {
            0x80 | self.lcd.stat | (if self.lcd.ly == self.lcd.lyc { 4u8 } else { 0u8 })
                | self.lcd.mode()
        } else if addr == 0xFF44 {
            self.lcd.ly
        } else if addr == 0xFF45 {
            self.lcd.lyc
        } else if addr == 0xFF4F {
            0xFE | self.vbk
        } else {
            self.regs[addr - 0xFF40]
        }
    }

    /// A register write at 0xFF40-0xFF6F; LY is read-only, and turning the LCD
    /// off resets it to the start of the frame.
    pub open spec fn write_io(self, addr: int, byte: u8) -> PpuView {
        if addr == 0xFF40 {
            if byte & 0x80 == 0 {
                PpuView { lcd: LcdTiming { lcdc: byte, ly: 0, dot: 0, ..self.lcd }, ..self }
            } else {
                PpuView { lcd: LcdTiming { lcdc: byte, ..self.lcd }, ..self }
            }
        } else if addr == 0xFF41 {
            PpuView { lcd: LcdTiming { stat: byte & 0x78, ..self.lcd }, ..self }
        } else if addr == 0xFF44 {
            self
        } else if addr == 0xFF45 {
            PpuView { lcd: LcdTiming { lyc: byte, ..self.lcd }, ..self }
        } else if addr == 0xFF4F {
            PpuView { vbk: byte & 1, ..self }
        } else {
            PpuView { regs: self.regs.update(addr - 0xFF40, byte), ..self }
        }
    }

    pub open spec fn stepped(self, t_cycles: u32) -> PpuView {
        let lcd = self.lcd.run(t_cycles as nat);
        PpuView { lcd, frame_ready: self.frame_ready || lcd.vblank, ..self }
    }
}

impl Ppu {
    pub fn new() -> (p: Ppu)
        ensures
            p@.wf(),
            p@.vram == Seq::new(0x4000, |i: int| 0u8),
            p@.oam == Seq::new(0xA0, |i: int| 0u8),
            p@.regs == Seq::new(0x30, |i: int| 0u8),
            p@.vbk == 0,
            p@.lcd == (LcdTiming {
                lcdc: 0,
                stat: 0,
                ly: 0,
                lyc: 0,
                dot: 0,
                line: false,
                hblank: false,
                vblank: false,
                stat_irq: false,
            }),
            !p@.frame_ready,
    {
        let vram = vec![0u8; 0x4000];
        let oam = vec![0u8; 0xA0];
        let regs = vec![0u8; 0x30];
        let frame = vec![0u8; 23040];
        proof {
            assert(vram@ =~= Seq::new(0x4000, |i: int| 0u8));
            assert(oam@ =~= Seq::new(0xA0, |i: int| 0u8));
            assert(regs@ =~= Seq::new(0x30, |i: int| 0u8));
        }
        Ppu {
            vram,
            oam,
            regs,
            vbk: 0,
            lcd: LcdTiming {
                lcdc: 0,
                stat: 0,
                ly: 0,
                lyc: 0,
                dot: 0,
                line: false,
                hblank: false,
                vblank: false,
                stat_irq: false,
            },
            frame,
            frame_ready: false,
        }
    }

    pub fn read_vram(&self, addr: usize) -> (r: u8)
        requires
            self@.wf(),
            0x8000 <= addr < 0xA000,
        ensures
            r == self@.read_vram(addr as int),
    {
        self.vram[(self.vbk as usize) * 0x2000 + (addr - 0x8000)]
    }

    pub fn write_vram(&mut self, addr: usize, byte: u8)
        requires
            old(self)@.wf(),
            0x8000 <= addr < 0xA000,
        ensures
            final(self)@ == old(self)@.write_vram(addr as int, byte),
    {
        let i = (self.vbk as usize) * 0x2000 + (addr - 0x8000);
        self.vram.set(i, byte);
    }

    pub fn read_oam(&self, addr: usize) -> (r: u8)
        requires
            self@.wf(),
            0xFE00 <= addr < 0xFEA0,
        ensures
            r == self@.read_oam(addr as int),
    {
        self.oam[addr - 0xFE00]
    }

    pub fn write_oam(&mut self, addr: usize, byte: u8)
        requires
            old(self)@.wf(),
            0xFE00 <= addr < 0xFEA0,
        ensures
            final(self)@ == old(self)@.write_oam(addr as int, byte),
    {
        self.oam.set(addr - 0xFE00, byte);
    }

    pub fn read_io(&self, addr: usize) -> (r: u8)
        requires
            self@.wf(),
            0xFF40 <= addr < 0xFF70,
        ensures
            r == self@.read_io(addr as int),
    {
        if addr == 0xFF40 {
            self.lcd.lcdc
        } else if addr == 0xFF41 {
            0x80 | self.lcd.stat | (if self.lcd.ly == self.lcd.lyc { 4u8 } else { 0u8 })
                | self.lcd.mode_exec()
        } else if addr == 0xFF44 {
            self.lcd.ly
        } else if addr == 0xFF45 {
            self.lcd.lyc
        } else if addr == 0xFF4F {
            0xFE | self.vbk
        } else {
            self.regs[addr - 0xFF40]
        }
    }

    pub fn write_io(&mut self, addr: usize, byte: u8)
        requires
            old(self)@.wf(),
            0xFF40 <= addr < 0xFF70,
        ensures
            final(self)@ == old(self)@.write_io(addr as int, byte),
            final(self)@.wf(),
    {
        proof {
            assert(byte & 1 <= 1) by (bit_vector);
        }
        if addr == 0xFF40 {
            self.lcd.lcdc = byte;
            if byte & 0x80 == 0 {
                self.lcd.ly = 0;
                self.lcd.dot = 0;
            }
        } else if addr == 0xFF41 {
            self.lcd.stat = byte & 0x78;
        } else if addr == 0xFF44 {
        } else if addr == 0xFF45 {
            self.lcd.lyc = byte;
        } else if addr == 0xFF4F {
            self.vbk = byte & 1;
        } else {
            self.regs.set(addr - 0xFF40, byte);
        }
    }

    /// Latches the OAM DMA page written to 0xFF46.
    pub fn write_dma(&mut self, byte: u8)
        requires
            old(self)@.wf(),
        ensures
            final(self)@ == (PpuView { regs: old(self)@.regs.update(6, byte), ..old(self)@ }),
    {
        self.regs.set(6, byte);
    }

    /// Runs the LCD timing for `t_cycles` dots; a VBlank makes a frame ready.
    pub fn step(&mut self, t_cycles: u32)
        ensures
            final(self)@ == old(self)@.stepped(t_cycles),
    {
        self.lcd.hblank = false;
        self.lcd.vblank = false;
        self.lcd.stat_irq = false;
        let ghost start = self.lcd;
        let mut i: u32 = 0;
        while i < t_cycles
            invariant
                i <= t_cycles,
                start == (LcdTiming { hblank: false, vblank: false, stat_irq: false, ..old(self).lcd }),
                self.lcd == start.dots(i as nat),
                self.vram == old(self).vram,
                self.oam == old(self).oam,
                self.regs == old(self).regs,
                self.vbk == old(self).vbk,
                self.frame == old(self).frame,
                self.frame_ready == old(self).frame_ready,
            decreases t_cycles - i,
        {
            self.lcd.dot_step_exec();
            i = i + 1;
        }
        if self.lcd.vblank {
            self.frame_ready = true;
        }
    }

    pub fn entered_vblank(&self) -> (r: bool)
        ensures
            r == self@.lcd.vblank,
    {
        self.lcd.vblank
    }

    pub fn entered_hblank(&self) -> (r: bool)
        ensures
            r == self@.lcd.hblank,
    {
        self.lcd.hblank
    }

    pub fn stat_triggered(&self) -> (r: bool)
        ensures
            r == self@.lcd.stat_irq,
    {
        self.lcd.stat_irq
    }

    /// Hands out the frame buffer once per completed frame.
    pub fn get_display_output(&mut self) -> (r: Option<Vec<u8>>)
        ensures
            old(self)@.frame_ready ==> r.is_some() && r.unwrap()@ == old(self)@.frame,
            !old(self)@.frame_ready ==> r.is_none(),
            final(self)@ == (PpuView { frame_ready: false, ..old(self)@ }),
    {
        if self.frame_ready {
            self.frame_ready = false;
            Some(self.frame.clone())
        } else {
            None
        }
    }
}

} // verus!

use vstd::prelude::*;
use crate::apu::{Apu, ApuView};
use crate::cartridge::{Cartridge, CartridgeView};
use crate::cpu::{interrupt_bit, GBModel, Interrupt};
use crate::joypad::Joypad;
use crate::ppu::{LcdTiming, Ppu, PpuView};
use crate::timer::Timer;

verus! {

/// Bytes in one bank of work RAM.
pub const WRAM_BANK_SIZE: usize = 0x1000;
/// M-cycles (and bytes) of one OAM DMA transfer.
pub const DMA_M_CYCLES: u16 = 160;
/// Bytes in one HDMA block.
pub const HDMA_BLOCK_SIZE: usize = 0x10;
/// T-cycles charged for each HDMA block.
pub const HDMA_BLOCK_CYCLES: u32 = 32;

/// The state of the CGB VRAM DMA engine.
#[derive(Clone, Copy, PartialEq, Eq, Structural, Debug)]
pub enum HdmaMode {
    Idle,
    GeneralPurpose,
    HBlankPaced,
}

/// The system bus: it owns every peripheral, routes the CPU's reads and writes,
/// runs the OAM DMA and HDMA engines, and collects interrupt requests.
pub struct Bus {
    model: GBModel,
    double_speed: bool,
    serial_output: String,
    cartridge: Cartridge,
    joypad: Joypad,
    apu: Apu,
    ppu: Ppu,
    wram: Vec<u8>,
    timer: Timer,
    hram: Vec<u8>,
    interrupt_enable: u8,
    interrupt_flag: u8,
    dma_start: u16,
    dma_ticks: u16,
    key1: u8,
    hdma1: u8,
    hdma2: u8,
    hdma3: u8,
    hdma4: u8,
    hdma5: u8,
    rp: u8,
    svbk: u8,
    hdma_bytes: usize,
    hdma_mode: HdmaMode,
    hdma_length: u8,
    hdma_cycles: u32,
}

/// The bus as a mathematical value. `wram` holds the eight 4 KiB banks one after
/// another; `hdma_cycles` is the cost of a general-purpose transfer not yet charged
/// to the peripherals.
pub ghost struct BusView {
    pub model: GBModel,
    pub double_speed: bool,
    pub serial: Seq<char>,
    pub cart: CartridgeView,
    pub joypad: Joypad,
    pub apu: ApuView,
    pub ppu: PpuView,
    pub wram: Seq<u8>,
    pub timer: Timer,
    pub hram: Seq<u8>,
    pub ie: u8,
    pub iflag: u8,
    pub dma_start: u16,
    pub dma_ticks: u16,
    pub key1: u8,
    pub hdma1: u8,
    pub hdma2: u8,
    pub hdma3: u8,
    pub hdma4: u8,
    pub hdma5: u8,
    pub rp: u8,
    pub svbk: u8,
    pub hdma_bytes: usize,
    pub hdma_mode: HdmaMode,
    pub hdma_length: u8,
    pub hdma_cycles: u32,
}

impl View for Bus {
    type V = BusView;

    closed spec fn view(&self) -> BusView {
        BusView {
            model: self.model,
            double_speed: self.double_speed,
            serial: self.serial_output@,
            cart: self.cartridge@,
            joypad: self.joypad,
            apu: self.apu@,
            ppu: self.ppu@,
            wram: self.wram@,
            timer: self.timer,
            hram: self.hram@,
            ie: self.interrupt_enable,
            iflag: self.interrupt_flag,
            dma_start: self.dma_start,
            dma_ticks: self.dma_ticks,
            key1: self.key1,
            hdma1: self.hdma1,
            hdma2: self.hdma2,
            hdma3: self.hdma3,
            hdma4: self.hdma4,
            hdma5: self.hdma5,
            rp: self.rp,
            svbk: self.svbk,
            hdma_bytes: self.hdma_bytes,
            hdma_mode: self.hdma_mode,
            hdma_length: self.hdma_length,
            hdma_cycles: self.hdma_cycles,
        }
    }
}

impl BusView {
    pub open spec fn is_cgb(self) -> bool {
        self.model == GBModel::CGB
    }

    /// Blocks of the current VRAM DMA transfer, from HDMA5.
    pub open spec fn transfer_blocks(self) -> int {
        (self.hdma5 & 0x7F) as int + 1
    }

    /// The memory regions have their sizes and IF keeps its top bits.
    pub open spec fn wf_mem(self) -> bool {
        &&& self.ppu.wf()
        &&& self.apu.wf()
        &&& self.wram.len() == 0x8000
        &&& self.hram.len() == 0x7F
        &&& self.iflag & 0xE0 == 0xE0
        &&& self.dma_ticks <= DMA_M_CYCLES
    }

    /// The bus invariant: besides `wf_mem`, the HDMA byte count stays a whole number
    /// of blocks within the transfer, only a CGB runs an HBlank transfer, and while
    /// one runs HDMA5's low bits count the blocks still to come, less one.
    pub open spec fn wf(self) -> bool {
        &&& self.wf_mem()
        &&& self.hdma_bytes % 16 == 0
        &&& self.hdma_bytes <= 0x800
        &&& self.hdma_mode == HdmaMode::HBlankPaced ==> {
            &&& self.is_cgb()
            &&& self.hdma_bytes < self.transfer_blocks() * 16
            &&& self.hdma_length as int == self.transfer_blocks() - 1 - self.hdma_bytes / 16
        }
    }

    /// The work-RAM bank mapped at 0xD000-0xDFFF: 1 on DMG; on CGB the low three
    /// bits of SVBK, with 0 read as 1.
    pub open spec fn wram_bank(self) -> int {
        if self.is_cgb() && self.svbk & 7 != 0 {
            (self.svbk & 7) as int
        } else {
            1
        }
    }

    /// Index in `wram` of an address in 0xC000-0xDFFF.
    pub open spec fn wram_index(self, addr: int) -> int {
        if addr < 0xD000 {
            addr - 0xC000
        } else {
            self.wram_bank() * 0x1000 + (addr - 0xD000)
        }
    }

    /// What HDMA5 reads: bit 7 clear while an HBlank transfer runs, then the
    /// remaining-blocks field.
    pub open spec fn hdma5_status(self) -> u8 {
        (if self.hdma_mode == HdmaMode::HBlankPaced { 0u8 } else { 0x80u8 }) | self.hdma_length
    }

    /// The byte the CPU reads at `addr`.
    pub open spec fn read(self, addr: int) -> u8 {
        if addr <= 0x7FFF {
            self.cart.read_rom(addr)
        } else if addr <= 0x9FFF {
            self.ppu.read_vram(addr)
        } else if addr <= 0xBFFF {
            self.cart.read_ram(addr)
        } else if addr <= 0xDFFF {
            self.wram[self.wram_index(addr)]
        } else if addr <= 0xFDFF {
            self.wram[self.wram_index(addr - 0x2000)]
        } else if addr <= 0xFE9F {
            self.ppu.read_oam(addr)
        } else if addr <= 0xFEFF {
            0xFF
        } else if addr == 0xFF00 {
            self.joypad.read_spec()
        } else if 0xFF04 <= addr <= 0xFF07 {
            self.timer.read_spec(addr as usize)
        } else if addr == 0xFF0F {
            self.iflag
        } else if (0xFF10 <= addr <= 0xFF26) || (0xFF30 <= addr <= 0xFF3F) {
            self.apu.read_io(addr)
        } else if 0xFF40 <= addr <= 0xFF4B {
            self.ppu.read_io(addr)
        } else if addr == 0xFF50 {
            self.cart.boot_bank
        } else if self.is_cgb() && addr == 0xFF4D {
            self.key1
        } else if self.is_cgb() && addr == 0xFF4F {
            self.ppu.read_io(addr)
        } else if self.is_cgb() && addr == 0xFF55 {
            self.hdma5_status()
        } else if self.is_cgb() && addr == 0xFF56 {
            self.rp
        } else if self.is_cgb() && 0xFF68 <= addr <= 0xFF6C {
            self.ppu.read_io(addr)
        } else if self.is_cgb() && addr == 0xFF70 {
            self.svbk
        } else if self.is_cgb() && (addr == 0xFF76 || addr == 0xFF77) {
            self.apu.read_io(addr)
        } else if 0xFF80 <= addr <= 0xFFFE {
            self.hram[addr - 0xFF80]
        } else if addr == 0xFFFF {
            self.ie
        } else {
            0xFF
        }
    }
}

impl BusView {
    /// One M-cycle of OAM DMA: byte `i` of the source page goes to OAM.
    pub open spec fn dma_tick(self) -> BusView {
        if self.dma_ticks < DMA_M_CYCLES {
            let i = self.dma_ticks;
            BusView {
                ppu: self.ppu.write_oam(0xFE00 + i, self.read((self.dma_start | i) as int)),
                dma_ticks: (i + 1) as u16,
                ..self
            }
        } else {
            self
        }
    }

    pub open spec fn dma_steps(self, n: nat) -> BusView
        decreases n,
    {
        if n == 0 {
            self
        } else {
            self.dma_tick().dma_steps((n - 1) as nat)
        }
    }

    /// A write to 0xFF46: latch the page, restart the engine and move the first byte.
    pub open spec fn start_dma(self, page: u8) -> BusView {
        BusView {
            ppu: PpuView { regs: self.ppu.regs.update(6, page), ..self.ppu },
            dma_start: ((page as u16) << 8) as u16,
            dma_ticks: 0,
            ..self
        }.dma_steps(1)
    }

    /// HDMA source, from HDMA1 and HDMA2 with the low four bits cleared.
    pub open spec fn hdma_source(self) -> int {
        ((((self.hdma1 as u16) << 8) as u16 | self.hdma2 as u16) & 0xFFF0) as int
    }

    /// HDMA destination in VRAM, from HDMA3 and HDMA4: always in 0x8000-0x9FF0.
    pub open spec fn hdma_dest(self) -> int {
        (0x8000u16 | ((((self.hdma3 as u16) << 8) as u16 | self.hdma4 as u16) & 0x1FF0)) as int
    }

    /// Source and destination of byte `i` of the block that starts at `hdma_bytes`.
    pub open spec fn hdma_src_addr(self, i: int) -> int {
        (self.hdma_source() + self.hdma_bytes + i) % 0x10000
    }

    pub open spec fn hdma_dst_addr(self, i: int) -> int {
        0x8000 + (self.hdma_dest() - 0x8000 + self.hdma_bytes + i) % 0x2000
    }

    /// The first `n` bytes of the current block copied, in order, through the bus.
    pub open spec fn copy_bytes(self, n: nat) -> BusView
        decreases n,
    {
        if n == 0 {
            self
        } else {
            let v = self.copy_bytes((n - 1) as nat);
            BusView {
                ppu: v.ppu.write_vram(
                    self.hdma_dst_addr(n - 1),
                    v.read(self.hdma_src_addr(n - 1)),
                ),
                ..v
            }
        }
    }

    /// One 16-byte block copied, and the byte count advanced.
    pub open spec fn block(self) -> BusView {
        BusView { hdma_bytes: (self.hdma_bytes + 16) as usize, ..self.copy_bytes(16) }
    }

    pub open spec fn blocks(self, k: nat) -> BusView
        decreases k,
    {
        if k == 0 {
            self
        } else {
            self.blocks((k - 1) as nat).block()
        }
    }

    /// A write to HDMA5: cancel an HBlank transfer, run a general-purpose one at
    /// once, or start an HBlank transfer.
    pub open spec fn write_hdma5(self, byte: u8) -> BusView {
        if byte & 0x80 == 0 {
            if self.hdma_mode == HdmaMode::HBlankPaced {
                BusView { hdma_mode: HdmaMode::Idle, ..self }
            } else {
                let n = (byte & 0x7F) as nat + 1;
                let v = BusView {
                    hdma5: byte,
                    hdma_length: byte & 0x7F,
                    hdma_bytes: 0,
                    hdma_mode: HdmaMode::GeneralPurpose,
                    ..self
                }.blocks(n);
                BusView {
                    hdma_mode: HdmaMode::Idle,
                    hdma_length: 0x7F,
                    hdma_cycles: self.hdma_cycles.saturating_add((32 * n) as u32),
                    ..v
                }
            }
        } else {
            BusView {
                hdma5: byte,
                hdma_length: byte & 0x7F,
                hdma_bytes: 0,
                hdma_mode: HdmaMode::HBlankPaced,
                ..self
            }
        }
    }

    /// The state after the CPU writes `byte` at `addr`.
    pub open spec fn write(self, addr: int, byte: u8) -> BusView {
        if addr <= 0x7FFF {
            self
        } else if addr <= 0x9FFF {
            BusView { ppu: self.ppu.write_vram(addr, byte), ..self }
        } else if addr <= 0xBFFF {
            BusView { cart: self.cart.write_ram(addr, byte), ..self }
        } else if addr <= 0xDFFF {
            BusView { wram: self.wram.update(self.wram_index(addr), byte), ..self }
        } else if addr <= 0xFDFF {
            BusView { wram: self.wram.update(self.wram_index(addr - 0x2000), byte), ..self }
        } else if addr <= 0xFE9F {
            BusView { ppu: self.ppu.write_oam(addr, byte), ..self }
        } else if addr <= 0xFEFF {
            self
        } else if addr == 0xFF00 {
            BusView {
                joypad: Joypad { joypad: (byte & 0xF0) | (self.joypad.joypad & 0x0F), ..self.joypad },
                ..self
            }
        } else if addr == 0xFF01 {
            BusView { serial: self.serial.push(byte as char), ..self }
        } else if 0xFF04 <= addr <= 0xFF07 {
            BusView { timer: self.timer.write_spec(addr as usize, byte), ..self }
        } else if addr == 0xFF0F {
            BusView { iflag: 0xE0 | byte, ..self }
        } else if (0xFF10 <= addr <= 0xFF26) || (0xFF30 <= addr <= 0xFF3F) {
            BusView { apu: self.apu.write_io(addr, byte), ..self }
        } else if addr == 0xFF46 {
            self.start_dma(byte)
        } else if 0xFF40 <= addr <= 0xFF4B {
            BusView { ppu: self.ppu.write_io(addr, byte), ..self }
        } else if addr == 0xFF50 {
            BusView { cart: CartridgeView { boot_bank: byte, ..self.cart }, ..self }
        } else if self.is_cgb() && addr == 0xFF4D {
            BusView { key1: (self.key1 & 0x80) | (byte & 0x01), ..self }
        } else if self.is_cgb() && addr == 0xFF4F {
            BusView { ppu: self.ppu.write_io(addr, byte), ..self }
        } else if self.is_cgb() && addr == 0xFF51 {
            BusView { hdma1: byte, ..self }
        } else if self.is_cgb() && addr == 0xFF52 {
            BusView { hdma2: byte, ..self }
        } else if self.is_cgb() && addr == 0xFF53 {
            BusView { hdma3: byte, ..self }
        } else if self.is_cgb() && addr == 0xFF54 {
            BusView { hdma4: byte, ..self }
        } else if self.is_cgb() && addr == 0xFF55 {
            self.write_hdma5(byte)
        } else if self.is_cgb() && addr == 0xFF56 {
            BusView { rp: byte & 0xFD, ..self }
        } else if self.is_cgb() && 0xFF68 <= addr <= 0xFF6C {
            BusView { ppu: self.ppu.write_io(addr, byte), ..self }
        } else if self.is_cgb() && addr == 0xFF70 {
            BusView { svbk: byte, ..self }
        } else if 0xFF80 <= addr <= 0xFFFE {
            BusView { hram: self.hram.update(addr - 0xFF80, byte), ..self }
        } else if addr == 0xFFFF {
            BusView { ie: byte, ..self }
        } else {
            self
        }
    }
}

pub proof fn lemma_dma_idle(v: BusView, n: nat)
    requires
        v.dma_ticks >= DMA_M_CYCLES,
    ensures
        v.dma_steps(n) == v,
    decreases n,
{
    if n > 0 {
        lemma_dma_idle(v, (n - 1) as nat);
    }
}

pub proof fn lemma_or_keeps_top(x: u8, y: u8)
    requires
        x & 0xE0 == 0xE0,
    ensures
        (x | y) & 0xE0 == 0xE0,
        (0xE0u8 | y) & 0xE0 == 0xE0,
{
    assert((x | y) & 0xE0 == 0xE0) by (bit_vector)
        requires
            x & 0xE0 == 0xE0,
    ;
    assert((0xE0u8 | y) & 0xE0 == 0xE0) by (bit_vector);
}

impl Bus {
    pub fn new(cartridge: Cartridge, model: GBModel) -> (b: Bus)
        ensures
            b@.wf(),
            b@.model == model,
            !b@.double_speed,
            b@.serial.len() == 0,
            b@.cart == cartridge@,
            b@.wram == Seq::new(0x8000, |i: int| 0u8),
            b@.hram == Seq::new(0x7F, |i: int| 0u8),
            b@.ie == 0,
            b@.iflag == 0xE0,
            b@.dma_ticks == DMA_M_CYCLES,
            b@.key1 == 0,
            b@.svbk == 0,
            b@.hdma_mode == HdmaMode::Idle,
            b@.hdma_length == 0x7F,
            b@.hdma_cycles == 0,
            b@.timer == Timer::new_spec(),
            b@.ppu.vram == Seq::new(0x4000, |i: int| 0u8),
            b@.ppu.oam == Seq::new(0xA0, |i: int| 0u8),
            b@.ppu.regs == Seq::new(0x30, |i: int| 0u8),
            b@.ppu.vbk == 0,
            b@.ppu.lcd == (LcdTiming {
                lcdc: 0,
                stat: 0,
                ly: 0,
                lyc: 0,
                dot: 0,
                line: false,
                hblank: false,
                vblank: false,
                stat_irq: false,
            }),
            !b@.ppu.frame_ready,
            b@.apu.regs == Seq::new(0x30, |i: int| 0u8),
            b@.apu.frame_sequencer == 0,
            b@.apu.clock == 0,
            b@.rp == 0,
            b@.hdma1 == 0,
            b@.hdma2 == 0,
            b@.hdma3 == 0,
            b@.hdma4 == 0,
            b@.hdma5 == 0xFF,
            b@.hdma_bytes == 0,
            b@.dma_start == 0,
            b@.joypad == (Joypad { joypad: 0, keys: 0xFF, irq: false }),
    {
        let wram = vec![0u8; 0x8000];
        let hram = vec![0u8; 0x7F];
        proof {
            assert(wram@ =~= Seq::new(0x8000, |i: int| 0u8));
            assert(hram@ =~= Seq::new(0x7F, |i: int| 0u8));
        }
        let b = Bus {
            model,
            double_speed: false,
            serial_output: String::new(),
            cartridge,
            joypad: Joypad::new(),
            apu: Apu::new(),
            ppu: Ppu::new(),
            wram,
            timer: Timer::new(),
            hram,
            interrupt_enable: 0,
            interrupt_flag: 0xE0,
            dma_start: 0,
            dma_ticks: DMA_M_CYCLES,
            key1: 0,
            hdma1: 0,
            hdma2: 0,
            hdma3: 0,
            hdma4: 0,
            hdma5: 0xFF,
            rp: 0,
            svbk: 0,
            hdma_bytes: 0,
            hdma_mode: HdmaMode::Idle,
            hdma_length: 0x7F,
            hdma_cycles: 0,
        };
        proof {
            assert(0xE0u8 & 0xE0 == 0xE0) by (bit_vector);
        }
        b
    }

    fn is_cgb(&self) -> (r: bool)
        ensures
            r == self@.is_cgb(),
    {
        matches!(self.model, GBModel::CGB)
    }

    fn wram_index(&self, addr: usize) -> (i: usize)
        requires
            0xC000 <= addr <= 0xDFFF,
        ensures
            i == self@.wram_index(addr as int),
            0 <= i < 0x8000,
    {
        if addr < 0xD000 {
            addr - 0xC000
        } else {
            let bank: usize = if self.is_cgb() && self.svbk & 7 != 0 {
                (self.svbk & 7) as usize
            } else {
                1
            };
            proof {
                let s = self.svbk;
                assert(s & 7 <= 7) by (bit_vector);
            }
            bank * WRAM_BANK_SIZE + (addr - 0xD000)
        }
    }

    fn read_wram(&self, addr: usize) -> (r: u8)
        requires
            self@.wf_mem(),
            0xC000 <= addr <= 0xDFFF,
        ensures
            r == self@.wram[self@.wram_index(addr as int)],
    {
        self.wram[self.wram_index(addr)]
    }

    fn write_wram(&mut self, addr: usize, byte: u8)
        requires
            old(self)@.wf_mem(),
            0xC000 <= addr <= 0xDFFF,
        ensures
            final(self)@ == (BusView {
                wram: old(self)@.wram.update(old(self)@.wram_index(addr as int), byte),
                ..old(self)@
            }),
            final(self)@.wf_mem(),
    {
        let i = self.wram_index(addr);
        self.wram.set(i, byte);
    }

    fn read_hdma5(&self) -> (r: u8)
        ensures
            r == self@.hdma5_status(),
    {
        let status: u8 = if matches!(self.hdma_mode, HdmaMode::HBlankPaced) {
            0x00
        } else {
            0x80
        };
        status | self.hdma_length
    }

    /// Returns the byte at `addr`; unused addresses read 0xFF.
    pub fn read_byte(&self, addr: u16) -> (r: u8)
        requires
            self@.wf_mem(),
        ensures
            r == self@.read(addr as int),
    {
        let addr = addr as usize;
        let cgb = self.is_cgb();
        if addr <= 0x7FFF {
            self.cartridge.read_rom(addr)
        } else if addr <= 0x9FFF {
            self.ppu.read_vram(addr)
        } else if addr <= 0xBFFF {
            self.cartridge.read_ram(addr)
        } else if addr <= 0xDFFF {
            self.read_wram(addr)
        } else if addr <= 0xFDFF {
            self.read_wram(addr - 0x2000)
        } else if addr <= 0xFE9F {
            self.ppu.read_oam(addr)
        } else if addr <= 0xFEFF {
            0xFF
        } else if addr == 0xFF00 {
            self.joypad.read_joypad()
        } else if 0xFF04 <= addr && addr <= 0xFF07 {
            self.timer.read_io(addr)
        } else if addr == 0xFF0F {
            self.interrupt_flag
        } else if (0xFF10 <= addr && addr <= 0xFF26) || (0xFF30 <= addr && addr <= 0xFF3F) {
            self.apu.read_io(addr)
        } else if 0xFF40 <= addr && addr <= 0xFF4B {
            self.ppu.read_io(addr)
        } else if addr == 0xFF50 {
            self.cartridge.read_bank()
        } else if cgb && addr == 0xFF4D {
            self.key1
        } else if cgb && addr == 0xFF4F {
            self.ppu.read_io(addr)
        } else if cgb && addr == 0xFF55 {
            self.read_hdma5()
        } else if cgb && addr == 0xFF56 {
            self.rp
        } else if cgb && 0xFF68 <= addr && addr <= 0xFF6C {
            self.ppu.read_io(addr)
        } else if cgb && addr == 0xFF70 {
            self.svbk
        } else if cgb && (addr == 0xFF76 || addr == 0xFF77) {
            self.apu.read_io(addr)
        } else if 0xFF80 <= addr && addr <= 0xFFFE {
            self.hram[addr - 0xFF80]
        } else if addr == 0xFFFF {
            self.interrupt_enable
        } else {
            0xFF
        }
    }
}

/// Relies on `String::push`: the character is appended at the end.
#[verifier::external_body]
pub(crate) fn push_char(s: &mut String, c: char)
    ensures
        final(s)@ == old(s)@.push(c),
{
    s.push(c)
}

impl Bus {
    fn hdma_source_start(&self) -> (r: usize)
        ensures
            r as int == self@.hdma_source(),
    {
        ((((self.hdma1 as u16) << 8) | self.hdma2 as u16) & 0xFFF0) as usize
    }

    fn hdma_dest_start(&self) -> (r: usize)
        ensures
            r as int == self@.hdma_dest(),
            0x8000 <= r <= 0x9FF0,
            r % 16 == 0,
    {
        let x: u16 = ((self.hdma3 as u16) << 8) | self.hdma4 as u16;
        let r: u16 = 0x8000u16 | (x & 0x1FF0);
        proof {
            assert(0x8000 <= r <= 0x9FF0 && r % 16 == 0) by (bit_vector)
                requires
                    r == 0x8000u16 | (x & 0x1FF0),
            ;
        }
        r as usize
    }

    fn hdma_transfer_blocks(&self) -> (r: usize)
        ensures
            r as int == self@.transfer_blocks(),
            1 <= r <= 128,
    {
        let h = self.hdma5;
        proof {
            assert(h & 0x7F <= 0x7F) by (bit_vector);
        }
        (self.hdma5 & 0x7F) as usize + 1
    }

    /// Runs the OAM DMA for up to `m_cycles` M-cycles, one byte each.
    fn step_oam_dma(&mut self, m_cycles: u32)
        requires
            old(self)@.wf_mem(),
        ensures
            final(self)@ == old(self)@.dma_steps(m_cycles as nat),
            final(self)@ == (BusView {
                ppu: final(self)@.ppu,
                dma_ticks: final(self)@.dma_ticks,
                ..old(self)@
            }),
            final(self)@.wf_mem(),
    {
        let mut m = m_cycles;
        while m > 0 && self.dma_ticks < DMA_M_CYCLES
            invariant
                self@.wf_mem(),
                old(self)@.dma_steps(m_cycles as nat) == self@.dma_steps(m as nat),
                self@ == (BusView { ppu: self@.ppu, dma_ticks: self@.dma_ticks, ..old(self)@ }),
            decreases m,
        {
            let i = self.dma_ticks;
            let byte = self.read_byte(self.dma_start | i);
            self.ppu.write_oam(0xFE00 + i as usize, byte);
            m = m - 1;
            self.dma_ticks = i + 1;
        }
        proof {
            if m > 0 {
                lemma_dma_idle(self@, m as nat);
            }
        }
    }

    /// Latches the OAM DMA page and starts a transfer; the first byte moves at once.
    fn write_dma(&mut self, byte: u8)
        requires
            old(self)@.wf_mem(),
        ensures
            final(self)@ == old(self)@.start_dma(byte),
            final(self)@ == (BusView {
                ppu: final(self)@.ppu,
                dma_start: final(self)@.dma_start,
                dma_ticks: final(self)@.dma_ticks,
                ..old(self)@
            }),
            final(self)@.wf_mem(),
    {
        self.ppu.write_dma(byte);
        self.dma_start = (byte as u16) << 8;
        self.dma_ticks = 0;
        self.step_oam_dma(1);
    }

    /// Copies one 16-byte block towards VRAM; returns its cost in T-cycles.
    fn transfer_block_to_vram(&mut self) -> (t: u32)
        requires
            old(self)@.wf_mem(),
            old(self)@.hdma_bytes + 16 <= 0x800,
        ensures
            final(self)@ == old(self)@.block(),
            final(self)@ == (BusView {
                ppu: final(self)@.ppu,
                hdma_bytes: (old(self)@.hdma_bytes + 16) as usize,
                ..old(self)@
            }),
            final(self)@.wf_mem(),
            t == HDMA_BLOCK_CYCLES,
    {
        let source_start = self.hdma_source_start();
        let dest_start = self.hdma_dest_start();
        let ghost start = self@;
        let mut i: usize = 0;
        while i < HDMA_BLOCK_SIZE
            invariant
                i <= HDMA_BLOCK_SIZE,
                start == old(self)@,
                start.hdma_bytes + 16 <= 0x800,
                source_start as int == start.hdma_source(),
                dest_start as int == start.hdma_dest(),
                0x8000 <= dest_start <= 0x9FF0,
                self@.wf_mem(),
                self@ == start.copy_bytes(i as nat),
                self@ == (BusView { ppu: self@.ppu, ..start }),
            decreases HDMA_BLOCK_SIZE - i,
        {
            let src = (source_start + self.hdma_bytes + i) % 0x10000;
            let byte = self.read_byte(src as u16);
            let dst = 0x8000 + (dest_start - 0x8000 + self.hdma_bytes + i) % 0x2000;
            self.ppu.write_vram(dst, byte);
            i = i + 1;
        }
        self.hdma_bytes = self.hdma_bytes + HDMA_BLOCK_SIZE;
        HDMA_BLOCK_CYCLES
    }

    /// Runs a whole general-purpose transfer; returns its cost in T-cycles.
    fn step_vram_gdma(&mut self) -> (t: u32)
        requires
            old(self)@.wf_mem(),
            old(self)@.hdma_bytes == 0,
        ensures
            final(self)@ == (BusView {
                hdma_mode: HdmaMode::Idle,
                hdma_length: 0x7F,
                ..old(self)@.blocks(old(self)@.transfer_blocks() as nat)
            }),
            final(self)@ == (BusView {
                ppu: final(self)@.ppu,
                hdma_bytes: final(self)@.hdma_bytes,
                hdma_mode: HdmaMode::Idle,
                hdma_length: 0x7F,
                ..old(self)@
            }),
            final(self)@.wf_mem(),
            final(self)@.hdma_bytes == 16 * old(self)@.transfer_blocks(),
            t == 32 * old(self)@.transfer_blocks(),
    {
        let n = self.hdma_transfer_blocks();
        let ghost start = self@;
        let mut t: u32 = 0;
        let mut k: usize = 0;
        while k < n
            invariant
                k <= n <= 128,
                n as int == start.transfer_blocks(),
                start == old(self)@,
                start.hdma_bytes == 0,
                self@.wf_mem(),
                self@ == start.blocks(k as nat),
                self@ == (BusView { ppu: self@.ppu, hdma_bytes: self@.hdma_bytes, ..start }),
                self@.hdma_bytes == 16 * k,
                t == 32 * k,
            decreases n - k,
        {
            t = t + self.transfer_block_to_vram();
            k = k + 1;
        }
        self.hdma_length = 0x7F;
        self.hdma_mode = HdmaMode::Idle;
        t
    }

    /// Writes HDMA5: cancels an HBlank transfer, runs a general-purpose transfer
    /// at once, or starts an HBlank transfer.
    fn write_hdma5(&mut self, byte: u8)
        requires
            old(self)@.wf(),
            old(self)@.is_cgb(),
        ensures
            final(self)@ == old(self)@.write_hdma5(byte),
            final(self)@.wf(),
    {
        if byte & 0x80 == 0 {
            if matches!(self.hdma_mode, HdmaMode::HBlankPaced) {
                self.hdma_mode = HdmaMode::Idle;
            } else {
                self.hdma5 = byte;
                self.hdma_length = byte & 0x7F;
                self.hdma_bytes = 0;
                self.hdma_mode = HdmaMode::GeneralPurpose;
                proof {
                    assert(byte & 0x7F <= 0x7F) by (bit_vector);
                }
                let t = self.step_vram_gdma();
                self.hdma_cycles = self.hdma_cycles.saturating_add(t);

            }
        } else {
            self.hdma5 = byte;
            self.hdma_length = byte & 0x7F;
            self.hdma_bytes = 0;
            self.hdma_mode = HdmaMode::HBlankPaced;
        }
    }
}

impl Bus {
    /// Writes `byte` at `addr` where the address is writable; 0xFF46 starts an OAM
    /// DMA and 0xFF55 drives the HDMA engine.
    pub fn write_byte(&mut self, addr: u16, byte: u8)
        requires
            old(self)@.wf(),
        ensures
            final(self)@ == old(self)@.write(addr as int, byte),
            final(self)@.wf(),
    {
        let addr = addr as usize;
        let cgb = self.is_cgb();
        proof {
            lemma_or_keeps_top(self.interrupt_flag, byte);
        }
        if addr <= 0x7FFF {
            self.cartridge.write_rom(addr, byte);
        } else if addr <= 0x9FFF {
            self.ppu.write_vram(addr, byte);
        } else if addr <= 0xBFFF {
            self.cartridge.write_ram(addr, byte);
        } else if addr <= 0xDFFF {
            self.write_wram(addr, byte);
        } else if addr <= 0xFDFF {
            self.write_wram(addr - 0x2000, byte);
        } else if addr <= 0xFE9F {
            self.ppu.write_oam(addr, byte);
        } else if addr <= 0xFEFF {
        } else if addr == 0xFF00 {
            self.joypad.write_joypad(byte);
        } else if addr == 0xFF01 {
            push_char(&mut self.serial_output, byte as char);
        } else if 0xFF04 <= addr && addr <= 0xFF07 {
            self.timer.write_io(addr, byte);
        } else if addr == 0xFF0F {
            self.interrupt_flag = 0xE0 | byte;
        } else if (0xFF10 <= addr && addr <= 0xFF26) || (0xFF30 <= addr && addr <= 0xFF3F) {
            self.apu.write_io(addr, byte);
        } else if addr == 0xFF46 {
            self.write_dma(byte);
        } else if 0xFF40 <= addr && addr <= 0xFF4B {
            self.ppu.write_io(addr, byte);
        } else if addr == 0xFF50 {
            self.cartridge.write_bank(byte);
        } else if cgb && addr == 0xFF4D {
            self.key1 = (self.key1 & 0x80) | (byte & 0x01);
        } else if cgb && addr == 0xFF4F {
            self.ppu.write_io(addr, byte);
        } else if cgb && addr == 0xFF51 {
            self.hdma1 = byte;
        } else if cgb && addr == 0xFF52 {
            self.hdma2 = byte;
        } else if cgb && addr == 0xFF53 {
            self.hdma3 = byte;
        } else if cgb && addr == 0xFF54 {
            self.hdma4 = byte;
        } else if cgb && addr == 0xFF55 {
            self.write_hdma5(byte);
        } else if cgb && addr == 0xFF56 {
            self.rp = byte & 0xFD;
        } else if cgb && 0xFF68 <= addr && addr <= 0xFF6C {
            self.ppu.write_io(addr, byte);
        } else if cgb && addr == 0xFF70 {
            self.svbk = byte;
        } else if 0xFF80 <= addr && addr <= 0xFFFE {
            self.hram.set(addr - 0xFF80, byte);
        } else if addr == 0xFFFF {
            self.interrupt_enable = byte;
        }
    }
}

impl BusView {
    /// IF with an interrupt's bit set when `cond` holds.
    pub open spec fn flag_if(iflag: u8, cond: bool, bit: u8) -> u8 {
        if cond {
            iflag | bit
        } else {
            iflag
        }
    }

    /// The DIV bit whose falling edge clocks the APU frame sequencer.
    pub open spec fn sequencer_bit(self) -> u8 {
        if self.double_speed {
            0x20
        } else {
            0x10
        }
    }

    /// After a memory access of `t` T-cycles: OAM DMA advances `t / 4` M-cycles,
    /// the timer runs `t` cycles (an overflow requests the Timer interrupt), and
    /// a falling edge of the sequencer bit of DIV advances the frame sequencer once.
    pub open spec fn partial_tick(self, t: u32) -> BusView {
        let v = self.dma_steps((t / 4) as nat);
        let (timer, overflow) = v.timer.ticks(t as nat);
        let bit = v.sequencer_bit();
        let edge = v.timer.div_spec() & bit != 0 && timer.div_spec() & bit == 0;
        BusView {
            timer,
            iflag: BusView::flag_if(v.iflag, overflow, 0x04),
            apu: if edge {
                v.apu.sequenced()
            } else {
                v.apu
            },
            ..v
        }
    }

    /// The HDMA engine at the end of an instruction: on CGB, an HBlank transfer
    /// moves one block when the PPU has just entered HBlank; the cost in T-cycles
    /// comes back with the new state.
    pub open spec fn hdma_step(self) -> (BusView, u32) {
        if self.is_cgb() && self.hdma_mode == HdmaMode::HBlankPaced && self.ppu.lcd.hblank {
            let v = self.block();
            if v.hdma_bytes == self.transfer_blocks() * 16 {
                (BusView { hdma_mode: HdmaMode::Idle, hdma_length: 0x7F, ..v }, 32)
            } else {
                (BusView { hdma_length: self.hdma_length.wrapping_sub(1), ..v }, 32)
            }
        } else {
            (self, 0)
        }
    }

    /// The T-cycles that APU and PPU run after an instruction of `t` cycles.
    pub open spec fn peripheral_cycles(self, t: u32) -> u32 {
        let base: u32 = if self.double_speed { t / 2 } else { t };
        base.saturating_add(self.hdma_step().1).saturating_add(self.hdma_cycles)
    }

    /// After an instruction of `t` T-cycles: HDMA, then APU and PPU, then the
    /// interrupts that PPU and joypad raised are ORed into IF.
    pub open spec fn post_tick(self, t: u32) -> BusView {
        let v = self.hdma_step().0;
        let cycles = self.peripheral_cycles(t);
        let ppu = v.ppu.stepped(cycles);
        let i1 = BusView::flag_if(v.iflag, ppu.lcd.vblank, 0x01);
        let i2 = BusView::flag_if(i1, ppu.lcd.stat_irq, 0x02);
        let i3 = BusView::flag_if(i2, v.joypad.irq, 0x10);
        BusView {
            apu: v.apu.stepped(cycles),
            ppu,
            iflag: i3,
            joypad: Joypad { irq: false, ..v.joypad },
            hdma_cycles: 0,
            ..v
        }
    }

    /// The speed switch that STOP performs: on CGB with KEY1 armed, disarm it,
    /// toggle bit 7 and the double-speed flag, and clear DIV.
    pub open spec fn speed_switched(self) -> (BusView, bool) {
        if self.is_cgb() && self.key1 & 1 != 0 {
            (
                BusView {
                    key1: (self.key1 ^ 0x80) & 0xFE,
                    double_speed: !self.double_speed,
                    timer: Timer { div: 0, ..self.timer },
                    ..self
                },
                true,
            )
        } else {
            (self, false)
        }
    }
}

impl Bus {
    /// Steps the components that need M-cycle accuracy; called after every memory
    /// access with the T-cycles it took.
    pub fn partial_step(&mut self, t_cycles: u32)
        requires
            old(self)@.wf(),
        ensures
            final(self)@ == old(self)@.partial_tick(t_cycles),
            final(self)@.wf(),
    {
        self.step_oam_dma(t_cycles / 4);
        let old_div = self.timer.read_div();
        let overflow = self.timer.step(t_cycles);
        if overflow {
            self.request_interrupt(Interrupt::Timer);
        }
        let bit: u8 = if self.double_speed { 0x20 } else { 0x10 };
        if old_div & bit != 0 && self.timer.read_div() & bit == 0 {
            self.apu.frame_sequencer_step();
        }
    }

    /// (CGB) Runs the HBlank transfer's block for this instruction; returns its cost.
    fn step_vram_hdma(&mut self) -> (t: u32)
        requires
            old(self)@.wf(),
        ensures
            (final(self)@, t) == old(self)@.hdma_step(),
            final(self)@.wf(),
    {
        if !self.is_cgb() || !matches!(self.hdma_mode, HdmaMode::HBlankPaced)
            || !self.ppu.entered_hblank() {
            return 0;
        }
        let total = self.hdma_transfer_blocks() * HDMA_BLOCK_SIZE;
        let t = self.transfer_block_to_vram();
        if self.hdma_bytes == total {
            self.hdma_mode = HdmaMode::Idle;
            self.hdma_length = 0x7F;
        } else {
            self.hdma_length = self.hdma_length.wrapping_sub(1);
        }
        t
    }

    /// Steps the other components at the end of each instruction and collects
    /// their interrupt requests.
    pub fn step(&mut self, t_cycles: u32)
        requires
            old(self)@.wf(),
        ensures
            final(self)@ == old(self)@.post_tick(t_cycles),
            final(self)@.wf(),
    {
        let mut t = t_cycles;
        if self.double_speed {
            t = t / 2;
        }
        let pending = self.hdma_cycles;
        let hdma = self.step_vram_hdma();
        t = t.saturating_add(hdma).saturating_add(pending);
        self.hdma_cycles = 0;
        self.apu.step(t);
        self.ppu.step(t);
        if self.ppu.entered_vblank() {
            self.request_interrupt(Interrupt::VBlank);
        }
        if self.ppu.stat_triggered() {
            self.request_interrupt(Interrupt::Stat);
        }
        if self.joypad.interrupt_triggered() {
            self.request_interrupt(Interrupt::Joypad);
        }
    }

    /// Sets the interrupt's bit in IF; IF is never cleared here.
    pub fn request_interrupt(&mut self, interrupt: Interrupt)
        requires
            old(self)@.wf(),
        ensures
            final(self)@ == (BusView { iflag: old(self)@.iflag | interrupt_bit(interrupt), ..old(self)@ }),
            final(self)@.wf(),
    {
        proof {
            lemma_or_keeps_top(self.interrupt_flag, interrupt_bit(interrupt));
        }
        match interrupt {
            Interrupt::VBlank => self.interrupt_flag = self.interrupt_flag | 0x01,
            Interrupt::Stat => self.interrupt_flag = self.interrupt_flag | 0x02,
            Interrupt::Timer => self.interrupt_flag = self.interrupt_flag | 0x04,
            Interrupt::Serial => self.interrupt_flag = self.interrupt_flag | 0x08,
            Interrupt::Joypad => self.interrupt_flag = self.interrupt_flag | 0x10,
        }
    }

    /// If the switch is armed (CGB only), disarms it, switches speed, clears DIV
    /// and returns true; otherwise changes nothing and returns false.
    pub fn speed_switch(&mut self) -> (switched: bool)
        requires
            old(self)@.wf(),
        ensures
            (final(self)@, switched) == old(self)@.speed_switched(),
            final(self)@.wf(),
    {
        if self.is_cgb() && self.key1 & 1 != 0 {
            self.key1 = (self.key1 ^ 0x80) & 0xFE;
            self.double_speed = !self.double_speed;
            self.timer.reset_div();
            true
        } else {
            false
        }
    }
}

impl Bus {
    /// The frame buffer, once per completed frame.
    pub fn get_display_output(&mut self) -> (r: Option<Vec<u8>>)
        requires
            old(self)@.wf(),
        ensures
            old(self)@.ppu.frame_ready ==> r.is_some() && r.unwrap()@ == old(self)@.ppu.frame,
            !old(self)@.ppu.frame_ready ==> r.is_none(),
            final(self)@ == (BusView {
                ppu: PpuView { frame_ready: false, ..old(self)@.ppu },
                ..old(self)@
            }),
            final(self)@.wf(),
    {
        self.ppu.get_display_output()
    }

    /// Whether the PPU entered HBlank during the last step.
    pub fn entered_hblank(&self) -> (r: bool)
        ensures
            r == self@.ppu.lcd.hblank,
    {
        self.ppu.entered_hblank()
    }

    /// The APU frame sequencer's current phase (0..=7).
    pub fn frame_sequencer(&self) -> (r: u8)
        ensures
            r == self@.apu.frame_sequencer,
    {
        self.apu.frame_sequencer()
    }

    /// Hands the host's key state to the joypad.
    pub fn update_joypad(&mut self, status: u8)
        requires
            old(self)@.wf(),
        ensures
            final(self)@ == (BusView { joypad: old(self)@.joypad.updated(status), ..old(self)@ }),
            final(self)@.wf(),
    {
        self.joypad.step(status)
    }

    /// Every byte written to 0xFF01 so far, one character each.
    pub fn get_serial_output(&self) -> (r: &str)
        ensures
            r@ == self@.serial,
    {
        self.serial_output.as_str()
    }

    /// The battery-backed RAM, for the host to persist.
    pub fn save_mbc_state(&self) -> (r: Vec<u8>)
        ensures
            r@ == self@.cart.ram,
    {
        self.cartridge.ram_contents()
    }

    /// Restores battery-backed RAM saved earlier; data of another size is refused.
    pub fn load_save(&mut self, data: Vec<u8>) -> (loaded: bool)
        requires
            old(self)@.wf(),
        ensures
            loaded == (data@.len() == old(self)@.cart.ram.len()),
            final(self)@ == (BusView {
                cart: if loaded {
                    CartridgeView { ram: data@, ..old(self)@.cart }
                } else {
                    old(self)@.cart
                },
                ..old(self)@
            }),
            final(self)@.wf(),
    {
        self.cartridge.load_ram(data)
    }

    /// The name under which the cartridge's save is kept: its header title.
    pub fn save_id(&self) -> (r: Option<String>)
        ensures
            r.is_none() <==> self@.cart.rom.len() < crate::cartridge::TITLE_END,
            r.is_some() ==> exists|n: int|
                #![trigger self@.cart.title_prefix(n)]
                self@.cart.is_title_len(n) && r.unwrap()@ == self@.cart.title_prefix(n),
    {
        let r = self.cartridge.save_id();
        assert(self@.cart == self.cartridge@);
        r
    }
}

} // verus!

use vstd::prelude::*;
use crate::bus::push_char;

verus! {

/// A cartridge without a bank controller: ROM mapped at 0x0000-0x7FFF, optional
/// external RAM at 0xA000-0xBFFF, and the boot-bank register (0xFF50).
pub struct Cartridge {
    rom: Vec<u8>,
    ram: Vec<u8>,
    boot_bank: u8,
}

pub ghost struct CartridgeView {
    pub rom: Seq<u8>,
    pub ram: Seq<u8>,
    pub boot_bank: u8,
}

impl View for Cartridge {
    type V = CartridgeView;

    closed spec fn view(&self) -> CartridgeView {
        CartridgeView { rom: self.rom@, ram: self.ram@, boot_bank: self.boot_bank }
    }
}

impl CartridgeView {
    /// A ROM read; bytes past the end of the image read as 0xFF.
    pub open spec fn read_rom(self, addr: int) -> u8 {
        if 0 <= addr < self.rom.len() {
            self.rom[addr]
        } else {
            0xFF
        }
    }

    /// A RAM read at a bus address in 0xA000-0xBFFF; absent RAM reads as 0xFF.
    pub open spec fn read_ram(self, addr: int) -> u8 {
        if 0 <= addr - 0xA000 < self.ram.len() {
            self.ram[addr - 0xA000]
        } else {
            0xFF
        }
    }

    pub open spec fn write_ram(self, addr: int, byte: u8) -> CartridgeView {
        if 0 <= addr - 0xA000 < self.ram.len() {
            CartridgeView { ram: self.ram.update(addr - 0xA000, byte), ..self }
        } else {
            self
        }
    }
}

/// First and one-past-last address of the title in the cartridge header.
pub const TITLE_START: usize = 0x134;
pub const TITLE_END: usize = 0x144;

impl CartridgeView {
    /// The first `n` title bytes of the header, as characters.
    pub open spec fn title_prefix(self, n: int) -> Seq<char> {
        self.rom.subrange(TITLE_START as int, TITLE_START as int + n).map_values(|b: u8| b as char)
    }

    /// `n` is the title's length: its bytes are not zero, and a zero or the end of
    /// the 16-byte field follows.
    pub open spec fn is_title_len(self, n: int) -> bool {
        &&& 0 <= n <= 16
        &&& forall|j: int| TITLE_START <= j < TITLE_START + n ==> self.rom[j] != 0
        &&& n < 16 ==> self.rom[TITLE_START + n] == 0
    }
}

/// Header byte that gives the size of the external RAM.
pub const RAM_SIZE_ADDR: usize = 0x149;
/// Header byte whose bit 7 marks a CGB cartridge.
pub const CGB_FLAG_ADDR: usize = 0x143;

/// Bytes of external RAM for a header RAM-size code; unknown codes give none.
pub open spec fn ram_size_of(code: u8) -> usize {
    if code == 1 {
        0x800
    } else if code == 2 {
        0x2000
    } else if code == 3 {
        0x8000
    } else if code == 4 {
        0x20000
    } else if code == 5 {
        0x10000
    } else {
        0
    }
}

/// What a bank controller offers the bus: the ROM area (0x0000-0x7FFF) and the
/// external RAM area (0xA000-0xBFFF).
pub trait Mbc {
    /// Handles bus reads from 0x0000 to 0x7FFF.
    fn read_rom(&self, addr: usize) -> u8;

    /// Handles bus writes from 0x0000 to 0x7FFF.
    fn write_rom(&mut self, addr: usize, byte: u8);

    /// Handles bus reads from 0xA000 to 0xBFFF.
    fn read_ram(&self, addr: usize) -> u8
        requires
            0xA000 <= addr < 0xC000,
    ;

    /// Handles bus writes from 0xA000 to 0xBFFF.
    fn write_ram(&mut self, addr: usize, byte: u8)
        requires
            0xA000 <= addr < 0xC000,
    ;
}

impl Mbc for Cartridge {
    fn read_rom(&self, addr: usize) -> u8 {
        Cartridge::read_rom(self, addr)
    }

    fn write_rom(&mut self, addr: usize, byte: u8) {
        Cartridge::write_rom(self, addr, byte)
    }

    fn read_ram(&self, addr: usize) -> u8 {
        Cartridge::read_ram(self, addr)
    }

    fn write_ram(&mut self, addr: usize, byte: u8) {
        Cartridge::write_ram(self, addr, byte)
    }
}

impl Cartridge {
    /// Bytes of external RAM for a header RAM-size code.
    pub fn ram_size(code: u8) -> (r: usize)
        ensures
            r == ram_size_of(code),
    {
        if code == 1 {
            0x800
        } else if code == 2 {
            0x2000
        } else if code == 3 {
            0x8000
        } else if code == 4 {
            0x20000
        } else if code == 5 {
            0x10000
        } else {
            0
        }
    }

    /// A cartridge for a ROM image, with the external RAM its header asks for
    /// (none when the image is too short to hold that byte).
    pub fn from_rom(rom: Vec<u8>) -> (c: Cartridge)
        ensures
            c@.rom == rom@,
            c@.ram.len() == (if rom@.len() > RAM_SIZE_ADDR { ram_size_of(rom@[RAM_SIZE_ADDR as int]) } else { 0 }),
            c@.boot_bank == 0,
    {
        let size = if rom.len() > RAM_SIZE_ADDR {
            Cartridge::ram_size(rom[RAM_SIZE_ADDR])
        } else {
            0
        };
        Cartridge::new(rom, size)
    }

    /// Whether the header marks the cartridge as made for the CGB.
    pub fn is_cgb_cartridge(&self) -> (r: bool)
        ensures
            r == (self@.rom.len() > CGB_FLAG_ADDR && self@.rom[CGB_FLAG_ADDR as int] & 0x80 != 0),
    {
        self.rom.len() > CGB_FLAG_ADDR && self.rom[CGB_FLAG_ADDR] & 0x80 != 0
    }

    /// A cartridge holding `rom`, with `ram_size` bytes of zeroed external RAM.
    pub fn new(rom: Vec<u8>, ram_size: usize) -> (c: Cartridge)
        ensures
            c@.rom == rom@,
            c@.ram == Seq::new(ram_size as nat, |i: int| 0u8),
            c@.boot_bank == 0,
    {
        let ram = vec![0u8; ram_size];
        proof {
            assert(ram@ =~= Seq::new(ram_size as nat, |i: int| 0u8));
        }
        Cartridge { rom, ram, boot_bank: 0 }
    }

    pub fn read_rom(&self, addr: usize) -> (r: u8)
        ensures
            r == self@.read_rom(addr as int),
    {
        if addr < self.rom.len() {
            self.rom[addr]
        } else {
            0xFF
        }
    }

    /// Without a bank controller, writes to the ROM area select nothing.
    pub fn write_rom(&mut self, addr: usize, byte: u8)
        ensures
            final(self)@ == old(self)@,
    {
    }

    pub fn read_ram(&self, addr: usize) -> (r: u8)
        requires
            0xA000 <= addr < 0xC000,
        ensures
            r == self@.read_ram(addr as int),
    {
        let i = addr - 0xA000;
        if i < self.ram.len() {
            self.ram[i]
        } else {
            0xFF
        }
    }

    pub fn write_ram(&mut self, addr: usize, byte: u8)
        requires
            0xA000 <= addr < 0xC000,
        ensures
            final(self)@ == old(self)@.write_ram(addr as int, byte),
    {
        let i = addr - 0xA000;
        if i < self.ram.len() {
            self.ram.set(i, byte);
        }
    }

    pub fn read_bank(&self) -> (r: u8)
        ensures
            r == self@.boot_bank,
    {
        self.boot_bank
    }

    pub fn write_bank(&mut self, byte: u8)
        ensures
            final(self)@ == (CartridgeView { boot_bank: byte, ..old(self)@ }),
    {
        self.boot_bank = byte;
    }

    /// A copy of the external RAM, for battery-backed saves.
    pub fn ram_contents(&self) -> (r: Vec<u8>)
        ensures
            r@ == self@.ram,
    {
        self.ram.clone()
    }

    /// The header title that names this cartridge's save: the bytes from 0x134 up
    /// to the first zero, at most 16 of them; `None` when the ROM has no header.
    pub fn save_id(&self) -> (r: Option<String>)
        ensures
            r.is_none() <==> self@.rom.len() < TITLE_END,
            r.is_some() ==> exists|n: int|
                #![trigger self@.title_prefix(n)]
                self@.is_title_len(n) && r.unwrap()@ == self@.title_prefix(n),
    {
        if self.rom.len() < TITLE_END {
            return None;
        }
        let mut s = String::new();
        let mut i: usize = TITLE_START;
        while i < TITLE_END && self.rom[i] != 0
            invariant
                TITLE_START <= i <= TITLE_END,
                self.rom@.len() >= TITLE_END,
                forall|j: int| TITLE_START <= j < i ==> self.rom@[j] != 0,
                s@ == self@.title_prefix(i - TITLE_START),
            decreases TITLE_END - i,
        {
            proof {
                assert(self@.title_prefix(i - TITLE_START + 1) =~= self@.title_prefix(i - TITLE_START).push(self.rom@[i as int] as char));
            }
            push_char(&mut s, self.rom[i] as char);
            i = i + 1;
        }
        assert(self@.is_title_len(i - TITLE_START));
        Some(s)
    }

    /// Replaces the external RAM with `data` when the sizes agree; returns whether it did.
    pub fn load_ram(&mut self, data: Vec<u8>) -> (loaded: bool)
        ensures
            loaded == (data@.len() == old(self)@.ram.len()),
            final(self)@ == (if loaded {
                CartridgeView { ram: data@, ..old(self)@ }
            } else {
                old(self)@
            }),
    {
        if data.len() == self.ram.len() {
            self.ram = data;
            true
        } else {
            false
        }
    }
}

} // verus!

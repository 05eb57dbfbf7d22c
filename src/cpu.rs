use vstd::prelude::*;
use crate::bus::{Bus, BusView};
use crate::cartridge::Cartridge;

verus! {

/// The console model; fixed when the bus is built.
#[derive(Clone, Copy, PartialEq, Eq, Structural, Debug)]
pub enum GBModel {
    DMG,
    CGB,
}

/// The five interrupt sources, in priority order.
#[derive(Clone, Copy, PartialEq, Eq, Structural, Debug)]
pub enum Interrupt {
    VBlank,
    Stat,
    Timer,
    Serial,
    Joypad,
}

/// The bit of IF and IE that belongs to an interrupt.
pub open spec fn interrupt_bit(i: Interrupt) -> u8 {
    match i {
        Interrupt::VBlank => 0x01,
        Interrupt::Stat => 0x02,
        Interrupt::Timer => 0x04,
        Interrupt::Serial => 0x08,
        Interrupt::Joypad => 0x10,
    }
}

/// The highest-priority interrupt that is both enabled and requested.
pub open spec fn pending_spec(ie: u8, iflag: u8) -> Option<Interrupt> {
    let p = ie & iflag;
    if p & 0x01 != 0 {
        Some(Interrupt::VBlank)
    } else if p & 0x02 != 0 {
        Some(Interrupt::Stat)
    } else if p & 0x04 != 0 {
        Some(Interrupt::Timer)
    } else if p & 0x08 != 0 {
        Some(Interrupt::Serial)
    } else if p & 0x10 != 0 {
        Some(Interrupt::Joypad)
    } else {
        None
    }
}

/// The address the CPU jumps to when it services an interrupt.
pub open spec fn interrupt_vector(i: Interrupt) -> u16 {
    match i {
        Interrupt::VBlank => 0x40,
        Interrupt::Stat => 0x48,
        Interrupt::Timer => 0x50,
        Interrupt::Serial => 0x58,
        Interrupt::Joypad => 0x60,
    }
}

/// M-cycles an opcode takes, its fetches included.
pub open spec fn instr_cycles(op: u8) -> u8 {
    if op == 0x10 || op == 0x3E {
        2
    } else if op == 0xE0 || op == 0xF0 || op == 0x18 {
        3
    } else if op == 0xEA || op == 0xFA || op == 0xC3 || op == 0xD9 {
        4
    } else {
        1
    }
}

/// Bytes an opcode occupies.
pub open spec fn instr_len(op: u8) -> int {
    if op == 0x10 || op == 0x3E || op == 0xE0 || op == 0xF0 || op == 0x18 {
        2
    } else if op == 0xEA || op == 0xFA || op == 0xC3 {
        3
    } else {
        1
    }
}

/// Opcodes that load PC from their operand or the stack.
pub open spec fn is_jump(op: u8) -> bool {
    op == 0xC3 || op == 0x18 || op == 0xD9
}

fn is_jump_exec(op: u8) -> (r: bool)
    ensures
        r == is_jump(op),
{
    op == 0xC3 || op == 0x18 || op == 0xD9
}

/// The CPU: registers, interrupt master enable and HALT state, driving the bus.
///
/// Every memory access costs one M-cycle and is followed by a partial step of the
/// bus; `cycles_so_far` counts the M-cycles already charged that way during the
/// current instruction. It executes the loads, jumps and control instructions
/// that move data over the bus; any other opcode is taken as a one-cycle no-op.
pub struct Cpu {
    pub bus: Bus,
    pub scheduled_ei: bool,
    pub ime: bool,
    pub halted: bool,
    pub halt_bug: bool,
    pub halt_triggered: bool,
    pub cycles_so_far: u8,
    pub af: u16,
    pub bc: u16,
    pub de: u16,
    pub hl: u16,
    pub pc: u16,
    pub sp: u16,
}

impl Cpu {
    pub open spec fn inv(self) -> bool {
        self.bus@.wf()
    }

    /// Every register and flag but PC is as in `other`.
    pub open spec fn same_but_pc(self, other: Cpu) -> bool {
        &&& self.scheduled_ei == other.scheduled_ei
        &&& self.ime == other.ime
        &&& self.halted == other.halted
        &&& self.halt_bug == other.halt_bug
        &&& self.halt_triggered == other.halt_triggered
        &&& self.af == other.af
        &&& self.bc == other.bc
        &&& self.de == other.de
        &&& self.hl == other.hl
        &&& self.sp == other.sp
    }

    /// Every register and flag is as in `other`.
    pub open spec fn same_registers(self, other: Cpu) -> bool {
        self.same_but_pc(other) && self.pc == other.pc
    }

    /// A CPU in the state the boot ROM leaves behind: LCD on, PC at 0x0100.
    pub fn new(cartridge: Cartridge, model: GBModel) -> (c: Cpu)
        ensures
            c.inv(),
            c.bus@.model == model,
            c.bus@.cart == cartridge@,
            c.pc == 0x0100,
            c.sp == 0xFFFE,
            c.af == 0x01B0,
            c.bc == 0x0013,
            c.de == 0x00D8,
            c.hl == 0x014D,
            !c.ime,
            !c.halted,
            !c.scheduled_ei,
            !c.halt_bug,
            !c.halt_triggered,
            c.cycles_so_far == 0,
            c.bus@.read(0xFF40) == 0x91,
            c.bus@.ppu.lcd.stat == 0x81u8 & 0x78,
    {
        let mut bus = Bus::new(cartridge, model);
        bus.write_byte(0xFF40, 0x91);
        bus.write_byte(0xFF41, 0x81);
        Cpu {
            bus,
            scheduled_ei: false,
            ime: false,
            halted: false,
            halt_bug: false,
            halt_triggered: false,
            cycles_so_far: 0,
            af: 0x01B0,
            bc: 0x0013,
            de: 0x00D8,
            hl: 0x014D,
            pc: 0x0100,
            sp: 0xFFFE,
        }
    }

    /// One M-cycle with no memory access.
    fn idle_cycle(&mut self)
        requires
            old(self).inv(),
            old(self).cycles_so_far < 200,
        ensures
            final(self).inv(),
            final(self).cycles_so_far == old(self).cycles_so_far + 1,
            final(self).same_registers(*old(self)),
    {
        self.bus.partial_step(4);
        self.cycles_so_far = self.cycles_so_far + 1;
    }

    /// Reads a byte in one M-cycle.
    fn read_cycle(&mut self, addr: u16) -> (r: u8)
        requires
            old(self).inv(),
            old(self).cycles_so_far < 200,
        ensures
            r == old(self).bus@.read(addr as int),
            final(self).inv(),
            final(self).bus@ == old(self).bus@.partial_tick(4),
            final(self).cycles_so_far == old(self).cycles_so_far + 1,
            final(self).same_registers(*old(self)),
    {
        let r = self.bus.read_byte(addr);
        self.bus.partial_step(4);
        self.cycles_so_far = self.cycles_so_far + 1;
        r
    }

    /// Writes a byte in one M-cycle.
    fn write_cycle(&mut self, addr: u16, byte: u8)
        requires
            old(self).inv(),
            old(self).cycles_so_far < 200,
        ensures
            final(self).inv(),
            final(self).bus@ == old(self).bus@.write(addr as int, byte).partial_tick(4),
            final(self).cycles_so_far == old(self).cycles_so_far + 1,
            final(self).same_registers(*old(self)),
    {
        self.bus.write_byte(addr, byte);
        self.bus.partial_step(4);
        self.cycles_so_far = self.cycles_so_far + 1;
    }

    /// Reads the byte at PC and advances PC.
    fn fetch(&mut self) -> (r: u8)
        requires
            old(self).inv(),
            old(self).cycles_so_far < 200,
        ensures
            r == old(self).bus@.read(old(self).pc as int),
            final(self).inv(),
            final(self).cycles_so_far == old(self).cycles_so_far + 1,
            final(self).pc == old(self).pc.wrapping_add(1),
            final(self).same_but_pc(*old(self)),
    {
        let r = self.read_cycle(self.pc);
        self.pc = self.pc.wrapping_add(1);
        r
    }

    fn fetch_word(&mut self) -> (r: u16)
        requires
            old(self).inv(),
            old(self).cycles_so_far < 100,
        ensures
            final(self).inv(),
            final(self).cycles_so_far == old(self).cycles_so_far + 2,
            final(self).pc as int == (old(self).pc as int + 2) % 0x10000,
            final(self).same_but_pc(*old(self)),
    {
        let lo = self.fetch() as u16;
        let hi = self.fetch() as u16;
        (hi << 8) | lo
    }

    fn set_a(&mut self, a: u8)
        ensures
            final(self).af == (((a as u16) << 8) as u16 | (old(self).af & 0xFF)),
            final(self).bus == old(self).bus,
            final(self).cycles_so_far == old(self).cycles_so_far,
            final(self).same_registers(Cpu { af: final(self).af, ..*old(self) }),
    {
        self.af = ((a as u16) << 8) | (self.af & 0xFF);
    }

    /// Returns the next pending interrupt by priority.
    fn get_pending_interrupt(&self) -> (r: Option<Interrupt>)
        requires
            self.inv(),
        ensures
            r == pending_spec(self.bus@.ie, self.bus@.iflag),
    {
        let interrupt_enable: u8 = self.bus.read_byte(0xFFFF);
        let interrupt_flag: u8 = self.bus.read_byte(0xFF0F);
        let p = interrupt_enable & interrupt_flag;
        if p & 0x01 != 0 {
            Some(Interrupt::VBlank)
        } else if p & 0x02 != 0 {
            Some(Interrupt::Stat)
        } else if p & 0x04 != 0 {
            Some(Interrupt::Timer)
        } else if p & 0x08 != 0 {
            Some(Interrupt::Serial)
        } else if p & 0x10 != 0 {
            Some(Interrupt::Joypad)
        } else {
            None
        }
    }

    /// Services an interrupt: clears its IF bit, pushes PC and jumps to its vector.
    fn handle_interrupt(&mut self, interrupt: Interrupt) -> (cycles: u8)
        requires
            old(self).inv(),
            old(self).cycles_so_far < 100,
        ensures
            final(self).inv(),
            final(self).pc == interrupt_vector(interrupt),
            final(self).sp == old(self).sp.wrapping_sub(2),
            final(self).cycles_so_far == old(self).cycles_so_far + 5,
            final(self).halted == old(self).halted,
            final(self).scheduled_ei == old(self).scheduled_ei,
            final(self).ime == old(self).ime,
            final(self).halt_bug == old(self).halt_bug,
            cycles == 5,
    {
        let (bit, vector): (u8, u16) = match interrupt {
            Interrupt::VBlank => (0x01, 0x40),
            Interrupt::Stat => (0x02, 0x48),
            Interrupt::Timer => (0x04, 0x50),
            Interrupt::Serial => (0x08, 0x58),
            Interrupt::Joypad => (0x10, 0x60),
        };
        let iflag = self.bus.read_byte(0xFF0F);
        self.bus.write_byte(0xFF0F, iflag & !bit);
        self.idle_cycle();
        self.idle_cycle();
        self.sp = self.sp.wrapping_sub(1);
        self.write_cycle(self.sp, (self.pc >> 8) as u8);
        self.sp = self.sp.wrapping_sub(1);
        self.write_cycle(self.sp, self.pc as u8);
        self.idle_cycle();
        self.pc = vector;
        5
    }
}

impl Cpu {
    fn a(&self) -> (r: u8) {
        (self.af >> 8) as u8
    }

    /// Fetches and executes one instruction; returns its length in M-cycles.
    fn execute_next_instruction(&mut self) -> (cycles: u8)
        requires
            old(self).inv(),
            old(self).cycles_so_far < 50,
        ensures
            final(self).inv(),
            ({
                let op = old(self).bus@.read(old(self).pc as int);
                let bug: int = if old(self).halt_bug { 1 } else { 0 };
                &&& cycles == instr_cycles(op)
                &&& final(self).cycles_so_far == old(self).cycles_so_far + cycles
                &&& !final(self).halt_bug
                &&& !is_jump(op) ==> final(self).pc as int == (old(self).pc as int + instr_len(op)
                    - bug) % 0x10000
                &&& Cpu::control_effect(*old(self), *final(self), op)
            }),
    {
        let bugged = self.halt_bug;
        let opcode = self.fetch();
        if bugged {
            // The byte after a HALT that hit the bug is read twice.
            self.pc = self.pc.wrapping_sub(1);
            self.halt_bug = false;
        }
        1 + self.execute(opcode)
    }

    /// What an opcode does to IME, HALT, SP and the scheduled EI.
    pub open spec fn control_effect(before: Cpu, after: Cpu, op: u8) -> bool {
        &&& op == 0xF3 ==> !after.ime
        &&& op == 0xFB ==> after.scheduled_ei
        &&& op == 0x76 ==> after.halted && after.halt_triggered
        &&& op == 0xD9 ==> after.ime && after.sp as int == (before.sp as int + 2) % 0x10000
        &&& op != 0xF3 && op != 0xD9 ==> after.ime == before.ime
        &&& op != 0x76 ==> after.halted == before.halted
        &&& op != 0xD9 ==> after.sp == before.sp
        &&& op != 0xFB ==> after.scheduled_ei == before.scheduled_ei
    }

    /// Executes an opcode whose byte has been fetched; returns the M-cycles that
    /// follow the fetch.
    fn execute(&mut self, op: u8) -> (cycles: u8)
        requires
            old(self).inv(),
            old(self).cycles_so_far < 60,
            !old(self).halt_bug,
        ensures
            final(self).inv(),
            cycles == instr_cycles(op) - 1,
            final(self).cycles_so_far == old(self).cycles_so_far + cycles,
            !final(self).halt_bug,
            !is_jump(op) ==> final(self).pc as int == (old(self).pc as int + instr_len(op) - 1)
                % 0x10000,
            Cpu::control_effect(*old(self), *final(self), op),
    {
        if op == 0x3E || op == 0xE0 || op == 0xF0 || op == 0xEA || op == 0xFA {
            self.execute_load(op)
        } else if is_jump_exec(op) {
            self.execute_jump(op)
        } else {
            self.execute_control(op)
        }
    }

    /// Loads between A and memory.
    fn execute_load(&mut self, op: u8) -> (cycles: u8)
        requires
            old(self).inv(),
            old(self).cycles_so_far < 60,
            op == 0x3E || op == 0xE0 || op == 0xF0 || op == 0xEA || op == 0xFA,
        ensures
            final(self).inv(),
            cycles == instr_cycles(op) - 1,
            final(self).cycles_so_far == old(self).cycles_so_far + cycles,
            final(self).pc as int == (old(self).pc as int + instr_len(op) - 1) % 0x10000,
            final(self).same_but_pc(Cpu { af: final(self).af, ..*old(self) }),
    {
        if op == 0x3E {
            let n = self.fetch();
            self.set_a(n);
            1
        } else if op == 0xE0 {
            let n = self.fetch();
            let a = self.a();
            self.write_cycle(0xFF00 | n as u16, a);
            2
        } else if op == 0xF0 {
            let n = self.fetch();
            let v = self.read_cycle(0xFF00 | n as u16);
            self.set_a(v);
            2
        } else if op == 0xEA {
            let addr = self.fetch_word();
            let a = self.a();
            self.write_cycle(addr, a);
            3
        } else {
            let addr = self.fetch_word();
            let v = self.read_cycle(addr);
            self.set_a(v);
            3
        }
    }

    /// JP a16, JR e8 and RETI.
    fn execute_jump(&mut self, op: u8) -> (cycles: u8)
        requires
            old(self).inv(),
            old(self).cycles_so_far < 60,
            !old(self).halt_bug,
            is_jump(op),
        ensures
            final(self).inv(),
            cycles == instr_cycles(op) - 1,
            final(self).cycles_so_far == old(self).cycles_so_far + cycles,
            !final(self).halt_bug,
            Cpu::control_effect(*old(self), *final(self), op),
    {
        if op == 0xC3 {
            let addr = self.fetch_word();
            self.idle_cycle();
            self.pc = addr;
            3
        } else if op == 0x18 {
            let e = self.fetch();
            self.idle_cycle();
            self.pc = if e < 0x80 {
                self.pc.wrapping_add(e as u16)
            } else {
                self.pc.wrapping_sub(0x100 - e as u16)
            };
            2
        } else {
            let lo = self.read_cycle(self.sp) as u16;
            self.sp = self.sp.wrapping_add(1);
            let hi = self.read_cycle(self.sp) as u16;
            self.sp = self.sp.wrapping_add(1);
            self.idle_cycle();
            self.pc = (hi << 8) | lo;
            self.ime = true;
            3
        }
    }

    /// STOP, HALT, DI, EI; any other opcode does nothing.
    fn execute_control(&mut self, op: u8) -> (cycles: u8)
        requires
            old(self).inv(),
            old(self).cycles_so_far < 60,
            !old(self).halt_bug,
            !is_jump(op),
            !(op == 0x3E || op == 0xE0 || op == 0xF0 || op == 0xEA || op == 0xFA),
        ensures
            final(self).inv(),
            cycles == instr_cycles(op) - 1,
            final(self).cycles_so_far == old(self).cycles_so_far + cycles,
            !final(self).halt_bug,
            final(self).pc as int == (old(self).pc as int + instr_len(op) - 1) % 0x10000,
            Cpu::control_effect(*old(self), *final(self), op),
    {
        if op == 0x10 {
            // STOP: switches speed when armed.
            self.fetch();
            self.bus.speed_switch();
            1
        } else if op == 0x76 {
            self.halted = true;
            self.halt_triggered = true;
            0
        } else if op == 0xF3 {
            self.ime = false;
            0
        } else if op == 0xFB {
            self.scheduled_ei = true;
            0
        } else {
            0
        }
    }

    /// M-cycles before any interrupt dispatch: one while halted, else the opcode's.
    pub open spec fn base_cycles(self) -> u8 {
        if self.halted {
            1
        } else {
            instr_cycles(self.bus@.read(self.pc as int))
        }
    }

    /// An instruction takes its own M-cycles, or five more when an interrupt is
    /// serviced after it: PC is then at that interrupt's vector, IME is off and
    /// the CPU is awake.
    pub open spec fn dispatch_cycles(before: Cpu, after: Cpu, cycles: u8) -> bool {
        ||| cycles == before.base_cycles()
        ||| {
            &&& cycles == before.base_cycles() + 5
            &&& !after.ime
            &&& !after.halted
            &&& exists|i: Interrupt| after.pc == #[trigger] interrupt_vector(i)
        }
    }

    /// IME as the interrupt check after the instruction sees it: a scheduled EI has
    /// taken effect, and DI or RETI act at once.
    pub open spec fn ime_at_check(self) -> bool {
        let ime = self.ime || self.scheduled_ei;
        if self.halted {
            ime
        } else {
            let op = self.bus@.read(self.pc as int);
            if op == 0xF3 {
                false
            } else if op == 0xD9 {
                true
            } else {
                ime
            }
        }
    }

    /// The bus after an instruction of `cycles` M-cycles. Every M-cycle of an
    /// executed instruction or an interrupt dispatch already ran through a partial
    /// tick; a halted CPU's idle M-cycle did not and gets one now. Then the whole
    /// instruction goes to one post tick. APU and PPU run only in the post tick and
    /// the timer and OAM DMA only in partial ticks, so each sees every cycle once.
    pub open spec fn finish_instruction(mid: BusView, cycles: u8, was_halted: bool) -> BusView {
        let b = if was_halted {
            mid.partial_tick(4)
        } else {
            mid
        };
        b.post_tick((4 * cycles) as u32)
    }

    /// One fetch-execute cycle, interrupt dispatch included; returns its M-cycles.
    fn cycle(&mut self) -> (cycles: u8)
        requires
            old(self).inv(),
            old(self).cycles_so_far == 0,
        ensures
            final(self).inv(),
            1 <= cycles <= 9,
            final(self).cycles_so_far <= cycles,
            Cpu::dispatch_cycles(*old(self), *final(self), cycles),
            final(self).cycles_so_far == cycles - (if old(self).halted { 1int } else { 0 }),
            final(self).scheduled_ei == (!old(self).halted && old(self).bus@.read(old(self).pc as int)
                == 0xFB),
            !old(self).ime_at_check() ==> cycles == old(self).base_cycles() && !final(self).ime,
            old(self).ime_at_check() && cycles == old(self).base_cycles() ==> final(self).ime,
            final(self).halted ==> pending_spec(final(self).bus@.ie, final(self).bus@.iflag).is_none(),
            old(self).halted && pending_spec(old(self).bus@.ie, old(self).bus@.iflag).is_none()
                ==> cycles == 1 && final(self).halted && final(self).pc == old(self).pc
                && final(self).bus@ == old(self).bus@ && final(self).cycles_so_far == 0,
    {
        self.halt_triggered = false;
        if self.scheduled_ei {
            self.ime = true;
            self.scheduled_ei = false;
        }
        let mut cycles: u8 = if !self.halted {
            self.execute_next_instruction()
        } else {
            1
        };
        match self.get_pending_interrupt() {
            Some(interrupt) => {
                if self.ime {
                    cycles = cycles + self.handle_interrupt(interrupt);
                } else if self.halt_triggered {
                    self.halt_bug = true;
                }
                self.ime = false;
                self.halted = false;
            },
            None => {},
        }
        cycles
    }

    /// Runs every part of the machine over the next instruction; returns its
    /// length in M-cycles. M-cycles not yet charged by memory accesses go to a
    /// partial step, and the whole instruction to the end-of-instruction step.
    pub fn step(&mut self) -> (cycles: u8)
        requires
            old(self).inv(),
            old(self).cycles_so_far == 0,
        ensures
            final(self).inv(),
            final(self).cycles_so_far == 0,
            1 <= cycles <= 9,
            Cpu::dispatch_cycles(*old(self), *final(self), cycles),
            exists|mid: BusView|
                mid.wf() && final(self).bus@ == #[trigger] Cpu::finish_instruction(
                    mid,
                    cycles,
                    old(self).halted,
                ),
            old(self).halted && pending_spec(old(self).bus@.ie, old(self).bus@.iflag).is_none()
                ==> cycles == 1 && final(self).halted && final(self).pc == old(self).pc
                && final(self).bus@ == old(self).bus@.partial_tick(4).post_tick(4),
    {
        let cycles = self.cycle();
        let ghost mid = self.bus@;
        let rest = cycles - self.cycles_so_far;
        if rest > 0 {
            self.bus.partial_step(4 * rest as u32);
        }
        self.bus.step(4 * cycles as u32);
        self.cycles_so_far = 0;
        assert(self.bus@ == Cpu::finish_instruction(
            mid,
            cycles,
            old(self).halted,
        ));
        cycles
    }
}

} // verus!

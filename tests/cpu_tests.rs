use gb_core::cartridge::Cartridge;
use gb_core::cpu::{Cpu, GBModel};
use gb_core::joypad::{press_key, release_key, Joypad};
use gb_core::mmu::Mmu;
use gb_core::timer::Timer;

/// A ROM whose program starts at 0x0100.
fn rom_with_program(program: &[u8]) -> Vec<u8> {
    let mut rom = vec![0u8; 0x8000];
    rom[0x100..0x100 + program.len()].copy_from_slice(program);
    rom
}

fn cpu(program: &[u8], model: GBModel) -> Cpu {
    Cpu::new(Cartridge::new(rom_with_program(program), 0), model)
}

/// Runs until the serial output ends in a line, like a test ROM reporting.
fn run_until_line(cpu: &mut Cpu, max_steps: u32) -> String {
    for _ in 0..max_steps {
        cpu.step();
        if cpu.bus.get_serial_output().ends_with('\n') {
            break;
        }
    }
    cpu.bus.get_serial_output().to_string()
}

#[test]
fn cpu_instr_test() {
    let mut program = Vec::new();
    for &c in b"Passed\n" {
        program.extend_from_slice(&[0x3E, c, 0xE0, 0x01]);
    }
    program.extend_from_slice(&[0x18, 0xFE]);
    let mut c = cpu(&program, GBModel::DMG);
    assert_eq!(run_until_line(&mut c, 1000), "Passed\n");
}

#[test]
fn cpu_mem_timing_test() {
    // LD A,0xC0; LDH (0x46),A: the DMA starts on the write, its first byte moves
    // at once and the second with the write's own M-cycle.
    let mut c = cpu(&[0x3E, 0xC0, 0xE0, 0x46, 0x00], GBModel::DMG);
    c.bus.write_byte(0xC000, 1);
    c.bus.write_byte(0xC001, 2);
    c.bus.write_byte(0xC002, 3);
    assert_eq!(c.step(), 2);
    assert_eq!(c.step(), 3);
    assert_eq!(c.bus.read_byte(0xFE00), 1);
    assert_eq!(c.bus.read_byte(0xFE01), 2);
    assert_eq!(c.bus.read_byte(0xFE02), 0);
    assert_eq!(c.step(), 1);
    assert_eq!(c.bus.read_byte(0xFE02), 3);
}

#[test]
fn cpu_instr_timing_test() {
    let program = [
        0x00, // NOP
        0x3E, 0x12, // LD A,d8
        0xE0, 0x80, // LDH (a8),A
        0xF0, 0x80, // LDH A,(a8)
        0xEA, 0x00, 0xC0, // LD (a16),A
        0xFA, 0x00, 0xC0, // LD A,(a16)
        0xF3, // DI
        0xFB, // EI
        0xC3, 0x12, 0x01, // JP 0x0112
        0x18, 0x00, // JR +0
        0x76, // HALT
    ];
    let mut c = cpu(&program, GBModel::DMG);
    let expected = [1u8, 2, 3, 3, 4, 4, 1, 1, 4, 3, 1];
    for (i, &e) in expected.iter().enumerate() {
        assert_eq!(c.step(), e, "instruction {}", i);
    }
    assert_eq!(c.pc, 0x0115);
    assert!(c.halted);
    assert_eq!(c.step(), 1);
    assert_eq!(c.pc, 0x0115);
    assert_eq!(c.bus.read_byte(0xC000), 0x12);
    assert_eq!(c.af >> 8, 0x12);
}

#[test]
fn cpu_services_interrupt() {
    // EI; NOP; then the pending timer interrupt is taken.
    let mut c = cpu(&[0xFB, 0x00, 0x00], GBModel::DMG);
    c.bus.write_byte(0xFFFF, 0x04);
    c.bus.request_interrupt(gb_core::cpu::Interrupt::Timer);
    assert_eq!(c.step(), 1);
    assert_eq!(c.step(), 6);
    assert_eq!(c.pc, 0x0050);
    assert_eq!(c.sp, 0xFFFC);
    assert_eq!(c.bus.read_byte(0xFFFD), 0x01);
    assert_eq!(c.bus.read_byte(0xFFFC), 0x02);
    assert_eq!(c.bus.read_byte(0xFF0F) & 0x04, 0);
    assert!(!c.ime);
}

#[test]
fn cpu_stop_switches_speed() {
    let mut c = cpu(&[0x3E, 0x01, 0xE0, 0x4D, 0x10, 0x00], GBModel::CGB);
    c.step();
    c.step();
    c.step();
    assert_eq!(c.bus.read_byte(0xFF4D), 0x80);
    assert_eq!(c.bus.read_byte(0xFF04), 0);
}

#[test]
fn cpu_boot_state() {
    let c = cpu(&[], GBModel::DMG);
    assert_eq!(c.pc, 0x0100);
    assert_eq!(c.sp, 0xFFFE);
    assert_eq!(c.af, 0x01B0);
    assert_eq!(c.bus.read_byte(0xFF40), 0x91);
}

#[test]
fn mmu_reads() {
    let mut m = Mmu::new();
    assert_eq!(m.read_byte(0xFF44), 0x90);
    assert_eq!(m.read_byte(0xC000), 0);
    assert_eq!(m.read_word(0xFF43), 0x9000);
    assert_eq!(m.read_word(0xFF44), 0x0090);
    m.write_word(0xC000, 0x1234);
    assert_eq!(m.read_word(0xC000), 0);
}

#[test]
fn joypad_selection() {
    let mut j = Joypad::new();
    assert_eq!(j.read_joypad(), 0x00);
    j.write_joypad(0x0F);
    assert_eq!(j.read_joypad(), 0x00);
    j.write_joypad(0x1F);
    assert_eq!(j.read_joypad(), 0x10);
    j.step(0xFF);
    assert_eq!(j.read_joypad(), 0x1F);
    assert!(!j.interrupt_triggered());
    j.write_joypad(0xD0);
    assert_eq!(j.read_joypad(), 0xDF);
    j.step(0x7F);
    assert_eq!(j.read_joypad(), 0xD7);
    assert!(j.interrupt_triggered());
    assert!(!j.interrupt_triggered());
}

#[test]
fn timer_div_counts() {
    let mut t = Timer::new();
    assert!(!t.step(255));
    assert_eq!(t.read_div(), 0);
    t.step(1);
    assert_eq!(t.read_div(), 1);
    t.reset_div();
    assert_eq!(t.read_io(0xFF04), 0);
}

#[test]
fn key_press_and_release() {
    assert_eq!(press_key(0xFF, 0), 0x7F);
    assert_eq!(press_key(0xFF, 7), 0xFE);
    assert_eq!(release_key(0x00, 3), 0x10);
    assert_eq!(release_key(press_key(0xFF, 5), 5), 0xFF);
}

#[test]
fn cartridge_header() {
    let mut rom = vec![0u8; 0x8000];
    rom[0x149] = 0x03;
    rom[0x143] = 0xC0;
    let c = Cartridge::from_rom(rom);
    assert!(c.is_cgb_cartridge());
    assert_eq!(c.ram_contents().len(), 0x8000);
    assert_eq!(Cartridge::ram_size(2), 0x2000);
    assert_eq!(Cartridge::ram_size(9), 0);
    let c = Cartridge::from_rom(vec![0u8; 0x10]);
    assert!(!c.is_cgb_cartridge());
    assert_eq!(c.ram_contents().len(), 0);
}

use gb_core::bus::Bus;
use gb_core::cartridge::Cartridge;
use gb_core::cpu::{GBModel, Interrupt};

fn rom_with_pattern() -> Vec<u8> {
    let mut rom = vec![0u8; 0x8000];
    for (i, b) in rom.iter_mut().enumerate() {
        *b = (i as u8).wrapping_mul(7).wrapping_add(3);
    }
    rom
}

fn bus(model: GBModel) -> Bus {
    Bus::new(Cartridge::new(rom_with_pattern(), 0x2000), model)
}

#[test]
fn serial_sink_collects_bytes() {
    let mut b = bus(GBModel::DMG);
    b.write_byte(0xFF01, 0x48);
    b.write_byte(0xFF01, 0x69);
    b.write_byte(0xFF01, 0x0A);
    assert_eq!(b.get_serial_output(), "Hi\n");
}

#[test]
fn vblank_and_timer_in_same_step() {
    let mut b = bus(GBModel::DMG);
    b.write_byte(0xFFFF, 0x1F);
    b.write_byte(0xFF40, 0x91);
    for _ in 0..143 {
        b.step(456);
    }
    b.step(455);
    assert_eq!(b.read_byte(0xFF44), 143);
    b.write_byte(0xFF0F, 0x00);
    b.write_byte(0xFF06, 0x00);
    b.write_byte(0xFF05, 0xFF);
    b.write_byte(0xFF07, 0x05);
    b.partial_step(16);
    b.step(4);
    assert_eq!(b.read_byte(0xFF0F) & 0x1F, 0x05);
}

#[test]
fn oam_dma_from_wram() {
    let mut b = bus(GBModel::DMG);
    b.write_byte(0xC017, 0x42);
    b.write_byte(0xFF46, 0xC0);
    for _ in 0..160 {
        b.partial_step(4);
    }
    assert_eq!(b.read_byte(0xFE17), 0x42);
}

#[test]
fn oam_dma_copies_whole_page() {
    let mut b = bus(GBModel::DMG);
    let rom = rom_with_pattern();
    b.write_byte(0xFF46, 0x12);
    assert_eq!(b.read_byte(0xFE00), rom[0x1200]);
    assert_ne!(b.read_byte(0xFE01), rom[0x1201]);
    b.partial_step(4 * 159);
    for i in 0..0xA0usize {
        assert_eq!(b.read_byte(0xFE00 + i as u16), rom[0x1200 + i]);
    }
    assert_eq!(b.read_byte(0xFF46), 0x12);
}

#[test]
fn gdma_copies_at_once() {
    let mut b = bus(GBModel::CGB);
    let rom = rom_with_pattern();
    b.write_byte(0xFF51, 0x01);
    b.write_byte(0xFF52, 0x00);
    b.write_byte(0xFF53, 0x00);
    b.write_byte(0xFF54, 0x00);
    b.write_byte(0xFF55, 0x01);
    for i in 0..0x20usize {
        assert_eq!(b.read_byte(0x8000 + i as u16), rom[0x100 + i]);
    }
    assert_eq!(b.read_byte(0x8020), 0);
    assert_eq!(b.read_byte(0xFF55), 0xFF);
}

#[test]
fn gdma_is_ignored_on_dmg() {
    let mut b = bus(GBModel::DMG);
    b.write_byte(0xFF51, 0x01);
    b.write_byte(0xFF55, 0x01);
    assert_eq!(b.read_byte(0x8000), 0);
    assert_eq!(b.read_byte(0xFF55), 0xFF);
}

/// Steps until the HDMA engine has seen `n` HBlanks.
fn run_hblanks(b: &mut Bus, n: u32) {
    let mut seen = 0;
    let mut guard = 0;
    while seen < n {
        b.step(4);
        if b.entered_hblank() {
            b.step(4);
            seen += 1;
        }
        guard += 1;
        assert!(guard < 100_000);
    }
}

#[test]
fn hblank_hdma_cancellation() {
    let mut b = bus(GBModel::CGB);
    b.write_byte(0xFF40, 0x91);
    b.write_byte(0xFF51, 0x02);
    b.write_byte(0xFF52, 0x00);
    b.write_byte(0xFF55, 0x84);
    assert_eq!(b.read_byte(0xFF55), 0x04);
    run_hblanks(&mut b, 2);
    assert_eq!(b.read_byte(0xFF55), 0x02);
    b.write_byte(0xFF55, 0x00);
    assert_eq!(b.read_byte(0xFF55), 0x82);
    let rom = rom_with_pattern();
    assert_eq!(b.read_byte(0x801F), rom[0x21F]);
    assert_eq!(b.read_byte(0x8020), 0);
}

#[test]
fn hblank_hdma_pacing() {
    let mut b = bus(GBModel::CGB);
    let rom = rom_with_pattern();
    b.write_byte(0xFF40, 0x91);
    b.write_byte(0xFF51, 0x03);
    b.write_byte(0xFF52, 0x00);
    b.write_byte(0xFF55, 0x82);
    run_hblanks(&mut b, 1);
    assert_eq!(b.read_byte(0xFF55), 0x01);
    assert_eq!(b.read_byte(0x800F), rom[0x30F]);
    assert_eq!(b.read_byte(0x8010), 0);
    run_hblanks(&mut b, 1);
    assert_eq!(b.read_byte(0xFF55), 0x00);
    assert_eq!(b.read_byte(0x8020), 0);
    run_hblanks(&mut b, 1);
    assert_eq!(b.read_byte(0xFF55), 0xFF);
    for i in 0..48usize {
        assert_eq!(b.read_byte(0x8000 + i as u16), rom[0x300 + i]);
    }
    assert_eq!(b.read_byte(0x8030), 0);
}

#[test]
fn speed_switch_on_cgb() {
    let mut b = bus(GBModel::CGB);
    b.partial_step(4 * 300);
    assert_ne!(b.read_byte(0xFF04), 0);
    b.write_byte(0xFF4D, 0x01);
    assert!(b.speed_switch());
    assert_eq!(b.read_byte(0xFF4D), 0x80);
    assert_eq!(b.read_byte(0xFF04), 0);
    assert!(!b.speed_switch());
    b.write_byte(0xFF4D, 0x01);
    assert_eq!(b.read_byte(0xFF4D), 0x81);
    assert!(b.speed_switch());
    assert_eq!(b.read_byte(0xFF4D), 0x00);
}

#[test]
fn speed_switch_refused_on_dmg() {
    let mut b = bus(GBModel::DMG);
    b.write_byte(0xFF4D, 0x01);
    assert_eq!(b.read_byte(0xFF4D), 0xFF);
    assert!(!b.speed_switch());
}

#[test]
fn if_upper_bits_always_set() {
    let mut b = bus(GBModel::DMG);
    assert_eq!(b.read_byte(0xFF0F), 0xE0);
    for v in [0x00u8, 0x1F, 0x05, 0xFF, 0x40] {
        b.write_byte(0xFF0F, v);
        assert_eq!(b.read_byte(0xFF0F), 0xE0 | v);
    }
}

#[test]
fn request_interrupt_only_sets() {
    let mut b = bus(GBModel::DMG);
    b.request_interrupt(Interrupt::Serial);
    b.request_interrupt(Interrupt::VBlank);
    assert_eq!(b.read_byte(0xFF0F), 0xE9);
    b.request_interrupt(Interrupt::Serial);
    assert_eq!(b.read_byte(0xFF0F), 0xE9);
}

#[test]
fn echo_ram_mirrors_wram() {
    let mut b = bus(GBModel::DMG);
    b.write_byte(0xC123, 0x5A);
    assert_eq!(b.read_byte(0xE123), 0x5A);
    b.write_byte(0xFDFF, 0x77);
    assert_eq!(b.read_byte(0xDDFF), 0x77);
    for a in (0xE000u32..=0xFDFF).step_by(0x101) {
        assert_eq!(b.read_byte(a as u16), b.read_byte((a - 0x2000) as u16));
    }
}

#[test]
fn wram_banking_on_cgb() {
    let mut b = bus(GBModel::CGB);
    for k in 0u8..=7 {
        b.write_byte(0xFF70, k);
        b.write_byte(0xD010, 0x10 + k);
    }
    b.write_byte(0xFF70, 0);
    assert_eq!(b.read_byte(0xD010), 0x11);
    for k in 1u8..=7 {
        b.write_byte(0xFF70, k);
        assert_eq!(b.read_byte(0xD010), 0x10 + k);
        assert_eq!(b.read_byte(0xF010), 0x10 + k);
    }
    b.write_byte(0xFF70, 8);
    assert_eq!(b.read_byte(0xD010), 0x11);
    b.write_byte(0xC000, 0x99);
    b.write_byte(0xFF70, 3);
    assert_eq!(b.read_byte(0xC000), 0x99);
}

#[test]
fn wram_bank_fixed_on_dmg() {
    let mut b = bus(GBModel::DMG);
    b.write_byte(0xD000, 0x31);
    b.write_byte(0xFF70, 3);
    assert_eq!(b.read_byte(0xFF70), 0xFF);
    assert_eq!(b.read_byte(0xD000), 0x31);
}

#[test]
fn empty_region_reads_ff() {
    let mut b = bus(GBModel::CGB);
    for a in 0xFEA0u16..=0xFEFF {
        b.write_byte(a, 0x12);
        assert_eq!(b.read_byte(a), 0xFF);
    }
}

#[test]
fn unassigned_io_reads_ff() {
    let mut b = bus(GBModel::CGB);
    b.write_byte(0xFF51, 0x12);
    assert_eq!(b.read_byte(0xFF51), 0xFF);
    assert_eq!(b.read_byte(0xFF03), 0xFF);
    assert_eq!(b.read_byte(0xFF7F), 0xFF);
    assert_eq!(b.read_byte(0xFF01), 0xFF);
}

#[test]
fn rp_bit_one_forced_clear() {
    let mut b = bus(GBModel::CGB);
    b.write_byte(0xFF56, 0xFF);
    assert_eq!(b.read_byte(0xFF56), 0xFD);
}

#[test]
fn hram_and_ie_round_trip() {
    let mut b = bus(GBModel::DMG);
    b.write_byte(0xFF80, 1);
    b.write_byte(0xFFFE, 2);
    b.write_byte(0xFFFF, 0x1F);
    assert_eq!(b.read_byte(0xFF80), 1);
    assert_eq!(b.read_byte(0xFFFE), 2);
    assert_eq!(b.read_byte(0xFFFF), 0x1F);
}

#[test]
fn rom_and_cart_ram() {
    let mut b = bus(GBModel::DMG);
    let rom = rom_with_pattern();
    b.write_byte(0x0150, 0x00);
    assert_eq!(b.read_byte(0x0150), rom[0x150]);
    b.write_byte(0xA005, 0x66);
    assert_eq!(b.read_byte(0xA005), 0x66);
    assert_eq!(b.save_mbc_state()[5], 0x66);
    let mut small = Bus::new(Cartridge::new(vec![1, 2], 0), GBModel::DMG);
    assert_eq!(small.read_byte(0x0001), 2);
    assert_eq!(small.read_byte(0x0002), 0xFF);
    small.write_byte(0xA000, 5);
    assert_eq!(small.read_byte(0xA000), 0xFF);
}

#[test]
fn load_save_checks_size() {
    let mut b = bus(GBModel::DMG);
    assert!(!b.load_save(vec![1, 2, 3]));
    let mut data = vec![0u8; 0x2000];
    data[0] = 0xAB;
    assert!(b.load_save(data));
    assert_eq!(b.read_byte(0xA000), 0xAB);
}

#[test]
fn save_id_is_header_title() {
    let mut rom = vec![0u8; 0x8000];
    rom[0x134..0x13A].copy_from_slice(b"TETRIS");
    let b = Bus::new(Cartridge::new(rom, 0), GBModel::DMG);
    assert_eq!(b.save_id(), Some(String::from("TETRIS")));
    let mut full = vec![0u8; 0x8000];
    for i in 0x134..0x144 {
        full[i] = b'A';
    }
    full[0x144] = b'B';
    let b = Bus::new(Cartridge::new(full, 0), GBModel::DMG);
    assert_eq!(b.save_id(), Some(String::from("AAAAAAAAAAAAAAAA")));
    let b = Bus::new(Cartridge::new(vec![0u8; 0x100], 0), GBModel::DMG);
    assert_eq!(b.save_id(), None);
}

#[test]
fn frame_sequencer_single_speed_edge() {
    let mut b = bus(GBModel::CGB);
    assert_eq!(b.frame_sequencer(), 0);
    for _ in 0..2047 {
        b.partial_step(4);
    }
    assert_eq!(b.frame_sequencer(), 0);
    b.partial_step(4);
    assert_eq!(b.frame_sequencer(), 1);
    for _ in 0..2047 {
        b.partial_step(4);
    }
    assert_eq!(b.frame_sequencer(), 1);
    b.partial_step(4);
    assert_eq!(b.frame_sequencer(), 2);
}

#[test]
fn frame_sequencer_double_speed_edge() {
    let mut b = bus(GBModel::CGB);
    b.write_byte(0xFF4D, 0x01);
    assert!(b.speed_switch());
    for _ in 0..4095 {
        b.partial_step(4);
    }
    assert_eq!(b.frame_sequencer(), 0);
    b.partial_step(4);
    assert_eq!(b.frame_sequencer(), 1);
}

#[test]
fn joypad_interrupt_on_press() {
    let mut b = bus(GBModel::DMG);
    assert_eq!(b.read_byte(0xFF00), 0x00);
    b.write_byte(0xFF00, 0x20);
    assert_eq!(b.read_byte(0xFF00), 0x20);
    b.update_joypad(0xFF);
    assert_eq!(b.read_byte(0xFF00), 0x2F);
    b.update_joypad(0xFE);
    assert_eq!(b.read_byte(0xFF00), 0x2E);
    b.write_byte(0xFF0F, 0);
    b.step(4);
    assert_eq!(b.read_byte(0xFF0F), 0xF0);
    b.write_byte(0xFF0F, 0);
    b.step(4);
    assert_eq!(b.read_byte(0xFF0F), 0xE0);
}

#[test]
fn display_output_once_per_frame() {
    let mut b = bus(GBModel::DMG);
    assert!(b.get_display_output().is_none());
    b.write_byte(0xFF40, 0x91);
    for _ in 0..144 {
        b.step(456);
    }
    let frame = b.get_display_output();
    assert_eq!(frame.map(|f| f.len()), Some(160 * 144));
    assert!(b.get_display_output().is_none());
}

#[test]
fn timer_interrupt_from_partial_step() {
    let mut b = bus(GBModel::DMG);
    b.write_byte(0xFF06, 0xAB);
    b.write_byte(0xFF05, 0xFE);
    b.write_byte(0xFF07, 0x05);
    b.partial_step(16);
    assert_eq!(b.read_byte(0xFF05), 0xFF);
    assert_eq!(b.read_byte(0xFF0F), 0xE0);
    b.partial_step(16);
    assert_eq!(b.read_byte(0xFF05), 0xAB);
    assert_eq!(b.read_byte(0xFF0F), 0xE4);
    assert_eq!(b.read_byte(0xFF07), 0xFD);
}

#[test]
fn stat_register_reports_mode() {
    let mut b = bus(GBModel::DMG);
    b.write_byte(0xFF40, 0x91);
    b.write_byte(0xFF41, 0x08);
    b.write_byte(0xFF0F, 0);
    b.step(252);
    assert_eq!(b.read_byte(0xFF41) & 0x03, 0);
    assert_eq!(b.read_byte(0xFF0F), 0xE2);
    assert_eq!(b.read_byte(0xFF41) & 0x78, 0x08);
}

#[test]
fn gdma_destination_in_vram() {
    let mut b = bus(GBModel::CGB);
    let rom = rom_with_pattern();
    b.write_byte(0xFF51, 0x04);
    b.write_byte(0xFF52, 0x37);
    b.write_byte(0xFF53, 0xF1);
    b.write_byte(0xFF54, 0x2A);
    b.write_byte(0xFF55, 0x00);
    for i in 0..16usize {
        assert_eq!(b.read_byte(0x9120 + i as u16), rom[0x430 + i]);
    }
    assert_eq!(b.read_byte(0x9130), 0);
    assert_eq!(b.read_byte(0x811F), 0);
}

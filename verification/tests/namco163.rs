use nes_emulator::cartridge::load::Cartridge;

/// A mapper 19 image whose PRG bytes hold their 8 KiB bank number and
/// whose CHR bytes hold their 1 KiB bank number.
fn namco_cart(prg_banks: u8, chr_banks: u8) -> Cartridge {
    let mut data = vec![0x4E, 0x45, 0x53, 0x1A, prg_banks, chr_banks, 0x30, 0x10];
    data.resize(16, 0);
    for i in 0..(prg_banks as usize * 16384) {
        data.push((i / 0x2000) as u8);
    }
    for i in 0..(chr_banks as usize * 8192) {
        data.push((i / 0x400) as u8);
    }
    match Cartridge::load(&data) {
        Ok(c) => c,
        Err(_) => panic!("image refused"),
    }
}

fn irq_state(c: &Cartridge) -> (u16, bool) {
    match &c.namco163 {
        Some(n) => (n.irq_counter, n.irq_pending),
        None => panic!("no chip"),
    }
}

#[test]
fn namco163_prg_banks_and_fixed_last_bank() {
    let mut c = namco_cart(4, 1);
    assert!(c.namco163.is_some());
    assert_eq!(c.read_prg_namco163(0x8000), 0);
    assert_eq!(c.read_prg_namco163(0xA000), 1);
    assert_eq!(c.read_prg_namco163(0xC000), 2);
    assert_eq!(c.read_prg_namco163(0xE000), 7);
    assert_eq!(c.read_prg_namco163(0x6000), 0);
    c.write_prg_namco163(0xE000, 0x45);
    assert_eq!(c.read_prg_namco163(0x8000), 5);
    c.write_prg_namco163(0xE800, 0x03);
    assert_eq!(c.read_prg_namco163(0xA000), 3);
    c.write_prg_namco163(0xF000, 0x0E);
    assert_eq!(c.read_prg_namco163(0xC000), 6);
}

#[test]
fn namco163_chr_slots_show_rom_or_nametable_ram() {
    let mut c = namco_cart(2, 1);
    c.write_prg_namco163(0x8800, 0x03);
    assert_eq!(c.read_chr_namco163(0x0400), 3);
    c.write_prg_namco163(0x8000, 0xE1);
    c.write_chr_namco163(0x0005, 0x99);
    assert_eq!(c.chr_ram[0x0405], 0x99);
    assert_eq!(c.read_chr_namco163(0x0005), 0x99);
    c.write_prg_namco163(0xE800, 0x40);
    assert_eq!(c.read_chr_namco163(0x0005), 1);
    c.write_chr_namco163(0x0006, 0x55);
    assert_eq!(c.chr_ram[0x0406], 0);
}

#[test]
fn namco163_nametables_through_bank_registers() {
    let mut c = namco_cart(2, 1);
    let mut internal = [[0u8; 1024]; 2];
    c.write_prg_namco163(0xC000, 0xE0);
    c.write_nametable_namco163(0, 0x10, &mut internal, 0x77);
    assert_eq!(c.chr_ram[0x10], 0x77);
    assert_eq!(c.read_nametable_namco163(0, 0x10, &internal), 0x77);
    assert_eq!(internal[0][0x10], 0);
    c.write_prg_namco163(0xC800, 0x02);
    assert_eq!(c.read_nametable_namco163(1, 0, &internal), 2);
}

#[test]
fn namco163_irq_counter_registers_and_overflow() {
    let mut c = namco_cart(2, 1);
    c.write_prg_low_namco163(0x5000, 0xFE);
    c.write_prg_low_namco163(0x5800, 0xFF);
    assert_eq!(c.read_prg_low_namco163(0x5000), 0xFE);
    assert_eq!(c.read_prg_low_namco163(0x5800), 0xFF);
    c.clock_irq_namco163(1);
    assert_eq!(irq_state(&c), (0x7FFF, true));
    c.clock_irq_namco163(5);
    assert_eq!(irq_state(&c), (0x7FFF, true));
    c.write_prg_low_namco163(0x5000, 0x00);
    assert_eq!(irq_state(&c), (0x7F00, false));
}

#[test]
fn namco163_irq_clocking_adds_up() {
    let mut a = namco_cart(2, 1);
    let mut b = namco_cart(2, 1);
    for c in [&mut a, &mut b] {
        c.write_prg_low_namco163(0x5000, 0x10);
        c.write_prg_low_namco163(0x5800, 0xFF);
    }
    a.clock_irq_namco163(3);
    a.clock_irq_namco163(4);
    b.clock_irq_namco163(7);
    assert_eq!(irq_state(&a), irq_state(&b));
    assert_eq!(irq_state(&a), (0x7F17, false));
    a.clock_irq_namco163(0xE0);
    b.clock_irq_namco163(0xE8);
    assert_eq!(irq_state(&a), (0x7FF7, false));
    assert_eq!(irq_state(&b), (0x7FFF, true));
}

#[test]
fn namco163_chip_ram_port_auto_increments() {
    let mut c = namco_cart(2, 1);
    c.write_prg_namco163(0xF800, 0x85);
    c.write_prg_low_namco163(0x4800, 0xAB);
    c.write_prg_low_namco163(0x4800, 0xCD);
    assert_eq!(c.prg_ram[0x2005], 0xAB);
    assert_eq!(c.prg_ram[0x2006], 0xCD);
    c.write_prg_namco163(0xF800, 0x85);
    assert_eq!(c.read_prg_low_namco163(0x4800), 0xAB);
    assert_eq!(c.read_prg_low_namco163(0x4800), 0xCD);
    c.write_prg_namco163(0xF800, 0x7F);
    c.write_prg_low_namco163(0x4800, 0x11);
    assert_eq!(c.prg_ram[0x207F], 0x11);
    assert_eq!(c.read_prg_low_namco163(0x4800), 0x11);
}

#[test]
fn namco163_work_ram_write_protection() {
    let mut c = namco_cart(2, 1);
    c.write_prg_ram_namco163(0x6001, 0x12);
    assert_eq!(c.read_prg_ram_namco163(0x6001), 0);
    c.write_prg_namco163(0xF800, 0x40);
    c.write_prg_ram_namco163(0x6001, 0x12);
    assert_eq!(c.read_prg_ram_namco163(0x6001), 0x12);
    c.write_prg_namco163(0xF800, 0x41);
    c.write_prg_ram_namco163(0x6002, 0x34);
    assert_eq!(c.read_prg_ram_namco163(0x6002), 0);
    c.write_prg_ram_namco163(0x6802, 0x34);
    assert_eq!(c.read_prg_ram_namco163(0x6802), 0x34);
}

#[test]
fn namco163_sound_steps_every_fifteenth_cycle() {
    let mut c = namco_cart(2, 1);
    assert_eq!(c.clock_audio_namco163(), (0, 1));
    c.write_prg_namco163(0xE000, 0x00);
    c.prg_ram[0x207C] = 0xFD;
    c.prg_ram[0x207F] = 0x0F;
    c.prg_ram[0x2000] = 0xA3;
    let mut last = (0, 0);
    for _ in 0..14 {
        last = c.clock_audio_namco163();
    }
    assert_eq!(last, (0, 1));
    assert_eq!(c.clock_audio_namco163(), (30, 1));
    assert_eq!(c.prg_ram[0x207D], 1);
    assert_eq!(c.clock_audio_namco163(), (30, 1));
    c.write_prg_namco163(0xE000, 0x40);
    assert_eq!(c.clock_audio_namco163(), (0, 1));
}

#[test]
fn namco163_save_state_round_trip() {
    let mut c = namco_cart(2, 1);
    c.write_prg_namco163(0x8800, 0x21);
    c.write_prg_namco163(0xF800, 0xC5);
    c.write_prg_low_namco163(0x5800, 0x83);
    let saved = match &c.namco163 {
        Some(n) => n.snapshot_state(),
        None => panic!("no chip"),
    };
    c.write_prg_namco163(0x8800, 0x00);
    c.write_prg_low_namco163(0x5000, 0x44);
    let chip = c.namco163.as_mut().unwrap();
    assert_ne!(chip.snapshot_state(), saved);
    chip.restore_state(&saved);
    assert_eq!(chip.snapshot_state(), saved);
    assert_eq!(chip.chr_banks[1], 0x21);
    assert_eq!(chip.internal_addr, 0x45);
    assert_eq!(chip.irq_counter, 0x0300);
    assert!(chip.irq_enabled);
}

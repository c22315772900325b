use nes_emulator::cartridge::load::Cartridge;
use nes_emulator::cartridge::Mirroring;

/// An iNES image whose PRG bytes hold their 8 KiB bank number and whose
/// CHR bytes hold their 1 KiB bank number.
fn image(mapper: u8, prg_banks: u8, chr_banks: u8) -> Vec<u8> {
    let mut data = vec![0x4E, 0x45, 0x53, 0x1A, prg_banks, chr_banks, (mapper & 0x0F) << 4, mapper & 0xF0];
    data.resize(16, 0);
    for i in 0..(prg_banks as usize * 16384) {
        data.push((i / 0x2000) as u8);
    }
    for i in 0..(chr_banks as usize * 8192) {
        data.push((i / 0x400) as u8);
    }
    data
}

fn cart(mapper: u8, prg_banks: u8, chr_banks: u8) -> Cartridge {
    match Cartridge::load(&image(mapper, prg_banks, chr_banks)) {
        Ok(c) => c,
        Err(_) => panic!("image refused"),
    }
}

#[test]
fn nrom_mirrors_16k_and_maps_32k() {
    let small = cart(0, 1, 1);
    assert_eq!(small.read_prg_nrom(0x0000), 0);
    assert_eq!(small.read_prg_nrom(0x6000), 1);
    let large = cart(0, 2, 1);
    assert_eq!(large.read_prg_nrom(0x6000), 3);
    assert_eq!(large.read_chr_nrom(0x0C00), 3);
}

#[test]
fn nrom_chr_write_lands_in_chr_memory() {
    let mut c = cart(0, 1, 0);
    c.write_chr_nrom(0x2010, 0x5A);
    assert_eq!(c.read_chr_nrom(0x0010), 0x5A);
}

#[test]
fn mapper200_address_selects_banks_and_mirroring() {
    let mut c = cart(200, 4, 4);
    c.write_prg_mapper200(0x800B);
    assert_eq!(c.prg_bank, 3);
    assert_eq!(c.chr_bank, 3);
    assert_eq!(c.mirroring, Mirroring::Horizontal);
    assert_eq!(c.read_prg_mapper200(0x8000), 6);
    assert_eq!(c.read_prg_mapper200(0xC000), 6);
    assert_eq!(c.read_prg_mapper200(0xE000), 7);
    c.write_prg_mapper200(0x7003);
    assert_eq!(c.prg_bank, 3);
}

#[test]
fn mapper201_and_203_latch_banks() {
    let mut c = cart(201, 4, 4);
    c.write_prg_mapper201(0x8003);
    assert_eq!(c.prg_bank, 1);
    assert_eq!(c.chr_bank, 3);
    let mut d = cart(203, 4, 4);
    d.write_prg_mapper203(0x8000, 0x0E);
    assert_eq!(d.prg_bank, 3);
    assert_eq!(d.chr_bank, 2);
}

#[test]
fn mapper229_bank_zero_is_nrom256() {
    let mut c = cart(229, 4, 4);
    c.write_prg_mapper229(0x8000);
    assert_eq!(c.mirroring, Mirroring::Vertical);
    assert_eq!(c.read_prg_mapper229(0x8000), 0);
    assert_eq!(c.read_prg_mapper229(0xC000), 2);
    c.write_prg_mapper229(0x8022);
    assert_eq!(c.mirroring, Mirroring::Horizontal);
    assert_eq!(c.read_prg_mapper229(0x8000), 4);
    assert_eq!(c.read_prg_mapper229(0xC000), 4);
}

#[test]
fn mapper221_outer_bank_modes_and_write_protect() {
    let mut c = cart(221, 16, 0);
    c.write_prg_mapper221(0x8006);
    assert_eq!(c.multicart.mapper221_outer_bank, 1);
    assert_eq!(c.multicart.mapper221_mode, 1);
    assert_eq!(c.mirroring, Mirroring::Vertical);
    c.write_prg_mapper221(0xC00B);
    assert_eq!(c.prg_bank, 3);
    assert!(c.multicart.mapper221_chr_write_protect);
    assert_eq!(c.read_prg_mapper221(0x8000), 20);
    assert_eq!(c.read_prg_mapper221(0xC000), 22);
    let before = c.read_chr_mapper221(0x0010);
    c.write_chr_mapper221(0x0010, 0x77);
    assert_eq!(c.read_chr_mapper221(0x0010), before);
}

#[test]
fn mapper227_nrom_and_unrom_modes() {
    let mut c = cart(227, 32, 0);
    c.write_prg_mapper227(0x81AD);
    assert_eq!(c.multicart.mapper227_latch, 0x01AD);
    assert_eq!(c.prg_bank, 43);
    assert_eq!(c.mirroring, Mirroring::Vertical);
    assert_eq!(c.read_prg_mapper227(0x8000), 20);
    assert_eq!(c.read_prg_mapper227(0xC000), 22);
    c.write_prg_mapper227(0x832E);
    assert_eq!(c.mirroring, Mirroring::Horizontal);
    assert_eq!(c.read_prg_mapper227(0x8000), 22);
    assert_eq!(c.read_prg_mapper227(0xC000), 30);
}

#[test]
fn mapper227_chr_ram_locked_in_nrom_mode_without_battery() {
    let mut c = cart(227, 2, 0);
    c.write_prg_mapper227(0x8080);
    c.write_chr_mapper227(0x0004, 0x11);
    assert_eq!(c.chr_rom[4], 0);
    c.write_prg_mapper227(0x8000);
    c.write_chr_mapper227(0x0004, 0x11);
    assert_eq!(c.chr_rom[4], 0x11);
}

#[test]
fn mapper212_32k_mode() {
    let mut c = cart(212, 8, 8);
    c.write_prg_mapper212(0xC00D);
    assert_eq!(c.prg_bank, 5);
    assert_eq!(c.chr_bank, 5);
    assert_eq!(c.mirroring, Mirroring::Horizontal);
    assert!(c.multicart.mapper212_32k_mode);
    assert_eq!(c.read_prg_mapper212(0x8000), 8);
    assert_eq!(c.read_prg_mapper212(0xE000), 11);
}

#[test]
fn mapper226_even_and_odd_registers() {
    let mut c = cart(226, 16, 1);
    c.write_prg_mapper226(0x8000, 0x25);
    assert_eq!(c.prg_bank, 5);
    assert!(c.multicart.mapper226_nrom128);
    assert_eq!(c.mirroring, Mirroring::Horizontal);
    assert_eq!(c.read_prg_mapper226(0x8000), 10);
    assert_eq!(c.read_prg_mapper226(0xC000), 10);
    c.write_prg_mapper226(0x8001, 0x01);
    assert_eq!(c.prg_bank, 5);
    c.write_prg_mapper226(0x8000, 0x46);
    assert!(!c.multicart.mapper226_nrom128);
    assert_eq!(c.mirroring, Mirroring::Vertical);
    assert_eq!(c.read_prg_mapper226(0x8000), 12);
    assert_eq!(c.read_prg_mapper226(0xC000), 14);
}

#[test]
fn mapper225_latches_and_address_banks() {
    let mut c = cart(225, 8, 8);
    c.write_prg_mapper225(0x5801, 0x3C);
    assert_eq!(c.read_prg_low_mapper225(0x5801), 0x0C);
    assert_eq!(c.read_prg_low_mapper225(0x5000), 0);
    c.write_prg_mapper225(0xB0C3, 0);
    assert_eq!(c.prg_bank, 3);
    assert_eq!(c.chr_bank, 3);
    assert!(c.multicart.mapper225_nrom128);
    assert_eq!(c.mirroring, Mirroring::Horizontal);
    assert_eq!(c.read_prg_mapper225(0x8000), 6);
    assert_eq!(c.read_prg_mapper225(0xC000), 6);
}

#[test]
fn mapper235_empty_socket_reads_open_bus() {
    let mut c = cart(235, 8, 1);
    c.write_prg_mapper235(0x8803, 0);
    assert_eq!(c.prg_bank, 6);
    assert!(c.multicart.mapper235_nrom128);
    assert_eq!(c.mirroring, Mirroring::Horizontal);
    assert_eq!(c.read_prg_mapper235(0x8000), 12);
    c.write_prg_mapper235(0x8100, 0);
    assert_eq!(c.prg_bank, 0xFF);
    assert_eq!(c.read_prg_mapper235(0x8000), 0xFF);
    c.write_prg_mapper235(0xA400, 0);
    assert_eq!(c.mirroring, Mirroring::OneScreenLower);
    assert_eq!(c.read_prg_mapper235(0xC000), 2);
}

#[test]
fn mapper202_16k_and_32k_modes() {
    let mut c = cart(202, 4, 4);
    c.write_prg_mapper202(0x8009);
    assert!(c.multicart.mapper202_32k_mode);
    assert_eq!(c.mirroring, Mirroring::Horizontal);
    assert_eq!(c.read_prg_mapper202(0xC000), 2);
    c.write_prg_mapper202(0x8004);
    assert!(!c.multicart.mapper202_32k_mode);
    assert_eq!(c.mirroring, Mirroring::Vertical);
    assert_eq!(c.read_prg_mapper202(0xC000), 4);
}

#[test]
fn mapper228_chip_and_bank_selection() {
    let mut c = cart(228, 32, 8);
    c.write_prg_mapper228(0x8163, 0x01);
    assert_eq!(c.multicart.mapper228_chip_select, 0);
    assert_eq!(c.prg_bank, 5);
    assert!(c.multicart.mapper228_nrom128);
    assert_eq!(c.chr_bank, 5);
    assert_eq!(c.mirroring, Mirroring::Vertical);
    assert_eq!(c.read_prg_mapper228(0x8000), 10);
    assert_eq!(c.read_prg_mapper228(0xC000), 10);
    c.write_prg_mapper228(0xA800, 0x00);
    assert_eq!(c.multicart.mapper228_chip_select, 1);
    assert_eq!(c.mirroring, Mirroring::Horizontal);
    assert_eq!(c.read_prg_mapper228(0x8000), 0);
}

#[test]
fn mapper242_banks_and_chr_protection() {
    let mut c = cart(242, 16, 1);
    c.write_prg_mapper242(0x808E);
    assert_eq!(c.multicart.mapper242_latch, 0x008E);
    assert_eq!(c.mirroring, Mirroring::Horizontal);
    assert_eq!(c.read_prg_mapper242(0x8000), 6);
    assert_eq!(c.read_prg_mapper242(0xC000), 6);
    c.write_chr_mapper242(0x0000, 0x77);
    assert_eq!(c.read_chr_nrom(0x0000), 0);
    c.write_prg_mapper242(0x8000);
    c.write_chr_mapper242(0x0000, 0x77);
    assert_eq!(c.read_chr_nrom(0x0000), 0x77);
    assert_eq!(c.read_prg_mapper242(0xC000), 0);
}

#[test]
fn mapper234_registers_and_lock() {
    let mut c = cart(234, 4, 4);
    c.apply_mapper234_value(0xFF80, 0x41);
    assert_eq!(c.multicart.mapper234_reg0, 0x41);
    assert_eq!(c.mirroring, Mirroring::Vertical);
    c.apply_mapper234_value(0xFFE8, 0x31);
    assert_eq!(c.prg_bank, 1);
    assert_eq!(c.chr_bank, 3);
    c.apply_mapper234_value(0xFF80, 0x80);
    assert_eq!(c.multicart.mapper234_reg0, 0x41);
    assert_eq!(c.read_prg_mapper234(0x8000), 4);
}

#[test]
fn mapper234_write_conflicts_with_rom() {
    let mut c = cart(234, 4, 4);
    c.write_prg_mapper234(0xFFE8, 0xFF);
    assert_eq!(c.multicart.mapper234_reg1, 3);
}

#[test]
fn cprom_upper_page_switches() {
    let mut c = cart(13, 2, 0);
    c.write_prg_cprom(0xE000, 0x03);
    assert_eq!(c.chr_bank, 3);
    c.write_chr_cprom(0x1005, 0x42);
    assert_eq!(c.read_chr_cprom(0x1005), 0x42);
    assert_eq!(c.read_chr_cprom(0x0005), 0);
    c.write_prg_cprom(0x8000, 0x03);
    assert_eq!(c.chr_bank, 0);
    assert_eq!(c.read_chr_cprom(0x1005), 0);
}

#[test]
fn mapper231_lower_half_clears_bit0() {
    let mut c = cart(231, 8, 0);
    c.write_prg_mapper231(0x80A4);
    assert_eq!(c.prg_bank, 5);
    assert_eq!(c.mirroring, Mirroring::Horizontal);
    assert_eq!(c.read_prg_mapper231(0x8000), 8);
    assert_eq!(c.read_prg_mapper231(0xC000), 10);
}

#[test]
fn mapper233_pairs_or_mirrors_the_page() {
    let mut c = cart(233, 8, 1);
    c.prg_bank = 5;
    assert_eq!(c.read_prg_mapper233(0x8000), 8);
    assert_eq!(c.read_prg_mapper233(0xC000), 10);
    assert_eq!(c.read_prg_mapper233(0x6000), 0);
    c.multicart.mapper233_nrom128 = true;
    assert_eq!(c.read_prg_mapper233(0x8000), 10);
}

#[test]
fn mapper230_contra_and_multicart_modes() {
    let mut c = cart(230, 16, 1);
    assert!(c.mapper230_contra_mode);
    c.write_prg_mapper230(0x8000, 0x05);
    assert_eq!(c.prg_bank, 5);
    assert_eq!(c.mirroring, Mirroring::Vertical);
    assert_eq!(c.read_prg_mapper230(0x8000), 10);
    assert_eq!(c.read_prg_mapper230(0xC000), 14);
    c.mapper230_contra_mode = false;
    c.write_prg_mapper230(0x8000, 0x21);
    assert_eq!(c.prg_bank, 1);
    assert!(c.multicart.mapper230_nrom128);
    assert_eq!(c.mirroring, Mirroring::Horizontal);
    assert_eq!(c.read_prg_mapper230(0x8000), 18);
    assert_eq!(c.read_prg_mapper230(0xC000), 18);
}

#[test]
fn mapper58_latches_banks_from_address() {
    let mut c = cart(58, 8, 8);
    c.write_prg_mapper58(0x80DB);
    assert_eq!(c.prg_bank, 3);
    assert_eq!(c.chr_bank, 3);
    assert!(c.multicart.mapper58_nrom128);
    assert_eq!(c.mirroring, Mirroring::Horizontal);
    assert_eq!(c.read_prg_mapper58(0xC000), 6);
    c.write_prg_mapper58(0x8003);
    assert!(!c.multicart.mapper58_nrom128);
    assert_eq!(c.read_prg_mapper58(0x8000), 4);
    assert_eq!(c.read_prg_mapper58(0xC000), 6);
}

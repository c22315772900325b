use nes_emulator::cartridge::load::Cartridge;
use nes_emulator::cartridge::mapper::mmc3::Mmc3;
use nes_emulator::cartridge::Mirroring;

fn image(mapper: u8, prg_banks: u8, chr_banks: u8) -> Vec<u8> {
    let mut data = vec![0x4E, 0x45, 0x53, 0x1A, prg_banks, chr_banks, (mapper & 0x0F) << 4, mapper & 0xF0];
    data.resize(16, 0);
    for i in 0..(prg_banks as usize * 16384) {
        data.push((i / 0x2000) as u8);
    }
    for i in 0..(chr_banks as usize * 8192) {
        data.push((i / 0x400) as u8);
    }
    data
}

fn cart(mapper: u8, prg_banks: u8, chr_banks: u8) -> Cartridge {
    match Cartridge::load(&image(mapper, prg_banks, chr_banks)) {
        Ok(c) => c,
        Err(_) => panic!("image refused"),
    }
}

#[test]
fn mmc3_prg_banks_follow_mode() {
    let rom: Vec<u8> = (0..16u8).flat_map(|b| vec![b; 0x2000]).collect();
    let mut m = Mmc3::new();
    m.write_register(0x8000, 0x06);
    m.write_register(0x8001, 0x03);
    m.write_register(0x8000, 0x07);
    m.write_register(0x8001, 0x05);
    assert_eq!(m.read_prg(0x8000, &rom), 3);
    assert_eq!(m.read_prg(0xA000, &rom), 5);
    assert_eq!(m.read_prg(0xC000, &rom), 14);
    assert_eq!(m.read_prg(0xE000, &rom), 15);
    m.write_register(0x8000, 0x46);
    assert_eq!(m.read_prg(0x8000, &rom), 14);
    assert_eq!(m.read_prg(0xC000, &rom), 3);
}

#[test]
fn mmc3_chr_banks_and_inversion() {
    let chr: Vec<u8> = (0..64u8).flat_map(|b| vec![b; 0x400]).collect();
    let mut m = Mmc3::new();
    m.write_register(0x8000, 0x00);
    m.write_register(0x8001, 0x09);
    m.write_register(0x8000, 0x02);
    m.write_register(0x8001, 0x21);
    assert_eq!(m.read_chr(0x0000, &chr, &Vec::new()), 8);
    assert_eq!(m.read_chr(0x0400, &chr, &Vec::new()), 9);
    assert_eq!(m.read_chr(0x1000, &chr, &Vec::new()), 0x21);
    m.write_register(0x8000, 0x80);
    assert_eq!(m.read_chr(0x0000, &chr, &Vec::new()), 0x21);
    assert_eq!(m.read_chr(0x1400, &chr, &Vec::new()), 9);
}

#[test]
fn mmc3_mirroring_ram_protect_and_irq_registers() {
    let mut m = Mmc3::new();
    assert_eq!(m.write_register(0xA000, 0x01), Some(Mirroring::Horizontal));
    assert_eq!(m.write_register(0xA000, 0x00), Some(Mirroring::Vertical));
    let mut ram = vec![0u8; 0x2000];
    m.write_register(0xA001, 0xC0);
    m.write_prg_ram(0x6001, 0x55, &mut ram);
    assert_eq!(ram[1], 0);
    m.write_register(0xA001, 0x80);
    m.write_prg_ram(0x6001, 0x55, &mut ram);
    assert_eq!(m.read_prg_ram(0x6001, &ram), 0x55);
    m.write_register(0xC000, 2);
    m.write_register(0xC001, 0);
    m.write_register(0xE001, 0);
    m.clock_irq_mut();
    m.clock_irq_mut();
    assert!(!m.irq_pending);
    m.clock_irq_mut();
    assert!(m.irq_pending);
    m.write_register(0xE000, 0);
    assert!(!m.irq_pending && !m.irq_enabled);
}

#[test]
fn mmc3_chr_ram_writes_through_banks() {
    let mut m = Mmc3::new();
    let mut chr_ram = vec![0u8; 0x2000];
    m.write_register(0x8000, 0x05);
    m.write_register(0x8001, 0x03);
    m.write_chr(0x1C10, 0xAB, &mut chr_ram);
    assert_eq!(chr_ram[3 * 0x400 + 0x10], 0xAB);
    assert_eq!(m.read_chr(0x1C10, &Vec::new(), &chr_ram), 0xAB);
}

#[test]
fn sunsoft4_board_registers() {
    let mut c = cart(68, 8, 16);
    c.write_prg_sunsoft4(0x8000, 0x05);
    assert_eq!(c.chr_bank, 5);
    assert_eq!(c.read_chr_sunsoft4(0x0000), 10);
    c.write_prg_sunsoft4(0xE000, 0x11);
    assert_eq!(c.mirroring, Mirroring::Horizontal);
    c.write_prg_sunsoft4(0xF000, 0x13);
    assert_eq!(c.prg_bank, 3);
    assert_eq!(c.read_prg_sunsoft4(0x8000), 6);
    assert_eq!(c.read_prg_sunsoft4(0xC000), 14);
    c.write_prg_ram_sunsoft4(0x6002, 0x99);
    assert_eq!(c.read_prg_ram_sunsoft4(0x6002), 0x99);
    assert!(c.has_valid_save_data);
    c.write_prg_sunsoft4(0xC000, 0x07);
    assert_eq!(c.read_sunsoft4_nametable_chr(0, 5), 0x87 % 128);
}

#[test]
fn sunsoft4_prg_ram_disabled_reads_zero() {
    let mut c = cart(68, 8, 16);
    c.write_prg_ram_sunsoft4(0x6000, 0x42);
    assert_eq!(c.read_prg_ram_sunsoft4(0x6000), 0);
    assert!(!c.has_valid_save_data);
}

#[test]
fn uxrom_bank_switch_with_bus_conflict() {
    let mut c = cart(2, 8, 0);
    c.prg_rom[0x4000 * 7] = 0x06;
    c.write_prg_uxrom(0xC000, 0x07);
    assert_eq!(c.prg_bank, 6);
    assert_eq!(c.read_prg_uxrom(0x8000, 0x0000), 12);
    assert_eq!(c.read_prg_uxrom(0xE000, 0x6000), 15);
    c.write_chr_uxrom(0x0123, 0x77);
    assert_eq!(c.read_chr_uxrom(0x2123), 0x77);
}

#[test]
fn axrom_selects_bank_and_screen() {
    let mut c = cart(7, 8, 0);
    c.write_prg_axrom(0x8000, 0x12);
    assert_eq!(c.prg_bank, 2);
    assert_eq!(c.mirroring, Mirroring::OneScreenUpper);
    assert_eq!(c.read_prg_axrom(0x8000), 8);
}

#[test]
fn cnrom_bus_conflict_masks_chr_bank() {
    let mut c = cart(3, 2, 4);
    c.prg_rom[0x0010] = 0x01;
    c.write_prg_cnrom(0x8010, 0x03);
    assert_eq!(c.chr_bank, 1);
    assert_eq!(c.read_chr_cnrom(0x0400), 9);
    c.write_prg_mapper87(0x6000, 0x01);
    assert_eq!(c.chr_bank, 2);
}

#[test]
fn color_dreams_and_camerica_latches() {
    let mut c = cart(11, 8, 8);
    c.write_prg_color_dreams(0x8000, 0x52);
    assert_eq!(c.prg_bank, 2);
    assert_eq!(c.chr_bank, 5);
    let mut c = cart(71, 8, 0);
    c.write_prg_camerica(0xC000, 13);
    assert_eq!(c.prg_bank, 5);
    c.write_prg_camerica(0x9000, 0x10);
    assert_eq!(c.mirroring, Mirroring::OneScreenUpper);
}

#[test]
fn jaleco_boards_select_prg_chr_and_screen() {
    let mut c = cart(152, 8, 8);
    c.prg_rom[0] = 0xFF;
    c.write_prg_mapper152(0x8000, 0xB3);
    assert_eq!(c.prg_bank, 3);
    assert_eq!(c.chr_bank, 3);
    assert_eq!(c.mirroring, Mirroring::OneScreenUpper);
    let mut c = cart(70, 8, 8);
    c.prg_rom[0] = 0xFF;
    c.write_prg_mapper70(0x8000, 0x95);
    assert_eq!(c.prg_bank, 1);
    assert_eq!(c.chr_bank, 5);
}

#[test]
fn inverted_uxrom_and_tam_s1() {
    let mut c = cart(180, 8, 0);
    c.prg_rom[0x0005] = 0xFF;
    c.write_prg_uxrom_inverted(0x8005, 0x03);
    assert_eq!(c.prg_bank, 3);
    assert_eq!(c.read_prg_uxrom_inverted(0xC000, 0x4000), 6);
    assert_eq!(c.read_prg_uxrom_inverted(0x8000, 0x0000), 0);
    let mut c = cart(97, 8, 0);
    c.write_prg_mapper97(0x8000, 0x82);
    assert_eq!(c.mirroring, Mirroring::Vertical);
    assert_eq!(c.read_prg_fixed_last_switch_high(0xC000, 0x4000), 4);
    assert_eq!(c.read_prg_fixed_last_switch_high(0x8000, 0x0000), 14);
    c.write_prg_mapper81(0x800E);
    assert_eq!(c.prg_bank, 3);
    assert_eq!(c.chr_bank, 2);
}

#[test]
fn vrc4_registers_on_mapper21() {
    let mut c = cart(21, 16, 16);
    c.write_prg_mapper23(0x8000, 0x05);
    assert_eq!(c.prg_bank, 5);
    assert_eq!(c.read_prg_mapper23(0x8000), 5);
    c.write_prg_mapper23(0xA000, 0x07);
    assert_eq!(c.read_prg_mapper23(0xA000), 7);
    assert_eq!(c.read_prg_mapper23(0xC000), 30);
    assert_eq!(c.read_prg_mapper23(0xE000), 31);
    c.write_prg_mapper23(0x9004, 0x02);
    match &c.vrc2_vrc4 {
        Some(v) => assert!(v.vrc4_mode && v.prg_swap_mode && !v.wram_enabled),
        None => panic!("no chip"),
    }
    assert_eq!(c.read_prg_mapper23(0x8000), 30);
    assert_eq!(c.read_prg_mapper23(0xC000), 5);
    c.write_prg_mapper23(0x9000, 0x03);
    assert_eq!(c.mirroring, Mirroring::OneScreenUpper);
}

#[test]
fn vrc4_chr_nibbles_and_irq_on_mapper21() {
    let mut c = cart(21, 16, 16);
    c.write_prg_mapper23(0xB000, 0x03);
    c.write_prg_mapper23(0xB002, 0x01);
    assert_eq!(c.chr_bank, 0x13);
    assert_eq!(c.read_chr_mapper23(0x0000), 0x13);
    c.write_prg_mapper23(0xF000, 0x0E);
    c.write_prg_mapper23(0xF002, 0x0F);
    c.write_prg_mapper23(0xF004, 0x02);
    match &c.vrc2_vrc4 {
        Some(v) => {
            assert_eq!(v.irq_latch, 0xFE);
            assert!(v.irq_enabled);
            assert_eq!(v.irq_counter, 0xFE);
            assert_eq!(v.irq_prescaler, 341);
        }
        None => panic!("no chip"),
    }
}

#[test]
fn vrc2_mirroring_and_latch_on_mapper22() {
    let mut c = cart(22, 8, 16);
    c.write_prg_mapper23(0x9000, 0x01);
    assert_eq!(c.mirroring, Mirroring::Horizontal);
    c.write_prg_mapper23(0xB000, 0x06);
    assert_eq!(c.read_chr_mapper23(0x0000), 3);
    assert_eq!(c.read_prg_ram_mapper23(0x6000), 0x60);
    c.write_prg_ram_mapper23(0x6000, 0x01);
    assert_eq!(c.read_prg_ram_mapper23(0x6000), 0x61);
    assert_eq!(c.read_prg_ram_mapper23(0x7000), 0x70);
}

#[test]
fn vrc4_wram_when_enabled() {
    let mut c = cart(23, 8, 16);
    c.write_prg_mapper23(0x9002, 0x01);
    c.write_prg_ram_mapper23(0x6010, 0x42);
    assert_eq!(c.read_prg_ram_mapper23(0x6010), 0x42);
    assert_eq!(c.prg_ram[0x10], 0x42);
}

#[test]
fn mmc2_latches_switch_chr_banks() {
    let mut c = cart(9, 8, 16);
    c.write_prg_mmc2(0xB000, 0x04);
    c.write_prg_mmc2(0xC000, 0x05);
    assert_eq!(c.read_chr_mmc2(0x0000), 20);
    assert_eq!(c.read_chr_mmc2(0x0FD8), 23);
    assert_eq!(c.read_chr_mmc2(0x0000), 16);
    assert_eq!(c.read_chr_mmc2(0x0FE8), 19);
    assert_eq!(c.read_chr_mmc2(0x0400), 21);
}

#[test]
fn mmc2_prg_and_mirroring() {
    let mut c = cart(9, 8, 16);
    c.write_prg_mmc2(0xA000, 0x03);
    assert_eq!(c.read_prg_mmc2(0x8000, 0x0000), 3);
    assert_eq!(c.read_prg_mmc2(0xA000, 0x2000), 13);
    assert_eq!(c.read_prg_mmc2(0xE000, 0x6000), 15);
    c.write_prg_mmc2(0xF000, 0x01);
    assert_eq!(c.mirroring, Mirroring::Horizontal);
    let mut c = cart(10, 8, 16);
    c.write_prg_mmc2(0xA000, 0x02);
    assert_eq!(c.read_prg_mmc2(0x8000, 0x0000), 4);
    assert_eq!(c.read_prg_mmc2(0xC000, 0x4000), 14);
    c.write_prg_ram_mmc2(0x6001, 0x5A);
    assert_eq!(c.read_prg_ram_mmc2(0x6001), 0x5A);
}

#[test]
fn mapper40_fixed_banks_and_counter_control() {
    let mut c = cart(40, 4, 1);
    assert_eq!(c.read_prg_mapper40(0x8000), 4);
    assert_eq!(c.read_prg_mapper40(0xA000), 5);
    assert_eq!(c.read_prg_mapper40(0xE000), 7);
    assert_eq!(c.read_prg_ram_mapper40(0x6000), 6);
    c.write_prg_mapper40(0xE000, 3);
    assert_eq!(c.read_prg_mapper40(0xC000), 3);
    c.write_prg_mapper40(0xA000, 0);
    assert!(c.mapper40.as_ref().map(|m| m.irq_enabled).unwrap_or(false));
    c.write_prg_mapper40(0x8000, 0);
    assert!(!c.mapper40.as_ref().map(|m| m.irq_enabled).unwrap_or(true));
}

#[test]
fn mapper42_register_sets_bank_mirroring_and_counter() {
    let mut c = cart(42, 4, 1);
    assert_eq!(c.read_prg_mapper42(0x8000), 4);
    assert_eq!(c.read_prg_mapper42(0xC000), 6);
    assert_eq!(c.read_prg_mapper42(0xE000), 7);
    c.write_prg_mapper42(0x8000, 0x35);
    assert_eq!(c.prg_bank, 5);
    assert_eq!(c.mirroring, Mirroring::Horizontal);
    assert_eq!(c.read_prg_ram_mapper42(0x6000), 5);
    assert!(c.mapper42.as_ref().map(|m| m.irq_enabled).unwrap_or(false));
}

#[test]
fn mapper43_windows_and_bank_table() {
    let mut c = cart(43, 8, 1);
    assert_eq!(c.read_prg_mapper43(0x8000), 1);
    assert_eq!(c.read_prg_mapper43(0xA000), 0);
    c.write_prg_mapper43(0x4022, 5);
    assert_eq!(c.read_prg_mapper43(0xC000), 7);
    assert_eq!(c.read_prg_mapper43(0xE000), 9);
    assert_eq!(c.read_prg_low_mapper43(0x5800), 8);
    assert_eq!(c.read_prg_ram_mapper43(0x6000), 2);
    c.write_prg_mapper43(0x4122, 1);
    assert!(c.mapper43.as_ref().map(|m| m.irq_enabled).unwrap_or(false));
}

#[test]
fn mapper50_scrambled_bank_register() {
    let mut c = cart(50, 8, 1);
    assert_eq!(c.read_prg_mapper50(0x8000), 8);
    assert_eq!(c.read_prg_mapper50(0xA000), 9);
    assert_eq!(c.read_prg_mapper50(0xE000), 11);
    assert_eq!(c.read_prg_ram_mapper50(0x6000), 15);
    c.write_prg_mapper50(0x4020, 0x01);
    assert_eq!(c.read_prg_mapper50(0xC000), 4);
    c.write_prg_mapper50(0x4120, 0x01);
    assert!(c.mapper50.as_ref().map(|m| m.irq_enabled).unwrap_or(false));
}

#[test]
fn vrc6_prg_chr_banks_and_control() {
    let mut c = cart(24, 8, 16);
    c.write_prg_vrc6(0x8000, 0x03);
    assert_eq!(c.prg_bank, 3);
    assert_eq!(c.read_prg_vrc6(0x8000), 6);
    assert_eq!(c.read_prg_vrc6(0xA000), 7);
    c.write_prg_vrc6(0xC000, 0x05);
    assert_eq!(c.read_prg_vrc6(0xC000), 5);
    assert_eq!(c.read_prg_vrc6(0xE000), 15);
    c.write_prg_vrc6(0xD000, 9);
    assert_eq!(c.chr_bank, 9);
    assert_eq!(c.read_chr_vrc6(0x0000), 9);
    assert_eq!(c.read_prg_ram_vrc6(0x6010), 0);
    c.write_prg_vrc6(0xB003, 0x84);
    assert_eq!(c.mirroring, Mirroring::Horizontal);
    c.write_prg_ram_vrc6(0x6010, 0x33);
    assert_eq!(c.read_prg_ram_vrc6(0x6010), 0x33);
    c.write_prg_vrc6(0x9003, 0x04);
    assert_eq!(c.vrc6.as_ref().map(|v| v.audio_freq_shift), Some(8));
}

#[test]
fn vrc6_mapper26_swaps_register_lines() {
    let mut c = cart(26, 8, 16);
    c.write_prg_vrc6(0xD001, 7);
    assert_eq!(c.read_chr_vrc6(0x0800), 7);
    c.write_prg_vrc6(0xF000, 0x20);
    c.write_prg_vrc6(0xF002, 0x02);
    let v = c.vrc6.as_ref().map(|v| (v.irq_latch, v.irq_enabled, v.irq_counter));
    assert_eq!(v, Some((0x20, true, 0x20)));
}

#[test]
fn taito_tc0190_banks_and_mirroring() {
    let mut c = cart(33, 8, 16);
    c.write_prg_taito_tc0190(0x8000, 0x45);
    assert_eq!(c.prg_bank, 5);
    assert_eq!(c.mirroring, Mirroring::Horizontal);
    assert_eq!(c.read_prg_taito_tc0190(0x8000), 5);
    c.write_prg_taito_tc0190(0x8001, 0x07);
    assert_eq!(c.read_prg_taito_tc0190(0xA000), 7);
    assert_eq!(c.read_prg_taito_tc0190(0xC000), 14);
    assert_eq!(c.read_prg_taito_tc0190(0xE000), 15);
    assert_eq!(c.read_prg_taito_tc0190(0x6000), 0);
    c.write_prg_taito_tc0190(0x8002, 3);
    assert_eq!(c.chr_bank, 3);
    assert_eq!(c.read_chr_taito_tc0190(0x0000), 6);
    assert_eq!(c.read_chr_taito_tc0190(0x0400), 7);
    c.write_prg_taito_tc0190(0xA003, 0x21);
    assert_eq!(c.read_chr_taito_tc0190(0x1C00), 0x21);
    c.write_prg_taito_tc0190(0x8000, 0x02);
    assert_eq!(c.mirroring, Mirroring::Vertical);
}

#[test]
fn taito_x1005_registers_and_ram() {
    let mut c = cart(80, 8, 16);
    c.write_prg_ram_taito_x1005(0x7EF8, 4);
    assert_eq!(c.prg_bank, 4);
    assert_eq!(c.read_prg_taito_x1005(0x8000), 4);
    c.write_prg_ram_taito_x1005(0x7EFA, 0x09);
    assert_eq!(c.read_prg_taito_x1005(0xC000), 9);
    assert_eq!(c.read_prg_taito_x1005(0xE000), 15);
    c.write_prg_ram_taito_x1005(0x7EF6, 1);
    assert_eq!(c.mirroring, Mirroring::Vertical);
    c.write_prg_ram_taito_x1005(0x7EF6, 0);
    assert_eq!(c.mirroring, Mirroring::Horizontal);
    c.write_prg_ram_taito_x1005(0x7EF0, 2);
    assert_eq!(c.chr_bank, 2);
    assert_eq!(c.read_chr_taito_x1005(0x0400), 5);
    c.write_prg_ram_taito_x1005(0x7F05, 0xAB);
    assert_eq!(c.read_prg_ram_taito_x1005(0x7F85), 0xAB);
    c.write_prg_ram_taito_x1005(0x7EFA, 0x01);
    assert_eq!(c.read_prg_ram_taito_x1005(0x7F05), 0);
}

#[test]
fn taito_mapper207_nametables_from_chr_bits() {
    let mut c = cart(207, 8, 16);
    c.write_prg_ram_taito_x1005(0x7EF0, 0x81);
    c.write_prg_ram_taito_x1005(0x7EF1, 0x00);
    assert_eq!(c.mirroring, Mirroring::HorizontalSwapped);
    assert_eq!(c.chr_bank, 1);
    assert_eq!(c.read_chr_taito_x1005(0x0000), 2);
    c.write_prg_ram_taito_x1005(0x7EF1, 0x80);
    assert_eq!(c.mirroring, Mirroring::OneScreenUpper);
    c.write_prg_ram_taito_x1005(0x7EF0, 0x01);
    assert_eq!(c.mirroring, Mirroring::Horizontal);
    c.write_prg_ram_taito_x1005(0x7EF1, 0x00);
    assert_eq!(c.mirroring, Mirroring::OneScreenLower);
}

#[test]
fn taito_x1017_inversion_and_ram_keys() {
    let mut c = cart(82, 8, 16);
    c.write_prg_ram_taito_x1017(0x7EFA, 0x14);
    assert_eq!(c.prg_bank, 5);
    assert_eq!(c.read_prg_taito_x1017(0x8000), 5);
    c.write_prg_ram_taito_x1017(0x7EF0, 0x83);
    assert_eq!(c.chr_bank, 3);
    c.write_prg_ram_taito_x1017(0x7EF2, 9);
    assert_eq!(c.read_chr_taito_x1017(0x0000), 6);
    assert_eq!(c.read_chr_taito_x1017(0x1000), 9);
    c.write_prg_ram_taito_x1017(0x7EF6, 0x03);
    assert_eq!(c.mirroring, Mirroring::Vertical);
    assert_eq!(c.read_chr_taito_x1017(0x1000), 6);
    assert_eq!(c.read_chr_taito_x1017(0x0000), 9);
    c.write_prg_ram_taito_x1017(0x6010, 0x55);
    assert_eq!(c.read_prg_ram_taito_x1017(0x6010), 0);
    c.write_prg_ram_taito_x1017(0x7EF7, 0xCA);
    c.write_prg_ram_taito_x1017(0x6010, 0x55);
    assert_eq!(c.read_prg_ram_taito_x1017(0x6010), 0x55);
    c.write_prg_ram_taito_x1017(0x7000, 0x66);
    assert_eq!(c.read_prg_ram_taito_x1017(0x7000), 0);
    c.write_prg_ram_taito_x1017(0x7EF9, 0x84);
    c.write_prg_ram_taito_x1017(0x7000, 0x66);
    assert_eq!(c.read_prg_ram_taito_x1017(0x7000), 0x66);
}

fn mmc1_serial(c: &mut Cartridge, addr: u16, value: u8) {
    for k in 0..5 {
        c.write_prg_mmc1(addr, (value >> k) & 1);
    }
}

#[test]
fn mmc1_board_prg_modes_follow_control() {
    let mut c = cart(1, 8, 2);
    mmc1_serial(&mut c, 0xE000, 0x02);
    assert_eq!(c.read_prg_mmc1(0x8000, 0x0000), 4);
    assert_eq!(c.read_prg_mmc1(0xC000, 0x4000), 14);
    assert_eq!(c.read_prg_mmc1(0xE000, 0x6000), 15);
    mmc1_serial(&mut c, 0x8000, 0x02);
    assert_eq!(c.mirroring, Mirroring::Vertical);
    assert_eq!(c.read_prg_mmc1(0x8000, 0x0000), 4);
    assert_eq!(c.read_prg_mmc1(0xC000, 0x4000), 6);
    mmc1_serial(&mut c, 0x8000, 0x0B);
    assert_eq!(c.mirroring, Mirroring::Horizontal);
    assert_eq!(c.read_prg_mmc1(0x8000, 0x0000), 0);
    assert_eq!(c.read_prg_mmc1(0xC000, 0x4000), 4);
    c.write_prg_mmc1(0x8000, 0x80);
    assert_eq!(c.mmc1.as_ref().map(|m| m.control & 0x0C), Some(0x0C));
}

#[test]
fn mmc1_board_chr_windows() {
    let mut c = cart(1, 8, 2);
    mmc1_serial(&mut c, 0x8000, 0x02);
    mmc1_serial(&mut c, 0xA000, 0x03);
    assert_eq!(c.read_chr_mmc1(0x0000), 8);
    assert_eq!(c.read_chr_mmc1(0x1C00), 15);
    mmc1_serial(&mut c, 0x8000, 0x12);
    assert_eq!(c.read_chr_mmc1(0x0000), 12);
    mmc1_serial(&mut c, 0xC000, 0x01);
    assert_eq!(c.read_chr_mmc1(0x1400), 5);
    c.write_chr_mmc1(0x1400, 0xEE);
    assert_eq!(c.read_chr_mmc1(0x1400), 0xEE);
    assert_eq!(c.read_chr_mmc1(0x0000), 12);
}

#[test]
fn mmc1_board_save_ram_and_disable_bits() {
    let mut c = cart(1, 8, 2);
    assert!(!c.has_valid_save_data);
    c.write_prg_ram_mmc1(0x6010, 0x42);
    assert_eq!(c.read_prg_ram_mmc1(0x6010), 0x42);
    c.write_prg_ram_mmc1(0x60B7, 0x5A);
    assert!(c.has_valid_save_data);
    mmc1_serial(&mut c, 0xE000, 0x10);
    assert_eq!(c.read_prg_ram_mmc1(0x6010), 0x42);
    mmc1_serial(&mut c, 0x8000, 0x12);
    assert_eq!(c.read_prg_ram_mmc1(0x6010), 0);
    c.write_prg_ram_mmc1(0x6010, 0x99);
    mmc1_serial(&mut c, 0xE000, 0x00);
    assert_eq!(c.read_prg_ram_mmc1(0x6010), 0x42);
}

#[test]
fn mmc3_board_prg_chr_ram_and_irq() {
    let mut c = cart(4, 8, 16);
    c.write_prg_mmc3(0x8000, 6);
    c.write_prg_mmc3(0x8001, 3);
    assert_eq!(c.read_prg_mmc3(0x8000), 3);
    assert_eq!(c.read_prg_mmc3(0xC000), 14);
    assert_eq!(c.read_prg_mmc3(0xE000), 15);
    assert_eq!(c.read_prg_mmc3(0x6000), 0);
    c.write_prg_mmc3(0x8000, 0x46);
    assert_eq!(c.read_prg_mmc3(0x8000), 14);
    assert_eq!(c.read_prg_mmc3(0xC000), 3);
    c.write_prg_mmc3(0xA000, 1);
    assert_eq!(c.mirroring, Mirroring::Horizontal);
    c.write_prg_mmc3(0x8000, 0x00);
    c.write_prg_mmc3(0x8001, 5);
    assert_eq!(c.read_chr_mmc3(0x0000), 4);
    assert_eq!(c.read_chr_mmc3(0x0400), 5);
    c.write_prg_ram_mmc3(0x6000, 7);
    assert_eq!(c.read_prg_ram_mmc3(0x6000), 7);
    c.write_prg_mmc3(0xA001, 0xC0);
    c.write_prg_ram_mmc3(0x6000, 9);
    assert_eq!(c.read_prg_ram_mmc3(0x6000), 7);
    c.write_prg_mmc3(0xA001, 0x00);
    assert_eq!(c.read_prg_ram_mmc3(0x6000), 0);
    c.write_prg_mmc3(0xC000, 1);
    c.write_prg_mmc3(0xC001, 0);
    c.write_prg_mmc3(0xE001, 0);
    c.clock_irq_counter();
    assert_eq!(c.mmc3.as_ref().map(|m| (m.irq_counter, m.irq_pending)), Some((1, false)));
    c.clock_irq_counter();
    assert_eq!(c.mmc3.as_ref().map(|m| (m.irq_counter, m.irq_pending)), Some((0, true)));
}

#[test]
fn mmc3_chr_ram_board_writes_pattern_memory() {
    let mut c = cart(4, 8, 0);
    c.write_prg_mmc3(0x8000, 2);
    c.write_prg_mmc3(0x8001, 3);
    c.write_chr_mmc3(0x1005, 0x77);
    assert_eq!(c.read_chr_mmc3(0x1005), 0x77);
    assert_eq!(c.chr_ram[3 * 0x400 + 5], 0x77);
}

#[test]
fn mapper74_banks_eight_and_nine_are_chr_ram() {
    let mut c = cart(74, 8, 16);
    c.write_prg_mmc3(0x8000, 2);
    c.write_prg_mmc3(0x8001, 8);
    c.write_prg_mmc3(0x8000, 3);
    c.write_prg_mmc3(0x8001, 9);
    c.write_prg_mmc3(0x8000, 4);
    c.write_prg_mmc3(0x8001, 7);
    c.write_chr_mixed_mmc3(0x1000, 0xAB);
    c.write_chr_mixed_mmc3(0x1401, 0xCD);
    assert_eq!(c.read_chr_mixed_mmc3(0x1000), 0xAB);
    assert_eq!(c.chr_ram[0x000], 0xAB);
    assert_eq!(c.chr_ram[0x401], 0xCD);
    assert_eq!(c.read_chr_mixed_mmc3(0x1800), 7);
    c.write_chr_mixed_mmc3(0x1800, 0x11);
    assert_eq!(c.read_chr_mixed_mmc3(0x1800), 7);
}

#[test]
fn mapper195_chr_rom_writes_select_ram_window() {
    let mut c = cart(195, 8, 16);
    assert_eq!(c.mapper195_mode, 0x80);
    c.write_prg_mmc3(0x8000, 2);
    c.write_prg_mmc3(0x8001, 0x29);
    c.write_chr_mixed_mmc3(0x1000, 0x33);
    assert_eq!(c.chr_ram[0x400], 0x33);
    assert_eq!(c.read_chr_mixed_mmc3(0x1000), 0x33);
    c.write_prg_mmc3(0x8000, 3);
    c.write_prg_mmc3(0x8001, 0x00);
    c.write_chr_mixed_mmc3(0x1400, 0x99);
    assert_eq!(c.mapper195_mode, 0x82);
    c.write_chr_mixed_mmc3(0x1400, 0x5A);
    assert_eq!(c.read_chr_mixed_mmc3(0x1400), 0x5A);
    assert_eq!(c.read_chr_mixed_mmc3(0x1000), 0x29);
    assert_eq!(c.resolve_mapper195_chr_bank(0x02), (true, 2));
    assert_eq!(c.resolve_mapper195_chr_bank(0x29), (false, 0x29));
}

#[test]
fn mapper191_outer_bank_moves_fixed_prg_banks() {
    let mut small = cart(191, 8, 16);
    assert!(!small.mapper191_outer_bank_writable());
    small.write_prg_mapper191(0x90AA, 1);
    assert_eq!(small.mapper191_effective_outer_bank(), 3);
    assert_eq!(small.read_prg_mapper191(0xC000), 14);
    assert_eq!(small.read_prg_mapper191(0xE000), 15);
    small.write_prg_mapper191(0x8000, 2);
    small.write_prg_mapper191(0x8001, 0x81);
    small.write_chr_mixed_mmc3(0x1000, 0x44);
    assert_eq!(small.chr_ram[0x400], 0x44);

    let mut big = cart(191, 8, 32);
    assert!(big.mapper191_outer_bank_writable());
    assert_eq!(big.read_prg_mapper191(0xC000), 8);
    assert_eq!(big.read_prg_mapper191(0xE000), 9);
    big.write_prg_mapper191(0x90AA, 2);
    assert_eq!(big.mapper191_outer_bank, 2);
    assert_eq!(big.read_prg_mapper191(0xC000), 12);
    assert_eq!(big.read_prg_mapper191(0xE000), 13);
    big.write_prg_mapper191(0x8000, 2);
    big.write_prg_mapper191(0x8001, 2);
    assert_eq!(big.read_chr_mixed_mmc3(0x1000), 130);
}

#[test]
fn mapper245_borrows_a_chr_bit_for_prg() {
    let mut c = cart(245, 32, 0);
    c.write_prg_mmc3(0x8000, 0);
    c.write_prg_mmc3(0x8001, 2);
    c.write_prg_mmc3(0x8000, 6);
    c.write_prg_mmc3(0x8001, 1);
    assert_eq!(c.read_prg_mapper245(0x8000), 33);
    assert_eq!(c.read_prg_mapper245(0xC000), 62);
    assert_eq!(c.read_prg_mapper245(0xE000), 63);
    c.write_prg_mmc3(0x8000, 0);
    c.write_prg_mmc3(0x8001, 0);
    assert_eq!(c.read_prg_mapper245(0x8000), 1);
    assert_eq!(c.read_prg_mapper245(0xE000), 31);
    c.write_chr_mapper245(0x2123, 0x6B);
    assert_eq!(c.read_chr_mapper245(0x0123), 0x6B);
}

#[test]
fn mapper250_registers_on_the_address_bus() {
    let mut c = cart(250, 8, 16);
    c.write_prg_mapper250(0x8006, 0);
    c.write_prg_mapper250(0x8403, 0);
    assert_eq!(c.read_prg_mmc3(0x8000), 3);
    c.write_prg_mapper250(0xA001, 0);
    assert_eq!(c.mirroring, Mirroring::Horizontal);
    c.write_prg_mapper250(0x6001, 0);
    assert_eq!(c.mirroring, Mirroring::Horizontal);
}

fn fme7_command(c: &mut Cartridge, cmd: u8, value: u8) {
    c.write_prg_fme7(0x8000, cmd);
    c.write_prg_fme7(0xA000, value);
}

#[test]
fn fme7_banks_window_and_mirroring() {
    let mut c = cart(69, 8, 16);
    fme7_command(&mut c, 9, 5);
    fme7_command(&mut c, 10, 6);
    fme7_command(&mut c, 11, 0x47);
    assert_eq!(c.read_prg_fme7(0x8000), 5);
    assert_eq!(c.read_prg_fme7(0xA000), 6);
    assert_eq!(c.read_prg_fme7(0xC000), 7);
    assert_eq!(c.read_prg_fme7(0xE000), 15);
    fme7_command(&mut c, 0, 3);
    fme7_command(&mut c, 7, 0x85);
    assert_eq!(c.read_chr_fme7(0x0000), 3);
    assert_eq!(c.read_chr_fme7(0x1C00), 5);
    fme7_command(&mut c, 12, 2);
    assert_eq!(c.mirroring, Mirroring::OneScreenLower);
    fme7_command(&mut c, 8, 0x85);
    assert_eq!(c.read_prg_ram_fme7(0x6000), 5);
    fme7_command(&mut c, 8, 0xC0);
    c.write_prg_ram_fme7(0x6001, 0x42);
    assert_eq!(c.read_prg_ram_fme7(0x6001), 0x42);
    fme7_command(&mut c, 8, 0x40);
    assert_eq!(c.read_prg_ram_fme7(0x6001), 0);
    c.write_prg_ram_fme7(0x6001, 0x77);
    fme7_command(&mut c, 8, 0xC0);
    assert_eq!(c.read_prg_ram_fme7(0x6001), 0x42);
}

#[test]
fn fme7_cycle_irq_and_acknowledge() {
    let mut c = cart(69, 8, 16);
    fme7_command(&mut c, 14, 2);
    fme7_command(&mut c, 15, 0);
    fme7_command(&mut c, 13, 0x81);
    c.clock_irq_counter_cycles(2);
    assert!(!c.irq_pending());
    c.clock_irq_counter_cycles(1);
    assert!(c.irq_pending());
    assert_eq!(c.fme7.as_ref().map(|f| f.irq_counter), Some(0xFFFF));
    c.acknowledge_irq();
    assert!(!c.irq_pending());
    fme7_command(&mut c, 13, 0x00);
    c.clock_irq_counter_cycles(5);
    assert_eq!(c.fme7.as_ref().map(|f| f.irq_counter), Some(0xFFFF));
}

#[test]
fn fme7_sound_levels_every_sixteen_cycles() {
    let mut c = cart(69, 8, 16);
    c.write_prg_fme7(0xC000, 8);
    c.write_prg_fme7(0xE000, 0x0F);
    c.write_prg_fme7(0xC000, 7);
    c.write_prg_fme7(0xE000, 0x3E);
    c.write_prg_fme7(0xC000, 0);
    c.write_prg_fme7(0xE000, 1);
    for _ in 0..15 {
        assert_eq!(c.clock_expansion_audio(), [0, 0, 0]);
    }
    assert_eq!(c.clock_expansion_audio(), [15, 0, 0]);
    let mut plain = cart(4, 8, 16);
    assert_eq!(plain.clock_expansion_audio(), [0, 0, 0]);
}

#[test]
fn namco108_prg_and_chr_banks() {
    let mut c = cart(206, 8, 16);
    c.write_prg_namco108(0x8000, 6);
    c.write_prg_namco108(0x8001, 0x13);
    assert_eq!(c.read_prg_namco108(0x8000), 3);
    assert_eq!(c.read_prg_namco108(0xC000), 14);
    assert_eq!(c.read_prg_namco108(0xE000), 15);
    assert_eq!(c.read_prg_namco108(0x7000), 0);
    c.write_prg_namco108(0x8000, 0);
    c.write_prg_namco108(0x8001, 5);
    assert_eq!(c.read_chr_namco108(0x0000), 4);
    assert_eq!(c.read_chr_namco108(0x0400), 5);
    c.write_chr_namco108(0x0400, 0xEE);
    assert_eq!(c.read_chr_namco108(0x0400), 0xEE);
}

#[test]
fn namco108_board_variants() {
    let mut m88 = cart(88, 8, 16);
    m88.write_prg_namco108(0x8000, 2);
    m88.write_prg_namco108(0x8001, 1);
    assert_eq!(m88.read_chr_namco108(0x1000), 0x41);

    let mut m95 = cart(95, 8, 16);
    m95.write_prg_namco108(0x8000, 0);
    m95.write_prg_namco108(0x8001, 0x21);
    assert_eq!(m95.mirroring, Mirroring::HorizontalSwapped);
    m95.write_prg_namco108(0x8000, 1);
    m95.write_prg_namco108(0x8001, 0x20);
    assert_eq!(m95.mirroring, Mirroring::OneScreenUpper);

    let mut m154 = cart(154, 8, 16);
    m154.write_prg_namco108(0x8000, 0x40);
    assert_eq!(m154.mirroring, Mirroring::OneScreenUpper);
    m154.write_prg_namco108(0xA000, 0x00);
    assert_eq!(m154.mirroring, Mirroring::OneScreenLower);

    let mut m76 = cart(76, 8, 16);
    m76.write_prg_namco108(0x8000, 2);
    m76.write_prg_namco108(0x8001, 3);
    assert_eq!(m76.read_chr_namco108(0x0000), 6);
    assert_eq!(m76.read_chr_namco108(0x0400), 7);
}

#[test]
fn vrc3_board_registers_and_ram() {
    let mut c = cart(73, 8, 0);
    c.write_prg_vrc3(0xF000, 0x0B);
    assert_eq!(c.prg_bank, 3);
    c.write_prg_vrc3(0x8000, 0x1);
    c.write_prg_vrc3(0x9000, 0x2);
    c.write_prg_vrc3(0xA000, 0x3);
    c.write_prg_vrc3(0xB000, 0xF4);
    assert_eq!(c.vrc3.as_ref().map(|v| v.irq_reload), Some(0x4321));
    c.write_prg_vrc3(0xC000, 0x02);
    assert_eq!(c.vrc3.as_ref().map(|v| (v.irq_enabled, v.irq_counter)), Some((true, 0x4321)));
    c.write_prg_vrc3(0xD000, 0x00);
    assert_eq!(c.vrc3.as_ref().map(|v| v.irq_enabled), Some(false));
    c.write_prg_ram_vrc3(0x6001, 0x5C);
    assert_eq!(c.read_prg_ram_vrc3(0x6001), 0x5C);
}

#[test]
fn mapper142_four_prg_registers() {
    let mut c = cart(142, 8, 0);
    c.write_prg_mapper142(0xE000, 1);
    c.write_prg_mapper142(0xF000, 0x15);
    assert_eq!(c.prg_bank, 5);
    assert_eq!(c.read_prg_mapper142(0x8000), 5);
    c.write_prg_mapper142(0xE000, 3);
    c.write_prg_mapper142(0xF000, 0x09);
    assert_eq!(c.read_prg_mapper142(0xC000), 9);
    c.write_prg_mapper142(0xE000, 4);
    c.write_prg_mapper142(0xF000, 7);
    assert_eq!(c.read_prg_ram_mapper142(0x6000), 7);
    assert_eq!(c.read_prg_ram_mapper142(0x5FFF), 0);
    assert_eq!(c.read_prg_mapper142(0xE000), 15);
    c.write_prg_mapper142(0xE000, 0);
    c.write_prg_mapper142(0xF000, 2);
    assert_eq!(c.mapper142_prg_banks, [5, 0, 9, 7]);
    c.write_prg_mapper142(0xB000, 0x0A);
    assert_eq!(c.vrc3.as_ref().map(|v| v.irq_reload), Some(0xA000));
}

#[test]
fn mmc5_board_prg_windows_and_ram() {
    let mut c = cart(5, 8, 16);
    assert_eq!(c.read_prg_mmc5(0xE000), 15);
    assert_eq!(c.read_prg_mmc5(0xA000), 0);
    c.write_prg_mmc5(0x5117, 0x85);
    c.write_prg_mmc5(0x5114, 0x83);
    assert_eq!(c.read_prg_mmc5(0xE000), 5);
    assert_eq!(c.read_prg_mmc5(0x8000), 3);
    c.write_prg_mmc5(0x5100, 0);
    assert_eq!(c.read_prg_mmc5(0x8000), 5);
    c.write_prg_mmc5(0x5102, 2);
    c.write_prg_mmc5(0x5103, 1);
    c.write_prg_mmc5(0x5113, 1);
    c.write_prg_ram_mmc5(0x6010, 0x77);
    assert_eq!(c.read_prg_ram_mmc5(0x6010), 0x77);
    assert_eq!(c.prg_ram[0x2010], 0x77);
    c.write_prg_mmc5(0x5205, 12);
    c.write_prg_mmc5(0x5206, 34);
    assert_eq!(c.read_prg_low_mmc5(0x5205), (408 % 256) as u8);
    assert_eq!(c.read_prg_low_mmc5(0x5206), 1);
}

#[test]
fn mmc5_board_chr_and_nametables() {
    let mut c = cart(5, 8, 16);
    c.write_prg_mmc5(0x5120, 9);
    assert_eq!(c.read_chr_sprite_mmc5(0x0000, 0), 9);
    c.write_prg_mmc5(0x5128, 11);
    assert_eq!(c.read_chr_mmc5(0x0000), 11);
    let mut internal = [[0u8; 1024]; 2];
    c.write_prg_mmc5(0x5105, 0xE4);
    c.write_nametable_mmc5(2, 5, &mut internal, 0x42);
    assert_eq!(c.read_nametable_mmc5(2, 5, &internal), 0x42);
    assert_eq!(c.mmc5.as_ref().map(|m| m.cached_tile_x), Some(5));
    c.write_nametable_mmc5(0, 7, &mut internal, 0x11);
    assert_eq!(internal[0][7], 0x11);
    assert_eq!(c.read_nametable_mmc5(0, 7, &internal), 0x11);
    c.write_prg_mmc5(0x5106, 0x21);
    c.write_prg_mmc5(0x5107, 0x02);
    assert_eq!(c.read_nametable_mmc5(3, 100, &internal), 0x21);
    assert_eq!(c.read_nametable_mmc5(3, 960, &internal), 0xAA);
    assert_eq!(c.resolve_nametable_mmc5(6), 2);
}

#[test]
fn mmc5_board_scanline_irq_pcm_and_split() {
    let mut c = cart(5, 8, 16);
    c.notify_ppumask_mmc5(0x18);
    c.write_prg_mmc5(0x5203, 2);
    c.write_prg_mmc5(0x5204, 0x80);
    c.mmc5_scanline_tick();
    c.mmc5_scanline_tick();
    assert_eq!(c.read_prg_low_mmc5(0x5204), 0x40);
    c.mmc5_scanline_tick();
    assert_eq!(c.read_prg_low_mmc5(0x5204), 0xC0);
    assert_eq!(c.read_prg_low_mmc5(0x5204), 0x40);
    c.mmc5_end_frame();
    assert_eq!(c.read_prg_low_mmc5(0x5204), 0x00);

    c.write_prg_mmc5(0x5010, 0x81);
    c.mmc5_cpu_read_side_effects(0x8000, 0);
    assert_eq!(c.read_prg_low_mmc5(0x5010), 0x81);
    assert_eq!(c.read_prg_low_mmc5(0x5010), 0x01);
    c.mmc5_cpu_read_side_effects(0x8000, 0x33);
    assert_eq!(c.clock_audio_mmc5(), (0, 0, 0x33));

    c.write_prg_mmc5(0x5C00, 1);
    c.write_prg_mmc5(0x5200, 0x84);
    c.write_prg_mmc5(0x5202, 2);
    assert_eq!(c.mmc5_split_bg_fetch(0, 0, 0), Some((8, 8, 0)));
    assert_eq!(c.mmc5_split_bg_fetch(64, 0, 0), None);
    c.notify_ppumask_mmc5(0x00);
    assert_eq!(c.mmc5_split_bg_fetch(0, 0, 0), None);
}

#[test]
fn vrc4_chr_ram_writes_and_cycle_clock() {
    let mut c = cart(21, 8, 0);
    c.write_chr_mapper23(0x0005, 0x5A);
    assert_eq!(c.read_chr_mapper23(0x0005), 0x5A);
    assert_eq!(c.chr_ram[5], 0x5A);
    c.write_prg_mapper23(0xF000, 0x0E);
    c.write_prg_mapper23(0xF002, 0x0F);
    c.write_prg_mapper23(0xF004, 0x02);
    c.clock_irq_mapper23(113);
    assert_eq!(c.vrc2_vrc4.as_ref().map(|v| v.irq_counter), Some(0xFE));
    c.clock_irq_mapper23(1);
    assert_eq!(c.vrc2_vrc4.as_ref().map(|v| (v.irq_counter, v.irq_pending)), Some((0xFF, false)));
    let mut rom = cart(21, 16, 16);
    rom.write_chr_mapper23(0x0001, 0x77);
    assert_eq!(rom.read_chr_mapper23(0x0001), 0x77);
}

#[test]
fn vrc6_board_sound_and_irq_clocks() {
    let mut c = cart(24, 8, 16);
    assert_eq!(c.clock_audio_vrc6(), 0);
    c.write_prg_vrc6(0x9000, 0x8F);
    c.write_prg_vrc6(0x9002, 0x80);
    assert_eq!(c.clock_audio_vrc6(), 15);
    c.write_prg_vrc6(0xF000, 0xFE);
    c.write_prg_vrc6(0xF001, 0x06);
    c.clock_irq_vrc6(1);
    assert_eq!(c.vrc6.as_ref().map(|v| v.irq_counter), Some(0xFF));
    c.clock_irq_vrc6(1);
    assert_eq!(c.vrc6.as_ref().map(|v| (v.irq_counter, v.irq_pending)), Some((0xFE, true)));
    let mut plain = cart(4, 8, 16);
    assert_eq!(plain.clock_audio_vrc6(), 0);
}

#[test]
fn nina_and_sachen_low_latches() {
    let mut m79 = cart(79, 4, 4);
    m79.write_prg_mapper79_146(0x4100, 0x0A);
    assert_eq!((m79.prg_bank, m79.chr_bank), (1, 2));
    m79.write_prg_mapper79_146(0x4000, 0x00);
    assert_eq!((m79.prg_bank, m79.chr_bank), (1, 2));
    let mut m133 = cart(133, 4, 4);
    m133.write_prg_mapper133(0x4100, 0x07);
    assert_eq!((m133.prg_bank, m133.chr_bank), (1, 3));
    let mut m113 = cart(113, 8, 16);
    m113.write_prg_mapper113(0x4100, 0x9A);
    assert_eq!((m113.prg_bank, m113.chr_bank), (3, 2));
    assert_eq!(m113.mirroring, Mirroring::Horizontal);
    let mut m147 = cart(147, 4, 4);
    m147.write_prg_mapper147(0x4102, 0x9C);
    assert_eq!((m147.prg_bank, m147.chr_bank), (1, 3));
}

#[test]
fn bus_conflict_latch_boards() {
    let mut m89 = cart(89, 8, 16);
    m89.write_prg_mapper89(0xC000, 0xFF);
    assert_eq!((m89.prg_bank, m89.chr_bank), (0, 6));
    assert_eq!(m89.mirroring, Mirroring::OneScreenUpper);
    let mut m93 = cart(93, 8, 1);
    m93.write_prg_mapper93(0xC000, 0xFF);
    assert!(!m93.mapper93_chr_ram_enabled);
    assert_eq!(m93.read_chr_mapper93(0x0000), 0xFF);
    m93.write_prg_mapper93(0xA000, 0xFF);
    assert!(m93.mapper93_chr_ram_enabled);
    m93.write_chr_mapper93(0x0005, 0x55);
    assert_eq!(m93.read_chr_mapper93(0x0005), 0x55);
    let mut m148 = cart(148, 4, 4);
    m148.write_prg_mapper148(0xA000, 0xFF);
    assert_eq!((m148.prg_bank, m148.chr_bank), (0, 1));
    assert_eq!(m148.bus_conflict_value_switchable_32k(0xA000), 1);
    assert_eq!(m89.bus_conflict_value_fixed_last_16k(0xE000), 15);
}

#[test]
fn caltron_mapper41_outer_and_inner_banks() {
    let mut c = cart(41, 16, 16);
    c.write_prg_ram_mapper41(0x6035);
    assert_eq!(c.prg_bank, 5);
    assert_eq!(c.chr_bank, 8);
    assert_eq!(c.mirroring, Mirroring::Horizontal);
    c.write_prg_mapper41(0xA000, 0xFF);
    assert_eq!(c.latches.mapper41_inner_bank, 1);
    assert_eq!(c.chr_bank, 9);
    c.write_prg_ram_mapper41(0x6800);
    assert_eq!(c.prg_bank, 5);
}

#[test]
fn sachen_register_files() {
    let mut m243 = cart(243, 4, 16);
    m243.write_prg_mapper243(0x4100, 6);
    m243.write_prg_mapper243(0x4101, 3);
    assert_eq!(m243.chr_bank, 12);
    m243.write_prg_mapper243(0x4100, 7);
    m243.write_prg_mapper243(0x4101, 2);
    assert_eq!(m243.mirroring, Mirroring::Vertical);
    m243.write_prg_mapper243(0x4100, 5);
    m243.write_prg_mapper243(0x4101, 1);
    assert_eq!(m243.prg_bank, 1);
    assert_eq!(m243.read_prg_low_mapper243(0x4101), 1);
    assert_eq!(m243.read_prg_low_mapper243(0x4100), 0);

    let mut m137 = cart(137, 4, 16);
    m137.write_prg_mapper137(0x4100, 0);
    m137.write_prg_mapper137(0x4101, 5);
    assert_eq!(m137.chr_bank, 5);
    assert_eq!(m137.read_chr_mapper137(0x0000), 5);
    m137.write_prg_mapper137(0x4100, 4);
    m137.write_prg_mapper137(0x4101, 1);
    m137.write_prg_mapper137(0x4100, 1);
    m137.write_prg_mapper137(0x4101, 2);
    assert_eq!(m137.mapper137_chr_bank_1k(1), 18);
    assert_eq!(m137.read_chr_mapper137(0x0400), 18);
    assert_eq!(m137.read_chr_mapper137(0x1000), 124);
    m137.write_prg_mapper137(0x4100, 7);
    m137.write_prg_mapper137(0x4101, 2);
    assert_eq!(m137.mirroring, Mirroring::Horizontal);
    assert_eq!(m137.read_prg_low_mapper137(0x4101), 2);
    m137.write_chr_mapper137(0x1001, 0xAB);
    assert_eq!(m137.read_chr_mapper137(0x1001), 0xAB);

    let mut m150 = cart(150, 4, 16);
    m150.write_prg_mapper150(0x4100, 4);
    m150.write_prg_mapper150(0x4101, 1);
    m150.write_prg_mapper150(0x4100, 6);
    m150.write_prg_mapper150(0x4101, 2);
    assert_eq!(m150.chr_bank, 6);
    m150.write_prg_mapper150(0x4100, 7);
    m150.write_prg_mapper150(0x4101, 4);
    assert_eq!(m150.mirroring, Mirroring::Vertical);
    assert_eq!(m150.read_prg_low_mapper150(0x4101), 4);
}

#[test]
fn mapper194_low_banks_are_chr_ram() {
    let mut c = cart(194, 2, 8);
    c.write_prg_mmc3(0x8000, 0x00);
    c.write_prg_mmc3(0x8001, 0x00);
    c.write_chr_mapper194(0x0010, 0x5A);
    assert_eq!(c.chr_ram[0x0010], 0x5A);
    assert_eq!(c.read_chr_mapper194(0x0010), 0x5A);
    c.write_prg_mmc3(0x8001, 0x04);
    assert_eq!(c.read_chr_mapper194(0x0010), 4);
    c.write_chr_mapper194(0x0010, 0x77);
    assert_eq!(c.read_chr_mapper194(0x0010), 4);
}

#[test]
fn mmc1_loaded_cartridge_takes_five_serial_writes() {
    let mut data = vec![0x4E, 0x45, 0x53, 0x1A, 8, 0, 0x11, 0x00];
    data.resize(16, 0);
    data.resize(16 + 8 * 16384, 0);
    let mut c = match Cartridge::load(&data) {
        Ok(c) => c,
        Err(_) => panic!("image refused"),
    };
    assert_eq!(c.mirroring(), Mirroring::Vertical);
    for _ in 0..4 {
        c.write_prg(0x8000, 1);
    }
    c.write_prg(0x8000, 0);
    assert_eq!(c.mirroring(), Mirroring::Horizontal);
}

use nes_emulator::cartridge::load::Cartridge;
use nes_emulator::cartridge::Mirroring;

fn image(mapper: u8, prg_banks: u8, chr_banks: u8, flags6_low: u8) -> Vec<u8> {
    let mut data = vec![
        0x4E,
        0x45,
        0x53,
        0x1A,
        prg_banks,
        chr_banks,
        ((mapper & 0x0F) << 4) | flags6_low,
        mapper & 0xF0,
    ];
    data.resize(16, 0);
    for i in 0..(prg_banks as usize * 16384) {
        data.push((i / 0x2000) as u8);
    }
    for i in 0..(chr_banks as usize * 8192) {
        data.push((i / 0x400) as u8);
    }
    data
}

fn cart_with(mapper: u8, prg_banks: u8, chr_banks: u8, flags6_low: u8) -> Cartridge {
    match Cartridge::load(&image(mapper, prg_banks, chr_banks, flags6_low)) {
        Ok(c) => c,
        Err(_) => panic!("image refused"),
    }
}

fn cart(mapper: u8, prg_banks: u8, chr_banks: u8) -> Cartridge {
    cart_with(mapper, prg_banks, chr_banks, 0)
}

#[test]
fn header_facts_are_reported() {
    let c = cart_with(0, 2, 1, 0x01);
    assert_eq!(c.mapper_number(), 0);
    assert_eq!(c.prg_rom_size(), 32768);
    assert_eq!(c.chr_rom_size(), 8192);
    assert_eq!(c.mirroring(), Mirroring::Vertical);
    assert!(!c.has_battery_save());
    assert!(c.prg_ram_ref().is_none());
    assert!(c.nametable_writes_to_internal_vram());
}

#[test]
fn battery_ram_save_round_trip() {
    let mut c = cart_with(1, 2, 1, 0x02);
    assert!(c.has_battery_save());
    assert!(c.get_sram_data().is_none());
    c.set_sram_data(vec![7u8; 100]);
    assert!(c.get_sram_data().is_none());
    c.set_sram_data(vec![7u8; 8192]);
    match c.get_sram_data() {
        Some(s) => {
            assert_eq!(s.len(), 8192);
            assert!(s.iter().all(|b| *b == 7));
        }
        None => panic!("save expected"),
    }
    assert_eq!(c.prg_ram_ref().map(|s| s.len()), Some(8192));
}

#[test]
fn save_ignored_without_battery() {
    let mut c = cart(1, 2, 1);
    c.set_sram_data(vec![7u8; 8192]);
    assert!(c.get_sram_data().is_none());
    assert_eq!(c.prg_ram[0], 0);
}

#[test]
fn resolve_nametable_per_board() {
    assert_eq!(cart(0, 1, 1).resolve_nametable(1), None);
    assert_eq!(cart(19, 2, 1).resolve_nametable(6), Some(2));
    assert_eq!(cart(77, 2, 1).resolve_nametable(3), Some(3));
    let mut s = cart(137, 2, 1);
    assert_eq!(s.resolve_nametable(0), Some(0));
    assert_eq!(s.resolve_nametable(3), Some(1));
    s.latches.mapper137_registers[7] = 0x02;
    assert_eq!(s.resolve_nametable(3), None);
    let mut t = cart(118, 2, 1);
    if let Some(m) = t.mmc3.as_mut() {
        m.bank_registers[0] = 0x80;
    }
    assert_eq!(t.resolve_nametable(1), Some(1));
    assert_eq!(t.resolve_nametable(2), Some(0));
}

#[test]
fn nametable_bytes_route_to_console_or_chr_ram() {
    let mut internal = [[0u8; 1024]; 2];
    let mut c = cart(0, 1, 1);
    c.write_nametable_byte(1, 5, &mut internal, 9);
    assert_eq!(internal[1][5], 9);
    assert_eq!(c.read_nametable_byte(3, 5, &internal), 9);
    assert_eq!(c.read_nametable_byte(3, 1024, &internal), 0);

    let mut internal = [[0u8; 1024]; 2];
    let mut d = cart(77, 2, 1);
    d.write_nametable_byte(0, 3, &mut internal, 0x44);
    assert_eq!(d.chr_ram[0x1803], 0x44);
    assert_eq!(d.read_nametable_byte(0, 3, &internal), 0x44);
    d.write_nametable_byte(2, 3, &mut internal, 0x55);
    assert_eq!(internal[0][3], 0x55);
    assert_eq!(d.read_nametable_byte(2, 3, &internal), 0x55);

    let mut internal = [[0u8; 1024]; 2];
    let mut e = cart(99, 2, 1);
    e.write_nametable_byte(3, 1, &mut internal, 0x66);
    assert_eq!(e.chr_ram[0x0C01], 0x66);
    assert_eq!(e.read_nametable_byte(3, 1, &internal), 0x66);
    assert_eq!(internal, [[0u8; 1024]; 2]);
}

#[test]
fn namco163_nametables_through_the_cartridge() {
    let mut internal = [[0u8; 1024]; 2];
    let mut c = cart(19, 2, 1);
    c.write_prg_namco163(0xC000, 0xE0);
    c.write_nametable_byte(0, 0x10, &mut internal, 0x77);
    assert_eq!(c.chr_ram[0x10], 0x77);
    assert_eq!(c.read_nametable_byte(0, 0x10, &internal), 0x77);
}

#[test]
fn first_banks_follow_the_chip() {
    let mut c = cart(1, 2, 1);
    c.set_prg_bank(0x1F);
    assert_eq!(c.prg_bank, 0x1F);
    assert_eq!(c.get_prg_bank(), 0x0F);
    c.set_chr_bank(5);
    assert_eq!(c.get_chr_bank(), 5);
    match &c.mmc1 {
        Some(m) => assert_eq!((m.chr_bank_0, m.chr_bank_1), (5, 5)),
        None => panic!("MMC1 expected"),
    }
    let mut d = cart(0, 1, 1);
    d.set_prg_bank(3);
    d.set_chr_bank(2);
    assert_eq!(d.get_prg_bank(), 3);
    assert_eq!(d.get_chr_bank(), 2);
}

#[test]
fn reset_button_effects() {
    let mut c = cart(230, 16, 1);
    assert!(c.mapper230_contra_mode);
    c.mirroring = Mirroring::Horizontal;
    c.on_reset();
    assert!(!c.mapper230_contra_mode);
    assert_eq!(c.mirroring, Mirroring::Horizontal);
    c.on_reset();
    assert!(c.mapper230_contra_mode);
    assert_eq!(c.mirroring, Mirroring::Vertical);

    let mut d = cart(41, 4, 4);
    d.prg_bank = 3;
    d.chr_bank = 2;
    d.latches.mapper41_inner_bank = 1;
    d.on_reset();
    assert_eq!((d.prg_bank, d.chr_bank, d.latches.mapper41_inner_bank), (0, 0, 0));
    assert_eq!(d.mirroring, Mirroring::Vertical);

    let mut e = cart(185, 2, 1);
    e.mapper185_disabled_reads = 0;
    e.on_reset();
    assert_eq!(e.mapper185_disabled_reads, 2);
}

#[test]
fn mapper233_register_sets_banks_layout_and_mirroring() {
    let mut c = cart(233, 8, 4);
    c.write_prg_mapper233(0x8000, 0x65);
    assert_eq!(c.prg_bank, 5);
    assert_eq!(c.chr_bank, 5);
    assert!(c.multicart.mapper233_nrom128);
    assert_eq!(c.mirroring, Mirroring::Vertical);
    assert_eq!(c.read_prg_mapper233(0xC000), 10);
    c.write_prg_mapper233(0x8000, 0xC3);
    assert_eq!(c.mirroring, Mirroring::OneScreenUpper);
    assert_eq!(c.read_prg_mapper233(0x8000), 4);
    c.write_prg_mapper233(0x6000, 0x00);
    assert_eq!(c.prg_bank, 3);
}

#[test]
fn mapper208_latch_protection_and_mmc3_ports() {
    let mut c = cart(208, 4, 4);
    assert_eq!(c.prg_bank, 3);
    assert_eq!(c.read_prg_mapper208(0x8000), 4);
    c.write_prg_mapper208(0x4800, 0x21);
    assert_eq!(c.prg_bank, 1);
    assert_eq!(c.mirroring, Mirroring::Horizontal);
    c.write_prg_mapper208(0x4800, 0x10);
    assert_eq!(c.prg_bank, 0);
    assert_eq!(c.mirroring, Mirroring::Vertical);
    assert_eq!(c.read_prg_mapper208(0xC000), 2);
    c.write_prg_mapper208(0x5000, 0x09);
    c.write_prg_mapper208(0x5802, 0x0F);
    assert_eq!(c.read_prg_low_mapper208(0x5802), 0x46);
    assert_eq!(c.read_prg_low(0x5802), 0x46);
    assert_eq!(c.read_prg_low(0x5000), 0);
    c.write_prg_ram_mapper208(0x6800, 0x21);
    assert_eq!(c.prg_bank, 1);
    c.write_prg_ram_mapper208(0x6000, 0x00);
    assert_eq!(c.prg_bank, 1);
    c.write_prg_mapper208(0x8000, 0x06);
    assert_eq!(c.mmc3.as_ref().map(|m| m.bank_select), Some(6));
    c.write_prg_mapper208(0xA000, 0x07);
    assert_eq!(c.mmc3.as_ref().map(|m| m.bank_select), Some(6));
}

#[test]
fn low_area_reads_by_board() {
    let mut a = cart(0, 1, 1);
    assert_eq!(a.read_prg_low(0x5800), 0);
    let mut b = cart(225, 8, 8);
    b.write_prg_mapper225(0x5802, 0x1A);
    assert_eq!(b.read_prg_low(0x5802), 0x0A);
    let mut n = cart(19, 2, 1);
    n.write_prg_namco163(0xF800, 0x80);
    n.prg_ram[0x2000] = 0x31;
    n.prg_ram[0x2001] = 0x32;
    assert_eq!(n.read_prg_low(0x4800), 0x31);
    assert_eq!(n.read_prg_low(0x4800), 0x32);
}

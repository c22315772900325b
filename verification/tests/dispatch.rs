use nes_emulator::cartridge::load::Cartridge;

fn image(mapper: u8, prg_banks: u8, chr_banks: u8) -> Vec<u8> {
    let mut data = vec![0x4E, 0x45, 0x53, 0x1A, prg_banks, chr_banks, (mapper & 0x0F) << 4, mapper & 0xF0];
    data.resize(16, 0);
    for i in 0..(prg_banks as usize * 16384) {
        data.push((i / 0x2000) as u8);
    }
    for i in 0..(chr_banks as usize * 8192) {
        data.push((i / 0x400) as u8);
    }
    data
}

fn cart(mapper: u8, prg_banks: u8, chr_banks: u8) -> Cartridge {
    match Cartridge::load(&image(mapper, prg_banks, chr_banks)) {
        Ok(c) => c,
        Err(_) => panic!("image refused"),
    }
}

#[test]
fn nrom_reads_go_straight_to_rom() {
    let c = cart(0, 2, 1);
    assert_eq!(c.read_prg(0x8000), 0);
    assert_eq!(c.read_prg(0xC000), 2);
    assert_eq!(c.read_prg(0xFFFF), 3);
}

#[test]
fn nrom_chr_reads_by_address() {
    let mut c = cart(0, 1, 1);
    assert_eq!(c.read_chr(0x0000), 0);
    assert_eq!(c.read_chr(0x1C00), 7);
}

#[test]
fn mmc3_bank_writes_reach_the_reads() {
    let mut c = cart(4, 8, 8);
    c.write_prg(0x8000, 0x06);
    c.write_prg(0x8001, 0x03);
    assert_eq!(c.read_prg(0x8000), 3);
    assert_eq!(c.read_prg(0xE000), 15);
    c.write_prg(0x8000, 0x02);
    c.write_prg(0x8001, 0x21);
    assert_eq!(c.read_chr(0x1000), 0x21);
}

#[test]
fn prg_ram_round_trip_through_the_board() {
    let mut c = cart(241, 1, 1);
    c.write_prg_ram(0x6000, 0x5A);
    c.write_prg_ram(0x7FFF, 0xA5);
    assert_eq!(c.read_prg_ram(0x6000), 0x5A);
    assert_eq!(c.read_prg_ram(0x7FFF), 0xA5);
}

#[test]
fn nrom_has_no_prg_ram_window() {
    let mut c = cart(0, 1, 1);
    c.write_prg_ram(0x6000, 0x5A);
    assert_eq!(c.read_prg_ram(0x6000), 0);
}

#[test]
fn cpu_read_without_side_effect_on_plain_boards() {
    let mut c = cart(0, 2, 1);
    assert_eq!(c.read_prg_cpu(0xC001), 2);
    assert_eq!(c.read_prg(0x8000), 0);
}

#[test]
fn save_state_restores_banks_and_ram() {
    let mut c = cart(4, 8, 8);
    c.write_prg(0x8000, 0x06);
    c.write_prg(0x8001, 0x05);
    c.write_prg_ram(0x6010, 0x42);
    let saved = c.snapshot_state();
    assert_eq!(saved.mapper, 4);
    assert_eq!(saved.prg_ram[0x10], 0x42);
    c.write_prg(0x8000, 0x06);
    c.write_prg(0x8001, 0x09);
    c.write_prg_ram(0x6010, 0x00);
    assert_eq!(c.read_prg(0x8000), 9);
    c.restore_state(&saved);
    assert_eq!(c.read_prg(0x8000), 5);
    assert_eq!(c.read_prg_ram(0x6010), 0x42);
}

#[test]
fn save_state_of_another_mapper_is_ignored() {
    let mut a = cart(4, 8, 8);
    a.write_prg(0x8000, 0x06);
    a.write_prg(0x8001, 0x05);
    let b = cart(2, 8, 1);
    let other = b.snapshot_state();
    a.restore_state(&other);
    assert_eq!(a.read_prg(0x8000), 5);
}

#[test]
fn save_state_restores_vrc6_banks() {
    let mut c = cart(24, 8, 8);
    c.write_prg(0x8000, 2);
    assert_eq!(c.read_prg(0x8000), 4);
    let saved = c.snapshot_state();
    c.write_prg(0x8000, 3);
    assert_eq!(c.read_prg(0x8000), 6);
    c.restore_state(&saved);
    assert_eq!(c.read_prg(0x8000), 4);
}

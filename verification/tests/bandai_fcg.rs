use nes_emulator::cartridge::load::Cartridge;
use nes_emulator::cartridge::mapper::bandai_fcg::BandaiFcg;
use nes_emulator::cartridge::Mirroring;

const EEPROM_READ: u8 = 0x80;
const EEPROM_SDA: u8 = 0x40;
const EEPROM_SCL: u8 = 0x20;

/// An iNES image of a mapper-16 board, with a battery when asked: 32 KiB
/// of PRG-ROM whose bytes hold their 16 KiB bank number, 8 KiB of CHR-ROM
/// whose bytes hold their 1 KiB bank number.
fn bandai_image(battery: bool) -> Vec<u8> {
    let flags6 = if battery { 0x02 } else { 0x00 };
    let mut data = vec![0x4E, 0x45, 0x53, 0x1A, 2, 1, 0x00 | flags6, 0x10];
    data.resize(16, 0);
    for i in 0..0x8000usize {
        data.push((i / 0x4000) as u8);
    }
    for i in 0..0x2000usize {
        data.push((i / 0x400) as u8);
    }
    data
}

fn load(battery: bool) -> Cartridge {
    match Cartridge::load(&bandai_image(battery)) {
        Ok(c) => c,
        Err(_) => panic!("image refused"),
    }
}

fn make_bandai_eeprom_cart() -> Cartridge {
    let cart = load(true);
    assert_eq!(cart.prg_ram, vec![0xFF; 256]);
    assert!(!cart.has_valid_save_data);
    cart
}

fn drive(cart: &mut Cartridge, read: bool, sda: bool, scl: bool) {
    let mut data = 0;
    if read {
        data |= EEPROM_READ;
    }
    if sda {
        data |= EEPROM_SDA;
    }
    if scl {
        data |= EEPROM_SCL;
    }
    cart.write_prg_bandai(0x800D, data);
}

fn start(cart: &mut Cartridge) {
    drive(cart, false, true, false);
    drive(cart, false, true, true);
    drive(cart, false, false, true);
    drive(cart, false, false, false);
}

fn stop(cart: &mut Cartridge) {
    drive(cart, false, false, false);
    drive(cart, false, false, true);
    drive(cart, false, true, true);
    drive(cart, false, true, false);
}

fn write_bit(cart: &mut Cartridge, bit: bool) {
    drive(cart, false, bit, false);
    drive(cart, false, bit, true);
    drive(cart, false, bit, false);
}

fn read_bit(cart: &mut Cartridge) -> bool {
    drive(cart, true, true, false);
    drive(cart, true, true, true);
    let bit = cart.read_prg_ram_bandai(0x6000) & 0x10 != 0;
    drive(cart, true, true, false);
    bit
}

fn write_byte(cart: &mut Cartridge, byte: u8) -> bool {
    for shift in (0..8).rev() {
        write_bit(cart, ((byte >> shift) & 1) != 0);
    }
    !read_bit(cart)
}

fn read_byte(cart: &mut Cartridge, ack: bool) -> u8 {
    let mut byte = 0;
    for _ in 0..8 {
        byte = (byte << 1) | u8::from(read_bit(cart));
    }
    write_bit(cart, !ack);
    byte
}

#[test]
fn bandai_eeprom_round_trips_a_byte() {
    let mut cart = make_bandai_eeprom_cart();

    start(&mut cart);
    assert!(write_byte(&mut cart, 0xA0));
    assert!(write_byte(&mut cart, 0x2A));
    assert!(write_byte(&mut cart, 0x5C));
    stop(&mut cart);

    start(&mut cart);
    assert!(write_byte(&mut cart, 0xA0));
    assert!(write_byte(&mut cart, 0x2A));
    start(&mut cart);
    assert!(write_byte(&mut cart, 0xA1));
    let value = read_byte(&mut cart, false);
    stop(&mut cart);

    assert_eq!(value, 0x5C);
    assert_eq!(cart.prg_ram[0x2A], 0x5C);
    assert!(cart.has_valid_save_data);
}

#[test]
fn bandai_eeprom_idle_line_reads_high() {
    let mut cart = make_bandai_eeprom_cart();
    drive(&mut cart, true, true, true);
    assert_eq!(cart.read_prg_ram_bandai(0x6000) & 0x10, 0x10);
}

#[test]
fn bandai_eeprom_rejects_other_device_addresses() {
    let mut cart = make_bandai_eeprom_cart();
    start(&mut cart);
    assert!(!write_byte(&mut cart, 0xB0));
    stop(&mut cart);
    assert!(!cart.has_valid_save_data);
}

#[test]
fn bandai_eeprom_sequential_read_wraps_address() {
    let mut cart = make_bandai_eeprom_cart();
    cart.prg_ram[0xFF] = 0x12;
    cart.prg_ram[0x00] = 0x34;
    start(&mut cart);
    assert!(write_byte(&mut cart, 0xA0));
    assert!(write_byte(&mut cart, 0xFF));
    start(&mut cart);
    assert!(write_byte(&mut cart, 0xA1));
    assert_eq!(read_byte(&mut cart, true), 0x12);
    assert_eq!(read_byte(&mut cart, false), 0x34);
    stop(&mut cart);
}

#[test]
fn bandai_eeprom_rewriting_same_value_keeps_clean() {
    let mut cart = make_bandai_eeprom_cart();
    start(&mut cart);
    assert!(write_byte(&mut cart, 0xA0));
    assert!(write_byte(&mut cart, 0x10));
    assert!(write_byte(&mut cart, 0xFF));
    stop(&mut cart);
    assert!(!cart.has_valid_save_data);
}

#[test]
fn bandai_registers_select_banks_mirroring_and_irq() {
    let mut cart = load(false);
    cart.write_prg_bandai(0x8003, 0x42);
    assert_eq!(cart.bandai_fcg.as_ref().map(|b| b.chr_banks[3]), Some(0x42));
    assert_eq!(cart.read_chr_bandai(0x0C00), 0x42 % 8);
    cart.write_prg_bandai(0x8008, 0x37);
    assert_eq!(cart.bandai_fcg.as_ref().map(|b| b.prg_bank), Some(0x07));
    assert_eq!(cart.read_prg_bandai(0x8000), 1);
    assert_eq!(cart.read_prg_bandai(0xC000), 1);
    cart.write_prg_bandai(0x8008, 0x00);
    assert_eq!(cart.read_prg_bandai(0x8000), 0);
    cart.write_prg_bandai(0x8009, 0x02);
    assert_eq!(cart.mirroring, Mirroring::OneScreenLower);
    cart.write_prg_bandai(0x8009, 0x01);
    assert_eq!(cart.mirroring, Mirroring::Horizontal);
    cart.write_prg_bandai(0x800B, 0x02);
    cart.write_prg_bandai(0x800C, 0x00);
    let fcg: &mut BandaiFcg = match cart.bandai_fcg.as_mut() {
        Some(b) => b,
        None => panic!("no chip"),
    };
    assert_eq!(fcg.irq_latch, 0x0002);
    assert!(!fcg.irq_enabled);
    cart.write_prg_bandai(0x800A, 0x01);
    let fcg: &mut BandaiFcg = match cart.bandai_fcg.as_mut() {
        Some(b) => b,
        None => panic!("no chip"),
    };
    assert_eq!(fcg.irq_counter, 2);
    assert!(fcg.irq_enabled);
    fcg.clock_irq_mut();
    fcg.clock_irq_mut();
    assert!(!fcg.irq_pending);
    fcg.clock_irq_mut();
    assert!(fcg.irq_pending);
    assert!(!fcg.irq_enabled);
    cart.write_prg_bandai(0x800A, 0x00);
    assert_eq!(cart.bandai_fcg.as_ref().map(|b| b.irq_pending), Some(false));
}

#[test]
fn bandai_plain_prg_ram_without_battery() {
    let mut cart = load(false);
    cart.write_prg_ram_bandai(0x6005, 0x77);
    assert_eq!(cart.read_prg_ram_bandai(0x6005), 0x77);
    let mut battery = make_bandai_eeprom_cart();
    battery.write_prg_ram_bandai(0x6005, 0x77);
    assert_eq!(battery.prg_ram[5], 0xFF);
    battery.write_chr_bandai(0x0000, 0x99);
    assert_eq!(battery.read_chr_bandai(0x0000), 0);
}

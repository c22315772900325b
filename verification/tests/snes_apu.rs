use nes_emulator::snes_apu::Apu;

#[test]
fn smp_power_on_maps_boot_rom_and_hides_write_only_registers() {
    let mut a = Apu::new();
    assert_eq!(a.read_u8(0xFFC0, 0), 0xCD);
    assert_eq!(a.read_u8(0xFFFF, 0), 0xFF);
    assert_eq!(a.read_u8(0x00F0, 0), 0x00);
    assert_eq!(a.read_u8(0x00F1, 0), 0x00);
    assert_eq!(a.read_u8(0x00F2, 0), 0x00);
    assert_eq!(a.read_u8(0x1234, 0), 0x00);
}

#[test]
fn smp_dsp_register_goes_through_the_latch() {
    let mut a = Apu::new();
    assert_eq!(a.write_u8(0x00F2, 0x4C, 0), None);
    assert_eq!(a.read_u8(0x00F2, 0), 0x4C);
    assert_eq!(a.write_u8(0x00F3, 0x55, 0), Some((0x4C, 0x55)));
    assert_eq!(a.read_u8(0x00F3, 0x99), 0x99);
}

#[test]
fn smp_ports_carry_values_both_ways() {
    let mut a = Apu::new();
    a.cpu_write_port(5, 0x77);
    assert_eq!(a.read_u8(0x00F5, 0), 0x77);
    a.write_u8(0x00F6, 0x12, 0);
    assert_eq!(a.cpu_read_port(2), 0x12);
    assert_eq!(a.read_u8(0x00F6, 0), 0x00);
    a.cpu_write_port(0, 0x05);
    a.cpu_write_port(3, 0x06);
    a.write_u8(0x00F1, 0x90, 0);
    assert_eq!(a.read_u8(0x00F4, 0), 0x00);
    assert_eq!(a.read_u8(0x00F7, 0), 0x06);
}

#[test]
fn smp_boot_rom_overlays_ram_until_unmapped() {
    let mut a = Apu::new();
    a.write_u8(0xFFC1, 0x09, 0);
    assert_eq!(a.read_u8(0xFFC1, 0), 0xEF);
    a.write_u8(0x00F1, 0x00, 0);
    assert_eq!(a.read_u8(0xFFC1, 0), 0x09);
    assert_eq!(a.read_u8(0x1_FFC1, 0), 0x09);
}

#[test]
fn smp_timer_counts_and_clears_on_read() {
    let mut a = Apu::new();
    a.write_u8(0x00FA, 2, 0);
    a.write_u8(0x00F1, 0x01, 0);
    a.cpu_cycles_callback(256 * 5);
    assert_eq!(a.read_u8(0x00FD, 0), 2);
    assert_eq!(a.read_u8(0x00FD, 0), 0);
    assert_eq!(a.read_u8(0x00FA, 0), 0);
}

#[test]
fn smp_test_register_halts_timers_unless_p_flag_set() {
    let mut a = Apu::new();
    a.write_u8(0x00FA, 1, 0);
    a.write_u8(0x00F1, 0x01, 0);
    a.write_u8(0x00F0, 0x01, 0x20);
    a.cpu_cycles_callback(256);
    assert_eq!(a.read_u8(0x00FD, 0), 1);
    a.write_u8(0x00F0, 0x01, 0x00);
    a.cpu_cycles_callback(256);
    assert_eq!(a.read_u8(0x00FD, 0), 0);
}

use nes_emulator::snes_boot::{BootFlags, BootHandshake, BootState};

fn flags(hle: bool) -> BootFlags {
    BootFlags {
        boot_hle_enabled: hle,
        fast_upload: false,
        skip_boot: false,
        fake_upload: false,
        smw_apu_echo: false,
        smw_apu_hle_handshake: false,
        smw_apu_port_echo_strict: false,
        force_port0: None,
        debug_force_port0: None,
        debug_force_port1: None,
    }
}

#[test]
fn without_high_level_boot_ports_pass_through() {
    let mut b = BootHandshake::new(flags(false));
    assert_eq!(b.boot_state(), BootState::Running);
    assert_eq!(b.read_port(0), 0);
    b.write_port(1, 0x42, 0);
    assert_eq!(b.smp_read_u8(0x00F5, 0), 0x42);
    b.smp_write_u8(0x00F6, 0x99, 0);
    b.refresh_ports();
    assert_eq!(b.read_port(2), 0x99);
}

#[test]
fn high_level_boot_uploads_and_starts() {
    let mut b = BootHandshake::new(flags(true));
    assert_eq!(b.boot_state(), BootState::ReadySignature);
    assert_eq!(b.read_port(0), 0xAA);
    assert_eq!(b.read_port(1), 0xBB);
    b.write_port(0, 0x00, 0);
    assert_eq!(b.read_port(0), 0xAA);
    b.write_port(2, 0x00, 0);
    b.write_port(3, 0x03, 0);
    b.write_port(0, 0xCC, 0);
    assert_eq!(b.boot_state(), BootState::Uploading);
    assert_eq!(b.read_port(0), 0xCC);
    b.write_port(1, 0x12, 0);
    b.write_port(0, 0x00, 0);
    assert_eq!(b.read_port(0), 0x00);
    b.write_port(0, 0x01, 0);
    b.write_port(1, 0x34, 0);
    assert_eq!(b.smp_read_u8(0x0300, 0), 0x12);
    assert_eq!(b.smp_read_u8(0x0301, 0), 0x34);
    b.write_port(1, 0x00, 0);
    b.write_port(0, 0x05, 0);
    assert_eq!(b.boot_state(), BootState::Running);
    assert_eq!(b.take_start_pc(), Some(0x0300));
    assert_eq!(b.take_start_pc(), None);
    assert_eq!(b.read_port(0), 0x05);
}

#[test]
fn skipped_boot_starts_running_with_cc_ack() {
    let mut f = flags(true);
    f.skip_boot = true;
    let mut b = BootHandshake::new(f);
    assert_eq!(b.boot_state(), BootState::Running);
    assert_eq!(b.take_start_pc(), Some(0x0200));
}

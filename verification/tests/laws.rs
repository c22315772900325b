use nes_emulator::audio::{AudioRing, SnesAudioSource};
use nes_emulator::cartridge::load::Cartridge;
use nes_emulator::snes_timer::Timer;

fn mmc5_cart() -> Cartridge {
    let mut data = vec![0x4E, 0x45, 0x53, 0x1A, 2, 1, 0x50, 0x00];
    data.resize(16, 0);
    data.resize(16 + 2 * 16384 + 8192, 0);
    match Cartridge::load(&data) {
        Ok(c) => c,
        Err(_) => panic!("image refused"),
    }
}

#[test]
fn timer_split_feeding_matches_one_feed() {
    let mut a = Timer::new(3);
    a.set_target(4);
    a.set_start_stop_bit(true);
    a.cpu_cycles_callback(17);
    a.cpu_cycles_callback(40);
    let mut b = Timer::new(3);
    b.set_target(4);
    b.set_start_stop_bit(true);
    b.cpu_cycles_callback(57);
    assert_eq!(a.read_counter(), b.read_counter());
    a.cpu_cycles_callback(30);
    b.cpu_cycles_callback(30);
    assert_eq!(a.read_counter(), b.read_counter());
}

#[test]
fn timer_counter_closed_form() {
    let mut t = Timer::new(2);
    t.set_target(3);
    t.set_start_stop_bit(true);
    t.cpu_cycles_callback(90);
    assert_eq!(t.read_counter(), 15);
    let mut u = Timer::new(2);
    u.set_target(3);
    u.set_start_stop_bit(true);
    u.cpu_cycles_callback(101);
    assert_eq!(u.read_counter(), 0);
}

#[test]
fn mmc5_prg_ram_locked_until_unlock_pair() {
    let mut c = mmc5_cart();
    c.write_prg_ram(0x6000, 0x77);
    assert_eq!(c.read_prg_ram(0x6000), 0);
    c.write_prg_mmc5(0x5102, 0x02);
    c.write_prg_mmc5(0x5103, 0x01);
    c.write_prg_ram(0x6000, 0x77);
    assert_eq!(c.read_prg_ram(0x6000), 0x77);
}

#[test]
fn audio_source_hands_out_ring_frames_in_order() {
    let mut ring = AudioRing::new(16);
    ring.push_samples(&[(1, 2), (3, 4)]);
    let mut s = SnesAudioSource::new(44100, 2);
    assert_eq!(s.next_from_ring(&mut ring), 1);
    assert_eq!(s.next_from_ring(&mut ring), 2);
    assert_eq!(s.next_from_ring(&mut ring), 3);
    assert_eq!(s.next_from_ring(&mut ring), 4);
    assert_eq!(s.next_from_ring(&mut ring), 0);
}

#[test]
fn mmc5_exram_cpu_writes_follow_the_mode() {
    let mut c = mmc5_cart();
    c.write_prg_mmc5(0x5104, 2);
    c.write_prg_mmc5(0x5C10, 0x5A);
    assert_eq!(c.read_prg_low(0x5C10), 0x5A);
    c.write_prg_mmc5(0x5104, 3);
    c.write_prg_mmc5(0x5C10, 0x11);
    assert_eq!(c.read_prg_low(0x5C10), 0x5A);
}

#[test]
fn mmc5_multiplier_bytes() {
    let mut c = mmc5_cart();
    assert_eq!(c.read_prg_low(0x5205), 0x01);
    assert_eq!(c.read_prg_low(0x5206), 0xFE);
    c.write_prg_mmc5(0x5205, 200);
    c.write_prg_mmc5(0x5206, 100);
    assert_eq!(c.read_prg_low(0x5205), 0x20);
    assert_eq!(c.read_prg_low(0x5206), 0x4E);
}

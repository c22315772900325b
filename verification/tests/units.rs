use nes_emulator::apu::Apu;
use nes_emulator::audio::{ring_has_room, video_frame_samples, AudioRing, SnesAudioSource};
use nes_emulator::cartridge::load::{Cartridge, LoadError};
use nes_emulator::cartridge::mapper::fme7::Sunsoft5BAudio;
use nes_emulator::cartridge::mapper::mmc1::Mmc1;
use nes_emulator::cartridge::mapper::mmc5::Mmc5;
use nes_emulator::cartridge::mapper::sunsoft4::Sunsoft4;
use nes_emulator::cartridge::mapper::vrc3::Vrc3;
use nes_emulator::cartridge::Mirroring;
use nes_emulator::cli::{parse_buttons, parse_headless_args, parse_u32_hex_or_dec, wram_dump_lines, Args, ArgsError};
use nes_emulator::snes_timer::Timer;
use std::collections::HashMap;

#[test]
fn timer_counts_stage2_ticks_per_target() {
    let mut t = Timer::new(128);
    t.set_target(2);
    t.set_start_stop_bit(true);
    t.cpu_cycles_callback(128 * 4);
    assert_eq!(t.read_counter(), 2);
    assert_eq!(t.read_counter(), 0);
}

#[test]
fn timer_target_zero_means_256_ticks() {
    let mut t = Timer::new(1);
    t.set_target(0);
    t.set_start_stop_bit(true);
    t.cpu_cycles_callback(255);
    assert_eq!(t.read_counter(), 0);
    t.cpu_cycles_callback(1);
    assert_eq!(t.read_counter(), 1);
}

#[test]
fn timer_stopped_ignores_cycles() {
    let mut t = Timer::new(16);
    t.set_target(1);
    t.cpu_cycles_callback(1000);
    assert_eq!(t.read_counter(), 0);
}

#[test]
fn timer_counter_reads_low_nibble() {
    let mut t = Timer::new(1);
    t.set_target(1);
    t.set_start_stop_bit(true);
    t.cpu_cycles_callback(17);
    assert_eq!(t.read_counter(), 1);
}

#[test]
fn frame_irq_raised_at_end_of_four_step_sequence() {
    let mut apu = Apu::new();
    apu.write_register(0x4017, 0x00);
    for _ in 0..29828 {
        apu.step();
    }
    assert!(!apu.frame_irq_pending());
    apu.step();
    assert!(apu.frame_irq_pending());
    assert!(apu.irq_pending());
    assert_eq!(apu.read_register(0x4015) & 0x40, 0x40);
    assert!(!apu.frame_irq_pending());
}

#[test]
fn frame_irq_suppressed_by_inhibit_flag() {
    let mut apu = Apu::new();
    apu.write_register(0x4017, 0x40);
    for _ in 0..40000 {
        apu.step();
    }
    assert!(!apu.frame_irq_pending());
}

#[test]
fn noise_register_never_reaches_zero() {
    let mut apu = Apu::new();
    apu.write_register(0x4015, 0x08);
    apu.write_register(0x400E, 0x80);
    apu.write_register(0x400F, 0x08);
    for _ in 0..20000 {
        apu.step();
        let reg = apu.snapshot_state().noise.shift_register;
        assert!(reg != 0 && reg <= 0x7FFF);
    }
}

#[test]
fn dmc_direct_load_keeps_seven_bits() {
    let mut apu = Apu::new();
    apu.write_register(0x4011, 0xFF);
    assert_eq!(apu.snapshot_state().dmc.output_level, 127);
    assert_eq!(apu.channel_levels().4, 127);
}

#[test]
fn sweep_keeps_period_within_eleven_bits() {
    let mut apu = Apu::new();
    apu.write_register(0x4015, 0x01);
    apu.write_register(0x4002, 0xF0);
    apu.write_register(0x4003, 0x07);
    apu.write_register(0x4001, 0x81);
    for _ in 0..100000 {
        apu.step();
        assert!(apu.snapshot_state().pulse1.timer_reload <= 0x7FF);
    }
    assert_eq!(apu.snapshot_state().pulse1.timer_reload, 0x7F0);
}

#[test]
fn pulse_length_counter_loads_from_table() {
    let mut apu = Apu::new();
    apu.write_register(0x4015, 0x01);
    apu.write_register(0x4003, 0x08);
    assert_eq!(apu.snapshot_state().pulse1.length_counter, 254);
    assert_eq!(apu.read_register(0x4015) & 0x01, 0x01);
    apu.write_register(0x4015, 0x00);
    assert_eq!(apu.snapshot_state().pulse1.length_counter, 0);
}

#[test]
fn apu_snapshot_restore_round_trip() {
    let mut apu = Apu::new();
    apu.write_register(0x4015, 0x0F);
    apu.write_register(0x4000, 0xBF);
    apu.write_register(0x4003, 0x18);
    apu.write_register(0x4008, 0x81);
    apu.write_register(0x400B, 0x20);
    for _ in 0..5000 {
        apu.step();
    }
    let saved = apu.snapshot_state();
    let mut other = Apu::new();
    other.restore_state(&saved);
    assert_eq!(other.snapshot_state(), saved);
}

#[test]
fn legacy_state_resets_everything_but_frame_fields() {
    let mut apu = Apu::new();
    apu.write_register(0x4015, 0x0F);
    apu.restore_legacy_state(7, true);
    let s = apu.snapshot_state();
    assert_eq!(s.frame_counter, 7);
    assert!(s.frame_irq);
    assert!(!s.pulse1_enabled);
}

#[test]
fn audio_ring_drops_oldest_frames() {
    let mut ring = AudioRing::new(4);
    ring.push_samples(&[(1, -1), (2, -2), (3, -3)]);
    ring.push_samples(&[(4, -4), (5, -5), (6, -6)]);
    assert_eq!(ring.len(), 4);
    let mut out = Vec::new();
    let n = ring.pop_into(&mut out, 10);
    assert_eq!(n, 4);
    assert_eq!(out, vec![(3, -3), (4, -4), (5, -5), (6, -6)]);
    assert_eq!(ring.len(), 0);
}

#[test]
fn audio_ring_empty_push_keeps_contents() {
    let mut ring = AudioRing::new(2);
    ring.push_samples(&[(1, 1), (2, 2)]);
    ring.push_samples(&[]);
    assert_eq!(ring.len(), 2);
    ring.clear();
    assert_eq!(ring.len(), 0);
}

#[test]
fn audio_source_interleaves_and_pads_with_silence() {
    let mut ring = AudioRing::new(16);
    ring.push_samples(&[(10, 20), (30, 40)]);
    let mut src = SnesAudioSource::new(32000, 3);
    assert_eq!(src.channels(), 2);
    assert_eq!(src.sample_rate(), 32000);
    assert!(src.frame_consumed());
    src.generate_audio_frame(&mut ring);
    assert_eq!(ring.len(), 0);
    let samples: Vec<i16> = (0..7).map(|_| src.next_sample()).collect();
    assert_eq!(samples, vec![10, 20, 30, 40, 0, 0, 0]);
    assert!(src.frame_consumed());
}

#[test]
fn hex_or_dec_parses_both_bases() {
    assert_eq!(parse_u32_hex_or_dec("0x1F"), Some(31));
    assert_eq!(parse_u32_hex_or_dec("  42 "), Some(42));
    assert_eq!(parse_u32_hex_or_dec("+7"), Some(7));
    assert_eq!(parse_u32_hex_or_dec("0x0200"), Some(0x200));
    assert_eq!(parse_u32_hex_or_dec("4294967295"), Some(u32::MAX));
    assert_eq!(parse_u32_hex_or_dec("0xFFFFFFFF"), Some(u32::MAX));
}

#[test]
fn hex_or_dec_rejects_malformed_values() {
    assert_eq!(parse_u32_hex_or_dec(""), None);
    assert_eq!(parse_u32_hex_or_dec("0x"), None);
    assert_eq!(parse_u32_hex_or_dec("+"), None);
    assert_eq!(parse_u32_hex_or_dec("-1"), None);
    assert_eq!(parse_u32_hex_or_dec("12a"), None);
    assert_eq!(parse_u32_hex_or_dec("0X10"), None);
    assert_eq!(parse_u32_hex_or_dec("4294967296"), None);
    assert_eq!(parse_u32_hex_or_dec("0x100000000"), None);
}

#[test]
fn buttons_combine_named_bits() {
    assert_eq!(parse_buttons("A,Start"), 0x09);
    assert_eq!(parse_buttons(" Up , Right "), 0x90);
    assert_eq!(parse_buttons("B,Select,Down,Left"), 0x66);
    assert_eq!(parse_buttons(""), 0x00);
    assert_eq!(parse_buttons("A,,B"), 0x03);
    assert_eq!(parse_buttons("Turbo,A"), 0x01);
}

#[test]
fn capture_frames_are_listed_or_all() {
    let args = Args {
        rom_path: "game.nes".to_string(),
        max_frames: 300,
        inputs: HashMap::new(),
        captures: vec![10, 20],
        capture_dir: "/tmp".to_string(),
        all_frames: false,
    };
    assert!(args.should_capture(20));
    assert!(!args.should_capture(15));
    let all = Args { all_frames: true, ..args };
    assert!(all.should_capture(15));
}

fn mmc1_serial_write(m: &mut Mmc1, addr: u16, value: u8) -> Option<Mirroring> {
    let mut last = None;
    for k in 0..5 {
        last = m.write_register(addr, (value >> k) & 1);
    }
    last
}

#[test]
fn mmc1_five_writes_load_registers() {
    let mut m = Mmc1::new();
    assert_eq!(mmc1_serial_write(&mut m, 0xE000, 0x13), None);
    assert_eq!(m.prg_bank, 0x03);
    assert!(m.prg_ram_disable);
    assert_eq!(m.shift_count, 0);
    assert_eq!(mmc1_serial_write(&mut m, 0x8000, 0x02), Some(Mirroring::Vertical));
    assert_eq!(m.control, 0x02);
    assert_eq!(mmc1_serial_write(&mut m, 0xA000, 0x11), None);
    assert_eq!(m.chr_bank_0, 0x11);
}

#[test]
fn mmc1_reset_write_forces_last_bank_mode() {
    let mut m = Mmc1::new();
    m.write_register(0x8000, 0x01);
    m.write_register(0x8000, 0x80);
    assert_eq!(m.shift_count, 0);
    assert_eq!(m.shift_register, 0x10);
    assert_eq!(m.control & 0x0C, 0x0C);
}

#[test]
fn mmc5_registers_and_prg_ram_windows() {
    let mut m = Mmc5::new();
    let mut prg_ram = vec![0u8; 0x20000];
    m.write_register(0x5100, 0x03, &mut prg_ram);
    assert_eq!(m.prg_mode, 3);
    m.write_register(0x5105, 0xE4, &mut prg_ram);
    assert_eq!(m.nametable_map, [0, 1, 2, 3]);
    m.write_register(0x6005, 0xAA, &mut prg_ram);
    assert_eq!(prg_ram[0x0005], 0);
    m.write_register(0x5102, 0x02, &mut prg_ram);
    m.write_register(0x5103, 0x01, &mut prg_ram);
    m.write_register(0x5113, 0x01, &mut prg_ram);
    m.write_register(0x6005, 0xAA, &mut prg_ram);
    assert_eq!(prg_ram[0x2005], 0xAA);
    m.write_register(0x5114, 0x02, &mut prg_ram);
    m.write_register(0x8010, 0x55, &mut prg_ram);
    assert_eq!(prg_ram[0x4010], 0x55);
    m.write_register(0xA010, 0x66, &mut prg_ram);
    assert!(prg_ram.iter().all(|&b| b != 0x66));
    m.write_register(0x5C01, 0x77, &mut prg_ram);
    assert_eq!(m.exram[1], 0x77);
    m.write_register(0x5128, 0x09, &mut prg_ram);
    assert!(m.ppu_data_uses_bg_banks);
    assert_eq!(m.bg_chr_banks[0], 0x09);
}

#[test]
fn mmc5_irq_disable_clears_pending() {
    let mut m = Mmc5::new();
    let mut prg_ram = Vec::new();
    m.irq_pending = true;
    m.write_register(0x5204, 0x80, &mut prg_ram);
    assert!(m.irq_enabled && m.irq_pending);
    m.write_register(0x5204, 0x00, &mut prg_ram);
    assert!(!m.irq_enabled && !m.irq_pending);
}

#[test]
fn mmc5_pcm_write_mode_sets_dac_or_irq() {
    let mut m = Mmc5::new();
    let mut prg_ram = Vec::new();
    m.write_register(0x5011, 0x40, &mut prg_ram);
    assert_eq!(m.pcm_dac, 0);
    m.write_register(0x5010, 0x80, &mut prg_ram);
    m.write_register(0x5011, 0x40, &mut prg_ram);
    assert_eq!(m.pcm_dac, 0x40);
    m.write_register(0x5011, 0x00, &mut prg_ram);
    assert!(m.pcm_irq_pending);
    assert!(m.combined_irq_pending());
}

fn ines_image(prg_banks: u8, chr_banks: u8, flags6: u8, flags7: u8) -> Vec<u8> {
    let mut data = vec![0x4E, 0x45, 0x53, 0x1A, prg_banks, chr_banks, flags6, flags7];
    data.resize(16, 0);
    for i in 0..(prg_banks as usize * 16384) {
        data.push((i % 251) as u8);
    }
    for i in 0..(chr_banks as usize * 8192) {
        data.push((i % 13) as u8);
    }
    data
}

#[test]
fn load_reads_header_and_images() {
    let data = ines_image(2, 1, 0x13, 0x00);
    let cart = match Cartridge::load(&data) {
        Ok(c) => c,
        Err(_) => panic!("valid image refused"),
    };
    assert_eq!(cart.mapper, 1);
    assert_eq!(cart.mirroring, Mirroring::Vertical);
    assert!(cart.has_battery);
    assert_eq!(cart.prg_rom.len(), 32768);
    assert_eq!(cart.prg_rom[251], 0);
    assert_eq!(cart.chr_rom.len(), 8192);
    assert_eq!(cart.chr_rom[14], 1);
    assert_eq!(cart.prg_ram.len(), 8192);
    assert!(cart.chr_ram.is_empty());
    assert!(cart.mmc1.is_some());
    assert!(cart.mmc3.is_none());
}

#[test]
fn load_board_specific_memories() {
    let data = ines_image(1, 0, 0x40, 0x00);
    let cart = match Cartridge::load(&data) {
        Ok(c) => c,
        Err(_) => panic!("valid image refused"),
    };
    assert_eq!(cart.mapper, 4);
    assert_eq!(cart.chr_rom.len(), 8192);
    assert!(cart.mmc3.is_some());
    let data = ines_image(1, 0, 0x02, 0x10);
    let cart = match Cartridge::load(&data) {
        Ok(c) => c,
        Err(_) => panic!("valid image refused"),
    };
    assert_eq!(cart.mapper, 16);
    assert_eq!(cart.prg_ram, vec![0xFF; 256]);
    assert!(cart.bandai_fcg.is_some());
    let data = ines_image(1, 1, 0x08, 0x00);
    let cart = match Cartridge::load(&data) {
        Ok(c) => c,
        Err(_) => panic!("valid image refused"),
    };
    assert_eq!(cart.mirroring, Mirroring::FourScreen);
}

#[test]
fn load_rejects_missing_signature() {
    let mut data = ines_image(1, 1, 0, 0);
    data[3] = 0x1B;
    match Cartridge::load(&data) {
        Err(e) => assert_eq!(e, LoadError::InvalidFormat),
        Ok(_) => panic!("image without signature accepted"),
    }
}

#[test]
fn sunsoft4_control_selects_mirroring() {
    assert_eq!(Sunsoft4::decode_mirroring(0x00), Mirroring::Vertical);
    assert_eq!(Sunsoft4::decode_mirroring(0x11), Mirroring::Horizontal);
    assert_eq!(Sunsoft4::decode_mirroring(0x02), Mirroring::OneScreenLower);
    assert_eq!(Sunsoft4::decode_mirroring(0x13), Mirroring::OneScreenUpper);
}

#[test]
fn vrc3_nibble_writes_build_reload_value() {
    let mut v = Vrc3::new();
    v.write_latch_nibble(0, 0x1A);
    v.write_latch_nibble(1, 0x0B);
    v.write_latch_nibble(2, 0x0C);
    v.write_latch_nibble(3, 0xFD);
    assert_eq!(v.irq_reload, 0xDCBA);
    v.write_control(0x02);
    assert_eq!(v.irq_counter, 0xDCBA);
    assert!(v.irq_enabled);
}

fn strings(list: &[&str]) -> Vec<String> {
    list.iter().map(|s| s.to_string()).collect()
}

#[test]
fn headless_options_parse_in_order() {
    let args = strings(&[
        "headless_test",
        "game.nes",
        "--frames",
        "120",
        "--input",
        "60:Start",
        "--input",
        "65:",
        "--capture",
        "100",
        "--capture-dir",
        "/out",
        "--all-frames",
    ]);
    let parsed = match parse_headless_args(&args) {
        Ok(a) => a,
        Err(e) => panic!("refused: {:?}", e),
    };
    assert_eq!(parsed.rom_path, "game.nes");
    assert_eq!(parsed.max_frames, 120);
    assert_eq!(parsed.inputs.get(&60), Some(&0x08));
    assert_eq!(parsed.inputs.get(&65), Some(&0x00));
    assert_eq!(parsed.captures, vec![100]);
    assert_eq!(parsed.capture_dir, "/out");
    assert!(parsed.all_frames);
}

#[test]
fn headless_defaults_without_options() {
    let args = strings(&["headless_test", "game.nes"]);
    let parsed = match parse_headless_args(&args) {
        Ok(a) => a,
        Err(e) => panic!("refused: {:?}", e),
    };
    assert_eq!(parsed.max_frames, 300);
    assert!(parsed.inputs.is_empty());
    assert!(parsed.captures.is_empty());
    assert_eq!(parsed.capture_dir, "/tmp");
    assert!(!parsed.all_frames);
}

#[test]
fn headless_option_errors() {
    let err = |list: &[&str]| match parse_headless_args(&strings(list)) {
        Ok(_) => panic!("accepted"),
        Err(e) => e,
    };
    assert_eq!(err(&["headless_test"]), ArgsError::Usage);
    assert_eq!(err(&["t", "g.nes", "--frames"]), ArgsError::MissingValue(3));
    assert_eq!(err(&["t", "g.nes", "--frames", "0x10"]), ArgsError::InvalidFrames);
    assert_eq!(err(&["t", "g.nes", "--input", "60"]), ArgsError::InvalidInputFormat);
    assert_eq!(err(&["t", "g.nes", "--input", "x:A"]), ArgsError::InvalidFrameNumber);
    assert_eq!(err(&["t", "g.nes", "--capture", "-1"]), ArgsError::InvalidCaptureFrame);
    assert_eq!(err(&["t", "g.nes", "--all-frames", "--fast"]), ArgsError::UnknownOption(3));
}

#[test]
fn dump_options_take_numbers_and_first_path() {
    let args = strings(&["rom.sfc", "--frames", "0x10", "--start", "256", "--length", "0x20", "--nz", "other"]);
    let d = nes_emulator::cli::parse_dump_args(&args);
    assert_eq!(d.rom, Some("rom.sfc".to_string()));
    assert_eq!(d.frames, Some(16));
    assert_eq!(d.start, Some(256));
    assert_eq!(d.len, Some(32));
    assert!(d.nonzero_only);
    let d = nes_emulator::cli::parse_dump_args(&strings(&["--start", "zz", "--len"]));
    assert_eq!(d.rom, None);
    assert_eq!(d.start, None);
    assert_eq!(d.len, None);
}

#[test]
fn wram_dump_lines_cut_and_skip_zero_lines() {
    let mut wram = vec![0u8; 64];
    wram[20] = 7;
    assert_eq!(wram_dump_lines(&wram, 8, 100, false), Some(vec![(8, 24), (24, 40), (40, 56), (56, 64)]));
    assert_eq!(wram_dump_lines(&wram, 8, 100, true), Some(vec![(8, 24)]));
    assert_eq!(wram_dump_lines(&wram, 64, 1, false), None);
}

#[test]
fn video_frames_pace_samples_exactly() {
    let mut acc = 0u32;
    let mut total = 0usize;
    for _ in 0..60 {
        let (n, a) = video_frame_samples(44100, acc);
        assert!(n == 735);
        total += n;
        acc = a;
    }
    assert_eq!(total, 44100);
    let mut acc = 0u32;
    let mut total = 0usize;
    for _ in 0..60 {
        let (n, a) = video_frame_samples(32050, acc);
        total += n;
        acc = a;
    }
    assert_eq!(total, 32050);
    assert_eq!(acc, 0);
    assert_eq!(video_frame_samples(32050, 50), (535, 0));
    assert_eq!(video_frame_samples(32050, 40), (534, 50));
    assert!(ring_has_room(10, 100, 50));
    assert!(!ring_has_room(50, 100, 50));
    assert!(!ring_has_room(0, 10, 50));
}

#[test]
fn sunsoft5b_envelope_ramps_up_then_holds() {
    let mut a = Sunsoft5BAudio::new();
    a.write_select(11);
    a.write_data(1);
    a.write_select(13);
    a.write_data(0x0D);
    assert_eq!(a.envelope_volume, 0);
    assert!(a.envelope_up);
    for _ in 0..(15 * 16) {
        a.clock();
    }
    assert_eq!(a.envelope_volume, 15);
    assert!(!a.envelope_holding);
    for _ in 0..16 {
        a.clock();
    }
    assert_eq!(a.envelope_volume, 15);
    assert!(a.envelope_holding);
    a.write_select(13);
    a.write_data(0x00);
    assert_eq!(a.envelope_volume, 15);
    assert!(!a.envelope_up);
    for _ in 0..(16 * 16) {
        a.clock();
    }
    assert_eq!(a.envelope_volume, 0);
    assert!(a.envelope_holding);
}

use nes_emulator::apu::tables::dmc_rate_table;
use nes_emulator::apu::Apu;

fn step_dmc(apu: &mut Apu, cycles: usize, sample_data: u8) {
    for _ in 0..cycles {
        if let Some((addr, _stall_cycles)) = apu.pull_dmc_sample_request() {
            assert_eq!(addr, 0xC000);
            apu.push_dmc_sample(sample_data);
        }
        apu.step();
    }
}

#[test]
fn dmc_fetches_sample_and_modulates_output() {
    let mut apu = Apu::new();
    apu.write_register(0x4010, 0x0F);
    apu.write_register(0x4011, 64);
    apu.write_register(0x4012, 0x00);
    apu.write_register(0x4013, 0x00);
    apu.write_register(0x4015, 0x10);

    assert_eq!(apu.pull_dmc_sample_request(), None);
    apu.step();
    assert_eq!(apu.pull_dmc_sample_request(), None);
    apu.step();
    assert_eq!(apu.pull_dmc_sample_request(), Some((0xC000, 3)));
    apu.push_dmc_sample(0xFF);

    let cycles = apu.snapshot_state().dmc.timer as usize + (dmc_rate_table(15) as usize + 1) * 20;
    step_dmc(&mut apu, cycles, 0xFF);

    assert!(apu.snapshot_state().dmc.output_level > 64);
    assert_eq!(apu.read_register(0x4015) & 0x10, 0);
}

#[test]
fn dmc_sets_irq_and_write_4015_clears_it() {
    let mut apu = Apu::new();
    apu.write_register(0x4010, 0x80);
    apu.write_register(0x4012, 0x00);
    apu.write_register(0x4013, 0x00);
    apu.write_register(0x4015, 0x10);

    assert_eq!(apu.pull_dmc_sample_request(), None);
    apu.step();
    assert_eq!(apu.pull_dmc_sample_request(), None);
    apu.step();
    assert_eq!(apu.pull_dmc_sample_request(), Some((0xC000, 3)));
    assert!(apu.snapshot_state().dmc.irq_pending);
    apu.push_dmc_sample(0x00);

    let status = apu.read_register(0x4015);
    assert_eq!(status & 0x80, 0x80);
    assert!(apu.snapshot_state().dmc.irq_pending);

    apu.write_register(0x4015, 0x00);
    assert!(!apu.snapshot_state().dmc.irq_pending);
}

#[test]
fn apu_state_restores_dmc_progress() {
    let mut apu = Apu::new();
    apu.write_register(0x4010, 0x8F);
    apu.write_register(0x4011, 32);
    apu.write_register(0x4012, 0x00);
    apu.write_register(0x4013, 0x01);
    apu.write_register(0x4015, 0x10);

    assert_eq!(apu.pull_dmc_sample_request(), None);
    apu.step();
    assert_eq!(apu.pull_dmc_sample_request(), None);
    apu.step();
    assert_eq!(apu.pull_dmc_sample_request(), Some((0xC000, 3)));
    apu.push_dmc_sample(0xAA);
    let cycles = apu.snapshot_state().dmc.timer as usize + (dmc_rate_table(15) as usize + 1) * 6;
    step_dmc(&mut apu, cycles, 0x55);

    let snapshot = apu.snapshot_state();
    let mut restored = Apu::new();
    restored.restore_state(&snapshot);

    for _ in 0..64 {
        let request = apu.pull_dmc_sample_request();
        assert_eq!(request, restored.pull_dmc_sample_request());
        if request.is_some() {
            apu.push_dmc_sample(0x33);
            restored.push_dmc_sample(0x33);
        }

        apu.step();
        restored.step();

        let a = apu.snapshot_state().dmc;
        let r = restored.snapshot_state().dmc;
        assert_eq!(r.output_level, a.output_level);
        assert_eq!(r.timer, a.timer);
        assert_eq!(r.bytes_remaining, a.bytes_remaining);
        assert_eq!(r.sample_buffer, a.sample_buffer);
        assert_eq!(r.shift_register, a.shift_register);
        assert_eq!(r.bits_remaining, a.bits_remaining);
        assert_eq!(r.silence, a.silence);
    }
}

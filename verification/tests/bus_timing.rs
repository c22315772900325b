use nes_emulator::bus_timing::BusTiming;

#[test]
fn restore_timing_state_restores_dma_and_frame_flags() {
    let mut bus = BusTiming::new();
    bus.restore_timing_state(7, true, 2, true);

    assert!(bus.is_dma_in_progress());
    assert_eq!(bus.take_dmc_stall_cycles(), 2);
    assert!(bus.ppu_frame_complete());
    assert!(!bus.ppu_frame_complete());

    assert!(!bus.step_dma());
    let (dma_cycles, dma_in_progress, dmc_stall_cycles, ppu_frame_complete) = bus.timing_state();
    assert_eq!(dma_cycles, 6);
    assert!(dma_in_progress);
    assert_eq!(dmc_stall_cycles, 0);
    assert!(!ppu_frame_complete);
}

#[test]
fn oam_dma_holds_the_cpu_for_513_cycles() {
    let mut bus = BusTiming::new();
    bus.start_oam_dma();
    for _ in 0..512 {
        assert!(!bus.step_dma());
    }
    assert!(bus.step_dma());
    assert!(!bus.is_dma_in_progress());
    assert!(!bus.step_dma());
}

#[test]
fn controller_shifts_buttons_after_strobe() {
    let mut bus = BusTiming::new();
    bus.set_controller(0b0000_0101);
    bus.write_strobe(1);
    assert_eq!(bus.read_controller(), 1);
    bus.write_strobe(0);
    assert_eq!(bus.read_controller(), 1);
    assert_eq!(bus.read_controller(), 0);
    assert_eq!(bus.read_controller(), 1);
    assert_eq!(bus.read_controller(), 0);
}

#[test]
fn dmc_stall_cycles_accumulate_until_taken() {
    let mut bus = BusTiming::new();
    bus.add_dmc_stall_cycles(3);
    bus.add_dmc_stall_cycles(4);
    assert_eq!(bus.take_dmc_stall_cycles(), 7);
    assert_eq!(bus.take_dmc_stall_cycles(), 0);
    assert_eq!(bus.get_dma_cycles(), 0);
}

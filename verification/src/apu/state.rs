//! Plain snapshots of the APU channels, as stored in save states.

use vstd::prelude::*;

verus! {

#[derive(Debug, Clone, Copy, PartialEq, Eq)]
pub struct PulseChannelState {
    pub duty: u8,
    pub length_counter: u8,
    pub envelope_divider: u8,
    pub envelope_decay: u8,
    pub envelope_disable: bool,
    pub envelope_start: bool,
    pub volume: u8,
    pub sweep_enabled: bool,
    pub sweep_period: u8,
    pub sweep_negate: bool,
    pub sweep_shift: u8,
    pub sweep_reload: bool,
    pub sweep_divider: u8,
    pub timer: u16,
    pub timer_reload: u16,
    pub duty_counter: u8,
    pub length_enabled: bool,
    pub is_pulse1: bool,
}

impl PulseChannelState {
    /// A pulse channel can only be in a state whose duty selector and duty
    /// step index their tables and whose sweep shift is a shift of the
    /// 16-bit period.
    pub open spec fn valid(&self) -> bool {
        &&& self.duty < 4
        &&& self.duty_counter < 8
        &&& self.sweep_shift < 16
    }
}

#[derive(Debug, Clone, Copy, PartialEq, Eq)]
pub struct TriangleChannelState {
    pub linear_counter: u8,
    pub linear_reload: u8,
    pub linear_control: bool,
    pub linear_reload_flag: bool,
    pub length_counter: u8,
    pub timer: u16,
    pub timer_reload: u16,
    pub sequence_counter: u8,
    pub length_enabled: bool,
}

impl TriangleChannelState {
    /// The sequencer position indexes the 32-step waveform.
    pub open spec fn valid(&self) -> bool {
        self.sequence_counter < 32
    }
}

#[derive(Debug, Clone, Copy, PartialEq, Eq)]
pub struct NoiseChannelState {
    pub length_counter: u8,
    pub envelope_divider: u8,
    pub envelope_decay: u8,
    pub envelope_disable: bool,
    pub envelope_start: bool,
    pub volume: u8,
    pub mode: bool,
    pub timer: u16,
    pub timer_reload: u16,
    pub shift_register: u16,
    pub length_enabled: bool,
}

#[derive(Debug, Clone, Copy, PartialEq, Eq)]
pub struct DmcState {
    pub irq_enabled: bool,
    pub irq_pending: bool,
    pub loop_flag: bool,
    pub timer: u16,
    pub timer_reload: u16,
    pub output_level: u8,
    pub sample_address: u16,
    pub sample_length: u16,
    pub current_address: u16,
    pub bytes_remaining: u16,
    pub sample_buffer: Option<u8>,
    pub shift_register: u8,
    pub bits_remaining: u8,
    pub silence: bool,
    pub dma_delay: u8,
    pub pending_dma_stall_cycles: u8,
}

} // verus!

verus! {

/// The register and sequencer state of the APU (the audio filter chain that
/// turns channel levels into samples is kept by the host).
#[derive(Debug, Clone, Copy, PartialEq, Eq)]
pub struct ApuState {
    pub pulse1: PulseChannelState,
    pub pulse2: PulseChannelState,
    pub triangle: TriangleChannelState,
    pub noise: NoiseChannelState,
    pub dmc: DmcState,
    pub frame_counter: u16,
    pub cycle_count: u64,
    pub frame_mode: bool,
    pub irq_disable: bool,
    pub frame_irq: bool,
    pub pulse1_enabled: bool,
    pub pulse2_enabled: bool,
    pub triangle_enabled: bool,
    pub noise_enabled: bool,
    pub dmc_enabled: bool,
}

/// Length in CPU cycles of a frame-sequencer period: 29829 in 4-step mode,
/// 37281 in 5-step mode.
pub open spec fn frame_period(five_step: bool) -> u16 {
    if five_step {
        37281
    } else {
        29829
    }
}

impl ApuState {
    /// The channels are valid and the frame counter has not passed the end
    /// of the current sequence.
    pub open spec fn valid(&self) -> bool {
        &&& self.pulse1.valid()
        &&& self.pulse2.valid()
        &&& self.triangle.valid()
        &&& self.frame_counter < frame_period(self.frame_mode)
    }
}

} // verus!

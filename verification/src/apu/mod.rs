//! The 2A03 APU: its five channels and the frame sequencer that clocks them.

pub mod tables;
pub mod state;
pub mod envelope;
pub mod pulse;
pub mod triangle;
pub mod noise;
pub mod dmc;
pub mod laws;

use vstd::prelude::*;
use crate::apu::state::{frame_period, ApuState};
use crate::apu::pulse::{pulse_output, pulse_write_control, pulse_write_sweep, pulse_write_timer_low, pulse_write_timer_high, pulse_power_on, pulse_step, pulse_clock_envelope, pulse_clock_length, sweep_clock, PulseChannel};
use crate::apu::triangle::{triangle_output, triangle_write_control, triangle_write_timer_low, triangle_write_timer_high, triangle_power_on, linear_clock, triangle_clock_length, triangle_step, TriangleChannel};
use crate::apu::noise::{noise_output, noise_write_control, noise_write_period, noise_write_length, noise_power_on, noise_clock_envelope, noise_clock_length, noise_step, NoiseChannel};
use crate::apu::dmc::{dmc_write_control, dmc_write_direct_load, dmc_write_sample_address, dmc_write_sample_length, dmc_power_on, dmc_set_enabled, dmc_step, DmcChannel};

verus! {

pub struct Apu {
    pulse1: PulseChannel,
    pulse2: PulseChannel,
    triangle: TriangleChannel,
    noise: NoiseChannel,
    dmc: DmcChannel,
    frame_counter: u16,
    cycle_count: u64,
    frame_mode: bool,
    irq_disable: bool,
    frame_irq: bool,
    pulse1_enabled: bool,
    pulse2_enabled: bool,
    triangle_enabled: bool,
    noise_enabled: bool,
    dmc_enabled: bool,
}

impl View for Apu {
    type V = ApuState;

    closed spec fn view(&self) -> ApuState {
        ApuState {
            pulse1: self.pulse1@,
            pulse2: self.pulse2@,
            triangle: self.triangle@,
            noise: self.noise@,
            dmc: self.dmc@,
            frame_counter: self.frame_counter,
            cycle_count: self.cycle_count,
            frame_mode: self.frame_mode,
            irq_disable: self.irq_disable,
            frame_irq: self.frame_irq,
            pulse1_enabled: self.pulse1_enabled,
            pulse2_enabled: self.pulse2_enabled,
            triangle_enabled: self.triangle_enabled,
            noise_enabled: self.noise_enabled,
            dmc_enabled: self.dmc_enabled,
        }
    }
}

/// The state at power-on: all channels silent and disabled, 4-step mode
/// with the frame IRQ inhibited.
pub open spec fn apu_power_on() -> ApuState {
    ApuState {
        pulse1: pulse_power_on(true),
        pulse2: pulse_power_on(false),
        triangle: triangle_power_on(),
        noise: noise_power_on(),
        dmc: dmc_power_on(),
        frame_counter: 0,
        cycle_count: 0,
        frame_mode: false,
        irq_disable: true,
        frame_irq: false,
        pulse1_enabled: false,
        pulse2_enabled: false,
        triangle_enabled: false,
        noise_enabled: false,
        dmc_enabled: false,
    }
}

/// Quarter frame: envelopes and the triangle's linear counter.
pub open spec fn quarter_frame(s: ApuState) -> ApuState {
    ApuState {
        pulse1: pulse_clock_envelope(s.pulse1),
        pulse2: pulse_clock_envelope(s.pulse2),
        triangle: linear_clock(s.triangle),
        noise: noise_clock_envelope(s.noise),
        ..s
    }
}

/// Half frame: a quarter frame, then the length counters and the sweeps.
pub open spec fn half_frame(s: ApuState) -> ApuState {
    let q = quarter_frame(s);
    ApuState {
        pulse1: sweep_clock(pulse_clock_length(q.pulse1)),
        pulse2: sweep_clock(pulse_clock_length(q.pulse2)),
        triangle: triangle_clock_length(q.triangle),
        noise: noise_clock_length(q.noise),
        ..q
    }
}

/// The frame-sequencer action taken when the frame counter reaches `n`:
/// quarter frames at 7457 and 22371, half frames at 14913 and at the end of
/// the sequence (29829, or 37281 in 5-step mode, where the counter restarts);
/// the 4-step sequence also raises the frame IRQ at its end unless inhibited.
pub open spec fn frame_sequencer(s: ApuState) -> ApuState {
    let n = s.frame_counter;
    if n == 7457 || n == 22371 {
        quarter_frame(s)
    } else if n == 14913 {
        half_frame(s)
    } else if !s.frame_mode && n == 29829 {
        let h = half_frame(s);
        ApuState { frame_irq: if !s.irq_disable { true } else { h.frame_irq }, frame_counter: 0, ..h }
    } else if s.frame_mode && n == 37281 {
        ApuState { frame_counter: 0, ..half_frame(s) }
    } else {
        s
    }
}

/// One CPU cycle of the APU: the triangle and DMC timers run every cycle,
/// the pulse and noise timers on even cycles, then the frame sequencer.
pub open spec fn apu_step(s: ApuState) -> ApuState {
    let cycle: u64 = if s.cycle_count == u64::MAX { 0 } else { (s.cycle_count + 1) as u64 };
    let even = cycle % 2 == 0;
    let t = ApuState {
        cycle_count: cycle,
        frame_counter: (s.frame_counter + 1) as u16,
        triangle: triangle_step(s.triangle),
        pulse1: if even { pulse_step(s.pulse1) } else { s.pulse1 },
        pulse2: if even { pulse_step(s.pulse2) } else { s.pulse2 },
        noise: if even { noise_step(s.noise) } else { s.noise },
        dmc: dmc_step(s.dmc),
        ..s
    };
    frame_sequencer(t)
}

/// The $4015 status byte: bits 0-3 for the four tone channels that are
/// enabled with a non-zero length counter, bit 4 while DMC bytes remain,
/// bit 6 for the frame IRQ and bit 7 for the DMC IRQ.
pub open spec fn status_byte(s: ApuState) -> u8 {
    ((if s.pulse1_enabled && s.pulse1.length_counter > 0 { 0x01int } else { 0 })
        + (if s.pulse2_enabled && s.pulse2.length_counter > 0 { 0x02int } else { 0 })
        + (if s.triangle_enabled && s.triangle.length_counter > 0 { 0x04int } else { 0 })
        + (if s.noise_enabled && s.noise.length_counter > 0 { 0x08int } else { 0 })
        + (if s.dmc.bytes_remaining > 0 { 0x10int } else { 0 })
        + (if s.frame_irq { 0x40int } else { 0 })
        + (if s.dmc.irq_pending { 0x80int } else { 0 })) as u8
}

/// A write of $4015: the enable bits; disabled tone channels lose their
/// length counter, the DMC IRQ is acknowledged and the DMC is started or
/// stopped.
pub open spec fn write_status(s: ApuState, data: u8) -> ApuState {
    let p1 = data & 0x01 != 0;
    let p2 = data & 0x02 != 0;
    let tri = data & 0x04 != 0;
    let noi = data & 0x08 != 0;
    let d = data & 0x10 != 0;
    ApuState {
        pulse1_enabled: p1,
        pulse2_enabled: p2,
        triangle_enabled: tri,
        noise_enabled: noi,
        dmc_enabled: d,
        pulse1: if p1 { s.pulse1 } else { crate::apu::state::PulseChannelState { length_counter: 0, ..s.pulse1 } },
        pulse2: if p2 { s.pulse2 } else { crate::apu::state::PulseChannelState { length_counter: 0, ..s.pulse2 } },
        triangle: if tri { s.triangle } else { crate::apu::state::TriangleChannelState { length_counter: 0, ..s.triangle } },
        noise: if noi { s.noise } else { crate::apu::state::NoiseChannelState { length_counter: 0, ..s.noise } },
        dmc: dmc_set_enabled(crate::apu::state::DmcState { irq_pending: false, ..s.dmc }, d),
        ..s
    }
}

/// A write of $4017: sequencer mode and IRQ inhibit; the frame IRQ is
/// cleared and the sequence restarts, the 5-step mode clocking a half frame
/// at once.
pub open spec fn write_frame_counter(s: ApuState, data: u8) -> ApuState {
    let t = ApuState {
        frame_mode: (data & 0x80) != 0,
        irq_disable: (data & 0x40) != 0,
        frame_irq: false,
        frame_counter: 0,
        ..s
    };
    if t.frame_mode {
        half_frame(t)
    } else {
        t
    }
}

/// A CPU write of an APU register ($4000-$4013, $4015, $4017); other
/// addresses, and the unused $4009 and $400D, change nothing.
pub open spec fn apu_write(s: ApuState, addr: u16, data: u8) -> ApuState {
    if addr == 0x4000 {
        ApuState { pulse1: pulse_write_control(s.pulse1, data), ..s }
    } else if addr == 0x4001 {
        ApuState { pulse1: pulse_write_sweep(s.pulse1, data), ..s }
    } else if addr == 0x4002 {
        ApuState { pulse1: pulse_write_timer_low(s.pulse1, data), ..s }
    } else if addr == 0x4003 {
        ApuState { pulse1: pulse_write_timer_high(s.pulse1, data, s.pulse1_enabled), ..s }
    } else if addr == 0x4004 {
        ApuState { pulse2: pulse_write_control(s.pulse2, data), ..s }
    } else if addr == 0x4005 {
        ApuState { pulse2: pulse_write_sweep(s.pulse2, data), ..s }
    } else if addr == 0x4006 {
        ApuState { pulse2: pulse_write_timer_low(s.pulse2, data), ..s }
    } else if addr == 0x4007 {
        ApuState { pulse2: pulse_write_timer_high(s.pulse2, data, s.pulse2_enabled), ..s }
    } else if addr == 0x4008 {
        ApuState { triangle: triangle_write_control(s.triangle, data), ..s }
    } else if addr == 0x400A {
        ApuState { triangle: triangle_write_timer_low(s.triangle, data), ..s }
    } else if addr == 0x400B {
        ApuState { triangle: triangle_write_timer_high(s.triangle, data, s.triangle_enabled), ..s }
    } else if addr == 0x400C {
        ApuState { noise: noise_write_control(s.noise, data), ..s }
    } else if addr == 0x400E {
        ApuState { noise: noise_write_period(s.noise, data), ..s }
    } else if addr == 0x400F {
        ApuState { noise: noise_write_length(s.noise, data, s.noise_enabled), ..s }
    } else if addr == 0x4010 {
        ApuState { dmc: dmc_write_control(s.dmc, data), ..s }
    } else if addr == 0x4011 {
        ApuState { dmc: dmc_write_direct_load(s.dmc, data), ..s }
    } else if addr == 0x4012 {
        ApuState { dmc: dmc_write_sample_address(s.dmc, data), ..s }
    } else if addr == 0x4013 {
        ApuState { dmc: dmc_write_sample_length(s.dmc, data), ..s }
    } else if addr == 0x4015 {
        write_status(s, data)
    } else if addr == 0x4017 {
        write_frame_counter(s, data)
    } else {
        s
    }
}

/// The inputs of the non-linear mixer, in the order pulse 1, pulse 2,
/// triangle, noise, DMC.
pub open spec fn mixer_inputs(s: ApuState) -> (u8, u8, u8, u8, u8) {
    (
        if s.pulse1_enabled && s.pulse1.length_counter > 0 { pulse_output(s.pulse1) } else { 0 },
        if s.pulse2_enabled && s.pulse2.length_counter > 0 { pulse_output(s.pulse2) } else { 0 },
        if s.triangle_enabled && s.triangle.length_counter > 0 { triangle_output(s.triangle) } else { 0 },
        if s.noise_enabled && s.noise.length_counter > 0 { noise_output(s.noise) } else { 0 },
        s.dmc.output_level,
    )
}

impl Apu {
    #[verifier::type_invariant]
    spec fn inv(&self) -> bool {
        self.frame_counter < frame_period(self.frame_mode)
    }

    pub fn new() -> (a: Apu)
        ensures
            a@ == apu_power_on(),
    {
        Apu {
            pulse1: PulseChannel::new(true),
            pulse2: PulseChannel::new(false),
            triangle: TriangleChannel::new(),
            noise: NoiseChannel::new(),
            dmc: DmcChannel::new(),
            frame_counter: 0,
            cycle_count: 0,
            frame_mode: false,
            irq_disable: true,
            frame_irq: false,
            pulse1_enabled: false,
            pulse2_enabled: false,
            triangle_enabled: false,
            noise_enabled: false,
            dmc_enabled: false,
        }
    }

    pub fn snapshot_state(&self) -> (s: ApuState)
        ensures
            s == self@,
            s.valid(),
    {
        proof {
            use_type_invariant(self);
        }
        ApuState {
            pulse1: self.pulse1.snapshot_state(),
            pulse2: self.pulse2.snapshot_state(),
            triangle: self.triangle.snapshot_state(),
            noise: self.noise.snapshot_state(),
            dmc: self.dmc.snapshot_state(),
            frame_counter: self.frame_counter,
            cycle_count: self.cycle_count,
            frame_mode: self.frame_mode,
            irq_disable: self.irq_disable,
            frame_irq: self.frame_irq,
            pulse1_enabled: self.pulse1_enabled,
            pulse2_enabled: self.pulse2_enabled,
            triangle_enabled: self.triangle_enabled,
            noise_enabled: self.noise_enabled,
            dmc_enabled: self.dmc_enabled,
        }
    }

    pub fn restore_state(&mut self, state: &ApuState)
        requires
            state.valid(),
        ensures
            final(self)@ == *state,
    {
        let mut pulse1 = PulseChannel::new(true);
        pulse1.restore_state(&state.pulse1);
        let mut pulse2 = PulseChannel::new(false);
        pulse2.restore_state(&state.pulse2);
        let mut triangle = TriangleChannel::new();
        triangle.restore_state(&state.triangle);
        let mut noise = NoiseChannel::new();
        noise.restore_state(&state.noise);
        let mut dmc = DmcChannel::new();
        dmc.restore_state(&state.dmc);
        *self = Apu {
            pulse1,
            pulse2,
            triangle,
            noise,
            dmc,
            frame_counter: state.frame_counter,
            cycle_count: state.cycle_count,
            frame_mode: state.frame_mode,
            irq_disable: state.irq_disable,
            frame_irq: state.frame_irq,
            pulse1_enabled: state.pulse1_enabled,
            pulse2_enabled: state.pulse2_enabled,
            triangle_enabled: state.triangle_enabled,
            noise_enabled: state.noise_enabled,
            dmc_enabled: state.dmc_enabled,
        };
    }

    /// Loads a save state of the old format, which only kept the frame
    /// counter and the frame IRQ flag: everything else is reset.
    pub fn restore_legacy_state(&mut self, frame_counter: u8, frame_irq: bool)
        ensures
            final(self)@ == (ApuState {
                frame_counter: frame_counter as u16,
                frame_irq,
                ..apu_power_on()
            }),
    {
        let mut fresh = Apu::new();
        fresh.frame_counter = frame_counter as u16;
        fresh.frame_irq = frame_irq;
        *self = fresh;
    }

    fn clock_quarter_frame(&mut self)
        ensures
            final(self)@ == quarter_frame(old(self)@),
    {
        proof {
            use_type_invariant(&*self);
        }
        self.pulse1.clock_envelope();
        self.pulse2.clock_envelope();
        self.triangle.clock_linear_counter();
        self.noise.clock_envelope();
    }

    fn clock_half_frame(&mut self)
        ensures
            final(self)@ == half_frame(old(self)@),
    {
        proof {
            use_type_invariant(&*self);
        }
        self.clock_quarter_frame();
        self.pulse1.clock_length_counter();
        self.pulse1.clock_sweep();
        self.pulse2.clock_length_counter();
        self.pulse2.clock_sweep();
        self.triangle.clock_length_counter();
        self.noise.clock_length_counter();
    }

    /// Advances the APU by one CPU cycle.
    #[verifier::rlimit(60)]
    pub fn step(&mut self)
        ensures
            final(self)@ == apu_step(old(self)@),
    {
        proof {
            use_type_invariant(&*self);
        }
        self.cycle_count = self.cycle_count.wrapping_add(1);
        let fc = self.frame_counter + 1;
        self.triangle.step();
        if self.cycle_count & 1 == 0 {
            self.pulse1.step();
            self.pulse2.step();
            self.noise.step();
        }
        self.dmc.step();
        proof {
            let c = self.cycle_count;
            assert(c & 1 == 0 <==> c % 2 == 0) by (bit_vector);
        }
        if fc == 7457 || fc == 22371 {
            self.clock_quarter_frame();
        } else if fc == 14913 {
            self.clock_half_frame();
        } else if !self.frame_mode && fc == 29829 {
            self.clock_half_frame();
            if !self.irq_disable {
                self.frame_irq = true;
            }
        } else if self.frame_mode && fc == 37281 {
            self.clock_half_frame();
        }
        let end = if self.frame_mode { 37281 } else { 29829 };
        self.frame_counter = if fc == end { 0 } else { fc };
    }

    /// The frame IRQ line: the flag is set and not inhibited.
    pub fn frame_irq_pending(&self) -> (r: bool)
        ensures
            r == (self@.frame_irq && !self@.irq_disable),
    {
        self.frame_irq && !self.irq_disable
    }

    /// The APU IRQ line: the frame IRQ or the DMC IRQ.
    pub fn irq_pending(&self) -> (r: bool)
        ensures
            r == ((self@.frame_irq && !self@.irq_disable) || self@.dmc.irq_pending),
    {
        self.frame_irq_pending() || self.dmc.irq_pending()
    }

    pub fn clear_frame_irq(&mut self)
        ensures
            final(self)@ == (ApuState { frame_irq: false, ..old(self)@ }),
    {
        proof {
            use_type_invariant(&*self);
        }
        self.frame_irq = false;
    }

    fn status(&self) -> (r: u8)
        ensures
            r == status_byte(self@),
    {
        let mut status: u8 = 0;
        if self.pulse1_enabled && self.pulse1.length_counter() > 0 {
            status += 0x01;
        }
        if self.pulse2_enabled && self.pulse2.length_counter() > 0 {
            status += 0x02;
        }
        if self.triangle_enabled && self.triangle.length_counter() > 0 {
            status += 0x04;
        }
        if self.noise_enabled && self.noise.length_counter() > 0 {
            status += 0x08;
        }
        if self.dmc.bytes_remaining() > 0 {
            status += 0x10;
        }
        if self.frame_irq {
            status += 0x40;
        }
        if self.dmc.irq_pending() {
            status += 0x80;
        }
        status
    }

    /// A CPU read of an APU register. Only $4015 is readable: it returns the
    /// status byte and acknowledges the frame IRQ; other addresses read 0.
    pub fn read_register(&mut self, addr: u16) -> (r: u8)
        ensures
            addr == 0x4015 ==> r == status_byte(old(self)@)
                && final(self)@ == (ApuState { frame_irq: false, ..old(self)@ }),
            addr != 0x4015 ==> r == 0 && final(self)@ == old(self)@,
    {
        proof {
            use_type_invariant(&*self);
        }
        if addr != 0x4015 {
            return 0;
        }
        let status = self.status();
        self.frame_irq = false;
        status
    }

    /// A CPU write of an APU register.
    pub fn write_register(&mut self, addr: u16, data: u8)
        ensures
            final(self)@ == apu_write(old(self)@, addr, data),
    {
        if 0x4000 <= addr && addr <= 0x4003 {
            self.write_pulse1(addr, data);
        } else if 0x4004 <= addr && addr <= 0x4007 {
            self.write_pulse2(addr, data);
        } else if 0x4008 <= addr && addr <= 0x400F {
            self.write_wave(addr, data);
        } else if 0x4010 <= addr && addr <= 0x4013 {
            self.write_dmc(addr, data);
        } else if addr == 0x4015 {
            self.write_status(data);
        } else if addr == 0x4017 {
            self.write_frame_counter(data);
        }
    }

    #[verifier::rlimit(40)]
    fn write_pulse1(&mut self, addr: u16, data: u8)
        requires
            0x4000 <= addr <= 0x4003,
        ensures
            final(self)@ == apu_write(old(self)@, addr, data),
    {
        proof {
            use_type_invariant(&*self);
        }
        if addr == 0x4000 {
            self.pulse1.write_control(data);
        } else if addr == 0x4001 {
            self.pulse1.write_sweep(data);
        } else if addr == 0x4002 {
            self.pulse1.write_timer_low(data);
        } else {
            self.pulse1.write_timer_high(data, self.pulse1_enabled);
        }
    }

    fn write_pulse2(&mut self, addr: u16, data: u8)
        requires
            0x4004 <= addr <= 0x4007,
        ensures
            final(self)@ == apu_write(old(self)@, addr, data),
    {
        proof {
            use_type_invariant(&*self);
        }
        if addr == 0x4004 {
            self.pulse2.write_control(data);
        } else if addr == 0x4005 {
            self.pulse2.write_sweep(data);
        } else if addr == 0x4006 {
            self.pulse2.write_timer_low(data);
        } else {
            self.pulse2.write_timer_high(data, self.pulse2_enabled);
        }
    }

    fn write_wave(&mut self, addr: u16, data: u8)
        requires
            0x4008 <= addr <= 0x400F,
        ensures
            final(self)@ == apu_write(old(self)@, addr, data),
    {
        proof {
            use_type_invariant(&*self);
        }
        if addr == 0x4008 {
            self.triangle.write_control(data);
        } else if addr == 0x400A {
            self.triangle.write_timer_low(data);
        } else if addr == 0x400B {
            self.triangle.write_timer_high(data, self.triangle_enabled);
        } else if addr == 0x400C {
            self.noise.write_control(data);
        } else if addr == 0x400E {
            self.noise.write_period(data);
        } else if addr == 0x400F {
            self.noise.write_length(data, self.noise_enabled);
        }
    }

    fn write_dmc(&mut self, addr: u16, data: u8)
        requires
            0x4010 <= addr <= 0x4013,
        ensures
            final(self)@ == apu_write(old(self)@, addr, data),
    {
        proof {
            use_type_invariant(&*self);
        }
        if addr == 0x4010 {
            self.dmc.write_control(data);
        } else if addr == 0x4011 {
            self.dmc.write_direct_load(data);
        } else if addr == 0x4012 {
            self.dmc.write_sample_address(data);
        } else {
            self.dmc.write_sample_length(data);
        }
    }

    fn write_status(&mut self, data: u8)
        ensures
            final(self)@ == write_status(old(self)@, data),
    {
        proof {
            use_type_invariant(&*self);
        }
        self.pulse1_enabled = data & 0x01 != 0;
        self.pulse2_enabled = data & 0x02 != 0;
        self.triangle_enabled = data & 0x04 != 0;
        self.noise_enabled = data & 0x08 != 0;
        self.dmc_enabled = data & 0x10 != 0;
        self.dmc.clear_irq();
        if !self.pulse1_enabled {
            self.pulse1.silence();
        }
        if !self.pulse2_enabled {
            self.pulse2.silence();
        }
        if !self.triangle_enabled {
            self.triangle.silence();
        }
        if !self.noise_enabled {
            self.noise.silence();
        }
        self.dmc.set_enabled(self.dmc_enabled);
    }

    fn write_frame_counter(&mut self, data: u8)
        ensures
            final(self)@ == write_frame_counter(old(self)@, data),
    {
        proof {
            use_type_invariant(&*self);
        }
        self.frame_counter = 0;
        self.frame_mode = (data & 0x80) != 0;
        self.irq_disable = (data & 0x40) != 0;
        self.frame_irq = false;
        if self.frame_mode {
            self.clock_half_frame();
        }
    }

    /// The levels the five channels present to the mixer: a tone channel
    /// contributes only while enabled with a non-zero length counter.
    pub fn channel_levels(&self) -> (r: (u8, u8, u8, u8, u8))
        ensures
            r == mixer_inputs(self@),
    {
        let p1 = if self.pulse1_enabled && self.pulse1.length_counter() > 0 {
            self.pulse1.output()
        } else {
            0
        };
        let p2 = if self.pulse2_enabled && self.pulse2.length_counter() > 0 {
            self.pulse2.output()
        } else {
            0
        };
        let tri = if self.triangle_enabled && self.triangle.length_counter() > 0 {
            self.triangle.output()
        } else {
            0
        };
        let noi = if self.noise_enabled && self.noise.length_counter() > 0 {
            self.noise.output()
        } else {
            0
        };
        (p1, p2, tri, noi, self.dmc.output())
    }

    /// The next DMC sample fetch that is due, if any.
    pub fn pull_dmc_sample_request(&mut self) -> (r: Option<(u16, u8)>)
        ensures
            ({
                let o = old(self)@.dmc;
                if o.pending_dma_stall_cycles == 0 || o.sample_buffer.is_some() || o.bytes_remaining == 0 {
                    r == None::<(u16, u8)> && final(self)@ == old(self)@
                } else if o.dma_delay > 0 {
                    r == None::<(u16, u8)> && final(self)@ == (ApuState {
                        dmc: crate::apu::state::DmcState { dma_delay: (o.dma_delay - 1) as u8, ..o },
                        ..old(self)@
                    })
                } else {
                    r == Some((o.current_address, o.pending_dma_stall_cycles))
                        && final(self)@ == (ApuState { dmc: crate::apu::dmc::dmc_after_fetch(o), ..old(self)@ })
                }
            }),
    {
        proof {
            use_type_invariant(&*self);
        }
        self.dmc.pull_sample_request()
    }

    /// Delivers a DMC sample byte read from CPU memory.
    pub fn push_dmc_sample(&mut self, data: u8)
        ensures
            final(self)@ == (ApuState {
                dmc: crate::apu::state::DmcState { sample_buffer: Some(data), ..old(self)@.dmc },
                ..old(self)@
            }),
    {
        proof {
            use_type_invariant(&*self);
        }
        self.dmc.push_sample(data);
    }
}

} // verus!

//! The two pulse (square) channels of the 2A03.

use vstd::prelude::*;
use crate::apu::state::PulseChannelState;
use crate::apu::tables::{lemma_field_ranges, duty_table, length_table, spec_duty_table, spec_length_table};
use crate::apu::envelope::{envelope_clock, length_clock, with_high_bits, with_low_byte};

verus! {

pub struct PulseChannel {
    duty: u8,
    length_counter: u8,
    envelope_divider: u8,
    envelope_decay: u8,
    envelope_disable: bool,
    envelope_start: bool,
    volume: u8,
    sweep_enabled: bool,
    sweep_period: u8,
    sweep_negate: bool,
    sweep_shift: u8,
    sweep_reload: bool,
    sweep_divider: u8,
    timer: u16,
    timer_reload: u16,
    duty_counter: u8,
    length_enabled: bool,
    is_pulse1: bool,
}

impl View for PulseChannel {
    type V = PulseChannelState;

    closed spec fn view(&self) -> PulseChannelState {
        PulseChannelState {
            duty: self.duty,
            length_counter: self.length_counter,
            envelope_divider: self.envelope_divider,
            envelope_decay: self.envelope_decay,
            envelope_disable: self.envelope_disable,
            envelope_start: self.envelope_start,
            volume: self.volume,
            sweep_enabled: self.sweep_enabled,
            sweep_period: self.sweep_period,
            sweep_negate: self.sweep_negate,
            sweep_shift: self.sweep_shift,
            sweep_reload: self.sweep_reload,
            sweep_divider: self.sweep_divider,
            timer: self.timer,
            timer_reload: self.timer_reload,
            duty_counter: self.duty_counter,
            length_enabled: self.length_enabled,
            is_pulse1: self.is_pulse1,
        }
    }
}

/// The period the sweep unit computes from the current one: the current
/// period shifted right by the shift count is added, or subtracted when
/// negating (pulse 1 subtracts one more, being one's complement).
pub open spec fn sweep_target(s: PulseChannelState) -> int {
    let current = s.timer_reload as int;
    let change = (s.timer_reload >> s.sweep_shift) as int;
    if s.sweep_negate {
        if s.is_pulse1 {
            current - change - 1
        } else {
            current - change
        }
    } else {
        current + change
    }
}

/// The channel is silenced while its period is below 8 or the sweep target
/// overflows 11 bits, whether or not the sweep is enabled.
pub open spec fn sweep_muting(s: PulseChannelState) -> bool {
    s.timer_reload < 8 || sweep_target(s) > 0x7FF
}

/// The period after the sweep unit fires: it takes the target period when the
/// sweep is enabled with a non-zero shift and the channel is not muted.
pub open spec fn swept_period(s: PulseChannelState) -> u16 {
    if s.sweep_enabled && s.sweep_shift > 0 && !sweep_muting(s) && sweep_target(s) >= 0 {
        sweep_target(s) as u16
    } else {
        s.timer_reload
    }
}

/// One half-frame clock of the sweep unit.
pub open spec fn sweep_clock(s: PulseChannelState) -> PulseChannelState {
    if s.sweep_reload {
        PulseChannelState {
            sweep_divider: s.sweep_period,
            sweep_reload: false,
            timer_reload: if s.sweep_divider == 0 { swept_period(s) } else { s.timer_reload },
            ..s
        }
    } else if s.sweep_divider == 0 {
        PulseChannelState {
            sweep_divider: s.sweep_period,
            timer_reload: swept_period(s),
            ..s
        }
    } else {
        PulseChannelState { sweep_divider: (s.sweep_divider - 1) as u8, ..s }
    }
}

/// The 4-bit level the channel drives into the mixer.
pub open spec fn pulse_output(s: PulseChannelState) -> u8 {
    if s.length_counter == 0 || sweep_muting(s) || spec_duty_table(s.duty, s.duty_counter) == 0 {
        0
    } else if s.envelope_disable {
        s.volume
    } else {
        s.envelope_decay
    }
}

/// Quarter-frame clock of the volume envelope (loop mode is the length
/// halt flag).
pub open spec fn pulse_clock_envelope(s: PulseChannelState) -> PulseChannelState {
    let (start, divider, decay) = envelope_clock(
        s.envelope_start,
        s.envelope_divider,
        s.envelope_decay,
        s.volume,
        !s.length_enabled,
    );
    PulseChannelState { envelope_start: start, envelope_divider: divider, envelope_decay: decay, ..s }
}

/// Half-frame clock of the length counter.
pub open spec fn pulse_clock_length(s: PulseChannelState) -> PulseChannelState {
    PulseChannelState { length_counter: length_clock(s.length_counter, s.length_enabled), ..s }
}

/// One timer clock: the timer counts down and, on expiry, reloads and
/// advances the 8-step duty sequencer.
pub open spec fn pulse_step(s: PulseChannelState) -> PulseChannelState {
    if s.timer == 0 {
        PulseChannelState { timer: s.timer_reload, duty_counter: ((s.duty_counter + 1) % 8) as u8, ..s }
    } else {
        PulseChannelState { timer: (s.timer - 1) as u16, ..s }
    }
}

/// The state at power-on.
pub open spec fn pulse_power_on(is_pulse1: bool) -> PulseChannelState {
    PulseChannelState {
        duty: 0,
        length_counter: 0,
        envelope_divider: 0,
        envelope_decay: 15,
        envelope_disable: false,
        envelope_start: false,
        volume: 0,
        sweep_enabled: false,
        sweep_period: 0,
        sweep_negate: false,
        sweep_shift: 0,
        sweep_reload: false,
        sweep_divider: 0,
        timer: 0,
        timer_reload: 0,
        duty_counter: 0,
        length_enabled: true,
        is_pulse1,
    }
}

/// The channel after `write_control`.
pub open spec fn pulse_write_control(s: PulseChannelState, data: u8) -> PulseChannelState {
    PulseChannelState {
        duty: (data >> 6) & 0x03,
        length_enabled: (data & 0x20) == 0,
        envelope_disable: (data & 0x10) != 0,
        volume: data & 0x0F,
        ..s
    }
}

/// The channel after `write_sweep`.
pub open spec fn pulse_write_sweep(s: PulseChannelState, data: u8) -> PulseChannelState {
    PulseChannelState {
        sweep_enabled: (data & 0x80) != 0,
        sweep_period: (data >> 4) & 0x07,
        sweep_negate: (data & 0x08) != 0,
        sweep_shift: data & 0x07,
        sweep_reload: true,
        ..s
    }
}

/// The channel after `write_timer_low`.
pub open spec fn pulse_write_timer_low(s: PulseChannelState, data: u8) -> PulseChannelState {
    PulseChannelState {
        timer_reload: with_low_byte(s.timer_reload, data),
        ..s
    }
}

/// The channel after `write_timer_high`.
pub open spec fn pulse_write_timer_high(s: PulseChannelState, data: u8, enabled: bool) -> PulseChannelState {
    PulseChannelState {
        timer_reload: with_high_bits(s.timer_reload, data),
        timer: with_high_bits(s.timer_reload, data),
        length_counter: if enabled {
            spec_length_table((data >> 3) & 0x1F)
        } else {
            s.length_counter
        },
        duty_counter: 0,
        envelope_start: true,
        ..s
    }
}

impl PulseChannel {
    #[verifier::type_invariant]
    spec fn inv(&self) -> bool {
        self@.valid()
    }

    pub fn new(is_pulse1: bool) -> (p: PulseChannel)
        ensures
            p@ == pulse_power_on(is_pulse1),
        no_unwind
    {
        PulseChannel {
            duty: 0,
            length_counter: 0,
            envelope_divider: 0,
            envelope_decay: 15,
            envelope_disable: false,
            envelope_start: false,
            volume: 0,
            sweep_enabled: false,
            sweep_period: 0,
            sweep_negate: false,
            sweep_shift: 0,
            sweep_reload: false,
            sweep_divider: 0,
            timer: 0,
            timer_reload: 0,
            duty_counter: 0,
            length_enabled: true,
            is_pulse1,
        }
    }

    /// $4000/$4004: duty, length halt (envelope loop), constant volume, volume.
    /// The envelope is not restarted.
    pub fn write_control(&mut self, data: u8)
        ensures
            final(self)@ == pulse_write_control(old(self)@, data),
        no_unwind
    {
        proof {
            use_type_invariant(&*self);
        }
        proof {
            lemma_field_ranges(data);
        }
        self.duty = (data >> 6) & 0x03;
        self.length_enabled = (data & 0x20) == 0;
        self.envelope_disable = (data & 0x10) != 0;
        self.volume = data & 0x0F;
    }

    /// $4001/$4005: sweep enable, divider period, negate, shift; sets the
    /// sweep reload flag.
    pub fn write_sweep(&mut self, data: u8)
        ensures
            final(self)@ == pulse_write_sweep(old(self)@, data),
        no_unwind
    {
        proof {
            use_type_invariant(&*self);
        }
        proof {
            lemma_field_ranges(data);
        }
        self.sweep_enabled = (data & 0x80) != 0;
        self.sweep_period = (data >> 4) & 0x07;
        self.sweep_negate = (data & 0x08) != 0;
        self.sweep_shift = data & 0x07;
        self.sweep_reload = true;
    }

    /// $4002/$4006: low 8 bits of the timer period.
    pub fn write_timer_low(&mut self, data: u8)
        ensures
            final(self)@ == pulse_write_timer_low(old(self)@, data),
        no_unwind
    {
        proof {
            use_type_invariant(&*self);
        }
        self.timer_reload = (self.timer_reload & 0xFF00) | data as u16;
    }

    /// $4003/$4007: high 3 bits of the period and, when the channel is
    /// enabled, a length-counter load; restarts the sequencer and the
    /// envelope.
    pub fn write_timer_high(&mut self, data: u8, enabled: bool)
        ensures
            final(self)@ == pulse_write_timer_high(old(self)@, data, enabled),
        no_unwind
    {
        proof {
            use_type_invariant(&*self);
        }
        self.timer_reload = (self.timer_reload & 0x00FF) | ((data as u16 & 0x07) << 8);
        if enabled {
            proof {
                lemma_field_ranges(data);
            }
            self.length_counter = length_table((data >> 3) & 0x1F);
        }
        self.timer = self.timer_reload;
        self.duty_counter = 0;
        self.envelope_start = true;
    }

    /// One timer clock (every other CPU cycle): the timer counts down and,
    /// on expiry, reloads and advances the 8-step duty sequencer.
    pub fn step(&mut self)
        ensures
            final(self)@ == pulse_step(old(self)@),
        no_unwind
    {
        proof {
            use_type_invariant(&*self);
        }
        if self.timer == 0 {
            self.timer = self.timer_reload;
            self.duty_counter = (self.duty_counter + 1) % 8;
        } else {
            self.timer -= 1;
        }
    }

    /// Quarter-frame clock of the volume envelope.
    pub fn clock_envelope(&mut self)
        ensures
            final(self)@ == pulse_clock_envelope(old(self)@),
        no_unwind
    {
        proof {
            use_type_invariant(&*self);
        }
        if self.envelope_start {
            self.envelope_start = false;
            self.envelope_decay = 15;
            self.envelope_divider = self.volume;
        } else if self.envelope_divider == 0 {
            self.envelope_divider = self.volume;
            if self.envelope_decay > 0 {
                self.envelope_decay -= 1;
            } else if !self.length_enabled {
                self.envelope_decay = 15;
            }
        } else {
            self.envelope_divider -= 1;
        }
    }

    /// The sweep unit's target period.
    pub fn sweep_target_period(&self) -> (r: i32)
        ensures
            r == sweep_target(self@),
        no_unwind
    {
        proof {
            use_type_invariant(self);
        }
        let current = self.timer_reload as i32;
        let change = (self.timer_reload >> self.sweep_shift) as i32;
        proof {
            let t = self.timer_reload;
            let sh = self.sweep_shift;
            assert(t >> sh <= t) by (bit_vector);
        }
        if self.sweep_negate {
            if self.is_pulse1 {
                current - change - 1
            } else {
                current - change
            }
        } else {
            current + change
        }
    }

    /// True while the sweep unit silences the channel.
    pub fn is_sweep_muting(&self) -> (r: bool)
        ensures
            r == sweep_muting(self@),
        no_unwind
    {
        self.timer_reload < 8 || self.sweep_target_period() > 0x7FF
    }

    fn apply_sweep(&mut self)
        ensures
            final(self)@ == (PulseChannelState { timer_reload: swept_period(old(self)@), ..old(self)@ }),
        no_unwind
    {
        proof {
            use_type_invariant(&*self);
        }
        if self.sweep_enabled && self.sweep_shift > 0 && !self.is_sweep_muting() {
            let target = self.sweep_target_period();
            if target >= 0 {
                self.timer_reload = target as u16;
            }
        }
    }

    /// Half-frame clock of the sweep unit. When the reload flag is set the
    /// divider is reloaded, and the period is updated first if the divider
    /// had also reached 0.
    pub fn clock_sweep(&mut self)
        ensures
            final(self)@ == sweep_clock(old(self)@),
        no_unwind
    {
        proof {
            use_type_invariant(&*self);
        }
        if self.sweep_reload {
            let old_divider = self.sweep_divider;
            if old_divider == 0 {
                self.apply_sweep();
            }
            self.sweep_divider = self.sweep_period;
            self.sweep_reload = false;
        } else if self.sweep_divider == 0 {
            self.apply_sweep();
            self.sweep_divider = self.sweep_period;
        } else {
            self.sweep_divider -= 1;
        }
    }

    /// Half-frame clock of the length counter.
    pub fn clock_length_counter(&mut self)
        ensures
            final(self)@ == pulse_clock_length(old(self)@),
        no_unwind
    {
        proof {
            use_type_invariant(&*self);
        }
        if self.length_enabled && self.length_counter > 0 {
            self.length_counter -= 1;
        }
    }

    /// The channel's current output level, 0 to 15.
    pub fn output(&self) -> (r: u8)
        ensures
            r == pulse_output(self@),
        no_unwind
    {
        proof {
            use_type_invariant(self);
        }
        if self.length_counter == 0 || self.is_sweep_muting() {
            return 0;
        }
        if duty_table(self.duty, self.duty_counter) == 0 {
            return 0;
        }
        if self.envelope_disable {
            self.volume
        } else {
            self.envelope_decay
        }
    }

    pub fn length_counter(&self) -> (r: u8)
        ensures
            r == self@.length_counter,
        no_unwind
    {
        self.length_counter
    }

    /// Clears the length counter (the channel was disabled through $4015).
    pub fn silence(&mut self)
        ensures
            final(self)@ == (PulseChannelState { length_counter: 0, ..old(self)@ }),
        no_unwind
    {
        proof {
            use_type_invariant(&*self);
        }
        self.length_counter = 0;
    }

    pub fn snapshot_state(&self) -> (s: PulseChannelState)
        ensures
            s == self@,
            s.valid(),
        no_unwind
    {
        proof {
            use_type_invariant(self);
        }
        PulseChannelState {
            duty: self.duty,
            length_counter: self.length_counter,
            envelope_divider: self.envelope_divider,
            envelope_decay: self.envelope_decay,
            envelope_disable: self.envelope_disable,
            envelope_start: self.envelope_start,
            volume: self.volume,
            sweep_enabled: self.sweep_enabled,
            sweep_period: self.sweep_period,
            sweep_negate: self.sweep_negate,
            sweep_shift: self.sweep_shift,
            sweep_reload: self.sweep_reload,
            sweep_divider: self.sweep_divider,
            timer: self.timer,
            timer_reload: self.timer_reload,
            duty_counter: self.duty_counter,
            length_enabled: self.length_enabled,
            is_pulse1: self.is_pulse1,
        }
    }

    pub fn restore_state(&mut self, state: &PulseChannelState)
        requires
            state.valid(),
        ensures
            final(self)@ == *state,
        no_unwind
    {
        proof {
            use_type_invariant(&*self);
        }
        self.duty = state.duty;
        self.length_counter = state.length_counter;
        self.envelope_divider = state.envelope_divider;
        self.envelope_decay = state.envelope_decay;
        self.envelope_disable = state.envelope_disable;
        self.envelope_start = state.envelope_start;
        self.volume = state.volume;
        self.sweep_enabled = state.sweep_enabled;
        self.sweep_period = state.sweep_period;
        self.sweep_negate = state.sweep_negate;
        self.sweep_shift = state.sweep_shift;
        self.sweep_reload = state.sweep_reload;
        self.sweep_divider = state.sweep_divider;
        self.timer = state.timer;
        self.timer_reload = state.timer_reload;
        self.duty_counter = state.duty_counter;
        self.length_enabled = state.length_enabled;
        self.is_pulse1 = state.is_pulse1;
    }
}

} // verus!

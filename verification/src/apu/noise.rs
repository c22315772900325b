//! The noise channel of the 2A03: a 15-bit linear-feedback shift register.

use vstd::prelude::*;
use crate::apu::state::NoiseChannelState;
use crate::apu::tables::{lemma_field_ranges, length_table, noise_period_table, spec_length_table, spec_noise_period_table};
use crate::apu::envelope::{envelope_clock, length_clock};

verus! {

pub struct NoiseChannel {
    length_counter: u8,
    envelope_divider: u8,
    envelope_decay: u8,
    envelope_disable: bool,
    envelope_start: bool,
    volume: u8,
    mode: bool,
    timer: u16,
    timer_reload: u16,
    shift_register: u16,
    length_enabled: bool,
}

impl View for NoiseChannel {
    type V = NoiseChannelState;

    closed spec fn view(&self) -> NoiseChannelState {
        NoiseChannelState {
            length_counter: self.length_counter,
            envelope_divider: self.envelope_divider,
            envelope_decay: self.envelope_decay,
            envelope_disable: self.envelope_disable,
            envelope_start: self.envelope_start,
            volume: self.volume,
            mode: self.mode,
            timer: self.timer,
            timer_reload: self.timer_reload,
            shift_register: self.shift_register,
            length_enabled: self.length_enabled,
        }
    }
}

/// One shift of the feedback register: bit 0 is XORed with bit 6 (short
/// mode) or bit 1 (long mode), the register shifts right and the result
/// enters at bit 14.
pub open spec fn lfsr_shift(reg: u16, short_mode: bool) -> u16 {
    let feedback: u16 = if short_mode {
        ((reg >> 0u16) ^ (reg >> 6u16)) & 1
    } else {
        ((reg >> 0u16) ^ (reg >> 1u16)) & 1
    };
    (reg >> 1u16) | (feedback << 14u16)
}

/// One timer clock: on expiry the timer reloads and the register shifts.
pub open spec fn noise_step(s: NoiseChannelState) -> NoiseChannelState {
    if s.timer == 0 {
        NoiseChannelState {
            timer: s.timer_reload,
            shift_register: lfsr_shift(s.shift_register, s.mode),
            ..s
        }
    } else {
        NoiseChannelState { timer: (s.timer - 1) as u16, ..s }
    }
}

/// The 4-bit level the channel drives into the mixer: silent while bit 0 of
/// the register is set.
pub open spec fn noise_output(s: NoiseChannelState) -> u8 {
    if s.length_counter == 0 || (s.shift_register & 1) != 0 {
        0
    } else if s.envelope_disable {
        s.volume
    } else {
        s.envelope_decay
    }
}

/// Quarter-frame clock of the volume envelope (loop mode is the length
/// halt flag).
pub open spec fn noise_clock_envelope(s: NoiseChannelState) -> NoiseChannelState {
    let (start, divider, decay) = envelope_clock(
        s.envelope_start,
        s.envelope_divider,
        s.envelope_decay,
        s.volume,
        !s.length_enabled,
    );
    NoiseChannelState { envelope_start: start, envelope_divider: divider, envelope_decay: decay, ..s }
}

/// Half-frame clock of the length counter.
pub open spec fn noise_clock_length(s: NoiseChannelState) -> NoiseChannelState {
    NoiseChannelState { length_counter: length_clock(s.length_counter, s.length_enabled), ..s }
}

/// The state at power-on.
pub open spec fn noise_power_on() -> NoiseChannelState {
    NoiseChannelState {
        length_counter: 0,
        envelope_divider: 0,
        envelope_decay: 0,
        envelope_disable: false,
        envelope_start: false,
        volume: 0,
        mode: false,
        timer: 0,
        timer_reload: 0,
        shift_register: 1,
        length_enabled: true,
    }
}

/// The channel after `write_control`.
pub open spec fn noise_write_control(s: NoiseChannelState, data: u8) -> NoiseChannelState {
    NoiseChannelState {
        length_enabled: (data & 0x20) == 0,
        envelope_disable: (data & 0x10) != 0,
        volume: data & 0x0F,
        ..s
    }
}

/// The channel after `write_period`.
pub open spec fn noise_write_period(s: NoiseChannelState, data: u8) -> NoiseChannelState {
    NoiseChannelState {
        mode: (data & 0x80) != 0,
        timer_reload: spec_noise_period_table(data & 0x0F),
        ..s
    }
}

/// The channel after `write_length`.
pub open spec fn noise_write_length(s: NoiseChannelState, data: u8, enabled: bool) -> NoiseChannelState {
    NoiseChannelState {
        length_counter: if enabled {
            spec_length_table((data >> 3) & 0x1F)
        } else {
            s.length_counter
        },
        envelope_start: true,
        ..s
    }
}

impl NoiseChannel {
    pub fn new() -> (n: NoiseChannel)
        ensures
            n@ == noise_power_on(),
        no_unwind
    {
        NoiseChannel {
            length_counter: 0,
            envelope_divider: 0,
            envelope_decay: 0,
            envelope_disable: false,
            envelope_start: false,
            volume: 0,
            mode: false,
            timer: 0,
            timer_reload: 0,
            shift_register: 1,
            length_enabled: true,
        }
    }

    /// $400C: length halt (envelope loop), constant volume, volume. The
    /// envelope is not restarted.
    pub fn write_control(&mut self, data: u8)
        ensures
            final(self)@ == noise_write_control(old(self)@, data),
        no_unwind
    {
        self.length_enabled = (data & 0x20) == 0;
        self.envelope_disable = (data & 0x10) != 0;
        self.volume = data & 0x0F;
    }

    /// $400E: mode flag and period index.
    pub fn write_period(&mut self, data: u8)
        ensures
            final(self)@ == noise_write_period(old(self)@, data),
        no_unwind
    {
        self.mode = (data & 0x80) != 0;
        proof {
            lemma_field_ranges(data);
        }
        self.timer_reload = noise_period_table(data & 0x0F);
    }

    /// $400F: a length load when enabled; restarts the envelope.
    pub fn write_length(&mut self, data: u8, enabled: bool)
        ensures
            final(self)@ == noise_write_length(old(self)@, data, enabled),
        no_unwind
    {
        if enabled {
            proof {
                lemma_field_ranges(data);
            }
            self.length_counter = length_table((data >> 3) & 0x1F);
        }
        self.envelope_start = true;
    }

    /// One timer clock (every other CPU cycle).
    pub fn step(&mut self)
        ensures
            final(self)@ == noise_step(old(self)@),
        no_unwind
    {
        if self.timer == 0 {
            self.timer = self.timer_reload;
            let feedback_bit = if self.mode {
                ((self.shift_register >> 0) ^ (self.shift_register >> 6)) & 1
            } else {
                ((self.shift_register >> 0) ^ (self.shift_register >> 1)) & 1
            };
            proof {
                let r = self.shift_register;
                assert(((r >> 0u16) ^ (r >> 6u16)) & 1 <= 1) by (bit_vector);
                assert(((r >> 0u16) ^ (r >> 1u16)) & 1 <= 1) by (bit_vector);
                assert(forall|f: u16| f <= 1 ==> f << 14u16 <= 0x4000) by (bit_vector);
            }
            self.shift_register >>= 1;
            self.shift_register |= feedback_bit << 14;
        } else {
            self.timer -= 1;
        }
    }

    /// Quarter-frame clock of the volume envelope.
    pub fn clock_envelope(&mut self)
        ensures
            final(self)@ == noise_clock_envelope(old(self)@),
        no_unwind
    {
        if self.envelope_start {
            self.envelope_start = false;
            self.envelope_decay = 15;
            self.envelope_divider = self.volume;
        } else if self.envelope_divider == 0 {
            self.envelope_divider = self.volume;
            if self.envelope_decay > 0 {
                self.envelope_decay -= 1;
            } else if !self.length_enabled {
                self.envelope_decay = 15;
            }
        } else {
            self.envelope_divider -= 1;
        }
    }

    /// Half-frame clock of the length counter.
    pub fn clock_length_counter(&mut self)
        ensures
            final(self)@ == noise_clock_length(old(self)@),
        no_unwind
    {
        if self.length_enabled && self.length_counter > 0 {
            self.length_counter -= 1;
        }
    }

    /// The channel's current output level, 0 to 15.
    pub fn output(&self) -> (r: u8)
        ensures
            r == noise_output(self@),
        no_unwind
    {
        if self.length_counter == 0 {
            return 0;
        }
        if (self.shift_register & 1) != 0 {
            return 0;
        }
        if self.envelope_disable {
            self.volume
        } else {
            self.envelope_decay
        }
    }

    pub fn length_counter(&self) -> (r: u8)
        ensures
            r == self@.length_counter,
        no_unwind
    {
        self.length_counter
    }

    /// Clears the length counter (the channel was disabled through $4015).
    pub fn silence(&mut self)
        ensures
            final(self)@ == (NoiseChannelState { length_counter: 0, ..old(self)@ }),
        no_unwind
    {
        self.length_counter = 0;
    }

    pub fn snapshot_state(&self) -> (s: NoiseChannelState)
        ensures
            s == self@,
        no_unwind
    {
        NoiseChannelState {
            length_counter: self.length_counter,
            envelope_divider: self.envelope_divider,
            envelope_decay: self.envelope_decay,
            envelope_disable: self.envelope_disable,
            envelope_start: self.envelope_start,
            volume: self.volume,
            mode: self.mode,
            timer: self.timer,
            timer_reload: self.timer_reload,
            shift_register: self.shift_register,
            length_enabled: self.length_enabled,
        }
    }

    pub fn restore_state(&mut self, state: &NoiseChannelState)
        ensures
            final(self)@ == *state,
        no_unwind
    {
        self.length_counter = state.length_counter;
        self.envelope_divider = state.envelope_divider;
        self.envelope_decay = state.envelope_decay;
        self.envelope_disable = state.envelope_disable;
        self.envelope_start = state.envelope_start;
        self.volume = state.volume;
        self.mode = state.mode;
        self.timer = state.timer;
        self.timer_reload = state.timer_reload;
        self.shift_register = state.shift_register;
        self.length_enabled = state.length_enabled;
    }
}

} // verus!

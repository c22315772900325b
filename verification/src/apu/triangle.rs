//! The triangle channel of the 2A03.

use vstd::prelude::*;
use crate::apu::state::TriangleChannelState;
use crate::apu::tables::{lemma_field_ranges, length_table, spec_length_table, spec_triangle_sequence, triangle_sequence};
use crate::apu::envelope::{length_clock, with_high_bits, with_low_byte};

verus! {

pub struct TriangleChannel {
    linear_counter: u8,
    linear_reload: u8,
    linear_control: bool,
    linear_reload_flag: bool,
    length_counter: u8,
    timer: u16,
    timer_reload: u16,
    sequence_counter: u8,
    length_enabled: bool,
}

impl View for TriangleChannel {
    type V = TriangleChannelState;

    closed spec fn view(&self) -> TriangleChannelState {
        TriangleChannelState {
            linear_counter: self.linear_counter,
            linear_reload: self.linear_reload,
            linear_control: self.linear_control,
            linear_reload_flag: self.linear_reload_flag,
            length_counter: self.length_counter,
            timer: self.timer,
            timer_reload: self.timer_reload,
            sequence_counter: self.sequence_counter,
            length_enabled: self.length_enabled,
        }
    }
}

/// One timer clock: on expiry the timer reloads, and the sequencer advances
/// only while both counters are non-zero and the period is at least 2
/// (ultrasonic periods freeze the waveform).
pub open spec fn triangle_step(s: TriangleChannelState) -> TriangleChannelState {
    if s.timer == 0 {
        TriangleChannelState {
            timer: s.timer_reload,
            sequence_counter: if s.linear_counter > 0 && s.length_counter > 0 && s.timer_reload >= 2 {
                ((s.sequence_counter + 1) % 32) as u8
            } else {
                s.sequence_counter
            },
            ..s
        }
    } else {
        TriangleChannelState { timer: (s.timer - 1) as u16, ..s }
    }
}

/// Quarter-frame clock of the linear counter: reload while the reload flag
/// is set, otherwise count down; the flag is cleared unless the control bit
/// holds it.
pub open spec fn linear_clock(s: TriangleChannelState) -> TriangleChannelState {
    TriangleChannelState {
        linear_counter: if s.linear_reload_flag {
            s.linear_reload
        } else if s.linear_counter > 0 {
            (s.linear_counter - 1) as u8
        } else {
            s.linear_counter
        },
        linear_reload_flag: if !s.linear_control { false } else { s.linear_reload_flag },
        ..s
    }
}

/// The 4-bit level the channel drives into the mixer.
pub open spec fn triangle_output(s: TriangleChannelState) -> u8 {
    if s.length_counter == 0 || s.linear_counter == 0 || s.timer_reload < 2 {
        0
    } else {
        spec_triangle_sequence(s.sequence_counter)
    }
}

/// Half-frame clock of the length counter.
pub open spec fn triangle_clock_length(s: TriangleChannelState) -> TriangleChannelState {
    TriangleChannelState { length_counter: length_clock(s.length_counter, s.length_enabled), ..s }
}

/// The state at power-on.
pub open spec fn triangle_power_on() -> TriangleChannelState {
    TriangleChannelState {
        linear_counter: 0,
        linear_reload: 0,
        linear_control: false,
        linear_reload_flag: false,
        length_counter: 0,
        timer: 0,
        timer_reload: 0,
        sequence_counter: 0,
        length_enabled: true,
    }
}

/// The channel after `write_control`.
pub open spec fn triangle_write_control(s: TriangleChannelState, data: u8) -> TriangleChannelState {
    TriangleChannelState {
        linear_control: (data & 0x80) != 0,
        linear_reload: data & 0x7F,
        length_enabled: (data & 0x80) == 0,
        ..s
    }
}

/// The channel after `write_timer_low`.
pub open spec fn triangle_write_timer_low(s: TriangleChannelState, data: u8) -> TriangleChannelState {
    TriangleChannelState {
        timer_reload: with_low_byte(s.timer_reload, data),
        ..s
    }
}

/// The channel after `write_timer_high`.
pub open spec fn triangle_write_timer_high(s: TriangleChannelState, data: u8, enabled: bool) -> TriangleChannelState {
    TriangleChannelState {
        timer_reload: with_high_bits(s.timer_reload, data),
        length_counter: if enabled {
            spec_length_table((data >> 3) & 0x1F)
        } else {
            s.length_counter
        },
        linear_reload_flag: true,
        ..s
    }
}

impl TriangleChannel {
    #[verifier::type_invariant]
    spec fn inv(&self) -> bool {
        self@.valid()
    }

    pub fn new() -> (t: TriangleChannel)
        ensures
            t@ == triangle_power_on(),
        no_unwind
    {
        TriangleChannel {
            linear_counter: 0,
            linear_reload: 0,
            linear_control: false,
            linear_reload_flag: false,
            length_counter: 0,
            timer: 0,
            timer_reload: 0,
            sequence_counter: 0,
            length_enabled: true,
        }
    }

    /// $4008: control flag (also the length halt) and linear reload value.
    pub fn write_control(&mut self, data: u8)
        ensures
            final(self)@ == triangle_write_control(old(self)@, data),
        no_unwind
    {
        proof {
            use_type_invariant(&*self);
        }
        self.linear_control = (data & 0x80) != 0;
        self.linear_reload = data & 0x7F;
        self.length_enabled = !self.linear_control;
    }

    /// $400A: low 8 bits of the period.
    pub fn write_timer_low(&mut self, data: u8)
        ensures
            final(self)@ == triangle_write_timer_low(old(self)@, data),
        no_unwind
    {
        proof {
            use_type_invariant(&*self);
        }
        self.timer_reload = (self.timer_reload & 0xFF00) | data as u16;
    }

    /// $400B: high 3 bits of the period, a length load when enabled, and the
    /// linear-counter reload flag.
    pub fn write_timer_high(&mut self, data: u8, enabled: bool)
        ensures
            final(self)@ == triangle_write_timer_high(old(self)@, data, enabled),
        no_unwind
    {
        proof {
            use_type_invariant(&*self);
        }
        self.timer_reload = (self.timer_reload & 0x00FF) | ((data as u16 & 0x07) << 8);
        if enabled {
            proof {
                lemma_field_ranges(data);
            }
            self.length_counter = length_table((data >> 3) & 0x1F);
        }
        self.linear_reload_flag = true;
    }

    /// One timer clock (every CPU cycle).
    pub fn step(&mut self)
        ensures
            final(self)@ == triangle_step(old(self)@),
        no_unwind
    {
        proof {
            use_type_invariant(&*self);
        }
        if self.timer == 0 {
            self.timer = self.timer_reload;
            if self.linear_counter > 0 && self.length_counter > 0 && self.timer_reload >= 2 {
                self.sequence_counter = (self.sequence_counter + 1) % 32;
            }
        } else {
            self.timer -= 1;
        }
    }

    /// Quarter-frame clock of the linear counter.
    pub fn clock_linear_counter(&mut self)
        ensures
            final(self)@ == linear_clock(old(self)@),
        no_unwind
    {
        proof {
            use_type_invariant(&*self);
        }
        if self.linear_reload_flag {
            self.linear_counter = self.linear_reload;
        } else if self.linear_counter > 0 {
            self.linear_counter -= 1;
        }
        if !self.linear_control {
            self.linear_reload_flag = false;
        }
    }

    /// Half-frame clock of the length counter.
    pub fn clock_length_counter(&mut self)
        ensures
            final(self)@ == triangle_clock_length(old(self)@),
        no_unwind
    {
        proof {
            use_type_invariant(&*self);
        }
        if self.length_enabled && self.length_counter > 0 {
            self.length_counter -= 1;
        }
    }

    /// The channel's current output level, 0 to 15.
    pub fn output(&self) -> (r: u8)
        ensures
            r == triangle_output(self@),
        no_unwind
    {
        proof {
            use_type_invariant(self);
        }
        if self.length_counter == 0 || self.linear_counter == 0 || self.timer_reload < 2 {
            return 0;
        }
        triangle_sequence(self.sequence_counter)
    }

    pub fn length_counter(&self) -> (r: u8)
        ensures
            r == self@.length_counter,
        no_unwind
    {
        self.length_counter
    }

    /// Clears the length counter (the channel was disabled through $4015).
    pub fn silence(&mut self)
        ensures
            final(self)@ == (TriangleChannelState { length_counter: 0, ..old(self)@ }),
        no_unwind
    {
        proof {
            use_type_invariant(&*self);
        }
        self.length_counter = 0;
    }

    pub fn snapshot_state(&self) -> (s: TriangleChannelState)
        ensures
            s == self@,
            s.valid(),
        no_unwind
    {
        proof {
            use_type_invariant(self);
        }
        TriangleChannelState {
            linear_counter: self.linear_counter,
            linear_reload: self.linear_reload,
            linear_control: self.linear_control,
            linear_reload_flag: self.linear_reload_flag,
            length_counter: self.length_counter,
            timer: self.timer,
            timer_reload: self.timer_reload,
            sequence_counter: self.sequence_counter,
            length_enabled: self.length_enabled,
        }
    }

    pub fn restore_state(&mut self, state: &TriangleChannelState)
        requires
            state.valid(),
        ensures
            final(self)@ == *state,
        no_unwind
    {
        proof {
            use_type_invariant(&*self);
        }
        self.linear_counter = state.linear_counter;
        self.linear_reload = state.linear_reload;
        self.linear_control = state.linear_control;
        self.linear_reload_flag = state.linear_reload_flag;
        self.length_counter = state.length_counter;
        self.timer = state.timer;
        self.timer_reload = state.timer_reload;
        self.sequence_counter = state.sequence_counter;
        self.length_enabled = state.length_enabled;
    }
}

} // verus!

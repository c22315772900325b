//! Konami VRC6 (mappers 24 and 26): the VRC IRQ counter and the expansion
//! sound of two pulse channels and a sawtooth.

use vstd::prelude::*;
use crate::cartridge::state::{Vrc6PulseState, Vrc6SawState, Vrc6State};
use crate::cartridge::mapper::vrc_irq::{lemma_vrc_irq_cycles_step, lemma_vrc_prescaler_bounds, vrc_irq_clock_counter, vrc_irq_cycles, VrcIrq};

verus! {

#[derive(Debug, Clone)]
pub struct Vrc6Pulse {
    pub volume: u8,
    pub duty: u8,
    pub ignore_duty: bool,
    pub period: u16,
    pub enabled: bool,
    pub step: u8,
    pub divider: u16,
}

/// The timer period after the frequency-scaling shift ($9003), at least 1.
pub open spec fn scaled_period(period: u16, shift: u8) -> u16 {
    let p = period >> shift;
    if p > 1 { p } else { 1 }
}

/// A pulse after one CPU cycle: unless halted or disabled, the divider
/// counts down and, on expiry, reloads and steps the 16-step duty
/// sequencer down.
pub open spec fn vrc6_pulse_clocked(p: Vrc6Pulse, shift: u8, halt: bool) -> Vrc6Pulse {
    if halt || !p.enabled {
        p
    } else if p.divider == 0 {
        Vrc6Pulse { divider: scaled_period(p.period, shift), step: ((p.step + 15) % 16) as u8, ..p }
    } else {
        Vrc6Pulse { divider: (p.divider - 1) as u16, ..p }
    }
}

/// The 4-bit output of a pulse channel: the volume during the duty portion
/// of the 16-step cycle (always in duty-ignore mode), else 0; 0 when
/// disabled.
pub open spec fn pulse_level(p: Vrc6Pulse) -> u8 {
    if !p.enabled {
        0
    } else if p.ignore_duty || p.step <= p.duty {
        p.volume
    } else {
        0
    }
}

/// The save-state record of a pulse channel.
pub open spec fn pulse_record(p: Vrc6Pulse) -> Vrc6PulseState {
    Vrc6PulseState {
        volume: p.volume,
        duty: p.duty,
        ignore_duty: p.ignore_duty,
        period: p.period,
        enabled: p.enabled,
        step: p.step,
        divider: p.divider,
    }
}

impl Vrc6Pulse {
    pub fn new() -> (p: Vrc6Pulse)
        ensures
            p == (Vrc6Pulse { volume: 0, duty: 0, ignore_duty: false, period: 0, enabled: false, step: 15, divider: 0 }),
    {
        Vrc6Pulse { volume: 0, duty: 0, ignore_duty: false, period: 0, enabled: false, step: 15, divider: 0 }
    }

    /// $9000/$A000: volume, duty and duty-ignore (digitized) mode.
    pub fn write_control(&mut self, data: u8)
        ensures
            *final(self) == (Vrc6Pulse {
                volume: data & 0x0F,
                duty: (data >> 4) & 0x07,
                ignore_duty: data & 0x80 != 0,
                ..*old(self)
            }),
    {
        self.volume = data & 0x0F;
        self.duty = (data >> 4) & 0x07;
        self.ignore_duty = data & 0x80 != 0;
    }

    /// $9001/$A001: low 8 bits of the 12-bit period.
    pub fn write_period_low(&mut self, data: u8)
        ensures
            *final(self) == (Vrc6Pulse { period: (old(self).period & 0x0F00) | (data as u16), ..*old(self) }),
    {
        self.period = (self.period & 0x0F00) | data as u16;
    }

    /// $9002/$A002: high 4 bits of the period and the enable bit; disabling
    /// resets the duty step to 15.
    pub fn write_period_high(&mut self, data: u8)
        ensures
            *final(self) == (Vrc6Pulse {
                period: (old(self).period & 0x00FF) | (((data & 0x0F) as u16) << 8),
                enabled: data & 0x80 != 0,
                step: if data & 0x80 != 0 { old(self).step } else { 15 },
                ..*old(self)
            }),
    {
        self.period = (self.period & 0x00FF) | (((data & 0x0F) as u16) << 8);
        self.enabled = data & 0x80 != 0;
        if !self.enabled {
            self.step = 15;
        }
    }

    pub fn effective_period(&self, shift: u8) -> (r: u16)
        requires
            shift < 16,
        ensures
            r == scaled_period(self.period, shift),
    {
        let p = self.period >> shift;
        if p > 1 { p } else { 1 }
    }

    /// One CPU cycle: unless halted or disabled, the divider counts down
    /// and, on expiry, reloads and steps the 16-step duty sequencer down.
    pub fn clock(&mut self, shift: u8, halt: bool)
        requires
            shift < 16,
        ensures
            *final(self) == vrc6_pulse_clocked(*old(self), shift, halt),
    {
        if halt || !self.enabled {
            return;
        }
        if self.divider == 0 {
            self.divider = self.effective_period(shift);
            let s = self.step;
            proof {
                assert(((s as int + 255) % 256) as u8 & 0x0F == (s + 15) % 16) by (bit_vector);
            }
            self.step = self.step.wrapping_sub(1) & 0x0F;
        } else {
            self.divider -= 1;
        }
    }

    pub fn output(&self) -> (r: u8)
        ensures
            r == pulse_level(*self),
    {
        if !self.enabled {
            return 0;
        }
        if self.ignore_duty || self.step <= self.duty {
            self.volume
        } else {
            0
        }
    }
    /// The save-state record of the channel.
    pub fn snapshot_state(&self) -> (st: Vrc6PulseState)
        ensures
            st == pulse_record(*self),
    {
        Vrc6PulseState {
            volume: self.volume,
            duty: self.duty,
            ignore_duty: self.ignore_duty,
            period: self.period,
            enabled: self.enabled,
            step: self.step,
            divider: self.divider,
        }
    }

    /// The channel described by a save-state record.
    pub fn from_state(st: &Vrc6PulseState) -> (p: Vrc6Pulse)
        ensures
            pulse_record(p) == *st,
    {
        Vrc6Pulse {
            volume: st.volume,
            duty: st.duty,
            ignore_duty: st.ignore_duty,
            period: st.period,
            enabled: st.enabled,
            step: st.step,
            divider: st.divider,
        }
    }

}

#[derive(Debug, Clone)]
pub struct Vrc6Saw {
    pub rate: u8,
    pub period: u16,
    pub enabled: bool,
    pub step: u8,
    pub divider: u16,
    pub accumulator: u8,
}

/// The sawtooth after one CPU cycle: on divider expiry the 14-step
/// sequence advances; the accumulator adds the rate on every other step
/// and clears when the sequence restarts.
pub open spec fn vrc6_saw_clocked(c: Vrc6Saw, shift: u8, halt: bool) -> Vrc6Saw {
    if halt || !c.enabled {
        c
    } else if c.divider == 0 {
        let step = ((c.step + 1) % 14) as u8;
        Vrc6Saw {
            divider: scaled_period(c.period, shift),
            step,
            accumulator: if step == 0 {
                0
            } else if step % 2 == 0 {
                ((c.accumulator + c.rate) % 256) as u8
            } else {
                c.accumulator
            },
            ..c
        }
    } else {
        Vrc6Saw { divider: (c.divider - 1) as u16, ..c }
    }
}

/// The 5-bit output of the sawtooth: the top 5 bits of the 8-bit
/// accumulator; 0 when disabled.
pub open spec fn saw_level(s: Vrc6Saw) -> u8 {
    if s.enabled {
        s.accumulator / 8
    } else {
        0
    }
}

/// The save-state record of the sawtooth channel.
pub open spec fn saw_record(c: Vrc6Saw) -> Vrc6SawState {
    Vrc6SawState {
        rate: c.rate,
        period: c.period,
        enabled: c.enabled,
        step: c.step,
        divider: c.divider,
        accumulator: c.accumulator,
    }
}

impl Vrc6Saw {
    pub fn new() -> (s: Vrc6Saw)
        ensures
            s == (Vrc6Saw { rate: 0, period: 0, enabled: false, step: 0, divider: 0, accumulator: 0 }),
    {
        Vrc6Saw { rate: 0, period: 0, enabled: false, step: 0, divider: 0, accumulator: 0 }
    }

    /// $B000: accumulator rate (6 bits).
    pub fn write_rate(&mut self, data: u8)
        ensures
            *final(self) == (Vrc6Saw { rate: data & 0x3F, ..*old(self) }),
    {
        self.rate = data & 0x3F;
    }

    /// $B001: low 8 bits of the 12-bit period.
    pub fn write_period_low(&mut self, data: u8)
        ensures
            *final(self) == (Vrc6Saw { period: (old(self).period & 0x0F00) | (data as u16), ..*old(self) }),
    {
        self.period = (self.period & 0x0F00) | data as u16;
    }

    /// $B002: high 4 bits of the period and the enable bit; disabling resets
    /// the step and the accumulator.
    pub fn write_period_high(&mut self, data: u8)
        ensures
            *final(self) == (Vrc6Saw {
                period: (old(self).period & 0x00FF) | (((data & 0x0F) as u16) << 8),
                enabled: data & 0x80 != 0,
                step: if data & 0x80 != 0 { old(self).step } else { 0 },
                accumulator: if data & 0x80 != 0 { old(self).accumulator } else { 0 },
                ..*old(self)
            }),
    {
        self.period = (self.period & 0x00FF) | (((data & 0x0F) as u16) << 8);
        self.enabled = data & 0x80 != 0;
        if !self.enabled {
            self.step = 0;
            self.accumulator = 0;
        }
    }

    pub fn effective_period(&self, shift: u8) -> (r: u16)
        requires
            shift < 16,
        ensures
            r == scaled_period(self.period, shift),
    {
        let p = self.period >> shift;
        if p > 1 { p } else { 1 }
    }

    /// One CPU cycle: on divider expiry the 14-step sequence advances; the
    /// accumulator adds the rate on every other step and clears when the
    /// sequence restarts.
    pub fn clock(&mut self, shift: u8, halt: bool)
        requires
            shift < 16,
        ensures
            *final(self) == vrc6_saw_clocked(*old(self), shift, halt),
    {
        if halt || !self.enabled {
            return;
        }
        if self.divider == 0 {
            self.divider = self.effective_period(shift);
            self.step = ((self.step as u16 + 1) % 14) as u8;
            if self.step == 0 {
                self.accumulator = 0;
            } else if self.step % 2 == 0 {
                self.accumulator = self.accumulator.wrapping_add(self.rate);
            }
        } else {
            self.divider -= 1;
        }
    }

    pub fn output(&self) -> (r: u8)
        ensures
            r == saw_level(*self),
    {
        if self.enabled {
            let a = self.accumulator;
            proof {
                assert(a >> 3u8 == a / 8) by (bit_vector);
            }
            self.accumulator >> 3
        } else {
            0
        }
    }
    /// The save-state record of the channel.
    pub fn snapshot_state(&self) -> (st: Vrc6SawState)
        ensures
            st == saw_record(*self),
    {
        Vrc6SawState {
            rate: self.rate,
            period: self.period,
            enabled: self.enabled,
            step: self.step,
            divider: self.divider,
            accumulator: self.accumulator,
        }
    }

    /// The channel described by a save-state record.
    pub fn from_state(st: &Vrc6SawState) -> (c: Vrc6Saw)
        ensures
            saw_record(c) == *st,
    {
        Vrc6Saw {
            rate: st.rate,
            period: st.period,
            enabled: st.enabled,
            step: st.step,
            divider: st.divider,
            accumulator: st.accumulator,
        }
    }

}

#[derive(Debug, Clone)]
pub struct Vrc6 {
    pub prg_bank_16k: u8,
    pub prg_bank_8k: u8,
    pub chr_banks: [u8; 8],
    pub banking_control: u8,
    pub irq_latch: u8,
    pub irq_counter: u8,
    pub irq_enable_after_ack: bool,
    pub irq_enabled: bool,
    pub irq_cycle_mode: bool,
    pub irq_prescaler: i16,
    pub irq_pending: bool,
    pub audio_halt: bool,
    pub audio_freq_shift: u8,
    pub pulse1: Vrc6Pulse,
    pub pulse2: Vrc6Pulse,
    pub saw: Vrc6Saw,
}

/// The save-state record of the chip.
pub open spec fn vrc6_record(v: Vrc6) -> Vrc6State {
    Vrc6State {
        prg_bank_16k: v.prg_bank_16k,
        prg_bank_8k: v.prg_bank_8k,
        chr_banks: v.chr_banks,
        banking_control: v.banking_control,
        irq_latch: v.irq_latch,
        irq_counter: v.irq_counter,
        irq_enable_after_ack: v.irq_enable_after_ack,
        irq_enabled: v.irq_enabled,
        irq_cycle_mode: v.irq_cycle_mode,
        irq_prescaler: v.irq_prescaler,
        irq_pending: v.irq_pending,
        audio_halt: v.audio_halt,
        audio_freq_shift: v.audio_freq_shift,
        pulse1: pulse_record(v.pulse1),
        pulse2: pulse_record(v.pulse2),
        saw: saw_record(v.saw),
    }
}

/// Law of the save states: a chip restored from a record gives back that
/// record, and a chip is determined by its record.
pub proof fn lemma_vrc6_record_round_trip(v: Vrc6, w: Vrc6)
    ensures
        vrc6_record(v) == vrc6_record(w) ==> v == w,
{
    if vrc6_record(v) == vrc6_record(w) {
        assert(v.pulse1 == w.pulse1);
        assert(v.pulse2 == w.pulse2);
        assert(v.saw == w.saw);
    }
}

/// The power-on state of the chip.
pub open spec fn vrc6_power_on(v: Vrc6) -> bool {
    &&& v.prg_bank_16k == 0
    &&& v.prg_bank_8k == 0
    &&& v.chr_banks@ =~= seq![0u8, 0, 0, 0, 0, 0, 0, 0]
    &&& v.banking_control == 0
    &&& v.irq_latch == 0
    &&& v.irq_counter == 0
    &&& !v.irq_enable_after_ack
    &&& !v.irq_enabled
    &&& !v.irq_cycle_mode
    &&& v.irq_prescaler == 341
    &&& !v.irq_pending
    &&& !v.audio_halt
    &&& v.audio_freq_shift == 0
    &&& v.pulse1 == (Vrc6Pulse { volume: 0, duty: 0, ignore_duty: false, period: 0, enabled: false, step: 15, divider: 0 })
    &&& v.pulse2 == (Vrc6Pulse { volume: 0, duty: 0, ignore_duty: false, period: 0, enabled: false, step: 15, divider: 0 })
    &&& v.saw == (Vrc6Saw { rate: 0, period: 0, enabled: false, step: 0, divider: 0, accumulator: 0 })
}

impl Vrc6 {
    /// The IRQ-counter part of the chip.
    pub open spec fn irq(&self) -> VrcIrq {
        VrcIrq {
            latch: self.irq_latch,
            counter: self.irq_counter,
            cycle_mode: self.irq_cycle_mode,
            prescaler: self.irq_prescaler as int,
            pending: self.irq_pending,
        }
    }

    /// `self` equals `other` but for the IRQ counter, prescaler and pending
    /// flag.
    pub open spec fn same_except_irq_state(&self, other: &Vrc6) -> bool {
        *self == Vrc6 {
            irq_counter: self.irq_counter,
            irq_prescaler: self.irq_prescaler,
            irq_pending: self.irq_pending,
            ..*other
        }
    }

    pub fn new() -> (v: Vrc6)
        ensures
            vrc6_power_on(v),
    {
        Vrc6 {
            prg_bank_16k: 0,
            prg_bank_8k: 0,
            chr_banks: [0; 8],
            banking_control: 0,
            irq_latch: 0,
            irq_counter: 0,
            irq_enable_after_ack: false,
            irq_enabled: false,
            irq_cycle_mode: false,
            irq_prescaler: 341,
            irq_pending: false,
            audio_halt: false,
            audio_freq_shift: 0,
            pulse1: Vrc6Pulse::new(),
            pulse2: Vrc6Pulse::new(),
            saw: Vrc6Saw::new(),
        }
    }

    /// One clock of the 8-bit IRQ counter.
    pub fn clock_irq_counter(&mut self)
        ensures
            final(self).irq() == vrc_irq_clock_counter(old(self).irq()),
            final(self).same_except_irq_state(old(self)),
    {
        if self.irq_counter == 0xFF {
            self.irq_counter = self.irq_latch;
            self.irq_pending = true;
        } else {
            self.irq_counter = self.irq_counter.wrapping_add(1);
        }
    }

    /// Runs the IRQ counter for `cycles` CPU cycles (nothing happens while it
    /// is disabled).
    pub fn clock_irq_mut(&mut self, cycles: u32)
        requires
            old(self).irq_prescaler >= i16::MIN + 3,
        ensures
            final(self).same_except_irq_state(old(self)),
            !old(self).irq_enabled ==> final(self).irq() == old(self).irq(),
            old(self).irq_enabled ==> final(self).irq() == vrc_irq_cycles(old(self).irq(), cycles as nat),
    {
        if !self.irq_enabled {
            return;
        }
        let ghost start = *self;
        let mut i: u32 = 0;
        while i < cycles
            invariant
                i <= cycles,
                start.irq_prescaler >= i16::MIN + 3,
                self.same_except_irq_state(&start),
                self.irq() == vrc_irq_cycles(start.irq(), i as nat),
            decreases cycles - i,
        {
            proof {
                lemma_vrc_irq_cycles_step(start.irq(), i as nat);
                lemma_vrc_prescaler_bounds(start.irq(), i as nat);
            }
            if self.irq_cycle_mode {
                self.clock_irq_counter();
            } else {
                self.irq_prescaler -= 3;
                if self.irq_prescaler <= 0 {
                    self.irq_prescaler += 341;
                    self.clock_irq_counter();
                }
            }
            i += 1;
        }
    }

    /// Clocks the three sound channels one CPU cycle and returns the sum of
    /// their outputs, which the host scales to its mixing level.
    pub fn clock_audio(&mut self) -> (mix: u16)
        requires
            old(self).audio_freq_shift < 16,
        ensures
            *final(self) == (Vrc6 {
                pulse1: vrc6_pulse_clocked(old(self).pulse1, old(self).audio_freq_shift, old(self).audio_halt),
                pulse2: vrc6_pulse_clocked(old(self).pulse2, old(self).audio_freq_shift, old(self).audio_halt),
                saw: vrc6_saw_clocked(old(self).saw, old(self).audio_freq_shift, old(self).audio_halt),
                ..*old(self)
            }),
            mix == pulse_level(final(self).pulse1) + pulse_level(final(self).pulse2) + saw_level(final(self).saw),
    {
        let shift = self.audio_freq_shift;
        let halt = self.audio_halt;
        self.pulse1.clock(shift, halt);
        self.pulse2.clock(shift, halt);
        self.saw.clock(shift, halt);
        let a = self.pulse1.output();
        let b = self.pulse2.output();
        let c = self.saw.output();
        a as u16 + b as u16 + c as u16
    }
    /// The save-state record of the chip.
    pub fn snapshot_state(&self) -> (st: Vrc6State)
        ensures
            st == vrc6_record(*self),
    {
        Vrc6State {
            prg_bank_16k: self.prg_bank_16k,
            prg_bank_8k: self.prg_bank_8k,
            chr_banks: self.chr_banks,
            banking_control: self.banking_control,
            irq_latch: self.irq_latch,
            irq_counter: self.irq_counter,
            irq_enable_after_ack: self.irq_enable_after_ack,
            irq_enabled: self.irq_enabled,
            irq_cycle_mode: self.irq_cycle_mode,
            irq_prescaler: self.irq_prescaler,
            irq_pending: self.irq_pending,
            audio_halt: self.audio_halt,
            audio_freq_shift: self.audio_freq_shift,
            pulse1: self.pulse1.snapshot_state(),
            pulse2: self.pulse2.snapshot_state(),
            saw: self.saw.snapshot_state(),
        }
    }

    /// Loads the chip's registers and sound channels from a save-state
    /// record.
    pub fn restore_state(&mut self, st: &Vrc6State)
        ensures
            vrc6_record(*final(self)) == *st,
    {
        self.prg_bank_16k = st.prg_bank_16k;
        self.prg_bank_8k = st.prg_bank_8k;
        self.chr_banks = st.chr_banks;
        self.banking_control = st.banking_control;
        self.irq_latch = st.irq_latch;
        self.irq_counter = st.irq_counter;
        self.irq_enable_after_ack = st.irq_enable_after_ack;
        self.irq_enabled = st.irq_enabled;
        self.irq_cycle_mode = st.irq_cycle_mode;
        self.irq_prescaler = st.irq_prescaler;
        self.irq_pending = st.irq_pending;
        self.audio_halt = st.audio_halt;
        self.audio_freq_shift = st.audio_freq_shift;
        self.pulse1 = Vrc6Pulse::from_state(&st.pulse1);
        self.pulse2 = Vrc6Pulse::from_state(&st.pulse2);
        self.saw = Vrc6Saw::from_state(&st.saw);
    }

}

} // verus!

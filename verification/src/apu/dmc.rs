//! The delta-modulation (DMC) channel of the 2A03: 1-bit delta samples
//! fetched from CPU memory by DMA.

use vstd::prelude::*;
use crate::apu::state::DmcState;
use crate::apu::tables::{dmc_rate_table, lemma_field_ranges, spec_dmc_rate_table};

verus! {

pub struct DmcChannel {
    irq_enabled: bool,
    irq_pending: bool,
    loop_flag: bool,
    timer: u16,
    timer_reload: u16,
    output_level: u8,
    sample_address: u16,
    sample_length: u16,
    current_address: u16,
    bytes_remaining: u16,
    sample_buffer: Option<u8>,
    shift_register: u8,
    bits_remaining: u8,
    silence: bool,
    dma_delay: u8,
    pending_dma_stall_cycles: u8,
}

impl View for DmcChannel {
    type V = DmcState;

    closed spec fn view(&self) -> DmcState {
        DmcState {
            irq_enabled: self.irq_enabled,
            irq_pending: self.irq_pending,
            loop_flag: self.loop_flag,
            timer: self.timer,
            timer_reload: self.timer_reload,
            output_level: self.output_level,
            sample_address: self.sample_address,
            sample_length: self.sample_length,
            current_address: self.current_address,
            bytes_remaining: self.bytes_remaining,
            sample_buffer: self.sample_buffer,
            shift_register: self.shift_register,
            bits_remaining: self.bits_remaining,
            silence: self.silence,
            dma_delay: self.dma_delay,
            pending_dma_stall_cycles: self.pending_dma_stall_cycles,
        }
    }
}

/// Restarting a sample rewinds the read pointer and the byte count.
pub open spec fn dmc_restart(s: DmcState) -> DmcState {
    DmcState { current_address: s.sample_address, bytes_remaining: s.sample_length, ..s }
}

/// A DMA fetch is scheduled only when the sample buffer is empty, bytes
/// remain and no fetch is pending already.
pub open spec fn dmc_schedule(s: DmcState, delay: u8, stall_cycles: u8) -> DmcState {
    if s.sample_buffer.is_some() || s.bytes_remaining == 0 || s.pending_dma_stall_cycles != 0 {
        s
    } else {
        DmcState { dma_delay: delay, pending_dma_stall_cycles: stall_cycles, ..s }
    }
}

/// $4015 bit 4: clearing it stops the sample and drops a pending fetch;
/// setting it restarts a finished sample and schedules its first fetch.
pub open spec fn dmc_set_enabled(s: DmcState, enabled: bool) -> DmcState {
    if !enabled {
        DmcState { bytes_remaining: 0, dma_delay: 0, pending_dma_stall_cycles: 0, ..s }
    } else if s.bytes_remaining == 0 {
        dmc_schedule(dmc_restart(s), 2, 3)
    } else {
        s
    }
}

/// The address after `addr` in the sample area: $FFFF wraps to $8000.
pub open spec fn dmc_next_address(addr: u16) -> u16 {
    if addr == 0xFFFF {
        0x8000
    } else {
        (addr + 1) as u16
    }
}

/// Whether a DMA fetch is due on this cycle.
pub open spec fn dmc_fetch_ready(s: DmcState) -> bool {
    s.pending_dma_stall_cycles != 0 && s.sample_buffer.is_none() && s.bytes_remaining != 0
        && s.dma_delay == 0
}

/// The channel after a DMA read: the pointer advances, one byte fewer
/// remains, and on the last byte the sample loops or raises its IRQ.
pub open spec fn dmc_after_fetch(s: DmcState) -> DmcState {
    let t = DmcState {
        pending_dma_stall_cycles: 0,
        current_address: dmc_next_address(s.current_address),
        bytes_remaining: (s.bytes_remaining - 1) as u16,
        ..s
    };
    if t.bytes_remaining == 0 {
        if t.loop_flag {
            dmc_restart(t)
        } else if t.irq_enabled {
            DmcState { irq_pending: true, ..t }
        } else {
            t
        }
    } else {
        t
    }
}

/// One output clock: the level moves by 2 in the direction of the next
/// sample bit (saturating at 0 and 127) unless silenced; after 8 bits the
/// buffered byte is loaded and the next fetch is scheduled.
pub open spec fn dmc_clock_output(s: DmcState) -> DmcState {
    let level: u8 = if s.silence {
        s.output_level
    } else if (s.shift_register & 1) != 0 {
        if s.output_level <= 125 { (s.output_level + 2) as u8 } else { s.output_level }
    } else if s.output_level >= 2 {
        (s.output_level - 2) as u8
    } else {
        s.output_level
    };
    let bits: u8 = if s.bits_remaining > 0 { (s.bits_remaining - 1) as u8 } else { 0 };
    let t = DmcState { output_level: level, shift_register: s.shift_register >> 1u8, bits_remaining: bits, ..s };
    if bits == 0 {
        match t.sample_buffer {
            Some(sample) => dmc_schedule(
                DmcState {
                    bits_remaining: 8,
                    sample_buffer: None,
                    shift_register: sample,
                    silence: false,
                    ..t
                },
                0,
                4,
            ),
            None => DmcState { bits_remaining: 8, silence: true, ..t },
        }
    } else {
        t
    }
}

/// One timer clock (every CPU cycle).
pub open spec fn dmc_step(s: DmcState) -> DmcState {
    if s.timer == 0 {
        dmc_clock_output(DmcState { timer: s.timer_reload, ..s })
    } else {
        DmcState { timer: (s.timer - 1) as u16, ..s }
    }
}

/// The state at power-on.
pub open spec fn dmc_power_on() -> DmcState {
    DmcState {
        irq_enabled: false,
        irq_pending: false,
        loop_flag: false,
        timer: 428,
        timer_reload: 428,
        output_level: 0,
        sample_address: 0xC000,
        sample_length: 1,
        current_address: 0xC000,
        bytes_remaining: 0,
        sample_buffer: None,
        shift_register: 0,
        bits_remaining: 8,
        silence: true,
        dma_delay: 0,
        pending_dma_stall_cycles: 0,
    }
}

/// The channel after `write_control`.
pub open spec fn dmc_write_control(s: DmcState, data: u8) -> DmcState {
    DmcState {
        irq_enabled: (data & 0x80) != 0,
        loop_flag: (data & 0x40) != 0,
        timer_reload: spec_dmc_rate_table(data & 0x0F),
        irq_pending: if (data & 0x80) != 0 { s.irq_pending } else { false },
        ..s
    }
}

/// The channel after `write_direct_load`.
pub open spec fn dmc_write_direct_load(s: DmcState, data: u8) -> DmcState {
    DmcState { output_level: data & 0x7F, ..s }
}

/// The channel after `write_sample_address`.
pub open spec fn dmc_write_sample_address(s: DmcState, data: u8) -> DmcState {
    DmcState { sample_address: (0xC000 + (data as int) * 64) as u16, ..s }
}

/// The channel after `write_sample_length`.
pub open spec fn dmc_write_sample_length(s: DmcState, data: u8) -> DmcState {
    DmcState { sample_length: ((data as int) * 16 + 1) as u16, ..s }
}

impl DmcChannel {
    pub fn new() -> (d: DmcChannel)
        ensures
            d@ == dmc_power_on(),
        no_unwind
    {
        proof {
            reveal(spec_dmc_rate_table);
        }
        DmcChannel {
            irq_enabled: false,
            irq_pending: false,
            loop_flag: false,
            timer: dmc_rate_table(0),
            timer_reload: dmc_rate_table(0),
            output_level: 0,
            sample_address: 0xC000,
            sample_length: 1,
            current_address: 0xC000,
            bytes_remaining: 0,
            sample_buffer: None,
            shift_register: 0,
            bits_remaining: 8,
            silence: true,
            dma_delay: 0,
            pending_dma_stall_cycles: 0,
        }
    }

    /// $4010: IRQ enable, loop flag, rate index. Clearing the IRQ enable
    /// also clears a pending IRQ.
    pub fn write_control(&mut self, data: u8)
        ensures
            final(self)@ == dmc_write_control(old(self)@, data),
        no_unwind
    {
        self.irq_enabled = (data & 0x80) != 0;
        self.loop_flag = (data & 0x40) != 0;
        proof {
            lemma_field_ranges(data);
        }
        self.timer_reload = dmc_rate_table(data & 0x0F);
        if !self.irq_enabled {
            self.irq_pending = false;
        }
    }

    /// $4011: loads the 7-bit output level directly.
    pub fn write_direct_load(&mut self, data: u8)
        ensures
            final(self)@ == dmc_write_direct_load(old(self)@, data),
        no_unwind
    {
        self.output_level = data & 0x7F;
    }

    /// $4012: sample address $C000 + data * 64.
    pub fn write_sample_address(&mut self, data: u8)
        ensures
            final(self)@ == dmc_write_sample_address(old(self)@, data),
        no_unwind
    {
        self.sample_address = 0xC000 | ((data as u16) << 6);
        proof {
            assert(0xC000u16 | ((data as u16) << 6u16) == 0xC000 + (data as u16) * 64) by (bit_vector);
        }
    }

    /// $4013: sample length data * 16 + 1 bytes.
    pub fn write_sample_length(&mut self, data: u8)
        ensures
            final(self)@ == dmc_write_sample_length(old(self)@, data),
        no_unwind
    {
        self.sample_length = ((data as u16) << 4) | 1;
        proof {
            assert(((data as u16) << 4u16) | 1 == (data as u16) * 16 + 1) by (bit_vector);
        }
    }

    pub fn set_enabled(&mut self, enabled: bool)
        ensures
            final(self)@ == dmc_set_enabled(old(self)@, enabled),
        no_unwind
    {
        if !enabled {
            self.bytes_remaining = 0;
            self.dma_delay = 0;
            self.pending_dma_stall_cycles = 0;
            return;
        }
        if self.bytes_remaining == 0 {
            self.restart_sample();
            self.schedule_dma(2, 3);
        }
    }

    pub fn restart_sample(&mut self)
        ensures
            final(self)@ == dmc_restart(old(self)@),
        no_unwind
    {
        self.current_address = self.sample_address;
        self.bytes_remaining = self.sample_length;
    }

    pub fn schedule_dma(&mut self, delay: u8, stall_cycles: u8)
        ensures
            final(self)@ == dmc_schedule(old(self)@, delay, stall_cycles),
        no_unwind
    {
        if matches!(self.sample_buffer, Some(_)) || self.bytes_remaining == 0
            || self.pending_dma_stall_cycles != 0 {
            return;
        }
        self.dma_delay = delay;
        self.pending_dma_stall_cycles = stall_cycles;
    }

    /// Asks whether a sample byte must be read from CPU memory now. Returns
    /// the address to read and the CPU stall cycles when a scheduled fetch
    /// is due; while the fetch is still delayed, counts the delay down.
    pub fn pull_sample_request(&mut self) -> (r: Option<(u16, u8)>)
        ensures
            ({
                let o = old(self)@;
                if o.pending_dma_stall_cycles == 0 || o.sample_buffer.is_some() || o.bytes_remaining == 0 {
                    r == None::<(u16, u8)> && final(self)@ == o
                } else if o.dma_delay > 0 {
                    r == None::<(u16, u8)> && final(self)@ == (DmcState { dma_delay: (o.dma_delay - 1) as u8, ..o })
                } else {
                    r == Some((o.current_address, o.pending_dma_stall_cycles))
                        && final(self)@ == dmc_after_fetch(o)
                }
            }),
        no_unwind
    {
        if self.pending_dma_stall_cycles == 0 || matches!(self.sample_buffer, Some(_))
            || self.bytes_remaining == 0 {
            return None;
        }
        if self.dma_delay > 0 {
            self.dma_delay -= 1;
            return None;
        }
        let stall_cycles = self.pending_dma_stall_cycles;
        self.pending_dma_stall_cycles = 0;
        let addr = self.current_address;
        self.current_address = if self.current_address == 0xFFFF {
            0x8000
        } else {
            self.current_address + 1
        };
        self.bytes_remaining -= 1;
        if self.bytes_remaining == 0 {
            if self.loop_flag {
                self.restart_sample();
            } else if self.irq_enabled {
                self.irq_pending = true;
            }
        }
        Some((addr, stall_cycles))
    }

    /// Delivers the byte read by DMA into the sample buffer.
    pub fn push_sample(&mut self, data: u8)
        ensures
            final(self)@ == (DmcState { sample_buffer: Some(data), ..old(self)@ }),
        no_unwind
    {
        self.sample_buffer = Some(data);
    }

    /// One timer clock (every CPU cycle).
    pub fn step(&mut self)
        ensures
            final(self)@ == dmc_step(old(self)@),
        no_unwind
    {
        if self.timer == 0 {
            self.timer = self.timer_reload;
            self.clock_output();
        } else {
            self.timer -= 1;
        }
    }

    pub fn clock_output(&mut self)
        ensures
            final(self)@ == dmc_clock_output(old(self)@),
        no_unwind
    {
        if !self.silence {
            if (self.shift_register & 0x01) != 0 {
                if self.output_level <= 125 {
                    self.output_level += 2;
                }
            } else if self.output_level >= 2 {
                self.output_level -= 2;
            }
        }
        self.shift_register >>= 1;
        if self.bits_remaining > 0 {
            self.bits_remaining -= 1;
        }
        if self.bits_remaining == 0 {
            self.bits_remaining = 8;
            if let Some(sample) = self.sample_buffer {
                self.sample_buffer = None;
                self.shift_register = sample;
                self.silence = false;
                self.schedule_dma(0, 4);
            } else {
                self.silence = true;
            }
        }
    }

    /// The channel's current 7-bit output level.
    pub fn output(&self) -> (r: u8)
        ensures
            r == self@.output_level,
        no_unwind
    {
        self.output_level
    }

    pub fn bytes_remaining(&self) -> (r: u16)
        ensures
            r == self@.bytes_remaining,
        no_unwind
    {
        self.bytes_remaining
    }

    pub fn irq_pending(&self) -> (r: bool)
        ensures
            r == self@.irq_pending,
        no_unwind
    {
        self.irq_pending
    }

    /// Acknowledges the DMC interrupt (a write of $4015).
    pub fn clear_irq(&mut self)
        ensures
            final(self)@ == (DmcState { irq_pending: false, ..old(self)@ }),
        no_unwind
    {
        self.irq_pending = false;
    }

    pub fn snapshot_state(&self) -> (s: DmcState)
        ensures
            s == self@,
        no_unwind
    {
        DmcState {
            irq_enabled: self.irq_enabled,
            irq_pending: self.irq_pending,
            loop_flag: self.loop_flag,
            timer: self.timer,
            timer_reload: self.timer_reload,
            output_level: self.output_level,
            sample_address: self.sample_address,
            sample_length: self.sample_length,
            current_address: self.current_address,
            bytes_remaining: self.bytes_remaining,
            sample_buffer: self.sample_buffer,
            shift_register: self.shift_register,
            bits_remaining: self.bits_remaining,
            silence: self.silence,
            dma_delay: self.dma_delay,
            pending_dma_stall_cycles: self.pending_dma_stall_cycles,
        }
    }

    pub fn restore_state(&mut self, state: &DmcState)
        ensures
            final(self)@ == *state,
        no_unwind
    {
        self.irq_enabled = state.irq_enabled;
        self.irq_pending = state.irq_pending;
        self.loop_flag = state.loop_flag;
        self.timer = state.timer;
        self.timer_reload = state.timer_reload;
        self.output_level = state.output_level;
        self.sample_address = state.sample_address;
        self.sample_length = state.sample_length;
        self.current_address = state.current_address;
        self.bytes_remaining = state.bytes_remaining;
        self.sample_buffer = state.sample_buffer;
        self.shift_register = state.shift_register;
        self.bits_remaining = state.bits_remaining;
        self.silence = state.silence;
        self.dma_delay = state.dma_delay;
        self.pending_dma_stall_cycles = state.pending_dma_stall_cycles;
    }
}

} // verus!

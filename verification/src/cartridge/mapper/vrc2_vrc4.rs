//! Konami VRC2/VRC4 (mappers 21, 22, 23, 25): bank registers and, on the
//! VRC4, the VRC IRQ counter.

use vstd::prelude::*;
use crate::cartridge::state::{Vrc2Vrc4State};
use crate::cartridge::mapper::vrc_irq::{lemma_vrc_irq_cycles_step, lemma_vrc_prescaler_bounds, vrc_irq_clock_counter, vrc_irq_cycles, VrcIrq};

verus! {

#[derive(Debug, Clone)]
pub struct Vrc2Vrc4 {
    pub prg_banks: [u8; 2],
    pub chr_banks: [u16; 8],
    pub wram_enabled: bool,
    pub prg_swap_mode: bool,
    pub vrc4_mode: bool,
    pub latch: u8,
    pub irq_latch: u8,
    pub irq_counter: u8,
    pub irq_enable_after_ack: bool,
    pub irq_enabled: bool,
    pub irq_cycle_mode: bool,
    pub irq_prescaler: i16,
    pub irq_pending: bool,
}

/// The power-on state of the chip.
pub open spec fn vrc24_power_on(v: Vrc2Vrc4) -> bool {
    &&& v.prg_banks@ =~= seq![0u8, 1]
    &&& v.chr_banks@ =~= seq![0u16, 1, 2, 3, 4, 5, 6, 7]
    &&& !v.wram_enabled
    &&& !v.prg_swap_mode
    &&& !v.vrc4_mode
    &&& v.latch == 0
    &&& v.irq_latch == 0
    &&& v.irq_counter == 0
    &&& !v.irq_enable_after_ack
    &&& !v.irq_enabled
    &&& !v.irq_cycle_mode
    &&& v.irq_prescaler == 341
    &&& !v.irq_pending
}

impl Vrc2Vrc4 {
    /// The IRQ-counter part of the chip.
    pub open spec fn irq(&self) -> VrcIrq {
        VrcIrq {
            latch: self.irq_latch,
            counter: self.irq_counter,
            cycle_mode: self.irq_cycle_mode,
            prescaler: self.irq_prescaler as int,
            pending: self.irq_pending,
        }
    }

    /// Everything but the counter, the prescaler and the pending flag is the
    /// same in `self` and `other`.
    pub open spec fn same_except_irq_state(&self, other: &Vrc2Vrc4) -> bool {
        &&& self.prg_banks == other.prg_banks
        &&& self.chr_banks == other.chr_banks
        &&& self.wram_enabled == other.wram_enabled
        &&& self.prg_swap_mode == other.prg_swap_mode
        &&& self.vrc4_mode == other.vrc4_mode
        &&& self.latch == other.latch
        &&& self.irq_latch == other.irq_latch
        &&& self.irq_enable_after_ack == other.irq_enable_after_ack
        &&& self.irq_enabled == other.irq_enabled
        &&& self.irq_cycle_mode == other.irq_cycle_mode
    }

    pub fn new() -> (v: Vrc2Vrc4)
        ensures
            vrc24_power_on(v),
    {
        Vrc2Vrc4 {
            prg_banks: [0, 1],
            chr_banks: [0, 1, 2, 3, 4, 5, 6, 7],
            wram_enabled: false,
            prg_swap_mode: false,
            vrc4_mode: false,
            latch: 0,
            irq_latch: 0,
            irq_counter: 0,
            irq_enable_after_ack: false,
            irq_enabled: false,
            irq_cycle_mode: false,
            irq_prescaler: 341,
            irq_pending: false,
        }
    }

    /// One clock of the 8-bit IRQ counter.
    pub fn clock_irq_counter(&mut self)
        ensures
            final(self).irq() == vrc_irq_clock_counter(old(self).irq()),
            final(self).same_except_irq_state(old(self)),
    {
        if self.irq_counter == 0xFF {
            self.irq_counter = self.irq_latch;
            self.irq_pending = true;
        } else {
            self.irq_counter = self.irq_counter.wrapping_add(1);
        }
    }

    /// Runs the IRQ counter for `cycles` CPU cycles (nothing happens while it
    /// is disabled).
    pub fn clock_irq_mut(&mut self, cycles: u32)
        requires
            old(self).irq_prescaler >= i16::MIN + 3,
        ensures
            final(self).same_except_irq_state(old(self)),
            !old(self).irq_enabled ==> final(self).irq() == old(self).irq(),
            old(self).irq_enabled ==> final(self).irq() == vrc_irq_cycles(old(self).irq(), cycles as nat),
    {
        if !self.irq_enabled {
            return;
        }
        let ghost start = *self;
        let mut i: u32 = 0;
        while i < cycles
            invariant
                i <= cycles,
                start.irq_prescaler >= i16::MIN + 3,
                self.same_except_irq_state(&start),
                self.irq() == vrc_irq_cycles(start.irq(), i as nat),
            decreases cycles - i,
        {
            proof {
                lemma_vrc_irq_cycles_step(start.irq(), i as nat);
                lemma_vrc_prescaler_bounds(start.irq(), i as nat);
            }
            if self.irq_cycle_mode {
                self.clock_irq_counter();
            } else {
                self.irq_prescaler -= 3;
                if self.irq_prescaler <= 0 {
                    self.irq_prescaler += 341;
                    self.clock_irq_counter();
                }
            }
            i += 1;
        }
    }
    /// The save-state record of the chip.
    pub fn snapshot_state(&self) -> (s: Vrc2Vrc4State)
        ensures
            s.prg_banks == self.prg_banks,
            s.chr_banks == self.chr_banks,
            s.wram_enabled == self.wram_enabled,
            s.prg_swap_mode == self.prg_swap_mode,
            s.vrc4_mode == self.vrc4_mode,
            s.latch == self.latch,
            s.irq_latch == self.irq_latch,
            s.irq_counter == self.irq_counter,
            s.irq_enable_after_ack == self.irq_enable_after_ack,
            s.irq_enabled == self.irq_enabled,
            s.irq_cycle_mode == self.irq_cycle_mode,
            s.irq_prescaler == self.irq_prescaler,
            s.irq_pending == self.irq_pending,
    {
        Vrc2Vrc4State {
            prg_banks: self.prg_banks,
            chr_banks: self.chr_banks,
            wram_enabled: self.wram_enabled,
            prg_swap_mode: self.prg_swap_mode,
            vrc4_mode: self.vrc4_mode,
            latch: self.latch,
            irq_latch: self.irq_latch,
            irq_counter: self.irq_counter,
            irq_enable_after_ack: self.irq_enable_after_ack,
            irq_enabled: self.irq_enabled,
            irq_cycle_mode: self.irq_cycle_mode,
            irq_prescaler: self.irq_prescaler,
            irq_pending: self.irq_pending,
        }
    }

    /// Loads the chip's registers from a save-state record.
    pub fn restore_state(&mut self, state: &Vrc2Vrc4State)
        ensures
            final(self).prg_banks == state.prg_banks,
            final(self).chr_banks == state.chr_banks,
            final(self).wram_enabled == state.wram_enabled,
            final(self).prg_swap_mode == state.prg_swap_mode,
            final(self).vrc4_mode == state.vrc4_mode,
            final(self).latch == state.latch,
            final(self).irq_latch == state.irq_latch,
            final(self).irq_counter == state.irq_counter,
            final(self).irq_enable_after_ack == state.irq_enable_after_ack,
            final(self).irq_enabled == state.irq_enabled,
            final(self).irq_cycle_mode == state.irq_cycle_mode,
            final(self).irq_prescaler == state.irq_prescaler,
            final(self).irq_pending == state.irq_pending,
    {
        self.prg_banks = state.prg_banks;
        self.chr_banks = state.chr_banks;
        self.wram_enabled = state.wram_enabled;
        self.prg_swap_mode = state.prg_swap_mode;
        self.vrc4_mode = state.vrc4_mode;
        self.latch = state.latch;
        self.irq_latch = state.irq_latch;
        self.irq_counter = state.irq_counter;
        self.irq_enable_after_ack = state.irq_enable_after_ack;
        self.irq_enabled = state.irq_enabled;
        self.irq_cycle_mode = state.irq_cycle_mode;
        self.irq_prescaler = state.irq_prescaler;
        self.irq_pending = state.irq_pending;
    }

}

} // verus!

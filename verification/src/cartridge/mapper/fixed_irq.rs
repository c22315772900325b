//! CPU-cycle IRQ counters of the SMB2J conversion boards: mappers 40, 42, 43
//! and 50. A pending IRQ is held in a plain flag.

use vstd::prelude::*;
use crate::cartridge::state::{Mapper40State, Mapper42State, Mapper43State, Mapper50State};

verus! {

proof fn lemma_counter_masks(x: u32)
    by (bit_vector)
    ensures
        x & 0x7FFF == x % 0x8000,
        x & 0x0FFF == x % 0x1000,
{
}

/// Mapper 40 (NTDEC 2722): a 12-bit up-counter that fires once when it
/// reaches 4096 cycles and then stops.
#[derive(Debug, Clone)]
pub struct Mapper40 {
    pub irq_counter: u16,
    pub irq_enabled: bool,
    pub irq_pending: bool,
}

/// The one-shot 4096-cycle counter shared by mappers 40 and 50: while
/// enabled it adds `cycles`; reaching 4096 clamps it there, disables it and
/// raises the IRQ.
pub open spec fn one_shot_4096(counter: u16, enabled: bool, pending: bool, cycles: u32) -> (u16, bool, bool) {
    if !enabled {
        (counter, enabled, pending)
    } else if counter + cycles >= 4096 {
        (4096u16, false, true)
    } else {
        ((counter + cycles) as u16, enabled, pending)
    }
}

/// The power-on state of the chip.
pub open spec fn mapper40_power_on(m: Mapper40) -> bool {
    &&& m.irq_counter == 0
    &&& !m.irq_enabled
    &&& !m.irq_pending
}

impl Mapper40 {
    pub fn new() -> (m: Mapper40)
        ensures
            mapper40_power_on(m),
    {
        Mapper40 { irq_counter: 0, irq_enabled: false, irq_pending: false }
    }

    /// Advances the counter by `cycles` CPU cycles.
    pub fn clock_irq_mut(&mut self, cycles: u32)
        requires
            old(self).irq_counter + cycles <= u32::MAX,
        ensures
            (final(self).irq_counter, final(self).irq_enabled, final(self).irq_pending)
                == one_shot_4096(old(self).irq_counter, old(self).irq_enabled, old(self).irq_pending, cycles),
    {
        if !self.irq_enabled {
            return;
        }
        let next = self.irq_counter as u32 + cycles;
        if next >= 4096 {
            self.irq_counter = 4096;
            self.irq_enabled = false;
            self.irq_pending = true;
        } else {
            self.irq_counter = next as u16;
        }
    }
    /// The save-state record of the chip.
    pub fn snapshot_state(&self) -> (s: Mapper40State)
        ensures
            s.irq_counter == self.irq_counter,
            s.irq_enabled == self.irq_enabled,
            s.irq_pending == self.irq_pending,
    {
        Mapper40State {
            irq_counter: self.irq_counter,
            irq_enabled: self.irq_enabled,
            irq_pending: self.irq_pending,
        }
    }

    /// Loads the chip's registers from a save-state record.
    pub fn restore_state(&mut self, state: &Mapper40State)
        ensures
            final(self).irq_counter == state.irq_counter,
            final(self).irq_enabled == state.irq_enabled,
            final(self).irq_pending == state.irq_pending,
    {
        self.irq_counter = state.irq_counter;
        self.irq_enabled = state.irq_enabled;
        self.irq_pending = state.irq_pending;
    }

}

/// Mapper 50 (N-32 SMB2J conversion): the same one-shot 4096-cycle counter
/// as mapper 40.
#[derive(Debug, Clone)]
pub struct Mapper50 {
    pub irq_counter: u16,
    pub irq_enabled: bool,
    pub irq_pending: bool,
}

/// The power-on state of the chip.
pub open spec fn mapper50_power_on(m: Mapper50) -> bool {
    &&& m.irq_counter == 0
    &&& !m.irq_enabled
    &&& !m.irq_pending
}

impl Mapper50 {
    pub fn new() -> (m: Mapper50)
        ensures
            mapper50_power_on(m),
    {
        Mapper50 { irq_counter: 0, irq_enabled: false, irq_pending: false }
    }

    /// Advances the counter by `cycles` CPU cycles.
    pub fn clock_irq_mut(&mut self, cycles: u32)
        requires
            old(self).irq_counter + cycles <= u32::MAX,
        ensures
            (final(self).irq_counter, final(self).irq_enabled, final(self).irq_pending)
                == one_shot_4096(old(self).irq_counter, old(self).irq_enabled, old(self).irq_pending, cycles),
    {
        if !self.irq_enabled {
            return;
        }
        let next = self.irq_counter as u32 + cycles;
        if next >= 4096 {
            self.irq_counter = 4096;
            self.irq_enabled = false;
            self.irq_pending = true;
        } else {
            self.irq_counter = next as u16;
        }
    }
    /// The save-state record of the chip.
    pub fn snapshot_state(&self) -> (s: Mapper50State)
        ensures
            s.irq_counter == self.irq_counter,
            s.irq_enabled == self.irq_enabled,
            s.irq_pending == self.irq_pending,
    {
        Mapper50State {
            irq_counter: self.irq_counter,
            irq_enabled: self.irq_enabled,
            irq_pending: self.irq_pending,
        }
    }

    /// Loads the chip's registers from a save-state record.
    pub fn restore_state(&mut self, state: &Mapper50State)
        ensures
            final(self).irq_counter == state.irq_counter,
            final(self).irq_enabled == state.irq_enabled,
            final(self).irq_pending == state.irq_pending,
    {
        self.irq_counter = state.irq_counter;
        self.irq_enabled = state.irq_enabled;
        self.irq_pending = state.irq_pending;
    }

}

/// Mapper 42 (Mario Baby): a free-running 15-bit counter whose IRQ line is
/// asserted while the count is at or above $6000.
#[derive(Debug, Clone)]
pub struct Mapper42 {
    pub irq_counter: u16,
    pub irq_enabled: bool,
    pub irq_pending: bool,
}

/// The power-on state of the chip.
pub open spec fn mapper42_power_on(m: Mapper42) -> bool {
    &&& m.irq_counter == 0
    &&& !m.irq_enabled
    &&& !m.irq_pending
}

impl Mapper42 {
    pub fn new() -> (m: Mapper42)
        ensures
            mapper42_power_on(m),
    {
        Mapper42 { irq_counter: 0, irq_enabled: false, irq_pending: false }
    }

    /// Advances the counter by `cycles` CPU cycles (modulo $8000).
    pub fn clock_irq_mut(&mut self, cycles: u32)
        requires
            old(self).irq_counter + cycles <= u32::MAX,
        ensures
            !old(self).irq_enabled ==> *final(self) == *old(self),
            old(self).irq_enabled ==> ({
                let next = ((old(self).irq_counter + cycles) % 0x8000) as u16;
                &&& final(self).irq_counter == next
                &&& final(self).irq_pending == (next >= 0x6000)
                &&& final(self).irq_enabled
            }),
    {
        if !self.irq_enabled {
            return;
        }
        let sum = self.irq_counter as u32 + cycles;
        proof {
            lemma_counter_masks(sum);
        }
        let next = (sum & 0x7FFF) as u16;
        self.irq_counter = next;
        self.irq_pending = next >= 0x6000;
    }
    /// The save-state record of the chip.
    pub fn snapshot_state(&self) -> (s: Mapper42State)
        ensures
            s.irq_counter == self.irq_counter,
            s.irq_enabled == self.irq_enabled,
            s.irq_pending == self.irq_pending,
    {
        Mapper42State {
            irq_counter: self.irq_counter,
            irq_enabled: self.irq_enabled,
            irq_pending: self.irq_pending,
        }
    }

    /// Loads the chip's registers from a save-state record.
    pub fn restore_state(&mut self, state: &Mapper42State)
        ensures
            final(self).irq_counter == state.irq_counter,
            final(self).irq_enabled == state.irq_enabled,
            final(self).irq_pending == state.irq_pending,
    {
        self.irq_counter = state.irq_counter;
        self.irq_enabled = state.irq_enabled;
        self.irq_pending = state.irq_pending;
    }

}

/// Mapper 43 (SMB2J pirate): a 12-bit counter that raises the IRQ every
/// time it wraps past 4096 cycles.
#[derive(Debug, Clone)]
pub struct Mapper43 {
    pub irq_counter: u16,
    pub irq_enabled: bool,
    pub irq_pending: bool,
}

/// The power-on state of the chip.
pub open spec fn mapper43_power_on(m: Mapper43) -> bool {
    &&& m.irq_counter == 0
    &&& !m.irq_enabled
    &&& !m.irq_pending
}

impl Mapper43 {
    pub fn new() -> (m: Mapper43)
        ensures
            mapper43_power_on(m),
    {
        Mapper43 { irq_counter: 0, irq_enabled: false, irq_pending: false }
    }

    /// Advances the counter by `cycles` CPU cycles.
    pub fn clock_irq_mut(&mut self, cycles: u32)
        requires
            old(self).irq_counter + cycles <= u32::MAX,
        ensures
            !old(self).irq_enabled ==> *final(self) == *old(self),
            old(self).irq_enabled ==> ({
                let next = old(self).irq_counter + cycles;
                &&& final(self).irq_enabled
                &&& next >= 0x1000 ==> final(self).irq_counter == next % 0x1000 && final(self).irq_pending
                &&& next < 0x1000 ==> final(self).irq_counter == next
                    && final(self).irq_pending == old(self).irq_pending
            }),
    {
        if !self.irq_enabled {
            return;
        }
        let next = self.irq_counter as u32 + cycles;
        if next >= 0x1000 {
            proof {
                lemma_counter_masks(next);
            }
            self.irq_counter = (next & 0x0FFF) as u16;
            self.irq_pending = true;
        } else {
            self.irq_counter = next as u16;
        }
    }
    /// The save-state record of the chip.
    pub fn snapshot_state(&self) -> (s: Mapper43State)
        ensures
            s.irq_counter == self.irq_counter,
            s.irq_enabled == self.irq_enabled,
            s.irq_pending == self.irq_pending,
    {
        Mapper43State {
            irq_counter: self.irq_counter,
            irq_enabled: self.irq_enabled,
            irq_pending: self.irq_pending,
        }
    }

    /// Loads the chip's registers from a save-state record.
    pub fn restore_state(&mut self, state: &Mapper43State)
        ensures
            final(self).irq_counter == state.irq_counter,
            final(self).irq_enabled == state.irq_enabled,
            final(self).irq_pending == state.irq_pending,
    {
        self.irq_counter = state.irq_counter;
        self.irq_enabled = state.irq_enabled;
        self.irq_pending = state.irq_pending;
    }

}

} // verus!

//! Konami VRC3 (mapper 73): a 16-bit (or 8-bit) CPU-cycle IRQ counter with a
//! reload value written one nibble at a time.

use vstd::prelude::*;
use crate::cartridge::state::{Vrc3State};

verus! {

#[derive(Debug, Clone)]
pub struct Vrc3 {
    pub irq_reload: u16,
    pub irq_counter: u16,
    pub irq_enable_on_ack: bool,
    pub irq_enabled: bool,
    pub irq_mode_8bit: bool,
    pub irq_pending: bool,
}

/// Nibble `k` (0 = lowest) of `x`.
pub open spec fn nibble_of(x: u16, k: int) -> int {
    (x as int / (if k == 0 { 1int } else if k == 1 { 16 } else if k == 2 { 256 } else { 4096 })) % 16
}

proof fn lemma_nibble_write(r: u16, d: u16, n: u16)
    by (bit_vector)
    requires
        n < 4,
        d < 16,
    ensures
        ({
            let w = (r & !(0x000Fu16 << (n * 4))) | (d << (n * 4));
            &&& (w & 0x000F) == if n == 0 { d } else { r & 0x000F }
            &&& ((w >> 4) & 0x000F) == if n == 1 { d } else { (r >> 4) & 0x000F }
            &&& ((w >> 8) & 0x000F) == if n == 2 { d } else { (r >> 8) & 0x000F }
            &&& ((w >> 12) & 0x000F) == if n == 3 { d } else { (r >> 12) & 0x000F }
        }),
{
}

proof fn lemma_nibbles(x: u16)
    by (bit_vector)
    ensures
        x & 0x000F == x % 16,
        (x >> 4) & 0x000F == (x / 16) % 16,
        (x >> 8) & 0x000F == (x / 256) % 16,
        (x >> 12) & 0x000F == (x / 4096) % 16,
{
}

proof fn lemma_low_byte(c: u16, r: u16)
    by (bit_vector)
    ensures
        c & 0x00FF == c % 256,
        (c & 0xFF00) | (r & 0x00FF) == c - c % 256 + r % 256,
        c % 256 < 255 ==> (c & 0xFF00) | (((c & 0x00FF) + 1) as u16) == c + 1,
{
}

/// One CPU cycle of an enabled VRC3 counter. In 8-bit mode only the low
/// byte counts and reloads from the low byte of the reload value; in 16-bit
/// mode the whole counter does. The IRQ is raised on each reload.
pub open spec fn vrc3_tick(counter: u16, reload: u16, mode_8bit: bool, pending: bool) -> (u16, bool) {
    if mode_8bit {
        let low = counter % 256;
        if low == 255 {
            ((counter - low + reload % 256) as u16, true)
        } else {
            ((counter + 1) as u16, pending)
        }
    } else if counter == 0xFFFF {
        (reload, true)
    } else {
        ((counter + 1) as u16, pending)
    }
}

/// `k` CPU cycles of an enabled counter.
pub open spec fn vrc3_ticks(counter: u16, reload: u16, mode_8bit: bool, pending: bool, k: nat) -> (u16, bool)
    decreases k,
{
    if k == 0 {
        (counter, pending)
    } else {
        let (c, p) = vrc3_tick(counter, reload, mode_8bit, pending);
        vrc3_ticks(c, reload, mode_8bit, p, (k - 1) as nat)
    }
}

proof fn lemma_vrc3_ticks_step(counter: u16, reload: u16, mode_8bit: bool, pending: bool, k: nat)
    ensures
        vrc3_ticks(counter, reload, mode_8bit, pending, k + 1) == ({
            let (c, p) = vrc3_ticks(counter, reload, mode_8bit, pending, k);
            vrc3_tick(c, reload, mode_8bit, p)
        }),
    decreases k,
{
    if k == 0 {
        reveal_with_fuel(vrc3_ticks, 2);
    } else {
        let (c, p) = vrc3_tick(counter, reload, mode_8bit, pending);
        lemma_vrc3_ticks_step(c, reload, mode_8bit, p, (k - 1) as nat);
    }
}

/// The power-on state of the chip.
pub open spec fn vrc3_power_on(v: Vrc3) -> bool {
    &&& v.irq_reload == 0
    &&& v.irq_counter == 0
    &&& !v.irq_enable_on_ack
    &&& !v.irq_enabled
    &&& !v.irq_mode_8bit
    &&& !v.irq_pending
}

impl Vrc3 {
    pub fn new() -> (v: Vrc3)
        ensures
            vrc3_power_on(v),
    {
        Vrc3 {
            irq_reload: 0,
            irq_counter: 0,
            irq_enable_on_ack: false,
            irq_enabled: false,
            irq_mode_8bit: false,
            irq_pending: false,
        }
    }

    /// $8000/$9000/$A000/$B000: replaces nibble `nibble` of the reload
    /// value with the low 4 bits of `data`, keeping the other three.
    pub fn write_latch_nibble(&mut self, nibble: usize, data: u8)
        requires
            nibble < 4,
        ensures
            forall|k: int| 0 <= k < 4 ==> #[trigger] nibble_of(final(self).irq_reload, k)
                == if k == nibble { (data % 16) as int } else { nibble_of(old(self).irq_reload, k) },
            final(self).irq_counter == old(self).irq_counter,
            final(self).irq_enable_on_ack == old(self).irq_enable_on_ack,
            final(self).irq_enabled == old(self).irq_enabled,
            final(self).irq_mode_8bit == old(self).irq_mode_8bit,
            final(self).irq_pending == old(self).irq_pending,
    {
        let shift = (nibble as u16) * 4;
        let mask = !(0x000Fu16 << shift);
        let value = (data & 0x0F) as u16;
        let old_reload = self.irq_reload;
        self.irq_reload = (self.irq_reload & mask) | (value << shift);
        proof {
            assert(data & 0x0F == data % 16) by (bit_vector);
            lemma_nibble_write(old_reload, value, nibble as u16);
            lemma_nibbles(old_reload);
            lemma_nibbles(self.irq_reload);
        }
    }

    /// $C000: counter mode, enable-on-acknowledge and enable bits; clears a
    /// pending IRQ and, when enabling, reloads the counter.
    pub fn write_control(&mut self, data: u8)
        ensures
            final(self).irq_mode_8bit == (data & 0x04 != 0),
            final(self).irq_enable_on_ack == (data & 0x01 != 0),
            final(self).irq_enabled == (data & 0x02 != 0),
            !final(self).irq_pending,
            final(self).irq_counter == if data & 0x02 != 0 { old(self).irq_reload } else { old(self).irq_counter },
            final(self).irq_reload == old(self).irq_reload,
    {
        self.irq_mode_8bit = data & 0x04 != 0;
        self.irq_enable_on_ack = data & 0x01 != 0;
        self.irq_enabled = data & 0x02 != 0;
        self.irq_pending = false;
        if self.irq_enabled {
            self.irq_counter = self.irq_reload;
        }
    }

    /// $D000: acknowledges the IRQ; the counter is re-enabled only if the
    /// enable-on-acknowledge bit was written.
    pub fn acknowledge(&mut self)
        ensures
            *final(self) == (Vrc3 { irq_pending: false, irq_enabled: old(self).irq_enable_on_ack, ..*old(self) }),
    {
        self.irq_pending = false;
        self.irq_enabled = self.irq_enable_on_ack;
    }

    /// Runs the counter for `cycles` CPU cycles.
    pub fn clock_irq_mut(&mut self, cycles: u32)
        ensures
            !old(self).irq_enabled ==> *final(self) == *old(self),
            old(self).irq_enabled ==> ({
                let (c, p) = vrc3_ticks(
                    old(self).irq_counter,
                    old(self).irq_reload,
                    old(self).irq_mode_8bit,
                    old(self).irq_pending,
                    cycles as nat,
                );
                *final(self) == Vrc3 { irq_counter: c, irq_pending: p, ..*old(self) }
            }),
    {
        if !self.irq_enabled {
            return;
        }
        let ghost c0 = self.irq_counter;
        let ghost p0 = self.irq_pending;
        let ghost start = *self;
        let mut i: u32 = 0;
        while i < cycles
            invariant
                i <= cycles,
                *self == (Vrc3 { irq_counter: self.irq_counter, irq_pending: self.irq_pending, ..start }),
                (self.irq_counter, self.irq_pending) == vrc3_ticks(c0, start.irq_reload, start.irq_mode_8bit, p0, i as nat),
            decreases cycles - i,
        {
            proof {
                lemma_vrc3_ticks_step(c0, start.irq_reload, start.irq_mode_8bit, p0, i as nat);
                lemma_low_byte(self.irq_counter, self.irq_reload);
            }
            if self.irq_mode_8bit {
                let low = (self.irq_counter & 0x00FF) as u8;
                if low == 0xFF {
                    self.irq_counter = (self.irq_counter & 0xFF00) | (self.irq_reload & 0x00FF);
                    self.irq_pending = true;
                } else {
                    self.irq_counter = (self.irq_counter & 0xFF00) | (low.wrapping_add(1) as u16);
                }
            } else if self.irq_counter == 0xFFFF {
                self.irq_counter = self.irq_reload;
                self.irq_pending = true;
            } else {
                self.irq_counter = self.irq_counter.wrapping_add(1);
            }
            i += 1;
        }
    }
    /// The save-state record of the chip.
    pub fn snapshot_state(&self) -> (s: Vrc3State)
        ensures
            s.irq_reload == self.irq_reload,
            s.irq_counter == self.irq_counter,
            s.irq_enable_on_ack == self.irq_enable_on_ack,
            s.irq_enabled == self.irq_enabled,
            s.irq_mode_8bit == self.irq_mode_8bit,
            s.irq_pending == self.irq_pending,
    {
        Vrc3State {
            irq_reload: self.irq_reload,
            irq_counter: self.irq_counter,
            irq_enable_on_ack: self.irq_enable_on_ack,
            irq_enabled: self.irq_enabled,
            irq_mode_8bit: self.irq_mode_8bit,
            irq_pending: self.irq_pending,
        }
    }

    /// Loads the chip's registers from a save-state record.
    pub fn restore_state(&mut self, state: &Vrc3State)
        ensures
            final(self).irq_reload == state.irq_reload,
            final(self).irq_counter == state.irq_counter,
            final(self).irq_enable_on_ack == state.irq_enable_on_ack,
            final(self).irq_enabled == state.irq_enabled,
            final(self).irq_mode_8bit == state.irq_mode_8bit,
            final(self).irq_pending == state.irq_pending,
    {
        self.irq_reload = state.irq_reload;
        self.irq_counter = state.irq_counter;
        self.irq_enable_on_ack = state.irq_enable_on_ack;
        self.irq_enabled = state.irq_enabled;
        self.irq_mode_8bit = state.irq_mode_8bit;
        self.irq_pending = state.irq_pending;
    }

}

} // verus!

//! The IRQ counter shared by Konami's VRC4, VRC6 and VRC7: an 8-bit
//! up-counter clocked either every CPU cycle or once per scanline through a
//! prescaler of 341 PPU dots (3 per CPU cycle).

use vstd::prelude::*;

verus! {

/// Abstract state of a VRC IRQ counter.
pub struct VrcIrq {
    pub latch: u8,
    pub counter: u8,
    pub cycle_mode: bool,
    pub prescaler: int,
    pub pending: bool,
}

/// One clock of the 8-bit counter: past $FF it reloads from the latch and
/// raises the IRQ.
pub open spec fn vrc_irq_clock_counter(s: VrcIrq) -> VrcIrq {
    if s.counter == 0xFF {
        VrcIrq { counter: s.latch, pending: true, ..s }
    } else {
        VrcIrq { counter: (s.counter + 1) as u8, ..s }
    }
}

/// One CPU cycle of an enabled counter. In scanline mode the prescaler
/// loses 3 dots per cycle and clocks the counter each time it runs out,
/// gaining 341 dots back.
pub open spec fn vrc_irq_cycle(s: VrcIrq) -> VrcIrq {
    if s.cycle_mode {
        vrc_irq_clock_counter(s)
    } else if s.prescaler - 3 <= 0 {
        vrc_irq_clock_counter(VrcIrq { prescaler: s.prescaler - 3 + 341, ..s })
    } else {
        VrcIrq { prescaler: s.prescaler - 3, ..s }
    }
}

/// `k` CPU cycles of an enabled counter.
pub open spec fn vrc_irq_cycles(s: VrcIrq, k: nat) -> VrcIrq
    decreases k,
{
    if k == 0 {
        s
    } else {
        vrc_irq_cycles(vrc_irq_cycle(s), (k - 1) as nat)
    }
}

pub proof fn lemma_vrc_irq_cycles_step(s: VrcIrq, k: nat)
    ensures
        vrc_irq_cycles(s, k + 1) == vrc_irq_cycle(vrc_irq_cycles(s, k)),
    decreases k,
{
    if k == 0 {
        reveal_with_fuel(vrc_irq_cycles, 2);
    } else {
        lemma_vrc_irq_cycles_step(vrc_irq_cycle(s), (k - 1) as nat);
    }
}

/// The prescaler never falls below the bound it started above: each cycle
/// either leaves it positive or adds back 338 dots net.
pub proof fn lemma_vrc_prescaler_bounds(s: VrcIrq, k: nat)
    requires
        s.prescaler >= i16::MIN + 3,
        s.prescaler <= i16::MAX,
    ensures
        vrc_irq_cycles(s, k).prescaler >= i16::MIN + 3,
        vrc_irq_cycles(s, k).prescaler <= i16::MAX,
    decreases k,
{
    if k > 0 {
        lemma_vrc_prescaler_bounds(vrc_irq_cycle(s), (k - 1) as nat);
    }
}

} // verus!

//! Properties that hold of the channel models across every clock and every
//! register write.

use vstd::prelude::*;
use crate::apu::state::{DmcState, PulseChannelState};
use crate::apu::envelope::{envelope_clock, length_clock};
use crate::apu::noise::lfsr_shift;
use crate::apu::pulse::{sweep_clock, swept_period, sweep_target, sweep_muting, pulse_output};
use crate::apu::dmc::{dmc_clock_output, dmc_step, dmc_write_direct_load};
use crate::apu::state::ApuState;
use crate::apu::tables::lemma_field_ranges;
use vstd::arithmetic::power2::pow2;
use crate::apu::{apu_step, apu_write, status_byte, write_status};

verus! {

/// The noise shift register never locks up: a non-zero 15-bit register stays
/// non-zero and within 15 bits after a shift, in either mode.
pub proof fn lemma_lfsr_never_zero(reg: u16, short_mode: bool)
    requires
        0 < reg <= 0x7FFF,
    ensures
        0 < lfsr_shift(reg, short_mode) <= 0x7FFF,
{
    assert(0 < reg <= 0x7FFF ==> {
        let feedback: u16 = ((reg >> 0u16) ^ (reg >> 6u16)) & 1;
        let r = (reg >> 1u16) | (feedback << 14u16);
        0 < r <= 0x7FFF
    }) by (bit_vector);
    assert(0 < reg <= 0x7FFF ==> {
        let feedback: u16 = ((reg >> 0u16) ^ (reg >> 1u16)) & 1;
        let r = (reg >> 1u16) | (feedback << 14u16);
        0 < r <= 0x7FFF
    }) by (bit_vector);
}

/// An envelope clock keeps the divider and the decay level within 4 bits
/// when the volume is a 4-bit value.
pub proof fn lemma_envelope_stays_4bit(start: bool, divider: u8, decay: u8, volume: u8, looping: bool)
    requires
        divider <= 15,
        decay <= 15,
        volume <= 15,
    ensures
        envelope_clock(start, divider, decay, volume, looping).1 <= 15,
        envelope_clock(start, divider, decay, volume, looping).2 <= 15,
        !envelope_clock(start, divider, decay, volume, looping).0,
{
}

/// A pulse channel never drives more than a 4-bit level into the mixer.
pub proof fn lemma_pulse_output_4bit(s: PulseChannelState)
    requires
        s.volume <= 15,
        s.envelope_decay <= 15,
    ensures
        pulse_output(s) <= 15,
{
}

/// The sweep unit never pushes an 11-bit period past 11 bits: whatever the
/// sweep settings, the period after a half-frame sweep clock is at most 0x7FF.
pub proof fn lemma_sweep_keeps_11bit_period(s: PulseChannelState)
    requires
        s.timer_reload <= 0x7FF,
    ensures
        sweep_clock(s).timer_reload <= 0x7FF,
        sweep_clock(s).timer_reload == s.timer_reload || sweep_clock(s).timer_reload == swept_period(s),
{
}

/// When the sweep changes the period, the new period is the sweep target,
/// which is in range: a muting channel never has its period changed.
pub proof fn lemma_sweep_leaves_muted_period(s: PulseChannelState)
    requires
        sweep_muting(s),
    ensures
        swept_period(s) == s.timer_reload,
        sweep_clock(s).timer_reload == s.timer_reload,
{
}

/// The sweep target differs from the current period by at most the period
/// shifted right by the shift count, plus one.
pub proof fn lemma_sweep_target_close(s: PulseChannelState)
    ensures
        s.timer_reload - (s.timer_reload >> s.sweep_shift) - 1 <= sweep_target(s),
        sweep_target(s) <= s.timer_reload + (s.timer_reload >> s.sweep_shift),
{
}

/// The DMC output level is a 7-bit value and stays one under every output
/// clock, every timer clock and every direct load.
pub proof fn lemma_dmc_level_stays_7bit(s: DmcState, data: u8)
    requires
        s.output_level <= 127,
    ensures
        dmc_clock_output(s).output_level <= 127,
        dmc_step(s).output_level <= 127,
        dmc_write_direct_load(s, data).output_level <= 127,
{
    assert((data & 0x7F) <= 127) by (bit_vector);
}

/// Every APU cycle keeps the state valid: the frame counter stays inside
/// the current sequence and the channels' sequencer positions in range.
pub proof fn lemma_apu_step_keeps_valid(s: ApuState)
    requires
        s.valid(),
    ensures
        apu_step(s).valid(),
{
}

/// Every register write keeps the state valid.
pub proof fn lemma_apu_write_keeps_valid(s: ApuState, addr: u16, data: u8)
    requires
        s.valid(),
    ensures
        apu_write(s, addr, data).valid(),
{
    lemma_field_ranges(data);
}

proof fn lemma_status_bits_of_sum(a: bool, b: bool, c: bool, d: bool, e: bool, f: bool, g: bool)
    ensures
        ({
            let v: int = (if a { 1int } else { 0 }) + (if b { 2int } else { 0 }) + (if c { 4int } else { 0 })
                + (if d { 8int } else { 0 }) + (if e { 16int } else { 0 }) + (if f { 64int } else { 0 })
                + (if g { 128int } else { 0 });
            &&& 0 <= v < 256
            &&& (v / 1) % 2 == (if a { 1int } else { 0 })
            &&& (v / 2) % 2 == (if b { 1int } else { 0 })
            &&& (v / 4) % 2 == (if c { 1int } else { 0 })
            &&& (v / 8) % 2 == (if d { 1int } else { 0 })
            &&& (v / 16) % 2 == (if e { 1int } else { 0 })
            &&& (v / 32) % 2 == 0
            &&& (v / 64) % 2 == (if f { 1int } else { 0 })
            &&& (v / 128) % 2 == (if g { 1int } else { 0 })
        }),
{
}

/// Law of the $4015 status read: bit 0 reports pulse 1, bit 1 pulse 2,
/// bit 2 the triangle and bit 3 the noise, each while the channel is
/// enabled with a non-zero length counter; bit 4 reports DMC bytes still to
/// play, bit 5 is always clear, bit 6 is the frame IRQ and bit 7 the DMC
/// IRQ.
pub proof fn lemma_status_bits(s: ApuState)
    ensures
        ((status_byte(s) as int / 1) % 2 == 1) == (s.pulse1_enabled && s.pulse1.length_counter > 0),
        ((status_byte(s) as int / 2) % 2 == 1) == (s.pulse2_enabled && s.pulse2.length_counter > 0),
        ((status_byte(s) as int / 4) % 2 == 1) == (s.triangle_enabled && s.triangle.length_counter > 0),
        ((status_byte(s) as int / 8) % 2 == 1) == (s.noise_enabled && s.noise.length_counter > 0),
        ((status_byte(s) as int / 16) % 2 == 1) == (s.dmc.bytes_remaining > 0),
        (status_byte(s) as int / 32) % 2 == 0,
        ((status_byte(s) as int / 64) % 2 == 1) == s.frame_irq,
        ((status_byte(s) as int / 128) % 2 == 1) == s.dmc.irq_pending,
{
    lemma_status_bits_of_sum(
        s.pulse1_enabled && s.pulse1.length_counter > 0,
        s.pulse2_enabled && s.pulse2.length_counter > 0,
        s.triangle_enabled && s.triangle.length_counter > 0,
        s.noise_enabled && s.noise.length_counter > 0,
        s.dmc.bytes_remaining > 0,
        s.frame_irq,
        s.dmc.irq_pending,
    );
}

/// Law of the enable register: right after a $4015 write, a tone channel is
/// reported in the status read only if its bit of the written value
/// enabled it (pulse 1 bit 0, pulse 2 bit 1, triangle bit 2, noise bit 3).
pub proof fn lemma_status_follows_enable(s: ApuState, data: u8)
    ensures
        (status_byte(write_status(s, data)) as int / 1) % 2 == 1 ==> data & 0x01 != 0,
        (status_byte(write_status(s, data)) as int / 2) % 2 == 1 ==> data & 0x02 != 0,
        (status_byte(write_status(s, data)) as int / 4) % 2 == 1 ==> data & 0x04 != 0,
        (status_byte(write_status(s, data)) as int / 8) % 2 == 1 ==> data & 0x08 != 0,
{
    lemma_status_bits(write_status(s, data));
}

/// Law of the sweep unit's target period, with `change` the period divided
/// by 2 to the shift: negation lowers the period by `change` (by one more on
/// pulse 1, whose adder negates by one's complement), otherwise it rises by
/// `change`. So a negated target never lies above the period, a plain one
/// never below.
pub proof fn lemma_sweep_target_direction(s: PulseChannelState)
    requires
        s.valid(),
    ensures
        ({
            let change = s.timer_reload as int / pow2(s.sweep_shift as nat) as int;
            &&& s.sweep_negate && s.is_pulse1 ==> sweep_target(s) == s.timer_reload - change - 1
            &&& s.sweep_negate && !s.is_pulse1 ==> sweep_target(s) == s.timer_reload - change
            &&& !s.sweep_negate ==> sweep_target(s) == s.timer_reload + change
        }),
        s.sweep_negate ==> sweep_target(s) <= s.timer_reload,
        !s.sweep_negate ==> sweep_target(s) >= s.timer_reload,
{
    let t = s.timer_reload;
    let sh = s.sweep_shift;
    assert(t >> sh == t >> (sh as u16) && t >> sh <= t) by (bit_vector)
        requires sh < 16;
    vstd::bits::lemma_u16_shr_is_div(t, sh as u16);
}

/// `k` half-frame clocks of a length counter.
pub open spec fn length_clocks(counter: u8, enabled: bool, k: nat) -> u8
    decreases k,
{
    if k == 0 { counter } else { length_clock(length_clocks(counter, enabled, (k - 1) as nat), enabled) }
}

/// Law of the length counter: while counting is enabled (not halted) it
/// goes down by one per half frame and stops at 0; while halted it holds.
pub proof fn lemma_length_counts_down(counter: u8, enabled: bool, k: nat)
    ensures
        enabled ==> length_clocks(counter, enabled, k) as int == if k >= counter { 0 } else { counter - k },
        !enabled ==> length_clocks(counter, enabled, k) == counter,
    decreases k,
{
    if k > 0 {
        lemma_length_counts_down(counter, enabled, (k - 1) as nat);
    }
}

/// `k` quarter-frame clocks of an envelope that is not restarted.
pub open spec fn envelope_clocks(divider: u8, decay: u8, volume: u8, looping: bool, k: nat) -> (u8, u8)
    decreases k,
{
    if k == 0 {
        (divider, decay)
    } else {
        let (d, l) = envelope_clocks(divider, decay, volume, looping, (k - 1) as nat);
        let (_, d2, l2) = envelope_clock(false, d, l, volume, looping);
        (d2, l2)
    }
}

/// Law of the envelope: a start resets the level to 15 and the divider to
/// the volume `v`; from there the level steps down by one every `v + 1`
/// quarter frames and, at 0, stays there, or wraps to 15 in loop mode.
pub proof fn lemma_envelope_period(volume: u8, decay: u8, looping: bool, j: nat)
    requires
        j <= volume as nat,
    ensures
        envelope_clock(true, 0, 0, volume, looping) == (false, volume, 15u8),
        envelope_clocks(volume, decay, volume, looping, j) == ((volume - j) as u8, decay),
        envelope_clocks(volume, decay, volume, looping, volume as nat + 1)
            == (volume, if decay > 0 { (decay - 1) as u8 } else if looping { 15u8 } else { 0u8 }),
{
    lemma_envelope_run(volume, decay, looping, j);
    lemma_envelope_run(volume, decay, looping, volume as nat);
}

proof fn lemma_envelope_run(volume: u8, decay: u8, looping: bool, j: nat)
    requires
        j <= volume as nat,
    ensures
        envelope_clocks(volume, decay, volume, looping, j) == ((volume - j) as u8, decay),
    decreases j,
{
    if j > 0 {
        lemma_envelope_run(volume, decay, looping, (j - 1) as nat);
    }
}

/// Law of the sweep unit's effect: a disabled sweep, a zero shift or a
/// period below 8 leaves the period as it is; otherwise the new period
/// never rises with negate (pitch goes up) and never falls without it.
pub proof fn lemma_swept_period_direction(s: PulseChannelState)
    requires
        s.valid(),
    ensures
        (!s.sweep_enabled || s.sweep_shift == 0 || s.timer_reload < 8) ==> swept_period(s) == s.timer_reload,
        s.sweep_negate ==> swept_period(s) <= s.timer_reload,
        !s.sweep_negate ==> swept_period(s) >= s.timer_reload,
{
    lemma_sweep_target_direction(s);
}

} // verus!

//! Sunsoft FME-7 / 5B (mapper 69): a command register that selects one of
//! sixteen bank, mirroring and IRQ registers, a 16-bit CPU-cycle IRQ
//! counter, and the 5B's YM2149-style sound: three square-wave tones, a
//! 17-bit noise generator and an envelope generator. The sound yields a
//! 4-bit level per channel; turning levels into a mixed sample is left to
//! the audio output.

use vstd::prelude::*;
use crate::cartridge::Mirroring;
use crate::cartridge::state::Fme7State;
use crate::bits::lemma_u8_masks;

verus! {

/// The 5B sound chip's registers and generators.
#[derive(Debug, Clone)]
pub struct Sunsoft5BAudio {
    pub register_select: u8,
    pub tone_period: [u16; 3],
    pub tone_counter: [u16; 3],
    pub tone_output: [bool; 3],
    pub noise_period: u8,
    pub noise_counter: u8,
    pub noise_lfsr: u32,
    pub noise_output: bool,
    pub mixer: u8,
    pub volume: [u8; 3],
    pub envelope_period: u16,
    pub envelope_counter: u16,
    pub envelope_shape: u8,
    pub envelope_volume: u8,
    pub envelope_holding: bool,
    pub envelope_up: bool,
    pub prescaler: u8,
    pub last_levels: [u8; 3],
}

/// A period of 0 counts as 1.
pub open spec fn at_least_one_u16(p: u16) -> u16 {
    if p > 0 { p } else { 1 }
}

/// A period of 0 counts as 1.
pub open spec fn at_least_one_u8(p: u8) -> u8 {
    if p > 0 { p } else { 1 }
}

/// One internal tick of a tone generator: the counter runs down; on
/// reaching 0 it reloads from the period and the square wave flips.
pub open spec fn tone_step(counter: u16, period: u16, out: bool) -> (u16, bool) {
    let c: u16 = if counter > 0 { (counter - 1) as u16 } else { 0 };
    if c == 0 { (at_least_one_u16(period), !out) } else { (c, out) }
}

/// One step of the 17-bit noise LFSR (feedback from bits 0 and 3 into
/// bit 16).
pub open spec fn lfsr_step(lfsr: u32) -> u32 {
    (lfsr >> 1u32) | (((lfsr ^ (lfsr >> 3u32)) & 1) << 16u32)
}

/// One internal tick of the noise generator: the counter runs down; on
/// reaching 0 it reloads and the LFSR steps, its bit 0 becoming the output.
pub open spec fn noise_step(counter: u8, period: u8, lfsr: u32, out: bool) -> (u8, u32, bool) {
    let c: u8 = if counter > 0 { (counter - 1) as u8 } else { 0 };
    if c == 0 {
        let l = lfsr_step(lfsr);
        (at_least_one_u8(period), l, l & 1 != 0)
    } else {
        (c, lfsr, out)
    }
}

/// The envelope at the end of a ramp, by the shape's CONTINUE, ALTERNATE
/// and HOLD bits: without CONTINUE it drops to 0 and holds; with HOLD it
/// holds (at the opposite end when ALTERNATE); with ALTERNATE alone it
/// reverses; otherwise it restarts the ramp. Gives (volume, up, holding).
pub open spec fn envelope_boundary(shape: u8, volume: u8, up: bool, holding: bool) -> (u8, bool, bool) {
    let cont = shape & 0x08 != 0;
    let alt = shape & 0x02 != 0;
    let hold = shape & 0x01 != 0;
    if !cont {
        (0, up, true)
    } else if hold {
        (if alt { if up { 0u8 } else { 15u8 } } else { volume }, up, true)
    } else if alt {
        (volume, !up, holding)
    } else {
        (if up { 0u8 } else { 15u8 }, up, holding)
    }
}

/// One envelope step: one level up or down, or the boundary behaviour at
/// the end of the ramp.
pub open spec fn envelope_step(shape: u8, volume: u8, up: bool, holding: bool) -> (u8, bool, bool) {
    if up && volume < 15 {
        ((volume + 1) as u8, up, holding)
    } else if !up && volume > 0 {
        ((volume - 1) as u8, up, holding)
    } else {
        envelope_boundary(shape, volume, up, holding)
    }
}

/// The chip after one internal tick (every 16 CPU cycles): each tone, the
/// noise, and (unless holding) the envelope counter run; the envelope
/// steps when its counter reloads.
pub open spec fn s5b_ticked(a: Sunsoft5BAudio, n: Sunsoft5BAudio) -> bool {
    &&& forall|i: int| 0 <= i < 3 ==> (#[trigger] n.tone_counter@[i], n.tone_output@[i])
        == tone_step(a.tone_counter@[i], a.tone_period@[i], a.tone_output@[i])
    &&& n.tone_counter@.len() == 3 && n.tone_output@.len() == 3
    &&& (n.noise_counter, n.noise_lfsr, n.noise_output) == noise_step(a.noise_counter, a.noise_period, a.noise_lfsr, a.noise_output)
    &&& if a.envelope_holding {
        n.envelope_counter == a.envelope_counter && n.envelope_volume == a.envelope_volume
            && n.envelope_up == a.envelope_up && n.envelope_holding
    } else {
        let c: u16 = if a.envelope_counter > 0 { (a.envelope_counter - 1) as u16 } else { 0 };
        if c == 0 {
            &&& n.envelope_counter == at_least_one_u16(a.envelope_period)
            &&& (n.envelope_volume, n.envelope_up, n.envelope_holding)
                == envelope_step(a.envelope_shape, a.envelope_volume, a.envelope_up, false)
        } else {
            n.envelope_counter == c && n.envelope_volume == a.envelope_volume && n.envelope_up == a.envelope_up
                && !n.envelope_holding
        }
    }
    &&& n.register_select == a.register_select && n.tone_period == a.tone_period && n.noise_period == a.noise_period
    &&& n.mixer == a.mixer && n.volume == a.volume && n.envelope_period == a.envelope_period
    &&& n.envelope_shape == a.envelope_shape && n.prescaler == a.prescaler && n.last_levels == a.last_levels
}

/// The level (0-15) channel `ch` sounds at: its volume register's low
/// four bits, or the envelope when its bit 4 is set; 0 while the mixer's
/// tone and noise gates close it (disabling the tone or the noise leaves its
/// gate open).
pub open spec fn channel_level(a: Sunsoft5BAudio, ch: int) -> u8 {
    let tone_disable = (a.mixer >> (ch as u8)) & 1 != 0;
    let noise_disable = (a.mixer >> ((ch + 3) as u8)) & 1 != 0;
    let gate = (a.tone_output@[ch] || tone_disable) && (a.noise_output || noise_disable);
    if !gate {
        0
    } else if a.volume@[ch] & 0x10 != 0 {
        a.envelope_volume
    } else {
        a.volume@[ch] & 0x0F
    }
}

/// The chip after a write of `data` to the selected register: tone periods
/// (low byte, high nibble), noise period (5 bits), mixer, channel volumes
/// (5 bits), envelope period (low, high) and envelope shape, which also
/// restarts the envelope at the start of its ramp.
pub open spec fn s5b_data_written(a: Sunsoft5BAudio, n: Sunsoft5BAudio, data: u8) -> bool {
    let r = a.register_select;
    let ch: int = (r / 2) as int;
    &&& n.tone_period@ == if r <= 5 && r % 2 == 0 {
        a.tone_period@.update(ch, (a.tone_period@[ch] & 0xF00) | (data as u16))
    } else if r <= 5 {
        a.tone_period@.update(ch, (a.tone_period@[ch] & 0x0FF) | (((data as u16) & 0x0F) << 8u16))
    } else {
        a.tone_period@
    }
    &&& n.noise_period == if r == 6 { data & 0x1F } else { a.noise_period }
    &&& n.mixer == if r == 7 { data } else { a.mixer }
    &&& n.volume@ == if 8 <= r <= 10 { a.volume@.update(r - 8, data & 0x1F) } else { a.volume@ }
    &&& n.envelope_period == if r == 11 {
        (a.envelope_period & 0xFF00) | (data as u16)
    } else if r == 12 {
        (a.envelope_period & 0x00FF) | ((data as u16) << 8u16)
    } else {
        a.envelope_period
    }
    &&& n.envelope_shape == if r == 13 { data & 0x0F } else { a.envelope_shape }
    &&& n.envelope_up == if r == 13 { data & 0x04 != 0 } else { a.envelope_up }
    &&& n.envelope_volume == if r == 13 { if data & 0x04 != 0 { 0u8 } else { 15u8 } } else { a.envelope_volume }
    &&& n.envelope_holding == if r == 13 { false } else { a.envelope_holding }
    &&& n.envelope_counter == if r == 13 { at_least_one_u16(a.envelope_period) } else { a.envelope_counter }
    &&& n.register_select == a.register_select && n.tone_counter == a.tone_counter && n.tone_output == a.tone_output
    &&& n.noise_counter == a.noise_counter && n.noise_lfsr == a.noise_lfsr && n.noise_output == a.noise_output
    &&& n.prescaler == a.prescaler && n.last_levels == a.last_levels
}

/// The LFSR never reaches 0 and stays within 17 bits.
pub proof fn lemma_lfsr_step_nonzero(lfsr: u32)
    requires
        lfsr != 0,
        lfsr < 0x20000,
    ensures
        lfsr_step(lfsr) != 0,
        lfsr_step(lfsr) < 0x20000,
{
    assert(lfsr != 0 && lfsr < 0x20000 ==> ((lfsr >> 1u32) | (((lfsr ^ (lfsr >> 3u32)) & 1) << 16u32)) != 0
        && ((lfsr >> 1u32) | (((lfsr ^ (lfsr >> 3u32)) & 1) << 16u32)) < 0x20000) by (bit_vector);
}

/// The power-on state of the sound chip.
pub open spec fn s5b_power_on(a: Sunsoft5BAudio) -> bool {
    &&& a.valid()
    &&& a.register_select == 0
    &&& a.tone_period@ =~= seq![0u16, 0, 0]
    &&& a.tone_counter@ =~= seq![1u16, 1, 1]
    &&& a.tone_output@ =~= seq![false, false, false]
    &&& a.noise_period == 0 && a.noise_counter == 1 && a.noise_lfsr == 1 && !a.noise_output
    &&& a.mixer == 0xFF
    &&& a.volume@ =~= seq![0u8, 0, 0]
    &&& a.envelope_period == 0 && a.envelope_counter == 1 && a.envelope_shape == 0
    &&& a.envelope_volume == 0 && a.envelope_holding && !a.envelope_up
    &&& a.prescaler == 0
    &&& a.last_levels@ =~= seq![0u8, 0, 0]
}

impl Sunsoft5BAudio {
    /// The chip's invariant: the envelope level is 4 bits, the noise LFSR
    /// is a non-zero 17-bit value, the prescaler counts below 16 and the
    /// cached channel levels are 4 bits.
    pub open spec fn valid(&self) -> bool {
        &&& self.envelope_volume <= 15
        &&& self.noise_lfsr != 0 && self.noise_lfsr < 0x20000
        &&& self.prescaler < 16
        &&& forall|i: int| 0 <= i < 3 ==> #[trigger] self.last_levels@[i] <= 15
    }

    /// Power-on state: all periods 0, counters at 1, every output disabled
    /// in the mixer, the envelope holding at 0, the LFSR at 1.
    pub fn new() -> (a: Sunsoft5BAudio)
        ensures
            s5b_power_on(a),
    {
        Sunsoft5BAudio {
            register_select: 0,
            tone_period: [0; 3],
            tone_counter: [1; 3],
            tone_output: [false; 3],
            noise_period: 0,
            noise_counter: 1,
            noise_lfsr: 1,
            noise_output: false,
            mixer: 0xFF,
            volume: [0; 3],
            envelope_period: 0,
            envelope_counter: 1,
            envelope_shape: 0,
            envelope_volume: 0,
            envelope_holding: true,
            envelope_up: false,
            prescaler: 0,
            last_levels: [0; 3],
        }
    }

    /// Selects the register the next data write goes to (low four bits).
    pub fn write_select(&mut self, data: u8)
        ensures
            *final(self) == (Sunsoft5BAudio { register_select: data & 0x0F, ..*old(self) }),
    {
        self.register_select = data & 0x0F;
    }

    /// Writes the selected register.
    pub fn write_data(&mut self, data: u8)
        requires
            old(self).valid(),
        ensures
            final(self).valid(),
            s5b_data_written(*old(self), *final(self), data),
    {
        let r = self.register_select;
        if r <= 5 {
            let ch = (r / 2) as usize;
            if r % 2 == 0 {
                self.tone_period[ch] = (self.tone_period[ch] & 0xF00) | data as u16;
            } else {
                self.tone_period[ch] = (self.tone_period[ch] & 0x0FF) | ((data as u16 & 0x0F) << 8);
            }
        } else if r == 6 {
            self.noise_period = data & 0x1F;
        } else if r == 7 {
            self.mixer = data;
        } else if r <= 10 {
            self.volume[(r - 8) as usize] = data & 0x1F;
        } else if r == 11 {
            self.envelope_period = (self.envelope_period & 0xFF00) | data as u16;
        } else if r == 12 {
            self.envelope_period = (self.envelope_period & 0x00FF) | ((data as u16) << 8);
        } else if r == 13 {
            self.envelope_shape = data & 0x0F;
            self.envelope_up = (data & 0x04) != 0;
            self.envelope_volume = if self.envelope_up { 0 } else { 15 };
            self.envelope_holding = false;
            self.envelope_counter = if self.envelope_period > 0 { self.envelope_period } else { 1 };
        }
    }

    /// One internal tick of tone channel `ch`.
    fn clock_tone(&mut self, ch: usize)
        requires
            ch < 3,
        ensures
            (final(self).tone_counter@[ch as int], final(self).tone_output@[ch as int])
                == tone_step(old(self).tone_counter@[ch as int], old(self).tone_period@[ch as int], old(self).tone_output@[ch as int]),
            final(self).tone_counter@ == old(self).tone_counter@.update(ch as int, final(self).tone_counter@[ch as int]),
            final(self).tone_output@ == old(self).tone_output@.update(ch as int, final(self).tone_output@[ch as int]),
            *final(self) == (Sunsoft5BAudio { tone_counter: final(self).tone_counter, tone_output: final(self).tone_output, ..*old(self) }),
    {
        if self.tone_counter[ch] > 0 {
            self.tone_counter[ch] = self.tone_counter[ch] - 1;
        }
        if self.tone_counter[ch] == 0 {
            self.tone_counter[ch] = if self.tone_period[ch] > 0 { self.tone_period[ch] } else { 1 };
            self.tone_output[ch] = !self.tone_output[ch];
        }
    }

    /// The envelope at the end of a ramp (see [`envelope_boundary`]).
    fn handle_envelope_boundary(&mut self)
        ensures
            (final(self).envelope_volume, final(self).envelope_up, final(self).envelope_holding)
                == envelope_boundary(old(self).envelope_shape, old(self).envelope_volume, old(self).envelope_up, old(self).envelope_holding),
            *final(self) == (Sunsoft5BAudio {
                envelope_volume: final(self).envelope_volume,
                envelope_up: final(self).envelope_up,
                envelope_holding: final(self).envelope_holding,
                ..*old(self)
            }),
    {
        let cont = (self.envelope_shape & 0x08) != 0;
        let alt = (self.envelope_shape & 0x02) != 0;
        let hold = (self.envelope_shape & 0x01) != 0;
        if !cont {
            self.envelope_volume = 0;
            self.envelope_holding = true;
        } else if hold {
            if alt {
                self.envelope_volume = if self.envelope_up { 0 } else { 15 };
            }
            self.envelope_holding = true;
        } else if alt {
            self.envelope_up = !self.envelope_up;
        } else {
            self.envelope_volume = if self.envelope_up { 0 } else { 15 };
        }
    }

    /// One envelope step (see [`envelope_step`]).
    fn step_envelope(&mut self)
        ensures
            (final(self).envelope_volume, final(self).envelope_up, final(self).envelope_holding)
                == envelope_step(old(self).envelope_shape, old(self).envelope_volume, old(self).envelope_up, old(self).envelope_holding),
            *final(self) == (Sunsoft5BAudio {
                envelope_volume: final(self).envelope_volume,
                envelope_up: final(self).envelope_up,
                envelope_holding: final(self).envelope_holding,
                ..*old(self)
            }),
    {
        if self.envelope_up {
            if self.envelope_volume < 15 {
                self.envelope_volume = self.envelope_volume + 1;
            } else {
                self.handle_envelope_boundary();
            }
        } else {
            if self.envelope_volume > 0 {
                self.envelope_volume = self.envelope_volume - 1;
            } else {
                self.handle_envelope_boundary();
            }
        }
    }

    /// One internal tick of every generator.
    fn clock_internal(&mut self)
        requires
            old(self).valid(),
        ensures
            final(self).valid(),
            s5b_ticked(*old(self), *final(self)),
    {
        let ghost a = *self;
        self.clock_tone(0);
        self.clock_tone(1);
        self.clock_tone(2);
        assert forall|i: int| 0 <= i < 3 implies (#[trigger] self.tone_counter@[i], self.tone_output@[i])
            == tone_step(a.tone_counter@[i], a.tone_period@[i], a.tone_output@[i]) by {
            if i == 0 {
            } else if i == 1 {
            } else {
            }
        }
        if self.noise_counter > 0 {
            self.noise_counter = self.noise_counter - 1;
        }
        if self.noise_counter == 0 {
            self.noise_counter = if self.noise_period > 0 { self.noise_period } else { 1 };
            proof {
                lemma_lfsr_step_nonzero(self.noise_lfsr);
            }
            let feedback = (self.noise_lfsr ^ (self.noise_lfsr >> 3)) & 1;
            self.noise_lfsr = (self.noise_lfsr >> 1) | (feedback << 16);
            self.noise_output = (self.noise_lfsr & 1) != 0;
        }
        if !self.envelope_holding {
            if self.envelope_counter > 0 {
                self.envelope_counter = self.envelope_counter - 1;
            }
            if self.envelope_counter == 0 {
                self.envelope_counter = if self.envelope_period > 0 { self.envelope_period } else { 1 };
                self.step_envelope();
            }
        }
    }

    /// The level each channel sounds at now.
    pub fn compute_levels(&self) -> (levels: [u8; 3])
        requires
            self.valid(),
        ensures
            forall|i: int| 0 <= i < 3 ==> #[trigger] levels@[i] == channel_level(*self, i) && levels@[i] <= 15,
    {
        let mut levels: [u8; 3] = [0; 3];
        let mut ch: usize = 0;
        while ch < 3
            invariant
                ch <= 3,
                self.valid(),
                forall|i: int| 0 <= i < ch ==> #[trigger] levels@[i] == channel_level(*self, i) && levels@[i] <= 15,
            decreases 3 - ch,
        {
            let shift = ch as u8;
            let tone_disable = (self.mixer >> shift) & 1 != 0;
            let noise_disable = (self.mixer >> (shift + 3)) & 1 != 0;
            let gate = (self.tone_output[ch] || tone_disable) && (self.noise_output || noise_disable);
            let level = if !gate {
                0
            } else if self.volume[ch] & 0x10 != 0 {
                self.envelope_volume
            } else {
                proof {
                    lemma_u8_masks(self.volume@[ch as int]);
                }
                self.volume[ch] & 0x0F
            };
            levels[ch] = level;
            ch = ch + 1;
        }
        levels
    }

    /// One CPU cycle: every 16th cycle the generators tick and the channel
    /// levels are recomputed; returns the current levels.
    pub fn clock(&mut self) -> (levels: [u8; 3])
        requires
            old(self).valid(),
        ensures
            final(self).valid(),
            levels == final(self).last_levels,
            old(self).prescaler < 15 ==> *final(self) == (Sunsoft5BAudio { prescaler: (old(self).prescaler + 1) as u8, ..*old(self) }),
            old(self).prescaler == 15 ==> {
                &&& final(self).prescaler == 0
                &&& s5b_ticked(*old(self), Sunsoft5BAudio { prescaler: old(self).prescaler, last_levels: old(self).last_levels, ..*final(self) })
                &&& forall|i: int| 0 <= i < 3 ==> #[trigger] final(self).last_levels@[i] == channel_level(*final(self), i)
            },
    {
        self.prescaler = self.prescaler + 1;
        if self.prescaler >= 16 {
            self.prescaler = 0;
            self.clock_internal();
            self.last_levels = self.compute_levels();
        }
        self.last_levels
    }
}

/// The chip after one CPU cycle of its IRQ counter: while counting it
/// decrements (wrapping from 0 to $FFFF), and wrapping with IRQs enabled
/// raises the IRQ.
pub open spec fn fme7_irq_clocked(f: Fme7) -> Fme7 {
    if f.irq_counter_enabled {
        Fme7 {
            irq_counter: if f.irq_counter == 0 { 0xFFFFu16 } else { (f.irq_counter - 1) as u16 },
            irq_pending: f.irq_pending || (f.irq_counter == 0 && f.irq_enabled),
            ..f
        }
    } else {
        f
    }
}

/// The chip after `n` such cycles.
pub open spec fn fme7_irq_clocked_n(f: Fme7, n: nat) -> Fme7
    decreases n,
{
    if n == 0 { f } else { fme7_irq_clocked(fme7_irq_clocked_n(f, (n - 1) as nat)) }
}

/// The nametable arrangement of FME-7 command $C (low two bits).
pub open spec fn fme7_mirroring(data: u8) -> Mirroring {
    let m = data % 4;
    if m == 0 {
        Mirroring::Vertical
    } else if m == 1 {
        Mirroring::Horizontal
    } else if m == 2 {
        Mirroring::OneScreenLower
    } else {
        Mirroring::OneScreenUpper
    }
}

/// The chip after a CPU write: $8000-$9FFF selects the command (4 bits);
/// $A000-$BFFF writes its parameter (CHR banks 0-7, the $6000 window 8,
/// PRG banks 9-11, IRQ control $D, counter low $E and high $F bytes);
/// $C000-$DFFF and $E000-$FFFF select and write the sound registers.
pub open spec fn fme7_written(o: Fme7, n: Fme7, addr: u16, data: u8) -> bool {
    let cmd = o.command;
    let param = 0xA000 <= addr < 0xC000;
    &&& n.command == if 0x8000 <= addr < 0xA000 { data & 0x0F } else { o.command }
    &&& n.chr_banks@ == if param && cmd <= 7 { o.chr_banks@.update(cmd as int, data) } else { o.chr_banks@ }
    &&& n.prg_ram_enabled == if param && cmd == 8 { data & 0x80 != 0 } else { o.prg_ram_enabled }
    &&& n.prg_ram_select == if param && cmd == 8 { data & 0x40 != 0 } else { o.prg_ram_select }
    &&& n.prg_bank_6000 == if param && cmd == 8 { data & 0x3F } else { o.prg_bank_6000 }
    &&& n.prg_banks@ == if param && 9 <= cmd <= 11 { o.prg_banks@.update(cmd - 9, data & 0x3F) } else { o.prg_banks@ }
    &&& n.irq_counter_enabled == if param && cmd == 13 { data & 0x80 != 0 } else { o.irq_counter_enabled }
    &&& n.irq_enabled == if param && cmd == 13 { data & 0x01 != 0 } else { o.irq_enabled }
    &&& n.irq_pending == if param && cmd == 13 { false } else { o.irq_pending }
    &&& n.irq_counter == if param && cmd == 14 {
        (o.irq_counter & 0xFF00) | (data as u16)
    } else if param && cmd == 15 {
        ((data as u16) << 8u16) | (o.irq_counter & 0x00FF)
    } else {
        o.irq_counter
    }
    &&& if 0xC000 <= addr < 0xE000 {
        n.audio == (Sunsoft5BAudio { register_select: data & 0x0F, ..o.audio })
    } else if 0xE000 <= addr {
        s5b_data_written(o.audio, n.audio, data)
    } else {
        n.audio == o.audio
    }
}

/// The FME-7 mapper chip.
#[derive(Debug, Clone)]
pub struct Fme7 {
    pub command: u8,
    pub chr_banks: [u8; 8],
    pub prg_banks: [u8; 3],
    pub prg_bank_6000: u8,
    pub prg_ram_enabled: bool,
    pub prg_ram_select: bool,
    pub irq_counter: u16,
    pub irq_counter_enabled: bool,
    pub irq_enabled: bool,
    pub irq_pending: bool,
    pub audio: Sunsoft5BAudio,
}

/// The power-on state of the chip.
pub open spec fn fme7_power_on(f: Fme7) -> bool {
    &&& f.command == 0
    &&& f.chr_banks@ =~= seq![0u8, 0, 0, 0, 0, 0, 0, 0]
    &&& f.prg_banks@ =~= seq![0u8, 0, 0]
    &&& f.prg_bank_6000 == 0
    &&& !f.prg_ram_enabled && !f.prg_ram_select
    &&& f.irq_counter == 0
    &&& !f.irq_counter_enabled && !f.irq_enabled && !f.irq_pending
    &&& s5b_power_on(f.audio)
}

impl Fme7 {
    /// Power-on state: all banks 0, PRG-RAM disabled and unselected, the
    /// IRQ counter stopped at 0.
    pub fn new() -> (f: Fme7)
        ensures
            fme7_power_on(f),
    {
        Fme7 {
            command: 0,
            chr_banks: [0; 8],
            prg_banks: [0; 3],
            prg_bank_6000: 0,
            prg_ram_enabled: false,
            prg_ram_select: false,
            irq_counter: 0,
            irq_counter_enabled: false,
            irq_enabled: false,
            irq_pending: false,
            audio: Sunsoft5BAudio::new(),
        }
    }

    /// A CPU write of the command, a command's parameter or the sound
    /// registers; returns the nametable arrangement command $C selects.
    pub fn write_register(&mut self, addr: u16, data: u8) -> (mirroring: Option<Mirroring>)
        requires
            old(self).audio.valid(),
        ensures
            final(self).audio.valid(),
            fme7_written(*old(self), *final(self), addr, data),
            mirroring == if 0xA000 <= addr < 0xC000 && old(self).command == 0x0C {
                Some(fme7_mirroring(data))
            } else {
                None::<Mirroring>
            },
    {
        if 0x8000 <= addr && addr < 0xA000 {
            self.command = data & 0x0F;
            None
        } else if 0xA000 <= addr && addr < 0xC000 {
            self.write_parameter(data)
        } else if 0xC000 <= addr && addr < 0xE000 {
            self.audio.write_select(data);
            None
        } else if addr >= 0xE000 {
            self.audio.write_data(data);
            None
        } else {
            None
        }
    }

    /// A write of the selected command's parameter.
    fn write_parameter(&mut self, data: u8) -> (mirroring: Option<Mirroring>)
        ensures
            fme7_written(*old(self), *final(self), 0xA000, data),
            mirroring == if old(self).command == 0x0C { Some(fme7_mirroring(data)) } else { None::<Mirroring> },
    {
        proof {
            lemma_u8_masks(data);
        }
        let cmd = self.command;
        if cmd <= 7 {
            self.chr_banks[cmd as usize] = data;
            None
        } else if cmd == 8 {
            self.prg_ram_enabled = (data & 0x80) != 0;
            self.prg_ram_select = (data & 0x40) != 0;
            self.prg_bank_6000 = data & 0x3F;
            None
        } else if cmd <= 11 {
            self.prg_banks[(cmd - 9) as usize] = data & 0x3F;
            None
        } else if cmd == 0x0C {
            Some(match data & 0x03 {
                0 => Mirroring::Vertical,
                1 => Mirroring::Horizontal,
                2 => Mirroring::OneScreenLower,
                _ => Mirroring::OneScreenUpper,
            })
        } else if cmd == 0x0D {
            self.irq_counter_enabled = (data & 0x80) != 0;
            self.irq_enabled = (data & 0x01) != 0;
            self.irq_pending = false;
            None
        } else if cmd == 0x0E {
            let high = self.irq_counter & 0xFF00;
            self.irq_counter = high | (data as u16);
            None
        } else if cmd == 0x0F {
            let low = self.irq_counter & 0x00FF;
            self.irq_counter = ((data as u16) << 8) | low;
            None
        } else {
            None
        }
    }

    /// One CPU cycle of the IRQ counter: while counting it decrements
    /// (wrapping from 0 to $FFFF), and wrapping with IRQs enabled raises
    /// the IRQ.
    pub fn clock_irq_mut(&mut self)
        ensures
            *final(self) == fme7_irq_clocked(*old(self)),
    {
        if self.irq_counter_enabled {
            let old_counter = self.irq_counter;
            self.irq_counter = old_counter.wrapping_sub(1);
            if old_counter == 0 && self.irq_enabled {
                self.irq_pending = true;
            }
        }
    }

    /// The save-state record of the chip (the sound chip is not saved).
    pub fn snapshot_state(&self) -> (s: Fme7State)
        ensures
            s.command == self.command,
            s.chr_banks == self.chr_banks,
            s.prg_banks == self.prg_banks,
            s.prg_bank_6000 == self.prg_bank_6000,
            s.prg_ram_enabled == self.prg_ram_enabled,
            s.prg_ram_select == self.prg_ram_select,
            s.irq_counter == self.irq_counter,
            s.irq_counter_enabled == self.irq_counter_enabled,
            s.irq_enabled == self.irq_enabled,
            s.irq_pending == self.irq_pending,
    {
        Fme7State {
            command: self.command,
            chr_banks: self.chr_banks,
            prg_banks: self.prg_banks,
            prg_bank_6000: self.prg_bank_6000,
            prg_ram_enabled: self.prg_ram_enabled,
            prg_ram_select: self.prg_ram_select,
            irq_counter: self.irq_counter,
            irq_counter_enabled: self.irq_counter_enabled,
            irq_enabled: self.irq_enabled,
            irq_pending: self.irq_pending,
        }
    }

    /// Loads the chip's registers from a save-state record; the sound chip
    /// keeps its state.
    pub fn restore_state(&mut self, state: &Fme7State)
        ensures
            *final(self) == (Fme7 {
                command: state.command,
                chr_banks: state.chr_banks,
                prg_banks: state.prg_banks,
                prg_bank_6000: state.prg_bank_6000,
                prg_ram_enabled: state.prg_ram_enabled,
                prg_ram_select: state.prg_ram_select,
                irq_counter: state.irq_counter,
                irq_counter_enabled: state.irq_counter_enabled,
                irq_enabled: state.irq_enabled,
                irq_pending: state.irq_pending,
                audio: old(self).audio,
            }),
    {
        self.command = state.command;
        self.chr_banks = state.chr_banks;
        self.prg_banks = state.prg_banks;
        self.prg_bank_6000 = state.prg_bank_6000;
        self.prg_ram_enabled = state.prg_ram_enabled;
        self.prg_ram_select = state.prg_ram_select;
        self.irq_counter = state.irq_counter;
        self.irq_counter_enabled = state.irq_counter_enabled;
        self.irq_enabled = state.irq_enabled;
        self.irq_pending = state.irq_pending;
    }
}

} // verus!

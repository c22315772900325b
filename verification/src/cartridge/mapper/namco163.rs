//! Namco 163: twelve 1 KiB CHR/nametable bank registers, three 8 KiB PRG
//! banks, a 15-bit CPU-cycle IRQ counter, and up to eight wavetable sound
//! channels whose registers and samples live in 128 bytes of chip RAM (kept
//! right after the 8 KiB of work RAM).

use vstd::prelude::*;
use crate::cartridge::state::Namco163State;

verus! {

/// Work RAM bytes in front of the chip RAM.
pub const NAMCO163_WRAM_LEN: usize = 0x2000;
/// Bytes of chip RAM (sound registers and wave samples).
pub const NAMCO163_INTERNAL_RAM_LEN: usize = 0x80;

/// The chip's registers. Channel outputs are the integer samples
/// `(nibble - 8) * volume`; the mixed level is `audio_sum / audio_active /
/// 32` (see [`Namco163::clock_audio_channel`]).
#[derive(Debug, Clone)]
pub struct Namco163 {
    pub chr_banks: [u8; 12],
    pub prg_banks: [u8; 3],
    pub sound_disable: bool,
    pub chr_nt_disabled_low: bool,
    pub chr_nt_disabled_high: bool,
    pub wram_write_enable: bool,
    pub wram_write_protect: u8,
    pub internal_addr: u8,
    pub internal_auto_increment: bool,
    pub irq_counter: u16,
    pub irq_enabled: bool,
    pub irq_pending: bool,
    pub audio_delay: u8,
    pub audio_channel_index: u8,
    pub audio_outputs: [i16; 8],
    pub audio_sum: i32,
    pub audio_active: u8,
}

/// Byte `i` of the chip RAM inside the board RAM `r`.
pub open spec fn chip(r: Seq<u8>, i: int) -> u8 {
    r[NAMCO163_WRAM_LEN as int + i]
}

/// Channels enabled: chip RAM $7F bits 4-6, plus one.
pub open spec fn n163_active(r: Seq<u8>) -> u8 {
    ((chip(r, 0x7F) / 16) % 8 + 1) as u8
}

/// First register of channel `ch` when `active` channels run: the enabled
/// channels occupy the top of $40-$7F.
pub open spec fn n163_base(active: u8, ch: u8) -> int {
    0x40 + (8 - active + ch) * 8
}

/// The 18-bit frequency of the channel at `base`.
pub open spec fn n163_freq(r: Seq<u8>, base: int) -> int {
    chip(r, base) + chip(r, base + 2) * 256 + (chip(r, base + 4) % 4) * 65536
}

/// The 24-bit phase of the channel at `base`.
pub open spec fn n163_phase(r: Seq<u8>, base: int) -> int {
    chip(r, base + 1) + chip(r, base + 3) * 256 + chip(r, base + 5) * 65536
}

/// The wave length in samples: 256 minus register 4's upper six bits.
pub open spec fn n163_length(r: Seq<u8>, base: int) -> int {
    256 - (chip(r, base + 4) - chip(r, base + 4) % 4)
}

/// The phase after one step: phase plus frequency, modulo the wave length
/// in 16.16 fixed point.
pub open spec fn n163_next_phase(r: Seq<u8>, base: int) -> int {
    (n163_phase(r, base) + n163_freq(r, base)) % (n163_length(r, base) * 65536)
}

/// The 4-bit wave sample at `index`: two per chip-RAM byte, low nibble
/// first.
pub open spec fn n163_nibble(r: Seq<u8>, index: int) -> int {
    let packed = chip(r, index / 2);
    if index % 2 == 0 { (packed % 16) as int } else { (packed / 16) as int }
}

/// Whether the channel at `base` sounds (a nonzero volume and length).
pub open spec fn n163_sounding(r: Seq<u8>, base: int) -> bool {
    n163_length(r, base) != 0 && chip(r, base + 7) % 16 != 0
}

/// The channel's output after the step: the sample at the new phase plus
/// the wave address, centred and scaled by the volume; 0 when silent.
pub open spec fn n163_sample(r: Seq<u8>, base: int) -> int {
    if n163_sounding(r, base) {
        let index = (n163_next_phase(r, base) / 65536 + chip(r, base + 6)) % 256;
        (n163_nibble(r, index) - 8) * ((chip(r, base + 7) % 16) as int)
    } else {
        0
    }
}

/// The board RAM after the step: a sounding channel writes its new phase
/// back into registers 1, 3 and 5.
pub open spec fn n163_ram_after(r: Seq<u8>, base: int) -> Seq<u8> {
    if n163_sounding(r, base) {
        let p = n163_next_phase(r, base);
        let o = NAMCO163_WRAM_LEN as int + base;
        r.update(o + 1, (p % 256) as u8).update(o + 3, ((p / 256) % 256) as u8).update(o + 5, ((p / 65536) % 256) as u8)
    } else {
        r
    }
}

/// Sum of the first `n` channel outputs.
pub open spec fn level_sum(s: Seq<i16>, n: int) -> int
    decreases n,
{
    if n <= 0 { 0 } else { level_sum(s, n - 1) + s[n - 1] }
}

/// The channel stepped now: the round-robin index, kept below the number
/// of enabled channels.
pub open spec fn n163_channel(n: Namco163, active: u8) -> u8 {
    if n.audio_channel_index < active - 1 { n.audio_channel_index } else { (active - 1) as u8 }
}

/// The outputs after channel `ch` produced `sample`: disabled channels
/// read 0.
pub open spec fn n163_outputs_after(o: Seq<i16>, ch: u8, active: u8, sample: int) -> Seq<i16> {
    Seq::new(8, |k: int| if k == ch as int { sample as i16 } else if k >= active as int { 0i16 } else { o[k] })
}

/// One sound step from chip `o` and board RAM `r` to `n` and `r2`: the
/// current channel advances its phase and outputs its sample (see
/// `n163_sample`); channels past the enabled count are silenced; the mix
/// becomes the sum of the enabled outputs over their count; the next
/// enabled channel is up next.
pub open spec fn n163_channel_clocked(o: Namco163, r: Seq<u8>, n: Namco163, r2: Seq<u8>) -> bool {
    let active = n163_active(r);
    let ch = n163_channel(o, active);
    let base = n163_base(active, ch);
    let outputs = n163_outputs_after(o.audio_outputs@, ch, active, n163_sample(r, base));
    &&& r2 == n163_ram_after(r, base)
    &&& n.audio_outputs@ == outputs
    &&& n == (Namco163 {
        audio_outputs: n.audio_outputs,
        audio_sum: level_sum(outputs, active as int) as i32,
        audio_active: active,
        audio_channel_index: if active <= 1 { 0 } else { ((ch + 1) % (active as int)) as u8 },
        ..o
    })
}

/// The chip `n` after a write of `data` at `addr` ($8000+): CHR bank
/// registers every 2 KiB up to $DFFF; then PRG bank 0 with sound disable,
/// PRG bank 1 with the nametable-RAM disables, PRG bank 2, and the work
/// RAM protection with the chip-RAM address port.
pub open spec fn n163_prg_written(o: Namco163, n: Namco163, addr: u16, data: u8) -> bool {
    if 0x8000 <= addr <= 0xDFFF {
        &&& n.chr_banks@ == o.chr_banks@.update(((addr - 0x8000) / 0x800) as int, data)
        &&& n == (Namco163 { chr_banks: n.chr_banks, ..o })
    } else if 0xE000 <= addr <= 0xE7FF {
        &&& n.prg_banks@ == o.prg_banks@.update(0, data & 0x3F)
        &&& n == (Namco163 { prg_banks: n.prg_banks, sound_disable: data & 0x40 != 0, ..o })
    } else if 0xE800 <= addr <= 0xEFFF {
        &&& n.prg_banks@ == o.prg_banks@.update(1, data & 0x3F)
        &&& n == (Namco163 {
            prg_banks: n.prg_banks,
            chr_nt_disabled_low: data & 0x40 != 0,
            chr_nt_disabled_high: data & 0x80 != 0,
            ..o
        })
    } else if 0xF000 <= addr <= 0xF7FF {
        &&& n.prg_banks@ == o.prg_banks@.update(2, data & 0x3F)
        &&& n == (Namco163 { prg_banks: n.prg_banks, ..o })
    } else if addr >= 0xF800 {
        n == (Namco163 {
            wram_write_enable: data & 0xF0 == 0x40,
            wram_write_protect: data & 0x0F,
            internal_auto_increment: data & 0x80 != 0,
            internal_addr: data & 0x7F,
            ..o
        })
    } else {
        n == o
    }
}

/// The chip after an access of the data port at $4800-$4FFF: the next
/// chip-RAM address when auto-increment is on.
pub open spec fn n163_after_port(n: Namco163) -> Namco163 {
    if n.internal_auto_increment {
        Namco163 { internal_addr: ((n.internal_addr as int + 1) % 128) as u8, ..n }
    } else {
        n
    }
}

/// The chip after a write at $4800-$5FFF: the data port advances; $5000
/// sets the counter's low byte, $5800 its high seven bits and the enable;
/// both acknowledge the IRQ.
pub open spec fn n163_low_written(n: Namco163, addr: u16, data: u8) -> Namco163 {
    if 0x4800 <= addr <= 0x4FFF {
        n163_after_port(n)
    } else if 0x5000 <= addr <= 0x57FF {
        Namco163 { irq_counter: (n.irq_counter & 0x7F00) | (data as u16), irq_pending: false, ..n }
    } else if 0x5800 <= addr <= 0x5FFF {
        Namco163 {
            irq_enabled: data & 0x80 != 0,
            irq_counter: (n.irq_counter & 0x00FF) | (((data & 0x7F) as u16) << 8u16),
            irq_pending: false,
            ..n
        }
    } else {
        n
    }
}

/// The IRQ counter after `cycles` CPU cycles: it counts up while enabled
/// and not pending; reaching $7FFF holds it there and raises the IRQ.
pub open spec fn n163_irq_clocked(n: Namco163, cycles: int) -> Namco163 {
    if !n.irq_enabled || n.irq_pending {
        n
    } else {
        let remaining: int = if n.irq_counter <= 0x7FFF { 0x7FFF - n.irq_counter } else { 0 };
        if cycles >= remaining {
            Namco163 { irq_counter: 0x7FFF, irq_pending: true, ..n }
        } else {
            Namco163 { irq_counter: (n.irq_counter + cycles) as u16, ..n }
        }
    }
}

/// The power-on registers: PRG banks 0, 1, 2, sound off, work RAM
/// protected, audio step delay 14.
pub open spec fn n163_power_on(n: Namco163) -> bool {
    &&& n.chr_banks@ =~= Seq::new(12, |i: int| 0u8)
    &&& n.prg_banks@ =~= seq![0u8, 1, 2]
    &&& n.sound_disable
    &&& !n.chr_nt_disabled_low && !n.chr_nt_disabled_high
    &&& !n.wram_write_enable && n.wram_write_protect == 0x0F
    &&& n.internal_addr == 0 && !n.internal_auto_increment
    &&& n.irq_counter == 0 && !n.irq_enabled && !n.irq_pending
    &&& n.audio_delay == 14 && n.audio_channel_index == 0
    &&& n.audio_outputs@ =~= Seq::new(8, |i: int| 0i16)
    &&& n.audio_sum == 0 && n.audio_active == 1
}

/// The save-state record of the chip: every register.
pub open spec fn n163_record(n: Namco163) -> Namco163State {
    Namco163State {
        chr_banks: n.chr_banks,
        prg_banks: n.prg_banks,
        sound_disable: n.sound_disable,
        chr_nt_disabled_low: n.chr_nt_disabled_low,
        chr_nt_disabled_high: n.chr_nt_disabled_high,
        wram_write_enable: n.wram_write_enable,
        wram_write_protect: n.wram_write_protect,
        internal_addr: n.internal_addr,
        internal_auto_increment: n.internal_auto_increment,
        irq_counter: n.irq_counter,
        irq_enabled: n.irq_enabled,
        irq_pending: n.irq_pending,
        audio_delay: n.audio_delay,
        audio_channel_index: n.audio_channel_index,
        audio_outputs: n.audio_outputs,
        audio_sum: n.audio_sum,
        audio_active: n.audio_active,
    }
}

/// Law of the save states: the record determines the chip, so restoring a
/// snapshot gives the chip back.
pub proof fn lemma_n163_record_determines(a: Namco163, b: Namco163)
    requires
        n163_record(a) == n163_record(b),
    ensures
        a == b,
{
}

/// Clocking `a` then `b` cycles is clocking `a + b` cycles.
pub proof fn lemma_n163_irq_additive(n: Namco163, a: nat, b: nat)
    ensures
        n163_irq_clocked(n163_irq_clocked(n, a as int), b as int) == n163_irq_clocked(n, (a + b) as int),
{
}

impl Namco163 {
    /// The power-on chip.
    pub fn new() -> (n: Namco163)
        ensures
            n163_power_on(n),
    {
        let n = Namco163 {
            chr_banks: [0; 12],
            prg_banks: [0, 1, 2],
            sound_disable: true,
            chr_nt_disabled_low: false,
            chr_nt_disabled_high: false,
            wram_write_enable: false,
            wram_write_protect: 0x0F,
            internal_addr: 0,
            internal_auto_increment: false,
            irq_counter: 0,
            irq_enabled: false,
            irq_pending: false,
            audio_delay: 14,
            audio_channel_index: 0,
            audio_outputs: [0; 8],
            audio_sum: 0,
            audio_active: 1,
        };
        assert(n.chr_banks@ =~= Seq::new(12, |i: int| 0u8));
        assert(n.prg_banks@ =~= seq![0u8, 1, 2]);
        assert(n.audio_outputs@ =~= Seq::new(8, |i: int| 0i16));
        n
    }

    /// Position of the chip-RAM byte the internal address selects.
    pub fn chip_ram_addr(&self) -> (r: usize)
        ensures
            r == NAMCO163_WRAM_LEN + (self.internal_addr % 128) as usize,
    {
        NAMCO163_WRAM_LEN + (self.internal_addr % 128) as usize
    }

    /// The internal address after an access with auto-increment: the next
    /// of 128 positions.
    pub fn advance_internal_addr(&mut self)
        ensures
            *final(self) == if old(self).internal_auto_increment {
                Namco163 { internal_addr: ((old(self).internal_addr as int + 1) % 128) as u8, ..*old(self) }
            } else {
                *old(self)
            },
    {
        if self.internal_auto_increment {
            self.internal_addr = ((self.internal_addr as u16 + 1) % 128) as u8;
        }
    }

    /// Channels enabled by chip RAM $7F (1 to 8).
    pub fn active_channels(ram: &Vec<u8>) -> (r: u8)
        requires
            ram@.len() >= NAMCO163_WRAM_LEN + NAMCO163_INTERNAL_RAM_LEN,
        ensures
            r == n163_active(ram@),
            1 <= r <= 8,
    {
        (ram[NAMCO163_WRAM_LEN + 0x7F] / 16) % 8 + 1
    }

    /// First chip-RAM register of channel `channel_index` of `active`.
    pub fn channel_base(active_channels: u8, channel_index: u8) -> (r: usize)
        requires
            1 <= active_channels <= 8,
            channel_index < active_channels,
        ensures
            r == n163_base(active_channels, channel_index),
            0x40 <= r <= 0x78,
    {
        0x40 + ((8 - active_channels + channel_index) as usize) * 8
    }

    /// One sound step over the chip RAM at the end of `ram` (see
    /// `n163_channel_clocked`).
    #[verifier::rlimit(50)]
    pub fn clock_audio_channel(&mut self, ram: &mut Vec<u8>)
        requires
            old(ram)@.len() >= NAMCO163_WRAM_LEN + NAMCO163_INTERNAL_RAM_LEN,
        ensures
            n163_channel_clocked(*old(self), old(ram)@, *final(self), final(ram)@),
    {
        let active = Self::active_channels(ram);
        let channel_index = if self.audio_channel_index < active - 1 { self.audio_channel_index } else { active - 1 };
        let base = Self::channel_base(active, channel_index);
        let o = NAMCO163_WRAM_LEN + base;
        let freq: u32 = ram[o] as u32 + (ram[o + 2] as u32) * 256 + ((ram[o + 4] % 4) as u32) * 65536;
        let phase: u32 = ram[o + 1] as u32 + (ram[o + 3] as u32) * 256 + (ram[o + 5] as u32) * 65536;
        let length: u32 = 256 - (ram[o + 4] - ram[o + 4] % 4) as u32;
        let wave_address = ram[o + 6] as u32;
        let volume = (ram[o + 7] % 16) as i16;
        let ghost r = ram@;
        let sample: i16 = if length == 0 || volume == 0 {
            0
        } else {
            let next = (phase + freq) % (length * 65536);
            let sample_index = ((next / 65536 + wave_address) % 256) as usize;
            let packed = ram[NAMCO163_WRAM_LEN + sample_index / 2];
            let nibble = if sample_index % 2 == 0 { packed % 16 } else { packed / 16 };
            ram.set(o + 1, (next % 256) as u8);
            ram.set(o + 3, ((next / 256) % 256) as u8);
            ram.set(o + 5, ((next / 65536) % 256) as u8);
            proof {
                assert(nibble <= 15);
                assert(-120 <= (nibble as int - 8) * volume <= 105) by (nonlinear_arith)
                    requires
                        nibble <= 15,
                        0 <= volume <= 15,
                ;
            }
            (nibble as i16 - 8) * volume
        };
        assert(sample as int == n163_sample(r, base as int));
        assert(ram@ =~= n163_ram_after(r, base as int));
        self.audio_outputs[channel_index as usize] = sample;
        let mut index: usize = active as usize;
        while index < 8
            invariant
                active as int <= index <= 8,
                self.audio_outputs@.len() == 8,
                *self == (Namco163 { audio_outputs: self.audio_outputs, ..*old(self) }),
                forall|k: int| 0 <= k < 8 ==> #[trigger] self.audio_outputs@[k] == if k == channel_index as int {
                    sample
                } else if active as int <= k < index {
                    0i16
                } else {
                    old(self).audio_outputs@[k]
                },
                channel_index < active,
            decreases 8 - index,
        {
            self.audio_outputs[index] = 0;
            index = index + 1;
        }
        let ghost outputs = n163_outputs_after(old(self).audio_outputs@, channel_index, active, sample as int);
        assert(self.audio_outputs@ =~= outputs);
        let mut sum: i32 = 0;
        let mut k: usize = 0;
        while k < active as usize
            invariant
                k <= active <= 8,
                self.audio_outputs@ == outputs,
                outputs.len() == 8,
                sum == level_sum(outputs, k as int),
                -32768 * k <= sum <= 32767 * k,
            decreases active - k,
        {
            sum = sum + self.audio_outputs[k] as i32;
            k = k + 1;
        }
        self.audio_sum = sum;
        self.audio_active = active;
        self.audio_channel_index = if active <= 1 { 0 } else { (channel_index + 1) % active };
    }
    /// A write of `data` at `addr` ($8000+) into the registers (see
    /// `n163_prg_written`).
    pub fn write_register(&mut self, addr: u16, data: u8)
        ensures
            n163_prg_written(*old(self), *final(self), addr, data),
    {
        if 0x8000 <= addr && addr <= 0xDFFF {
            let index = ((addr - 0x8000) / 0x0800) as usize;
            self.chr_banks[index] = data;
        } else if 0xE000 <= addr && addr <= 0xE7FF {
            self.sound_disable = data & 0x40 != 0;
            self.prg_banks[0] = data & 0x3F;
        } else if 0xE800 <= addr && addr <= 0xEFFF {
            self.chr_nt_disabled_low = data & 0x40 != 0;
            self.chr_nt_disabled_high = data & 0x80 != 0;
            self.prg_banks[1] = data & 0x3F;
        } else if 0xF000 <= addr && addr <= 0xF7FF {
            self.prg_banks[2] = data & 0x3F;
        } else if addr >= 0xF800 {
            self.wram_write_enable = (data & 0xF0) == 0x40;
            self.wram_write_protect = data & 0x0F;
            self.internal_auto_increment = data & 0x80 != 0;
            self.internal_addr = data & 0x7F;
        }
    }

    /// A write at $4800-$5FFF, as far as the registers go (see
    /// `n163_low_written`).
    pub fn write_low_register(&mut self, addr: u16, data: u8)
        ensures
            *final(self) == n163_low_written(*old(self), addr, data),
    {
        if 0x4800 <= addr && addr <= 0x4FFF {
            self.advance_internal_addr();
        } else if 0x5000 <= addr && addr <= 0x57FF {
            self.irq_counter = (self.irq_counter & 0x7F00) | data as u16;
            self.irq_pending = false;
        } else if 0x5800 <= addr && addr <= 0x5FFF {
            self.irq_enabled = data & 0x80 != 0;
            self.irq_counter = (self.irq_counter & 0x00FF) | (((data & 0x7F) as u16) << 8);
            self.irq_pending = false;
        }
    }

    /// One CPU cycle of sound over the board RAM `ram`: silent (mix 0)
    /// while disabled; else every 15th cycle steps a channel when `ram`
    /// holds the chip RAM. Returns (mix sum, channel count).
    pub fn clock_audio(&mut self, ram: &mut Vec<u8>) -> (r: (i32, u8))
        ensures
            r == (final(self).audio_sum, final(self).audio_active),
            if old(self).sound_disable {
                *final(self) == (Namco163 { audio_sum: 0, ..*old(self) }) && final(ram)@ == old(ram)@
            } else if old(self).audio_delay == 0 {
                let reloaded = Namco163 { audio_delay: 14, ..*old(self) };
                if old(ram)@.len() >= NAMCO163_WRAM_LEN + NAMCO163_INTERNAL_RAM_LEN {
                    n163_channel_clocked(reloaded, old(ram)@, *final(self), final(ram)@)
                } else {
                    *final(self) == reloaded && final(ram)@ == old(ram)@
                }
            } else {
                *final(self) == (Namco163 { audio_delay: (old(self).audio_delay - 1) as u8, ..*old(self) })
                    && final(ram)@ == old(ram)@
            },
    {
        if self.sound_disable {
            self.audio_sum = 0;
        } else if self.audio_delay == 0 {
            self.audio_delay = 14;
            if ram.len() >= NAMCO163_WRAM_LEN + NAMCO163_INTERNAL_RAM_LEN {
                self.clock_audio_channel(ram);
            }
        } else {
            self.audio_delay = self.audio_delay - 1;
        }
        (self.audio_sum, self.audio_active)
    }
    /// The save-state record.
    pub fn snapshot_state(&self) -> (st: Namco163State)
        ensures
            st == n163_record(*self),
    {
        Namco163State {
            chr_banks: self.chr_banks,
            prg_banks: self.prg_banks,
            sound_disable: self.sound_disable,
            chr_nt_disabled_low: self.chr_nt_disabled_low,
            chr_nt_disabled_high: self.chr_nt_disabled_high,
            wram_write_enable: self.wram_write_enable,
            wram_write_protect: self.wram_write_protect,
            internal_addr: self.internal_addr,
            internal_auto_increment: self.internal_auto_increment,
            irq_counter: self.irq_counter,
            irq_enabled: self.irq_enabled,
            irq_pending: self.irq_pending,
            audio_delay: self.audio_delay,
            audio_channel_index: self.audio_channel_index,
            audio_outputs: self.audio_outputs,
            audio_sum: self.audio_sum,
            audio_active: self.audio_active,
        }
    }

    /// Loads every register from a save-state record.
    pub fn restore_state(&mut self, st: &Namco163State)
        ensures
            n163_record(*final(self)) == *st,
    {
        self.chr_banks = st.chr_banks;
        self.prg_banks = st.prg_banks;
        self.sound_disable = st.sound_disable;
        self.chr_nt_disabled_low = st.chr_nt_disabled_low;
        self.chr_nt_disabled_high = st.chr_nt_disabled_high;
        self.wram_write_enable = st.wram_write_enable;
        self.wram_write_protect = st.wram_write_protect;
        self.internal_addr = st.internal_addr;
        self.internal_auto_increment = st.internal_auto_increment;
        self.irq_counter = st.irq_counter;
        self.irq_enabled = st.irq_enabled;
        self.irq_pending = st.irq_pending;
        self.audio_delay = st.audio_delay;
        self.audio_channel_index = st.audio_channel_index;
        self.audio_outputs = st.audio_outputs;
        self.audio_sum = st.audio_sum;
        self.audio_active = st.audio_active;
    }
}

} // verus!

//! Nintendo MMC5 (mapper 5): its register file, and the two expansion pulse
//! channels (2A03 pulses without sweep).

use vstd::prelude::*;
use crate::apu::envelope::{envelope_clock, length_clock, with_high_bits, with_low_byte};
use crate::apu::tables::{duty_table, lemma_field_ranges, length_table, spec_duty_table, spec_length_table};
use crate::cartridge::state::{Mmc5AudioState, Mmc5PulseState, Mmc5State};
use crate::cartridge::savestate::copy_bytes;
use crate::bits::lemma_u8_masks;

verus! {

pub struct Mmc5Pulse {
    duty: u8,
    length_counter: u8,
    envelope_divider: u8,
    envelope_decay: u8,
    envelope_disable: bool,
    envelope_start: bool,
    volume: u8,
    timer: u16,
    timer_reload: u16,
    duty_counter: u8,
    length_enabled: bool,
}

impl View for Mmc5Pulse {
    type V = Mmc5PulseState;

    closed spec fn view(&self) -> Mmc5PulseState {
        Mmc5PulseState {
            duty: self.duty,
            length_counter: self.length_counter,
            envelope_divider: self.envelope_divider,
            envelope_decay: self.envelope_decay,
            envelope_disable: self.envelope_disable,
            envelope_start: self.envelope_start,
            volume: self.volume,
            timer: self.timer,
            timer_reload: self.timer_reload,
            duty_counter: self.duty_counter,
            length_enabled: self.length_enabled,
        }
    }
}

/// One timer clock: on expiry the timer reloads and the 8-step duty
/// sequencer advances.
pub open spec fn mmc5_pulse_timer_clocked(o: Mmc5PulseState) -> Mmc5PulseState {
    if o.timer == 0 {
        Mmc5PulseState { timer: o.timer_reload, duty_counter: ((o.duty_counter + 1) % 8) as u8, ..o }
    } else {
        Mmc5PulseState { timer: (o.timer - 1) as u16, ..o }
    }
}

/// Quarter-frame clock of the volume envelope.
pub open spec fn mmc5_pulse_envelope_clocked(o: Mmc5PulseState) -> Mmc5PulseState {
    let (start, divider, decay) = envelope_clock(o.envelope_start, o.envelope_divider, o.envelope_decay, o.volume, !o.length_enabled);
    Mmc5PulseState { envelope_start: start, envelope_divider: divider, envelope_decay: decay, ..o }
}

/// Half-frame clock of the length counter.
pub open spec fn mmc5_pulse_length_clocked(o: Mmc5PulseState) -> Mmc5PulseState {
    Mmc5PulseState { length_counter: length_clock(o.length_counter, o.length_enabled), ..o }
}

/// The level an MMC5 pulse drives into the mixer.
pub open spec fn mmc5_pulse_output(s: Mmc5PulseState) -> u8 {
    if s.length_counter == 0 || spec_duty_table(s.duty, s.duty_counter) == 0 {
        0
    } else if s.envelope_disable {
        s.volume
    } else {
        s.envelope_decay
    }
}

impl Mmc5Pulse {
    #[verifier::type_invariant]
    spec fn inv(&self) -> bool {
        self@.valid()
    }

    pub fn new() -> (p: Mmc5Pulse)
        ensures
            p@ == (Mmc5PulseState {
                duty: 0,
                length_counter: 0,
                envelope_divider: 0,
                envelope_decay: 0,
                envelope_disable: false,
                envelope_start: false,
                volume: 0,
                timer: 0,
                timer_reload: 0,
                duty_counter: 0,
                length_enabled: true,
            }),
    {
        Mmc5Pulse {
            duty: 0,
            length_counter: 0,
            envelope_divider: 0,
            envelope_decay: 0,
            envelope_disable: false,
            envelope_start: false,
            volume: 0,
            timer: 0,
            timer_reload: 0,
            duty_counter: 0,
            length_enabled: true,
        }
    }

    /// $5000/$5004: duty, length halt (envelope loop), constant volume,
    /// volume.
    pub fn write_control(&mut self, data: u8)
        ensures
            final(self)@ == (Mmc5PulseState {
                duty: (data >> 6) & 0x03,
                length_enabled: (data & 0x20) == 0,
                envelope_disable: (data & 0x10) != 0,
                volume: data & 0x0F,
                ..old(self)@
            }),
    {
        proof {
            use_type_invariant(&*self);
            lemma_field_ranges(data);
        }
        self.duty = (data >> 6) & 0x03;
        self.length_enabled = (data & 0x20) == 0;
        self.envelope_disable = (data & 0x10) != 0;
        self.volume = data & 0x0F;
    }

    /// $5002/$5006: low 8 bits of the period.
    pub fn write_timer_low(&mut self, data: u8)
        ensures
            final(self)@ == (Mmc5PulseState {
                timer_reload: with_low_byte(old(self)@.timer_reload, data),
                ..old(self)@
            }),
    {
        proof {
            use_type_invariant(&*self);
        }
        self.timer_reload = (self.timer_reload & 0xFF00) | data as u16;
    }

    /// $5003/$5007: high 3 bits of the period and, when enabled, a length
    /// load; restarts the sequencer and the envelope.
    pub fn write_timer_high(&mut self, data: u8, enabled: bool)
        ensures
            final(self)@ == (Mmc5PulseState {
                timer_reload: with_high_bits(old(self)@.timer_reload, data),
                timer: with_high_bits(old(self)@.timer_reload, data),
                length_counter: if enabled {
                    spec_length_table((data >> 3) & 0x1F)
                } else {
                    old(self)@.length_counter
                },
                duty_counter: 0,
                envelope_start: true,
                ..old(self)@
            }),
    {
        proof {
            use_type_invariant(&*self);
            lemma_field_ranges(data);
        }
        self.timer_reload = (self.timer_reload & 0x00FF) | (((data & 0x07) as u16) << 8);
        proof {
            let r = old(self).timer_reload;
            assert((r & 0x00FF) | (((data & 0x07) as u16) << 8u16) == (r & 0x00FF) | (((data as u16) & 0x07) << 8u16))
                by (bit_vector);
        }
        if enabled {
            self.length_counter = length_table((data >> 3) & 0x1F);
        }
        self.timer = self.timer_reload;
        self.duty_counter = 0;
        self.envelope_start = true;
    }

    /// One timer clock: on expiry the timer reloads and the 8-step duty
    /// sequencer advances.
    pub fn clock_timer(&mut self)
        ensures
            final(self)@ == mmc5_pulse_timer_clocked(old(self)@),
    {
        proof {
            use_type_invariant(&*self);
        }
        if self.timer == 0 {
            self.timer = self.timer_reload;
            let d = self.duty_counter;
            proof {
                assert(((d + 1) as u8) & 0x07 == (d + 1) % 8) by (bit_vector)
                    requires d < 8;
            }
            self.duty_counter = (self.duty_counter + 1) & 0x07;
        } else {
            self.timer -= 1;
        }
    }

    /// Quarter-frame clock of the volume envelope.
    pub fn clock_envelope(&mut self)
        ensures
            final(self)@ == mmc5_pulse_envelope_clocked(old(self)@),
    {
        proof {
            use_type_invariant(&*self);
        }
        if self.envelope_start {
            self.envelope_start = false;
            self.envelope_decay = 15;
            self.envelope_divider = self.volume;
        } else if self.envelope_divider == 0 {
            self.envelope_divider = self.volume;
            if self.envelope_decay > 0 {
                self.envelope_decay -= 1;
            } else if !self.length_enabled {
                self.envelope_decay = 15;
            }
        } else {
            self.envelope_divider -= 1;
        }
    }

    /// Half-frame clock of the length counter.
    pub fn clock_length_counter(&mut self)
        ensures
            final(self)@ == mmc5_pulse_length_clocked(old(self)@),
    {
        proof {
            use_type_invariant(&*self);
        }
        if self.length_enabled && self.length_counter > 0 {
            self.length_counter -= 1;
        }
    }

    /// The length counter (0 once the channel has gone silent).
    pub fn length_counter(&self) -> (r: u8)
        ensures
            r == self@.length_counter,
    {
        self.length_counter
    }

    /// Clears the length counter (the channel was disabled through $5015).
    pub fn silence(&mut self)
        ensures
            final(self)@ == (Mmc5PulseState { length_counter: 0, ..old(self)@ }),
    {
        proof {
            use_type_invariant(&*self);
        }
        self.length_counter = 0;
    }

    /// The channel's current output level, 0 to 15.
    pub fn output(&self) -> (r: u8)
        ensures
            r == mmc5_pulse_output(self@),
    {
        proof {
            use_type_invariant(self);
        }
        if self.length_counter == 0 || duty_table(self.duty, self.duty_counter) == 0 {
            return 0;
        }
        if self.envelope_disable {
            self.volume
        } else {
            self.envelope_decay
        }
    }

    pub fn snapshot_state(&self) -> (s: Mmc5PulseState)
        ensures
            s == self@,
            s.valid(),
    {
        proof {
            use_type_invariant(self);
        }
        Mmc5PulseState {
            duty: self.duty,
            length_counter: self.length_counter,
            envelope_divider: self.envelope_divider,
            envelope_decay: self.envelope_decay,
            envelope_disable: self.envelope_disable,
            envelope_start: self.envelope_start,
            volume: self.volume,
            timer: self.timer,
            timer_reload: self.timer_reload,
            duty_counter: self.duty_counter,
            length_enabled: self.length_enabled,
        }
    }

    pub fn restore_state(&mut self, state: &Mmc5PulseState)
        requires
            state.valid(),
        ensures
            final(self)@ == *state,
    {
        proof {
            use_type_invariant(&*self);
        }
        self.duty = state.duty;
        self.length_counter = state.length_counter;
        self.envelope_divider = state.envelope_divider;
        self.envelope_decay = state.envelope_decay;
        self.envelope_disable = state.envelope_disable;
        self.envelope_start = state.envelope_start;
        self.volume = state.volume;
        self.timer = state.timer;
        self.timer_reload = state.timer_reload;
        self.duty_counter = state.duty_counter;
        self.length_enabled = state.length_enabled;
    }
}

pub struct Mmc5 {
    pub prg_mode: u8,
    pub chr_mode: u8,
    pub exram_mode: u8,
    pub prg_ram_protect_1: u8,
    pub prg_ram_protect_2: u8,
    pub nametable_map: [u8; 4],
    pub fill_tile: u8,
    pub fill_attr: u8,
    pub prg_ram_bank: u8,
    pub prg_banks: [u8; 4],
    pub chr_upper: u8,
    pub sprite_chr_banks: [u8; 8],
    pub bg_chr_banks: [u8; 4],
    pub exram: Vec<u8>,
    pub irq_scanline_compare: u8,
    pub irq_enabled: bool,
    pub irq_pending: bool,
    pub in_frame: bool,
    pub scanline_counter: u8,
    pub multiplier_a: u8,
    pub multiplier_b: u8,
    pub split_control: u8,
    pub split_scroll: u8,
    pub split_bank: u8,
    pub ppu_ctrl: u8,
    pub ppu_mask: u8,
    pub cached_tile_x: u8,
    pub cached_tile_y: u8,
    pub cached_ext_palette: u8,
    pub cached_ext_bank: u8,
    pub ppu_data_uses_bg_banks: bool,
    pub pulse1: Mmc5Pulse,
    pub pulse2: Mmc5Pulse,
    pub pulse1_enabled: bool,
    pub pulse2_enabled: bool,
    pub pcm_irq_enabled: bool,
    pub pcm_read_mode: bool,
    pub pcm_irq_pending: bool,
    pub pcm_dac: u8,
    pub audio_frame_accum: u32,
    pub audio_even_cycle: bool,
}

/// `st` is the save-state record of `m`: every register agrees, and the
/// record's ExRAM holds the same bytes.
pub open spec fn mmc5_agrees(m: &Mmc5, st: &Mmc5State) -> bool {
    st.exram@ == m.exram@ && *st == Mmc5State {
        prg_mode: m.prg_mode,
        chr_mode: m.chr_mode,
        exram_mode: m.exram_mode,
        prg_ram_protect_1: m.prg_ram_protect_1,
        prg_ram_protect_2: m.prg_ram_protect_2,
        nametable_map: m.nametable_map,
        fill_tile: m.fill_tile,
        fill_attr: m.fill_attr,
        prg_ram_bank: m.prg_ram_bank,
        prg_banks: m.prg_banks,
        chr_upper: m.chr_upper,
        sprite_chr_banks: m.sprite_chr_banks,
        bg_chr_banks: m.bg_chr_banks,
        exram: st.exram,
        irq_scanline_compare: m.irq_scanline_compare,
        irq_enabled: m.irq_enabled,
        irq_pending: m.irq_pending,
        in_frame: m.in_frame,
        scanline_counter: m.scanline_counter,
        multiplier_a: m.multiplier_a,
        multiplier_b: m.multiplier_b,
        split_control: m.split_control,
        split_scroll: m.split_scroll,
        split_bank: m.split_bank,
        ppu_ctrl: m.ppu_ctrl,
        ppu_mask: m.ppu_mask,
        cached_tile_x: m.cached_tile_x,
        cached_tile_y: m.cached_tile_y,
        cached_ext_palette: m.cached_ext_palette,
        cached_ext_bank: m.cached_ext_bank,
        ppu_data_uses_bg_banks: m.ppu_data_uses_bg_banks,
        audio: Mmc5AudioState {
            pulse1: m.pulse1@,
            pulse2: m.pulse2@,
            pulse1_enabled: m.pulse1_enabled,
            pulse2_enabled: m.pulse2_enabled,
            pcm_irq_enabled: m.pcm_irq_enabled,
            pcm_read_mode: m.pcm_read_mode,
            pcm_irq_pending: m.pcm_irq_pending,
            pcm_dac: m.pcm_dac,
            audio_frame_accum: m.audio_frame_accum,
            audio_even_cycle: m.audio_even_cycle,
        },
    }
}

/// The power-on state of the chip.
pub open spec fn mmc5_power_on(m: Mmc5) -> bool {
    &&& m.prg_mode == 3
    &&& m.chr_mode == 3
    &&& m.exram_mode == 0
    &&& m.prg_ram_protect_1 == 0
    &&& m.prg_ram_protect_2 == 0
    &&& m.nametable_map@ =~= seq![0u8, 1, 0, 1]
    &&& m.fill_tile == 0
    &&& m.fill_attr == 0
    &&& m.prg_ram_bank == 0
    &&& m.prg_banks@ =~= seq![0x00u8, 0x80, 0x80, 0x7F]
    &&& m.chr_upper == 0
    &&& m.sprite_chr_banks@ =~= seq![0u8, 0, 0, 0, 0, 0, 0, 0]
    &&& m.bg_chr_banks@ =~= seq![0u8, 0, 0, 0]
    &&& m.exram@ =~= Seq::new(1024, |i: int| 0u8)
    &&& m.irq_scanline_compare == 0
    &&& !m.irq_enabled
    &&& !m.irq_pending
    &&& !m.in_frame
    &&& m.scanline_counter == 0
    &&& m.multiplier_a == 0xFF
    &&& m.multiplier_b == 0xFF
    &&& m.split_control == 0
    &&& m.split_scroll == 0
    &&& m.split_bank == 0
    &&& m.ppu_ctrl == 0
    &&& m.ppu_mask == 0
    &&& m.cached_tile_x == 0
    &&& m.cached_tile_y == 0
    &&& m.cached_ext_palette == 0
    &&& m.cached_ext_bank == 0
    &&& !m.ppu_data_uses_bg_banks
    &&& m.pulse1@ == Mmc5Pulse::new_state()
    &&& m.pulse2@ == Mmc5Pulse::new_state()
    &&& !m.pulse1_enabled
    &&& !m.pulse2_enabled
    &&& !m.pcm_irq_enabled
    &&& m.pcm_read_mode
    &&& !m.pcm_irq_pending
    &&& m.pcm_dac == 0
    &&& m.audio_frame_accum == 0
    &&& !m.audio_even_cycle
}

impl Mmc5 {
    /// Power-on state: PRG mode 3 with the last bank at $E000 (ROM), CHR
    /// mode 3, nametables in vertical arrangement, a cleared 1 KiB ExRAM,
    /// both multiplier operands $FF, PCM in read mode.
    pub fn new() -> (m: Mmc5)
        ensures
            mmc5_power_on(m),
    {
        let mut exram: Vec<u8> = Vec::new();
        let mut i: usize = 0;
        while i < 1024
            invariant
                i <= 1024,
                exram@ == Seq::new(i as nat, |j: int| 0u8),
            decreases 1024 - i,
        {
            exram.push(0);
            i += 1;
            proof {
                assert(exram@ =~= Seq::new(i as nat, |j: int| 0u8));
            }
        }
        Mmc5 {
            prg_mode: 3,
            chr_mode: 3,
            exram_mode: 0,
            prg_ram_protect_1: 0,
            prg_ram_protect_2: 0,
            nametable_map: [0, 1, 0, 1],
            fill_tile: 0,
            fill_attr: 0,
            prg_ram_bank: 0,
            prg_banks: [0x00, 0x80, 0x80, 0x7F],
            chr_upper: 0,
            sprite_chr_banks: [0; 8],
            bg_chr_banks: [0; 4],
            exram,
            irq_scanline_compare: 0,
            irq_enabled: false,
            irq_pending: false,
            in_frame: false,
            scanline_counter: 0,
            multiplier_a: 0xFF,
            multiplier_b: 0xFF,
            split_control: 0,
            split_scroll: 0,
            split_bank: 0,
            ppu_ctrl: 0,
            ppu_mask: 0,
            cached_tile_x: 0,
            cached_tile_y: 0,
            cached_ext_palette: 0,
            cached_ext_bank: 0,
            ppu_data_uses_bg_banks: false,
            pulse1: Mmc5Pulse::new(),
            pulse2: Mmc5Pulse::new(),
            pulse1_enabled: false,
            pulse2_enabled: false,
            pcm_irq_enabled: false,
            pcm_read_mode: true,
            pcm_irq_pending: false,
            pcm_dac: 0,
            audio_frame_accum: 0,
            audio_even_cycle: false,
        }
    }

    /// The save-state record of the chip, ExRAM and sound included.
    pub fn snapshot_state(&self) -> (st: Mmc5State)
        ensures
            mmc5_agrees(self, &st),
    {
        let mut exram: Vec<u8> = Vec::new();
        let mut i: usize = 0;
        while i < self.exram.len()
            invariant
                i <= self.exram@.len(),
                exram@ == self.exram@.take(i as int),
            decreases self.exram@.len() - i,
        {
            exram.push(self.exram[i]);
            proof {
                assert(self.exram@.take(i + 1) =~= self.exram@.take(i as int).push(self.exram@[i as int]));
            }
            i += 1;
        }
        proof {
            assert(self.exram@.take(self.exram@.len() as int) =~= self.exram@);
        }
        Mmc5State {
            prg_mode: self.prg_mode,
            chr_mode: self.chr_mode,
            exram_mode: self.exram_mode,
            prg_ram_protect_1: self.prg_ram_protect_1,
            prg_ram_protect_2: self.prg_ram_protect_2,
            nametable_map: self.nametable_map,
            fill_tile: self.fill_tile,
            fill_attr: self.fill_attr,
            prg_ram_bank: self.prg_ram_bank,
            prg_banks: self.prg_banks,
            chr_upper: self.chr_upper,
            sprite_chr_banks: self.sprite_chr_banks,
            bg_chr_banks: self.bg_chr_banks,
            exram,
            irq_scanline_compare: self.irq_scanline_compare,
            irq_enabled: self.irq_enabled,
            irq_pending: self.irq_pending,
            in_frame: self.in_frame,
            scanline_counter: self.scanline_counter,
            multiplier_a: self.multiplier_a,
            multiplier_b: self.multiplier_b,
            split_control: self.split_control,
            split_scroll: self.split_scroll,
            split_bank: self.split_bank,
            ppu_ctrl: self.ppu_ctrl,
            ppu_mask: self.ppu_mask,
            cached_tile_x: self.cached_tile_x,
            cached_tile_y: self.cached_tile_y,
            cached_ext_palette: self.cached_ext_palette,
            cached_ext_bank: self.cached_ext_bank,
            ppu_data_uses_bg_banks: self.ppu_data_uses_bg_banks,
            audio: Mmc5AudioState {
                pulse1: self.pulse1.snapshot_state(),
                pulse2: self.pulse2.snapshot_state(),
                pulse1_enabled: self.pulse1_enabled,
                pulse2_enabled: self.pulse2_enabled,
                pcm_irq_enabled: self.pcm_irq_enabled,
                pcm_read_mode: self.pcm_read_mode,
                pcm_irq_pending: self.pcm_irq_pending,
                pcm_dac: self.pcm_dac,
                audio_frame_accum: self.audio_frame_accum,
                audio_even_cycle: self.audio_even_cycle,
            },
        }
    }

    /// Loads the chip from a save-state record (whose pulse records must be
    /// in range).
    pub fn restore_state(&mut self, st: &Mmc5State)
        requires
            st.audio.pulse1.valid(),
            st.audio.pulse2.valid(),
        ensures
            mmc5_agrees(final(self), st),
    {
        self.prg_mode = st.prg_mode;
        self.chr_mode = st.chr_mode;
        self.exram_mode = st.exram_mode;
        self.prg_ram_protect_1 = st.prg_ram_protect_1;
        self.prg_ram_protect_2 = st.prg_ram_protect_2;
        self.nametable_map = st.nametable_map;
        self.fill_tile = st.fill_tile;
        self.fill_attr = st.fill_attr;
        self.prg_ram_bank = st.prg_ram_bank;
        self.prg_banks = st.prg_banks;
        self.chr_upper = st.chr_upper;
        self.sprite_chr_banks = st.sprite_chr_banks;
        self.bg_chr_banks = st.bg_chr_banks;
        self.exram = copy_bytes(&st.exram);
        self.irq_scanline_compare = st.irq_scanline_compare;
        self.irq_enabled = st.irq_enabled;
        self.irq_pending = st.irq_pending;
        self.in_frame = st.in_frame;
        self.scanline_counter = st.scanline_counter;
        self.multiplier_a = st.multiplier_a;
        self.multiplier_b = st.multiplier_b;
        self.split_control = st.split_control;
        self.split_scroll = st.split_scroll;
        self.split_bank = st.split_bank;
        self.ppu_ctrl = st.ppu_ctrl;
        self.ppu_mask = st.ppu_mask;
        self.cached_tile_x = st.cached_tile_x;
        self.cached_tile_y = st.cached_tile_y;
        self.cached_ext_palette = st.cached_ext_palette;
        self.cached_ext_bank = st.cached_ext_bank;
        self.ppu_data_uses_bg_banks = st.ppu_data_uses_bg_banks;
        let mut p1 = Mmc5Pulse::new();
        p1.restore_state(&st.audio.pulse1);
        let mut p2 = Mmc5Pulse::new();
        p2.restore_state(&st.audio.pulse2);
        self.pulse1 = p1;
        self.pulse2 = p2;
        self.pulse1_enabled = st.audio.pulse1_enabled;
        self.pulse2_enabled = st.audio.pulse2_enabled;
        self.pcm_irq_enabled = st.audio.pcm_irq_enabled;
        self.pcm_read_mode = st.audio.pcm_read_mode;
        self.pcm_irq_pending = st.audio.pcm_irq_pending;
        self.pcm_dac = st.audio.pcm_dac;
        self.audio_frame_accum = st.audio.audio_frame_accum;
        self.audio_even_cycle = st.audio.audio_even_cycle;
    }

    /// Extended-attribute and split substitutions only apply while the PPU
    /// renders background or sprites.
    pub fn substitutions_enabled(&self) -> (r: bool)
        ensures
            r == (self.ppu_mask & 0x18 != 0),
    {
        self.ppu_mask & 0x18 != 0
    }

    /// PRG-RAM writes are allowed only with $5102 = 2 and $5103 = 1.
    pub fn prg_ram_write_enabled(&self) -> (r: bool)
        ensures
            r == (self.prg_ram_protect_1 == 0x02 && self.prg_ram_protect_2 == 0x01),
    {
        self.prg_ram_protect_1 == 0x02 && self.prg_ram_protect_2 == 0x01
    }

    /// The vertical split is active while rendering, with ExRAM in mode 0 or
    /// 1 and the split enable bit of $5200 set.
    pub fn split_enabled(&self) -> (r: bool)
        ensures
            r == ((self.ppu_mask & 0x18 != 0) && self.exram_mode <= 0x01 && self.split_control & 0x80 != 0),
    {
        self.substitutions_enabled() && self.exram_mode <= 0x01 && self.split_control & 0x80 != 0
    }

    /// Whether the split region is on the right of the threshold.
    pub fn split_on_right(&self) -> (r: bool)
        ensures
            r == (self.split_control & 0x40 != 0),
    {
        self.split_control & 0x40 != 0
    }

    /// The split threshold, in tiles (low 5 bits of $5200).
    pub fn split_threshold_tiles(&self) -> (r: usize)
        ensures
            r == self.split_control % 32,
    {
        let t = self.split_control & 0x1F;
        proof {
            let c = self.split_control;
            lemma_u8_masks(c);
        }
        t as usize
    }

    /// The cartridge IRQ line: the scanline IRQ, or the PCM IRQ when it is
    /// enabled.
    pub fn combined_irq_pending(&self) -> (r: bool)
        ensures
            r == (self.irq_pending || (self.pcm_irq_enabled && self.pcm_irq_pending)),
    {
        self.irq_pending || (self.pcm_irq_enabled && self.pcm_irq_pending)
    }
}

impl Mmc5Pulse {
    /// The state of a freshly created pulse.
    pub open spec fn new_state() -> Mmc5PulseState {
        Mmc5PulseState {
            duty: 0,
            length_counter: 0,
            envelope_divider: 0,
            envelope_decay: 0,
            envelope_disable: false,
            envelope_start: false,
            volume: 0,
            timer: 0,
            timer_reload: 0,
            duty_counter: 0,
            length_enabled: true,
        }
    }
}

} // verus!

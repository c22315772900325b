//! CPU writes into the MMC5 address space: the register file at
//! $5000-$5206, ExRAM at $5C00-$5FFF, and PRG-RAM through the $6000 window
//! or through the banked $8000-$DFFF windows.

use vstd::prelude::*;
use crate::apu::envelope::{with_high_bits, with_low_byte};
use crate::apu::tables::spec_length_table;
use crate::cartridge::mapper::mmc5::Mmc5;
use crate::cartridge::state::Mmc5PulseState;
use crate::bits::{lemma_u8_masks, lemma_usize_masks};

verus! {

/// The number of 8 KiB PRG-RAM banks, at least one.
pub open spec fn mmc5_ram_banks(ram_len: nat) -> nat {
    if ram_len / 0x2000 > 1 {
        ram_len / 0x2000
    } else {
        1
    }
}

/// The PRG-RAM position a banked write reaches through a window of
/// `size_8k` 8 KiB pages holding `raw_bank`: none when the bank selects ROM
/// (bit 7), when writes are locked, or without PRG-RAM.
pub open spec fn mmc5_banked_ram_index(
    raw_bank: u8,
    size_8k: nat,
    offset: nat,
    write_enabled: bool,
    ram_len: nat,
) -> Option<int> {
    if raw_bank & 0x80 != 0 || !write_enabled || ram_len == 0 {
        None
    } else {
        Some((((raw_bank as nat) % mmc5_ram_banks(ram_len)) * 0x2000 + offset % (size_8k * 0x2000)) as int)
    }
}

/// The PRG-RAM position a CPU write at `addr` reaches, if any: the $6000
/// window uses the bank of $5113; $8000-$DFFF go through the PRG banks of the
/// current PRG mode (mode 0 maps ROM only, and $E000-$FFFF is always ROM).
pub open spec fn mmc5_ram_write_index(m: &Mmc5, addr: u16, ram_len: nat) -> Option<int> {
    let we = m.prg_ram_protect_1 == 0x02 && m.prg_ram_protect_2 == 0x01;
    let banks = m.prg_banks@;
    let mode = m.prg_mode % 4;
    if 0x6000 <= addr <= 0x7FFF {
        if !we || ram_len == 0 {
            None
        } else {
            Some((((m.prg_ram_bank as nat) % mmc5_ram_banks(ram_len)) * 0x2000 + (addr as nat) % 0x2000) as int)
        }
    } else if addr < 0x8000 {
        None
    } else if mode == 0 {
        None
    } else if mode == 1 || mode == 2 {
        if addr < 0xC000 {
            mmc5_banked_ram_index(banks[1], 2, (addr - 0x8000) as nat, we, ram_len)
        } else if mode == 2 && addr < 0xE000 {
            mmc5_banked_ram_index(banks[2], 1, (addr - 0xC000) as nat, we, ram_len)
        } else {
            None
        }
    } else if addr < 0xA000 {
        mmc5_banked_ram_index(banks[0], 1, (addr - 0x8000) as nat, we, ram_len)
    } else if addr < 0xC000 {
        mmc5_banked_ram_index(banks[1], 1, (addr - 0xA000) as nat, we, ram_len)
    } else if addr < 0xE000 {
        mmc5_banked_ram_index(banks[2], 1, (addr - 0xC000) as nat, we, ram_len)
    } else {
        None
    }
}

/// The pulse state after a write at `base + reg` (`base` $5000 or $5004),
/// and after $5015 when the channel is disabled.
pub open spec fn mmc5_pulse_written(p: Mmc5PulseState, reg: int, data: u8, enabled: bool) -> Mmc5PulseState {
    if reg == 0 {
        Mmc5PulseState {
            duty: (data >> 6) & 0x03,
            length_enabled: (data & 0x20) == 0,
            envelope_disable: (data & 0x10) != 0,
            volume: data & 0x0F,
            ..p
        }
    } else if reg == 2 {
        Mmc5PulseState { timer_reload: with_low_byte(p.timer_reload, data), ..p }
    } else if reg == 3 {
        Mmc5PulseState {
            timer_reload: with_high_bits(p.timer_reload, data),
            timer: with_high_bits(p.timer_reload, data),
            length_counter: if enabled { spec_length_table((data >> 3) & 0x1F) } else { p.length_counter },
            duty_counter: 0,
            envelope_start: true,
            ..p
        }
    } else {
        p
    }
}

/// `n` is the chip `o` after the CPU wrote `data` at `addr`: each register
/// takes its new value at its own address and keeps it elsewhere.
pub open spec fn mmc5_written(o: &Mmc5, n: &Mmc5, addr: u16, data: u8) -> bool {
    let a = addr as int;
    &&& n.pulse1@ == if 0x5000 <= a <= 0x5003 {
        mmc5_pulse_written(o.pulse1@, a - 0x5000, data, o.pulse1_enabled)
    } else if a == 0x5015 && data & 0x01 == 0 {
        Mmc5PulseState { length_counter: 0, ..o.pulse1@ }
    } else {
        o.pulse1@
    }
    &&& n.pulse2@ == if 0x5004 <= a <= 0x5007 {
        mmc5_pulse_written(o.pulse2@, a - 0x5004, data, o.pulse2_enabled)
    } else if a == 0x5015 && data & 0x02 == 0 {
        Mmc5PulseState { length_counter: 0, ..o.pulse2@ }
    } else {
        o.pulse2@
    }
    &&& n.pcm_irq_enabled == if a == 0x5010 { data & 0x80 != 0 } else { o.pcm_irq_enabled }
    &&& n.pcm_read_mode == if a == 0x5010 { data & 0x01 != 0 } else { o.pcm_read_mode }
    &&& n.pcm_irq_pending == if a == 0x5011 && !o.pcm_read_mode { data == 0 } else { o.pcm_irq_pending }
    &&& n.pcm_dac == if a == 0x5011 && !o.pcm_read_mode && data != 0 { data } else { o.pcm_dac }
    &&& n.pulse1_enabled == if a == 0x5015 { data & 0x01 != 0 } else { o.pulse1_enabled }
    &&& n.pulse2_enabled == if a == 0x5015 { data & 0x02 != 0 } else { o.pulse2_enabled }
    &&& n.prg_mode == if a == 0x5100 { data & 0x03 } else { o.prg_mode }
    &&& n.chr_mode == if a == 0x5101 { data & 0x03 } else { o.chr_mode }
    &&& n.prg_ram_protect_1 == if a == 0x5102 { data & 0x03 } else { o.prg_ram_protect_1 }
    &&& n.prg_ram_protect_2 == if a == 0x5103 { data & 0x03 } else { o.prg_ram_protect_2 }
    &&& n.exram_mode == if a == 0x5104 { data & 0x03 } else { o.exram_mode }
    &&& n.nametable_map@ == if a == 0x5105 {
        seq![data & 0x03, (data >> 2) & 0x03, (data >> 4) & 0x03, (data >> 6) & 0x03]
    } else {
        o.nametable_map@
    }
    &&& n.fill_tile == if a == 0x5106 { data } else { o.fill_tile }
    &&& n.fill_attr == if a == 0x5107 { data & 0x03 } else { o.fill_attr }
    &&& n.prg_ram_bank == if a == 0x5113 { data & 0x0F } else { o.prg_ram_bank }
    &&& n.prg_banks@ == if 0x5114 <= a <= 0x5117 { o.prg_banks@.update(a - 0x5114, data) } else { o.prg_banks@ }
    &&& n.sprite_chr_banks@ == if 0x5120 <= a <= 0x5127 {
        o.sprite_chr_banks@.update(a - 0x5120, data)
    } else {
        o.sprite_chr_banks@
    }
    &&& n.bg_chr_banks@ == if 0x5128 <= a <= 0x512B { o.bg_chr_banks@.update(a - 0x5128, data) } else { o.bg_chr_banks@ }
    &&& n.ppu_data_uses_bg_banks == if 0x5120 <= a <= 0x5127 {
        false
    } else if 0x5128 <= a <= 0x512B {
        true
    } else {
        o.ppu_data_uses_bg_banks
    }
    &&& n.chr_upper == if a == 0x5130 { data & 0x03 } else { o.chr_upper }
    &&& n.split_control == if a == 0x5200 { data } else { o.split_control }
    &&& n.split_scroll == if a == 0x5201 { data } else { o.split_scroll }
    &&& n.split_bank == if a == 0x5202 { data } else { o.split_bank }
    &&& n.irq_scanline_compare == if a == 0x5203 { data } else { o.irq_scanline_compare }
    &&& n.irq_enabled == if a == 0x5204 { data & 0x80 != 0 } else { o.irq_enabled }
    &&& n.irq_pending == if a == 0x5204 && data & 0x80 == 0 { false } else { o.irq_pending }
    &&& n.multiplier_a == if a == 0x5205 { data } else { o.multiplier_a }
    &&& n.multiplier_b == if a == 0x5206 { data } else { o.multiplier_b }
    &&& n.exram@ == if 0x5C00 <= a <= 0x5FFF && o.exram_mode != 0x03 && a - 0x5C00 < o.exram@.len() {
        o.exram@.update(a - 0x5C00, data)
    } else {
        o.exram@
    }
    &&& n.in_frame == o.in_frame
    &&& n.scanline_counter == o.scanline_counter
    &&& n.ppu_ctrl == o.ppu_ctrl
    &&& n.ppu_mask == o.ppu_mask
    &&& n.cached_tile_x == o.cached_tile_x
    &&& n.cached_tile_y == o.cached_tile_y
    &&& n.cached_ext_palette == o.cached_ext_palette
    &&& n.cached_ext_bank == o.cached_ext_bank
    &&& n.audio_frame_accum == o.audio_frame_accum
    &&& n.audio_even_cycle == o.audio_even_cycle
}

impl Mmc5 {
    /// Stores `data` into PRG-RAM through a banked window, as far as the bank
    /// selects RAM, writes are unlocked and the position exists.
    fn write_banked_ram(&self, raw_bank: u8, size_8k: usize, offset: usize, data: u8, prg_ram: &mut Vec<u8>)
        requires
            size_8k == 1 || size_8k == 2,
            offset < 0x4000,
        ensures
            final(prg_ram)@ == match mmc5_banked_ram_index(
                raw_bank,
                size_8k as nat,
                offset as nat,
                self.prg_ram_protect_1 == 0x02 && self.prg_ram_protect_2 == 0x01,
                old(prg_ram)@.len(),
            ) {
                Some(i) => if i < old(prg_ram)@.len() { old(prg_ram)@.update(i, data) } else { old(prg_ram)@ },
                None => old(prg_ram)@,
            },
    {
        if raw_bank & 0x80 != 0 || !self.prg_ram_write_enabled() || prg_ram.len() == 0 {
            return;
        }
        let banks = if prg_ram.len() / 0x2000 > 1 { prg_ram.len() / 0x2000 } else { 1 };
        let offset_in_bank = offset % (size_8k * 0x2000);
        let bank = (raw_bank as usize) % banks;
        proof {
            assert(bank < banks);
            assert(bank * 0x2000 <= banks * 0x2000) by (nonlinear_arith)
                requires
                    bank < banks,
            ;
            assert(banks * 0x2000 <= prg_ram.len() + 0x2000) by (nonlinear_arith)
                requires
                    banks == (if prg_ram.len() / 0x2000 > 1 { prg_ram.len() / 0x2000 } else { 1 }),
            ;
        }
        let ram_addr = bank * 0x2000 + offset_in_bank;
        if ram_addr < prg_ram.len() {
            prg_ram.set(ram_addr, data);
        }
    }

    /// The sound registers $5000-$5015.
    #[verifier::rlimit(80)]
    fn write_sound_register(&mut self, addr: u16, data: u8)
        requires
            0x5000 <= addr <= 0x5015,
        ensures
            mmc5_written(old(self), final(self), addr, data),
    {
        if addr == 0x5000 {
            self.pulse1.write_control(data);
        } else if addr == 0x5002 {
            self.pulse1.write_timer_low(data);
        } else if addr == 0x5003 {
            let en = self.pulse1_enabled;
            self.pulse1.write_timer_high(data, en);
        } else if addr == 0x5004 {
            self.pulse2.write_control(data);
        } else if addr == 0x5006 {
            self.pulse2.write_timer_low(data);
        } else if addr == 0x5007 {
            let en = self.pulse2_enabled;
            self.pulse2.write_timer_high(data, en);
        } else if addr == 0x5010 {
            self.pcm_irq_enabled = data & 0x80 != 0;
            self.pcm_read_mode = data & 0x01 != 0;
        } else if addr == 0x5011 {
            if !self.pcm_read_mode {
                if data == 0 {
                    self.pcm_irq_pending = true;
                } else {
                    self.pcm_irq_pending = false;
                    self.pcm_dac = data;
                }
            }
        } else if addr == 0x5015 {
            self.pulse1_enabled = data & 0x01 != 0;
            self.pulse2_enabled = data & 0x02 != 0;
            if !self.pulse1_enabled {
                self.pulse1.silence();
            }
            if !self.pulse2_enabled {
                self.pulse2.silence();
            }
        }
    }

    /// The mode, nametable, fill and bank registers $5100-$5130.
    #[verifier::rlimit(80)]
    fn write_mode_register(&mut self, addr: u16, data: u8)
        requires
            0x5100 <= addr <= 0x5130,
        ensures
            mmc5_written(old(self), final(self), addr, data),
    {
        if addr == 0x5100 {
            self.prg_mode = data & 0x03;
        } else if addr == 0x5101 {
            self.chr_mode = data & 0x03;
        } else if addr == 0x5102 {
            self.prg_ram_protect_1 = data & 0x03;
        } else if addr == 0x5103 {
            self.prg_ram_protect_2 = data & 0x03;
        } else if addr == 0x5104 {
            self.exram_mode = data & 0x03;
        } else if addr == 0x5105 {
            self.nametable_map[0] = data & 0x03;
            self.nametable_map[1] = (data >> 2) & 0x03;
            self.nametable_map[2] = (data >> 4) & 0x03;
            self.nametable_map[3] = (data >> 6) & 0x03;
            assert(self.nametable_map@ =~= seq![data & 0x03, (data >> 2) & 0x03, (data >> 4) & 0x03, (data >> 6) & 0x03]);
        } else if addr == 0x5106 {
            self.fill_tile = data;
        } else if addr == 0x5107 {
            self.fill_attr = data & 0x03;
        } else if addr == 0x5113 {
            self.prg_ram_bank = data & 0x0F;
        } else if 0x5114 <= addr && addr <= 0x5117 {
            self.prg_banks[(addr - 0x5114) as usize] = data;
        } else if 0x5120 <= addr && addr <= 0x5127 {
            self.sprite_chr_banks[(addr - 0x5120) as usize] = data;
            self.ppu_data_uses_bg_banks = false;
        } else if 0x5128 <= addr && addr <= 0x512B {
            self.bg_chr_banks[(addr - 0x5128) as usize] = data;
            self.ppu_data_uses_bg_banks = true;
        } else if addr == 0x5130 {
            self.chr_upper = data & 0x03;
        }
    }

    /// The split, IRQ and multiplier registers $5200-$5206.
    fn write_split_irq_register(&mut self, addr: u16, data: u8)
        requires
            0x5200 <= addr <= 0x5206,
        ensures
            mmc5_written(old(self), final(self), addr, data),
    {
        if addr == 0x5200 {
            self.split_control = data;
        } else if addr == 0x5201 {
            self.split_scroll = data;
        } else if addr == 0x5202 {
            self.split_bank = data;
        } else if addr == 0x5203 {
            self.irq_scanline_compare = data;
        } else if addr == 0x5204 {
            self.irq_enabled = data & 0x80 != 0;
            if !self.irq_enabled {
                self.irq_pending = false;
            }
        } else if addr == 0x5205 {
            self.multiplier_a = data;
        } else {
            self.multiplier_b = data;
        }
    }

    /// PRG-RAM writes at $6000-$FFFF.
    fn write_prg_ram(&self, addr: u16, data: u8, prg_ram: &mut Vec<u8>)
        requires
            addr >= 0x6000,
        ensures
            final(prg_ram)@ == match mmc5_ram_write_index(self, addr, old(prg_ram)@.len()) {
                Some(i) => if i < old(prg_ram)@.len() { old(prg_ram)@.update(i, data) } else { old(prg_ram)@ },
                None => old(prg_ram)@,
            },
    {
        if addr <= 0x7FFF {
            if self.prg_ram_write_enabled() && prg_ram.len() > 0 {
                let banks = if prg_ram.len() / 0x2000 > 1 { prg_ram.len() / 0x2000 } else { 1 };
                let bank = (self.prg_ram_bank as usize) % banks;
                proof {
                    assert(bank * 0x2000 <= banks * 0x2000) by (nonlinear_arith)
                        requires
                            bank < banks,
                    ;
                    assert(banks * 0x2000 <= prg_ram.len() + 0x2000) by (nonlinear_arith)
                        requires
                            banks == (if prg_ram.len() / 0x2000 > 1 { prg_ram.len() / 0x2000 } else { 1 }),
                    ;
                    lemma_usize_masks(addr as usize, 0);
                }
                let ram_addr = bank * 0x2000 + ((addr as usize) & 0x1FFF);
                if ram_addr < prg_ram.len() {
                    prg_ram.set(ram_addr, data);
                }
            }
        } else if addr >= 0x8000 {
            let mode = self.prg_mode & 0x03;
            proof {
                let m = self.prg_mode;
                lemma_u8_masks(m);
            }
            let b0 = self.prg_banks[0];
            let b1 = self.prg_banks[1];
            let b2 = self.prg_banks[2];
            if mode == 1 || mode == 2 {
                if addr < 0xC000 {
                    self.write_banked_ram(b1, 2, (addr - 0x8000) as usize, data, prg_ram);
                } else if mode == 2 && addr < 0xE000 {
                    self.write_banked_ram(b2, 1, (addr - 0xC000) as usize, data, prg_ram);
                }
            } else if mode == 3 {
                if addr < 0xA000 {
                    self.write_banked_ram(b0, 1, (addr - 0x8000) as usize, data, prg_ram);
                } else if addr < 0xC000 {
                    self.write_banked_ram(b1, 1, (addr - 0xA000) as usize, data, prg_ram);
                } else if addr < 0xE000 {
                    self.write_banked_ram(b2, 1, (addr - 0xC000) as usize, data, prg_ram);
                }
            }
        }
    }

    /// A CPU write at `addr` ($5000-$FFFF): registers, ExRAM, and PRG-RAM
    /// through the $6000 window or the banked windows; ROM is never written.
    pub fn write_register(&mut self, addr: u16, data: u8, prg_ram: &mut Vec<u8>)
        ensures
            mmc5_written(old(self), final(self), addr, data),
            final(prg_ram)@ == match mmc5_ram_write_index(old(self), addr, old(prg_ram)@.len()) {
                Some(i) => if i < old(prg_ram)@.len() { old(prg_ram)@.update(i, data) } else { old(prg_ram)@ },
                None => old(prg_ram)@,
            },
    {
        if 0x5000 <= addr && addr <= 0x5015 {
            self.write_sound_register(addr, data);
        } else if 0x5100 <= addr && addr <= 0x5130 {
            self.write_mode_register(addr, data);
        } else if 0x5200 <= addr && addr <= 0x5206 {
            self.write_split_irq_register(addr, data);
        } else if 0x5C00 <= addr && addr <= 0x5FFF {
            if self.exram_mode != 0x03 {
                let exram_addr = (addr - 0x5C00) as usize;
                if exram_addr < self.exram.len() {
                    self.exram.set(exram_addr, data);
                }
            }
        } else if addr >= 0x6000 {
            self.write_prg_ram(addr, data, prg_ram);
        }
    }
}

} // verus!

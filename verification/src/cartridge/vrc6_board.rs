//! Konami VRC6 boards (mappers 24 and 26, which swap the A0/A1 lines): the
//! register map, PRG and CHR banking, and the PRG-RAM enable.

use vstd::prelude::*;
use crate::cartridge::Mirroring;
use crate::cartridge::load::Cartridge;
use crate::cartridge::mapper::vrc6::{Vrc6, Vrc6Pulse, Vrc6Saw, vrc6_pulse_clocked, vrc6_saw_clocked, pulse_level, saw_level};
use crate::cartridge::mapper::vrc_irq::vrc_irq_cycles;
use crate::bits::{lemma_u16_masks, lemma_u8_masks, lemma_usize_masks};

verus! {

/// The register line pair (0-3) of a write on this board: mapper 26 wires
/// A0 and A1 crossed.
pub open spec fn vrc6_line(mapper: u8, addr: u16) -> u16 {
    let low = addr % 4;
    if mapper == 26 { ((low % 2) * 2 + low / 2) as u16 } else { low }
}

/// The nametable arrangement of the banking-control register (bits 2-3).
pub open spec fn vrc6_mirroring(control: u8) -> Mirroring {
    let m = (control / 4) % 4;
    if m == 0 {
        Mirroring::Vertical
    } else if m == 1 {
        Mirroring::Horizontal
    } else if m == 2 {
        Mirroring::OneScreenLower
    } else {
        Mirroring::OneScreenUpper
    }
}

/// The frequency-scaling shift of $9003: 8 with bit 2, else 4 with bit 1,
/// else 0.
pub open spec fn vrc6_freq_shift(data: u8) -> u8 {
    if data & 0x04 != 0 {
        8
    } else if data & 0x02 != 0 {
        4
    } else {
        0
    }
}

/// `n` is the chip `o` after a CPU write of `data` at `addr`: register
/// `line` of block `addr / $1000`.
pub open spec fn vrc6_chip_written(o: Vrc6, n: Vrc6, mapper: u8, addr: u16, data: u8) -> bool {
    let block = addr / 0x1000;
    let line = vrc6_line(mapper, addr);
    let p1 = o.pulse1;
    let p2 = o.pulse2;
    let saw = o.saw;
    &&& n.prg_bank_16k == if block == 8 { data & 0x0F } else { o.prg_bank_16k }
    &&& n.prg_bank_8k == if block == 12 { data & 0x1F } else { o.prg_bank_8k }
    &&& n.pulse1 == if block == 9 && line == 0 {
        Vrc6Pulse { volume: data & 0x0F, duty: (data >> 4u8) & 0x07, ignore_duty: data & 0x80 != 0, ..p1 }
    } else if block == 9 && line == 1 {
        Vrc6Pulse { period: (p1.period & 0x0F00) | (data as u16), ..p1 }
    } else if block == 9 && line == 2 {
        Vrc6Pulse {
            period: (p1.period & 0x00FF) | ((((data & 0x0F) as u16) << 8u16) as u16),
            enabled: data & 0x80 != 0,
            step: if data & 0x80 != 0 { p1.step } else { 15 },
            ..p1
        }
    } else {
        p1
    }
    &&& n.pulse2 == if block == 10 && line == 0 {
        Vrc6Pulse { volume: data & 0x0F, duty: (data >> 4u8) & 0x07, ignore_duty: data & 0x80 != 0, ..p2 }
    } else if block == 10 && line == 1 {
        Vrc6Pulse { period: (p2.period & 0x0F00) | (data as u16), ..p2 }
    } else if block == 10 && line == 2 {
        Vrc6Pulse {
            period: (p2.period & 0x00FF) | ((((data & 0x0F) as u16) << 8u16) as u16),
            enabled: data & 0x80 != 0,
            step: if data & 0x80 != 0 { p2.step } else { 15 },
            ..p2
        }
    } else {
        p2
    }
    &&& n.saw == if block == 11 && line == 0 {
        Vrc6Saw { rate: data & 0x3F, ..saw }
    } else if block == 11 && line == 1 {
        Vrc6Saw { period: (saw.period & 0x0F00) | (data as u16), ..saw }
    } else if block == 11 && line == 2 {
        Vrc6Saw {
            period: (saw.period & 0x00FF) | ((((data & 0x0F) as u16) << 8u16) as u16),
            enabled: data & 0x80 != 0,
            step: if data & 0x80 != 0 { saw.step } else { 0 },
            accumulator: if data & 0x80 != 0 { saw.accumulator } else { 0 },
            ..saw
        }
    } else {
        saw
    }
    &&& n.audio_halt == if block == 9 && line == 3 { data & 0x01 != 0 } else { o.audio_halt }
    &&& n.audio_freq_shift == if block == 9 && line == 3 { vrc6_freq_shift(data) } else { o.audio_freq_shift }
    &&& n.banking_control == if block == 11 && line == 3 { data } else { o.banking_control }
    &&& n.chr_banks@ == if block == 13 {
        o.chr_banks@.update(line as int, data)
    } else if block == 14 {
        o.chr_banks@.update(4 + line, data)
    } else {
        o.chr_banks@
    }
    &&& n.irq_latch == if block == 15 && line == 0 { data } else { o.irq_latch }
    &&& n.irq_enable_after_ack == if block == 15 && line == 1 { data & 0x01 != 0 } else { o.irq_enable_after_ack }
    &&& n.irq_enabled == if block == 15 && line == 1 {
        data & 0x02 != 0
    } else if block == 15 && line == 2 {
        o.irq_enable_after_ack
    } else {
        o.irq_enabled
    }
    &&& n.irq_cycle_mode == if block == 15 && line == 1 { data & 0x04 != 0 } else { o.irq_cycle_mode }
    &&& n.irq_pending == if block == 15 && (line == 1 || line == 2) { false } else { o.irq_pending }
    &&& n.irq_prescaler == if block == 15 && line == 1 { 341 } else { o.irq_prescaler }
    &&& n.irq_counter == if block == 15 && line == 1 && data & 0x02 != 0 { o.irq_latch } else { o.irq_counter }
}

proof fn lemma_mod_le(v: nat, m: nat)
    requires
        m > 0,
    ensures
        v % m <= v,
        v % m < m,
{
    assert(v % m <= v) by (nonlinear_arith)
        requires
            m > 0,
    ;
}

impl Cartridge {
    /// Sets the nametable arrangement from a banking-control value.
    pub fn vrc6_apply_banking_control(&mut self, data: u8)
        ensures
            *final(self) == (Cartridge { mirroring: vrc6_mirroring(data), ..*old(self) }),
    {
        let m = data & 0x0C;
        proof {
            lemma_u8_masks(data);
        }
        self.mirroring = if m == 0x00 {
            Mirroring::Vertical
        } else if m == 0x04 {
            Mirroring::Horizontal
        } else if m == 0x08 {
            Mirroring::OneScreenLower
        } else {
            Mirroring::OneScreenUpper
        };
    }

    /// The chip after a register write (the sound channels take theirs).
    fn vrc6_write_chip(v: &mut Vrc6, mapper: u8, addr: u16, data: u8)
        ensures
            vrc6_chip_written(*old(v), *final(v), mapper, addr, data),
    {
        let block = addr >> 12;
        let low = addr & 0x0003;
        let line = if mapper == 26 { ((low & 0x0001) << 1) | ((low & 0x0002) >> 1) } else { low };
        proof {
            lemma_u16_masks(addr);
            lemma_u16_masks(low);
        }
        if block == 8 {
            v.prg_bank_16k = data & 0x0F;
        } else if block == 9 {
            if line == 0 {
                v.pulse1.write_control(data);
            } else if line == 1 {
                v.pulse1.write_period_low(data);
            } else if line == 2 {
                v.pulse1.write_period_high(data);
            } else {
                v.audio_halt = data & 0x01 != 0;
                v.audio_freq_shift = if data & 0x04 != 0 {
                    8
                } else if data & 0x02 != 0 {
                    4
                } else {
                    0
                };
            }
        } else if block == 10 {
            if line == 0 {
                v.pulse2.write_control(data);
            } else if line == 1 {
                v.pulse2.write_period_low(data);
            } else if line == 2 {
                v.pulse2.write_period_high(data);
            }
        } else if block == 11 {
            if line == 0 {
                v.saw.write_rate(data);
            } else if line == 1 {
                v.saw.write_period_low(data);
            } else if line == 2 {
                v.saw.write_period_high(data);
            } else {
                v.banking_control = data;
            }
        } else if block == 12 {
            v.prg_bank_8k = data & 0x1F;
        } else if block == 13 {
            v.chr_banks[line as usize] = data;
        } else if block == 14 {
            v.chr_banks[4 + line as usize] = data;
        } else if block == 15 {
            if line == 0 {
                v.irq_latch = data;
            } else if line == 1 {
                v.irq_enable_after_ack = data & 0x01 != 0;
                v.irq_enabled = data & 0x02 != 0;
                v.irq_cycle_mode = data & 0x04 != 0;
                v.irq_pending = false;
                v.irq_prescaler = 341;
                if v.irq_enabled {
                    v.irq_counter = v.irq_latch;
                }
            } else if line == 2 {
                v.irq_pending = false;
                v.irq_enabled = v.irq_enable_after_ack;
            }
        }
    }

    /// A CPU write to a VRC6 board: the chip takes it; the 16 KiB PRG bank
    /// and CHR bank 0 also become the board's PRG and CHR bank, and the
    /// banking control sets the nametable arrangement. Nothing happens
    /// without the chip.
    pub fn write_prg_vrc6(&mut self, addr: u16, data: u8)
        ensures
            write_prg_vrc6_post(*old(self), *final(self), addr, data),
    {
        let mut v = match self.vrc6.take() {
            Some(v) => v,
            None => {
                return;
            },
        };
        let mapper = self.mapper;
        Self::vrc6_write_chip(&mut v, mapper, addr, data);
        let block = addr >> 12;
        let low = addr & 0x0003;
        let line = if mapper == 26 { ((low & 0x0001) << 1) | ((low & 0x0002) >> 1) } else { low };
        proof {
            lemma_u16_masks(addr);
            lemma_u16_masks(low);
        }
        if block == 8 {
            self.prg_bank = data & 0x0F;
        } else if block == 13 && line == 0 {
            self.chr_bank = data;
        }
        self.vrc6 = Some(v);
        if block == 11 && line == 3 {
            self.vrc6_apply_banking_control(data);
        }
    }

    /// A CPU read of PRG-ROM: the 16 KiB bank at $8000, the 8 KiB bank at
    /// $C000 and the last 8 KiB at $E000 (banks modulo their counts); 0 past
    /// the end, below $8000 or without the chip.
    pub fn read_prg_vrc6(&self, addr: u16) -> (r: u8)
        ensures
            r == read_prg_vrc6_value(*self, addr),
    {
        match &self.vrc6 {
            None => 0,
            Some(v) => {
                if addr < 0x8000 {
                    return 0;
                }
                let len = self.prg_rom.len();
                let b16 = if len / 0x4000 > 1 { len / 0x4000 } else { 1 };
                let b8 = if len / 0x2000 > 1 { len / 0x2000 } else { 1 };
                let offset: u128 = if addr < 0xC000 {
                    let b = (v.prg_bank_16k as usize) % b16;
                    proof {
                        lemma_mod_le(v.prg_bank_16k as nat, b16 as nat);
                    }
                    (b as u128) * 0x4000 + ((addr - 0x8000) as u128)
                } else if addr < 0xE000 {
                    let b = (v.prg_bank_8k as usize) % b8;
                    proof {
                        lemma_mod_le(v.prg_bank_8k as nat, b8 as nat);
                    }
                    (b as u128) * 0x2000 + ((addr - 0xC000) as u128)
                } else {
                    ((b8 - 1) as u128) * 0x2000 + ((addr - 0xE000) as u128)
                };
                if offset < len as u128 {
                    self.prg_rom[offset as usize]
                } else {
                    0
                }
            },
        }
    }

    /// A PPU read of pattern memory: eight 1 KiB banks of CHR-RAM (when the
    /// board has it) or CHR-ROM, positions wrapping.
    pub fn read_chr_vrc6(&self, addr: u16) -> (r: u8)
        ensures
            r == read_chr_vrc6_value(*self, addr),
    {
        match &self.vrc6 {
            None => 0,
            Some(v) => {
                let use_ram = self.chr_ram.len() > 0;
                let len = if use_ram { self.chr_ram.len() } else { self.chr_rom.len() };
                if len == 0 {
                    return 0;
                }
                let banks = if len / 0x400 > 1 { len / 0x400 } else { 1 };
                let slot = ((addr as usize) >> 10) & 7;
                proof {
                    lemma_usize_masks(addr as usize, 0);
                    lemma_u16_masks(addr);
                }
                let b = (v.chr_banks[slot] as usize) % banks;
                proof {
                    lemma_mod_le(v.chr_banks@[slot as int] as nat, banks as nat);
                }
                let chr_addr = b * 0x400 + ((addr & 0x03FF) as usize);
                if use_ram {
                    self.chr_ram[chr_addr % len]
                } else {
                    self.chr_rom[chr_addr % len]
                }
            },
        }
    }

    /// A PPU write of pattern memory: only CHR-RAM is written.
    pub fn write_chr_vrc6(&mut self, addr: u16, data: u8)
        ensures
            write_chr_vrc6_post(*old(self), *final(self), addr, data),
    {
        let len = self.chr_ram.len();
        if len == 0 {
            return;
        }
        let banks = if len / 0x400 > 1 { len / 0x400 } else { 1 };
        let slot = ((addr as usize) >> 10) & 7;
        proof {
            lemma_usize_masks(addr as usize, 0);
            lemma_u16_masks(addr);
        }
        let b = match &self.vrc6 {
            None => {
                return;
            },
            Some(v) => {
                proof {
                    lemma_mod_le(v.chr_banks@[slot as int] as nat, banks as nat);
                }
                (v.chr_banks[slot] as usize) % banks
            },
        };
        let chr_addr = b * 0x400 + ((addr & 0x03FF) as usize);
        self.chr_ram.set(chr_addr % len, data);
    }

    /// A CPU read at $6000-$7FFF: PRG-RAM while banking-control bit 7
    /// enables it; 0 otherwise or past its end.
    pub fn read_prg_ram_vrc6(&self, addr: u16) -> (r: u8)
        ensures
            r == read_prg_ram_vrc6_value(*self, addr),
    {
        match &self.vrc6 {
            None => 0,
            Some(v) => {
                if v.banking_control & 0x80 == 0 {
                    return 0;
                }
                let offset = if addr >= 0x6000 { (addr - 0x6000) as usize } else { 0 };
                if offset < self.prg_ram.len() { self.prg_ram[offset] } else { 0 }
            },
        }
    }

    /// A CPU write at $6000-$7FFF while PRG-RAM is enabled.
    pub fn write_prg_ram_vrc6(&mut self, addr: u16, data: u8)
        ensures
            write_prg_ram_vrc6_post(*old(self), *final(self), addr, data),
    {
        let enabled = match &self.vrc6 {
            Some(v) => v.banking_control & 0x80 != 0,
            None => false,
        };
        if !enabled {
            return;
        }
        let offset = if addr >= 0x6000 { (addr - 0x6000) as usize } else { 0 };
        if offset < self.prg_ram.len() {
            self.prg_ram.set(offset, data);
        }
    }
    /// Runs the chip's IRQ counter for `cycles` CPU cycles; nothing without
    /// the chip.
    pub fn clock_irq_vrc6(&mut self, cycles: u32)
        requires
            old(self).vrc6 matches Some(v) ==> v.irq_prescaler >= i16::MIN + 3,
        ensures
            match old(self).vrc6 {
                Some(o) => {
                    &&& final(self).vrc6 matches Some(n)
                    &&& n.same_except_irq_state(&o)
                    &&& n.irq() == if o.irq_enabled { vrc_irq_cycles(o.irq(), cycles as nat) } else { o.irq() }
                    &&& *final(self) == (Cartridge { vrc6: final(self).vrc6, ..*old(self) })
                },
                None => *final(self) == *old(self),
            },
    {
        if let Some(mut v) = self.vrc6.take() {
            v.clock_irq_mut(cycles);
            self.vrc6 = Some(v);
        }
    }

    /// One CPU cycle of the VRC6's sound; returns the sum of the three
    /// channel levels (0 without the chip).
    pub fn clock_audio_vrc6(&mut self) -> (mix: u16)
        requires
            old(self).vrc6 matches Some(v) ==> v.audio_freq_shift < 16,
        ensures
            match old(self).vrc6 {
                Some(o) => {
                    &&& final(self).vrc6 == Some(Vrc6 {
                        pulse1: vrc6_pulse_clocked(o.pulse1, o.audio_freq_shift, o.audio_halt),
                        pulse2: vrc6_pulse_clocked(o.pulse2, o.audio_freq_shift, o.audio_halt),
                        saw: vrc6_saw_clocked(o.saw, o.audio_freq_shift, o.audio_halt),
                        ..o
                    })
                    &&& mix == pulse_level(final(self).vrc6.unwrap().pulse1) + pulse_level(final(self).vrc6.unwrap().pulse2)
                        + saw_level(final(self).vrc6.unwrap().saw)
                    &&& *final(self) == (Cartridge { vrc6: final(self).vrc6, ..*old(self) })
                },
                None => mix == 0 && *final(self) == *old(self),
            },
    {
        match self.vrc6.take() {
            Some(mut v) => {
                let mix = v.clock_audio();
                self.vrc6 = Some(v);
                mix
            },
            None => 0,
        }
    }
}

/// The byte [`Cartridge::read_chr_vrc6`] returns.
pub open spec fn read_chr_vrc6_value(cart: Cartridge, addr: u16) -> u8 {
    match cart.vrc6 {
            Some(v) => {
                let mem = if cart.chr_ram@.len() > 0 { cart.chr_ram@ } else { cart.chr_rom@ };
                if mem.len() == 0 {
                    0
                } else {
                    let banks: nat = if mem.len() / 0x400 > 1 { mem.len() / 0x400 } else { 1 };
                    let bank = (v.chr_banks@[((addr / 0x400) % 8) as int] as nat) % banks;
                    mem[((bank * 0x400 + addr % 0x400) as int) % (mem.len() as int)]
                }
            },
            None => 0,
        }
}

/// The byte [`Cartridge::read_prg_ram_vrc6`] returns.
pub open spec fn read_prg_ram_vrc6_value(cart: Cartridge, addr: u16) -> u8 {
    match cart.vrc6 {
            Some(v) => {
                let offset: int = if addr >= 0x6000 { addr - 0x6000 } else { 0 };
                if v.banking_control & 0x80 == 0 || offset >= cart.prg_ram@.len() { 0 } else { cart.prg_ram@[offset] }
            },
            None => 0,
        }
}

/// The byte [`Cartridge::read_prg_vrc6`] returns.
pub open spec fn read_prg_vrc6_value(cart: Cartridge, addr: u16) -> u8 {
    match cart.vrc6 {
            Some(v) => {
                let len = cart.prg_rom@.len();
                let b16: nat = if len / 0x4000 > 1 { len / 0x4000 } else { 1 };
                let b8: nat = if len / 0x2000 > 1 { len / 0x2000 } else { 1 };
                let offset: int = if addr < 0x8000 {
                    -1
                } else if addr < 0xC000 {
                    ((v.prg_bank_16k as nat) % b16) * 0x4000 + (addr - 0x8000)
                } else if addr < 0xE000 {
                    ((v.prg_bank_8k as nat) % b8) * 0x2000 + (addr - 0xC000)
                } else {
                    (b8 - 1) * 0x2000 + (addr - 0xE000)
                };
                if 0 <= offset < len { cart.prg_rom@[offset] } else { 0 }
            },
            None => 0,
        }
}

/// The state change of [`Cartridge::write_chr_vrc6`].
pub open spec fn write_chr_vrc6_post(c0: Cartridge, c1: Cartridge, addr: u16, data: u8) -> bool {
    match c0.vrc6 {
            Some(v) => if c0.chr_ram@.len() == 0 {
                c1 == c0
            } else {
                let len = c0.chr_ram@.len();
                let banks: nat = if len / 0x400 > 1 { len / 0x400 } else { 1 };
                let bank = (v.chr_banks@[((addr / 0x400) % 8) as int] as nat) % banks;
                &&& c1.chr_ram@ == c0.chr_ram@.update(
                    ((bank * 0x400 + addr % 0x400) as int) % (len as int),
                    data,
                )
                &&& c1 == (Cartridge { chr_ram: c1.chr_ram, ..c0 })
            },
            None => c1 == c0,
        }
}

/// The state change of [`Cartridge::write_prg_ram_vrc6`].
pub open spec fn write_prg_ram_vrc6_post(c0: Cartridge, c1: Cartridge, addr: u16, data: u8) -> bool {
    ({
            let enabled = match c0.vrc6 {
                Some(v) => v.banking_control & 0x80 != 0,
                None => false,
            };
            let offset: int = if addr >= 0x6000 { addr - 0x6000 } else { 0 };
            &&& c1.prg_ram@ == if enabled && offset < c0.prg_ram@.len() {
                c0.prg_ram@.update(offset, data)
            } else {
                c0.prg_ram@
            }
            &&& c1 == (Cartridge { prg_ram: c1.prg_ram, ..c0 })
        })
}

/// The state change of [`Cartridge::write_prg_vrc6`].
pub open spec fn write_prg_vrc6_post(c0: Cartridge, c1: Cartridge, addr: u16, data: u8) -> bool {
    match c0.vrc6 {
            None => c1 == c0,
            Some(o) => {
                let block = addr / 0x1000;
                let line = vrc6_line(c0.mapper, addr);
                &&& c1.vrc6 matches Some(n)
                &&& vrc6_chip_written(o, n, c0.mapper, addr, data)
                &&& c1 == (Cartridge {
                    prg_bank: if block == 8 { data & 0x0F } else { c0.prg_bank },
                    chr_bank: if block == 13 && line == 0 { data } else { c0.chr_bank },
                    mirroring: if block == 11 && line == 3 { vrc6_mirroring(data) } else { c0.mirroring },
                    vrc6: c1.vrc6,
                    ..c0
                })
            },
        }
}

} // verus!

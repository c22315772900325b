//! The Bandai FCG boards (mappers 16, 153, 159) as the CPU and PPU see
//! them: PRG and CHR windows, the register file at $8000-$FFFF, and the
//! $6000-$7FFF window that is either plain PRG-RAM or, on battery boards,
//! the EEPROM's data line.

use vstd::prelude::*;
use crate::cartridge::Mirroring;
use crate::cartridge::load::Cartridge;
use crate::cartridge::mapper::bandai_fcg::{BandaiFcg, bandai_mirroring, eeprom_clock};
use crate::bits::{lemma_u16_masks, lemma_u8_masks};

verus! {

/// The chip's bank and IRQ registers after a write of register `reg`:
/// CHR banks ($0-$7), the 4-bit PRG bank ($8), IRQ control ($A: acknowledge,
/// enable from bit 0, reload the counter from the latch), and the latch's
/// low ($B) and high ($C) bytes.
pub open spec fn bandai_registers_written(o: BandaiFcg, f: BandaiFcg, reg: int, data: u8) -> bool {
    &&& f.chr_banks@ == if reg < 8 { o.chr_banks@.update(reg, data) } else { o.chr_banks@ }
    &&& f.prg_bank == if reg == 8 { data % 16 } else { o.prg_bank }
    &&& f.irq_pending == if reg == 10 { false } else { o.irq_pending }
    &&& f.irq_enabled == if reg == 10 { data % 2 == 1 } else { o.irq_enabled }
    &&& f.irq_counter == if reg == 10 { o.irq_latch } else { o.irq_counter }
    &&& f.irq_latch == if reg == 11 {
        (o.irq_latch - o.irq_latch % 256 + data) as u16
    } else if reg == 12 {
        (o.irq_latch % 256 + data * 256) as u16
    } else {
        o.irq_latch
    }
}

impl Cartridge {
    /// A CPU read of $8000-$FFFF: the selected 16 KiB bank (modulo the bank
    /// count) at $8000, the last bank at $C000; 0 without a whole bank,
    /// below $8000 or without the chip.
    pub fn read_prg_bandai(&self, addr: u16) -> (r: u8)
        ensures
            r == read_prg_bandai_value(*self, addr),
    {
        let prg_bank = match &self.bandai_fcg {
            Some(b) => b.prg_bank,
            None => {
                return 0;
            },
        };
        let num_16k_banks = self.prg_rom.len() / 0x4000;
        if num_16k_banks == 0 || addr < 0x8000 {
            return 0;
        }
        let (bank, offset) = if addr <= 0xBFFF {
            ((prg_bank as usize) % num_16k_banks, (addr - 0x8000) as usize)
        } else {
            (num_16k_banks - 1, (addr - 0xC000) as usize)
        };
        proof {
            assert(bank * 0x4000 + offset < num_16k_banks * 0x4000) by (nonlinear_arith)
                requires
                    bank < num_16k_banks,
                    offset < 0x4000,
            ;
            assert(num_16k_banks * 0x4000 <= self.prg_rom@.len()) by (nonlinear_arith)
                requires
                    num_16k_banks == self.prg_rom@.len() / 0x4000,
            ;
        }
        let rom_addr = bank * 0x4000 + offset;
        self.prg_rom[rom_addr]
    }

    /// A CPU write of the register selected by the low 4 bits of `addr`:
    /// the bank and IRQ registers, the nametable arrangement ($9, low two
    /// bits), and the EEPROM's clock and data lines ($D), which read and
    /// write the save memory held in PRG-RAM and flag it changed. Nothing
    /// happens without the chip.
    pub fn write_prg_bandai(&mut self, addr: u16, data: u8)
        ensures
            write_prg_bandai_post(*old(self), *final(self), addr, data),
    {
        let mut b = match self.bandai_fcg.take() {
            Some(b) => b,
            None => {
                return;
            },
        };
        let reg = addr & 0x0F;
        let latch = b.irq_latch;
        proof {
            lemma_u16_masks(addr);
            lemma_u8_masks(data);
            assert((latch & 0xFF00) | (data as u16) == latch - latch % 256 + data) by (bit_vector);
            assert((latch & 0x00FF) | ((data as u16) << 8u16) == latch % 256 + data * 256) by (bit_vector);
        }
        if reg < 8 {
            b.chr_banks[reg as usize] = data;
        } else if reg == 8 {
            b.prg_bank = data & 0x0F;
        } else if reg == 9 {
            self.mirroring = match data & 0x03 {
                0 => Mirroring::Vertical,
                1 => Mirroring::Horizontal,
                2 => Mirroring::OneScreenLower,
                _ => Mirroring::OneScreenUpper,
            };
        } else if reg == 10 {
            b.irq_pending = false;
            b.irq_enabled = (data & 0x01) != 0;
            b.irq_counter = b.irq_latch;
        } else if reg == 11 {
            b.irq_latch = (b.irq_latch & 0xFF00) | (data as u16);
        } else if reg == 12 {
            b.irq_latch = (b.irq_latch & 0x00FF) | ((data as u16) << 8);
        } else if reg == 13 {
            b.eeprom.eeprom_clock_control(data, &mut self.prg_ram, &mut self.has_valid_save_data);
        }
        self.bandai_fcg = Some(b);
    }

    /// A PPU read of $0000-$1FFF: the 1 KiB CHR bank of the slot, wrapping
    /// over the CHR-ROM when the bank is past its end; 0 without the chip.
    pub fn read_chr_bandai(&self, addr: u16) -> (r: u8)
        ensures
            r == read_chr_bandai_value(*self, addr),
    {
        match &self.bandai_fcg {
            Some(b) => {
                let slot = ((addr >> 10) & 7) as usize;
                let offset = (addr & 0x03FF) as usize;
                proof {
                    lemma_u16_masks(addr);
                }
                let bank = b.chr_banks[slot] as usize;
                let chr_addr = bank * 0x0400 + offset;
                if chr_addr < self.chr_rom.len() {
                    self.chr_rom[chr_addr]
                } else if self.chr_rom.len() > 0 {
                    self.chr_rom[chr_addr % self.chr_rom.len()]
                } else {
                    0
                }
            },
            None => 0,
        }
    }

    /// A PPU write of pattern memory: the boards have CHR-ROM only, so
    /// nothing changes.
    pub fn write_chr_bandai(&mut self, addr: u16, data: u8)
        ensures
            write_chr_bandai_post(*old(self), *final(self), addr, data),
    {
    }

    /// A CPU read of $6000-$7FFF: on a battery board with the chip, the
    /// EEPROM's data line on bit 4; otherwise the byte of plain PRG-RAM, or
    /// 0 past its end.
    pub fn read_prg_ram_bandai(&self, addr: u16) -> (r: u8)
        requires
            read_prg_ram_bandai_pre(*self, addr),
        ensures
            r == read_prg_ram_bandai_value(*self, addr),
    {
        if let Some(b) = &self.bandai_fcg {
            if self.has_battery {
                return if b.eeprom.data_out() { 0x10 } else { 0 };
            }
        }
        let ram_addr = (addr - 0x6000) as usize;
        if ram_addr < self.prg_ram.len() {
            self.prg_ram[ram_addr]
        } else {
            0
        }
    }

    /// A CPU write of $6000-$7FFF: ignored on battery boards (the save data
    /// lives in the EEPROM), else stored in PRG-RAM when in range.
    pub fn write_prg_ram_bandai(&mut self, addr: u16, data: u8)
        requires
            write_prg_ram_bandai_pre(*old(self), addr, data),
        ensures
            write_prg_ram_bandai_post(*old(self), *final(self), addr, data),
    {
        if self.has_battery {
            return;
        }
        let ram_addr = (addr - 0x6000) as usize;
        if ram_addr < self.prg_ram.len() {
            self.prg_ram.set(ram_addr, data);
        }
    }
}

/// The byte [`Cartridge::read_chr_bandai`] returns.
pub open spec fn read_chr_bandai_value(cart: Cartridge, addr: u16) -> u8 {
    match cart.bandai_fcg {
            Some(b) => {
                let slot = (addr / 1024) % 8;
                let chr_addr = (b.chr_banks@[slot as int] as int) * 0x400 + addr % 1024;
                if chr_addr < cart.chr_rom@.len() {
                    cart.chr_rom@[chr_addr]
                } else if cart.chr_rom@.len() > 0 {
                    cart.chr_rom@[chr_addr % (cart.chr_rom@.len() as int)]
                } else {
                    0
                }
            },
            None => 0,
        }
}

/// The byte [`Cartridge::read_prg_bandai`] returns.
pub open spec fn read_prg_bandai_value(cart: Cartridge, addr: u16) -> u8 {
    match cart.bandai_fcg {
            Some(b) => {
                let banks = cart.prg_rom@.len() / 0x4000;
                if banks == 0 || addr < 0x8000 {
                    0
                } else if addr < 0xC000 {
                    cart.prg_rom@[((b.prg_bank as int) % (banks as int)) * 0x4000 + (addr - 0x8000)]
                } else {
                    cart.prg_rom@[(banks - 1) * 0x4000 + (addr - 0xC000)]
                }
            },
            None => 0,
        }
}

/// The byte [`Cartridge::read_prg_ram_bandai`] returns.
pub open spec fn read_prg_ram_bandai_value(cart: Cartridge, addr: u16) -> u8 {
    if cart.bandai_fcg is Some && cart.has_battery {
            if cart.bandai_fcg.unwrap().eeprom@.data_out { 0x10u8 } else { 0 }
        } else if addr - 0x6000 < cart.prg_ram@.len() {
            cart.prg_ram@[addr - 0x6000]
        } else {
            0
        }
}

/// What [`Cartridge::read_prg_ram_bandai`] needs.
pub open spec fn read_prg_ram_bandai_pre(cart: Cartridge, addr: u16) -> bool {
    addr >= 0x6000 || (cart.bandai_fcg is Some && cart.has_battery)
}

/// The state change of [`Cartridge::write_chr_bandai`].
pub open spec fn write_chr_bandai_post(c0: Cartridge, c1: Cartridge, addr: u16, data: u8) -> bool {
    c1 == c0
}

/// The state change of [`Cartridge::write_prg_bandai`].
pub open spec fn write_prg_bandai_post(c0: Cartridge, c1: Cartridge, addr: u16, data: u8) -> bool {
    match c0.bandai_fcg {
            None => c1 == c0,
            Some(o) => {
                let reg = addr % 16;
                &&& c1.bandai_fcg matches Some(f)
                &&& bandai_registers_written(o, f, reg as int, data)
                &&& reg == 13 ==> (f.eeprom@, c1.prg_ram@, c1.has_valid_save_data)
                    == eeprom_clock(o.eeprom@, data, c0.prg_ram@, c0.has_valid_save_data)
                &&& reg != 13 ==> f.eeprom@ == o.eeprom@ && c1.prg_ram@ == c0.prg_ram@
                    && c1.has_valid_save_data == c0.has_valid_save_data
                &&& c1 == (Cartridge {
                    mirroring: if reg == 9 { bandai_mirroring(data) } else { c0.mirroring },
                    bandai_fcg: c1.bandai_fcg,
                    prg_ram: c1.prg_ram,
                    has_valid_save_data: c1.has_valid_save_data,
                    ..c0
                })
            },
        }
}

/// The state change of [`Cartridge::write_prg_ram_bandai`].
pub open spec fn write_prg_ram_bandai_post(c0: Cartridge, c1: Cartridge, addr: u16, data: u8) -> bool {
        &&& c1.prg_ram@ == if !c0.has_battery && addr - 0x6000 < c0.prg_ram@.len() {
                c0.prg_ram@.update(addr - 0x6000, data)
            } else {
                c0.prg_ram@
            }
        &&& c1 == (Cartridge { prg_ram: c1.prg_ram, ..c0 })
}

/// What [`Cartridge::write_prg_ram_bandai`] needs.
pub open spec fn write_prg_ram_bandai_pre(c0: Cartridge, addr: u16, data: u8) -> bool {
    addr >= 0x6000 || c0.has_battery
}

} // verus!

//! More discrete-logic boards: the AVE NINA-03/06 and Sachen latches in the
//! $4100 area (mappers 79/146, 113, 133, 147), the Sunsoft-2 boards with
//! bus conflicts (mappers 89, 93), the Sachen SA-008-A (mapper 148) and
//! the Caltron 6-in-1 (mapper 41).

use vstd::prelude::*;
use crate::cartridge::Mirroring;
use crate::cartridge::load::Cartridge;
use crate::cartridge::discrete::bank_count;
use crate::cartridge::board_latches::BoardLatches;
use crate::bits::{lemma_u16_masks, lemma_u8_masks};

verus! {

/// The ROM byte the CPU sees at `addr` with a switchable 16 KiB bank at
/// $8000 and the last 16 KiB at $C000 (positions modulo the ROM; addresses
/// below $8000 count as $8000); $FF without ROM.
pub open spec fn fixed_last_16k_byte(c: Cartridge, addr: u16) -> u8 {
    let len = c.prg_rom@.len();
    if len == 0 {
        0xFF
    } else {
        let offset: int = if addr < 0xC000 {
            (c.prg_bank as int) * 0x4000 + (if addr >= 0x8000 { addr - 0x8000 } else { 0 })
        } else {
            (if len >= 0x4000 { len - 0x4000 } else { 0 }) + (addr - 0xC000)
        };
        c.prg_rom@[offset % (len as int)]
    }
}

/// The ROM byte the CPU sees at `addr` through a switchable 32 KiB bank
/// (positions modulo the ROM; addresses below $8000 count as $8000); $FF
/// without ROM.
pub open spec fn switchable_32k_byte(c: Cartridge, addr: u16) -> u8 {
    let len = c.prg_rom@.len();
    if len == 0 {
        0xFF
    } else {
        c.prg_rom@[((c.prg_bank as int) * 0x8000 + (if addr >= 0x8000 { addr - 0x8000 } else { 0 })) % (len as int)]
    }
}

/// `v` modulo the number of `size`-byte banks in `len` bytes, as a byte.
pub open spec fn bank_mod(v: u8, len: nat, size: nat) -> u8 {
    ((v as nat) % bank_count(len, size)) as u8
}

/// Mapper 41's CHR bank: the outer bank (bits 2-7) kept, and the inner
/// latch (two bits) in bits 0-1 while PRG bank bit 2 enables it.
pub open spec fn mapper41_chr(chr_bank: u8, prg_bank: u8, inner: u8) -> u8 {
    ((chr_bank >> 2u8) << 2u8) | (if prg_bank & 0x04 != 0 { inner & 0x03 } else { 0 })
}

/// A remainder of a byte by a positive bank count is a byte below it.
proof fn lemma_bank_mod(v: nat, banks: nat)
    requires
        banks > 0,
    ensures
        v % banks <= v,
        v % banks < banks,
{
    assert(v % banks <= v) by (nonlinear_arith)
        requires
            banks > 0,
    ;
}

impl Cartridge {
    /// `v` modulo the number of `size`-byte banks of `len` bytes.
    pub(crate) fn reduce_bank(v: u8, len: usize, size: usize) -> (r: u8)
        requires
            size > 0,
        ensures
            r == bank_mod(v, len as nat, size as nat),
    {
        let banks = if len / size > 1 { len / size } else { 1 };
        proof {
            lemma_bank_mod(v as nat, banks as nat);
        }
        ((v as usize) % banks) as u8
    }

    /// Mapper 41: the CHR bank from its outer bank and the inner latch.
    pub fn sync_mapper41_chr_bank(&mut self)
        ensures
            *final(self) == (Cartridge {
                chr_bank: mapper41_chr(old(self).chr_bank, old(self).prg_bank, old(self).latches.mapper41_inner_bank),
                ..*old(self)
            }),
    {
        let outer_bank = self.chr_bank >> 2;
        self.chr_bank = (outer_bank << 2) | if self.prg_bank & 0x04 != 0 { self.latches.mapper41_inner_bank & 0x03 } else { 0 };
    }

    /// The ROM byte under a bus conflict on a board with a switchable 16 KiB
    /// bank and the last 16 KiB fixed.
    pub fn bus_conflict_value_fixed_last_16k(&self, addr: u16) -> (r: u8)
        ensures
            r == fixed_last_16k_byte(*self, addr),
    {
        let len = self.prg_rom.len();
        if len == 0 {
            return 0xFF;
        }
        let offset: u128 = if addr < 0xC000 {
            (self.prg_bank as u128) * 0x4000 + (addr.saturating_sub(0x8000) as u128)
        } else {
            (len.saturating_sub(0x4000) as u128) + ((addr - 0xC000) as u128)
        };
        self.prg_rom[(offset % (len as u128)) as usize]
    }

    /// The ROM byte under a bus conflict through a switchable 32 KiB bank.
    pub fn bus_conflict_value_switchable_32k(&self, addr: u16) -> (r: u8)
        ensures
            r == switchable_32k_byte(*self, addr),
    {
        let len = self.prg_rom.len();
        if len == 0 {
            return 0xFF;
        }
        let offset: u128 = (self.prg_bank as u128) * 0x8000 + (addr.saturating_sub(0x8000) as u128);
        self.prg_rom[(offset % (len as u128)) as usize]
    }

    /// Mappers 79 and 146 (NINA-03/06): a write at an address matching
    /// 010x xxx1 xxxx xxxx sets the 32 KiB PRG bank (bit 3) and the 8 KiB
    /// CHR bank (bits 0-2), each modulo its bank count.
    pub fn write_prg_mapper79_146(&mut self, addr: u16, data: u8)
        ensures
            write_prg_mapper79_146_post(*old(self), *final(self), addr, data),
    {
        if (addr & 0xE100) == 0x4100 {
            self.prg_bank = Self::reduce_bank((data >> 3) & 0x01, self.prg_rom.len(), 0x8000);
            self.chr_bank = Self::reduce_bank(data & 0x07, self.chr_rom.len(), 0x2000);
        }
    }

    /// Mapper 41: a write at $6000-$67FF sets the 32 KiB PRG bank (address
    /// bits 0-2), the outer 32 KiB CHR bank (bits 3-4, modulo the outer bank
    /// count) and the nametables (bit 5: horizontal); then the CHR bank
    /// takes the inner latch.
    pub fn write_prg_ram_mapper41(&mut self, addr: u16)
        ensures
            write_prg_ram_mapper41_post(*old(self), *final(self), addr),
    {
        if addr < 0x6000 || addr > 0x67FF {
            return;
        }
        proof {
            lemma_u16_masks(addr);
        }
        let clen = self.chr_rom.len();
        let chr_banks = if clen / 0x2000 > 1 { clen / 0x2000 } else { 1 };
        let outer_count = (chr_banks + 3) / 4;
        let sel = ((addr >> 3) & 0x03) as usize;
        proof {
            lemma_bank_mod(sel as nat, outer_count as nat);
        }
        let outer_bank = (sel % outer_count) as u8;
        let low = (addr & 0x07) as u8;
        self.prg_bank = Self::reduce_bank(low, self.prg_rom.len(), 0x8000);
        self.chr_bank = outer_bank << 2;
        self.mirroring = if addr & 0x20 != 0 { Mirroring::Horizontal } else { Mirroring::Vertical };
        self.sync_mapper41_chr_bank();
    }

    /// Mapper 41: while PRG bank bit 2 is set, a write at $8000-$FFFF
    /// (ANDed with the ROM byte there) sets the inner CHR latch, which the
    /// CHR bank then takes.
    pub fn write_prg_mapper41(&mut self, addr: u16, data: u8)
        requires
            write_prg_mapper41_pre(*old(self), addr, data),
        ensures
            write_prg_mapper41_post(*old(self), *final(self), addr, data),
    {
        if addr < 0x8000 || self.prg_bank & 0x04 == 0 {
            return;
        }
        let effective = data & self.read_prg_axrom(addr);
        self.latches.mapper41_inner_bank = effective & 0x03;
        self.sync_mapper41_chr_bank();
    }

    /// Mapper 133: like mappers 79/146 with one PRG bit (bit 2) and two CHR
    /// bits (bits 0-1).
    pub fn write_prg_mapper133(&mut self, addr: u16, data: u8)
        ensures
            write_prg_mapper133_post(*old(self), *final(self), addr, data),
    {
        if (addr & 0xE100) == 0x4100 {
            self.prg_bank = Self::reduce_bank((data >> 2) & 0x01, self.prg_rom.len(), 0x8000);
            self.chr_bank = Self::reduce_bank(data & 0x03, self.chr_rom.len(), 0x2000);
        }
    }

    /// Mapper 113 (HES NTD-8): the 32 KiB PRG bank from bits 3-5, the 8 KiB
    /// CHR bank from bit 6 (as bit 3) and bits 0-2, and the nametables from
    /// bit 7 (horizontal).
    pub fn write_prg_mapper113(&mut self, addr: u16, data: u8)
        ensures
            write_prg_mapper113_post(*old(self), *final(self), addr, data),
    {
        if (addr & 0xE100) == 0x4100 {
            self.prg_bank = Self::reduce_bank((data >> 3) & 0x07, self.prg_rom.len(), 0x8000);
            self.chr_bank = Self::reduce_bank(((data >> 3) & 0x08) | (data & 0x07), self.chr_rom.len(), 0x2000);
            self.mirroring = if data & 0x80 != 0 { Mirroring::Horizontal } else { Mirroring::Vertical };
        }
    }

    /// Mapper 89 (Sunsoft-2): a write at $8000-$FFFF, ANDed with the ROM
    /// byte there, sets the 16 KiB PRG bank (bits 4-6), the 8 KiB CHR bank
    /// (bit 7 as bit 3, bits 0-2) and one-screen nametables (bit 3).
    pub fn write_prg_mapper89(&mut self, addr: u16, data: u8)
        ensures
            write_prg_mapper89_post(*old(self), *final(self), addr, data),
    {
        if addr >= 0x8000 {
            let effective = data & self.bus_conflict_value_fixed_last_16k(addr);
            self.prg_bank = Self::reduce_bank((effective >> 4) & 0x07, self.prg_rom.len(), 0x4000);
            self.chr_bank = Self::reduce_bank(((effective >> 4) & 0x08) | (effective & 0x07), self.chr_rom.len(), 0x2000);
            self.mirroring = if effective & 0x08 != 0 { Mirroring::OneScreenUpper } else { Mirroring::OneScreenLower };
        }
    }

    /// Mapper 93: like mapper 89 without CHR banking; bit 0 enables the
    /// CHR-RAM data path.
    pub fn write_prg_mapper93(&mut self, addr: u16, data: u8)
        ensures
            write_prg_mapper93_post(*old(self), *final(self), addr, data),
    {
        if addr >= 0x8000 {
            let effective = data & self.bus_conflict_value_fixed_last_16k(addr);
            self.prg_bank = Self::reduce_bank((effective >> 4) & 0x07, self.prg_rom.len(), 0x4000);
            self.mapper93_chr_ram_enabled = effective & 0x01 != 0;
        }
    }

    /// Mapper 93: pattern reads while the CHR data path is enabled; $FF (the
    /// open bus) otherwise.
    pub fn read_chr_mapper93(&self, addr: u16) -> (r: u8)
        ensures
            r == read_chr_mapper93_value(*self, addr),
    {
        if self.mapper93_chr_ram_enabled { self.read_chr_uxrom(addr) } else { 0xFF }
    }

    /// Mapper 93: pattern writes while the CHR data path is enabled.
    pub fn write_chr_mapper93(&mut self, addr: u16, data: u8)
        ensures
            write_chr_mapper93_post(*old(self), *final(self), addr, data),
    {
        if self.mapper93_chr_ram_enabled {
            self.write_chr_uxrom(addr, data);
        }
    }

    /// Mapper 148 (Sachen SA-008-A): a write at $8000-$FFFF, ANDed with the
    /// ROM byte there, sets the 32 KiB PRG bank (bit 3) and the 8 KiB CHR
    /// bank (bits 0-2).
    pub fn write_prg_mapper148(&mut self, addr: u16, data: u8)
        ensures
            write_prg_mapper148_post(*old(self), *final(self), addr, data),
    {
        if addr >= 0x8000 {
            let effective = data & self.bus_conflict_value_switchable_32k(addr);
            self.prg_bank = Self::reduce_bank((effective >> 3) & 0x01, self.prg_rom.len(), 0x8000);
            self.chr_bank = Self::reduce_bank(effective & 0x07, self.chr_rom.len(), 0x2000);
        }
    }

    /// Mapper 147 (Sachen TC-U01-1.5M): a write at an address matching
    /// x1xx xxx1 xxxx xx10 (ANDed with the ROM byte at $8000 and above) sets
    /// the 32 KiB PRG bank from bits 2 and 7 and the 8 KiB CHR bank from
    /// bits 3-6.
    pub fn write_prg_mapper147(&mut self, addr: u16, data: u8)
        ensures
            write_prg_mapper147_post(*old(self), *final(self), addr, data),
    {
        if (addr & 0x4103) == 0x4102 {
            let effective = if addr >= 0x8000 { data & self.bus_conflict_value_switchable_32k(addr) } else { data };
            self.prg_bank = Self::reduce_bank(((effective >> 2) & 0x01) | ((effective >> 6) & 0x02), self.prg_rom.len(), 0x8000);
            self.chr_bank = Self::reduce_bank((effective >> 3) & 0x0F, self.chr_rom.len(), 0x2000);
        }
    }
}

/// The byte [`Cartridge::read_chr_mapper93`] returns.
pub open spec fn read_chr_mapper93_value(cart: Cartridge, addr: u16) -> u8 {
    if !cart.mapper93_chr_ram_enabled {
            0xFF
        } else if addr % 0x2000 < cart.chr_rom@.len() {
            cart.chr_rom@[(addr % 0x2000) as int]
        } else {
            0
        }
}

/// The state change of [`Cartridge::write_chr_mapper93`].
pub open spec fn write_chr_mapper93_post(c0: Cartridge, c1: Cartridge, addr: u16, data: u8) -> bool {
        &&& c1.chr_rom@ == if c0.mapper93_chr_ram_enabled && addr % 0x2000 < c0.chr_rom@.len() {
                c0.chr_rom@.update((addr % 0x2000) as int, data)
            } else {
                c0.chr_rom@
            }
        &&& c1 == (Cartridge { chr_rom: c1.chr_rom, ..c0 })
}

/// The state change of [`Cartridge::write_prg_mapper113`].
pub open spec fn write_prg_mapper113_post(c0: Cartridge, c1: Cartridge, addr: u16, data: u8) -> bool {
    c1 == if addr & 0xE100 == 0x4100 {
            Cartridge {
                prg_bank: bank_mod((data >> 3u8) & 0x07, c0.prg_rom@.len(), 0x8000),
                chr_bank: bank_mod(((data >> 3u8) & 0x08) | (data & 0x07), c0.chr_rom@.len(), 0x2000),
                mirroring: if data & 0x80 != 0 { Mirroring::Horizontal } else { Mirroring::Vertical },
                ..c0
            }
        } else {
            c0
        }
}

/// The state change of [`Cartridge::write_prg_mapper133`].
pub open spec fn write_prg_mapper133_post(c0: Cartridge, c1: Cartridge, addr: u16, data: u8) -> bool {
    c1 == if addr & 0xE100 == 0x4100 {
            Cartridge {
                prg_bank: bank_mod((data >> 2u8) & 0x01, c0.prg_rom@.len(), 0x8000),
                chr_bank: bank_mod(data & 0x03, c0.chr_rom@.len(), 0x2000),
                ..c0
            }
        } else {
            c0
        }
}

/// The state change of [`Cartridge::write_prg_mapper147`].
pub open spec fn write_prg_mapper147_post(c0: Cartridge, c1: Cartridge, addr: u16, data: u8) -> bool {
    c1 == if addr & 0x4103 == 0x4102 {
            let e = if addr >= 0x8000 { data & switchable_32k_byte(c0, addr) } else { data };
            Cartridge {
                prg_bank: bank_mod(((e >> 2u8) & 0x01) | ((e >> 6u8) & 0x02), c0.prg_rom@.len(), 0x8000),
                chr_bank: bank_mod((e >> 3u8) & 0x0F, c0.chr_rom@.len(), 0x2000),
                ..c0
            }
        } else {
            c0
        }
}

/// The state change of [`Cartridge::write_prg_mapper148`].
pub open spec fn write_prg_mapper148_post(c0: Cartridge, c1: Cartridge, addr: u16, data: u8) -> bool {
    c1 == if addr >= 0x8000 {
            let e = data & switchable_32k_byte(c0, addr);
            Cartridge {
                prg_bank: bank_mod((e >> 3u8) & 0x01, c0.prg_rom@.len(), 0x8000),
                chr_bank: bank_mod(e & 0x07, c0.chr_rom@.len(), 0x2000),
                ..c0
            }
        } else {
            c0
        }
}

/// The state change of [`Cartridge::write_prg_mapper41`].
pub open spec fn write_prg_mapper41_post(c0: Cartridge, c1: Cartridge, addr: u16, data: u8) -> bool {
    c1 == if addr < 0x8000 || c0.prg_bank & 0x04 == 0 {
            c0
        } else {
            let rom = c0.prg_rom@;
            let e = data & rom[((c0.prg_bank as int) * 0x8000 + (addr - 0x8000)) % (rom.len() as int)];
            Cartridge {
                latches: BoardLatches { mapper41_inner_bank: e & 0x03, ..c0.latches },
                chr_bank: mapper41_chr(c0.chr_bank, c0.prg_bank, e & 0x03),
                ..c0
            }
        }
}

/// What [`Cartridge::write_prg_mapper41`] needs.
pub open spec fn write_prg_mapper41_pre(c0: Cartridge, addr: u16, data: u8) -> bool {
    addr >= 0x8000 && c0.prg_bank & 0x04 != 0 ==> c0.prg_rom@.len() > 0
}

/// The state change of [`Cartridge::write_prg_mapper79_146`].
pub open spec fn write_prg_mapper79_146_post(c0: Cartridge, c1: Cartridge, addr: u16, data: u8) -> bool {
    c1 == if addr & 0xE100 == 0x4100 {
            Cartridge {
                prg_bank: bank_mod((data >> 3u8) & 0x01, c0.prg_rom@.len(), 0x8000),
                chr_bank: bank_mod(data & 0x07, c0.chr_rom@.len(), 0x2000),
                ..c0
            }
        } else {
            c0
        }
}

/// The state change of [`Cartridge::write_prg_mapper89`].
pub open spec fn write_prg_mapper89_post(c0: Cartridge, c1: Cartridge, addr: u16, data: u8) -> bool {
    c1 == if addr >= 0x8000 {
            let e = data & fixed_last_16k_byte(c0, addr);
            Cartridge {
                prg_bank: bank_mod((e >> 4u8) & 0x07, c0.prg_rom@.len(), 0x4000),
                chr_bank: bank_mod(((e >> 4u8) & 0x08) | (e & 0x07), c0.chr_rom@.len(), 0x2000),
                mirroring: if e & 0x08 != 0 { Mirroring::OneScreenUpper } else { Mirroring::OneScreenLower },
                ..c0
            }
        } else {
            c0
        }
}

/// The state change of [`Cartridge::write_prg_mapper93`].
pub open spec fn write_prg_mapper93_post(c0: Cartridge, c1: Cartridge, addr: u16, data: u8) -> bool {
    c1 == if addr >= 0x8000 {
            let e = data & fixed_last_16k_byte(c0, addr);
            Cartridge {
                prg_bank: bank_mod((e >> 4u8) & 0x07, c0.prg_rom@.len(), 0x4000),
                mapper93_chr_ram_enabled: e & 0x01 != 0,
                ..c0
            }
        } else {
            c0
        }
}

/// The state change of [`Cartridge::write_prg_ram_mapper41`].
pub open spec fn write_prg_ram_mapper41_post(c0: Cartridge, c1: Cartridge, addr: u16) -> bool {
    c1 == if 0x6000 <= addr <= 0x67FF {
            let chr_banks = bank_count(c0.chr_rom@.len(), 0x2000);
            let outer_count: nat = (chr_banks + 3) / 4;
            let outer = (((addr / 8) % 4) as nat % outer_count) as u8;
            let prg = bank_mod((addr % 8) as u8, c0.prg_rom@.len(), 0x8000);
            Cartridge {
                prg_bank: prg,
                chr_bank: mapper41_chr(outer << 2u8, prg, c0.latches.mapper41_inner_bank),
                mirroring: if addr & 0x20 != 0 { Mirroring::Horizontal } else { Mirroring::Vertical },
                ..c0
            }
        } else {
            c0
        }
}

} // verus!

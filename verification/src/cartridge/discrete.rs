//! Boards built from discrete logic (AxROM, CNROM, UxROM and their
//! relatives): a latch or two selecting PRG and CHR banks, sometimes with
//! bus conflicts between the written value and the ROM byte at the address.

use vstd::prelude::*;
use crate::cartridge::Mirroring;
use crate::cartridge::load::Cartridge;
use crate::bits::{lemma_u16_masks, lemma_u8_masks};

verus! {

/// At least one bank of `size` bytes in `len` bytes of ROM.
pub open spec fn bank_count(len: nat, size: nat) -> nat {
    if len / size > 1 { len / size } else { 1 }
}

/// `v % banks` for a bank number that fits in a byte.
proof fn lemma_mod_le(v: nat, banks: nat)
    requires
        banks > 0,
    ensures
        v % banks <= v,
        v % banks < banks,
{
    assert(v % banks <= v) by (nonlinear_arith)
        requires
            banks > 0,
    ;
}

impl Cartridge {
    /// AxROM (mapper 7): one 32 KiB bank at $8000-$FFFF, positions past the
    /// end wrap around the ROM.
    pub fn read_prg_axrom(&self, addr: u16) -> (r: u8)
        requires
            read_prg_axrom_pre(*self, addr),
        ensures
            r == read_prg_axrom_value(*self, addr),
    {
        let offset = (self.prg_bank as usize) * 0x8000 + (addr - 0x8000) as usize;
        let len = self.prg_rom.len();
        if offset < len {
            proof {
                vstd::arithmetic::div_mod::lemma_small_mod(offset as nat, len as nat);
            }
            self.prg_rom[offset]
        } else {
            self.prg_rom[offset % len]
        }
    }

    /// AxROM register: bits 0-2 the 32 KiB bank, bit 4 the one-screen
    /// nametable.
    pub fn write_prg_axrom(&mut self, addr: u16, data: u8)
        ensures
            write_prg_axrom_post(*old(self), *final(self), addr, data),
    {
        if addr >= 0x8000 {
            self.prg_bank = data & 0x07;
            self.mirroring = if data & 0x10 != 0 { Mirroring::OneScreenUpper } else { Mirroring::OneScreenLower };
        }
    }

    /// CNROM (mapper 3): the written value is ANDed with the ROM byte the
    /// CPU reads at that address (bus conflict); its low two bits select
    /// the 8 KiB CHR bank.
    pub fn write_prg_cnrom(&mut self, addr: u16, data: u8)
        requires
            write_prg_cnrom_pre(*old(self), addr, data),
        ensures
            write_prg_cnrom_post(*old(self), *final(self), addr, data),
    {
        if addr >= 0x8000 {
            let len = self.prg_rom.len();
            let rom_value = if (addr as usize) < len {
                self.prg_rom[addr as usize]
            } else {
                let m = (addr - 0x8000) % (len as u16);
                self.prg_rom[m as usize]
            };
            self.chr_bank = (data & rom_value) & 0x03;
        }
    }

    /// Mapper 87: the CHR bank is written at $6000-$7FFF with bits 0 and 1
    /// swapped.
    pub fn write_prg_mapper87(&mut self, addr: u16, data: u8)
        ensures
            write_prg_mapper87_post(*old(self), *final(self), addr, data),
    {
        if addr >= 0x6000 && addr <= 0x7FFF {
            self.chr_bank = ((data & 0x01) << 1) | ((data & 0x02) >> 1);
        }
    }

    /// CNROM pattern read: 8 KiB CHR-ROM bank; 0 past the end.
    pub fn read_chr_cnrom(&self, addr: u16) -> (r: u8)
        ensures
            r == read_chr_cnrom_value(*self, addr),
    {
        let a = (self.chr_bank as usize) * 0x2000 + (addr as usize);
        if a < self.chr_rom.len() {
            self.chr_rom[a]
        } else {
            0
        }
    }

    /// CNROM pattern write into the same bank.
    pub fn write_chr_cnrom(&mut self, addr: u16, data: u8)
        ensures
            write_chr_cnrom_post(*old(self), *final(self), addr, data),
    {
        let a = (self.chr_bank as usize) * 0x2000 + (addr as usize);
        if a < self.chr_rom.len() {
            self.chr_rom.set(a, data);
        }
    }

    /// Color Dreams (mapper 11): bits 0-1 the 32 KiB PRG bank, bits 4-7 the
    /// 8 KiB CHR bank.
    pub fn write_prg_color_dreams(&mut self, addr: u16, data: u8)
        ensures
            write_prg_color_dreams_post(*old(self), *final(self), addr, data),
    {
        if addr >= 0x8000 {
            self.prg_bank = data & 0x03;
            self.chr_bank = (data >> 4) & 0x0F;
        }
    }

    /// Camerica (mapper 71): $9000-$9FFF selects the one-screen nametable
    /// (bit 4), $C000-$FFFF the 16 KiB bank at $8000 (modulo the bank
    /// count).
    pub fn write_prg_camerica(&mut self, addr: u16, data: u8)
        ensures
            write_prg_camerica_post(*old(self), *final(self), addr, data),
    {
        if addr >= 0x9000 && addr <= 0x9FFF {
            self.mirroring = if data & 0x10 != 0 { Mirroring::OneScreenUpper } else { Mirroring::OneScreenLower };
        } else if addr >= 0xC000 {
            let len = self.prg_rom.len();
            let banks = if len / 0x4000 > 1 { len / 0x4000 } else { 1 };
            let b = (data as usize) % banks;
            proof {
                lemma_mod_le(data as nat, banks as nat);
            }
            self.prg_bank = b as u8;
        }
    }

    /// The ROM byte the CPU sees at `addr` on a mapper 70/152 board (16 KiB
    /// switchable bank, last bank fixed); $FF without ROM.
    fn bus_conflict_value_jaleco(&self, addr: u16) -> (r: u8)
        requires
            addr >= 0x8000,
        ensures
            r == jaleco_rom_byte(self, addr),
    {
        let len = self.prg_rom.len();
        if len == 0 {
            return 0xFF;
        }
        let offset = if addr < 0xC000 {
            (self.prg_bank as usize) * 0x4000 + (addr - 0x8000) as usize
        } else {
            let base = if len >= 0x4000 { len - 0x4000 } else { 0 };
            base + (addr - 0xC000) as usize
        };
        self.prg_rom[offset % len]
    }

    /// Mapper 70: after the bus conflict, the high nibble selects the 16 KiB
    /// PRG bank and the low nibble the 8 KiB CHR bank (each modulo its bank
    /// count).
    pub fn write_prg_mapper70(&mut self, addr: u16, data: u8)
        ensures
            write_prg_mapper70_post(*old(self), *final(self), addr, data),
    {
        if addr >= 0x8000 {
            let e = data & self.bus_conflict_value_jaleco(addr);
            let plen = self.prg_rom.len();
            let clen = self.chr_rom.len();
            let pbanks = if plen / 0x4000 > 1 { plen / 0x4000 } else { 1 };
            let cbanks = if clen / 0x2000 > 1 { clen / 0x2000 } else { 1 };
            proof {
                lemma_mod_le((e >> 4u8) as nat, pbanks as nat);
                lemma_mod_le((e & 0x0F) as nat, cbanks as nat);
            }
            self.prg_bank = ((e >> 4) as usize % pbanks) as u8;
            self.chr_bank = ((e & 0x0F) as usize % cbanks) as u8;
        }
    }

    /// Mapper 152: mapper 70 with a 3-bit PRG bank and the one-screen
    /// nametable in bit 7.
    pub fn write_prg_mapper152(&mut self, addr: u16, data: u8)
        ensures
            write_prg_mapper152_post(*old(self), *final(self), addr, data),
    {
        if addr >= 0x8000 {
            let e = data & self.bus_conflict_value_jaleco(addr);
            let plen = self.prg_rom.len();
            let clen = self.chr_rom.len();
            let pbanks = if plen / 0x4000 > 1 { plen / 0x4000 } else { 1 };
            let cbanks = if clen / 0x2000 > 1 { clen / 0x2000 } else { 1 };
            proof {
                lemma_mod_le(((e >> 4u8) & 0x07) as nat, pbanks as nat);
                lemma_mod_le((e & 0x0F) as nat, cbanks as nat);
            }
            self.prg_bank = (((e >> 4) & 0x07) as usize % pbanks) as u8;
            self.chr_bank = ((e & 0x0F) as usize % cbanks) as u8;
            self.mirroring = if e & 0x80 != 0 { Mirroring::OneScreenUpper } else { Mirroring::OneScreenLower };
        }
    }

    /// UxROM (mapper 2): the PRG bank at $8000-$BFFF, the last 16 KiB fixed
    /// at $C000; 0 past the end. `rom_addr` is `addr - $8000`.
    pub fn read_prg_uxrom(&self, addr: u16, rom_addr: u16) -> (r: u8)
        requires
            read_prg_uxrom_pre(*self, addr, rom_addr),
        ensures
            r == read_prg_uxrom_value(*self, addr, rom_addr),
    {
        let len = self.prg_rom.len();
        let offset = if addr < 0xC000 {
            (self.prg_bank as usize) * 0x4000 + (rom_addr as usize)
        } else {
            len - 0x4000 + ((addr - 0xC000) as usize)
        };
        if offset < len {
            self.prg_rom[offset]
        } else {
            0
        }
    }

    /// UxROM register: after the bus conflict (a missing ROM byte reads as
    /// $FF), the low three bits select the PRG bank.
    pub fn write_prg_uxrom(&mut self, addr: u16, data: u8)
        requires
            write_prg_uxrom_pre(*old(self), addr, data),
        ensures
            write_prg_uxrom_post(*old(self), *final(self), addr, data),
    {
        if addr >= 0x8000 {
            let len = self.prg_rom.len();
            let offset = if addr < 0xC000 {
                (self.prg_bank as usize) * 0x4000 + ((addr - 0x8000) as usize)
            } else {
                len - 0x4000 + ((addr - 0xC000) as usize)
            };
            let rom_value = if offset < len { self.prg_rom[offset] } else { 0xFF };
            self.prg_bank = (data & rom_value) & 0x07;
        }
    }

    /// UNROM-180 (mapper 180): the first 16 KiB fixed at $8000, the PRG bank
    /// (modulo the bank count) at $C000; 0 past the end. `rom_addr` is
    /// `addr - $8000`.
    pub fn read_prg_uxrom_inverted(&self, addr: u16, rom_addr: u16) -> (r: u8)
        requires
            read_prg_uxrom_inverted_pre(*self, addr, rom_addr),
        ensures
            r == read_prg_uxrom_inverted_value(*self, addr, rom_addr),
    {
        let len = self.prg_rom.len();
        if addr < 0xC000 {
            let offset = (addr - 0x8000) as usize;
            if offset < len { self.prg_rom[offset] } else { 0 }
        } else {
            let banks = if len / 0x4000 > 1 { len / 0x4000 } else { 1 };
            let b = (self.prg_bank as usize) % banks;
            proof {
                lemma_mod_le(self.prg_bank as nat, banks as nat);
            }
            let offset = b * 0x4000 + ((rom_addr - 0x4000) as usize);
            if offset < len { self.prg_rom[offset] } else { 0 }
        }
    }

    /// UNROM-180 register: bus conflict with the ROM byte at the address,
    /// then the PRG bank modulo the bank count.
    pub fn write_prg_uxrom_inverted(&mut self, addr: u16, data: u8)
        ensures
            write_prg_uxrom_inverted_post(*old(self), *final(self), addr, data),
    {
        if addr >= 0x8000 {
            let len = self.prg_rom.len();
            let offset = if addr < 0xC000 {
                (addr - 0x8000) as usize
            } else {
                (self.prg_bank as usize) * 0x4000 + ((addr - 0xC000) as usize)
            };
            let rom_value = if offset < len { self.prg_rom[offset] } else { 0xFF };
            let e = data & rom_value;
            let banks = if len / 0x4000 > 1 { len / 0x4000 } else { 1 };
            proof {
                lemma_mod_le(e as nat, banks as nat);
            }
            self.prg_bank = ((e as usize) % banks) as u8;
        }
    }

    /// Irem TAM-S1 (mapper 97): the last 16 KiB fixed at $8000, the PRG bank
    /// at $C000 (positions modulo the ROM). `rom_addr` is `addr - $8000`.
    pub fn read_prg_fixed_last_switch_high(&self, addr: u16, rom_addr: u16) -> (r: u8)
        requires
            read_prg_fixed_last_switch_high_pre(*self, addr, rom_addr),
        ensures
            r == read_prg_fixed_last_switch_high_value(*self, addr, rom_addr),
    {
        let len = self.prg_rom.len();
        if addr < 0xC000 {
            let base = if len >= 0x4000 { len - 0x4000 } else { 0 };
            let offset = base + (addr - 0x8000) as usize;
            self.prg_rom[offset % len]
        } else {
            let banks = if len / 0x4000 > 1 { len / 0x4000 } else { 1 };
            let b = (self.prg_bank as usize) % banks;
            proof {
                lemma_mod_le(self.prg_bank as nat, banks as nat);
            }
            let offset = b * 0x4000 + (rom_addr - 0x4000) as usize;
            self.prg_rom[offset % len]
        }
    }

    /// Mapper 97 register: the PRG bank (low five bits, modulo the bank
    /// count) and the arrangement (bit 7: vertical).
    pub fn write_prg_mapper97(&mut self, addr: u16, data: u8)
        ensures
            write_prg_mapper97_post(*old(self), *final(self), addr, data),
    {
        if addr >= 0x8000 {
            let len = self.prg_rom.len();
            let banks = if len / 0x4000 > 1 { len / 0x4000 } else { 1 };
            proof {
                lemma_mod_le((data & 0x1F) as nat, banks as nat);
            }
            self.prg_bank = ((data & 0x1F) as usize % banks) as u8;
            self.mirroring = if data & 0x80 != 0 { Mirroring::Vertical } else { Mirroring::Horizontal };
        }
    }

    /// Mapper 81: address bits 2-3 select the PRG bank, bits 0-1 the CHR
    /// bank.
    pub fn write_prg_mapper81(&mut self, addr: u16)
        ensures
            write_prg_mapper81_post(*old(self), *final(self), addr),
    {
        if addr >= 0x8000 {
            proof {
                assert((addr >> 2u16) & 0x03 == (addr / 4) % 4 && addr & 0x03 == addr % 4) by (bit_vector);
            }
            self.prg_bank = ((addr >> 2) & 0x03) as u8;
            self.chr_bank = (addr & 0x03) as u8;
        }
    }

    /// UxROM pattern read (8 KiB, unbanked); 0 past the end.
    pub fn read_chr_uxrom(&self, addr: u16) -> (r: u8)
        ensures
            r == read_chr_uxrom_value(*self, addr),
    {
        proof {
            lemma_u16_masks(addr);
        }
        let a = (addr & 0x1FFF) as usize;
        if a < self.chr_rom.len() {
            self.chr_rom[a]
        } else {
            0
        }
    }

    /// UxROM pattern write (the board's CHR memory is RAM).
    pub fn write_chr_uxrom(&mut self, addr: u16, data: u8)
        ensures
            write_chr_uxrom_post(*old(self), *final(self), addr, data),
    {
        proof {
            lemma_u16_masks(addr);
        }
        let a = (addr & 0x1FFF) as usize;
        if a < self.chr_rom.len() {
            self.chr_rom.set(a, data);
        }
    }
}

/// The ROM byte a mapper 70/152 board presents at `addr` ($8000-$FFFF):
/// the 16 KiB PRG bank at $8000, the last 16 KiB at $C000 (positions modulo
/// the ROM); $FF without ROM.
pub open spec fn jaleco_rom_byte(c: &Cartridge, addr: u16) -> u8 {
    let len = c.prg_rom@.len();
    if len == 0 {
        0xFF
    } else {
        let offset = if addr < 0xC000 {
            (c.prg_bank as int) * 0x4000 + (addr - 0x8000)
        } else {
            (if len >= 0x4000 { len - 0x4000 } else { 0 }) + (addr - 0xC000)
        };
        c.prg_rom@[offset % (len as int)]
    }
}

/// The byte [`Cartridge::read_chr_cnrom`] returns.
pub open spec fn read_chr_cnrom_value(cart: Cartridge, addr: u16) -> u8 {
    ({
            let a = (cart.chr_bank as int) * 0x2000 + addr;
            if a < cart.chr_rom@.len() { cart.chr_rom@[a] } else { 0 }
        })
}

/// The byte [`Cartridge::read_chr_uxrom`] returns.
pub open spec fn read_chr_uxrom_value(cart: Cartridge, addr: u16) -> u8 {
    if addr % 0x2000 < cart.chr_rom@.len() { cart.chr_rom@[(addr % 0x2000) as int] } else { 0 }
}

/// The byte [`Cartridge::read_prg_axrom`] returns.
pub open spec fn read_prg_axrom_value(cart: Cartridge, addr: u16) -> u8 {
    cart.prg_rom@[((cart.prg_bank as int) * 0x8000 + (addr - 0x8000)) % (cart.prg_rom@.len() as int)]
}

/// What [`Cartridge::read_prg_axrom`] needs.
pub open spec fn read_prg_axrom_pre(cart: Cartridge, addr: u16) -> bool {
        &&& addr >= 0x8000
        &&& cart.prg_rom@.len() > 0
}

/// The byte [`Cartridge::read_prg_fixed_last_switch_high`] returns.
pub open spec fn read_prg_fixed_last_switch_high_value(cart: Cartridge, addr: u16, rom_addr: u16) -> u8 {
    ({
            let len = cart.prg_rom@.len();
            let offset = if addr < 0xC000 {
                (if len >= 0x4000 { len - 0x4000 } else { 0 }) + (addr - 0x8000)
            } else {
                ((cart.prg_bank as nat) % bank_count(len, 0x4000)) * 0x4000 + (rom_addr - 0x4000)
            };
            cart.prg_rom@[offset % (len as int)]
        })
}

/// What [`Cartridge::read_prg_fixed_last_switch_high`] needs.
pub open spec fn read_prg_fixed_last_switch_high_pre(cart: Cartridge, addr: u16, rom_addr: u16) -> bool {
        &&& addr >= 0x8000
        &&& addr >= 0xC000 ==> rom_addr >= 0x4000
        &&& cart.prg_rom@.len() > 0
}

/// The byte [`Cartridge::read_prg_uxrom`] returns.
pub open spec fn read_prg_uxrom_value(cart: Cartridge, addr: u16, rom_addr: u16) -> u8 {
    ({
            let len = cart.prg_rom@.len();
            let offset = if addr < 0xC000 {
                (cart.prg_bank as int) * 0x4000 + rom_addr
            } else {
                len - 0x4000 + (addr - 0xC000)
            };
            if offset < len { cart.prg_rom@[offset] } else { 0 }
        })
}

/// What [`Cartridge::read_prg_uxrom`] needs.
pub open spec fn read_prg_uxrom_pre(cart: Cartridge, addr: u16, rom_addr: u16) -> bool {
    addr >= 0xC000 ==> cart.prg_rom@.len() >= 0x4000
}

/// The byte [`Cartridge::read_prg_uxrom_inverted`] returns.
pub open spec fn read_prg_uxrom_inverted_value(cart: Cartridge, addr: u16, rom_addr: u16) -> u8 {
    ({
            let len = cart.prg_rom@.len();
            let offset = if addr < 0xC000 {
                addr - 0x8000
            } else {
                ((cart.prg_bank as nat) % bank_count(len, 0x4000)) * 0x4000 + (rom_addr - 0x4000)
            };
            if offset < len { cart.prg_rom@[offset] } else { 0 }
        })
}

/// What [`Cartridge::read_prg_uxrom_inverted`] needs.
pub open spec fn read_prg_uxrom_inverted_pre(cart: Cartridge, addr: u16, rom_addr: u16) -> bool {
        &&& addr >= 0x8000
        &&& addr >= 0xC000 ==> rom_addr >= 0x4000
}

/// The state change of [`Cartridge::write_chr_cnrom`].
pub open spec fn write_chr_cnrom_post(c0: Cartridge, c1: Cartridge, addr: u16, data: u8) -> bool {
    ({
            let a = (c0.chr_bank as int) * 0x2000 + addr;
            &&& c1.chr_rom@ == if a < c0.chr_rom@.len() {
                c0.chr_rom@.update(a, data)
            } else {
                c0.chr_rom@
            }
            &&& c1 == (Cartridge { chr_rom: c1.chr_rom, ..c0 })
        })
}

/// The state change of [`Cartridge::write_chr_uxrom`].
pub open spec fn write_chr_uxrom_post(c0: Cartridge, c1: Cartridge, addr: u16, data: u8) -> bool {
        &&& c1.chr_rom@ == if addr % 0x2000 < c0.chr_rom@.len() {
                c0.chr_rom@.update((addr % 0x2000) as int, data)
            } else {
                c0.chr_rom@
            }
        &&& c1 == (Cartridge { chr_rom: c1.chr_rom, ..c0 })
}

/// The state change of [`Cartridge::write_prg_axrom`].
pub open spec fn write_prg_axrom_post(c0: Cartridge, c1: Cartridge, addr: u16, data: u8) -> bool {
    c1 == if addr >= 0x8000 {
            Cartridge {
                prg_bank: data & 0x07,
                mirroring: if data & 0x10 != 0 { Mirroring::OneScreenUpper } else { Mirroring::OneScreenLower },
                ..c0
            }
        } else {
            c0
        }
}

/// The state change of [`Cartridge::write_prg_camerica`].
pub open spec fn write_prg_camerica_post(c0: Cartridge, c1: Cartridge, addr: u16, data: u8) -> bool {
    c1 == if 0x9000 <= addr <= 0x9FFF {
            Cartridge {
                mirroring: if data & 0x10 != 0 { Mirroring::OneScreenUpper } else { Mirroring::OneScreenLower },
                ..c0
            }
        } else if addr >= 0xC000 {
            Cartridge {
                prg_bank: ((data as nat) % bank_count(c0.prg_rom@.len(), 0x4000)) as u8,
                ..c0
            }
        } else {
            c0
        }
}

/// The state change of [`Cartridge::write_prg_cnrom`].
pub open spec fn write_prg_cnrom_post(c0: Cartridge, c1: Cartridge, addr: u16, data: u8) -> bool {
    c1 == if addr >= 0x8000 {
            let len = c0.prg_rom@.len();
            let rom_value = if addr < len {
                c0.prg_rom@[addr as int]
            } else {
                c0.prg_rom@[(addr - 0x8000) % (len as int)]
            };
            Cartridge { chr_bank: (data & rom_value) & 0x03, ..c0 }
        } else {
            c0
        }
}

/// What [`Cartridge::write_prg_cnrom`] needs.
pub open spec fn write_prg_cnrom_pre(c0: Cartridge, addr: u16, data: u8) -> bool {
    addr >= 0x8000 ==> c0.prg_rom@.len() > 0
}

/// The state change of [`Cartridge::write_prg_color_dreams`].
pub open spec fn write_prg_color_dreams_post(c0: Cartridge, c1: Cartridge, addr: u16, data: u8) -> bool {
    c1 == if addr >= 0x8000 {
            Cartridge { prg_bank: data & 0x03, chr_bank: (data >> 4u8) & 0x0F, ..c0 }
        } else {
            c0
        }
}

/// The state change of [`Cartridge::write_prg_mapper152`].
pub open spec fn write_prg_mapper152_post(c0: Cartridge, c1: Cartridge, addr: u16, data: u8) -> bool {
    c1 == if addr >= 0x8000 {
            let e = data & jaleco_rom_byte(&c0, addr);
            Cartridge {
                prg_bank: ((((e >> 4u8) & 0x07) as nat) % bank_count(c0.prg_rom@.len(), 0x4000)) as u8,
                chr_bank: (((e & 0x0F) as nat) % bank_count(c0.chr_rom@.len(), 0x2000)) as u8,
                mirroring: if e & 0x80 != 0 { Mirroring::OneScreenUpper } else { Mirroring::OneScreenLower },
                ..c0
            }
        } else {
            c0
        }
}

/// The state change of [`Cartridge::write_prg_mapper70`].
pub open spec fn write_prg_mapper70_post(c0: Cartridge, c1: Cartridge, addr: u16, data: u8) -> bool {
    c1 == if addr >= 0x8000 {
            let e = data & jaleco_rom_byte(&c0, addr);
            Cartridge {
                prg_bank: (((e >> 4u8) as nat) % bank_count(c0.prg_rom@.len(), 0x4000)) as u8,
                chr_bank: (((e & 0x0F) as nat) % bank_count(c0.chr_rom@.len(), 0x2000)) as u8,
                ..c0
            }
        } else {
            c0
        }
}

/// The state change of [`Cartridge::write_prg_mapper81`].
pub open spec fn write_prg_mapper81_post(c0: Cartridge, c1: Cartridge, addr: u16) -> bool {
    c1 == if addr >= 0x8000 {
            Cartridge { prg_bank: ((addr / 4) % 4) as u8, chr_bank: (addr % 4) as u8, ..c0 }
        } else {
            c0
        }
}

/// The state change of [`Cartridge::write_prg_mapper87`].
pub open spec fn write_prg_mapper87_post(c0: Cartridge, c1: Cartridge, addr: u16, data: u8) -> bool {
    c1 == if 0x6000 <= addr <= 0x7FFF {
            Cartridge { chr_bank: ((data & 0x01) << 1u8) | ((data & 0x02) >> 1u8), ..c0 }
        } else {
            c0
        }
}

/// The state change of [`Cartridge::write_prg_mapper97`].
pub open spec fn write_prg_mapper97_post(c0: Cartridge, c1: Cartridge, addr: u16, data: u8) -> bool {
    c1 == if addr >= 0x8000 {
            Cartridge {
                prg_bank: (((data & 0x1F) as nat) % bank_count(c0.prg_rom@.len(), 0x4000)) as u8,
                mirroring: if data & 0x80 != 0 { Mirroring::Vertical } else { Mirroring::Horizontal },
                ..c0
            }
        } else {
            c0
        }
}

/// The state change of [`Cartridge::write_prg_uxrom`].
pub open spec fn write_prg_uxrom_post(c0: Cartridge, c1: Cartridge, addr: u16, data: u8) -> bool {
    c1 == if addr >= 0x8000 {
            let len = c0.prg_rom@.len();
            let offset = if addr < 0xC000 {
                (c0.prg_bank as int) * 0x4000 + (addr - 0x8000)
            } else {
                len - 0x4000 + (addr - 0xC000)
            };
            let rom_value = if offset < len { c0.prg_rom@[offset] } else { 0xFFu8 };
            Cartridge { prg_bank: (data & rom_value) & 0x07, ..c0 }
        } else {
            c0
        }
}

/// What [`Cartridge::write_prg_uxrom`] needs.
pub open spec fn write_prg_uxrom_pre(c0: Cartridge, addr: u16, data: u8) -> bool {
    addr >= 0xC000 ==> c0.prg_rom@.len() >= 0x4000
}

/// The state change of [`Cartridge::write_prg_uxrom_inverted`].
pub open spec fn write_prg_uxrom_inverted_post(c0: Cartridge, c1: Cartridge, addr: u16, data: u8) -> bool {
    c1 == if addr >= 0x8000 {
            let len = c0.prg_rom@.len();
            let offset = if addr < 0xC000 {
                addr - 0x8000
            } else {
                (c0.prg_bank as int) * 0x4000 + (addr - 0xC000)
            };
            let rom_value = if offset < len { c0.prg_rom@[offset] } else { 0xFFu8 };
            Cartridge { prg_bank: (((data & rom_value) as nat) % bank_count(len, 0x4000)) as u8, ..c0 }
        } else {
            c0
        }
}


/// Law of UxROM: a CPU write only switches the 16 KiB bank at $8000 (to
/// one of eight); the last 16 KiB of the ROM stay fixed at $C000-$FFFF.
pub proof fn lemma_uxrom_upper_fixed(c0: Cartridge, c1: Cartridge, addr: u16, data: u8, a: u16)
    requires
        write_prg_uxrom_post(c0, c1, addr, data),
        a >= 0xC000,
    ensures
        read_prg_uxrom_value(c1, a, (a - 0x8000) as u16) == read_prg_uxrom_value(c0, a, (a - 0x8000) as u16),
        c0.prg_rom@.len() >= 0x4000 ==> read_prg_uxrom_value(c0, a, (a - 0x8000) as u16)
            == c0.prg_rom@[c0.prg_rom@.len() - 0x4000 + (a - 0xC000)],
        c1.prg_rom == c0.prg_rom,
        addr >= 0x8000 ==> c1.prg_bank < 8,
{
    if addr >= 0x8000 {
        let len = c0.prg_rom@.len();
        let offset = if addr < 0xC000 { (c0.prg_bank as int) * 0x4000 + (addr - 0x8000) } else { len - 0x4000 + (addr - 0xC000) };
        let rom_value = if offset < len { c0.prg_rom@[offset] } else { 0xFFu8 };
        lemma_u8_masks(data & rom_value);
    }
}

} // verus!

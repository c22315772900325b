//! NROM and the address-latch multicart boards built around it: plain
//! 16/32 KiB NROM, CPROM, and the mappers 58, 200-203, 212, 221, 225-231,
//! 233-235 and 242, whose bank numbers come from the written address (or
//! data) and select mirrored 16 KiB or paired 32 KiB PRG layouts.

use vstd::prelude::*;
use crate::cartridge::Mirroring;
use crate::cartridge::load::Cartridge;
use crate::cartridge::discrete::bank_count;
use crate::cartridge::latch_boards::bank_mod;
use crate::cartridge::multicart_latches::MulticartLatches;
use crate::bits::lemma_u16_masks;

verus! {

/// Position of a CPU address ($8000-$FFFF) inside its 16 KiB window.
pub open spec fn window16(addr: u16) -> int {
    ((addr - 0x8000) as int) % 0x4000
}

/// The PRG-ROM byte at `addr` when 16 KiB bank `bank` (modulo the 16 KiB
/// bank count) is mirrored into both CPU halves; positions wrap around
/// the ROM.
pub open spec fn prg16_byte(rom: Seq<u8>, bank: nat, addr: u16) -> u8 {
    rom[((bank % bank_count(rom.len(), 0x4000)) * 0x4000 + window16(addr)) % (rom.len() as int)]
}

/// The PRG-ROM byte at `addr` through 32 KiB bank `bank` (modulo the
/// 32 KiB bank count); positions wrap around the ROM.
pub open spec fn prg32_byte(rom: Seq<u8>, bank: nat, addr: u16) -> u8 {
    rom[((bank % bank_count(rom.len(), 0x8000)) * 0x8000 + (addr - 0x8000)) % (rom.len() as int)]
}

/// Mapper 227's outer 128 KiB bank: latch bit 8 above bits 5-6.
pub open spec fn mapper227_outer(latch: u16) -> u16 {
    (((latch >> 8u16) & 0x01) << 2u16) | ((latch >> 5u16) & 0x03)
}

/// Mapper 227's inner 16 KiB bank: latch bits 2-4.
pub open spec fn mapper227_inner(latch: u16) -> u16 {
    (latch >> 2u16) & 0x07
}

/// Mapper 227's 16 KiB bank at `addr`: in NROM mode (bit 7) the inner bank,
/// or the pair of it in 32 KiB mode (bit 0); in UNROM mode the inner bank
/// below $C000 and bank 0 or 7 (bit 9) of the outer bank above.
pub open spec fn mapper227_bank(latch: u16, addr: u16) -> int {
    let outer_base = (mapper227_outer(latch) as int) * 8;
    let inner = mapper227_inner(latch);
    let mode_32k = latch & 0x0001 != 0;
    let upper = addr >= 0xC000;
    if latch & 0x0080 != 0 {
        if mode_32k {
            outer_base + (inner & 0xFFFE) + (if upper { 1int } else { 0 })
        } else {
            outer_base + inner
        }
    } else if upper {
        outer_base + (if latch & 0x0200 != 0 { 7int } else { 0 })
    } else if mode_32k {
        outer_base + (inner & 0xFFFE)
    } else {
        outer_base + inner
    }
}

/// Mapper 221's 16 KiB bank at `addr`: mode 0 mirrors the inner bank, mode
/// 1 pairs it into 32 KiB, mode 2 is UNROM-like with bank 7 of the outer
/// bank above $C000.
pub open spec fn mapper221_bank(l: MulticartLatches, prg_bank: u8, addr: u16) -> int {
    let outer_base = (l.mapper221_outer_bank as int) * 8;
    let inner = prg_bank & 0x07;
    if l.mapper221_mode == 0 {
        outer_base + inner
    } else if l.mapper221_mode == 1 {
        outer_base + (inner & 0xFE) + (if addr >= 0xC000 { 1int } else { 0 })
    } else if addr >= 0xC000 {
        outer_base + 7
    } else {
        outer_base + inner
    }
}

/// Mapper 230's Contra-mode 16 KiB bank inside the first 128 KiB chip: the
/// latched bank (three bits) below $C000, the chip's last bank above.
pub open spec fn mapper230_contra_bank(len: nat, prg_bank: u8, addr: u16) -> int {
    let chip0: nat = if len < 0x20000 { len } else { 0x20000 };
    let count = bank_count(chip0, 0x4000);
    if addr < 0xC000 {
        ((prg_bank & 0x07) as nat % count) as int
    } else {
        count - 1
    }
}

/// Mapper 230's multicart-mode byte from the second chip (past the first
/// 128 KiB): the page mirrored or paired into 32 KiB; 0 without a second
/// chip.
pub open spec fn mapper230_multicart_byte(rom: Seq<u8>, prg_bank: u8, nrom128: bool, addr: u16) -> u8 {
    let len = rom.len();
    let base: nat = if len < 0x20000 { len } else { 0x20000 };
    let chip1 = (len - base) as nat;
    if chip1 == 0 {
        0
    } else {
        let count = bank_count(chip1, 0x4000);
        let page = prg_bank & 0x1F;
        let bank = if nrom128 {
            (page as nat) % count
        } else {
            (((page & 0xFE) | (if addr >= 0xC000 { 1u8 } else { 0u8 })) as nat) % count
        };
        rom[(base + bank * 0x4000 + window16(addr)) % (len as int)]
    }
}

/// Mapper 228's selected 512 KiB PRG chip: chips 0, 1 and 3 exist on a
/// three-chip (1.5 MiB) board, else chips below the chip count.
pub open spec fn mapper228_chip_base(len: nat, chip: u8) -> Option<nat> {
    let chip_count = len / 0x80000;
    if chip_count == 3 {
        if chip == 0 || chip == 1 {
            Some((chip as nat) * 0x80000)
        } else if chip == 3 {
            Some(0x100000)
        } else {
            None
        }
    } else if (chip as nat) < chip_count {
        Some((chip as nat) * 0x80000)
    } else {
        None
    }
}

/// Mapper 228's byte: the bank (mirrored or paired) inside the selected
/// chip; 0 for a missing chip or a position past the ROM.
pub open spec fn mapper228_byte(rom: Seq<u8>, l: MulticartLatches, prg_bank: u8, addr: u16) -> u8 {
    let len = rom.len();
    match mapper228_chip_base(len, l.mapper228_chip_select) {
        None => 0,
        Some(base) => {
            let remaining: nat = if len >= base { (len - base) as nat } else { 0 };
            let chip_len: nat = if remaining < 0x80000 { if remaining > 0x4000 { remaining } else { 0x4000 } } else { 0x80000 };
            let count = bank_count(chip_len, 0x4000);
            let bank = if l.mapper228_nrom128 {
                (prg_bank as nat) % count
            } else {
                (((prg_bank & 0xFE) | (if addr >= 0xC000 { 1u8 } else { 0u8 })) as nat) % count
            };
            let offset = base + bank * 0x4000 + window16(addr);
            if offset < len { rom[offset] } else { 0 }
        },
    }
}

/// Mapper 242's bank inside a 128 KiB outer bank: NROM mode (bit 7) uses
/// the inner bank (paired in 32 KiB mode, bit 0); UNROM mode fixes bank 0
/// or 7 (bit 9) above $C000.
pub open spec fn mapper242_select(reg: u16, upper: bool) -> int {
    let inner = (reg >> 2u16) & 0x07;
    if reg & 0x0080 != 0 {
        if reg & 0x0001 != 0 {
            ((inner & 0xFFFE) | (if upper { 1u16 } else { 0u16 })) as int
        } else {
            inner as int
        }
    } else if upper {
        if reg & 0x0200 != 0 { 7 } else { 0 }
    } else if reg & 0x0001 != 0 {
        (inner & 0xFFFE) as int
    } else {
        inner as int
    }
}

/// Mapper 242's byte: on ROMs above 512 KiB with latch bit 10 clear the
/// bank comes from the second half; otherwise latch bits 5-6 choose the
/// outer bank.
pub open spec fn mapper242_byte(rom: Seq<u8>, reg: u16, addr: u16) -> u8 {
    let len = rom.len();
    let sel = mapper242_select(reg, addr >= 0xC000);
    if len > 0x80000 && reg & 0x0400 == 0 {
        let count = bank_count((len - 0x80000) as nat, 0x4000);
        rom[(0x80000 + (sel % (count as int)) * 0x4000 + window16(addr)) % (len as int)]
    } else {
        prg16_byte(rom, ((((reg >> 5u16) & 0x03) as int) * 8 + sel) as nat, addr)
    }
}

/// Mapper 234's PRG (32 KiB) and CHR (8 KiB) bank numbers: in NINA mode
/// (register 0 bit 6) the outer bank (bits 1-3) with register 1 bit 0 and
/// bits 4-6; otherwise the outer bank (bits 0-3) with register 1 bits 4-5
/// for CHR.
pub open spec fn mapper234_banks(reg0: u8, reg1: u8) -> (u8, u8) {
    if reg0 & 0x40 != 0 {
        let outer = (reg0 >> 1u8) & 0x07;
        ((outer << 1u8) | (reg1 & 0x01), (outer << 3u8) | ((reg1 >> 4u8) & 0x07))
    } else {
        let outer = reg0 & 0x0F;
        (outer, (outer << 2u8) | ((reg1 >> 4u8) & 0x03))
    }
}

/// The cartridge after mapper 234's registers are applied: mirroring from
/// register 0 bit 7, banks from `mapper234_banks` modulo the bank counts.
pub open spec fn mapper234_synced(c: Cartridge) -> Cartridge {
    let banks = mapper234_banks(c.multicart.mapper234_reg0, c.multicart.mapper234_reg1);
    Cartridge {
        mirroring: if c.multicart.mapper234_reg0 & 0x80 != 0 { Mirroring::Horizontal } else { Mirroring::Vertical },
        prg_bank: bank_mod(banks.0, c.prg_rom@.len(), 0x8000),
        chr_bank: bank_mod(banks.1, c.chr_rom@.len(), 0x2000),
        ..c
    }
}

/// The cartridge after `value` reaches mapper 234 at `addr`: register 0 at
/// $FF80-$FF9F (only while its low six bits are clear, so it locks once
/// set), register 1 at $FFE8-$FFF7.
pub open spec fn mapper234_applied(c: Cartridge, addr: u16, value: u8) -> Cartridge {
    if 0xFF80 <= addr <= 0xFF9F {
        if c.multicart.mapper234_reg0 & 0x3F == 0 {
            mapper234_synced(Cartridge { multicart: MulticartLatches { mapper234_reg0: value, ..c.multicart }, ..c })
        } else {
            c
        }
    } else if 0xFFE8 <= addr <= 0xFFF7 {
        mapper234_synced(Cartridge { multicart: MulticartLatches { mapper234_reg1: value, ..c.multicart }, ..c })
    } else {
        c
    }
}

/// Mapper 235's 16 KiB bank from the write address: chip bit 9 (64
/// banks), page bits 0-4 (pairs), bit 12 the half.
pub open spec fn mapper235_bank16(addr: u16) -> int {
    ((((addr >> 8u16) & 0x03) >> 1u16) & 0x01) as int * 64 + ((addr & 0x001F) as int) * 2 + (if addr & 0x1000 != 0 { 1int } else { 0 })
}

/// Mapper 225 latch access: $5800-$5FFF on a mapper 225 board with its
/// latch memory.
pub open spec fn mapper225_latch_access(c: Cartridge, addr: u16) -> bool {
    0x5800 <= addr <= 0x5FFF && c.mapper == 225 && c.prg_ram@.len() > 0
}

impl Cartridge {
    /// A byte of 16 KiB bank `bank`, mirrored into both CPU halves.
    fn prg16_read(&self, bank: usize, addr: u16) -> (r: u8)
        requires
            addr >= 0x8000,
            self.prg_rom@.len() > 0,
        ensures
            r == prg16_byte(self.prg_rom@, bank as nat, addr),
    {
        let len = self.prg_rom.len();
        let count = if len / 0x4000 > 1 { len / 0x4000 } else { 1 };
        let b = bank % count;
        let offset: u128 = (b as u128) * 0x4000 + (((addr - 0x8000) % 0x4000) as u128);
        self.prg_rom[(offset % (len as u128)) as usize]
    }

    /// A byte of 32 KiB bank `bank`.
    pub(crate) fn prg32_read(&self, bank: usize, addr: u16) -> (r: u8)
        requires
            addr >= 0x8000,
            self.prg_rom@.len() > 0,
        ensures
            r == prg32_byte(self.prg_rom@, bank as nat, addr),
    {
        let len = self.prg_rom.len();
        let count = if len / 0x8000 > 1 { len / 0x8000 } else { 1 };
        let b = bank % count;
        let offset: u128 = (b as u128) * 0x8000 + ((addr - 0x8000) as u128);
        self.prg_rom[(offset % (len as u128)) as usize]
    }

    /// NROM (mappers 0/3/87): 16 KiB images are mirrored at $C000, 32 KiB
    /// images map directly; `rom_addr` is the offset from $8000.
    pub fn read_prg_nrom(&self, rom_addr: u16) -> (r: u8)
        requires
            read_prg_nrom_pre(*self, rom_addr),
        ensures
            r == read_prg_nrom_value(*self, rom_addr),
    {
        proof {
            lemma_u16_masks(rom_addr);
        }
        if self.prg_rom.len() == 16384 {
            self.prg_rom[(rom_addr & 0x3FFF) as usize]
        } else {
            self.prg_rom[(rom_addr & 0x7FFF) as usize]
        }
    }

    /// Mapper 200: the selected 16 KiB bank mirrored into both halves; 0
    /// without ROM.
    pub fn read_prg_mapper200(&self, addr: u16) -> (r: u8)
        requires
            read_prg_mapper200_pre(*self, addr),
        ensures
            r == read_prg_mapper200_value(*self, addr),
    {
        if self.prg_rom.len() == 0 {
            return 0;
        }
        self.prg16_read(self.prg_bank as usize, addr)
    }

    /// Mapper 229: the selected 16 KiB bank in both halves, except that
    /// bank 0 maps banks 0 and 1 like NROM-256 (when there are two banks).
    pub fn read_prg_mapper229(&self, addr: u16) -> (r: u8)
        requires
            read_prg_mapper229_pre(*self, addr),
        ensures
            r == read_prg_mapper229_value(*self, addr),
    {
        let len = self.prg_rom.len();
        if len == 0 {
            return 0;
        }
        let count = if len / 0x4000 > 1 { len / 0x4000 } else { 1 };
        let bank = (self.prg_bank as usize) % count;
        let selected = if bank == 0 && addr >= 0xC000 && count > 1 { 1 } else { bank };
        self.prg16_read(selected, addr)
    }

    /// Mapper 221: an outer bank of eight 16 KiB banks and an inner bank in
    /// one of three layouts (see `mapper221_bank`).
    pub fn read_prg_mapper221(&self, addr: u16) -> (r: u8)
        requires
            read_prg_mapper221_pre(*self, addr),
        ensures
            r == read_prg_mapper221_value(*self, addr),
    {
        if self.prg_rom.len() == 0 {
            return 0;
        }
        let outer_base = (self.multicart.mapper221_outer_bank as usize) * 8;
        let inner = self.prg_bank & 0x07;
        let bank = if self.multicart.mapper221_mode == 0 {
            outer_base + inner as usize
        } else if self.multicart.mapper221_mode == 1 {
            outer_base + (inner & 0xFE) as usize + if addr >= 0xC000 { 1 } else { 0 }
        } else if addr >= 0xC000 {
            outer_base + 7
        } else {
            outer_base + inner as usize
        };
        self.prg16_read(bank, addr)
    }

    /// Mapper 231: below $C000 the latched bank with bit 0 cleared, above
    /// it the latched bank itself.
    pub fn read_prg_mapper231(&self, addr: u16) -> (r: u8)
        requires
            read_prg_mapper231_pre(*self, addr),
        ensures
            r == read_prg_mapper231_value(*self, addr),
    {
        if self.prg_rom.len() == 0 {
            return 0;
        }
        let bank = if addr < 0xC000 { self.prg_bank & 0x1E } else { self.prg_bank };
        self.prg16_read(bank as usize, addr)
    }

    /// Mapper 233: the page mirrored (NROM-128 mode) or paired into 32 KiB;
    /// 0 without ROM or below $8000.
    pub fn read_prg_mapper233(&self, addr: u16) -> (r: u8)
        ensures
            r == read_prg_mapper233_value(*self, addr),
    {
        if self.prg_rom.len() == 0 || addr < 0x8000 {
            return 0;
        }
        let bank = if self.multicart.mapper233_nrom128 {
            self.prg_bank
        } else {
            (self.prg_bank & 0xFE) | if addr >= 0xC000 { 1u8 } else { 0u8 }
        };
        self.prg16_read(bank as usize, addr)
    }

    /// Mapper 227: the 16 KiB bank of `mapper227_bank` for the latch.
    pub fn read_prg_mapper227(&self, addr: u16) -> (r: u8)
        requires
            read_prg_mapper227_pre(*self, addr),
        ensures
            r == read_prg_mapper227_value(*self, addr),
    {
        if self.prg_rom.len() == 0 {
            return 0;
        }
        let latch = self.multicart.mapper227_latch;
        let outer_base = (((((latch >> 8) & 0x01) << 2) | ((latch >> 5) & 0x03)) as usize) * 8;
        let inner = (latch >> 2) & 0x07;
        let mode_32k = latch & 0x0001 != 0;
        let upper = addr >= 0xC000;
        let bank = if latch & 0x0080 != 0 {
            if mode_32k {
                outer_base + (inner & 0xFFFE) as usize + if upper { 1 } else { 0 }
            } else {
                outer_base + inner as usize
            }
        } else if upper {
            outer_base + if latch & 0x0200 != 0 { 7 } else { 0 }
        } else if mode_32k {
            outer_base + (inner & 0xFFFE) as usize
        } else {
            outer_base + inner as usize
        };
        self.prg16_read(bank, addr)
    }

    /// Mapper 212: a 32 KiB bank (half the latched bank) or the latched
    /// 16 KiB bank mirrored.
    pub fn read_prg_mapper212(&self, addr: u16) -> (r: u8)
        requires
            read_prg_mapper212_pre(*self, addr),
        ensures
            r == read_prg_mapper212_value(*self, addr),
    {
        if self.prg_rom.len() == 0 {
            return 0;
        }
        if self.multicart.mapper212_32k_mode {
            self.prg32_read((self.prg_bank >> 1) as usize, addr)
        } else {
            self.prg16_read(self.prg_bank as usize, addr)
        }
    }

    /// Mapper 226: the latched 16 KiB bank mirrored (NROM-128 mode) or the
    /// 32 KiB bank holding it.
    pub fn read_prg_mapper226(&self, addr: u16) -> (r: u8)
        requires
            read_prg_mapper226_pre(*self, addr),
        ensures
            r == read_prg_mapper226_value(*self, addr),
    {
        if self.prg_rom.len() == 0 {
            return 0;
        }
        if self.multicart.mapper226_nrom128 {
            self.prg16_read(self.prg_bank as usize, addr)
        } else {
            self.prg32_read((self.prg_bank >> 1) as usize, addr)
        }
    }

    /// Mappers 225/255: as mapper 226, with their own layout latch.
    pub fn read_prg_mapper225(&self, addr: u16) -> (r: u8)
        requires
            read_prg_mapper225_pre(*self, addr),
        ensures
            r == read_prg_mapper225_value(*self, addr),
    {
        if self.prg_rom.len() == 0 {
            return 0;
        }
        if self.multicart.mapper225_nrom128 {
            self.prg16_read(self.prg_bank as usize, addr)
        } else {
            self.prg32_read((self.prg_bank >> 1) as usize, addr)
        }
    }

    /// Mapper 235: as mapper 226; an empty socket (bank $FF) and a missing
    /// ROM read as open bus $FF.
    pub fn read_prg_mapper235(&self, addr: u16) -> (r: u8)
        requires
            read_prg_mapper235_pre(*self, addr),
        ensures
            r == read_prg_mapper235_value(*self, addr),
    {
        if self.prg_rom.len() == 0 || self.prg_bank == 0xFF {
            return 0xFF;
        }
        if self.multicart.mapper235_nrom128 {
            self.prg16_read(self.prg_bank as usize, addr)
        } else {
            self.prg32_read((self.prg_bank >> 1) as usize, addr)
        }
    }

    /// Mapper 202: the latched bank as a 32 KiB bank or a mirrored 16 KiB
    /// bank.
    pub fn read_prg_mapper202(&self, addr: u16) -> (r: u8)
        requires
            read_prg_mapper202_pre(*self, addr),
        ensures
            r == read_prg_mapper202_value(*self, addr),
    {
        if self.prg_rom.len() == 0 {
            return 0;
        }
        if self.multicart.mapper202_32k_mode {
            self.prg32_read(self.prg_bank as usize, addr)
        } else {
            self.prg16_read(self.prg_bank as usize, addr)
        }
    }

    /// Mapper 234: the current 32 KiB bank.
    pub fn read_prg_mapper234(&self, addr: u16) -> (r: u8)
        requires
            read_prg_mapper234_pre(*self, addr),
        ensures
            r == read_prg_mapper234_value(*self, addr),
    {
        self.read_prg_axrom(addr)
    }
    /// Mapper 230: in Contra mode the bank of `mapper230_contra_bank` in
    /// the first chip, else `mapper230_multicart_byte`; 0 without ROM or
    /// below $8000.
    pub fn read_prg_mapper230(&self, addr: u16) -> (r: u8)
        requires
            read_prg_mapper230_pre(*self, addr),
        ensures
            r == read_prg_mapper230_value(*self, addr),
    {
        let len = self.prg_rom.len();
        if len == 0 || addr < 0x8000 {
            return 0;
        }
        let offset_in_bank = ((addr - 0x8000) % 0x4000) as usize;
        if self.mapper230_contra_mode {
            let chip0_len = if len < 0x20000 { len } else { 0x20000 };
            let count = if chip0_len / 0x4000 > 1 { chip0_len / 0x4000 } else { 1 };
            let bank = if addr < 0xC000 { ((self.prg_bank & 0x07) as usize) % count } else { count - 1 };
            return self.prg_rom[bank * 0x4000 + offset_in_bank];
        }
        let chip_base = if len < 0x20000 { len } else { 0x20000 };
        let chip1_len = len - chip_base;
        if chip1_len == 0 {
            return 0;
        }
        let count = if chip1_len / 0x4000 > 1 { chip1_len / 0x4000 } else { 1 };
        let page = self.prg_bank & 0x1F;
        let bank = if self.multicart.mapper230_nrom128 {
            (page as usize) % count
        } else {
            (((page & 0xFE) | if addr >= 0xC000 { 1u8 } else { 0u8 }) as usize) % count
        };
        let offset: u128 = (chip_base as u128) + (bank as u128) * 0x4000 + (offset_in_bank as u128);
        self.prg_rom[(offset % (len as u128)) as usize]
    }

    /// Mapper 228's chip base (see `mapper228_chip_base`).
    fn mapper228_chip_base(&self) -> (r: Option<usize>)
        ensures
            r.is_some() == mapper228_chip_base(self.prg_rom@.len(), self.multicart.mapper228_chip_select).is_some(),
            r matches Some(b) ==> mapper228_chip_base(self.prg_rom@.len(), self.multicart.mapper228_chip_select) == Some(b as nat),
    {
        let chip = self.multicart.mapper228_chip_select as usize;
        let chip_count = self.prg_rom.len() / 0x80000;
        if chip_count == 3 {
            if chip == 0 || chip == 1 {
                Some(chip * 0x80000)
            } else if chip == 3 {
                Some(0x100000)
            } else {
                None
            }
        } else if chip < chip_count {
            Some(chip * 0x80000)
        } else {
            None
        }
    }

    /// Mapper 228 (Action 52): see `mapper228_byte`.
    pub fn read_prg_mapper228(&self, addr: u16) -> (r: u8)
        requires
            read_prg_mapper228_pre(*self, addr),
        ensures
            r == read_prg_mapper228_value(*self, addr),
    {
        let chip_base = match self.mapper228_chip_base() {
            Some(b) => b,
            None => {
                return 0;
            },
        };
        let len = self.prg_rom.len();
        let remaining = if len >= chip_base { len - chip_base } else { 0 };
        let chip_len = if remaining < 0x80000 { if remaining > 0x4000 { remaining } else { 0x4000 } } else { 0x80000 };
        let count = if chip_len / 0x4000 > 1 { chip_len / 0x4000 } else { 1 };
        let offset_in_bank = ((addr - 0x8000) % 0x4000) as u128;
        let bank = if self.multicart.mapper228_nrom128 {
            (self.prg_bank as usize) % count
        } else {
            (((self.prg_bank & 0xFE) | if addr >= 0xC000 { 1u8 } else { 0u8 }) as usize) % count
        };
        let offset: u128 = (chip_base as u128) + (bank as u128) * 0x4000 + offset_in_bank;
        if offset < len as u128 {
            self.prg_rom[offset as usize]
        } else {
            0
        }
    }

    /// Mapper 242 (Waixing): see `mapper242_byte`; 0 without ROM.
    pub fn read_prg_mapper242(&self, addr: u16) -> (r: u8)
        requires
            read_prg_mapper242_pre(*self, addr),
        ensures
            r == read_prg_mapper242_value(*self, addr),
    {
        let len = self.prg_rom.len();
        if len == 0 {
            return 0;
        }
        let reg = self.multicart.mapper242_latch;
        let upper = addr >= 0xC000;
        let inner = (reg >> 2) & 0x07;
        let sel: u16 = if reg & 0x0080 != 0 {
            if reg & 0x0001 != 0 { (inner & 0xFFFE) | if upper { 1u16 } else { 0u16 } } else { inner }
        } else if upper {
            if reg & 0x0200 != 0 { 7 } else { 0 }
        } else if reg & 0x0001 != 0 {
            inner & 0xFFFE
        } else {
            inner
        };
        if len > 0x80000 && reg & 0x0400 == 0 {
            let rest = len - 0x80000;
            let count = if rest / 0x4000 > 1 { rest / 0x4000 } else { 1 };
            let bank = (sel as usize) % count;
            let offset: u128 = 0x80000 + (bank as u128) * 0x4000 + (((addr - 0x8000) % 0x4000) as u128);
            self.prg_rom[(offset % (len as u128)) as usize]
        } else {
            let bank16 = (((reg >> 5) & 0x03) as usize) * 8 + sel as usize;
            self.prg16_read(bank16, addr)
        }
    }

    /// NROM pattern read: 8 KiB of CHR memory; 0 past the end.
    pub fn read_chr_nrom(&self, addr: u16) -> (r: u8)
        ensures
            r == read_chr_nrom_value(*self, addr),
    {
        proof {
            lemma_u16_masks(addr);
        }
        let a = (addr & 0x1FFF) as usize;
        if a < self.chr_rom.len() {
            self.chr_rom[a]
        } else {
            0
        }
    }

    /// NROM pattern write (where the CHR memory is RAM).
    pub fn write_chr_nrom(&mut self, addr: u16, data: u8)
        ensures
            write_chr_nrom_post(*old(self), *final(self), addr, data),
    {
        proof {
            lemma_u16_masks(addr);
        }
        let a = (addr & 0x1FFF) as usize;
        if a < self.chr_rom.len() {
            self.chr_rom.set(a, data);
        }
    }

    /// Mapper 221 pattern read from its 8 KiB CHR-RAM; 0 past the end.
    pub fn read_chr_mapper221(&self, addr: u16) -> (r: u8)
        ensures
            r == read_chr_mapper221_value(*self, addr),
    {
        proof {
            lemma_u16_masks(addr);
        }
        let a = (addr & 0x1FFF) as usize;
        if a < self.chr_ram.len() {
            self.chr_ram[a]
        } else {
            0
        }
    }

    /// Mapper 221 pattern write, ignored while CHR-RAM is write-protected.
    pub fn write_chr_mapper221(&mut self, addr: u16, data: u8)
        ensures
            write_chr_mapper221_post(*old(self), *final(self), addr, data),
    {
        if self.multicart.mapper221_chr_write_protect {
            return;
        }
        proof {
            lemma_u16_masks(addr);
        }
        let a = (addr & 0x1FFF) as usize;
        if a < self.chr_ram.len() {
            self.chr_ram.set(a, data);
        }
    }

    /// Mapper 231 pattern read from its 8 KiB CHR-RAM; 0 past the end.
    pub fn read_chr_mapper231(&self, addr: u16) -> (r: u8)
        ensures
            r == read_chr_mapper231_value(*self, addr),
    {
        proof {
            lemma_u16_masks(addr);
        }
        let a = (addr & 0x1FFF) as usize;
        if a < self.chr_ram.len() {
            self.chr_ram[a]
        } else {
            0
        }
    }

    /// Mapper 231 pattern write into its CHR-RAM.
    pub fn write_chr_mapper231(&mut self, addr: u16, data: u8)
        ensures
            write_chr_mapper231_post(*old(self), *final(self), addr, data),
    {
        proof {
            lemma_u16_masks(addr);
        }
        let a = (addr & 0x1FFF) as usize;
        if a < self.chr_ram.len() {
            self.chr_ram.set(a, data);
        }
    }
    /// Mapper 234: applies both registers to mirroring and the banks.
    pub fn sync_mapper234_state(&mut self)
        ensures
            *final(self) == mapper234_synced(*old(self)),
    {
        let reg0 = self.multicart.mapper234_reg0;
        let reg1 = self.multicart.mapper234_reg1;
        self.mirroring = if reg0 & 0x80 != 0 { Mirroring::Horizontal } else { Mirroring::Vertical };
        let (prg, chr) = if reg0 & 0x40 != 0 {
            let outer = (reg0 >> 1) & 0x07;
            ((outer << 1) | (reg1 & 0x01), (outer << 3) | ((reg1 >> 4) & 0x07))
        } else {
            let outer = reg0 & 0x0F;
            (outer, (outer << 2) | ((reg1 >> 4) & 0x03))
        };
        self.prg_bank = Self::reduce_bank(prg, self.prg_rom.len(), 0x8000);
        self.chr_bank = Self::reduce_bank(chr, self.chr_rom.len(), 0x2000);
    }

    /// Mapper 234: a value seen on the bus at `addr` (see
    /// `mapper234_applied`).
    pub fn apply_mapper234_value(&mut self, addr: u16, value: u8)
        ensures
            *final(self) == mapper234_applied(*old(self), addr, value),
    {
        if 0xFF80 <= addr && addr <= 0xFF9F {
            if self.multicart.mapper234_reg0 & 0x3F == 0 {
                let latches = MulticartLatches { mapper234_reg0: value, ..self.multicart };
                self.multicart = latches;
                self.sync_mapper234_state();
            }
        } else if 0xFFE8 <= addr && addr <= 0xFFF7 {
            let latches = MulticartLatches { mapper234_reg1: value, ..self.multicart };
            self.multicart = latches;
            self.sync_mapper234_state();
        }
    }

    /// Mapper 234: a write conflicts with the ROM, so the register sees the
    /// written value ANDed with the byte of the current 32 KiB bank.
    pub fn write_prg_mapper234(&mut self, addr: u16, data: u8)
        requires
            write_prg_mapper234_pre(*old(self), addr, data),
        ensures
            write_prg_mapper234_post(*old(self), *final(self), addr, data),
    {
        if addr >= 0x8000 {
            let effective = data & self.read_prg_mapper234(addr);
            self.apply_mapper234_value(addr, effective);
        }
    }

    /// CPROM (mapper 13): the written value ANDed with the ROM byte at the
    /// address ($FF without ROM) selects the upper 4 KiB CHR page.
    pub fn write_prg_cprom(&mut self, addr: u16, data: u8)
        ensures
            write_prg_cprom_post(*old(self), *final(self), addr, data),
    {
        if addr >= 0x8000 {
            let len = self.prg_rom.len();
            let rom_value = if len == 0 { 0xFF } else { self.prg_rom[((addr - 0x8000) as usize) % len] };
            self.chr_bank = (data & rom_value) & 0x03;
        }
    }

    /// CPROM pattern read: the first 4 KiB fixed, the upper 4 KiB the
    /// selected page; positions wrap around CHR memory; 0 without it.
    pub fn read_chr_cprom(&self, addr: u16) -> (r: u8)
        ensures
            r == read_chr_cprom_value(*self, addr),
    {
        let len = self.chr_rom.len();
        if len == 0 {
            return 0;
        }
        let count = if len / 0x1000 > 1 { len / 0x1000 } else { 1 };
        let bank = if addr < 0x1000 { 0 } else { (self.chr_bank as usize) % count };
        let offset = if addr < 0x1000 { addr } else { addr - 0x1000 };
        let position: u128 = (bank as u128) * 0x1000 + (offset as u128);
        self.chr_rom[(position % (len as u128)) as usize]
    }

    /// CPROM pattern write at the same position.
    pub fn write_chr_cprom(&mut self, addr: u16, data: u8)
        ensures
            write_chr_cprom_post(*old(self), *final(self), addr, data),
    {
        let len = self.chr_rom.len();
        if len == 0 {
            return;
        }
        let count = if len / 0x1000 > 1 { len / 0x1000 } else { 1 };
        let bank = if addr < 0x1000 { 0 } else { (self.chr_bank as usize) % count };
        let offset = if addr < 0x1000 { addr } else { addr - 0x1000 };
        let position: u128 = (bank as u128) * 0x1000 + (offset as u128);
        self.chr_rom.set((position % (len as u128)) as usize, data);
    }

    /// Mapper 200: address bits 0-3 select the 16 KiB PRG bank and the
    /// 8 KiB CHR bank, bit 3 horizontal mirroring.
    pub fn write_prg_mapper200(&mut self, addr: u16)
        ensures
            write_prg_mapper200_post(*old(self), *final(self), addr),
    {
        if addr >= 0x8000 {
            let bank = (addr & 0x000F) as u8;
            self.prg_bank = Self::reduce_bank(bank, self.prg_rom.len(), 0x4000);
            self.chr_bank = Self::reduce_bank(bank, self.chr_rom.len(), 0x2000);
            self.mirroring = if addr & 0x0008 != 0 { Mirroring::Horizontal } else { Mirroring::Vertical };
        }
    }

    /// Mapper 201: the address's low byte selects the 32 KiB PRG bank and
    /// the 8 KiB CHR bank.
    pub fn write_prg_mapper201(&mut self, addr: u16)
        ensures
            write_prg_mapper201_post(*old(self), *final(self), addr),
    {
        if addr >= 0x8000 {
            let bank = (addr & 0x00FF) as u8;
            self.prg_bank = Self::reduce_bank(bank, self.prg_rom.len(), 0x8000);
            self.chr_bank = Self::reduce_bank(bank, self.chr_rom.len(), 0x2000);
        }
    }

    /// Mapper 203: data bits 2-7 the mirrored 16 KiB PRG bank, bits 0-1 the
    /// 8 KiB CHR bank.
    pub fn write_prg_mapper203(&mut self, addr: u16, data: u8)
        ensures
            write_prg_mapper203_post(*old(self), *final(self), addr, data),
    {
        if addr >= 0x8000 {
            self.prg_bank = Self::reduce_bank(data >> 2, self.prg_rom.len(), 0x4000);
            self.chr_bank = Self::reduce_bank(data & 0x03, self.chr_rom.len(), 0x2000);
        }
    }

    /// Mapper 227: latches address bits 0-10; bit 1 horizontal mirroring;
    /// the PRG bank register records outer * 8 + inner.
    #[verifier::rlimit(60)]
    pub fn write_prg_mapper227(&mut self, addr: u16)
        ensures
            write_prg_mapper227_post(*old(self), *final(self), addr),
    {
        if addr >= 0x8000 {
            let latch = addr & 0x07FF;
            self.multicart.mapper227_latch = latch;
            self.mirroring = if addr & 0x0002 != 0 { Mirroring::Horizontal } else { Mirroring::Vertical };
            let outer = (((latch >> 8) & 0x01) << 2) | ((latch >> 5) & 0x03);
            let inner = (latch >> 2) & 0x07;
            self.prg_bank = ((outer as usize) * 8 + inner as usize) as u8;
        }
    }

    /// Mapper 227 pattern write, refused in NROM mode (latch bit 7) on
    /// boards without a battery.
    pub fn write_chr_mapper227(&mut self, addr: u16, data: u8)
        ensures
            write_chr_mapper227_post(*old(self), *final(self), addr, data),
    {
        let write_protected = !self.has_battery && self.multicart.mapper227_latch & 0x0080 != 0;
        if !write_protected {
            self.write_chr_uxrom(addr, data);
        }
    }

    /// Mapper 235: the address selects the bank (`mapper235_bank16`), the
    /// layout (bit 11: mirrored 16 KiB) and the nametables (bit 10: one
    /// screen, else bit 13: vertical); an odd chip or a bank past the ROM
    /// leaves an empty socket ($FF).
    pub fn write_prg_mapper235(&mut self, addr: u16, _data: u8)
        ensures
            write_prg_mapper235_post(*old(self), *final(self), addr, _data),
    {
        self.write_prg_mapper235_inner(addr);
    }

    #[verifier::rlimit(60)]
    fn write_prg_mapper235_inner(&mut self, addr: u16)
        ensures
            *final(self) == if addr >= 0x8000 {
                Cartridge {
                    multicart: MulticartLatches { mapper235_nrom128: addr & 0x0800 != 0, ..old(self).multicart },
                    mirroring: if addr & 0x0400 != 0 {
                        Mirroring::OneScreenLower
                    } else if addr & 0x2000 != 0 {
                        Mirroring::Vertical
                    } else {
                        Mirroring::Horizontal
                    },
                    prg_bank: if ((addr >> 8u16) & 0x03) & 0x01 != 0 || mapper235_bank16(addr) >= bank_count(old(self).prg_rom@.len(), 0x4000) {
                        0xFF
                    } else {
                        mapper235_bank16(addr) as u8
                    },
                    ..*old(self)
                }
            } else {
                *old(self)
            },
    {
        if addr >= 0x8000 {
            let chip_bits = (addr >> 8) & 0x03;
            let chip_base = (((chip_bits >> 1) & 0x01) as usize) * 64;
            let bank16 = chip_base + ((addr & 0x001F) as usize) * 2 + if addr & 0x1000 != 0 { 1 } else { 0 };
            let len = self.prg_rom.len();
            let count = if len / 0x4000 > 1 { len / 0x4000 } else { 1 };
            self.multicart.mapper235_nrom128 = addr & 0x0800 != 0;
            self.mirroring = if addr & 0x0400 != 0 {
                Mirroring::OneScreenLower
            } else if addr & 0x2000 != 0 {
                Mirroring::Vertical
            } else {
                Mirroring::Horizontal
            };
            self.prg_bank = if chip_bits & 0x01 != 0 || bank16 >= count { 0xFF } else { bank16 as u8 };
        }
    }

    /// Mapper 225: its four 4-bit latches at $5800-$5FFF (low nibble of the
    /// entry picked by address bits 0-1); 0 elsewhere.
    pub fn read_prg_low_mapper225(&self, addr: u16) -> (r: u8)
        requires
            0x5800 <= addr <= 0x5FFF && self.prg_ram@.len() > 0 ==> addr % 4 < self.prg_ram@.len(),
        ensures
            r == if 0x5800 <= addr <= 0x5FFF && self.prg_ram@.len() > 0 {
                self.prg_ram@[(addr % 4) as int] & 0x0F
            } else {
                0
            },
    {
        proof {
            lemma_u16_masks(addr);
        }
        if 0x5800 <= addr && addr <= 0x5FFF && self.prg_ram.len() > 0 {
            self.prg_ram[(addr & 0x0003) as usize] & 0x0F
        } else {
            0
        }
    }

    /// Mappers 225/255: a mapper 225 latch write at $5800-$5FFF keeps the
    /// low nibble; at $8000+ the address gives the PRG bank (bits 6-11),
    /// the CHR bank (bits 0-5), both with bit 14 as their high bit, the
    /// layout (bit 12: mirrored 16 KiB) and horizontal mirroring (bit 13).
    pub fn write_prg_mapper225(&mut self, addr: u16, data: u8)
        requires
            write_prg_mapper225_pre(*old(self), addr, data),
        ensures
            write_prg_mapper225_post(*old(self), *final(self), addr, data),
    {
        self.write_prg_mapper225_inner(addr, data);
    }

    #[verifier::rlimit(60)]
    fn write_prg_mapper225_inner(&mut self, addr: u16, data: u8)
        requires
            mapper225_latch_access(*old(self), addr) ==> addr % 4 < old(self).prg_ram@.len(),
        ensures
            final(self).prg_ram@ == if mapper225_latch_access(*old(self), addr) {
                old(self).prg_ram@.update((addr % 4) as int, data & 0x0F)
            } else {
                old(self).prg_ram@
            },
            *final(self) == if mapper225_latch_access(*old(self), addr) {
                Cartridge { prg_ram: final(self).prg_ram, ..*old(self) }
            } else if addr >= 0x8000 {
                let high: u16 = if addr & 0x4000 != 0 { 0x40 } else { 0 };
                Cartridge {
                    prg_bank: bank_mod((((addr >> 6u16) & 0x3F) | high) as u8, old(self).prg_rom@.len(), 0x4000),
                    chr_bank: bank_mod(((addr & 0x3F) | high) as u8, old(self).chr_rom@.len(), 0x2000),
                    multicart: MulticartLatches { mapper225_nrom128: addr & 0x1000 != 0, ..old(self).multicart },
                    mirroring: if addr & 0x2000 != 0 { Mirroring::Horizontal } else { Mirroring::Vertical },
                    ..*old(self)
                }
            } else {
                *old(self)
            },
    {
        if 0x5800 <= addr && addr <= 0x5FFF && self.mapper == 225 && self.prg_ram.len() > 0 {
            proof {
                lemma_u16_masks(addr);
            }
            self.prg_ram.set((addr & 0x0003) as usize, data & 0x0F);
            return;
        }
        if addr >= 0x8000 {
            let high: u16 = if addr & 0x4000 != 0 { 0x40 } else { 0 };
            self.prg_bank = Self::reduce_bank((((addr >> 6) & 0x3F) | high) as u8, self.prg_rom.len(), 0x4000);
            self.chr_bank = Self::reduce_bank(((addr & 0x3F) | high) as u8, self.chr_rom.len(), 0x2000);
            self.multicart.mapper225_nrom128 = addr & 0x1000 != 0;
            self.mirroring = if addr & 0x2000 != 0 { Mirroring::Horizontal } else { Mirroring::Vertical };
        }
    }

    /// Mapper 202: address bits 1-3 the bank (16 KiB PRG, 8 KiB CHR), bit 0
    /// horizontal mirroring; bits 0 and 3 together select 32 KiB mode.
    pub fn write_prg_mapper202(&mut self, addr: u16)
        ensures
            write_prg_mapper202_post(*old(self), *final(self), addr),
    {
        if addr >= 0x8000 {
            let bank = ((addr >> 1) & 0x07) as u8;
            self.prg_bank = Self::reduce_bank(bank, self.prg_rom.len(), 0x4000);
            self.chr_bank = Self::reduce_bank(bank, self.chr_rom.len(), 0x2000);
            self.mirroring = if addr & 0x0001 != 0 { Mirroring::Horizontal } else { Mirroring::Vertical };
            self.multicart.mapper202_32k_mode = addr & 0x0009 == 0x0009;
        }
    }

    /// Mapper 228: address bits 11-12 the chip, bits 6-10 the PRG bank,
    /// bit 5 the mirrored layout, bits 0-3 with data bits 0-1 the CHR bank,
    /// bit 13 horizontal mirroring.
    pub fn write_prg_mapper228(&mut self, addr: u16, data: u8)
        ensures
            write_prg_mapper228_post(*old(self), *final(self), addr, data),
    {
        self.write_prg_mapper228_inner(addr, data);
    }

    #[verifier::rlimit(60)]
    fn write_prg_mapper228_inner(&mut self, addr: u16, data: u8)
        ensures
            *final(self) == if addr >= 0x8000 {
                Cartridge {
                    multicart: MulticartLatches {
                        mapper228_chip_select: ((addr >> 11u16) & 0x03) as u8,
                        mapper228_nrom128: addr & 0x0020 != 0,
                        ..old(self).multicart
                    },
                    prg_bank: ((addr >> 6u16) & 0x1F) as u8,
                    chr_bank: bank_mod((((addr & 0x000F) << 2u16) | ((data & 0x03) as u16)) as u8, old(self).chr_rom@.len(), 0x2000),
                    mirroring: if addr & 0x2000 != 0 { Mirroring::Horizontal } else { Mirroring::Vertical },
                    ..*old(self)
                }
            } else {
                *old(self)
            },
    {
        if addr >= 0x8000 {
            self.multicart.mapper228_chip_select = ((addr >> 11) & 0x03) as u8;
            self.prg_bank = ((addr >> 6) & 0x1F) as u8;
            self.multicart.mapper228_nrom128 = addr & 0x0020 != 0;
            self.chr_bank = Self::reduce_bank((((addr & 0x000F) << 2) | ((data & 0x03) as u16)) as u8, self.chr_rom.len(), 0x2000);
            self.mirroring = if addr & 0x2000 != 0 { Mirroring::Horizontal } else { Mirroring::Vertical };
        }
    }

    /// Mapper 229: address bits 0-4 the shared PRG/CHR bank, bit 5
    /// horizontal mirroring.
    pub fn write_prg_mapper229(&mut self, addr: u16)
        ensures
            write_prg_mapper229_post(*old(self), *final(self), addr),
    {
        if addr >= 0x8000 {
            let bank = (addr & 0x001F) as u8;
            self.prg_bank = Self::reduce_bank(bank, self.prg_rom.len(), 0x4000);
            self.chr_bank = Self::reduce_bank(bank, self.chr_rom.len(), 0x2000);
            self.mirroring = if addr & 0x0020 != 0 { Mirroring::Horizontal } else { Mirroring::Vertical };
        }
    }

    /// Mapper 221: at $8000-$BFFF the address sets the outer bank (bits 2-4
    /// and 9), the layout (bit 1 clear: 0; bit 8 clear: 1; else 2) and
    /// horizontal mirroring (bit 0); at $C000+ the inner bank (bits 0-2)
    /// and the CHR-RAM write protection (bit 3).
    #[verifier::rlimit(60)]
    pub fn write_prg_mapper221(&mut self, addr: u16)
        ensures
            write_prg_mapper221_post(*old(self), *final(self), addr),
    {
        if 0x8000 <= addr && addr <= 0xBFFF {
            self.multicart.mapper221_outer_bank = (((addr >> 2) & 0x07) | (((addr >> 9) & 0x01) << 3)) as u8;
            self.multicart.mapper221_mode = if addr & 0x0002 == 0 { 0 } else if addr & 0x0100 == 0 { 1 } else { 2 };
            self.mirroring = if addr & 0x0001 != 0 { Mirroring::Horizontal } else { Mirroring::Vertical };
        } else if addr >= 0xC000 {
            self.prg_bank = (addr & 0x0007) as u8;
            self.multicart.mapper221_chr_write_protect = addr & 0x0008 != 0;
        }
    }

    /// Mapper 231: address bits 1-4 with bit 5 as the low bit give the PRG
    /// bank; bit 7 horizontal mirroring.
    pub fn write_prg_mapper231(&mut self, addr: u16)
        ensures
            write_prg_mapper231_post(*old(self), *final(self), addr),
    {
        if addr >= 0x8000 {
            self.prg_bank = ((addr & 0x001E) | ((addr >> 5) & 0x01)) as u8;
            self.mirroring = if addr & 0x0080 != 0 { Mirroring::Horizontal } else { Mirroring::Vertical };
        }
    }

    /// Mapper 212: address bits 0-2 the shared bank, bit 3 horizontal
    /// mirroring, bit 14 32 KiB mode.
    pub fn write_prg_mapper212(&mut self, addr: u16)
        ensures
            write_prg_mapper212_post(*old(self), *final(self), addr),
    {
        if addr >= 0x8000 {
            let bank = (addr & 0x0007) as u8;
            self.chr_bank = Self::reduce_bank(bank, self.chr_rom.len(), 0x2000);
            self.prg_bank = Self::reduce_bank(bank, self.prg_rom.len(), 0x4000);
            self.mirroring = if addr & 0x0008 != 0 { Mirroring::Horizontal } else { Mirroring::Vertical };
            self.multicart.mapper212_32k_mode = addr & 0x4000 != 0;
        }
    }

    /// Mapper 242: latches address bits 0-10; bit 1 horizontal mirroring.
    #[verifier::rlimit(60)]
    pub fn write_prg_mapper242(&mut self, addr: u16)
        ensures
            write_prg_mapper242_post(*old(self), *final(self), addr),
    {
        if addr >= 0x8000 {
            self.multicart.mapper242_latch = addr & 0x07FF;
            self.mirroring = if addr & 0x0002 != 0 { Mirroring::Horizontal } else { Mirroring::Vertical };
        }
    }

    /// Mapper 242 pattern write, refused in NROM mode (latch bit 7).
    pub fn write_chr_mapper242(&mut self, addr: u16, data: u8)
        ensures
            write_chr_mapper242_post(*old(self), *final(self), addr, data),
    {
        if self.multicart.mapper242_latch & 0x0080 == 0 {
            self.write_chr_nrom(addr, data);
        }
    }

    /// Mapper 226: an even address sets the low PRG bits (data bits 0-4
    /// and 7), the layout (bit 5: mirrored 16 KiB) and mirroring (bit 6:
    /// vertical); an odd address the high PRG bit (data bit 0); the bank is
    /// kept modulo the 16 KiB bank count.
    pub fn write_prg_mapper226(&mut self, addr: u16, data: u8)
        ensures
            write_prg_mapper226_post(*old(self), *final(self), addr, data),
    {
        if addr >= 0x8000 {
            if addr & 0x0001 == 0 {
                let low_bits = (data & 0x1F) | ((data >> 7) << 5);
                let high_bit = self.prg_bank & 0x40;
                self.prg_bank = Self::reduce_bank(high_bit | low_bits, self.prg_rom.len(), 0x4000);
                self.multicart.mapper226_nrom128 = data & 0x20 != 0;
                self.mirroring = if data & 0x40 != 0 { Mirroring::Vertical } else { Mirroring::Horizontal };
            } else {
                let low_bits = self.prg_bank & 0x3F;
                let high_bit = (data & 0x01) << 6;
                self.prg_bank = Self::reduce_bank(high_bit | low_bits, self.prg_rom.len(), 0x4000);
            }
        }
    }

    /// Mapper 230: in Contra mode data bits 0-2 the bank with vertical
    /// mirroring; otherwise bits 0-4 the page, bit 5 the mirrored layout,
    /// bit 6 vertical mirroring.
    pub fn write_prg_mapper230(&mut self, addr: u16, data: u8)
        ensures
            write_prg_mapper230_post(*old(self), *final(self), addr, data),
    {
        if addr < 0x8000 {
            return;
        }
        if self.mapper230_contra_mode {
            self.prg_bank = data & 0x07;
            self.mirroring = Mirroring::Vertical;
            return;
        }
        self.prg_bank = data & 0x1F;
        self.multicart.mapper230_nrom128 = data & 0x20 != 0;
        self.mirroring = if data & 0x40 != 0 { Mirroring::Vertical } else { Mirroring::Horizontal };
    }
    /// Mapper 58: the latched 16 KiB bank mirrored (NROM-128 mode) or the
    /// 32 KiB bank holding it.
    pub fn read_prg_mapper58(&self, addr: u16) -> (r: u8)
        requires
            read_prg_mapper58_pre(*self, addr),
        ensures
            r == read_prg_mapper58_value(*self, addr),
    {
        if self.multicart.mapper58_nrom128 {
            self.prg16_read(self.prg_bank as usize, addr)
        } else {
            self.prg32_read((self.prg_bank >> 1) as usize, addr)
        }
    }

    /// Mapper 58: address bits 0-2 the 16 KiB PRG bank, bits 3-5 the 8 KiB
    /// CHR bank, bit 6 NROM-128 mode, bit 7 horizontal mirroring.
    #[verifier::rlimit(60)]
    pub fn write_prg_mapper58(&mut self, addr: u16)
        ensures
            write_prg_mapper58_post(*old(self), *final(self), addr),
    {
        if addr >= 0x8000 {
            self.prg_bank = Self::reduce_bank((addr & 0x0007) as u8, self.prg_rom.len(), 0x4000);
            self.chr_bank = Self::reduce_bank(((addr >> 3) & 0x0007) as u8, self.chr_rom.len(), 0x2000);
            self.multicart.mapper58_nrom128 = addr & 0x0040 != 0;
            self.mirroring = if addr & 0x0080 != 0 { Mirroring::Horizontal } else { Mirroring::Vertical };
        }
    }
}

/// The byte [`Cartridge::read_chr_cprom`] returns.
pub open spec fn read_chr_cprom_value(cart: Cartridge, addr: u16) -> u8 {
    if cart.chr_rom@.len() == 0 {
            0
        } else {
            let len = cart.chr_rom@.len();
            let bank: nat = if addr < 0x1000 { 0 } else { (cart.chr_bank as nat) % bank_count(len, 0x1000) };
            let offset: int = if addr < 0x1000 { addr as int } else { addr - 0x1000 };
            cart.chr_rom@[(bank * 0x1000 + offset) % (len as int)]
        }
}

/// The byte [`Cartridge::read_chr_mapper221`] returns.
pub open spec fn read_chr_mapper221_value(cart: Cartridge, addr: u16) -> u8 {
    if addr % 0x2000 < cart.chr_ram@.len() { cart.chr_ram@[(addr % 0x2000) as int] } else { 0 }
}

/// The byte [`Cartridge::read_chr_mapper231`] returns.
pub open spec fn read_chr_mapper231_value(cart: Cartridge, addr: u16) -> u8 {
    if addr % 0x2000 < cart.chr_ram@.len() { cart.chr_ram@[(addr % 0x2000) as int] } else { 0 }
}

/// The byte [`Cartridge::read_chr_nrom`] returns.
pub open spec fn read_chr_nrom_value(cart: Cartridge, addr: u16) -> u8 {
    if addr % 0x2000 < cart.chr_rom@.len() { cart.chr_rom@[(addr % 0x2000) as int] } else { 0 }
}

/// The byte [`Cartridge::read_prg_mapper200`] returns.
pub open spec fn read_prg_mapper200_value(cart: Cartridge, addr: u16) -> u8 {
    if cart.prg_rom@.len() == 0 { 0 } else { prg16_byte(cart.prg_rom@, cart.prg_bank as nat, addr) }
}

/// What [`Cartridge::read_prg_mapper200`] needs.
pub open spec fn read_prg_mapper200_pre(cart: Cartridge, addr: u16) -> bool {
    addr >= 0x8000
}

/// The byte [`Cartridge::read_prg_mapper202`] returns.
pub open spec fn read_prg_mapper202_value(cart: Cartridge, addr: u16) -> u8 {
    if cart.prg_rom@.len() == 0 {
            0
        } else if cart.multicart.mapper202_32k_mode {
            prg32_byte(cart.prg_rom@, cart.prg_bank as nat, addr)
        } else {
            prg16_byte(cart.prg_rom@, cart.prg_bank as nat, addr)
        }
}

/// What [`Cartridge::read_prg_mapper202`] needs.
pub open spec fn read_prg_mapper202_pre(cart: Cartridge, addr: u16) -> bool {
    addr >= 0x8000
}

/// The byte [`Cartridge::read_prg_mapper212`] returns.
pub open spec fn read_prg_mapper212_value(cart: Cartridge, addr: u16) -> u8 {
    if cart.prg_rom@.len() == 0 {
            0
        } else if cart.multicart.mapper212_32k_mode {
            prg32_byte(cart.prg_rom@, (cart.prg_bank >> 1u8) as nat, addr)
        } else {
            prg16_byte(cart.prg_rom@, cart.prg_bank as nat, addr)
        }
}

/// What [`Cartridge::read_prg_mapper212`] needs.
pub open spec fn read_prg_mapper212_pre(cart: Cartridge, addr: u16) -> bool {
    addr >= 0x8000
}

/// The byte [`Cartridge::read_prg_mapper221`] returns.
pub open spec fn read_prg_mapper221_value(cart: Cartridge, addr: u16) -> u8 {
    if cart.prg_rom@.len() == 0 {
            0
        } else {
            prg16_byte(cart.prg_rom@, mapper221_bank(cart.multicart, cart.prg_bank, addr) as nat, addr)
        }
}

/// What [`Cartridge::read_prg_mapper221`] needs.
pub open spec fn read_prg_mapper221_pre(cart: Cartridge, addr: u16) -> bool {
    addr >= 0x8000
}

/// The byte [`Cartridge::read_prg_mapper225`] returns.
pub open spec fn read_prg_mapper225_value(cart: Cartridge, addr: u16) -> u8 {
    if cart.prg_rom@.len() == 0 {
            0
        } else if cart.multicart.mapper225_nrom128 {
            prg16_byte(cart.prg_rom@, cart.prg_bank as nat, addr)
        } else {
            prg32_byte(cart.prg_rom@, (cart.prg_bank >> 1u8) as nat, addr)
        }
}

/// What [`Cartridge::read_prg_mapper225`] needs.
pub open spec fn read_prg_mapper225_pre(cart: Cartridge, addr: u16) -> bool {
    addr >= 0x8000
}

/// The byte [`Cartridge::read_prg_mapper226`] returns.
pub open spec fn read_prg_mapper226_value(cart: Cartridge, addr: u16) -> u8 {
    if cart.prg_rom@.len() == 0 {
            0
        } else if cart.multicart.mapper226_nrom128 {
            prg16_byte(cart.prg_rom@, cart.prg_bank as nat, addr)
        } else {
            prg32_byte(cart.prg_rom@, (cart.prg_bank >> 1u8) as nat, addr)
        }
}

/// What [`Cartridge::read_prg_mapper226`] needs.
pub open spec fn read_prg_mapper226_pre(cart: Cartridge, addr: u16) -> bool {
    addr >= 0x8000
}

/// The byte [`Cartridge::read_prg_mapper227`] returns.
pub open spec fn read_prg_mapper227_value(cart: Cartridge, addr: u16) -> u8 {
    if cart.prg_rom@.len() == 0 {
            0
        } else {
            prg16_byte(cart.prg_rom@, mapper227_bank(cart.multicart.mapper227_latch, addr) as nat, addr)
        }
}

/// What [`Cartridge::read_prg_mapper227`] needs.
pub open spec fn read_prg_mapper227_pre(cart: Cartridge, addr: u16) -> bool {
    addr >= 0x8000
}

/// The byte [`Cartridge::read_prg_mapper228`] returns.
pub open spec fn read_prg_mapper228_value(cart: Cartridge, addr: u16) -> u8 {
    mapper228_byte(cart.prg_rom@, cart.multicart, cart.prg_bank, addr)
}

/// What [`Cartridge::read_prg_mapper228`] needs.
pub open spec fn read_prg_mapper228_pre(cart: Cartridge, addr: u16) -> bool {
    addr >= 0x8000
}

/// The byte [`Cartridge::read_prg_mapper229`] returns.
pub open spec fn read_prg_mapper229_value(cart: Cartridge, addr: u16) -> u8 {
    if cart.prg_rom@.len() == 0 {
            0
        } else {
            let count = bank_count(cart.prg_rom@.len(), 0x4000);
            let bank = (cart.prg_bank as nat) % count;
            let selected: nat = if bank == 0 && addr >= 0xC000 && count > 1 { 1 } else { bank };
            prg16_byte(cart.prg_rom@, selected, addr)
        }
}

/// What [`Cartridge::read_prg_mapper229`] needs.
pub open spec fn read_prg_mapper229_pre(cart: Cartridge, addr: u16) -> bool {
    addr >= 0x8000
}

/// The byte [`Cartridge::read_prg_mapper230`] returns.
pub open spec fn read_prg_mapper230_value(cart: Cartridge, addr: u16) -> u8 {
    if cart.prg_rom@.len() == 0 || addr < 0x8000 {
            0
        } else if cart.mapper230_contra_mode {
            cart.prg_rom@[mapper230_contra_bank(cart.prg_rom@.len(), cart.prg_bank, addr) * 0x4000 + window16(addr)]
        } else {
            mapper230_multicart_byte(cart.prg_rom@, cart.prg_bank, cart.multicart.mapper230_nrom128, addr)
        }
}

/// What [`Cartridge::read_prg_mapper230`] needs.
pub open spec fn read_prg_mapper230_pre(cart: Cartridge, addr: u16) -> bool {
    cart.mapper230_contra_mode && cart.prg_rom@.len() > 0 && addr >= 0x8000 ==>
            mapper230_contra_bank(cart.prg_rom@.len(), cart.prg_bank, addr) * 0x4000 + window16(addr) < cart.prg_rom@.len()
}

/// The byte [`Cartridge::read_prg_mapper231`] returns.
pub open spec fn read_prg_mapper231_value(cart: Cartridge, addr: u16) -> u8 {
    if cart.prg_rom@.len() == 0 {
            0
        } else {
            prg16_byte(cart.prg_rom@, (if addr < 0xC000 { cart.prg_bank & 0x1E } else { cart.prg_bank }) as nat, addr)
        }
}

/// What [`Cartridge::read_prg_mapper231`] needs.
pub open spec fn read_prg_mapper231_pre(cart: Cartridge, addr: u16) -> bool {
    addr >= 0x8000
}

/// The byte [`Cartridge::read_prg_mapper233`] returns.
pub open spec fn read_prg_mapper233_value(cart: Cartridge, addr: u16) -> u8 {
    if cart.prg_rom@.len() == 0 || addr < 0x8000 {
            0
        } else {
            let bank = if cart.multicart.mapper233_nrom128 {
                cart.prg_bank
            } else {
                (cart.prg_bank & 0xFE) | (if addr >= 0xC000 { 1u8 } else { 0u8 })
            };
            prg16_byte(cart.prg_rom@, bank as nat, addr)
        }
}

/// The byte [`Cartridge::read_prg_mapper234`] returns.
pub open spec fn read_prg_mapper234_value(cart: Cartridge, addr: u16) -> u8 {
    cart.prg_rom@[((cart.prg_bank as int) * 0x8000 + (addr - 0x8000)) % (cart.prg_rom@.len() as int)]
}

/// What [`Cartridge::read_prg_mapper234`] needs.
pub open spec fn read_prg_mapper234_pre(cart: Cartridge, addr: u16) -> bool {
        &&& addr >= 0x8000
        &&& cart.prg_rom@.len() > 0
}

/// The byte [`Cartridge::read_prg_mapper235`] returns.
pub open spec fn read_prg_mapper235_value(cart: Cartridge, addr: u16) -> u8 {
    if cart.prg_rom@.len() == 0 || cart.prg_bank == 0xFF {
            0xFF
        } else if cart.multicart.mapper235_nrom128 {
            prg16_byte(cart.prg_rom@, cart.prg_bank as nat, addr)
        } else {
            prg32_byte(cart.prg_rom@, (cart.prg_bank >> 1u8) as nat, addr)
        }
}

/// What [`Cartridge::read_prg_mapper235`] needs.
pub open spec fn read_prg_mapper235_pre(cart: Cartridge, addr: u16) -> bool {
    addr >= 0x8000
}

/// The byte [`Cartridge::read_prg_mapper242`] returns.
pub open spec fn read_prg_mapper242_value(cart: Cartridge, addr: u16) -> u8 {
    if cart.prg_rom@.len() == 0 { 0 } else { mapper242_byte(cart.prg_rom@, cart.multicart.mapper242_latch, addr) }
}

/// What [`Cartridge::read_prg_mapper242`] needs.
pub open spec fn read_prg_mapper242_pre(cart: Cartridge, addr: u16) -> bool {
    addr >= 0x8000
}

/// The byte [`Cartridge::read_prg_mapper58`] returns.
pub open spec fn read_prg_mapper58_value(cart: Cartridge, addr: u16) -> u8 {
    if cart.multicart.mapper58_nrom128 {
            prg16_byte(cart.prg_rom@, cart.prg_bank as nat, addr)
        } else {
            prg32_byte(cart.prg_rom@, (cart.prg_bank >> 1u8) as nat, addr)
        }
}

/// What [`Cartridge::read_prg_mapper58`] needs.
pub open spec fn read_prg_mapper58_pre(cart: Cartridge, addr: u16) -> bool {
        &&& addr >= 0x8000
        &&& cart.prg_rom@.len() > 0
}

/// The byte [`Cartridge::read_prg_nrom`] returns.
pub open spec fn read_prg_nrom_value(cart: Cartridge, rom_addr: u16) -> u8 {
    if cart.prg_rom@.len() == 16384 {
            cart.prg_rom@[(rom_addr & 0x3FFF) as int]
        } else {
            cart.prg_rom@[(rom_addr & 0x7FFF) as int]
        }
}

/// What [`Cartridge::read_prg_nrom`] needs.
pub open spec fn read_prg_nrom_pre(cart: Cartridge, rom_addr: u16) -> bool {
    cart.prg_rom@.len() != 16384 ==> (rom_addr & 0x7FFF) < cart.prg_rom@.len()
}

/// The state change of [`Cartridge::write_chr_cprom`].
pub open spec fn write_chr_cprom_post(c0: Cartridge, c1: Cartridge, addr: u16, data: u8) -> bool {
        &&& c1.chr_rom@ == if c0.chr_rom@.len() == 0 {
                c0.chr_rom@
            } else {
                let len = c0.chr_rom@.len();
                let bank: nat = if addr < 0x1000 { 0 } else { (c0.chr_bank as nat) % bank_count(len, 0x1000) };
                let offset: int = if addr < 0x1000 { addr as int } else { addr - 0x1000 };
                c0.chr_rom@.update((bank * 0x1000 + offset) % (len as int), data)
            }
        &&& c1 == (Cartridge { chr_rom: c1.chr_rom, ..c0 })
}

/// The state change of [`Cartridge::write_chr_mapper221`].
pub open spec fn write_chr_mapper221_post(c0: Cartridge, c1: Cartridge, addr: u16, data: u8) -> bool {
        &&& c1.chr_ram@ == if !c0.multicart.mapper221_chr_write_protect && addr % 0x2000 < c0.chr_ram@.len() {
                c0.chr_ram@.update((addr % 0x2000) as int, data)
            } else {
                c0.chr_ram@
            }
        &&& c1 == (Cartridge { chr_ram: c1.chr_ram, ..c0 })
}

/// The state change of [`Cartridge::write_chr_mapper227`].
pub open spec fn write_chr_mapper227_post(c0: Cartridge, c1: Cartridge, addr: u16, data: u8) -> bool {
        &&& c1.chr_rom@ == if !(!c0.has_battery && c0.multicart.mapper227_latch & 0x0080 != 0)
                && addr % 0x2000 < c0.chr_rom@.len() {
                c0.chr_rom@.update((addr % 0x2000) as int, data)
            } else {
                c0.chr_rom@
            }
        &&& c1 == (Cartridge { chr_rom: c1.chr_rom, ..c0 })
}

/// The state change of [`Cartridge::write_chr_mapper231`].
pub open spec fn write_chr_mapper231_post(c0: Cartridge, c1: Cartridge, addr: u16, data: u8) -> bool {
        &&& c1.chr_ram@ == if addr % 0x2000 < c0.chr_ram@.len() {
                c0.chr_ram@.update((addr % 0x2000) as int, data)
            } else {
                c0.chr_ram@
            }
        &&& c1 == (Cartridge { chr_ram: c1.chr_ram, ..c0 })
}

/// The state change of [`Cartridge::write_chr_mapper242`].
pub open spec fn write_chr_mapper242_post(c0: Cartridge, c1: Cartridge, addr: u16, data: u8) -> bool {
        &&& c1.chr_rom@ == if c0.multicart.mapper242_latch & 0x0080 == 0 && addr % 0x2000 < c0.chr_rom@.len() {
                c0.chr_rom@.update((addr % 0x2000) as int, data)
            } else {
                c0.chr_rom@
            }
        &&& c1 == (Cartridge { chr_rom: c1.chr_rom, ..c0 })
}

/// The state change of [`Cartridge::write_chr_nrom`].
pub open spec fn write_chr_nrom_post(c0: Cartridge, c1: Cartridge, addr: u16, data: u8) -> bool {
        &&& c1.chr_rom@ == if addr % 0x2000 < c0.chr_rom@.len() {
                c0.chr_rom@.update((addr % 0x2000) as int, data)
            } else {
                c0.chr_rom@
            }
        &&& c1 == (Cartridge { chr_rom: c1.chr_rom, ..c0 })
}

/// The state change of [`Cartridge::write_prg_cprom`].
pub open spec fn write_prg_cprom_post(c0: Cartridge, c1: Cartridge, addr: u16, data: u8) -> bool {
    c1 == if addr >= 0x8000 {
            let len = c0.prg_rom@.len();
            let rom_value: u8 = if len == 0 { 0xFF } else { c0.prg_rom@[(addr - 0x8000) % (len as int)] };
            Cartridge { chr_bank: (data & rom_value) & 0x03, ..c0 }
        } else {
            c0
        }
}

/// The state change of [`Cartridge::write_prg_mapper200`].
pub open spec fn write_prg_mapper200_post(c0: Cartridge, c1: Cartridge, addr: u16) -> bool {
    c1 == if addr >= 0x8000 {
            Cartridge {
                prg_bank: bank_mod((addr & 0x000F) as u8, c0.prg_rom@.len(), 0x4000),
                chr_bank: bank_mod((addr & 0x000F) as u8, c0.chr_rom@.len(), 0x2000),
                mirroring: if addr & 0x0008 != 0 { Mirroring::Horizontal } else { Mirroring::Vertical },
                ..c0
            }
        } else {
            c0
        }
}

/// The state change of [`Cartridge::write_prg_mapper201`].
pub open spec fn write_prg_mapper201_post(c0: Cartridge, c1: Cartridge, addr: u16) -> bool {
    c1 == if addr >= 0x8000 {
            Cartridge {
                prg_bank: bank_mod((addr & 0x00FF) as u8, c0.prg_rom@.len(), 0x8000),
                chr_bank: bank_mod((addr & 0x00FF) as u8, c0.chr_rom@.len(), 0x2000),
                ..c0
            }
        } else {
            c0
        }
}

/// The state change of [`Cartridge::write_prg_mapper202`].
pub open spec fn write_prg_mapper202_post(c0: Cartridge, c1: Cartridge, addr: u16) -> bool {
    c1 == if addr >= 0x8000 {
            Cartridge {
                prg_bank: bank_mod(((addr >> 1u16) & 0x07) as u8, c0.prg_rom@.len(), 0x4000),
                chr_bank: bank_mod(((addr >> 1u16) & 0x07) as u8, c0.chr_rom@.len(), 0x2000),
                mirroring: if addr & 0x0001 != 0 { Mirroring::Horizontal } else { Mirroring::Vertical },
                multicart: MulticartLatches { mapper202_32k_mode: addr & 0x0009 == 0x0009, ..c0.multicart },
                ..c0
            }
        } else {
            c0
        }
}

/// The state change of [`Cartridge::write_prg_mapper203`].
pub open spec fn write_prg_mapper203_post(c0: Cartridge, c1: Cartridge, addr: u16, data: u8) -> bool {
    c1 == if addr >= 0x8000 {
            Cartridge {
                prg_bank: bank_mod(data >> 2u8, c0.prg_rom@.len(), 0x4000),
                chr_bank: bank_mod(data & 0x03, c0.chr_rom@.len(), 0x2000),
                ..c0
            }
        } else {
            c0
        }
}

/// The state change of [`Cartridge::write_prg_mapper212`].
pub open spec fn write_prg_mapper212_post(c0: Cartridge, c1: Cartridge, addr: u16) -> bool {
    c1 == if addr >= 0x8000 {
            Cartridge {
                prg_bank: bank_mod((addr & 0x0007) as u8, c0.prg_rom@.len(), 0x4000),
                chr_bank: bank_mod((addr & 0x0007) as u8, c0.chr_rom@.len(), 0x2000),
                mirroring: if addr & 0x0008 != 0 { Mirroring::Horizontal } else { Mirroring::Vertical },
                multicart: MulticartLatches { mapper212_32k_mode: addr & 0x4000 != 0, ..c0.multicart },
                ..c0
            }
        } else {
            c0
        }
}

/// The state change of [`Cartridge::write_prg_mapper221`].
pub open spec fn write_prg_mapper221_post(c0: Cartridge, c1: Cartridge, addr: u16) -> bool {
    c1 == if 0x8000 <= addr <= 0xBFFF {
            Cartridge {
                multicart: MulticartLatches {
                    mapper221_outer_bank: (((addr >> 2u16) & 0x07) | (((addr >> 9u16) & 0x01) << 3u16)) as u8,
                    mapper221_mode: if addr & 0x0002 == 0 { 0u8 } else if addr & 0x0100 == 0 { 1u8 } else { 2u8 },
                    ..c0.multicart
                },
                mirroring: if addr & 0x0001 != 0 { Mirroring::Horizontal } else { Mirroring::Vertical },
                ..c0
            }
        } else if addr >= 0xC000 {
            Cartridge {
                prg_bank: (addr & 0x0007) as u8,
                multicart: MulticartLatches { mapper221_chr_write_protect: addr & 0x0008 != 0, ..c0.multicart },
                ..c0
            }
        } else {
            c0
        }
}

/// The state change of [`Cartridge::write_prg_mapper225`].
pub open spec fn write_prg_mapper225_post(c0: Cartridge, c1: Cartridge, addr: u16, data: u8) -> bool {
        &&& c1.prg_ram@ == if mapper225_latch_access(c0, addr) {
                c0.prg_ram@.update((addr % 4) as int, data & 0x0F)
            } else {
                c0.prg_ram@
            }
        &&& c1 == if mapper225_latch_access(c0, addr) {
                Cartridge { prg_ram: c1.prg_ram, ..c0 }
            } else if addr >= 0x8000 {
                let high: u16 = if addr & 0x4000 != 0 { 0x40 } else { 0 };
                Cartridge {
                    prg_bank: bank_mod((((addr >> 6u16) & 0x3F) | high) as u8, c0.prg_rom@.len(), 0x4000),
                    chr_bank: bank_mod(((addr & 0x3F) | high) as u8, c0.chr_rom@.len(), 0x2000),
                    multicart: MulticartLatches { mapper225_nrom128: addr & 0x1000 != 0, ..c0.multicart },
                    mirroring: if addr & 0x2000 != 0 { Mirroring::Horizontal } else { Mirroring::Vertical },
                    ..c0
                }
            } else {
                c0
            }
}

/// What [`Cartridge::write_prg_mapper225`] needs.
pub open spec fn write_prg_mapper225_pre(c0: Cartridge, addr: u16, data: u8) -> bool {
    mapper225_latch_access(c0, addr) ==> addr % 4 < c0.prg_ram@.len()
}

/// The state change of [`Cartridge::write_prg_mapper226`].
pub open spec fn write_prg_mapper226_post(c0: Cartridge, c1: Cartridge, addr: u16, data: u8) -> bool {
    c1 == if addr >= 0x8000 {
            if addr & 0x0001 == 0 {
                Cartridge {
                    prg_bank: bank_mod((c0.prg_bank & 0x40) | ((data & 0x1F) | ((data >> 7u8) << 5u8)), c0.prg_rom@.len(), 0x4000),
                    multicart: MulticartLatches { mapper226_nrom128: data & 0x20 != 0, ..c0.multicart },
                    mirroring: if data & 0x40 != 0 { Mirroring::Vertical } else { Mirroring::Horizontal },
                    ..c0
                }
            } else {
                Cartridge {
                    prg_bank: bank_mod(((data & 0x01) << 6u8) | (c0.prg_bank & 0x3F), c0.prg_rom@.len(), 0x4000),
                    ..c0
                }
            }
        } else {
            c0
        }
}

/// The state change of [`Cartridge::write_prg_mapper227`].
pub open spec fn write_prg_mapper227_post(c0: Cartridge, c1: Cartridge, addr: u16) -> bool {
    c1 == if addr >= 0x8000 {
            let latch = addr & 0x07FF;
            Cartridge {
                multicart: MulticartLatches { mapper227_latch: latch, ..c0.multicart },
                mirroring: if addr & 0x0002 != 0 { Mirroring::Horizontal } else { Mirroring::Vertical },
                prg_bank: ((mapper227_outer(latch) as int) * 8 + mapper227_inner(latch)) as u8,
                ..c0
            }
        } else {
            c0
        }
}

/// The state change of [`Cartridge::write_prg_mapper228`].
pub open spec fn write_prg_mapper228_post(c0: Cartridge, c1: Cartridge, addr: u16, data: u8) -> bool {
    c1 == if addr >= 0x8000 {
            Cartridge {
                multicart: MulticartLatches {
                    mapper228_chip_select: ((addr >> 11u16) & 0x03) as u8,
                    mapper228_nrom128: addr & 0x0020 != 0,
                    ..c0.multicart
                },
                prg_bank: ((addr >> 6u16) & 0x1F) as u8,
                chr_bank: bank_mod((((addr & 0x000F) << 2u16) | ((data & 0x03) as u16)) as u8, c0.chr_rom@.len(), 0x2000),
                mirroring: if addr & 0x2000 != 0 { Mirroring::Horizontal } else { Mirroring::Vertical },
                ..c0
            }
        } else {
            c0
        }
}

/// The state change of [`Cartridge::write_prg_mapper229`].
pub open spec fn write_prg_mapper229_post(c0: Cartridge, c1: Cartridge, addr: u16) -> bool {
    c1 == if addr >= 0x8000 {
            Cartridge {
                prg_bank: bank_mod((addr & 0x001F) as u8, c0.prg_rom@.len(), 0x4000),
                chr_bank: bank_mod((addr & 0x001F) as u8, c0.chr_rom@.len(), 0x2000),
                mirroring: if addr & 0x0020 != 0 { Mirroring::Horizontal } else { Mirroring::Vertical },
                ..c0
            }
        } else {
            c0
        }
}

/// The state change of [`Cartridge::write_prg_mapper230`].
pub open spec fn write_prg_mapper230_post(c0: Cartridge, c1: Cartridge, addr: u16, data: u8) -> bool {
    c1 == if addr < 0x8000 {
            c0
        } else if c0.mapper230_contra_mode {
            Cartridge { prg_bank: data & 0x07, mirroring: Mirroring::Vertical, ..c0 }
        } else {
            Cartridge {
                prg_bank: data & 0x1F,
                multicart: MulticartLatches { mapper230_nrom128: data & 0x20 != 0, ..c0.multicart },
                mirroring: if data & 0x40 != 0 { Mirroring::Vertical } else { Mirroring::Horizontal },
                ..c0
            }
        }
}

/// The state change of [`Cartridge::write_prg_mapper231`].
pub open spec fn write_prg_mapper231_post(c0: Cartridge, c1: Cartridge, addr: u16) -> bool {
    c1 == if addr >= 0x8000 {
            Cartridge {
                prg_bank: ((addr & 0x001E) | ((addr >> 5u16) & 0x01)) as u8,
                mirroring: if addr & 0x0080 != 0 { Mirroring::Horizontal } else { Mirroring::Vertical },
                ..c0
            }
        } else {
            c0
        }
}

/// The state change of [`Cartridge::write_prg_mapper234`].
pub open spec fn write_prg_mapper234_post(c0: Cartridge, c1: Cartridge, addr: u16, data: u8) -> bool {
    c1 == if addr >= 0x8000 {
            mapper234_applied(c0, addr, data & c0.prg_rom@[((c0.prg_bank as int) * 0x8000 + (addr - 0x8000)) % (c0.prg_rom@.len() as int)])
        } else {
            c0
        }
}

/// What [`Cartridge::write_prg_mapper234`] needs.
pub open spec fn write_prg_mapper234_pre(c0: Cartridge, addr: u16, data: u8) -> bool {
    addr >= 0x8000 ==> c0.prg_rom@.len() > 0
}

/// The state change of [`Cartridge::write_prg_mapper235`].
pub open spec fn write_prg_mapper235_post(c0: Cartridge, c1: Cartridge, addr: u16, _data: u8) -> bool {
    c1 == if addr >= 0x8000 {
            Cartridge {
                multicart: MulticartLatches { mapper235_nrom128: addr & 0x0800 != 0, ..c0.multicart },
                mirroring: if addr & 0x0400 != 0 {
                    Mirroring::OneScreenLower
                } else if addr & 0x2000 != 0 {
                    Mirroring::Vertical
                } else {
                    Mirroring::Horizontal
                },
                prg_bank: if ((addr >> 8u16) & 0x03) & 0x01 != 0 || mapper235_bank16(addr) >= bank_count(c0.prg_rom@.len(), 0x4000) {
                    0xFF
                } else {
                    mapper235_bank16(addr) as u8
                },
                ..c0
            }
        } else {
            c0
        }
}

/// The state change of [`Cartridge::write_prg_mapper242`].
pub open spec fn write_prg_mapper242_post(c0: Cartridge, c1: Cartridge, addr: u16) -> bool {
    c1 == if addr >= 0x8000 {
            Cartridge {
                multicart: MulticartLatches { mapper242_latch: addr & 0x07FF, ..c0.multicart },
                mirroring: if addr & 0x0002 != 0 { Mirroring::Horizontal } else { Mirroring::Vertical },
                ..c0
            }
        } else {
            c0
        }
}

/// The state change of [`Cartridge::write_prg_mapper58`].
pub open spec fn write_prg_mapper58_post(c0: Cartridge, c1: Cartridge, addr: u16) -> bool {
    c1 == if addr >= 0x8000 {
            Cartridge {
                prg_bank: bank_mod((addr & 0x0007) as u8, c0.prg_rom@.len(), 0x4000),
                chr_bank: bank_mod(((addr >> 3u16) & 0x0007) as u8, c0.chr_rom@.len(), 0x2000),
                multicart: MulticartLatches { mapper58_nrom128: addr & 0x0040 != 0, ..c0.multicart },
                mirroring: if addr & 0x0080 != 0 { Mirroring::Horizontal } else { Mirroring::Vertical },
                ..c0
            }
        } else {
            c0
        }
}

/// Law of NROM: a 16 KiB ROM appears twice, at $8000 and again at $C000;
/// a 32 KiB ROM fills the window once.
pub proof fn lemma_nrom_mirror(c: Cartridge, rom_addr: u16)
    requires
        rom_addr < 0x4000,
    ensures
        c.prg_rom@.len() == 16384 ==> read_prg_nrom_value(c, rom_addr) == c.prg_rom@[rom_addr as int]
            && read_prg_nrom_value(c, (rom_addr + 0x4000) as u16) == c.prg_rom@[rom_addr as int],
        c.prg_rom@.len() == 32768 ==> read_prg_nrom_value(c, (rom_addr + 0x4000) as u16) == c.prg_rom@[rom_addr + 0x4000],
{
    lemma_u16_masks(rom_addr);
    lemma_u16_masks((rom_addr + 0x4000) as u16);
}

} // verus!

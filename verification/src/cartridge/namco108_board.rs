//! Namco 108 family boards (mappers 76, 88, 95, 112, 154, 206): the MMC3's
//! bank-select and bank-data registers without its PRG modes, IRQ or
//! mirroring control: two switchable 8 KiB PRG banks over the fixed last
//! two, and per-board CHR layouts and register masks.

use vstd::prelude::*;
use crate::cartridge::Mirroring;
use crate::cartridge::load::Cartridge;
use crate::cartridge::banks::{pattern_memory, prg_8k_at};
use crate::cartridge::mapper::mmc3::Mmc3;
use crate::bits::{lemma_u16_masks, lemma_u8_masks, lemma_usize_masks};

verus! {

/// The bits a bank-data write keeps for register `reg`: the 2 KiB CHR
/// registers drop bit 0 (mapper 95 keeps it), the 1 KiB CHR registers
/// keep six bits, the PRG registers four.
pub open spec fn namco108_masked(mapper: u8, reg: int, data: u8) -> u8 {
    if reg == 0 || reg == 1 {
        if mapper == 95 { data & 0x3F } else { data & 0x3E }
    } else if 2 <= reg <= 5 {
        data & 0x3F
    } else if reg == 6 || reg == 7 {
        data & 0x0F
    } else {
        0
    }
}

/// Mapper 95's nametables from bit 5 of the two 2 KiB CHR registers: both
/// clear or both set give one screen (lower or upper), otherwise horizontal
/// arrangement, swapped when only the first is set.
pub open spec fn mapper95_mirroring(r0: u8, r1: u8) -> Mirroring {
    let lower = r0 & 0x20 != 0;
    let upper = r1 & 0x20 != 0;
    if !lower && !upper {
        Mirroring::OneScreenLower
    } else if lower && upper {
        Mirroring::OneScreenUpper
    } else if !lower {
        Mirroring::Horizontal
    } else {
        Mirroring::HorizontalSwapped
    }
}

/// The unmasked 1 KiB CHR bank at `slot`: mapper 76 has four 2 KiB banks
/// from registers 2-5; the others have the MMC3's two 2 KiB banks (R0, R1)
/// and four 1 KiB banks (R2-R5), which mappers 88 and 154 place in the
/// upper 64 KiB.
pub open spec fn namco108_chr_raw(mapper: u8, r: Seq<u8>, slot: usize) -> usize {
    if mapper == 76 {
        ((r[2 + slot / 2] as usize) << 1usize) | (slot & 1)
    } else if slot == 0 {
        (r[0] as usize) & !1usize
    } else if slot == 1 {
        ((r[0] as usize) & !1usize) | 1
    } else if slot == 2 {
        (r[1] as usize) & !1usize
    } else if slot == 3 {
        ((r[1] as usize) & !1usize) | 1
    } else if mapper == 88 || mapper == 154 {
        (r[slot - 2] as usize) | 0x40
    } else {
        r[slot - 2] as usize
    }
}

/// The 1 KiB CHR bank for `addr`, masked with `mask`.
pub open spec fn namco108_chr_bank(mapper: u8, r: Seq<u8>, addr: u16, mask: usize) -> usize {
    namco108_chr_raw(mapper, r, ((addr / 0x400) % 8) as usize) & mask
}

/// The chip after a write: even addresses in $8000-$9FFF select a register
/// (three bits), odd ones write it through [`namco108_masked`]; nothing else
/// changes.
pub open spec fn namco108_written(o: Mmc3, n: Mmc3, mapper: u8, addr: u16, data: u8) -> bool {
    let in_8000 = 0x8000 <= addr < 0xA000;
    let reg = (o.bank_select % 8) as int;
    &&& n.bank_select == if in_8000 && addr % 2 == 0 { data & 0x07 } else { o.bank_select }
    &&& n.bank_registers@ == if in_8000 && addr % 2 == 1 {
        o.bank_registers@.update(reg, namco108_masked(mapper, reg, data))
    } else {
        o.bank_registers@
    }
    &&& n == (Mmc3 { bank_select: n.bank_select, bank_registers: n.bank_registers, ..o })
}

impl Cartridge {
    /// A CPU read of PRG-ROM: R6 at $8000, R7 at $A000, the last two banks
    /// at $C000 and $E000, bank numbers masked with the bank count minus
    /// one; 0 with fewer than two banks, past the end, below $8000 or
    /// without the chip.
    pub fn read_prg_namco108(&self, addr: u16) -> (r: u8)
        ensures
            r == read_prg_namco108_value(*self, addr),
    {
        let m = match &self.mmc3 {
            Some(m) => m,
            None => {
                return 0;
            },
        };
        let num_8k_banks = self.prg_rom.len() / 0x2000;
        if num_8k_banks < 2 || addr < 0x8000 {
            return 0;
        }
        let bank_mask = num_8k_banks - 1;
        let bank = if addr < 0xA000 {
            (m.bank_registers[6] as usize) & bank_mask
        } else if addr < 0xC000 {
            (m.bank_registers[7] as usize) & bank_mask
        } else if addr < 0xE000 {
            (num_8k_banks - 2) & bank_mask
        } else {
            (num_8k_banks - 1) & bank_mask
        };
        proof {
            lemma_usize_masks(m.bank_registers@[6] as usize, bank_mask);
            lemma_usize_masks(m.bank_registers@[7] as usize, bank_mask);
            lemma_usize_masks((num_8k_banks - 2) as usize, bank_mask);
            lemma_usize_masks(bank_mask, bank_mask);
            lemma_u16_masks(addr);
            assert(bank * 0x2000 <= bank_mask * 0x2000) by (nonlinear_arith)
                requires
                    bank <= bank_mask,
            ;
        }
        let rom_addr = bank * 0x2000 + ((addr & 0x1FFF) as usize);
        if rom_addr < self.prg_rom.len() { self.prg_rom[rom_addr] } else { 0 }
    }

    /// A CPU write: the chip's bank select and bank data (see
    /// [`namco108_written`]); on mapper 154 any write at $8000-$FFFF also
    /// picks one-screen nametables by bit 6, and on mapper 95 a write of R0
    /// or R1 sets the nametables from their bit 5.
    pub fn write_prg_namco108(&mut self, addr: u16, data: u8)
        ensures
            write_prg_namco108_post(*old(self), *final(self), addr, data),
    {
        if self.mapper == 154 && addr >= 0x8000 {
            self.mirroring = if data & 0x40 != 0 { Mirroring::OneScreenUpper } else { Mirroring::OneScreenLower };
        }
        let mut m = match self.mmc3.take() {
            Some(m) => m,
            None => {
                return;
            },
        };
        let mapper95_banks = Self::namco108_write_chip(&mut m, self.mapper, addr, data);
        let r0 = m.bank_registers[0];
        let r1 = m.bank_registers[1];
        self.mmc3 = Some(m);
        if mapper95_banks {
            self.update_mapper95_mirroring(r0, r1);
        }
    }

    /// The chip's part of a write; returns whether mapper 95's nametables
    /// follow from it.
    fn namco108_write_chip(m: &mut Mmc3, mapper: u8, addr: u16, data: u8) -> (r: bool)
        ensures
            namco108_written(*old(m), *final(m), mapper, addr, data),
            r == (mapper == 95 && 0x8000 <= addr < 0xA000 && addr % 2 == 1 && old(m).bank_select % 8 <= 1),
    {
        proof {
            lemma_u16_masks(addr);
            lemma_u8_masks(m.bank_select);
        }
        if 0x8000 <= addr && addr < 0xA000 {
            if (addr & 1) == 0 {
                m.bank_select = data & 0x07;
                false
            } else {
                let reg = (m.bank_select & 0x07) as usize;
                m.bank_registers[reg] = Self::mask_namco108_bank_data(mapper, reg, data);
                mapper == 95 && reg <= 1
            }
        } else {
            false
        }
    }

    /// The bits of a bank-data write that register `reg` keeps.
    pub fn mask_namco108_bank_data(mapper: u8, reg: usize, data: u8) -> (r: u8)
        ensures
            r == namco108_masked(mapper, reg as int, data),
    {
        if reg <= 1 {
            if mapper == 95 { data & 0x3F } else { data & 0x3E }
        } else if reg <= 5 {
            data & 0x3F
        } else if reg <= 7 {
            data & 0x0F
        } else {
            0
        }
    }

    /// Mapper 95: the nametables from bit 5 of R0 and R1.
    fn update_mapper95_mirroring(&mut self, r0: u8, r1: u8)
        ensures
            *final(self) == (Cartridge { mirroring: mapper95_mirroring(r0, r1), ..*old(self) }),
    {
        let lower = r0 & 0x20 != 0;
        let upper = r1 & 0x20 != 0;
        self.mirroring = if !lower && !upper {
            Mirroring::OneScreenLower
        } else if lower && upper {
            Mirroring::OneScreenUpper
        } else if !lower {
            Mirroring::Horizontal
        } else {
            Mirroring::HorizontalSwapped
        };
    }

    /// The 1 KiB CHR bank for `addr` on this board, masked with
    /// `bank_mask`.
    pub fn resolve_chr_bank_namco108(&self, addr: u16, bank_mask: usize, bank_registers: &[u8; 8]) -> (b: usize)
        ensures
            b == namco108_chr_bank(self.mapper, bank_registers@, addr, bank_mask),
            b <= bank_mask,
    {
        let slot = ((addr >> 10) & 0x07) as usize;
        proof {
            lemma_u16_masks(addr);
        }
        let raw: usize = if self.mapper == 76 {
            ((bank_registers[2 + slot / 2] as usize) << 1) | (slot & 1)
        } else if slot == 0 {
            (bank_registers[0] as usize) & !1usize
        } else if slot == 1 {
            ((bank_registers[0] as usize) & !1usize) | 1
        } else if slot == 2 {
            (bank_registers[1] as usize) & !1usize
        } else if slot == 3 {
            ((bank_registers[1] as usize) & !1usize) | 1
        } else if self.mapper == 88 || self.mapper == 154 {
            (bank_registers[slot - 2] as usize) | 0x40
        } else {
            bank_registers[slot - 2] as usize
        };
        proof {
            lemma_usize_masks(raw, bank_mask);
        }
        raw & bank_mask
    }

    /// A PPU read of pattern memory (CHR-RAM when the board has some, else
    /// CHR-ROM); 0 without a whole 1 KiB bank, past the end or without the
    /// chip.
    pub fn read_chr_namco108(&self, addr: u16) -> (r: u8)
        ensures
            r == read_chr_namco108_value(*self, addr),
    {
        let regs = match &self.mmc3 {
            Some(m) => m.bank_registers,
            None => {
                return 0;
            },
        };
        let use_ram = self.chr_ram.len() > 0;
        let len = if use_ram { self.chr_ram.len() } else { self.chr_rom.len() };
        let num_1k_banks = len / 0x0400;
        if num_1k_banks == 0 {
            return 0;
        }
        let bank_mask = num_1k_banks - 1;
        let bank = self.resolve_chr_bank_namco108(addr, bank_mask, &regs);
        proof {
            lemma_u16_masks(addr);
            assert(bank * 0x400 <= bank_mask * 0x400) by (nonlinear_arith)
                requires
                    bank <= bank_mask,
            ;
        }
        let chr_addr = bank * 0x0400 + ((addr & 0x03FF) as usize);
        if chr_addr < len {
            if use_ram { self.chr_ram[chr_addr] } else { self.chr_rom[chr_addr] }
        } else {
            0
        }
    }

    /// A PPU write of pattern memory through the same banks: into CHR-RAM
    /// when the board has some, else into the CHR-ROM image; nothing past
    /// the end or without the chip.
    pub fn write_chr_namco108(&mut self, addr: u16, data: u8)
        ensures
            write_chr_namco108_post(*old(self), *final(self), addr, data),
    {
        let regs = match &self.mmc3 {
            Some(m) => m.bank_registers,
            None => {
                return;
            },
        };
        let use_ram = self.chr_ram.len() > 0;
        let len = if use_ram { self.chr_ram.len() } else { self.chr_rom.len() };
        let num_1k_banks = len / 0x0400;
        if num_1k_banks == 0 {
            return;
        }
        let bank_mask = num_1k_banks - 1;
        let bank = self.resolve_chr_bank_namco108(addr, bank_mask, &regs);
        proof {
            lemma_u16_masks(addr);
            assert(bank * 0x400 <= bank_mask * 0x400) by (nonlinear_arith)
                requires
                    bank <= bank_mask,
            ;
        }
        let chr_addr = bank * 0x0400 + ((addr & 0x03FF) as usize);
        if chr_addr < len {
            if use_ram {
                self.chr_ram.set(chr_addr, data);
            } else {
                self.chr_rom.set(chr_addr, data);
            }
        }
    }
}

/// The byte [`Cartridge::read_chr_namco108`] returns.
pub open spec fn read_chr_namco108_value(cart: Cartridge, addr: u16) -> u8 {
    match cart.mmc3 {
            Some(m) => {
                let mem = pattern_memory(cart);
                let banks = (mem.len() / 0x400) as usize;
                let off = (namco108_chr_bank(cart.mapper, m.bank_registers@, addr, (banks - 1) as usize) as int) * 0x400
                    + (addr % 0x400) as int;
                if banks == 0 || off >= mem.len() { 0 } else { mem[off] }
            },
            None => 0,
        }
}

/// The byte [`Cartridge::read_prg_namco108`] returns.
pub open spec fn read_prg_namco108_value(cart: Cartridge, addr: u16) -> u8 {
    match cart.mmc3 {
            Some(m) => {
                let banks = (cart.prg_rom@.len() / 0x2000) as usize;
                let mask = (banks - 1) as usize;
                let bank = if addr < 0xA000 {
                    (m.bank_registers@[6] as usize) & mask
                } else if addr < 0xC000 {
                    (m.bank_registers@[7] as usize) & mask
                } else if addr < 0xE000 {
                    ((banks - 2) as usize) & mask
                } else {
                    ((banks - 1) as usize) & mask
                };
                if banks < 2 || addr < 0x8000 { 0 } else { prg_8k_at(cart.prg_rom@, bank as int, addr) }
            },
            None => 0,
        }
}

/// The state change of [`Cartridge::write_chr_namco108`].
pub open spec fn write_chr_namco108_post(c0: Cartridge, c1: Cartridge, addr: u16, data: u8) -> bool {
    match c0.mmc3 {
            Some(m) => {
                let ram = c0.chr_ram@.len() > 0;
                let mem = pattern_memory(c0);
                let banks = (mem.len() / 0x400) as usize;
                let off = (namco108_chr_bank(c0.mapper, m.bank_registers@, addr, (banks - 1) as usize) as int) * 0x400
                    + (addr % 0x400) as int;
                let new_mem = if banks == 0 || off >= mem.len() { mem } else { mem.update(off, data) };
                if ram {
                    c1.chr_ram@ == new_mem && c1 == (Cartridge { chr_ram: c1.chr_ram, ..c0 })
                } else {
                    c1.chr_rom@ == new_mem && c1 == (Cartridge { chr_rom: c1.chr_rom, ..c0 })
                }
            },
            None => c1 == c0,
        }
}

/// The state change of [`Cartridge::write_prg_namco108`].
pub open spec fn write_prg_namco108_post(c0: Cartridge, c1: Cartridge, addr: u16, data: u8) -> bool {
    ({
            let m154 = c0.mapper == 154 && addr >= 0x8000;
            let mirroring_154 = if data & 0x40 != 0 { Mirroring::OneScreenUpper } else { Mirroring::OneScreenLower };
            match c0.mmc3 {
                None => c1 == (Cartridge {
                    mirroring: if m154 { mirroring_154 } else { c0.mirroring },
                    ..c0
                }),
                Some(o) => {
                    &&& c1.mmc3 matches Some(n)
                    &&& namco108_written(o, n, c0.mapper, addr, data)
                    &&& c1 == (Cartridge {
                        mmc3: c1.mmc3,
                        mirroring: if c0.mapper == 95 && 0x8000 <= addr < 0xA000 && addr % 2 == 1
                            && o.bank_select % 8 <= 1 {
                            mapper95_mirroring(n.bank_registers@[0], n.bank_registers@[1])
                        } else if m154 {
                            mirroring_154
                        } else {
                            c0.mirroring
                        },
                        ..c0
                    })
                },
            }
        })
}

} // verus!

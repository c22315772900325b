//! Sachen boards with an eight-entry register file in the $4100 area: an
//! index register and a data register select and write 3-bit registers,
//! from which the PRG bank, CHR banks and nametables follow (mappers 137
//! (8259D), 150 (SA-015) and 243 (74LS374N)).

use vstd::prelude::*;
use crate::cartridge::Mirroring;
use crate::cartridge::load::Cartridge;
use crate::cartridge::board_latches::BoardLatches;
use crate::cartridge::latch_boards::bank_mod;
use crate::cartridge::discrete::bank_count;
use crate::bits::{lemma_u16_masks, lemma_u8_masks, lemma_usize_masks};

verus! {

/// Mapper 243's 8 KiB CHR bank: register 6 (two bits) as bits 2-3,
/// register 4 bit 0 as bit 1, register 2 bit 0 as bit 0.
pub open spec fn mapper243_chr(r: Seq<u8>) -> u8 {
    ((r[6] & 0x03) << 2u8) | ((r[4] & 0x01) << 1u8) | (r[2] & 0x01)
}

/// Mapper 243's nametables from register 7 bits 1-2.
pub open spec fn mapper243_mirroring(r7: u8) -> Mirroring {
    let m = (r7 >> 1u8) & 0x03;
    if m == 0 {
        Mirroring::ThreeScreenLower
    } else if m == 1 {
        Mirroring::Vertical
    } else if m == 2 {
        Mirroring::Horizontal
    } else {
        Mirroring::OneScreenUpper
    }
}

/// Mapper 150's 8 KiB CHR bank: register 4 bit 0 as bit 2, register 6
/// (two bits) as bits 0-1.
pub open spec fn mapper150_chr(r: Seq<u8>) -> u8 {
    ((r[4] & 0x01) << 2u8) | (r[6] & 0x03)
}

/// Mapper 150's nametables from register 7 bits 1-2.
pub open spec fn mapper150_mirroring(r7: u8) -> Mirroring {
    let m = (r7 >> 1u8) & 0x03;
    if m == 0 {
        Mirroring::ThreeScreenLower
    } else if m == 1 {
        Mirroring::Horizontal
    } else if m == 2 {
        Mirroring::Vertical
    } else {
        Mirroring::OneScreenUpper
    }
}

/// Mapper 137's 1 KiB CHR bank for slot `slot` (0-3) of the lower 4 KiB:
/// registers 0-3 give the low three bits, register 4's bits 0-2 the fifth
/// bit of slots 1-3, register 6 bit 0 the fourth bit of slot 3.
pub open spec fn mapper137_chr_1k(r: Seq<u8>, slot: usize) -> usize {
    let s = slot % 4;
    if s == 0 {
        (r[0] & 0x07) as usize
    } else if s == 1 {
        (((r[4] & 0x01) << 4u8) | (r[1] & 0x07)) as usize
    } else if s == 2 {
        ((((r[4] >> 1u8) & 0x01) << 4u8) | (r[2] & 0x07)) as usize
    } else {
        ((((r[4] >> 2u8) & 0x01) << 4u8) | ((r[6] & 0x01) << 3u8) | (r[3] & 0x07)) as usize
    }
}

/// Mapper 137's nametables from register 7 bits 1-2.
pub open spec fn mapper137_mirroring(r7: u8) -> Mirroring {
    let m = (r7 >> 1u8) & 0x03;
    if m == 1 {
        Mirroring::Horizontal
    } else if m == 3 {
        Mirroring::OneScreenUpper
    } else {
        Mirroring::Vertical
    }
}

/// The position of a mapper 137 pattern read: the lower 4 KiB through four
/// 1 KiB banks (modulo the bank count), the upper 4 KiB fixed to the last
/// 4 KiB of CHR-ROM; modulo the ROM.
pub open spec fn mapper137_chr_index(c: Cartridge, addr: u16) -> int {
    let len = c.chr_rom@.len();
    let raw: int = if addr < 0x1000 {
        let bank = (mapper137_chr_1k(c.latches.mapper137_registers@, (addr / 0x400) as usize) as nat) % bank_count(len, 0x400);
        (bank * 0x400 + addr % 0x400) as int
    } else {
        (if len >= 0x1000 { len - 0x1000 } else { 0 }) + (addr % 0x1000)
    };
    raw % (len as int)
}

impl Cartridge {
    /// Mapper 243: the PRG bank (register 5, two bits), CHR bank and
    /// nametables from the register file.
    pub fn update_mapper243_state(&mut self)
        ensures
            ({
                let r = old(self).latches.mapper243_registers@;
                *final(self) == Cartridge {
                    prg_bank: bank_mod(r[5] & 0x03, old(self).prg_rom@.len(), 0x8000),
                    chr_bank: bank_mod(mapper243_chr(r), old(self).chr_rom@.len(), 0x2000),
                    mirroring: mapper243_mirroring(r[7]),
                    ..*old(self)
                }
            }),
    {
        let r = self.latches.mapper243_registers;
        self.prg_bank = Self::reduce_bank(r[5] & 0x03, self.prg_rom.len(), 0x8000);
        self.chr_bank = Self::reduce_bank(((r[6] & 0x03) << 2) | ((r[4] & 0x01) << 1) | (r[2] & 0x01), self.chr_rom.len(), 0x2000);
        let m = (r[7] >> 1) & 0x03;
        self.mirroring = if m == 0 {
            Mirroring::ThreeScreenLower
        } else if m == 1 {
            Mirroring::Vertical
        } else if m == 2 {
            Mirroring::Horizontal
        } else {
            Mirroring::OneScreenUpper
        };
    }

    /// Mapper 243: at addresses matching 01xx xxx1 xxxx xxx0 the index
    /// (three bits), at ...1 the selected register (three bits), after
    /// which the banks and nametables follow.
    pub fn write_prg_mapper243(&mut self, addr: u16, data: u8)
        ensures
            write_prg_mapper243_post(*old(self), *final(self), addr, data),
    {
        let sel = addr & 0xC101;
        if sel == 0x4100 {
            self.latches.mapper243_index = data & 0x07;
        } else if sel == 0x4101 {
            let reg = (self.latches.mapper243_index & 0x07) as usize;
            proof {
                lemma_u8_masks(self.latches.mapper243_index);
            }
            self.latches.mapper243_registers[reg] = data & 0x07;
            self.update_mapper243_state();
        }
    }

    /// Mapper 243: reading the data address returns the selected register.
    pub fn read_prg_low_mapper243(&self, addr: u16) -> (r: u8)
        ensures
            r == if addr & 0xC101 == 0x4101 {
                self.latches.mapper243_registers@[(self.latches.mapper243_index % 8) as int] & 0x07
            } else {
                0
            },
    {
        if (addr & 0xC101) == 0x4101 {
            proof {
                lemma_u8_masks(self.latches.mapper243_index);
            }
            self.latches.mapper243_registers[(self.latches.mapper243_index & 0x07) as usize] & 0x07
        } else {
            0
        }
    }

    /// Mapper 137: the 1 KiB CHR bank of slot `slot`.
    pub fn mapper137_chr_bank_1k(&self, slot: usize) -> (r: usize)
        ensures
            r == mapper137_chr_1k(self.latches.mapper137_registers@, slot),
            r < 32,
    {
        let r = self.latches.mapper137_registers;
        proof {
            lemma_usize_masks(slot, 3);
            lemma_u8_masks(r[0]);
            lemma_u8_masks(r[1]);
            lemma_u8_masks(r[2]);
            lemma_u8_masks(r[3]);
            let (r1, r2, r3, r4, r6) = (r[1], r[2], r[3], r[4], r[6]);
            assert(((r4 & 0x01) << 4u8) | (r1 & 0x07) < 32 && (((r4 >> 1u8) & 0x01) << 4u8) | (r2 & 0x07) < 32
                && (((r4 >> 2u8) & 0x01) << 4u8) | ((r6 & 0x01) << 3u8) | (r3 & 0x07) < 32) by (bit_vector);
        }
        let s = slot & 3;
        if s == 0 {
            (r[0] & 0x07) as usize
        } else if s == 1 {
            (((r[4] & 0x01) << 4) | (r[1] & 0x07)) as usize
        } else if s == 2 {
            ((((r[4] >> 1) & 0x01) << 4) | (r[2] & 0x07)) as usize
        } else {
            ((((r[4] >> 2) & 0x01) << 4) | ((r[6] & 0x01) << 3) | (r[3] & 0x07)) as usize
        }
    }

    /// Mapper 137: the PRG bank (register 5, three bits), the CHR bank of
    /// slot 0 and the nametables from the register file.
    pub fn update_mapper137_state(&mut self)
        ensures
            ({
                let r = old(self).latches.mapper137_registers@;
                *final(self) == Cartridge {
                    prg_bank: bank_mod(r[5] & 0x07, old(self).prg_rom@.len(), 0x8000),
                    chr_bank: mapper137_chr_1k(r, 0) as u8,
                    mirroring: mapper137_mirroring(r[7]),
                    ..*old(self)
                }
            }),
    {
        let r = self.latches.mapper137_registers;
        self.prg_bank = Self::reduce_bank(r[5] & 0x07, self.prg_rom.len(), 0x8000);
        self.chr_bank = self.mapper137_chr_bank_1k(0) as u8;
        let m = (r[7] >> 1) & 0x03;
        self.mirroring = if m == 1 {
            Mirroring::Horizontal
        } else if m == 3 {
            Mirroring::OneScreenUpper
        } else {
            Mirroring::Vertical
        };
    }

    /// Mapper 137: at addresses matching x1xx xxx1 xxxx xxx0 the index, at
    /// ...1 the selected register (three bits each), after which the banks
    /// and nametables follow.
    pub fn write_prg_mapper137(&mut self, addr: u16, data: u8)
        ensures
            write_prg_mapper137_post(*old(self), *final(self), addr, data),
    {
        let sel = addr & 0x4101;
        if sel == 0x4100 {
            self.latches.mapper137_index = data & 0x07;
        } else if sel == 0x4101 {
            let reg = (self.latches.mapper137_index & 0x07) as usize;
            proof {
                lemma_u8_masks(self.latches.mapper137_index);
            }
            self.latches.mapper137_registers[reg] = data & 0x07;
            self.update_mapper137_state();
        }
    }

    /// Mapper 137: reading the data address returns the selected register.
    pub fn read_prg_low_mapper137(&self, addr: u16) -> (r: u8)
        ensures
            r == if addr & 0x4101 == 0x4101 {
                self.latches.mapper137_registers@[(self.latches.mapper137_index % 8) as int] & 0x07
            } else {
                0
            },
    {
        if (addr & 0x4101) == 0x4101 {
            proof {
                lemma_u8_masks(self.latches.mapper137_index);
            }
            self.latches.mapper137_registers[(self.latches.mapper137_index & 0x07) as usize] & 0x07
        } else {
            0
        }
    }

    /// The CHR-ROM position of a mapper 137 pattern access.
    fn mapper137_chr_position(&self, addr: u16) -> (i: usize)
        requires
            self.chr_rom@.len() > 0,
        ensures
            i == mapper137_chr_index(*self, addr),
            i < self.chr_rom@.len(),
    {
        let len = self.chr_rom.len();
        proof {
            lemma_u16_masks(addr);
        }
        let chr_addr: u128 = if addr < 0x1000 {
            let slot = (addr as usize) / 0x0400;
            let bank_count = if len / 0x400 > 1 { len / 0x400 } else { 1 };
            let bank = self.mapper137_chr_bank_1k(slot) % bank_count;
            (bank as u128) * 0x400 + ((addr & 0x03FF) as u128)
        } else {
            (len.saturating_sub(0x1000) as u128) + ((addr & 0x0FFF) as u128)
        };
        (chr_addr % (len as u128)) as usize
    }

    /// Mapper 137: a PPU read of CHR-ROM (see [`mapper137_chr_index`]); 0
    /// without CHR-ROM.
    pub fn read_chr_mapper137(&self, addr: u16) -> (r: u8)
        ensures
            r == read_chr_mapper137_value(*self, addr),
    {
        if self.chr_rom.len() == 0 {
            return 0;
        }
        let i = self.mapper137_chr_position(addr);
        self.chr_rom[i]
    }

    /// Mapper 137: a PPU write into the CHR-ROM image at the same position.
    pub fn write_chr_mapper137(&mut self, addr: u16, data: u8)
        ensures
            write_chr_mapper137_post(*old(self), *final(self), addr, data),
    {
        if self.chr_rom.len() == 0 {
            return;
        }
        let i = self.mapper137_chr_position(addr);
        self.chr_rom.set(i, data);
    }

    /// Mapper 150: the PRG bank (register 5, two bits), CHR bank and
    /// nametables from the register file.
    pub fn update_mapper150_state(&mut self)
        ensures
            ({
                let r = old(self).latches.mapper150_registers@;
                *final(self) == Cartridge {
                    prg_bank: bank_mod(r[5] & 0x03, old(self).prg_rom@.len(), 0x8000),
                    chr_bank: bank_mod(mapper150_chr(r), old(self).chr_rom@.len(), 0x2000),
                    mirroring: mapper150_mirroring(r[7]),
                    ..*old(self)
                }
            }),
    {
        let r = self.latches.mapper150_registers;
        self.prg_bank = Self::reduce_bank(r[5] & 0x03, self.prg_rom.len(), 0x8000);
        self.chr_bank = Self::reduce_bank(((r[4] & 0x01) << 2) | (r[6] & 0x03), self.chr_rom.len(), 0x2000);
        let m = (r[7] >> 1) & 0x03;
        self.mirroring = if m == 0 {
            Mirroring::ThreeScreenLower
        } else if m == 1 {
            Mirroring::Horizontal
        } else if m == 2 {
            Mirroring::Vertical
        } else {
            Mirroring::OneScreenUpper
        };
    }

    /// Mapper 150: the register file of mapper 243 with its own bank and
    /// nametable layout.
    pub fn write_prg_mapper150(&mut self, addr: u16, data: u8)
        ensures
            write_prg_mapper150_post(*old(self), *final(self), addr, data),
    {
        let sel = addr & 0xC101;
        if sel == 0x4100 {
            self.latches.mapper150_index = data & 0x07;
        } else if sel == 0x4101 {
            let reg = (self.latches.mapper150_index & 0x07) as usize;
            proof {
                lemma_u8_masks(self.latches.mapper150_index);
            }
            self.latches.mapper150_registers[reg] = data & 0x07;
            self.update_mapper150_state();
        }
    }

    /// Mapper 150: reading the data address returns the selected register.
    pub fn read_prg_low_mapper150(&self, addr: u16) -> (r: u8)
        ensures
            r == if addr & 0xC101 == 0x4101 {
                self.latches.mapper150_registers@[(self.latches.mapper150_index % 8) as int] & 0x07
            } else {
                0
            },
    {
        if (addr & 0xC101) == 0x4101 {
            proof {
                lemma_u8_masks(self.latches.mapper150_index);
            }
            self.latches.mapper150_registers[(self.latches.mapper150_index & 0x07) as usize] & 0x07
        } else {
            0
        }
    }
}

/// The byte [`Cartridge::read_chr_mapper137`] returns.
pub open spec fn read_chr_mapper137_value(cart: Cartridge, addr: u16) -> u8 {
    if cart.chr_rom@.len() == 0 { 0 } else { cart.chr_rom@[mapper137_chr_index(cart, addr)] }
}

/// The state change of [`Cartridge::write_chr_mapper137`].
pub open spec fn write_chr_mapper137_post(c0: Cartridge, c1: Cartridge, addr: u16, data: u8) -> bool {
        &&& c1.chr_rom@ == if c0.chr_rom@.len() == 0 {
                c0.chr_rom@
            } else {
                c0.chr_rom@.update(mapper137_chr_index(c0, addr), data)
            }
        &&& c1 == (Cartridge { chr_rom: c1.chr_rom, ..c0 })
}

/// The state change of [`Cartridge::write_prg_mapper137`].
pub open spec fn write_prg_mapper137_post(c0: Cartridge, c1: Cartridge, addr: u16, data: u8) -> bool {
    ({
            let sel = addr & 0x4101;
            let l = c0.latches;
            if sel == 0x4100 {
                c1 == Cartridge { latches: BoardLatches { mapper137_index: data & 0x07, ..l }, ..c0 }
            } else if sel == 0x4101 {
                let r = l.mapper137_registers@.update((l.mapper137_index % 8) as int, data & 0x07);
                &&& c1.latches.mapper137_registers@ == r
                &&& c1.latches == (BoardLatches { mapper137_registers: c1.latches.mapper137_registers, ..l })
                &&& c1 == (Cartridge {
                    latches: c1.latches,
                    prg_bank: bank_mod(r[5] & 0x07, c0.prg_rom@.len(), 0x8000),
                    chr_bank: mapper137_chr_1k(r, 0) as u8,
                    mirroring: mapper137_mirroring(r[7]),
                    ..c0
                })
            } else {
                c1 == c0
            }
        })
}

/// The state change of [`Cartridge::write_prg_mapper150`].
pub open spec fn write_prg_mapper150_post(c0: Cartridge, c1: Cartridge, addr: u16, data: u8) -> bool {
    ({
            let sel = addr & 0xC101;
            let l = c0.latches;
            if sel == 0x4100 {
                c1 == Cartridge { latches: BoardLatches { mapper150_index: data & 0x07, ..l }, ..c0 }
            } else if sel == 0x4101 {
                let r = l.mapper150_registers@.update((l.mapper150_index % 8) as int, data & 0x07);
                &&& c1.latches.mapper150_registers@ == r
                &&& c1.latches == (BoardLatches { mapper150_registers: c1.latches.mapper150_registers, ..l })
                &&& c1 == (Cartridge {
                    latches: c1.latches,
                    prg_bank: bank_mod(r[5] & 0x03, c0.prg_rom@.len(), 0x8000),
                    chr_bank: bank_mod(mapper150_chr(r), c0.chr_rom@.len(), 0x2000),
                    mirroring: mapper150_mirroring(r[7]),
                    ..c0
                })
            } else {
                c1 == c0
            }
        })
}

/// The state change of [`Cartridge::write_prg_mapper243`].
pub open spec fn write_prg_mapper243_post(c0: Cartridge, c1: Cartridge, addr: u16, data: u8) -> bool {
    ({
            let sel = addr & 0xC101;
            let l = c0.latches;
            if sel == 0x4100 {
                c1 == Cartridge { latches: BoardLatches { mapper243_index: data & 0x07, ..l }, ..c0 }
            } else if sel == 0x4101 {
                let r = l.mapper243_registers@.update((l.mapper243_index % 8) as int, data & 0x07);
                &&& c1.latches.mapper243_registers@ == r
                &&& c1.latches == (BoardLatches { mapper243_registers: c1.latches.mapper243_registers, ..l })
                &&& c1 == (Cartridge {
                    latches: c1.latches,
                    prg_bank: bank_mod(r[5] & 0x03, c0.prg_rom@.len(), 0x8000),
                    chr_bank: bank_mod(mapper243_chr(r), c0.chr_rom@.len(), 0x2000),
                    mirroring: mapper243_mirroring(r[7]),
                    ..c0
                })
            } else {
                c1 == c0
            }
        })
}

} // verus!

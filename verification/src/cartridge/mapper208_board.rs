//! The Gouder 37017 board (mapper 208): an MMC3 for CHR and IRQs, a
//! 32 KiB PRG latch with the nametable bit at $4800 and $6800, and four
//! protection registers that store writes XORed with a table entry.

use vstd::prelude::*;
use crate::cartridge::Mirroring;
use crate::cartridge::load::Cartridge;
use crate::cartridge::board_latches::BoardLatches;
use crate::cartridge::latch_boards::bank_mod;
use crate::cartridge::multicart_boards::prg32_byte;
use crate::cartridge::mmc3_board::mmc3_prg_written;

verus! {

/// The protection table: a write to a protection register is XORed with
/// the entry at the last index written to $5000-$57FF.
pub open spec fn mapper208_lut() -> Seq<u8> {
    seq![
        0x59, 0x59, 0x59, 0x59, 0x59, 0x59, 0x59, 0x59, 0x59, 0x49, 0x19, 0x09, 0x59, 0x49, 0x19, 0x09,
        0x59, 0x59, 0x59, 0x59, 0x59, 0x59, 0x59, 0x59, 0x51, 0x41, 0x11, 0x01, 0x51, 0x41, 0x11, 0x01,
        0x59, 0x59, 0x59, 0x59, 0x59, 0x59, 0x59, 0x59, 0x59, 0x49, 0x19, 0x09, 0x59, 0x49, 0x19, 0x09,
        0x59, 0x59, 0x59, 0x59, 0x59, 0x59, 0x59, 0x59, 0x51, 0x41, 0x11, 0x01, 0x51, 0x41, 0x11, 0x01,
        0x00, 0x10, 0x40, 0x50, 0x00, 0x10, 0x40, 0x50, 0x00, 0x00, 0x00, 0x00, 0x00, 0x00, 0x00, 0x00,
        0x08, 0x18, 0x48, 0x58, 0x08, 0x18, 0x48, 0x58, 0x00, 0x00, 0x00, 0x00, 0x00, 0x00, 0x00, 0x00,
        0x00, 0x10, 0x40, 0x50, 0x00, 0x10, 0x40, 0x50, 0x00, 0x00, 0x00, 0x00, 0x00, 0x00, 0x00, 0x00,
        0x08, 0x18, 0x48, 0x58, 0x08, 0x18, 0x48, 0x58, 0x00, 0x00, 0x00, 0x00, 0x00, 0x00, 0x00, 0x00,
        0x59, 0x59, 0x59, 0x59, 0x59, 0x59, 0x59, 0x59, 0x58, 0x48, 0x18, 0x08, 0x58, 0x48, 0x18, 0x08,
        0x59, 0x59, 0x59, 0x59, 0x59, 0x59, 0x59, 0x59, 0x50, 0x40, 0x10, 0x00, 0x50, 0x40, 0x10, 0x00,
        0x59, 0x59, 0x59, 0x59, 0x59, 0x59, 0x59, 0x59, 0x58, 0x48, 0x18, 0x08, 0x58, 0x48, 0x18, 0x08,
        0x59, 0x59, 0x59, 0x59, 0x59, 0x59, 0x59, 0x59, 0x50, 0x40, 0x10, 0x00, 0x50, 0x40, 0x10, 0x00,
        0x01, 0x11, 0x41, 0x51, 0x01, 0x11, 0x41, 0x51, 0x00, 0x00, 0x00, 0x00, 0x00, 0x00, 0x00, 0x00,
        0x09, 0x19, 0x49, 0x59, 0x09, 0x19, 0x49, 0x59, 0x00, 0x00, 0x00, 0x00, 0x00, 0x00, 0x00, 0x00,
        0x01, 0x11, 0x41, 0x51, 0x01, 0x11, 0x41, 0x51, 0x00, 0x00, 0x00, 0x00, 0x00, 0x00, 0x00, 0x00,
        0x09, 0x19, 0x49, 0x59, 0x09, 0x19, 0x49, 0x59, 0x00, 0x00, 0x00, 0x00, 0x00, 0x00, 0x00, 0x00,
    ]
}

/// The cartridge after a PRG latch write: data bits 4 and 0 select the
/// 32 KiB bank (modulo the bank count), bit 5 horizontal mirroring.
pub open spec fn mapper208_applied(c: Cartridge, data: u8) -> Cartridge {
    Cartridge {
        prg_bank: bank_mod((((data >> 4u8) & 0x01) << 1u8) | (data & 0x01), c.prg_rom@.len(), 0x8000),
        mirroring: if data & 0x20 != 0 { Mirroring::Horizontal } else { Mirroring::Vertical },
        ..c
    }
}

impl Cartridge {
    /// The protection table entry at `index`.
    fn mapper208_protection_lut(index: u8) -> (r: u8)
        ensures
            r == mapper208_lut()[index as int],
    {
        let lut: [u8; 256] = [
        0x59, 0x59, 0x59, 0x59, 0x59, 0x59, 0x59, 0x59, 0x59, 0x49, 0x19, 0x09, 0x59, 0x49, 0x19, 0x09,
        0x59, 0x59, 0x59, 0x59, 0x59, 0x59, 0x59, 0x59, 0x51, 0x41, 0x11, 0x01, 0x51, 0x41, 0x11, 0x01,
        0x59, 0x59, 0x59, 0x59, 0x59, 0x59, 0x59, 0x59, 0x59, 0x49, 0x19, 0x09, 0x59, 0x49, 0x19, 0x09,
        0x59, 0x59, 0x59, 0x59, 0x59, 0x59, 0x59, 0x59, 0x51, 0x41, 0x11, 0x01, 0x51, 0x41, 0x11, 0x01,
        0x00, 0x10, 0x40, 0x50, 0x00, 0x10, 0x40, 0x50, 0x00, 0x00, 0x00, 0x00, 0x00, 0x00, 0x00, 0x00,
        0x08, 0x18, 0x48, 0x58, 0x08, 0x18, 0x48, 0x58, 0x00, 0x00, 0x00, 0x00, 0x00, 0x00, 0x00, 0x00,
        0x00, 0x10, 0x40, 0x50, 0x00, 0x10, 0x40, 0x50, 0x00, 0x00, 0x00, 0x00, 0x00, 0x00, 0x00, 0x00,
        0x08, 0x18, 0x48, 0x58, 0x08, 0x18, 0x48, 0x58, 0x00, 0x00, 0x00, 0x00, 0x00, 0x00, 0x00, 0x00,
        0x59, 0x59, 0x59, 0x59, 0x59, 0x59, 0x59, 0x59, 0x58, 0x48, 0x18, 0x08, 0x58, 0x48, 0x18, 0x08,
        0x59, 0x59, 0x59, 0x59, 0x59, 0x59, 0x59, 0x59, 0x50, 0x40, 0x10, 0x00, 0x50, 0x40, 0x10, 0x00,
        0x59, 0x59, 0x59, 0x59, 0x59, 0x59, 0x59, 0x59, 0x58, 0x48, 0x18, 0x08, 0x58, 0x48, 0x18, 0x08,
        0x59, 0x59, 0x59, 0x59, 0x59, 0x59, 0x59, 0x59, 0x50, 0x40, 0x10, 0x00, 0x50, 0x40, 0x10, 0x00,
        0x01, 0x11, 0x41, 0x51, 0x01, 0x11, 0x41, 0x51, 0x00, 0x00, 0x00, 0x00, 0x00, 0x00, 0x00, 0x00,
        0x09, 0x19, 0x49, 0x59, 0x09, 0x19, 0x49, 0x59, 0x00, 0x00, 0x00, 0x00, 0x00, 0x00, 0x00, 0x00,
        0x01, 0x11, 0x41, 0x51, 0x01, 0x11, 0x41, 0x51, 0x00, 0x00, 0x00, 0x00, 0x00, 0x00, 0x00, 0x00,
        0x09, 0x19, 0x49, 0x59, 0x09, 0x19, 0x49, 0x59, 0x00, 0x00, 0x00, 0x00, 0x00, 0x00, 0x00, 0x00,
        ];
        assert(lut@ =~= mapper208_lut());
        lut[index as usize]
    }

    /// See `mapper208_applied`.
    fn mapper208_apply_prg_and_mirroring(&mut self, data: u8)
        ensures
            *final(self) == mapper208_applied(*old(self), data),
    {
        self.prg_bank = Self::reduce_bank((((data >> 4) & 0x01) << 1) | (data & 0x01), self.prg_rom.len(), 0x8000);
        self.mirroring = if data & 0x20 != 0 { Mirroring::Horizontal } else { Mirroring::Vertical };
    }

    /// CPU read of $8000-$FFFF: the 32 KiB bank; 0 without ROM.
    pub fn read_prg_mapper208(&self, addr: u16) -> (r: u8)
        requires
            read_prg_mapper208_pre(*self, addr),
        ensures
            r == read_prg_mapper208_value(*self, addr),
    {
        if self.prg_rom.len() == 0 {
            return 0;
        }
        self.prg32_read(self.prg_bank as usize, addr)
    }

    /// CPU read of $4020-$5FFF: the protection register picked by address
    /// bits 0-1 at $5800-$5FFF; 0 elsewhere.
    pub fn read_prg_low_mapper208(&self, addr: u16) -> (r: u8)
        ensures
            r == if 0x5800 <= addr <= 0x5FFF { self.latches.mapper208_protection_regs@[(addr % 4) as int] } else { 0 },
    {
        if 0x5800 <= addr && addr <= 0x5FFF {
            self.latches.mapper208_protection_regs[(addr % 4) as usize]
        } else {
            0
        }
    }

    /// CPU write: the PRG latch at $4800-$4FFF, the protection index at
    /// $5000-$57FF, a protection register at $5800-$5FFF (data XORed with
    /// the table entry), the MMC3 at $8000-$9FFF and $C000-$FFFF.
    pub fn write_prg_mapper208(&mut self, addr: u16, data: u8)
        ensures
            write_prg_mapper208_post(*old(self), *final(self), addr, data),
    {
        if 0x4800 <= addr && addr <= 0x4FFF {
            self.mapper208_apply_prg_and_mirroring(data);
        } else if 0x5000 <= addr && addr <= 0x57FF {
            self.latches.mapper208_protection_index = data;
        } else if 0x5800 <= addr && addr <= 0x5FFF {
            let lut = Self::mapper208_protection_lut(self.latches.mapper208_protection_index);
            self.latches.mapper208_protection_regs[(addr % 4) as usize] = data ^ lut;
        } else if (0x8000 <= addr && addr <= 0x9FFF) || addr >= 0xC000 {
            self.write_prg_mmc3(addr, data);
        }
    }

    /// PRG-RAM area write: $6800-$6FFF is a second port of the PRG latch.
    pub fn write_prg_ram_mapper208(&mut self, addr: u16, data: u8)
        ensures
            write_prg_ram_mapper208_post(*old(self), *final(self), addr, data),
    {
        if 0x6800 <= addr && addr <= 0x6FFF {
            self.mapper208_apply_prg_and_mirroring(data);
        }
    }
}

/// The byte [`Cartridge::read_prg_mapper208`] returns.
pub open spec fn read_prg_mapper208_value(cart: Cartridge, addr: u16) -> u8 {
    if cart.prg_rom@.len() == 0 { 0 } else { prg32_byte(cart.prg_rom@, cart.prg_bank as nat, addr) }
}

/// What [`Cartridge::read_prg_mapper208`] needs.
pub open spec fn read_prg_mapper208_pre(cart: Cartridge, addr: u16) -> bool {
    addr >= 0x8000
}

/// The state change of [`Cartridge::write_prg_mapper208`].
pub open spec fn write_prg_mapper208_post(c0: Cartridge, c1: Cartridge, addr: u16, data: u8) -> bool {
    if 0x4800 <= addr <= 0x4FFF {
            c1 == mapper208_applied(c0, data)
        } else if 0x5000 <= addr <= 0x57FF {
            c1 == (Cartridge {
                latches: BoardLatches { mapper208_protection_index: data, ..c0.latches },
                ..c0
            })
        } else if 0x5800 <= addr <= 0x5FFF {
            &&& c1.latches.mapper208_protection_regs@ == c0.latches.mapper208_protection_regs@.update(
                (addr % 4) as int,
                data ^ mapper208_lut()[c0.latches.mapper208_protection_index as int],
            )
            &&& c1 == (Cartridge {
                latches: BoardLatches { mapper208_protection_regs: c1.latches.mapper208_protection_regs, ..c0.latches },
                ..c0
            })
        } else if (0x8000 <= addr <= 0x9FFF) || addr >= 0xC000 {
            mmc3_prg_written(c0, c1, addr, data)
        } else {
            c1 == c0
        }
}

/// The state change of [`Cartridge::write_prg_ram_mapper208`].
pub open spec fn write_prg_ram_mapper208_post(c0: Cartridge, c1: Cartridge, addr: u16, data: u8) -> bool {
    c1 == if 0x6800 <= addr <= 0x6FFF { mapper208_applied(c0, data) } else { c0 }
}

} // verus!

//! MMC1 boards (mapper 1) as the CPU and PPU see them: the PRG modes with
//! SUROM's outer 256 KiB bank, the 8 KiB or two 4 KiB CHR windows, and the
//! battery-backed PRG-RAM with its disable bits.

use vstd::prelude::*;
use crate::cartridge::load::Cartridge;
use crate::cartridge::mapper::mmc1::{Mmc1, mmc1_write, mmc1_mirroring, mmc1_prg_offset, mmc1_prg_readable};
use crate::cartridge::banks::pattern_memory;
use crate::bits::lemma_u8_masks;

verus! {

/// The pattern-memory offset of a PPU read at `addr`: in 8 KiB mode
/// (control bit 4 clear) the bank of CHR bank 0 bits 1-4; in 4 KiB mode CHR
/// bank 0 below $1000 and CHR bank 1 above.
pub open spec fn mmc1_chr_offset(m: Mmc1, addr: u16) -> int {
    if (m.control >> 4) & 0x01 == 0 {
        (((m.chr_bank_0 & 0x1E) >> 1) as int) * 0x2000 + addr
    } else if addr < 0x1000 {
        (m.chr_bank_0 as int) * 0x1000 + addr
    } else {
        (m.chr_bank_1 as int) * 0x1000 + (addr - 0x1000)
    }
}

/// PRG-RAM is shut off only while both control bit 4 and the PRG bank
/// register's disable bit are set.
pub open spec fn mmc1_prg_ram_blocked(c: Cartridge) -> bool {
    match c.mmc1 {
        Some(m) => m.control & 0x10 != 0 && m.prg_ram_disable,
        None => false,
    }
}

impl Cartridge {
    /// A CPU read of PRG-ROM in the four PRG modes, with the outer 256 KiB
    /// bank of 512 KiB boards; 0 past the end of the ROM or without the
    /// chip. `rom_addr` is the position in the $8000 window.
    pub fn read_prg_mmc1(&self, addr: u16, rom_addr: u16) -> (r: u8)
        requires
            read_prg_mmc1_pre(*self, addr, rom_addr),
        ensures
            r == read_prg_mmc1_value(*self, addr, rom_addr),
    {
        let m = match &self.mmc1 {
            Some(m) => m,
            None => {
                return 0;
            },
        };
        let prg_mode = (m.control >> 2) & 0x03;
        let len = self.prg_rom.len();
        let prg_size = len / 0x4000;
        let prg_bank_hi: usize = if prg_size > 16 { ((m.chr_bank_0 >> 4) & 0x01) as usize } else { 0 };
        proof {
            let cb = m.chr_bank_0;
            lemma_u8_masks(cb);
        }
        let offset: u128;
        if prg_mode <= 1 {
            let bank = (prg_bank_hi << 3) | (((m.prg_bank & 0x0E) >> 1) as usize);
            proof {
                let pb = m.prg_bank;
                let lo = ((pb & 0x0E) >> 1) as usize;
                assert(prg_bank_hi <= 1 && lo < 8 ==> (prg_bank_hi << 3usize) | lo == prg_bank_hi * 8 + lo) by (bit_vector);
                lemma_u8_masks(pb);
            }
            let max_banks = len / 0x8000;
            let safe = bank % max_banks;
            offset = (safe as u128) * 0x8000 + (rom_addr as u128);
        } else if prg_mode == 2 && addr < 0xC000 {
            offset = (prg_bank_hi as u128) * 0x40000 + (rom_addr as u128);
        } else if addr < 0xC000 || prg_mode == 2 {
            let bank = (prg_bank_hi << 4) | ((m.prg_bank & 0x0F) as usize);
            proof {
                let pb = m.prg_bank;
                let lo = (pb & 0x0F) as usize;
                assert(prg_bank_hi <= 1 && lo < 16 ==> (prg_bank_hi << 4usize) | lo == prg_bank_hi * 16 + lo) by (bit_vector);
                lemma_u8_masks(pb);
            }
            let max_banks = len / 0x4000;
            let safe = bank % max_banks;
            let local = if addr < 0xC000 { rom_addr as u128 } else { (addr - 0xC000) as u128 };
            offset = (safe as u128) * 0x4000 + local;
        } else if len > 0x40000 {
            offset = (prg_bank_hi as u128) * 0x40000 + 0x3C000 + ((addr - 0xC000) as u128);
        } else {
            offset = (len - 0x4000) as u128 + ((addr - 0xC000) as u128);
        }
        assert(offset == mmc1_prg_offset(*m, addr, rom_addr, len as nat));
        if offset < len as u128 {
            self.prg_rom[offset as usize]
        } else {
            0
        }
    }

    /// A CPU write at $8000-$FFFF: the chip's serial port; a write that
    /// loads the control register also sets the nametable arrangement.
    /// Nothing happens without the chip.
    pub fn write_prg_mmc1(&mut self, addr: u16, data: u8)
        ensures
            write_prg_mmc1_post(*old(self), *final(self), addr, data),
    {
        let mut m = match self.mmc1.take() {
            Some(m) => m,
            None => {
                return;
            },
        };
        let mirroring = m.write_register(addr, data);
        self.mmc1 = Some(m);
        if let Some(mirroring) = mirroring {
            self.mirroring = mirroring;
        }
    }

    /// A PPU read of pattern memory (CHR-RAM when the board has some, else
    /// CHR-ROM) in the chip's CHR mode; 0 past its end or without the chip.
    pub fn read_chr_mmc1(&self, addr: u16) -> (r: u8)
        ensures
            r == read_chr_mmc1_value(*self, addr),
    {
        let m = match &self.mmc1 {
            Some(m) => m,
            None => {
                return 0;
            },
        };
        let offset = Self::mmc1_chr_position(m, addr);
        if self.chr_ram.len() > 0 {
            if offset < self.chr_ram.len() { self.chr_ram[offset] } else { 0 }
        } else if offset < self.chr_rom.len() {
            self.chr_rom[offset]
        } else {
            0
        }
    }

    /// The pattern-memory offset of `addr` in the chip's CHR mode.
    fn mmc1_chr_position(m: &Mmc1, addr: u16) -> (offset: usize)
        ensures
            offset == mmc1_chr_offset(*m, addr),
    {
        let chr_mode = (m.control >> 4) & 0x01;
        if chr_mode == 0 {
            let bank = (m.chr_bank_0 & 0x1E) >> 1;
            proof {
                let cb = m.chr_bank_0;
                assert((cb & 0x1E) >> 1u8 < 16) by (bit_vector);
            }
            (bank as usize) * 0x2000 + (addr as usize)
        } else if addr < 0x1000 {
            (m.chr_bank_0 as usize) * 0x1000 + (addr as usize)
        } else {
            (m.chr_bank_1 as usize) * 0x1000 + ((addr - 0x1000) as usize)
        }
    }

    /// A PPU write of pattern memory in the chip's CHR mode: into CHR-RAM
    /// when the board has some, else into the CHR-ROM image; nothing past
    /// its end or without the chip.
    pub fn write_chr_mmc1(&mut self, addr: u16, data: u8)
        ensures
            write_chr_mmc1_post(*old(self), *final(self), addr, data),
    {
        let offset = match &self.mmc1 {
            Some(m) => Self::mmc1_chr_position(m, addr),
            None => {
                return;
            },
        };
        if self.chr_ram.len() > 0 {
            if offset < self.chr_ram.len() {
                self.chr_ram.set(offset, data);
            }
        } else if offset < self.chr_rom.len() {
            self.chr_rom.set(offset, data);
        }
    }

    /// A CPU read of PRG-RAM at $6000-$7FFF; 0 while shut off, past its end
    /// or without RAM.
    pub fn read_prg_ram_mmc1(&self, addr: u16) -> (r: u8)
        requires
            read_prg_ram_mmc1_pre(*self, addr),
        ensures
            r == read_prg_ram_mmc1_value(*self, addr),
    {
        if self.prg_ram.len() == 0 {
            return 0;
        }
        if let Some(m) = &self.mmc1 {
            let e_bit_clear = (m.control & 0x10) == 0;
            let r_bit_clear = !m.prg_ram_disable;
            if !e_bit_clear && !r_bit_clear {
                return 0x00;
            }
        }
        let ram_addr = (addr - 0x6000) as usize;
        if ram_addr < self.prg_ram.len() {
            self.prg_ram[ram_addr]
        } else {
            0
        }
    }

    /// A CPU write of PRG-RAM at $6000-$7FFF, unless shut off or past its
    /// end; writing $5A at $60B7 marks the save data valid.
    pub fn write_prg_ram_mmc1(&mut self, addr: u16, data: u8)
        requires
            write_prg_ram_mmc1_pre(*old(self), addr, data),
        ensures
            write_prg_ram_mmc1_post(*old(self), *final(self), addr, data),
    {
        if self.prg_ram.len() == 0 {
            return;
        }
        if let Some(m) = &self.mmc1 {
            let e_bit_clear = (m.control & 0x10) == 0;
            let r_bit_clear = !m.prg_ram_disable;
            if !e_bit_clear && !r_bit_clear {
                return;
            }
        }
        let ram_addr = (addr - 0x6000) as usize;
        if ram_addr < self.prg_ram.len() {
            self.prg_ram.set(ram_addr, data);
            if addr == 0x60B7 && data == 0x5A {
                self.has_valid_save_data = true;
            }
        }
    }
}

/// The byte [`Cartridge::read_chr_mmc1`] returns.
pub open spec fn read_chr_mmc1_value(cart: Cartridge, addr: u16) -> u8 {
    match cart.mmc1 {
            Some(m) => {
                let off = mmc1_chr_offset(m, addr);
                if off < pattern_memory(cart).len() { pattern_memory(cart)[off] } else { 0 }
            },
            None => 0,
        }
}

/// The byte [`Cartridge::read_prg_mmc1`] returns.
pub open spec fn read_prg_mmc1_value(cart: Cartridge, addr: u16, rom_addr: u16) -> u8 {
    match cart.mmc1 {
            Some(m) => {
                let off = mmc1_prg_offset(m, addr, rom_addr, cart.prg_rom@.len());
                if 0 <= off < cart.prg_rom@.len() { cart.prg_rom@[off] } else { 0 }
            },
            None => 0,
        }
}

/// What [`Cartridge::read_prg_mmc1`] needs.
pub open spec fn read_prg_mmc1_pre(cart: Cartridge, addr: u16, rom_addr: u16) -> bool {
    cart.mmc1 is Some ==> mmc1_prg_readable(cart.mmc1.unwrap(), addr, cart.prg_rom@.len())
}

/// The byte [`Cartridge::read_prg_ram_mmc1`] returns.
pub open spec fn read_prg_ram_mmc1_value(cart: Cartridge, addr: u16) -> u8 {
    if cart.prg_ram@.len() == 0 || mmc1_prg_ram_blocked(cart) || addr - 0x6000 >= cart.prg_ram@.len() {
            0
        } else {
            cart.prg_ram@[addr - 0x6000]
        }
}

/// What [`Cartridge::read_prg_ram_mmc1`] needs.
pub open spec fn read_prg_ram_mmc1_pre(cart: Cartridge, addr: u16) -> bool {
    cart.prg_ram@.len() > 0 && !mmc1_prg_ram_blocked(cart) ==> addr >= 0x6000
}

/// The state change of [`Cartridge::write_chr_mmc1`].
pub open spec fn write_chr_mmc1_post(c0: Cartridge, c1: Cartridge, addr: u16, data: u8) -> bool {
    match c0.mmc1 {
            Some(m) => {
                let off = mmc1_chr_offset(m, addr);
                if c0.chr_ram@.len() > 0 {
                    &&& c1.chr_ram@ == if off < c0.chr_ram@.len() {
                        c0.chr_ram@.update(off, data)
                    } else {
                        c0.chr_ram@
                    }
                    &&& c1 == (Cartridge { chr_ram: c1.chr_ram, ..c0 })
                } else {
                    &&& c1.chr_rom@ == if off < c0.chr_rom@.len() {
                        c0.chr_rom@.update(off, data)
                    } else {
                        c0.chr_rom@
                    }
                    &&& c1 == (Cartridge { chr_rom: c1.chr_rom, ..c0 })
                }
            },
            None => c1 == c0,
        }
}

/// The state change of [`Cartridge::write_prg_mmc1`].
pub open spec fn write_prg_mmc1_post(c0: Cartridge, c1: Cartridge, addr: u16, data: u8) -> bool {
    match c0.mmc1 {
            Some(m) => c1 == (Cartridge {
                mmc1: Some(mmc1_write(m, addr, data)),
                mirroring: if data & 0x80 == 0 && m.shift_count >= 4 && 0x8000 <= addr < 0xA000 {
                    mmc1_mirroring(mmc1_write(m, addr, data).control)
                } else {
                    c0.mirroring
                },
                ..c0
            }),
            None => c1 == c0,
        }
}

/// The state change of [`Cartridge::write_prg_ram_mmc1`].
pub open spec fn write_prg_ram_mmc1_post(c0: Cartridge, c1: Cartridge, addr: u16, data: u8) -> bool {
    ({
            let stored = c0.prg_ram@.len() > 0 && !mmc1_prg_ram_blocked(c0)
                && addr - 0x6000 < c0.prg_ram@.len();
            &&& c1.prg_ram@ == if stored {
                c0.prg_ram@.update(addr - 0x6000, data)
            } else {
                c0.prg_ram@
            }
            &&& c1.has_valid_save_data == (c0.has_valid_save_data
                || (stored && addr == 0x60B7 && data == 0x5A))
            &&& c1 == (Cartridge {
                prg_ram: c1.prg_ram,
                has_valid_save_data: c1.has_valid_save_data,
                ..c0
            })
        })
}

/// What [`Cartridge::write_prg_ram_mmc1`] needs.
pub open spec fn write_prg_ram_mmc1_pre(c0: Cartridge, addr: u16, data: u8) -> bool {
    c0.prg_ram@.len() > 0 && !mmc1_prg_ram_blocked(c0) ==> addr >= 0x6000
}

} // verus!

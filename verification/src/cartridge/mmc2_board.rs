//! MMC2 and MMC4 boards (mappers 9 and 10): PRG banking, the bank
//! registers at $A000-$FFFF, and the CHR banks that the PPU switches itself
//! by fetching the tiles at $xFD8 and $xFE8.

use vstd::prelude::*;
use crate::cartridge::Mirroring;
use crate::cartridge::load::Cartridge;
use crate::cartridge::mapper::mmc2::Mmc2;
use crate::bits::lemma_u16_masks;

verus! {

/// The 4 KiB CHR bank in use for pattern address `addr`: the half at
/// $0000 uses latch 0, the half at $1000 latch 1, each choosing its $FE or
/// $FD bank.
pub open spec fn mmc2_chr_bank(m: Mmc2, addr: u16) -> u8 {
    if addr < 0x1000 {
        if m.latch_0 { m.chr_bank_0_fe } else { m.chr_bank_0_fd }
    } else if m.latch_1 {
        m.chr_bank_1_fe
    } else {
        m.chr_bank_1_fd
    }
}

/// The latches after the PPU fetched `addr`: $0FD8-$0FDF and $0FE8-$0FEF
/// set latch 0 to $FD or $FE, $1FD8-$1FDF and $1FE8-$1FEF latch 1.
pub open spec fn mmc2_after_fetch(m: Mmc2, addr: u16) -> Mmc2 {
    if 0x0FD8 <= addr <= 0x0FDF {
        Mmc2 { latch_0: false, ..m }
    } else if 0x0FE8 <= addr <= 0x0FEF {
        Mmc2 { latch_0: true, ..m }
    } else if 0x1FD8 <= addr <= 0x1FDF {
        Mmc2 { latch_1: false, ..m }
    } else if 0x1FE8 <= addr <= 0x1FEF {
        Mmc2 { latch_1: true, ..m }
    } else {
        m
    }
}

/// The CHR position pattern address `addr` ($0000-$1FFF) reaches.
pub open spec fn mmc2_chr_offset(m: Mmc2, addr: u16) -> int {
    (mmc2_chr_bank(m, addr) as int) * 0x1000 + (addr % 0x1000) as int
}

/// The chip after a CPU write of `data` at `addr`: $A000 PRG bank, $B000
/// to $E000 the four CHR banks ($FD/$FE of each half).
pub open spec fn mmc2_write(m: Mmc2, addr: u16, data: u8) -> Mmc2 {
    if 0xA000 <= addr <= 0xAFFF {
        Mmc2 { prg_bank: data & 0x0F, ..m }
    } else if 0xB000 <= addr <= 0xBFFF {
        Mmc2 { chr_bank_0_fd: data & 0x1F, ..m }
    } else if 0xC000 <= addr <= 0xCFFF {
        Mmc2 { chr_bank_0_fe: data & 0x1F, ..m }
    } else if 0xD000 <= addr <= 0xDFFF {
        Mmc2 { chr_bank_1_fd: data & 0x1F, ..m }
    } else if 0xE000 <= addr <= 0xEFFF {
        Mmc2 { chr_bank_1_fe: data & 0x1F, ..m }
    } else {
        m
    }
}

/// The latch law: after the PPU fetches a tile byte at $0FE8-$0FEF, every
/// fetch from $0000-$0FFF uses the $FE bank of the first half, until a fetch
/// at $0FD8-$0FDF switches it to the $FD bank; fetches elsewhere in the
/// first half leave the choice alone. The same holds of the second half.
pub proof fn lemma_mmc2_latch_selects_bank(m: Mmc2, trigger: u16, next: u16)
    requires
        next < 0x1000,
    ensures
        0x0FE8 <= trigger <= 0x0FEF ==> mmc2_chr_bank(mmc2_after_fetch(m, trigger), next) == m.chr_bank_0_fe,
        0x0FD8 <= trigger <= 0x0FDF ==> mmc2_chr_bank(mmc2_after_fetch(m, trigger), next) == m.chr_bank_0_fd,
        trigger >= 0x1000 ==> mmc2_chr_bank(mmc2_after_fetch(m, trigger), next) == mmc2_chr_bank(m, next),
        0x1FE8 <= trigger <= 0x1FEF ==> mmc2_chr_bank(mmc2_after_fetch(m, trigger), (next + 0x1000) as u16) == m.chr_bank_1_fe,
        0x1FD8 <= trigger <= 0x1FDF ==> mmc2_chr_bank(mmc2_after_fetch(m, trigger), (next + 0x1000) as u16) == m.chr_bank_1_fd,
{
}

impl Cartridge {
    /// A CPU read of PRG-ROM: on MMC2 an 8 KiB bank at $8000 and the last
    /// 24 KiB fixed; on MMC4 a 16 KiB bank at $8000 and the last 16 KiB fixed;
    /// 0 past the end or without the chip. `rom_addr` is `addr - $8000`.
    pub fn read_prg_mmc2(&self, addr: u16, rom_addr: u16) -> (r: u8)
        requires
            read_prg_mmc2_pre(*self, addr, rom_addr),
        ensures
            r == read_prg_mmc2_value(*self, addr, rom_addr),
    {
        match &self.mmc2 {
            None => 0,
            Some(m) => {
                let len = self.prg_rom.len();
                let offset = if self.mapper == 9 {
                    if addr < 0xA000 {
                        (m.prg_bank as usize) * 0x2000 + (rom_addr as usize)
                    } else {
                        len - 0x6000 + ((addr - 0xA000) as usize)
                    }
                } else if addr < 0xC000 {
                    (m.prg_bank as usize) * 0x4000 + (rom_addr as usize)
                } else {
                    len - 0x4000 + ((addr - 0xC000) as usize)
                };
                if offset < len { self.prg_rom[offset] } else { 0 }
            },
        }
    }

    /// A CPU write: the chip's registers, and at $F000-$FFFF the nametable
    /// arrangement (bit 0: horizontal).
    pub fn write_prg_mmc2(&mut self, addr: u16, data: u8)
        ensures
            write_prg_mmc2_post(*old(self), *final(self), addr, data),
    {
        match self.mmc2.take() {
            None => {},
            Some(m) => {
                let mut m = m;
                if 0xA000 <= addr && addr <= 0xAFFF {
                    m.prg_bank = data & 0x0F;
                } else if 0xB000 <= addr && addr <= 0xBFFF {
                    m.chr_bank_0_fd = data & 0x1F;
                } else if 0xC000 <= addr && addr <= 0xCFFF {
                    m.chr_bank_0_fe = data & 0x1F;
                } else if 0xD000 <= addr && addr <= 0xDFFF {
                    m.chr_bank_1_fd = data & 0x1F;
                } else if 0xE000 <= addr && addr <= 0xEFFF {
                    m.chr_bank_1_fe = data & 0x1F;
                } else if addr >= 0xF000 {
                    self.mirroring = if data & 0x01 != 0 { Mirroring::Horizontal } else { Mirroring::Vertical };
                }
                self.mmc2 = Some(m);
            },
        }
    }

    /// A PPU fetch of pattern memory: the byte of the bank the latch selects
    /// (CHR-RAM when the board has it, else CHR-ROM; 0 past the end); the
    /// fetch then moves the latches.
    pub fn read_chr_mmc2(&mut self, addr: u16) -> (r: u8)
        ensures
            read_chr_mmc2_post(*old(self), *final(self), addr, r),
    {
        match self.mmc2.take() {
            None => 0,
            Some(m) => {
                let mut m = m;
                let bank = if addr < 0x1000 {
                    if m.latch_0 { m.chr_bank_0_fe } else { m.chr_bank_0_fd }
                } else if m.latch_1 {
                    m.chr_bank_1_fe
                } else {
                    m.chr_bank_1_fd
                };
                proof {
                    lemma_u16_masks(addr);
                }
                let offset = (bank as usize) * 0x1000 + ((addr & 0x0FFF) as usize);
                let data = if self.chr_ram.len() > 0 {
                    if offset < self.chr_ram.len() { self.chr_ram[offset] } else { 0 }
                } else if offset < self.chr_rom.len() {
                    self.chr_rom[offset]
                } else {
                    0
                };
                if 0x0FD8 <= addr && addr <= 0x0FDF {
                    m.latch_0 = false;
                } else if 0x0FE8 <= addr && addr <= 0x0FEF {
                    m.latch_0 = true;
                } else if 0x1FD8 <= addr && addr <= 0x1FDF {
                    m.latch_1 = false;
                } else if 0x1FE8 <= addr && addr <= 0x1FEF {
                    m.latch_1 = true;
                }
                self.mmc2 = Some(m);
                data
            },
        }
    }

    /// A PPU write of pattern memory, into the bank the latch selects.
    pub fn write_chr_mmc2(&mut self, addr: u16, data: u8)
        ensures
            write_chr_mmc2_post(*old(self), *final(self), addr, data),
    {
        let bank = match &self.mmc2 {
            None => {
                return;
            },
            Some(m) => if addr < 0x1000 {
                if m.latch_0 { m.chr_bank_0_fe } else { m.chr_bank_0_fd }
            } else if m.latch_1 {
                m.chr_bank_1_fe
            } else {
                m.chr_bank_1_fd
            },
        };
        proof {
            lemma_u16_masks(addr);
        }
        let offset = (bank as usize) * 0x1000 + ((addr & 0x0FFF) as usize);
        if self.chr_ram.len() > 0 {
            if offset < self.chr_ram.len() {
                self.chr_ram.set(offset, data);
            }
        } else if offset < self.chr_rom.len() {
            self.chr_rom.set(offset, data);
        }
    }

    /// A CPU read of PRG-RAM at `addr` ($6000-$7FFF); 0 past its end.
    pub fn read_prg_ram_mmc2(&self, addr: u16) -> (r: u8)
        requires
            read_prg_ram_mmc2_pre(*self, addr),
        ensures
            r == read_prg_ram_mmc2_value(*self, addr),
    {
        let a = (addr - 0x6000) as usize;
        if a < self.prg_ram.len() { self.prg_ram[a] } else { 0 }
    }

    /// A CPU write of PRG-RAM at `addr` ($6000-$7FFF).
    pub fn write_prg_ram_mmc2(&mut self, addr: u16, data: u8)
        requires
            write_prg_ram_mmc2_pre(*old(self), addr, data),
        ensures
            write_prg_ram_mmc2_post(*old(self), *final(self), addr, data),
    {
        let a = (addr - 0x6000) as usize;
        if a < self.prg_ram.len() {
            self.prg_ram.set(a, data);
        }
    }
}

/// The state change of [`Cartridge::read_chr_mmc2`].
pub open spec fn read_chr_mmc2_post(c0: Cartridge, c1: Cartridge, addr: u16, r: u8) -> bool {
    match c0.mmc2 {
            Some(m) => {
                let mem = if c0.chr_ram@.len() > 0 { c0.chr_ram@ } else { c0.chr_rom@ };
                let offset = mmc2_chr_offset(m, addr);
                &&& r == if offset < mem.len() { mem[offset] } else { 0 }
                &&& c1 == (Cartridge { mmc2: Some(mmc2_after_fetch(m, addr)), ..c0 })
            },
            None => r == 0 && c1 == c0,
        }
}

/// The byte [`Cartridge::read_prg_mmc2`] returns.
pub open spec fn read_prg_mmc2_value(cart: Cartridge, addr: u16, rom_addr: u16) -> u8 {
    match cart.mmc2 {
            Some(m) => {
                let len = cart.prg_rom@.len();
                let offset = if cart.mapper == 9 {
                    if addr < 0xA000 {
                        (m.prg_bank as int) * 0x2000 + rom_addr
                    } else {
                        len - 0x6000 + (addr - 0xA000)
                    }
                } else if addr < 0xC000 {
                    (m.prg_bank as int) * 0x4000 + rom_addr
                } else {
                    len - 0x4000 + (addr - 0xC000)
                };
                if 0 <= offset < len { cart.prg_rom@[offset] } else { 0 }
            },
            None => 0,
        }
}

/// What [`Cartridge::read_prg_mmc2`] needs.
pub open spec fn read_prg_mmc2_pre(cart: Cartridge, addr: u16, rom_addr: u16) -> bool {
        &&& cart.mapper == 9 && addr >= 0xA000 ==> cart.prg_rom@.len() >= 0x6000
        &&& cart.mapper != 9 && addr >= 0xC000 ==> cart.prg_rom@.len() >= 0x4000
}

/// The byte [`Cartridge::read_prg_ram_mmc2`] returns.
pub open spec fn read_prg_ram_mmc2_value(cart: Cartridge, addr: u16) -> u8 {
    if addr - 0x6000 < cart.prg_ram@.len() { cart.prg_ram@[addr - 0x6000] } else { 0 }
}

/// What [`Cartridge::read_prg_ram_mmc2`] needs.
pub open spec fn read_prg_ram_mmc2_pre(cart: Cartridge, addr: u16) -> bool {
    addr >= 0x6000
}

/// The state change of [`Cartridge::write_chr_mmc2`].
pub open spec fn write_chr_mmc2_post(c0: Cartridge, c1: Cartridge, addr: u16, data: u8) -> bool {
    match c0.mmc2 {
            Some(m) => {
                let offset = mmc2_chr_offset(m, addr);
                if c0.chr_ram@.len() > 0 {
                    &&& c1.chr_ram@ == if offset < c0.chr_ram@.len() {
                        c0.chr_ram@.update(offset, data)
                    } else {
                        c0.chr_ram@
                    }
                    &&& c1 == (Cartridge { chr_ram: c1.chr_ram, ..c0 })
                } else {
                    &&& c1.chr_rom@ == if offset < c0.chr_rom@.len() {
                        c0.chr_rom@.update(offset, data)
                    } else {
                        c0.chr_rom@
                    }
                    &&& c1 == (Cartridge { chr_rom: c1.chr_rom, ..c0 })
                }
            },
            None => c1 == c0,
        }
}

/// The state change of [`Cartridge::write_prg_mmc2`].
pub open spec fn write_prg_mmc2_post(c0: Cartridge, c1: Cartridge, addr: u16, data: u8) -> bool {
    match c0.mmc2 {
            Some(m) => c1 == (Cartridge {
                mmc2: Some(mmc2_write(m, addr, data)),
                mirroring: if addr >= 0xF000 {
                    if data & 0x01 != 0 { Mirroring::Horizontal } else { Mirroring::Vertical }
                } else {
                    c0.mirroring
                },
                ..c0
            }),
            None => c1 == c0,
        }
}

/// The state change of [`Cartridge::write_prg_ram_mmc2`].
pub open spec fn write_prg_ram_mmc2_post(c0: Cartridge, c1: Cartridge, addr: u16, data: u8) -> bool {
        &&& c1.prg_ram@ == if addr - 0x6000 < c0.prg_ram@.len() {
                c0.prg_ram@.update(addr - 0x6000, data)
            } else {
                c0.prg_ram@
            }
        &&& c1 == (Cartridge { prg_ram: c1.prg_ram, ..c0 })
}

/// What [`Cartridge::write_prg_ram_mmc2`] needs.
pub open spec fn write_prg_ram_mmc2_pre(c0: Cartridge, addr: u16, data: u8) -> bool {
    addr >= 0x6000
}

} // verus!

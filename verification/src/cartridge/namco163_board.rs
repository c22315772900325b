//! The Namco 163 board (mapper 19): PRG in 8 KiB banks, pattern and
//! nametable slots that show CHR-ROM or the console's nametable RAM (kept
//! in CHR-RAM), work RAM with write protection, the chip-RAM data port and
//! the IRQ counter registers at $4800-$5FFF, and the sound channels.

use vstd::prelude::*;
use crate::cartridge::load::Cartridge;
use crate::cartridge::discrete::bank_count;
use crate::cartridge::mapper::namco163::{
    Namco163, NAMCO163_WRAM_LEN, NAMCO163_INTERNAL_RAM_LEN, n163_irq_clocked, n163_channel_clocked,
    n163_prg_written, n163_after_port, n163_low_written,
};

verus! {

/// `s[i]`, or 0 past the end.
pub open spec fn byte_or_zero(s: Seq<u8>, i: int) -> u8 {
    if 0 <= i < s.len() { s[i] } else { 0 }
}

/// Position in the nametable RAM (CHR-RAM) of `offset` in bank `bank`:
/// the bank's low bit picks one of the two 1 KiB pages.
pub open spec fn n163_ciram(bank: u8, offset: int) -> int {
    ((bank % 2) as int) * 0x400 + offset
}

/// Whether pattern slot `slot` (0-7) or nametable slot (8-11) shows
/// nametable RAM for `bank`: banks $E0 and up do, in the pattern halves
/// unless the chip disables it.
pub open spec fn n163_uses_ciram(c: Cartridge, slot: int, bank: u8) -> bool {
    if bank < 0xE0 {
        false
    } else if 0 <= slot <= 3 {
        match c.namco163 {
            Some(n) => !n.chr_nt_disabled_low,
            None => false,
        }
    } else if 4 <= slot <= 7 {
        match c.namco163 {
            Some(n) => !n.chr_nt_disabled_high,
            None => false,
        }
    } else {
        true
    }
}

/// The byte at `offset` of `bank` in slot `slot`: nametable RAM, or the
/// 1 KiB CHR-ROM bank (modulo the bank count); 0 past the end.
pub open spec fn n163_chr_bank_byte(c: Cartridge, bank: u8, offset: int, slot: int) -> u8 {
    if n163_uses_ciram(c, slot, bank) {
        byte_or_zero(c.chr_ram@, n163_ciram(bank, offset))
    } else {
        byte_or_zero(c.chr_rom@, ((bank as nat) % bank_count(c.chr_rom@.len(), 0x400)) * 0x400 + offset)
    }
}

/// The PRG byte at `addr`: the three 8 KiB bank registers at $8000, $A000,
/// $C000 and the last bank at $E000 (modulo the bank count); 0 below $8000
/// or past the end.
pub open spec fn n163_prg_byte(c: Cartridge, n: Namco163, addr: u16) -> u8 {
    let count = bank_count(c.prg_rom@.len(), 0x2000);
    if addr < 0x8000 {
        0
    } else {
        let bank: int = if addr <= 0x9FFF {
            n.prg_banks@[0] as int
        } else if addr <= 0xBFFF {
            n.prg_banks@[1] as int
        } else if addr <= 0xDFFF {
            n.prg_banks@[2] as int
        } else {
            count - 1
        };
        byte_or_zero(c.prg_rom@, (bank % (count as int)) * 0x2000 + (addr as int) % 0x2000)
    }
}

/// Position in board RAM of the chip-RAM byte the port addresses.
pub open spec fn n163_port_index(n: Namco163) -> int {
    NAMCO163_WRAM_LEN as int + (n.internal_addr % 128) as int
}

/// Whether a work-RAM write at `addr` is allowed: writes enabled and the
/// 2 KiB window's protect bit clear.
pub open spec fn n163_wram_writable(n: Namco163, addr: u16) -> bool {
    let window = (((addr - 0x6000) / 0x800) % 4) as u8;
    n.wram_write_enable && (n.wram_write_protect >> window) & 1 == 0
}

/// Nametable RAM after a nametable write through slot 8-11: banks $E0 and
/// up store into it; unchanged otherwise and without the chip.
pub open spec fn n163_nt_chr_ram(c: Cartridge, logical_nt: usize, offset: usize, data: u8) -> Seq<u8> {
    match c.namco163 {
        Some(n) => {
            let bank = n.chr_banks@[8 + (logical_nt % 4) as int];
            let i = n163_ciram(bank, offset as int);
            if bank >= 0xE0 && i < c.chr_ram@.len() { c.chr_ram@.update(i, data) } else { c.chr_ram@ }
        },
        None => c.chr_ram@,
    }
}

/// A CPU read of $4800-$5FFF: the chip-RAM byte at the port address (0
/// past the RAM), the counter's low byte, or the enable bit over the
/// counter's high seven bits; 0 elsewhere.
pub open spec fn n163_low_value(c: Cartridge, n: Namco163, addr: u16) -> u8 {
    if 0x4800 <= addr <= 0x4FFF {
        byte_or_zero(c.prg_ram@, n163_port_index(n))
    } else if 0x5000 <= addr <= 0x57FF {
        n.irq_counter as u8
    } else if 0x5800 <= addr <= 0x5FFF {
        ((if n.irq_enabled { 1u8 } else { 0u8 }) << 7u8) | (((n.irq_counter >> 8u16) as u8) & 0x7F)
    } else {
        0
    }
}

impl Cartridge {
    /// Number of 1 KiB CHR-ROM banks (at least one).
    fn namco163_chr_rom_bank_count_1k(&self) -> (r: usize)
        ensures
            r == bank_count(self.chr_rom@.len(), 0x400),
    {
        let len = self.chr_rom.len();
        if len / 0x0400 > 1 { len / 0x0400 } else { 1 }
    }

    /// Number of 8 KiB PRG-ROM banks (at least one).
    fn namco163_prg_rom_bank_count_8k(&self) -> (r: usize)
        ensures
            r == bank_count(self.prg_rom@.len(), 0x2000),
    {
        let len = self.prg_rom.len();
        if len / 0x2000 > 1 { len / 0x2000 } else { 1 }
    }

    /// See `n163_ciram`.
    fn namco163_ciram_addr(bank: u8, offset: usize) -> (r: u128)
        ensures
            r == n163_ciram(bank, offset as int),
    {
        ((bank % 2) as u128) * 0x0400 + offset as u128
    }

    /// See `n163_uses_ciram`.
    pub fn namco163_chr_bank_uses_ciram(&self, slot: usize, bank: u8) -> (r: bool)
        ensures
            r == n163_uses_ciram(*self, slot as int, bank),
    {
        if bank < 0xE0 {
            return false;
        }
        if slot <= 3 {
            match &self.namco163 {
                Some(n) => !n.chr_nt_disabled_low,
                None => false,
            }
        } else if slot <= 7 {
            match &self.namco163 {
                Some(n) => !n.chr_nt_disabled_high,
                None => false,
            }
        } else {
            true
        }
    }

    /// See `n163_chr_bank_byte`.
    pub fn read_namco163_chr_bank(&self, bank: u8, offset: usize, slot: usize) -> (r: u8)
        ensures
            r == n163_chr_bank_byte(*self, bank, offset as int, slot as int),
    {
        if self.namco163_chr_bank_uses_ciram(slot, bank) {
            let ciram_addr = Self::namco163_ciram_addr(bank, offset);
            return if ciram_addr < self.chr_ram.len() as u128 { self.chr_ram[ciram_addr as usize] } else { 0 };
        }
        let count = self.namco163_chr_rom_bank_count_1k();
        let chr_addr: u128 = (((bank as usize) % count) as u128) * 0x0400 + offset as u128;
        if chr_addr < self.chr_rom.len() as u128 { self.chr_rom[chr_addr as usize] } else { 0 }
    }

    /// A write into slot `slot`'s bank reaches nametable RAM only; CHR-ROM
    /// ignores it.
    pub fn write_namco163_chr_bank(&mut self, bank: u8, offset: usize, slot: usize, data: u8)
        ensures
            final(self).chr_ram@ == if n163_uses_ciram(*old(self), slot as int, bank)
                && n163_ciram(bank, offset as int) < old(self).chr_ram@.len() {
                old(self).chr_ram@.update(n163_ciram(bank, offset as int), data)
            } else {
                old(self).chr_ram@
            },
            *final(self) == (Cartridge { chr_ram: final(self).chr_ram, ..*old(self) }),
    {
        if self.namco163_chr_bank_uses_ciram(slot, bank) {
            let ciram_addr = Self::namco163_ciram_addr(bank, offset);
            if ciram_addr < self.chr_ram.len() as u128 {
                self.chr_ram.set(ciram_addr as usize, data);
            }
        }
    }

    /// CPU read of $8000-$FFFF (see `n163_prg_byte`); 0 without the chip.
    pub fn read_prg_namco163(&self, addr: u16) -> (r: u8)
        ensures
            r == read_prg_namco163_value(*self, addr),
    {
        let n = match &self.namco163 {
            Some(n) => n,
            None => {
                return 0;
            },
        };
        if addr < 0x8000 {
            return 0;
        }
        let count = self.namco163_prg_rom_bank_count_8k();
        let bank = if addr <= 0x9FFF {
            n.prg_banks[0] as usize
        } else if addr <= 0xBFFF {
            n.prg_banks[1] as usize
        } else if addr <= 0xDFFF {
            n.prg_banks[2] as usize
        } else {
            count - 1
        };
        let prg_addr: u128 = ((bank % count) as u128) * 0x2000 + ((addr % 0x2000) as u128);
        if prg_addr < self.prg_rom.len() as u128 { self.prg_rom[prg_addr as usize] } else { 0 }
    }

    /// CPU write of $8000-$FFFF into the chip's registers (see
    /// `n163_prg_written`).
    pub fn write_prg_namco163(&mut self, addr: u16, data: u8)
        ensures
            write_prg_namco163_post(*old(self), *final(self), addr, data),
    {
        let mut n = match self.namco163.take() {
            Some(n) => n,
            None => {
                return;
            },
        };
        n.write_register(addr, data);
        self.namco163 = Some(n);
    }

    /// PPU pattern read: the 1 KiB slot's bank register (see
    /// `n163_chr_bank_byte`); 0 without the chip.
    pub fn read_chr_namco163(&self, addr: u16) -> (r: u8)
        ensures
            r == read_chr_namco163_value(*self, addr),
    {
        let bank = match &self.namco163 {
            Some(n) => n.chr_banks[((addr / 0x400) % 8) as usize],
            None => {
                return 0;
            },
        };
        self.read_namco163_chr_bank(bank, (addr % 0x400) as usize, ((addr / 0x400) % 8) as usize)
    }

    /// PPU pattern write: reaches nametable RAM where the slot shows it.
    pub fn write_chr_namco163(&mut self, addr: u16, data: u8)
        ensures
            write_chr_namco163_post(*old(self), *final(self), addr, data),
    {
        let bank = match &self.namco163 {
            Some(n) => n.chr_banks[((addr / 0x400) % 8) as usize],
            None => {
                return;
            },
        };
        self.write_namco163_chr_bank(bank, (addr % 0x400) as usize, ((addr / 0x400) % 8) as usize, data);
    }

    /// CPU read of $4800-$5FFF: the chip-RAM byte at the port address (0
    /// past the RAM; the address advances with auto-increment), the
    /// counter's low byte, or the enable bit over the counter's high seven
    /// bits; 0 elsewhere and without the chip.
    pub fn read_prg_low_namco163(&mut self, addr: u16) -> (r: u8)
        ensures
            r == match old(self).namco163 {
                Some(n) => n163_low_value(*old(self), n, addr),
                None => 0,
            },
            final(self).namco163 == match old(self).namco163 {
                Some(n) => Some(if 0x4800 <= addr <= 0x4FFF { n163_after_port(n) } else { n }),
                None => None,
            },
            *final(self) == (Cartridge { namco163: final(self).namco163, ..*old(self) }),
    {
        let mut n = match self.namco163.take() {
            Some(n) => n,
            None => {
                return 0;
            },
        };
        let value = if 0x4800 <= addr && addr <= 0x4FFF {
            let chip_addr = n.chip_ram_addr();
            let v = if chip_addr < self.prg_ram.len() { self.prg_ram[chip_addr] } else { 0 };
            n.advance_internal_addr();
            v
        } else if 0x5000 <= addr && addr <= 0x57FF {
            n.irq_counter as u8
        } else if 0x5800 <= addr && addr <= 0x5FFF {
            ((if n.irq_enabled { 1u8 } else { 0u8 }) << 7) | (((n.irq_counter >> 8) as u8) & 0x7F)
        } else {
            0
        };
        self.namco163 = Some(n);
        value
    }

    /// CPU write of $4800-$5FFF: the data port stores into chip RAM (marking
    /// battery-backed RAM as holding a save) and advances; the counter
    /// registers as in `n163_low_written`.
    pub fn write_prg_low_namco163(&mut self, addr: u16, data: u8)
        ensures
            write_prg_low_namco163_post(*old(self), *final(self), addr, data),
    {
        let mut n = match self.namco163.take() {
            Some(n) => n,
            None => {
                return;
            },
        };
        if 0x4800 <= addr && addr <= 0x4FFF {
            let chip_addr = n.chip_ram_addr();
            if chip_addr < self.prg_ram.len() {
                self.prg_ram.set(chip_addr, data);
                if self.has_battery {
                    self.has_valid_save_data = true;
                }
            }
        }
        n.write_low_register(addr, data);
        self.namco163 = Some(n);
    }

    /// Work RAM read at $6000-$7FFF; 0 when the board has less than 8 KiB.
    pub fn read_prg_ram_namco163(&self, addr: u16) -> (r: u8)
        requires
            read_prg_ram_namco163_pre(*self, addr),
        ensures
            r == read_prg_ram_namco163_value(*self, addr),
    {
        if self.prg_ram.len() < NAMCO163_WRAM_LEN {
            return 0;
        }
        self.prg_ram[((addr - 0x6000) % 0x2000) as usize]
    }

    /// Work RAM write at $6000-$7FFF where `n163_wram_writable` allows it
    /// and the board has 8 KiB; a battery-backed board then holds a save.
    pub fn write_prg_ram_namco163(&mut self, addr: u16, data: u8)
        requires
            write_prg_ram_namco163_pre(*old(self), addr, data),
        ensures
            write_prg_ram_namco163_post(*old(self), *final(self), addr, data),
    {
        let (enabled, protect) = match &self.namco163 {
            Some(n) => (n.wram_write_enable, n.wram_write_protect),
            None => {
                return;
            },
        };
        let window = (((addr - 0x6000) / 0x0800) % 4) as u8;
        if !enabled || (protect >> window) & 1 != 0 {
            return;
        }
        if self.prg_ram.len() >= NAMCO163_WRAM_LEN {
            self.prg_ram.set(((addr - 0x6000) % 0x2000) as usize, data);
            if self.has_battery {
                self.has_valid_save_data = true;
            }
        }
    }

    /// Nametable read: slot 8-11 of the logical nametable shows nametable
    /// RAM (banks $E0+) or CHR-ROM; the console's own nametables without
    /// the chip.
    pub fn read_nametable_namco163(&self, logical_nt: usize, offset: usize, internal: &[[u8; 1024]; 2]) -> (r: u8)
        requires
            self.namco163.is_none() ==> offset < 1024,
        ensures
            r == match self.namco163 {
                Some(n) => {
                    let slot = 8 + (logical_nt % 4) as int;
                    n163_chr_bank_byte(*self, n.chr_banks@[slot], offset as int, slot)
                },
                None => internal@[(logical_nt % 2) as int]@[offset as int],
            },
    {
        let bank = match &self.namco163 {
            Some(n) => n.chr_banks[8 + logical_nt % 4],
            None => {
                return internal[logical_nt % 2][offset];
            },
        };
        self.read_namco163_chr_bank(bank, offset, 8 + logical_nt % 4)
    }

    /// Nametable write: reaches nametable RAM where the slot shows it.
    pub fn write_nametable_namco163(&mut self, logical_nt: usize, offset: usize, _internal: &mut [[u8; 1024]; 2], data: u8)
        ensures
            final(self).chr_ram@ == n163_nt_chr_ram(*old(self), logical_nt, offset, data),
            *final(self) == (Cartridge { chr_ram: final(self).chr_ram, ..*old(self) }),
            *final(_internal) == *old(_internal),
    {
        let bank = match &self.namco163 {
            Some(n) => n.chr_banks[8 + logical_nt % 4],
            None => {
                return;
            },
        };
        self.write_namco163_chr_bank(bank, offset, 8 + logical_nt % 4, data);
    }

    /// `cycles` CPU cycles of the IRQ counter (see `n163_irq_clocked`).
    pub fn clock_irq_namco163(&mut self, cycles: u32)
        ensures
            final(self).namco163 == match old(self).namco163 {
                Some(n) => Some(n163_irq_clocked(n, cycles as int)),
                None => None,
            },
            *final(self) == (Cartridge { namco163: final(self).namco163, ..*old(self) }),
    {
        let mut n = match self.namco163.take() {
            Some(n) => n,
            None => {
                return;
            },
        };
        if n.irq_enabled && !n.irq_pending {
            let remaining: u32 = if n.irq_counter <= 0x7FFF { 0x7FFF - n.irq_counter as u32 } else { 0 };
            if cycles >= remaining {
                n.irq_counter = 0x7FFF;
                n.irq_pending = true;
            } else {
                n.irq_counter = (n.irq_counter as u32 + cycles) as u16;
            }
        }
        self.namco163 = Some(n);
    }

    /// One CPU cycle of sound: silent while sound is disabled; otherwise
    /// every 15th cycle steps one channel (when the board RAM holds the
    /// chip RAM). Returns the mix as (sum of enabled outputs, their count):
    /// the level is `sum / count / 32`. Without the chip, (0, 1).
    pub fn clock_audio_namco163(&mut self) -> (r: (i32, u8))
        ensures
            match old(self).namco163 {
                Some(o) => {
                    &&& final(self).namco163 matches Some(n) && r == (n.audio_sum, n.audio_active)
                    &&& *final(self) == (Cartridge { prg_ram: final(self).prg_ram, namco163: final(self).namco163, ..*old(self) })
                    &&& if o.sound_disable {
                        final(self).namco163 == Some(Namco163 { audio_sum: 0, ..o }) && final(self).prg_ram@ == old(self).prg_ram@
                    } else if o.audio_delay == 0 {
                        let reloaded = Namco163 { audio_delay: 14, ..o };
                        if old(self).prg_ram@.len() >= NAMCO163_WRAM_LEN + NAMCO163_INTERNAL_RAM_LEN {
                            n163_channel_clocked(reloaded, old(self).prg_ram@, final(self).namco163.unwrap(), final(self).prg_ram@)
                        } else {
                            final(self).namco163 == Some(reloaded) && final(self).prg_ram@ == old(self).prg_ram@
                        }
                    } else {
                        final(self).namco163 == Some(Namco163 { audio_delay: (o.audio_delay - 1) as u8, ..o })
                            && final(self).prg_ram@ == old(self).prg_ram@
                    }
                },
                None => r == (0i32, 1u8) && *final(self) == *old(self),
            },
    {
        let mut n = match self.namco163.take() {
            Some(n) => n,
            None => {
                return (0, 1);
            },
        };
        let r = n.clock_audio(&mut self.prg_ram);
        self.namco163 = Some(n);
        r
    }
}

/// The byte [`Cartridge::read_chr_namco163`] returns.
pub open spec fn read_chr_namco163_value(cart: Cartridge, addr: u16) -> u8 {
    match cart.namco163 {
            Some(n) => {
                let slot = ((addr / 0x400) % 8) as int;
                n163_chr_bank_byte(cart, n.chr_banks@[slot], (addr % 0x400) as int, slot)
            },
            None => 0,
        }
}

/// The byte [`Cartridge::read_prg_namco163`] returns.
pub open spec fn read_prg_namco163_value(cart: Cartridge, addr: u16) -> u8 {
    match cart.namco163 {
            Some(n) => n163_prg_byte(cart, n, addr),
            None => 0,
        }
}

/// The byte [`Cartridge::read_prg_ram_namco163`] returns.
pub open spec fn read_prg_ram_namco163_value(cart: Cartridge, addr: u16) -> u8 {
    if cart.prg_ram@.len() < NAMCO163_WRAM_LEN {
            0
        } else {
            cart.prg_ram@[((addr - 0x6000) as int) % 0x2000]
        }
}

/// What [`Cartridge::read_prg_ram_namco163`] needs.
pub open spec fn read_prg_ram_namco163_pre(cart: Cartridge, addr: u16) -> bool {
    cart.prg_ram@.len() >= NAMCO163_WRAM_LEN ==> addr >= 0x6000
}

/// The state change of [`Cartridge::write_chr_namco163`].
pub open spec fn write_chr_namco163_post(c0: Cartridge, c1: Cartridge, addr: u16, data: u8) -> bool {
        &&& c1.chr_ram@ == match c0.namco163 {
                Some(n) => {
                    let slot = ((addr / 0x400) % 8) as int;
                    let bank = n.chr_banks@[slot];
                    let i = n163_ciram(bank, (addr % 0x400) as int);
                    if n163_uses_ciram(c0, slot, bank) && i < c0.chr_ram@.len() {
                        c0.chr_ram@.update(i, data)
                    } else {
                        c0.chr_ram@
                    }
                },
                None => c0.chr_ram@,
            }
        &&& c1 == (Cartridge { chr_ram: c1.chr_ram, ..c0 })
}

/// The state change of [`Cartridge::write_prg_low_namco163`].
pub open spec fn write_prg_low_namco163_post(c0: Cartridge, c1: Cartridge, addr: u16, data: u8) -> bool {
    match c0.namco163 {
            Some(n) => {
                let stored = 0x4800 <= addr <= 0x4FFF && n163_port_index(n) < c0.prg_ram@.len();
                &&& c1.prg_ram@ == if stored {
                    c0.prg_ram@.update(n163_port_index(n), data)
                } else {
                    c0.prg_ram@
                }
                &&& c1 == (Cartridge {
                    prg_ram: c1.prg_ram,
                    has_valid_save_data: if stored && c0.has_battery { true } else { c0.has_valid_save_data },
                    namco163: Some(n163_low_written(n, addr, data)),
                    ..c0
                })
            },
            None => c1 == c0,
        }
}

/// The state change of [`Cartridge::write_prg_namco163`].
pub open spec fn write_prg_namco163_post(c0: Cartridge, c1: Cartridge, addr: u16, data: u8) -> bool {
    match c0.namco163 {
            Some(o) => {
                &&& c1.namco163 matches Some(n) && n163_prg_written(o, n, addr, data)
                &&& c1 == (Cartridge { namco163: c1.namco163, ..c0 })
            },
            None => c1 == c0,
        }
}

/// The state change of [`Cartridge::write_prg_ram_namco163`].
pub open spec fn write_prg_ram_namco163_post(c0: Cartridge, c1: Cartridge, addr: u16, data: u8) -> bool {
    match c0.namco163 {
            Some(n) => {
                let stored = n163_wram_writable(n, addr) && c0.prg_ram@.len() >= NAMCO163_WRAM_LEN;
                &&& c1.prg_ram@ == if stored {
                    c0.prg_ram@.update(((addr - 0x6000) as int) % 0x2000, data)
                } else {
                    c0.prg_ram@
                }
                &&& c1 == (Cartridge {
                    prg_ram: c1.prg_ram,
                    has_valid_save_data: if stored && c0.has_battery { true } else { c0.has_valid_save_data },
                    ..c0
                })
            },
            None => c1 == c0,
        }
}

/// What [`Cartridge::write_prg_ram_namco163`] needs.
pub open spec fn write_prg_ram_namco163_pre(c0: Cartridge, addr: u16, data: u8) -> bool {
    c0.namco163.is_some() ==> addr >= 0x6000
}

} // verus!

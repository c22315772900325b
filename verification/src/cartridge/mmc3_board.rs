//! MMC3 boards as the CPU and PPU see them: mapper 4 itself, and the
//! relatives that change its PRG layout (191, 245, 250) or mix CHR-RAM
//! into its CHR banks (74, 119, 191, 192, 194, 195).

use vstd::prelude::*;
use crate::cartridge::Mirroring;
use crate::cartridge::load::Cartridge;
use crate::cartridge::banks::{chr_1k_byte, chr_1k_index, pattern_memory, prg_8k_at};
use crate::cartridge::mapper::mmc3::{Mmc3, mmc3_written, mmc3_prg_bank, mmc3_chr_bank_raw, mmc3_chr_offset, mmc3_irq_clock};
use crate::cartridge::fixed_irq_board::lemma_mod_small;
use crate::bits::{lemma_u16_masks, lemma_u8_masks, lemma_usize_masks};

verus! {

/// The MMC3 window layout with the two fixed banks given: R6 (or
/// `second_last` in PRG mode 1) at $8000, R7 at $A000, `second_last` (or
/// R6) at $C000, `last` at $E000; the registers pass through `reg_bank`.
pub open spec fn mmc3_window_bank(m: Mmc3, addr: u16, r6: int, r7: int, second_last: int, last: int) -> int {
    let mode1 = (m.bank_select >> 6) & 1 == 1;
    if addr < 0xA000 {
        if mode1 { second_last } else { r6 }
    } else if addr < 0xC000 {
        r7
    } else if addr < 0xE000 {
        if mode1 { r6 } else { second_last }
    } else {
        last
    }
}

/// Mapper 191's outer CHR bank is writable only on boards with more than
/// 128 KiB of CHR-ROM.
pub open spec fn mapper191_writable(c: Cartridge) -> bool {
    c.chr_rom@.len() > 0x20000
}

/// Mapper 191's outer bank: its register's low two bits where writable,
/// else 3.
pub open spec fn mapper191_outer(c: Cartridge) -> int {
    if mapper191_writable(c) { (c.mapper191_outer_bank % 4) as int } else { 3 }
}

/// Mapper 195's CHR-RAM window for each mode: the raw banks that reach
/// CHR-RAM.
pub open spec fn mapper195_window(mode: u8) -> Option<(int, int)> {
    if mode == 0x80 {
        Some((0x28, 0x2B))
    } else if mode == 0x82 {
        Some((0x00, 0x03))
    } else if mode == 0x88 {
        Some((0x4C, 0x4F))
    } else if mode == 0x8A {
        Some((0x64, 0x67))
    } else if mode == 0xC0 {
        Some((0x46, 0x47))
    } else if mode == 0xC2 {
        Some((0x7C, 0x7D))
    } else if mode == 0xC8 {
        Some((0x0A, 0x0B))
    } else {
        None
    }
}

/// The mode a write to a CHR-ROM bank of mapper 195 selects, for the raw
/// banks that select one.
pub open spec fn mapper195_mode_of(raw: usize) -> Option<u8> {
    if raw <= 0x03 {
        Some(0x82u8)
    } else if 0x0A <= raw <= 0x0B {
        Some(0xC8u8)
    } else if 0x28 <= raw <= 0x2B {
        Some(0x80u8)
    } else if 0x46 <= raw <= 0x47 {
        Some(0xC0u8)
    } else if 0x4C <= raw <= 0x4F {
        Some(0x88u8)
    } else if 0x64 <= raw <= 0x67 {
        Some(0x8Au8)
    } else if 0x7C <= raw <= 0x7D {
        Some(0xC2u8)
    } else if raw == 0xCA {
        Some(0xCAu8)
    } else {
        None
    }
}

/// Whether a raw MMC3 CHR bank reaches CHR-RAM on a mixed board, and the
/// bank it then takes in that memory.
pub open spec fn mixed_chr_bank(c: Cartridge, raw: usize) -> (bool, usize) {
    if c.mapper == 74 {
        if raw == 8 || raw == 9 { (true, (raw - 8) as usize) } else { (false, raw) }
    } else if c.mapper == 119 {
        if raw & 0x40 != 0 { (true, raw & 0x07) } else { (false, raw & 0x3F) }
    } else if c.mapper == 191 {
        if mapper191_outer(c) != 3 {
            (false, raw | 0x80)
        } else if raw & 0x80 != 0 {
            (true, raw & 0x01)
        } else {
            (false, raw & 0x7F)
        }
    } else if c.mapper == 192 {
        if 8 <= raw <= 11 { (true, (raw - 8) as usize) } else { (false, raw) }
    } else if c.mapper == 194 {
        if raw <= 1 { (true, raw) } else { (false, raw) }
    } else if c.mapper == 195 {
        match mapper195_window(c.mapper195_mode) {
            Some((lo, hi)) => if lo <= raw <= hi { (true, raw & 0x07) } else { (false, raw) },
            None => (false, raw),
        }
    } else {
        (false, raw)
    }
}

/// Mapper 245's high PRG bit: bit 1 of the CHR register that covers
/// $0000 (R0, or R2 while the CHR halves are swapped), as bank bit 5.
pub open spec fn mapper245_base(m: Mmc3) -> usize {
    let src = if m.bank_select & 0x80 == 0 { m.bank_registers@[0] } else { m.bank_registers@[2] };
    (((src >> 1u8) & 0x01) as usize) << 5usize
}

/// An MMC3 register write through the board, from `o` to `n`: the chip's
/// registers as `mmc3_written` says; the mirroring register sets the
/// nametable arrangement (bit 0: horizontal); nothing without the chip.
pub open spec fn mmc3_prg_written(o: Cartridge, n: Cartridge, addr: u16, data: u8) -> bool {
    match o.mmc3 {
        Some(m) => {
            &&& n.mmc3 matches Some(k)
            &&& mmc3_written(&m, &k, addr, data)
            &&& n == (Cartridge {
                mmc3: n.mmc3,
                mirroring: if 0xA000 <= addr < 0xC000 && addr % 2 == 0 {
                    if data & 0x01 != 0 { Mirroring::Horizontal } else { Mirroring::Vertical }
                } else {
                    o.mirroring
                },
                ..o
            })
        },
        None => n == o,
    }
}

/// A PPU read on a mixed-CHR board: the raw MMC3 bank, resolved into
/// CHR-RAM or CHR-ROM; 0 without the chip.
pub open spec fn mixed_chr_read(c: Cartridge, addr: u16) -> u8 {
    match c.mmc3 {
        Some(m) => {
            let (is_ram, bank) = mixed_chr_bank(c, mmc3_chr_bank_raw(&m, addr));
            chr_1k_byte(if is_ram { c.chr_ram@ } else { c.chr_rom@ }, bank as nat, addr)
        },
        None => 0,
    }
}

/// A PPU write on a mixed-CHR board, from `o` to `n`: into CHR-RAM where
/// the bank resolves there; on mapper 195 a write to a mode-selecting
/// CHR-ROM bank sets the mode; nothing otherwise.
pub open spec fn mixed_chr_written(o: Cartridge, n: Cartridge, addr: u16, data: u8) -> bool {
    match o.mmc3 {
        Some(m) => {
            let raw = mmc3_chr_bank_raw(&m, addr);
            let (is_ram, bank) = mixed_chr_bank(o, raw);
            if is_ram {
                &&& n.chr_ram@ == if o.chr_ram@.len() == 0 {
                    o.chr_ram@
                } else {
                    o.chr_ram@.update(chr_1k_index(o.chr_ram@.len(), bank as nat, addr), data)
                }
                &&& n == (Cartridge { chr_ram: n.chr_ram, ..o })
            } else if o.mapper == 195 && mapper195_mode_of(raw) is Some {
                n == (Cartridge { mapper195_mode: mapper195_mode_of(raw).unwrap(), ..o })
            } else {
                n == o
            }
        },
        None => n == o,
    }
}

impl Cartridge {
    /// MMC3: a CPU read of PRG-ROM; 0 without a whole 8 KiB bank, below
    /// $8000 or without the chip.
    pub fn read_prg_mmc3(&self, addr: u16) -> (r: u8)
        requires
            read_prg_mmc3_pre(*self, addr),
        ensures
            r == read_prg_mmc3_value(*self, addr),
    {
        match &self.mmc3 {
            Some(m) => {
                if addr < 0x8000 {
                    return 0;
                }
                m.read_prg(addr, &self.prg_rom)
            },
            None => 0,
        }
    }

    /// MMC3: a CPU write of a register; the mirroring register sets the
    /// nametable arrangement (bit 0: horizontal). Nothing happens without
    /// the chip.
    pub fn write_prg_mmc3(&mut self, addr: u16, data: u8)
        ensures
            write_prg_mmc3_post(*old(self), *final(self), addr, data),
    {
        let mut m = match self.mmc3.take() {
            Some(m) => m,
            None => {
                return;
            },
        };
        let mirroring = m.write_register(addr, data);
        self.mmc3 = Some(m);
        if let Some(mirroring) = mirroring {
            self.mirroring = mirroring;
        }
    }

    /// MMC3: a PPU read of pattern memory (CHR-RAM when the board has some,
    /// else CHR-ROM); 0 without a whole 1 KiB bank, past the end or without
    /// the chip.
    pub fn read_chr_mmc3(&self, addr: u16) -> (r: u8)
        ensures
            r == read_chr_mmc3_value(*self, addr),
    {
        match &self.mmc3 {
            Some(m) => m.read_chr(addr, &self.chr_rom, &self.chr_ram),
            None => 0,
        }
    }

    /// MMC3: a PPU write of pattern memory; only CHR-RAM is written.
    pub fn write_chr_mmc3(&mut self, addr: u16, data: u8)
        ensures
            write_chr_mmc3_post(*old(self), *final(self), addr, data),
    {
        let m = match self.mmc3.take() {
            Some(m) => m,
            None => {
                return;
            },
        };
        m.write_chr(addr, data, &mut self.chr_ram);
        self.mmc3 = Some(m);
    }

    /// MMC3: a CPU read of PRG-RAM; 0 while the chip disables it, past its
    /// end or without RAM.
    pub fn read_prg_ram_mmc3(&self, addr: u16) -> (r: u8)
        requires
            read_prg_ram_mmc3_pre(*self, addr),
        ensures
            r == read_prg_ram_mmc3_value(*self, addr),
    {
        if let Some(m) = &self.mmc3 {
            if !m.prg_ram_enabled {
                return 0;
            }
        }
        if self.prg_ram.len() > 0 {
            let ram_addr = (addr - 0x6000) as usize;
            if ram_addr < self.prg_ram.len() {
                self.prg_ram[ram_addr]
            } else {
                0
            }
        } else {
            0
        }
    }

    /// MMC3: a CPU write of PRG-RAM, unless the chip disables or
    /// write-protects it or the address is past its end.
    pub fn write_prg_ram_mmc3(&mut self, addr: u16, data: u8)
        requires
            write_prg_ram_mmc3_pre(*old(self), addr, data),
        ensures
            write_prg_ram_mmc3_post(*old(self), *final(self), addr, data),
    {
        if let Some(m) = &self.mmc3 {
            if !m.prg_ram_enabled || m.prg_ram_write_protect {
                return;
            }
        }
        if self.prg_ram.len() > 0 {
            let ram_addr = (addr - 0x6000) as usize;
            if ram_addr < self.prg_ram.len() {
                self.prg_ram.set(ram_addr, data);
            }
        }
    }

    /// MMC3: one scanline clock of the IRQ counter; nothing without the
    /// chip.
    pub fn clock_irq_counter(&mut self)
        ensures
            match old(self).mmc3 {
                Some(o) => {
                    &&& final(self).mmc3 matches Some(n)
                    &&& (n.irq_counter, n.irq_reload, n.irq_pending)
                        == mmc3_irq_clock(o.irq_counter, o.irq_latch, o.irq_reload, o.irq_enabled, o.irq_pending)
                    &&& n == (Mmc3 { irq_counter: n.irq_counter, irq_reload: n.irq_reload, irq_pending: n.irq_pending, ..o })
                    &&& *final(self) == (Cartridge { mmc3: final(self).mmc3, ..*old(self) })
                },
                None => *final(self) == *old(self),
            },
    {
        let mut m = match self.mmc3.take() {
            Some(m) => m,
            None => {
                return;
            },
        };
        m.clock_irq_mut();
        self.mmc3 = Some(m);
    }

    /// Whether mapper 191's outer CHR bank can be written.
    pub fn mapper191_outer_bank_writable(&self) -> (r: bool)
        ensures
            r == mapper191_writable(*self),
    {
        self.chr_rom.len() > 0x20000
    }

    /// Mapper 191's outer bank in use.
    pub fn mapper191_effective_outer_bank(&self) -> (r: usize)
        ensures
            r == mapper191_outer(*self),
            r <= 3,
    {
        if self.mapper191_outer_bank_writable() {
            proof {
                lemma_u8_masks(self.mapper191_outer_bank);
            }
            (self.mapper191_outer_bank & 0x03) as usize
        } else {
            3
        }
    }

    /// Mapper 191: a CPU read of PRG-ROM, with the fixed banks taken from
    /// the outer bank (banks $18 + 2 * outer and the next); bank numbers
    /// are masked with the bank count minus one; 0 past the end, below
    /// $8000 or without the chip.
    pub fn read_prg_mapper191(&self, addr: u16) -> (r: u8)
        ensures
            r == read_prg_mapper191_value(*self, addr),
    {
        let m = match &self.mmc3 {
            Some(m) => m,
            None => {
                return 0;
            },
        };
        let num_8k_banks = self.prg_rom.len() / 0x2000;
        if num_8k_banks == 0 || addr < 0x8000 {
            return 0;
        }
        let bank_mask = num_8k_banks - 1;
        let prg_mode = (m.bank_select >> 6) & 1;
        let outer = self.mapper191_effective_outer_bank();
        let fixed_src = 0x18 + outer * 2;
        proof {
            lemma_usize_masks(fixed_src, bank_mask);
        }
        let fixed_base = fixed_src & bank_mask;
        let second_last = fixed_base;
        let last = (fixed_base + 1) & bank_mask;
        proof {
            lemma_usize_masks((fixed_base + 1) as usize, bank_mask);
            lemma_usize_masks(m.bank_registers@[6] as usize, bank_mask);
            lemma_usize_masks(m.bank_registers@[7] as usize, bank_mask);
            lemma_u16_masks(addr);
        }
        let r6 = (m.bank_registers[6] as usize) & bank_mask;
        let r7 = (m.bank_registers[7] as usize) & bank_mask;
        let bank = if addr < 0xA000 {
            if prg_mode == 1 { second_last } else { r6 }
        } else if addr < 0xC000 {
            r7
        } else if addr < 0xE000 {
            if prg_mode == 1 { r6 } else { second_last }
        } else {
            last
        };
        let offset = (addr & 0x1FFF) as usize;
        proof {
            assert(bank * 0x2000 <= bank_mask * 0x2000) by (nonlinear_arith)
                requires
                    bank <= bank_mask,
            ;
        }
        let rom_addr = bank * 0x2000 + offset;
        if rom_addr < self.prg_rom.len() { self.prg_rom[rom_addr] } else { 0 }
    }

    /// Mapper 191: writes at $90AA (address bits 8-11 ignored) set the
    /// outer bank where writable; everything else goes to the MMC3.
    pub fn write_prg_mapper191(&mut self, addr: u16, data: u8)
        ensures
            write_prg_mapper191_post(*old(self), *final(self), addr, data),
    {
        if (addr & 0xF0FF) == 0x90AA {
            if self.mapper191_outer_bank_writable() {
                self.mapper191_outer_bank = data & 0x03;
            }
            return;
        }
        self.write_prg_mmc3(addr, data);
    }

    /// The CHR-RAM mode a write to raw bank `raw_bank` selects on mapper
    /// 195, if any.
    pub fn mapper195_mode_for_bank(raw_bank: usize) -> (r: Option<u8>)
        ensures
            r == mapper195_mode_of(raw_bank),
    {
        if raw_bank <= 0x03 {
            Some(0x82)
        } else if 0x0A <= raw_bank && raw_bank <= 0x0B {
            Some(0xC8)
        } else if 0x28 <= raw_bank && raw_bank <= 0x2B {
            Some(0x80)
        } else if 0x46 <= raw_bank && raw_bank <= 0x47 {
            Some(0xC0)
        } else if 0x4C <= raw_bank && raw_bank <= 0x4F {
            Some(0x88)
        } else if 0x64 <= raw_bank && raw_bank <= 0x67 {
            Some(0x8A)
        } else if 0x7C <= raw_bank && raw_bank <= 0x7D {
            Some(0xC2)
        } else if raw_bank == 0xCA {
            Some(0xCA)
        } else {
            None
        }
    }

    /// Mapper 195: the raw banks of the current mode's window reach
    /// CHR-RAM (bank = low three bits); the others stay in CHR-ROM.
    pub fn resolve_mapper195_chr_bank(&self, raw_bank: usize) -> (r: (bool, usize))
        ensures
            r == match mapper195_window(self.mapper195_mode) {
                Some((lo, hi)) => if lo <= raw_bank <= hi { (true, raw_bank & 0x07) } else { (false, raw_bank) },
                None => (false, raw_bank),
            },
    {
        let (lo, hi): (usize, usize) = if self.mapper195_mode == 0x80 {
            (0x28, 0x2B)
        } else if self.mapper195_mode == 0x82 {
            (0x00, 0x03)
        } else if self.mapper195_mode == 0x88 {
            (0x4C, 0x4F)
        } else if self.mapper195_mode == 0x8A {
            (0x64, 0x67)
        } else if self.mapper195_mode == 0xC0 {
            (0x46, 0x47)
        } else if self.mapper195_mode == 0xC2 {
            (0x7C, 0x7D)
        } else if self.mapper195_mode == 0xC8 {
            (0x0A, 0x0B)
        } else {
            return (false, raw_bank);
        };
        if lo <= raw_bank && raw_bank <= hi {
            (true, raw_bank & 0x07)
        } else {
            (false, raw_bank)
        }
    }

    /// Whether a raw MMC3 CHR bank reaches CHR-RAM on this mixed board, and
    /// the bank it takes there.
    pub fn resolve_mixed_chr_bank(&self, raw_bank: usize) -> (r: (bool, usize))
        ensures
            r == mixed_chr_bank(*self, raw_bank),
    {
        if self.mapper == 74 {
            if raw_bank == 8 || raw_bank == 9 { (true, raw_bank - 8) } else { (false, raw_bank) }
        } else if self.mapper == 119 {
            if raw_bank & 0x40 != 0 { (true, raw_bank & 0x07) } else { (false, raw_bank & 0x3F) }
        } else if self.mapper == 191 {
            if self.mapper191_effective_outer_bank() != 3 {
                (false, raw_bank | 0x80)
            } else if raw_bank & 0x80 != 0 {
                (true, raw_bank & 0x01)
            } else {
                (false, raw_bank & 0x7F)
            }
        } else if self.mapper == 192 {
            if 8 <= raw_bank && raw_bank <= 11 { (true, raw_bank - 8) } else { (false, raw_bank) }
        } else if self.mapper == 194 {
            if raw_bank <= 1 { (true, raw_bank) } else { (false, raw_bank) }
        } else if self.mapper == 195 {
            self.resolve_mapper195_chr_bank(raw_bank)
        } else {
            (false, raw_bank)
        }
    }

    /// Byte `local_offset` of 1 KiB bank `bank` of `bank_data` (bank modulo
    /// the bank count, position modulo the length); 0 for empty memory.
    pub fn read_chr_mixed_bank(bank_data: &Vec<u8>, bank: usize, local_offset: u16) -> (r: u8)
        ensures
            r == chr_1k_byte(bank_data@, bank as nat, local_offset),
    {
        if bank_data.len() == 0 {
            return 0;
        }
        let i = crate::cartridge::banks::chr_1k_position(bank_data.len(), bank, local_offset);
        bank_data[i]
    }

    /// Writes that byte; nothing for empty memory.
    pub fn write_chr_mixed_bank(bank_data: &mut Vec<u8>, bank: usize, local_offset: u16, data: u8)
        ensures
            final(bank_data)@ == if old(bank_data)@.len() == 0 {
                old(bank_data)@
            } else {
                old(bank_data)@.update(chr_1k_index(old(bank_data)@.len(), bank as nat, local_offset), data)
            },
    {
        if bank_data.len() == 0 {
            return;
        }
        let i = crate::cartridge::banks::chr_1k_position(bank_data.len(), bank, local_offset);
        bank_data.set(i, data);
    }

    /// A PPU read on a mixed board: the raw MMC3 bank, resolved into
    /// CHR-RAM or CHR-ROM; 0 without the chip.
    pub fn read_chr_mixed_mmc3(&self, addr: u16) -> (r: u8)
        ensures
            r == mixed_chr_read(*self, addr),
    {
        let raw_bank = match &self.mmc3 {
            Some(m) => m.chr_bank_raw(addr),
            None => {
                return 0;
            },
        };
        let (is_ram, bank) = self.resolve_mixed_chr_bank(raw_bank);
        if is_ram {
            Self::read_chr_mixed_bank(&self.chr_ram, bank, addr)
        } else {
            Self::read_chr_mixed_bank(&self.chr_rom, bank, addr)
        }
    }

    /// A PPU write on a mixed board: banks that reach CHR-RAM are written;
    /// on mapper 195 a write to a CHR-ROM bank may select a new CHR-RAM
    /// window. Nothing happens without the chip.
    pub fn write_chr_mixed_mmc3(&mut self, addr: u16, data: u8)
        ensures
            mixed_chr_written(*old(self), *final(self), addr, data),
    {
        let raw_bank = match &self.mmc3 {
            Some(m) => m.chr_bank_raw(addr),
            None => {
                return;
            },
        };
        let (is_ram, bank) = self.resolve_mixed_chr_bank(raw_bank);
        if is_ram {
            Self::write_chr_mixed_bank(&mut self.chr_ram, bank, addr, data);
        } else if self.mapper == 195 {
            if let Some(mode) = Self::mapper195_mode_for_bank(raw_bank) {
                self.mapper195_mode = mode;
            }
        }
    }

    /// Mapper 245's high PRG bank bit (bank bit 5).
    pub fn mapper245_prg_bank_base(mmc3: &Mmc3) -> (r: usize)
        ensures
            r == mapper245_base(*mmc3),
            r == 0 || r == 32,
    {
        let high_bit_source = if (mmc3.bank_select & 0x80) == 0 { mmc3.bank_registers[0] } else { mmc3.bank_registers[2] };
        proof {
            lemma_u8_masks(high_bit_source);
        }
        let bit = ((high_bit_source >> 1) & 0x01) as usize;
        proof {
            lemma_usize_masks(bit, 0);
        }
        bit << 5
    }

    /// Mapper 245: the MMC3 layout over 32 banks, with bank bit 5 from
    /// [`Cartridge::mapper245_prg_bank_base`]; banks modulo the bank count;
    /// 0 past the end, below $8000 or without the chip.
    pub fn read_prg_mapper245(&self, addr: u16) -> (r: u8)
        ensures
            r == read_prg_mapper245_value(*self, addr),
    {
        let m = match &self.mmc3 {
            Some(m) => m,
            None => {
                return 0;
            },
        };
        let num_8k_banks = self.prg_rom.len() / 0x2000;
        if num_8k_banks == 0 || addr < 0x8000 {
            return 0;
        }
        let prg_mode = (m.bank_select >> 6) & 1;
        let base = Self::mapper245_prg_bank_base(m);
        let second_last = (base | 30) % num_8k_banks;
        let last = (base | 31) % num_8k_banks;
        let r6 = (base | (m.bank_registers[6] as usize & 0x1F)) % num_8k_banks;
        let r7 = (base | (m.bank_registers[7] as usize & 0x1F)) % num_8k_banks;
        let bank = if addr < 0xA000 {
            if prg_mode == 1 { second_last } else { r6 }
        } else if addr < 0xC000 {
            r7
        } else if addr < 0xE000 {
            if prg_mode == 1 { r6 } else { second_last }
        } else {
            last
        };
        proof {
            lemma_u16_masks(addr);
            assert(bank * 0x2000 < num_8k_banks * 0x2000) by (nonlinear_arith)
                requires
                    bank < num_8k_banks,
            ;
        }
        let rom_addr = bank * 0x2000 + ((addr & 0x1FFF) as usize);
        if rom_addr < self.prg_rom.len() { self.prg_rom[rom_addr] } else { 0 }
    }

    /// Mapper 245: 8 KiB of plain pattern memory, CHR-RAM first.
    pub fn read_chr_mapper245(&self, addr: u16) -> (r: u8)
        ensures
            r == read_chr_mapper245_value(*self, addr),
    {
        proof {
            lemma_u16_masks(addr);
        }
        let chr_addr = (addr & 0x1FFF) as usize;
        if chr_addr < self.chr_ram.len() {
            self.chr_ram[chr_addr]
        } else if chr_addr < self.chr_rom.len() {
            self.chr_rom[chr_addr]
        } else {
            0
        }
    }

    /// Mapper 245: a PPU write lands in CHR-RAM when in range.
    pub fn write_chr_mapper245(&mut self, addr: u16, data: u8)
        ensures
            write_chr_mapper245_post(*old(self), *final(self), addr, data),
    {
        proof {
            lemma_u16_masks(addr);
        }
        let chr_addr = (addr & 0x1FFF) as usize;
        if chr_addr < self.chr_ram.len() {
            self.chr_ram.set(chr_addr, data);
        }
    }

    /// Mapper 250: the MMC3 with its register lines on the address bus:
    /// address bits 13-15 pick the register pair, bit 10 the odd register,
    /// the low byte is the data. Nothing happens below $8000.
    pub fn write_prg_mapper250(&mut self, addr: u16, data: u8)
        ensures
            write_prg_mapper250_post(*old(self), *final(self), addr, data),
    {
        if addr < 0x8000 {
            return;
        }
        let synthetic_addr = (addr & 0xE000) | if (addr & 0x0400) != 0 { 1 } else { 0 };
        let synthetic_data = (addr & 0x00FF) as u8;
        proof {
            lemma_u16_masks(addr);
        }
        self.write_prg_mmc3(synthetic_addr, synthetic_data);
    }
    /// Mapper 74 pattern read: the mixed CHR-RAM/ROM banking.
    pub fn read_chr_mapper74(&self, addr: u16) -> (r: u8)
        ensures
            r == read_chr_mapper74_value(*self, addr),
    {
        self.read_chr_mixed_mmc3(addr)
    }

    /// Mapper 74 pattern write: the mixed CHR-RAM/ROM banking.
    pub fn write_chr_mapper74(&mut self, addr: u16, data: u8)
        ensures
            write_chr_mapper74_post(*old(self), *final(self), addr, data),
    {
        self.write_chr_mixed_mmc3(addr, data)
    }

    /// Mapper 119 pattern read: the mixed CHR-RAM/ROM banking.
    pub fn read_chr_mapper119(&self, addr: u16) -> (r: u8)
        ensures
            r == read_chr_mapper119_value(*self, addr),
    {
        self.read_chr_mixed_mmc3(addr)
    }

    /// Mapper 119 pattern write: the mixed CHR-RAM/ROM banking.
    pub fn write_chr_mapper119(&mut self, addr: u16, data: u8)
        ensures
            write_chr_mapper119_post(*old(self), *final(self), addr, data),
    {
        self.write_chr_mixed_mmc3(addr, data)
    }

    /// Mapper 191 pattern read: the mixed CHR-RAM/ROM banking.
    pub fn read_chr_mapper191(&self, addr: u16) -> (r: u8)
        ensures
            r == read_chr_mapper191_value(*self, addr),
    {
        self.read_chr_mixed_mmc3(addr)
    }

    /// Mapper 191 pattern write: the mixed CHR-RAM/ROM banking.
    pub fn write_chr_mapper191(&mut self, addr: u16, data: u8)
        ensures
            write_chr_mapper191_post(*old(self), *final(self), addr, data),
    {
        self.write_chr_mixed_mmc3(addr, data)
    }

    /// Mapper 192 pattern read: the mixed CHR-RAM/ROM banking.
    pub fn read_chr_mapper192(&self, addr: u16) -> (r: u8)
        ensures
            r == read_chr_mapper192_value(*self, addr),
    {
        self.read_chr_mixed_mmc3(addr)
    }

    /// Mapper 192 pattern write: the mixed CHR-RAM/ROM banking.
    pub fn write_chr_mapper192(&mut self, addr: u16, data: u8)
        ensures
            write_chr_mapper192_post(*old(self), *final(self), addr, data),
    {
        self.write_chr_mixed_mmc3(addr, data)
    }

    /// Mapper 194 pattern read: the mixed CHR-RAM/ROM banking.
    pub fn read_chr_mapper194(&self, addr: u16) -> (r: u8)
        ensures
            r == read_chr_mapper194_value(*self, addr),
    {
        self.read_chr_mixed_mmc3(addr)
    }

    /// Mapper 194 pattern write: the mixed CHR-RAM/ROM banking.
    pub fn write_chr_mapper194(&mut self, addr: u16, data: u8)
        ensures
            write_chr_mapper194_post(*old(self), *final(self), addr, data),
    {
        self.write_chr_mixed_mmc3(addr, data)
    }

    /// Mapper 195 pattern read: the mixed CHR-RAM/ROM banking.
    pub fn read_chr_mapper195(&self, addr: u16) -> (r: u8)
        ensures
            r == read_chr_mapper195_value(*self, addr),
    {
        self.read_chr_mixed_mmc3(addr)
    }

    /// Mapper 195 pattern write: the mixed CHR-RAM/ROM banking.
    pub fn write_chr_mapper195(&mut self, addr: u16, data: u8)
        ensures
            write_chr_mapper195_post(*old(self), *final(self), addr, data),
    {
        self.write_chr_mixed_mmc3(addr, data)
    }
}

/// The byte [`Cartridge::read_chr_mapper119`] returns.
pub open spec fn read_chr_mapper119_value(cart: Cartridge, addr: u16) -> u8 {
    mixed_chr_read(cart, addr)
}

/// The byte [`Cartridge::read_chr_mapper191`] returns.
pub open spec fn read_chr_mapper191_value(cart: Cartridge, addr: u16) -> u8 {
    mixed_chr_read(cart, addr)
}

/// The byte [`Cartridge::read_chr_mapper192`] returns.
pub open spec fn read_chr_mapper192_value(cart: Cartridge, addr: u16) -> u8 {
    mixed_chr_read(cart, addr)
}

/// The byte [`Cartridge::read_chr_mapper194`] returns.
pub open spec fn read_chr_mapper194_value(cart: Cartridge, addr: u16) -> u8 {
    mixed_chr_read(cart, addr)
}

/// The byte [`Cartridge::read_chr_mapper195`] returns.
pub open spec fn read_chr_mapper195_value(cart: Cartridge, addr: u16) -> u8 {
    mixed_chr_read(cart, addr)
}

/// The byte [`Cartridge::read_chr_mapper245`] returns.
pub open spec fn read_chr_mapper245_value(cart: Cartridge, addr: u16) -> u8 {
    ({
            let a = (addr % 0x2000) as int;
            if a < cart.chr_ram@.len() {
                cart.chr_ram@[a]
            } else if a < cart.chr_rom@.len() {
                cart.chr_rom@[a]
            } else {
                0
            }
        })
}

/// The byte [`Cartridge::read_chr_mapper74`] returns.
pub open spec fn read_chr_mapper74_value(cart: Cartridge, addr: u16) -> u8 {
    mixed_chr_read(cart, addr)
}

/// The byte [`Cartridge::read_chr_mmc3`] returns.
pub open spec fn read_chr_mmc3_value(cart: Cartridge, addr: u16) -> u8 {
    match cart.mmc3 {
            Some(m) => {
                let mem = pattern_memory(cart);
                let banks = (mem.len() / 0x400) as usize;
                if banks == 0 {
                    0
                } else {
                    let off = mmc3_chr_offset(&m, addr, banks);
                    if off < mem.len() { mem[off] } else { 0 }
                }
            },
            None => 0,
        }
}

/// The byte [`Cartridge::read_prg_mapper191`] returns.
pub open spec fn read_prg_mapper191_value(cart: Cartridge, addr: u16) -> u8 {
    match cart.mmc3 {
            Some(m) => {
                let banks = (cart.prg_rom@.len() / 0x2000) as usize;
                let mask = (banks - 1) as usize;
                let fixed = ((0x18 + mapper191_outer(cart) * 2) as usize) & mask;
                let bank = mmc3_window_bank(
                    m,
                    addr,
                    ((m.bank_registers@[6] as usize) & mask) as int,
                    ((m.bank_registers@[7] as usize) & mask) as int,
                    fixed as int,
                    (((fixed + 1) as usize) & mask) as int,
                );
                if banks == 0 || addr < 0x8000 { 0 } else { prg_8k_at(cart.prg_rom@, bank, addr) }
            },
            None => 0,
        }
}

/// The byte [`Cartridge::read_prg_mapper245`] returns.
pub open spec fn read_prg_mapper245_value(cart: Cartridge, addr: u16) -> u8 {
    match cart.mmc3 {
            Some(m) => {
                let banks = cart.prg_rom@.len() / 0x2000;
                let base = mapper245_base(m);
                let r6 = ((base | ((m.bank_registers@[6] as usize) & 0x1F)) as int) % (banks as int);
                let r7 = ((base | ((m.bank_registers@[7] as usize) & 0x1F)) as int) % (banks as int);
                let bank = mmc3_window_bank(m, addr, r6, r7, ((base | 30usize) as int) % (banks as int),
                    ((base | 31usize) as int) % (banks as int));
                if banks == 0 || addr < 0x8000 { 0 } else { prg_8k_at(cart.prg_rom@, bank, addr) }
            },
            None => 0,
        }
}

/// The byte [`Cartridge::read_prg_mmc3`] returns.
pub open spec fn read_prg_mmc3_value(cart: Cartridge, addr: u16) -> u8 {
    match cart.mmc3 {
            Some(m) => {
                let banks = (cart.prg_rom@.len() / 0x2000) as usize;
                if banks == 0 || addr < 0x8000 { 0 } else { prg_8k_at(cart.prg_rom@, mmc3_prg_bank(&m, addr, banks) as int, addr) }
            },
            None => 0,
        }
}

/// What [`Cartridge::read_prg_mmc3`] needs.
pub open spec fn read_prg_mmc3_pre(cart: Cartridge, addr: u16) -> bool {
    cart.mmc3 is Some ==> cart.prg_rom@.len() / 0x2000 != 1
}

/// The byte [`Cartridge::read_prg_ram_mmc3`] returns.
pub open spec fn read_prg_ram_mmc3_value(cart: Cartridge, addr: u16) -> u8 {
    if (cart.mmc3 is Some && !cart.mmc3.unwrap().prg_ram_enabled) || addr < 0x6000
            || addr - 0x6000 >= cart.prg_ram@.len() {
            0
        } else {
            cart.prg_ram@[addr - 0x6000]
        }
}

/// What [`Cartridge::read_prg_ram_mmc3`] needs.
pub open spec fn read_prg_ram_mmc3_pre(cart: Cartridge, addr: u16) -> bool {
    cart.prg_ram@.len() > 0 && !(cart.mmc3 is Some && !cart.mmc3.unwrap().prg_ram_enabled) ==> addr >= 0x6000
}

/// The state change of [`Cartridge::write_chr_mapper119`].
pub open spec fn write_chr_mapper119_post(c0: Cartridge, c1: Cartridge, addr: u16, data: u8) -> bool {
    mixed_chr_written(c0, c1, addr, data)
}

/// The state change of [`Cartridge::write_chr_mapper191`].
pub open spec fn write_chr_mapper191_post(c0: Cartridge, c1: Cartridge, addr: u16, data: u8) -> bool {
    mixed_chr_written(c0, c1, addr, data)
}

/// The state change of [`Cartridge::write_chr_mapper192`].
pub open spec fn write_chr_mapper192_post(c0: Cartridge, c1: Cartridge, addr: u16, data: u8) -> bool {
    mixed_chr_written(c0, c1, addr, data)
}

/// The state change of [`Cartridge::write_chr_mapper194`].
pub open spec fn write_chr_mapper194_post(c0: Cartridge, c1: Cartridge, addr: u16, data: u8) -> bool {
    mixed_chr_written(c0, c1, addr, data)
}

/// The state change of [`Cartridge::write_chr_mapper195`].
pub open spec fn write_chr_mapper195_post(c0: Cartridge, c1: Cartridge, addr: u16, data: u8) -> bool {
    mixed_chr_written(c0, c1, addr, data)
}

/// The state change of [`Cartridge::write_chr_mapper245`].
pub open spec fn write_chr_mapper245_post(c0: Cartridge, c1: Cartridge, addr: u16, data: u8) -> bool {
        &&& c1.chr_ram@ == if ((addr % 0x2000) as int) < c0.chr_ram@.len() {
                c0.chr_ram@.update((addr % 0x2000) as int, data)
            } else {
                c0.chr_ram@
            }
        &&& c1 == (Cartridge { chr_ram: c1.chr_ram, ..c0 })
}

/// The state change of [`Cartridge::write_chr_mapper74`].
pub open spec fn write_chr_mapper74_post(c0: Cartridge, c1: Cartridge, addr: u16, data: u8) -> bool {
    mixed_chr_written(c0, c1, addr, data)
}

/// The state change of [`Cartridge::write_chr_mmc3`].
pub open spec fn write_chr_mmc3_post(c0: Cartridge, c1: Cartridge, addr: u16, data: u8) -> bool {
    match c0.mmc3 {
            Some(m) => {
                let len = c0.chr_ram@.len();
                let banks = (len / 0x400) as usize;
                &&& c1.chr_ram@ == if banks == 0 {
                    c0.chr_ram@
                } else {
                    let off = mmc3_chr_offset(&m, addr, banks);
                    if off < len { c0.chr_ram@.update(off, data) } else { c0.chr_ram@ }
                }
                &&& c1 == (Cartridge { chr_ram: c1.chr_ram, ..c0 })
            },
            None => c1 == c0,
        }
}

/// The state change of [`Cartridge::write_prg_mapper191`].
pub open spec fn write_prg_mapper191_post(c0: Cartridge, c1: Cartridge, addr: u16, data: u8) -> bool {
        &&& addr & 0xF0FF == 0x90AA ==> c1 == if mapper191_writable(c0) {
                Cartridge { mapper191_outer_bank: data & 0x03, ..c0 }
            } else {
                c0
            }
        &&& addr & 0xF0FF != 0x90AA ==> match c0.mmc3 {
                Some(o) => {
                    &&& c1.mmc3 matches Some(n)
                    &&& mmc3_written(&o, &n, addr, data)
                    &&& c1 == (Cartridge {
                        mmc3: c1.mmc3,
                        mirroring: if 0xA000 <= addr < 0xC000 && addr % 2 == 0 {
                            if data & 0x01 != 0 { Mirroring::Horizontal } else { Mirroring::Vertical }
                        } else {
                            c0.mirroring
                        },
                        ..c0
                    })
                },
                None => c1 == c0,
            }
}

/// The state change of [`Cartridge::write_prg_mapper250`].
pub open spec fn write_prg_mapper250_post(c0: Cartridge, c1: Cartridge, addr: u16, data: u8) -> bool {
        &&& addr < 0x8000 ==> c1 == c0
        &&& addr >= 0x8000 ==> {
                let reg_addr = ((addr / 0x2000) * 0x2000 + if (addr / 0x400) % 2 == 1 { 1int } else { 0int }) as u16;
                let reg_data = (addr % 256) as u8;
                match c0.mmc3 {
                    Some(o) => {
                        &&& c1.mmc3 matches Some(n)
                        &&& mmc3_written(&o, &n, reg_addr, reg_data)
                        &&& c1 == (Cartridge {
                            mmc3: c1.mmc3,
                            mirroring: if 0xA000 <= reg_addr < 0xC000 && reg_addr % 2 == 0 {
                                if reg_data & 0x01 != 0 { Mirroring::Horizontal } else { Mirroring::Vertical }
                            } else {
                                c0.mirroring
                            },
                            ..c0
                        })
                    },
                    None => c1 == c0,
                }
            }
}

/// The state change of [`Cartridge::write_prg_mmc3`].
pub open spec fn write_prg_mmc3_post(c0: Cartridge, c1: Cartridge, addr: u16, data: u8) -> bool {
    mmc3_prg_written(c0, c1, addr, data)
}

/// The state change of [`Cartridge::write_prg_ram_mmc3`].
pub open spec fn write_prg_ram_mmc3_post(c0: Cartridge, c1: Cartridge, addr: u16, data: u8) -> bool {
    ({
            let blocked = c0.mmc3 is Some && (!c0.mmc3.unwrap().prg_ram_enabled
                || c0.mmc3.unwrap().prg_ram_write_protect);
            &&& c1.prg_ram@ == if !blocked && 0x6000 <= addr && addr - 0x6000 < c0.prg_ram@.len() {
                c0.prg_ram@.update(addr - 0x6000, data)
            } else {
                c0.prg_ram@
            }
            &&& c1 == (Cartridge { prg_ram: c1.prg_ram, ..c0 })
        })
}

/// What [`Cartridge::write_prg_ram_mmc3`] needs.
pub open spec fn write_prg_ram_mmc3_pre(c0: Cartridge, addr: u16, data: u8) -> bool {
    ({
            let blocked = c0.mmc3 is Some && (!c0.mmc3.unwrap().prg_ram_enabled
                || c0.mmc3.unwrap().prg_ram_write_protect);
            c0.prg_ram@.len() > 0 && !blocked ==> addr >= 0x6000
        })
}

} // verus!

//! The Taito boards: TC0190/TC0350 (mappers 33, 48), X1-005 (mappers 80,
//! 207) and X1-017 (mapper 82). Three switchable 8 KiB PRG windows below a
//! fixed last bank, two 2 KiB and four 1 KiB CHR windows, and the X1 chips'
//! register file and small battery RAM.

use vstd::prelude::*;
use crate::cartridge::Mirroring;
use crate::cartridge::load::Cartridge;
use crate::cartridge::mapper::taito::{TaitoX1005, TaitoX1017};
use crate::cartridge::fixed_irq_board::{bank_from_end, prg_8k_byte};
use crate::cartridge::banks::{chr_1k_byte, chr_1k_index, chr_1k_position, pattern_memory};
use crate::bits::{lemma_u16_masks, lemma_u8_masks, lemma_usize_masks};

verus! {

/// A Taito board's CPU read of PRG-ROM: the first two (three) registers
/// select the 8 KiB banks at $8000 and $A000 (and $C000; without a third
/// register $C000 holds the second-to-last bank); $E000 holds the last bank;
/// nothing is mapped below $8000.
pub open spec fn taito_prg_byte(rom: Seq<u8>, prg_banks: Seq<u8>, addr: u16) -> u8 {
    if addr < 0x8000 {
        0
    } else if addr < 0xA000 {
        prg_8k_byte(rom, prg_banks[0] as nat, 0x8000, addr)
    } else if addr < 0xC000 {
        prg_8k_byte(rom, prg_banks[1] as nat, 0xA000, addr)
    } else if addr < 0xE000 {
        let bank: nat = if prg_banks.len() > 2 { prg_banks[2] as nat } else { bank_from_end(rom.len(), 2) };
        prg_8k_byte(rom, bank, 0xC000, addr)
    } else {
        prg_8k_byte(rom, bank_from_end(rom.len(), 1), 0xE000, addr)
    }
}

/// The 1 KiB CHR bank at the slot of `addr`: slots 0-3 come from the two
/// 2 KiB registers (doubled, plus one for the upper kilobyte), slots 4-7
/// from the four 1 KiB registers. `invert` swaps the two halves of pattern
/// memory; `mask` drops bit 7 of the 2 KiB registers.
pub open spec fn taito_chr_bank(chr_banks: Seq<u8>, addr: u16, invert: bool, mask: bool) -> nat {
    let slot: int = ((addr / 0x400) % 8) as int;
    let s: int = if invert { (slot + 4) % 8 } else { slot };
    let chr0: nat = if mask { (chr_banks[0] % 128) as nat } else { chr_banks[0] as nat };
    let chr1: nat = if mask { (chr_banks[1] % 128) as nat } else { chr_banks[1] as nat };
    if s == 0 {
        chr0 * 2
    } else if s == 1 {
        chr0 * 2 + 1
    } else if s == 2 {
        chr1 * 2
    } else if s == 3 {
        chr1 * 2 + 1
    } else {
        chr_banks[s - 2] as nat
    }
}

/// The TC0190 after a write: $8000/$8001 set the PRG banks (6 bits),
/// $8002/$8003 the 2 KiB CHR banks, $A000-$A003 the 1 KiB CHR banks; the
/// address is decoded by its bits 15-12 and 1-0.
pub open spec fn tc0190_written(o: Seq<u8>, oc: Seq<u8>, n: Seq<u8>, nc: Seq<u8>, addr: u16, data: u8) -> bool {
    let r = addr & 0xF003;
    &&& n == if r == 0x8000 {
        o.update(0, data & 0x3F)
    } else if r == 0x8001 {
        o.update(1, data & 0x3F)
    } else {
        o
    }
    &&& nc == if r == 0x8002 {
        oc.update(0, data)
    } else if r == 0x8003 {
        oc.update(1, data)
    } else if 0xA000 <= r <= 0xA003 {
        oc.update(r - 0xA000 + 2, data)
    } else {
        oc
    }
}

/// The X1 register selected by a CPU write: $7EF0-$7EFF (address bit 7
/// ignored) select registers 0-15.
pub open spec fn taito_x1_register(addr: u16) -> Option<u8> {
    if addr & 0xFF70 == 0x7E70 { Some((addr % 16) as u8) } else { None }
}

/// Mapper 207's nametables from bit 7 of the two 2 KiB CHR registers: both
/// clear or both set give one screen (lower or upper), otherwise horizontal
/// arrangement, swapped when only the first is set.
pub open spec fn taito207_mirroring(chr0: u8, chr1: u8) -> Mirroring {
    let top = chr0 / 128;
    let bottom = chr1 / 128;
    if top == 0 && bottom == 0 {
        Mirroring::OneScreenLower
    } else if top == 1 && bottom == 1 {
        Mirroring::OneScreenUpper
    } else if top == 0 {
        Mirroring::Horizontal
    } else {
        Mirroring::HorizontalSwapped
    }
}

/// The X1-005's registers after a write of register `reg`: 0-5 the CHR
/// banks, 8-10 the PRG banks, register 10's bit 3 also unlocking the RAM.
pub open spec fn x1005_written(o: TaitoX1005, n: TaitoX1005, reg: u8, data: u8) -> bool {
    &&& n.chr_banks@ == if reg <= 5 { o.chr_banks@.update(reg as int, data) } else { o.chr_banks@ }
    &&& n.prg_banks@ == if 8 <= reg <= 10 { o.prg_banks@.update(reg - 8, data) } else { o.prg_banks@ }
    &&& n.ram_enabled == if reg == 10 { data & 0x08 != 0 } else { o.ram_enabled }
}

/// The X1-005's 128 bytes of RAM at $7F00-$7FFF (mirrored once), while
/// unlocked and present.
pub open spec fn x1005_ram_index(c: Cartridge, t: TaitoX1005, addr: u16) -> Option<int> {
    if t.ram_enabled && 0x7F00 <= addr <= 0x7FFF && c.prg_ram@.len() > 0 {
        Some(((addr - 0x7F00) % 128) % (c.prg_ram@.len() as int))
    } else {
        None
    }
}

/// The X1-017's registers after a write of register `reg`: 0-1 the 2 KiB
/// CHR banks (7 bits), 2-5 the 1 KiB CHR banks, 6 the CHR inversion (bit 1),
/// 7-9 unlock a RAM page each with its own key byte, 10-12 the PRG banks
/// (bits 2-5).
pub open spec fn x1017_written(o: TaitoX1017, n: TaitoX1017, reg: u8, data: u8) -> bool {
    &&& n.chr_banks@ == if reg <= 1 {
        o.chr_banks@.update(reg as int, data & 0x7F)
    } else if reg <= 5 {
        o.chr_banks@.update(reg as int, data)
    } else {
        o.chr_banks@
    }
    &&& n.chr_invert == if reg == 6 { data & 0x02 != 0 } else { o.chr_invert }
    &&& n.ram_enabled@ == if reg == 7 {
        o.ram_enabled@.update(0, data == 0xCA)
    } else if reg == 8 {
        o.ram_enabled@.update(1, data == 0x69)
    } else if reg == 9 {
        o.ram_enabled@.update(2, data == 0x84)
    } else {
        o.ram_enabled@
    }
    &&& n.prg_banks@ == if 10 <= reg <= 12 { o.prg_banks@.update(reg - 10, ((data / 4) % 16) as u8) } else { o.prg_banks@ }
}

/// The X1-017's RAM pages: $6000-$67FF and $6800-$6FFF (2 KiB each) and
/// $7000-$73FF (1 KiB), each while unlocked; the offset is taken from $6000
/// and must fall inside PRG-RAM.
pub open spec fn x1017_ram_index(c: Cartridge, t: TaitoX1017, addr: u16) -> Option<int> {
    let page: int = if 0x6000 <= addr < 0x6800 {
        0
    } else if 0x6800 <= addr < 0x7000 {
        1
    } else if 0x7000 <= addr < 0x7400 {
        2
    } else {
        -1
    };
    if page >= 0 && t.ram_enabled@[page] && addr - 0x6000 < c.prg_ram@.len() {
        Some(addr - 0x6000)
    } else {
        None
    }
}

impl Cartridge {
    /// PRG-ROM through two or three bank registers.
    fn read_prg_taito_like(&self, addr: u16, prg_banks: &[u8]) -> (r: u8)
        requires
            prg_banks@.len() >= 2,
        ensures
            r == taito_prg_byte(self.prg_rom@, prg_banks@, addr),
    {
        let len = self.prg_rom.len();
        let bank_count = if len / 0x2000 > 1 { len / 0x2000 } else { 1 };
        if addr < 0x8000 {
            0
        } else if addr < 0xA000 {
            self.read_prg_8k_bank(prg_banks[0] as usize, 0x8000, addr)
        } else if addr < 0xC000 {
            self.read_prg_8k_bank(prg_banks[1] as usize, 0xA000, addr)
        } else if addr < 0xE000 {
            let bank = if prg_banks.len() > 2 { prg_banks[2] as usize } else { bank_count.saturating_sub(2) };
            self.read_prg_8k_bank(bank, 0xC000, addr)
        } else {
            self.read_prg_8k_bank(bank_count.saturating_sub(1), 0xE000, addr)
        }
    }

    /// The 1 KiB CHR bank selected at the slot of `addr`.
    pub fn resolve_taito_chr_bank(chr_banks: &[u8; 6], addr: u16, chr_invert: bool, mask_high_mirroring_bits: bool) -> (b: usize)
        ensures
            b == taito_chr_bank(chr_banks@, addr, chr_invert, mask_high_mirroring_bits),
            b < 512,
    {
        let slot = ((addr >> 10) & 0x07) as usize;
        proof {
            lemma_u16_masks(addr);
            lemma_usize_masks(slot, 0);
            lemma_u8_masks(chr_banks[0]);
            lemma_u8_masks(chr_banks[1]);
        }
        let adjusted_slot = if chr_invert { slot ^ 4 } else { slot };
        let chr0 = if mask_high_mirroring_bits { chr_banks[0] & 0x7F } else { chr_banks[0] };
        let chr1 = if mask_high_mirroring_bits { chr_banks[1] & 0x7F } else { chr_banks[1] };
        if adjusted_slot == 0 {
            (chr0 as usize) * 2
        } else if adjusted_slot == 1 {
            (chr0 as usize) * 2 + 1
        } else if adjusted_slot == 2 {
            (chr1 as usize) * 2
        } else if adjusted_slot == 3 {
            (chr1 as usize) * 2 + 1
        } else {
            chr_banks[adjusted_slot - 2] as usize
        }
    }

    /// A PPU read of pattern memory through the Taito CHR windows.
    fn read_chr_taito_like(&self, addr: u16, chr_banks: &[u8; 6], chr_invert: bool, mask_high_mirroring_bits: bool) -> (r: u8)
        ensures
            r == chr_1k_byte(pattern_memory(*self), taito_chr_bank(chr_banks@, addr, chr_invert, mask_high_mirroring_bits), addr),
    {
        let bank = Self::resolve_taito_chr_bank(chr_banks, addr, chr_invert, mask_high_mirroring_bits);
        if self.chr_ram.len() > 0 {
            let i = chr_1k_position(self.chr_ram.len(), bank, addr);
            self.chr_ram[i]
        } else if self.chr_rom.len() > 0 {
            let i = chr_1k_position(self.chr_rom.len(), bank, addr);
            self.chr_rom[i]
        } else {
            0
        }
    }

    /// A PPU write of pattern memory through the Taito CHR windows: into
    /// CHR-RAM when the board has some, else into the CHR-ROM image.
    fn write_chr_taito_like(&mut self, addr: u16, chr_banks: &[u8; 6], chr_invert: bool, mask_high_mirroring_bits: bool, data: u8)
        ensures
            ({
                let bank = taito_chr_bank(chr_banks@, addr, chr_invert, mask_high_mirroring_bits);
                if old(self).chr_ram@.len() > 0 {
                    &&& final(self).chr_ram@ == old(self).chr_ram@.update(chr_1k_index(old(self).chr_ram@.len(), bank, addr), data)
                    &&& *final(self) == (Cartridge { chr_ram: final(self).chr_ram, ..*old(self) })
                } else if old(self).chr_rom@.len() > 0 {
                    &&& final(self).chr_rom@ == old(self).chr_rom@.update(chr_1k_index(old(self).chr_rom@.len(), bank, addr), data)
                    &&& *final(self) == (Cartridge { chr_rom: final(self).chr_rom, ..*old(self) })
                } else {
                    *final(self) == *old(self)
                }
            }),
    {
        let bank = Self::resolve_taito_chr_bank(chr_banks, addr, chr_invert, mask_high_mirroring_bits);
        if self.chr_ram.len() > 0 {
            let i = chr_1k_position(self.chr_ram.len(), bank, addr);
            self.chr_ram.set(i, data);
        } else if self.chr_rom.len() > 0 {
            let i = chr_1k_position(self.chr_rom.len(), bank, addr);
            self.chr_rom.set(i, data);
        }
    }

    /// TC0190: a CPU read of PRG-ROM; 0 without the chip.
    pub fn read_prg_taito_tc0190(&self, addr: u16) -> (r: u8)
        ensures
            r == read_prg_taito_tc0190_value(*self, addr),
    {
        match &self.taito_tc0190 {
            Some(t) => {
                let banks = [t.prg_banks[0], t.prg_banks[1]];
                proof {
                    assert(banks@ =~= t.prg_banks@);
                }
                self.read_prg_taito_like(addr, &banks)
            },
            None => 0,
        }
    }

    /// TC0190: a CPU write of a register. The first PRG bank also becomes
    /// the board's PRG bank and its bit 6 picks horizontal (set) or vertical
    /// nametables; the first CHR bank also becomes the board's CHR bank.
    /// Nothing happens without the chip.
    pub fn write_prg_taito_tc0190(&mut self, addr: u16, data: u8)
        ensures
            write_prg_taito_tc0190_post(*old(self), *final(self), addr, data),
    {
        let mut t = match self.taito_tc0190.take() {
            Some(t) => t,
            None => {
                return;
            },
        };
        let r = addr & 0xF003;
        if r == 0x8000 {
            t.prg_banks[0] = data & 0x3F;
            self.prg_bank = t.prg_banks[0];
            self.mirroring = if data & 0x40 != 0 { Mirroring::Horizontal } else { Mirroring::Vertical };
        } else if r == 0x8001 {
            t.prg_banks[1] = data & 0x3F;
        } else if r == 0x8002 {
            t.chr_banks[0] = data;
            self.chr_bank = data;
        } else if r == 0x8003 {
            t.chr_banks[1] = data;
        } else if r == 0xA000 {
            t.chr_banks[2] = data;
        } else if r == 0xA001 {
            t.chr_banks[3] = data;
        } else if r == 0xA002 {
            t.chr_banks[4] = data;
        } else if r == 0xA003 {
            t.chr_banks[5] = data;
        }
        self.taito_tc0190 = Some(t);
    }

    /// TC0190: a PPU read of pattern memory; 0 without the chip.
    pub fn read_chr_taito_tc0190(&self, addr: u16) -> (r: u8)
        ensures
            r == read_chr_taito_tc0190_value(*self, addr),
    {
        match &self.taito_tc0190 {
            Some(t) => self.read_chr_taito_like(addr, &t.chr_banks, false, false),
            None => 0,
        }
    }

    /// TC0190: a PPU write of pattern memory; nothing without the chip.
    pub fn write_chr_taito_tc0190(&mut self, addr: u16, data: u8)
        ensures
            write_chr_taito_tc0190_post(*old(self), *final(self), addr, data),
    {
        let chr_banks = match &self.taito_tc0190 {
            Some(t) => t.chr_banks,
            None => {
                return;
            },
        };
        self.write_chr_taito_like(addr, &chr_banks, false, false, data);
    }
    /// Mapper 207 takes its nametables from bit 7 of the X1-005's two 2 KiB
    /// CHR registers; other boards keep theirs.
    fn sync_taito207_mirroring(&mut self)
        ensures
            *final(self) == if old(self).mapper == 207 && old(self).taito_x1005 is Some {
                let t = old(self).taito_x1005.unwrap();
                Cartridge { mirroring: taito207_mirroring(t.chr_banks@[0], t.chr_banks@[1]), ..*old(self) }
            } else {
                *old(self)
            },
    {
        if self.mapper != 207 {
            return;
        }
        let m = match &self.taito_x1005 {
            Some(t) => {
                let top = (t.chr_banks[0] >> 7) & 1;
                let bottom = (t.chr_banks[1] >> 7) & 1;
                proof {
                    lemma_u8_masks(t.chr_banks[0]);
                    lemma_u8_masks(t.chr_banks[1]);
                }
                if top == 0 && bottom == 0 {
                    Mirroring::OneScreenLower
                } else if top == 1 && bottom == 1 {
                    Mirroring::OneScreenUpper
                } else if top == 0 {
                    Mirroring::Horizontal
                } else {
                    Mirroring::HorizontalSwapped
                }
            },
            None => {
                return;
            },
        };
        self.mirroring = m;
    }

    /// The X1 register a CPU write selects, if any.
    pub fn taito_x1005_register(addr: u16) -> (r: Option<u8>)
        ensures
            r == taito_x1_register(addr),
    {
        if (addr & 0xFF70) == 0x7E70 {
            proof {
                lemma_u16_masks(addr);
            }
            Some((addr & 0x000F) as u8)
        } else {
            None
        }
    }

    /// X1-005: a CPU read of PRG-ROM; 0 without the chip.
    pub fn read_prg_taito_x1005(&self, addr: u16) -> (r: u8)
        ensures
            r == read_prg_taito_x1005_value(*self, addr),
    {
        match &self.taito_x1005 {
            Some(t) => self.read_prg_taito_like(addr, t.prg_banks.as_slice()),
            None => 0,
        }
    }

    /// X1-005: a PPU read of pattern memory; mapper 207 ignores bit 7 of the
    /// 2 KiB registers (its nametable bits). 0 without the chip.
    pub fn read_chr_taito_x1005(&self, addr: u16) -> (r: u8)
        ensures
            r == read_chr_taito_x1005_value(*self, addr),
    {
        match &self.taito_x1005 {
            Some(t) => self.read_chr_taito_like(addr, &t.chr_banks, false, self.mapper == 207),
            None => 0,
        }
    }

    /// X1-005: a PPU write of pattern memory; nothing without the chip.
    pub fn write_chr_taito_x1005(&mut self, addr: u16, data: u8)
        ensures
            write_chr_taito_x1005_post(*old(self), *final(self), addr, data),
    {
        let chr_banks = match &self.taito_x1005 {
            Some(t) => t.chr_banks,
            None => {
                return;
            },
        };
        let mask = self.mapper == 207;
        self.write_chr_taito_like(addr, &chr_banks, false, mask, data);
    }

    /// X1-005: a CPU read of its RAM; 0 while locked, outside it or without
    /// the chip.
    pub fn read_prg_ram_taito_x1005(&self, addr: u16) -> (r: u8)
        ensures
            r == read_prg_ram_taito_x1005_value(*self, addr),
    {
        let enabled = match &self.taito_x1005 {
            Some(t) => t.ram_enabled,
            None => false,
        };
        if enabled && 0x7F00 <= addr && addr <= 0x7FFF && self.prg_ram.len() > 0 {
            let local = addr - 0x7F00;
            proof {
                lemma_u16_masks(local);
            }
            let ram_addr = (local & 0x007F) as usize;
            self.prg_ram[ram_addr % self.prg_ram.len()]
        } else {
            0
        }
    }

    /// X1-005: a CPU write at $6000-$7FFF. A register write updates the
    /// chip; CHR register 0 also becomes the board's CHR bank (7 bits on
    /// mapper 207), PRG register 8 the board's PRG bank; on mapper 207 CHR
    /// registers 0-1 also set the nametables, on mapper 80 register 6's bit
    /// 0 picks vertical (set) or horizontal ones. Other writes go to the
    /// RAM while it is unlocked. Nothing happens without the chip.
    pub fn write_prg_ram_taito_x1005(&mut self, addr: u16, data: u8)
        ensures
            write_prg_ram_taito_x1005_post(*old(self), *final(self), addr, data),
    {
        match Self::taito_x1005_register(addr) {
            Some(reg) => self.write_taito_x1005_register(reg, data),
            None => {
                let enabled = match &self.taito_x1005 {
                    Some(t) => t.ram_enabled,
                    None => false,
                };
                if enabled && 0x7F00 <= addr && addr <= 0x7FFF && self.prg_ram.len() > 0 {
                    let local = addr - 0x7F00;
                    proof {
                        lemma_u16_masks(local);
                    }
                    let ram_addr = (local & 0x007F) as usize;
                    let len = self.prg_ram.len();
                    self.prg_ram.set(ram_addr % len, data);
                }
            },
        }
    }

    /// X1-005: a write of register `reg`, with its effects on the board.
    #[verifier::rlimit(30)]
    fn write_taito_x1005_register(&mut self, reg: u8, data: u8)
        ensures
            match old(self).taito_x1005 {
                None => *final(self) == *old(self),
                Some(o) => {
                    let mapper = old(self).mapper;
                    &&& final(self).taito_x1005 matches Some(n)
                    &&& x1005_written(o, n, reg, data)
                    &&& *final(self) == (Cartridge {
                        chr_bank: if reg == 0 {
                            if mapper == 207 { data & 0x7F } else { data }
                        } else {
                            old(self).chr_bank
                        },
                        prg_bank: if reg == 8 { data } else { old(self).prg_bank },
                        mirroring: if reg <= 1 && mapper == 207 {
                            taito207_mirroring(n.chr_banks@[0], n.chr_banks@[1])
                        } else if reg == 6 && mapper == 80 {
                            if data & 0x01 != 0 { Mirroring::Vertical } else { Mirroring::Horizontal }
                        } else {
                            old(self).mirroring
                        },
                        taito_x1005: final(self).taito_x1005,
                        ..*old(self)
                    })
                },
            },
    {
        let mut t = match self.taito_x1005.take() {
            Some(t) => t,
            None => {
                return;
            },
        };
        if reg <= 5 {
            t.chr_banks[reg as usize] = data;
            if reg == 0 {
                self.chr_bank = if self.mapper == 207 { data & 0x7F } else { data };
            }
        } else if reg == 6 {
            if self.mapper == 80 {
                self.mirroring = if data & 0x01 != 0 { Mirroring::Vertical } else { Mirroring::Horizontal };
            }
        } else if 8 <= reg && reg <= 10 {
            t.prg_banks[(reg - 8) as usize] = data;
            if reg == 8 {
                self.prg_bank = data;
            }
            if reg == 10 {
                t.ram_enabled = data & 0x08 != 0;
            }
        }
        self.taito_x1005 = Some(t);
        if reg <= 1 && self.mapper == 207 {
            self.sync_taito207_mirroring();
        }
    }

    /// X1-017: a CPU read of PRG-ROM; 0 without the chip.
    pub fn read_prg_taito_x1017(&self, addr: u16) -> (r: u8)
        ensures
            r == read_prg_taito_x1017_value(*self, addr),
    {
        match &self.taito_x1017 {
            Some(t) => self.read_prg_taito_like(addr, t.prg_banks.as_slice()),
            None => 0,
        }
    }

    /// X1-017: a PPU read of pattern memory, halves swapped while the chip's
    /// inversion is on; 0 without the chip.
    pub fn read_chr_taito_x1017(&self, addr: u16) -> (r: u8)
        ensures
            r == read_chr_taito_x1017_value(*self, addr),
    {
        match &self.taito_x1017 {
            Some(t) => self.read_chr_taito_like(addr, &t.chr_banks, t.chr_invert, false),
            None => 0,
        }
    }

    /// X1-017: a PPU write of pattern memory; nothing without the chip.
    pub fn write_chr_taito_x1017(&mut self, addr: u16, data: u8)
        ensures
            write_chr_taito_x1017_post(*old(self), *final(self), addr, data),
    {
        let (chr_banks, chr_invert) = match &self.taito_x1017 {
            Some(t) => (t.chr_banks, t.chr_invert),
            None => {
                return;
            },
        };
        self.write_chr_taito_like(addr, &chr_banks, chr_invert, false, data);
    }

    /// X1-017: a CPU read of an unlocked RAM page; 0 otherwise or without
    /// the chip.
    pub fn read_prg_ram_taito_x1017(&self, addr: u16) -> (r: u8)
        ensures
            r == read_prg_ram_taito_x1017_value(*self, addr),
    {
        match &self.taito_x1017 {
            Some(t) => match Self::x1017_ram_offset(t, addr) {
                Some(offset) => if offset < self.prg_ram.len() { self.prg_ram[offset] } else { 0 },
                None => 0,
            },
            None => 0,
        }
    }

    /// The offset from $6000 of an X1-017 RAM page address while that page
    /// is unlocked.
    fn x1017_ram_offset(t: &TaitoX1017, addr: u16) -> (r: Option<usize>)
        ensures
            r == if (0x6000 <= addr < 0x6800 && t.ram_enabled@[0]) || (0x6800 <= addr < 0x7000 && t.ram_enabled@[1])
                || (0x7000 <= addr < 0x7400 && t.ram_enabled@[2]) {
                Some((addr - 0x6000) as usize)
            } else {
                None::<usize>
            },
    {
        let enabled = if 0x6000 <= addr && addr <= 0x67FF {
            t.ram_enabled[0]
        } else if 0x6800 <= addr && addr <= 0x6FFF {
            t.ram_enabled[1]
        } else if 0x7000 <= addr && addr <= 0x73FF {
            t.ram_enabled[2]
        } else {
            false
        };
        if enabled { Some((addr - 0x6000) as usize) } else { None }
    }

    /// X1-017: a CPU write at $6000-$7FFF. A register write updates the
    /// chip; CHR register 0 (7 bits) also becomes the board's CHR bank, PRG
    /// register 10 the board's PRG bank, and register 6's bit 0 picks
    /// vertical (set) or horizontal nametables. Other writes go to an
    /// unlocked RAM page. Nothing happens without the chip.
    #[verifier::rlimit(60)]
    pub fn write_prg_ram_taito_x1017(&mut self, addr: u16, data: u8)
        ensures
            write_prg_ram_taito_x1017_post(*old(self), *final(self), addr, data),
    {
        match Self::taito_x1005_register(addr) {
            Some(reg) => {
                let mut t = match self.taito_x1017.take() {
                    Some(t) => t,
                    None => {
                        return;
                    },
                };
                proof {
                    lemma_u8_masks(data);
                }
                if reg <= 1 {
                    t.chr_banks[reg as usize] = data & 0x7F;
                    if reg == 0 {
                        self.chr_bank = data & 0x7F;
                    }
                } else if reg <= 5 {
                    t.chr_banks[reg as usize] = data;
                } else if reg == 6 {
                    t.chr_invert = data & 0x02 != 0;
                    self.mirroring = if data & 0x01 != 0 { Mirroring::Vertical } else { Mirroring::Horizontal };
                } else if reg == 7 {
                    t.ram_enabled[0] = data == 0xCA;
                } else if reg == 8 {
                    t.ram_enabled[1] = data == 0x69;
                } else if reg == 9 {
                    t.ram_enabled[2] = data == 0x84;
                } else if reg <= 12 {
                    let bank = (data >> 2) & 0x0F;
                    t.prg_banks[(reg - 10) as usize] = bank;
                    if reg == 10 {
                        self.prg_bank = bank;
                    }
                }
                self.taito_x1017 = Some(t);
            },
            None => {
                let offset = match &self.taito_x1017 {
                    Some(t) => Self::x1017_ram_offset(t, addr),
                    None => None,
                };
                if let Some(offset) = offset {
                    if offset < self.prg_ram.len() {
                        self.prg_ram.set(offset, data);
                    }
                }
            },
        }
    }
}

/// The byte [`Cartridge::read_chr_taito_tc0190`] returns.
pub open spec fn read_chr_taito_tc0190_value(cart: Cartridge, addr: u16) -> u8 {
    match cart.taito_tc0190 {
            Some(t) => chr_1k_byte(pattern_memory(cart), taito_chr_bank(t.chr_banks@, addr, false, false), addr),
            None => 0,
        }
}

/// The byte [`Cartridge::read_chr_taito_x1005`] returns.
pub open spec fn read_chr_taito_x1005_value(cart: Cartridge, addr: u16) -> u8 {
    match cart.taito_x1005 {
            Some(t) => chr_1k_byte(pattern_memory(cart), taito_chr_bank(t.chr_banks@, addr, false, cart.mapper == 207), addr),
            None => 0,
        }
}

/// The byte [`Cartridge::read_chr_taito_x1017`] returns.
pub open spec fn read_chr_taito_x1017_value(cart: Cartridge, addr: u16) -> u8 {
    match cart.taito_x1017 {
            Some(t) => chr_1k_byte(pattern_memory(cart), taito_chr_bank(t.chr_banks@, addr, t.chr_invert, false), addr),
            None => 0,
        }
}

/// The byte [`Cartridge::read_prg_ram_taito_x1005`] returns.
pub open spec fn read_prg_ram_taito_x1005_value(cart: Cartridge, addr: u16) -> u8 {
    match cart.taito_x1005 {
            Some(t) => match x1005_ram_index(cart, t, addr) {
                Some(i) => cart.prg_ram@[i],
                None => 0,
            },
            None => 0,
        }
}

/// The byte [`Cartridge::read_prg_ram_taito_x1017`] returns.
pub open spec fn read_prg_ram_taito_x1017_value(cart: Cartridge, addr: u16) -> u8 {
    match cart.taito_x1017 {
            Some(t) => match x1017_ram_index(cart, t, addr) {
                Some(i) => cart.prg_ram@[i],
                None => 0,
            },
            None => 0,
        }
}

/// The byte [`Cartridge::read_prg_taito_tc0190`] returns.
pub open spec fn read_prg_taito_tc0190_value(cart: Cartridge, addr: u16) -> u8 {
    match cart.taito_tc0190 {
            Some(t) => taito_prg_byte(cart.prg_rom@, t.prg_banks@, addr),
            None => 0,
        }
}

/// The byte [`Cartridge::read_prg_taito_x1005`] returns.
pub open spec fn read_prg_taito_x1005_value(cart: Cartridge, addr: u16) -> u8 {
    match cart.taito_x1005 {
            Some(t) => taito_prg_byte(cart.prg_rom@, t.prg_banks@, addr),
            None => 0,
        }
}

/// The byte [`Cartridge::read_prg_taito_x1017`] returns.
pub open spec fn read_prg_taito_x1017_value(cart: Cartridge, addr: u16) -> u8 {
    match cart.taito_x1017 {
            Some(t) => taito_prg_byte(cart.prg_rom@, t.prg_banks@, addr),
            None => 0,
        }
}

/// The state change of [`Cartridge::write_chr_taito_tc0190`].
pub open spec fn write_chr_taito_tc0190_post(c0: Cartridge, c1: Cartridge, addr: u16, data: u8) -> bool {
    match c0.taito_tc0190 {
            Some(t) => {
                let bank = taito_chr_bank(t.chr_banks@, addr, false, false);
                if c0.chr_ram@.len() > 0 {
                    &&& c1.chr_ram@ == c0.chr_ram@.update(chr_1k_index(c0.chr_ram@.len(), bank, addr), data)
                    &&& c1 == (Cartridge { chr_ram: c1.chr_ram, ..c0 })
                } else if c0.chr_rom@.len() > 0 {
                    &&& c1.chr_rom@ == c0.chr_rom@.update(chr_1k_index(c0.chr_rom@.len(), bank, addr), data)
                    &&& c1 == (Cartridge { chr_rom: c1.chr_rom, ..c0 })
                } else {
                    c1 == c0
                }
            },
            None => c1 == c0,
        }
}

/// The state change of [`Cartridge::write_chr_taito_x1005`].
pub open spec fn write_chr_taito_x1005_post(c0: Cartridge, c1: Cartridge, addr: u16, data: u8) -> bool {
    match c0.taito_x1005 {
            Some(t) => {
                let bank = taito_chr_bank(t.chr_banks@, addr, false, c0.mapper == 207);
                if c0.chr_ram@.len() > 0 {
                    &&& c1.chr_ram@ == c0.chr_ram@.update(chr_1k_index(c0.chr_ram@.len(), bank, addr), data)
                    &&& c1 == (Cartridge { chr_ram: c1.chr_ram, ..c0 })
                } else if c0.chr_rom@.len() > 0 {
                    &&& c1.chr_rom@ == c0.chr_rom@.update(chr_1k_index(c0.chr_rom@.len(), bank, addr), data)
                    &&& c1 == (Cartridge { chr_rom: c1.chr_rom, ..c0 })
                } else {
                    c1 == c0
                }
            },
            None => c1 == c0,
        }
}

/// The state change of [`Cartridge::write_chr_taito_x1017`].
pub open spec fn write_chr_taito_x1017_post(c0: Cartridge, c1: Cartridge, addr: u16, data: u8) -> bool {
    match c0.taito_x1017 {
            Some(t) => {
                let bank = taito_chr_bank(t.chr_banks@, addr, t.chr_invert, false);
                if c0.chr_ram@.len() > 0 {
                    &&& c1.chr_ram@ == c0.chr_ram@.update(chr_1k_index(c0.chr_ram@.len(), bank, addr), data)
                    &&& c1 == (Cartridge { chr_ram: c1.chr_ram, ..c0 })
                } else if c0.chr_rom@.len() > 0 {
                    &&& c1.chr_rom@ == c0.chr_rom@.update(chr_1k_index(c0.chr_rom@.len(), bank, addr), data)
                    &&& c1 == (Cartridge { chr_rom: c1.chr_rom, ..c0 })
                } else {
                    c1 == c0
                }
            },
            None => c1 == c0,
        }
}

/// The state change of [`Cartridge::write_prg_ram_taito_x1005`].
pub open spec fn write_prg_ram_taito_x1005_post(c0: Cartridge, c1: Cartridge, addr: u16, data: u8) -> bool {
    match taito_x1_register(addr) {
            Some(reg) => match c0.taito_x1005 {
                None => c1 == c0,
                Some(o) => {
                    let mapper = c0.mapper;
                    &&& c1.taito_x1005 matches Some(n)
                    &&& x1005_written(o, n, reg, data)
                    &&& c1 == (Cartridge {
                        chr_bank: if reg == 0 {
                            if mapper == 207 { data & 0x7F } else { data }
                        } else {
                            c0.chr_bank
                        },
                        prg_bank: if reg == 8 { data } else { c0.prg_bank },
                        mirroring: if reg <= 1 && mapper == 207 {
                            taito207_mirroring(n.chr_banks@[0], n.chr_banks@[1])
                        } else if reg == 6 && mapper == 80 {
                            if data & 0x01 != 0 { Mirroring::Vertical } else { Mirroring::Horizontal }
                        } else {
                            c0.mirroring
                        },
                        taito_x1005: c1.taito_x1005,
                        ..c0
                    })
                },
            },
            None => match c0.taito_x1005 {
                Some(t) => match x1005_ram_index(c0, t, addr) {
                    Some(i) => {
                        &&& c1.prg_ram@ == c0.prg_ram@.update(i, data)
                        &&& c1 == (Cartridge { prg_ram: c1.prg_ram, ..c0 })
                    },
                    None => c1 == c0,
                },
                None => c1 == c0,
            },
        }
}

/// The state change of [`Cartridge::write_prg_ram_taito_x1017`].
pub open spec fn write_prg_ram_taito_x1017_post(c0: Cartridge, c1: Cartridge, addr: u16, data: u8) -> bool {
    match taito_x1_register(addr) {
            Some(reg) => match c0.taito_x1017 {
                None => c1 == c0,
                Some(o) => {
                    &&& c1.taito_x1017 matches Some(n)
                    &&& x1017_written(o, n, reg, data)
                    &&& c1 == (Cartridge {
                        chr_bank: if reg == 0 { data & 0x7F } else { c0.chr_bank },
                        prg_bank: if reg == 10 { ((data / 4) % 16) as u8 } else { c0.prg_bank },
                        mirroring: if reg == 6 {
                            if data & 0x01 != 0 { Mirroring::Vertical } else { Mirroring::Horizontal }
                        } else {
                            c0.mirroring
                        },
                        taito_x1017: c1.taito_x1017,
                        ..c0
                    })
                },
            },
            None => match c0.taito_x1017 {
                Some(t) => match x1017_ram_index(c0, t, addr) {
                    Some(i) => {
                        &&& c1.prg_ram@ == c0.prg_ram@.update(i, data)
                        &&& c1 == (Cartridge { prg_ram: c1.prg_ram, ..c0 })
                    },
                    None => c1 == c0,
                },
                None => c1 == c0,
            },
        }
}

/// The state change of [`Cartridge::write_prg_taito_tc0190`].
pub open spec fn write_prg_taito_tc0190_post(c0: Cartridge, c1: Cartridge, addr: u16, data: u8) -> bool {
    match c0.taito_tc0190 {
            None => c1 == c0,
            Some(o) => {
                let r = addr & 0xF003;
                &&& c1.taito_tc0190 matches Some(n)
                &&& tc0190_written(o.prg_banks@, o.chr_banks@, n.prg_banks@, n.chr_banks@, addr, data)
                &&& c1 == (Cartridge {
                    prg_bank: if r == 0x8000 { data & 0x3F } else { c0.prg_bank },
                    mirroring: if r == 0x8000 {
                        if data & 0x40 != 0 { Mirroring::Horizontal } else { Mirroring::Vertical }
                    } else {
                        c0.mirroring
                    },
                    chr_bank: if r == 0x8002 { data } else { c0.chr_bank },
                    taito_tc0190: c1.taito_tc0190,
                    ..c0
                })
            },
        }
}

} // verus!

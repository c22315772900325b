//! Konami VRC2/VRC4 boards (mappers 21, 22, 23, 25): how the CPU address
//! lines select the chip's registers on each board, and the PRG, CHR and
//! PRG-RAM accesses through it.

use vstd::prelude::*;
use crate::cartridge::Mirroring;
use crate::cartridge::load::Cartridge;
use crate::cartridge::mapper::vrc2_vrc4::Vrc2Vrc4;
use crate::cartridge::mapper::vrc_irq::vrc_irq_cycles;
use crate::bits::{lemma_u16_masks, lemma_u8_masks};

verus! {

/// The register (0-3) within a $1000 block that `addr` selects: the boards
/// wire different CPU address lines to the chip's A0/A1.
pub open spec fn vrc24_register(mapper: u8, addr: u16) -> Option<u8> {
    let low = addr % 16;
    if mapper == 21 {
        let m = addr & 0x00C6;
        if m == 0 {
            Some(0u8)
        } else if m == 0x02 || m == 0x40 {
            Some(1u8)
        } else if m == 0x04 || m == 0x80 {
            Some(2u8)
        } else if m == 0x06 || m == 0xC0 {
            Some(3u8)
        } else {
            None
        }
    } else if mapper == 22 {
        if low == 0 {
            Some(0u8)
        } else if low == 2 || low == 8 {
            Some(1u8)
        } else if low == 1 || low == 4 {
            Some(2u8)
        } else if low == 3 || low == 0xC {
            Some(3u8)
        } else {
            None
        }
    } else if mapper == 23 || mapper == 25 {
        if low == 0 {
            Some(0u8)
        } else if (mapper == 23 && (low == 1 || low == 4)) || (mapper == 25 && (low == 2 || low == 8)) {
            Some(1u8)
        } else if (mapper == 23 && (low == 2 || low == 8)) || (mapper == 25 && (low == 1 || low == 4)) {
            Some(2u8)
        } else if low == 3 || low == 0xC {
            Some(3u8)
        } else {
            None
        }
    } else {
        None
    }
}

/// Register 1 and register 2 exchanged.
pub open spec fn swap_a0_a1(r: Option<u8>) -> Option<u8> {
    match r {
        Some(1u8) => Some(2u8),
        Some(2u8) => Some(1u8),
        other => other,
    }
}

/// Law of the VRC2/VRC4 address wiring. Board 23 feeds the chip's A0 from
/// CPU A0 or A2 and its A1 from CPU A1 or A3, so the register is A0 + 2 A1;
/// board 25 wires the same lines the other way round, so on every address
/// it selects register 1 where board 23 selects register 2 and the reverse,
/// and both agree on registers 0 and 3; board 22 is wired as board 25.
pub proof fn lemma_vrc24_wiring(addr: u16)
    ensures
        addr % 16 == 0 ==> vrc24_register(23, addr) == Some(0u8),
        (addr % 16 == 1 || addr % 16 == 4) ==> vrc24_register(23, addr) == Some(1u8),
        (addr % 16 == 2 || addr % 16 == 8) ==> vrc24_register(23, addr) == Some(2u8),
        (addr % 16 == 3 || addr % 16 == 12) ==> vrc24_register(23, addr) == Some(3u8),
        vrc24_register(25, addr) == swap_a0_a1(vrc24_register(23, addr)),
        vrc24_register(22, addr) == vrc24_register(25, addr),
{
}

/// A write through the address lines only a VRC4 decodes marks the chip
/// as a VRC4.
pub open spec fn vrc24_alt_decode(mapper: u8, addr: u16) -> bool {
    mapper != 22 && (addr % 16 == 4 || addr % 16 == 8 || addr % 16 == 0xC)
}

/// The nametable arrangement of a mirroring write: four choices on the
/// VRC4, horizontal or vertical on the VRC2.
pub open spec fn vrc24_mirroring(vrc4: bool, data: u8) -> Mirroring {
    if vrc4 {
        if data % 4 == 0 {
            Mirroring::Vertical
        } else if data % 4 == 1 {
            Mirroring::Horizontal
        } else if data % 4 == 2 {
            Mirroring::OneScreenLower
        } else {
            Mirroring::OneScreenUpper
        }
    } else if data % 2 == 1 {
        Mirroring::Horizontal
    } else {
        Mirroring::Vertical
    }
}

/// At least one bank of `size` bytes in `len` bytes.
pub open spec fn banks_of(len: nat, size: nat) -> nat {
    if len / size > 1 { len / size } else { 1 }
}

/// The pattern memory of the board: CHR-RAM when it has some, else CHR-ROM.
pub open spec fn vrc24_chr(c: &Cartridge) -> Seq<u8> {
    if c.chr_ram@.len() > 0 { c.chr_ram@ } else { c.chr_rom@ }
}

/// The 1 KiB bank a CHR register selects (mapper 22 ignores its low bit).
pub open spec fn vrc24_effective_chr_bank(mapper: u8, raw: u16, banks: nat) -> nat {
    let b = if mapper == 22 { raw / 2 } else { raw };
    (b as nat) % banks
}

/// A CHR bank register after a nibble write: the low nibble, or the high
/// bits (five on the VRC4, four on the VRC2), then reduced modulo the bank
/// count.
pub open spec fn vrc24_chr_nibble(old_bank: u16, data: u8, high: bool, vrc4: bool, banks: nat) -> u16 {
    let mask: u16 = if vrc4 { 0x1F } else { 0x0F };
    let v: u16 = if high {
        (old_bank & 0x000F) | ((((data as u16) & mask) << 4u16) as u16)
    } else {
        (old_bank & 0xFFF0) | ((data as u16) & 0x0F)
    };
    ((v as nat) % banks) as u16
}

/// `n` is the chip `o` after a register write of `data` at `addr`, register
/// `reg` of its block, with `prg_banks` 8 KiB PRG banks and `chr_banks`
/// 1 KiB CHR banks.
pub open spec fn vrc24_chip_written(
    o: Vrc2Vrc4,
    n: Vrc2Vrc4,
    mapper: u8,
    addr: u16,
    data: u8,
    reg: u8,
    prg_banks: nat,
    chr_banks: nat,
) -> bool {
    let block = addr / 0x1000;
    let vrc4 = o.vrc4_mode || vrc24_alt_decode(mapper, addr);
    let irq = block == 15 && mapper != 22;
    let chr_index = ((block - 11) * 2 + reg / 2) as int;
    &&& n.vrc4_mode == (vrc4 || (block == 9 && mapper != 22 && (reg == 2 || reg == 3)) || irq)
    &&& n.prg_banks@ == if block == 8 {
        o.prg_banks@.update(0, (((data & 0x1F) as nat) % prg_banks) as u8)
    } else if block == 10 {
        o.prg_banks@.update(1, (((data & 0x1F) as nat) % prg_banks) as u8)
    } else {
        o.prg_banks@
    }
    &&& n.wram_enabled == if block == 9 && mapper != 22 && reg == 2 { data & 0x01 != 0 } else { o.wram_enabled }
    &&& n.prg_swap_mode == if block == 9 && mapper != 22 && reg == 2 { data & 0x02 != 0 } else { o.prg_swap_mode }
    &&& n.chr_banks@ == if 11 <= block <= 14 {
        o.chr_banks@.update(chr_index, vrc24_chr_nibble(o.chr_banks@[chr_index], data, reg % 2 == 1, vrc4, chr_banks))
    } else {
        o.chr_banks@
    }
    &&& n.latch == o.latch
    &&& n.irq_latch == if irq && reg == 0 {
        (o.irq_latch & 0xF0) | (data & 0x0F)
    } else if irq && reg == 1 {
        (o.irq_latch & 0x0F) | ((data & 0x0F) << 4u8)
    } else {
        o.irq_latch
    }
    &&& n.irq_enable_after_ack == if irq && reg == 2 { data & 0x01 != 0 } else { o.irq_enable_after_ack }
    &&& n.irq_enabled == if irq && reg == 2 {
        data & 0x02 != 0
    } else if irq && reg == 3 {
        o.irq_enable_after_ack
    } else {
        o.irq_enabled
    }
    &&& n.irq_cycle_mode == if irq && reg == 2 { data & 0x04 != 0 } else { o.irq_cycle_mode }
    &&& n.irq_prescaler == if irq && reg == 2 { 341 } else { o.irq_prescaler }
    &&& n.irq_pending == if irq && (reg == 2 || reg == 3) { false } else { o.irq_pending }
    &&& n.irq_counter == if irq && reg == 2 && data & 0x02 != 0 { o.irq_latch } else { o.irq_counter }
}

/// The PRG-ROM position a read at `addr` ($8000-$FFFF) reaches: PRG bank 0
/// at $8000 (or the second-to-last bank in swap mode), bank 1 at $A000, the
/// second-to-last bank at $C000 (or bank 0 in swap mode), the last at $E000.
pub open spec fn vrc24_prg_index(v: Vrc2Vrc4, addr: u16, len: nat) -> int {
    let banks = banks_of(len, 0x2000);
    let second_last: nat = if banks >= 2 { (banks - 2) as nat } else { 0 };
    let last: nat = (banks - 1) as nat;
    let bank: nat = if addr < 0xA000 {
        if v.prg_swap_mode { second_last } else { v.prg_banks@[0] as nat }
    } else if addr < 0xC000 {
        v.prg_banks@[1] as nat
    } else if addr < 0xE000 {
        if v.prg_swap_mode { v.prg_banks@[0] as nat } else { second_last }
    } else {
        last
    };
    (((bank % banks) * 0x2000 + (addr % 0x2000)) as int) % (len as int)
}

proof fn lemma_mod_bound(v: nat, m: nat)
    requires
        m > 0,
    ensures
        v % m <= v,
        v % m < m,
{
    assert(v % m <= v) by (nonlinear_arith)
        requires
            m > 0,
    ;
}

impl Cartridge {
    /// A CPU read of PRG-ROM on a VRC2/VRC4 board; 0 without the chip, without
    /// ROM, or outside $8000-$FFFF.
    pub fn read_prg_mapper23(&self, addr: u16) -> (r: u8)
        ensures
            r == read_prg_mapper23_value(*self, addr),
    {
        match &self.vrc2_vrc4 {
            None => 0,
            Some(v) => {
                let len = self.prg_rom.len();
                if len == 0 || addr < 0x8000 {
                    return 0;
                }
                let banks = if len / 0x2000 > 1 { len / 0x2000 } else { 1 };
                let second_last = if banks >= 2 { banks - 2 } else { 0 };
                let last = banks - 1;
                let raw = if addr < 0xA000 {
                    if v.prg_swap_mode { second_last } else { v.prg_banks[0] as usize }
                } else if addr < 0xC000 {
                    v.prg_banks[1] as usize
                } else if addr < 0xE000 {
                    if v.prg_swap_mode { v.prg_banks[0] as usize } else { second_last }
                } else {
                    last
                };
                let bank = raw % banks;
                proof {
                    lemma_mod_bound(raw as nat, banks as nat);
                    assert(bank * 0x2000 <= banks * 0x2000) by (nonlinear_arith)
                        requires
                            bank < banks,
                    ;
                    assert(banks * 0x2000 <= len + 0x2000) by (nonlinear_arith)
                        requires
                            banks == (if len / 0x2000 > 1 { len / 0x2000 } else { 1 }),
                    ;
                    lemma_u16_masks(addr);
                }
                let rom_addr = bank * 0x2000 + ((addr & 0x1FFF) as usize);
                self.prg_rom[rom_addr % len]
            },
        }
    }

    /// The register a write at `addr` selects on this board.
    fn vrc24_decode_index(&self, addr: u16) -> (r: Option<u8>)
        ensures
            r == vrc24_register(self.mapper, addr),
    {
        proof {
            lemma_u16_masks(addr);
        }
        if self.mapper == 21 {
            let m = addr & 0x00C6;
            if m == 0 {
                Some(0)
            } else if m == 0x02 || m == 0x40 {
                Some(1)
            } else if m == 0x04 || m == 0x80 {
                Some(2)
            } else if m == 0x06 || m == 0xC0 {
                Some(3)
            } else {
                None
            }
        } else {
            let low = addr & 0x000F;
            if self.mapper == 22 {
                if low == 0 {
                    Some(0)
                } else if low == 2 || low == 8 {
                    Some(1)
                } else if low == 1 || low == 4 {
                    Some(2)
                } else if low == 3 || low == 0xC {
                    Some(3)
                } else {
                    None
                }
            } else if self.mapper == 23 || self.mapper == 25 {
                if low == 0 {
                    Some(0)
                } else if (self.mapper == 23 && (low == 1 || low == 4)) || (self.mapper == 25 && (low == 2 || low == 8)) {
                    Some(1)
                } else if (self.mapper == 23 && (low == 2 || low == 8)) || (self.mapper == 25 && (low == 1 || low == 4)) {
                    Some(2)
                } else if low == 3 || low == 0xC {
                    Some(3)
                } else {
                    None
                }
            } else {
                None
            }
        }
    }

    /// The chip after a register write, and whether it selected the
    /// mirroring (and which) or the board's first CHR bank.
    fn vrc24_write_chip(
        v: &mut Vrc2Vrc4,
        mapper: u8,
        addr: u16,
        data: u8,
        reg: u8,
        prg_banks: usize,
        chr_banks: usize,
    )
        requires
            prg_banks >= 1,
            1 <= chr_banks < 0x10000,
            reg < 4,
        ensures
            vrc24_chip_written(*old(v), *final(v), mapper, addr, data, reg, prg_banks as nat, chr_banks as nat),
    {
        let low = addr & 0x000F;
        let block = addr >> 12;
        proof {
            lemma_u16_masks(addr);
            lemma_u8_masks(data);
        }
        if mapper != 22 && (low == 4 || low == 8 || low == 0xC) {
            v.vrc4_mode = true;
        }
        if block == 8 {
            let b = ((data & 0x1F) as usize) % prg_banks;
            proof {
                lemma_mod_bound((data & 0x1F) as nat, prg_banks as nat);
            }
            v.prg_banks[0] = b as u8;
        } else if block == 9 {
            if mapper != 22 {
                if reg == 2 {
                    v.vrc4_mode = true;
                    v.wram_enabled = data & 0x01 != 0;
                    v.prg_swap_mode = data & 0x02 != 0;
                } else if reg == 3 {
                    v.vrc4_mode = true;
                }
            }
        } else if block == 10 {
            let b = ((data & 0x1F) as usize) % prg_banks;
            proof {
                lemma_mod_bound((data & 0x1F) as nat, prg_banks as nat);
            }
            v.prg_banks[1] = b as u8;
        } else if 11 <= block && block <= 14 {
            let index = ((block - 11) * 2 + (reg / 2) as u16) as usize;
            let old_bank = v.chr_banks[index];
            let vrc4 = v.vrc4_mode;
            let mask: u16 = if vrc4 { 0x1F } else { 0x0F };
            let raw: u16 = if reg & 1 != 0 {
                (old_bank & 0x000F) | (((data as u16) & mask) << 4)
            } else {
                (old_bank & 0xFFF0) | ((data as u16) & 0x0F)
            };
            proof {
                lemma_mod_bound(raw as nat, chr_banks as nat);
                lemma_u8_masks(reg);
            }
            v.chr_banks[index] = raw % (chr_banks as u16);
        } else if block == 15 {
            if mapper != 22 {
                v.vrc4_mode = true;
                if reg == 0 {
                    v.irq_latch = (v.irq_latch & 0xF0) | (data & 0x0F);
                } else if reg == 1 {
                    v.irq_latch = (v.irq_latch & 0x0F) | ((data & 0x0F) << 4);
                } else if reg == 2 {
                    v.irq_enable_after_ack = data & 0x01 != 0;
                    v.irq_enabled = data & 0x02 != 0;
                    v.irq_cycle_mode = data & 0x04 != 0;
                    v.irq_pending = false;
                    v.irq_prescaler = 341;
                    if v.irq_enabled {
                        v.irq_counter = v.irq_latch;
                    }
                } else {
                    v.irq_pending = false;
                    v.irq_enabled = v.irq_enable_after_ack;
                }
            }
        }
    }

    /// A CPU write to a VRC2/VRC4 board ($8000-$FFFF): the addressed
    /// register of the chip takes it; a mirroring write sets the board's
    /// nametable arrangement, PRG bank 0 the board's PRG bank, and CHR bank
    /// 0 the board's CHR bank. Nothing happens without the chip or when the
    /// address selects no register.
    #[verifier::rlimit(80)]
    pub fn write_prg_mapper23(&mut self, addr: u16, data: u8)
        requires
            write_prg_mapper23_pre(*old(self), addr, data),
        ensures
            write_prg_mapper23_post(*old(self), *final(self), addr, data),
    {
        let reg = match self.vrc24_decode_index(addr) {
            Some(r) => r,
            None => {
                return;
            },
        };
        let mut v = match self.vrc2_vrc4.take() {
            Some(v) => v,
            None => {
                return;
            },
        };
        let plen = self.prg_rom.len();
        let clen = if self.chr_ram.len() > 0 { self.chr_ram.len() } else { self.chr_rom.len() };
        let prg_banks = if plen / 0x2000 > 1 { plen / 0x2000 } else { 1 };
        let chr_banks = if clen / 0x400 > 1 { clen / 0x400 } else { 1 };
        let block = addr >> 12;
        proof {
            lemma_u16_masks(addr);
        }
        let mapper = self.mapper;
        let ghost ov = v;
        Self::vrc24_write_chip(&mut v, mapper, addr, data, reg, prg_banks, chr_banks);
        if block == 8 {
            self.prg_bank = v.prg_banks[0];
        } else if block == 9 && (mapper == 22 || reg == 0) {
            let vrc4 = v.vrc4_mode;
            proof {
                lemma_u8_masks(data);
            }
            self.mirroring = if vrc4 {
                let m = data & 0x03;
                if m == 0 {
                    Mirroring::Vertical
                } else if m == 1 {
                    Mirroring::Horizontal
                } else if m == 2 {
                    Mirroring::OneScreenLower
                } else {
                    Mirroring::OneScreenUpper
                }
            } else if data & 0x01 != 0 {
                Mirroring::Horizontal
            } else {
                Mirroring::Vertical
            };
        } else if block == 11 && reg / 2 == 0 {
            let raw = v.chr_banks[0];
            let b = if mapper == 22 { raw >> 1 } else { raw };
            proof {
                lemma_u16_masks(raw);
                lemma_mod_bound(b as nat, chr_banks as nat);
            }
            self.chr_bank = ((b as usize) % chr_banks) as u8;
        }
        self.vrc2_vrc4 = Some(v);
    }

    /// A PPU read of pattern memory: eight 1 KiB banks of CHR-RAM (when the
    /// board has it) or CHR-ROM, positions wrapping around the memory.
    pub fn read_chr_mapper23(&self, addr: u16) -> (r: u8)
        ensures
            r == read_chr_mapper23_value(*self, addr),
    {
        match &self.vrc2_vrc4 {
            None => 0,
            Some(v) => {
                let use_ram = self.chr_ram.len() > 0;
                let len = if use_ram { self.chr_ram.len() } else { self.chr_rom.len() };
                if len == 0 {
                    return 0;
                }
                let banks = if len / 0x400 > 1 { len / 0x400 } else { 1 };
                let slot = ((addr >> 10) & 0x07) as usize;
                proof {
                    lemma_u16_masks(addr);
                }
                let raw = v.chr_banks[slot];
                let b = if self.mapper == 22 { raw >> 1 } else { raw };
                proof {
                    lemma_u16_masks(raw);
                    lemma_mod_bound(b as nat, banks as nat);
                    assert(banks * 0x400 <= len + 0x400) by (nonlinear_arith)
                        requires
                            banks == (if len / 0x400 > 1 { len / 0x400 } else { 1 }),
                    ;
                    assert(((b as usize) % banks) * 0x400 <= banks * 0x400) by (nonlinear_arith)
                        requires
                            (b as usize) % banks < banks,
                    ;
                }
                let chr_addr = ((b as usize) % banks) * 0x400 + ((addr & 0x03FF) as usize);
                if use_ram {
                    self.chr_ram[chr_addr % len]
                } else {
                    self.chr_rom[chr_addr % len]
                }
            },
        }
    }

    /// A PPU write of pattern memory through the same banks as
    /// [`Cartridge::read_chr_mapper23`]: into CHR-RAM when the board has
    /// some, else into the CHR-ROM image; nothing without memory or the chip.
    #[verifier::rlimit(40)]
    pub fn write_chr_mapper23(&mut self, addr: u16, data: u8)
        ensures
            write_chr_mapper23_post(*old(self), *final(self), addr, data),
    {
        let raw = match &self.vrc2_vrc4 {
            Some(v) => {
                let slot = ((addr >> 10) & 0x07) as usize;
                proof {
                    lemma_u16_masks(addr);
                }
                v.chr_banks[slot]
            },
            None => {
                return;
            },
        };
        let use_ram = self.chr_ram.len() > 0;
        let len = if use_ram { self.chr_ram.len() } else { self.chr_rom.len() };
        if len == 0 {
            return;
        }
        let banks = if len / 0x400 > 1 { len / 0x400 } else { 1 };
        let b = if self.mapper == 22 { raw >> 1 } else { raw };
        proof {
            lemma_u16_masks(raw);
            lemma_u16_masks(addr);
            lemma_mod_bound(b as nat, banks as nat);
            assert(banks * 0x400 <= len + 0x400) by (nonlinear_arith)
                requires
                    banks == (if len / 0x400 > 1 { len / 0x400 } else { 1 }),
            ;
            assert(((b as usize) % banks) * 0x400 <= banks * 0x400) by (nonlinear_arith)
                requires
                    (b as usize) % banks < banks,
            ;
        }
        let chr_addr = ((b as usize) % banks) * 0x400 + ((addr & 0x03FF) as usize);
        if use_ram {
            self.chr_ram.set(chr_addr % len, data);
        } else {
            self.chr_rom.set(chr_addr % len, data);
        }
    }

    /// Runs the chip's IRQ counter for `cycles` CPU cycles; nothing without
    /// the chip.
    pub fn clock_irq_mapper23(&mut self, cycles: u32)
        requires
            old(self).vrc2_vrc4 matches Some(v) ==> v.irq_prescaler >= i16::MIN + 3,
        ensures
            match old(self).vrc2_vrc4 {
                Some(o) => {
                    &&& final(self).vrc2_vrc4 matches Some(n)
                    &&& n.same_except_irq_state(&o)
                    &&& n.irq() == if o.irq_enabled { vrc_irq_cycles(o.irq(), cycles as nat) } else { o.irq() }
                    &&& *final(self) == (Cartridge { vrc2_vrc4: final(self).vrc2_vrc4, ..*old(self) })
                },
                None => *final(self) == *old(self),
            },
    {
        if let Some(mut v) = self.vrc2_vrc4.take() {
            v.clock_irq_mut(cycles);
            self.vrc2_vrc4 = Some(v);
        }
    }

    /// A CPU read at $6000-$7FFF: PRG-RAM on a battery-backed mapper 25
    /// board or while enabled; otherwise the open bus (the address's high
    /// byte), with the 1-bit latch in bit 0 at $6000-$6FFF.
    pub fn read_prg_ram_mapper23(&self, addr: u16) -> (r: u8)
        requires
            read_prg_ram_mapper23_pre(*self, addr),
        ensures
            r == read_prg_ram_mapper23_value(*self, addr),
    {
        match &self.vrc2_vrc4 {
            None => 0,
            Some(v) => {
                let len = self.prg_ram.len();
                if (self.mapper == 25 && self.has_battery || v.wram_enabled) && len > 0 {
                    let offset = ((addr as usize) - 0x6000) % len;
                    return self.prg_ram[offset];
                }
                let open_bus = (addr >> 8) as u8;
                proof {
                    lemma_u16_masks(addr);
                }
                if addr <= 0x6FFF {
                    open_bus | (v.latch & 0x01)
                } else {
                    open_bus
                }
            },
        }
    }

    /// A CPU write at $6000-$7FFF: into PRG-RAM as for reads; otherwise
    /// $6000-$6FFF sets the 1-bit latch.
    #[verifier::rlimit(60)]
    pub fn write_prg_ram_mapper23(&mut self, addr: u16, data: u8)
        requires
            write_prg_ram_mapper23_pre(*old(self), addr, data),
        ensures
            write_prg_ram_mapper23_post(*old(self), *final(self), addr, data),
    {
        let use_ram = match &self.vrc2_vrc4 {
            None => {
                return;
            },
            Some(v) => (self.mapper == 25 && self.has_battery || v.wram_enabled) && self.prg_ram.len() > 0,
        };
        if use_ram {
            let len = self.prg_ram.len();
            let offset = ((addr as usize) - 0x6000) % len;
            self.prg_ram.set(offset, data);
        } else if addr <= 0x6FFF {
            match self.vrc2_vrc4.take() {
                None => {},
                Some(v) => {
                    self.vrc2_vrc4 = Some(Vrc2Vrc4 { latch: data & 0x01, ..v });
                },
            }
        }
    }
}

/// The byte [`Cartridge::read_chr_mapper23`] returns.
pub open spec fn read_chr_mapper23_value(cart: Cartridge, addr: u16) -> u8 {
    match cart.vrc2_vrc4 {
            Some(v) => {
                let mem = vrc24_chr(&cart);
                if mem.len() == 0 {
                    0
                } else {
                    let slot = ((addr / 0x400) % 8) as int;
                    let bank = vrc24_effective_chr_bank(cart.mapper, v.chr_banks@[slot], banks_of(mem.len(), 0x400));
                    mem[((bank * 0x400 + addr % 0x400) as int) % (mem.len() as int)]
                }
            },
            None => 0,
        }
}

/// The byte [`Cartridge::read_prg_mapper23`] returns.
pub open spec fn read_prg_mapper23_value(cart: Cartridge, addr: u16) -> u8 {
    match cart.vrc2_vrc4 {
            Some(v) => if cart.prg_rom@.len() == 0 || addr < 0x8000 {
                0
            } else {
                cart.prg_rom@[vrc24_prg_index(v, addr, cart.prg_rom@.len())]
            },
            None => 0,
        }
}

/// The byte [`Cartridge::read_prg_ram_mapper23`] returns.
pub open spec fn read_prg_ram_mapper23_value(cart: Cartridge, addr: u16) -> u8 {
    match cart.vrc2_vrc4 {
            Some(v) => if (cart.mapper == 25 && cart.has_battery || v.wram_enabled) && cart.prg_ram@.len() > 0 {
                cart.prg_ram@[(addr - 0x6000) % (cart.prg_ram@.len() as int)]
            } else if addr <= 0x6FFF {
                ((addr / 256) as u8) | (v.latch & 0x01)
            } else {
                (addr / 256) as u8
            },
            None => 0,
        }
}

/// What [`Cartridge::read_prg_ram_mapper23`] needs.
pub open spec fn read_prg_ram_mapper23_pre(cart: Cartridge, addr: u16) -> bool {
    addr >= 0x6000
}

/// The state change of [`Cartridge::write_chr_mapper23`].
pub open spec fn write_chr_mapper23_post(c0: Cartridge, c1: Cartridge, addr: u16, data: u8) -> bool {
    match c0.vrc2_vrc4 {
            Some(v) => {
                let mem = vrc24_chr(&c0);
                let slot = ((addr / 0x400) % 8) as int;
                let bank = vrc24_effective_chr_bank(c0.mapper, v.chr_banks@[slot], banks_of(mem.len(), 0x400));
                let i = ((bank * 0x400 + addr % 0x400) as int) % (mem.len() as int);
                if mem.len() == 0 {
                    c1 == c0
                } else if c0.chr_ram@.len() > 0 {
                    &&& c1.chr_ram@ == c0.chr_ram@.update(i, data)
                    &&& c1 == (Cartridge { chr_ram: c1.chr_ram, ..c0 })
                } else {
                    &&& c1.chr_rom@ == c0.chr_rom@.update(i, data)
                    &&& c1 == (Cartridge { chr_rom: c1.chr_rom, ..c0 })
                }
            },
            None => c1 == c0,
        }
}

/// The state change of [`Cartridge::write_prg_mapper23`].
pub open spec fn write_prg_mapper23_post(c0: Cartridge, c1: Cartridge, addr: u16, data: u8) -> bool {
    ({
            let o = c0;
            match (o.vrc2_vrc4, vrc24_register(o.mapper, addr)) {
                (Some(ov), Some(reg)) => {
                    let block = addr / 0x1000;
                    let prg_banks = banks_of(o.prg_rom@.len(), 0x2000);
                    let chr_banks = banks_of(vrc24_chr(&o).len(), 0x400);
                    let vrc4 = ov.vrc4_mode || vrc24_alt_decode(o.mapper, addr);
                    &&& c1.vrc2_vrc4 matches Some(nv)
                    &&& vrc24_chip_written(ov, nv, o.mapper, addr, data, reg, prg_banks, chr_banks)
                    &&& c1 == (Cartridge {
                        prg_bank: if block == 8 { nv.prg_banks@[0] } else { o.prg_bank },
                        chr_bank: if block == 11 && reg / 2 == 0 {
                            vrc24_effective_chr_bank(o.mapper, nv.chr_banks@[0], chr_banks) as u8
                        } else {
                            o.chr_bank
                        },
                        mirroring: if block == 9 && (o.mapper == 22 || reg == 0) {
                            vrc24_mirroring(vrc4, data)
                        } else {
                            o.mirroring
                        },
                        vrc2_vrc4: c1.vrc2_vrc4,
                        ..o
                    })
                },
                _ => c1 == o,
            }
        })
}

/// What [`Cartridge::write_prg_mapper23`] needs.
pub open spec fn write_prg_mapper23_pre(c0: Cartridge, addr: u16, data: u8) -> bool {
    vrc24_chr(&c0).len() / 0x400 < 0x10000
}

/// The state change of [`Cartridge::write_prg_ram_mapper23`].
pub open spec fn write_prg_ram_mapper23_post(c0: Cartridge, c1: Cartridge, addr: u16, data: u8) -> bool {
    ({
            let o = c0;
            match o.vrc2_vrc4 {
                Some(v) => if (o.mapper == 25 && o.has_battery || v.wram_enabled) && o.prg_ram@.len() > 0 {
                    &&& c1.prg_ram@ == o.prg_ram@.update((addr - 0x6000) % (o.prg_ram@.len() as int), data)
                    &&& c1 == (Cartridge { prg_ram: c1.prg_ram, ..o })
                } else if addr <= 0x6FFF {
                    c1 == (Cartridge { vrc2_vrc4: Some(Vrc2Vrc4 { latch: data & 0x01, ..v }), ..o })
                } else {
                    c1 == o
                },
                None => c1 == o,
            }
        })
}

/// What [`Cartridge::write_prg_ram_mapper23`] needs.
pub open spec fn write_prg_ram_mapper23_pre(c0: Cartridge, addr: u16, data: u8) -> bool {
    addr >= 0x6000
}

} // verus!

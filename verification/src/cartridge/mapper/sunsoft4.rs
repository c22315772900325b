//! Sunsoft-4 (mapper 68): 2 KiB CHR banks, CHR-ROM nametables, 16 KiB PRG.

use vstd::prelude::*;
use crate::cartridge::Mirroring;
use crate::cartridge::state::Sunsoft4State;
use crate::cartridge::load::Cartridge;
use crate::bits::{lemma_u16_masks, lemma_u8_masks, lemma_usize_masks};

verus! {

#[derive(Debug, Clone, Copy)]
pub struct Sunsoft4 {
    pub chr_banks: [u8; 4],
    pub nametable_banks: [u8; 2],
    pub control: u8,
    pub prg_bank: u8,
    pub prg_ram_enabled: bool,
    pub nametable_chr_rom: bool,
}

/// The mirroring selected by the low two bits of the control register.
pub open spec fn sunsoft4_mirroring(control: u8) -> Mirroring {
    let m = control % 4;
    if m == 0 {
        Mirroring::Vertical
    } else if m == 1 {
        Mirroring::Horizontal
    } else if m == 2 {
        Mirroring::OneScreenLower
    } else {
        Mirroring::OneScreenUpper
    }
}

/// The save-state record of the chip (it omits the CHR-ROM nametable flag,
/// which follows from the control register).
pub open spec fn sunsoft4_record(s: Sunsoft4) -> Sunsoft4State {
    Sunsoft4State {
        chr_banks: s.chr_banks,
        nametable_banks: s.nametable_banks,
        control: s.control,
        prg_bank: s.prg_bank,
        prg_ram_enabled: s.prg_ram_enabled,
    }
}

/// The chip's registers agree with each other: the CHR-ROM nametable flag is
/// bit 4 of the control register, as every control write leaves it.
pub open spec fn sunsoft4_consistent(s: Sunsoft4) -> bool {
    s.nametable_chr_rom == (s.control & 0x10 != 0)
}

/// Law of the save states: two consistent chips with the same record are
/// the same, so restoring a snapshot of a consistent chip gives it back.
pub proof fn lemma_sunsoft4_record_determines(a: Sunsoft4, b: Sunsoft4)
    requires
        sunsoft4_consistent(a),
        sunsoft4_consistent(b),
        sunsoft4_record(a) == sunsoft4_record(b),
    ensures
        a == b,
{
}

/// The power-on state of the chip.
pub open spec fn sunsoft4_power_on(s: Sunsoft4) -> bool {
    &&& s.chr_banks@ =~= seq![0u8, 0, 0, 0]
    &&& s.nametable_banks@ =~= seq![0x80u8, 0x80]
    &&& s.control == 0
    &&& s.prg_bank == 0
    &&& !s.prg_ram_enabled
    &&& !s.nametable_chr_rom
}

impl Sunsoft4 {
    pub fn new() -> (s: Sunsoft4)
        ensures
            sunsoft4_power_on(s),
    {
        Sunsoft4 {
            chr_banks: [0; 4],
            nametable_banks: [0x80; 2],
            control: 0,
            prg_bank: 0,
            prg_ram_enabled: false,
            nametable_chr_rom: false,
        }
    }

    pub fn decode_mirroring(control: u8) -> (m: Mirroring)
        ensures
            m == sunsoft4_mirroring(control),
    {
        let low = control & 0x03;
        proof {
            assert(control & 0x03 == control % 4) by (bit_vector);
        }
        match low {
            0 => Mirroring::Vertical,
            1 => Mirroring::Horizontal,
            2 => Mirroring::OneScreenLower,
            _ => Mirroring::OneScreenUpper,
        }
    }
    /// The save-state record of the chip.
    pub fn snapshot_state(&self) -> (st: Sunsoft4State)
        ensures
            st == sunsoft4_record(*self),
    {
        Sunsoft4State {
            chr_banks: self.chr_banks,
            nametable_banks: self.nametable_banks,
            control: self.control,
            prg_bank: self.prg_bank,
            prg_ram_enabled: self.prg_ram_enabled,
        }
    }

    /// Loads the registers from a save-state record; whether nametables
    /// come from CHR-ROM is recomputed from bit 4 of the control register.
    pub fn restore_state(&mut self, st: &Sunsoft4State)
        ensures
            sunsoft4_record(*final(self)) == *st,
            final(self).nametable_chr_rom == (st.control & 0x10 != 0),
    {
        self.chr_banks = st.chr_banks;
        self.nametable_banks = st.nametable_banks;
        self.control = st.control;
        self.prg_bank = st.prg_bank;
        self.prg_ram_enabled = st.prg_ram_enabled;
        self.nametable_chr_rom = st.control & 0x10 != 0;
    }

}

/// `n` is the chip `o` after a CPU write of `data` at `addr`, the register
/// selected by the address's top nibble: $8-$B the four 2 KiB CHR banks,
/// $C-$D the two CHR-ROM nametable banks (bit 7 forced), $E the control
/// register, $F the PRG bank and the PRG-RAM enable.
pub open spec fn sunsoft4_written(o: Sunsoft4, n: Sunsoft4, addr: u16, data: u8) -> bool {
    let r = addr / 0x1000;
    &&& n.chr_banks@ == if 8 <= r <= 11 { o.chr_banks@.update(r - 8, data) } else { o.chr_banks@ }
    &&& n.nametable_banks@ == if r == 12 || r == 13 {
        o.nametable_banks@.update(r - 12, 0x80 | (data & 0x7F))
    } else {
        o.nametable_banks@
    }
    &&& n.control == if r == 14 { data } else { o.control }
    &&& n.nametable_chr_rom == if r == 14 { data & 0x10 != 0 } else { o.nametable_chr_rom }
    &&& n.prg_bank == if r == 15 { data & 0x0F } else { o.prg_bank }
    &&& n.prg_ram_enabled == if r == 15 { data & 0x10 != 0 } else { o.prg_ram_enabled }
}

/// The CHR-ROM position of byte `offset` of 2 KiB bank `bank`: the bank is
/// taken modulo the bank count (at least one), the position modulo the ROM.
pub open spec fn chr_2k_index(bank: u8, offset: nat, chr_len: nat) -> int {
    let banks: nat = if chr_len / 0x800 > 1 { chr_len / 0x800 } else { 1 };
    (((bank as nat) % banks) * 0x800 + offset) as int % (chr_len as int)
}

/// The PRG-ROM position a read at `addr` reaches: the 16 KiB bank of the
/// PRG register at $8000, the last 16 KiB at $C000 (positions modulo the
/// ROM).
pub open spec fn sunsoft4_prg_index(s: Sunsoft4, addr: u16, prg_len: nat) -> int {
    if addr < 0xC000 {
        let banks: nat = if prg_len / 0x4000 > 1 { prg_len / 0x4000 } else { 1 };
        let local: int = if addr >= 0x8000 { addr - 0x8000 } else { 0 };
        (((s.prg_bank as nat) % banks) * 0x4000 + local) % (prg_len as int)
    } else {
        let base: int = if prg_len >= 0x4000 { prg_len - 0x4000 } else { 0 };
        (base + (addr - 0xC000)) % (prg_len as int)
    }
}

/// The nametable byte the Sunsoft-4 shows from CHR-ROM: byte `offset` of
/// the 1 KiB bank (modulo the bank count) selected for nametable
/// `physical_nt`; 0 without CHR-ROM or past 1 KiB.
pub open spec fn sunsoft4_nt_chr_byte(c: Cartridge, s: Sunsoft4, physical_nt: usize, offset: usize) -> u8 {
    if c.chr_rom@.len() == 0 || offset >= 1024 {
        0
    } else {
        let banks: nat = if c.chr_rom@.len() / 0x400 > 1 { c.chr_rom@.len() / 0x400 } else { 1 };
        let bank = (s.nametable_banks@[(physical_nt % 2) as int] as nat) % banks;
        c.chr_rom@[((bank * 0x400 + offset) % (c.chr_rom@.len() as int)) as int]
    }
}

impl Cartridge {
    /// Byte `offset` of 2 KiB CHR-ROM bank `bank`; 0 without CHR-ROM.
    fn read_chr_bank_2k(&self, bank: u8, offset: usize) -> (r: u8)
        requires
            offset < 0x800,
        ensures
            r == if self.chr_rom@.len() == 0 { 0 } else { self.chr_rom@[chr_2k_index(bank, offset as nat, self.chr_rom@.len())] },
    {
        let len = self.chr_rom.len();
        if len == 0 {
            return 0;
        }
        let banks = if len / 0x800 > 1 { len / 0x800 } else { 1 };
        let b = (bank as usize) % banks;
        proof {
            assert(b <= bank) by (nonlinear_arith)
                requires
                    b == (bank as usize) % banks,
                    banks > 0,
            ;
        }
        let chr_addr = b * 0x800 + offset;
        self.chr_rom[chr_addr % len]
    }

    /// Writes byte `offset` of 2 KiB CHR bank `bank` (the board writes into
    /// its CHR memory); nothing without CHR memory.
    fn write_chr_bank_2k(&mut self, bank: u8, offset: usize, data: u8)
        requires
            offset < 0x800,
        ensures
            final(self).chr_rom@ == if old(self).chr_rom@.len() == 0 {
                old(self).chr_rom@
            } else {
                old(self).chr_rom@.update(chr_2k_index(bank, offset as nat, old(self).chr_rom@.len()), data)
            },
            *final(self) == (Cartridge { chr_rom: final(self).chr_rom, ..*old(self) }),
    {
        let len = self.chr_rom.len();
        if len == 0 {
            return;
        }
        let banks = if len / 0x800 > 1 { len / 0x800 } else { 1 };
        let b = (bank as usize) % banks;
        proof {
            assert(b <= bank) by (nonlinear_arith)
                requires
                    b == (bank as usize) % banks,
                    banks > 0,
            ;
        }
        let chr_addr = b * 0x800 + offset;
        self.chr_rom.set(chr_addr % len, data);
    }

    /// A nametable fetch from CHR-ROM (nametable mode of the Sunsoft-4):
    /// byte `offset` of the 1 KiB CHR bank selected for nametable
    /// `physical_nt`.
    pub fn read_sunsoft4_nametable_chr(&self, physical_nt: usize, offset: usize) -> (r: u8)
        ensures
            r == match self.sunsoft4 {
                Some(s) => sunsoft4_nt_chr_byte(*self, s, physical_nt, offset),
                None => 0,
            },
    {
        let len = self.chr_rom.len();
        if len == 0 || offset >= 1024 {
            proof {
                if self.sunsoft4.is_some() {
                }
            }
            return 0;
        }
        match self.sunsoft4 {
            None => 0,
            Some(s) => {
                let banks = if len / 0x400 > 1 { len / 0x400 } else { 1 };
                let nt = physical_nt & 1;
                proof {
                    lemma_usize_masks(physical_nt, 0);
                }
                let b = (s.nametable_banks[nt] as usize) % banks;
                proof {
                    let nb = s.nametable_banks@[nt as int];
                    assert(b <= nb) by (nonlinear_arith)
                        requires
                            b == (nb as usize) % banks,
                            banks > 0,
                    ;
                }
                let chr_addr = b * 0x400 + offset;
                self.chr_rom[chr_addr % len]
            },
        }
    }

    /// A CPU read of PRG-ROM at `addr` on a Sunsoft-4 board; 0 without
    /// PRG-ROM or without the chip.
    pub fn read_prg_sunsoft4(&self, addr: u16) -> (r: u8)
        ensures
            r == read_prg_sunsoft4_value(*self, addr),
    {
        let s = match self.sunsoft4 {
            Some(s) => s,
            None => {
                return 0;
            },
        };
        let len = self.prg_rom.len();
        if len == 0 {
            return 0;
        }
        if addr < 0xC000 {
            let banks = if len / 0x4000 > 1 { len / 0x4000 } else { 1 };
            let b = (s.prg_bank as usize) % banks;
            proof {
                assert(b <= s.prg_bank) by (nonlinear_arith)
                    requires
                        b == (s.prg_bank as usize) % banks,
                        banks > 0,
                ;
            }
            let local = if addr >= 0x8000 { (addr - 0x8000) as usize } else { 0 };
            let offset = b * 0x4000 + local;
            self.prg_rom[offset % len]
        } else {
            let base = if len >= 0x4000 { len - 0x4000 } else { 0 };
            let local = (addr - 0xC000) as usize;
            proof {
                assert(base + local <= len + 0x4000);
            }
            let offset = base + local;
            self.prg_rom[offset % len]
        }
    }

    /// A CPU write to the Sunsoft-4 registers ($8000-$FFFF): the chip takes
    /// the write; a control write sets the nametable arrangement, a PRG
    /// write the board's PRG bank, and the board's CHR bank follows CHR
    /// bank 0. Nothing happens without the chip.
    pub fn write_prg_sunsoft4(&mut self, addr: u16, data: u8)
        ensures
            write_prg_sunsoft4_post(*old(self), *final(self), addr, data),
    {
        let mut s = match self.sunsoft4 {
            Some(s) => s,
            None => {
                return;
            },
        };
        let r = addr >> 12;
        proof {
            lemma_u16_masks(addr);
            lemma_u8_masks(data);
        }
        if r == 8 {
            s.chr_banks[0] = data;
        } else if r == 9 {
            s.chr_banks[1] = data;
        } else if r == 10 {
            s.chr_banks[2] = data;
        } else if r == 11 {
            s.chr_banks[3] = data;
        } else if r == 12 {
            s.nametable_banks[0] = 0x80 | (data & 0x7F);
        } else if r == 13 {
            s.nametable_banks[1] = 0x80 | (data & 0x7F);
        } else if r == 14 {
            s.control = data;
            s.nametable_chr_rom = data & 0x10 != 0;
            self.mirroring = Sunsoft4::decode_mirroring(data);
        } else if r == 15 {
            s.prg_bank = data & 0x0F;
            s.prg_ram_enabled = data & 0x10 != 0;
            self.prg_bank = s.prg_bank;
        }
        self.chr_bank = s.chr_banks[0];
        self.sunsoft4 = Some(s);
        proof {
            assert(s.chr_banks@ =~= (if 8 <= r <= 11 { old(self).sunsoft4->0.chr_banks@.update(r - 8, data) } else { old(self).sunsoft4->0.chr_banks@ }));
            assert(s.nametable_banks@ =~= (if r == 12 || r == 13 {
                old(self).sunsoft4->0.nametable_banks@.update(r - 12, 0x80 | (data & 0x7F))
            } else {
                old(self).sunsoft4->0.nametable_banks@
            }));
        }
    }

    /// A PPU read of pattern memory: four 2 KiB CHR-ROM banks.
    pub fn read_chr_sunsoft4(&self, addr: u16) -> (r: u8)
        ensures
            r == read_chr_sunsoft4_value(*self, addr),
    {
        match self.sunsoft4 {
            None => 0,
            Some(s) => {
                let slot = ((addr as usize) >> 11) & 0x03;
                let offset = (addr as usize) & 0x07FF;
                proof {
                    lemma_usize_masks(addr as usize, 0);
                }
                self.read_chr_bank_2k(s.chr_banks[slot], offset)
            },
        }
    }

    /// A PPU write of pattern memory, into the 2 KiB bank of its slot.
    pub fn write_chr_sunsoft4(&mut self, addr: u16, data: u8)
        ensures
            write_chr_sunsoft4_post(*old(self), *final(self), addr, data),
    {
        match self.sunsoft4 {
            None => {},
            Some(s) => {
                let slot = ((addr as usize) >> 11) & 0x03;
                let offset = (addr as usize) & 0x07FF;
                proof {
                    lemma_usize_masks(addr as usize, 0);
                }
                self.write_chr_bank_2k(s.chr_banks[slot], offset, data);
            },
        }
    }

    /// A CPU read of PRG-RAM: 0 unless the chip enables it; positions wrap
    /// around the RAM.
    pub fn read_prg_ram_sunsoft4(&self, addr: u16) -> (r: u8)
        ensures
            r == read_prg_ram_sunsoft4_value(*self, addr),
    {
        match self.sunsoft4 {
            None => 0,
            Some(s) => {
                if !s.prg_ram_enabled || self.prg_ram.len() == 0 {
                    return 0;
                }
                let local = if addr >= 0x6000 { (addr - 0x6000) as usize } else { 0 };
                self.prg_ram[local % self.prg_ram.len()]
            },
        }
    }

    /// A CPU write of PRG-RAM while the chip enables it; marks the save
    /// data as changed.
    pub fn write_prg_ram_sunsoft4(&mut self, addr: u16, data: u8)
        ensures
            write_prg_ram_sunsoft4_post(*old(self), *final(self), addr, data),
    {
        match self.sunsoft4 {
            None => {},
            Some(s) => {
                if !s.prg_ram_enabled || self.prg_ram.len() == 0 {
                    return;
                }
                let local = if addr >= 0x6000 { (addr - 0x6000) as usize } else { 0 };
                let len = self.prg_ram.len();
                self.prg_ram.set(local % len, data);
                self.has_valid_save_data = true;
            },
        }
    }
}

/// The byte [`Cartridge::read_chr_sunsoft4`] returns.
pub open spec fn read_chr_sunsoft4_value(cart: Cartridge, addr: u16) -> u8 {
    match cart.sunsoft4 {
            Some(s) => if cart.chr_rom@.len() == 0 {
                0
            } else {
                cart.chr_rom@[chr_2k_index(s.chr_banks@[((addr / 0x800) % 4) as int], (addr % 0x800) as nat, cart.chr_rom@.len())]
            },
            None => 0,
        }
}

/// The byte [`Cartridge::read_prg_ram_sunsoft4`] returns.
pub open spec fn read_prg_ram_sunsoft4_value(cart: Cartridge, addr: u16) -> u8 {
    match cart.sunsoft4 {
            Some(s) => if !s.prg_ram_enabled || cart.prg_ram@.len() == 0 {
                0
            } else {
                let local: int = if addr >= 0x6000 { addr - 0x6000 } else { 0 };
                cart.prg_ram@[local % (cart.prg_ram@.len() as int)]
            },
            None => 0,
        }
}

/// The byte [`Cartridge::read_prg_sunsoft4`] returns.
pub open spec fn read_prg_sunsoft4_value(cart: Cartridge, addr: u16) -> u8 {
    match cart.sunsoft4 {
            Some(s) => if cart.prg_rom@.len() == 0 {
                0
            } else {
                cart.prg_rom@[sunsoft4_prg_index(s, addr, cart.prg_rom@.len())]
            },
            None => 0,
        }
}

/// The state change of [`Cartridge::write_chr_sunsoft4`].
pub open spec fn write_chr_sunsoft4_post(c0: Cartridge, c1: Cartridge, addr: u16, data: u8) -> bool {
    match c0.sunsoft4 {
            None => c1 == c0,
            Some(s) => {
                &&& c1.chr_rom@ == if c0.chr_rom@.len() == 0 {
                    c0.chr_rom@
                } else {
                    c0.chr_rom@.update(
                        chr_2k_index(s.chr_banks@[((addr / 0x800) % 4) as int], (addr % 0x800) as nat, c0.chr_rom@.len()),
                        data,
                    )
                }
                &&& c1 == (Cartridge { chr_rom: c1.chr_rom, ..c0 })
            },
        }
}

/// The state change of [`Cartridge::write_prg_ram_sunsoft4`].
pub open spec fn write_prg_ram_sunsoft4_post(c0: Cartridge, c1: Cartridge, addr: u16, data: u8) -> bool {
    match c0.sunsoft4 {
            Some(s) => if !s.prg_ram_enabled || c0.prg_ram@.len() == 0 {
                c1 == c0
            } else {
                let local: int = if addr >= 0x6000 { addr - 0x6000 } else { 0 };
                &&& c1.prg_ram@ == c0.prg_ram@.update(local % (c0.prg_ram@.len() as int), data)
                &&& c1 == (Cartridge { prg_ram: c1.prg_ram, has_valid_save_data: true, ..c0 })
            },
            None => c1 == c0,
        }
}

/// The state change of [`Cartridge::write_prg_sunsoft4`].
pub open spec fn write_prg_sunsoft4_post(c0: Cartridge, c1: Cartridge, addr: u16, data: u8) -> bool {
    match c0.sunsoft4 {
            None => c1 == c0,
            Some(o) => c1.sunsoft4 matches Some(n) && sunsoft4_written(o, n, addr, data)
                && c1 == (Cartridge {
                    mirroring: if addr / 0x1000 == 14 { sunsoft4_mirroring(data) } else { c0.mirroring },
                    prg_bank: if addr / 0x1000 == 15 { data & 0x0F } else { c0.prg_bank },
                    chr_bank: n.chr_banks@[0],
                    sunsoft4: Some(n),
                    ..c0
                }),
        }
}

} // verus!

//! What the rest of the console asks of a cartridge: its sizes and header
//! facts, the battery-backed save RAM, the first PRG/CHR bank of whichever
//! chip the board carries, the routing of nametable accesses, and the
//! board's response to the reset button.

use vstd::prelude::*;
use crate::cartridge::Mirroring;
use crate::cartridge::load::Cartridge;
use crate::cartridge::board_latches::BoardLatches;
use crate::cartridge::multicart_latches::MulticartLatches;
use crate::cartridge::mapper::mmc1::Mmc1;
use crate::cartridge::mapper::mmc5::Mmc5;
use crate::cartridge::mapper::sunsoft4::{Sunsoft4, sunsoft4_nt_chr_byte};
use crate::cartridge::mapper::taito::{TaitoTc0190, TaitoX1005, TaitoX1017};
use crate::cartridge::mapper::vrc2_vrc4::Vrc2Vrc4;
use crate::cartridge::mapper::vrc6::Vrc6;
use crate::cartridge::mmc5_board::{mmc5_exram_ok, mmc5_nt_read_value, mmc5_nt_read_chip, mmc5_nt_written, mmc5_low_value, mmc5_after_low_read};
use crate::cartridge::namco163_board::{byte_or_zero, n163_chr_bank_byte, n163_nt_chr_ram, n163_low_value, n163_port_index};
use crate::cartridge::mapper::namco163::n163_after_port;

verus! {

/// The physical nametable (0-3) behind logical nametable `nt`, for boards
/// that route nametables themselves: the four-screen and Namco/MMC5 boards
/// pass all four through; mapper 137 in its fixed mode shows nametable 0
/// then 1; mappers 118 and 207 take bit 7 of a bank register; `None`
/// leaves the choice to the mirroring.
pub open spec fn resolved_nametable(c: Cartridge, nt: usize) -> Option<usize> {
    let q = nt % 4;
    if c.mapper == 19 || c.mapper == 5 || c.mapper == 77 || c.mapper == 99 {
        Some(q)
    } else if c.mapper == 137 {
        if (c.latches.mapper137_registers@[7] >> 1u8) & 0x03 == 0 {
            Some(if q == 0 { 0usize } else { 1usize })
        } else {
            None
        }
    } else if c.mapper == 118 && c.mmc3.is_some() {
        let m = c.mmc3.unwrap();
        let reg: int = if (m.bank_select >> 7u8) & 1 == 0 { if q <= 1 { 0 } else { 1 } } else { 2 + q };
        Some(((m.bank_registers@[reg] >> 7u8) & 1) as usize)
    } else if c.mapper == 207 && c.taito_x1005.is_some() {
        let t = c.taito_x1005.unwrap();
        Some(((t.chr_banks@[if q <= 1 { 0int } else { 1 }] >> 7u8) & 1) as usize)
    } else {
        None
    }
}

/// The nametable byte at `offset` (below 1 KiB) of physical nametable `nt`
/// on a board other than the MMC5's: Namco 163 bank slots, Sunsoft-4
/// CHR-ROM nametables, the CHR-RAM nametables of mappers 77 (first two)
/// and 99, else the console's two nametables.
pub open spec fn nt_read_value(c: Cartridge, nt: usize, offset: usize, internal: [[u8; 1024]; 2]) -> u8 {
    if c.mapper == 19 {
        match c.namco163 {
            Some(n) => n163_chr_bank_byte(c, n.chr_banks@[8 + (nt % 4) as int], offset as int, 8 + (nt % 4) as int),
            None => internal@[(nt % 2) as int]@[offset as int],
        }
    } else if c.sunsoft4 matches Some(s) && s.nametable_chr_rom {
        sunsoft4_nt_chr_byte(c, c.sunsoft4.unwrap(), nt % 2, offset)
    } else if c.mapper == 77 {
        if nt < 2 {
            byte_or_zero(c.chr_ram@, 0x1800 + (nt as int) * 0x400 + offset as int)
        } else {
            internal@[((nt - 2) % 2) as int]@[offset as int]
        }
    } else if c.mapper == 99 {
        byte_or_zero(c.chr_ram@, ((nt % 4) as int) * 0x400 + offset as int)
    } else {
        internal@[(nt % 2) as int]@[offset as int]
    }
}

/// What a CPU read of $4020-$5FFF returns, by board: Namco 163 and MMC5
/// registers, mapper 43's ROM window at $5000, the Sachen register files,
/// the mapper 208 protection registers and mapper 225's latches; 0
/// elsewhere.
pub open spec fn prg_low_value(c: Cartridge, addr: u16) -> u8 {
    if c.mapper == 19 {
        match c.namco163 {
            Some(n) => n163_low_value(c, n, addr),
            None => 0,
        }
    } else if c.mapper == 5 {
        match c.mmc5 {
            Some(m) => mmc5_low_value(m, addr),
            None => 0,
        }
    } else if c.mapper == 43 {
        if c.prg_rom@.len() <= 0x10000 || addr < 0x5000 || addr > 0x5FFF {
            0
        } else {
            c.prg_rom@[(0x10000 + (addr - 0x5000) % 0x800) % (c.prg_rom@.len() as int)]
        }
    } else if c.mapper == 137 {
        if addr & 0x4101 == 0x4101 { c.latches.mapper137_registers@[(c.latches.mapper137_index % 8) as int] & 0x07 } else { 0 }
    } else if c.mapper == 150 {
        if addr & 0xC101 == 0x4101 { c.latches.mapper150_registers@[(c.latches.mapper150_index % 8) as int] & 0x07 } else { 0 }
    } else if c.mapper == 208 {
        if 0x5800 <= addr <= 0x5FFF { c.latches.mapper208_protection_regs@[(addr % 4) as int] } else { 0 }
    } else if c.mapper == 225 {
        if 0x5800 <= addr <= 0x5FFF && c.prg_ram@.len() > 0 { c.prg_ram@[(addr % 4) as int] & 0x0F } else { 0 }
    } else if c.mapper == 243 {
        if addr & 0xC101 == 0x4101 { c.latches.mapper243_registers@[(c.latches.mapper243_index % 8) as int] & 0x07 } else { 0 }
    } else {
        0
    }
}

/// The cartridge after that read: the Namco 163 data port advances, MMC5
/// status reads acknowledge their IRQ; nothing else changes.
pub open spec fn after_prg_low_read(c: Cartridge, addr: u16) -> Cartridge {
    if c.mapper == 19 {
        Cartridge {
            namco163: match c.namco163 {
                Some(n) => Some(if 0x4800 <= addr <= 0x4FFF { n163_after_port(n) } else { n }),
                None => None,
            },
            ..c
        }
    } else if c.mapper == 5 {
        Cartridge {
            mmc5: match c.mmc5 {
                Some(m) => Some(mmc5_after_low_read(m, addr)),
                None => None,
            },
            ..c
        }
    } else {
        c
    }
}

/// The save held in battery-backed RAM: the RAM's contents once a save
/// was loaded or written, on a board with a battery and RAM.
pub open spec fn saved_ram(c: Cartridge) -> Option<Seq<u8>> {
    if c.has_battery && c.prg_ram@.len() > 0 && c.has_valid_save_data { Some(c.prg_ram@) } else { None }
}

/// The cartridge after a save is loaded: accepted only on a battery board
/// and only when its size matches the RAM.
pub open spec fn sram_loaded(c: Cartridge, data: Vec<u8>) -> Cartridge {
    if c.has_battery && data@.len() == c.prg_ram@.len() {
        Cartridge { prg_ram: data, has_valid_save_data: true, ..c }
    } else {
        c
    }
}

/// A save loaded into a battery board's RAM of the same size is the save
/// the board then reports.
pub proof fn lemma_sram_round_trip(c: Cartridge, data: Vec<u8>)
    requires
        c.has_battery,
        data@.len() == c.prg_ram@.len(),
        data@.len() > 0,
    ensures
        saved_ram(sram_loaded(c, data)) == Some(data@),
{
}

/// `mem` with position `i` set to `data` where it exists.
pub open spec fn stored(mem: Seq<u8>, i: int, data: u8) -> Seq<u8> {
    if 0 <= i < mem.len() { mem.update(i, data) } else { mem }
}

/// Which console nametable a write lands in when it goes there: the
/// second pair of mapper 77's four maps onto them, else by the low bit.
pub open spec fn internal_nt(mapper: u8, nt: usize) -> int {
    if mapper == 77 && nt >= 2 { ((nt - 2) % 2) as int } else { (nt % 2) as int }
}

/// The first PRG bank register of the board's chip (MMC1, VRC2/4, VRC6,
/// Sunsoft-4, Taito), else the board latch.
pub open spec fn first_prg_bank(c: Cartridge) -> u8 {
    if c.mmc1.is_some() {
        c.mmc1.unwrap().prg_bank
    } else if c.vrc2_vrc4.is_some() {
        c.vrc2_vrc4.unwrap().prg_banks@[0]
    } else if c.vrc6.is_some() {
        c.vrc6.unwrap().prg_bank_16k
    } else if c.sunsoft4.is_some() {
        c.sunsoft4.unwrap().prg_bank
    } else if c.taito_tc0190.is_some() {
        c.taito_tc0190.unwrap().prg_banks@[0]
    } else if c.taito_x1005.is_some() {
        c.taito_x1005.unwrap().prg_banks@[0]
    } else if c.taito_x1017.is_some() {
        c.taito_x1017.unwrap().prg_banks@[0]
    } else {
        c.prg_bank
    }
}

/// The first CHR bank register of the board's chip, else the board latch.
pub open spec fn first_chr_bank(c: Cartridge) -> u8 {
    if c.mmc1.is_some() {
        c.mmc1.unwrap().chr_bank_0
    } else if c.vrc2_vrc4.is_some() {
        c.vrc2_vrc4.unwrap().chr_banks@[0] as u8
    } else if c.vrc6.is_some() {
        c.vrc6.unwrap().chr_banks@[0]
    } else if c.sunsoft4.is_some() {
        c.sunsoft4.unwrap().chr_banks@[0]
    } else if c.taito_tc0190.is_some() {
        c.taito_tc0190.unwrap().chr_banks@[0]
    } else if c.taito_x1005.is_some() {
        c.taito_x1005.unwrap().chr_banks@[0]
    } else if c.taito_x1017.is_some() {
        c.taito_x1017.unwrap().chr_banks@[0]
    } else {
        c.chr_bank
    }
}

/// `n` is `o` with `bank` written to the board latch and to the first PRG
/// bank register of its chip (masked to the register's width).
pub open spec fn prg_bank_set(o: Cartridge, n: Cartridge, bank: u8) -> bool {
    &&& n.mmc1 == match o.mmc1 {
        Some(m) => Some(Mmc1 { prg_bank: bank & 0x0F, ..m }),
        None => None,
    }
    &&& match o.vrc2_vrc4 {
        Some(v) => n.vrc2_vrc4 matches Some(w) && w.prg_banks@ == v.prg_banks@.update(0, bank & 0x1F)
            && w == (Vrc2Vrc4 { prg_banks: w.prg_banks, ..v }),
        None => n.vrc2_vrc4.is_none(),
    }
    &&& n.vrc6 == match o.vrc6 {
        Some(v) => Some(Vrc6 { prg_bank_16k: bank & 0x0F, ..v }),
        None => None,
    }
    &&& n.sunsoft4 == match o.sunsoft4 {
        Some(s) => Some(Sunsoft4 { prg_bank: bank & 0x0F, ..s }),
        None => None,
    }
    &&& match o.taito_tc0190 {
        Some(t) => n.taito_tc0190 matches Some(u) && u.prg_banks@ == t.prg_banks@.update(0, bank)
            && u == (TaitoTc0190 { prg_banks: u.prg_banks, ..t }),
        None => n.taito_tc0190.is_none(),
    }
    &&& match o.taito_x1005 {
        Some(t) => n.taito_x1005 matches Some(u) && u.prg_banks@ == t.prg_banks@.update(0, bank)
            && u == (TaitoX1005 { prg_banks: u.prg_banks, ..t }),
        None => n.taito_x1005.is_none(),
    }
    &&& match o.taito_x1017 {
        Some(t) => n.taito_x1017 matches Some(u) && u.prg_banks@ == t.prg_banks@.update(0, bank)
            && u == (TaitoX1017 { prg_banks: u.prg_banks, ..t }),
        None => n.taito_x1017.is_none(),
    }
    &&& n == (Cartridge {
        prg_bank: bank,
        mmc1: n.mmc1,
        vrc2_vrc4: n.vrc2_vrc4,
        vrc6: n.vrc6,
        sunsoft4: n.sunsoft4,
        taito_tc0190: n.taito_tc0190,
        taito_x1005: n.taito_x1005,
        taito_x1017: n.taito_x1017,
        ..o
    })
}

/// `n` is `o` with `bank` written to the board latch and to the first CHR
/// bank register of its chip (both MMC1 CHR registers).
pub open spec fn chr_bank_set(o: Cartridge, n: Cartridge, bank: u8) -> bool {
    &&& n.mmc1 == match o.mmc1 {
        Some(m) => Some(Mmc1 { chr_bank_0: bank, chr_bank_1: bank, ..m }),
        None => None,
    }
    &&& match o.vrc2_vrc4 {
        Some(v) => n.vrc2_vrc4 matches Some(w) && w.chr_banks@ == v.chr_banks@.update(0, bank as u16)
            && w == (Vrc2Vrc4 { chr_banks: w.chr_banks, ..v }),
        None => n.vrc2_vrc4.is_none(),
    }
    &&& match o.vrc6 {
        Some(v) => n.vrc6 matches Some(w) && w.chr_banks@ == v.chr_banks@.update(0, bank)
            && w == (Vrc6 { chr_banks: w.chr_banks, ..v }),
        None => n.vrc6.is_none(),
    }
    &&& match o.sunsoft4 {
        Some(s) => n.sunsoft4 matches Some(w) && w.chr_banks@ == s.chr_banks@.update(0, bank)
            && w == (Sunsoft4 { chr_banks: w.chr_banks, ..s }),
        None => n.sunsoft4.is_none(),
    }
    &&& match o.taito_tc0190 {
        Some(t) => n.taito_tc0190 matches Some(u) && u.chr_banks@ == t.chr_banks@.update(0, bank)
            && u == (TaitoTc0190 { chr_banks: u.chr_banks, ..t }),
        None => n.taito_tc0190.is_none(),
    }
    &&& match o.taito_x1005 {
        Some(t) => n.taito_x1005 matches Some(u) && u.chr_banks@ == t.chr_banks@.update(0, bank)
            && u == (TaitoX1005 { chr_banks: u.chr_banks, ..t }),
        None => n.taito_x1005.is_none(),
    }
    &&& match o.taito_x1017 {
        Some(t) => n.taito_x1017 matches Some(u) && u.chr_banks@ == t.chr_banks@.update(0, bank)
            && u == (TaitoX1017 { chr_banks: u.chr_banks, ..t }),
        None => n.taito_x1017.is_none(),
    }
    &&& n == (Cartridge {
        chr_bank: bank,
        mmc1: n.mmc1,
        vrc2_vrc4: n.vrc2_vrc4,
        vrc6: n.vrc6,
        sunsoft4: n.sunsoft4,
        taito_tc0190: n.taito_tc0190,
        taito_x1005: n.taito_x1005,
        taito_x1017: n.taito_x1017,
        ..o
    })
}

/// The cartridge after the reset button: the Caltron board returns to its
/// first game; mapper 185 disables CHR reads again for two reads; mapper
/// 230 switches between its Contra mode (vertical mirroring) and the
/// multicart; the MMC5 leaves the frame.
pub open spec fn after_reset(c: Cartridge) -> Cartridge {
    if c.mapper == 41 {
        Cartridge {
            prg_bank: 0,
            chr_bank: 0,
            latches: BoardLatches { mapper41_inner_bank: 0, ..c.latches },
            mirroring: Mirroring::Vertical,
            ..c
        }
    } else if c.mapper == 185 {
        Cartridge { mapper185_disabled_reads: 2, ..c }
    } else if c.mapper == 230 {
        Cartridge {
            mapper230_contra_mode: !c.mapper230_contra_mode,
            mirroring: if !c.mapper230_contra_mode { Mirroring::Vertical } else { c.mirroring },
            ..c
        }
    } else if c.mapper == 5 {
        Cartridge {
            mmc5: match c.mmc5 {
                Some(m) => Some(Mmc5 { in_frame: false, scanline_counter: 0, ..m }),
                None => None,
            },
            ..c
        }
    } else {
        c
    }
}

/// Mapper 233's nametable arrangement from data bits 6-7.
pub open spec fn mapper233_mirroring(data: u8) -> Mirroring {
    let mode = data >> 6u8;
    if mode == 0 {
        Mirroring::ThreeScreenLower
    } else if mode == 1 {
        Mirroring::Vertical
    } else if mode == 2 {
        Mirroring::Horizontal
    } else {
        Mirroring::OneScreenUpper
    }
}

/// Pressing reset twice leaves mapper 230 in the mode it was in.
pub proof fn lemma_mapper230_reset_twice(c: Cartridge)
    requires
        c.mapper == 230,
    ensures
        after_reset(after_reset(c)).mapper230_contra_mode == c.mapper230_contra_mode,
{
}

/// The VRC2/4 with its first PRG bank register set.
fn first_vrc24_prg(chip: Option<Vrc2Vrc4>, v: u8) -> (r: Option<Vrc2Vrc4>)
    ensures
        match chip {
            Some(c) => r matches Some(n) && n.prg_banks@ == c.prg_banks@.update(0, v) && n == (Vrc2Vrc4 { prg_banks: n.prg_banks, ..c }),
            None => r.is_none(),
        },
{
    match chip {
        Some(mut c) => {
            c.prg_banks[0] = v;
            Some(c)
        },
        None => None,
    }
}

/// The VRC2/4 with its first CHR bank register set.
fn first_vrc24_chr(chip: Option<Vrc2Vrc4>, v: u16) -> (r: Option<Vrc2Vrc4>)
    ensures
        match chip {
            Some(c) => r matches Some(n) && n.chr_banks@ == c.chr_banks@.update(0, v) && n == (Vrc2Vrc4 { chr_banks: n.chr_banks, ..c }),
            None => r.is_none(),
        },
{
    match chip {
        Some(mut c) => {
            c.chr_banks[0] = v;
            Some(c)
        },
        None => None,
    }
}

/// The VRC6 with its first CHR bank register set.
fn first_vrc6_chr(chip: Option<Vrc6>, v: u8) -> (r: Option<Vrc6>)
    ensures
        match chip {
            Some(c) => r matches Some(n) && n.chr_banks@ == c.chr_banks@.update(0, v) && n == (Vrc6 { chr_banks: n.chr_banks, ..c }),
            None => r.is_none(),
        },
{
    match chip {
        Some(mut c) => {
            c.chr_banks[0] = v;
            Some(c)
        },
        None => None,
    }
}

/// The Sunsoft-4 with its first CHR bank register set.
fn first_sunsoft4_chr(chip: Option<Sunsoft4>, v: u8) -> (r: Option<Sunsoft4>)
    ensures
        match chip {
            Some(c) => r matches Some(n) && n.chr_banks@ == c.chr_banks@.update(0, v) && n == (Sunsoft4 { chr_banks: n.chr_banks, ..c }),
            None => r.is_none(),
        },
{
    match chip {
        Some(mut c) => {
            c.chr_banks[0] = v;
            Some(c)
        },
        None => None,
    }
}

/// The TC0190 with its first PRG bank register set.
fn first_tc0190_prg(chip: Option<TaitoTc0190>, v: u8) -> (r: Option<TaitoTc0190>)
    ensures
        match chip {
            Some(c) => r matches Some(n) && n.prg_banks@ == c.prg_banks@.update(0, v) && n == (TaitoTc0190 { prg_banks: n.prg_banks, ..c }),
            None => r.is_none(),
        },
{
    match chip {
        Some(mut c) => {
            c.prg_banks[0] = v;
            Some(c)
        },
        None => None,
    }
}

/// The TC0190 with its first CHR bank register set.
fn first_tc0190_chr(chip: Option<TaitoTc0190>, v: u8) -> (r: Option<TaitoTc0190>)
    ensures
        match chip {
            Some(c) => r matches Some(n) && n.chr_banks@ == c.chr_banks@.update(0, v) && n == (TaitoTc0190 { chr_banks: n.chr_banks, ..c }),
            None => r.is_none(),
        },
{
    match chip {
        Some(mut c) => {
            c.chr_banks[0] = v;
            Some(c)
        },
        None => None,
    }
}

/// The X1-005 with its first PRG bank register set.
fn first_x1005_prg(chip: Option<TaitoX1005>, v: u8) -> (r: Option<TaitoX1005>)
    ensures
        match chip {
            Some(c) => r matches Some(n) && n.prg_banks@ == c.prg_banks@.update(0, v) && n == (TaitoX1005 { prg_banks: n.prg_banks, ..c }),
            None => r.is_none(),
        },
{
    match chip {
        Some(mut c) => {
            c.prg_banks[0] = v;
            Some(c)
        },
        None => None,
    }
}

/// The X1-005 with its first CHR bank register set.
fn first_x1005_chr(chip: Option<TaitoX1005>, v: u8) -> (r: Option<TaitoX1005>)
    ensures
        match chip {
            Some(c) => r matches Some(n) && n.chr_banks@ == c.chr_banks@.update(0, v) && n == (TaitoX1005 { chr_banks: n.chr_banks, ..c }),
            None => r.is_none(),
        },
{
    match chip {
        Some(mut c) => {
            c.chr_banks[0] = v;
            Some(c)
        },
        None => None,
    }
}

/// The X1-017 with its first PRG bank register set.
fn first_x1017_prg(chip: Option<TaitoX1017>, v: u8) -> (r: Option<TaitoX1017>)
    ensures
        match chip {
            Some(c) => r matches Some(n) && n.prg_banks@ == c.prg_banks@.update(0, v) && n == (TaitoX1017 { prg_banks: n.prg_banks, ..c }),
            None => r.is_none(),
        },
{
    match chip {
        Some(mut c) => {
            c.prg_banks[0] = v;
            Some(c)
        },
        None => None,
    }
}

/// The X1-017 with its first CHR bank register set.
fn first_x1017_chr(chip: Option<TaitoX1017>, v: u8) -> (r: Option<TaitoX1017>)
    ensures
        match chip {
            Some(c) => r matches Some(n) && n.chr_banks@ == c.chr_banks@.update(0, v) && n == (TaitoX1017 { chr_banks: n.chr_banks, ..c }),
            None => r.is_none(),
        },
{
    match chip {
        Some(mut c) => {
            c.chr_banks[0] = v;
            Some(c)
        },
        None => None,
    }
}

impl Cartridge {
    /// The current nametable arrangement.
    pub fn mirroring(&self) -> (m: Mirroring)
        ensures
            m == self.mirroring,
    {
        self.mirroring
    }

    /// Bytes of CHR-ROM.
    pub fn chr_rom_size(&self) -> (n: usize)
        ensures
            n == self.chr_rom@.len(),
    {
        self.chr_rom.len()
    }

    /// The iNES mapper number.
    pub fn mapper_number(&self) -> (n: u8)
        ensures
            n == self.mapper,
    {
        self.mapper
    }

    /// Bytes of PRG-ROM.
    pub fn prg_rom_size(&self) -> (n: usize)
        ensures
            n == self.prg_rom@.len(),
    {
        self.prg_rom.len()
    }

    /// Whether the board keeps PRG-RAM under a battery.
    pub fn has_battery_save(&self) -> (b: bool)
        ensures
            b == (self.has_battery && self.prg_ram@.len() > 0),
    {
        self.has_battery && self.prg_ram.len() > 0
    }

    /// The battery-backed RAM, when it holds a save.
    pub fn get_sram_data(&self) -> (r: Option<&[u8]>)
        ensures
            r.is_some() == saved_ram(*self).is_some(),
            r matches Some(s) ==> saved_ram(*self) == Some(s@),
    {
        if self.has_battery && self.prg_ram.len() > 0 && self.has_valid_save_data {
            Some(self.prg_ram.as_slice())
        } else {
            None
        }
    }

    /// Loads a save into battery-backed RAM of the same size; ignored
    /// otherwise.
    pub fn set_sram_data(&mut self, data: Vec<u8>)
        ensures
            *final(self) == sram_loaded(*old(self), data),
    {
        if self.has_battery && data.len() == self.prg_ram.len() {
            self.prg_ram = data;
            self.has_valid_save_data = true;
        }
    }

    /// PRG-RAM, when the board has any.
    pub fn prg_ram_ref(&self) -> (r: Option<&[u8]>)
        ensures
            r.is_some() == (self.prg_ram@.len() > 0),
            r matches Some(s) ==> s@ == self.prg_ram@,
    {
        if self.prg_ram.len() == 0 {
            None
        } else {
            Some(self.prg_ram.as_slice())
        }
    }

    /// Whether nametable writes go to the console's nametable RAM (not
    /// while a Sunsoft-4 shows CHR-ROM there).
    pub fn nametable_writes_to_internal_vram(&self) -> (b: bool)
        ensures
            b == match self.sunsoft4 {
                Some(s) => !s.nametable_chr_rom,
                None => true,
            },
    {
        match &self.sunsoft4 {
            Some(s) => !s.nametable_chr_rom,
            None => true,
        }
    }

    /// See `resolved_nametable`.
    pub fn resolve_nametable(&self, logical_nt: usize) -> (r: Option<usize>)
        ensures
            r == resolved_nametable(*self, logical_nt),
    {
        let q = logical_nt % 4;
        if self.mapper == 19 || self.mapper == 5 || self.mapper == 77 || self.mapper == 99 {
            return Some(q);
        }
        if self.mapper == 137 {
            if (self.latches.mapper137_registers[7] >> 1) & 0x03 == 0 {
                return Some(if q == 0 { 0 } else { 1 });
            }
            return None;
        }
        if self.mapper == 118 {
            if let Some(m) = &self.mmc3 {
                let reg = if (m.bank_select >> 7) & 1 == 0 { if q <= 1 { 0 } else { 1 } } else { 2 + q };
                return Some(((m.bank_registers[reg] >> 7) & 1) as usize);
            }
        }
        if self.mapper == 207 {
            if let Some(t) = &self.taito_x1005 {
                return Some(((t.chr_banks[if q <= 1 { 0 } else { 1 }] >> 7) & 1) as usize);
            }
        }
        None
    }

    /// A PPU read of nametable byte `offset` of physical nametable
    /// `physical_nt`: through the MMC5 (which tracks the fetch), else
    /// `nt_read_value`; 0 past 1 KiB.
    pub fn read_nametable_byte(&mut self, physical_nt: usize, offset: usize, internal: &[[u8; 1024]; 2]) -> (r: u8)
        requires
            old(self).mapper == 5 ==> mmc5_exram_ok(*old(self)),
        ensures
            r == if offset >= 1024 {
                0
            } else if old(self).mapper == 5 {
                match old(self).mmc5 {
                    Some(m) => mmc5_nt_read_value(m, physical_nt, offset, *internal),
                    None => 0,
                }
            } else {
                nt_read_value(*old(self), physical_nt, offset, *internal)
            },
            final(self).mmc5 == if offset < 1024 && old(self).mapper == 5 {
                match old(self).mmc5 {
                    Some(m) => Some(mmc5_nt_read_chip(m, offset)),
                    None => None,
                }
            } else {
                old(self).mmc5
            },
            *final(self) == (Cartridge { mmc5: final(self).mmc5, ..*old(self) }),
    {
        if offset >= 1024 {
            return 0;
        }
        if self.mapper == 19 {
            return self.read_nametable_namco163(physical_nt, offset, internal);
        }
        if self.mapper == 5 {
            return self.read_nametable_mmc5(physical_nt, offset, internal);
        }
        if let Some(s) = &self.sunsoft4 {
            if s.nametable_chr_rom {
                return self.read_sunsoft4_nametable_chr(physical_nt % 2, offset);
            }
        }
        if self.mapper == 77 {
            if physical_nt < 2 {
                let chr_addr = 0x1800 + physical_nt * 0x0400 + offset;
                return if chr_addr < self.chr_ram.len() { self.chr_ram[chr_addr] } else { 0 };
            }
            let row = internal[(physical_nt - 2) % 2];
            return row[offset];
        }
        if self.mapper == 99 {
            let chr_addr = (physical_nt % 4) * 0x0400 + offset;
            return if chr_addr < self.chr_ram.len() { self.chr_ram[chr_addr] } else { 0 };
        }
        let row = internal[physical_nt % 2];
        row[offset]
    }

    /// A PPU write of nametable byte `offset` of physical nametable
    /// `physical_nt`: Namco 163 nametable RAM, the MMC5's routing, nothing
    /// while a Sunsoft-4 shows CHR-ROM, the CHR-RAM nametables of mappers 77
    /// and 99, else the console nametable `internal_nt`; nothing past 1 KiB.
    pub fn write_nametable_byte(&mut self, physical_nt: usize, offset: usize, internal: &mut [[u8; 1024]; 2], data: u8)
        requires
            old(self).mapper == 5 ==> mmc5_exram_ok(*old(self)),
        ensures
            if offset >= 1024 {
                *final(self) == *old(self) && *final(internal) == *old(internal)
            } else if old(self).mapper == 19 {
                &&& final(self).chr_ram@ == n163_nt_chr_ram(*old(self), physical_nt, offset, data)
                &&& *final(self) == (Cartridge { chr_ram: final(self).chr_ram, ..*old(self) })
                &&& *final(internal) == *old(internal)
            } else if old(self).mapper == 5 {
                mmc5_nt_written(*old(self), *final(self), *old(internal), *final(internal), physical_nt, offset, data)
            } else if old(self).sunsoft4 matches Some(s) && s.nametable_chr_rom {
                *final(self) == *old(self) && *final(internal) == *old(internal)
            } else if (old(self).mapper == 77 && physical_nt < 2) || old(self).mapper == 99 {
                let i: int = if old(self).mapper == 77 {
                    0x1800 + (physical_nt as int) * 0x400 + offset as int
                } else {
                    ((physical_nt % 4) as int) * 0x400 + offset as int
                };
                &&& final(self).chr_ram@ == stored(old(self).chr_ram@, i, data)
                &&& *final(self) == (Cartridge { chr_ram: final(self).chr_ram, ..*old(self) })
                &&& *final(internal) == *old(internal)
            } else {
                &&& *final(self) == *old(self)
                &&& forall|k: int| 0 <= k < 2 ==> (#[trigger] final(internal)@[k])@ == if k == internal_nt(old(self).mapper, physical_nt) {
                    old(internal)@[k]@.update(offset as int, data)
                } else {
                    old(internal)@[k]@
                }
            },
    {
        if offset >= 1024 {
            return;
        }
        if self.mapper == 19 {
            self.write_nametable_namco163(physical_nt, offset, internal, data);
            return;
        }
        if self.mapper == 5 {
            self.write_nametable_mmc5(physical_nt, offset, internal, data);
            return;
        }
        if let Some(s) = &self.sunsoft4 {
            if s.nametable_chr_rom {
                return;
            }
        }
        if (self.mapper == 77 && physical_nt < 2) || self.mapper == 99 {
            let chr_addr = if self.mapper == 77 {
                0x1800 + physical_nt * 0x0400 + offset
            } else {
                (physical_nt % 4) * 0x0400 + offset
            };
            if chr_addr < self.chr_ram.len() {
                self.chr_ram.set(chr_addr, data);
            }
            return;
        }
        let which = if self.mapper == 77 && physical_nt >= 2 { (physical_nt - 2) % 2 } else { physical_nt % 2 };
        let mut row = internal[which];
        row[offset] = data;
        internal[which] = row;
    }

    /// See `first_prg_bank`.
    pub fn get_prg_bank(&self) -> (b: u8)
        ensures
            b == first_prg_bank(*self),
    {
        if let Some(m) = &self.mmc1 {
            m.prg_bank
        } else if let Some(v) = &self.vrc2_vrc4 {
            v.prg_banks[0]
        } else if let Some(v) = &self.vrc6 {
            v.prg_bank_16k
        } else if let Some(s) = &self.sunsoft4 {
            s.prg_bank
        } else if let Some(t) = &self.taito_tc0190 {
            t.prg_banks[0]
        } else if let Some(t) = &self.taito_x1005 {
            t.prg_banks[0]
        } else if let Some(t) = &self.taito_x1017 {
            t.prg_banks[0]
        } else {
            self.prg_bank
        }
    }

    /// See `first_chr_bank`.
    pub fn get_chr_bank(&self) -> (b: u8)
        ensures
            b == first_chr_bank(*self),
    {
        if let Some(m) = &self.mmc1 {
            m.chr_bank_0
        } else if let Some(v) = &self.vrc2_vrc4 {
            v.chr_banks[0] as u8
        } else if let Some(v) = &self.vrc6 {
            v.chr_banks[0]
        } else if let Some(s) = &self.sunsoft4 {
            s.chr_banks[0]
        } else if let Some(t) = &self.taito_tc0190 {
            t.chr_banks[0]
        } else if let Some(t) = &self.taito_x1005 {
            t.chr_banks[0]
        } else if let Some(t) = &self.taito_x1017 {
            t.chr_banks[0]
        } else {
            self.chr_bank
        }
    }
    /// Writes the first PRG bank (see `prg_bank_set`).
    pub fn set_prg_bank(&mut self, bank: u8)
        ensures
            prg_bank_set(*old(self), *final(self), bank),
    {
        self.prg_bank = bank;
        self.mmc1 = match self.mmc1.take() {
            Some(m) => Some(Mmc1 { prg_bank: bank & 0x0F, ..m }),
            None => None,
        };
        self.vrc2_vrc4 = first_vrc24_prg(self.vrc2_vrc4.take(), bank & 0x1F);
        self.vrc6 = match self.vrc6.take() {
            Some(v) => Some(Vrc6 { prg_bank_16k: bank & 0x0F, ..v }),
            None => None,
        };
        self.sunsoft4 = match self.sunsoft4.take() {
            Some(s) => Some(Sunsoft4 { prg_bank: bank & 0x0F, ..s }),
            None => None,
        };
        self.taito_tc0190 = first_tc0190_prg(self.taito_tc0190.take(), bank);
        self.taito_x1005 = first_x1005_prg(self.taito_x1005.take(), bank);
        self.taito_x1017 = first_x1017_prg(self.taito_x1017.take(), bank);
    }

    /// Writes the first CHR bank (see `chr_bank_set`).
    pub fn set_chr_bank(&mut self, bank: u8)
        ensures
            chr_bank_set(*old(self), *final(self), bank),
    {
        self.chr_bank = bank;
        self.mmc1 = match self.mmc1.take() {
            Some(m) => Some(Mmc1 { chr_bank_0: bank, chr_bank_1: bank, ..m }),
            None => None,
        };
        self.vrc2_vrc4 = first_vrc24_chr(self.vrc2_vrc4.take(), bank as u16);
        self.vrc6 = first_vrc6_chr(self.vrc6.take(), bank);
        self.sunsoft4 = first_sunsoft4_chr(self.sunsoft4.take(), bank);
        self.taito_tc0190 = first_tc0190_chr(self.taito_tc0190.take(), bank);
        self.taito_x1005 = first_x1005_chr(self.taito_x1005.take(), bank);
        self.taito_x1017 = first_x1017_chr(self.taito_x1017.take(), bank);
    }

    /// The reset button (see `after_reset`).
    pub fn on_reset(&mut self)
        ensures
            *final(self) == after_reset(*old(self)),
    {
        if self.mapper == 41 {
            self.prg_bank = 0;
            self.chr_bank = 0;
            self.latches.mapper41_inner_bank = 0;
            self.mirroring = Mirroring::Vertical;
        }
        if self.mapper == 185 {
            self.mapper185_disabled_reads = 2;
        }
        if self.mapper == 230 {
            self.mapper230_contra_mode = !self.mapper230_contra_mode;
            if self.mapper230_contra_mode {
                self.mirroring = Mirroring::Vertical;
            }
        }
        if self.mapper == 5 {
            self.mmc5_end_frame();
        }
    }

    /// Mapper 233: data bits 0-4 the page, written as the first PRG and CHR
    /// bank; bit 5 the mirrored 16 KiB layout; bits 6-7 the nametables (see
    /// `mapper233_mirroring`). Ignored below $8000.
    pub fn write_prg_mapper233(&mut self, addr: u16, data: u8)
        ensures
            write_prg_mapper233_post(*old(self), *final(self), addr, data),
    {
        if addr < 0x8000 {
            return;
        }
        let bank = data & 0x1F;
        self.set_prg_bank(bank);
        let ghost mid = *self;
        self.set_chr_bank(bank);
        let ghost banked = *self;
        self.multicart.mapper233_nrom128 = data & 0x20 != 0;
        let mode = data >> 6;
        self.mirroring = if mode == 0 {
            Mirroring::ThreeScreenLower
        } else if mode == 1 {
            Mirroring::Vertical
        } else if mode == 2 {
            Mirroring::Horizontal
        } else {
            Mirroring::OneScreenUpper
        };
        assert(prg_bank_set(*old(self), mid, bank) && chr_bank_set(mid, banked, bank));
    }
    /// CPU read of $4020-$5FFF (see `prg_low_value` and
    /// `after_prg_low_read`).
    pub fn read_prg_low(&mut self, addr: u16) -> (r: u8)
        requires
            old(self).mapper == 5 ==> mmc5_exram_ok(*old(self)),
            old(self).mapper == 225 && 0x5800 <= addr <= 0x5FFF && old(self).prg_ram@.len() > 0 ==> addr % 4 < old(self).prg_ram@.len(),
        ensures
            r == prg_low_value(*old(self), addr),
            *final(self) == after_prg_low_read(*old(self), addr),
    {
        if self.mapper == 19 {
            self.read_prg_low_namco163(addr)
        } else if self.mapper == 5 {
            self.read_prg_low_mmc5(addr)
        } else if self.mapper == 43 {
            self.read_prg_low_mapper43(addr)
        } else if self.mapper == 137 {
            self.read_prg_low_mapper137(addr)
        } else if self.mapper == 150 {
            self.read_prg_low_mapper150(addr)
        } else if self.mapper == 208 {
            self.read_prg_low_mapper208(addr)
        } else if self.mapper == 225 {
            self.read_prg_low_mapper225(addr)
        } else if self.mapper == 243 {
            self.read_prg_low_mapper243(addr)
        } else {
            0
        }
    }
}

/// The state change of [`Cartridge::write_prg_mapper233`].
pub open spec fn write_prg_mapper233_post(c0: Cartridge, c1: Cartridge, addr: u16, data: u8) -> bool {
    &&& addr < 0x8000 ==> c1 == c0
    &&& addr >= 0x8000 ==> exists|mid: Cartridge, banked: Cartridge|
        #[trigger] prg_bank_set(c0, mid, data & 0x1F) && #[trigger] chr_bank_set(mid, banked, data & 0x1F)
        && c1 == (Cartridge {
            multicart: MulticartLatches { mapper233_nrom128: data & 0x20 != 0, ..banked.multicart },
            mirroring: mapper233_mirroring(data),
            ..banked
        })
}

} // verus!

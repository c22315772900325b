//! Building a cartridge from an iNES image: the 16-byte header decides the
//! mapper, the nametable arrangement and the battery; the PRG and CHR images
//! follow it; PRG-RAM, CHR-RAM and the mapper chip depend on the mapper.

use vstd::prelude::*;
use crate::cartridge::Mirroring;
use crate::cartridge::mapper::bandai_fcg::{BandaiFcg, bandai_power_on};
use crate::cartridge::mapper::fixed_irq::{Mapper40, Mapper42, Mapper43, Mapper50, mapper40_power_on, mapper42_power_on, mapper43_power_on, mapper50_power_on};
use crate::cartridge::mapper::fme7::{Fme7, fme7_power_on};
use crate::cartridge::board_latches::BoardLatches;
use crate::cartridge::multicart_latches::MulticartLatches;
use crate::cartridge::mapper::mmc1::{Mmc1, mmc1_power_on};
use crate::cartridge::mapper::mmc2::{Mmc2, mmc2_power_on};
use crate::cartridge::mapper::mmc3::{Mmc3, mmc3_power_on};
use crate::cartridge::mapper::mmc5::{Mmc5, mmc5_power_on};
use crate::cartridge::mapper::namco163::{Namco163, n163_power_on};
use crate::cartridge::mapper::sunsoft4::{Sunsoft4, sunsoft4_power_on};
use crate::cartridge::mapper::taito::{TaitoTc0190, TaitoX1005, TaitoX1017, tc0190_power_on, x1005_power_on, x1017_power_on};
use crate::cartridge::mapper::vrc2_vrc4::{Vrc2Vrc4, vrc24_power_on};
use crate::cartridge::mapper::vrc3::{Vrc3, vrc3_power_on};
use crate::cartridge::mapper::vrc6::{Vrc6, vrc6_power_on};

verus! {

/// Why an image was not accepted.
#[derive(Debug, Clone, Copy, PartialEq, Eq, Structural)]
pub enum LoadError {
    /// The image does not start with `NES` and $1A.
    InvalidFormat,
}

/// A cartridge as loaded: its memories, header facts, the power-on values
/// of the board latches the loader sets, and the mapper chip of its board.
pub struct Cartridge {
    pub prg_rom: Vec<u8>,
    pub chr_rom: Vec<u8>,
    pub chr_ram: Vec<u8>,
    pub prg_ram: Vec<u8>,
    pub has_valid_save_data: bool,
    pub mapper: u8,
    pub mirroring: Mirroring,
    pub has_battery: bool,
    pub chr_bank: u8,
    pub chr_bank_1: u8,
    pub prg_bank: u8,
    pub mapper34_nina001: bool,
    pub mapper93_chr_ram_enabled: bool,
    pub mapper78_hv_mirroring: bool,
    pub mapper191_outer_bank: u8,
    pub mapper195_mode: u8,
    pub mapper230_contra_mode: bool,
    pub mapper185_disabled_reads: u8,
    pub mapper236_chr_ram: bool,
    pub mapper142_bank_select: u8,
    pub mapper142_prg_banks: [u8; 4],
    pub latches: BoardLatches,
    pub multicart: MulticartLatches,
    pub mmc1: Option<Mmc1>,
    pub mmc2: Option<Mmc2>,
    pub mmc3: Option<Mmc3>,
    pub mmc5: Option<Mmc5>,
    pub vrc2_vrc4: Option<Vrc2Vrc4>,
    pub mapper40: Option<Mapper40>,
    pub mapper42: Option<Mapper42>,
    pub mapper43: Option<Mapper43>,
    pub mapper50: Option<Mapper50>,
    pub bandai_fcg: Option<BandaiFcg>,
    pub vrc3: Option<Vrc3>,
    pub vrc6: Option<Vrc6>,
    pub sunsoft4: Option<Sunsoft4>,
    pub taito_tc0190: Option<TaitoTc0190>,
    pub taito_x1005: Option<TaitoX1005>,
    pub taito_x1017: Option<TaitoX1017>,
    pub fme7: Option<Fme7>,
    pub namco163: Option<Namco163>,
}

/// The image starts with the iNES signature `NES` $1A.
pub open spec fn ines_signature_ok(d: Seq<u8>) -> bool {
    d.len() >= 4 && d[0] == 0x4E && d[1] == 0x45 && d[2] == 0x53 && d[3] == 0x1A
}

/// Size of the PRG-ROM image: header byte 4 in 16 KiB units.
pub open spec fn ines_prg_size(d: Seq<u8>) -> nat {
    (d[4] as nat) * 16384
}

/// Size of the CHR-ROM image: header byte 5 in 8 KiB units.
pub open spec fn ines_chr_size(d: Seq<u8>) -> nat {
    (d[5] as nat) * 8192
}

/// The mapper number: high nibble from flags 7, low nibble from flags 6.
pub open spec fn ines_mapper(d: Seq<u8>) -> u8 {
    (d[7] & 0xF0) | (d[6] >> 4)
}

/// Whether the loader copies a CHR-ROM image out of the file.
pub open spec fn chr_image_read(mapper: u8, chr_size: nat) -> bool {
    chr_size > 0 && mapper != 63 && mapper != 153
}

/// The image holds the whole header and the PRG image, and the CHR image
/// where it is read.
pub open spec fn ines_complete(d: Seq<u8>) -> bool {
    &&& d.len() >= 16 + ines_prg_size(d)
    &&& chr_image_read(ines_mapper(d), ines_chr_size(d)) ==> d.len() >= 16 + ines_prg_size(d) + ines_chr_size(d)
}

/// The nametable arrangement: fixed by the board for a few mappers, else
/// four-screen (flags 6 bit 3), vertical (bit 0) or horizontal.
pub open spec fn ines_mirroring(mapper: u8, flags6: u8) -> Mirroring {
    if mapper == 77 || mapper == 99 {
        Mirroring::FourScreen
    } else if mapper == 13 || mapper == 38 || mapper == 208 || mapper == 234 {
        Mirroring::Vertical
    } else if mapper == 235 {
        Mirroring::Horizontal
    } else if mapper == 78 {
        if flags6 & 0x08 != 0 {
            Mirroring::Horizontal
        } else {
            Mirroring::OneScreenLower
        }
    } else if flags6 & 0x08 != 0 {
        Mirroring::FourScreen
    } else if flags6 & 0x01 != 0 {
        Mirroring::Vertical
    } else {
        Mirroring::Horizontal
    }
}

/// `n` bytes of value `v`.
pub open spec fn filled(n: nat, v: u8) -> Seq<u8> {
    Seq::new(n, |i: int| v)
}

/// The CHR-ROM contents for the board: the file's image, padded or
/// replaced by zeroed memory on some boards, empty on boards without one.
pub open spec fn ines_chr_rom(mapper: u8, image: Seq<u8>) -> Seq<u8> {
    let size = image.len();
    if mapper == 13 {
        if size > 0 {
            if size < 0x4000 { image + filled((0x4000 - size) as nat, 0) } else { image }
        } else {
            filled(0x4000, 0)
        }
    } else if mapper == 19 && size == 0 {
        filled(0x2000, 0)
    } else if mapper == 63 {
        Seq::empty()
    } else if mapper == 77 {
        if size > 0 { image } else { filled(0x0800, 0) }
    } else if mapper == 153 || ((mapper == 18 || mapper == 221 || mapper == 231) && size == 0) {
        Seq::empty()
    } else if size > 0 {
        image
    } else {
        filled(8192, 0)
    }
}

/// The PRG-RAM the board carries, and its power-on fill.
pub open spec fn ines_prg_ram(mapper: u8, has_battery: bool, nina001: bool) -> Seq<u8> {
    if mapper == 16 && has_battery {
        filled(256, 0xFF)
    } else if mapper == 159 && has_battery {
        filled(128, 0xFF)
    } else if mapper == 99 {
        filled(0x0800, 0)
    } else if mapper == 5 {
        filled(0x20000, 0)
    } else if mapper == 19 {
        filled(0x2080, 0)
    } else if mapper == 210 && has_battery {
        filled(0x0800, 0)
    } else if mapper == 68 || mapper == 24 || mapper == 26 || mapper == 21 || mapper == 23 || mapper == 25
        || mapper == 18 || mapper == 240 || mapper == 241 || mapper == 245 || (mapper == 227 && has_battery) {
        filled(8192, 0)
    } else if mapper == 80 || mapper == 207 {
        filled(128, 0)
    } else if mapper == 82 {
        filled(0x1400, 0)
    } else if mapper == 246 {
        filled(2048, 0)
    } else if mapper == 225 {
        filled(4, 0)
    } else if mapper == 103 {
        filled(0x2000, 0)
    } else if mapper == 153 {
        filled(0x8000, 0)
    } else if mapper == 1 || mapper == 32 || mapper == 4 || mapper == 73 || mapper == 74 || mapper == 118
        || mapper == 119 || mapper == 192 || mapper == 194 || mapper == 15 || nina001 || mapper == 9
        || mapper == 10 || mapper == 16 || mapper == 69 {
        filled(8192, 0)
    } else {
        Seq::empty()
    }
}

/// The boards whose CHR-RAM is 8 KiB when they carry no CHR-ROM.
pub open spec fn chr_ram_when_no_rom(mapper: u8) -> bool {
    mapper == 1 || mapper == 4 || mapper == 10 || mapper == 18 || mapper == 48 || mapper == 65 || mapper == 118
        || mapper == 221 || mapper == 231 || mapper == 236 || mapper == 245
}

/// The CHR-RAM the board carries (zeroed at power-on).
pub open spec fn ines_chr_ram(mapper: u8, chr_size: nat) -> Seq<u8> {
    if mapper == 19 {
        filled(0x0800, 0)
    } else if (mapper == 210 && chr_size == 0) || mapper == 63 || mapper == 77 || mapper == 153 {
        filled(0x2000, 0)
    } else if mapper == 99 {
        filled(0x1000, 0)
    } else if 21 <= mapper <= 26 && chr_size == 0 {
        filled(0x2000, 0)
    } else if mapper == 74 || mapper == 191 || mapper == 194 {
        filled(0x0800, 0)
    } else if mapper == 192 {
        filled(0x1000, 0)
    } else if mapper == 12 || mapper == 44 || mapper == 119 || mapper == 115 || mapper == 189 || mapper == 205
        || mapper == 248 || mapper == 195 || (chr_ram_when_no_rom(mapper) && chr_size == 0) {
        filled(8192, 0)
    } else {
        Seq::empty()
    }
}

/// The boards driven by an MMC3 or a clone of it.
pub open spec fn uses_mmc3(mapper: u8) -> bool {
    mapper == 4 || mapper == 12 || mapper == 37 || mapper == 44 || mapper == 47 || mapper == 64 || mapper == 74
        || mapper == 76 || mapper == 88 || mapper == 95 || mapper == 112 || mapper == 114 || mapper == 115
        || mapper == 118 || mapper == 119 || mapper == 123 || mapper == 154 || mapper == 182 || mapper == 189
        || mapper == 191 || mapper == 192 || mapper == 194 || mapper == 195 || mapper == 205 || mapper == 206
        || mapper == 208 || mapper == 245 || mapper == 248 || mapper == 250
}

/// `c` is the cartridge the loader builds from the complete image `d`.
pub open spec fn loaded_from(c: &Cartridge, d: Seq<u8>) -> bool {
    let mapper = ines_mapper(d);
    let flags6 = d[6];
    let prg = ines_prg_size(d);
    let chr = ines_chr_size(d);
    let battery = flags6 & 0x02 != 0;
    let nina001 = mapper == 34 && chr > 8192;
    let chr_image = if chr_image_read(mapper, chr) { d.subrange(16 + prg as int, 16 + prg + chr as int) } else { Seq::empty() };
    &&& c.mapper == mapper
    &&& c.has_battery == battery
    &&& c.mirroring == ines_mirroring(mapper, flags6)
    &&& c.prg_rom@ == d.subrange(16, 16 + prg as int)
    &&& c.chr_rom@ == ines_chr_rom(mapper, chr_image)
    &&& c.prg_ram@ == ines_prg_ram(mapper, battery, nina001)
    &&& c.chr_ram@ == ines_chr_ram(mapper, chr)
    &&& !c.has_valid_save_data
    &&& c.chr_bank == 0
    &&& c.chr_bank_1 == if mapper == 184 { 4u8 } else { 1u8 }
    &&& c.prg_bank == if mapper == 208 { 3u8 } else { 0u8 }
    &&& c.mapper34_nina001 == nina001
    &&& c.mapper93_chr_ram_enabled
    &&& c.mapper78_hv_mirroring == (mapper == 78 && flags6 & 0x08 != 0)
    &&& c.mapper191_outer_bank == if mapper == 191 && chr <= 0x20000 { 3u8 } else { 0u8 }
    &&& c.mapper195_mode == 0x80
    &&& c.mapper230_contra_mode == (mapper == 230)
    &&& c.mapper185_disabled_reads == if mapper == 185 { 2u8 } else { 0u8 }
    &&& c.mapper236_chr_ram == (mapper == 236 && chr == 0)
    &&& c.mapper142_bank_select == 0
    &&& c.mapper142_prg_banks@ == seq![0u8, 0, 0, 0]
    &&& c.latches.mapper41_inner_bank == 0
    &&& c.latches.mapper137_index == 0 && c.latches.mapper150_index == 0 && c.latches.mapper243_index == 0
    &&& c.latches.mapper137_registers@ == seq![0u8, 0, 0, 0, 0, 0, 0, 0]
    &&& c.latches.mapper150_registers@ == seq![0u8, 0, 0, 0, 0, 0, 0, 0]
    &&& c.latches.mapper243_registers@ == seq![0u8, 0, 0, 0, 0, 0, 0, 0]
    &&& c.latches.mapper208_protection_index == 0
    &&& c.latches.mapper208_protection_regs@ == seq![0u8, 0, 0, 0]
    &&& c.multicart == MulticartLatches::cleared()
    &&& c.mmc1.is_some() == (mapper == 1)
    &&& (c.mmc1 matches Some(m) ==> mmc1_power_on(m))
    &&& c.mmc2.is_some() == (mapper == 9 || mapper == 10)
    &&& (c.mmc2 matches Some(m) ==> mmc2_power_on(m))
    &&& c.mmc3.is_some() == uses_mmc3(mapper)
    &&& (c.mmc3 matches Some(m) ==> mmc3_power_on(m))
    &&& c.mmc5.is_some() == (mapper == 5)
    &&& (c.mmc5 matches Some(m) ==> mmc5_power_on(m))
    &&& c.vrc2_vrc4.is_some() == (mapper == 21 || mapper == 22 || mapper == 23 || mapper == 25)
    &&& (c.vrc2_vrc4 matches Some(v) ==> v.vrc4_mode == (mapper == 21) && vrc24_power_on(Vrc2Vrc4 { vrc4_mode: false, ..v }))
    &&& c.mapper40.is_some() == (mapper == 40)
    &&& (c.mapper40 matches Some(m) ==> mapper40_power_on(m))
    &&& c.mapper42.is_some() == (mapper == 42)
    &&& (c.mapper42 matches Some(m) ==> mapper42_power_on(m))
    &&& c.mapper43.is_some() == (mapper == 43)
    &&& (c.mapper43 matches Some(m) ==> mapper43_power_on(m))
    &&& c.mapper50.is_some() == (mapper == 50)
    &&& (c.mapper50 matches Some(m) ==> mapper50_power_on(m))
    &&& c.bandai_fcg.is_some() == (mapper == 16 || mapper == 153 || mapper == 159)
    &&& (c.bandai_fcg matches Some(b) ==> bandai_power_on(b))
    &&& c.vrc3.is_some() == (mapper == 73 || mapper == 142)
    &&& (c.vrc3 matches Some(v) ==> vrc3_power_on(v))
    &&& c.vrc6.is_some() == (mapper == 24 || mapper == 26)
    &&& (c.vrc6 matches Some(v) ==> vrc6_power_on(v))
    &&& c.sunsoft4.is_some() == (mapper == 68)
    &&& (c.sunsoft4 matches Some(s) ==> sunsoft4_power_on(s))
    &&& c.taito_tc0190.is_some() == (mapper == 33 || mapper == 48)
    &&& (c.taito_tc0190 matches Some(t) ==> tc0190_power_on(t))
    &&& c.taito_x1005.is_some() == (mapper == 80 || mapper == 207)
    &&& (c.taito_x1005 matches Some(t) ==> x1005_power_on(t))
    &&& c.taito_x1017.is_some() == (mapper == 82)
    &&& (c.taito_x1017 matches Some(t) ==> x1017_power_on(t))
    &&& c.fme7.is_some() == (mapper == 69)
    &&& (c.fme7 matches Some(f) ==> fme7_power_on(f))
    &&& c.namco163.is_some() == (mapper == 19)
    &&& (c.namco163 matches Some(n) ==> n163_power_on(n))
}

/// `n` bytes of value `v`.
fn filled_vec(n: usize, v: u8) -> (r: Vec<u8>)
    ensures
        r@ == filled(n as nat, v),
{
    let mut r: Vec<u8> = Vec::with_capacity(n);
    let mut i: usize = 0;
    while i < n
        invariant
            i <= n,
            r@ == filled(i as nat, v),
        decreases n - i,
    {
        r.push(v);
        i += 1;
        proof {
            assert(r@ =~= filled(i as nat, v));
        }
    }
    r
}

/// A copy of `data[start..start + len]`.
fn copy_range(data: &[u8], start: usize, len: usize) -> (r: Vec<u8>)
    requires
        start + len <= data@.len(),
    ensures
        r@ == data@.subrange(start as int, (start + len) as int),
{
    let mut r: Vec<u8> = Vec::with_capacity(len);
    let n = data.len();
    let mut i: usize = 0;
    while i < len
        invariant
            i <= len,
            n == data@.len(),
            start + len <= data@.len(),
            r@ == data@.subrange(start as int, (start + i) as int),
        decreases len - i,
    {
        r.push(data[start + i]);
        i += 1;
        proof {
            assert(r@ =~= data@.subrange(start as int, (start + i) as int));
        }
    }
    r
}

/// The CHR-ROM contents for the board, from the image read out of the file.
fn chr_rom_for(mapper: u8, image: Vec<u8>) -> (r: Vec<u8>)
    ensures
        r@ == ines_chr_rom(mapper, image@),
{
    let size = image.len();
    if mapper == 13 {
        if size > 0 {
            if size < 0x4000 {
                let mut chr = image;
                let pad = filled_vec(0x4000 - size, 0);
                let mut i: usize = 0;
                let ghost start = chr@;
                while i < pad.len()
                    invariant
                        i <= pad@.len(),
                        chr@ == start + pad@.take(i as int),
                    decreases pad@.len() - i,
                {
                    chr.push(pad[i]);
                    i += 1;
                    proof {
                        assert(pad@.take(i as int) =~= pad@.take((i - 1) as int).push(pad@[i - 1]));
                    }
                }
                assert(pad@.take(pad@.len() as int) =~= pad@);
                chr
            } else {
                image
            }
        } else {
            filled_vec(0x4000, 0)
        }
    } else if mapper == 19 && size == 0 {
        filled_vec(0x2000, 0)
    } else if mapper == 63 {
        Vec::new()
    } else if mapper == 77 {
        if size > 0 { image } else { filled_vec(0x0800, 0) }
    } else if mapper == 153 || ((mapper == 18 || mapper == 221 || mapper == 231) && size == 0) {
        Vec::new()
    } else if size > 0 {
        image
    } else {
        filled_vec(8192, 0)
    }
}

/// The PRG-RAM the board carries.
fn prg_ram_for(mapper: u8, has_battery: bool, nina001: bool) -> (r: Vec<u8>)
    ensures
        r@ == ines_prg_ram(mapper, has_battery, nina001),
{
    if mapper == 16 && has_battery {
        filled_vec(256, 0xFF)
    } else if mapper == 159 && has_battery {
        filled_vec(128, 0xFF)
    } else if mapper == 99 {
        filled_vec(0x0800, 0)
    } else if mapper == 5 {
        filled_vec(0x20000, 0)
    } else if mapper == 19 {
        filled_vec(0x2080, 0)
    } else if mapper == 210 && has_battery {
        filled_vec(0x0800, 0)
    } else if mapper == 68 || mapper == 24 || mapper == 26 || mapper == 21 || mapper == 23 || mapper == 25
        || mapper == 18 || mapper == 240 || mapper == 241 || mapper == 245 || (mapper == 227 && has_battery) {
        filled_vec(8192, 0)
    } else if mapper == 80 || mapper == 207 {
        filled_vec(128, 0)
    } else if mapper == 82 {
        filled_vec(0x1400, 0)
    } else if mapper == 246 {
        filled_vec(2048, 0)
    } else if mapper == 225 {
        filled_vec(4, 0)
    } else if mapper == 103 {
        filled_vec(0x2000, 0)
    } else if mapper == 153 {
        filled_vec(0x8000, 0)
    } else if mapper == 1 || mapper == 32 || mapper == 4 || mapper == 73 || mapper == 74 || mapper == 118
        || mapper == 119 || mapper == 192 || mapper == 194 || mapper == 15 || nina001 || mapper == 9
        || mapper == 10 || mapper == 16 || mapper == 69 {
        filled_vec(8192, 0)
    } else {
        Vec::new()
    }
}

/// The CHR-RAM the board carries.
fn chr_ram_for(mapper: u8, chr_size: usize) -> (r: Vec<u8>)
    ensures
        r@ == ines_chr_ram(mapper, chr_size as nat),
{
    if mapper == 19 {
        filled_vec(0x0800, 0)
    } else if (mapper == 210 && chr_size == 0) || mapper == 63 || mapper == 77 || mapper == 153 {
        filled_vec(0x2000, 0)
    } else if mapper == 99 {
        filled_vec(0x1000, 0)
    } else if 21 <= mapper && mapper <= 26 && chr_size == 0 {
        filled_vec(0x2000, 0)
    } else if mapper == 74 || mapper == 191 || mapper == 194 {
        filled_vec(0x0800, 0)
    } else if mapper == 192 {
        filled_vec(0x1000, 0)
    } else if mapper == 12 || mapper == 44 || mapper == 119 || mapper == 115 || mapper == 189 || mapper == 205
        || mapper == 248 || mapper == 195 || ((mapper == 1 || mapper == 4 || mapper == 10 || mapper == 18
        || mapper == 48 || mapper == 65 || mapper == 118 || mapper == 221 || mapper == 231 || mapper == 236
        || mapper == 245) && chr_size == 0) {
        filled_vec(8192, 0)
    } else {
        Vec::new()
    }
}

impl Cartridge {
    /// Builds the cartridge from an iNES image: `Err(InvalidFormat)` exactly
    /// when the signature is missing.
    pub fn load(data: &[u8]) -> (r: Result<Cartridge, LoadError>)
        requires
            data@.len() >= 4,
            ines_signature_ok(data@) ==> ines_complete(data@),
        ensures
            !ines_signature_ok(data@) <==> r == Err::<Cartridge, LoadError>(LoadError::InvalidFormat),
            r matches Ok(c) ==> loaded_from(&c, data@),
    {
        if !(data[0] == 0x4E && data[1] == 0x45 && data[2] == 0x53 && data[3] == 0x1A) {
            return Err(LoadError::InvalidFormat);
        }
        let prg_rom_size = data[4] as usize * 16384;
        let chr_rom_size = data[5] as usize * 8192;
        let flags6 = data[6];
        let flags7 = data[7];
        let has_battery = (flags6 & 0x02) != 0;
        let mapper = (flags7 & 0xF0) | (flags6 >> 4);
        let mapper34_nina001 = mapper == 34 && chr_rom_size > 8192;
        let mapper78_hv_mirroring = mapper == 78 && (flags6 & 0x08) != 0;
        let mapper236_chr_ram = mapper == 236 && chr_rom_size == 0;

        let mirroring = if mapper == 77 || mapper == 99 {
            Mirroring::FourScreen
        } else if mapper == 13 || mapper == 38 || mapper == 208 || mapper == 234 {
            Mirroring::Vertical
        } else if mapper == 235 {
            Mirroring::Horizontal
        } else if mapper == 78 {
            if mapper78_hv_mirroring { Mirroring::Horizontal } else { Mirroring::OneScreenLower }
        } else if flags6 & 0x08 != 0 {
            Mirroring::FourScreen
        } else if flags6 & 0x01 != 0 {
            Mirroring::Vertical
        } else {
            Mirroring::Horizontal
        };

        let prg_rom_start: usize = 16;
        let chr_rom_start = prg_rom_start + prg_rom_size;
        let prg_rom = copy_range(data, prg_rom_start, prg_rom_size);
        let chr_image = if chr_rom_size > 0 && mapper != 63 && mapper != 153 {
            copy_range(data, chr_rom_start, chr_rom_size)
        } else {
            Vec::new()
        };
        proof {
            if !chr_image_read(mapper, chr_rom_size as nat) {
                assert(chr_image@ =~= Seq::<u8>::empty());
            }
        }
        let chr_rom = chr_rom_for(mapper, chr_image);
        let prg_ram = prg_ram_for(mapper, has_battery, mapper34_nina001);
        let chr_ram = chr_ram_for(mapper, chr_rom_size);

        let mmc3_board = mapper == 4 || mapper == 12 || mapper == 37 || mapper == 44 || mapper == 47
            || mapper == 64 || mapper == 74 || mapper == 76 || mapper == 88 || mapper == 95 || mapper == 112
            || mapper == 114 || mapper == 115 || mapper == 118 || mapper == 119 || mapper == 123 || mapper == 154
            || mapper == 182 || mapper == 189 || mapper == 191 || mapper == 192 || mapper == 194 || mapper == 195
            || mapper == 205 || mapper == 206 || mapper == 208 || mapper == 245 || mapper == 248 || mapper == 250;
        let vrc2_vrc4 = if mapper == 21 || mapper == 22 || mapper == 23 || mapper == 25 {
            let mut vrc = Vrc2Vrc4::new();
            if mapper == 21 {
                vrc.vrc4_mode = true;
            }
            Some(vrc)
        } else {
            None
        };

        let fme7 = if mapper == 69 { Some(Fme7::new()) } else { None };
        let mapper142_prg_banks: [u8; 4] = [0; 4];
        assert(mapper142_prg_banks@ =~= seq![0u8, 0, 0, 0]);
        Ok(Cartridge {
            prg_rom,
            chr_rom,
            chr_ram,
            prg_ram,
            has_valid_save_data: false,
            mapper,
            mirroring,
            has_battery,
            chr_bank: 0,
            chr_bank_1: if mapper == 184 { 4 } else { 1 },
            prg_bank: if mapper == 208 { 3 } else { 0 },
            mapper34_nina001,
            mapper93_chr_ram_enabled: true,
            mapper78_hv_mirroring,
            mapper191_outer_bank: if mapper == 191 && chr_rom_size <= 0x20000 { 3 } else { 0 },
            mapper195_mode: 0x80,
            mapper230_contra_mode: mapper == 230,
            mapper185_disabled_reads: if mapper == 185 { 2 } else { 0 },
            mapper236_chr_ram,
            mapper142_bank_select: 0,
            mapper142_prg_banks,
            latches: BoardLatches::new(),
            multicart: MulticartLatches::new(),
            mmc1: if mapper == 1 { Some(Mmc1::new()) } else { None },
            mmc2: if mapper == 9 || mapper == 10 { Some(Mmc2::new()) } else { None },
            mmc3: if mmc3_board { Some(Mmc3::new()) } else { None },
            mmc5: if mapper == 5 { Some(Mmc5::new()) } else { None },
            vrc2_vrc4,
            mapper40: if mapper == 40 { Some(Mapper40::new()) } else { None },
            mapper42: if mapper == 42 { Some(Mapper42::new()) } else { None },
            mapper43: if mapper == 43 { Some(Mapper43::new()) } else { None },
            mapper50: if mapper == 50 { Some(Mapper50::new()) } else { None },
            bandai_fcg: if mapper == 16 || mapper == 153 || mapper == 159 { Some(BandaiFcg::new()) } else { None },
            vrc3: if mapper == 73 || mapper == 142 { Some(Vrc3::new()) } else { None },
            vrc6: if mapper == 24 || mapper == 26 { Some(Vrc6::new()) } else { None },
            sunsoft4: if mapper == 68 { Some(Sunsoft4::new()) } else { None },
            taito_tc0190: if mapper == 33 || mapper == 48 { Some(TaitoTc0190::new()) } else { None },
            taito_x1005: if mapper == 80 || mapper == 207 { Some(TaitoX1005::new()) } else { None },
            taito_x1017: if mapper == 82 { Some(TaitoX1017::new()) } else { None },
            fme7,
            namco163: if mapper == 19 { Some(Namco163::new()) } else { None },
        })
    }
}

} // verus!

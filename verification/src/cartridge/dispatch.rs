//! The cartridge's entry points for the CPU and the PPU: each access goes
//! to the routine of the board the mapper number names. Mapper numbers
//! without a board routine here take the default arm of each entry point
//! (no effect; reads give 0, CHR reads and writes go to the first 8 KiB).

use vstd::prelude::*;
use crate::cartridge::load::Cartridge;
use crate::cartridge::interface::stored;
use crate::cartridge::namco163_board::byte_or_zero;
use crate::cartridge::multicart_boards::read_chr_nrom_value;
use crate::cartridge::multicart_boards::mapper234_applied;
use crate::cartridge::bandai_board::{read_chr_bandai_value, read_prg_bandai_value, read_prg_ram_bandai_value, read_prg_ram_bandai_pre, write_chr_bandai_post, write_prg_bandai_post, write_prg_ram_bandai_post, write_prg_ram_bandai_pre};
use crate::cartridge::discrete::{read_chr_cnrom_value, read_chr_uxrom_value, read_prg_axrom_value, read_prg_axrom_pre, read_prg_fixed_last_switch_high_value, read_prg_fixed_last_switch_high_pre, read_prg_uxrom_value, read_prg_uxrom_pre, read_prg_uxrom_inverted_value, read_prg_uxrom_inverted_pre, write_chr_cnrom_post, write_chr_uxrom_post, write_prg_axrom_post, write_prg_camerica_post, write_prg_cnrom_post, write_prg_cnrom_pre, write_prg_color_dreams_post, write_prg_mapper152_post, write_prg_mapper70_post, write_prg_mapper81_post, write_prg_mapper87_post, write_prg_mapper97_post, write_prg_uxrom_post, write_prg_uxrom_pre, write_prg_uxrom_inverted_post};
use crate::cartridge::fixed_irq_board::{read_prg_mapper40_value, read_prg_mapper42_value, read_prg_mapper43_value, read_prg_mapper50_value, read_prg_ram_mapper40_value, read_prg_ram_mapper42_value, read_prg_ram_mapper43_value, read_prg_ram_mapper50_value, write_prg_mapper40_post, write_prg_mapper42_post, write_prg_mapper43_post, write_prg_mapper50_post};
use crate::cartridge::fme7_board::{read_chr_fme7_value, read_prg_fme7_value, read_prg_ram_fme7_value, read_prg_ram_fme7_pre, write_chr_fme7_post, write_prg_fme7_post, write_prg_fme7_pre, write_prg_ram_fme7_post, write_prg_ram_fme7_pre};
use crate::cartridge::interface::{write_prg_mapper233_post};
use crate::cartridge::latch_boards::{read_chr_mapper93_value, write_chr_mapper93_post, write_prg_mapper113_post, write_prg_mapper133_post, write_prg_mapper147_post, write_prg_mapper148_post, write_prg_mapper41_post, write_prg_mapper41_pre, write_prg_mapper79_146_post, write_prg_mapper89_post, write_prg_mapper93_post, write_prg_ram_mapper41_post};
use crate::cartridge::mapper208_board::{read_prg_mapper208_value, read_prg_mapper208_pre, write_prg_mapper208_post, write_prg_ram_mapper208_post};
use crate::cartridge::mapper::sunsoft4::{read_chr_sunsoft4_value, read_prg_ram_sunsoft4_value, read_prg_sunsoft4_value, write_chr_sunsoft4_post, write_prg_ram_sunsoft4_post, write_prg_sunsoft4_post};
use crate::cartridge::mmc1_board::{read_chr_mmc1_value, read_prg_mmc1_value, read_prg_mmc1_pre, read_prg_ram_mmc1_value, read_prg_ram_mmc1_pre, write_chr_mmc1_post, write_prg_mmc1_post, write_prg_ram_mmc1_post, write_prg_ram_mmc1_pre};
use crate::cartridge::mmc2_board::{read_chr_mmc2_post, read_prg_mmc2_value, read_prg_mmc2_pre, read_prg_ram_mmc2_value, read_prg_ram_mmc2_pre, write_chr_mmc2_post, write_prg_mmc2_post, write_prg_ram_mmc2_post, write_prg_ram_mmc2_pre};
use crate::cartridge::mmc3_board::{read_chr_mapper119_value, read_chr_mapper191_value, read_chr_mapper192_value, read_chr_mapper194_value, read_chr_mapper195_value, read_chr_mapper245_value, read_chr_mapper74_value, read_chr_mmc3_value, read_prg_mapper191_value, read_prg_mapper245_value, read_prg_mmc3_value, read_prg_mmc3_pre, read_prg_ram_mmc3_value, read_prg_ram_mmc3_pre, write_chr_mapper119_post, write_chr_mapper191_post, write_chr_mapper192_post, write_chr_mapper194_post, write_chr_mapper195_post, write_chr_mapper245_post, write_chr_mapper74_post, write_chr_mmc3_post, write_prg_mapper191_post, write_prg_mapper250_post, write_prg_mmc3_post, write_prg_ram_mmc3_post, write_prg_ram_mmc3_pre};
use crate::cartridge::mmc5_board::{read_chr_mmc5_value, read_prg_mmc5_value, read_prg_mmc5_pre, read_prg_ram_mmc5_value, write_chr_mmc5_post, write_prg_mmc5_post, write_prg_ram_mmc5_post, read_chr_sprite_mmc5_value};
use crate::cartridge::multicart_boards::{read_chr_cprom_value, read_chr_mapper221_value, read_chr_mapper231_value, read_prg_mapper200_value, read_prg_mapper200_pre, read_prg_mapper202_value, read_prg_mapper202_pre, read_prg_mapper212_value, read_prg_mapper212_pre, read_prg_mapper221_value, read_prg_mapper221_pre, read_prg_mapper225_value, read_prg_mapper225_pre, read_prg_mapper226_value, read_prg_mapper226_pre, read_prg_mapper227_value, read_prg_mapper227_pre, read_prg_mapper228_value, read_prg_mapper228_pre, read_prg_mapper229_value, read_prg_mapper229_pre, read_prg_mapper230_value, read_prg_mapper230_pre, read_prg_mapper231_value, read_prg_mapper231_pre, read_prg_mapper233_value, read_prg_mapper234_value, read_prg_mapper234_pre, read_prg_mapper235_value, read_prg_mapper235_pre, read_prg_mapper242_value, read_prg_mapper242_pre, read_prg_mapper58_value, read_prg_mapper58_pre, read_prg_nrom_value, read_prg_nrom_pre, write_chr_cprom_post, write_chr_mapper221_post, write_chr_mapper227_post, write_chr_mapper231_post, write_chr_mapper242_post, write_chr_nrom_post, write_prg_cprom_post, write_prg_mapper200_post, write_prg_mapper201_post, write_prg_mapper202_post, write_prg_mapper203_post, write_prg_mapper212_post, write_prg_mapper221_post, write_prg_mapper225_post, write_prg_mapper225_pre, write_prg_mapper226_post, write_prg_mapper227_post, write_prg_mapper228_post, write_prg_mapper229_post, write_prg_mapper230_post, write_prg_mapper231_post, write_prg_mapper234_post, write_prg_mapper234_pre, write_prg_mapper235_post, write_prg_mapper242_post, write_prg_mapper58_post};
use crate::cartridge::namco108_board::{read_chr_namco108_value, read_prg_namco108_value, write_chr_namco108_post, write_prg_namco108_post};
use crate::cartridge::namco163_board::{read_chr_namco163_value, read_prg_namco163_value, read_prg_ram_namco163_value, read_prg_ram_namco163_pre, write_chr_namco163_post, write_prg_namco163_post, write_prg_ram_namco163_post, write_prg_ram_namco163_pre, write_prg_low_namco163_post};
use crate::cartridge::sachen_boards::{read_chr_mapper137_value, write_chr_mapper137_post, write_prg_mapper137_post, write_prg_mapper150_post, write_prg_mapper243_post};
use crate::cartridge::taito_board::{read_chr_taito_tc0190_value, read_chr_taito_x1005_value, read_chr_taito_x1017_value, read_prg_ram_taito_x1005_value, read_prg_ram_taito_x1017_value, read_prg_taito_tc0190_value, read_prg_taito_x1005_value, read_prg_taito_x1017_value, write_chr_taito_tc0190_post, write_chr_taito_x1005_post, write_chr_taito_x1017_post, write_prg_ram_taito_x1005_post, write_prg_ram_taito_x1017_post, write_prg_taito_tc0190_post};
use crate::cartridge::vrc2_vrc4_board::{read_chr_mapper23_value, read_prg_mapper23_value, read_prg_ram_mapper23_value, read_prg_ram_mapper23_pre, write_chr_mapper23_post, write_prg_mapper23_post, write_prg_mapper23_pre, write_prg_ram_mapper23_post, write_prg_ram_mapper23_pre};
use crate::cartridge::vrc3_board::{read_prg_mapper142_value, read_prg_ram_mapper142_value, read_prg_ram_vrc3_value, read_prg_ram_vrc3_pre, write_prg_mapper142_post, write_prg_ram_vrc3_post, write_prg_ram_vrc3_pre, write_prg_vrc3_post};
use crate::cartridge::vrc6_board::{read_chr_vrc6_value, read_prg_ram_vrc6_value, read_prg_vrc6_value, write_chr_vrc6_post, write_prg_ram_vrc6_post, write_prg_vrc6_post};

verus! {

/// The byte a CPU read of $8000-$FFFF gives, by board.
pub open spec fn prg_read_value(c: Cartridge, addr: u16) -> u8 {
    let rom_addr = (addr - 0x8000) as u16;
    if c.mapper == 21 {
        read_prg_mapper23_value(c, addr)
    } else if c.mapper == 22 {
        read_prg_mapper23_value(c, addr)
    } else if c.mapper == 23 {
        read_prg_mapper23_value(c, addr)
    } else if (c.mapper == 24 || c.mapper == 26) {
        read_prg_vrc6_value(c, addr)
    } else if c.mapper == 25 {
        read_prg_mapper23_value(c, addr)
    } else if c.mapper == 19 {
        read_prg_namco163_value(c, addr)
    } else if c.mapper == 5 {
        read_prg_mmc5_value(c, addr)
    } else if (c.mapper == 0 || c.mapper == 3 || c.mapper == 13 || c.mapper == 87 || c.mapper == 101 || c.mapper == 184 || c.mapper == 185) {
        read_prg_nrom_value(c, rom_addr)
    } else if c.mapper == 142 {
        read_prg_mapper142_value(c, addr)
    } else if c.mapper == 150 {
        read_prg_axrom_value(c, addr)
    } else if c.mapper == 12 {
        read_prg_mmc3_value(c, addr)
    } else if c.mapper == 40 {
        read_prg_mapper40_value(c, addr)
    } else if c.mapper == 42 {
        read_prg_mapper42_value(c, addr)
    } else if c.mapper == 43 {
        read_prg_mapper43_value(c, addr)
    } else if c.mapper == 48 {
        read_prg_taito_tc0190_value(c, addr)
    } else if c.mapper == 112 {
        read_prg_namco108_value(c, addr)
    } else if c.mapper == 1 {
        read_prg_mmc1_value(c, addr, rom_addr)
    } else if c.mapper == 208 {
        read_prg_mapper208_value(c, addr)
    } else if c.mapper == 33 {
        read_prg_taito_tc0190_value(c, addr)
    } else if c.mapper == 221 {
        read_prg_mapper221_value(c, addr)
    } else if (c.mapper == 225 || c.mapper == 255) {
        read_prg_mapper225_value(c, addr)
    } else if c.mapper == 230 {
        read_prg_mapper230_value(c, addr)
    } else if c.mapper == 227 {
        read_prg_mapper227_value(c, addr)
    } else if c.mapper == 231 {
        read_prg_mapper231_value(c, addr)
    } else if c.mapper == 233 {
        read_prg_mapper233_value(c, addr)
    } else if c.mapper == 234 {
        read_prg_mapper234_value(c, addr)
    } else if c.mapper == 235 {
        read_prg_mapper235_value(c, addr)
    } else if (c.mapper == 200 || c.mapper == 203) {
        read_prg_mapper200_value(c, addr)
    } else if c.mapper == 202 {
        read_prg_mapper202_value(c, addr)
    } else if c.mapper == 212 {
        read_prg_mapper212_value(c, addr)
    } else if c.mapper == 226 {
        read_prg_mapper226_value(c, addr)
    } else if c.mapper == 228 {
        read_prg_mapper228_value(c, addr)
    } else if c.mapper == 242 {
        read_prg_mapper242_value(c, addr)
    } else if (c.mapper == 2 || c.mapper == 57 || c.mapper == 70 || c.mapper == 71 || c.mapper == 72 || c.mapper == 73 || c.mapper == 81 || c.mapper == 86 || c.mapper == 89 || c.mapper == 93 || c.mapper == 152) {
        read_prg_uxrom_value(c, addr, rom_addr)
    } else if (c.mapper == 34 || c.mapper == 38 || c.mapper == 41 || c.mapper == 46 || c.mapper == 77 || c.mapper == 79 || c.mapper == 113 || c.mapper == 133 || c.mapper == 140 || c.mapper == 144 || c.mapper == 146 || c.mapper == 147 || c.mapper == 148 || c.mapper == 201 || c.mapper == 240 || c.mapper == 241 || c.mapper == 243) {
        read_prg_axrom_value(c, addr)
    } else if c.mapper == 50 {
        read_prg_mapper50_value(c, addr)
    } else if (c.mapper == 58 || c.mapper == 213) {
        read_prg_mapper58_value(c, addr)
    } else if c.mapper == 229 {
        read_prg_mapper229_value(c, addr)
    } else if (c.mapper == 92 || c.mapper == 180) {
        read_prg_uxrom_inverted_value(c, addr, rom_addr)
    } else if c.mapper == 97 {
        read_prg_fixed_last_switch_high_value(c, addr, rom_addr)
    } else if c.mapper == 137 {
        read_prg_axrom_value(c, addr)
    } else if c.mapper == 191 {
        read_prg_mapper191_value(c, addr)
    } else if (c.mapper == 4 || c.mapper == 74 || c.mapper == 118 || c.mapper == 119 || c.mapper == 192 || c.mapper == 194 || c.mapper == 195 || c.mapper == 250) {
        read_prg_mmc3_value(c, addr)
    } else if c.mapper == 189 {
        read_prg_axrom_value(c, addr)
    } else if c.mapper == 245 {
        read_prg_mapper245_value(c, addr)
    } else if c.mapper == 68 {
        read_prg_sunsoft4_value(c, addr)
    } else if (c.mapper == 80 || c.mapper == 207) {
        read_prg_taito_x1005_value(c, addr)
    } else if c.mapper == 82 {
        read_prg_taito_x1017_value(c, addr)
    } else if (c.mapper == 76 || c.mapper == 88 || c.mapper == 95 || c.mapper == 154 || c.mapper == 206) {
        read_prg_namco108_value(c, addr)
    } else if (c.mapper == 7 || c.mapper == 11 || c.mapper == 66 || c.mapper == 107) {
        read_prg_axrom_value(c, addr)
    } else if (c.mapper == 78 || c.mapper == 94) {
        read_prg_uxrom_value(c, addr, rom_addr)
    } else if (c.mapper == 9 || c.mapper == 10) {
        read_prg_mmc2_value(c, addr, rom_addr)
    } else if (c.mapper == 16 || c.mapper == 153 || c.mapper == 159) {
        read_prg_bandai_value(c, addr)
    } else if c.mapper == 69 {
        read_prg_fme7_value(c, addr)
    } else {
        0
    }
}

/// What a CPU read of $8000-$FFFF needs of the board.
pub open spec fn prg_read_ok(c: Cartridge, addr: u16) -> bool {
    let rom_addr = (addr - 0x8000) as u16;
    if c.mapper == 21 {
        true
    } else if c.mapper == 22 {
        true
    } else if c.mapper == 23 {
        true
    } else if (c.mapper == 24 || c.mapper == 26) {
        true
    } else if c.mapper == 25 {
        true
    } else if c.mapper == 19 {
        true
    } else if c.mapper == 5 {
        read_prg_mmc5_pre(c, addr)
    } else if (c.mapper == 0 || c.mapper == 3 || c.mapper == 13 || c.mapper == 87 || c.mapper == 101 || c.mapper == 184 || c.mapper == 185) {
        read_prg_nrom_pre(c, rom_addr)
    } else if c.mapper == 142 {
        true
    } else if c.mapper == 150 {
        read_prg_axrom_pre(c, addr)
    } else if c.mapper == 12 {
        read_prg_mmc3_pre(c, addr)
    } else if c.mapper == 40 {
        true
    } else if c.mapper == 42 {
        true
    } else if c.mapper == 43 {
        true
    } else if c.mapper == 48 {
        true
    } else if c.mapper == 112 {
        true
    } else if c.mapper == 1 {
        read_prg_mmc1_pre(c, addr, rom_addr)
    } else if c.mapper == 208 {
        read_prg_mapper208_pre(c, addr)
    } else if c.mapper == 33 {
        true
    } else if c.mapper == 221 {
        read_prg_mapper221_pre(c, addr)
    } else if (c.mapper == 225 || c.mapper == 255) {
        read_prg_mapper225_pre(c, addr)
    } else if c.mapper == 230 {
        read_prg_mapper230_pre(c, addr)
    } else if c.mapper == 227 {
        read_prg_mapper227_pre(c, addr)
    } else if c.mapper == 231 {
        read_prg_mapper231_pre(c, addr)
    } else if c.mapper == 233 {
        true
    } else if c.mapper == 234 {
        read_prg_mapper234_pre(c, addr)
    } else if c.mapper == 235 {
        read_prg_mapper235_pre(c, addr)
    } else if (c.mapper == 200 || c.mapper == 203) {
        read_prg_mapper200_pre(c, addr)
    } else if c.mapper == 202 {
        read_prg_mapper202_pre(c, addr)
    } else if c.mapper == 212 {
        read_prg_mapper212_pre(c, addr)
    } else if c.mapper == 226 {
        read_prg_mapper226_pre(c, addr)
    } else if c.mapper == 228 {
        read_prg_mapper228_pre(c, addr)
    } else if c.mapper == 242 {
        read_prg_mapper242_pre(c, addr)
    } else if (c.mapper == 2 || c.mapper == 57 || c.mapper == 70 || c.mapper == 71 || c.mapper == 72 || c.mapper == 73 || c.mapper == 81 || c.mapper == 86 || c.mapper == 89 || c.mapper == 93 || c.mapper == 152) {
        read_prg_uxrom_pre(c, addr, rom_addr)
    } else if (c.mapper == 34 || c.mapper == 38 || c.mapper == 41 || c.mapper == 46 || c.mapper == 77 || c.mapper == 79 || c.mapper == 113 || c.mapper == 133 || c.mapper == 140 || c.mapper == 144 || c.mapper == 146 || c.mapper == 147 || c.mapper == 148 || c.mapper == 201 || c.mapper == 240 || c.mapper == 241 || c.mapper == 243) {
        read_prg_axrom_pre(c, addr)
    } else if c.mapper == 50 {
        true
    } else if (c.mapper == 58 || c.mapper == 213) {
        read_prg_mapper58_pre(c, addr)
    } else if c.mapper == 229 {
        read_prg_mapper229_pre(c, addr)
    } else if (c.mapper == 92 || c.mapper == 180) {
        read_prg_uxrom_inverted_pre(c, addr, rom_addr)
    } else if c.mapper == 97 {
        read_prg_fixed_last_switch_high_pre(c, addr, rom_addr)
    } else if c.mapper == 137 {
        read_prg_axrom_pre(c, addr)
    } else if c.mapper == 191 {
        true
    } else if (c.mapper == 4 || c.mapper == 74 || c.mapper == 118 || c.mapper == 119 || c.mapper == 192 || c.mapper == 194 || c.mapper == 195 || c.mapper == 250) {
        read_prg_mmc3_pre(c, addr)
    } else if c.mapper == 189 {
        read_prg_axrom_pre(c, addr)
    } else if c.mapper == 245 {
        true
    } else if c.mapper == 68 {
        true
    } else if (c.mapper == 80 || c.mapper == 207) {
        true
    } else if c.mapper == 82 {
        true
    } else if (c.mapper == 76 || c.mapper == 88 || c.mapper == 95 || c.mapper == 154 || c.mapper == 206) {
        true
    } else if (c.mapper == 7 || c.mapper == 11 || c.mapper == 66 || c.mapper == 107) {
        read_prg_axrom_pre(c, addr)
    } else if (c.mapper == 78 || c.mapper == 94) {
        read_prg_uxrom_pre(c, addr, rom_addr)
    } else if (c.mapper == 9 || c.mapper == 10) {
        read_prg_mmc2_pre(c, addr, rom_addr)
    } else if (c.mapper == 16 || c.mapper == 153 || c.mapper == 159) {
        true
    } else if c.mapper == 69 {
        true
    } else {
        true
    }
}

/// The cartridge after a CPU write of $8000-$FFFF, by board.
pub open spec fn prg_written(c0: Cartridge, c1: Cartridge, addr: u16, data: u8) -> bool {
    if c0.mapper == 0 {
        c1 == c0
    } else if c0.mapper == 21 {
        write_prg_mapper23_post(c0, c1, addr, data)
    } else if c0.mapper == 22 {
        write_prg_mapper23_post(c0, c1, addr, data)
    } else if c0.mapper == 23 {
        write_prg_mapper23_post(c0, c1, addr, data)
    } else if (c0.mapper == 24 || c0.mapper == 26) {
        write_prg_vrc6_post(c0, c1, addr, data)
    } else if c0.mapper == 25 {
        write_prg_mapper23_post(c0, c1, addr, data)
    } else if c0.mapper == 19 {
        write_prg_namco163_post(c0, c1, addr, data)
    } else if c0.mapper == 5 {
        write_prg_mmc5_post(c0, c1, addr, data)
    } else if c0.mapper == 40 {
        write_prg_mapper40_post(c0, c1, addr, data)
    } else if c0.mapper == 42 {
        write_prg_mapper42_post(c0, c1, addr, data)
    } else if c0.mapper == 43 {
        write_prg_mapper43_post(c0, c1, addr, data)
    } else if c0.mapper == 1 {
        write_prg_mmc1_post(c0, c1, addr, data)
    } else if c0.mapper == 50 {
        write_prg_mapper50_post(c0, c1, addr, data)
    } else if c0.mapper == 73 {
        write_prg_vrc3_post(c0, c1, addr, data)
    } else if c0.mapper == 208 {
        write_prg_mapper208_post(c0, c1, addr, data)
    } else if c0.mapper == 33 {
        write_prg_taito_tc0190_post(c0, c1, addr, data)
    } else if c0.mapper == 221 {
        write_prg_mapper221_post(c0, c1, addr)
    } else if c0.mapper == 2 {
        write_prg_uxrom_post(c0, c1, addr, data)
    } else if (c0.mapper == 225 || c0.mapper == 255) {
        write_prg_mapper225_post(c0, c1, addr, data)
    } else if c0.mapper == 230 {
        write_prg_mapper230_post(c0, c1, addr, data)
    } else if c0.mapper == 227 {
        write_prg_mapper227_post(c0, c1, addr)
    } else if c0.mapper == 231 {
        write_prg_mapper231_post(c0, c1, addr)
    } else if c0.mapper == 41 {
        write_prg_mapper41_post(c0, c1, addr, data)
    } else if c0.mapper == 233 {
        write_prg_mapper233_post(c0, c1, addr, data)
    } else if c0.mapper == 234 {
        write_prg_mapper234_post(c0, c1, addr, data)
    } else if c0.mapper == 235 {
        write_prg_mapper235_post(c0, c1, addr, data)
    } else if (c0.mapper == 3 || c0.mapper == 185) {
        write_prg_cnrom_post(c0, c1, addr, data)
    } else if c0.mapper == 13 {
        write_prg_cprom_post(c0, c1, addr, data)
    } else if c0.mapper == 34 && c0.mapper34_nina001 {
        c1 == c0
    } else if c0.mapper == 191 {
        write_prg_mapper191_post(c0, c1, addr, data)
    } else if (c0.mapper == 4 || c0.mapper == 37 || c0.mapper == 47 || c0.mapper == 74 || c0.mapper == 115 || c0.mapper == 118 || c0.mapper == 119 || c0.mapper == 192 || c0.mapper == 194 || c0.mapper == 195 || c0.mapper == 205 || c0.mapper == 245 || c0.mapper == 248) {
        write_prg_mmc3_post(c0, c1, addr, data)
    } else if c0.mapper == 250 {
        write_prg_mapper250_post(c0, c1, addr, data)
    } else if c0.mapper == 60 {
        c1 == c0
    } else if c0.mapper == 137 {
        write_prg_mapper137_post(c0, c1, addr, data)
    } else if c0.mapper == 142 {
        write_prg_mapper142_post(c0, c1, addr, data)
    } else if c0.mapper == 150 {
        write_prg_mapper150_post(c0, c1, addr, data)
    } else if (c0.mapper == 58 || c0.mapper == 213) {
        write_prg_mapper58_post(c0, c1, addr)
    } else if c0.mapper == 68 {
        write_prg_sunsoft4_post(c0, c1, addr, data)
    } else if (c0.mapper == 76 || c0.mapper == 88 || c0.mapper == 95 || c0.mapper == 154 || c0.mapper == 206 || c0.mapper == 112) {
        write_prg_namco108_post(c0, c1, addr, data)
    } else if c0.mapper == 7 {
        write_prg_axrom_post(c0, c1, addr, data)
    } else if c0.mapper == 200 {
        write_prg_mapper200_post(c0, c1, addr)
    } else if c0.mapper == 201 {
        write_prg_mapper201_post(c0, c1, addr)
    } else if c0.mapper == 202 {
        write_prg_mapper202_post(c0, c1, addr)
    } else if c0.mapper == 203 {
        write_prg_mapper203_post(c0, c1, addr, data)
    } else if c0.mapper == 212 {
        write_prg_mapper212_post(c0, c1, addr)
    } else if c0.mapper == 226 {
        write_prg_mapper226_post(c0, c1, addr, data)
    } else if c0.mapper == 228 {
        write_prg_mapper228_post(c0, c1, addr, data)
    } else if c0.mapper == 229 {
        write_prg_mapper229_post(c0, c1, addr)
    } else if c0.mapper == 242 {
        write_prg_mapper242_post(c0, c1, addr)
    } else if c0.mapper == 243 {
        write_prg_mapper243_post(c0, c1, addr, data)
    } else if (c0.mapper == 79 || c0.mapper == 146) {
        write_prg_mapper79_146_post(c0, c1, addr, data)
    } else if c0.mapper == 133 {
        write_prg_mapper133_post(c0, c1, addr, data)
    } else if c0.mapper == 113 {
        write_prg_mapper113_post(c0, c1, addr, data)
    } else if c0.mapper == 11 {
        write_prg_color_dreams_post(c0, c1, addr, data)
    } else if c0.mapper == 89 {
        write_prg_mapper89_post(c0, c1, addr, data)
    } else if c0.mapper == 93 {
        write_prg_mapper93_post(c0, c1, addr, data)
    } else if c0.mapper == 70 {
        write_prg_mapper70_post(c0, c1, addr, data)
    } else if c0.mapper == 71 {
        write_prg_camerica_post(c0, c1, addr, data)
    } else if c0.mapper == 81 {
        write_prg_mapper81_post(c0, c1, addr)
    } else if c0.mapper == 97 {
        write_prg_mapper97_post(c0, c1, addr, data)
    } else if c0.mapper == 80 {
        c1 == c0
    } else if c0.mapper == 147 {
        write_prg_mapper147_post(c0, c1, addr, data)
    } else if c0.mapper == 148 {
        write_prg_mapper148_post(c0, c1, addr, data)
    } else if c0.mapper == 152 {
        write_prg_mapper152_post(c0, c1, addr, data)
    } else if c0.mapper == 180 {
        write_prg_uxrom_inverted_post(c0, c1, addr, data)
    } else if (c0.mapper == 9 || c0.mapper == 10) {
        write_prg_mmc2_post(c0, c1, addr, data)
    } else if (c0.mapper == 16 || c0.mapper == 153 || c0.mapper == 159) {
        write_prg_bandai_post(c0, c1, addr, data)
    } else if c0.mapper == 69 {
        write_prg_fme7_post(c0, c1, addr, data)
    } else if c0.mapper == 87 {
        write_prg_mapper87_post(c0, c1, addr, data)
    } else {
        c1 == c0
    }
}

/// What a CPU write of $8000-$FFFF needs of the board.
pub open spec fn prg_write_ok(c0: Cartridge, addr: u16, data: u8) -> bool {
    if c0.mapper == 0 {
        true
    } else if c0.mapper == 21 {
        write_prg_mapper23_pre(c0, addr, data)
    } else if c0.mapper == 22 {
        write_prg_mapper23_pre(c0, addr, data)
    } else if c0.mapper == 23 {
        write_prg_mapper23_pre(c0, addr, data)
    } else if (c0.mapper == 24 || c0.mapper == 26) {
        true
    } else if c0.mapper == 25 {
        write_prg_mapper23_pre(c0, addr, data)
    } else if c0.mapper == 19 {
        true
    } else if c0.mapper == 5 {
        true
    } else if c0.mapper == 40 {
        true
    } else if c0.mapper == 42 {
        true
    } else if c0.mapper == 43 {
        true
    } else if c0.mapper == 1 {
        true
    } else if c0.mapper == 50 {
        true
    } else if c0.mapper == 73 {
        true
    } else if c0.mapper == 208 {
        true
    } else if c0.mapper == 33 {
        true
    } else if c0.mapper == 221 {
        true
    } else if c0.mapper == 2 {
        write_prg_uxrom_pre(c0, addr, data)
    } else if (c0.mapper == 225 || c0.mapper == 255) {
        write_prg_mapper225_pre(c0, addr, data)
    } else if c0.mapper == 230 {
        true
    } else if c0.mapper == 227 {
        true
    } else if c0.mapper == 231 {
        true
    } else if c0.mapper == 41 {
        write_prg_mapper41_pre(c0, addr, data)
    } else if c0.mapper == 233 {
        true
    } else if c0.mapper == 234 {
        write_prg_mapper234_pre(c0, addr, data)
    } else if c0.mapper == 235 {
        true
    } else if (c0.mapper == 3 || c0.mapper == 185) {
        write_prg_cnrom_pre(c0, addr, data)
    } else if c0.mapper == 13 {
        true
    } else if c0.mapper == 34 && c0.mapper34_nina001 {
        true
    } else if c0.mapper == 191 {
        true
    } else if (c0.mapper == 4 || c0.mapper == 37 || c0.mapper == 47 || c0.mapper == 74 || c0.mapper == 115 || c0.mapper == 118 || c0.mapper == 119 || c0.mapper == 192 || c0.mapper == 194 || c0.mapper == 195 || c0.mapper == 205 || c0.mapper == 245 || c0.mapper == 248) {
        true
    } else if c0.mapper == 250 {
        true
    } else if c0.mapper == 60 {
        true
    } else if c0.mapper == 137 {
        true
    } else if c0.mapper == 142 {
        true
    } else if c0.mapper == 150 {
        true
    } else if (c0.mapper == 58 || c0.mapper == 213) {
        true
    } else if c0.mapper == 68 {
        true
    } else if (c0.mapper == 76 || c0.mapper == 88 || c0.mapper == 95 || c0.mapper == 154 || c0.mapper == 206 || c0.mapper == 112) {
        true
    } else if c0.mapper == 7 {
        true
    } else if c0.mapper == 200 {
        true
    } else if c0.mapper == 201 {
        true
    } else if c0.mapper == 202 {
        true
    } else if c0.mapper == 203 {
        true
    } else if c0.mapper == 212 {
        true
    } else if c0.mapper == 226 {
        true
    } else if c0.mapper == 228 {
        true
    } else if c0.mapper == 229 {
        true
    } else if c0.mapper == 242 {
        true
    } else if c0.mapper == 243 {
        true
    } else if (c0.mapper == 79 || c0.mapper == 146) {
        true
    } else if c0.mapper == 133 {
        true
    } else if c0.mapper == 113 {
        true
    } else if c0.mapper == 11 {
        true
    } else if c0.mapper == 89 {
        true
    } else if c0.mapper == 93 {
        true
    } else if c0.mapper == 70 {
        true
    } else if c0.mapper == 71 {
        true
    } else if c0.mapper == 81 {
        true
    } else if c0.mapper == 97 {
        true
    } else if c0.mapper == 80 {
        true
    } else if c0.mapper == 147 {
        true
    } else if c0.mapper == 148 {
        true
    } else if c0.mapper == 152 {
        true
    } else if c0.mapper == 180 {
        true
    } else if (c0.mapper == 9 || c0.mapper == 10) {
        true
    } else if (c0.mapper == 16 || c0.mapper == 153 || c0.mapper == 159) {
        true
    } else if c0.mapper == 69 {
        write_prg_fme7_pre(c0, addr, data)
    } else if c0.mapper == 87 {
        true
    } else {
        true
    }
}

/// A PPU pattern read from `c0` to `c1` giving `r`, by board (the MMC2's
/// latches move on a fetch).
pub open spec fn chr_read(c0: Cartridge, c1: Cartridge, addr: u16, r: u8) -> bool {
    if c0.mapper == 21 {
        r == read_chr_mapper23_value(c0, addr) && c1 == c0
    } else if c0.mapper == 22 {
        r == read_chr_mapper23_value(c0, addr) && c1 == c0
    } else if c0.mapper == 23 {
        r == read_chr_mapper23_value(c0, addr) && c1 == c0
    } else if (c0.mapper == 24 || c0.mapper == 26) {
        r == read_chr_vrc6_value(c0, addr) && c1 == c0
    } else if c0.mapper == 25 {
        r == read_chr_mapper23_value(c0, addr) && c1 == c0
    } else if c0.mapper == 19 {
        r == read_chr_namco163_value(c0, addr) && c1 == c0
    } else if c0.mapper == 5 {
        r == read_chr_mmc5_value(c0, addr) && c1 == c0
    } else if (c0.mapper == 0 || c0.mapper == 43 || c0.mapper == 97 || c0.mapper == 103 || c0.mapper == 226 || c0.mapper == 241 || c0.mapper == 242) {
        r == read_chr_nrom_value(c0, addr) && c1 == c0
    } else if c0.mapper == 1 {
        r == read_chr_mmc1_value(c0, addr) && c1 == c0
    } else if (c0.mapper == 2 || c0.mapper == 7 || c0.mapper == 15 || c0.mapper == 40 || c0.mapper == 42 || c0.mapper == 50 || c0.mapper == 71 || c0.mapper == 73 || c0.mapper == 94 || c0.mapper == 180 || c0.mapper == 227 || c0.mapper == 230 || c0.mapper == 232 || c0.mapper == 235) {
        r == read_chr_uxrom_value(c0, addr) && c1 == c0
    } else if c0.mapper == 221 {
        r == read_chr_mapper221_value(c0, addr) && c1 == c0
    } else if c0.mapper == 231 {
        r == read_chr_mapper231_value(c0, addr) && c1 == c0
    } else if c0.mapper == 13 {
        r == read_chr_cprom_value(c0, addr) && c1 == c0
    } else if c0.mapper == 33 {
        r == read_chr_taito_tc0190_value(c0, addr) && c1 == c0
    } else if c0.mapper == 34 {
        r == read_chr_nrom_value(c0, addr) && c1 == c0
    } else if (c0.mapper == 3 || c0.mapper == 11 || c0.mapper == 38 || c0.mapper == 41 || c0.mapper == 46 || c0.mapper == 57 || c0.mapper == 58 || c0.mapper == 59 || c0.mapper == 60 || c0.mapper == 61 || c0.mapper == 66 || c0.mapper == 70 || c0.mapper == 72 || c0.mapper == 78 || c0.mapper == 79 || c0.mapper == 81 || c0.mapper == 86 || c0.mapper == 89 || c0.mapper == 92 || c0.mapper == 101 || c0.mapper == 107 || c0.mapper == 113 || c0.mapper == 133 || c0.mapper == 140 || c0.mapper == 144 || c0.mapper == 145 || c0.mapper == 146 || c0.mapper == 147 || c0.mapper == 148 || c0.mapper == 152 || c0.mapper == 200 || c0.mapper == 201 || c0.mapper == 202 || c0.mapper == 203 || c0.mapper == 212 || c0.mapper == 213 || c0.mapper == 225 || c0.mapper == 228 || c0.mapper == 229 || c0.mapper == 233 || c0.mapper == 234 || c0.mapper == 240 || c0.mapper == 243 || c0.mapper == 255 || c0.mapper == 87) {
        r == read_chr_cnrom_value(c0, addr) && c1 == c0
    } else if c0.mapper == 137 {
        r == read_chr_mapper137_value(c0, addr) && c1 == c0
    } else if c0.mapper == 142 {
        r == read_chr_nrom_value(c0, addr) && c1 == c0
    } else if c0.mapper == 150 {
        r == read_chr_cnrom_value(c0, addr) && c1 == c0
    } else if c0.mapper == 189 {
        r == read_chr_mmc3_value(c0, addr) && c1 == c0
    } else if c0.mapper == 93 {
        r == read_chr_mapper93_value(c0, addr) && c1 == c0
    } else if (c0.mapper == 4 || c0.mapper == 118 || c0.mapper == 208 || c0.mapper == 250) {
        r == read_chr_mmc3_value(c0, addr) && c1 == c0
    } else if c0.mapper == 48 {
        r == read_chr_taito_tc0190_value(c0, addr) && c1 == c0
    } else if c0.mapper == 123 {
        r == read_chr_mmc3_value(c0, addr) && c1 == c0
    } else if c0.mapper == 74 {
        r == read_chr_mapper74_value(c0, addr) && c1 == c0
    } else if c0.mapper == 119 {
        r == read_chr_mapper119_value(c0, addr) && c1 == c0
    } else if c0.mapper == 191 {
        r == read_chr_mapper191_value(c0, addr) && c1 == c0
    } else if c0.mapper == 192 {
        r == read_chr_mapper192_value(c0, addr) && c1 == c0
    } else if c0.mapper == 194 {
        r == read_chr_mapper194_value(c0, addr) && c1 == c0
    } else if c0.mapper == 195 {
        r == read_chr_mapper195_value(c0, addr) && c1 == c0
    } else if c0.mapper == 245 {
        r == read_chr_mapper245_value(c0, addr) && c1 == c0
    } else if c0.mapper == 68 {
        r == read_chr_sunsoft4_value(c0, addr) && c1 == c0
    } else if (c0.mapper == 80 || c0.mapper == 207) {
        r == read_chr_taito_x1005_value(c0, addr) && c1 == c0
    } else if c0.mapper == 82 {
        r == read_chr_taito_x1017_value(c0, addr) && c1 == c0
    } else if (c0.mapper == 76 || c0.mapper == 88 || c0.mapper == 95 || c0.mapper == 154 || c0.mapper == 206 || c0.mapper == 112) {
        r == read_chr_namco108_value(c0, addr) && c1 == c0
    } else if (c0.mapper == 9 || c0.mapper == 10) {
        read_chr_mmc2_post(c0, c1, addr, r)
    } else if (c0.mapper == 16 || c0.mapper == 153 || c0.mapper == 159) {
        r == read_chr_bandai_value(c0, addr) && c1 == c0
    } else if c0.mapper == 69 {
        r == read_chr_fme7_value(c0, addr) && c1 == c0
    } else {
        r == read_chr_nrom_value(c0, addr) && c1 == c0
    }
}

/// What a PPU pattern read needs of the board.
pub open spec fn chr_read_ok(c0: Cartridge, addr: u16) -> bool {
    if c0.mapper == 21 {
        true
    } else if c0.mapper == 22 {
        true
    } else if c0.mapper == 23 {
        true
    } else if (c0.mapper == 24 || c0.mapper == 26) {
        true
    } else if c0.mapper == 25 {
        true
    } else if c0.mapper == 19 {
        true
    } else if c0.mapper == 5 {
        true
    } else if (c0.mapper == 0 || c0.mapper == 43 || c0.mapper == 97 || c0.mapper == 103 || c0.mapper == 226 || c0.mapper == 241 || c0.mapper == 242) {
        true
    } else if c0.mapper == 1 {
        true
    } else if (c0.mapper == 2 || c0.mapper == 7 || c0.mapper == 15 || c0.mapper == 40 || c0.mapper == 42 || c0.mapper == 50 || c0.mapper == 71 || c0.mapper == 73 || c0.mapper == 94 || c0.mapper == 180 || c0.mapper == 227 || c0.mapper == 230 || c0.mapper == 232 || c0.mapper == 235) {
        true
    } else if c0.mapper == 221 {
        true
    } else if c0.mapper == 231 {
        true
    } else if c0.mapper == 13 {
        true
    } else if c0.mapper == 33 {
        true
    } else if c0.mapper == 34 {
        true
    } else if (c0.mapper == 3 || c0.mapper == 11 || c0.mapper == 38 || c0.mapper == 41 || c0.mapper == 46 || c0.mapper == 57 || c0.mapper == 58 || c0.mapper == 59 || c0.mapper == 60 || c0.mapper == 61 || c0.mapper == 66 || c0.mapper == 70 || c0.mapper == 72 || c0.mapper == 78 || c0.mapper == 79 || c0.mapper == 81 || c0.mapper == 86 || c0.mapper == 89 || c0.mapper == 92 || c0.mapper == 101 || c0.mapper == 107 || c0.mapper == 113 || c0.mapper == 133 || c0.mapper == 140 || c0.mapper == 144 || c0.mapper == 145 || c0.mapper == 146 || c0.mapper == 147 || c0.mapper == 148 || c0.mapper == 152 || c0.mapper == 200 || c0.mapper == 201 || c0.mapper == 202 || c0.mapper == 203 || c0.mapper == 212 || c0.mapper == 213 || c0.mapper == 225 || c0.mapper == 228 || c0.mapper == 229 || c0.mapper == 233 || c0.mapper == 234 || c0.mapper == 240 || c0.mapper == 243 || c0.mapper == 255 || c0.mapper == 87) {
        true
    } else if c0.mapper == 137 {
        true
    } else if c0.mapper == 142 {
        true
    } else if c0.mapper == 150 {
        true
    } else if c0.mapper == 189 {
        true
    } else if c0.mapper == 93 {
        true
    } else if (c0.mapper == 4 || c0.mapper == 118 || c0.mapper == 208 || c0.mapper == 250) {
        true
    } else if c0.mapper == 48 {
        true
    } else if c0.mapper == 123 {
        true
    } else if c0.mapper == 74 {
        true
    } else if c0.mapper == 119 {
        true
    } else if c0.mapper == 191 {
        true
    } else if c0.mapper == 192 {
        true
    } else if c0.mapper == 194 {
        true
    } else if c0.mapper == 195 {
        true
    } else if c0.mapper == 245 {
        true
    } else if c0.mapper == 68 {
        true
    } else if (c0.mapper == 80 || c0.mapper == 207) {
        true
    } else if c0.mapper == 82 {
        true
    } else if (c0.mapper == 76 || c0.mapper == 88 || c0.mapper == 95 || c0.mapper == 154 || c0.mapper == 206 || c0.mapper == 112) {
        true
    } else if (c0.mapper == 9 || c0.mapper == 10) {
        true
    } else if (c0.mapper == 16 || c0.mapper == 153 || c0.mapper == 159) {
        true
    } else if c0.mapper == 69 {
        true
    } else {
        true
    }
}

/// The cartridge after a PPU pattern write, by board.
pub open spec fn chr_written(c0: Cartridge, c1: Cartridge, addr: u16, data: u8) -> bool {
    if c0.mapper == 21 {
        write_chr_mapper23_post(c0, c1, addr, data)
    } else if c0.mapper == 22 {
        write_chr_mapper23_post(c0, c1, addr, data)
    } else if c0.mapper == 23 {
        write_chr_mapper23_post(c0, c1, addr, data)
    } else if (c0.mapper == 24 || c0.mapper == 26) {
        write_chr_vrc6_post(c0, c1, addr, data)
    } else if c0.mapper == 25 {
        write_chr_mapper23_post(c0, c1, addr, data)
    } else if c0.mapper == 19 {
        write_chr_namco163_post(c0, c1, addr, data)
    } else if c0.mapper == 5 {
        write_chr_mmc5_post(c0, c1, addr, data)
    } else if (c0.mapper == 0 || c0.mapper == 43 || c0.mapper == 97 || c0.mapper == 103 || c0.mapper == 226 || c0.mapper == 241) {
        write_chr_nrom_post(c0, c1, addr, data)
    } else if c0.mapper == 1 {
        write_chr_mmc1_post(c0, c1, addr, data)
    } else if (c0.mapper == 2 || c0.mapper == 7 || c0.mapper == 15 || c0.mapper == 40 || c0.mapper == 42 || c0.mapper == 50 || c0.mapper == 71 || c0.mapper == 73 || c0.mapper == 94 || c0.mapper == 180 || c0.mapper == 230 || c0.mapper == 232 || c0.mapper == 235) {
        write_chr_uxrom_post(c0, c1, addr, data)
    } else if c0.mapper == 221 {
        write_chr_mapper221_post(c0, c1, addr, data)
    } else if c0.mapper == 227 {
        write_chr_mapper227_post(c0, c1, addr, data)
    } else if c0.mapper == 231 {
        write_chr_mapper231_post(c0, c1, addr, data)
    } else if c0.mapper == 13 {
        write_chr_cprom_post(c0, c1, addr, data)
    } else if c0.mapper == 33 {
        write_chr_taito_tc0190_post(c0, c1, addr, data)
    } else if c0.mapper == 34 {
        write_chr_nrom_post(c0, c1, addr, data)
    } else if (c0.mapper == 3 || c0.mapper == 11 || c0.mapper == 38 || c0.mapper == 41 || c0.mapper == 46 || c0.mapper == 57 || c0.mapper == 58 || c0.mapper == 59 || c0.mapper == 60 || c0.mapper == 61 || c0.mapper == 66 || c0.mapper == 70 || c0.mapper == 72 || c0.mapper == 78 || c0.mapper == 79 || c0.mapper == 81 || c0.mapper == 86 || c0.mapper == 89 || c0.mapper == 92 || c0.mapper == 101 || c0.mapper == 107 || c0.mapper == 113 || c0.mapper == 133 || c0.mapper == 140 || c0.mapper == 144 || c0.mapper == 145 || c0.mapper == 146 || c0.mapper == 147 || c0.mapper == 148 || c0.mapper == 152 || c0.mapper == 200 || c0.mapper == 201 || c0.mapper == 202 || c0.mapper == 203 || c0.mapper == 212 || c0.mapper == 213 || c0.mapper == 225 || c0.mapper == 228 || c0.mapper == 229 || c0.mapper == 233 || c0.mapper == 234 || c0.mapper == 240 || c0.mapper == 243 || c0.mapper == 255 || c0.mapper == 87) {
        write_chr_cnrom_post(c0, c1, addr, data)
    } else if c0.mapper == 99 {
        c1 == c0
    } else if c0.mapper == 137 {
        write_chr_mapper137_post(c0, c1, addr, data)
    } else if c0.mapper == 142 {
        write_chr_nrom_post(c0, c1, addr, data)
    } else if c0.mapper == 150 {
        write_chr_cnrom_post(c0, c1, addr, data)
    } else if c0.mapper == 189 {
        write_chr_mmc3_post(c0, c1, addr, data)
    } else if c0.mapper == 242 {
        write_chr_mapper242_post(c0, c1, addr, data)
    } else if c0.mapper == 93 {
        write_chr_mapper93_post(c0, c1, addr, data)
    } else if (c0.mapper == 4 || c0.mapper == 118 || c0.mapper == 208 || c0.mapper == 250) {
        write_chr_mmc3_post(c0, c1, addr, data)
    } else if c0.mapper == 48 {
        write_chr_taito_tc0190_post(c0, c1, addr, data)
    } else if c0.mapper == 123 {
        write_chr_mmc3_post(c0, c1, addr, data)
    } else if c0.mapper == 74 {
        write_chr_mapper74_post(c0, c1, addr, data)
    } else if c0.mapper == 119 {
        write_chr_mapper119_post(c0, c1, addr, data)
    } else if c0.mapper == 191 {
        write_chr_mapper191_post(c0, c1, addr, data)
    } else if c0.mapper == 192 {
        write_chr_mapper192_post(c0, c1, addr, data)
    } else if c0.mapper == 194 {
        write_chr_mapper194_post(c0, c1, addr, data)
    } else if c0.mapper == 195 {
        write_chr_mapper195_post(c0, c1, addr, data)
    } else if c0.mapper == 245 {
        write_chr_mapper245_post(c0, c1, addr, data)
    } else if c0.mapper == 68 {
        write_chr_sunsoft4_post(c0, c1, addr, data)
    } else if (c0.mapper == 80 || c0.mapper == 207) {
        write_chr_taito_x1005_post(c0, c1, addr, data)
    } else if c0.mapper == 82 {
        write_chr_taito_x1017_post(c0, c1, addr, data)
    } else if c0.mapper == 246 {
        c1 == c0
    } else if (c0.mapper == 76 || c0.mapper == 88 || c0.mapper == 95 || c0.mapper == 154 || c0.mapper == 206 || c0.mapper == 112) {
        write_chr_namco108_post(c0, c1, addr, data)
    } else if (c0.mapper == 9 || c0.mapper == 10) {
        write_chr_mmc2_post(c0, c1, addr, data)
    } else if (c0.mapper == 16 || c0.mapper == 153 || c0.mapper == 159) {
        write_chr_bandai_post(c0, c1, addr, data)
    } else if c0.mapper == 69 {
        write_chr_fme7_post(c0, c1, addr, data)
    } else {
        write_chr_default_post(c0, c1, addr, data)
    }
}

/// What a PPU pattern write needs of the board.
pub open spec fn chr_write_ok(c0: Cartridge, addr: u16, data: u8) -> bool {
    if c0.mapper == 21 {
        true
    } else if c0.mapper == 22 {
        true
    } else if c0.mapper == 23 {
        true
    } else if (c0.mapper == 24 || c0.mapper == 26) {
        true
    } else if c0.mapper == 25 {
        true
    } else if c0.mapper == 19 {
        true
    } else if c0.mapper == 5 {
        true
    } else if (c0.mapper == 0 || c0.mapper == 43 || c0.mapper == 97 || c0.mapper == 103 || c0.mapper == 226 || c0.mapper == 241) {
        true
    } else if c0.mapper == 1 {
        true
    } else if (c0.mapper == 2 || c0.mapper == 7 || c0.mapper == 15 || c0.mapper == 40 || c0.mapper == 42 || c0.mapper == 50 || c0.mapper == 71 || c0.mapper == 73 || c0.mapper == 94 || c0.mapper == 180 || c0.mapper == 230 || c0.mapper == 232 || c0.mapper == 235) {
        true
    } else if c0.mapper == 221 {
        true
    } else if c0.mapper == 227 {
        true
    } else if c0.mapper == 231 {
        true
    } else if c0.mapper == 13 {
        true
    } else if c0.mapper == 33 {
        true
    } else if c0.mapper == 34 {
        true
    } else if (c0.mapper == 3 || c0.mapper == 11 || c0.mapper == 38 || c0.mapper == 41 || c0.mapper == 46 || c0.mapper == 57 || c0.mapper == 58 || c0.mapper == 59 || c0.mapper == 60 || c0.mapper == 61 || c0.mapper == 66 || c0.mapper == 70 || c0.mapper == 72 || c0.mapper == 78 || c0.mapper == 79 || c0.mapper == 81 || c0.mapper == 86 || c0.mapper == 89 || c0.mapper == 92 || c0.mapper == 101 || c0.mapper == 107 || c0.mapper == 113 || c0.mapper == 133 || c0.mapper == 140 || c0.mapper == 144 || c0.mapper == 145 || c0.mapper == 146 || c0.mapper == 147 || c0.mapper == 148 || c0.mapper == 152 || c0.mapper == 200 || c0.mapper == 201 || c0.mapper == 202 || c0.mapper == 203 || c0.mapper == 212 || c0.mapper == 213 || c0.mapper == 225 || c0.mapper == 228 || c0.mapper == 229 || c0.mapper == 233 || c0.mapper == 234 || c0.mapper == 240 || c0.mapper == 243 || c0.mapper == 255 || c0.mapper == 87) {
        true
    } else if c0.mapper == 99 {
        true
    } else if c0.mapper == 137 {
        true
    } else if c0.mapper == 142 {
        true
    } else if c0.mapper == 150 {
        true
    } else if c0.mapper == 189 {
        true
    } else if c0.mapper == 242 {
        true
    } else if c0.mapper == 93 {
        true
    } else if (c0.mapper == 4 || c0.mapper == 118 || c0.mapper == 208 || c0.mapper == 250) {
        true
    } else if c0.mapper == 48 {
        true
    } else if c0.mapper == 123 {
        true
    } else if c0.mapper == 74 {
        true
    } else if c0.mapper == 119 {
        true
    } else if c0.mapper == 191 {
        true
    } else if c0.mapper == 192 {
        true
    } else if c0.mapper == 194 {
        true
    } else if c0.mapper == 195 {
        true
    } else if c0.mapper == 245 {
        true
    } else if c0.mapper == 68 {
        true
    } else if (c0.mapper == 80 || c0.mapper == 207) {
        true
    } else if c0.mapper == 82 {
        true
    } else if c0.mapper == 246 {
        true
    } else if (c0.mapper == 76 || c0.mapper == 88 || c0.mapper == 95 || c0.mapper == 154 || c0.mapper == 206 || c0.mapper == 112) {
        true
    } else if (c0.mapper == 9 || c0.mapper == 10) {
        true
    } else if (c0.mapper == 16 || c0.mapper == 153 || c0.mapper == 159) {
        true
    } else if c0.mapper == 69 {
        true
    } else {
        write_chr_default_pre(c0, addr, data)
    }
}

/// The byte a CPU read of $6000-$7FFF gives, by board.
pub open spec fn prg_ram_read_value(c: Cartridge, addr: u16) -> u8 {
    if c.mapper == 21 {
        read_prg_ram_mapper23_value(c, addr)
    } else if c.mapper == 22 {
        read_prg_ram_mapper23_value(c, addr)
    } else if c.mapper == 23 {
        read_prg_ram_mapper23_value(c, addr)
    } else if (c.mapper == 24 || c.mapper == 26) {
        read_prg_ram_vrc6_value(c, addr)
    } else if c.mapper == 25 {
        read_prg_ram_mapper23_value(c, addr)
    } else if c.mapper == 19 {
        read_prg_ram_namco163_value(c, addr)
    } else if c.mapper == 5 {
        read_prg_ram_mmc5_value(c, addr)
    } else if c.mapper == 1 {
        read_prg_ram_mmc1_value(c, addr)
    } else if c.mapper == 40 {
        read_prg_ram_mapper40_value(c, addr)
    } else if c.mapper == 42 {
        read_prg_ram_mapper42_value(c, addr)
    } else if c.mapper == 43 {
        read_prg_ram_mapper43_value(c, addr)
    } else if c.mapper == 50 {
        read_prg_ram_mapper50_value(c, addr)
    } else if c.mapper == 73 {
        read_prg_ram_vrc3_value(c, addr)
    } else if c.mapper == 142 {
        read_prg_ram_mapper142_value(c, addr)
    } else if (c.mapper == 80 || c.mapper == 207) {
        read_prg_ram_taito_x1005_value(c, addr)
    } else if c.mapper == 82 {
        read_prg_ram_taito_x1017_value(c, addr)
    } else if c.mapper == 227 {
        read_prg_ram_direct_value(c, addr)
    } else if c.mapper == 212 {
        0x80
    } else if c.mapper == 241 {
        read_prg_ram_direct_value(c, addr)
    } else if c.mapper == 34 && c.mapper34_nina001 {
        read_prg_ram_direct_value(c, addr)
    } else if (c.mapper == 4 || c.mapper == 74 || c.mapper == 118 || c.mapper == 119 || c.mapper == 192 || c.mapper == 194 || c.mapper == 245 || c.mapper == 250) {
        read_prg_ram_mmc3_value(c, addr)
    } else if c.mapper == 68 {
        read_prg_ram_sunsoft4_value(c, addr)
    } else if c.mapper == 240 {
        read_prg_ram_direct_value(c, addr)
    } else if (c.mapper == 9 || c.mapper == 10) {
        read_prg_ram_mmc2_value(c, addr)
    } else if (c.mapper == 16 || c.mapper == 153 || c.mapper == 159) {
        read_prg_ram_bandai_value(c, addr)
    } else if c.mapper == 69 {
        read_prg_ram_fme7_value(c, addr)
    } else {
        0
    }
}

/// What a CPU read of $6000-$7FFF needs of the board.
pub open spec fn prg_ram_read_ok(c: Cartridge, addr: u16) -> bool {
    if c.mapper == 21 {
        read_prg_ram_mapper23_pre(c, addr)
    } else if c.mapper == 22 {
        read_prg_ram_mapper23_pre(c, addr)
    } else if c.mapper == 23 {
        read_prg_ram_mapper23_pre(c, addr)
    } else if (c.mapper == 24 || c.mapper == 26) {
        true
    } else if c.mapper == 25 {
        read_prg_ram_mapper23_pre(c, addr)
    } else if c.mapper == 19 {
        read_prg_ram_namco163_pre(c, addr)
    } else if c.mapper == 5 {
        true
    } else if c.mapper == 1 {
        read_prg_ram_mmc1_pre(c, addr)
    } else if c.mapper == 40 {
        true
    } else if c.mapper == 42 {
        true
    } else if c.mapper == 43 {
        true
    } else if c.mapper == 50 {
        true
    } else if c.mapper == 73 {
        read_prg_ram_vrc3_pre(c, addr)
    } else if c.mapper == 142 {
        true
    } else if (c.mapper == 80 || c.mapper == 207) {
        true
    } else if c.mapper == 82 {
        true
    } else if c.mapper == 227 {
        read_prg_ram_direct_pre(c, addr)
    } else if c.mapper == 212 {
        true
    } else if c.mapper == 241 {
        read_prg_ram_direct_pre(c, addr)
    } else if c.mapper == 34 && c.mapper34_nina001 {
        read_prg_ram_direct_pre(c, addr)
    } else if (c.mapper == 4 || c.mapper == 74 || c.mapper == 118 || c.mapper == 119 || c.mapper == 192 || c.mapper == 194 || c.mapper == 245 || c.mapper == 250) {
        read_prg_ram_mmc3_pre(c, addr)
    } else if c.mapper == 68 {
        true
    } else if c.mapper == 240 {
        read_prg_ram_direct_pre(c, addr)
    } else if (c.mapper == 9 || c.mapper == 10) {
        read_prg_ram_mmc2_pre(c, addr)
    } else if (c.mapper == 16 || c.mapper == 153 || c.mapper == 159) {
        read_prg_ram_bandai_pre(c, addr)
    } else if c.mapper == 69 {
        read_prg_ram_fme7_pre(c, addr)
    } else {
        true
    }
}

/// The cartridge after a CPU write of $6000-$7FFF, by board.
pub open spec fn prg_ram_written(c0: Cartridge, c1: Cartridge, addr: u16, data: u8) -> bool {
    if c0.mapper == 21 {
        write_prg_ram_mapper23_post(c0, c1, addr, data)
    } else if c0.mapper == 22 {
        write_prg_ram_mapper23_post(c0, c1, addr, data)
    } else if c0.mapper == 23 {
        write_prg_ram_mapper23_post(c0, c1, addr, data)
    } else if (c0.mapper == 24 || c0.mapper == 26) {
        write_prg_ram_vrc6_post(c0, c1, addr, data)
    } else if c0.mapper == 25 {
        write_prg_ram_mapper23_post(c0, c1, addr, data)
    } else if c0.mapper == 19 {
        write_prg_ram_namco163_post(c0, c1, addr, data)
    } else if c0.mapper == 5 {
        write_prg_ram_mmc5_post(c0, c1, addr, data)
    } else if c0.mapper == 41 {
        write_prg_ram_mapper41_post(c0, c1, addr)
    } else if c0.mapper == 87 {
        write_prg_mapper87_post(c0, c1, addr, data)
    } else if c0.mapper == 73 {
        write_prg_ram_vrc3_post(c0, c1, addr, data)
    } else if c0.mapper == 208 {
        write_prg_ram_mapper208_post(c0, c1, addr, data)
    } else if (c0.mapper == 80 || c0.mapper == 207) {
        write_prg_ram_taito_x1005_post(c0, c1, addr, data)
    } else if c0.mapper == 82 {
        write_prg_ram_taito_x1017_post(c0, c1, addr, data)
    } else if c0.mapper == 1 {
        write_prg_ram_mmc1_post(c0, c1, addr, data)
    } else if c0.mapper == 227 {
        write_prg_ram_direct_post(c0, c1, addr, data)
    } else if (c0.mapper == 4 || c0.mapper == 74 || c0.mapper == 118 || c0.mapper == 119 || c0.mapper == 192 || c0.mapper == 194 || c0.mapper == 245 || c0.mapper == 250) {
        write_prg_ram_mmc3_post(c0, c1, addr, data)
    } else if c0.mapper == 68 {
        write_prg_ram_sunsoft4_post(c0, c1, addr, data)
    } else if c0.mapper == 241 {
        write_prg_ram_direct_post(c0, c1, addr, data)
    } else if c0.mapper == 240 {
        write_prg_ram_direct_post(c0, c1, addr, data)
    } else if (c0.mapper == 9 || c0.mapper == 10) {
        write_prg_ram_mmc2_post(c0, c1, addr, data)
    } else if (c0.mapper == 16 || c0.mapper == 153 || c0.mapper == 159) {
        write_prg_ram_bandai_post(c0, c1, addr, data)
    } else if c0.mapper == 69 {
        write_prg_ram_fme7_post(c0, c1, addr, data)
    } else {
        c1 == c0
    }
}

/// What a CPU write of $6000-$7FFF needs of the board.
pub open spec fn prg_ram_write_ok(c0: Cartridge, addr: u16, data: u8) -> bool {
    if c0.mapper == 21 {
        write_prg_ram_mapper23_pre(c0, addr, data)
    } else if c0.mapper == 22 {
        write_prg_ram_mapper23_pre(c0, addr, data)
    } else if c0.mapper == 23 {
        write_prg_ram_mapper23_pre(c0, addr, data)
    } else if (c0.mapper == 24 || c0.mapper == 26) {
        true
    } else if c0.mapper == 25 {
        write_prg_ram_mapper23_pre(c0, addr, data)
    } else if c0.mapper == 19 {
        write_prg_ram_namco163_pre(c0, addr, data)
    } else if c0.mapper == 5 {
        true
    } else if c0.mapper == 41 {
        true
    } else if c0.mapper == 87 {
        true
    } else if c0.mapper == 73 {
        write_prg_ram_vrc3_pre(c0, addr, data)
    } else if c0.mapper == 208 {
        true
    } else if (c0.mapper == 80 || c0.mapper == 207) {
        true
    } else if c0.mapper == 82 {
        true
    } else if c0.mapper == 1 {
        write_prg_ram_mmc1_pre(c0, addr, data)
    } else if c0.mapper == 227 {
        write_prg_ram_direct_pre(c0, addr, data)
    } else if (c0.mapper == 4 || c0.mapper == 74 || c0.mapper == 118 || c0.mapper == 119 || c0.mapper == 192 || c0.mapper == 194 || c0.mapper == 245 || c0.mapper == 250) {
        write_prg_ram_mmc3_pre(c0, addr, data)
    } else if c0.mapper == 68 {
        true
    } else if c0.mapper == 241 {
        write_prg_ram_direct_pre(c0, addr, data)
    } else if c0.mapper == 240 {
        write_prg_ram_direct_pre(c0, addr, data)
    } else if (c0.mapper == 9 || c0.mapper == 10) {
        write_prg_ram_mmc2_pre(c0, addr, data)
    } else if (c0.mapper == 16 || c0.mapper == 153 || c0.mapper == 159) {
        write_prg_ram_bandai_pre(c0, addr, data)
    } else if c0.mapper == 69 {
        write_prg_ram_fme7_pre(c0, addr, data)
    } else {
        true
    }
}

/// A PRG-RAM read at `addr - $6000`; 0 past the end.
pub open spec fn read_prg_ram_direct_value(cart: Cartridge, addr: u16) -> u8 {
    byte_or_zero(cart.prg_ram@, addr - 0x6000)
}

/// What [`Cartridge::read_prg_ram_direct`] needs.
pub open spec fn read_prg_ram_direct_pre(cart: Cartridge, addr: u16) -> bool {
    addr >= 0x6000
}

/// The state change of [`Cartridge::write_prg_ram_direct`]: the byte at
/// `addr - $6000`, where the RAM has it.
pub open spec fn write_prg_ram_direct_post(c0: Cartridge, c1: Cartridge, addr: u16, data: u8) -> bool {
    &&& c1.prg_ram@ == stored(c0.prg_ram@, addr - 0x6000, data)
    &&& c1 == (Cartridge { prg_ram: c1.prg_ram, ..c0 })
}

/// What [`Cartridge::write_prg_ram_direct`] needs.
pub open spec fn write_prg_ram_direct_pre(c0: Cartridge, addr: u16, data: u8) -> bool {
    addr >= 0x6000
}

/// The state change of [`Cartridge::write_chr_default`].
pub open spec fn write_chr_default_post(c0: Cartridge, c1: Cartridge, addr: u16, data: u8) -> bool {
    &&& c1.chr_rom@ == c0.chr_rom@.update((addr % 0x2000) as int, data)
    &&& c1 == (Cartridge { chr_rom: c1.chr_rom, ..c0 })
}

/// What [`Cartridge::write_chr_default`] needs: the position exists.
pub open spec fn write_chr_default_pre(c0: Cartridge, addr: u16, data: u8) -> bool {
    (addr % 0x2000) < c0.chr_rom@.len()
}

impl Cartridge {
    /// See `read_prg_ram_direct_value`.
    pub fn read_prg_ram_direct(&self, addr: u16) -> (r: u8)
        requires
            read_prg_ram_direct_pre(*self, addr),
        ensures
            r == read_prg_ram_direct_value(*self, addr),
    {
        let offset = (addr - 0x6000) as usize;
        if offset < self.prg_ram.len() { self.prg_ram[offset] } else { 0 }
    }

    /// See `write_prg_ram_direct_post`.
    pub fn write_prg_ram_direct(&mut self, addr: u16, data: u8)
        requires
            write_prg_ram_direct_pre(*old(self), addr, data),
        ensures
            write_prg_ram_direct_post(*old(self), *final(self), addr, data),
    {
        let offset = (addr - 0x6000) as usize;
        if offset < self.prg_ram.len() {
            self.prg_ram.set(offset, data);
        }
    }

    /// A pattern write into the first 8 KiB of CHR memory.
    pub fn write_chr_default(&mut self, addr: u16, data: u8)
        requires
            write_chr_default_pre(*old(self), addr, data),
        ensures
            write_chr_default_post(*old(self), *final(self), addr, data),
    {
        self.chr_rom.set((addr % 0x2000) as usize, data);
    }

    /// CPU read of $8000-$FFFF (see `prg_read_value`).
    #[verifier::rlimit(100)]
    #[verifier::spinoff_prover]
    pub fn read_prg(&self, addr: u16) -> (r: u8)
        requires
            addr >= 0x8000,
            prg_read_ok(*self, addr),
        ensures
            r == prg_read_value(*self, addr),
    {
        let rom_addr = addr - 0x8000;
        if self.mapper == 21 {
            self.read_prg_mapper23(addr)
        } else if self.mapper == 22 {
            self.read_prg_mapper23(addr)
        } else if self.mapper == 23 {
            self.read_prg_mapper23(addr)
        } else if (self.mapper == 24 || self.mapper == 26) {
            self.read_prg_vrc6(addr)
        } else if self.mapper == 25 {
            self.read_prg_mapper23(addr)
        } else if self.mapper == 19 {
            self.read_prg_namco163(addr)
        } else if self.mapper == 5 {
            self.read_prg_mmc5(addr)
        } else if (self.mapper == 0 || self.mapper == 3 || self.mapper == 13 || self.mapper == 87 || self.mapper == 101 || self.mapper == 184 || self.mapper == 185) {
            self.read_prg_nrom(rom_addr)
        } else if self.mapper == 142 {
            self.read_prg_mapper142(addr)
        } else if self.mapper == 150 {
            self.read_prg_axrom(addr)
        } else if self.mapper == 12 {
            self.read_prg_mmc3(addr)
        } else if self.mapper == 40 {
            self.read_prg_mapper40(addr)
        } else if self.mapper == 42 {
            self.read_prg_mapper42(addr)
        } else if self.mapper == 43 {
            self.read_prg_mapper43(addr)
        } else if self.mapper == 48 {
            self.read_prg_taito_tc0190(addr)
        } else if self.mapper == 112 {
            self.read_prg_namco108(addr)
        } else if self.mapper == 1 {
            self.read_prg_mmc1(addr, rom_addr)
        } else if self.mapper == 208 {
            self.read_prg_mapper208(addr)
        } else if self.mapper == 33 {
            self.read_prg_taito_tc0190(addr)
        } else if self.mapper == 221 {
            self.read_prg_mapper221(addr)
        } else if (self.mapper == 225 || self.mapper == 255) {
            self.read_prg_mapper225(addr)
        } else if self.mapper == 230 {
            self.read_prg_mapper230(addr)
        } else if self.mapper == 227 {
            self.read_prg_mapper227(addr)
        } else if self.mapper == 231 {
            self.read_prg_mapper231(addr)
        } else if self.mapper == 233 {
            self.read_prg_mapper233(addr)
        } else if self.mapper == 234 {
            self.read_prg_mapper234(addr)
        } else if self.mapper == 235 {
            self.read_prg_mapper235(addr)
        } else if (self.mapper == 200 || self.mapper == 203) {
            self.read_prg_mapper200(addr)
        } else if self.mapper == 202 {
            self.read_prg_mapper202(addr)
        } else if self.mapper == 212 {
            self.read_prg_mapper212(addr)
        } else if self.mapper == 226 {
            self.read_prg_mapper226(addr)
        } else if self.mapper == 228 {
            self.read_prg_mapper228(addr)
        } else if self.mapper == 242 {
            self.read_prg_mapper242(addr)
        } else if (self.mapper == 2 || self.mapper == 57 || self.mapper == 70 || self.mapper == 71 || self.mapper == 72 || self.mapper == 73 || self.mapper == 81 || self.mapper == 86 || self.mapper == 89 || self.mapper == 93 || self.mapper == 152) {
            self.read_prg_uxrom(addr, rom_addr)
        } else if (self.mapper == 34 || self.mapper == 38 || self.mapper == 41 || self.mapper == 46 || self.mapper == 77 || self.mapper == 79 || self.mapper == 113 || self.mapper == 133 || self.mapper == 140 || self.mapper == 144 || self.mapper == 146 || self.mapper == 147 || self.mapper == 148 || self.mapper == 201 || self.mapper == 240 || self.mapper == 241 || self.mapper == 243) {
            self.read_prg_axrom(addr)
        } else if self.mapper == 50 {
            self.read_prg_mapper50(addr)
        } else if (self.mapper == 58 || self.mapper == 213) {
            self.read_prg_mapper58(addr)
        } else if self.mapper == 229 {
            self.read_prg_mapper229(addr)
        } else if (self.mapper == 92 || self.mapper == 180) {
            self.read_prg_uxrom_inverted(addr, rom_addr)
        } else if self.mapper == 97 {
            self.read_prg_fixed_last_switch_high(addr, rom_addr)
        } else if self.mapper == 137 {
            self.read_prg_axrom(addr)
        } else if self.mapper == 191 {
            self.read_prg_mapper191(addr)
        } else if (self.mapper == 4 || self.mapper == 74 || self.mapper == 118 || self.mapper == 119 || self.mapper == 192 || self.mapper == 194 || self.mapper == 195 || self.mapper == 250) {
            self.read_prg_mmc3(addr)
        } else if self.mapper == 189 {
            self.read_prg_axrom(addr)
        } else if self.mapper == 245 {
            self.read_prg_mapper245(addr)
        } else if self.mapper == 68 {
            self.read_prg_sunsoft4(addr)
        } else if (self.mapper == 80 || self.mapper == 207) {
            self.read_prg_taito_x1005(addr)
        } else if self.mapper == 82 {
            self.read_prg_taito_x1017(addr)
        } else if (self.mapper == 76 || self.mapper == 88 || self.mapper == 95 || self.mapper == 154 || self.mapper == 206) {
            self.read_prg_namco108(addr)
        } else if (self.mapper == 7 || self.mapper == 11 || self.mapper == 66 || self.mapper == 107) {
            self.read_prg_axrom(addr)
        } else if (self.mapper == 78 || self.mapper == 94) {
            self.read_prg_uxrom(addr, rom_addr)
        } else if (self.mapper == 9 || self.mapper == 10) {
            self.read_prg_mmc2(addr, rom_addr)
        } else if (self.mapper == 16 || self.mapper == 153 || self.mapper == 159) {
            self.read_prg_bandai(addr)
        } else if self.mapper == 69 {
            self.read_prg_fme7(addr)
        } else {
            0
        }
    }

    /// CPU read of $8000-$FFFF with its side effect: mapper 234 latches the
    /// value seen on the bus.
    pub fn read_prg_cpu(&mut self, addr: u16) -> (r: u8)
        requires
            addr >= 0x8000,
            prg_read_ok(*old(self), addr),
        ensures
            r == prg_read_value(*old(self), addr),
            *final(self) == if old(self).mapper == 234 { mapper234_applied(*old(self), addr, r) } else { *old(self) },
    {
        let value = self.read_prg(addr);
        if self.mapper == 234 {
            self.apply_mapper234_value(addr, value);
        }
        value
    }

    /// CPU write of $8000-$FFFF (see `prg_written`).
    #[verifier::rlimit(100)]
    #[verifier::spinoff_prover]
    pub fn write_prg(&mut self, addr: u16, data: u8)
        requires
            prg_write_ok(*old(self), addr, data),
        ensures
            prg_written(*old(self), *final(self), addr, data),
    {
        if self.mapper == 0 {
            {}
        } else if self.mapper == 21 {
            self.write_prg_mapper23(addr, data)
        } else if self.mapper == 22 {
            self.write_prg_mapper23(addr, data)
        } else if self.mapper == 23 {
            self.write_prg_mapper23(addr, data)
        } else if (self.mapper == 24 || self.mapper == 26) {
            self.write_prg_vrc6(addr, data)
        } else if self.mapper == 25 {
            self.write_prg_mapper23(addr, data)
        } else if self.mapper == 19 {
            self.write_prg_namco163(addr, data)
        } else if self.mapper == 5 {
            self.write_prg_mmc5(addr, data)
        } else if self.mapper == 40 {
            self.write_prg_mapper40(addr, data)
        } else if self.mapper == 42 {
            self.write_prg_mapper42(addr, data)
        } else if self.mapper == 43 {
            self.write_prg_mapper43(addr, data)
        } else if self.mapper == 1 {
            self.write_prg_mmc1(addr, data)
        } else if self.mapper == 50 {
            self.write_prg_mapper50(addr, data)
        } else if self.mapper == 73 {
            self.write_prg_vrc3(addr, data)
        } else if self.mapper == 208 {
            self.write_prg_mapper208(addr, data)
        } else if self.mapper == 33 {
            self.write_prg_taito_tc0190(addr, data)
        } else if self.mapper == 221 {
            self.write_prg_mapper221(addr)
        } else if self.mapper == 2 {
            self.write_prg_uxrom(addr, data)
        } else if (self.mapper == 225 || self.mapper == 255) {
            self.write_prg_mapper225(addr, data)
        } else if self.mapper == 230 {
            self.write_prg_mapper230(addr, data)
        } else if self.mapper == 227 {
            self.write_prg_mapper227(addr)
        } else if self.mapper == 231 {
            self.write_prg_mapper231(addr)
        } else if self.mapper == 41 {
            self.write_prg_mapper41(addr, data)
        } else if self.mapper == 233 {
            self.write_prg_mapper233(addr, data)
        } else if self.mapper == 234 {
            self.write_prg_mapper234(addr, data)
        } else if self.mapper == 235 {
            self.write_prg_mapper235(addr, data)
        } else if (self.mapper == 3 || self.mapper == 185) {
            self.write_prg_cnrom(addr, data)
        } else if self.mapper == 13 {
            self.write_prg_cprom(addr, data)
        } else if self.mapper == 34 && self.mapper34_nina001 {
            {}
        } else if self.mapper == 191 {
            self.write_prg_mapper191(addr, data)
        } else if (self.mapper == 4 || self.mapper == 37 || self.mapper == 47 || self.mapper == 74 || self.mapper == 115 || self.mapper == 118 || self.mapper == 119 || self.mapper == 192 || self.mapper == 194 || self.mapper == 195 || self.mapper == 205 || self.mapper == 245 || self.mapper == 248) {
            self.write_prg_mmc3(addr, data)
        } else if self.mapper == 250 {
            self.write_prg_mapper250(addr, data)
        } else if self.mapper == 60 {
            {}
        } else if self.mapper == 137 {
            self.write_prg_mapper137(addr, data)
        } else if self.mapper == 142 {
            self.write_prg_mapper142(addr, data)
        } else if self.mapper == 150 {
            self.write_prg_mapper150(addr, data)
        } else if (self.mapper == 58 || self.mapper == 213) {
            self.write_prg_mapper58(addr)
        } else if self.mapper == 68 {
            self.write_prg_sunsoft4(addr, data)
        } else if (self.mapper == 76 || self.mapper == 88 || self.mapper == 95 || self.mapper == 154 || self.mapper == 206 || self.mapper == 112) {
            self.write_prg_namco108(addr, data)
        } else if self.mapper == 7 {
            self.write_prg_axrom(addr, data)
        } else if self.mapper == 200 {
            self.write_prg_mapper200(addr)
        } else if self.mapper == 201 {
            self.write_prg_mapper201(addr)
        } else if self.mapper == 202 {
            self.write_prg_mapper202(addr)
        } else if self.mapper == 203 {
            self.write_prg_mapper203(addr, data)
        } else if self.mapper == 212 {
            self.write_prg_mapper212(addr)
        } else if self.mapper == 226 {
            self.write_prg_mapper226(addr, data)
        } else if self.mapper == 228 {
            self.write_prg_mapper228(addr, data)
        } else if self.mapper == 229 {
            self.write_prg_mapper229(addr)
        } else if self.mapper == 242 {
            self.write_prg_mapper242(addr)
        } else if self.mapper == 243 {
            self.write_prg_mapper243(addr, data)
        } else if (self.mapper == 79 || self.mapper == 146) {
            self.write_prg_mapper79_146(addr, data)
        } else if self.mapper == 133 {
            self.write_prg_mapper133(addr, data)
        } else if self.mapper == 113 {
            self.write_prg_mapper113(addr, data)
        } else if self.mapper == 11 {
            self.write_prg_color_dreams(addr, data)
        } else if self.mapper == 89 {
            self.write_prg_mapper89(addr, data)
        } else if self.mapper == 93 {
            self.write_prg_mapper93(addr, data)
        } else if self.mapper == 70 {
            self.write_prg_mapper70(addr, data)
        } else if self.mapper == 71 {
            self.write_prg_camerica(addr, data)
        } else if self.mapper == 81 {
            self.write_prg_mapper81(addr)
        } else if self.mapper == 97 {
            self.write_prg_mapper97(addr, data)
        } else if self.mapper == 80 {
            {}
        } else if self.mapper == 147 {
            self.write_prg_mapper147(addr, data)
        } else if self.mapper == 148 {
            self.write_prg_mapper148(addr, data)
        } else if self.mapper == 152 {
            self.write_prg_mapper152(addr, data)
        } else if self.mapper == 180 {
            self.write_prg_uxrom_inverted(addr, data)
        } else if (self.mapper == 9 || self.mapper == 10) {
            self.write_prg_mmc2(addr, data)
        } else if (self.mapper == 16 || self.mapper == 153 || self.mapper == 159) {
            self.write_prg_bandai(addr, data)
        } else if self.mapper == 69 {
            self.write_prg_fme7(addr, data)
        } else if self.mapper == 87 {
            self.write_prg_mapper87(addr, data)
        } else {
            {}
        }
    }

    /// PPU pattern read (see `chr_read`).
    #[verifier::rlimit(100)]
    #[verifier::spinoff_prover]
    pub fn read_chr(&mut self, addr: u16) -> (r: u8)
        requires
            chr_read_ok(*old(self), addr),
        ensures
            chr_read(*old(self), *final(self), addr, r),
    {
        if self.mapper == 21 {
            self.read_chr_mapper23(addr)
        } else if self.mapper == 22 {
            self.read_chr_mapper23(addr)
        } else if self.mapper == 23 {
            self.read_chr_mapper23(addr)
        } else if (self.mapper == 24 || self.mapper == 26) {
            self.read_chr_vrc6(addr)
        } else if self.mapper == 25 {
            self.read_chr_mapper23(addr)
        } else if self.mapper == 19 {
            self.read_chr_namco163(addr)
        } else if self.mapper == 5 {
            self.read_chr_mmc5(addr)
        } else if (self.mapper == 0 || self.mapper == 43 || self.mapper == 97 || self.mapper == 103 || self.mapper == 226 || self.mapper == 241 || self.mapper == 242) {
            self.read_chr_nrom(addr)
        } else if self.mapper == 1 {
            self.read_chr_mmc1(addr)
        } else if (self.mapper == 2 || self.mapper == 7 || self.mapper == 15 || self.mapper == 40 || self.mapper == 42 || self.mapper == 50 || self.mapper == 71 || self.mapper == 73 || self.mapper == 94 || self.mapper == 180 || self.mapper == 227 || self.mapper == 230 || self.mapper == 232 || self.mapper == 235) {
            self.read_chr_uxrom(addr)
        } else if self.mapper == 221 {
            self.read_chr_mapper221(addr)
        } else if self.mapper == 231 {
            self.read_chr_mapper231(addr)
        } else if self.mapper == 13 {
            self.read_chr_cprom(addr)
        } else if self.mapper == 33 {
            self.read_chr_taito_tc0190(addr)
        } else if self.mapper == 34 {
            self.read_chr_nrom(addr)
        } else if (self.mapper == 3 || self.mapper == 11 || self.mapper == 38 || self.mapper == 41 || self.mapper == 46 || self.mapper == 57 || self.mapper == 58 || self.mapper == 59 || self.mapper == 60 || self.mapper == 61 || self.mapper == 66 || self.mapper == 70 || self.mapper == 72 || self.mapper == 78 || self.mapper == 79 || self.mapper == 81 || self.mapper == 86 || self.mapper == 89 || self.mapper == 92 || self.mapper == 101 || self.mapper == 107 || self.mapper == 113 || self.mapper == 133 || self.mapper == 140 || self.mapper == 144 || self.mapper == 145 || self.mapper == 146 || self.mapper == 147 || self.mapper == 148 || self.mapper == 152 || self.mapper == 200 || self.mapper == 201 || self.mapper == 202 || self.mapper == 203 || self.mapper == 212 || self.mapper == 213 || self.mapper == 225 || self.mapper == 228 || self.mapper == 229 || self.mapper == 233 || self.mapper == 234 || self.mapper == 240 || self.mapper == 243 || self.mapper == 255 || self.mapper == 87) {
            self.read_chr_cnrom(addr)
        } else if self.mapper == 137 {
            self.read_chr_mapper137(addr)
        } else if self.mapper == 142 {
            self.read_chr_nrom(addr)
        } else if self.mapper == 150 {
            self.read_chr_cnrom(addr)
        } else if self.mapper == 189 {
            self.read_chr_mmc3(addr)
        } else if self.mapper == 93 {
            self.read_chr_mapper93(addr)
        } else if (self.mapper == 4 || self.mapper == 118 || self.mapper == 208 || self.mapper == 250) {
            self.read_chr_mmc3(addr)
        } else if self.mapper == 48 {
            self.read_chr_taito_tc0190(addr)
        } else if self.mapper == 123 {
            self.read_chr_mmc3(addr)
        } else if self.mapper == 74 {
            self.read_chr_mapper74(addr)
        } else if self.mapper == 119 {
            self.read_chr_mapper119(addr)
        } else if self.mapper == 191 {
            self.read_chr_mapper191(addr)
        } else if self.mapper == 192 {
            self.read_chr_mapper192(addr)
        } else if self.mapper == 194 {
            self.read_chr_mapper194(addr)
        } else if self.mapper == 195 {
            self.read_chr_mapper195(addr)
        } else if self.mapper == 245 {
            self.read_chr_mapper245(addr)
        } else if self.mapper == 68 {
            self.read_chr_sunsoft4(addr)
        } else if (self.mapper == 80 || self.mapper == 207) {
            self.read_chr_taito_x1005(addr)
        } else if self.mapper == 82 {
            self.read_chr_taito_x1017(addr)
        } else if (self.mapper == 76 || self.mapper == 88 || self.mapper == 95 || self.mapper == 154 || self.mapper == 206 || self.mapper == 112) {
            self.read_chr_namco108(addr)
        } else if (self.mapper == 9 || self.mapper == 10) {
            self.read_chr_mmc2(addr)
        } else if (self.mapper == 16 || self.mapper == 153 || self.mapper == 159) {
            self.read_chr_bandai(addr)
        } else if self.mapper == 69 {
            self.read_chr_fme7(addr)
        } else {
            self.read_chr_nrom(addr)
        }
    }

    /// PPU pattern fetch for a sprite: the MMC5 has its own sprite banks,
    /// other boards answer as for any pattern read.
    pub fn read_chr_sprite(&mut self, addr: u16, sprite_y: u8) -> (r: u8)
        requires
            old(self).mapper != 5 ==> chr_read_ok(*old(self), addr),
        ensures
            if old(self).mapper == 5 {
                r == read_chr_sprite_mmc5_value(*old(self), addr, sprite_y) && *final(self) == *old(self)
            } else {
                chr_read(*old(self), *final(self), addr, r)
            },
    {
        if self.mapper == 5 {
            self.read_chr_sprite_mmc5(addr, sprite_y)
        } else {
            self.read_chr(addr)
        }
    }

    /// PPU pattern write (see `chr_written`).
    #[verifier::rlimit(100)]
    #[verifier::spinoff_prover]
    pub fn write_chr(&mut self, addr: u16, data: u8)
        requires
            chr_write_ok(*old(self), addr, data),
        ensures
            chr_written(*old(self), *final(self), addr, data),
    {
        if self.mapper == 21 {
            self.write_chr_mapper23(addr, data)
        } else if self.mapper == 22 {
            self.write_chr_mapper23(addr, data)
        } else if self.mapper == 23 {
            self.write_chr_mapper23(addr, data)
        } else if (self.mapper == 24 || self.mapper == 26) {
            self.write_chr_vrc6(addr, data)
        } else if self.mapper == 25 {
            self.write_chr_mapper23(addr, data)
        } else if self.mapper == 19 {
            self.write_chr_namco163(addr, data)
        } else if self.mapper == 5 {
            self.write_chr_mmc5(addr, data)
        } else if (self.mapper == 0 || self.mapper == 43 || self.mapper == 97 || self.mapper == 103 || self.mapper == 226 || self.mapper == 241) {
            self.write_chr_nrom(addr, data)
        } else if self.mapper == 1 {
            self.write_chr_mmc1(addr, data)
        } else if (self.mapper == 2 || self.mapper == 7 || self.mapper == 15 || self.mapper == 40 || self.mapper == 42 || self.mapper == 50 || self.mapper == 71 || self.mapper == 73 || self.mapper == 94 || self.mapper == 180 || self.mapper == 230 || self.mapper == 232 || self.mapper == 235) {
            self.write_chr_uxrom(addr, data)
        } else if self.mapper == 221 {
            self.write_chr_mapper221(addr, data)
        } else if self.mapper == 227 {
            self.write_chr_mapper227(addr, data)
        } else if self.mapper == 231 {
            self.write_chr_mapper231(addr, data)
        } else if self.mapper == 13 {
            self.write_chr_cprom(addr, data)
        } else if self.mapper == 33 {
            self.write_chr_taito_tc0190(addr, data)
        } else if self.mapper == 34 {
            self.write_chr_nrom(addr, data)
        } else if (self.mapper == 3 || self.mapper == 11 || self.mapper == 38 || self.mapper == 41 || self.mapper == 46 || self.mapper == 57 || self.mapper == 58 || self.mapper == 59 || self.mapper == 60 || self.mapper == 61 || self.mapper == 66 || self.mapper == 70 || self.mapper == 72 || self.mapper == 78 || self.mapper == 79 || self.mapper == 81 || self.mapper == 86 || self.mapper == 89 || self.mapper == 92 || self.mapper == 101 || self.mapper == 107 || self.mapper == 113 || self.mapper == 133 || self.mapper == 140 || self.mapper == 144 || self.mapper == 145 || self.mapper == 146 || self.mapper == 147 || self.mapper == 148 || self.mapper == 152 || self.mapper == 200 || self.mapper == 201 || self.mapper == 202 || self.mapper == 203 || self.mapper == 212 || self.mapper == 213 || self.mapper == 225 || self.mapper == 228 || self.mapper == 229 || self.mapper == 233 || self.mapper == 234 || self.mapper == 240 || self.mapper == 243 || self.mapper == 255 || self.mapper == 87) {
            self.write_chr_cnrom(addr, data)
        } else if self.mapper == 99 {
            {}
        } else if self.mapper == 137 {
            self.write_chr_mapper137(addr, data)
        } else if self.mapper == 142 {
            self.write_chr_nrom(addr, data)
        } else if self.mapper == 150 {
            self.write_chr_cnrom(addr, data)
        } else if self.mapper == 189 {
            self.write_chr_mmc3(addr, data)
        } else if self.mapper == 242 {
            self.write_chr_mapper242(addr, data)
        } else if self.mapper == 93 {
            self.write_chr_mapper93(addr, data)
        } else if (self.mapper == 4 || self.mapper == 118 || self.mapper == 208 || self.mapper == 250) {
            self.write_chr_mmc3(addr, data)
        } else if self.mapper == 48 {
            self.write_chr_taito_tc0190(addr, data)
        } else if self.mapper == 123 {
            self.write_chr_mmc3(addr, data)
        } else if self.mapper == 74 {
            self.write_chr_mapper74(addr, data)
        } else if self.mapper == 119 {
            self.write_chr_mapper119(addr, data)
        } else if self.mapper == 191 {
            self.write_chr_mapper191(addr, data)
        } else if self.mapper == 192 {
            self.write_chr_mapper192(addr, data)
        } else if self.mapper == 194 {
            self.write_chr_mapper194(addr, data)
        } else if self.mapper == 195 {
            self.write_chr_mapper195(addr, data)
        } else if self.mapper == 245 {
            self.write_chr_mapper245(addr, data)
        } else if self.mapper == 68 {
            self.write_chr_sunsoft4(addr, data)
        } else if (self.mapper == 80 || self.mapper == 207) {
            self.write_chr_taito_x1005(addr, data)
        } else if self.mapper == 82 {
            self.write_chr_taito_x1017(addr, data)
        } else if self.mapper == 246 {
            {}
        } else if (self.mapper == 76 || self.mapper == 88 || self.mapper == 95 || self.mapper == 154 || self.mapper == 206 || self.mapper == 112) {
            self.write_chr_namco108(addr, data)
        } else if (self.mapper == 9 || self.mapper == 10) {
            self.write_chr_mmc2(addr, data)
        } else if (self.mapper == 16 || self.mapper == 153 || self.mapper == 159) {
            self.write_chr_bandai(addr, data)
        } else if self.mapper == 69 {
            self.write_chr_fme7(addr, data)
        } else {
            self.write_chr_default(addr, data)
        }
    }

    /// CPU read of $6000-$7FFF (see `prg_ram_read_value`).
    #[verifier::rlimit(100)]
    #[verifier::spinoff_prover]
    pub fn read_prg_ram(&self, addr: u16) -> (r: u8)
        requires
            prg_ram_read_ok(*self, addr),
        ensures
            r == prg_ram_read_value(*self, addr),
    {
        if self.mapper == 21 {
            self.read_prg_ram_mapper23(addr)
        } else if self.mapper == 22 {
            self.read_prg_ram_mapper23(addr)
        } else if self.mapper == 23 {
            self.read_prg_ram_mapper23(addr)
        } else if (self.mapper == 24 || self.mapper == 26) {
            self.read_prg_ram_vrc6(addr)
        } else if self.mapper == 25 {
            self.read_prg_ram_mapper23(addr)
        } else if self.mapper == 19 {
            self.read_prg_ram_namco163(addr)
        } else if self.mapper == 5 {
            self.read_prg_ram_mmc5(addr)
        } else if self.mapper == 1 {
            self.read_prg_ram_mmc1(addr)
        } else if self.mapper == 40 {
            self.read_prg_ram_mapper40(addr)
        } else if self.mapper == 42 {
            self.read_prg_ram_mapper42(addr)
        } else if self.mapper == 43 {
            self.read_prg_ram_mapper43(addr)
        } else if self.mapper == 50 {
            self.read_prg_ram_mapper50(addr)
        } else if self.mapper == 73 {
            self.read_prg_ram_vrc3(addr)
        } else if self.mapper == 142 {
            self.read_prg_ram_mapper142(addr)
        } else if (self.mapper == 80 || self.mapper == 207) {
            self.read_prg_ram_taito_x1005(addr)
        } else if self.mapper == 82 {
            self.read_prg_ram_taito_x1017(addr)
        } else if self.mapper == 227 {
            self.read_prg_ram_direct(addr)
        } else if self.mapper == 212 {
            0x80
        } else if self.mapper == 241 {
            self.read_prg_ram_direct(addr)
        } else if self.mapper == 34 && self.mapper34_nina001 {
            self.read_prg_ram_direct(addr)
        } else if (self.mapper == 4 || self.mapper == 74 || self.mapper == 118 || self.mapper == 119 || self.mapper == 192 || self.mapper == 194 || self.mapper == 245 || self.mapper == 250) {
            self.read_prg_ram_mmc3(addr)
        } else if self.mapper == 68 {
            self.read_prg_ram_sunsoft4(addr)
        } else if self.mapper == 240 {
            self.read_prg_ram_direct(addr)
        } else if (self.mapper == 9 || self.mapper == 10) {
            self.read_prg_ram_mmc2(addr)
        } else if (self.mapper == 16 || self.mapper == 153 || self.mapper == 159) {
            self.read_prg_ram_bandai(addr)
        } else if self.mapper == 69 {
            self.read_prg_ram_fme7(addr)
        } else {
            0
        }
    }

    /// CPU write of $6000-$7FFF (see `prg_ram_written`).
    #[verifier::rlimit(100)]
    #[verifier::spinoff_prover]
    pub fn write_prg_ram(&mut self, addr: u16, data: u8)
        requires
            prg_ram_write_ok(*old(self), addr, data),
        ensures
            prg_ram_written(*old(self), *final(self), addr, data),
    {
        if self.mapper == 21 {
            self.write_prg_ram_mapper23(addr, data)
        } else if self.mapper == 22 {
            self.write_prg_ram_mapper23(addr, data)
        } else if self.mapper == 23 {
            self.write_prg_ram_mapper23(addr, data)
        } else if (self.mapper == 24 || self.mapper == 26) {
            self.write_prg_ram_vrc6(addr, data)
        } else if self.mapper == 25 {
            self.write_prg_ram_mapper23(addr, data)
        } else if self.mapper == 19 {
            self.write_prg_ram_namco163(addr, data)
        } else if self.mapper == 5 {
            self.write_prg_ram_mmc5(addr, data)
        } else if self.mapper == 41 {
            self.write_prg_ram_mapper41(addr)
        } else if self.mapper == 87 {
            self.write_prg_mapper87(addr, data)
        } else if self.mapper == 73 {
            self.write_prg_ram_vrc3(addr, data)
        } else if self.mapper == 208 {
            self.write_prg_ram_mapper208(addr, data)
        } else if (self.mapper == 80 || self.mapper == 207) {
            self.write_prg_ram_taito_x1005(addr, data)
        } else if self.mapper == 82 {
            self.write_prg_ram_taito_x1017(addr, data)
        } else if self.mapper == 1 {
            self.write_prg_ram_mmc1(addr, data)
        } else if self.mapper == 227 {
            self.write_prg_ram_direct(addr, data)
        } else if (self.mapper == 4 || self.mapper == 74 || self.mapper == 118 || self.mapper == 119 || self.mapper == 192 || self.mapper == 194 || self.mapper == 245 || self.mapper == 250) {
            self.write_prg_ram_mmc3(addr, data)
        } else if self.mapper == 68 {
            self.write_prg_ram_sunsoft4(addr, data)
        } else if self.mapper == 241 {
            self.write_prg_ram_direct(addr, data)
        } else if self.mapper == 240 {
            self.write_prg_ram_direct(addr, data)
        } else if (self.mapper == 9 || self.mapper == 10) {
            self.write_prg_ram_mmc2(addr, data)
        } else if (self.mapper == 16 || self.mapper == 153 || self.mapper == 159) {
            self.write_prg_ram_bandai(addr, data)
        } else if self.mapper == 69 {
            self.write_prg_ram_fme7(addr, data)
        } else {
            {}
        }
    }

    /// CPU write of $4020-$5FFF: the MMC5's registers and the Namco 163's
    /// port and counter; ignored by other boards.
    pub fn write_prg_low(&mut self, addr: u16, data: u8)
        ensures
            if old(self).mapper == 5 {
                write_prg_mmc5_post(*old(self), *final(self), addr, data)
            } else if old(self).mapper == 19 {
                write_prg_low_namco163_post(*old(self), *final(self), addr, data)
            } else {
                *final(self) == *old(self)
            },
    {
        if self.mapper == 5 {
            self.write_prg_mmc5(addr, data);
        } else if self.mapper == 19 {
            self.write_prg_low_namco163(addr, data);
        }
    }
}

} // verus!

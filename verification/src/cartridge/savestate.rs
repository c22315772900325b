//! The cartridge's save-state record: board registers, battery and CHR RAM,
//! and the record of each mapper chip the board carries.

use vstd::prelude::*;
use crate::cartridge::Mirroring;
use crate::cartridge::board_latches::BoardLatches;
use crate::cartridge::multicart_latches::MulticartLatches;
use crate::cartridge::load::Cartridge;
use crate::cartridge::interface::{first_prg_bank, first_chr_bank, prg_bank_set, chr_bank_set};
use crate::cartridge::mapper::fixed_irq::{Mapper40, Mapper42, Mapper43, Mapper50};
use crate::cartridge::mapper::fme7::Fme7;
use crate::cartridge::mapper::mmc1::Mmc1;
use crate::cartridge::mapper::mmc2::Mmc2;
use crate::cartridge::mapper::mmc3::Mmc3;
use crate::cartridge::mapper::mmc5::{Mmc5, mmc5_agrees};
use crate::cartridge::mapper::namco163::{Namco163, n163_record};
use crate::cartridge::mapper::sunsoft4::{Sunsoft4, sunsoft4_record};
use crate::cartridge::mapper::taito::{TaitoTc0190, TaitoX1005, TaitoX1017};
use crate::cartridge::mapper::vrc6::{Vrc6, vrc6_record};
use crate::cartridge::mapper::bandai_fcg::BandaiFcg;
use crate::cartridge::mapper::vrc2_vrc4::Vrc2Vrc4;
use crate::cartridge::mapper::vrc3::Vrc3;
use crate::cartridge::state::{Fme7State, Mapper40State, Mapper42State, Mapper43State, Mapper50State, Mmc1State, Mmc2State, Mmc3State, Mmc5State, Namco163State, Sunsoft4State, TaitoTc0190State, TaitoX1005State, TaitoX1017State, Vrc2Vrc4State, Vrc3State, Vrc6State, BandaiFcgState, default_mmc3_irq_prescaler};

verus! {

/// The save-state record of a cartridge. `prg_bank` and `chr_bank` are the
/// first PRG and CHR banks as the board reports them.
#[derive(Debug, Clone)]
pub struct CartridgeState {
    pub mapper: u8,
    pub mirroring: Mirroring,
    pub prg_bank: u8,
    pub chr_bank: u8,
    pub prg_ram: Vec<u8>,
    pub chr_ram: Vec<u8>,
    pub has_valid_save_data: bool,
    pub chr_bank_1: u8,
    pub mapper34_nina001: bool,
    pub mapper93_chr_ram_enabled: bool,
    pub mapper191_outer_bank: u8,
    pub mapper195_mode: u8,
    pub mapper230_contra_mode: bool,
    pub mapper185_disabled_reads: u8,
    pub mapper142_bank_select: u8,
    pub mapper142_prg_banks: [u8; 4],
    pub latches: BoardLatches,
    pub multicart: MulticartLatches,
    pub mmc1: Option<Mmc1State>,
    pub mmc2: Option<Mmc2State>,
    pub mmc3: Option<Mmc3State>,
    pub mmc5: Option<Mmc5State>,
    pub vrc2_vrc4: Option<Vrc2Vrc4State>,
    pub mapper40: Option<Mapper40State>,
    pub mapper42: Option<Mapper42State>,
    pub mapper43: Option<Mapper43State>,
    pub mapper50: Option<Mapper50State>,
    pub vrc3: Option<Vrc3State>,
    pub sunsoft4: Option<Sunsoft4State>,
    pub taito_x1005: Option<TaitoX1005State>,
    pub taito_x1017: Option<TaitoX1017State>,
    pub fme7: Option<Fme7State>,
    pub namco163: Option<Namco163State>,
    pub taito_tc0190: Option<TaitoTc0190State>,
    pub vrc6: Option<Vrc6State>,
    pub bandai_fcg: Option<BandaiFcgState>,
}

pub open spec fn mmc1_agrees(m: Mmc1, s: Mmc1State) -> bool {
    &&& s.shift_register == m.shift_register && s.shift_count == m.shift_count
    &&& s.control == m.control && s.chr_bank_0 == m.chr_bank_0 && s.chr_bank_1 == m.chr_bank_1
    &&& s.prg_bank == m.prg_bank && s.prg_ram_disable == m.prg_ram_disable
}

pub open spec fn mmc2_agrees(m: Mmc2, s: Mmc2State) -> bool {
    &&& s.prg_bank == m.prg_bank
    &&& s.chr_bank_0_fd == m.chr_bank_0_fd && s.chr_bank_0_fe == m.chr_bank_0_fe
    &&& s.chr_bank_1_fd == m.chr_bank_1_fd && s.chr_bank_1_fe == m.chr_bank_1_fe
    &&& s.latch_0 == m.latch_0 && s.latch_1 == m.latch_1
}

/// The MMC3 record's registers that this chip has; the record's other
/// fields (second bank set, cycle-timed IRQ) belong to other boards.
pub open spec fn mmc3_agrees(m: Mmc3, s: Mmc3State) -> bool {
    &&& s.bank_select == m.bank_select && s.bank_registers == m.bank_registers
    &&& s.irq_latch == m.irq_latch && s.irq_counter == m.irq_counter
    &&& s.irq_reload == m.irq_reload && s.irq_enabled == m.irq_enabled && s.irq_pending == m.irq_pending
    &&& s.prg_ram_enabled == m.prg_ram_enabled && s.prg_ram_write_protect == m.prg_ram_write_protect
}

pub open spec fn vrc24_agrees(m: Vrc2Vrc4, s: Vrc2Vrc4State) -> bool {
    &&& s.prg_banks == m.prg_banks && s.chr_banks == m.chr_banks
    &&& s.wram_enabled == m.wram_enabled && s.prg_swap_mode == m.prg_swap_mode
    &&& s.vrc4_mode == m.vrc4_mode && s.latch == m.latch
    &&& s.irq_latch == m.irq_latch && s.irq_counter == m.irq_counter
    &&& s.irq_enable_after_ack == m.irq_enable_after_ack && s.irq_enabled == m.irq_enabled
    &&& s.irq_cycle_mode == m.irq_cycle_mode && s.irq_prescaler == m.irq_prescaler
    &&& s.irq_pending == m.irq_pending
}

pub open spec fn mapper40_agrees(m: Mapper40, s: Mapper40State) -> bool {
    s.irq_counter == m.irq_counter && s.irq_enabled == m.irq_enabled && s.irq_pending == m.irq_pending
}

pub open spec fn mapper42_agrees(m: Mapper42, s: Mapper42State) -> bool {
    s.irq_counter == m.irq_counter && s.irq_enabled == m.irq_enabled && s.irq_pending == m.irq_pending
}

pub open spec fn mapper43_agrees(m: Mapper43, s: Mapper43State) -> bool {
    s.irq_counter == m.irq_counter && s.irq_enabled == m.irq_enabled && s.irq_pending == m.irq_pending
}

pub open spec fn mapper50_agrees(m: Mapper50, s: Mapper50State) -> bool {
    s.irq_counter == m.irq_counter && s.irq_enabled == m.irq_enabled && s.irq_pending == m.irq_pending
}

pub open spec fn vrc3_agrees(m: Vrc3, s: Vrc3State) -> bool {
    &&& s.irq_reload == m.irq_reload && s.irq_counter == m.irq_counter
    &&& s.irq_enable_on_ack == m.irq_enable_on_ack && s.irq_enabled == m.irq_enabled
    &&& s.irq_mode_8bit == m.irq_mode_8bit && s.irq_pending == m.irq_pending
}

pub open spec fn x1005_agrees(m: TaitoX1005, s: TaitoX1005State) -> bool {
    s.prg_banks == m.prg_banks && s.chr_banks == m.chr_banks && s.ram_enabled == m.ram_enabled
}

pub open spec fn x1017_agrees(m: TaitoX1017, s: TaitoX1017State) -> bool {
    &&& s.prg_banks == m.prg_banks && s.chr_banks == m.chr_banks
    &&& s.ram_enabled == m.ram_enabled && s.chr_invert == m.chr_invert
}

/// The FME-7 record holds every register but the sound chip's.
pub open spec fn fme7_agrees(m: Fme7, s: Fme7State) -> bool {
    &&& s.command == m.command && s.chr_banks == m.chr_banks && s.prg_banks == m.prg_banks
    &&& s.prg_bank_6000 == m.prg_bank_6000 && s.prg_ram_enabled == m.prg_ram_enabled
    &&& s.prg_ram_select == m.prg_ram_select && s.irq_counter == m.irq_counter
    &&& s.irq_counter_enabled == m.irq_counter_enabled && s.irq_enabled == m.irq_enabled
    &&& s.irq_pending == m.irq_pending
}

/// The TC0190 record's banks; its IRQ fields belong to the TC0690 chip.
pub open spec fn tc0190_agrees(m: TaitoTc0190, s: TaitoTc0190State) -> bool {
    s.prg_banks == m.prg_banks && s.chr_banks == m.chr_banks
}

/// The Bandai FCG record's banks and IRQ counter; the EEPROM is not part of
/// it.
pub open spec fn bandai_agrees(m: BandaiFcg, s: BandaiFcgState) -> bool {
    &&& s.chr_banks == m.chr_banks && s.prg_bank == m.prg_bank
    &&& s.irq_counter == m.irq_counter && s.irq_latch == m.irq_latch
    &&& s.irq_enabled == m.irq_enabled && s.irq_pending == m.irq_pending
}

/// A chip slot and a record slot agree: both empty, or both hold a chip and
/// its record.
pub open spec fn slot_agrees<A, B>(c: Option<A>, s: Option<B>, agrees: spec_fn(A, B) -> bool) -> bool {
    match (c, s) {
        (Some(m), Some(st)) => agrees(m, st),
        (None, None) => true,
        _ => false,
    }
}

/// A chip slot after a restore: a chip that has a record in the state
/// agrees with it; any other slot is kept.
pub open spec fn slot_restored<A, B>(o: Option<A>, n: Option<A>, s: Option<B>, agrees: spec_fn(A, B) -> bool) -> bool {
    match (o, s) {
        (Some(_), Some(st)) => n is Some && agrees(n->0, st),
        _ => n == o,
    }
}

/// Every chip slot of `c` agrees with the chip records of `s`.
pub open spec fn chips_agree(c: Cartridge, s: CartridgeState) -> bool {
    &&& slot_agrees(c.mmc1, s.mmc1, |m: Mmc1, st: Mmc1State| mmc1_agrees(m, st))
    &&& slot_agrees(c.mmc2, s.mmc2, |m: Mmc2, st: Mmc2State| mmc2_agrees(m, st))
    &&& slot_agrees(c.mmc3, s.mmc3, |m: Mmc3, st: Mmc3State| mmc3_agrees(m, st))
    &&& slot_agrees(c.mmc5, s.mmc5, |m: Mmc5, st: Mmc5State| mmc5_agrees(&m, &st))
    &&& slot_agrees(c.vrc2_vrc4, s.vrc2_vrc4, |m: Vrc2Vrc4, st: Vrc2Vrc4State| vrc24_agrees(m, st))
    &&& slot_agrees(c.mapper40, s.mapper40, |m: Mapper40, st: Mapper40State| mapper40_agrees(m, st))
    &&& slot_agrees(c.mapper42, s.mapper42, |m: Mapper42, st: Mapper42State| mapper42_agrees(m, st))
    &&& slot_agrees(c.mapper43, s.mapper43, |m: Mapper43, st: Mapper43State| mapper43_agrees(m, st))
    &&& slot_agrees(c.mapper50, s.mapper50, |m: Mapper50, st: Mapper50State| mapper50_agrees(m, st))
    &&& slot_agrees(c.vrc3, s.vrc3, |m: Vrc3, st: Vrc3State| vrc3_agrees(m, st))
    &&& slot_agrees(c.sunsoft4, s.sunsoft4, |m: Sunsoft4, st: Sunsoft4State| sunsoft4_record(m) == st)
    &&& slot_agrees(c.taito_x1005, s.taito_x1005, |m: TaitoX1005, st: TaitoX1005State| x1005_agrees(m, st))
    &&& slot_agrees(c.taito_x1017, s.taito_x1017, |m: TaitoX1017, st: TaitoX1017State| x1017_agrees(m, st))
    &&& slot_agrees(c.fme7, s.fme7, |m: Fme7, st: Fme7State| fme7_agrees(m, st))
    &&& slot_agrees(c.namco163, s.namco163, |m: Namco163, st: Namco163State| n163_record(m) == st)
    &&& slot_agrees(c.taito_tc0190, s.taito_tc0190, |m: TaitoTc0190, st: TaitoTc0190State| tc0190_agrees(m, st))
    &&& slot_agrees(c.vrc6, s.vrc6, |m: Vrc6, st: Vrc6State| vrc6_record(m) == st)
    &&& slot_agrees(c.bandai_fcg, s.bandai_fcg, |m: BandaiFcg, st: BandaiFcgState| bandai_agrees(m, st))
}

/// The board registers of `c` are those recorded in `s`.
pub open spec fn registers_agree(c: Cartridge, s: CartridgeState) -> bool {
    &&& s.mapper == c.mapper && s.mirroring == c.mirroring
    &&& s.has_valid_save_data == c.has_valid_save_data && s.chr_bank_1 == c.chr_bank_1
    &&& s.mapper34_nina001 == c.mapper34_nina001
    &&& s.mapper93_chr_ram_enabled == c.mapper93_chr_ram_enabled
    &&& s.mapper191_outer_bank == c.mapper191_outer_bank && s.mapper195_mode == c.mapper195_mode
    &&& s.mapper230_contra_mode == c.mapper230_contra_mode
    &&& s.mapper185_disabled_reads == c.mapper185_disabled_reads
    &&& s.mapper142_bank_select == c.mapper142_bank_select
    &&& s.mapper142_prg_banks == c.mapper142_prg_banks
    &&& s.latches == c.latches && s.multicart == c.multicart
}

/// `s` records `c`: registers, both RAMs byte for byte, and every chip.
pub open spec fn cartridge_agrees(c: Cartridge, s: CartridgeState) -> bool {
    &&& registers_agree(c, s)
    &&& s.prg_ram@ == c.prg_ram@ && s.chr_ram@ == c.chr_ram@
    &&& chips_agree(c, s)
}

/// A record fits a cartridge when it names the same mapper, its RAMs have
/// the cartridge's sizes, and it holds a record for exactly the chips the
/// cartridge carries.
pub open spec fn record_fits(c: Cartridge, s: CartridgeState) -> bool {
    &&& s.mapper == c.mapper
    &&& s.prg_ram@.len() == c.prg_ram@.len() && s.chr_ram@.len() == c.chr_ram@.len()
    &&& (c.mmc1 is Some <==> s.mmc1 is Some) && (c.mmc2 is Some <==> s.mmc2 is Some)
    &&& (c.mmc3 is Some <==> s.mmc3 is Some) && (c.mmc5 is Some <==> s.mmc5 is Some)
    &&& (c.vrc2_vrc4 is Some <==> s.vrc2_vrc4 is Some)
    &&& (c.mapper40 is Some <==> s.mapper40 is Some) && (c.mapper42 is Some <==> s.mapper42 is Some)
    &&& (c.mapper43 is Some <==> s.mapper43 is Some) && (c.mapper50 is Some <==> s.mapper50 is Some)
    &&& (c.vrc3 is Some <==> s.vrc3 is Some) && (c.sunsoft4 is Some <==> s.sunsoft4 is Some)
    &&& (c.taito_x1005 is Some <==> s.taito_x1005 is Some)
    &&& (c.taito_x1017 is Some <==> s.taito_x1017 is Some)
    &&& (c.fme7 is Some <==> s.fme7 is Some) && (c.namco163 is Some <==> s.namco163 is Some)
    &&& (c.taito_tc0190 is Some <==> s.taito_tc0190 is Some) && (c.vrc6 is Some <==> s.vrc6 is Some)
    &&& (c.bandai_fcg is Some <==> s.bandai_fcg is Some)
}

/// The pulse records of an MMC5 record are in range (a restore needs it).
pub open spec fn record_in_range(s: CartridgeState) -> bool {
    s.mmc5 matches Some(st) ==> st.audio.pulse1.valid() && st.audio.pulse2.valid()
}

/// `b` holds the first `min(len a, len b)` bytes of `a` followed by the
/// rest of `o`, where `o` is `b` before the copy.
pub open spec fn prefix_copied(o: Seq<u8>, src: Seq<u8>, n: Seq<u8>) -> bool {
    let k = if o.len() < src.len() { o.len() } else { src.len() };
    n == src.take(k as int) + o.skip(k as int)
}

/// `n` is `o` after a restore from `s` of the same mapper: the mirroring, the
/// first PRG and CHR banks written through the board (`prg_bank_set`,
/// `chr_bank_set`; a VRC2/VRC4 record's first banks then take the plain
/// registers), the board registers, the RAM prefixes that both hold, and
/// each chip that has a record. ROMs, mapper and battery flag stay.
pub open spec fn cartridge_restored(o: Cartridge, n: Cartridge, s: CartridgeState) -> bool {
    exists|m1: Cartridge, m2: Cartridge|
        prg_bank_set(Cartridge { mirroring: s.mirroring, ..o }, m1, s.prg_bank)
        && chr_bank_set(m1, m2, s.chr_bank)
        && restored_over(m2, n, s)
}

/// `n` is `m` with the recorded registers, RAMs and chips of `s` loaded.
pub open spec fn restored_over(m: Cartridge, n: Cartridge, s: CartridgeState) -> bool {
    registers_restored(m, n, s) && chips_restored(m, n, s)
}

/// The board registers and RAM prefixes of `n` are those of `s` loaded
/// over `m`; the ROMs stay.
pub open spec fn registers_restored(m: Cartridge, n: Cartridge, s: CartridgeState) -> bool {
    &&& n.prg_rom == m.prg_rom && n.chr_rom == m.chr_rom && n.mapper == m.mapper
    &&& n.has_battery == m.has_battery && n.mirroring == m.mirroring
    &&& n.mapper78_hv_mirroring == m.mapper78_hv_mirroring && n.mapper236_chr_ram == m.mapper236_chr_ram
    &&& n.prg_bank == (match s.vrc2_vrc4 { Some(v) => v.prg_banks[0], None => m.prg_bank })
    &&& n.chr_bank == (match s.vrc2_vrc4 { Some(v) => v.chr_banks[0] as u8, None => m.chr_bank })
    &&& n.has_valid_save_data == s.has_valid_save_data && n.chr_bank_1 == s.chr_bank_1
    &&& n.mapper34_nina001 == s.mapper34_nina001
    &&& n.mapper93_chr_ram_enabled == s.mapper93_chr_ram_enabled
    &&& n.mapper191_outer_bank == s.mapper191_outer_bank && n.mapper195_mode == s.mapper195_mode
    &&& n.mapper230_contra_mode == s.mapper230_contra_mode
    &&& n.mapper185_disabled_reads == s.mapper185_disabled_reads
    &&& n.mapper142_bank_select == s.mapper142_bank_select
    &&& n.mapper142_prg_banks == s.mapper142_prg_banks
    &&& n.latches == s.latches && n.multicart == s.multicart
    &&& prefix_copied(m.prg_ram@, s.prg_ram@, n.prg_ram@)
    &&& prefix_copied(m.chr_ram@, s.chr_ram@, n.chr_ram@)
}

/// Each recorded chip of `n` is that of `m` with its record in `s` loaded.
pub open spec fn chips_restored(m: Cartridge, n: Cartridge, s: CartridgeState) -> bool {
    &&& slot_restored(m.mmc1, n.mmc1, s.mmc1, |c: Mmc1, st: Mmc1State| mmc1_agrees(c, st))
    &&& slot_restored(m.mmc2, n.mmc2, s.mmc2, |c: Mmc2, st: Mmc2State| mmc2_agrees(c, st))
    &&& slot_restored(m.mmc3, n.mmc3, s.mmc3, |c: Mmc3, st: Mmc3State| mmc3_agrees(c, st))
    &&& slot_restored(m.mmc5, n.mmc5, s.mmc5, |c: Mmc5, st: Mmc5State| mmc5_agrees(&c, &st))
    &&& slot_restored(m.vrc2_vrc4, n.vrc2_vrc4, s.vrc2_vrc4, |c: Vrc2Vrc4, st: Vrc2Vrc4State| vrc24_agrees(c, st))
    &&& slot_restored(m.mapper40, n.mapper40, s.mapper40, |c: Mapper40, st: Mapper40State| mapper40_agrees(c, st))
    &&& slot_restored(m.mapper42, n.mapper42, s.mapper42, |c: Mapper42, st: Mapper42State| mapper42_agrees(c, st))
    &&& slot_restored(m.mapper43, n.mapper43, s.mapper43, |c: Mapper43, st: Mapper43State| mapper43_agrees(c, st))
    &&& slot_restored(m.mapper50, n.mapper50, s.mapper50, |c: Mapper50, st: Mapper50State| mapper50_agrees(c, st))
    &&& slot_restored(m.vrc3, n.vrc3, s.vrc3, |c: Vrc3, st: Vrc3State| vrc3_agrees(c, st))
    &&& slot_restored(m.sunsoft4, n.sunsoft4, s.sunsoft4, |c: Sunsoft4, st: Sunsoft4State| sunsoft4_record(c) == st)
    &&& slot_restored(m.taito_x1005, n.taito_x1005, s.taito_x1005, |c: TaitoX1005, st: TaitoX1005State| x1005_agrees(c, st))
    &&& slot_restored(m.taito_x1017, n.taito_x1017, s.taito_x1017, |c: TaitoX1017, st: TaitoX1017State| x1017_agrees(c, st))
    &&& slot_restored(m.fme7, n.fme7, s.fme7, |c: Fme7, st: Fme7State| fme7_agrees(c, st))
    &&& slot_restored(m.namco163, n.namco163, s.namco163, |c: Namco163, st: Namco163State| n163_record(c) == st)
    &&& slot_restored(m.taito_tc0190, n.taito_tc0190, s.taito_tc0190, |c: TaitoTc0190, st: TaitoTc0190State| tc0190_agrees(c, st))
    &&& slot_restored(m.vrc6, n.vrc6, s.vrc6, |c: Vrc6, st: Vrc6State| vrc6_record(c) == st)
    &&& slot_restored(m.bandai_fcg, n.bandai_fcg, s.bandai_fcg, |c: BandaiFcg, st: BandaiFcgState| bandai_agrees(c, st))
}

/// `c` with the recorded chip slots of `k`.
pub open spec fn with_chips_of(c: Cartridge, k: Cartridge) -> Cartridge {
    Cartridge {
        mmc1: k.mmc1,
        mmc2: k.mmc2,
        mmc3: k.mmc3,
        mmc5: k.mmc5,
        vrc2_vrc4: k.vrc2_vrc4,
        mapper40: k.mapper40,
        mapper42: k.mapper42,
        mapper43: k.mapper43,
        mapper50: k.mapper50,
        vrc3: k.vrc3,
        sunsoft4: k.sunsoft4,
        taito_x1005: k.taito_x1005,
        taito_x1017: k.taito_x1017,
        fme7: k.fme7,
        namco163: k.namco163,
        taito_tc0190: k.taito_tc0190,
        vrc6: k.vrc6,
        bandai_fcg: k.bandai_fcg,
        ..c
    }
}

/// A copy of a byte buffer.
pub fn copy_bytes(v: &Vec<u8>) -> (r: Vec<u8>)
    ensures
        r@ == v@,
{
    let mut r: Vec<u8> = Vec::new();
    let mut i: usize = 0;
    while i < v.len()
        invariant
            i <= v@.len(),
            r@ == v@.take(i as int),
        decreases v@.len() - i,
    {
        r.push(v[i]);
        proof {
            assert(v@.take(i + 1) =~= v@.take(i as int).push(v@[i as int]));
        }
        i += 1;
    }
    proof {
        assert(v@.take(v@.len() as int) =~= v@);
    }
    r
}

/// Overwrites the first `min(len dst, len src)` bytes of `dst` with those
/// of `src`.
pub fn copy_prefix(dst: &mut Vec<u8>, src: &Vec<u8>)
    ensures
        prefix_copied(old(dst)@, src@, final(dst)@),
{
    let k: usize = if dst.len() < src.len() { dst.len() } else { src.len() };
    let mut i: usize = 0;
    while i < k
        invariant
            k <= dst@.len(),
            k <= src@.len(),
            k == if old(dst)@.len() < src@.len() { old(dst)@.len() } else { src@.len() },
            i <= k,
            dst@.len() == old(dst)@.len(),
            forall|j: int| 0 <= j < i ==> dst@[j] == src@[j],
            forall|j: int| i <= j < dst@.len() ==> dst@[j] == old(dst)@[j],
        decreases k - i,
    {
        dst.set(i, src[i]);
        i += 1;
    }
    proof {
        assert(dst@ =~= src@.take(k as int) + old(dst)@.skip(k as int));
    }
}


/// The record of the mmc1 slot.
fn snapshot_mmc1(c: &Option<Mmc1>) -> (r: Option<Mmc1State>)
    ensures
        slot_agrees(*c, r, |m: Mmc1, st: Mmc1State| mmc1_agrees(m, st)),
{
    match c {
        Some(m) => Some(m.snapshot_state()),
        None => None,
    }
}

/// The mmc1 slot after loading its record, where both are there.
fn restore_mmc1(c: Option<Mmc1>, s: &Option<Mmc1State>) -> (r: Option<Mmc1>)
    ensures
        slot_restored(c, r, *s, |m: Mmc1, st: Mmc1State| mmc1_agrees(m, st)),
{
    match c {
        Some(mut m) => {
            match s {
                Some(st) => {
                    m.restore_state(st);
                    Some(m)
                }
                None => Some(m),
            }
        }
        None => None,
    }
}

/// The record of the mmc2 slot.
fn snapshot_mmc2(c: &Option<Mmc2>) -> (r: Option<Mmc2State>)
    ensures
        slot_agrees(*c, r, |m: Mmc2, st: Mmc2State| mmc2_agrees(m, st)),
{
    match c {
        Some(m) => Some(m.snapshot_state()),
        None => None,
    }
}

/// The mmc2 slot after loading its record, where both are there.
fn restore_mmc2(c: Option<Mmc2>, s: &Option<Mmc2State>) -> (r: Option<Mmc2>)
    ensures
        slot_restored(c, r, *s, |m: Mmc2, st: Mmc2State| mmc2_agrees(m, st)),
{
    match c {
        Some(mut m) => {
            match s {
                Some(st) => {
                    m.restore_state(st);
                    Some(m)
                }
                None => Some(m),
            }
        }
        None => None,
    }
}

/// The record of the mmc5 slot.
fn snapshot_mmc5(c: &Option<Mmc5>) -> (r: Option<Mmc5State>)
    ensures
        slot_agrees(*c, r, |m: Mmc5, st: Mmc5State| mmc5_agrees(&m, &st)),
{
    match c {
        Some(m) => Some(m.snapshot_state()),
        None => None,
    }
}

/// The mmc5 slot after loading its record, where both are there.
fn restore_mmc5(c: Option<Mmc5>, s: &Option<Mmc5State>) -> (r: Option<Mmc5>)
    requires
        s matches Some(st) ==> st.audio.pulse1.valid() && st.audio.pulse2.valid(),
    ensures
        slot_restored(c, r, *s, |m: Mmc5, st: Mmc5State| mmc5_agrees(&m, &st)),
{
    match c {
        Some(mut m) => {
            match s {
                Some(st) => {
                    m.restore_state(st);
                    Some(m)
                }
                None => Some(m),
            }
        }
        None => None,
    }
}

/// The record of the vrc2_vrc4 slot.
fn snapshot_vrc2_vrc4(c: &Option<Vrc2Vrc4>) -> (r: Option<Vrc2Vrc4State>)
    ensures
        slot_agrees(*c, r, |m: Vrc2Vrc4, st: Vrc2Vrc4State| vrc24_agrees(m, st)),
{
    match c {
        Some(m) => Some(m.snapshot_state()),
        None => None,
    }
}

/// The vrc2_vrc4 slot after loading its record, where both are there.
fn restore_vrc2_vrc4(c: Option<Vrc2Vrc4>, s: &Option<Vrc2Vrc4State>) -> (r: Option<Vrc2Vrc4>)
    ensures
        slot_restored(c, r, *s, |m: Vrc2Vrc4, st: Vrc2Vrc4State| vrc24_agrees(m, st)),
{
    match c {
        Some(mut m) => {
            match s {
                Some(st) => {
                    m.restore_state(st);
                    Some(m)
                }
                None => Some(m),
            }
        }
        None => None,
    }
}

/// The record of the mapper40 slot.
fn snapshot_mapper40(c: &Option<Mapper40>) -> (r: Option<Mapper40State>)
    ensures
        slot_agrees(*c, r, |m: Mapper40, st: Mapper40State| mapper40_agrees(m, st)),
{
    match c {
        Some(m) => Some(m.snapshot_state()),
        None => None,
    }
}

/// The mapper40 slot after loading its record, where both are there.
fn restore_mapper40(c: Option<Mapper40>, s: &Option<Mapper40State>) -> (r: Option<Mapper40>)
    ensures
        slot_restored(c, r, *s, |m: Mapper40, st: Mapper40State| mapper40_agrees(m, st)),
{
    match c {
        Some(mut m) => {
            match s {
                Some(st) => {
                    m.restore_state(st);
                    Some(m)
                }
                None => Some(m),
            }
        }
        None => None,
    }
}

/// The record of the mapper42 slot.
fn snapshot_mapper42(c: &Option<Mapper42>) -> (r: Option<Mapper42State>)
    ensures
        slot_agrees(*c, r, |m: Mapper42, st: Mapper42State| mapper42_agrees(m, st)),
{
    match c {
        Some(m) => Some(m.snapshot_state()),
        None => None,
    }
}

/// The mapper42 slot after loading its record, where both are there.
fn restore_mapper42(c: Option<Mapper42>, s: &Option<Mapper42State>) -> (r: Option<Mapper42>)
    ensures
        slot_restored(c, r, *s, |m: Mapper42, st: Mapper42State| mapper42_agrees(m, st)),
{
    match c {
        Some(mut m) => {
            match s {
                Some(st) => {
                    m.restore_state(st);
                    Some(m)
                }
                None => Some(m),
            }
        }
        None => None,
    }
}

/// The record of the mapper43 slot.
fn snapshot_mapper43(c: &Option<Mapper43>) -> (r: Option<Mapper43State>)
    ensures
        slot_agrees(*c, r, |m: Mapper43, st: Mapper43State| mapper43_agrees(m, st)),
{
    match c {
        Some(m) => Some(m.snapshot_state()),
        None => None,
    }
}

/// The mapper43 slot after loading its record, where both are there.
fn restore_mapper43(c: Option<Mapper43>, s: &Option<Mapper43State>) -> (r: Option<Mapper43>)
    ensures
        slot_restored(c, r, *s, |m: Mapper43, st: Mapper43State| mapper43_agrees(m, st)),
{
    match c {
        Some(mut m) => {
            match s {
                Some(st) => {
                    m.restore_state(st);
                    Some(m)
                }
                None => Some(m),
            }
        }
        None => None,
    }
}

/// The record of the mapper50 slot.
fn snapshot_mapper50(c: &Option<Mapper50>) -> (r: Option<Mapper50State>)
    ensures
        slot_agrees(*c, r, |m: Mapper50, st: Mapper50State| mapper50_agrees(m, st)),
{
    match c {
        Some(m) => Some(m.snapshot_state()),
        None => None,
    }
}

/// The mapper50 slot after loading its record, where both are there.
fn restore_mapper50(c: Option<Mapper50>, s: &Option<Mapper50State>) -> (r: Option<Mapper50>)
    ensures
        slot_restored(c, r, *s, |m: Mapper50, st: Mapper50State| mapper50_agrees(m, st)),
{
    match c {
        Some(mut m) => {
            match s {
                Some(st) => {
                    m.restore_state(st);
                    Some(m)
                }
                None => Some(m),
            }
        }
        None => None,
    }
}

/// The record of the vrc3 slot.
fn snapshot_vrc3(c: &Option<Vrc3>) -> (r: Option<Vrc3State>)
    ensures
        slot_agrees(*c, r, |m: Vrc3, st: Vrc3State| vrc3_agrees(m, st)),
{
    match c {
        Some(m) => Some(m.snapshot_state()),
        None => None,
    }
}

/// The vrc3 slot after loading its record, where both are there.
fn restore_vrc3(c: Option<Vrc3>, s: &Option<Vrc3State>) -> (r: Option<Vrc3>)
    ensures
        slot_restored(c, r, *s, |m: Vrc3, st: Vrc3State| vrc3_agrees(m, st)),
{
    match c {
        Some(mut m) => {
            match s {
                Some(st) => {
                    m.restore_state(st);
                    Some(m)
                }
                None => Some(m),
            }
        }
        None => None,
    }
}

/// The record of the sunsoft4 slot.
fn snapshot_sunsoft4(c: &Option<Sunsoft4>) -> (r: Option<Sunsoft4State>)
    ensures
        slot_agrees(*c, r, |m: Sunsoft4, st: Sunsoft4State| sunsoft4_record(m) == st),
{
    match c {
        Some(m) => Some(m.snapshot_state()),
        None => None,
    }
}

/// The sunsoft4 slot after loading its record, where both are there.
fn restore_sunsoft4(c: Option<Sunsoft4>, s: &Option<Sunsoft4State>) -> (r: Option<Sunsoft4>)
    ensures
        slot_restored(c, r, *s, |m: Sunsoft4, st: Sunsoft4State| sunsoft4_record(m) == st),
{
    match c {
        Some(mut m) => {
            match s {
                Some(st) => {
                    m.restore_state(st);
                    Some(m)
                }
                None => Some(m),
            }
        }
        None => None,
    }
}

/// The record of the taito_x1005 slot.
fn snapshot_taito_x1005(c: &Option<TaitoX1005>) -> (r: Option<TaitoX1005State>)
    ensures
        slot_agrees(*c, r, |m: TaitoX1005, st: TaitoX1005State| x1005_agrees(m, st)),
{
    match c {
        Some(m) => Some(m.snapshot_state()),
        None => None,
    }
}

/// The taito_x1005 slot after loading its record, where both are there.
fn restore_taito_x1005(c: Option<TaitoX1005>, s: &Option<TaitoX1005State>) -> (r: Option<TaitoX1005>)
    ensures
        slot_restored(c, r, *s, |m: TaitoX1005, st: TaitoX1005State| x1005_agrees(m, st)),
{
    match c {
        Some(mut m) => {
            match s {
                Some(st) => {
                    m.restore_state(st);
                    Some(m)
                }
                None => Some(m),
            }
        }
        None => None,
    }
}

/// The record of the taito_x1017 slot.
fn snapshot_taito_x1017(c: &Option<TaitoX1017>) -> (r: Option<TaitoX1017State>)
    ensures
        slot_agrees(*c, r, |m: TaitoX1017, st: TaitoX1017State| x1017_agrees(m, st)),
{
    match c {
        Some(m) => Some(m.snapshot_state()),
        None => None,
    }
}

/// The taito_x1017 slot after loading its record, where both are there.
fn restore_taito_x1017(c: Option<TaitoX1017>, s: &Option<TaitoX1017State>) -> (r: Option<TaitoX1017>)
    ensures
        slot_restored(c, r, *s, |m: TaitoX1017, st: TaitoX1017State| x1017_agrees(m, st)),
{
    match c {
        Some(mut m) => {
            match s {
                Some(st) => {
                    m.restore_state(st);
                    Some(m)
                }
                None => Some(m),
            }
        }
        None => None,
    }
}

/// The record of the namco163 slot.
fn snapshot_namco163(c: &Option<Namco163>) -> (r: Option<Namco163State>)
    ensures
        slot_agrees(*c, r, |m: Namco163, st: Namco163State| n163_record(m) == st),
{
    match c {
        Some(m) => Some(m.snapshot_state()),
        None => None,
    }
}

/// The namco163 slot after loading its record, where both are there.
fn restore_namco163(c: Option<Namco163>, s: &Option<Namco163State>) -> (r: Option<Namco163>)
    ensures
        slot_restored(c, r, *s, |m: Namco163, st: Namco163State| n163_record(m) == st),
{
    match c {
        Some(mut m) => {
            match s {
                Some(st) => {
                    m.restore_state(st);
                    Some(m)
                }
                None => Some(m),
            }
        }
        None => None,
    }
}

/// The record of the mmc3 slot.
fn snapshot_mmc3(c: &Option<Mmc3>) -> (r: Option<Mmc3State>)
    ensures
        slot_agrees(*c, r, |m: Mmc3, st: Mmc3State| mmc3_agrees(m, st)),
{
    match c {
        Some(m) => Some(Mmc3State {
            bank_select: m.bank_select,
            bank_registers: m.bank_registers,
            extra_bank_registers: [0u8; 8],
            irq_latch: m.irq_latch,
            irq_counter: m.irq_counter,
            irq_reload: m.irq_reload,
            irq_enabled: m.irq_enabled,
            irq_pending: m.irq_pending,
            prg_ram_enabled: m.prg_ram_enabled,
            prg_ram_write_protect: m.prg_ram_write_protect,
            irq_cycle_mode: false,
            irq_prescaler: default_mmc3_irq_prescaler(),
            irq_delay: 0,
        }),
        None => None,
    }
}

/// The mmc3 slot after loading its record, where both are there.
fn restore_mmc3(c: Option<Mmc3>, s: &Option<Mmc3State>) -> (r: Option<Mmc3>)
    ensures
        slot_restored(c, r, *s, |m: Mmc3, st: Mmc3State| mmc3_agrees(m, st)),
{
    match c {
        Some(mut m) => {
            match s {
                Some(st) => {
                    m.bank_select = st.bank_select;
            m.bank_registers = st.bank_registers;
            m.irq_latch = st.irq_latch;
            m.irq_counter = st.irq_counter;
            m.irq_reload = st.irq_reload;
            m.irq_enabled = st.irq_enabled;
            m.irq_pending = st.irq_pending;
            m.prg_ram_enabled = st.prg_ram_enabled;
            m.prg_ram_write_protect = st.prg_ram_write_protect;
                    Some(m)
                }
                None => Some(m),
            }
        }
        None => None,
    }
}

/// The record of the fme7 slot.
fn snapshot_fme7(c: &Option<Fme7>) -> (r: Option<Fme7State>)
    ensures
        slot_agrees(*c, r, |m: Fme7, st: Fme7State| fme7_agrees(m, st)),
{
    match c {
        Some(m) => Some(Fme7State {
            command: m.command,
            chr_banks: m.chr_banks,
            prg_banks: m.prg_banks,
            prg_bank_6000: m.prg_bank_6000,
            prg_ram_enabled: m.prg_ram_enabled,
            prg_ram_select: m.prg_ram_select,
            irq_counter: m.irq_counter,
            irq_counter_enabled: m.irq_counter_enabled,
            irq_enabled: m.irq_enabled,
            irq_pending: m.irq_pending,
        }),
        None => None,
    }
}

/// The fme7 slot after loading its record, where both are there.
fn restore_fme7(c: Option<Fme7>, s: &Option<Fme7State>) -> (r: Option<Fme7>)
    ensures
        slot_restored(c, r, *s, |m: Fme7, st: Fme7State| fme7_agrees(m, st)),
{
    match c {
        Some(mut m) => {
            match s {
                Some(st) => {
                    m.command = st.command;
            m.chr_banks = st.chr_banks;
            m.prg_banks = st.prg_banks;
            m.prg_bank_6000 = st.prg_bank_6000;
            m.prg_ram_enabled = st.prg_ram_enabled;
            m.prg_ram_select = st.prg_ram_select;
            m.irq_counter = st.irq_counter;
            m.irq_counter_enabled = st.irq_counter_enabled;
            m.irq_enabled = st.irq_enabled;
            m.irq_pending = st.irq_pending;
                    Some(m)
                }
                None => Some(m),
            }
        }
        None => None,
    }
}

/// The record of the taito_tc0190 slot.
fn snapshot_taito_tc0190(c: &Option<TaitoTc0190>) -> (r: Option<TaitoTc0190State>)
    ensures
        slot_agrees(*c, r, |m: TaitoTc0190, st: TaitoTc0190State| tc0190_agrees(m, st)),
{
    match c {
        Some(m) => Some(TaitoTc0190State {
            prg_banks: m.prg_banks,
            chr_banks: m.chr_banks,
            irq_latch: 0,
            irq_counter: 0,
            irq_reload: false,
            irq_enabled: false,
            irq_pending: false,
            irq_delay: 0,
        }),
        None => None,
    }
}

/// The taito_tc0190 slot after loading its record, where both are there.
fn restore_taito_tc0190(c: Option<TaitoTc0190>, s: &Option<TaitoTc0190State>) -> (r: Option<TaitoTc0190>)
    ensures
        slot_restored(c, r, *s, |m: TaitoTc0190, st: TaitoTc0190State| tc0190_agrees(m, st)),
{
    match c {
        Some(mut m) => {
            match s {
                Some(st) => {
                    m.prg_banks = st.prg_banks;
                    m.chr_banks = st.chr_banks;
                    Some(m)
                }
                None => Some(m),
            }
        }
        None => None,
    }
}

/// The record of the vrc6 slot.
fn snapshot_vrc6(c: &Option<Vrc6>) -> (r: Option<Vrc6State>)
    ensures
        slot_agrees(*c, r, |m: Vrc6, st: Vrc6State| vrc6_record(m) == st),
{
    match c {
        Some(m) => Some(m.snapshot_state()),
        None => None,
    }
}

/// The vrc6 slot after loading its record, where both are there.
fn restore_vrc6(c: Option<Vrc6>, s: &Option<Vrc6State>) -> (r: Option<Vrc6>)
    ensures
        slot_restored(c, r, *s, |m: Vrc6, st: Vrc6State| vrc6_record(m) == st),
{
    match c {
        Some(mut m) => {
            match s {
                Some(st) => {
                    m.restore_state(st);
                    Some(m)
                }
                None => Some(m),
            }
        }
        None => None,
    }
}

/// The record of the bandai_fcg slot.
fn snapshot_bandai_fcg(c: &Option<BandaiFcg>) -> (r: Option<BandaiFcgState>)
    ensures
        slot_agrees(*c, r, |m: BandaiFcg, st: BandaiFcgState| bandai_agrees(m, st)),
{
    match c {
        Some(m) => Some(BandaiFcgState {
            chr_banks: m.chr_banks,
            prg_bank: m.prg_bank,
            irq_counter: m.irq_counter,
            irq_latch: m.irq_latch,
            irq_enabled: m.irq_enabled,
            irq_pending: m.irq_pending,
            outer_prg_bank: 0,
            prg_ram_enabled: false,
        }),
        None => None,
    }
}

/// The bandai_fcg slot after loading its record, where both are there.
fn restore_bandai_fcg(c: Option<BandaiFcg>, s: &Option<BandaiFcgState>) -> (r: Option<BandaiFcg>)
    ensures
        slot_restored(c, r, *s, |m: BandaiFcg, st: BandaiFcgState| bandai_agrees(m, st)),
{
    match c {
        Some(mut m) => {
            match s {
                Some(st) => {
                    m.chr_banks = st.chr_banks;
                    m.prg_bank = st.prg_bank;
                    m.irq_counter = st.irq_counter;
                    m.irq_latch = st.irq_latch;
                    m.irq_enabled = st.irq_enabled;
                    m.irq_pending = st.irq_pending;
                    Some(m)
                }
                None => Some(m),
            }
        }
        None => None,
    }
}

impl Cartridge {
    /// The save-state record of the cartridge (see `cartridge_agrees`); its
    /// first PRG and CHR banks are those the board reports.
    pub fn snapshot_state(&self) -> (s: CartridgeState)
        ensures
            cartridge_agrees(*self, s),
            s.prg_bank == first_prg_bank(*self),
            s.chr_bank == first_chr_bank(*self),
    {
        CartridgeState {
            mapper: self.mapper,
            mirroring: self.mirroring,
            prg_bank: self.get_prg_bank(),
            chr_bank: self.get_chr_bank(),
            prg_ram: copy_bytes(&self.prg_ram),
            chr_ram: copy_bytes(&self.chr_ram),
            has_valid_save_data: self.has_valid_save_data,
            chr_bank_1: self.chr_bank_1,
            mapper34_nina001: self.mapper34_nina001,
            mapper93_chr_ram_enabled: self.mapper93_chr_ram_enabled,
            mapper191_outer_bank: self.mapper191_outer_bank,
            mapper195_mode: self.mapper195_mode,
            mapper230_contra_mode: self.mapper230_contra_mode,
            mapper185_disabled_reads: self.mapper185_disabled_reads,
            mapper142_bank_select: self.mapper142_bank_select,
            mapper142_prg_banks: self.mapper142_prg_banks,
            latches: self.latches,
            multicart: self.multicart,
            mmc1: snapshot_mmc1(&self.mmc1),
            mmc2: snapshot_mmc2(&self.mmc2),
            mmc5: snapshot_mmc5(&self.mmc5),
            vrc2_vrc4: snapshot_vrc2_vrc4(&self.vrc2_vrc4),
            mapper40: snapshot_mapper40(&self.mapper40),
            mapper42: snapshot_mapper42(&self.mapper42),
            mapper43: snapshot_mapper43(&self.mapper43),
            mapper50: snapshot_mapper50(&self.mapper50),
            vrc3: snapshot_vrc3(&self.vrc3),
            sunsoft4: snapshot_sunsoft4(&self.sunsoft4),
            taito_x1005: snapshot_taito_x1005(&self.taito_x1005),
            taito_x1017: snapshot_taito_x1017(&self.taito_x1017),
            namco163: snapshot_namco163(&self.namco163),
            taito_tc0190: snapshot_taito_tc0190(&self.taito_tc0190),
            vrc6: snapshot_vrc6(&self.vrc6),
            bandai_fcg: snapshot_bandai_fcg(&self.bandai_fcg),
            mmc3: snapshot_mmc3(&self.mmc3),
            fme7: snapshot_fme7(&self.fme7),
        }
    }

    /// Loads a save-state record. A record of another mapper is ignored;
    /// otherwise see `cartridge_restored`.
    pub fn restore_state(&mut self, s: &CartridgeState)
        requires
            record_in_range(*s),
        ensures
            old(self).mapper != s.mapper ==> *final(self) == *old(self),
            old(self).mapper == s.mapper ==> cartridge_restored(*old(self), *final(self), *s),
    {
        if s.mapper != self.mapper {
            return;
        }
        let ghost o = *self;
        self.mirroring = s.mirroring;
        let ghost m0 = *self;
        self.set_prg_bank(s.prg_bank);
        let ghost m1 = *self;
        self.set_chr_bank(s.chr_bank);
        let ghost m2 = *self;
        self.load_registers(s);
        self.load_chips(s);
        proof {
            assert(m0 == Cartridge { mirroring: s.mirroring, ..o });
            assert(registers_restored(m2, *self, *s));
            assert(chips_restored(m2, *self, *s));
            assert(restored_over(m2, *self, *s));
            assert(prg_bank_set(m0, m1, s.prg_bank) && chr_bank_set(m1, m2, s.chr_bank));
        }
    }

    /// The board registers and RAM prefixes of a record (see
    /// `registers_restored`); the recorded chips stay.
    fn load_registers(&mut self, s: &CartridgeState)
        ensures
            registers_restored(*old(self), *final(self), *s),
            with_chips_of(*final(self), *old(self)) == *final(self),
    {
        if let Some(v) = &s.vrc2_vrc4 {
            self.prg_bank = v.prg_banks[0];
            self.chr_bank = v.chr_banks[0] as u8;
        }
        self.has_valid_save_data = s.has_valid_save_data;
        self.chr_bank_1 = s.chr_bank_1;
        self.mapper34_nina001 = s.mapper34_nina001;
        self.mapper93_chr_ram_enabled = s.mapper93_chr_ram_enabled;
        self.mapper191_outer_bank = s.mapper191_outer_bank;
        self.mapper195_mode = s.mapper195_mode;
        self.mapper230_contra_mode = s.mapper230_contra_mode;
        self.mapper185_disabled_reads = s.mapper185_disabled_reads;
        self.mapper142_bank_select = s.mapper142_bank_select;
        self.mapper142_prg_banks = s.mapper142_prg_banks;
        self.latches = s.latches;
        self.multicart = s.multicart;
        copy_prefix(&mut self.prg_ram, &s.prg_ram);
        copy_prefix(&mut self.chr_ram, &s.chr_ram);
    }

    /// The chip records of a record (see `chips_restored`); all else stays.
    fn load_chips(&mut self, s: &CartridgeState)
        requires
            record_in_range(*s),
        ensures
            chips_restored(*old(self), *final(self), *s),
            with_chips_of(*old(self), *final(self)) == *final(self),
    {
        self.mmc1 = restore_mmc1(self.mmc1.take(), &s.mmc1);
        self.mmc2 = restore_mmc2(self.mmc2.take(), &s.mmc2);
        self.mmc5 = restore_mmc5(self.mmc5.take(), &s.mmc5);
        self.vrc2_vrc4 = restore_vrc2_vrc4(self.vrc2_vrc4.take(), &s.vrc2_vrc4);
        self.mapper40 = restore_mapper40(self.mapper40.take(), &s.mapper40);
        self.mapper42 = restore_mapper42(self.mapper42.take(), &s.mapper42);
        self.mapper43 = restore_mapper43(self.mapper43.take(), &s.mapper43);
        self.mapper50 = restore_mapper50(self.mapper50.take(), &s.mapper50);
        self.vrc3 = restore_vrc3(self.vrc3.take(), &s.vrc3);
        self.sunsoft4 = restore_sunsoft4(self.sunsoft4.take(), &s.sunsoft4);
        self.taito_x1005 = restore_taito_x1005(self.taito_x1005.take(), &s.taito_x1005);
        self.taito_x1017 = restore_taito_x1017(self.taito_x1017.take(), &s.taito_x1017);
        self.namco163 = restore_namco163(self.namco163.take(), &s.namco163);
        self.taito_tc0190 = restore_taito_tc0190(self.taito_tc0190.take(), &s.taito_tc0190);
        self.vrc6 = restore_vrc6(self.vrc6.take(), &s.vrc6);
        self.bandai_fcg = restore_bandai_fcg(self.bandai_fcg.take(), &s.bandai_fcg);
        self.mmc3 = restore_mmc3(self.mmc3.take(), &s.mmc3);
        self.fme7 = restore_fme7(self.fme7.take(), &s.fme7);
    }
}

/// Law of the save states: restoring into a cartridge a record that fits it
/// and that was taken from another cartridge leaves the two alike in every
/// recorded part: registers, both RAMs and each chip's registers. Any
/// record of one is then a record of the other.
pub proof fn lemma_restore_of_snapshot(a: Cartridge, b0: Cartridge, b1: Cartridge, s: CartridgeState)
    requires
        cartridge_agrees(a, s),
        record_fits(b0, s),
        cartridge_restored(b0, b1, s),
    ensures
        cartridge_agrees(b1, s),
        forall|t: CartridgeState| cartridge_agrees(a, t) <==> cartridge_agrees(b1, t),
{
    let (m1, m2) = choose|m1: Cartridge, m2: Cartridge|
        prg_bank_set(Cartridge { mirroring: s.mirroring, ..b0 }, m1, s.prg_bank)
        && chr_bank_set(m1, m2, s.chr_bank)
        && restored_over(m2, b1, s);
    assert(b1.prg_ram@ =~= s.prg_ram@);
    assert(b1.chr_ram@ =~= s.chr_ram@);
    assert(cartridge_agrees(b1, s));
}

}

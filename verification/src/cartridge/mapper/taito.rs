//! Taito TC0190/TC0350 (mappers 33, 48) and X1-005/X1-017 (mappers 80, 82,
//! 207) bank registers.

use vstd::prelude::*;
use crate::cartridge::state::{TaitoX1005State, TaitoX1017State};

verus! {

#[derive(Debug, Clone)]
pub struct TaitoTc0190 {
    pub prg_banks: [u8; 2],
    pub chr_banks: [u8; 6],
}

#[derive(Debug, Clone)]
pub struct TaitoX1005 {
    pub prg_banks: [u8; 3],
    pub chr_banks: [u8; 6],
    pub ram_enabled: bool,
}

#[derive(Debug, Clone)]
pub struct TaitoX1017 {
    pub prg_banks: [u8; 3],
    pub chr_banks: [u8; 6],
    pub ram_enabled: [bool; 3],
    pub chr_invert: bool,
}

/// The power-on state of the chip.
pub open spec fn tc0190_power_on(t: TaitoTc0190) -> bool {
    &&& t.prg_banks@ =~= seq![0u8, 1]
    &&& t.chr_banks@ =~= seq![0u8, 1, 2, 3, 4, 5]
}

impl TaitoTc0190 {
    /// Power-on state: identity PRG and CHR banks.
    pub fn new() -> (t: TaitoTc0190)
        ensures
            tc0190_power_on(t),
    {
        TaitoTc0190 { prg_banks: [0, 1], chr_banks: [0, 1, 2, 3, 4, 5] }
    }
}

/// The power-on state of the chip.
pub open spec fn x1005_power_on(t: TaitoX1005) -> bool {
    &&& t.prg_banks@ =~= seq![0u8, 1, 2]
    &&& t.chr_banks@ =~= seq![0u8, 1, 2, 3, 4, 5]
    &&& !t.ram_enabled
}

impl TaitoX1005 {
    /// Power-on state: identity PRG and CHR banks, RAM locked.
    pub fn new() -> (t: TaitoX1005)
        ensures
            x1005_power_on(t),
    {
        TaitoX1005 { prg_banks: [0, 1, 2], chr_banks: [0, 1, 2, 3, 4, 5], ram_enabled: false }
    }
    /// The save-state record of the chip.
    pub fn snapshot_state(&self) -> (s: TaitoX1005State)
        ensures
            s.prg_banks == self.prg_banks,
            s.chr_banks == self.chr_banks,
            s.ram_enabled == self.ram_enabled,
    {
        TaitoX1005State {
            prg_banks: self.prg_banks,
            chr_banks: self.chr_banks,
            ram_enabled: self.ram_enabled,
        }
    }

    /// Loads the chip's registers from a save-state record.
    pub fn restore_state(&mut self, state: &TaitoX1005State)
        ensures
            final(self).prg_banks == state.prg_banks,
            final(self).chr_banks == state.chr_banks,
            final(self).ram_enabled == state.ram_enabled,
    {
        self.prg_banks = state.prg_banks;
        self.chr_banks = state.chr_banks;
        self.ram_enabled = state.ram_enabled;
    }

}

/// The power-on state of the chip.
pub open spec fn x1017_power_on(t: TaitoX1017) -> bool {
    &&& t.prg_banks@ =~= seq![0u8, 1, 2]
    &&& t.chr_banks@ =~= seq![0u8, 1, 2, 3, 4, 5]
    &&& t.ram_enabled@ =~= seq![false, false, false]
    &&& !t.chr_invert
}

impl TaitoX1017 {
    /// Power-on state: identity PRG and CHR banks, all RAM pages locked, no
    /// CHR inversion.
    pub fn new() -> (t: TaitoX1017)
        ensures
            x1017_power_on(t),
    {
        TaitoX1017 {
            prg_banks: [0, 1, 2],
            chr_banks: [0, 1, 2, 3, 4, 5],
            ram_enabled: [false; 3],
            chr_invert: false,
        }
    }
    /// The save-state record of the chip.
    pub fn snapshot_state(&self) -> (s: TaitoX1017State)
        ensures
            s.prg_banks == self.prg_banks,
            s.chr_banks == self.chr_banks,
            s.ram_enabled == self.ram_enabled,
            s.chr_invert == self.chr_invert,
    {
        TaitoX1017State {
            prg_banks: self.prg_banks,
            chr_banks: self.chr_banks,
            ram_enabled: self.ram_enabled,
            chr_invert: self.chr_invert,
        }
    }

    /// Loads the chip's registers from a save-state record.
    pub fn restore_state(&mut self, state: &TaitoX1017State)
        ensures
            final(self).prg_banks == state.prg_banks,
            final(self).chr_banks == state.chr_banks,
            final(self).ram_enabled == state.ram_enabled,
            final(self).chr_invert == state.chr_invert,
    {
        self.prg_banks = state.prg_banks;
        self.chr_banks = state.chr_banks;
        self.ram_enabled = state.ram_enabled;
        self.chr_invert = state.chr_invert;
    }

}

} // verus!

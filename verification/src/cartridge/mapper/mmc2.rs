//! Nintendo MMC2/MMC4 (mappers 9 and 10): CHR banks switched by PPU latches.

use vstd::prelude::*;
use crate::cartridge::state::{Mmc2State};

verus! {

#[derive(Debug, Clone)]
pub struct Mmc2 {
    pub prg_bank: u8,
    pub chr_bank_0_fd: u8,
    pub chr_bank_0_fe: u8,
    pub chr_bank_1_fd: u8,
    pub chr_bank_1_fe: u8,
    /// false selects the $FD bank, true the $FE bank.
    pub latch_0: bool,
    pub latch_1: bool,
}

/// The power-on state of the chip.
pub open spec fn mmc2_power_on(m: Mmc2) -> bool {
    m == (Mmc2 {
        prg_bank: 0,
        chr_bank_0_fd: 0,
        chr_bank_0_fe: 0,
        chr_bank_1_fd: 0,
        chr_bank_1_fe: 0,
        latch_0: true,
        latch_1: true,
    })
}

impl Mmc2 {
    /// Power-on state: all banks 0, both latches on the $FE bank.
    pub fn new() -> (m: Mmc2)
        ensures
            mmc2_power_on(m),
    {
        Mmc2 {
            prg_bank: 0,
            chr_bank_0_fd: 0,
            chr_bank_0_fe: 0,
            chr_bank_1_fd: 0,
            chr_bank_1_fe: 0,
            latch_0: true,
            latch_1: true,
        }
    }
    /// The save-state record of the chip.
    pub fn snapshot_state(&self) -> (s: Mmc2State)
        ensures
            s.prg_bank == self.prg_bank,
            s.chr_bank_0_fd == self.chr_bank_0_fd,
            s.chr_bank_0_fe == self.chr_bank_0_fe,
            s.chr_bank_1_fd == self.chr_bank_1_fd,
            s.chr_bank_1_fe == self.chr_bank_1_fe,
            s.latch_0 == self.latch_0,
            s.latch_1 == self.latch_1,
    {
        Mmc2State {
            prg_bank: self.prg_bank,
            chr_bank_0_fd: self.chr_bank_0_fd,
            chr_bank_0_fe: self.chr_bank_0_fe,
            chr_bank_1_fd: self.chr_bank_1_fd,
            chr_bank_1_fe: self.chr_bank_1_fe,
            latch_0: self.latch_0,
            latch_1: self.latch_1,
        }
    }

    /// Loads the chip's registers from a save-state record.
    pub fn restore_state(&mut self, state: &Mmc2State)
        ensures
            final(self).prg_bank == state.prg_bank,
            final(self).chr_bank_0_fd == state.chr_bank_0_fd,
            final(self).chr_bank_0_fe == state.chr_bank_0_fe,
            final(self).chr_bank_1_fd == state.chr_bank_1_fd,
            final(self).chr_bank_1_fe == state.chr_bank_1_fe,
            final(self).latch_0 == state.latch_0,
            final(self).latch_1 == state.latch_1,
    {
        self.prg_bank = state.prg_bank;
        self.chr_bank_0_fd = state.chr_bank_0_fd;
        self.chr_bank_0_fe = state.chr_bank_0_fe;
        self.chr_bank_1_fd = state.chr_bank_1_fd;
        self.chr_bank_1_fe = state.chr_bank_1_fe;
        self.latch_0 = state.latch_0;
        self.latch_1 = state.latch_1;
    }

}

} // verus!

//! The latches of the address-latch multicart boards (mappers 58, 202, 212,
//! 221, 225-228, 230, 233-235, 242): PRG layout switches, outer banks and
//! the raw latched addresses.

use vstd::prelude::*;

verus! {

/// Multicart board latches; all clear at power-on.
#[derive(Debug, Clone, Copy)]
pub struct MulticartLatches {
    pub mapper58_nrom128: bool,
    pub mapper202_32k_mode: bool,
    pub mapper212_32k_mode: bool,
    pub mapper221_mode: u8,
    pub mapper221_outer_bank: u8,
    pub mapper221_chr_write_protect: bool,
    pub mapper225_nrom128: bool,
    pub mapper226_nrom128: bool,
    pub mapper227_latch: u16,
    pub mapper228_chip_select: u8,
    pub mapper228_nrom128: bool,
    pub mapper230_nrom128: bool,
    pub mapper233_nrom128: bool,
    pub mapper234_reg0: u8,
    pub mapper234_reg1: u8,
    pub mapper235_nrom128: bool,
    pub mapper242_latch: u16,
}

impl MulticartLatches {
    /// Every latch cleared.
    pub open spec fn cleared() -> MulticartLatches {
        MulticartLatches {
            mapper58_nrom128: false,
            mapper202_32k_mode: false,
            mapper212_32k_mode: false,
            mapper221_mode: 0,
            mapper221_outer_bank: 0,
            mapper221_chr_write_protect: false,
            mapper225_nrom128: false,
            mapper226_nrom128: false,
            mapper227_latch: 0,
            mapper228_chip_select: 0,
            mapper228_nrom128: false,
            mapper230_nrom128: false,
            mapper233_nrom128: false,
            mapper234_reg0: 0,
            mapper234_reg1: 0,
            mapper235_nrom128: false,
            mapper242_latch: 0,
        }
    }

    /// The power-on latches.
    pub fn new() -> (l: MulticartLatches)
        ensures
            l == MulticartLatches::cleared(),
    {
        MulticartLatches {
            mapper58_nrom128: false,
            mapper202_32k_mode: false,
            mapper212_32k_mode: false,
            mapper221_mode: 0,
            mapper221_outer_bank: 0,
            mapper221_chr_write_protect: false,
            mapper225_nrom128: false,
            mapper226_nrom128: false,
            mapper227_latch: 0,
            mapper228_chip_select: 0,
            mapper228_nrom128: false,
            mapper230_nrom128: false,
            mapper233_nrom128: false,
            mapper234_reg0: 0,
            mapper234_reg1: 0,
            mapper235_nrom128: false,
            mapper242_latch: 0,
        }
    }
}

} // verus!

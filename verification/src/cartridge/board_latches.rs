//! Board latches that live beside the mapper chips: the Caltron 6-in-1's
//! inner CHR latch, the Sachen boards' eight-entry register files and the
//! protection registers of mapper 208.

use vstd::prelude::*;

verus! {

/// The latches of the Caltron (mapper 41), Sachen (mappers 137, 150,
/// 243) and Gouder (mapper 208) boards; all zero at power-on.
#[derive(Debug, Clone, Copy)]
pub struct BoardLatches {
    pub mapper41_inner_bank: u8,
    pub mapper137_index: u8,
    pub mapper137_registers: [u8; 8],
    pub mapper150_index: u8,
    pub mapper150_registers: [u8; 8],
    pub mapper243_index: u8,
    pub mapper243_registers: [u8; 8],
    pub mapper208_protection_index: u8,
    pub mapper208_protection_regs: [u8; 4],
}

impl BoardLatches {
    /// Every latch cleared.
    pub fn new() -> (l: BoardLatches)
        ensures
            l.mapper41_inner_bank == 0,
            l.mapper137_index == 0,
            l.mapper137_registers@ == seq![0u8, 0, 0, 0, 0, 0, 0, 0],
            l.mapper150_index == 0,
            l.mapper150_registers@ == seq![0u8, 0, 0, 0, 0, 0, 0, 0],
            l.mapper243_index == 0,
            l.mapper243_registers@ == seq![0u8, 0, 0, 0, 0, 0, 0, 0],
            l.mapper208_protection_index == 0,
            l.mapper208_protection_regs@ == seq![0u8, 0, 0, 0],
    {
        let l = BoardLatches {
            mapper41_inner_bank: 0,
            mapper137_index: 0,
            mapper137_registers: [0; 8],
            mapper150_index: 0,
            mapper150_registers: [0; 8],
            mapper243_index: 0,
            mapper243_registers: [0; 8],
            mapper208_protection_index: 0,
            mapper208_protection_regs: [0; 4],
        };
        assert(l.mapper137_registers@ =~= seq![0u8, 0, 0, 0, 0, 0, 0, 0]);
        assert(l.mapper150_registers@ =~= seq![0u8, 0, 0, 0, 0, 0, 0, 0]);
        assert(l.mapper243_registers@ =~= seq![0u8, 0, 0, 0, 0, 0, 0, 0]);
        assert(l.mapper208_protection_regs@ =~= seq![0u8, 0, 0, 0]);
        l
    }
}

} // verus!

//! Cartridge side of the emulator: nametable mirroring, the mapper chips'
//! register state machines, and the save-state records.

pub mod mapper;
pub mod banks;
pub mod board_latches;
pub mod multicart_latches;
pub mod state;
pub mod load;
pub mod discrete;
pub mod vrc2_vrc4_board;
pub mod mmc2_board;
pub mod fixed_irq_board;
pub mod vrc6_board;
pub mod taito_board;
pub mod bandai_board;
pub mod mmc1_board;
pub mod mmc3_board;
pub mod fme7_board;
pub mod namco108_board;
pub mod vrc3_board;
pub mod mmc5_board;
pub mod latch_boards;
pub mod sachen_boards;
pub mod multicart_boards;
pub mod namco163_board;
pub mod interface;
pub mod mapper208_board;
pub mod dispatch;
pub mod savestate;

use vstd::prelude::*;

verus! {

/// How the four logical nametables map onto nametable memory.
#[derive(Debug, Clone, Copy, PartialEq, Eq, Structural)]
pub enum Mirroring {
    Horizontal,
    HorizontalSwapped,
    ThreeScreenLower,
    Vertical,
    FourScreen,
    OneScreenLower,
    OneScreenUpper,
}

} // verus!

//! Verified core of a NES/Famicom emulator: APU channels, cartridge mapper
//! helpers, the S-SMP timer, the audio frame ring and small command-line
//! helpers.

pub mod snes_timer;
pub mod snes_apu;
pub mod bus_timing;
pub mod snes_boot;
pub mod apu;
pub mod audio;
pub mod cartridge;
pub mod cli;
pub mod bits;

//! Register state machines of the mapper chips: bank registers, scanline and
//! CPU-cycle IRQ counters, serial EEPROM, expansion sound channels.

pub mod sunsoft4;
pub mod fixed_irq;
pub mod vrc3;
pub mod vrc_irq;
pub mod vrc2_vrc4;
pub mod vrc6;
pub mod mmc1;
pub mod mmc2;
pub mod mmc3;
pub mod taito;
pub mod mmc5;
pub mod mmc5_write;
pub mod bandai_fcg;
pub mod fme7;
pub mod namco163;

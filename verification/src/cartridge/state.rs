//! Save-state records of the mapper chips.

use vstd::prelude::*;

verus! {

#[derive(Debug, Clone, PartialEq, Eq)]
pub struct Mmc1State {
    pub shift_register: u8,
    pub shift_count: u8,
    pub control: u8,
    pub chr_bank_0: u8,
    pub chr_bank_1: u8,
    pub prg_bank: u8,
    pub prg_ram_disable: bool,
}

#[derive(Debug, Clone, PartialEq, Eq)]
pub struct Mmc2State {
    pub prg_bank: u8,
    pub chr_bank_0_fd: u8,
    pub chr_bank_0_fe: u8,
    pub chr_bank_1_fd: u8,
    pub chr_bank_1_fe: u8,
    pub latch_0: bool,
    pub latch_1: bool,
}

#[derive(Debug, Clone, PartialEq, Eq)]
pub struct Mmc3State {
    pub bank_select: u8,
    pub bank_registers: [u8; 8],
    pub extra_bank_registers: [u8; 8],
    pub irq_latch: u8,
    pub irq_counter: u8,
    pub irq_reload: bool,
    pub irq_enabled: bool,
    pub irq_pending: bool,
    pub prg_ram_enabled: bool,
    pub prg_ram_write_protect: bool,
    pub irq_cycle_mode: bool,
    pub irq_prescaler: u8,
    pub irq_delay: u8,
}

/// The MMC3 IRQ prescaler value assumed for save states written before the
/// field existed.
pub fn default_mmc3_irq_prescaler() -> (r: u8)
    ensures
        r == 4,
{
    4
}

#[derive(Debug, Clone, Default, PartialEq, Eq)]
pub struct Mmc5PulseState {
    pub duty: u8,
    pub length_counter: u8,
    pub envelope_divider: u8,
    pub envelope_decay: u8,
    pub envelope_disable: bool,
    pub envelope_start: bool,
    pub volume: u8,
    pub timer: u16,
    pub timer_reload: u16,
    pub duty_counter: u8,
    pub length_enabled: bool,
}

#[derive(Debug, Clone, Default, PartialEq, Eq)]
pub struct Mmc5AudioState {
    pub pulse1: Mmc5PulseState,
    pub pulse2: Mmc5PulseState,
    pub pulse1_enabled: bool,
    pub pulse2_enabled: bool,
    pub pcm_irq_enabled: bool,
    pub pcm_read_mode: bool,
    pub pcm_irq_pending: bool,
    pub pcm_dac: u8,
    pub audio_frame_accum: u32,
    pub audio_even_cycle: bool,
}

#[derive(Debug, Clone, PartialEq, Eq)]
pub struct Mmc5State {
    pub prg_mode: u8,
    pub chr_mode: u8,
    pub exram_mode: u8,
    pub prg_ram_protect_1: u8,
    pub prg_ram_protect_2: u8,
    pub nametable_map: [u8; 4],
    pub fill_tile: u8,
    pub fill_attr: u8,
    pub prg_ram_bank: u8,
    pub prg_banks: [u8; 4],
    pub chr_upper: u8,
    pub sprite_chr_banks: [u8; 8],
    pub bg_chr_banks: [u8; 4],
    pub exram: Vec<u8>,
    pub irq_scanline_compare: u8,
    pub irq_enabled: bool,
    pub irq_pending: bool,
    pub in_frame: bool,
    pub scanline_counter: u8,
    pub multiplier_a: u8,
    pub multiplier_b: u8,
    pub split_control: u8,
    pub split_scroll: u8,
    pub split_bank: u8,
    pub ppu_ctrl: u8,
    pub ppu_mask: u8,
    pub cached_tile_x: u8,
    pub cached_tile_y: u8,
    pub cached_ext_palette: u8,
    pub cached_ext_bank: u8,
    pub ppu_data_uses_bg_banks: bool,
    pub audio: Mmc5AudioState,
}

#[derive(Debug, Clone, PartialEq, Eq)]
pub struct Mapper18State {
    pub prg_banks: [u8; 3],
    pub chr_banks: [u8; 8],
    pub prg_ram_enabled: bool,
    pub prg_ram_write_enabled: bool,
    pub irq_reload: u16,
    pub irq_counter: u16,
    pub irq_control: u8,
    pub irq_pending: bool,
}

#[derive(Debug, Clone, PartialEq, Eq)]
pub struct Mapper210State {
    pub chr_banks: [u8; 8],
    pub prg_banks: [u8; 3],
    pub namco340: bool,
    pub prg_ram_enabled: bool,
}

#[derive(Debug, Clone, PartialEq, Eq)]
pub struct Fme7State {
    pub command: u8,
    pub chr_banks: [u8; 8],
    pub prg_banks: [u8; 3],
    pub prg_bank_6000: u8,
    pub prg_ram_enabled: bool,
    pub prg_ram_select: bool,
    pub irq_counter: u16,
    pub irq_counter_enabled: bool,
    pub irq_enabled: bool,
    pub irq_pending: bool,
}

#[derive(Debug, Clone, PartialEq, Eq)]
pub struct BandaiFcgState {
    pub chr_banks: [u8; 8],
    pub prg_bank: u8,
    pub irq_counter: u16,
    pub irq_latch: u16,
    pub irq_enabled: bool,
    pub irq_pending: bool,
    pub outer_prg_bank: u8,
    pub prg_ram_enabled: bool,
}

#[derive(Debug, Clone, PartialEq, Eq)]
pub struct Mapper34State {
    pub nina001: bool,
    pub chr_bank_1: u8,
}

#[derive(Debug, Clone, PartialEq, Eq)]
pub struct Mapper93State {
    pub chr_ram_enabled: bool,
}

#[derive(Debug, Clone, PartialEq, Eq)]
pub struct Mapper184State {
    pub chr_bank_1: u8,
}

#[derive(Debug, Clone, PartialEq, Eq)]
pub struct Vrc1State {
    pub prg_banks: [u8; 3],
    pub chr_bank_0: u8,
    pub chr_bank_1: u8,
}

#[derive(Debug, Clone, PartialEq, Eq)]
pub struct Vrc2Vrc4State {
    pub prg_banks: [u8; 2],
    pub chr_banks: [u16; 8],
    pub wram_enabled: bool,
    pub prg_swap_mode: bool,
    pub vrc4_mode: bool,
    pub latch: u8,
    pub irq_latch: u8,
    pub irq_counter: u8,
    pub irq_enable_after_ack: bool,
    pub irq_enabled: bool,
    pub irq_cycle_mode: bool,
    pub irq_prescaler: i16,
    pub irq_pending: bool,
}

#[derive(Debug, Clone, PartialEq, Eq)]
pub struct Mapper15State {
    pub mode: u8,
    pub data: u8,
}

#[derive(Debug, Clone, PartialEq, Eq)]
pub struct Mapper72State {
    pub last_command: u8,
}

#[derive(Debug, Clone, PartialEq, Eq)]
pub struct Mapper58State {
    pub nrom128: bool,
}

#[derive(Debug, Clone, PartialEq, Eq)]
pub struct Mapper59State {
    pub latch: u16,
    pub locked: bool,
}

#[derive(Debug, Clone, PartialEq, Eq)]
pub struct Mapper60State {
    pub game_select: u8,
}

#[derive(Debug, Clone, PartialEq, Eq)]
pub struct Mapper61State {
    pub latch: u16,
}

#[derive(Debug, Clone, PartialEq, Eq)]
pub struct Mapper63State {
    pub latch: u16,
}

#[derive(Debug, Clone, PartialEq, Eq)]
pub struct Mapper137State {
    pub index: u8,
    pub registers: [u8; 8],
}

#[derive(Debug, Clone, PartialEq, Eq)]
pub struct Mapper142State {
    pub bank_select: u8,
    pub prg_banks: [u8; 4],
}

#[derive(Debug, Clone, PartialEq, Eq)]
pub struct Mapper150State {
    pub index: u8,
    pub registers: [u8; 8],
}

#[derive(Debug, Clone, PartialEq, Eq)]
pub struct Mapper225State {
    pub nrom128: bool,
}

#[derive(Debug, Clone, PartialEq, Eq)]
pub struct Mapper232State {
    pub outer_bank: u8,
}

#[derive(Debug, Clone, PartialEq, Eq)]
pub struct Mapper41State {
    pub inner_bank: u8,
}

#[derive(Debug, Clone, PartialEq, Eq)]
pub struct Mapper40State {
    pub irq_counter: u16,
    pub irq_enabled: bool,
    pub irq_pending: bool,
}

#[derive(Debug, Clone, PartialEq, Eq)]
pub struct Mapper42State {
    pub irq_counter: u16,
    pub irq_enabled: bool,
    pub irq_pending: bool,
}

#[derive(Debug, Clone, PartialEq, Eq)]
pub struct Mapper43State {
    pub irq_counter: u16,
    pub irq_enabled: bool,
    pub irq_pending: bool,
}

#[derive(Debug, Clone, PartialEq, Eq)]
pub struct Mapper50State {
    pub irq_counter: u16,
    pub irq_enabled: bool,
    pub irq_pending: bool,
}

#[derive(Debug, Clone, PartialEq, Eq)]
pub struct IremG101State {
    pub prg_banks: [u8; 2],
    pub chr_banks: [u8; 8],
    pub prg_mode: bool,
}

#[derive(Debug, Clone, PartialEq, Eq)]
pub struct IremH3001State {
    pub prg_banks: [u8; 2],
    pub chr_banks: [u8; 8],
    pub prg_mode: bool,
    pub irq_reload: u16,
    pub irq_counter: u16,
    pub irq_enabled: bool,
    pub irq_pending: bool,
}

#[derive(Debug, Clone, PartialEq, Eq)]
pub struct Vrc3State {
    pub irq_reload: u16,
    pub irq_counter: u16,
    pub irq_enable_on_ack: bool,
    pub irq_enabled: bool,
    pub irq_mode_8bit: bool,
    pub irq_pending: bool,
}

#[derive(Debug, Clone, PartialEq, Eq)]
pub struct Vrc6PulseState {
    pub volume: u8,
    pub duty: u8,
    pub ignore_duty: bool,
    pub period: u16,
    pub enabled: bool,
    pub step: u8,
    pub divider: u16,
}

#[derive(Debug, Clone, PartialEq, Eq)]
pub struct Vrc6SawState {
    pub rate: u8,
    pub period: u16,
    pub enabled: bool,
    pub step: u8,
    pub divider: u16,
    pub accumulator: u8,
}

#[derive(Debug, Clone, PartialEq, Eq)]
pub struct Vrc6State {
    pub prg_bank_16k: u8,
    pub prg_bank_8k: u8,
    pub chr_banks: [u8; 8],
    pub banking_control: u8,
    pub irq_latch: u8,
    pub irq_counter: u8,
    pub irq_enable_after_ack: bool,
    pub irq_enabled: bool,
    pub irq_cycle_mode: bool,
    pub irq_prescaler: i16,
    pub irq_pending: bool,
    pub audio_halt: bool,
    pub audio_freq_shift: u8,
    pub pulse1: Vrc6PulseState,
    pub pulse2: Vrc6PulseState,
    pub saw: Vrc6SawState,
}

#[derive(Debug, Clone, PartialEq, Eq)]
pub struct Mapper233State {
    pub nrom128: bool,
}

#[derive(Debug, Clone, PartialEq, Eq)]
pub struct Mapper234State {
    pub reg0: u8,
    pub reg1: u8,
}

#[derive(Debug, Clone, PartialEq, Eq)]
pub struct Mapper235State {
    pub nrom128: bool,
}

#[derive(Debug, Clone, PartialEq, Eq)]
pub struct Mapper202State {
    pub mode_32k: bool,
}

#[derive(Debug, Clone, PartialEq, Eq)]
pub struct Mapper37State {
    pub outer_bank: u8,
}

#[derive(Debug, Clone, PartialEq, Eq)]
pub struct Mapper44State {
    pub outer_bank: u8,
}

#[derive(Debug, Clone, PartialEq, Eq)]
pub struct Mapper103State {
    pub prg_ram_disabled: bool,
}

#[derive(Debug, Clone, PartialEq, Eq)]
pub struct Mapper12State {
    pub chr_outer: u8,
}

#[derive(Debug, Clone, PartialEq, Eq)]
pub struct Mapper114State {
    pub nrom_override: u8,
    pub chr_outer_bank: u8,
}

#[derive(Debug, Clone, PartialEq, Eq)]
pub struct Mapper115State {
    pub nrom_override: u8,
    pub chr_outer_bank: u8,
}

#[derive(Debug, Clone, PartialEq, Eq)]
pub struct Mapper212State {
    pub mode_32k: bool,
}

#[derive(Debug, Clone, PartialEq, Eq)]
pub struct Mapper47State {
    pub outer_bank: u8,
}

#[derive(Debug, Clone, PartialEq, Eq)]
pub struct Mapper123State {
    pub nrom_override: u8,
}

#[derive(Debug, Clone, PartialEq, Eq)]
pub struct Mapper205State {
    pub block: u8,
}

#[derive(Debug, Clone, PartialEq, Eq)]
pub struct Mapper226State {
    pub nrom128: bool,
}

#[derive(Debug, Clone, PartialEq, Eq)]
pub struct Mapper230State {
    pub contra_mode: bool,
    pub nrom128: bool,
}

#[derive(Debug, Clone, PartialEq, Eq)]
pub struct Mapper228State {
    pub chip_select: u8,
    pub nrom128: bool,
}

#[derive(Debug, Clone, PartialEq, Eq)]
pub struct Mapper242State {
    pub latch: u16,
}

#[derive(Debug, Clone, PartialEq, Eq)]
pub struct Mapper243State {
    pub index: u8,
    pub registers: [u8; 8],
}

#[derive(Debug, Clone, PartialEq, Eq)]
pub struct Mapper221State {
    pub mode: u8,
    pub outer_bank: u8,
    pub chr_write_protect: bool,
}

#[derive(Debug, Clone, PartialEq, Eq)]
pub struct Mapper191State {
    pub outer_bank: u8,
}

#[derive(Debug, Clone, PartialEq, Eq)]
pub struct Mapper195State {
    pub mode: u8,
}

#[derive(Debug, Clone, PartialEq, Eq)]
pub struct Mapper208State {
    pub protection_index: u8,
    pub protection_regs: [u8; 4],
}

#[derive(Debug, Clone, PartialEq, Eq)]
pub struct Mapper189State {
    pub prg_bank: u8,
}

#[derive(Debug, Clone, PartialEq, Eq)]
pub struct Mapper185State {
    pub disabled_reads: u8,
}

#[derive(Debug, Clone, PartialEq, Eq)]
pub struct Mapper236State {
    pub mode: u8,
    pub outer_bank: u8,
}

#[derive(Debug, Clone, PartialEq, Eq)]
pub struct Mapper227State {
    pub latch: u16,
}

#[derive(Debug, Clone, PartialEq, Eq)]
pub struct Mapper246State {
    pub prg_banks: [u8; 4],
    pub chr_banks: [u8; 4],
}

#[derive(Debug, Clone, PartialEq, Eq)]
pub struct Sunsoft3State {
    pub chr_banks: [u8; 4],
    pub prg_bank: u8,
    pub irq_counter: u16,
    pub irq_enabled: bool,
    pub irq_pending: bool,
    pub irq_write_high: bool,
}

/// Save-state record of the Namco 163; its channel outputs and mix are the
/// integer values the chip keeps.
#[derive(Debug, Clone, PartialEq, Eq)]
pub struct Namco163State {
    pub chr_banks: [u8; 12],
    pub prg_banks: [u8; 3],
    pub sound_disable: bool,
    pub chr_nt_disabled_low: bool,
    pub chr_nt_disabled_high: bool,
    pub wram_write_enable: bool,
    pub wram_write_protect: u8,
    pub internal_addr: u8,
    pub internal_auto_increment: bool,
    pub irq_counter: u16,
    pub irq_enabled: bool,
    pub irq_pending: bool,
    pub audio_delay: u8,
    pub audio_channel_index: u8,
    pub audio_outputs: [i16; 8],
    pub audio_sum: i32,
    pub audio_active: u8,
}

#[derive(Debug, Clone, PartialEq, Eq)]
pub struct Sunsoft4State {
    pub chr_banks: [u8; 4],
    pub nametable_banks: [u8; 2],
    pub control: u8,
    pub prg_bank: u8,
    pub prg_ram_enabled: bool,
}

#[derive(Debug, Clone, PartialEq, Eq)]
pub struct TaitoTc0190State {
    pub prg_banks: [u8; 2],
    pub chr_banks: [u8; 6],
    pub irq_latch: u8,
    pub irq_counter: u8,
    pub irq_reload: bool,
    pub irq_enabled: bool,
    pub irq_pending: bool,
    pub irq_delay: u8,
}

#[derive(Debug, Clone, PartialEq, Eq)]
pub struct TaitoX1005State {
    pub prg_banks: [u8; 3],
    pub chr_banks: [u8; 6],
    pub ram_enabled: bool,
}

#[derive(Debug, Clone, PartialEq, Eq)]
pub struct TaitoX1017State {
    pub prg_banks: [u8; 3],
    pub chr_banks: [u8; 6],
    pub ram_enabled: [bool; 3],
    pub chr_invert: bool,
}

impl Mmc5PulseState {
    /// The duty selector and duty step index the 4x8 duty table.
    pub open spec fn valid(&self) -> bool {
        self.duty < 4 && self.duty_counter < 8
    }
}

} // verus!

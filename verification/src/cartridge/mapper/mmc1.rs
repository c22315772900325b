//! Nintendo MMC1 (mapper 1): serial-loaded control, CHR and PRG registers.

use vstd::prelude::*;
use crate::cartridge::state::{Mmc1State};
use crate::cartridge::Mirroring;
use crate::bits::lemma_u8_masks;

verus! {

#[derive(Debug, Clone)]
pub struct Mmc1 {
    pub shift_register: u8,
    pub shift_count: u8,
    pub control: u8,
    pub chr_bank_0: u8,
    pub chr_bank_1: u8,
    pub prg_bank: u8,
    pub prg_ram_disable: bool,
}


/// The nametable arrangement selected by the low two bits of the control
/// register.
pub open spec fn mmc1_mirroring(control: u8) -> Mirroring {
    if control % 4 == 0 {
        Mirroring::OneScreenLower
    } else if control % 4 == 1 {
        Mirroring::OneScreenUpper
    } else if control % 4 == 2 {
        Mirroring::Vertical
    } else {
        Mirroring::Horizontal
    }
}

/// The chip after a CPU write of `data` at `addr` ($8000-$FFFF select the
/// register by address): bit 7 resets the shift register and forces 16 KiB
/// PRG mode with the last bank fixed; otherwise bit 0 enters the shift
/// register from the top, and the fifth bit loads the addressed register.
pub open spec fn mmc1_write(m: Mmc1, addr: u16, data: u8) -> Mmc1 {
    if data & 0x80 != 0 {
        Mmc1 { shift_register: 0x10, shift_count: 0, control: m.control | 0x0C, ..m }
    } else {
        let shifted: u8 = if data & 0x01 != 0 { (m.shift_register >> 1) | 0x10 } else { m.shift_register >> 1 };
        let count: u8 = if m.shift_count == 255 { 255 } else { (m.shift_count + 1) as u8 };
        let t = Mmc1 { shift_register: shifted, shift_count: count, ..m };
        if count < 5 || addr < 0x8000 {
            t
        } else {
            let value = shifted & 0x1F;
            let loaded = if addr < 0xA000 {
                Mmc1 { control: value, ..t }
            } else if addr < 0xC000 {
                Mmc1 { chr_bank_0: value, ..t }
            } else if addr < 0xE000 {
                Mmc1 { chr_bank_1: value, ..t }
            } else {
                Mmc1 { prg_bank: value & 0x0F, prg_ram_disable: value & 0x10 != 0, ..t }
            };
            Mmc1 { shift_register: 0x10, shift_count: 0, ..loaded }
        }
    }
}

/// The bit `k` (0-4) of a 5-bit value, as the `data` of one serial write.
pub open spec fn mmc1_serial_bit(value: u8, k: u8) -> u8 {
    (value >> k) & 1
}

/// The 256 KiB half of a 512 KiB (SUROM) PRG-ROM selected by CHR bank 0
/// bit 4; 0 on smaller ROMs.
pub open spec fn mmc1_prg_half(m: Mmc1, prg_len: nat) -> nat {
    if prg_len / 0x4000 > 16 { ((m.chr_bank_0 >> 4) & 0x01) as nat } else { 0 }
}

/// The PRG-ROM offset a read at `addr` reaches, in the PRG mode of control
/// bits 2-3; `rom_addr` is the position in the $8000 window (`addr - $8000`
/// for a CPU read), used below $C000 and in 32 KiB mode.
pub open spec fn mmc1_prg_offset(m: Mmc1, addr: u16, rom_addr: u16, prg_len: nat) -> int {
    let mode = (m.control >> 2) & 0x03;
    let hi = mmc1_prg_half(m, prg_len);
    if mode <= 1 {
        let bank = hi * 8 + ((m.prg_bank & 0x0E) >> 1) as nat;
        (bank % (prg_len / 0x8000)) * 0x8000 + rom_addr
    } else if mode == 2 {
        if addr < 0xC000 {
            hi * 0x40000 + rom_addr
        } else {
            let bank = hi * 16 + (m.prg_bank & 0x0F) as nat;
            (bank % (prg_len / 0x4000)) * 0x4000 + (addr - 0xC000)
        }
    } else if addr < 0xC000 {
        let bank = hi * 16 + (m.prg_bank & 0x0F) as nat;
        (bank % (prg_len / 0x4000)) * 0x4000 + rom_addr
    } else if prg_len > 0x40000 {
        hi * 0x40000 + 0x3C000 + (addr - 0xC000)
    } else {
        prg_len - 0x4000 + (addr - 0xC000)
    }
}

/// The bank arithmetic of a PRG read is defined: the banks it divides by
/// exist and the fixed last bank is within the ROM.
pub open spec fn mmc1_prg_readable(m: Mmc1, addr: u16, prg_len: nat) -> bool {
    let mode = (m.control >> 2) & 0x03;
    if mode <= 1 {
        prg_len >= 0x8000
    } else if mode == 2 {
        addr < 0xC000 || prg_len >= 0x4000
    } else {
        prg_len >= 0x4000
    }
}

/// Five serial writes with bit 7 clear, bits 0 to 4 of `value` in turn,
/// starting from the empty shift register of power-on or of a reset, load
/// the register the last write's address selects and leave the shift
/// register empty, the other registers keeping their values: $8000-$9FFF
/// control, $A000-$BFFF CHR bank 0, $C000-$DFFF CHR bank 1, $E000-$FFFF the
/// PRG bank (low four bits of `value`) and the PRG-RAM disable flag (bit 4).
pub proof fn lemma_mmc1_five_writes_load_prg(m: Mmc1, value: u8, a0: u16, a1: u16, a2: u16, a3: u16, a4: u16)
    requires
        m.shift_count == 0,
        m.shift_register == 0x10,
        value < 32,
        0x8000 <= a4,
    ensures
        ({
            let m1 = mmc1_write(m, a0, mmc1_serial_bit(value, 0));
            let m2 = mmc1_write(m1, a1, mmc1_serial_bit(value, 1));
            let m3 = mmc1_write(m2, a2, mmc1_serial_bit(value, 2));
            let m4 = mmc1_write(m3, a3, mmc1_serial_bit(value, 3));
            let m5 = mmc1_write(m4, a4, mmc1_serial_bit(value, 4));
            &&& m5.shift_register == 0x10
            &&& m5.shift_count == 0
            &&& 0x8000 <= a4 < 0xA000 ==> m5 == Mmc1 { control: value, shift_register: 0x10, shift_count: 0, ..m }
            &&& 0xA000 <= a4 < 0xC000 ==> m5 == Mmc1 { chr_bank_0: value, shift_register: 0x10, shift_count: 0, ..m }
            &&& 0xC000 <= a4 < 0xE000 ==> m5 == Mmc1 { chr_bank_1: value, shift_register: 0x10, shift_count: 0, ..m }
            &&& 0xE000 <= a4 ==> m5.prg_bank == value & 0x0F
                && m5.prg_ram_disable == (value & 0x10 != 0)
                && m5.control == m.control
                && m5.chr_bank_0 == m.chr_bank_0
                && m5.chr_bank_1 == m.chr_bank_1
        }),
{
    assert(value < 32 ==> {
        let b0 = (value >> 0u8) & 1;
        let b1 = (value >> 1u8) & 1;
        let b2 = (value >> 2u8) & 1;
        let b3 = (value >> 3u8) & 1;
        let b4 = (value >> 4u8) & 1;
        let s1: u8 = if b0 & 0x01 != 0 { (0x10u8 >> 1u8) | 0x10 } else { 0x10u8 >> 1u8 };
        let s2: u8 = if b1 & 0x01 != 0 { (s1 >> 1u8) | 0x10 } else { s1 >> 1u8 };
        let s3: u8 = if b2 & 0x01 != 0 { (s2 >> 1u8) | 0x10 } else { s2 >> 1u8 };
        let s4: u8 = if b3 & 0x01 != 0 { (s3 >> 1u8) | 0x10 } else { s3 >> 1u8 };
        let s5: u8 = if b4 & 0x01 != 0 { (s4 >> 1u8) | 0x10 } else { s4 >> 1u8 };
        &&& s5 & 0x1F == value
        &&& b0 & 0x80 == 0 && b1 & 0x80 == 0 && b2 & 0x80 == 0 && b3 & 0x80 == 0 && b4 & 0x80 == 0
    }) by (bit_vector);
}

/// The power-on state of the chip.
pub open spec fn mmc1_power_on(m: Mmc1) -> bool {
    m == (Mmc1 {
        shift_register: 0x10,
        shift_count: 0,
        control: 0x0C,
        chr_bank_0: 0,
        chr_bank_1: 0,
        prg_bank: 0,
        prg_ram_disable: false,
    })
}

impl Mmc1 {
    /// Power-on state: empty shift register, 16 KiB PRG mode with the last
    /// bank fixed at $C000.
    pub fn new() -> (m: Mmc1)
        ensures
            mmc1_power_on(m),
    {
        Mmc1 {
            shift_register: 0x10,
            shift_count: 0,
            control: 0x0C,
            chr_bank_0: 0,
            chr_bank_1: 0,
            prg_bank: 0,
            prg_ram_disable: false,
        }
    }

    /// A CPU write at `addr`; returns the new nametable arrangement when the
    /// write loaded the control register.
    pub fn write_register(&mut self, addr: u16, data: u8) -> (mirroring: Option<Mirroring>)
        ensures
            *final(self) == mmc1_write(*old(self), addr, data),
            mirroring == if data & 0x80 == 0 && old(self).shift_count >= 4 && 0x8000 <= addr < 0xA000 {
                Some(mmc1_mirroring(final(self).control))
            } else {
                None::<Mirroring>
            },
    {
        if data & 0x80 != 0 {
            self.shift_register = 0x10;
            self.shift_count = 0;
            self.control = self.control | 0x0C;
            return None;
        }
        self.shift_register = self.shift_register >> 1;
        if data & 0x01 != 0 {
            self.shift_register = self.shift_register | 0x10;
        }
        self.shift_count = self.shift_count.saturating_add(1);
        if self.shift_count < 5 || addr < 0x8000 {
            return None;
        }
        let value = self.shift_register & 0x1F;
        let mut mirroring: Option<Mirroring> = None;
        if addr < 0xA000 {
            self.control = value;
            let sel = value & 0x03;
            proof {
                lemma_u8_masks(value);
            }
            mirroring = Some(if sel == 0 {
                Mirroring::OneScreenLower
            } else if sel == 1 {
                Mirroring::OneScreenUpper
            } else if sel == 2 {
                Mirroring::Vertical
            } else {
                Mirroring::Horizontal
            });
        } else if addr < 0xC000 {
            self.chr_bank_0 = value;
        } else if addr < 0xE000 {
            self.chr_bank_1 = value;
        } else {
            self.prg_bank = value & 0x0F;
            self.prg_ram_disable = (value & 0x10) != 0;
        }
        self.shift_register = 0x10;
        self.shift_count = 0;
        mirroring
    }

    /// The save-state record of the chip.
    pub fn snapshot_state(&self) -> (s: Mmc1State)
        ensures
            s.shift_register == self.shift_register,
            s.shift_count == self.shift_count,
            s.control == self.control,
            s.chr_bank_0 == self.chr_bank_0,
            s.chr_bank_1 == self.chr_bank_1,
            s.prg_bank == self.prg_bank,
            s.prg_ram_disable == self.prg_ram_disable,
    {
        Mmc1State {
            shift_register: self.shift_register,
            shift_count: self.shift_count,
            control: self.control,
            chr_bank_0: self.chr_bank_0,
            chr_bank_1: self.chr_bank_1,
            prg_bank: self.prg_bank,
            prg_ram_disable: self.prg_ram_disable,
        }
    }

    /// Loads the chip's registers from a save-state record.
    pub fn restore_state(&mut self, state: &Mmc1State)
        ensures
            final(self).shift_register == state.shift_register,
            final(self).shift_count == state.shift_count,
            final(self).control == state.control,
            final(self).chr_bank_0 == state.chr_bank_0,
            final(self).chr_bank_1 == state.chr_bank_1,
            final(self).prg_bank == state.prg_bank,
            final(self).prg_ram_disable == state.prg_ram_disable,
    {
        self.shift_register = state.shift_register;
        self.shift_count = state.shift_count;
        self.control = state.control;
        self.chr_bank_0 = state.chr_bank_0;
        self.chr_bank_1 = state.chr_bank_1;
        self.prg_bank = state.prg_bank;
        self.prg_ram_disable = state.prg_ram_disable;
    }

}

} // verus!

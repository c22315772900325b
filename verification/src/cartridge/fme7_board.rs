//! Sunsoft FME-7 boards (mapper 69) as the CPU and PPU see them, and the
//! cartridge's IRQ line and CPU-cycle clocks, which gather the MMC3,
//! FME-7 and Bandai counters.

use vstd::prelude::*;
use crate::cartridge::Mirroring;
use crate::cartridge::load::Cartridge;
use crate::cartridge::banks::{pattern_memory, prg_8k_at};
use crate::cartridge::mapper::fme7::{Fme7, Sunsoft5BAudio, fme7_written, fme7_mirroring, fme7_irq_clocked_n, channel_level, s5b_ticked};
use crate::cartridge::mapper::bandai_fcg::{bandai_irq_clocked, bandai_irq_clocked_n};
use crate::cartridge::mapper::mmc3::Mmc3;
use crate::bits::lemma_u16_masks;

verus! {

/// The FME-7's sound chip keeps its invariant.
pub open spec fn fme7_audio_valid(c: Cartridge) -> bool {
    c.fme7 matches Some(f) ==> f.audio.valid()
}

impl Cartridge {
    /// FME-7: a CPU read of PRG-ROM: PRG banks 0-2 at $8000, $A000, $C000
    /// and the last bank at $E000, masked with the bank count minus one; 0
    /// past the end, below $8000 or without the chip.
    pub fn read_prg_fme7(&self, addr: u16) -> (r: u8)
        ensures
            r == read_prg_fme7_value(*self, addr),
    {
        let f = match &self.fme7 {
            Some(f) => f,
            None => {
                return 0;
            },
        };
        let num_8k_banks = self.prg_rom.len() / 0x2000;
        if num_8k_banks == 0 || addr < 0x8000 {
            return 0;
        }
        let bank_mask = num_8k_banks - 1;
        let bank = if addr < 0xA000 {
            (f.prg_banks[0] as usize) & bank_mask
        } else if addr < 0xC000 {
            (f.prg_banks[1] as usize) & bank_mask
        } else if addr < 0xE000 {
            (f.prg_banks[2] as usize) & bank_mask
        } else {
            (num_8k_banks - 1) & bank_mask
        };
        proof {
            crate::bits::lemma_usize_masks(f.prg_banks@[0] as usize, bank_mask);
            crate::bits::lemma_usize_masks(f.prg_banks@[1] as usize, bank_mask);
            crate::bits::lemma_usize_masks(f.prg_banks@[2] as usize, bank_mask);
            crate::bits::lemma_usize_masks(bank_mask, bank_mask);
            lemma_u16_masks(addr);
            assert(bank * 0x2000 <= bank_mask * 0x2000) by (nonlinear_arith)
                requires
                    bank <= bank_mask,
            ;
        }
        let rom_addr = bank * 0x2000 + ((addr & 0x1FFF) as usize);
        if rom_addr < self.prg_rom.len() { self.prg_rom[rom_addr] } else { 0 }
    }

    /// FME-7: a CPU write of the command, a command's parameter (command $C
    /// also sets the nametable arrangement) or the sound registers. Nothing
    /// happens without the chip.
    pub fn write_prg_fme7(&mut self, addr: u16, data: u8)
        requires
            write_prg_fme7_pre(*old(self), addr, data),
        ensures
            write_prg_fme7_post(*old(self), *final(self), addr, data),
    {
        let mut f = match self.fme7.take() {
            Some(f) => f,
            None => {
                return;
            },
        };
        let mirroring = f.write_register(addr, data);
        self.fme7 = Some(f);
        if let Some(mirroring) = mirroring {
            self.mirroring = mirroring;
        }
    }

    /// FME-7: a PPU read of pattern memory (CHR-RAM when the board has
    /// some, else CHR-ROM) through eight 1 KiB banks, wrapping past the
    /// end; 0 without the chip or memory.
    pub fn read_chr_fme7(&self, addr: u16) -> (r: u8)
        ensures
            r == read_chr_fme7_value(*self, addr),
    {
        let f = match &self.fme7 {
            Some(f) => f,
            None => {
                return 0;
            },
        };
        let slot = ((addr >> 10) & 7) as usize;
        proof {
            lemma_u16_masks(addr);
        }
        let bank = f.chr_banks[slot] as usize;
        let offset = (addr & 0x03FF) as usize;
        let chr_addr = bank * 0x0400 + offset;
        if self.chr_ram.len() > 0 {
            if chr_addr < self.chr_ram.len() {
                self.chr_ram[chr_addr]
            } else {
                self.chr_ram[chr_addr % self.chr_ram.len()]
            }
        } else if chr_addr < self.chr_rom.len() {
            self.chr_rom[chr_addr]
        } else if self.chr_rom.len() > 0 {
            self.chr_rom[chr_addr % self.chr_rom.len()]
        } else {
            0
        }
    }

    /// FME-7: a PPU write lands in CHR-RAM when the board has some and the
    /// banked position is inside it.
    pub fn write_chr_fme7(&mut self, addr: u16, data: u8)
        ensures
            write_chr_fme7_post(*old(self), *final(self), addr, data),
    {
        if self.chr_ram.len() == 0 {
            return;
        }
        let bank = match &self.fme7 {
            Some(f) => {
                let slot = ((addr >> 10) & 7) as usize;
                proof {
                    lemma_u16_masks(addr);
                }
                f.chr_banks[slot] as usize
            },
            None => {
                return;
            },
        };
        let chr_addr = bank * 0x0400 + ((addr & 0x03FF) as usize);
        if chr_addr < self.chr_ram.len() {
            self.chr_ram.set(chr_addr, data);
        }
    }

    /// FME-7: a CPU read at $6000-$7FFF while command 8 enables the window:
    /// PRG-RAM when it selects RAM, else the 8 KiB PRG-ROM bank it names
    /// (modulo the bank count); 0 otherwise or past the end.
    pub fn read_prg_ram_fme7(&self, addr: u16) -> (r: u8)
        requires
            read_prg_ram_fme7_pre(*self, addr),
        ensures
            r == read_prg_ram_fme7_value(*self, addr),
    {
        let f = match &self.fme7 {
            Some(f) => f,
            None => {
                return 0;
            },
        };
        if !f.prg_ram_enabled {
            return 0;
        }
        if f.prg_ram_select {
            let ram_addr = (addr - 0x6000) as usize;
            if ram_addr < self.prg_ram.len() { self.prg_ram[ram_addr] } else { 0 }
        } else {
            let num_8k_banks = self.prg_rom.len() / 0x2000;
            if num_8k_banks == 0 {
                return 0;
            }
            let bank = (f.prg_bank_6000 as usize) % num_8k_banks;
            let offset = (addr - 0x6000) as u128;
            let rom_addr = (bank as u128) * 0x2000 + offset;
            if rom_addr < self.prg_rom.len() as u128 { self.prg_rom[rom_addr as usize] } else { 0 }
        }
    }

    /// FME-7: a CPU write at $6000-$7FFF lands in PRG-RAM while command 8
    /// enables the window and selects RAM.
    pub fn write_prg_ram_fme7(&mut self, addr: u16, data: u8)
        requires
            write_prg_ram_fme7_pre(*old(self), addr, data),
        ensures
            write_prg_ram_fme7_post(*old(self), *final(self), addr, data),
    {
        let open = match &self.fme7 {
            Some(f) => f.prg_ram_enabled && f.prg_ram_select,
            None => false,
        };
        if !open {
            return;
        }
        let ram_addr = (addr - 0x6000) as usize;
        if ram_addr < self.prg_ram.len() {
            self.prg_ram.set(ram_addr, data);
        }
    }

    /// The cartridge's IRQ line: raised while the MMC3, FME-7 or Bandai
    /// counter has an IRQ pending.
    pub fn irq_pending(&self) -> (r: bool)
        ensures
            r == ((self.mmc3 matches Some(m) && m.irq_pending) || (self.fme7 matches Some(f) && f.irq_pending)
                || (self.bandai_fcg matches Some(b) && b.irq_pending)),
    {
        if let Some(m) = &self.mmc3 {
            if m.irq_pending {
                return true;
            }
        }
        if let Some(f) = &self.fme7 {
            if f.irq_pending {
                return true;
            }
        }
        if let Some(b) = &self.bandai_fcg {
            if b.irq_pending {
                return true;
            }
        }
        false
    }

    /// Acknowledges the IRQ: clears the pending flag of each of the three
    /// counters present.
    pub fn acknowledge_irq(&mut self)
        ensures
            *final(self) == (Cartridge {
                mmc3: match old(self).mmc3 {
                    Some(m) => Some(Mmc3 { irq_pending: false, ..m }),
                    None => None,
                },
                fme7: match old(self).fme7 {
                    Some(f) => Some(Fme7 { irq_pending: false, ..f }),
                    None => None,
                },
                bandai_fcg: match old(self).bandai_fcg {
                    Some(b) => Some(crate::cartridge::mapper::bandai_fcg::BandaiFcg { irq_pending: false, ..b }),
                    None => None,
                },
                ..*old(self)
            }),
    {
        if let Some(mut m) = self.mmc3.take() {
            m.irq_pending = false;
            self.mmc3 = Some(m);
        }
        if let Some(mut f) = self.fme7.take() {
            f.irq_pending = false;
            self.fme7 = Some(f);
        }
        if let Some(mut b) = self.bandai_fcg.take() {
            b.irq_pending = false;
            self.bandai_fcg = Some(b);
        }
    }

    /// Runs the CPU-cycle IRQ counters (FME-7 and Bandai) for `cycles`
    /// cycles.
    pub fn clock_irq_counter_cycles(&mut self, cycles: u32)
        ensures
            *final(self) == (Cartridge {
                fme7: match old(self).fme7 {
                    Some(f) => Some(fme7_irq_clocked_n(f, cycles as nat)),
                    None => None,
                },
                bandai_fcg: match old(self).bandai_fcg {
                    Some(b) => Some(bandai_irq_clocked_n(b, cycles as nat)),
                    None => None,
                },
                ..*old(self)
            }),
    {
        if let Some(mut f) = self.fme7.take() {
            let ghost f0 = f;
            let mut i: u32 = 0;
            while i < cycles
                invariant
                    i <= cycles,
                    f == fme7_irq_clocked_n(f0, i as nat),
                decreases cycles - i,
            {
                f.clock_irq_mut();
                i = i + 1;
            }
            self.fme7 = Some(f);
        }
        if let Some(mut b) = self.bandai_fcg.take() {
            let ghost b0 = b;
            let mut i: u32 = 0;
            while i < cycles
                invariant
                    i <= cycles,
                    b == bandai_irq_clocked_n(b0, i as nat),
                decreases cycles - i,
            {
                b.clock_irq_mut();
                i = i + 1;
            }
            self.bandai_fcg = Some(b);
        }
    }

    /// One CPU cycle of the FME-7's sound chip; returns its three channel
    /// levels (all 0 without the chip).
    pub fn clock_expansion_audio(&mut self) -> (levels: [u8; 3])
        requires
            fme7_audio_valid(*old(self)),
        ensures
            fme7_audio_valid(*final(self)),
            match old(self).fme7 {
                Some(o) => {
                    &&& final(self).fme7 matches Some(n)
                    &&& levels == n.audio.last_levels
                    &&& n == (Fme7 { audio: n.audio, ..o })
                    &&& (o.audio.prescaler < 15 ==> n.audio == (Sunsoft5BAudio { prescaler: (o.audio.prescaler + 1) as u8, ..o.audio }))
                    &&& (o.audio.prescaler == 15 ==> {
                        &&& n.audio.prescaler == 0
                        &&& s5b_ticked(o.audio, Sunsoft5BAudio { prescaler: o.audio.prescaler, last_levels: o.audio.last_levels, ..n.audio })
                        &&& forall|i: int| 0 <= i < 3 ==> #[trigger] n.audio.last_levels@[i] == channel_level(n.audio, i)
                    })
                    &&& *final(self) == (Cartridge { fme7: final(self).fme7, ..*old(self) })
                },
                None => levels@ == seq![0u8, 0, 0] && *final(self) == *old(self),
            },
    {
        match self.fme7.take() {
            Some(mut f) => {
                let levels = f.audio.clock();
                self.fme7 = Some(f);
                levels
            },
            None => [0; 3],
        }
    }
}

/// The byte [`Cartridge::read_chr_fme7`] returns.
pub open spec fn read_chr_fme7_value(cart: Cartridge, addr: u16) -> u8 {
    match cart.fme7 {
            Some(f) => {
                let mem = pattern_memory(cart);
                let chr_addr = (f.chr_banks@[((addr / 0x400) % 8) as int] as int) * 0x400 + (addr % 0x400) as int;
                if mem.len() == 0 {
                    0
                } else if chr_addr < mem.len() {
                    mem[chr_addr]
                } else {
                    mem[chr_addr % (mem.len() as int)]
                }
            },
            None => 0,
        }
}

/// The byte [`Cartridge::read_prg_fme7`] returns.
pub open spec fn read_prg_fme7_value(cart: Cartridge, addr: u16) -> u8 {
    match cart.fme7 {
            Some(f) => {
                let banks = (cart.prg_rom@.len() / 0x2000) as usize;
                let mask = (banks - 1) as usize;
                let bank = if addr < 0xA000 {
                    (f.prg_banks@[0] as usize) & mask
                } else if addr < 0xC000 {
                    (f.prg_banks@[1] as usize) & mask
                } else if addr < 0xE000 {
                    (f.prg_banks@[2] as usize) & mask
                } else {
                    ((banks - 1) as usize) & mask
                };
                if banks == 0 || addr < 0x8000 { 0 } else { prg_8k_at(cart.prg_rom@, bank as int, addr) }
            },
            None => 0,
        }
}

/// The byte [`Cartridge::read_prg_ram_fme7`] returns.
pub open spec fn read_prg_ram_fme7_value(cart: Cartridge, addr: u16) -> u8 {
    match cart.fme7 {
            Some(f) => if !f.prg_ram_enabled {
                0
            } else if f.prg_ram_select {
                if addr - 0x6000 < cart.prg_ram@.len() { cart.prg_ram@[addr - 0x6000] } else { 0 }
            } else {
                let banks = cart.prg_rom@.len() / 0x2000;
                let off = ((f.prg_bank_6000 as int) % (banks as int)) * 0x2000 + (addr - 0x6000);
                if banks == 0 || off >= cart.prg_rom@.len() { 0 } else { cart.prg_rom@[off] }
            },
            None => 0,
        }
}

/// What [`Cartridge::read_prg_ram_fme7`] needs.
pub open spec fn read_prg_ram_fme7_pre(cart: Cartridge, addr: u16) -> bool {
    cart.fme7 matches Some(f) && f.prg_ram_enabled && (f.prg_ram_select || cart.prg_rom@.len() / 0x2000 > 0)
            ==> addr >= 0x6000
}

/// The state change of [`Cartridge::write_chr_fme7`].
pub open spec fn write_chr_fme7_post(c0: Cartridge, c1: Cartridge, addr: u16, data: u8) -> bool {
    match c0.fme7 {
            Some(f) => {
                let chr_addr = (f.chr_banks@[((addr / 0x400) % 8) as int] as int) * 0x400 + (addr % 0x400) as int;
                &&& c1.chr_ram@ == if chr_addr < c0.chr_ram@.len() {
                    c0.chr_ram@.update(chr_addr, data)
                } else {
                    c0.chr_ram@
                }
                &&& c1 == (Cartridge { chr_ram: c1.chr_ram, ..c0 })
            },
            None => c1 == c0,
        }
}

/// The state change of [`Cartridge::write_prg_fme7`].
pub open spec fn write_prg_fme7_post(c0: Cartridge, c1: Cartridge, addr: u16, data: u8) -> bool {
        &&& fme7_audio_valid(c1)
        &&& match c0.fme7 {
                None => c1 == c0,
                Some(o) => {
                    &&& c1.fme7 matches Some(n)
                    &&& fme7_written(o, n, addr, data)
                    &&& c1 == (Cartridge {
                        fme7: c1.fme7,
                        mirroring: if 0xA000 <= addr < 0xC000 && o.command == 0x0C {
                            fme7_mirroring(data)
                        } else {
                            c0.mirroring
                        },
                        ..c0
                    })
                },
            }
}

/// What [`Cartridge::write_prg_fme7`] needs.
pub open spec fn write_prg_fme7_pre(c0: Cartridge, addr: u16, data: u8) -> bool {
    fme7_audio_valid(c0)
}

/// The state change of [`Cartridge::write_prg_ram_fme7`].
pub open spec fn write_prg_ram_fme7_post(c0: Cartridge, c1: Cartridge, addr: u16, data: u8) -> bool {
    ({
            let stored = c0.fme7 matches Some(f) && f.prg_ram_enabled && f.prg_ram_select
                && addr - 0x6000 < c0.prg_ram@.len();
            &&& c1.prg_ram@ == if stored {
                c0.prg_ram@.update(addr - 0x6000, data)
            } else {
                c0.prg_ram@
            }
            &&& c1 == (Cartridge { prg_ram: c1.prg_ram, ..c0 })
        })
}

/// What [`Cartridge::write_prg_ram_fme7`] needs.
pub open spec fn write_prg_ram_fme7_pre(c0: Cartridge, addr: u16, data: u8) -> bool {
    c0.fme7 matches Some(f) && f.prg_ram_enabled && f.prg_ram_select ==> addr >= 0x6000
}

} // verus!

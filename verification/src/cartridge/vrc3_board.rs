//! Konami VRC3 boards (mapper 73) and the Kaiser KS202 clone (mapper 142):
//! the VRC3's IRQ registers at $8000-$DFFF, a 16 KiB PRG register at
//! $F000 on the VRC3, four 8 KiB PRG registers (one of them for the $6000
//! window) behind a select register on mapper 142.

use vstd::prelude::*;
use crate::cartridge::load::Cartridge;
use crate::cartridge::mapper::vrc3::{Vrc3, nibble_of};
use crate::cartridge::fixed_irq_board::{bank_from_end, prg_8k_byte};
use crate::bits::{lemma_u16_masks, lemma_u8_masks};

verus! {

/// The VRC3 after a write to the register block `block` (address bits
/// 12-15): $8000-$B000 replace one nibble of the 16-bit reload value,
/// $C000 writes the control bits (mode, enable-on-acknowledge, enable;
/// clearing a pending IRQ and, when enabling, reloading the counter),
/// $D000 acknowledges.
pub open spec fn vrc3_written(o: Vrc3, n: Vrc3, block: u16, data: u8) -> bool {
    if block == 0x8000 || block == 0x9000 || block == 0xA000 || block == 0xB000 {
        let k = ((block - 0x8000) / 0x1000) as int;
        &&& forall|j: int| 0 <= j < 4 ==> #[trigger] nibble_of(n.irq_reload, j)
            == if j == k { (data % 16) as int } else { nibble_of(o.irq_reload, j) }
        &&& n == (Vrc3 { irq_reload: n.irq_reload, ..o })
    } else if block == 0xC000 {
        n == (Vrc3 {
            irq_mode_8bit: data & 0x04 != 0,
            irq_enable_on_ack: data & 0x01 != 0,
            irq_enabled: data & 0x02 != 0,
            irq_pending: false,
            irq_counter: if data & 0x02 != 0 { o.irq_reload } else { o.irq_counter },
            ..o
        })
    } else if block == 0xD000 {
        n == (Vrc3 { irq_pending: false, irq_enabled: o.irq_enable_on_ack, ..o })
    } else {
        n == o
    }
}

/// The chip half of a board write: the chip takes the write as
/// [`vrc3_written`] says when present.
pub open spec fn vrc3_chip_after(o: Option<Vrc3>, n: Option<Vrc3>, block: u16, data: u8) -> bool {
    match o {
        Some(ov) => n matches Some(nv) && vrc3_written(ov, nv, block, data),
        None => n is None,
    }
}

impl Cartridge {
    /// The chip's part of a write to register block `block`.
    fn vrc3_write_chip(&mut self, block: u16, data: u8)
        ensures
            vrc3_chip_after(old(self).vrc3, final(self).vrc3, block, data),
            *final(self) == (Cartridge { vrc3: final(self).vrc3, ..*old(self) }),
    {
        let mut v = match self.vrc3.take() {
            Some(v) => v,
            None => {
                return;
            },
        };
        if block == 0x8000 || block == 0x9000 || block == 0xA000 || block == 0xB000 {
            let k = ((block - 0x8000) / 0x1000) as usize;
            v.write_latch_nibble(k, data);
            assert(v == (Vrc3 { irq_reload: v.irq_reload, ..old(self).vrc3.unwrap() }));
        } else if block == 0xC000 {
            v.write_control(data);
        } else if block == 0xD000 {
            v.acknowledge();
        }
        self.vrc3 = Some(v);
    }

    /// VRC3: a CPU write at $8000-$FFFF: the chip's registers, and at
    /// $F000 the 16 KiB PRG bank (three bits, modulo the bank count).
    pub fn write_prg_vrc3(&mut self, addr: u16, data: u8)
        ensures
            write_prg_vrc3_post(*old(self), *final(self), addr, data),
    {
        let block = addr & 0xF000;
        proof {
            lemma_u16_masks(addr);
            lemma_u8_masks(data);
        }
        if block == 0xF000 {
            let bank_count = if self.prg_rom.len() / 0x4000 > 1 { self.prg_rom.len() / 0x4000 } else { 1 };
            self.prg_bank = (((data as usize) & 0x07) % bank_count) as u8;
        } else {
            self.vrc3_write_chip(block, data);
        }
    }

    /// Mapper 142: a CPU write at $8000-$FFFF: the VRC3 IRQ registers,
    /// $E000 selects one of the four PRG registers (1-4), $F000 writes it
    /// (four bits); the first is also the board's PRG bank.
    pub fn write_prg_mapper142(&mut self, addr: u16, data: u8)
        ensures
            write_prg_mapper142_post(*old(self), *final(self), addr, data),
    {
        let block = addr & 0xF000;
        proof {
            lemma_u16_masks(addr);
        }
        if block == 0xE000 {
            self.mapper142_bank_select = data & 0x07;
        } else if block == 0xF000 {
            let sel = self.mapper142_bank_select;
            if 1 <= sel && sel <= 4 {
                let slot = (sel - 1) as usize;
                self.mapper142_prg_banks[slot] = data & 0x0F;
                if slot == 0 {
                    self.prg_bank = data & 0x0F;
                }
            }
        } else {
            self.vrc3_write_chip(block, data);
        }
    }

    /// Mapper 142: a CPU read of PRG-ROM: registers 1-3 at $8000, $A000,
    /// $C000 and the last bank at $E000 (banks modulo the bank count,
    /// positions modulo the ROM); 0 below $8000 or without ROM.
    pub fn read_prg_mapper142(&self, addr: u16) -> (r: u8)
        ensures
            r == read_prg_mapper142_value(*self, addr),
    {
        if addr < 0x8000 {
            0
        } else if addr < 0xA000 {
            self.read_prg_8k_bank(self.mapper142_prg_banks[0] as usize, 0x8000, addr)
        } else if addr < 0xC000 {
            self.read_prg_8k_bank(self.mapper142_prg_banks[1] as usize, 0xA000, addr)
        } else if addr < 0xE000 {
            self.read_prg_8k_bank(self.mapper142_prg_banks[2] as usize, 0xC000, addr)
        } else {
            let len = self.prg_rom.len();
            let bank_count = if len / 0x2000 > 1 { len / 0x2000 } else { 1 };
            self.read_prg_8k_bank(bank_count - 1, 0xE000, addr)
        }
    }

    /// Mapper 142: a CPU read of $6000-$7FFF: the PRG-ROM bank of register
    /// 4; 0 elsewhere or without ROM.
    pub fn read_prg_ram_mapper142(&self, addr: u16) -> (r: u8)
        ensures
            r == read_prg_ram_mapper142_value(*self, addr),
    {
        if addr < 0x6000 || addr > 0x7FFF {
            return 0;
        }
        self.read_prg_8k_bank(self.mapper142_prg_banks[3] as usize, 0x6000, addr)
    }

    /// VRC3: a CPU read of PRG-RAM at $6000-$7FFF; 0 past its end.
    pub fn read_prg_ram_vrc3(&self, addr: u16) -> (r: u8)
        requires
            read_prg_ram_vrc3_pre(*self, addr),
        ensures
            r == read_prg_ram_vrc3_value(*self, addr),
    {
        let offset = (addr - 0x6000) as usize;
        if offset < self.prg_ram.len() { self.prg_ram[offset] } else { 0 }
    }

    /// VRC3: a CPU write of PRG-RAM at $6000-$7FFF; nothing past its end.
    pub fn write_prg_ram_vrc3(&mut self, addr: u16, data: u8)
        requires
            write_prg_ram_vrc3_pre(*old(self), addr, data),
        ensures
            write_prg_ram_vrc3_post(*old(self), *final(self), addr, data),
    {
        let offset = (addr - 0x6000) as usize;
        if offset < self.prg_ram.len() {
            self.prg_ram.set(offset, data);
        }
    }
}

/// The byte [`Cartridge::read_prg_mapper142`] returns.
pub open spec fn read_prg_mapper142_value(cart: Cartridge, addr: u16) -> u8 {
    if addr < 0x8000 {
            0
        } else if addr < 0xA000 {
            prg_8k_byte(cart.prg_rom@, cart.mapper142_prg_banks@[0] as nat, 0x8000, addr)
        } else if addr < 0xC000 {
            prg_8k_byte(cart.prg_rom@, cart.mapper142_prg_banks@[1] as nat, 0xA000, addr)
        } else if addr < 0xE000 {
            prg_8k_byte(cart.prg_rom@, cart.mapper142_prg_banks@[2] as nat, 0xC000, addr)
        } else {
            prg_8k_byte(cart.prg_rom@, bank_from_end(cart.prg_rom@.len(), 1), 0xE000, addr)
        }
}

/// The byte [`Cartridge::read_prg_ram_mapper142`] returns.
pub open spec fn read_prg_ram_mapper142_value(cart: Cartridge, addr: u16) -> u8 {
    if 0x6000 <= addr <= 0x7FFF {
            prg_8k_byte(cart.prg_rom@, cart.mapper142_prg_banks@[3] as nat, 0x6000, addr)
        } else {
            0
        }
}

/// The byte [`Cartridge::read_prg_ram_vrc3`] returns.
pub open spec fn read_prg_ram_vrc3_value(cart: Cartridge, addr: u16) -> u8 {
    if addr - 0x6000 < cart.prg_ram@.len() { cart.prg_ram@[addr - 0x6000] } else { 0 }
}

/// What [`Cartridge::read_prg_ram_vrc3`] needs.
pub open spec fn read_prg_ram_vrc3_pre(cart: Cartridge, addr: u16) -> bool {
    addr >= 0x6000
}

/// The state change of [`Cartridge::write_prg_mapper142`].
pub open spec fn write_prg_mapper142_post(c0: Cartridge, c1: Cartridge, addr: u16, data: u8) -> bool {
    ({
            let block = (addr / 0x1000 * 0x1000) as u16;
            let sel = c0.mapper142_bank_select;
            let slot = sel - 1;
            let writes_bank = block == 0xF000 && 1 <= sel <= 4;
            &&& vrc3_chip_after(c0.vrc3, c1.vrc3, block, data)
            &&& c1.mapper142_prg_banks@ == if writes_bank {
                c0.mapper142_prg_banks@.update(slot, data & 0x0F)
            } else {
                c0.mapper142_prg_banks@
            }
            &&& c1 == (Cartridge {
                vrc3: c1.vrc3,
                mapper142_bank_select: if block == 0xE000 { data & 0x07 } else { sel },
                mapper142_prg_banks: c1.mapper142_prg_banks,
                prg_bank: if writes_bank && slot == 0 { data & 0x0F } else { c0.prg_bank },
                ..c0
            })
        })
}

/// The state change of [`Cartridge::write_prg_ram_vrc3`].
pub open spec fn write_prg_ram_vrc3_post(c0: Cartridge, c1: Cartridge, addr: u16, data: u8) -> bool {
        &&& c1.prg_ram@ == if addr - 0x6000 < c0.prg_ram@.len() {
                c0.prg_ram@.update(addr - 0x6000, data)
            } else {
                c0.prg_ram@
            }
        &&& c1 == (Cartridge { prg_ram: c1.prg_ram, ..c0 })
}

/// What [`Cartridge::write_prg_ram_vrc3`] needs.
pub open spec fn write_prg_ram_vrc3_pre(c0: Cartridge, addr: u16, data: u8) -> bool {
    addr >= 0x6000
}

/// The state change of [`Cartridge::write_prg_vrc3`].
pub open spec fn write_prg_vrc3_post(c0: Cartridge, c1: Cartridge, addr: u16, data: u8) -> bool {
        &&& vrc3_chip_after(c0.vrc3, c1.vrc3, (addr / 0x1000 * 0x1000) as u16, data)
        &&& c1 == (Cartridge {
                vrc3: c1.vrc3,
                prg_bank: if addr / 0x1000 == 0xF {
                    let banks: nat = if c0.prg_rom@.len() / 0x4000 > 1 { c0.prg_rom@.len() / 0x4000 } else { 1 };
                    (((data % 8) as nat) % banks) as u8
                } else {
                    c0.prg_bank
                },
                ..c0
            })
}

} // verus!

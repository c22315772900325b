//! The pirate boards with a fixed-length IRQ counter (mappers 40, 42, 43,
//! 50): 8 KiB PRG windows, mostly fixed, one switchable, and the registers
//! that switch the bank and start or stop the counter.

use vstd::prelude::*;
use crate::cartridge::Mirroring;
use crate::cartridge::load::Cartridge;
use crate::cartridge::mapper::fixed_irq::{Mapper40, Mapper42, Mapper43, Mapper50};
use crate::bits::{lemma_u16_masks, lemma_u8_masks, lemma_usize_masks};

verus! {

/// At least one 8 KiB bank.
pub open spec fn banks_8k(len: nat) -> nat {
    if len / 0x2000 > 1 { len / 0x2000 } else { 1 }
}

/// `banks - k`, or 0 when there are fewer banks.
pub open spec fn bank_from_end(len: nat, k: nat) -> nat {
    if banks_8k(len) >= k { (banks_8k(len) - k) as nat } else { 0 }
}

/// Byte `addr - base` of 8 KiB bank `bank` (taken modulo the bank count,
/// the position modulo the ROM); 0 without ROM or below `base`.
pub open spec fn prg_8k_byte(rom: Seq<u8>, bank: nat, base: u16, addr: u16) -> u8 {
    if rom.len() == 0 || addr < base {
        0
    } else {
        rom[(((bank % banks_8k(rom.len())) * 0x2000 + (addr - base)) as int) % (rom.len() as int)]
    }
}

/// The 8 KiB bank mapper 43 maps at $C000 for each value of its 3-bit
/// register.
pub open spec fn mapper43_c000_bank(sel: u8) -> nat {
    let s = sel % 8;
    if s == 0 || s == 2 || s == 3 || s == 4 {
        4
    } else if s == 1 {
        3
    } else if s == 5 {
        7
    } else if s == 6 {
        5
    } else {
        6
    }
}

/// The PRG bank mapper 50 takes from its register's scrambled bits (bit 0
/// becomes bit 2, bits 1-2 become bits 0-1, bit 3 stays).
pub open spec fn mapper50_bank(data: u8) -> u8 {
    (((data & 0x01) << 2u8) | ((data & 0x02) >> 1u8) | ((data & 0x04) >> 1u8) | (data & 0x08)) as u8
}

/// A remainder is below the divisor and at most the dividend.
pub proof fn lemma_mod_small(v: nat, m: nat)
    requires
        m > 0,
    ensures
        v % m <= v,
        v % m < m,
{
    assert(v % m <= v) by (nonlinear_arith)
        requires
            m > 0,
    ;
}

impl Cartridge {
    /// Byte `addr - base` of 8 KiB bank `bank`.
    pub(crate) fn read_prg_8k_bank(&self, bank: usize, base: u16, addr: u16) -> (r: u8)
        ensures
            r == prg_8k_byte(self.prg_rom@, bank as nat, base, addr),
    {
        let len = self.prg_rom.len();
        if len == 0 || addr < base {
            return 0;
        }
        let banks = if len / 0x2000 > 1 { len / 0x2000 } else { 1 };
        let b = bank % banks;
        proof {
            lemma_mod_small(bank as nat, banks as nat);
        }
        let offset: u128 = (b as u128) * 0x2000 + ((addr - base) as u128);
        let index = (offset % (len as u128)) as usize;
        self.prg_rom[index]
    }

    /// Mapper 40: the fourth-, third- and second-to-last banks at $8000,
    /// $A000 and $6000, the switchable bank at $C000, the last at $E000.
    pub fn read_prg_mapper40(&self, addr: u16) -> (r: u8)
        ensures
            r == read_prg_mapper40_value(*self, addr),
    {
        let len = self.prg_rom.len();
        let banks = if len / 0x2000 > 1 { len / 0x2000 } else { 1 };
        let fixed_6000 = banks.saturating_sub(2);
        let fixed_8000 = banks.saturating_sub(4);
        let fixed_a000 = banks.saturating_sub(3);
        let fixed_e000 = banks.saturating_sub(1);
        if 0x8000 <= addr && addr < 0xA000 {
            self.read_prg_8k_bank(fixed_8000, 0x8000, addr)
        } else if 0xA000 <= addr && addr < 0xC000 {
            self.read_prg_8k_bank(fixed_a000, 0xA000, addr)
        } else if 0xC000 <= addr && addr < 0xE000 {
            self.read_prg_8k_bank(self.prg_bank as usize, 0xC000, addr)
        } else if addr >= 0xE000 {
            self.read_prg_8k_bank(fixed_e000, 0xE000, addr)
        } else {
            self.read_prg_8k_bank(fixed_6000, 0x6000, addr)
        }
    }

    /// Mapper 40 at $6000-$7FFF: the second-to-last bank.
    pub fn read_prg_ram_mapper40(&self, addr: u16) -> (r: u8)
        ensures
            r == read_prg_ram_mapper40_value(*self, addr),
    {
        let len = self.prg_rom.len();
        let banks = if len / 0x2000 > 1 { len / 0x2000 } else { 1 };
        self.read_prg_8k_bank(banks.saturating_sub(2), 0x6000, addr)
    }

    /// Mapper 42: the last four banks fixed at $8000-$FFFF, the switchable
    /// bank at $6000.
    pub fn read_prg_mapper42(&self, addr: u16) -> (r: u8)
        ensures
            r == read_prg_mapper42_value(*self, addr),
    {
        let len = self.prg_rom.len();
        let banks = if len / 0x2000 > 1 { len / 0x2000 } else { 1 };
        if 0x8000 <= addr && addr < 0xA000 {
            self.read_prg_8k_bank(banks.saturating_sub(4), 0x8000, addr)
        } else if 0xA000 <= addr && addr < 0xC000 {
            self.read_prg_8k_bank(banks.saturating_sub(3), 0xA000, addr)
        } else if 0xC000 <= addr && addr < 0xE000 {
            self.read_prg_8k_bank(banks.saturating_sub(2), 0xC000, addr)
        } else if addr >= 0xE000 {
            self.read_prg_8k_bank(banks.saturating_sub(1), 0xE000, addr)
        } else {
            self.read_prg_8k_bank(self.prg_bank as usize, 0x6000, addr)
        }
    }

    /// Mapper 42 at $6000-$7FFF: the switchable bank.
    pub fn read_prg_ram_mapper42(&self, addr: u16) -> (r: u8)
        ensures
            r == read_prg_ram_mapper42_value(*self, addr),
    {
        self.read_prg_8k_bank(self.prg_bank as usize, 0x6000, addr)
    }

    /// Mapper 43 at $5000-$5FFF: a 2 KiB window (mirrored) at ROM offset
    /// $10000, on ROMs larger than 64 KiB; 0 elsewhere.
    pub fn read_prg_low_mapper43(&self, addr: u16) -> (r: u8)
        ensures
            r == if self.prg_rom@.len() <= 0x10000 || addr < 0x5000 || addr > 0x5FFF {
                0
            } else {
                self.prg_rom@[(0x10000 + (addr - 0x5000) % 0x800) % (self.prg_rom@.len() as int)]
            },
    {
        let len = self.prg_rom.len();
        if len <= 0x10000 || addr < 0x5000 || addr > 0x5FFF {
            return 0;
        }
        let local = (addr as usize) - 0x5000;
        proof {
            lemma_usize_masks(local, 0);
        }
        let offset = local & 0x07FF;
        self.prg_rom[(0x10000 + offset) % len]
    }

    /// Mapper 43: bank 1 at $8000, bank 0 at $A000, the bank its register
    /// selects at $C000, and ROM offset $12000 at $E000 (on ROMs larger than
    /// that).
    pub fn read_prg_mapper43(&self, addr: u16) -> (r: u8)
        ensures
            r == read_prg_mapper43_value(*self, addr),
    {
        if 0x8000 <= addr && addr < 0xA000 {
            self.read_prg_8k_bank(1, 0x8000, addr)
        } else if 0xA000 <= addr && addr < 0xC000 {
            self.read_prg_8k_bank(0, 0xA000, addr)
        } else if 0xC000 <= addr && addr < 0xE000 {
            let sel = self.prg_bank & 0x07;
            proof {
                lemma_u8_masks(self.prg_bank);
            }
            let bank: usize = if sel == 0 || sel == 2 || sel == 3 || sel == 4 {
                4
            } else if sel == 1 {
                3
            } else if sel == 5 {
                7
            } else if sel == 6 {
                5
            } else {
                6
            };
            self.read_prg_8k_bank(bank, 0xC000, addr)
        } else if addr >= 0xE000 {
            let len = self.prg_rom.len();
            if len > 0x12000 {
                let offset = 0x12000 + (addr - 0xE000) as usize;
                self.prg_rom[offset % len]
            } else {
                0
            }
        } else {
            0
        }
    }

    /// Mapper 43 at $6000-$7FFF: bank 2.
    pub fn read_prg_ram_mapper43(&self, addr: u16) -> (r: u8)
        ensures
            r == read_prg_ram_mapper43_value(*self, addr),
    {
        self.read_prg_8k_bank(2, 0x6000, addr)
    }

    /// Mapper 40 registers (by address bits 13-15): $8000 stops and clears
    /// the counter, $A000 starts it from 0, $E000 selects the bank at $C000.
    pub fn write_prg_mapper40(&mut self, addr: u16, data: u8)
        ensures
            write_prg_mapper40_post(*old(self), *final(self), addr, data),
    {
        if self.mapper40.is_none() {
            return;
        }
        proof {
            lemma_u16_masks(addr);
        }
        let sel = addr & 0xE000;
        if sel == 0x8000 {
            self.mapper40 = Some(Mapper40 { irq_enabled: false, irq_counter: 0, irq_pending: false });
        } else if sel == 0xA000 {
            self.mapper40 = Some(Mapper40 { irq_enabled: true, irq_counter: 0, irq_pending: false });
        } else if sel == 0xE000 {
            let len = self.prg_rom.len();
            let banks = if len / 0x2000 > 1 { len / 0x2000 } else { 1 };
            proof {
                lemma_mod_small((data & 0x07) as nat, banks as nat);
            }
            self.prg_bank = (((data as usize) & 0x07) % banks) as u8;
        }
    }

    /// Mapper 50: bank 8, 9, the switchable bank and bank 11 at $8000-$FFFF,
    /// bank 15 at $6000.
    pub fn read_prg_mapper50(&self, addr: u16) -> (r: u8)
        ensures
            r == read_prg_mapper50_value(*self, addr),
    {
        if 0x8000 <= addr && addr < 0xA000 {
            self.read_prg_8k_bank(0x08, 0x8000, addr)
        } else if 0xA000 <= addr && addr < 0xC000 {
            self.read_prg_8k_bank(0x09, 0xA000, addr)
        } else if 0xC000 <= addr && addr < 0xE000 {
            self.read_prg_8k_bank(self.prg_bank as usize, 0xC000, addr)
        } else if addr >= 0xE000 {
            self.read_prg_8k_bank(0x0B, 0xE000, addr)
        } else {
            self.read_prg_8k_bank(0x0F, 0x6000, addr)
        }
    }

    /// Mapper 50 at $6000-$7FFF: bank 15.
    pub fn read_prg_ram_mapper50(&self, addr: u16) -> (r: u8)
        ensures
            r == read_prg_ram_mapper50_value(*self, addr),
    {
        self.read_prg_8k_bank(0x0F, 0x6000, addr)
    }

    /// Mapper 50 registers (address lines masked with $D160): $4120 sets the
    /// counter's enable (clearing it when disabled) and acknowledges the
    /// IRQ, $4020 selects the bank at $C000 from scrambled data bits.
    pub fn write_prg_mapper50(&mut self, addr: u16, data: u8)
        ensures
            write_prg_mapper50_post(*old(self), *final(self), addr, data),
    {
        let sel = addr & 0xD160;
        if sel == 0x4120 {
            match &self.mapper50 {
                None => {},
                Some(m) => {
                    let enabled = data & 0x01 != 0;
                    let counter = if enabled { m.irq_counter } else { 0 };
                    self.mapper50 = Some(Mapper50 { irq_pending: false, irq_enabled: enabled, irq_counter: counter });
                },
            }
        } else if sel == 0x4020 {
            let len = self.prg_rom.len();
            let banks = if len / 0x2000 > 1 { len / 0x2000 } else { 1 };
            let bank = ((data & 0x01) << 2) | ((data & 0x02) >> 1) | ((data & 0x04) >> 1) | (data & 0x08);
            proof {
                lemma_mod_small(bank as nat, banks as nat);
            }
            self.prg_bank = ((bank as usize) % banks) as u8;
        }
    }

    /// Mapper 42 register ($8000-$FFFF): the bank at $6000 (low nibble,
    /// modulo the bank count), the arrangement (bit 4: horizontal) and the
    /// counter (bit 5 starts it, else it stops and clears).
    pub fn write_prg_mapper42(&mut self, addr: u16, data: u8)
        ensures
            write_prg_mapper42_post(*old(self), *final(self), addr, data),
    {
        if addr < 0x8000 {
            return;
        }
        let len = self.prg_rom.len();
        let banks = if len / 0x2000 > 1 { len / 0x2000 } else { 1 };
        proof {
            lemma_mod_small((data & 0x0F) as nat, banks as nat);
        }
        self.prg_bank = (((data as usize) & 0x0F) % banks) as u8;
        self.mirroring = if data & 0x10 != 0 { Mirroring::Horizontal } else { Mirroring::Vertical };
        match &self.mapper42 {
            None => {},
            Some(m) => {
                let next = if data & 0x20 != 0 {
                    Mapper42 { irq_enabled: true, irq_counter: m.irq_counter, irq_pending: m.irq_pending }
                } else {
                    Mapper42 { irq_enabled: false, irq_counter: 0, irq_pending: false }
                };
                self.mapper42 = Some(next);
            },
        }
    }

    /// Mapper 43 registers: $4022 selects the bank at $C000; $4122 and
    /// $8122 start the counter (bit 0) or stop and clear it.
    pub fn write_prg_mapper43(&mut self, addr: u16, data: u8)
        ensures
            write_prg_mapper43_post(*old(self), *final(self), addr, data),
    {
        if addr == 0x4022 {
            self.prg_bank = data & 0x07;
        } else if addr == 0x4122 || addr == 0x8122 {
            match &self.mapper43 {
                None => {},
                Some(m) => {
                    let next = if data & 0x01 != 0 {
                        Mapper43 { irq_enabled: true, irq_counter: m.irq_counter, irq_pending: m.irq_pending }
                    } else {
                        Mapper43 { irq_enabled: false, irq_counter: 0, irq_pending: false }
                    };
                    self.mapper43 = Some(next);
                },
            }
        }
    }
}

/// The byte [`Cartridge::read_prg_mapper40`] returns.
pub open spec fn read_prg_mapper40_value(cart: Cartridge, addr: u16) -> u8 {
    ({
            let len = cart.prg_rom@.len();
            if 0x8000 <= addr < 0xA000 {
                prg_8k_byte(cart.prg_rom@, bank_from_end(len, 4), 0x8000, addr)
            } else if 0xA000 <= addr < 0xC000 {
                prg_8k_byte(cart.prg_rom@, bank_from_end(len, 3), 0xA000, addr)
            } else if 0xC000 <= addr < 0xE000 {
                prg_8k_byte(cart.prg_rom@, cart.prg_bank as nat, 0xC000, addr)
            } else if addr >= 0xE000 {
                prg_8k_byte(cart.prg_rom@, bank_from_end(len, 1), 0xE000, addr)
            } else {
                prg_8k_byte(cart.prg_rom@, bank_from_end(len, 2), 0x6000, addr)
            }
        })
}

/// The byte [`Cartridge::read_prg_mapper42`] returns.
pub open spec fn read_prg_mapper42_value(cart: Cartridge, addr: u16) -> u8 {
    ({
            let len = cart.prg_rom@.len();
            if 0x8000 <= addr < 0xA000 {
                prg_8k_byte(cart.prg_rom@, bank_from_end(len, 4), 0x8000, addr)
            } else if 0xA000 <= addr < 0xC000 {
                prg_8k_byte(cart.prg_rom@, bank_from_end(len, 3), 0xA000, addr)
            } else if 0xC000 <= addr < 0xE000 {
                prg_8k_byte(cart.prg_rom@, bank_from_end(len, 2), 0xC000, addr)
            } else if addr >= 0xE000 {
                prg_8k_byte(cart.prg_rom@, bank_from_end(len, 1), 0xE000, addr)
            } else {
                prg_8k_byte(cart.prg_rom@, cart.prg_bank as nat, 0x6000, addr)
            }
        })
}

/// The byte [`Cartridge::read_prg_mapper43`] returns.
pub open spec fn read_prg_mapper43_value(cart: Cartridge, addr: u16) -> u8 {
    if 0x8000 <= addr < 0xA000 {
            prg_8k_byte(cart.prg_rom@, 1, 0x8000, addr)
        } else if 0xA000 <= addr < 0xC000 {
            prg_8k_byte(cart.prg_rom@, 0, 0xA000, addr)
        } else if 0xC000 <= addr < 0xE000 {
            prg_8k_byte(cart.prg_rom@, mapper43_c000_bank(cart.prg_bank), 0xC000, addr)
        } else if addr >= 0xE000 {
            if cart.prg_rom@.len() > 0x12000 {
                cart.prg_rom@[(0x12000 + (addr - 0xE000)) % (cart.prg_rom@.len() as int)]
            } else {
                0
            }
        } else {
            0
        }
}

/// The byte [`Cartridge::read_prg_mapper50`] returns.
pub open spec fn read_prg_mapper50_value(cart: Cartridge, addr: u16) -> u8 {
    if 0x8000 <= addr < 0xA000 {
            prg_8k_byte(cart.prg_rom@, 8, 0x8000, addr)
        } else if 0xA000 <= addr < 0xC000 {
            prg_8k_byte(cart.prg_rom@, 9, 0xA000, addr)
        } else if 0xC000 <= addr < 0xE000 {
            prg_8k_byte(cart.prg_rom@, cart.prg_bank as nat, 0xC000, addr)
        } else if addr >= 0xE000 {
            prg_8k_byte(cart.prg_rom@, 11, 0xE000, addr)
        } else {
            prg_8k_byte(cart.prg_rom@, 15, 0x6000, addr)
        }
}

/// The byte [`Cartridge::read_prg_ram_mapper40`] returns.
pub open spec fn read_prg_ram_mapper40_value(cart: Cartridge, addr: u16) -> u8 {
    prg_8k_byte(cart.prg_rom@, bank_from_end(cart.prg_rom@.len(), 2), 0x6000, addr)
}

/// The byte [`Cartridge::read_prg_ram_mapper42`] returns.
pub open spec fn read_prg_ram_mapper42_value(cart: Cartridge, addr: u16) -> u8 {
    prg_8k_byte(cart.prg_rom@, cart.prg_bank as nat, 0x6000, addr)
}

/// The byte [`Cartridge::read_prg_ram_mapper43`] returns.
pub open spec fn read_prg_ram_mapper43_value(cart: Cartridge, addr: u16) -> u8 {
    prg_8k_byte(cart.prg_rom@, 2, 0x6000, addr)
}

/// The byte [`Cartridge::read_prg_ram_mapper50`] returns.
pub open spec fn read_prg_ram_mapper50_value(cart: Cartridge, addr: u16) -> u8 {
    prg_8k_byte(cart.prg_rom@, 15, 0x6000, addr)
}

/// The state change of [`Cartridge::write_prg_mapper40`].
pub open spec fn write_prg_mapper40_post(c0: Cartridge, c1: Cartridge, addr: u16, data: u8) -> bool {
    match c0.mapper40 {
            None => c1 == c0,
            Some(m) => {
                let sel = addr / 0x2000;
                c1 == if sel == 4 {
                    Cartridge { mapper40: Some(Mapper40 { irq_enabled: false, irq_counter: 0, irq_pending: false }), ..c0 }
                } else if sel == 5 {
                    Cartridge { mapper40: Some(Mapper40 { irq_enabled: true, irq_counter: 0, irq_pending: false }), ..c0 }
                } else if sel == 7 {
                    Cartridge {
                        prg_bank: (((data & 0x07) as nat) % banks_8k(c0.prg_rom@.len())) as u8,
                        ..c0
                    }
                } else {
                    c0
                }
            },
        }
}

/// The state change of [`Cartridge::write_prg_mapper42`].
pub open spec fn write_prg_mapper42_post(c0: Cartridge, c1: Cartridge, addr: u16, data: u8) -> bool {
    c1 == if addr < 0x8000 {
            c0
        } else {
            Cartridge {
                prg_bank: (((data & 0x0F) as nat) % banks_8k(c0.prg_rom@.len())) as u8,
                mirroring: if data & 0x10 != 0 { Mirroring::Horizontal } else { Mirroring::Vertical },
                mapper42: match c0.mapper42 {
                    Some(m) => Some(if data & 0x20 != 0 {
                        Mapper42 { irq_enabled: true, ..m }
                    } else {
                        Mapper42 { irq_enabled: false, irq_counter: 0, irq_pending: false }
                    }),
                    None => None,
                },
                ..c0
            }
        }
}

/// The state change of [`Cartridge::write_prg_mapper43`].
pub open spec fn write_prg_mapper43_post(c0: Cartridge, c1: Cartridge, addr: u16, data: u8) -> bool {
    c1 == if addr == 0x4022 {
            Cartridge { prg_bank: data & 0x07, ..c0 }
        } else if addr == 0x4122 || addr == 0x8122 {
            match c0.mapper43 {
                Some(m) => Cartridge {
                    mapper43: Some(if data & 0x01 != 0 {
                        Mapper43 { irq_enabled: true, ..m }
                    } else {
                        Mapper43 { irq_enabled: false, irq_counter: 0, irq_pending: false }
                    }),
                    ..c0
                },
                None => c0,
            }
        } else {
            c0
        }
}

/// The state change of [`Cartridge::write_prg_mapper50`].
pub open spec fn write_prg_mapper50_post(c0: Cartridge, c1: Cartridge, addr: u16, data: u8) -> bool {
    c1 == if addr & 0xD160 == 0x4120 {
            match c0.mapper50 {
                Some(m) => Cartridge {
                    mapper50: Some(Mapper50 {
                        irq_pending: false,
                        irq_enabled: data & 0x01 != 0,
                        irq_counter: if data & 0x01 != 0 { m.irq_counter } else { 0 },
                    }),
                    ..c0
                },
                None => c0,
            }
        } else if addr & 0xD160 == 0x4020 {
            Cartridge {
                prg_bank: ((mapper50_bank(data) as nat) % banks_8k(c0.prg_rom@.len())) as u8,
                ..c0
            }
        } else {
            c0
        }
}

} // verus!

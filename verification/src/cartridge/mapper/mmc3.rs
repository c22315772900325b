//! Nintendo MMC3 (mapper 4 and its many relatives): bank select, eight bank
//! registers and the scanline IRQ counter.

use vstd::prelude::*;
use crate::cartridge::Mirroring;
use crate::bits::{lemma_u16_masks, lemma_u8_masks, lemma_usize_masks};

verus! {

#[derive(Debug, Clone)]
pub struct Mmc3 {
    pub bank_select: u8,
    pub bank_registers: [u8; 8],
    pub irq_latch: u8,
    pub irq_counter: u8,
    pub irq_reload: bool,
    pub irq_enabled: bool,
    pub irq_pending: bool,
    pub prg_ram_enabled: bool,
    pub prg_ram_write_protect: bool,
}

/// One scanline clock (a rising edge of PPU A12) of the MMC3 counter: a
/// counter at 0, or a pending reload, takes the latch value, otherwise the
/// counter decrements; reaching 0 with IRQs enabled raises the IRQ.
pub open spec fn mmc3_irq_clock(counter: u8, latch: u8, reload: bool, enabled: bool, pending: bool) -> (u8, bool, bool) {
    let next: u8 = if counter == 0 || reload { latch } else { (counter - 1) as u8 };
    (next, false, if next == 0 && enabled { true } else { pending })
}


/// `n` is the chip `o` after a CPU write of `data` at `addr`: even/odd
/// register pairs at $8000 (bank select / bank data), $A000 (mirroring /
/// PRG-RAM protect), $C000 (IRQ latch / reload) and $E000 (IRQ disable and
/// acknowledge / enable).
pub open spec fn mmc3_written(o: &Mmc3, n: &Mmc3, addr: u16, data: u8) -> bool {
    let even = addr % 2 == 0;
    let in_8000 = 0x8000 <= addr < 0xA000;
    let in_a000 = 0xA000 <= addr < 0xC000;
    let in_c000 = 0xC000 <= addr < 0xE000;
    let in_e000 = 0xE000 <= addr;
    &&& n.bank_select == if in_8000 && even { data } else { o.bank_select }
    &&& n.bank_registers@ == if in_8000 && !even {
        o.bank_registers@.update((o.bank_select % 8) as int, data)
    } else {
        o.bank_registers@
    }
    &&& n.prg_ram_write_protect == if in_a000 && !even { data & 0x40 != 0 } else { o.prg_ram_write_protect }
    &&& n.prg_ram_enabled == if in_a000 && !even { data & 0x80 != 0 } else { o.prg_ram_enabled }
    &&& n.irq_latch == if in_c000 && even { data } else { o.irq_latch }
    &&& n.irq_reload == if in_c000 && !even { true } else { o.irq_reload }
    &&& n.irq_enabled == if in_e000 { !even } else { o.irq_enabled }
    &&& n.irq_pending == if in_e000 && even { false } else { o.irq_pending }
    &&& n.irq_counter == o.irq_counter
}

/// The 8 KiB PRG bank mapped at `addr` ($8000-$FFFF) with `banks` banks:
/// R6 (or the second-to-last bank in PRG mode 1) at $8000, R7 at $A000,
/// the second-to-last bank (or R6 in mode 1) at $C000, the last at $E000.
/// Bank numbers are masked with `banks - 1`.
pub open spec fn mmc3_prg_bank(m: &Mmc3, addr: u16, banks: usize) -> usize {
    let mask = (banks - 1) as usize;
    let mode1 = (m.bank_select >> 6) & 1 == 1;
    let r6 = (m.bank_registers@[6] as usize) & mask;
    let second_last = ((banks - 2) as usize) & mask;
    if addr < 0xA000 {
        if mode1 { second_last } else { r6 }
    } else if addr < 0xC000 {
        (m.bank_registers@[7] as usize) & mask
    } else if addr < 0xE000 {
        if mode1 { r6 } else { second_last }
    } else {
        ((banks - 1) as usize) & mask
    }
}

/// The raw 1 KiB CHR bank for pattern address `addr`: two 2 KiB banks (R0,
/// R1, even/odd halves) and four 1 KiB banks (R2-R5), the halves swapped by
/// bank-select bit 7.
pub open spec fn mmc3_chr_bank_raw(m: &Mmc3, addr: u16) -> usize {
    let slot = (addr >> 10) & 7;
    let s = if (m.bank_select >> 7) & 1 != 0 { slot ^ 4 } else { slot };
    let r = m.bank_registers@;
    if s == 0 {
        (r[0] as usize) & !1usize
    } else if s == 1 {
        ((r[0] as usize) & !1usize) | 1
    } else if s == 2 {
        (r[1] as usize) & !1usize
    } else if s == 3 {
        ((r[1] as usize) & !1usize) | 1
    } else if s == 4 {
        r[2] as usize
    } else if s == 5 {
        r[3] as usize
    } else if s == 6 {
        r[4] as usize
    } else {
        r[5] as usize
    }
}

/// The CHR memory offset for `addr` with `banks` 1 KiB banks.
pub open spec fn mmc3_chr_offset(m: &Mmc3, addr: u16, banks: usize) -> int {
    ((mmc3_chr_bank_raw(m, addr) & ((banks - 1) as usize)) as int) * 0x400 + (addr % 0x400) as int
}

/// The power-on state of the chip.
pub open spec fn mmc3_power_on(m: Mmc3) -> bool {
    &&& m.bank_select == 0
    &&& m.bank_registers@ =~= seq![0u8, 0, 0, 0, 0, 0, 0, 0]
    &&& m.irq_latch == 0
    &&& m.irq_counter == 0
    &&& !m.irq_reload
    &&& !m.irq_enabled
    &&& !m.irq_pending
    &&& m.prg_ram_enabled
    &&& !m.prg_ram_write_protect
}

/// The bank-select mode bits as remainders.
proof fn lemma_bank_select_bits(b: u8, s: u16)
    by (bit_vector)
    ensures
        (b >> 6u8) & 1 == (b / 64) % 2,
        (b >> 7u8) & 1 == b / 128,
        s < 8 ==> (s ^ 4u16) == if s < 4 { (s + 4) as u16 } else { (s - 4) as u16 },
{
}

/// Law of the MMC3 PRG modes: two chips with the same bank registers, one
/// in PRG mode 0 (bank-select bit 6 clear) and one in mode 1, map the same
/// banks with $8000 and $C000 exchanged; $A000 is R7 and $E000 the last
/// bank in both.
pub proof fn lemma_mmc3_prg_mode_swap(m0: &Mmc3, m1: &Mmc3, a: u16, banks: usize)
    requires
        m0.bank_registers == m1.bank_registers,
        (m0.bank_select / 64) % 2 == 0,
        (m1.bank_select / 64) % 2 == 1,
        banks >= 2,
        0x8000 <= a < 0xA000,
    ensures
        mmc3_prg_bank(m1, a, banks) == mmc3_prg_bank(m0, (a + 0x4000) as u16, banks),
        mmc3_prg_bank(m1, (a + 0x4000) as u16, banks) == mmc3_prg_bank(m0, a, banks),
        mmc3_prg_bank(m0, a, banks) == (m0.bank_registers@[6] as usize) & ((banks - 1) as usize),
        mmc3_prg_bank(m1, (a + 0x2000) as u16, banks) == mmc3_prg_bank(m0, (a + 0x2000) as u16, banks),
        mmc3_prg_bank(m0, (a + 0x2000) as u16, banks) == (m0.bank_registers@[7] as usize) & ((banks - 1) as usize),
        mmc3_prg_bank(m1, (a + 0x6000) as u16, banks) == mmc3_prg_bank(m0, (a + 0x6000) as u16, banks),
{
    lemma_bank_select_bits(m0.bank_select, 0);
    lemma_bank_select_bits(m1.bank_select, 0);
}

/// Law of the MMC3 CHR inversion: two chips with the same bank registers,
/// one with bank-select bit 7 clear and one with it set, map the pattern
/// tables' halves ($0000-$0FFF and $1000-$1FFF) the other way round; with
/// it clear, the first half is R0 and R1 as 2 KiB pairs.
pub proof fn lemma_mmc3_chr_inversion(m0: &Mmc3, m1: &Mmc3, addr: u16)
    requires
        m0.bank_registers == m1.bank_registers,
        m0.bank_select / 128 == 0,
        m1.bank_select / 128 == 1,
        addr < 0x1000,
    ensures
        mmc3_chr_bank_raw(m1, addr) == mmc3_chr_bank_raw(m0, (addr + 0x1000) as u16),
        mmc3_chr_bank_raw(m1, (addr + 0x1000) as u16) == mmc3_chr_bank_raw(m0, addr),
        addr < 0x800 ==> mmc3_chr_bank_raw(m0, addr)
            == if addr < 0x400 { (m0.bank_registers@[0] as usize) & !1usize } else { ((m0.bank_registers@[0] as usize) & !1usize) | 1 },
{
    let hi = (addr + 0x1000) as u16;
    lemma_u16_masks(addr);
    lemma_u16_masks(hi);
    let s = (addr >> 10u16) & 7;
    let t = (hi >> 10u16) & 7;
    assert(t == s + 4);
    lemma_bank_select_bits(m0.bank_select, s);
    lemma_bank_select_bits(m1.bank_select, t);
}

/// `k` scanline clocks of the IRQ counter.
pub open spec fn mmc3_irq_clocks(counter: u8, latch: u8, reload: bool, enabled: bool, pending: bool, k: nat) -> (u8, bool, bool)
    decreases k,
{
    if k == 0 {
        (counter, reload, pending)
    } else {
        let (c, r, p) = mmc3_irq_clocks(counter, latch, reload, enabled, pending, (k - 1) as nat);
        mmc3_irq_clock(c, latch, r, enabled, p)
    }
}

/// Law of the MMC3 scanline IRQ: after a reload request ($C001) with a
/// non-zero latch, IRQs enabled and none pending, the first clock loads the
/// latch, each following clock counts down by one, and the IRQ is raised
/// on exactly the clock that brings the counter to 0, the (latch + 1)-th.
pub proof fn lemma_mmc3_irq_after_latch(counter: u8, latch: u8, k: nat)
    requires
        latch > 0,
        1 <= k <= latch as nat + 1,
    ensures
        mmc3_irq_clocks(counter, latch, true, true, false, k).0 == (latch + 1 - k) as u8,
        !mmc3_irq_clocks(counter, latch, true, true, false, k).1,
        mmc3_irq_clocks(counter, latch, true, true, false, k).2 == (k == latch as nat + 1),
    decreases k,
{
    reveal_with_fuel(mmc3_irq_clocks, 2);
    if k > 1 {
        lemma_mmc3_irq_after_latch(counter, latch, (k - 1) as nat);
        let (c, r, p) = mmc3_irq_clocks(counter, latch, true, true, false, (k - 1) as nat);
        assert(c as int == latch as int + 2 - k);
        assert(mmc3_irq_clocks(counter, latch, true, true, false, k) == mmc3_irq_clock(c, latch, r, true, p));
    }
}

impl Mmc3 {
    pub fn new() -> (m: Mmc3)
        ensures
            mmc3_power_on(m),
    {
        Mmc3 {
            bank_select: 0,
            bank_registers: [0; 8],
            irq_latch: 0,
            irq_counter: 0,
            irq_reload: false,
            irq_enabled: false,
            irq_pending: false,
            prg_ram_enabled: true,
            prg_ram_write_protect: false,
        }
    }


    /// A CPU write at `addr` ($8000-$FFFF); returns the nametable
    /// arrangement a mirroring write selects (bit 0: horizontal).
    pub fn write_register(&mut self, addr: u16, data: u8) -> (mirroring: Option<Mirroring>)
        ensures
            mmc3_written(old(self), final(self), addr, data),
            mirroring == if 0xA000 <= addr < 0xC000 && addr % 2 == 0 {
                Some(if data & 0x01 != 0 { Mirroring::Horizontal } else { Mirroring::Vertical })
            } else {
                None::<Mirroring>
            },
    {
        let even = (addr & 1) == 0;
        proof {
            lemma_u16_masks(addr);
        }
        if 0x8000 <= addr && addr < 0xA000 {
            if even {
                self.bank_select = data;
            } else {
                let reg = (self.bank_select & 0x07) as usize;
                proof {
                    let b = self.bank_select;
                    lemma_u8_masks(b);
                }
                self.bank_registers[reg] = data;
            }
            None
        } else if 0xA000 <= addr && addr < 0xC000 {
            if even {
                Some(if data & 0x01 != 0 { Mirroring::Horizontal } else { Mirroring::Vertical })
            } else {
                self.prg_ram_write_protect = (data & 0x40) != 0;
                self.prg_ram_enabled = (data & 0x80) != 0;
                None
            }
        } else if 0xC000 <= addr && addr < 0xE000 {
            if even {
                self.irq_latch = data;
            } else {
                self.irq_reload = true;
            }
            None
        } else if addr >= 0xE000 {
            if even {
                self.irq_enabled = false;
                self.irq_pending = false;
            } else {
                self.irq_enabled = true;
            }
            None
        } else {
            None
        }
    }

    /// A CPU read of PRG-ROM at `addr` ($8000-$FFFF); 0 without a whole
    /// 8 KiB bank or past the end.
    pub fn read_prg(&self, addr: u16, prg_rom: &Vec<u8>) -> (r: u8)
        requires
            addr >= 0x8000,
            prg_rom@.len() / 0x2000 != 1,
        ensures
            r == ({
                let banks = (prg_rom@.len() / 0x2000) as usize;
                if banks == 0 {
                    0
                } else {
                    let off = (mmc3_prg_bank(self, addr, banks) as int) * 0x2000 + (addr % 0x2000) as int;
                    if off < prg_rom@.len() { prg_rom@[off] } else { 0 }
                }
            }),
    {
        let banks = prg_rom.len() / 0x2000;
        if banks == 0 {
            return 0;
        }
        let mask = banks - 1;
        let mode1 = (self.bank_select >> 6) & 1 == 1;
        let second_last = (banks - 2) & mask;
        let last = (banks - 1) & mask;
        let r6 = (self.bank_registers[6] as usize) & mask;
        let bank = if addr < 0xA000 {
            if mode1 { second_last } else { r6 }
        } else if addr < 0xC000 {
            (self.bank_registers[7] as usize) & mask
        } else if addr < 0xE000 {
            if mode1 { r6 } else { second_last }
        } else {
            last
        };
        proof {
            lemma_usize_masks((banks - 2) as usize, mask);
            lemma_usize_masks((banks - 1) as usize, mask);
            lemma_usize_masks(self.bank_registers@[6] as usize, mask);
            lemma_usize_masks(self.bank_registers@[7] as usize, mask);
            assert(bank * 0x2000 <= mask * 0x2000) by (nonlinear_arith)
                requires
                    bank <= mask,
            ;
            lemma_u16_masks(addr);
        }
        let off = bank * 0x2000 + ((addr & 0x1FFF) as usize);
        if off < prg_rom.len() {
            prg_rom[off]
        } else {
            0
        }
    }

    /// The raw 1 KiB CHR bank for `addr`.
    pub(crate) fn chr_bank_raw(&self, addr: u16) -> (b: usize)
        ensures
            b == mmc3_chr_bank_raw(self, addr),
            b <= 255,
    {
        let slot = (addr >> 10) & 7;
        let s = if (self.bank_select >> 7) & 1 != 0 { slot ^ 4 } else { slot };
        let r0 = self.bank_registers[0] as usize;
        let r1 = self.bank_registers[1] as usize;
        proof {
            assert(r0 <= 255 && r1 <= 255 ==> (r0 & !1usize) <= 255 && ((r0 & !1usize) | 1) <= 255
                && (r1 & !1usize) <= 255 && ((r1 & !1usize) | 1) <= 255) by (bit_vector);
        }
        if s == 0 {
            r0 & !1usize
        } else if s == 1 {
            (r0 & !1usize) | 1
        } else if s == 2 {
            r1 & !1usize
        } else if s == 3 {
            (r1 & !1usize) | 1
        } else if s == 4 {
            self.bank_registers[2] as usize
        } else if s == 5 {
            self.bank_registers[3] as usize
        } else if s == 6 {
            self.bank_registers[4] as usize
        } else {
            self.bank_registers[5] as usize
        }
    }

    /// A PPU read of pattern memory at `addr` ($0000-$1FFF): CHR-RAM when
    /// the board has it, else CHR-ROM; 0 without a whole 1 KiB bank or past
    /// the end.
    pub fn read_chr(&self, addr: u16, chr_rom: &Vec<u8>, chr_ram: &Vec<u8>) -> (r: u8)
        ensures
            r == ({
                let mem = if chr_ram@.len() > 0 { chr_ram@ } else { chr_rom@ };
                let banks = (mem.len() / 0x400) as usize;
                if banks == 0 {
                    0
                } else {
                    let off = mmc3_chr_offset(self, addr, banks);
                    if off < mem.len() { mem[off] } else { 0 }
                }
            }),
    {
        let use_ram = chr_ram.len() > 0;
        let len = if use_ram { chr_ram.len() } else { chr_rom.len() };
        let banks = len / 0x400;
        if banks == 0 {
            return 0;
        }
        let off = self.chr_offset(addr, banks);
        if off < len {
            if use_ram { chr_ram[off] } else { chr_rom[off] }
        } else {
            0
        }
    }

    /// The CHR memory offset for `addr` with `banks` (at least one) 1 KiB
    /// banks.
    fn chr_offset(&self, addr: u16, banks: usize) -> (off: usize)
        requires
            banks >= 1,
        ensures
            off == mmc3_chr_offset(self, addr, banks),
    {
        let raw = self.chr_bank_raw(addr);
        let bank = raw & (banks - 1);
        proof {
            lemma_usize_masks(raw, (banks - 1) as usize);
            lemma_u16_masks(addr);
        }
        bank * 0x400 + ((addr & 0x03FF) as usize)
    }

    /// A PPU write of pattern memory: only CHR-RAM is written.
    pub fn write_chr(&self, addr: u16, data: u8, chr_ram: &mut Vec<u8>)
        ensures
            final(chr_ram)@ == ({
                let banks = (old(chr_ram)@.len() / 0x400) as usize;
                if banks == 0 {
                    old(chr_ram)@
                } else {
                    let off = mmc3_chr_offset(self, addr, banks);
                    if off < old(chr_ram)@.len() { old(chr_ram)@.update(off, data) } else { old(chr_ram)@ }
                }
            }),
    {
        let banks = chr_ram.len() / 0x400;
        if banks == 0 {
            return;
        }
        let off = self.chr_offset(addr, banks);
        if off < chr_ram.len() {
            chr_ram.set(off, data);
        }
    }

    /// A CPU read of PRG-RAM at `addr` ($6000-$7FFF): 0 while disabled.
    pub fn read_prg_ram(&self, addr: u16, prg_ram: &Vec<u8>) -> (r: u8)
        requires
            addr >= 0x6000,
        ensures
            r == if self.prg_ram_enabled && addr - 0x6000 < prg_ram@.len() { prg_ram@[addr - 0x6000] } else { 0 },
    {
        if !self.prg_ram_enabled {
            return 0;
        }
        let a = (addr - 0x6000) as usize;
        if a < prg_ram.len() {
            prg_ram[a]
        } else {
            0
        }
    }

    /// A CPU write of PRG-RAM: ignored while disabled or write-protected.
    pub fn write_prg_ram(&self, addr: u16, data: u8, prg_ram: &mut Vec<u8>)
        requires
            addr >= 0x6000,
        ensures
            final(prg_ram)@ == if self.prg_ram_enabled && !self.prg_ram_write_protect
                && addr - 0x6000 < old(prg_ram)@.len() {
                old(prg_ram)@.update(addr - 0x6000, data)
            } else {
                old(prg_ram)@
            },
    {
        if !self.prg_ram_enabled || self.prg_ram_write_protect {
            return;
        }
        let a = (addr - 0x6000) as usize;
        if a < prg_ram.len() {
            prg_ram.set(a, data);
        }
    }

    /// Clocks the scanline counter once.
    pub fn clock_irq_mut(&mut self)
        ensures
            (final(self).irq_counter, final(self).irq_reload, final(self).irq_pending) == mmc3_irq_clock(
                old(self).irq_counter,
                old(self).irq_latch,
                old(self).irq_reload,
                old(self).irq_enabled,
                old(self).irq_pending,
            ),
            final(self).bank_select == old(self).bank_select,
            final(self).bank_registers == old(self).bank_registers,
            final(self).irq_latch == old(self).irq_latch,
            final(self).irq_enabled == old(self).irq_enabled,
            final(self).prg_ram_enabled == old(self).prg_ram_enabled,
            final(self).prg_ram_write_protect == old(self).prg_ram_write_protect,
    {
        let counter_was_zero = self.irq_counter == 0;
        if counter_was_zero || self.irq_reload {
            self.irq_counter = self.irq_latch;
            self.irq_reload = false;
        } else {
            self.irq_counter -= 1;
        }
        if self.irq_counter == 0 && self.irq_enabled {
            self.irq_pending = true;
        }
    }
}

} // verus!

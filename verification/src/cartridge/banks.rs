//! Bank arithmetic shared by the boards: 1 KiB pattern-memory banks taken
//! modulo the bank count, positions modulo the memory.

use vstd::prelude::*;
use crate::cartridge::load::Cartridge;
use crate::cartridge::fixed_irq_board::lemma_mod_small;
use crate::bits::lemma_u16_masks;

verus! {

/// The position of byte `addr % 1 KiB` of 1 KiB bank `bank` in a memory of
/// `len` bytes: the bank modulo the bank count (at least one), the position
/// modulo the length.
pub open spec fn chr_1k_index(len: nat, bank: nat, addr: u16) -> int {
    let banks: nat = if len / 0x400 > 1 { len / 0x400 } else { 1 };
    (((bank % banks) * 0x400 + addr % 0x400) as int) % (len as int)
}

/// That byte of `mem`, or 0 for an empty memory.
pub open spec fn chr_1k_byte(mem: Seq<u8>, bank: nat, addr: u16) -> u8 {
    if mem.len() == 0 { 0 } else { mem[chr_1k_index(mem.len(), bank, addr)] }
}

/// Pattern memory of a board: CHR-RAM when it has some, else CHR-ROM.
pub open spec fn pattern_memory(c: Cartridge) -> Seq<u8> {
    if c.chr_ram@.len() > 0 { c.chr_ram@ } else { c.chr_rom@ }
}

/// A PRG-ROM byte through 8 KiB bank `bank`: `addr % 8 KiB` within it; 0
/// past the end of the ROM.
pub open spec fn prg_8k_at(rom: Seq<u8>, bank: int, addr: u16) -> u8 {
    let off = bank * 0x2000 + (addr % 0x2000) as int;
    if 0 <= off < rom.len() { rom[off] } else { 0 }
}

/// Position of `addr` in a memory of `len` bytes through 1 KiB bank
/// `bank`.
pub fn chr_1k_position(len: usize, bank: usize, addr: u16) -> (i: usize)
    requires
        len > 0,
    ensures
        i == chr_1k_index(len as nat, bank as nat, addr),
        i < len,
{
    let banks = if len / 0x400 > 1 { len / 0x400 } else { 1 };
    proof {
        lemma_mod_small(bank as nat, banks as nat);
        lemma_u16_masks(addr);
    }
    let b = bank % banks;
    let chr_addr = b * 0x400 + ((addr & 0x03FF) as usize);
    chr_addr % len
}

} // verus!

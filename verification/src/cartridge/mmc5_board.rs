//! MMC5 boards (mapper 5) as the CPU and PPU see them: PRG windows of 8,
//! 16 or 32 KiB over ROM or RAM, CHR windows of 1 to 8 KiB with separate
//! sprite and background banks, the $5000-$5FFF status and multiplier
//! registers, and the banked PRG-RAM window at $6000.

use vstd::prelude::*;
use crate::cartridge::load::Cartridge;
use crate::cartridge::mapper::mmc5::{Mmc5, mmc5_pulse_output, mmc5_pulse_timer_clocked, mmc5_pulse_envelope_clocked, mmc5_pulse_length_clocked};
use crate::cartridge::mapper::mmc5_write::{mmc5_written, mmc5_ram_write_index};
use crate::cartridge::fixed_irq_board::lemma_mod_small;
use crate::bits::{lemma_u16_masks, lemma_usize_masks};

verus! {

/// At least one 8 KiB bank of a memory of `len` bytes.
pub open spec fn banks_8k_of(len: nat) -> nat {
    if len / 0x2000 > 1 { len / 0x2000 } else { 1 }
}

/// The bank-number mask of a `size_8k` window (1, 2 or 4 banks of 8 KiB).
pub open spec fn mmc5_align(size_8k: usize) -> usize {
    !(((if size_8k - 1 > 1 { size_8k - 1 } else { 1 }) - 1) as usize)
}

/// The byte a PRG window reaches: RAM when the bank's bit 7 is clear
/// (unless the window is ROM-only), else ROM; the bank aligned by
/// [`mmc5_align`] and taken modulo the bank count, `offset` within the
/// window, positions modulo the memory. 0 for a RAM target without RAM.
pub open spec fn mmc5_prg_byte(c: Cartridge, raw_bank: u8, size_8k: usize, offset: usize, rom_only: bool) -> u8 {
    let in_bank = offset & ((size_8k * 0x2000 - 1) as usize);
    if !rom_only && raw_bank & 0x80 == 0 {
        let ram = c.prg_ram@;
        if ram.len() == 0 {
            0
        } else {
            let base = (((raw_bank as usize) & mmc5_align(size_8k)) as nat) % banks_8k_of(ram.len());
            ram[((base * 0x2000 + in_bank) as int) % (ram.len() as int)]
        }
    } else {
        let rom = c.prg_rom@;
        let base = ((((raw_bank & 0x7F) as usize) & mmc5_align(size_8k)) as nat) % banks_8k_of(rom.len());
        rom[((base * 0x2000 + in_bank) as int) % (rom.len() as int)]
    }
}

/// A CPU read of $8000-$FFFF in the four PRG modes: one 32 KiB ROM window;
/// two 16 KiB windows (the upper ROM-only); 16 + 8 + 8 KiB; four 8 KiB
/// windows. The window at $E000 is always ROM.
pub open spec fn mmc5_prg_read(c: Cartridge, m: Mmc5, addr: u16) -> u8 {
    let b = m.prg_banks@;
    let mode = m.prg_mode & 0x03;
    if mode == 0 {
        mmc5_prg_byte(c, b[3], 4, (addr - 0x8000) as usize, true)
    } else if mode == 1 {
        if addr < 0xC000 {
            mmc5_prg_byte(c, b[1], 2, (addr - 0x8000) as usize, false)
        } else {
            mmc5_prg_byte(c, b[3], 2, (addr - 0xC000) as usize, true)
        }
    } else if mode == 2 {
        if addr < 0xC000 {
            mmc5_prg_byte(c, b[1], 2, (addr - 0x8000) as usize, false)
        } else if addr < 0xE000 {
            mmc5_prg_byte(c, b[2], 1, (addr - 0xC000) as usize, false)
        } else {
            mmc5_prg_byte(c, b[3], 1, (addr - 0xE000) as usize, true)
        }
    } else if addr < 0xA000 {
        mmc5_prg_byte(c, b[0], 1, (addr - 0x8000) as usize, false)
    } else if addr < 0xC000 {
        mmc5_prg_byte(c, b[1], 1, (addr - 0xA000) as usize, false)
    } else if addr < 0xE000 {
        mmc5_prg_byte(c, b[2], 1, (addr - 0xC000) as usize, false)
    } else {
        mmc5_prg_byte(c, b[3], 1, (addr - 0xE000) as usize, true)
    }
}

/// Pattern memory of an MMC5 board: CHR-ROM when it has some, else
/// CHR-RAM.
pub open spec fn mmc5_chr_mem(c: Cartridge) -> Seq<u8> {
    if c.chr_rom@.len() > 0 { c.chr_rom@ } else { c.chr_ram@ }
}

/// Byte `local` of 1 KiB bank `bank` of pattern memory, the position
/// modulo its length; 0 without memory.
pub open spec fn mmc5_chr_byte(c: Cartridge, bank: usize, local: usize) -> u8 {
    let mem = mmc5_chr_mem(c);
    if mem.len() == 0 { 0 } else { mem[((bank * 0x400 + local) as int) % (mem.len() as int)] }
}

/// Whether a background fetch uses the background banks: during rendering
/// when the PPU uses 8x16 sprites; otherwise the set written last.
pub open spec fn mmc5_uses_bg_banks(m: Mmc5, sprite: bool) -> bool {
    if sprite {
        false
    } else if m.ppu_mask & 0x18 == 0 {
        m.ppu_data_uses_bg_banks
    } else {
        m.ppu_ctrl & 0x20 != 0
    }
}

/// The 1 KiB bank of pattern page `page` (0-7) in the CHR mode (8, 4, 2
/// or 1 KiB windows): the window's bank register, with the upper bits of
/// $5130, scaled to 1 KiB units, plus the page within the window.
pub open spec fn mmc5_chr_bank(m: Mmc5, page: usize, sprite: bool) -> usize {
    let mode = m.chr_mode & 0x03;
    let s = m.sprite_chr_banks@;
    let g = m.bg_chr_banks@;
    let raw: usize = if !mmc5_uses_bg_banks(m, sprite) {
        if mode == 0 {
            s[7] as usize
        } else if mode == 1 {
            s[if page < 4 { 3int } else { 7int }] as usize
        } else if mode == 2 {
            s[((page | 1) & 7) as int] as usize
        } else {
            s[(page & 7) as int] as usize
        }
    } else if mode <= 1 {
        g[3] as usize
    } else if mode == 2 {
        g[if page & 0x02 == 0 { 1int } else { 3int }] as usize
    } else {
        g[(page & 3) as int] as usize
    };
    let (unit, local): (usize, usize) = if mode == 0 {
        (8, page & 7)
    } else if mode == 1 {
        (4, page & 3)
    } else if mode == 2 {
        (2, page & 1)
    } else {
        (1, 0)
    };
    ((((m.chr_upper as usize) << 8usize) | raw) * unit + local) as usize
}

/// The $6000 window: the PRG-RAM bank of $5113 (modulo the bank count),
/// positions modulo the RAM.
pub open spec fn mmc5_ram_window_index(c: Cartridge, m: Mmc5, addr: u16) -> int {
    let len = c.prg_ram@.len();
    let bank = (m.prg_ram_bank as nat) % banks_8k_of(len);
    ((bank * 0x2000 + (addr % 0x2000)) as int) % (len as int)
}

/// The value a CPU read of $5000-$5FFF returns: the PCM status ($5010:
/// IRQ flag while enabled, read mode), the pulse length status ($5015),
/// the scanline status ($5204: in frame, IRQ), the 16-bit product of the
/// multiplier operands ($5205 low, $5206 high byte) and ExRAM in modes 2
/// and 3; 0 elsewhere.
pub open spec fn mmc5_low_value(m: Mmc5, addr: u16) -> u8 {
    let product = (m.multiplier_a as int) * (m.multiplier_b as int);
    if addr == 0x5010 {
        ((if m.pcm_irq_enabled && m.pcm_irq_pending { 0x80int } else { 0 }) + (if m.pcm_read_mode { 1int } else { 0 })) as u8
    } else if addr == 0x5015 {
        ((if m.pulse1@.length_counter > 0 { 1int } else { 0 }) + (if m.pulse2@.length_counter > 0 { 2int } else { 0 })) as u8
    } else if addr == 0x5204 {
        ((if m.in_frame { 0x40int } else { 0 }) + (if m.irq_pending { 0x80int } else { 0 })) as u8
    } else if addr == 0x5205 {
        (product % 256) as u8
    } else if addr == 0x5206 {
        (product / 256) as u8
    } else if 0x5C00 <= addr <= 0x5FFF && (m.exram_mode == 0x02 || m.exram_mode == 0x03) {
        m.exram@[addr - 0x5C00]
    } else {
        0
    }
}

/// The attribute quadrant shift for a tile: two bits per 16x16 block of
/// the 32x32 attribute area.
pub open spec fn attr_shift(tile_x: int, tile_y: int) -> int {
    (((tile_y % 4) / 2) * 2 + (tile_x % 4) / 2) * 2
}

/// A nametable source of the MMC5: internal nametable 0 or 1, ExRAM (in
/// ExRAM modes 0-1) or the fill tile or fill attribute (`attr` selects
/// which).
pub open spec fn mmc5_nt_byte(m: Mmc5, source: u8, offset: int, internal: [[u8; 1024]; 2], fill: u8) -> u8 {
    if source == 0 {
        internal@[0]@[offset]
    } else if source == 1 {
        internal@[1]@[offset]
    } else if source == 2 && m.exram_mode <= 0x01 {
        m.exram@[offset]
    } else if source == 3 {
        fill
    } else {
        0
    }
}

/// The fill attribute: the 2-bit fill colour in all four quadrants.
pub open spec fn mmc5_fill_attr_byte(m: Mmc5) -> u8 {
    let a = m.fill_attr & 0x03;
    a | (a << 2u8) | (a << 4u8) | (a << 6u8)
}

/// The extended-attribute palette of the last fetched tile, placed in its
/// attribute quadrant.
pub open spec fn mmc5_ext_attr_byte(m: Mmc5) -> u8 {
    (m.cached_ext_palette & 0x03) << (attr_shift(m.cached_tile_x as int, m.cached_tile_y as int) as u8)
}

/// The chip after a PPU read of a tile byte (`offset` below 960): the
/// tile's position is cached, and in extended-attribute mode while
/// rendering its ExRAM byte gives the 4 KiB CHR bank (low six bits) and
/// the palette (top two); otherwise both are cleared.
pub open spec fn mmc5_after_tile_read(m: Mmc5, offset: int) -> Mmc5 {
    let ext = m.ppu_mask & 0x18 != 0 && m.exram_mode == 0x01;
    Mmc5 {
        cached_tile_x: (offset % 32) as u8,
        cached_tile_y: (offset / 32) as u8,
        cached_ext_bank: if ext { m.exram@[offset] & 0x3F } else { 0 },
        cached_ext_palette: if ext { (m.exram@[offset] >> 6u8) & 0x03 } else { 0 },
        ..m
    }
}

/// The chip after one scanline while rendering: entering the frame starts
/// the count at 0, otherwise it advances (wrapping); reaching a non-zero
/// compare value with the IRQ enabled raises the IRQ.
pub open spec fn mmc5_after_scanline(m: Mmc5) -> Mmc5 {
    let next: u8 = if m.in_frame { ((m.scanline_counter + 1) % 256) as u8 } else { 0 };
    Mmc5 {
        in_frame: true,
        scanline_counter: next,
        irq_pending: m.irq_pending || (m.irq_enabled && m.irq_scanline_compare != 0 && next == m.irq_scanline_compare),
        ..m
    }
}

/// The byte a PPU nametable read at `offset` of logical nametable
/// `logical_nt` gets from the MMC5 (see `read_nametable_mmc5`).
pub open spec fn mmc5_nt_read_value(m: Mmc5, logical_nt: usize, offset: usize, internal: [[u8; 1024]; 2]) -> u8 {
    let source = m.nametable_map@[(logical_nt % 4) as int] & 0x03;
    let ext = m.ppu_mask & 0x18 != 0 && m.exram_mode == 0x01;
    if offset < 960 {
        mmc5_nt_byte(m, source, offset as int, internal, m.fill_tile)
    } else if ext {
        mmc5_ext_attr_byte(m)
    } else {
        mmc5_nt_byte(m, source, offset as int, internal, mmc5_fill_attr_byte(m))
    }
}

/// The MMC5 after that read: a tile fetch updates the fetch tracking.
pub open spec fn mmc5_nt_read_chip(m: Mmc5, offset: usize) -> Mmc5 {
    if offset < 960 { mmc5_after_tile_read(m, offset as int) } else { m }
}

/// A nametable write through the MMC5 from (`c`, `i`) to (`c2`, `i2`):
/// into the console nametable the source selects, or into ExRAM (source
/// 2, unless ExRAM is read-only); without the chip nothing changes.
pub open spec fn mmc5_nt_written(
    c: Cartridge,
    c2: Cartridge,
    i: [[u8; 1024]; 2],
    i2: [[u8; 1024]; 2],
    logical_nt: usize,
    offset: usize,
    data: u8,
) -> bool {
    match c.mmc5 {
        Some(m) => {
            let source = m.nametable_map@[(logical_nt % 4) as int] & 0x03;
            &&& forall|k: int| 0 <= k < 2 ==> (#[trigger] i2@[k])@ == if source <= 1 && k == source as int {
                i@[k]@.update(offset as int, data)
            } else {
                i@[k]@
            }
            &&& c2 == if source == 2 && m.exram_mode != 0x03 {
                Cartridge { mmc5: Some(Mmc5 { exram: c2.mmc5.unwrap().exram, ..m }), ..c }
            } else {
                c
            }
            &&& source == 2 && m.exram_mode != 0x03 ==> c2.mmc5.unwrap().exram@ == m.exram@.update(offset as int, data)
        },
        None => c2 == c && i2 == i,
    }
}

/// The MMC5 after a CPU read of $5000-$5FFF: reading the PCM status
/// ($5010) or the IRQ status ($5204) acknowledges that IRQ.
pub open spec fn mmc5_after_low_read(m: Mmc5, addr: u16) -> Mmc5 {
    if addr == 0x5010 {
        Mmc5 { pcm_irq_pending: false, ..m }
    } else if addr == 0x5204 {
        Mmc5 { irq_pending: false, ..m }
    } else {
        m
    }
}

/// The MMC5 half of an MMC5 board's state is sound: a 1 KiB ExRAM.
pub open spec fn mmc5_exram_ok(c: Cartridge) -> bool {
    c.mmc5 matches Some(m) ==> m.exram@.len() == 1024
}

/// A split-screen background fetch at screen position (`x`, `y`) with
/// fine scroll `fine_x`: inside the split region (left or right of the
/// threshold), the tile and attribute come from ExRAM at the split's own
/// vertical scroll, the pattern from the split's 4 KiB CHR bank; gives the
/// pattern's low and high bit-plane bytes and the palette.
pub open spec fn mmc5_split_fetch(c: Cartridge, m: Mmc5, x: u8, y: u8, fine_x: u8) -> Option<(u8, u8, u8)> {
    let tile_fetch = (x as int + fine_x as int) / 8;
    let threshold = (m.split_control % 32) as int;
    let in_split = if m.split_control & 0x40 != 0 { tile_fetch >= threshold } else { tile_fetch < threshold };
    if !(m.ppu_mask & 0x18 != 0 && m.exram_mode <= 0x01 && m.split_control & 0x80 != 0) || !in_split {
        None
    } else {
        let tile_x = (x / 8) as int;
        let split_y = y as int + m.split_scroll as int;
        let tile_y = (split_y / 8) % 30;
        let fine_y = split_y % 8;
        let tile_id: int = if tile_y * 32 + tile_x < m.exram@.len() { m.exram@[tile_y * 32 + tile_x] as int } else { 0 };
        let attr_offset = 960 + (tile_y / 4) * 8 + tile_x / 4;
        let attr_byte: u8 = if attr_offset < m.exram@.len() { m.exram@[attr_offset] } else { 0 };
        let palette = (attr_byte >> (attr_shift(tile_x, tile_y) as u8)) & 0x03;
        let chr_addr = (m.split_bank as int) * 0x1000 + tile_id * 16 + fine_y;
        Some((
            mmc5_chr_byte(c, (chr_addr / 0x400) as usize, (chr_addr % 0x400) as usize),
            mmc5_chr_byte(c, ((chr_addr + 8) / 0x400) as usize, ((chr_addr + 8) % 0x400) as usize),
            palette,
        ))
    }
}

/// One CPU cycle of the MMC5's sound: the pulse timers run every other
/// cycle; the envelopes and length counters 240 times a second (an
/// accumulator of the 240 Hz rate against the CPU clock).
pub open spec fn mmc5_audio_clocked(o: Mmc5, n: Mmc5) -> bool {
    let even = !o.audio_even_cycle;
    let acc = o.audio_frame_accum + 240;
    let frame = acc >= 1789773;
    let t1 = if even { mmc5_pulse_timer_clocked(o.pulse1@) } else { o.pulse1@ };
    let t2 = if even { mmc5_pulse_timer_clocked(o.pulse2@) } else { o.pulse2@ };
    &&& n.audio_even_cycle == even
    &&& n.audio_frame_accum == if frame { acc - 1789773 } else { acc }
    &&& n.pulse1@ == if frame { mmc5_pulse_length_clocked(mmc5_pulse_envelope_clocked(t1)) } else { t1 }
    &&& n.pulse2@ == if frame { mmc5_pulse_length_clocked(mmc5_pulse_envelope_clocked(t2)) } else { t2 }
    &&& n == (Mmc5 { audio_even_cycle: n.audio_even_cycle, audio_frame_accum: n.audio_frame_accum, pulse1: n.pulse1, pulse2: n.pulse2, ..o })
}

/// Two bytes ORed with one shifted by eight stay within 16 bits.
proof fn lemma_byte_pair(a: usize, b: usize)
    by (bit_vector)
    requires
        a <= 0xFF,
        b <= 0xFF,
    ensures
        (a << 8usize) | b <= 0xFFFF,
{
}

impl Cartridge {
    /// The number of 8 KiB PRG-ROM banks (at least one).
    pub fn mmc5_prg_rom_banks_8k(&self) -> (r: usize)
        ensures
            r == banks_8k_of(self.prg_rom@.len()),
    {
        if self.prg_rom.len() / 0x2000 > 1 { self.prg_rom.len() / 0x2000 } else { 1 }
    }

    /// The number of 8 KiB PRG-RAM banks (at least one).
    pub fn mmc5_prg_ram_banks_8k(&self) -> (r: usize)
        ensures
            r == banks_8k_of(self.prg_ram@.len()),
    {
        if self.prg_ram.len() / 0x2000 > 1 { self.prg_ram.len() / 0x2000 } else { 1 }
    }

    /// The size of pattern memory.
    pub fn mmc5_chr_len(&self) -> (r: usize)
        ensures
            r == mmc5_chr_mem(*self).len(),
    {
        if self.chr_rom.len() > 0 { self.chr_rom.len() } else { self.chr_ram.len() }
    }

    /// The byte a PRG window reaches (see [`mmc5_prg_byte`]).
    pub fn mmc5_prg_target(&self, raw_bank: u8, size_8k: usize, offset: usize, rom_only: bool) -> (r: u8)
        requires
            size_8k == 1 || size_8k == 2 || size_8k == 4,
            rom_only || raw_bank & 0x80 != 0 ==> self.prg_rom@.len() > 0,
        ensures
            r == mmc5_prg_byte(*self, raw_bank, size_8k, offset, rom_only),
    {
        let mask = size_8k * 0x2000 - 1;
        let offset_in_bank = offset & mask;
        let keep = if size_8k - 1 > 1 { size_8k - 1 } else { 1 };
        let align = !(keep - 1);
        proof {
            lemma_usize_masks(offset, mask);
        }
        if !rom_only && raw_bank & 0x80 == 0 {
            if self.prg_ram.len() == 0 {
                return 0;
            }
            let bank_count = self.mmc5_prg_ram_banks_8k();
            let bank_base = ((raw_bank as usize) & align) % bank_count;
            let ram_addr = (bank_base as u128) * 0x2000 + (offset_in_bank as u128);
            let len = self.prg_ram.len();
            return self.prg_ram[(ram_addr % (len as u128)) as usize];
        }
        let bank_count = self.mmc5_prg_rom_banks_8k();
        let bank_base = (((raw_bank & 0x7F) as usize) & align) % bank_count;
        let rom_addr = (bank_base as u128) * 0x2000 + (offset_in_bank as u128);
        let len = self.prg_rom.len();
        self.prg_rom[(rom_addr % (len as u128)) as usize]
    }

    /// A CPU read of $8000-$FFFF (see [`mmc5_prg_read`]); 0 without the
    /// chip.
    pub fn read_prg_mmc5(&self, addr: u16) -> (r: u8)
        requires
            read_prg_mmc5_pre(*self, addr),
        ensures
            r == read_prg_mmc5_value(*self, addr),
    {
        let m = match &self.mmc5 {
            Some(m) => m,
            None => {
                return 0;
            },
        };
        let b0 = m.prg_banks[0];
        let b1 = m.prg_banks[1];
        let b2 = m.prg_banks[2];
        let b3 = m.prg_banks[3];
        let mode = m.prg_mode & 0x03;
        if mode == 0 {
            self.mmc5_prg_target(b3, 4, (addr - 0x8000) as usize, true)
        } else if mode == 1 {
            if addr < 0xC000 {
                self.mmc5_prg_target(b1, 2, (addr - 0x8000) as usize, false)
            } else {
                self.mmc5_prg_target(b3, 2, (addr - 0xC000) as usize, true)
            }
        } else if mode == 2 {
            if addr < 0xC000 {
                self.mmc5_prg_target(b1, 2, (addr - 0x8000) as usize, false)
            } else if addr < 0xE000 {
                self.mmc5_prg_target(b2, 1, (addr - 0xC000) as usize, false)
            } else {
                self.mmc5_prg_target(b3, 1, (addr - 0xE000) as usize, true)
            }
        } else if addr < 0xA000 {
            self.mmc5_prg_target(b0, 1, (addr - 0x8000) as usize, false)
        } else if addr < 0xC000 {
            self.mmc5_prg_target(b1, 1, (addr - 0xA000) as usize, false)
        } else if addr < 0xE000 {
            self.mmc5_prg_target(b2, 1, (addr - 0xC000) as usize, false)
        } else {
            self.mmc5_prg_target(b3, 1, (addr - 0xE000) as usize, true)
        }
    }

    /// A CPU write at $5000-$FFFF: the chip's registers and ExRAM, and
    /// PRG-RAM through its windows while writes are unlocked. Nothing
    /// happens without the chip.
    pub fn write_prg_mmc5(&mut self, addr: u16, data: u8)
        ensures
            write_prg_mmc5_post(*old(self), *final(self), addr, data),
    {
        let mut m = match self.mmc5.take() {
            Some(m) => m,
            None => {
                return;
            },
        };
        m.write_register(addr, data, &mut self.prg_ram);
        self.mmc5 = Some(m);
    }

    /// The 1 KiB bank of pattern page `page` (see [`mmc5_chr_bank`]); the
    /// page itself without the chip.
    pub fn mmc5_chr_bank_1k(&self, page: usize, sprite: bool) -> (r: usize)
        requires
            page < 8,
        ensures
            r == match self.mmc5 {
                Some(m) => mmc5_chr_bank(m, page, sprite),
                None => page,
            },
            r < 0x80000,
    {
        let m = match &self.mmc5 {
            Some(m) => m,
            None => {
                return page;
            },
        };
        let upper = m.chr_upper as usize;
        let use_bg_banks = if sprite {
            false
        } else if !m.substitutions_enabled() {
            m.ppu_data_uses_bg_banks
        } else {
            (m.ppu_ctrl & 0x20) != 0
        };
        let mode = m.chr_mode & 0x03;
        let raw: usize = if !use_bg_banks {
            if mode == 0 {
                m.sprite_chr_banks[7] as usize
            } else if mode == 1 {
                m.sprite_chr_banks[if page < 4 { 3 } else { 7 }] as usize
            } else if mode == 2 {
                proof {
                    lemma_usize_masks(page | 1, 7);
                }
                m.sprite_chr_banks[(page | 1) & 7] as usize
            } else {
                proof {
                    lemma_usize_masks(page, 7);
                }
                m.sprite_chr_banks[page & 7] as usize
            }
        } else if mode <= 1 {
            m.bg_chr_banks[3] as usize
        } else if mode == 2 {
            m.bg_chr_banks[if page & 0x02 == 0 { 1 } else { 3 }] as usize
        } else {
            proof {
                lemma_usize_masks(page, 3);
            }
            m.bg_chr_banks[page & 3] as usize
        };
        let (unit_pages, local_page): (usize, usize) = if mode == 0 {
            (8, page & 7)
        } else if mode == 1 {
            (4, page & 3)
        } else if mode == 2 {
            (2, page & 1)
        } else {
            (1, 0)
        };
        proof {
            lemma_byte_pair(upper, raw);
            lemma_usize_masks(page, 7);
            lemma_usize_masks(page, 3);
            lemma_usize_masks(page, 1);
        }
        let combined = (upper << 8) | raw;
        proof {
            assert(combined * unit_pages + local_page < 0x80000) by (nonlinear_arith)
                requires
                    combined <= 0xFFFF,
                    unit_pages <= 8,
                    local_page < 8,
            ;
        }
        combined * unit_pages + local_page
    }

    /// Byte `local_offset` of 1 KiB pattern bank `bank_1k` (see
    /// [`mmc5_chr_byte`]).
    pub fn read_mmc5_chr_1k(&self, bank_1k: usize, local_offset: usize) -> (r: u8)
        requires
            bank_1k < 0x80000,
            local_offset < 0x400,
        ensures
            r == mmc5_chr_byte(*self, bank_1k, local_offset),
    {
        let len = self.mmc5_chr_len();
        if len == 0 {
            return 0;
        }
        let addr = (bank_1k * 0x0400 + local_offset) % len;
        if self.chr_rom.len() > 0 {
            self.chr_rom[addr]
        } else {
            self.chr_ram[addr]
        }
    }

    /// Writes that byte: into CHR-ROM when the board has some, else into
    /// CHR-RAM.
    pub fn write_mmc5_chr_1k(&mut self, bank_1k: usize, local_offset: usize, data: u8)
        requires
            bank_1k < 0x80000,
            local_offset < 0x400,
        ensures
            ({
                let len = mmc5_chr_mem(*old(self)).len();
                let i = ((bank_1k * 0x400 + local_offset) as int) % (len as int);
                if len == 0 {
                    *final(self) == *old(self)
                } else if old(self).chr_rom@.len() > 0 {
                    &&& final(self).chr_rom@ == old(self).chr_rom@.update(i, data)
                    &&& *final(self) == (Cartridge { chr_rom: final(self).chr_rom, ..*old(self) })
                } else {
                    &&& final(self).chr_ram@ == old(self).chr_ram@.update(i, data)
                    &&& *final(self) == (Cartridge { chr_ram: final(self).chr_ram, ..*old(self) })
                }
            }),
    {
        let len = self.mmc5_chr_len();
        if len == 0 {
            return;
        }
        let addr = (bank_1k * 0x0400 + local_offset) % len;
        if self.chr_rom.len() > 0 {
            self.chr_rom.set(addr, data);
        } else {
            self.chr_ram.set(addr, data);
        }
    }

    /// A PPU background read of pattern memory: through the ExRAM's 4 KiB
    /// bank in extended-attribute mode while rendering, else through the
    /// CHR windows; 0 without the chip.
    pub fn read_chr_mmc5(&self, addr: u16) -> (r: u8)
        ensures
            r == read_chr_mmc5_value(*self, addr),
    {
        let (ext, ext_bank) = match &self.mmc5 {
            Some(m) => (m.substitutions_enabled() && m.exram_mode == 0x01, m.cached_ext_bank),
            None => {
                return 0;
            },
        };
        proof {
            lemma_u16_masks(addr);
            lemma_usize_masks(addr as usize, 0);
        }
        if ext {
            let chr_addr = (ext_bank as usize) * 0x1000 + ((addr & 0x0FFF) as usize);
            proof {
                lemma_usize_masks(chr_addr, 0x03FF);
            }
            return self.read_mmc5_chr_1k(chr_addr >> 10, chr_addr & 0x03FF);
        }
        let page = ((addr as usize) >> 10) & 0x07;
        let local_offset = (addr as usize) & 0x03FF;
        let bank = self.mmc5_chr_bank_1k(page, false);
        self.read_mmc5_chr_1k(bank, local_offset)
    }

    /// A PPU sprite read of pattern memory through the sprite banks.
    pub fn read_chr_sprite_mmc5(&self, addr: u16, sprite_y: u8) -> (r: u8)
        ensures
            r == read_chr_sprite_mmc5_value(*self, addr, sprite_y),
    {
        proof {
            lemma_u16_masks(addr);
            lemma_usize_masks(addr as usize, 0);
        }
        let page = ((addr as usize) >> 10) & 0x07;
        let local_offset = (addr as usize) & 0x03FF;
        let bank = self.mmc5_chr_bank_1k(page, true);
        self.read_mmc5_chr_1k(bank, local_offset)
    }

    /// A PPU write of pattern memory through the background-side banks.
    pub fn write_chr_mmc5(&mut self, addr: u16, data: u8)
        ensures
            write_chr_mmc5_post(*old(self), *final(self), addr, data),
    {
        proof {
            lemma_u16_masks(addr);
            lemma_usize_masks(addr as usize, 0);
        }
        let page = ((addr as usize) >> 10) & 0x07;
        let local_offset = (addr as usize) & 0x03FF;
        let bank = self.mmc5_chr_bank_1k(page, false);
        self.write_mmc5_chr_1k(bank, local_offset, data);
    }

    /// A CPU read of the $6000 window: the PRG-RAM bank of $5113; 0 without
    /// RAM or the chip.
    pub fn read_prg_ram_mmc5(&self, addr: u16) -> (r: u8)
        ensures
            r == read_prg_ram_mmc5_value(*self, addr),
    {
        let m = match &self.mmc5 {
            Some(m) => m,
            None => {
                return 0;
            },
        };
        if self.prg_ram.len() == 0 {
            return 0;
        }
        let i = Self::mmc5_ram_position(self.prg_ram.len(), m.prg_ram_bank, addr);
        self.prg_ram[i]
    }

    /// Position of `addr` in PRG-RAM of `len` bytes through bank `bank`.
    fn mmc5_ram_position(len: usize, bank: u8, addr: u16) -> (i: usize)
        requires
            len > 0,
        ensures
            i < len,
            i == ((((bank as nat) % banks_8k_of(len as nat)) * 0x2000 + (addr % 0x2000)) as int) % (len as int),
    {
        let banks = if len / 0x2000 > 1 { len / 0x2000 } else { 1 };
        let b = (bank as usize) % banks;
        proof {
            lemma_u16_masks(addr);
            lemma_mod_small(bank as nat, banks as nat);
        }
        let ram_addr = (b as u128) * 0x2000 + ((addr & 0x1FFF) as u128);
        (ram_addr % (len as u128)) as usize
    }

    /// A CPU write of the $6000 window while PRG-RAM writes are unlocked.
    pub fn write_prg_ram_mmc5(&mut self, addr: u16, data: u8)
        ensures
            write_prg_ram_mmc5_post(*old(self), *final(self), addr, data),
    {
        let (enabled, bank) = match &self.mmc5 {
            Some(m) => (m.prg_ram_write_enabled(), m.prg_ram_bank),
            None => {
                return;
            },
        };
        if !enabled || self.prg_ram.len() == 0 {
            return;
        }
        let i = Self::mmc5_ram_position(self.prg_ram.len(), bank, addr);
        self.prg_ram.set(i, data);
    }
    /// The fill attribute byte; 0 without the chip.
    pub fn mmc5_fill_attribute(&self) -> (r: u8)
        ensures
            r == match self.mmc5 {
                Some(m) => mmc5_fill_attr_byte(m),
                None => 0,
            },
    {
        match &self.mmc5 {
            Some(m) => {
                let attr = m.fill_attr & 0x03;
                attr | (attr << 2) | (attr << 4) | (attr << 6)
            },
            None => 0,
        }
    }

    /// The extended-attribute byte of the last fetched tile; 0 without the
    /// chip.
    pub fn mmc5_exram_palette_attr(&self) -> (r: u8)
        ensures
            r == match self.mmc5 {
                Some(m) => mmc5_ext_attr_byte(m),
                None => 0,
            },
    {
        match &self.mmc5 {
            Some(m) => {
                let palette = m.cached_ext_palette & 0x03;
                let tile_x = m.cached_tile_x as usize;
                let tile_y = m.cached_tile_y as usize;
                let block_x = (tile_x % 4) / 2;
                let block_y = (tile_y % 4) / 2;
                let shift = ((block_y * 2 + block_x) * 2) as u8;
                palette << shift
            },
            None => 0,
        }
    }

    /// The 2-bit palette of a split-screen tile from its attribute byte.
    pub fn mmc5_split_palette(&self, attr_byte: u8, tile_x: usize, tile_y: usize) -> (r: u8)
        ensures
            r == (attr_byte >> (attr_shift(tile_x as int, tile_y as int) as u8)) & 0x03,
    {
        let block_x = (tile_x % 4) / 2;
        let block_y = (tile_y % 4) / 2;
        let shift = ((block_y * 2 + block_x) * 2) as u8;
        (attr_byte >> shift) & 0x03
    }

    /// A PCM sample read by the CPU in read mode: 0 raises the PCM IRQ,
    /// anything else clears it and becomes the DAC level. Nothing happens
    /// in write mode or without the chip.
    pub fn mmc5_clock_pcm_sample(&mut self, value: u8)
        ensures
            final(self).mmc5 == match old(self).mmc5 {
                Some(m) => Some(if !m.pcm_read_mode {
                    m
                } else if value == 0 {
                    Mmc5 { pcm_irq_pending: true, ..m }
                } else {
                    Mmc5 { pcm_irq_pending: false, pcm_dac: value, ..m }
                }),
                None => None,
            },
            *final(self) == (Cartridge { mmc5: final(self).mmc5, ..*old(self) }),
    {
        let mut m = match self.mmc5.take() {
            Some(m) => m,
            None => {
                return;
            },
        };
        if m.pcm_read_mode {
            if value == 0 {
                m.pcm_irq_pending = true;
            } else {
                m.pcm_irq_pending = false;
                m.pcm_dac = value;
            }
        }
        self.mmc5 = Some(m);
    }

    /// A CPU read of $5000-$5FFF (see [`mmc5_low_value`]); reading $5010
    /// acknowledges the PCM IRQ and reading $5204 the scanline IRQ. 0
    /// without the chip.
    #[verifier::rlimit(40)]
    pub fn read_prg_low_mmc5(&mut self, addr: u16) -> (r: u8)
        requires
            mmc5_exram_ok(*old(self)),
        ensures
            r == match old(self).mmc5 {
                Some(m) => mmc5_low_value(m, addr),
                None => 0,
            },
            final(self).mmc5 == match old(self).mmc5 {
                Some(m) => Some(mmc5_after_low_read(m, addr)),
                None => None,
            },
            *final(self) == (Cartridge { mmc5: final(self).mmc5, ..*old(self) }),
    {
        let mut m = match self.mmc5.take() {
            Some(m) => m,
            None => {
                return 0;
            },
        };
        let value: u8 = if addr == 0x5010 {
            let irq_bit: u8 = if m.pcm_irq_enabled && m.pcm_irq_pending { 0x80 } else { 0 };
            let mode_bit: u8 = if m.pcm_read_mode { 1 } else { 0 };
            let v = irq_bit + mode_bit;
            m.pcm_irq_pending = false;
            v
        } else if addr == 0x5015 {
            let p1: u8 = if m.pulse1.length_counter() > 0 { 1 } else { 0 };
            let p2: u8 = if m.pulse2.length_counter() > 0 { 2 } else { 0 };
            p1 + p2
        } else if addr == 0x5204 {
            let frame_bit: u8 = if m.in_frame { 0x40 } else { 0 };
            let irq_bit: u8 = if m.irq_pending { 0x80 } else { 0 };
            m.irq_pending = false;
            frame_bit + irq_bit
        } else if addr == 0x5205 || addr == 0x5206 {
            let a = m.multiplier_a as u16;
            let b = m.multiplier_b as u16;
            proof {
                assert(a * b <= 255 * 255) by (nonlinear_arith)
                    requires
                        a <= 255,
                        b <= 255,
                ;
            }
            let product = a * b;
            proof {
                lemma_u16_masks(product);
            }
            if addr == 0x5205 { (product & 0x00FF) as u8 } else { (product >> 8) as u8 }
        } else if 0x5C00 <= addr && addr <= 0x5FFF && (m.exram_mode == 0x02 || m.exram_mode == 0x03) {
            m.exram[(addr - 0x5C00) as usize]
        } else {
            0
        };
        self.mmc5 = Some(m);
        value
    }

    /// A PPU read of nametable memory through logical nametable
    /// `logical_nt`: tile bytes come from the mapped source (and update the
    /// tile cache, see [`mmc5_after_tile_read`]); attribute bytes from the
    /// source, or from ExRAM's palette in extended-attribute mode while
    /// rendering. 0 without the chip.
    pub fn read_nametable_mmc5(&mut self, logical_nt: usize, offset: usize, internal: &[[u8; 1024]; 2]) -> (r: u8)
        requires
            offset < 1024,
            mmc5_exram_ok(*old(self)),
        ensures
            mmc5_exram_ok(*final(self)),
            r == match old(self).mmc5 {
                Some(m) => mmc5_nt_read_value(m, logical_nt, offset, *internal),
                None => 0,
            },
            final(self).mmc5 == match old(self).mmc5 {
                Some(m) => Some(mmc5_nt_read_chip(m, offset)),
                None => None,
            },
            *final(self) == (Cartridge { mmc5: final(self).mmc5, ..*old(self) }),
    {
        if offset >= 960 {
            return self.mmc5_read_attribute(logical_nt, offset, internal);
        }
        let mut m = match self.mmc5.take() {
            Some(m) => m,
            None => {
                return 0;
            },
        };
        let tile = Self::mmc5_read_tile(&mut m, logical_nt, offset, internal);
        self.mmc5 = Some(m);
        tile
    }

    /// The attribute-byte part of a nametable read (`offset` from 960).
    fn mmc5_read_attribute(&self, logical_nt: usize, offset: usize, internal: &[[u8; 1024]; 2]) -> (r: u8)
        requires
            960 <= offset < 1024,
            mmc5_exram_ok(*self),
        ensures
            r == match self.mmc5 {
                Some(m) => {
                    let source = m.nametable_map@[(logical_nt % 4) as int] & 0x03;
                    if m.ppu_mask & 0x18 != 0 && m.exram_mode == 0x01 {
                        mmc5_ext_attr_byte(m)
                    } else {
                        mmc5_nt_byte(m, source, offset as int, *internal, mmc5_fill_attr_byte(m))
                    }
                },
                None => 0,
            },
    {
        let (source, ext, exram_mode) = match &self.mmc5 {
            Some(m) => {
                proof {
                    lemma_usize_masks(logical_nt, 3);
                }
                (m.nametable_map[logical_nt & 3] & 0x03, m.substitutions_enabled() && m.exram_mode == 0x01, m.exram_mode)
            },
            None => {
                return 0;
            },
        };
        if ext {
            return self.mmc5_exram_palette_attr();
        }
        if source == 0 {
            internal[0][offset]
        } else if source == 1 {
            internal[1][offset]
        } else if source == 2 && exram_mode <= 0x01 {
            match &self.mmc5 {
                Some(m) => m.exram[offset],
                None => 0,
            }
        } else if source == 3 {
            self.mmc5_fill_attribute()
        } else {
            0
        }
    }

    /// The tile-byte part of a nametable read (`offset` below 960), with
    /// its update of the chip's tile cache.
    fn mmc5_read_tile(m: &mut Mmc5, logical_nt: usize, offset: usize, internal: &[[u8; 1024]; 2]) -> (r: u8)
        requires
            offset < 960,
            old(m).exram@.len() == 1024,
        ensures
            r == mmc5_nt_byte(*old(m), old(m).nametable_map@[(logical_nt % 4) as int] & 0x03, offset as int, *internal, old(m).fill_tile),
            *final(m) == mmc5_after_tile_read(*old(m), offset as int),
    {
        proof {
            lemma_usize_masks(logical_nt, 3);
        }
        let source = m.nametable_map[logical_nt & 3] & 0x03;
        m.cached_tile_x = (offset % 32) as u8;
        m.cached_tile_y = (offset / 32) as u8;
        let tile = if source == 0 {
            internal[0][offset]
        } else if source == 1 {
            internal[1][offset]
        } else if source == 2 && m.exram_mode <= 0x01 {
            m.exram[offset]
        } else if source == 3 {
            m.fill_tile
        } else {
            0
        };
        if m.substitutions_enabled() && m.exram_mode == 0x01 {
            let exattr = m.exram[offset];
            m.cached_ext_bank = exattr & 0x3F;
            m.cached_ext_palette = (exattr >> 6) & 0x03;
        } else {
            m.cached_ext_bank = 0;
            m.cached_ext_palette = 0;
        }
        tile
    }

    /// A PPU write of nametable memory through logical nametable
    /// `logical_nt`: into internal nametable 0 or 1, or into ExRAM unless
    /// it is read-only (mode 3); fill and unmapped sources ignore it.
    pub fn write_nametable_mmc5(&mut self, logical_nt: usize, offset: usize, internal: &mut [[u8; 1024]; 2], data: u8)
        requires
            offset < 1024,
            mmc5_exram_ok(*old(self)),
        ensures
            mmc5_exram_ok(*final(self)),
            mmc5_nt_written(*old(self), *final(self), *old(internal), *final(internal), logical_nt, offset, data),
    {
        let mut m = match self.mmc5.take() {
            Some(m) => m,
            None => {
                return;
            },
        };
        proof {
            lemma_usize_masks(logical_nt, 3);
        }
        let source = m.nametable_map[logical_nt & 3] & 0x03;
        if source <= 1 {
            let which = source as usize;
            let mut row = internal[which];
            row[offset] = data;
            internal[which] = row;
        } else if source == 2 && m.exram_mode != 0x03 {
            m.exram.set(offset, data);
        }
        self.mmc5 = Some(m);
    }

    /// The physical nametable of a logical one: the MMC5 maps each of the
    /// four itself.
    pub fn resolve_nametable_mmc5(&self, logical_nt: usize) -> (r: usize)
        ensures
            r == logical_nt % 4,
    {
        proof {
            lemma_usize_masks(logical_nt, 3);
        }
        logical_nt & 3
    }
    /// A split-screen background fetch (see [`mmc5_split_fetch`]); `None`
    /// outside the split region, while it is off, or without the chip.
    pub fn mmc5_split_bg_fetch(&self, screen_x: u8, screen_y: u8, fine_x: u8) -> (r: Option<(u8, u8, u8)>)
        ensures
            r == match self.mmc5 {
                Some(m) => mmc5_split_fetch(*self, m, screen_x, screen_y, fine_x),
                None => None,
            },
    {
        let m = match &self.mmc5 {
            Some(m) => m,
            None => {
                return None;
            },
        };
        if !m.split_enabled() {
            return None;
        }
        let tile_fetch = (screen_x as usize + fine_x as usize) / 8;
        let threshold = m.split_threshold_tiles();
        let in_split = if m.split_on_right() { tile_fetch >= threshold } else { tile_fetch < threshold };
        if !in_split {
            return None;
        }
        let tile_x = (screen_x as usize) / 8;
        let split_y = screen_y as usize + m.split_scroll as usize;
        let tile_y = (split_y / 8) % 30;
        let fine_y = split_y % 8;
        let tile_offset = tile_y * 32 + tile_x;
        let tile_id: usize = if tile_offset < m.exram.len() { m.exram[tile_offset] as usize } else { 0 };
        let attr_offset = 960 + (tile_y / 4) * 8 + tile_x / 4;
        let attr_byte: u8 = if attr_offset < m.exram.len() { m.exram[attr_offset] } else { 0 };
        let palette = self.mmc5_split_palette(attr_byte, tile_x, tile_y);
        let chr_addr = (m.split_bank as usize) * 0x1000 + tile_id * 16 + fine_y;
        let low = self.read_mmc5_chr_1k(chr_addr / 0x400, chr_addr % 0x400);
        let high = self.read_mmc5_chr_1k((chr_addr + 8) / 0x400, (chr_addr + 8) % 0x400);
        Some((low, high, palette))
    }

    /// The PPU wrote its control register; the chip keeps a copy.
    pub fn notify_ppuctrl_mmc5(&mut self, data: u8)
        ensures
            final(self).mmc5 == match old(self).mmc5 {
                Some(m) => Some(Mmc5 { ppu_ctrl: data, ..m }),
                None => None,
            },
            *final(self) == (Cartridge { mmc5: final(self).mmc5, ..*old(self) }),
    {
        if let Some(mut m) = self.mmc5.take() {
            m.ppu_ctrl = data;
            self.mmc5 = Some(m);
        }
    }

    /// The PPU wrote its mask register; the chip keeps a copy, and turning
    /// rendering off ends the frame for the scanline counter.
    pub fn notify_ppumask_mmc5(&mut self, data: u8)
        ensures
            final(self).mmc5 == match old(self).mmc5 {
                Some(m) => Some(if data & 0x18 == 0 {
                    Mmc5 { ppu_mask: data, in_frame: false, scanline_counter: 0, ..m }
                } else {
                    Mmc5 { ppu_mask: data, ..m }
                }),
                None => None,
            },
            *final(self) == (Cartridge { mmc5: final(self).mmc5, ..*old(self) }),
    {
        if let Some(mut m) = self.mmc5.take() {
            m.ppu_mask = data;
            if data & 0x18 == 0 {
                m.in_frame = false;
                m.scanline_counter = 0;
            }
            self.mmc5 = Some(m);
        }
    }

    /// One rendered scanline: the scanline counter and its IRQ (see
    /// [`mmc5_after_scanline`]); nothing while rendering is off or without
    /// the chip.
    pub fn mmc5_scanline_tick(&mut self)
        ensures
            final(self).mmc5 == match old(self).mmc5 {
                Some(m) => Some(if m.ppu_mask & 0x18 == 0 { m } else { mmc5_after_scanline(m) }),
                None => None,
            },
            *final(self) == (Cartridge { mmc5: final(self).mmc5, ..*old(self) }),
    {
        if let Some(mut m) = self.mmc5.take() {
            if m.substitutions_enabled() {
                let next_scanline = if m.in_frame {
                    m.scanline_counter.wrapping_add(1)
                } else {
                    m.in_frame = true;
                    0
                };
                m.scanline_counter = next_scanline;
                if m.irq_enabled && m.irq_scanline_compare != 0 && next_scanline == m.irq_scanline_compare {
                    m.irq_pending = true;
                }
            }
            self.mmc5 = Some(m);
        }
    }

    /// The end of a frame: the scanline counter leaves the frame.
    pub fn mmc5_end_frame(&mut self)
        ensures
            final(self).mmc5 == match old(self).mmc5 {
                Some(m) => Some(Mmc5 { in_frame: false, scanline_counter: 0, ..m }),
                None => None,
            },
            *final(self) == (Cartridge { mmc5: final(self).mmc5, ..*old(self) }),
    {
        if let Some(mut m) = self.mmc5.take() {
            m.in_frame = false;
            m.scanline_counter = 0;
            self.mmc5 = Some(m);
        }
    }

    /// A CPU read of $8000-$BFFF feeds the PCM channel in read mode.
    pub fn mmc5_cpu_read_side_effects(&mut self, addr: u16, value: u8)
        ensures
            final(self).mmc5 == if 0x8000 <= addr <= 0xBFFF {
                match old(self).mmc5 {
                    Some(m) => Some(if !m.pcm_read_mode {
                        m
                    } else if value == 0 {
                        Mmc5 { pcm_irq_pending: true, ..m }
                    } else {
                        Mmc5 { pcm_irq_pending: false, pcm_dac: value, ..m }
                    }),
                    None => None,
                }
            } else {
                old(self).mmc5
            },
            *final(self) == (Cartridge { mmc5: final(self).mmc5, ..*old(self) }),
    {
        if 0x8000 <= addr && addr <= 0xBFFF {
            self.mmc5_clock_pcm_sample(value);
        }
    }

    /// One CPU cycle of the MMC5's sound (see [`mmc5_audio_clocked`]);
    /// returns the two pulse levels (0 while disabled) and the PCM level.
    /// Without the chip: all 0.
    pub fn clock_audio_mmc5(&mut self) -> (levels: (u8, u8, u8))
        requires
            old(self).mmc5 matches Some(m) ==> m.audio_frame_accum <= 0xFFFF_FFFF - 240,
        ensures
            match old(self).mmc5 {
                Some(o) => {
                    &&& final(self).mmc5 matches Some(n)
                    &&& mmc5_audio_clocked(o, n)
                    &&& levels == (
                        if n.pulse1_enabled { mmc5_pulse_output(n.pulse1@) } else { 0u8 },
                        if n.pulse2_enabled { mmc5_pulse_output(n.pulse2@) } else { 0u8 },
                        n.pcm_dac,
                    )
                    &&& *final(self) == (Cartridge { mmc5: final(self).mmc5, ..*old(self) })
                },
                None => levels == (0u8, 0u8, 0u8) && *final(self) == *old(self),
            },
    {
        let mut m = match self.mmc5.take() {
            Some(m) => m,
            None => {
                return (0, 0, 0);
            },
        };
        let levels = Self::mmc5_clock_audio_chip(&mut m);
        self.mmc5 = Some(m);
        levels
    }

    /// The chip's part of a sound cycle.
    fn mmc5_clock_audio_chip(m: &mut Mmc5) -> (levels: (u8, u8, u8))
        requires
            old(m).audio_frame_accum <= 0xFFFF_FFFF - 240,
        ensures
            mmc5_audio_clocked(*old(m), *final(m)),
            levels == (
                if final(m).pulse1_enabled { mmc5_pulse_output(final(m).pulse1@) } else { 0u8 },
                if final(m).pulse2_enabled { mmc5_pulse_output(final(m).pulse2@) } else { 0u8 },
                final(m).pcm_dac,
            ),
    {
        m.audio_even_cycle = !m.audio_even_cycle;
        if m.audio_even_cycle {
            m.pulse1.clock_timer();
            m.pulse2.clock_timer();
        }
        m.audio_frame_accum = m.audio_frame_accum + 240;
        if m.audio_frame_accum >= 1789773 {
            m.audio_frame_accum = m.audio_frame_accum - 1789773;
            m.pulse1.clock_envelope();
            m.pulse2.clock_envelope();
            m.pulse1.clock_length_counter();
            m.pulse2.clock_length_counter();
        }
        let p1 = if m.pulse1_enabled { m.pulse1.output() } else { 0 };
        let p2 = if m.pulse2_enabled { m.pulse2.output() } else { 0 };
        (p1, p2, m.pcm_dac)
    }
}

/// The byte [`Cartridge::read_chr_mmc5`] returns.
pub open spec fn read_chr_mmc5_value(cart: Cartridge, addr: u16) -> u8 {
    match cart.mmc5 {
            Some(m) => if m.ppu_mask & 0x18 != 0 && m.exram_mode == 0x01 {
                let chr_addr = (m.cached_ext_bank as int) * 0x1000 + (addr % 0x1000) as int;
                mmc5_chr_byte(cart, (chr_addr / 0x400) as usize, (chr_addr % 0x400) as usize)
            } else {
                mmc5_chr_byte(cart, mmc5_chr_bank(m, ((addr / 0x400) % 8) as usize, false), (addr % 0x400) as usize)
            },
            None => 0,
        }
}

/// The byte [`Cartridge::read_chr_sprite_mmc5`] returns.
pub open spec fn read_chr_sprite_mmc5_value(cart: Cartridge, addr: u16, sprite_y: u8) -> u8 {
    mmc5_chr_byte(
            cart,
            match cart.mmc5 {
                Some(m) => mmc5_chr_bank(m, ((addr / 0x400) % 8) as usize, true),
                None => ((addr / 0x400) % 8) as usize,
            },
            (addr % 0x400) as usize,
        )
}

/// The byte [`Cartridge::read_prg_mmc5`] returns.
pub open spec fn read_prg_mmc5_value(cart: Cartridge, addr: u16) -> u8 {
    match cart.mmc5 {
            Some(m) => mmc5_prg_read(cart, m, addr),
            None => 0,
        }
}

/// What [`Cartridge::read_prg_mmc5`] needs.
pub open spec fn read_prg_mmc5_pre(cart: Cartridge, addr: u16) -> bool {
        &&& addr >= 0x8000
        &&& cart.mmc5 is Some ==> cart.prg_rom@.len() > 0
}

/// The byte [`Cartridge::read_prg_ram_mmc5`] returns.
pub open spec fn read_prg_ram_mmc5_value(cart: Cartridge, addr: u16) -> u8 {
    match cart.mmc5 {
            Some(m) => if cart.prg_ram@.len() == 0 { 0 } else { cart.prg_ram@[mmc5_ram_window_index(cart, m, addr)] },
            None => 0,
        }
}

/// The state change of [`Cartridge::write_chr_mmc5`].
pub open spec fn write_chr_mmc5_post(c0: Cartridge, c1: Cartridge, addr: u16, data: u8) -> bool {
    ({
            let bank = match c0.mmc5 {
                Some(m) => mmc5_chr_bank(m, ((addr / 0x400) % 8) as usize, false),
                None => ((addr / 0x400) % 8) as usize,
            };
            let len = mmc5_chr_mem(c0).len();
            let i = ((bank * 0x400 + (addr % 0x400) as usize) as int) % (len as int);
            if len == 0 {
                c1 == c0
            } else if c0.chr_rom@.len() > 0 {
                &&& c1.chr_rom@ == c0.chr_rom@.update(i, data)
                &&& c1 == (Cartridge { chr_rom: c1.chr_rom, ..c0 })
            } else {
                &&& c1.chr_ram@ == c0.chr_ram@.update(i, data)
                &&& c1 == (Cartridge { chr_ram: c1.chr_ram, ..c0 })
            }
        })
}

/// The state change of [`Cartridge::write_prg_mmc5`].
pub open spec fn write_prg_mmc5_post(c0: Cartridge, c1: Cartridge, addr: u16, data: u8) -> bool {
    match c0.mmc5 {
            Some(o) => {
                &&& c1.mmc5 matches Some(n)
                &&& mmc5_written(&o, &n, addr, data)
                &&& c1.prg_ram@ == match mmc5_ram_write_index(&o, addr, c0.prg_ram@.len()) {
                    Some(i) => if i < c0.prg_ram@.len() { c0.prg_ram@.update(i, data) } else { c0.prg_ram@ },
                    None => c0.prg_ram@,
                }
                &&& c1 == (Cartridge { mmc5: c1.mmc5, prg_ram: c1.prg_ram, ..c0 })
            },
            None => c1 == c0,
        }
}

/// The state change of [`Cartridge::write_prg_ram_mmc5`].
pub open spec fn write_prg_ram_mmc5_post(c0: Cartridge, c1: Cartridge, addr: u16, data: u8) -> bool {
    match c0.mmc5 {
            Some(m) => {
                &&& c1.prg_ram@ == if m.prg_ram_protect_1 == 0x02 && m.prg_ram_protect_2 == 0x01
                    && c0.prg_ram@.len() > 0 {
                    c0.prg_ram@.update(mmc5_ram_window_index(c0, m, addr), data)
                } else {
                    c0.prg_ram@
                }
                &&& c1 == (Cartridge { prg_ram: c1.prg_ram, ..c0 })
            },
            None => c1 == c0,
        }
}

/// PRG-RAM writes are unlocked: $5102 holds 2 and $5103 holds 1.
pub open spec fn mmc5_ram_unlocked(m: Mmc5) -> bool {
    m.prg_ram_protect_1 == 0x02 && m.prg_ram_protect_2 == 0x01
}

/// Law of the MMC5 PRG-RAM lock: while $5102/$5103 do not hold the unlock
/// pair, no CPU write at $6000-$FFFF, through the chip or through the
/// $6000 window, changes PRG-RAM; and no CPU write changes PRG-ROM.
pub proof fn lemma_mmc5_locked_writes_keep_ram(c0: Cartridge, c1: Cartridge, c2: Cartridge, addr: u16, data: u8)
    requires
        c0.mmc5 matches Some(m) && !mmc5_ram_unlocked(m),
        addr >= 0x6000,
        write_prg_mmc5_post(c0, c1, addr, data),
        write_prg_ram_mmc5_post(c0, c2, addr, data),
    ensures
        c1.prg_ram@ == c0.prg_ram@,
        c1.prg_rom == c0.prg_rom,
        c2.prg_ram@ == c0.prg_ram@,
        c2.prg_rom == c0.prg_rom,
{
}

/// Law of the MMC5 PRG-RAM window: with writes unlocked and PRG-RAM
/// present, a byte written at $6000-$7FFF is read back there.
pub proof fn lemma_mmc5_prg_ram_read_back(c0: Cartridge, c1: Cartridge, addr: u16, data: u8)
    requires
        c0.mmc5 matches Some(m) && mmc5_ram_unlocked(m),
        c0.prg_ram@.len() > 0,
        0x6000 <= addr <= 0x7FFF,
        write_prg_ram_mmc5_post(c0, c1, addr, data),
    ensures
        read_prg_ram_mmc5_value(c1, addr) == data,
{
    let m = c0.mmc5->0;
    let len = c0.prg_ram@.len();
    let bank = (m.prg_ram_bank as nat) % banks_8k_of(len);
    vstd::arithmetic::div_mod::lemma_mod_pos_bound((bank * 0x2000 + (addr % 0x2000)) as int, len as int);
    assert(c1.prg_ram@.len() == len);
    assert(mmc5_ram_window_index(c1, m, addr) == mmc5_ram_window_index(c0, m, addr));
}

/// Law of the MMC5 ExRAM as CPU memory ($5C00-$5FFF, 1 KiB): in mode 2 a
/// written byte is read back; in mode 3 (read-only) the write is ignored
/// and the read gives what it gave before.
pub proof fn lemma_mmc5_exram_cpu_access(o: Mmc5, n: Mmc5, addr: u16, data: u8)
    requires
        mmc5_written(&o, &n, addr, data),
        0x5C00 <= addr <= 0x5FFF,
        o.exram@.len() == 1024,
    ensures
        o.exram_mode == 2 ==> mmc5_low_value(n, addr) == data,
        o.exram_mode == 3 ==> n.exram@ == o.exram@ && mmc5_low_value(n, addr) == mmc5_low_value(o, addr),
{
}

/// Law of the MMC5 multiplier: after writing `a` at $5205 and `b` at
/// $5206, $5205 reads the low byte and $5206 the high byte of `a * b`.
pub proof fn lemma_mmc5_multiplier(m0: Mmc5, m1: Mmc5, m2: Mmc5, a: u8, b: u8)
    requires
        mmc5_written(&m0, &m1, 0x5205, a),
        mmc5_written(&m1, &m2, 0x5206, b),
    ensures
        mmc5_low_value(m2, 0x5205) == ((a as int) * (b as int) % 256) as u8,
        mmc5_low_value(m2, 0x5206) == ((a as int) * (b as int) / 256) as u8,
{
}

} // verus!

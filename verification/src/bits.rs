//! Facts about masks and shifts of fixed-width integers, shared by the
//! register decoders.

use vstd::prelude::*;

verus! {

/// Low-bit masks of a byte are remainders; a few field extractions are in
/// range.
pub proof fn lemma_u8_masks(x: u8)
    by (bit_vector)
    ensures
        x & 0x01 == x % 2,
        x & 0x03 == x % 4,
        x & 0x07 == x % 8,
        x & 0x0F == x % 16,
        x & 0x1F == x % 32,
        x & 0x7F == x % 128,
        (x >> 4u8) & 0x01 <= 1,
        ((x & 0x0E) >> 1u8) < 8,
        x & 0x0C == ((x / 4) % 4) * 4,
        x & 0x3F == x % 64,
        (x >> 7u8) & 1 == x / 128,
        (x >> 2u8) & 0x0F == (x / 4) % 16,
        (x >> 1u8) & 0x01 <= 1,
{
}

/// Low-bit masks and the 1 KiB slot of a 16-bit address.
pub proof fn lemma_u16_masks(x: u16)
    by (bit_vector)
    ensures
        x & 1 == x % 2,
        x & 0x0F == x % 16,
        x & 0x03FF == x % 1024,
        x & 0x1FFF == x % 0x2000,
        (x >> 10u16) & 7 == (x / 1024) % 8,
        x >> 12u16 == x / 0x1000,
        x >> 1u16 == x / 2,
        x >> 8u16 == x / 256,
        x & 0x0FFF == x % 0x1000,
        x & 0xE000 == (x / 0x2000) * 0x2000,
        x & 0xF000 == (x / 0x1000) * 0x1000,
        x & 0x0003 == x % 4,
        x < 4 ==> ((x & 0x0001) << 1u16) | ((x & 0x0002) >> 1u16) == (x % 2) * 2 + x / 2,
        x & 0x7F == x % 128,
        (x & 0x0400 != 0) == ((x / 0x400) % 2 == 1),
        (x & 0xE000) | 1u16 == (x & 0xE000) + 1,
        (x & 0xE000) | 0u16 == x & 0xE000,
        x & 0x00FF == x % 256,
        (x >> 3u16) & 0x03 == (x / 8) % 4,
        x & 0x07 == x % 8,
        x & 0x3FFF == x % 0x4000,
        x & 0x7FFF == x % 0x8000,
        x & 0x001F == x % 32,
{
}

/// A masked value is at most the mask and at most the value.
pub proof fn lemma_usize_masks(x: usize, m: usize)
    by (bit_vector)
    ensures
        x & m <= m,
        x & m <= x,
        x & 0x1FFF == x % 0x2000,
        x & 1 == x % 2,
        x & 0x07FF == x % 0x800,
        (x >> 11usize) & 0x03 == (x / 0x800) % 4,
        (x >> 10usize) & 7 == (x / 0x400) % 8,
        x < 8 ==> x ^ 4usize == (if x < 4 { x + 4 } else { x - 4 }) as usize,
        x <= 1 ==> x << 5usize == x * 32,
        x & 0x03FF == x % 0x400,
        x & 3 == x % 4,
        x >> 10usize == x / 0x400,
{
}

} // verus!

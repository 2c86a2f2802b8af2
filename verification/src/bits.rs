//! Bit-level facts about register fields, each proved once by bit-blasting
//! and then used by the register logic of every model.

use vstd::prelude::*;

verus! {

/// Field extractions and idempotent operations on one byte.
pub proof fn lemma_byte_fields(x: u8)
    by (bit_vector)
    ensures
        x & 1 <= 1,
        x & 7 < 8,
        x & 0x0F < 16,
        x & 0x1F <= 0x1F,
        x >> 4u8 < 16,
        (x >> 4u8) & 3 <= 3,
        (x >> 3u8) & 7 <= 7,
        (x >> 2u8) & 3 <= 3,
        (x & 0x60) >> 5u8 <= 3,
        (x as usize) & 0x0F <= 15,
        (x & 0x80 != 0) == (x >= 0x80),
        x & x == x,
        (x | 0x08) | 0x08 == x | 0x08,
        (x & 7) & 7 == x & 7,
{
}

/// Two bytes combined: masking twice, and packing into a word.
pub proof fn lemma_byte_pair(a: u8, b: u8)
    by (bit_vector)
    ensures
        (a & b) & a == a & b,
        ((a as u16) << 8u16) | (b as u16) == ((a as u16) * 256 + b as u16) as u16,
        (a as u16) << 4u16 == ((a as u16) * 16) as u16,
{
}

/// A little-endian word from its two bytes.
pub proof fn lemma_word_halves(lo: u16, hi: u16)
    by (bit_vector)
    requires
        lo < 256,
        hi < 256,
    ensures
        (hi << 8u16) | lo == lo + 256 * hi,
{
}

/// The 8KB page number and page offset of a CPU address, and the masks
/// taken of it.
pub proof fn lemma_addr_fields(a: u16)
    by (bit_vector)
    ensures
        a >> 13u16 < 8,
        a & 0x1FFF < 0x2000,
        a & 0x3F <= 0x3F,
        a < 0x2000 ==> a >> 13u16 == 0 && a & 0x1FFF == a,
        0x2000 <= a < 0x4000 ==> a >> 13u16 == 1 && (a & 0x1FFF) + 0x2000 == a,
        a >= 0x4000 ==> a >> 13u16 >= 2,
        0x4000 <= a < 0x8000 ==> (a >> 13u16 == 2 || a >> 13u16 == 3),
        (a as usize) & 0x3FFF == a as usize % 0x4000,
        (a as usize) & 0x3FFF < 0x4000,
        (a as usize) & 0xFF < 0x100,
        (a as usize) & 0x3F <= 0x3F,
{
}

/// A mask bounds what it keeps.
pub proof fn lemma_mask_bound(a: u16, m: u16)
    by (bit_vector)
    ensures
        a & m <= m,
        0x3FFFu16 >> m <= 0x3FFF,
{
}

/// Timer reload halves, and the Timer A increment.
pub proof fn lemma_timer_fields(r: u32, v: u8)
    by (bit_vector)
    ensures
        (r & 0xFF00) | (v as u32) < 0x10000,
        (r & 0x00FF) | ((v as u32) << 8u32) < 0x10000,
        v != 0 ==> 256u32 >> v <= 128,
{
}

/// Dropping the low bits of a tick count never increases it.
pub proof fn lemma_shift_floor(t: u32, s: u32)
    by (bit_vector)
    requires
        s <= 8,
    ensures
        (t >> s) << s <= t,
{
}

} // verus!

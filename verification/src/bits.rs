//! Facts about masks and shifts.
use vstd::prelude::*;

verus! {

pub proof fn lemma_mask_u8(x: u8, mask: u8)
    by (bit_vector)
    ensures
        x & mask <= mask,
        x & mask <= x,
{
}

pub proof fn lemma_mask_u16(x: u16, mask: u16)
    by (bit_vector)
    ensures
        x & mask <= mask,
        x & mask <= x,
{
}

pub proof fn lemma_mask_usize(x: usize, mask: usize)
    by (bit_vector)
    ensures
        x & mask <= mask,
        x & mask <= x,
{
}

pub proof fn lemma_top_five_bits(x: u8)
    ensures
        x >> 3 < 32,
{
    lemma_byte_fields(x);
}

pub proof fn lemma_top_two_bits(x: u8)
    ensures
        x >> 6 < 4,
{
    lemma_byte_fields(x);
}

/// The fields of a byte, as arithmetic.
pub proof fn lemma_byte_fields(x: u8)
    by (bit_vector)
    ensures
        x & 0x01 == x % 2,
        x & 0x03 == x % 4,
        x & 0x07 == x % 8,
        x & 0x0F == x % 16,
        x & 0x1F == x % 32,
        x & 0x3F == x % 64,
        x & 0x7F == x % 128,
        (x & 0x01 != 0) == (x % 2 == 1),
        (x & 0x02 != 0) == ((x / 2) % 2 == 1),
        (x & 0x04 != 0) == ((x / 4) % 2 == 1),
        (x & 0x08 != 0) == ((x / 8) % 2 == 1),
        (x & 0x10 != 0) == ((x / 16) % 2 == 1),
        (x & 0x20 != 0) == ((x / 32) % 2 == 1),
        (x & 0x40 != 0) == ((x / 64) % 2 == 1),
        (x & 0x80 != 0) == (x >= 128),
        (x >> 1) & 0x01 == (x / 2) % 2,
        (x >> 3) & 0x01 == (x / 8) % 2,
        (x >> 3) & 0x03 == (x / 8) % 4,
        (x >> 4) & 0x01 == (x / 16) % 2,
        (x >> 4) & 0x03 == (x / 16) % 4,
        (x >> 4) & 0x07 == (x / 16) % 8,
        (x >> 4) & 0x0F == x / 16,
        (x >> 5) & 0x01 == (x / 32) % 2,
        (x >> 6) & 0x01 == (x / 64) % 2,
        x >> 6 == x / 64,
        x >> 3 == x / 8,
        ((x >> 4) & 0x04) | (x & 0x03) == ((x / 64) % 2) * 4 + x % 4,
        ((x & 0x80) >> 4) | (x & 0x07) == (x / 128) * 8 + x % 8,
        ((x >> 4) & 0x01) | ((x >> 2) & 0x02) == (x / 16) % 2 + ((x / 8) % 2) * 2,
        0x80 | ((x >> 4) & 0x07) == 0x80 + (x / 16) % 8,
        (x | 0x80) & 0x7F == x % 128,
        (x | 0x40) % 0x40 == x % 0x40,
        x | 0x40 >= 0x40,
        x & 0xFE == x / 2 * 2,
        x & 0xFF == x,
{
}

/// The two top bits of a byte, as arithmetic.
pub proof fn lemma_top_flags(x: u8)
    ensures
        (x & 0x40 == 0) == ((x / 64) % 2 == 0),
        (x & 0x80 == 0) == (x < 128),
{
    lemma_byte_fields(x);
}

/// Masks that wrap a memory of 16 or 32 KiB.
pub proof fn lemma_wrap_masks(x: usize)
    by (bit_vector)
    ensures
        x & 0x3FFF == x % 0x4000,
        x & 0x7FFF == x % 0x8000,
        x & 0x1F == x % 0x20,
        x & 0x3F == x % 0x40,
        x & 0x7F == x % 0x80,
        x & 0xFF == x % 0x100,
        x & 0x0F == x % 0x10,
        x & 0x07 == x % 0x08,
{
}

/// A low and a high register make an eleven-bit period, whatever was there before.
pub proof fn lemma_period_registers(period: u16, lo: u8, hi: u8)
    by (bit_vector)
    ensures
        (((period & 0xFF00) | lo as u16) & 0x00FF) | (((hi & 0x07) as u16) << 8) == ((hi % 8) as u16) * 0x100
            + lo as u16,
{
}

} // verus!

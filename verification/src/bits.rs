//! Facts that tie the bit operations of the executable code to the
//! arithmetic in which the contracts are stated.

use vstd::prelude::*;

verus! {

/// Bit 7 of a byte is set exactly when the byte is at least 128.
pub proof fn lemma_bit7(v: u8)
    ensures
        (v & 0x80 != 0) == (v >= 0x80),
{
    assert((v & 0x80 != 0) == (v >= 0x80)) by (bit_vector);
}

/// Bit 6 of a byte is set exactly when the byte modulo 128 is at least 64.
pub proof fn lemma_bit6(v: u8)
    ensures
        (v & (1u8 << 6) != 0) == (v % 128 >= 64),
{
    assert((v & (1u8 << 6) != 0) == (v % 128 >= 64)) by (bit_vector);
}

/// Bit 0 of a byte is set exactly when the byte is odd.
pub proof fn lemma_bit0(v: u8)
    ensures
        (v & 1 != 0) == (v % 2 == 1),
{
    assert((v & 1 != 0) == (v % 2 == 1)) by (bit_vector);
}

/// Shifting a byte by one place doubles it modulo 256, or halves it.
pub proof fn lemma_shift(v: u8)
    ensures
        v << 1 == (v * 2) % 256,
        v >> 1 == v / 2,
{
    assert(v << 1 == (v * 2) % 256) by (bit_vector);
    assert(v >> 1 == v / 2) by (bit_vector);
}

/// ORing a carry bit into the place that a shift has emptied adds it.
pub proof fn lemma_rotate(v: u8, c: u8)
    requires
        c <= 1,
    ensures
        (v << 1) | c == (v * 2) % 256 + c,
        (v >> 1) | (c << 7) == v / 2 + 128 * c,
{
    assert((v << 1) | c == (v * 2) % 256 + c) by (bit_vector)
        requires
            c <= 1,
    ;
    assert((v >> 1) | (c << 7) == v / 2 + 128 * c) by (bit_vector)
        requires
            c <= 1,
    ;
}

/// A 16-bit word is its high byte times 256 plus its low byte.
pub proof fn lemma_word(lo: u8, hi: u8)
    ensures
        (hi as u16) << 8 | (lo as u16) == hi * 256 + lo,
{
    assert((hi as u16) << 8 | (lo as u16) == hi * 256 + lo) by (bit_vector);
}

/// The two bytes of a 16-bit word.
pub proof fn lemma_bytes_of_word(w: u16)
    ensures
        (w >> 8) & 0xff == w / 256,
        w & 0xff == w % 256,
{
    assert((w >> 8) & 0xff == w / 256) by (bit_vector);
    assert(w & 0xff == w % 256) by (bit_vector);
}

/// The stack page: ORing `0x0100` onto a byte adds 256 to it.
pub proof fn lemma_stack_page(sp: u8)
    ensures
        0x0100u16 | (sp as u16) == 0x100 + sp,
{
    assert(0x0100u16 | (sp as u16) == 0x100 + sp) by (bit_vector);
}

/// The one's complement of a byte is 255 minus the byte.
pub proof fn lemma_complement(v: u8)
    ensures
        !v == 255 - v,
{
    assert(!v == 255 - v) by (bit_vector);
}

/// Reading a byte as a signed displacement: from 128 on it stands for the
/// byte minus 256.
pub proof fn lemma_signed_byte(w: u16)
    ensures
        (w as i8) as i16 == if w % 256 >= 128 {
            w % 256 - 256
        } else {
            (w % 256) as int
        },
{
    assert((w as i8) as i16 == if w % 256 >= 128 {
        w % 256 - 256
    } else {
        (w % 256) as int
    }) by (bit_vector);
}

} // verus!

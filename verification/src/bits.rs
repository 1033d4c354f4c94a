//! Bit masks and little-endian operand values.

use vstd::prelude::*;

verus! {

/// `byte & mask`: the bits of `byte` that `mask` selects.
pub fn get_bits(byte: u8, mask: u8) -> (r: u8)
    ensures
        r == byte & mask,
{
    byte & mask
}

/// Whether every bit of `mask` is set in `byte`.
pub fn has_bits(byte: u8, mask: u8) -> (r: bool)
    ensures
        r == (byte & mask == mask),
{
    byte & mask == mask
}

/// Bit `k` of `byte`, counting from the least significant bit.
pub open spec fn bit(byte: u8, k: u8) -> bool {
    (byte >> k) & 1 == 1
}

/// A byte is the sum of its bits, weighted by their place values; its low
/// three bits are the sum of bits 2, 1 and 0 so weighted.
pub proof fn lemma_byte_bits(byte: u8)
    ensures
        byte == (if bit(byte, 7) { 128u8 } else { 0u8 }) + (if bit(byte, 6) { 64u8 } else { 0u8 })
            + (if bit(byte, 5) { 32u8 } else { 0u8 }) + (if bit(byte, 4) { 16u8 } else { 0u8 })
            + (if bit(byte, 3) { 8u8 } else { 0u8 }) + (if bit(byte, 2) { 4u8 } else { 0u8 })
            + (if bit(byte, 1) { 2u8 } else { 0u8 }) + (if bit(byte, 0) { 1u8 } else { 0u8 }),
        byte & 7 == (if bit(byte, 2) { 4u8 } else { 0u8 }) + (if bit(byte, 1) { 2u8 } else { 0u8 })
            + (if bit(byte, 0) { 1u8 } else { 0u8 }),
{
    assert(byte == (if (byte >> 7u8) & 1 == 1 { 128u8 } else { 0u8 }) + (if (byte >> 6u8) & 1 == 1 { 64u8 } else { 0u8 })
            + (if (byte >> 5u8) & 1 == 1 { 32u8 } else { 0u8 }) + (if (byte >> 4u8) & 1 == 1 { 16u8 } else { 0u8 })
            + (if (byte >> 3u8) & 1 == 1 { 8u8 } else { 0u8 }) + (if (byte >> 2u8) & 1 == 1 { 4u8 } else { 0u8 })
            + (if (byte >> 1u8) & 1 == 1 { 2u8 } else { 0u8 }) + (if (byte >> 0u8) & 1 == 1 { 1u8 } else { 0u8 })) by (bit_vector);
    assert(byte & 7 == (if (byte >> 2u8) & 1 == 1 { 4u8 } else { 0u8 }) + (if (byte >> 1u8) & 1 == 1 { 2u8 } else { 0u8 })
            + (if (byte >> 0u8) & 1 == 1 { 1u8 } else { 0u8 })) by (bit_vector);
}

/// The value of the little-endian word whose low byte is `lower` and high byte is `upper`.
pub open spec fn le_word(lower: u8, upper: u8) -> int {
    lower + 256 * upper
}

/// Reads an immediate operand at `pos`: one byte when `w` is false, otherwise
/// a little-endian word of two bytes. Returns the value and the position
/// after it.
pub fn get_value(w: bool, bytes: &[u8], pos: usize) -> (r: (u16, usize))
    requires
        pos + (if w { 2int } else { 1int }) <= bytes@.len(),
    ensures
        r.1 == pos + (if w { 2int } else { 1int }),
        w ==> r.0 == le_word(bytes@[pos as int], bytes@[pos + 1]),
        !w ==> r.0 == bytes@[pos as int],
{
    if w {
        let lower = bytes[pos] as u16;
        let upper = bytes[pos + 1] as u16;
        assert((upper << 8u16) | lower == lower + 256 * upper) by (bit_vector)
            requires
                lower < 256,
                upper < 256,
        ;
        ((upper << 8u16) | lower, pos + 2)
    } else {
        (bytes[pos] as u16, pos + 1)
    }
}

} // verus!

//! Word composition and flag-register arithmetic shared by the register file,
//! the address space and the instruction semantics.

use vstd::prelude::*;

verus! {

/// A 16-bit word composed from a high and a low byte: the pair convention
/// used both by the register pairs and by the big-endian word accessors of
/// the address space.
pub open spec fn spec_pair(high: u8, low: u8) -> u16 {
    (high as int * 256 + low as int) as u16
}

/// The high byte of a 16-bit word.
pub open spec fn spec_high(v: u16) -> u8 {
    (v as int / 256) as u8
}

/// The low byte of a 16-bit word.
pub open spec fn spec_low(v: u16) -> u8 {
    (v as int % 256) as u8
}

/// A 16-bit word incremented by one, wrapping at the top of the range.
pub open spec fn spec_word_inc(v: u16) -> u16 {
    if v == 0xffff {
        0
    } else {
        (v + 1) as u16
    }
}

/// A 16-bit word decremented by one, wrapping at the bottom of the range.
pub open spec fn spec_word_dec(v: u16) -> u16 {
    if v == 0 {
        0xffff
    } else {
        (v - 1) as u16
    }
}

/// The Zero flag: bit 7 of the flags register.
pub open spec fn spec_flag_z(f: u8) -> bool {
    f & 0x80 != 0
}

/// The Subtract flag: bit 6 of the flags register.
pub open spec fn spec_flag_n(f: u8) -> bool {
    f & 0x40 != 0
}

/// The Half-Carry flag: bit 5 of the flags register.
pub open spec fn spec_flag_h(f: u8) -> bool {
    f & 0x20 != 0
}

/// The flags register after setting exactly Zero, Subtract and Half-Carry to
/// the given booleans; the Carry bit and the unused low nibble (bits 0-4)
/// keep their previous value.
pub open spec fn spec_set_flags(f: u8, z: bool, n: bool, h: bool) -> u8 {
    (f & 0x1f) | (if z { 0x80u8 } else { 0u8 }) | (if n { 0x40u8 } else { 0u8 }) | (if h {
        0x20u8
    } else {
        0u8
    })
}

/// Splitting a word into its two bytes and composing them again gives back
/// the identical word.
pub proof fn lemma_pair_split_roundtrip(v: u16)
    ensures
        spec_pair(spec_high(v), spec_low(v)) == v,
{
    assert(v as int == 256 * (v as int / 256) + v as int % 256) by (nonlinear_arith);
}

/// Composing a pair from a high and a low byte and splitting it again yields
/// the original bytes: the high byte lands in the upper half, the low byte in
/// the lower half.
pub proof fn lemma_pair_compose_split(high: u8, low: u8)
    ensures
        spec_high(spec_pair(high, low)) == high,
        spec_low(spec_pair(high, low)) == low,
{
    assert((high as int * 256 + low as int) / 256 == high as int) by (nonlinear_arith)
        requires
            0 <= high as int && (high as int) < 256,
            0 <= low as int && (low as int) < 256,
    ;
    assert((high as int * 256 + low as int) % 256 == low as int) by (nonlinear_arith)
        requires
            0 <= high as int && (high as int) < 256,
            0 <= low as int && (low as int) < 256,
    ;
}

/// The shift-and-or form used by executable code equals the arithmetic pair.
pub proof fn lemma_pair_shift(high: u8, low: u8)
    ensures
        ((high as u16) << 8) | (low as u16) == spec_pair(high, low),
{
    assert(((high as u16) << 8) | (low as u16) == (high as u16) * 256 + (low as u16))
        by (bit_vector);
}

/// Shifting and truncating a word recovers its two bytes.
pub proof fn lemma_pair_unshift(v: u16)
    ensures
        (v >> 8) as u8 == spec_high(v),
        v as u8 == spec_low(v),
{
    assert((v >> 8) == v / 256) by (bit_vector);
    assert(v as u8 == (v % 256) as u8) by (bit_vector);
}

/// Reading a flag back after setting the three managed flags returns the
/// boolean that was written, and bits 0-4 (Carry and the unused nibble) are
/// untouched.
pub proof fn lemma_flags_read(f: u8, z: bool, n: bool, h: bool)
    ensures
        spec_flag_z(spec_set_flags(f, z, n, h)) == z,
        spec_flag_n(spec_set_flags(f, z, n, h)) == n,
        spec_flag_h(spec_set_flags(f, z, n, h)) == h,
        spec_set_flags(f, z, n, h) & 0x1f == f & 0x1f,
{
    assert((((f & 0x1f) | (if z { 0x80u8 } else { 0u8 }) | (if n { 0x40u8 } else { 0u8 }) | (if h {
        0x20u8
    } else {
        0u8
    })) & 0x80 != 0) == z) by (bit_vector);
    assert((((f & 0x1f) | (if z { 0x80u8 } else { 0u8 }) | (if n { 0x40u8 } else { 0u8 }) | (if h {
        0x20u8
    } else {
        0u8
    })) & 0x40 != 0) == n) by (bit_vector);
    assert((((f & 0x1f) | (if z { 0x80u8 } else { 0u8 }) | (if n { 0x40u8 } else { 0u8 }) | (if h {
        0x20u8
    } else {
        0u8
    })) & 0x20 != 0) == h) by (bit_vector);
    assert((((f & 0x1f) | (if z { 0x80u8 } else { 0u8 }) | (if n { 0x40u8 } else { 0u8 }) | (if h {
        0x20u8
    } else {
        0u8
    })) & 0x1f) == f & 0x1f) by (bit_vector);
}

/// The two 3-bit fields of an opcode are always valid register codes.
pub proof fn lemma_code_bounds(op: u8)
    ensures
        op & 7 < 8,
        (op >> 3) & 7 < 8,
{
    assert(op & 7 < 8) by (bit_vector);
    assert((op >> 3) & 7 < 8) by (bit_vector);
}

} // verus!

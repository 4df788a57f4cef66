//! Byte and word arithmetic helpers: little-endian composition and the
//! wrapping (modular) semantics that all CPU arithmetic uses.

use vstd::prelude::*;

verus! {

/// The 16-bit value whose little-endian bytes are `lo`, `hi`.
pub open spec fn spec_u16_from_le(lo: u8, hi: u8) -> u16 {
    (lo + 256 * hi) as u16
}

/// Low byte of a 16-bit value.
pub open spec fn spec_lo_byte(value: u16) -> u8 {
    (value % 256) as u8
}

/// High byte of a 16-bit value.
pub open spec fn spec_hi_byte(value: u16) -> u8 {
    (value / 256) as u8
}

/// An integer reduced into a byte, modulo 256. Negative integers wrap
/// upward, so this is two's-complement truncation.
pub open spec fn wrap8(x: int) -> u8 {
    (x % 256) as u8
}

/// An integer reduced into a 16-bit word, modulo 0x10000.
pub open spec fn wrap16(x: int) -> u16 {
    (x % 0x10000) as u16
}

/// Splitting a word into bytes and recomposing them gives it back.
pub proof fn lemma_u16_le_round_trip(value: u16)
    ensures
        spec_u16_from_le(spec_lo_byte(value), spec_hi_byte(value)) == value,
{
    vstd::arithmetic::div_mod::lemma_fundamental_div_mod(value as int, 256);
}

/// Adding a multiple of the modulus does not change a wrapped byte or
/// word; this carries exec-side wrapping operations over to `wrap8` and
/// `wrap16`.
pub proof fn lemma_wrap_add_multiple(x: int, k: int)
    ensures
        wrap8(x + k * 256) == wrap8(x),
        wrap16(x + k * 0x10000) == wrap16(x),
{
    vstd::arithmetic::div_mod::lemma_mod_multiples_vanish(k, x, 256);
    vstd::arithmetic::div_mod::lemma_mod_multiples_vanish(k, x, 0x10000);
}

/// A 16-bit add with wraparound, as PC and SP arithmetic uses.
pub fn wrapping_add16(x: u16, y: u16) -> (r: u16)
    ensures
        r == wrap16(x + y),
{
    proof {
        if x + y >= 0x10000 {
            lemma_wrap_add_multiple(x + y - 0x10000, 1);
            vstd::arithmetic::div_mod::lemma_small_mod((x + y - 0x10000) as nat, 0x10000);
        } else {
            vstd::arithmetic::div_mod::lemma_small_mod((x + y) as nat, 0x10000);
        }
    }
    x.wrapping_add(y)
}

/// A 16-bit subtract with wraparound.
pub fn wrapping_sub16(x: u16, y: u16) -> (r: u16)
    ensures
        r == wrap16(x - y),
{
    proof {
        if x < y {
            lemma_wrap_add_multiple(x - y, 1);
            vstd::arithmetic::div_mod::lemma_small_mod((x - y + 0x10000) as nat, 0x10000);
        } else {
            vstd::arithmetic::div_mod::lemma_small_mod((x - y) as nat, 0x10000);
        }
    }
    x.wrapping_sub(y)
}

/// A 16-bit add of a signed byte displacement with wraparound, as JR,
/// ADD SP,imm8 and LD HL,SP+imm8 use.
pub fn wrapping_add_signed16(x: u16, d: i8) -> (r: u16)
    ensures
        r == wrap16(x + d),
{
    if d >= 0 {
        wrapping_add16(x, d as u16)
    } else {
        let magnitude: u16 = (-(d as i32)) as u16;
        assert(x - magnitude == x + d);
        wrapping_sub16(x, magnitude)
    }
}

/// An 8-bit add with wraparound.
pub fn wrapping_add8(x: u8, y: u8) -> (r: u8)
    ensures
        r == wrap8(x + y),
{
    proof {
        if x + y >= 256 {
            lemma_wrap_add_multiple(x + y - 256, 1);
            vstd::arithmetic::div_mod::lemma_small_mod((x + y - 256) as nat, 256);
        } else {
            vstd::arithmetic::div_mod::lemma_small_mod((x + y) as nat, 256);
        }
    }
    x.wrapping_add(y)
}

/// An 8-bit subtract with wraparound.
pub fn wrapping_sub8(x: u8, y: u8) -> (r: u8)
    ensures
        r == wrap8(x - y),
{
    proof {
        if x < y {
            lemma_wrap_add_multiple(x - y, 1);
            vstd::arithmetic::div_mod::lemma_small_mod((x - y + 256) as nat, 256);
        } else {
            vstd::arithmetic::div_mod::lemma_small_mod((x - y) as nat, 256);
        }
    }
    x.wrapping_sub(y)
}

} // verus!

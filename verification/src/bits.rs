//! Single-bit reads and updates on bytes.

use vstd::prelude::*;

verus! {

/// True when bit `bit_position` of `value` is set.
pub open spec fn spec_get_bit(value: u8, bit_position: u8) -> bool {
    value & (1u8 << bit_position) != 0
}

/// `value` with bit `bit_position` forced to `on`, all other bits kept.
pub open spec fn spec_modify_bit(value: u8, bit_position: u8, on: bool) -> u8 {
    if on {
        value | (1u8 << bit_position)
    } else {
        value & !(1u8 << bit_position)
    }
}

/// Bit-by-bit characterisation of `spec_modify_bit`: the chosen bit becomes
/// `on` and every other bit keeps its old value.
pub proof fn lemma_modify_bit(value: u8, bit_position: u8, on: bool)
    requires
        bit_position < 8,
    ensures
        spec_get_bit(spec_modify_bit(value, bit_position, on), bit_position) == on,
        forall|other: u8|
            other < 8 && other != bit_position ==> spec_get_bit(
                spec_modify_bit(value, bit_position, on),
                other,
            ) == spec_get_bit(value, other),
{
    assert(spec_get_bit(spec_modify_bit(value, bit_position, on), bit_position) == on)
        by (bit_vector)
        requires
            bit_position < 8,
    ;
    assert forall|other: u8|
        other < 8 && other != bit_position implies spec_get_bit(
        spec_modify_bit(value, bit_position, on),
        other,
    ) == spec_get_bit(value, other) by {
        assert(spec_get_bit(spec_modify_bit(value, bit_position, on), other) == spec_get_bit(
            value,
            other,
        )) by (bit_vector)
            requires
                bit_position < 8,
                other < 8,
                other != bit_position,
        ;
    }
}

pub fn get_bit(value: u8, bit_position: u8) -> (r: bool)
    requires
        bit_position < 8,
    ensures
        r == spec_get_bit(value, bit_position),
{
    (value & (1u8 << bit_position)) != 0
}

pub fn modify_bit(value: u8, bit_position: u8, on: bool) -> (r: u8)
    requires
        bit_position < 8,
    ensures
        r == spec_modify_bit(value, bit_position, on),
{
    if on {
        value | (1u8 << bit_position)
    } else {
        value & !(1u8 << bit_position)
    }
}

} // verus!

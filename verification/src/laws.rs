//! Laws of the core, stated over the same spec functions the execution
//! contracts use, and proved once and for all inputs: flag invariants,
//! the stack discipline, and the interrupt-dispatch law. The codec's
//! round-trip law lives beside the codec itself.

use vstd::prelude::*;
use crate::bus::{spec_bus_read16, spec_bus_write16, spec_pending_mask, BusView};
use crate::cpu::{
    spec_add8, spec_add_flags, spec_carry_flag, spec_clock_post, spec_execute_post, spec_flags,
    spec_get_register, spec_get_register16, spec_half_flag, spec_has_pending, spec_sub8,
    spec_sub_flags, spec_sub_flag, spec_zero_flag, Cpu, IllegalOpcode,
};
use crate::bits::spec_get_bit;
use crate::hw_registers::spec_is_hw_addr;
use crate::instruction::{is_r16stk, Instruction};
use crate::interrupt::{spec_get_interrupt, spec_interrupt_handler, spec_interrupt_mask};
use crate::memory::MEMORY_SIZE;
use crate::registers::{Register, Register16};
use crate::word::{spec_hi_byte, spec_lo_byte, wrap16};

verus! {

/// Z reflects the final result being zero, for every operation that sets
/// Z: each such operation stores a flag byte built with `result == 0` as
/// its zero bit, and for the arithmetic operations in particular the bit
/// agrees with the wrapped sum or difference being zero.
pub proof fn lemma_zero_flag_reflects_result(
    a: u8,
    value: u8,
    carry_in: int,
    sub: bool,
    half: bool,
    carry: bool,
)
    ensures
        forall|zero: bool|
            spec_zero_flag(#[trigger] spec_flags(zero, sub, half, carry)) == zero,
        spec_zero_flag(spec_add_flags(a, value, carry_in)) == (spec_add8(a, value, carry_in) == 0),
        spec_zero_flag(spec_sub_flags(a, value, carry_in)) == (spec_sub8(a, value, carry_in) == 0),
{
    assert forall|zero: bool|
        spec_zero_flag(#[trigger] spec_flags(zero, sub, half, carry)) == zero by {
        crate::cpu::lemma_flag_bits(zero, sub, half, carry);
    }
    crate::cpu::lemma_flag_bits(
        spec_add8(a, value, carry_in) == 0,
        false,
        (a & 0x0F) + (value & 0x0F) + carry_in > 0x0F,
        a + value + carry_in > 0xFF,
    );
    crate::cpu::lemma_flag_bits(
        spec_sub8(a, value, carry_in) == 0,
        true,
        (a & 0x0F) < (value & 0x0F) + carry_in,
        a < value + carry_in,
    );
}

/// The low nibble of F is always zero when read, both as a byte register
/// and through AF.
pub proof fn lemma_f_low_nibble_zero(c: Cpu)
    ensures
        spec_get_register(c, Register::F) % 16 == 0,
        spec_get_register16(c, Register16::AF) % 16 == 0,
{
    let fv = c.f;
    assert((fv & 0xF0) % 16 == 0) by (bit_vector);
    let masked = c.f & 0xF0;
    assert(spec_get_register16(c, Register16::AF) == c.a * 256 + masked);
    vstd::arithmetic::div_mod::lemma_mod_multiples_vanish(
        16 * c.a,
        masked as int,
        16,
    );
    assert(c.a * 256 + masked == 16 * (16 * c.a) + masked);
}

/// After AND the flags hold H set with N and C clear; after OR and XOR
/// all of H, N and C are clear. Z is whatever the result dictates.
pub proof fn lemma_logic_flags(zero: bool)
    ensures
        spec_half_flag(spec_flags(zero, false, true, false)),
        !spec_sub_flag(spec_flags(zero, false, true, false)),
        !spec_carry_flag(spec_flags(zero, false, true, false)),
        !spec_half_flag(spec_flags(zero, false, false, false)),
        !spec_sub_flag(spec_flags(zero, false, false, false)),
        !spec_carry_flag(spec_flags(zero, false, false, false)),
{
    crate::cpu::lemma_flag_bits(zero, false, true, false);
    crate::cpu::lemma_flag_bits(zero, false, false, false);
}

/// After SCF the carry is set; after CCF it is complemented; both clear
/// N and H and preserve Z.
pub proof fn lemma_scf_ccf_flags(f: u8)
    ensures
        ({
            let after_scf = spec_flags(spec_zero_flag(f), false, false, true);
            &&& spec_carry_flag(after_scf)
            &&& !spec_sub_flag(after_scf)
            &&& !spec_half_flag(after_scf)
            &&& spec_zero_flag(after_scf) == spec_zero_flag(f)
        }),
        ({
            let after_ccf = spec_flags(spec_zero_flag(f), false, false, !spec_carry_flag(f));
            &&& spec_carry_flag(after_ccf) == !spec_carry_flag(f)
            &&& !spec_sub_flag(after_ccf)
            &&& !spec_half_flag(after_ccf)
            &&& spec_zero_flag(after_ccf) == spec_zero_flag(f)
        }),
{
    crate::cpu::lemma_flag_bits(spec_zero_flag(f), false, false, true);
    crate::cpu::lemma_flag_bits(spec_zero_flag(f), false, false, !spec_carry_flag(f));
}

/// After BIT n of a value, Z is the complement of the tested bit, H is
/// set, N is clear and C is preserved.
pub proof fn lemma_bit_test_flags(value: u8, bit: u8, f: u8)
    requires
        bit < 8,
    ensures
        ({
            let after = spec_flags(!spec_get_bit(value, bit), false, true, spec_carry_flag(f));
            &&& spec_zero_flag(after) == !spec_get_bit(value, bit)
            &&& spec_half_flag(after)
            &&& !spec_sub_flag(after)
            &&& spec_carry_flag(after) == spec_carry_flag(f)
        }),
{
    crate::cpu::lemma_flag_bits(!spec_get_bit(value, bit), false, true, spec_carry_flag(f));
}

/// A 16-bit word written to plain RAM through the bus reads back intact.
proof fn lemma_stack_word_round_trip(b0: BusView, sp: u16, value: u16)
    requires
        sp >= 2,
        b0.ram.len() == MEMORY_SIZE,
        !spec_is_hw_addr((sp - 2) as u16),
        !spec_is_hw_addr((sp - 1) as u16),
    ensures
        spec_bus_read16(spec_bus_write16(b0, (sp - 2) as u16, value), (sp - 2) as u16) == value,
{
    let addr = (sp - 2) as u16;
    vstd::arithmetic::div_mod::lemma_small_mod((sp - 1) as nat, 0x10000);
    assert(wrap16(addr + 1) == sp - 1);
    crate::word::lemma_u16_le_round_trip(value);
}

/// The stack law: PUSH then POP of the same pair returns the pair's
/// value (a pop into AF masks the low nibble of F, and a push of AF
/// already pushes it masked, so the value survives); PUSH moves SP down
/// by exactly two and POP moves it back up by two.
///
/// The two stack bytes must land in plain RAM: a stack pointed into the
/// hardware-register window is excluded, since a write there follows the
/// written register's own policy.
pub proof fn lemma_push_pop_round_trip(
    c0: Cpu,
    b0: BusView,
    c1: Cpu,
    b1: BusView,
    c2: Cpu,
    b2: BusView,
    pair: Register16,
    cycles_push: u8,
    cycles_pop: u8,
)
    requires
        is_r16stk(pair),
        c0.sp >= 2,
        b0.ram.len() == MEMORY_SIZE,
        !spec_is_hw_addr((c0.sp - 2) as u16),
        !spec_is_hw_addr((c0.sp - 1) as u16),
        spec_execute_post(c0, b0, Instruction::PUSH(pair), c1, b1, cycles_push),
        spec_execute_post(c1, b1, Instruction::POP(pair), c2, b2, cycles_pop),
    ensures
        c1.sp == c0.sp - 2,
        c2.sp == c0.sp,
        b2 == b1,
        spec_get_register16(c2, pair) == spec_get_register16(c0, pair),
        cycles_push == 4,
        cycles_pop == 3,
{
    let value = spec_get_register16(c0, pair);
    vstd::arithmetic::div_mod::lemma_small_mod((c0.sp - 2) as nat, 0x10000);
    vstd::arithmetic::div_mod::lemma_small_mod(c0.sp as nat, 0x10000);
    lemma_stack_word_round_trip(b0, c0.sp, value);
    assert(spec_bus_read16(b1, c1.sp) == value);
    vstd::arithmetic::div_mod::lemma_fundamental_div_mod(value as int, 256);
    if pair == Register16::AF {
        let fv = c0.f;
        assert((fv & 0xF0) < 256 && ((fv & 0xF0) & 0xF0) == fv & 0xF0) by (bit_vector);
        vstd::arithmetic::div_mod::lemma_fundamental_div_mod_converse(
            value as int,
            256,
            c0.a as int,
            (c0.f & 0xF0) as int,
        );
    }
}

/// The interrupt law: when IME is set and an interrupt is both enabled
/// and pending, the step dispatches the highest-priority one — IME is
/// cleared, that source's IF bit is cleared, the pre-dispatch PC is
/// written little-endian at SP-2, SP drops by two, PC becomes the
/// source's handler vector, and the step reports five machine cycles.
///
/// The two pushed bytes must land in plain RAM, as in the stack law.
pub proof fn lemma_interrupt_dispatch(
    c0: Cpu,
    b0: BusView,
    c1: Cpu,
    b1: BusView,
    r: Result<u8, IllegalOpcode>,
)
    requires
        c0.ime,
        spec_has_pending(b0),
        c0.sp >= 2,
        b0.ram.len() == MEMORY_SIZE,
        !spec_is_hw_addr((c0.sp - 2) as u16),
        !spec_is_hw_addr((c0.sp - 1) as u16),
        spec_clock_post(c0, b0, c1, b1, r),
    ensures
        !c1.ime,
        ({
            let (interrupt, handler) = spec_get_interrupt(spec_pending_mask(b0))->Some_0;
            &&& handler == spec_interrupt_handler(interrupt)
            &&& b1.hw.int_flag == b0.hw.int_flag & !spec_interrupt_mask(interrupt)
            &&& b1.hw == (crate::hw_registers::HwView {
                int_flag: b1.hw.int_flag,
                ..b0.hw
            })
            &&& b1.ram[c0.sp - 2] == spec_lo_byte(c0.pc)
            &&& b1.ram[c0.sp - 1] == spec_hi_byte(c0.pc)
            &&& c1.sp == c0.sp - 2
            &&& c1.pc == handler
        }),
        r == Result::<u8, IllegalOpcode>::Ok(5u8),
{
    vstd::arithmetic::div_mod::lemma_small_mod((c0.sp - 2) as nat, 0x10000);
    vstd::arithmetic::div_mod::lemma_small_mod((c0.sp - 1) as nat, 0x10000);
    assert(wrap16((c0.sp - 2) as u16 + 1) == c0.sp - 1);
}

} // verus!

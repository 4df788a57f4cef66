//! The CPU execution core: register file, flag semantics, the semantics
//! of every instruction, and the fetch/decode/execute step with interrupt
//! service, HALT states, the halt bug and the one-instruction EI delay.

use vstd::prelude::*;
use crate::bits::{spec_get_bit, spec_modify_bit};
use crate::bus::{
    spec_bus_read16, spec_bus_read8, spec_bus_write16, spec_bus_write8, spec_clear_interrupt,
    spec_pending_mask, Bus, BusView,
};
use crate::instruction::{spec_decode, Instruction};
use crate::interrupt::spec_get_interrupt;
use crate::operands::FlowCondition;
use crate::registers::{Flag, Register, Register16};
use crate::word::{wrap16, wrap8};

verus! {

/// The flag byte built from the four flag bits; its low nibble is zero.
pub open spec fn spec_flags(zero: bool, sub: bool, half: bool, carry: bool) -> u8 {
    ((if zero {
        0x80int
    } else {
        0int
    }) + (if sub {
        0x40int
    } else {
        0int
    }) + (if half {
        0x20int
    } else {
        0int
    }) + (if carry {
        0x10int
    } else {
        0int
    })) as u8
}

pub open spec fn spec_zero_flag(f: u8) -> bool {
    f & 0x80 != 0
}

pub open spec fn spec_sub_flag(f: u8) -> bool {
    f & 0x40 != 0
}

pub open spec fn spec_half_flag(f: u8) -> bool {
    f & 0x20 != 0
}

pub open spec fn spec_carry_flag(f: u8) -> bool {
    f & 0x10 != 0
}

/// Each flag bit of a freshly built flag byte reads back as what it was
/// built from, and the low nibble of the byte is zero.
pub proof fn lemma_flag_bits(zero: bool, sub: bool, half: bool, carry: bool)
    by (bit_vector)
    ensures
        spec_zero_flag(spec_flags(zero, sub, half, carry)) == zero,
        spec_sub_flag(spec_flags(zero, sub, half, carry)) == sub,
        spec_half_flag(spec_flags(zero, sub, half, carry)) == half,
        spec_carry_flag(spec_flags(zero, sub, half, carry)) == carry,
        spec_flags(zero, sub, half, carry) & 0x0F == 0,
{
}

/// The low nibble of a byte is below 16 (so nibble sums stay small).
proof fn lemma_nibble_bound(x: u8)
    by (bit_vector)
    ensures
        x & 0x0F < 16,
{
}

/// The low twelve bits of a word are below 0x1000.
proof fn lemma_low12_bound(x: u16)
    by (bit_vector)
    ensures
        x & 0x0FFF < 0x1000,
{
}

/// The CPU: eight byte registers, the stack pointer and program counter,
/// and the interrupt/halt bookkeeping.
///
/// `ei_pending` is set by EI and promoted to `ime` at the top of the
/// following step, so EI's effect is delayed by one instruction.
/// `halt_bug` is set when HALT runs with interrupts disabled but pending;
/// it makes the next fetch not advance PC, so that byte decodes twice.
pub struct Cpu {
    pub a: u8,
    pub b: u8,
    pub c: u8,
    pub d: u8,
    pub e: u8,
    pub f: u8,
    pub h: u8,
    pub l: u8,
    pub sp: u16,
    pub pc: u16,
    pub ime: bool,
    pub ei_pending: bool,
    pub halted: bool,
    pub halt_bug: bool,
}

/// The byte register `register` reads as; F masks its low nibble.
pub open spec fn spec_get_register(c: Cpu, register: Register) -> u8 {
    match register {
        Register::A => c.a,
        Register::B => c.b,
        Register::C => c.c,
        Register::D => c.d,
        Register::E => c.e,
        Register::F => c.f & 0xF0,
        Register::H => c.h,
        Register::L => c.l,
    }
}

/// The CPU after writing a byte register; a write to F masks its low
/// nibble.
pub open spec fn spec_set_register(c: Cpu, register: Register, value: u8) -> Cpu {
    match register {
        Register::A => Cpu { a: value, ..c },
        Register::B => Cpu { b: value, ..c },
        Register::C => Cpu { c: value, ..c },
        Register::D => Cpu { d: value, ..c },
        Register::E => Cpu { e: value, ..c },
        Register::F => Cpu { f: value & 0xF0, ..c },
        Register::H => Cpu { h: value, ..c },
        Register::L => Cpu { l: value, ..c },
    }
}

/// A 16-bit register read; the virtual pairs compose high register first,
/// and AF masks the low nibble of F.
pub open spec fn spec_get_register16(c: Cpu, register: Register16) -> u16 {
    match register {
        Register16::AF => (c.a * 256 + (c.f & 0xF0)) as u16,
        Register16::BC => (c.b * 256 + c.c) as u16,
        Register16::DE => (c.d * 256 + c.e) as u16,
        Register16::HL => (c.h * 256 + c.l) as u16,
        Register16::SP => c.sp,
        Register16::PC => c.pc,
    }
}

/// The CPU after a 16-bit register write; a pair write splits the word
/// big-endian into its two byte registers, and AF masks F's low nibble.
pub open spec fn spec_set_register16(c: Cpu, register: Register16, value: u16) -> Cpu {
    match register {
        Register16::AF => Cpu { a: (value / 256) as u8, f: ((value % 256) as u8) & 0xF0, ..c },
        Register16::BC => Cpu { b: (value / 256) as u8, c: (value % 256) as u8, ..c },
        Register16::DE => Cpu { d: (value / 256) as u8, e: (value % 256) as u8, ..c },
        Register16::HL => Cpu { h: (value / 256) as u8, l: (value % 256) as u8, ..c },
        Register16::SP => Cpu { sp: value, ..c },
        Register16::PC => Cpu { pc: value, ..c },
    }
}

/// HL as a word.
pub open spec fn spec_hl(c: Cpu) -> u16 {
    (c.h * 256 + c.l) as u16
}

/// Whether `condition` holds of the current flags.
pub open spec fn spec_condition(c: Cpu, condition: FlowCondition) -> bool {
    match condition {
        FlowCondition::NotZero => !spec_zero_flag(c.f),
        FlowCondition::Zero => spec_zero_flag(c.f),
        FlowCondition::NotCarry => !spec_carry_flag(c.f),
        FlowCondition::Carry => spec_carry_flag(c.f),
    }
}

impl Cpu {
    /// The power-on register state, with PC at the cartridge entry point.
    pub fn new() -> (r: Cpu)
        ensures
            r == (Cpu {
                a: 0x01,
                b: 0x00,
                c: 0x13,
                d: 0x00,
                e: 0xD8,
                f: 0xB0,
                h: 0x01,
                l: 0x4D,
                sp: 0xFFFE,
                pc: 0x0100,
                ime: true,
                ei_pending: false,
                halted: false,
                halt_bug: false,
            }),
    {
        Cpu {
            a: 0x01,
            b: 0x00,
            c: 0x13,
            d: 0x00,
            e: 0xD8,
            f: 0xB0,
            h: 0x01,
            l: 0x4D,
            sp: 0xFFFE,
            pc: 0x0100,
            ime: true,
            ei_pending: false,
            halted: false,
            halt_bug: false,
        }
    }

    /// An all-zero CPU, as the direct-execution tests use.
    pub fn new_default() -> (r: Cpu)
        ensures
            r == (Cpu {
                a: 0,
                b: 0,
                c: 0,
                d: 0,
                e: 0,
                f: 0,
                h: 0,
                l: 0,
                sp: 0,
                pc: 0,
                ime: false,
                ei_pending: false,
                halted: false,
                halt_bug: false,
            }),
    {
        Cpu {
            a: 0,
            b: 0,
            c: 0,
            d: 0,
            e: 0,
            f: 0,
            h: 0,
            l: 0,
            sp: 0,
            pc: 0,
            ime: false,
            ei_pending: false,
            halted: false,
            halt_bug: false,
        }
    }

    pub fn set_register(&mut self, register: Register, value: u8)
        ensures
            *final(self) == spec_set_register(*old(self), register, value),
    {
        match register {
            Register::A => {
                self.a = value;
            },
            Register::B => {
                self.b = value;
            },
            Register::C => {
                self.c = value;
            },
            Register::D => {
                self.d = value;
            },
            Register::E => {
                self.e = value;
            },
            Register::F => {
                self.f = value & 0xF0;
            },
            Register::H => {
                self.h = value;
            },
            Register::L => {
                self.l = value;
            },
        }
    }

    pub fn get_register(&self, register: Register) -> (r: u8)
        ensures
            r == spec_get_register(*self, register),
    {
        match register {
            Register::A => self.a,
            Register::B => self.b,
            Register::C => self.c,
            Register::D => self.d,
            Register::E => self.e,
            Register::F => self.f & 0xF0,
            Register::H => self.h,
            Register::L => self.l,
        }
    }

    pub fn set_register_16(&mut self, register: Register16, value: u16)
        ensures
            *final(self) == spec_set_register16(*old(self), register, value),
    {
        match register {
            Register16::AF => {
                self.a = (value / 256) as u8;
                self.f = ((value % 256) as u8) & 0xF0;
            },
            Register16::BC => {
                self.b = (value / 256) as u8;
                self.c = (value % 256) as u8;
            },
            Register16::DE => {
                self.d = (value / 256) as u8;
                self.e = (value % 256) as u8;
            },
            Register16::HL => {
                self.h = (value / 256) as u8;
                self.l = (value % 256) as u8;
            },
            Register16::SP => {
                self.sp = value;
            },
            Register16::PC => {
                self.pc = value;
            },
        }
    }

    pub fn get_register_16(&self, register: Register16) -> (r: u16)
        ensures
            r == spec_get_register16(*self, register),
    {
        match register {
            Register16::AF => (self.a as u16) * 256 + ((self.f & 0xF0) as u16),
            Register16::BC => (self.b as u16) * 256 + (self.c as u16),
            Register16::DE => (self.d as u16) * 256 + (self.e as u16),
            Register16::HL => (self.h as u16) * 256 + (self.l as u16),
            Register16::SP => self.sp,
            Register16::PC => self.pc,
        }
    }

    fn get_hl(&self) -> (r: u16)
        ensures
            r == spec_hl(*self),
    {
        (self.h as u16) * 256 + (self.l as u16)
    }

    fn set_hl(&mut self, value: u16)
        ensures
            *final(self) == (Cpu {
                h: (value / 256) as u8,
                l: (value % 256) as u8,
                ..*old(self)
            }),
    {
        self.h = (value / 256) as u8;
        self.l = (value % 256) as u8;
    }

    pub fn set_flag(&mut self, flag: Flag, on: bool)
        ensures
            *final(self) == (Cpu {
                f: if on {
                    old(self).f | crate::registers::spec_flag_mask(flag)
                } else {
                    old(self).f & !crate::registers::spec_flag_mask(flag)
                },
                ..*old(self)
            }),
    {
        self.f = if on {
            self.f | flag.mask()
        } else {
            self.f & !flag.mask()
        };
    }

    pub fn get_flag(&self, flag: Flag) -> (r: bool)
        ensures
            r == match flag {
                Flag::Zero => spec_zero_flag(self.f),
                Flag::Sub => spec_sub_flag(self.f),
                Flag::HalfCarry => spec_half_flag(self.f),
                Flag::Carry => spec_carry_flag(self.f),
            },
    {
        (self.f & flag.mask()) != 0
    }

    /// Replace all four flags at once; the low nibble of F becomes zero.
    fn set_flags(&mut self, carry: bool, half_carry: bool, sub: bool, zero: bool)
        ensures
            *final(self) == (Cpu { f: spec_flags(zero, sub, half_carry, carry), ..*old(self) }),
    {
        let mut flags: u8 = 0;
        if zero {
            flags += 0x80;
        }
        if sub {
            flags += 0x40;
        }
        if half_carry {
            flags += 0x20;
        }
        if carry {
            flags += 0x10;
        }
        self.f = flags;
    }

    fn evaluate_flow_condition(&self, condition: FlowCondition) -> (r: bool)
        ensures
            r == spec_condition(*self, condition),
    {
        match condition {
            FlowCondition::NotZero => !self.get_flag(Flag::Zero),
            FlowCondition::Zero => self.get_flag(Flag::Zero),
            FlowCondition::NotCarry => !self.get_flag(Flag::Carry),
            FlowCondition::Carry => self.get_flag(Flag::Carry),
        }
    }

    /// Push a word: SP moves down by two, the word is written
    /// little-endian at the new SP.
    fn push_to_stack_16b(&mut self, value: u16, bus: &mut Bus)
        ensures
            *final(self) == (Cpu { sp: wrap16(old(self).sp - 2), ..*old(self) }),
            final(bus)@ == spec_bus_write16(old(bus)@, wrap16(old(self).sp - 2), value),
    {
        let addr = crate::word::wrapping_sub16(self.sp, 2);
        bus.write_to_16b(addr, value);
        self.sp = addr;
    }

    /// Pop a word: the word is read little-endian at SP, SP moves up by
    /// two.
    fn pop_from_stack_16b(&mut self, bus: &Bus) -> (r: u16)
        ensures
            *final(self) == (Cpu { sp: wrap16(old(self).sp + 2), ..*old(self) }),
            r == spec_bus_read16(bus@, old(self).sp),
    {
        let stack_value = bus.read_from_16b(self.sp);
        self.sp = crate::word::wrapping_add16(self.sp, 2);
        stack_value
    }
}

/// The accumulator after an 8-bit add with carry-in (0 or 1), wrapping.
pub open spec fn spec_add8(a: u8, value: u8, carry_in: int) -> u8 {
    wrap8(a + value + carry_in)
}

/// The flags after an 8-bit add: Z from the wrapped result, N clear,
/// H from the nibble carry (carry-in included), C from the byte carry.
pub open spec fn spec_add_flags(a: u8, value: u8, carry_in: int) -> u8 {
    spec_flags(
        wrap8(a + value + carry_in) == 0,
        false,
        (a & 0x0F) + (value & 0x0F) + carry_in > 0x0F,
        a + value + carry_in > 0xFF,
    )
}

/// The accumulator after an 8-bit subtract with borrow-in (0 or 1),
/// wrapping.
pub open spec fn spec_sub8(a: u8, value: u8, carry_in: int) -> u8 {
    wrap8(a - value - carry_in)
}

/// The flags after an 8-bit subtract: Z from the wrapped result, N set,
/// H from the nibble borrow (borrow-in included), C from the byte borrow.
pub open spec fn spec_sub_flags(a: u8, value: u8, carry_in: int) -> u8 {
    spec_flags(
        wrap8(a - value - carry_in) == 0,
        true,
        (a & 0x0F) < (value & 0x0F) + carry_in,
        a < value + carry_in,
    )
}

/// The carry flag as an arithmetic carry-in.
pub open spec fn spec_carry_in(f: u8) -> int {
    if spec_carry_flag(f) {
        1int
    } else {
        0int
    }
}

/// The flags after ADD SP,imm8 and LD HL,SP+imm8: Z and N clear, H and C
/// from the low nibble and low byte of SP against the unsigned addend
/// byte.
pub open spec fn spec_sp_adjust_flags(sp: u16, displacement: i8) -> u8 {
    spec_flags(
        false,
        false,
        (sp & 0x000F) + ((displacement as u8) & 0x0F) > 0x0F,
        (sp & 0x00FF) + (displacement as u8) > 0xFF,
    )
}

/// The low nibble and low byte of a word are below 16 and 256.
proof fn lemma_word_low_bounds(x: u16)
    by (bit_vector)
    ensures
        x & 0x000F < 16,
        x & 0x00FF < 256,
{
}

impl Cpu {
    fn _add(&mut self, value: u8)
        ensures
            *final(self) == (Cpu {
                a: spec_add8(old(self).a, value, 0),
                f: spec_add_flags(old(self).a, value, 0),
                ..*old(self)
            }),
    {
        proof {
            lemma_nibble_bound(self.a);
            lemma_nibble_bound(value);
        }
        let sum: u16 = self.a as u16 + value as u16;
        let new_value: u8 = (sum % 256) as u8;
        let half_carry = (self.a & 0x0F) + (value & 0x0F) > 0x0F;
        let did_overflow = sum > 0xFF;

        self.set_flags(did_overflow, half_carry, false, new_value == 0);

        self.a = new_value;
    }

    fn _adc(&mut self, value: u8)
        ensures
            *final(self) == (Cpu {
                a: spec_add8(old(self).a, value, spec_carry_in(old(self).f)),
                f: spec_add_flags(old(self).a, value, spec_carry_in(old(self).f)),
                ..*old(self)
            }),
    {
        proof {
            lemma_nibble_bound(self.a);
            lemma_nibble_bound(value);
        }
        let carry_flag: u8 = if self.get_flag(Flag::Carry) {
            1
        } else {
            0
        };
        let sum: u16 = self.a as u16 + value as u16 + carry_flag as u16;
        let new_value: u8 = (sum % 256) as u8;
        let half_carry = (self.a & 0x0F) + (value & 0x0F) + carry_flag > 0x0F;
        let did_overflow = sum > 0xFF;

        self.set_flags(did_overflow, half_carry, false, new_value == 0);

        self.a = new_value;
    }

    fn _sub(&mut self, value: u8)
        ensures
            *final(self) == (Cpu {
                a: spec_sub8(old(self).a, value, 0),
                f: spec_sub_flags(old(self).a, value, 0),
                ..*old(self)
            }),
    {
        proof {
            lemma_nibble_bound(self.a);
            lemma_nibble_bound(value);
            crate::word::lemma_wrap_add_multiple(self.a - value, 1);
        }
        let shifted: u16 = self.a as u16 + 256 - value as u16;
        let new_value: u8 = (shifted % 256) as u8;
        let half_carry = (self.a & 0x0F) < (value & 0x0F);
        let did_borrow = (self.a as u16) < (value as u16);

        self.set_flags(did_borrow, half_carry, true, new_value == 0);

        self.a = new_value;
    }

    fn _sbc(&mut self, value: u8)
        ensures
            *final(self) == (Cpu {
                a: spec_sub8(old(self).a, value, spec_carry_in(old(self).f)),
                f: spec_sub_flags(old(self).a, value, spec_carry_in(old(self).f)),
                ..*old(self)
            }),
    {
        proof {
            lemma_nibble_bound(self.a);
            lemma_nibble_bound(value);
        }
        let carry_flag: u8 = if self.get_flag(Flag::Carry) {
            1
        } else {
            0
        };
        proof {
            crate::word::lemma_wrap_add_multiple(self.a - value - carry_flag, 1);
        }
        let shifted: u16 = self.a as u16 + 256 - value as u16 - carry_flag as u16;
        let new_value: u8 = (shifted % 256) as u8;
        let half_carry = (self.a & 0x0F) < (value & 0x0F) + carry_flag;
        let did_borrow = (self.a as u16) < value as u16 + carry_flag as u16;

        self.set_flags(did_borrow, half_carry, true, new_value == 0);

        self.a = new_value;
    }

    fn _cp(&mut self, value: u8)
        ensures
            *final(self) == (Cpu { f: spec_sub_flags(old(self).a, value, 0), ..*old(self) }),
    {
        proof {
            lemma_nibble_bound(self.a);
            lemma_nibble_bound(value);
            crate::word::lemma_wrap_add_multiple(self.a - value, 1);
        }
        let shifted: u16 = self.a as u16 + 256 - value as u16;
        let new_value: u8 = (shifted % 256) as u8;
        let half_carry = (self.a & 0x0F) < (value & 0x0F);
        let did_borrow = (self.a as u16) < (value as u16);

        self.set_flags(did_borrow, half_carry, true, new_value == 0);
    }

    fn _and(&mut self, value: u8)
        ensures
            *final(self) == (Cpu {
                a: old(self).a & value,
                f: spec_flags(old(self).a & value == 0, false, true, false),
                ..*old(self)
            }),
    {
        let new_value = self.a & value;
        self.set_flags(false, true, false, new_value == 0);
        self.a = new_value;
    }

    fn _or(&mut self, value: u8)
        ensures
            *final(self) == (Cpu {
                a: old(self).a | value,
                f: spec_flags(old(self).a | value == 0, false, false, false),
                ..*old(self)
            }),
    {
        let new_value = self.a | value;
        self.set_flags(false, false, false, new_value == 0);
        self.a = new_value;
    }

    fn _xor(&mut self, value: u8)
        ensures
            *final(self) == (Cpu {
                a: old(self).a ^ value,
                f: spec_flags(old(self).a ^ value == 0, false, false, false),
                ..*old(self)
            }),
    {
        let new_value = self.a ^ value;
        self.set_flags(false, false, false, new_value == 0);
        self.a = new_value;
    }
}

impl Cpu {
    pub fn add(&mut self, register: Register) -> (cycles: u8)
        ensures
            *final(self) == (Cpu {
                a: spec_add8(old(self).a, spec_get_register(*old(self), register), 0),
                f: spec_add_flags(old(self).a, spec_get_register(*old(self), register), 0),
                ..*old(self)
            }),
            cycles == 1,
    {
        let value = self.get_register(register);
        self._add(value);
        1
    }

    pub fn add_hl_ind(&mut self, bus: &mut Bus) -> (cycles: u8)
        ensures
            *final(self) == (Cpu {
                a: spec_add8(old(self).a, spec_bus_read8(old(bus)@, spec_hl(*old(self))), 0),
                f: spec_add_flags(old(self).a, spec_bus_read8(old(bus)@, spec_hl(*old(self))), 0),
                ..*old(self)
            }),
            final(bus)@ == old(bus)@,
            cycles == 2,
    {
        let value = bus.read_from_8b(self.get_hl());
        self._add(value);
        2
    }

    pub fn add_imm(&mut self, imm: u8) -> (cycles: u8)
        ensures
            *final(self) == (Cpu {
                a: spec_add8(old(self).a, imm, 0),
                f: spec_add_flags(old(self).a, imm, 0),
                ..*old(self)
            }),
            cycles == 2,
    {
        self._add(imm);
        2
    }

    pub fn add_c(&mut self, register: Register) -> (cycles: u8)
        ensures
            *final(self) == (Cpu {
                a: spec_add8(
                    old(self).a,
                    spec_get_register(*old(self), register),
                    spec_carry_in(old(self).f),
                ),
                f: spec_add_flags(
                    old(self).a,
                    spec_get_register(*old(self), register),
                    spec_carry_in(old(self).f),
                ),
                ..*old(self)
            }),
            cycles == 1,
    {
        let value = self.get_register(register);
        self._adc(value);
        1
    }

    pub fn add_c_hl_ind(&mut self, bus: &mut Bus) -> (cycles: u8)
        ensures
            *final(self) == (Cpu {
                a: spec_add8(
                    old(self).a,
                    spec_bus_read8(old(bus)@, spec_hl(*old(self))),
                    spec_carry_in(old(self).f),
                ),
                f: spec_add_flags(
                    old(self).a,
                    spec_bus_read8(old(bus)@, spec_hl(*old(self))),
                    spec_carry_in(old(self).f),
                ),
                ..*old(self)
            }),
            final(bus)@ == old(bus)@,
            cycles == 2,
    {
        let value = bus.read_from_8b(self.get_hl());
        self._adc(value);
        2
    }

    pub fn add_c_imm(&mut self, imm: u8) -> (cycles: u8)
        ensures
            *final(self) == (Cpu {
                a: spec_add8(old(self).a, imm, spec_carry_in(old(self).f)),
                f: spec_add_flags(old(self).a, imm, spec_carry_in(old(self).f)),
                ..*old(self)
            }),
            cycles == 2,
    {
        self._adc(imm);
        2
    }

    pub fn sub(&mut self, register: Register) -> (cycles: u8)
        ensures
            *final(self) == (Cpu {
                a: spec_sub8(old(self).a, spec_get_register(*old(self), register), 0),
                f: spec_sub_flags(old(self).a, spec_get_register(*old(self), register), 0),
                ..*old(self)
            }),
            cycles == 1,
    {
        let value = self.get_register(register);
        self._sub(value);
        1
    }

    pub fn sub_hl_ind(&mut self, bus: &mut Bus) -> (cycles: u8)
        ensures
            *final(self) == (Cpu {
                a: spec_sub8(old(self).a, spec_bus_read8(old(bus)@, spec_hl(*old(self))), 0),
                f: spec_sub_flags(old(self).a, spec_bus_read8(old(bus)@, spec_hl(*old(self))), 0),
                ..*old(self)
            }),
            final(bus)@ == old(bus)@,
            cycles == 2,
    {
        let value = bus.read_from_8b(self.get_hl());
        self._sub(value);
        2
    }

    pub fn sub_imm(&mut self, imm: u8) -> (cycles: u8)
        ensures
            *final(self) == (Cpu {
                a: spec_sub8(old(self).a, imm, 0),
                f: spec_sub_flags(old(self).a, imm, 0),
                ..*old(self)
            }),
            cycles == 2,
    {
        self._sub(imm);
        2
    }

    pub fn sub_c(&mut self, register: Register) -> (cycles: u8)
        ensures
            *final(self) == (Cpu {
                a: spec_sub8(
                    old(self).a,
                    spec_get_register(*old(self), register),
                    spec_carry_in(old(self).f),
                ),
                f: spec_sub_flags(
                    old(self).a,
                    spec_get_register(*old(self), register),
                    spec_carry_in(old(self).f),
                ),
                ..*old(self)
            }),
            cycles == 1,
    {
        let value = self.get_register(register);
        self._sbc(value);
        1
    }

    pub fn sub_c_hl_ind(&mut self, bus: &mut Bus) -> (cycles: u8)
        ensures
            *final(self) == (Cpu {
                a: spec_sub8(
                    old(self).a,
                    spec_bus_read8(old(bus)@, spec_hl(*old(self))),
                    spec_carry_in(old(self).f),
                ),
                f: spec_sub_flags(
                    old(self).a,
                    spec_bus_read8(old(bus)@, spec_hl(*old(self))),
                    spec_carry_in(old(self).f),
                ),
                ..*old(self)
            }),
            final(bus)@ == old(bus)@,
            cycles == 2,
    {
        let value = bus.read_from_8b(self.get_hl());
        self._sbc(value);
        2
    }

    pub fn sub_c_imm(&mut self, imm: u8) -> (cycles: u8)
        ensures
            *final(self) == (Cpu {
                a: spec_sub8(old(self).a, imm, spec_carry_in(old(self).f)),
                f: spec_sub_flags(old(self).a, imm, spec_carry_in(old(self).f)),
                ..*old(self)
            }),
            cycles == 2,
    {
        self._sbc(imm);
        2
    }

    pub fn cp(&mut self, register: Register) -> (cycles: u8)
        ensures
            *final(self) == (Cpu {
                f: spec_sub_flags(old(self).a, spec_get_register(*old(self), register), 0),
                ..*old(self)
            }),
            cycles == 1,
    {
        let value = self.get_register(register);
        self._cp(value);
        1
    }

    pub fn cp_hl_ind(&mut self, bus: &mut Bus) -> (cycles: u8)
        ensures
            *final(self) == (Cpu {
                f: spec_sub_flags(old(self).a, spec_bus_read8(old(bus)@, spec_hl(*old(self))), 0),
                ..*old(self)
            }),
            final(bus)@ == old(bus)@,
            cycles == 2,
    {
        let value = bus.read_from_8b(self.get_hl());
        self._cp(value);
        2
    }

    pub fn cp_imm(&mut self, imm: u8) -> (cycles: u8)
        ensures
            *final(self) == (Cpu { f: spec_sub_flags(old(self).a, imm, 0), ..*old(self) }),
            cycles == 2,
    {
        self._cp(imm);
        2
    }

    pub fn and(&mut self, register: Register) -> (cycles: u8)
        ensures
            *final(self) == (Cpu {
                a: old(self).a & spec_get_register(*old(self), register),
                f: spec_flags(
                    old(self).a & spec_get_register(*old(self), register) == 0,
                    false,
                    true,
                    false,
                ),
                ..*old(self)
            }),
            cycles == 1,
    {
        let value = self.get_register(register);
        self._and(value);
        1
    }

    pub fn and_hl_ind(&mut self, bus: &mut Bus) -> (cycles: u8)
        ensures
            *final(self) == (Cpu {
                a: old(self).a & spec_bus_read8(old(bus)@, spec_hl(*old(self))),
                f: spec_flags(
                    old(self).a & spec_bus_read8(old(bus)@, spec_hl(*old(self))) == 0,
                    false,
                    true,
                    false,
                ),
                ..*old(self)
            }),
            final(bus)@ == old(bus)@,
            cycles == 2,
    {
        let value = bus.read_from_8b(self.get_hl());
        self._and(value);
        2
    }

    pub fn and_imm(&mut self, imm: u8) -> (cycles: u8)
        ensures
            *final(self) == (Cpu {
                a: old(self).a & imm,
                f: spec_flags(old(self).a & imm == 0, false, true, false),
                ..*old(self)
            }),
            cycles == 2,
    {
        self._and(imm);
        2
    }

    pub fn or(&mut self, register: Register) -> (cycles: u8)
        ensures
            *final(self) == (Cpu {
                a: old(self).a | spec_get_register(*old(self), register),
                f: spec_flags(
                    old(self).a | spec_get_register(*old(self), register) == 0,
                    false,
                    false,
                    false,
                ),
                ..*old(self)
            }),
            cycles == 1,
    {
        let value = self.get_register(register);
        self._or(value);
        1
    }

    pub fn or_hl_ind(&mut self, bus: &mut Bus) -> (cycles: u8)
        ensures
            *final(self) == (Cpu {
                a: old(self).a | spec_bus_read8(old(bus)@, spec_hl(*old(self))),
                f: spec_flags(
                    old(self).a | spec_bus_read8(old(bus)@, spec_hl(*old(self))) == 0,
                    false,
                    false,
                    false,
                ),
                ..*old(self)
            }),
            final(bus)@ == old(bus)@,
            cycles == 2,
    {
        let value = bus.read_from_8b(self.get_hl());
        self._or(value);
        2
    }

    pub fn or_imm(&mut self, imm: u8) -> (cycles: u8)
        ensures
            *final(self) == (Cpu {
                a: old(self).a | imm,
                f: spec_flags(old(self).a | imm == 0, false, false, false),
                ..*old(self)
            }),
            cycles == 2,
    {
        self._or(imm);
        2
    }

    pub fn xor(&mut self, register: Register) -> (cycles: u8)
        ensures
            *final(self) == (Cpu {
                a: old(self).a ^ spec_get_register(*old(self), register),
                f: spec_flags(
                    old(self).a ^ spec_get_register(*old(self), register) == 0,
                    false,
                    false,
                    false,
                ),
                ..*old(self)
            }),
            cycles == 1,
    {
        let value = self.get_register(register);
        self._xor(value);
        1
    }

    pub fn xor_hl_ind(&mut self, bus: &mut Bus) -> (cycles: u8)
        ensures
            *final(self) == (Cpu {
                a: old(self).a ^ spec_bus_read8(old(bus)@, spec_hl(*old(self))),
                f: spec_flags(
                    old(self).a ^ spec_bus_read8(old(bus)@, spec_hl(*old(self))) == 0,
                    false,
                    false,
                    false,
                ),
                ..*old(self)
            }),
            final(bus)@ == old(bus)@,
            cycles == 2,
    {
        let value = bus.read_from_8b(self.get_hl());
        self._xor(value);
        2
    }

    pub fn xor_imm(&mut self, imm: u8) -> (cycles: u8)
        ensures
            *final(self) == (Cpu {
                a: old(self).a ^ imm,
                f: spec_flags(old(self).a ^ imm == 0, false, false, false),
                ..*old(self)
            }),
            cycles == 2,
    {
        self._xor(imm);
        2
    }

    pub fn inc(&mut self, register: Register) -> (cycles: u8)
        ensures
            ({
                let value = spec_get_register(*old(self), register);
                let new_value = wrap8(value + 1);
                *final(self) == spec_set_register(
                    Cpu {
                        f: spec_flags(
                            new_value == 0,
                            false,
                            (value & 0x0F) + 1 > 0x0F,
                            spec_carry_flag(old(self).f),
                        ),
                        ..*old(self)
                    },
                    register,
                    new_value,
                )
            }),
            cycles == 1,
    {
        let value = self.get_register(register);
        proof {
            lemma_nibble_bound(value);
        }
        let new_value = crate::word::wrapping_add8(value, 1);
        let half_carry = (value & 0x0F) + 1 > 0x0F;
        let current_carry = self.get_flag(Flag::Carry);

        self.set_flags(current_carry, half_carry, false, new_value == 0);

        self.set_register(register, new_value);
        1
    }

    pub fn inc_hl_ind(&mut self, bus: &mut Bus) -> (cycles: u8)
        ensures
            ({
                let value = spec_bus_read8(old(bus)@, spec_hl(*old(self)));
                let new_value = wrap8(value + 1);
                &&& *final(self) == (Cpu {
                    f: spec_flags(
                        new_value == 0,
                        false,
                        (value & 0x0F) + 1 > 0x0F,
                        spec_carry_flag(old(self).f),
                    ),
                    ..*old(self)
                })
                &&& final(bus)@ == spec_bus_write8(old(bus)@, spec_hl(*old(self)), new_value)
            }),
            cycles == 3,
    {
        let value = bus.read_from_8b(self.get_hl());
        proof {
            lemma_nibble_bound(value);
        }
        let new_value = crate::word::wrapping_add8(value, 1);
        let half_carry = (value & 0x0F) + 1 > 0x0F;
        let current_carry = self.get_flag(Flag::Carry);

        self.set_flags(current_carry, half_carry, false, new_value == 0);

        bus.write_to_8b(self.get_hl(), new_value);
        3
    }

    pub fn dec(&mut self, register: Register) -> (cycles: u8)
        ensures
            ({
                let value = spec_get_register(*old(self), register);
                let new_value = wrap8(value - 1);
                *final(self) == spec_set_register(
                    Cpu {
                        f: spec_flags(
                            new_value == 0,
                            true,
                            value & 0x0F == 0,
                            spec_carry_flag(old(self).f),
                        ),
                        ..*old(self)
                    },
                    register,
                    new_value,
                )
            }),
            cycles == 1,
    {
        let value = self.get_register(register);
        let new_value = crate::word::wrapping_sub8(value, 1);
        let half_carry = (value & 0x0F) == 0;
        let current_carry = self.get_flag(Flag::Carry);

        self.set_flags(current_carry, half_carry, true, new_value == 0);

        self.set_register(register, new_value);
        1
    }

    pub fn dec_hl_ind(&mut self, bus: &mut Bus) -> (cycles: u8)
        ensures
            ({
                let value = spec_bus_read8(old(bus)@, spec_hl(*old(self)));
                let new_value = wrap8(value - 1);
                &&& *final(self) == (Cpu {
                    f: spec_flags(
                        new_value == 0,
                        true,
                        value & 0x0F == 0,
                        spec_carry_flag(old(self).f),
                    ),
                    ..*old(self)
                })
                &&& final(bus)@ == spec_bus_write8(old(bus)@, spec_hl(*old(self)), new_value)
            }),
            cycles == 3,
    {
        let value = bus.read_from_8b(self.get_hl());
        let new_value = crate::word::wrapping_sub8(value, 1);
        let half_carry = (value & 0x0F) == 0;
        let current_carry = self.get_flag(Flag::Carry);

        self.set_flags(current_carry, half_carry, true, new_value == 0);

        bus.write_to_8b(self.get_hl(), new_value);
        3
    }

    /// CCF: complement C, clear N and H, keep Z.
    pub fn ccf(&mut self) -> (cycles: u8)
        ensures
            *final(self) == (Cpu {
                f: spec_flags(
                    spec_zero_flag(old(self).f),
                    false,
                    false,
                    !spec_carry_flag(old(self).f),
                ),
                ..*old(self)
            }),
            cycles == 1,
    {
        let current_carry = self.get_flag(Flag::Carry);
        let current_zero = self.get_flag(Flag::Zero);

        self.set_flags(!current_carry, false, false, current_zero);
        1
    }

    /// SCF: set C, clear N and H, keep Z.
    pub fn scf(&mut self) -> (cycles: u8)
        ensures
            *final(self) == (Cpu {
                f: spec_flags(spec_zero_flag(old(self).f), false, false, true),
                ..*old(self)
            }),
            cycles == 1,
    {
        let current_zero = self.get_flag(Flag::Zero);
        self.set_flags(true, false, false, current_zero);
        1
    }

    /// DAA: post-adjust A to packed BCD after an add or subtract.
    pub fn daa(&mut self) -> (cycles: u8)
        ensures
            *final(self) == (Cpu {
                a: spec_daa(old(self).a, old(self).f).0,
                f: spec_daa(old(self).a, old(self).f).1,
                ..*old(self)
            }),
            cycles == 1,
    {
        let current_sub = self.get_flag(Flag::Sub);
        let current_half_carry = self.get_flag(Flag::HalfCarry);
        let mut carry = self.get_flag(Flag::Carry);

        let mut adjust: u8 = 0;
        let new_value: u8;
        if !current_sub {
            if current_half_carry || self.a & 0x0F > 9 {
                adjust += 0x06;
            }
            if carry || self.a > 0x99 {
                adjust += 0x60;
                carry = true;
            }
            new_value = crate::word::wrapping_add8(self.a, adjust);
        } else {
            if current_half_carry {
                adjust += 0x06;
            }
            if carry {
                adjust += 0x60;
            }
            new_value = crate::word::wrapping_sub8(self.a, adjust);
        }

        self.set_flags(carry, false, current_sub, new_value == 0);

        self.a = new_value;
        1
    }

    /// CPL: complement A, set N and H, keep Z and C.
    pub fn cpl(&mut self) -> (cycles: u8)
        ensures
            *final(self) == (Cpu {
                a: !old(self).a,
                f: spec_flags(
                    spec_zero_flag(old(self).f),
                    true,
                    true,
                    spec_carry_flag(old(self).f),
                ),
                ..*old(self)
            }),
            cycles == 1,
    {
        let current_carry = self.get_flag(Flag::Carry);
        let current_zero = self.get_flag(Flag::Zero);

        self.set_flags(current_carry, true, true, current_zero);

        self.a = !self.a;
        1
    }

    pub fn inc_16(&mut self, register: Register16) -> (cycles: u8)
        ensures
            *final(self) == spec_set_register16(
                *old(self),
                register,
                wrap16(spec_get_register16(*old(self), register) + 1),
            ),
            cycles == 2,
    {
        let value = self.get_register_16(register);
        self.set_register_16(register, crate::word::wrapping_add16(value, 1));
        2
    }

    pub fn dec_16(&mut self, register: Register16) -> (cycles: u8)
        ensures
            *final(self) == spec_set_register16(
                *old(self),
                register,
                wrap16(spec_get_register16(*old(self), register) - 1),
            ),
            cycles == 2,
    {
        let value = self.get_register_16(register);
        self.set_register_16(register, crate::word::wrapping_sub16(value, 1));
        2
    }

    /// ADD HL,rr: Z kept, N cleared, H from bit 11, C from bit 15.
    pub fn add_hl(&mut self, register: Register16) -> (cycles: u8)
        ensures
            ({
                let value = spec_get_register16(*old(self), register);
                let hl = spec_hl(*old(self));
                let new_value = wrap16(hl + value);
                *final(self) == (Cpu {
                    h: (new_value / 256) as u8,
                    l: (new_value % 256) as u8,
                    f: spec_flags(
                        spec_zero_flag(old(self).f),
                        false,
                        (hl & 0x0FFF) + (value & 0x0FFF) > 0x0FFF,
                        hl + value > 0xFFFF,
                    ),
                    ..*old(self)
                })
            }),
            cycles == 2,
    {
        let register_value = self.get_register_16(register);
        let hl = self.get_hl();
        proof {
            lemma_low12_bound(hl);
            lemma_low12_bound(register_value);
        }

        let new_value = crate::word::wrapping_add16(hl, register_value);
        let current_zero = self.get_flag(Flag::Zero);
        let half_carry = (hl & 0x0FFF) + (register_value & 0x0FFF) > 0x0FFF;
        let did_overflow = hl as u32 + register_value as u32 > 0xFFFF;

        self.set_flags(did_overflow, half_carry, false, current_zero);

        self.set_hl(new_value);
        2
    }

    /// ADD SP,imm8: SP moves by the signed byte; Z and N cleared, H and C
    /// from the low nibble and low byte of SP against the unsigned byte.
    pub fn add_sp_imm(&mut self, imm: i8) -> (cycles: u8)
        ensures
            *final(self) == (Cpu {
                sp: wrap16(old(self).sp + imm),
                f: spec_sp_adjust_flags(old(self).sp, imm),
                ..*old(self)
            }),
            cycles == 4,
    {
        let new_value = crate::word::wrapping_add_signed16(self.sp, imm);
        let sp = self.sp;
        proof {
            lemma_word_low_bounds(sp);
            lemma_nibble_bound(imm as u8);
        }

        let half_carry = (sp & 0x000F) + ((imm as u8) & 0x0F) as u16 > 0x000F;
        let did_overflow = (sp & 0x00FF) + (imm as u8) as u16 > 0x00FF;

        self.set_flags(did_overflow, half_carry, false, false);

        self.sp = new_value;
        4
    }

    /// LD HL,SP+imm8: like ADD SP,imm8 but the sum lands in HL.
    pub fn ld_hl_from_adjusted_sp(&mut self, imm: i8) -> (cycles: u8)
        ensures
            ({
                let adjusted = wrap16(old(self).sp + imm);
                *final(self) == (Cpu {
                    h: (adjusted / 256) as u8,
                    l: (adjusted % 256) as u8,
                    f: spec_sp_adjust_flags(old(self).sp, imm),
                    ..*old(self)
                })
            }),
            cycles == 3,
    {
        let adjusted_sp = crate::word::wrapping_add_signed16(self.sp, imm);
        self.set_hl(adjusted_sp);

        let sp = self.sp;
        proof {
            lemma_word_low_bounds(sp);
            lemma_nibble_bound(imm as u8);
        }

        let half_carry = (sp & 0x000F) + ((imm as u8) & 0x0F) as u16 > 0x000F;
        let did_overflow = (sp & 0x00FF) + (imm as u8) as u16 > 0x00FF;

        self.set_flags(did_overflow, half_carry, false, false);
        3
    }
}

/// A and the flags after DAA. With N clear the adjustment adds 0x06 when
/// H is set or the low nibble exceeds 9, and 0x60 (setting C) when C is
/// set or A exceeds 0x99; with N set it subtracts the adjustments chosen
/// by H and C alone. Z tracks the final A; H is always cleared.
pub open spec fn spec_daa(a: u8, f: u8) -> (u8, u8) {
    let sub = spec_sub_flag(f);
    let half = spec_half_flag(f);
    let carry = spec_carry_flag(f);
    if !sub {
        let adjust = (if half || a & 0x0F > 9 {
            0x06int
        } else {
            0int
        }) + (if carry || a > 0x99 {
            0x60int
        } else {
            0int
        });
        let carry_out = carry || a > 0x99;
        let result = wrap8(a + adjust);
        (result, spec_flags(result == 0, false, false, carry_out))
    } else {
        let adjust = (if half {
            0x06int
        } else {
            0int
        }) + (if carry {
            0x60int
        } else {
            0int
        });
        let result = wrap8(a - adjust);
        (result, spec_flags(result == 0, true, false, carry))
    }
}

/// Circular left rotate of a byte.
pub open spec fn spec_rlc(value: u8) -> u8 {
    (value << 1) | (value >> 7)
}

/// Circular right rotate of a byte.
pub open spec fn spec_rrc(value: u8) -> u8 {
    (value >> 1) | (value << 7)
}

/// Left rotate through the carry flag: the old carry becomes bit 0.
pub open spec fn spec_rl(value: u8, carry: bool) -> u8 {
    (value << 1) | (if carry {
        1u8
    } else {
        0u8
    })
}

/// Right rotate through the carry flag: the old carry becomes bit 7.
pub open spec fn spec_rr(value: u8, carry: bool) -> u8 {
    (value >> 1) | (if carry {
        0x80u8
    } else {
        0u8
    })
}

/// Arithmetic shift left: bit 0 becomes zero.
pub open spec fn spec_sla(value: u8) -> u8 {
    value << 1
}

/// Arithmetic shift right: bit 7 is copied.
pub open spec fn spec_sra(value: u8) -> u8 {
    (value >> 1) | (value & 0x80)
}

/// Logical shift right: bit 7 becomes zero.
pub open spec fn spec_srl(value: u8) -> u8 {
    value >> 1
}

/// Swap of the two nibbles.
pub open spec fn spec_swap(value: u8) -> u8 {
    (value << 4) | (value >> 4)
}

/// The bit a rotate or shift pushes out: bit 0 going right, bit 7 going
/// left.
pub open spec fn spec_shift_out(value: u8, right: bool) -> bool {
    if right {
        value & 0x01 != 0
    } else {
        value & 0x80 != 0
    }
}

impl Cpu {
    /// The shared rotate: circular or through-carry, left or right. On
    /// the accumulator forms Z is forced clear; on the CB forms Z tracks
    /// the result. N and H clear, C takes the shifted-out bit.
    fn _rotate(&mut self, value: u8, circular: bool, right: bool, accumulator: bool) -> (r: u8)
        ensures
            r == if circular && !right {
                spec_rlc(value)
            } else if circular && right {
                spec_rrc(value)
            } else if !circular && !right {
                spec_rl(value, spec_carry_flag(old(self).f))
            } else {
                spec_rr(value, spec_carry_flag(old(self).f))
            },
            *final(self) == (Cpu {
                f: spec_flags(
                    if accumulator {
                        false
                    } else {
                        r == 0
                    },
                    false,
                    false,
                    spec_shift_out(value, right),
                ),
                ..*old(self)
            }),
    {
        let old_carry = self.get_flag(Flag::Carry);
        let carry = if right {
            value & 0x01 != 0
        } else {
            value & 0x80 != 0
        };

        let new_value = if circular && !right {
            (value << 1u8) | (value >> 7u8)
        } else if circular && right {
            (value >> 1u8) | (value << 7u8)
        } else if !circular && !right {
            (value << 1u8) | (if old_carry {
                1u8
            } else {
                0u8
            })
        } else {
            (value >> 1u8) | (if old_carry {
                0x80u8
            } else {
                0u8
            })
        };

        let zero = if accumulator {
            false
        } else {
            new_value == 0
        };

        self.set_flags(carry, false, false, zero);

        new_value
    }

    /// RLCA: circular left rotate of A; Z always cleared.
    pub fn rlca(&mut self) -> (cycles: u8)
        ensures
            *final(self) == (Cpu {
                a: spec_rlc(old(self).a),
                f: spec_flags(false, false, false, spec_shift_out(old(self).a, false)),
                ..*old(self)
            }),
            cycles == 1,
    {
        self.a = self._rotate(self.a, true, false, true);
        1
    }

    /// RRCA: circular right rotate of A; Z always cleared.
    pub fn rrca(&mut self) -> (cycles: u8)
        ensures
            *final(self) == (Cpu {
                a: spec_rrc(old(self).a),
                f: spec_flags(false, false, false, spec_shift_out(old(self).a, true)),
                ..*old(self)
            }),
            cycles == 1,
    {
        self.a = self._rotate(self.a, true, true, true);
        1
    }

    /// RRA: right rotate of A through carry; Z always cleared.
    pub fn rra(&mut self) -> (cycles: u8)
        ensures
            *final(self) == (Cpu {
                a: spec_rr(old(self).a, spec_carry_flag(old(self).f)),
                f: spec_flags(false, false, false, spec_shift_out(old(self).a, true)),
                ..*old(self)
            }),
            cycles == 1,
    {
        self.a = self._rotate(self.a, false, true, true);
        1
    }

    /// RLA: left rotate of A through carry; Z always cleared.
    pub fn rla(&mut self) -> (cycles: u8)
        ensures
            *final(self) == (Cpu {
                a: spec_rl(old(self).a, spec_carry_flag(old(self).f)),
                f: spec_flags(false, false, false, spec_shift_out(old(self).a, false)),
                ..*old(self)
            }),
            cycles == 1,
    {
        self.a = self._rotate(self.a, false, false, true);
        1
    }

    pub fn rlcr(&mut self, register: Register) -> (cycles: u8)
        ensures
            ({
                let value = spec_get_register(*old(self), register);
                *final(self) == spec_set_register(
                    Cpu {
                        f: spec_flags(
                            spec_rlc(value) == 0,
                            false,
                            false,
                            spec_shift_out(value, false),
                        ),
                        ..*old(self)
                    },
                    register,
                    spec_rlc(value),
                )
            }),
            cycles == 2,
    {
        let register_value = self.get_register(register);
        let new_value = self._rotate(register_value, true, false, false);
        self.set_register(register, new_value);
        2
    }

    pub fn rlc_hl_ind(&mut self, bus: &mut Bus) -> (cycles: u8)
        ensures
            ({
                let value = spec_bus_read8(old(bus)@, spec_hl(*old(self)));
                &&& *final(self) == (Cpu {
                    f: spec_flags(spec_rlc(value) == 0, false, false, spec_shift_out(value, false)),
                    ..*old(self)
                })
                &&& final(bus)@ == spec_bus_write8(old(bus)@, spec_hl(*old(self)), spec_rlc(value))
            }),
            cycles == 4,
    {
        let register_value = bus.read_from_8b(self.get_hl());
        let new_value = self._rotate(register_value, true, false, false);
        bus.write_to_8b(self.get_hl(), new_value);
        4
    }

    pub fn rrcr(&mut self, register: Register) -> (cycles: u8)
        ensures
            ({
                let value = spec_get_register(*old(self), register);
                *final(self) == spec_set_register(
                    Cpu {
                        f: spec_flags(
                            spec_rrc(value) == 0,
                            false,
                            false,
                            spec_shift_out(value, true),
                        ),
                        ..*old(self)
                    },
                    register,
                    spec_rrc(value),
                )
            }),
            cycles == 2,
    {
        let register_value = self.get_register(register);
        let new_value = self._rotate(register_value, true, true, false);
        self.set_register(register, new_value);
        2
    }

    pub fn rrc_hl_ind(&mut self, bus: &mut Bus) -> (cycles: u8)
        ensures
            ({
                let value = spec_bus_read8(old(bus)@, spec_hl(*old(self)));
                &&& *final(self) == (Cpu {
                    f: spec_flags(spec_rrc(value) == 0, false, false, spec_shift_out(value, true)),
                    ..*old(self)
                })
                &&& final(bus)@ == spec_bus_write8(old(bus)@, spec_hl(*old(self)), spec_rrc(value))
            }),
            cycles == 4,
    {
        let register_value = bus.read_from_8b(self.get_hl());
        let new_value = self._rotate(register_value, true, true, false);
        bus.write_to_8b(self.get_hl(), new_value);
        4
    }

    pub fn rrr(&mut self, register: Register) -> (cycles: u8)
        ensures
            ({
                let value = spec_get_register(*old(self), register);
                let rotated = spec_rr(value, spec_carry_flag(old(self).f));
                *final(self) == spec_set_register(
                    Cpu {
                        f: spec_flags(rotated == 0, false, false, spec_shift_out(value, true)),
                        ..*old(self)
                    },
                    register,
                    rotated,
                )
            }),
            cycles == 2,
    {
        let register_value = self.get_register(register);
        let new_value = self._rotate(register_value, false, true, false);
        self.set_register(register, new_value);
        2
    }

    pub fn rlr(&mut self, register: Register) -> (cycles: u8)
        ensures
            ({
                let value = spec_get_register(*old(self), register);
                let rotated = spec_rl(value, spec_carry_flag(old(self).f));
                *final(self) == spec_set_register(
                    Cpu {
                        f: spec_flags(rotated == 0, false, false, spec_shift_out(value, false)),
                        ..*old(self)
                    },
                    register,
                    rotated,
                )
            }),
            cycles == 2,
    {
        let register_value = self.get_register(register);
        let new_value = self._rotate(register_value, false, false, false);
        self.set_register(register, new_value);
        2
    }

    pub fn rr_hl_ind(&mut self, bus: &mut Bus) -> (cycles: u8)
        ensures
            ({
                let value = spec_bus_read8(old(bus)@, spec_hl(*old(self)));
                let rotated = spec_rr(value, spec_carry_flag(old(self).f));
                &&& *final(self) == (Cpu {
                    f: spec_flags(rotated == 0, false, false, spec_shift_out(value, true)),
                    ..*old(self)
                })
                &&& final(bus)@ == spec_bus_write8(old(bus)@, spec_hl(*old(self)), rotated)
            }),
            cycles == 4,
    {
        let register_value = bus.read_from_8b(self.get_hl());
        let new_value = self._rotate(register_value, false, true, false);
        bus.write_to_8b(self.get_hl(), new_value);
        4
    }

    pub fn rl_hl_ind(&mut self, bus: &mut Bus) -> (cycles: u8)
        ensures
            ({
                let value = spec_bus_read8(old(bus)@, spec_hl(*old(self)));
                let rotated = spec_rl(value, spec_carry_flag(old(self).f));
                &&& *final(self) == (Cpu {
                    f: spec_flags(rotated == 0, false, false, spec_shift_out(value, false)),
                    ..*old(self)
                })
                &&& final(bus)@ == spec_bus_write8(old(bus)@, spec_hl(*old(self)), rotated)
            }),
            cycles == 4,
    {
        let register_value = bus.read_from_8b(self.get_hl());
        let new_value = self._rotate(register_value, false, false, false);
        bus.write_to_8b(self.get_hl(), new_value);
        4
    }

    /// The shared arithmetic shift (SLA left, SRA right).
    fn _sa(&mut self, value: u8, right: bool) -> (r: u8)
        ensures
            r == if right {
                spec_sra(value)
            } else {
                spec_sla(value)
            },
            *final(self) == (Cpu {
                f: spec_flags(r == 0, false, false, spec_shift_out(value, right)),
                ..*old(self)
            }),
    {
        let msb = value & 0x80;
        let lsb = value & 0x01;

        let carry = if right {
            lsb != 0
        } else {
            msb != 0
        };
        let new_value = if right {
            (value >> 1u8) | msb
        } else {
            value << 1u8
        };

        self.set_flags(carry, false, false, new_value == 0);

        new_value
    }

    pub fn srar(&mut self, register: Register) -> (cycles: u8)
        ensures
            ({
                let value = spec_get_register(*old(self), register);
                *final(self) == spec_set_register(
                    Cpu {
                        f: spec_flags(
                            spec_sra(value) == 0,
                            false,
                            false,
                            spec_shift_out(value, true),
                        ),
                        ..*old(self)
                    },
                    register,
                    spec_sra(value),
                )
            }),
            cycles == 2,
    {
        let register_value = self.get_register(register);
        let new_value = self._sa(register_value, true);
        self.set_register(register, new_value);
        2
    }

    pub fn sra_hl_ind(&mut self, bus: &mut Bus) -> (cycles: u8)
        ensures
            ({
                let value = spec_bus_read8(old(bus)@, spec_hl(*old(self)));
                &&& *final(self) == (Cpu {
                    f: spec_flags(spec_sra(value) == 0, false, false, spec_shift_out(value, true)),
                    ..*old(self)
                })
                &&& final(bus)@ == spec_bus_write8(old(bus)@, spec_hl(*old(self)), spec_sra(value))
            }),
            cycles == 4,
    {
        let register_value = bus.read_from_8b(self.get_hl());
        let new_value = self._sa(register_value, true);
        bus.write_to_8b(self.get_hl(), new_value);
        4
    }

    pub fn slar(&mut self, register: Register) -> (cycles: u8)
        ensures
            ({
                let value = spec_get_register(*old(self), register);
                *final(self) == spec_set_register(
                    Cpu {
                        f: spec_flags(
                            spec_sla(value) == 0,
                            false,
                            false,
                            spec_shift_out(value, false),
                        ),
                        ..*old(self)
                    },
                    register,
                    spec_sla(value),
                )
            }),
            cycles == 2,
    {
        let register_value = self.get_register(register);
        let new_value = self._sa(register_value, false);
        self.set_register(register, new_value);
        2
    }

    pub fn sla_hl_ind(&mut self, bus: &mut Bus) -> (cycles: u8)
        ensures
            ({
                let value = spec_bus_read8(old(bus)@, spec_hl(*old(self)));
                &&& *final(self) == (Cpu {
                    f: spec_flags(spec_sla(value) == 0, false, false, spec_shift_out(value, false)),
                    ..*old(self)
                })
                &&& final(bus)@ == spec_bus_write8(old(bus)@, spec_hl(*old(self)), spec_sla(value))
            }),
            cycles == 4,
    {
        let register_value = bus.read_from_8b(self.get_hl());
        let new_value = self._sa(register_value, false);
        bus.write_to_8b(self.get_hl(), new_value);
        4
    }

    /// The shared logical shift; only the right form reaches the decoder.
    fn _sl(&mut self, value: u8, right: bool) -> (r: u8)
        ensures
            r == if right {
                spec_srl(value)
            } else {
                spec_sla(value)
            },
            *final(self) == (Cpu {
                f: spec_flags(r == 0, false, false, spec_shift_out(value, right)),
                ..*old(self)
            }),
    {
        let msb = value & 0x80;
        let lsb = value & 0x01;

        let carry = if right {
            lsb != 0
        } else {
            msb != 0
        };
        let new_value = if right {
            value >> 1u8
        } else {
            value << 1u8
        };

        self.set_flags(carry, false, false, new_value == 0);

        new_value
    }

    pub fn srlr(&mut self, register: Register) -> (cycles: u8)
        ensures
            ({
                let value = spec_get_register(*old(self), register);
                *final(self) == spec_set_register(
                    Cpu {
                        f: spec_flags(
                            spec_srl(value) == 0,
                            false,
                            false,
                            spec_shift_out(value, true),
                        ),
                        ..*old(self)
                    },
                    register,
                    spec_srl(value),
                )
            }),
            cycles == 2,
    {
        let register_value = self.get_register(register);
        let new_value = self._sl(register_value, true);
        self.set_register(register, new_value);
        2
    }

    pub fn srl_hl_ind(&mut self, bus: &mut Bus) -> (cycles: u8)
        ensures
            ({
                let value = spec_bus_read8(old(bus)@, spec_hl(*old(self)));
                &&& *final(self) == (Cpu {
                    f: spec_flags(spec_srl(value) == 0, false, false, spec_shift_out(value, true)),
                    ..*old(self)
                })
                &&& final(bus)@ == spec_bus_write8(old(bus)@, spec_hl(*old(self)), spec_srl(value))
            }),
            cycles == 4,
    {
        let register_value = bus.read_from_8b(self.get_hl());
        let new_value = self._sl(register_value, true);
        bus.write_to_8b(self.get_hl(), new_value);
        4
    }

    /// SWAP: exchange the nibbles; Z from the result, N, H, C cleared.
    fn _swap(&mut self, value: u8) -> (r: u8)
        ensures
            r == spec_swap(value),
            *final(self) == (Cpu {
                f: spec_flags(spec_swap(value) == 0, false, false, false),
                ..*old(self)
            }),
    {
        let new_value = (value << 4u8) | (value >> 4u8);

        self.set_flags(false, false, false, new_value == 0);

        new_value
    }

    pub fn swapr(&mut self, register: Register) -> (cycles: u8)
        ensures
            ({
                let value = spec_get_register(*old(self), register);
                *final(self) == spec_set_register(
                    Cpu {
                        f: spec_flags(spec_swap(value) == 0, false, false, false),
                        ..*old(self)
                    },
                    register,
                    spec_swap(value),
                )
            }),
            cycles == 2,
    {
        let register_value = self.get_register(register);
        let new_value = self._swap(register_value);
        self.set_register(register, new_value);
        2
    }

    pub fn swap_hl_ind(&mut self, bus: &mut Bus) -> (cycles: u8)
        ensures
            ({
                let value = spec_bus_read8(old(bus)@, spec_hl(*old(self)));
                &&& *final(self) == (Cpu {
                    f: spec_flags(spec_swap(value) == 0, false, false, false),
                    ..*old(self)
                })
                &&& final(bus)@ == spec_bus_write8(old(bus)@, spec_hl(*old(self)), spec_swap(value))
            }),
            cycles == 4,
    {
        let register_value = bus.read_from_8b(self.get_hl());
        let new_value = self._swap(register_value);
        bus.write_to_8b(self.get_hl(), new_value);
        4
    }

    /// BIT: Z is the complement of the tested bit; N clear, H set, C
    /// kept.
    fn _bit(&mut self, bit_position: u8, value: u8)
        requires
            bit_position < 8,
        ensures
            *final(self) == (Cpu {
                f: spec_flags(
                    !spec_get_bit(value, bit_position),
                    false,
                    true,
                    spec_carry_flag(old(self).f),
                ),
                ..*old(self)
            }),
    {
        let old_carry = self.get_flag(Flag::Carry);

        let bit_is_set = value & (1u8 << bit_position);

        self.set_flags(old_carry, true, false, bit_is_set == 0);
    }

    pub fn bitr(&mut self, bit_position: u8, register: Register) -> (cycles: u8)
        requires
            bit_position < 8,
        ensures
            *final(self) == (Cpu {
                f: spec_flags(
                    !spec_get_bit(spec_get_register(*old(self), register), bit_position),
                    false,
                    true,
                    spec_carry_flag(old(self).f),
                ),
                ..*old(self)
            }),
            cycles == 2,
    {
        let register_value = self.get_register(register);
        self._bit(bit_position, register_value);
        2
    }

    pub fn bit_hl_ind(&mut self, bit_position: u8, bus: &mut Bus) -> (cycles: u8)
        requires
            bit_position < 8,
        ensures
            *final(self) == (Cpu {
                f: spec_flags(
                    !spec_get_bit(spec_bus_read8(old(bus)@, spec_hl(*old(self))), bit_position),
                    false,
                    true,
                    spec_carry_flag(old(self).f),
                ),
                ..*old(self)
            }),
            final(bus)@ == old(bus)@,
            cycles == 3,
    {
        let register_value = bus.read_from_8b(self.get_hl());
        self._bit(bit_position, register_value);
        3
    }

    pub fn setr(&mut self, bit_position: u8, register: Register) -> (cycles: u8)
        requires
            bit_position < 8,
        ensures
            *final(self) == spec_set_register(
                *old(self),
                register,
                spec_modify_bit(spec_get_register(*old(self), register), bit_position, true),
            ),
            cycles == 2,
    {
        let register_value = self.get_register(register);
        let new_value = crate::bits::modify_bit(register_value, bit_position, true);
        self.set_register(register, new_value);
        2
    }

    pub fn set_hl_ind(&mut self, bit_position: u8, bus: &mut Bus) -> (cycles: u8)
        requires
            bit_position < 8,
        ensures
            *final(self) == *old(self),
            final(bus)@ == spec_bus_write8(
                old(bus)@,
                spec_hl(*old(self)),
                spec_modify_bit(
                    spec_bus_read8(old(bus)@, spec_hl(*old(self))),
                    bit_position,
                    true,
                ),
            ),
            cycles == 4,
    {
        let register_value = bus.read_from_8b(self.get_hl());
        let new_value = crate::bits::modify_bit(register_value, bit_position, true);
        bus.write_to_8b(self.get_hl(), new_value);
        4
    }

    pub fn resetr(&mut self, bit_position: u8, register: Register) -> (cycles: u8)
        requires
            bit_position < 8,
        ensures
            *final(self) == spec_set_register(
                *old(self),
                register,
                spec_modify_bit(spec_get_register(*old(self), register), bit_position, false),
            ),
            cycles == 2,
    {
        let register_value = self.get_register(register);
        let new_value = crate::bits::modify_bit(register_value, bit_position, false);
        self.set_register(register, new_value);
        2
    }

    pub fn reset_hl_ind(&mut self, bit_position: u8, bus: &mut Bus) -> (cycles: u8)
        requires
            bit_position < 8,
        ensures
            *final(self) == *old(self),
            final(bus)@ == spec_bus_write8(
                old(bus)@,
                spec_hl(*old(self)),
                spec_modify_bit(
                    spec_bus_read8(old(bus)@, spec_hl(*old(self))),
                    bit_position,
                    false,
                ),
            ),
            cycles == 4,
    {
        let register_value = bus.read_from_8b(self.get_hl());
        let new_value = crate::bits::modify_bit(register_value, bit_position, false);
        bus.write_to_8b(self.get_hl(), new_value);
        4
    }
}

/// Whether any of the five interrupt sources is both enabled and
/// pending.
pub open spec fn spec_has_pending(b: BusView) -> bool {
    spec_get_interrupt(spec_pending_mask(b)) is Some
}

impl Cpu {
    pub fn ld(&mut self, register_to: Register, register_from: Register) -> (cycles: u8)
        ensures
            *final(self) == spec_set_register(
                *old(self),
                register_to,
                spec_get_register(*old(self), register_from),
            ),
            cycles == 1,
    {
        let register_from_value = self.get_register(register_from);
        self.set_register(register_to, register_from_value);
        1
    }

    pub fn ld_imm(&mut self, register_to: Register, imm_value: u8) -> (cycles: u8)
        ensures
            *final(self) == spec_set_register(*old(self), register_to, imm_value),
            cycles == 2,
    {
        self.set_register(register_to, imm_value);
        2
    }

    pub fn ld_from_hl_ind(&mut self, register_to: Register, bus: &mut Bus) -> (cycles: u8)
        ensures
            *final(self) == spec_set_register(
                *old(self),
                register_to,
                spec_bus_read8(old(bus)@, spec_hl(*old(self))),
            ),
            final(bus)@ == old(bus)@,
            cycles == 2,
    {
        let bus_value = bus.read_from_8b(self.get_hl());
        self.set_register(register_to, bus_value);
        2
    }

    pub fn ld_to_hl_ind(&mut self, register_from: Register, bus: &mut Bus) -> (cycles: u8)
        ensures
            *final(self) == *old(self),
            final(bus)@ == spec_bus_write8(
                old(bus)@,
                spec_hl(*old(self)),
                spec_get_register(*old(self), register_from),
            ),
            cycles == 2,
    {
        let register_from_value = self.get_register(register_from);
        bus.write_to_8b(self.get_hl(), register_from_value);
        2
    }

    pub fn ld_to_hl_ind_imm(&mut self, value: u8, bus: &mut Bus) -> (cycles: u8)
        ensures
            *final(self) == *old(self),
            final(bus)@ == spec_bus_write8(old(bus)@, spec_hl(*old(self)), value),
            cycles == 3,
    {
        bus.write_to_8b(self.get_hl(), value);
        3
    }

    pub fn ld_from_bc_ind_to_a(&mut self, bus: &mut Bus) -> (cycles: u8)
        ensures
            *final(self) == (Cpu {
                a: spec_bus_read8(old(bus)@, spec_get_register16(*old(self), Register16::BC)),
                ..*old(self)
            }),
            final(bus)@ == old(bus)@,
            cycles == 2,
    {
        let bus_value = bus.read_from_8b(self.get_register_16(Register16::BC));
        self.a = bus_value;
        2
    }

    pub fn ld_from_de_ind_to_a(&mut self, bus: &mut Bus) -> (cycles: u8)
        ensures
            *final(self) == (Cpu {
                a: spec_bus_read8(old(bus)@, spec_get_register16(*old(self), Register16::DE)),
                ..*old(self)
            }),
            final(bus)@ == old(bus)@,
            cycles == 2,
    {
        let bus_value = bus.read_from_8b(self.get_register_16(Register16::DE));
        self.a = bus_value;
        2
    }

    pub fn ld_to_bc_ind_from_a(&mut self, bus: &mut Bus) -> (cycles: u8)
        ensures
            *final(self) == *old(self),
            final(bus)@ == spec_bus_write8(
                old(bus)@,
                spec_get_register16(*old(self), Register16::BC),
                old(self).a,
            ),
            cycles == 2,
    {
        bus.write_to_8b(self.get_register_16(Register16::BC), self.a);
        2
    }

    pub fn ld_to_de_ind_from_a(&mut self, bus: &mut Bus) -> (cycles: u8)
        ensures
            *final(self) == *old(self),
            final(bus)@ == spec_bus_write8(
                old(bus)@,
                spec_get_register16(*old(self), Register16::DE),
                old(self).a,
            ),
            cycles == 2,
    {
        bus.write_to_8b(self.get_register_16(Register16::DE), self.a);
        2
    }

    pub fn ld_from_imm_ind_to_a(&mut self, imm: u16, bus: &mut Bus) -> (cycles: u8)
        ensures
            *final(self) == (Cpu { a: spec_bus_read8(old(bus)@, imm), ..*old(self) }),
            final(bus)@ == old(bus)@,
            cycles == 4,
    {
        self.a = bus.read_from_8b(imm);
        4
    }

    pub fn ld_to_imm_ind_from_a(&mut self, imm: u16, bus: &mut Bus) -> (cycles: u8)
        ensures
            *final(self) == *old(self),
            final(bus)@ == spec_bus_write8(old(bus)@, imm, old(self).a),
            cycles == 4,
    {
        bus.write_to_8b(imm, self.a);
        4
    }

    pub fn ld_to_a_from_c_ind(&mut self, bus: &mut Bus) -> (cycles: u8)
        ensures
            *final(self) == (Cpu {
                a: spec_bus_read8(old(bus)@, (0xFF00 + old(self).c) as u16),
                ..*old(self)
            }),
            final(bus)@ == old(bus)@,
            cycles == 2,
    {
        let addr: u16 = 0xFF00 + (self.c as u16);
        self.a = bus.read_from_8b(addr);
        2
    }

    pub fn ld_from_a_to_c_ind(&mut self, bus: &mut Bus) -> (cycles: u8)
        ensures
            *final(self) == *old(self),
            final(bus)@ == spec_bus_write8(old(bus)@, (0xFF00 + old(self).c) as u16, old(self).a),
            cycles == 2,
    {
        let addr: u16 = 0xFF00 + (self.c as u16);
        bus.write_to_8b(addr, self.a);
        2
    }

    pub fn ld_from_imm_ind_to_a_8(&mut self, imm: u8, bus: &mut Bus) -> (cycles: u8)
        ensures
            *final(self) == (Cpu {
                a: spec_bus_read8(old(bus)@, (0xFF00 + imm) as u16),
                ..*old(self)
            }),
            final(bus)@ == old(bus)@,
            cycles == 3,
    {
        let addr: u16 = 0xFF00 + (imm as u16);
        self.a = bus.read_from_8b(addr);
        3
    }

    pub fn ld_to_imm_ind_from_a_8(&mut self, imm: u8, bus: &mut Bus) -> (cycles: u8)
        ensures
            *final(self) == *old(self),
            final(bus)@ == spec_bus_write8(old(bus)@, (0xFF00 + imm) as u16, old(self).a),
            cycles == 3,
    {
        let addr: u16 = 0xFF00 + (imm as u16);
        bus.write_to_8b(addr, self.a);
        3
    }

    pub fn ld_from_hl_ind_dec_to_a(&mut self, bus: &mut Bus) -> (cycles: u8)
        ensures
            ({
                let next_hl = wrap16(spec_hl(*old(self)) - 1);
                *final(self) == (Cpu {
                    a: spec_bus_read8(old(bus)@, spec_hl(*old(self))),
                    h: (next_hl / 256) as u8,
                    l: (next_hl % 256) as u8,
                    ..*old(self)
                })
            }),
            final(bus)@ == old(bus)@,
            cycles == 2,
    {
        let hl: u16 = self.get_hl();
        self.a = bus.read_from_8b(hl);
        self.set_hl(crate::word::wrapping_sub16(hl, 1));
        2
    }

    pub fn ld_to_hl_ind_dec_from_a(&mut self, bus: &mut Bus) -> (cycles: u8)
        ensures
            ({
                let next_hl = wrap16(spec_hl(*old(self)) - 1);
                *final(self) == (Cpu {
                    h: (next_hl / 256) as u8,
                    l: (next_hl % 256) as u8,
                    ..*old(self)
                })
            }),
            final(bus)@ == spec_bus_write8(old(bus)@, spec_hl(*old(self)), old(self).a),
            cycles == 2,
    {
        let hl: u16 = self.get_hl();
        bus.write_to_8b(hl, self.a);
        self.set_hl(crate::word::wrapping_sub16(hl, 1));
        2
    }

    pub fn ld_from_hl_ind_inc_to_a(&mut self, bus: &mut Bus) -> (cycles: u8)
        ensures
            ({
                let next_hl = wrap16(spec_hl(*old(self)) + 1);
                *final(self) == (Cpu {
                    a: spec_bus_read8(old(bus)@, spec_hl(*old(self))),
                    h: (next_hl / 256) as u8,
                    l: (next_hl % 256) as u8,
                    ..*old(self)
                })
            }),
            final(bus)@ == old(bus)@,
            cycles == 2,
    {
        let hl: u16 = self.get_hl();
        self.a = bus.read_from_8b(hl);
        self.set_hl(crate::word::wrapping_add16(hl, 1));
        2
    }

    pub fn ld_to_hl_ind_inc_from_a(&mut self, bus: &mut Bus) -> (cycles: u8)
        ensures
            ({
                let next_hl = wrap16(spec_hl(*old(self)) + 1);
                *final(self) == (Cpu {
                    h: (next_hl / 256) as u8,
                    l: (next_hl % 256) as u8,
                    ..*old(self)
                })
            }),
            final(bus)@ == spec_bus_write8(old(bus)@, spec_hl(*old(self)), old(self).a),
            cycles == 2,
    {
        let hl: u16 = self.get_hl();
        bus.write_to_8b(hl, self.a);
        self.set_hl(crate::word::wrapping_add16(hl, 1));
        2
    }

    pub fn ld_imm_16(&mut self, register_to: Register16, imm_value: u16) -> (cycles: u8)
        ensures
            *final(self) == spec_set_register16(*old(self), register_to, imm_value),
            cycles == 3,
    {
        self.set_register_16(register_to, imm_value);
        3
    }

    pub fn ld_to_imm_ind_from_sp(&mut self, imm_value: u16, bus: &mut Bus) -> (cycles: u8)
        ensures
            *final(self) == *old(self),
            final(bus)@ == spec_bus_write16(old(bus)@, imm_value, old(self).sp),
            cycles == 5,
    {
        bus.write_to_16b(imm_value, self.sp);
        5
    }

    pub fn ld_sp_from_hl(&mut self) -> (cycles: u8)
        ensures
            *final(self) == (Cpu { sp: spec_hl(*old(self)), ..*old(self) }),
            cycles == 2,
    {
        self.sp = self.get_hl();
        2
    }

    /// PUSH: SP moves down by two and the pair is stored little-endian at
    /// the new SP (AF reads with F's low nibble already masked).
    pub fn push(&mut self, register_from: Register16, bus: &mut Bus) -> (cycles: u8)
        ensures
            *final(self) == (Cpu { sp: wrap16(old(self).sp - 2), ..*old(self) }),
            final(bus)@ == spec_bus_write16(
                old(bus)@,
                wrap16(old(self).sp - 2),
                spec_get_register16(*old(self), register_from),
            ),
            cycles == 4,
    {
        let register_value = self.get_register_16(register_from);
        self.push_to_stack_16b(register_value, bus);
        4
    }

    /// POP: the pair is loaded little-endian from SP and SP moves up by
    /// two (a pop into AF masks the low nibble of F).
    pub fn pop(&mut self, register: Register16, bus: &mut Bus) -> (cycles: u8)
        ensures
            *final(self) == spec_set_register16(
                Cpu { sp: wrap16(old(self).sp + 2), ..*old(self) },
                register,
                spec_bus_read16(old(bus)@, old(self).sp),
            ),
            final(bus)@ == old(bus)@,
            cycles == 3,
    {
        let stack_value = self.pop_from_stack_16b(bus);
        self.set_register_16(register, stack_value);
        3
    }

    pub fn nop(&self) -> (cycles: u8)
        ensures
            cycles == 1,
    {
        1
    }

    pub fn jp(&mut self, addr: u16) -> (cycles: u8)
        ensures
            *final(self) == (Cpu { pc: addr, ..*old(self) }),
            cycles == 4,
    {
        self.pc = addr;
        4
    }

    pub fn jp_hl(&mut self) -> (cycles: u8)
        ensures
            *final(self) == (Cpu { pc: spec_hl(*old(self)), ..*old(self) }),
            cycles == 1,
    {
        self.pc = self.get_hl();
        1
    }

    pub fn jp_cc(&mut self, cond: FlowCondition, addr: u16) -> (cycles: u8)
        ensures
            *final(self) == if spec_condition(*old(self), cond) {
                Cpu { pc: addr, ..*old(self) }
            } else {
                *old(self)
            },
            cycles == if spec_condition(*old(self), cond) {
                4u8
            } else {
                3u8
            },
    {
        if self.evaluate_flow_condition(cond) {
            self.jp(addr);
            4
        } else {
            3
        }
    }

    /// JR: PC moves by the signed byte, from the address after the
    /// two-byte instruction.
    pub fn jr(&mut self, imm: i8) -> (cycles: u8)
        ensures
            *final(self) == (Cpu { pc: wrap16(old(self).pc + imm), ..*old(self) }),
            cycles == 3,
    {
        self.pc = crate::word::wrapping_add_signed16(self.pc, imm);
        3
    }

    pub fn jr_cc(&mut self, cond: FlowCondition, imm: i8) -> (cycles: u8)
        ensures
            *final(self) == if spec_condition(*old(self), cond) {
                Cpu { pc: wrap16(old(self).pc + imm), ..*old(self) }
            } else {
                *old(self)
            },
            cycles == if spec_condition(*old(self), cond) {
                3u8
            } else {
                2u8
            },
    {
        if self.evaluate_flow_condition(cond) {
            self.jr(imm);
            3
        } else {
            2
        }
    }

    /// CALL: push the address of the next instruction (PC has already
    /// been advanced over the CALL), then jump.
    pub fn call(&mut self, addr: u16, bus: &mut Bus) -> (cycles: u8)
        ensures
            *final(self) == (Cpu { sp: wrap16(old(self).sp - 2), pc: addr, ..*old(self) }),
            final(bus)@ == spec_bus_write16(old(bus)@, wrap16(old(self).sp - 2), old(self).pc),
            cycles == 6,
    {
        self.push_to_stack_16b(self.pc, bus);
        self.pc = addr;
        6
    }

    pub fn call_cc(&mut self, cond: FlowCondition, addr: u16, bus: &mut Bus) -> (cycles: u8)
        ensures
            *final(self) == if spec_condition(*old(self), cond) {
                Cpu { sp: wrap16(old(self).sp - 2), pc: addr, ..*old(self) }
            } else {
                *old(self)
            },
            final(bus)@ == if spec_condition(*old(self), cond) {
                spec_bus_write16(old(bus)@, wrap16(old(self).sp - 2), old(self).pc)
            } else {
                old(bus)@
            },
            cycles == if spec_condition(*old(self), cond) {
                6u8
            } else {
                3u8
            },
    {
        if self.evaluate_flow_condition(cond) {
            self.call(addr, bus);
            6
        } else {
            3
        }
    }

    /// RET: pop the return address into PC.
    pub fn ret(&mut self, bus: &mut Bus) -> (cycles: u8)
        ensures
            *final(self) == (Cpu {
                sp: wrap16(old(self).sp + 2),
                pc: spec_bus_read16(old(bus)@, old(self).sp),
                ..*old(self)
            }),
            final(bus)@ == old(bus)@,
            cycles == 4,
    {
        self.pc = self.pop_from_stack_16b(bus);
        4
    }

    pub fn ret_cc(&mut self, cond: FlowCondition, bus: &mut Bus) -> (cycles: u8)
        ensures
            *final(self) == if spec_condition(*old(self), cond) {
                Cpu {
                    sp: wrap16(old(self).sp + 2),
                    pc: spec_bus_read16(old(bus)@, old(self).sp),
                    ..*old(self)
                }
            } else {
                *old(self)
            },
            final(bus)@ == old(bus)@,
            cycles == if spec_condition(*old(self), cond) {
                5u8
            } else {
                2u8
            },
    {
        if self.evaluate_flow_condition(cond) {
            self.ret(bus);
            5
        } else {
            2
        }
    }

    /// RETI: return and enable interrupts immediately.
    pub fn ret_i(&mut self, bus: &mut Bus) -> (cycles: u8)
        ensures
            *final(self) == (Cpu {
                sp: wrap16(old(self).sp + 2),
                pc: spec_bus_read16(old(bus)@, old(self).sp),
                ime: true,
                ..*old(self)
            }),
            final(bus)@ == old(bus)@,
            cycles == 4,
    {
        self.ret(bus);
        self.ime = true;
        4
    }

    /// RST: call the fixed target `addr * 8`.
    pub fn rst(&mut self, addr: u8, bus: &mut Bus) -> (cycles: u8)
        requires
            addr < 8,
        ensures
            *final(self) == (Cpu {
                sp: wrap16(old(self).sp - 2),
                pc: (addr * 8) as u16,
                ..*old(self)
            }),
            final(bus)@ == spec_bus_write16(old(bus)@, wrap16(old(self).sp - 2), old(self).pc),
            cycles == 4,
    {
        self.push_to_stack_16b(self.pc, bus);
        self.pc = (addr as u16) * 8;
        4
    }

    /// HALT: enter the halted state, unless interrupts are disabled with
    /// one already pending — then the halt bug arms instead and the next
    /// fetch will not advance PC.
    pub fn halt(&mut self, bus: &Bus) -> (cycles: u8)
        ensures
            *final(self) == if spec_has_pending(bus@) && !old(self).ime {
                Cpu { halted: false, halt_bug: true, ..*old(self) }
            } else {
                Cpu { halted: true, ..*old(self) }
            },
            cycles == 1,
    {
        if self.is_interrupt_pending(bus) && !self.ime {
            self.halted = false;
            self.halt_bug = true;
        } else {
            self.halted = true;
        }
        1
    }

    /// STOP behaves as HALT in this core.
    pub fn stop(&mut self, bus: &Bus) -> (cycles: u8)
        ensures
            *final(self) == if spec_has_pending(bus@) && !old(self).ime {
                Cpu { halted: false, halt_bug: true, ..*old(self) }
            } else {
                Cpu { halted: true, ..*old(self) }
            },
            cycles == 1,
    {
        if self.is_interrupt_pending(bus) && !self.ime {
            self.halted = false;
            self.halt_bug = true;
        } else {
            self.halted = true;
        }
        1
    }

    /// DI: disable interrupt dispatch at once.
    pub fn di(&mut self) -> (cycles: u8)
        ensures
            *final(self) == (Cpu { ime: false, ..*old(self) }),
            cycles == 1,
    {
        self.ime = false;
        1
    }

    /// EI: arm the one-instruction-delayed interrupt enable.
    pub fn ei(&mut self) -> (cycles: u8)
        ensures
            *final(self) == (Cpu { ei_pending: true, ..*old(self) }),
            cycles == 1,
    {
        self.ei_pending = true;
        1
    }

    fn is_interrupt_pending(&self, bus: &Bus) -> (r: bool)
        ensures
            r == spec_has_pending(bus@),
    {
        bus.get_interrupt().is_some()
    }
}

/// Execute relation for the load, stack and SP-adjust instructions.
pub open spec fn spec_execute_post_loads(
    c0: Cpu,
    b0: BusView,
    instruction: Instruction,
    c1: Cpu,
    b1: BusView,
    cycles: u8,
) -> bool {
    match instruction {
        Instruction::LD(d, s) => c1 == spec_set_register(c0, d, spec_get_register(c0, s)) && b1
            == b0 && cycles == 1,
        Instruction::LDImm(r, v) => c1 == spec_set_register(c0, r, v) && b1 == b0 && cycles == 2,
        Instruction::LDFromHLInd(r) => c1 == spec_set_register(
            c0,
            r,
            spec_bus_read8(b0, spec_hl(c0)),
        ) && b1 == b0 && cycles == 2,
        Instruction::LDToHLInd(r) => c1 == c0 && b1 == spec_bus_write8(
            b0,
            spec_hl(c0),
            spec_get_register(c0, r),
        ) && cycles == 2,
        Instruction::LDToHlIndImm(v) => c1 == c0 && b1 == spec_bus_write8(b0, spec_hl(c0), v)
            && cycles == 3,
        Instruction::LDFromBCIndToA() => c1 == (Cpu {
            a: spec_bus_read8(b0, spec_get_register16(c0, Register16::BC)),
            ..c0
        }) && b1 == b0 && cycles == 2,
        Instruction::LDFromDEIndToA() => c1 == (Cpu {
            a: spec_bus_read8(b0, spec_get_register16(c0, Register16::DE)),
            ..c0
        }) && b1 == b0 && cycles == 2,
        Instruction::LDToBCIndFromA() => c1 == c0 && b1 == spec_bus_write8(
            b0,
            spec_get_register16(c0, Register16::BC),
            c0.a,
        ) && cycles == 2,
        Instruction::LDToDEIndFromA() => c1 == c0 && b1 == spec_bus_write8(
            b0,
            spec_get_register16(c0, Register16::DE),
            c0.a,
        ) && cycles == 2,
        Instruction::LDFromImmIndToA(imm) => c1 == (Cpu { a: spec_bus_read8(b0, imm), ..c0 }) && b1
            == b0 && cycles == 4,
        Instruction::LDToImmIndFromA(imm) => c1 == c0 && b1 == spec_bus_write8(b0, imm, c0.a)
            && cycles == 4,
        Instruction::LDToAFromCInd() => c1 == (Cpu {
            a: spec_bus_read8(b0, (0xFF00 + c0.c) as u16),
            ..c0
        }) && b1 == b0 && cycles == 2,
        Instruction::LDFromAToCInd() => c1 == c0 && b1 == spec_bus_write8(
            b0,
            (0xFF00 + c0.c) as u16,
            c0.a,
        ) && cycles == 2,
        Instruction::LDFromImmIndToA8(imm) => c1 == (Cpu {
            a: spec_bus_read8(b0, (0xFF00 + imm) as u16),
            ..c0
        }) && b1 == b0 && cycles == 3,
        Instruction::LDToImmIndFromA8(imm) => c1 == c0 && b1 == spec_bus_write8(
            b0,
            (0xFF00 + imm) as u16,
            c0.a,
        ) && cycles == 3,
        Instruction::LDFromHLIndDecToA() => ({
            let next_hl = wrap16(spec_hl(c0) - 1);
            c1 == (Cpu {
                a: spec_bus_read8(b0, spec_hl(c0)),
                h: (next_hl / 256) as u8,
                l: (next_hl % 256) as u8,
                ..c0
            }) && b1 == b0 && cycles == 2
        }),
        Instruction::LDToHLIndDecFromA() => ({
            let next_hl = wrap16(spec_hl(c0) - 1);
            c1 == (Cpu { h: (next_hl / 256) as u8, l: (next_hl % 256) as u8, ..c0 }) && b1
                == spec_bus_write8(b0, spec_hl(c0), c0.a) && cycles == 2
        }),
        Instruction::LDFromHLIndIncToA() => ({
            let next_hl = wrap16(spec_hl(c0) + 1);
            c1 == (Cpu {
                a: spec_bus_read8(b0, spec_hl(c0)),
                h: (next_hl / 256) as u8,
                l: (next_hl % 256) as u8,
                ..c0
            }) && b1 == b0 && cycles == 2
        }),
        Instruction::LDToHLIndIncFromA() => ({
            let next_hl = wrap16(spec_hl(c0) + 1);
            c1 == (Cpu { h: (next_hl / 256) as u8, l: (next_hl % 256) as u8, ..c0 }) && b1
                == spec_bus_write8(b0, spec_hl(c0), c0.a) && cycles == 2
        }),
        Instruction::LDImm16(rr, v) => c1 == spec_set_register16(c0, rr, v) && b1 == b0 && cycles
            == 3,
        Instruction::LDToImmIndFromSP(imm) => c1 == c0 && b1 == spec_bus_write16(b0, imm, c0.sp)
            && cycles == 5,
        Instruction::LDSPFromHL() => c1 == (Cpu { sp: spec_hl(c0), ..c0 }) && b1 == b0 && cycles
            == 2,
        Instruction::PUSH(rr) => c1 == (Cpu { sp: wrap16(c0.sp - 2), ..c0 }) && b1
            == spec_bus_write16(b0, wrap16(c0.sp - 2), spec_get_register16(c0, rr)) && cycles == 4,
        Instruction::POP(rr) => c1 == spec_set_register16(
            Cpu { sp: wrap16(c0.sp + 2), ..c0 },
            rr,
            spec_bus_read16(b0, c0.sp),
        ) && b1 == b0 && cycles == 3,
        Instruction::LDHLFromAdjustedSP(d) => ({
            let adjusted = wrap16(c0.sp + d);
            c1 == (Cpu {
                h: (adjusted / 256) as u8,
                l: (adjusted % 256) as u8,
                f: spec_sp_adjust_flags(c0.sp, d),
                ..c0
            }) && b1 == b0 && cycles == 3
        }),
        _ => false,
    }
}

/// Execute relation for the arithmetic and logic instructions.
pub open spec fn spec_execute_post_arith(
    c0: Cpu,
    b0: BusView,
    instruction: Instruction,
    c1: Cpu,
    b1: BusView,
    cycles: u8,
) -> bool {
    match instruction {
        Instruction::ADD(r) => c1 == (Cpu {
            a: spec_add8(c0.a, spec_get_register(c0, r), 0),
            f: spec_add_flags(c0.a, spec_get_register(c0, r), 0),
            ..c0
        }) && b1 == b0 && cycles == 1,
        Instruction::ADDHLInd() => c1 == (Cpu {
            a: spec_add8(c0.a, spec_bus_read8(b0, spec_hl(c0)), 0),
            f: spec_add_flags(c0.a, spec_bus_read8(b0, spec_hl(c0)), 0),
            ..c0
        }) && b1 == b0 && cycles == 2,
        Instruction::ADDImm(v) => c1 == (Cpu {
            a: spec_add8(c0.a, v, 0),
            f: spec_add_flags(c0.a, v, 0),
            ..c0
        }) && b1 == b0 && cycles == 2,
        Instruction::ADDC(r) => c1 == (Cpu {
            a: spec_add8(c0.a, spec_get_register(c0, r), spec_carry_in(c0.f)),
            f: spec_add_flags(c0.a, spec_get_register(c0, r), spec_carry_in(c0.f)),
            ..c0
        }) && b1 == b0 && cycles == 1,
        Instruction::ADDCHLInd() => c1 == (Cpu {
            a: spec_add8(c0.a, spec_bus_read8(b0, spec_hl(c0)), spec_carry_in(c0.f)),
            f: spec_add_flags(c0.a, spec_bus_read8(b0, spec_hl(c0)), spec_carry_in(c0.f)),
            ..c0
        }) && b1 == b0 && cycles == 2,
        Instruction::ADDCImm(v) => c1 == (Cpu {
            a: spec_add8(c0.a, v, spec_carry_in(c0.f)),
            f: spec_add_flags(c0.a, v, spec_carry_in(c0.f)),
            ..c0
        }) && b1 == b0 && cycles == 2,
        Instruction::SUB(r) => c1 == (Cpu {
            a: spec_sub8(c0.a, spec_get_register(c0, r), 0),
            f: spec_sub_flags(c0.a, spec_get_register(c0, r), 0),
            ..c0
        }) && b1 == b0 && cycles == 1,
        Instruction::SUBHLInd() => c1 == (Cpu {
            a: spec_sub8(c0.a, spec_bus_read8(b0, spec_hl(c0)), 0),
            f: spec_sub_flags(c0.a, spec_bus_read8(b0, spec_hl(c0)), 0),
            ..c0
        }) && b1 == b0 && cycles == 2,
        Instruction::SUBImm(v) => c1 == (Cpu {
            a: spec_sub8(c0.a, v, 0),
            f: spec_sub_flags(c0.a, v, 0),
            ..c0
        }) && b1 == b0 && cycles == 2,
        Instruction::SUBC(r) => c1 == (Cpu {
            a: spec_sub8(c0.a, spec_get_register(c0, r), spec_carry_in(c0.f)),
            f: spec_sub_flags(c0.a, spec_get_register(c0, r), spec_carry_in(c0.f)),
            ..c0
        }) && b1 == b0 && cycles == 1,
        Instruction::SUBCHLInd() => c1 == (Cpu {
            a: spec_sub8(c0.a, spec_bus_read8(b0, spec_hl(c0)), spec_carry_in(c0.f)),
            f: spec_sub_flags(c0.a, spec_bus_read8(b0, spec_hl(c0)), spec_carry_in(c0.f)),
            ..c0
        }) && b1 == b0 && cycles == 2,
        Instruction::SUBCImm(v) => c1 == (Cpu {
            a: spec_sub8(c0.a, v, spec_carry_in(c0.f)),
            f: spec_sub_flags(c0.a, v, spec_carry_in(c0.f)),
            ..c0
        }) && b1 == b0 && cycles == 2,
        Instruction::CP(r) => c1 == (Cpu {
            f: spec_sub_flags(c0.a, spec_get_register(c0, r), 0),
            ..c0
        }) && b1 == b0 && cycles == 1,
        Instruction::CPHLInd() => c1 == (Cpu {
            f: spec_sub_flags(c0.a, spec_bus_read8(b0, spec_hl(c0)), 0),
            ..c0
        }) && b1 == b0 && cycles == 2,
        Instruction::CPImm(v) => c1 == (Cpu { f: spec_sub_flags(c0.a, v, 0), ..c0 }) && b1 == b0
            && cycles == 2,
        Instruction::INC(r) => ({
            let value = spec_get_register(c0, r);
            let new_value = wrap8(value + 1);
            c1 == spec_set_register(
                Cpu {
                    f: spec_flags(
                        new_value == 0,
                        false,
                        (value & 0x0F) + 1 > 0x0F,
                        spec_carry_flag(c0.f),
                    ),
                    ..c0
                },
                r,
                new_value,
            ) && b1 == b0 && cycles == 1
        }),
        Instruction::INCHLInd() => ({
            let value = spec_bus_read8(b0, spec_hl(c0));
            let new_value = wrap8(value + 1);
            c1 == (Cpu {
                f: spec_flags(
                    new_value == 0,
                    false,
                    (value & 0x0F) + 1 > 0x0F,
                    spec_carry_flag(c0.f),
                ),
                ..c0
            }) && b1 == spec_bus_write8(b0, spec_hl(c0), new_value) && cycles == 3
        }),
        Instruction::DEC(r) => ({
            let value = spec_get_register(c0, r);
            let new_value = wrap8(value - 1);
            c1 == spec_set_register(
                Cpu {
                    f: spec_flags(new_value == 0, true, value & 0x0F == 0, spec_carry_flag(c0.f)),
                    ..c0
                },
                r,
                new_value,
            ) && b1 == b0 && cycles == 1
        }),
        Instruction::DECHLInd() => ({
            let value = spec_bus_read8(b0, spec_hl(c0));
            let new_value = wrap8(value - 1);
            c1 == (Cpu {
                f: spec_flags(new_value == 0, true, value & 0x0F == 0, spec_carry_flag(c0.f)),
                ..c0
            }) && b1 == spec_bus_write8(b0, spec_hl(c0), new_value) && cycles == 3
        }),
        Instruction::AND(r) => c1 == (Cpu {
            a: c0.a & spec_get_register(c0, r),
            f: spec_flags(c0.a & spec_get_register(c0, r) == 0, false, true, false),
            ..c0
        }) && b1 == b0 && cycles == 1,
        Instruction::ANDHLInd() => c1 == (Cpu {
            a: c0.a & spec_bus_read8(b0, spec_hl(c0)),
            f: spec_flags(c0.a & spec_bus_read8(b0, spec_hl(c0)) == 0, false, true, false),
            ..c0
        }) && b1 == b0 && cycles == 2,
        Instruction::ANDImm(v) => c1 == (Cpu {
            a: c0.a & v,
            f: spec_flags(c0.a & v == 0, false, true, false),
            ..c0
        }) && b1 == b0 && cycles == 2,
        Instruction::OR(r) => c1 == (Cpu {
            a: c0.a | spec_get_register(c0, r),
            f: spec_flags(c0.a | spec_get_register(c0, r) == 0, false, false, false),
            ..c0
        }) && b1 == b0 && cycles == 1,
        Instruction::ORHLInd() => c1 == (Cpu {
            a: c0.a | spec_bus_read8(b0, spec_hl(c0)),
            f: spec_flags(c0.a | spec_bus_read8(b0, spec_hl(c0)) == 0, false, false, false),
            ..c0
        }) && b1 == b0 && cycles == 2,
        Instruction::ORImm(v) => c1 == (Cpu {
            a: c0.a | v,
            f: spec_flags(c0.a | v == 0, false, false, false),
            ..c0
        }) && b1 == b0 && cycles == 2,
        Instruction::XOR(r) => c1 == (Cpu {
            a: c0.a ^ spec_get_register(c0, r),
            f: spec_flags(c0.a ^ spec_get_register(c0, r) == 0, false, false, false),
            ..c0
        }) && b1 == b0 && cycles == 1,
        Instruction::XORHLInd() => c1 == (Cpu {
            a: c0.a ^ spec_bus_read8(b0, spec_hl(c0)),
            f: spec_flags(c0.a ^ spec_bus_read8(b0, spec_hl(c0)) == 0, false, false, false),
            ..c0
        }) && b1 == b0 && cycles == 2,
        Instruction::XORImm(v) => c1 == (Cpu {
            a: c0.a ^ v,
            f: spec_flags(c0.a ^ v == 0, false, false, false),
            ..c0
        }) && b1 == b0 && cycles == 2,
        Instruction::CCF() => c1 == (Cpu {
            f: spec_flags(spec_zero_flag(c0.f), false, false, !spec_carry_flag(c0.f)),
            ..c0
        }) && b1 == b0 && cycles == 1,
        Instruction::SCF() => c1 == (Cpu {
            f: spec_flags(spec_zero_flag(c0.f), false, false, true),
            ..c0
        }) && b1 == b0 && cycles == 1,
        Instruction::DAA() => c1 == (Cpu {
            a: spec_daa(c0.a, c0.f).0,
            f: spec_daa(c0.a, c0.f).1,
            ..c0
        }) && b1 == b0 && cycles == 1,
        Instruction::CPL() => c1 == (Cpu {
            a: !c0.a,
            f: spec_flags(spec_zero_flag(c0.f), true, true, spec_carry_flag(c0.f)),
            ..c0
        }) && b1 == b0 && cycles == 1,
        Instruction::INC16(rr) => c1 == spec_set_register16(
            c0,
            rr,
            wrap16(spec_get_register16(c0, rr) + 1),
        ) && b1 == b0 && cycles == 2,
        Instruction::DEC16(rr) => c1 == spec_set_register16(
            c0,
            rr,
            wrap16(spec_get_register16(c0, rr) - 1),
        ) && b1 == b0 && cycles == 2,
        Instruction::ADDHL(rr) => ({
            let value = spec_get_register16(c0, rr);
            let hl = spec_hl(c0);
            let new_value = wrap16(hl + value);
            c1 == (Cpu {
                h: (new_value / 256) as u8,
                l: (new_value % 256) as u8,
                f: spec_flags(
                    spec_zero_flag(c0.f),
                    false,
                    (hl & 0x0FFF) + (value & 0x0FFF) > 0x0FFF,
                    hl + value > 0xFFFF,
                ),
                ..c0
            }) && b1 == b0 && cycles == 2
        }),
        Instruction::ADDSPImm(d) => c1 == (Cpu {
            sp: wrap16(c0.sp + d),
            f: spec_sp_adjust_flags(c0.sp, d),
            ..c0
        }) && b1 == b0 && cycles == 4,
        _ => false,
    }
}

/// Execute relation for the rotate, shift, swap and bit instructions.
pub open spec fn spec_execute_post_shifts(
    c0: Cpu,
    b0: BusView,
    instruction: Instruction,
    c1: Cpu,
    b1: BusView,
    cycles: u8,
) -> bool {
    match instruction {
        Instruction::RLCA() => c1 == (Cpu {
            a: spec_rlc(c0.a),
            f: spec_flags(false, false, false, spec_shift_out(c0.a, false)),
            ..c0
        }) && b1 == b0 && cycles == 1,
        Instruction::RRCA() => c1 == (Cpu {
            a: spec_rrc(c0.a),
            f: spec_flags(false, false, false, spec_shift_out(c0.a, true)),
            ..c0
        }) && b1 == b0 && cycles == 1,
        Instruction::RRA() => c1 == (Cpu {
            a: spec_rr(c0.a, spec_carry_flag(c0.f)),
            f: spec_flags(false, false, false, spec_shift_out(c0.a, true)),
            ..c0
        }) && b1 == b0 && cycles == 1,
        Instruction::RLA() => c1 == (Cpu {
            a: spec_rl(c0.a, spec_carry_flag(c0.f)),
            f: spec_flags(false, false, false, spec_shift_out(c0.a, false)),
            ..c0
        }) && b1 == b0 && cycles == 1,
        Instruction::RLCR(r) => ({
            let value = spec_get_register(c0, r);
            c1 == spec_set_register(
                Cpu {
                    f: spec_flags(spec_rlc(value) == 0, false, false, spec_shift_out(value, false)),
                    ..c0
                },
                r,
                spec_rlc(value),
            ) && b1 == b0 && cycles == 2
        }),
        Instruction::RRCR(r) => ({
            let value = spec_get_register(c0, r);
            c1 == spec_set_register(
                Cpu {
                    f: spec_flags(spec_rrc(value) == 0, false, false, spec_shift_out(value, true)),
                    ..c0
                },
                r,
                spec_rrc(value),
            ) && b1 == b0 && cycles == 2
        }),
        Instruction::RLCHLInd() => ({
            let value = spec_bus_read8(b0, spec_hl(c0));
            c1 == (Cpu {
                f: spec_flags(spec_rlc(value) == 0, false, false, spec_shift_out(value, false)),
                ..c0
            }) && b1 == spec_bus_write8(b0, spec_hl(c0), spec_rlc(value)) && cycles == 4
        }),
        Instruction::RRCHLInd() => ({
            let value = spec_bus_read8(b0, spec_hl(c0));
            c1 == (Cpu {
                f: spec_flags(spec_rrc(value) == 0, false, false, spec_shift_out(value, true)),
                ..c0
            }) && b1 == spec_bus_write8(b0, spec_hl(c0), spec_rrc(value)) && cycles == 4
        }),
        Instruction::RLR(r) => ({
            let value = spec_get_register(c0, r);
            let rotated = spec_rl(value, spec_carry_flag(c0.f));
            c1 == spec_set_register(
                Cpu {
                    f: spec_flags(rotated == 0, false, false, spec_shift_out(value, false)),
                    ..c0
                },
                r,
                rotated,
            ) && b1 == b0 && cycles == 2
        }),
        Instruction::RLHLInd() => ({
            let value = spec_bus_read8(b0, spec_hl(c0));
            let rotated = spec_rl(value, spec_carry_flag(c0.f));
            c1 == (Cpu {
                f: spec_flags(rotated == 0, false, false, spec_shift_out(value, false)),
                ..c0
            }) && b1 == spec_bus_write8(b0, spec_hl(c0), rotated) && cycles == 4
        }),
        Instruction::RRR(r) => ({
            let value = spec_get_register(c0, r);
            let rotated = spec_rr(value, spec_carry_flag(c0.f));
            c1 == spec_set_register(
                Cpu {
                    f: spec_flags(rotated == 0, false, false, spec_shift_out(value, true)),
                    ..c0
                },
                r,
                rotated,
            ) && b1 == b0 && cycles == 2
        }),
        Instruction::RRHLInd() => ({
            let value = spec_bus_read8(b0, spec_hl(c0));
            let rotated = spec_rr(value, spec_carry_flag(c0.f));
            c1 == (Cpu {
                f: spec_flags(rotated == 0, false, false, spec_shift_out(value, true)),
                ..c0
            }) && b1 == spec_bus_write8(b0, spec_hl(c0), rotated) && cycles == 4
        }),
        Instruction::SRAR(r) => ({
            let value = spec_get_register(c0, r);
            c1 == spec_set_register(
                Cpu {
                    f: spec_flags(spec_sra(value) == 0, false, false, spec_shift_out(value, true)),
                    ..c0
                },
                r,
                spec_sra(value),
            ) && b1 == b0 && cycles == 2
        }),
        Instruction::SRAHLInd() => ({
            let value = spec_bus_read8(b0, spec_hl(c0));
            c1 == (Cpu {
                f: spec_flags(spec_sra(value) == 0, false, false, spec_shift_out(value, true)),
                ..c0
            }) && b1 == spec_bus_write8(b0, spec_hl(c0), spec_sra(value)) && cycles == 4
        }),
        Instruction::SLAR(r) => ({
            let value = spec_get_register(c0, r);
            c1 == spec_set_register(
                Cpu {
                    f: spec_flags(spec_sla(value) == 0, false, false, spec_shift_out(value, false)),
                    ..c0
                },
                r,
                spec_sla(value),
            ) && b1 == b0 && cycles == 2
        }),
        Instruction::SLAHLInd() => ({
            let value = spec_bus_read8(b0, spec_hl(c0));
            c1 == (Cpu {
                f: spec_flags(spec_sla(value) == 0, false, false, spec_shift_out(value, false)),
                ..c0
            }) && b1 == spec_bus_write8(b0, spec_hl(c0), spec_sla(value)) && cycles == 4
        }),
        Instruction::SRLR(r) => ({
            let value = spec_get_register(c0, r);
            c1 == spec_set_register(
                Cpu {
                    f: spec_flags(spec_srl(value) == 0, false, false, spec_shift_out(value, true)),
                    ..c0
                },
                r,
                spec_srl(value),
            ) && b1 == b0 && cycles == 2
        }),
        Instruction::SRLHLInd() => ({
            let value = spec_bus_read8(b0, spec_hl(c0));
            c1 == (Cpu {
                f: spec_flags(spec_srl(value) == 0, false, false, spec_shift_out(value, true)),
                ..c0
            }) && b1 == spec_bus_write8(b0, spec_hl(c0), spec_srl(value)) && cycles == 4
        }),
        Instruction::SWAPR(r) => ({
            let value = spec_get_register(c0, r);
            c1 == spec_set_register(
                Cpu { f: spec_flags(spec_swap(value) == 0, false, false, false), ..c0 },
                r,
                spec_swap(value),
            ) && b1 == b0 && cycles == 2
        }),
        Instruction::SWAPHLInd() => ({
            let value = spec_bus_read8(b0, spec_hl(c0));
            c1 == (Cpu { f: spec_flags(spec_swap(value) == 0, false, false, false), ..c0 }) && b1
                == spec_bus_write8(b0, spec_hl(c0), spec_swap(value)) && cycles == 4
        }),
        Instruction::BITR(bit, r) => c1 == (Cpu {
            f: spec_flags(
                !spec_get_bit(spec_get_register(c0, r), bit),
                false,
                true,
                spec_carry_flag(c0.f),
            ),
            ..c0
        }) && b1 == b0 && cycles == 2,
        Instruction::BITHLInd(bit) => c1 == (Cpu {
            f: spec_flags(
                !spec_get_bit(spec_bus_read8(b0, spec_hl(c0)), bit),
                false,
                true,
                spec_carry_flag(c0.f),
            ),
            ..c0
        }) && b1 == b0 && cycles == 3,
        Instruction::RESETR(bit, r) => c1 == spec_set_register(
            c0,
            r,
            spec_modify_bit(spec_get_register(c0, r), bit, false),
        ) && b1 == b0 && cycles == 2,
        Instruction::RESETHLInd(bit) => c1 == c0 && b1 == spec_bus_write8(
            b0,
            spec_hl(c0),
            spec_modify_bit(spec_bus_read8(b0, spec_hl(c0)), bit, false),
        ) && cycles == 4,
        Instruction::SETR(bit, r) => c1 == spec_set_register(
            c0,
            r,
            spec_modify_bit(spec_get_register(c0, r), bit, true),
        ) && b1 == b0 && cycles == 2,
        Instruction::SETHLInd(bit) => c1 == c0 && b1 == spec_bus_write8(
            b0,
            spec_hl(c0),
            spec_modify_bit(spec_bus_read8(b0, spec_hl(c0)), bit, true),
        ) && cycles == 4,
        _ => false,
    }
}

/// Execute relation for the control-flow, halt and interrupt-enable\n/// instructions.
pub open spec fn spec_execute_post_control(
    c0: Cpu,
    b0: BusView,
    instruction: Instruction,
    c1: Cpu,
    b1: BusView,
    cycles: u8,
) -> bool {
    match instruction {
        Instruction::NOP() => c1 == c0 && b1 == b0 && cycles == 1,
        Instruction::JP(addr) => c1 == (Cpu { pc: addr, ..c0 }) && b1 == b0 && cycles == 4,
        Instruction::JPHL() => c1 == (Cpu { pc: spec_hl(c0), ..c0 }) && b1 == b0 && cycles == 1,
        Instruction::JPCC(cond, addr) => c1 == if spec_condition(c0, cond) {
            Cpu { pc: addr, ..c0 }
        } else {
            c0
        } && b1 == b0 && cycles == if spec_condition(c0, cond) {
            4u8
        } else {
            3u8
        },
        Instruction::JR(d) => c1 == (Cpu { pc: wrap16(c0.pc + d), ..c0 }) && b1 == b0 && cycles
            == 3,
        Instruction::JRCC(cond, d) => c1 == if spec_condition(c0, cond) {
            Cpu { pc: wrap16(c0.pc + d), ..c0 }
        } else {
            c0
        } && b1 == b0 && cycles == if spec_condition(c0, cond) {
            3u8
        } else {
            2u8
        },
        Instruction::CALL(addr) => c1 == (Cpu { sp: wrap16(c0.sp - 2), pc: addr, ..c0 }) && b1
            == spec_bus_write16(b0, wrap16(c0.sp - 2), c0.pc) && cycles == 6,
        Instruction::CALLCC(cond, addr) => c1 == if spec_condition(c0, cond) {
            Cpu { sp: wrap16(c0.sp - 2), pc: addr, ..c0 }
        } else {
            c0
        } && b1 == if spec_condition(c0, cond) {
            spec_bus_write16(b0, wrap16(c0.sp - 2), c0.pc)
        } else {
            b0
        } && cycles == if spec_condition(c0, cond) {
            6u8
        } else {
            3u8
        },
        Instruction::RET() => c1 == (Cpu {
            sp: wrap16(c0.sp + 2),
            pc: spec_bus_read16(b0, c0.sp),
            ..c0
        }) && b1 == b0 && cycles == 4,
        Instruction::RETCC(cond) => c1 == if spec_condition(c0, cond) {
            Cpu { sp: wrap16(c0.sp + 2), pc: spec_bus_read16(b0, c0.sp), ..c0 }
        } else {
            c0
        } && b1 == b0 && cycles == if spec_condition(c0, cond) {
            5u8
        } else {
            2u8
        },
        Instruction::RETI() => c1 == (Cpu {
            sp: wrap16(c0.sp + 2),
            pc: spec_bus_read16(b0, c0.sp),
            ime: true,
            ..c0
        }) && b1 == b0 && cycles == 4,
        Instruction::RST(target) => c1 == (Cpu {
            sp: wrap16(c0.sp - 2),
            pc: (target * 8) as u16,
            ..c0
        }) && b1 == spec_bus_write16(b0, wrap16(c0.sp - 2), c0.pc) && cycles == 4,
        Instruction::HALT() => c1 == if spec_has_pending(b0) && !c0.ime {
            Cpu { halted: false, halt_bug: true, ..c0 }
        } else {
            Cpu { halted: true, ..c0 }
        } && b1 == b0 && cycles == 1,
        Instruction::STOP() => c1 == if spec_has_pending(b0) && !c0.ime {
            Cpu { halted: false, halt_bug: true, ..c0 }
        } else {
            Cpu { halted: true, ..c0 }
        } && b1 == b0 && cycles == 1,
        Instruction::DI() => c1 == (Cpu { ime: false, ..c0 }) && b1 == b0 && cycles == 1,
        Instruction::EI() => c1 == (Cpu { ei_pending: true, ..c0 }) && b1 == b0 && cycles == 1,
        _ => false,
    }
}

/// What executing one decoded instruction does: relates the CPU and bus
/// before (after the fetch advanced PC) to the CPU, bus and machine-cycle
/// count after. One arm per mnemonic, grouped by family; each arm mirrors
/// the contract of the method that implements it.
pub open spec fn spec_execute_post(
    c0: Cpu,
    b0: BusView,
    instruction: Instruction,
    c1: Cpu,
    b1: BusView,
    cycles: u8,
) -> bool {
    match instruction {
        Instruction::LD(..)
        | Instruction::LDImm(..)
        | Instruction::LDFromHLInd(..)
        | Instruction::LDToHLInd(..)
        | Instruction::LDToHlIndImm(..)
        | Instruction::LDFromBCIndToA()
        | Instruction::LDFromDEIndToA()
        | Instruction::LDToBCIndFromA()
        | Instruction::LDToDEIndFromA()
        | Instruction::LDFromImmIndToA(..)
        | Instruction::LDToImmIndFromA(..)
        | Instruction::LDToAFromCInd()
        | Instruction::LDFromAToCInd()
        | Instruction::LDFromImmIndToA8(..)
        | Instruction::LDToImmIndFromA8(..)
        | Instruction::LDFromHLIndDecToA()
        | Instruction::LDToHLIndDecFromA()
        | Instruction::LDFromHLIndIncToA()
        | Instruction::LDToHLIndIncFromA()
        | Instruction::LDImm16(..)
        | Instruction::LDToImmIndFromSP(..)
        | Instruction::LDSPFromHL()
        | Instruction::PUSH(..)
        | Instruction::POP(..)
        | Instruction::LDHLFromAdjustedSP(..) => spec_execute_post_loads(c0, b0, instruction, c1, b1, cycles),
        Instruction::ADD(..)
        | Instruction::ADDHLInd()
        | Instruction::ADDImm(..)
        | Instruction::ADDC(..)
        | Instruction::ADDCHLInd()
        | Instruction::ADDCImm(..)
        | Instruction::SUB(..)
        | Instruction::SUBHLInd()
        | Instruction::SUBImm(..)
        | Instruction::SUBC(..)
        | Instruction::SUBCHLInd()
        | Instruction::SUBCImm(..)
        | Instruction::CP(..)
        | Instruction::CPHLInd()
        | Instruction::CPImm(..)
        | Instruction::INC(..)
        | Instruction::INCHLInd()
        | Instruction::DEC(..)
        | Instruction::DECHLInd()
        | Instruction::AND(..)
        | Instruction::ANDHLInd()
        | Instruction::ANDImm(..)
        | Instruction::OR(..)
        | Instruction::ORHLInd()
        | Instruction::ORImm(..)
        | Instruction::XOR(..)
        | Instruction::XORHLInd()
        | Instruction::XORImm(..)
        | Instruction::CCF()
        | Instruction::SCF()
        | Instruction::DAA()
        | Instruction::CPL()
        | Instruction::INC16(..)
        | Instruction::DEC16(..)
        | Instruction::ADDHL(..)
        | Instruction::ADDSPImm(..) => spec_execute_post_arith(c0, b0, instruction, c1, b1, cycles),
        Instruction::RLCA()
        | Instruction::RRCA()
        | Instruction::RRA()
        | Instruction::RLA()
        | Instruction::RLCR(..)
        | Instruction::RRCR(..)
        | Instruction::RLCHLInd()
        | Instruction::RRCHLInd()
        | Instruction::RLR(..)
        | Instruction::RLHLInd()
        | Instruction::RRR(..)
        | Instruction::RRHLInd()
        | Instruction::SRAR(..)
        | Instruction::SRAHLInd()
        | Instruction::SLAR(..)
        | Instruction::SLAHLInd()
        | Instruction::SRLR(..)
        | Instruction::SRLHLInd()
        | Instruction::SWAPR(..)
        | Instruction::SWAPHLInd()
        | Instruction::BITR(..)
        | Instruction::BITHLInd(..)
        | Instruction::RESETR(..)
        | Instruction::RESETHLInd(..)
        | Instruction::SETR(..)
        | Instruction::SETHLInd(..) => spec_execute_post_shifts(c0, b0, instruction, c1, b1, cycles),
        Instruction::NOP()
        | Instruction::JP(..)
        | Instruction::JPHL()
        | Instruction::JPCC(..)
        | Instruction::JR(..)
        | Instruction::JRCC(..)
        | Instruction::CALL(..)
        | Instruction::CALLCC(..)
        | Instruction::RET()
        | Instruction::RETCC(..)
        | Instruction::RETI()
        | Instruction::RST(..)
        | Instruction::HALT()
        | Instruction::STOP()
        | Instruction::DI()
        | Instruction::EI() => spec_execute_post_control(c0, b0, instruction, c1, b1, cycles),
    }
}

impl Cpu {
    /// Execute one decoded instruction, returning its machine-cycle
    /// count. PC has already been advanced past the instruction by the
    /// fetch.
    pub fn execute(&mut self, instruction: Instruction, bus: &mut Bus) -> (cycles: u8)
        requires
            instruction.wf(),
        ensures
            spec_execute_post(
                *old(self),
                old(bus)@,
                instruction,
                *final(self),
                final(bus)@,
                cycles,
            ),
    {
        match instruction {
            Instruction::LD(..)
            | Instruction::LDImm(..)
            | Instruction::LDFromHLInd(..)
            | Instruction::LDToHLInd(..)
            | Instruction::LDToHlIndImm(..)
            | Instruction::LDFromBCIndToA()
            | Instruction::LDFromDEIndToA()
            | Instruction::LDToBCIndFromA()
            | Instruction::LDToDEIndFromA()
            | Instruction::LDFromImmIndToA(..)
            | Instruction::LDToImmIndFromA(..)
            | Instruction::LDToAFromCInd()
            | Instruction::LDFromAToCInd()
            | Instruction::LDFromImmIndToA8(..)
            | Instruction::LDToImmIndFromA8(..)
            | Instruction::LDFromHLIndDecToA()
            | Instruction::LDToHLIndDecFromA()
            | Instruction::LDFromHLIndIncToA()
            | Instruction::LDToHLIndIncFromA()
            | Instruction::LDImm16(..)
            | Instruction::LDToImmIndFromSP(..)
            | Instruction::LDSPFromHL()
            | Instruction::PUSH(..)
            | Instruction::POP(..)
            | Instruction::LDHLFromAdjustedSP(..) => self.execute_loads(instruction, bus),
            Instruction::ADD(..)
            | Instruction::ADDHLInd()
            | Instruction::ADDImm(..)
            | Instruction::ADDC(..)
            | Instruction::ADDCHLInd()
            | Instruction::ADDCImm(..)
            | Instruction::SUB(..)
            | Instruction::SUBHLInd()
            | Instruction::SUBImm(..)
            | Instruction::SUBC(..)
            | Instruction::SUBCHLInd()
            | Instruction::SUBCImm(..)
            | Instruction::CP(..)
            | Instruction::CPHLInd()
            | Instruction::CPImm(..)
            | Instruction::INC(..)
            | Instruction::INCHLInd()
            | Instruction::DEC(..)
            | Instruction::DECHLInd()
            | Instruction::AND(..)
            | Instruction::ANDHLInd()
            | Instruction::ANDImm(..)
            | Instruction::OR(..)
            | Instruction::ORHLInd()
            | Instruction::ORImm(..)
            | Instruction::XOR(..)
            | Instruction::XORHLInd()
            | Instruction::XORImm(..)
            | Instruction::CCF()
            | Instruction::SCF()
            | Instruction::DAA()
            | Instruction::CPL()
            | Instruction::INC16(..)
            | Instruction::DEC16(..)
            | Instruction::ADDHL(..)
            | Instruction::ADDSPImm(..) => self.execute_arith(instruction, bus),
            Instruction::RLCA()
            | Instruction::RRCA()
            | Instruction::RRA()
            | Instruction::RLA()
            | Instruction::RLCR(..)
            | Instruction::RRCR(..)
            | Instruction::RLCHLInd()
            | Instruction::RRCHLInd()
            | Instruction::RLR(..)
            | Instruction::RLHLInd()
            | Instruction::RRR(..)
            | Instruction::RRHLInd()
            | Instruction::SRAR(..)
            | Instruction::SRAHLInd()
            | Instruction::SLAR(..)
            | Instruction::SLAHLInd()
            | Instruction::SRLR(..)
            | Instruction::SRLHLInd()
            | Instruction::SWAPR(..)
            | Instruction::SWAPHLInd()
            | Instruction::BITR(..)
            | Instruction::BITHLInd(..)
            | Instruction::RESETR(..)
            | Instruction::RESETHLInd(..)
            | Instruction::SETR(..)
            | Instruction::SETHLInd(..) => self.execute_shifts(instruction, bus),
            Instruction::NOP()
            | Instruction::JP(..)
            | Instruction::JPHL()
            | Instruction::JPCC(..)
            | Instruction::JR(..)
            | Instruction::JRCC(..)
            | Instruction::CALL(..)
            | Instruction::CALLCC(..)
            | Instruction::RET()
            | Instruction::RETCC(..)
            | Instruction::RETI()
            | Instruction::RST(..)
            | Instruction::HALT()
            | Instruction::STOP()
            | Instruction::DI()
            | Instruction::EI() => self.execute_control(instruction, bus),
        }
    }

    /// Loads, stack operations and the SP-adjust forms.
    #[verifier::rlimit(100)]
    #[verifier::spinoff_prover]
    fn execute_loads(&mut self, instruction: Instruction, bus: &mut Bus) -> (cycles: u8)
        requires
            instruction.wf(),
            ({
                ||| instruction matches Instruction::LD(..)
                ||| instruction matches Instruction::LDImm(..)
                ||| instruction matches Instruction::LDFromHLInd(..)
                ||| instruction matches Instruction::LDToHLInd(..)
                ||| instruction matches Instruction::LDToHlIndImm(..)
                ||| instruction matches Instruction::LDFromBCIndToA()
                ||| instruction matches Instruction::LDFromDEIndToA()
                ||| instruction matches Instruction::LDToBCIndFromA()
                ||| instruction matches Instruction::LDToDEIndFromA()
                ||| instruction matches Instruction::LDFromImmIndToA(..)
                ||| instruction matches Instruction::LDToImmIndFromA(..)
                ||| instruction matches Instruction::LDToAFromCInd()
                ||| instruction matches Instruction::LDFromAToCInd()
                ||| instruction matches Instruction::LDFromImmIndToA8(..)
                ||| instruction matches Instruction::LDToImmIndFromA8(..)
                ||| instruction matches Instruction::LDFromHLIndDecToA()
                ||| instruction matches Instruction::LDToHLIndDecFromA()
                ||| instruction matches Instruction::LDFromHLIndIncToA()
                ||| instruction matches Instruction::LDToHLIndIncFromA()
                ||| instruction matches Instruction::LDImm16(..)
                ||| instruction matches Instruction::LDToImmIndFromSP(..)
                ||| instruction matches Instruction::LDSPFromHL()
                ||| instruction matches Instruction::PUSH(..)
                ||| instruction matches Instruction::POP(..)
                ||| instruction matches Instruction::LDHLFromAdjustedSP(..)
            }),
        ensures
            spec_execute_post(
                *old(self),
                old(bus)@,
                instruction,
                *final(self),
                final(bus)@,
                cycles,
            ),
    {
        match instruction {
            Instruction::LD(register_dest, register_source) => return self.ld(
                register_dest,
                register_source,
            ),
            Instruction::LDImm(register, imm) => return self.ld_imm(register, imm),
            Instruction::LDFromHLInd(register) => return self.ld_from_hl_ind(register, bus),
            Instruction::LDToHLInd(register) => return self.ld_to_hl_ind(register, bus),
            Instruction::LDToHlIndImm(imm) => return self.ld_to_hl_ind_imm(imm, bus),
            Instruction::LDFromBCIndToA() => return self.ld_from_bc_ind_to_a(bus),
            Instruction::LDFromDEIndToA() => return self.ld_from_de_ind_to_a(bus),
            Instruction::LDToBCIndFromA() => return self.ld_to_bc_ind_from_a(bus),
            Instruction::LDToDEIndFromA() => return self.ld_to_de_ind_from_a(bus),
            Instruction::LDFromImmIndToA(imm) => return self.ld_from_imm_ind_to_a(imm, bus),
            Instruction::LDToImmIndFromA(imm) => return self.ld_to_imm_ind_from_a(imm, bus),
            Instruction::LDToAFromCInd() => return self.ld_to_a_from_c_ind(bus),
            Instruction::LDFromAToCInd() => return self.ld_from_a_to_c_ind(bus),
            Instruction::LDFromImmIndToA8(imm) => return self.ld_from_imm_ind_to_a_8(imm, bus),
            Instruction::LDToImmIndFromA8(imm) => return self.ld_to_imm_ind_from_a_8(imm, bus),
            Instruction::LDFromHLIndDecToA() => return self.ld_from_hl_ind_dec_to_a(bus),
            Instruction::LDToHLIndDecFromA() => return self.ld_to_hl_ind_dec_from_a(bus),
            Instruction::LDFromHLIndIncToA() => return self.ld_from_hl_ind_inc_to_a(bus),
            Instruction::LDToHLIndIncFromA() => return self.ld_to_hl_ind_inc_from_a(bus),
            Instruction::LDImm16(register, imm) => return self.ld_imm_16(register, imm),
            Instruction::LDToImmIndFromSP(imm) => return self.ld_to_imm_ind_from_sp(imm, bus),
            Instruction::LDSPFromHL() => return self.ld_sp_from_hl(),
            Instruction::PUSH(register) => return self.push(register, bus),
            Instruction::POP(register) => return self.pop(register, bus),
            Instruction::LDHLFromAdjustedSP(imm) => return self.ld_hl_from_adjusted_sp(imm),
            _ => {
                proof {
                    assert(false);
                }
                0
            },
        }
    }

    /// Arithmetic and logic on the accumulator, registers and pairs.
    #[verifier::rlimit(100)]
    #[verifier::spinoff_prover]
    fn execute_arith(&mut self, instruction: Instruction, bus: &mut Bus) -> (cycles: u8)
        requires
            instruction.wf(),
            ({
                ||| instruction matches Instruction::ADD(..)
                ||| instruction matches Instruction::ADDHLInd()
                ||| instruction matches Instruction::ADDImm(..)
                ||| instruction matches Instruction::ADDC(..)
                ||| instruction matches Instruction::ADDCHLInd()
                ||| instruction matches Instruction::ADDCImm(..)
                ||| instruction matches Instruction::SUB(..)
                ||| instruction matches Instruction::SUBHLInd()
                ||| instruction matches Instruction::SUBImm(..)
                ||| instruction matches Instruction::SUBC(..)
                ||| instruction matches Instruction::SUBCHLInd()
                ||| instruction matches Instruction::SUBCImm(..)
                ||| instruction matches Instruction::CP(..)
                ||| instruction matches Instruction::CPHLInd()
                ||| instruction matches Instruction::CPImm(..)
                ||| instruction matches Instruction::INC(..)
                ||| instruction matches Instruction::INCHLInd()
                ||| instruction matches Instruction::DEC(..)
                ||| instruction matches Instruction::DECHLInd()
                ||| instruction matches Instruction::AND(..)
                ||| instruction matches Instruction::ANDHLInd()
                ||| instruction matches Instruction::ANDImm(..)
                ||| instruction matches Instruction::OR(..)
                ||| instruction matches Instruction::ORHLInd()
                ||| instruction matches Instruction::ORImm(..)
                ||| instruction matches Instruction::XOR(..)
                ||| instruction matches Instruction::XORHLInd()
                ||| instruction matches Instruction::XORImm(..)
                ||| instruction matches Instruction::CCF()
                ||| instruction matches Instruction::SCF()
                ||| instruction matches Instruction::DAA()
                ||| instruction matches Instruction::CPL()
                ||| instruction matches Instruction::INC16(..)
                ||| instruction matches Instruction::DEC16(..)
                ||| instruction matches Instruction::ADDHL(..)
                ||| instruction matches Instruction::ADDSPImm(..)
            }),
        ensures
            spec_execute_post(
                *old(self),
                old(bus)@,
                instruction,
                *final(self),
                final(bus)@,
                cycles,
            ),
    {
        match instruction {
            Instruction::ADD(register) => return self.add(register),
            Instruction::ADDHLInd() => return self.add_hl_ind(bus),
            Instruction::ADDImm(imm) => return self.add_imm(imm),
            Instruction::ADDC(register) => return self.add_c(register),
            Instruction::ADDCHLInd() => return self.add_c_hl_ind(bus),
            Instruction::ADDCImm(imm) => return self.add_c_imm(imm),
            Instruction::SUB(register) => return self.sub(register),
            Instruction::SUBHLInd() => return self.sub_hl_ind(bus),
            Instruction::SUBImm(imm) => return self.sub_imm(imm),
            Instruction::SUBC(register) => return self.sub_c(register),
            Instruction::SUBCHLInd() => return self.sub_c_hl_ind(bus),
            Instruction::SUBCImm(imm) => return self.sub_c_imm(imm),
            Instruction::CP(register) => return self.cp(register),
            Instruction::CPHLInd() => return self.cp_hl_ind(bus),
            Instruction::CPImm(imm) => return self.cp_imm(imm),
            Instruction::INC(register) => return self.inc(register),
            Instruction::INCHLInd() => return self.inc_hl_ind(bus),
            Instruction::DEC(register) => return self.dec(register),
            Instruction::DECHLInd() => return self.dec_hl_ind(bus),
            Instruction::AND(register) => return self.and(register),
            Instruction::ANDHLInd() => return self.and_hl_ind(bus),
            Instruction::ANDImm(imm) => return self.and_imm(imm),
            Instruction::OR(register) => return self.or(register),
            Instruction::ORHLInd() => return self.or_hl_ind(bus),
            Instruction::ORImm(imm) => return self.or_imm(imm),
            Instruction::XOR(register) => return self.xor(register),
            Instruction::XORHLInd() => return self.xor_hl_ind(bus),
            Instruction::XORImm(imm) => return self.xor_imm(imm),
            Instruction::CCF() => return self.ccf(),
            Instruction::SCF() => return self.scf(),
            Instruction::DAA() => return self.daa(),
            Instruction::CPL() => return self.cpl(),
            Instruction::INC16(register) => return self.inc_16(register),
            Instruction::DEC16(register) => return self.dec_16(register),
            Instruction::ADDHL(register) => return self.add_hl(register),
            Instruction::ADDSPImm(imm) => return self.add_sp_imm(imm),
            _ => {
                proof {
                    assert(false);
                }
                0
            },
        }
    }

    /// Rotates, shifts, swap and the single-bit operations.
    #[verifier::rlimit(100)]
    #[verifier::spinoff_prover]
    fn execute_shifts(&mut self, instruction: Instruction, bus: &mut Bus) -> (cycles: u8)
        requires
            instruction.wf(),
            ({
                ||| instruction matches Instruction::RLCA()
                ||| instruction matches Instruction::RRCA()
                ||| instruction matches Instruction::RRA()
                ||| instruction matches Instruction::RLA()
                ||| instruction matches Instruction::RLCR(..)
                ||| instruction matches Instruction::RRCR(..)
                ||| instruction matches Instruction::RLCHLInd()
                ||| instruction matches Instruction::RRCHLInd()
                ||| instruction matches Instruction::RLR(..)
                ||| instruction matches Instruction::RLHLInd()
                ||| instruction matches Instruction::RRR(..)
                ||| instruction matches Instruction::RRHLInd()
                ||| instruction matches Instruction::SRAR(..)
                ||| instruction matches Instruction::SRAHLInd()
                ||| instruction matches Instruction::SLAR(..)
                ||| instruction matches Instruction::SLAHLInd()
                ||| instruction matches Instruction::SRLR(..)
                ||| instruction matches Instruction::SRLHLInd()
                ||| instruction matches Instruction::SWAPR(..)
                ||| instruction matches Instruction::SWAPHLInd()
                ||| instruction matches Instruction::BITR(..)
                ||| instruction matches Instruction::BITHLInd(..)
                ||| instruction matches Instruction::RESETR(..)
                ||| instruction matches Instruction::RESETHLInd(..)
                ||| instruction matches Instruction::SETR(..)
                ||| instruction matches Instruction::SETHLInd(..)
            }),
        ensures
            spec_execute_post(
                *old(self),
                old(bus)@,
                instruction,
                *final(self),
                final(bus)@,
                cycles,
            ),
    {
        match instruction {
            Instruction::RLCA() => return self.rlca(),
            Instruction::RRCA() => return self.rrca(),
            Instruction::RRA() => return self.rra(),
            Instruction::RLA() => return self.rla(),
            Instruction::RLCR(register) => return self.rlcr(register),
            Instruction::RRCR(register) => return self.rrcr(register),
            Instruction::RLCHLInd() => return self.rlc_hl_ind(bus),
            Instruction::RRCHLInd() => return self.rrc_hl_ind(bus),
            Instruction::RLR(register) => return self.rlr(register),
            Instruction::RLHLInd() => return self.rl_hl_ind(bus),
            Instruction::RRR(register) => return self.rrr(register),
            Instruction::RRHLInd() => return self.rr_hl_ind(bus),
            Instruction::SRAR(register) => return self.srar(register),
            Instruction::SRAHLInd() => return self.sra_hl_ind(bus),
            Instruction::SLAR(register) => return self.slar(register),
            Instruction::SLAHLInd() => return self.sla_hl_ind(bus),
            Instruction::SRLR(register) => return self.srlr(register),
            Instruction::SRLHLInd() => return self.srl_hl_ind(bus),
            Instruction::SWAPR(register) => return self.swapr(register),
            Instruction::SWAPHLInd() => return self.swap_hl_ind(bus),
            Instruction::BITR(bit, register) => return self.bitr(bit, register),
            Instruction::BITHLInd(bit) => return self.bit_hl_ind(bit, bus),
            Instruction::RESETR(bit, register) => return self.resetr(bit, register),
            Instruction::RESETHLInd(bit) => return self.reset_hl_ind(bit, bus),
            Instruction::SETR(bit, register) => return self.setr(bit, register),
            Instruction::SETHLInd(bit) => return self.set_hl_ind(bit, bus),
            _ => {
                proof {
                    assert(false);
                }
                0
            },
        }
    }

    /// Control flow, HALT/STOP and the interrupt-enable toggles.
    #[verifier::rlimit(100)]
    #[verifier::spinoff_prover]
    fn execute_control(&mut self, instruction: Instruction, bus: &mut Bus) -> (cycles: u8)
        requires
            instruction.wf(),
            ({
                ||| instruction matches Instruction::NOP()
                ||| instruction matches Instruction::JP(..)
                ||| instruction matches Instruction::JPHL()
                ||| instruction matches Instruction::JPCC(..)
                ||| instruction matches Instruction::JR(..)
                ||| instruction matches Instruction::JRCC(..)
                ||| instruction matches Instruction::CALL(..)
                ||| instruction matches Instruction::CALLCC(..)
                ||| instruction matches Instruction::RET()
                ||| instruction matches Instruction::RETCC(..)
                ||| instruction matches Instruction::RETI()
                ||| instruction matches Instruction::RST(..)
                ||| instruction matches Instruction::HALT()
                ||| instruction matches Instruction::STOP()
                ||| instruction matches Instruction::DI()
                ||| instruction matches Instruction::EI()
            }),
        ensures
            spec_execute_post(
                *old(self),
                old(bus)@,
                instruction,
                *final(self),
                final(bus)@,
                cycles,
            ),
    {
        match instruction {
            Instruction::NOP() => return self.nop(),
            Instruction::JP(addr) => return self.jp(addr),
            Instruction::JPHL() => return self.jp_hl(),
            Instruction::JPCC(cond, addr) => return self.jp_cc(cond, addr),
            Instruction::JR(imm) => return self.jr(imm),
            Instruction::JRCC(cond, imm) => return self.jr_cc(cond, imm),
            Instruction::CALL(addr) => return self.call(addr, bus),
            Instruction::CALLCC(cond, addr) => return self.call_cc(cond, addr, bus),
            Instruction::RET() => return self.ret(bus),
            Instruction::RETCC(cond) => return self.ret_cc(cond, bus),
            Instruction::RETI() => return self.ret_i(bus),
            Instruction::RST(addr) => return self.rst(addr, bus),
            Instruction::HALT() => return self.halt(bus),
            Instruction::STOP() => return self.stop(bus),
            Instruction::DI() => return self.di(),
            Instruction::EI() => return self.ei(),
            _ => {
                proof {
                    assert(false);
                }
                0
            },
        }
    }
}

/// The diagnostic a step reports when the byte at PC begins no legal
/// instruction.
#[derive(Debug, Clone, Copy, PartialEq, Eq, Structural)]
pub struct IllegalOpcode {
    pub pc: u16,
    pub byte: u8,
}

/// What one CPU step does. In order:
/// any pending interrupt (enabled in IE and raised in IF) wakes the CPU
/// from HALT whether or not IME is set; if IME is set and an interrupt is
/// pending, the highest-priority one is dispatched (IME cleared, its IF
/// bit cleared, PC pushed at SP-2, PC set to its vector, five cycles);
/// a CPU still halted consumes one cycle; otherwise a pending EI is
/// promoted to IME, the instruction at PC is decoded and executed with PC
/// advanced past it first — except that an armed halt bug leaves PC in
/// place for this one fetch. An unused opcode at PC is reported instead
/// of executed, with the bookkeeping up to the fetch already applied.
pub open spec fn spec_clock_post(
    c0: Cpu,
    b0: BusView,
    c1: Cpu,
    b1: BusView,
    r: Result<u8, IllegalOpcode>,
) -> bool {
    let pend = spec_get_interrupt(spec_pending_mask(b0));
    if c0.ime && pend is Some {
        let (interrupt, handler) = pend->Some_0;
        &&& c1 == (Cpu {
            ime: false,
            halted: false,
            sp: wrap16(c0.sp - 2),
            pc: handler,
            ..c0
        })
        &&& b1 == spec_clear_interrupt(
            spec_bus_write16(b0, wrap16(c0.sp - 2), c0.pc),
            interrupt,
        )
        &&& r == Result::<u8, IllegalOpcode>::Ok(5u8)
    } else if pend is None && c0.halted {
        &&& c1 == c0
        &&& b1 == b0
        &&& r == Result::<u8, IllegalOpcode>::Ok(1u8)
    } else {
        let ime1 = if c0.ei_pending {
            true
        } else {
            c0.ime
        };
        let m0 = spec_bus_read8(b0, c0.pc);
        let m1 = spec_bus_read8(b0, wrap16(c0.pc + 1));
        let m2 = spec_bus_read8(b0, wrap16(c0.pc + 2));
        match spec_decode(m0, m1, m2) {
            Option::None => {
                &&& c1 == (Cpu { halted: false, ime: ime1, ei_pending: false, ..c0 })
                &&& b1 == b0
                &&& r == Result::<u8, IllegalOpcode>::Err(IllegalOpcode { pc: c0.pc, byte: m0 })
            },
            Option::Some((instruction, size)) => {
                let fetched = Cpu {
                    pc: if c0.halt_bug {
                        c0.pc
                    } else {
                        wrap16(c0.pc + size)
                    },
                    halt_bug: false,
                    halted: false,
                    ime: ime1,
                    ei_pending: false,
                    ..c0
                };
                &&& r is Ok
                &&& spec_execute_post(fetched, b0, instruction, c1, b1, r->Ok_0)
            },
        }
    }
}

impl Cpu {
    /// Decode the instruction whose first byte sits at PC.
    fn decode_instruction_at_pc(&self, bus: &Bus) -> (r: Option<(Instruction, u16)>)
        ensures
            r == spec_decode(
                spec_bus_read8(bus@, self.pc),
                spec_bus_read8(bus@, wrap16(self.pc + 1)),
                spec_bus_read8(bus@, wrap16(self.pc + 2)),
            ),
            r matches Some((instruction, size)) ==> instruction.wf() && 1 <= size <= 3,
    {
        let first_byte = bus.read_from_8b(self.pc);
        let second_byte = bus.read_from_8b(crate::word::wrapping_add16(self.pc, 1));
        let third_byte = bus.read_from_8b(crate::word::wrapping_add16(self.pc, 2));
        Instruction::decode(first_byte, second_byte, third_byte)
    }

    /// Advance PC over the fetched instruction — unless the halt bug is
    /// armed, in which case PC stays for this one fetch. Either way the
    /// halt bug disarms.
    pub fn step(&mut self, instruction_size: u16)
        ensures
            *final(self) == (Cpu {
                pc: if old(self).halt_bug {
                    old(self).pc
                } else {
                    wrap16(old(self).pc + instruction_size)
                },
                halt_bug: false,
                ..*old(self)
            }),
    {
        if !self.halt_bug {
            self.pc = crate::word::wrapping_add16(self.pc, instruction_size);
        }
        self.halt_bug = false;
    }

    /// Wake from HALT on any pending interrupt, and dispatch the
    /// highest-priority one when IME allows: clear IME and the chosen IF
    /// bit, push PC, and jump to the handler vector. Returns whether a
    /// dispatch happened.
    fn handle_interrupts(&mut self, bus: &mut Bus) -> (r: bool)
        ensures
            ({
                let pend = spec_get_interrupt(spec_pending_mask(old(bus)@));
                if old(self).ime && pend is Some {
                    let (interrupt, handler) = pend->Some_0;
                    &&& r == true
                    &&& *final(self) == (Cpu {
                        ime: false,
                        halted: false,
                        sp: wrap16(old(self).sp - 2),
                        pc: handler,
                        ..*old(self)
                    })
                    &&& final(bus)@ == spec_clear_interrupt(
                        spec_bus_write16(old(bus)@, wrap16(old(self).sp - 2), old(self).pc),
                        interrupt,
                    )
                } else {
                    &&& r == false
                    &&& *final(self) == (Cpu {
                        halted: if pend is Some {
                            false
                        } else {
                            old(self).halted
                        },
                        ..*old(self)
                    })
                    &&& final(bus)@ == old(bus)@
                }
            }),
    {
        let interrupt = bus.get_interrupt();

        if interrupt.is_some() {
            self.halted = false;
        }

        if !self.ime || interrupt.is_none() {
            return false;
        }

        match interrupt {
            Some((interrupt, interrupt_handler_addr)) => {
                self.ime = false;

                let _cycles: u8 = self.call(interrupt_handler_addr, bus);

                bus.clear_interrupt(interrupt);

                true
            },
            None => false,
        }
    }

    /// One CPU step: service interrupts, honour HALT, promote a pending
    /// EI, then fetch, decode and execute the instruction at PC,
    /// returning its machine-cycle count — or the illegal-opcode
    /// diagnostic if the byte at PC begins no legal instruction.
    pub fn clock(&mut self, bus: &mut Bus) -> (r: Result<u8, IllegalOpcode>)
        ensures
            spec_clock_post(*old(self), old(bus)@, *final(self), final(bus)@, r),
    {
        if self.handle_interrupts(bus) {
            return Result::Ok(5);
        }

        if self.halted {
            return Result::Ok(1);
        }

        if self.ei_pending {
            self.ime = true;
            self.ei_pending = false;
        }

        match self.decode_instruction_at_pc(bus) {
            None => {
                let byte = bus.read_from_8b(self.pc);
                Result::Err(IllegalOpcode { pc: self.pc, byte })
            },
            Some((instruction, size)) => {
                self.step(size);

                let cycles = self.execute(instruction, bus);

                Result::Ok(cycles)
            },
        }
    }
}

} // verus!

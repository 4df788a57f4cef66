//! Names for the CPU's byte registers, 16-bit registers and flag bits,
//! and the conversions between them and the packed operand families.

use vstd::prelude::*;
use crate::operands::{R16Operand, R16StkOperand, R8Operand};

verus! {

/// One of the four flag bits packed into the high nibble of F.
#[derive(Debug, Clone, Copy, PartialEq, Eq, Structural)]
pub enum Flag {
    Carry,
    Zero,
    Sub,
    HalfCarry,
}

pub open spec fn spec_flag_mask(flag: Flag) -> u8 {
    match flag {
        Flag::Carry => 0x10,
        Flag::Zero => 0x80,
        Flag::Sub => 0x40,
        Flag::HalfCarry => 0x20,
    }
}

impl Flag {
    /// The bit this flag occupies inside F.
    pub fn mask(&self) -> (r: u8)
        ensures
            r == spec_flag_mask(*self),
    {
        match self {
            Flag::Carry => 0x10,
            Flag::Zero => 0x80,
            Flag::Sub => 0x40,
            Flag::HalfCarry => 0x20,
        }
    }
}

/// One of the eight byte registers.
#[derive(Debug, Clone, Copy, PartialEq, Eq, Structural)]
pub enum Register {
    A,
    B,
    C,
    D,
    E,
    F,
    H,
    L,
}

impl Register {
    /// The register named by a plain 3-bit operand. `HLInd` names a memory
    /// operand, not a register, so it is excluded by precondition; callers
    /// treat it as a distinct arm.
    pub fn from_r8_operand(r8_operand: R8Operand) -> (r: Register)
        requires
            r8_operand != R8Operand::HLInd,
        ensures
            r == spec_register_of_r8_operand(r8_operand),
    {
        match r8_operand {
            R8Operand::B => Register::B,
            R8Operand::C => Register::C,
            R8Operand::D => Register::D,
            R8Operand::E => Register::E,
            R8Operand::H => Register::H,
            R8Operand::L => Register::L,
            R8Operand::A => Register::A,
            R8Operand::HLInd => Register::A,  // excluded by the precondition
        }
    }
}

pub open spec fn spec_register_of_r8_operand(r8_operand: R8Operand) -> Register {
    match r8_operand {
        R8Operand::B => Register::B,
        R8Operand::C => Register::C,
        R8Operand::D => Register::D,
        R8Operand::E => Register::E,
        R8Operand::H => Register::H,
        R8Operand::L => Register::L,
        R8Operand::A => Register::A,
        R8Operand::HLInd => Register::A,
    }
}

/// The 3-bit code of a plain register. F has no code: no opcode names it.
pub open spec fn spec_r8_code(register: Register) -> u8 {
    match register {
        Register::B => 0,
        Register::C => 1,
        Register::D => 2,
        Register::E => 3,
        Register::H => 4,
        Register::L => 5,
        Register::A => 7,
        Register::F => 6,
    }
}

impl R8Operand {
    /// The operand code of a plain register, for encoding. The F register
    /// never appears as an opcode operand and is excluded by precondition.
    pub fn to_byte_from_register(register: Register) -> (r: u8)
        requires
            register != Register::F,
        ensures
            r == spec_r8_code(register),
            r < 8,
            r != 6,
            spec_register_of_r8_operand(crate::operands::spec_r8_operand_of_byte(r)) == register,
    {
        match register {
            Register::B => 0,
            Register::C => 1,
            Register::D => 2,
            Register::E => 3,
            Register::H => 4,
            Register::L => 5,
            Register::A => 7,
            Register::F => 6,  // excluded by the precondition
        }
    }
}

/// One of the 16-bit registers, including the four virtual pairs.
#[derive(Debug, Clone, Copy, PartialEq, Eq, Structural)]
pub enum Register16 {
    AF,
    BC,
    DE,
    HL,
    SP,
    PC,
}

pub open spec fn spec_register16_of_r16_operand(operand: R16Operand) -> Register16 {
    match operand {
        R16Operand::BC => Register16::BC,
        R16Operand::DE => Register16::DE,
        R16Operand::HL => Register16::HL,
        R16Operand::SP => Register16::SP,
    }
}

pub open spec fn spec_register16_of_r16stk_operand(operand: R16StkOperand) -> Register16 {
    match operand {
        R16StkOperand::BC => Register16::BC,
        R16StkOperand::DE => Register16::DE,
        R16StkOperand::HL => Register16::HL,
        R16StkOperand::AF => Register16::AF,
    }
}

impl Register16 {
    pub fn from_r16_operand(r16_operand: R16Operand) -> (r: Register16)
        ensures
            r == spec_register16_of_r16_operand(r16_operand),
    {
        match r16_operand {
            R16Operand::BC => Register16::BC,
            R16Operand::DE => Register16::DE,
            R16Operand::HL => Register16::HL,
            R16Operand::SP => Register16::SP,
        }
    }

    pub fn from_r16stk_operand(r16stk_operand: R16StkOperand) -> (r: Register16)
        ensures
            r == spec_register16_of_r16stk_operand(r16stk_operand),
    {
        match r16stk_operand {
            R16StkOperand::BC => Register16::BC,
            R16StkOperand::DE => Register16::DE,
            R16StkOperand::HL => Register16::HL,
            R16StkOperand::AF => Register16::AF,
        }
    }
}

/// The 2-bit code of a pair in the BC/DE/HL/SP family.
pub open spec fn spec_r16_code(register: Register16) -> u8 {
    match register {
        Register16::BC => 0,
        Register16::DE => 1,
        Register16::HL => 2,
        _ => 3,
    }
}

/// The 2-bit code of a pair in the BC/DE/HL/AF family.
pub open spec fn spec_r16stk_code(register: Register16) -> u8 {
    match register {
        Register16::BC => 0,
        Register16::DE => 1,
        Register16::HL => 2,
        _ => 3,
    }
}

} // verus!

//! Operand taxonomy: the packed 3-bit and 2-bit operand families that the
//! opcode bytes carry, with their byte encodings.

use vstd::prelude::*;

verus! {

/// The 3-bit register-operand family. `HLInd` stands for the byte in
/// memory at address HL and is not a plain register.
#[derive(Debug, Clone, Copy, PartialEq, Eq, Structural)]
pub enum R8Operand {
    B,
    C,
    D,
    E,
    H,
    L,
    HLInd,
    A,
}

/// Encoding of an `R8Operand` inside an opcode byte.
pub open spec fn spec_r8_operand_of_byte(byte: u8) -> R8Operand {
    if byte == 0 {
        R8Operand::B
    } else if byte == 1 {
        R8Operand::C
    } else if byte == 2 {
        R8Operand::D
    } else if byte == 3 {
        R8Operand::E
    } else if byte == 4 {
        R8Operand::H
    } else if byte == 5 {
        R8Operand::L
    } else if byte == 6 {
        R8Operand::HLInd
    } else {
        R8Operand::A
    }
}

pub open spec fn spec_r8_operand_to_byte(operand: R8Operand) -> u8 {
    match operand {
        R8Operand::B => 0,
        R8Operand::C => 1,
        R8Operand::D => 2,
        R8Operand::E => 3,
        R8Operand::H => 4,
        R8Operand::L => 5,
        R8Operand::HLInd => 6,
        R8Operand::A => 7,
    }
}

impl R8Operand {
    pub fn from_byte(byte: u8) -> (r: R8Operand)
        requires
            byte < 8,
        ensures
            r == spec_r8_operand_of_byte(byte),
    {
        match byte {
            0 => R8Operand::B,
            1 => R8Operand::C,
            2 => R8Operand::D,
            3 => R8Operand::E,
            4 => R8Operand::H,
            5 => R8Operand::L,
            6 => R8Operand::HLInd,
            _ => R8Operand::A,
        }
    }

    pub fn to_byte(&self) -> (r: u8)
        ensures
            r == spec_r8_operand_to_byte(*self),
            r < 8,
            spec_r8_operand_of_byte(r) == *self,
    {
        match self {
            R8Operand::B => 0,
            R8Operand::C => 1,
            R8Operand::D => 2,
            R8Operand::E => 3,
            R8Operand::H => 4,
            R8Operand::L => 5,
            R8Operand::HLInd => 6,
            R8Operand::A => 7,
        }
    }
}

/// The 2-bit register-pair family used by arithmetic and load opcodes.
#[derive(Debug, Clone, Copy, PartialEq, Eq, Structural)]
pub enum R16Operand {
    BC,
    DE,
    HL,
    SP,
}

pub open spec fn spec_r16_operand_of_byte(byte: u8) -> R16Operand {
    if byte == 0 {
        R16Operand::BC
    } else if byte == 1 {
        R16Operand::DE
    } else if byte == 2 {
        R16Operand::HL
    } else {
        R16Operand::SP
    }
}

pub open spec fn spec_r16_operand_to_byte(operand: R16Operand) -> u8 {
    match operand {
        R16Operand::BC => 0,
        R16Operand::DE => 1,
        R16Operand::HL => 2,
        R16Operand::SP => 3,
    }
}

impl R16Operand {
    pub fn from_byte(byte: u8) -> (r: R16Operand)
        requires
            byte < 4,
        ensures
            r == spec_r16_operand_of_byte(byte),
    {
        match byte {
            0 => R16Operand::BC,
            1 => R16Operand::DE,
            2 => R16Operand::HL,
            _ => R16Operand::SP,
        }
    }

    pub fn to_byte(&self) -> (r: u8)
        ensures
            r == spec_r16_operand_to_byte(*self),
            r < 4,
            spec_r16_operand_of_byte(r) == *self,
    {
        match self {
            R16Operand::BC => 0,
            R16Operand::DE => 1,
            R16Operand::HL => 2,
            R16Operand::SP => 3,
        }
    }
}

/// The 2-bit family used by PUSH and POP: AF takes the place of SP.
#[derive(Debug, Clone, Copy, PartialEq, Eq, Structural)]
pub enum R16StkOperand {
    BC,
    DE,
    HL,
    AF,
}

pub open spec fn spec_r16stk_operand_of_byte(byte: u8) -> R16StkOperand {
    if byte == 0 {
        R16StkOperand::BC
    } else if byte == 1 {
        R16StkOperand::DE
    } else if byte == 2 {
        R16StkOperand::HL
    } else {
        R16StkOperand::AF
    }
}

pub open spec fn spec_r16stk_operand_to_byte(operand: R16StkOperand) -> u8 {
    match operand {
        R16StkOperand::BC => 0,
        R16StkOperand::DE => 1,
        R16StkOperand::HL => 2,
        R16StkOperand::AF => 3,
    }
}

impl R16StkOperand {
    pub fn from_byte(byte: u8) -> (r: R16StkOperand)
        requires
            byte < 4,
        ensures
            r == spec_r16stk_operand_of_byte(byte),
    {
        match byte {
            0 => R16StkOperand::BC,
            1 => R16StkOperand::DE,
            2 => R16StkOperand::HL,
            _ => R16StkOperand::AF,
        }
    }

    pub fn to_byte(&self) -> (r: u8)
        ensures
            r == spec_r16stk_operand_to_byte(*self),
            r < 4,
            spec_r16stk_operand_of_byte(r) == *self,
    {
        match self {
            R16StkOperand::BC => 0,
            R16StkOperand::DE => 1,
            R16StkOperand::HL => 2,
            R16StkOperand::AF => 3,
        }
    }
}

/// The 2-bit family used by the indirect accumulator loads: HL with
/// post-increment and HL with post-decrement take positions 2 and 3.
#[derive(Debug, Clone, Copy, PartialEq, Eq, Structural)]
pub enum R16MemOperand {
    BC,
    DE,
    HLI,
    HLD,
}

pub open spec fn spec_r16mem_operand_of_byte(byte: u8) -> R16MemOperand {
    if byte == 0 {
        R16MemOperand::BC
    } else if byte == 1 {
        R16MemOperand::DE
    } else if byte == 2 {
        R16MemOperand::HLI
    } else {
        R16MemOperand::HLD
    }
}

pub open spec fn spec_r16mem_operand_to_byte(operand: R16MemOperand) -> u8 {
    match operand {
        R16MemOperand::BC => 0,
        R16MemOperand::DE => 1,
        R16MemOperand::HLI => 2,
        R16MemOperand::HLD => 3,
    }
}

impl R16MemOperand {
    pub fn from_byte(byte: u8) -> (r: R16MemOperand)
        requires
            byte < 4,
        ensures
            r == spec_r16mem_operand_of_byte(byte),
    {
        match byte {
            0 => R16MemOperand::BC,
            1 => R16MemOperand::DE,
            2 => R16MemOperand::HLI,
            _ => R16MemOperand::HLD,
        }
    }

    pub fn to_byte(&self) -> (r: u8)
        ensures
            r == spec_r16mem_operand_to_byte(*self),
            r < 4,
            spec_r16mem_operand_of_byte(r) == *self,
    {
        match self {
            R16MemOperand::BC => 0,
            R16MemOperand::DE => 1,
            R16MemOperand::HLI => 2,
            R16MemOperand::HLD => 3,
        }
    }
}

/// The 2-bit condition family consulted by conditional jumps, calls and
/// returns.
#[derive(Debug, Clone, Copy, PartialEq, Eq, Structural)]
pub enum FlowCondition {
    NotZero,
    Zero,
    NotCarry,
    Carry,
}

pub open spec fn spec_flow_condition_of_byte(byte: u8) -> FlowCondition {
    if byte == 0 {
        FlowCondition::NotZero
    } else if byte == 1 {
        FlowCondition::Zero
    } else if byte == 2 {
        FlowCondition::NotCarry
    } else {
        FlowCondition::Carry
    }
}

pub open spec fn spec_flow_condition_to_byte(condition: FlowCondition) -> u8 {
    match condition {
        FlowCondition::NotZero => 0,
        FlowCondition::Zero => 1,
        FlowCondition::NotCarry => 2,
        FlowCondition::Carry => 3,
    }
}

impl FlowCondition {
    pub fn from_byte(byte: u8) -> (r: FlowCondition)
        requires
            byte < 4,
        ensures
            r == spec_flow_condition_of_byte(byte),
    {
        match byte {
            0 => FlowCondition::NotZero,
            1 => FlowCondition::Zero,
            2 => FlowCondition::NotCarry,
            _ => FlowCondition::Carry,
        }
    }

    pub fn to_byte(&self) -> (r: u8)
        ensures
            r == spec_flow_condition_to_byte(*self),
            r < 4,
            spec_flow_condition_of_byte(r) == *self,
    {
        match self {
            FlowCondition::NotZero => 0,
            FlowCondition::Zero => 1,
            FlowCondition::NotCarry => 2,
            FlowCondition::Carry => 3,
        }
    }
}

/// The kinds of operand field an opcode byte can carry.
#[derive(Debug, Clone, Copy, PartialEq, Eq, Structural)]
pub enum OperandType {
    R8Operand,
    R16Operand,
    R16StkOperand,
    R16MemOperand,
    FlowCondition,
    ResetTarget,
    BitIndex,
}

/// The five decoding blocks: the high two bits of the opcode byte, or the
/// 0xCB-prefixed secondary table.
#[derive(Debug, Clone, Copy, PartialEq, Eq, Structural)]
pub enum Block {
    ZERO,
    ONE,
    TWO,
    THREE,
    CB,
}

pub open spec fn spec_block_of_byte(opcode: u8, is_cb: bool) -> Block {
    if is_cb {
        Block::CB
    } else if opcode < 0x40 {
        Block::ZERO
    } else if opcode < 0x80 {
        Block::ONE
    } else if opcode < 0xC0 {
        Block::TWO
    } else {
        Block::THREE
    }
}

impl Block {
    pub fn from_byte(opcode: u8, is_cb: bool) -> (r: Block)
        ensures
            r == spec_block_of_byte(opcode, is_cb),
    {
        if is_cb {
            Block::CB
        } else if opcode < 0x40 {
            Block::ZERO
        } else if opcode < 0x80 {
            Block::ONE
        } else if opcode < 0xC0 {
            Block::TWO
        } else {
            Block::THREE
        }
    }
}

} // verus!

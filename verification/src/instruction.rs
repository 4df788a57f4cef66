//! The structured instruction representation and the codec between it and
//! the encoded byte stream.
//!
//! `spec_decode` is the mathematical decode map: three fetched bytes to an
//! instruction and its size in bytes, or `None` on an unused opcode.
//! `spec_encode` is its inverse on the legal instructions;
//! `lemma_codec_round_trip` proves the round trip.

use vstd::prelude::*;
use crate::operands::{
    spec_flow_condition_of_byte, spec_flow_condition_to_byte, spec_r16_operand_of_byte,
    spec_r16mem_operand_of_byte, spec_r16stk_operand_of_byte, spec_r8_operand_of_byte,
    FlowCondition, R16MemOperand, R16Operand, R16StkOperand, R8Operand,
};
use crate::registers::{
    spec_r16_code, spec_r16stk_code, spec_r8_code, spec_register16_of_r16_operand,
    spec_register16_of_r16stk_operand, spec_register_of_r8_operand, Register, Register16,
};

verus! {

/// One variant per mnemonic. Operands are plain registers, pairs, flow
/// conditions or immediates; the `[HL]` memory operand always appears as a
/// distinct `HLInd` variant because its semantics and cycle cost differ
/// from the register forms.
#[derive(Debug, Clone, Copy, PartialEq, Eq, Structural)]
pub enum Instruction {
    LD(Register, Register),
    LDImm(Register, u8),
    LDFromHLInd(Register),
    LDToHLInd(Register),
    LDToHlIndImm(u8),
    LDFromBCIndToA(),
    LDFromDEIndToA(),
    LDToBCIndFromA(),
    LDToDEIndFromA(),
    LDFromImmIndToA(u16),
    LDToImmIndFromA(u16),
    LDToAFromCInd(),
    LDFromAToCInd(),
    LDFromImmIndToA8(u8),
    LDToImmIndFromA8(u8),
    LDFromHLIndDecToA(),
    LDToHLIndDecFromA(),
    LDFromHLIndIncToA(),
    LDToHLIndIncFromA(),
    LDImm16(Register16, u16),
    LDToImmIndFromSP(u16),
    LDSPFromHL(),
    PUSH(Register16),
    POP(Register16),
    LDHLFromAdjustedSP(i8),
    ADD(Register),
    ADDHLInd(),
    ADDImm(u8),
    ADDC(Register),
    ADDCHLInd(),
    ADDCImm(u8),
    SUB(Register),
    SUBHLInd(),
    SUBImm(u8),
    SUBC(Register),
    SUBCHLInd(),
    SUBCImm(u8),
    CP(Register),
    CPHLInd(),
    CPImm(u8),
    INC(Register),
    INCHLInd(),
    DEC(Register),
    DECHLInd(),
    AND(Register),
    ANDHLInd(),
    ANDImm(u8),
    OR(Register),
    ORHLInd(),
    ORImm(u8),
    XOR(Register),
    XORHLInd(),
    XORImm(u8),
    CCF(),
    SCF(),
    DAA(),
    CPL(),
    INC16(Register16),
    DEC16(Register16),
    ADDHL(Register16),
    ADDSPImm(i8),
    RLCA(),
    RRCA(),
    RRA(),
    RLA(),
    RLCR(Register),
    RRCR(Register),
    RLCHLInd(),
    RRCHLInd(),
    RLR(Register),
    RLHLInd(),
    RRR(Register),
    RRHLInd(),
    SRAR(Register),
    SRAHLInd(),
    SLAR(Register),
    SLAHLInd(),
    SRLR(Register),
    SRLHLInd(),
    SWAPR(Register),
    SWAPHLInd(),
    BITR(u8, Register),
    BITHLInd(u8),
    RESETR(u8, Register),
    RESETHLInd(u8),
    SETR(u8, Register),
    SETHLInd(u8),
    NOP(),
    JP(u16),
    JPHL(),
    JPCC(FlowCondition, u16),
    JR(i8),
    JRCC(FlowCondition, i8),
    CALL(u16),
    CALLCC(FlowCondition, u16),
    RET(),
    RETCC(FlowCondition),
    RETI(),
    RST(u8),
    HALT(),
    STOP(),
    DI(),
    EI(),
}

/// A pair in the BC/DE/HL/SP family, as INC16, DEC16, ADD HL and
/// LD rr,imm16 take it.
pub open spec fn is_r16(register: Register16) -> bool {
    register == Register16::BC || register == Register16::DE || register == Register16::HL
        || register == Register16::SP
}

/// A pair in the BC/DE/HL/AF family, as PUSH and POP take it.
pub open spec fn is_r16stk(register: Register16) -> bool {
    register == Register16::BC || register == Register16::DE || register == Register16::HL
        || register == Register16::AF
}

/// A register that a 3-bit opcode operand can name: every byte register
/// except F.
pub open spec fn is_r8(register: Register) -> bool {
    register != Register::F
}

impl Instruction {
    /// The constructible set: what the encoder accepts and the decoder
    /// produces. Register operands exclude F, pair operands come from the
    /// family of the opcode, bit indices and reset targets are 3-bit.
    pub open spec fn wf(self) -> bool {
        match self {
            Instruction::LD(d, s) => is_r8(d) && is_r8(s),
            Instruction::LDImm(r, _) => is_r8(r),
            Instruction::LDFromHLInd(r) => is_r8(r),
            Instruction::LDToHLInd(r) => is_r8(r),
            Instruction::LDImm16(r, _) => is_r16(r),
            Instruction::PUSH(r) => is_r16stk(r),
            Instruction::POP(r) => is_r16stk(r),
            Instruction::ADD(r) => is_r8(r),
            Instruction::ADDC(r) => is_r8(r),
            Instruction::SUB(r) => is_r8(r),
            Instruction::SUBC(r) => is_r8(r),
            Instruction::CP(r) => is_r8(r),
            Instruction::INC(r) => is_r8(r),
            Instruction::DEC(r) => is_r8(r),
            Instruction::AND(r) => is_r8(r),
            Instruction::OR(r) => is_r8(r),
            Instruction::XOR(r) => is_r8(r),
            Instruction::INC16(r) => is_r16(r),
            Instruction::DEC16(r) => is_r16(r),
            Instruction::ADDHL(r) => is_r16(r),
            Instruction::RLCR(r) => is_r8(r),
            Instruction::RRCR(r) => is_r8(r),
            Instruction::RLR(r) => is_r8(r),
            Instruction::RRR(r) => is_r8(r),
            Instruction::SRAR(r) => is_r8(r),
            Instruction::SLAR(r) => is_r8(r),
            Instruction::SRLR(r) => is_r8(r),
            Instruction::SWAPR(r) => is_r8(r),
            Instruction::BITR(bit, r) => bit < 8 && is_r8(r),
            Instruction::BITHLInd(bit) => bit < 8,
            Instruction::RESETR(bit, r) => bit < 8 && is_r8(r),
            Instruction::RESETHLInd(bit) => bit < 8,
            Instruction::SETR(bit, r) => bit < 8 && is_r8(r),
            Instruction::SETHLInd(bit) => bit < 8,
            Instruction::RST(target) => target < 8,
            _ => true,
        }
    }

    /// PC advance of an instruction, in bytes.
    pub open spec fn spec_size(self) -> u16 {
        match self {
            Instruction::LDImm(_, _) => 2,
            Instruction::LDToHlIndImm(_) => 2,
            Instruction::LDFromImmIndToA(_) => 3,
            Instruction::LDToImmIndFromA(_) => 3,
            Instruction::LDFromImmIndToA8(_) => 2,
            Instruction::LDToImmIndFromA8(_) => 2,
            Instruction::LDImm16(_, _) => 3,
            Instruction::LDToImmIndFromSP(_) => 3,
            Instruction::LDHLFromAdjustedSP(_) => 2,
            Instruction::ADDImm(_) => 2,
            Instruction::ADDCImm(_) => 2,
            Instruction::SUBImm(_) => 2,
            Instruction::SUBCImm(_) => 2,
            Instruction::CPImm(_) => 2,
            Instruction::ANDImm(_) => 2,
            Instruction::ORImm(_) => 2,
            Instruction::XORImm(_) => 2,
            Instruction::ADDSPImm(_) => 2,
            Instruction::RLCR(_) => 2,
            Instruction::RRCR(_) => 2,
            Instruction::RLCHLInd() => 2,
            Instruction::RRCHLInd() => 2,
            Instruction::RLR(_) => 2,
            Instruction::RLHLInd() => 2,
            Instruction::RRR(_) => 2,
            Instruction::RRHLInd() => 2,
            Instruction::SRAR(_) => 2,
            Instruction::SRAHLInd() => 2,
            Instruction::SLAR(_) => 2,
            Instruction::SLAHLInd() => 2,
            Instruction::SRLR(_) => 2,
            Instruction::SRLHLInd() => 2,
            Instruction::SWAPR(_) => 2,
            Instruction::SWAPHLInd() => 2,
            Instruction::BITR(_, _) => 2,
            Instruction::BITHLInd(_) => 2,
            Instruction::RESETR(_, _) => 2,
            Instruction::RESETHLInd(_) => 2,
            Instruction::SETR(_, _) => 2,
            Instruction::SETHLInd(_) => 2,
            Instruction::JP(_) => 3,
            Instruction::JPCC(_, _) => 3,
            Instruction::JR(_) => 2,
            Instruction::JRCC(_, _) => 2,
            Instruction::CALL(_) => 3,
            Instruction::CALLCC(_, _) => 3,
            Instruction::STOP() => 2,
            _ => 1,
        }
    }
}

/// Decode map for the 0xCB-prefixed secondary table; always defined.
pub open spec fn spec_decode_cb(opcode: u8) -> (Instruction, u16) {
    let quarter = opcode / 64;
    let row = (opcode / 8) % 8;
    let col = opcode % 8;
    let operand = spec_r8_operand_of_byte(col);
    let register = spec_register_of_r8_operand(operand);
    if quarter == 0 {
        if row == 0 {
            if col == 6 {
                (Instruction::RLCHLInd(), 2)
            } else {
                (Instruction::RLCR(register), 2)
            }
        } else if row == 1 {
            if col == 6 {
                (Instruction::RRCHLInd(), 2)
            } else {
                (Instruction::RRCR(register), 2)
            }
        } else if row == 2 {
            if col == 6 {
                (Instruction::RLHLInd(), 2)
            } else {
                (Instruction::RLR(register), 2)
            }
        } else if row == 3 {
            if col == 6 {
                (Instruction::RRHLInd(), 2)
            } else {
                (Instruction::RRR(register), 2)
            }
        } else if row == 4 {
            if col == 6 {
                (Instruction::SLAHLInd(), 2)
            } else {
                (Instruction::SLAR(register), 2)
            }
        } else if row == 5 {
            if col == 6 {
                (Instruction::SRAHLInd(), 2)
            } else {
                (Instruction::SRAR(register), 2)
            }
        } else if row == 6 {
            if col == 6 {
                (Instruction::SWAPHLInd(), 2)
            } else {
                (Instruction::SWAPR(register), 2)
            }
        } else {
            if col == 6 {
                (Instruction::SRLHLInd(), 2)
            } else {
                (Instruction::SRLR(register), 2)
            }
        }
    } else if quarter == 1 {
        if col == 6 {
            (Instruction::BITHLInd(row), 2)
        } else {
            (Instruction::BITR(row, register), 2)
        }
    } else if quarter == 2 {
        if col == 6 {
            (Instruction::RESETHLInd(row), 2)
        } else {
            (Instruction::RESETR(row, register), 2)
        }
    } else {
        if col == 6 {
            (Instruction::SETHLInd(row), 2)
        } else {
            (Instruction::SETR(row, register), 2)
        }
    }
}

/// Decode map for block 0 (opcode high bits 00); always defined.
pub open spec fn spec_decode_block_0(opcode: u8, imm_8: u8, imm_16: u16) -> (Instruction, u16) {
    let row = opcode / 8;
    let col = opcode % 8;
    if col == 0 {
        if row == 0 {
            (Instruction::NOP(), 1)
        } else if row == 1 {
            (Instruction::LDToImmIndFromSP(imm_16), 3)
        } else if row == 2 {
            (Instruction::STOP(), 2)
        } else if row == 3 {
            (Instruction::JR(imm_8 as i8), 2)
        } else {
            (Instruction::JRCC(spec_flow_condition_of_byte((row - 4) as u8), imm_8 as i8), 2)
        }
    } else if col == 1 {
        let pair = spec_register16_of_r16_operand(spec_r16_operand_of_byte(row / 2));
        if row % 2 == 0 {
            (Instruction::LDImm16(pair, imm_16), 3)
        } else {
            (Instruction::ADDHL(pair), 1)
        }
    } else if col == 2 {
        let mem = spec_r16mem_operand_of_byte(row / 2);
        if row % 2 == 0 {
            match mem {
                R16MemOperand::BC => (Instruction::LDToBCIndFromA(), 1),
                R16MemOperand::DE => (Instruction::LDToDEIndFromA(), 1),
                R16MemOperand::HLI => (Instruction::LDToHLIndIncFromA(), 1),
                R16MemOperand::HLD => (Instruction::LDToHLIndDecFromA(), 1),
            }
        } else {
            match mem {
                R16MemOperand::BC => (Instruction::LDFromBCIndToA(), 1),
                R16MemOperand::DE => (Instruction::LDFromDEIndToA(), 1),
                R16MemOperand::HLI => (Instruction::LDFromHLIndIncToA(), 1),
                R16MemOperand::HLD => (Instruction::LDFromHLIndDecToA(), 1),
            }
        }
    } else if col == 3 {
        let pair = spec_register16_of_r16_operand(spec_r16_operand_of_byte(row / 2));
        if row % 2 == 0 {
            (Instruction::INC16(pair), 1)
        } else {
            (Instruction::DEC16(pair), 1)
        }
    } else if col == 4 {
        if row == 6 {
            (Instruction::INCHLInd(), 1)
        } else {
            (Instruction::INC(spec_register_of_r8_operand(spec_r8_operand_of_byte(row))), 1)
        }
    } else if col == 5 {
        if row == 6 {
            (Instruction::DECHLInd(), 1)
        } else {
            (Instruction::DEC(spec_register_of_r8_operand(spec_r8_operand_of_byte(row))), 1)
        }
    } else if col == 6 {
        if row == 6 {
            (Instruction::LDToHlIndImm(imm_8), 2)
        } else {
            (Instruction::LDImm(spec_register_of_r8_operand(spec_r8_operand_of_byte(row)), imm_8), 2)
        }
    } else {
        if row == 0 {
            (Instruction::RLCA(), 1)
        } else if row == 1 {
            (Instruction::RRCA(), 1)
        } else if row == 2 {
            (Instruction::RLA(), 1)
        } else if row == 3 {
            (Instruction::RRA(), 1)
        } else if row == 4 {
            (Instruction::DAA(), 1)
        } else if row == 5 {
            (Instruction::CPL(), 1)
        } else if row == 6 {
            (Instruction::SCF(), 1)
        } else {
            (Instruction::CCF(), 1)
        }
    }
}

/// Decode map for block 1 (opcode high bits 01): the LD r,r lattice, with
/// HALT in place of LD [HL],[HL]; always defined.
pub open spec fn spec_decode_block_1(opcode: u8) -> (Instruction, u16) {
    let dest = (opcode / 8) % 8;
    let source = opcode % 8;
    if dest == 6 && source == 6 {
        (Instruction::HALT(), 1)
    } else if dest == 6 {
        (
            Instruction::LDToHLInd(spec_register_of_r8_operand(spec_r8_operand_of_byte(source))),
            1,
        )
    } else if source == 6 {
        (Instruction::LDFromHLInd(spec_register_of_r8_operand(spec_r8_operand_of_byte(dest))), 1)
    } else {
        (
            Instruction::LD(
                spec_register_of_r8_operand(spec_r8_operand_of_byte(dest)),
                spec_register_of_r8_operand(spec_r8_operand_of_byte(source)),
            ),
            1,
        )
    }
}

/// Decode map for block 2 (opcode high bits 10): the eight arithmetic and
/// logical operations crossed with the 3-bit operand; always defined.
pub open spec fn spec_decode_block_2(opcode: u8) -> (Instruction, u16) {
    let operation = (opcode / 8) % 8;
    let col = opcode % 8;
    let register = spec_register_of_r8_operand(spec_r8_operand_of_byte(col));
    if operation == 0 {
        if col == 6 {
            (Instruction::ADDHLInd(), 1)
        } else {
            (Instruction::ADD(register), 1)
        }
    } else if operation == 1 {
        if col == 6 {
            (Instruction::ADDCHLInd(), 1)
        } else {
            (Instruction::ADDC(register), 1)
        }
    } else if operation == 2 {
        if col == 6 {
            (Instruction::SUBHLInd(), 1)
        } else {
            (Instruction::SUB(register), 1)
        }
    } else if operation == 3 {
        if col == 6 {
            (Instruction::SUBCHLInd(), 1)
        } else {
            (Instruction::SUBC(register), 1)
        }
    } else if operation == 4 {
        if col == 6 {
            (Instruction::ANDHLInd(), 1)
        } else {
            (Instruction::AND(register), 1)
        }
    } else if operation == 5 {
        if col == 6 {
            (Instruction::XORHLInd(), 1)
        } else {
            (Instruction::XOR(register), 1)
        }
    } else if operation == 6 {
        if col == 6 {
            (Instruction::ORHLInd(), 1)
        } else {
            (Instruction::OR(register), 1)
        }
    } else {
        if col == 6 {
            (Instruction::CPHLInd(), 1)
        } else {
            (Instruction::CP(register), 1)
        }
    }
}

/// Decode map for block 3 (opcode high bits 11). The unused opcodes of the
/// primary table all live here; on them the map is `None`.
pub open spec fn spec_decode_block_3(opcode: u8, imm_8: u8, imm_16: u16) -> Option<
    (Instruction, u16),
> {
    let row = (opcode / 8) % 8;
    let col = opcode % 8;
    if col == 0 {
        if row < 4 {
            Some((Instruction::RETCC(spec_flow_condition_of_byte(row)), 1))
        } else if row == 4 {
            Some((Instruction::LDToImmIndFromA8(imm_8), 2))
        } else if row == 5 {
            Some((Instruction::ADDSPImm(imm_8 as i8), 2))
        } else if row == 6 {
            Some((Instruction::LDFromImmIndToA8(imm_8), 2))
        } else {
            Some((Instruction::LDHLFromAdjustedSP(imm_8 as i8), 2))
        }
    } else if col == 1 {
        if row % 2 == 0 {
            let pair = spec_register16_of_r16stk_operand(spec_r16stk_operand_of_byte(row / 2));
            Some((Instruction::POP(pair), 1))
        } else if row == 1 {
            Some((Instruction::RET(), 1))
        } else if row == 3 {
            Some((Instruction::RETI(), 1))
        } else if row == 5 {
            Some((Instruction::JPHL(), 1))
        } else {
            Some((Instruction::LDSPFromHL(), 1))
        }
    } else if col == 2 {
        if row < 4 {
            Some((Instruction::JPCC(spec_flow_condition_of_byte(row), imm_16), 3))
        } else if row == 4 {
            Some((Instruction::LDFromAToCInd(), 1))
        } else if row == 5 {
            Some((Instruction::LDToImmIndFromA(imm_16), 3))
        } else if row == 6 {
            Some((Instruction::LDToAFromCInd(), 1))
        } else {
            Some((Instruction::LDFromImmIndToA(imm_16), 3))
        }
    } else if col == 3 {
        if row == 0 {
            Some((Instruction::JP(imm_16), 3))
        } else if row == 6 {
            Some((Instruction::DI(), 1))
        } else if row == 7 {
            Some((Instruction::EI(), 1))
        } else {
            None
        }
    } else if col == 4 {
        if row < 4 {
            Some((Instruction::CALLCC(spec_flow_condition_of_byte(row), imm_16), 3))
        } else {
            None
        }
    } else if col == 5 {
        if row % 2 == 0 {
            let pair = spec_register16_of_r16stk_operand(spec_r16stk_operand_of_byte(row / 2));
            Some((Instruction::PUSH(pair), 1))
        } else if row == 1 {
            Some((Instruction::CALL(imm_16), 3))
        } else {
            None
        }
    } else if col == 6 {
        if row == 0 {
            Some((Instruction::ADDImm(imm_8), 2))
        } else if row == 1 {
            Some((Instruction::ADDCImm(imm_8), 2))
        } else if row == 2 {
            Some((Instruction::SUBImm(imm_8), 2))
        } else if row == 3 {
            Some((Instruction::SUBCImm(imm_8), 2))
        } else if row == 4 {
            Some((Instruction::ANDImm(imm_8), 2))
        } else if row == 5 {
            Some((Instruction::XORImm(imm_8), 2))
        } else if row == 6 {
            Some((Instruction::ORImm(imm_8), 2))
        } else {
            Some((Instruction::CPImm(imm_8), 2))
        }
    } else {
        Some((Instruction::RST(row), 1))
    }
}

/// The 16-bit immediate carried little-endian in the second and third
/// bytes.
pub open spec fn spec_imm16(second_byte: u8, third_byte: u8) -> u16 {
    (second_byte + 256 * third_byte) as u16
}

impl Instruction {
    /// Decode three fetched bytes into an instruction and its size in
    /// bytes, or `None` on an unused opcode.
    pub fn decode(first_byte: u8, second_byte: u8, third_byte: u8) -> (r: Option<
        (Instruction, u16),
    >)
        ensures
            r == spec_decode(first_byte, second_byte, third_byte),
            r matches Some((instruction, size)) ==> instruction.wf() && 1 <= size <= 3
                && size == instruction.spec_size(),
    {
        proof {
            lemma_spec_decode_wf(first_byte, second_byte, third_byte);
        }
        if first_byte == 0xCB {
            Some(Self::decode_cb(second_byte))
        } else {
            let imm_16: u16 = (second_byte as u16) + 256 * (third_byte as u16);
            if first_byte < 0x40 {
                Some(Self::decode_block_0(first_byte, second_byte, imm_16))
            } else if first_byte < 0x80 {
                Some(Self::decode_block_1(first_byte))
            } else if first_byte < 0xC0 {
                Some(Self::decode_block_2(first_byte))
            } else {
                Self::decode_block_3(first_byte, second_byte, imm_16)
            }
        }
    }

    fn decode_cb(opcode: u8) -> (r: (Instruction, u16))
        ensures
            r == spec_decode_cb(opcode),
    {
        let quarter = opcode / 64;
        let row = (opcode / 8) % 8;
        let col = opcode % 8;
        let operand = R8Operand::from_byte(col);
        if quarter == 0 {
            if row == 0 {
                match operand {
                    R8Operand::HLInd => (Instruction::RLCHLInd(), 2),
                    _ => (Instruction::RLCR(Register::from_r8_operand(operand)), 2),
                }
            } else if row == 1 {
                match operand {
                    R8Operand::HLInd => (Instruction::RRCHLInd(), 2),
                    _ => (Instruction::RRCR(Register::from_r8_operand(operand)), 2),
                }
            } else if row == 2 {
                match operand {
                    R8Operand::HLInd => (Instruction::RLHLInd(), 2),
                    _ => (Instruction::RLR(Register::from_r8_operand(operand)), 2),
                }
            } else if row == 3 {
                match operand {
                    R8Operand::HLInd => (Instruction::RRHLInd(), 2),
                    _ => (Instruction::RRR(Register::from_r8_operand(operand)), 2),
                }
            } else if row == 4 {
                match operand {
                    R8Operand::HLInd => (Instruction::SLAHLInd(), 2),
                    _ => (Instruction::SLAR(Register::from_r8_operand(operand)), 2),
                }
            } else if row == 5 {
                match operand {
                    R8Operand::HLInd => (Instruction::SRAHLInd(), 2),
                    _ => (Instruction::SRAR(Register::from_r8_operand(operand)), 2),
                }
            } else if row == 6 {
                match operand {
                    R8Operand::HLInd => (Instruction::SWAPHLInd(), 2),
                    _ => (Instruction::SWAPR(Register::from_r8_operand(operand)), 2),
                }
            } else {
                match operand {
                    R8Operand::HLInd => (Instruction::SRLHLInd(), 2),
                    _ => (Instruction::SRLR(Register::from_r8_operand(operand)), 2),
                }
            }
        } else if quarter == 1 {
            match operand {
                R8Operand::HLInd => (Instruction::BITHLInd(row), 2),
                _ => (Instruction::BITR(row, Register::from_r8_operand(operand)), 2),
            }
        } else if quarter == 2 {
            match operand {
                R8Operand::HLInd => (Instruction::RESETHLInd(row), 2),
                _ => (Instruction::RESETR(row, Register::from_r8_operand(operand)), 2),
            }
        } else {
            match operand {
                R8Operand::HLInd => (Instruction::SETHLInd(row), 2),
                _ => (Instruction::SETR(row, Register::from_r8_operand(operand)), 2),
            }
        }
    }

    fn decode_block_0(opcode: u8, imm_8: u8, imm_16: u16) -> (r: (Instruction, u16))
        requires
            opcode < 0x40,
        ensures
            r == spec_decode_block_0(opcode, imm_8, imm_16),
    {
        let row = opcode / 8;
        let col = opcode % 8;
        if col == 0 {
            if row == 0 {
                (Instruction::NOP(), 1)
            } else if row == 1 {
                (Instruction::LDToImmIndFromSP(imm_16), 3)
            } else if row == 2 {
                (Instruction::STOP(), 2)
            } else if row == 3 {
                (Instruction::JR(imm_8 as i8), 2)
            } else {
                (Instruction::JRCC(FlowCondition::from_byte(row - 4), imm_8 as i8), 2)
            }
        } else if col == 1 {
            let pair = Register16::from_r16_operand(R16Operand::from_byte(row / 2));
            if row % 2 == 0 {
                (Instruction::LDImm16(pair, imm_16), 3)
            } else {
                (Instruction::ADDHL(pair), 1)
            }
        } else if col == 2 {
            let mem = R16MemOperand::from_byte(row / 2);
            if row % 2 == 0 {
                match mem {
                    R16MemOperand::BC => (Instruction::LDToBCIndFromA(), 1),
                    R16MemOperand::DE => (Instruction::LDToDEIndFromA(), 1),
                    R16MemOperand::HLI => (Instruction::LDToHLIndIncFromA(), 1),
                    R16MemOperand::HLD => (Instruction::LDToHLIndDecFromA(), 1),
                }
            } else {
                match mem {
                    R16MemOperand::BC => (Instruction::LDFromBCIndToA(), 1),
                    R16MemOperand::DE => (Instruction::LDFromDEIndToA(), 1),
                    R16MemOperand::HLI => (Instruction::LDFromHLIndIncToA(), 1),
                    R16MemOperand::HLD => (Instruction::LDFromHLIndDecToA(), 1),
                }
            }
        } else if col == 3 {
            let pair = Register16::from_r16_operand(R16Operand::from_byte(row / 2));
            if row % 2 == 0 {
                (Instruction::INC16(pair), 1)
            } else {
                (Instruction::DEC16(pair), 1)
            }
        } else if col == 4 {
            if row == 6 {
                (Instruction::INCHLInd(), 1)
            } else {
                (Instruction::INC(Register::from_r8_operand(R8Operand::from_byte(row))), 1)
            }
        } else if col == 5 {
            if row == 6 {
                (Instruction::DECHLInd(), 1)
            } else {
                (Instruction::DEC(Register::from_r8_operand(R8Operand::from_byte(row))), 1)
            }
        } else if col == 6 {
            if row == 6 {
                (Instruction::LDToHlIndImm(imm_8), 2)
            } else {
                (Instruction::LDImm(Register::from_r8_operand(R8Operand::from_byte(row)), imm_8), 2)
            }
        } else {
            if row == 0 {
                (Instruction::RLCA(), 1)
            } else if row == 1 {
                (Instruction::RRCA(), 1)
            } else if row == 2 {
                (Instruction::RLA(), 1)
            } else if row == 3 {
                (Instruction::RRA(), 1)
            } else if row == 4 {
                (Instruction::DAA(), 1)
            } else if row == 5 {
                (Instruction::CPL(), 1)
            } else if row == 6 {
                (Instruction::SCF(), 1)
            } else {
                (Instruction::CCF(), 1)
            }
        }
    }

    fn decode_block_1(opcode: u8) -> (r: (Instruction, u16))
        requires
            0x40 <= opcode < 0x80,
        ensures
            r == spec_decode_block_1(opcode),
    {
        let dest = (opcode / 8) % 8;
        let source = opcode % 8;
        if dest == 6 && source == 6 {
            (Instruction::HALT(), 1)
        } else if dest == 6 {
            (
                Instruction::LDToHLInd(Register::from_r8_operand(R8Operand::from_byte(source))),
                1,
            )
        } else if source == 6 {
            (Instruction::LDFromHLInd(Register::from_r8_operand(R8Operand::from_byte(dest))), 1)
        } else {
            (
                Instruction::LD(
                    Register::from_r8_operand(R8Operand::from_byte(dest)),
                    Register::from_r8_operand(R8Operand::from_byte(source)),
                ),
                1,
            )
        }
    }

    fn decode_block_2(opcode: u8) -> (r: (Instruction, u16))
        requires
            0x80 <= opcode < 0xC0,
        ensures
            r == spec_decode_block_2(opcode),
    {
        let operation = (opcode / 8) % 8;
        let col = opcode % 8;
        let operand = R8Operand::from_byte(col);
        if operation == 0 {
            match operand {
                R8Operand::HLInd => (Instruction::ADDHLInd(), 1),
                _ => (Instruction::ADD(Register::from_r8_operand(operand)), 1),
            }
        } else if operation == 1 {
            match operand {
                R8Operand::HLInd => (Instruction::ADDCHLInd(), 1),
                _ => (Instruction::ADDC(Register::from_r8_operand(operand)), 1),
            }
        } else if operation == 2 {
            match operand {
                R8Operand::HLInd => (Instruction::SUBHLInd(), 1),
                _ => (Instruction::SUB(Register::from_r8_operand(operand)), 1),
            }
        } else if operation == 3 {
            match operand {
                R8Operand::HLInd => (Instruction::SUBCHLInd(), 1),
                _ => (Instruction::SUBC(Register::from_r8_operand(operand)), 1),
            }
        } else if operation == 4 {
            match operand {
                R8Operand::HLInd => (Instruction::ANDHLInd(), 1),
                _ => (Instruction::AND(Register::from_r8_operand(operand)), 1),
            }
        } else if operation == 5 {
            match operand {
                R8Operand::HLInd => (Instruction::XORHLInd(), 1),
                _ => (Instruction::XOR(Register::from_r8_operand(operand)), 1),
            }
        } else if operation == 6 {
            match operand {
                R8Operand::HLInd => (Instruction::ORHLInd(), 1),
                _ => (Instruction::OR(Register::from_r8_operand(operand)), 1),
            }
        } else {
            match operand {
                R8Operand::HLInd => (Instruction::CPHLInd(), 1),
                _ => (Instruction::CP(Register::from_r8_operand(operand)), 1),
            }
        }
    }

    fn decode_block_3(opcode: u8, imm_8: u8, imm_16: u16) -> (r: Option<(Instruction, u16)>)
        requires
            0xC0 <= opcode,
        ensures
            r == spec_decode_block_3(opcode, imm_8, imm_16),
    {
        let row = (opcode / 8) % 8;
        let col = opcode % 8;
        if col == 0 {
            if row < 4 {
                Some((Instruction::RETCC(FlowCondition::from_byte(row)), 1))
            } else if row == 4 {
                Some((Instruction::LDToImmIndFromA8(imm_8), 2))
            } else if row == 5 {
                Some((Instruction::ADDSPImm(imm_8 as i8), 2))
            } else if row == 6 {
                Some((Instruction::LDFromImmIndToA8(imm_8), 2))
            } else {
                Some((Instruction::LDHLFromAdjustedSP(imm_8 as i8), 2))
            }
        } else if col == 1 {
            if row % 2 == 0 {
                let pair = Register16::from_r16stk_operand(R16StkOperand::from_byte(row / 2));
                Some((Instruction::POP(pair), 1))
            } else if row == 1 {
                Some((Instruction::RET(), 1))
            } else if row == 3 {
                Some((Instruction::RETI(), 1))
            } else if row == 5 {
                Some((Instruction::JPHL(), 1))
            } else {
                Some((Instruction::LDSPFromHL(), 1))
            }
        } else if col == 2 {
            if row < 4 {
                Some((Instruction::JPCC(FlowCondition::from_byte(row), imm_16), 3))
            } else if row == 4 {
                Some((Instruction::LDFromAToCInd(), 1))
            } else if row == 5 {
                Some((Instruction::LDToImmIndFromA(imm_16), 3))
            } else if row == 6 {
                Some((Instruction::LDToAFromCInd(), 1))
            } else {
                Some((Instruction::LDFromImmIndToA(imm_16), 3))
            }
        } else if col == 3 {
            if row == 0 {
                Some((Instruction::JP(imm_16), 3))
            } else if row == 6 {
                Some((Instruction::DI(), 1))
            } else if row == 7 {
                Some((Instruction::EI(), 1))
            } else {
                None
            }
        } else if col == 4 {
            if row < 4 {
                Some((Instruction::CALLCC(FlowCondition::from_byte(row), imm_16), 3))
            } else {
                None
            }
        } else if col == 5 {
            if row % 2 == 0 {
                let pair = Register16::from_r16stk_operand(R16StkOperand::from_byte(row / 2));
                Some((Instruction::PUSH(pair), 1))
            } else if row == 1 {
                Some((Instruction::CALL(imm_16), 3))
            } else {
                None
            }
        } else if col == 6 {
            if row == 0 {
                Some((Instruction::ADDImm(imm_8), 2))
            } else if row == 1 {
                Some((Instruction::ADDCImm(imm_8), 2))
            } else if row == 2 {
                Some((Instruction::SUBImm(imm_8), 2))
            } else if row == 3 {
                Some((Instruction::SUBCImm(imm_8), 2))
            } else if row == 4 {
                Some((Instruction::ANDImm(imm_8), 2))
            } else if row == 5 {
                Some((Instruction::XORImm(imm_8), 2))
            } else if row == 6 {
                Some((Instruction::ORImm(imm_8), 2))
            } else {
                Some((Instruction::CPImm(imm_8), 2))
            }
        } else {
            Some((Instruction::RST(row), 1))
        }
    }
}

proof fn lemma_decode_cb_wf(opcode: u8)
    ensures
        spec_decode_cb(opcode).0.wf(),
        spec_decode_cb(opcode).1 == spec_decode_cb(opcode).0.spec_size(),
        spec_decode_cb(opcode).1 == 2,
{
}

proof fn lemma_decode_block_0_wf(opcode: u8, imm_8: u8, imm_16: u16)
    requires
        opcode < 0x40,
    ensures
        spec_decode_block_0(opcode, imm_8, imm_16).0.wf(),
        spec_decode_block_0(opcode, imm_8, imm_16).1 == spec_decode_block_0(
            opcode,
            imm_8,
            imm_16,
        ).0.spec_size(),
        1 <= spec_decode_block_0(opcode, imm_8, imm_16).1 <= 3,
{
}

proof fn lemma_decode_block_1_wf(opcode: u8)
    ensures
        spec_decode_block_1(opcode).0.wf(),
        spec_decode_block_1(opcode).1 == spec_decode_block_1(opcode).0.spec_size(),
        spec_decode_block_1(opcode).1 == 1,
{
}

proof fn lemma_decode_block_2_wf(opcode: u8)
    ensures
        spec_decode_block_2(opcode).0.wf(),
        spec_decode_block_2(opcode).1 == spec_decode_block_2(opcode).0.spec_size(),
        spec_decode_block_2(opcode).1 == 1,
{
}

proof fn lemma_decode_block_3_wf(opcode: u8, imm_8: u8, imm_16: u16)
    ensures
        spec_decode_block_3(opcode, imm_8, imm_16) matches Some((instruction, size))
            ==> instruction.wf() && 1 <= size <= 3 && size == instruction.spec_size(),
{
}

/// Everything the decode map yields is a well-formed instruction whose
/// reported size is the instruction's own size, between 1 and 3 bytes.
pub proof fn lemma_spec_decode_wf(first_byte: u8, second_byte: u8, third_byte: u8)
    ensures
        spec_decode(first_byte, second_byte, third_byte) matches Some((instruction, size))
            ==> instruction.wf() && 1 <= size <= 3 && size == instruction.spec_size(),
{
    lemma_decode_cb_wf(second_byte);
    let imm_16 = spec_imm16(second_byte, third_byte);
    if first_byte < 0x40 {
        lemma_decode_block_0_wf(first_byte, second_byte, imm_16);
    }
    lemma_decode_block_1_wf(first_byte);
    lemma_decode_block_2_wf(first_byte);
    lemma_decode_block_3_wf(first_byte, second_byte, imm_16);
}

/// The full decode map: three fetched bytes to an instruction and its
/// size, or `None` when the first byte (or the CB second byte) is an
/// unused opcode. Only block 3 of the primary table has unused opcodes;
/// the CB table and blocks 0 to 2 are total.
pub open spec fn spec_decode(first_byte: u8, second_byte: u8, third_byte: u8) -> Option<
    (Instruction, u16),
> {
    if first_byte == 0xCB {
        Some(spec_decode_cb(second_byte))
    } else {
        let imm_16 = spec_imm16(second_byte, third_byte);
        if first_byte < 0x40 {
            Some(spec_decode_block_0(first_byte, second_byte, imm_16))
        } else if first_byte < 0x80 {
            Some(spec_decode_block_1(first_byte))
        } else if first_byte < 0xC0 {
            Some(spec_decode_block_2(first_byte))
        } else {
            spec_decode_block_3(first_byte, second_byte, imm_16)
        }
    }
}

/// Encode map: a legal instruction to its three bytes. Bytes past the
/// instruction's true size are zero and irrelevant.
pub open spec fn spec_encode(instruction: Instruction) -> (u8, u8, u8) {
    match instruction {
        // CB-prefixed table
        Instruction::RLCR(r) => (0xCB, spec_r8_code(r), 0),
        Instruction::RRCR(r) => (0xCB, (8 + spec_r8_code(r)) as u8, 0),
        Instruction::RLR(r) => (0xCB, (16 + spec_r8_code(r)) as u8, 0),
        Instruction::RRR(r) => (0xCB, (24 + spec_r8_code(r)) as u8, 0),
        Instruction::SLAR(r) => (0xCB, (32 + spec_r8_code(r)) as u8, 0),
        Instruction::SRAR(r) => (0xCB, (40 + spec_r8_code(r)) as u8, 0),
        Instruction::SWAPR(r) => (0xCB, (48 + spec_r8_code(r)) as u8, 0),
        Instruction::SRLR(r) => (0xCB, (56 + spec_r8_code(r)) as u8, 0),
        Instruction::RLCHLInd() => (0xCB, 6, 0),
        Instruction::RRCHLInd() => (0xCB, 14, 0),
        Instruction::RLHLInd() => (0xCB, 22, 0),
        Instruction::RRHLInd() => (0xCB, 30, 0),
        Instruction::SLAHLInd() => (0xCB, 38, 0),
        Instruction::SRAHLInd() => (0xCB, 46, 0),
        Instruction::SWAPHLInd() => (0xCB, 54, 0),
        Instruction::SRLHLInd() => (0xCB, 62, 0),
        Instruction::BITR(bit, r) => (0xCB, (64 + bit * 8 + spec_r8_code(r)) as u8, 0),
        Instruction::RESETR(bit, r) => (0xCB, (128 + bit * 8 + spec_r8_code(r)) as u8, 0),
        Instruction::SETR(bit, r) => (0xCB, (192 + bit * 8 + spec_r8_code(r)) as u8, 0),
        Instruction::BITHLInd(bit) => (0xCB, (64 + bit * 8 + 6) as u8, 0),
        Instruction::RESETHLInd(bit) => (0xCB, (128 + bit * 8 + 6) as u8, 0),
        Instruction::SETHLInd(bit) => (0xCB, (192 + bit * 8 + 6) as u8, 0),
        // Block 0
        Instruction::NOP() => (0x00, 0, 0),
        Instruction::RLCA() => (0x07, 0, 0),
        Instruction::RRCA() => (0x0F, 0, 0),
        Instruction::RLA() => (0x17, 0, 0),
        Instruction::RRA() => (0x1F, 0, 0),
        Instruction::DAA() => (0x27, 0, 0),
        Instruction::CPL() => (0x2F, 0, 0),
        Instruction::SCF() => (0x37, 0, 0),
        Instruction::CCF() => (0x3F, 0, 0),
        Instruction::STOP() => (0x10, 0, 0),
        Instruction::INC(r) => ((4 + spec_r8_code(r) * 8) as u8, 0, 0),
        Instruction::DEC(r) => ((5 + spec_r8_code(r) * 8) as u8, 0, 0),
        Instruction::INCHLInd() => (0x34, 0, 0),
        Instruction::DECHLInd() => (0x35, 0, 0),
        Instruction::JR(d) => (0x18, d as u8, 0),
        Instruction::JRCC(cc, d) => (
            (0x20 + spec_flow_condition_to_byte(cc) * 8) as u8,
            d as u8,
            0,
        ),
        Instruction::INC16(rr) => ((3 + spec_r16_code(rr) * 16) as u8, 0, 0),
        Instruction::DEC16(rr) => ((11 + spec_r16_code(rr) * 16) as u8, 0, 0),
        Instruction::ADDHL(rr) => ((9 + spec_r16_code(rr) * 16) as u8, 0, 0),
        Instruction::LDToImmIndFromSP(v) => (0x08, (v % 256) as u8, (v / 256) as u8),
        Instruction::LDImm(r, v) => ((6 + spec_r8_code(r) * 8) as u8, v, 0),
        Instruction::LDToHlIndImm(v) => (0x36, v, 0),
        Instruction::LDImm16(rr, v) => (
            (1 + spec_r16_code(rr) * 16) as u8,
            (v % 256) as u8,
            (v / 256) as u8,
        ),
        Instruction::LDToBCIndFromA() => (0x02, 0, 0),
        Instruction::LDToDEIndFromA() => (0x12, 0, 0),
        Instruction::LDToHLIndIncFromA() => (0x22, 0, 0),
        Instruction::LDToHLIndDecFromA() => (0x32, 0, 0),
        Instruction::LDFromBCIndToA() => (0x0A, 0, 0),
        Instruction::LDFromDEIndToA() => (0x1A, 0, 0),
        Instruction::LDFromHLIndIncToA() => (0x2A, 0, 0),
        Instruction::LDFromHLIndDecToA() => (0x3A, 0, 0),
        // Block 1
        Instruction::HALT() => (0x76, 0, 0),
        Instruction::LD(d, s) => ((64 + spec_r8_code(d) * 8 + spec_r8_code(s)) as u8, 0, 0),
        Instruction::LDToHLInd(s) => ((112 + spec_r8_code(s)) as u8, 0, 0),
        Instruction::LDFromHLInd(d) => ((64 + spec_r8_code(d) * 8 + 6) as u8, 0, 0),
        // Block 2
        Instruction::ADD(r) => ((128 + spec_r8_code(r)) as u8, 0, 0),
        Instruction::ADDC(r) => ((136 + spec_r8_code(r)) as u8, 0, 0),
        Instruction::SUB(r) => ((144 + spec_r8_code(r)) as u8, 0, 0),
        Instruction::SUBC(r) => ((152 + spec_r8_code(r)) as u8, 0, 0),
        Instruction::AND(r) => ((160 + spec_r8_code(r)) as u8, 0, 0),
        Instruction::XOR(r) => ((168 + spec_r8_code(r)) as u8, 0, 0),
        Instruction::OR(r) => ((176 + spec_r8_code(r)) as u8, 0, 0),
        Instruction::CP(r) => ((184 + spec_r8_code(r)) as u8, 0, 0),
        Instruction::ADDHLInd() => (0x86, 0, 0),
        Instruction::ADDCHLInd() => (0x8E, 0, 0),
        Instruction::SUBHLInd() => (0x96, 0, 0),
        Instruction::SUBCHLInd() => (0x9E, 0, 0),
        Instruction::ANDHLInd() => (0xA6, 0, 0),
        Instruction::XORHLInd() => (0xAE, 0, 0),
        Instruction::ORHLInd() => (0xB6, 0, 0),
        Instruction::CPHLInd() => (0xBE, 0, 0),
        // Block 3
        Instruction::ADDImm(v) => (0xC6, v, 0),
        Instruction::ADDCImm(v) => (0xCE, v, 0),
        Instruction::SUBImm(v) => (0xD6, v, 0),
        Instruction::SUBCImm(v) => (0xDE, v, 0),
        Instruction::ANDImm(v) => (0xE6, v, 0),
        Instruction::XORImm(v) => (0xEE, v, 0),
        Instruction::ORImm(v) => (0xF6, v, 0),
        Instruction::CPImm(v) => (0xFE, v, 0),
        Instruction::RET() => (0xC9, 0, 0),
        Instruction::RETI() => (0xD9, 0, 0),
        Instruction::DI() => (0xF3, 0, 0),
        Instruction::EI() => (0xFB, 0, 0),
        Instruction::ADDSPImm(d) => (0xE8, d as u8, 0),
        Instruction::LDHLFromAdjustedSP(d) => (0xF8, d as u8, 0),
        Instruction::LDSPFromHL() => (0xF9, 0, 0),
        Instruction::LDFromAToCInd() => (0xE2, 0, 0),
        Instruction::LDToImmIndFromA8(v) => (0xE0, v, 0),
        Instruction::LDToAFromCInd() => (0xF2, 0, 0),
        Instruction::LDFromImmIndToA8(v) => (0xF0, v, 0),
        Instruction::JPHL() => (0xE9, 0, 0),
        Instruction::LDToImmIndFromA(v) => (0xEA, (v % 256) as u8, (v / 256) as u8),
        Instruction::LDFromImmIndToA(v) => (0xFA, (v % 256) as u8, (v / 256) as u8),
        Instruction::CALL(v) => (0xCD, (v % 256) as u8, (v / 256) as u8),
        Instruction::JP(v) => (0xC3, (v % 256) as u8, (v / 256) as u8),
        Instruction::RST(t) => ((0xC7 + t * 8) as u8, 0, 0),
        Instruction::RETCC(cc) => ((0xC0 + spec_flow_condition_to_byte(cc) * 8) as u8, 0, 0),
        Instruction::JPCC(cc, v) => (
            (0xC2 + spec_flow_condition_to_byte(cc) * 8) as u8,
            (v % 256) as u8,
            (v / 256) as u8,
        ),
        Instruction::CALLCC(cc, v) => (
            (0xC4 + spec_flow_condition_to_byte(cc) * 8) as u8,
            (v % 256) as u8,
            (v / 256) as u8,
        ),
        Instruction::POP(rr) => ((0xC1 + spec_r16stk_code(rr) * 16) as u8, 0, 0),
        Instruction::PUSH(rr) => ((0xC5 + spec_r16stk_code(rr) * 16) as u8, 0, 0),
    }
}

impl Instruction {
    /// Encode a legal instruction into three bytes; trailing bytes beyond
    /// the instruction's true size are zero.
    #[verifier::rlimit(100)]
    #[verifier::spinoff_prover]
    pub fn encode(instruction: Instruction) -> (r: [u8; 3])
        requires
            instruction.wf(),
        ensures
            (r[0], r[1], r[2]) == spec_encode(instruction),
    {
        match instruction {
            // CB-prefixed table
            Instruction::RLCR(r) => return Self::arr(0xCB, R8Operand::to_byte_from_register(r), 0),
            Instruction::RRCR(r) => return Self::arr(0xCB, 8 + R8Operand::to_byte_from_register(r), 0),
            Instruction::RLR(r) => return Self::arr(0xCB, 16 + R8Operand::to_byte_from_register(r), 0),
            Instruction::RRR(r) => return Self::arr(0xCB, 24 + R8Operand::to_byte_from_register(r), 0),
            Instruction::SLAR(r) => return Self::arr(0xCB, 32 + R8Operand::to_byte_from_register(r), 0),
            Instruction::SRAR(r) => return Self::arr(0xCB, 40 + R8Operand::to_byte_from_register(r), 0),
            Instruction::SWAPR(r) => return Self::arr(0xCB, 48 + R8Operand::to_byte_from_register(r), 0),
            Instruction::SRLR(r) => return Self::arr(0xCB, 56 + R8Operand::to_byte_from_register(r), 0),
            Instruction::RLCHLInd() => return Self::arr(0xCB, 6, 0),
            Instruction::RRCHLInd() => return Self::arr(0xCB, 14, 0),
            Instruction::RLHLInd() => return Self::arr(0xCB, 22, 0),
            Instruction::RRHLInd() => return Self::arr(0xCB, 30, 0),
            Instruction::SLAHLInd() => return Self::arr(0xCB, 38, 0),
            Instruction::SRAHLInd() => return Self::arr(0xCB, 46, 0),
            Instruction::SWAPHLInd() => return Self::arr(0xCB, 54, 0),
            Instruction::SRLHLInd() => return Self::arr(0xCB, 62, 0),
            Instruction::BITR(bit, r) => return Self::arr(
                0xCB,
                64 + bit * 8 + R8Operand::to_byte_from_register(r),
                0,
            ),
            Instruction::RESETR(bit, r) => return Self::arr(
                0xCB,
                128 + bit * 8 + R8Operand::to_byte_from_register(r),
                0,
            ),
            Instruction::SETR(bit, r) => return Self::arr(
                0xCB,
                192 + bit * 8 + R8Operand::to_byte_from_register(r),
                0,
            ),
            Instruction::BITHLInd(bit) => return Self::arr(0xCB, 64 + bit * 8 + 6, 0),
            Instruction::RESETHLInd(bit) => return Self::arr(0xCB, 128 + bit * 8 + 6, 0),
            Instruction::SETHLInd(bit) => return Self::arr(0xCB, 192 + bit * 8 + 6, 0),
            // Block 0
            Instruction::NOP() => return Self::arr(0x00, 0, 0),
            Instruction::RLCA() => return Self::arr(0x07, 0, 0),
            Instruction::RRCA() => return Self::arr(0x0F, 0, 0),
            Instruction::RLA() => return Self::arr(0x17, 0, 0),
            Instruction::RRA() => return Self::arr(0x1F, 0, 0),
            Instruction::DAA() => return Self::arr(0x27, 0, 0),
            Instruction::CPL() => return Self::arr(0x2F, 0, 0),
            Instruction::SCF() => return Self::arr(0x37, 0, 0),
            Instruction::CCF() => return Self::arr(0x3F, 0, 0),
            Instruction::STOP() => return Self::arr(0x10, 0, 0),
            Instruction::INC(r) => return Self::arr(4 + R8Operand::to_byte_from_register(r) * 8, 0, 0),
            Instruction::DEC(r) => return Self::arr(5 + R8Operand::to_byte_from_register(r) * 8, 0, 0),
            Instruction::INCHLInd() => return Self::arr(0x34, 0, 0),
            Instruction::DECHLInd() => return Self::arr(0x35, 0, 0),
            Instruction::JR(d) => return Self::arr(0x18, d as u8, 0),
            Instruction::JRCC(cc, d) => return Self::arr(0x20 + cc.to_byte() * 8, d as u8, 0),
            Instruction::INC16(rr) => return Self::arr(3 + Self::r16_code(rr) * 16, 0, 0),
            Instruction::DEC16(rr) => return Self::arr(11 + Self::r16_code(rr) * 16, 0, 0),
            Instruction::ADDHL(rr) => return Self::arr(9 + Self::r16_code(rr) * 16, 0, 0),
            Instruction::LDToImmIndFromSP(v) => return Self::arr(0x08, (v % 256) as u8, (v / 256) as u8),
            Instruction::LDImm(r, v) => return Self::arr(6 + R8Operand::to_byte_from_register(r) * 8, v, 0),
            Instruction::LDToHlIndImm(v) => return Self::arr(0x36, v, 0),
            Instruction::LDImm16(rr, v) => return Self::arr(
                1 + Self::r16_code(rr) * 16,
                (v % 256) as u8,
                (v / 256) as u8,
            ),
            Instruction::LDToBCIndFromA() => return Self::arr(0x02, 0, 0),
            Instruction::LDToDEIndFromA() => return Self::arr(0x12, 0, 0),
            Instruction::LDToHLIndIncFromA() => return Self::arr(0x22, 0, 0),
            Instruction::LDToHLIndDecFromA() => return Self::arr(0x32, 0, 0),
            Instruction::LDFromBCIndToA() => return Self::arr(0x0A, 0, 0),
            Instruction::LDFromDEIndToA() => return Self::arr(0x1A, 0, 0),
            Instruction::LDFromHLIndIncToA() => return Self::arr(0x2A, 0, 0),
            Instruction::LDFromHLIndDecToA() => return Self::arr(0x3A, 0, 0),
            // Block 1
            Instruction::HALT() => return Self::arr(0x76, 0, 0),
            Instruction::LD(d, s) => return Self::arr(
                64 + R8Operand::to_byte_from_register(d) * 8 + R8Operand::to_byte_from_register(s),
                0,
                0,
            ),
            Instruction::LDToHLInd(s) => return Self::arr(112 + R8Operand::to_byte_from_register(s), 0, 0),
            Instruction::LDFromHLInd(d) => return Self::arr(
                64 + R8Operand::to_byte_from_register(d) * 8 + 6,
                0,
                0,
            ),
            // Block 2
            Instruction::ADD(r) => return Self::arr(128 + R8Operand::to_byte_from_register(r), 0, 0),
            Instruction::ADDC(r) => return Self::arr(136 + R8Operand::to_byte_from_register(r), 0, 0),
            Instruction::SUB(r) => return Self::arr(144 + R8Operand::to_byte_from_register(r), 0, 0),
            Instruction::SUBC(r) => return Self::arr(152 + R8Operand::to_byte_from_register(r), 0, 0),
            Instruction::AND(r) => return Self::arr(160 + R8Operand::to_byte_from_register(r), 0, 0),
            Instruction::XOR(r) => return Self::arr(168 + R8Operand::to_byte_from_register(r), 0, 0),
            Instruction::OR(r) => return Self::arr(176 + R8Operand::to_byte_from_register(r), 0, 0),
            Instruction::CP(r) => return Self::arr(184 + R8Operand::to_byte_from_register(r), 0, 0),
            Instruction::ADDHLInd() => return Self::arr(0x86, 0, 0),
            Instruction::ADDCHLInd() => return Self::arr(0x8E, 0, 0),
            Instruction::SUBHLInd() => return Self::arr(0x96, 0, 0),
            Instruction::SUBCHLInd() => return Self::arr(0x9E, 0, 0),
            Instruction::ANDHLInd() => return Self::arr(0xA6, 0, 0),
            Instruction::XORHLInd() => return Self::arr(0xAE, 0, 0),
            Instruction::ORHLInd() => return Self::arr(0xB6, 0, 0),
            Instruction::CPHLInd() => return Self::arr(0xBE, 0, 0),
            // Block 3
            Instruction::ADDImm(v) => return Self::arr(0xC6, v, 0),
            Instruction::ADDCImm(v) => return Self::arr(0xCE, v, 0),
            Instruction::SUBImm(v) => return Self::arr(0xD6, v, 0),
            Instruction::SUBCImm(v) => return Self::arr(0xDE, v, 0),
            Instruction::ANDImm(v) => return Self::arr(0xE6, v, 0),
            Instruction::XORImm(v) => return Self::arr(0xEE, v, 0),
            Instruction::ORImm(v) => return Self::arr(0xF6, v, 0),
            Instruction::CPImm(v) => return Self::arr(0xFE, v, 0),
            Instruction::RET() => return Self::arr(0xC9, 0, 0),
            Instruction::RETI() => return Self::arr(0xD9, 0, 0),
            Instruction::DI() => return Self::arr(0xF3, 0, 0),
            Instruction::EI() => return Self::arr(0xFB, 0, 0),
            Instruction::ADDSPImm(d) => return Self::arr(0xE8, d as u8, 0),
            Instruction::LDHLFromAdjustedSP(d) => return Self::arr(0xF8, d as u8, 0),
            Instruction::LDSPFromHL() => return Self::arr(0xF9, 0, 0),
            Instruction::LDFromAToCInd() => return Self::arr(0xE2, 0, 0),
            Instruction::LDToImmIndFromA8(v) => return Self::arr(0xE0, v, 0),
            Instruction::LDToAFromCInd() => return Self::arr(0xF2, 0, 0),
            Instruction::LDFromImmIndToA8(v) => return Self::arr(0xF0, v, 0),
            Instruction::JPHL() => return Self::arr(0xE9, 0, 0),
            Instruction::LDToImmIndFromA(v) => return Self::arr(0xEA, (v % 256) as u8, (v / 256) as u8),
            Instruction::LDFromImmIndToA(v) => return Self::arr(0xFA, (v % 256) as u8, (v / 256) as u8),
            Instruction::CALL(v) => return Self::arr(0xCD, (v % 256) as u8, (v / 256) as u8),
            Instruction::JP(v) => return Self::arr(0xC3, (v % 256) as u8, (v / 256) as u8),
            Instruction::RST(t) => return Self::arr(0xC7 + t * 8, 0, 0),
            Instruction::RETCC(cc) => return Self::arr(0xC0 + cc.to_byte() * 8, 0, 0),
            Instruction::JPCC(cc, v) => return Self::arr(
                0xC2 + cc.to_byte() * 8,
                (v % 256) as u8,
                (v / 256) as u8,
            ),
            Instruction::CALLCC(cc, v) => return Self::arr(
                0xC4 + cc.to_byte() * 8,
                (v % 256) as u8,
                (v / 256) as u8,
            ),
            Instruction::POP(rr) => return Self::arr(0xC1 + Self::r16stk_code(rr) * 16, 0, 0),
            Instruction::PUSH(rr) => return Self::arr(0xC5 + Self::r16stk_code(rr) * 16, 0, 0),
        }
    }

    /// Build the three-byte array; spelled out so each encode arm is its
    /// own proof obligation.
    fn arr(b0: u8, b1: u8, b2: u8) -> (r: [u8; 3])
        ensures
            r[0] == b0,
            r[1] == b1,
            r[2] == b2,
    {
        [b0, b1, b2]
    }

    /// The 2-bit code of a pair in the BC/DE/HL/SP family.
    fn r16_code(register: Register16) -> (r: u8)
        requires
            is_r16(register),
        ensures
            r == spec_r16_code(register),
            r < 4,
    {
        match register {
            Register16::BC => 0,
            Register16::DE => 1,
            Register16::HL => 2,
            _ => 3,
        }
    }

    /// The 2-bit code of a pair in the BC/DE/HL/AF family.
    fn r16stk_code(register: Register16) -> (r: u8)
        requires
            is_r16stk(register),
        ensures
            r == spec_r16stk_code(register),
            r < 4,
    {
        match register {
            Register16::BC => 0,
            Register16::DE => 1,
            Register16::HL => 2,
            _ => 3,
        }
    }
}


/// Field extraction from an opcode byte assembled as `hi*64 + mid*8 + lo`.
proof fn lemma_fields(x: u8, hi: int, mid: int, lo: int)
    requires
        0 <= hi,
        0 <= mid < 8,
        0 <= lo < 8,
        x == hi * 64 + mid * 8 + lo,
    ensures
        x / 64 == hi,
        x / 8 == hi * 8 + mid,
        (x / 8) % 8 == mid,
        x % 8 == lo,
{
    vstd::arithmetic::div_mod::lemma_fundamental_div_mod_converse(
        x as int,
        8,
        hi * 8 + mid,
        lo,
    );
    vstd::arithmetic::div_mod::lemma_fundamental_div_mod_converse(hi * 8 + mid, 8, hi, mid);
    vstd::arithmetic::div_mod::lemma_fundamental_div_mod_converse(x as int, 64, hi, mid * 8 + lo);
}

/// Row parity and pair index of a row assembled as `q*2 + r`.
proof fn lemma_halves(y: u8, q: int, r: int)
    requires
        0 <= r < 2,
        0 <= q,
        y == q * 2 + r,
    ensures
        y / 2 == q,
        y % 2 == r,
{
    vstd::arithmetic::div_mod::lemma_fundamental_div_mod_converse(y as int, 2, q, r);
}

/// A 16-bit immediate split into its little-endian bytes reassembles.
proof fn lemma_imm16(v: u16)
    ensures
        spec_imm16((v % 256) as u8, (v / 256) as u8) == v,
{
    vstd::arithmetic::div_mod::lemma_fundamental_div_mod(v as int, 256);
}

/// A signed byte survives the trip through its unsigned carrier byte.
proof fn lemma_i8(d: i8)
    by (bit_vector)
    ensures
        (d as u8) as i8 == d,
{
}


/// Round trip of the CB-prefixed table.
#[verifier::rlimit(100)]
#[verifier::spinoff_prover]
proof fn lemma_round_trip_cb(instruction: Instruction)
    requires
        instruction.wf(),
        ({
        ||| instruction is RLCR
        ||| instruction is RRCR
        ||| instruction is RLR
        ||| instruction is RRR
        ||| instruction is SLAR
        ||| instruction is SRAR
        ||| instruction is SWAPR
        ||| instruction is SRLR
        ||| instruction is RLCHLInd
        ||| instruction is RRCHLInd
        ||| instruction is RLHLInd
        ||| instruction is RRHLInd
        ||| instruction is SLAHLInd
        ||| instruction is SRAHLInd
        ||| instruction is SWAPHLInd
        ||| instruction is SRLHLInd
        ||| instruction is BITR
        ||| instruction is RESETR
        ||| instruction is SETR
        ||| instruction is BITHLInd
        ||| instruction is RESETHLInd
        ||| instruction is SETHLInd
    }),
    ensures
        ({
            let (b0, b1, b2) = spec_encode(instruction);
            spec_decode(b0, b1, b2) == Some((instruction, instruction.spec_size()))
        }),
{
    let (e0, e1, e2) = spec_encode(instruction);
    let target = Some((instruction, instruction.spec_size()));
    match instruction {
        Instruction::RLCR(r) => { lemma_fields(e1, 0, 0, spec_r8_code(r) as int); assert(spec_decode(e0, e1, e2) == target); }
        Instruction::RRCR(r) => { lemma_fields(e1, 0, 1, spec_r8_code(r) as int); assert(spec_decode(e0, e1, e2) == target); }
        Instruction::RLR(r) => { lemma_fields(e1, 0, 2, spec_r8_code(r) as int); assert(spec_decode(e0, e1, e2) == target); }
        Instruction::RRR(r) => { lemma_fields(e1, 0, 3, spec_r8_code(r) as int); assert(spec_decode(e0, e1, e2) == target); }
        Instruction::SLAR(r) => { lemma_fields(e1, 0, 4, spec_r8_code(r) as int); assert(spec_decode(e0, e1, e2) == target); }
        Instruction::SRAR(r) => { lemma_fields(e1, 0, 5, spec_r8_code(r) as int); assert(spec_decode(e0, e1, e2) == target); }
        Instruction::SWAPR(r) => { lemma_fields(e1, 0, 6, spec_r8_code(r) as int); assert(spec_decode(e0, e1, e2) == target); }
        Instruction::SRLR(r) => { lemma_fields(e1, 0, 7, spec_r8_code(r) as int); assert(spec_decode(e0, e1, e2) == target); }
        Instruction::RLCHLInd() => {  assert(spec_decode(e0, e1, e2) == target); }
        Instruction::RRCHLInd() => {  assert(spec_decode(e0, e1, e2) == target); }
        Instruction::RLHLInd() => {  assert(spec_decode(e0, e1, e2) == target); }
        Instruction::RRHLInd() => {  assert(spec_decode(e0, e1, e2) == target); }
        Instruction::SLAHLInd() => {  assert(spec_decode(e0, e1, e2) == target); }
        Instruction::SRAHLInd() => {  assert(spec_decode(e0, e1, e2) == target); }
        Instruction::SWAPHLInd() => {  assert(spec_decode(e0, e1, e2) == target); }
        Instruction::SRLHLInd() => {  assert(spec_decode(e0, e1, e2) == target); }
        Instruction::BITR(bit, r) => { lemma_fields(e1, 1, bit as int, spec_r8_code(r) as int); assert(spec_decode(e0, e1, e2) == target); }
        Instruction::RESETR(bit, r) => { lemma_fields(e1, 2, bit as int, spec_r8_code(r) as int); assert(spec_decode(e0, e1, e2) == target); }
        Instruction::SETR(bit, r) => { lemma_fields(e1, 3, bit as int, spec_r8_code(r) as int); assert(spec_decode(e0, e1, e2) == target); }
        Instruction::BITHLInd(bit) => { lemma_fields(e1, 1, bit as int, 6); assert(spec_decode(e0, e1, e2) == target); }
        Instruction::RESETHLInd(bit) => { lemma_fields(e1, 2, bit as int, 6); assert(spec_decode(e0, e1, e2) == target); }
        Instruction::SETHLInd(bit) => { lemma_fields(e1, 3, bit as int, 6); assert(spec_decode(e0, e1, e2) == target); }
        _ => {}
    }
}


/// Round trip of block 0.
#[verifier::rlimit(100)]
#[verifier::spinoff_prover]
proof fn lemma_round_trip_block0(instruction: Instruction)
    requires
        instruction.wf(),
        ({
        ||| instruction is NOP
        ||| instruction is RLCA
        ||| instruction is RRCA
        ||| instruction is RLA
        ||| instruction is RRA
        ||| instruction is DAA
        ||| instruction is CPL
        ||| instruction is SCF
        ||| instruction is CCF
        ||| instruction is STOP
        ||| instruction is INCHLInd
        ||| instruction is DECHLInd
        ||| instruction is JR
        ||| instruction is JRCC
        ||| instruction is INC
        ||| instruction is DEC
        ||| instruction is LDImm
        ||| instruction is LDToHlIndImm
        ||| instruction is LDToImmIndFromSP
        ||| instruction is LDImm16
        ||| instruction is ADDHL
        ||| instruction is INC16
        ||| instruction is DEC16
        ||| instruction is LDToBCIndFromA
        ||| instruction is LDToDEIndFromA
        ||| instruction is LDToHLIndIncFromA
        ||| instruction is LDToHLIndDecFromA
        ||| instruction is LDFromBCIndToA
        ||| instruction is LDFromDEIndToA
        ||| instruction is LDFromHLIndIncToA
        ||| instruction is LDFromHLIndDecToA
    }),
    ensures
        ({
            let (b0, b1, b2) = spec_encode(instruction);
            spec_decode(b0, b1, b2) == Some((instruction, instruction.spec_size()))
        }),
{
    let (e0, e1, e2) = spec_encode(instruction);
    let target = Some((instruction, instruction.spec_size()));
    match instruction {
        Instruction::NOP() => {  assert(spec_decode(e0, e1, e2) == target); }
        Instruction::RLCA() => {  assert(spec_decode(e0, e1, e2) == target); }
        Instruction::RRCA() => {  assert(spec_decode(e0, e1, e2) == target); }
        Instruction::RLA() => {  assert(spec_decode(e0, e1, e2) == target); }
        Instruction::RRA() => {  assert(spec_decode(e0, e1, e2) == target); }
        Instruction::DAA() => {  assert(spec_decode(e0, e1, e2) == target); }
        Instruction::CPL() => {  assert(spec_decode(e0, e1, e2) == target); }
        Instruction::SCF() => {  assert(spec_decode(e0, e1, e2) == target); }
        Instruction::CCF() => {  assert(spec_decode(e0, e1, e2) == target); }
        Instruction::STOP() => {  assert(spec_decode(e0, e1, e2) == target); }
        Instruction::INCHLInd() => {  assert(spec_decode(e0, e1, e2) == target); }
        Instruction::DECHLInd() => {  assert(spec_decode(e0, e1, e2) == target); }
        Instruction::JR(d) => { lemma_i8(d); assert(spec_decode(e0, e1, e2) == target); }
        Instruction::JRCC(cc, d) => { lemma_fields(e0, 0, 4 + spec_flow_condition_to_byte(cc) as int, 0); lemma_i8(d); assert(spec_decode(e0, e1, e2) == target); }
        Instruction::INC(r) => { lemma_fields(e0, 0, spec_r8_code(r) as int, 4); assert(spec_decode(e0, e1, e2) == target); }
        Instruction::DEC(r) => { lemma_fields(e0, 0, spec_r8_code(r) as int, 5); assert(spec_decode(e0, e1, e2) == target); }
        Instruction::LDImm(r, v) => { lemma_fields(e0, 0, spec_r8_code(r) as int, 6); assert(spec_decode(e0, e1, e2) == target); }
        Instruction::LDToHlIndImm(v) => {  assert(spec_decode(e0, e1, e2) == target); }
        Instruction::LDToImmIndFromSP(v) => { lemma_imm16(v); assert(spec_decode(e0, e1, e2) == target); }
        Instruction::LDImm16(rr, v) => { lemma_fields(e0, 0, 2 * (spec_r16_code(rr) as int), 1); lemma_halves((2 * spec_r16_code(rr)) as u8, spec_r16_code(rr) as int, 0); lemma_imm16(v); assert(spec_decode(e0, e1, e2) == target); }
        Instruction::ADDHL(rr) => { lemma_fields(e0, 0, 2 * (spec_r16_code(rr) as int) + 1, 1); lemma_halves((2 * spec_r16_code(rr) + 1) as u8, spec_r16_code(rr) as int, 1); assert(spec_decode(e0, e1, e2) == target); }
        Instruction::INC16(rr) => { lemma_fields(e0, 0, 2 * (spec_r16_code(rr) as int), 3); lemma_halves((2 * spec_r16_code(rr)) as u8, spec_r16_code(rr) as int, 0); assert(spec_decode(e0, e1, e2) == target); }
        Instruction::DEC16(rr) => { lemma_fields(e0, 0, 2 * (spec_r16_code(rr) as int) + 1, 3); lemma_halves((2 * spec_r16_code(rr) + 1) as u8, spec_r16_code(rr) as int, 1); assert(spec_decode(e0, e1, e2) == target); }
        Instruction::LDToBCIndFromA() => {  assert(spec_decode(e0, e1, e2) == target); }
        Instruction::LDToDEIndFromA() => {  assert(spec_decode(e0, e1, e2) == target); }
        Instruction::LDToHLIndIncFromA() => {  assert(spec_decode(e0, e1, e2) == target); }
        Instruction::LDToHLIndDecFromA() => {  assert(spec_decode(e0, e1, e2) == target); }
        Instruction::LDFromBCIndToA() => {  assert(spec_decode(e0, e1, e2) == target); }
        Instruction::LDFromDEIndToA() => {  assert(spec_decode(e0, e1, e2) == target); }
        Instruction::LDFromHLIndIncToA() => {  assert(spec_decode(e0, e1, e2) == target); }
        Instruction::LDFromHLIndDecToA() => {  assert(spec_decode(e0, e1, e2) == target); }
        _ => {}
    }
}


/// Round trip of block 1.
#[verifier::rlimit(100)]
#[verifier::spinoff_prover]
proof fn lemma_round_trip_block1(instruction: Instruction)
    requires
        instruction.wf(),
        ({
        ||| instruction is HALT
        ||| instruction is LD
        ||| instruction is LDToHLInd
        ||| instruction is LDFromHLInd
    }),
    ensures
        ({
            let (b0, b1, b2) = spec_encode(instruction);
            spec_decode(b0, b1, b2) == Some((instruction, instruction.spec_size()))
        }),
{
    let (e0, e1, e2) = spec_encode(instruction);
    let target = Some((instruction, instruction.spec_size()));
    match instruction {
        Instruction::HALT() => {  assert(spec_decode(e0, e1, e2) == target); }
        Instruction::LD(d, s) => { lemma_fields(e0, 1, spec_r8_code(d) as int, spec_r8_code(s) as int); assert(spec_decode(e0, e1, e2) == target); }
        Instruction::LDToHLInd(s) => { lemma_fields(e0, 1, 6, spec_r8_code(s) as int); assert(spec_decode(e0, e1, e2) == target); }
        Instruction::LDFromHLInd(d) => { lemma_fields(e0, 1, spec_r8_code(d) as int, 6); assert(spec_decode(e0, e1, e2) == target); }
        _ => {}
    }
}


/// Round trip of block 2.
#[verifier::rlimit(100)]
#[verifier::spinoff_prover]
proof fn lemma_round_trip_block2(instruction: Instruction)
    requires
        instruction.wf(),
        ({
        ||| instruction is ADD
        ||| instruction is ADDC
        ||| instruction is SUB
        ||| instruction is SUBC
        ||| instruction is AND
        ||| instruction is XOR
        ||| instruction is OR
        ||| instruction is CP
        ||| instruction is ADDHLInd
        ||| instruction is ADDCHLInd
        ||| instruction is SUBHLInd
        ||| instruction is SUBCHLInd
        ||| instruction is ANDHLInd
        ||| instruction is XORHLInd
        ||| instruction is ORHLInd
        ||| instruction is CPHLInd
    }),
    ensures
        ({
            let (b0, b1, b2) = spec_encode(instruction);
            spec_decode(b0, b1, b2) == Some((instruction, instruction.spec_size()))
        }),
{
    let (e0, e1, e2) = spec_encode(instruction);
    let target = Some((instruction, instruction.spec_size()));
    match instruction {
        Instruction::ADD(r) => { lemma_fields(e0, 2, 0, spec_r8_code(r) as int); assert(spec_decode(e0, e1, e2) == target); }
        Instruction::ADDC(r) => { lemma_fields(e0, 2, 1, spec_r8_code(r) as int); assert(spec_decode(e0, e1, e2) == target); }
        Instruction::SUB(r) => { lemma_fields(e0, 2, 2, spec_r8_code(r) as int); assert(spec_decode(e0, e1, e2) == target); }
        Instruction::SUBC(r) => { lemma_fields(e0, 2, 3, spec_r8_code(r) as int); assert(spec_decode(e0, e1, e2) == target); }
        Instruction::AND(r) => { lemma_fields(e0, 2, 4, spec_r8_code(r) as int); assert(spec_decode(e0, e1, e2) == target); }
        Instruction::XOR(r) => { lemma_fields(e0, 2, 5, spec_r8_code(r) as int); assert(spec_decode(e0, e1, e2) == target); }
        Instruction::OR(r) => { lemma_fields(e0, 2, 6, spec_r8_code(r) as int); assert(spec_decode(e0, e1, e2) == target); }
        Instruction::CP(r) => { lemma_fields(e0, 2, 7, spec_r8_code(r) as int); assert(spec_decode(e0, e1, e2) == target); }
        Instruction::ADDHLInd() => {  assert(spec_decode(e0, e1, e2) == target); }
        Instruction::ADDCHLInd() => {  assert(spec_decode(e0, e1, e2) == target); }
        Instruction::SUBHLInd() => {  assert(spec_decode(e0, e1, e2) == target); }
        Instruction::SUBCHLInd() => {  assert(spec_decode(e0, e1, e2) == target); }
        Instruction::ANDHLInd() => {  assert(spec_decode(e0, e1, e2) == target); }
        Instruction::XORHLInd() => {  assert(spec_decode(e0, e1, e2) == target); }
        Instruction::ORHLInd() => {  assert(spec_decode(e0, e1, e2) == target); }
        Instruction::CPHLInd() => {  assert(spec_decode(e0, e1, e2) == target); }
        _ => {}
    }
}


/// Round trip of block 3.
#[verifier::rlimit(100)]
#[verifier::spinoff_prover]
proof fn lemma_round_trip_block3(instruction: Instruction)
    requires
        instruction.wf(),
        ({
        ||| instruction is ADDImm
        ||| instruction is ADDCImm
        ||| instruction is SUBImm
        ||| instruction is SUBCImm
        ||| instruction is ANDImm
        ||| instruction is XORImm
        ||| instruction is ORImm
        ||| instruction is CPImm
        ||| instruction is LDToImmIndFromA8
        ||| instruction is LDFromImmIndToA8
        ||| instruction is RET
        ||| instruction is RETI
        ||| instruction is DI
        ||| instruction is EI
        ||| instruction is LDSPFromHL
        ||| instruction is LDFromAToCInd
        ||| instruction is LDToAFromCInd
        ||| instruction is JPHL
        ||| instruction is ADDSPImm
        ||| instruction is LDHLFromAdjustedSP
        ||| instruction is JP
        ||| instruction is CALL
        ||| instruction is LDToImmIndFromA
        ||| instruction is LDFromImmIndToA
        ||| instruction is RST
        ||| instruction is RETCC
        ||| instruction is JPCC
        ||| instruction is CALLCC
        ||| instruction is POP
        ||| instruction is PUSH
    }),
    ensures
        ({
            let (b0, b1, b2) = spec_encode(instruction);
            spec_decode(b0, b1, b2) == Some((instruction, instruction.spec_size()))
        }),
{
    let (e0, e1, e2) = spec_encode(instruction);
    let target = Some((instruction, instruction.spec_size()));
    match instruction {
        Instruction::ADDImm(v) => {  assert(spec_decode(e0, e1, e2) == target); }
        Instruction::ADDCImm(v) => {  assert(spec_decode(e0, e1, e2) == target); }
        Instruction::SUBImm(v) => {  assert(spec_decode(e0, e1, e2) == target); }
        Instruction::SUBCImm(v) => {  assert(spec_decode(e0, e1, e2) == target); }
        Instruction::ANDImm(v) => {  assert(spec_decode(e0, e1, e2) == target); }
        Instruction::XORImm(v) => {  assert(spec_decode(e0, e1, e2) == target); }
        Instruction::ORImm(v) => {  assert(spec_decode(e0, e1, e2) == target); }
        Instruction::CPImm(v) => {  assert(spec_decode(e0, e1, e2) == target); }
        Instruction::LDToImmIndFromA8(v) => {  assert(spec_decode(e0, e1, e2) == target); }
        Instruction::LDFromImmIndToA8(v) => {  assert(spec_decode(e0, e1, e2) == target); }
        Instruction::RET() => {  assert(spec_decode(e0, e1, e2) == target); }
        Instruction::RETI() => {  assert(spec_decode(e0, e1, e2) == target); }
        Instruction::DI() => {  assert(spec_decode(e0, e1, e2) == target); }
        Instruction::EI() => {  assert(spec_decode(e0, e1, e2) == target); }
        Instruction::LDSPFromHL() => {  assert(spec_decode(e0, e1, e2) == target); }
        Instruction::LDFromAToCInd() => {  assert(spec_decode(e0, e1, e2) == target); }
        Instruction::LDToAFromCInd() => {  assert(spec_decode(e0, e1, e2) == target); }
        Instruction::JPHL() => {  assert(spec_decode(e0, e1, e2) == target); }
        Instruction::ADDSPImm(d) => { lemma_i8(d); assert(spec_decode(e0, e1, e2) == target); }
        Instruction::LDHLFromAdjustedSP(d) => { lemma_i8(d); assert(spec_decode(e0, e1, e2) == target); }
        Instruction::JP(v) => { lemma_imm16(v); assert(spec_decode(e0, e1, e2) == target); }
        Instruction::CALL(v) => { lemma_imm16(v); assert(spec_decode(e0, e1, e2) == target); }
        Instruction::LDToImmIndFromA(v) => { lemma_imm16(v); assert(spec_decode(e0, e1, e2) == target); }
        Instruction::LDFromImmIndToA(v) => { lemma_imm16(v); assert(spec_decode(e0, e1, e2) == target); }
        Instruction::RST(t) => { lemma_fields(e0, 3, t as int, 7); assert(spec_decode(e0, e1, e2) == target); }
        Instruction::RETCC(cc) => { lemma_fields(e0, 3, spec_flow_condition_to_byte(cc) as int, 0); assert(spec_decode(e0, e1, e2) == target); }
        Instruction::JPCC(cc, v) => { lemma_fields(e0, 3, spec_flow_condition_to_byte(cc) as int, 2); lemma_imm16(v); assert(spec_decode(e0, e1, e2) == target); }
        Instruction::CALLCC(cc, v) => { lemma_fields(e0, 3, spec_flow_condition_to_byte(cc) as int, 4); lemma_imm16(v); assert(spec_decode(e0, e1, e2) == target); }
        Instruction::POP(rr) => { lemma_fields(e0, 3, 2 * (spec_r16stk_code(rr) as int), 1); lemma_halves((2 * spec_r16stk_code(rr)) as u8, spec_r16stk_code(rr) as int, 0); assert(spec_decode(e0, e1, e2) == target); }
        Instruction::PUSH(rr) => { lemma_fields(e0, 3, 2 * (spec_r16stk_code(rr) as int), 5); lemma_halves((2 * spec_r16stk_code(rr)) as u8, spec_r16stk_code(rr) as int, 0); assert(spec_decode(e0, e1, e2) == target); }
        _ => {}
    }
}

/// Round-trip law of the codec: decoding the encoding of any legal
/// instruction yields that instruction and its reported size.
pub proof fn lemma_codec_round_trip(instruction: Instruction)
    requires
        instruction.wf(),
    ensures
        ({
            let (b0, b1, b2) = spec_encode(instruction);
            spec_decode(b0, b1, b2) == Some((instruction, instruction.spec_size()))
        }),
{
    match instruction {
        Instruction::RLCR(_) | Instruction::RRCR(_) | Instruction::RLR(_) | Instruction::RRR(_) | Instruction::SLAR(_) | Instruction::SRAR(_) | Instruction::SWAPR(_) | Instruction::SRLR(_) | Instruction::RLCHLInd() | Instruction::RRCHLInd() | Instruction::RLHLInd() | Instruction::RRHLInd() | Instruction::SLAHLInd() | Instruction::SRAHLInd() | Instruction::SWAPHLInd() | Instruction::SRLHLInd() | Instruction::BITR(_, _) | Instruction::RESETR(_, _) | Instruction::SETR(_, _) | Instruction::BITHLInd(_) | Instruction::RESETHLInd(_) | Instruction::SETHLInd(_) => lemma_round_trip_cb(instruction),
        Instruction::NOP() | Instruction::RLCA() | Instruction::RRCA() | Instruction::RLA() | Instruction::RRA() | Instruction::DAA() | Instruction::CPL() | Instruction::SCF() | Instruction::CCF() | Instruction::STOP() | Instruction::INCHLInd() | Instruction::DECHLInd() | Instruction::JR(_) | Instruction::JRCC(_, _) | Instruction::INC(_) | Instruction::DEC(_) | Instruction::LDImm(_, _) | Instruction::LDToHlIndImm(_) | Instruction::LDToImmIndFromSP(_) | Instruction::LDImm16(_, _) | Instruction::ADDHL(_) | Instruction::INC16(_) | Instruction::DEC16(_) | Instruction::LDToBCIndFromA() | Instruction::LDToDEIndFromA() | Instruction::LDToHLIndIncFromA() | Instruction::LDToHLIndDecFromA() | Instruction::LDFromBCIndToA() | Instruction::LDFromDEIndToA() | Instruction::LDFromHLIndIncToA() | Instruction::LDFromHLIndDecToA() => lemma_round_trip_block0(instruction),
        Instruction::HALT() | Instruction::LD(_, _) | Instruction::LDToHLInd(_) | Instruction::LDFromHLInd(_) => lemma_round_trip_block1(instruction),
        Instruction::ADD(_) | Instruction::ADDC(_) | Instruction::SUB(_) | Instruction::SUBC(_) | Instruction::AND(_) | Instruction::XOR(_) | Instruction::OR(_) | Instruction::CP(_) | Instruction::ADDHLInd() | Instruction::ADDCHLInd() | Instruction::SUBHLInd() | Instruction::SUBCHLInd() | Instruction::ANDHLInd() | Instruction::XORHLInd() | Instruction::ORHLInd() | Instruction::CPHLInd() => lemma_round_trip_block2(instruction),
        Instruction::ADDImm(_) | Instruction::ADDCImm(_) | Instruction::SUBImm(_) | Instruction::SUBCImm(_) | Instruction::ANDImm(_) | Instruction::XORImm(_) | Instruction::ORImm(_) | Instruction::CPImm(_) | Instruction::LDToImmIndFromA8(_) | Instruction::LDFromImmIndToA8(_) | Instruction::RET() | Instruction::RETI() | Instruction::DI() | Instruction::EI() | Instruction::LDSPFromHL() | Instruction::LDFromAToCInd() | Instruction::LDToAFromCInd() | Instruction::JPHL() | Instruction::ADDSPImm(_) | Instruction::LDHLFromAdjustedSP(_) | Instruction::JP(_) | Instruction::CALL(_) | Instruction::LDToImmIndFromA(_) | Instruction::LDFromImmIndToA(_) | Instruction::RST(_) | Instruction::RETCC(_) | Instruction::JPCC(_, _) | Instruction::CALLCC(_, _) | Instruction::POP(_) | Instruction::PUSH(_) => lemma_round_trip_block3(instruction),
    }
}

} // verus!

//! Decoder tests against hand-assembled opcode bytes, through the free
//! `decode` entry point.

use dmg_core::decoder::decode;
use dmg_core::instruction::Instruction;
use dmg_core::instruction::Instruction::{
    LD, LDImm, LDFromHLInd, LDToHLInd, LDToHlIndImm, LDFromBCIndToA, LDFromDEIndToA,
    LDToBCIndFromA, LDToDEIndFromA, LDFromImmIndToA, LDToImmIndFromA, LDToAFromCInd,
    LDFromAToCInd, LDFromImmIndToA8, LDToImmIndFromA8, LDFromHLIndDecToA, LDToHLIndDecFromA,
    LDFromHLIndIncToA, LDToHLIndIncFromA, LDImm16, LDToImmIndFromSP, LDSPFromHL,
    PUSH, POP, LDHLFromAdjustedSP, ADD, ADDHLInd, ADDImm, ADDC, ADDCHLInd, ADDCImm,
    SUB, SUBHLInd, SUBImm, SUBC, SUBCHLInd, SUBCImm, CP, CPHLInd, CPImm, INC,
    INCHLInd, DEC, DECHLInd, AND, ANDHLInd, ANDImm, OR, ORHLInd, ORImm, XOR,
    XORHLInd, XORImm, CCF, SCF, DAA, CPL, INC16, DEC16, ADDHL, ADDSPImm, RLCA,
    RRCA, RRA, RLA, RLCR, RRCR, RLCHLInd, RRCHLInd, RLR, RLHLInd, RRR, RRHLInd,
    SRAR, SRAHLInd, SLAR, SLAHLInd, SRLR, SRLHLInd, SWAPR, SWAPHLInd, BITR, BITHLInd,
    RESETR, RESETHLInd, SETR, SETHLInd, NOP, JP, JPHL, JPCC, JR, JRCC, CALL,
    CALLCC, RET, RETCC, RETI, RST, HALT, STOP, DI, EI,
};
use dmg_core::operands::{FlowCondition, R16MemOperand, R16Operand, R16StkOperand, R8Operand};
use dmg_core::registers::{Register, Register16};

fn r16_operand_code(register_16: Register16) -> u8 {
    match register_16 {
        Register16::BC => 0,
        Register16::DE => 1,
        Register16::HL => 2,
        Register16::SP => 3,
        _ => panic!("not an r16 operand register"),
    }
}

fn r16stk_operand_code(register_16: Register16) -> u8 {
    match register_16 {
        Register16::BC => 0,
        Register16::DE => 1,
        Register16::HL => 2,
        Register16::AF => 3,
        _ => panic!("not an r16stk operand register"),
    }
}

fn encode_cb_table_1(instruction: Instruction) -> u8 {
    let hl_ind_r8_op_byte = R8Operand::HLInd.to_byte();

    match instruction {
        RLCR(register) => 0b0000_0000 | R8Operand::to_byte_from_register(register),
        RRCR(register) => 0b0000_1000 | R8Operand::to_byte_from_register(register),
        RLR(register) => 0b0001_0000 | R8Operand::to_byte_from_register(register),
        RRR(register) => 0b0001_1000 | R8Operand::to_byte_from_register(register),
        SLAR(register) => 0b0010_0000 | R8Operand::to_byte_from_register(register),
        SRAR(register) => 0b0010_1000 | R8Operand::to_byte_from_register(register),
        SWAPR(register) => 0b0011_0000 | R8Operand::to_byte_from_register(register),
        SRLR(register) => 0b0011_1000 | R8Operand::to_byte_from_register(register),
        RLCHLInd() => 0b0000_0000 | hl_ind_r8_op_byte,
        RRCHLInd() => 0b0000_1000 | hl_ind_r8_op_byte,
        RLHLInd() => 0b0001_0000 | hl_ind_r8_op_byte,
        RRHLInd() => 0b0001_1000 | hl_ind_r8_op_byte,
        SLAHLInd() => 0b0010_0000 | hl_ind_r8_op_byte,
        SRAHLInd() => 0b0010_1000 | hl_ind_r8_op_byte,
        SWAPHLInd() => 0b0011_0000 | hl_ind_r8_op_byte,
        SRLHLInd() => 0b0011_1000 | hl_ind_r8_op_byte,
        _ => panic!("Not CB Table 1 instruction"),
    }
}

fn encode_cb_table_2(instruction: Instruction) -> u8 {
    let hl_ind_r8_op_byte = R8Operand::HLInd.to_byte();

    match instruction {
        BITR(bit_index, register) => {
            0b0100_0000 | (bit_index << 3) | R8Operand::to_byte_from_register(register)
        }
        RESETR(bit_index, register) => {
            0b1000_0000 | (bit_index << 3) | R8Operand::to_byte_from_register(register)
        }
        SETR(bit_index, register) => {
            0b1100_0000 | (bit_index << 3) | R8Operand::to_byte_from_register(register)
        }
        BITHLInd(bit_index) => 0b0100_0000 | (bit_index << 3) | hl_ind_r8_op_byte,
        RESETHLInd(bit_index) => 0b1000_0000 | (bit_index << 3) | hl_ind_r8_op_byte,
        SETHLInd(bit_index) => 0b1100_0000 | (bit_index << 3) | hl_ind_r8_op_byte,
        _ => panic!("Not CB Table 2 instruction"),
    }
}

fn encode_generic_block_0(instruction: Instruction) -> [u8; 3] {
    let hl_ind_r8_op_byte = R8Operand::HLInd.to_byte();

    match instruction {
        NOP() => [0b0000_0000, 0, 0],
        RLCA() => [0b0000_0111, 0, 0],
        RRCA() => [0b0000_1111, 0, 0],
        RLA() => [0b0001_0111, 0, 0],
        RRA() => [0b0001_1111, 0, 0],
        DAA() => [0b0010_0111, 0, 0],
        CPL() => [0b0010_1111, 0, 0],
        SCF() => [0b0011_0111, 0, 0],
        CCF() => [0b0011_1111, 0, 0],
        STOP() => [0b0001_0000, 0, 0],
        INC(register) => [
            0b0000_0100 | (R8Operand::to_byte_from_register(register) << 3),
            0,
            0,
        ],
        DEC(register) => [
            0b0000_0101 | (R8Operand::to_byte_from_register(register) << 3),
            0,
            0,
        ],
        INCHLInd() => [0b0000_0100 | (hl_ind_r8_op_byte << 3), 0, 0],
        DECHLInd() => [0b0000_0101 | (hl_ind_r8_op_byte << 3), 0, 0],
        JR(imm_8) => [0b0001_1000, imm_8 as u8, 0],
        JRCC(cond, imm_8) => [0b0010_0000 | (cond.to_byte() << 3), imm_8 as u8, 0],
        INC16(register_16) => [0b0000_0011 | (r16_operand_code(register_16) << 4), 0, 0],
        DEC16(register_16) => [0b0000_1011 | (r16_operand_code(register_16) << 4), 0, 0],
        ADDHL(register_16) => [0b0000_1001 | (r16_operand_code(register_16) << 4), 0, 0],
        LDToImmIndFromSP(imm_16) => {
            let imm_bytes = imm_16.to_le_bytes();
            [0b0000_1000, imm_bytes[0], imm_bytes[1]]
        }
        LDImm(register, imm_8) => [
            0b0000_0110 | (R8Operand::to_byte_from_register(register) << 3),
            imm_8,
            0,
        ],
        LDToHlIndImm(imm_8) => [0b0000_0110 | (hl_ind_r8_op_byte << 3), imm_8, 0],
        LDImm16(register_16, imm_16) => {
            let imm_bytes = imm_16.to_le_bytes();
            [
                0b0000_0001 | (r16_operand_code(register_16) << 4),
                imm_bytes[0],
                imm_bytes[1],
            ]
        }
        LDToBCIndFromA() => [0b0000_0010 | (R16MemOperand::BC.to_byte() << 4), 0, 0],
        LDToDEIndFromA() => [0b0000_0010 | (R16MemOperand::DE.to_byte() << 4), 0, 0],
        LDToHLIndIncFromA() => [0b0000_0010 | (R16MemOperand::HLI.to_byte() << 4), 0, 0],
        LDToHLIndDecFromA() => [0b0000_0010 | (R16MemOperand::HLD.to_byte() << 4), 0, 0],
        LDFromBCIndToA() => [0b0000_1010 | (R16MemOperand::BC.to_byte() << 4), 0, 0],
        LDFromDEIndToA() => [0b0000_1010 | (R16MemOperand::DE.to_byte() << 4), 0, 0],
        LDFromHLIndIncToA() => [0b0000_1010 | (R16MemOperand::HLI.to_byte() << 4), 0, 0],
        LDFromHLIndDecToA() => [0b0000_1010 | (R16MemOperand::HLD.to_byte() << 4), 0, 0],
        _ => panic!("Not Block 0 instruction"),
    }
}

fn encode_generic_block_1(instruction: Instruction) -> u8 {
    let hl_ind_r8_op_byte = R8Operand::HLInd.to_byte();

    match instruction {
        HALT() => 0b0111_0110,
        LD(register_dest, register_source) => {
            0b0100_0000
                | (R8Operand::to_byte_from_register(register_dest) << 3)
                | R8Operand::to_byte_from_register(register_source)
        }
        LDToHLInd(register_source) => {
            0b0100_0000
                | (hl_ind_r8_op_byte << 3)
                | R8Operand::to_byte_from_register(register_source)
        }
        _ => panic!("Not Block 1 instruction"),
    }
}

fn encode_generic_block_2(instruction: Instruction) -> u8 {
    let hl_ind_r8_op_byte = R8Operand::HLInd.to_byte();

    match instruction {
        ADD(register) => 0b1000_0000 | R8Operand::to_byte_from_register(register),
        ADDC(register) => 0b1000_1000 | R8Operand::to_byte_from_register(register),
        SUB(register) => 0b1001_0000 | R8Operand::to_byte_from_register(register),
        SUBC(register) => 0b1001_1000 | R8Operand::to_byte_from_register(register),
        AND(register) => 0b1010_0000 | R8Operand::to_byte_from_register(register),
        XOR(register) => 0b1010_1000 | R8Operand::to_byte_from_register(register),
        OR(register) => 0b1011_0000 | R8Operand::to_byte_from_register(register),
        CP(register) => 0b1011_1000 | R8Operand::to_byte_from_register(register),
        ADDHLInd() => 0b1000_0000 | hl_ind_r8_op_byte,
        ADDCHLInd() => 0b1000_1000 | hl_ind_r8_op_byte,
        SUBHLInd() => 0b1001_0000 | hl_ind_r8_op_byte,
        SUBCHLInd() => 0b1001_1000 | hl_ind_r8_op_byte,
        ANDHLInd() => 0b1010_0000 | hl_ind_r8_op_byte,
        XORHLInd() => 0b1010_1000 | hl_ind_r8_op_byte,
        ORHLInd() => 0b1011_0000 | hl_ind_r8_op_byte,
        CPHLInd() => 0b1011_1000 | hl_ind_r8_op_byte,
        _ => panic!("Not Block 2 instruction"),
    }
}

fn encode_generic_block_3(instruction: Instruction) -> [u8; 3] {
    match instruction {
        ADDImm(imm_8) => [0b1100_0110, imm_8, 0],
        ADDCImm(imm_8) => [0b1100_1110, imm_8, 0],
        SUBImm(imm_8) => [0b1101_0110, imm_8, 0],
        SUBCImm(imm_8) => [0b1101_1110, imm_8, 0],
        ANDImm(imm_8) => [0b1110_0110, imm_8, 0],
        XORImm(imm_8) => [0b1110_1110, imm_8, 0],
        ORImm(imm_8) => [0b1111_0110, imm_8, 0],
        CPImm(imm_8) => [0b1111_1110, imm_8, 0],
        RET() => [0b1100_1001, 0, 0],
        RETI() => [0b1101_1001, 0, 0],
        DI() => [0b1111_0011, 0, 0],
        EI() => [0b1111_1011, 0, 0],
        ADDSPImm(imm_8) => [0b1110_1000, imm_8 as u8, 0],
        LDHLFromAdjustedSP(imm_8) => [0b1111_1000, imm_8 as u8, 0],
        LDSPFromHL() => [0b1111_1001, 0, 0],
        LDFromAToCInd() => [0b1110_0010, 0, 0],
        LDToImmIndFromA8(imm_8) => [0b1110_0000, imm_8, 0],
        LDToImmIndFromA(imm_16) => [
            0b1110_1010,
            imm_16.to_le_bytes()[0],
            imm_16.to_le_bytes()[1],
        ],
        LDToAFromCInd() => [0b1111_0010, 0, 0],
        LDFromImmIndToA8(imm_8) => [0b1111_0000, imm_8, 0],
        LDFromImmIndToA(imm_16) => [
            0b1111_1010,
            imm_16.to_le_bytes()[0],
            imm_16.to_le_bytes()[1],
        ],
        CALL(imm_16) => [
            0b1100_1101,
            imm_16.to_le_bytes()[0],
            imm_16.to_le_bytes()[1],
        ],
        JP(imm_16) => [
            0b1100_0011,
            imm_16.to_le_bytes()[0],
            imm_16.to_le_bytes()[1],
        ],
        JPHL() => [0b1110_1001, 0, 0],
        RST(imm_8) => [0b1100_0111 | (imm_8 << 3), 0, 0],
        RETCC(cond) => [0b1100_0000 | (cond.to_byte() << 3), 0, 0],
        JPCC(cond, imm_16) => [
            0b1100_0010 | (cond.to_byte() << 3),
            imm_16.to_le_bytes()[0],
            imm_16.to_le_bytes()[1],
        ],
        CALLCC(cond, imm_16) => [
            0b1100_0100 | (cond.to_byte() << 3),
            imm_16.to_le_bytes()[0],
            imm_16.to_le_bytes()[1],
        ],
        POP(register_16) => [0b1100_0001 | (r16stk_operand_code(register_16) << 4), 0, 0],
        PUSH(register_16) => [0b1100_0101 | (r16stk_operand_code(register_16) << 4), 0, 0],
        _ => panic!("Not Block 3 instruction"),
    }
}

fn assert_decode(expected_instr: Instruction, expected_size: u16, byte1: u8, byte2: u8, byte3: u8) {
    let (decoded_instr, decoded_size) =
        decode(byte1, byte2, byte3).expect("legal opcode must decode");
    assert_eq!(
        decoded_instr, expected_instr,
        "Instruction mismatch for 0x{:02X} 0x{:02X} 0x{:02X}",
        byte1, byte2, byte3
    );
    assert_eq!(
        decoded_size, expected_size,
        "Size mismatch for 0x{:02X} 0x{:02X} 0x{:02X}",
        byte1, byte2, byte3
    );
}

#[test]
fn test_decode_cb_table_1() {
    let expected_size = 2;
    let byte1 = 0xCB;

    let operands_r8 = [
        Register::A,
        Register::B,
        Register::C,
        Register::D,
        Register::E,
        Register::H,
        Register::L,
    ];

    for reg in operands_r8 {
        let instructions = [
            RLCR(reg.clone()),
            RRCR(reg.clone()),
            RLR(reg.clone()),
            RRR(reg.clone()),
            SLAR(reg.clone()),
            SRAR(reg.clone()),
            SWAPR(reg.clone()),
            SRLR(reg.clone()),
        ];

        for instruction in instructions {
            let instruction_byte = encode_cb_table_1(instruction.clone());
            assert_decode(instruction, expected_size, byte1, instruction_byte, 0);
        }
    }

    let instructions = [
        RLCHLInd(),
        RRCHLInd(),
        RLHLInd(),
        RRHLInd(),
        SLAHLInd(),
        SRAHLInd(),
        SWAPHLInd(),
        SRLHLInd(),
    ];

    for instruction in instructions {
        let instruction_byte = encode_cb_table_1(instruction.clone());
        assert_decode(instruction, expected_size, byte1, instruction_byte, 0);
    }
}

#[test]
fn test_decode_cb_table_2() {
    let expected_size = 2;
    let byte1 = 0xCB;

    let operands_r8 = [
        Register::A,
        Register::B,
        Register::C,
        Register::D,
        Register::E,
        Register::H,
        Register::L,
    ];

    for bit_index in 0..=7 {
        for reg in &operands_r8 {
            let instructions = [
                BITR(bit_index, reg.clone()),
                SETR(bit_index, reg.clone()),
                RESETR(bit_index, reg.clone()),
            ];

            for instruction in instructions {
                let instruction_byte = encode_cb_table_2(instruction.clone());
                assert_decode(instruction, expected_size, byte1, instruction_byte, 0);
            }
        }

        let instructions = [
            BITHLInd(bit_index),
            SETHLInd(bit_index),
            RESETHLInd(bit_index),
        ];

        for instruction in instructions {
            let instruction_byte = encode_cb_table_2(instruction.clone());
            assert_decode(instruction, expected_size, byte1, instruction_byte, 0);
        }
    }
}

#[test]
fn decoder_test_decode_block_0() {
    // 1 byte, no params instructions
    {
        let expected_size = 1;
        let instructions = [
            NOP(),
            RLCA(),
            RRCA(),
            RLA(),
            RRA(),
            DAA(),
            CPL(),
            SCF(),
            CCF(),
        ];

        for instruction in instructions {
            let [instruction_byte, byte2, byte3] = encode_generic_block_0(instruction.clone());
            assert_decode(instruction, expected_size, instruction_byte, byte2, byte3);
        }
    }

    // Inc/Dec 8bit
    {
        let expected_size = 1;

        for operand in 0..=7 {
            let r8_operand = R8Operand::from_byte(operand);

            match r8_operand {
                R8Operand::HLInd => {
                    let instruction = INCHLInd();
                    let [instruction_byte, byte2, byte3] =
                        encode_generic_block_0(instruction.clone());
                    assert_decode(instruction, expected_size, instruction_byte, byte2, byte3);

                    let instruction = DECHLInd();
                    let [instruction_byte, byte2, byte3] =
                        encode_generic_block_0(instruction.clone());
                    assert_decode(instruction, expected_size, instruction_byte, byte2, byte3);
                }
                _ => {
                    let register = Register::from_r8_operand(r8_operand);

                    let instruction = INC(register.clone());
                    let [instruction_byte, byte2, byte3] =
                        encode_generic_block_0(instruction.clone());
                    assert_decode(instruction, expected_size, instruction_byte, byte2, byte3);

                    let instruction = DEC(register);
                    let [instruction_byte, byte2, byte3] =
                        encode_generic_block_0(instruction.clone());
                    assert_decode(instruction, expected_size, instruction_byte, byte2, byte3);
                }
            }
        }
    }

    // Stop
    {
        let [instruction_byte, byte2, byte3] = encode_generic_block_0(STOP());
        assert_decode(STOP(), 2, instruction_byte, byte2, byte3);
    }

    // LD r, n
    {
        let expected_size = 2;

        for operand in 0..=7 {
            let r8_operand = R8Operand::from_byte(operand);

            match r8_operand {
                R8Operand::HLInd => {
                    let random_u8: u8 = 233;
                    let instruction = LDToHlIndImm(random_u8);
                    let [instruction_byte, byte2, byte3] =
                        encode_generic_block_0(instruction.clone());
                    assert_decode(instruction, expected_size, instruction_byte, byte2, byte3);
                }
                _ => {
                    let register = Register::from_r8_operand(r8_operand);
                    let random_u8: u8 = 201;
                    let instruction = LDImm(register.clone(), random_u8);
                    let [instruction_byte, byte2, byte3] =
                        encode_generic_block_0(instruction.clone());
                    assert_decode(instruction, expected_size, instruction_byte, byte2, byte3);
                }
            }
        }
    }

    // jump
    {
        let expected_size = 2;

        let random_u8 = 104;
        let instruction = JR(random_u8);
        let [instruction_byte, byte2, byte3] = encode_generic_block_0(instruction.clone());
        assert_decode(instruction, expected_size, instruction_byte, byte2, byte3);

        for operand in 0..=3 {
            let cond = FlowCondition::from_byte(operand);

            let random_u8 = -80;
            let instruction = JRCC(cond, random_u8);
            let [instruction_byte, byte2, byte3] = encode_generic_block_0(instruction.clone());
            assert_decode(instruction, expected_size, instruction_byte, byte2, byte3);
        }
    }

    // inc/dec/addhl 16
    {
        let expected_size = 1;

        for operand in 0..=3 {
            let r16_operand = R16Operand::from_byte(operand);
            let register_16 = Register16::from_r16_operand(r16_operand);

            let instructions = [
                INC16(register_16.clone()),
                DEC16(register_16.clone()),
                ADDHL(register_16.clone()),
            ];

            for instruction in instructions {
                let [instruction_byte, byte2, byte3] = encode_generic_block_0(instruction.clone());
                assert_decode(instruction, expected_size, instruction_byte, byte2, byte3);
            }
        }
    }

    // ld [imm16], sp/ld rr, nn
    {
        let expected_size = 3;

        for operand in 0..=3 {
            let r16_operand = R16Operand::from_byte(operand);
            let register_16 = Register16::from_r16_operand(r16_operand);

            let instruction = LDImm16(register_16, 32450);
            let [instruction_byte, byte2, byte3] = encode_generic_block_0(instruction.clone());
            assert_decode(instruction, expected_size, instruction_byte, byte2, byte3);
        }

        let instruction = LDToImmIndFromSP(12450);
        let [instruction_byte, byte2, byte3] = encode_generic_block_0(instruction.clone());
        assert_decode(instruction, expected_size, instruction_byte, byte2, byte3);
    }

    // ld [r16mem], a/ld a, [r16mem]
    {
        let expected_size = 1;

        let instructions = [
            LDToBCIndFromA(),
            LDToDEIndFromA(),
            LDToHLIndIncFromA(),
            LDToHLIndDecFromA(),
            LDFromBCIndToA(),
            LDFromDEIndToA(),
            LDFromHLIndIncToA(),
            LDFromHLIndDecToA(),
        ];

        for instruction in instructions {
            let [instruction_byte, byte2, byte3] = encode_generic_block_0(instruction.clone());
            assert_decode(instruction, expected_size, instruction_byte, byte2, byte3);
        }
    }
}

#[test]
fn decoder_test_decode_block_1() {
    let expected_size = 1;

    let operands_r8 = [
        Register::A,
        Register::B,
        Register::C,
        Register::D,
        Register::E,
        Register::H,
        Register::L,
    ];

    for register_source in &operands_r8 {
        for register_dest in &operands_r8 {
            let instruction = LD(register_dest.clone(), register_source.clone());
            let instruction_byte = encode_generic_block_1(instruction.clone());
            assert_decode(instruction, expected_size, instruction_byte, 0, 0);
        }

        let instruction = LDToHLInd(register_source.clone());
        let instruction_byte = encode_generic_block_1(instruction.clone());
        assert_decode(instruction, expected_size, instruction_byte, 0, 0);
    }

    let instruction = HALT();
    let instruction_byte = encode_generic_block_1(instruction.clone());
    assert_decode(instruction, expected_size, instruction_byte, 0, 0);
}

#[test]
fn decoder_test_decode_block_2() {
    let expected_size = 1;

    let operands_r8 = [
        Register::A,
        Register::B,
        Register::C,
        Register::D,
        Register::E,
        Register::H,
        Register::L,
    ];

    for reg in operands_r8 {
        let instructions = [
            ADD(reg.clone()),
            ADDC(reg.clone()),
            SUB(reg.clone()),
            SUB(reg.clone()),
            AND(reg.clone()),
            XOR(reg.clone()),
            OR(reg.clone()),
            CP(reg.clone()),
        ];

        for instruction in instructions {
            let instruction_byte = encode_generic_block_2(instruction.clone());
            assert_decode(instruction, expected_size, instruction_byte, 0, 0);
        }
    }

    let instructions = [
        ADDHLInd(),
        ADDCHLInd(),
        SUBHLInd(),
        SUBCHLInd(),
        ANDHLInd(),
        XORHLInd(),
        ORHLInd(),
        CPHLInd(),
    ];

    for instruction in instructions {
        let instruction_byte = encode_generic_block_2(instruction.clone());
        assert_decode(instruction, expected_size, instruction_byte, 0, 0);
    }
}

#[test]
fn decoder_test_decode_block_3() {
    // test 1 byte, no params instructions
    {
        let expected_size = 1;
        let instructions = [
            DI(),
            EI(),
            LDSPFromHL(),
            LDFromAToCInd(),
            LDToAFromCInd(),
            RET(),
            RETI(),
            JPHL(),
        ];

        for instruction in instructions {
            let [instruction_byte, byte2, byte3] = encode_generic_block_3(instruction.clone());
            assert_decode(instruction, expected_size, instruction_byte, byte2, byte3);
        }
    }

    // 8bit imm
    {
        let expected_size = 2;

        let numbers: [u8; 4] = [200, 127, 0, 50];

        for number in numbers {
            let instructions = [
                ADDImm(number),
                ADDCImm(number),
                SUBImm(number),
                SUBCImm(number),
                ANDImm(number),
                ORImm(number),
                XORImm(number),
                CPImm(number),
                ADDSPImm(number as i8),
                LDHLFromAdjustedSP(number as i8),
                LDFromImmIndToA8(number),
                LDToImmIndFromA8(number),
            ];

            for instruction in instructions {
                let [instruction_byte, byte2, byte3] = encode_generic_block_3(instruction.clone());
                assert_decode(instruction, expected_size, instruction_byte, byte2, byte3);
            }
        }
    }

    // Stack
    {
        let expected_size = 1;

        for operand in 0..=3 {
            let r16stk_operand = R16StkOperand::from_byte(operand);
            let register_16 = Register16::from_r16stk_operand(r16stk_operand);

            let instructions = [POP(register_16.clone()), PUSH(register_16.clone())];

            for instruction in instructions {
                let [instruction_byte, byte2, byte3] = encode_generic_block_3(instruction.clone());
                assert_decode(instruction, expected_size, instruction_byte, byte2, byte3);
            }
        }
    }

    // reset
    {
        let expected_size = 1;
        let instruction = RST(7);
        let [instruction_byte, byte2, byte3] = encode_generic_block_3(instruction.clone());
        assert_decode(instruction, expected_size, instruction_byte, byte2, byte3);
    }

    // ret cond
    {
        let expected_size = 1;

        for operand in 0..=3 {
            let cond = FlowCondition::from_byte(operand);
            let instruction = RETCC(cond);
            let [instruction_byte, byte2, byte3] = encode_generic_block_3(instruction.clone());
            assert_decode(instruction, expected_size, instruction_byte, byte2, byte3);
        }
    }

    // 16-bit cond
    {
        let expected_size = 3;

        for operand in 0..=3 {
            let cond = FlowCondition::from_byte(operand);
            let instructions = [JPCC(cond.clone(), 33402), CALLCC(cond.clone(), 10490)];

            for instruction in instructions {
                let [instruction_byte, byte2, byte3] = encode_generic_block_3(instruction.clone());
                assert_decode(instruction, expected_size, instruction_byte, byte2, byte3);
            }
        }
    }

    // 16-bit absolute
    {
        let expected_size = 3;

        let instructions = [
            JP(33402),
            CALL(10490),
            LDFromImmIndToA(23400),
            LDToImmIndFromA(23400),
        ];

        for instruction in instructions {
            let [instruction_byte, byte2, byte3] = encode_generic_block_3(instruction.clone());
            assert_decode(instruction, expected_size, instruction_byte, byte2, byte3);
        }
    }
}
